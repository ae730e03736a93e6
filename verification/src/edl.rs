//! First-generation EDL writer: edits between two timecoded requests and
//! their CMX3600 lines with numbered audio channels (`VA1A2`).

use vstd::prelude::*;
use vstd::string::{StrSliceExecFns, StringExecFns};

use crate::frame_queue::{EditType, FrameData, FrameDataView};
use crate::text::{decimal, decimal_spec, pad_left, str_equal, three_digits};
use crate::timecode::Timecode;

verus! {

/// Frame count mode of an EDL.
#[derive(Clone, Copy, Debug, PartialEq, Eq, Structural)]
pub enum Ntsc {
    DropFrame,
    NonDropFrame,
}

impl Ntsc {
    pub open spec fn text_spec(self) -> Seq<char> {
        match self {
            Ntsc::DropFrame => "Drop Frame"@,
            Ntsc::NonDropFrame => "Non-Drop Frame"@,
        }
    }

    /// `Drop Frame` or `Non-Drop Frame`.
    pub fn as_str(self) -> (s: &'static str)
        ensures
            s@ == self.text_spec(),
    {
        match self {
            Ntsc::DropFrame => "Drop Frame",
            Ntsc::NonDropFrame => "Non-Drop Frame",
        }
    }

    /// The mode named exactly by `value`.
    pub open spec fn parse_text(value: Seq<char>) -> Option<Ntsc> {
        if value == Ntsc::NonDropFrame.text_spec() {
            Some(Ntsc::NonDropFrame)
        } else if value == Ntsc::DropFrame.text_spec() {
            Some(Ntsc::DropFrame)
        } else {
            None
        }
    }

    /// The mode named exactly by `value`; `None` for any other text.
    pub fn try_from_str(value: &str) -> (r: Option<Ntsc>)
        ensures
            r == Ntsc::parse_text(value@),
    {
        if str_equal(value, Ntsc::NonDropFrame.as_str()) {
            Some(Ntsc::NonDropFrame)
        } else if str_equal(value, Ntsc::DropFrame.as_str()) {
            Some(Ntsc::DropFrame)
        } else {
            None
        }
    }
}

/// The name of a mode reads back as that mode.
pub proof fn lemma_ntsc_name_reads_back(n: Ntsc)
    ensures
        Ntsc::parse_text(n.text_spec()) == Some(n),
{
    reveal_strlit("Drop Frame");
    reveal_strlit("Non-Drop Frame");
    assert(Ntsc::DropFrame.text_spec().len() != Ntsc::NonDropFrame.text_spec().len());
}

/// Why an edit could not be built or written.
#[derive(Clone, Copy, Debug, PartialEq, Eq, Structural)]
pub enum EditError {
    /// A three-digit column would need 1000 or more.
    NumberTooLarge(u32),
    /// A dissolve or wipe without its duration in frames.
    MissingDuration(EditType),
}

/// Video and audio channels of an edit.
#[derive(Clone, Copy, Debug, PartialEq, Eq, Structural)]
pub struct AVChannels {
    pub video: bool,
    pub audio: u8,
}

/// `A1A2…An`: one label per audio channel, numbered from 1.
pub open spec fn audio_labels(n: nat) -> Seq<char>
    decreases n,
{
    if n == 0 {
        Seq::empty()
    } else {
        audio_labels((n - 1) as nat) + seq!['A'] + decimal_spec(n)
    }
}

/// The channel column: `V` for video, then the numbered audio labels.
pub open spec fn av_text_spec(video: bool, audio: u8) -> Seq<char> {
    (if video {
        seq!['V']
    } else {
        Seq::<char>::empty()
    }) + audio_labels(audio as nat)
}

impl AVChannels {
    pub fn new(video: bool, audio: u8) -> (r: Self)
        ensures
            r.video == video,
            r.audio == audio,
    {
        AVChannels { video, audio }
    }

    /// The channel column text, e.g. `VA1A2`.
    pub fn to_edl_string(&self) -> (s: String)
        requires
            self.audio < 255,
        ensures
            s@ == av_text_spec(self.video, self.audio),
    {
        proof {
            reveal_strlit("V");
            reveal_strlit("");
        }
        let mut acc = if self.video { String::from_str("V") } else { String::from_str("") };
        let end: u8 = self.audio + 1;
        let mut curr: u8 = 1;
        assert(acc@ =~= av_text_spec(self.video, 0));
        while curr < end
            invariant
                end == self.audio + 1,
                1 <= curr <= end,
                acc@ == av_text_spec(self.video, (curr - 1) as u8),
            decreases end - curr,
        {
            let ghost prev = acc@;
            proof {
                reveal_strlit("A");
            }
            acc.append("A");
            let n = decimal(curr as u64);
            acc.append(n.as_str());
            proof {
                assert("A"@ =~= seq!['A']);
                assert(acc@ =~= prev + seq!['A'] + decimal_spec(curr as nat));
                assert(audio_labels(curr as nat) == audio_labels((curr - 1) as nat) + seq!['A']
                    + decimal_spec(curr as nat));
                assert(acc@ =~= av_text_spec(self.video, curr));
            }
            curr = curr + 1;
        }
        acc
    }
}

impl Default for AVChannels {
    /// Video with two audio channels.
    fn default() -> (r: Self)
        ensures
            r.video,
            r.audio == 2,
    {
        AVChannels { video: true, audio: 2 }
    }
}

/// The first eight characters of a tape name (all of a shorter one).
pub open spec fn trim_tape_name_spec(tape: Seq<char>) -> Seq<char> {
    if tape.len() <= 8 {
        tape
    } else {
        tape.take(8)
    }
}

/// The tape name cut to its first eight characters.
pub fn trim_tape_name(tape: String) -> (r: String)
    ensures
        r@ == trim_tape_name_spec(tape@),
{
    let n = tape.as_str().unicode_len();
    let end = if n < 8 { n } else { 8 };
    let r = String::from_str(tape.as_str().substring_char(0, end));
    assert(r@ =~= trim_tape_name_spec(tape@));
    r
}

/// `num` as three zero-padded digits; an error when it is 1000 or more.
pub fn validate_num_size(num: u32) -> (r: Result<String, EditError>)
    ensures
        match r {
            Ok(s) => num < 1000 && s@ == three_digits(num as nat),
            Err(e) => num >= 1000 && e == EditError::NumberTooLarge(num),
        },
{
    if num < 1000 {
        let digits = decimal(num as u64);
        proof {
            reveal_strlit("0");
            assert("0"@ =~= seq!['0']);
        }
        Ok(pad_left(digits.as_str(), 3, "0"))
    } else {
        Err(EditError::NumberTooLarge(num))
    }
}

/// One clip of an edit.
#[derive(Debug)]
pub struct Clip {
    pub edit_number: usize,
    pub source_tape: String,
    pub av_channels: AVChannels,
    pub source_in: Timecode,
    pub source_out: Timecode,
    pub record_in: Timecode,
    pub record_out: Timecode,
}

pub struct ClipView {
    pub edit_number: usize,
    pub source_tape: Seq<char>,
    pub av_channels: AVChannels,
    pub source_in: Timecode,
    pub source_out: Timecode,
    pub record_in: Timecode,
    pub record_out: Timecode,
}

impl View for Clip {
    type V = ClipView;

    open spec fn view(&self) -> ClipView {
        ClipView {
            edit_number: self.edit_number,
            source_tape: self.source_tape@,
            av_channels: self.av_channels,
            source_in: self.source_in,
            source_out: self.source_out,
            record_in: self.record_in,
            record_out: self.record_out,
        }
    }
}

impl ClipView {
    /// All timecodes can be written and the audio count can be labelled.
    pub open spec fn wf(self) -> bool {
        &&& self.source_in.printable()
        &&& self.source_out.printable()
        &&& self.record_in.printable()
        &&& self.record_out.printable()
        &&& self.av_channels.audio < 255
    }
}

#[derive(Debug)]
pub struct Dissolve {
    pub from: Clip,
    pub to: Clip,
    pub edit_duration_frames: u32,
}

#[derive(Debug)]
pub struct Wipe {
    pub from: Clip,
    pub to: Clip,
    pub wipe_number: u32,
    pub edit_duration_frames: u32,
}

/// One edit of the list.
#[derive(Debug)]
pub enum Edit {
    Cut(Clip),
    Dissolve(Dissolve),
    Wipe(Wipe),
}

pub enum EditView {
    Cut(ClipView),
    Dissolve { from: ClipView, to: ClipView, edit_duration_frames: u32 },
    Wipe { from: ClipView, to: ClipView, wipe_number: u32, edit_duration_frames: u32 },
}

impl View for Edit {
    type V = EditView;

    open spec fn view(&self) -> EditView {
        match self {
            Edit::Cut(c) => EditView::Cut(c@),
            Edit::Dissolve(d) => EditView::Dissolve {
                from: d.from@,
                to: d.to@,
                edit_duration_frames: d.edit_duration_frames,
            },
            Edit::Wipe(w) => EditView::Wipe {
                from: w.from@,
                to: w.to@,
                wipe_number: w.wipe_number,
                edit_duration_frames: w.edit_duration_frames,
            },
        }
    }
}

impl EditView {
    pub open spec fn wf(self) -> bool {
        match self {
            EditView::Cut(c) => c.wf(),
            EditView::Dissolve { from, to, .. } => from.wf() && to.wf(),
            EditView::Wipe { from, to, .. } => from.wf() && to.wf(),
        }
    }
}

/// Whether a clip's line can be written.
pub open spec fn line_ok(c: ClipView, d: Option<u32>) -> bool {
    &&& (c.edit_number as u32) < 1000
    &&& (d matches Some(n) ==> n < 1000)
}

/// The line of a clip: edit number, tape (eight characters), channels,
/// edit type, duration, record in/out, source in/out.
pub open spec fn line_spec(c: ClipView, edit_type: Seq<char>, d: Option<u32>) -> Seq<char> {
    three_digits((c.edit_number as u32) as nat) + "   "@ + trim_tape_name_spec(c.source_tape)
        + "   "@ + av_text_spec(c.av_channels.video, c.av_channels.audio) + "   "@ + edit_type
        + " "@ + (match d {
        Some(n) => three_digits(n as nat),
        None => "   "@,
    }) + " "@ + c.record_in.text_spec() + " "@ + c.record_out.text_spec() + " "@
        + c.source_in.text_spec() + " "@ + c.source_out.text_spec()
}

pub open spec fn edit_text_ok(e: EditView) -> bool {
    match e {
        EditView::Cut(c) => line_ok(c, None),
        EditView::Dissolve { from, to, edit_duration_frames } => line_ok(from, None) && line_ok(
            to,
            Some(edit_duration_frames),
        ),
        EditView::Wipe { from, to, wipe_number, edit_duration_frames } => wipe_number < 1000
            && line_ok(from, None) && line_ok(to, Some(edit_duration_frames)),
    }
}

/// The text of an edit: its line(s), then the clip name comments.
pub open spec fn edit_text(e: EditView) -> Seq<char> {
    match e {
        EditView::Cut(c) => "\n"@ + line_spec(c, "C   "@, None) + "\n"@ + "* FROM CLIP NAME: "@
            + c.source_tape,
        EditView::Dissolve { from, to, edit_duration_frames } => "\n"@ + line_spec(
            from,
            "C   "@,
            None,
        ) + "\n"@ + line_spec(to, "D   "@, Some(edit_duration_frames)) + "\n"@
            + "* FROM CLIP NAME: "@ + from.source_tape + "\n"@ + "* TO CLIP NAME: "@
            + to.source_tape,
        EditView::Wipe { from, to, wipe_number, edit_duration_frames } => "\n"@ + line_spec(
            from,
            "C   "@,
            None,
        ) + "\n"@ + line_spec(to, "W"@ + three_digits(wipe_number as nat), Some(edit_duration_frames))
            + "\n"@ + "* FROM CLIP NAME: "@ + from.source_tape + "\n"@ + "* TO CLIP NAME: "@
            + to.source_tape,
    }
}

/// The columns of one line.
#[derive(Debug)]
pub struct EdlEditLine {
    edit_number: String,
    edit_duration_frames: String,
    source_tape: String,
    edit_type: String,
    av_channels: String,
    source_in: String,
    source_out: String,
    record_in: String,
    record_out: String,
}

impl EdlEditLine {
    pub closed spec fn text_spec(&self) -> Seq<char> {
        self.edit_number@ + "   "@ + self.source_tape@ + "   "@ + self.av_channels@ + "   "@
            + self.edit_type@ + " "@ + self.edit_duration_frames@ + " "@ + self.record_in@ + " "@
            + self.record_out@ + " "@ + self.source_in@ + " "@ + self.source_out@
    }

    pub fn from_clip(clip: &Clip, edit_type: String, edit_duration_frames: Option<u32>) -> (r:
        Result<Self, EditError>)
        requires
            clip@.wf(),
        ensures
            match r {
                Ok(line) => line_ok(clip@, edit_duration_frames) && line.text_spec() == line_spec(
                    clip@,
                    edit_type@,
                    edit_duration_frames,
                ),
                Err(_) => !line_ok(clip@, edit_duration_frames),
            },
    {
        let edit_duration_frames = match edit_duration_frames {
            Some(n) => validate_num_size(n)?,
            None => String::from_str("   "),
        };
        Ok(EdlEditLine {
            edit_number: validate_num_size(clip.edit_number as u32)?,
            source_tape: trim_tape_name(clip.source_tape.clone()),
            av_channels: clip.av_channels.to_edl_string(),
            source_in: clip.source_in.timecode(),
            source_out: clip.source_out.timecode(),
            record_in: clip.record_in.timecode(),
            record_out: clip.record_out.timecode(),
            edit_duration_frames,
            edit_type,
        })
    }

    pub fn into_string(self) -> (s: String)
        ensures
            s@ == self.text_spec(),
    {
        let mut s = self.edit_number;
        s.append("   ");
        s.append(self.source_tape.as_str());
        s.append("   ");
        s.append(self.av_channels.as_str());
        s.append("   ");
        s.append(self.edit_type.as_str());
        s.append(" ");
        s.append(self.edit_duration_frames.as_str());
        s.append(" ");
        s.append(self.record_in.as_str());
        s.append(" ");
        s.append(self.record_out.as_str());
        s.append(" ");
        s.append(self.source_in.as_str());
        s.append(" ");
        s.append(self.source_out.as_str());
        s
    }
}

impl Edit {
    /// The edit type texts of the first and second line.
    pub fn get_strs(&self) -> (r: Result<(String, String), EditError>)
        ensures
            match r {
                Ok((c, second)) => c@ == "C   "@ && match self@ {
                    EditView::Cut(_) => second@ == ""@,
                    EditView::Dissolve { .. } => second@ == "D   "@,
                    EditView::Wipe { wipe_number, .. } => wipe_number < 1000 && second@ == "W"@
                        + three_digits(wipe_number as nat),
                },
                Err(e) => self@ matches EditView::Wipe { wipe_number, .. } && wipe_number >= 1000
                    && e == EditError::NumberTooLarge(wipe_number),
            },
    {
        let c = String::from_str("C   ");
        match self {
            Edit::Cut(_) => Ok((c, String::from_str(""))),
            Edit::Dissolve(_) => Ok((c, String::from_str("D   "))),
            Edit::Wipe(w) => {
                let num_str = validate_num_size(w.wipe_number)?;
                let mut second = String::from_str("W");
                second.append(num_str.as_str());
                Ok((c, second))
            },
        }
    }

    /// The text of the edit in the EDL.
    pub fn to_edl_string(&self) -> (r: Result<String, EditError>)
        requires
            self@.wf(),
        ensures
            match r {
                Ok(s) => edit_text_ok(self@) && s@ == edit_text(self@),
                Err(_) => !edit_text_ok(self@),
            },
    {
        let (cut_one_str, cut_two_str) = self.get_strs()?;
        match self {
            Edit::Cut(clip) => {
                let from = EdlEditLine::from_clip(clip, cut_one_str, None)?.into_string();
                let mut s = String::from_str("\n");
                s.append(from.as_str());
                s.append("\n");
                s.append("* FROM CLIP NAME: ");
                s.append(clip.source_tape.as_str());
                Ok(s)
            },
            Edit::Dissolve(d) => {
                let from = EdlEditLine::from_clip(&d.from, cut_one_str, None)?.into_string();
                let to = EdlEditLine::from_clip(
                    &d.to,
                    cut_two_str,
                    Some(d.edit_duration_frames),
                )?.into_string();
                let mut s = String::from_str("\n");
                s.append(from.as_str());
                s.append("\n");
                s.append(to.as_str());
                s.append("\n");
                s.append("* FROM CLIP NAME: ");
                s.append(d.from.source_tape.as_str());
                s.append("\n");
                s.append("* TO CLIP NAME: ");
                s.append(d.to.source_tape.as_str());
                Ok(s)
            },
            Edit::Wipe(w) => {
                let from = EdlEditLine::from_clip(&w.from, cut_one_str, None)?.into_string();
                let to = EdlEditLine::from_clip(
                    &w.to,
                    cut_two_str,
                    Some(w.edit_duration_frames),
                )?.into_string();
                let mut s = String::from_str("\n");
                s.append(from.as_str());
                s.append("\n");
                s.append(to.as_str());
                s.append("\n");
                s.append("* FROM CLIP NAME: ");
                s.append(w.from.source_tape.as_str());
                s.append("\n");
                s.append("* TO CLIP NAME: ");
                s.append(w.to.source_tape.as_str());
                Ok(s)
            },
        }
    }
}

/// The clip a request goes to, running to the next request's timecode.
pub open spec fn dest_clip_spec(in_: FrameDataView, out_: FrameDataView) -> ClipView {
    ClipView {
        edit_number: in_.edit_number,
        source_tape: in_.source_tape,
        av_channels: in_.av_channels,
        source_in: in_.timecode,
        source_out: out_.timecode,
        record_in: in_.timecode,
        record_out: out_.timecode,
    }
}

/// The clip a request leaves, as the single instant of the request.
pub open spec fn prev_clip_spec(in_: FrameDataView) -> ClipView {
    ClipView {
        edit_number: in_.edit_number,
        source_tape: in_.prev_tape,
        av_channels: in_.av_channels,
        source_in: in_.timecode,
        source_out: in_.timecode,
        record_in: in_.timecode,
        record_out: in_.timecode,
    }
}

/// The edit two consecutive requests make.
pub open spec fn edit_spec(in_: FrameDataView, out_: FrameDataView) -> Result<EditView, EditError> {
    match in_.edit_type {
        EditType::Cut => Ok(EditView::Cut(dest_clip_spec(in_, out_))),
        EditType::Dissolve => match in_.edit_duration_frames {
            Some(d) => Ok(
                EditView::Dissolve {
                    from: prev_clip_spec(in_),
                    to: dest_clip_spec(in_, out_),
                    edit_duration_frames: d,
                },
            ),
            None => Err(EditError::MissingDuration(EditType::Dissolve)),
        },
        EditType::Wipe => match in_.edit_duration_frames {
            Some(d) => Ok(
                EditView::Wipe {
                    from: prev_clip_spec(in_),
                    to: dest_clip_spec(in_, out_),
                    wipe_number: match in_.wipe_num {
                        Some(n) => n,
                        None => 1,
                    },
                    edit_duration_frames: d,
                },
            ),
            None => Err(EditError::MissingDuration(EditType::Wipe)),
        },
    }
}

/// A request and the request after it.
pub struct FrameDataPair<'a> {
    in_: &'a FrameData,
    out_: &'a FrameData,
}

impl<'a> FrameDataPair<'a> {
    pub closed spec fn in_view(&self) -> FrameDataView {
        self.in_@
    }

    pub closed spec fn out_view(&self) -> FrameDataView {
        self.out_@
    }

    pub fn new(in_: &'a FrameData, out_: &'a FrameData) -> (p: Self)
        ensures
            p.in_view() == in_@,
            p.out_view() == out_@,
    {
        FrameDataPair { in_, out_ }
    }

    pub fn as_edit_dest_clip(&self) -> (c: Clip)
        ensures
            c@ == dest_clip_spec(self.in_view(), self.out_view()),
    {
        Clip {
            edit_number: self.in_.edit_number,
            source_tape: self.in_.source_tape.clone(),
            av_channels: self.in_.av_channels,
            source_in: self.in_.timecode,
            source_out: self.out_.timecode,
            record_in: self.in_.timecode,
            record_out: self.out_.timecode,
        }
    }

    pub fn as_edit_prev_clip(&self) -> (c: Clip)
        ensures
            c@ == prev_clip_spec(self.in_view()),
    {
        Clip {
            edit_number: self.in_.edit_number,
            source_tape: self.in_.prev_tape.clone(),
            av_channels: self.in_.av_channels,
            source_in: self.in_.timecode,
            source_out: self.in_.timecode,
            record_in: self.in_.timecode,
            record_out: self.in_.timecode,
        }
    }

    /// The edit the two requests make; an error for a dissolve or wipe
    /// without a duration.
    pub fn to_edit(&self) -> (r: Result<Edit, EditError>)
        ensures
            match r {
                Ok(e) => edit_spec(self.in_view(), self.out_view()) == Ok::<EditView, EditError>(e@),
                Err(err) => edit_spec(self.in_view(), self.out_view()) == Err::<EditView, EditError>(
                    err,
                ),
            },
    {
        match self.in_.edit_type {
            EditType::Cut => Ok(Edit::Cut(self.as_edit_dest_clip())),
            EditType::Dissolve => match self.in_.edit_duration_frames {
                Some(d) => {
                    let from = self.as_edit_prev_clip();
                    let to = self.as_edit_dest_clip();
                    Ok(Edit::Dissolve(Dissolve { edit_duration_frames: d, from, to }))
                },
                None => Err(EditError::MissingDuration(EditType::Dissolve)),
            },
            EditType::Wipe => match self.in_.edit_duration_frames {
                Some(d) => {
                    let from = self.as_edit_prev_clip();
                    let to = self.as_edit_dest_clip();
                    let wipe_number = match self.in_.wipe_num {
                        Some(n) => n,
                        None => 1,
                    };
                    Ok(Edit::Wipe(Wipe { edit_duration_frames: d, from, to, wipe_number }))
                },
                None => Err(EditError::MissingDuration(EditType::Wipe)),
            },
        }
    }
}

/// The header of a first-generation EDL file.
pub open spec fn header_spec(title: Seq<char>, ntsc: Ntsc) -> Seq<char> {
    "TITLE: "@ + title + "\n"@ + "FCM: "@ + ntsc.text_spec() + "\n"@
}

/// The header lines of the file.
pub fn header(title: &str, ntsc: Ntsc) -> (s: String)
    ensures
        s@ == header_spec(title@, ntsc),
{
    let mut s = String::from_str("TITLE: ");
    s.append(title);
    s.append("\n");
    s.append("FCM: ");
    s.append(ntsc.as_str());
    s.append("\n");
    s
}

/// The file name of the `i`-th try for a title: `title.edl`, then
/// `title(1).edl`, `title(2).edl`, and so on.
pub open spec fn file_name_spec(title: Seq<char>, i: u32) -> Seq<char> {
    if i == 0 {
        title + ".edl"@
    } else {
        title + "("@ + decimal_spec(i as nat) + ").edl"@
    }
}

pub fn file_name(title: &str, i: u32) -> (s: String)
    ensures
        s@ == file_name_spec(title@, i),
{
    let mut s = String::from_str(title);
    if i == 0 {
        s.append(".edl");
    } else {
        s.append("(");
        let n = decimal(i as u64);
        s.append(n.as_str());
        s.append(").edl");
    }
    s
}

} // verus!
