//! CMX3600 EDL events: channels, source tapes, clips and the text lines
//! that an event becomes in the EDL file.

pub mod edit_queue;

use vstd::prelude::*;
use vstd::string::StringExecFns;

use crate::text::{
    decimal, decimal_bytes, decimal_spec, eq_ignore_ascii_case, eq_ignore_ascii_case_spec, lemma_decimal_ascii,
    lemma_decimal_digits,
    pad_left, pad_left_spec, repeat_char, str_equal, three_digits,
};
use crate::timecode::{seconds_lt, RateNtsc, Timecode, MAX_FRAMES};
use edit_queue::{Edit, EditQueue, OrderedEdit, OrderedEditView};

verus! {

/// Frame count mode written in the `FCM:` header of an EDL.
#[derive(Clone, Copy, Debug, PartialEq, Eq, Structural)]
pub enum Ntsc {
    DropFrame,
    NonDropFrame,
}

impl Ntsc {
    /// The header text of each mode.
    pub open spec fn text_spec(self) -> Seq<char> {
        match self {
            Ntsc::DropFrame => "DROP FRAME"@,
            Ntsc::NonDropFrame => "NON-DROP FRAME"@,
        }
    }

    /// The header text, `DROP FRAME` or `NON-DROP FRAME`.
    pub fn as_str(self) -> (s: &'static str)
        ensures
            s@ == self.text_spec(),
    {
        match self {
            Ntsc::DropFrame => "DROP FRAME",
            Ntsc::NonDropFrame => "NON-DROP FRAME",
        }
    }

    /// The mode whose header text is `value`.
    pub open spec fn parse_text(value: Seq<char>) -> Option<Ntsc> {
        if value == Ntsc::NonDropFrame.text_spec() {
            Some(Ntsc::NonDropFrame)
        } else if value == Ntsc::DropFrame.text_spec() {
            Some(Ntsc::DropFrame)
        } else {
            None
        }
    }

    /// The mode whose header text is `value`; `None` for any other text.
    pub fn try_from_str(value: &str) -> (r: Option<Ntsc>)
        ensures
            r == Ntsc::parse_text(value@),
    {
        if str_equal(value, Ntsc::NonDropFrame.as_str()) {
            Some(Ntsc::NonDropFrame)
        } else if str_equal(value, Ntsc::DropFrame.as_str()) {
            Some(Ntsc::DropFrame)
        } else {
            None
        }
    }

    /// The NTSC flavour of the timecode rate for this mode.
    pub fn as_vtc(&self) -> (r: RateNtsc)
        ensures
            r == (match *self {
                Ntsc::DropFrame => RateNtsc::DropFrame,
                Ntsc::NonDropFrame => RateNtsc::NonDropFrame,
            }),
    {
        match self {
            Ntsc::DropFrame => RateNtsc::DropFrame,
            Ntsc::NonDropFrame => RateNtsc::NonDropFrame,
        }
    }
}

/// The header text of a mode reads back as that mode.
pub proof fn lemma_ntsc_text_reads_back(n: Ntsc)
    ensures
        Ntsc::parse_text(n.text_spec()) == Some(n),
{
    reveal_strlit("DROP FRAME");
    reveal_strlit("NON-DROP FRAME");
    assert(Ntsc::DropFrame.text_spec().len() != Ntsc::NonDropFrame.text_spec().len());
}

/// Kind of transition that starts an edit.
#[derive(Clone, Copy, Debug, PartialEq, Eq, Structural)]
pub enum EditType {
    Cut,
    Dissolve,
    Wipe,
}

impl EditType {
    /// The lower-case name of each kind.
    pub open spec fn name_spec(self) -> Seq<char> {
        match self {
            EditType::Cut => "cut"@,
            EditType::Wipe => "wipe"@,
            EditType::Dissolve => "dissolve"@,
        }
    }

    /// The lower-case name: `cut`, `wipe` or `dissolve`.
    pub fn as_str(self) -> (s: &'static str)
        ensures
            s@ == self.name_spec(),
    {
        match self {
            EditType::Cut => "cut",
            EditType::Wipe => "wipe",
            EditType::Dissolve => "dissolve",
        }
    }

    /// The kind whose name equals `value` up to ASCII case.
    pub open spec fn parse_name(value: Seq<char>) -> Option<EditType> {
        if eq_ignore_ascii_case_spec(value, EditType::Cut.name_spec()) {
            Some(EditType::Cut)
        } else if eq_ignore_ascii_case_spec(value, EditType::Wipe.name_spec()) {
            Some(EditType::Wipe)
        } else if eq_ignore_ascii_case_spec(value, EditType::Dissolve.name_spec()) {
            Some(EditType::Dissolve)
        } else {
            None
        }
    }

    /// The kind whose name equals `value` up to ASCII case; `None` otherwise.
    pub fn try_from_str(value: &str) -> (r: Option<EditType>)
        ensures
            r == EditType::parse_name(value@),
    {
        if eq_ignore_ascii_case(value, EditType::Cut.as_str()) {
            Some(EditType::Cut)
        } else if eq_ignore_ascii_case(value, EditType::Wipe.as_str()) {
            Some(EditType::Wipe)
        } else if eq_ignore_ascii_case(value, EditType::Dissolve.as_str()) {
            Some(EditType::Dissolve)
        } else {
            None
        }
    }
}

/// The name of an edit kind reads back as that kind.
pub proof fn lemma_edit_type_name_reads_back(t: EditType)
    ensures
        EditType::parse_name(t.name_spec()) == Some(t),
{
    reveal_strlit("cut");
    reveal_strlit("wipe");
    reveal_strlit("dissolve");
}

/// Video and audio channels that an edit carries.
#[derive(Clone, Copy, Debug, PartialEq, Eq, Structural)]
pub struct AVChannels {
    pub video: bool,
    pub audio: u8,
}

/// The channel column of an EDL line: `V` for video, one `A` per audio
/// channel up to four, with `A/V` when both are present (e.g. `AA/V`).
pub open spec fn av_text_spec(video: bool, audio: u8) -> Seq<char> {
    let k: nat = if audio < 4 { audio as nat } else { 4 };
    av_partial_spec(video, k)
}

/// The channel text after the first `k` audio channels have been added.
pub open spec fn av_partial_spec(video: bool, k: nat) -> Seq<char> {
    if video {
        if k == 0 {
            seq!['V']
        } else {
            repeat_char('A', (k - 1) as nat) + seq!['A', '/', 'V']
        }
    } else {
        repeat_char('A', k)
    }
}

impl AVChannels {
    /// Channels with the given video flag and audio channel count.
    pub fn new(video: bool, audio: u8) -> (r: Self)
        ensures
            r.video == video,
            r.audio == audio,
    {
        Self { video, audio }
    }

    /// Video with no audio.
    pub fn video_only() -> (r: Self)
        ensures
            r.video,
            r.audio == 0,
    {
        AVChannels::new(true, 0)
    }

    /// The channel column text, e.g. `AA/V` for video and two audio channels.
    pub fn to_edl_string(&self) -> (s: String)
        ensures
            s@ == av_text_spec(self.video, self.audio),
    {
        let k: u8 = if self.audio < 4 { self.audio } else { 4 };
        proof {
            reveal_strlit("V");
            reveal_strlit("");
            reveal_strlit("A");
            reveal_strlit("A/");
        }
        let mut acc = if self.video { String::from_str("V") } else { String::from_str("") };
        assert(acc@ =~= av_partial_spec(self.video, 0));
        let mut curr: u8 = 1;
        while curr <= k
            invariant
                k <= 4,
                1 <= curr <= k + 1,
                acc@ == av_partial_spec(self.video, (curr - 1) as nat),
            decreases k + 1 - curr,
        {
            let mut next = if curr == 1 && self.video {
                String::from_str("A/")
            } else {
                String::from_str("A")
            };
            let ghost prev = acc@;
            let ghost head = next@;
            next.append(acc.as_str());
            acc = next;
            curr = curr + 1;
            proof {
                reveal_strlit("A");
                reveal_strlit("A/");
                assert("A"@ =~= seq!['A']);
                assert("A/"@ =~= seq!['A', '/']);
                assert(acc@ =~= head + prev);
                let j = (curr - 1) as nat;
                if self.video {
                    if j == 1 {
                        assert(acc@ =~= repeat_char('A', 0) + seq!['A', '/', 'V']);
                    } else {
                        assert(acc@ =~= seq!['A'] + (repeat_char('A', (j - 2) as nat) + seq![
                            'A',
                            '/',
                            'V',
                        ]));
                        assert(acc@ =~= repeat_char('A', (j - 1) as nat) + seq!['A', '/', 'V']);
                    }
                } else {
                    assert(acc@ =~= seq!['A'] + repeat_char('A', (j - 1) as nat));
                    assert(acc@ =~= repeat_char('A', j));
                }
            }
        }
        acc
    }
}

impl Default for AVChannels {
    /// Video with two audio channels.
    fn default() -> (r: Self)
        ensures
            r.video,
            r.audio == 2,
    {
        AVChannels::new(true, 2)
    }
}

pub proof fn lemma_av_text_ascii(video: bool, audio: u8)
    ensures
        vstd::utf8::is_ascii_chars(av_text_spec(video, audio)),
        av_text_spec(video, audio).len() <= 6,
{
    let k: nat = if audio < 4 { audio as nat } else { 4 };
    assert(vstd::utf8::is_ascii_chars(repeat_char('A', k)));
    if k > 0 {
        assert(vstd::utf8::is_ascii_chars(repeat_char('A', (k - 1) as nat)));
    }
    assert(vstd::utf8::is_ascii_chars(av_partial_spec(video, k)));
}

/// The source of a clip: a named tape (`AX`) or black (`BL`).
#[derive(Clone, Debug)]
pub enum SourceTape {
    AX(String),
    BL,
}

impl SourceTape {
    /// The tape name, or `None` for black.
    pub open spec fn name_view(&self) -> Option<Seq<char>> {
        match self {
            SourceTape::AX(name) => Some(name@),
            SourceTape::BL => None,
        }
    }

    /// The source-type column: `AX` for a named tape, `BL` for black.
    pub open spec fn source_type_spec(name: Option<Seq<char>>) -> Seq<char> {
        match name {
            Some(_) => "AX"@,
            None => "BL"@,
        }
    }

    /// The comment line naming the outgoing clip; empty for black.
    pub open spec fn from_clip_name_spec(name: Option<Seq<char>>) -> Seq<char> {
        match name {
            Some(n) => "\n* FROM CLIP NAME: "@ + n,
            None => Seq::empty(),
        }
    }

    /// The comment line naming the incoming clip; empty for black.
    pub open spec fn to_clip_name_spec(name: Option<Seq<char>>) -> Seq<char> {
        match name {
            Some(n) => "\n* TO CLIP NAME: "@ + n,
            None => Seq::empty(),
        }
    }

    pub fn as_source_type(&self) -> (s: &'static str)
        ensures
            s@ == Self::source_type_spec(self.name_view()),
    {
        match self {
            SourceTape::AX(_) => "AX",
            SourceTape::BL => "BL",
        }
    }

    pub fn as_from_clip_name(&self) -> (s: String)
        ensures
            s@ == Self::from_clip_name_spec(self.name_view()),
    {
        match self {
            SourceTape::AX(name) => {
                let mut s = String::from_str("\n* FROM CLIP NAME: ");
                s.append(name.as_str());
                s
            },
            SourceTape::BL => String::new(),
        }
    }

    pub fn as_to_clip_name(&self) -> (s: String)
        ensures
            s@ == Self::to_clip_name_spec(self.name_view()),
    {
        match self {
            SourceTape::AX(name) => {
                let mut s = String::from_str("\n* TO CLIP NAME: ");
                s.append(name.as_str());
                s
            },
            SourceTape::BL => String::new(),
        }
    }

    /// A named tape for `Some(name)`, black for `None`.
    pub fn from_option(opt: Option<&str>) -> (t: SourceTape)
        ensures
            t.name_view() == (match opt {
                Some(n) => Some(n@),
                None => None::<Seq<char>>,
            }),
    {
        match opt {
            Some(name) => SourceTape::AX(String::from_str(name)),
            None => SourceTape::BL,
        }
    }

    /// The tape name, or `BL` for black.
    pub fn as_str(&self) -> (s: &str)
        ensures
            s@ == (match self.name_view() {
                Some(n) => n,
                None => "BL"@,
            }),
    {
        match self {
            SourceTape::AX(name) => name.as_str(),
            SourceTape::BL => self.as_source_type(),
        }
    }

    /// The tape name, or `None` for black.
    pub fn to_option(&self) -> (r: Option<String>)
        ensures
            match r {
                Some(s) => self.name_view() == Some(s@),
                None => self.name_view() is None,
            },
    {
        match self {
            SourceTape::AX(name) => Some(name.clone()),
            SourceTape::BL => None,
        }
    }
}

/// Why an event or an edit could not be built or written.
#[derive(Clone, Copy, Debug, PartialEq, Eq, Structural)]
pub enum EdlError {
    /// A number written in a three-digit column (edit number, duration,
    /// wipe number) is 1000 or more.
    NumberTooLarge(u32),
    /// A dissolve or a wipe came without its duration in frames.
    MissingDuration(EditType),
    /// A wipe came without its wipe number.
    MissingWipeNumber(EditType),
    /// No previous edit was queued to start the event.
    NoPreviousEdit,
    /// No current edit was queued to end the event.
    NoCurrentEdit,
}

/// One clip of an edit: the source and record in/out points of a tape.
#[derive(Debug)]
pub struct Clip {
    pub edit_number: usize,
    pub source_tape: SourceTape,
    pub av_channels: AVChannels,
    pub source_in: Timecode,
    pub source_out: Timecode,
    pub record_in: Timecode,
    pub record_out: Timecode,
}

/// The value of a clip, with the tape as its name (`None` for black).
pub struct ClipView {
    pub edit_number: usize,
    pub source_tape: Option<Seq<char>>,
    pub av_channels: AVChannels,
    pub source_in: Timecode,
    pub source_out: Timecode,
    pub record_in: Timecode,
    pub record_out: Timecode,
}

impl View for Clip {
    type V = ClipView;

    open spec fn view(&self) -> ClipView {
        ClipView {
            edit_number: self.edit_number,
            source_tape: self.source_tape.name_view(),
            av_channels: self.av_channels,
            source_in: self.source_in,
            source_out: self.source_out,
            record_in: self.record_in,
            record_out: self.record_out,
        }
    }
}

impl ClipView {
    /// All four timecodes can be written.
    pub open spec fn wf(self) -> bool {
        &&& self.source_in.printable()
        &&& self.source_out.printable()
        &&& self.record_in.printable()
        &&& self.record_out.printable()
    }
}

/// A dissolve from one clip into another over a number of frames.
#[derive(Debug)]
pub struct Dissolve {
    pub from: Clip,
    pub to: Clip,
    pub edit_duration_frames: u32,
}

/// A wipe (pattern `wipe_number`) from one clip into another.
#[derive(Debug)]
pub struct Wipe {
    pub from: Clip,
    pub to: Clip,
    pub wipe_number: u32,
    pub edit_duration_frames: u32,
}

/// One EDL event.
#[derive(Debug)]
pub enum Event {
    Cut(Clip),
    Dissolve(Dissolve),
    Wipe(Wipe),
}

/// The value of an event.
pub enum EventView {
    Cut(ClipView),
    Dissolve { from: ClipView, to: ClipView, edit_duration_frames: u32 },
    Wipe { from: ClipView, to: ClipView, wipe_number: u32, edit_duration_frames: u32 },
}

impl View for Event {
    type V = EventView;

    open spec fn view(&self) -> EventView {
        match self {
            Event::Cut(c) => EventView::Cut(c@),
            Event::Dissolve(d) => EventView::Dissolve {
                from: d.from@,
                to: d.to@,
                edit_duration_frames: d.edit_duration_frames,
            },
            Event::Wipe(w) => EventView::Wipe {
                from: w.from@,
                to: w.to@,
                wipe_number: w.wipe_number,
                edit_duration_frames: w.edit_duration_frames,
            },
        }
    }
}

impl EventView {
    /// Every clip of the event can be written.
    pub open spec fn wf(self) -> bool {
        match self {
            EventView::Cut(c) => c.wf(),
            EventView::Dissolve { from, to, .. } => from.wf() && to.wf(),
            EventView::Wipe { from, to, .. } => from.wf() && to.wf(),
        }
    }

    /// The clip that the event cuts or transitions to.
    pub open spec fn dest(self) -> ClipView {
        match self {
            EventView::Cut(c) => c,
            EventView::Dissolve { to, .. } => to,
            EventView::Wipe { to, .. } => to,
        }
    }
}

/// The three-digit column text of `n`, when `n` fits in three digits.
pub open spec fn num_column_ok(n: u32) -> bool {
    n < 1000
}

/// The duration column: three digits, or three spaces for none.
pub open spec fn duration_column(d: Option<u32>) -> Seq<char> {
    match d {
        Some(n) => three_digits(n as nat),
        None => "   "@,
    }
}

/// Whether a clip's line can be written: edit number (as `u32`) and
/// duration both fit in three digits.
pub open spec fn line_ok(c: ClipView, d: Option<u32>) -> bool {
    &&& num_column_ok(c.edit_number as u32)
    &&& (d matches Some(n) ==> num_column_ok(n))
}

/// The EDL line of a clip: edit number, source type, channels (right
/// aligned to six), edit type, duration, record in/out, source in/out.
pub open spec fn line_spec(c: ClipView, edit_type: Seq<char>, d: Option<u32>) -> Seq<char> {
    three_digits((c.edit_number as u32) as nat) + "  "@ + SourceTape::source_type_spec(c.source_tape)
        + "  "@ + pad_left_spec(av_text_spec(c.av_channels.video, c.av_channels.audio), 6, ' ')
        + "  "@ + edit_type + " "@ + duration_column(d) + " "@ + c.record_in.text_spec() + " "@
        + c.record_out.text_spec() + " "@ + c.source_in.text_spec() + " "@
        + c.source_out.text_spec()
}

/// Whether an event can be written.
pub open spec fn event_text_ok(e: EventView) -> bool {
    match e {
        EventView::Cut(c) => line_ok(c, None),
        EventView::Dissolve { from, to, edit_duration_frames } => line_ok(from, None) && line_ok(
            to,
            Some(edit_duration_frames),
        ),
        EventView::Wipe { from, to, wipe_number, edit_duration_frames } => num_column_ok(
            wipe_number,
        ) && line_ok(from, None) && line_ok(to, Some(edit_duration_frames)),
    }
}

/// The text of an event in the EDL: its line(s), then the clip name
/// comments.
pub open spec fn event_text(e: EventView) -> Seq<char> {
    match e {
        EventView::Cut(c) => "\n"@ + line_spec(c, "C   "@, None) + SourceTape::from_clip_name_spec(
            c.source_tape,
        ),
        EventView::Dissolve { from, to, edit_duration_frames } => "\n"@ + line_spec(
            from,
            "C   "@,
            None,
        ) + "\n"@ + line_spec(to, "D   "@, Some(edit_duration_frames))
            + SourceTape::from_clip_name_spec(from.source_tape) + SourceTape::to_clip_name_spec(
            to.source_tape,
        ),
        EventView::Wipe { from, to, wipe_number, edit_duration_frames } => "\n"@ + line_spec(
            from,
            "C   "@,
            None,
        ) + "\n"@ + line_spec(to, "W"@ + three_digits(wipe_number as nat), Some(edit_duration_frames))
            + SourceTape::from_clip_name_spec(from.source_tape) + SourceTape::to_clip_name_spec(
            to.source_tape,
        ),
    }
}

/// `num` as three zero-padded digits; an error when it is 1000 or more.
pub fn validate_num_size(num: u32) -> (r: Result<String, EdlError>)
    ensures
        match r {
            Ok(s) => num_column_ok(num) && s@ == three_digits(num as nat),
            Err(e) => !num_column_ok(num) && e == EdlError::NumberTooLarge(num),
        },
{
    if num < 1000 {
        let digits = decimal(num as u64);
        proof {
            reveal_strlit("0");
            assert("0"@ =~= seq!['0']);
        }
        Ok(pad_left(digits.as_str(), 3, "0"))
    } else {
        Err(EdlError::NumberTooLarge(num))
    }
}

/// The columns of one EDL line.
#[derive(Debug)]
pub struct EdlEditLine {
    edit_number: String,
    edit_duration_frames: String,
    source_tape: String,
    edit_type: String,
    av_channels: String,
    source_in: String,
    source_out: String,
    record_in: String,
    record_out: String,
}

impl EdlEditLine {
    /// The line that the columns make.
    pub closed spec fn text_spec(&self) -> Seq<char> {
        self.edit_number@ + "  "@ + self.source_tape@ + "  "@ + self.av_channels@ + "  "@
            + self.edit_type@ + " "@ + self.edit_duration_frames@ + " "@ + self.record_in@ + " "@
            + self.record_out@ + " "@ + self.source_in@ + " "@ + self.source_out@
    }

    /// The columns of `clip` with the given edit type text and duration.
    pub fn from_clip(clip: &Clip, edit_type: String, edit_duration_frames: Option<u32>) -> (r:
        Result<Self, EdlError>)
        requires
            clip@.wf(),
        ensures
            match r {
                Ok(line) => line_ok(clip@, edit_duration_frames) && line.text_spec() == line_spec(
                    clip@,
                    edit_type@,
                    edit_duration_frames,
                ),
                Err(e) => !line_ok(clip@, edit_duration_frames) && (match edit_duration_frames {
                    Some(n) if !num_column_ok(n) => e == EdlError::NumberTooLarge(n),
                    _ => e == EdlError::NumberTooLarge(clip.edit_number as u32),
                }),
            },
    {
        let edit_duration_frames = match edit_duration_frames {
            Some(n) => validate_num_size(n)?,
            None => String::from_str("   "),
        };
        let edit_number = validate_num_size(clip.edit_number as u32)?;
        let av_text = clip.av_channels.to_edl_string();
        proof {
            reveal_strlit(" ");
            assert(" "@ =~= seq![' ']);
            lemma_av_text_ascii(clip.av_channels.video, clip.av_channels.audio);
        }
        let av_channels = pad_left(av_text.as_str(), 6, " ");
        Ok(EdlEditLine {
            edit_number,
            source_tape: String::from_str(clip.source_tape.as_source_type()),
            av_channels,
            source_in: clip.source_in.timecode(),
            source_out: clip.source_out.timecode(),
            record_in: clip.record_in.timecode(),
            record_out: clip.record_out.timecode(),
            edit_duration_frames,
            edit_type,
        })
    }

    /// The text of the line.
    pub fn into_string(self) -> (s: String)
        ensures
            s@ == self.text_spec(),
    {
        let mut s = self.edit_number;
        s.append("  ");
        s.append(self.source_tape.as_str());
        s.append("  ");
        s.append(self.av_channels.as_str());
        s.append("  ");
        s.append(self.edit_type.as_str());
        s.append(" ");
        s.append(self.edit_duration_frames.as_str());
        s.append(" ");
        s.append(self.record_in.as_str());
        s.append(" ");
        s.append(self.record_out.as_str());
        s.append(" ");
        s.append(self.source_in.as_str());
        s.append(" ");
        s.append(self.source_out.as_str());
        s
    }
}

impl Event {
    /// The edit type texts of the event's first and second line.
    pub fn get_strs(&self) -> (r: Result<(String, String), EdlError>)
        ensures
            match r {
                Ok((c, second)) => c@ == "C   "@ && match self@ {
                    EventView::Cut(_) => second@ == ""@,
                    EventView::Dissolve { .. } => second@ == "D   "@,
                    EventView::Wipe { wipe_number, .. } => num_column_ok(wipe_number) && second@
                        == "W"@ + three_digits(wipe_number as nat),
                },
                Err(e) => self@ matches EventView::Wipe { wipe_number, .. } && !num_column_ok(
                    wipe_number,
                ) && e == EdlError::NumberTooLarge(wipe_number),
            },
    {
        let c = String::from_str("C   ");
        match self {
            Event::Cut(_) => Ok((c, String::from_str(""))),
            Event::Dissolve(_) => Ok((c, String::from_str("D   "))),
            Event::Wipe(w) => {
                let num_str = validate_num_size(w.wipe_number)?;
                let mut second = String::from_str("W");
                second.append(num_str.as_str());
                Ok((c, second))
            },
        }
    }

    /// The text of the event in the EDL; an error when a number does not
    /// fit its three-digit column.
    pub fn to_edl_string(&self) -> (r: Result<String, EdlError>)
        requires
            self@.wf(),
        ensures
            match r {
                Ok(s) => event_text_ok(self@) && s@ == event_text(self@),
                Err(_) => !event_text_ok(self@),
            },
    {
        let (cut_one_str, cut_two_str) = self.get_strs()?;
        match self {
            Event::Cut(clip) => {
                let from_cmt = clip.source_tape.as_from_clip_name();
                let from = EdlEditLine::from_clip(clip, cut_one_str, None)?.into_string();
                let mut s = String::from_str("\n");
                s.append(from.as_str());
                s.append(from_cmt.as_str());
                Ok(s)
            },
            Event::Dissolve(dissolve) => {
                let from_cmt = dissolve.from.source_tape.as_from_clip_name();
                let to_cmt = dissolve.to.source_tape.as_to_clip_name();
                let from = EdlEditLine::from_clip(&dissolve.from, cut_one_str, None)?.into_string();
                let to = EdlEditLine::from_clip(
                    &dissolve.to,
                    cut_two_str,
                    Some(dissolve.edit_duration_frames),
                )?.into_string();
                let mut s = String::from_str("\n");
                s.append(from.as_str());
                s.append("\n");
                s.append(to.as_str());
                s.append(from_cmt.as_str());
                s.append(to_cmt.as_str());
                Ok(s)
            },
            Event::Wipe(wipe) => {
                let from_cmt = wipe.from.source_tape.as_from_clip_name();
                let to_cmt = wipe.to.source_tape.as_to_clip_name();
                let from = EdlEditLine::from_clip(&wipe.from, cut_one_str, None)?.into_string();
                let to = EdlEditLine::from_clip(
                    &wipe.to,
                    cut_two_str,
                    Some(wipe.edit_duration_frames),
                )?.into_string();
                let mut s = String::from_str("\n");
                s.append(from.as_str());
                s.append("\n");
                s.append(to.as_str());
                s.append(from_cmt.as_str());
                s.append(to_cmt.as_str());
                Ok(s)
            },
        }
    }

    /// The source tape of the clip the event goes to.
    pub fn dest_source_tape(&self) -> (t: &SourceTape)
        ensures
            t.name_view() == self@.dest().source_tape,
    {
        match self {
            Event::Cut(clip) => &clip.source_tape,
            Event::Dissolve(dissolve) => &dissolve.to.source_tape,
            Event::Wipe(wipe) => &wipe.to.source_tape,
        }
    }

    /// The channels of the clip the event goes to.
    pub fn dest_av_channels(&self) -> (av: AVChannels)
        ensures
            av == self@.dest().av_channels,
    {
        match self {
            Event::Cut(clip) => clip.av_channels,
            Event::Dissolve(dissolve) => dissolve.to.av_channels,
            Event::Wipe(wipe) => wipe.to.av_channels,
        }
    }
}

/// The out point of an edit: its successor's timecode, or the end of its
/// own transition when that is later.
pub open spec fn tc_out_spec(in_: OrderedEditView, out_: OrderedEditView) -> Timecode {
    match in_.edit_duration_frames {
        Some(d) => {
            let with_duration = Timecode {
                frames: (in_.timecode.frames + d) as i64,
                rate: in_.timecode.rate,
            };
            if seconds_lt(out_.timecode, with_duration) {
                with_duration
            } else {
                out_.timecode
            }
        },
        None => out_.timecode,
    }
}

/// The clip an edit cuts or transitions to, running to its out point.
pub open spec fn dest_clip_spec(in_: OrderedEditView, out_: OrderedEditView) -> ClipView {
    ClipView {
        edit_number: in_.edit_number,
        source_tape: in_.source_tape,
        av_channels: in_.av_channels,
        source_in: in_.timecode,
        source_out: tc_out_spec(in_, out_),
        record_in: in_.timecode,
        record_out: tc_out_spec(in_, out_),
    }
}

/// The clip an edit leaves, reduced to the single instant of the edit.
pub open spec fn prev_clip_flat_spec(in_: OrderedEditView) -> ClipView {
    ClipView {
        edit_number: in_.edit_number,
        source_tape: in_.prev_tape,
        av_channels: in_.prev_av_channels,
        source_in: in_.timecode,
        source_out: in_.timecode,
        record_in: in_.timecode,
        record_out: in_.timecode,
    }
}

/// The event made by an edit and the edit after it: a cut to the edit's
/// clip, or a dissolve or wipe (pattern 1 by default) from the clip before
/// it, which needs a duration.
pub open spec fn event_spec(in_: OrderedEditView, out_: OrderedEditView) -> Result<EventView, EdlError> {
    match in_.edit_type {
        EditType::Cut => Ok(EventView::Cut(dest_clip_spec(in_, out_))),
        EditType::Dissolve => match in_.edit_duration_frames {
            Some(d) => Ok(
                EventView::Dissolve {
                    from: prev_clip_flat_spec(in_),
                    to: dest_clip_spec(in_, out_),
                    edit_duration_frames: d,
                },
            ),
            None => Err(EdlError::MissingDuration(EditType::Dissolve)),
        },
        EditType::Wipe => match in_.edit_duration_frames {
            Some(d) => Ok(
                EventView::Wipe {
                    from: prev_clip_flat_spec(in_),
                    to: dest_clip_spec(in_, out_),
                    wipe_number: match in_.wipe_num {
                        Some(n) => n,
                        None => 1,
                    },
                    edit_duration_frames: d,
                },
            ),
            None => Err(EdlError::MissingDuration(EditType::Wipe)),
        },
    }
}

/// Law: an event made from two edits at well-formed timecodes has clips
/// whose timecodes can all be written, so that its text is defined.
pub proof fn lemma_event_writable(in_: OrderedEditView, out_: OrderedEditView)
    requires
        pair_wf(in_, out_),
    ensures
        event_spec(in_, out_) matches Ok(e) ==> e.wf(),
{
}

/// Law: the clip an edit goes to starts at the edit, on the source and the
/// record side alike, and ends on both sides at the same out point: never
/// before the next edit, never before the end of the edit's own transition,
/// and one of the two. So the clip runs for a while whenever the next edit
/// is later than this one.
pub proof fn lemma_dest_clip_spans_to_next_edit(in_: OrderedEditView, out_: OrderedEditView)
    requires
        pair_wf(in_, out_),
    ensures
        dest_clip_spec(in_, out_).source_in == in_.timecode,
        dest_clip_spec(in_, out_).record_in == in_.timecode,
        dest_clip_spec(in_, out_).record_out == dest_clip_spec(in_, out_).source_out,
        !seconds_lt(dest_clip_spec(in_, out_).record_out, out_.timecode),
        in_.edit_duration_frames matches Some(d) ==> !seconds_lt(
            dest_clip_spec(in_, out_).record_out,
            (Timecode { frames: (in_.timecode.frames + d) as i64, rate: in_.timecode.rate }),
        ),
        dest_clip_spec(in_, out_).record_out == out_.timecode || (in_.edit_duration_frames matches Some(
            d,
        ) && dest_clip_spec(in_, out_).record_out.frames == in_.timecode.frames + d
            && dest_clip_spec(in_, out_).record_out.rate == in_.timecode.rate),
        seconds_lt(in_.timecode, out_.timecode) ==> seconds_lt(
            dest_clip_spec(in_, out_).record_in,
            dest_clip_spec(in_, out_).record_out,
        ),
{
    let c = dest_clip_spec(in_, out_);
    if let Some(d) = in_.edit_duration_frames {
        let wd = Timecode { frames: (in_.timecode.frames + d) as i64, rate: in_.timecode.rate };
        if seconds_lt(out_.timecode, wd) && seconds_lt(in_.timecode, out_.timecode) {
            assert(c.record_out == wd);
            let f = in_.timecode.frames as int;
            let den = in_.timecode.rate.playback_den_spec();
            let num = in_.timecode.rate.playback_num_spec();
            assert(den > 0 && num > 0);
            if d == 0 {
                assert(wd.frames == f);
                assert(false);
            } else {
                assert(f * den * num < (f + d) * den * num) by (nonlinear_arith)
                    requires
                        den > 0,
                        num > 0,
                        d > 0,
                ;
            }
        }
    }
}

/// Law: a wipe event carries the wipe number of the edit that makes it,
/// wipe 1 when the edit gives none.
pub proof fn lemma_wipe_event_number(in_: OrderedEditView, out_: OrderedEditView)
    requires
        in_.edit_type == EditType::Wipe,
        in_.edit_duration_frames is Some,
    ensures
        event_spec(in_, out_) matches Ok(e) && (e matches EventView::Wipe { wipe_number, .. } && (
        in_.wipe_num is Some ==> Some(wipe_number) == in_.wipe_num) && (in_.wipe_num is None
            ==> wipe_number == 1)),
{
}

/// Law: the source-type column of an EDL line (after the three-digit edit
/// number and two spaces) reads `BL` for a clip from black and `AX` for a
/// clip from a named tape, so the two are told apart.
pub proof fn lemma_source_type_column(c: ClipView, edit_type: Seq<char>, d: Option<u32>)
    requires
        line_ok(c, d),
    ensures
        line_spec(c, edit_type, d).subrange(5, 7) == (if c.source_tape is None {
            seq!['B', 'L']
        } else {
            seq!['A', 'X']
        }),
        c.source_tape is Some <==> SourceTape::source_type_spec(c.source_tape)
            != SourceTape::source_type_spec(None),
{
    reveal_strlit("  ");
    reveal_strlit("AX");
    reveal_strlit("BL");
    let n = (c.edit_number as u32) as nat;
    lemma_decimal_ascii(n);
    let st = SourceTape::source_type_spec(c.source_tape);
    assert(st.len() == 2);
    assert(three_digits(n).len() == 3);
    let l = line_spec(c, edit_type, d);
    assert(l.subrange(5, 7) =~= st);
    assert("AX"@ =~= seq!['A', 'X']);
    assert("BL"@ =~= seq!['B', 'L']);
}

/// Two queued edits whose timecodes `vtc` can handle.
pub open spec fn pair_wf(in_: OrderedEditView, out_: OrderedEditView) -> bool {
    &&& in_.timecode.wf()
    &&& out_.timecode.wf()
}

/// An edit and the edit after it, which together make an event.
pub struct OrderedEditInOutPair<'a> {
    in_: &'a OrderedEdit,
    out_: &'a OrderedEdit,
}

impl<'a> OrderedEditInOutPair<'a> {
    pub closed spec fn in_view(&self) -> OrderedEditView {
        self.in_@
    }

    pub closed spec fn out_view(&self) -> OrderedEditView {
        self.out_@
    }

    pub fn new(in_: &'a OrderedEdit, out_: &'a OrderedEdit) -> (p: Self)
        ensures
            p.in_view() == in_@,
            p.out_view() == out_@,
    {
        OrderedEditInOutPair { in_, out_ }
    }

    /// The clip the edit goes to.
    pub fn as_dest_clip(&self) -> (c: Clip)
        requires
            pair_wf(self.in_view(), self.out_view()),
        ensures
            c@ == dest_clip_spec(self.in_view(), self.out_view()),
    {
        let tc_out = self.tc_out_with_edit_duration_if_greater();
        Clip {
            source_tape: SourceTape::from_option(
                match &self.in_.source_tape {
                    Some(s) => Some(s.as_str()),
                    None => None,
                },
            ),
            edit_number: self.in_.edit_number,
            av_channels: self.in_.av_channels,
            source_in: self.in_.timecode,
            source_out: tc_out,
            record_in: self.in_.timecode,
            record_out: tc_out,
        }
    }

    /// The clip the edit leaves, as a single instant.
    pub fn as_prev_clip_flat(&self) -> (c: Clip)
        ensures
            c@ == prev_clip_flat_spec(self.in_view()),
    {
        Clip {
            source_tape: SourceTape::from_option(
                match &self.in_.prev_tape {
                    Some(s) => Some(s.as_str()),
                    None => None,
                },
            ),
            edit_number: self.in_.edit_number,
            av_channels: self.in_.prev_av_channels,
            source_in: self.in_.timecode,
            source_out: self.in_.timecode,
            record_in: self.in_.timecode,
            record_out: self.in_.timecode,
        }
    }

    fn tc_out_with_edit_duration_if_greater(&self) -> (tc: Timecode)
        requires
            pair_wf(self.in_view(), self.out_view()),
        ensures
            tc == tc_out_spec(self.in_view(), self.out_view()),
    {
        match self.in_.edit_duration_frames {
            Some(frames) => {
                let tc_with_duration = self.in_.timecode.add_frames(frames);
                tc_with_duration.max(self.out_.timecode)
            },
            None => self.out_.timecode,
        }
    }

    /// The event the two edits make; an error for a dissolve or wipe
    /// without a duration.
    pub fn to_event(&self) -> (r: Result<Event, EdlError>)
        requires
            pair_wf(self.in_view(), self.out_view()),
        ensures
            match r {
                Ok(e) => event_spec(self.in_view(), self.out_view()) == Ok::<EventView, EdlError>(
                    e@,
                ),
                Err(err) => event_spec(self.in_view(), self.out_view()) == Err::<
                    EventView,
                    EdlError,
                >(err),
            },
    {
        match self.in_.edit_type {
            EditType::Cut => Ok(Event::Cut(self.as_dest_clip())),
            EditType::Dissolve => match self.in_.edit_duration_frames {
                Some(d) => {
                    let from = self.as_prev_clip_flat();
                    let to = self.as_dest_clip();
                    Ok(Event::Dissolve(Dissolve { edit_duration_frames: d, from, to }))
                },
                None => Err(EdlError::MissingDuration(EditType::Dissolve)),
            },
            EditType::Wipe => match self.in_.edit_duration_frames {
                Some(d) => {
                    let from = self.as_prev_clip_flat();
                    let to = self.as_dest_clip();
                    let wipe_number = match self.in_.wipe_num {
                        Some(n) => n,
                        None => 1,
                    };
                    Ok(Event::Wipe(Wipe { edit_duration_frames: d, from, to, wipe_number }))
                },
                None => Err(EdlError::MissingDuration(EditType::Wipe)),
            },
        }
    }
}

/// The edits of an EDL being recorded, turned into events two at a time.
#[derive(Debug)]
pub struct Edl {
    edit_queue: EditQueue,
}

/// The header of an EDL file.
pub open spec fn header_spec(title: Seq<char>, ntsc: Ntsc) -> Seq<char> {
    "TITLE: "@ + title + "\nFCM: "@ + ntsc.text_spec()
}

/// The file name of the `i`-th EDL with a title: `title.edl`, then
/// `title(1).edl`, `title(2).edl`, and so on.
pub open spec fn numbered_file_name_spec(title: Seq<char>, i: u32) -> Seq<char> {
    if i == 0 {
        title + ".edl"@
    } else {
        title + "("@ + decimal_spec(i as nat) + ").edl"@
    }
}

/// Distinct numbers give distinct file names, so trying them in turn
/// never comes back to a name already tried.
pub proof fn lemma_file_names_distinct(title: Seq<char>, i: u32, j: u32)
    requires
        i != j,
    ensures
        numbered_file_name_spec(title, i) != numbered_file_name_spec(title, j),
{
    reveal_strlit(".edl");
    reveal_strlit("(");
    reveal_strlit(").edl");
    lemma_decimal_digits(i as nat);
    lemma_decimal_digits(j as nat);
    let a = numbered_file_name_spec(title, i);
    let b = numbered_file_name_spec(title, j);
    let di = decimal_spec(i as nat);
    let dj = decimal_spec(j as nat);
    if a == b {
        if i == 0 {
            assert(a.len() == title.len() + 4);
            assert(b.len() == title.len() + 1 + dj.len() + 5);
        } else if j == 0 {
            assert(b.len() == title.len() + 4);
            assert(a.len() == title.len() + 1 + di.len() + 5);
        } else {
            assert(a.len() == title.len() + 1 + di.len() + 5);
            assert(b.len() == title.len() + 1 + dj.len() + 5);
            let start: int = title.len() as int + 1;
            assert(di =~= a.subrange(start, start + di.len()));
            assert(dj =~= b.subrange(start, start + dj.len()));
            assert(di == dj);
            assert(decimal_bytes(i as nat) == decimal_bytes(j as nat));
        }
    }
}

impl Edl {
    pub closed spec fn queue(&self) -> EditQueue {
        self.edit_queue
    }

    pub open spec fn wf(&self) -> bool {
        self.queue().wf()
    }

    /// An EDL with no edits yet.
    pub fn new() -> (e: Self)
        ensures
            e.wf(),
            e.queue().log_view() == Seq::<OrderedEditView>::empty(),
            e.queue().count_view() == 0,
    {
        Edl { edit_queue: EditQueue::new() }
    }

    /// The header written at the top of the file.
    pub fn header(title: &str, ntsc: Ntsc) -> (s: String)
        ensures
            s@ == header_spec(title@, ntsc),
    {
        let mut s = String::from_str("TITLE: ");
        s.append(title);
        s.append("\nFCM: ");
        s.append(ntsc.as_str());
        s
    }

    /// The name of the `i`-th file tried for `title`.
    pub fn numbered_file_name(title: &str, i: u32) -> (s: String)
        ensures
            s@ == numbered_file_name_spec(title@, i),
    {
        let mut s = String::from_str(title);
        if i == 0 {
            s.append(".edl");
        } else {
            s.append("(");
            let n = decimal(i as u64);
            s.append(n.as_str());
            s.append(").edl");
        }
        s
    }

    /// The text appended to the file for an event: a newline, then the
    /// event's lines.
    pub fn event_entry(event: &Event) -> (r: Result<String, EdlError>)
        requires
            event@.wf(),
        ensures
            match r {
                Ok(s) => event_text_ok(event@) && s@ == "\n"@ + event_text(event@),
                Err(_) => !event_text_ok(event@),
            },
    {
        let event_str = event.to_edl_string()?;
        let mut s = String::from_str("\n");
        s.append(event_str.as_str());
        Ok(s)
    }

    /// Queues an edit (see `EditQueue::push`).
    pub fn push_edit(&mut self, edit: Edit) -> (r: Result<(), EdlError>)
        requires
            old(self).wf(),
            edit@.timecode.wf(),
            old(self).queue().count_view() < usize::MAX,
        ensures
            final(self).wf(),
            match r {
                Ok(()) => {
                    &&& edit_queue::edit_accepted(edit@)
                    &&& final(self).queue().count_view() == old(self).queue().count_view() + 1
                    &&& final(self).queue().log_view() == old(self).queue().log_view().push(
                        edit_queue::ordered_spec(
                            edit@,
                            if old(self).queue().log_view().len() > 0 {
                                Some(old(self).queue().log_view()[0])
                            } else {
                                None
                            },
                            (old(self).queue().count_view() + 1) as usize,
                        ),
                    )
                },
                Err(e) => {
                    &&& !edit_queue::edit_accepted(edit@)
                    &&& e == edit_queue::edit_refusal(edit@)
                    &&& final(self).queue().log_view() == old(self).queue().log_view()
                    &&& final(self).queue().count_view() == old(self).queue().count_view()
                },
            },
    {
        self.edit_queue.push(edit)
    }

    /// The number of edits numbered since the EDL was made or cleared.
    pub fn edit_count(&self) -> (n: usize)
        ensures
            n == self.queue().count_view(),
    {
        self.edit_queue.count()
    }

    /// Removes all edits and restarts the numbering.
    pub fn clear(&mut self)
        ensures
            final(self).wf(),
            final(self).queue().log_view() == Seq::<OrderedEditView>::empty(),
            final(self).queue().count_view() == 0,
    {
        self.edit_queue.clear();
    }

    /// Takes the oldest edit and makes the event that runs from it to the
    /// edit after it, which stays queued.
    pub fn try_build_event(&mut self) -> (r: Result<Event, EdlError>)
        requires
            old(self).wf(),
        ensures
            final(self).wf(),
            final(self).queue().count_view() == old(self).queue().count_view(),
            old(self).queue().log_view().len() == 0 ==> r == Err::<Event, EdlError>(
                EdlError::NoPreviousEdit,
            ) && final(self).queue().log_view() == old(self).queue().log_view(),
            old(self).queue().log_view().len() > 0 ==> final(self).queue().log_view() == old(
                self,
            ).queue().log_view().drop_first(),
            old(self).queue().log_view().len() == 1 ==> r == Err::<Event, EdlError>(
                EdlError::NoCurrentEdit,
            ),
            r matches Ok(e) ==> e@.wf(),
            old(self).queue().log_view().len() >= 2 ==> match r {
                Ok(e) => event_spec(old(self).queue().log_view()[0], old(self).queue().log_view()[1])
                    == Ok::<EventView, EdlError>(e@),
                Err(err) => event_spec(
                    old(self).queue().log_view()[0],
                    old(self).queue().log_view()[1],
                ) == Err::<EventView, EdlError>(err),
            },
    {
        let prev_edit = match self.edit_queue.pop_front() {
            Some(e) => e,
            None => return Err(EdlError::NoPreviousEdit),
        };
        let curr_edit = match self.edit_queue.front() {
            Some(e) => e,
            None => return Err(EdlError::NoCurrentEdit),
        };
        proof {
            assert(self.queue().log_view()[0] == old(self).queue().log_view()[1]);
            assert(old(self).queue().log_view()[0].timecode.wf());
            assert(old(self).queue().log_view()[1].timecode.wf());
            lemma_event_writable(old(self).queue().log_view()[0], old(self).queue().log_view()[1]);
        }
        OrderedEditInOutPair::new(&prev_edit, curr_edit).to_event()
    }
}

} // verus!
