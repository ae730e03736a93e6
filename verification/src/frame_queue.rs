//! Queue of timecoded edit requests, each waiting for the next request to
//! give it an out point.

use std::collections::VecDeque;

use vstd::prelude::*;

use crate::edl::AVChannels;
use crate::text::{eq_ignore_ascii_case, eq_ignore_ascii_case_spec};
use crate::timecode::Timecode;

verus! {

/// Kind of transition requested for an edit.
#[derive(Clone, Copy, Debug, PartialEq, Eq, Structural)]
pub enum EditType {
    Cut,
    Wipe,
    Dissolve,
}

/// Why a request could not be queued.
#[derive(Clone, Copy, Debug, PartialEq, Eq, Structural)]
pub enum FrameError {
    /// The edit type is none of `cut`, `wipe`, `dissolve` (in any case).
    InvalidEditType,
    /// A wipe or dissolve came without a duration in frames.
    MissingDuration(EditType),
    /// A wipe came without a wipe number.
    MissingWipeNumber(EditType),
}

impl EditType {
    pub open spec fn name_spec(self) -> Seq<char> {
        match self {
            EditType::Cut => "cut"@,
            EditType::Wipe => "wipe"@,
            EditType::Dissolve => "dissolve"@,
        }
    }

    /// The kind named by `value` (letters in any case).
    pub open spec fn parse_spec(value: Seq<char>) -> Option<EditType> {
        if eq_ignore_ascii_case_spec(value, EditType::Cut.name_spec()) {
            Some(EditType::Cut)
        } else if eq_ignore_ascii_case_spec(value, EditType::Wipe.name_spec()) {
            Some(EditType::Wipe)
        } else if eq_ignore_ascii_case_spec(value, EditType::Dissolve.name_spec()) {
            Some(EditType::Dissolve)
        } else {
            None
        }
    }

    /// The lower-case name.
    pub fn as_str(&self) -> (s: &'static str)
        ensures
            s@ == self.name_spec(),
    {
        match self {
            EditType::Cut => "cut",
            EditType::Wipe => "wipe",
            EditType::Dissolve => "dissolve",
        }
    }

    /// Parses a kind from its name, ignoring the case of its letters.
    pub fn try_from_str(value: &str) -> (r: Result<EditType, FrameError>)
        ensures
            match r {
                Ok(t) => EditType::parse_spec(value@) == Some(t),
                Err(e) => EditType::parse_spec(value@) is None && e == FrameError::InvalidEditType,
            },
    {
        if eq_ignore_ascii_case(value, EditType::Cut.as_str()) {
            Ok(EditType::Cut)
        } else if eq_ignore_ascii_case(value, EditType::Wipe.as_str()) {
            Ok(EditType::Wipe)
        } else if eq_ignore_ascii_case(value, EditType::Dissolve.as_str()) {
            Ok(EditType::Dissolve)
        } else {
            Err(FrameError::InvalidEditType)
        }
    }
}

/// The name of a kind reads back as that kind.
pub proof fn lemma_edit_type_reads_back(t: EditType)
    ensures
        EditType::parse_spec(t.name_spec()) == Some(t),
{
    reveal_strlit("cut");
    reveal_strlit("wipe");
    reveal_strlit("dissolve");
}

/// An edit request: the edit type by name, its options, tape and channels.
pub struct EditRequestData {
    pub edit_type: String,
    pub edit_duration_frames: Option<u32>,
    pub wipe_num: Option<u32>,
    pub source_tape: String,
    pub av_channels: AVChannels,
}

/// A numbered request with the tape it follows.
#[derive(Debug)]
pub struct FrameData {
    pub edit_number: usize,
    pub edit_type: EditType,
    pub source_tape: String,
    pub prev_tape: String,
    pub av_channels: AVChannels,
    pub timecode: Timecode,
    pub edit_duration_frames: Option<u32>,
    pub wipe_num: Option<u32>,
}

/// The value of a numbered request.
pub struct FrameDataView {
    pub edit_number: usize,
    pub edit_type: EditType,
    pub source_tape: Seq<char>,
    pub prev_tape: Seq<char>,
    pub av_channels: AVChannels,
    pub timecode: Timecode,
    pub edit_duration_frames: Option<u32>,
    pub wipe_num: Option<u32>,
}

impl View for FrameData {
    type V = FrameDataView;

    open spec fn view(&self) -> FrameDataView {
        FrameDataView {
            edit_number: self.edit_number,
            edit_type: self.edit_type,
            source_tape: self.source_tape@,
            prev_tape: self.prev_tape@,
            av_channels: self.av_channels,
            timecode: self.timecode,
            edit_duration_frames: self.edit_duration_frames,
            wipe_num: self.wipe_num,
        }
    }
}

/// The numbered request made from `req`, or why it is refused: an unknown
/// type first, then a missing duration, then a missing wipe number.
pub open spec fn frame_spec(
    edit_type: Seq<char>,
    edit_duration_frames: Option<u32>,
    wipe_num: Option<u32>,
    source_tape: Seq<char>,
    av_channels: AVChannels,
    prev_tape: Seq<char>,
    timecode: Timecode,
    edit_number: usize,
) -> Result<FrameDataView, FrameError> {
    match EditType::parse_spec(edit_type) {
        None => Err(FrameError::InvalidEditType),
        Some(t) => {
            if t != EditType::Cut && edit_duration_frames is None {
                Err(FrameError::MissingDuration(t))
            } else if t == EditType::Wipe && wipe_num is None {
                Err(FrameError::MissingWipeNumber(t))
            } else {
                Ok(
                    FrameDataView {
                        edit_number,
                        edit_type: t,
                        source_tape,
                        prev_tape,
                        av_channels,
                        timecode,
                        edit_duration_frames: if t == EditType::Cut {
                            None
                        } else {
                            edit_duration_frames
                        },
                        wipe_num: if t == EditType::Wipe {
                            wipe_num
                        } else {
                            None
                        },
                    },
                )
            }
        },
    }
}

impl FrameData {
    /// Numbers a request at `timecode`, following `prev_tape`.
    pub fn try_from_req(req: &EditRequestData, prev_tape: &str, timecode: Timecode, edit_number: usize) -> (r:
        Result<Self, FrameError>)
        ensures
            match r {
                Ok(f) => frame_spec(
                    req.edit_type@,
                    req.edit_duration_frames,
                    req.wipe_num,
                    req.source_tape@,
                    req.av_channels,
                    prev_tape@,
                    timecode,
                    edit_number,
                ) == Ok::<FrameDataView, FrameError>(f@),
                Err(e) => frame_spec(
                    req.edit_type@,
                    req.edit_duration_frames,
                    req.wipe_num,
                    req.source_tape@,
                    req.av_channels,
                    prev_tape@,
                    timecode,
                    edit_number,
                ) == Err::<FrameDataView, FrameError>(e),
            },
    {
        let edit_type = EditType::try_from_str(req.edit_type.as_str())?;
        let edit_duration_frames = FrameData::validate_edit_type_duration(
            &edit_type,
            &req.edit_duration_frames,
        )?;
        let wipe_num = FrameData::validate_wipe_num(&edit_type, &req.wipe_num)?;
        Ok(FrameData {
            source_tape: req.source_tape.clone(),
            prev_tape: String::from_str(prev_tape),
            av_channels: req.av_channels,
            timecode,
            edit_type,
            edit_number,
            edit_duration_frames,
            wipe_num,
        })
    }

    fn validate_edit_type_duration(edit_type: &EditType, edit_duration_frames: &Option<u32>) -> (r:
        Result<Option<u32>, FrameError>)
        ensures
            match r {
                Ok(d) => (*edit_type == EditType::Cut ==> d is None) && (*edit_type
                    != EditType::Cut ==> d == *edit_duration_frames && d is Some),
                Err(e) => *edit_type != EditType::Cut && edit_duration_frames is None && e
                    == FrameError::MissingDuration(*edit_type),
            },
    {
        match edit_type {
            EditType::Cut => Ok(None),
            EditType::Wipe | EditType::Dissolve => match edit_duration_frames {
                Some(n) => Ok(Some(*n)),
                None => Err(FrameError::MissingDuration(*edit_type)),
            },
        }
    }

    fn validate_wipe_num(edit_type: &EditType, wipe_num: &Option<u32>) -> (r: Result<
        Option<u32>,
        FrameError,
    >)
        ensures
            match r {
                Ok(w) => (*edit_type == EditType::Wipe ==> w == *wipe_num && w is Some) && (
                *edit_type != EditType::Wipe ==> w is None),
                Err(e) => *edit_type == EditType::Wipe && wipe_num is None && e
                    == FrameError::MissingWipeNumber(*edit_type),
            },
    {
        match edit_type {
            EditType::Wipe => match wipe_num {
                Some(n) => Ok(Some(*n)),
                None => Err(FrameError::MissingWipeNumber(*edit_type)),
            },
            _ => Ok(None),
        }
    }
}

/// The queue of numbered requests.
#[derive(Debug)]
pub struct FrameQueue {
    log: VecDeque<FrameData>,
    count: usize,
}

impl FrameQueue {
    pub closed spec fn log_view(&self) -> Seq<FrameDataView> {
        self.log@.map_values(|f: FrameData| f@)
    }

    pub closed spec fn count_view(&self) -> usize {
        self.count
    }

    pub fn new() -> (q: Self)
        ensures
            q.log_view() == Seq::<FrameDataView>::empty(),
            q.count_view() == 0,
    {
        let q = FrameQueue { log: VecDeque::new(), count: 0 };
        assert(q.log_view() =~= Seq::<FrameDataView>::empty());
        q
    }

    pub fn count(&self) -> (c: usize)
        ensures
            c == self.count_view(),
    {
        self.count
    }

    pub fn clear(&mut self)
        ensures
            final(self).log_view() == Seq::<FrameDataView>::empty(),
            final(self).count_view() == 0,
    {
        self.count = 0;
        self.log.clear();
        assert(self.log_view() =~= Seq::<FrameDataView>::empty());
    }

    /// Numbers and queues a request at `timecode`; it follows the tape of
    /// the oldest queued request, or its own tape when none is queued. A
    /// refused request leaves the queue as it was.
    pub fn push(&mut self, timecode: Timecode, edit_data: &EditRequestData) -> (r: Result<
        (),
        FrameError,
    >)
        requires
            old(self).count_view() < usize::MAX,
        ensures
            ({
                let spec = frame_spec(
                    edit_data.edit_type@,
                    edit_data.edit_duration_frames,
                    edit_data.wipe_num,
                    edit_data.source_tape@,
                    edit_data.av_channels,
                    if old(self).log_view().len() > 0 {
                        old(self).log_view()[0].source_tape
                    } else {
                        edit_data.source_tape@
                    },
                    timecode,
                    (old(self).count_view() + 1) as usize,
                );
                match r {
                    Ok(()) => spec is Ok && final(self).log_view() == old(self).log_view().push(
                        spec->Ok_0,
                    ) && final(self).count_view() == old(self).count_view() + 1,
                    Err(e) => spec == Err::<FrameDataView, FrameError>(e) && final(self).log_view()
                        == old(self).log_view() && final(self).count_view() == old(
                        self,
                    ).count_view(),
                }
            }),
    {
        let record = match self.front() {
            Some(front) => FrameData::try_from_req(
                edit_data,
                front.source_tape.as_str(),
                timecode,
                self.count + 1,
            ),
            None => FrameData::try_from_req(
                edit_data,
                edit_data.source_tape.as_str(),
                timecode,
                self.count + 1,
            ),
        }?;
        let ghost old_log = self.log_view();
        self.count = self.count + 1;
        self.log.push_back(record);
        assert(self.log_view() =~= old_log.push(record@));
        Ok(())
    }

    pub fn pop(&mut self) -> (r: Option<FrameData>)
        ensures
            match r {
                Some(f) => old(self).log_view().len() > 0 && f@ == old(self).log_view()[0]
                    && final(self).log_view() == old(self).log_view().drop_first(),
                None => old(self).log_view().len() == 0 && final(self).log_view() == old(
                    self,
                ).log_view(),
            },
            final(self).count_view() == old(self).count_view(),
    {
        let ghost old_log = self.log_view();
        let r = self.log.pop_front();
        assert(self.log_view() =~= if old_log.len() > 0 {
            old_log.drop_first()
        } else {
            old_log
        });
        r
    }

    pub fn front(&self) -> (r: Option<&FrameData>)
        ensures
            match r {
                Some(f) => self.log_view().len() > 0 && f@ == self.log_view()[0],
                None => self.log_view().len() == 0,
            },
    {
        if self.log.len() > 0 {
            Some(&self.log[0])
        } else {
            None
        }
    }
}

impl Default for FrameQueue {
    fn default() -> (q: Self)
        ensures
            q.log_view() == Seq::<FrameDataView>::empty(),
            q.count_view() == 0,
    {
        Self::new()
    }
}

} // verus!
