//! Log of timecoded cut records, each waiting for the next record to end it.

use std::collections::VecDeque;

use vstd::prelude::*;

use crate::edl::AVChannels;
use crate::text::{eq_ignore_ascii_case, eq_ignore_ascii_case_spec};
use crate::timecode::Timecode;

verus! {

/// Kind of transition of a record.
#[derive(Clone, Copy, Debug, PartialEq, Eq, Structural)]
pub enum EditRecord {
    Cut,
    Wipe,
    Dissolve,
}

/// Why a record could not be made.
#[derive(Clone, Copy, Debug, PartialEq, Eq, Structural)]
pub enum CutLogError {
    /// The edit type is none of `cut`, `wipe`, `dissolve` (in any case).
    InvalidEditType,
    /// A wipe or dissolve came without its duration in frames.
    MissingDuration(EditRecord),
}

impl EditRecord {
    pub open spec fn name_spec(self) -> Seq<char> {
        match self {
            EditRecord::Cut => "cut"@,
            EditRecord::Wipe => "wipe"@,
            EditRecord::Dissolve => "dissolve"@,
        }
    }

    pub open spec fn parse_spec(value: Seq<char>) -> Option<EditRecord> {
        if eq_ignore_ascii_case_spec(value, EditRecord::Cut.name_spec()) {
            Some(EditRecord::Cut)
        } else if eq_ignore_ascii_case_spec(value, EditRecord::Wipe.name_spec()) {
            Some(EditRecord::Wipe)
        } else if eq_ignore_ascii_case_spec(value, EditRecord::Dissolve.name_spec()) {
            Some(EditRecord::Dissolve)
        } else {
            None
        }
    }

    /// The lower-case name.
    pub fn as_str(&self) -> (s: &'static str)
        ensures
            s@ == self.name_spec(),
    {
        match self {
            EditRecord::Cut => "cut",
            EditRecord::Wipe => "wipe",
            EditRecord::Dissolve => "dissolve",
        }
    }

    /// The kind named by `value`, letters in any case.
    pub fn try_from_str(value: &str) -> (r: Result<EditRecord, CutLogError>)
        ensures
            match r {
                Ok(t) => EditRecord::parse_spec(value@) == Some(t),
                Err(e) => EditRecord::parse_spec(value@) is None && e
                    == CutLogError::InvalidEditType,
            },
    {
        if eq_ignore_ascii_case(value, EditRecord::Cut.as_str()) {
            Ok(EditRecord::Cut)
        } else if eq_ignore_ascii_case(value, EditRecord::Wipe.as_str()) {
            Ok(EditRecord::Wipe)
        } else if eq_ignore_ascii_case(value, EditRecord::Dissolve.as_str()) {
            Ok(EditRecord::Dissolve)
        } else {
            Err(CutLogError::InvalidEditType)
        }
    }
}

/// The name of a kind reads back as that kind.
pub proof fn lemma_edit_record_reads_back(t: EditRecord)
    ensures
        EditRecord::parse_spec(t.name_spec()) == Some(t),
{
    reveal_strlit("cut");
    reveal_strlit("wipe");
    reveal_strlit("dissolve");
}

/// A numbered cut record.
#[derive(Debug)]
pub struct CutRecord {
    pub edit_number: usize,
    pub edit_type: EditRecord,
    pub edit_duration_frames: u32,
    pub source_tape: String,
    pub av_channels: AVChannels,
    pub source_in: Timecode,
    pub record_in: Timecode,
}

pub struct CutRecordView {
    pub edit_number: usize,
    pub edit_type: EditRecord,
    pub edit_duration_frames: u32,
    pub source_tape: Seq<char>,
    pub av_channels: AVChannels,
    pub source_in: Timecode,
    pub record_in: Timecode,
}

impl View for CutRecord {
    type V = CutRecordView;

    open spec fn view(&self) -> CutRecordView {
        CutRecordView {
            edit_number: self.edit_number,
            edit_type: self.edit_type,
            edit_duration_frames: self.edit_duration_frames,
            source_tape: self.source_tape@,
            av_channels: self.av_channels,
            source_in: self.source_in,
            record_in: self.record_in,
        }
    }
}

/// The record made from a logged cut, or why it is refused: an unknown type
/// first, then a missing duration. A cut keeps no duration (0).
pub open spec fn record_spec(
    timecode: Timecode,
    edit_number: usize,
    edit_duration_frames: Option<u32>,
    av_channels: AVChannels,
    edit_type: Seq<char>,
    source_tape: Seq<char>,
) -> Result<CutRecordView, CutLogError> {
    match EditRecord::parse_spec(edit_type) {
        None => Err(CutLogError::InvalidEditType),
        Some(t) => if t == EditRecord::Cut {
            Ok(
                CutRecordView {
                    edit_number,
                    edit_type: t,
                    edit_duration_frames: 0,
                    source_tape,
                    av_channels,
                    source_in: timecode,
                    record_in: timecode,
                },
            )
        } else {
            match edit_duration_frames {
                Some(d) => Ok(
                    CutRecordView {
                        edit_number,
                        edit_type: t,
                        edit_duration_frames: d,
                        source_tape,
                        av_channels,
                        source_in: timecode,
                        record_in: timecode,
                    },
                ),
                None => Err(CutLogError::MissingDuration(t)),
            }
        },
    }
}

impl CutRecord {
    pub fn new(
        timecode: Timecode,
        edit_number: usize,
        edit_duration_frames: &Option<u32>,
        av_channels: &AVChannels,
        edit_type: &str,
        source_tape: &str,
    ) -> (r: Result<Self, CutLogError>)
        ensures
            match r {
                Ok(c) => record_spec(
                    timecode,
                    edit_number,
                    *edit_duration_frames,
                    *av_channels,
                    edit_type@,
                    source_tape@,
                ) == Ok::<CutRecordView, CutLogError>(c@),
                Err(e) => record_spec(
                    timecode,
                    edit_number,
                    *edit_duration_frames,
                    *av_channels,
                    edit_type@,
                    source_tape@,
                ) == Err::<CutRecordView, CutLogError>(e),
            },
    {
        let edit_type = EditRecord::try_from_str(edit_type)?;
        let edit_duration_frames = CutRecord::validate_edit_type_duration(
            &edit_type,
            edit_duration_frames,
        )?;
        Ok(CutRecord {
            source_tape: String::from_str(source_tape),
            av_channels: *av_channels,
            source_in: timecode,
            record_in: timecode,
            edit_duration_frames,
            edit_type,
            edit_number,
        })
    }

    /// The source in point as SMPTE text.
    pub fn source_timecode(&self) -> (s: String)
        requires
            self.source_in.printable(),
        ensures
            s@ == self.source_in.text_spec(),
    {
        self.source_in.timecode()
    }

    pub fn edit_number(&self) -> (n: usize)
        ensures
            n == self.edit_number,
    {
        self.edit_number
    }

    fn validate_edit_type_duration(edit_type: &EditRecord, edit_duration_frames: &Option<u32>) -> (r:
        Result<u32, CutLogError>)
        ensures
            match r {
                Ok(d) => (*edit_type == EditRecord::Cut ==> d == 0) && (*edit_type
                    != EditRecord::Cut ==> *edit_duration_frames == Some(d)),
                Err(e) => *edit_type != EditRecord::Cut && edit_duration_frames is None && e
                    == CutLogError::MissingDuration(*edit_type),
            },
    {
        match edit_type {
            EditRecord::Cut => Ok(0),
            EditRecord::Wipe | EditRecord::Dissolve => match edit_duration_frames {
                Some(n) => Ok(*n),
                None => Err(CutLogError::MissingDuration(*edit_type)),
            },
        }
    }
}

/// The log of cut records.
#[derive(Debug)]
pub struct CutLog {
    log: VecDeque<CutRecord>,
    count: usize,
}

impl CutLog {
    pub closed spec fn log_view(&self) -> Seq<CutRecordView> {
        self.log@.map_values(|c: CutRecord| c@)
    }

    pub closed spec fn count_view(&self) -> usize {
        self.count
    }

    pub fn new() -> (l: Self)
        ensures
            l.log_view() == Seq::<CutRecordView>::empty(),
            l.count_view() == 0,
    {
        let l = CutLog { log: VecDeque::new(), count: 0 };
        assert(l.log_view() =~= Seq::<CutRecordView>::empty());
        l
    }

    pub fn clear(&mut self)
        ensures
            final(self).log_view() == Seq::<CutRecordView>::empty(),
            final(self).count_view() == 0,
    {
        self.count = 0;
        self.log.clear();
        assert(self.log_view() =~= Seq::<CutRecordView>::empty());
    }

    /// Records a cut at `timecode`, numbered after the last; a refused cut
    /// leaves the log as it was.
    pub fn push(
        &mut self,
        timecode: Timecode,
        edit_type: &str,
        edit_duration_frames: &Option<u32>,
        source_tape: &str,
        av_channnel: &AVChannels,
    ) -> (r: Result<(), CutLogError>)
        requires
            old(self).count_view() < usize::MAX,
        ensures
            ({
                let spec = record_spec(
                    timecode,
                    (old(self).count_view() + 1) as usize,
                    *edit_duration_frames,
                    *av_channnel,
                    edit_type@,
                    source_tape@,
                );
                match r {
                    Ok(()) => spec is Ok && final(self).log_view() == old(self).log_view().push(
                        spec->Ok_0,
                    ) && final(self).count_view() == old(self).count_view() + 1,
                    Err(e) => spec == Err::<CutRecordView, CutLogError>(e) && final(self).log_view()
                        == old(self).log_view() && final(self).count_view() == old(
                        self,
                    ).count_view(),
                }
            }),
    {
        let record = CutRecord::new(
            timecode,
            self.count + 1,
            edit_duration_frames,
            av_channnel,
            edit_type,
            source_tape,
        )?;
        let ghost old_log = self.log_view();
        self.count = self.count + 1;
        self.log.push_back(record);
        assert(self.log_view() =~= old_log.push(record@));
        Ok(())
    }

    /// Takes the oldest record.
    pub fn pop(&mut self) -> (r: Option<CutRecord>)
        ensures
            match r {
                Some(c) => old(self).log_view().len() > 0 && c@ == old(self).log_view()[0]
                    && final(self).log_view() == old(self).log_view().drop_first(),
                None => old(self).log_view().len() == 0 && final(self).log_view() == old(
                    self,
                ).log_view(),
            },
            final(self).count_view() == old(self).count_view(),
    {
        let ghost old_log = self.log_view();
        let r = self.log.pop_front();
        assert(self.log_view() =~= if old_log.len() > 0 {
            old_log.drop_first()
        } else {
            old_log
        });
        r
    }

    /// The oldest record.
    pub fn front(&self) -> (r: Option<&CutRecord>)
        ensures
            match r {
                Some(c) => self.log_view().len() > 0 && c@ == self.log_view()[0],
                None => self.log_view().len() == 0,
            },
    {
        if self.log.len() > 0 {
            Some(&self.log[0])
        } else {
            None
        }
    }
}

impl Default for CutLog {
    fn default() -> (l: Self)
        ensures
            l.log_view() == Seq::<CutRecordView>::empty(),
            l.count_view() == 0,
    {
        Self::new()
    }
}

} // verus!
