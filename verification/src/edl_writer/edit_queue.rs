//! The queue of logged edits awaiting their out point.
//!
//! An edit's out point is only known once the next edit is logged, so each
//! edit waits in the queue until its successor arrives.

use std::collections::VecDeque;

use vstd::prelude::*;

use crate::edl_writer::{AVChannels, EdlError, EditType};
use crate::timecode::Timecode;

verus! {

/// The name held by an optional tape text.
pub open spec fn opt_text_view(o: Option<String>) -> Option<Seq<char>> {
    match o {
        Some(s) => Some(s@),
        None => None,
    }
}

/// A copy of an optional tape text.
pub fn clone_opt_text(o: &Option<String>) -> (r: Option<String>)
    ensures
        opt_text_view(r) == opt_text_view(*o),
{
    match o {
        Some(s) => Some(s.clone()),
        None => None,
    }
}

/// An edit as logged by a request, before it is numbered.
pub struct Edit {
    pub edit_type: EditType,
    pub source_tape: Option<String>,
    pub edit_duration_frames: Option<u32>,
    pub wipe_num: Option<u32>,
    pub av_channels: AVChannels,
    pub timecode: Timecode,
}

/// The value of an edit request.
pub struct EditView {
    pub edit_type: EditType,
    pub source_tape: Option<Seq<char>>,
    pub edit_duration_frames: Option<u32>,
    pub wipe_num: Option<u32>,
    pub av_channels: AVChannels,
    pub timecode: Timecode,
}

impl View for Edit {
    type V = EditView;

    open spec fn view(&self) -> EditView {
        EditView {
            edit_type: self.edit_type,
            source_tape: opt_text_view(self.source_tape),
            edit_duration_frames: self.edit_duration_frames,
            wipe_num: self.wipe_num,
            av_channels: self.av_channels,
            timecode: self.timecode,
        }
    }
}

/// A numbered edit in the queue, with the tape and channels it follows.
#[derive(Debug)]
pub struct OrderedEdit {
    pub edit_number: usize,
    pub edit_type: EditType,
    pub source_tape: Option<String>,
    pub prev_tape: Option<String>,
    pub av_channels: AVChannels,
    pub prev_av_channels: AVChannels,
    pub timecode: Timecode,
    pub edit_duration_frames: Option<u32>,
    pub wipe_num: Option<u32>,
}

/// The value of a queued edit.
pub struct OrderedEditView {
    pub edit_number: usize,
    pub edit_type: EditType,
    pub source_tape: Option<Seq<char>>,
    pub prev_tape: Option<Seq<char>>,
    pub av_channels: AVChannels,
    pub prev_av_channels: AVChannels,
    pub timecode: Timecode,
    pub edit_duration_frames: Option<u32>,
    pub wipe_num: Option<u32>,
}

impl View for OrderedEdit {
    type V = OrderedEditView;

    open spec fn view(&self) -> OrderedEditView {
        OrderedEditView {
            edit_number: self.edit_number,
            edit_type: self.edit_type,
            source_tape: opt_text_view(self.source_tape),
            prev_tape: opt_text_view(self.prev_tape),
            av_channels: self.av_channels,
            prev_av_channels: self.prev_av_channels,
            timecode: self.timecode,
            edit_duration_frames: self.edit_duration_frames,
            wipe_num: self.wipe_num,
        }
    }
}

/// The duration an edit keeps: none for a cut, the given one for a
/// dissolve or a wipe, which must have one.
pub open spec fn duration_spec(edit_type: EditType, d: Option<u32>) -> Result<Option<u32>, EdlError> {
    match edit_type {
        EditType::Cut => Ok(None),
        _ => match d {
            Some(n) => Ok(Some(n)),
            None => Err(EdlError::MissingDuration(edit_type)),
        },
    }
}

/// The wipe number an edit keeps: the given one for a wipe, which must have
/// one, and none otherwise.
pub open spec fn wipe_num_spec(edit_type: EditType, w: Option<u32>) -> Result<Option<u32>, EdlError> {
    match edit_type {
        EditType::Wipe => match w {
            Some(n) => Ok(Some(n)),
            None => Err(EdlError::MissingWipeNumber(edit_type)),
        },
        _ => Ok(None),
    }
}

/// Whether an edit request is accepted into the queue.
pub open spec fn edit_accepted(e: EditView) -> bool {
    duration_spec(e.edit_type, e.edit_duration_frames) is Ok && wipe_num_spec(
        e.edit_type,
        e.wipe_num,
    ) is Ok
}

/// The error that refuses an edit request: a missing duration first.
pub open spec fn edit_refusal(e: EditView) -> EdlError {
    match duration_spec(e.edit_type, e.edit_duration_frames) {
        Err(err) => err,
        Ok(_) => match wipe_num_spec(e.edit_type, e.wipe_num) {
            Err(err) => err,
            Ok(_) => EdlError::NoPreviousEdit,
        },
    }
}

/// The queued form of an accepted edit numbered `number`, following the
/// edit at the front of the queue (if any).
pub open spec fn ordered_spec(e: EditView, front: Option<OrderedEditView>, number: usize) -> OrderedEditView {
    OrderedEditView {
        edit_number: number,
        edit_type: e.edit_type,
        source_tape: e.source_tape,
        prev_tape: match front {
            Some(f) => f.source_tape,
            None => None,
        },
        av_channels: e.av_channels,
        prev_av_channels: match front {
            Some(f) => f.av_channels,
            None => AVChannels { video: true, audio: 0 },
        },
        timecode: e.timecode,
        edit_duration_frames: duration_spec(e.edit_type, e.edit_duration_frames)->Ok_0,
        wipe_num: wipe_num_spec(e.edit_type, e.wipe_num)->Ok_0,
    }
}

impl OrderedEdit {
    pub fn validate_edit_type_duration(
        edit_type: &EditType,
        edit_duration_frames: &Option<u32>,
    ) -> (r: Result<Option<u32>, EdlError>)
        ensures
            r == duration_spec(*edit_type, *edit_duration_frames),
    {
        match edit_type {
            EditType::Cut => Ok(None),
            EditType::Wipe | EditType::Dissolve => match edit_duration_frames {
                Some(n) => Ok(Some(*n)),
                None => Err(EdlError::MissingDuration(*edit_type)),
            },
        }
    }

    pub fn validate_wipe_num(edit_type: &EditType, wipe_num: &Option<u32>) -> (r: Result<
        Option<u32>,
        EdlError,
    >)
        ensures
            r == wipe_num_spec(*edit_type, *wipe_num),
    {
        match edit_type {
            EditType::Wipe => match wipe_num {
                Some(n) => Ok(Some(*n)),
                None => Err(EdlError::MissingWipeNumber(*edit_type)),
            },
            _ => Ok(None),
        }
    }
}

/// The queue of numbered edits.
#[derive(Debug)]
pub struct EditQueue {
    log: VecDeque<OrderedEdit>,
    count: usize,
}

/// A queued edit keeps what its kind uses: a dissolve or wipe carries its
/// duration and a cut carries none; a wipe carries its wipe number and a
/// cut or dissolve carries none.
pub open spec fn fields_match_kind(e: OrderedEditView) -> bool {
    &&& (e.edit_type == EditType::Cut <==> e.edit_duration_frames is None)
    &&& (e.edit_type == EditType::Wipe <==> e.wipe_num is Some)
}

/// The numbers of queued edits run consecutively up to the count of edits
/// accepted so far.
pub open spec fn numbered_consecutively(log: Seq<OrderedEditView>, count: usize) -> bool {
    &&& log.len() <= count
    &&& forall|i: int|
        0 <= i < log.len() ==> (#[trigger] log[i]).edit_number == count - (log.len() - 1 - i)
}

impl EditQueue {
    /// The queued edits, oldest first.
    pub closed spec fn log_view(&self) -> Seq<OrderedEditView> {
        self.log@.map_values(|e: OrderedEdit| e@)
    }

    /// The number of edits accepted since the queue was made or cleared.
    pub closed spec fn count_view(&self) -> usize {
        self.count
    }

    /// The queue's invariant: edits numbered consecutively up to the count,
    /// each at a well-formed timecode and keeping the duration and wipe
    /// number its kind uses, and no other.
    pub open spec fn wf(&self) -> bool {
        &&& numbered_consecutively(self.log_view(), self.count_view())
        &&& forall|i: int|
            0 <= i < self.log_view().len() ==> (#[trigger] self.log_view()[i]).timecode.wf()
        &&& forall|i: int|
            0 <= i < self.log_view().len() ==> fields_match_kind(
                #[trigger] self.log_view()[i],
            )
    }

    /// An empty queue.
    pub fn new() -> (q: Self)
        ensures
            q.wf(),
            q.log_view() == Seq::<OrderedEditView>::empty(),
            q.count_view() == 0,
    {
        let q = EditQueue { log: VecDeque::new(), count: 0 };
        assert(q.log_view() =~= Seq::<OrderedEditView>::empty());
        q
    }

    /// The number of edits accepted since the queue was made or cleared.
    pub fn count(&self) -> (c: usize)
        ensures
            c == self.count_view(),
    {
        self.count
    }

    /// The number of queued edits.
    pub fn len(&self) -> (n: usize)
        ensures
            n == self.log_view().len(),
    {
        self.log.len()
    }

    /// Numbers and queues an edit; refuses a dissolve or wipe without its
    /// duration, and a wipe without its wipe number, leaving the queue as it
    /// was.
    pub fn push(&mut self, edit: Edit) -> (r: Result<(), EdlError>)
        requires
            old(self).count_view() < usize::MAX,
        ensures
            match r {
                Ok(()) => {
                    &&& edit_accepted(edit@)
                    &&& final(self).count_view() == old(self).count_view() + 1
                    &&& final(self).log_view() == old(self).log_view().push(
                        ordered_spec(
                            edit@,
                            if old(self).log_view().len() > 0 {
                                Some(old(self).log_view()[0])
                            } else {
                                None
                            },
                            (old(self).count_view() + 1) as usize,
                        ),
                    )
                },
                Err(e) => {
                    &&& !edit_accepted(edit@)
                    &&& e == edit_refusal(edit@)
                    &&& final(self).log_view() == old(self).log_view()
                    &&& final(self).count_view() == old(self).count_view()
                },
            },
            old(self).wf() && edit@.timecode.wf() ==> final(self).wf(),
    {
        let edit_duration_frames = OrderedEdit::validate_edit_type_duration(
            &edit.edit_type,
            &edit.edit_duration_frames,
        )?;
        let wipe_num = OrderedEdit::validate_wipe_num(&edit.edit_type, &edit.wipe_num)?;
        let (prev_tape, prev_av_channels) = match self.front() {
            Some(front) => (clone_opt_text(&front.source_tape), front.av_channels),
            None => (None, AVChannels::video_only()),
        };
        let ghost old_log = self.log_view();
        self.count = self.count + 1;
        let ordered = OrderedEdit {
            source_tape: edit.source_tape,
            av_channels: edit.av_channels,
            edit_type: edit.edit_type,
            timecode: edit.timecode,
            edit_number: self.count,
            prev_av_channels,
            prev_tape,
            edit_duration_frames,
            wipe_num,
        };
        self.log.push_back(ordered);
        assert(self.log_view() =~= old_log.push(ordered@));
        Ok(())
    }

    /// Takes the oldest queued edit.
    pub fn pop_front(&mut self) -> (r: Option<OrderedEdit>)
        ensures
            match r {
                Some(e) => {
                    &&& old(self).log_view().len() > 0
                    &&& e@ == old(self).log_view()[0]
                    &&& final(self).log_view() == old(self).log_view().drop_first()
                },
                None => {
                    &&& old(self).log_view().len() == 0
                    &&& final(self).log_view() == old(self).log_view()
                },
            },
            final(self).count_view() == old(self).count_view(),
            old(self).wf() ==> final(self).wf(),
    {
        let ghost old_log = self.log_view();
        let r = self.log.pop_front();
        assert(self.log_view() =~= if old_log.len() > 0 {
            old_log.drop_first()
        } else {
            old_log
        });
        r
    }

    /// The oldest queued edit.
    pub fn front(&self) -> (r: Option<&OrderedEdit>)
        ensures
            match r {
                Some(e) => self.log_view().len() > 0 && e@ == self.log_view()[0],
                None => self.log_view().len() == 0,
            },
    {
        if self.log.len() > 0 {
            Some(&self.log[0])
        } else {
            None
        }
    }

    /// Empties the queue and restarts the numbering.
    pub fn clear(&mut self)
        ensures
            final(self).wf(),
            final(self).log_view() == Seq::<OrderedEditView>::empty(),
            final(self).count_view() == 0,
    {
        self.count = 0;
        self.log.clear();
        assert(self.log_view() =~= Seq::<OrderedEditView>::empty());
    }
}

impl Default for EditQueue {
    fn default() -> (q: Self)
        ensures
            q.wf(),
            q.log_view() == Seq::<OrderedEditView>::empty(),
            q.count_view() == 0,
    {
        Self::new()
    }
}

} // verus!
