//! The event server's decisions: routing, request bodies, and the EDL
//! recording state driven by start, log, end and source selection events.
//!
//! Network, audio and file work stays with the caller, which reports each
//! outcome back: a recording starts in `Waiting` until the first timecode
//! frame is queued, logs edits while `Started`, and ends through `Waiting`
//! back to `Stopped`.

pub mod http;

use vstd::prelude::*;
use vstd::string::StringExecFns;

use crate::edl_writer::edit_queue::{
    clone_opt_text, edit_accepted, edit_refusal, opt_text_view, ordered_spec, Edit, EditView,
    OrderedEditView,
};
use crate::edl_writer::{event_spec, AVChannels, Edl, EdlError, EditType, Event, EventView};
use crate::server::http::{
    announced_length, body_offset_spec, content_length_value, headers_view, httparse_request,
    opt_text, parse_head, request_body, BodyError, HeadError, HttpHead, StatusCode,
};
use crate::text::parse_usize_spec;
use crate::text::str_equal;
use crate::timecode::Timecode;

verus! {

/// What a request asks for, by method and path.
#[derive(Clone, Copy, Debug, PartialEq, Eq, Structural)]
pub enum Route {
    Start,
    End,
    Log,
    SelectSrc,
    RecordingState,
    Kill,
    NotFound,
}

/// The route of a request: POST `/start`, `/end`, `/log`, `/select-src`;
/// GET `/edl-recording-state`, `/SIGKILL`; anything else is not found.
pub open spec fn route_spec(method: Option<Seq<char>>, path: Option<Seq<char>>) -> Route {
    if method == Some("POST"@) {
        if path == Some("/start"@) {
            Route::Start
        } else if path == Some("/end"@) {
            Route::End
        } else if path == Some("/log"@) {
            Route::Log
        } else if path == Some("/select-src"@) {
            Route::SelectSrc
        } else {
            Route::NotFound
        }
    } else if method == Some("GET"@) {
        if path == Some("/edl-recording-state"@) {
            Route::RecordingState
        } else if path == Some("/SIGKILL"@) {
            Route::Kill
        } else {
            Route::NotFound
        }
    } else {
        Route::NotFound
    }
}

fn is_text(o: Option<&str>, lit: &str) -> (b: bool)
    ensures
        b == (match o {
            Some(s) => s@ == lit@,
            None => false,
        }),
{
    match o {
        Some(s) => str_equal(s, lit),
        None => false,
    }
}

/// Routes a request by its method and path.
pub fn route(method: Option<&str>, path: Option<&str>) -> (r: Route)
    ensures
        r == route_spec(
            match method {
                Some(m) => Some(m@),
                None => None,
            },
            match path {
                Some(p) => Some(p@),
                None => None,
            },
        ),
{
    if is_text(method, "POST") {
        if is_text(path, "/start") {
            Route::Start
        } else if is_text(path, "/end") {
            Route::End
        } else if is_text(path, "/log") {
            Route::Log
        } else if is_text(path, "/select-src") {
            Route::SelectSrc
        } else {
            Route::NotFound
        }
    } else if is_text(method, "GET") {
        if is_text(path, "/edl-recording-state") {
            Route::RecordingState
        } else if is_text(path, "/SIGKILL") {
            Route::Kill
        } else {
            Route::NotFound
        }
    } else {
        Route::NotFound
    }
}

/// A request read from a buffer: its head and its route.
pub struct Request {
    pub head: HttpHead,
    pub route: Route,
}

/// The number of header slots a request is read with.
pub const REQUEST_HEADER_SLOTS: usize = 16;

impl Request {
    /// Reads the head of the request in `buffer` with 16 header slots and
    /// routes it by its method and path.
    pub fn new(buffer: &[u8]) -> (r: Result<Request, HeadError>)
        ensures
            match r {
                Ok(req) => {
                    &&& httparse_request(buffer@, REQUEST_HEADER_SLOTS) == Some(req.head.head_view())
                    &&& req.route == route_spec(opt_text(req.head.method), opt_text(req.head.path))
                },
                Err(_) => httparse_request(buffer@, REQUEST_HEADER_SLOTS) is None,
            },
    {
        let head = parse_head(buffer, REQUEST_HEADER_SLOTS)?;
        let r = route(
            match &head.method {
                Some(m) => Some(m.as_str()),
                None => None,
            },
            match &head.path {
                Some(p) => Some(p.as_str()),
                None => None,
            },
        );
        Ok(Request { head, route: r })
    }

    /// The body of the request in `buffer`, as long as its `Content-Length`
    /// announces. The announced body must lie within `buffer`.
    pub fn body<'a>(&self, buffer: &'a [u8]) -> (r: Result<&'a [u8], BodyError>)
        requires
            announced_length(&self.head) matches Some(n) ==> body_offset_spec(&self.head) + n
                <= buffer@.len(),
        ensures
            match content_length_value(headers_view(self.head.headers@)) {
                None => r == Err::<&[u8], BodyError>(BodyError::MissingContentLength),
                Some(v) => match parse_usize_spec(v) {
                    Some(n) => r matches Ok(b) && b@ == buffer@.subrange(
                        body_offset_spec(&self.head) as int,
                        body_offset_spec(&self.head) + n,
                    ),
                    None => r == Err::<&[u8], BodyError>(BodyError::InvalidContentLength),
                },
            },
    {
        request_body(&self.head, buffer)
    }
}

/// Recording state of the server.
#[derive(Clone, Copy, Debug, PartialEq, Eq, Structural)]
pub enum EdlRecordingState {
    /// Timecode is running and edits are being logged.
    Started,
    /// No recording.
    Stopped,
    /// A start (or an end) is under way.
    Waiting,
}

impl EdlRecordingState {
    pub open spec fn name_spec(self) -> Seq<char> {
        match self {
            EdlRecordingState::Started => "started"@,
            EdlRecordingState::Stopped => "stopped"@,
            EdlRecordingState::Waiting => "waiting"@,
        }
    }

    /// The lower-case name used in responses.
    pub fn as_str(self) -> (s: &'static str)
        ensures
            s@ == self.name_spec(),
    {
        match self {
            EdlRecordingState::Started => "started",
            EdlRecordingState::Stopped => "stopped",
            EdlRecordingState::Waiting => "waiting",
        }
    }
}

/// Why a request could not be served.
#[derive(Clone, Copy, Debug, PartialEq, Eq, Structural)]
pub enum ServerError {
    /// The body was a source selection where an edit was expected, or the
    /// other way round.
    UnexpectedRequestType,
    /// The edit type is none of `cut`, `wipe`, `dissolve` (in any case).
    InvalidEditType,
    /// The EDL refused the edit or could not build its event.
    Edl(EdlError),
}

/// An edit event's data.
pub struct EditRequestData {
    pub edit_type: String,
    pub edit_duration_frames: Option<u32>,
    pub wipe_num: Option<u32>,
    pub source_tape: Option<String>,
    pub av_channels: Option<AVChannels>,
}

pub struct EditRequestView {
    pub edit_type: Seq<char>,
    pub edit_duration_frames: Option<u32>,
    pub wipe_num: Option<u32>,
    pub source_tape: Option<Seq<char>>,
    pub av_channels: Option<AVChannels>,
}

impl View for EditRequestData {
    type V = EditRequestView;

    open spec fn view(&self) -> EditRequestView {
        EditRequestView {
            edit_type: self.edit_type@,
            edit_duration_frames: self.edit_duration_frames,
            wipe_num: self.wipe_num,
            source_tape: opt_text_view(self.source_tape),
            av_channels: self.av_channels,
        }
    }
}

/// A source selection event's data.
pub struct SourceTapeRequestData {
    pub source_tape: Option<String>,
    pub av_channels: Option<AVChannels>,
}

/// A request body: an edit or a source selection.
pub enum ReqBody {
    Edit(EditRequestData),
    Source(SourceTapeRequestData),
}

impl ReqBody {
    pub fn expect_source(self) -> (r: Result<SourceTapeRequestData, ServerError>)
        ensures
            self is Source <==> r is Ok,
            r matches Ok(s) ==> self == ReqBody::Source(s),
            r matches Err(e) ==> e == ServerError::UnexpectedRequestType,
    {
        match self {
            ReqBody::Source(src) => Ok(src),
            ReqBody::Edit(_) => Err(ServerError::UnexpectedRequestType),
        }
    }

    pub fn expect_edit(self) -> (r: Result<EditRequestData, ServerError>)
        ensures
            self is Edit <==> r is Ok,
            r matches Ok(e) ==> self == ReqBody::Edit(e),
            r matches Err(e) ==> e == ServerError::UnexpectedRequestType,
    {
        match self {
            ReqBody::Edit(e) => Ok(e),
            ReqBody::Source(_) => Err(ServerError::UnexpectedRequestType),
        }
    }
}

/// The tape and channels chosen ahead of the edits that name none.
pub struct SelectedSource {
    pub source_tape: Option<String>,
    pub av_channels: Option<AVChannels>,
}

pub struct SelectedSourceView {
    pub source_tape: Option<Seq<char>>,
    pub av_channels: Option<AVChannels>,
}

impl View for SelectedSource {
    type V = SelectedSourceView;

    open spec fn view(&self) -> SelectedSourceView {
        SelectedSourceView {
            source_tape: opt_text_view(self.source_tape),
            av_channels: self.av_channels,
        }
    }
}

/// A request with the selected tape and channels filled in where it names
/// none.
pub open spec fn mapped_request(req: EditRequestView, sel: SelectedSourceView) -> EditRequestView {
    EditRequestView {
        source_tape: match req.source_tape {
            Some(t) => Some(t),
            None => sel.source_tape,
        },
        av_channels: match req.av_channels {
            Some(a) => Some(a),
            None => sel.av_channels,
        },
        ..req
    }
}

/// The wipe number a request asks for: the one it gives, else wipe 1.
pub open spec fn requested_wipe_num(w: Option<u32>) -> Option<u32> {
    match w {
        Some(n) => Some(n),
        None => Some(1),
    }
}

/// The wipe number a request asks for, defaulting to wipe 1.
pub fn wipe_num_or_default(w: Option<u32>) -> (r: Option<u32>)
    ensures
        r == requested_wipe_num(w),
{
    match w {
        Some(n) => Some(n),
        None => Some(1),
    }
}

/// The edit a request makes at `tc`: its type parsed (in any case), its
/// wipe number defaulting to 1 and its channels to video with two audio
/// channels; `None` for an unknown type.
pub open spec fn request_edit_spec(req: EditRequestView, tc: Timecode) -> Option<EditView> {
    match EditType::parse_name(req.edit_type) {
        None => None,
        Some(t) => Some(
            EditView {
                edit_type: t,
                source_tape: req.source_tape,
                edit_duration_frames: req.edit_duration_frames,
                wipe_num: requested_wipe_num(req.wipe_num),
                av_channels: match req.av_channels {
                    Some(a) => a,
                    None => AVChannels { video: true, audio: 2 },
                },
                timecode: tc,
            },
        ),
    }
}

/// Law: an edit request keeps the wipe number it gives; only a request
/// without one gets wipe 1. This holds of the edits of log and end
/// requests alike, whatever the edit type, tape and channels.
pub proof fn lemma_request_keeps_wipe_number(req: EditRequestView, tc: Timecode)
    ensures
        request_edit_spec(req, tc) matches Some(e) ==> {
            &&& (req.wipe_num is Some ==> e.wipe_num == req.wipe_num)
            &&& (req.wipe_num is None ==> e.wipe_num == Some(1u32))
        },
        final_edit_spec(req, tc) matches Some(e) ==> {
            &&& (req.wipe_num is Some ==> e.wipe_num == req.wipe_num)
            &&& (req.wipe_num is None ==> e.wipe_num == Some(1u32))
        },
        EditType::parse_name(req.edit_type) is Some <==> request_edit_spec(req, tc) is Some,
{
}

/// Law: the wipe number of a wipe request reaches the EDL. The wipe edit the
/// request makes is queued, and the wipe event it starts carries the number
/// the request gave, or wipe 1 when it gave none, whatever edit came before
/// it and whatever edit follows.
pub proof fn lemma_request_wipe_reaches_event(
    req: EditRequestView,
    tc: Timecode,
    front: Option<OrderedEditView>,
    number: usize,
    next: OrderedEditView,
)
    requires
        EditType::parse_name(req.edit_type) == Some(EditType::Wipe),
        req.edit_duration_frames is Some,
    ensures
        request_edit_spec(req, tc) matches Some(e) && edit_accepted(e) && (event_spec(
            ordered_spec(e, front, number),
            next,
        ) matches Ok(EventView::Wipe { wipe_number, .. }) && (req.wipe_num is Some ==> Some(
            wipe_number,
        ) == req.wipe_num) && (req.wipe_num is None ==> wipe_number == 1)),
{
}

impl EditRequestData {
    /// Fills in the selected tape and channels where the request names none.
    pub fn map_selected_source(&mut self, selected: &SelectedSource)
        ensures
            final(self)@ == mapped_request(old(self)@, selected@),
    {
        if self.source_tape.is_none() {
            self.source_tape = clone_opt_text(&selected.source_tape);
        }
        if self.av_channels.is_none() {
            self.av_channels = selected.av_channels;
        }
    }

    /// The edit this request makes at `tc`.
    pub fn to_edit(self, tc: Timecode) -> (r: Result<Edit, ServerError>)
        ensures
            match request_edit_spec(self@, tc) {
                Some(e) => r matches Ok(edit) && edit@ == e,
                None => r == Err::<Edit, ServerError>(ServerError::InvalidEditType),
            },
    {
        let edit_type = match EditType::try_from_str(self.edit_type.as_str()) {
            Some(t) => t,
            None => return Err(ServerError::InvalidEditType),
        };
        let av_channels = match self.av_channels {
            Some(a) => a,
            None => AVChannels::default(),
        };
        Ok(Edit {
            edit_type,
            source_tape: self.source_tape,
            edit_duration_frames: self.edit_duration_frames,
            wipe_num: wipe_num_or_default(self.wipe_num),
            av_channels,
            timecode: tc,
        })
    }
}

/// What to do with a start request.
#[derive(Clone, Copy, Debug, PartialEq, Eq, Structural)]
pub enum StartStep {
    /// The recording was stopped and is now waiting: turn decoding on,
    /// open the EDL file, then queue the request at the first frame.
    Proceed,
    /// A recording is already under way in this state; answer 202.
    Refused(EdlRecordingState),
}

/// What to do with an end request.
#[derive(Clone, Copy, Debug, PartialEq, Eq, Structural)]
pub enum EndStep {
    /// The recording was started and now waits for its final edits.
    LogFinal,
    /// The recording had not found timecode yet and is now stopped; turn
    /// decoding off.
    StopWaiting,
    /// No recording was under way; answer 202.
    NotStarted,
}

/// The recording state of the server, the pre-selected source and the
/// edits of the EDL being recorded.
pub struct ContextInner {
    rec_state: EdlRecordingState,
    selected: SelectedSource,
    edl: Edl,
}

/// The edit an end request makes: the requested transition, to black, its
/// wipe number defaulting to 1.
pub open spec fn final_edit_spec(req: EditRequestView, tc: Timecode) -> Option<EditView> {
    match EditType::parse_name(req.edit_type) {
        None => None,
        Some(t) => Some(
            EditView {
                edit_type: t,
                source_tape: None,
                edit_duration_frames: req.edit_duration_frames,
                wipe_num: requested_wipe_num(req.wipe_num),
                av_channels: AVChannels { video: true, audio: 0 },
                timecode: tc,
            },
        ),
    }
}

/// The cut that closes a recording after a final transition.
pub open spec fn closing_cut_spec(tc: Timecode) -> EditView {
    EditView {
        edit_type: EditType::Cut,
        source_tape: None,
        edit_duration_frames: None,
        wipe_num: None,
        av_channels: AVChannels { video: true, audio: 0 },
        timecode: tc,
    }
}

/// The final edit of an end request depends on its edit type, duration and
/// wipe number alone: the tape and channels it names are ignored, as the
/// last edit goes to black.
pub proof fn lemma_end_ignores_source(a: EditRequestView, b: EditRequestView, tc: Timecode)
    requires
        a.edit_type == b.edit_type,
        a.edit_duration_frames == b.edit_duration_frames,
        a.wipe_num == b.wipe_num,
    ensures
        final_edit_spec(a, tc) == final_edit_spec(b, tc),
{
}

/// An edit request that names no tape or no channels takes the selected
/// ones; what it names itself is kept.
pub proof fn lemma_selection_fills_gaps(req: EditRequestView, sel: SelectedSourceView)
    ensures
        mapped_request(req, sel).source_tape == (if req.source_tape is Some {
            req.source_tape
        } else {
            sel.source_tape
        }),
        mapped_request(req, sel).av_channels == (if req.av_channels is Some {
            req.av_channels
        } else {
            sel.av_channels
        }),
        mapped_request(req, sel).edit_type == req.edit_type,
        mapped_request(req, sel).edit_duration_frames == req.edit_duration_frames,
        mapped_request(req, sel).wipe_num == req.wipe_num,
{
}

/// The front of a queue, if any.
pub open spec fn front_of(log: Seq<OrderedEditView>) -> Option<OrderedEditView> {
    if log.len() > 0 {
        Some(log[0])
    } else {
        None
    }
}

/// The events an end request completes with the final edit `e` at `tc`,
/// on a log holding `edits` after `count` numbered edits: the event that
/// `e` ends, then, after a dissolve or wipe, the event that the closing cut
/// ends.
pub open spec fn final_events_spec(
    edits: Seq<OrderedEditView>,
    count: usize,
    e: EditView,
    tc: Timecode,
    evs: Seq<EventView>,
) -> bool {
    let pushed = edits.push(ordered_spec(e, front_of(edits), (count + 1) as usize));
    &&& pushed.len() >= 2
    &&& evs.len() >= 1
    &&& event_spec(pushed[0], pushed[1]) == Ok::<EventView, EdlError>(evs[0])
    &&& e.edit_type == EditType::Cut ==> evs.len() == 1
    &&& e.edit_type != EditType::Cut ==> {
        let rest = pushed.drop_first();
        let closed = rest.push(
            ordered_spec(closing_cut_spec(tc), front_of(rest), (count + 2) as usize),
        );
        &&& evs.len() == 2
        &&& closed.len() >= 2
        &&& event_spec(closed[0], closed[1]) == Ok::<EventView, EdlError>(evs[1])
    }
}

/// The log and count an end request leaves with the final edit `e` at
/// `tc`: the edits after the one `e` ends, then, after a dissolve or wipe,
/// after the one the closing cut ends.
pub open spec fn final_queue_spec(
    edits: Seq<OrderedEditView>,
    count: usize,
    e: EditView,
    tc: Timecode,
    new_edits: Seq<OrderedEditView>,
    new_count: usize,
) -> bool {
    let pushed = edits.push(ordered_spec(e, front_of(edits), (count + 1) as usize));
    let rest = pushed.drop_first();
    if e.edit_type == EditType::Cut {
        new_edits == rest && new_count == count + 1
    } else {
        let closed = rest.push(
            ordered_spec(closing_cut_spec(tc), front_of(rest), (count + 2) as usize),
        );
        new_edits == closed.drop_first() && new_count == count + 2
    }
}

impl ContextInner {
    pub closed spec fn state(&self) -> EdlRecordingState {
        self.rec_state
    }

    pub closed spec fn selected_view(&self) -> SelectedSourceView {
        self.selected@
    }

    pub closed spec fn edits(&self) -> Seq<OrderedEditView> {
        self.edl.queue().log_view()
    }

    pub closed spec fn edit_count(&self) -> usize {
        self.edl.queue().count_view()
    }

    /// The recorder's invariant: the EDL's queue is well formed.
    pub closed spec fn wf(&self) -> bool {
        self.edl.wf()
    }

    /// A stopped recorder with nothing selected and no edits.
    pub fn new() -> (r: Self)
        ensures
            r.wf(),
            r.state() == EdlRecordingState::Stopped,
            r.selected_view().source_tape is None,
            r.selected_view().av_channels is None,
            r.edits() == Seq::<OrderedEditView>::empty(),
            r.edit_count() == 0,
    {
        ContextInner {
            rec_state: EdlRecordingState::Stopped,
            selected: SelectedSource { source_tape: None, av_channels: None },
            edl: Edl::new(),
        }
    }

    pub fn rec_state(&self) -> (s: EdlRecordingState)
        ensures
            s == self.state(),
    {
        self.rec_state
    }

    /// The number of edits numbered since the recording started.
    pub fn edit_count_now(&self) -> (n: usize)
        ensures
            n == self.edit_count(),
    {
        self.edl.edit_count()
    }

    /// Sets the recording state and returns it.
    pub fn set_rec_state(&mut self, state: EdlRecordingState) -> (r: EdlRecordingState)
        ensures
            r == state,
            final(self).state() == state,
            final(self).selected_view() == old(self).selected_view(),
            final(self).edits() == old(self).edits(),
            final(self).edit_count() == old(self).edit_count(),
            old(self).wf() ==> final(self).wf(),
    {
        self.rec_state = state;
        state
    }

    /// Selects the tape and/or channels given; what is not given stays.
    pub fn select_src(&mut self, req: SourceTapeRequestData)
        ensures
            final(self).selected_view().source_tape == (match opt_text_view(req.source_tape) {
                Some(t) => Some(t),
                None => old(self).selected_view().source_tape,
            }),
            final(self).selected_view().av_channels == (match req.av_channels {
                Some(a) => Some(a),
                None => old(self).selected_view().av_channels,
            }),
            final(self).state() == old(self).state(),
            final(self).edits() == old(self).edits(),
            final(self).edit_count() == old(self).edit_count(),
            old(self).wf() ==> final(self).wf(),
    {
        if req.source_tape.is_some() {
            self.selected.source_tape = req.source_tape;
        }
        if req.av_channels.is_some() {
            self.selected.av_channels = req.av_channels;
        }
    }

    /// A start request: from `Stopped`, wait for timecode with an empty
    /// EDL; otherwise refuse and keep the state.
    pub fn begin_start(&mut self) -> (r: StartStep)
        requires
            old(self).wf(),
        ensures
            final(self).wf(),
            final(self).selected_view() == old(self).selected_view(),
            old(self).state() == EdlRecordingState::Stopped ==> {
                &&& r == StartStep::Proceed
                &&& final(self).state() == EdlRecordingState::Waiting
                &&& final(self).edits() == Seq::<OrderedEditView>::empty()
                &&& final(self).edit_count() == 0
            },
            old(self).state() != EdlRecordingState::Stopped ==> {
                &&& r == StartStep::Refused(old(self).state())
                &&& final(self).state() == old(self).state()
                &&& final(self).edits() == old(self).edits()
                &&& final(self).edit_count() == old(self).edit_count()
            },
    {
        match self.rec_state {
            EdlRecordingState::Stopped => {
                self.rec_state = EdlRecordingState::Waiting;
                self.edl.clear();
                StartStep::Proceed
            },
            s => StartStep::Refused(s),
        }
    }

    /// The first timecode frame of a recording arrived: queue the start
    /// request's edit (with the selected source filled in) and mark the
    /// recording started. A refused request stops the recording.
    pub fn start_with_frame(&mut self, req: EditRequestData, tc: Timecode) -> (r: Result<
        EdlRecordingState,
        ServerError,
    >)
        requires
            old(self).wf(),
            tc.wf(),
            old(self).edit_count() < usize::MAX,
        ensures
            final(self).wf(),
            final(self).selected_view() == old(self).selected_view(),
            ({
                let mapped = mapped_request(req@, old(self).selected_view());
                match request_edit_spec(mapped, tc) {
                    None => r == Err::<EdlRecordingState, ServerError>(
                        ServerError::InvalidEditType,
                    ) && final(self).state() == EdlRecordingState::Stopped && final(self).edits()
                        == old(self).edits() && final(self).edit_count() == old(self).edit_count(),
                    Some(e) => if edit_accepted(e) {
                        &&& r == Ok::<EdlRecordingState, ServerError>(EdlRecordingState::Started)
                        &&& final(self).state() == EdlRecordingState::Started
                        &&& final(self).edits() == old(self).edits().push(
                            ordered_spec(
                                e,
                                front_of(old(self).edits()),
                                (old(self).edit_count() + 1) as usize,
                            ),
                        )
                        &&& final(self).edit_count() == old(self).edit_count() + 1
                    } else {
                        &&& r == Err::<EdlRecordingState, ServerError>(
                            ServerError::Edl(edit_refusal(e)),
                        )
                        &&& final(self).state() == EdlRecordingState::Stopped
                        &&& final(self).edits() == old(self).edits()
                        &&& final(self).edit_count() == old(self).edit_count()
                    },
                }
            }),
    {
        let mut req = req;
        req.map_selected_source(&self.selected);
        let edit = match req.to_edit(tc) {
            Ok(e) => e,
            Err(e) => {
                self.rec_state = EdlRecordingState::Stopped;
                return Err(e);
            },
        };
        match self.edl.push_edit(edit) {
            Ok(()) => {
                self.rec_state = EdlRecordingState::Started;
                Ok(EdlRecordingState::Started)
            },
            Err(e) => {
                self.rec_state = EdlRecordingState::Stopped;
                Err(ServerError::Edl(e))
            },
        }
    }

    /// A log request while started: queue its edit at `tc` and build the
    /// event that the edit ends. The state does not change.
    pub fn log_edit(&mut self, req: EditRequestData, tc: Timecode) -> (r: Result<
        Event,
        ServerError,
    >)
        requires
            old(self).wf(),
            tc.wf(),
            old(self).edit_count() < usize::MAX,
        ensures
            final(self).wf(),
            final(self).state() == old(self).state(),
            final(self).selected_view() == old(self).selected_view(),
            r matches Ok(ev) ==> ev@.wf(),
            r is Ok <==> (match request_edit_spec(
                mapped_request(req@, old(self).selected_view()),
                tc,
            ) {
                Some(e) => edit_accepted(e) && old(self).edits().len() >= 1,
                None => false,
            }),
            ({
                let mapped = mapped_request(req@, old(self).selected_view());
                match request_edit_spec(mapped, tc) {
                    None => r == Err::<Event, ServerError>(ServerError::InvalidEditType)
                        && final(self).edits() == old(self).edits() && final(self).edit_count()
                        == old(self).edit_count(),
                    Some(e) => if !edit_accepted(e) {
                        r == Err::<Event, ServerError>(ServerError::Edl(edit_refusal(e)))
                            && final(self).edits() == old(self).edits() && final(self).edit_count()
                            == old(self).edit_count()
                    } else {
                        let pushed = old(self).edits().push(
                            ordered_spec(
                                e,
                                front_of(old(self).edits()),
                                (old(self).edit_count() + 1) as usize,
                            ),
                        );
                        &&& final(self).edits() == pushed.drop_first()
                        &&& final(self).edit_count() == old(self).edit_count() + 1
                        &&& pushed.len() == 1 ==> r == Err::<Event, ServerError>(
                            ServerError::Edl(EdlError::NoCurrentEdit),
                        )
                        &&& pushed.len() >= 2 ==> match r {
                            Ok(ev) => event_spec(pushed[0], pushed[1]) == Ok::<
                                EventView,
                                EdlError,
                            >(ev@),
                            Err(err) => exists|ee: EdlError|
                                event_spec(pushed[0], pushed[1]) == Err::<EventView, EdlError>(ee)
                                    && err == ServerError::Edl(ee),
                        }
                    },
                }
            }),
    {
        let mut req = req;
        req.map_selected_source(&self.selected);
        let edit = req.to_edit(tc)?;
        match self.edl.push_edit(edit) {
            Ok(()) => {},
            Err(e) => return Err(ServerError::Edl(e)),
        }
        match self.edl.try_build_event() {
            Ok(ev) => Ok(ev),
            Err(e) => Err(ServerError::Edl(e)),
        }
    }

    /// An end request: a started recording waits for its final edits, a
    /// waiting one stops, a stopped one is refused.
    pub fn begin_end(&mut self) -> (r: EndStep)
        requires
            old(self).wf(),
        ensures
            final(self).wf(),
            final(self).selected_view() == old(self).selected_view(),
            final(self).edits() == old(self).edits(),
            final(self).edit_count() == old(self).edit_count(),
            old(self).state() == EdlRecordingState::Started ==> r == EndStep::LogFinal
                && final(self).state() == EdlRecordingState::Waiting,
            old(self).state() == EdlRecordingState::Waiting ==> r == EndStep::StopWaiting
                && final(self).state() == EdlRecordingState::Stopped,
            old(self).state() == EdlRecordingState::Stopped ==> r == EndStep::NotStarted
                && final(self).state() == EdlRecordingState::Stopped,
    {
        match self.rec_state {
            EdlRecordingState::Started => {
                self.rec_state = EdlRecordingState::Waiting;
                EndStep::LogFinal
            },
            EdlRecordingState::Waiting => {
                self.rec_state = EdlRecordingState::Stopped;
                EndStep::StopWaiting
            },
            EdlRecordingState::Stopped => EndStep::NotStarted,
        }
    }

    /// The final edits of a recording at `tc`: the end request's transition
    /// to black ends the last logged edit; a dissolve or wipe to black is
    /// itself closed by a cut at `tc`, giving a second event. The source
    /// and channels of the request are not used. The state does not change.
    pub fn end_edits(&mut self, req: EditRequestData, tc: Timecode) -> (r: Result<
        Vec<Event>,
        ServerError,
    >)
        requires
            old(self).wf(),
            tc.wf(),
            old(self).edit_count() < usize::MAX - 1,
        ensures
            final(self).wf(),
            final(self).state() == old(self).state(),
            final(self).selected_view() == old(self).selected_view(),
            r matches Ok(events) ==> forall|i: int|
                0 <= i < events@.len() ==> (#[trigger] events@[i])@.wf(),
            r is Ok <==> (match final_edit_spec(req@, tc) {
                Some(e) => edit_accepted(e) && old(self).edits().len() >= 1,
                None => false,
            }),
            match final_edit_spec(req@, tc) {
                None => r == Err::<Vec<Event>, ServerError>(ServerError::InvalidEditType),
                Some(e) => {
                    &&& !edit_accepted(e) ==> r == Err::<Vec<Event>, ServerError>(
                        ServerError::Edl(edit_refusal(e)),
                    )
                    &&& r matches Ok(events) ==> final_events_spec(
                        old(self).edits(),
                        old(self).edit_count(),
                        e,
                        tc,
                        events@.map_values(|ev: Event| ev@),
                    )
                    &&& r is Ok ==> final_queue_spec(
                        old(self).edits(),
                        old(self).edit_count(),
                        e,
                        tc,
                        final(self).edits(),
                        final(self).edit_count(),
                    )
                },
            },
    {
        let edit_type = match EditType::try_from_str(req.edit_type.as_str()) {
            Some(t) => t,
            None => return Err(ServerError::InvalidEditType),
        };
        let final_edit = Edit {
            edit_type,
            source_tape: None,
            edit_duration_frames: req.edit_duration_frames,
            wipe_num: wipe_num_or_default(req.wipe_num),
            av_channels: AVChannels::video_only(),
            timecode: tc,
        };
        match self.edl.push_edit(final_edit) {
            Ok(()) => {},
            Err(e) => return Err(ServerError::Edl(e)),
        }
        let first = match self.edl.try_build_event() {
            Ok(ev) => ev,
            Err(e) => return Err(ServerError::Edl(e)),
        };
        let mut events: Vec<Event> = Vec::new();
        events.push(first);
        if edit_type != EditType::Cut {
            let closing = Edit {
                edit_type: EditType::Cut,
                source_tape: None,
                edit_duration_frames: None,
                wipe_num: None,
                av_channels: AVChannels::video_only(),
                timecode: tc,
            };
            match self.edl.push_edit(closing) {
                Ok(()) => {},
                Err(e) => return Err(ServerError::Edl(e)),
            }
            let second = match self.edl.try_build_event() {
                Ok(ev) => ev,
                Err(e) => return Err(ServerError::Edl(e)),
            };
            events.push(second);
        }
        Ok(events)
    }
}

/// The body of a recording response: the recording state, with the event
/// a log request completed or the events an end request completed.
pub struct ResBody {
    pub recording_status: EdlRecordingState,
    pub edit: Option<Event>,
    pub final_edits: Option<Vec<Event>>,
}

/// What a response carries: a recording body, or a message.
pub enum ResContent {
    Status(ResBody),
    Message(String),
}

/// A response to a request: its content and status.
pub struct Response {
    pub content: ResContent,
    pub status: StatusCode,
}

/// A response with `code` carrying the message `text`.
pub open spec fn is_message(r: Response, code: StatusCode, text: Seq<char>) -> bool {
    &&& r.status == code
    &&& r.content matches ResContent::Message(m) && m@ == text
}

/// A response with `code` carrying the recording state alone.
pub open spec fn is_status_only(r: Response, state: EdlRecordingState, code: StatusCode) -> bool {
    &&& r.status == code
    &&& r.content matches ResContent::Status(b) && b.recording_status == state && b.edit is None
        && b.final_edits is None
}

/// The answer to a request that could not be served.
pub open spec fn is_server_err(r: Response) -> bool {
    is_message(r, StatusCode::S500, "Failed to parse request"@)
}

/// A 200 response of a started recording carrying the event `ev`.
pub open spec fn answers_event(r: Response, ev: EventView) -> bool {
    &&& r.status == StatusCode::S200
    &&& match r.content {
        ResContent::Status(b) => {
            &&& b.recording_status == EdlRecordingState::Started
            &&& b.final_edits is None
            &&& match b.edit {
                Some(e) => e@ == ev,
                None => false,
            }
        },
        ResContent::Message(_) => false,
    }
}

/// A 200 response of a stopped recording carrying the final events of
/// `e` at `tc` (see `final_events_spec`).
pub open spec fn answers_final_events(
    r: Response,
    edits: Seq<OrderedEditView>,
    count: usize,
    e: EditView,
    tc: Timecode,
) -> bool {
    &&& r.status == StatusCode::S200
    &&& match r.content {
        ResContent::Status(b) => {
            &&& b.recording_status == EdlRecordingState::Stopped
            &&& b.edit is None
            &&& match b.final_edits {
                Some(events) => final_events_spec(
                    edits,
                    count,
                    e,
                    tc,
                    events@.map_values(|ev: Event| ev@),
                ),
                None => false,
            }
        },
        ResContent::Message(_) => false,
    }
}

impl Response {
    /// A response carrying the recording state alone.
    pub fn status_only(state: EdlRecordingState, status: StatusCode) -> (r: Response)
        ensures
            is_status_only(r, state, status),
    {
        Response {
            content: ResContent::Status(
                ResBody { recording_status: state, edit: None, final_edits: None },
            ),
            status,
        }
    }
}

/// The answer to a request that could not be served: 500.
pub fn server_err() -> (r: Response)
    ensures
        is_server_err(r),
{
    Response {
        content: ResContent::Message(String::from_str("Failed to parse request")),
        status: StatusCode::S500,
    }
}

/// The answer to an unknown route: 404.
pub fn not_found() -> (r: Response)
    ensures
        is_message(r, StatusCode::S404, "Command not found"@),
{
    Response {
        content: ResContent::Message(String::from_str("Command not found")),
        status: StatusCode::S404,
    }
}

/// The answer to a request to stop the server: 418.
pub fn kill_server() -> (r: Response)
    ensures
        is_message(r, StatusCode::S418, "Exiting..."@),
{
    Response { content: ResContent::Message(String::from_str("Exiting...")), status: StatusCode::S418 }
}

/// The answer when no timecode frame could be had.
pub fn frame_unavailable() -> (r: Response)
    ensures
        is_message(
            r,
            StatusCode::S200,
            "Unable to get timecode. Make sure source is streaming and decoding has started."@,
        ),
{
    Response {
        content: ResContent::Message(
            String::from_str(
                "Unable to get timecode. Make sure source is streaming and decoding has started.",
            ),
        ),
        status: StatusCode::S200,
    }
}

/// The answer to a start attempt at the first frame: 200 with the new
/// state, or 500.
pub fn start_response(r: Result<EdlRecordingState, ServerError>) -> (res: Response)
    ensures
        match r {
            Ok(s) => is_status_only(res, s, StatusCode::S200),
            Err(_) => is_server_err(res),
        },
{
    match r {
        Ok(s) => Response::status_only(s, StatusCode::S200),
        Err(_) => server_err(),
    }
}

/// The edit a log request makes: its body must be an edit and a frame must
/// have been had.
pub open spec fn log_attempt(
    body: Option<ReqBody>,
    frame: Option<Timecode>,
    sel: SelectedSourceView,
) -> Option<EditView> {
    match (body, frame) {
        (Some(ReqBody::Edit(req)), Some(tc)) => request_edit_spec(mapped_request(req@, sel), tc),
        _ => None,
    }
}

/// The final edit an end request makes: its body must be an edit and a
/// frame must have been had.
pub open spec fn end_attempt(body: Option<ReqBody>, frame: Option<Timecode>) -> Option<EditView> {
    match (body, frame) {
        (Some(ReqBody::Edit(req)), Some(tc)) => final_edit_spec(req@, tc),
        _ => None,
    }
}

impl ContextInner {
    /// The answer to a query of the recording state: 200 with the state.
    pub fn state_response(&self) -> (r: Response)
        ensures
            is_status_only(r, self.state(), StatusCode::S200),
    {
        Response::status_only(self.rec_state, StatusCode::S200)
    }

    /// The answer to a log request, given its body (`None` when it could
    /// not be read) and the current frame (`None` when none could be had).
    /// Only a started recording logs: its edit is queued and the event it
    /// ends is answered with 200; any failure is answered with 500. In any
    /// other state the answer is 202 with the state.
    pub fn log_request(&mut self, body: Option<ReqBody>, frame: Option<Timecode>) -> (r: Response)
        requires
            old(self).wf(),
            frame matches Some(tc) ==> tc.wf(),
            old(self).edit_count() < usize::MAX,
        ensures
            final(self).wf(),
            final(self).state() == old(self).state(),
            final(self).selected_view() == old(self).selected_view(),
            old(self).state() != EdlRecordingState::Started ==> {
                &&& is_status_only(r, old(self).state(), StatusCode::S202)
                &&& final(self).edits() == old(self).edits()
                &&& final(self).edit_count() == old(self).edit_count()
            },
            old(self).state() == EdlRecordingState::Started ==> {
                let attempt = log_attempt(body, frame, old(self).selected_view());
                if attempt is Some && edit_accepted(attempt->0) && old(self).edits().len() >= 1 {
                    let pushed = old(self).edits().push(
                        ordered_spec(
                            attempt->0,
                            front_of(old(self).edits()),
                            (old(self).edit_count() + 1) as usize,
                        ),
                    );
                    &&& event_spec(pushed[0], pushed[1]) is Ok
                    &&& answers_event(r, event_spec(pushed[0], pushed[1])->Ok_0)
                    &&& final(self).edits() == pushed.drop_first()
                    &&& final(self).edit_count() == old(self).edit_count() + 1
                } else {
                    &&& is_server_err(r)
                    &&& (attempt is None || !edit_accepted(attempt->0)) ==> {
                        &&& final(self).edits() == old(self).edits()
                        &&& final(self).edit_count() == old(self).edit_count()
                    }
                }
            },
    {
        if self.rec_state != EdlRecordingState::Started {
            return Response::status_only(self.rec_state, StatusCode::S202);
        }
        let req = match body {
            Some(ReqBody::Edit(req)) => req,
            _ => return server_err(),
        };
        let tc = match frame {
            Some(tc) => tc,
            None => return server_err(),
        };
        match self.log_edit(req, tc) {
            Ok(ev) => Response {
                content: ResContent::Status(
                    ResBody {
                        recording_status: EdlRecordingState::Started,
                        edit: Some(ev),
                        final_edits: None,
                    },
                ),
                status: StatusCode::S200,
            },
            Err(_) => server_err(),
        }
    }

    /// The answer to an end request, given its body and the current frame.
    /// A started recording logs its final edits and stops, answering 200
    /// with them; on any failure it stays started and answers 500. A
    /// waiting recording stops and answers 200; a stopped one answers 202.
    pub fn end_request(&mut self, body: Option<ReqBody>, frame: Option<Timecode>) -> (r: Response)
        requires
            old(self).wf(),
            frame matches Some(tc) ==> tc.wf(),
            old(self).edit_count() < usize::MAX - 1,
        ensures
            final(self).wf(),
            final(self).selected_view() == old(self).selected_view(),
            old(self).state() == EdlRecordingState::Stopped ==> {
                &&& is_status_only(r, EdlRecordingState::Stopped, StatusCode::S202)
                &&& final(self).state() == EdlRecordingState::Stopped
                &&& final(self).edits() == old(self).edits()
                &&& final(self).edit_count() == old(self).edit_count()
            },
            old(self).state() == EdlRecordingState::Waiting ==> {
                &&& is_status_only(r, EdlRecordingState::Stopped, StatusCode::S200)
                &&& final(self).state() == EdlRecordingState::Stopped
                &&& final(self).edits() == old(self).edits()
                &&& final(self).edit_count() == old(self).edit_count()
            },
            old(self).state() == EdlRecordingState::Started ==> {
                let attempt = end_attempt(body, frame);
                if attempt is Some && edit_accepted(attempt->0) && old(self).edits().len() >= 1 {
                    &&& final(self).state() == EdlRecordingState::Stopped
                    &&& answers_final_events(
                        r,
                        old(self).edits(),
                        old(self).edit_count(),
                        attempt->0,
                        frame->0,
                    )
                    &&& final_queue_spec(
                        old(self).edits(),
                        old(self).edit_count(),
                        attempt->0,
                        frame->0,
                        final(self).edits(),
                        final(self).edit_count(),
                    )
                } else {
                    &&& final(self).state() == EdlRecordingState::Started
                    &&& is_server_err(r)
                }
            },
    {
        match self.begin_end() {
            EndStep::NotStarted => Response::status_only(EdlRecordingState::Stopped, StatusCode::S202),
            EndStep::StopWaiting => Response::status_only(
                EdlRecordingState::Stopped,
                StatusCode::S200,
            ),
            EndStep::LogFinal => {
                let req = match body {
                    Some(ReqBody::Edit(req)) => req,
                    _ => {
                        self.set_rec_state(EdlRecordingState::Started);
                        return server_err();
                    },
                };
                let tc = match frame {
                    Some(tc) => tc,
                    None => {
                        self.set_rec_state(EdlRecordingState::Started);
                        return server_err();
                    },
                };
                match self.end_edits(req, tc) {
                    Ok(events) => {
                        let state = self.set_rec_state(EdlRecordingState::Stopped);
                        Response {
                            content: ResContent::Status(
                                ResBody {
                                    recording_status: state,
                                    edit: None,
                                    final_edits: Some(events),
                                },
                            ),
                            status: StatusCode::S200,
                        }
                    },
                    Err(_) => {
                        self.set_rec_state(EdlRecordingState::Started);
                        server_err()
                    },
                }
            },
        }
    }
}

/// What became of the short wait for the first frame of a recording.
pub enum FirstFrame {
    /// A frame came in time.
    Frame(Timecode),
    /// No frame came in time: keep waiting in the background.
    Timeout,
    /// Decoding failed.
    Failed,
}

impl ContextInner {
    /// The body of a start request that is under way: an edit is kept for
    /// the first frame; anything else stops the recording and is answered
    /// with 500.
    pub fn start_body(&mut self, body: Option<ReqBody>) -> (r: Result<EditRequestData, Response>)
        requires
            old(self).wf(),
        ensures
            final(self).wf(),
            final(self).selected_view() == old(self).selected_view(),
            final(self).edits() == old(self).edits(),
            final(self).edit_count() == old(self).edit_count(),
            match body {
                Some(ReqBody::Edit(req)) => r matches Ok(kept) && kept@ == req@ && final(self).state()
                    == old(self).state(),
                _ => r matches Err(res) && is_server_err(res) && final(self).state()
                    == EdlRecordingState::Stopped,
            },
    {
        match body {
            Some(ReqBody::Edit(req)) => Ok(req),
            _ => {
                self.set_rec_state(EdlRecordingState::Stopped);
                Err(server_err())
            },
        }
    }

    /// The answer to a start request once the short wait for the first
    /// frame is over: at a frame the recording starts as
    /// `start_with_frame` says and is answered with 200 (500 when refused);
    /// on a timeout it keeps waiting, is answered with 202, and the request
    /// is handed back to be started at the first frame; a decoding failure
    /// stops the recording and is answered with 500.
    pub fn start_at_frame(&mut self, req: EditRequestData, frame: FirstFrame) -> (r: (
        Response,
        Option<EditRequestData>,
    ))
        requires
            old(self).wf(),
            frame matches FirstFrame::Frame(tc) ==> tc.wf(),
            old(self).edit_count() < usize::MAX,
        ensures
            final(self).wf(),
            final(self).selected_view() == old(self).selected_view(),
            match frame {
                FirstFrame::Frame(tc) => {
                    &&& r.1 is None
                    &&& match request_edit_spec(mapped_request(req@, old(self).selected_view()), tc) {
                        Some(e) => if edit_accepted(e) {
                            &&& is_status_only(r.0, EdlRecordingState::Started, StatusCode::S200)
                            &&& final(self).state() == EdlRecordingState::Started
                            &&& final(self).edits() == old(self).edits().push(
                                ordered_spec(
                                    e,
                                    front_of(old(self).edits()),
                                    (old(self).edit_count() + 1) as usize,
                                ),
                            )
                            &&& final(self).edit_count() == old(self).edit_count() + 1
                        } else {
                            &&& is_server_err(r.0)
                            &&& final(self).state() == EdlRecordingState::Stopped
                            &&& final(self).edits() == old(self).edits()
                            &&& final(self).edit_count() == old(self).edit_count()
                        },
                        None => {
                            &&& is_server_err(r.0)
                            &&& final(self).state() == EdlRecordingState::Stopped
                            &&& final(self).edits() == old(self).edits()
                            &&& final(self).edit_count() == old(self).edit_count()
                        },
                    }
                },
                FirstFrame::Timeout => {
                    &&& is_status_only(r.0, old(self).state(), StatusCode::S202)
                    &&& r.1 matches Some(kept) && kept@ == req@
                    &&& final(self).state() == old(self).state()
                    &&& final(self).edits() == old(self).edits()
                    &&& final(self).edit_count() == old(self).edit_count()
                },
                FirstFrame::Failed => {
                    &&& is_server_err(r.0)
                    &&& r.1 is None
                    &&& final(self).state() == EdlRecordingState::Stopped
                    &&& final(self).edits() == old(self).edits()
                    &&& final(self).edit_count() == old(self).edit_count()
                },
            },
    {
        match frame {
            FirstFrame::Frame(tc) => {
                let r = self.start_with_frame(req, tc);
                (start_response(r), None)
            },
            FirstFrame::Timeout => (Response::status_only(self.rec_state, StatusCode::S202), Some(req)),
            FirstFrame::Failed => {
                self.set_rec_state(EdlRecordingState::Stopped);
                (server_err(), None)
            },
        }
    }
}

/// The message answering a source selection: the tape selected after it,
/// if any.
pub open spec fn selected_message(tape: Option<Seq<char>>) -> Seq<char> {
    "Source tape selected: "@ + match tape {
        Some(t) => t,
        None => Seq::<char>::empty(),
    }
}

impl ContextInner {
    /// The answer to a source selection: its tape and channels are
    /// selected, what it leaves out stays selected, and it is answered with
    /// 200 and the message naming the selected tape; a body that is not a
    /// selection is answered with 500 and changes nothing.
    pub fn select_request(&mut self, body: Option<ReqBody>) -> (r: Response)
        ensures
            final(self).state() == old(self).state(),
            final(self).edits() == old(self).edits(),
            final(self).edit_count() == old(self).edit_count(),
            old(self).wf() ==> final(self).wf(),
            match body {
                Some(ReqBody::Source(src)) => {
                    &&& final(self).selected_view().source_tape == (match opt_text_view(
                        src.source_tape,
                    ) {
                        Some(t) => Some(t),
                        None => old(self).selected_view().source_tape,
                    })
                    &&& final(self).selected_view().av_channels == (match src.av_channels {
                        Some(a) => Some(a),
                        None => old(self).selected_view().av_channels,
                    })
                    &&& is_message(
                        r,
                        StatusCode::S200,
                        selected_message(final(self).selected_view().source_tape),
                    )
                },
                _ => is_server_err(r) && final(self).selected_view() == old(self).selected_view(),
            },
    {
        match body {
            Some(ReqBody::Source(src)) => {
                self.select_src(src);
                let mut msg = String::from_str("Source tape selected: ");
                match &self.selected.source_tape {
                    Some(t) => msg.append(t.as_str()),
                    None => {},
                }
                proof {
                    assert(msg@ =~= selected_message(self.selected_view().source_tape));
                }
                Response { content: ResContent::Message(msg), status: StatusCode::S200 }
            },
            _ => server_err(),
        }
    }

    /// The answer to a start request when it cannot proceed: a recording
    /// already under way (started or waiting) is answered with 202 and its
    /// state, and nothing changes. From `Stopped` the start proceeds as
    /// `begin_start` says, and `None` is returned: the caller turns decoding
    /// on, opens the EDL file and reads the request's body.
    pub fn start_request(&mut self) -> (r: Option<Response>)
        requires
            old(self).wf(),
        ensures
            final(self).wf(),
            final(self).selected_view() == old(self).selected_view(),
            old(self).state() == EdlRecordingState::Stopped ==> {
                &&& r is None
                &&& final(self).state() == EdlRecordingState::Waiting
                &&& final(self).edits() == Seq::<OrderedEditView>::empty()
                &&& final(self).edit_count() == 0
            },
            old(self).state() != EdlRecordingState::Stopped ==> {
                &&& r matches Some(res) && is_status_only(res, old(self).state(), StatusCode::S202)
                &&& final(self).state() == old(self).state()
                &&& final(self).edits() == old(self).edits()
                &&& final(self).edit_count() == old(self).edit_count()
            },
    {
        match self.begin_start() {
            StartStep::Proceed => None,
            StartStep::Refused(s) => Some(Response::status_only(s, StatusCode::S202)),
        }
    }
}

} // verus!
