use edl_gen::edl_writer::{AVChannels, Clip, Dissolve, Event, Wipe};
use edl_gen::server::http::StatusCode;
use edl_gen::server::{
    not_found, route, EditRequestData, EdlRecordingState, FirstFrame, ContextInner, ReqBody,
    ResBody, ResContent, Response, Route, SourceTapeRequestData, StartStep,
};
use edl_gen::server::ServerError;
use edl_gen::timecode::{Framerate, RateNtsc, Timecode};

/// Drives a recorder the way the event server does: timecode frames come
/// from a source that may or may not be playing yet, and a start that finds
/// no frame waits for the first one.
struct Session {
    recorder: ContextInner,
    playing: bool,
    frames: i64,
    waiting_start: Option<EditRequestData>,
}

impl Session {
    fn new() -> Self {
        Session {
            recorder: ContextInner::new(),
            playing: false,
            frames: 108_000,
            waiting_start: None,
        }
    }

    fn next_frame(&mut self) -> Timecode {
        self.frames += 37;
        Timecode::new(
            self.frames,
            Framerate::with_timebase(30, RateNtsc::DropFrame).unwrap(),
        )
    }

    fn frame_if_playing(&mut self) -> Option<Timecode> {
        if self.playing {
            Some(self.next_frame())
        } else {
            None
        }
    }

    fn play_without_waiting(&mut self) {
        self.playing = true;
    }

    fn start_playing(&mut self) {
        self.playing = true;
        if let Some(req) = self.waiting_start.take() {
            let tc = self.next_frame();
            assert!(self.recorder.start_with_frame(req, tc).is_ok());
            assert_eq!(self.recorder.rec_state(), EdlRecordingState::Started);
        }
    }

    fn start(&mut self, body: Option<ReqBody>) -> Response {
        if let Some(refused) = self.recorder.start_request() {
            return refused;
        }
        match self.recorder.start_body(body) {
            Err(res) => res,
            Ok(req) => {
                let frame = match self.frame_if_playing() {
                    Some(tc) => FirstFrame::Frame(tc),
                    None => FirstFrame::Timeout,
                };
                let (res, pending) = self.recorder.start_at_frame(req, frame);
                self.waiting_start = pending;
                res
            }
        }
    }

    fn log(&mut self, body: EditRequestData) -> Response {
        let frame = if self.recorder.rec_state() == EdlRecordingState::Started {
            self.frame_if_playing()
        } else {
            None
        };
        self.recorder.log_request(Some(ReqBody::Edit(body)), frame)
    }

    fn end(&mut self, body: EditRequestData) -> Response {
        let frame = if self.recorder.rec_state() == EdlRecordingState::Started {
            self.frame_if_playing()
        } else {
            None
        };
        let res = self.recorder.end_request(Some(ReqBody::Edit(body)), frame);
        if self.recorder.rec_state() == EdlRecordingState::Stopped {
            self.waiting_start = None;
        }
        res
    }

    fn select(&mut self, source_tape: Option<&str>, av_channels: Option<AVChannels>) -> Response {
        self.recorder
            .select_request(Some(ReqBody::Source(SourceTapeRequestData {
                source_tape: source_tape.map(|s| s.to_string()),
                av_channels,
            })))
    }
}

fn req(
    edit_type: &str,
    edit_duration_frames: Option<u32>,
    wipe_num: Option<u32>,
    source_tape: Option<&str>,
    av_channels: Option<AVChannels>,
) -> EditRequestData {
    EditRequestData {
        edit_type: edit_type.into(),
        edit_duration_frames,
        wipe_num,
        source_tape: source_tape.map(|s| s.to_string()),
        av_channels,
    }
}

fn body(res: &Response) -> &ResBody {
    match &res.content {
        ResContent::Status(b) => b,
        ResContent::Message(m) => panic!("Expected a recording body, got {m}"),
    }
}

fn rec_state(res: &Response) -> EdlRecordingState {
    body(res).recording_status
}

fn has_edit_or_final_edits_body(res: &Response) -> bool {
    let b = body(res);
    b.edit.is_some() || b.final_edits.is_some()
}

fn edit(res: &Response) -> &Event {
    body(res).edit.as_ref().expect("Expected edit")
}

fn final_edits(res: &Response) -> &Vec<Event> {
    body(res).final_edits.as_ref().expect("Expected final edits")
}

fn cut(event: &Event) -> &Clip {
    match event {
        Event::Cut(clip) => clip,
        t => panic!("Expected Cut, got {:?}", t),
    }
}

fn dissolve(event: &Event) -> &Dissolve {
    match event {
        Event::Dissolve(dis) => dis,
        t => panic!("Expected Dissolve, got {:?}", t),
    }
}

fn wipe(event: &Event) -> &Wipe {
    match event {
        Event::Wipe(wipe) => wipe,
        t => panic!("Expected Wipe, got {:?}", t),
    }
}

fn tape(clip: &Clip) -> String {
    clip.source_tape.as_str().to_string()
}

#[test]
fn edit_starts_ends_cut() {
    let mut s = Session::new();
    s.start_playing();

    let start_res = s.start(Some(ReqBody::Edit(req(
        "cut",
        None,
        None,
        Some("tape1"),
        Some(AVChannels::new(false, 1)),
    ))));
    assert_eq!(start_res.status, StatusCode::S200);
    assert_eq!(rec_state(&start_res), EdlRecordingState::Started);
    assert!(!has_edit_or_final_edits_body(&start_res));

    let wipe_1_res = s.log(req("wipe", Some(15), None, Some("tape2"), Some(AVChannels::default())));
    assert_eq!(wipe_1_res.status, StatusCode::S200);
    assert_eq!(rec_state(&wipe_1_res), EdlRecordingState::Started);
    assert_eq!(tape(cut(edit(&wipe_1_res))), "tape1".to_string());
    assert_eq!(cut(edit(&wipe_1_res)).av_channels, AVChannels::new(false, 1));

    let cut_2_res = s.log(req("cut", Some(1), Some(1), Some("tape1"), Some(AVChannels::default())));
    assert_eq!(cut_2_res.status, StatusCode::S200);
    assert_eq!(rec_state(&cut_2_res), EdlRecordingState::Started);
    assert_eq!(tape(&wipe(edit(&cut_2_res)).from), "tape1".to_string());
    assert_eq!(wipe(edit(&cut_2_res)).from.av_channels, AVChannels::new(false, 1));
    assert_eq!(tape(&wipe(edit(&cut_2_res)).to), "tape2".to_string());
    assert_eq!(wipe(edit(&cut_2_res)).to.av_channels, AVChannels::new(true, 2));

    let wipe_2_res = s.log(req("wipe", Some(20), None, Some("tape2"), Some(AVChannels::new(false, 3))));
    assert_eq!(wipe_2_res.status, StatusCode::S200);
    assert_eq!(rec_state(&wipe_2_res), EdlRecordingState::Started);
    assert_eq!(tape(cut(edit(&wipe_2_res))), "tape1".to_string());
    assert_eq!(cut(edit(&wipe_2_res)).av_channels, AVChannels::new(true, 2));

    let dis_1_res = s.log(req("dissolve", Some(10), None, Some("tape1"), Some(AVChannels::default())));
    assert_eq!(rec_state(&dis_1_res), EdlRecordingState::Started);
    assert_eq!(dis_1_res.status, StatusCode::S200);
    assert_eq!(tape(&wipe(edit(&dis_1_res)).from), "tape1".to_string());
    assert_eq!(wipe(edit(&dis_1_res)).from.av_channels, AVChannels::new(true, 2));
    assert_eq!(tape(&wipe(edit(&dis_1_res)).to), "tape2".to_string());
    assert_eq!(wipe(edit(&dis_1_res)).to.av_channels, AVChannels::new(false, 3));

    let cut_3_res = s.log(req("cut", None, None, Some("tape3"), Some(AVChannels::default())));
    assert_eq!(cut_3_res.status, StatusCode::S200);
    assert_eq!(rec_state(&cut_3_res), EdlRecordingState::Started);
    assert_eq!(tape(&dissolve(edit(&cut_3_res)).from), "tape2".to_string());
    assert_eq!(tape(&dissolve(edit(&cut_3_res)).to), "tape1".to_string());
    assert_eq!(dissolve(edit(&cut_3_res)).to.av_channels, AVChannels::new(true, 2));

    let cut_4_res = s.log(req("cut", None, Some(1), Some("tape1"), Some(AVChannels::default())));
    assert_eq!(cut_4_res.status, StatusCode::S200);
    assert_eq!(rec_state(&cut_4_res), EdlRecordingState::Started);
    assert_eq!(tape(cut(edit(&cut_4_res))), "tape3".to_string());
    assert_eq!(cut(edit(&cut_4_res)).av_channels, AVChannels::new(true, 2));

    let end_res = s.end(req("cut", None, None, Some("tape2"), Some(AVChannels::new(true, 4))));
    assert_eq!(end_res.status, StatusCode::S200);
    assert_eq!(rec_state(&end_res), EdlRecordingState::Stopped);
    assert_eq!(tape(cut(&final_edits(&end_res)[0])), "tape1".to_string());
    assert_eq!(cut(&final_edits(&end_res)[0]).av_channels, AVChannels::new(true, 2));
    assert!(final_edits(&end_res).get(1).is_none());
}

#[test]
fn edit_starts_cut_ends_diss() {
    let mut s = Session::new();
    s.start_playing();

    let start_res = s.start(Some(ReqBody::Edit(req(
        "cut",
        Some(40),
        None,
        Some("tape1"),
        Some(AVChannels::new(false, 1)),
    ))));
    assert_eq!(start_res.status, StatusCode::S200);
    assert_eq!(rec_state(&start_res), EdlRecordingState::Started);
    assert!(!has_edit_or_final_edits_body(&start_res));

    let wipe_1_res = s.log(req("wipe", Some(15), None, Some("tape2"), Some(AVChannels::default())));
    assert_eq!(wipe_1_res.status, StatusCode::S200);
    assert_eq!(rec_state(&wipe_1_res), EdlRecordingState::Started);
    assert_eq!(tape(cut(edit(&wipe_1_res))), "tape1".to_string());
    assert_eq!(cut(edit(&wipe_1_res)).av_channels, AVChannels::new(false, 1));

    let cut_2_res = s.log(req("cut", Some(1), Some(1), Some("tape1"), Some(AVChannels::default())));
    assert_eq!(cut_2_res.status, StatusCode::S200);
    assert_eq!(rec_state(&cut_2_res), EdlRecordingState::Started);
    assert_eq!(tape(&wipe(edit(&cut_2_res)).from), "tape1".to_string());
    assert_eq!(wipe(edit(&cut_2_res)).from.av_channels, AVChannels::new(false, 1));
    assert_eq!(tape(&wipe(edit(&cut_2_res)).to), "tape2".to_string());
    assert_eq!(wipe(edit(&cut_2_res)).to.av_channels, AVChannels::new(true, 2));

    let wipe_2_res = s.log(req("wipe", Some(20), None, Some("tape2"), Some(AVChannels::new(false, 3))));
    assert_eq!(wipe_2_res.status, StatusCode::S200);
    assert_eq!(rec_state(&wipe_2_res), EdlRecordingState::Started);
    assert_eq!(tape(cut(edit(&wipe_2_res))), "tape1".to_string());
    assert_eq!(cut(edit(&wipe_2_res)).av_channels, AVChannels::new(true, 2));

    let dis_1_res = s.log(req("dissolve", Some(10), None, Some("tape1"), Some(AVChannels::default())));
    assert_eq!(rec_state(&dis_1_res), EdlRecordingState::Started);
    assert_eq!(dis_1_res.status, StatusCode::S200);
    assert_eq!(tape(&wipe(edit(&dis_1_res)).from), "tape1".to_string());
    assert_eq!(wipe(edit(&dis_1_res)).from.av_channels, AVChannels::new(true, 2));
    assert_eq!(tape(&wipe(edit(&dis_1_res)).to), "tape2".to_string());
    assert_eq!(wipe(edit(&dis_1_res)).to.av_channels, AVChannels::new(false, 3));

    let cut_3_res = s.log(req("cut", Some(1), Some(1), Some("tape3"), Some(AVChannels::default())));
    assert_eq!(cut_3_res.status, StatusCode::S200);
    assert_eq!(rec_state(&cut_3_res), EdlRecordingState::Started);
    assert_eq!(tape(&dissolve(edit(&cut_3_res)).from), "tape2".to_string());
    assert_eq!(tape(&dissolve(edit(&cut_3_res)).to), "tape1".to_string());
    assert_eq!(dissolve(edit(&cut_3_res)).to.av_channels, AVChannels::new(true, 2));

    let cut_4_res = s.log(req("cut", Some(1), Some(1), Some("tape1"), Some(AVChannels::default())));
    assert_eq!(cut_4_res.status, StatusCode::S200);
    assert_eq!(rec_state(&cut_4_res), EdlRecordingState::Started);
    assert_eq!(tape(cut(edit(&cut_4_res))), "tape3".to_string());
    assert_eq!(cut(edit(&cut_4_res)).av_channels, AVChannels::new(true, 2));

    let end_res = s.end(req("dissolve", Some(42), None, Some("tape2"), Some(AVChannels::new(true, 4))));
    assert_eq!(end_res.status, StatusCode::S200);
    assert_eq!(rec_state(&end_res), EdlRecordingState::Stopped);
    assert_eq!(tape(cut(&final_edits(&end_res)[0])), "tape1".to_string());
    assert_eq!(cut(&final_edits(&end_res)[0]).av_channels, AVChannels::new(true, 2));
    assert_eq!(tape(&dissolve(&final_edits(&end_res)[1]).from), "tape1".to_string());
    assert_eq!(tape(&dissolve(&final_edits(&end_res)[1]).to), "BL".to_string());
    assert_eq!(dissolve(&final_edits(&end_res)[1]).to.av_channels, AVChannels::new(true, 0));
    assert!(final_edits(&end_res).get(2).is_none());
}

#[test]
fn edit_starts_diss_ends_cut() {
    let mut s = Session::new();
    s.start_playing();

    let start_res = s.start(Some(ReqBody::Edit(req(
        "dissolve",
        Some(40),
        None,
        Some("tape1"),
        Some(AVChannels::new(false, 1)),
    ))));
    assert_eq!(start_res.status, StatusCode::S200);
    assert_eq!(rec_state(&start_res), EdlRecordingState::Started);
    assert!(!has_edit_or_final_edits_body(&start_res));

    let wipe_1_res = s.log(req("wipe", Some(15), None, Some("tape2"), Some(AVChannels::default())));
    assert_eq!(wipe_1_res.status, StatusCode::S200);
    assert_eq!(rec_state(&wipe_1_res), EdlRecordingState::Started);
    assert_eq!(tape(&dissolve(edit(&wipe_1_res)).from), "BL".to_string());
    assert_eq!(dissolve(edit(&wipe_1_res)).from.av_channels, AVChannels::new(true, 0));
    assert_eq!(tape(&dissolve(edit(&wipe_1_res)).to), "tape1".to_string());
    assert_eq!(dissolve(edit(&wipe_1_res)).to.av_channels, AVChannels::new(false, 1));

    let cut_1_res = s.log(req("cut", Some(1), Some(1), Some("tape1"), Some(AVChannels::default())));
    assert_eq!(cut_1_res.status, StatusCode::S200);
    assert_eq!(rec_state(&cut_1_res), EdlRecordingState::Started);
    assert_eq!(tape(&wipe(edit(&cut_1_res)).from), "tape1".to_string());
    assert_eq!(wipe(edit(&cut_1_res)).from.av_channels, AVChannels::new(false, 1));
    assert_eq!(tape(&wipe(edit(&cut_1_res)).to), "tape2".to_string());
    assert_eq!(wipe(edit(&cut_1_res)).to.av_channels, AVChannels::new(true, 2));

    let wipe_2_res = s.log(req("wipe", Some(20), None, Some("tape2"), Some(AVChannels::new(false, 3))));
    assert_eq!(wipe_2_res.status, StatusCode::S200);
    assert_eq!(rec_state(&wipe_2_res), EdlRecordingState::Started);
    assert_eq!(tape(cut(edit(&wipe_2_res))), "tape1".to_string());
    assert_eq!(cut(edit(&wipe_2_res)).av_channels, AVChannels::new(true, 2));

    let dis_1_res = s.log(req("dissolve", Some(10), None, Some("tape1"), Some(AVChannels::default())));
    assert_eq!(rec_state(&dis_1_res), EdlRecordingState::Started);
    assert_eq!(dis_1_res.status, StatusCode::S200);
    assert_eq!(tape(&wipe(edit(&dis_1_res)).from), "tape1".to_string());
    assert_eq!(wipe(edit(&dis_1_res)).from.av_channels, AVChannels::new(true, 2));
    assert_eq!(tape(&wipe(edit(&dis_1_res)).to), "tape2".to_string());
    assert_eq!(wipe(edit(&dis_1_res)).to.av_channels, AVChannels::new(false, 3));

    let end_res = s.end(req("cut", None, None, None, None));
    assert_eq!(end_res.status, StatusCode::S200);
    assert_eq!(rec_state(&end_res), EdlRecordingState::Stopped);
    assert_eq!(tape(&dissolve(&final_edits(&end_res)[0]).from), "tape2".to_string());
    assert_eq!(dissolve(&final_edits(&end_res)[0]).from.av_channels, AVChannels::new(false, 3));
    assert_eq!(tape(&dissolve(&final_edits(&end_res)[0]).to), "tape1".to_string());
    assert_eq!(dissolve(&final_edits(&end_res)[0]).to.av_channels, AVChannels::new(true, 2));
    assert!(final_edits(&end_res).get(1).is_none());
}

#[test]
fn event_failures() {
    let mut s = Session::new();
    s.play_without_waiting();

    let invalid_post_url = match route(Some("POST"), Some("/log-edit")) {
        Route::NotFound => not_found(),
        r => panic!("unexpected route {:?}", r),
    };
    assert_eq!(invalid_post_url.status, StatusCode::S404);

    let invalid_get_url = match route(Some("GET"), Some("/select-src-tape")) {
        Route::NotFound => not_found(),
        r => panic!("unexpected route {:?}", r),
    };
    assert_eq!(invalid_get_url.status, StatusCode::S404);

    let invalid_edit_type = s.start(Some(ReqBody::Edit(req(
        "swipe",
        None,
        None,
        None,
        Some(AVChannels::default()),
    ))));
    assert_eq!(invalid_edit_type.status, StatusCode::S500);

    let no_body = s.start(None);
    assert_eq!(no_body.status, StatusCode::S500);
}

#[test]
fn wait_for_ltc_on_start() {
    let mut s = Session::new();

    let start_res = s.start(Some(ReqBody::Edit(req(
        "cut",
        None,
        None,
        Some("tape1"),
        Some(AVChannels::default()),
    ))));
    assert_eq!(start_res.status, StatusCode::S202);
    assert_eq!(rec_state(&start_res), EdlRecordingState::Waiting);

    let cut_1_res = s.log(req("cut", None, None, Some("tape2"), Some(AVChannels::default())));
    assert_eq!(cut_1_res.status, StatusCode::S202);
    assert_eq!(rec_state(&cut_1_res), EdlRecordingState::Waiting);

    s.start_playing();

    let cut_2_res = s.log(req("cut", None, None, Some("tape2"), Some(AVChannels::default())));
    assert_eq!(cut_2_res.status, StatusCode::S200);
    assert_eq!(rec_state(&cut_2_res), EdlRecordingState::Started);
}

#[test]
fn edit_events_with_preselected_src() {
    let mut s = Session::new();
    s.play_without_waiting();

    let src_res = s.select(Some("tape1"), None);
    assert_eq!(src_res.status, StatusCode::S200);

    let start_res = s.start(Some(ReqBody::Edit(req(
        "cut",
        None,
        None,
        None,
        Some(AVChannels::default()),
    ))));
    assert_eq!(start_res.status, StatusCode::S200);
    assert_eq!(rec_state(&start_res), EdlRecordingState::Started);

    let cut_1_res = s.log(req("cut", None, None, Some("tape2"), Some(AVChannels::default())));
    assert_eq!(cut_1_res.status, StatusCode::S200);
    assert_eq!(rec_state(&cut_1_res), EdlRecordingState::Started);

    let cut_2_res = s.log(req("cut", None, None, None, Some(AVChannels::default())));
    assert_eq!(cut_2_res.status, StatusCode::S200);
    assert_eq!(rec_state(&cut_2_res), EdlRecordingState::Started);
}

#[test]
fn edit_events_with_preselected_src_2() {
    let mut s = Session::new();
    s.play_without_waiting();

    let src_res = s.select(Some("tape1"), Some(AVChannels::default()));
    assert_eq!(src_res.status, StatusCode::S200);

    let start_res = s.start(Some(ReqBody::Edit(req("cut", None, None, None, None))));
    assert_eq!(start_res.status, StatusCode::S200);
    assert_eq!(rec_state(&start_res), EdlRecordingState::Started);

    let cut_1_res = s.log(req("cut", None, None, Some("tape2"), Some(AVChannels::default())));
    assert_eq!(cut_1_res.status, StatusCode::S200);
    assert_eq!(rec_state(&cut_1_res), EdlRecordingState::Started);

    let cut_2_res = s.end(req("cut", None, None, None, None));
    assert_eq!(cut_2_res.status, StatusCode::S200);
    assert_eq!(rec_state(&cut_2_res), EdlRecordingState::Stopped);
}

#[test]
fn select_src_while_waiting() {
    let mut s = Session::new();

    let start_res = s.start(Some(ReqBody::Edit(req("cut", None, None, None, None))));
    assert_eq!(start_res.status, StatusCode::S202);
    assert_eq!(rec_state(&start_res), EdlRecordingState::Waiting);

    let cut_w_tape_res = s.log(req("cut", None, None, Some("tape2"), Some(AVChannels::default())));
    assert_eq!(cut_w_tape_res.status, StatusCode::S202);
    assert_eq!(rec_state(&cut_w_tape_res), EdlRecordingState::Waiting);

    // end while waiting and then restart
    let end_res = s.end(req("cut", None, None, None, Some(AVChannels::default())));
    assert_eq!(end_res.status, StatusCode::S200);
    assert_eq!(rec_state(&end_res), EdlRecordingState::Stopped);

    let start_res = s.start(Some(ReqBody::Edit(req(
        "cut",
        None,
        None,
        None,
        Some(AVChannels::default()),
    ))));
    assert_eq!(start_res.status, StatusCode::S202);
    assert_eq!(rec_state(&start_res), EdlRecordingState::Waiting);

    for _ in 0..5 {
        let try_cut = s.log(req("cut", None, None, None, Some(AVChannels::default())));
        assert_eq!(try_cut.status, StatusCode::S202);
        assert_eq!(rec_state(&try_cut), EdlRecordingState::Waiting);
    }

    let src_res = s.select(Some("tape1"), Some(AVChannels::default()));
    assert_eq!(src_res.status, StatusCode::S200);

    s.start_playing();

    for _ in 0..5 {
        let try_cut = s.log(req("cut", None, None, None, Some(AVChannels::default())));
        assert_eq!(try_cut.status, StatusCode::S200);
        assert_eq!(rec_state(&try_cut), EdlRecordingState::Started);
    }

    let src_res = s.select(Some("tape2"), None);
    assert_eq!(src_res.status, StatusCode::S200);

    for _ in 0..5 {
        let try_cut = s.log(req("cut", None, None, None, Some(AVChannels::default())));
        assert_eq!(try_cut.status, StatusCode::S200);
        assert_eq!(rec_state(&try_cut), EdlRecordingState::Started);
    }

    let try_end = s.end(req("cut", None, None, None, Some(AVChannels::default())));
    assert_eq!(try_end.status, StatusCode::S200);
    assert_eq!(rec_state(&try_end), EdlRecordingState::Stopped);
}

#[test]
fn event_non_ready() {
    let mut s = Session::new();
    s.play_without_waiting();

    let cut_first = s.log(req("cut", None, None, Some("tape1"), Some(AVChannels::default())));
    assert_eq!(cut_first.status, StatusCode::S202);
    assert_eq!(rec_state(&cut_first), EdlRecordingState::Stopped);

    let start_before_src = s.start(Some(ReqBody::Edit(req("cut", None, None, None, None))));
    assert_eq!(start_before_src.status, StatusCode::S200);

    s.select(Some("tape1"), Some(AVChannels::default()));

    let end_before_start = s.end(req("cut", None, None, Some("tape1"), Some(AVChannels::default())));
    assert_eq!(end_before_start.status, StatusCode::S200);
    assert_eq!(rec_state(&end_before_start), EdlRecordingState::Stopped);
    assert_eq!(tape(cut(&final_edits(&end_before_start)[0])), "BL".to_string());

    let cut_before_start = s.log(req("cut", None, None, Some("tape1"), Some(AVChannels::default())));
    assert_eq!(cut_before_start.status, StatusCode::S202);
    assert_eq!(rec_state(&cut_before_start), EdlRecordingState::Stopped);

    let start_after_src = s.start(Some(ReqBody::Edit(req("cut", None, None, None, None))));
    assert_eq!(start_after_src.status, StatusCode::S200);
    assert_eq!(rec_state(&start_after_src), EdlRecordingState::Started);

    let cut_after_start = s.log(req("cut", None, None, Some("tape1"), Some(AVChannels::default())));
    assert_eq!(cut_after_start.status, StatusCode::S200);
    assert_eq!(rec_state(&cut_after_start), EdlRecordingState::Started);
}

#[test]
fn event_repeats() {
    let mut s = Session::new();

    s.select(Some("tape1"), None);

    let start_1 = s.start(Some(ReqBody::Edit(req(
        "cut",
        None,
        None,
        None,
        Some(AVChannels::default()),
    ))));
    assert_eq!(start_1.status, StatusCode::S202);
    assert_eq!(rec_state(&start_1), EdlRecordingState::Waiting);

    let start_2 = s.start(Some(ReqBody::Edit(req("cut", None, None, None, None))));
    assert_eq!(start_2.status, StatusCode::S202);
    assert_eq!(rec_state(&start_2), EdlRecordingState::Waiting);

    let start_3 = s.start(Some(ReqBody::Edit(req("cut", None, None, None, None))));
    assert_eq!(start_3.status, StatusCode::S202);
    assert_eq!(rec_state(&start_3), EdlRecordingState::Waiting);

    for i in 0..20 {
        let log = s.log(req("cut", None, None, Some(&i.to_string()), Some(AVChannels::default())));
        assert_eq!(log.status, StatusCode::S202);
        assert_eq!(rec_state(&log), EdlRecordingState::Waiting);
    }

    s.start_playing();

    for i in 0..5 {
        let log = s.log(req("cut", None, None, Some(&i.to_string()), Some(AVChannels::default())));
        assert_eq!(log.status, StatusCode::S200);
        assert_eq!(rec_state(&log), EdlRecordingState::Started);
    }
}

#[test]
fn routes_by_method_and_path() {
    assert_eq!(route(Some("POST"), Some("/start")), Route::Start);
    assert_eq!(route(Some("POST"), Some("/end")), Route::End);
    assert_eq!(route(Some("POST"), Some("/log")), Route::Log);
    assert_eq!(route(Some("POST"), Some("/select-src")), Route::SelectSrc);
    assert_eq!(route(Some("GET"), Some("/edl-recording-state")), Route::RecordingState);
    assert_eq!(route(Some("GET"), Some("/SIGKILL")), Route::Kill);
    assert_eq!(route(Some("GET"), Some("/start")), Route::NotFound);
    assert_eq!(route(None, Some("/start")), Route::NotFound);
    assert_eq!(route(Some("POST"), None), Route::NotFound);
}

#[test]
fn recording_state_query_and_messages() {
    let s = Session::new();
    let res = s.recorder.state_response();
    assert_eq!(res.status, StatusCode::S200);
    assert_eq!(rec_state(&res), EdlRecordingState::Stopped);
    assert_eq!(EdlRecordingState::Waiting.as_str(), "waiting");

    let kill = edl_gen::server::kill_server();
    assert_eq!(kill.status, StatusCode::S418);
    match kill.content {
        ResContent::Message(m) => assert_eq!(m, "Exiting..."),
        _ => panic!("expected a message"),
    }
    let err = edl_gen::server::server_err();
    assert_eq!(err.status, StatusCode::S500);
    match err.content {
        ResContent::Message(m) => assert_eq!(m, "Failed to parse request"),
        _ => panic!("expected a message"),
    }
}

#[test]
fn failed_end_keeps_recording() {
    let mut s = Session::new();
    s.play_without_waiting();
    s.start(Some(ReqBody::Edit(req("cut", None, None, Some("a"), None))));
    let bad_end = s.end(req("wipe", None, None, None, None));
    assert_eq!(bad_end.status, StatusCode::S500);
    assert_eq!(s.recorder.rec_state(), EdlRecordingState::Started);
    let end = s.end(req("wipe", Some(5), None, None, None));
    assert_eq!(end.status, StatusCode::S200);
    assert_eq!(final_edits(&end).len(), 2);
    assert_eq!(wipe(&final_edits(&end)[1]).wipe_number, 1);
    assert_eq!(wipe(&final_edits(&end)[1]).edit_duration_frames, 5);
}

#[test]
fn start_failures_stop_the_recording() {
    let mut r = ContextInner::new();
    assert_eq!(r.begin_start(), StartStep::Proceed);
    let (res, pending) = r.start_at_frame(req("cut", None, None, None, None), FirstFrame::Failed);
    assert_eq!(res.status, StatusCode::S500);
    assert!(pending.is_none());
    assert_eq!(r.rec_state(), EdlRecordingState::Stopped);
    assert_eq!(r.begin_start(), StartStep::Proceed);
    assert_eq!(r.begin_start(), StartStep::Refused(EdlRecordingState::Waiting));
    let res = r.select_request(Some(ReqBody::Edit(req("cut", None, None, None, None))));
    assert_eq!(res.status, StatusCode::S500);
}

#[test]
fn preselected_source_fills_edits() {
    let mut s = Session::new();
    s.play_without_waiting();
    s.select(Some("tape1"), Some(AVChannels::new(false, 2)));
    s.start(Some(ReqBody::Edit(req("cut", None, None, None, None))));
    let first = s.log(req("cut", None, None, Some("tape2"), None));
    assert_eq!(tape(cut(edit(&first))), "tape1".to_string());
    assert_eq!(cut(edit(&first)).av_channels, AVChannels::new(false, 2));
    s.select(Some("tape3"), None);
    let second = s.log(req("cut", None, None, None, Some(AVChannels::new(true, 1))));
    assert_eq!(tape(cut(edit(&second))), "tape2".to_string());
    let end = s.end(req("cut", None, None, None, None));
    assert_eq!(tape(cut(&final_edits(&end)[0])), "tape3".to_string());
    assert_eq!(cut(&final_edits(&end)[0]).av_channels, AVChannels::new(true, 1));
}

#[test]
fn request_errors() {
    let src = ReqBody::Source(SourceTapeRequestData {
        source_tape: None,
        av_channels: None,
    });
    assert!(matches!(src.expect_edit(), Err(ServerError::UnexpectedRequestType)));
    let edit_body = ReqBody::Edit(req("cut", None, None, None, None));
    assert!(matches!(edit_body.expect_source(), Err(ServerError::UnexpectedRequestType)));
    let tc = Timecode::new(10, Framerate::with_timebase(25, RateNtsc::Whole).unwrap());
    assert!(matches!(
        req("swipe", None, None, None, None).to_edit(tc),
        Err(ServerError::InvalidEditType)
    ));
    let edit = req("WIPE", Some(3), None, Some("t"), None).to_edit(tc).unwrap();
    assert_eq!(edit.wipe_num, Some(1));
    assert_eq!(edit.av_channels, AVChannels::new(true, 2));

    let mut r = ContextInner::new();
    assert_eq!(r.begin_start(), StartStep::Proceed);
    assert!(matches!(
        r.start_with_frame(req("dissolve", None, None, None, None), tc),
        Err(ServerError::Edl(edl_gen::edl_writer::EdlError::MissingDuration(_)))
    ));
    assert_eq!(r.rec_state(), EdlRecordingState::Stopped);
}

#[test]
fn refused_start_and_selection_answers() {
    let mut s = Session::new();
    let first = s.start(Some(ReqBody::Edit(req("cut", None, None, None, None))));
    assert_eq!(first.status, StatusCode::S202);
    let again = s.recorder.start_request().expect("a start while waiting is refused");
    assert_eq!(again.status, StatusCode::S202);
    assert_eq!(rec_state(&again), EdlRecordingState::Waiting);
    assert_eq!(s.recorder.rec_state(), EdlRecordingState::Waiting);

    let selected = s.select(Some("tape7"), None);
    assert_eq!(selected.status, StatusCode::S200);
    match &selected.content {
        ResContent::Message(m) => assert_eq!(m, "Source tape selected: tape7"),
        _ => panic!("expected a message"),
    }
    let kept = s.select(None, Some(AVChannels::new(true, 1)));
    match &kept.content {
        ResContent::Message(m) => assert_eq!(m, "Source tape selected: tape7"),
        _ => panic!("expected a message"),
    }
    let src = ReqBody::Source(SourceTapeRequestData {
        source_tape: Some("x".to_string()),
        av_channels: None,
    });
    let data = src.expect_source().ok().unwrap();
    assert_eq!(data.source_tape.as_deref(), Some("x"));
}
