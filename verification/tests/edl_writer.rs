use edl_gen::edl_writer::edit_queue::{Edit, EditQueue, OrderedEdit};
use edl_gen::edl_writer::{
    validate_num_size, AVChannels, Clip, Dissolve, EdlError, Edl, EditType, Event, Ntsc,
    OrderedEditInOutPair, SourceTape, Wipe,
};
use edl_gen::timecode::{Framerate, RateNtsc, Timecode};

fn tc24(text: &str) -> Timecode {
    let frames = vtc::Timecode::with_frames(text, vtc::rates::F24)
        .unwrap()
        .frames();
    Timecode::new(frames, Framerate::with_timebase(24, RateNtsc::Whole).unwrap())
}

fn av(video: bool, audio: u8) -> String {
    AVChannels { video, audio }.to_edl_string()
}

fn cut(event: &Event) -> &Clip {
    match event {
        Event::Cut(clip) => clip,
        t => panic!("Expected Cut, got {:?}", t),
    }
}

fn dissolve(event: &Event) -> &Dissolve {
    match event {
        Event::Dissolve(dis) => dis,
        t => panic!("Expected Dissolve, got {:?}", t),
    }
}

fn wipe(event: &Event) -> &Wipe {
    match event {
        Event::Wipe(wipe) => wipe,
        t => panic!("Expected Wipe, got {:?}", t),
    }
}

fn ordered(
    edit_number: usize,
    edit_type: EditType,
    source_tape: Option<&str>,
    prev_tape: Option<&str>,
    timecode: Timecode,
    edit_duration_frames: Option<u32>,
    wipe_num: Option<u32>,
) -> OrderedEdit {
    OrderedEdit {
        edit_number,
        edit_type,
        source_tape: source_tape.map(|s| s.to_string()),
        prev_tape: prev_tape.map(|s| s.to_string()),
        av_channels: AVChannels::default(),
        prev_av_channels: AVChannels::default(),
        timecode,
        edit_duration_frames,
        wipe_num,
    }
}

fn edit(
    edit_type: EditType,
    edit_duration_frames: Option<u32>,
    wipe_num: Option<u32>,
    source_tape: Option<&str>,
    timecode: &str,
) -> Edit {
    Edit {
        edit_type,
        edit_duration_frames,
        wipe_num,
        source_tape: source_tape.map(|s| s.to_string()),
        av_channels: AVChannels::default(),
        timecode: tc24(timecode),
    }
}

#[test]
fn mod_av_channels_from_str() {
    assert_eq!(AVChannels::default().to_edl_string(), "AA/V".to_string());
    assert_eq!(av(false, 1), "A".to_string());
    assert_eq!(av(false, 2), "AA".to_string());
    assert_eq!(av(true, 4), "AAAA/V".to_string());
    assert_eq!(av(true, 10), "AAAA/V".to_string());
    assert_eq!(av(true, 0), "V".to_string());
    assert_eq!(av(false, 0), "".to_string());
}

#[test]
fn edit_req_into() {
    let tc_1 = tc24("01:00:00:00");
    let tc_2 = tc24("01:05:10:00");
    let tc_3 = tc24("01:05:10:05");

    let frame_in = ordered(
        1,
        EditType::Dissolve,
        Some("tape_1 with long name"),
        None,
        tc_1,
        Some(10),
        Some(1),
    );
    let frame_out = ordered(
        2,
        EditType::Cut,
        Some("tape_2"),
        Some("tape_1 with long name"),
        tc_2,
        None,
        None,
    );
    let edit = OrderedEditInOutPair::new(&frame_in, &frame_out)
        .to_event()
        .unwrap();
    assert_eq!(dissolve(&edit).from.source_tape.as_str().to_string(), "BL".to_string());
    assert_eq!(
        dissolve(&edit).to.source_tape.as_str().to_string(),
        "tape_1 with long name".to_string()
    );
    assert_eq!(dissolve(&edit).from.source_in, dissolve(&edit).from.source_out);
    assert!(dissolve(&edit).to.source_in.is_before(&dissolve(&edit).to.source_out));
    assert_eq!(dissolve(&edit).to.source_in, tc_1);
    assert_eq!(dissolve(&edit).to.source_out, tc_2);
    assert_eq!(dissolve(&edit).from.source_in, tc_1);
    assert_eq!(dissolve(&edit).from.source_out, tc_1);

    let frame_in = ordered(1, EditType::Wipe, Some("tape1"), Some("tape0"), tc_1, Some(10), Some(1));
    let frame_out = ordered(
        2,
        EditType::Dissolve,
        Some("tape_2"),
        Some("tape_1 with long name"),
        tc_2,
        None,
        None,
    );
    let edit = OrderedEditInOutPair::new(&frame_in, &frame_out)
        .to_event()
        .unwrap();
    assert_eq!(wipe(&edit).from.source_tape.as_str().to_string(), "tape0".to_string());
    assert_eq!(wipe(&edit).to.source_tape.as_str().to_string(), "tape1".to_string());
    assert_eq!(wipe(&edit).from.source_in, wipe(&edit).from.source_out);
    assert!(wipe(&edit).to.source_in.is_before(&wipe(&edit).to.source_out));
    assert_eq!(wipe(&edit).to.source_in, tc_1);
    assert_eq!(wipe(&edit).to.source_out, tc_2);
    assert_eq!(wipe(&edit).from.source_in, tc_1);
    assert_eq!(wipe(&edit).from.source_out, tc_1);

    let frame_in = ordered(1, EditType::Cut, Some("tape_1"), None, tc_2, None, Some(1));
    let frame_out = ordered(2, EditType::Cut, Some("tape_2"), Some("tape_1"), tc_3, None, None);
    let edit = OrderedEditInOutPair::new(&frame_in, &frame_out)
        .to_event()
        .unwrap();
    assert_eq!(cut(&edit).source_tape.as_str().to_string(), "tape_1".to_string());
    assert!(cut(&edit).source_in.is_before(&cut(&edit).source_out));
    assert_eq!(cut(&edit).source_in, tc_2);
    assert_eq!(cut(&edit).source_out, tc_3);

    // with edit duration longer than edit time
    let frame_in = ordered(1, EditType::Wipe, Some("tape1"), Some("tape0"), tc_2, Some(10), Some(1));
    let frame_out = ordered(2, EditType::Dissolve, Some("tape2"), Some("tape4"), tc_3, None, None);
    let edit = OrderedEditInOutPair::new(&frame_in, &frame_out)
        .to_event()
        .unwrap();
    assert_eq!(wipe(&edit).from.source_tape.as_str(), "tape0");
    assert_eq!(wipe(&edit).to.source_tape.as_str().to_string(), "tape1".to_string());
    assert_eq!(wipe(&edit).from.source_in, wipe(&edit).from.source_out);
    assert!(wipe(&edit).to.source_in.is_before(&wipe(&edit).to.source_out));
    assert_eq!(wipe(&edit).from.source_in, tc_2);
    assert_eq!(wipe(&edit).from.source_out, tc_2);
    assert_eq!(wipe(&edit).to.source_in, tc_2);
    assert_eq!(
        wipe(&edit).to.source_out,
        tc_2.add_frames(frame_in.edit_duration_frames.unwrap())
    );
}

fn clip(
    edit_number: usize,
    tape: &str,
    av_channels: AVChannels,
    tc_in: Timecode,
    tc_out: Timecode,
) -> Clip {
    Clip {
        edit_number,
        source_tape: SourceTape::from_option(Some(tape)),
        av_channels,
        source_in: tc_in,
        source_out: tc_out,
        record_in: tc_in,
        record_out: tc_out,
    }
}

#[test]
fn mod_validate_edit() {
    let tc_1 = tc24("01:00:00:00");
    let tc_2 = tc24("01:05:10:00");
    let tc_3 = tc24("01:10:00:00");
    let tc_4 = tc24("01:15:00:00");
    let clip_1 = || clip(1, "test_clip.mov", AVChannels::default(), tc_1, tc_2);
    let clip_2 = || clip(2, "test_clip_2.mov", AVChannels::new(true, 3), tc_3, tc_4);

    let cut = &Event::Cut(clip_1());
    let cut_string: String = cut.to_edl_string().unwrap();
    let cut_cmp: String = "
001  AX    AA/V  C        01:00:00:00 01:05:10:00 01:00:00:00 01:05:10:00
* FROM CLIP NAME: test_clip.mov"
        .into();
    assert_eq!(cut_string, cut_cmp);

    let wipe = &Event::Wipe(Wipe {
        from: clip_1(),
        to: clip_2(),
        edit_duration_frames: 15,
        wipe_number: 1,
    });
    let wipe_string: String = wipe.to_edl_string().unwrap();
    let wipe_cmp: String = "
001  AX    AA/V  C        01:00:00:00 01:05:10:00 01:00:00:00 01:05:10:00
002  AX   AAA/V  W001 015 01:10:00:00 01:15:00:00 01:10:00:00 01:15:00:00
* FROM CLIP NAME: test_clip.mov
* TO CLIP NAME: test_clip_2.mov"
        .into();
    assert_eq!(wipe_string, wipe_cmp);

    let dissove = &Event::Dissolve(Dissolve {
        from: clip_1(),
        to: clip_2(),
        edit_duration_frames: 0,
    });
    let dissolve_string: String = dissove.to_edl_string().unwrap();
    let dissove_cmp: String = "
001  AX    AA/V  C        01:00:00:00 01:05:10:00 01:00:00:00 01:05:10:00
002  AX   AAA/V  D    000 01:10:00:00 01:15:00:00 01:10:00:00 01:15:00:00
* FROM CLIP NAME: test_clip.mov
* TO CLIP NAME: test_clip_2.mov"
        .into();
    assert_eq!(dissolve_string, dissove_cmp);
}

#[test]
fn push_valid_edits() {
    let mut queue = EditQueue::new();
    let edit_1 = edit(
        EditType::try_from_str("Cut").unwrap(),
        None,
        None,
        Some("test_1"),
        "01:00:00:00",
    );
    let edit_2 = edit(
        EditType::try_from_str("WiPe").unwrap(),
        Some(1),
        Some(1),
        Some("test_2"),
        "01:00:10:00",
    );
    assert!(queue.push(edit_1).is_ok());
    assert!(queue.push(edit_2).is_ok());
    assert_eq!(queue.count(), 2);
}

#[test]
fn reject_invalid_edits_with_valid_push() {
    let mut queue = EditQueue::new();
    assert!(queue
        .push(edit(EditType::Cut, None, None, Some("test_1"), "01:00:00:00"))
        .is_ok());
    // a wipe without its duration
    assert!(!queue
        .push(edit(EditType::Wipe, None, Some(1), Some("test_2"), "01:00:10:00"))
        .is_ok());
    // a wipe without its wipe number
    assert!(!queue
        .push(edit(EditType::Wipe, Some(1), None, Some("test_3"), "01:00:11:01"))
        .is_ok());
    // the duration of a cut is ignored
    assert!(queue
        .push(edit(EditType::Cut, Some(1), None, Some("test_4"), "01:00:11:01"))
        .is_ok());
    assert!(queue
        .push(edit(EditType::Cut, None, None, None, "01:00:11:01"))
        .is_ok());
    assert!(queue
        .push(edit(EditType::Dissolve, Some(9), None, None, "01:00:11:01"))
        .is_ok());
    assert!(queue
        .push(edit(EditType::Cut, Some(1), Some(1), Some("test_1"), "01:00:00:00"))
        .is_ok());
    assert_eq!(queue.count(), 5);
}

#[test]
fn queue_refusals_name_the_reason() {
    let mut queue = EditQueue::new();
    assert_eq!(
        queue.push(edit(EditType::Dissolve, None, None, None, "01:00:00:00")),
        Err(EdlError::MissingDuration(EditType::Dissolve))
    );
    assert_eq!(
        queue.push(edit(EditType::Wipe, Some(3), None, None, "01:00:00:00")),
        Err(EdlError::MissingWipeNumber(EditType::Wipe))
    );
    assert_eq!(queue.count(), 0);
    assert_eq!(queue.len(), 0);
}

#[test]
fn queue_numbers_edits_in_order() {
    let mut queue = EditQueue::new();
    queue
        .push(edit(EditType::Cut, None, None, Some("a"), "01:00:00:00"))
        .unwrap();
    queue
        .push(edit(EditType::Cut, None, None, Some("b"), "01:00:01:00"))
        .unwrap();
    let first = queue.pop_front().unwrap();
    assert_eq!(first.edit_number, 1);
    assert_eq!(first.source_tape.as_deref(), Some("a"));
    let second = queue.front().unwrap();
    assert_eq!(second.edit_number, 2);
    assert_eq!(second.prev_tape.as_deref(), Some("a"));
    queue.clear();
    assert_eq!(queue.len(), 0);
    assert_eq!(queue.count(), 0);
}

#[test]
fn edl_builds_events_from_queued_edits() {
    let mut edl = Edl::new();
    assert_eq!(edl.try_build_event().unwrap_err(), EdlError::NoPreviousEdit);
    edl.push_edit(edit(EditType::Cut, None, None, Some("tape0"), "00:59:00:00"))
        .unwrap();
    // an event needs two edits; the lone first one is used up
    assert_eq!(edl.try_build_event().unwrap_err(), EdlError::NoCurrentEdit);
    edl.push_edit(edit(EditType::Cut, None, None, Some("tape1"), "01:00:00:00"))
        .unwrap();
    edl.push_edit(edit(EditType::Wipe, Some(15), Some(2), Some("tape2"), "01:00:10:00"))
        .unwrap();
    let event = edl.try_build_event().unwrap();
    assert_eq!(cut(&event).source_tape.as_str(), "tape1");
    assert_eq!(cut(&event).source_in, tc24("01:00:00:00"));
    assert_eq!(cut(&event).source_out, tc24("01:00:10:00"));
    assert_eq!(edl.edit_count(), 3);
    edl.push_edit(edit(EditType::Cut, None, None, Some("tape3"), "01:00:20:00"))
        .unwrap();
    let event = edl.try_build_event().unwrap();
    assert_eq!(wipe(&event).from.source_tape.as_str(), "tape1");
    assert_eq!(wipe(&event).to.source_tape.as_str(), "tape2");
    assert_eq!(wipe(&event).wipe_number, 2);
    assert_eq!(wipe(&event).edit_duration_frames, 15);
    let entry = Edl::event_entry(&event).unwrap();
    assert!(entry.starts_with("\n"));
    assert!(entry.contains("  W002 015 01:00:10:00"));
    assert!(entry.ends_with("* FROM CLIP NAME: tape1\n* TO CLIP NAME: tape2"));
}

#[test]
fn edl_header_and_numbered_names() {
    assert_eq!(Edl::header("my-video", Ntsc::DropFrame), "TITLE: my-video\nFCM: DROP FRAME");
    assert_eq!(Edl::numbered_file_name("my-video", 0), "my-video.edl");
    assert_eq!(Edl::numbered_file_name("my-video", 1), "my-video(1).edl");
    assert_eq!(Edl::numbered_file_name("my-video", 100), "my-video(100).edl");
}

#[test]
fn edit_type_and_ntsc_names() {
    assert_eq!(EditType::try_from_str("DISSOLVE"), Some(EditType::Dissolve));
    assert_eq!(EditType::try_from_str("swipe"), None);
    assert_eq!(EditType::Wipe.as_str(), "wipe");
    assert_eq!(Ntsc::try_from_str("NON-DROP FRAME"), Some(Ntsc::NonDropFrame));
    assert_eq!(Ntsc::try_from_str(Ntsc::DropFrame.as_str()), Some(Ntsc::DropFrame));
    assert_eq!(Ntsc::try_from_str("Drop Frame"), None);
}

#[test]
fn number_column() {
    assert_eq!(validate_num_size(5).unwrap(), "005");
    assert_eq!(validate_num_size(1000), Err(EdlError::NumberTooLarge(1000)));
}
