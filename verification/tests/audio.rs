use edl_gen::ltc::{parse_mono_input_from_channel, Channel, InputChannel};
use edl_gen::ltc_decoder::config::LTCDevice;
use edl_gen::ltc_decoder::{
    input_channel_for, DecodeAction, DecodeErr, DecodeState, DecodeTracker, ListenerError,
    MAX_ITERS_WITHOUT_FRAME,
};
use edl_gen::utils::single_val_channel::ChannelErr;

#[test]
fn channel_keeps_the_latest_value() {
    let mut c: Channel<u32> = Channel::new();
    assert!(!c.is_full());
    assert_eq!(c.try_recv(), Err(ChannelErr::NoVal));
    c.send(1);
    c.send(2);
    assert!(c.is_full());
    assert_eq!(c.recv(), 2);
    assert!(!c.is_full());
    c.send(3);
    assert_eq!(c.try_recv(), Ok(3));
    assert_eq!(c.try_recv(), Err(ChannelErr::NoVal));
}

#[test]
fn mono_samples_from_interleaved_input() {
    let input = [10, 11, 12, 20, 21, 22, 30, 31];
    let ch = |input_channel| InputChannel {
        input_channel,
        device_channels: 3,
    };
    assert_eq!(parse_mono_input_from_channel(&input, &ch(1)), vec![10, 20, 30]);
    assert_eq!(parse_mono_input_from_channel(&input, &ch(2)), vec![11, 21, 31]);
    assert_eq!(parse_mono_input_from_channel(&input, &ch(3)), vec![12, 22]);
    assert_eq!(parse_mono_input_from_channel(&input, &ch(4)), Vec::<i32>::new());
    let empty: [f32; 0] = [];
    assert!(parse_mono_input_from_channel(&empty, &ch(1)).is_empty());
}

#[test]
fn decoder_watchdog() {
    let mut t = DecodeTracker::new();
    assert!(!t.is_on());
    assert_eq!(t.after_buffer(true), DecodeAction::Skip);
    t.set_state(DecodeState::On);
    assert!(t.is_on());
    assert_eq!(t.after_buffer(true), DecodeAction::SendFrame);
    for _ in 0..=MAX_ITERS_WITHOUT_FRAME {
        assert_eq!(t.after_buffer(false), DecodeAction::Wait);
    }
    assert_eq!(t.after_buffer(false), DecodeAction::ResetDecoder);
    assert_eq!(t.after_buffer(false), DecodeAction::Wait);
    assert_eq!(t.after_buffer(true), DecodeAction::SendFrame);
    t.set_state(DecodeState::Off);
    assert_eq!(t.after_buffer(false), DecodeAction::Skip);
}

#[test]
fn input_channel_checks() {
    let d = LTCDevice {
        name: Some("in".to_string()),
        channels: 2,
        buffer_range: None,
    };
    assert_eq!(input_channel_for(None, Some(1)), Err(ListenerError::NoDevice));
    assert_eq!(input_channel_for(Some(&d), None), Err(ListenerError::NoChannel));
    assert_eq!(
        input_channel_for(Some(&d), Some(2)),
        Ok(InputChannel {
            input_channel: 2,
            device_channels: 2
        })
    );
    assert_eq!(
        input_channel_for(Some(&d), Some(3)),
        Err(ListenerError::InvalidInputChannel(3, 2))
    );
    // the channel is compared as a 16-bit number
    assert_eq!(
        input_channel_for(Some(&d), Some(65_537)),
        Ok(InputChannel {
            input_channel: 65_537,
            device_channels: 2
        })
    );
}

#[test]
fn decode_errors_from_channel_errors() {
    match DecodeErr::from_channel_err(ChannelErr::NoVal) {
        DecodeErr::NoVal(m) => assert_eq!(m, "No value found"),
        e => panic!("unexpected {:?}", e),
    }
    match DecodeErr::from_channel_err(ChannelErr::Lock) {
        DecodeErr::Anyhow(m) => assert_eq!(m, "Lock poisoned"),
        e => panic!("unexpected {:?}", e),
    }
    assert_eq!(ChannelErr::Lock.message(), "Lock poisoned");
}
