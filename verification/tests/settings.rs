use edl_gen::ltc_decoder::config::{default_buffer, LTCHostId, LTCConfig, LTCDevice, LTCDeviceName};
use edl_gen::state::{FindWithFallback, LTCSerializedConfg, LogLevel, Logger, StoredOpts};
use edl_gen::text::{decimal, number_text, parse_u32, parse_usize};

fn device(name: &str, channels: u16, range: Option<(u32, u32)>) -> LTCDevice {
    LTCDevice {
        name: Some(name.to_string()),
        channels,
        buffer_range: range,
    }
}

fn saved(
    name: Option<&str>,
    buffer_size: Option<u32>,
    input_channel: Option<usize>,
) -> LTCSerializedConfg {
    LTCSerializedConfg {
        device: name.map(|n| LTCDeviceName::new(n.to_string())),
        host_id: None,
        buffer_size,
        input_channel,
    }
}

#[test]
fn buffer_options_within_range() {
    assert_eq!(
        device("d", 2, Some((16, 8192))).get_buffer_opts(),
        Some(vec![16, 32, 64, 128, 256, 512, 1024, 2048, 4096, 8192])
    );
    assert_eq!(
        device("d", 2, Some((100, 1000))).get_buffer_opts(),
        Some(vec![128, 256, 512])
    );
    assert_eq!(device("d", 2, Some((480, 480))).get_buffer_opts(), Some(vec![480]));
    assert_eq!(device("d", 2, Some((20000, 40000))).get_buffer_opts(), Some(vec![]));
    assert_eq!(device("d", 2, None).get_buffer_opts(), None);
}

#[test]
fn default_buffer_is_1024_or_next_above() {
    assert_eq!(default_buffer(&vec![256, 512, 1024, 2048]), Some(1024));
    assert_eq!(default_buffer(&vec![128, 256, 512]), Some(512));
    assert_eq!(default_buffer(&vec![]), None);
    let d = device("d", 2, Some((16, 8192)));
    assert_eq!(d.get_default_buffer_size(None), Some(1024));
    assert_eq!(d.get_default_buffer_size(Some(&vec![32, 64])), Some(64));
    assert_eq!(device("d", 2, Some((2048, 8192))).get_default_buffer_size(None), Some(2048));
    assert_eq!(default_buffer(&vec![2048, 4096, 8192]), Some(2048));
    assert_eq!(default_buffer(&vec![512, 4096, 2048]), Some(2048));
}

#[test]
fn channels_and_matches() {
    let d = device("d", 2, Some((64, 2048)));
    assert_eq!(d.get_default_channel(None), Some(1));
    assert_eq!(device("d", 0, None).get_default_channel(None), None);
    assert_eq!(d.get_default_channel(Some(0)), None);
    assert_eq!(d.match_input_or_default(Some(2)), Some(2));
    assert_eq!(d.match_input_or_default(Some(3)), Some(1));
    assert_eq!(d.match_input_or_default(None), None);
    assert_eq!(d.match_buffer_or_default(Some(512)), Some(512));
    assert_eq!(d.match_buffer_or_default(Some(500)), Some(1024));
    assert_eq!(d.match_buffer_or_default(None), None);
}

#[test]
fn find_with_fallback_on_lists_and_ranges() {
    let v: Vec<u32> = vec![1, 2, 3];
    assert_eq!(v.find_with_fallback(2, Some(9)), Some(2));
    assert_eq!(v.find_with_fallback(5, Some(9)), Some(9));
    assert_eq!(v.find_with_fallback(5, None), None);
    assert_eq!((1..=4usize).find_with_fallback(4, Some(1)), Some(4));
    assert_eq!((1..=4usize).find_with_fallback(0, Some(1)), Some(1));
}

#[test]
fn saved_device_is_found_by_name() {
    let devices = vec![
        device("mic", 1, Some((64, 512))),
        device("interface", 8, Some((16, 4096))),
        device("interface", 2, None),
    ];
    let s = saved(Some("interface"), Some(2048), Some(6));
    let found = s.find_device_from(&devices).unwrap();
    assert_eq!(found.channels, 8);
    assert_eq!(s.find_buffer_from(&found), Some(2048));
    assert_eq!(s.find_input_from(&found), Some(6));
    assert!(saved(Some("speaker"), None, None).find_device_from(&devices).is_none());
    assert!(saved(None, None, None).find_device_from(&devices).is_none());
}

#[test]
fn configuration_from_saved_settings() {
    let devices = || {
        vec![
            device("mic", 1, Some((64, 512))),
            device("interface", 8, Some((16, 4096))),
        ]
    };
    let default = || Some(device("mic", 1, Some((64, 512))));

    let (config, store) = LTCConfig::from_serialized(
        &saved(Some("interface"), Some(100), Some(9)),
        Some(devices()),
        default(),
    );
    assert!(!store);
    assert_eq!(config.ltc_device.as_ref().unwrap().channels, 8);
    assert_eq!(config.buffer_size, Some(1024));
    assert_eq!(config.input_channel, Some(1));
    assert_eq!(config.ltc_devices.as_ref().unwrap().len(), 2);

    let (config, store) =
        LTCConfig::from_serialized(&saved(Some("gone"), Some(256), Some(1)), Some(devices()), default());
    assert!(store);
    assert_eq!(config.ltc_device.as_ref().unwrap().name.as_deref(), Some("mic"));
    assert_eq!(config.buffer_size, Some(512));
    assert_eq!(config.input_channel, Some(1));

    let (config, store) = LTCConfig::from_serialized(&saved(Some("mic"), None, None), None, default());
    assert!(!store);
    assert!(config.ltc_device.is_none());
    assert!(config.ltc_devices.is_none());
    assert!(config.buffer_size.is_none());
    assert!(config.input_channel.is_none());

    let config = LTCConfig::from_host_devices_excluded(None);
    assert!(config.ltc_device.is_none());
    assert!(config.buffer_size.is_none());
}

#[test]
fn stored_option_keys() {
    assert_eq!(StoredOpts::Dir.as_bytes(), vec![0]);
    assert_eq!(StoredOpts::Ntsc.as_bytes(), vec![4]);
    assert_eq!(StoredOpts::LTCDevice.as_bytes(), vec![5]);
    assert_eq!(StoredOpts::BufferSize.as_bytes(), vec![6]);
    assert_eq!(StoredOpts::InputChannel.as_bytes(), vec![7]);
    assert_eq!(StoredOpts::LTCHostId.as_bytes(), vec![8]);
}

#[test]
fn stored_numbers_read_back() {
    for n in [0usize, 7, 10, 44_100, 7890, usize::MAX] {
        let text = number_text(Some(n));
        assert_eq!(text, n.to_string());
        assert_eq!(parse_usize(text.as_bytes()), Some(n));
    }
    assert_eq!(number_text(None), "0");
    assert_eq!(parse_u32(b"4294967295"), Some(u32::MAX));
    assert_eq!(parse_u32(b"4294967296"), None);
    assert_eq!(parse_usize(b"+12"), Some(12));
    assert_eq!(parse_usize(b""), None);
    assert_eq!(parse_usize(b"+"), None);
    assert_eq!(parse_usize(b"1x"), None);
    assert_eq!(parse_usize(b"99999999999999999999999"), None);
    assert_eq!(decimal(1234), "1234");
}

#[test]
fn host_names_read_back() {
    for h in [LTCHostId::CoreAudio, LTCHostId::Wasapi, LTCHostId::Asio, LTCHostId::Alsa] {
        assert_eq!(LTCHostId::try_from_str(h.as_str()), Some(h));
    }
    assert_eq!(LTCHostId::Wasapi.as_str(), "WASPAPI");
    assert_eq!(LTCHostId::try_from_str("alsa"), None);
}

#[test]
fn logger_keeps_messages_in_order() {
    let mut log = Logger::init();
    assert_eq!(log.len(), 0);
    log.mut_log(LogLevel::Info, "first".to_string());
    log.mut_log(LogLevel::Error, "second".to_string());
    assert_eq!(log.len(), 2);
    let messages = log.get_log(|l| l.iter().map(|(_, m)| m.clone()).collect::<Vec<_>>());
    assert_eq!(messages, vec!["first".to_string(), "second".to_string()]);
    assert_eq!(log.try_get_log(|l| l[1].0), Some(LogLevel::Error));
}

#[test]
fn device_names() {
    let n = LTCDeviceName::new("Scarlett".to_string());
    assert_eq!(n.inner(), "Scarlett");
    assert_eq!(device("x", 1, None).name(), Some("x".to_string()));
}

#[test]
fn choosing_devices_keeps_offered_settings() {
    let mut config = LTCConfig::from_host_devices_excluded(Some(device("mic", 1, Some((64, 512)))));
    assert_eq!(config.input_channel, Some(1));
    assert_eq!(config.buffer_size, Some(512));
    config.input_channel = Some(2);
    config.buffer_size = Some(256);

    config.select_device(Some(device("interface", 8, Some((16, 4096)))));
    assert_eq!(config.ltc_device.as_ref().unwrap().channels, 8);
    assert_eq!(config.input_channel, Some(2));
    assert_eq!(config.buffer_size, Some(256));

    config.select_device(Some(device("mono", 1, Some((1024, 4096)))));
    assert_eq!(config.input_channel, Some(1));
    assert_eq!(config.buffer_size, Some(1024));

    config.select_device(None);
    assert!(config.ltc_device.is_none());
    assert!(config.input_channel.is_none());
    assert!(config.buffer_size.is_none());

    let changed = config.refresh_devices(
        Some(vec![device("a", 2, None)]),
        Some(device("a", 2, Some((32, 64)))),
    );
    assert!(changed);
    assert_eq!(config.ltc_device.as_ref().unwrap().name.as_deref(), Some("a"));
    assert_eq!(config.ltc_devices.as_ref().unwrap().len(), 1);
    assert!(!config.refresh_devices(None, None));
    assert!(config.ltc_devices.is_none());
    assert!(config.ltc_device.is_some());

    config.select_host(Some(vec![]), None);
    assert!(config.ltc_device.is_none());
    assert_eq!(config.ltc_devices.as_ref().unwrap().len(), 0);
}
