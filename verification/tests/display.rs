use edl_gen::display::{device_label, host_label, server_host, shutdown_request, trim_with_ellipsis};
use edl_gen::ltc_decoder::config::{LTCHostId, LTCDevice};
use edl_gen::state::stored_device_name;

#[test]
fn labels_are_shortened_with_an_ellipsis() {
    assert_eq!(trim_with_ellipsis("short"), "short");
    assert_eq!(trim_with_ellipsis("a".repeat(29).as_str()), "a".repeat(29));
    assert_eq!(
        trim_with_ellipsis("b".repeat(30).as_str()),
        format!("{}...", "b".repeat(27))
    );
    assert_eq!(
        trim_with_ellipsis("Focusrite Scarlett 18i20 USB Audio Interface"),
        "Focusrite Scarlett 18i20 US..."
    );
}

#[test]
fn device_and_host_labels() {
    let named = LTCDevice {
        name: Some("Scarlett".to_string()),
        channels: 2,
        buffer_range: None,
    };
    let unnamed = LTCDevice {
        name: None,
        channels: 2,
        buffer_range: None,
    };
    assert_eq!(device_label(Some(&named)), "Scarlett");
    assert_eq!(device_label(Some(&unnamed)), "Device Has No Name");
    assert_eq!(device_label(None), "No Device Found");
    assert_eq!(host_label(LTCHostId::Asio), "ASIO");
    assert_eq!(stored_device_name(Some(&named)), "Scarlett");
    assert_eq!(stored_device_name(Some(&unnamed)), "");
    assert_eq!(stored_device_name(None), "");
}

#[test]
fn server_address_and_stop_request() {
    assert_eq!(server_host(7890), "127.0.0.1:7890");
    assert_eq!(
        shutdown_request(9000),
        "GET /SIGKILL HTTP/1.1\r\nHost: 127.0.0.1:9000\r\nConnection: close\r\n\r\n"
    );
}
