//! Texts shown to the user and sent to the server: shortened labels, device
//! and host names, and the request that asks a running server to stop.

use vstd::prelude::*;
use vstd::string::{StringExecFns, StringSliceAdditionalSpecFns};
use vstd::utf8::{
    decode_utf8, encode_utf8, encode_utf8_decode_utf8, is_ascii_chars_encode_utf8, is_char_boundary,
};

use crate::ltc_decoder::config::{LTCHostId, LTCDevice};
use crate::text::{decimal, decimal_spec};

verus! {

/// Labels of this many bytes or more are shortened.
pub const LABEL_MAX_BYTES: usize = 30;

/// Encoding a concatenation encodes each part in turn.
proof fn lemma_encode_concat(a: Seq<char>, b: Seq<char>)
    ensures
        encode_utf8(a + b) == encode_utf8(a) + encode_utf8(b),
    decreases a.len(),
{
    if a.len() == 0 {
        assert(a + b =~= b);
        assert(encode_utf8(a) + encode_utf8(b) =~= encode_utf8(b));
    } else {
        assert((a + b).drop_first() =~= a.drop_first() + b);
        lemma_encode_concat(a.drop_first(), b);
        assert((a + b)[0] == a[0]);
        assert(encode_utf8(a + b) =~= encode_utf8(a) + encode_utf8(b));
    }
}

/// A label shortened for display: a text of 30 bytes or more becomes its
/// first 27 bytes followed by `...`; a shorter one is kept. The cut must
/// fall between characters.
pub fn trim_with_ellipsis(s: &str) -> (r: String)
    requires
        s.len() >= LABEL_MAX_BYTES ==> is_char_boundary(s.spec_bytes(), 27),
    ensures
        s.len() < LABEL_MAX_BYTES ==> r@ == s@,
        s.len() >= LABEL_MAX_BYTES ==> r@ == decode_utf8(
            s.spec_bytes().subrange(0, 27),
        ) + "..."@,
        s.len() >= LABEL_MAX_BYTES ==> encode_utf8(r@).len() == LABEL_MAX_BYTES,
{
    if s.len() >= LABEL_MAX_BYTES {
        let (head, _) = s.split_at(27);
        proof {
            encode_utf8_decode_utf8(head@);
            assert(head.spec_bytes() == s.spec_bytes().subrange(0, 27));
            assert(decode_utf8(s.spec_bytes().subrange(0, 27)) == head@);
            reveal_strlit("...");
            is_ascii_chars_encode_utf8("..."@);
            lemma_encode_concat(head@, "..."@);
        }
        let mut r = String::from_str(head);
        r.append("...");
        r
    } else {
        String::from_str(s)
    }
}

/// The name shown for an optional device.
pub open spec fn device_label_spec(d: Option<Option<Seq<char>>>) -> Seq<char> {
    match d {
        None => "No Device Found"@,
        Some(None) => "Device Has No Name"@,
        Some(Some(n)) => n,
    }
}

/// The name shown for a device: its own name, or a note that there is no
/// device or that it has no name.
pub fn device_label(d: Option<&LTCDevice>) -> (r: String)
    ensures
        r@ == device_label_spec(
            match d {
                Some(d) => Some(d@.name),
                None => None,
            },
        ),
{
    match d {
        None => String::from_str("No Device Found"),
        Some(d) => match d.name() {
            Some(n) => n,
            None => String::from_str("Device Has No Name"),
        },
    }
}

/// The name shown for a host.
pub fn host_label(h: LTCHostId) -> (r: String)
    ensures
        r@ == h.name_spec(),
{
    String::from_str(h.as_str())
}

/// The local address the server listens on for `port`.
pub open spec fn host_spec(port: nat) -> Seq<char> {
    "127.0.0.1:"@ + decimal_spec(port)
}

/// The local address the server listens on.
pub fn server_host(port: usize) -> (r: String)
    ensures
        r@ == host_spec(port as nat),
{
    let mut r = String::from_str("127.0.0.1:");
    let n = decimal(port as u64);
    r.append(n.as_str());
    r
}

/// The request that asks the server on `port` to stop.
pub open spec fn shutdown_request_spec(port: nat) -> Seq<char> {
    "GET /SIGKILL HTTP/1.1\r\nHost: "@ + host_spec(port) + "\r\nConnection: close\r\n\r\n"@
}

/// The request that asks the server on `port` to stop.
pub fn shutdown_request(port: usize) -> (r: String)
    ensures
        r@ == shutdown_request_spec(port as nat),
{
    let mut r = String::from_str("GET /SIGKILL HTTP/1.1\r\nHost: ");
    let host = server_host(port);
    r.append(host.as_str());
    r.append("\r\nConnection: close\r\n\r\n");
    r
}

} // verus!
