//! The control socket's wire format: one JSON message per line.
//!
//! Opening sockets and encoding messages are the caller's; the functions
//! here frame the bytes and read what came back.

use vstd::prelude::*;
use vstd::utf8::encode_utf8;
use crate::daemon::service::IpcResponse;

verus! {

/// The bytes that carry one message: its JSON text, then a newline.
pub fn frame_line(json: &str) -> (r: Vec<u8>)
    ensures
        r@ == encode_utf8(json@).push(10u8),
{
    let b = json.as_bytes();
    let mut out: Vec<u8> = Vec::new();
    let mut i: usize = 0;
    while i < b.len()
        invariant
            i <= b@.len(),
            b@ == encode_utf8(json@),
            out@ == b@.take(i as int),
        decreases b@.len() - i,
    {
        out.push(b[i]);
        assert(out@ =~= b@.take(i + 1));
        i = i + 1;
    }
    assert(b@.take(b@.len() as int) =~= b@);
    out.push(10u8);
    out
}

/// A read of zero bytes means the peer closed the connection.
pub fn peer_closed(bytes_read: usize) -> (r: bool)
    ensures
        r == (bytes_read == 0),
{
    bytes_read == 0
}

/// The daemon is running when it answers a ping with a pong.
pub fn answers_ping(response: &Option<IpcResponse>) -> (r: bool)
    ensures
        r == (response matches Some(IpcResponse::Pong)),
{
    match response {
        Some(IpcResponse::Pong) => true,
        _ => false,
    }
}

} // verus!
