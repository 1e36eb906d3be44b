//! Moving whole frames over a byte-stream transport.
use vstd::prelude::*;

use crate::frame::{decode_frame, decode_frame_header, encode_frame, HEADER_LEN};
use crate::net::{Frame, NetResult};

verus! {

/// A blocking byte stream, supplied by the caller: a socket, or an in-memory buffer.
pub trait Transport {
    /// Delivers all of `data`, or fails.
    fn send(&mut self, data: &[u8]) -> (r: NetResult<()>);

    /// Waits for exactly `len` bytes, or fails; it never hands back fewer.
    /// Callers here still check the count they get.
    fn recv_exact(&mut self, len: usize) -> (r: NetResult<Vec<u8>>);
}

/// Sends `frame` as one buffer: the bytes that `encode_frame` gives.
/// A failure of the transport comes back unchanged.
pub fn send_frame<T: Transport>(t: &mut T, frame: &Frame) -> (r: NetResult<()>) {
    let encoded = encode_frame(frame);
    t.send(encoded.as_slice())
}

/// Reads one frame: six header bytes, then as many payload bytes as the header announces.
/// Either a whole frame comes back, its length matching its payload, or an error.
pub fn recv_frame<T: Transport>(t: &mut T) -> (r: NetResult<Frame>)
    ensures
        r is Ok ==> r->Ok_0.wf(),
{
    let hdr_bytes = t.recv_exact(HEADER_LEN)?;
    let header = decode_frame_header(hdr_bytes.as_slice())?;
    let payload = t.recv_exact(header.length as usize)?;
    decode_frame(header, payload)
}

} // verus!
