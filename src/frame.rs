//! The six-byte frame header, and whole frames as bytes.
use vstd::prelude::*;

use crate::net::{Frame, FrameHeader, FrameKind, NetError, NetResult};
use crate::wire::{be_u32, decode_u32, encode_u32, lemma_u32_round_trip, u32_of};

verus! {

/// Size in bytes of an encoded header.
pub const HEADER_LEN: usize = 6;

/// The wire code of each kind.
pub open spec fn kind_code(k: FrameKind) -> u8 {
    match k {
        FrameKind::Hello => 1,
        FrameKind::Caps => 2,
        FrameKind::GetBlocks => 3,
        FrameKind::PushBlocks => 4,
        FrameKind::GetObject => 5,
        FrameKind::PushObject => 6,
        FrameKind::Ping => 7,
        FrameKind::Pong => 8,
    }
}

/// The kind that a byte names, if it names one.
pub open spec fn kind_of_code(b: u8) -> Option<FrameKind> {
    if b == 1 {
        Some(FrameKind::Hello)
    } else if b == 2 {
        Some(FrameKind::Caps)
    } else if b == 3 {
        Some(FrameKind::GetBlocks)
    } else if b == 4 {
        Some(FrameKind::PushBlocks)
    } else if b == 5 {
        Some(FrameKind::GetObject)
    } else if b == 6 {
        Some(FrameKind::PushObject)
    } else if b == 7 {
        Some(FrameKind::Ping)
    } else if b == 8 {
        Some(FrameKind::Pong)
    } else {
        None
    }
}

/// A header on the wire: kind code, flags, then the length in big-endian order.
pub open spec fn header_bytes(h: FrameHeader) -> Seq<u8> {
    seq![kind_code(h.kind), h.flags] + be_u32(h.length)
}

/// What the first six bytes of `s` say as a header.
pub open spec fn parse_header(s: Seq<u8>) -> NetResult<FrameHeader> {
    if s.len() < 6 {
        Err(NetError::InvalidFrame)
    } else {
        match kind_of_code(s[0]) {
            None => Err(NetError::InvalidFrame),
            Some(kind) => Ok(FrameHeader { kind, flags: s[1], length: u32_of(s.subrange(2, 6)) }),
        }
    }
}

/// A frame on the wire: its header, then its payload.
pub open spec fn frame_bytes(f: Frame) -> Seq<u8> {
    header_bytes(f.header) + f.payload@
}

pub fn encode_frame_header(h: &FrameHeader) -> (r: Vec<u8>)
    ensures
        r@ == header_bytes(*h),
{
    let mut v: Vec<u8> = Vec::with_capacity(HEADER_LEN);
    let kind_byte: u8 = match h.kind {
        FrameKind::Hello => 1,
        FrameKind::Caps => 2,
        FrameKind::GetBlocks => 3,
        FrameKind::PushBlocks => 4,
        FrameKind::GetObject => 5,
        FrameKind::PushObject => 6,
        FrameKind::Ping => 7,
        FrameKind::Pong => 8,
    };
    v.push(kind_byte);
    v.push(h.flags);
    v.extend_from_slice(&encode_u32(h.length));
    assert(v@ =~= header_bytes(*h));
    v
}

pub fn decode_frame_header(buf: &[u8]) -> (r: NetResult<FrameHeader>)
    ensures
        r == parse_header(buf@),
{
    if buf.len() < HEADER_LEN {
        return Err(NetError::InvalidFrame);
    }
    let kind = match buf[0] {
        1 => FrameKind::Hello,
        2 => FrameKind::Caps,
        3 => FrameKind::GetBlocks,
        4 => FrameKind::PushBlocks,
        5 => FrameKind::GetObject,
        6 => FrameKind::PushObject,
        7 => FrameKind::Ping,
        8 => FrameKind::Pong,
        _ => return Err(NetError::InvalidFrame),
    };
    Ok(FrameHeader { kind, flags: buf[1], length: decode_u32(&buf[2..6]) })
}

pub fn encode_frame(frame: &Frame) -> (r: Vec<u8>)
    ensures
        r@ == frame_bytes(*frame),
{
    let mut res: Vec<u8> = Vec::new();
    res.extend_from_slice(encode_frame_header(&frame.header).as_slice());
    res.extend_from_slice(frame.payload.as_slice());
    assert(res@ =~= frame_bytes(*frame));
    res
}

/// Joins a header and a payload, refusing a payload of another length than announced.
pub fn decode_frame(header: FrameHeader, payload: Vec<u8>) -> (r: NetResult<Frame>)
    ensures
        r is Ok <==> payload@.len() == header.length as nat,
        r is Err ==> r == Err::<Frame, NetError>(NetError::InvalidFrame),
        r is Ok ==> r->Ok_0.header == header && r->Ok_0.payload@ == payload@,
{
    if payload.len() as u64 != header.length as u64 {
        return Err(NetError::InvalidFrame);
    }
    Ok(Frame { header, payload })
}

/// Every header reads back from its own encoding: all kinds, flags and lengths.
pub proof fn lemma_header_round_trip(h: FrameHeader)
    ensures
        header_bytes(h).len() == 6,
        parse_header(header_bytes(h)) == Ok::<FrameHeader, NetError>(h),
{
    let s = header_bytes(h);
    assert(s.subrange(2, 6) =~= be_u32(h.length));
    lemma_u32_round_trip(h.length);
}

/// A header cannot be read from fewer than six bytes, nor from a kind byte outside one to eight.
pub proof fn lemma_header_rejects(s: Seq<u8>)
    requires
        s.len() < 6 || s[0] == 0 || s[0] > 8,
    ensures
        parse_header(s) == Err::<FrameHeader, NetError>(NetError::InvalidFrame),
{
}

/// A well-formed frame reads back from its encoding: the first six bytes give its
/// header, and the bytes after them, exactly as many as the header announces, its payload.
pub proof fn lemma_frame_round_trip(f: Frame)
    requires
        f.wf(),
    ensures
        parse_header(frame_bytes(f).subrange(0, 6)) == Ok::<FrameHeader, NetError>(f.header),
        frame_bytes(f).subrange(6, frame_bytes(f).len() as int) == f.payload@,
        f.payload@.len() == f.header.length as nat,
{
    lemma_header_round_trip(f.header);
    assert(frame_bytes(f).subrange(0, 6) =~= header_bytes(f.header));
    assert(frame_bytes(f).subrange(6, frame_bytes(f).len() as int) =~= f.payload@);
}

/// A frame without payload (a capability notice, a ping, a pong) is its six header
/// bytes alone, and reads back as the same frame.
pub proof fn lemma_empty_frame_round_trip(f: Frame)
    requires
        f.header.length == 0,
        f.payload@.len() == 0,
    ensures
        frame_bytes(f) == header_bytes(f.header),
        frame_bytes(f).len() == 6,
        parse_header(frame_bytes(f)) == Ok::<FrameHeader, NetError>(f.header),
{
    lemma_header_round_trip(f.header);
    assert(frame_bytes(f) =~= header_bytes(f.header));
}

} // verus!
