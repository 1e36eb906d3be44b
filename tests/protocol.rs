use std::collections::VecDeque;

use quarxtor_net::frame::{decode_frame, decode_frame_header, encode_frame, encode_frame_header};
use quarxtor_net::net::{
    Frame, FrameHeader, FrameKind, GetBlocksPayload, GetObjectPayload, HelloPayload, NetError,
    NetResult, ProtocolVersion, PushBlocksPayload, PushObjectPayload,
};
use quarxtor_net::payload::{
    decode_get_blocks, decode_get_object, decode_hello, decode_push_blocks, decode_push_object,
    encode_get_blocks, encode_get_object, encode_hello, encode_push_blocks, encode_push_object,
};
use quarxtor_net::protocol::{recv_frame, send_frame, Transport};
use quarxtor_net::wire::{decode_u16, decode_u32, decode_u64, encode_u16, encode_u32, encode_u64};

/// An in-memory stream: what is sent can be read back, in order.
struct Loopback {
    buf: VecDeque<u8>,
}

impl Loopback {
    fn new() -> Self {
        Loopback { buf: VecDeque::new() }
    }

    fn with_bytes(bytes: &[u8]) -> Self {
        Loopback { buf: bytes.iter().copied().collect() }
    }
}

impl Transport for Loopback {
    fn send(&mut self, data: &[u8]) -> NetResult<()> {
        self.buf.extend(data.iter().copied());
        Ok(())
    }

    fn recv_exact(&mut self, len: usize) -> NetResult<Vec<u8>> {
        if self.buf.len() < len {
            return Err(NetError::Closed);
        }
        Ok(self.buf.drain(..len).collect())
    }
}

const ALL_KINDS: [FrameKind; 8] = [
    FrameKind::Hello,
    FrameKind::Caps,
    FrameKind::GetBlocks,
    FrameKind::PushBlocks,
    FrameKind::GetObject,
    FrameKind::PushObject,
    FrameKind::Ping,
    FrameKind::Pong,
];

fn frame_of(kind: FrameKind, flags: u8, payload: Vec<u8>) -> Frame {
    Frame { header: FrameHeader { kind, flags, length: payload.len() as u32 }, payload }
}

#[test]
fn integers_are_big_endian() {
    assert_eq!(encode_u16(0x0102), [1, 2]);
    assert_eq!(encode_u32(0x0102_0304), [1, 2, 3, 4]);
    assert_eq!(encode_u64(0x0102_0304_0506_0708), [1, 2, 3, 4, 5, 6, 7, 8]);
    assert_eq!(decode_u16(&[0xAB, 0xCD]), 0xABCD);
    assert_eq!(decode_u32(&[0, 0, 1, 0]), 256);
    assert_eq!(decode_u64(&[0, 0, 0, 0, 0, 0, 0, 42]), 42);
    assert_eq!(decode_u64(&encode_u64(u64::MAX)), u64::MAX);
    assert_eq!(decode_u32(&encode_u32(0xDEAD_BEEF)), 0xDEAD_BEEF);
    assert_eq!(decode_u16(&encode_u16(0x8001)), 0x8001);
}

#[test]
fn hello_round_trip_at_extremes() {
    let p = HelloPayload {
        node: 0xFFFF_FFFF_FFFF_FFFF,
        version: ProtocolVersion { major: 65535, minor: 65535 },
    };
    let bytes = encode_hello(&p);
    assert_eq!(bytes, vec![0xFF; 12]);
    assert_eq!(decode_hello(&bytes), Ok(p));
}

#[test]
fn hello_wire_layout() {
    let p = HelloPayload { node: 42, version: ProtocolVersion { major: 1, minor: 2 } };
    assert_eq!(encode_hello(&p), vec![0, 0, 0, 0, 0, 0, 0, 0x2A, 0, 1, 0, 2]);
}

#[test]
fn hello_reads_only_first_twelve_bytes() {
    let mut bytes = vec![0, 0, 0, 0, 0, 0, 0, 7, 0, 3, 0, 4];
    bytes.extend_from_slice(&[9, 9, 9]);
    let p = decode_hello(&bytes).unwrap();
    assert_eq!(p, HelloPayload { node: 7, version: ProtocolVersion { major: 3, minor: 4 } });
}

#[test]
fn get_blocks_round_trip_zero_one_many() {
    for n in [0usize, 1, 1000] {
        let ids: Vec<u64> = (0..n as u64).map(|i| i.wrapping_mul(0x9E37_79B9_7F4A_7C15)).collect();
        let bytes = encode_get_blocks(&GetBlocksPayload { ids: ids.clone() });
        assert_eq!(bytes.len(), 8 * n);
        assert_eq!(decode_get_blocks(&bytes), Ok(GetBlocksPayload { ids }));
    }
}

#[test]
fn get_blocks_keeps_order() {
    let bytes = encode_get_blocks(&GetBlocksPayload { ids: vec![2, 1] });
    assert_eq!(bytes, vec![0, 0, 0, 0, 0, 0, 0, 2, 0, 0, 0, 0, 0, 0, 0, 1]);
}

#[test]
fn push_blocks_pass_through() {
    let raw = vec![5, 0, 255, 17];
    let bytes = encode_push_blocks(&PushBlocksPayload { raw: raw.clone() });
    assert_eq!(bytes, raw);
    assert_eq!(decode_push_blocks(&bytes), Ok(PushBlocksPayload { raw }));
    assert_eq!(decode_push_blocks(&[]).unwrap().raw, Vec::<u8>::new());
}

#[test]
fn get_object_round_trip() {
    let p = GetObjectPayload { id: 0x0102_0304_0506_0708 };
    let bytes = encode_get_object(&p);
    assert_eq!(bytes, vec![1, 2, 3, 4, 5, 6, 7, 8]);
    assert_eq!(decode_get_object(&bytes), Ok(p));
}

#[test]
fn push_object_pass_through() {
    let raw = vec![1, 2, 3];
    let bytes = encode_push_object(&PushObjectPayload { raw: raw.clone() });
    assert_eq!(bytes, raw);
    assert_eq!(decode_push_object(&bytes), Ok(PushObjectPayload { raw }));
}

#[test]
fn header_round_trip_all_kinds_flags_lengths() {
    for (i, kind) in ALL_KINDS.iter().enumerate() {
        for flags in 0..=255u8 {
            for length in [0u32, 1, 12, 0x0102_0304, u32::MAX] {
                let h = FrameHeader { kind: *kind, flags, length };
                let bytes = encode_frame_header(&h);
                assert_eq!(bytes.len(), 6);
                assert_eq!(bytes[0] as usize, i + 1);
                assert_eq!(decode_frame_header(&bytes), Ok(h));
            }
        }
    }
}

#[test]
fn header_wire_layout() {
    let h = FrameHeader { kind: FrameKind::PushObject, flags: 0x80, length: 0x0A0B_0C0D };
    assert_eq!(encode_frame_header(&h), vec![6, 0x80, 0x0A, 0x0B, 0x0C, 0x0D]);
}

#[test]
fn header_rejects_short_buffer() {
    assert_eq!(decode_frame_header(&[1, 0, 0, 0, 0]), Err(NetError::InvalidFrame));
    assert_eq!(decode_frame_header(&[]), Err(NetError::InvalidFrame));
}

#[test]
fn header_rejects_unknown_kind() {
    assert_eq!(decode_frame_header(&[0, 0, 0, 0, 0, 0]), Err(NetError::InvalidFrame));
    assert_eq!(decode_frame_header(&[9, 0, 0, 0, 0, 0]), Err(NetError::InvalidFrame));
    assert_eq!(decode_frame_header(&[255, 0, 0, 0, 0, 0]), Err(NetError::InvalidFrame));
}

#[test]
fn payload_rejections() {
    assert_eq!(decode_hello(&[0u8; 11]), Err(NetError::DecodeError));
    assert!(matches!(decode_get_blocks(&[0u8; 7]), Err(NetError::DecodeError)));
    assert_eq!(decode_get_object(&[0u8; 9]), Err(NetError::DecodeError));
    assert_eq!(decode_get_object(&[0u8; 7]), Err(NetError::DecodeError));
}

#[test]
fn decode_frame_checks_length() {
    let h = FrameHeader { kind: FrameKind::PushBlocks, flags: 0, length: 3 };
    assert!(matches!(decode_frame(h, vec![1, 2]), Err(NetError::InvalidFrame)));
    let f = decode_frame(h, vec![1, 2, 3]).unwrap();
    assert_eq!(f.header, h);
    assert_eq!(f.payload, vec![1, 2, 3]);
}

#[test]
fn encode_frame_is_header_then_payload() {
    let f = frame_of(FrameKind::PushBlocks, 3, vec![9, 8]);
    assert_eq!(encode_frame(&f), vec![4, 3, 0, 0, 0, 2, 9, 8]);
}

#[test]
fn recv_hello_from_stub() {
    let bytes = [1, 0, 0, 0, 0, 0x0C, 0, 0, 0, 0, 0, 0, 0, 0x2A, 0, 1, 0, 2];
    let mut t = Loopback::with_bytes(&bytes);
    let f = recv_frame(&mut t).unwrap();
    assert_eq!(f.header.kind, FrameKind::Hello);
    assert_eq!(f.header.length, 12);
    assert_eq!(
        decode_hello(&f.payload),
        Ok(HelloPayload { node: 42, version: ProtocolVersion { major: 1, minor: 2 } })
    );
}

#[test]
fn empty_payload_frames_round_trip() {
    for kind in [FrameKind::Caps, FrameKind::Ping, FrameKind::Pong] {
        let f = frame_of(kind, 0, Vec::new());
        assert_eq!(f.header.length, 0);
        let mut t = Loopback::new();
        send_frame(&mut t, &f).unwrap();
        assert_eq!(t.buf.len(), 6);
        let g = recv_frame(&mut t).unwrap();
        assert_eq!(g, f);
        assert!(g.payload.is_empty());
    }
}

#[test]
fn send_then_recv_gives_the_frame() {
    let frames = vec![
        frame_of(FrameKind::Hello, 1, encode_hello(&HelloPayload {
            node: 7,
            version: ProtocolVersion { major: 0, minor: 9 },
        })),
        frame_of(FrameKind::GetBlocks, 0, encode_get_blocks(&GetBlocksPayload { ids: vec![1, 2, 3] })),
        frame_of(FrameKind::PushBlocks, 0xFF, (0..=255u8).collect()),
        frame_of(FrameKind::GetObject, 2, encode_get_object(&GetObjectPayload { id: 99 })),
        frame_of(FrameKind::PushObject, 0, vec![0; 70000]),
        frame_of(FrameKind::Ping, 5, Vec::new()),
    ];
    let mut t = Loopback::new();
    for f in &frames {
        send_frame(&mut t, f).unwrap();
    }
    for f in &frames {
        let g = recv_frame(&mut t).unwrap();
        assert_eq!(&g, f);
    }
    assert!(t.buf.is_empty());
}

#[test]
fn recv_rejects_bad_kind() {
    let mut t = Loopback::with_bytes(&[9, 0, 0, 0, 0, 0]);
    assert!(matches!(recv_frame(&mut t), Err(NetError::InvalidFrame)));
}

#[test]
fn recv_passes_transport_error_through() {
    let mut t = Loopback::with_bytes(&[1, 0, 0, 0]);
    assert!(matches!(recv_frame(&mut t), Err(NetError::Closed)));
    let mut t = Loopback::with_bytes(&[2, 0, 0, 0, 0, 4, 1, 2]);
    assert!(matches!(recv_frame(&mut t), Err(NetError::Closed)));
}

#[test]
fn frame_equality_looks_at_header_and_payload() {
    let a = frame_of(FrameKind::PushObject, 0, vec![1, 2, 3]);
    assert_eq!(a, frame_of(FrameKind::PushObject, 0, vec![1, 2, 3]));
    assert_ne!(a, frame_of(FrameKind::PushObject, 0, vec![1, 2, 4]));
    assert_ne!(a, frame_of(FrameKind::PushObject, 1, vec![1, 2, 3]));
    assert_ne!(a, frame_of(FrameKind::PushBlocks, 0, vec![1, 2, 3]));
    assert_ne!(GetBlocksPayload { ids: vec![1, 2] }, GetBlocksPayload { ids: vec![2, 1] });
    assert_ne!(PushBlocksPayload { raw: vec![1] }, PushBlocksPayload { raw: vec![1, 1] });
}
