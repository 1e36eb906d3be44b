//! Fixed-width unsigned integers in big-endian byte order.
use vstd::prelude::*;

verus! {

/// The two bytes of `x`, most significant first.
pub open spec fn be_u16(x: u16) -> Seq<u8> {
    seq![(x >> 8u16) as u8, x as u8]
}

/// The four bytes of `x`, most significant first.
pub open spec fn be_u32(x: u32) -> Seq<u8> {
    seq![(x >> 24u32) as u8, (x >> 16u32) as u8, (x >> 8u32) as u8, x as u8]
}

/// The eight bytes of `x`, most significant first.
pub open spec fn be_u64(x: u64) -> Seq<u8> {
    seq![
        (x >> 56u64) as u8,
        (x >> 48u64) as u8,
        (x >> 40u64) as u8,
        (x >> 32u64) as u8,
        (x >> 24u64) as u8,
        (x >> 16u64) as u8,
        (x >> 8u64) as u8,
        x as u8,
    ]
}

/// The number whose big-endian form is the first two bytes of `s`.
pub open spec fn u16_of(s: Seq<u8>) -> u16
    recommends
        s.len() >= 2,
{
    ((s[0] as u16) << 8u16) | (s[1] as u16)
}

/// The number whose big-endian form is the first four bytes of `s`.
pub open spec fn u32_of(s: Seq<u8>) -> u32
    recommends
        s.len() >= 4,
{
    ((s[0] as u32) << 24u32) | ((s[1] as u32) << 16u32) | ((s[2] as u32) << 8u32) | (s[3] as u32)
}

/// The number whose big-endian form is the first eight bytes of `s`.
pub open spec fn u64_of(s: Seq<u8>) -> u64
    recommends
        s.len() >= 8,
{
    ((s[0] as u64) << 56u64) | ((s[1] as u64) << 48u64) | ((s[2] as u64) << 40u64) | ((s[3] as u64)
        << 32u64) | ((s[4] as u64) << 24u64) | ((s[5] as u64) << 16u64) | ((s[6] as u64) << 8u64)
        | (s[7] as u64)
}

pub fn encode_u16(x: u16) -> (r: [u8; 2])
    ensures
        r@ == be_u16(x),
{
    let r = [(x >> 8u16) as u8, x as u8];
    assert(r@ =~= be_u16(x));
    r
}

pub fn encode_u32(x: u32) -> (r: [u8; 4])
    ensures
        r@ == be_u32(x),
{
    let r = [(x >> 24u32) as u8, (x >> 16u32) as u8, (x >> 8u32) as u8, x as u8];
    assert(r@ =~= be_u32(x));
    r
}

pub fn encode_u64(x: u64) -> (r: [u8; 8])
    ensures
        r@ == be_u64(x),
{
    let r = [
        (x >> 56u64) as u8,
        (x >> 48u64) as u8,
        (x >> 40u64) as u8,
        (x >> 32u64) as u8,
        (x >> 24u64) as u8,
        (x >> 16u64) as u8,
        (x >> 8u64) as u8,
        x as u8,
    ];
    assert(r@ =~= be_u64(x));
    r
}

/// Reads a big-endian `u16` from a slice that the caller has cut to width.
pub fn decode_u16(b: &[u8]) -> (r: u16)
    requires
        b@.len() == 2,
    ensures
        r == u16_of(b@),
{
    ((b[0] as u16) << 8u16) | (b[1] as u16)
}

/// Reads a big-endian `u32` from a slice that the caller has cut to width.
pub fn decode_u32(b: &[u8]) -> (r: u32)
    requires
        b@.len() == 4,
    ensures
        r == u32_of(b@),
{
    ((b[0] as u32) << 24u32) | ((b[1] as u32) << 16u32) | ((b[2] as u32) << 8u32) | (b[3] as u32)
}

/// Reads a big-endian `u64` from a slice that the caller has cut to width.
pub fn decode_u64(b: &[u8]) -> (r: u64)
    requires
        b@.len() == 8,
    ensures
        r == u64_of(b@),
{
    ((b[0] as u64) << 56u64) | ((b[1] as u64) << 48u64) | ((b[2] as u64) << 40u64) | ((b[3] as u64)
        << 32u64) | ((b[4] as u64) << 24u64) | ((b[5] as u64) << 16u64) | ((b[6] as u64) << 8u64)
        | (b[7] as u64)
}

/// Reading back the bytes that `be_u16` gives yields the number.
pub proof fn lemma_u16_round_trip(x: u16)
    ensures
        u16_of(be_u16(x)) == x,
{
    let (a, b) = ((x >> 8u16) as u8, x as u8);
    assert((((a as u16) << 8u16) | (b as u16)) == x) by (bit_vector)
        requires
            a == (x >> 8u16) as u8,
            b == x as u8,
    ;
}

/// Reading back the bytes that `be_u32` gives yields the number.
pub proof fn lemma_u32_round_trip(x: u32)
    ensures
        u32_of(be_u32(x)) == x,
{
    let (a, b, c, d) = ((x >> 24u32) as u8, (x >> 16u32) as u8, (x >> 8u32) as u8, x as u8);
    assert((((a as u32) << 24u32) | ((b as u32) << 16u32) | ((c as u32) << 8u32) | (d as u32))
        == x) by (bit_vector)
        requires
            a == (x >> 24u32) as u8,
            b == (x >> 16u32) as u8,
            c == (x >> 8u32) as u8,
            d == x as u8,
    ;
}

/// Reading back the bytes that `be_u64` gives yields the number.
pub proof fn lemma_u64_round_trip(x: u64)
    ensures
        u64_of(be_u64(x)) == x,
{
    let b0 = (x >> 56u64) as u8;
    let b1 = (x >> 48u64) as u8;
    let b2 = (x >> 40u64) as u8;
    let b3 = (x >> 32u64) as u8;
    let b4 = (x >> 24u64) as u8;
    let b5 = (x >> 16u64) as u8;
    let b6 = (x >> 8u64) as u8;
    let b7 = x as u8;
    assert((((b0 as u64) << 56u64) | ((b1 as u64) << 48u64) | ((b2 as u64) << 40u64) | ((b3 as u64)
        << 32u64) | ((b4 as u64) << 24u64) | ((b5 as u64) << 16u64) | ((b6 as u64) << 8u64) | (
    b7 as u64)) == x) by (bit_vector)
        requires
            b0 == (x >> 56u64) as u8,
            b1 == (x >> 48u64) as u8,
            b2 == (x >> 40u64) as u8,
            b3 == (x >> 32u64) as u8,
            b4 == (x >> 24u64) as u8,
            b5 == (x >> 16u64) as u8,
            b6 == (x >> 8u64) as u8,
            b7 == x as u8,
    ;
}

} // verus!
