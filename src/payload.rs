//! One encoder and one decoder for each kind of message that carries a payload.
use vstd::prelude::*;

use crate::net::{
    GetBlocksPayload, GetObjectPayload, HelloPayload, NetError, NetResult, ProtocolVersion,
    PushBlocksPayload, PushObjectPayload,
};
use crate::wire::{
    be_u16, be_u64, decode_u16, decode_u64, encode_u16, encode_u64, lemma_u16_round_trip,
    lemma_u64_round_trip, u16_of, u64_of,
};

verus! {

/// Size in bytes of an encoded handshake.
pub const HELLO_LEN: usize = 12;

/// Size in bytes of one encoded id.
pub const ID_LEN: usize = 8;

/// A handshake on the wire: node id, major version, minor version.
pub open spec fn hello_bytes(p: HelloPayload) -> Seq<u8> {
    be_u64(p.node) + be_u16(p.version.major) + be_u16(p.version.minor)
}

/// What a handshake payload says; bytes past the twelfth are not read.
pub open spec fn parse_hello(s: Seq<u8>) -> NetResult<HelloPayload> {
    if s.len() < 12 {
        Err(NetError::DecodeError)
    } else {
        Ok(
            HelloPayload {
                node: u64_of(s.subrange(0, 8)),
                version: ProtocolVersion {
                    major: u16_of(s.subrange(8, 10)),
                    minor: u16_of(s.subrange(10, 12)),
                },
            },
        )
    }
}

/// A list of ids on the wire: eight bytes each, in order.
pub open spec fn ids_bytes(ids: Seq<u64>) -> Seq<u8>
    decreases ids.len(),
{
    if ids.len() == 0 {
        Seq::empty()
    } else {
        ids_bytes(ids.drop_last()) + be_u64(ids.last())
    }
}

/// The `i`-th id of a byte string cut into eight-byte pieces.
pub open spec fn id_at(s: Seq<u8>, i: int) -> u64 {
    u64_of(s.subrange(8 * i, 8 * i + 8))
}

/// The ids that a byte string holds, one for each full eight bytes.
pub open spec fn parse_ids(s: Seq<u8>) -> Seq<u64> {
    Seq::new(s.len() / 8, |i: int| id_at(s, i))
}

pub fn encode_hello(p: &HelloPayload) -> (r: Vec<u8>)
    ensures
        r@ == hello_bytes(*p),
{
    let mut v: Vec<u8> = Vec::new();
    v.extend_from_slice(&encode_u64(p.node));
    v.extend_from_slice(&encode_u16(p.version.major));
    v.extend_from_slice(&encode_u16(p.version.minor));
    assert(v@ =~= hello_bytes(*p));
    v
}

pub fn decode_hello(b: &[u8]) -> (r: NetResult<HelloPayload>)
    ensures
        r == parse_hello(b@),
{
    if b.len() < HELLO_LEN {
        return Err(NetError::DecodeError);
    }
    Ok(
        HelloPayload {
            node: decode_u64(&b[0..8]),
            version: ProtocolVersion { major: decode_u16(&b[8..10]), minor: decode_u16(&b[10..12]) },
        },
    )
}

pub fn encode_get_blocks(p: &GetBlocksPayload) -> (r: Vec<u8>)
    ensures
        r@ == ids_bytes(p.ids@),
{
    let mut v: Vec<u8> = Vec::new();
    let n = p.ids.len();
    let mut i: usize = 0;
    while i < n
        invariant
            n == p.ids@.len(),
            i <= n,
            v@ == ids_bytes(p.ids@.take(i as int)),
        decreases n - i,
    {
        v.extend_from_slice(&encode_u64(p.ids[i]));
        assert(p.ids@.take(i + 1).drop_last() =~= p.ids@.take(i as int));
        assert(v@ =~= ids_bytes(p.ids@.take(i + 1)));
        i = i + 1;
    }
    assert(p.ids@.take(n as int) =~= p.ids@);
    v
}

pub fn decode_get_blocks(b: &[u8]) -> (r: NetResult<GetBlocksPayload>)
    ensures
        r is Ok <==> b@.len() % 8 == 0,
        r is Err ==> r->Err_0 == NetError::DecodeError,
        r is Ok ==> r->Ok_0.ids@ == parse_ids(b@),
{
    if b.len() % ID_LEN != 0 {
        return Err(NetError::DecodeError);
    }
    let len = b.len();
    let n = len / ID_LEN;
    let mut ids: Vec<u64> = Vec::with_capacity(n);
    let mut i: usize = 0;
    while i < n
        invariant
            len == b@.len(),
            n == b@.len() / 8,
            b@.len() % 8 == 0,
            i <= n,
            ids@ == parse_ids(b@).take(i as int),
        decreases n - i,
    {
        assert(8 * i + 8 <= b@.len()) by (nonlinear_arith)
            requires
                i < n,
                n == b@.len() / 8,
        ;
        let start = i * ID_LEN;
        let id = decode_u64(&b[start..start + ID_LEN]);
        ids.push(id);
        assert(ids@ =~= parse_ids(b@).take(i + 1));
        i = i + 1;
    }
    assert(parse_ids(b@).take(n as int) =~= parse_ids(b@));
    Ok(GetBlocksPayload { ids })
}

pub fn encode_push_blocks(p: &PushBlocksPayload) -> (r: Vec<u8>)
    ensures
        r@ == p.raw@,
{
    copy_bytes(&p.raw)
}

pub fn decode_push_blocks(b: &[u8]) -> (r: NetResult<PushBlocksPayload>)
    ensures
        r is Ok,
        r->Ok_0.raw@ == b@,
{
    Ok(PushBlocksPayload { raw: slice_to_bytes(b) })
}

pub fn encode_get_object(p: &GetObjectPayload) -> (r: Vec<u8>)
    ensures
        r@ == be_u64(p.id),
{
    slice_to_bytes(&encode_u64(p.id))
}

pub fn decode_get_object(b: &[u8]) -> (r: NetResult<GetObjectPayload>)
    ensures
        r is Ok <==> b@.len() == 8,
        r is Err ==> r->Err_0 == NetError::DecodeError,
        r is Ok ==> r->Ok_0.id == u64_of(b@),
{
    if b.len() != ID_LEN {
        return Err(NetError::DecodeError);
    }
    Ok(GetObjectPayload { id: decode_u64(b) })
}

pub fn encode_push_object(p: &PushObjectPayload) -> (r: Vec<u8>)
    ensures
        r@ == p.raw@,
{
    copy_bytes(&p.raw)
}

pub fn decode_push_object(b: &[u8]) -> (r: NetResult<PushObjectPayload>)
    ensures
        r is Ok,
        r->Ok_0.raw@ == b@,
{
    Ok(PushObjectPayload { raw: slice_to_bytes(b) })
}

/// A fresh vector holding the bytes of `b`.
fn slice_to_bytes(b: &[u8]) -> (r: Vec<u8>)
    ensures
        r@ == b@,
{
    let mut v: Vec<u8> = Vec::with_capacity(b.len());
    v.extend_from_slice(b);
    assert(v@ =~= b@);
    v
}

/// A fresh vector holding the bytes of `v`.
fn copy_bytes(v: &Vec<u8>) -> (r: Vec<u8>)
    ensures
        r@ == v@,
{
    slice_to_bytes(v.as_slice())
}

/// The bytes of a list of ids: eight per id, the `i`-th eight holding the `i`-th id.
proof fn lemma_ids_bytes_layout(ids: Seq<u64>)
    ensures
        ids_bytes(ids).len() == 8 * ids.len(),
        forall|i: int|
            0 <= i < ids.len() ==> #[trigger] ids_bytes(ids).subrange(8 * i, 8 * i + 8) == be_u64(
                ids[i],
            ),
    decreases ids.len(),
{
    if ids.len() > 0 {
        let init = ids.drop_last();
        lemma_ids_bytes_layout(init);
        let s = ids_bytes(ids);
        assert forall|i: int| 0 <= i < ids.len() implies #[trigger] s.subrange(8 * i, 8 * i + 8)
            == be_u64(ids[i]) by {
            if i < init.len() {
                assert(s.subrange(8 * i, 8 * i + 8) =~= ids_bytes(init).subrange(8 * i, 8 * i + 8));
            } else {
                assert(s.subrange(8 * i, 8 * i + 8) =~= be_u64(ids.last()));
            }
        }
    }
}

/// Every handshake reads back from its own encoding.
pub proof fn lemma_hello_round_trip(p: HelloPayload)
    ensures
        hello_bytes(p).len() == 12,
        parse_hello(hello_bytes(p)) == Ok::<HelloPayload, NetError>(p),
{
    let s = hello_bytes(p);
    assert(s.subrange(0, 8) =~= be_u64(p.node));
    assert(s.subrange(8, 10) =~= be_u16(p.version.major));
    assert(s.subrange(10, 12) =~= be_u16(p.version.minor));
    lemma_u64_round_trip(p.node);
    lemma_u16_round_trip(p.version.major);
    lemma_u16_round_trip(p.version.minor);
}

/// Every list of ids reads back from its own encoding, in the same order.
pub proof fn lemma_ids_round_trip(ids: Seq<u64>)
    ensures
        ids_bytes(ids).len() % 8 == 0,
        parse_ids(ids_bytes(ids)) == ids,
{
    lemma_ids_bytes_layout(ids);
    let s = ids_bytes(ids);
    assert forall|i: int| 0 <= i < ids.len() implies #[trigger] id_at(s, i) == ids[i] by {
        lemma_u64_round_trip(ids[i]);
    }
    assert(parse_ids(s) =~= ids);
}

/// Every object id reads back from its own encoding.
pub proof fn lemma_object_id_round_trip(id: u64)
    ensures
        be_u64(id).len() == 8,
        u64_of(be_u64(id)) == id,
{
    lemma_u64_round_trip(id);
}

} // verus!
