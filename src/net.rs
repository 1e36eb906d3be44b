//! The values that travel in frames, and the errors of the framing layer.
use vstd::prelude::*;

verus! {

/// The type of a message. Each kind has a one-byte code on the wire.
#[derive(Clone, Copy, Debug, PartialEq, Eq, Structural)]
pub enum FrameKind {
    Hello,
    Caps,
    GetBlocks,
    PushBlocks,
    GetObject,
    PushObject,
    Ping,
    Pong,
}

/// The protocol version that a node announces in its handshake.
#[derive(Clone, Copy, Debug, PartialEq, Eq, Structural)]
pub struct ProtocolVersion {
    pub major: u16,
    pub minor: u16,
}

/// The envelope in front of every payload.
///
/// `flags` is an opaque bitfield whose meaning belongs to callers; this layer
/// carries it unchanged. `length` is the byte count of the payload that follows.
#[derive(Clone, Copy, Debug, PartialEq, Eq, Structural)]
pub struct FrameHeader {
    pub kind: FrameKind,
    pub flags: u8,
    pub length: u32,
}

/// One complete message: a header and the payload bytes it announces.
#[derive(Clone, Debug)]
pub struct Frame {
    pub header: FrameHeader,
    pub payload: Vec<u8>,
}

impl Frame {
    /// The header announces exactly as many bytes as the payload holds.
    pub open spec fn wf(&self) -> bool {
        self.payload@.len() == self.header.length as nat
    }
}

/// Handshake: who is speaking, and which protocol version it talks.
#[derive(Clone, Copy, Debug, PartialEq, Eq, Structural)]
pub struct HelloPayload {
    pub node: u64,
    pub version: ProtocolVersion,
}

/// A request for blocks, by id, in the order wanted.
#[derive(Clone, Debug)]
pub struct GetBlocksPayload {
    pub ids: Vec<u64>,
}

/// Blocks in whatever form their owner gave them; this layer does not look inside.
#[derive(Clone, Debug)]
pub struct PushBlocksPayload {
    pub raw: Vec<u8>,
}

/// A request for one object, by id.
#[derive(Clone, Copy, Debug, PartialEq, Eq, Structural)]
pub struct GetObjectPayload {
    pub id: u64,
}

/// An object in whatever form its owner gave it; this layer does not look inside.
#[derive(Clone, Debug)]
pub struct PushObjectPayload {
    pub raw: Vec<u8>,
}

/// What can go wrong while framing, decoding or moving bytes.
#[derive(Clone, Copy, Debug, PartialEq, Eq, Structural)]
pub enum NetError {
    /// The header is too short, names no known kind, or disagrees with its payload.
    InvalidFrame,
    /// A payload has the wrong size for its kind.
    DecodeError,
    /// The transport's stream ended before the bytes asked for arrived.
    Closed,
    /// The transport gave up waiting.
    Timeout,
    /// Any other failure of the transport, with the code it reported.
    Io(i32),
}

pub type NetResult<T> = Result<T, NetError>;

/// Whether two byte strings hold the same bytes.
fn bytes_equal(a: &[u8], b: &[u8]) -> (r: bool)
    ensures
        r == (a@ == b@),
{
    if a.len() != b.len() {
        return false;
    }
    let mut i: usize = 0;
    while i < a.len()
        invariant
            a@.len() == b@.len(),
            i <= a@.len(),
            a@.take(i as int) == b@.take(i as int),
        decreases a@.len() - i,
    {
        if a[i] != b[i] {
            return false;
        }
        assert(a@.take(i + 1) =~= a@.take(i as int).push(a@[i as int]));
        assert(b@.take(i + 1) =~= b@.take(i as int).push(b@[i as int]));
        i = i + 1;
    }
    assert(a@ =~= a@.take(i as int));
    assert(b@ =~= b@.take(i as int));
    true
}

/// Whether two lists of ids hold the same ids in the same order.
fn ids_equal(a: &[u64], b: &[u64]) -> (r: bool)
    ensures
        r == (a@ == b@),
{
    if a.len() != b.len() {
        return false;
    }
    let mut i: usize = 0;
    while i < a.len()
        invariant
            a@.len() == b@.len(),
            i <= a@.len(),
            a@.take(i as int) == b@.take(i as int),
        decreases a@.len() - i,
    {
        if a[i] != b[i] {
            return false;
        }
        assert(a@.take(i + 1) =~= a@.take(i as int).push(a@[i as int]));
        assert(b@.take(i + 1) =~= b@.take(i as int).push(b@[i as int]));
        i = i + 1;
    }
    assert(a@ =~= a@.take(i as int));
    assert(b@ =~= b@.take(i as int));
    true
}

impl PartialEq for Frame {
    fn eq(&self, o: &Frame) -> (r: bool) {
        self.header == o.header && bytes_equal(self.payload.as_slice(), o.payload.as_slice())
    }
}

impl vstd::std_specs::cmp::PartialEqSpecImpl for Frame {
    open spec fn obeys_eq_spec() -> bool {
        true
    }

    open spec fn eq_spec(&self, o: &Frame) -> bool {
        self.header == o.header && self.payload@ == o.payload@
    }
}

impl PartialEq for GetBlocksPayload {
    fn eq(&self, o: &GetBlocksPayload) -> (r: bool) {
        ids_equal(self.ids.as_slice(), o.ids.as_slice())
    }
}

impl vstd::std_specs::cmp::PartialEqSpecImpl for GetBlocksPayload {
    open spec fn obeys_eq_spec() -> bool {
        true
    }

    open spec fn eq_spec(&self, o: &GetBlocksPayload) -> bool {
        self.ids@ == o.ids@
    }
}

impl PartialEq for PushBlocksPayload {
    fn eq(&self, o: &PushBlocksPayload) -> (r: bool) {
        bytes_equal(self.raw.as_slice(), o.raw.as_slice())
    }
}

impl vstd::std_specs::cmp::PartialEqSpecImpl for PushBlocksPayload {
    open spec fn obeys_eq_spec() -> bool {
        true
    }

    open spec fn eq_spec(&self, o: &PushBlocksPayload) -> bool {
        self.raw@ == o.raw@
    }
}

impl PartialEq for PushObjectPayload {
    fn eq(&self, o: &PushObjectPayload) -> (r: bool) {
        bytes_equal(self.raw.as_slice(), o.raw.as_slice())
    }
}

impl vstd::std_specs::cmp::PartialEqSpecImpl for PushObjectPayload {
    open spec fn obeys_eq_spec() -> bool {
        true
    }

    open spec fn eq_spec(&self, o: &PushObjectPayload) -> bool {
        self.raw@ == o.raw@
    }
}

} // verus!
