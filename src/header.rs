use vstd::prelude::*;
use vstd::slice::slice_subrange;
use crate::error::HeaderError;

verus! {

/// Size in bytes of an envelope header: two 32-bit fields.
pub const HEADER_SIZE: usize = 8;

/// The leading `(type_id, version)` pair of an envelope.
#[derive(Debug, Clone, Copy, PartialEq, Eq, Structural)]
pub struct Header {
    pub type_id: u32,
    pub version: u32,
}

/// The little-endian bytes of `x`, which is how rkyv lays out a `u32`.
pub open spec fn u32_le_bytes(x: u32) -> Seq<u8> {
    seq![
        (x & 0xff) as u8,
        ((x >> 8u32) & 0xff) as u8,
        ((x >> 16u32) & 0xff) as u8,
        (x >> 24u32) as u8,
    ]
}

/// The `u32` whose little-endian bytes are `b0 b1 b2 b3`.
pub open spec fn u32_from_le(b0: u8, b1: u8, b2: u8, b3: u8) -> u32 {
    (b0 as u32) | ((b1 as u32) << 8u32) | ((b2 as u32) << 16u32) | ((b3 as u32) << 24u32)
}

/// The `u32` stored little-endian at offset `at` of `b`.
pub open spec fn u32_at(b: Seq<u8>, at: int) -> u32 {
    u32_from_le(b[at], b[at + 1], b[at + 2], b[at + 3])
}

/// The eight bytes that encode a header.
pub open spec fn header_bytes(h: Header) -> Seq<u8> {
    u32_le_bytes(h.type_id) + u32_le_bytes(h.version)
}

/// The header that the first eight bytes of `b` encode.
pub open spec fn header_of(b: Seq<u8>) -> Header {
    Header { type_id: u32_at(b, 0), version: u32_at(b, 4) }
}

/// Reading back the little-endian bytes of `x` gives `x`.
pub proof fn lemma_u32_le_round_trip(x: u32)
    ensures
        u32_at(u32_le_bytes(x), 0) == x,
{
    let b0 = (x & 0xff) as u8;
    let b1 = ((x >> 8u32) & 0xff) as u8;
    let b2 = ((x >> 16u32) & 0xff) as u8;
    let b3 = (x >> 24u32) as u8;
    assert((b0 as u32) | ((b1 as u32) << 8u32) | ((b2 as u32) << 16u32) | ((b3 as u32) << 24u32)
        == x) by (bit_vector)
        requires
            b0 == (x & 0xff) as u8,
            b1 == ((x >> 8u32) & 0xff) as u8,
            b2 == ((x >> 16u32) & 0xff) as u8,
            b3 == (x >> 24u32) as u8,
    ;
}

/// Decoding the encoding of a header gives the header back.
pub proof fn lemma_header_round_trip(h: Header, rest: Seq<u8>)
    ensures
        header_of(header_bytes(h) + rest) == h,
{
    let b = header_bytes(h) + rest;
    lemma_u32_le_round_trip(h.type_id);
    lemma_u32_le_round_trip(h.version);
    assert(b.subrange(0, 4) =~= u32_le_bytes(h.type_id));
    assert(b.subrange(4, 8) =~= u32_le_bytes(h.version));
    assert(u32_at(b, 0) == u32_at(b.subrange(0, 4), 0));
    assert(u32_at(b, 4) == u32_at(b.subrange(4, 8), 0));
}

/// Appends the little-endian bytes of `x` to `out`.
fn push_u32_le(out: &mut Vec<u8>, x: u32)
    ensures
        final(out)@ == old(out)@ + u32_le_bytes(x),
{
    out.push((x & 0xff) as u8);
    out.push(((x >> 8u32) & 0xff) as u8);
    out.push(((x >> 16u32) & 0xff) as u8);
    out.push((x >> 24u32) as u8);
    assert(final(out)@ =~= old(out)@ + u32_le_bytes(x));
}

/// Encodes a header as eight bytes, in the representation rkyv gives a pair
/// of `u32`.
pub fn encode_header(h: Header) -> (r: Vec<u8>)
    ensures
        r@ == header_bytes(h),
        r@.len() == HEADER_SIZE,
{
    let mut out: Vec<u8> = Vec::new();
    push_u32_le(&mut out, h.type_id);
    push_u32_le(&mut out, h.version);
    assert(out@ =~= header_bytes(h));
    out
}

#[verifier::external_type_specification]
#[verifier::external_body]
pub struct ExEngineError(rkyv::rancor::Error);

/// Relies on `rkyv::access` for `Archived<(u32, u32)>`: rkyv validates the
/// root, which it places at `len - 8` (here offset 0), and the archived tuple
/// is `repr(C)` with two little-endian `u32_le` fields.
#[verifier::external_body]
fn engine_read_pair(bytes: &[u8]) -> (r: Result<(u32, u32), rkyv::rancor::Error>)
    requires
        bytes@.len() == HEADER_SIZE,
    ensures
        r matches Ok(p) ==> p.0 == u32_at(bytes@, 0) && p.1 == u32_at(bytes@, 4),
{
    rkyv::access::<rkyv::Archived<(u32, u32)>, rkyv::rancor::Error>(bytes).map(
        |h| (h.0.to_native(), h.1.to_native()),
    )
}

/// Reads the header of an envelope without looking at its payload.
///
/// A buffer shorter than a header gives `TooShort`. Otherwise the engine
/// checks the first eight bytes; when it refuses them (for instance, when
/// they are not aligned for it) the result is `Malformed`, and when it
/// accepts them the result is the header those bytes encode.
pub fn peek(buf: &[u8]) -> (r: Result<Header, HeaderError>)
    ensures
        buf@.len() < HEADER_SIZE <==> r == Err::<Header, HeaderError>(HeaderError::TooShort),
        r is Ok ==> r == Ok::<Header, HeaderError>(header_of(buf@)),
        r == Err::<Header, HeaderError>(HeaderError::Malformed) ==> buf@.len() >= HEADER_SIZE,
{
    if buf.len() < HEADER_SIZE {
        return Err(HeaderError::TooShort);
    }
    let head = slice_subrange(buf, 0, HEADER_SIZE);
    match engine_read_pair(head) {
        Ok(p) => {
            assert(head@ == buf@.subrange(0, 8));
            Ok(Header { type_id: p.0, version: p.1 })
        },
        Err(_) => Err(HeaderError::Malformed),
    }
}

} // verus!
