use vstd::prelude::*;
use vstd::slice::slice_subrange;
use crate::error::{AccessError, HeaderError, UnexpectedTypeError, UnsupportedVersionError};
use crate::header::{
    encode_header, header_bytes, u32_le_bytes, header_of, lemma_header_round_trip, peek, Header, HEADER_SIZE,
};

verus! {

/// The bytes of an envelope: the header, then the payload as the engine
/// serialized it.
pub open spec fn envelope_bytes(type_id: u32, version: u32, payload: Seq<u8>) -> Seq<u8> {
    header_bytes(Header { type_id, version }) + payload
}

/// Whether `version` is one of the ids `0 .. variant_count` of a type.
pub open spec fn valid_version(version: u32, variant_count: u32) -> bool {
    version < variant_count
}

/// What the header checks decide for a header that was read: the type check
/// first, then the version check.
pub open spec fn header_outcome(h: Header, expected_type_id: u32, variant_count: u32) -> Result<
    u32,
    AccessError,
> {
    if h.type_id != expected_type_id {
        Err(AccessError::TypeMismatch(UnexpectedTypeError(expected_type_id, h.type_id)))
    } else if !valid_version(h.version, variant_count) {
        Err(AccessError::UnsupportedVersion(UnsupportedVersionError(h.version)))
    } else {
        Ok(h.version)
    }
}

/// What reading an envelope gives when the engine accepts its header: the
/// version and the payload region.
pub open spec fn access_outcome(b: Seq<u8>, expected_type_id: u32, variant_count: u32) -> Result<
    (u32, Seq<u8>),
    AccessError,
> {
    if b.len() < HEADER_SIZE {
        Err(AccessError::HeaderTooShort)
    } else {
        match header_outcome(header_of(b), expected_type_id, variant_count) {
            Ok(v) => Ok((v, b.subrange(HEADER_SIZE as int, b.len() as int))),
            Err(e) => Err(e),
        }
    }
}

/// Builds an envelope from a header and an already serialized payload.
pub fn write_envelope(type_id: u32, version: u32, payload: &[u8]) -> (r: Vec<u8>)
    ensures
        r@ == envelope_bytes(type_id, version, payload@),
{
    let mut out = encode_header(Header { type_id, version });
    let mut i: usize = 0;
    while i < payload.len()
        invariant
            i <= payload@.len(),
            out@ == envelope_bytes(type_id, version, payload@.subrange(0, i as int)),
        decreases payload@.len() - i,
    {
        out.push(payload[i]);
        i = i + 1;
        assert(payload@.subrange(0, i as int) =~= payload@.subrange(0, i - 1).push(payload@[i - 1]));
        assert(out@ =~= envelope_bytes(type_id, version, payload@.subrange(0, i as int)));
    }
    assert(payload@.subrange(0, payload@.len() as int) =~= payload@);
    out
}

/// Whether `version` is one of the ids `0 .. variant_count` of a type.
pub fn is_valid_version_id(version: u32, variant_count: u32) -> (r: bool)
    ensures
        r == valid_version(version, variant_count),
{
    version < variant_count
}

/// Runs the type check and then the version check on a header that was read.
pub fn check_header(h: Header, expected_type_id: u32, variant_count: u32) -> (r: Result<
    u32,
    AccessError,
>)
    ensures
        r == header_outcome(h, expected_type_id, variant_count),
{
    if h.type_id != expected_type_id {
        Err(AccessError::TypeMismatch(UnexpectedTypeError(expected_type_id, h.type_id)))
    } else if !is_valid_version_id(h.version, variant_count) {
        Err(AccessError::UnsupportedVersion(UnsupportedVersionError(h.version)))
    } else {
        Ok(h.version)
    }
}

/// Reads an envelope of the type with id `expected_type_id` and
/// `variant_count` versions, cheapest check first, and returns its version
/// and its payload region, borrowed from `buf`.
///
/// The payload bytes are not looked at: validating them as the shape of the
/// returned version is the engine's work, and is reported as
/// `PayloadValidationFailed`.
pub fn access(buf: &[u8], expected_type_id: u32, variant_count: u32) -> (r: Result<
    (u32, &[u8]),
    AccessError,
>)
    ensures
        match r {
            Ok((v, p)) => access_outcome(buf@, expected_type_id, variant_count) == Ok::<
                (u32, Seq<u8>),
                AccessError,
            >((v, p@)),
            Err(e) => access_outcome(buf@, expected_type_id, variant_count) == Err::<
                (u32, Seq<u8>),
                AccessError,
            >(e) || (e == AccessError::HeaderMalformed && buf@.len() >= HEADER_SIZE),
        },
{
    let h = match peek(buf) {
        Ok(h) => h,
        Err(HeaderError::TooShort) => return Err(AccessError::HeaderTooShort),
        Err(HeaderError::Malformed) => return Err(AccessError::HeaderMalformed),
    };
    match check_header(h, expected_type_id, variant_count) {
        Ok(v) => Ok((v, slice_subrange(buf, HEADER_SIZE, buf.len()))),
        Err(e) => Err(e),
    }
}

/// Reading back an envelope of a declared version, with the type id it was
/// written with, gives that version and exactly the payload that was written.
pub proof fn lemma_round_trip(type_id: u32, version: u32, variant_count: u32, payload: Seq<u8>)
    requires
        valid_version(version, variant_count),
    ensures
        access_outcome(envelope_bytes(type_id, version, payload), type_id, variant_count) == Ok::<
            (u32, Seq<u8>),
            AccessError,
        >((version, payload)),
{
    let b = envelope_bytes(type_id, version, payload);
    lemma_header_round_trip(Header { type_id, version }, payload);
    assert(b.subrange(HEADER_SIZE as int, b.len() as int) =~= payload);
}

/// The header read from a buffer depends on its first eight bytes alone,
/// whatever follows them.
pub proof fn lemma_header_independent(a: Seq<u8>, b: Seq<u8>)
    requires
        a.len() >= HEADER_SIZE,
        b.len() >= HEADER_SIZE,
        a.subrange(0, HEADER_SIZE as int) == b.subrange(0, HEADER_SIZE as int),
    ensures
        header_of(a) == header_of(b),
{
    assert forall|i: int| 0 <= i < HEADER_SIZE implies a[i] == b[i] by {
        assert(a[i] == a.subrange(0, HEADER_SIZE as int)[i]);
        assert(b[i] == b.subrange(0, HEADER_SIZE as int)[i]);
    }
}

/// Reading an envelope written for type id `actual` as type id `expected`
/// fails with exactly `TypeMismatch(expected, actual)`, whatever the
/// version and the payload.
pub proof fn lemma_type_mismatch(
    actual: u32,
    expected: u32,
    version: u32,
    variant_count: u32,
    payload: Seq<u8>,
)
    requires
        actual != expected,
    ensures
        access_outcome(envelope_bytes(actual, version, payload), expected, variant_count) == Err::<
            (u32, Seq<u8>),
            AccessError,
        >(AccessError::TypeMismatch(UnexpectedTypeError(expected, actual))),
{
    lemma_header_round_trip(Header { type_id: actual, version }, payload);
}

/// Overwriting only the version field of an envelope with a version the type
/// does not declare makes reading fail with exactly that version, whatever
/// the payload bytes are.
pub proof fn lemma_version_rejected(
    type_id: u32,
    version: u32,
    new_version: u32,
    variant_count: u32,
    payload: Seq<u8>,
)
    requires
        !valid_version(new_version, variant_count),
    ensures
        ({
            let b = envelope_bytes(type_id, version, payload);
            let changed = b.subrange(0, 4) + u32_le_bytes(new_version) + b.subrange(
                HEADER_SIZE as int,
                b.len() as int,
            );
            access_outcome(changed, type_id, variant_count) == Err::<(u32, Seq<u8>), AccessError>(
                AccessError::UnsupportedVersion(UnsupportedVersionError(new_version)),
            )
        }),
{
    let b = envelope_bytes(type_id, version, payload);
    let changed = b.subrange(0, 4) + u32_le_bytes(new_version) + b.subrange(
        HEADER_SIZE as int,
        b.len() as int,
    );
    assert(changed =~= envelope_bytes(type_id, new_version, payload));
    lemma_header_round_trip(Header { type_id, version: new_version }, payload);
}

/// The version that reading returns, and so the shape the payload is read
/// with, is the one in the header, whatever the payload bytes are.
pub proof fn lemma_dispatch_by_header(b: Seq<u8>, expected_type_id: u32, variant_count: u32)
    ensures
        access_outcome(b, expected_type_id, variant_count) matches Ok((v, p)) ==> v
            == header_of(b).version && p == b.subrange(HEADER_SIZE as int, b.len() as int),
{
}

} // verus!
