use vstd::prelude::*;

verus! {

/// The CRC-32 checksum of the UTF-8 bytes of a name.
pub uninterp spec fn crc32_of_name(name: Seq<char>) -> u32;

/// Relies on `const_crc32::crc32` over `name.as_bytes()`: a CRC-32 checksum,
/// a function of the bytes alone.
#[verifier::external_body]
fn crc32_name(name: &str) -> (r: u32)
    ensures
        r == crc32_of_name(name@),
{
    const_crc32::crc32(name.as_bytes())
}

/// The stable 32-bit identifier of a type, derived from its name.
pub fn derive_id(name: &str) -> (r: u32)
    ensures
        r == crc32_of_name(name@),
{
    crc32_name(name)
}

} // verus!
