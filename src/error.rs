use vstd::prelude::*;
use vstd::string::StringExecFns;

verus! {

/// The header of an envelope could not be read.
#[derive(Debug, Clone, Copy, PartialEq, Eq, Structural)]
pub enum HeaderError {
    /// The buffer is shorter than a header.
    TooShort,
    /// The serialization engine refused the header bytes.
    Malformed,
}

/// An envelope belongs to another type: `(expected, actual)` type ids.
#[derive(Debug, Clone, Copy, PartialEq, Eq, Structural)]
pub struct UnexpectedTypeError(pub u32, pub u32);

/// An envelope carries a version that its type does not declare.
#[derive(Debug, Clone, Copy, PartialEq, Eq, Structural)]
pub struct UnsupportedVersionError(pub u32);

/// Why an envelope could not be accessed, in the order the checks run.
#[derive(Debug, Clone, Copy, PartialEq, Eq, Structural)]
pub enum AccessError {
    HeaderTooShort,
    HeaderMalformed,
    TypeMismatch(UnexpectedTypeError),
    UnsupportedVersion(UnsupportedVersionError),
    /// The header passed, but the payload failed the engine's validation.
    PayloadValidationFailed,
}

/// The decimal digit for `d < 10`.
pub open spec fn digit_char(d: nat) -> char {
    ((d + 48) as u8) as char
}

/// The decimal digits of `n`, most significant first, with no sign or padding.
pub open spec fn decimal(n: nat) -> Seq<char>
    decreases n,
{
    if n < 10 {
        seq![digit_char(n)]
    } else {
        decimal(n / 10).push(digit_char(n % 10))
    }
}

/// Relies on `ToString` for `u32`, which writes the number in decimal.
#[verifier::external_body]
fn u32_to_decimal(n: u32) -> (r: String)
    ensures
        r@ == decimal(n as nat),
{
    n.to_string()
}

impl UnexpectedTypeError {
    /// The text of this error: `Expected type_id <expected>, got <actual>`.
    pub fn message(&self) -> (r: String)
        ensures
            r@ == "Expected type_id "@ + decimal(self.0 as nat) + ", got "@ + decimal(
                self.1 as nat,
            ),
    {
        let mut s = String::from_str("Expected type_id ");
        s.append(u32_to_decimal(self.0).as_str());
        s.append(", got ");
        s.append(u32_to_decimal(self.1).as_str());
        s
    }
}

impl UnsupportedVersionError {
    /// The text of this error: `Unsupported version <version>`.
    pub fn message(&self) -> (r: String)
        ensures
            r@ == "Unsupported version "@ + decimal(self.0 as nat),
    {
        let mut s = String::from_str("Unsupported version ");
        s.append(u32_to_decimal(self.0).as_str());
        s
    }
}

impl AccessError {
    /// The text of this error; a type or version mismatch reads as the
    /// inner error's text.
    pub fn message(&self) -> (r: String)
        ensures
            r@ == match self {
                AccessError::HeaderTooShort => "Buffer too short for an envelope header"@,
                AccessError::HeaderMalformed => "Envelope header failed validation"@,
                AccessError::TypeMismatch(e) => "Expected type_id "@ + decimal(e.0 as nat)
                    + ", got "@ + decimal(e.1 as nat),
                AccessError::UnsupportedVersion(e) => "Unsupported version "@ + decimal(
                    e.0 as nat,
                ),
                AccessError::PayloadValidationFailed => "Envelope payload failed validation"@,
            },
    {
        match self {
            AccessError::HeaderTooShort => String::from_str("Buffer too short for an envelope header"),
            AccessError::HeaderMalformed => String::from_str("Envelope header failed validation"),
            AccessError::TypeMismatch(e) => e.message(),
            AccessError::UnsupportedVersion(e) => e.message(),
            AccessError::PayloadValidationFailed => String::from_str(
                "Envelope payload failed validation",
            ),
        }
    }
}

} // verus!
