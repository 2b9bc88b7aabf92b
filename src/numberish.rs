//! The flexible decoding rule: any integer scalar, or a decimal string, to one
//! unsigned 64-bit value.
use vstd::prelude::*;

use crate::decimal::{decimal_u64, parse_u64};

verus! {

/// What a structured-data decoder presents for one field: a signed or
/// unsigned integer of some width, a string, or anything else (a boolean, a
/// float, null, a sequence, a map).
pub enum Scalar {
    I8(i8),
    U8(u8),
    I16(i16),
    U16(u16),
    I32(i32),
    U32(u32),
    I64(i64),
    U64(u64),
    Str(String),
    Other,
}

/// The canonical value of a flexible unsigned 64-bit field.
#[derive(Debug, Clone, Copy, PartialEq, Eq, Structural)]
pub struct Numberish(pub u64);

/// Why a scalar could not be decoded.
#[derive(Debug, Clone)]
pub enum DecodeError {
    /// A scalar kind that the rule does not accept.
    InvalidType,
    /// A string that is not a base-10 unsigned 64-bit numeral; holds that string.
    NotANumber(String),
}

/// The mathematical form of a `DecodeError`.
pub enum DecodeFailure {
    InvalidType,
    NotANumber(Seq<char>),
}

impl View for DecodeError {
    type V = DecodeFailure;

    open spec fn view(&self) -> DecodeFailure {
        match self {
            DecodeError::InvalidType => DecodeFailure::InvalidType,
            DecodeError::NotANumber(s) => DecodeFailure::NotANumber(s@),
        }
    }
}

/// The unsigned 64-bit value with the same two's-complement bit pattern as
/// the signed value `v` (which lies in the signed 64-bit range).
pub open spec fn reinterpret(v: int) -> u64 {
    if v < 0 {
        (v + 0x1_0000_0000_0000_0000) as u64
    } else {
        v as u64
    }
}

/// Native conversion of a signed 64-bit value to unsigned keeps the bit
/// pattern.
pub(crate) proof fn lemma_cast_is_reinterpret(v: i64)
    ensures
        v as u64 == reinterpret(v as int),
{
    if v < 0 {
        let m: i64 = (-(v + 1)) as i64;
        assert(v < 0 && m == -(v + 1) ==> #[verifier::truncate] (v as u64) == 0xFFFF_FFFF_FFFF_FFFFu64 - (m as u64)) by (bit_vector);
    } else {
        assert(v >= 0 ==> #[verifier::truncate] (v as u64) as int == v as int) by (bit_vector);
    }
}

/// Signed 64-bit to unsigned 64-bit, wrapping negative values.
fn wrap_i64(v: i64) -> (r: u64)
    ensures
        r == reinterpret(v as int),
{
    proof {
        lemma_cast_is_reinterpret(v);
    }
    v as u64
}

/// What the rule accepts, in the words reported when a decoder asks. The
/// wording is kept as it has always been reported, although the accepted
/// range ends at 2^64 - 1.
pub open spec fn expecting_text() -> Seq<char> {
    "an integer between 0 and 2^127"@
}

pub open spec fn not_a_number_prefix() -> Seq<char> {
    "string cannot be converted to Numberish: "@
}

pub open spec fn invalid_type_prefix() -> Seq<char> {
    "invalid type, expected "@
}

/// The text that reports a failure.
pub open spec fn failure_message(f: DecodeFailure) -> Seq<char> {
    match f {
        DecodeFailure::InvalidType => invalid_type_prefix() + expecting_text(),
        DecodeFailure::NotANumber(s) => not_a_number_prefix() + s,
    }
}

/// What decoding the text `t` gives: its value, or a failure naming `t`.
pub open spec fn decode_text(t: Seq<char>) -> Result<u64, DecodeFailure> {
    match decimal_u64(t) {
        Some(n) => Ok(n),
        None => Err(DecodeFailure::NotANumber(t)),
    }
}

/// What decoding the scalar `s` gives.
pub open spec fn decode_scalar(s: Scalar) -> Result<u64, DecodeFailure> {
    match s {
        Scalar::I8(v) => Ok(reinterpret(v as int)),
        Scalar::U8(v) => Ok(v as u64),
        Scalar::I16(v) => Ok(reinterpret(v as int)),
        Scalar::U16(v) => Ok(v as u64),
        Scalar::I32(v) => Ok(reinterpret(v as int)),
        Scalar::U32(v) => Ok(v as u64),
        Scalar::I64(v) => Ok(reinterpret(v as int)),
        Scalar::U64(v) => Ok(v),
        Scalar::Str(t) => decode_text(t@),
        Scalar::Other => Err(DecodeFailure::InvalidType),
    }
}

/// The mathematical form of a decoding result.
pub open spec fn outcome(r: Result<Numberish, DecodeError>) -> Result<u64, DecodeFailure> {
    match r {
        Ok(n) => Ok(n.0),
        Err(e) => Err(e@),
    }
}

impl DecodeError {
    /// The text that reports this failure.
    pub fn message(&self) -> (r: String)
        ensures
            r@ == failure_message(self@),
    {
        match self {
            DecodeError::InvalidType => {
                let head = String::from_str("invalid type, expected ");
                head.concat(NumberishVisitor.expecting())
            },
            DecodeError::NotANumber(s) => {
                let head = String::from_str("string cannot be converted to Numberish: ");
                head.concat(s.as_str())
            },
        }
    }
}

/// The decoding rule, one method per scalar kind.
#[derive(Debug, Clone, Copy)]
pub struct NumberishVisitor;

impl NumberishVisitor {
    /// The description of what is accepted.
    pub fn expecting(&self) -> (r: &'static str)
        ensures
            r@ == expecting_text(),
    {
        "an integer between 0 and 2^127"
    }

    pub fn visit_i8(self, value: i8) -> (r: Result<Numberish, DecodeError>)
        ensures
            outcome(r) == decode_scalar(Scalar::I8(value)),
    {
        Ok(Numberish(wrap_i64(value as i64)))
    }

    pub fn visit_u8(self, value: u8) -> (r: Result<Numberish, DecodeError>)
        ensures
            outcome(r) == decode_scalar(Scalar::U8(value)),
    {
        Ok(Numberish(value as u64))
    }

    pub fn visit_i16(self, value: i16) -> (r: Result<Numberish, DecodeError>)
        ensures
            outcome(r) == decode_scalar(Scalar::I16(value)),
    {
        Ok(Numberish(wrap_i64(value as i64)))
    }

    pub fn visit_u16(self, value: u16) -> (r: Result<Numberish, DecodeError>)
        ensures
            outcome(r) == decode_scalar(Scalar::U16(value)),
    {
        Ok(Numberish(value as u64))
    }

    pub fn visit_i32(self, value: i32) -> (r: Result<Numberish, DecodeError>)
        ensures
            outcome(r) == decode_scalar(Scalar::I32(value)),
    {
        Ok(Numberish(wrap_i64(value as i64)))
    }

    pub fn visit_u32(self, value: u32) -> (r: Result<Numberish, DecodeError>)
        ensures
            outcome(r) == decode_scalar(Scalar::U32(value)),
    {
        Ok(Numberish(value as u64))
    }

    pub fn visit_u64(self, value: u64) -> (r: Result<Numberish, DecodeError>)
        ensures
            outcome(r) == decode_scalar(Scalar::U64(value)),
    {
        Ok(Numberish(value))
    }

    pub fn visit_i64(self, value: i64) -> (r: Result<Numberish, DecodeError>)
        ensures
            outcome(r) == decode_scalar(Scalar::I64(value)),
    {
        Ok(Numberish(wrap_i64(value)))
    }

    pub fn visit_string(self, value: String) -> (r: Result<Numberish, DecodeError>)
        ensures
            outcome(r) == decode_text(value@),
    {
        match parse_u64(value.as_str()) {
            Some(parsed) => Ok(Numberish(parsed)),
            None => Err(DecodeError::NotANumber(value)),
        }
    }

    pub fn visit_str(self, value: &str) -> (r: Result<Numberish, DecodeError>)
        ensures
            outcome(r) == decode_text(value@),
    {
        match parse_u64(value) {
            Some(parsed) => Ok(Numberish(parsed)),
            None => Err(DecodeError::NotANumber(String::from_str(value))),
        }
    }
}

impl Numberish {
    /// Decodes one scalar by the flexible rule.
    pub fn deserialize(scalar: Scalar) -> (r: Result<Numberish, DecodeError>)
        ensures
            outcome(r) == decode_scalar(scalar),
    {
        let visitor = NumberishVisitor;
        match scalar {
            Scalar::I8(v) => visitor.visit_i8(v),
            Scalar::U8(v) => visitor.visit_u8(v),
            Scalar::I16(v) => visitor.visit_i16(v),
            Scalar::U16(v) => visitor.visit_u16(v),
            Scalar::I32(v) => visitor.visit_i32(v),
            Scalar::U32(v) => visitor.visit_u32(v),
            Scalar::I64(v) => visitor.visit_i64(v),
            Scalar::U64(v) => visitor.visit_u64(v),
            Scalar::Str(t) => visitor.visit_string(t),
            Scalar::Other => Err(DecodeError::InvalidType),
        }
    }
}

} // verus!
