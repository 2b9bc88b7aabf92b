//! Properties of the decoding rule, stated over its mathematical model.
use vstd::prelude::*;

use crate::decimal::{digits_value, is_decimal_u64};
use crate::numberish::{
    decode_scalar, decode_text, failure_message, lemma_cast_is_reinterpret, not_a_number_prefix,
    DecodeFailure, Scalar,
};

verus! {

/// Every unsigned encoding of a 64-bit value, at any width wide enough to
/// hold it, decodes to exactly that value.
pub proof fn lemma_unsigned_widths_agree(v: u64)
    ensures
        decode_scalar(Scalar::U64(v)) == Ok::<u64, DecodeFailure>(v),
        v <= u32::MAX ==> decode_scalar(Scalar::U32(v as u32)) == Ok::<u64, DecodeFailure>(v),
        v <= u16::MAX ==> decode_scalar(Scalar::U16(v as u16)) == Ok::<u64, DecodeFailure>(v),
        v <= u8::MAX ==> decode_scalar(Scalar::U8(v as u8)) == Ok::<u64, DecodeFailure>(v),
{
}

/// A signed integer of any width decodes to the unsigned 64-bit value with
/// its two's-complement bit pattern: the native conversion of its 64-bit
/// sign extension, which adds 2^64 to a negative value.
pub proof fn lemma_signed_wraps(v: i64)
    ensures
        decode_scalar(Scalar::I64(v)) == Ok::<u64, DecodeFailure>(v as u64),
        v >= 0 ==> decode_scalar(Scalar::I64(v)) == Ok::<u64, DecodeFailure>(v as u64)
            && (v as u64) as int == v as int,
        v < 0 ==> decode_scalar(Scalar::I64(v)) == Ok::<u64, DecodeFailure>(v as u64)
            && (v as u64) as int == v as int + 0x1_0000_0000_0000_0000,
        i32::MIN <= v <= i32::MAX ==> decode_scalar(Scalar::I32(v as i32)) == decode_scalar(
            Scalar::I64(v),
        ),
        i16::MIN <= v <= i16::MAX ==> decode_scalar(Scalar::I16(v as i16)) == decode_scalar(
            Scalar::I64(v),
        ),
        i8::MIN <= v <= i8::MAX ==> decode_scalar(Scalar::I8(v as i8)) == decode_scalar(
            Scalar::I64(v),
        ),
{
    lemma_cast_is_reinterpret(v);
}

/// A valid base-10 numeral decodes to the value it denotes, the same value
/// that the bare number decodes to.
pub proof fn lemma_text_agrees_with_number(t: Seq<char>)
    requires
        is_decimal_u64(t),
    ensures
        decode_text(t) == Ok::<u64, DecodeFailure>(digits_value(t) as u64),
        decode_text(t) == decode_scalar(Scalar::U64(digits_value(t) as u64)),
{
}

/// Text that is not a valid base-10 unsigned 64-bit numeral is refused, and
/// the report of the failure ends with that text verbatim.
pub proof fn lemma_rejected_text_is_reported(t: Seq<char>)
    requires
        !is_decimal_u64(t),
    ensures
        decode_text(t) == Err::<u64, DecodeFailure>(DecodeFailure::NotANumber(t)),
        failure_message(DecodeFailure::NotANumber(t)) == not_a_number_prefix() + t,
        failure_message(DecodeFailure::NotANumber(t)).subrange(
            not_a_number_prefix().len() as int,
            failure_message(DecodeFailure::NotANumber(t)).len() as int,
        ) == t,
{
    let m = failure_message(DecodeFailure::NotANumber(t));
    assert(m.subrange(not_a_number_prefix().len() as int, m.len() as int) =~= t);
}

} // verus!
