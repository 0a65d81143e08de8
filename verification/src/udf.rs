//! The typed value codec: narrow, fallible projections from wire values to
//! native types, and the decimal interchange shape.
//!
//! Every projection is pure. Its contract is one equation between the outcome
//! and a specification function on the model of the value it was given.
use crate::error::{outcome, Expected, Failure, ShapeFault, Target, UdfError};
use crate::wire::{
    array_value, byte_value, double_bits, duplicate, integer_value, single_bits, wire_of, wires_of,
    Wire,
};
use vstd::prelude::*;

verus! {

/// A fixed-precision decimal: an integer value with its precision and scale.
#[derive(Clone, Copy, Debug, PartialEq, Eq)]
pub struct Decimal {
    pub precision: u8,
    pub scale: u8,
    pub value: i128,
}

/// The type mismatch that names what was expected and the value found instead.
pub open spec fn mismatch(expected: Expected, actual: Wire) -> Failure<Wire> {
    Failure::TypeMismatch { expected, actual }
}

/// What narrowing to a width makes of a wire value: the integer, where the
/// value is an integer between `least` and `greatest`; a range error that
/// holds the integer, where it is an integer outside them; a type mismatch,
/// where it is no integer.
pub open spec fn narrow_of(
    w: Wire,
    least: int,
    greatest: int,
    expected: Expected,
    target: Target,
) -> Result<int, Failure<Wire>> {
    match w.as_integer() {
        Some(n) => if least <= n <= greatest {
            Ok(n)
        } else {
            Err(Failure::Range { target, value: n as i128 })
        },
        None => Err(mismatch(expected, w)),
    }
}

/// What `decode_i64` makes of a wire value.
pub open spec fn i64_of(w: Wire) -> Result<i64, Failure<Wire>> {
    match narrow_of(w, i64::MIN as int, i64::MAX as int, Expected::Integer, Target::I64) {
        Ok(n) => Ok(n as i64),
        Err(e) => Err(e),
    }
}

/// What `decode_i32` makes of a wire value.
pub open spec fn i32_of(w: Wire) -> Result<i32, Failure<Wire>> {
    match narrow_of(w, i32::MIN as int, i32::MAX as int, Expected::Integer, Target::I32) {
        Ok(n) => Ok(n as i32),
        Err(e) => Err(e),
    }
}

/// What `decode_i16` makes of a wire value.
pub open spec fn i16_of(w: Wire) -> Result<i16, Failure<Wire>> {
    match narrow_of(w, i16::MIN as int, i16::MAX as int, Expected::Integer, Target::I16) {
        Ok(n) => Ok(n as i16),
        Err(e) => Err(e),
    }
}

/// What `decode_f64` makes of a wire value.
pub open spec fn f64_bits_of(w: Wire) -> Result<u64, Failure<Wire>> {
    match w.as_f64_bits() {
        Some(bits) => Ok(bits),
        None => Err(mismatch(Expected::F64, w)),
    }
}

/// What `decode_f32` makes of a wire value.
pub open spec fn f32_bits_of(w: Wire) -> Result<u32, Failure<Wire>> {
    match w.as_f32_bits() {
        Some(bits) => Ok(bits),
        None => Err(mismatch(Expected::F32, w)),
    }
}

/// What `decode_bool` makes of a wire value.
pub open spec fn bool_of(w: Wire) -> Result<bool, Failure<Wire>> {
    match w.as_bool() {
        Some(b) => Ok(b),
        None => Err(mismatch(Expected::Bool, w)),
    }
}

/// What `decode_str` makes of a wire value.
pub open spec fn str_of(w: Wire) -> Result<Seq<char>, Failure<Wire>> {
    match w.as_str() {
        Some(s) => Ok(s),
        None => Err(mismatch(Expected::Str, w)),
    }
}

/// The integer in `v`, where `v` is an integer of the wire format.
fn integer_in(v: &rmpv::Value) -> (r: Option<i128>)
    ensures
        match r {
            Some(n) => wire_of(*v).as_integer() == Some(n as int),
            None => wire_of(*v).as_integer() is None,
        },
{
    match v.as_i64() {
        Some(n) => Some(n as i128),
        None => match v.as_u64() {
            Some(n) => Some(n as i128),
            None => None,
        },
    }
}

/// The integer in `v`, narrowed to the width between `least` and `greatest`.
fn decode_narrow(
    v: &rmpv::Value,
    least: i128,
    greatest: i128,
    expected: Expected,
    target: Target,
) -> (r: Result<i128, UdfError>)
    ensures
        match r {
            Ok(n) => narrow_of(wire_of(*v), least as int, greatest as int, expected, target)
                == Ok::<int, Failure<Wire>>(n as int),
            Err(e) => narrow_of(wire_of(*v), least as int, greatest as int, expected, target)
                == Err::<int, Failure<Wire>>(e@),
        },
{
    match integer_in(v) {
        Some(n) => if least <= n && n <= greatest {
            Ok(n)
        } else {
            Err(Failure::Range { target, value: n })
        },
        None => Err(Failure::TypeMismatch { expected, actual: duplicate(v) }),
    }
}

/// The integer in `v`: a type mismatch where `v` is no integer, a range error
/// where the integer does not fit an `i64`.
pub fn decode_i64(v: &rmpv::Value) -> (r: Result<i64, UdfError>)
    ensures
        outcome(r) == i64_of(wire_of(*v)),
{
    let n = decode_narrow(v, i64::MIN as i128, i64::MAX as i128, Expected::Integer, Target::I64)?;
    Ok(n as i64)
}

/// The integer in `v` as an `i32`: a type mismatch where `v` is no integer, a
/// range error where the integer does not fit.
pub fn decode_i32(v: &rmpv::Value) -> (r: Result<i32, UdfError>)
    ensures
        outcome(r) == i32_of(wire_of(*v)),
{
    let n = decode_narrow(v, i32::MIN as i128, i32::MAX as i128, Expected::Integer, Target::I32)?;
    Ok(n as i32)
}

/// The integer in `v` as an `i16`: a type mismatch where `v` is no integer, a
/// range error where the integer does not fit.
pub fn decode_i16(v: &rmpv::Value) -> (r: Result<i16, UdfError>)
    ensures
        outcome(r) == i16_of(wire_of(*v)),
{
    let n = decode_narrow(v, i16::MIN as i128, i16::MAX as i128, Expected::Integer, Target::I16)?;
    Ok(n as i16)
}

/// The IEEE-754 bits of the double in `v`. Only a double is accepted: an
/// integer or a single-precision float is a type mismatch.
pub fn decode_f64(v: &rmpv::Value) -> (r: Result<u64, UdfError>)
    ensures
        outcome(r) == f64_bits_of(wire_of(*v)),
{
    match double_bits(v) {
        Some(bits) => Ok(bits),
        None => Err(Failure::TypeMismatch { expected: Expected::F64, actual: duplicate(v) }),
    }
}

/// The IEEE-754 bits of the single-precision float in `v`. A double is not
/// narrowed: it is a type mismatch.
pub fn decode_f32(v: &rmpv::Value) -> (r: Result<u32, UdfError>)
    ensures
        outcome(r) == f32_bits_of(wire_of(*v)),
{
    match single_bits(v) {
        Some(bits) => Ok(bits),
        None => Err(Failure::TypeMismatch { expected: Expected::F32, actual: duplicate(v) }),
    }
}

/// The text in `v`, where `v` is a string of valid UTF-8.
pub fn decode_str(v: &rmpv::Value) -> (r: Result<&str, UdfError>)
    ensures
        match r {
            Ok(s) => str_of(wire_of(*v)) == Ok::<Seq<char>, Failure<Wire>>(s@),
            Err(e) => str_of(wire_of(*v)) == Err::<Seq<char>, Failure<Wire>>(e@),
        },
{
    match v.as_str() {
        Some(s) => Ok(s),
        None => Err(Failure::TypeMismatch { expected: Expected::Str, actual: duplicate(v) }),
    }
}

/// The boolean in `v`, where `v` is one.
pub fn decode_bool(v: &rmpv::Value) -> (r: Result<bool, UdfError>)
    ensures
        outcome(r) == bool_of(wire_of(*v)),
{
    match v.as_bool() {
        Some(b) => Ok(b),
        None => Err(Failure::TypeMismatch { expected: Expected::Bool, actual: duplicate(v) }),
    }
}

/// The low half of a decimal's value: its low 64 bits, read as a signed
/// integer.
pub open spec fn low_half(value: i128) -> int {
    let bits = value as int % 0x1_0000_0000_0000_0000;
    if bits >= 0x8000_0000_0000_0000 {
        bits - 0x1_0000_0000_0000_0000
    } else {
        bits
    }
}

/// The high half of a decimal's value: the value shifted right by 64 bits,
/// with the sign kept.
pub open spec fn high_half(value: i128) -> int {
    value as int / 0x1_0000_0000_0000_0000
}

/// The 64 bits of a low half, read without a sign.
pub open spec fn low_bits(low: i64) -> int {
    if low < 0 {
        low + 0x1_0000_0000_0000_0000
    } else {
        low as int
    }
}

/// The integer that two halves stand for: the high half shifted left by 64
/// bits, with the 64 bits of the low half below it. It always fits an `i128`.
pub open spec fn join_halves(high: i64, low: i64) -> int {
    high * 0x1_0000_0000_0000_0000 + low_bits(low)
}

/// The interchange shape of a decimal: the array of its precision, its scale,
/// and the high and the low half of its value, in that order.
pub open spec fn decimal_wire(d: Decimal) -> Wire {
    Wire::Array(
        seq![
            Wire::Int(d.precision as int),
            Wire::Int(d.scale as int),
            Wire::Int(high_half(d.value)),
            Wire::Int(low_half(d.value)),
        ],
    )
}

/// The precision or scale in one element of a decimal array.
pub open spec fn small_of(w: Wire, expected: Expected, target: Target) -> Result<
    u8,
    Failure<Wire>,
> {
    match narrow_of(w, u8::MIN as int, u8::MAX as int, expected, target) {
        Ok(n) => Ok(n as u8),
        Err(e) => Err(e),
    }
}

/// One half of the value in one element of a decimal array.
pub open spec fn half_of(w: Wire, expected: Expected, target: Target) -> Result<
    i64,
    Failure<Wire>,
> {
    match narrow_of(w, i64::MIN as int, i64::MAX as int, expected, target) {
        Ok(n) => Ok(n as i64),
        Err(e) => Err(e),
    }
}

/// The decimal that a precision, a scale and two halves make.
pub open spec fn decimal_from_parts(precision: u8, scale: u8, high: i64, low: i64) -> Decimal {
    Decimal { precision, scale, value: join_halves(high, low) as i128 }
}

/// What `decode_decimal` makes of a wire value. The checks come in a fixed
/// order, and the first that fails gives the failure: the value is an array; it
/// has four elements; the precision, then the scale, is an integer that fits
/// eight bits without a sign; the high half, then the low half, is an integer
/// that fits an `i64`. Every array that passes them holds a decimal.
pub open spec fn decimal_of(w: Wire) -> Result<Decimal, Failure<Wire>> {
    match w.as_array() {
        None => Err(mismatch(Expected::DecimalParts, w)),
        Some(parts) => if parts.len() != 4 {
            Err(Failure::Shape(ShapeFault::WrongCount { expected: 4, found: parts.len() as usize }))
        } else {
            match small_of(parts[0], Expected::DecimalPrecision, Target::DecimalPrecision) {
                Err(e) => Err(e),
                Ok(precision) => match small_of(
                    parts[1],
                    Expected::DecimalScale,
                    Target::DecimalScale,
                ) {
                    Err(e) => Err(e),
                    Ok(scale) => match half_of(
                        parts[2],
                        Expected::DecimalHigh,
                        Target::DecimalHigh,
                    ) {
                        Err(e) => Err(e),
                        Ok(high) => match half_of(
                            parts[3],
                            Expected::DecimalLow,
                            Target::DecimalLow,
                        ) {
                            Err(e) => Err(e),
                            Ok(low) => Ok(decimal_from_parts(precision, scale, high, low)),
                        },
                    },
                },
            }
        },
    }
}

/// The truncating cast gives the low half, the arithmetic shift the high half,
/// and the high half fits an `i64`.
proof fn lemma_halves(value: i128)
    ensures
        (#[verifier::truncate] (value as i64)) as int == low_half(value),
        (value >> 64) as int == high_half(value),
        i64::MIN <= high_half(value) <= i64::MAX,
{
    let high = value >> 64;
    let bits = value & 0xffff_ffff_ffff_ffff;
    assert(-0x8000_0000_0000_0000i128 <= (value >> 64) <= 0x7fff_ffff_ffff_ffffi128)
        by (bit_vector);
    assert(0 <= (value & 0xffff_ffff_ffff_ffff) <= 0xffff_ffff_ffff_ffffi128) by (bit_vector);
    assert((value >> 64) * 0x1_0000_0000_0000_0000 + (value & 0xffff_ffff_ffff_ffff) == value)
        by (bit_vector);
    assert((#[verifier::truncate] (value as i64)) as i128 == if (value & 0xffff_ffff_ffff_ffff)
        >= 0x8000_0000_0000_0000i128 {
        (value & 0xffff_ffff_ffff_ffff) - 0x1_0000_0000_0000_0000
    } else {
        (value & 0xffff_ffff_ffff_ffff) as int
    }) by (bit_vector);
    assert(high * 0x1_0000_0000_0000_0000 + bits == value);
}

/// The interchange shape of a decimal. It never fails.
pub fn encode_decimal(decimal: &Decimal) -> (r: Result<rmpv::Value, UdfError>)
    ensures
        r matches Ok(v) && wire_of(v) == decimal_wire(*decimal),
{
    proof {
        lemma_halves(decimal.value);
    }
    let low: i64 = #[verifier::truncate] (decimal.value as i64);
    let high: i64 = (decimal.value >> 64) as i64;
    let mut parts: Vec<rmpv::Value> = Vec::new();
    parts.push(byte_value(decimal.precision));
    parts.push(byte_value(decimal.scale));
    parts.push(integer_value(high));
    parts.push(integer_value(low));
    let decimal_array = array_value(parts);
    proof {
        assert(wires_of(parts@) =~= decimal_wire(*decimal)->Array_0);
    }
    Ok(decimal_array)
}

/// The decimal in a wire value of the interchange shape.
pub fn decode_decimal(v: &rmpv::Value) -> (r: Result<Decimal, UdfError>)
    ensures
        outcome(r) == decimal_of(wire_of(*v)),
{
    let decimal_array = match v.as_array() {
        Some(items) => items,
        None => {
            return Err(
                Failure::TypeMismatch { expected: Expected::DecimalParts, actual: duplicate(v) },
            );
        },
    };
    if decimal_array.len() != 4 {
        return Err(
            Failure::Shape(ShapeFault::WrongCount { expected: 4, found: decimal_array.len() }),
        );
    }
    let precision = decode_narrow(
        &decimal_array[0],
        u8::MIN as i128,
        u8::MAX as i128,
        Expected::DecimalPrecision,
        Target::DecimalPrecision,
    )? as u8;
    let scale = decode_narrow(
        &decimal_array[1],
        u8::MIN as i128,
        u8::MAX as i128,
        Expected::DecimalScale,
        Target::DecimalScale,
    )? as u8;
    let high = decode_narrow(
        &decimal_array[2],
        i64::MIN as i128,
        i64::MAX as i128,
        Expected::DecimalHigh,
        Target::DecimalHigh,
    )? as i64;
    let low = decode_narrow(
        &decimal_array[3],
        i64::MIN as i128,
        i64::MAX as i128,
        Expected::DecimalLow,
        Target::DecimalLow,
    )? as i64;
    assert(((high as i128) << 64) == (high as i128) * 0x1_0000_0000_0000_0000) by (bit_vector);
    assert((#[verifier::truncate] (low as u64)) as int == if low < 0 {
        low + 0x1_0000_0000_0000_0000
    } else {
        low as int
    }) by (bit_vector);
    let bits: u64 = #[verifier::truncate] (low as u64);
    let value: i128 = ((high as i128) << 64) + (bits as i128);
    Ok(Decimal { precision, scale, value })
}

/// Decoding the interchange shape of a decimal gives the decimal back: the
/// same precision, the same scale and the same value, for every decimal.
pub proof fn decimal_round_trip(d: Decimal)
    ensures
        decimal_of(decimal_wire(d)) == Ok::<Decimal, Failure<Wire>>(d),
{
    lemma_halves(d.value);
    assert(join_halves(high_half(d.value) as i64, low_half(d.value) as i64) == d.value);
}

/// Two halves always stand for an `i128`, and splitting it gives the halves
/// back: every well-shaped array is the interchange shape of the decimal that
/// it decodes to.
pub proof fn halves_round_trip(high: i64, low: i64)
    ensures
        i128::MIN <= join_halves(high, low) <= i128::MAX,
        high_half(join_halves(high, low) as i128) == high,
        low_half(join_halves(high, low) as i128) == low,
{
}

/// Narrowing is range-checked: an integer of the wire format decodes as an
/// `i16` exactly where it fits sixteen bits, and is a range error that holds
/// the integer otherwise; so for an `i32` and an `i64`.
pub proof fn narrowing_is_range_checked(n: int)
    requires
        i64::MIN <= n <= u64::MAX,
    ensures
        i16_of(Wire::Int(n)) == if i16::MIN <= n <= i16::MAX {
            Ok::<i16, Failure<Wire>>(n as i16)
        } else {
            Err(Failure::Range { target: Target::I16, value: n as i128 })
        },
        i32_of(Wire::Int(n)) == if i32::MIN <= n <= i32::MAX {
            Ok::<i32, Failure<Wire>>(n as i32)
        } else {
            Err(Failure::Range { target: Target::I32, value: n as i128 })
        },
        i64_of(Wire::Int(n)) == if i64::MIN <= n <= i64::MAX {
            Ok::<i64, Failure<Wire>>(n as i64)
        } else {
            Err(Failure::Range { target: Target::I64, value: n as i128 })
        },
{
}

/// A decimal array has exactly four elements: every other count is a shape
/// error that names the count expected and the count found.
pub proof fn decimal_needs_four_parts(parts: Seq<Wire>)
    requires
        parts.len() != 4,
    ensures
        decimal_of(Wire::Array(parts)) == Err::<Decimal, Failure<Wire>>(
            Failure::Shape(ShapeFault::WrongCount { expected: 4, found: parts.len() as usize }),
        ),
{
}

/// Floats are never converted between widths: a double is no single, and a
/// single is no double.
pub proof fn floats_keep_their_width(single: u32, double: u64)
    ensures
        f32_bits_of(Wire::F32(single)) == Ok::<u32, Failure<Wire>>(single),
        f32_bits_of(Wire::F64(double)) == Err::<u32, Failure<Wire>>(
            mismatch(Expected::F32, Wire::F64(double)),
        ),
        f64_bits_of(Wire::F64(double)) == Ok::<u64, Failure<Wire>>(double),
        f64_bits_of(Wire::F32(single)) == Err::<u64, Failure<Wire>>(
            mismatch(Expected::F64, Wire::F32(single)),
        ),
{
}

} // verus!
