//! Wire values: the self-describing tagged values that cross the boundary
//! between host and guest.
//!
//! Executable code carries a wire value as an `rmpv::Value`. Contracts speak of
//! its mathematical model, [`Wire`], which [`wire_of`] assigns to every value.
//! The items in this module that touch `rmpv` are trusted: their contracts
//! restate what the accessors and constructors of `rmpv::Value` do, and are not
//! proved here.
use vstd::prelude::*;

verus! {

/// `rmpv::Value`, opaque to the verifier.
#[verifier::external_type_specification]
#[verifier::external_body]
pub struct ExValue(rmpv::Value);

/// The model of a wire value: one case per wire kind.
///
/// Floating-point payloads are modelled by their IEEE-754 bit patterns, so that
/// two models are equal exactly when the values are bit-for-bit the same.
pub enum Wire {
    /// The nil value.
    Nil,
    /// A boolean.
    Bool(bool),
    /// An integer. Those of the wire format lie between `-(2^63)` and
    /// `2^64 - 1`.
    Int(int),
    /// A single-precision float, by its bits.
    F32(u32),
    /// A double-precision float, by its bits.
    F64(u64),
    /// A string of valid UTF-8.
    Str(Seq<char>),
    /// A string whose bytes are not valid UTF-8.
    RawStr(Seq<u8>),
    /// A byte array.
    Binary(Seq<u8>),
    /// A sequence of values.
    Array(Seq<Wire>),
    /// A map: its key-value pairs, in wire order.
    Pairs(Seq<(Wire, Wire)>),
    /// An extension value: an application-defined type tag and its bytes.
    Ext(i8, Seq<u8>),
}

impl Wire {
    /// The integer, where it is one that the wire format has: an integer
    /// between `-(2^63)` and `2^64 - 1`.
    pub open spec fn as_integer(self) -> Option<int> {
        match self {
            Wire::Int(n) => if i64::MIN <= n <= u64::MAX {
                Some(n)
            } else {
                None
            },
            _ => None,
        }
    }

    /// The integer as an `i64`, where it is an integer that fits.
    pub open spec fn as_i64(self) -> Option<i64> {
        match self {
            Wire::Int(n) => if i64::MIN <= n <= i64::MAX {
                Some(n as i64)
            } else {
                None
            },
            _ => None,
        }
    }

    /// The integer as a `u64`, where it is an integer that fits.
    pub open spec fn as_u64(self) -> Option<u64> {
        match self {
            Wire::Int(n) => if 0 <= n <= u64::MAX {
                Some(n as u64)
            } else {
                None
            },
            _ => None,
        }
    }

    /// The boolean, where it is one.
    pub open spec fn as_bool(self) -> Option<bool> {
        match self {
            Wire::Bool(b) => Some(b),
            _ => None,
        }
    }

    /// The bits of the single-precision float, where it is exactly that kind.
    pub open spec fn as_f32_bits(self) -> Option<u32> {
        match self {
            Wire::F32(bits) => Some(bits),
            _ => None,
        }
    }

    /// The bits of the double-precision float, where it is exactly that kind.
    pub open spec fn as_f64_bits(self) -> Option<u64> {
        match self {
            Wire::F64(bits) => Some(bits),
            _ => None,
        }
    }

    /// The characters of the string, where it is a string of valid UTF-8.
    pub open spec fn as_str(self) -> Option<Seq<char>> {
        match self {
            Wire::Str(s) => Some(s),
            _ => None,
        }
    }

    /// The items of the array, where it is one.
    pub open spec fn as_array(self) -> Option<Seq<Wire>> {
        match self {
            Wire::Array(items) => Some(items),
            _ => None,
        }
    }
}

/// The model of a value. Every `rmpv::Value` has exactly one.
pub uninterp spec fn wire_of(v: rmpv::Value) -> Wire;

/// The models of a sequence of values, item by item.
pub open spec fn wires_of(items: Seq<rmpv::Value>) -> Seq<Wire> {
    items.map_values(|v: rmpv::Value| wire_of(v))
}

/// `rmpv::Value::as_i64`: the integer, if the value is an integer within the
/// range of `i64`, and nothing otherwise.
pub assume_specification[ rmpv::Value::as_i64 ](v: &rmpv::Value) -> (r: Option<i64>)
    ensures
        r == wire_of(*v).as_i64(),
;

/// `rmpv::Value::as_u64`: the integer, if the value is an integer that is not
/// negative, and nothing otherwise.
pub assume_specification[ rmpv::Value::as_u64 ](v: &rmpv::Value) -> (r: Option<u64>)
    ensures
        r == wire_of(*v).as_u64(),
;

/// `rmpv::Value::as_bool`: the boolean, if the value is one.
pub assume_specification[ rmpv::Value::as_bool ](v: &rmpv::Value) -> (r: Option<bool>)
    ensures
        r == wire_of(*v).as_bool(),
;

/// `rmpv::Value::as_str`: the text, if the value is a string of valid UTF-8.
pub assume_specification<'a>[ rmpv::Value::as_str ](v: &'a rmpv::Value) -> (r: Option<&'a str>)
    ensures
        match r {
            Some(s) => wire_of(*v).as_str() == Some(s@),
            None => wire_of(*v).as_str() is None,
        },
;

/// `rmpv::Value::as_array`: the items, if the value is an array.
pub assume_specification<'a>[ rmpv::Value::as_array ](v: &'a rmpv::Value) -> (r: Option<
    &'a Vec<rmpv::Value>,
>)
    ensures
        match r {
            Some(items) => wire_of(*v).as_array() == Some(wires_of(items@)),
            None => wire_of(*v).as_array() is None,
        },
;

/// The bits of the float in an `rmpv::Value::F32`; nothing for every other
/// variant, a double included.
#[verifier::external_body]
pub(crate) fn single_bits(v: &rmpv::Value) -> (r: Option<u32>)
    ensures
        r == wire_of(*v).as_f32_bits(),
{
    match v {
        rmpv::Value::F32(x) => Some(x.to_bits()),
        _ => None,
    }
}

/// The bits of the float in an `rmpv::Value::F64`; nothing for every other
/// variant, a single included.
#[verifier::external_body]
pub(crate) fn double_bits(v: &rmpv::Value) -> (r: Option<u64>)
    ensures
        r == wire_of(*v).as_f64_bits(),
{
    match v {
        rmpv::Value::F64(x) => Some(x.to_bits()),
        _ => None,
    }
}

/// `Clone::clone` of `rmpv::Value`: a value with the same model.
#[verifier::external_body]
pub(crate) fn duplicate(v: &rmpv::Value) -> (r: rmpv::Value)
    ensures
        wire_of(r) == wire_of(*v),
{
    v.clone()
}

/// `rmpv::Value::from` on an `i64`: the integer value.
#[verifier::external_body]
pub(crate) fn integer_value(n: i64) -> (r: rmpv::Value)
    ensures
        wire_of(r) == Wire::Int(n as int),
{
    rmpv::Value::from(n)
}

/// `rmpv::Value::from` on a `u8`: the integer value.
#[verifier::external_body]
pub(crate) fn byte_value(n: u8) -> (r: rmpv::Value)
    ensures
        wire_of(r) == Wire::Int(n as int),
{
    rmpv::Value::from(n)
}

/// `rmpv::Value::Array`: the array value that holds the given items in order.
#[verifier::external_body]
pub(crate) fn array_value(items: Vec<rmpv::Value>) -> (r: rmpv::Value)
    ensures
        wire_of(r) == Wire::Array(wires_of(items@)),
{
    rmpv::Value::Array(items)
}

} // verus!
