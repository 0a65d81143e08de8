//! The failures of the calling convention, by kind.
use crate::wire::{wire_of, Wire};
use vstd::prelude::*;

verus! {

/// What a typed decode operation required of the value it was given.
#[derive(Clone, Copy, Debug, PartialEq, Eq)]
pub enum Expected {
    /// An integer.
    Integer,
    /// A double-precision float.
    F64,
    /// A single-precision float.
    F32,
    /// A string of valid UTF-8.
    Str,
    /// A boolean.
    Bool,
    /// The array that holds the parts of a decimal.
    DecimalParts,
    /// An integer, as the precision of a decimal.
    DecimalPrecision,
    /// An integer, as the scale of a decimal.
    DecimalScale,
    /// An integer, as the high half of a decimal's value.
    DecimalHigh,
    /// An integer, as the low half of a decimal's value.
    DecimalLow,
}

/// The width that an integer did not fit.
#[derive(Clone, Copy, Debug, PartialEq, Eq)]
pub enum Target {
    /// A signed 16-bit integer.
    I16,
    /// A signed 32-bit integer.
    I32,
    /// A signed 64-bit integer.
    I64,
    /// The precision of a decimal, an unsigned 8-bit integer.
    DecimalPrecision,
    /// The scale of a decimal, an unsigned 8-bit integer.
    DecimalScale,
    /// The high half of a decimal's value, a signed 64-bit integer.
    DecimalHigh,
    /// The low half of a decimal's value, a signed 64-bit integer.
    DecimalLow,
}

/// What is wrong with a sized envelope.
#[derive(Clone, Copy, Debug, PartialEq, Eq)]
pub enum EnvelopeFault {
    /// The buffer is shorter than the length prefix.
    TruncatedPrefix { found: usize },
    /// The length prefix is negative.
    NegativeLength { declared: i32 },
    /// The declared length is not the number of bytes that follow the prefix.
    LengthMismatch { declared: usize, remaining: usize },
    /// The payload is too long for its length to be written in the prefix.
    Oversized { len: usize },
}

/// What is wrong with the payload of an envelope.
#[derive(Clone, Copy, Debug, PartialEq, Eq)]
pub enum DecodeFault {
    /// The codec finds no value that it accepts at the start of the bytes.
    Malformed,
    /// A value was read, and bytes remain after it.
    TrailingBytes { consumed: u64, len: usize },
}

/// A value of the wrong shape.
#[derive(Clone, Debug, PartialEq)]
pub enum ShapeFault<V> {
    /// The value at the top of an input is not an array.
    NotArray { actual: V },
    /// An array does not have the number of elements that its use requires.
    WrongCount { expected: usize, found: usize },
}

/// A failure of the calling convention. `V` is the representation of the wire
/// values that a failure holds for diagnosis: [`UdfError`] in executable code,
/// `Failure<Wire>` in contracts.
#[derive(Clone, Debug, PartialEq)]
pub enum Failure<V> {
    /// The length prefix is malformed, or disagrees with the buffer.
    Envelope(EnvelopeFault),
    /// The payload does not parse as exactly one tagged value.
    Decode(DecodeFault),
    /// The value cannot be written in the tagged binary format.
    Encode,
    /// A value does not have the shape that its place requires.
    Shape(ShapeFault<V>),
    /// A value is not of the kind that a decode operation required.
    TypeMismatch { expected: Expected, actual: V },
    /// An integer does not fit the target width. `value` is the integer.
    Range { target: Target, value: i128 },
    /// The function that a call was made for failed for a reason of its own,
    /// which `message` tells.
    Function { message: String },
}

/// The failures that executable code returns.
pub type UdfError = Failure<rmpv::Value>;

impl View for ShapeFault<rmpv::Value> {
    type V = ShapeFault<Wire>;

    open spec fn view(&self) -> ShapeFault<Wire> {
        match *self {
            ShapeFault::NotArray { actual } => ShapeFault::NotArray { actual: wire_of(actual) },
            ShapeFault::WrongCount { expected, found } => ShapeFault::WrongCount {
                expected,
                found,
            },
        }
    }
}

impl View for Failure<rmpv::Value> {
    type V = Failure<Wire>;

    open spec fn view(&self) -> Failure<Wire> {
        match *self {
            Failure::Envelope(fault) => Failure::Envelope(fault),
            Failure::Decode(fault) => Failure::Decode(fault),
            Failure::Encode => Failure::Encode,
            Failure::Shape(fault) => Failure::Shape(fault@),
            Failure::TypeMismatch { expected, actual } => Failure::TypeMismatch {
                expected,
                actual: wire_of(actual),
            },
            Failure::Range { target, value } => Failure::Range { target, value },
            Failure::Function { message } => Failure::Function { message },
        }
    }
}

/// The model of an outcome: the success as it is, the failure by its view.
pub open spec fn outcome<T>(r: Result<T, UdfError>) -> Result<T, Failure<Wire>> {
    match r {
        Ok(x) => Ok(x),
        Err(e) => Err(e@),
    }
}

} // verus!
