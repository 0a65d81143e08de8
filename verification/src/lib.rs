//! A calling convention between a host and an isolated guest module whose only
//! channel is a flat linear memory.
//!
//! A call is one pass: the host hands over an input envelope, the guest reads
//! the argument list from it, applies a function, and hands back an output
//! envelope. This crate is the marshalling layer of the guest: the envelope
//! ([`envelope`]), the wire values and their codec ([`wire`], [`codec`]), the
//! typed projections ([`udf`]) and the pass itself ([`adapter`]). It works on
//! byte buffers; turning raw addresses into buffers and back is left to the
//! caller.
use crate::adapter::{bytes_outcome, read_outcome, result_outcome, value_outcome, wrap_udf};
use crate::error::{Failure, ShapeFault, Target, UdfError};
use crate::udf::{decode_i64, i64_of};
use crate::wire::{integer_value, wires_of, Wire};
use vstd::prelude::*;

pub mod adapter;
pub mod codec;
pub mod envelope;
pub mod error;
pub mod udf;
pub mod wire;

verus! {

/// The sum of two integers.
pub fn do_add(left: i64, right: i64) -> (sum: i64)
    requires
        i64::MIN <= left + right <= i64::MAX,
    ensures
        sum == left + right,
{
    left + right
}

/// What integer addition makes of an argument list: the sum of the first two
/// arguments. Further arguments are ignored. The checks come in order: there
/// are two arguments; the first, then the second, is an integer that fits an
/// `i64`; the sum fits an `i64`.
pub open spec fn sum_of(args: Seq<Wire>) -> Result<Wire, Failure<Wire>> {
    if args.len() < 2 {
        Err(Failure::Shape(ShapeFault::WrongCount { expected: 2, found: args.len() as usize }))
    } else {
        match i64_of(args[0]) {
            Err(e) => Err(e),
            Ok(left) => match i64_of(args[1]) {
                Err(e) => Err(e),
                Ok(right) => if i64::MIN <= left + right <= i64::MAX {
                    Ok(Wire::Int(left + right))
                } else {
                    Err(Failure::Range { target: Target::I64, value: (left + right) as i128 })
                },
            },
        }
    }
}

/// Integer addition on an argument list.
pub fn add_arguments(args: Vec<rmpv::Value>) -> (r: Result<rmpv::Value, UdfError>)
    ensures
        value_outcome(r) == sum_of(wires_of(args@)),
{
    if args.len() < 2 {
        return Err(Failure::Shape(ShapeFault::WrongCount { expected: 2, found: args.len() }));
    }
    let left = decode_i64(&args[0])?;
    let right = decode_i64(&args[1])?;
    let wide: i128 = left as i128 + right as i128;
    if wide < i64::MIN as i128 || wide > i64::MAX as i128 {
        return Err(Failure::Range { target: Target::I64, value: wide });
    }
    Ok(integer_value(do_add(left, right)))
}

/// What `add_i64` makes of an input buffer.
pub open spec fn add_outcome(input: Seq<u8>) -> Result<Seq<u8>, Failure<Wire>> {
    match read_outcome(input) {
        Err(e) => Err(e),
        Ok(args) => result_outcome(sum_of(args)),
    }
}

/// Integer addition as a call: from the input envelope that holds the two
/// integers to the output envelope that holds their sum.
pub fn add_i64(input: &[u8]) -> (r: Result<Vec<u8>, UdfError>)
    ensures
        bytes_outcome(r) == add_outcome(input@),
{
    wrap_udf(input, add_arguments)
}

} // verus!
