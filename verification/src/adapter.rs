//! The call adapter: one pass from an input envelope, through a function
//! supplied by the caller, to an output envelope.
//!
//! The first failure ends the pass and is what the caller gets.
use crate::codec::{pack, packed, unpack, unpacked};
use crate::envelope::{
    declared_length, envelope_payload, envelope_round_trip, open_envelope, seal_envelope, sealed,
    SIZE_NUM_BYTES,
};
use crate::error::{DecodeFault, EnvelopeFault, Failure, ShapeFault, UdfError};
use crate::wire::{duplicate, wire_of, wires_of, Wire};
use vstd::prelude::*;

verus! {

/// The model of an outcome that holds one wire value.
pub open spec fn value_outcome(r: Result<rmpv::Value, UdfError>) -> Result<Wire, Failure<Wire>> {
    match r {
        Ok(v) => Ok(wire_of(v)),
        Err(e) => Err(e@),
    }
}

/// The model of an outcome that holds an argument list.
pub open spec fn items_outcome(r: Result<Vec<rmpv::Value>, UdfError>) -> Result<
    Seq<Wire>,
    Failure<Wire>,
> {
    match r {
        Ok(items) => Ok(wires_of(items@)),
        Err(e) => Err(e@),
    }
}

/// The model of an outcome that holds bytes.
pub open spec fn bytes_outcome(r: Result<Vec<u8>, UdfError>) -> Result<Seq<u8>, Failure<Wire>> {
    match r {
        Ok(bytes) => Ok(bytes@),
        Err(e) => Err(e@),
    }
}

/// What the codec's reading of a payload amounts to: the value, where the
/// codec read one and took every byte of the payload for it.
pub open spec fn whole_value_of(parsed: Option<(Wire, nat)>, len: nat) -> Result<
    Wire,
    Failure<Wire>,
> {
    match parsed {
        None => Err(Failure::Decode(DecodeFault::Malformed)),
        Some((w, consumed)) => if consumed == len {
            Ok(w)
        } else {
            Err(
                Failure::Decode(
                    DecodeFault::TrailingBytes { consumed: consumed as u64, len: len as usize },
                ),
            )
        },
    }
}

/// The one value that a payload holds.
pub open spec fn payload_value(payload: Seq<u8>) -> Result<Wire, Failure<Wire>> {
    whole_value_of(unpacked(payload), payload.len())
}

/// The argument list in the value at the top of an input: the items of the
/// array; a shape error for any other value.
pub open spec fn arguments_of(w: Wire) -> Result<Seq<Wire>, Failure<Wire>> {
    match w.as_array() {
        Some(items) => Ok(items),
        None => Err(Failure::Shape(ShapeFault::NotArray { actual: w })),
    }
}

/// What the read stage makes of an input buffer.
pub open spec fn read_outcome(buf: Seq<u8>) -> Result<Seq<Wire>, Failure<Wire>> {
    match envelope_payload(buf) {
        Err(e) => Err(e),
        Ok(payload) => match payload_value(payload) {
            Err(e) => Err(e),
            Ok(w) => arguments_of(w),
        },
    }
}

/// What the write stage makes of a value.
pub open spec fn write_outcome(w: Wire) -> Result<Seq<u8>, Failure<Wire>> {
    match packed(w) {
        None => Err(Failure::Encode),
        Some(payload) => sealed(payload),
    }
}

/// What the write stage makes of the outcome of the invoke stage: a failure is
/// passed on, a value is written.
pub open spec fn result_outcome(out: Result<Wire, Failure<Wire>>) -> Result<
    Seq<u8>,
    Failure<Wire>,
> {
    match out {
        Err(e) => Err(e),
        Ok(w) => write_outcome(w),
    }
}

/// The value that the codec read from a payload of `len` bytes, given what the
/// codec returned: a decode error where it read none, or left bytes over.
pub fn whole_value(
    parsed: Result<(rmpv::Value, u64), rmp_serde::decode::Error>,
    len: usize,
) -> (r: Result<rmpv::Value, UdfError>)
    ensures
        match parsed {
            Ok((v, consumed)) => value_outcome(r) == whole_value_of(
                Some((wire_of(v), consumed as nat)),
                len as nat,
            ),
            Err(_) => value_outcome(r) == whole_value_of(None, len as nat),
        },
{
    match parsed {
        Ok((v, consumed)) => {
            if consumed == len as u64 {
                Ok(v)
            } else {
                Err(Failure::Decode(DecodeFault::TrailingBytes { consumed, len }))
            }
        },
        Err(_) => Err(Failure::Decode(DecodeFault::Malformed)),
    }
}

/// The argument list in the value at the top of an input.
pub fn arguments(input_value: &rmpv::Value) -> (r: Result<Vec<rmpv::Value>, UdfError>)
    ensures
        items_outcome(r) == arguments_of(wire_of(*input_value)),
{
    match input_value.as_array() {
        Some(items) => {
            let mut input_array: Vec<rmpv::Value> = Vec::new();
            let mut ix: usize = 0;
            while ix < items.len()
                invariant
                    ix <= items.len(),
                    input_array@.len() == ix,
                    forall|i: int| 0 <= i < ix ==> wire_of(input_array@[i]) == wire_of(items@[i]),
                decreases items.len() - ix,
            {
                input_array.push(duplicate(&items[ix]));
                ix += 1;
            }
            assert(wires_of(input_array@) =~= wires_of(items@));
            Ok(input_array)
        },
        None => Err(Failure::Shape(ShapeFault::NotArray { actual: duplicate(input_value) })),
    }
}

/// The read stage: the argument list in the envelope that `buf` holds.
///
/// `buf` is the whole envelope and nothing else. It is only read.
pub fn read_input(buf: &[u8]) -> (r: Result<Vec<rmpv::Value>, UdfError>)
    ensures
        items_outcome(r) == read_outcome(buf@),
{
    let input_buf = open_envelope(buf)?;
    let input_value = whole_value(unpack(input_buf), input_buf.len())?;
    arguments(&input_value)
}

/// The write stage: a fresh envelope that holds the value.
pub fn write_output(val: &rmpv::Value) -> (r: Result<Vec<u8>, UdfError>)
    ensures
        bytes_outcome(r) == write_outcome(wire_of(*val)),
{
    let mut serialized_output: Vec<u8> = Vec::new();
    let mut n: usize = 0;
    while n < SIZE_NUM_BYTES
        invariant
            n <= SIZE_NUM_BYTES,
            serialized_output@.len() == n,
        decreases SIZE_NUM_BYTES - n,
    {
        serialized_output.push(0);
        n += 1;
    }
    match pack(val, &mut serialized_output) {
        Ok(_) => {
            assert(serialized_output@.skip(SIZE_NUM_BYTES as int) =~= packed(wire_of(*val))->0);
            seal_envelope(serialized_output)
        },
        Err(_) => Err(Failure::Encode),
    }
}

/// The write stage on the outcome of the invoke stage: a failure is passed on,
/// a value is written.
pub fn write_result(out: Result<rmpv::Value, UdfError>) -> (r: Result<Vec<u8>, UdfError>)
    ensures
        bytes_outcome(r) == result_outcome(value_outcome(out)),
{
    match out {
        Ok(output) => write_output(&output),
        Err(e) => Err(e),
    }
}

/// One call: reads the argument list from the input envelope, hands it to `f`,
/// and writes what `f` returns into a fresh envelope.
///
/// Where the read stage fails, `f` is not called and the failure is returned.
/// Otherwise the result is what the write stage makes of one outcome of `f` on
/// the arguments read. A failure of `f` is returned as it is, whether it comes
/// from a typed decode operation or is a `Failure::Function` of its own.
pub fn wrap_udf<F>(input: &[u8], f: F) -> (r: Result<Vec<u8>, UdfError>) where
    F: Fn(Vec<rmpv::Value>) -> Result<rmpv::Value, UdfError>,

    requires
        forall|args: Vec<rmpv::Value>|
            read_outcome(input@) == Ok::<Seq<Wire>, Failure<Wire>>(wires_of(args@))
                ==> call_requires(f, (args,)),
    ensures
        match read_outcome(input@) {
            Err(e) => bytes_outcome(r) == Err::<Seq<u8>, Failure<Wire>>(e),
            Ok(ws) => exists|args: Vec<rmpv::Value>, out: Result<rmpv::Value, UdfError>|
                wires_of(args@) == ws && call_ensures(f, (args,), out) && bytes_outcome(r)
                    == result_outcome(value_outcome(out)),
        },
{
    match read_input(input) {
        Ok(args) => {
            let ghost given = args;
            let out = f(args);
            let r = write_result(out);
            assert(wires_of(given@) == read_outcome(input@)->Ok_0 && call_ensures(f, (given,), out)
                && bytes_outcome(r) == result_outcome(value_outcome(out)));
            r
        },
        Err(e) => Err(e),
    }
}

/// An envelope whose prefix declares another length than the number of bytes
/// that follow it is refused by the read stage, with the envelope error that
/// holds both lengths.
pub proof fn mismatched_length_is_refused(buf: Seq<u8>, declared: usize)
    requires
        declared_length(buf) == Ok::<usize, Failure<Wire>>(declared),
        declared != buf.len() - SIZE_NUM_BYTES,
    ensures
        read_outcome(buf) == Err::<Seq<Wire>, Failure<Wire>>(
            Failure::Envelope(
                EnvelopeFault::LengthMismatch {
                    declared,
                    remaining: (buf.len() - SIZE_NUM_BYTES) as usize,
                },
            ),
        ),
{
}

/// What was written is read back, as far as the codec gives back what it was
/// given: where the codec reads from the bytes of a value that value, and
/// takes all of them, the read stage finds in the output envelope of the value
/// its argument list.
pub proof fn written_value_is_read_back(w: Wire)
    requires
        packed(w) matches Some(payload) && payload.len() <= i32::MAX && unpacked(payload) == Some(
            (w, payload.len()),
        ),
    ensures
        write_outcome(w) matches Ok(envelope) && read_outcome(envelope) == arguments_of(w),
{
    envelope_round_trip(packed(w)->0);
}

} // verus!
