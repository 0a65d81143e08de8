//! The wire codec: wire values to and from the tagged binary format, which is
//! MessagePack as `rmp_serde` writes and reads it.
//!
//! The byte layout is the codec's own, so contracts do not spell it out: they
//! name what the codec returns, [`packed`] and [`unpacked`], and the two trusted
//! functions below are the only place where those names are given a meaning.
use crate::wire::{wire_of, Wire};
use vstd::prelude::*;

verus! {

/// `rmp_serde::encode::Error`, opaque to the verifier.
#[verifier::external_type_specification]
#[verifier::external_body]
pub struct ExEncodeError(rmp_serde::encode::Error);

/// `rmp_serde::decode::Error`, opaque to the verifier.
#[verifier::external_type_specification]
#[verifier::external_body]
pub struct ExDecodeError(rmp_serde::decode::Error);

/// The bytes that the codec writes for a value, or nothing where it refuses the
/// value.
pub uninterp spec fn packed(w: Wire) -> Option<Seq<u8>>;

/// The value that the codec reads at the start of the bytes, with the number of
/// bytes that it took, or nothing where the bytes do not start with a whole
/// value.
pub uninterp spec fn unpacked(bytes: Seq<u8>) -> Option<(Wire, nat)>;

/// `serde::Serialize::serialize` of an `rmpv::Value` into an
/// `rmp_serde::Serializer` that writes to `buf`. Whether it succeeds, and the
/// bytes that it writes, depend on the value alone. On success `buf` has grown
/// by exactly those bytes; on failure nothing is said of `buf`.
#[verifier::external_body]
pub(crate) fn pack(v: &rmpv::Value, buf: &mut Vec<u8>) -> (r: Result<
    (),
    rmp_serde::encode::Error,
>)
    ensures
        match packed(wire_of(*v)) {
            Some(bytes) => r is Ok && final(buf)@ == old(buf)@ + bytes,
            None => r is Err,
        },
{
    serde::Serialize::serialize(v, &mut rmp_serde::Serializer::new(buf))
}

/// `serde::Deserialize::deserialize` of an `rmpv::Value` from an
/// `rmp_serde::Deserializer` over a cursor on `buf`, with the position of the
/// cursor afterwards, which `Deserializer::position` gives: the number of bytes
/// read. Whether it succeeds, the value and the position depend on the bytes
/// alone.
#[verifier::external_body]
pub(crate) fn unpack(buf: &[u8]) -> (r: Result<(rmpv::Value, u64), rmp_serde::decode::Error>)
    ensures
        match r {
            Ok((v, consumed)) => unpacked(buf@) == Some((wire_of(v), consumed as nat)),
            Err(_) => unpacked(buf@) is None,
        },
{
    let mut de = rmp_serde::Deserializer::new(std::io::Cursor::new(buf));
    let v: rmpv::Value = serde::Deserialize::deserialize(&mut de)?;
    Ok((v, de.position()))
}

} // verus!
