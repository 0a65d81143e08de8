//! Sized envelopes: a payload behind a four-byte length prefix in native byte
//! order.
use crate::error::{outcome, EnvelopeFault, Failure, UdfError};
use crate::wire::Wire;
use vstd::endian::{endianness, Endian};
use vstd::prelude::*;
use vstd::slice::slice_subrange;

verus! {

/// The number of bytes in the length prefix of an envelope.
pub const SIZE_NUM_BYTES: usize = 4;

/// The integer that four bytes stand for, least significant byte first, read
/// as a signed integer in two's complement.
pub open spec fn signed_le(b: Seq<u8>) -> int {
    let u = b[0] + b[1] * 0x100 + b[2] * 0x1_0000 + b[3] * 0x100_0000;
    if u >= 0x8000_0000 {
        u - 0x1_0000_0000
    } else {
        u
    }
}

/// The four bytes of a signed integer in two's complement, least significant
/// byte first.
pub open spec fn le_bytes(x: i32) -> Seq<u8> {
    let u = if x < 0 {
        x + 0x1_0000_0000
    } else {
        x as int
    };
    seq![
        (u % 0x100) as u8,
        (u / 0x100 % 0x100) as u8,
        (u / 0x1_0000 % 0x100) as u8,
        (u / 0x100_0000 % 0x100) as u8,
    ]
}

/// The length that a prefix declares: its four bytes read in the byte order of
/// the machine.
pub open spec fn prefix_value(b: Seq<u8>) -> int {
    match endianness() {
        Endian::Little => signed_le(b),
        Endian::Big => signed_le(b.reverse()),
    }
}

/// The prefix that declares a length: its four bytes in the byte order of the
/// machine.
pub open spec fn prefix_bytes(x: i32) -> Seq<u8> {
    match endianness() {
        Endian::Little => le_bytes(x),
        Endian::Big => le_bytes(x).reverse(),
    }
}

/// `i32::from_ne_bytes`: the integer whose representation in memory is the
/// given bytes. That is the two's complement integer that the bytes stand for,
/// least significant byte first on a little-endian machine and last on a
/// big-endian one.
#[verifier::external_body]
fn length_from_prefix(bytes: [u8; 4]) -> (r: i32)
    ensures
        r == prefix_value(bytes@),
{
    i32::from_ne_bytes(bytes)
}

/// `i32::to_ne_bytes`: the representation of the integer in memory. That is
/// its four bytes in two's complement, least significant byte first on a
/// little-endian machine and last on a big-endian one.
#[verifier::external_body]
fn prefix_of_length(x: i32) -> (r: [u8; 4])
    ensures
        r@ == prefix_bytes(x),
{
    x.to_ne_bytes()
}

/// The length that the prefix at the start of a buffer declares, where the
/// prefix is whole and the length is not negative.
pub open spec fn declared_length(buf: Seq<u8>) -> Result<usize, Failure<Wire>> {
    if buf.len() < SIZE_NUM_BYTES {
        Err(Failure::Envelope(EnvelopeFault::TruncatedPrefix { found: buf.len() as usize }))
    } else {
        let declared = prefix_value(buf.subrange(0, SIZE_NUM_BYTES as int));
        if declared < 0 {
            Err(Failure::Envelope(EnvelopeFault::NegativeLength { declared: declared as i32 }))
        } else {
            Ok(declared as usize)
        }
    }
}

/// The payload of an envelope: what follows the prefix, where the prefix is
/// whole, declares a length that is not negative, and that length is the
/// number of bytes that follow.
pub open spec fn envelope_payload(buf: Seq<u8>) -> Result<Seq<u8>, Failure<Wire>> {
    match declared_length(buf) {
        Err(e) => Err(e),
        Ok(declared) => {
            let remaining = buf.len() - SIZE_NUM_BYTES;
            if declared != remaining {
                Err(
                    Failure::Envelope(
                        EnvelopeFault::LengthMismatch { declared, remaining: remaining as usize },
                    ),
                )
            } else {
                Ok(buf.skip(SIZE_NUM_BYTES as int))
            }
        },
    }
}

/// The length that the prefix at the start of `buf` declares. What follows the
/// first four bytes is not looked at.
pub fn payload_length(buf: &[u8]) -> (r: Result<usize, UdfError>)
    ensures
        outcome(r) == declared_length(buf@),
{
    if buf.len() < SIZE_NUM_BYTES {
        return Err(Failure::Envelope(EnvelopeFault::TruncatedPrefix { found: buf.len() }));
    }
    let size_bytes: [u8; 4] = [buf[0], buf[1], buf[2], buf[3]];
    assert(size_bytes@ =~= buf@.subrange(0, SIZE_NUM_BYTES as int));
    let declared: i32 = length_from_prefix(size_bytes);
    if declared < 0 {
        return Err(Failure::Envelope(EnvelopeFault::NegativeLength { declared }));
    }
    Ok(declared as usize)
}

/// The payload of the envelope in `buf`.
pub fn open_envelope(buf: &[u8]) -> (r: Result<&[u8], UdfError>)
    ensures
        match r {
            Ok(payload) => envelope_payload(buf@) == Ok::<Seq<u8>, Failure<Wire>>(payload@),
            Err(e) => envelope_payload(buf@) == Err::<Seq<u8>, Failure<Wire>>(e@),
        },
{
    let input_size = payload_length(buf)?;
    let remaining: usize = buf.len() - SIZE_NUM_BYTES;
    if input_size != remaining {
        return Err(
            Failure::Envelope(EnvelopeFault::LengthMismatch { declared: input_size, remaining }),
        );
    }
    let payload = slice_subrange(buf, SIZE_NUM_BYTES, buf.len());
    assert(payload@ =~= buf@.skip(SIZE_NUM_BYTES as int));
    Ok(payload)
}

/// The envelope of a payload: the prefix that declares its length, then the
/// payload; a failure where the length is too large for the prefix.
pub open spec fn sealed(payload: Seq<u8>) -> Result<Seq<u8>, Failure<Wire>> {
    if payload.len() > i32::MAX {
        Err(Failure::Envelope(EnvelopeFault::Oversized { len: payload.len() as usize }))
    } else {
        Ok(prefix_bytes(payload.len() as i32) + payload)
    }
}

/// What `seal_envelope` makes of a buffer: the envelope of what follows the
/// first four bytes, which are reserved for the prefix.
pub open spec fn sealed_in_place(buf: Seq<u8>) -> Result<Seq<u8>, Failure<Wire>> {
    if buf.len() < SIZE_NUM_BYTES {
        Err(Failure::Envelope(EnvelopeFault::TruncatedPrefix { found: buf.len() as usize }))
    } else {
        sealed(buf.skip(SIZE_NUM_BYTES as int))
    }
}

/// Completes an envelope whose payload stands behind four reserved bytes: the
/// length of the payload is written into them.
pub fn seal_envelope(buf: Vec<u8>) -> (r: Result<Vec<u8>, UdfError>)
    ensures
        match r {
            Ok(envelope) => sealed_in_place(buf@) == Ok::<Seq<u8>, Failure<Wire>>(envelope@),
            Err(e) => sealed_in_place(buf@) == Err::<Seq<u8>, Failure<Wire>>(e@),
        },
{
    if buf.len() < SIZE_NUM_BYTES {
        return Err(Failure::Envelope(EnvelopeFault::TruncatedPrefix { found: buf.len() }));
    }
    let output_size: usize = buf.len() - SIZE_NUM_BYTES;
    let output_size_i32: i32 = match i32::try_from(output_size) {
        Ok(n) => n,
        Err(_) => {
            return Err(Failure::Envelope(EnvelopeFault::Oversized { len: output_size }));
        },
    };
    let prefix = prefix_of_length(output_size_i32);
    let mut envelope = buf;
    let mut ix: usize = 0;
    while ix < SIZE_NUM_BYTES
        invariant
            ix <= SIZE_NUM_BYTES,
            envelope@.len() == buf@.len(),
            buf@.len() >= SIZE_NUM_BYTES,
            prefix@.len() == SIZE_NUM_BYTES,
            forall|i: int| 0 <= i < ix ==> envelope@[i] == prefix@[i],
            forall|i: int| SIZE_NUM_BYTES <= i < buf@.len() ==> envelope@[i] == buf@[i],
        decreases SIZE_NUM_BYTES - ix,
    {
        envelope.set(ix, prefix[ix]);
        ix += 1;
    }
    assert(envelope@ =~= prefix@ + buf@.skip(SIZE_NUM_BYTES as int));
    Ok(envelope)
}

/// Opening the envelope of a payload gives the payload back.
pub proof fn envelope_round_trip(payload: Seq<u8>)
    requires
        payload.len() <= i32::MAX,
    ensures
        sealed(payload) matches Ok(envelope) && envelope_payload(envelope) == Ok::<
            Seq<u8>,
            Failure<Wire>,
        >(payload),
{
    let declared = payload.len() as i32;
    let prefix = prefix_bytes(declared);
    let envelope = prefix + payload;
    lemma_prefix_round_trip(declared);
    assert(envelope.subrange(0, SIZE_NUM_BYTES as int) =~= prefix);
    assert(envelope.skip(SIZE_NUM_BYTES as int) =~= payload);
}

/// A prefix has four bytes and declares the length that it was made for.
pub proof fn lemma_prefix_round_trip(x: i32)
    ensures
        prefix_bytes(x).len() == SIZE_NUM_BYTES,
        prefix_value(prefix_bytes(x)) == x,
{
    let le = le_bytes(x);
    assert(le.reverse().reverse() =~= le);
    assert(signed_le(le) == x);
}

} // verus!
