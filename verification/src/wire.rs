//! Little-endian integers on the wire.
//!
//! Every amount in an instruction payload or in an escrow record is an
//! unsigned 64-bit integer written as eight bytes, least significant first.
//! The bytes themselves are produced and consumed by `borsh`; this module
//! states what they are.

use vstd::prelude::*;

verus! {

/// The integer that eight little-endian bytes stand for.
pub open spec fn le_u64(s: Seq<u8>) -> u64
    recommends
        s.len() == 8,
{
    (s[0] as int
        + s[1] as int * 0x100
        + s[2] as int * 0x1_0000
        + s[3] as int * 0x100_0000
        + s[4] as int * 0x1_0000_0000
        + s[5] as int * 0x100_0000_0000
        + s[6] as int * 0x1_0000_0000_0000
        + s[7] as int * 0x100_0000_0000_0000) as u64
}

/// The eight little-endian bytes of an integer.
pub open spec fn le_bytes(x: u64) -> Seq<u8> {
    seq![
        (x % 0x100) as u8,
        (x / 0x100 % 0x100) as u8,
        (x / 0x1_0000 % 0x100) as u8,
        (x / 0x100_0000 % 0x100) as u8,
        (x / 0x1_0000_0000 % 0x100) as u8,
        (x / 0x100_0000_0000 % 0x100) as u8,
        (x / 0x1_0000_0000_0000 % 0x100) as u8,
        (x / 0x100_0000_0000_0000 % 0x100) as u8,
    ]
}

/// Reading back the bytes of an integer gives the integer.
pub proof fn lemma_le_u64_of_le_bytes(x: u64)
    ensures
        le_bytes(x).len() == 8,
        le_u64(le_bytes(x)) == x,
{
    assert(x == (x % 0x100) + (x / 0x100 % 0x100) * 0x100 + (x / 0x1_0000 % 0x100) * 0x1_0000 + (x
        / 0x100_0000 % 0x100) * 0x100_0000 + (x / 0x1_0000_0000 % 0x100) * 0x1_0000_0000 + (x
        / 0x100_0000_0000 % 0x100) * 0x100_0000_0000 + (x / 0x1_0000_0000_0000 % 0x100)
        * 0x1_0000_0000_0000 + (x / 0x100_0000_0000_0000 % 0x100) * 0x100_0000_0000_0000)
        by (bit_vector);
}

/// Writing out the integer read from eight bytes gives the same bytes.
pub proof fn lemma_le_bytes_of_le_u64(s: Seq<u8>)
    requires
        s.len() == 8,
    ensures
        le_bytes(le_u64(s)) == s,
{
    let (b0, b1, b2, b3, b4, b5, b6, b7) = (s[0], s[1], s[2], s[3], s[4], s[5], s[6], s[7]);
    let x = le_u64(s);
    assert(x == b0 as int + b1 as int * 0x100 + b2 as int * 0x1_0000 + b3 as int * 0x100_0000
        + b4 as int * 0x1_0000_0000 + b5 as int * 0x100_0000_0000 + b6 as int
        * 0x1_0000_0000_0000 + b7 as int * 0x100_0000_0000_0000);
    assert(x == (b0 as u64) + (b1 as u64) * 0x100 + (b2 as u64) * 0x1_0000 + (b3 as u64)
        * 0x100_0000 + (b4 as u64) * 0x1_0000_0000 + (b5 as u64) * 0x100_0000_0000 + (b6 as u64)
        * 0x1_0000_0000_0000 + (b7 as u64) * 0x100_0000_0000_0000 ==> {
        &&& x % 0x100 == b0
        &&& x / 0x100 % 0x100 == b1
        &&& x / 0x1_0000 % 0x100 == b2
        &&& x / 0x100_0000 % 0x100 == b3
        &&& x / 0x1_0000_0000 % 0x100 == b4
        &&& x / 0x100_0000_0000 % 0x100 == b5
        &&& x / 0x1_0000_0000_0000 % 0x100 == b6
        &&& x / 0x100_0000_0000_0000 % 0x100 == b7
    }) by (bit_vector);
    assert(le_bytes(x) =~= s);
}

/// Reads eight little-endian bytes as an integer.
pub fn read_le_u64(bytes: &[u8]) -> (value: u64)
    requires
        bytes@.len() == 8,
    ensures
        value == le_u64(bytes@),
{
    bytes[0] as u64 + bytes[1] as u64 * 0x100 + bytes[2] as u64 * 0x1_0000 + bytes[3] as u64
        * 0x100_0000 + bytes[4] as u64 * 0x1_0000_0000 + bytes[5] as u64 * 0x100_0000_0000
        + bytes[6] as u64 * 0x1_0000_0000_0000 + bytes[7] as u64 * 0x100_0000_0000_0000
}

/// Decodes an unsigned 64-bit integer with `borsh::from_slice::<u64>`.
///
/// Assumed of borsh: the call succeeds exactly on an input of eight bytes
/// (fewer is an unexpected end of input, more leaves bytes unread, and both
/// are errors), and the value is the little-endian reading of those bytes.
#[verifier::external_body]
pub(crate) fn u64_from_borsh(bytes: &[u8]) -> (value: Option<u64>)
    ensures
        value == (if bytes@.len() == 8 {
            Some(le_u64(bytes@))
        } else {
            None
        }),
{
    borsh::from_slice::<u64>(bytes).ok()
}

/// Encodes an unsigned 64-bit integer with `borsh::to_vec`.
///
/// Assumed of borsh: writing into a fresh vector cannot fail, and the
/// vector then holds the eight little-endian bytes of the value.
#[verifier::external_body]
pub(crate) fn u64_to_borsh(value: u64) -> (out: Option<Vec<u8>>)
    ensures
        out is Some,
        out->0@ == le_bytes(value),
{
    borsh::to_vec(&value).ok()
}

} // verus!
