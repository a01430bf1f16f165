//! Decoding of stored values: Borsh-encoded unsigned integers and UTF-8 text.

use vstd::prelude::*;
use vstd::utf8::{decode_utf8, valid_utf8};

verus! {

/// The unsigned integer whose little-endian encoding is the eight bytes `b`.
pub open spec fn le_u64(b: Seq<u8>) -> int
    recommends
        b.len() == 8,
{
    b[0] + b[1] * 0x100 + b[2] * 0x1_0000 + b[3] * 0x100_0000 + b[4] * 0x1_0000_0000 + b[5]
        * 0x100_0000_0000 + b[6] * 0x1_0000_0000_0000 + b[7] * 0x100_0000_0000_0000
}

/// The Borsh decoding of a `u64` from a whole byte string: the bytes hold a
/// value exactly when there are eight of them, read little-endian.
pub open spec fn decode_u64(b: Seq<u8>) -> Option<u64> {
    if b.len() == 8 {
        Some(le_u64(b) as u64)
    } else {
        None
    }
}

/// Calls `borsh::BorshDeserialize::try_from_slice` for `u64`. Claimed of it:
/// it succeeds exactly on eight bytes and then yields their little-endian
/// value (the integer impl reads `size_of::<u64>()` bytes with
/// `u64::from_le_bytes`, and `try_from_slice` refuses bytes left over).
#[verifier::external_body]
pub(crate) fn borsh_u64_from_slice(bytes: &[u8]) -> (r: Option<u64>)
    ensures
        r is Some <==> bytes@.len() == 8,
        r matches Some(v) ==> v as int == le_u64(bytes@),
{
    <u64 as borsh::BorshDeserialize>::try_from_slice(bytes).ok()
}

/// Decodes a stored `u64` value.
pub fn decode_stored_u64(bytes: &[u8]) -> (r: Option<u64>)
    ensures
        r == decode_u64(bytes@),
{
    let r = borsh_u64_from_slice(bytes);
    proof {
        if bytes@.len() == 8 {
            let b = bytes@;
            assert(0 <= le_u64(b) <= u64::MAX) by {
                assert(0 <= b[0] <= 0xff && 0 <= b[1] <= 0xff && 0 <= b[2] <= 0xff && 0 <= b[3] <= 0xff);
                assert(0 <= b[4] <= 0xff && 0 <= b[5] <= 0xff && 0 <= b[6] <= 0xff && 0 <= b[7] <= 0xff);
            }
        }
    }
    r
}

/// Calls `core::str::from_utf8`. Claimed of it, as std documents: it
/// succeeds exactly on well-formed UTF-8, and the text is what the bytes
/// encode.
#[verifier::external_body]
pub(crate) fn str_from_utf8(bytes: &[u8]) -> (r: Option<&str>)
    ensures
        r is Some <==> valid_utf8(bytes@),
        r matches Some(s) ==> s@ == decode_utf8(bytes@),
{
    core::str::from_utf8(bytes).ok()
}

} // verus!
