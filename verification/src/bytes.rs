//! Small conversions between slices, fixed-size arrays and vectors of bytes.

use vstd::prelude::*;
use vstd::slice::slice_to_vec;
use vstd::array::array_as_slice;

verus! {

/// The 12 bytes of a slice as an array; `None` unless the slice has exactly
/// that length.
pub fn array12_from_slice(bytes: &[u8]) -> (out: Option<[u8; 12]>)
    ensures
        out is Some <==> bytes@.len() == 12,
        out is Some ==> out->0@ == bytes@,
{
    if bytes.len() != 12 {
        return None;
    }
    let mut out: [u8; 12] = [0u8; 12];
    let mut i: usize = 0;
    while i < 12
        invariant
            i <= 12,
            bytes@.len() == 12,
            forall|k: int| 0 <= k < i ==> out@[k] == bytes@[k],
        decreases 12 - i,
    {
        out[i] = bytes[i];
        i += 1;
    }
    assert(out@ =~= bytes@);
    Some(out)
}

/// The 32 bytes of a slice as an array; `None` unless the slice has exactly
/// that length.
pub fn array32_from_slice(bytes: &[u8]) -> (out: Option<[u8; 32]>)
    ensures
        out is Some <==> bytes@.len() == 32,
        out is Some ==> out->0@ == bytes@,
{
    if bytes.len() != 32 {
        return None;
    }
    let mut out: [u8; 32] = [0u8; 32];
    let mut i: usize = 0;
    while i < 32
        invariant
            i <= 32,
            bytes@.len() == 32,
            forall|k: int| 0 <= k < i ==> out@[k] == bytes@[k],
        decreases 32 - i,
    {
        out[i] = bytes[i];
        i += 1;
    }
    assert(out@ =~= bytes@);
    Some(out)
}

/// The 64 bytes of a slice as an array; `None` unless the slice has exactly
/// that length.
pub fn array64_from_slice(bytes: &[u8]) -> (out: Option<[u8; 64]>)
    ensures
        out is Some <==> bytes@.len() == 64,
        out is Some ==> out->0@ == bytes@,
{
    if bytes.len() != 64 {
        return None;
    }
    let mut out: [u8; 64] = [0u8; 64];
    let mut i: usize = 0;
    while i < 64
        invariant
            i <= 64,
            bytes@.len() == 64,
            forall|k: int| 0 <= k < i ==> out@[k] == bytes@[k],
        decreases 64 - i,
    {
        out[i] = bytes[i];
        i += 1;
    }
    assert(out@ =~= bytes@);
    Some(out)
}

/// A vector with the bytes of a 12-byte array.
pub fn vec_from_array12(bytes: &[u8; 12]) -> (out: Vec<u8>)
    ensures
        out@ == bytes@,
{
    slice_to_vec(array_as_slice(bytes))
}

/// A vector with the bytes of a 32-byte array.
pub fn vec_from_array32(bytes: &[u8; 32]) -> (out: Vec<u8>)
    ensures
        out@ == bytes@,
{
    slice_to_vec(array_as_slice(bytes))
}

/// A vector with the bytes of a 64-byte array.
pub fn vec_from_array64(bytes: &[u8; 64]) -> (out: Vec<u8>)
    ensures
        out@ == bytes@,
{
    slice_to_vec(array_as_slice(bytes))
}

/// Appends the bytes of `tail` to `buffer`.
pub fn append_bytes(buffer: &mut Vec<u8>, tail: &[u8])
    ensures
        final(buffer)@ == old(buffer)@ + tail@,
{
    let ghost before = buffer@;
    buffer.extend_from_slice(tail);
    assert(buffer@ =~= before + tail@);
}

/// Whether two 32-byte arrays hold the same bytes.
pub fn arrays32_equal(a: &[u8; 32], b: &[u8; 32]) -> (same: bool)
    ensures
        same == (a@ == b@),
{
    let mut i: usize = 0;
    while i < 32
        invariant
            i <= 32,
            forall|k: int| 0 <= k < i ==> a@[k] == b@[k],
        decreases 32 - i,
    {
        if a[i] != b[i] {
            return false;
        }
        i += 1;
    }
    assert(a@ =~= b@);
    true
}

} // verus!
