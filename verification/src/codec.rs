//! Primitive readers and writers for the fixed-width state layout: values are
//! appended to a growing byte vector on encode, and read at fixed offsets of
//! a byte slice on decode.

use vstd::prelude::*;

use vstd::bytes::{spec_u64_from_le_bytes, spec_u64_to_le_bytes, u64_from_le_bytes, u64_to_le_bytes};
use vstd::slice::{slice_index_get, slice_subrange};

verus! {

/// `n` zero bytes, the padding of every under-full fixed-width slot.
pub open spec fn zero_bytes(n: nat) -> Seq<u8> {
    Seq::new(n, |i: int| 0u8)
}

/// Appends the eight little-endian bytes of `v`.
pub fn write_u64_le(out: &mut Vec<u8>, v: u64)
    ensures
        final(out)@ == old(out)@ + spec_u64_to_le_bytes(v),
{
    let mut bytes = u64_to_le_bytes(v);
    out.append(&mut bytes);
}

/// Reads the `u64` stored little-endian at `offset`.
pub fn read_u64_le(input: &[u8], offset: usize) -> (r: u64)
    requires
        offset + 8 <= input@.len(),
    ensures
        r == spec_u64_from_le_bytes(input@.subrange(offset as int, offset as int + 8)),
{
    let n = input.len();
    proof {
        assert(offset + 8 <= n);
    }
    let bytes = slice_subrange(input, offset, offset + 8);
    u64_from_le_bytes(bytes)
}

/// Appends `n` zero bytes.
pub fn write_zeros(out: &mut Vec<u8>, n: usize)
    ensures
        final(out)@ == old(out)@ + zero_bytes(n as nat),
{
    let mut i: usize = 0;
    while i < n
        invariant
            i <= n,
            out@ == old(out)@ + zero_bytes(i as nat),
        decreases n - i,
    {
        out.push(0);
        proof {
            assert(out@ =~= old(out)@ + zero_bytes((i + 1) as nat));
        }
        i = i + 1;
    }
}

/// Appends the 32 bytes of an identity key.
pub fn write_key(out: &mut Vec<u8>, key: &[u8; 32])
    ensures
        final(out)@ == old(out)@ + key@,
{
    let mut i: usize = 0;
    while i < 32
        invariant
            i <= 32,
            out@ == old(out)@ + key@.subrange(0, i as int),
        decreases 32 - i,
    {
        let b = key.as_slice();
        out.push(*slice_index_get(b, i));
        proof {
            assert(out@ =~= old(out)@ + key@.subrange(0, i + 1));
        }
        i = i + 1;
    }
    proof {
        assert(key@.subrange(0, 32) =~= key@);
    }
}

/// Reads the 32-byte identity key stored at `offset`.
pub fn read_key(input: &[u8], offset: usize) -> (r: [u8; 32])
    requires
        offset + 32 <= input@.len(),
    ensures
        r@ == input@.subrange(offset as int, offset as int + 32),
{
    let n = input.len();
    proof {
        assert(offset + 32 <= n);
    }
    let mut r: [u8; 32] = [0u8; 32];
    let mut i: usize = 0;
    while i < 32
        invariant
            i <= 32,
            offset + 32 <= input@.len(),
            input@.len() <= usize::MAX,
            r@.len() == 32,
            forall|j: int| 0 <= j < i ==> r@[j] == input@[offset + j],
        decreases 32 - i,
    {
        r[i] = *slice_index_get(input, offset + i);
        i = i + 1;
    }
    proof {
        assert(r@ =~= input@.subrange(offset as int, offset as int + 32));
    }
    r
}

} // verus!
