//! Small byte-level helpers shared by the handlers.

use vstd::prelude::*;
use crate::consts::NAME_LEN;

verus! {

/// Compare two 32-byte strings for equality.
pub fn bytes32_eq(a: &[u8; 32], b: &[u8; 32]) -> (r: bool)
    ensures
        r <==> a@ == b@,
{
    let mut i: usize = 0;
    while i < 32
        invariant
            0 <= i <= 32,
            forall|j: int| 0 <= j < i ==> a@[j] == b@[j],
        decreases 32 - i,
    {
        if a[i] != b[i] {
            proof {
                assert(a@[i as int] != b@[i as int]);
            }
            return false;
        }
        i = i + 1;
    }
    proof {
        assert(a@ =~= b@);
    }
    true
}

/// Whether a 32-byte string is all zero.
pub open spec fn spec_is_zero32(a: Seq<u8>) -> bool {
    forall|i: int| 0 <= i < a.len() ==> a[i] == 0
}

/// Check whether a 32-byte string is all zero.
pub fn is_zero32(a: &[u8; 32]) -> (r: bool)
    ensures
        r <==> spec_is_zero32(a@),
{
    let mut i: usize = 0;
    while i < 32
        invariant
            0 <= i <= 32,
            forall|j: int| 0 <= j < i ==> a@[j] == 0,
        decreases 32 - i,
    {
        if a[i] != 0 {
            proof {
                assert(a@[i as int] != 0);
            }
            return false;
        }
        i = i + 1;
    }
    true
}

/// The bytewise xor of two 32-byte strings.
pub open spec fn spec_xor32(a: Seq<u8>, b: Seq<u8>) -> Seq<u8> {
    Seq::new(32, |i: int| (a[i] ^ b[i]) as u8)
}

/// Xor a 32-byte string into an accumulator.
pub fn xor32(a: &[u8; 32], b: &[u8; 32]) -> (r: [u8; 32])
    ensures
        r@ == spec_xor32(a@, b@),
{
    let mut out: [u8; 32] = [0u8; 32];
    let mut i: usize = 0;
    while i < 32
        invariant
            0 <= i <= 32,
            forall|j: int| 0 <= j < i ==> out@[j] == (a@[j] ^ b@[j]),
        decreases 32 - i,
    {
        out[i] = a[i] ^ b[i];
        i = i + 1;
    }
    proof {
        assert(out@ =~= spec_xor32(a@, b@));
    }
    out
}

/// Xor is its own inverse: folding a value in and out again restores the
/// accumulator.
pub proof fn lemma_xor32_involutive(a: Seq<u8>, b: Seq<u8>)
    requires
        a.len() == 32,
    ensures
        spec_xor32(spec_xor32(a, b), b) == a,
{
    assert forall|i: int| 0 <= i < 32 implies spec_xor32(spec_xor32(a, b), b)[i] == a[i] by {
        let x = a[i];
        let y = b[i];
        assert(((x ^ y) ^ y) == x) by (bit_vector);
    }
    assert(spec_xor32(spec_xor32(a, b), b) =~= a);
}

/// The first `N` bytes of the input, zero-padded on the right when the
/// input is shorter.
pub open spec fn spec_padded<const N: usize>(input: Seq<u8>) -> Seq<u8> {
    Seq::new(N as nat, |i: int| if i < input.len() { input[i] } else { 0u8 })
}

/// Copy the input into a fixed array, truncating or zero-padding on the
/// right.
pub fn padded_array<const N: usize>(input: &[u8]) -> (out: [u8; N])
    ensures
        out@ == spec_padded::<N>(input@),
{
    let mut out: [u8; N] = [0u8; N];
    let len = if input.len() < N {
        input.len()
    } else {
        N
    };
    let mut i: usize = 0;
    while i < len
        invariant
            0 <= i <= len,
            len <= N,
            len <= input@.len(),
            out@.len() == N,
            forall|j: int| 0 <= j < i ==> out@[j] == input@[j],
            forall|j: int| i <= j < N ==> out@[j] == 0u8,
        decreases len - i,
    {
        out[i] = input[i];
        i = i + 1;
    }
    proof {
        assert(out@ =~= spec_padded::<N>(input@));
    }
    out
}

/// Read a fixed-size byte array out of a buffer at an offset.
pub fn read_array<const N: usize>(data: &[u8], off: usize) -> (out: [u8; N])
    requires
        off + N <= data@.len(),
    ensures
        out@ == data@.subrange(off as int, off + N),
{
    let n = data.len();
    proof {
        assert(off + N <= n);
    }
    let out = padded_array::<N>(vstd::slice::slice_subrange(data, off, off + N));
    proof {
        assert(out@ =~= data@.subrange(off as int, off + N));
    }
    out
}

/// Read a little-endian 64-bit integer out of a buffer at an offset.
pub fn read_u64_le(data: &[u8], off: usize) -> (x: u64)
    requires
        off + 8 <= data@.len(),
    ensures
        x == vstd::bytes::spec_u64_from_le_bytes(data@.subrange(off as int, off + 8)),
{
    let n = data.len();
    proof {
        assert(off + 8 <= n);
    }
    vstd::bytes::u64_from_le_bytes(vstd::slice::slice_subrange(data, off, off + 8))
}

/// Read `N` consecutive 32-byte hashes out of a buffer at an offset.
pub fn read_hashes<const N: usize>(data: &[u8], off: usize) -> (out: [[u8; 32]; N])
    requires
        off + 32 * N <= data@.len(),
    ensures
        forall|i: int|
            0 <= i < N ==> #[trigger] out@[i]@ == data@.subrange(off + 32 * i, off + 32 * i + 32),
{
    let mut out: [[u8; 32]; N] = [[0u8; 32]; N];
    let n = data.len();
    let mut i: usize = 0;
    while i < N
        invariant
            0 <= i <= N,
            n == data@.len(),
            off + 32 * N <= n,
            forall|j: int|
                0 <= j < i ==> #[trigger] out@[j]@ == data@.subrange(
                    off + 32 * j,
                    off + 32 * j + 32,
                ),
        decreases N - i,
    {
        proof {
            assert(off + 32 * (i as int) + 32 <= off + 32 * N) by (nonlinear_arith)
                requires
                    0 <= i < N,
            ;
        }
        out[i] = read_array::<32>(data, off + 32 * i);
        i = i + 1;
    }
    out
}

/// Pad a short name to its fixed NUL-padded form; names longer than the
/// limit are rejected by the callers.
pub fn to_name(val: &[u8]) -> (out: [u8; 32])
    requires
        val@.len() <= NAME_LEN,
    ensures
        out@ == spec_padded::<NAME_LEN>(val@),
{
    padded_array::<NAME_LEN>(val)
}

} // verus!
