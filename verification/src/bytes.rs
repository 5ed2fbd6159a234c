//! Small verified helpers for moving bytes between vectors, slices and
//! fixed-size arrays.

use vstd::prelude::*;

verus! {

/// A sequence of `n` zero bytes.
pub open spec fn zeros(n: int) -> Seq<u8> {
    Seq::new(n as nat, |i| 0u8)
}

/// Appends every byte of `src` to `out`, in order.
pub(crate) fn append_bytes(out: &mut Vec<u8>, src: &[u8])
    ensures
        final(out)@ == old(out)@ + src@,
{
    let n = src.len();
    let mut i: usize = 0;
    while i < n
        invariant
            n == src@.len(),
            i <= n,
            out@ == old(out)@ + src@.subrange(0, i as int),
        decreases n - i,
    {
        let b = src[i];
        out.push(b);
        proof {
            assert(old(out)@ + src@.subrange(0, i + 1) =~= (old(out)@ + src@.subrange(
                0,
                i as int,
            )).push(src@[i as int]));
        }
        i += 1;
    }
    proof {
        assert(src@.subrange(0, n as int) =~= src@);
    }
}

/// Appends `n` zero bytes to `out`.
pub(crate) fn append_zeros(out: &mut Vec<u8>, n: usize)
    ensures
        final(out)@ == old(out)@ + zeros(n as int),
{
    let mut i: usize = 0;
    while i < n
        invariant
            i <= n,
            out@ == old(out)@ + zeros(i as int),
        decreases n - i,
    {
        out.push(0u8);
        proof {
            assert(old(out)@ + zeros(i + 1) =~= (old(out)@ + zeros(i as int)).push(0u8));
        }
        i += 1;
    }
}

/// Copies `N` bytes of `src`, starting at `off`, into a fresh array.
pub(crate) fn read_array<const N: usize>(src: &[u8], off: usize) -> (r: [u8; N])
    requires
        off + N <= src@.len(),
    ensures
        r@ == src@.subrange(off as int, off + N),
{
    let len = src.len();
    let mut r = [0u8; N];
    let mut i: usize = 0;
    while i < N
        invariant
            off + N <= len == src@.len(),
            i <= N,
            r@.len() == N,
            forall|j: int| 0 <= j < i ==> r@[j] == src@[off + j],
        decreases N - i,
    {
        r[i] = src[off + i];
        i += 1;
    }
    proof {
        assert(r@ =~= src@.subrange(off as int, off + N));
    }
    r
}

/// Concatenates a 16-byte array and a 32-byte array into a 48-byte array.
pub(crate) fn concat_16_32(a: &[u8; 16], b: &[u8; 32]) -> (r: [u8; 48])
    ensures
        r@ == a@ + b@,
{
    let mut r = [0u8; 48];
    let mut i: usize = 0;
    while i < 16
        invariant
            i <= 16,
            r@.len() == 48,
            forall|j: int| 0 <= j < i ==> r@[j] == a@[j],
        decreases 16 - i,
    {
        r[i] = a[i];
        i += 1;
    }
    let mut k: usize = 0;
    while k < 32
        invariant
            k <= 32,
            r@.len() == 48,
            forall|j: int| 0 <= j < 16 ==> r@[j] == a@[j],
            forall|j: int| 0 <= j < k ==> r@[16 + j] == b@[j],
        decreases 32 - k,
    {
        r[16 + k] = b[k];
        k += 1;
    }
    proof {
        assert(r@ =~= a@ + b@);
    }
    r
}

} // verus!
