//! Fixed-width byte strings: comparison, slicing and splicing.

use vstd::prelude::*;

verus! {

/// Thirty-two zero bytes.
pub open spec fn zeros32() -> [u8; 32] {
    vstd::array::spec_array_fill_for_copy_type::<u8, 32>(0u8)
}

/// The bytes of `list` after those of `bytes`.
pub fn append<const N: usize>(bytes: &mut Vec<u8>, list: &[u8; N])
    ensures
        final(bytes)@ == old(bytes)@ + list@,
{
    let mut i: usize = 0;
    while i < N
        invariant
            i <= N,
            bytes@ == old(bytes)@ + list@.take(i as int),
        decreases N - i,
    {
        bytes.push(list[i]);
        assert(list@.take(i + 1) =~= list@.take(i as int).push(list@[i as int]));
        i += 1;
    }
    assert(list@.take(N as int) =~= list@);
}

/// Whether two byte strings of one width hold the same bytes.
pub fn bytes_eq<const N: usize>(a: &[u8; N], b: &[u8; N]) -> (same: bool)
    ensures
        same == (*a == *b),
{
    let mut i: usize = 0;
    while i < N
        invariant
            i <= N,
            forall|j: int| 0 <= j < i ==> a[j] == b[j],
        decreases N - i,
    {
        if a[i] != b[i] {
            return false;
        }
        i += 1;
    }
    assert(*a =~= *b);
    true
}

/// The `M` bytes of `src` that start at `offset`.
pub fn read_at<const N: usize, const M: usize>(src: &[u8; N], offset: usize) -> (out: [u8; M])
    requires
        offset + M <= N,
    ensures
        out@ == src@.subrange(offset as int, offset + M),
{
    let mut out = [0u8; M];
    let mut i: usize = 0;
    while i < M
        invariant
            i <= M,
            offset + M <= N,
            forall|j: int| 0 <= j < i ==> out[j] == src[offset + j],
        decreases M - i,
    {
        out[i] = src[offset + i];
        i += 1;
    }
    assert(out@ =~= src@.subrange(offset as int, offset + M));
    out
}

/// Overwrites the `M` bytes of `dst` that start at `offset` with `src`.
pub fn write_at<const N: usize, const M: usize>(dst: &mut [u8; N], offset: usize, src: &[u8; M])
    requires
        offset + M <= N,
    ensures
        final(dst)@ == old(dst)@.subrange(0, offset as int) + src@ + old(dst)@.subrange(
            offset + M,
            N as int,
        ),
{
    let mut i: usize = 0;
    while i < M
        invariant
            i <= M,
            offset + M <= N,
            forall|j: int| 0 <= j < offset ==> dst[j] == old(dst)[j],
            forall|j: int| 0 <= j < i ==> dst[offset + j] == src[j],
            forall|j: int| offset + i <= j < N ==> dst[j] == old(dst)[j],
        decreases M - i,
    {
        dst[offset + i] = src[i];
        i += 1;
    }
    assert(dst@ =~= old(dst)@.subrange(0, offset as int) + src@ + old(dst)@.subrange(
        offset + M,
        N as int,
    ));
}

} // verus!
