//! Helpers on fixed-width byte groups.

use vstd::prelude::*;

verus! {

/// Compares two byte arrays of the same width position by position.
pub(crate) fn bytes_equal<const N: usize>(a: &[u8; N], b: &[u8; N]) -> (r: bool)
    ensures
        r == (a@ == b@),
        r == (*a == *b),
{
    let mut i: usize = 0;
    while i < N
        invariant
            i <= N,
            forall|j: int| 0 <= j < i ==> a@[j] == b@[j],
        decreases N - i,
    {
        if a[i] != b[i] {
            return false;
        }
        i += 1;
    }
    assert(a@ =~= b@);
    assert(*a =~= *b);
    true
}

/// Copies the `N` bytes of `source` that start at `start`.
pub(crate) fn take_bytes<const M: usize, const N: usize>(source: &[u8; M], start: usize) -> (taken:
    [u8; N])
    requires
        start + N <= M,
    ensures
        taken@ == source@.subrange(start as int, start + N),
{
    let mut taken: [u8; N] = [0u8; N];
    let mut i: usize = 0;
    while i < N
        invariant
            i <= N,
            start + N <= M,
            forall|j: int| 0 <= j < i ==> taken@[j] == source@[start + j],
        decreases N - i,
    {
        taken[i] = source[start + i];
        i += 1;
    }
    assert(taken@ =~= source@.subrange(start as int, start + N));
    taken
}

} // verus!
