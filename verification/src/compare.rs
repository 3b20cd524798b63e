//! Work on what windows read, element by element: comparing and copying.

use vstd::prelude::*;
use vstd::std_specs::cmp::PartialEqSpec;

verus! {

/// Whether two sequences are equal in the sense of the elements' own `==`:
/// the same length, and `==` at every index.
pub open spec fn elements_eq<T: PartialEq>(a: Seq<T>, b: Seq<T>) -> bool {
    &&& a.len() == b.len()
    &&& forall|i: int| 0 <= i < a.len() ==> #[trigger] a[i].eq_spec(&b[i])
}

/// Compares two slices with the elements' own `==`, stopping at the first
/// difference.
pub fn same_elements<T: PartialEq>(a: &[T], b: &[T]) -> (r: bool)
    ensures
        T::obeys_eq_spec() ==> r == elements_eq(a@, b@),
{
    if a.len() != b.len() {
        return false;
    }
    let n = a.len();
    let mut i: usize = 0;
    while i < n
        invariant
            n == a@.len(),
            n == b@.len(),
            i <= n,
            T::obeys_eq_spec() ==> forall|j: int| 0 <= j < i ==> #[trigger] a@[j].eq_spec(&b@[j]),
        decreases n - i,
    {
        if !(a[i] == b[i]) {
            return false;
        }
        i += 1;
    }
    true
}

/// Compares two byte slices.
pub fn same_bytes(a: &[u8], b: &[u8]) -> (r: bool)
    ensures
        r == (a@ == b@),
{
    let r = same_elements(a, b);
    proof {
        if r {
            assert forall|i: int| 0 <= i < a@.len() implies a@[i] == b@[i] by {
                assert(a@[i].eq_spec(&b@[i]));
            }
            assert(a@ =~= b@);
        }
    }
    r
}

/// Whether `copy` holds a clone of each element of `source`, in order.
pub open spec fn elements_cloned<T: Clone>(source: Seq<T>, copy: Seq<T>) -> bool {
    &&& copy.len() == source.len()
    &&& forall|i: int| 0 <= i < source.len() ==> cloned(#[trigger] source[i], copy[i])
}

/// A vector with a clone of each element of `slice`, in order.
pub fn clone_elements<T: Clone>(slice: &[T]) -> (copy: Vec<T>)
    ensures
        elements_cloned(slice@, copy@),
{
    let mut copy: Vec<T> = Vec::new();
    let n = slice.len();
    let mut i: usize = 0;
    while i < n
        invariant
            n == slice@.len(),
            i <= n,
            copy@.len() == i,
            forall|j: int| 0 <= j < i ==> cloned(#[trigger] slice@[j], copy@[j]),
        decreases n - i,
    {
        copy.push(slice[i].clone());
        i += 1;
    }
    copy
}

/// Overwrites the first `n` bytes of `dst` with the first `n` bytes of
/// `src`.
pub fn copy_prefix(dst: &mut [u8], src: &[u8], n: usize)
    requires
        n <= old(dst)@.len(),
        n <= src@.len(),
    ensures
        final(dst)@ == src@.subrange(0, n as int) + old(dst)@.subrange(
            n as int,
            old(dst)@.len() as int,
        ),
{
    let mut i: usize = 0;
    while i < n
        invariant
            n <= src@.len(),
            n <= dst@.len(),
            dst@.len() == old(dst)@.len(),
            i <= n,
            forall|j: int| 0 <= j < i ==> dst@[j] == src@[j],
            forall|j: int| i <= j < dst@.len() ==> dst@[j] == old(dst)@[j],
        decreases n - i,
    {
        dst[i] = src[i];
        i += 1;
    }
    assert(dst@ =~= src@.subrange(0, n as int) + old(dst)@.subrange(
        n as int,
        old(dst)@.len() as int,
    ));
}

} // verus!
