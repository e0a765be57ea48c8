//! Fixed-size arrays: how they are filled, and how one is described in
//! specifications by the sequence of its entries.

use vstd::prelude::*;

verus! {

/// `core::array::from_fn` calls `f` once for each index below `N`, in
/// ascending order, and returns the array of the results: the entry at
/// index `i` is what `f(i)` returned. It is assumed here, not proved, and
/// asks that `f` may be called on every such index.
pub assume_specification<T, const N: usize, F: FnMut(usize) -> T>[ core::array::from_fn::<T, N, F> ](
    f: F,
) -> (a: [T; N])
    requires
        forall|i: usize| i < N ==> call_requires(f, (i,)),
    ensures
        forall|i: usize| i < N ==> call_ensures(f, (i,), #[trigger] a@[i as int]),
;

/// An array whose first `k` entries are those of `s`.
pub open spec fn array_prefix<T, const N: usize>(s: Seq<T>, k: nat) -> [T; N]
    decreases k,
{
    if k == 0 {
        arbitrary()
    } else {
        vstd::array::spec_array_update(array_prefix::<T, N>(s, (k - 1) as nat), k - 1, s[k - 1])
    }
}

/// The array whose entries are those of `s`, for `s` of length `N`.
pub open spec fn array_of<T, const N: usize>(s: Seq<T>) -> [T; N] {
    array_prefix::<T, N>(s, N as nat)
}

proof fn lemma_array_prefix<T, const N: usize>(s: Seq<T>, k: nat)
    requires
        k <= N,
    ensures
        forall|i: int| 0 <= i < k ==> (#[trigger] array_prefix::<T, N>(s, k)@[i]) == s[i],
    decreases k,
{
    if k > 0 {
        let shorter = array_prefix::<T, N>(s, (k - 1) as nat);
        lemma_array_prefix::<T, N>(s, (k - 1) as nat);
        vstd::array::axiom_spec_array_update(shorter, k - 1, s[k - 1]);
    }
}

/// `array_of(s)` has exactly the entries of `s`.
pub proof fn lemma_array_of<T, const N: usize>(s: Seq<T>)
    requires
        s.len() == N,
    ensures
        array_of::<T, N>(s)@ == s,
{
    lemma_array_prefix::<T, N>(s, N as nat);
    assert(array_of::<T, N>(s)@ =~= s);
}

/// Two arrays with the same entries are the same array.
pub proof fn lemma_array_equal<T, const N: usize>(a: [T; N], b: [T; N])
    requires
        a@ == b@,
    ensures
        a == b,
{
    assert forall|i: int| 0 <= i < N implies a[i] == b[i] by {
        assert(a@[i] == b@[i]);
    }
    vstd::array::axiom_array_ext_equal(a, b);
    assert(a =~= b);
}

} // verus!
