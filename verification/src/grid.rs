//! Grids: the mathematical picture of a matrix, a sequence of rows that
//! are sequences of entries. The functions here say what the entries of a
//! sum, a product or a trace are, in terms of the element type's own
//! operations.

use crate::element::{AdditiveIdentity, MultiplicativeIdentity, Negate, Plus, Times};
use vstd::prelude::*;

verus! {

/// Whether `g` has `rows` rows of `cols` entries each.
pub open spec fn has_shape<R>(g: Seq<Seq<R>>, rows: nat, cols: nat) -> bool {
    &&& g.len() == rows
    &&& forall|i: int| 0 <= i < rows ==> (#[trigger] g[i]).len() == cols
}

/// Whether every entry of `a` can be added to the entry of `b` in the same
/// place.
pub open spec fn sum_ok<R: Plus>(a: Seq<Seq<R>>, b: Seq<Seq<R>>) -> bool {
    forall|i: int, j: int|
        0 <= i < a.len() && 0 <= j < a[i].len() ==> #[trigger] a[i][j].plus_ok(&b[i][j])
}

/// The grid of the entrywise sums of `a` and `b`.
pub open spec fn sum_grid<R: Plus>(a: Seq<Seq<R>>, b: Seq<Seq<R>>) -> Seq<Seq<R>> {
    Seq::new(a.len(), |i: int| Seq::new(a[i].len(), |j: int| a[i][j].plus_spec(&b[i][j])))
}

/// Whether every entry of `a` can be negated.
pub open spec fn negation_ok<R: Negate>(a: Seq<Seq<R>>) -> bool {
    forall|i: int, j: int| 0 <= i < a.len() && 0 <= j < a[i].len() ==> #[trigger] a[i][j].negate_ok()
}

/// The grid of the negated entries of `a`.
pub open spec fn negation_grid<R: Negate>(a: Seq<Seq<R>>) -> Seq<Seq<R>> {
    Seq::new(a.len(), |i: int| Seq::new(a[i].len(), |j: int| a[i][j].negate_spec()))
}

/// Whether `a - b` can be computed as `a + (-b)`: every entry of `b` can be
/// negated, and every entry of `a` can be added to the negated entry.
pub open spec fn difference_ok<R: Plus + Negate>(a: Seq<Seq<R>>, b: Seq<Seq<R>>) -> bool {
    negation_ok(b) && sum_ok(a, negation_grid(b))
}

/// The grid of `a - b`, which is `a + (-b)`.
pub open spec fn difference_grid<R: Plus + Negate>(a: Seq<Seq<R>>, b: Seq<Seq<R>>) -> Seq<Seq<R>> {
    sum_grid(a, negation_grid(b))
}

/// The sum of the first `n` products `a[i][j] * b[j][k]`, for `j` from 0
/// upwards: it starts at zero, and each product is added on the right of
/// the sum so far.
pub open spec fn dot<R1, R2, R3>(a: Seq<Seq<R1>>, b: Seq<Seq<R2>>, i: int, k: int, n: nat) -> R3 where
    R1: Times<R2, Output = R3>,
    R3: AdditiveIdentity,

    decreases n,
{
    if n == 0 {
        R3::zero_spec()
    } else {
        dot::<R1, R2, R3>(a, b, i, k, (n - 1) as nat).plus_spec(
            &a[i][n - 1].times_spec(&b[n - 1][k]),
        )
    }
}

/// Whether `dot(a, b, i, k, n)` can be computed: each of the `n` products
/// can, and each can be added to the sum of those before it.
pub open spec fn dot_ok<R1, R2, R3>(a: Seq<Seq<R1>>, b: Seq<Seq<R2>>, i: int, k: int, n: nat) -> bool where
    R1: Times<R2, Output = R3>,
    R3: AdditiveIdentity,

    decreases n,
{
    n == 0 || {
        &&& dot_ok::<R1, R2, R3>(a, b, i, k, (n - 1) as nat)
        &&& a[i][n - 1].times_ok(&b[n - 1][k])
        &&& dot::<R1, R2, R3>(a, b, i, k, (n - 1) as nat).plus_ok(
            &a[i][n - 1].times_spec(&b[n - 1][k]),
        )
    }
}

/// A sum of products that can be computed can be computed up to any
/// earlier point.
pub proof fn lemma_dot_ok_prefix<R1, R2, R3>(
    a: Seq<Seq<R1>>,
    b: Seq<Seq<R2>>,
    i: int,
    k: int,
    n: nat,
    m: nat,
) where R1: Times<R2, Output = R3>, R3: AdditiveIdentity
    requires
        dot_ok::<R1, R2, R3>(a, b, i, k, n),
        m <= n,
    ensures
        dot_ok::<R1, R2, R3>(a, b, i, k, m),
    decreases n,
{
    if m < n {
        lemma_dot_ok_prefix::<R1, R2, R3>(a, b, i, k, (n - 1) as nat, m);
    }
}

/// Whether the product of a grid `a` of `rows` rows and `inner` columns
/// with a grid `b` of `inner` rows and `cols` columns can be computed.
pub open spec fn product_ok<R1, R2, R3>(
    a: Seq<Seq<R1>>,
    b: Seq<Seq<R2>>,
    rows: nat,
    inner: nat,
    cols: nat,
) -> bool where R1: Times<R2, Output = R3>, R3: AdditiveIdentity {
    forall|i: int, k: int|
        0 <= i < rows && 0 <= k < cols ==> #[trigger] dot_ok::<R1, R2, R3>(a, b, i, k, inner)
}

/// The product of a grid `a` of `rows` rows and `inner` columns with a grid
/// `b` of `inner` rows and `cols` columns: the entry in row `i` and column
/// `k` is the sum over `j` of `a[i][j] * b[j][k]`.
pub open spec fn product_grid<R1, R2, R3>(
    a: Seq<Seq<R1>>,
    b: Seq<Seq<R2>>,
    rows: nat,
    inner: nat,
    cols: nat,
) -> Seq<Seq<R3>> where R1: Times<R2, Output = R3>, R3: AdditiveIdentity {
    Seq::new(rows, |i: int| Seq::new(cols, |k: int| dot::<R1, R2, R3>(a, b, i, k, inner)))
}

/// The grid of `rows` rows and `cols` columns whose entries are all zero.
pub open spec fn zero_grid<R: AdditiveIdentity>(rows: nat, cols: nat) -> Seq<Seq<R>> {
    Seq::new(rows, |i: int| Seq::new(cols, |j: int| R::zero_spec()))
}

/// The square grid with one on the diagonal and zero elsewhere.
pub open spec fn identity_grid<R: MultiplicativeIdentity>(dim: nat) -> Seq<Seq<R>> {
    Seq::new(
        dim,
        |i: int|
            Seq::new(
                dim,
                |j: int|
                    if i == j {
                        R::one_spec()
                    } else {
                        R::zero_spec()
                    },
            ),
    )
}

/// The sum of the first `n` diagonal entries of `a`: it starts at zero, and
/// each entry is added on the right of the sum so far.
pub open spec fn diagonal_sum<R: AdditiveIdentity>(a: Seq<Seq<R>>, n: nat) -> R
    decreases n,
{
    if n == 0 {
        R::zero_spec()
    } else {
        diagonal_sum(a, (n - 1) as nat).plus_spec(&a[n - 1][n - 1])
    }
}

/// Whether `diagonal_sum(a, n)` can be computed: each of the `n` entries
/// can be added to the sum of those before it.
pub open spec fn diagonal_ok<R: AdditiveIdentity>(a: Seq<Seq<R>>, n: nat) -> bool
    decreases n,
{
    n == 0 || {
        &&& diagonal_ok(a, (n - 1) as nat)
        &&& diagonal_sum(a, (n - 1) as nat).plus_ok(&a[n - 1][n - 1])
    }
}

/// A diagonal sum that can be computed can be computed up to any earlier
/// point.
pub proof fn lemma_diagonal_ok_prefix<R: AdditiveIdentity>(a: Seq<Seq<R>>, n: nat, m: nat)
    requires
        diagonal_ok(a, n),
        m <= n,
    ensures
        diagonal_ok(a, m),
    decreases n,
{
    if m < n {
        lemma_diagonal_ok_prefix(a, (n - 1) as nat, m);
    }
}

} // verus!
