//! Laws of matrix algebra.
//!
//! A matrix over lawful elements is lawful itself: the zero matrix is
//! neutral for addition and sums may be regrouped, and for square matrices
//! the identity matrix is neutral for multiplication and the zero matrix
//! absorbing. The other laws here speak of shapes, of the product over an
//! empty inner dimension, and of the three forms in which each operation
//! can be called.

use crate::element::{
    AdditiveIdentity, AdditiveLaws, MultiplicativeIdentity, MultiplicativeLaws, Negate, Plus, Times,
};
use crate::grid::{
    dot, dot_ok, has_shape, identity_grid, negation_grid, product_grid, sum_grid, zero_grid,
};
use crate::matrix::Matrix;
use vstd::prelude::*;
use vstd::std_specs::ops::{AddSpec, MulSpec, NegSpec, SubSpec};

verus! {

/// The entries of a sum are the sums of the entries.
pub proof fn lemma_plus_view<R: Plus, const ROWS: usize, const COLS: usize>(
    a: Matrix<R, ROWS, COLS>,
    b: Matrix<R, ROWS, COLS>,
)
    ensures
        a.plus_spec(&b)@ == sum_grid(a@, b@),
{
    Matrix::<R, ROWS, COLS>::lemma_from_grid(sum_grid(a@, b@));
}

/// The entries of a negation are the negated entries.
pub proof fn lemma_negate_view<R: Negate, const ROWS: usize, const COLS: usize>(
    a: Matrix<R, ROWS, COLS>,
)
    ensures
        a.negate_spec()@ == negation_grid(a@),
{
    Matrix::<R, ROWS, COLS>::lemma_from_grid(negation_grid(a@));
}

/// The entries of a product are the sums of products of rows with columns.
pub proof fn lemma_times_view<R1, R2, R3, const A: usize, const B: usize, const C: usize>(
    a: Matrix<R1, A, B>,
    b: Matrix<R2, B, C>,
) where R1: Times<R2, Output = R3>, R3: AdditiveIdentity
    ensures
        a.times_spec(&b)@ == product_grid::<R1, R2, R3>(a@, b@, A as nat, B as nat, C as nat),
{
    Matrix::<R3, A, C>::lemma_from_grid(
        product_grid::<R1, R2, R3>(a@, b@, A as nat, B as nat, C as nat),
    );
}

/// The entries of the zero matrix are all zero.
pub proof fn lemma_zero_view<R: AdditiveIdentity, const ROWS: usize, const COLS: usize>()
    ensures
        Matrix::<R, ROWS, COLS>::zero_spec()@ == zero_grid::<R>(ROWS as nat, COLS as nat),
{
    Matrix::<R, ROWS, COLS>::lemma_from_grid(zero_grid::<R>(ROWS as nat, COLS as nat));
}

/// The entries of the identity matrix are one on the diagonal and zero
/// elsewhere.
pub proof fn lemma_one_view<R: MultiplicativeIdentity, const DIM: usize>()
    ensures
        Matrix::<R, DIM, DIM>::one_spec()@ == identity_grid::<R>(DIM as nat),
{
    Matrix::<R, DIM, DIM>::lemma_from_grid(identity_grid::<R>(DIM as nat));
}

/// A sum has the shape of its operands, which have the same shape.
pub proof fn lemma_sum_shape<R: Plus, const ROWS: usize, const COLS: usize>(
    a: Matrix<R, ROWS, COLS>,
    b: Matrix<R, ROWS, COLS>,
)
    ensures
        has_shape(a@, ROWS as nat, COLS as nat),
        has_shape(b@, ROWS as nat, COLS as nat),
        has_shape(a.plus_spec(&b)@, ROWS as nat, COLS as nat),
{
}

/// The product of a matrix of `A` rows and `B` columns with one of `B` rows
/// and `C` columns has `A` rows and `C` columns.
pub proof fn lemma_product_shape<R1, R2, R3, const A: usize, const B: usize, const C: usize>(
    a: Matrix<R1, A, B>,
    b: Matrix<R2, B, C>,
) where R1: Times<R2, Output = R3>, R3: AdditiveIdentity
    ensures
        has_shape(a@, A as nat, B as nat),
        has_shape(b@, B as nat, C as nat),
        has_shape(a.times_spec(&b)@, A as nat, C as nat),
{
}

/// The product over an empty inner dimension can always be computed, and
/// is the zero matrix.
pub proof fn lemma_empty_contraction<R1, R2, R3, const A: usize, const C: usize>(
    a: Matrix<R1, A, 0>,
    b: Matrix<R2, 0, C>,
) where R1: Times<R2, Output = R3>, R3: AdditiveIdentity
    ensures
        a.times_ok(&b),
        a.times_spec(&b) == Matrix::<R3, A, C>::zero_spec(),
        a.times_spec(&b)@ == zero_grid::<R3>(A as nat, C as nat),
{
    lemma_times_view::<R1, R2, R3, A, 0, C>(a, b);
    assert(product_grid::<R1, R2, R3>(a@, b@, A as nat, 0, C as nat) =~~= zero_grid::<R3>(
        A as nat,
        C as nat,
    ));
}

impl<R: AdditiveLaws, const ROWS: usize, const COLS: usize> AdditiveLaws for Matrix<R, ROWS, COLS> {
    /// Adding the zero matrix on the right changes nothing.
    proof fn lemma_plus_zero(a: &Self) {
        let zero = Self::zero_spec();
        lemma_zero_view::<R, ROWS, COLS>();
        lemma_plus_view(*a, zero);
        assert forall|i: int, j: int| 0 <= i < ROWS && 0 <= j < COLS implies (#[trigger] a@[i][j]).plus_ok(
            &zero@[i][j],
        ) && a@[i][j].plus_spec(&zero@[i][j]) == a@[i][j] by {
            R::lemma_plus_zero(&a@[i][j]);
        }
        assert(sum_grid(a@, zero@) =~~= a@);
        Self::lemma_same_entries(a.plus_spec(&zero), *a);
    }

    /// Adding the zero matrix on the left changes nothing.
    proof fn lemma_zero_plus(a: &Self) {
        let zero = Self::zero_spec();
        lemma_zero_view::<R, ROWS, COLS>();
        lemma_plus_view(zero, *a);
        assert forall|i: int, j: int| 0 <= i < ROWS && 0 <= j < COLS implies (#[trigger] zero@[i][j]).plus_ok(
            &a@[i][j],
        ) && zero@[i][j].plus_spec(&a@[i][j]) == a@[i][j] by {
            R::lemma_zero_plus(&a@[i][j]);
        }
        assert(sum_grid(zero@, a@) =~~= a@);
        Self::lemma_same_entries(zero.plus_spec(a), *a);
    }

    /// Sums of matrices may be regrouped where sums of their entries may.
    proof fn lemma_plus_regroup(a: &Self, b: &Self, c: &Self) {
        let ab = a.plus_spec(b);
        let bc = b.plus_spec(c);
        lemma_plus_view(*a, *b);
        lemma_plus_view(*b, *c);
        lemma_plus_view(ab, *c);
        lemma_plus_view(*a, bc);
        assert forall|i: int, j: int| 0 <= i < ROWS && 0 <= j < COLS implies (#[trigger] a@[i][j]).plus_ok(
            &bc@[i][j],
        ) && a@[i][j].plus_spec(&bc@[i][j]) == ab@[i][j].plus_spec(&c@[i][j]) by {
            assert(a@[i][j].plus_ok(&b@[i][j]));
            assert(ab@[i][j].plus_ok(&c@[i][j]));
            assert(b@[i][j].plus_ok(&c@[i][j]));
            R::lemma_plus_regroup(&a@[i][j], &b@[i][j], &c@[i][j]);
        }
        assert(sum_grid(a@, bc@) =~~= sum_grid(ab@, c@));
        Self::lemma_same_entries(a.plus_spec(&bc), ab.plus_spec(c));
    }
}

/// The sum of the first `n` products of row `i` of `a` with column `k` of
/// the identity grid: zero before the diagonal is reached, and `a[i][k]`
/// from there on.
proof fn lemma_dot_with_identity<R: MultiplicativeLaws>(a: Seq<Seq<R>>, i: int, k: int, n: nat, dim: nat)
    requires
        has_shape(a, dim, dim),
        0 <= i < dim,
        0 <= k < dim,
        n <= dim,
    ensures
        dot_ok::<R, R, R>(a, identity_grid::<R>(dim), i, k, n),
        dot::<R, R, R>(a, identity_grid::<R>(dim), i, k, n) == (if n <= k {
            R::zero_spec()
        } else {
            a[i][k]
        }),
    decreases n,
{
    if n > 0 {
        let j = n - 1;
        let before = dot::<R, R, R>(a, identity_grid::<R>(dim), i, k, j as nat);
        lemma_dot_with_identity(a, i, k, j as nat, dim);
        if j == k {
            R::lemma_times_one(&a[i][j]);
            R::lemma_zero_plus(&a[i][k]);
        } else {
            R::lemma_times_zero(&a[i][j]);
            R::lemma_plus_zero(&before);
        }
    }
}

/// The sum of the first `n` products of row `i` of the identity grid with
/// column `k` of `a`: zero before the diagonal is reached, and `a[i][k]`
/// from there on.
proof fn lemma_dot_identity_with<R: MultiplicativeLaws>(a: Seq<Seq<R>>, i: int, k: int, n: nat, dim: nat)
    requires
        has_shape(a, dim, dim),
        0 <= i < dim,
        0 <= k < dim,
        n <= dim,
    ensures
        dot_ok::<R, R, R>(identity_grid::<R>(dim), a, i, k, n),
        dot::<R, R, R>(identity_grid::<R>(dim), a, i, k, n) == (if n <= i {
            R::zero_spec()
        } else {
            a[i][k]
        }),
    decreases n,
{
    if n > 0 {
        let j = n - 1;
        let before = dot::<R, R, R>(identity_grid::<R>(dim), a, i, k, j as nat);
        lemma_dot_identity_with(a, i, k, j as nat, dim);
        if j == i {
            R::lemma_one_times(&a[j][k]);
            R::lemma_zero_plus(&a[i][k]);
        } else {
            R::lemma_zero_times(&a[j][k]);
            R::lemma_plus_zero(&before);
        }
    }
}

/// A sum of products with entries of the zero grid on the right is zero.
proof fn lemma_dot_with_zero<R: MultiplicativeLaws>(a: Seq<Seq<R>>, i: int, k: int, n: nat, dim: nat)
    requires
        has_shape(a, dim, dim),
        0 <= i < dim,
        0 <= k < dim,
        n <= dim,
    ensures
        dot_ok::<R, R, R>(a, zero_grid::<R>(dim, dim), i, k, n),
        dot::<R, R, R>(a, zero_grid::<R>(dim, dim), i, k, n) == R::zero_spec(),
    decreases n,
{
    if n > 0 {
        let j = n - 1;
        lemma_dot_with_zero(a, i, k, j as nat, dim);
        R::lemma_times_zero(&a[i][j]);
        R::lemma_plus_zero(&R::zero_spec());
    }
}

/// A sum of products with entries of the zero grid on the left is zero.
proof fn lemma_dot_zero_with<R: MultiplicativeLaws>(a: Seq<Seq<R>>, i: int, k: int, n: nat, dim: nat)
    requires
        has_shape(a, dim, dim),
        0 <= i < dim,
        0 <= k < dim,
        n <= dim,
    ensures
        dot_ok::<R, R, R>(zero_grid::<R>(dim, dim), a, i, k, n),
        dot::<R, R, R>(zero_grid::<R>(dim, dim), a, i, k, n) == R::zero_spec(),
    decreases n,
{
    if n > 0 {
        let j = n - 1;
        lemma_dot_zero_with(a, i, k, j as nat, dim);
        R::lemma_zero_times(&a[j][k]);
        R::lemma_plus_zero(&R::zero_spec());
    }
}

impl<R: MultiplicativeLaws, const DIM: usize> MultiplicativeLaws for Matrix<R, DIM, DIM> {
    /// Multiplying by the identity matrix on the right changes nothing.
    proof fn lemma_times_one(a: &Self) {
        let one = Self::one_spec();
        lemma_one_view::<R, DIM>();
        lemma_times_view::<R, R, R, DIM, DIM, DIM>(*a, one);
        assert forall|i: int, k: int|
            #![trigger dot_ok::<R, R, R>(a@, one@, i, k, DIM as nat)]
            #![trigger dot::<R, R, R>(a@, one@, i, k, DIM as nat)]
            0 <= i < DIM && 0 <= k < DIM implies dot_ok::<R, R, R>(a@, one@, i, k, DIM as nat)
            && dot::<R, R, R>(a@, one@, i, k, DIM as nat) == a@[i][k] by {
            lemma_dot_with_identity(a@, i, k, DIM as nat, DIM as nat);
        }
        assert(product_grid::<R, R, R>(a@, one@, DIM as nat, DIM as nat, DIM as nat) =~~= a@);
        Self::lemma_same_entries(a.times_spec(&one), *a);
    }

    /// Multiplying by the identity matrix on the left changes nothing.
    proof fn lemma_one_times(a: &Self) {
        let one = Self::one_spec();
        lemma_one_view::<R, DIM>();
        lemma_times_view::<R, R, R, DIM, DIM, DIM>(one, *a);
        assert forall|i: int, k: int|
            #![trigger dot_ok::<R, R, R>(one@, a@, i, k, DIM as nat)]
            #![trigger dot::<R, R, R>(one@, a@, i, k, DIM as nat)]
            0 <= i < DIM && 0 <= k < DIM implies dot_ok::<R, R, R>(one@, a@, i, k, DIM as nat)
            && dot::<R, R, R>(one@, a@, i, k, DIM as nat) == a@[i][k] by {
            lemma_dot_identity_with(a@, i, k, DIM as nat, DIM as nat);
        }
        assert(product_grid::<R, R, R>(one@, a@, DIM as nat, DIM as nat, DIM as nat) =~~= a@);
        Self::lemma_same_entries(one.times_spec(a), *a);
    }

    /// Multiplying by the zero matrix on the right gives the zero matrix.
    proof fn lemma_times_zero(a: &Self) {
        let zero = Self::zero_spec();
        lemma_zero_view::<R, DIM, DIM>();
        lemma_times_view::<R, R, R, DIM, DIM, DIM>(*a, zero);
        assert forall|i: int, k: int|
            #![trigger dot_ok::<R, R, R>(a@, zero@, i, k, DIM as nat)]
            #![trigger dot::<R, R, R>(a@, zero@, i, k, DIM as nat)]
            0 <= i < DIM && 0 <= k < DIM implies dot_ok::<R, R, R>(a@, zero@, i, k, DIM as nat)
            && dot::<R, R, R>(a@, zero@, i, k, DIM as nat) == R::zero_spec() by {
            lemma_dot_with_zero(a@, i, k, DIM as nat, DIM as nat);
        }
        assert(product_grid::<R, R, R>(a@, zero@, DIM as nat, DIM as nat, DIM as nat) =~~= zero@);
        Self::lemma_same_entries(a.times_spec(&zero), zero);
    }

    /// Multiplying by the zero matrix on the left gives the zero matrix.
    proof fn lemma_zero_times(a: &Self) {
        let zero = Self::zero_spec();
        lemma_zero_view::<R, DIM, DIM>();
        lemma_times_view::<R, R, R, DIM, DIM, DIM>(zero, *a);
        assert forall|i: int, k: int|
            #![trigger dot_ok::<R, R, R>(zero@, a@, i, k, DIM as nat)]
            #![trigger dot::<R, R, R>(zero@, a@, i, k, DIM as nat)]
            0 <= i < DIM && 0 <= k < DIM implies dot_ok::<R, R, R>(zero@, a@, i, k, DIM as nat)
            && dot::<R, R, R>(zero@, a@, i, k, DIM as nat) == R::zero_spec() by {
            lemma_dot_zero_with(a@, i, k, DIM as nat, DIM as nat);
        }
        assert(product_grid::<R, R, R>(zero@, a@, DIM as nat, DIM as nat, DIM as nat) =~~= zero@);
        Self::lemma_same_entries(zero.times_spec(a), zero);
    }
}

/// A sum is the same matrix, and can be computed on the same operands,
/// whether it is taken of two matrices, of references to them, or of
/// borrowed views of them.
pub proof fn lemma_sum_forms_agree<R: Plus, const ROWS: usize, const COLS: usize>(
    a: Matrix<R, ROWS, COLS>,
    b: Matrix<R, ROWS, COLS>,
)
    ensures
        a.add_req(b) == a.as_ref().add_req(b.as_ref()),
        (&a).add_req(&b) == a.as_ref().add_req(b.as_ref()),
        a.add_spec(b) == a.as_ref().add_spec(b.as_ref()),
        (&a).add_spec(&b) == a.as_ref().add_spec(b.as_ref()),
{
}

/// A difference is the same matrix, and can be computed on the same
/// operands, whether it is taken of two matrices, of references to them,
/// or of borrowed views of them.
pub proof fn lemma_difference_forms_agree<R: Plus + Negate, const ROWS: usize, const COLS: usize>(
    a: Matrix<R, ROWS, COLS>,
    b: Matrix<R, ROWS, COLS>,
)
    ensures
        a.sub_req(b) == a.as_ref().sub_req(b.as_ref()),
        (&a).sub_req(&b) == a.as_ref().sub_req(b.as_ref()),
        a.sub_spec(b) == a.as_ref().sub_spec(b.as_ref()),
        (&a).sub_spec(&b) == a.as_ref().sub_spec(b.as_ref()),
{
}

/// A negation is the same matrix, and can be computed on the same
/// operand, whether it is taken of a matrix, of a reference to it, or of a
/// borrowed view of it.
pub proof fn lemma_negation_forms_agree<R: Negate, const ROWS: usize, const COLS: usize>(
    a: Matrix<R, ROWS, COLS>,
)
    ensures
        a.neg_req() == a.as_ref().neg_req(),
        (&a).neg_req() == a.as_ref().neg_req(),
        a.neg_spec() == a.as_ref().neg_spec(),
        (&a).neg_spec() == a.as_ref().neg_spec(),
{
}

/// A product is the same matrix, and can be computed on the same
/// operands, whether it is taken of two matrices, of references to them,
/// or of borrowed views of them.
pub proof fn lemma_product_forms_agree<R1, R2, R3, const A: usize, const B: usize, const C: usize>(
    a: Matrix<R1, A, B>,
    b: Matrix<R2, B, C>,
) where R1: Times<R2, Output = R3>, R3: AdditiveIdentity
    ensures
        a.mul_req(b) == a.as_ref().mul_req(b.as_ref()),
        (&a).mul_req(&b) == a.as_ref().mul_req(b.as_ref()),
        a.mul_spec(b) == a.as_ref().mul_spec(b.as_ref()),
        (&a).mul_spec(&b) == a.as_ref().mul_spec(b.as_ref()),
{
}

} // verus!
