//! The product of matrices: rows contracted with columns.
//!
//! An `A` by `B` matrix times a `B` by `C` matrix is an `A` by `C` matrix.
//! The element types of the operands and of the product may differ. Each
//! entry is a sum that starts at the zero of the product's element type,
//! so with `B = 0` every entry of the product is that zero.

use crate::element::{AdditiveIdentity, Times};
use crate::grid::{dot, dot_ok, lemma_dot_ok_prefix, product_grid, product_ok};
use crate::matrix::{grid_of, Matrix, MatrixRef};
use vstd::prelude::*;

verus! {

/// The entry of the product in row `i` and column `k`.
fn contract<R1, R2, R3, const A: usize, const B: usize, const C: usize>(
    lhs: &[[R1; B]; A],
    rhs: &[[R2; C]; B],
    i: usize,
    k: usize,
) -> (entry: R3) where R1: Times<R2, Output = R3>, R3: AdditiveIdentity
    requires
        i < A,
        k < C,
        dot_ok::<R1, R2, R3>(grid_of(*lhs), grid_of(*rhs), i as int, k as int, B as nat),
    ensures
        entry == dot::<R1, R2, R3>(grid_of(*lhs), grid_of(*rhs), i as int, k as int, B as nat),
{
    let mut entry = R3::additive_identity();
    let mut j: usize = 0;
    while j < B
        invariant
            j <= B,
            i < A,
            k < C,
            dot_ok::<R1, R2, R3>(grid_of(*lhs), grid_of(*rhs), i as int, k as int, B as nat),
            entry == dot::<R1, R2, R3>(grid_of(*lhs), grid_of(*rhs), i as int, k as int, j as nat),
        decreases B - j,
    {
        proof {
            lemma_dot_ok_prefix::<R1, R2, R3>(
                grid_of(*lhs),
                grid_of(*rhs),
                i as int,
                k as int,
                B as nat,
                (j + 1) as nat,
            );
        }
        let term = lhs[i][j].times(&rhs[j][k]);
        entry = entry.plus(&term);
        j += 1;
    }
    entry
}

impl<R1, R2, R3, const A: usize, const B: usize, const C: usize> Times<Matrix<R2, B, C>> for Matrix<R1, A, B> where
    R1: Times<R2, Output = R3>,
    R3: AdditiveIdentity,
 {
    type Output = Matrix<R3, A, C>;

    /// A product of matrices can be computed where each of its entries can.
    open spec fn times_ok(&self, rhs: &Matrix<R2, B, C>) -> bool {
        product_ok::<R1, R2, R3>(self@, rhs@, A as nat, B as nat, C as nat)
    }

    /// The matrix of the sums of products of rows with columns.
    open spec fn times_spec(&self, rhs: &Matrix<R2, B, C>) -> Matrix<R3, A, C> {
        Matrix::from_grid(product_grid::<R1, R2, R3>(self@, rhs@, A as nat, B as nat, C as nat))
    }

    fn times(&self, rhs: &Matrix<R2, B, C>) -> (product: Matrix<R3, A, C>)
        ensures
            product@ == product_grid::<R1, R2, R3>(self@, rhs@, A as nat, B as nat, C as nat),
    {
        self.as_ref() * rhs.as_ref()
    }
}

impl<'a, 'b, R1, R2, R3, const A: usize, const B: usize, const C: usize> vstd::std_specs::ops::MulSpecImpl<MatrixRef<'b, R2, B, C>> for MatrixRef<'a, R1, A, B> where
    R1: Times<R2, Output = R3>,
    R3: AdditiveIdentity,
 {
    open spec fn obeys_mul_spec() -> bool {
        true
    }

    open spec fn mul_req(self, rhs: MatrixRef<'b, R2, B, C>) -> bool {
        product_ok::<R1, R2, R3>(self@, rhs@, A as nat, B as nat, C as nat)
    }

    open spec fn mul_spec(self, rhs: MatrixRef<'b, R2, B, C>) -> Matrix<R3, A, C> {
        Matrix::from_grid(product_grid::<R1, R2, R3>(self@, rhs@, A as nat, B as nat, C as nat))
    }
}

impl<'a, 'b, R1, R2, R3, const A: usize, const B: usize, const C: usize> std::ops::Mul<MatrixRef<'b, R2, B, C>> for MatrixRef<'a, R1, A, B> where
    R1: Times<R2, Output = R3>,
    R3: AdditiveIdentity,
 {
    type Output = Matrix<R3, A, C>;

    /// The matrix whose entry in row `i` and column `k` is the sum over `j`
    /// of the products of the left operand's entry in row `i` and column
    /// `j` with the right operand's entry in row `j` and column `k`.
    fn mul(self, rhs: MatrixRef<'b, R2, B, C>) -> (product: Matrix<R3, A, C>)
        ensures
            product@ == product_grid::<R1, R2, R3>(self@, rhs@, A as nat, B as nat, C as nat),
    {
        let ghost expected = product_grid::<R1, R2, R3>(self@, rhs@, A as nat, B as nat, C as nat);
        let vals = core::array::from_fn(
            |i: usize| -> (row: [R3; C])
                requires
                    i < A,
                ensures
                    row@ == expected[i as int]
                {
                    let row = core::array::from_fn(
                        |k: usize| -> (e: R3)
                            requires
                                i < A,
                                k < C,
                            ensures
                                e == dot::<R1, R2, R3>(self@, rhs@, i as int, k as int, B as nat)
                            {
                                assert(dot_ok::<R1, R2, R3>(self@, rhs@, i as int, k as int, B as nat));
                                contract(self.vals, rhs.vals, i, k)
                            },
                    );
                    assert(row@ =~= expected[i as int]);
                    row
                },
        );
        let product = Matrix { vals };
        proof {
            assert(product@ =~= expected);
            Matrix::<R3, A, C>::lemma_from_grid(expected);
            Matrix::lemma_same_entries(product, Matrix::from_grid(expected));
        }
        product
    }
}

impl<'a, 'b, R1, R2, R3, const A: usize, const B: usize, const C: usize> vstd::std_specs::ops::MulSpecImpl<&'b Matrix<R2, B, C>> for &'a Matrix<R1, A, B> where
    R1: Times<R2, Output = R3>,
    R3: AdditiveIdentity,
 {
    open spec fn obeys_mul_spec() -> bool {
        true
    }

    open spec fn mul_req(self, rhs: &'b Matrix<R2, B, C>) -> bool {
        self.times_ok(rhs)
    }

    open spec fn mul_spec(self, rhs: &'b Matrix<R2, B, C>) -> Matrix<R3, A, C> {
        self.times_spec(rhs)
    }
}

impl<'a, 'b, R1, R2, R3, const A: usize, const B: usize, const C: usize> std::ops::Mul<&'b Matrix<R2, B, C>> for &'a Matrix<R1, A, B> where
    R1: Times<R2, Output = R3>,
    R3: AdditiveIdentity,
 {
    type Output = Matrix<R3, A, C>;

    /// The product of two matrices behind references, which stay usable.
    fn mul(self, rhs: &'b Matrix<R2, B, C>) -> (product: Matrix<R3, A, C>)
        ensures
            product@ == product_grid::<R1, R2, R3>(self@, rhs@, A as nat, B as nat, C as nat),
    {
        self.as_ref() * rhs.as_ref()
    }
}

impl<R1, R2, R3, const A: usize, const B: usize, const C: usize> vstd::std_specs::ops::MulSpecImpl<Matrix<R2, B, C>> for Matrix<R1, A, B> where
    R1: Times<R2, Output = R3>,
    R3: AdditiveIdentity,
 {
    open spec fn obeys_mul_spec() -> bool {
        true
    }

    open spec fn mul_req(self, rhs: Matrix<R2, B, C>) -> bool {
        self.times_ok(&rhs)
    }

    open spec fn mul_spec(self, rhs: Matrix<R2, B, C>) -> Matrix<R3, A, C> {
        self.times_spec(&rhs)
    }
}

impl<R1, R2, R3, const A: usize, const B: usize, const C: usize> std::ops::Mul<Matrix<R2, B, C>> for Matrix<R1, A, B> where
    R1: Times<R2, Output = R3>,
    R3: AdditiveIdentity,
 {
    type Output = Matrix<R3, A, C>;

    /// The product of two matrices, which are used up.
    fn mul(self, rhs: Matrix<R2, B, C>) -> (product: Matrix<R3, A, C>)
        ensures
            product@ == product_grid::<R1, R2, R3>(self@, rhs@, A as nat, B as nat, C as nat),
    {
        self.as_ref() * rhs.as_ref()
    }
}

} // verus!
