//! The trace of a square matrix.

use crate::element::AdditiveIdentity;
use crate::grid::{diagonal_ok, diagonal_sum, lemma_diagonal_ok_prefix};
use crate::matrix::{Matrix, MatrixRef};
use vstd::prelude::*;

verus! {

impl<'a, R: AdditiveIdentity, const DIM: usize> MatrixRef<'a, R, DIM, DIM> {
    /// The sum of the diagonal entries, added from the first to the last
    /// onto the zero of the element type.
    pub fn trace(&self) -> (sum: R)
        requires
            diagonal_ok(self@, DIM as nat),
        ensures
            sum == diagonal_sum(self@, DIM as nat),
    {
        let mut sum = R::additive_identity();
        let mut i: usize = 0;
        while i < DIM
            invariant
                i <= DIM,
                diagonal_ok(self@, DIM as nat),
                sum == diagonal_sum(self@, i as nat),
            decreases DIM - i,
        {
            proof {
                lemma_diagonal_ok_prefix(self@, DIM as nat, (i + 1) as nat);
            }
            sum = sum.plus(&self.vals[i][i]);
            i += 1;
        }
        sum
    }
}

impl<R: AdditiveIdentity, const DIM: usize> Matrix<R, DIM, DIM> {
    /// The sum of the diagonal entries, added from the first to the last
    /// onto the zero of the element type.
    pub fn trace(&self) -> (sum: R)
        requires
            diagonal_ok(self@, DIM as nat),
        ensures
            sum == diagonal_sum(self@, DIM as nat),
    {
        self.as_ref().trace()
    }
}

} // verus!
