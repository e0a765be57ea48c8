//! Entrywise negation.

use crate::element::Negate;
use crate::grid::{negation_grid, negation_ok};
use crate::matrix::{Matrix, MatrixRef};
use vstd::prelude::*;

verus! {

impl<R: Negate, const ROWS: usize, const COLS: usize> Negate for Matrix<R, ROWS, COLS> {
    /// A matrix can be negated where each of its entries can.
    open spec fn negate_ok(&self) -> bool {
        negation_ok(self@)
    }

    /// The matrix of the negated entries.
    open spec fn negate_spec(&self) -> Self {
        Self::from_grid(negation_grid(self@))
    }

    fn negate(&self) -> (negation: Self)
        ensures
            negation@ == negation_grid(self@),
    {
        std::ops::Neg::neg(self.as_ref())
    }
}

impl<'a, R: Negate, const ROWS: usize, const COLS: usize> vstd::std_specs::ops::NegSpecImpl for MatrixRef<'a, R, ROWS, COLS> {
    open spec fn obeys_neg_spec() -> bool {
        true
    }

    open spec fn neg_req(self) -> bool {
        negation_ok(self@)
    }

    open spec fn neg_spec(self) -> Matrix<R, ROWS, COLS> {
        Matrix::from_grid(negation_grid(self@))
    }
}

impl<'a, R: Negate, const ROWS: usize, const COLS: usize> std::ops::Neg for MatrixRef<'a, R, ROWS, COLS> {
    type Output = Matrix<R, ROWS, COLS>;

    /// The matrix whose entry in each place is the negated entry of the
    /// operand in that place.
    fn neg(self) -> (negation: Matrix<R, ROWS, COLS>)
        ensures
            negation@ == negation_grid(self@),
    {
        let vals = core::array::from_fn(
            |i: usize| -> (row: [R; COLS])
                requires
                    i < ROWS,
                ensures
                    row@ == negation_grid(self@)[i as int]
                {
                    let row = core::array::from_fn(
                        |j: usize| -> (e: R)
                            requires
                                i < ROWS,
                                j < COLS,
                            ensures
                                e == self@[i as int][j as int].negate_spec()
                            {
                                assert(self@[i as int][j as int].negate_ok());
                                self.vals[i][j].negate()
                            },
                    );
                    assert(row@ =~= negation_grid(self@)[i as int]);
                    row
                },
        );
        let negation = Matrix { vals };
        proof {
            assert(negation@ =~= negation_grid(self@));
            Matrix::<R, ROWS, COLS>::lemma_from_grid(negation_grid(self@));
            Matrix::lemma_same_entries(negation, Matrix::from_grid(negation_grid(self@)));
        }
        negation
    }
}

impl<'a, R: Negate, const ROWS: usize, const COLS: usize> vstd::std_specs::ops::NegSpecImpl for &'a Matrix<R, ROWS, COLS> {
    open spec fn obeys_neg_spec() -> bool {
        true
    }

    open spec fn neg_req(self) -> bool {
        self.negate_ok()
    }

    open spec fn neg_spec(self) -> Matrix<R, ROWS, COLS> {
        self.negate_spec()
    }
}

impl<'a, R: Negate, const ROWS: usize, const COLS: usize> std::ops::Neg for &'a Matrix<R, ROWS, COLS> {
    type Output = Matrix<R, ROWS, COLS>;

    /// The negation of a matrix behind a reference, which stays usable.
    fn neg(self) -> (negation: Matrix<R, ROWS, COLS>)
        ensures
            negation@ == negation_grid(self@),
    {
        std::ops::Neg::neg(self.as_ref())
    }
}

impl<R: Negate, const ROWS: usize, const COLS: usize> vstd::std_specs::ops::NegSpecImpl for Matrix<R, ROWS, COLS> {
    open spec fn obeys_neg_spec() -> bool {
        true
    }

    open spec fn neg_req(self) -> bool {
        self.negate_ok()
    }

    open spec fn neg_spec(self) -> Matrix<R, ROWS, COLS> {
        self.negate_spec()
    }
}

impl<R: Negate, const ROWS: usize, const COLS: usize> std::ops::Neg for Matrix<R, ROWS, COLS> {
    type Output = Matrix<R, ROWS, COLS>;

    /// The negation of a matrix, which is used up.
    fn neg(self) -> (negation: Matrix<R, ROWS, COLS>)
        ensures
            negation@ == negation_grid(self@),
    {
        std::ops::Neg::neg(self.as_ref())
    }
}

} // verus!
