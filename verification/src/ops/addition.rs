//! Entrywise addition.
//!
//! The sum of two borrowed matrices is where the work is done; the sums of
//! two matrices, owned or behind references, borrow their operands and
//! hand them on.

use crate::element::Plus;
use crate::grid::{sum_grid, sum_ok};
use crate::matrix::{Matrix, MatrixRef};
use vstd::prelude::*;

verus! {

impl<R: Plus, const ROWS: usize, const COLS: usize> Plus for Matrix<R, ROWS, COLS> {
    /// A sum of matrices can be computed where each sum of two entries can.
    open spec fn plus_ok(&self, rhs: &Self) -> bool {
        sum_ok(self@, rhs@)
    }

    /// The matrix of the entrywise sums.
    open spec fn plus_spec(&self, rhs: &Self) -> Self {
        Self::from_grid(sum_grid(self@, rhs@))
    }

    fn plus(&self, rhs: &Self) -> (sum: Self)
        ensures
            sum@ == sum_grid(self@, rhs@),
    {
        self.as_ref() + rhs.as_ref()
    }
}

impl<'a, 'b, R: Plus, const ROWS: usize, const COLS: usize> vstd::std_specs::ops::AddSpecImpl<MatrixRef<'b, R, ROWS, COLS>> for MatrixRef<'a, R, ROWS, COLS> {
    open spec fn obeys_add_spec() -> bool {
        true
    }

    open spec fn add_req(self, rhs: MatrixRef<'b, R, ROWS, COLS>) -> bool {
        sum_ok(self@, rhs@)
    }

    open spec fn add_spec(self, rhs: MatrixRef<'b, R, ROWS, COLS>) -> Matrix<R, ROWS, COLS> {
        Matrix::from_grid(sum_grid(self@, rhs@))
    }
}

impl<'a, 'b, R: Plus, const ROWS: usize, const COLS: usize> std::ops::Add<MatrixRef<'b, R, ROWS, COLS>> for MatrixRef<'a, R, ROWS, COLS> {
    type Output = Matrix<R, ROWS, COLS>;

    /// The matrix whose entry in each place is the sum of the operands'
    /// entries in that place.
    fn add(self, rhs: MatrixRef<'b, R, ROWS, COLS>) -> (sum: Matrix<R, ROWS, COLS>)
        ensures
            sum@ == sum_grid(self@, rhs@),
    {
        let vals = core::array::from_fn(
            |i: usize| -> (row: [R; COLS])
                requires
                    i < ROWS,
                ensures
                    row@ == sum_grid(self@, rhs@)[i as int]
                {
                    let row = core::array::from_fn(
                        |j: usize| -> (e: R)
                            requires
                                i < ROWS,
                                j < COLS,
                            ensures
                                e == self@[i as int][j as int].plus_spec(&rhs@[i as int][j as int])
                            {
                                assert(self@[i as int][j as int].plus_ok(&rhs@[i as int][j as int]));
                                self.vals[i][j].plus(&rhs.vals[i][j])
                            },
                    );
                    assert(row@ =~= sum_grid(self@, rhs@)[i as int]);
                    row
                },
        );
        let sum = Matrix { vals };
        proof {
            assert(sum@ =~= sum_grid(self@, rhs@));
            Matrix::<R, ROWS, COLS>::lemma_from_grid(sum_grid(self@, rhs@));
            Matrix::lemma_same_entries(sum, Matrix::from_grid(sum_grid(self@, rhs@)));
        }
        sum
    }
}

impl<'a, 'b, R: Plus, const ROWS: usize, const COLS: usize> vstd::std_specs::ops::AddSpecImpl<&'b Matrix<R, ROWS, COLS>> for &'a Matrix<R, ROWS, COLS> {
    open spec fn obeys_add_spec() -> bool {
        true
    }

    open spec fn add_req(self, rhs: &'b Matrix<R, ROWS, COLS>) -> bool {
        self.plus_ok(rhs)
    }

    open spec fn add_spec(self, rhs: &'b Matrix<R, ROWS, COLS>) -> Matrix<R, ROWS, COLS> {
        self.plus_spec(rhs)
    }
}

impl<'a, 'b, R: Plus, const ROWS: usize, const COLS: usize> std::ops::Add<&'b Matrix<R, ROWS, COLS>> for &'a Matrix<R, ROWS, COLS> {
    type Output = Matrix<R, ROWS, COLS>;

    /// The sum of two matrices behind references, which stay usable.
    fn add(self, rhs: &'b Matrix<R, ROWS, COLS>) -> (sum: Matrix<R, ROWS, COLS>)
        ensures
            sum@ == sum_grid(self@, rhs@),
    {
        self.as_ref() + rhs.as_ref()
    }
}

impl<R: Plus, const ROWS: usize, const COLS: usize> vstd::std_specs::ops::AddSpecImpl<Matrix<R, ROWS, COLS>> for Matrix<R, ROWS, COLS> {
    open spec fn obeys_add_spec() -> bool {
        true
    }

    open spec fn add_req(self, rhs: Matrix<R, ROWS, COLS>) -> bool {
        self.plus_ok(&rhs)
    }

    open spec fn add_spec(self, rhs: Matrix<R, ROWS, COLS>) -> Matrix<R, ROWS, COLS> {
        self.plus_spec(&rhs)
    }
}

impl<R: Plus, const ROWS: usize, const COLS: usize> std::ops::Add<Matrix<R, ROWS, COLS>> for Matrix<R, ROWS, COLS> {
    type Output = Matrix<R, ROWS, COLS>;

    /// The sum of two matrices, which are used up.
    fn add(self, rhs: Matrix<R, ROWS, COLS>) -> (sum: Matrix<R, ROWS, COLS>)
        ensures
            sum@ == sum_grid(self@, rhs@),
    {
        self.as_ref() + rhs.as_ref()
    }
}

} // verus!
