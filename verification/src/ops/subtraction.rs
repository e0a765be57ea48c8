//! Entrywise subtraction, which is the addition of the negation: an
//! element type needs no subtraction of its own.

use crate::element::{Negate, Plus};
use crate::grid::{difference_grid, difference_ok};
use crate::matrix::{Matrix, MatrixRef};
use vstd::prelude::*;

verus! {

impl<'a, 'b, R: Plus + Negate, const ROWS: usize, const COLS: usize> vstd::std_specs::ops::SubSpecImpl<MatrixRef<'b, R, ROWS, COLS>> for MatrixRef<'a, R, ROWS, COLS> {
    open spec fn obeys_sub_spec() -> bool {
        true
    }

    open spec fn sub_req(self, rhs: MatrixRef<'b, R, ROWS, COLS>) -> bool {
        difference_ok(self@, rhs@)
    }

    open spec fn sub_spec(self, rhs: MatrixRef<'b, R, ROWS, COLS>) -> Matrix<R, ROWS, COLS> {
        Matrix::from_grid(difference_grid(self@, rhs@))
    }
}

impl<'a, 'b, R: Plus + Negate, const ROWS: usize, const COLS: usize> std::ops::Sub<MatrixRef<'b, R, ROWS, COLS>> for MatrixRef<'a, R, ROWS, COLS> {
    type Output = Matrix<R, ROWS, COLS>;

    /// The matrix whose entry in each place is the left operand's entry
    /// plus the negated entry of the right operand.
    fn sub(self, rhs: MatrixRef<'b, R, ROWS, COLS>) -> (difference: Matrix<R, ROWS, COLS>)
        ensures
            difference@ == difference_grid(self@, rhs@),
    {
        let negated = std::ops::Neg::neg(rhs);
        self + negated.as_ref()
    }
}

impl<'a, 'b, R: Plus + Negate, const ROWS: usize, const COLS: usize> vstd::std_specs::ops::SubSpecImpl<&'b Matrix<R, ROWS, COLS>> for &'a Matrix<R, ROWS, COLS> {
    open spec fn obeys_sub_spec() -> bool {
        true
    }

    open spec fn sub_req(self, rhs: &'b Matrix<R, ROWS, COLS>) -> bool {
        difference_ok(self@, rhs@)
    }

    open spec fn sub_spec(self, rhs: &'b Matrix<R, ROWS, COLS>) -> Matrix<R, ROWS, COLS> {
        Matrix::from_grid(difference_grid(self@, rhs@))
    }
}

impl<'a, 'b, R: Plus + Negate, const ROWS: usize, const COLS: usize> std::ops::Sub<&'b Matrix<R, ROWS, COLS>> for &'a Matrix<R, ROWS, COLS> {
    type Output = Matrix<R, ROWS, COLS>;

    /// The difference of two matrices behind references, which stay usable.
    fn sub(self, rhs: &'b Matrix<R, ROWS, COLS>) -> (difference: Matrix<R, ROWS, COLS>)
        ensures
            difference@ == difference_grid(self@, rhs@),
    {
        self.as_ref() - rhs.as_ref()
    }
}

impl<R: Plus + Negate, const ROWS: usize, const COLS: usize> vstd::std_specs::ops::SubSpecImpl<Matrix<R, ROWS, COLS>> for Matrix<R, ROWS, COLS> {
    open spec fn obeys_sub_spec() -> bool {
        true
    }

    open spec fn sub_req(self, rhs: Matrix<R, ROWS, COLS>) -> bool {
        difference_ok(self@, rhs@)
    }

    open spec fn sub_spec(self, rhs: Matrix<R, ROWS, COLS>) -> Matrix<R, ROWS, COLS> {
        Matrix::from_grid(difference_grid(self@, rhs@))
    }
}

impl<R: Plus + Negate, const ROWS: usize, const COLS: usize> std::ops::Sub<Matrix<R, ROWS, COLS>> for Matrix<R, ROWS, COLS> {
    type Output = Matrix<R, ROWS, COLS>;

    /// The difference of two matrices, which are used up.
    fn sub(self, rhs: Matrix<R, ROWS, COLS>) -> (difference: Matrix<R, ROWS, COLS>)
        ensures
            difference@ == difference_grid(self@, rhs@),
    {
        self.as_ref() - rhs.as_ref()
    }
}

} // verus!
