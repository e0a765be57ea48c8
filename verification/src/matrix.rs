//! The two forms of a matrix: one that owns its entries and one that
//! borrows them.

use crate::arrays::{array_of, lemma_array_equal, lemma_array_of};
use crate::grid::has_shape;
use vstd::prelude::*;

verus! {

/// A matrix of `ROWS` rows and `COLS` columns that owns its entries.
#[derive(Debug, PartialEq, Eq, Hash)]
pub struct Matrix<R, const ROWS: usize, const COLS: usize> {
    pub vals: [[R; COLS]; ROWS],
}

/// A matrix of `ROWS` rows and `COLS` columns whose entries are borrowed.
#[derive(Debug, PartialEq, Eq, Hash)]
pub struct MatrixRef<'a, R, const ROWS: usize, const COLS: usize> {
    pub vals: &'a [[R; COLS]; ROWS],
}

/// The rows of a block of entries, as a grid.
pub open spec fn grid_of<R, const ROWS: usize, const COLS: usize>(vals: [[R; COLS]; ROWS]) -> Seq<
    Seq<R>,
> {
    Seq::new(ROWS as nat, |i: int| vals[i]@)
}

impl<R, const ROWS: usize, const COLS: usize> View for Matrix<R, ROWS, COLS> {
    type V = Seq<Seq<R>>;

    /// The grid of the entries: `self@[i][j]` is the entry in row `i` and
    /// column `j`.
    open spec fn view(&self) -> Seq<Seq<R>> {
        grid_of(self.vals)
    }
}

impl<'a, R, const ROWS: usize, const COLS: usize> View for MatrixRef<'a, R, ROWS, COLS> {
    type V = Seq<Seq<R>>;

    /// The grid of the borrowed entries.
    open spec fn view(&self) -> Seq<Seq<R>> {
        grid_of(*self.vals)
    }
}

impl<R, const ROWS: usize, const COLS: usize> Matrix<R, ROWS, COLS> {
    /// The matrix whose entries are those of the grid `g`.
    pub open spec fn from_grid(g: Seq<Seq<R>>) -> Self {
        Matrix {
            vals: array_of::<[R; COLS], ROWS>(
                Seq::new(ROWS as nat, |i: int| array_of::<R, COLS>(g[i])),
            ),
        }
    }

    /// A grid of the right shape is the view of the matrix made from it.
    pub proof fn lemma_from_grid(g: Seq<Seq<R>>)
        requires
            has_shape(g, ROWS as nat, COLS as nat),
        ensures
            Self::from_grid(g)@ == g,
    {
        let rows = Seq::new(ROWS as nat, |i: int| array_of::<R, COLS>(g[i]));
        lemma_array_of::<[R; COLS], ROWS>(rows);
        let m = Self::from_grid(g);
        assert forall|i: int| 0 <= i < ROWS implies #[trigger] m@[i] == g[i] by {
            assert(m.vals@[i] == rows[i]);
            lemma_array_of::<R, COLS>(g[i]);
        }
        assert(m@ =~= g);
    }

    /// Every matrix has `ROWS` rows of `COLS` entries.
    pub proof fn lemma_shape(&self)
        ensures
            has_shape(self@, ROWS as nat, COLS as nat),
    {
    }

    /// A matrix is determined by its entries.
    pub proof fn lemma_same_entries(a: Self, b: Self)
        requires
            a@ == b@,
        ensures
            a == b,
    {
        assert forall|i: int| 0 <= i < ROWS implies a.vals@[i] == b.vals@[i] by {
            assert(a@[i] == b@[i]);
            lemma_array_equal(a.vals[i], b.vals[i]);
        }
        assert(a.vals@ =~= b.vals@);
        lemma_array_equal(a.vals, b.vals);
    }

    /// Makes a matrix of a complete block of entries.
    pub fn new(vals: [[R; COLS]; ROWS]) -> (m: Self)
        ensures
            m.vals == vals,
            m@ == grid_of(vals),
    {
        Self { vals }
    }

    /// The borrowing matrix with the entries of this one.
    pub open spec fn spec_as_ref<'a>(&'a self) -> MatrixRef<'a, R, ROWS, COLS> {
        MatrixRef { vals: &self.vals }
    }

    /// Borrows the entries of this matrix.
    #[verifier::when_used_as_spec(spec_as_ref)]
    pub fn as_ref<'a>(&'a self) -> (r: MatrixRef<'a, R, ROWS, COLS>)
        ensures
            r == self.spec_as_ref(),
            r@ == self@,
    {
        MatrixRef { vals: &self.vals }
    }
}

impl<'a, R, const ROWS: usize, const COLS: usize> MatrixRef<'a, R, ROWS, COLS> {
    /// Borrows a complete block of entries as a matrix.
    pub fn new(vals: &'a [[R; COLS]; ROWS]) -> (r: Self)
        ensures
            r.vals == vals,
            r@ == grid_of(*vals),
    {
        Self { vals }
    }

    /// Copies the borrowed entries into a matrix of their own: each entry of
    /// the result is a clone of the entry in the same place.
    pub fn to_matrix(&self) -> (m: Matrix<R, ROWS, COLS>) where R: Clone
        ensures
            forall|i: int, j: int|
                0 <= i < ROWS && 0 <= j < COLS ==> cloned::<R>(
                    #[trigger] self@[i][j],
                    m@[i][j],
                ),
    {
        let vals = core::array::from_fn(
            |i: usize| -> (row: [R; COLS])
                requires
                    i < ROWS,
                ensures
                    forall|j: int| 0 <= j < COLS ==> cloned::<R>(self@[i as int][j], #[trigger] row@[j])
                {
                    core::array::from_fn(
                        |j: usize| -> (e: R)
                            requires
                                i < ROWS,
                                j < COLS,
                            ensures
                                cloned::<R>(self@[i as int][j as int], e)
                            { self.vals[i][j].clone() },
                    )
                },
        );
        Matrix { vals }
    }
}

impl<R: Clone, const ROWS: usize, const COLS: usize> Clone for Matrix<R, ROWS, COLS> {
    /// A matrix whose every entry is a clone of the entry in the same place.
    fn clone(&self) -> (m: Self)
        ensures
            forall|i: int, j: int|
                0 <= i < ROWS && 0 <= j < COLS ==> cloned::<R>(
                    #[trigger] self@[i][j],
                    m@[i][j],
                ),
    {
        self.as_ref().to_matrix()
    }
}

impl<R: Copy, const ROWS: usize, const COLS: usize> Copy for Matrix<R, ROWS, COLS> {

}

impl<'a, R, const ROWS: usize, const COLS: usize> Clone for MatrixRef<'a, R, ROWS, COLS> {
    /// The same borrow once more.
    fn clone(&self) -> (r: Self)
        ensures
            r == *self,
    {
        MatrixRef { vals: self.vals }
    }
}

impl<'a, R, const ROWS: usize, const COLS: usize> Copy for MatrixRef<'a, R, ROWS, COLS> {

}

impl<R, const ROWS: usize, const COLS: usize> vstd::std_specs::core::IndexSpecImpl<(usize, usize)> for Matrix<R, ROWS, COLS> {
    /// An entry can be read where the row and the column exist.
    open spec fn index_req(&self, at: &(usize, usize)) -> bool {
        at.0 < ROWS && at.1 < COLS
    }
}

impl<R, const ROWS: usize, const COLS: usize> std::ops::Index<(usize, usize)> for Matrix<R, ROWS, COLS> {
    type Output = R;

    /// The entry in row `at.0` and column `at.1`.
    fn index(&self, at: (usize, usize)) -> (e: &R)
        ensures
            *e == self@[at.0 as int][at.1 as int],
    {
        &self.vals[at.0][at.1]
    }
}

impl<'a, R, const ROWS: usize, const COLS: usize> vstd::std_specs::core::IndexSpecImpl<(usize, usize)> for MatrixRef<'a, R, ROWS, COLS> {
    /// An entry can be read where the row and the column exist.
    open spec fn index_req(&self, at: &(usize, usize)) -> bool {
        at.0 < ROWS && at.1 < COLS
    }
}

impl<'a, R, const ROWS: usize, const COLS: usize> std::ops::Index<(usize, usize)> for MatrixRef<'a, R, ROWS, COLS> {
    type Output = R;

    /// The entry in row `at.0` and column `at.1`.
    fn index(&self, at: (usize, usize)) -> (e: &R)
        ensures
            *e == self@[at.0 as int][at.1 as int],
    {
        &self.vals[at.0][at.1]
    }
}

} // verus!
