//! The zero matrix and the identity matrix.
//!
//! With them a matrix is itself something that has a zero and a one, and
//! so can be the element of another matrix. Both are also offered through
//! `num_traits::Zero` and `num_traits::One`.

use crate::element::{AdditiveIdentity, MultiplicativeIdentity};
use crate::grid::{identity_grid, zero_grid};
use crate::matrix::Matrix;
use vstd::prelude::*;

verus! {

impl<R: AdditiveIdentity, const ROWS: usize, const COLS: usize> num_traits::Zero for Matrix<R, ROWS, COLS> {
    /// The matrix whose entries are all the zero of the element type.
    fn zero() -> (z: Self)
        ensures
            z@ == zero_grid::<R>(ROWS as nat, COLS as nat),
            z == Self::from_grid(zero_grid::<R>(ROWS as nat, COLS as nat)),
    {
        let vals = core::array::from_fn(
            |i: usize| -> (row: [R; COLS])
                ensures
                    row@ == Seq::new(COLS as nat, |j: int| R::zero_spec())
                {
                    let row = core::array::from_fn(
                        |j: usize| -> (e: R)
                            ensures
                                e == R::zero_spec()
                            { R::additive_identity() },
                    );
                    assert(row@ =~= Seq::new(COLS as nat, |j: int| R::zero_spec()));
                    row
                },
        );
        let z = Matrix { vals };
        proof {
            assert(z@ =~= zero_grid::<R>(ROWS as nat, COLS as nat));
            Self::lemma_from_grid(zero_grid::<R>(ROWS as nat, COLS as nat));
            Self::lemma_same_entries(z, Self::from_grid(zero_grid::<R>(ROWS as nat, COLS as nat)));
        }
        z
    }

    /// Whether every entry is the zero of the element type.
    fn is_zero(&self) -> (b: bool)
        ensures
            b == (self@ == zero_grid::<R>(ROWS as nat, COLS as nat)),
            b == (*self == Self::from_grid(zero_grid::<R>(ROWS as nat, COLS as nat))),
    {
        proof {
            Self::lemma_from_grid(zero_grid::<R>(ROWS as nat, COLS as nat));
        }
        let mut i: usize = 0;
        while i < ROWS
            invariant
                i <= ROWS,
                Self::from_grid(zero_grid::<R>(ROWS as nat, COLS as nat))@ == zero_grid::<R>(
                    ROWS as nat,
                    COLS as nat,
                ),
                forall|r: int, c: int|
                    0 <= r < i && 0 <= c < COLS ==> #[trigger] self@[r][c] == R::zero_spec(),
            decreases ROWS - i,
        {
            let mut j: usize = 0;
            while j < COLS
                invariant
                    i < ROWS,
                    j <= COLS,
                    Self::from_grid(zero_grid::<R>(ROWS as nat, COLS as nat))@ == zero_grid::<R>(
                        ROWS as nat,
                        COLS as nat,
                    ),
                    forall|c: int| 0 <= c < j ==> #[trigger] self@[i as int][c] == R::zero_spec(),
                decreases COLS - j,
            {
                if !self.vals[i][j].is_additive_identity() {
                    assert(self@[i as int][j as int] != zero_grid::<R>(ROWS as nat, COLS as nat)[i as int][j as int]);
                    return false;
                }
                j += 1;
            }
            i += 1;
        }
        proof {
            assert forall|r: int| 0 <= r < ROWS implies #[trigger] self@[r]
                == zero_grid::<R>(ROWS as nat, COLS as nat)[r] by {
                assert forall|c: int| 0 <= c < COLS implies self@[r][c] == R::zero_spec() by {}
                assert(self@[r] =~= zero_grid::<R>(ROWS as nat, COLS as nat)[r]);
            }
            assert(self@ =~= zero_grid::<R>(ROWS as nat, COLS as nat));
            Self::lemma_same_entries(*self, Self::from_grid(zero_grid::<R>(ROWS as nat, COLS as nat)));
        }
        true
    }
}

impl<R: AdditiveIdentity, const ROWS: usize, const COLS: usize> AdditiveIdentity for Matrix<R, ROWS, COLS> {
    /// The matrix whose entries are all the zero of the element type.
    open spec fn zero_spec() -> Self {
        Self::from_grid(zero_grid::<R>(ROWS as nat, COLS as nat))
    }

    fn additive_identity() -> (z: Self)
        ensures
            z@ == zero_grid::<R>(ROWS as nat, COLS as nat),
    {
        <Self as num_traits::Zero>::zero()
    }

    fn is_additive_identity(&self) -> (b: bool)
        ensures
            b == (self@ == zero_grid::<R>(ROWS as nat, COLS as nat)),
    {
        <Self as num_traits::Zero>::is_zero(self)
    }
}

impl<R: MultiplicativeIdentity, const DIM: usize> num_traits::One for Matrix<R, DIM, DIM> {
    /// The square matrix with the one of the element type on the diagonal
    /// and its zero everywhere else.
    fn one() -> (u: Self)
        ensures
            u@ == identity_grid::<R>(DIM as nat),
            u == Self::from_grid(identity_grid::<R>(DIM as nat)),
    {
        let vals = core::array::from_fn(
            |i: usize| -> (row: [R; DIM])
                requires
                    i < DIM,
                ensures
                    row@ == identity_grid::<R>(DIM as nat)[i as int]
                {
                    let row = core::array::from_fn(
                        |j: usize| -> (e: R)
                            ensures
                                e == (if i == j { R::one_spec() } else { R::zero_spec() })
                            {
                                if i == j {
                                    R::multiplicative_identity()
                                } else {
                                    R::additive_identity()
                                }
                            },
                    );
                    assert(row@ =~= identity_grid::<R>(DIM as nat)[i as int]);
                    row
                },
        );
        let u = Matrix { vals };
        proof {
            assert(u@ =~= identity_grid::<R>(DIM as nat));
            Self::lemma_from_grid(identity_grid::<R>(DIM as nat));
            Self::lemma_same_entries(u, Self::from_grid(identity_grid::<R>(DIM as nat)));
        }
        u
    }
}

impl<R: MultiplicativeIdentity, const DIM: usize> MultiplicativeIdentity for Matrix<R, DIM, DIM> {
    /// The square matrix with the one of the element type on the diagonal
    /// and its zero everywhere else.
    open spec fn one_spec() -> Self {
        Self::from_grid(identity_grid::<R>(DIM as nat))
    }

    fn multiplicative_identity() -> (u: Self)
        ensures
            u@ == identity_grid::<R>(DIM as nat),
    {
        <Self as num_traits::One>::one()
    }
}

} // verus!
