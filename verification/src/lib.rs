//! Fixed-size matrices over ring-like element types.
//!
//! A [`Matrix`] owns a `ROWS` by `COLS` block of elements, a [`MatrixRef`]
//! borrows one. Sums, differences, negations and products are computed on
//! borrowed operands and return a fresh owning matrix; every contract is
//! stated over the element type's own operations, so a matrix whose
//! elements are matrices is handled by the same code as one of integers.

pub mod arrays;
pub mod blocks;
pub mod element;
pub mod grid;
pub mod integers;
pub mod laws;
pub mod matrix;
pub mod ops;

pub use element::{
    AdditiveIdentity, AdditiveLaws, MultiplicativeIdentity, MultiplicativeLaws, Negate, Plus, Times,
};
pub use matrix::{Matrix, MatrixRef};
