//! The arithmetic of matrices, one operation to a module.

pub mod addition;
pub mod identity;
pub mod multiplication;
pub mod negation;
pub mod subtraction;
pub mod trace;
