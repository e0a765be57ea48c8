//! What a type must offer to be the element of a matrix.
//!
//! Each capability pairs an executable operation on borrowed operands with
//! a specification function that names its result, and a predicate that
//! says when the operation can be carried out (for machine integers: when
//! it does not overflow). The laws that the identities of matrix algebra
//! rest on are traits of their own, so that a type can be an element
//! without a proof of them. Matrices implement the same capabilities and
//! laws, which is what lets them be elements of other matrices.

use vstd::prelude::*;

verus! {

/// Addition of two borrowed values.
pub trait Plus: Sized {
    /// Whether `self + rhs` can be computed.
    spec fn plus_ok(&self, rhs: &Self) -> bool;

    /// The value of `self + rhs`.
    spec fn plus_spec(&self, rhs: &Self) -> Self;

    /// Computes `self + rhs`.
    fn plus(&self, rhs: &Self) -> (sum: Self)
        requires
            self.plus_ok(rhs),
        ensures
            sum == self.plus_spec(rhs),
    ;
}

/// Additive inverse of a borrowed value.
pub trait Negate: Sized {
    /// Whether `-self` can be computed.
    spec fn negate_ok(&self) -> bool;

    /// The value of `-self`.
    spec fn negate_spec(&self) -> Self;

    /// Computes `-self`.
    fn negate(&self) -> (negation: Self)
        requires
            self.negate_ok(),
        ensures
            negation == self.negate_spec(),
    ;
}

/// Multiplication of two borrowed values, whose types and whose product's
/// type may all differ.
pub trait Times<Rhs>: Sized {
    /// The type of the product.
    type Output;

    /// Whether `self * rhs` can be computed.
    spec fn times_ok(&self, rhs: &Rhs) -> bool;

    /// The value of `self * rhs`.
    spec fn times_spec(&self, rhs: &Rhs) -> Self::Output;

    /// Computes `self * rhs`.
    fn times(&self, rhs: &Rhs) -> (product: Self::Output)
        requires
            self.times_ok(rhs),
        ensures
            product == self.times_spec(rhs),
    ;
}

/// An addition with a distinguished element, zero.
pub trait AdditiveIdentity: Plus {
    /// The zero of the type.
    spec fn zero_spec() -> Self;

    /// Makes the zero of the type.
    fn additive_identity() -> (z: Self)
        ensures
            z == Self::zero_spec(),
    ;

    /// Tells whether `self` is the zero of the type.
    fn is_additive_identity(&self) -> (b: bool)
        ensures
            b == (*self == Self::zero_spec()),
    ;
}

/// A multiplication on one type with a distinguished element, one.
pub trait MultiplicativeIdentity: AdditiveIdentity + Times<Self, Output = Self> {
    /// The one of the type.
    spec fn one_spec() -> Self;

    /// Makes the one of the type.
    fn multiplicative_identity() -> (u: Self)
        ensures
            u == Self::one_spec(),
    ;
}

/// The laws of addition: zero is neutral, and sums may be regrouped.
pub trait AdditiveLaws: AdditiveIdentity {
    /// `a + 0` can always be computed and is `a`.
    proof fn lemma_plus_zero(a: &Self)
        ensures
            a.plus_ok(&Self::zero_spec()),
            a.plus_spec(&Self::zero_spec()) == *a,
    ;

    /// `0 + a` can always be computed and is `a`.
    proof fn lemma_zero_plus(a: &Self)
        ensures
            Self::zero_spec().plus_ok(a),
            Self::zero_spec().plus_spec(a) == *a,
    ;

    /// Where `(a + b) + c` and `b + c` can be computed, so can `a + (b + c)`,
    /// and the two groupings agree.
    proof fn lemma_plus_regroup(a: &Self, b: &Self, c: &Self)
        requires
            a.plus_ok(b),
            a.plus_spec(b).plus_ok(c),
            b.plus_ok(c),
        ensures
            a.plus_ok(&b.plus_spec(c)),
            a.plus_spec(&b.plus_spec(c)) == a.plus_spec(b).plus_spec(c),
    ;
}

/// The laws of multiplication: one is neutral and zero is absorbing.
pub trait MultiplicativeLaws: MultiplicativeIdentity + AdditiveLaws {
    /// `a * 1` can always be computed and is `a`.
    proof fn lemma_times_one(a: &Self)
        ensures
            a.times_ok(&Self::one_spec()),
            a.times_spec(&Self::one_spec()) == *a,
    ;

    /// `1 * a` can always be computed and is `a`.
    proof fn lemma_one_times(a: &Self)
        ensures
            Self::one_spec().times_ok(a),
            Self::one_spec().times_spec(a) == *a,
    ;

    /// `a * 0` can always be computed and is `0`.
    proof fn lemma_times_zero(a: &Self)
        ensures
            a.times_ok(&Self::zero_spec()),
            a.times_spec(&Self::zero_spec()) == Self::zero_spec(),
    ;

    /// `0 * a` can always be computed and is `0`.
    proof fn lemma_zero_times(a: &Self)
        ensures
            Self::zero_spec().times_ok(a),
            Self::zero_spec().times_spec(a) == Self::zero_spec(),
    ;
}

} // verus!
