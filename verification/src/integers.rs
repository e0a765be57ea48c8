//! The machine integers as matrix elements.
//!
//! Sums, negations and products are those of the integers, and can be
//! computed where the result fits the type. Zero and one are taken from
//! `num_traits`.

use crate::element::{
    AdditiveIdentity, AdditiveLaws, MultiplicativeIdentity, MultiplicativeLaws, Negate, Plus, Times,
};
use vstd::prelude::*;

verus! {

/// `<i8 as num_traits::Zero>::zero`, which returns the integer 0. Assumed,
/// not proved.
#[verifier::external_body]
fn zero_i8() -> (z: i8)
    ensures
        z == 0,
{
    <i8 as num_traits::Zero>::zero()
}

/// `<i8 as num_traits::One>::one`, which returns the integer 1. Assumed,
/// not proved.
#[verifier::external_body]
fn one_i8() -> (u: i8)
    ensures
        u == 1,
{
    <i8 as num_traits::One>::one()
}

impl Plus for i8 {
    /// A sum can be computed where it fits the type.
    open spec fn plus_ok(&self, rhs: &Self) -> bool {
        i8::MIN <= *self + *rhs <= i8::MAX
    }

    /// The sum of the integers, where it fits the type.
    open spec fn plus_spec(&self, rhs: &Self) -> Self {
        (*self + *rhs) as i8
    }

    fn plus(&self, rhs: &Self) -> (sum: Self) {
        *self + *rhs
    }
}

impl Negate for i8 {
    /// Every value but the least has its negation in the type.
    open spec fn negate_ok(&self) -> bool {
        *self != i8::MIN
    }

    /// The negated integer, where it fits the type.
    open spec fn negate_spec(&self) -> Self {
        (-*self) as i8
    }

    fn negate(&self) -> (negation: Self) {
        -*self
    }
}

impl Times<i8> for i8 {
    type Output = i8;

    /// A product can be computed where it fits the type.
    open spec fn times_ok(&self, rhs: &i8) -> bool {
        i8::MIN <= *self * *rhs <= i8::MAX
    }

    /// The product of the integers, where it fits the type.
    open spec fn times_spec(&self, rhs: &i8) -> i8 {
        (*self * *rhs) as i8
    }

    fn times(&self, rhs: &i8) -> (product: i8) {
        *self * *rhs
    }
}

impl AdditiveIdentity for i8 {
    /// The integer 0.
    open spec fn zero_spec() -> Self {
        0
    }

    fn additive_identity() -> (z: Self) {
        zero_i8()
    }

    fn is_additive_identity(&self) -> (b: bool) {
        *self == zero_i8()
    }
}

impl AdditiveLaws for i8 {
    proof fn lemma_plus_zero(a: &Self) {
    }

    proof fn lemma_zero_plus(a: &Self) {
    }

    proof fn lemma_plus_regroup(a: &Self, b: &Self, c: &Self) {
    }
}

impl MultiplicativeIdentity for i8 {
    /// The integer 1.
    open spec fn one_spec() -> Self {
        1
    }

    fn multiplicative_identity() -> (u: Self) {
        one_i8()
    }
}

impl MultiplicativeLaws for i8 {
    proof fn lemma_times_one(a: &Self) {
    }

    proof fn lemma_one_times(a: &Self) {
    }

    proof fn lemma_times_zero(a: &Self) {
    }

    proof fn lemma_zero_times(a: &Self) {
    }
}

/// `<i16 as num_traits::Zero>::zero`, which returns the integer 0. Assumed,
/// not proved.
#[verifier::external_body]
fn zero_i16() -> (z: i16)
    ensures
        z == 0,
{
    <i16 as num_traits::Zero>::zero()
}

/// `<i16 as num_traits::One>::one`, which returns the integer 1. Assumed,
/// not proved.
#[verifier::external_body]
fn one_i16() -> (u: i16)
    ensures
        u == 1,
{
    <i16 as num_traits::One>::one()
}

impl Plus for i16 {
    /// A sum can be computed where it fits the type.
    open spec fn plus_ok(&self, rhs: &Self) -> bool {
        i16::MIN <= *self + *rhs <= i16::MAX
    }

    /// The sum of the integers, where it fits the type.
    open spec fn plus_spec(&self, rhs: &Self) -> Self {
        (*self + *rhs) as i16
    }

    fn plus(&self, rhs: &Self) -> (sum: Self) {
        *self + *rhs
    }
}

impl Negate for i16 {
    /// Every value but the least has its negation in the type.
    open spec fn negate_ok(&self) -> bool {
        *self != i16::MIN
    }

    /// The negated integer, where it fits the type.
    open spec fn negate_spec(&self) -> Self {
        (-*self) as i16
    }

    fn negate(&self) -> (negation: Self) {
        -*self
    }
}

impl Times<i16> for i16 {
    type Output = i16;

    /// A product can be computed where it fits the type.
    open spec fn times_ok(&self, rhs: &i16) -> bool {
        i16::MIN <= *self * *rhs <= i16::MAX
    }

    /// The product of the integers, where it fits the type.
    open spec fn times_spec(&self, rhs: &i16) -> i16 {
        (*self * *rhs) as i16
    }

    fn times(&self, rhs: &i16) -> (product: i16) {
        *self * *rhs
    }
}

impl AdditiveIdentity for i16 {
    /// The integer 0.
    open spec fn zero_spec() -> Self {
        0
    }

    fn additive_identity() -> (z: Self) {
        zero_i16()
    }

    fn is_additive_identity(&self) -> (b: bool) {
        *self == zero_i16()
    }
}

impl AdditiveLaws for i16 {
    proof fn lemma_plus_zero(a: &Self) {
    }

    proof fn lemma_zero_plus(a: &Self) {
    }

    proof fn lemma_plus_regroup(a: &Self, b: &Self, c: &Self) {
    }
}

impl MultiplicativeIdentity for i16 {
    /// The integer 1.
    open spec fn one_spec() -> Self {
        1
    }

    fn multiplicative_identity() -> (u: Self) {
        one_i16()
    }
}

impl MultiplicativeLaws for i16 {
    proof fn lemma_times_one(a: &Self) {
    }

    proof fn lemma_one_times(a: &Self) {
    }

    proof fn lemma_times_zero(a: &Self) {
    }

    proof fn lemma_zero_times(a: &Self) {
    }
}

/// `<i32 as num_traits::Zero>::zero`, which returns the integer 0. Assumed,
/// not proved.
#[verifier::external_body]
fn zero_i32() -> (z: i32)
    ensures
        z == 0,
{
    <i32 as num_traits::Zero>::zero()
}

/// `<i32 as num_traits::One>::one`, which returns the integer 1. Assumed,
/// not proved.
#[verifier::external_body]
fn one_i32() -> (u: i32)
    ensures
        u == 1,
{
    <i32 as num_traits::One>::one()
}

impl Plus for i32 {
    /// A sum can be computed where it fits the type.
    open spec fn plus_ok(&self, rhs: &Self) -> bool {
        i32::MIN <= *self + *rhs <= i32::MAX
    }

    /// The sum of the integers, where it fits the type.
    open spec fn plus_spec(&self, rhs: &Self) -> Self {
        (*self + *rhs) as i32
    }

    fn plus(&self, rhs: &Self) -> (sum: Self) {
        *self + *rhs
    }
}

impl Negate for i32 {
    /// Every value but the least has its negation in the type.
    open spec fn negate_ok(&self) -> bool {
        *self != i32::MIN
    }

    /// The negated integer, where it fits the type.
    open spec fn negate_spec(&self) -> Self {
        (-*self) as i32
    }

    fn negate(&self) -> (negation: Self) {
        -*self
    }
}

impl Times<i32> for i32 {
    type Output = i32;

    /// A product can be computed where it fits the type.
    open spec fn times_ok(&self, rhs: &i32) -> bool {
        i32::MIN <= *self * *rhs <= i32::MAX
    }

    /// The product of the integers, where it fits the type.
    open spec fn times_spec(&self, rhs: &i32) -> i32 {
        (*self * *rhs) as i32
    }

    fn times(&self, rhs: &i32) -> (product: i32) {
        *self * *rhs
    }
}

impl AdditiveIdentity for i32 {
    /// The integer 0.
    open spec fn zero_spec() -> Self {
        0
    }

    fn additive_identity() -> (z: Self) {
        zero_i32()
    }

    fn is_additive_identity(&self) -> (b: bool) {
        *self == zero_i32()
    }
}

impl AdditiveLaws for i32 {
    proof fn lemma_plus_zero(a: &Self) {
    }

    proof fn lemma_zero_plus(a: &Self) {
    }

    proof fn lemma_plus_regroup(a: &Self, b: &Self, c: &Self) {
    }
}

impl MultiplicativeIdentity for i32 {
    /// The integer 1.
    open spec fn one_spec() -> Self {
        1
    }

    fn multiplicative_identity() -> (u: Self) {
        one_i32()
    }
}

impl MultiplicativeLaws for i32 {
    proof fn lemma_times_one(a: &Self) {
    }

    proof fn lemma_one_times(a: &Self) {
    }

    proof fn lemma_times_zero(a: &Self) {
    }

    proof fn lemma_zero_times(a: &Self) {
    }
}

/// `<i64 as num_traits::Zero>::zero`, which returns the integer 0. Assumed,
/// not proved.
#[verifier::external_body]
fn zero_i64() -> (z: i64)
    ensures
        z == 0,
{
    <i64 as num_traits::Zero>::zero()
}

/// `<i64 as num_traits::One>::one`, which returns the integer 1. Assumed,
/// not proved.
#[verifier::external_body]
fn one_i64() -> (u: i64)
    ensures
        u == 1,
{
    <i64 as num_traits::One>::one()
}

impl Plus for i64 {
    /// A sum can be computed where it fits the type.
    open spec fn plus_ok(&self, rhs: &Self) -> bool {
        i64::MIN <= *self + *rhs <= i64::MAX
    }

    /// The sum of the integers, where it fits the type.
    open spec fn plus_spec(&self, rhs: &Self) -> Self {
        (*self + *rhs) as i64
    }

    fn plus(&self, rhs: &Self) -> (sum: Self) {
        *self + *rhs
    }
}

impl Negate for i64 {
    /// Every value but the least has its negation in the type.
    open spec fn negate_ok(&self) -> bool {
        *self != i64::MIN
    }

    /// The negated integer, where it fits the type.
    open spec fn negate_spec(&self) -> Self {
        (-*self) as i64
    }

    fn negate(&self) -> (negation: Self) {
        -*self
    }
}

impl Times<i64> for i64 {
    type Output = i64;

    /// A product can be computed where it fits the type.
    open spec fn times_ok(&self, rhs: &i64) -> bool {
        i64::MIN <= *self * *rhs <= i64::MAX
    }

    /// The product of the integers, where it fits the type.
    open spec fn times_spec(&self, rhs: &i64) -> i64 {
        (*self * *rhs) as i64
    }

    fn times(&self, rhs: &i64) -> (product: i64) {
        *self * *rhs
    }
}

impl AdditiveIdentity for i64 {
    /// The integer 0.
    open spec fn zero_spec() -> Self {
        0
    }

    fn additive_identity() -> (z: Self) {
        zero_i64()
    }

    fn is_additive_identity(&self) -> (b: bool) {
        *self == zero_i64()
    }
}

impl AdditiveLaws for i64 {
    proof fn lemma_plus_zero(a: &Self) {
    }

    proof fn lemma_zero_plus(a: &Self) {
    }

    proof fn lemma_plus_regroup(a: &Self, b: &Self, c: &Self) {
    }
}

impl MultiplicativeIdentity for i64 {
    /// The integer 1.
    open spec fn one_spec() -> Self {
        1
    }

    fn multiplicative_identity() -> (u: Self) {
        one_i64()
    }
}

impl MultiplicativeLaws for i64 {
    proof fn lemma_times_one(a: &Self) {
    }

    proof fn lemma_one_times(a: &Self) {
    }

    proof fn lemma_times_zero(a: &Self) {
    }

    proof fn lemma_zero_times(a: &Self) {
    }
}

/// `<u8 as num_traits::Zero>::zero`, which returns the integer 0. Assumed,
/// not proved.
#[verifier::external_body]
fn zero_u8() -> (z: u8)
    ensures
        z == 0,
{
    <u8 as num_traits::Zero>::zero()
}

/// `<u8 as num_traits::One>::one`, which returns the integer 1. Assumed,
/// not proved.
#[verifier::external_body]
fn one_u8() -> (u: u8)
    ensures
        u == 1,
{
    <u8 as num_traits::One>::one()
}

impl Plus for u8 {
    /// A sum can be computed where it fits the type.
    open spec fn plus_ok(&self, rhs: &Self) -> bool {
        u8::MIN <= *self + *rhs <= u8::MAX
    }

    /// The sum of the integers, where it fits the type.
    open spec fn plus_spec(&self, rhs: &Self) -> Self {
        (*self + *rhs) as u8
    }

    fn plus(&self, rhs: &Self) -> (sum: Self) {
        *self + *rhs
    }
}

impl Times<u8> for u8 {
    type Output = u8;

    /// A product can be computed where it fits the type.
    open spec fn times_ok(&self, rhs: &u8) -> bool {
        u8::MIN <= *self * *rhs <= u8::MAX
    }

    /// The product of the integers, where it fits the type.
    open spec fn times_spec(&self, rhs: &u8) -> u8 {
        (*self * *rhs) as u8
    }

    fn times(&self, rhs: &u8) -> (product: u8) {
        *self * *rhs
    }
}

impl AdditiveIdentity for u8 {
    /// The integer 0.
    open spec fn zero_spec() -> Self {
        0
    }

    fn additive_identity() -> (z: Self) {
        zero_u8()
    }

    fn is_additive_identity(&self) -> (b: bool) {
        *self == zero_u8()
    }
}

impl AdditiveLaws for u8 {
    proof fn lemma_plus_zero(a: &Self) {
    }

    proof fn lemma_zero_plus(a: &Self) {
    }

    proof fn lemma_plus_regroup(a: &Self, b: &Self, c: &Self) {
    }
}

impl MultiplicativeIdentity for u8 {
    /// The integer 1.
    open spec fn one_spec() -> Self {
        1
    }

    fn multiplicative_identity() -> (u: Self) {
        one_u8()
    }
}

impl MultiplicativeLaws for u8 {
    proof fn lemma_times_one(a: &Self) {
    }

    proof fn lemma_one_times(a: &Self) {
    }

    proof fn lemma_times_zero(a: &Self) {
    }

    proof fn lemma_zero_times(a: &Self) {
    }
}

/// `<u16 as num_traits::Zero>::zero`, which returns the integer 0. Assumed,
/// not proved.
#[verifier::external_body]
fn zero_u16() -> (z: u16)
    ensures
        z == 0,
{
    <u16 as num_traits::Zero>::zero()
}

/// `<u16 as num_traits::One>::one`, which returns the integer 1. Assumed,
/// not proved.
#[verifier::external_body]
fn one_u16() -> (u: u16)
    ensures
        u == 1,
{
    <u16 as num_traits::One>::one()
}

impl Plus for u16 {
    /// A sum can be computed where it fits the type.
    open spec fn plus_ok(&self, rhs: &Self) -> bool {
        u16::MIN <= *self + *rhs <= u16::MAX
    }

    /// The sum of the integers, where it fits the type.
    open spec fn plus_spec(&self, rhs: &Self) -> Self {
        (*self + *rhs) as u16
    }

    fn plus(&self, rhs: &Self) -> (sum: Self) {
        *self + *rhs
    }
}

impl Times<u16> for u16 {
    type Output = u16;

    /// A product can be computed where it fits the type.
    open spec fn times_ok(&self, rhs: &u16) -> bool {
        u16::MIN <= *self * *rhs <= u16::MAX
    }

    /// The product of the integers, where it fits the type.
    open spec fn times_spec(&self, rhs: &u16) -> u16 {
        (*self * *rhs) as u16
    }

    fn times(&self, rhs: &u16) -> (product: u16) {
        *self * *rhs
    }
}

impl AdditiveIdentity for u16 {
    /// The integer 0.
    open spec fn zero_spec() -> Self {
        0
    }

    fn additive_identity() -> (z: Self) {
        zero_u16()
    }

    fn is_additive_identity(&self) -> (b: bool) {
        *self == zero_u16()
    }
}

impl AdditiveLaws for u16 {
    proof fn lemma_plus_zero(a: &Self) {
    }

    proof fn lemma_zero_plus(a: &Self) {
    }

    proof fn lemma_plus_regroup(a: &Self, b: &Self, c: &Self) {
    }
}

impl MultiplicativeIdentity for u16 {
    /// The integer 1.
    open spec fn one_spec() -> Self {
        1
    }

    fn multiplicative_identity() -> (u: Self) {
        one_u16()
    }
}

impl MultiplicativeLaws for u16 {
    proof fn lemma_times_one(a: &Self) {
    }

    proof fn lemma_one_times(a: &Self) {
    }

    proof fn lemma_times_zero(a: &Self) {
    }

    proof fn lemma_zero_times(a: &Self) {
    }
}

/// `<u32 as num_traits::Zero>::zero`, which returns the integer 0. Assumed,
/// not proved.
#[verifier::external_body]
fn zero_u32() -> (z: u32)
    ensures
        z == 0,
{
    <u32 as num_traits::Zero>::zero()
}

/// `<u32 as num_traits::One>::one`, which returns the integer 1. Assumed,
/// not proved.
#[verifier::external_body]
fn one_u32() -> (u: u32)
    ensures
        u == 1,
{
    <u32 as num_traits::One>::one()
}

impl Plus for u32 {
    /// A sum can be computed where it fits the type.
    open spec fn plus_ok(&self, rhs: &Self) -> bool {
        u32::MIN <= *self + *rhs <= u32::MAX
    }

    /// The sum of the integers, where it fits the type.
    open spec fn plus_spec(&self, rhs: &Self) -> Self {
        (*self + *rhs) as u32
    }

    fn plus(&self, rhs: &Self) -> (sum: Self) {
        *self + *rhs
    }
}

impl Times<u32> for u32 {
    type Output = u32;

    /// A product can be computed where it fits the type.
    open spec fn times_ok(&self, rhs: &u32) -> bool {
        u32::MIN <= *self * *rhs <= u32::MAX
    }

    /// The product of the integers, where it fits the type.
    open spec fn times_spec(&self, rhs: &u32) -> u32 {
        (*self * *rhs) as u32
    }

    fn times(&self, rhs: &u32) -> (product: u32) {
        *self * *rhs
    }
}

impl AdditiveIdentity for u32 {
    /// The integer 0.
    open spec fn zero_spec() -> Self {
        0
    }

    fn additive_identity() -> (z: Self) {
        zero_u32()
    }

    fn is_additive_identity(&self) -> (b: bool) {
        *self == zero_u32()
    }
}

impl AdditiveLaws for u32 {
    proof fn lemma_plus_zero(a: &Self) {
    }

    proof fn lemma_zero_plus(a: &Self) {
    }

    proof fn lemma_plus_regroup(a: &Self, b: &Self, c: &Self) {
    }
}

impl MultiplicativeIdentity for u32 {
    /// The integer 1.
    open spec fn one_spec() -> Self {
        1
    }

    fn multiplicative_identity() -> (u: Self) {
        one_u32()
    }
}

impl MultiplicativeLaws for u32 {
    proof fn lemma_times_one(a: &Self) {
    }

    proof fn lemma_one_times(a: &Self) {
    }

    proof fn lemma_times_zero(a: &Self) {
    }

    proof fn lemma_zero_times(a: &Self) {
    }
}

/// `<u64 as num_traits::Zero>::zero`, which returns the integer 0. Assumed,
/// not proved.
#[verifier::external_body]
fn zero_u64() -> (z: u64)
    ensures
        z == 0,
{
    <u64 as num_traits::Zero>::zero()
}

/// `<u64 as num_traits::One>::one`, which returns the integer 1. Assumed,
/// not proved.
#[verifier::external_body]
fn one_u64() -> (u: u64)
    ensures
        u == 1,
{
    <u64 as num_traits::One>::one()
}

impl Plus for u64 {
    /// A sum can be computed where it fits the type.
    open spec fn plus_ok(&self, rhs: &Self) -> bool {
        u64::MIN <= *self + *rhs <= u64::MAX
    }

    /// The sum of the integers, where it fits the type.
    open spec fn plus_spec(&self, rhs: &Self) -> Self {
        (*self + *rhs) as u64
    }

    fn plus(&self, rhs: &Self) -> (sum: Self) {
        *self + *rhs
    }
}

impl Times<u64> for u64 {
    type Output = u64;

    /// A product can be computed where it fits the type.
    open spec fn times_ok(&self, rhs: &u64) -> bool {
        u64::MIN <= *self * *rhs <= u64::MAX
    }

    /// The product of the integers, where it fits the type.
    open spec fn times_spec(&self, rhs: &u64) -> u64 {
        (*self * *rhs) as u64
    }

    fn times(&self, rhs: &u64) -> (product: u64) {
        *self * *rhs
    }
}

impl AdditiveIdentity for u64 {
    /// The integer 0.
    open spec fn zero_spec() -> Self {
        0
    }

    fn additive_identity() -> (z: Self) {
        zero_u64()
    }

    fn is_additive_identity(&self) -> (b: bool) {
        *self == zero_u64()
    }
}

impl AdditiveLaws for u64 {
    proof fn lemma_plus_zero(a: &Self) {
    }

    proof fn lemma_zero_plus(a: &Self) {
    }

    proof fn lemma_plus_regroup(a: &Self, b: &Self, c: &Self) {
    }
}

impl MultiplicativeIdentity for u64 {
    /// The integer 1.
    open spec fn one_spec() -> Self {
        1
    }

    fn multiplicative_identity() -> (u: Self) {
        one_u64()
    }
}

impl MultiplicativeLaws for u64 {
    proof fn lemma_times_one(a: &Self) {
    }

    proof fn lemma_one_times(a: &Self) {
    }

    proof fn lemma_times_zero(a: &Self) {
    }

    proof fn lemma_zero_times(a: &Self) {
    }
}

} // verus!
