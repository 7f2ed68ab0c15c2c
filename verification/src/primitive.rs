//! The built-in integer types as scalars, their arithmetic taken from
//! `num_traits`.
use crate::scalar::quotient;
use crate::scalar::Scalar;
use vstd::prelude::*;

verus! {

/// A built-in integer type. The number of a value is the value itself, and
/// the type holds every integer from its `MIN` (`floor`) to its `MAX`
/// (`ceiling`). Only the twelve built-in integer types implement it.
trait Machine: Copy {
    spec fn number(&self) -> int;

    spec fn floor() -> int;

    spec fn ceiling() -> int;
}

/// Whether the built-in integer type `T` holds `v`.
spec fn holds<T: Machine>(v: int) -> bool {
    T::floor() <= v <= T::ceiling()
}

/// `num_traits::Zero::zero` on a built-in integer type. Assumed: it is the
/// literal `0` of the type.
#[verifier::external_body]
fn num_zero<T: Machine + num_traits::Zero>() -> (z: T)
    ensures
        z.number() == 0,
{
    num_traits::Zero::zero()
}

/// `num_traits::One::one` on a built-in integer type. Assumed: it is the
/// literal `1` of the type.
#[verifier::external_body]
fn num_one<T: Machine + num_traits::One>() -> (o: T)
    ensures
        o.number() == 1,
{
    num_traits::One::one()
}

/// `num_traits::CheckedAdd::checked_add` on a built-in integer type, which
/// is the type's own `checked_add`. Assumed: the sum where the type holds
/// it, `None` where it does not.
#[verifier::external_body]
fn num_checked_add<T: Machine + num_traits::CheckedAdd>(a: &T, b: &T) -> (sum: Option<T>)
    ensures
        sum is Some <==> holds::<T>(a.number() + b.number()),
        sum matches Some(s) ==> s.number() == a.number() + b.number(),
{
    num_traits::CheckedAdd::checked_add(a, b)
}

/// `num_traits::CheckedSub::checked_sub` on a built-in integer type, which
/// is the type's own `checked_sub`. Assumed: the difference where the type
/// holds it, `None` where it does not.
#[verifier::external_body]
fn num_checked_sub<T: Machine + num_traits::CheckedSub>(a: &T, b: &T) -> (difference: Option<T>)
    ensures
        difference is Some <==> holds::<T>(a.number() - b.number()),
        difference matches Some(d) ==> d.number() == a.number() - b.number(),
{
    num_traits::CheckedSub::checked_sub(a, b)
}

/// `num_traits::CheckedMul::checked_mul` on a built-in integer type, which
/// is the type's own `checked_mul`. Assumed: the product where the type
/// holds it, `None` where it does not.
#[verifier::external_body]
fn num_checked_mul<T: Machine + num_traits::CheckedMul>(a: &T, b: &T) -> (product: Option<T>)
    ensures
        product is Some <==> holds::<T>(a.number() * b.number()),
        product matches Some(p) ==> p.number() == a.number() * b.number(),
{
    num_traits::CheckedMul::checked_mul(a, b)
}

/// `num_traits::CheckedDiv::checked_div` on a built-in integer type, which
/// is the type's own `checked_div`. Assumed: `None` where the divisor is
/// zero or the type does not hold the quotient (its `MIN` by `-1`), else the
/// quotient rounded towards zero.
#[verifier::external_body]
fn num_checked_div<T: Machine + num_traits::CheckedDiv>(a: &T, b: &T) -> (ratio: Option<T>)
    ensures
        (ratio is Some) == (b.number() != 0 && holds::<T>(quotient(a.number(), b.number()))),
        ratio matches Some(q) ==> q.number() == quotient(a.number(), b.number()),
{
    num_traits::CheckedDiv::checked_div(a, b)
}

/// `num_traits::CheckedNeg::checked_neg` on a built-in integer type, which
/// is the type's own `checked_neg`. Assumed: the negation where the type
/// holds it, `None` where it does not (a signed `MIN`, an unsigned value
/// other than zero).
#[verifier::external_body]
fn num_checked_neg<T: Machine + num_traits::CheckedNeg>(a: &T) -> (negated: Option<T>)
    ensures
        negated is Some <==> holds::<T>(-a.number()),
        negated matches Some(n) ==> n.number() == -a.number(),
{
    num_traits::CheckedNeg::checked_neg(a)
}

impl Machine for i8 {
    spec fn number(&self) -> int {
        *self as int
    }

    spec fn floor() -> int {
        i8::MIN as int
    }

    spec fn ceiling() -> int {
        i8::MAX as int
    }
}

impl Scalar for i8 {
    open spec fn value(&self) -> int {
        *self as int
    }

    open spec fn lowest() -> int {
        i8::MIN as int
    }

    open spec fn highest() -> int {
        i8::MAX as int
    }

    open spec fn of(v: int) -> i8 {
        v as i8
    }

    proof fn units_in_range() {
    }

    proof fn value_in_range(&self) {
    }

    proof fn of_in_range(v: int) {
    }

    proof fn ordered_by_value(a: i8, b: i8) {
    }

    fn zero() -> i8 {
        num_zero()
    }

    fn one() -> i8 {
        num_one()
    }

    fn checked_add(&self, rhs: &i8) -> Option<i8> {
        num_checked_add(self, rhs)
    }

    fn checked_sub(&self, rhs: &i8) -> Option<i8> {
        num_checked_sub(self, rhs)
    }

    fn checked_mul(&self, rhs: &i8) -> Option<i8> {
        num_checked_mul(self, rhs)
    }

    fn checked_div(&self, rhs: &i8) -> Option<i8> {
        num_checked_div(self, rhs)
    }

    fn checked_neg(&self) -> Option<i8> {
        num_checked_neg(self)
    }
}

impl Machine for i16 {
    spec fn number(&self) -> int {
        *self as int
    }

    spec fn floor() -> int {
        i16::MIN as int
    }

    spec fn ceiling() -> int {
        i16::MAX as int
    }
}

impl Scalar for i16 {
    open spec fn value(&self) -> int {
        *self as int
    }

    open spec fn lowest() -> int {
        i16::MIN as int
    }

    open spec fn highest() -> int {
        i16::MAX as int
    }

    open spec fn of(v: int) -> i16 {
        v as i16
    }

    proof fn units_in_range() {
    }

    proof fn value_in_range(&self) {
    }

    proof fn of_in_range(v: int) {
    }

    proof fn ordered_by_value(a: i16, b: i16) {
    }

    fn zero() -> i16 {
        num_zero()
    }

    fn one() -> i16 {
        num_one()
    }

    fn checked_add(&self, rhs: &i16) -> Option<i16> {
        num_checked_add(self, rhs)
    }

    fn checked_sub(&self, rhs: &i16) -> Option<i16> {
        num_checked_sub(self, rhs)
    }

    fn checked_mul(&self, rhs: &i16) -> Option<i16> {
        num_checked_mul(self, rhs)
    }

    fn checked_div(&self, rhs: &i16) -> Option<i16> {
        num_checked_div(self, rhs)
    }

    fn checked_neg(&self) -> Option<i16> {
        num_checked_neg(self)
    }
}

impl Machine for i32 {
    spec fn number(&self) -> int {
        *self as int
    }

    spec fn floor() -> int {
        i32::MIN as int
    }

    spec fn ceiling() -> int {
        i32::MAX as int
    }
}

impl Scalar for i32 {
    open spec fn value(&self) -> int {
        *self as int
    }

    open spec fn lowest() -> int {
        i32::MIN as int
    }

    open spec fn highest() -> int {
        i32::MAX as int
    }

    open spec fn of(v: int) -> i32 {
        v as i32
    }

    proof fn units_in_range() {
    }

    proof fn value_in_range(&self) {
    }

    proof fn of_in_range(v: int) {
    }

    proof fn ordered_by_value(a: i32, b: i32) {
    }

    fn zero() -> i32 {
        num_zero()
    }

    fn one() -> i32 {
        num_one()
    }

    fn checked_add(&self, rhs: &i32) -> Option<i32> {
        num_checked_add(self, rhs)
    }

    fn checked_sub(&self, rhs: &i32) -> Option<i32> {
        num_checked_sub(self, rhs)
    }

    fn checked_mul(&self, rhs: &i32) -> Option<i32> {
        num_checked_mul(self, rhs)
    }

    fn checked_div(&self, rhs: &i32) -> Option<i32> {
        num_checked_div(self, rhs)
    }

    fn checked_neg(&self) -> Option<i32> {
        num_checked_neg(self)
    }
}

impl Machine for i64 {
    spec fn number(&self) -> int {
        *self as int
    }

    spec fn floor() -> int {
        i64::MIN as int
    }

    spec fn ceiling() -> int {
        i64::MAX as int
    }
}

impl Scalar for i64 {
    open spec fn value(&self) -> int {
        *self as int
    }

    open spec fn lowest() -> int {
        i64::MIN as int
    }

    open spec fn highest() -> int {
        i64::MAX as int
    }

    open spec fn of(v: int) -> i64 {
        v as i64
    }

    proof fn units_in_range() {
    }

    proof fn value_in_range(&self) {
    }

    proof fn of_in_range(v: int) {
    }

    proof fn ordered_by_value(a: i64, b: i64) {
    }

    fn zero() -> i64 {
        num_zero()
    }

    fn one() -> i64 {
        num_one()
    }

    fn checked_add(&self, rhs: &i64) -> Option<i64> {
        num_checked_add(self, rhs)
    }

    fn checked_sub(&self, rhs: &i64) -> Option<i64> {
        num_checked_sub(self, rhs)
    }

    fn checked_mul(&self, rhs: &i64) -> Option<i64> {
        num_checked_mul(self, rhs)
    }

    fn checked_div(&self, rhs: &i64) -> Option<i64> {
        num_checked_div(self, rhs)
    }

    fn checked_neg(&self) -> Option<i64> {
        num_checked_neg(self)
    }
}

impl Machine for i128 {
    spec fn number(&self) -> int {
        *self as int
    }

    spec fn floor() -> int {
        i128::MIN as int
    }

    spec fn ceiling() -> int {
        i128::MAX as int
    }
}

impl Scalar for i128 {
    open spec fn value(&self) -> int {
        *self as int
    }

    open spec fn lowest() -> int {
        i128::MIN as int
    }

    open spec fn highest() -> int {
        i128::MAX as int
    }

    open spec fn of(v: int) -> i128 {
        v as i128
    }

    proof fn units_in_range() {
    }

    proof fn value_in_range(&self) {
    }

    proof fn of_in_range(v: int) {
    }

    proof fn ordered_by_value(a: i128, b: i128) {
    }

    fn zero() -> i128 {
        num_zero()
    }

    fn one() -> i128 {
        num_one()
    }

    fn checked_add(&self, rhs: &i128) -> Option<i128> {
        num_checked_add(self, rhs)
    }

    fn checked_sub(&self, rhs: &i128) -> Option<i128> {
        num_checked_sub(self, rhs)
    }

    fn checked_mul(&self, rhs: &i128) -> Option<i128> {
        num_checked_mul(self, rhs)
    }

    fn checked_div(&self, rhs: &i128) -> Option<i128> {
        num_checked_div(self, rhs)
    }

    fn checked_neg(&self) -> Option<i128> {
        num_checked_neg(self)
    }
}

impl Machine for isize {
    spec fn number(&self) -> int {
        *self as int
    }

    spec fn floor() -> int {
        isize::MIN as int
    }

    spec fn ceiling() -> int {
        isize::MAX as int
    }
}

impl Scalar for isize {
    open spec fn value(&self) -> int {
        *self as int
    }

    open spec fn lowest() -> int {
        isize::MIN as int
    }

    open spec fn highest() -> int {
        isize::MAX as int
    }

    open spec fn of(v: int) -> isize {
        v as isize
    }

    proof fn units_in_range() {
    }

    proof fn value_in_range(&self) {
    }

    proof fn of_in_range(v: int) {
    }

    proof fn ordered_by_value(a: isize, b: isize) {
    }

    fn zero() -> isize {
        num_zero()
    }

    fn one() -> isize {
        num_one()
    }

    fn checked_add(&self, rhs: &isize) -> Option<isize> {
        num_checked_add(self, rhs)
    }

    fn checked_sub(&self, rhs: &isize) -> Option<isize> {
        num_checked_sub(self, rhs)
    }

    fn checked_mul(&self, rhs: &isize) -> Option<isize> {
        num_checked_mul(self, rhs)
    }

    fn checked_div(&self, rhs: &isize) -> Option<isize> {
        num_checked_div(self, rhs)
    }

    fn checked_neg(&self) -> Option<isize> {
        num_checked_neg(self)
    }
}

impl Machine for u8 {
    spec fn number(&self) -> int {
        *self as int
    }

    spec fn floor() -> int {
        u8::MIN as int
    }

    spec fn ceiling() -> int {
        u8::MAX as int
    }
}

impl Scalar for u8 {
    open spec fn value(&self) -> int {
        *self as int
    }

    open spec fn lowest() -> int {
        u8::MIN as int
    }

    open spec fn highest() -> int {
        u8::MAX as int
    }

    open spec fn of(v: int) -> u8 {
        v as u8
    }

    proof fn units_in_range() {
    }

    proof fn value_in_range(&self) {
    }

    proof fn of_in_range(v: int) {
    }

    proof fn ordered_by_value(a: u8, b: u8) {
    }

    fn zero() -> u8 {
        num_zero()
    }

    fn one() -> u8 {
        num_one()
    }

    fn checked_add(&self, rhs: &u8) -> Option<u8> {
        num_checked_add(self, rhs)
    }

    fn checked_sub(&self, rhs: &u8) -> Option<u8> {
        num_checked_sub(self, rhs)
    }

    fn checked_mul(&self, rhs: &u8) -> Option<u8> {
        num_checked_mul(self, rhs)
    }

    fn checked_div(&self, rhs: &u8) -> Option<u8> {
        num_checked_div(self, rhs)
    }

    fn checked_neg(&self) -> Option<u8> {
        num_checked_neg(self)
    }
}

impl Machine for u16 {
    spec fn number(&self) -> int {
        *self as int
    }

    spec fn floor() -> int {
        u16::MIN as int
    }

    spec fn ceiling() -> int {
        u16::MAX as int
    }
}

impl Scalar for u16 {
    open spec fn value(&self) -> int {
        *self as int
    }

    open spec fn lowest() -> int {
        u16::MIN as int
    }

    open spec fn highest() -> int {
        u16::MAX as int
    }

    open spec fn of(v: int) -> u16 {
        v as u16
    }

    proof fn units_in_range() {
    }

    proof fn value_in_range(&self) {
    }

    proof fn of_in_range(v: int) {
    }

    proof fn ordered_by_value(a: u16, b: u16) {
    }

    fn zero() -> u16 {
        num_zero()
    }

    fn one() -> u16 {
        num_one()
    }

    fn checked_add(&self, rhs: &u16) -> Option<u16> {
        num_checked_add(self, rhs)
    }

    fn checked_sub(&self, rhs: &u16) -> Option<u16> {
        num_checked_sub(self, rhs)
    }

    fn checked_mul(&self, rhs: &u16) -> Option<u16> {
        num_checked_mul(self, rhs)
    }

    fn checked_div(&self, rhs: &u16) -> Option<u16> {
        num_checked_div(self, rhs)
    }

    fn checked_neg(&self) -> Option<u16> {
        num_checked_neg(self)
    }
}

impl Machine for u32 {
    spec fn number(&self) -> int {
        *self as int
    }

    spec fn floor() -> int {
        u32::MIN as int
    }

    spec fn ceiling() -> int {
        u32::MAX as int
    }
}

impl Scalar for u32 {
    open spec fn value(&self) -> int {
        *self as int
    }

    open spec fn lowest() -> int {
        u32::MIN as int
    }

    open spec fn highest() -> int {
        u32::MAX as int
    }

    open spec fn of(v: int) -> u32 {
        v as u32
    }

    proof fn units_in_range() {
    }

    proof fn value_in_range(&self) {
    }

    proof fn of_in_range(v: int) {
    }

    proof fn ordered_by_value(a: u32, b: u32) {
    }

    fn zero() -> u32 {
        num_zero()
    }

    fn one() -> u32 {
        num_one()
    }

    fn checked_add(&self, rhs: &u32) -> Option<u32> {
        num_checked_add(self, rhs)
    }

    fn checked_sub(&self, rhs: &u32) -> Option<u32> {
        num_checked_sub(self, rhs)
    }

    fn checked_mul(&self, rhs: &u32) -> Option<u32> {
        num_checked_mul(self, rhs)
    }

    fn checked_div(&self, rhs: &u32) -> Option<u32> {
        num_checked_div(self, rhs)
    }

    fn checked_neg(&self) -> Option<u32> {
        num_checked_neg(self)
    }
}

impl Machine for u64 {
    spec fn number(&self) -> int {
        *self as int
    }

    spec fn floor() -> int {
        u64::MIN as int
    }

    spec fn ceiling() -> int {
        u64::MAX as int
    }
}

impl Scalar for u64 {
    open spec fn value(&self) -> int {
        *self as int
    }

    open spec fn lowest() -> int {
        u64::MIN as int
    }

    open spec fn highest() -> int {
        u64::MAX as int
    }

    open spec fn of(v: int) -> u64 {
        v as u64
    }

    proof fn units_in_range() {
    }

    proof fn value_in_range(&self) {
    }

    proof fn of_in_range(v: int) {
    }

    proof fn ordered_by_value(a: u64, b: u64) {
    }

    fn zero() -> u64 {
        num_zero()
    }

    fn one() -> u64 {
        num_one()
    }

    fn checked_add(&self, rhs: &u64) -> Option<u64> {
        num_checked_add(self, rhs)
    }

    fn checked_sub(&self, rhs: &u64) -> Option<u64> {
        num_checked_sub(self, rhs)
    }

    fn checked_mul(&self, rhs: &u64) -> Option<u64> {
        num_checked_mul(self, rhs)
    }

    fn checked_div(&self, rhs: &u64) -> Option<u64> {
        num_checked_div(self, rhs)
    }

    fn checked_neg(&self) -> Option<u64> {
        num_checked_neg(self)
    }
}

impl Machine for u128 {
    spec fn number(&self) -> int {
        *self as int
    }

    spec fn floor() -> int {
        u128::MIN as int
    }

    spec fn ceiling() -> int {
        u128::MAX as int
    }
}

impl Scalar for u128 {
    open spec fn value(&self) -> int {
        *self as int
    }

    open spec fn lowest() -> int {
        u128::MIN as int
    }

    open spec fn highest() -> int {
        u128::MAX as int
    }

    open spec fn of(v: int) -> u128 {
        v as u128
    }

    proof fn units_in_range() {
    }

    proof fn value_in_range(&self) {
    }

    proof fn of_in_range(v: int) {
    }

    proof fn ordered_by_value(a: u128, b: u128) {
    }

    fn zero() -> u128 {
        num_zero()
    }

    fn one() -> u128 {
        num_one()
    }

    fn checked_add(&self, rhs: &u128) -> Option<u128> {
        num_checked_add(self, rhs)
    }

    fn checked_sub(&self, rhs: &u128) -> Option<u128> {
        num_checked_sub(self, rhs)
    }

    fn checked_mul(&self, rhs: &u128) -> Option<u128> {
        num_checked_mul(self, rhs)
    }

    fn checked_div(&self, rhs: &u128) -> Option<u128> {
        num_checked_div(self, rhs)
    }

    fn checked_neg(&self) -> Option<u128> {
        num_checked_neg(self)
    }
}

impl Machine for usize {
    spec fn number(&self) -> int {
        *self as int
    }

    spec fn floor() -> int {
        usize::MIN as int
    }

    spec fn ceiling() -> int {
        usize::MAX as int
    }
}

impl Scalar for usize {
    open spec fn value(&self) -> int {
        *self as int
    }

    open spec fn lowest() -> int {
        usize::MIN as int
    }

    open spec fn highest() -> int {
        usize::MAX as int
    }

    open spec fn of(v: int) -> usize {
        v as usize
    }

    proof fn units_in_range() {
    }

    proof fn value_in_range(&self) {
    }

    proof fn of_in_range(v: int) {
    }

    proof fn ordered_by_value(a: usize, b: usize) {
    }

    fn zero() -> usize {
        num_zero()
    }

    fn one() -> usize {
        num_one()
    }

    fn checked_add(&self, rhs: &usize) -> Option<usize> {
        num_checked_add(self, rhs)
    }

    fn checked_sub(&self, rhs: &usize) -> Option<usize> {
        num_checked_sub(self, rhs)
    }

    fn checked_mul(&self, rhs: &usize) -> Option<usize> {
        num_checked_mul(self, rhs)
    }

    fn checked_div(&self, rhs: &usize) -> Option<usize> {
        num_checked_div(self, rhs)
    }

    fn checked_neg(&self) -> Option<usize> {
        num_checked_neg(self)
    }
}

} // verus!
