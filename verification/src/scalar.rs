//! The numeric capability that a controller's value type has to offer:
//! a range of integers, an order, and arithmetic that detects overflow.
use vstd::prelude::*;
use vstd::std_specs::cmp::PartialOrdIs;
use vstd::std_specs::cmp::PartialOrdSpec;

verus! {

/// The quotient of `n` by `d`, rounded towards zero. Meant for `d != 0`.
pub open spec fn quotient(n: int, d: int) -> int
    recommends
        d != 0,
{
    if n >= 0 && d > 0 {
        n / d
    } else if n < 0 && d < 0 {
        (-n) / (-d)
    } else if n < 0 {
        -((-n) / d)
    } else {
        -(n / (-d))
    }
}

/// A number type with checked arithmetic.
///
/// Each value stands for one integer, its `value`, and the type holds every
/// integer from `lowest()` to `highest()`. An operation returns the exact
/// result where the type can hold it and `None` where it cannot.
pub trait Scalar: Copy + PartialOrd {
    /// The integer that this value stands for.
    spec fn value(&self) -> int;

    /// The least integer that the type holds.
    spec fn lowest() -> int;

    /// The greatest integer that the type holds.
    spec fn highest() -> int;

    /// The value of the type that stands for `v`, if `v` is in range.
    spec fn of(v: int) -> Self;

    /// Zero and one are in range.
    proof fn units_in_range()
        ensures
            Self::lowest() <= 0,
            1 <= Self::highest(),
    ;

    /// A value stands for an integer in range, and for no other value's integer.
    proof fn value_in_range(&self)
        ensures
            Self::lowest() <= self.value() <= Self::highest(),
            Self::of(self.value()) == *self,
    ;

    /// Every integer in range has its value.
    proof fn of_in_range(v: int)
        requires
            Self::lowest() <= v <= Self::highest(),
        ensures
            Self::of(v).value() == v,
    ;

    /// The comparison operators order values as their integers are ordered.
    proof fn ordered_by_value(a: Self, b: Self)
        ensures
            Self::obeys_partial_cmp_spec(),
            a.is_lt(&b) <==> a.value() < b.value(),
            a.is_le(&b) <==> a.value() <= b.value(),
            a.is_gt(&b) <==> a.value() > b.value(),
            a.is_ge(&b) <==> a.value() >= b.value(),
    ;

    /// The value that stands for 0.
    fn zero() -> (z: Self)
        ensures
            z.value() == 0,
    ;

    /// The value that stands for 1.
    fn one() -> (o: Self)
        ensures
            o.value() == 1,
    ;

    /// The sum, unless it is out of range.
    fn checked_add(&self, rhs: &Self) -> (sum: Option<Self>)
        ensures
            sum is Some <==> Self::lowest() <= self.value() + rhs.value() <= Self::highest(),
            sum matches Some(s) ==> s.value() == self.value() + rhs.value(),
    ;

    /// The difference, unless it is out of range.
    fn checked_sub(&self, rhs: &Self) -> (difference: Option<Self>)
        ensures
            difference is Some <==> Self::lowest() <= self.value() - rhs.value() <= Self::highest(),
            difference matches Some(d) ==> d.value() == self.value() - rhs.value(),
    ;

    /// The product, unless it is out of range.
    fn checked_mul(&self, rhs: &Self) -> (product: Option<Self>)
        ensures
            product is Some <==> Self::lowest() <= self.value() * rhs.value() <= Self::highest(),
            product matches Some(p) ==> p.value() == self.value() * rhs.value(),
    ;

    /// The quotient rounded towards zero, unless the divisor is zero or the
    /// quotient is out of range.
    fn checked_div(&self, rhs: &Self) -> (ratio: Option<Self>)
        ensures
            ratio is Some <==> rhs.value() != 0 && Self::lowest() <= quotient(
                self.value(),
                rhs.value(),
            ) <= Self::highest(),
            ratio matches Some(q) ==> q.value() == quotient(self.value(), rhs.value()),
    ;

    /// The negation, unless it is out of range.
    fn checked_neg(&self) -> (negated: Option<Self>)
        ensures
            negated is Some <==> Self::lowest() <= -self.value() <= Self::highest(),
            negated matches Some(n) ==> n.value() == -self.value(),
    ;
}

} // verus!
