//! The controller itself: construction, retuning and the per-cycle update.
use crate::model::PidView;
use crate::scalar::Scalar;
use vstd::prelude::*;
use vstd::std_specs::cmp::PartialOrdIs;
use vstd::std_specs::cmp::PartialOrdSpec;
use vstd::std_specs::convert::TryFromSpec;

verus! {

/// `num_traits::clamp`. Assumed, for a type whose comparison operators follow
/// its `partial_cmp_spec`: given `min <= max` (without which it may panic) it
/// returns `min` where `input < min`, else `max` where `input > max`, else
/// `input`.
pub assume_specification<T: PartialOrd>[ num_traits::clamp::<T> ](input: T, min: T, max: T) -> (held: T)
    requires
        T::obeys_partial_cmp_spec(),
        min.is_le(&max),
    ensures
        held == if input.is_lt(&min) {
            min
        } else if input.is_gt(&max) {
            max
        } else {
            input
        },
;

/// The conversion of a value into itself, which `TryFrom` goes through where
/// the output type is the controller's own. Assumed: it returns its argument.
pub assume_specification<V>[ <V as std::convert::From<V>>::from ](v: V) -> (same: V)
    ensures
        same == v,
;

/// Whether `out` is what `U::try_from(x)` gives, with its error dropped.
pub open spec fn converted<T, U: TryFrom<T>>(x: T, out: Option<U>) -> bool {
    exists|c: Result<U, U::Error>|
        {
            &&& #[trigger] call_ensures(U::try_from, (x,), c)
            &&& out == match c {
                Ok(u) => Some(u),
                Err(_) => None,
            }
        }
}

/// A PID controller over the number type `T`.
pub struct PIDController<T> {
    gain_p: T,
    gain_i: T,
    gain_d: T,
    windup_limit: T,
    divisor: T,
    accumulated: T,
    prev_error: T,
}

impl<T: Scalar> View for PIDController<T> {
    type V = PidView;

    closed spec fn view(&self) -> PidView {
        PidView {
            gain_p: self.gain_p.value(),
            gain_i: self.gain_i.value(),
            gain_d: self.gain_d.value(),
            windup_limit: self.windup_limit.value(),
            divisor: self.divisor.value(),
            accumulated: self.accumulated.value(),
            prev_error: self.prev_error.value(),
            lowest: T::lowest(),
            highest: T::highest(),
        }
    }
}

impl<T: Scalar> PIDController<T> {
    /// Every controller computes in the range of its number type, and all it
    /// holds is in that range.
    pub proof fn view_in_range(&self)
        ensures
            self@.lowest == T::lowest(),
            self@.highest == T::highest(),
            self@.valid(),
    {
        T::units_in_range();
        self.gain_p.value_in_range();
        self.gain_i.value_in_range();
        self.gain_d.value_in_range();
        self.windup_limit.value_in_range();
        self.divisor.value_in_range();
        self.accumulated.value_in_range();
        self.prev_error.value_in_range();
    }

    /// A controller with the given tunables and no history. Nothing is asked
    /// of the tunables: a zero divisor shows only when a cycle is run.
    pub fn new(gain_p: T, gain_i: T, gain_d: T, windup_limit: T, divisor: T) -> (pid: Self)
        ensures
            pid@ == PidView::fresh(
                gain_p.value(),
                gain_i.value(),
                gain_d.value(),
                windup_limit.value(),
                divisor.value(),
                T::lowest(),
                T::highest(),
            ),
    {
        Self {
            gain_p,
            gain_i,
            gain_d,
            windup_limit,
            divisor,
            accumulated: T::zero(),
            prev_error: T::zero(),
        }
    }

    /// Replaces all five tunables at once and leaves the history as it is.
    pub fn set_terms(&mut self, gain_p: T, gain_i: T, gain_d: T, windup_limit: T, divisor: T)
        ensures
            final(self)@ == old(self)@.retuned(
                gain_p.value(),
                gain_i.value(),
                gain_d.value(),
                windup_limit.value(),
                divisor.value(),
            ),
    {
        self.gain_p = gain_p;
        self.gain_i = gain_i;
        self.gain_d = gain_d;
        self.windup_limit = windup_limit;
        self.divisor = divisor;
    }

    /// Runs one cycle for the given target and measurement, and converts the
    /// scaled output to `U`. Returns `None` where a step overflows, the divisor
    /// is zero or `U` cannot hold the output; the state is updated as far as
    /// the cycle got.
    pub fn run<U: TryFrom<T>>(&mut self, target: T, measured: T) -> (out: Option<U>)
        ensures
            final(self)@ == old(self)@.after(target.value(), measured.value()),
            match old(self)@.output(target.value(), measured.value()) {
                Some(scaled) => converted::<T, U>(T::of(scaled), out),
                None => out is None,
            },
            U::obeys_try_from_spec() ==> out == match old(self)@.output(
                target.value(),
                measured.value(),
            ) {
                Some(scaled) => match U::try_from_spec(T::of(scaled)) {
                    Ok(u) => Some(u),
                    Err(_) => None,
                },
                None => None,
            },
            old(self)@.divisor == 0 ==> out is None,
            old(self)@.windup_limit >= 0 && old(self)@.integrates(target.value(), measured.value())
                ==> -old(self)@.windup_limit <= final(self)@.accumulated <= old(self)@.windup_limit,
    {
        let error = target.checked_sub(&measured)?;
        let sum = self.accumulated.checked_add(&error)?;
        let limit = self.windup_limit;
        let floor = limit.checked_neg()?;
        proof {
            T::ordered_by_value(floor, limit);
            T::ordered_by_value(sum, floor);
            T::ordered_by_value(sum, limit);
        }
        // A negative limit puts the lower bound above the upper one, which
        // `clamp` does not take: the same two tests are then made here.
        self.accumulated = if floor <= limit {
            num_traits::clamp(sum, floor, limit)
        } else if sum < floor {
            floor
        } else {
            limit
        };

        let p = error.checked_mul(&self.gain_p)?;
        let i = self.accumulated.checked_mul(&self.gain_i)?;
        let d = error.checked_sub(&self.prev_error)?.checked_mul(&self.gain_d)?;
        let output = p.checked_add(&i)?.checked_add(&d)?;

        self.prev_error = error;

        let scaled = output.checked_div(&self.divisor)?;
        proof {
            scaled.value_in_range();
        }
        U::try_from(scaled).ok()
    }
}

impl<T: Scalar> Default for PIDController<T> {
    /// The idle controller: every gain and the windup limit zero, the divisor
    /// one, no history.
    fn default() -> (pid: Self)
        ensures
            pid@ == PidView::fresh(0, 0, 0, 0, 1, T::lowest(), T::highest()),
    {
        Self {
            gain_p: T::zero(),
            gain_i: T::zero(),
            gain_d: T::zero(),
            windup_limit: T::zero(),
            divisor: T::one(),
            accumulated: T::zero(),
            prev_error: T::zero(),
        }
    }
}

} // verus!
