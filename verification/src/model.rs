//! The controller as plain integers: what one cycle computes, when each of its
//! steps succeeds, and which state it leaves behind.
use crate::scalar::quotient;
use vstd::prelude::*;

verus! {

/// `x` held between `lo` and `hi`: `lo` where `x` is below it, else `hi`
/// where `x` is above that, else `x` itself. With `lo > hi` nothing lies
/// between them, and the result is whichever bound is tested first.
pub open spec fn band(x: int, lo: int, hi: int) -> int {
    if x < lo {
        lo
    } else if x > hi {
        hi
    } else {
        x
    }
}

/// A controller's tunables and running state as integers, together with the
/// range of the numbers it computes in.
pub struct PidView {
    pub gain_p: int,
    pub gain_i: int,
    pub gain_d: int,
    pub windup_limit: int,
    pub divisor: int,
    pub accumulated: int,
    pub prev_error: int,
    pub lowest: int,
    pub highest: int,
}

impl PidView {
    /// A controller with the given tunables and no history, computing in the
    /// range from `lowest` to `highest`.
    pub open spec fn fresh(
        gain_p: int,
        gain_i: int,
        gain_d: int,
        windup_limit: int,
        divisor: int,
        lowest: int,
        highest: int,
    ) -> PidView {
        PidView {
            gain_p,
            gain_i,
            gain_d,
            windup_limit,
            divisor,
            accumulated: 0,
            prev_error: 0,
            lowest,
            highest,
        }
    }

    /// The same controller with all five tunables replaced and its history
    /// kept.
    pub open spec fn retuned(
        self,
        gain_p: int,
        gain_i: int,
        gain_d: int,
        windup_limit: int,
        divisor: int,
    ) -> PidView {
        PidView { gain_p, gain_i, gain_d, windup_limit, divisor, ..self }
    }

    /// Whether `v` is a number that the controller's type can hold.
    pub open spec fn fits(self, v: int) -> bool {
        self.lowest <= v <= self.highest
    }

    /// The range holds zero and one, and every field is in range.
    pub open spec fn valid(self) -> bool {
        &&& self.lowest <= 0
        &&& 1 <= self.highest
        &&& self.fits(self.gain_p)
        &&& self.fits(self.gain_i)
        &&& self.fits(self.gain_d)
        &&& self.fits(self.windup_limit)
        &&& self.fits(self.divisor)
        &&& self.fits(self.accumulated)
        &&& self.fits(self.prev_error)
    }

    /// The accumulated error once `error` is added to it and the sum is held
    /// within the windup limit on either side of zero.
    pub open spec fn integral(self, error: int) -> int {
        band(self.accumulated + error, -self.windup_limit, self.windup_limit)
    }

    /// The proportional term for `error`.
    pub open spec fn p_term(self, error: int) -> int {
        error * self.gain_p
    }

    /// The integral term for `error`: it weighs the accumulated error after
    /// this cycle's limiting, not before.
    pub open spec fn i_term(self, error: int) -> int {
        self.integral(error) * self.gain_i
    }

    /// The derivative term for `error`: it weighs the change since the
    /// previous cycle's error.
    pub open spec fn d_term(self, error: int) -> int {
        (error - self.prev_error) * self.gain_d
    }

    /// The three terms together, before scaling.
    pub open spec fn combined(self, error: int) -> int {
        self.p_term(error) + self.i_term(error) + self.d_term(error)
    }

    /// Whether a cycle gets as far as storing a new accumulated error: the
    /// error, the new sum and the negated windup limit are all in range.
    pub open spec fn integrates(self, target: int, measured: int) -> bool {
        let error = target - measured;
        &&& self.fits(error)
        &&& self.fits(self.accumulated + error)
        &&& self.fits(-self.windup_limit)
    }

    /// Whether a cycle gets as far as storing its error as the previous one:
    /// it integrates, and each term and each partial sum is in range.
    pub open spec fn combines(self, target: int, measured: int) -> bool {
        let error = target - measured;
        &&& self.integrates(target, measured)
        &&& self.fits(self.p_term(error))
        &&& self.fits(self.i_term(error))
        &&& self.fits(error - self.prev_error)
        &&& self.fits(self.d_term(error))
        &&& self.fits(self.p_term(error) + self.i_term(error))
        &&& self.fits(self.combined(error))
    }

    /// The scaled output of a cycle, before it is converted to the caller's
    /// type: the combined terms divided by the divisor, rounded towards zero.
    /// There is none where the cycle does not combine, the divisor is zero or
    /// the quotient is out of range.
    pub open spec fn output(self, target: int, measured: int) -> Option<int> {
        let scaled = quotient(self.combined(target - measured), self.divisor);
        if self.combines(target, measured) && self.divisor != 0 && self.fits(scaled) {
            Some(scaled)
        } else {
            None
        }
    }

    /// The controller after a cycle. The accumulated error is replaced as soon
    /// as the cycle integrates and the previous error as soon as it combines,
    /// whether or not the cycle then yields an output.
    pub open spec fn after(self, target: int, measured: int) -> PidView {
        PidView {
            accumulated: if self.integrates(target, measured) {
                self.integral(target - measured)
            } else {
                self.accumulated
            },
            prev_error: if self.combines(target, measured) {
                target - measured
            } else {
                self.prev_error
            },
            ..self
        }
    }

    /// The controller after one cycle for each pair of target and measurement
    /// in `inputs`, in order.
    pub open spec fn after_all(self, inputs: Seq<(int, int)>) -> PidView
        decreases inputs.len(),
    {
        if inputs.len() == 0 {
            self
        } else {
            self.after_all(inputs.drop_last()).after(inputs.last().0, inputs.last().1)
        }
    }

    /// The idle configuration: no gain, no room to accumulate, no scaling,
    /// nothing accumulated.
    pub open spec fn idle(self) -> bool {
        &&& self.gain_p == 0
        &&& self.gain_i == 0
        &&& self.gain_d == 0
        &&& self.windup_limit == 0
        &&& self.divisor == 1
        &&& self.accumulated == 0
    }

    /// Whether, cycle by cycle through `inputs`, the error and its change
    /// since the previous error are both in range.
    pub open spec fn follows(self, inputs: Seq<(int, int)>) -> bool
        decreases inputs.len(),
    {
        inputs.len() > 0 ==> {
            let before = self.after_all(inputs.drop_last());
            let error = inputs.last().0 - inputs.last().1;
            &&& self.follows(inputs.drop_last())
            &&& self.fits(error)
            &&& self.fits(error - before.prev_error)
        }
    }
}

} // verus!
