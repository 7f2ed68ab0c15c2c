//! What holds of every controller, proved over its integer model.
use crate::model::band;
use crate::model::PidView;
use crate::scalar::quotient;
use vstd::prelude::*;

verus! {

/// A cycle leaves the tunables and the range alone, and a valid controller
/// valid.
pub proof fn law_cycle_keeps_tuning(pid: PidView, target: int, measured: int)
    ensures
        pid.after(target, measured) == (PidView {
            accumulated: pid.after(target, measured).accumulated,
            prev_error: pid.after(target, measured).prev_error,
            ..pid
        }),
        pid.valid() ==> pid.after(target, measured).valid(),
{
}

/// Any number of cycles leave the tunables and the range alone, and a valid
/// controller valid.
pub proof fn law_cycles_keep_tuning(pid: PidView, inputs: Seq<(int, int)>)
    ensures
        pid.after_all(inputs) == (PidView {
            accumulated: pid.after_all(inputs).accumulated,
            prev_error: pid.after_all(inputs).prev_error,
            ..pid
        }),
        pid.valid() ==> pid.after_all(inputs).valid(),
    decreases inputs.len(),
{
    if inputs.len() > 0 {
        law_cycles_keep_tuning(pid, inputs.drop_last());
        law_cycle_keeps_tuning(
            pid.after_all(inputs.drop_last()),
            inputs.last().0,
            inputs.last().1,
        );
    }
}

/// Where no step of a cycle overflows and the divisor is not zero, the scaled
/// output is `(gain_p * e + gain_i * held + gain_d * (e - prev_error)) /
/// divisor` rounded towards zero, with `e` the target less the measurement
/// and `held` the accumulated error plus `e`, held within the windup limit.
pub proof fn law_output_formula(pid: PidView, target: int, measured: int)
    requires
        pid.combines(target, measured),
        pid.divisor != 0,
        pid.fits(quotient(pid.combined(target - measured), pid.divisor)),
    ensures
        pid.output(target, measured) == Some(
            quotient(
                (target - measured) * pid.gain_p + band(
                    pid.accumulated + (target - measured),
                    -pid.windup_limit,
                    pid.windup_limit,
                ) * pid.gain_i + ((target - measured) - pid.prev_error) * pid.gain_d,
                pid.divisor,
            ),
        ),
{
}

/// With a windup limit that is not negative, a cycle that integrates leaves
/// the accumulated error between the negated limit and the limit.
pub proof fn law_accumulated_within_limit(pid: PidView, target: int, measured: int)
    requires
        pid.windup_limit >= 0,
        pid.integrates(target, measured),
    ensures
        -pid.windup_limit <= pid.after(target, measured).accumulated <= pid.windup_limit,
{
}

/// An idle controller answers zero and stays idle, for every target and
/// measurement whose difference, and whose change of difference since the
/// previous cycle, are in range.
pub proof fn law_idle_answers_zero(pid: PidView, target: int, measured: int)
    requires
        pid.valid(),
        pid.idle(),
        pid.fits(target - measured),
        pid.fits(target - measured - pid.prev_error),
    ensures
        pid.output(target, measured) == Some(0int),
        pid.after(target, measured).idle(),
        pid.after(target, measured).prev_error == target - measured,
{
}

/// An idle controller stays idle through any number of cycles, and answers
/// zero in each of them, as long as every error and every change of error is
/// in range.
pub proof fn law_idle_through_cycles(pid: PidView, inputs: Seq<(int, int)>)
    requires
        pid.valid(),
        pid.idle(),
        pid.follows(inputs),
    ensures
        pid.after_all(inputs).valid(),
        pid.after_all(inputs).idle(),
        forall|k: int|
            0 <= k < inputs.len() ==> #[trigger] pid.after_all(inputs.take(k)).output(
                inputs[k].0,
                inputs[k].1,
            ) == Some(0int),
    decreases inputs.len(),
{
    if inputs.len() > 0 {
        let earlier = inputs.drop_last();
        let last = inputs.len() - 1;
        law_idle_through_cycles(pid, earlier);
        law_cycles_keep_tuning(pid, earlier);
        let before = pid.after_all(earlier);
        law_idle_answers_zero(before, inputs.last().0, inputs.last().1);
        assert forall|k: int| 0 <= k < inputs.len() implies #[trigger] pid.after_all(
            inputs.take(k),
        ).output(inputs[k].0, inputs[k].1) == Some(0int) by {
            if k < last {
                assert(inputs.take(k) =~= earlier.take(k));
                assert(inputs[k] == earlier[k]);
            } else {
                assert(inputs.take(k) =~= earlier);
            }
        }
    }
}

/// Once the accumulated error stands at a windup limit that is not negative,
/// a cycle whose error is not negative leaves it there.
pub proof fn law_pinned_stays(pid: PidView, target: int, measured: int)
    requires
        pid.windup_limit >= 0,
        pid.accumulated == pid.windup_limit,
        target - measured >= 0,
    ensures
        pid.after(target, measured).accumulated == pid.windup_limit,
{
}

/// The same positive error, cycle after cycle, brings the accumulated error
/// to the windup limit: after `cycles` cycles it stands there, if `cycles`
/// times the error covers the distance to the limit. This is for a limit that
/// is not negative and whose negation is in range, an accumulated error within
/// the limit, and an error small enough for limit plus error to be in range,
/// so that no cycle fails before it has stored the new sum.
pub proof fn law_windup_pins(pid: PidView, target: int, measured: int, cycles: nat)
    requires
        pid.valid(),
        pid.windup_limit >= 0,
        pid.fits(-pid.windup_limit),
        -pid.windup_limit <= pid.accumulated <= pid.windup_limit,
        target - measured > 0,
        pid.fits(pid.windup_limit + (target - measured)),
        cycles * (target - measured) >= pid.windup_limit - pid.accumulated,
    ensures
        pid.after_all(Seq::new(cycles, |i: int| (target, measured))).accumulated
            == pid.windup_limit,
{
    law_windup_climbs(pid, target, measured, cycles);
}

/// The same positive error, cycle after cycle, raises the accumulated error
/// by the error each time until the windup limit stops it.
pub proof fn law_windup_climbs(pid: PidView, target: int, measured: int, cycles: nat)
    requires
        pid.valid(),
        pid.windup_limit >= 0,
        pid.fits(-pid.windup_limit),
        -pid.windup_limit <= pid.accumulated <= pid.windup_limit,
        target - measured > 0,
        pid.fits(pid.windup_limit + (target - measured)),
    ensures
        pid.after_all(Seq::new(cycles, |i: int| (target, measured))).accumulated == band(
            pid.accumulated + cycles * (target - measured),
            -pid.windup_limit,
            pid.windup_limit,
        ),
    decreases cycles,
{
    let error = target - measured;
    let inputs = Seq::new(cycles, |i: int| (target, measured));
    if cycles > 0 {
        let fewer = (cycles - 1) as nat;
        let earlier = Seq::new(fewer, |i: int| (target, measured));
        assert(inputs.drop_last() =~= earlier);
        law_windup_climbs(pid, target, measured, fewer);
        law_cycles_keep_tuning(pid, earlier);
        assert(cycles * error == fewer * error + error) by (nonlinear_arith)
            requires
                fewer == cycles - 1,
        ;
        assert(fewer * error >= 0) by (nonlinear_arith)
            requires
                fewer >= 0,
                error > 0,
        ;
    } else {
        assert(cycles * error == 0) by (nonlinear_arith)
            requires
                cycles == 0,
        ;
    }
}

/// A cycle whose error equals that of the cycle before it has no derivative
/// term, provided the cycle before got as far as storing its error.
pub proof fn law_same_error_no_derivative(
    pid: PidView,
    target: int,
    measured: int,
    next_target: int,
    next_measured: int,
)
    requires
        pid.combines(target, measured),
        next_target - next_measured == target - measured,
    ensures
        pid.after(target, measured).d_term(next_target - next_measured) == 0,
{
    assert(next_target - next_measured - pid.after(target, measured).prev_error == 0);
}

/// With a zero divisor a cycle has no output, whatever else is given.
pub proof fn law_zero_divisor_no_output(pid: PidView, target: int, measured: int)
    requires
        pid.divisor == 0,
    ensures
        pid.output(target, measured) is None,
{
}

/// Retuning keeps the history: the cycle after it starts from the accumulated
/// error and the previous error that stood before it, with the new tunables.
pub proof fn law_retune_keeps_history(
    pid: PidView,
    gain_p: int,
    gain_i: int,
    gain_d: int,
    windup_limit: int,
    divisor: int,
    target: int,
    measured: int,
)
    ensures
        pid.retuned(gain_p, gain_i, gain_d, windup_limit, divisor).accumulated == pid.accumulated,
        pid.retuned(gain_p, gain_i, gain_d, windup_limit, divisor).prev_error == pid.prev_error,
        pid.retuned(gain_p, gain_i, gain_d, windup_limit, divisor).integral(target - measured)
            == band(pid.accumulated + (target - measured), -windup_limit, windup_limit),
        pid.retuned(gain_p, gain_i, gain_d, windup_limit, divisor).d_term(target - measured)
            == (target - measured - pid.prev_error) * gain_d,
{
}

} // verus!
