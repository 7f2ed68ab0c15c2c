use pid_controller::PIDController;

#[test]
fn proportional_example() {
    let mut pid = PIDController::<i32>::new(2, 0, 0, 1000, 1);
    assert_eq!(pid.run::<i32>(10, 4), Some(12));
}

#[test]
fn full_formula_first_cycle() {
    // e = 7, accumulated = 7, change of error = 7: (3*7 + 2*7 + 5*7) / 4 = 70 / 4
    let mut pid = PIDController::<i64>::new(3, 2, 5, 100, 4);
    assert_eq!(pid.run::<i64>(10, 3), Some(17));
}

#[test]
fn full_formula_second_cycle() {
    let mut pid = PIDController::<i64>::new(3, 2, 5, 100, 4);
    assert_eq!(pid.run::<i64>(10, 3), Some(17));
    // e = 4, accumulated = 11, change of error = -3: (12 + 22 - 15) / 4 = 19 / 4
    assert_eq!(pid.run::<i64>(10, 6), Some(4));
}

#[test]
fn quotient_rounds_towards_zero() {
    let mut pid = PIDController::<i32>::new(1, 0, 0, 0, 2);
    assert_eq!(pid.run::<i32>(0, 7), Some(-3));
    assert_eq!(pid.run::<i32>(7, 0), Some(3));
    let mut neg = PIDController::<i32>::new(1, 0, 0, 0, -2);
    assert_eq!(neg.run::<i32>(0, 7), Some(3));
    assert_eq!(neg.run::<i32>(7, 0), Some(-3));
    assert_eq!(neg.run::<i32>(0, 0), Some(0));
}

#[test]
fn default_is_idle() {
    let mut pid: PIDController<i32> = Default::default();
    assert_eq!(pid.run::<i32>(10, 4), Some(0));
    assert_eq!(pid.run::<i32>(-500, 123), Some(0));
    assert_eq!(pid.run::<i32>(0, 0), Some(0));
    for step in 0..1000 {
        assert_eq!(pid.run::<i32>(step, 2 * step), Some(0));
    }
}

#[test]
fn idle_fails_where_the_error_overflows() {
    let mut pid: PIDController<i8> = Default::default();
    assert_eq!(pid.run::<i8>(100, -100), None);
    assert_eq!(pid.run::<i8>(100, 0), Some(0));
}

#[test]
fn idle_fails_where_the_change_of_error_overflows() {
    let mut pid: PIDController<i8> = Default::default();
    assert_eq!(pid.run::<i8>(100, 0), Some(0));
    assert_eq!(pid.run::<i8>(-100, 0), None);
    // the failed cycle kept the previous error at 100
    assert_eq!(pid.run::<i8>(-20, 0), Some(0));
    assert_eq!(pid.run::<i8>(-100, 0), Some(0));
}

#[test]
fn accumulated_is_pinned_at_the_limit() {
    // only the integral term shows: the output is the accumulated error
    let mut pid = PIDController::<i32>::new(0, 1, 0, 25, 1);
    assert_eq!(pid.run::<i32>(10, 0), Some(10));
    assert_eq!(pid.run::<i32>(10, 0), Some(20));
    assert_eq!(pid.run::<i32>(10, 0), Some(25));
    assert_eq!(pid.run::<i32>(10, 0), Some(25));
    assert_eq!(pid.run::<i32>(1000, 0), Some(25));
    assert_eq!(pid.run::<i32>(0, 0), Some(25));
    assert_eq!(pid.run::<i32>(0, 5), Some(20));
}

#[test]
fn accumulated_is_pinned_at_the_negated_limit() {
    let mut pid = PIDController::<i32>::new(0, 1, 0, 25, 1);
    assert_eq!(pid.run::<i32>(0, 20), Some(-20));
    assert_eq!(pid.run::<i32>(0, 20), Some(-25));
    assert_eq!(pid.run::<i32>(0, 20), Some(-25));
    assert_eq!(pid.run::<i32>(3, 0), Some(-22));
}

#[test]
fn integral_term_uses_the_limited_sum() {
    let mut pid = PIDController::<i32>::new(0, 3, 0, 5, 1);
    assert_eq!(pid.run::<i32>(100, 0), Some(15));
}

#[test]
fn same_error_has_no_derivative_term() {
    let mut pid = PIDController::<i32>::new(0, 0, 7, 0, 1);
    assert_eq!(pid.run::<i32>(10, 4), Some(42));
    assert_eq!(pid.run::<i32>(10, 4), Some(0));
    assert_eq!(pid.run::<i32>(106, 100), Some(0));
    assert_eq!(pid.run::<i32>(8, 0), Some(14));
}

#[test]
fn zero_divisor_gives_no_output() {
    let mut pid = PIDController::<i32>::new(2, 1, 1, 1000, 0);
    assert_eq!(pid.run::<i32>(10, 4), None);
    assert_eq!(pid.run::<i32>(0, 0), None);
    assert_eq!(pid.run::<i64>(-3, 9), None);
    let mut unsigned = PIDController::<u16>::new(1, 0, 0, 0, 0);
    assert_eq!(unsigned.run::<u16>(4, 1), None);
}

#[test]
fn zero_divisor_still_advances_the_history() {
    let mut pid = PIDController::<i32>::new(0, 1, 1, 1000, 0);
    assert_eq!(pid.run::<i32>(10, 4), None);
    pid.set_terms(0, 1, 1, 1000, 1);
    // accumulated 6 + 6 = 12, no change of error
    assert_eq!(pid.run::<i32>(10, 4), Some(12));
}

#[test]
fn retuning_keeps_the_history() {
    let mut pid = PIDController::<i32>::new(1, 1, 1, 1000, 1);
    // e = 6: 6 + 6 + 6
    assert_eq!(pid.run::<i32>(10, 4), Some(18));
    pid.set_terms(10, 100, 1000, 1000, 1);
    // e = 8: 80 + 100 * 14 + 1000 * 2
    assert_eq!(pid.run::<i32>(10, 2), Some(3480));
}

#[test]
fn retuning_replaces_every_tunable() {
    let mut pid = PIDController::<i32>::new(1, 1, 1, 1000, 1);
    pid.set_terms(2, 3, 5, 4, 7);
    // e = 9: accumulated held at 4, change 9: 18 + 12 + 45 = 75, by 7
    assert_eq!(pid.run::<i32>(9, 0), Some(10));
}

#[test]
fn error_overflow_changes_nothing() {
    let mut pid = PIDController::<i8>::new(0, 1, 1, 100, 1);
    assert_eq!(pid.run::<i8>(5, 0), Some(10));
    assert_eq!(pid.run::<i8>(127, -1), None);
    // accumulated is still 5 and the previous error still 5
    assert_eq!(pid.run::<i8>(5, 0), Some(10));
}

#[test]
fn sum_overflow_changes_nothing() {
    let mut pid = PIDController::<i8>::new(0, 1, 0, 127, 1);
    assert_eq!(pid.run::<i8>(100, 0), Some(100));
    assert_eq!(pid.run::<i8>(100, 0), None);
    assert_eq!(pid.run::<i8>(1, 0), Some(101));
}

#[test]
fn limit_that_cannot_be_negated_fails() {
    let mut pid = PIDController::<i8>::new(1, 0, 0, i8::MIN, 1);
    assert_eq!(pid.run::<i8>(1, 0), None);
    let mut unsigned = PIDController::<u8>::new(1, 0, 0, 1, 1);
    assert_eq!(unsigned.run::<u8>(1, 0), None);
    let mut zero_limit = PIDController::<u8>::new(3, 0, 0, 0, 1);
    assert_eq!(zero_limit.run::<u8>(5, 1), Some(12));
    assert_eq!(zero_limit.run::<u8>(1, 5), None);
}

#[test]
fn proportional_overflow_keeps_the_new_accumulated() {
    let mut pid = PIDController::<i8>::new(100, 1, 0, 100, 1);
    // 2 * 100 overflows after the accumulated error became 2
    assert_eq!(pid.run::<i8>(2, 0), None);
    pid.set_terms(0, 1, 1, 100, 1);
    // accumulated 2 + 1 = 3; the previous error is still 0, so the change is 1
    assert_eq!(pid.run::<i8>(1, 0), Some(4));
}

#[test]
fn integral_overflow_keeps_the_new_accumulated() {
    let mut pid = PIDController::<i8>::new(0, 100, 0, 100, 1);
    assert_eq!(pid.run::<i8>(2, 0), None);
    pid.set_terms(0, 1, 1, 100, 1);
    assert_eq!(pid.run::<i8>(1, 0), Some(4));
}

#[test]
fn derivative_overflow_keeps_the_previous_error() {
    let mut pid = PIDController::<i8>::new(0, 0, 100, 100, 1);
    assert_eq!(pid.run::<i8>(2, 0), None);
    pid.set_terms(0, 0, 1, 100, 1);
    assert_eq!(pid.run::<i8>(5, 0), Some(5));
}

#[test]
fn combination_overflow_keeps_the_previous_error() {
    let mut pid = PIDController::<i8>::new(10, 10, 0, 100, 1);
    // 70 + 70 overflows
    assert_eq!(pid.run::<i8>(7, 0), None);
    pid.set_terms(0, 1, 1, 100, 1);
    // accumulated 7 + 1 = 8, change of error 1 - 0
    assert_eq!(pid.run::<i8>(1, 0), Some(9));
    let mut second = PIDController::<i8>::new(10, 0, 10, 100, 1);
    assert_eq!(second.run::<i8>(7, 0), None);
    let mut third = PIDController::<i8>::new(5, 5, 10, 100, 1);
    // 35 + 35 fits, adding 70 does not
    assert_eq!(third.run::<i8>(7, 0), None);
}

#[test]
fn division_overflow_advances_the_previous_error() {
    let mut pid = PIDController::<i8>::new(1, 0, 0, 0, -1);
    assert_eq!(pid.run::<i8>(-128, 0), None);
    pid.set_terms(0, 0, 1, 0, 1);
    // the previous error is -128: the change to -100 is 28
    assert_eq!(pid.run::<i8>(-100, 0), Some(28));
}

#[test]
fn output_out_of_range_advances_the_previous_error() {
    let mut pid = PIDController::<i32>::new(1, 0, 1, 0, 1);
    assert_eq!(pid.run::<u8>(0, 5), None);
    assert_eq!(pid.run::<i8>(1000, 0), None);
    // the previous error is 1000: 1001 + 1
    assert_eq!(pid.run::<i32>(1001, 0), Some(1002));
}

#[test]
fn output_is_converted_to_the_type_asked_for() {
    let mut pid = PIDController::<i64>::new(1, 0, 0, 0, 1);
    assert_eq!(pid.run::<u8>(255, 0), Some(255u8));
    assert_eq!(pid.run::<u8>(256, 0), None);
    assert_eq!(pid.run::<i8>(0, 128), Some(-128i8));
    assert_eq!(pid.run::<i8>(0, 129), None);
    assert_eq!(pid.run::<i128>(0, 129), Some(-129i128));
    assert_eq!(pid.run::<u64>(0, 1), None);
    assert_eq!(pid.run::<usize>(4_000, 0), Some(4_000usize));
}

#[test]
fn negative_limit_puts_the_bounds_the_other_way_round() {
    // bounds 5 and -5: below 5 the lower bound is taken, else the upper
    let mut pid = PIDController::<i32>::new(0, 1, 0, -5, 1);
    assert_eq!(pid.run::<i32>(0, 0), Some(5));
    assert_eq!(pid.run::<i32>(10, 0), Some(-5));
    assert_eq!(pid.run::<i32>(10, 0), Some(-5));
    assert_eq!(pid.run::<i32>(9, 0), Some(5));
}

#[test]
fn zero_limit_keeps_nothing() {
    let mut pid = PIDController::<i16>::new(0, 1, 0, 0, 1);
    assert_eq!(pid.run::<i16>(300, 0), Some(0));
    assert_eq!(pid.run::<i16>(0, 300), Some(0));
}

#[test]
fn construction_accepts_any_tunables() {
    let mut pid = PIDController::<i8>::new(i8::MIN, i8::MAX, i8::MIN, i8::MIN, 0);
    assert_eq!(pid.run::<i8>(0, 0), None);
    pid.set_terms(i8::MIN, i8::MAX, i8::MIN, i8::MAX, 1);
    assert_eq!(pid.run::<i8>(0, 0), Some(0));
}

#[test]
fn every_integer_type_runs() {
    assert_eq!(PIDController::<i8>::new(2, 1, 1, 10, 2).run::<i8>(5, 2), Some(6));
    assert_eq!(PIDController::<i16>::new(2, 1, 1, 10, 2).run::<i16>(5, 2), Some(6));
    assert_eq!(PIDController::<i32>::new(2, 1, 1, 10, 2).run::<i32>(5, 2), Some(6));
    assert_eq!(PIDController::<i64>::new(2, 1, 1, 10, 2).run::<i64>(5, 2), Some(6));
    assert_eq!(PIDController::<i128>::new(2, 1, 1, 10, 2).run::<i128>(5, 2), Some(6));
    assert_eq!(PIDController::<isize>::new(2, 1, 1, 10, 2).run::<isize>(5, 2), Some(6));
    assert_eq!(PIDController::<u8>::new(2, 1, 1, 0, 2).run::<u8>(5, 2), Some(4));
    assert_eq!(PIDController::<u16>::new(2, 1, 1, 0, 2).run::<u16>(5, 2), Some(4));
    assert_eq!(PIDController::<u32>::new(2, 1, 1, 0, 2).run::<u32>(5, 2), Some(4));
    assert_eq!(PIDController::<u64>::new(2, 1, 1, 0, 2).run::<u64>(5, 2), Some(4));
    assert_eq!(PIDController::<u128>::new(2, 1, 1, 0, 2).run::<u128>(5, 2), Some(4));
    assert_eq!(PIDController::<usize>::new(2, 1, 1, 0, 2).run::<usize>(5, 2), Some(4));
}
