use strategem_hero::timer::{band_of_segments, GameTimer, TimerBand};

#[test]
fn remaining_counts_down_and_goes_negative() {
    let timer = GameTimer::start_from(30_000, 0);
    assert_eq!(30_000, timer.remaining(0));
    assert_eq!(10_000, timer.remaining(20_000));
    assert_eq!(-5_000, timer.remaining(35_000));
}

#[test]
fn expiry_is_exactly_deadline_reached() {
    let timer = GameTimer::start_from(30_000, 0);
    assert!(!timer.is_over(29_999));
    assert!(timer.is_over(30_000));
    assert!(timer.is_over(30_001));
}

#[test]
fn reduce_past_zero_expires_on_next_check() {
    let mut timer = GameTimer::start_from(5_000, 0);
    assert!(!timer.is_over(1));
    timer.sub(10_000);
    assert!(timer.is_over(1));
    assert!(timer.remaining(1) < 0);
}

#[test]
fn extend_pushes_the_deadline_out() {
    let mut timer = GameTimer::start_from(30_000, 0);
    timer.add(1_500);
    assert_eq!(31_500, timer.remaining(0));
}

#[test]
fn reset_restores_the_initial_duration() {
    let mut timer = GameTimer::start_from(30_000, 0);
    timer.sub(25_000);
    timer.reset(100_000);
    assert_eq!(30_000, timer.remaining(100_000));
}

#[test]
fn bar_segments_follow_the_ceiling_formula() {
    let timer = GameTimer::start_from(30_000, 0);
    assert_eq!(10, timer.bar_segments(0));
    assert_eq!(10, timer.bar_segments(2_999));
    assert_eq!(9, timer.bar_segments(3_000));
    assert_eq!(5, timer.bar_segments(15_000));
    assert_eq!(1, timer.bar_segments(29_999));
    assert_eq!(0, timer.bar_segments(30_000));
    assert_eq!(0, timer.bar_segments(50_000));
}

#[test]
fn bar_segments_clamp_at_ten_when_extended() {
    let mut timer = GameTimer::start_from(30_000, 0);
    timer.add(60_000);
    assert_eq!(10, timer.bar_segments(0));
}

#[test]
fn deadline_arithmetic_saturates_instead_of_wrapping() {
    let mut timer = GameTimer::start_from(i64::MAX, 10);
    assert!(!timer.is_over(0));
    timer.add(i64::MAX);
    assert!(!timer.is_over(0));
    timer.sub(i64::MAX);
    timer.sub(i64::MAX);
    assert!(timer.is_over(0));
}

#[test]
fn band_thresholds() {
    assert_eq!(TimerBand::Urgent, band_of_segments(0));
    assert_eq!(TimerBand::Urgent, band_of_segments(2));
    assert_eq!(TimerBand::Warning, band_of_segments(3));
    assert_eq!(TimerBand::Warning, band_of_segments(5));
    assert_eq!(TimerBand::Nominal, band_of_segments(6));
    assert_eq!(TimerBand::Nominal, band_of_segments(10));
}
