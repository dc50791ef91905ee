use loadramp::outcome::WindowResult;
use loadramp::ratio::{push_ratio, FULL_RATIO};

fn window(successes: u64, failures: u64) -> WindowResult {
    WindowResult { successes, failures }
}

fn ratio_text(hundredths: u64) -> String {
    let mut text = String::new();
    push_ratio(&mut text, hundredths);
    text
}

#[test]
fn ratio_of_a_window_without_attempts_is_zero() {
    assert_eq!(window(0, 0).failure_ratio(), 0);
    assert!(!window(0, 0).exceeds(20));
    assert!(!window(0, 0).exceeds(0));
}

#[test]
fn ratio_without_failures_is_zero() {
    assert_eq!(window(100, 0).failure_ratio(), 0);
    assert_eq!(window(u64::MAX, 0).failure_ratio(), 0);
}

#[test]
fn ratio_without_successes_is_full() {
    assert_eq!(FULL_RATIO, 10000);
    assert_eq!(window(0, 1).failure_ratio(), 10000);
    assert_eq!(window(0, 100).failure_ratio(), 10000);
    assert_eq!(window(0, u64::MAX).failure_ratio(), 10000);
}

#[test]
fn ratio_is_in_hundredths_of_a_percent() {
    assert_eq!(window(80, 20).failure_ratio(), 2000);
    assert_eq!(window(1, 1).failure_ratio(), 5000);
    assert_eq!(window(3, 1).failure_ratio(), 2500);
    assert_eq!(window(999, 1).failure_ratio(), 10);
    assert_eq!(window(9999, 1).failure_ratio(), 1);
}

#[test]
fn ratio_is_rounded_to_the_nearest_hundredth() {
    assert_eq!(window(2, 1).failure_ratio(), 3333);
    assert_eq!(window(1, 2).failure_ratio(), 6667);
    assert_eq!(window(6, 1).failure_ratio(), 1429);
    assert_eq!(window(29999, 1).failure_ratio(), 0);
    assert_eq!(window(19998, 1).failure_ratio(), 1);
}

#[test]
fn ratio_half_way_goes_to_the_even_hundredth() {
    // 1 of 800 is 0.125 percent, 3 of 800 is 0.375 percent.
    assert_eq!(window(799, 1).failure_ratio(), 12);
    assert_eq!(window(797, 3).failure_ratio(), 38);
    // 1 of 20000 is 0.005 percent, 3 of 20000 is 0.015 percent.
    assert_eq!(window(19999, 1).failure_ratio(), 0);
    assert_eq!(window(19997, 3).failure_ratio(), 2);
}

#[test]
fn ratio_stays_within_bounds_on_large_counts() {
    assert_eq!(window(u64::MAX, u64::MAX).failure_ratio(), 5000);
    assert_eq!(window(1, u64::MAX).failure_ratio(), 10000);
    assert!(window(u64::MAX, u64::MAX).exceeds(49));
    assert!(!window(u64::MAX, u64::MAX).exceeds(50));
}

#[test]
fn threshold_is_exceeded_only_strictly() {
    assert!(!window(80, 20).exceeds(20));
    assert!(window(79, 21).exceeds(20));
    assert!(!window(81, 19).exceeds(20));
    assert!(!window(4, 1).exceeds(20));
    assert!(window(3, 1).exceeds(20));
}

#[test]
fn threshold_is_compared_without_rounding() {
    // 20001 of 100000 is 20.001 percent: shown as 20.00, yet above 20.
    let result = window(79999, 20001);
    assert_eq!(result.failure_ratio(), 2000);
    assert!(result.exceeds(20));
}

#[test]
fn nothing_exceeds_a_threshold_of_a_hundred_or_more() {
    assert!(window(0, 50).exceeds(99));
    assert!(!window(0, 50).exceeds(100));
    assert!(!window(0, 50).exceeds(101));
    assert!(!window(0, u64::MAX).exceeds(u64::MAX));
}

#[test]
fn threshold_of_zero_is_exceeded_by_any_failure() {
    assert!(window(1000, 1).exceeds(0));
    assert!(!window(1000, 0).exceeds(0));
}

#[test]
fn ratio_text_has_two_decimals() {
    assert_eq!(ratio_text(0), "0.00");
    assert_eq!(ratio_text(5), "0.05");
    assert_eq!(ratio_text(50), "0.50");
    assert_eq!(ratio_text(1250), "12.50");
    assert_eq!(ratio_text(3333), "33.33");
    assert_eq!(ratio_text(10000), "100.00");
}

#[test]
fn ratio_text_is_appended() {
    let mut text = String::from("rate ");
    push_ratio(&mut text, 2001);
    assert_eq!(text, "rate 20.01");
}
