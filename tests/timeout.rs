use std::time::Duration;

use timeouts::timeout::{NANOS_PER_MILLI, NANOS_PER_SEC};
use timeouts::Timeout;

#[test]
fn expiry_test() {
    let t = Timeout::new(100 * NANOS_PER_MILLI);

    // sleep for less than the timeout and check expiry
    spin_sleep::sleep(Duration::from_millis(10));
    assert!(!t.expired());

    // sleep for more than the timeout and then check expiry
    spin_sleep::sleep(Duration::from_millis(100));
    assert!(t.expired())
}

#[test]
fn reset_test() {
    let mut t = Timeout::new(100 * NANOS_PER_MILLI);

    // sleep for more than the timeout and check expiry
    spin_sleep::sleep(Duration::from_millis(100));
    assert!(t.expired());

    // reset the timer and check expiry again
    t.reset();
    assert!(!t.expired());

    // wait again for more than the timeout and check expired again
    spin_sleep::sleep(Duration::from_millis(100));
    assert!(t.expired());
}

#[test]
fn now_test() {
    let t = Timeout::now();
    assert!(t.expired());
}

#[test]
fn never_test() {
    let t = Timeout::never();
    assert!(!t.expired());

    const SECONDS_IN_10_YEARS_MINUS_5: u64 = (315_360_000u64) - 5;
    assert!(t.remaining_s() > SECONDS_IN_10_YEARS_MINUS_5);
}

#[test]
fn remaining_test() {
    let mut t = Timeout::new(1000 * NANOS_PER_SEC);
    assert!(matches!(t.remaining_s(), 999..=1000));

    t.reset();
    assert!(matches!(t.remaining(), 999_990..=1_000_000));
    assert!(matches!(t.remaining_ms(), 999_990..=1_000_000));

    t.reset();
    assert!(matches!(t.remaining_us(), 999_999_990..=1_000_000_000));

    t.reset();
    assert!(matches!(t.remaining_ns(), 999_999_999_000..=1_000_000_000_000));
}
