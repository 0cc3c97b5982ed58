use auth_core::clock::{now, timestamp};

#[test]
fn timestamp_keeps_seconds_that_fit() {
    assert_eq!(timestamp(0), 0);
    assert_eq!(timestamp(1_700_000_000), 1_700_000_000);
}

#[test]
fn timestamp_before_the_epoch_is_the_epoch() {
    assert_eq!(timestamp(-1), 0);
    assert_eq!(timestamp(i64::MIN), 0);
}

#[test]
fn timestamp_stays_a_machine_integer() {
    let largest = timestamp(i64::MAX);
    assert_eq!(largest as u128, (i64::MAX as u128).min(usize::MAX as u128));
}

#[test]
fn now_is_after_the_year_2020_and_does_not_go_back() {
    let first = now();
    let second = now();
    assert!(first > 1_577_836_800);
    assert!(second >= first);
    assert!(second as u128 <= i64::MAX as u128);
}
