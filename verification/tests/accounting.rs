use spl_practice::accounting::{checked_add, MAX_COUNTER};
use spl_practice::clock::{day_number, timestamp_in_scope, MAX_DAY, SECONDS_PER_DAY};
use spl_practice::identity::Identity;
use spl_practice::state_types::{text_fits, MAX_DESCRIPTION_LEN, MAX_NAME_LEN, MAX_SYMBOL_LEN};
use spl_practice::ErrorCode;

#[test]
fn checked_add_returns_the_sum() {
    assert_eq!(checked_add(0, 0), Ok(0));
    assert_eq!(checked_add(7, 8), Ok(15));
    assert_eq!(checked_add(1_000_000, 100), Ok(1_000_100));
}

#[test]
fn checked_add_reaches_the_largest_counter() {
    assert_eq!(MAX_COUNTER, u64::MAX);
    assert_eq!(checked_add(u64::MAX - 100, 100), Ok(u64::MAX));
    assert_eq!(checked_add(u64::MAX, 0), Ok(u64::MAX));
    assert_eq!(checked_add(0, u64::MAX), Ok(u64::MAX));
}

#[test]
fn checked_add_reports_overflow() {
    assert_eq!(checked_add(u64::MAX - 50, 100), Err(ErrorCode::Overflow));
    assert_eq!(checked_add(u64::MAX, 1), Err(ErrorCode::Overflow));
    assert_eq!(checked_add(u64::MAX, u64::MAX), Err(ErrorCode::Overflow));
}

#[test]
fn days_are_buckets_of_86400_seconds() {
    assert_eq!(SECONDS_PER_DAY, 86400);
    assert_eq!(day_number(0), 0);
    assert_eq!(day_number(1), 0);
    assert_eq!(day_number(86399), 0);
    assert_eq!(day_number(86400), 1);
    assert_eq!(day_number(86401), 1);
    assert_eq!(day_number(1_700_000_000), 19675);
}

#[test]
fn one_second_apart_and_in_different_days() {
    let day: i64 = 20_000;
    let last_second = day * 86400 + 86399;
    let first_second = last_second + 1;
    assert_eq!(day_number(last_second), 20_000);
    assert_eq!(day_number(first_second), 20_001);
}

#[test]
fn a_later_second_is_never_in_an_earlier_day() {
    let seconds: [i64; 6] = [0, 5, 86399, 86400, 200_000, 1_700_000_000];
    let mut i = 0;
    while i + 1 < seconds.len() {
        assert!(day_number(seconds[i]) <= day_number(seconds[i + 1]));
        i += 1;
    }
}

#[test]
fn timestamps_in_scope() {
    let last: i64 = (MAX_DAY as i64) * 86400 + 86399;
    assert!(timestamp_in_scope(0));
    assert!(timestamp_in_scope(1_700_000_000));
    assert!(timestamp_in_scope(last));
    assert_eq!(day_number(last), u32::MAX);
    assert!(!timestamp_in_scope(last + 1));
    assert!(!timestamp_in_scope(-1));
    assert!(!timestamp_in_scope(i64::MIN));
    assert!(!timestamp_in_scope(i64::MAX));
}

#[test]
fn identities_compare_by_their_bytes() {
    let a = Identity::new([7; 32]);
    let b = Identity::new([7; 32]);
    assert!(a == b);
    assert_eq!(a, b);
    assert_eq!(a.to_bytes(), [7; 32]);

    let mut bytes: [u8; 32] = [7; 32];
    bytes[31] = 8;
    assert!(a != Identity::new(bytes));

    let mut bytes: [u8; 32] = [7; 32];
    bytes[0] = 0;
    assert!(a != Identity::new(bytes));

    let mut bytes: [u8; 32] = [7; 32];
    bytes[16] = 200;
    assert_ne!(a, Identity { bytes });
}

#[test]
fn identity_keeps_its_bytes() {
    let mut bytes: [u8; 32] = [0; 32];
    let mut i = 0;
    while i < 32 {
        bytes[i] = (i as u8) * 3;
        i += 1;
    }
    let id = Identity::new(bytes);
    assert_eq!(id.to_bytes(), bytes);
    assert_eq!(id.bytes, bytes);
}

#[test]
fn text_is_measured_in_encoded_bytes() {
    assert_eq!(MAX_NAME_LEN, 50);
    assert_eq!(MAX_SYMBOL_LEN, 10);
    assert_eq!(MAX_DESCRIPTION_LEN, 200);
    assert!(text_fits("", 0));
    assert!(text_fits("Alice", MAX_NAME_LEN));
    assert!(text_fits(&"a".repeat(50), MAX_NAME_LEN));
    assert!(!text_fits(&"a".repeat(51), MAX_NAME_LEN));
    assert!(!text_fits("Alice", 4));
    // 25 letters of two bytes each fill the bound, 26 exceed it
    assert!(text_fits(&"é".repeat(25), MAX_NAME_LEN));
    assert!(!text_fits(&"é".repeat(26), MAX_NAME_LEN));
}
