use spl_practice::instruction_handlers::user_profile_instructions::{
    add_balance, create_user_profile, update_user_profile,
};
use spl_practice::{ErrorCode, Identity, UserProfile};

fn owner() -> Identity {
    Identity::new([1; 32])
}

fn stranger() -> Identity {
    let mut bytes: [u8; 32] = [1; 32];
    bytes[31] = 2;
    Identity::new(bytes)
}

fn alice(now: i64) -> UserProfile {
    create_user_profile(owner(), String::from("Alice"), 30, now, false).unwrap()
}

#[test]
fn create_fills_every_field() {
    let profile = alice(1_700_000_000);
    assert_eq!(
        profile,
        UserProfile {
            owner: owner(),
            name: String::from("Alice"),
            age: 30,
            balance: 0,
            created_at: 1_700_000_000,
            updated_at: 1_700_000_000,
        }
    );
    assert!(profile.is_well_formed());
}

#[test]
fn create_is_refused_where_a_profile_exists() {
    let created = create_user_profile(owner(), String::from("Alice"), 30, 5, true);
    assert_eq!(created, Err(ErrorCode::AlreadyExists));
}

#[test]
fn create_with_a_name_beyond_the_bound_is_not_well_formed() {
    let profile = create_user_profile(owner(), "x".repeat(51), 30, 5, false).unwrap();
    assert_eq!(profile.name.len(), 51);
    assert!(!profile.is_well_formed());
    let profile = create_user_profile(owner(), "x".repeat(50), 30, 5, false).unwrap();
    assert!(profile.is_well_formed());
}

#[test]
fn create_then_update_round_trip() {
    let t0: i64 = 1_700_000_000;
    let t1: i64 = 1_700_086_400;
    let mut profile = alice(t0);
    let outcome = update_user_profile(&mut profile, String::from("Alice2"), 31, t1, owner());
    assert_eq!(outcome, Ok(()));
    assert_eq!(profile.name, "Alice2");
    assert_eq!(profile.age, 31);
    assert_eq!(profile.created_at, t0);
    assert_eq!(profile.updated_at, t1);
    assert_eq!(profile.owner, owner());
    assert_eq!(profile.balance, 0);
    assert!(profile.is_well_formed());
}

#[test]
fn update_by_a_stranger_changes_nothing() {
    let mut profile = alice(100);
    let before = profile.clone();
    let outcome = update_user_profile(&mut profile, String::from("Mallory"), 99, 200, stranger());
    assert_eq!(outcome, Err(ErrorCode::Unauthorized));
    assert_eq!(profile, before);
}

#[test]
fn update_keeps_the_balance() {
    let mut profile = alice(100);
    assert_eq!(add_balance(&mut profile, 40, owner(), 110), Ok(()));
    assert_eq!(update_user_profile(&mut profile, String::from("Al"), 32, 120, owner()), Ok(()));
    assert_eq!(
        profile,
        UserProfile {
            owner: owner(),
            name: String::from("Al"),
            age: 32,
            balance: 40,
            created_at: 100,
            updated_at: 120,
        }
    );
}

#[test]
fn update_before_creation_time_is_not_well_formed() {
    let mut profile = alice(100);
    assert_eq!(update_user_profile(&mut profile, String::from("Al"), 32, 99, owner()), Ok(()));
    assert_eq!(profile.updated_at, 99);
    assert!(!profile.is_well_formed());
}

#[test]
fn add_balance_adds_and_stamps() {
    let mut profile = alice(100);
    assert_eq!(add_balance(&mut profile, 250, owner(), 150), Ok(()));
    assert_eq!(profile.balance, 250);
    assert_eq!(profile.updated_at, 150);
    assert_eq!(add_balance(&mut profile, 50, owner(), 160), Ok(()));
    assert_eq!(profile.balance, 300);
    assert_eq!(profile.updated_at, 160);
    assert_eq!(profile.created_at, 100);
    assert_eq!(profile.name, "Alice");
    assert_eq!(profile.age, 30);
}

#[test]
fn add_balance_of_nothing_still_stamps() {
    let mut profile = alice(100);
    assert_eq!(add_balance(&mut profile, 0, owner(), 170), Ok(()));
    assert_eq!(profile.balance, 0);
    assert_eq!(profile.updated_at, 170);
}

#[test]
fn add_balance_by_a_stranger_changes_nothing() {
    let mut profile = alice(100);
    let before = profile.clone();
    assert_eq!(add_balance(&mut profile, 250, stranger(), 150), Err(ErrorCode::Unauthorized));
    assert_eq!(profile, before);
}

#[test]
fn add_balance_overflow_changes_nothing() {
    let mut profile = alice(100);
    assert_eq!(add_balance(&mut profile, u64::MAX - 50, owner(), 150), Ok(()));
    let before = profile.clone();
    assert_eq!(add_balance(&mut profile, 100, owner(), 160), Err(ErrorCode::Overflow));
    assert_eq!(profile, before);
    assert_eq!(profile.balance, u64::MAX - 50);
    assert_eq!(profile.updated_at, 150);
    assert_eq!(add_balance(&mut profile, 50, owner(), 170), Ok(()));
    assert_eq!(profile.balance, u64::MAX);
}

#[test]
fn a_stranger_is_refused_before_the_sum_is_looked_at() {
    let mut profile = alice(100);
    assert_eq!(add_balance(&mut profile, u64::MAX, owner(), 150), Ok(()));
    assert_eq!(add_balance(&mut profile, 1, stranger(), 160), Err(ErrorCode::Unauthorized));
    assert_eq!(add_balance(&mut profile, 1, owner(), 160), Err(ErrorCode::Overflow));
}
