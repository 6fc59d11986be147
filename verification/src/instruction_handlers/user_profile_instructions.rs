use vstd::prelude::*;
use crate::accounting::{checked_add, sum_fits};
use crate::error_types::ErrorCode;
use crate::identity::Identity;
use crate::state_types::{text_len, ProfileModel, UserProfile, MAX_NAME_LEN};

verus! {

/// The profile that creation gives `owner`: no balance yet, created and last
/// changed at `now`.
pub open spec fn new_profile(owner: Identity, name: Seq<char>, age: nat, now: int) -> ProfileModel {
    ProfileModel { owner, name, age, balance: 0, created_at: now, updated_at: now }
}

/// Outcome of creating a profile for `owner`, where `record_exists` is what
/// the store answered when asked for a profile of that identity.
pub open spec fn create_outcome(
    owner: Identity,
    name: Seq<char>,
    age: nat,
    now: int,
    record_exists: bool,
) -> Result<ProfileModel, ErrorCode> {
    if record_exists {
        Err(ErrorCode::AlreadyExists)
    } else {
        Ok(new_profile(owner, name, age, now))
    }
}

/// Outcome of `caller` giving `profile` a new name and age at `now`.
pub open spec fn update_outcome(
    profile: ProfileModel,
    name: Seq<char>,
    age: nat,
    now: int,
    caller: Identity,
) -> Result<ProfileModel, ErrorCode> {
    if caller != profile.owner {
        Err(ErrorCode::Unauthorized)
    } else {
        Ok(ProfileModel { name, age, updated_at: now, ..profile })
    }
}

/// Outcome of `caller` adding `amount` to the balance of `profile` at `now`.
pub open spec fn add_balance_outcome(
    profile: ProfileModel,
    amount: nat,
    caller: Identity,
    now: int,
) -> Result<ProfileModel, ErrorCode> {
    if caller != profile.owner {
        Err(ErrorCode::Unauthorized)
    } else if !sum_fits(profile.balance, amount) {
        Err(ErrorCode::Overflow)
    } else {
        Ok(ProfileModel { balance: profile.balance + amount, updated_at: now, ..profile })
    }
}

/// A profile that is created and then changed by its owner holds the name
/// and age of the change, was created at the time of the first step and last
/// changed at the time of the second, and has no balance yet.
pub proof fn lemma_create_then_update(
    owner: Identity,
    name: Seq<char>,
    age: nat,
    created_at: int,
    new_name: Seq<char>,
    new_age: nat,
    updated_at: int,
)
    ensures
        create_outcome(owner, name, age, created_at, false) matches Ok(profile) && update_outcome(
            profile,
            new_name,
            new_age,
            updated_at,
            owner,
        ) == Ok::<ProfileModel, ErrorCode>(
            ProfileModel {
                owner,
                name: new_name,
                age: new_age,
                balance: 0,
                created_at,
                updated_at,
            },
        ),
{
}

/// Creates the profile of `owner`.
///
/// The store tells through `record_exists` whether it already holds a
/// profile of `owner`; if it does, nothing is created. The new profile is
/// well-formed exactly when `name` is within its bound.
pub fn create_user_profile(
    owner: Identity,
    name: String,
    age: u8,
    now: i64,
    record_exists: bool,
) -> (created: Result<UserProfile, ErrorCode>)
    ensures
        match create_outcome(owner, name@, age as nat, now as int, record_exists) {
            Ok(model) => created is Ok && created->Ok_0@ == model,
            Err(e) => created == Err::<UserProfile, ErrorCode>(e),
        },
        record_exists <==> created == Err::<UserProfile, ErrorCode>(ErrorCode::AlreadyExists),
        created matches Ok(profile) ==> (profile.wf() <==> text_len(name@) <= MAX_NAME_LEN),
{
    if record_exists {
        return Err(ErrorCode::AlreadyExists);
    }
    Ok(UserProfile { owner, name, age, balance: 0, created_at: now, updated_at: now })
}

/// Gives the profile a new name and age.
///
/// Only the owner may do so: for any other caller the profile stays as it
/// was. The owner, the balance and the time of creation never change. A
/// well-formed profile stays well-formed where the new name is within its
/// bound and the clock has not run backwards.
pub fn update_user_profile(
    profile: &mut UserProfile,
    name: String,
    age: u8,
    now: i64,
    caller: Identity,
) -> (outcome: Result<(), ErrorCode>)
    ensures
        match update_outcome(old(profile)@, name@, age as nat, now as int, caller) {
            Ok(model) => outcome is Ok && final(profile)@ == model,
            Err(e) => outcome == Err::<(), ErrorCode>(e) && *final(profile) == *old(profile),
        },
        caller != old(profile).owner <==> outcome == Err::<(), ErrorCode>(
            ErrorCode::Unauthorized,
        ),
        final(profile).owner == old(profile).owner,
        final(profile).balance == old(profile).balance,
        final(profile).created_at == old(profile).created_at,
        old(profile).wf() && text_len(name@) <= MAX_NAME_LEN && old(profile).created_at <= now
            ==> final(profile).wf(),
{
    if caller != profile.owner {
        return Err(ErrorCode::Unauthorized);
    }
    profile.name = name;
    profile.age = age;
    profile.updated_at = now;
    Ok(())
}

/// Adds `amount` to the balance of the profile.
///
/// Only the owner may do so, and the sum has to fit: otherwise the profile
/// stays as it was, balance and time of change included. The balance never
/// goes down. A well-formed profile stays well-formed where the clock has
/// not run backwards.
pub fn add_balance(profile: &mut UserProfile, amount: u64, caller: Identity, now: i64) -> (outcome:
    Result<(), ErrorCode>)
    ensures
        match add_balance_outcome(old(profile)@, amount as nat, caller, now as int) {
            Ok(model) => outcome is Ok && final(profile)@ == model,
            Err(e) => outcome == Err::<(), ErrorCode>(e) && *final(profile) == *old(profile),
        },
        caller != old(profile).owner <==> outcome == Err::<(), ErrorCode>(
            ErrorCode::Unauthorized,
        ),
        final(profile).owner == old(profile).owner,
        final(profile).name == old(profile).name,
        final(profile).age == old(profile).age,
        final(profile).created_at == old(profile).created_at,
        final(profile).balance >= old(profile).balance,
        old(profile).wf() && old(profile).created_at <= now ==> final(profile).wf(),
{
    if caller != profile.owner {
        return Err(ErrorCode::Unauthorized);
    }
    let balance = checked_add(profile.balance, amount)?;
    profile.balance = balance;
    profile.updated_at = now;
    Ok(())
}

} // verus!
