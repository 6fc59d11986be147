use vstd::prelude::*;
use crate::error_types::ErrorCode;

verus! {

/// The largest value that a counter of the ledger can hold.
pub const MAX_COUNTER: u64 = 0xffff_ffff_ffff_ffff;

/// Whether `current + delta` is still a value of a counter.
pub open spec fn sum_fits(current: nat, delta: nat) -> bool {
    current + delta <= MAX_COUNTER
}

/// Adds `delta` to a counter that stands at `current`.
///
/// Every balance, supply and mint total of the ledger changes through this
/// function and through nothing else. It never wraps: a sum that does not fit
/// comes back as [`ErrorCode::Overflow`], and the caller applies no part of
/// the update.
pub fn checked_add(current: u64, delta: u64) -> (sum: Result<u64, ErrorCode>)
    ensures
        sum_fits(current as nat, delta as nat) ==> sum == Ok::<u64, ErrorCode>(
            (current + delta) as u64,
        ),
        !sum_fits(current as nat, delta as nat) ==> sum == Err::<u64, ErrorCode>(
            ErrorCode::Overflow,
        ),
{
    match current.checked_add(delta) {
        Some(total) => Ok(total),
        None => Err(ErrorCode::Overflow),
    }
}

} // verus!
