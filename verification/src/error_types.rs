use vstd::prelude::*;

verus! {

/// Why an instruction was turned down.
#[derive(Clone, Copy, Debug, PartialEq, Eq, Structural)]
pub enum ErrorCode {
    /// The caller is not the owner of the record it tried to change.
    Unauthorized,
    /// A counter would have left the range of `u64`.
    Overflow,
    /// The holder has already received the grant of the current day.
    AlreadyClaimedToday,
    /// A record for this identity is already there.
    AlreadyExists,
}

} // verus!
