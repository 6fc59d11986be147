use vstd::prelude::*;

verus! {

/// Length of a day in seconds. Days are plain buckets of this many seconds
/// counted from the epoch; no time zone and no leap second enters.
pub const SECONDS_PER_DAY: i64 = 86400;

/// The largest day number that a mint record can hold.
pub const MAX_DAY: u32 = 0xffff_ffff;

/// The day that the second `now` falls into: `now / 86400`, rounded down.
pub open spec fn day_of(now: int) -> int {
    now / 86400
}

/// The timestamps that the rate limiter works on: seconds at or after the
/// epoch whose day number fits a mint record.
pub open spec fn valid_timestamp(now: int) -> bool {
    0 <= now && day_of(now) <= MAX_DAY
}

/// Tests whether `now` is a timestamp that the rate limiter works on.
pub fn timestamp_in_scope(now: i64) -> (ok: bool)
    ensures
        ok == valid_timestamp(now as int),
{
    now >= 0 && now / SECONDS_PER_DAY <= 0xffff_ffff
}

/// The day that the second `now` falls into.
pub fn day_number(now: i64) -> (day: u32)
    requires
        valid_timestamp(now as int),
    ensures
        day == day_of(now as int),
{
    (now / SECONDS_PER_DAY) as u32
}

/// The last second of a day and the first second of the next day lie one
/// second apart and in different days.
pub proof fn lemma_day_boundary(day: int)
    ensures
        day_of(day * 86400) == day,
        day_of(day * 86400 + 86399) == day,
        day_of((day + 1) * 86400) == day + 1,
{
}

/// A later second never falls into an earlier day.
pub proof fn lemma_day_monotonic(earlier: int, later: int)
    requires
        earlier <= later,
    ensures
        day_of(earlier) <= day_of(later),
{
}

/// A day is the run of 86400 seconds that starts at a multiple of 86400.
pub proof fn lemma_day_span(now: int, day: int)
    ensures
        day_of(now) == day <==> day * 86400 <= now < (day + 1) * 86400,
{
}

} // verus!
