//! What holds of the grants to one identity over any run of requests.

use vstd::prelude::*;
use crate::accounting::MAX_COUNTER;
use crate::clock::{day_of, valid_timestamp};
use crate::error_types::ErrorCode;
use crate::identity::Identity;
use crate::instruction_handlers::token_instructions::{mint_outcome, slot_after};
use crate::state_types::{fresh_record, MintRecordModel};

verus! {

/// One request for the daily grant: the second at which it is made and the
/// amount that is asked for.
pub struct MintRequest {
    pub now: int,
    pub amount: nat,
}

/// What the store holds for `user` once `requests` were served in order,
/// where it held `slot` before the first.
pub open spec fn slot_after_all(
    slot: Option<MintRecordModel>,
    user: Identity,
    requests: Seq<MintRequest>,
) -> Option<MintRecordModel>
    decreases requests.len(),
{
    if requests.len() == 0 {
        slot
    } else {
        let request = requests.last();
        slot_after(slot_after_all(slot, user, requests.drop_last()), user, request.now, request.amount)
    }
}

/// Outcome of the request at position `i` of the run.
pub open spec fn outcome_at(
    slot: Option<MintRecordModel>,
    user: Identity,
    requests: Seq<MintRequest>,
    i: int,
) -> Result<MintRecordModel, ErrorCode> {
    mint_outcome(slot_after_all(slot, user, requests.take(i)), user, requests[i].now, requests[i].amount)
}

/// Sum of the grants that the slot records; nothing where it is empty.
pub open spec fn total_minted(slot: Option<MintRecordModel>) -> nat {
    match slot {
        Some(record) => record.total_minted,
        None => 0,
    }
}

/// Day of the latest grant that the slot records; 0 where it is empty.
pub open spec fn last_mint_day(slot: Option<MintRecordModel>) -> nat {
    match slot {
        Some(record) => record.last_mint_day,
        None => 0,
    }
}

/// Every request of the run is made at a timestamp in scope, on day `day`.
pub open spec fn all_within_day(requests: Seq<MintRequest>, day: int) -> bool {
    forall|i: int|
        0 <= i < requests.len() ==> valid_timestamp(#[trigger] requests[i].now) && day_of(
            requests[i].now,
        ) == day
}

/// Serving a run in two parts gives what serving it in one piece gives.
pub proof fn lemma_slot_after_all_concat(
    slot: Option<MintRecordModel>,
    user: Identity,
    first: Seq<MintRequest>,
    second: Seq<MintRequest>,
)
    ensures
        slot_after_all(slot, user, first + second) == slot_after_all(
            slot_after_all(slot, user, first),
            user,
            second,
        ),
    decreases second.len(),
{
    if second.len() == 0 {
        assert(first + second =~= first);
    } else {
        lemma_slot_after_all_concat(slot, user, first, second.drop_last());
        assert((first + second).drop_last() =~= first + second.drop_last());
        assert((first + second).last() == second.last());
    }
}

/// A record that was granted on `day` turns down every further request of
/// that day and is not changed by any of them.
pub proof fn lemma_exhausted_for_the_day(
    record: MintRecordModel,
    user: Identity,
    requests: Seq<MintRequest>,
    day: int,
)
    requires
        record.last_mint_day == day,
        all_within_day(requests, day),
    ensures
        slot_after_all(Some(record), user, requests) == Some(record),
        forall|i: int|
            0 <= i < requests.len() ==> #[trigger] outcome_at(Some(record), user, requests, i)
                == Err::<MintRecordModel, ErrorCode>(ErrorCode::AlreadyClaimedToday),
    decreases requests.len(),
{
    if requests.len() > 0 {
        let earlier = requests.drop_last();
        assert(all_within_day(earlier, day)) by {
            assert forall|i: int| 0 <= i < earlier.len() implies valid_timestamp(
                #[trigger] earlier[i].now,
            ) && day_of(earlier[i].now) == day by {
                assert(earlier[i] == requests[i]);
            }
        }
        lemma_exhausted_for_the_day(record, user, earlier, day);
        assert(day_of(requests.last().now) == day) by {
            assert(requests.last() == requests[requests.len() - 1]);
        }
        assert forall|i: int| 0 <= i < requests.len() implies #[trigger] outcome_at(
            Some(record),
            user,
            requests,
            i,
        ) == Err::<MintRecordModel, ErrorCode>(ErrorCode::AlreadyClaimedToday) by {
            let served = requests.take(i);
            assert(all_within_day(served, day)) by {
                assert forall|k: int| 0 <= k < served.len() implies valid_timestamp(
                    #[trigger] served[k].now,
                ) && day_of(served[k].now) == day by {
                    assert(served[k] == requests[k]);
                }
            }
            if i < requests.len() - 1 {
                assert(requests.take(i) =~= earlier.take(i));
                assert(outcome_at(Some(record), user, earlier, i) == Err::<
                    MintRecordModel,
                    ErrorCode,
                >(ErrorCode::AlreadyClaimedToday));
                assert(earlier[i] == requests[i]);
            } else {
                assert(requests.take(i) =~= earlier);
            }
        }
    }
}

/// Within one day at most one request of a run is granted, whatever the
/// store held before: once a request was granted, every later request of the
/// run is turned down as already claimed, and the sum of the grants stays
/// what it was after the granted one.
pub proof fn lemma_one_grant_per_day(
    slot: Option<MintRecordModel>,
    user: Identity,
    requests: Seq<MintRequest>,
    day: int,
    i: int,
    j: int,
)
    requires
        all_within_day(requests, day),
        0 <= i < j < requests.len(),
        outcome_at(slot, user, requests, i) is Ok,
    ensures
        outcome_at(slot, user, requests, j) == Err::<MintRecordModel, ErrorCode>(
            ErrorCode::AlreadyClaimedToday,
        ),
        slot_after_all(slot, user, requests.take(j + 1)) == slot_after_all(
            slot,
            user,
            requests.take(i + 1),
        ),
        total_minted(slot_after_all(slot, user, requests.take(j + 1))) == total_minted(
            slot_after_all(slot, user, requests.take(i + 1)),
        ),
{
    let granted = requests.take(i + 1);
    let record = outcome_at(slot, user, requests, i)->Ok_0;
    assert(granted.drop_last() =~= requests.take(i));
    assert(granted.last() == requests[i]);
    assert(slot_after_all(slot, user, granted) == Some(record));
    assert(valid_timestamp(requests[i].now) && day_of(requests[i].now) == day);
    assert(record.last_mint_day == day);

    let between = requests.subrange(i + 1, j);
    assert(all_within_day(between, day)) by {
        assert forall|k: int| 0 <= k < between.len() implies valid_timestamp(
            #[trigger] between[k].now,
        ) && day_of(between[k].now) == day by {
            assert(between[k] == requests[i + 1 + k]);
        }
    }
    lemma_exhausted_for_the_day(record, user, between, day);
    lemma_slot_after_all_concat(slot, user, granted, between);
    assert(granted + between =~= requests.take(j));
    assert(slot_after_all(slot, user, requests.take(j)) == Some(record));
    assert(valid_timestamp(requests[j].now) && day_of(requests[j].now) == day);

    let upto = requests.take(j + 1);
    assert(upto.drop_last() =~= requests.take(j));
    assert(upto.last() == requests[j]);
}

/// Within one day no two requests of a run are both granted.
pub proof fn lemma_at_most_one_grant(
    slot: Option<MintRecordModel>,
    user: Identity,
    requests: Seq<MintRequest>,
    day: int,
)
    requires
        all_within_day(requests, day),
    ensures
        forall|i: int, j: int|
            0 <= i < requests.len() && 0 <= j < requests.len() && #[trigger] outcome_at(
                slot,
                user,
                requests,
                i,
            ) is Ok && #[trigger] outcome_at(slot, user, requests, j) is Ok ==> i == j,
{
    assert forall|i: int, j: int|
        0 <= i < requests.len() && 0 <= j < requests.len() && #[trigger] outcome_at(
            slot,
            user,
            requests,
            i,
        ) is Ok && #[trigger] outcome_at(slot, user, requests, j) is Ok implies i == j by {
        if i < j {
            lemma_one_grant_per_day(slot, user, requests, day, i, j);
        } else if j < i {
            lemma_one_grant_per_day(slot, user, requests, day, j, i);
        }
    }
}

/// The first request of an identity without a record is granted on every
/// day but day 0: the record is bound to the identity, stands at the day of
/// the request, and its total is the amount granted.
///
/// On day 0 a fresh record already reads as granted today, and the request
/// is turned down.
pub proof fn lemma_first_grant(user: Identity, now: int, amount: nat)
    requires
        valid_timestamp(now),
        amount <= MAX_COUNTER,
    ensures
        day_of(now) != 0 ==> mint_outcome(None, user, now, amount) == Ok::<
            MintRecordModel,
            ErrorCode,
        >(MintRecordModel { user, last_mint_day: day_of(now) as nat, total_minted: amount }),
        day_of(now) == 0 ==> mint_outcome(None, user, now, amount) == Err::<
            MintRecordModel,
            ErrorCode,
        >(ErrorCode::AlreadyClaimedToday),
        mint_outcome(None, user, now, amount) == mint_outcome(
            Some(fresh_record(user)),
            user,
            now,
            amount,
        ),
{
}

/// One request never moves a record back in time, as long as the clock has
/// not run backwards, and never lowers its total: the total grows by the
/// amount asked for where the request is granted, and not at all where it
/// is not.
pub proof fn lemma_request_moves_forward(
    slot: Option<MintRecordModel>,
    user: Identity,
    now: int,
    amount: nat,
)
    requires
        valid_timestamp(now),
    ensures
        last_mint_day(slot) <= day_of(now) ==> last_mint_day(slot) <= last_mint_day(
            slot_after(slot, user, now, amount),
        ),
        mint_outcome(slot, user, now, amount) is Ok ==> total_minted(
            slot_after(slot, user, now, amount),
        ) == total_minted(slot) + amount,
        mint_outcome(slot, user, now, amount) is Err ==> slot_after(slot, user, now, amount)
            == slot,
{
}

} // verus!
