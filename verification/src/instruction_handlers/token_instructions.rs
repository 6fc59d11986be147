use vstd::prelude::*;
use crate::accounting::{checked_add, sum_fits};
use crate::clock::{day_number, day_of, valid_timestamp};
use crate::error_types::ErrorCode;
use crate::identity::Identity;
use crate::state_types::{
    fresh_record,
    slot_model,
    text_len,
    DailyMintRecord,
    MetadataModel,
    MintAction,
    MintRecordModel,
    TokenMetadata,
    MAX_DESCRIPTION_LEN,
    MAX_NAME_LEN,
    MAX_SYMBOL_LEN,
};

verus! {

/// What one identity is granted per day.
pub const DAILY_MINT_AMOUNT: u64 = 100;

/// The descriptor that creation gives the token `mint`: nothing supplied yet.
pub open spec fn new_metadata(
    mint: Identity,
    name: Seq<char>,
    symbol: Seq<char>,
    description: Seq<char>,
) -> MetadataModel {
    MetadataModel { mint, name, symbol, description, total_supply: 0 }
}

/// Outcome of recording that `amount` more tokens were supplied.
pub open spec fn supply_outcome(metadata: MetadataModel, amount: nat) -> Result<
    MetadataModel,
    ErrorCode,
> {
    if !sum_fits(metadata.total_supply, amount) {
        Err(ErrorCode::Overflow)
    } else {
        Ok(MetadataModel { total_supply: metadata.total_supply + amount, ..metadata })
    }
}

/// Outcome of `user` asking at second `now` for a grant of `amount`, where
/// `slot` is what the store holds for that identity.
///
/// An identity without a record is treated as one whose record is fresh. A
/// record whose day of the latest grant is the day of `now` is exhausted and
/// the request is turned down. Any other record is eligible: it moves to the
/// day of `now` and its total grows by `amount`, if that total fits.
pub open spec fn mint_outcome(
    slot: Option<MintRecordModel>,
    user: Identity,
    now: int,
    amount: nat,
) -> Result<MintRecordModel, ErrorCode> {
    let record = match slot {
        Some(record) => record,
        None => fresh_record(user),
    };
    if record.last_mint_day == day_of(now) {
        Err(ErrorCode::AlreadyClaimedToday)
    } else if !sum_fits(record.total_minted, amount) {
        Err(ErrorCode::Overflow)
    } else {
        Ok(
            MintRecordModel {
                last_mint_day: day_of(now) as nat,
                total_minted: record.total_minted + amount,
                ..record
            },
        )
    }
}

/// What the store holds for `user` after the request: the updated record
/// where the grant was made, and what it held before where it was not.
pub open spec fn slot_after(
    slot: Option<MintRecordModel>,
    user: Identity,
    now: int,
    amount: nat,
) -> Option<MintRecordModel> {
    match mint_outcome(slot, user, now, amount) {
        Ok(record) => Some(record),
        Err(_) => slot,
    }
}

/// Creates the descriptor of the token `mint`, on behalf of `authority`.
///
/// The descriptor does not record the authority. It is well-formed exactly
/// when each text is within its bound.
pub fn create_token_metadata(
    mint: Identity,
    name: String,
    symbol: String,
    description: String,
    authority: Identity,
) -> (metadata: TokenMetadata)
    ensures
        metadata@ == new_metadata(mint, name@, symbol@, description@),
        metadata.wf() <==> text_len(name@) <= MAX_NAME_LEN && text_len(symbol@) <= MAX_SYMBOL_LEN
            && text_len(description@) <= MAX_DESCRIPTION_LEN,
{
    TokenMetadata { mint, name, symbol, description, total_supply: 0 }
}

/// Records that `amount` more tokens were supplied.
///
/// The supply never goes down, and where the sum does not fit the
/// descriptor stays as it was.
pub fn record_supply_increase(metadata: &mut TokenMetadata, amount: u64) -> (outcome: Result<
    (),
    ErrorCode,
>)
    ensures
        match supply_outcome(old(metadata)@, amount as nat) {
            Ok(model) => outcome is Ok && final(metadata)@ == model,
            Err(e) => outcome == Err::<(), ErrorCode>(e) && *final(metadata) == *old(metadata),
        },
        final(metadata).mint == old(metadata).mint,
        final(metadata).name == old(metadata).name,
        final(metadata).symbol == old(metadata).symbol,
        final(metadata).description == old(metadata).description,
        final(metadata).total_supply >= old(metadata).total_supply,
        old(metadata).wf() ==> final(metadata).wf(),
{
    let total_supply = checked_add(metadata.total_supply, amount)?;
    metadata.total_supply = total_supply;
    Ok(())
}

/// Decides a request of `user` for the daily grant of `amount` tokens.
///
/// `slot` is what the store holds for `user`: its mint record, or nothing
/// before the first request. Where the request is granted, the slot holds
/// the updated record and the result is the order to hand out the tokens;
/// the caller has to carry out both or neither. Where it is turned down, the
/// slot is left exactly as it was and no order is given, so that a request
/// repeated within the day is never granted twice.
pub fn mint_daily_tokens(
    slot: &mut Option<DailyMintRecord>,
    user: Identity,
    now: i64,
    amount: u64,
) -> (outcome: Result<MintAction, ErrorCode>)
    requires
        valid_timestamp(now as int),
    ensures
        match mint_outcome(slot_model(*old(slot)), user, now as int, amount as nat) {
            Ok(model) => {
                &&& outcome == Ok::<MintAction, ErrorCode>(MintAction { to: user, amount })
                &&& slot_model(*final(slot)) == Some(model)
            },
            Err(e) => outcome == Err::<MintAction, ErrorCode>(e) && *final(slot) == *old(slot),
        },
        slot_model(*final(slot)) == slot_after(
            slot_model(*old(slot)),
            user,
            now as int,
            amount as nat,
        ),
        *old(slot) is None && day_of(now as int) != 0 ==> outcome is Ok && *final(slot) == Some(
            DailyMintRecord { user, last_mint_day: day_of(now as int) as u32, total_minted: amount },
        ),
        *old(slot) matches Some(record) && record.last_mint_day == day_of(now as int) ==> outcome
            == Err::<MintAction, ErrorCode>(ErrorCode::AlreadyClaimedToday),
{
    let record = match slot {
        Some(record) => *record,
        None => DailyMintRecord { user, last_mint_day: 0, total_minted: 0 },
    };
    let today = day_number(now);
    if record.last_mint_day == today {
        return Err(ErrorCode::AlreadyClaimedToday);
    }
    let total_minted = checked_add(record.total_minted, amount)?;
    *slot = Some(DailyMintRecord { user: record.user, last_mint_day: today, total_minted });
    Ok(MintAction { to: user, amount })
}

} // verus!
