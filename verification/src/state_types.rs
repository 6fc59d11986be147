use vstd::prelude::*;
use vstd::utf8::encode_utf8;
use crate::identity::Identity;

verus! {

/// Most units that the name of a profile or of a token may take.
pub const MAX_NAME_LEN: usize = 50;

/// Most units that the symbol of a token may take.
pub const MAX_SYMBOL_LEN: usize = 10;

/// Most units that the description of a token may take.
pub const MAX_DESCRIPTION_LEN: usize = 200;

/// Length of a text in units: the bytes of its UTF-8 encoding, which is what
/// a stored record spends on it.
pub open spec fn text_len(text: Seq<char>) -> nat {
    encode_utf8(text).len()
}

/// Tests whether `text` takes at most `limit` units.
pub fn text_fits(text: &str, limit: usize) -> (fits: bool)
    ensures
        fits == (text_len(text@) <= limit),
{
    text.as_bytes().len() <= limit
}

/// The profile of one identity.
#[derive(Clone, Debug, PartialEq, Eq)]
pub struct UserProfile {
    /// The identity that the profile belongs to. Set once, at creation.
    pub owner: Identity,
    /// Display name.
    pub name: String,
    pub age: u8,
    /// Changed only by checked addition.
    pub balance: u64,
    /// Second at which the profile was created.
    pub created_at: i64,
    /// Second of the latest change.
    pub updated_at: i64,
}

/// What a [`UserProfile`] stands for.
pub struct ProfileModel {
    pub owner: Identity,
    pub name: Seq<char>,
    pub age: nat,
    pub balance: nat,
    pub created_at: int,
    pub updated_at: int,
}

impl ProfileModel {
    /// The name is within its bound and the profile was not changed before it
    /// was created.
    pub open spec fn wf(self) -> bool {
        &&& text_len(self.name) <= MAX_NAME_LEN
        &&& self.created_at <= self.updated_at
    }
}

impl View for UserProfile {
    type V = ProfileModel;

    open spec fn view(&self) -> ProfileModel {
        ProfileModel {
            owner: self.owner,
            name: self.name@,
            age: self.age as nat,
            balance: self.balance as nat,
            created_at: self.created_at as int,
            updated_at: self.updated_at as int,
        }
    }
}

impl UserProfile {
    /// Well-formedness of a stored profile.
    pub open spec fn wf(&self) -> bool {
        self@.wf()
    }

    /// Tests well-formedness.
    pub fn is_well_formed(&self) -> (ok: bool)
        ensures
            ok == self.wf(),
    {
        text_fits(self.name.as_str(), MAX_NAME_LEN) && self.created_at <= self.updated_at
    }
}

/// The descriptor of one token.
#[derive(Clone, Debug, PartialEq, Eq)]
pub struct TokenMetadata {
    /// The token that is described. Set once, at creation.
    pub mint: Identity,
    pub name: String,
    pub symbol: String,
    pub description: String,
    /// Sum of the grants that were recorded. It mirrors the supply and does
    /// not decide it.
    pub total_supply: u64,
}

/// What a [`TokenMetadata`] stands for.
pub struct MetadataModel {
    pub mint: Identity,
    pub name: Seq<char>,
    pub symbol: Seq<char>,
    pub description: Seq<char>,
    pub total_supply: nat,
}

impl MetadataModel {
    /// Each text is within its bound.
    pub open spec fn wf(self) -> bool {
        &&& text_len(self.name) <= MAX_NAME_LEN
        &&& text_len(self.symbol) <= MAX_SYMBOL_LEN
        &&& text_len(self.description) <= MAX_DESCRIPTION_LEN
    }
}

impl View for TokenMetadata {
    type V = MetadataModel;

    open spec fn view(&self) -> MetadataModel {
        MetadataModel {
            mint: self.mint,
            name: self.name@,
            symbol: self.symbol@,
            description: self.description@,
            total_supply: self.total_supply as nat,
        }
    }
}

impl TokenMetadata {
    /// Well-formedness of a stored descriptor.
    pub open spec fn wf(&self) -> bool {
        self@.wf()
    }

    /// Tests well-formedness.
    pub fn is_well_formed(&self) -> (ok: bool)
        ensures
            ok == self.wf(),
    {
        text_fits(self.name.as_str(), MAX_NAME_LEN) && text_fits(
            self.symbol.as_str(),
            MAX_SYMBOL_LEN,
        ) && text_fits(self.description.as_str(), MAX_DESCRIPTION_LEN)
    }
}

/// What the ledger remembers of the grants to one identity.
#[derive(Clone, Copy, Debug, PartialEq, Eq)]
pub struct DailyMintRecord {
    /// The identity that the record belongs to. Bound at the first request.
    pub user: Identity,
    /// Day of the latest grant, counted from the epoch; 0 before the first.
    pub last_mint_day: u32,
    /// Sum of all grants so far.
    pub total_minted: u64,
}

/// What a [`DailyMintRecord`] stands for.
pub struct MintRecordModel {
    pub user: Identity,
    pub last_mint_day: nat,
    pub total_minted: nat,
}

impl View for DailyMintRecord {
    type V = MintRecordModel;

    open spec fn view(&self) -> MintRecordModel {
        MintRecordModel {
            user: self.user,
            last_mint_day: self.last_mint_day as nat,
            total_minted: self.total_minted as nat,
        }
    }
}

/// The record of an identity that has not asked for a grant yet.
pub open spec fn fresh_record(user: Identity) -> MintRecordModel {
    MintRecordModel { user, last_mint_day: 0, total_minted: 0 }
}

/// What a record slot of the store stands for: the model of its record, or
/// nothing where the identity has none.
pub open spec fn slot_model(slot: Option<DailyMintRecord>) -> Option<MintRecordModel> {
    match slot {
        Some(record) => Some(record@),
        None => None,
    }
}

/// An order to the token program: hand `amount` tokens to `to`.
#[derive(Clone, Copy, Debug, PartialEq, Eq)]
pub struct MintAction {
    pub to: Identity,
    pub amount: u64,
}

} // verus!
