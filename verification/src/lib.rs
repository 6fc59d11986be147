//! Ledger rules of a small token program: per-identity profiles, a token
//! descriptor, and a grant that each identity may claim once per day.

pub mod accounting;
pub mod clock;
pub mod daily_limit;
pub mod error_types;
pub mod identity;
pub mod instruction_handlers;
pub mod state_types;

pub use error_types::ErrorCode;
pub use identity::Identity;
pub use state_types::{DailyMintRecord, MintAction, TokenMetadata, UserProfile};
