//! The instructions of the ledger. Each one is a single step: it reads the
//! records it is handed and the current time, and either changes a record
//! or turns the request down and leaves every record as it was.

pub mod token_instructions;
pub mod user_profile_instructions;
