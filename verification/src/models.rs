//! The records of the treasury and the values they are made of.

pub mod period_type;
pub mod pubkey;
pub mod time_stamp;
pub mod token_account;
pub mod token_amount;
pub mod vesting;
