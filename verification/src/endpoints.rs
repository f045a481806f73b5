//! The operations of the treasury, one module each. Every operation takes
//! the accounts it works on as plain values and either carries out all of its
//! effect or returns an error and leaves the accounts as they were.

pub mod change_vestee_wallet;
pub mod create_vesting_schedule;
pub mod fund_vesting_vault;
pub mod update_vested_tokens;
