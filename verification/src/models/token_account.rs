use crate::models::pubkey::Pubkey;
use vstd::prelude::*;

verus! {

/// What the treasury reads of a custodial token account: where it is and
/// which token it holds.
#[derive(Clone, Copy, Debug, PartialEq, Eq)]
pub struct TokenAccount {
    /// The account's own address.
    pub key: Pubkey,
    /// The token held in it.
    pub mint: Pubkey,
}

} // verus!
