use crate::err::VestingError;
use std::cmp::Ordering;
use vstd::prelude::*;

verus! {

/// A number of tokens, in the smallest unit of the mint.
#[derive(Clone, Copy, Debug, PartialEq, Eq, Structural, Hash)]
pub struct TokenAmount {
    pub amount: u64,
}

impl TokenAmount {
    pub fn new(amount: u64) -> (tokens: TokenAmount)
        ensures
            tokens.amount == amount,
    {
        TokenAmount { amount }
    }

    /// The sum, or `MathOverflow` where it does not fit.
    pub fn checked_add(self, other: TokenAmount) -> (sum: Result<TokenAmount, VestingError>)
        ensures
            self.amount + other.amount <= u64::MAX ==> sum == Ok::<TokenAmount, VestingError>(
                TokenAmount { amount: (self.amount + other.amount) as u64 },
            ),
            self.amount + other.amount > u64::MAX ==> sum == Err::<TokenAmount, VestingError>(
                VestingError::MathOverflow,
            ),
    {
        match self.amount.checked_add(other.amount) {
            Some(amount) => Ok(TokenAmount { amount }),
            None => Err(VestingError::MathOverflow),
        }
    }

    /// The difference, or `MathOverflow` where more is taken than there is.
    pub fn checked_sub(self, other: TokenAmount) -> (difference: Result<TokenAmount, VestingError>)
        ensures
            other.amount <= self.amount ==> difference == Ok::<TokenAmount, VestingError>(
                TokenAmount { amount: (self.amount - other.amount) as u64 },
            ),
            other.amount > self.amount ==> difference == Err::<TokenAmount, VestingError>(
                VestingError::MathOverflow,
            ),
    {
        match self.amount.checked_sub(other.amount) {
            Some(amount) => Ok(TokenAmount { amount }),
            None => Err(VestingError::MathOverflow),
        }
    }
}

impl PartialOrd for TokenAmount {
    fn partial_cmp(&self, other: &Self) -> (order: Option<Ordering>) {
        if self.amount < other.amount {
            Some(Ordering::Less)
        } else if self.amount == other.amount {
            Some(Ordering::Equal)
        } else {
            Some(Ordering::Greater)
        }
    }
}

impl vstd::std_specs::cmp::PartialOrdSpecImpl for TokenAmount {
    open spec fn obeys_partial_cmp_spec() -> bool {
        true
    }

    /// Amounts are ordered as their numbers are.
    open spec fn partial_cmp_spec(&self, other: &Self) -> Option<Ordering> {
        if self.amount < other.amount {
            Some(Ordering::Less)
        } else if self.amount == other.amount {
            Some(Ordering::Equal)
        } else {
            Some(Ordering::Greater)
        }
    }
}

} // verus!
