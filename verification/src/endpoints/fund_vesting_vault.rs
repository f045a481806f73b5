//! Funds the vesting vault. In order for the vested tokens to be withdrawn
//! from the vesting vault, the vault first needs to be funded with tokens of
//! the vesting mint. The amount of tokens that is still to be deposited in
//! the vault in order to fulfill the promises stated on the vesting schedule
//! is tracked in the `unfunded_liability` of the schedule.
//!
//! The tokens themselves are moved by the custodial token service, which the
//! treasury does not call. A deposit therefore takes three steps:
//! `check_inputs` says whether a transfer may be asked for at all; the caller
//! has the service carry out the transfer that
//! `as_transfer_funds_from_funding_wallet_to_vault_context` describes; and
//! `handle` books the deposit with the service's answer in hand. A transfer
//! that failed is reported as it came, before the totals are looked at. A
//! caller that cannot undo a transfer asks `request_transfer` instead of
//! `check_inputs`: it also says whether the totals can take the deposit.

use crate::err::{TransferError, VestingError};
use crate::models::pubkey::Pubkey;
use crate::models::token_account::TokenAccount;
use crate::models::token_amount::TokenAmount;
use crate::models::vesting::{lemma_funded_wf, Vesting};
use vstd::prelude::*;

verus! {

#[derive(Clone, Copy, Debug, PartialEq, Eq)]
pub struct FundVestingVault {
    /// Who may spend from the funding wallet.
    pub wallet_authority: Pubkey,
    pub vesting: Vesting,
    /// The account that the tokens go to. It must be the vault of the schedule.
    pub vesting_vault: TokenAccount,
    /// The account that the tokens come from. It must hold the vested token.
    pub funding_wallet: TokenAccount,
}

/// The accounts of a transfer: where the tokens come from, where they go,
/// and who signs for them.
#[derive(Clone, Copy, Debug, PartialEq, Eq)]
pub struct Transfer {
    pub from: Pubkey,
    pub to: Pubkey,
    pub authority: Pubkey,
}

/// A transfer for the custodial token service to carry out.
#[derive(Clone, Copy, Debug, PartialEq, Eq)]
pub struct TransferRequest {
    pub accounts: Transfer,
    pub amount: u64,
}

impl FundVestingVault {
    /// Why no transfer may be asked for, if none may: the vault is not the
    /// schedule's, the funding wallet holds another token, or there is
    /// nothing to deposit. The first of these that holds is the reason.
    pub open spec fn input_rejection(self, funding_amount: TokenAmount) -> Option<VestingError> {
        if self.vesting_vault.key != self.vesting.vault {
            Some(VestingError::VaultMismatch)
        } else if self.funding_wallet.mint != self.vesting.mint {
            Some(VestingError::MintMismatch)
        } else if funding_amount.amount == 0 {
            Some(VestingError::ZeroFundingAmount)
        } else {
            None
        }
    }

    /// Why a deposit of `funding_amount` cannot be booked, if it cannot. The
    /// accounts are looked at first, then the amount, then the totals.
    pub open spec fn rejection(self, funding_amount: TokenAmount) -> Option<VestingError> {
        if self.input_rejection(funding_amount) is Some {
            self.input_rejection(funding_amount)
        } else {
            self.vesting.deposit_error(funding_amount.amount as int)
        }
    }

    /// What `handle` returns other than `Ok`: the reason why no transfer may
    /// be asked for; or else the failure of the transfer; or else, the
    /// transfer having gone through, the reason why the totals cannot take
    /// the deposit.
    pub open spec fn failure(
        self,
        funding_amount: TokenAmount,
        transfer: Result<(), TransferError>,
    ) -> Option<VestingError> {
        if self.input_rejection(funding_amount) is Some {
            self.input_rejection(funding_amount)
        } else {
            match transfer {
                Err(e) => Some(VestingError::Transfer(e)),
                Ok(()) => self.vesting.deposit_error(funding_amount.amount as int),
            }
        }
    }

    /// The accounts after a deposit of `funding_amount` was booked.
    pub open spec fn funded(self, funding_amount: TokenAmount) -> FundVestingVault {
        FundVestingVault { vesting: self.vesting.funded(funding_amount.amount as int), ..self }
    }

    /// The accounts of the transfer that funds the vault.
    pub open spec fn transfer_accounts(self) -> Transfer {
        Transfer {
            from: self.funding_wallet.key,
            to: self.vesting_vault.key,
            authority: self.wallet_authority,
        }
    }

    /// Looks at the accounts and at the amount of a deposit.
    pub fn check_inputs(&self, funding_amount: TokenAmount) -> (checked: Result<(), VestingError>)
        ensures
            checked == match self.input_rejection(funding_amount) {
                Some(e) => Err::<(), VestingError>(e),
                None => Ok::<(), VestingError>(()),
            },
    {
        if self.vesting_vault.key != self.vesting.vault {
            return Err(VestingError::VaultMismatch);
        }
        if self.funding_wallet.mint != self.vesting.mint {
            return Err(VestingError::MintMismatch);
        }
        if funding_amount.amount == 0 {
            return Err(VestingError::ZeroFundingAmount);
        }
        Ok(())
    }

    /// The transfer that a deposit of `funding_amount` takes, or the reason
    /// why the deposit cannot be booked. A caller that cannot undo a transfer
    /// must make none for a deposit that is rejected here: its tokens would
    /// move and could not be booked.
    pub fn request_transfer(&self, funding_amount: TokenAmount) -> (request: Result<
        TransferRequest,
        VestingError,
    >)
        ensures
            match request {
                Ok(transfer) => {
                    &&& self.rejection(funding_amount) is None
                    &&& transfer.accounts == self.transfer_accounts()
                    &&& transfer.amount == funding_amount.amount
                },
                Err(e) => self.rejection(funding_amount) == Some(e),
            },
    {
        match self.check_inputs(funding_amount) {
            Ok(()) => {},
            Err(e) => {
                return Err(e);
            },
        }
        match self.vesting.vault_balance.checked_add(funding_amount) {
            Ok(_) => {},
            Err(e) => {
                return Err(e);
            },
        }
        match self.vesting.cumulative_vested_amount.checked_sub(
            self.vesting.cumulative_withdrawn_amount,
        ) {
            Ok(_) => {},
            Err(e) => {
                return Err(e);
            },
        }
        Ok(
            TransferRequest {
                accounts: self.as_transfer_funds_from_funding_wallet_to_vault_context(),
                amount: funding_amount.amount,
            },
        )
    }

    /// The transfer that funds the vault: out of the funding wallet, into the
    /// vesting vault, signed for by the wallet's authority.
    pub fn as_transfer_funds_from_funding_wallet_to_vault_context(&self) -> (cpi_accounts: Transfer)
        ensures
            cpi_accounts == self.transfer_accounts(),
    {
        Transfer {
            from: self.funding_wallet.key,
            to: self.vesting_vault.key,
            authority: self.wallet_authority,
        }
    }
}

/// Books a deposit of `funding_amount` tokens into the vault, given the
/// answer of the token service to the transfer.
///
/// The accounts and the amount are looked at first: a vault that is not the
/// schedule's, a funding wallet of another mint and an amount of zero are
/// rejected whatever the service answered. Then a failed transfer is handed
/// on as it came. Only a transfer that went through touches the totals: the
/// amount is added to the vault balance and the unfunded liability is brought
/// up to date, or `MathOverflow` is returned where the totals cannot take the
/// deposit. On any error nothing has changed.
pub fn handle(
    accs: &mut FundVestingVault,
    funding_amount: TokenAmount,
    transfer: Result<(), TransferError>,
) -> (done: Result<(), VestingError>)
    ensures
        match done {
            Ok(()) => {
                &&& old(accs).failure(funding_amount, transfer) is None
                &&& *final(accs) == old(accs).funded(funding_amount)
                &&& final(accs).vesting.vault_balance.amount == old(
                    accs,
                ).vesting.vault_balance.amount + funding_amount.amount
                &&& final(accs).vesting.is_reconciled()
            },
            Err(e) => old(accs).failure(funding_amount, transfer) == Some(e) && *final(accs)
                == *old(accs),
        },
        funding_amount.amount == 0 || old(accs).funding_wallet.mint != old(accs).vesting.mint
            ==> done is Err && *final(accs) == *old(accs),
        old(accs).input_rejection(funding_amount) is None ==> match transfer {
            Err(e) => done == Err::<(), VestingError>(VestingError::Transfer(e)) && *final(accs)
                == *old(accs),
            Ok(()) => true,
        },
        old(accs).vesting.wf() ==> final(accs).vesting.wf(),
{
    match accs.check_inputs(funding_amount) {
        Ok(()) => {},
        Err(e) => {
            return Err(e);
        },
    }
    match transfer {
        Ok(()) => {},
        Err(e) => {
            return Err(VestingError::Transfer(e));
        },
    }
    let mut vesting = accs.vesting;
    vesting.vault_balance =
    match vesting.vault_balance.checked_add(funding_amount) {
        Ok(balance) => balance,
        Err(e) => {
            return Err(e);
        },
    };
    proof {
        if accs.vesting.wf() {
            lemma_funded_wf(accs.vesting, funding_amount.amount as int);
        }
    }
    // Since more tokens are being added to the vault we need to update how
    // much of the vested tokens is currently unfunded, if any
    match vesting.update_unfunded_liability() {
        Ok(()) => {},
        Err(e) => {
            return Err(e);
        },
    }
    accs.vesting = vesting;
    Ok(())
}

} // verus!
