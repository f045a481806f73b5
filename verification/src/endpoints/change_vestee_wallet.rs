//! Hands the grant over to another beneficiary. Only the admin of the
//! schedule may do so.

use crate::err::VestingError;
use crate::models::pubkey::Pubkey;
use crate::models::vesting::Vesting;
use vstd::prelude::*;

verus! {

#[derive(Clone, Copy, Debug, PartialEq, Eq)]
pub struct ChangeVesteeWallet {
    /// Who asks for the change. That this is who they say they are has been
    /// established before the treasury is called.
    pub admin: Pubkey,
    pub vesting: Vesting,
    /// The account that is to receive the vested tokens from now on.
    pub vestee_wallet_new: Pubkey,
}

impl ChangeVesteeWallet {
    /// The caller is the admin that the schedule names.
    pub open spec fn authorized(self) -> bool {
        self.admin == self.vesting.admin
    }

    /// The accounts after the change: the schedule pays to the new wallet,
    /// and nothing else is different.
    pub open spec fn reassigned(self) -> ChangeVesteeWallet {
        ChangeVesteeWallet {
            vesting: Vesting { vestee_wallet: self.vestee_wallet_new, ..self.vesting },
            ..self
        }
    }
}

/// Replaces the beneficiary's wallet, or returns `Unauthorized` where the
/// caller is not the admin of the schedule.
pub fn handle(ctx: &mut ChangeVesteeWallet) -> (done: Result<(), VestingError>)
    ensures
        old(ctx).authorized() ==> done is Ok && *final(ctx) == old(ctx).reassigned(),
        !old(ctx).authorized() ==> done == Err::<(), VestingError>(VestingError::Unauthorized)
            && *final(ctx) == *old(ctx),
        old(ctx).vesting.wf() ==> final(ctx).vesting.wf(),
{
    if ctx.admin != ctx.vesting.admin {
        return Err(VestingError::Unauthorized);
    }
    ctx.vesting.vestee_wallet = ctx.vestee_wallet_new;
    Ok(())
}

} // verus!
