//! Sets up the vesting schedule of a grant. The new record has the terms
//! that were asked for and all its totals at zero.

use crate::err::VestingError;
use crate::models::pubkey::Pubkey;
use crate::models::time_stamp::TimeStamp;
use crate::models::token_amount::TokenAmount;
use crate::models::vesting::{creation_error, Vesting};
use crate::models::period_type::PeriodType;
use vstd::prelude::*;

verus! {

/// The accounts that a new schedule is tied to.
#[derive(Clone, Copy, Debug, PartialEq, Eq)]
pub struct CreateVestingSchedule {
    /// Who sets the schedule up and may later reassign the beneficiary.
    pub admin: Pubkey,
    /// The custodial account that will hold the deposited tokens.
    pub vesting_vault: Pubkey,
    /// The token that is vested.
    pub mint: Pubkey,
    /// The account that receives the vested tokens.
    pub vestee_wallet: Pubkey,
}

/// Creates the record of a grant of `vesting_amount` tokens that vest over
/// `total_periods` periods from `start_ts`, none of them before
/// `cliff_periods` periods have passed.
///
/// `period_type` is the number of a period type. A schedule may be created
/// with any period type, also one for which vesting is not computed yet.
pub fn handle(
    ctx: &CreateVestingSchedule,
    vesting_amount: TokenAmount,
    start_ts: TimeStamp,
    cliff_periods: u64,
    total_periods: u64,
    period_type: u32,
) -> (created: Result<Vesting, VestingError>)
    ensures
        match created {
            Ok(vesting) => {
                &&& creation_error(vesting_amount, cliff_periods, total_periods, period_type)
                    is None
                &&& PeriodType::spec_from_u32(period_type) is Some
                &&& vesting == Vesting::created(
                    ctx.admin,
                    ctx.vestee_wallet,
                    ctx.mint,
                    ctx.vesting_vault,
                    vesting_amount,
                    start_ts,
                    cliff_periods,
                    total_periods,
                    PeriodType::spec_from_u32(period_type)->0,
                )
                &&& vesting.wf()
            },
            Err(e) => creation_error(vesting_amount, cliff_periods, total_periods, period_type)
                == Some(e),
        },
{
    Vesting::new(
        ctx.admin,
        ctx.vestee_wallet,
        ctx.mint,
        ctx.vesting_vault,
        vesting_amount,
        start_ts,
        cliff_periods,
        total_periods,
        period_type,
    )
}

} // verus!
