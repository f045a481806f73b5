//! A vesting treasury: the ledger of token grants that vest over time.
//!
//! A grant promises a beneficiary a number of tokens, released period by
//! period once a cliff has passed. The treasury records how much has vested,
//! how much was paid out and how much sits in the grant's vault, and from
//! these how much is still owed to the vault. It moves no tokens itself: the
//! custodial token service does, and the treasury books what it is told.

pub mod calendar;
pub mod endpoints;
pub mod err;
pub mod models;

use crate::endpoints::change_vestee_wallet::ChangeVesteeWallet;
use crate::endpoints::create_vesting_schedule::CreateVestingSchedule;
use crate::err::VestingError;
use crate::models::period_type::PeriodType;
use crate::models::time_stamp::TimeStamp;
use crate::models::token_amount::TokenAmount;
use crate::models::vesting::{creation_error, Vesting};
use vstd::prelude::*;

verus! {

/// Creates the vesting schedule of a grant; see
/// [`endpoints::create_vesting_schedule::handle`].
pub fn create_vesting_schedule(
    ctx: &CreateVestingSchedule,
    vesting_amount: TokenAmount,
    start_ts: TimeStamp,
    cliff_periods: u64,
    total_periods: u64,
    period_type: u32,
) -> (created: Result<Vesting, VestingError>)
    ensures
        match created {
            Ok(vesting) => {
                &&& creation_error(vesting_amount, cliff_periods, total_periods, period_type)
                    is None
                &&& PeriodType::spec_from_u32(period_type) is Some
                &&& vesting == Vesting::created(
                    ctx.admin,
                    ctx.vestee_wallet,
                    ctx.mint,
                    ctx.vesting_vault,
                    vesting_amount,
                    start_ts,
                    cliff_periods,
                    total_periods,
                    PeriodType::spec_from_u32(period_type)->0,
                )
                &&& vesting.wf()
            },
            Err(e) => creation_error(vesting_amount, cliff_periods, total_periods, period_type)
                == Some(e),
        },
{
    endpoints::create_vesting_schedule::handle(
        ctx,
        vesting_amount,
        start_ts,
        cliff_periods,
        total_periods,
        period_type,
    )
}

/// Hands a grant over to another beneficiary; see
/// [`endpoints::change_vestee_wallet::handle`].
pub fn change_vestee_wallet(ctx: &mut ChangeVesteeWallet) -> (done: Result<(), VestingError>)
    ensures
        old(ctx).authorized() ==> done is Ok && *final(ctx) == old(ctx).reassigned(),
        !old(ctx).authorized() ==> done == Err::<(), VestingError>(VestingError::Unauthorized)
            && *final(ctx) == *old(ctx),
        old(ctx).vesting.wf() ==> final(ctx).vesting.wf(),
{
    endpoints::change_vestee_wallet::handle(ctx)
}

} // verus!
