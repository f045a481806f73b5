//! Calculates and updates the amount of tokens vested in the vesting schedule.
//! The current time is compared against the vesting dates to find how many
//! periods have passed, and from those the pro-rata amount of tokens that
//! have vested.

use crate::err::VestingError;
use crate::models::time_stamp::TimeStamp;
use crate::models::vesting::{lemma_recomputed_wf, lemma_scheduled_amount_ordered, Vesting};
use vstd::prelude::*;

verus! {

#[derive(Clone, Copy, Debug, PartialEq, Eq)]
pub struct UpdateVestedTokens {
    pub vesting: Vesting,
}

/// Brings the schedule up to `clock_ts`, the current time as read from a
/// clock that the caller trusts.
///
/// Only schedules with daily or monthly periods are supported. On success
/// the vested total is the larger of what it was and what the schedule gives
/// at `clock_ts`, and the unfunded liability follows from it. On failure
/// nothing has changed. A well-formed schedule of a supported period type
/// never fails.
pub fn handle(ctx: &mut UpdateVestedTokens, clock_ts: TimeStamp) -> (done: Result<
    (),
    VestingError,
>)
    ensures
        match done {
            Ok(()) => {
                &&& old(ctx).vesting.recompute_error(clock_ts.time as int) is None
                &&& final(ctx).vesting == old(ctx).vesting.recomputed(clock_ts.time as int)
                &&& final(ctx).vesting.is_reconciled()
                &&& final(ctx).vesting.cumulative_vested_amount.amount >= old(
                    ctx,
                ).vesting.cumulative_vested_amount.amount
            },
            Err(e) => old(ctx).vesting.recompute_error(clock_ts.time as int) == Some(e)
                && *final(ctx) == *old(ctx),
        },
        old(ctx).vesting.wf() ==> final(ctx).vesting.wf(),
        old(ctx).vesting.wf() && old(ctx).vesting.period_type.spec_is_supported() ==> done is Ok,
{
    if !ctx.vesting.period_type.is_supported() {
        return Err(VestingError::UnsupportedPeriodType);
    }
    proof {
        if ctx.vesting.total_periods > 0 {
            lemma_scheduled_amount_ordered(ctx.vesting, clock_ts.time as int, clock_ts.time as int);
        }
        if ctx.vesting.wf() {
            lemma_recomputed_wf(ctx.vesting, clock_ts.time as int);
        }
    }
    let mut vesting = ctx.vesting;
    match vesting.update_vested_tokens(clock_ts.time) {
        Ok(()) => {},
        Err(e) => {
            return Err(e);
        },
    }
    // Since more tokens may be vested we need to update how much of
    // those vested tokens is currently unfunded
    match vesting.update_unfunded_liability() {
        Ok(()) => {},
        Err(e) => {
            return Err(e);
        },
    }
    ctx.vesting = vesting;
    Ok(())
}

} // verus!
