//! The vesting schedule: what it promises, how much of it has vested by a
//! given time, and how much of that is still missing from the vault.

use crate::calendar::{
    lemma_no_months_at_start,
    lemma_whole_months_ordered,
    months_between,
    whole_months_between,
    SECONDS_PER_DAY,
};
use crate::err::VestingError;
use crate::models::period_type::PeriodType;
use crate::models::pubkey::Pubkey;
use crate::models::time_stamp::TimeStamp;
use crate::models::token_amount::TokenAmount;
use vstd::prelude::*;

verus! {

/// One grant: the schedule as it was agreed, and the running totals.
///
/// The schedule itself (amount, start, periods, cliff, period type, mint and
/// vault) never changes once the grant exists. The totals move with the
/// operations of the treasury; `wf` says how they hang together.
#[derive(Clone, Copy, Debug, PartialEq, Eq)]
pub struct Vesting {
    /// Who may reassign the beneficiary.
    pub admin: Pubkey,
    /// The account that receives the vested tokens.
    pub vestee_wallet: Pubkey,
    /// The token that is vested.
    pub mint: Pubkey,
    /// The custodial account that holds the deposited tokens.
    pub vault: Pubkey,
    /// All tokens promised over the schedule.
    pub total_vesting_amount: TokenAmount,
    /// Tokens vested as of the last update.
    pub cumulative_vested_amount: TokenAmount,
    /// Tokens already paid out to the beneficiary.
    pub cumulative_withdrawn_amount: TokenAmount,
    /// Tokens deposited in the vault and not yet paid out.
    pub vault_balance: TokenAmount,
    /// Vested tokens that are neither paid out nor covered by the vault.
    pub unfunded_liability: TokenAmount,
    /// When the first period begins.
    pub start_ts: TimeStamp,
    /// Periods after which everything has vested.
    pub total_periods: u64,
    /// Periods that must pass before anything vests.
    pub cliff_periods: u64,
    /// How long one period is.
    pub period_type: PeriodType,
}

/// Periods completed from `start` to `now`, both in seconds since the epoch.
///
/// A daily period is 86 400 seconds. A monthly period runs from one day of
/// the calendar to the same day of the next month (see
/// [`whole_months_between`]), so its length follows the calendar. Other
/// period types are not computed and count as no period.
pub open spec fn elapsed_periods(period_type: PeriodType, start: int, now: int) -> int {
    match period_type {
        PeriodType::Daily => (now - start) / (SECONDS_PER_DAY as int),
        PeriodType::Monthly => whole_months_between(start, now),
        _ => 0,
    }
}

/// The share of `total` that has vested after `elapsed` periods: nothing
/// before the cliff, then in proportion to the periods completed, rounded
/// down, and all of it from the last period on.
pub open spec fn pro_rata(total: int, elapsed: int, cliff: int, total_periods: int) -> int {
    if elapsed < cliff {
        0
    } else {
        let vested_periods = if elapsed < total_periods {
            elapsed
        } else {
            total_periods
        };
        total * vested_periods / total_periods
    }
}

/// What is owed and not covered: vested, less withdrawn, less what is in the
/// vault; never negative.
pub open spec fn liability(vested: int, withdrawn: int, balance: int) -> int {
    if vested - withdrawn - balance > 0 {
        vested - withdrawn - balance
    } else {
        0
    }
}

/// Why a schedule with these terms cannot be created, if it cannot.
pub open spec fn creation_error(
    vesting_amount: TokenAmount,
    cliff_periods: u64,
    total_periods: u64,
    period_type: u32,
) -> Option<VestingError> {
    if vesting_amount.amount == 0 {
        Some(VestingError::ZeroVestingAmount)
    } else if total_periods == 0 {
        Some(VestingError::ZeroTotalPeriods)
    } else if cliff_periods > total_periods {
        Some(VestingError::CliffExceedsTotalPeriods)
    } else if PeriodType::spec_from_u32(period_type) is None {
        Some(VestingError::UnknownPeriodType)
    } else {
        None
    }
}

impl Vesting {
    /// The unfunded liability is what the three totals say it is.
    pub open spec fn is_reconciled(self) -> bool {
        self.unfunded_liability.amount == liability(
            self.cumulative_vested_amount.amount as int,
            self.cumulative_withdrawn_amount.amount as int,
            self.vault_balance.amount as int,
        )
    }

    /// A schedule that makes sense, with totals that agree with each other.
    pub open spec fn wf(self) -> bool {
        &&& self.total_vesting_amount.amount > 0
        &&& self.total_periods > 0
        &&& self.cliff_periods <= self.total_periods
        &&& self.cumulative_vested_amount.amount <= self.total_vesting_amount.amount
        &&& self.cumulative_withdrawn_amount.amount <= self.cumulative_vested_amount.amount
        &&& self.is_reconciled()
    }

    /// The schedule as it stands on the day of the grant: nothing vested,
    /// withdrawn, deposited or owed.
    pub open spec fn created(
        admin: Pubkey,
        vestee_wallet: Pubkey,
        mint: Pubkey,
        vault: Pubkey,
        vesting_amount: TokenAmount,
        start_ts: TimeStamp,
        cliff_periods: u64,
        total_periods: u64,
        period_type: PeriodType,
    ) -> Vesting {
        Vesting {
            admin,
            vestee_wallet,
            mint,
            vault,
            total_vesting_amount: vesting_amount,
            cumulative_vested_amount: TokenAmount { amount: 0 },
            cumulative_withdrawn_amount: TokenAmount { amount: 0 },
            vault_balance: TokenAmount { amount: 0 },
            unfunded_liability: TokenAmount { amount: 0 },
            start_ts,
            total_periods,
            cliff_periods,
            period_type,
        }
    }

    /// The amount that the schedule says has vested by `now`.
    pub open spec fn scheduled_amount(self, now: int) -> int {
        if now < self.start_ts.time {
            0
        } else {
            pro_rata(
                self.total_vesting_amount.amount as int,
                elapsed_periods(self.period_type, self.start_ts.time as int, now),
                self.cliff_periods as int,
                self.total_periods as int,
            )
        }
    }

    /// Why the vested amount cannot be computed, if it cannot.
    pub open spec fn calculation_error(self) -> Option<VestingError> {
        if !self.period_type.spec_is_supported() {
            Some(VestingError::UnsupportedPeriodType)
        } else if self.total_periods == 0 {
            Some(VestingError::MathOverflow)
        } else {
            None
        }
    }

    /// The record with the vested total brought up to `now`. The total keeps
    /// its value where the schedule gives less.
    pub open spec fn with_vested(self, now: int) -> Vesting {
        if self.scheduled_amount(now) > self.cumulative_vested_amount.amount {
            Vesting {
                cumulative_vested_amount: TokenAmount {
                    amount: self.scheduled_amount(now) as u64,
                },
                ..self
            }
        } else {
            self
        }
    }

    /// Why the unfunded liability cannot be computed, if it cannot: more
    /// withdrawn than ever vested.
    pub open spec fn reconcile_error(self) -> Option<VestingError> {
        if self.cumulative_withdrawn_amount.amount > self.cumulative_vested_amount.amount {
            Some(VestingError::MathOverflow)
        } else {
            None
        }
    }

    /// The record with its unfunded liability computed anew.
    pub open spec fn reconciled(self) -> Vesting {
        Vesting {
            unfunded_liability: TokenAmount {
                amount: liability(
                    self.cumulative_vested_amount.amount as int,
                    self.cumulative_withdrawn_amount.amount as int,
                    self.vault_balance.amount as int,
                ) as u64,
            },
            ..self
        }
    }

    /// Why the record cannot be brought up to `now`, if it cannot.
    pub open spec fn recompute_error(self, now: int) -> Option<VestingError> {
        if self.calculation_error() is Some {
            self.calculation_error()
        } else {
            self.with_vested(now).reconcile_error()
        }
    }

    /// The record after its vested total and its unfunded liability were
    /// brought up to `now`.
    pub open spec fn recomputed(self, now: int) -> Vesting {
        self.with_vested(now).reconciled()
    }

    /// Why `amount` tokens cannot be booked into the vault, if they cannot.
    pub open spec fn deposit_error(self, amount: int) -> Option<VestingError> {
        if self.vault_balance.amount + amount > u64::MAX {
            Some(VestingError::MathOverflow)
        } else {
            self.reconcile_error()
        }
    }

    /// The record after `amount` tokens arrived in the vault.
    pub open spec fn funded(self, amount: int) -> Vesting {
        Vesting {
            vault_balance: TokenAmount { amount: (self.vault_balance.amount + amount) as u64 },
            ..self
        }.reconciled()
    }

    /// Sets up a schedule with nothing vested yet.
    ///
    /// The amount and the number of periods must not be zero, the cliff must
    /// not be longer than the schedule, and `period_type` must be the number
    /// of a period type; the first of these that fails is the error.
    pub fn new(
        admin: Pubkey,
        vestee_wallet: Pubkey,
        mint: Pubkey,
        vault: Pubkey,
        vesting_amount: TokenAmount,
        start_ts: TimeStamp,
        cliff_periods: u64,
        total_periods: u64,
        period_type: u32,
    ) -> (vesting: Result<Vesting, VestingError>)
        ensures
            match vesting {
                Ok(v) => {
                    &&& creation_error(vesting_amount, cliff_periods, total_periods, period_type)
                        is None
                    &&& PeriodType::spec_from_u32(period_type) is Some
                    &&& v == Vesting::created(
                        admin,
                        vestee_wallet,
                        mint,
                        vault,
                        vesting_amount,
                        start_ts,
                        cliff_periods,
                        total_periods,
                        PeriodType::spec_from_u32(period_type)->0,
                    )
                    &&& v.wf()
                },
                Err(e) => creation_error(vesting_amount, cliff_periods, total_periods, period_type)
                    == Some(e),
            },
    {
        if vesting_amount.amount == 0 {
            return Err(VestingError::ZeroVestingAmount);
        }
        if total_periods == 0 {
            return Err(VestingError::ZeroTotalPeriods);
        }
        if cliff_periods > total_periods {
            return Err(VestingError::CliffExceedsTotalPeriods);
        }
        let period_type = match PeriodType::from_u32(period_type) {
            Ok(known) => known,
            Err(e) => {
                return Err(e);
            },
        };
        Ok(
            Vesting {
                admin,
                vestee_wallet,
                mint,
                vault,
                total_vesting_amount: vesting_amount,
                cumulative_vested_amount: TokenAmount::new(0),
                cumulative_withdrawn_amount: TokenAmount::new(0),
                vault_balance: TokenAmount::new(0),
                unfunded_liability: TokenAmount::new(0),
                start_ts,
                total_periods,
                cliff_periods,
                period_type,
            },
        )
    }

    /// Whether the record is well formed.
    pub fn is_valid(&self) -> (valid: bool)
        ensures
            valid == self.wf(),
    {
        let vested = self.cumulative_vested_amount.amount;
        let withdrawn = self.cumulative_withdrawn_amount.amount;
        let balance = self.vault_balance.amount;
        if self.total_vesting_amount.amount == 0 || self.total_periods == 0 {
            return false;
        }
        if self.cliff_periods > self.total_periods {
            return false;
        }
        if vested > self.total_vesting_amount.amount || withdrawn > vested {
            return false;
        }
        let owed = vested - withdrawn;
        let uncovered = if owed > balance {
            owed - balance
        } else {
            0
        };
        self.unfunded_liability.amount == uncovered
    }

    /// The amount that the schedule says has vested by `now`.
    ///
    /// Fails with `UnsupportedPeriodType` for a schedule that is neither
    /// daily nor monthly, and with `MathOverflow` for one of no periods. The
    /// product of the amount and the periods is formed in 128 bits, so it
    /// cannot overflow.
    pub fn vested_amount_at(&self, now: TimeStamp) -> (vested: Result<TokenAmount, VestingError>)
        ensures
            match vested {
                Ok(tokens) => self.calculation_error() is None && tokens.amount
                    == self.scheduled_amount(now.time as int),
                Err(e) => self.calculation_error() == Some(e),
            },
    {
        if !self.period_type.is_supported() {
            return Err(VestingError::UnsupportedPeriodType);
        }
        if self.total_periods == 0 {
            return Err(VestingError::MathOverflow);
        }
        if now.time < self.start_ts.time {
            return Ok(TokenAmount::new(0));
        }
        let elapsed: i128 = match self.period_type {
            PeriodType::Daily => now.seconds_since(self.start_ts) / (SECONDS_PER_DAY as i128),
            // monthly: no other period type is supported
            _ => months_between(self.start_ts.time, now.time) as i128,
        };
        if elapsed < self.cliff_periods as i128 {
            return Ok(TokenAmount::new(0));
        }
        let vested_periods: u64 = if elapsed < self.total_periods as i128 {
            elapsed as u64
        } else {
            self.total_periods
        };
        let total = self.total_vesting_amount.amount;
        proof {
            lemma_share_bounded(total as int, vested_periods as int, self.total_periods as int);
            assert(total * vested_periods <= u64::MAX * u64::MAX) by (nonlinear_arith)
                requires
                    0 <= total <= u64::MAX,
                    0 <= vested_periods <= u64::MAX,
            ;
        }
        let amount = (total as u128) * (vested_periods as u128) / (self.total_periods as u128);
        Ok(TokenAmount::new(amount as u64))
    }

    /// Brings the vested total up to `clock_ts`, in seconds since the epoch.
    ///
    /// The total never goes down: where the schedule gives less than is
    /// already recorded (the clock was set back), the record stays as it is.
    pub fn update_vested_tokens(&mut self, clock_ts: i64) -> (done: Result<(), VestingError>)
        ensures
            match done {
                Ok(()) => old(self).calculation_error() is None && *final(self) == old(
                    self,
                ).with_vested(clock_ts as int),
                Err(e) => old(self).calculation_error() == Some(e) && *final(self) == *old(self),
            },
    {
        match self.vested_amount_at(TimeStamp::new(clock_ts)) {
            Ok(vested) => {
                if vested.amount > self.cumulative_vested_amount.amount {
                    self.cumulative_vested_amount = vested;
                }
                Ok(())
            },
            Err(e) => Err(e),
        }
    }

    /// Computes the unfunded liability anew from the three totals.
    ///
    /// Fails with `MathOverflow`, and changes nothing, where more was
    /// withdrawn than has vested. A vault that holds more than is owed leaves
    /// a liability of zero.
    pub fn update_unfunded_liability(&mut self) -> (done: Result<(), VestingError>)
        ensures
            match done {
                Ok(()) => old(self).reconcile_error() is None && *final(self) == old(
                    self,
                ).reconciled(),
                Err(e) => old(self).reconcile_error() == Some(e) && *final(self) == *old(self),
            },
    {
        match self.cumulative_vested_amount.checked_sub(self.cumulative_withdrawn_amount) {
            Ok(owed) => {
                self.unfunded_liability =
                if owed.amount > self.vault_balance.amount {
                    TokenAmount::new(owed.amount - self.vault_balance.amount)
                } else {
                    TokenAmount::new(0)
                };
                Ok(())
            },
            Err(e) => Err(e),
        }
    }
}

/// A share of `periods` out of `total_periods` is at most the whole, and the
/// share of all periods is the whole.
pub proof fn lemma_share_bounded(total: int, periods: int, total_periods: int)
    requires
        0 <= total,
        0 <= periods <= total_periods,
        0 < total_periods,
    ensures
        0 <= total * periods / total_periods <= total,
        total * total_periods / total_periods == total,
{
    assert(0 <= total * periods <= total * total_periods) by (nonlinear_arith)
        requires
            0 <= total,
            0 <= periods <= total_periods,
    ;
    vstd::arithmetic::div_mod::lemma_div_multiples_vanish(total, total_periods);
    vstd::arithmetic::mul::lemma_mul_is_commutative(total, total_periods);
    vstd::arithmetic::div_mod::lemma_div_is_ordered(
        total * periods,
        total * total_periods,
        total_periods,
    );
    vstd::arithmetic::div_mod::lemma_div_pos_is_pos(total * periods, total_periods);
}

/// Periods are counted from the start: none has passed there, and the count
/// never goes down as time goes on.
pub proof fn lemma_elapsed_periods_ordered(
    period_type: PeriodType,
    start: int,
    earlier: int,
    later: int,
)
    requires
        earlier <= later,
    ensures
        elapsed_periods(period_type, start, start) == 0,
        elapsed_periods(period_type, start, earlier) <= elapsed_periods(period_type, start, later),
{
    lemma_no_months_at_start(start);
    lemma_whole_months_ordered(start, earlier, later);
}

/// With more periods elapsed, no less has vested.
pub proof fn lemma_pro_rata_ordered(
    total: int,
    fewer: int,
    more: int,
    cliff: int,
    total_periods: int,
)
    requires
        0 <= total,
        0 <= cliff,
        0 < total_periods,
        fewer <= more,
    ensures
        0 <= pro_rata(total, fewer, cliff, total_periods) <= pro_rata(
            total,
            more,
            cliff,
            total_periods,
        ) <= total,
{
    if more >= cliff {
        let most = if more < total_periods {
            more
        } else {
            total_periods
        };
        lemma_share_bounded(total, most, total_periods);
        if fewer >= cliff {
            let least = if fewer < total_periods {
                fewer
            } else {
                total_periods
            };
            lemma_share_bounded(total, least, total_periods);
            assert(total * least <= total * most) by (nonlinear_arith)
                requires
                    0 <= total,
                    least <= most,
            ;
            vstd::arithmetic::div_mod::lemma_div_is_ordered(
                total * least,
                total * most,
                total_periods,
            );
        }
    }
}

/// The schedule never takes back what it gave: at a later time it gives the
/// same amount or more, and never more than the whole grant.
pub proof fn lemma_scheduled_amount_ordered(v: Vesting, earlier: int, later: int)
    requires
        v.total_periods > 0,
        earlier <= later,
    ensures
        0 <= v.scheduled_amount(earlier) <= v.scheduled_amount(later)
            <= v.total_vesting_amount.amount,
{
    let start = v.start_ts.time as int;
    let total = v.total_vesting_amount.amount as int;
    let cliff = v.cliff_periods as int;
    let periods = v.total_periods as int;
    if later >= start {
        let first = if earlier < start {
            start
        } else {
            earlier
        };
        lemma_elapsed_periods_ordered(v.period_type, start, first, later);
        lemma_elapsed_periods_ordered(v.period_type, start, start, first);
        lemma_pro_rata_ordered(
            total,
            elapsed_periods(v.period_type, start, first),
            elapsed_periods(v.period_type, start, later),
            cliff,
            periods,
        );
        lemma_pro_rata_ordered(total, 0, elapsed_periods(v.period_type, start, first), cliff, periods);
    }
}

/// Bringing a well-formed record up to date leaves it well formed.
pub proof fn lemma_recomputed_wf(v: Vesting, now: int)
    requires
        v.wf(),
    ensures
        v.recomputed(now).wf(),
        v.with_vested(now).reconcile_error() is None,
{
    lemma_scheduled_amount_ordered(v, now, now);
}

/// Booking a deposit that fits into a well-formed record leaves it well formed.
pub proof fn lemma_funded_wf(v: Vesting, amount: int)
    requires
        v.wf(),
        0 <= amount,
        v.vault_balance.amount + amount <= u64::MAX,
    ensures
        v.funded(amount).wf(),
{
}

/// Update after update, at times that do not go back, the vested total of a
/// well-formed record does not go down.
pub proof fn lemma_vested_total_never_decreases(v: Vesting, first: int, second: int)
    requires
        v.wf(),
        first <= second,
    ensures
        v.cumulative_vested_amount.amount <= v.recomputed(first).cumulative_vested_amount.amount
            <= v.recomputed(first).recomputed(second).cumulative_vested_amount.amount,
{
    lemma_scheduled_amount_ordered(v, first, second);
    lemma_recomputed_wf(v, first);
    lemma_scheduled_amount_ordered(v.recomputed(first), second, second);
}

/// Once all periods of a well-formed schedule have passed, the schedule gives
/// the whole grant, and so does the record after an update: nothing is lost to
/// rounding.
pub proof fn lemma_fully_vested_at_maturity(v: Vesting, now: int)
    requires
        v.wf(),
        elapsed_periods(v.period_type, v.start_ts.time as int, now) >= v.total_periods,
    ensures
        v.start_ts.time < now,
        v.scheduled_amount(now) == v.total_vesting_amount.amount,
        v.recomputed(now).cumulative_vested_amount == v.total_vesting_amount,
{
    if now <= v.start_ts.time {
        lemma_elapsed_periods_ordered(v.period_type, v.start_ts.time as int, now, v.start_ts.time as int);
    }
    lemma_share_bounded(
        v.total_vesting_amount.amount as int,
        v.total_periods as int,
        v.total_periods as int,
    );
}

/// Before the cliff the schedule gives nothing, whatever the grant, and a
/// record with nothing vested has nothing vested after an update.
pub proof fn lemma_nothing_vests_before_cliff(v: Vesting, now: int)
    requires
        elapsed_periods(v.period_type, v.start_ts.time as int, now) < v.cliff_periods,
    ensures
        v.scheduled_amount(now) == 0,
        v.cumulative_vested_amount.amount == 0 ==> v.recomputed(
            now,
        ).cumulative_vested_amount.amount == 0,
{
}

/// A second update at the same time changes nothing, and succeeds where the
/// first did.
pub proof fn lemma_recompute_idempotent(v: Vesting, now: int)
    ensures
        v.recomputed(now).recomputed(now) == v.recomputed(now),
        v.recompute_error(now) is None ==> v.recomputed(now).recompute_error(now) is None,
{
    let once = v.recomputed(now);
    assert(once.scheduled_amount(now) == v.scheduled_amount(now));
    assert(once.with_vested(now) == once);
    assert(once.reconciled() == once);
}

/// After an update and after a deposit, the unfunded liability is what the
/// three totals say it is.
pub proof fn lemma_liability_reconciled(v: Vesting, now: int, amount: int)
    ensures
        v.reconciled().is_reconciled(),
        v.recomputed(now).is_reconciled(),
        v.funded(amount).is_reconciled(),
{
}

} // verus!
