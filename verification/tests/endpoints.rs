use vesting_treasury::endpoints::change_vestee_wallet::{self, ChangeVesteeWallet};
use vesting_treasury::endpoints::create_vesting_schedule::{self, CreateVestingSchedule};
use vesting_treasury::endpoints::fund_vesting_vault::{
    self, FundVestingVault, Transfer, TransferRequest,
};
use vesting_treasury::endpoints::update_vested_tokens::{self, UpdateVestedTokens};
use vesting_treasury::err::{TransferError, VestingError};
use vesting_treasury::models::period_type::PeriodType;
use vesting_treasury::models::pubkey::Pubkey;
use vesting_treasury::models::time_stamp::TimeStamp;
use vesting_treasury::models::token_account::TokenAccount;
use vesting_treasury::models::token_amount::TokenAmount;
use vesting_treasury::models::vesting::Vesting;
use vesting_treasury::{change_vestee_wallet as change_wallet, create_vesting_schedule as create};

const JAN_2020: i64 = 1_577_836_800;
const JUN_2020: i64 = 1_590_969_600;
const JAN_2021: i64 = 1_609_459_200;
const JAN_2024: i64 = 1_704_067_200;

const ADMIN: u8 = 1;
const VESTEE: u8 = 2;
const MINT: u8 = 3;
const VAULT: u8 = 4;
const FUNDER: u8 = 5;
const FUNDING_WALLET: u8 = 6;

fn key(tag: u8) -> Pubkey {
    Pubkey::new_from_array([tag; 32])
}

fn grant_accounts() -> CreateVestingSchedule {
    CreateVestingSchedule {
        admin: key(ADMIN),
        vesting_vault: key(VAULT),
        mint: key(MINT),
        vestee_wallet: key(VESTEE),
    }
}

fn monthly_grant() -> Vesting {
    create_vesting_schedule::handle(
        &grant_accounts(),
        TokenAmount::new(10_000),
        TimeStamp::new(JAN_2020),
        12,
        48,
        2,
    )
    .unwrap()
}

fn update(vesting: Vesting, now: i64) -> Vesting {
    let mut ctx = UpdateVestedTokens { vesting };
    assert_eq!(update_vested_tokens::handle(&mut ctx, TimeStamp::new(now)), Ok(()));
    ctx.vesting
}

fn funding(vesting: Vesting) -> FundVestingVault {
    FundVestingVault {
        wallet_authority: key(FUNDER),
        vesting,
        vesting_vault: TokenAccount { key: key(VAULT), mint: key(MINT) },
        funding_wallet: TokenAccount { key: key(FUNDING_WALLET), mint: key(MINT) },
    }
}

#[test]
fn monthly_vesting_with_cliff() {
    let vesting_amount = TokenAmount::new(10_000);
    let start_ts = TimeStamp::new(1577836801); // Jan 01 2020
    let cliff_periods = 12;
    let total_periods = 48;
    let period_type = 2; // Monthly

    let created = create(
        &grant_accounts(),
        vesting_amount,
        start_ts,
        cliff_periods,
        total_periods,
        period_type,
    );
    assert!(created.is_ok());

    let vesting = created.unwrap();
    assert_eq!(vesting.admin, key(ADMIN));
    assert_eq!(vesting.vestee_wallet, key(VESTEE));
    assert_eq!(vesting.mint, key(MINT));
    assert_eq!(vesting.vault, key(VAULT));

    assert_eq!(vesting.total_vesting_amount, vesting_amount);
    assert_eq!(vesting.cumulative_vested_amount, TokenAmount::new(0));
    assert_eq!(vesting.cumulative_withdrawn_amount, TokenAmount::new(0));
    assert_eq!(vesting.vault_balance, TokenAmount::new(0));
    assert_eq!(vesting.unfunded_liability, TokenAmount::new(0));
    assert_eq!(vesting.start_ts, start_ts);
    assert_eq!(vesting.total_periods, total_periods);
    assert_eq!(vesting.cliff_periods, cliff_periods);
    assert_eq!(vesting.period_type, PeriodType::Monthly);
}

#[test]
fn both_ways_to_create_a_schedule_agree() {
    let accounts = grant_accounts();
    for (amount, cliff, periods, period_type) in
        [(10_000u64, 12u64, 48u64, 2u32), (0, 0, 1, 1), (1, 0, 0, 1), (1, 2, 1, 1), (1, 1, 1, 0), (5, 1, 2, 5)]
    {
        let by_handler = create_vesting_schedule::handle(
            &accounts,
            TokenAmount::new(amount),
            TimeStamp::new(-7),
            cliff,
            periods,
            period_type,
        );
        let by_entry = create(
            &accounts,
            TokenAmount::new(amount),
            TimeStamp::new(-7),
            cliff,
            periods,
            period_type,
        );
        assert_eq!(by_handler, by_entry);
    }
}

#[test]
fn creation_rejects_unsound_terms() {
    let accounts = grant_accounts();
    let make = |amount: u64, cliff: u64, periods: u64, period_type: u32| {
        create_vesting_schedule::handle(
            &accounts,
            TokenAmount::new(amount),
            TimeStamp::new(JAN_2020),
            cliff,
            periods,
            period_type,
        )
    };
    assert_eq!(make(0, 12, 48, 2), Err(VestingError::ZeroVestingAmount));
    assert_eq!(make(10_000, 0, 0, 2), Err(VestingError::ZeroTotalPeriods));
    assert_eq!(make(10_000, 49, 48, 2), Err(VestingError::CliffExceedsTotalPeriods));
    assert_eq!(make(10_000, 12, 48, 0), Err(VestingError::UnknownPeriodType));
    assert_eq!(make(10_000, 12, 48, 6), Err(VestingError::UnknownPeriodType));
    assert!(make(10_000, 48, 48, 2).is_ok());
    assert!(make(10_000, 0, 48, 4).is_ok());
}

#[test]
fn the_vested_total_follows_the_schedule() {
    let vesting = monthly_grant();

    let vesting = update(vesting, JUN_2020);
    assert_eq!(vesting.cumulative_vested_amount.amount, 0);
    assert_eq!(vesting.unfunded_liability.amount, 0);

    let vesting = update(vesting, JAN_2021);
    assert_eq!(vesting.cumulative_vested_amount.amount, 2_500);
    assert_eq!(vesting.unfunded_liability.amount, 2_500);

    let vesting = update(vesting, JAN_2024);
    assert_eq!(vesting.cumulative_vested_amount.amount, 10_000);
    assert_eq!(vesting.unfunded_liability.amount, 10_000);
    assert!(vesting.is_valid());
}

#[test]
fn funding_after_the_cliff_covers_part_of_the_liability() {
    let vesting = update(update(monthly_grant(), JUN_2020), JAN_2021);
    let mut accs = funding(vesting);
    let funding_amount = TokenAmount::new(1_000);

    let request = accs.request_transfer(funding_amount).unwrap();
    assert_eq!(request.amount, 1_000);
    assert_eq!(fund_vesting_vault::handle(&mut accs, funding_amount, Ok(())), Ok(()));

    assert_eq!(accs.vesting.vault_balance.amount, 1_000);
    assert_eq!(accs.vesting.unfunded_liability.amount, 1_500);
    assert_eq!(accs.vesting.cumulative_vested_amount.amount, 2_500);
    assert_eq!(accs.vesting.cumulative_withdrawn_amount.amount, 0);
    assert!(accs.vesting.is_valid());
}

#[test]
fn funding_changes_the_balance_and_the_liability_only() {
    let vesting = update(monthly_grant(), JAN_2021);
    let mut accs = funding(vesting);
    let before = accs;
    assert_eq!(fund_vesting_vault::handle(&mut accs, TokenAmount::new(2_000), Ok(())), Ok(()));
    let mut expected = before;
    expected.vesting.vault_balance = TokenAmount::new(2_000);
    expected.vesting.unfunded_liability = TokenAmount::new(500);
    assert_eq!(accs, expected);
    assert_eq!(fund_vesting_vault::handle(&mut accs, TokenAmount::new(2_000), Ok(())), Ok(()));
    expected.vesting.vault_balance = TokenAmount::new(4_000);
    expected.vesting.unfunded_liability = TokenAmount::new(0);
    assert_eq!(accs, expected);
}

#[test]
fn funding_with_nothing_is_rejected() {
    let mut accs = funding(update(monthly_grant(), JAN_2021));
    let before = accs;
    assert_eq!(accs.request_transfer(TokenAmount::new(0)), Err(VestingError::ZeroFundingAmount));
    assert_eq!(
        fund_vesting_vault::handle(&mut accs, TokenAmount::new(0), Ok(())),
        Err(VestingError::ZeroFundingAmount)
    );
    assert_eq!(accs, before);
}

#[test]
fn funding_from_a_wallet_of_another_mint_is_rejected() {
    let mut accs = funding(update(monthly_grant(), JAN_2021));
    accs.funding_wallet.mint = key(99);
    let before = accs;
    assert_eq!(accs.request_transfer(TokenAmount::new(1_000)), Err(VestingError::MintMismatch));
    assert_eq!(
        fund_vesting_vault::handle(&mut accs, TokenAmount::new(1_000), Ok(())),
        Err(VestingError::MintMismatch)
    );
    assert_eq!(accs, before);
    assert_eq!(
        fund_vesting_vault::handle(&mut accs, TokenAmount::new(0), Ok(())),
        Err(VestingError::MintMismatch)
    );
    assert_eq!(accs, before);
}

#[test]
fn funding_another_vault_is_rejected() {
    let mut accs = funding(update(monthly_grant(), JAN_2021));
    accs.vesting_vault.key = key(98);
    let before = accs;
    assert_eq!(accs.request_transfer(TokenAmount::new(1_000)), Err(VestingError::VaultMismatch));
    assert_eq!(
        fund_vesting_vault::handle(&mut accs, TokenAmount::new(1_000), Ok(())),
        Err(VestingError::VaultMismatch)
    );
    assert_eq!(accs, before);
    accs.funding_wallet.mint = key(99);
    assert_eq!(accs.request_transfer(TokenAmount::new(0)), Err(VestingError::VaultMismatch));
}

#[test]
fn a_failed_transfer_is_handed_on_and_changes_nothing() {
    let mut accs = funding(update(monthly_grant(), JAN_2021));
    let before = accs;
    let failure = TransferError { code: 0x1_0000_0001 };
    assert!(accs.request_transfer(TokenAmount::new(1_000)).is_ok());
    assert_eq!(
        fund_vesting_vault::handle(&mut accs, TokenAmount::new(1_000), Err(failure)),
        Err(VestingError::Transfer(failure))
    );
    assert_eq!(accs, before);
    // a deposit that cannot be booked is rejected for its own reason
    assert_eq!(
        fund_vesting_vault::handle(&mut accs, TokenAmount::new(0), Err(failure)),
        Err(VestingError::ZeroFundingAmount)
    );
    assert_eq!(accs, before);
}

#[test]
fn a_failed_transfer_is_reported_before_the_totals_are_looked_at() {
    let failure = TransferError { code: 7 };

    let mut accs = funding(update(monthly_grant(), JAN_2021));
    accs.vesting.vault_balance = TokenAmount::new(u64::MAX);
    accs.vesting.unfunded_liability = TokenAmount::new(0);
    let before = accs;
    assert_eq!(accs.request_transfer(TokenAmount::new(1)), Err(VestingError::MathOverflow));
    assert_eq!(accs.check_inputs(TokenAmount::new(1)), Ok(()));
    assert_eq!(
        fund_vesting_vault::handle(&mut accs, TokenAmount::new(1), Err(failure)),
        Err(VestingError::Transfer(failure))
    );
    assert_eq!(accs, before);
    assert_eq!(
        fund_vesting_vault::handle(&mut accs, TokenAmount::new(1), Ok(())),
        Err(VestingError::MathOverflow)
    );
    assert_eq!(accs, before);

    let mut accs = funding(update(monthly_grant(), JAN_2021));
    accs.vesting.cumulative_withdrawn_amount = TokenAmount::new(2_501);
    let before = accs;
    assert_eq!(
        fund_vesting_vault::handle(&mut accs, TokenAmount::new(1), Err(failure)),
        Err(VestingError::Transfer(failure))
    );
    assert_eq!(accs, before);

    // the accounts and the amount still come first
    accs.funding_wallet.mint = key(99);
    assert_eq!(accs.check_inputs(TokenAmount::new(1)), Err(VestingError::MintMismatch));
    assert_eq!(
        fund_vesting_vault::handle(&mut accs, TokenAmount::new(1), Err(failure)),
        Err(VestingError::MintMismatch)
    );
    accs.vesting_vault.key = key(98);
    assert_eq!(accs.check_inputs(TokenAmount::new(0)), Err(VestingError::VaultMismatch));
    assert_eq!(
        fund_vesting_vault::handle(&mut accs, TokenAmount::new(0), Err(failure)),
        Err(VestingError::VaultMismatch)
    );
}

#[test]
fn a_deposit_that_overflows_the_balance_is_rejected() {
    let mut accs = funding(update(monthly_grant(), JAN_2021));
    accs.vesting.vault_balance = TokenAmount::new(u64::MAX - 5);
    accs.vesting.unfunded_liability = TokenAmount::new(0);
    let before = accs;
    assert_eq!(accs.request_transfer(TokenAmount::new(6)), Err(VestingError::MathOverflow));
    assert_eq!(
        fund_vesting_vault::handle(&mut accs, TokenAmount::new(6), Ok(())),
        Err(VestingError::MathOverflow)
    );
    assert_eq!(accs, before);
    assert_eq!(fund_vesting_vault::handle(&mut accs, TokenAmount::new(5), Ok(())), Ok(()));
    assert_eq!(accs.vesting.vault_balance.amount, u64::MAX);
    assert_eq!(accs.vesting.unfunded_liability.amount, 0);
}

#[test]
fn a_deposit_into_a_record_with_more_withdrawn_than_vested_is_rejected() {
    let mut accs = funding(update(monthly_grant(), JAN_2021));
    accs.vesting.cumulative_withdrawn_amount = TokenAmount::new(2_501);
    let before = accs;
    assert_eq!(accs.request_transfer(TokenAmount::new(1)), Err(VestingError::MathOverflow));
    assert_eq!(
        fund_vesting_vault::handle(&mut accs, TokenAmount::new(1), Ok(())),
        Err(VestingError::MathOverflow)
    );
    assert_eq!(accs, before);
}

#[test]
fn the_transfer_goes_from_the_funding_wallet_to_the_vault() {
    let accs = funding(monthly_grant());
    let accounts = Transfer { from: key(FUNDING_WALLET), to: key(VAULT), authority: key(FUNDER) };
    assert_eq!(accs.as_transfer_funds_from_funding_wallet_to_vault_context(), accounts);
    assert_eq!(
        accs.request_transfer(TokenAmount::new(1_000)),
        Ok(TransferRequest { accounts, amount: 1_000 })
    );
    assert_eq!(
        accs.request_transfer(TokenAmount::new(u64::MAX)),
        Ok(TransferRequest { accounts, amount: u64::MAX })
    );
}

#[test]
fn updating_twice_at_the_same_time_is_the_same_as_once() {
    for now in [JAN_2020 - 1, JUN_2020, JAN_2021, JAN_2021 + 40 * 86_400, JAN_2024, i64::MAX] {
        let mut ctx = UpdateVestedTokens { vesting: monthly_grant() };
        assert_eq!(update_vested_tokens::handle(&mut ctx, TimeStamp::new(now)), Ok(()));
        let once = ctx;
        assert_eq!(update_vested_tokens::handle(&mut ctx, TimeStamp::new(now)), Ok(()));
        assert_eq!(ctx, once);
    }
}

#[test]
fn the_vested_total_never_goes_down_from_update_to_update() {
    let mut ctx = UpdateVestedTokens { vesting: monthly_grant() };
    let mut previous = 0;
    let mut now = JAN_2020 - 100 * 86_400;
    while now < JAN_2024 + 100 * 86_400 {
        assert_eq!(update_vested_tokens::handle(&mut ctx, TimeStamp::new(now)), Ok(()));
        let vested = ctx.vesting.cumulative_vested_amount.amount;
        assert!(vested >= previous);
        assert_eq!(ctx.vesting.unfunded_liability.amount, vested);
        assert!(ctx.vesting.is_valid());
        previous = vested;
        now += 13 * 86_400 + 5;
    }
    assert_eq!(previous, 10_000);
    // nor when the clock is set back
    assert_eq!(update_vested_tokens::handle(&mut ctx, TimeStamp::new(JUN_2020)), Ok(()));
    assert_eq!(ctx.vesting.cumulative_vested_amount.amount, 10_000);
}

#[test]
fn the_liability_is_reconciled_after_every_operation() {
    let owed = |v: &Vesting| {
        (v.cumulative_vested_amount.amount as i128
            - v.cumulative_withdrawn_amount.amount as i128
            - v.vault_balance.amount as i128)
            .max(0) as u64
    };
    let mut vesting = monthly_grant();
    assert_eq!(vesting.unfunded_liability.amount, owed(&vesting));
    for (now, deposit) in [
        (JUN_2020, 10u64),
        (JAN_2021, 1_000),
        (JAN_2021 + 100 * 86_400, 3_000),
        (JAN_2024, 1),
        (JAN_2024, 7_000),
    ] {
        vesting = update(vesting, now);
        assert_eq!(vesting.unfunded_liability.amount, owed(&vesting));
        let mut accs = funding(vesting);
        assert_eq!(fund_vesting_vault::handle(&mut accs, TokenAmount::new(deposit), Ok(())), Ok(()));
        vesting = accs.vesting;
        assert_eq!(vesting.unfunded_liability.amount, owed(&vesting));
    }
    assert_eq!(vesting.vault_balance.amount, 11_011);
    assert_eq!(vesting.unfunded_liability.amount, 0);
}

#[test]
fn an_update_of_an_unsupported_schedule_is_rejected() {
    for period_type in [3u32, 4, 5] {
        let vesting = create_vesting_schedule::handle(
            &grant_accounts(),
            TokenAmount::new(10_000),
            TimeStamp::new(JAN_2020),
            1,
            4,
            period_type,
        )
        .unwrap();
        let mut ctx = UpdateVestedTokens { vesting };
        let before = ctx;
        assert_eq!(
            update_vested_tokens::handle(&mut ctx, TimeStamp::new(JAN_2024)),
            Err(VestingError::UnsupportedPeriodType)
        );
        assert_eq!(ctx, before);
    }
}

#[test]
fn an_update_that_cannot_be_reconciled_changes_nothing() {
    let mut ctx = UpdateVestedTokens { vesting: monthly_grant() };
    ctx.vesting.cumulative_withdrawn_amount = TokenAmount::new(2_501);
    let before = ctx;
    assert_eq!(
        update_vested_tokens::handle(&mut ctx, TimeStamp::new(JAN_2021)),
        Err(VestingError::MathOverflow)
    );
    assert_eq!(ctx, before);
    ctx.vesting.cumulative_withdrawn_amount = TokenAmount::new(2_500);
    assert_eq!(update_vested_tokens::handle(&mut ctx, TimeStamp::new(JAN_2021)), Ok(()));
    assert_eq!(ctx.vesting.cumulative_vested_amount.amount, 2_500);
    assert_eq!(ctx.vesting.unfunded_liability.amount, 0);
}

#[test]
fn an_update_of_a_schedule_of_no_periods_is_rejected() {
    let mut ctx = UpdateVestedTokens { vesting: monthly_grant() };
    ctx.vesting.total_periods = 0;
    ctx.vesting.cliff_periods = 0;
    let before = ctx;
    assert_eq!(
        update_vested_tokens::handle(&mut ctx, TimeStamp::new(JAN_2021)),
        Err(VestingError::MathOverflow)
    );
    assert_eq!(ctx, before);
}

#[test]
fn the_admin_can_reassign_the_beneficiary() {
    let vesting = update(monthly_grant(), JAN_2021);
    let mut ctx = ChangeVesteeWallet { admin: key(ADMIN), vesting, vestee_wallet_new: key(42) };
    assert_eq!(change_vestee_wallet::handle(&mut ctx), Ok(()));
    let mut expected = vesting;
    expected.vestee_wallet = key(42);
    assert_eq!(ctx.vesting, expected);
    assert_eq!(ctx.admin, key(ADMIN));
    assert_eq!(ctx.vestee_wallet_new, key(42));

    ctx.vestee_wallet_new = key(43);
    assert_eq!(change_wallet(&mut ctx), Ok(()));
    assert_eq!(ctx.vesting.vestee_wallet, key(43));
}

#[test]
fn nobody_else_can_reassign_the_beneficiary() {
    let vesting = update(monthly_grant(), JAN_2021);
    for caller in [VESTEE, FUNDER, 0, 255] {
        let mut ctx =
            ChangeVesteeWallet { admin: key(caller), vesting, vestee_wallet_new: key(42) };
        let before = ctx;
        assert_eq!(change_vestee_wallet::handle(&mut ctx), Err(VestingError::Unauthorized));
        assert_eq!(ctx, before);
        assert_eq!(change_wallet(&mut ctx), Err(VestingError::Unauthorized));
        assert_eq!(ctx, before);
    }
    let mut almost = [ADMIN; 32];
    almost[31] = 0;
    let mut ctx = ChangeVesteeWallet {
        admin: Pubkey::new_from_array(almost),
        vesting,
        vestee_wallet_new: key(42),
    };
    assert_eq!(change_vestee_wallet::handle(&mut ctx), Err(VestingError::Unauthorized));
    assert_eq!(ctx.vesting.vestee_wallet, key(VESTEE));
}
