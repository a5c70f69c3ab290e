use sender_staking::errors::StakingError;
use sender_staking::events::Event;
use sender_staking::ft_token_receiver::TransferCallInfo;
use sender_staking::utils::{as_u128, elapsed_interest, nano_to_sec, to_nano};
use sender_staking::Contract;

const YEAR_SECS: u64 = 31_536_000;

fn owner() -> String {
    "owner.near".to_string()
}

fn token() -> String {
    "token.near".to_string()
}

fn alice() -> String {
    "alice.near".to_string()
}

fn fresh() -> Contract {
    Contract::new(owner(), token())
}

#[test]
fn test_new() {
    let contract = fresh();
    assert_eq!(contract.owner_id, owner());
    assert_eq!(contract.token_account_id, token());
    assert!(contract.current_switch);
    assert!(contract.fixed_switch);
    assert_eq!(contract.current_term_apr, 3200);
    assert_eq!(contract.fixed_term_apr, 6000);
    assert_eq!(contract.current_withdraw_delay, 21);
    assert_eq!(contract.total_current_staked_amount, 0);
    assert_eq!(contract.acc_current_staked_amount, 0);
    assert_eq!(contract.total_current_unstaked_amount, 0);
    assert_eq!(contract.total_current_unstaked_interest, 0);
    assert_eq!(contract.get_total_user_num(), 0);
}

#[test]
fn stake_updates_deposit_and_counters() {
    let mut contract = fresh();
    let ev = contract.stake_current(&alice(), 100, 5).unwrap();
    assert_eq!(
        ev,
        Event::Stake {
            user_id: alice(),
            stake_type: "current_deposit".to_string(),
            amount: 100,
            duration: 0,
            time: 5,
        }
    );
    assert_eq!(contract.get_user_current_deposit(&alice()), 100);
    assert_eq!(contract.total_current_staked_amount, 100);
    assert_eq!(contract.acc_current_staked_amount, 100);
    assert_eq!(contract.get_total_user_num(), 1);
}

#[test]
fn stake_rolls_prior_interest_forward() {
    let mut contract = fresh();
    contract.stake_current(&alice(), 1000, 0).unwrap();
    contract.stake_current(&alice(), 1000, YEAR_SECS).unwrap();
    // One year at 3200 parts per 10000 on 1000 is 320; nothing has elapsed
    // since the second stake.
    assert_eq!(
        contract.get_user_current_accrued_interest(&alice(), YEAR_SECS),
        Ok(320)
    );
    assert_eq!(contract.get_user_current_deposit(&alice()), 2000);
    assert_eq!(contract.total_current_staked_amount, 2000);
}

#[test]
fn elapsed_interest_exact_values() {
    // One full year of 3200 parts per 10000 on one million.
    assert_eq!(elapsed_interest(1_000_000, 0, YEAR_SECS, 3200), Ok(320_000));
    // One day: 1_000_000 * 86_400 * 3200 / 10000 / 31_536_000, floor-divided.
    assert_eq!(elapsed_interest(1_000_000, 0, 86_400, 3200), Ok(876));
    // No elapsed time, no interest.
    assert_eq!(elapsed_interest(1_000_000, 7, 7, 3200), Ok(0));
}

#[test]
fn elapsed_interest_time_underflow() {
    assert_eq!(
        elapsed_interest(1_000_000, 10, 9, 3200),
        Err(StakingError::TimeUnderflow)
    );
}

#[test]
fn elapsed_interest_overflow() {
    assert_eq!(
        elapsed_interest(u128::MAX, 0, 2, 3200),
        Err(StakingError::Overflow)
    );
}

#[test]
fn unstake_scenario_one_year() {
    let mut contract = fresh();
    contract.stake_current(&alice(), 1_000_000, 0).unwrap();
    let ev = contract.unstake_current(&alice(), YEAR_SECS).unwrap();
    assert_eq!(
        ev,
        Event::Unstake {
            user_id: alice(),
            unstake_type: "current_deposit".to_string(),
            amount: 1_000_000,
            time: YEAR_SECS,
        }
    );
    let user = contract.internal_get_user(&alice()).unwrap();
    assert_eq!(user.withdrawable_amount, 1_320_000);
    assert_eq!(user.current_deposit.amount, 0);
    assert_eq!(user.current_deposit.accrued_interest, 0);
    assert_eq!(user.current_deposit.last_unstake_time, YEAR_SECS);
    assert_eq!(contract.total_current_staked_amount, 0);
    assert_eq!(contract.total_current_unstaked_amount, 1_000_000);
    assert_eq!(contract.total_current_unstaked_interest, 320_000);
}

#[test]
fn unstake_without_deposit_fails() {
    let mut contract = fresh();
    assert_eq!(
        contract.unstake_current(&alice(), 10),
        Err(StakingError::NoCurrentDeposit)
    );
}

#[test]
fn double_unstake_is_rejected_and_changes_nothing() {
    let mut contract = fresh();
    contract.stake_current(&alice(), 1_000_000, 0).unwrap();
    contract.unstake_current(&alice(), YEAR_SECS).unwrap();
    let withdrawable_before = contract.internal_get_user(&alice()).unwrap().withdrawable_amount;
    let total_before = contract.total_current_staked_amount;
    let unstaked_before = contract.total_current_unstaked_amount;
    assert_eq!(
        contract.unstake_current(&alice(), YEAR_SECS + 5),
        Err(StakingError::NoCurrentDeposit)
    );
    let user = contract.internal_get_user(&alice()).unwrap();
    assert_eq!(user.withdrawable_amount, withdrawable_before);
    assert_eq!(user.current_deposit.last_unstake_time, YEAR_SECS);
    assert_eq!(contract.total_current_staked_amount, total_before);
    assert_eq!(contract.total_current_unstaked_amount, unstaked_before);
}

#[test]
fn withdraw_respects_time_lock_boundary() {
    let mut contract = fresh();
    contract.stake_current(&alice(), 1_000_000, 0).unwrap();
    contract.unstake_current(&alice(), YEAR_SECS).unwrap();
    // 21 days of time-lock.
    let unlock = YEAR_SECS + 21 * 86_400;
    // Well before the boundary.
    assert_eq!(
        contract.withdraw(&alice(), YEAR_SECS + 1),
        Err(StakingError::TimeLockNotElapsed { delay_days: 21 })
    );
    // At exactly the boundary it still fails.
    assert_eq!(
        contract.withdraw(&alice(), unlock),
        Err(StakingError::TimeLockNotElapsed { delay_days: 21 })
    );
    // One second past, it succeeds.
    let req = contract.withdraw(&alice(), unlock + 1).unwrap();
    assert_eq!(req.receiver_id, alice());
    assert_eq!(req.amount, 1_320_000);
    assert_eq!(req.time, unlock + 1);
    assert_eq!(req.last_unstake_time, YEAR_SECS);
    let user = contract.internal_get_user(&alice()).unwrap();
    assert_eq!(user.withdrawable_amount, 0);
    assert_eq!(user.current_deposit.last_unstake_time, 0);
}

#[test]
fn withdraw_without_unstake_fails() {
    let mut contract = fresh();
    assert_eq!(
        contract.withdraw(&alice(), 100),
        Err(StakingError::WithdrawableAmountZero)
    );
    contract.stake_current(&alice(), 500, 0).unwrap();
    assert_eq!(
        contract.withdraw(&alice(), 100),
        Err(StakingError::WithdrawableAmountZero)
    );
    // A positive balance with no recorded unstake still needs an unstake.
    contract.on_transfer_complete(&alice(), 700, 50, 0, false);
    assert_eq!(
        contract.withdraw(&alice(), 100),
        Err(StakingError::UnstakeRequired)
    );
}

#[test]
fn second_withdraw_before_settlement_fails() {
    let mut contract = fresh();
    contract.stake_current(&alice(), 1_000_000, 0).unwrap();
    contract.unstake_current(&alice(), YEAR_SECS).unwrap();
    let later = YEAR_SECS + 22 * 86_400;
    contract.withdraw(&alice(), later).unwrap();
    assert_eq!(
        contract.withdraw(&alice(), later + 1),
        Err(StakingError::WithdrawableAmountZero)
    );
}

#[test]
fn failed_transfer_restores_withdrawal() {
    let mut contract = fresh();
    contract.stake_current(&alice(), 1_000_000, 0).unwrap();
    contract.unstake_current(&alice(), YEAR_SECS).unwrap();
    let later = YEAR_SECS + 22 * 86_400;
    let req = contract.withdraw(&alice(), later).unwrap();
    let ev = contract.on_transfer_complete(
        &alice(),
        req.amount,
        req.time,
        req.last_unstake_time,
        false,
    );
    assert!(ev.is_none());
    let user = contract.internal_get_user(&alice()).unwrap();
    assert_eq!(user.withdrawable_amount, 1_320_000);
    assert_eq!(user.current_deposit.last_unstake_time, YEAR_SECS);
}

#[test]
fn successful_transfer_confirms_withdrawal() {
    let mut contract = fresh();
    contract.stake_current(&alice(), 1_000_000, 0).unwrap();
    contract.unstake_current(&alice(), YEAR_SECS).unwrap();
    let later = YEAR_SECS + 22 * 86_400;
    let req = contract.withdraw(&alice(), later).unwrap();
    let ev = contract.on_transfer_complete(
        &alice(),
        req.amount,
        req.time,
        req.last_unstake_time,
        true,
    );
    assert_eq!(
        ev,
        Some(Event::Withdraw { user_id: alice(), amount: 1_320_000, time: later })
    );
    let user = contract.internal_get_user(&alice()).unwrap();
    assert_eq!(user.withdrawable_amount, 0);
    assert_eq!(user.current_deposit.last_unstake_time, 0);
}

#[test]
fn ft_on_transfer_stakes_recognized_intent() {
    let mut contract = fresh();
    let info = Some(TransferCallInfo::StakeInfo {
        staking_type: "current_deposit".to_string(),
        duration: None,
    });
    let (refund, ev) = contract.ft_on_transfer(&token(), alice(), 2500, info, 9).unwrap();
    assert_eq!(refund, 0);
    assert!(ev.is_some());
    assert_eq!(contract.get_user_current_deposit(&alice()), 2500);
}

#[test]
fn ft_on_transfer_rejects_wrong_token() {
    let mut contract = fresh();
    let info = Some(TransferCallInfo::StakeInfo {
        staking_type: "current_deposit".to_string(),
        duration: None,
    });
    assert_eq!(
        contract.ft_on_transfer(&"other.near".to_string(), alice(), 2500, info, 9),
        Err(StakingError::UnsupportedToken)
    );
    assert_eq!(contract.get_user_current_deposit(&alice()), 0);
}

#[test]
fn ft_on_transfer_rejects_undecodable_message() {
    let mut contract = fresh();
    assert_eq!(
        contract.ft_on_transfer(&token(), alice(), 2500, None, 9),
        Err(StakingError::InvalidMsg)
    );
}

#[test]
fn ft_on_transfer_refunds_unrecognized_intent() {
    let mut contract = fresh();
    let info = Some(TransferCallInfo::StakeInfo {
        staking_type: "fixed_deposit".to_string(),
        duration: Some(30),
    });
    let (refund, ev) = contract.ft_on_transfer(&token(), alice(), 2500, info, 9).unwrap();
    assert_eq!(refund, 2500);
    assert!(ev.is_none());
    assert_eq!(contract.get_user_current_deposit(&alice()), 0);
}

#[test]
fn ft_on_transfer_refunds_when_switch_is_off() {
    let mut contract = fresh();
    contract.set_current_switch(&owner(), false).unwrap();
    let info = Some(TransferCallInfo::StakeInfo {
        staking_type: "current_deposit".to_string(),
        duration: None,
    });
    let (refund, ev) = contract.ft_on_transfer(&token(), alice(), 2500, info, 9).unwrap();
    assert_eq!(refund, 2500);
    assert!(ev.is_none());
    assert_eq!(contract.total_current_staked_amount, 0);
}

#[test]
fn fixed_term_slots_change_nothing() {
    let mut contract = fresh();
    assert_eq!(
        contract.unstake_fixed(&alice(), 10),
        Err(StakingError::NoFixedDeposit)
    );
    contract.stake_current(&alice(), 100, 0).unwrap();
    assert_eq!(contract.unstake_fixed(&alice(), 10), Ok(()));
    assert_eq!(contract.get_user_current_deposit(&alice()), 100);
    let ev = contract.stake_fixed(&alice(), 400, 30, 12);
    assert_eq!(
        ev,
        Event::Stake {
            user_id: alice(),
            stake_type: "fixed_deposit".to_string(),
            amount: 400,
            duration: 30,
            time: 12,
        }
    );
    assert_eq!(contract.total_fixed_staked_amount, 0);
    assert_eq!(contract.get_user_current_deposit(&alice()), 100);
}

#[test]
fn time_conversions() {
    assert_eq!(to_nano(7), 7_000_000_000);
    assert_eq!(nano_to_sec(7_999_999_999), 7);
    assert_eq!(nano_to_sec(0), 0);
}

#[test]
fn as_u128_reads_little_endian() {
    let mut one = [0u8; 16];
    one[0] = 1;
    assert_eq!(as_u128(&one), 1);
    let mut mixed = [0u8; 16];
    mixed[0] = 0x78;
    mixed[1] = 0x56;
    mixed[2] = 0x34;
    mixed[3] = 0x12;
    assert_eq!(as_u128(&mixed), 0x1234_5678);
    let all = [0xFFu8; 16];
    assert_eq!(as_u128(&all), u128::MAX);
}
