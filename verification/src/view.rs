//! Read-only reporting: contract metadata and per-account snapshots.
//!
//! The snapshots roll interest forward to the read time without persisting
//! anything; the state is never touched.

use vstd::prelude::*;

use crate::errors::StakingError;
use crate::user::{user_or_default, CurrentDepositTerm, User, UserV};
use crate::utils::{elapsed_interest, interest_mul_fits, spec_elapsed_interest};
use crate::{Contract, ONE_DAY_IN_SECS};

verus! {

/// A contract-wide snapshot for reporting.
#[derive(Debug)]
pub struct Metadata {
    pub version: String,
    pub owner_id: String,
    pub token_account_id: String,
    pub current_switch: bool,
    pub current_term_apr: u32,
    pub fixed_switch: bool,
    pub fixed_term_apr: u32,
    pub total_current_staked_amount: u128,
    pub total_fixed_staked_amount: u128,
}

impl Contract {
    /// The contract-wide snapshot, stamped with the release version the
    /// caller supplies.
    pub fn get_metadata(&self, version: String) -> (r: Metadata)
        ensures
            r.version@ == version@,
            r.owner_id@ == self@.owner_id,
            r.token_account_id@ == self@.token_account_id,
            r.current_switch == self@.current_switch,
            r.current_term_apr == self@.current_term_apr,
            r.fixed_switch == self@.fixed_switch,
            r.fixed_term_apr == self@.fixed_term_apr,
            r.total_current_staked_amount == self@.total_current_staked_amount,
            r.total_fixed_staked_amount == self@.total_fixed_staked_amount,
    {
        Metadata {
            version,
            owner_id: self.owner_id.clone(),
            token_account_id: self.token_account_id.clone(),
            current_switch: self.current_switch,
            current_term_apr: self.current_term_apr,
            fixed_switch: self.fixed_switch,
            fixed_term_apr: self.fixed_term_apr,
            total_current_staked_amount: self.total_current_staked_amount,
            total_fixed_staked_amount: self.total_fixed_staked_amount,
        }
    }

    /// How many accounts have ever been touched, clipped to 32 bits.
    pub fn get_total_user_num(&self) -> (r: u32)
        ensures
            r == self@.users.len() as u32,
    {
        let n = self.users.len();
        #[verifier::truncate]
        (n as u32)
    }

    /// The caller-visible snapshot of one account: its stored entry with
    /// interest rolled forward to `now_sec`, not persisted.
    pub fn get_user(&self, user_id: &String, now_sec: u64) -> (r: Result<User, StakingError>)
        requires
            self.wf(),
        ensures
            ({
                let u = user_or_default(self@.users, user_id@);
                let cd = u.current_deposit;
                let interest = spec_elapsed_interest(
                    cd.amount,
                    cd.last_stake_time,
                    now_sec,
                    self@.current_term_apr,
                );
                if now_sec < cd.last_stake_time {
                    r == Err::<User, StakingError>(StakingError::TimeUnderflow)
                } else if !interest_mul_fits(
                    cd.amount,
                    cd.last_stake_time,
                    now_sec,
                    self@.current_term_apr,
                ) {
                    r == Err::<User, StakingError>(StakingError::Overflow)
                } else if cd.accrued_interest + interest > u128::MAX {
                    r == Err::<User, StakingError>(StakingError::Overflow)
                } else {
                    r matches Ok(snapshot) && snapshot@ == (UserV {
                        current_deposit: CurrentDepositTerm {
                            accrued_interest: (cd.accrued_interest + interest) as u128,
                            ..cd
                        },
                        ..u
                    })
                }
            }),
    {
        let mut user = self.internal_unwrap_user_or_default(user_id);
        let interest = match elapsed_interest(
            user.current_deposit.amount,
            user.current_deposit.last_stake_time,
            now_sec,
            self.current_term_apr,
        ) {
            Ok(v) => v,
            Err(e) => {
                return Err(e);
            },
        };
        let accrued = match user.current_deposit.accrued_interest.checked_add(interest) {
            Some(v) => v,
            None => {
                return Err(StakingError::Overflow);
            },
        };
        user.current_deposit.accrued_interest = accrued;
        Ok(user)
    }

    /// One account's live current-term principal.
    pub fn get_user_current_deposit(&self, user_id: &String) -> (r: u128)
        requires
            self.wf(),
        ensures
            r == user_or_default(self@.users, user_id@).current_deposit.amount,
    {
        let user = self.internal_unwrap_user_or_default(user_id);
        user.current_deposit.amount
    }

    /// One account's interest, already accrued plus elapsed up to `now_sec`.
    pub fn get_user_current_accrued_interest(&self, user_id: &String, now_sec: u64) -> (r: Result<
        u128,
        StakingError,
    >)
        requires
            self.wf(),
        ensures
            ({
                let cd = user_or_default(self@.users, user_id@).current_deposit;
                let interest = spec_elapsed_interest(
                    cd.amount,
                    cd.last_stake_time,
                    now_sec,
                    self@.current_term_apr,
                );
                if now_sec < cd.last_stake_time {
                    r == Err::<u128, StakingError>(StakingError::TimeUnderflow)
                } else if !interest_mul_fits(
                    cd.amount,
                    cd.last_stake_time,
                    now_sec,
                    self@.current_term_apr,
                ) {
                    r == Err::<u128, StakingError>(StakingError::Overflow)
                } else if cd.accrued_interest + interest > u128::MAX {
                    r == Err::<u128, StakingError>(StakingError::Overflow)
                } else {
                    r == Ok::<u128, StakingError>((cd.accrued_interest + interest) as u128)
                }
            }),
    {
        let user = self.internal_unwrap_user_or_default(user_id);
        let interest = match elapsed_interest(
            user.current_deposit.amount,
            user.current_deposit.last_stake_time,
            now_sec,
            self.current_term_apr,
        ) {
            Ok(v) => v,
            Err(e) => {
                return Err(e);
            },
        };
        match user.current_deposit.accrued_interest.checked_add(interest) {
            Some(v) => Ok(v),
            None => Err(StakingError::Overflow),
        }
    }

    /// When one account's pending withdrawal unlocks: zero when no unstake
    /// is pending, otherwise the unstake time plus the time-lock.
    pub fn get_user_withdrawable_time(&self, user_id: &String) -> (r: Result<u64, StakingError>)
        requires
            self.wf(),
        ensures
            ({
                let lu = user_or_default(self@.users, user_id@).current_deposit.last_unstake_time;
                if lu == 0 {
                    r == Ok::<u64, StakingError>(0)
                } else if lu + ONE_DAY_IN_SECS * (self@.current_withdraw_delay as u64)
                    > u64::MAX {
                    r == Err::<u64, StakingError>(StakingError::Overflow)
                } else {
                    r == Ok::<u64, StakingError>(
                        (lu + ONE_DAY_IN_SECS * (self@.current_withdraw_delay as u64)) as u64,
                    )
                }
            }),
    {
        let user = self.internal_unwrap_user_or_default(user_id);
        if user.current_deposit.last_unstake_time == 0 {
            return Ok(0);
        }
        proof {
            assert(ONE_DAY_IN_SECS * (self.current_withdraw_delay as u64) <= 86400
                * 0xffff_ffffu64) by (nonlinear_arith)
                requires
                    self.current_withdraw_delay <= 0xffff_ffffu32,
            ;
        }
        let delay_secs: u64 = ONE_DAY_IN_SECS * (self.current_withdraw_delay as u64);
        match user.current_deposit.last_unstake_time.checked_add(delay_secs) {
            Some(v) => Ok(v),
            None => Err(StakingError::Overflow),
        }
    }
}

} // verus!
