//! Contract-wide state migration.
//!
//! The persisted layout of the previous release lacked the two
//! unstaked-interest running totals. Migration is a pure transform from the
//! old layout to the current one: every surviving field is copied unchanged
//! and each newly introduced counter starts at its documented default of
//! zero. It may only run as the contract calling itself; decoding the old
//! layout from storage (and failing fatally when that is impossible) is the
//! host-facing layer's part.

use vstd::prelude::*;

use crate::errors::StakingError;
use crate::user::UserStore;
use crate::{Contract, ContractV};

verus! {

/// The aggregate layout persisted by the previous release.
pub struct OldState {
    pub owner_id: String,
    pub token_account_id: String,
    pub users: UserStore,
    pub current_switch: bool,
    pub current_term_apr: u32,
    pub fixed_switch: bool,
    pub fixed_term_apr: u32,
    pub current_withdraw_delay: u32,
    pub acc_current_staked_amount: u128,
    pub total_current_staked_amount: u128,
    pub total_current_unstaked_amount: u128,
    pub acc_fixed_staked_amount: u128,
    pub total_fixed_staked_amount: u128,
    pub total_fixed_unstaked_amount: u128,
}

impl Contract {
    /// Reinterprets the previous layout into the current one: every old
    /// field survives unchanged, the new unstaked-interest counters start at
    /// zero. Only the contract acting on itself may run it.
    pub fn migrate(
        old_state: OldState,
        predecessor_id: &String,
        current_account_id: &String,
    ) -> (r: Result<Contract, StakingError>)
        ensures
            predecessor_id@ != current_account_id@ ==> r == Err::<Contract, StakingError>(
                StakingError::NotAllowed,
            ),
            predecessor_id@ == current_account_id@ ==> (r matches Ok(c) && c@ == (ContractV {
                owner_id: old_state.owner_id@,
                token_account_id: old_state.token_account_id@,
                users: old_state.users@,
                current_switch: old_state.current_switch,
                current_term_apr: old_state.current_term_apr,
                fixed_switch: old_state.fixed_switch,
                fixed_term_apr: old_state.fixed_term_apr,
                current_withdraw_delay: old_state.current_withdraw_delay,
                acc_current_staked_amount: old_state.acc_current_staked_amount,
                total_current_staked_amount: old_state.total_current_staked_amount,
                total_current_unstaked_amount: old_state.total_current_unstaked_amount,
                total_current_unstaked_interest: 0,
                acc_fixed_staked_amount: old_state.acc_fixed_staked_amount,
                total_fixed_staked_amount: old_state.total_fixed_staked_amount,
                total_fixed_unstaked_amount: old_state.total_fixed_unstaked_amount,
                total_fixed_unstaked_interest: 0,
            }) && (old_state.users.wf() ==> c.wf())),
    {
        if *predecessor_id != *current_account_id {
            return Err(StakingError::NotAllowed);
        }
        let c = Contract {
            owner_id: old_state.owner_id,
            token_account_id: old_state.token_account_id,
            users: old_state.users,
            current_switch: old_state.current_switch,
            current_term_apr: old_state.current_term_apr,
            fixed_switch: old_state.fixed_switch,
            fixed_term_apr: old_state.fixed_term_apr,
            current_withdraw_delay: old_state.current_withdraw_delay,
            acc_current_staked_amount: old_state.acc_current_staked_amount,
            total_current_staked_amount: old_state.total_current_staked_amount,
            total_current_unstaked_amount: old_state.total_current_unstaked_amount,
            total_current_unstaked_interest: 0,
            acc_fixed_staked_amount: old_state.acc_fixed_staked_amount,
            total_fixed_staked_amount: old_state.total_fixed_staked_amount,
            total_fixed_unstaked_amount: old_state.total_fixed_unstaked_amount,
            total_fixed_unstaked_interest: 0,
        };
        proof {
            assert(c@ =~= (ContractV {
                owner_id: c.owner_id@,
                token_account_id: c.token_account_id@,
                users: c.users@,
                current_switch: c.current_switch,
                current_term_apr: c.current_term_apr,
                fixed_switch: c.fixed_switch,
                fixed_term_apr: c.fixed_term_apr,
                current_withdraw_delay: c.current_withdraw_delay,
                acc_current_staked_amount: c.acc_current_staked_amount,
                total_current_staked_amount: c.total_current_staked_amount,
                total_current_unstaked_amount: c.total_current_unstaked_amount,
                total_current_unstaked_interest: 0,
                acc_fixed_staked_amount: c.acc_fixed_staked_amount,
                total_fixed_staked_amount: c.total_fixed_staked_amount,
                total_fixed_unstaked_amount: c.total_fixed_unstaked_amount,
                total_fixed_unstaked_interest: 0,
            }));
        }
        Ok(c)
    }
}

} // verus!
