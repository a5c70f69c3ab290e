//! The deposit-notification hook of the token collaborator.
//!
//! The token ledger notifies this contract of an incoming transfer together
//! with a message carrying the sender's staking intent. The host-facing
//! layer decodes the message and hands the intent in as a plain value
//! (`None` when it did not decode); the decision below is the ledger's:
//! stake when the intent names the current-term product and its switch is
//! on, otherwise refund the full amount.

use vstd::prelude::*;

use crate::errors::StakingError;
use crate::events::Event;
use crate::{spec_stake_current, Contract, ContractV};

verus! {

/// A decoded staking intent from the transfer message.
#[derive(Debug)]
pub enum TransferCallInfo {
    StakeInfo { staking_type: String, duration: Option<u32> },
}

/// Whether the intent asks for the current-term product while its switch is
/// on — the one combination that stakes the deposit instead of refunding it.
pub open spec fn stake_intent_accepted(c: ContractV, info: TransferCallInfo) -> bool {
    match info {
        TransferCallInfo::StakeInfo { staking_type, duration } => staking_type@
            == "current_deposit"@ && c.current_switch,
    }
}

impl Contract {
    /// Handles an incoming token transfer of `amount` from `sender_id`.
    /// Transfers from any account but the served token ledger are rejected,
    /// as is an undecodable message; a recognized current-term intent with
    /// the switch on stakes the amount (refund 0), anything else refunds the
    /// full amount and keeps nothing.
    pub fn ft_on_transfer(
        &mut self,
        predecessor_id: &String,
        sender_id: String,
        amount: u128,
        info: Option<TransferCallInfo>,
        now_sec: u64,
    ) -> (r: Result<(u128, Option<Event>), StakingError>)
        requires
            old(self).wf(),
        ensures
            final(self).wf(),
            match r {
                Ok((refund, ev)) => {
                    &&& predecessor_id@ == old(self)@.token_account_id
                    &&& info matches Some(i) && {
                        if stake_intent_accepted(old(self)@, i) {
                            &&& spec_stake_current(old(self)@, sender_id@, amount, now_sec)
                                == Ok::<ContractV, StakingError>(final(self)@)
                            &&& refund == 0
                            &&& (ev matches Some(Event::Stake {
                                user_id,
                                stake_type,
                                amount: staked,
                                duration,
                                time,
                            }) && user_id@ == sender_id@ && stake_type@ == "current_deposit"@
                                && staked == amount && duration == 0 && time == now_sec)
                        } else {
                            &&& refund == amount
                            &&& ev is None
                            &&& final(self)@ == old(self)@
                        }
                    }
                },
                Err(e) => {
                    &&& final(self)@ == old(self)@
                    &&& (e == StakingError::UnsupportedToken <==> predecessor_id@ != old(
                        self,
                    )@.token_account_id)
                    &&& (predecessor_id@ == old(self)@.token_account_id ==> ((e
                        == StakingError::InvalidMsg <==> info is None) && (info matches Some(i)
                        ==> stake_intent_accepted(old(self)@, i) && spec_stake_current(
                        old(self)@,
                        sender_id@,
                        amount,
                        now_sec,
                    ) == Err::<ContractV, StakingError>(e))))
                },
            },
    {
        if *predecessor_id != self.token_account_id {
            return Err(StakingError::UnsupportedToken);
        }
        let info = match info {
            Some(i) => i,
            None => {
                return Err(StakingError::InvalidMsg);
            },
        };
        match info {
            TransferCallInfo::StakeInfo { staking_type, duration: _ } => {
                if staking_type == "current_deposit".to_string() && self.current_switch {
                    match self.stake_current(&sender_id, amount, now_sec) {
                        Ok(ev) => Ok((0, Some(ev))),
                        Err(e) => Err(e),
                    }
                } else {
                    Ok((amount, None))
                }
            },
        }
    }
}

} // verus!
