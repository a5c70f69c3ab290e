//! Owner-gated configuration: switches, rates, time-lock, ownership.
//!
//! Each setter takes the caller identity as a plain value; the owner gate
//! and the parameter checks are part of the contract. A refused call leaves
//! the state exactly as it was.

use vstd::prelude::*;

use crate::errors::StakingError;
use crate::{Contract, ContractV, ONE_YOCTO_NEAR};

verus! {

impl Contract {
    /// The owner gate: succeeds exactly when the caller is the owner.
    pub fn assert_owner(&self, predecessor_id: &String) -> (r: Result<(), StakingError>)
        ensures
            predecessor_id@ == self@.owner_id ==> r == Ok::<(), StakingError>(()),
            predecessor_id@ != self@.owner_id ==> r == Err::<(), StakingError>(
                StakingError::NotAllowed,
            ),
    {
        if *predecessor_id == self.owner_id {
            Ok(())
        } else {
            Err(StakingError::NotAllowed)
        }
    }

    /// Transfers ownership. Requires exactly one yoctoNEAR attached (so the
    /// call cannot happen by accident) and the current owner as caller.
    pub fn set_owner(
        &mut self,
        predecessor_id: &String,
        attached_yocto: u128,
        owner_id: String,
    ) -> (r: Result<(), StakingError>)
        ensures
            attached_yocto != ONE_YOCTO_NEAR ==> r == Err::<(), StakingError>(
                StakingError::OneYoctoRequired,
            ) && final(self)@ == old(self)@,
            attached_yocto == ONE_YOCTO_NEAR && predecessor_id@ != old(self)@.owner_id ==> r
                == Err::<(), StakingError>(StakingError::NotAllowed) && final(self)@ == old(self)@,
            attached_yocto == ONE_YOCTO_NEAR && predecessor_id@ == old(self)@.owner_id ==> r
                == Ok::<(), StakingError>(()) && final(self)@ == (ContractV {
                owner_id: owner_id@,
                ..old(self)@
            }),
    {
        if attached_yocto != ONE_YOCTO_NEAR {
            return Err(StakingError::OneYoctoRequired);
        }
        match self.assert_owner(predecessor_id) {
            Ok(_) => {},
            Err(e) => {
                return Err(e);
            },
        }
        self.owner_id = owner_id;
        proof {
            assert(self@ =~= (ContractV { owner_id: self.owner_id@, ..old(self)@ }));
        }
        Ok(())
    }

    /// Turns the current-term product on or off. Owner only.
    pub fn set_current_switch(&mut self, predecessor_id: &String, switch: bool) -> (r: Result<
        (),
        StakingError,
    >)
        ensures
            predecessor_id@ != old(self)@.owner_id ==> r == Err::<(), StakingError>(
                StakingError::NotAllowed,
            ) && final(self)@ == old(self)@,
            predecessor_id@ == old(self)@.owner_id ==> r == Ok::<(), StakingError>(())
                && final(self)@ == (ContractV { current_switch: switch, ..old(self)@ }),
    {
        match self.assert_owner(predecessor_id) {
            Ok(_) => {},
            Err(e) => {
                return Err(e);
            },
        }
        self.current_switch = switch;
        proof {
            assert(self@ =~= (ContractV { current_switch: switch, ..old(self)@ }));
        }
        Ok(())
    }

    /// Turns the fixed-term product on or off. Owner only.
    pub fn set_fixed_switch(&mut self, predecessor_id: &String, switch: bool) -> (r: Result<
        (),
        StakingError,
    >)
        ensures
            predecessor_id@ != old(self)@.owner_id ==> r == Err::<(), StakingError>(
                StakingError::NotAllowed,
            ) && final(self)@ == old(self)@,
            predecessor_id@ == old(self)@.owner_id ==> r == Ok::<(), StakingError>(())
                && final(self)@ == (ContractV { fixed_switch: switch, ..old(self)@ }),
    {
        match self.assert_owner(predecessor_id) {
            Ok(_) => {},
            Err(e) => {
                return Err(e);
            },
        }
        self.fixed_switch = switch;
        proof {
            assert(self@ =~= (ContractV { fixed_switch: switch, ..old(self)@ }));
        }
        Ok(())
    }

    /// Sets the current-term annual rate, in parts per 10000. Owner only;
    /// the rate must be positive.
    pub fn set_current_apr(&mut self, predecessor_id: &String, apr: u32) -> (r: Result<
        (),
        StakingError,
    >)
        ensures
            predecessor_id@ != old(self)@.owner_id ==> r == Err::<(), StakingError>(
                StakingError::NotAllowed,
            ) && final(self)@ == old(self)@,
            predecessor_id@ == old(self)@.owner_id && apr == 0 ==> r == Err::<(), StakingError>(
                StakingError::NonPositiveParameter,
            ) && final(self)@ == old(self)@,
            predecessor_id@ == old(self)@.owner_id && apr > 0 ==> r == Ok::<(), StakingError>(())
                && final(self)@ == (ContractV { current_term_apr: apr, ..old(self)@ }),
    {
        match self.assert_owner(predecessor_id) {
            Ok(_) => {},
            Err(e) => {
                return Err(e);
            },
        }
        if apr == 0 {
            return Err(StakingError::NonPositiveParameter);
        }
        self.current_term_apr = apr;
        proof {
            assert(self@ =~= (ContractV { current_term_apr: apr, ..old(self)@ }));
        }
        Ok(())
    }

    /// Sets the withdrawal time-lock in whole days. Owner only; the delay
    /// must be positive.
    pub fn set_current_withdraw_delay(&mut self, predecessor_id: &String, delay_in_days: u32) -> (r:
        Result<(), StakingError>)
        ensures
            predecessor_id@ != old(self)@.owner_id ==> r == Err::<(), StakingError>(
                StakingError::NotAllowed,
            ) && final(self)@ == old(self)@,
            predecessor_id@ == old(self)@.owner_id && delay_in_days == 0 ==> r == Err::<
                (),
                StakingError,
            >(StakingError::NonPositiveParameter) && final(self)@ == old(self)@,
            predecessor_id@ == old(self)@.owner_id && delay_in_days > 0 ==> r == Ok::<
                (),
                StakingError,
            >(()) && final(self)@ == (ContractV {
                current_withdraw_delay: delay_in_days,
                ..old(self)@
            }),
    {
        match self.assert_owner(predecessor_id) {
            Ok(_) => {},
            Err(e) => {
                return Err(e);
            },
        }
        if delay_in_days == 0 {
            return Err(StakingError::NonPositiveParameter);
        }
        self.current_withdraw_delay = delay_in_days;
        proof {
            assert(self@ =~= (ContractV {
                current_withdraw_delay: delay_in_days,
                ..old(self)@
            }));
        }
        Ok(())
    }
}

} // verus!
