//! Events that the state transitions report.
//!
//! A transition returns the event it wants published; formatting and log
//! emission belong to the host-facing layer, not to the ledger logic.

use vstd::prelude::*;

verus! {

#[derive(Debug, PartialEq, Eq)]
pub enum Event {
    Stake { user_id: String, stake_type: String, amount: u128, duration: u32, time: u64 },
    Unstake { user_id: String, unstake_type: String, amount: u128, time: u64 },
    Withdraw { user_id: String, amount: u128, time: u64 },
}

} // verus!
