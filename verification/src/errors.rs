//! Failure kinds of the staking ledger.
//!
//! Precondition violations abort the caller's request with no state change;
//! `TotalStakedUnderflow` is an internal-consistency fault that the
//! conservation invariant rules out (see the lemmas in the crate root).

use vstd::prelude::*;

verus! {

#[derive(Clone, Copy, Debug, PartialEq, Eq, Structural)]
pub enum StakingError {
    /// An elapsed-time subtraction would go below zero: the clock reading
    /// handed in is earlier than the recorded stake time.
    TimeUnderflow,
    /// An unsigned computation would exceed its fixed width.
    Overflow,
    /// Unstake was called while the account has no current deposit.
    NoCurrentDeposit,
    /// Fixed-term unstake was called while the account has no deposit.
    NoFixedDeposit,
    /// Withdraw was called while the withdrawable amount is zero.
    WithdrawableAmountZero,
    /// Withdraw was called before any unstake.
    UnstakeRequired,
    /// Withdraw was called before the time-lock elapsed; carries the
    /// configured delay in whole days.
    TimeLockNotElapsed { delay_days: u32 },
    /// The aggregate staked counter would go negative. Internal
    /// consistency fault: unreachable while conservation holds.
    TotalStakedUnderflow,
    /// The caller is not permitted to perform this operation.
    NotAllowed,
    /// Exactly one yoctoNEAR must be attached to the call.
    OneYoctoRequired,
    /// A configuration parameter must be positive.
    NonPositiveParameter,
    /// The deposit notification came from a token this ledger does not serve.
    UnsupportedToken,
    /// The deposit notification message did not decode to a staking intent.
    InvalidMsg,
}

} // verus!
