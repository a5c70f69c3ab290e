//! Accounting core of a token-staking ledger.
//!
//! Tracks, per account, deposited principal, accrued interest and pending
//! withdrawals; coordinates the two-phase unstake -> delay -> withdraw state
//! machine together with the compensating rollback that runs when the
//! external token transfer fails; and reinterprets the previous persisted
//! aggregate layout into the current one.
//!
//! Every transition takes the caller identity and the current time as plain
//! values: the host-facing layer reads them from the environment, hands them
//! in, performs the external transfer the ledger asks for, and reports the
//! outcome back. A transition either returns `Ok` with the event to publish
//! (or the transfer to perform) or returns an error and leaves the state
//! exactly as it was.

use vstd::prelude::*;

pub mod errors;
pub mod events;
pub mod ft_token_receiver;
pub mod migrations;
pub mod owner;
pub mod user;
pub mod utils;
pub mod view;

use crate::errors::StakingError;
use crate::events::Event;
use crate::user::{
    contains_key, default_user, distinct_keys, key_idx, lemma_total_staked_at_least,
    lemma_total_staked_put, spec_get, spec_put, total_staked, user_or_default, CurrentDepositTerm,
    UserStore, UserV,
};
use crate::utils::{interest_mul_fits, spec_elapsed_interest};

verus! {

/// Seconds in one day.
pub const ONE_DAY_IN_SECS: u64 = 24 * 60 * 60;

/// Annual interest rates are expressed as parts per 10000 of the principal.
pub const TERM_APR_DEMONINATOR: u32 = 10000;

/// Default annual rate for fixed-term deposits, in parts per 10000.
pub const DEFAULT_FIXED_TERM_APR: u32 = 6000;

/// Default annual rate for current-term deposits, in parts per 10000.
pub const DEFAULT_CURRENT_TERM_APR: u32 = 3200;

/// Default withdrawal time-lock, in whole days.
pub const DEFAULT_WITHDRAW_DAYS: u32 = 21;

/// Smallest non-zero attached deposit the host's call convention knows.
pub const ONE_YOCTO_NEAR: u128 = 1;

/// The contract-wide aggregate state.
pub struct Contract {
    /// The account allowed to change switches, rates and ownership.
    pub owner_id: String,
    /// The external fungible-token ledger this contract serves.
    pub token_account_id: String,
    /// Per-account ledger entries.
    pub users: UserStore,
    pub current_switch: bool,
    pub current_term_apr: u32,
    pub fixed_switch: bool,
    pub fixed_term_apr: u32,
    /// Withdrawal time-lock in whole days.
    pub current_withdraw_delay: u32,
    /// Historical total of all current-term principal ever staked.
    pub acc_current_staked_amount: u128,
    /// Sum of all accounts' live current-term principal.
    pub total_current_staked_amount: u128,
    /// Historical total of unstaked current-term principal.
    pub total_current_unstaked_amount: u128,
    /// Historical total of unstaked current-term interest.
    pub total_current_unstaked_interest: u128,
    pub acc_fixed_staked_amount: u128,
    pub total_fixed_staked_amount: u128,
    pub total_fixed_unstaked_amount: u128,
    pub total_fixed_unstaked_interest: u128,
}

/// The mathematical value of a [`Contract`].
#[verifier::ext_equal]
pub ghost struct ContractV {
    pub owner_id: Seq<char>,
    pub token_account_id: Seq<char>,
    pub users: Seq<(Seq<char>, UserV)>,
    pub current_switch: bool,
    pub current_term_apr: u32,
    pub fixed_switch: bool,
    pub fixed_term_apr: u32,
    pub current_withdraw_delay: u32,
    pub acc_current_staked_amount: u128,
    pub total_current_staked_amount: u128,
    pub total_current_unstaked_amount: u128,
    pub total_current_unstaked_interest: u128,
    pub acc_fixed_staked_amount: u128,
    pub total_fixed_staked_amount: u128,
    pub total_fixed_unstaked_amount: u128,
    pub total_fixed_unstaked_interest: u128,
}

impl View for Contract {
    type V = ContractV;

    open spec fn view(&self) -> ContractV {
        ContractV {
            owner_id: self.owner_id@,
            token_account_id: self.token_account_id@,
            users: self.users@,
            current_switch: self.current_switch,
            current_term_apr: self.current_term_apr,
            fixed_switch: self.fixed_switch,
            fixed_term_apr: self.fixed_term_apr,
            current_withdraw_delay: self.current_withdraw_delay,
            acc_current_staked_amount: self.acc_current_staked_amount,
            total_current_staked_amount: self.total_current_staked_amount,
            total_current_unstaked_amount: self.total_current_unstaked_amount,
            total_current_unstaked_interest: self.total_current_unstaked_interest,
            acc_fixed_staked_amount: self.acc_fixed_staked_amount,
            total_fixed_staked_amount: self.total_fixed_staked_amount,
            total_fixed_unstaked_amount: self.total_fixed_unstaked_amount,
            total_fixed_unstaked_interest: self.total_fixed_unstaked_interest,
        }
    }
}

impl Contract {
    /// Validity of the account store: one entry per account.
    pub open spec fn wf(&self) -> bool {
        self.users.wf()
    }
}

/// Conservation: the aggregate staked counter equals the sum over all
/// accounts of their live current-term principal.
pub open spec fn conserved(c: ContractV) -> bool {
    &&& distinct_keys(c.users)
    &&& c.total_current_staked_amount == total_staked(c.users)
}

/// The state a successful `stake_current` leads to, or the error it reports.
///
/// Interest accrued since the last stake is rolled into `accrued_interest`,
/// the new principal joins the deposit, and the aggregate counters grow by
/// the staked amount.
pub open spec fn spec_stake_current(
    c: ContractV,
    sender: Seq<char>,
    amount: u128,
    now_sec: u64,
) -> Result<ContractV, StakingError> {
    let u = user_or_default(c.users, sender);
    let cd = u.current_deposit;
    if now_sec < cd.last_stake_time {
        Err(StakingError::TimeUnderflow)
    } else if !interest_mul_fits(cd.amount, cd.last_stake_time, now_sec, c.current_term_apr) {
        Err(StakingError::Overflow)
    } else {
        let interest = spec_elapsed_interest(cd.amount, cd.last_stake_time, now_sec, c.current_term_apr);
        if cd.accrued_interest + interest > u128::MAX || cd.amount + amount > u128::MAX
            || c.total_current_staked_amount + amount > u128::MAX
            || c.acc_current_staked_amount + amount > u128::MAX {
            Err(StakingError::Overflow)
        } else {
            let u2 = UserV {
                current_deposit: CurrentDepositTerm {
                    amount: (cd.amount + amount) as u128,
                    last_stake_time: now_sec,
                    last_unstake_time: cd.last_unstake_time,
                    accrued_interest: (cd.accrued_interest + interest) as u128,
                },
                ..u
            };
            Ok(
                ContractV {
                    users: spec_put(c.users, sender, u2),
                    total_current_staked_amount: (c.total_current_staked_amount + amount) as u128,
                    acc_current_staked_amount: (c.acc_current_staked_amount + amount) as u128,
                    ..c
                },
            )
        }
    }
}

impl Contract {
    /// A freshly deployed ledger: both products enabled, default rates and
    /// time-lock, every counter zero and no account touched.
    pub fn new(owner_id: String, token_account_id: String) -> (r: Self)
        ensures
            r@ == (ContractV {
                owner_id: owner_id@,
                token_account_id: token_account_id@,
                users: Seq::empty(),
                current_switch: true,
                current_term_apr: DEFAULT_CURRENT_TERM_APR,
                fixed_switch: true,
                fixed_term_apr: DEFAULT_FIXED_TERM_APR,
                current_withdraw_delay: DEFAULT_WITHDRAW_DAYS,
                acc_current_staked_amount: 0,
                total_current_staked_amount: 0,
                total_current_unstaked_amount: 0,
                total_current_unstaked_interest: 0,
                acc_fixed_staked_amount: 0,
                total_fixed_staked_amount: 0,
                total_fixed_unstaked_amount: 0,
                total_fixed_unstaked_interest: 0,
            }),
            r.wf(),
            conserved(r@),
    {
        let r = Contract {
            owner_id,
            token_account_id,
            users: UserStore::new(),
            current_switch: true,
            current_term_apr: DEFAULT_CURRENT_TERM_APR,
            fixed_switch: true,
            fixed_term_apr: DEFAULT_FIXED_TERM_APR,
            current_withdraw_delay: DEFAULT_WITHDRAW_DAYS,
            acc_current_staked_amount: 0,
            total_current_staked_amount: 0,
            total_current_unstaked_amount: 0,
            total_current_unstaked_interest: 0,
            acc_fixed_staked_amount: 0,
            total_fixed_staked_amount: 0,
            total_fixed_unstaked_amount: 0,
            total_fixed_unstaked_interest: 0,
        };
        proof {
            assert(r@ =~= (ContractV {
                owner_id: r.owner_id@,
                token_account_id: r.token_account_id@,
                users: Seq::empty(),
                current_switch: true,
                current_term_apr: DEFAULT_CURRENT_TERM_APR,
                fixed_switch: true,
                fixed_term_apr: DEFAULT_FIXED_TERM_APR,
                current_withdraw_delay: DEFAULT_WITHDRAW_DAYS,
                acc_current_staked_amount: 0,
                total_current_staked_amount: 0,
                total_current_unstaked_amount: 0,
                total_current_unstaked_interest: 0,
                acc_fixed_staked_amount: 0,
                total_fixed_staked_amount: 0,
                total_fixed_unstaked_amount: 0,
                total_fixed_unstaked_interest: 0,
            }));
        }
        r
    }

    /// Stakes `amount` for `sender_id`: rolls accrued interest forward to
    /// `now_sec`, adds the amount to the current deposit and to the aggregate
    /// counters. On an error nothing changes.
    pub fn stake_current(&mut self, sender_id: &String, amount: u128, now_sec: u64) -> (r: Result<
        Event,
        StakingError,
    >)
        requires
            old(self).wf(),
        ensures
            final(self).wf(),
            match r {
                Ok(ev) => {
                    &&& spec_stake_current(old(self)@, sender_id@, amount, now_sec) == Ok::<
                        ContractV,
                        StakingError,
                    >(final(self)@)
                    &&& ev matches Event::Stake {
                        user_id,
                        stake_type,
                        amount: staked,
                        duration,
                        time,
                    } && user_id@ == sender_id@ && stake_type@ == "current_deposit"@ && staked
                        == amount && duration == 0 && time == now_sec
                },
                Err(e) => {
                    &&& spec_stake_current(old(self)@, sender_id@, amount, now_sec) == Err::<
                        ContractV,
                        StakingError,
                    >(e)
                    &&& final(self)@ == old(self)@
                },
            },
    {
        let mut user = self.internal_unwrap_user_or_default(sender_id);
        let interest = match crate::utils::elapsed_interest(
            user.current_deposit.amount,
            user.current_deposit.last_stake_time,
            now_sec,
            self.current_term_apr,
        ) {
            Ok(v) => v,
            Err(e) => {
                return Err(e);
            },
        };
        let accrued = match user.current_deposit.accrued_interest.checked_add(interest) {
            Some(v) => v,
            None => {
                return Err(StakingError::Overflow);
            },
        };
        let new_amount = match user.current_deposit.amount.checked_add(amount) {
            Some(v) => v,
            None => {
                return Err(StakingError::Overflow);
            },
        };
        let new_total = match self.total_current_staked_amount.checked_add(amount) {
            Some(v) => v,
            None => {
                return Err(StakingError::Overflow);
            },
        };
        let new_acc = match self.acc_current_staked_amount.checked_add(amount) {
            Some(v) => v,
            None => {
                return Err(StakingError::Overflow);
            },
        };
        user.current_deposit.accrued_interest = accrued;
        user.current_deposit.amount = new_amount;
        user.current_deposit.last_stake_time = now_sec;
        self.total_current_staked_amount = new_total;
        self.acc_current_staked_amount = new_acc;
        self.internal_set_user(sender_id, user);
        proof {
            let s = spec_stake_current(old(self)@, sender_id@, amount, now_sec);
            assert(s is Ok);
            assert(self@ =~= s->Ok_0);
        }
        Ok(
            Event::Stake {
                user_id: sender_id.clone(),
                stake_type: "current_deposit".to_string(),
                amount,
                duration: 0,
                time: now_sec,
            },
        )
    }
}

/// The state a successful `unstake_current` leads to, or the error it
/// reports.
///
/// The full principal plus all interest (already accrued and newly elapsed)
/// moves into the withdrawable balance; the deposit and its accrued interest
/// are zeroed; the unstake timestamp is recorded; the aggregate counters move
/// the principal from staked to unstaked and add the interest to the
/// unstaked-interest total. `TotalStakedUnderflow` is the
/// internal-consistency fault a conserved state never reaches
/// (see [`lemma_conserved_no_internal_fault`]).
pub open spec fn spec_unstake_current(c: ContractV, caller: Seq<char>, now_sec: u64) -> Result<
    ContractV,
    StakingError,
> {
    let u = user_or_default(c.users, caller);
    let cd = u.current_deposit;
    if cd.amount == 0 {
        Err(StakingError::NoCurrentDeposit)
    } else if now_sec < cd.last_stake_time {
        Err(StakingError::TimeUnderflow)
    } else if !interest_mul_fits(cd.amount, cd.last_stake_time, now_sec, c.current_term_apr) {
        Err(StakingError::Overflow)
    } else {
        let interest = spec_elapsed_interest(cd.amount, cd.last_stake_time, now_sec, c.current_term_apr);
        let unstake_interest = cd.accrued_interest + interest;
        if unstake_interest > u128::MAX {
            Err(StakingError::Overflow)
        } else if u.withdrawable_amount + cd.amount + unstake_interest > u128::MAX {
            Err(StakingError::Overflow)
        } else if c.total_current_staked_amount < cd.amount {
            Err(StakingError::TotalStakedUnderflow)
        } else if c.total_current_unstaked_amount + cd.amount > u128::MAX {
            Err(StakingError::Overflow)
        } else if c.total_current_unstaked_interest + unstake_interest > u128::MAX {
            Err(StakingError::Overflow)
        } else {
            let u2 = UserV {
                withdrawable_amount: (u.withdrawable_amount + cd.amount + unstake_interest) as u128,
                current_deposit: CurrentDepositTerm {
                    amount: 0,
                    last_stake_time: cd.last_stake_time,
                    last_unstake_time: now_sec,
                    accrued_interest: 0,
                },
                ..u
            };
            Ok(
                ContractV {
                    users: spec_put(c.users, caller, u2),
                    total_current_staked_amount: (c.total_current_staked_amount - cd.amount) as u128,
                    total_current_unstaked_amount: (c.total_current_unstaked_amount
                        + cd.amount) as u128,
                    total_current_unstaked_interest: (c.total_current_unstaked_interest
                        + unstake_interest) as u128,
                    ..c
                },
            )
        }
    }
}

/// The state a successful `withdraw` leads to — withdrawable balance and
/// unstake timestamp optimistically zeroed — together with the amount to
/// transfer and the unstake timestamp the compensation path may need to
/// restore; or the error it reports. Success needs a positive withdrawable
/// balance, a recorded unstake, and strictly more time elapsed than the
/// time-lock.
pub open spec fn spec_withdraw(c: ContractV, caller: Seq<char>, now_sec: u64) -> Result<
    (ContractV, u128, u64),
    StakingError,
> {
    let u = user_or_default(c.users, caller);
    let cd = u.current_deposit;
    if u.withdrawable_amount == 0 {
        Err(StakingError::WithdrawableAmountZero)
    } else if cd.last_unstake_time == 0 {
        Err(StakingError::UnstakeRequired)
    } else if cd.last_unstake_time + ONE_DAY_IN_SECS * (c.current_withdraw_delay as u64)
        > u64::MAX {
        Err(StakingError::Overflow)
    } else if now_sec <= cd.last_unstake_time + ONE_DAY_IN_SECS * (
    c.current_withdraw_delay as u64) {
        Err(StakingError::TimeLockNotElapsed { delay_days: c.current_withdraw_delay })
    } else {
        let u2 = UserV {
            withdrawable_amount: 0,
            current_deposit: CurrentDepositTerm { last_unstake_time: 0, ..cd },
            ..u
        };
        Ok(
            (
                ContractV { users: spec_put(c.users, caller, u2), ..c },
                u.withdrawable_amount,
                cd.last_unstake_time,
            ),
        )
    }
}

/// The state the settlement continuation leads to. A reported success
/// confirms the optimistic zeroing: nothing changes. A reported failure
/// compensates: the zeroed withdrawable balance and unstake timestamp are
/// restored from the values the withdrawal carried.
pub open spec fn spec_on_transfer_complete(
    c: ContractV,
    receiver: Seq<char>,
    amount: u128,
    last_unstake_time: u64,
    success: bool,
) -> ContractV {
    if success {
        c
    } else {
        let u = user_or_default(c.users, receiver);
        let u2 = UserV {
            withdrawable_amount: amount,
            current_deposit: CurrentDepositTerm { last_unstake_time, ..u.current_deposit },
            ..u
        };
        ContractV { users: spec_put(c.users, receiver, u2), ..c }
    }
}

/// The external transfer a successful `withdraw` asks the host-facing layer
/// to perform, together with what the settlement continuation must echo back.
#[derive(Debug, PartialEq, Eq)]
pub struct WithdrawRequest {
    /// The account the tokens go to: the withdrawing caller.
    pub receiver_id: String,
    /// The whole withdrawable balance that was zeroed.
    pub amount: u128,
    /// The time the withdrawal was made.
    pub time: u64,
    /// The unstake timestamp that was zeroed, kept for compensation.
    pub last_unstake_time: u64,
}

impl Contract {
    /// Moves the caller's full current deposit plus all interest into the
    /// withdrawable balance and records the unstake time. On an error nothing
    /// changes; a second unstake with no intervening stake finds the deposit
    /// already zero and fails cleanly.
    pub fn unstake_current(&mut self, predecessor_id: &String, now_sec: u64) -> (r: Result<
        Event,
        StakingError,
    >)
        requires
            old(self).wf(),
        ensures
            final(self).wf(),
            match r {
                Ok(ev) => {
                    &&& spec_unstake_current(old(self)@, predecessor_id@, now_sec) == Ok::<
                        ContractV,
                        StakingError,
                    >(final(self)@)
                    &&& ev matches Event::Unstake { user_id, unstake_type, amount, time }
                        && user_id@ == predecessor_id@ && unstake_type@ == "current_deposit"@
                        && amount == user_or_default(
                        old(self)@.users,
                        predecessor_id@,
                    ).current_deposit.amount && time == now_sec
                },
                Err(e) => {
                    &&& spec_unstake_current(old(self)@, predecessor_id@, now_sec) == Err::<
                        ContractV,
                        StakingError,
                    >(e)
                    &&& final(self)@ == old(self)@
                },
            },
    {
        let mut user = self.internal_unwrap_user_or_default(predecessor_id);
        if user.current_deposit.amount == 0 {
            return Err(StakingError::NoCurrentDeposit);
        }
        let interest = match crate::utils::elapsed_interest(
            user.current_deposit.amount,
            user.current_deposit.last_stake_time,
            now_sec,
            self.current_term_apr,
        ) {
            Ok(v) => v,
            Err(e) => {
                return Err(e);
            },
        };
        let unstake_amount = user.current_deposit.amount;
        let unstake_interest = match user.current_deposit.accrued_interest.checked_add(interest) {
            Some(v) => v,
            None => {
                return Err(StakingError::Overflow);
            },
        };
        let w1 = match user.withdrawable_amount.checked_add(unstake_amount) {
            Some(v) => v,
            None => {
                return Err(StakingError::Overflow);
            },
        };
        let w2 = match w1.checked_add(unstake_interest) {
            Some(v) => v,
            None => {
                return Err(StakingError::Overflow);
            },
        };
        if self.total_current_staked_amount < unstake_amount {
            return Err(StakingError::TotalStakedUnderflow);
        }
        let new_total = self.total_current_staked_amount - unstake_amount;
        let new_unstaked = match self.total_current_unstaked_amount.checked_add(unstake_amount) {
            Some(v) => v,
            None => {
                return Err(StakingError::Overflow);
            },
        };
        let new_unstaked_interest = match self.total_current_unstaked_interest.checked_add(
            unstake_interest,
        ) {
            Some(v) => v,
            None => {
                return Err(StakingError::Overflow);
            },
        };
        user.withdrawable_amount = w2;
        user.current_deposit.amount = 0;
        user.current_deposit.accrued_interest = 0;
        user.current_deposit.last_unstake_time = now_sec;
        self.total_current_staked_amount = new_total;
        self.total_current_unstaked_amount = new_unstaked;
        self.total_current_unstaked_interest = new_unstaked_interest;
        self.internal_set_user(predecessor_id, user);
        proof {
            let s = spec_unstake_current(old(self)@, predecessor_id@, now_sec);
            assert(s is Ok);
            assert(self@ =~= s->Ok_0);
        }
        Ok(
            Event::Unstake {
                user_id: predecessor_id.clone(),
                unstake_type: "current_deposit".to_string(),
                amount: unstake_amount,
                time: now_sec,
            },
        )
    }

    /// The fixed-term unstake slot: it validates its inputs the way the
    /// current-term one does and changes nothing, since the fixed-term
    /// product's transition rules are not defined yet.
    pub fn unstake_fixed(&mut self, predecessor_id: &String, now_sec: u64) -> (r: Result<
        (),
        StakingError,
    >)
        requires
            old(self).wf(),
        ensures
            final(self)@ == old(self)@,
            final(self).wf(),
            ({
                let cd = user_or_default(old(self)@.users, predecessor_id@).current_deposit;
                if cd.amount == 0 {
                    r == Err::<(), StakingError>(StakingError::NoFixedDeposit)
                } else if now_sec < cd.last_stake_time {
                    r == Err::<(), StakingError>(StakingError::TimeUnderflow)
                } else {
                    r == Ok::<(), StakingError>(())
                }
            }),
    {
        let user = self.internal_unwrap_user_or_default(predecessor_id);
        if user.current_deposit.amount == 0 {
            return Err(StakingError::NoFixedDeposit);
        }
        if now_sec < user.current_deposit.last_stake_time {
            return Err(StakingError::TimeUnderflow);
        }
        Ok(())
    }

    /// Optimistically completes a withdrawal: checks the time-lock, zeroes
    /// the withdrawable balance and the unstake timestamp, and returns the
    /// external transfer for the host-facing layer to perform. A second call
    /// before settlement finds the balance already zero and fails, which
    /// keeps at most one withdrawal in flight.
    pub fn withdraw(&mut self, predecessor_id: &String, now_sec: u64) -> (r: Result<
        WithdrawRequest,
        StakingError,
    >)
        requires
            old(self).wf(),
        ensures
            final(self).wf(),
            match r {
                Ok(req) => {
                    &&& spec_withdraw(old(self)@, predecessor_id@, now_sec) == Ok::<
                        (ContractV, u128, u64),
                        StakingError,
                    >((final(self)@, req.amount, req.last_unstake_time))
                    &&& req.receiver_id@ == predecessor_id@
                    &&& req.time == now_sec
                },
                Err(e) => {
                    &&& spec_withdraw(old(self)@, predecessor_id@, now_sec) == Err::<
                        (ContractV, u128, u64),
                        StakingError,
                    >(e)
                    &&& final(self)@ == old(self)@
                },
            },
    {
        let mut user = self.internal_unwrap_user_or_default(predecessor_id);
        if user.withdrawable_amount == 0 {
            return Err(StakingError::WithdrawableAmountZero);
        }
        if user.current_deposit.last_unstake_time == 0 {
            return Err(StakingError::UnstakeRequired);
        }
        proof {
            assert(ONE_DAY_IN_SECS * (self.current_withdraw_delay as u64) <= 86400 * 0xffff_ffffu64)
                by (nonlinear_arith)
                requires
                    self.current_withdraw_delay <= 0xffff_ffffu32,
            ;
        }
        let delay_secs: u64 = ONE_DAY_IN_SECS * (self.current_withdraw_delay as u64);
        let unlock_time = match user.current_deposit.last_unstake_time.checked_add(delay_secs) {
            Some(v) => v,
            None => {
                return Err(StakingError::Overflow);
            },
        };
        if now_sec <= unlock_time {
            return Err(
                StakingError::TimeLockNotElapsed { delay_days: self.current_withdraw_delay },
            );
        }
        let withdraw_amount = user.withdrawable_amount;
        let last_unstake_time = user.current_deposit.last_unstake_time;
        user.withdrawable_amount = 0;
        user.current_deposit.last_unstake_time = 0;
        self.internal_set_user(predecessor_id, user);
        proof {
            let s = spec_withdraw(old(self)@, predecessor_id@, now_sec);
            assert(s is Ok);
            assert(self@ =~= s->Ok_0.0);
        }
        Ok(
            WithdrawRequest {
                receiver_id: predecessor_id.clone(),
                amount: withdraw_amount,
                time: now_sec,
                last_unstake_time,
            },
        )
    }

    /// The settlement continuation: the host invokes it exactly once with the
    /// external transfer's outcome. Success confirms the optimistic zeroing
    /// and reports the withdraw event; failure restores the withdrawable
    /// balance and unstake timestamp that the withdrawal carried.
    pub fn on_transfer_complete(
        &mut self,
        receiver_id: &String,
        amount: u128,
        timestamp: u64,
        last_unstake_time: u64,
        success: bool,
    ) -> (r: Option<Event>)
        requires
            old(self).wf(),
        ensures
            final(self).wf(),
            final(self)@ == spec_on_transfer_complete(
                old(self)@,
                receiver_id@,
                amount,
                last_unstake_time,
                success,
            ),
            success ==> (r matches Some(Event::Withdraw { user_id, amount: transferred, time })
                && user_id@ == receiver_id@ && transferred == amount && time == timestamp),
            !success ==> r is None,
    {
        if success {
            proof {
                assert(self@ =~= spec_on_transfer_complete(
                    old(self)@,
                    receiver_id@,
                    amount,
                    last_unstake_time,
                    true,
                ));
            }
            Some(Event::Withdraw { user_id: receiver_id.clone(), amount, time: timestamp })
        } else {
            let mut user = self.internal_unwrap_user_or_default(receiver_id);
            user.withdrawable_amount = amount;
            user.current_deposit.last_unstake_time = last_unstake_time;
            self.internal_set_user(receiver_id, user);
            proof {
                assert(self@ =~= spec_on_transfer_complete(
                    old(self)@,
                    receiver_id@,
                    amount,
                    last_unstake_time,
                    false,
                ));
            }
            None
        }
    }

    /// The fixed-term stake slot: it only reports the event, since the
    /// fixed-term product's transition rules are not defined yet. The state
    /// does not change.
    pub fn stake_fixed(
        &mut self,
        sender_id: &String,
        amount: u128,
        duration: u32,
        now_sec: u64,
    ) -> (ev: Event)
        requires
            old(self).wf(),
        ensures
            final(self)@ == old(self)@,
            final(self).wf(),
            ev matches Event::Stake { user_id, stake_type, amount: staked, duration: d, time }
                && user_id@ == sender_id@ && stake_type@ == "fixed_deposit"@ && staked == amount
                && d == duration && time == now_sec,
    {
        let _user = self.internal_unwrap_user_or_default(sender_id);
        Event::Stake {
            user_id: sender_id.clone(),
            stake_type: "fixed_deposit".to_string(),
            amount,
            duration,
            time: now_sec,
        }
    }
}

/// Conservation is established at deployment (see [`Contract::new`]) and
/// preserved by staking: the aggregate counter and the per-account sum grow
/// by the same amount.
pub proof fn lemma_stake_current_preserves_conservation(
    c: ContractV,
    sender: Seq<char>,
    amount: u128,
    now_sec: u64,
)
    requires
        conserved(c),
        spec_stake_current(c, sender, amount, now_sec) is Ok,
    ensures
        conserved(spec_stake_current(c, sender, amount, now_sec)->Ok_0),
{
    let c2 = spec_stake_current(c, sender, amount, now_sec)->Ok_0;
    let u = user_or_default(c.users, sender);
    let cd = u.current_deposit;
    let interest = spec_elapsed_interest(cd.amount, cd.last_stake_time, now_sec, c.current_term_apr);
    let u2 = UserV {
        current_deposit: CurrentDepositTerm {
            amount: (cd.amount + amount) as u128,
            last_stake_time: now_sec,
            last_unstake_time: cd.last_unstake_time,
            accrued_interest: (cd.accrued_interest + interest) as u128,
        },
        ..u
    };
    lemma_total_staked_put(c.users, sender, u2);
    assert(c2.users == spec_put(c.users, sender, u2));
}

/// Conservation is preserved by unstaking: the aggregate counter and the
/// per-account sum shrink by the same principal.
pub proof fn lemma_unstake_current_preserves_conservation(
    c: ContractV,
    caller: Seq<char>,
    now_sec: u64,
)
    requires
        conserved(c),
        spec_unstake_current(c, caller, now_sec) is Ok,
    ensures
        conserved(spec_unstake_current(c, caller, now_sec)->Ok_0),
{
    let c2 = spec_unstake_current(c, caller, now_sec)->Ok_0;
    let u = user_or_default(c.users, caller);
    let cd = u.current_deposit;
    let interest = spec_elapsed_interest(cd.amount, cd.last_stake_time, now_sec, c.current_term_apr);
    let unstake_interest = cd.accrued_interest + interest;
    let u2 = UserV {
        withdrawable_amount: (u.withdrawable_amount + cd.amount + unstake_interest) as u128,
        current_deposit: CurrentDepositTerm {
            amount: 0,
            last_stake_time: cd.last_stake_time,
            last_unstake_time: now_sec,
            accrued_interest: 0,
        },
        ..u
    };
    lemma_total_staked_put(c.users, caller, u2);
    assert(c2.users == spec_put(c.users, caller, u2));
}

/// Conservation is preserved by a withdrawal: it moves nothing in or out of
/// the current deposits.
pub proof fn lemma_withdraw_preserves_conservation(c: ContractV, caller: Seq<char>, now_sec: u64)
    requires
        conserved(c),
        spec_withdraw(c, caller, now_sec) is Ok,
    ensures
        conserved(spec_withdraw(c, caller, now_sec)->Ok_0.0),
{
    let c2 = spec_withdraw(c, caller, now_sec)->Ok_0.0;
    let u = user_or_default(c.users, caller);
    let u2 = UserV {
        withdrawable_amount: 0,
        current_deposit: CurrentDepositTerm { last_unstake_time: 0, ..u.current_deposit },
        ..u
    };
    lemma_total_staked_put(c.users, caller, u2);
    assert(c2.users == spec_put(c.users, caller, u2));
}

/// Conservation is preserved by the settlement continuation: confirming
/// changes nothing, and compensating restores only the withdrawable balance
/// and the unstake timestamp, not the deposit.
pub proof fn lemma_on_transfer_complete_preserves_conservation(
    c: ContractV,
    receiver: Seq<char>,
    amount: u128,
    last_unstake_time: u64,
    success: bool,
)
    requires
        conserved(c),
    ensures
        conserved(spec_on_transfer_complete(c, receiver, amount, last_unstake_time, success)),
{
    if !success {
        let u = user_or_default(c.users, receiver);
        let u2 = UserV {
            withdrawable_amount: amount,
            current_deposit: CurrentDepositTerm { last_unstake_time, ..u.current_deposit },
            ..u
        };
        lemma_total_staked_put(c.users, receiver, u2);
    }
}

/// In a conserved state the internal-consistency fault is unreachable: no
/// account's principal exceeds the aggregate staked counter, so an unstake
/// can never drive it negative.
pub proof fn lemma_conserved_no_internal_fault(c: ContractV, caller: Seq<char>, now_sec: u64)
    requires
        conserved(c),
    ensures
        spec_unstake_current(c, caller, now_sec) != Err::<ContractV, StakingError>(
            StakingError::TotalStakedUnderflow,
        ),
{
    if contains_key(c.users, caller) {
        lemma_total_staked_at_least(c.users, key_idx(c.users, caller));
    }
}

/// Unstaking twice with no intervening stake is an idempotent no-op: the
/// first call zeroes the deposit, so the second finds nothing to unstake and
/// fails with the precondition error, changing nothing (an erring transition
/// leaves the state as it was).
pub proof fn lemma_double_unstake_fails(c: ContractV, caller: Seq<char>, t1: u64, t2: u64)
    requires
        distinct_keys(c.users),
        spec_unstake_current(c, caller, t1) is Ok,
    ensures
        spec_unstake_current(spec_unstake_current(c, caller, t1)->Ok_0, caller, t2) == Err::<
            ContractV,
            StakingError,
        >(StakingError::NoCurrentDeposit),
{
    let c1 = spec_unstake_current(c, caller, t1)->Ok_0;
    let u = user_or_default(c.users, caller);
    let cd = u.current_deposit;
    let interest = spec_elapsed_interest(cd.amount, cd.last_stake_time, t1, c.current_term_apr);
    let unstake_interest = cd.accrued_interest + interest;
    let u2 = UserV {
        withdrawable_amount: (u.withdrawable_amount + cd.amount + unstake_interest) as u128,
        current_deposit: CurrentDepositTerm {
            amount: 0,
            last_stake_time: cd.last_stake_time,
            last_unstake_time: t1,
            accrued_interest: 0,
        },
        ..u
    };
    lemma_total_staked_put(c.users, caller, u2);
    assert(c1.users == spec_put(c.users, caller, u2));
    assert(spec_get(c1.users, caller) == Some(u2));
}

/// Compensation correctness. After a successful withdrawal, a reported
/// transfer failure restores the whole pre-withdrawal state — the zeroed
/// withdrawable balance and unstake timestamp come back exactly — while a
/// reported success leaves them zeroed, confirming the optimistic commit.
pub proof fn lemma_compensation_restores(c: ContractV, caller: Seq<char>, now_sec: u64)
    requires
        distinct_keys(c.users),
        spec_withdraw(c, caller, now_sec) is Ok,
    ensures
        ({
            let (c1, amount, t) = spec_withdraw(c, caller, now_sec)->Ok_0;
            spec_on_transfer_complete(c1, caller, amount, t, false) == c
        }),
        ({
            let (c1, amount, t) = spec_withdraw(c, caller, now_sec)->Ok_0;
            spec_on_transfer_complete(c1, caller, amount, t, true) == c1
        }),
{
    let (c1, amount, t) = spec_withdraw(c, caller, now_sec)->Ok_0;
    let u = user_or_default(c.users, caller);
    assert(contains_key(c.users, caller)) by {
        if !contains_key(c.users, caller) {
            assert(u == default_user());
        }
    }
    let k = key_idx(c.users, caller);
    assert(0 <= k < c.users.len() && c.users[k].0 == caller);
    let u2 = UserV {
        withdrawable_amount: 0,
        current_deposit: CurrentDepositTerm { last_unstake_time: 0, ..u.current_deposit },
        ..u
    };
    lemma_total_staked_put(c.users, caller, u2);
    assert(c1.users == spec_put(c.users, caller, u2));
    assert(spec_get(c1.users, caller) == Some(u2));
    let u3 = UserV {
        withdrawable_amount: amount,
        current_deposit: CurrentDepositTerm { last_unstake_time: t, ..u2.current_deposit },
        ..u2
    };
    assert(u3 =~= u);
    let c2 = spec_on_transfer_complete(c1, caller, amount, t, false);
    assert(c2.users == spec_put(c1.users, caller, u3));
    assert(contains_key(c1.users, caller));
    let k1 = key_idx(c1.users, caller);
    assert(0 <= k1 < c1.users.len() && c1.users[k1].0 == caller);
    assert(k1 == k) by {
        if k1 != k {
            assert(c1.users[k1] == c.users[k1]);
        }
    }
    assert(spec_put(c1.users, caller, u3) =~= c.users) by {
        assert(c1.users == c.users.update(k, (caller, u2)));
        assert(spec_put(c1.users, caller, u3) == c1.users.update(k, (caller, u3)));
        assert(c.users[k].1 == u);
        assert((caller, u3) == c.users[k]);
    }
    assert(c2 =~= c);
}

} // verus!
