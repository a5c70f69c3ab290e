//! Per-account ledger entries and the account store.
//!
//! An account is created lazily on first touch with all fields zero and is
//! never deleted. The store keeps one entry per account identifier; its
//! well-formedness (`UserStore::wf`) says the identifiers are distinct, which
//! makes lookups and overwrites deterministic.

use vstd::prelude::*;

verus! {

/// A current-term staking position: principal plus lazily rolled-forward
/// interest. `last_unstake_time == 0` means no unstake is pending withdrawal.
#[derive(Clone, Copy, Debug, PartialEq, Eq, Structural)]
pub struct CurrentDepositTerm {
    pub amount: u128,
    pub last_stake_time: u64,
    pub last_unstake_time: u64,
    pub accrued_interest: u128,
}

/// A fixed-term staking position, locked from `start_time` for `duration`
/// seconds. A forward-compatibility slot: no transition fills it yet.
#[derive(Clone, Copy, Debug, PartialEq, Eq, Structural)]
pub struct FixedDepositTerm {
    pub amount: u128,
    pub start_time: u64,
    pub duration: u64,
    pub accrued_interest: u128,
}

/// One account's ledger entry.
#[derive(Debug)]
pub struct User {
    pub withdrawable_amount: u128,
    pub current_deposit: CurrentDepositTerm,
    pub fixed_deposits: Vec<FixedDepositTerm>,
}

/// The mathematical value of a [`User`].
#[verifier::ext_equal]
pub ghost struct UserV {
    pub withdrawable_amount: u128,
    pub current_deposit: CurrentDepositTerm,
    pub fixed_deposits: Seq<FixedDepositTerm>,
}

impl View for User {
    type V = UserV;

    open spec fn view(&self) -> UserV {
        UserV {
            withdrawable_amount: self.withdrawable_amount,
            current_deposit: self.current_deposit,
            fixed_deposits: self.fixed_deposits@,
        }
    }
}

/// The zeroed entry that a first touch of an account starts from.
pub open spec fn default_user() -> UserV {
    UserV {
        withdrawable_amount: 0,
        current_deposit: CurrentDepositTerm {
            amount: 0,
            last_stake_time: 0,
            last_unstake_time: 0,
            accrued_interest: 0,
        },
        fixed_deposits: Seq::empty(),
    }
}

impl User {
    /// A zeroed entry; it stands for an account that has never staked.
    pub fn new() -> (r: Self)
        ensures
            r@ == default_user(),
    {
        let r = Self {
            withdrawable_amount: 0,
            current_deposit: CurrentDepositTerm {
                amount: 0,
                last_stake_time: 0,
                last_unstake_time: 0,
                accrued_interest: 0,
            },
            fixed_deposits: Vec::new(),
        };
        proof {
            assert(r@ =~= default_user());
        }
        r
    }
}

impl Clone for User {
    fn clone(&self) -> (r: Self)
        ensures
            r@ == self@,
    {
        let mut fixed: Vec<FixedDepositTerm> = Vec::new();
        let mut i: usize = 0;
        while i < self.fixed_deposits.len()
            invariant
                i <= self.fixed_deposits.len(),
                fixed@ == self.fixed_deposits@.subrange(0, i as int),
            decreases self.fixed_deposits.len() - i,
        {
            fixed.push(self.fixed_deposits[i]);
            i = i + 1;
            proof {
                assert(fixed@ =~= self.fixed_deposits@.subrange(0, i as int));
            }
        }
        let r = Self {
            withdrawable_amount: self.withdrawable_amount,
            current_deposit: self.current_deposit,
            fixed_deposits: fixed,
        };
        proof {
            assert(self.fixed_deposits@.subrange(0, self.fixed_deposits@.len() as int) =~= self
                .fixed_deposits@);
            assert(r@ =~= self@);
        }
        r
    }
}

/// The store pairs each account identifier with its entry.
pub struct UserEntry {
    pub user_id: String,
    pub user: User,
}

/// The account ledger: one entry per account identifier.
pub struct UserStore {
    pub entries: Vec<UserEntry>,
}

impl View for UserStore {
    type V = Seq<(Seq<char>, UserV)>;

    open spec fn view(&self) -> Seq<(Seq<char>, UserV)> {
        self.entries@.map_values(|e: UserEntry| (e.user_id@, e.user@))
    }
}

/// Whether some entry carries the identifier `id`.
pub open spec fn contains_key(users: Seq<(Seq<char>, UserV)>, id: Seq<char>) -> bool {
    exists|i: int| 0 <= i < users.len() && users[i].0 == id
}

/// The position of the entry carrying `id`; determined when keys are distinct.
pub open spec fn key_idx(users: Seq<(Seq<char>, UserV)>, id: Seq<char>) -> int {
    choose|i: int| 0 <= i < users.len() && users[i].0 == id
}

/// No two entries carry the same identifier.
pub open spec fn distinct_keys(users: Seq<(Seq<char>, UserV)>) -> bool {
    forall|i: int, j: int| 0 <= i < j < users.len() ==> users[i].0 != users[j].0
}

/// The stored entry for `id`, if any.
pub open spec fn spec_get(users: Seq<(Seq<char>, UserV)>, id: Seq<char>) -> Option<UserV> {
    if contains_key(users, id) {
        Some(users[key_idx(users, id)].1)
    } else {
        None
    }
}

/// The stored entry for `id`, or the zeroed entry when none is stored.
pub open spec fn user_or_default(users: Seq<(Seq<char>, UserV)>, id: Seq<char>) -> UserV {
    match spec_get(users, id) {
        Some(u) => u,
        None => default_user(),
    }
}

/// The store after an idempotent overwrite of `id` with `u`: the existing
/// entry is replaced in place, or a new one is appended.
pub open spec fn spec_put(
    users: Seq<(Seq<char>, UserV)>,
    id: Seq<char>,
    u: UserV,
) -> Seq<(Seq<char>, UserV)> {
    if contains_key(users, id) {
        users.update(key_idx(users, id), (id, u))
    } else {
        users.push((id, u))
    }
}

/// The sum of all accounts' current-deposit principal.
pub open spec fn total_staked(users: Seq<(Seq<char>, UserV)>) -> int
    decreases users.len(),
{
    if users.len() == 0 {
        0
    } else {
        users[0].1.current_deposit.amount + total_staked(users.drop_first())
    }
}

impl UserStore {
    /// Distinct identifiers make lookups and overwrites deterministic.
    pub open spec fn wf(&self) -> bool {
        distinct_keys(self@)
    }

    /// An empty store.
    pub fn new() -> (r: Self)
        ensures
            r@ == Seq::<(Seq<char>, UserV)>::empty(),
            r.wf(),
    {
        let r = UserStore { entries: Vec::new() };
        proof {
            assert(r@ =~= Seq::<(Seq<char>, UserV)>::empty());
        }
        r
    }

    /// How many accounts have been touched.
    pub fn len(&self) -> (r: usize)
        ensures
            r == self@.len(),
    {
        self.entries.len()
    }

    /// The stored entry for `user_id`, if any.
    pub fn get(&self, user_id: &String) -> (r: Option<&User>)
        requires
            self.wf(),
        ensures
            match r {
                Some(u) => spec_get(self@, user_id@) == Some(u@),
                None => spec_get(self@, user_id@) is None,
            },
    {
        let n = self.entries.len();
        let mut i: usize = 0;
        while i < n
            invariant
                self.wf(),
                n == self@.len(),
                i <= n,
                forall|j: int| 0 <= j < i ==> self@[j].0 != user_id@,
            decreases n - i,
        {
            if self.entries[i].user_id == *user_id {
                proof {
                    assert(self@[i as int].0 == user_id@);
                    assert(contains_key(self@, user_id@));
                    let k = key_idx(self@, user_id@);
                    assert(0 <= k < self@.len() && self@[k].0 == user_id@);
                    assert(k == i as int);
                }
                return Some(&self.entries[i].user);
            }
            i = i + 1;
        }
        proof {
            assert(!contains_key(self@, user_id@));
        }
        None
    }

    /// Idempotent overwrite: replaces the entry for `user_id` in place, or
    /// appends a new one. Persists nothing beyond this store.
    pub fn put(&mut self, user_id: &String, user: User)
        requires
            old(self).wf(),
        ensures
            final(self)@ == spec_put(old(self)@, user_id@, user@),
            final(self).wf(),
    {
        let n = self.entries.len();
        let mut i: usize = 0;
        while i < n
            invariant
                self.wf(),
                self@ == old(self)@,
                n == self@.len(),
                i <= n,
                forall|j: int| 0 <= j < i ==> self@[j].0 != user_id@,
            decreases n - i,
        {
            if self.entries[i].user_id == *user_id {
                proof {
                    assert(old(self)@[i as int].0 == user_id@);
                    assert(contains_key(old(self)@, user_id@));
                    let k = key_idx(old(self)@, user_id@);
                    assert(0 <= k < old(self)@.len() && old(self)@[k].0 == user_id@);
                    assert(k == i as int);
                }
                let id = self.entries[i].user_id.clone();
                self.entries[i] = UserEntry { user_id: id, user };
                proof {
                    assert(self@ =~= spec_put(old(self)@, user_id@, user@));
                    assert(distinct_keys(self@));
                }
                return;
            }
            i = i + 1;
        }
        proof {
            assert(!contains_key(old(self)@, user_id@));
        }
        let id = user_id.clone();
        self.entries.push(UserEntry { user_id: id, user });
        proof {
            assert(self@ =~= spec_put(old(self)@, user_id@, user@));
            assert forall|a: int, b: int| 0 <= a < b < self@.len() implies self@[a].0
                != self@[b].0 by {
                if b < old(self)@.len() as int {
                } else {
                    assert(self@[b].0 == user_id@);
                    assert(self@[a].0 == old(self)@[a].0);
                }
            }
        }
    }
}

impl crate::Contract {
    /// The stored entry for `user_id`, if any; the store itself is untouched.
    pub fn internal_get_user(&self, user_id: &String) -> (r: Option<User>)
        requires
            self.wf(),
        ensures
            match r {
                Some(u) => spec_get(self@.users, user_id@) == Some(u@),
                None => spec_get(self@.users, user_id@) is None,
            },
    {
        match self.users.get(user_id) {
            Some(u) => Some(u.clone()),
            None => None,
        }
    }

    /// The stored entry for `user_id`, or a zeroed one; nothing is persisted.
    pub fn internal_unwrap_user_or_default(&self, user_id: &String) -> (r: User)
        requires
            self.wf(),
        ensures
            r@ == user_or_default(self@.users, user_id@),
    {
        match self.users.get(user_id) {
            Some(u) => u.clone(),
            None => User::new(),
        }
    }

    /// Overwrites the entry for `user_id`, persisting it immediately.
    pub fn internal_set_user(&mut self, user_id: &String, user: User)
        requires
            old(self).wf(),
        ensures
            final(self)@ == (crate::ContractV {
                users: spec_put(old(self)@.users, user_id@, user@),
                ..old(self)@
            }),
            final(self).wf(),
    {
        self.users.put(user_id, user);
        proof {
            assert(self@ =~= (crate::ContractV {
                users: spec_put(old(self)@.users, user_id@, user@),
                ..old(self)@
            }));
        }
    }
}

/// Updating one entry moves the staked sum by the difference of the two
/// entries' principal.
pub proof fn lemma_total_staked_update(
    users: Seq<(Seq<char>, UserV)>,
    k: int,
    e: (Seq<char>, UserV),
)
    requires
        0 <= k < users.len(),
    ensures
        total_staked(users.update(k, e)) == total_staked(users) - users[k].1.current_deposit.amount
            + e.1.current_deposit.amount,
    decreases users.len(),
{
    let users2 = users.update(k, e);
    if k == 0 {
        assert(users2.drop_first() =~= users.drop_first());
    } else {
        assert(users2.drop_first() =~= users.drop_first().update(k - 1, e));
        lemma_total_staked_update(users.drop_first(), k - 1, e);
        assert(users.drop_first()[k - 1] == users[k]);
    }
}

/// Appending an entry adds its principal to the staked sum.
pub proof fn lemma_total_staked_push(users: Seq<(Seq<char>, UserV)>, e: (Seq<char>, UserV))
    ensures
        total_staked(users.push(e)) == total_staked(users) + e.1.current_deposit.amount,
    decreases users.len(),
{
    let users2 = users.push(e);
    assert(users2.len() == users.len() + 1);
    assert(total_staked(users2) == users2[0].1.current_deposit.amount + total_staked(
        users2.drop_first(),
    ));
    if users.len() == 0 {
        assert(users2.drop_first() =~= Seq::<(Seq<char>, UserV)>::empty());
        assert(total_staked(Seq::<(Seq<char>, UserV)>::empty()) == 0);
        assert(users2[0] == e);
    } else {
        assert(users2.drop_first() =~= users.drop_first().push(e));
        lemma_total_staked_push(users.drop_first(), e);
        assert(users2[0] == users[0]);
    }
}

/// The staked sum is never negative.
pub proof fn lemma_total_staked_nonneg(users: Seq<(Seq<char>, UserV)>)
    ensures
        total_staked(users) >= 0,
    decreases users.len(),
{
    if users.len() > 0 {
        lemma_total_staked_nonneg(users.drop_first());
    }
}

/// No single entry's principal exceeds the staked sum.
pub proof fn lemma_total_staked_at_least(users: Seq<(Seq<char>, UserV)>, k: int)
    requires
        0 <= k < users.len(),
    ensures
        total_staked(users) >= users[k].1.current_deposit.amount,
    decreases users.len(),
{
    if k == 0 {
        lemma_total_staked_nonneg(users.drop_first());
    } else {
        lemma_total_staked_at_least(users.drop_first(), k - 1);
        assert(users.drop_first()[k - 1] == users[k]);
    }
}

/// What an overwrite does to the store: the staked sum moves by the
/// principal difference, the identifiers stay distinct, the overwritten
/// identifier now maps to the new entry, and every other identifier is
/// untouched.
pub proof fn lemma_total_staked_put(users: Seq<(Seq<char>, UserV)>, id: Seq<char>, u: UserV)
    requires
        distinct_keys(users),
    ensures
        total_staked(spec_put(users, id, u)) == total_staked(users) - user_or_default(
            users,
            id,
        ).current_deposit.amount + u.current_deposit.amount,
        distinct_keys(spec_put(users, id, u)),
        spec_get(spec_put(users, id, u), id) == Some(u),
        forall|other: Seq<char>| other != id ==> spec_get(spec_put(users, id, u), other)
            == spec_get(users, other),
{
    let users2 = spec_put(users, id, u);
    if contains_key(users, id) {
        let k = key_idx(users, id);
        assert(0 <= k < users.len() && users[k].0 == id);
        lemma_total_staked_update(users, k, (id, u));
        assert(distinct_keys(users2)) by {
            assert forall|i: int, j: int| 0 <= i < j < users2.len() implies users2[i].0
                != users2[j].0 by {
                assert(users2[i].0 == users[i].0);
                assert(users2[j].0 == users[j].0);
            }
        }
        assert(spec_get(users2, id) == Some(u)) by {
            assert(users2[k].0 == id);
            assert(contains_key(users2, id));
            let k2 = key_idx(users2, id);
            assert(0 <= k2 < users2.len() && users2[k2].0 == id);
            if k2 != k {
                assert(users2[k2].0 == users[k2].0);
            }
        }
        assert forall|other: Seq<char>| other != id implies spec_get(users2, other) == spec_get(
            users,
            other,
        ) by {
            if contains_key(users2, other) {
                let j2 = key_idx(users2, other);
                assert(0 <= j2 < users2.len() && users2[j2].0 == other);
                assert(j2 != k);
                assert(users[j2].0 == other);
                assert(contains_key(users, other));
                let j = key_idx(users, other);
                assert(0 <= j < users.len() && users[j].0 == other);
                assert(j != k);
                assert(j == j2);
            } else {
                if contains_key(users, other) {
                    let j = key_idx(users, other);
                    assert(0 <= j < users.len() && users[j].0 == other);
                    assert(j != k);
                    assert(users2[j].0 == other);
                }
            }
        }
    } else {
        let n = users.len() as int;
        lemma_total_staked_push(users, (id, u));
        assert(distinct_keys(users2)) by {
            assert forall|i: int, j: int| 0 <= i < j < users2.len() implies users2[i].0
                != users2[j].0 by {
                if j < n {
                    assert(users2[i].0 == users[i].0);
                    assert(users2[j].0 == users[j].0);
                } else {
                    assert(users2[j].0 == id);
                    assert(users2[i].0 == users[i].0);
                }
            }
        }
        assert(spec_get(users2, id) == Some(u)) by {
            assert(users2[n].0 == id);
            assert(contains_key(users2, id));
            let k2 = key_idx(users2, id);
            assert(0 <= k2 < users2.len() && users2[k2].0 == id);
            if k2 != n {
                assert(users[k2].0 == id);
            }
        }
        assert forall|other: Seq<char>| other != id implies spec_get(users2, other) == spec_get(
            users,
            other,
        ) by {
            if contains_key(users2, other) {
                let j2 = key_idx(users2, other);
                assert(0 <= j2 < users2.len() && users2[j2].0 == other);
                assert(j2 != n);
                assert(users[j2].0 == other);
                assert(contains_key(users, other));
                let j = key_idx(users, other);
                assert(0 <= j < users.len() && users[j].0 == other);
                assert(j == j2);
            } else {
                if contains_key(users, other) {
                    let j = key_idx(users, other);
                    assert(0 <= j < users.len() && users[j].0 == other);
                    assert(users2[j].0 == other);
                }
            }
        }
    }
}

} // verus!
