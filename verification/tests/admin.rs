use sender_staking::errors::StakingError;
use sender_staking::migrations::OldState;
use sender_staking::user::UserStore;
use sender_staking::Contract;

fn owner() -> String {
    "owner.near".to_string()
}

fn token() -> String {
    "token.near".to_string()
}

fn bob() -> String {
    "bob.near".to_string()
}

fn fresh() -> Contract {
    Contract::new(owner(), token())
}

#[test]
fn owner_sets_switches_and_rates() {
    let mut contract = fresh();
    contract.set_current_switch(&owner(), false).unwrap();
    assert!(!contract.current_switch);
    contract.set_fixed_switch(&owner(), false).unwrap();
    assert!(!contract.fixed_switch);
    contract.set_current_apr(&owner(), 4100).unwrap();
    assert_eq!(contract.current_term_apr, 4100);
    contract.set_current_withdraw_delay(&owner(), 7).unwrap();
    assert_eq!(contract.current_withdraw_delay, 7);
}

#[test]
fn non_owner_is_rejected() {
    let mut contract = fresh();
    assert_eq!(
        contract.assert_owner(&bob()),
        Err(StakingError::NotAllowed)
    );
    assert_eq!(
        contract.set_current_switch(&bob(), false),
        Err(StakingError::NotAllowed)
    );
    assert!(contract.current_switch);
    assert_eq!(
        contract.set_current_apr(&bob(), 100),
        Err(StakingError::NotAllowed)
    );
    assert_eq!(contract.current_term_apr, 3200);
    assert_eq!(
        contract.set_owner(&bob(), 1, bob()),
        Err(StakingError::NotAllowed)
    );
    assert_eq!(contract.owner_id, owner());
}

#[test]
fn zero_parameters_are_rejected() {
    let mut contract = fresh();
    assert_eq!(
        contract.set_current_apr(&owner(), 0),
        Err(StakingError::NonPositiveParameter)
    );
    assert_eq!(contract.current_term_apr, 3200);
    assert_eq!(
        contract.set_current_withdraw_delay(&owner(), 0),
        Err(StakingError::NonPositiveParameter)
    );
    assert_eq!(contract.current_withdraw_delay, 21);
}

#[test]
fn set_owner_needs_one_yocto() {
    let mut contract = fresh();
    assert_eq!(
        contract.set_owner(&owner(), 0, bob()),
        Err(StakingError::OneYoctoRequired)
    );
    assert_eq!(contract.owner_id, owner());
    contract.set_owner(&owner(), 1, bob()).unwrap();
    assert_eq!(contract.owner_id, bob());
    // The previous owner can no longer configure anything.
    assert_eq!(
        contract.set_current_apr(&owner(), 100),
        Err(StakingError::NotAllowed)
    );
}

#[test]
fn metadata_reports_the_configuration() {
    let mut contract = fresh();
    contract.stake_current(&bob(), 900, 0).unwrap();
    let md = contract.get_metadata("1.2.3".to_string());
    assert_eq!(md.version, "1.2.3");
    assert_eq!(md.owner_id, owner());
    assert_eq!(md.token_account_id, token());
    assert!(md.current_switch);
    assert_eq!(md.current_term_apr, 3200);
    assert!(md.fixed_switch);
    assert_eq!(md.fixed_term_apr, 6000);
    assert_eq!(md.total_current_staked_amount, 900);
    assert_eq!(md.total_fixed_staked_amount, 0);
}

#[test]
fn user_views_roll_interest_without_persisting() {
    let mut contract = fresh();
    contract.stake_current(&bob(), 1000, 0).unwrap();
    let year: u64 = 31_536_000;
    let snapshot = contract.get_user(&bob(), year).unwrap();
    assert_eq!(snapshot.current_deposit.accrued_interest, 320);
    assert_eq!(snapshot.current_deposit.amount, 1000);
    // The stored entry kept its lazily evaluated zero.
    let stored = contract.internal_get_user(&bob()).unwrap();
    assert_eq!(stored.current_deposit.accrued_interest, 0);
    assert_eq!(
        contract.get_user_current_accrued_interest(&bob(), year),
        Ok(320)
    );
}

#[test]
fn withdrawable_time_is_unstake_plus_delay() {
    let mut contract = fresh();
    assert_eq!(contract.get_user_withdrawable_time(&bob()), Ok(0));
    contract.stake_current(&bob(), 1000, 0).unwrap();
    assert_eq!(contract.get_user_withdrawable_time(&bob()), Ok(0));
    contract.unstake_current(&bob(), 500).unwrap();
    assert_eq!(
        contract.get_user_withdrawable_time(&bob()),
        Ok(500 + 21 * 86_400)
    );
}

#[test]
fn user_count_grows_per_account() {
    let mut contract = fresh();
    contract.stake_current(&bob(), 10, 0).unwrap();
    contract.stake_current(&bob(), 10, 1).unwrap();
    assert_eq!(contract.get_total_user_num(), 1);
    contract.stake_current(&"carol.near".to_string(), 10, 2).unwrap();
    assert_eq!(contract.get_total_user_num(), 2);
}

#[test]
fn migration_round_trip() {
    let mut users = UserStore::new();
    let mut seeded = fresh();
    seeded.stake_current(&bob(), 4200, 17).unwrap();
    let entry = seeded.internal_get_user(&bob()).unwrap();
    users.put(&bob(), entry);
    let old_state = OldState {
        owner_id: owner(),
        token_account_id: token(),
        users,
        current_switch: false,
        current_term_apr: 2700,
        fixed_switch: true,
        fixed_term_apr: 5100,
        current_withdraw_delay: 9,
        acc_current_staked_amount: 11_000,
        total_current_staked_amount: 4200,
        total_current_unstaked_amount: 6800,
        acc_fixed_staked_amount: 3,
        total_fixed_staked_amount: 2,
        total_fixed_unstaked_amount: 1,
    };
    let migrated = Contract::migrate(old_state, &"self.near".to_string(), &"self.near".to_string())
        .unwrap();
    // Every surviving field came through unchanged.
    assert_eq!(migrated.owner_id, owner());
    assert_eq!(migrated.token_account_id, token());
    assert!(!migrated.current_switch);
    assert_eq!(migrated.current_term_apr, 2700);
    assert!(migrated.fixed_switch);
    assert_eq!(migrated.fixed_term_apr, 5100);
    assert_eq!(migrated.current_withdraw_delay, 9);
    assert_eq!(migrated.acc_current_staked_amount, 11_000);
    assert_eq!(migrated.total_current_staked_amount, 4200);
    assert_eq!(migrated.total_current_unstaked_amount, 6800);
    assert_eq!(migrated.acc_fixed_staked_amount, 3);
    assert_eq!(migrated.total_fixed_staked_amount, 2);
    assert_eq!(migrated.total_fixed_unstaked_amount, 1);
    // The account entries survived with them.
    let user = migrated.internal_get_user(&bob()).unwrap();
    assert_eq!(user.current_deposit.amount, 4200);
    assert_eq!(user.current_deposit.last_stake_time, 17);
    // The newly introduced counters start at their documented default.
    assert_eq!(migrated.total_current_unstaked_interest, 0);
    assert_eq!(migrated.total_fixed_unstaked_interest, 0);
}

#[test]
fn migration_requires_self_invocation() {
    let old_state = OldState {
        owner_id: owner(),
        token_account_id: token(),
        users: UserStore::new(),
        current_switch: true,
        current_term_apr: 3200,
        fixed_switch: true,
        fixed_term_apr: 6000,
        current_withdraw_delay: 21,
        acc_current_staked_amount: 0,
        total_current_staked_amount: 0,
        total_current_unstaked_amount: 0,
        acc_fixed_staked_amount: 0,
        total_fixed_staked_amount: 0,
        total_fixed_unstaked_amount: 0,
    };
    assert!(matches!(
        Contract::migrate(old_state, &bob(), &"self.near".to_string()),
        Err(StakingError::NotAllowed)
    ));
}
