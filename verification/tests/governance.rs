use aim_staking::errors::ErrorCode;
use aim_staking::identity::AccountId;
use aim_staking::ledger::StakingLedger;

fn id(n: u8) -> AccountId {
    [n; 32]
}

#[test]
fn initialize_seeds_the_single_authority() {
    let lg = StakingLedger::initialize(id(1));
    assert_eq!(lg.platform.authorities, vec![id(1)]);
    assert_eq!(lg.platform.project_count, 0);
    assert!(lg.projects.is_empty());
}

#[test]
fn add_authority_appends() {
    let mut lg = StakingLedger::initialize(id(1));
    assert_eq!(lg.add_authority(&id(1), id(2)), Ok(()));
    assert_eq!(lg.platform.authorities, vec![id(1), id(2)]);
}

#[test]
fn add_authority_rejects_duplicates() {
    // Adding an identity already present fails and the list is unchanged.
    let mut lg = StakingLedger::initialize(id(1));
    assert_eq!(lg.add_authority(&id(1), id(2)), Ok(()));
    let before = lg.platform.authorities.clone();
    assert_eq!(lg.add_authority(&id(1), id(2)), Err(ErrorCode::AuthorityAlreadyExists));
    assert_eq!(lg.platform.authorities, before);
}

#[test]
fn add_authority_requires_the_role() {
    let mut lg = StakingLedger::initialize(id(1));
    assert_eq!(lg.add_authority(&id(9), id(2)), Err(ErrorCode::NotPlatformAuthority));
}

#[test]
fn remove_authority_removes_only_the_named_one() {
    let mut lg = StakingLedger::initialize(id(1));
    lg.add_authority(&id(1), id(2)).unwrap();
    lg.add_authority(&id(1), id(3)).unwrap();
    assert_eq!(lg.remove_authority(&id(2), id(1)), Ok(()));
    assert_eq!(lg.platform.authorities, vec![id(2), id(3)]);
}

#[test]
fn remove_authority_rejects_missing_target() {
    let mut lg = StakingLedger::initialize(id(1));
    lg.add_authority(&id(1), id(2)).unwrap();
    assert_eq!(lg.remove_authority(&id(1), id(7)), Err(ErrorCode::AuthorityNotFound));
}

#[test]
fn last_authority_cannot_be_removed() {
    // A singleton list survives the attempt untouched.
    let mut lg = StakingLedger::initialize(id(1));
    assert_eq!(lg.remove_authority(&id(1), id(1)), Err(ErrorCode::CannotRemoveLastAuthority));
    assert_eq!(lg.platform.authorities, vec![id(1)]);
}

#[test]
fn register_project_assigns_counter_and_defaults() {
    let mut lg = StakingLedger::initialize(id(1));
    let pid = lg
        .register_project(id(1), b"alpha".to_vec(), vec![7, 14, 30], id(2), id(3), id(4))
        .unwrap();
    assert_eq!(pid, 0);
    assert_eq!(lg.platform.project_count, 1);
    let p = &lg.projects[0];
    assert_eq!(p.project_id, 0);
    assert_eq!(p.authority, id(1));
    assert_eq!(p.fee_wallet, id(1));
    assert_eq!(p.token_mint, id(2));
    assert_eq!(p.vault, id(3));
    assert_eq!(p.token_program, id(4));
    assert_eq!(p.unstake_fee_bps, 0);
    assert_eq!(p.emergency_unstake_fee_bps, 0);
    assert_eq!(p.allowed_durations, vec![7, 14, 30]);

    let pid2 = lg
        .register_project(id(1), b"beta".to_vec(), vec![30], id(2), id(5), id(4))
        .unwrap();
    assert_eq!(pid2, 1);
    assert_eq!(lg.platform.project_count, 2);
}

#[test]
fn register_project_requires_the_role() {
    let mut lg = StakingLedger::initialize(id(1));
    let r = lg.register_project(id(9), b"x".to_vec(), vec![7], id(2), id(3), id(4));
    assert_eq!(r, Err(ErrorCode::NotPlatformAuthority));
    assert_eq!(lg.platform.project_count, 0);
}

#[test]
fn register_project_rejects_long_names() {
    let mut lg = StakingLedger::initialize(id(1));
    let name = vec![b'a'; 33];
    let r = lg.register_project(id(1), name, vec![7], id(2), id(3), id(4));
    assert_eq!(r, Err(ErrorCode::NameTooLong));
    let name = vec![b'a'; 32];
    assert!(lg.register_project(id(1), name, vec![7], id(2), id(3), id(4)).is_ok());
}

#[test]
fn register_project_rejects_too_many_durations() {
    let mut lg = StakingLedger::initialize(id(1));
    let durations: Vec<u32> = (1..=11).collect();
    let r = lg.register_project(id(1), b"x".to_vec(), durations, id(2), id(3), id(4));
    assert_eq!(r, Err(ErrorCode::TooManyDurations));
}

#[test]
fn update_project_config_overwrites_all_three_fields() {
    let mut lg = StakingLedger::initialize(id(1));
    lg.register_project(id(1), b"x".to_vec(), vec![7], id(2), id(3), id(4)).unwrap();
    assert_eq!(lg.update_project_config(0, &id(1), id(9), 250, 500), Ok(()));
    let p = &lg.projects[0];
    assert_eq!(p.fee_wallet, id(9));
    assert_eq!(p.unstake_fee_bps, 250);
    assert_eq!(p.emergency_unstake_fee_bps, 500);
}

#[test]
fn update_project_config_rejects_fees_over_ten_thousand() {
    let mut lg = StakingLedger::initialize(id(1));
    lg.register_project(id(1), b"x".to_vec(), vec![7], id(2), id(3), id(4)).unwrap();
    let r = lg.update_project_config(0, &id(1), id(9), 10001, 0);
    assert_eq!(r, Err(ErrorCode::InvalidFeeBps));
    let r = lg.update_project_config(0, &id(1), id(9), 0, 10001);
    assert_eq!(r, Err(ErrorCode::InvalidFeeBps));
    // Nothing changed on either rejection.
    assert_eq!(lg.projects[0].fee_wallet, id(1));
    assert_eq!(lg.projects[0].unstake_fee_bps, 0);
    // Exactly 10000 is still legal.
    assert_eq!(lg.update_project_config(0, &id(1), id(9), 10000, 10000), Ok(()));
}

#[test]
fn update_allowed_durations_replaces_the_list() {
    let mut lg = StakingLedger::initialize(id(1));
    lg.register_project(id(1), b"x".to_vec(), vec![7, 14, 30], id(2), id(3), id(4)).unwrap();
    assert_eq!(lg.update_allowed_durations(0, &id(1), vec![1, 90]), Ok(()));
    assert_eq!(lg.projects[0].allowed_durations, vec![1, 90]);
}

#[test]
fn update_allowed_durations_enforces_the_cap() {
    // After any governance update the list holds at most 10 entries.
    let mut lg = StakingLedger::initialize(id(1));
    lg.register_project(id(1), b"x".to_vec(), vec![7], id(2), id(3), id(4)).unwrap();
    let eleven: Vec<u32> = (1..=11).collect();
    assert_eq!(lg.update_allowed_durations(0, &id(1), eleven), Err(ErrorCode::TooManyDurations));
    assert_eq!(lg.projects[0].allowed_durations, vec![7]);
    let ten: Vec<u32> = (1..=10).collect();
    assert_eq!(lg.update_allowed_durations(0, &id(1), ten.clone()), Ok(()));
    assert_eq!(lg.projects[0].allowed_durations, ten);
    assert!(lg.projects[0].allowed_durations.len() <= 10);
}
