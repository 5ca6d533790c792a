use aim_staking::errors::ErrorCode;
use aim_staking::identity::AccountId;
use aim_staking::platform::{add_authority, initialize_platform, remove_authority};
use aim_staking::project::{register_project, update_allowed_durations, update_project_config, ProjectConfig};
use aim_staking::stake::{emergency_unstake, stake, unstake, StakeStatus};

fn id(n: u8) -> AccountId {
    [n; 32]
}

const DAY: i64 = 86400;

fn project() -> ProjectConfig {
    ProjectConfig {
        project_id: 0,
        authority: id(1),
        token_mint: id(2),
        vault: id(3),
        name: b"alpha".to_vec(),
        fee_wallet: id(9),
        token_program: id(4),
        unstake_fee_bps: 250,
        emergency_unstake_fee_bps: 500,
        allowed_durations: vec![7, 14, 30],
    }
}

#[test]
fn stake_status_defaults_to_active() {
    assert_eq!(StakeStatus::default(), StakeStatus::Active);
}

#[test]
fn platform_lifecycle() {
    let mut platform = initialize_platform(id(1));
    assert_eq!(platform.authorities, vec![id(1)]);
    assert_eq!(platform.project_count, 0);
    assert_eq!(add_authority(&mut platform, &id(1), id(2)), Ok(()));
    assert_eq!(
        add_authority(&mut platform, &id(1), id(2)),
        Err(ErrorCode::AuthorityAlreadyExists)
    );
    assert_eq!(remove_authority(&mut platform, &id(2), id(1)), Ok(()));
    assert_eq!(platform.authorities, vec![id(2)]);
    assert_eq!(
        remove_authority(&mut platform, &id(2), id(2)),
        Err(ErrorCode::CannotRemoveLastAuthority)
    );
    assert_eq!(platform.authorities, vec![id(2)]);
}

#[test]
fn register_project_fills_every_field() {
    let mut platform = initialize_platform(id(1));
    let p = register_project(
        &mut platform,
        id(1),
        b"alpha".to_vec(),
        vec![7, 14, 30],
        id(2),
        id(3),
        id(4),
    )
    .unwrap();
    assert_eq!(platform.project_count, 1);
    assert_eq!(p.project_id, 0);
    assert_eq!(p.authority, id(1));
    assert_eq!(p.fee_wallet, id(1));
    assert_eq!(p.unstake_fee_bps, 0);
    assert_eq!(p.emergency_unstake_fee_bps, 0);
}

#[test]
fn project_config_updates_are_atomic() {
    let mut p = project();
    assert_eq!(update_project_config(&mut p, &id(1), id(8), 100, 10001), Err(ErrorCode::InvalidFeeBps));
    assert_eq!(p.fee_wallet, id(9));
    assert_eq!(p.unstake_fee_bps, 250);
    assert_eq!(update_project_config(&mut p, &id(1), id(8), 100, 200), Ok(()));
    assert_eq!((p.fee_wallet, p.unstake_fee_bps, p.emergency_unstake_fee_bps), (id(8), 100, 200));
    assert_eq!(update_allowed_durations(&mut p, &id(1), vec![1]), Ok(()));
    assert_eq!(p.allowed_durations, vec![1]);
}

#[test]
fn stake_builds_the_record_and_the_transfer() {
    let p = project();
    let o = stake(&p, id(5), id(6), id(7), 1000, 30, 42, 123).unwrap();
    assert_eq!(o.stake_info.user, id(6));
    assert_eq!(o.stake_info.project_config, id(5));
    assert_eq!(o.stake_info.project_id, 0);
    assert_eq!(o.stake_info.stake_id, 42);
    assert_eq!(o.stake_info.amount, 1000);
    assert_eq!(o.stake_info.stake_timestamp, 123);
    assert_eq!(o.stake_info.duration_days, 30);
    assert!(o.stake_info.is_staked);
    assert_eq!(o.transfer.from, id(7));
    assert_eq!(o.transfer.to, id(3));
    assert_eq!(o.transfer.authority, id(6));
    assert_eq!(o.transfer.amount, 1000);
    assert_eq!(stake(&p, id(5), id(6), id(7), 1000, 2, 42, 123), Err(ErrorCode::InvalidDuration));
}

#[test]
fn unstake_settles_the_record() {
    let p = project();
    let mut rec = stake(&p, id(5), id(6), id(7), 1000, 14, 1, 0).unwrap().stake_info;
    let o = unstake(&p, &mut rec, id(10), id(11), id(7), id(8), id(9), 14 * DAY).unwrap();
    assert!(!rec.is_staked);
    assert_eq!(o.fee_amount, 25);
    assert_eq!(o.payout, 975);
    assert_eq!(o.unstake_info.status, StakeStatus::Unstaked);
    assert_eq!(o.unstake_info.stake_info, id(10));
    assert_eq!(o.unstake_info.unstake_timestamp, 14 * DAY);
    // Settled records answer further withdrawals with a state conflict.
    let again = unstake(&p, &mut rec, id(10), id(11), id(7), id(8), id(9), 14 * DAY);
    assert_eq!(again, Err(ErrorCode::StakeNotActive));
}

#[test]
fn emergency_unstake_is_the_early_path() {
    let p = project();
    let mut rec = stake(&p, id(5), id(6), id(7), 1000, 14, 1, 0).unwrap().stake_info;
    let o = emergency_unstake(&p, &mut rec, id(10), id(11), id(7), id(8), id(9), 3 * DAY).unwrap();
    assert!(!rec.is_staked);
    assert_eq!(o.fee_amount, 50);
    assert_eq!(o.payout, 950);
    assert_eq!(o.unstake_info.status, StakeStatus::EmergencyUnstaked);
    let mut late = stake(&p, id(5), id(6), id(7), 1000, 14, 2, 0).unwrap().stake_info;
    let r = emergency_unstake(&p, &mut late, id(10), id(11), id(7), id(8), id(9), 14 * DAY);
    assert_eq!(r, Err(ErrorCode::LockupPeriodEnded));
    assert!(late.is_staked);
}

#[test]
fn withdrawals_check_the_fee_account_owner() {
    let p = project();
    let mut rec = stake(&p, id(5), id(6), id(7), 1000, 14, 1, 0).unwrap().stake_info;
    let r = unstake(&p, &mut rec, id(10), id(11), id(7), id(8), id(12), 14 * DAY);
    assert_eq!(r, Err(ErrorCode::InvalidFeeWallet));
    assert!(rec.is_staked);
}
