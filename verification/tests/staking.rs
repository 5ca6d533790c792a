use std::collections::HashMap;

use aim_staking::errors::ErrorCode;
use aim_staking::identity::AccountId;
use aim_staking::ledger::{LedgerError, StakingLedger};
use aim_staking::stake::{StakeStatus, TransferInstruction};

fn id(n: u8) -> AccountId {
    [n; 32]
}

const DAY: i64 = 86400;

/// A toy asset ledger standing in for the external asset mover.
fn apply(balances: &mut HashMap<AccountId, u64>, t: &TransferInstruction) {
    let from = balances.get(&t.from).copied().unwrap_or(0);
    assert!(from >= t.amount, "mover would reject an overdraft");
    *balances.entry(t.from).or_insert(0) -= t.amount;
    *balances.entry(t.to).or_insert(0) += t.amount;
}

/// A platform with one project: durations [7, 14, 30], vault id(3),
/// fee recipient id(9), fees 250 / 500 bps.
fn setup() -> StakingLedger {
    let mut lg = StakingLedger::initialize(id(1));
    lg.register_project(id(1), b"alpha".to_vec(), vec![7, 14, 30], id(2), id(3), id(4))
        .unwrap();
    lg.update_project_config(0, &id(1), id(9), 250, 500).unwrap();
    lg
}

#[test]
fn stake_moves_the_deposit_into_the_vault() {
    let mut lg = setup();
    let mut balances = HashMap::new();
    balances.insert(id(7), 5000u64);

    let (transfer, event) = lg
        .stake(0, id(5), id(6), id(7), 1000, 14, 1, 1000)
        .unwrap();
    apply(&mut balances, &transfer);

    assert_eq!(balances[&id(3)], 1000);
    assert_eq!(balances[&id(7)], 4000);
    assert_eq!(event.user, id(6));
    assert_eq!(event.project_id, 0);
    assert_eq!(event.stake_id, 1);
    assert_eq!(event.amount, 1000);
    assert_eq!(event.duration_days, 14);

    let rec = &lg.stakes[0];
    assert!(rec.is_staked);
    assert_eq!(rec.stake_timestamp, 1000);
    assert_eq!(rec.duration_days, 14);
    assert_eq!(rec.amount, 1000);
}

#[test]
fn stake_rejects_a_duration_outside_the_list() {
    let mut lg = setup();
    let r = lg.stake(0, id(5), id(6), id(7), 1000, 13, 1, 1000);
    assert_eq!(r, Err(LedgerError::Rejected(ErrorCode::InvalidDuration)));
    assert!(lg.stakes.is_empty());
}

#[test]
fn duplicate_stake_id_fails_and_leaves_the_first_untouched() {
    // The second deposit naming the same (depositor, project, stake id)
    // finds the derived address occupied.
    let mut lg = setup();
    lg.stake(0, id(5), id(6), id(7), 1000, 14, 1, 1000).unwrap();
    let first = lg.stakes[0];
    let r = lg.stake(0, id(5), id(6), id(7), 2000, 30, 1, 2000);
    assert_eq!(r, Err(LedgerError::RecordAlreadyExists));
    assert_eq!(lg.stakes.len(), 1);
    assert_eq!(lg.stakes[0], first);
    // A different stake id starts a fresh instance.
    assert!(lg.stake(0, id(5), id(6), id(7), 2000, 30, 2, 2000).is_ok());
    assert_eq!(lg.stakes.len(), 2);
}

#[test]
fn unstake_before_the_lockup_ends_is_rejected() {
    let mut lg = setup();
    lg.stake(0, id(5), id(6), id(7), 1000, 14, 1, 1000).unwrap();
    let r = lg.unstake(0, id(6), 1, id(10), id(11), id(7), id(8), id(9), 1000 + 14 * DAY - 1);
    assert_eq!(r, Err(LedgerError::Rejected(ErrorCode::LockupPeriodNotEnded)));
    assert!(lg.stakes[0].is_staked);
    assert!(lg.unstakes.is_empty());
}

#[test]
fn unstake_after_the_lockup_splits_fee_and_payout_exactly() {
    let mut lg = setup();
    let mut balances = HashMap::new();
    balances.insert(id(7), 5000u64);
    let (transfer, _) = lg.stake(0, id(5), id(6), id(7), 1000, 14, 1, 1000).unwrap();
    apply(&mut balances, &transfer);

    let now = 1000 + 14 * DAY;
    let o = lg.unstake(0, id(6), 1, id(10), id(11), id(7), id(8), id(9), now).unwrap();
    assert_eq!(o.fee_amount, 25);
    assert_eq!(o.payout, 975);
    assert_eq!(o.fee_amount + o.payout, 1000);

    let fee_transfer = o.fee_transfer.expect("a positive fee is transferred");
    assert_eq!(fee_transfer.from, id(3));
    assert_eq!(fee_transfer.to, id(8));
    assert_eq!(fee_transfer.authority, id(11));
    apply(&mut balances, &fee_transfer);
    assert_eq!(o.payout_transfer.from, id(3));
    assert_eq!(o.payout_transfer.to, id(7));
    assert_eq!(o.payout_transfer.authority, id(11));
    apply(&mut balances, &o.payout_transfer);

    // The vault is fully debited; recipient and depositor are credited.
    assert_eq!(balances[&id(3)], 0);
    assert_eq!(balances[&id(8)], 25);
    assert_eq!(balances[&id(7)], 4975);

    assert!(!lg.stakes[0].is_staked);
    let u = &lg.unstakes[0];
    assert_eq!(u.status, StakeStatus::Unstaked);
    assert_eq!(u.amount, 1000);
    assert_eq!(u.unstake_timestamp, now);
    assert_eq!(u.stake_info, id(10));
    assert_eq!(o.event.user, id(6));
    assert_eq!(o.event.amount, 1000);
}

#[test]
fn unstake_twice_reports_the_stake_as_inactive() {
    let mut lg = setup();
    lg.stake(0, id(5), id(6), id(7), 1000, 14, 1, 1000).unwrap();
    let now = 1000 + 14 * DAY;
    lg.unstake(0, id(6), 1, id(10), id(11), id(7), id(8), id(9), now).unwrap();
    let r = lg.unstake(0, id(6), 1, id(10), id(11), id(7), id(8), id(9), now);
    assert_eq!(r, Err(LedgerError::Rejected(ErrorCode::StakeNotActive)));
}

#[test]
fn unstake_rejects_a_foreign_fee_account() {
    let mut lg = setup();
    lg.stake(0, id(5), id(6), id(7), 1000, 14, 1, 1000).unwrap();
    let now = 1000 + 14 * DAY;
    // The presented fee account belongs to id(12), not the fee recipient.
    let r = lg.unstake(0, id(6), 1, id(10), id(11), id(7), id(8), id(12), now);
    assert_eq!(r, Err(LedgerError::Rejected(ErrorCode::InvalidFeeWallet)));
    assert!(lg.stakes[0].is_staked);
}

#[test]
fn unstake_of_an_unknown_stake_is_not_found() {
    let mut lg = setup();
    let r = lg.unstake(0, id(6), 1, id(10), id(11), id(7), id(8), id(9), 1000);
    assert_eq!(r, Err(LedgerError::RecordNotFound));
}

#[test]
fn emergency_unstake_after_the_lockup_is_rejected() {
    // Once the lockup has elapsed only the standard path applies.
    let mut lg = setup();
    lg.stake(0, id(5), id(6), id(7), 1000, 14, 1, 1000).unwrap();
    let r = lg.emergency_unstake(0, id(6), 1, id(10), id(11), id(7), id(8), id(9), 1000 + 14 * DAY);
    assert_eq!(r, Err(LedgerError::Rejected(ErrorCode::LockupPeriodEnded)));
    assert!(lg.stakes[0].is_staked);
}

#[test]
fn emergency_unstake_during_the_lockup_uses_the_emergency_rate() {
    let mut lg = setup();
    let mut balances = HashMap::new();
    balances.insert(id(7), 5000u64);
    let (transfer, _) = lg.stake(0, id(5), id(6), id(7), 1000, 14, 1, 1000).unwrap();
    apply(&mut balances, &transfer);

    let now = 1000 + 3 * DAY;
    let o = lg.emergency_unstake(0, id(6), 1, id(10), id(11), id(7), id(8), id(9), now).unwrap();
    assert_eq!(o.fee_amount, 50);
    assert_eq!(o.payout, 950);
    apply(&mut balances, &o.fee_transfer.unwrap());
    apply(&mut balances, &o.payout_transfer);
    assert_eq!(balances[&id(3)], 0);
    assert_eq!(balances[&id(8)], 50);
    assert_eq!(balances[&id(7)], 4950);
    assert!(!lg.stakes[0].is_staked);
    assert_eq!(lg.unstakes[0].status, StakeStatus::EmergencyUnstaked);
}

#[test]
fn zero_fee_issues_no_fee_transfer() {
    let mut lg = StakingLedger::initialize(id(1));
    lg.register_project(id(1), b"alpha".to_vec(), vec![14], id(2), id(3), id(4)).unwrap();
    // Fees are zero-initialized at registration; the recipient defaults to
    // the registering authority.
    lg.stake(0, id(5), id(6), id(7), 1000, 14, 1, 1000).unwrap();
    let o = lg.unstake(0, id(6), 1, id(10), id(11), id(7), id(8), id(1), 1000 + 14 * DAY).unwrap();
    assert_eq!(o.fee_amount, 0);
    assert!(o.fee_transfer.is_none());
    assert_eq!(o.payout, 1000);
}

#[test]
fn withdrawal_reuses_the_satellite_record() {
    // Two stakes of one depositor settle into two satellite records; a
    // retry of the same key reuses its record instead of growing the store.
    let mut lg = setup();
    lg.stake(0, id(5), id(6), id(7), 1000, 14, 1, 1000).unwrap();
    lg.stake(0, id(5), id(6), id(7), 500, 7, 2, 1000).unwrap();
    let now = 1000 + 30 * DAY;
    lg.unstake(0, id(6), 1, id(10), id(11), id(7), id(8), id(9), now).unwrap();
    lg.unstake(0, id(6), 2, id(10), id(11), id(7), id(8), id(9), now).unwrap();
    assert_eq!(lg.unstakes.len(), 2);
    assert_eq!(lg.unstakes[0].stake_id, 1);
    assert_eq!(lg.unstakes[1].stake_id, 2);
}

#[test]
fn old_stakes_answer_to_current_policy() {
    // A duration valid at stake time does not admit a new stake once the
    // list changes; policy is evaluated at stake time, not retroactively.
    let mut lg = setup();
    lg.stake(0, id(5), id(6), id(7), 1000, 14, 1, 1000).unwrap();
    lg.update_allowed_durations(0, &id(1), vec![30]).unwrap();
    let r = lg.stake(0, id(5), id(6), id(7), 1000, 14, 2, 2000);
    assert_eq!(r, Err(LedgerError::Rejected(ErrorCode::InvalidDuration)));
    // The existing stake still settles normally.
    assert!(lg.unstake(0, id(6), 1, id(10), id(11), id(7), id(8), id(9), 1000 + 14 * DAY).is_ok());
}
