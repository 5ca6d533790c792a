//! Stake records and their lifecycle transitions.
//!
//! A stake is created on deposit and is `Active` until one of the two
//! withdrawal paths closes it: the standard path once the lockup has ended,
//! or the emergency path while it has not. Both paths split the amount into
//! an exact fee and payout, hand back the transfer instructions for the
//! external asset mover, keep the stake record as history with its active
//! flag cleared, and produce the satellite unstake record and an event.
//!
//! Every transition is computed before anything is persisted: the host
//! commits the returned records and performs the returned transfers as one
//! atomic unit, or discards everything if a transfer fails.

use vstd::prelude::*;

use crate::errors::ErrorCode;
use crate::identity::{id_eq, AccountId};
use crate::policy::{
    compute_fee_split, duration_allowed, lockup_ended, spec_duration_allowed, spec_fee_amount,
    spec_lockup_ended,
};
use crate::project::ProjectConfig;

verus! {

/// The byte size of a stake record: record tag, two identifiers, four
/// 8-byte fields, the duration and the active flag.
pub const STAKE_RECORD_SIZE: usize = 8 + 32 + 32 + 8 + 8 + 8 + 8 + 4 + 1;

/// The byte size of an unstake record: record tag plus its fixed fields.
pub const UNSTAKE_RECORD_SIZE: usize = 8 + 129;

/// Where a stake instance stands in its lifecycle. `Active` belongs to the
/// stake record itself; the two terminal states are recorded on the
/// satellite unstake record.
#[derive(Clone, Copy, PartialEq, Eq, Structural, Debug)]
pub enum StakeStatus {
    /// The deposit is held by the vault and may still be withdrawn.
    Active,
    /// Withdrawn through the standard path after the lockup ended.
    Unstaked,
    /// Withdrawn through the emergency path during the lockup.
    EmergencyUnstaked,
}

impl Default for StakeStatus {
    /// A fresh stake starts out active.
    fn default() -> (r: Self)
        ensures
            r == StakeStatus::Active,
    {
        StakeStatus::Active
    }
}

/// One user's stake: created on deposit, kept as permanent history after
/// withdrawal with `is_staked` cleared.
#[derive(Clone, Copy, PartialEq, Eq, Debug)]
pub struct UserStakeInfo {
    /// The depositor who owns this stake.
    pub user: AccountId,
    /// The address of the project record this stake belongs to.
    pub project_config: AccountId,
    /// The numeric id of that project.
    pub project_id: u64,
    /// Client-chosen id, unique per depositor and project.
    pub stake_id: u64,
    /// The deposited amount.
    pub amount: u64,
    /// When the deposit was made.
    pub stake_timestamp: i64,
    /// The chosen lockup duration, in days.
    pub duration_days: u32,
    /// Whether the deposit is still held.
    pub is_staked: bool,
}

/// The satellite record of a withdrawal, created the first time either
/// withdrawal path settles a stake.
#[derive(Clone, Copy, PartialEq, Eq, Debug)]
pub struct UnstakeInfo {
    /// The depositor who withdrew.
    pub user: AccountId,
    /// The address of the project record.
    pub project_config: AccountId,
    /// The numeric id of that project.
    pub project_id: u64,
    /// The address of the settled stake record.
    pub stake_info: AccountId,
    /// The settled stake's client-chosen id.
    pub stake_id: u64,
    /// The originally deposited amount.
    pub amount: u64,
    /// When the withdrawal settled.
    pub unstake_timestamp: i64,
    /// Which withdrawal path settled the stake.
    pub status: StakeStatus,
}

/// A request to the external asset mover: debit `from` and credit `to` by
/// exactly `amount`, authorized by `authority`.
#[derive(Clone, Copy, PartialEq, Eq, Debug)]
pub struct TransferInstruction {
    /// The custody record to debit.
    pub from: AccountId,
    /// The custody record to credit.
    pub to: AccountId,
    /// The identity authorizing the debit.
    pub authority: AccountId,
    /// The exact amount to move.
    pub amount: u64,
}

/// Notification of a successful deposit.
#[derive(Clone, Copy, PartialEq, Eq, Debug)]
pub struct StakeEvent {
    /// The depositor.
    pub user: AccountId,
    /// The project staked with.
    pub project_id: u64,
    /// The client-chosen stake id.
    pub stake_id: u64,
    /// The deposited amount.
    pub amount: u64,
    /// The chosen lockup duration, in days.
    pub duration_days: u32,
}

/// Notification of a standard withdrawal.
#[derive(Clone, Copy, PartialEq, Eq, Debug)]
pub struct UnstakeEvent {
    /// The depositor.
    pub user: AccountId,
    /// The project withdrawn from.
    pub project_id: u64,
    /// The settled stake's id.
    pub stake_id: u64,
    /// The originally deposited amount.
    pub amount: u64,
}

/// Notification of an emergency withdrawal.
#[derive(Clone, Copy, PartialEq, Eq, Debug)]
pub struct EmergencyUnstakeEvent {
    /// The depositor.
    pub user: AccountId,
    /// The project withdrawn from.
    pub project_id: u64,
    /// The settled stake's id.
    pub stake_id: u64,
    /// The originally deposited amount.
    pub amount: u64,
}

/// Everything a successful deposit produces: the new stake record, the
/// inbound transfer for the asset mover, and the notification.
#[derive(Clone, Copy, PartialEq, Eq, Debug)]
pub struct StakeOutcome {
    /// The stake record to create, already active.
    pub stake_info: UserStakeInfo,
    /// Moves the deposit from the depositor's account into the vault.
    pub transfer: TransferInstruction,
    /// The notification to emit.
    pub event: StakeEvent,
}

/// Everything a successful standard withdrawal produces.
#[derive(Clone, Copy, PartialEq, Eq, Debug)]
pub struct UnstakeOutcome {
    /// The fee withheld, in asset units.
    pub fee_amount: u64,
    /// The amount returned to the depositor.
    pub payout: u64,
    /// Moves the fee from the vault to the fee recipient; absent when the
    /// fee is zero, so no zero-amount transfer is ever issued.
    pub fee_transfer: Option<TransferInstruction>,
    /// Moves the payout from the vault back to the depositor.
    pub payout_transfer: TransferInstruction,
    /// The satellite record to create or overwrite.
    pub unstake_info: UnstakeInfo,
    /// The notification to emit.
    pub event: UnstakeEvent,
}

/// Everything a successful emergency withdrawal produces.
#[derive(Clone, Copy, PartialEq, Eq, Debug)]
pub struct EmergencyUnstakeOutcome {
    /// The fee withheld, in asset units.
    pub fee_amount: u64,
    /// The amount returned to the depositor.
    pub payout: u64,
    /// Moves the fee from the vault to the fee recipient; absent when the
    /// fee is zero, so no zero-amount transfer is ever issued.
    pub fee_transfer: Option<TransferInstruction>,
    /// Moves the payout from the vault back to the depositor.
    pub payout_transfer: TransferInstruction,
    /// The satellite record to create or overwrite.
    pub unstake_info: UnstakeInfo,
    /// The notification to emit.
    pub event: EmergencyUnstakeEvent,
}

/// Deposits `amount` with a project for `duration_days`.
///
/// The duration must be in the project's current allowed list; the policy
/// is evaluated now, not retroactively. On success the returned record is
/// active, stamped `now`, and the returned transfer moves the deposit from
/// the depositor's asset account into the project vault under the
/// depositor's own authority.
pub fn stake(
    project: &ProjectConfig,
    project_address: AccountId,
    user: AccountId,
    user_token_account: AccountId,
    amount: u64,
    duration_days: u32,
    stake_id: u64,
    now: i64,
) -> (r: Result<StakeOutcome, ErrorCode>)
    ensures
        r is Ok <==> spec_duration_allowed(project.allowed_durations@, duration_days),
        r is Err ==> r == Err::<StakeOutcome, ErrorCode>(ErrorCode::InvalidDuration),
        r matches Ok(o) ==> {
            &&& o.stake_info == (UserStakeInfo {
                user,
                project_config: project_address,
                project_id: project.project_id,
                stake_id,
                amount,
                stake_timestamp: now,
                duration_days,
                is_staked: true,
            })
            &&& o.transfer == (TransferInstruction {
                from: user_token_account,
                to: project.vault,
                authority: user,
                amount,
            })
            &&& o.event == (StakeEvent {
                user,
                project_id: project.project_id,
                stake_id,
                amount,
                duration_days,
            })
        },
{
    if !duration_allowed(&project.allowed_durations, duration_days) {
        return Err(ErrorCode::InvalidDuration);
    }
    let stake_info = UserStakeInfo {
        user,
        project_config: project_address,
        project_id: project.project_id,
        stake_id,
        amount,
        stake_timestamp: now,
        duration_days,
        is_staked: true,
    };
    let transfer = TransferInstruction {
        from: user_token_account,
        to: project.vault,
        authority: user,
        amount,
    };
    let event = StakeEvent {
        user,
        project_id: project.project_id,
        stake_id,
        amount,
        duration_days,
    };
    Ok(StakeOutcome { stake_info, transfer, event })
}

/// Withdraws a stake through the standard path.
///
/// The stake must still be active, the presented fee account must belong to
/// the project's fee recipient, and the lockup must have ended. On success
/// the stake record is kept with its active flag cleared, the amount splits
/// exactly into fee and payout, and both outbound transfers are authorized
/// by the derived vault authority. On any rejection the stake record is
/// untouched.
pub fn unstake(
    project: &ProjectConfig,
    stake_info: &mut UserStakeInfo,
    stake_address: AccountId,
    vault_authority: AccountId,
    user_token_account: AccountId,
    fee_wallet_account: AccountId,
    fee_wallet_owner: AccountId,
    now: i64,
) -> (r: Result<UnstakeOutcome, ErrorCode>)
    requires
        project.wf(),
        old(stake_info).project_id == project.project_id,
    ensures
        r is Ok <==> old(stake_info).is_staked && fee_wallet_owner == project.fee_wallet
            && spec_lockup_ended(old(stake_info).stake_timestamp, old(stake_info).duration_days, now),
        !old(stake_info).is_staked
            ==> r == Err::<UnstakeOutcome, ErrorCode>(ErrorCode::StakeNotActive),
        old(stake_info).is_staked && fee_wallet_owner != project.fee_wallet
            ==> r == Err::<UnstakeOutcome, ErrorCode>(ErrorCode::InvalidFeeWallet),
        old(stake_info).is_staked && fee_wallet_owner == project.fee_wallet
            && !spec_lockup_ended(old(stake_info).stake_timestamp, old(stake_info).duration_days, now)
            ==> r == Err::<UnstakeOutcome, ErrorCode>(ErrorCode::LockupPeriodNotEnded),
        r is Err ==> *final(stake_info) == *old(stake_info),
        r matches Ok(o) ==> {
            &&& *final(stake_info) == (UserStakeInfo { is_staked: false, ..*old(stake_info) })
            &&& o.fee_amount == spec_fee_amount(old(stake_info).amount, project.unstake_fee_bps)
            &&& o.fee_amount + o.payout == old(stake_info).amount
            &&& o.fee_amount > 0 ==> o.fee_transfer == Some(TransferInstruction {
                from: project.vault,
                to: fee_wallet_account,
                authority: vault_authority,
                amount: o.fee_amount,
            })
            &&& o.fee_amount == 0 ==> o.fee_transfer is None
            &&& o.payout_transfer == (TransferInstruction {
                from: project.vault,
                to: user_token_account,
                authority: vault_authority,
                amount: o.payout,
            })
            &&& o.unstake_info == (UnstakeInfo {
                user: old(stake_info).user,
                project_config: old(stake_info).project_config,
                project_id: old(stake_info).project_id,
                stake_info: stake_address,
                stake_id: old(stake_info).stake_id,
                amount: old(stake_info).amount,
                unstake_timestamp: now,
                status: StakeStatus::Unstaked,
            })
            &&& o.event == (UnstakeEvent {
                user: old(stake_info).user,
                project_id: old(stake_info).project_id,
                stake_id: old(stake_info).stake_id,
                amount: old(stake_info).amount,
            })
        },
{
    if !stake_info.is_staked {
        return Err(ErrorCode::StakeNotActive);
    }
    if !id_eq(&fee_wallet_owner, &project.fee_wallet) {
        return Err(ErrorCode::InvalidFeeWallet);
    }
    if !lockup_ended(stake_info.stake_timestamp, stake_info.duration_days, now) {
        return Err(ErrorCode::LockupPeriodNotEnded);
    }
    let (fee_amount, payout) = compute_fee_split(stake_info.amount, project.unstake_fee_bps);
    let fee_transfer = if fee_amount > 0 {
        Some(TransferInstruction {
            from: project.vault,
            to: fee_wallet_account,
            authority: vault_authority,
            amount: fee_amount,
        })
    } else {
        None
    };
    let payout_transfer = TransferInstruction {
        from: project.vault,
        to: user_token_account,
        authority: vault_authority,
        amount: payout,
    };
    stake_info.is_staked = false;
    let unstake_info = UnstakeInfo {
        user: stake_info.user,
        project_config: stake_info.project_config,
        project_id: stake_info.project_id,
        stake_info: stake_address,
        stake_id: stake_info.stake_id,
        amount: stake_info.amount,
        unstake_timestamp: now,
        status: StakeStatus::Unstaked,
    };
    let event = UnstakeEvent {
        user: stake_info.user,
        project_id: stake_info.project_id,
        stake_id: stake_info.stake_id,
        amount: stake_info.amount,
    };
    Ok(UnstakeOutcome { fee_amount, payout, fee_transfer, payout_transfer, unstake_info, event })
}

/// Withdraws a stake through the emergency path, before the lockup ends.
///
/// The stake must still be active, the presented fee account must belong to
/// the project's fee recipient, and the lockup must not have ended yet; once
/// it has, only the standard path applies, otherwise the lockup would be
/// meaningless. The fee comes from the emergency rate; everything else
/// mirrors the standard path.
pub fn emergency_unstake(
    project: &ProjectConfig,
    stake_info: &mut UserStakeInfo,
    stake_address: AccountId,
    vault_authority: AccountId,
    user_token_account: AccountId,
    fee_wallet_account: AccountId,
    fee_wallet_owner: AccountId,
    now: i64,
) -> (r: Result<EmergencyUnstakeOutcome, ErrorCode>)
    requires
        project.wf(),
        old(stake_info).project_id == project.project_id,
    ensures
        r is Ok <==> old(stake_info).is_staked && fee_wallet_owner == project.fee_wallet
            && !spec_lockup_ended(old(stake_info).stake_timestamp, old(stake_info).duration_days, now),
        !old(stake_info).is_staked
            ==> r == Err::<EmergencyUnstakeOutcome, ErrorCode>(ErrorCode::StakeNotActive),
        old(stake_info).is_staked && fee_wallet_owner != project.fee_wallet
            ==> r == Err::<EmergencyUnstakeOutcome, ErrorCode>(ErrorCode::InvalidFeeWallet),
        old(stake_info).is_staked && fee_wallet_owner == project.fee_wallet
            && spec_lockup_ended(old(stake_info).stake_timestamp, old(stake_info).duration_days, now)
            ==> r == Err::<EmergencyUnstakeOutcome, ErrorCode>(ErrorCode::LockupPeriodEnded),
        r is Err ==> *final(stake_info) == *old(stake_info),
        r matches Ok(o) ==> {
            &&& *final(stake_info) == (UserStakeInfo { is_staked: false, ..*old(stake_info) })
            &&& o.fee_amount == spec_fee_amount(old(stake_info).amount, project.emergency_unstake_fee_bps)
            &&& o.fee_amount + o.payout == old(stake_info).amount
            &&& o.fee_amount > 0 ==> o.fee_transfer == Some(TransferInstruction {
                from: project.vault,
                to: fee_wallet_account,
                authority: vault_authority,
                amount: o.fee_amount,
            })
            &&& o.fee_amount == 0 ==> o.fee_transfer is None
            &&& o.payout_transfer == (TransferInstruction {
                from: project.vault,
                to: user_token_account,
                authority: vault_authority,
                amount: o.payout,
            })
            &&& o.unstake_info == (UnstakeInfo {
                user: old(stake_info).user,
                project_config: old(stake_info).project_config,
                project_id: old(stake_info).project_id,
                stake_info: stake_address,
                stake_id: old(stake_info).stake_id,
                amount: old(stake_info).amount,
                unstake_timestamp: now,
                status: StakeStatus::EmergencyUnstaked,
            })
            &&& o.event == (EmergencyUnstakeEvent {
                user: old(stake_info).user,
                project_id: old(stake_info).project_id,
                stake_id: old(stake_info).stake_id,
                amount: old(stake_info).amount,
            })
        },
{
    if !stake_info.is_staked {
        return Err(ErrorCode::StakeNotActive);
    }
    if !id_eq(&fee_wallet_owner, &project.fee_wallet) {
        return Err(ErrorCode::InvalidFeeWallet);
    }
    if lockup_ended(stake_info.stake_timestamp, stake_info.duration_days, now) {
        return Err(ErrorCode::LockupPeriodEnded);
    }
    let (fee_amount, payout) = compute_fee_split(stake_info.amount, project.emergency_unstake_fee_bps);
    let fee_transfer = if fee_amount > 0 {
        Some(TransferInstruction {
            from: project.vault,
            to: fee_wallet_account,
            authority: vault_authority,
            amount: fee_amount,
        })
    } else {
        None
    };
    let payout_transfer = TransferInstruction {
        from: project.vault,
        to: user_token_account,
        authority: vault_authority,
        amount: payout,
    };
    stake_info.is_staked = false;
    let unstake_info = UnstakeInfo {
        user: stake_info.user,
        project_config: stake_info.project_config,
        project_id: stake_info.project_id,
        stake_info: stake_address,
        stake_id: stake_info.stake_id,
        amount: stake_info.amount,
        unstake_timestamp: now,
        status: StakeStatus::EmergencyUnstaked,
    };
    let event = EmergencyUnstakeEvent {
        user: stake_info.user,
        project_id: stake_info.project_id,
        stake_id: stake_info.stake_id,
        amount: stake_info.amount,
    };
    Ok(EmergencyUnstakeOutcome { fee_amount, payout, fee_transfer, payout_transfer, unstake_info, event })
}

} // verus!
