//! The whole-system ledger: one platform, its projects, and every stake
//! and unstake record ever created.
//!
//! The host environment keeps each record at its derived address; this
//! module is the model of that store, keyed by the same data the addresses
//! are derived from. It enforces what the storage substrate enforces:
//! creating a stake record that already exists fails and changes nothing,
//! while the unstake satellite is created if absent and reused otherwise.
//! Every operation preserves the whole-ledger invariant.

use vstd::prelude::*;

use crate::errors::ErrorCode;
use crate::identity::{id_eq, AccountId};
use crate::platform;
use crate::platform::PlatformConfig;
use crate::policy::{spec_duration_allowed, spec_lockup_ended};
use crate::project;
use crate::project::ProjectConfig;
use crate::stake;
use crate::stake::{
    EmergencyUnstakeEvent, EmergencyUnstakeOutcome, StakeEvent, StakeStatus, TransferInstruction,
    UnstakeEvent, UnstakeOutcome, UserStakeInfo, UnstakeInfo,
};

verus! {

/// Why the ledger refused an operation: either the operation itself
/// rejected the request, or the request conflicted with the record store.
#[derive(Clone, Copy, PartialEq, Eq, Debug)]
pub enum LedgerError {
    /// The staking operation rejected the request.
    Rejected(ErrorCode),
    /// A record was to be created at an address that is already occupied.
    RecordAlreadyExists,
    /// The named stake record does not exist.
    RecordNotFound,
}

/// What makes a stake record unique: the depositor, the project and the
/// client-chosen stake id, the same tuple its address is derived from.
pub open spec fn stake_key(s: UserStakeInfo) -> (AccountId, u64, u64) {
    (s.user, s.project_id, s.stake_id)
}

/// An unstake record's address is derived from its stake record's, so it
/// shares the stake's key.
pub open spec fn unstake_key(u: UnstakeInfo) -> (AccountId, u64, u64) {
    (u.user, u.project_id, u.stake_id)
}

/// The staking system's entire state.
pub struct StakingLedger {
    /// The platform singleton.
    pub platform: PlatformConfig,
    /// Every project ever registered, in registration order.
    pub projects: Vec<ProjectConfig>,
    /// Every stake record ever created, kept as history after withdrawal.
    pub stakes: Vec<UserStakeInfo>,
    /// The satellite records of settled withdrawals.
    pub unstakes: Vec<UnstakeInfo>,
}

impl StakingLedger {
    /// The whole-ledger invariant: a well-formed platform whose counter
    /// equals the number of projects ever registered, projects that carry
    /// their position as id and are each well-formed, and record stores
    /// with no two records sharing a key.
    pub open spec fn wf(self) -> bool {
        &&& self.platform.wf()
        &&& self.platform.project_count == self.projects@.len()
        &&& forall|i: int|
            0 <= i < self.projects@.len() ==> (#[trigger] self.projects@[i]).wf()
                && self.projects@[i].project_id == i
        &&& forall|i: int, j: int|
            0 <= i < j < self.stakes@.len() ==> stake_key(self.stakes@[i]) != stake_key(
                self.stakes@[j],
            )
        &&& forall|i: int|
            0 <= i < self.stakes@.len() ==> (#[trigger] self.stakes@[i]).project_id
                < self.projects@.len()
        &&& forall|i: int, j: int|
            0 <= i < j < self.unstakes@.len() ==> unstake_key(self.unstakes@[i]) != unstake_key(
                self.unstakes@[j],
            )
    }

    /// Whether a stake record with this key exists.
    pub open spec fn has_stake(self, user: AccountId, project_id: u64, stake_id: u64) -> bool {
        exists|i: int|
            0 <= i < self.stakes@.len() && stake_key(self.stakes@[i]) == (user, project_id, stake_id)
    }

    /// The position of the stake record with this key.
    pub open spec fn spec_stake_index(self, user: AccountId, project_id: u64, stake_id: u64) -> int {
        choose|i: int|
            0 <= i < self.stakes@.len() && stake_key(self.stakes@[i]) == (user, project_id, stake_id)
    }

    /// The stake record with this key.
    pub open spec fn spec_stake_record(
        self,
        user: AccountId,
        project_id: u64,
        stake_id: u64,
    ) -> UserStakeInfo {
        self.stakes@[self.spec_stake_index(user, project_id, stake_id)]
    }

    /// Whether an unstake record with this key exists.
    pub open spec fn has_unstake(self, user: AccountId, project_id: u64, stake_id: u64) -> bool {
        exists|i: int|
            0 <= i < self.unstakes@.len() && unstake_key(self.unstakes@[i]) == (
                user,
                project_id,
                stake_id,
            )
    }

    /// The position of the unstake record with this key.
    pub open spec fn spec_unstake_index(
        self,
        user: AccountId,
        project_id: u64,
        stake_id: u64,
    ) -> int {
        choose|i: int|
            0 <= i < self.unstakes@.len() && unstake_key(self.unstakes@[i]) == (
                user,
                project_id,
                stake_id,
            )
    }

    /// Linear search of the stake store by key.
    fn find_stake(&self, user: &AccountId, project_id: u64, stake_id: u64) -> (r: Option<usize>)
        ensures
            match r {
                Some(i) => i < self.stakes@.len() && stake_key(self.stakes@[i as int]) == (
                    *user,
                    project_id,
                    stake_id,
                ),
                None => !self.has_stake(*user, project_id, stake_id),
            },
    {
        let mut i: usize = 0;
        while i < self.stakes.len()
            invariant
                i <= self.stakes@.len(),
                forall|j: int|
                    0 <= j < i ==> stake_key(self.stakes@[j]) != (*user, project_id, stake_id),
            decreases self.stakes@.len() - i,
        {
            let s = &self.stakes[i];
            if s.project_id == project_id && s.stake_id == stake_id && id_eq(&s.user, user) {
                return Some(i);
            }
            i += 1;
        }
        None
    }

    /// Linear search of the unstake store by key.
    fn find_unstake(&self, user: &AccountId, project_id: u64, stake_id: u64) -> (r: Option<usize>)
        ensures
            match r {
                Some(i) => i < self.unstakes@.len() && unstake_key(self.unstakes@[i as int]) == (
                    *user,
                    project_id,
                    stake_id,
                ),
                None => !self.has_unstake(*user, project_id, stake_id),
            },
    {
        let mut i: usize = 0;
        while i < self.unstakes.len()
            invariant
                i <= self.unstakes@.len(),
                forall|j: int|
                    0 <= j < i ==> unstake_key(self.unstakes@[j]) != (*user, project_id, stake_id),
            decreases self.unstakes@.len() - i,
        {
            let u = &self.unstakes[i];
            if u.project_id == project_id && u.stake_id == stake_id && id_eq(&u.user, user) {
                return Some(i);
            }
            i += 1;
        }
        None
    }
}

/// In a duplicate-free stake store any position holding the key is the one
/// the specification functions denote.
proof fn lemma_stake_index_unique(
    lg: StakingLedger,
    user: AccountId,
    project_id: u64,
    stake_id: u64,
    i: int,
)
    requires
        lg.wf(),
        0 <= i < lg.stakes@.len(),
        stake_key(lg.stakes@[i]) == (user, project_id, stake_id),
    ensures
        lg.has_stake(user, project_id, stake_id),
        lg.spec_stake_index(user, project_id, stake_id) == i,
        lg.spec_stake_record(user, project_id, stake_id) == lg.stakes@[i],
{
    assert(lg.has_stake(user, project_id, stake_id));
    let j = lg.spec_stake_index(user, project_id, stake_id);
    if j != i {
        assert(stake_key(lg.stakes@[i]) != stake_key(lg.stakes@[j]));
    }
}

/// In a duplicate-free unstake store any position holding the key is the
/// one the specification functions denote.
proof fn lemma_unstake_index_unique(
    lg: StakingLedger,
    user: AccountId,
    project_id: u64,
    stake_id: u64,
    i: int,
)
    requires
        lg.wf(),
        0 <= i < lg.unstakes@.len(),
        unstake_key(lg.unstakes@[i]) == (user, project_id, stake_id),
    ensures
        lg.has_unstake(user, project_id, stake_id),
        lg.spec_unstake_index(user, project_id, stake_id) == i,
{
    let j = lg.spec_unstake_index(user, project_id, stake_id);
    if j != i {
        assert(unstake_key(lg.unstakes@[i]) != unstake_key(lg.unstakes@[j]));
    }
}

impl StakingLedger {
    /// Creates the whole system: a fresh platform with the caller as its
    /// only authority and no projects, stakes or withdrawals yet.
    pub fn initialize(caller: AccountId) -> (lg: StakingLedger)
        ensures
            lg.wf(),
            lg.platform.authorities@ == seq![caller],
            lg.platform.project_count == 0,
            lg.projects@.len() == 0,
            lg.stakes@.len() == 0,
            lg.unstakes@.len() == 0,
    {
        StakingLedger {
            platform: platform::initialize_platform(caller),
            projects: Vec::new(),
            stakes: Vec::new(),
            unstakes: Vec::new(),
        }
    }

    /// Appends a platform authority; see [`platform::add_authority`]. The
    /// authority list afterwards is never empty and never holds
    /// duplicates, and no project or stake record is touched.
    pub fn add_authority(&mut self, caller: &AccountId, new_authority: AccountId) -> (r: Result<
        (),
        ErrorCode,
    >)
        requires
            old(self).wf(),
        ensures
            final(self).wf(),
            final(self).projects@ == old(self).projects@,
            final(self).stakes@ == old(self).stakes@,
            final(self).unstakes@ == old(self).unstakes@,
            r is Ok <==> old(self).platform.is_authority(*caller) && !old(
                self,
            ).platform.is_authority(new_authority),
            r is Ok ==> final(self).platform.authorities@ == old(
                self,
            ).platform.authorities@.push(new_authority),
            r is Err ==> *final(self) == *old(self),
            !old(self).platform.is_authority(*caller) ==> r == Err::<(), ErrorCode>(
                ErrorCode::NotPlatformAuthority,
            ),
            old(self).platform.is_authority(*caller) && old(self).platform.is_authority(
                new_authority,
            ) ==> r == Err::<(), ErrorCode>(ErrorCode::AuthorityAlreadyExists),
    {
        platform::add_authority(&mut self.platform, caller, new_authority)
    }

    /// Removes a platform authority; see [`platform::remove_authority`].
    /// The last authority can never be removed: the attempt fails and the
    /// list is left exactly as it was.
    pub fn remove_authority(&mut self, caller: &AccountId, authority_to_remove: AccountId) -> (r:
        Result<(), ErrorCode>)
        requires
            old(self).wf(),
        ensures
            final(self).wf(),
            final(self).platform.authorities@.len() >= 1,
            final(self).projects@ == old(self).projects@,
            final(self).stakes@ == old(self).stakes@,
            final(self).unstakes@ == old(self).unstakes@,
            r is Ok <==> old(self).platform.is_authority(*caller) && old(
                self,
            ).platform.authorities@.len() > 1 && old(self).platform.is_authority(
                authority_to_remove,
            ),
            r is Err ==> *final(self) == *old(self),
            old(self).platform.is_authority(*caller) && old(self).platform.authorities@.len() == 1
                ==> r == Err::<(), ErrorCode>(ErrorCode::CannotRemoveLastAuthority),
            r is Ok ==> {
                &&& final(self).platform.authorities@.len() == old(
                    self,
                ).platform.authorities@.len() - 1
                &&& !final(self).platform.is_authority(authority_to_remove)
                &&& forall|x: AccountId|
                    x != authority_to_remove ==> (final(self).platform.is_authority(x) <==> old(
                        self,
                    ).platform.is_authority(x))
            },
    {
        platform::remove_authority(&mut self.platform, caller, authority_to_remove)
    }

    /// Registers a project; see [`project::register_project`]. On success
    /// the new project takes the next id, the counter advances, and every
    /// existing record is untouched; on rejection nothing changes.
    pub fn register_project(
        &mut self,
        caller: AccountId,
        name: Vec<u8>,
        allowed_durations: Vec<u32>,
        token_mint: AccountId,
        vault: AccountId,
        token_program: AccountId,
    ) -> (r: Result<u64, ErrorCode>)
        requires
            old(self).wf(),
            old(self).platform.project_count < u64::MAX,
        ensures
            final(self).wf(),
            final(self).platform.authorities@ == old(self).platform.authorities@,
            final(self).stakes@ == old(self).stakes@,
            final(self).unstakes@ == old(self).unstakes@,
            r is Ok <==> old(self).platform.is_authority(caller) && name@.len()
                <= project::MAX_NAME_LEN && allowed_durations@.len() <= project::MAX_DURATIONS,
            !old(self).platform.is_authority(caller) ==> r == Err::<u64, ErrorCode>(
                ErrorCode::NotPlatformAuthority,
            ),
            old(self).platform.is_authority(caller) && name@.len() > project::MAX_NAME_LEN ==> r
                == Err::<u64, ErrorCode>(ErrorCode::NameTooLong),
            old(self).platform.is_authority(caller) && name@.len() <= project::MAX_NAME_LEN
                && allowed_durations@.len() > project::MAX_DURATIONS ==> r == Err::<u64, ErrorCode>(
                ErrorCode::TooManyDurations,
            ),
            r is Err ==> *final(self) == *old(self),
            r matches Ok(pid) ==> {
                &&& pid == old(self).platform.project_count
                &&& final(self).platform.project_count == old(self).platform.project_count + 1
                &&& final(self).projects@.len() == old(self).projects@.len() + 1
                &&& final(self).projects@ == old(self).projects@.push(
                    final(self).projects@[pid as int],
                )
                &&& final(self).projects@[pid as int].project_id == pid
                &&& final(self).projects@[pid as int].authority == caller
                &&& final(self).projects@[pid as int].token_mint == token_mint
                &&& final(self).projects@[pid as int].vault == vault
                &&& final(self).projects@[pid as int].name@ == name@
                &&& final(self).projects@[pid as int].fee_wallet == caller
                &&& final(self).projects@[pid as int].token_program == token_program
                &&& final(self).projects@[pid as int].unstake_fee_bps == 0
                &&& final(self).projects@[pid as int].emergency_unstake_fee_bps == 0
                &&& final(self).projects@[pid as int].allowed_durations@ == allowed_durations@
            },
    {
        match project::register_project(
            &mut self.platform,
            caller,
            name,
            allowed_durations,
            token_mint,
            vault,
            token_program,
        ) {
            Ok(p) => {
                let pid = p.project_id;
                self.projects.push(p);
                Ok(pid)
            },
            Err(e) => Err(e),
        }
    }

    /// Overwrites a project's fee policy; see
    /// [`project::update_project_config`]. Only the project's own record
    /// changes, and only when both rates are within bounds.
    pub fn update_project_config(
        &mut self,
        project_id: u64,
        caller: &AccountId,
        fee_wallet: AccountId,
        unstake_fee_bps: u16,
        emergency_unstake_fee_bps: u16,
    ) -> (r: Result<(), ErrorCode>)
        requires
            old(self).wf(),
            project_id < old(self).projects@.len(),
            *caller == old(self).projects@[project_id as int].authority,
        ensures
            final(self).wf(),
            final(self).platform == old(self).platform,
            final(self).stakes@ == old(self).stakes@,
            final(self).unstakes@ == old(self).unstakes@,
            r is Ok <==> unstake_fee_bps <= crate::policy::MAX_FEE_BPS && emergency_unstake_fee_bps
                <= crate::policy::MAX_FEE_BPS,
            r is Err ==> r == Err::<(), ErrorCode>(ErrorCode::InvalidFeeBps) && final(self).projects@
                == old(self).projects@,
            r is Ok ==> final(self).projects@ == old(self).projects@.update(
                project_id as int,
                ProjectConfig {
                    fee_wallet,
                    unstake_fee_bps,
                    emergency_unstake_fee_bps,
                    ..old(self).projects@[project_id as int]
                },
            ),
    {
        proof {
            assert(self.projects.len() == self.projects@.len());
        }
        let idx: usize = project_id as usize;
        let p = vstd::std_specs::vec::vec_index_mut(&mut self.projects, idx);
        let r = project::update_project_config(
            p,
            caller,
            fee_wallet,
            unstake_fee_bps,
            emergency_unstake_fee_bps,
        );
        proof {
            if r is Err {
                assert(self.projects@ =~= old(self).projects@);
            } else {
                assert(self.projects@ =~= old(self).projects@.update(
                    project_id as int,
                    ProjectConfig {
                        fee_wallet,
                        unstake_fee_bps,
                        emergency_unstake_fee_bps,
                        ..old(self).projects@[project_id as int]
                    },
                ));
            }
        }
        r
    }

    /// Replaces a project's allowed-duration list; see
    /// [`project::update_allowed_durations`]. After any such update the
    /// list holds at most 10 entries.
    pub fn update_allowed_durations(
        &mut self,
        project_id: u64,
        caller: &AccountId,
        new_durations: Vec<u32>,
    ) -> (r: Result<(), ErrorCode>)
        requires
            old(self).wf(),
            project_id < old(self).projects@.len(),
            *caller == old(self).projects@[project_id as int].authority,
        ensures
            final(self).wf(),
            final(self).platform == old(self).platform,
            final(self).stakes@ == old(self).stakes@,
            final(self).unstakes@ == old(self).unstakes@,
            final(self).projects@[project_id as int].allowed_durations@.len()
                <= project::MAX_DURATIONS,
            r is Ok <==> new_durations@.len() <= project::MAX_DURATIONS,
            r is Err ==> r == Err::<(), ErrorCode>(ErrorCode::TooManyDurations) && final(self).projects@
                == old(self).projects@,
            r is Ok ==> final(self).projects@ == old(self).projects@.update(
                project_id as int,
                ProjectConfig {
                    allowed_durations: new_durations,
                    ..old(self).projects@[project_id as int]
                },
            ),
    {
        proof {
            assert(self.projects.len() == self.projects@.len());
        }
        let idx: usize = project_id as usize;
        let p = vstd::std_specs::vec::vec_index_mut(&mut self.projects, idx);
        let r = project::update_allowed_durations(p, caller, new_durations);
        proof {
            if r is Err {
                assert(self.projects@ =~= old(self).projects@);
            } else {
                assert(self.projects@ =~= old(self).projects@.update(
                    project_id as int,
                    ProjectConfig {
                        allowed_durations: new_durations,
                        ..old(self).projects@[project_id as int]
                    },
                ));
            }
        }
        r
    }
}

impl StakingLedger {
    /// Deposits a stake: creates the record addressed by (project,
    /// depositor, stake id) and hands back the inbound transfer.
    ///
    /// The record's address is derived from that tuple, so a second deposit
    /// naming the same tuple finds the address occupied and fails without
    /// touching the first record or anything else. A duration outside the
    /// project's current list is rejected by policy.
    pub fn stake(
        &mut self,
        project_id: u64,
        project_address: AccountId,
        user: AccountId,
        user_token_account: AccountId,
        amount: u64,
        duration_days: u32,
        stake_id: u64,
        now: i64,
    ) -> (r: Result<(TransferInstruction, StakeEvent), LedgerError>)
        requires
            old(self).wf(),
            project_id < old(self).projects@.len(),
        ensures
            final(self).wf(),
            final(self).platform == old(self).platform,
            final(self).projects@ == old(self).projects@,
            final(self).unstakes@ == old(self).unstakes@,
            old(self).has_stake(user, project_id, stake_id) ==> r == Err::<
                (TransferInstruction, StakeEvent),
                LedgerError,
            >(LedgerError::RecordAlreadyExists),
            r is Ok <==> !old(self).has_stake(user, project_id, stake_id) && spec_duration_allowed(
                old(self).projects@[project_id as int].allowed_durations@,
                duration_days,
            ),
            !old(self).has_stake(user, project_id, stake_id) && !spec_duration_allowed(
                old(self).projects@[project_id as int].allowed_durations@,
                duration_days,
            ) ==> r == Err::<(TransferInstruction, StakeEvent), LedgerError>(
                LedgerError::Rejected(ErrorCode::InvalidDuration),
            ),
            r is Err ==> final(self).stakes@ == old(self).stakes@,
            r matches Ok((t, e)) ==> {
                &&& final(self).stakes@ == old(self).stakes@.push(
                    UserStakeInfo {
                        user,
                        project_config: project_address,
                        project_id,
                        stake_id,
                        amount,
                        stake_timestamp: now,
                        duration_days,
                        is_staked: true,
                    },
                )
                &&& t == (TransferInstruction {
                    from: user_token_account,
                    to: old(self).projects@[project_id as int].vault,
                    authority: user,
                    amount,
                })
                &&& e == (StakeEvent { user, project_id, stake_id, amount, duration_days })
            },
    {
        match self.find_stake(&user, project_id, stake_id) {
            Some(_) => {
                return Err(LedgerError::RecordAlreadyExists);
            },
            None => {},
        }
        proof {
            assert(self.projects.len() == self.projects@.len());
        }
        let idx: usize = project_id as usize;
        let project = &self.projects[idx];
        match stake::stake(
            project,
            project_address,
            user,
            user_token_account,
            amount,
            duration_days,
            stake_id,
            now,
        ) {
            Err(e) => Err(LedgerError::Rejected(e)),
            Ok(o) => {
                self.stakes.push(o.stake_info);
                proof {
                    assert forall|i: int, j: int|
                        0 <= i < j < self.stakes@.len() implies stake_key(self.stakes@[i])
                        != stake_key(self.stakes@[j]) by {
                        if j == self.stakes@.len() - 1 {
                            assert(stake_key(self.stakes@[j]) == (user, project_id, stake_id));
                            assert(stake_key(old(self).stakes@[i]) != (user, project_id, stake_id));
                        }
                    }
                }
                Ok((o.transfer, o.event))
            },
        }
    }

    /// Withdraws a stake through the standard path; see [`stake::unstake`]
    /// for the policy. The stake record addressed by the key is kept with
    /// its active flag cleared, and the satellite unstake record is created
    /// if absent or reused if this key withdrew before. On any rejection
    /// neither store changes.
    pub fn unstake(
        &mut self,
        project_id: u64,
        user: AccountId,
        stake_id: u64,
        stake_address: AccountId,
        vault_authority: AccountId,
        user_token_account: AccountId,
        fee_wallet_account: AccountId,
        fee_wallet_owner: AccountId,
        now: i64,
    ) -> (r: Result<UnstakeOutcome, LedgerError>)
        requires
            old(self).wf(),
            project_id < old(self).projects@.len(),
        ensures
            final(self).wf(),
            final(self).platform == old(self).platform,
            final(self).projects@ == old(self).projects@,
            !old(self).has_stake(user, project_id, stake_id) ==> r == Err::<
                UnstakeOutcome,
                LedgerError,
            >(LedgerError::RecordNotFound),
            r is Ok <==> old(self).has_stake(user, project_id, stake_id) && old(
                self,
            ).spec_stake_record(user, project_id, stake_id).is_staked && fee_wallet_owner == old(
                self,
            ).projects@[project_id as int].fee_wallet && spec_lockup_ended(
                old(self).spec_stake_record(user, project_id, stake_id).stake_timestamp,
                old(self).spec_stake_record(user, project_id, stake_id).duration_days,
                now,
            ),
            old(self).has_stake(user, project_id, stake_id) && !old(self).spec_stake_record(
                user,
                project_id,
                stake_id,
            ).is_staked ==> r == Err::<UnstakeOutcome, LedgerError>(
                LedgerError::Rejected(ErrorCode::StakeNotActive),
            ),
            old(self).has_stake(user, project_id, stake_id) && old(self).spec_stake_record(
                user,
                project_id,
                stake_id,
            ).is_staked && fee_wallet_owner != old(self).projects@[project_id as int].fee_wallet
                ==> r == Err::<UnstakeOutcome, LedgerError>(
                LedgerError::Rejected(ErrorCode::InvalidFeeWallet),
            ),
            old(self).has_stake(user, project_id, stake_id) && old(self).spec_stake_record(
                user,
                project_id,
                stake_id,
            ).is_staked && fee_wallet_owner == old(self).projects@[project_id as int].fee_wallet
                && !spec_lockup_ended(
                old(self).spec_stake_record(user, project_id, stake_id).stake_timestamp,
                old(self).spec_stake_record(user, project_id, stake_id).duration_days,
                now,
            ) ==> r == Err::<UnstakeOutcome, LedgerError>(
                LedgerError::Rejected(ErrorCode::LockupPeriodNotEnded),
            ),
            r is Err ==> final(self).stakes@ == old(self).stakes@ && final(self).unstakes@ == old(
                self,
            ).unstakes@,
            r matches Ok(o) ==> ({
                let rec = old(self).spec_stake_record(user, project_id, stake_id);
                let k = old(self).spec_stake_index(user, project_id, stake_id);
                let vault = old(self).projects@[project_id as int].vault;
                &&& final(self).stakes@ == old(self).stakes@.update(
                    k,
                    UserStakeInfo { is_staked: false, ..rec },
                )
                &&& o.fee_amount == crate::policy::spec_fee_amount(
                    rec.amount,
                    old(self).projects@[project_id as int].unstake_fee_bps,
                )
                &&& o.fee_amount + o.payout == rec.amount
                &&& o.fee_amount > 0 ==> o.fee_transfer == Some(
                    TransferInstruction {
                        from: vault,
                        to: fee_wallet_account,
                        authority: vault_authority,
                        amount: o.fee_amount,
                    },
                )
                &&& o.fee_amount == 0 ==> o.fee_transfer is None
                &&& o.payout_transfer == (TransferInstruction {
                    from: vault,
                    to: user_token_account,
                    authority: vault_authority,
                    amount: o.payout,
                })
                &&& o.unstake_info == (UnstakeInfo {
                    user: rec.user,
                    project_config: rec.project_config,
                    project_id: rec.project_id,
                    stake_info: stake_address,
                    stake_id: rec.stake_id,
                    amount: rec.amount,
                    unstake_timestamp: now,
                    status: StakeStatus::Unstaked,
                })
                &&& final(self).unstakes@ == if old(self).has_unstake(user, project_id, stake_id) {
                    old(self).unstakes@.update(
                        old(self).spec_unstake_index(user, project_id, stake_id),
                        o.unstake_info,
                    )
                } else {
                    old(self).unstakes@.push(o.unstake_info)
                }
                &&& o.event == (UnstakeEvent {
                    user: rec.user,
                    project_id: rec.project_id,
                    stake_id: rec.stake_id,
                    amount: rec.amount,
                })
            }),
    {
        let k = match self.find_stake(&user, project_id, stake_id) {
            None => {
                return Err(LedgerError::RecordNotFound);
            },
            Some(i) => i,
        };
        proof {
            lemma_stake_index_unique(*self, user, project_id, stake_id, k as int);
        }
        proof {
            assert(self.projects.len() == self.projects@.len());
        }
        let idx: usize = project_id as usize;
        let mut rec = self.stakes[k];
        let project = &self.projects[idx];
        match stake::unstake(
            project,
            &mut rec,
            stake_address,
            vault_authority,
            user_token_account,
            fee_wallet_account,
            fee_wallet_owner,
            now,
        ) {
            Err(e) => Err(LedgerError::Rejected(e)),
            Ok(o) => {
                self.stakes.set(k, rec);
                match self.find_unstake(&user, project_id, stake_id) {
                    Some(j) => {
                        proof {
                            lemma_unstake_index_unique(
                                *old(self),
                                user,
                                project_id,
                                stake_id,
                                j as int,
                            );
                        }
                        self.unstakes.set(j, o.unstake_info);
                    },
                    None => {
                        self.unstakes.push(o.unstake_info);
                    },
                }
                proof {
                    lemma_withdrawal_preserves_wf(*old(self), *self, k as int, user, project_id, stake_id);
                }
                Ok(o)
            },
        }
    }
}

impl StakingLedger {
    /// Withdraws a stake through the emergency path; see
    /// [`stake::emergency_unstake`] for the policy. Valid only while the
    /// lockup has not yet ended; the fee comes from the emergency rate.
    /// Record handling mirrors the standard path: the stake record stays
    /// with its active flag cleared, the satellite record is created or
    /// reused, and on any rejection neither store changes.
    pub fn emergency_unstake(
        &mut self,
        project_id: u64,
        user: AccountId,
        stake_id: u64,
        stake_address: AccountId,
        vault_authority: AccountId,
        user_token_account: AccountId,
        fee_wallet_account: AccountId,
        fee_wallet_owner: AccountId,
        now: i64,
    ) -> (r: Result<EmergencyUnstakeOutcome, LedgerError>)
        requires
            old(self).wf(),
            project_id < old(self).projects@.len(),
        ensures
            final(self).wf(),
            final(self).platform == old(self).platform,
            final(self).projects@ == old(self).projects@,
            !old(self).has_stake(user, project_id, stake_id) ==> r == Err::<
                EmergencyUnstakeOutcome,
                LedgerError,
            >(LedgerError::RecordNotFound),
            r is Ok <==> old(self).has_stake(user, project_id, stake_id) && old(
                self,
            ).spec_stake_record(user, project_id, stake_id).is_staked && fee_wallet_owner == old(
                self,
            ).projects@[project_id as int].fee_wallet && !spec_lockup_ended(
                old(self).spec_stake_record(user, project_id, stake_id).stake_timestamp,
                old(self).spec_stake_record(user, project_id, stake_id).duration_days,
                now,
            ),
            old(self).has_stake(user, project_id, stake_id) && !old(self).spec_stake_record(
                user,
                project_id,
                stake_id,
            ).is_staked ==> r == Err::<EmergencyUnstakeOutcome, LedgerError>(
                LedgerError::Rejected(ErrorCode::StakeNotActive),
            ),
            old(self).has_stake(user, project_id, stake_id) && old(self).spec_stake_record(
                user,
                project_id,
                stake_id,
            ).is_staked && fee_wallet_owner != old(self).projects@[project_id as int].fee_wallet
                ==> r == Err::<EmergencyUnstakeOutcome, LedgerError>(
                LedgerError::Rejected(ErrorCode::InvalidFeeWallet),
            ),
            old(self).has_stake(user, project_id, stake_id) && old(self).spec_stake_record(
                user,
                project_id,
                stake_id,
            ).is_staked && fee_wallet_owner == old(self).projects@[project_id as int].fee_wallet
                && spec_lockup_ended(
                old(self).spec_stake_record(user, project_id, stake_id).stake_timestamp,
                old(self).spec_stake_record(user, project_id, stake_id).duration_days,
                now,
            ) ==> r == Err::<EmergencyUnstakeOutcome, LedgerError>(
                LedgerError::Rejected(ErrorCode::LockupPeriodEnded),
            ),
            r is Err ==> final(self).stakes@ == old(self).stakes@ && final(self).unstakes@ == old(
                self,
            ).unstakes@,
            r matches Ok(o) ==> ({
                let rec = old(self).spec_stake_record(user, project_id, stake_id);
                let k = old(self).spec_stake_index(user, project_id, stake_id);
                let vault = old(self).projects@[project_id as int].vault;
                &&& final(self).stakes@ == old(self).stakes@.update(
                    k,
                    UserStakeInfo { is_staked: false, ..rec },
                )
                &&& o.fee_amount == crate::policy::spec_fee_amount(
                    rec.amount,
                    old(self).projects@[project_id as int].emergency_unstake_fee_bps,
                )
                &&& o.fee_amount + o.payout == rec.amount
                &&& o.fee_amount > 0 ==> o.fee_transfer == Some(
                    TransferInstruction {
                        from: vault,
                        to: fee_wallet_account,
                        authority: vault_authority,
                        amount: o.fee_amount,
                    },
                )
                &&& o.fee_amount == 0 ==> o.fee_transfer is None
                &&& o.payout_transfer == (TransferInstruction {
                    from: vault,
                    to: user_token_account,
                    authority: vault_authority,
                    amount: o.payout,
                })
                &&& o.unstake_info == (UnstakeInfo {
                    user: rec.user,
                    project_config: rec.project_config,
                    project_id: rec.project_id,
                    stake_info: stake_address,
                    stake_id: rec.stake_id,
                    amount: rec.amount,
                    unstake_timestamp: now,
                    status: StakeStatus::EmergencyUnstaked,
                })
                &&& final(self).unstakes@ == if old(self).has_unstake(user, project_id, stake_id) {
                    old(self).unstakes@.update(
                        old(self).spec_unstake_index(user, project_id, stake_id),
                        o.unstake_info,
                    )
                } else {
                    old(self).unstakes@.push(o.unstake_info)
                }
                &&& o.event == (EmergencyUnstakeEvent {
                    user: rec.user,
                    project_id: rec.project_id,
                    stake_id: rec.stake_id,
                    amount: rec.amount,
                })
            }),
    {
        let k = match self.find_stake(&user, project_id, stake_id) {
            None => {
                return Err(LedgerError::RecordNotFound);
            },
            Some(i) => i,
        };
        proof {
            lemma_stake_index_unique(*self, user, project_id, stake_id, k as int);
        }
        proof {
            assert(self.projects.len() == self.projects@.len());
        }
        let idx: usize = project_id as usize;
        let mut rec = self.stakes[k];
        let project = &self.projects[idx];
        match stake::emergency_unstake(
            project,
            &mut rec,
            stake_address,
            vault_authority,
            user_token_account,
            fee_wallet_account,
            fee_wallet_owner,
            now,
        ) {
            Err(e) => Err(LedgerError::Rejected(e)),
            Ok(o) => {
                self.stakes.set(k, rec);
                match self.find_unstake(&user, project_id, stake_id) {
                    Some(j) => {
                        proof {
                            lemma_unstake_index_unique(
                                *old(self),
                                user,
                                project_id,
                                stake_id,
                                j as int,
                            );
                        }
                        self.unstakes.set(j, o.unstake_info);
                    },
                    None => {
                        self.unstakes.push(o.unstake_info);
                    },
                }
                proof {
                    lemma_withdrawal_preserves_wf(*old(self), *self, k as int, user, project_id, stake_id);
                }
                Ok(o)
            },
        }
    }
}

/// After a withdrawal the ledger invariant still holds: the stake store was
/// updated in place at its key's position without changing the key, and the
/// unstake store either gained a fresh key or reused the position that
/// already held it.
proof fn lemma_withdrawal_preserves_wf(
    pre: StakingLedger,
    post: StakingLedger,
    k: int,
    user: AccountId,
    project_id: u64,
    stake_id: u64,
)
    requires
        pre.wf(),
        post.platform == pre.platform,
        post.projects@ == pre.projects@,
        0 <= k < pre.stakes@.len(),
        stake_key(pre.stakes@[k]) == (user, project_id, stake_id),
        post.stakes@ == pre.stakes@.update(
            k,
            UserStakeInfo { is_staked: false, ..pre.stakes@[k] },
        ),
        post.unstakes@ == if pre.has_unstake(user, project_id, stake_id) {
            pre.unstakes@.update(
                pre.spec_unstake_index(user, project_id, stake_id),
                post.unstakes@[pre.spec_unstake_index(user, project_id, stake_id)],
            )
        } else {
            pre.unstakes@.push(post.unstakes@[post.unstakes@.len() - 1])
        },
        pre.has_unstake(user, project_id, stake_id) ==> unstake_key(
            post.unstakes@[pre.spec_unstake_index(user, project_id, stake_id)],
        ) == (user, project_id, stake_id),
        !pre.has_unstake(user, project_id, stake_id) ==> unstake_key(
            post.unstakes@[post.unstakes@.len() - 1],
        ) == (user, project_id, stake_id),
    ensures
        post.wf(),
{
    assert forall|i: int, j: int|
        0 <= i < j < post.stakes@.len() implies stake_key(post.stakes@[i]) != stake_key(
        post.stakes@[j],
    ) by {
        assert(stake_key(post.stakes@[i]) == stake_key(pre.stakes@[i]));
        assert(stake_key(post.stakes@[j]) == stake_key(pre.stakes@[j]));
    }
    assert forall|i: int|
        0 <= i < post.stakes@.len() implies (#[trigger] post.stakes@[i]).project_id
        < post.projects@.len() by {
        assert(post.stakes@[i].project_id == pre.stakes@[i].project_id);
    }
    if pre.has_unstake(user, project_id, stake_id) {
        let u = pre.spec_unstake_index(user, project_id, stake_id);
        assert(0 <= u < pre.unstakes@.len() && unstake_key(pre.unstakes@[u]) == (
            user,
            project_id,
            stake_id,
        ));
        assert forall|i: int, j: int|
            0 <= i < j < post.unstakes@.len() implies unstake_key(post.unstakes@[i])
            != unstake_key(post.unstakes@[j]) by {
            assert(unstake_key(post.unstakes@[i]) == unstake_key(pre.unstakes@[i]));
            assert(unstake_key(post.unstakes@[j]) == unstake_key(pre.unstakes@[j]));
        }
    } else {
        assert forall|i: int, j: int|
            0 <= i < j < post.unstakes@.len() implies unstake_key(post.unstakes@[i])
            != unstake_key(post.unstakes@[j]) by {
            if j == post.unstakes@.len() - 1 {
                assert(unstake_key(post.unstakes@[j]) == (user, project_id, stake_id));
                assert(unstake_key(pre.unstakes@[i]) != (user, project_id, stake_id));
            }
        }
    }
}

} // verus!
