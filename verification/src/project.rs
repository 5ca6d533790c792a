//! The per-project registry and its governance operations.
//!
//! Each project owns its asset identity, custody references, fee policy and
//! the list of allowed stake durations. Policy fields change only at the
//! project authority's request; the duration list is variable-length, so its
//! record is resized to the exact byte size the new list implies.

use vstd::prelude::*;

use crate::errors::ErrorCode;
use crate::identity::{ids_contain, AccountId};
use crate::platform::PlatformConfig;
use crate::policy::MAX_FEE_BPS;

verus! {

/// The longest permitted project name, in code units.
pub const MAX_NAME_LEN: usize = 32;

/// The most allowed durations a project may configure.
pub const MAX_DURATIONS: usize = 10;

/// The configuration record of one staking project.
pub struct ProjectConfig {
    /// Unique numeric id, assigned from the platform counter at creation.
    pub project_id: u64,
    /// The identity permitted to change this project's policy.
    pub authority: AccountId,
    /// The fungible asset staked in this project.
    pub token_mint: AccountId,
    /// The custody record holding all staked assets of this project.
    pub vault: AccountId,
    /// Human-readable name, at most 32 code units.
    pub name: Vec<u8>,
    /// The identity whose asset account receives withdrawal fees.
    pub fee_wallet: AccountId,
    /// Which asset-transfer service variant this project uses.
    pub token_program: AccountId,
    /// Fee in basis points on a standard withdrawal.
    pub unstake_fee_bps: u16,
    /// Fee in basis points on an emergency withdrawal.
    pub emergency_unstake_fee_bps: u16,
    /// The lockup durations, in days, a stake may choose from.
    pub allowed_durations: Vec<u32>,
}

impl ProjectConfig {
    /// The project invariant: bounded name, bounded fees, bounded list.
    pub open spec fn wf(self) -> bool {
        &&& self.name@.len() <= MAX_NAME_LEN
        &&& self.unstake_fee_bps <= MAX_FEE_BPS
        &&& self.emergency_unstake_fee_bps <= MAX_FEE_BPS
        &&& self.allowed_durations@.len() <= MAX_DURATIONS
    }
}

/// Registers a new project on the platform.
///
/// Only a platform authority may register; the name and duration list must
/// be within bounds. The new project takes the counter as its id, the caller
/// as both project authority and fee recipient, and starts with both fees at
/// zero; the counter then advances by one. On any rejection the platform is
/// left untouched.
pub fn register_project(
    platform: &mut PlatformConfig,
    caller: AccountId,
    name: Vec<u8>,
    allowed_durations: Vec<u32>,
    token_mint: AccountId,
    vault: AccountId,
    token_program: AccountId,
) -> (r: Result<ProjectConfig, ErrorCode>)
    requires
        old(platform).wf(),
        old(platform).project_count < u64::MAX,
    ensures
        final(platform).wf(),
        final(platform).authorities@ == old(platform).authorities@,
        r is Ok <==> old(platform).is_authority(caller) && name@.len() <= MAX_NAME_LEN
            && allowed_durations@.len() <= MAX_DURATIONS,
        !old(platform).is_authority(caller)
            ==> r == Err::<ProjectConfig, ErrorCode>(ErrorCode::NotPlatformAuthority),
        old(platform).is_authority(caller) && name@.len() > MAX_NAME_LEN
            ==> r == Err::<ProjectConfig, ErrorCode>(ErrorCode::NameTooLong),
        old(platform).is_authority(caller) && name@.len() <= MAX_NAME_LEN
            && allowed_durations@.len() > MAX_DURATIONS
            ==> r == Err::<ProjectConfig, ErrorCode>(ErrorCode::TooManyDurations),
        r is Err ==> *final(platform) == *old(platform),
        r matches Ok(p) ==> {
            &&& final(platform).project_count == old(platform).project_count + 1
            &&& p.project_id == old(platform).project_count
            &&& p.authority == caller
            &&& p.token_mint == token_mint
            &&& p.vault == vault
            &&& p.name@ == name@
            &&& p.fee_wallet == caller
            &&& p.token_program == token_program
            &&& p.unstake_fee_bps == 0
            &&& p.emergency_unstake_fee_bps == 0
            &&& p.allowed_durations@ == allowed_durations@
            &&& p.wf()
        },
{
    if !ids_contain(&platform.authorities, &caller) {
        return Err(ErrorCode::NotPlatformAuthority);
    }
    if name.len() > MAX_NAME_LEN {
        return Err(ErrorCode::NameTooLong);
    }
    if allowed_durations.len() > MAX_DURATIONS {
        return Err(ErrorCode::TooManyDurations);
    }
    let project = ProjectConfig {
        project_id: platform.project_count,
        authority: caller,
        token_mint,
        vault,
        name,
        fee_wallet: caller,
        token_program,
        unstake_fee_bps: 0,
        emergency_unstake_fee_bps: 0,
        allowed_durations,
    };
    platform.project_count = platform.project_count + 1;
    Ok(project)
}

/// Overwrites the fee recipient and the two fee rates in one step.
///
/// Only the project authority may call this, which the host's record
/// ownership check enforces before the call. Either fee above 10000 basis
/// points rejects the whole update and changes nothing.
pub fn update_project_config(
    project: &mut ProjectConfig,
    caller: &AccountId,
    fee_wallet: AccountId,
    unstake_fee_bps: u16,
    emergency_unstake_fee_bps: u16,
) -> (r: Result<(), ErrorCode>)
    requires
        old(project).wf(),
        *caller == old(project).authority,
    ensures
        final(project).wf(),
        r is Ok <==> unstake_fee_bps <= MAX_FEE_BPS && emergency_unstake_fee_bps <= MAX_FEE_BPS,
        r is Err ==> r == Err::<(), ErrorCode>(ErrorCode::InvalidFeeBps)
            && *final(project) == *old(project),
        r is Ok ==> *final(project) == (ProjectConfig {
            fee_wallet,
            unstake_fee_bps,
            emergency_unstake_fee_bps,
            ..*old(project)
        }),
{
    if unstake_fee_bps > MAX_FEE_BPS || emergency_unstake_fee_bps > MAX_FEE_BPS {
        return Err(ErrorCode::InvalidFeeBps);
    }
    project.fee_wallet = fee_wallet;
    project.unstake_fee_bps = unstake_fee_bps;
    project.emergency_unstake_fee_bps = emergency_unstake_fee_bps;
    Ok(())
}

/// Replaces the allowed-duration list.
///
/// Only the project authority may call this, which the host's record
/// ownership check enforces before the call. A list of more than 10 entries
/// is rejected and nothing changes; on success the record is to be resized
/// to the exact byte size the new list implies, see
/// [`project_record_size`].
pub fn update_allowed_durations(
    project: &mut ProjectConfig,
    caller: &AccountId,
    new_durations: Vec<u32>,
) -> (r: Result<(), ErrorCode>)
    requires
        old(project).wf(),
        *caller == old(project).authority,
    ensures
        final(project).wf(),
        final(project).allowed_durations@.len() <= MAX_DURATIONS,
        r is Ok <==> new_durations@.len() <= MAX_DURATIONS,
        r is Err ==> r == Err::<(), ErrorCode>(ErrorCode::TooManyDurations)
            && *final(project) == *old(project),
        r is Ok ==> *final(project) == (ProjectConfig {
            allowed_durations: new_durations,
            ..*old(project)
        }),
{
    if new_durations.len() > MAX_DURATIONS {
        return Err(ErrorCode::TooManyDurations);
    }
    project.allowed_durations = new_durations;
    Ok(())
}

/// The exact byte size of a project record: an 8-byte record tag, the fixed
/// fields, a length-prefixed name and a length-prefixed duration list.
pub open spec fn spec_project_record_size(name_len: int, n_durations: int) -> int {
    8 + 8 + 32 + 32 + 32 + (4 + name_len) + 32 + 32 + 2 + 2 + (4 + n_durations * 4)
}

/// Computes the byte size a project record must be resized to for a name of
/// `name_len` code units and `n_durations` allowed durations.
pub fn project_record_size(name_len: usize, n_durations: usize) -> (r: usize)
    requires
        name_len <= MAX_NAME_LEN,
        n_durations <= MAX_DURATIONS,
    ensures
        r == spec_project_record_size(name_len as int, n_durations as int),
{
    8 + 8 + 32 + 32 + 32 + (4 + name_len) + 32 + 32 + 2 + 2 + (4 + n_durations * 4)
}

} // verus!
