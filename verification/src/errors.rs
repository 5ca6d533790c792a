//! Typed rejections of the staking operations.
//!
//! Every failure is a synchronous, typed rejection returned before any state
//! mutation commits. Policy violations point at out-of-policy input,
//! authorization failures at a missing role, temporal failures at a request
//! made at the wrong time, and the rest at a conflict with current record
//! state.

use vstd::prelude::*;

verus! {

/// The reasons an operation can be rejected.
#[derive(Clone, Copy, PartialEq, Eq, Structural, Debug)]
pub enum ErrorCode {
    /// The requested duration is not in the project's allowed list.
    InvalidDuration,
    /// The lockup period has not ended yet.
    LockupPeriodNotEnded,
    /// A project name may not exceed 32 code units.
    NameTooLong,
    /// At most 10 allowed durations may be configured.
    TooManyDurations,
    /// The presented fee account is not owned by the project's fee recipient.
    InvalidFeeWallet,
    /// The caller is not a platform authority.
    NotPlatformAuthority,
    /// The authority to add is already present.
    AuthorityAlreadyExists,
    /// The last remaining authority cannot be removed.
    CannotRemoveLastAuthority,
    /// The authority to remove is not present.
    AuthorityNotFound,
    /// The stake record is no longer active.
    StakeNotActive,
    /// A fee cannot exceed 10000 basis points.
    InvalidFeeBps,
    /// The lockup period has already ended; the standard path applies.
    LockupPeriodEnded,
}

} // verus!
