//! A multi-tenant staking ledger.
//!
//! A platform hosts independently configured projects; users lock a fungible
//! asset with a project for a chosen duration and later withdraw it, normally
//! after the lockup has ended or early through an emergency path, in both
//! cases minus a basis-point fee that the project's policy sets.
//!
//! The library is the staking state machine itself: deterministic record
//! addressing, lifecycle transitions of stake records, lockup validation,
//! fee arithmetic, and multi-authority governance. The asset mover that
//! actually shifts balances, the storage substrate that creates and resizes
//! records, signature checking and the clock are external collaborators: the
//! operations here receive their readings as arguments and hand back the
//! transfer instructions for the host to perform.

pub mod addressing;
pub mod errors;
pub mod identity;
pub mod ledger;
pub mod platform;
pub mod policy;
pub mod project;
pub mod stake;
