//! The platform registry and its governance operations.
//!
//! A single registry holds the set of identities allowed to register
//! projects and a monotonic project counter. The authority list is never
//! empty and never holds duplicates; the counter only grows, by one per
//! registered project.

use vstd::prelude::*;

use crate::errors::ErrorCode;
use crate::identity::{ids_contain, ids_find, spec_ids_contain, AccountId};

verus! {

/// The singleton platform registry.
pub struct PlatformConfig {
    /// The identities permitted to register projects and change this list.
    pub authorities: Vec<AccountId>,
    /// How many projects have ever been registered.
    pub project_count: u64,
}

impl PlatformConfig {
    /// The registry invariant: at least one authority, and no duplicates.
    pub open spec fn wf(self) -> bool {
        &&& self.authorities@.len() >= 1
        &&& forall|i: int, j: int|
            0 <= i < j < self.authorities@.len() ==> self.authorities@[i] != self.authorities@[j]
    }

    /// Whether `id` holds the platform authority role.
    pub open spec fn is_authority(self, id: AccountId) -> bool {
        spec_ids_contain(self.authorities@, id)
    }
}

/// Creates the platform registry with the caller as its only authority and
/// no projects yet. The storage substrate guarantees this happens at most
/// once; a second creation fails there, before this runs.
pub fn initialize_platform(caller: AccountId) -> (p: PlatformConfig)
    ensures
        p.authorities@ == seq![caller],
        p.project_count == 0,
        p.wf(),
{
    let mut authorities: Vec<AccountId> = Vec::new();
    authorities.push(caller);
    proof {
        assert(authorities@ =~= seq![caller]);
    }
    PlatformConfig { authorities, project_count: 0 }
}

/// Appends a new authority to the platform.
///
/// Only an existing authority may call this, and the identity to add must
/// not already be present; on success the list grows by exactly that one
/// entry and the project counter is untouched.
pub fn add_authority(
    platform: &mut PlatformConfig,
    caller: &AccountId,
    new_authority: AccountId,
) -> (r: Result<(), ErrorCode>)
    requires
        old(platform).wf(),
    ensures
        final(platform).wf(),
        final(platform).project_count == old(platform).project_count,
        r is Ok <==> old(platform).is_authority(*caller)
            && !old(platform).is_authority(new_authority),
        r is Ok ==> final(platform).authorities@
            == old(platform).authorities@.push(new_authority),
        !old(platform).is_authority(*caller)
            ==> r == Err::<(), ErrorCode>(ErrorCode::NotPlatformAuthority),
        old(platform).is_authority(*caller) && old(platform).is_authority(new_authority)
            ==> r == Err::<(), ErrorCode>(ErrorCode::AuthorityAlreadyExists),
        r is Err ==> *final(platform) == *old(platform),
{
    if !ids_contain(&platform.authorities, caller) {
        return Err(ErrorCode::NotPlatformAuthority);
    }
    if ids_contain(&platform.authorities, &new_authority) {
        return Err(ErrorCode::AuthorityAlreadyExists);
    }
    platform.authorities.push(new_authority);
    proof {
        let s = platform.authorities@;
        assert forall|i: int, j: int| 0 <= i < j < s.len() implies s[i] != s[j] by {
            if j == s.len() - 1 {
                assert(s[i] == old(platform).authorities@[i]);
                assert(old(platform).authorities@.contains(old(platform).authorities@[i]));
            }
        }
    }
    Ok(())
}

/// Removes an authority from the platform.
///
/// Only an existing authority may call this; the last remaining authority
/// can never be removed, so the list stays non-empty. On success exactly the
/// named entry is gone and every other authority keeps its role.
pub fn remove_authority(
    platform: &mut PlatformConfig,
    caller: &AccountId,
    authority_to_remove: AccountId,
) -> (r: Result<(), ErrorCode>)
    requires
        old(platform).wf(),
    ensures
        final(platform).wf(),
        final(platform).project_count == old(platform).project_count,
        r is Ok <==> old(platform).is_authority(*caller)
            && old(platform).authorities@.len() > 1
            && old(platform).is_authority(authority_to_remove),
        !old(platform).is_authority(*caller)
            ==> r == Err::<(), ErrorCode>(ErrorCode::NotPlatformAuthority),
        old(platform).is_authority(*caller) && old(platform).authorities@.len() == 1
            ==> r == Err::<(), ErrorCode>(ErrorCode::CannotRemoveLastAuthority),
        old(platform).is_authority(*caller) && old(platform).authorities@.len() > 1
            && !old(platform).is_authority(authority_to_remove)
            ==> r == Err::<(), ErrorCode>(ErrorCode::AuthorityNotFound),
        r is Err ==> *final(platform) == *old(platform),
        r is Ok ==> {
            &&& final(platform).authorities@.len() == old(platform).authorities@.len() - 1
            &&& !final(platform).is_authority(authority_to_remove)
            &&& forall|x: AccountId| x != authority_to_remove
                ==> (final(platform).is_authority(x) <==> old(platform).is_authority(x))
        },
{
    if !ids_contain(&platform.authorities, caller) {
        return Err(ErrorCode::NotPlatformAuthority);
    }
    if platform.authorities.len() <= 1 {
        return Err(ErrorCode::CannotRemoveLastAuthority);
    }
    match ids_find(&platform.authorities, &authority_to_remove) {
        Some(pos) => {
            platform.authorities.remove(pos);
            proof {
                lemma_removed_entry(old(platform).authorities@, pos as int);
            }
            Ok(())
        },
        None => Err(ErrorCode::AuthorityNotFound),
    }
}

/// The exact byte size of the platform record: an 8-byte record tag, the
/// length-prefixed authority list and the project counter. Adding or
/// removing an authority resizes the record by one 32-byte identity width.
pub open spec fn spec_platform_record_size(n_authorities: int) -> int {
    8 + (4 + n_authorities * 32) + 8
}

/// Computes the byte size the platform record must be resized to for
/// `n_authorities` authorities.
pub fn platform_record_size(n_authorities: usize) -> (r: usize)
    requires
        n_authorities * 32 + 20 <= usize::MAX,
    ensures
        r == spec_platform_record_size(n_authorities as int),
{
    8 + (4 + n_authorities * 32) + 8
}

/// Removing position `i` from a duplicate-free sequence keeps it
/// duplicate-free, drops the entry that stood there, and keeps every other
/// entry's membership unchanged.
proof fn lemma_removed_entry(s: Seq<AccountId>, i: int)
    requires
        0 <= i < s.len(),
        forall|p: int, q: int| 0 <= p < q < s.len() ==> s[p] != s[q],
    ensures
        forall|p: int, q: int| 0 <= p < q < s.remove(i).len() ==> s.remove(i)[p] != s.remove(i)[q],
        !s.remove(i).contains(s[i]),
        forall|x: AccountId| x != s[i] ==> (s.remove(i).contains(x) <==> s.contains(x)),
{
    let t = s.remove(i);
    assert forall|k: int| 0 <= k < t.len() implies t[k] == (if k < i { s[k] } else { s[k + 1] }) by {}
    assert forall|k: int| 0 <= k < t.len() implies t[k] != s[i] by {
        if k < i {
            assert(t[k] == s[k]);
        } else {
            assert(t[k] == s[k + 1]);
        }
    }
    assert forall|x: AccountId| x != s[i] && s.contains(x) implies t.contains(x) by {
        let w = choose|w: int| 0 <= w < s.len() && s[w] == x;
        if w < i {
            assert(t[w] == x);
        } else {
            assert(t[w - 1] == x);
        }
    }
    assert forall|x: AccountId| t.contains(x) implies s.contains(x) by {
        let w = choose|w: int| 0 <= w < t.len() && t[w] == x;
        if w < i {
            assert(s[w] == x);
        } else {
            assert(s[w + 1] == x);
        }
    }
}

} // verus!
