//! Identities of accounts and records.
//!
//! Every participant and every record is named by a 32-byte identifier: a
//! human key, a derived record address, or an asset identity. The library
//! only ever compares identifiers and copies their bytes into seed tuples,
//! so a plain byte array is the whole model.

use vstd::prelude::*;

verus! {

/// A 32-byte account or record identifier.
pub type AccountId = [u8; 32];

/// Whether `ids` holds `id`.
pub open spec fn spec_ids_contain(ids: Seq<AccountId>, id: AccountId) -> bool {
    ids.contains(id)
}

/// Byte-for-byte equality of two identifiers.
pub fn id_eq(a: &AccountId, b: &AccountId) -> (r: bool)
    ensures
        r == (a == b),
{
    let mut i: usize = 0;
    while i < 32
        invariant
            i <= 32,
            forall|j: int| 0 <= j < i ==> a@[j] == b@[j],
        decreases 32 - i,
    {
        if a[i] != b[i] {
            assert(a@ != b@);
            return false;
        }
        i += 1;
    }
    proof {
        assert(a =~= b);
    }
    true
}

/// Linear search for `id` in `ids`.
pub fn ids_find(ids: &Vec<AccountId>, id: &AccountId) -> (r: Option<usize>)
    ensures
        match r {
            Some(i) => i < ids.len() && ids@[i as int] == id
                && forall|j: int| 0 <= j < i ==> ids@[j] != id,
            None => !spec_ids_contain(ids@, *id),
        },
{
    let mut i: usize = 0;
    while i < ids.len()
        invariant
            i <= ids.len(),
            forall|j: int| 0 <= j < i ==> ids@[j] != id,
        decreases ids.len() - i,
    {
        if id_eq(&ids[i], id) {
            return Some(i);
        }
        i += 1;
    }
    None
}

/// Whether `ids` holds `id`.
pub fn ids_contain(ids: &Vec<AccountId>, id: &AccountId) -> (r: bool)
    ensures
        r == spec_ids_contain(ids@, *id),
{
    match ids_find(ids, id) {
        Some(_) => true,
        None => false,
    }
}

} // verus!
