//! Deterministic record addressing.
//!
//! Every record of the system lives at an address derived from a seed tuple
//! of public data: a fixed tag naming the record kind, followed by the
//! counters and identities that make the record unique. The derivation also
//! yields a disambiguation bump chosen so that the address has no private
//! key; re-deriving the vault authority's address from the same public
//! seeds is what authorizes moving funds out of a vault.
//!
//! Identical seed tuples always derive the identical address, and the seed
//! tuples of the records keyed by caller-chosen data are proved injective
//! in that data, so a record's address is determined by exactly the tuple
//! that names it.

use vstd::bytes::{spec_u64_to_le_bytes, u64_to_le_bytes};
use vstd::prelude::*;
use vstd::slice::slice_to_vec;

use crate::identity::AccountId;

verus! {

/// The address and bump that the derivation of `seeds` under `program_id`
/// yields, or `None` in the statistically improbable event that no bump
/// lands off-curve, and for over-long seed tuples. The derivation is a pure
/// hash of its arguments, the same in every process; only this trusted name
/// stands for its value.
pub uninterp spec fn derived_address(seeds: Seq<Seq<u8>>, program_id: Seq<u8>) -> Option<
    (Seq<u8>, u8),
>;

/// Relies on `Pubkey::try_find_program_address` of the Solana SDK: the
/// derivation hashes the seed tuple and program id together with a bump
/// searched downward from 255, deterministically, and returns `None` rather
/// than panicking when no bump fits or a seed is over-long.
#[verifier::external_body]
fn find_program_address(seeds: &Vec<Vec<u8>>, program_id: &AccountId) -> (r: Option<
    (AccountId, u8),
>)
    ensures
        (match r {
            Some(p) => Some((p.0@, p.1)),
            None => None::<(Seq<u8>, u8)>,
        }) == derived_address(seeds.deep_view(), program_id@),
{
    let refs: Vec<&[u8]> = seeds.iter().map(|s| s.as_slice()).collect();
    let program = anchor_lang::prelude::Pubkey::new_from_array(*program_id);
    anchor_lang::prelude::Pubkey::try_find_program_address(&refs, &program)
        .map(|(address, bump)| (address.to_bytes(), bump))
}

/// The tag of the platform singleton's seed tuple, the bytes of "platform".
pub open spec fn platform_tag() -> Seq<u8> {
    seq![112u8, 108u8, 97u8, 116u8, 102u8, 111u8, 114u8, 109u8]
}

/// The tag of a project record's seed tuple, the bytes of "project".
pub open spec fn project_tag() -> Seq<u8> {
    seq![112u8, 114u8, 111u8, 106u8, 101u8, 99u8, 116u8]
}

/// The tag of a vault record's seed tuple, the bytes of "vault".
pub open spec fn vault_tag() -> Seq<u8> {
    seq![118u8, 97u8, 117u8, 108u8, 116u8]
}

/// The tag of a vault authority's seed tuple, the bytes of
/// "vault-authority".
pub open spec fn vault_authority_tag() -> Seq<u8> {
    seq![
        118u8, 97u8, 117u8, 108u8, 116u8, 45u8, 97u8, 117u8, 116u8, 104u8, 111u8, 114u8, 105u8,
        116u8, 121u8,
    ]
}

/// The tag of a stake record's seed tuple, the bytes of "stake".
pub open spec fn stake_tag() -> Seq<u8> {
    seq![115u8, 116u8, 97u8, 107u8, 101u8]
}

/// The tag of an unstake record's seed tuple, the bytes of "unstake".
pub open spec fn unstake_tag() -> Seq<u8> {
    seq![117u8, 110u8, 115u8, 116u8, 97u8, 107u8, 101u8]
}

/// The platform singleton's seed tuple: the tag alone.
pub open spec fn spec_platform_seeds() -> Seq<Seq<u8>> {
    seq![platform_tag()]
}

/// A project record's seed tuple: the tag and the platform counter at
/// creation time.
pub open spec fn spec_project_seeds(project_count: u64) -> Seq<Seq<u8>> {
    seq![project_tag(), spec_u64_to_le_bytes(project_count)]
}

/// A vault record's seed tuple: the tag and the project id.
pub open spec fn spec_vault_seeds(project_id: u64) -> Seq<Seq<u8>> {
    seq![vault_tag(), spec_u64_to_le_bytes(project_id)]
}

/// A vault authority's seed tuple: the tag and the project id.
pub open spec fn spec_vault_authority_seeds(project_id: u64) -> Seq<Seq<u8>> {
    seq![vault_authority_tag(), spec_u64_to_le_bytes(project_id)]
}

/// A stake record's seed tuple: the tag, the project record's address, the
/// depositor, and the client-chosen stake id.
pub open spec fn spec_stake_seeds(project_address: AccountId, user: AccountId, stake_id: u64) -> Seq<
    Seq<u8>,
> {
    seq![stake_tag(), project_address@, user@, spec_u64_to_le_bytes(stake_id)]
}

/// An unstake record's seed tuple: the tag and the stake record's address.
pub open spec fn spec_unstake_seeds(stake_address: AccountId) -> Seq<Seq<u8>> {
    seq![unstake_tag(), stake_address@]
}

/// Builds the platform singleton's seed tuple.
fn platform_seeds() -> (r: Vec<Vec<u8>>)
    ensures
        r.deep_view() == spec_platform_seeds(),
{
    let tag: Vec<u8> = vec![112u8, 108u8, 97u8, 116u8, 102u8, 111u8, 114u8, 109u8];
    let mut seeds: Vec<Vec<u8>> = Vec::new();
    proof {
        assert(tag@ =~= platform_tag());
    }
    seeds.push(tag);
    proof {
        assert(seeds.deep_view() =~~= spec_platform_seeds());
    }
    seeds
}

/// Builds a tagged seed tuple whose second seed is a 64-bit counter.
fn tag_and_counter_seeds(tag: Vec<u8>, counter: u64) -> (r: Vec<Vec<u8>>)
    ensures
        r.deep_view() == seq![tag@, spec_u64_to_le_bytes(counter)],
{
    let ghost tag_bytes = tag@;
    let mut seeds: Vec<Vec<u8>> = Vec::new();
    seeds.push(tag);
    seeds.push(u64_to_le_bytes(counter));
    proof {
        assert(seeds.deep_view() =~~= seq![tag_bytes, spec_u64_to_le_bytes(counter)]);
    }
    seeds
}

/// Derives the platform singleton's address.
pub fn derive_platform_address(program_id: &AccountId) -> (r: Option<(AccountId, u8)>)
    ensures
        (match r {
            Some(p) => Some((p.0@, p.1)),
            None => None::<(Seq<u8>, u8)>,
        }) == derived_address(spec_platform_seeds(), program_id@),
{
    let seeds = platform_seeds();
    find_program_address(&seeds, program_id)
}

/// Derives the address of the project registered while the platform counter
/// stood at `project_count`.
pub fn derive_project_address(project_count: u64, program_id: &AccountId) -> (r: Option<
    (AccountId, u8),
>)
    ensures
        (match r {
            Some(p) => Some((p.0@, p.1)),
            None => None::<(Seq<u8>, u8)>,
        }) == derived_address(spec_project_seeds(project_count), program_id@),
{
    let tag: Vec<u8> = vec![112u8, 114u8, 111u8, 106u8, 101u8, 99u8, 116u8];
    proof {
        assert(tag@ =~= project_tag());
    }
    let seeds = tag_and_counter_seeds(tag, project_count);
    find_program_address(&seeds, program_id)
}

/// Derives the address of a project's vault.
pub fn derive_vault_address(project_id: u64, program_id: &AccountId) -> (r: Option<
    (AccountId, u8),
>)
    ensures
        (match r {
            Some(p) => Some((p.0@, p.1)),
            None => None::<(Seq<u8>, u8)>,
        }) == derived_address(spec_vault_seeds(project_id), program_id@),
{
    let tag: Vec<u8> = vec![118u8, 97u8, 117u8, 108u8, 116u8];
    proof {
        assert(tag@ =~= vault_tag());
    }
    let seeds = tag_and_counter_seeds(tag, project_id);
    find_program_address(&seeds, program_id)
}

/// Derives a project's vault authority: the capability identity that
/// authorizes outbound vault transfers, re-derivable by anyone from public
/// seeds and holding no private key.
pub fn derive_vault_authority_address(project_id: u64, program_id: &AccountId) -> (r: Option<
    (AccountId, u8),
>)
    ensures
        (match r {
            Some(p) => Some((p.0@, p.1)),
            None => None::<(Seq<u8>, u8)>,
        }) == derived_address(spec_vault_authority_seeds(project_id), program_id@),
{
    let tag: Vec<u8> = vec![
        118u8, 97u8, 117u8, 108u8, 116u8, 45u8, 97u8, 117u8, 116u8, 104u8, 111u8, 114u8, 105u8,
        116u8, 121u8,
    ];
    proof {
        assert(tag@ =~= vault_authority_tag());
    }
    let seeds = tag_and_counter_seeds(tag, project_id);
    find_program_address(&seeds, program_id)
}

/// Derives the address of the stake record that `user` names `stake_id`
/// under the project at `project_address`.
pub fn derive_stake_address(
    project_address: &AccountId,
    user: &AccountId,
    stake_id: u64,
    program_id: &AccountId,
) -> (r: Option<(AccountId, u8)>)
    ensures
        (match r {
            Some(p) => Some((p.0@, p.1)),
            None => None::<(Seq<u8>, u8)>,
        }) == derived_address(spec_stake_seeds(*project_address, *user, stake_id), program_id@),
{
    let tag: Vec<u8> = vec![115u8, 116u8, 97u8, 107u8, 101u8];
    proof {
        assert(tag@ =~= stake_tag());
    }
    let mut seeds: Vec<Vec<u8>> = Vec::new();
    seeds.push(tag);
    seeds.push(slice_to_vec(project_address.as_slice()));
    seeds.push(slice_to_vec(user.as_slice()));
    seeds.push(u64_to_le_bytes(stake_id));
    proof {
        assert(seeds.deep_view() =~~= spec_stake_seeds(*project_address, *user, stake_id));
    }
    find_program_address(&seeds, program_id)
}

/// Derives the address of the unstake record satellite to the stake record
/// at `stake_address`.
pub fn derive_unstake_address(stake_address: &AccountId, program_id: &AccountId) -> (r: Option<
    (AccountId, u8),
>)
    ensures
        (match r {
            Some(p) => Some((p.0@, p.1)),
            None => None::<(Seq<u8>, u8)>,
        }) == derived_address(spec_unstake_seeds(*stake_address), program_id@),
{
    let tag: Vec<u8> = vec![117u8, 110u8, 115u8, 116u8, 97u8, 107u8, 101u8];
    proof {
        assert(tag@ =~= unstake_tag());
    }
    let mut seeds: Vec<Vec<u8>> = Vec::new();
    seeds.push(tag);
    seeds.push(slice_to_vec(stake_address.as_slice()));
    proof {
        assert(seeds.deep_view() =~~= spec_unstake_seeds(*stake_address));
    }
    find_program_address(&seeds, program_id)
}

/// Two stakes that agree on project, depositor and stake id present the
/// identical seed tuple, and so derive the identical address: the second
/// creation at that address must fail at the storage substrate. Conversely,
/// tuples that differ in any of the three name different seed tuples.
pub proof fn lemma_stake_seeds_injective(
    pa1: AccountId,
    u1: AccountId,
    id1: u64,
    pa2: AccountId,
    u2: AccountId,
    id2: u64,
)
    ensures
        spec_stake_seeds(pa1, u1, id1) == spec_stake_seeds(pa2, u2, id2) <==> (pa1 == pa2 && u1
            == u2 && id1 == id2),
{
    vstd::bytes::lemma_auto_spec_u64_to_from_le_bytes();
    if spec_stake_seeds(pa1, u1, id1) == spec_stake_seeds(pa2, u2, id2) {
        assert(spec_stake_seeds(pa1, u1, id1)[1] == spec_stake_seeds(pa2, u2, id2)[1]);
        assert(pa1@ == pa2@);
        assert(pa1 =~= pa2);
        assert(spec_stake_seeds(pa1, u1, id1)[2] == spec_stake_seeds(pa2, u2, id2)[2]);
        assert(u1 =~= u2);
        assert(spec_stake_seeds(pa1, u1, id1)[3] == spec_stake_seeds(pa2, u2, id2)[3]);
    }
    if pa1 == pa2 && u1 == u2 && id1 == id2 {
        assert(spec_stake_seeds(pa1, u1, id1) =~~= spec_stake_seeds(pa2, u2, id2));
    }
}

/// Two projects registered at different counter readings present different
/// seed tuples; the counter is monotonic, so every project's address seed
/// tuple is unique.
pub proof fn lemma_project_seeds_injective(c1: u64, c2: u64)
    ensures
        spec_project_seeds(c1) == spec_project_seeds(c2) <==> c1 == c2,
{
    vstd::bytes::lemma_auto_spec_u64_to_from_le_bytes();
    if spec_project_seeds(c1) == spec_project_seeds(c2) {
        assert(spec_project_seeds(c1)[1] == spec_project_seeds(c2)[1]);
    }
}

/// A vault and its vault authority never share a seed tuple, whatever the
/// project ids: their tags already differ.
pub proof fn lemma_vault_and_authority_seeds_differ(id1: u64, id2: u64)
    ensures
        spec_vault_seeds(id1) != spec_vault_authority_seeds(id2),
{
    assert(vault_tag().len() != vault_authority_tag().len());
}

} // verus!
