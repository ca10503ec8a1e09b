use crate::identity::Identity;
use vstd::prelude::*;

verus! {

/// The deterministic derivation of an address and bump seed from a list of
/// seed byte strings and a program identity, or nothing when no bump seed
/// yields a valid address. Computed by the execution environment's hash
/// derivation; a function of its arguments alone.
pub uninterp spec fn spec_derived_address(seeds: Seq<Seq<u8>>, program: Seq<u8>) -> Option<
    (Seq<u8>, u8),
>;

pub open spec fn view_derived(r: Option<(Identity, u8)>) -> Option<(Seq<u8>, u8)> {
    match r {
        Some(p) => Some((p.0@, p.1)),
        None => None,
    }
}

/// Relies on solana_program::pubkey::Pubkey::try_find_program_address: the
/// derived address and bump seed depend on the seeds and program id alone,
/// the returned address is 32 bytes, and the call never panics.
#[verifier::external_body]
fn try_find_derived_address(seeds: &Vec<Vec<u8>>, program_id: &Identity) -> (r: Option<
    (Identity, u8),
>)
    requires
        program_id.wf(),
    ensures
        view_derived(r) == spec_derived_address(
            seeds@.map_values(|s: Vec<u8>| s@),
            program_id@,
        ),
        r matches Some(p) ==> p.0.wf(),
{
    let pid = solana_program::pubkey::Pubkey::new_from_array(
        program_id.bytes.as_slice().try_into().unwrap(),
    );
    let seed_refs: Vec<&[u8]> = seeds.iter().map(|s| s.as_slice()).collect();
    solana_program::pubkey::Pubkey::try_find_program_address(&seed_refs, &pid).map(
        |p: (solana_program::pubkey::Pubkey, u8)| (Identity { bytes: p.0.to_bytes().to_vec() }, p.1),
    )
}

/// The fixed salt that scopes the escrow authority derivation: the bytes of
/// "rappid-paltform".
pub open spec fn spec_escrow_seed_prefix() -> Seq<u8> {
    seq![
        114u8,
        97u8,
        112u8,
        112u8,
        105u8,
        100u8,
        45u8,
        112u8,
        97u8,
        108u8,
        116u8,
        102u8,
        111u8,
        114u8,
        109u8,
    ]
}

/// The seeds of the escrow authority: the fixed salt, then the registry
/// record's address.
pub open spec fn spec_escrow_seeds(registry_addr: Seq<u8>) -> Seq<Seq<u8>> {
    seq![spec_escrow_seed_prefix(), registry_addr]
}

/// The seeds of a user position record's address: the user's identity, then
/// the asset's identity.
pub open spec fn spec_user_position_seeds(user: Seq<u8>, asset: Seq<u8>) -> Seq<Seq<u8>> {
    seq![user, asset]
}

/// The escrow authority's derivation, or nothing for it.
pub open spec fn spec_escrow_authority(registry_addr: Seq<u8>, program: Seq<u8>) -> Option<
    (Seq<u8>, u8),
> {
    spec_derived_address(spec_escrow_seeds(registry_addr), program)
}

/// A user position address's derivation, or nothing for it.
pub open spec fn spec_user_position_address(user: Seq<u8>, asset: Seq<u8>, program: Seq<u8>) -> Option<
    (Seq<u8>, u8),
> {
    spec_derived_address(spec_user_position_seeds(user, asset), program)
}

fn escrow_seed_prefix_bytes() -> (r: Vec<u8>)
    ensures
        r@ == spec_escrow_seed_prefix(),
{
    let mut v: Vec<u8> = Vec::new();
    v.push(114u8);
    v.push(97u8);
    v.push(112u8);
    v.push(112u8);
    v.push(105u8);
    v.push(100u8);
    v.push(45u8);
    v.push(112u8);
    v.push(97u8);
    v.push(108u8);
    v.push(116u8);
    v.push(102u8);
    v.push(111u8);
    v.push(114u8);
    v.push(109u8);
    proof {
        assert(v@ =~= spec_escrow_seed_prefix());
    }
    v
}

/// Derives the escrow authority for a registry address: the address that
/// owns staked-asset custody and the reward pool, and its bump seed.
pub fn find_escrow_authority(registry_addr: &Identity, program_id: &Identity) -> (r: Option<
    (Identity, u8),
>)
    requires
        program_id.wf(),
    ensures
        view_derived(r) == spec_escrow_authority(registry_addr@, program_id@),
        r matches Some(p) ==> p.0.wf(),
{
    let mut seeds: Vec<Vec<u8>> = Vec::new();
    seeds.push(escrow_seed_prefix_bytes());
    seeds.push(registry_addr.duplicate().bytes);
    proof {
        assert(seeds@.map_values(|s: Vec<u8>| s@) =~= spec_escrow_seeds(registry_addr@));
    }
    try_find_derived_address(&seeds, program_id)
}

/// Derives the address that must hold a user's position record for a given
/// asset, and its bump seed.
pub fn find_user_position_address(user: &Identity, asset: &Identity, program_id: &Identity) -> (r:
    Option<(Identity, u8)>)
    requires
        program_id.wf(),
    ensures
        view_derived(r) == spec_user_position_address(user@, asset@, program_id@),
        r matches Some(p) ==> p.0.wf(),
{
    let mut seeds: Vec<Vec<u8>> = Vec::new();
    seeds.push(user.duplicate().bytes);
    seeds.push(asset.duplicate().bytes);
    proof {
        assert(seeds@.map_values(|s: Vec<u8>| s@) =~= spec_user_position_seeds(user@, asset@));
    }
    try_find_derived_address(&seeds, program_id)
}

} // verus!
