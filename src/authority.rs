use vstd::prelude::*;

use crate::address::{program_address_of, single_seed, try_find_program_address};

verus! {

/// Seed of the upgrade authority: the bytes of "upgrade".
pub const UPGRADE_SEED_PREFIX: [u8; 7] = [117, 112, 103, 114, 97, 100, 101];

/// The signer that the loader knows as this program's upgrade authority, derived from
/// a fixed seed and never stored.
#[derive(Debug, Clone, Copy)]
pub struct AuthorityIdentity {
    pub address: [u8; 32],
    pub bump: u8,
}

pub open spec fn authority_view(a: Option<AuthorityIdentity>) -> Option<(Seq<u8>, u8)> {
    match a {
        Some(i) => Some((i.address@, i.bump)),
        None => None,
    }
}

/// The upgrade authority of `program_id`, as address and bump.
pub open spec fn upgrade_authority_of(program_id: Seq<u8>) -> Option<(Seq<u8>, u8)> {
    program_address_of(seq![UPGRADE_SEED_PREFIX@], program_id)
}

/// Derives the upgrade authority of `program_id` from its fixed seed.
pub fn derive_upgrade_authority(program_id: &[u8; 32]) -> (r: Option<AuthorityIdentity>)
    ensures
        authority_view(r) == upgrade_authority_of(program_id@),
{
    let seeds = single_seed(&UPGRADE_SEED_PREFIX);
    match try_find_program_address(&seeds, program_id) {
        Some((address, bump)) => Some(AuthorityIdentity { address, bump }),
        None => None,
    }
}

/// Deriving the upgrade authority twice for the same program gives the same address
/// and the same bump.
pub proof fn authority_derivation_is_deterministic(
    program_id: [u8; 32],
    first: Option<AuthorityIdentity>,
    second: Option<AuthorityIdentity>,
)
    requires
        authority_view(first) == upgrade_authority_of(program_id@),
        authority_view(second) == upgrade_authority_of(program_id@),
    ensures
        first == second,
{
    if let (Some(a), Some(b)) = (first, second) {
        assert(a.address@ == b.address@);
        assert(a.address =~= b.address);
    }
}

} // verus!
