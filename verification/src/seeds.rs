//! The seeds from which the addresses of pools and vaults are derived, and
//! which stand in for a signature where an address has no key.

use vstd::prelude::*;
use vstd::slice::slice_to_vec;
use vstd::utf8::{encode_utf8, is_ascii_chars_encode_utf8};
use crate::pubkey::Pubkey;

verus! {

/// `staking_pool` in ASCII: the tag under which the address of a pool is
/// derived from the address of its agent.
pub const STAKING_POOL_TAG: [u8; 12] = [
    0x73,
    0x74,
    0x61,
    0x6b,
    0x69,
    0x6e,
    0x67,
    0x5f,
    0x70,
    0x6f,
    0x6f,
    0x6c,
];

/// `token_vault` in ASCII: the tag under which the address of a vault is
/// derived from the address of its pool.
pub const TOKEN_VAULT_TAG: [u8; 11] = [
    0x74,
    0x6f,
    0x6b,
    0x65,
    0x6e,
    0x5f,
    0x76,
    0x61,
    0x75,
    0x6c,
    0x74,
];

/// The two tags spell what their names say.
pub proof fn lemma_tags_spell()
    ensures
        STAKING_POOL_TAG@ == encode_utf8("staking_pool"@),
        TOKEN_VAULT_TAG@ == encode_utf8("token_vault"@),
{
    reveal_strlit("staking_pool");
    reveal_strlit("token_vault");
    is_ascii_chars_encode_utf8("staking_pool"@);
    is_ascii_chars_encode_utf8("token_vault"@);
    assert(STAKING_POOL_TAG@ =~= encode_utf8("staking_pool"@));
    assert(TOKEN_VAULT_TAG@ =~= encode_utf8("token_vault"@));
}

/// The seeds of a derived address: the tag, the key it is derived from, and
/// the bump. Who can show them for an address stands behind that address.
pub open spec fn derived_seeds(tag: Seq<u8>, parent: Pubkey, bump: u8) -> Seq<Seq<u8>> {
    seq![tag, parent@, seq![bump]]
}

/// The seeds of the address derived from `parent` under `tag` with `bump`.
pub fn seeds_of(tag: &[u8], parent: &Pubkey, bump: u8) -> (seeds: Vec<Vec<u8>>)
    ensures
        seeds.deep_view() == derived_seeds(tag@, *parent, bump),
{
    let mut seeds: Vec<Vec<u8>> = Vec::new();
    seeds.push(slice_to_vec(tag));
    seeds.push(slice_to_vec(parent.bytes.as_slice()));
    let mut last: Vec<u8> = Vec::new();
    last.push(bump);
    seeds.push(last);
    assert(seeds.deep_view() =~~= derived_seeds(tag@, *parent, bump));
    seeds
}

} // verus!
