use crate::pubkey::Pubkey;
use vstd::prelude::*;

verus! {

/// The literal tag that begins every vault-authority derivation: the bytes of
/// "escrow".
pub open spec fn vault_tag() -> Seq<u8> {
    seq![101u8, 115u8, 99u8, 114u8, 111u8, 119u8]
}

/// What `Pubkey::try_find_program_address` returns for the seed slices
/// `[tag, maker, seed as little-endian bytes]` under `program`: a SHA-256-based
/// search over bump values whose outcome is a function of those inputs alone.
pub uninterp spec fn derived_address(
    tag: Seq<u8>,
    program: Seq<u8>,
    maker: Seq<u8>,
    seed: u64,
) -> Option<(Seq<u8>, u8)>;

/// Relies on `Pubkey::try_find_program_address` of solana-pubkey (re-exported
/// through anchor-lang), applied to the seed slices `[tag, maker, seed
/// little-endian]`: the returned address and bump, and whether any are found,
/// are a deterministic function of the seeds and the program id.
#[verifier::external_body]
fn find_program_address(tag: &[u8; 6], maker: &Pubkey, seed: u64, program: &Pubkey) -> (r: Option<
    (Pubkey, u8),
>)
    ensures
        r is Some <==> derived_address(tag@, program@, maker@, seed) is Some,
        r matches Some((address, bump)) ==> derived_address(tag@, program@, maker@, seed) == Some(
            (address@, bump),
        ),
{
    let seed_bytes = seed.to_le_bytes();
    let seeds: [&[u8]; 3] = [tag, &maker.bytes, &seed_bytes];
    let program_id = anchor_lang::solana_program::pubkey::Pubkey::new_from_array(program.bytes);
    match anchor_lang::solana_program::pubkey::Pubkey::try_find_program_address(
        &seeds,
        &program_id,
    ) {
        Some((address, bump)) => Some((Pubkey { bytes: address.to_bytes() }, bump)),
        None => None,
    }
}

/// The vault authority belonging to (program, maker, seed): the address
/// derived under the fixed tag, with its bump.
pub open spec fn vault_authority_of(program: Seq<u8>, maker: Seq<u8>, seed: u64) -> Option<
    (Seq<u8>, u8),
> {
    derived_address(vault_tag(), program, maker, seed)
}

/// Derive the vault authority for (program, maker, seed). The result is pinned
/// to `vault_authority_of`, so deriving twice from the same inputs yields the
/// same address and the same bump, at open time as at any later settlement.
pub fn derive_vault_authority(program: &Pubkey, maker: &Pubkey, seed: u64) -> (r: Option<
    (Pubkey, u8),
>)
    ensures
        r is Some <==> vault_authority_of(program@, maker@, seed) is Some,
        r matches Some((address, bump)) ==> vault_authority_of(program@, maker@, seed) == Some(
            (address@, bump),
        ),
{
    let tag: [u8; 6] = [101u8, 115u8, 99u8, 114u8, 111u8, 119u8];
    proof {
        assert(tag@ =~= vault_tag());
    }
    find_program_address(&tag, maker, seed, program)
}

} // verus!
