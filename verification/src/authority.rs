//! Deterministic, keyless authority derivation.
//!
//! Every capability of the protocol — the vault authority that may move
//! escrowed funds, the derivative-mint authority that may mint and burn the
//! derivative, the location of an asset's descriptive metadata — is an
//! address derived from a purpose tag and the asset's identity under a
//! program's identity. The derivation is a pure function of its seeds: the
//! same inputs always yield the same address and disambiguation value, the
//! derived address holds no private key, and only code that can present the
//! matching seeds and disambiguation value may sign for it.

use vstd::prelude::*;

use crate::address::Address;

verus! {

/// What the ledger's program-address derivation returns for the given seed
/// list under the given program identity: the derived address and its
/// disambiguation value, or nothing in the statistically improbable event
/// that no disambiguation value works, or when the seed list is too long or
/// a seed exceeds the maximum seed length.
pub uninterp spec fn pda_of(seeds: Seq<Seq<u8>>, program: Address) -> Option<(Address, u8)>;

/// Relies on solana_program's `Pubkey::try_find_program_address`: a pure,
/// deterministic function of the seed list and the program identity, with
/// `None` for inputs on which no derivation exists.
#[verifier::external_body]
fn find_pda(seeds: &Vec<Vec<u8>>, program: &Address) -> (r: Option<(Address, u8)>)
    ensures
        r == pda_of(seeds.deep_view(), *program),
{
    let mut program_bytes = [0u8; 32];
    program_bytes[..16].copy_from_slice(&program.lo.to_le_bytes());
    program_bytes[16..].copy_from_slice(&program.hi.to_le_bytes());
    let program_key = solana_program::pubkey::Pubkey::new_from_array(program_bytes);
    let seed_slices: Vec<&[u8]> = seeds.iter().map(|s| s.as_slice()).collect();
    solana_program::pubkey::Pubkey::try_find_program_address(&seed_slices, &program_key).map(
        |(address, bump)| {
            let b = address.to_bytes();
            let lo = u128::from_le_bytes(b[0..16].try_into().unwrap());
            let hi = u128::from_le_bytes(b[16..32].try_into().unwrap());
            (Address { lo, hi }, bump)
        },
    )
}

/// The tag scoping an asset's vault authority.
pub open spec fn vault_authority_tag() -> Seq<u8> {
    seq![118u8, 97, 117, 108, 116, 95, 97, 117, 116, 104, 111, 114, 105, 116, 121]
}

/// The tag scoping an asset's derivative-mint authority.
pub open spec fn derivative_authority_tag() -> Seq<u8> {
    seq![100u8, 101, 114, 105, 118, 97, 116, 105, 118, 101, 95, 97, 117, 116, 104, 111, 114, 105, 116, 121]
}

/// The tag scoping an asset's derivative mint.
pub open spec fn derivative_mint_tag() -> Seq<u8> {
    seq![100u8, 101, 114, 105, 118, 97, 116, 105, 118, 101, 95, 109, 105, 110, 116]
}

/// The tag under which the metadata registry stores descriptive metadata.
pub open spec fn metadata_tag() -> Seq<u8> {
    seq![109u8, 101, 116, 97, 100, 97, 116, 97]
}

/// The seed list of an asset's vault authority: the vault tag and the
/// asset's identity.
pub open spec fn vault_authority_seeds(token_mint: Address) -> Seq<Seq<u8>> {
    seq![vault_authority_tag(), token_mint.bytes()]
}

/// The seed list of an asset's derivative-mint authority.
pub open spec fn derivative_authority_seeds(token_mint: Address) -> Seq<Seq<u8>> {
    seq![derivative_authority_tag(), token_mint.bytes()]
}

/// The seed list of an asset's derivative mint.
pub open spec fn derivative_mint_seeds(token_mint: Address) -> Seq<Seq<u8>> {
    seq![derivative_mint_tag(), token_mint.bytes()]
}

/// The seed list of the descriptive metadata of `mint` under `registry`:
/// the metadata tag, the registry's identity, and the mint's identity.
pub open spec fn metadata_seeds(registry: Address, mint: Address) -> Seq<Seq<u8>> {
    seq![metadata_tag(), registry.bytes(), mint.bytes()]
}

fn push_bytes(out: &mut Vec<Vec<u8>>, bytes: Vec<u8>)
    ensures
        final(out)@.len() == old(out)@.len() + 1,
        final(out).deep_view() =~~= old(out).deep_view().push(bytes@),
{
    let ghost prior = out.deep_view();
    out.push(bytes);
    proof {
        assert(out.deep_view() =~~= prior.push(out@.last()@));
    }
}

fn vault_authority_seed_bytes() -> (r: Vec<u8>)
    ensures
        r@ == vault_authority_tag(),
{
    let v: Vec<u8> = vec![118u8, 97, 117, 108, 116, 95, 97, 117, 116, 104, 111, 114, 105, 116, 121];
    proof {
        assert(v@ =~= vault_authority_tag());
    }
    v
}

fn derivative_authority_seed_bytes() -> (r: Vec<u8>)
    ensures
        r@ == derivative_authority_tag(),
{
    let v: Vec<u8> = vec![
        100u8, 101, 114, 105, 118, 97, 116, 105, 118, 101, 95, 97, 117, 116, 104, 111, 114, 105,
        116, 121,
    ];
    proof {
        assert(v@ =~= derivative_authority_tag());
    }
    v
}

fn derivative_mint_seed_bytes() -> (r: Vec<u8>)
    ensures
        r@ == derivative_mint_tag(),
{
    let v: Vec<u8> = vec![100u8, 101, 114, 105, 118, 97, 116, 105, 118, 101, 95, 109, 105, 110, 116];
    proof {
        assert(v@ =~= derivative_mint_tag());
    }
    v
}

fn metadata_seed_bytes() -> (r: Vec<u8>)
    ensures
        r@ == metadata_tag(),
{
    let v: Vec<u8> = vec![109u8, 101, 116, 97, 100, 97, 116, 97];
    proof {
        assert(v@ =~= metadata_tag());
    }
    v
}

/// The vault authority of `token_mint` under `program_id`: the only identity
/// that may move funds out of the asset's vault.
pub fn vault_authority_address(token_mint: &Address, program_id: &Address) -> (r: Option<
    (Address, u8),
>)
    ensures
        r == pda_of(vault_authority_seeds(*token_mint), *program_id),
{
    let mut seeds: Vec<Vec<u8>> = Vec::new();
    push_bytes(&mut seeds, vault_authority_seed_bytes());
    push_bytes(&mut seeds, token_mint.to_bytes());
    proof {
        assert(seeds.deep_view() =~~= vault_authority_seeds(*token_mint));
    }
    find_pda(&seeds, program_id)
}

/// The derivative-mint authority of `token_mint` under `program_id`: the
/// only identity that may mint or burn the asset's derivative.
pub fn derivative_authority_address(token_mint: &Address, program_id: &Address) -> (r: Option<
    (Address, u8),
>)
    ensures
        r == pda_of(derivative_authority_seeds(*token_mint), *program_id),
{
    let mut seeds: Vec<Vec<u8>> = Vec::new();
    push_bytes(&mut seeds, derivative_authority_seed_bytes());
    push_bytes(&mut seeds, token_mint.to_bytes());
    proof {
        assert(seeds.deep_view() =~~= derivative_authority_seeds(*token_mint));
    }
    find_pda(&seeds, program_id)
}

/// Where the derivative mint of `token_mint` lives under `program_id`.
pub fn derivative_mint_address(token_mint: &Address, program_id: &Address) -> (r: Option<
    (Address, u8),
>)
    ensures
        r == pda_of(derivative_mint_seeds(*token_mint), *program_id),
{
    let mut seeds: Vec<Vec<u8>> = Vec::new();
    push_bytes(&mut seeds, derivative_mint_seed_bytes());
    push_bytes(&mut seeds, token_mint.to_bytes());
    proof {
        assert(seeds.deep_view() =~~= derivative_mint_seeds(*token_mint));
    }
    find_pda(&seeds, program_id)
}

/// Where the metadata registry `registry` stores the descriptive metadata of
/// `mint`.
pub fn token_metadata_address(mint: &Address, registry: &Address) -> (r: Option<(Address, u8)>)
    ensures
        r == pda_of(metadata_seeds(*registry, *mint), *registry),
{
    let mut seeds: Vec<Vec<u8>> = Vec::new();
    push_bytes(&mut seeds, metadata_seed_bytes());
    push_bytes(&mut seeds, registry.to_bytes());
    push_bytes(&mut seeds, mint.to_bytes());
    proof {
        assert(seeds.deep_view() =~~= metadata_seeds(*registry, *mint));
    }
    find_pda(&seeds, registry)
}

} // verus!
