//! Deterministic identities of the wrapped-asset mints and of the mint authority.
use vstd::prelude::*;
use vstd::string::StringSliceAdditionalSpecFns;
use crate::error::ClaimError;
use crate::bytes::{append_bytes, prefix_bytes};
use crate::solana::{find_program_address, program_address_of};

verus! {

/// How many leading bytes of the contract identity and of the token id go
/// into a wrapped mint's seeds.
pub const SEED_PREFIX_LEN: usize = 10;

/// The seeds of the wrapped mint for an asset pair: a domain tag and the
/// leading bytes of the contract identity and of the token id.
pub open spec fn wrapped_mint_seeds(contract_info: Seq<u8>, token_id: Seq<u8>) -> Seq<Seq<u8>> {
    seq![
        "wrapped_nft_mint".spec_bytes(),
        contract_info.take(SEED_PREFIX_LEN as int),
        token_id.take(SEED_PREFIX_LEN as int),
    ]
}

/// The seeds of the program's single mint authority.
pub open spec fn mint_authority_seeds() -> Seq<Seq<u8>> {
    seq!["wrapped_asset_mint_auth".spec_bytes()]
}

/// The wrapped mint's address and bump for an asset pair, or why there is none.
pub open spec fn wrapped_mint_identity(contract_info: Seq<u8>, token_id: Seq<u8>, program_id: Seq<u8>) -> Result<
    (Seq<u8>, u8),
    ClaimError,
> {
    if contract_info.len() < SEED_PREFIX_LEN || token_id.len() < SEED_PREFIX_LEN {
        Err(ClaimError::SeedPrefixTooShort)
    } else {
        match program_address_of(wrapped_mint_seeds(contract_info, token_id), program_id) {
            None => Err(ClaimError::NoProgramAddress),
            Some(found) => Ok(found),
        }
    }
}

/// The mint authority's address and bump, or why there is none.
pub open spec fn mint_authority_identity(program_id: Seq<u8>) -> Result<(Seq<u8>, u8), ClaimError> {
    match program_address_of(mint_authority_seeds(), program_id) {
        None => Err(ClaimError::NoProgramAddress),
        Some(found) => Ok(found),
    }
}

/// The view of a derived address and bump.
pub open spec fn identity_view(r: Result<([u8; 32], u8), ClaimError>) -> Result<(Seq<u8>, u8), ClaimError> {
    match r {
        Ok((key, bump)) => Ok((key@, bump)),
        Err(e) => Err(e),
    }
}

/// A byte vector holding the bytes of `text`.
fn text_bytes(text: &str) -> (r: Vec<u8>)
    ensures
        r@ == text.spec_bytes(),
{
    let mut out: Vec<u8> = Vec::new();
    append_bytes(&mut out, text.as_bytes());
    out
}

/// Derives the wrapped mint of the asset pair `(contract_info, token_id)`.
/// Either string shorter than the seed prefix is refused.
pub fn derive_wrapped_mint(contract_info: &str, token_id: &str, program_id: &[u8; 32]) -> (r: Result<([u8; 32], u8), ClaimError>)
    ensures
        identity_view(r) == wrapped_mint_identity(contract_info.spec_bytes(), token_id.spec_bytes(), program_id@),
{
    let contract_bytes = contract_info.as_bytes();
    let token_bytes = token_id.as_bytes();
    if contract_bytes.len() < SEED_PREFIX_LEN || token_bytes.len() < SEED_PREFIX_LEN {
        return Err(ClaimError::SeedPrefixTooShort);
    }
    let mut seeds: Vec<Vec<u8>> = Vec::new();
    seeds.push(text_bytes("wrapped_nft_mint"));
    seeds.push(prefix_bytes(contract_bytes, SEED_PREFIX_LEN));
    seeds.push(prefix_bytes(token_bytes, SEED_PREFIX_LEN));
    proof {
        let expected = wrapped_mint_seeds(contract_info.spec_bytes(), token_id.spec_bytes());
        assert forall|k: int| 0 <= k < 3 implies #[trigger] seeds@[k].deep_view() == expected[k] by {
            assert(seeds@[k].deep_view() =~= expected[k]);
        }
        assert(seeds.deep_view() =~= expected);
    }
    match find_program_address(&seeds, program_id) {
        None => Err(ClaimError::NoProgramAddress),
        Some(found) => Ok(found),
    }
}

/// Derives the program's mint authority.
pub fn derive_mint_authority(program_id: &[u8; 32]) -> (r: Result<([u8; 32], u8), ClaimError>)
    ensures
        identity_view(r) == mint_authority_identity(program_id@),
{
    let mut seeds: Vec<Vec<u8>> = Vec::new();
    seeds.push(text_bytes("wrapped_asset_mint_auth"));
    assert(seeds@[0].deep_view() =~= mint_authority_seeds()[0]);
    assert(seeds.deep_view() =~= mint_authority_seeds());
    match find_program_address(&seeds, program_id) {
        None => Err(ClaimError::NoProgramAddress),
        Some(found) => Ok(found),
    }
}

/// The wrapped mint of an asset pair depends only on the leading bytes of
/// the contract identity and of the token id: pairs that agree there derive
/// the same mint, so deriving one pair twice always gives the same mint.
pub proof fn lemma_identity_depends_on_prefixes(
    contract_a: Seq<u8>,
    token_a: Seq<u8>,
    contract_b: Seq<u8>,
    token_b: Seq<u8>,
    program_id: Seq<u8>,
)
    requires
        contract_a.len() >= SEED_PREFIX_LEN,
        token_a.len() >= SEED_PREFIX_LEN,
        contract_b.len() >= SEED_PREFIX_LEN,
        token_b.len() >= SEED_PREFIX_LEN,
        contract_a.take(SEED_PREFIX_LEN as int) == contract_b.take(SEED_PREFIX_LEN as int),
        token_a.take(SEED_PREFIX_LEN as int) == token_b.take(SEED_PREFIX_LEN as int),
    ensures
        wrapped_mint_identity(contract_a, token_a, program_id) == wrapped_mint_identity(
            contract_b,
            token_b,
            program_id,
        ),
{
    assert(wrapped_mint_seeds(contract_a, token_a) =~= wrapped_mint_seeds(contract_b, token_b));
}

/// Strings shorter than the seed prefix never derive a mint: the derivation
/// is refused rather than padded or truncated.
pub proof fn lemma_short_seed_refused(contract_info: Seq<u8>, token_id: Seq<u8>, program_id: Seq<u8>)
    requires
        contract_info.len() < SEED_PREFIX_LEN || token_id.len() < SEED_PREFIX_LEN,
    ensures
        wrapped_mint_identity(contract_info, token_id, program_id) == Err::<(Seq<u8>, u8), ClaimError>(
            ClaimError::SeedPrefixTooShort,
        ),
{
}

} // verus!
