//! The Solana runtime primitives the bridge relies on. Each function here
//! calls into `solana_program` and states what that call returns.
use vstd::prelude::*;
use anchor_lang::solana_program::keccak;
use anchor_lang::solana_program::pubkey::Pubkey;
use anchor_lang::solana_program::secp256k1_recover::{secp256k1_recover, Secp256k1RecoverError};

verus! {

#[verifier::external_type_specification]
#[verifier::external_body]
pub struct ExSecp256k1RecoverError(Secp256k1RecoverError);

/// The Keccak-256 digest of a byte string.
pub uninterp spec fn keccak_of(data: Seq<u8>) -> Seq<u8>;

/// The uncompressed 64-byte secp256k1 public key recovered from a 32-byte
/// message hash, a recovery id and a 64-byte `r || s` signature, or `None`
/// where recovery fails.
pub uninterp spec fn recovered_key(hash: Seq<u8>, recovery_id: u8, signature: Seq<u8>) -> Option<Seq<u8>>;

/// The base58 text of a 32-byte Solana address.
pub uninterp spec fn base58_of(key: Seq<u8>) -> Seq<char>;

/// The program-derived address and bump found for a list of seeds under a
/// program id, or `None` where no bump yields an off-curve address.
pub uninterp spec fn program_address_of(seeds: Seq<Seq<u8>>, program_id: Seq<u8>) -> Option<(Seq<u8>, u8)>;

/// Relies on `solana_program::keccak::hash`: the 32-byte Keccak-256 digest of `data`.
#[verifier::external_body]
pub(crate) fn keccak256(data: &[u8]) -> (r: [u8; 32])
    ensures
        r@ == keccak_of(data@),
{
    keccak::hash(data).to_bytes()
}

/// Relies on `solana_program::secp256k1_recover::secp256k1_recover`: the
/// 64-byte public key recovered from the hash, recovery id and signature, or
/// an error where recovery fails.
#[verifier::external_body]
pub(crate) fn recover_public_key(hash: &[u8; 32], recovery_id: u8, signature: &[u8; 64]) -> (r: Result<[u8; 64], Secp256k1RecoverError>)
    ensures
        match r {
            Ok(key) => recovered_key(hash@, recovery_id, signature@) == Some(key@),
            Err(_) => recovered_key(hash@, recovery_id, signature@) is None,
        },
{
    secp256k1_recover(hash, recovery_id, signature).map(|key| key.to_bytes())
}

/// Relies on `Pubkey`'s `Display` impl: the base58 text of the address.
#[verifier::external_body]
pub(crate) fn address_string(key: &[u8; 32]) -> (r: String)
    ensures
        r@ == base58_of(key@),
{
    Pubkey::new_from_array(*key).to_string()
}

/// Relies on `Pubkey::try_find_program_address`: the derived address and
/// bump for `seeds` under `program_id`, or `None` where none exists.
#[verifier::external_body]
pub(crate) fn find_program_address(seeds: &Vec<Vec<u8>>, program_id: &[u8; 32]) -> (r: Option<([u8; 32], u8)>)
    ensures
        match r {
            Some((key, bump)) => program_address_of(seeds.deep_view(), program_id@) == Some((key@, bump)),
            None => program_address_of(seeds.deep_view(), program_id@) is None,
        },
{
    let slices: Vec<&[u8]> = seeds.iter().map(|s| s.as_slice()).collect();
    Pubkey::try_find_program_address(&slices, &Pubkey::new_from_array(*program_id))
        .map(|(key, bump)| (key.to_bytes(), bump))
}

} // verus!
