//! Checks that a claim was signed by the expected origin-chain address.
use vstd::prelude::*;
use crate::bytes::bytes_equal;
use crate::error::BridgeError;
use crate::message::{eth_signed_message, frame_signed_message};
use crate::solana::{keccak256, keccak_of, recover_public_key, recovered_key};

verus! {

/// Byte length of an origin-chain address.
pub const ETH_ADDRESS_LEN: usize = 20;

/// The origin-chain address of an uncompressed public key: the last 20 bytes
/// of the key's Keccak-256 digest.
pub open spec fn eth_address_of(public_key: Seq<u8>) -> Seq<u8> {
    keccak_of(public_key).subrange(12, 32)
}

/// The outcome of checking a signature `r || s` with `recovery_id` over
/// `message` against the `expected` signer address.
pub open spec fn signature_outcome(
    message: Seq<u8>,
    signature_r: Seq<u8>,
    signature_s: Seq<u8>,
    recovery_id: u8,
    expected: Seq<u8>,
) -> Result<(), BridgeError> {
    if recovery_id > 1 {
        Err(BridgeError::InvalidSignature)
    } else {
        match recovered_key(keccak_of(eth_signed_message(message)), recovery_id, signature_r + signature_s) {
            None => Err(BridgeError::InvalidSignature),
            Some(key) => if eth_address_of(key) == expected {
                Ok(())
            } else {
                Err(BridgeError::SignatureVerificationFailed)
            },
        }
    }
}

/// Joins the two signature scalars into one 64-byte signature.
pub fn join_signature(signature_r: &[u8; 32], signature_s: &[u8; 32]) -> (r: [u8; 64])
    ensures
        r@ == signature_r@ + signature_s@,
{
    let mut out: [u8; 64] = [0u8; 64];
    let mut i: usize = 0;
    while i < 32
        invariant
            i <= 32,
            out@.len() == 64,
            forall|j: int| 0 <= j < i ==> out@[j] == signature_r@[j],
            forall|j: int| 0 <= j < i ==> out@[j + 32] == signature_s@[j],
        decreases 32 - i,
    {
        out[i] = signature_r[i];
        out[i + 32] = signature_s[i];
        i = i + 1;
    }
    assert(out@ =~= signature_r@ + signature_s@);
    out
}

/// The origin-chain address carried by a 32-byte key digest: its last 20 bytes.
pub fn address_from_digest(digest: &[u8; 32]) -> (r: [u8; 20])
    ensures
        r@ == digest@.subrange(12, 32),
{
    let mut out: [u8; 20] = [0u8; 20];
    let mut i: usize = 0;
    while i < ETH_ADDRESS_LEN
        invariant
            i <= ETH_ADDRESS_LEN,
            out@.len() == 20,
            digest@.len() == 32,
            forall|j: int| 0 <= j < i ==> out@[j] == digest@[j + 12],
        decreases ETH_ADDRESS_LEN - i,
    {
        out[i] = digest[i + 12];
        i = i + 1;
    }
    assert(out@ =~= digest@.subrange(12, 32));
    out
}

/// Derives the origin-chain address of a 64-byte uncompressed public key.
pub fn derive_eth_address(public_key: &[u8; 64]) -> (r: [u8; 20])
    ensures
        r@ == eth_address_of(public_key@),
{
    address_from_digest(&keccak256(public_key))
}

/// Checks that `message`, framed as origin-chain wallets sign it, was signed
/// by the holder of `eth_address`. Recovery ids other than 0 and 1 are
/// refused before any recovery is attempted.
pub fn verify_signature(
    message: &[u8],
    eth_address: &[u8; 20],
    signature_r: &[u8; 32],
    signature_s: &[u8; 32],
    recovery_id: u8,
) -> (r: Result<(), BridgeError>)
    ensures
        r == signature_outcome(message@, signature_r@, signature_s@, recovery_id, eth_address@),
{
    if recovery_id > 1 {
        return Err(BridgeError::InvalidSignature);
    }
    let framed = frame_signed_message(message);
    let hash = keccak256(framed.as_slice());
    let signature = join_signature(signature_r, signature_s);
    match recover_public_key(&hash, recovery_id, &signature) {
        Err(_) => Err(BridgeError::InvalidSignature),
        Ok(key) => {
            let recovered = derive_eth_address(&key);
            if bytes_equal(&recovered, eth_address) {
                Ok(())
            } else {
                Err(BridgeError::SignatureVerificationFailed)
            }
        },
    }
}

/// A signature that verifies for one signer address fails, as a mismatch,
/// for every other address: changing any bit of the claimed signer never
/// lets a claim through.
pub proof fn lemma_other_signer_rejected(
    message: Seq<u8>,
    signature_r: Seq<u8>,
    signature_s: Seq<u8>,
    recovery_id: u8,
    signer: Seq<u8>,
    other: Seq<u8>,
)
    requires
        signature_outcome(message, signature_r, signature_s, recovery_id, signer) == Ok::<(), BridgeError>(()),
        other != signer,
    ensures
        signature_outcome(message, signature_r, signature_s, recovery_id, other) == Err::<(), BridgeError>(
            BridgeError::SignatureVerificationFailed,
        ),
{
}

} // verus!
