//! Why a claim is refused.
use vstd::prelude::*;

verus! {

/// Refusals that come from checking the attester's signature.
#[derive(PartialEq, Eq, Structural, Debug, Clone, Copy)]
pub enum BridgeError {
    /// A signature was recovered, but to an address other than the claimed signer.
    SignatureVerificationFailed,
    /// No public key can be recovered from the signature and recovery id.
    InvalidSignature,
}

/// Every way a claim can fail as a whole.
#[derive(PartialEq, Eq, Structural, Debug, Clone, Copy)]
pub enum ClaimError {
    /// The signature does not authorize the claim.
    Bridge(BridgeError),
    /// The contract identity or the token id is shorter than the seed prefix.
    SeedPrefixTooShort,
    /// No program address exists for the claim's seeds.
    NoProgramAddress,
    /// The wrapped-asset mint for this asset pair was already created.
    AccountAlreadyInitialized,
}

} // verus!
