//! The canonical claim message and its origin-chain signed-message framing.
use vstd::prelude::*;
use vstd::string::StringSliceAdditionalSpecFns;
use crate::bytes::append_bytes;

verus! {

/// ASCII code of the digit `0`.
pub const ASCII_ZERO: u8 = 48;

/// The decimal ASCII rendering of `n`, most significant digit first, without
/// leading zeros (`0` renders as a single digit).
pub open spec fn decimal(n: nat) -> Seq<u8>
    decreases n,
{
    if n < 10 {
        seq![(ASCII_ZERO + n) as u8]
    } else {
        decimal(n / 10).push((ASCII_ZERO + n % 10) as u8)
    }
}

/// The text the attester signs for a claim, as UTF-8 bytes.
pub open spec fn canonical_message(token_id: Seq<u8>, contract_info: Seq<u8>, recipient: Seq<u8>) -> Seq<u8> {
    "Bridge NFT with Token ID ".spec_bytes() + token_id + " from contract ".spec_bytes()
        + contract_info + " to Solana address ".spec_bytes() + recipient
}

/// The origin chain's signed-message framing: a fixed prefix, the decimal byte
/// length of the message, then the message itself.
pub open spec fn eth_signed_message(message: Seq<u8>) -> Seq<u8> {
    "\x19Ethereum Signed Message:\n".spec_bytes() + decimal(message.len()) + message
}

/// Appends the decimal ASCII rendering of `n` to `out`.
pub fn push_decimal(out: &mut Vec<u8>, n: usize)
    ensures
        final(out)@ == old(out)@ + decimal(n as nat),
    decreases n,
{
    if n >= 10 {
        push_decimal(out, n / 10);
    }
    out.push(ASCII_ZERO + (n % 10) as u8);
    assert(out@ =~= old(out)@ + decimal(n as nat));
}

/// Builds the canonical claim message from the token id, the contract
/// identity and the recipient's address string, as UTF-8 bytes.
pub fn build_canonical_message(token_id: &str, contract_info: &str, recipient: &str) -> (r: Vec<u8>)
    ensures
        r@ == canonical_message(token_id.spec_bytes(), contract_info.spec_bytes(), recipient.spec_bytes()),
{
    let mut out: Vec<u8> = Vec::new();
    append_bytes(&mut out, "Bridge NFT with Token ID ".as_bytes());
    append_bytes(&mut out, token_id.as_bytes());
    append_bytes(&mut out, " from contract ".as_bytes());
    append_bytes(&mut out, contract_info.as_bytes());
    append_bytes(&mut out, " to Solana address ".as_bytes());
    append_bytes(&mut out, recipient.as_bytes());
    assert(out@ =~= canonical_message(token_id.spec_bytes(), contract_info.spec_bytes(), recipient.spec_bytes()));
    out
}

/// Frames `message` the way origin-chain wallets do before signing it.
pub fn frame_signed_message(message: &[u8]) -> (r: Vec<u8>)
    ensures
        r@ == eth_signed_message(message@),
{
    let mut out: Vec<u8> = Vec::new();
    append_bytes(&mut out, "\x19Ethereum Signed Message:\n".as_bytes());
    push_decimal(&mut out, message.len());
    append_bytes(&mut out, message);
    assert(out@ =~= eth_signed_message(message@));
    out
}

} // verus!
