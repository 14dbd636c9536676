//! The bridge's single operation: check a claim and, if it is authorized and
//! its asset pair is fresh, create the wrapped mint and issue one unit of it.
use vstd::prelude::*;
use vstd::utf8::encode_utf8;
use crate::authorization::{signature_outcome, verify_signature};
use crate::error::ClaimError;
use crate::identity::{
    derive_mint_authority, derive_wrapped_mint, lemma_identity_depends_on_prefixes,
    mint_authority_identity, wrapped_mint_identity, SEED_PREFIX_LEN,
};
use crate::ledger::Ledger;
use crate::message::{build_canonical_message, canonical_message};
use crate::solana::{address_string, base58_of};

verus! {

/// The accounts a claim names: the bridge program and the recipient.
pub struct MintWrappedNft {
    /// Address of the bridge program, under which mints are derived.
    pub program_id: [u8; 32],
    /// The destination-chain account that receives the wrapped token.
    pub recipient_owner: [u8; 32],
}

/// What an accepted claim minted, with the addresses and bumps needed to sign
/// the mint as the program's authority.
#[derive(Clone, Copy, Debug)]
pub struct MintReceipt {
    pub wrapped_asset_mint: [u8; 32],
    pub wrapped_asset_mint_bump: u8,
    pub mint_authority: [u8; 32],
    pub mint_authority_bump: u8,
}

impl MintWrappedNft {
    /// The outcome of a claim against a ledger: the wrapped mint it creates,
    /// or the first reason it is refused. Refusals come in the order the
    /// accounts are checked (seeds, mint creation, authority), then the
    /// signature.
    pub open spec fn claim_outcome(
        &self,
        ledger: Ledger,
        eth_address: Seq<u8>,
        token_id: Seq<u8>,
        contract_info: Seq<u8>,
        signature_r: Seq<u8>,
        signature_s: Seq<u8>,
        recovery_id: u8,
    ) -> Result<(Seq<u8>, u8), ClaimError> {
        match wrapped_mint_identity(contract_info, token_id, self.program_id@) {
            Err(e) => Err(e),
            Ok((mint, bump)) => if ledger.is_initialized(mint) {
                Err(ClaimError::AccountAlreadyInitialized)
            } else {
                match mint_authority_identity(self.program_id@) {
                    Err(e) => Err(e),
                    Ok(_) => {
                        let message = canonical_message(
                            token_id,
                            contract_info,
                            encode_utf8(base58_of(self.recipient_owner@)),
                        );
                        match signature_outcome(message, signature_r, signature_s, recovery_id, eth_address) {
                            Err(e) => Err(ClaimError::Bridge(e)),
                            Ok(()) => Ok((mint, bump)),
                        }
                    },
                }
            },
        }
    }

    /// What a claim does to the ledger: an accepted claim creates its wrapped
    /// mint and moves the recipient's balance of it from 0 to 1, leaving every
    /// other balance alone; a refused claim changes nothing. Either way the
    /// result is the claim's outcome.
    pub open spec fn claim_effect(
        &self,
        before: Ledger,
        after: Ledger,
        eth_address: Seq<u8>,
        token_id: Seq<u8>,
        contract_info: Seq<u8>,
        signature_r: Seq<u8>,
        signature_s: Seq<u8>,
        recovery_id: u8,
        result: Result<MintReceipt, ClaimError>,
    ) -> bool {
        let outcome = self.claim_outcome(
            before,
            eth_address,
            token_id,
            contract_info,
            signature_r,
            signature_s,
            recovery_id,
        );
        &&& after.wf()
        &&& match result {
            Ok(receipt) => {
                let mint = receipt.wrapped_asset_mint@;
                &&& outcome == Ok::<(Seq<u8>, u8), ClaimError>((mint, receipt.wrapped_asset_mint_bump))
                &&& mint_authority_identity(self.program_id@) == Ok::<(Seq<u8>, u8), ClaimError>(
                    (receipt.mint_authority@, receipt.mint_authority_bump),
                )
                &&& before.balance_of(mint, self.recipient_owner@) == 0
                &&& after.balance_of(mint, self.recipient_owner@) == 1
                &&& forall|m: Seq<u8>, o: Seq<u8>|
                    !(m == mint && o == self.recipient_owner@) ==> #[trigger] after.balance_of(m, o)
                        == before.balance_of(m, o)
                &&& forall|m: Seq<u8>| #[trigger] after.is_initialized(m) == (before.is_initialized(m) || m == mint)
            },
            Err(e) => outcome == Err::<(Seq<u8>, u8), ClaimError>(e) && after == before,
        }
    }

    /// Checks a claim and, when it is authorized and its asset pair has no
    /// wrapped mint yet, creates that mint and issues exactly one unit of it
    /// to the recipient. A refused claim leaves the ledger unchanged.
    pub fn mint_wrapped_nft(
        &self,
        ledger: &mut Ledger,
        eth_address: [u8; 20],
        original_token_id: String,
        original_nft_contract_info: String,
        signature_r: [u8; 32],
        signature_s: [u8; 32],
        recovery_id: u8,
    ) -> (r: Result<MintReceipt, ClaimError>)
        requires
            old(ledger).wf(),
        ensures
            self.claim_effect(
                *old(ledger),
                *final(ledger),
                eth_address@,
                encode_utf8(original_token_id@),
                encode_utf8(original_nft_contract_info@),
                signature_r@,
                signature_s@,
                recovery_id,
                r,
            ),
    {
        let token_id = original_token_id.as_str();
        let contract_info = original_nft_contract_info.as_str();
        let (mint, mint_bump) = match derive_wrapped_mint(contract_info, token_id, &self.program_id) {
            Ok(found) => found,
            Err(e) => return Err(e),
        };
        if ledger.is_mint_initialized(&mint) {
            return Err(ClaimError::AccountAlreadyInitialized);
        }
        let (authority, authority_bump) = match derive_mint_authority(&self.program_id) {
            Ok(found) => found,
            Err(e) => return Err(e),
        };
        let recipient = address_string(&self.recipient_owner);
        let message = build_canonical_message(token_id, contract_info, recipient.as_str());
        match verify_signature(message.as_slice(), &eth_address, &signature_r, &signature_s, recovery_id) {
            Err(e) => return Err(ClaimError::Bridge(e)),
            Ok(()) => {},
        }
        let created = ledger.create_and_mint_one(&mint, &self.recipient_owner);
        match created {
            Err(e) => Err(e),
            Ok(()) => Ok(
                MintReceipt {
                    wrapped_asset_mint: mint,
                    wrapped_asset_mint_bump: mint_bump,
                    mint_authority: authority,
                    mint_authority_bump: authority_bump,
                },
            ),
        }
    }
}

/// The bridge's entry point: processes one claim for the accounts in `ctx`.
pub fn mint(
    ctx: &MintWrappedNft,
    ledger: &mut Ledger,
    eth_address: [u8; 20],
    original_token_id: String,
    original_nft_contract_info: String,
    signature_r: [u8; 32],
    signature_s: [u8; 32],
    recovery_id: u8,
) -> (r: Result<MintReceipt, ClaimError>)
    requires
        old(ledger).wf(),
    ensures
        ctx.claim_effect(
            *old(ledger),
            *final(ledger),
            eth_address@,
            encode_utf8(original_token_id@),
            encode_utf8(original_nft_contract_info@),
            signature_r@,
            signature_s@,
            recovery_id,
            r,
        ),
{
    ctx.mint_wrapped_nft(
        ledger,
        eth_address,
        original_token_id,
        original_nft_contract_info,
        signature_r,
        signature_s,
        recovery_id,
    )
}

/// Once a claim has been accepted, every later claim against the resulting
/// ledger whose contract identity and token id agree with the first in their
/// leading bytes is refused because its mint already exists, whatever its
/// signature.
pub proof fn lemma_at_most_once_mint(
    bridge: MintWrappedNft,
    before: Ledger,
    after: Ledger,
    first_eth_address: Seq<u8>,
    first_token_id: Seq<u8>,
    first_contract_info: Seq<u8>,
    first_signature_r: Seq<u8>,
    first_signature_s: Seq<u8>,
    first_recovery_id: u8,
    receipt: MintReceipt,
    eth_address: Seq<u8>,
    token_id: Seq<u8>,
    contract_info: Seq<u8>,
    signature_r: Seq<u8>,
    signature_s: Seq<u8>,
    recovery_id: u8,
)
    requires
        bridge.claim_effect(
            before,
            after,
            first_eth_address,
            first_token_id,
            first_contract_info,
            first_signature_r,
            first_signature_s,
            first_recovery_id,
            Ok(receipt),
        ),
        contract_info.len() >= SEED_PREFIX_LEN,
        token_id.len() >= SEED_PREFIX_LEN,
        contract_info.take(SEED_PREFIX_LEN as int) == first_contract_info.take(SEED_PREFIX_LEN as int),
        token_id.take(SEED_PREFIX_LEN as int) == first_token_id.take(SEED_PREFIX_LEN as int),
    ensures
        bridge.claim_outcome(after, eth_address, token_id, contract_info, signature_r, signature_s, recovery_id)
            == Err::<(Seq<u8>, u8), ClaimError>(ClaimError::AccountAlreadyInitialized),
{
    assert(after.is_initialized(receipt.wrapped_asset_mint@));
    lemma_identity_depends_on_prefixes(
        first_contract_info,
        first_token_id,
        contract_info,
        token_id,
        bridge.program_id@,
    );
}

} // verus!
