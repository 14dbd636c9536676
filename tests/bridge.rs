use anchor_lang::solana_program::keccak;
use anchor_lang::solana_program::pubkey::Pubkey;
use bridgecontract::authorization::{address_from_digest, derive_eth_address, join_signature, verify_signature};
use bridgecontract::bridge::{mint, MintWrappedNft};
use bridgecontract::error::{BridgeError, ClaimError};
use bridgecontract::bytes::{bytes_equal, prefix_bytes};
use bridgecontract::identity::{derive_mint_authority, derive_wrapped_mint};
use bridgecontract::ledger::Ledger;
use bridgecontract::message::{build_canonical_message, frame_signed_message, push_decimal};

const PROGRAM_ID: &str = "HZnbK4bXJC9LLCE7DJxrabmKgBqpB8JM4ySRbpnwYrfT";

fn program_id() -> [u8; 32] {
    PROGRAM_ID.parse::<Pubkey>().unwrap().to_bytes()
}

struct Attester {
    secret: libsecp256k1::SecretKey,
    address: [u8; 20],
}

fn attester() -> Attester {
    let secret = libsecp256k1::SecretKey::parse(&[0x4du8; 32]).unwrap();
    let public = libsecp256k1::PublicKey::from_secret_key(&secret);
    let serialized = public.serialize();
    let digest = keccak::hash(&serialized[1..65]).to_bytes();
    let mut address = [0u8; 20];
    address.copy_from_slice(&digest[12..]);
    Attester { secret, address }
}

/// Signs `message` the way origin-chain wallets do; returns (r, s, recovery id).
fn sign(attester: &Attester, message: &[u8]) -> ([u8; 32], [u8; 32], u8) {
    let mut framed = format!("\x19Ethereum Signed Message:\n{}", message.len()).into_bytes();
    framed.extend_from_slice(message);
    let hash = keccak::hash(&framed).to_bytes();
    let (signature, recovery) = libsecp256k1::sign(&libsecp256k1::Message::parse(&hash), &attester.secret);
    let bytes = signature.serialize();
    let mut r = [0u8; 32];
    let mut s = [0u8; 32];
    r.copy_from_slice(&bytes[..32]);
    s.copy_from_slice(&bytes[32..]);
    (r, s, recovery.serialize())
}

fn recipient() -> [u8; 32] {
    [7u8; 32]
}

fn recipient_string() -> String {
    Pubkey::new_from_array(recipient()).to_string()
}

fn claim_message(token_id: &str, contract_info: &str) -> Vec<u8> {
    build_canonical_message(token_id, contract_info, &recipient_string())
}

#[test]
fn canonical_message_text() {
    let m = build_canonical_message("T-42", "0xABCDEF0123456789", "So1anaAddre55");
    assert_eq!(
        m,
        b"Bridge NFT with Token ID T-42 from contract 0xABCDEF0123456789 to Solana address So1anaAddre55".to_vec()
    );
}

#[test]
fn canonical_message_keeps_values_verbatim() {
    let m = build_canonical_message("a b", "{x}", "");
    assert_eq!(m, b"Bridge NFT with Token ID a b from contract {x} to Solana address ".to_vec());
}

#[test]
fn framing_prefix_and_length() {
    assert_eq!(frame_signed_message(b"abc"), b"\x19Ethereum Signed Message:\n3abc".to_vec());
    assert_eq!(frame_signed_message(b""), b"\x19Ethereum Signed Message:\n0".to_vec());
    let long = vec![b'z'; 123];
    let mut expected = b"\x19Ethereum Signed Message:\n123".to_vec();
    expected.extend_from_slice(&long);
    assert_eq!(frame_signed_message(&long), expected);
}

#[test]
fn decimal_rendering() {
    let mut out = b"n=".to_vec();
    push_decimal(&mut out, 0);
    assert_eq!(out, b"n=0".to_vec());
    let mut out = Vec::new();
    push_decimal(&mut out, 1907);
    assert_eq!(out, b"1907".to_vec());
    let mut out = Vec::new();
    push_decimal(&mut out, usize::MAX);
    assert_eq!(out, usize::MAX.to_string().into_bytes());
}

#[test]
fn signature_joins_scalars() {
    let joined = join_signature(&[1u8; 32], &[2u8; 32]);
    assert_eq!(&joined[..32], &[1u8; 32]);
    assert_eq!(&joined[32..], &[2u8; 32]);
}

#[test]
fn eth_address_is_tail_of_key_digest() {
    let key = [9u8; 64];
    let digest = keccak::hash(&key).to_bytes();
    assert_eq!(derive_eth_address(&key).to_vec(), digest[12..].to_vec());
    assert_ne!(derive_eth_address(&key).to_vec(), key[..20].to_vec());
}

#[test]
fn round_trip_signing_recovers_signer() {
    let a = attester();
    let message = claim_message("T-42", "0xABCDEF0123456789");
    assert!(recipient_string().len() >= 22);
    let (r, s, v) = sign(&a, &message);
    assert_eq!(verify_signature(&message, &a.address, &r, &s, v), Ok(()));
}

#[test]
fn tampered_claims_are_rejected() {
    let a = attester();
    let message = claim_message("T-42", "0xABCDEF0123456789");
    let (r, s, v) = sign(&a, &message);
    for bit in [0usize, 7, 100, 255] {
        let mut r2 = r;
        r2[bit / 8] ^= 1 << (bit % 8);
        assert!(verify_signature(&message, &a.address, &r2, &s, v).is_err());
        let mut s2 = s;
        s2[bit / 8] ^= 1 << (bit % 8);
        assert!(verify_signature(&message, &a.address, &r, &s2, v).is_err());
    }
    for bit in [0usize, 80, 159] {
        let mut addr = a.address;
        addr[bit / 8] ^= 1 << (bit % 8);
        assert_eq!(
            verify_signature(&message, &addr, &r, &s, v),
            Err(BridgeError::SignatureVerificationFailed)
        );
    }
    let altered = claim_message("T-43", "0xABCDEF0123456789");
    assert!(verify_signature(&altered, &a.address, &r, &s, v).is_err());
}

#[test]
fn recovery_id_out_of_range_is_invalid() {
    let a = attester();
    let message = claim_message("T-42", "0xABCDEF0123456789");
    let (r, s, _) = sign(&a, &message);
    assert_eq!(verify_signature(&message, &a.address, &r, &s, 2), Err(BridgeError::InvalidSignature));
    assert_eq!(verify_signature(&message, &a.address, &r, &s, 27), Err(BridgeError::InvalidSignature));
}

#[test]
fn zero_signature_is_invalid() {
    let a = attester();
    let message = claim_message("T-42", "0xABCDEF0123456789");
    assert_eq!(
        verify_signature(&message, &a.address, &[0u8; 32], &[0u8; 32], 0),
        Err(BridgeError::InvalidSignature)
    );
}

#[test]
fn wrapped_mint_identity_is_deterministic() {
    let pid = program_id();
    let first = derive_wrapped_mint("ABCDEFGHIJ", "0123456789", &pid);
    let second = derive_wrapped_mint("ABCDEFGHIJ", "0123456789", &pid);
    assert!(first.is_ok());
    assert_eq!(first, second);
    let seeds: &[&[u8]] = &[b"wrapped_nft_mint", b"ABCDEFGHIJ", b"0123456789"];
    let (expected, bump) = Pubkey::find_program_address(seeds, &Pubkey::new_from_array(pid));
    assert_eq!(first, Ok((expected.to_bytes(), bump)));
}

#[test]
fn wrapped_mint_identity_uses_prefixes_only() {
    let pid = program_id();
    let a = derive_wrapped_mint("ABCDEFGHIJ-one", "0123456789-x", &pid);
    let b = derive_wrapped_mint("ABCDEFGHIJ-two", "0123456789-y", &pid);
    let c = derive_wrapped_mint("ABCDEFGHIK", "0123456789", &pid);
    assert_eq!(a, b);
    assert_ne!(a, c);
}

#[test]
fn short_seed_strings_are_rejected() {
    let pid = program_id();
    assert_eq!(derive_wrapped_mint("ABCDEFGHI", "0123456789", &pid), Err(ClaimError::SeedPrefixTooShort));
    assert_eq!(derive_wrapped_mint("ABCDEFGHIJ", "012345678", &pid), Err(ClaimError::SeedPrefixTooShort));
    assert_eq!(derive_wrapped_mint("", "", &pid), Err(ClaimError::SeedPrefixTooShort));
    // five two-byte characters are ten bytes
    assert!(derive_wrapped_mint("\u{e9}\u{e9}\u{e9}\u{e9}\u{e9}", "0123456789", &pid).is_ok());
}

#[test]
fn mint_authority_is_derived_from_its_tag() {
    let pid = program_id();
    let seeds: &[&[u8]] = &[b"wrapped_asset_mint_auth"];
    let (expected, bump) = Pubkey::find_program_address(seeds, &Pubkey::new_from_array(pid));
    assert_eq!(derive_mint_authority(&pid), Ok((expected.to_bytes(), bump)));
}

#[test]
fn prefix_bytes_takes_leading_bytes() {
    assert_eq!(prefix_bytes(b"0123456789abc", 10), b"0123456789".to_vec());
    assert_eq!(prefix_bytes(b"ab", 0), Vec::<u8>::new());
}

fn bridge() -> MintWrappedNft {
    MintWrappedNft { program_id: program_id(), recipient_owner: recipient() }
}

#[test]
fn end_to_end_claim_mints_one_unit() {
    let a = attester();
    let ctx = bridge();
    let mut ledger = Ledger::new();
    let (token, contract) = ("0123456789-77", "ABCDEFGHIJ-collection");
    let (r, s, v) = sign(&a, &claim_message(token, contract));
    let (expected_mint, _) = derive_wrapped_mint(contract, token, &ctx.program_id).unwrap();
    let other = [3u8; 32];
    assert_eq!(ledger.balance(&expected_mint, &ctx.recipient_owner), 0);
    assert!(!ledger.is_mint_initialized(&expected_mint));
    let receipt = mint(&ctx, &mut ledger, a.address, token.to_string(), contract.to_string(), r, s, v).unwrap();
    assert_eq!(receipt.wrapped_asset_mint, expected_mint);
    assert_eq!(ledger.balance(&expected_mint, &ctx.recipient_owner), 1);
    assert_eq!(ledger.balance(&expected_mint, &other), 0);
    assert!(ledger.is_mint_initialized(&expected_mint));
    let (authority, authority_bump) = derive_mint_authority(&ctx.program_id).unwrap();
    assert_eq!((receipt.mint_authority, receipt.mint_authority_bump), (authority, authority_bump));
}

#[test]
fn second_claim_for_same_pair_fails_at_creation() {
    let a = attester();
    let ctx = bridge();
    let mut ledger = Ledger::new();
    let (r, s, v) = sign(&a, &claim_message("0123456789", "ABCDEFGHIJ"));
    let first = mint(&ctx, &mut ledger, a.address, "0123456789".to_string(), "ABCDEFGHIJ".to_string(), r, s, v);
    assert!(first.is_ok());
    let (r2, s2, v2) = sign(&a, &claim_message("0123456789-b", "ABCDEFGHIJ-b"));
    let second = mint(&ctx, &mut ledger, a.address, "0123456789-b".to_string(), "ABCDEFGHIJ-b".to_string(), r2, s2, v2);
    assert_eq!(second.unwrap_err(), ClaimError::AccountAlreadyInitialized);
    let again = mint(&ctx, &mut ledger, a.address, "0123456789".to_string(), "ABCDEFGHIJ".to_string(), r, s, v);
    assert_eq!(again.unwrap_err(), ClaimError::AccountAlreadyInitialized);
    let mint_key = first.unwrap().wrapped_asset_mint;
    assert_eq!(ledger.balance(&mint_key, &ctx.recipient_owner), 1);
}

#[test]
fn refused_claims_leave_ledger_untouched() {
    let a = attester();
    let ctx = bridge();
    let mut ledger = Ledger::new();
    let (token, contract) = ("0123456789", "ABCDEFGHIJ");
    let (r, s, v) = sign(&a, &claim_message(token, contract));
    let (mint_key, _) = derive_wrapped_mint(contract, token, &ctx.program_id).unwrap();
    let mut wrong = a.address;
    wrong[0] ^= 0x80;
    let refused = mint(&ctx, &mut ledger, wrong, token.to_string(), contract.to_string(), r, s, v);
    assert_eq!(refused.unwrap_err(), ClaimError::Bridge(BridgeError::SignatureVerificationFailed));
    let invalid = mint(&ctx, &mut ledger, a.address, token.to_string(), contract.to_string(), r, s, 5);
    assert_eq!(invalid.unwrap_err(), ClaimError::Bridge(BridgeError::InvalidSignature));
    let short = mint(&ctx, &mut ledger, a.address, "42".to_string(), contract.to_string(), r, s, v);
    assert_eq!(short.unwrap_err(), ClaimError::SeedPrefixTooShort);
    assert!(!ledger.is_mint_initialized(&mint_key));
    assert_eq!(ledger.balance(&mint_key, &ctx.recipient_owner), 0);
    // the untouched ledger still accepts the genuine claim
    assert!(mint(&ctx, &mut ledger, a.address, token.to_string(), contract.to_string(), r, s, v).is_ok());
}

#[test]
fn claim_for_another_recipient_is_not_authorized() {
    let a = attester();
    let (token, contract) = ("0123456789", "ABCDEFGHIJ");
    let (r, s, v) = sign(&a, &claim_message(token, contract));
    let ctx = MintWrappedNft { program_id: program_id(), recipient_owner: [8u8; 32] };
    let mut ledger = Ledger::new();
    let result = mint(&ctx, &mut ledger, a.address, token.to_string(), contract.to_string(), r, s, v);
    assert_eq!(result.unwrap_err(), ClaimError::Bridge(BridgeError::SignatureVerificationFailed));
}

#[test]
fn bytes_equal_compares_contents() {
    assert!(bytes_equal(b"abc", b"abc"));
    assert!(!bytes_equal(b"abc", b"abd"));
    assert!(!bytes_equal(b"abc", b"ab"));
    assert!(bytes_equal(b"", b""));
}

#[test]
fn address_is_last_twenty_digest_bytes() {
    let mut digest = [0u8; 32];
    for (i, b) in digest.iter_mut().enumerate() {
        *b = i as u8;
    }
    let expected: Vec<u8> = (12u8..32).collect();
    assert_eq!(address_from_digest(&digest).to_vec(), expected);
}
