//! Authorization and minting logic for bridging NFTs from an Ethereum-style
//! origin chain onto Solana as wrapped, one-unit tokens.
pub mod bytes;
pub mod error;
pub mod message;
pub mod solana;
pub mod authorization;
pub mod identity;
pub mod ledger;
pub mod bridge;
