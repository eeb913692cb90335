//! Deterministic multi-chain key derivation and signature reconstruction.
//!
//! Given one root public key held by a remote threshold signer, the library
//! derives per-identity secp256k1 public keys and chain-specific addresses
//! (EVM, Bitcoin legacy P2PKH, Bitcoin SegWit P2WPKH) without contacting the
//! signer, builds the matching Bitcoin locking and unlocking scripts, parses
//! the signer's asynchronous response format back into spendable signatures
//! and payloads, and decides the retry/poll steps of a resilient submission.

pub mod errors;
pub mod config;
pub mod hexenc;
pub mod hashes;
pub mod curve;
pub mod derivation;
pub mod address;
pub mod script;
pub mod response;
pub mod submitter;
