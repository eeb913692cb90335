//! Trusted wrappers around the cryptographic hash functions the engine uses.
//!
//! Each digest is named by an uninterpreted spec function: the digest is a
//! pure function of the input bytes alone, and nothing beyond its length is
//! assumed about its value.

use vstd::prelude::*;

use sha3::Digest;
use tiny_keccak::Hasher;

verus! {

/// The 32-byte SHA3-256 digest of a byte sequence.
pub uninterp spec fn sha3_256_of(data: Seq<u8>) -> Seq<u8>;

/// The 32-byte SHA-256 digest of a byte sequence.
pub uninterp spec fn sha256_of(data: Seq<u8>) -> Seq<u8>;

/// The 20-byte RIPEMD-160 digest of a byte sequence.
pub uninterp spec fn ripemd160_of(data: Seq<u8>) -> Seq<u8>;

/// The 32-byte Keccak-256 digest of a byte sequence.
pub uninterp spec fn keccak256_of(data: Seq<u8>) -> Seq<u8>;

/// Relies on `sha3::Sha3_256`: the SHA3-256 digest, 32 bytes, a function of
/// the input alone.
#[verifier::external_body]
pub fn sha3_256(data: &[u8]) -> (r: Vec<u8>)
    ensures
        r@ == sha3_256_of(data@),
        r@.len() == 32,
{
    let mut hasher = sha3::Sha3_256::new();
    hasher.update(data);
    hasher.finalize().to_vec()
}

/// Relies on `k256::sha2::Sha256`: the SHA-256 digest, 32 bytes, a function
/// of the input alone.
#[verifier::external_body]
pub fn sha256(data: &[u8]) -> (r: Vec<u8>)
    ensures
        r@ == sha256_of(data@),
        r@.len() == 32,
{
    let mut hasher = k256::sha2::Sha256::new();
    hasher.update(data);
    hasher.finalize().to_vec()
}

/// Relies on `ripemd::Ripemd160`: the RIPEMD-160 digest, 20 bytes, a function
/// of the input alone.
#[verifier::external_body]
pub fn ripemd160(data: &[u8]) -> (r: Vec<u8>)
    ensures
        r@ == ripemd160_of(data@),
        r@.len() == 20,
{
    let mut hasher = ripemd::Ripemd160::new();
    hasher.update(data);
    hasher.finalize().to_vec()
}

/// Relies on `tiny_keccak::Keccak::v256`: the Keccak-256 digest, 32 bytes, a
/// function of the input alone.
#[verifier::external_body]
pub fn keccak256(data: &[u8]) -> (r: Vec<u8>)
    ensures
        r@ == keccak256_of(data@),
        r@.len() == 32,
{
    let mut keccak = tiny_keccak::Keccak::v256();
    let mut out = [0u8; 32];
    keccak.update(data);
    keccak.finalize(&mut out);
    out.to_vec()
}

} // verus!
