//! Epsilon derivation: one field scalar per `(account, path)` identity, via a
//! domain-separated SHA3-256 digest.

use vstd::prelude::*;
use vstd::string::StrSliceExecFns;
use vstd::string::StringSliceAdditionalSpecFns;
use vstd::utf8::encode_utf8;

use crate::curve::{ec_tweak_of, scalar_in_range, Scalar};
use crate::errors::OmniError;
use crate::hashes::{sha3_256, sha3_256_of};

verus! {

/// The domain-separation text that prefixes every epsilon derivation, so the
/// digest can never collide with an unrelated use of the same hash.
pub open spec fn epsilon_prefix() -> Seq<char> {
    "near-mpc-recovery v0.1.0 epsilon derivation:"@
}

/// The hashed text: prefix, account, a comma, and the path, as UTF-8 bytes.
pub open spec fn epsilon_payload(account: Seq<char>, path: Seq<char>) -> Seq<u8> {
    encode_utf8(epsilon_prefix()) + encode_utf8(account) + encode_utf8(","@) + encode_utf8(path)
}

/// The 32-byte digest that an identity reduces to.
pub open spec fn epsilon_digest(account: Seq<char>, path: Seq<char>) -> Seq<u8> {
    sha3_256_of(epsilon_payload(account, path))
}

/// Derives the epsilon scalar for an identity. Succeeds exactly when the
/// digest is a canonical field representative; the alternative, reached with
/// probability about 2^-127, is the fatal `DerivationOutOfField`.
pub fn derive_epsilon(predecessor_id: &str, path: &str) -> (r: Result<Scalar, OmniError>)
    ensures
        (r is Ok) == scalar_in_range(epsilon_digest(predecessor_id@, path@)),
        r matches Ok(s) ==> s@ == epsilon_digest(predecessor_id@, path@) && s.wf(),
        r matches Err(e) ==> e == OmniError::DerivationOutOfField,
{
    let mut msg: Vec<u8> = "near-mpc-recovery v0.1.0 epsilon derivation:".as_bytes_vec();
    let mut account_bytes: Vec<u8> = predecessor_id.as_bytes_vec();
    let mut comma_bytes: Vec<u8> = ",".as_bytes_vec();
    let mut path_bytes: Vec<u8> = path.as_bytes_vec();
    msg.append(&mut account_bytes);
    msg.append(&mut comma_bytes);
    msg.append(&mut path_bytes);
    proof {
        assert(msg@ =~= epsilon_payload(predecessor_id@, path@));
    }
    let digest = sha3_256(msg.as_slice());
    match Scalar::from_bytes(digest.as_slice()) {
        Some(s) => Ok(s),
        None => Err(OmniError::DerivationOutOfField),
    }
}

/// Epsilon derivation is deterministic: the digest is a pure function of the
/// identity, so any two values derived from equal inputs are bit-identical.
pub proof fn lemma_derive_epsilon_deterministic(
    account: Seq<char>,
    path: Seq<char>,
    r1: Seq<u8>,
    r2: Seq<u8>,
)
    requires
        r1 == epsilon_digest(account, path),
        r2 == epsilon_digest(account, path),
    ensures
        r1 == r2,
{
}

/// Key derivation is deterministic: the tweaked point is a pure function of
/// the epsilon scalar and the root key, so any two derived keys built from
/// equal inputs are bit-identical.
pub proof fn lemma_derive_key_deterministic(
    epsilon: Seq<u8>,
    root: Seq<u8>,
    k1: Seq<u8>,
    k2: Seq<u8>,
)
    requires
        Some(k1) == ec_tweak_of(epsilon, root),
        Some(k2) == ec_tweak_of(epsilon, root),
    ensures
        k1 == k2,
{
}

} // verus!
