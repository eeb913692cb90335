//! The failure taxonomy of the derivation and signing engine.

use vstd::prelude::*;

verus! {

/// Every way a derivation, extraction or submission step can fail.
///
/// Derivation-layer failures are surfaced immediately to the caller; the
/// resilient submitter recovers only from a gateway timeout, which is a
/// transition of its state machine and never surfaced as an error value.
#[derive(Debug, Clone, Copy, PartialEq, Eq, Structural)]
pub enum OmniError {
    /// The epsilon digest fell outside the scalar field (overwhelmingly rare).
    DerivationOutOfField,
    /// The root key string is not `secp256k1:` + base58 of exactly 64 bytes.
    InvalidRootKeyEncoding,
    /// Bytes that should encode a curve point do not.
    InvalidPublicKeyBytes,
    /// An execution outcome did not carry the expected success payload.
    MalformedSignerResponse,
    /// Signature material with a wrong length or an invalid compact encoding.
    InvalidSignatureEncoding,
    /// A payload array whose length is not exactly 32.
    InvalidPayloadLength,
    /// The submission outlived its fixed wall-clock ceiling.
    DeadlineExceeded,
    /// Any other error from the transport layer.
    TransportFailure,
}

} // verus!
