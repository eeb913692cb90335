//! Address encoders: EVM hex, Bitcoin legacy base58check, Bitcoin SegWit
//! bech32, plus the auxiliary key encodings the script builder consumes.

use vstd::prelude::*;
use vstd::string::StrSliceExecFns;
use vstd::string::StringExecFns;
use vstd::string::StringSliceAdditionalSpecFns;
use vstd::utf8::encode_utf8;

use crate::curve::{
    derive_key, point_decodes, pubkey_wf, scalar_in_range, sec1_point_valid, ec_tweak_of,
    PublicKey,
};
use crate::derivation::{derive_epsilon, epsilon_digest};
use crate::errors::OmniError;
use crate::hashes::{keccak256, keccak256_of, ripemd160, ripemd160_of, sha256, sha256_of};
use crate::hexenc::{hex_encode, hex_of};

verus! {

broadcast use vstd::utf8::encode_utf8_decode_utf8;

/// The base58 text (Bitcoin alphabet) encoding a byte sequence.
pub uninterp spec fn base58_of(data: Seq<u8>) -> Seq<char>;

/// The bytes that base58 text (Bitcoin alphabet) decodes to, or `None` for
/// text outside the alphabet.
pub uninterp spec fn base58_decode_of(text: Seq<u8>) -> Option<Seq<u8>>;

/// The bech32 text of the P2WPKH address for a 33-byte compressed key on the
/// chosen network, or `None` when the bytes are not a valid compressed key.
pub uninterp spec fn p2wpkh_address_of(compressed: Seq<u8>, mainnet: bool) -> Option<Seq<char>>;

/// Relies on `bs58::encode(..).into_string()`: the Bitcoin-alphabet base58
/// text for the bytes, a function of the input alone.
#[verifier::external_body]
fn base58_encode(data: &Vec<u8>) -> (r: String)
    ensures
        r@ == base58_of(data@),
{
    bs58::encode(data.as_slice()).into_string()
}

/// Relies on `bs58::decode(..).into_vec()`: the bytes for Bitcoin-alphabet
/// base58 text, `None` exactly on input that is not such text.
#[verifier::external_body]
fn base58_decode(text: &Vec<u8>) -> (r: Option<Vec<u8>>)
    ensures
        (r is Some) == (base58_decode_of(text@) is Some),
        r matches Some(v) ==> v@ == base58_decode_of(text@).unwrap(),
{
    match bs58::decode(text.as_slice()).into_vec() {
        Ok(v) => Some(v),
        Err(_) => None,
    }
}

/// Relies on `bitcoin`: `CompressedPublicKey::from_slice` accepts exactly the
/// valid SEC1 key encodings, and `Address::p2wpkh` renders the witness
/// pay-to-public-key-hash address for the chosen network (regtest stands in
/// for the test-like networks, as the engine's callers run a local node).
#[verifier::external_body]
fn p2wpkh_address(compressed: &Vec<u8>, mainnet: bool) -> (r: Option<String>)
    ensures
        (r is Some) == (p2wpkh_address_of(compressed@, mainnet) is Some),
        r matches Some(s) ==> s@ == p2wpkh_address_of(compressed@, mainnet).unwrap(),
{
    let key = match bitcoin::CompressedPublicKey::from_slice(compressed.as_slice()) {
        Ok(k) => k,
        Err(_) => return None,
    };
    let network = if mainnet {
        bitcoin::Network::Bitcoin
    } else {
        bitcoin::Network::Regtest
    };
    Some(bitcoin::Address::p2wpkh(&key, network).to_string())
}

/// String equality over the character views.
pub fn str_eq(a: &str, b: &str) -> (r: bool)
    ensures
        r == (a@ == b@),
{
    let ab: Vec<u8> = a.as_bytes_vec();
    let bb: Vec<u8> = b.as_bytes_vec();
    if ab.len() != bb.len() {
        proof {
            assert(a@ != b@);
        }
        return false;
    }
    let n = ab.len();
    for i in 0..n
        invariant
            n == ab@.len() == bb@.len(),
            ab@ == encode_utf8(a@),
            bb@ == encode_utf8(b@),
            ab@.subrange(0, i as int) == bb@.subrange(0, i as int),
    {
        if ab[i] != bb[i] {
            proof {
                assert(ab@ != bb@);
            }
            return false;
        }
        proof {
            assert(ab@.subrange(0, i + 1) =~= bb@.subrange(0, i + 1));
        }
    }
    proof {
        assert(ab@ =~= ab@.subrange(0, n as int));
        assert(bb@ =~= bb@.subrange(0, n as int));
        assert(encode_utf8(a@) == encode_utf8(b@));
        vstd::utf8::encode_utf8_decode_utf8(a@);
        vstd::utf8::encode_utf8_decode_utf8(b@);
    }
    true
}

/// The SEC1 compressed form of an uncompressed point encoding: parity prefix
/// from the Y coordinate, then the X coordinate.
pub open spec fn sec1_compress(p: Seq<u8>) -> Seq<u8>
    recommends
        pubkey_wf(p),
{
    seq![if p[64] % 2 == 0 { 0x02u8 } else { 0x03u8 }] + p.subrange(1, 33)
}

/// Compresses an uncompressed SEC1 key encoding.
fn compress_bytes(public_key: &PublicKey) -> (r: Vec<u8>)
    requires
        public_key.wf(),
    ensures
        r@ == sec1_compress(public_key@),
        r@.len() == 33,
{
    let bytes = public_key.as_bytes();
    let mut out: Vec<u8> = Vec::new();
    if bytes[64] % 2 == 0 {
        out.push(0x02);
    } else {
        out.push(0x03);
    }
    let mut i: usize = 1;
    while i < 33
        invariant
            public_key.wf(),
            bytes@ == public_key@,
            1 <= i <= 33,
            out@ == seq![if bytes@[64] % 2 == 0 { 0x02u8 } else { 0x03u8 }] + bytes@.subrange(
                1,
                i as int,
            ),
        decreases 33 - i,
    {
        out.push(bytes[i]);
        proof {
            assert(bytes@.subrange(1, i + 1) =~= bytes@.subrange(1, i as int).push(
                bytes@[i as int],
            ));
        }
        i = i + 1;
    }
    proof {
        assert(out@ =~= sec1_compress(public_key@));
    }
    out
}

/// The root public key constant: `secp256k1:` + base58 of the 64 raw point
/// bytes, fixed for the lifetime of the process.
pub open spec fn root_key_text() -> Seq<char> {
    "secp256k1:4NfTiv3UsGahebgTaHyD9vF8KYKMBnfd6kh94mK6xv8fGBiJB8TBtFMP5WWXz6B89Ac1fbpzPwAvoyQebemHFwx3"@
}

/// The root public key constant as executable text.
pub fn root_public_key() -> (r: &'static str)
    ensures
        r@ == root_key_text(),
{
    "secp256k1:4NfTiv3UsGahebgTaHyD9vF8KYKMBnfd6kh94mK6xv8fGBiJB8TBtFMP5WWXz6B89Ac1fbpzPwAvoyQebemHFwx3"
}

/// The UTF-8 bytes of the `secp256k1:` marker.
pub open spec fn secp_prefix_bytes() -> Seq<u8> {
    encode_utf8("secp256k1:"@)
}

/// What parsing a root key string yields: strip the marker, base58-decode,
/// demand exactly 64 bytes, prepend the uncompressed tag `0x04`, and demand a
/// valid curve point.
pub open spec fn root_key_parse(b: Seq<u8>) -> Result<Seq<u8>, OmniError> {
    if !(b.len() >= secp_prefix_bytes().len() && b.subrange(
        0,
        secp_prefix_bytes().len() as int,
    ) == secp_prefix_bytes()) {
        Err(OmniError::InvalidRootKeyEncoding)
    } else {
        match base58_decode_of(b.skip(secp_prefix_bytes().len() as int)) {
            Option::None => Err(OmniError::InvalidRootKeyEncoding),
            Option::Some(d) => if d.len() != 64 {
                Err(OmniError::InvalidRootKeyEncoding)
            } else {
                if sec1_point_valid(seq![0x04u8] + d) {
                    Ok(seq![0x04u8] + d)
                } else {
                    Err(OmniError::InvalidPublicKeyBytes)
                }
            },
        }
    }
}

/// Parses a `secp256k1:<base58>` string into an uncompressed public key.
pub fn convert_string_to_public_key(encoded: &str) -> (r: Result<PublicKey, OmniError>)
    ensures
        r matches Ok(k) ==> root_key_parse(encoded.spec_bytes()) == Ok::<Seq<u8>, OmniError>(k@)
            && k.wf(),
        r matches Err(e) ==> root_key_parse(encoded.spec_bytes()) == Err::<Seq<u8>, OmniError>(e),
{
    let bytes: Vec<u8> = encoded.as_bytes_vec();
    let prefix: Vec<u8> = "secp256k1:".as_bytes_vec();
    if bytes.len() < prefix.len() {
        return Err(OmniError::InvalidRootKeyEncoding);
    }
    let plen = prefix.len();
    for i in 0..plen
        invariant
            plen == prefix@.len(),
            bytes@.len() >= plen,
            bytes@ == encoded.spec_bytes(),
            prefix@ == secp_prefix_bytes(),
            bytes@.subrange(0, i as int) == prefix@.subrange(0, i as int),
    {
        if bytes[i] != prefix[i] {
            proof {
                assert(bytes@.subrange(0, plen as int)[i as int] != prefix@[i as int]);
            }
            return Err(OmniError::InvalidRootKeyEncoding);
        }
        proof {
            assert(bytes@.subrange(0, i + 1) =~= prefix@.subrange(0, i + 1));
        }
    }
    proof {
        assert(prefix@.subrange(0, plen as int) =~= prefix@);
    }
    let mut rest: Vec<u8> = Vec::new();
    let mut j: usize = plen;
    while j < bytes.len()
        invariant
            plen <= j <= bytes@.len(),
            bytes@ == encoded.spec_bytes(),
            plen == secp_prefix_bytes().len(),
            rest@ == bytes@.subrange(plen as int, j as int),
        decreases bytes@.len() - j,
    {
        rest.push(bytes[j]);
        proof {
            assert(bytes@.subrange(plen as int, j + 1) =~= bytes@.subrange(
                plen as int,
                j as int,
            ).push(bytes@[j as int]));
        }
        j = j + 1;
    }
    proof {
        assert(rest@ =~= bytes@.skip(plen as int));
    }
    let decoded = match base58_decode(&rest) {
        Some(d) => d,
        None => {
            return Err(OmniError::InvalidRootKeyEncoding);
        },
    };
    if decoded.len() != 64 {
        return Err(OmniError::InvalidRootKeyEncoding);
    }
    let mut full: Vec<u8> = Vec::new();
    full.push(0x04);
    let mut t: usize = 0;
    while t < 64
        invariant
            decoded@.len() == 64,
            t <= 64,
            full@ == seq![0x04u8] + decoded@.subrange(0, t as int),
        decreases 64 - t,
    {
        full.push(decoded[t]);
        proof {
            assert(decoded@.subrange(0, t + 1) =~= decoded@.subrange(0, t as int).push(
                decoded@[t as int],
            ));
        }
        t = t + 1;
    }
    proof {
        assert(decoded@.subrange(0, 64) =~= decoded@);
    }
    if point_decodes(&full) {
        Ok(PublicKey::from_uncompressed_bytes(full))
    } else {
        Err(OmniError::InvalidPublicKeyBytes)
    }
}

/// The uncompressed key bytes as lowercase hex.
pub fn public_key_to_hex(public_key: &PublicKey) -> (r: String)
    ensures
        r@ == hex_of(public_key@),
{
    hex_encode(public_key.as_bytes().as_slice())
}

/// The EVM address text for an uncompressed key: `0x` + hex of the last 20
/// bytes of the Keccak-256 digest of `X || Y`.
pub open spec fn evm_address_chars(pk: Seq<u8>) -> Seq<char> {
    "0x"@ + hex_of(keccak256_of(pk.subrange(1, 65)).subrange(12, 32))
}

/// Converts a public key to an Ethereum address.
pub fn public_key_to_evm_address(public_key: &PublicKey) -> (r: String)
    requires
        public_key.wf(),
    ensures
        r@ == evm_address_chars(public_key@),
{
    let bytes = public_key.as_bytes();
    let x_and_y = vstd::slice::slice_subrange(bytes.as_slice(), 1, 65);
    let digest = keccak256(x_and_y);
    let tail = vstd::slice::slice_subrange(digest.as_slice(), 12, 32);
    let hex_part = hex_encode(tail);
    let mut r = String::from_str("0x");
    r.append(hex_part.as_str());
    r
}

/// The base58check text of a payload: the payload, then the first four bytes
/// of its double SHA-256 digest, base58-encoded as one buffer.
pub open spec fn b58check_of(data: Seq<u8>) -> Seq<char> {
    base58_of(data + sha256_of(sha256_of(data)).subrange(0, 4))
}

/// Encodes bytes with a trailing four-byte double-SHA-256 checksum in base58.
pub fn base58check_encode(data: &[u8]) -> (r: String)
    ensures
        r@ == b58check_of(data@),
{
    let h1 = sha256(data);
    let h2 = sha256(h1.as_slice());
    let mut buf: Vec<u8> = vstd::slice::slice_to_vec(data);
    let checksum = vstd::slice::slice_subrange(h2.as_slice(), 0, 4);
    let mut checksum_vec = vstd::slice::slice_to_vec(checksum);
    buf.append(&mut checksum_vec);
    base58_encode(&buf)
}

/// The legacy P2PKH payload: one network byte, then RIPEMD160(SHA256(key)).
pub open spec fn btc_legacy_payload(pk: Seq<u8>, mainnet: bool) -> Seq<u8> {
    seq![if mainnet { 0x00u8 } else { 0x6fu8 }] + ripemd160_of(sha256_of(pk))
}

/// Converts a public key to a Bitcoin legacy (P2PKH, base58check) address;
/// the network byte is 0x00 for `"bitcoin"` and 0x6f otherwise.
pub fn public_key_to_btc_address(public_key: &PublicKey, network: &str) -> (r: String)
    ensures
        r@ == b58check_of(btc_legacy_payload(public_key@, network@ == "bitcoin"@)),
{
    let bytes = public_key.as_bytes();
    let h1 = sha256(bytes.as_slice());
    let h2 = ripemd160(h1.as_slice());
    let network_byte: u8 = if str_eq(network, "bitcoin") {
        0x00
    } else {
        0x6f
    };
    let mut payload: Vec<u8> = Vec::new();
    payload.push(network_byte);
    let mut hash_vec = vstd::slice::slice_to_vec(h2.as_slice());
    payload.append(&mut hash_vec);
    proof {
        assert(payload@ =~= btc_legacy_payload(public_key@, network@ == "bitcoin"@));
    }
    base58check_encode(payload.as_slice())
}

/// The 20-byte witness public key hash: RIPEMD160(SHA256(compressed key)).
pub open spec fn wpubkey_hash_of(pk: Seq<u8>) -> Seq<u8> {
    ripemd160_of(sha256_of(sec1_compress(pk)))
}

/// Converts a public key to its witness public key hash.
pub fn public_key_to_hash(public_key: &PublicKey) -> (r: Vec<u8>)
    requires
        public_key.wf(),
    ensures
        r@ == wpubkey_hash_of(public_key@),
        r@.len() == 20,
{
    let compressed = compress_bytes(public_key);
    let h1 = sha256(compressed.as_slice());
    ripemd160(h1.as_slice())
}

/// Converts a public key to a Bitcoin SegWit (P2WPKH, bech32) address; the
/// network is regtest for `"testnet"` and mainnet otherwise. Fails with
/// `InvalidPublicKeyBytes` exactly when the compressed bytes are rejected.
pub fn public_key_to_btc_segwit_address(public_key: &PublicKey, network: &str) -> (r: Result<
    String,
    OmniError,
>)
    requires
        public_key.wf(),
    ensures
        (r is Ok) == (p2wpkh_address_of(sec1_compress(public_key@), network@ != "testnet"@)
            is Some),
        r matches Ok(s) ==> s@ == p2wpkh_address_of(
            sec1_compress(public_key@),
            network@ != "testnet"@,
        ).unwrap(),
        r matches Err(e) ==> e == OmniError::InvalidPublicKeyBytes,
{
    let compressed = compress_bytes(public_key);
    let mainnet = !str_eq(network, "testnet");
    match p2wpkh_address(&compressed, mainnet) {
        Some(s) => Ok(s),
        None => Err(OmniError::InvalidPublicKeyBytes),
    }
}

/// A chain-native address string together with the derived public key that
/// produced it.
#[derive(Debug)]
pub struct DerivedAddress {
    pub address: String,
    pub public_key: PublicKey,
}

/// What deriving the per-identity key from the fixed root yields: the epsilon
/// digest must be a field representative, the root constant must parse, and
/// the tweak must produce an uncompressed point encoding.
pub open spec fn derived_key_for(account: Seq<char>, path: Seq<char>) -> Result<Seq<u8>, OmniError> {
    if !scalar_in_range(epsilon_digest(account, path)) {
        Err(OmniError::DerivationOutOfField)
    } else {
        match root_key_parse(encode_utf8(root_key_text())) {
            Result::Err(e) => Err(e),
            Result::Ok(root) => match ec_tweak_of(epsilon_digest(account, path), root) {
                Option::Some(v) => if pubkey_wf(v) {
                    Ok(v)
                } else {
                    Err(OmniError::InvalidPublicKeyBytes)
                },
                Option::None => Err(OmniError::InvalidPublicKeyBytes),
            },
        }
    }
}

/// Derives the per-identity public key from the root key constant.
fn derive_public_key(predecessor_id: &str, path: &str) -> (r: Result<PublicKey, OmniError>)
    ensures
        r matches Ok(k) ==> derived_key_for(predecessor_id@, path@) == Ok::<Seq<u8>, OmniError>(
            k@,
        ) && k.wf(),
        r matches Err(e) ==> derived_key_for(predecessor_id@, path@) == Err::<Seq<u8>, OmniError>(
            e,
        ),
{
    let epsilon = match derive_epsilon(predecessor_id, path) {
        Ok(e) => e,
        Err(e) => {
            return Err(e);
        },
    };
    let root = match convert_string_to_public_key(root_public_key()) {
        Ok(k) => k,
        Err(e) => {
            return Err(e);
        },
    };
    derive_key(root, epsilon)
}

/// Derives a SegWit address for a given path and predecessor account, against
/// the fixed root key and the test-like network.
pub fn get_derived_address_for_segwit(predecessor_id: &str, path: &str) -> (r: Result<
    DerivedAddress,
    OmniError,
>)
    ensures
        (r is Ok) == (derived_key_for(predecessor_id@, path@) matches Ok(k) && p2wpkh_address_of(
            sec1_compress(k),
            false,
        ) is Some),
        r matches Ok(d) ==> derived_key_for(predecessor_id@, path@) == Ok::<Seq<u8>, OmniError>(
            d.public_key@,
        ) && d.public_key.wf() && d.address@ == p2wpkh_address_of(
            sec1_compress(d.public_key@),
            false,
        ).unwrap(),
        r matches Err(e) ==> (derived_key_for(predecessor_id@, path@) matches Err(e2) && e == e2)
            || (derived_key_for(predecessor_id@, path@) is Ok && e
            == OmniError::InvalidPublicKeyBytes),
{
    let derived = match derive_public_key(predecessor_id, path) {
        Ok(k) => k,
        Err(e) => {
            return Err(e);
        },
    };
    let address = match public_key_to_btc_segwit_address(&derived, "testnet") {
        Ok(a) => a,
        Err(e) => {
            return Err(e);
        },
    };
    proof {
        reveal_strlit("testnet");
    }
    Ok(DerivedAddress { address, public_key: derived })
}

/// Derives a Bitcoin legacy address for a given path and predecessor account,
/// against the fixed root key and the test-like network.
pub fn get_derived_address_for_btc_legacy(predecessor_id: &str, path: &str) -> (r: Result<
    DerivedAddress,
    OmniError,
>)
    ensures
        (r is Ok) == (derived_key_for(predecessor_id@, path@) is Ok),
        r matches Ok(d) ==> derived_key_for(predecessor_id@, path@) == Ok::<Seq<u8>, OmniError>(
            d.public_key@,
        ) && d.public_key.wf() && d.address@ == b58check_of(
            btc_legacy_payload(d.public_key@, false),
        ),
        r matches Err(e) ==> derived_key_for(predecessor_id@, path@) == Err::<Seq<u8>, OmniError>(
            e,
        ),
{
    let derived = match derive_public_key(predecessor_id, path) {
        Ok(k) => k,
        Err(e) => {
            return Err(e);
        },
    };
    let address = public_key_to_btc_address(&derived, "testnet");
    proof {
        reveal_strlit("testnet");
        reveal_strlit("bitcoin");
        assert(("testnet"@)[0] != ("bitcoin"@)[0]);
        assert("testnet"@ != "bitcoin"@);
    }
    Ok(DerivedAddress { address, public_key: derived })
}

/// Derives an EVM address for a given path and predecessor account, against
/// the fixed root key.
pub fn get_derived_address_for_evm(predecessor_id: &str, path: &str) -> (r: Result<
    DerivedAddress,
    OmniError,
>)
    ensures
        (r is Ok) == (derived_key_for(predecessor_id@, path@) is Ok),
        r matches Ok(d) ==> derived_key_for(predecessor_id@, path@) == Ok::<Seq<u8>, OmniError>(
            d.public_key@,
        ) && d.public_key.wf() && d.address@ == evm_address_chars(d.public_key@),
        r matches Err(e) ==> derived_key_for(predecessor_id@, path@) == Err::<Seq<u8>, OmniError>(
            e,
        ),
{
    let derived = match derive_public_key(predecessor_id, path) {
        Ok(k) => k,
        Err(e) => {
            return Err(e);
        },
    };
    let address = public_key_to_evm_address(&derived);
    Ok(DerivedAddress { address, public_key: derived })
}

/// The compressed public key bytes of a derived address.
pub fn get_public_key_as_bytes(derived_address: &DerivedAddress) -> (r: Vec<u8>)
    requires
        derived_address.public_key.wf(),
    ensures
        r@ == sec1_compress(derived_address.public_key@),
        r@.len() == 33,
{
    compress_bytes(&derived_address.public_key)
}

/// The witness public key hash of a derived address.
pub fn get_public_key_hash(derived_address: &DerivedAddress) -> (r: Vec<u8>)
    requires
        derived_address.public_key.wf(),
    ensures
        r@ == wpubkey_hash_of(derived_address.public_key@),
        r@.len() == 20,
{
    public_key_to_hash(&derived_address.public_key)
}

/// The compressed form of a derived address's public key.
pub fn get_compressed_bitcoin_pubkey(derived_address: &DerivedAddress) -> (r: Vec<u8>)
    requires
        derived_address.public_key.wf(),
    ensures
        r@ == sec1_compress(derived_address.public_key@),
        r@.len() == 33,
{
    compress_bytes(&derived_address.public_key)
}

/// The uncompressed form of a derived address's public key.
pub fn get_uncompressed_bitcoin_pubkey(derived_address: &DerivedAddress) -> (r: Vec<u8>)
    requires
        derived_address.public_key.wf(),
    ensures
        r@ == derived_address.public_key@,
        r@.len() == 65,
{
    let bytes = derived_address.public_key.as_bytes();
    vstd::slice::slice_to_vec(bytes.as_slice())
}

} // verus!
