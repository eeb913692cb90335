//! Address-encoder tests: root key parsing, base58check, the SegWit
//! round-trip, and the script builder's byte layout.

use std::str::FromStr;

use omni_box::address::{
    base58check_encode, convert_string_to_public_key, get_compressed_bitcoin_pubkey,
    get_derived_address_for_segwit, get_public_key_as_bytes, get_public_key_hash,
    get_uncompressed_bitcoin_pubkey, root_public_key,
};
use omni_box::errors::OmniError;
use omni_box::hexenc::{hex_decode, hex_encode};
use omni_box::script::{build_script_sig_as_bytes, get_script_pub_key};

use k256::sha2::Digest;

fn hash160(data: &[u8]) -> Vec<u8> {
    let sha = k256::sha2::Sha256::digest(data);
    ripemd::Ripemd160::digest(sha).to_vec()
}

#[test]
fn root_key_with_wrong_prefix_is_rejected() {
    assert_eq!(
        convert_string_to_public_key("ed25519:abc").unwrap_err(),
        OmniError::InvalidRootKeyEncoding
    );
    assert_eq!(
        convert_string_to_public_key("").unwrap_err(),
        OmniError::InvalidRootKeyEncoding
    );
}

#[test]
fn root_key_with_bad_base58_is_rejected() {
    // '0', 'O', 'I' and 'l' are outside the base58 alphabet.
    assert_eq!(
        convert_string_to_public_key("secp256k1:0OIl").unwrap_err(),
        OmniError::InvalidRootKeyEncoding
    );
}

#[test]
fn root_key_with_wrong_payload_length_is_rejected() {
    // One byte of payload instead of 64.
    let short = format!("secp256k1:{}", bs58::encode([7u8]).into_string());
    assert_eq!(
        convert_string_to_public_key(&short).unwrap_err(),
        OmniError::InvalidRootKeyEncoding
    );
}

#[test]
fn root_key_off_curve_is_rejected() {
    // (x, y) = (0, 0) does not satisfy y^2 = x^3 + 7.
    let zeros = format!("secp256k1:{}", bs58::encode([0u8; 64]).into_string());
    assert_eq!(
        convert_string_to_public_key(&zeros).unwrap_err(),
        OmniError::InvalidPublicKeyBytes
    );
}

#[test]
fn root_key_constant_parses() {
    let key = convert_string_to_public_key(root_public_key()).unwrap();
    assert_eq!(key.as_bytes().len(), 65);
    assert_eq!(key.as_bytes()[0], 0x04);
}

#[test]
fn base58check_appends_double_sha_checksum() {
    let payload = [0x6fu8, 1, 2, 3, 4, 5, 6, 7, 8, 9, 10, 11, 12, 13, 14, 15, 16, 17, 18, 19, 20];
    let h1 = k256::sha2::Sha256::digest(payload);
    let h2 = k256::sha2::Sha256::digest(h1);
    let mut buf = payload.to_vec();
    buf.extend_from_slice(&h2[..4]);
    assert_eq!(base58check_encode(&payload), bs58::encode(buf).into_string());
}

#[test]
fn segwit_address_round_trips_to_the_key_hash() {
    let derived = get_derived_address_for_segwit("omnitester.testnet", "bitcoin-1").unwrap();
    let expected_hash = get_public_key_hash(&derived);

    let parsed = bitcoin::Address::from_str(&derived.address)
        .unwrap()
        .require_network(bitcoin::Network::Regtest)
        .unwrap();
    let program = parsed.witness_program().unwrap();
    assert_eq!(program.program().as_bytes(), expected_hash.as_slice());
}

#[test]
fn key_hash_is_hash160_of_the_compressed_key() {
    let derived = get_derived_address_for_segwit("omnitester.testnet", "bitcoin-1").unwrap();
    let compressed = get_compressed_bitcoin_pubkey(&derived);
    assert_eq!(get_public_key_hash(&derived), hash160(&compressed));
}

#[test]
fn compressed_and_uncompressed_keys_agree() {
    let derived = get_derived_address_for_segwit("omnitester.testnet", "bitcoin-1").unwrap();
    let uncompressed = get_uncompressed_bitcoin_pubkey(&derived);
    let compressed = get_public_key_as_bytes(&derived);
    assert_eq!(uncompressed.len(), 65);
    assert_eq!(compressed.len(), 33);
    assert_eq!(&compressed[1..], &uncompressed[1..33]);
    let parity = if uncompressed[64] % 2 == 0 { 0x02 } else { 0x03 };
    assert_eq!(compressed[0], parity);
}

#[test]
fn script_pub_key_has_the_p2pkh_layout() {
    let derived = get_derived_address_for_segwit("omnitester.testnet", "bitcoin-1").unwrap();
    let script = get_script_pub_key(&derived);
    let hash = hash160(&get_uncompressed_bitcoin_pubkey(&derived));
    let mut expected = vec![0x76u8, 0xa9, 0x14];
    expected.extend_from_slice(&hash);
    expected.push(0x88);
    expected.push(0xac);
    assert_eq!(script, expected);
}

#[test]
fn script_sig_pushes_signature_then_key() {
    let derived = get_derived_address_for_segwit("omnitester.testnet", "bitcoin-1").unwrap();
    let signature = [0x30u8, 0x02, 0x01, 0x01, 0x01];
    let script = build_script_sig_as_bytes(&derived, &signature);
    let key = get_uncompressed_bitcoin_pubkey(&derived);
    let mut expected = vec![signature.len() as u8];
    expected.extend_from_slice(&signature);
    expected.push(key.len() as u8);
    expected.extend_from_slice(&key);
    assert_eq!(script, expected);
}

#[test]
fn hex_encoding_round_trips() {
    assert_eq!(hex_encode(&[]), "");
    assert_eq!(hex_encode(&[0x00, 0x0f, 0xa5, 0xff]), "000fa5ff");
    assert_eq!(hex_decode(b"000fa5ff").unwrap(), vec![0x00, 0x0f, 0xa5, 0xff]);
    assert_eq!(hex_decode(b"AbCd").unwrap(), vec![0xab, 0xcd]);
    assert!(hex_decode(b"abc").is_none());
    assert!(hex_decode(b"zz").is_none());
    assert_eq!(hex_decode(b"").unwrap(), Vec::<u8>::new());
}
