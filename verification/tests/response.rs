//! Extractor tests: signature fields, payload lengths, signed-transaction
//! bytes, and signature reconstruction.

use omni_box::errors::OmniError;
use omni_box::response::{
    create_signature, extract_big_r_and_s, extract_multiple_signatures, extract_payload,
    extract_signed_transaction, ExecutionStatus, FinalOutcome, ReceiptOutcome, SignerResponse,
};

fn success_response(payload: &str) -> SignerResponse {
    SignerResponse {
        final_outcome: Some(FinalOutcome {
            status: ExecutionStatus::SuccessValue(payload.as_bytes().to_vec()),
            receipts_outcome: Vec::new(),
        }),
    }
}

fn failure_response() -> SignerResponse {
    SignerResponse {
        final_outcome: Some(FinalOutcome {
            status: ExecutionStatus::NotSuccess,
            receipts_outcome: Vec::new(),
        }),
    }
}

#[test]
fn extracts_big_r_and_s_from_a_success_payload() {
    let payload = "{\"big_r\":{\"affine_point\":\"02AABB\"},\"s\":{\"scalar\":\"CCDD\"}}";
    let (big_r, s) = extract_big_r_and_s(&success_response(payload)).unwrap();
    assert_eq!(big_r, "02AABB");
    assert_eq!(s, "CCDD");
}

#[test]
fn missing_fields_are_a_malformed_response() {
    let no_s = "{\"big_r\":{\"affine_point\":\"02AABB\"}}";
    assert_eq!(
        extract_big_r_and_s(&success_response(no_s)).unwrap_err(),
        OmniError::MalformedSignerResponse
    );
    let not_json = "not json at all";
    assert_eq!(
        extract_big_r_and_s(&success_response(not_json)).unwrap_err(),
        OmniError::MalformedSignerResponse
    );
    assert_eq!(
        extract_big_r_and_s(&failure_response()).unwrap_err(),
        OmniError::MalformedSignerResponse
    );
    assert_eq!(
        extract_big_r_and_s(&SignerResponse { final_outcome: None }).unwrap_err(),
        OmniError::MalformedSignerResponse
    );
}

fn sig_receipt(big_r: &str, s: &str) -> ReceiptOutcome {
    let payload = format!(
        "{{\"big_r\":{{\"affine_point\":\"{}\"}},\"s\":{{\"scalar\":\"{}\"}}}}",
        big_r, s
    );
    ReceiptOutcome { status: ExecutionStatus::SuccessValue(payload.into_bytes()) }
}

#[test]
fn multiple_signatures_keep_receipt_order_and_skip_mismatches() {
    let response = SignerResponse {
        final_outcome: Some(FinalOutcome {
            status: ExecutionStatus::NotSuccess,
            receipts_outcome: vec![
                sig_receipt("02AA", "01"),
                ReceiptOutcome { status: ExecutionStatus::NotSuccess },
                ReceiptOutcome {
                    status: ExecutionStatus::SuccessValue(b"\"just a string\"".to_vec()),
                },
                sig_receipt("03BB", "02"),
            ],
        }),
    };
    let sigs = extract_multiple_signatures(&response).unwrap();
    assert_eq!(sigs.len(), 2);
    assert_eq!(sigs[0], ("02AA".to_string(), "01".to_string()));
    assert_eq!(sigs[1], ("03BB".to_string(), "02".to_string()));
}

#[test]
fn no_matching_receipt_is_an_error() {
    let response = SignerResponse {
        final_outcome: Some(FinalOutcome {
            status: ExecutionStatus::NotSuccess,
            receipts_outcome: vec![ReceiptOutcome { status: ExecutionStatus::NotSuccess }],
        }),
    };
    assert_eq!(
        extract_multiple_signatures(&response).unwrap_err(),
        OmniError::MalformedSignerResponse
    );
    assert_eq!(
        extract_multiple_signatures(&SignerResponse { final_outcome: None }).unwrap_err(),
        OmniError::MalformedSignerResponse
    );
}

#[test]
fn signed_transaction_bytes_are_trimmed_and_hex_decoded() {
    let bytes = extract_signed_transaction(&success_response("\"deadBEEF\"")).unwrap();
    assert_eq!(bytes, vec![0xde, 0xad, 0xbe, 0xef]);

    let bare = extract_signed_transaction(&success_response("00ff10")).unwrap();
    assert_eq!(bare, vec![0x00, 0xff, 0x10]);
}

#[test]
fn signed_transaction_rejects_non_hex() {
    assert_eq!(
        extract_signed_transaction(&success_response("\"xyz\"")).unwrap_err(),
        OmniError::MalformedSignerResponse
    );
    assert_eq!(
        extract_signed_transaction(&success_response("\"abc\"")).unwrap_err(),
        OmniError::MalformedSignerResponse
    );
    assert_eq!(
        extract_signed_transaction(&failure_response()).unwrap_err(),
        OmniError::MalformedSignerResponse
    );
}

fn json_array(len: usize) -> String {
    let elements: Vec<String> = (0..len).map(|i| (i % 256).to_string()).collect();
    format!("[{}]", elements.join(","))
}

#[test]
fn payload_of_exactly_32_bytes_is_returned() {
    let payload = extract_payload(&success_response(&json_array(32))).unwrap();
    assert_eq!(payload.len(), 32);
    assert_eq!(payload[0], 0);
    assert_eq!(payload[31], 31);
}

#[test]
fn payload_of_any_other_length_is_rejected() {
    assert_eq!(
        extract_payload(&success_response(&json_array(31))).unwrap_err(),
        OmniError::InvalidPayloadLength
    );
    assert_eq!(
        extract_payload(&success_response(&json_array(33))).unwrap_err(),
        OmniError::InvalidPayloadLength
    );
    assert_eq!(
        extract_payload(&success_response("[]")).unwrap_err(),
        OmniError::InvalidPayloadLength
    );
    assert_eq!(
        extract_payload(&success_response("{\"a\":1}")).unwrap_err(),
        OmniError::MalformedSignerResponse
    );
    assert_eq!(
        extract_payload(&failure_response()).unwrap_err(),
        OmniError::MalformedSignerResponse
    );
}

fn hex_of_byte_run(prefix: &str, byte: &str, n: usize) -> String {
    let mut s = String::from(prefix);
    for _ in 0..n {
        s.push_str(byte);
    }
    s
}

#[test]
fn create_signature_accepts_exact_lengths() {
    // big_r: a parity prefix plus 32 x-coordinate bytes; s: 32 bytes of value 1.
    let big_r = hex_of_byte_run("02", "00", 31) + "01";
    let s = hex_of_byte_run("", "00", 31) + "01";
    let sig = create_signature(&big_r, &s).unwrap();
    assert_eq!(sig.as_bytes().len(), 64);
    assert_eq!(sig.as_bytes()[31], 0x01);
    assert_eq!(sig.as_bytes()[63], 0x01);
}

#[test]
fn create_signature_rejects_wrong_lengths() {
    let good_s = hex_of_byte_run("", "00", 31) + "01";
    // big_r decodes to 32 bytes: only 31 remain after stripping the prefix.
    let short_big_r = hex_of_byte_run("02", "00", 30) + "01";
    assert_eq!(
        create_signature(&short_big_r, &good_s).unwrap_err(),
        OmniError::InvalidSignatureEncoding
    );
    // s decodes to 33 bytes.
    let good_big_r = hex_of_byte_run("02", "00", 31) + "01";
    let long_s = hex_of_byte_run("", "00", 32) + "01";
    assert_eq!(
        create_signature(&good_big_r, &long_s).unwrap_err(),
        OmniError::InvalidSignatureEncoding
    );
    // Empty big_r: nothing to strip.
    assert_eq!(
        create_signature("", &good_s).unwrap_err(),
        OmniError::InvalidSignatureEncoding
    );
}

#[test]
fn create_signature_rejects_non_hex_and_out_of_range_scalars() {
    let good_s = hex_of_byte_run("", "00", 31) + "01";
    assert_eq!(
        create_signature("zz", &good_s).unwrap_err(),
        OmniError::InvalidSignatureEncoding
    );
    // r equal to the curve order is not a canonical compact encoding.
    let order_hex = "fffffffffffffffffffffffffffffffebaaedce6af48a03bbfd25e8cd0364141";
    let big_r_at_order = format!("02{}", order_hex);
    assert_eq!(
        create_signature(&big_r_at_order, &good_s).unwrap_err(),
        OmniError::InvalidSignatureEncoding
    );
}

#[test]
fn signature_flows_from_response_to_compact_bytes() {
    let x = "00000000000000000000000000000000000000000000000000000000000000aa";
    let scalar = "00000000000000000000000000000000000000000000000000000000000000bb";
    let payload = format!(
        "{{\"big_r\":{{\"affine_point\":\"03{}\"}},\"s\":{{\"scalar\":\"{}\"}}}}",
        x, scalar
    );
    let (big_r, s) = extract_big_r_and_s(&success_response(&payload)).unwrap();
    let sig = create_signature(&big_r, &s).unwrap();
    assert_eq!(sig.as_bytes().len(), 64);
    assert_eq!(sig.as_bytes()[31], 0xaa);
    assert_eq!(sig.as_bytes()[63], 0xbb);
}
