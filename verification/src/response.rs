//! Parsing the remote signer's execution outcome: signature components, raw
//! signed-transaction bytes, and fixed-size payloads. Parsing fails closed:
//! a missing or mis-shaped field is an error, never a default.

use vstd::prelude::*;

use vstd::string::StringSliceAdditionalSpecFns;

use crate::errors::OmniError;
use crate::hexenc::{hex_decode, hex_decode_of, is_hex_seq};

verus! {

/// The status of one execution outcome, reduced to what extraction reads:
/// either a success carrying a byte payload, or anything else.
#[derive(Debug, Clone)]
pub enum ExecutionStatus {
    SuccessValue(Vec<u8>),
    NotSuccess,
}

/// One receipt's outcome within a composite execution result.
#[derive(Debug, Clone)]
pub struct ReceiptOutcome {
    pub status: ExecutionStatus,
}

/// The final outcome of an execution: its own status plus the ordered
/// outcomes of its receipts.
#[derive(Debug, Clone)]
pub struct FinalOutcome {
    pub status: ExecutionStatus,
    pub receipts_outcome: Vec<ReceiptOutcome>,
}

/// A transaction response from the remote signer, reduced to the final
/// execution outcome, when the response carries one.
#[derive(Debug, Clone)]
pub struct SignerResponse {
    pub final_outcome: Option<FinalOutcome>,
}

/// The byte payload of the top-level success, when there is one.
pub open spec fn final_success_value(r: SignerResponse) -> Option<Seq<u8>> {
    match r.final_outcome {
        Option::Some(fo) => match fo.status {
            ExecutionStatus::SuccessValue(v) => Some(v@),
            ExecutionStatus::NotSuccess => None,
        },
        Option::None => None,
    }
}

/// The `(big_r.affine_point, s.scalar)` hex strings inside a JSON success
/// payload, or `None` when the payload is not such JSON.
pub uninterp spec fn signature_fields_of(payload: Seq<u8>) -> Option<(Seq<char>, Seq<char>)>;

/// The byte array a JSON success payload lists, or `None` when the payload
/// is not a JSON array of bytes.
pub uninterp spec fn json_byte_array_of(payload: Seq<u8>) -> Option<Seq<u8>>;

/// Whether 64 bytes parse as a compact ECDSA signature over secp256k1.
pub uninterp spec fn compact_sig_ok(bytes: Seq<u8>) -> bool;

/// Relies on `serde_json::from_str` over `str::from_utf8` of the payload,
/// then `Value::get`/`Value::as_str` for `big_r.affine_point` and `s.scalar`:
/// both strings when the payload is UTF-8 JSON carrying both fields, `None`
/// otherwise. A pure function of the payload bytes.
#[verifier::external_body]
fn parse_signature_fields(payload: &Vec<u8>) -> (r: Option<(String, String)>)
    ensures
        (r is Some) == (signature_fields_of(payload@) is Some),
        r matches Some(p) ==> (p.0@, p.1@) == signature_fields_of(payload@).unwrap(),
{
    let text = match core::str::from_utf8(payload.as_slice()) {
        Ok(t) => t,
        Err(_) => return None,
    };
    let value: serde_json::Value = match serde_json::from_str(text) {
        Ok(v) => v,
        Err(_) => return None,
    };
    match (value["big_r"]["affine_point"].as_str(), value["s"]["scalar"].as_str()) {
        (Some(big_r), Some(s)) => Some((big_r.to_string(), s.to_string())),
        _ => None,
    }
}

/// Relies on `serde_json::from_str::<Vec<u8>>` over `str::from_utf8` of the
/// payload: the listed bytes when the payload is a UTF-8 JSON array of
/// integers in byte range, `None` otherwise. A pure function of the payload.
#[verifier::external_body]
fn parse_json_byte_array(payload: &Vec<u8>) -> (r: Option<Vec<u8>>)
    ensures
        (r is Some) == (json_byte_array_of(payload@) is Some),
        r matches Some(v) ==> v@ == json_byte_array_of(payload@).unwrap(),
{
    let text = match core::str::from_utf8(payload.as_slice()) {
        Ok(t) => t,
        Err(_) => return None,
    };
    match serde_json::from_str::<Vec<u8>>(text) {
        Ok(v) => Some(v),
        Err(_) => None,
    }
}

/// Relies on `bitcoin::secp256k1::ecdsa::Signature::from_compact`: accepts
/// exactly 64 bytes whose `r` and `s` halves are canonical field elements.
#[verifier::external_body]
fn compact_signature_ok(bytes: &Vec<u8>) -> (r: bool)
    ensures
        r == compact_sig_ok(bytes@),
{
    bitcoin::secp256k1::ecdsa::Signature::from_compact(bytes.as_slice()).is_ok()
}

/// A 64-byte compact `(r, s)` signature reconstructed from the signer's
/// response: `r` is the x-coordinate of `big_r`, `s` the scalar.
#[derive(Debug, Clone)]
pub struct ReconstructedSignature {
    bytes: Vec<u8>,
}

impl View for ReconstructedSignature {
    type V = Seq<u8>;

    closed spec fn view(&self) -> Seq<u8> {
        self.bytes@
    }
}

impl ReconstructedSignature {
    /// Every reconstructed signature is 64 bytes and a valid compact encoding.
    pub open spec fn wf(&self) -> bool {
        self@.len() == 64 && compact_sig_ok(self@)
    }

    /// The compact 64 bytes, `r || s`.
    pub fn as_bytes(&self) -> (r: &Vec<u8>)
        ensures
            r@ == self@,
    {
        &self.bytes
    }
}

/// Extracts the `(big_r, s)` hex strings from a transaction response.
/// Fails with `MalformedSignerResponse` exactly when the response has no
/// final success value or its payload is not the expected JSON shape.
pub fn extract_big_r_and_s(response: &SignerResponse) -> (r: Result<(String, String), OmniError>)
    ensures
        (r is Ok) == (final_success_value(*response) matches Some(p) && signature_fields_of(p)
            is Some),
        r matches Ok(pair) ==> (pair.0@, pair.1@) == signature_fields_of(
            final_success_value(*response).unwrap(),
        ).unwrap(),
        r matches Err(e) ==> e == OmniError::MalformedSignerResponse,
{
    match &response.final_outcome {
        Some(final_outcome) => match &final_outcome.status {
            ExecutionStatus::SuccessValue(value) => match parse_signature_fields(value) {
                Some(pair) => Ok(pair),
                None => Err(OmniError::MalformedSignerResponse),
            },
            ExecutionStatus::NotSuccess => Err(OmniError::MalformedSignerResponse),
        },
        None => Err(OmniError::MalformedSignerResponse),
    }
}

/// The compact bytes a `(big_r, s)` hex pair reconstructs to: x-coordinate of
/// `big_r` (its decoded bytes less the one-byte parity prefix), then `s`.
pub open spec fn compact_of(big_r_hex: Seq<u8>, s_hex: Seq<u8>) -> Seq<u8> {
    hex_decode_of(big_r_hex).skip(1) + hex_decode_of(s_hex)
}

/// Whether a `(big_r, s)` hex pair has the exact lengths a reconstruction
/// needs: 33 decoded bytes for `big_r` (32 after the prefix) and 32 for `s`.
pub open spec fn signature_lengths_ok(big_r_hex: Seq<u8>, s_hex: Seq<u8>) -> bool {
    hex_decode_of(big_r_hex).len() == 33 && hex_decode_of(s_hex).len() == 32
}

/// Builds the 64-byte compact signature from the two hex components. Fails
/// with `InvalidSignatureEncoding` exactly when either string is not hex,
/// either decoded length is wrong, or the compact bytes are not a valid
/// signature encoding; in particular, whenever either component decodes to a
/// length other than 32 bytes after prefix stripping.
pub fn create_signature(big_r_hex: &str, s_hex: &str) -> (r: Result<
    ReconstructedSignature,
    OmniError,
>)
    ensures
        (r is Ok) == (is_hex_seq(big_r_hex.spec_bytes()) && is_hex_seq(s_hex.spec_bytes())
            && signature_lengths_ok(big_r_hex.spec_bytes(), s_hex.spec_bytes())
            && compact_sig_ok(compact_of(big_r_hex.spec_bytes(), s_hex.spec_bytes()))),
        r matches Ok(sig) ==> sig@ == compact_of(big_r_hex.spec_bytes(), s_hex.spec_bytes())
            && sig.wf(),
        r matches Err(e) ==> e == OmniError::InvalidSignatureEncoding,
        is_hex_seq(big_r_hex.spec_bytes()) && is_hex_seq(s_hex.spec_bytes())
            && !signature_lengths_ok(big_r_hex.spec_bytes(), s_hex.spec_bytes()) ==> r == Err::<
            ReconstructedSignature,
            OmniError,
        >(OmniError::InvalidSignatureEncoding),
{
    let big_r_text: Vec<u8> = vstd::string::StrSliceExecFns::as_bytes_vec(big_r_hex);
    let s_text: Vec<u8> = vstd::string::StrSliceExecFns::as_bytes_vec(s_hex);
    let big_r_bytes = match hex_decode(big_r_text.as_slice()) {
        Some(v) => v,
        None => {
            return Err(OmniError::InvalidSignatureEncoding);
        },
    };
    let s_bytes = match hex_decode(s_text.as_slice()) {
        Some(v) => v,
        None => {
            return Err(OmniError::InvalidSignatureEncoding);
        },
    };
    if big_r_bytes.len() != 33 || s_bytes.len() != 32 {
        return Err(OmniError::InvalidSignatureEncoding);
    }
    let x_part = vstd::slice::slice_subrange(big_r_bytes.as_slice(), 1, 33);
    let mut compact: Vec<u8> = vstd::slice::slice_to_vec(x_part);
    let mut s_tail: Vec<u8> = vstd::slice::slice_to_vec(s_bytes.as_slice());
    compact.append(&mut s_tail);
    proof {
        assert(hex_decode_of(big_r_hex.spec_bytes()).subrange(1, 33) =~= hex_decode_of(
            big_r_hex.spec_bytes(),
        ).skip(1));
        assert(compact@ =~= compact_of(big_r_hex.spec_bytes(), s_hex.spec_bytes()));
    }
    if compact_signature_ok(&compact) {
        Ok(ReconstructedSignature { bytes: compact })
    } else {
        Err(OmniError::InvalidSignatureEncoding)
    }
}

/// The signature pair one receipt contributes, when its success payload
/// parses as the expected JSON shape.
pub open spec fn receipt_signature(r: ReceiptOutcome) -> Option<(Seq<char>, Seq<char>)> {
    match r.status {
        ExecutionStatus::SuccessValue(v) => signature_fields_of(v@),
        ExecutionStatus::NotSuccess => None,
    }
}

/// All signature pairs contributed by a receipt sequence, in receipt order;
/// receipts that do not match the shape are skipped.
pub open spec fn collect_signatures(rs: Seq<ReceiptOutcome>) -> Seq<(Seq<char>, Seq<char>)>
    decreases rs.len(),
{
    if rs.len() == 0 {
        Seq::empty()
    } else {
        collect_signatures(rs.drop_last()) + match receipt_signature(rs.last()) {
            Option::Some(p) => seq![p],
            Option::None => Seq::empty(),
        }
    }
}

/// Extracts every signature pair found across the response's receipts, in
/// receipt order. Fails with `MalformedSignerResponse` exactly when no
/// receipt contributes one (in particular when there is no final outcome).
pub fn extract_multiple_signatures(response: &SignerResponse) -> (r: Result<
    Vec<(String, String)>,
    OmniError,
>)
    ensures
        (r is Ok) == (response.final_outcome matches Some(fo) && collect_signatures(
            fo.receipts_outcome@,
        ).len() > 0),
        r matches Ok(v) ==> v.deep_view() == collect_signatures(
            response.final_outcome.unwrap().receipts_outcome@,
        ),
        r matches Err(e) ==> e == OmniError::MalformedSignerResponse,
{
    let final_outcome = match &response.final_outcome {
        Some(fo) => fo,
        None => {
            return Err(OmniError::MalformedSignerResponse);
        },
    };
    let receipts = &final_outcome.receipts_outcome;
    let mut out: Vec<(String, String)> = Vec::new();
    let n = receipts.len();
    for i in 0..n
        invariant
            n == receipts@.len(),
            out.deep_view() == collect_signatures(receipts@.take(i as int)),
    {
        match &receipts[i].status {
            ExecutionStatus::SuccessValue(value) => {
                match parse_signature_fields(value) {
                    Some(pair) => {
                        out.push(pair);
                    },
                    None => {},
                }
            },
            ExecutionStatus::NotSuccess => {},
        }
        proof {
            let t = receipts@.take(i + 1);
            assert(t.drop_last() =~= receipts@.take(i as int));
            assert(t.last() == receipts@[i as int]);
            assert(out.deep_view() =~= collect_signatures(receipts@.take(i + 1)));
        }
    }
    proof {
        assert(receipts@.take(n as int) =~= receipts@);
    }
    if out.len() == 0 {
        return Err(OmniError::MalformedSignerResponse);
    }
    proof {
        assert(out.deep_view().len() == out@.len());
    }
    Ok(out)
}

/// What trimming every leading and trailing double-quote byte leaves.
pub open spec fn trim_quotes(s: Seq<u8>) -> Seq<u8>
    decreases s.len(),
{
    if s.len() > 0 && s.first() == 0x22 {
        trim_quotes(s.drop_first())
    } else if s.len() > 0 && s.last() == 0x22 {
        trim_quotes(s.drop_last())
    } else {
        s
    }
}

/// Strips leading and trailing double-quote bytes.
fn trim_quote_bytes(data: &Vec<u8>) -> (r: Vec<u8>)
    ensures
        r@ == trim_quotes(data@),
{
    let mut lo: usize = 0;
    let mut hi: usize = data.len();
    proof {
        assert(data@.subrange(0, data@.len() as int) =~= data@);
    }
    while lo < hi && (data[lo] == 0x22 || data[hi - 1] == 0x22)
        invariant
            lo <= hi <= data@.len(),
            trim_quotes(data@) == trim_quotes(data@.subrange(lo as int, hi as int)),
        decreases hi - lo,
    {
        if data[lo] == 0x22 {
            proof {
                assert(data@.subrange(lo as int, hi as int).drop_first() =~= data@.subrange(
                    lo + 1,
                    hi as int,
                ));
            }
            lo = lo + 1;
        } else {
            proof {
                let sub = data@.subrange(lo as int, hi as int);
                assert(sub.first() != 0x22);
                assert(sub.last() == 0x22);
                assert(sub.drop_last() =~= data@.subrange(lo as int, hi - 1));
            }
            hi = hi - 1;
        }
    }
    let kept = vstd::slice::slice_subrange(data.as_slice(), lo, hi);
    proof {
        let sub = data@.subrange(lo as int, hi as int);
        if sub.len() > 0 {
            assert(sub.first() != 0x22);
            assert(sub.last() != 0x22);
        }
        assert(trim_quotes(sub) == sub);
    }
    vstd::slice::slice_to_vec(kept)
}

/// Extracts the raw signed-transaction bytes: the success payload, stripped
/// of surrounding quotes, decoded from hex. Fails with
/// `MalformedSignerResponse` exactly when there is no final success value or
/// the stripped payload is not hex text.
pub fn extract_signed_transaction(response: &SignerResponse) -> (r: Result<Vec<u8>, OmniError>)
    ensures
        (r is Ok) == (final_success_value(*response) matches Some(p) && is_hex_seq(
            trim_quotes(p),
        )),
        r matches Ok(v) ==> v@ == hex_decode_of(trim_quotes(final_success_value(
            *response,
        ).unwrap())),
        r matches Err(e) ==> e == OmniError::MalformedSignerResponse,
{
    match &response.final_outcome {
        Some(final_outcome) => match &final_outcome.status {
            ExecutionStatus::SuccessValue(value) => {
                let trimmed = trim_quote_bytes(value);
                match hex_decode(trimmed.as_slice()) {
                    Some(v) => Ok(v),
                    None => Err(OmniError::MalformedSignerResponse),
                }
            },
            ExecutionStatus::NotSuccess => Err(OmniError::MalformedSignerResponse),
        },
        None => Err(OmniError::MalformedSignerResponse),
    }
}

/// Extracts the fixed-size payload: the success payload parsed as a JSON
/// array of bytes, which must have exactly 32 elements. Fails with
/// `InvalidPayloadLength` exactly when the array parses with any other
/// length, and with `MalformedSignerResponse` when there is no final success
/// value or the payload is not a JSON byte array.
pub fn extract_payload(response: &SignerResponse) -> (r: Result<Vec<u8>, OmniError>)
    ensures
        (r is Ok) == (final_success_value(*response) matches Some(p) && json_byte_array_of(p)
            matches Some(arr) && arr.len() == 32),
        r matches Ok(v) ==> v@ == json_byte_array_of(final_success_value(*response).unwrap())
            .unwrap() && v@.len() == 32,
        final_success_value(*response) matches Some(p) && json_byte_array_of(p) matches Some(arr)
            && arr.len() != 32 ==> r == Err::<Vec<u8>, OmniError>(OmniError::InvalidPayloadLength),
        r matches Err(e) ==> e == OmniError::InvalidPayloadLength || e
            == OmniError::MalformedSignerResponse,
{
    match &response.final_outcome {
        Some(final_outcome) => match &final_outcome.status {
            ExecutionStatus::SuccessValue(value) => match parse_json_byte_array(value) {
                Some(bytes) => {
                    if bytes.len() == 32 {
                        Ok(bytes)
                    } else {
                        Err(OmniError::InvalidPayloadLength)
                    }
                },
                None => Err(OmniError::MalformedSignerResponse),
            },
            ExecutionStatus::NotSuccess => Err(OmniError::MalformedSignerResponse),
        },
        None => Err(OmniError::MalformedSignerResponse),
    }
}

} // verus!
