//! The semantic layer over secp256k1: field scalars, uncompressed public key
//! points, and the additive key tweak `epsilon * G + P`.

use vstd::prelude::*;

use k256::elliptic_curve::sec1::FromEncodedPoint;
use k256::elliptic_curve::sec1::ToEncodedPoint;
use k256::elliptic_curve::PrimeField;

use crate::errors::OmniError;

verus! {

/// A big-endian byte sequence read as an unsigned integer.
pub open spec fn be_bytes_to_nat(s: Seq<u8>) -> nat
    decreases s.len(),
{
    if s.len() == 0 {
        0
    } else {
        be_bytes_to_nat(s.drop_last()) * 256 + s.last() as nat
    }
}

/// The order of the secp256k1 scalar field.
pub open spec fn secp256k1_order() -> nat {
    0xFFFFFFFFFFFFFFFFFFFFFFFFFFFFFFFEBAAEDCE6AF48A03BBFD25E8CD0364141nat
}

/// The order of the secp256k1 scalar field, as 32 big-endian bytes.
pub open spec fn secp256k1_order_bytes() -> Seq<u8> {
    seq![
        0xFFu8, 0xFF, 0xFF, 0xFF, 0xFF, 0xFF, 0xFF, 0xFF, 0xFF, 0xFF, 0xFF, 0xFF, 0xFF, 0xFF,
        0xFF, 0xFE, 0xBA, 0xAE, 0xDC, 0xE6, 0xAF, 0x48, 0xA0, 0x3B, 0xBF, 0xD2, 0x5E, 0x8C, 0xD0,
        0x36, 0x41, 0x41,
    ]
}

/// The byte form of the order reads back as the order.
pub proof fn lemma_order_bytes_value()
    ensures
        be_bytes_to_nat(secp256k1_order_bytes()) == secp256k1_order(),
{
    reveal_with_fuel(be_bytes_to_nat, 33);
    assert(be_bytes_to_nat(secp256k1_order_bytes()) == secp256k1_order());
}

/// Whether 32 bytes are a canonical big-endian scalar representative.
pub open spec fn scalar_in_range(s: Seq<u8>) -> bool {
    s.len() == 32 && be_bytes_to_nat(s) < secp256k1_order()
}

/// Whether bytes are shaped like an uncompressed SEC1 point encoding.
pub open spec fn pubkey_wf(s: Seq<u8>) -> bool {
    s.len() == 65 && s[0] == 0x04
}

/// Equal-length big-endian numbers order as their bytes do lexicographically:
/// with a common prefix and a smaller byte at the first difference, the whole
/// number is smaller.
pub proof fn lemma_be_lex_lt(a: Seq<u8>, b: Seq<u8>, i: int)
    requires
        a.len() == b.len(),
        0 <= i < a.len(),
        a.subrange(0, i) == b.subrange(0, i),
        a[i] < b[i],
    ensures
        be_bytes_to_nat(a) < be_bytes_to_nat(b),
    decreases a.len(),
{
    let n = a.len() as int;
    if i == n - 1 {
        assert(a.drop_last() =~= a.subrange(0, i));
        assert(b.drop_last() =~= b.subrange(0, i));
    } else {
        let a1 = a.drop_last();
        let b1 = b.drop_last();
        assert(a1.subrange(0, i) =~= a.subrange(0, i));
        assert(b1.subrange(0, i) =~= b.subrange(0, i));
        lemma_be_lex_lt(a1, b1, i);
        assert(be_bytes_to_nat(a) == be_bytes_to_nat(a1) * 256 + a.last());
        assert(be_bytes_to_nat(b) == be_bytes_to_nat(b1) * 256 + b.last());
        assert(be_bytes_to_nat(a1) * 256 + 256 <= be_bytes_to_nat(b1) * 256) by (nonlinear_arith)
            requires
                be_bytes_to_nat(a1) < be_bytes_to_nat(b1),
        ;
    }
}

/// A secp256k1 field scalar: 32 big-endian bytes strictly below the order.
#[derive(Debug, Clone)]
pub struct Scalar {
    bytes: Vec<u8>,
}

impl View for Scalar {
    type V = Seq<u8>;

    closed spec fn view(&self) -> Seq<u8> {
        self.bytes@
    }
}

impl Scalar {
    /// Every constructed scalar is a canonical field representative.
    pub open spec fn wf(&self) -> bool {
        scalar_in_range(self@)
    }

    /// Returns the scalar with the given big-endian representative, or `None`
    /// exactly when the bytes read as an integer at or above the field order.
    pub fn from_bytes(bytes: &[u8]) -> (r: Option<Scalar>)
        requires
            bytes@.len() == 32,
        ensures
            (r is Some) == scalar_in_range(bytes@),
            r matches Some(s) ==> s@ == bytes@ && s.wf(),
    {
        let order = secp256k1_order_vec();
        let mut i: usize = 0;
        while i < 32
            invariant
                bytes@.len() == 32,
                order@ == secp256k1_order_bytes(),
                i <= 32,
                bytes@.subrange(0, i as int) == secp256k1_order_bytes().subrange(0, i as int),
            decreases 32 - i,
        {
            if bytes[i] < order[i] {
                proof {
                    lemma_be_lex_lt(bytes@, secp256k1_order_bytes(), i as int);
                    lemma_order_bytes_value();
                }
                return Some(Scalar { bytes: vstd::slice::slice_to_vec(bytes) });
            }
            if bytes[i] > order[i] {
                proof {
                    lemma_be_lex_lt(secp256k1_order_bytes(), bytes@, i as int);
                    lemma_order_bytes_value();
                }
                return None;
            }
            proof {
                assert(bytes@.subrange(0, i + 1) =~= secp256k1_order_bytes().subrange(
                    0,
                    i + 1,
                ));
            }
            i = i + 1;
        }
        proof {
            assert(bytes@.subrange(0, 32) =~= bytes@);
            assert(secp256k1_order_bytes().subrange(0, 32) =~= secp256k1_order_bytes());
            lemma_order_bytes_value();
        }
        None
    }

    /// The scalar for bytes already known to be in range; used for digests,
    /// which miss the field with probability about 2^-127.
    pub fn from_non_biased(bytes: &[u8]) -> (r: Scalar)
        requires
            scalar_in_range(bytes@),
        ensures
            r@ == bytes@,
            r.wf(),
    {
        Scalar { bytes: vstd::slice::slice_to_vec(bytes) }
    }

    /// The big-endian representative bytes.
    pub fn as_bytes(&self) -> (r: &Vec<u8>)
        ensures
            r@ == self@,
    {
        &self.bytes
    }
}

/// The field order as executable bytes.
fn secp256k1_order_vec() -> (r: Vec<u8>)
    ensures
        r@ == secp256k1_order_bytes(),
{
    let r: Vec<u8> = vec![
        0xFFu8, 0xFF, 0xFF, 0xFF, 0xFF, 0xFF, 0xFF, 0xFF, 0xFF, 0xFF, 0xFF, 0xFF, 0xFF, 0xFF,
        0xFF, 0xFE, 0xBA, 0xAE, 0xDC, 0xE6, 0xAF, 0x48, 0xA0, 0x3B, 0xBF, 0xD2, 0x5E, 0x8C, 0xD0,
        0x36, 0x41, 0x41,
    ];
    proof {
        assert(r@ =~= secp256k1_order_bytes());
    }
    r
}

/// An uncompressed secp256k1 public key: 65 SEC1 bytes `04 || X || Y`.
#[derive(Debug, Clone)]
pub struct PublicKey {
    bytes: Vec<u8>,
}

impl View for PublicKey {
    type V = Seq<u8>;

    closed spec fn view(&self) -> Seq<u8> {
        self.bytes@
    }
}

impl PublicKey {
    /// Every constructed key has the uncompressed SEC1 shape.
    pub open spec fn wf(&self) -> bool {
        pubkey_wf(self@)
    }

    /// Wraps bytes already shaped like an uncompressed SEC1 encoding.
    pub fn from_uncompressed_bytes(bytes: Vec<u8>) -> (r: PublicKey)
        requires
            pubkey_wf(bytes@),
        ensures
            r@ == bytes@,
            r.wf(),
    {
        PublicKey { bytes }
    }

    /// The uncompressed SEC1 bytes.
    pub fn as_bytes(&self) -> (r: &Vec<u8>)
        ensures
            r@ == self@,
    {
        &self.bytes
    }
}

/// The SEC1 encoding of `epsilon * G + P` in affine coordinates (a single
/// zero byte when the sum is the identity), or `None` when the scalar or the
/// point bytes do not decode.
pub uninterp spec fn ec_tweak_of(epsilon: Seq<u8>, point: Seq<u8>) -> Option<Seq<u8>>;

/// Whether bytes decode as a SEC1 encoding of a secp256k1 point.
pub uninterp spec fn sec1_point_valid(bytes: Seq<u8>) -> bool;

/// Relies on `k256`: `Scalar::from_repr`, `AffinePoint::from_encoded_point`,
/// scalar multiplication of `ProjectivePoint::GENERATOR`, point addition,
/// `to_affine` and `to_encoded_point(false)`. The result is a function of the
/// two inputs alone; `None` when either input fails to decode.
#[verifier::external_body]
fn ec_tweak_add(epsilon: &Vec<u8>, point: &Vec<u8>) -> (r: Option<Vec<u8>>)
    requires
        epsilon@.len() == 32,
    ensures
        (r is Some) == (ec_tweak_of(epsilon@, point@) is Some),
        r matches Some(v) ==> v@ == ec_tweak_of(epsilon@, point@).unwrap(),
{
    let scalar_opt = k256::Scalar::from_repr(*k256::FieldBytes::from_slice(epsilon.as_slice()));
    let encoded = match k256::EncodedPoint::from_bytes(point.as_slice()) {
        Ok(e) => e,
        Err(_) => return None,
    };
    let point_opt = k256::AffinePoint::from_encoded_point(&encoded);
    if bool::from(scalar_opt.is_none()) || bool::from(point_opt.is_none()) {
        return None;
    }
    let sum = (k256::ProjectivePoint::GENERATOR * scalar_opt.unwrap() + point_opt.unwrap())
        .to_affine();
    Some(sum.to_encoded_point(false).as_bytes().to_vec())
}

/// Relies on `k256`: `EncodedPoint::from_bytes` and
/// `AffinePoint::from_encoded_point` together accept exactly the valid SEC1
/// point encodings.
#[verifier::external_body]
pub(crate) fn point_decodes(bytes: &Vec<u8>) -> (r: bool)
    ensures
        r == sec1_point_valid(bytes@),
{
    match k256::EncodedPoint::from_bytes(bytes.as_slice()) {
        Ok(encoded) => bool::from(k256::AffinePoint::from_encoded_point(&encoded).is_some()),
        Err(_) => false,
    }
}

/// Additively tweaks the root key: the derived key is `epsilon * G + root`.
/// Fails with `InvalidPublicKeyBytes` exactly when the curve arithmetic does
/// not yield an uncompressed point encoding.
pub fn derive_key(public_key: PublicKey, epsilon: Scalar) -> (r: Result<PublicKey, OmniError>)
    requires
        epsilon.wf(),
    ensures
        (r is Ok) == (ec_tweak_of(epsilon@, public_key@) matches Some(v) && pubkey_wf(v)),
        r matches Ok(k) ==> Some(k@) == ec_tweak_of(epsilon@, public_key@) && k.wf(),
        r matches Err(e) ==> e == OmniError::InvalidPublicKeyBytes,
{
    match ec_tweak_add(&epsilon.bytes, &public_key.bytes) {
        Some(v) => {
            if v.len() == 65 && v[0] == 0x04 {
                Ok(PublicKey { bytes: v })
            } else {
                Err(OmniError::InvalidPublicKeyBytes)
            }
        },
        None => Err(OmniError::InvalidPublicKeyBytes),
    }
}

} // verus!
