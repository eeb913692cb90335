//! Bitcoin script construction: the P2PKH locking script and the matching
//! unlocking script. Correctness is structural (opcode and push-data layout).

use vstd::prelude::*;

use crate::address::DerivedAddress;
use crate::hashes::{ripemd160, ripemd160_of, sha256, sha256_of};

verus! {

/// The minimal push-data prefix for a payload of the given length: a bare
/// length below 76, else OP_PUSHDATA1/2/4 with a little-endian length.
pub open spec fn push_data_prefix(len: nat) -> Seq<u8> {
    if len < 76 {
        seq![len as u8]
    } else if len < 256 {
        seq![0x4cu8, len as u8]
    } else if len < 65536 {
        seq![0x4du8, (len % 256) as u8, (len / 256) as u8]
    } else {
        seq![
            0x4eu8,
            (len % 256) as u8,
            ((len / 256) % 256) as u8,
            ((len / 65536) % 256) as u8,
            (len / 16777216) as u8,
        ]
    }
}

/// A script element pushing the payload: prefix, then the payload itself.
pub open spec fn push_data(data: Seq<u8>) -> Seq<u8> {
    push_data_prefix(data.len()) + data
}

/// The standard P2PKH locking script around a 20-byte key hash:
/// `OP_DUP OP_HASH160 <hash> OP_EQUALVERIFY OP_CHECKSIG`.
pub open spec fn p2pkh_script(key_hash: Seq<u8>) -> Seq<u8> {
    seq![0x76u8, 0xa9] + push_data(key_hash) + seq![0x88u8, 0xac]
}

/// The unlocking script for a P2PKH spend: push the signature bytes, then
/// push the uncompressed public key.
pub open spec fn p2pkh_script_sig(signature: Seq<u8>, pubkey: Seq<u8>) -> Seq<u8> {
    push_data(signature) + push_data(pubkey)
}

/// Appends a push-data element to a script under construction.
fn append_push_data(out: &mut Vec<u8>, data: &[u8])
    requires
        data@.len() < 0x100000000,
    ensures
        final(out)@ == old(out)@ + push_data(data@),
{
    let len = data.len();
    if len < 76 {
        out.push(len as u8);
    } else if len < 256 {
        out.push(0x4c);
        out.push(len as u8);
    } else if len < 65536 {
        out.push(0x4d);
        out.push((len % 256) as u8);
        out.push((len / 256) as u8);
    } else {
        out.push(0x4e);
        out.push((len % 256) as u8);
        out.push(((len / 256) % 256) as u8);
        out.push(((len / 65536) % 256) as u8);
        out.push((len / 16777216) as u8);
    }
    let mut payload = vstd::slice::slice_to_vec(data);
    out.append(&mut payload);
    proof {
        assert(out@ =~= old(out)@ + push_data(data@));
    }
}

/// Builds the P2PKH locking script for a derived address; the embedded hash
/// is RIPEMD160(SHA256(uncompressed key bytes)).
pub fn get_script_pub_key(derived_address: &DerivedAddress) -> (r: Vec<u8>)
    requires
        derived_address.public_key.wf(),
    ensures
        r@ == p2pkh_script(ripemd160_of(sha256_of(derived_address.public_key@))),
{
    let h1 = sha256(derived_address.public_key.as_bytes().as_slice());
    let h2 = ripemd160(h1.as_slice());
    let mut out: Vec<u8> = Vec::new();
    out.push(0x76);
    out.push(0xa9);
    append_push_data(&mut out, h2.as_slice());
    out.push(0x88);
    out.push(0xac);
    proof {
        assert(out@ =~= p2pkh_script(ripemd160_of(sha256_of(derived_address.public_key@))));
    }
    out
}

/// Builds the unlocking script for a derived address and an already-encoded
/// signature: push the signature bytes, then the uncompressed public key.
pub fn build_script_sig_as_bytes(derived_address: &DerivedAddress, signature: &[u8]) -> (r: Vec<
    u8,
>)
    requires
        derived_address.public_key.wf(),
        signature@.len() < 0x100000000,
    ensures
        r@ == p2pkh_script_sig(signature@, derived_address.public_key@),
{
    let mut out: Vec<u8> = Vec::new();
    append_push_data(&mut out, signature);
    append_push_data(&mut out, derived_address.public_key.as_bytes().as_slice());
    proof {
        assert(out@ =~= p2pkh_script_sig(signature@, derived_address.public_key@));
    }
    out
}

} // verus!
