use vstd::prelude::*;

use crate::bytes::copy_range;
use sha2::Digest;

verus! {

/// What sha2's SHA-256 returns: a function of the input bytes alone.
pub uninterp spec fn sha256_of(data: Seq<u8>) -> Seq<u8>;

/// What sha3's Keccak-256 returns: a function of the input bytes alone.
pub uninterp spec fn keccak_of(data: Seq<u8>) -> Seq<u8>;

/// What libsecp256k1 recovers from a 32-byte digest, a 64-byte standard
/// signature and a recovery id: the 65-byte serialized public key, or
/// nothing when the signature does not resolve. A function of the
/// arguments alone.
pub uninterp spec fn recovered_pubkey(digest: Seq<u8>, sig: Seq<u8>, rid: u8) -> Option<Seq<u8>>;

/// Relies on sha2::Sha256::digest: a 32-byte hash of the input bytes.
#[verifier::external_body]
pub fn sha256(data: &Vec<u8>) -> (r: Vec<u8>)
    ensures
        r@ == sha256_of(data@),
        r@.len() == 32,
{
    let out = sha2::Sha256::digest(data.as_slice());
    out.as_slice().to_vec()
}

/// Relies on sha3::Keccak256::digest: a 32-byte hash of the input bytes.
#[verifier::external_body]
pub fn keccak256(data: &Vec<u8>) -> (r: Vec<u8>)
    ensures
        r@ == keccak_of(data@),
        r@.len() == 32,
{
    let out = sha3::Keccak256::digest(data.as_slice());
    out.as_slice().to_vec()
}

/// Relies on libsecp256k1::recover (with its built-in multiplication
/// context), applied to the message, signature and recovery id parsed
/// from the arguments; the recovered key is handed back in its 65-byte
/// serialized form.
#[verifier::external_body]
pub fn recover_pubkey(digest: &Vec<u8>, sig: &Vec<u8>, rid: u8) -> (r: Option<Vec<u8>>)
    requires
        digest@.len() == 32,
        sig@.len() == 64,
    ensures
        (match r {
            Some(pk) => recovered_pubkey(digest@, sig@, rid) == Some(pk@) && pk@.len() == 65,
            None => recovered_pubkey(digest@, sig@, rid) is None,
        }),
{
    let msg = libsecp256k1::Message::parse_slice(digest.as_slice()).ok()?;
    let s = libsecp256k1::Signature::parse_standard_slice(sig.as_slice()).ok()?;
    let id = libsecp256k1::RecoveryId::parse(rid).ok()?;
    let pk = libsecp256k1::recover(&msg, &s, &id).ok()?;
    Some(pk.serialize().to_vec())
}

/// The guardian address of a recovered 65-byte public key: the last 20
/// bytes of the Keccak-256 hash of its unprefixed 64-byte form.
pub open spec fn eth_address_of(pk: Seq<u8>) -> Seq<u8> {
    keccak_of(pk.subrange(1, 65)).subrange(12, 32)
}

pub fn eth_address(pk: &Vec<u8>) -> (r: Vec<u8>)
    requires
        pk@.len() == 65,
    ensures
        r@ == eth_address_of(pk@),
        r@.len() == 20,
{
    let body = copy_range(pk, 1, 65);
    let h = crate::crypto::keccak256(&body);
    copy_range(&h, 12, 32)
}

} // verus!
