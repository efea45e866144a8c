//! Trusted bindings to the cryptographic provider.
//!
//! The protocol composes standard primitives: HMAC-SHA-256, SHA-256, SHA-384,
//! AES-128 in counter mode, ECDSA verification on curve P-384, and a hardware
//! entropy source. Each primitive's result is given a name here; the verified
//! code states its contracts over those names and never restates what the
//! primitives compute.

use crate::Error;
use ctr::cipher::{KeyIvInit, StreamCipher};
use hmac::{Hmac, KeyInit, Mac};
use p384::ecdsa::signature::hazmat::PrehashVerifier;
use rand_core::TryRng;
use sha2::Digest;
use vstd::prelude::*;

verus! {

/// The HMAC-SHA-256 tag of `msg` under `key`: 32 bytes, a function of the
/// key and the message alone.
pub uninterp spec fn spec_hmac_sha256(key: Seq<u8>, msg: Seq<u8>) -> Seq<u8>;

/// The SHA-256 digest of `msg`: 32 bytes, a function of the message alone.
pub uninterp spec fn spec_sha256(msg: Seq<u8>) -> Seq<u8>;

/// The SHA-384 digest of `msg`: 48 bytes, a function of the message alone.
pub uninterp spec fn spec_sha384(msg: Seq<u8>) -> Seq<u8>;

/// `data` enciphered (equally, deciphered) with the AES-128-CTR keystream
/// for `key` and initial counter block `iv`: as long as `data`, a function
/// of key, iv and data alone.
pub uninterp spec fn spec_aes128_ctr(key: Seq<u8>, iv: Seq<u8>, data: Seq<u8>) -> Seq<u8>;

/// Whether `key` is a valid SEC1 encoding of a P-384 point and `sig` a pair
/// of in-range, non-zero big-endian P-384 scalars.
pub uninterp spec fn spec_p384_inputs_ok(key: Seq<u8>, sig: Seq<u8>) -> bool;

/// Whether `sig` is a valid ECDSA signature by `key` over the prehashed
/// `digest`, on curve P-384.
pub uninterp spec fn spec_p384_sig_valid(key: Seq<u8>, digest: Seq<u8>, sig: Seq<u8>) -> bool;

/// Relies on hmac's `Hmac<sha2::Sha256>`: `new_from_slice` accepts keys of
/// every length, and the finalized tag is 32 bytes, a deterministic function
/// of key and message.
#[verifier::external_body]
pub(crate) fn hmac_sha256(key: &[u8], msg: &[u8]) -> (r: Vec<u8>)
    ensures
        r@ == spec_hmac_sha256(key@, msg@),
        r@.len() == 32,
{
    let mut mac =
        <Hmac<sha2::Sha256> as KeyInit>::new_from_slice(key).expect("any key length is accepted");
    mac.update(msg);
    mac.finalize().into_bytes().to_vec()
}

/// Relies on sha2's `Sha256::digest`: a 32-byte digest, deterministic in the
/// message.
#[verifier::external_body]
pub(crate) fn sha256(msg: &[u8]) -> (r: Vec<u8>)
    ensures
        r@ == spec_sha256(msg@),
        r@.len() == 32,
{
    sha2::Sha256::digest(msg).to_vec()
}

/// Relies on sha2's `Sha384::digest`: a 48-byte digest, deterministic in the
/// message.
#[verifier::external_body]
pub(crate) fn sha384(msg: &[u8]) -> (r: Vec<u8>)
    ensures
        r@ == spec_sha384(msg@),
        r@.len() == 48,
{
    sha2::Sha384::digest(msg).to_vec()
}

/// Relies on ctr's `Ctr128BE` over aes's `Aes128`: a stream cipher, so the
/// output is exactly as long as the input, and deterministic in key, counter
/// block and input. A 16-byte key and a 16-byte counter block are always
/// accepted.
#[verifier::external_body]
pub(crate) fn aes128_ctr(key: &[u8], iv: &[u8], data: &[u8]) -> (r: Vec<u8>)
    requires
        key@.len() == 16,
        iv@.len() == 16,
    ensures
        r@ == spec_aes128_ctr(key@, iv@, data@),
        r@.len() == data@.len(),
{
    let mut cipher = ctr::Ctr128BE::<aes::Aes128>::new_from_slices(key, iv)
        .expect("16-byte key and counter block are accepted");
    let mut buf = data.to_vec();
    cipher.apply_keystream(&mut buf);
    buf
}

/// Relies on p384's ECDSA: `VerifyingKey::from_sec1_bytes` and
/// `Signature::from_slice` parse deterministically and fail exactly on
/// malformed encodings, and `verify_prehash` deterministically decides
/// whether the signature covers the given digest.
#[verifier::external_body]
pub(crate) fn p384_verify(key_sec1: &[u8], digest: &[u8], sig: &[u8]) -> (r: Result<bool, Error>)
    ensures
        r is Ok <==> spec_p384_inputs_ok(key_sec1@, sig@),
        r matches Ok(valid) ==> valid == spec_p384_sig_valid(key_sec1@, digest@, sig@),
        r matches Err(e) ==> e == Error::Crypto,
{
    let vk = match p384::ecdsa::VerifyingKey::from_sec1_bytes(key_sec1) {
        Ok(vk) => vk,
        Err(_) => return Err(Error::Crypto),
    };
    let sg = match p384::ecdsa::Signature::from_slice(sig) {
        Ok(sg) => sg,
        Err(_) => return Err(Error::Crypto),
    };
    Ok(vk.verify_prehash(digest, &sg).is_ok())
}

/// Relies on rdrand's `RdRand`: fills the buffer with hardware random bytes
/// or reports failure. Nothing is assumed of the values that come back.
#[verifier::external_body]
pub(crate) fn random_16() -> (r: Result<[u8; 16], Error>)
    ensures
        r matches Err(e) ==> e == Error::Rng,
{
    let mut rng = match rdrand::RdRand::new() {
        Ok(rng) => rng,
        Err(_) => return Err(Error::Rng),
    };
    let mut buf = [0u8; 16];
    match rng.try_fill_bytes(&mut buf) {
        Ok(()) => Ok(buf),
        Err(_) => Err(Error::Rng),
    }
}

} // verus!
