//! Ed25519 keys and signatures, as `ed25519-dalek` computes them.
//!
//! Keys and signatures are held as plain bytes: a 32-byte seed, a 32-byte
//! public key, a 64-byte signature.

use ed25519_dalek::{Signer, Verifier};
use vstd::prelude::*;

verus! {

/// Length of a signing key's seed and of a public key, in bytes.
pub const KEY_LENGTH: usize = 32;

/// Length of a signature, in bytes.
pub const SIGNATURE_LENGTH: usize = 64;

/// The public key that `SigningKey::from_bytes(seed).verifying_key()` holds.
pub uninterp spec fn public_key_of(seed: Seq<u8>) -> Seq<u8>;

/// The signature that `SigningKey::from_bytes(seed).sign(message)` returns.
pub uninterp spec fn signature_of(seed: Seq<u8>, message: Seq<u8>) -> Seq<u8>;

/// Whether `VerifyingKey::from_bytes` accepts `key` as a public key.
pub uninterp spec fn is_public_key(key: Seq<u8>) -> bool;

/// Whether the public key `key` accepts `signature` for `message` in
/// `VerifyingKey::verify`.
pub uninterp spec fn accepts(key: Seq<u8>, message: Seq<u8>, signature: Seq<u8>) -> bool;

/// `SigningKey::generate` with the operating system's random source: the
/// seed of a fresh signing key. Nothing is claimed of it but its length.
#[verifier::external_body]
pub(crate) fn generate_seed() -> (seed: Vec<u8>)
    ensures
        seed@.len() == KEY_LENGTH,
{
    ed25519_dalek::SigningKey::generate(&mut rand_core::OsRng).to_bytes().to_vec()
}

/// `SigningKey::verifying_key`: the public key that belongs to `seed`. It
/// is a key that `VerifyingKey::from_bytes` accepts.
#[verifier::external_body]
pub(crate) fn derive_public_key(seed: &[u8]) -> (key: Vec<u8>)
    requires
        seed@.len() == KEY_LENGTH,
    ensures
        key@ == public_key_of(seed@),
        key@.len() == KEY_LENGTH,
        is_public_key(key@),
{
    let seed: [u8; 32] = seed.try_into().unwrap();
    ed25519_dalek::SigningKey::from_bytes(&seed).verifying_key().to_bytes().to_vec()
}

/// `Signer::sign` of a signing key: the signature of `message` under
/// `seed`. The key that belongs to the seed accepts it.
#[verifier::external_body]
pub(crate) fn sign(seed: &[u8], message: &[u8]) -> (signature: Vec<u8>)
    requires
        seed@.len() == KEY_LENGTH,
    ensures
        signature@ == signature_of(seed@, message@),
        signature@.len() == SIGNATURE_LENGTH,
        accepts(public_key_of(seed@), message@, signature@),
{
    let seed: [u8; 32] = seed.try_into().unwrap();
    ed25519_dalek::SigningKey::from_bytes(&seed).sign(message).to_bytes().to_vec()
}

/// `VerifyingKey::from_bytes`: whether `key` is the encoding of a public
/// key.
#[verifier::external_body]
pub(crate) fn check_public_key(key: &[u8]) -> (ok: bool)
    requires
        key@.len() == KEY_LENGTH,
    ensures
        ok == is_public_key(key@),
{
    let key: [u8; 32] = key.try_into().unwrap();
    ed25519_dalek::VerifyingKey::from_bytes(&key).is_ok()
}

/// `Verifier::verify` of a verifying key: whether `key` is a public key
/// and accepts `signature` for `message`.
#[verifier::external_body]
pub(crate) fn verify(key: &[u8], message: &[u8], signature: &[u8]) -> (ok: bool)
    requires
        key@.len() == KEY_LENGTH,
        signature@.len() == SIGNATURE_LENGTH,
    ensures
        ok == (is_public_key(key@) && accepts(key@, message@, signature@)),
{
    let key: [u8; 32] = key.try_into().unwrap();
    let signature: [u8; 64] = signature.try_into().unwrap();
    match ed25519_dalek::VerifyingKey::from_bytes(&key) {
        Ok(k) => k.verify(message, &ed25519_dalek::Signature::from_bytes(&signature)).is_ok(),
        Err(_) => false,
    }
}

} // verus!
