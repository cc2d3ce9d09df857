//! Ed25519 through the `signatory` crate, and fresh seeds from `rand`.
use vstd::prelude::*;

use rand::Rng;
use signatory::signature::{Signer, Verifier};

verus! {

/// The public key that `signatory` derives from a 32-byte seed.
pub uninterp spec fn ed25519_public_key_of(seed: Seq<u8>) -> Seq<u8>;

/// Whether `signatory` accepts 32 bytes as a public key (a compressed point
/// of the curve).
pub uninterp spec fn ed25519_valid_public_key(key: Seq<u8>) -> bool;

/// The signature that `signatory` makes of a message with a seed.
pub uninterp spec fn ed25519_signature_of(seed: Seq<u8>, message: Seq<u8>) -> Seq<u8>;

/// Whether `signatory` accepts a signature of a message under a public key.
pub uninterp spec fn ed25519_accepts(key: Seq<u8>, message: Seq<u8>, signature: Seq<u8>) -> bool;

/// Calls `rand::thread_rng().gen::<[u8; 32]>()`: 32 random bytes.
///
/// Nothing is stated of the bytes: they come from the operating system's
/// randomness.
#[verifier::external_body]
pub(crate) fn create_seed() -> (seed: [u8; 32]) {
    rand::thread_rng().gen::<[u8; 32]>()
}

/// Calls `signatory::ed25519::SigningKey::from_bytes` and `verifying_key`:
/// the public key of a seed.
///
/// Trusted: the result is the named public key of the seed, and `signatory`
/// accepts it as a public key (it is the compression of a curve point).
/// `from_bytes` fails only on a slice whose length is not 32.
#[verifier::external_body]
pub(crate) fn pk_from_seed(seed: &[u8; 32]) -> (key: [u8; 32])
    ensures
        key@ == ed25519_public_key_of(seed@),
        ed25519_valid_public_key(key@),
{
    signatory::ed25519::SigningKey::from_bytes(seed).expect("a 32-byte seed").verifying_key().to_bytes()
}

/// Calls `signatory::ed25519::SigningKey::from_bytes` and `sign`: the
/// signature of `message` with `seed`.
///
/// Trusted: the result is the named signature, and verifying it under the
/// public key of the seed succeeds (Ed25519 signatures made with a key
/// verify under its public key).
#[verifier::external_body]
pub(crate) fn sign_with_seed(seed: &[u8; 32], message: &[u8]) -> (signature: [u8; 64])
    ensures
        signature@ == ed25519_signature_of(seed@, message@),
        ed25519_accepts(ed25519_public_key_of(seed@), message@, signature@),
{
    let key = signatory::ed25519::SigningKey::from_bytes(seed).expect("a 32-byte seed");
    let signature: signatory::ed25519::Signature = key.sign(message);
    signature.to_bytes()
}

/// Calls `signatory::ed25519::VerifyingKey::from_bytes`: the bytes of a
/// public key, where `signatory` accepts them as one.
///
/// Trusted: the call succeeds exactly on 32 bytes that form a valid key, and
/// the key keeps the bytes it was made from.
#[verifier::external_body]
pub(crate) fn public_key_from_bytes(bytes: &[u8]) -> (key: Option<[u8; 32]>)
    ensures
        key is Some <==> (bytes@.len() == 32 && ed25519_valid_public_key(bytes@)),
        key matches Some(k) ==> k@ == bytes@,
{
    match signatory::ed25519::VerifyingKey::from_bytes(bytes) {
        Ok(k) => Some(k.to_bytes()),
        Err(_) => None,
    }
}

/// Calls `signatory::ed25519::VerifyingKey::from_bytes` and `verify`.
///
/// Trusted: the result is whether `signatory` accepts the signature of the
/// message under the key (a key it does not accept accepts nothing).
#[verifier::external_body]
pub(crate) fn verify_with_key(key: &[u8; 32], message: &[u8], signature: &[u8; 64]) -> (accepted: bool)
    ensures
        accepted == ed25519_accepts(key@, message@, signature@),
{
    match signatory::ed25519::VerifyingKey::from_bytes(key) {
        Ok(k) => k.verify(message, &signatory::ed25519::Signature::from_bytes(signature)).is_ok(),
        Err(_) => false,
    }
}

} // verus!
