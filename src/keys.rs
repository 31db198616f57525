//! ed25519 keys and signatures, reached through `ed25519-dalek`, and fresh
//! keypairs, reached through `solana-sdk`.
use ed25519_dalek::{Signature, Signer, SigningKey, Verifier, VerifyingKey};
use vstd::prelude::*;

verus! {

/// The public key of a 32-byte ed25519 secret.
pub uninterp spec fn public_key_of(secret: Seq<u8>) -> Seq<u8>;

/// The ed25519 signature of a message under a 32-byte secret.
pub uninterp spec fn signature_of(secret: Seq<u8>, message: Seq<u8>) -> Seq<u8>;

/// Whether 32 bytes are the compressed form of a curve point, that is, a
/// usable public key.
pub uninterp spec fn is_public_key(key: Seq<u8>) -> bool;

/// Whether a 64-byte signature of a message checks out under a public key.
pub uninterp spec fn signature_verifies(key: Seq<u8>, message: Seq<u8>, signature: Seq<u8>) -> bool;

/// Relies on `SigningKey::from_bytes(..).verifying_key().to_bytes()`: the
/// public key depends on the secret alone and is the compressed form of a
/// curve point.
#[verifier::external_body]
pub(crate) fn derive_public_key(secret: &[u8; 32]) -> (r: [u8; 32])
    ensures
        r@ == public_key_of(secret@),
        is_public_key(r@),
{
    SigningKey::from_bytes(secret).verifying_key().to_bytes()
}

/// Relies on `Signer::sign` of `ed25519_dalek::SigningKey`: signing is
/// deterministic, and the signature checks out under the secret's public key.
#[verifier::external_body]
pub(crate) fn sign_bytes(secret: &[u8; 32], message: &[u8]) -> (r: [u8; 64])
    ensures
        r@ == signature_of(secret@, message@),
        signature_verifies(public_key_of(secret@), message@, r@),
{
    SigningKey::from_bytes(secret).sign(message).to_bytes()
}

/// Relies on `VerifyingKey::from_bytes`, which accepts exactly the
/// compressed forms of curve points.
#[verifier::external_body]
pub(crate) fn check_public_key(key: &[u8; 32]) -> (r: bool)
    ensures
        r == is_public_key(key@),
{
    VerifyingKey::from_bytes(key).is_ok()
}

/// Relies on `Verifier::verify` of `ed25519_dalek::VerifyingKey`, with the
/// key from `VerifyingKey::from_bytes`, which accepts it, and the signature
/// from `Signature::from_bytes`.
#[verifier::external_body]
pub(crate) fn verify_bytes(key: &[u8; 32], message: &[u8], signature: &[u8; 64]) -> (r: bool)
    requires
        is_public_key(key@),
    ensures
        r == signature_verifies(key@, message@, signature@),
{
    match VerifyingKey::from_bytes(key) {
        Ok(k) => k.verify(message, &Signature::from_bytes(signature)).is_ok(),
        Err(_) => false,
    }
}

/// Relies on `solana_sdk::signature::Keypair::new` and `to_bytes`: a fresh
/// random keypair as 64 bytes, the secret then the public key derived from
/// it.
#[verifier::external_body]
pub(crate) fn new_keypair_bytes() -> (r: [u8; 64])
    ensures
        r@.subrange(32, 64) == public_key_of(r@.subrange(0, 32)),
{
    solana_sdk::signature::Keypair::new().to_bytes()
}

/// The first `N` bytes of `v`, as an array.
pub fn to_array<const N: usize>(v: &Vec<u8>) -> (r: [u8; N])
    requires
        v@.len() == N,
    ensures
        r@ == v@,
{
    let mut r: [u8; N] = [0u8; N];
    let mut i: usize = 0;
    while i < N
        invariant
            i <= N,
            v@.len() == N,
            r@.len() == N,
            forall|j: int| 0 <= j < i ==> r@[j] == v@[j],
        decreases N - i,
    {
        r[i] = v[i];
        i = i + 1;
    }
    assert(r@ =~= v@);
    r
}

} // verus!
