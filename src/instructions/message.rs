//! Signing a message with an ed25519 secret, and checking a signature.
use crate::codec::{base58_bytes, base58_text, base64_bytes, base64_text, decode_base58, decode_base64, encode_base58, encode_base64};
use crate::keys::{
    check_public_key, derive_public_key, is_public_key, public_key_of, sign_bytes, signature_of,
    signature_verifies, to_array, verify_bytes,
};
use crate::model::response::ApiResponse;
use vstd::prelude::*;
use vstd::utf8::encode_utf8;

verus! {

/// A request to sign `message` with the base58 secret `secret`.
pub struct SignMessageRequest {
    pub message: String,
    pub secret: String,
}

/// A signature in base64, the signer's public key in base58, and the message.
pub struct SignMessageResponse {
    pub signature: String,
    pub public_key: String,
    pub message: String,
}

/// A request to check the base64 `signature` of `message` under the base58
/// public key `pubkey`.
pub struct VerifyMessageRequest {
    pub message: String,
    pub signature: String,
    pub pubkey: String,
}

/// Whether the signature checks out, with the message and key it was asked of.
pub struct VerifyMessageResponse {
    pub valid: bool,
    pub message: String,
    pub pubkey: String,
}

/// The base64 signature and the base58 public key that signing `message`
/// with `secret` gives, or the message of the first check that fails.
pub open spec fn sign_outcome(message: Seq<char>, secret: Seq<char>) -> Result<
    (Seq<char>, Seq<char>),
    Seq<char>,
> {
    match base58_bytes(secret) {
        None => Err("Invalid secret key encoding"@),
        Some(s) => if s.len() != 32 {
            Err("Invalid secret key length"@)
        } else {
            Ok(
                (
                    base64_text(signature_of(s, encode_utf8(message))),
                    base58_text(public_key_of(s)),
                ),
            )
        },
    }
}

/// Whether `signature` checks out for `message` under `pubkey`, or the
/// message of the first check that fails.
pub open spec fn verify_outcome(message: Seq<char>, signature: Seq<char>, pubkey: Seq<char>) -> Result<
    bool,
    Seq<char>,
> {
    match (base64_bytes(signature), base58_bytes(pubkey)) {
        (None, _) => Err("Invalid signature encoding"@),
        (Some(_), None) => Err("Invalid public key encoding"@),
        (Some(sig), Some(key)) => if key.len() != 32 {
            Err("Invalid public key length"@)
        } else if !is_public_key(key) {
            Err("Invalid public key"@)
        } else if sig.len() != 64 {
            Err("Invalid signature"@)
        } else {
            Ok(signature_verifies(key, encode_utf8(message), sig))
        },
    }
}

/// Signs the message. Whatever the message, the signature and public key
/// that come back check out under `verify_message`.
pub fn sign_message(req: SignMessageRequest) -> (r: ApiResponse<SignMessageResponse>)
    ensures
        match sign_outcome(req.message@, req.secret@) {
            Ok((signature, public_key)) => {
                &&& r.wf() && r.success
                &&& r.data->0.signature@ == signature
                &&& r.data->0.public_key@ == public_key
                &&& r.data->0.message@ == req.message@
            },
            Err(msg) => r.failed_with(msg),
        },
        r.success ==> verify_outcome(req.message@, r.data->0.signature@, r.data->0.public_key@)
            == Ok::<bool, Seq<char>>(true),
{
    let secret = match decode_base58(req.secret.as_str()) {
        Some(b) => b,
        None => return ApiResponse::error("Invalid secret key encoding"),
    };
    if secret.len() != 32 {
        return ApiResponse::error("Invalid secret key length");
    }
    let key: [u8; 32] = to_array(&secret);
    let public_key = derive_public_key(&key);
    let signature = sign_bytes(&key, req.message.as_str().as_bytes());
    let signature_b64 = encode_base64(signature.as_slice());
    let public_key_b58 = encode_base58(public_key.as_slice());
    ApiResponse::success(
        SignMessageResponse { signature: signature_b64, public_key: public_key_b58, message: req.message },
    )
}

/// Checks the signature. Well-formed inputs give a verdict, never an error.
pub fn verify_message(req: VerifyMessageRequest) -> (r: ApiResponse<VerifyMessageResponse>)
    ensures
        match verify_outcome(req.message@, req.signature@, req.pubkey@) {
            Ok(valid) => {
                &&& r.wf() && r.success
                &&& r.data->0.valid == valid
                &&& r.data->0.message@ == req.message@
                &&& r.data->0.pubkey@ == req.pubkey@
            },
            Err(msg) => r.failed_with(msg),
        },
{
    let signature = match decode_base64(req.signature.as_str()) {
        Some(b) => b,
        None => return ApiResponse::error("Invalid signature encoding"),
    };
    let pubkey = match decode_base58(req.pubkey.as_str()) {
        Some(b) => b,
        None => return ApiResponse::error("Invalid public key encoding"),
    };
    if pubkey.len() != 32 {
        return ApiResponse::error("Invalid public key length");
    }
    let key: [u8; 32] = to_array(&pubkey);
    if !check_public_key(&key) {
        return ApiResponse::error("Invalid public key");
    }
    if signature.len() != 64 {
        return ApiResponse::error("Invalid signature");
    }
    let sig: [u8; 64] = to_array(&signature);
    let valid = verify_bytes(&key, req.message.as_str().as_bytes(), &sig);
    ApiResponse::success(VerifyMessageResponse { valid, message: req.message, pubkey: req.pubkey })
}

/// Whether a check gives a verdict or an error does not depend on the
/// message: changing the message of a well-formed check still gives a
/// verdict.
pub proof fn lemma_verify_verdict_independent_of_message(
    message: Seq<char>,
    altered: Seq<char>,
    signature: Seq<char>,
    pubkey: Seq<char>,
)
    ensures
        verify_outcome(message, signature, pubkey) is Ok <==> verify_outcome(altered, signature, pubkey) is Ok,
{
}

} // verus!
