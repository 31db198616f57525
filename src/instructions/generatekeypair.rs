//! Fresh keypairs, handed out as base58 text and never kept.
use crate::codec::{base58_bytes, base58_text, encode_base58};
use crate::keys::public_key_of;
use crate::keys::new_keypair_bytes;
use crate::model::response::ApiResponse;
use vstd::prelude::*;

verus! {

/// A public key and its 64-byte keypair (secret then public key), both in
/// base58.
pub struct KeypairResponse {
    pub pubkey: String,
    pub secret: String,
}

/// `r` is the textual form of the 64 keypair bytes `bytes`, and each text
/// decodes back to its bytes.
pub open spec fn shows_keypair(r: KeypairResponse, bytes: Seq<u8>) -> bool {
    &&& r.pubkey@ == base58_text(bytes.subrange(32, 64))
    &&& r.secret@ == base58_text(bytes)
    &&& base58_bytes(r.pubkey@) == Some(bytes.subrange(32, 64))
    &&& base58_bytes(r.secret@) == Some(bytes)
}

/// 64 keypair bytes: a 32-byte secret, then the public key derived from it.
pub open spec fn is_keypair(bytes: Seq<u8>) -> bool {
    &&& bytes.len() == 64
    &&& bytes.subrange(32, 64) == public_key_of(bytes.subrange(0, 32))
}

/// The textual form of a keypair given as its secret then its public key.
pub fn keypair_response(bytes: &[u8; 64]) -> (r: KeypairResponse)
    ensures
        shows_keypair(r, bytes@),
{
    let mut public: [u8; 32] = [0u8; 32];
    let mut i: usize = 0;
    while i < 32
        invariant
            i <= 32,
            bytes@.len() == 64,
            public@.len() == 32,
            forall|j: int| 0 <= j < i ==> public@[j] == bytes@[j + 32],
        decreases 32 - i,
    {
        public[i] = bytes[i + 32];
        i = i + 1;
    }
    assert(public@ =~= bytes@.subrange(32, 64));
    KeypairResponse {
        pubkey: encode_base58(public.as_slice()),
        secret: encode_base58(bytes.as_slice()),
    }
}

/// A fresh random keypair; generation cannot fail. Whatever comes out, the
/// public key is the one derived from the first half of the secret.
pub fn generate_keypair() -> (r: ApiResponse<KeypairResponse>)
    ensures
        r.wf(),
        r.success,
        exists|bytes: Seq<u8>| is_keypair(bytes) && #[trigger] shows_keypair(r.data->0, bytes),
{
    let bytes = new_keypair_bytes();
    let r = ApiResponse::success(keypair_response(&bytes));
    assert(shows_keypair(r.data->0, bytes@));
    r
}

} // verus!
