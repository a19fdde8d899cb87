//! The frame codec: one chunk of plaintext in, one wire chunk out, and back.
//!
//! A wire chunk is a 12-byte nonce followed by the AES-256-GCM ciphertext of
//! the chunk and its 16-byte tag.

use vstd::prelude::*;
use vstd::slice::slice_subrange;
use crate::cipher::{
    aes_gcm_decrypt, aes_gcm_encrypt, aes_gcm_opened, aes_gcm_sealed, prepend_bytes, random_nonce,
    AEAD_MAX_PLAINTEXT, KEY_LEN, NONCE_LEN, TAG_LEN,
};
use crate::key::Key;

verus! {

/// Bytes that sealing adds to a chunk: the nonce and the tag.
pub const FRAME_OVERHEAD: usize = 28;

/// Why a wire chunk was not accepted.
#[derive(Debug, Clone, Copy, PartialEq, Eq, Structural)]
pub enum UnsealError {
    /// Shorter than a nonce.
    Malformed,
    /// The tag does not authenticate the chunk under the key.
    Authentication,
}

/// The nonce at the front of a wire chunk.
pub open spec fn frame_nonce(wire: Seq<u8>) -> Seq<u8> {
    wire.subrange(0, NONCE_LEN as int)
}

/// What follows the nonce in a wire chunk: ciphertext and tag.
pub open spec fn frame_body(wire: Seq<u8>) -> Seq<u8> {
    wire.subrange(NONCE_LEN as int, wire.len() as int)
}

/// The wire chunk that seals `plaintext` under `key` with `nonce`.
pub open spec fn sealed_frame(key: Seq<u8>, nonce: Seq<u8>, plaintext: Seq<u8>) -> Seq<u8> {
    nonce + aes_gcm_sealed(key, nonce, plaintext)
}

/// What unsealing `wire` under `key` gives.
pub open spec fn unsealed(key: Seq<u8>, wire: Seq<u8>) -> Result<Seq<u8>, UnsealError> {
    if wire.len() < NONCE_LEN {
        Err(UnsealError::Malformed)
    } else {
        match aes_gcm_opened(key, frame_nonce(wire), frame_body(wire)) {
            Some(p) => Ok(p),
            None => Err(UnsealError::Authentication),
        }
    }
}

/// `wire` is a chunk that sealing `plaintext` under `key` may produce: a
/// nonce, then the sealing of the plaintext under that nonce, which opens
/// again to the plaintext.
pub open spec fn is_sealing_of(key: Seq<u8>, plaintext: Seq<u8>, wire: Seq<u8>) -> bool {
    &&& wire.len() == plaintext.len() + FRAME_OVERHEAD
    &&& wire == sealed_frame(key, frame_nonce(wire), plaintext)
    &&& aes_gcm_opened(key, frame_nonce(wire), frame_body(wire)) == Some(plaintext)
}

/// Seals `plaintext` under `key` with the given `nonce`. A plaintext over
/// the AES-GCM limit gives an empty result.
pub fn seal_with_nonce(plaintext: &[u8], key: &Key, nonce: &[u8]) -> (r: Vec<u8>)
    requires
        nonce@.len() == NONCE_LEN,
        plaintext@.len() + FRAME_OVERHEAD <= usize::MAX,
    ensures
        plaintext@.len() <= AEAD_MAX_PLAINTEXT ==> r@ == sealed_frame(key@, nonce@, plaintext@),
        plaintext@.len() <= AEAD_MAX_PLAINTEXT ==> is_sealing_of(key@, plaintext@, r@),
        plaintext@.len() > AEAD_MAX_PLAINTEXT ==> r@.len() == 0,
{
    match aes_gcm_encrypt(key.as_bytes(), nonce, plaintext) {
        Ok(mut ciphertext) => {
            prepend_bytes(nonce, &mut ciphertext);
            proof {
                let w = ciphertext@;
                assert(frame_nonce(w) =~= nonce@);
                assert(frame_body(w) =~= aes_gcm_sealed(key@, nonce@, plaintext@));
            }
            ciphertext
        },
        Err(_) => Vec::new(),
    }
}

/// Seals `plaintext` under `key` with a fresh random nonce. A plaintext
/// over the AES-GCM limit gives an empty result.
pub fn seal(plaintext: &[u8], key: &Key) -> (r: Vec<u8>)
    requires
        plaintext@.len() + FRAME_OVERHEAD <= usize::MAX,
    ensures
        plaintext@.len() <= AEAD_MAX_PLAINTEXT ==> is_sealing_of(key@, plaintext@, r@),
        plaintext@.len() > AEAD_MAX_PLAINTEXT ==> r@.len() == 0,
{
    let nonce = random_nonce();
    seal_with_nonce(plaintext, key, nonce.as_slice())
}

/// Unseals one wire chunk under `key`.
pub fn unseal(wire: &[u8], key: &Key) -> (r: Result<Vec<u8>, UnsealError>)
    ensures
        match r {
            Ok(p) => unsealed(key@, wire@) == Ok::<Seq<u8>, UnsealError>(p@),
            Err(e) => unsealed(key@, wire@) == Err::<Seq<u8>, UnsealError>(e),
        },
        wire@.len() < FRAME_OVERHEAD ==> r is Err,
        r is Ok ==> r->Ok_0@.len() + FRAME_OVERHEAD == wire@.len(),
{
    if wire.len() < NONCE_LEN {
        return Err(UnsealError::Malformed);
    }
    let nonce = slice_subrange(wire, 0, NONCE_LEN);
    let body = slice_subrange(wire, NONCE_LEN, wire.len());
    match aes_gcm_decrypt(key.as_bytes(), nonce, body) {
        Ok(p) => Ok(p),
        Err(_) => Err(UnsealError::Authentication),
    }
}

/// Unsealing a chunk that `seal` produced, under the same key, gives back
/// the plaintext.
pub proof fn lemma_round_trip(key: Seq<u8>, plaintext: Seq<u8>, wire: Seq<u8>)
    requires
        key.len() == KEY_LEN,
        0 < plaintext.len() <= crate::relay::MAX_CHUNK,
        is_sealing_of(key, plaintext, wire),
    ensures
        unsealed(key, wire) == Ok::<Seq<u8>, UnsealError>(plaintext),
{
}

/// A sealed chunk is 28 bytes longer than its plaintext.
pub proof fn lemma_frame_length(key: Seq<u8>, plaintext: Seq<u8>, wire: Seq<u8>)
    requires
        key.len() == KEY_LEN,
        is_sealing_of(key, plaintext, wire),
    ensures
        wire.len() == plaintext.len() + FRAME_OVERHEAD,
        frame_nonce(wire).len() == NONCE_LEN,
        frame_body(wire).len() == plaintext.len() + TAG_LEN,
{
}

/// A chunk shorter than a nonce is rejected as malformed, whatever the key.
pub proof fn lemma_short_chunk_rejected(key: Seq<u8>, wire: Seq<u8>)
    requires
        wire.len() < NONCE_LEN,
    ensures
        unsealed(key, wire) == Err::<Seq<u8>, UnsealError>(UnsealError::Malformed),
{
}

} // verus!
