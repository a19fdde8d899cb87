//! AES-256-GCM and the random source, as the frame codec sees them.

use vstd::prelude::*;
use aead::{generic_array::GenericArray, Aead, NewAead};
use aes_gcm::Aes256Gcm;

verus! {

/// Length of an AES-256 key in bytes.
pub const KEY_LEN: usize = 32;

/// Length of a GCM nonce in bytes.
pub const NONCE_LEN: usize = 12;

/// Length of a GCM authentication tag in bytes.
pub const TAG_LEN: usize = 16;

/// The largest plaintext that AES-GCM accepts, in bytes.
pub const AEAD_MAX_PLAINTEXT: u64 = 0x10_0000_0000;

/// The ciphertext followed by its tag that AES-256-GCM computes from a key, a
/// nonce and a plaintext, with no associated data.
pub uninterp spec fn aes_gcm_sealed(key: Seq<u8>, nonce: Seq<u8>, plaintext: Seq<u8>) -> Seq<u8>;

/// What AES-256-GCM recovers from a key, a nonce and a ciphertext followed by
/// its tag, with no associated data: the plaintext, or nothing where the tag
/// does not authenticate.
pub uninterp spec fn aes_gcm_opened(key: Seq<u8>, nonce: Seq<u8>, body: Seq<u8>) -> Option<Seq<u8>>;

#[verifier::external_type_specification]
#[verifier::external_body]
pub struct ExAeadError(aead::Error);

/// Relies on `Aes256Gcm::new` (key setup) and `aead::Aead::encrypt`: the
/// ciphertext has the plaintext's length and is followed by a 16-byte tag;
/// it fails only for a plaintext over the GCM limit; what it returns opens
/// again under the same key and nonce.
#[verifier::external_body]
pub(crate) fn aes_gcm_encrypt(key: &[u8], nonce: &[u8], plaintext: &[u8]) -> (r: Result<Vec<u8>, aead::Error>)
    requires
        key@.len() == KEY_LEN,
        nonce@.len() == NONCE_LEN,
    ensures
        r is Ok <==> plaintext@.len() <= AEAD_MAX_PLAINTEXT,
        r is Ok ==> r->Ok_0@ == aes_gcm_sealed(key@, nonce@, plaintext@),
        r is Ok ==> r->Ok_0@.len() == plaintext@.len() + TAG_LEN,
        r is Ok ==> aes_gcm_opened(key@, nonce@, r->Ok_0@) == Some(plaintext@),
{
    let cipher = Aes256Gcm::new(GenericArray::from_slice(key));
    cipher.encrypt(GenericArray::from_slice(nonce), plaintext)
}

/// Relies on `Aes256Gcm::new` (key setup) and `aead::Aead::decrypt`: it
/// returns what AES-GCM opens, fails on a body shorter than a tag, and the
/// plaintext is the body without its tag.
#[verifier::external_body]
pub(crate) fn aes_gcm_decrypt(key: &[u8], nonce: &[u8], body: &[u8]) -> (r: Result<Vec<u8>, aead::Error>)
    requires
        key@.len() == KEY_LEN,
        nonce@.len() == NONCE_LEN,
    ensures
        match r {
            Ok(p) => aes_gcm_opened(key@, nonce@, body@) == Some(p@),
            Err(_) => aes_gcm_opened(key@, nonce@, body@) is None,
        },
        body@.len() < TAG_LEN ==> r is Err,
        r is Ok ==> r->Ok_0@.len() + TAG_LEN == body@.len(),
{
    let cipher = Aes256Gcm::new(GenericArray::from_slice(key));
    cipher.decrypt(GenericArray::from_slice(nonce), body)
}

/// Relies on `rand::random`: twelve bytes from the thread-local
/// cryptographically secure generator. Nothing is known of their values.
#[verifier::external_body]
pub(crate) fn random_nonce() -> (r: Vec<u8>)
    ensures
        r@.len() == NONCE_LEN,
{
    rand::random::<[u8; 12]>().to_vec()
}

/// Relies on `safemem::prepend`: `elems` is placed in front of what `v` held.
#[verifier::external_body]
pub(crate) fn prepend_bytes(elems: &[u8], v: &mut Vec<u8>)
    requires
        elems@.len() + old(v)@.len() <= usize::MAX,
    ensures
        final(v)@ == elems@ + old(v)@,
{
    safemem::prepend(elems, v)
}

} // verus!
