//! The calls into `chacha20poly1305` and `getrandom` that the envelope needs.
//! Nothing here is proved: each item states what the outside crate's source
//! shows of the call it makes.

use chacha20poly1305::aead::{Aead, KeyInit};
use chacha20poly1305::{ChaCha20Poly1305, Key, Nonce};
use vstd::prelude::*;

verus! {

/// What ChaCha20-Poly1305 encryption (no associated data) yields for a key, a
/// nonce and a plaintext: the ciphertext followed by the 16-byte tag.
pub uninterp spec fn chacha20poly1305_seal(key: Seq<u8>, nonce: Seq<u8>, plaintext: Seq<u8>) -> Seq<u8>;

/// What ChaCha20-Poly1305 decryption (no associated data) yields for a key, a
/// nonce and a ciphertext with its tag: the plaintext, or `None` when the tag
/// does not authenticate it.
pub uninterp spec fn chacha20poly1305_open(key: Seq<u8>, nonce: Seq<u8>, ciphertext: Seq<u8>) -> Option<Seq<u8>>;

/// Length of the Poly1305 authentication tag.
pub const TAG_LEN: usize = 16;

/// The cipher refuses buffers of `u32::MAX` 64-byte blocks or more.
pub open spec fn within_block_limit(len: nat) -> bool {
    len / 64 < u32::MAX as nat
}

/// Calls `Aead::encrypt` of `chacha20poly1305::ChaCha20Poly1305`, keyed with
/// `key`, on `plaintext` under `nonce`. Claimed of it: it fails exactly when the
/// plaintext reaches the cipher's block limit; otherwise the result is the named
/// ciphertext, 16 bytes longer than the plaintext, and decrypting it with the
/// same key and nonce gives the plaintext back (the stream cipher and the tag
/// are recomputed alike on both sides).
#[verifier::external_body]
pub(crate) fn seal(key: &[u8; 32], nonce: &[u8], plaintext: &[u8]) -> (r: Option<Vec<u8>>)
    requires
        nonce@.len() == 12,
        plaintext@.len() + 16 <= isize::MAX,
    ensures
        r is Some <==> within_block_limit(plaintext@.len()),
        r matches Some(ct) ==> ct@ == chacha20poly1305_seal(key@, nonce@, plaintext@),
        r matches Some(ct) ==> ct@.len() == plaintext@.len() + TAG_LEN,
        r matches Some(ct) ==> chacha20poly1305_open(key@, nonce@, ct@) == Some(plaintext@),
{
    let cipher = ChaCha20Poly1305::new(Key::from_slice(key));
    match cipher.encrypt(Nonce::from_slice(nonce), plaintext) {
        Ok(ct) => Some(ct),
        Err(_) => None,
    }
}

/// Calls `Aead::decrypt` of `chacha20poly1305::ChaCha20Poly1305`, keyed with
/// `key`, on `ciphertext` under `nonce`. Claimed of it: the result is the named
/// plaintext, a ciphertext shorter than the tag is refused, and a plaintext
/// comes back exactly a tag shorter than the ciphertext.
#[verifier::external_body]
pub(crate) fn open(key: &[u8; 32], nonce: &[u8], ciphertext: &[u8]) -> (r: Option<Vec<u8>>)
    requires
        nonce@.len() == 12,
    ensures
        r matches Some(p) ==> chacha20poly1305_open(key@, nonce@, ciphertext@) == Some(p@),
        r is None ==> chacha20poly1305_open(key@, nonce@, ciphertext@) is None,
        ciphertext@.len() < TAG_LEN ==> r is None,
        r matches Some(p) ==> ciphertext@.len() == p@.len() + TAG_LEN,
{
    let cipher = ChaCha20Poly1305::new(Key::from_slice(key));
    match cipher.decrypt(Nonce::from_slice(nonce), ciphertext) {
        Ok(p) => Some(p),
        Err(_) => None,
    }
}

/// Calls `getrandom::getrandom` to fill `dest` from the operating system's
/// random source. Claimed of it: the buffer keeps its length. Which bytes come
/// back, and whether the source fails, is left unsaid: it rests on the machine.
/// On failure the error's text is returned.
#[verifier::external_body]
pub(crate) fn fill_random(dest: &mut [u8]) -> (r: Result<(), String>)
    ensures
        final(dest)@.len() == old(dest)@.len(),
{
    match getrandom::getrandom(dest) {
        Ok(()) => Ok(()),
        Err(e) => Err(e.to_string()),
    }
}

} // verus!
