//! The on-disk envelope: the magic header `VPENC1` (6 bytes), a 12-byte nonce,
//! then the ChaCha20-Poly1305 ciphertext with its 16-byte tag.

use crate::cipher::{chacha20poly1305_open, chacha20poly1305_seal};
use vstd::prelude::*;

verus! {

/// Length of the magic header.
pub const MAGIC_LEN: usize = 6;

/// Length of a ChaCha20-Poly1305 nonce (96 bits).
pub const NONCE_LEN: usize = 12;

/// The magic header `VPENC1` that marks an encrypted file (format version 1).
pub open spec fn magic() -> Seq<u8> {
    seq![0x56u8, 0x50u8, 0x45u8, 0x4eu8, 0x43u8, 0x31u8]
}

/// `data` begins with the magic header.
pub open spec fn has_magic(data: Seq<u8>) -> bool {
    data.len() >= MAGIC_LEN && data.take(MAGIC_LEN as int) == magic()
}

/// The magic header as bytes.
pub fn magic_bytes() -> (m: [u8; 6])
    ensures
        m@ == magic(),
{
    let m: [u8; 6] = [0x56u8, 0x50u8, 0x45u8, 0x4eu8, 0x43u8, 0x31u8];
    assert(m@ =~= magic());
    m
}

/// Whether `data` is in this module's encrypted format, that is, whether it
/// starts with the magic header.
pub fn is_encrypted(data: &[u8]) -> (r: bool)
    ensures
        r == has_magic(data@),
{
    let m = magic_bytes();
    if data.len() < MAGIC_LEN {
        return false;
    }
    let mut i: usize = 0;
    while i < MAGIC_LEN
        invariant
            i <= MAGIC_LEN,
            data@.len() >= MAGIC_LEN,
            m@ == magic(),
            forall|j: int| 0 <= j < i ==> data@[j] == magic()[j],
        decreases MAGIC_LEN - i,
    {
        if data[i] != m[i] {
            assert(data@.take(MAGIC_LEN as int)[i as int] != magic()[i as int]);
            return false;
        }
        i = i + 1;
    }
    assert(data@.take(MAGIC_LEN as int) =~= magic());
    true
}

/// Length of the header (magic and nonce) in front of the ciphertext.
pub const HEADER_LEN: usize = 18;

/// The envelope that holds `ciphertext` sealed under `nonce`.
pub open spec fn frame(nonce: Seq<u8>, ciphertext: Seq<u8>) -> Seq<u8> {
    magic() + nonce + ciphertext
}

/// The nonce that an envelope carries.
pub open spec fn frame_nonce(data: Seq<u8>) -> Seq<u8> {
    data.subrange(MAGIC_LEN as int, HEADER_LEN as int)
}

/// The ciphertext (with its tag) that an envelope carries.
pub open spec fn frame_body(data: Seq<u8>) -> Seq<u8> {
    data.skip(HEADER_LEN as int)
}

/// Why an envelope could not be opened.
pub enum FrameError {
    /// The data does not begin with the magic header.
    MissingHeader,
    /// The data ends before the nonce does.
    Truncated,
    /// The tag does not authenticate the ciphertext under the key and nonce.
    Rejected,
}

/// What opening `data` with `key` gives: the plaintext, or why it failed.
pub open spec fn open_frame(key: Seq<u8>, data: Seq<u8>) -> Result<Seq<u8>, FrameError> {
    if !has_magic(data) {
        Err(FrameError::MissingHeader)
    } else if data.len() < HEADER_LEN {
        Err(FrameError::Truncated)
    } else {
        match chacha20poly1305_open(key, frame_nonce(data), frame_body(data)) {
            Some(p) => Ok(p),
            None => Err(FrameError::Rejected),
        }
    }
}

/// `data` is an envelope of `plaintext` sealed with `key` under the nonce it
/// carries.
pub open spec fn sealed_under(key: Seq<u8>, plaintext: Seq<u8>, data: Seq<u8>) -> bool {
    &&& data.len() >= HEADER_LEN
    &&& frame_nonce(data).len() == NONCE_LEN
    &&& data == frame(frame_nonce(data), chacha20poly1305_seal(key, frame_nonce(data), plaintext))
}

} // verus!
