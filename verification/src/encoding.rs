//! The text form in which the master key is kept in the keychain: standard
//! base64 (with padding) of the 32 key bytes, read back after trimming
//! surrounding whitespace.

use crate::secure_store::{message, with_detail};
use base64::Engine;
use vstd::prelude::*;

verus! {

/// The standard base64 text (alphabet `A-Z a-z 0-9 + /`, `=` padding) of `bytes`.
pub uninterp spec fn base64_standard_encode(bytes: Seq<u8>) -> Seq<char>;

/// The bytes that standard base64 (canonical padding required) decodes `text`
/// to, or `None` when `text` is not valid standard base64.
pub uninterp spec fn base64_standard_decode(text: Seq<char>) -> Option<Seq<u8>>;

/// A character of the standard base64 alphabet, or the padding `=`.
pub open spec fn is_base64_char(c: char) -> bool {
    ||| 'A' <= c <= 'Z'
    ||| 'a' <= c <= 'z'
    ||| '0' <= c <= '9'
    ||| c == '+'
    ||| c == '/'
    ||| c == '='
}

/// A character with the Unicode `White_Space` property.
pub open spec fn is_unicode_whitespace(c: char) -> bool {
    let u = c as u32;
    ||| 0x09 <= u <= 0x0d
    ||| u == 0x20
    ||| u == 0x85
    ||| u == 0xa0
    ||| u == 0x1680
    ||| 0x2000 <= u <= 0x200a
    ||| u == 0x2028
    ||| u == 0x2029
    ||| u == 0x202f
    ||| u == 0x205f
    ||| u == 0x3000
}

/// `s` without its leading whitespace.
pub open spec fn trim_start(s: Seq<char>) -> Seq<char>
    decreases s.len(),
{
    if s.len() > 0 && is_unicode_whitespace(s[0]) {
        trim_start(s.drop_first())
    } else {
        s
    }
}

/// `s` without its trailing whitespace.
pub open spec fn trim_end(s: Seq<char>) -> Seq<char>
    decreases s.len(),
{
    if s.len() > 0 && is_unicode_whitespace(s.last()) {
        trim_end(s.drop_last())
    } else {
        s
    }
}

/// `s` without its leading and trailing whitespace.
pub open spec fn trimmed(s: Seq<char>) -> Seq<char> {
    trim_end(trim_start(s))
}

/// Calls `str::trim`. Claimed of it, as its documentation says: the result is
/// the text without leading and trailing characters of the Unicode
/// `White_Space` property.
#[verifier::external_body]
fn trim_whitespace<'a>(s: &'a str) -> (r: &'a str)
    ensures
        r@ == trimmed(s@),
{
    s.trim()
}

/// Calls `Engine::encode` of `base64::engine::general_purpose::STANDARD`.
/// Claimed of it: the result is the named encoding, it is made of alphabet and
/// padding characters only, and decoding it with the same engine gives the
/// bytes back.
#[verifier::external_body]
fn base64_encode(bytes: &[u8]) -> (r: String)
    requires
        bytes@.len() <= usize::MAX / 2,
    ensures
        r@ == base64_standard_encode(bytes@),
        forall|i: int| 0 <= i < r@.len() ==> is_base64_char(#[trigger] r@[i]),
        base64_standard_decode(r@) == Some(bytes@),
{
    base64::engine::general_purpose::STANDARD.encode(bytes)
}

/// Calls `Engine::decode` of `base64::engine::general_purpose::STANDARD` on the
/// text's bytes. Claimed of it: the result is the named decoding; on failure
/// the error's text is returned.
#[verifier::external_body]
fn base64_decode(text: &str) -> (r: Result<Vec<u8>, String>)
    ensures
        r matches Ok(v) ==> base64_standard_decode(text@) == Some(v@),
        r is Err ==> base64_standard_decode(text@) is None,
{
    match base64::engine::general_purpose::STANDARD.decode(text) {
        Ok(v) => Ok(v),
        Err(e) => Err(e.to_string()),
    }
}

/// Why a stored key text was refused.
pub enum KeyTextError {
    /// The trimmed text is not valid base64.
    Undecodable,
    /// It decodes, but not to 32 bytes.
    WrongLength,
}

/// What reading a stored key text gives: the key, or why it was refused.
pub open spec fn key_from_text(text: Seq<char>) -> Result<Seq<u8>, KeyTextError> {
    match base64_standard_decode(trimmed(text)) {
        None => Err(KeyTextError::Undecodable),
        Some(b) => if b.len() == 32 {
            Ok(b)
        } else {
            Err(KeyTextError::WrongLength)
        },
    }
}

/// A text without leading or trailing whitespace is its own trim.
proof fn lemma_trimmed_without_whitespace(s: Seq<char>)
    requires
        forall|i: int| 0 <= i < s.len() ==> !is_unicode_whitespace(#[trigger] s[i]),
    ensures
        trimmed(s) == s,
{
    assert(trim_start(s) == s);
}

/// Reads a master key from its stored text: trims it, decodes it as standard
/// base64, and requires 32 bytes.
pub fn decode_master_key(text: &str) -> (r: Result<[u8; 32], String>)
    ensures
        match key_from_text(text@) {
            Ok(k) => r matches Ok(key) && key@ == k,
            Err(KeyTextError::Undecodable) => r matches Err(e) && "マスターキーのデコードに失敗: "@.is_prefix_of(e@),
            Err(KeyTextError::WrongLength) => r matches Err(e) && e@ == "マスターキーの長さが不正（32バイトではない）"@,
        },
{
    let t = trim_whitespace(text);
    let bytes = match base64_decode(t) {
        Ok(b) => b,
        Err(detail) => {
            let e = with_detail("マスターキーのデコードに失敗: ", &detail);
            proof {
                assert("マスターキーのデコードに失敗: "@ == e@.subrange(0, "マスターキーのデコードに失敗: "@.len() as int));
            }
            return Err(e);
        },
    };
    if bytes.len() != 32 {
        return Err(message("マスターキーの長さが不正（32バイトではない）"));
    }
    let mut key = [0u8; 32];
    let mut i: usize = 0;
    while i < 32
        invariant
            i <= 32,
            bytes@.len() == 32,
            key@.len() == 32,
            forall|j: int| 0 <= j < i ==> key@[j] == bytes@[j],
        decreases 32 - i,
    {
        key[i] = bytes[i];
        i = i + 1;
    }
    assert(key@ =~= bytes@);
    Ok(key)
}

/// The text in which a master key is stored: its standard base64. Reading it
/// back with [`decode_master_key`] gives the same key.
pub fn encode_master_key(key: &[u8; 32]) -> (s: String)
    ensures
        s@ == base64_standard_encode(key@),
        key_from_text(s@) == Ok::<Seq<u8>, KeyTextError>(key@),
{
    let s = base64_encode(key);
    proof {
        assert forall|i: int| 0 <= i < s@.len() implies !is_unicode_whitespace(#[trigger] s@[i]) by {
            assert(is_base64_char(s@[i]));
        }
        lemma_trimmed_without_whitespace(s@);
    }
    s
}

} // verus!
