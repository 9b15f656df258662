//! The cookie file: a cookie store in the `cookie_store` crate's JSON-lines
//! format, stored encrypted. Reading decodes the bytes (decrypted, or taken as
//! plaintext from before encryption existed) and loads them.

use crate::cipher::TAG_LEN;
use crate::envelope::{has_magic, open_frame, FrameError};
use crate::secure_store::{
    decode_or_migrate, decode_or_migrate_outcome, decode_outcome, encrypt_bytes, encrypt_bytes_outcome,
    encrypt_outcome, message, provider_answer, uninitialized_text, with_detail, KeyProvider,
    ProviderSlot,
};
use reqwest_cookie_store::CookieStore;
use std::io::Cursor;
use vstd::prelude::*;

verus! {

/// A cookie store of the `cookie_store` crate (re-exported by
/// `reqwest_cookie_store`).
#[verifier::external_type_specification]
#[verifier::external_body]
pub struct ExCookieStore(CookieStore);

/// Whether `CookieStore::load_json` accepts `json`: every line is valid UTF-8
/// and parses as a cookie.
pub uninterp spec fn cookie_json_loads(json: Seq<u8>) -> bool;

/// Calls `CookieStore::load_json` on `json`. Claimed of it: it succeeds exactly
/// when the named test accepts the bytes (a failure comes only from reading a
/// line or parsing a cookie). Nothing is claimed of the store that comes back:
/// loading drops cookies that have expired, so it rests on the clock. On
/// failure the error's text is returned.
#[verifier::external_body]
#[allow(deprecated)]
fn cookie_store_from_json(json: &[u8]) -> (r: Result<CookieStore, String>)
    ensures
        r is Ok <==> cookie_json_loads(json@),
{
    match CookieStore::load_json(Cursor::new(json)) {
        Ok(store) => Ok(store),
        Err(e) => Err(e.to_string()),
    }
}

/// `store` is what `CookieStore::load_json` gave for `content`: some call of
/// the loader on those bytes returned it.
pub closed spec fn cookies_loaded_from(content: Seq<u8>, store: CookieStore) -> bool {
    exists|json: &[u8]|
        json@ == content && #[trigger] call_ensures(cookie_store_from_json, (json,), Ok::<CookieStore, String>(store))
}

/// `json` is what `CookieStore::save_json` wrote for `store`: some call of the
/// serialiser on that store returned it.
pub closed spec fn cookies_saved_as(store: CookieStore, json: Seq<u8>) -> bool {
    exists|out: Vec<u8>|
        out@ == json && #[trigger] call_ensures(cookie_store_to_json, (&store,), Ok::<Vec<u8>, String>(out))
}

/// What [`cookies_from_file`] may return for a file's raw bytes, given what
/// [`decode_or_migrate`] returned for them: its error passed on unchanged; a
/// store loaded from the decoded content, with the same plaintext flag, when
/// the loader accepts that content; otherwise the loader's failure, prefixed.
pub open spec fn cookies_outcome(decoded: Result<(Vec<u8>, bool), String>, r: Result<(CookieStore, bool), String>) -> bool {
    match decoded {
        Err(e) => r == Err::<(CookieStore, bool), String>(e),
        Ok((content, was_plaintext)) => if cookie_json_loads(content@) {
            r matches Ok((_, flag)) && flag == was_plaintext
        } else {
            r matches Err(e) && "Failed to load cookies: "@.is_prefix_of(e@)
        },
    }
}

/// Loads the cookie store from a cookie file's raw bytes, decrypting them with
/// the installed provider's key when they carry the magic header. Returns the
/// store and whether the file was plaintext (to be saved again encrypted).
pub fn cookies_from_file<P: KeyProvider>(slot: &ProviderSlot<P>, raw: &[u8]) -> (r: Result<(CookieStore, bool), String>)
    ensures
        r matches Ok((_, was_plaintext)) ==> was_plaintext == !has_magic(raw@),
        has_magic(raw@) && slot@ is None ==> (r matches Err(e) && e@ == uninitialized_text()),
        exists|decoded: Result<(Vec<u8>, bool), String>| #[trigger] decode_or_migrate_outcome(*slot, raw@, decoded)
            && cookies_outcome(decoded, r),
        r matches Ok((store, was_plaintext)) ==> exists|content: Vec<u8>|
            #[trigger] decode_or_migrate_outcome(*slot, raw@, Ok::<(Vec<u8>, bool), String>((content, was_plaintext)))
            && cookies_loaded_from(content@, store),
{
    let decoded = decode_or_migrate(slot, raw);
    let ghost outcome = decoded;
    match decoded {
        Err(e) => Err(e),
        Ok((json, was_plaintext)) => {
            let bytes = json.as_slice();
            let loaded = cookie_store_from_json(bytes);
            match loaded {
                Ok(store) => {
                    assert(call_ensures(cookie_store_from_json, (bytes,), Ok::<CookieStore, String>(store)));
                    assert(cookies_loaded_from(json@, store));
                    Ok((store, was_plaintext))
                },
                Err(detail) => {
                    let e = with_detail("Failed to load cookies: ", &detail);
                    proof {
                        assert(e@.subrange(0, "Failed to load cookies: "@.len() as int) =~= "Failed to load cookies: "@);
                    }
                    Err(e)
                },
            }
        },
    }
}

/// Calls `CookieStore::save_json`, writing into a fresh buffer, and returns the
/// bytes. Nothing is claimed of them: only unexpired persistent cookies are
/// written, so they rest on the clock. On failure the error's text is returned.
#[verifier::external_body]
#[allow(deprecated)]
fn cookie_store_to_json(store: &CookieStore) -> (r: Result<Vec<u8>, String>) {
    let mut json: Vec<u8> = Vec::new();
    match store.save_json(&mut json) {
        Ok(()) => Ok(json),
        Err(e) => Err(e.to_string()),
    }
}

/// What [`cookies_to_file`] returns, given what serialising the store gave
/// (`json`): the serialiser's failure behind a prefix, or what
/// [`encrypt_bytes`] may return for the bytes (the cipher's refusal for bytes
/// too long to be sealed).
pub open spec fn cookies_file_outcome<P: KeyProvider>(
    slot: ProviderSlot<P>,
    json: Result<Seq<u8>, Seq<char>>,
    r: Result<Vec<u8>, String>,
) -> bool {
    match json {
        Ok(j) => if j.len() + TAG_LEN <= isize::MAX {
            encrypt_bytes_outcome(slot, j, r)
        } else {
            r matches Err(e) && e@ == "暗号化に失敗"@
        },
        Err(d) => r matches Err(e) && e@ == "Failed to serialize cookies: "@ + d,
    }
}

/// The bytes to write to the cookie file for `store`: its cookies in the
/// JSON-lines format, encrypted with the installed provider's key.
pub fn cookies_to_file<P: KeyProvider>(slot: &ProviderSlot<P>, store: &CookieStore) -> (r: Result<Vec<u8>, String>)
    ensures
        exists|json: Result<Seq<u8>, Seq<char>>| #[trigger] cookies_file_outcome(*slot, json, r),
        r is Ok ==> exists|json: Seq<u8>| #[trigger] cookies_saved_as(*store, json) && encrypt_bytes_outcome(*slot, json, r),
{
    let serialised = cookie_store_to_json(store);
    match serialised {
        Err(detail) => {
            let r = Err(with_detail("Failed to serialize cookies: ", &detail));
            assert(cookies_file_outcome(*slot, Err(detail@), r));
            r
        },
        Ok(json) => {
            if json.len() > isize::MAX as usize - TAG_LEN {
                let r = Err(message("暗号化に失敗"));
                assert(cookies_file_outcome(*slot, Ok(json@), r));
                r
            } else {
                let r = encrypt_bytes(slot, json.as_slice());
                assert(cookies_file_outcome(*slot, Ok(json@), r));
                assert(call_ensures(cookie_store_to_json, (store,), Ok::<Vec<u8>, String>(json)));
                assert(cookies_saved_as(*store, json@));
                r
            }
        },
    }
}

/// A cookie file loads as a whole: the store returned is what the loader gave
/// for all of the file's content, that is the file itself when it is plaintext,
/// or everything that the installed provider's key opens it to when it is an
/// envelope.
pub proof fn law_cookie_file_loads_whole<P: KeyProvider>(slot: &ProviderSlot<P>, raw: &[u8], r: Result<(CookieStore, bool), String>)
    requires
        call_ensures(cookies_from_file::<P>, (slot, raw), r),
    ensures
        r matches Ok((store, was_plaintext)) ==> {
            &&& was_plaintext == !has_magic(raw@)
            &&& !has_magic(raw@) ==> cookies_loaded_from(raw@, store)
            &&& has_magic(raw@) ==> exists|k: [u8; 32], content: Seq<u8>|
                #![trigger provider_answer(*slot, Ok::<[u8; 32], String>(k)), cookies_loaded_from(content, store)]
                provider_answer(*slot, Ok::<[u8; 32], String>(k))
                && open_frame(k@, raw@) == Ok::<Seq<u8>, FrameError>(content)
                && cookies_loaded_from(content, store)
        },
{
    if let Ok((store, was_plaintext)) = r {
        let content = choose|content: Vec<u8>|
            #[trigger] decode_or_migrate_outcome(*slot, raw@, Ok::<(Vec<u8>, bool), String>((content, was_plaintext)))
            && cookies_loaded_from(content@, store);
        if has_magic(raw@) {
            let km = choose|km: Result<[u8; 32], String>| #[trigger] provider_answer(*slot, km)
                && decode_outcome(km, raw@, Ok::<(Vec<u8>, bool), String>((content, was_plaintext)));
            let k = km->Ok_0;
            assert(provider_answer(*slot, Ok::<[u8; 32], String>(k)));
            assert(open_frame(k@, raw@) == Ok::<Seq<u8>, FrameError>(content@));
        }
    }
}

/// A cookie file holds the whole store: what the installed provider's key
/// opens it to is exactly what the serialiser wrote for the store.
pub proof fn law_cookie_file_holds_whole_store<P: KeyProvider>(slot: &ProviderSlot<P>, store: &CookieStore, r: Result<Vec<u8>, String>)
    requires
        call_ensures(cookies_to_file::<P>, (slot, store), r),
    ensures
        r matches Ok(out) ==> exists|json: Seq<u8>, k: [u8; 32]|
            #![trigger cookies_saved_as(*store, json), provider_answer(*slot, Ok::<[u8; 32], String>(k))]
            cookies_saved_as(*store, json)
            && provider_answer(*slot, Ok::<[u8; 32], String>(k))
            && open_frame(k@, out@) == Ok::<Seq<u8>, FrameError>(json),
{
    if let Ok(out) = r {
        let json = choose|json: Seq<u8>| #[trigger] cookies_saved_as(*store, json) && encrypt_bytes_outcome(*slot, json, r);
        let km = choose|km: Result<[u8; 32], String>| #[trigger] provider_answer(*slot, km) && match km {
            Ok(k) => encrypt_outcome(k@, json, r),
            Err(e) => r == Err::<Vec<u8>, String>(e),
        };
        let k = km->Ok_0;
        assert(provider_answer(*slot, Ok::<[u8; 32], String>(k)));
        assert(open_frame(k@, out@) == Ok::<Seq<u8>, FrameError>(json));
    }
}

} // verus!
