//! The OS keychain, reached through the `keyring` crate, and the desktop key
//! provider that keeps the master key there.

use crate::cipher::fill_random;
use crate::encoding::{
    base64_standard_encode, decode_master_key, encode_master_key, key_from_text, KeyTextError,
};
use crate::secure_store::{with_detail, KeyProvider};
use vstd::prelude::*;
use vstd::std_specs::convert::IntoSpec;

verus! {

/// A keychain entry of the `keyring` crate: one (service, user) credential.
#[verifier::external_type_specification]
#[verifier::external_body]
pub struct ExEntry(keyring::Entry);

/// A failure reported by the keychain: whether it was the "no such entry"
/// case, and the error's text.
pub struct KeychainFailure {
    pub no_entry: bool,
    pub text: String,
}

/// The text of `keyring::Error::NoEntry`.
pub open spec fn no_entry_text() -> Seq<char> {
    "No matching entry found in secure storage"@
}

/// A text that `keyring::Error`'s `Display` writes: one form per variant
/// (platform failure, no storage access, no entry, bad encoding, attribute too
/// long or invalid, ambiguous entry).
pub open spec fn is_keyring_error_text(t: Seq<char>) -> bool {
    ||| "Platform secure storage failure: "@.is_prefix_of(t)
    ||| "Couldn't access platform secure storage: "@.is_prefix_of(t)
    ||| t == no_entry_text()
    ||| t == "Password cannot be UTF-8 encoded"@
    ||| "Attribute "@.is_prefix_of(t)
    ||| "Entry is matched by "@.is_prefix_of(t)
}

/// A keychain failure as the wrappers below report it: the error's text, and
/// whether it is the "no such entry" case.
pub open spec fn is_keychain_failure(f: KeychainFailure) -> bool {
    &&& is_keyring_error_text(f.text@)
    &&& f.no_entry <==> f.text@ == no_entry_text()
}

/// `prefix` followed by a keychain error's text.
pub open spec fn prefixed_keyring_error(prefix: Seq<char>, e: Seq<char>) -> bool {
    &&& prefix.is_prefix_of(e)
    &&& is_keyring_error_text(e.skip(prefix.len() as int))
}

/// A keychain entry, with the (service, user) pair it was made for.
pub struct KeychainEntry {
    service: String,
    user: String,
    inner: keyring::Entry,
}

impl KeychainEntry {
    /// The service name this entry was made for.
    pub closed spec fn service(&self) -> Seq<char> {
        self.service@
    }

    /// The user name this entry was made for.
    pub closed spec fn user(&self) -> Seq<char> {
        self.user@
    }
}

/// Calls `keyring::Entry::new` for `service` and `user`, and keeps the pair
/// with the entry. Claimed of it: an entry comes back made for that pair; a
/// failure carries the text that `keyring::Error`'s `Display` writes, flagged as
/// "no entry" exactly for that variant. Whether it succeeds rests on the
/// platform's credential store.
#[verifier::external_body]
pub(crate) fn entry_new(service: &str, user: &str) -> (r: Result<KeychainEntry, KeychainFailure>)
    ensures
        r matches Ok(e) ==> e.service() == service@ && e.user() == user@,
        r matches Err(f) ==> is_keychain_failure(f),
{
    match keyring::Entry::new(service, user) {
        Ok(inner) => Ok(KeychainEntry { service: service.to_string(), user: user.to_string(), inner }),
        Err(e) => Err(KeychainFailure { no_entry: matches!(e, keyring::Error::NoEntry), text: e.to_string() }),
    }
}

/// Calls `keyring::Entry::get_password` on the entry. What comes back rests on
/// the platform's credential store, so of it only this is claimed: a failure
/// carries the text that `keyring::Error`'s `Display` writes, flagged as
/// "no entry" exactly for that variant.
#[verifier::external_body]
pub(crate) fn entry_get_password(entry: &KeychainEntry) -> (r: Result<String, KeychainFailure>)
    ensures
        r matches Err(f) ==> is_keychain_failure(f),
{
    match entry.inner.get_password() {
        Ok(password) => Ok(password),
        Err(e) => Err(KeychainFailure { no_entry: matches!(e, keyring::Error::NoEntry), text: e.to_string() }),
    }
}

/// Calls `keyring::Entry::set_password` on the entry with `password`. Whether
/// it succeeds rests on the platform's credential store, so of it only this is
/// claimed: a failure carries the text that `keyring::Error`'s `Display` writes,
/// flagged as "no entry" exactly for that variant.
#[verifier::external_body]
pub(crate) fn entry_set_password(entry: &KeychainEntry, password: &str) -> (r: Result<(), KeychainFailure>)
    ensures
        r matches Err(f) ==> is_keychain_failure(f),
{
    match entry.inner.set_password(password) {
        Ok(()) => Ok(()),
        Err(e) => Err(KeychainFailure { no_entry: matches!(e, keyring::Error::NoEntry), text: e.to_string() }),
    }
}

/// Calls `keyring::Entry::delete_password` on the entry. Whether it succeeds
/// rests on the platform's credential store, so of it only this is claimed: a
/// failure carries the text that `keyring::Error`'s `Display` writes, flagged as
/// "no entry" exactly for that variant.
#[verifier::external_body]
pub(crate) fn entry_delete_password(entry: &KeychainEntry) -> (r: Result<(), KeychainFailure>)
    ensures
        r matches Err(f) ==> is_keychain_failure(f),
{
    match entry.inner.delete_password() {
        Ok(()) => Ok(()),
        Err(e) => Err(KeychainFailure { no_entry: matches!(e, keyring::Error::NoEntry), text: e.to_string() }),
    }
}

/// Reading the keychain entry (`service`, `user`) gave `text`: some call that
/// read an entry made for that pair returned it.
pub closed spec fn keychain_read(service: Seq<char>, user: Seq<char>, text: String) -> bool {
    exists|e: KeychainEntry|
        e.service() == service && e.user() == user
        && #[trigger] call_ensures(entry_get_password, (&e,), Ok::<String, KeychainFailure>(text))
}

/// Reading the keychain entry (`service`, `user`) reported that it holds
/// nothing.
pub closed spec fn keychain_read_missing(service: Seq<char>, user: Seq<char>) -> bool {
    exists|e: KeychainEntry, f: KeychainFailure|
        e.service() == service && e.user() == user && f.no_entry
        && #[trigger] call_ensures(entry_get_password, (&e,), Err::<String, KeychainFailure>(f))
}

/// Storing `text` in the keychain entry (`service`, `user`) succeeded.
pub closed spec fn keychain_written(service: Seq<char>, user: Seq<char>, text: Seq<char>) -> bool {
    exists|e: KeychainEntry, password: &str, stored: Result<(), KeychainFailure>|
        e.service() == service && e.user() == user && password@ == text && stored is Ok
        && #[trigger] call_ensures(entry_set_password, (&e, password), stored)
}

/// Deleting the keychain entry (`service`, `user`) succeeded.
pub closed spec fn keychain_deleted(service: Seq<char>, user: Seq<char>) -> bool {
    exists|e: KeychainEntry, deleted: Result<(), KeychainFailure>|
        e.service() == service && e.user() == user && deleted is Ok
        && #[trigger] call_ensures(entry_delete_password, (&e,), deleted)
}

/// A read of an entry is a read of its (service, user) pair.
pub(crate) proof fn lemma_read_recorded(e: KeychainEntry, read: Result<String, KeychainFailure>)
    requires
        call_ensures(entry_get_password, (&e,), read),
    ensures
        read matches Ok(t) ==> keychain_read(e.service(), e.user(), t),
        read matches Err(f) ==> (f.no_entry ==> keychain_read_missing(e.service(), e.user())),
{
    if let Err(f) = read {
        if f.no_entry {
            assert(call_ensures(entry_get_password, (&e,), Err::<String, KeychainFailure>(f)));
        }
    }
}

/// A successful store in an entry is a write to its (service, user) pair.
pub(crate) proof fn lemma_write_recorded(e: KeychainEntry, password: &str, stored: Result<(), KeychainFailure>)
    requires
        call_ensures(entry_set_password, (&e, password), stored),
    ensures
        stored is Ok ==> keychain_written(e.service(), e.user(), password@),
{
}

/// A successful delete of an entry is a delete of its (service, user) pair.
pub(crate) proof fn lemma_delete_recorded(e: KeychainEntry, deleted: Result<(), KeychainFailure>)
    requires
        call_ensures(entry_delete_password, (&e,), deleted),
    ensures
        deleted is Ok ==> keychain_deleted(e.service(), e.user()),
{
}

/// The keychain user name under which the master key is stored (apart from the
/// auth token's entry).
pub const MASTER_KEY_ENTRY: &'static str = "vrcpersona_master_key";

/// `String::from` on a string slice (`impl From<&str> for String`). Claimed of
/// it, as its documentation says: the string holds the same text.
pub assume_specification<'a>[ <String as From<&'a str>>::from ](s: &str) -> (r: String)
    ensures
        r@ == s@,
;

/// Desktop key provider: keeps the master key in the OS keychain.
pub struct KeyringKeyProvider {
    /// The keychain service name (the application's identifier, so that
    /// development and release builds keep separate keys).
    service_name: String,
}

impl KeyringKeyProvider {
    /// The keychain service name this provider uses.
    pub closed spec fn service(&self) -> String {
        self.service_name
    }

    /// A provider for the keychain service `service_name`.
    pub fn new<S: Into<String>>(service_name: S) -> (p: Self)
        ensures
            S::obeys_into_spec() ==> p.service() == service_name.into_spec(),
            call_ensures(S::into, (service_name,), p.service()),
    {
        KeyringKeyProvider { service_name: service_name.into() }
    }
}

/// The keychain entry (`service_name`, `MASTER_KEY_ENTRY`) that holds the
/// master key.
pub fn master_key_entry(service_name: &str) -> (r: Result<KeychainEntry, KeychainFailure>)
    ensures
        r matches Ok(e) ==> e.service() == service_name@ && e.user() == "vrcpersona_master_key"@,
        r matches Err(f) ==> is_keychain_failure(f),
{
    entry_new(service_name, MASTER_KEY_ENTRY)
}

/// What reading the master key's entry found.
pub enum KeyLookup {
    /// A stored key.
    Found([u8; 32]),
    /// No key is stored yet.
    Missing,
}

/// What [`classify_lookup`] returns for the outcome of reading the master key's
/// entry: the key that the stored text holds (or why the text is not a key);
/// `Missing` when there is no entry; otherwise the read's failure, prefixed.
pub open spec fn lookup_outcome(read: Result<String, KeychainFailure>, r: Result<KeyLookup, String>) -> bool {
    match read {
        Ok(t) => match key_from_text(t@) {
            Ok(k) => r matches Ok(KeyLookup::Found(key)) && key@ == k,
            Err(KeyTextError::Undecodable) => r matches Err(e) && "マスターキーのデコードに失敗: "@.is_prefix_of(e@),
            Err(KeyTextError::WrongLength) => r matches Err(e) && e@ == "マスターキーの長さが不正（32バイトではない）"@,
        },
        Err(f) => if f.no_entry {
            r == Ok::<KeyLookup, String>(KeyLookup::Missing)
        } else {
            r matches Err(e) && e@ == "マスターキーの取得に失敗: "@ + f.text@
        },
    }
}

/// Decides, from the outcome of reading the master key's entry, whether a key
/// was found, none is stored yet, or the read failed.
pub fn classify_lookup(read: Result<String, KeychainFailure>) -> (r: Result<KeyLookup, String>)
    ensures
        lookup_outcome(read, r),
{
    match read {
        Ok(text) => match decode_master_key(text.as_str()) {
            Ok(key) => Ok(KeyLookup::Found(key)),
            Err(e) => Err(e),
        },
        Err(f) => {
            if f.no_entry {
                Ok(KeyLookup::Missing)
            } else {
                Err(with_detail("マスターキーの取得に失敗: ", &f.text))
            }
        },
    }
}

/// The failures that [`KeyringKeyProvider::get_or_create_master_key`] reports:
/// the keychain entry could not be made (the keychain's text as it is); the key
/// could not be read for another reason than its absence, or a new key could
/// not be stored (the keychain's text behind a prefix); the random source
/// failed; or the stored text is not a key (see [`decode_master_key`]).
pub open spec fn master_key_error_text(e: Seq<char>) -> bool {
    ||| is_keyring_error_text(e)
    ||| prefixed_keyring_error("マスターキーの取得に失敗: "@, e) && e.skip("マスターキーの取得に失敗: "@.len() as int) != no_entry_text()
    ||| prefixed_keyring_error("マスターキーの保存に失敗: "@, e)
    ||| "マスターキーの生成に失敗（RNG）: "@.is_prefix_of(e)
    ||| "マスターキーのデコードに失敗: "@.is_prefix_of(e)
    ||| e == "マスターキーの長さが不正（32バイトではない）"@
}

/// A possible outcome of drawing a new master key: 32 random bytes, or the
/// random source's error text.
pub open spec fn key_draw(draw: Result<Seq<u8>, Seq<char>>) -> bool {
    draw matches Ok(k) ==> k.len() == 32
}

/// What [`KeyringKeyProvider::get_or_create_master_key`] returns after
/// [`classify_lookup`] decided the read as `lookup`, given what drawing a new
/// key gave (`draw`) and what storing its base64 ([`encode_master_key`]) in the
/// entry gave (`stored`): a found key as it is; for a missing entry, the fresh
/// key only once it is stored, else the prefixed failure; the lookup's error
/// as it is.
pub open spec fn master_key_outcome(
    lookup: Result<KeyLookup, String>,
    draw: Result<Seq<u8>, Seq<char>>,
    stored: Result<(), KeychainFailure>,
    r: Result<[u8; 32], String>,
) -> bool {
    match lookup {
        Ok(KeyLookup::Found(k)) => r matches Ok(key) && key@ == k@,
        Ok(KeyLookup::Missing) => match draw {
            Err(d) => r matches Err(e) && e@ == "マスターキーの生成に失敗（RNG）: "@ + d,
            Ok(fresh) => match stored {
                Ok(()) => r matches Ok(key) && key@ == fresh,
                Err(f) => r matches Err(e) && e@ == "マスターキーの保存に失敗: "@ + f.text@,
            },
        },
        Err(e0) => r matches Err(e) && e@ == e0@,
    }
}

/// One run of [`KeyringKeyProvider::get_or_create_master_key`] once the entry
/// is made: the read's outcome (`read`), as the keychain may report it; what
/// [`classify_lookup`] decided of it (`lookup`); what drawing and storing a new
/// key gave; and the result `r` that follows from them.
pub open spec fn master_key_run(
    read: Result<String, KeychainFailure>,
    lookup: Result<KeyLookup, String>,
    draw: Result<Seq<u8>, Seq<char>>,
    stored: Result<(), KeychainFailure>,
    r: Result<[u8; 32], String>,
) -> bool {
    &&& (read matches Err(f) ==> is_keychain_failure(f))
    &&& lookup_outcome(read, lookup)
    &&& key_draw(draw)
    &&& (stored matches Err(f) ==> is_keychain_failure(f))
    &&& master_key_outcome(lookup, draw, stored, r)
}

/// `key` is the master key that the keychain entry (`service`,
/// `"vrcpersona_master_key"`) holds: a read of the entry gave a text that reads
/// as `key`, or a read reported the entry missing and the base64 of `key`,
/// which reads back as `key`, was then stored in it.
pub open spec fn master_key_persisted(service: Seq<char>, key: Seq<u8>) -> bool {
    ||| exists|t: String|
        #[trigger] keychain_read(service, "vrcpersona_master_key"@, t) && key_from_text(t@) == Ok::<Seq<u8>, KeyTextError>(key)
    ||| keychain_read_missing(service, "vrcpersona_master_key"@)
        && keychain_written(service, "vrcpersona_master_key"@, base64_standard_encode(key))
        && key_from_text(base64_standard_encode(key)) == Ok::<Seq<u8>, KeyTextError>(key)
}

/// `prefix` followed by `detail` carries `detail` behind the prefix.
proof fn lemma_skip_prefix(prefix: Seq<char>, detail: Seq<char>)
    ensures
        prefix.is_prefix_of(prefix + detail),
        (prefix + detail).skip(prefix.len() as int) == detail,
{
    assert((prefix + detail).subrange(0, prefix.len() as int) =~= prefix);
    assert((prefix + detail).skip(prefix.len() as int) =~= detail);
}

impl KeyProvider for KeyringKeyProvider {
    /// Reads the master key from the entry that [`master_key_entry`] makes for
    /// the service name, and lets [`classify_lookup`] decide what was found: a
    /// stored key is returned; when there is none yet, a random 256-bit key is
    /// generated, its base64 ([`encode_master_key`]) stored there, and the key
    /// returned; any other failure is an error.
    fn get_or_create_master_key(&self) -> (r: Result<[u8; 32], String>)
        ensures
            (r matches Err(e) && is_keyring_error_text(e@)) || exists|
                read: Result<String, KeychainFailure>,
                lookup: Result<KeyLookup, String>,
                draw: Result<Seq<u8>, Seq<char>>,
                stored: Result<(), KeychainFailure>,
            | #[trigger] master_key_run(read, lookup, draw, stored, r),
            r matches Err(e) ==> master_key_error_text(e@),
            r matches Ok(k) ==> master_key_persisted(self.service()@, k@),
    {
        let entry = match master_key_entry(self.service_name.as_str()) {
            Ok(entry) => entry,
            Err(f) => {
                return Err(f.text);
            },
        };
        let read = entry_get_password(&entry);
        let ghost read_outcome = read;
        proof {
            lemma_read_recorded(entry, read_outcome);
        }
        let lookup = classify_lookup(read);
        let ghost lookup_outcome = lookup;
        let ghost no_draw: Result<Seq<u8>, Seq<char>> = Err(Seq::empty());
        let ghost no_store: Result<(), KeychainFailure> = Ok(());
        match lookup {
            Ok(KeyLookup::Found(key)) => {
                let r = Ok(key);
                assert(master_key_run(read_outcome, lookup_outcome, no_draw, no_store, r));
                assert(keychain_read(self.service()@, "vrcpersona_master_key"@, read_outcome->Ok_0));
                r
            },
            Ok(KeyLookup::Missing) => {
                let mut key = [0u8; 32];
                match fill_random(&mut key) {
                    Ok(()) => {},
                    Err(detail) => {
                        let e = with_detail("マスターキーの生成に失敗（RNG）: ", &detail);
                        proof {
                            lemma_skip_prefix("マスターキーの生成に失敗（RNG）: "@, detail@);
                        }
                        let r = Err(e);
                        assert(master_key_run(read_outcome, lookup_outcome, Err(detail@), no_store, r));
                        return r;
                    },
                }
                let b64 = encode_master_key(&key);
                let password = b64.as_str();
                let stored = entry_set_password(&entry, password);
                let ghost stored_outcome = stored;
                proof {
                    lemma_write_recorded(entry, password, stored_outcome);
                }
                match stored {
                    Ok(()) => {
                        let r = Ok(key);
                        assert(master_key_run(read_outcome, lookup_outcome, Ok(key@), stored_outcome, r));
                        r
                    },
                    Err(f2) => {
                        let e = with_detail("マスターキーの保存に失敗: ", &f2.text);
                        proof {
                            lemma_skip_prefix("マスターキーの保存に失敗: "@, f2.text@);
                        }
                        let r = Err(e);
                        assert(master_key_run(read_outcome, lookup_outcome, Ok(key@), stored_outcome, r));
                        r
                    },
                }
            },
            Err(e) => {
                proof {
                    if let Err(f) = read_outcome {
                        lemma_skip_prefix("マスターキーの取得に失敗: "@, f.text@);
                    }
                }
                let r = Err(e);
                assert(master_key_run(read_outcome, lookup_outcome, no_draw, no_store, r));
                r
            },
        }
    }
}

/// The key that the keychain provider returns is the persisted one: either a
/// read of its entry (service name, `"vrcpersona_master_key"`) gave a text that
/// reads as that key, or a read reported the entry missing and that key's
/// base64 (which reads back as the same key) was then stored there. A fresh
/// key is never returned over a stored one.
pub proof fn law_master_key_is_persisted(p: KeyringKeyProvider, r: Result<[u8; 32], String>)
    requires
        call_ensures(KeyringKeyProvider::get_or_create_master_key, (&p,), r),
    ensures
        r matches Ok(k) ==> {
            ||| exists|t: String|
                #[trigger] keychain_read(p.service()@, "vrcpersona_master_key"@, t)
                && key_from_text(t@) == Ok::<Seq<u8>, KeyTextError>(k@)
            ||| keychain_read_missing(p.service()@, "vrcpersona_master_key"@)
                && keychain_written(p.service()@, "vrcpersona_master_key"@, base64_standard_encode(k@))
                && key_from_text(base64_standard_encode(k@)) == Ok::<Seq<u8>, KeyTextError>(k@)
        },
{
}

} // verus!
