//! The records kept in the application's data directory, the auth token kept in
//! the OS keychain, and the rule that picks out cookie files for migration.

use crate::keychain::{
    entry_delete_password, entry_get_password, entry_new, entry_set_password, is_keychain_failure,
    is_keyring_error_text, keychain_deleted, keychain_read, keychain_written, lemma_delete_recorded,
    lemma_read_recorded, lemma_write_recorded, KeychainEntry, KeychainFailure,
};
use std::collections::HashMap;
use vstd::prelude::*;

verus! {

/// The keychain user name under which the auth token is stored.
pub const AUTH_TOKEN_KEY: &'static str = "vrchat_auth_token";

/// A saved account, for quick sign-in.
pub struct SavedAccount {
    pub user_id: String,
    pub display_name: String,
    pub thumbnail_url: Option<String>,
    pub auth_token: String,
    pub saved_at: String,
    pub last_login_at: String,
}

/// The saved-accounts file: the last signed-in user and the accounts by user id.
pub struct SavedAccountsFile {
    pub last_logged_in_user_id: Option<String>,
    pub accounts: HashMap<String, SavedAccount>,
}

impl Default for SavedAccountsFile {
    /// No last user and no accounts.
    fn default() -> (r: Self)
        ensures
            r.last_logged_in_user_id is None,
            r.accounts@ == Map::<String, SavedAccount>::empty(),
    {
        SavedAccountsFile { last_logged_in_user_id: None, accounts: HashMap::new() }
    }
}

/// What is needed to restore a user's pronouns after identity verification has
/// written a nonce into them: kept on disk so that a leftover nonce can be
/// found and undone after a crash or a failed restore.
pub struct PronounsRestoreCtx {
    /// The VRChat user whose pronouns were changed.
    pub vrchat_user_id: String,
    /// The pronouns before the change (possibly empty).
    pub original_pronouns: String,
    /// The nonce that was written.
    pub nonce: String,
    /// When it was written (RFC 3339).
    pub created_at: String,
}

/// The file, in the data directory, that holds the saved accounts.
pub const SAVED_ACCOUNTS_FILE: &'static str = "saved_accounts.json";

/// The file, in the data directory, that holds the pronouns restore context.
pub const PRONOUNS_RESTORE_FILE: &'static str = "pronouns_restore.json";

/// Neither the saved-accounts file nor the pronouns restore file is taken for a
/// cookie file, so the cookie-file migration never touches them.
pub proof fn law_record_files_are_not_cookie_files()
    ensures
        !("cookies"@.is_prefix_of(SAVED_ACCOUNTS_FILE@) && ".json"@.is_suffix_of(SAVED_ACCOUNTS_FILE@)),
        !("cookies"@.is_prefix_of(PRONOUNS_RESTORE_FILE@) && ".json"@.is_suffix_of(PRONOUNS_RESTORE_FILE@)),
{
    reveal_strlit("cookies");
    reveal_strlit("saved_accounts.json");
    reveal_strlit("pronouns_restore.json");
    assert(SAVED_ACCOUNTS_FILE@.subrange(0, 7)[0] != "cookies"@[0]);
    assert(PRONOUNS_RESTORE_FILE@.subrange(0, 7)[0] != "cookies"@[0]);
}

/// Whether `text`, from character `start` on, reads `pattern`.
fn reads_at(text: &str, pattern: &str, start: usize) -> (r: bool)
    requires
        start + pattern@.len() <= text@.len(),
        text@.len() <= usize::MAX,
    ensures
        r == (text@.subrange(start as int, start + pattern@.len()) == pattern@),
{
    let n = pattern.unicode_len();
    let mut i: usize = 0;
    while i < n
        invariant
            n == pattern@.len(),
            start + n <= text@.len(),
            text@.len() <= usize::MAX,
            i <= n,
            forall|j: int| 0 <= j < i ==> text@[start + j] == pattern@[j],
        decreases n - i,
    {
        if text.get_char(start + i) != pattern.get_char(i) {
            assert(text@.subrange(start as int, start + n)[i as int] != pattern@[i as int]);
            return false;
        }
        i = i + 1;
    }
    assert(text@.subrange(start as int, start + n) =~= pattern@);
    true
}

/// Whether a file name is that of a cookie file (`cookies.json`, or a
/// per-account backup `cookies_<user id>.json`): it starts with `cookies` and
/// ends with `.json`.
pub fn is_cookie_file_name(name: &str) -> (r: bool)
    ensures
        r == ("cookies"@.is_prefix_of(name@) && ".json"@.is_suffix_of(name@)),
{
    let prefix = "cookies";
    let suffix = ".json";
    let n = name.unicode_len();
    let p = prefix.unicode_len();
    let s = suffix.unicode_len();
    if p > n || s > n {
        return false;
    }
    let starts = reads_at(name, prefix, 0);
    let ends = reads_at(name, suffix, n - s);
    proof {
        assert(starts == (prefix@ =~= name@.subrange(0, prefix@.len() as int)));
        assert(ends == (suffix@ =~= name@.subrange(name@.len() - suffix@.len(), name@.len() as int)));
    }
    starts && ends
}

/// The keychain entry (`service_name`, `AUTH_TOKEN_KEY`) that holds the auth
/// token.
pub fn auth_token_entry(service_name: &str) -> (r: Result<KeychainEntry, KeychainFailure>)
    ensures
        r matches Ok(e) ==> e.service() == service_name@ && e.user() == "vrchat_auth_token"@,
        r matches Err(f) ==> is_keychain_failure(f),
{
    entry_new(service_name, AUTH_TOKEN_KEY)
}

/// Stores the auth token in the keychain entry (`service_name`, `AUTH_TOKEN_KEY`).
/// Whether the keychain accepts it rests on the platform; a failure is reported
/// with the keychain's own error text.
pub fn save_auth_token(token: &str, service_name: &str) -> (r: Result<(), String>)
    ensures
        r matches Err(e) ==> is_keyring_error_text(e@),
        r is Ok ==> keychain_written(service_name@, "vrchat_auth_token"@, token@),
{
    let entry = match auth_token_entry(service_name) {
        Ok(entry) => entry,
        Err(f) => {
            return Err(f.text);
        },
    };
    let stored = entry_set_password(&entry, token);
    proof {
        lemma_write_recorded(entry, token, stored);
    }
    match stored {
        Ok(()) => Ok(()),
        Err(f) => Err(f.text),
    }
}

/// Reads the auth token from the keychain entry (`service_name`, `AUTH_TOKEN_KEY`).
/// What it holds rests on the platform; a failure is reported with the
/// keychain's own error text.
pub fn load_auth_token(service_name: &str) -> (r: Result<String, String>)
    ensures
        r matches Err(e) ==> is_keyring_error_text(e@),
        r matches Ok(t) ==> keychain_read(service_name@, "vrchat_auth_token"@, t),
{
    let entry = match auth_token_entry(service_name) {
        Ok(entry) => entry,
        Err(f) => {
            return Err(f.text);
        },
    };
    let read = entry_get_password(&entry);
    proof {
        lemma_read_recorded(entry, read);
    }
    match read {
        Ok(token) => Ok(token),
        Err(f) => Err(f.text),
    }
}

/// Deletes the auth token from the keychain entry (`service_name`, `AUTH_TOKEN_KEY`).
/// Whether it was there rests on the platform; a failure is reported with the
/// keychain's own error text.
pub fn delete_auth_token(service_name: &str) -> (r: Result<(), String>)
    ensures
        r matches Err(e) ==> is_keyring_error_text(e@),
        r is Ok ==> keychain_deleted(service_name@, "vrchat_auth_token"@),
{
    let entry = match auth_token_entry(service_name) {
        Ok(entry) => entry,
        Err(f) => {
            return Err(f.text);
        },
    };
    let deleted = entry_delete_password(&entry);
    proof {
        lemma_delete_recorded(entry, deleted);
    }
    match deleted {
        Ok(()) => Ok(()),
        Err(f) => Err(f.text),
    }
}

/// The auth token is kept in one keychain entry, (service name,
/// `"vrchat_auth_token"`): a successful save stores the token in it, a
/// successful load returns what reading it gave, and a successful delete
/// deletes it.
pub proof fn law_auth_token_lives_in_its_entry(
    service_name: &str,
    token: &str,
    saved: Result<(), String>,
    loaded: Result<String, String>,
    deleted: Result<(), String>,
)
    requires
        call_ensures(save_auth_token, (token, service_name), saved),
        call_ensures(load_auth_token, (service_name,), loaded),
        call_ensures(delete_auth_token, (service_name,), deleted),
    ensures
        saved is Ok ==> keychain_written(service_name@, "vrchat_auth_token"@, token@),
        loaded matches Ok(t) ==> keychain_read(service_name@, "vrchat_auth_token"@, t),
        deleted is Ok ==> keychain_deleted(service_name@, "vrchat_auth_token"@),
{
}

} // verus!

