use credential_storage::storage::{
    is_cookie_file_name, SavedAccountsFile, PRONOUNS_RESTORE_FILE, SAVED_ACCOUNTS_FILE,
};

#[test]
fn cookie_file_names_are_recognised() {
    assert!(is_cookie_file_name("cookies.json"));
    assert!(is_cookie_file_name("cookies_usr_0123.json"));
    assert!(!is_cookie_file_name("saved_accounts.json"));
    assert!(!is_cookie_file_name("cookies.json.bak"));
    assert!(!is_cookie_file_name("Cookies.json"));
    assert!(!is_cookie_file_name("cookies"));
    assert!(!is_cookie_file_name(".json"));
    assert!(!is_cookie_file_name(""));
}

#[test]
fn saved_accounts_file_default_is_empty() {
    let file = SavedAccountsFile::default();
    assert!(file.last_logged_in_user_id.is_none());
    assert!(file.accounts.is_empty());
}

#[test]
fn record_files_are_not_cookie_files() {
    assert!(!is_cookie_file_name(SAVED_ACCOUNTS_FILE));
    assert!(!is_cookie_file_name(PRONOUNS_RESTORE_FILE));
}
