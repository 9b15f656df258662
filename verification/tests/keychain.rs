use credential_storage::keychain::{classify_lookup, KeyLookup, KeychainFailure};

fn failure(no_entry: bool, text: &str) -> KeychainFailure {
    KeychainFailure { no_entry, text: text.to_string() }
}

#[test]
fn lookup_of_stored_text_gives_its_key() {
    let r = classify_lookup(Ok("  BwcHBwcHBwcHBwcHBwcHBwcHBwcHBwcHBwcHBwcHBwc=\n".to_string()));
    assert!(matches!(r, Ok(KeyLookup::Found(k)) if k == [7u8; 32]));
}

#[test]
fn lookup_of_missing_entry_asks_for_a_new_key() {
    let r = classify_lookup(Err(failure(true, "No matching entry found in secure storage")));
    assert!(matches!(r, Ok(KeyLookup::Missing)));
}

#[test]
fn lookup_read_failure_is_an_error() {
    let r = classify_lookup(Err(failure(false, "Platform secure storage failure: locked")));
    assert!(matches!(r, Err(ref e) if e == "マスターキーの取得に失敗: Platform secure storage failure: locked"));
}

#[test]
fn lookup_of_short_key_text_is_an_error() {
    let r = classify_lookup(Ok("AAAA".to_string()));
    assert!(matches!(r, Err(ref e) if e == "マスターキーの長さが不正（32バイトではない）"));
}

#[test]
fn lookup_of_non_base64_text_is_an_error() {
    let r = classify_lookup(Ok("***".to_string()));
    assert!(matches!(r, Err(ref e) if e.starts_with("マスターキーのデコードに失敗: ")));
}
