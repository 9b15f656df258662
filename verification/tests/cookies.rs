use credential_storage::cookies::{cookies_from_file, cookies_to_file};
use credential_storage::secure_store::{encrypt_bytes, init_provider, KeyProvider, ProviderSlot};
use reqwest_cookie_store::CookieStore;
use std::io::Cursor;

#[test]
#[allow(deprecated)]
fn can_load_json_written_by_cookie_store_0_20() {
    let legacy_json = [
        r#"{"raw_cookie":"twoFactorAuth=old_2fa_value; Path=/; Domain=vrchat.cloud; Max-Age=3600","path":["/",true],"domain":{"Suffix":"vrchat.cloud"},"expires":{"AtUtc":"2126-07-25T09:06:53Z"}}"#,
        "\n",
        r#"{"raw_cookie":"auth=old_version_value; Path=/; Domain=vrchat.cloud; Max-Age=3600","path":["/",true],"domain":{"Suffix":"vrchat.cloud"},"expires":{"AtUtc":"2126-07-25T09:06:53Z"}}"#,
        "\n",
    ]
    .join("");

    let store = CookieStore::load_json(Cursor::new(legacy_json.as_bytes()))
        .expect("旧バージョンが書いたJSONの読み込みに失敗");

    let names: Vec<String> = store.iter_any().map(|c| c.name().to_string()).collect();
    assert!(
        names.contains(&"auth".to_string()),
        "旧形式からauth cookieを復元できなかった: {:?}",
        names
    );
    assert!(
        names.contains(&"twoFactorAuth".to_string()),
        "旧形式からtwoFactorAuth cookieを復元できなかった: {:?}",
        names
    );
}

#[test]
#[allow(deprecated)]
fn legacy_json_roundtrip_preserves_cookies() {
    let mut store = CookieStore::default();
    let url = "https://api.vrchat.cloud/".parse::<url::Url>().unwrap();
    store
        .parse(
            "auth=dummy_value_for_test; Path=/; Domain=vrchat.cloud; Max-Age=3600",
            &url,
        )
        .expect("cookieのパースに失敗");

    let mut json: Vec<u8> = Vec::new();
    store.save_json(&mut json).expect("save_jsonに失敗");
    assert!(!json.is_empty(), "保存されたJSONが空");

    let loaded = CookieStore::load_json(Cursor::new(json)).expect("load_jsonに失敗");
    let names: Vec<String> = loaded.iter_any().map(|c| c.name().to_string()).collect();
    assert!(
        names.contains(&"auth".to_string()),
        "ラウンドトリップ後にauth cookieが失われた: {:?}",
        names
    );
}

struct CookieKey([u8; 32]);

impl KeyProvider for CookieKey {
    fn get_or_create_master_key(&self) -> Result<[u8; 32], String> {
        Ok(self.0)
    }
}

const LEGACY_LINE: &str = r#"{"raw_cookie":"auth=v; Path=/; Domain=vrchat.cloud; Max-Age=3600","path":["/",true],"domain":{"Suffix":"vrchat.cloud"},"expires":{"AtUtc":"2126-07-25T09:06:53Z"}}"#;

#[test]
fn plaintext_cookie_file_loads_and_is_flagged() {
    let slot: ProviderSlot<CookieKey> = ProviderSlot::new();
    let raw = format!("{}\n", LEGACY_LINE);
    let (store, was_plaintext) = cookies_from_file(&slot, raw.as_bytes()).unwrap();
    assert!(was_plaintext);
    let names: Vec<String> = store.iter_any().map(|c| c.name().to_string()).collect();
    assert_eq!(names, vec!["auth".to_string()]);
}

#[test]
fn encrypted_cookie_file_loads() {
    let mut slot: ProviderSlot<CookieKey> = ProviderSlot::new();
    init_provider(&mut slot, CookieKey([4u8; 32]));
    let raw = format!("{}\n", LEGACY_LINE);
    let encrypted = encrypt_bytes(&slot, raw.as_bytes()).unwrap();
    let (store, was_plaintext) = cookies_from_file(&slot, &encrypted).unwrap();
    assert!(!was_plaintext);
    assert_eq!(store.iter_any().count(), 1);
}

#[test]
fn encrypted_cookie_file_without_provider_fails() {
    let slot: ProviderSlot<CookieKey> = ProviderSlot::new();
    let r = cookies_from_file(&slot, b"VPENC1 something");
    assert!(matches!(r, Err(ref e) if e == "secure_store provider未初期化"));
}

#[test]
fn unparsable_cookie_file_fails_to_load() {
    let slot: ProviderSlot<CookieKey> = ProviderSlot::new();
    let r = cookies_from_file(&slot, b"not json");
    assert!(matches!(r, Err(ref e) if e.starts_with("Failed to load cookies: ")));
}

#[test]
fn cookie_file_written_encrypted_reads_back() {
    let mut slot: ProviderSlot<CookieKey> = ProviderSlot::new();
    init_provider(&mut slot, CookieKey([6u8; 32]));
    let raw = format!("{}\n", LEGACY_LINE);
    let (store, _) = cookies_from_file(&slot, raw.as_bytes()).unwrap();
    let file = cookies_to_file(&slot, &store).unwrap();
    assert!(file.starts_with(b"VPENC1"));
    let (back, was_plaintext) = cookies_from_file(&slot, &file).unwrap();
    assert!(!was_plaintext);
    let names: Vec<String> = back.iter_any().map(|c| c.name().to_string()).collect();
    assert_eq!(names, vec!["auth".to_string()]);
}

#[test]
fn cookie_file_without_provider_is_not_written() {
    let slot: ProviderSlot<CookieKey> = ProviderSlot::new();
    let store = CookieStore::default();
    assert_eq!(cookies_to_file(&slot, &store), Err("secure_store provider未初期化".to_string()));
}
