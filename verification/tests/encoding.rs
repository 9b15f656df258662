use credential_storage::encoding::{decode_master_key, encode_master_key};

#[test]
fn encode_master_key_gives_standard_base64() {
    assert_eq!(encode_master_key(&[0u8; 32]), "AAAAAAAAAAAAAAAAAAAAAAAAAAAAAAAAAAAAAAAAAAA=");
    assert_eq!(encode_master_key(&[0xffu8; 32]), "//////////////////////////////////////////8=");
}

#[test]
fn stored_key_reads_back() {
    let key = [7u8; 32];
    let text = encode_master_key(&key);
    assert_eq!(decode_master_key(&text), Ok(key));
}

#[test]
fn stored_key_is_trimmed_before_decoding() {
    let key = [0u8; 32];
    let text = "  AAAAAAAAAAAAAAAAAAAAAAAAAAAAAAAAAAAAAAAAAAA=\n";
    assert_eq!(decode_master_key(text), Ok(key));
}

#[test]
fn stored_key_of_wrong_length_is_refused() {
    assert_eq!(
        decode_master_key("AAAAAAAAAAAAAAAAAAAAAA=="),
        Err("マスターキーの長さが不正（32バイトではない）".to_string())
    );
}

#[test]
fn stored_key_that_is_not_base64_is_refused() {
    let r = decode_master_key("not base64!");
    assert!(r.unwrap_err().starts_with("マスターキーのデコードに失敗: "));
}
