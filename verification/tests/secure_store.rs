use credential_storage::envelope::{is_encrypted, magic_bytes};
use credential_storage::secure_store::{
    decode_or_migrate, decrypt_bytes, decrypt_with, encrypt_bytes, encrypt_if_plaintext, encrypt_with,
    init_provider, seal_envelope, KeyProvider, ProviderSlot,
};

/// A provider with a fixed key.
struct FixedKeyProvider([u8; 32]);

impl KeyProvider for FixedKeyProvider {
    fn get_or_create_master_key(&self) -> Result<[u8; 32], String> {
        Ok(self.0)
    }
}

/// A provider whose keychain always fails.
struct FailingProvider;

impl KeyProvider for FailingProvider {
    fn get_or_create_master_key(&self) -> Result<[u8; 32], String> {
        Err("keychain unavailable".to_string())
    }
}

fn slot_with(key: [u8; 32]) -> ProviderSlot<Box<dyn KeyProvider>> {
    let mut slot: ProviderSlot<Box<dyn KeyProvider>> = ProviderSlot::new();
    init_provider(&mut slot, Box::new(FixedKeyProvider(key)));
    slot
}

#[test]
fn encrypt_decrypt_roundtrip() {
    let key = [7u8; 32];
    let plaintext = b"{\"auth_token\":\"authcookie_secret\"}";
    let encrypted = encrypt_with(&key, plaintext).unwrap();

    assert!(is_encrypted(&encrypted));
    assert!(encrypted.starts_with(&magic_bytes()));
    assert!(!encrypted.windows(plaintext.len()).any(|w| w == plaintext));

    let decrypted = decrypt_with(&key, &encrypted).unwrap();
    assert_eq!(decrypted, plaintext);
}

#[test]
fn nonce_is_randomized_per_encryption() {
    let key = [3u8; 32];
    let plaintext = b"same input";
    let a = encrypt_with(&key, plaintext).unwrap();
    let b = encrypt_with(&key, plaintext).unwrap();
    assert_ne!(a, b);
}

#[test]
fn wrong_key_fails_to_decrypt() {
    let key = [1u8; 32];
    let wrong = [2u8; 32];
    let encrypted = encrypt_with(&key, b"secret").unwrap();
    assert!(decrypt_with(&wrong, &encrypted).is_err());
}

#[test]
fn tamper_is_detected() {
    let key = [9u8; 32];
    let mut encrypted = encrypt_with(&key, b"secret payload").unwrap();
    let last = encrypted.len() - 1;
    encrypted[last] ^= 0xff;
    assert!(decrypt_with(&key, &encrypted).is_err());
}

#[test]
fn decode_or_migrate_handles_plaintext() {
    let slot: ProviderSlot<Box<dyn KeyProvider>> = ProviderSlot::new();
    let plaintext = br#"{"accounts":{}}"#;
    assert!(!is_encrypted(plaintext));
    let (bytes, was_plaintext) = decode_or_migrate(&slot, plaintext).unwrap();
    assert_eq!(bytes, plaintext);
    assert!(was_plaintext);
}

#[test]
fn decode_or_migrate_via_provider_roundtrip() {
    let mut slot: ProviderSlot<Box<dyn KeyProvider>> = ProviderSlot::new();
    init_provider(&mut slot, Box::new(FixedKeyProvider([5u8; 32])));
    let plaintext = br#"{"cookies":"value"}"#;
    let encrypted = encrypt_bytes(&slot, plaintext).unwrap();
    let (bytes, was_plaintext) = decode_or_migrate(&slot, &encrypted).unwrap();
    assert_eq!(bytes, plaintext);
    assert!(!was_plaintext);
}

#[test]
fn envelope_layout_and_length() {
    let key = [4u8; 32];
    let plaintext = b"abc";
    let encrypted = encrypt_with(&key, plaintext).unwrap();
    assert_eq!(encrypted.len(), 6 + 12 + 3 + 16);
    assert_eq!(&encrypted[..6], b"VPENC1");
}

#[test]
fn empty_plaintext_roundtrip() {
    let key = [8u8; 32];
    let encrypted = encrypt_with(&key, b"").unwrap();
    assert_eq!(encrypted.len(), 34);
    assert_eq!(decrypt_with(&key, &encrypted).unwrap(), Vec::<u8>::new());
}

#[test]
fn is_encrypted_checks_the_header_exactly() {
    assert!(is_encrypted(b"VPENC1"));
    assert!(is_encrypted(b"VPENC1 and more"));
    assert!(!is_encrypted(b"VPENC"));
    assert!(!is_encrypted(b"VPENC2xxxxxxxxxxxxxxxx"));
    assert!(!is_encrypted(b""));
    assert!(!is_encrypted(b"{\"a\":1}"));
}

#[test]
fn decrypt_without_header_is_refused() {
    let key = [1u8; 32];
    assert_eq!(decrypt_with(&key, b"{\"a\":1}"), Err("暗号化ヘッダがありません".to_string()));
    assert_eq!(decrypt_with(&key, b""), Err("暗号化ヘッダがありません".to_string()));
}

#[test]
fn decrypt_truncated_envelope_is_refused() {
    let key = [1u8; 32];
    assert_eq!(decrypt_with(&key, b"VPENC1"), Err("暗号化データが短すぎます".to_string()));
    assert_eq!(decrypt_with(&key, b"VPENC1abcdefghijk"), Err("暗号化データが短すぎます".to_string()));
}

#[test]
fn decrypt_envelope_without_tag_is_rejected() {
    let key = [1u8; 32];
    assert_eq!(
        decrypt_with(&key, b"VPENC1abcdefghijkl"),
        Err("復号に失敗（鍵不一致または改ざん）".to_string())
    );
}

#[test]
fn uninitialized_slot_refuses_key_operations() {
    let slot: ProviderSlot<FixedKeyProvider> = ProviderSlot::new();
    assert!(!slot.is_initialized());
    let message = Err("secure_store provider未初期化".to_string());
    assert_eq!(encrypt_bytes(&slot, b"x"), message);
    assert_eq!(decrypt_bytes(&slot, b"VPENC1"), message);
    assert_eq!(decode_or_migrate(&slot, b"VPENC1 whatever"), Err("secure_store provider未初期化".to_string()));
    assert_eq!(encrypt_if_plaintext(&slot, b"plain"), Err("secure_store provider未初期化".to_string()));
}

#[test]
fn provider_error_is_passed_on() {
    let mut slot: ProviderSlot<FailingProvider> = ProviderSlot::new();
    init_provider(&mut slot, FailingProvider);
    assert_eq!(encrypt_bytes(&slot, b"x"), Err("keychain unavailable".to_string()));
    assert_eq!(decrypt_bytes(&slot, b"VPENC1"), Err("keychain unavailable".to_string()));
}

#[test]
fn second_init_keeps_first_provider() {
    let mut slot: ProviderSlot<Box<dyn KeyProvider>> = ProviderSlot::new();
    init_provider(&mut slot, Box::new(FixedKeyProvider([1u8; 32])));
    init_provider(&mut slot, Box::new(FixedKeyProvider([2u8; 32])));
    assert!(slot.is_initialized());
    let encrypted = encrypt_bytes(&slot, b"first key").unwrap();
    assert_eq!(decrypt_with(&[1u8; 32], &encrypted).unwrap(), b"first key".to_vec());
    assert!(decrypt_with(&[2u8; 32], &encrypted).is_err());
}

#[test]
fn decrypt_bytes_reads_encrypt_bytes() {
    let slot = slot_with([6u8; 32]);
    let encrypted = encrypt_bytes(&slot, b"payload").unwrap();
    assert_eq!(decrypt_bytes(&slot, &encrypted).unwrap(), b"payload".to_vec());
}

#[test]
fn migration_is_one_way() {
    let slot = slot_with([2u8; 32]);
    let plain = b"{\"cookies\":[]}";
    let migrated = encrypt_if_plaintext(&slot, plain).unwrap().unwrap();
    assert!(is_encrypted(&migrated));
    assert_eq!(encrypt_if_plaintext(&slot, &migrated).unwrap(), None);
    let (bytes, was_plaintext) = decode_or_migrate(&slot, &migrated).unwrap();
    assert_eq!(bytes, plain.to_vec());
    assert!(!was_plaintext);
}

#[test]
fn decode_or_migrate_reports_decryption_errors() {
    let slot = slot_with([2u8; 32]);
    let other = encrypt_with(&[3u8; 32], b"data").unwrap();
    assert_eq!(
        decode_or_migrate(&slot, &other),
        Err("復号に失敗（鍵不一致または改ざん）".to_string())
    );
}

#[test]
fn decrypt_of_envelope_shorter_than_tag_is_rejected() {
    let key = [1u8; 32];
    assert_eq!(
        decrypt_with(&key, b"VPENC1abcdefghijklmn"),
        Err("復号に失敗（鍵不一致または改ざん）".to_string())
    );
}

#[test]
fn seal_envelope_frames_the_given_nonce() {
    let key = [5u8; 32];
    let nonce = [9u8; 12];
    let out = seal_envelope(&key, &nonce, b"hello").unwrap();
    assert_eq!(&out[..6], b"VPENC1");
    assert_eq!(&out[6..18], &nonce);
    assert_eq!(out.len(), 6 + 12 + 5 + 16);
    assert_eq!(seal_envelope(&key, &nonce, b"hello").unwrap(), out);
    assert_eq!(decrypt_with(&key, &out).unwrap(), b"hello".to_vec());
}
