use telegram_cli::storage::crypto::SecretStore;

#[test]
fn secret_store_roundtrips_binary_payloads() {
    let store = SecretStore::from_key_material("test-key".as_bytes());
    let encrypted = store.encrypt_bytes(&[0, 1, 2, 254, 255]).unwrap();
    let decrypted = store.decrypt_bytes(&encrypted).unwrap();
    assert_eq!(decrypted, vec![0, 1, 2, 254, 255]);
}

#[test]
fn secret_store_roundtrips_text() {
    let store = SecretStore::from_key_material("k".as_bytes());
    let encrypted = store.encrypt_optional(Some("héllo")).unwrap().unwrap();
    assert_eq!(encrypted.nonce.len(), 12);
    assert_ne!(encrypted.ciphertext, "héllo".as_bytes().to_vec());
    assert_eq!(store.decrypt_optional(Some(&encrypted)).unwrap(), Some("héllo".to_string()));
    assert!(store.encrypt_optional(None).unwrap().is_none());
}

#[test]
fn secret_store_rejects_other_key() {
    let a = SecretStore::from_key_material("a".as_bytes());
    let b = SecretStore::from_key_material("b".as_bytes());
    let encrypted = a.encrypt_bytes(b"secret").unwrap();
    let err = b.decrypt_bytes(&encrypted).unwrap_err();
    assert_eq!(err.to_string(), "failed to decrypt secret");
}
