use base64::Engine;
use vaulty::models::Vault;
use vaulty::revision::advance_revision;
use vaulty::crypto::{decrypt_with_key, derive_key, derive_key_with_params, encrypt_with_key, encrypt_with_key_nonce, KdfParams};
use vaulty::envelope::{is_wrapped_vault_file, load_vault, save_vault, save_vault_using, WrappedVaultFile, VAULT_FORMAT_VERSION};
use vaulty::error::VaultError;
use vaulty::models::EncryptedVault;

fn light() -> KdfParams {
    KdfParams { m_cost: 8, t_cost: 1, p_cost: 1 }
}

fn save_light(plaintext: &[u8], pass: &str) -> WrappedVaultFile {
    save_vault_using(plaintext, pass, light(), &[7u8; 16], &[9u8; 32], &[1u8; 12], &[2u8; 12]).unwrap()
}

fn flip_base64_bit(text: &str, byte: usize, bit: u8) -> String {
    let mut raw = base64::engine::general_purpose::STANDARD.decode(text).unwrap();
    raw[byte] ^= 1 << bit;
    base64::engine::general_purpose::STANDARD.encode(raw)
}

#[test]
fn default_params_are_19mib_two_passes_one_lane() {
    let p = KdfParams::default();
    assert_eq!((p.m_cost, p.t_cost, p.p_cost), (19456, 2, 1));
}

#[test]
fn derive_key_is_deterministic_and_salt_sensitive() {
    let a = derive_key_with_params("pw", &[1u8; 16], light()).unwrap();
    let b = derive_key_with_params("pw", &[1u8; 16], light()).unwrap();
    let c = derive_key_with_params("pw", &[2u8; 16], light()).unwrap();
    assert_eq!(a, b);
    assert_ne!(a, c);
}

#[test]
fn derive_key_rejects_bad_params() {
    let zero_time = KdfParams { m_cost: 8, t_cost: 0, p_cost: 1 };
    assert_eq!(derive_key_with_params("pw", &[1u8; 16], zero_time), Err(VaultError::KeyDerivation));
    let zero_lanes = KdfParams { m_cost: 8, t_cost: 1, p_cost: 0 };
    assert_eq!(derive_key_with_params("pw", &[1u8; 16], zero_lanes), Err(VaultError::KeyDerivation));
    let too_little_memory = KdfParams { m_cost: 15, t_cost: 1, p_cost: 2 };
    assert_eq!(derive_key_with_params("pw", &[1u8; 16], too_little_memory), Err(VaultError::KeyDerivation));
    let too_many_lanes = KdfParams { m_cost: u32::MAX, t_cost: 1, p_cost: 0x100_0000 };
    assert_eq!(derive_key_with_params("pw", &[1u8; 16], too_many_lanes), Err(VaultError::KeyDerivation));
    assert_eq!(derive_key_with_params("pw", &[1u8; 7], light()), Err(VaultError::KeyDerivation));
}

#[test]
fn derive_key_uses_default_costs() {
    let a = derive_key("pw", &[3u8; 16]).unwrap();
    let b = derive_key_with_params("pw", &[3u8; 16], KdfParams::default()).unwrap();
    assert_eq!(a, b);
}

#[test]
fn record_round_trip_and_encoding() {
    let key = [5u8; 32];
    let rec = encrypt_with_key_nonce(&key, &[0u8; 12], b"hello").unwrap();
    assert_eq!(rec.nonce, "AAAAAAAAAAAAAAAA");
    assert_eq!(rec.salt, "");
    assert_ne!(rec.data, "aGVsbG8=");
    assert_eq!(decrypt_with_key(&key, &rec).unwrap(), b"hello".to_vec());
    let fresh = encrypt_with_key(&key, b"hello").unwrap();
    assert_eq!(fresh.salt, "");
    let engine = base64::engine::general_purpose::STANDARD;
    assert_eq!(engine.decode(&fresh.nonce).unwrap().len(), 12);
    assert_eq!(engine.decode(&fresh.data).unwrap().len(), 5 + 16);
    assert_eq!(decrypt_with_key(&key, &fresh).unwrap(), b"hello".to_vec());
}

#[test]
fn record_wrong_key_and_bad_encoding() {
    let rec = encrypt_with_key(&[5u8; 32], b"hello").unwrap();
    assert_eq!(decrypt_with_key(&[6u8; 32], &rec), Err(VaultError::Decryption));
    let bad = EncryptedVault { salt: String::new(), nonce: "not base64!".to_string(), data: rec.data.clone() };
    assert_eq!(decrypt_with_key(&[5u8; 32], &bad), Err(VaultError::Format));
    let short_nonce = EncryptedVault { salt: String::new(), nonce: "AAAA".to_string(), data: rec.data.clone() };
    assert_eq!(decrypt_with_key(&[5u8; 32], &short_nonce), Err(VaultError::Format));
}

#[test]
fn wrapped_round_trip() {
    let plaintext = br#"{"revision":3,"entries":[],"notes":[]}"#;
    let file = save_light(plaintext, "correct horse");
    assert_eq!(file.version, VAULT_FORMAT_VERSION);
    assert_eq!(load_vault(&file, "correct horse").unwrap(), plaintext.to_vec());
}

#[test]
fn wrapped_wrong_passphrase_fails_with_decryption_error() {
    let file = save_light(b"secret bytes", "right");
    assert_eq!(load_vault(&file, "wrong"), Err(VaultError::Decryption));
}

#[test]
fn wrapped_tamper_in_any_part_fails() {
    let file = save_light(b"secret bytes", "pw");
    for bit in 0..8u8 {
        let mut f = file.clone();
        f.wrapped_key.data = flip_base64_bit(&f.wrapped_key.data, 0, bit);
        assert!(load_vault(&f, "pw").is_err());
        let mut f = file.clone();
        f.vault.data = flip_base64_bit(&f.vault.data, 3, bit);
        assert!(load_vault(&f, "pw").is_err());
        let mut f = file.clone();
        f.wrapped_key.nonce = flip_base64_bit(&f.wrapped_key.nonce, 11, bit);
        assert!(load_vault(&f, "pw").is_err());
        let mut f = file.clone();
        f.vault.nonce = flip_base64_bit(&f.vault.nonce, 5, bit);
        assert!(load_vault(&f, "pw").is_err());
    }
}

#[test]
fn wrapped_unsupported_version_fails_with_format_error() {
    let mut file = save_light(b"x", "pw");
    file.version = 3;
    assert_eq!(load_vault(&file, "pw"), Err(VaultError::Format));
    let mut file = save_light(b"x", "pw");
    file.kdf_salt = "%%%".to_string();
    assert_eq!(load_vault(&file, "pw"), Err(VaultError::Format));
}

#[test]
fn saves_are_fresh() {
    let a = save_vault(b"same", "pw").unwrap();
    let b = save_vault(b"same", "pw").unwrap();
    assert_ne!(a.kdf_salt, b.kdf_salt);
    assert_ne!(a.wrapped_key.nonce, b.wrapped_key.nonce);
    assert_ne!(a.vault.nonce, b.vault.nonce);
    assert_ne!(a.wrapped_key.data, b.wrapped_key.data);
    assert_ne!(a.vault.data, b.vault.data);
    assert_eq!(a.version, b.version);
}

#[test]
fn concrete_scenario_one_entry_revision_one() {
    let mut vault = Vault::empty();
    advance_revision(&mut vault);
    assert_eq!(vault.revision, 1);
    let plaintext = br#"{"revision":1,"entries":[{"id":"0","name":"example.com","email":"a@b.com","password":"p@ss1","username":null,"notes":null}],"notes":[]}"#;
    let params = KdfParams { m_cost: 19456, t_cost: 2, p_cost: 1 };
    let file = save_vault_using(plaintext, "Str0ng!Pass", params, &[4u8; 16], &[8u8; 32], &[3u8; 12], &[6u8; 12]).unwrap();
    assert_eq!(file.kdf, params);
    let back = load_vault(&file, "Str0ng!Pass").unwrap();
    assert_eq!(back, plaintext.to_vec());
}

#[test]
fn wrapped_shape_detection() {
    let keys: Vec<String> = ["version", "kdf", "kdf_salt", "wrapped_key", "vault"].iter().map(|s| s.to_string()).collect();
    assert!(is_wrapped_vault_file(&keys));
    let legacy: Vec<String> = ["salt", "nonce", "data"].iter().map(|s| s.to_string()).collect();
    assert!(!is_wrapped_vault_file(&legacy));
    let partial: Vec<String> = ["version", "kdf", "kdf_salt", "wrapped_key"].iter().map(|s| s.to_string()).collect();
    assert!(!is_wrapped_vault_file(&partial));
}
