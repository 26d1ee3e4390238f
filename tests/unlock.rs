use base64::Engine;
use argon2::password_hash::{PasswordHasher, SaltString};
use vaulty::crypto::{encrypt_with_key, encrypt_with_password, encrypt_with_password_using, decrypt_with_password, KdfParams};
use vaulty::envelope::save_vault_using;
use vaulty::error::VaultError;
use vaulty::models::Meta;
use vaulty::unlock::{attempt_unlock, load_wrapped_key, verify_master, StoreRead, VaultFile};

fn phc_hash(password: &str) -> String {
    let salt = SaltString::encode_b64(b"0123456789abcdef").unwrap();
    argon2::Argon2::default().hash_password(password.as_bytes(), &salt).unwrap().to_string()
}

fn b64(bytes: &[u8]) -> String {
    base64::engine::general_purpose::STANDARD.encode(bytes)
}

#[test]
fn missing_vault_is_not_found() {
    let r = attempt_unlock(&None, &None, &StoreRead::Absent, "pw");
    assert_eq!(r.unwrap_err(), VaultError::NotFound);
}

#[test]
fn legacy_record_round_trip() {
    let rec = encrypt_with_password_using("old pass", b"legacy", &[1u8; 16], &[2u8; 12]).unwrap();
    assert_eq!(rec.salt, b64(&[1u8; 16]));
    let fresh = encrypt_with_password("old pass", b"legacy").unwrap();
    let engine = base64::engine::general_purpose::STANDARD;
    assert_eq!(engine.decode(&fresh.salt).unwrap().len(), 16);
    assert_eq!(engine.decode(&fresh.nonce).unwrap().len(), 12);
    assert_eq!(decrypt_with_password("old pass", &rec).unwrap(), b"legacy".to_vec());
    assert_eq!(decrypt_with_password("other", &rec), Err(VaultError::Decryption));
}

#[test]
fn legacy_migration_then_wrapped_unlock() {
    let rec = encrypt_with_password("pw", br#"{"revision":0}"#).unwrap();
    let first = attempt_unlock(&Some(VaultFile::Single(rec)), &None, &StoreRead::Absent, "pw").unwrap();
    assert!(first.migrate);
    assert_eq!(first.plaintext, br#"{"revision":0}"#.to_vec());
    let params = KdfParams { m_cost: 8, t_cost: 1, p_cost: 1 };
    let resaved = save_vault_using(br#"{"revision":1}"#, "pw", params, &[5u8; 16], &[6u8; 32], &[7u8; 12], &[8u8; 12]).unwrap();
    let second = attempt_unlock(&Some(VaultFile::Wrapped(resaved)), &None, &StoreRead::Absent, "pw").unwrap();
    assert!(!second.migrate);
    assert_eq!(second.plaintext, br#"{"revision":1}"#.to_vec());
}

#[test]
fn legacy_with_meta_prefers_stored_key() {
    let key = [42u8; 32];
    let rec = encrypt_with_key(&key, b"keyed").unwrap();
    let meta = Meta { master_hash: phc_hash("pw") };
    let read = StoreRead::Present(b64(&key));
    let out = attempt_unlock(&Some(VaultFile::Single(rec)), &Some(meta), &read, "pw").unwrap();
    assert!(out.migrate);
    assert_eq!(out.plaintext, b"keyed".to_vec());
}

#[test]
fn legacy_with_meta_falls_back_to_passphrase() {
    let rec = encrypt_with_password("pw", b"by password").unwrap();
    let meta = Meta { master_hash: phc_hash("pw") };
    let read = StoreRead::Present(b64(&[1u8; 32]));
    let out = attempt_unlock(&Some(VaultFile::Single(rec.clone())), &Some(meta.clone()), &read, "pw").unwrap();
    assert_eq!(out.plaintext, b"by password".to_vec());
    let none = attempt_unlock(&Some(VaultFile::Single(rec)), &Some(meta), &StoreRead::Absent, "pw").unwrap();
    assert_eq!(none.plaintext, b"by password".to_vec());
}

#[test]
fn legacy_with_meta_rejects_wrong_passphrase_before_decrypting() {
    let rec = encrypt_with_password("pw", b"x").unwrap();
    let meta = Meta { master_hash: phc_hash("pw") };
    let r = attempt_unlock(&Some(VaultFile::Single(rec)), &Some(meta), &StoreRead::Failed, "nope");
    assert_eq!(r.unwrap_err(), VaultError::Decryption);
}

#[test]
fn legacy_key_store_failure_is_hard() {
    let rec = encrypt_with_password("pw", b"x").unwrap();
    let meta = Meta { master_hash: phc_hash("pw") };
    let r = attempt_unlock(&Some(VaultFile::Single(rec)), &Some(meta), &StoreRead::Failed, "pw");
    assert_eq!(r.unwrap_err(), VaultError::ExternalStore);
}

#[test]
fn verify_master_outcomes() {
    let h = phc_hash("pw");
    assert_eq!(verify_master("pw", &h), Ok(()));
    assert_eq!(verify_master("other", &h), Err(VaultError::Decryption));
    assert_eq!(verify_master("pw", "not a hash"), Err(VaultError::Format));
}

#[test]
fn legacy_key_decoding() {
    assert_eq!(load_wrapped_key(&StoreRead::Absent), Ok(None));
    assert_eq!(load_wrapped_key(&StoreRead::Failed), Err(VaultError::ExternalStore));
    assert_eq!(load_wrapped_key(&StoreRead::Present(b64(&[9u8; 32]))), Ok(Some(vec![9u8; 32])));
    assert_eq!(load_wrapped_key(&StoreRead::Present(b64(&[9u8; 31]))), Err(VaultError::ExternalStore));
    assert_eq!(load_wrapped_key(&StoreRead::Present("***".to_string())), Err(VaultError::ExternalStore));
}

#[test]
fn hash_with_huge_lane_count_is_a_format_error() {
    let h = phc_hash("pw");
    assert!(h.contains(",p=1$"));
    let huge = h.replace(",p=1$", ",p=536870912$");
    assert_eq!(verify_master("pw", &huge), Err(VaultError::Format));
    let above_limit = h.replace(",p=1$", ",p=16777216$");
    assert_eq!(verify_master("pw", &above_limit), Err(VaultError::Format));
}

#[test]
fn hash_with_repeated_lane_parameter_is_a_format_error() {
    let h = phc_hash("pw");
    let repeated = h.replace(",p=1$", ",p=1,p=4294967295$");
    assert_eq!(verify_master("pw", &repeated), Err(VaultError::Format));
    let bounded = h.replace(",p=1$", ",p=1,p=1$");
    assert_eq!(verify_master("pw", &bounded), Ok(()));
    let not_decimal = h.replace(",p=1$", ",p=x$");
    assert_eq!(verify_master("pw", &not_decimal), Err(VaultError::Format));
}

#[test]
fn decryption_failures_share_one_message() {
    assert_eq!(VaultError::Decryption.message(), "decryption failed: wrong key or corrupted data");
    assert_eq!(VaultError::Format.message(), "corrupt or unsupported file");
    assert_eq!(VaultError::RollbackDetected { loaded: 1, trusted: 2 }.message(), "vault rollback detected");
}
