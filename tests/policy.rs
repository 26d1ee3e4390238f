use vaulty::error::VaultError;
use vaulty::lockout::{ensure_lock_not_active, register_failure, set_lock, unlock_step, LockCheck, UnlockAction, LOCK_SECONDS,
    MAX_ATTEMPTS};
use vaulty::models::Vault;
use vaulty::passgen::{generate_strong_password, generate_strong_password_seeded};
use vaulty::paths::{check_real_location, validate_real_location, config_path, default_base_dir, join_path, lock_path, meta_path,
    resolve_vault_dir_under_home, vault_path};
use vaulty::revision::{advance_revision, after_unlock, next_revision, trusted_record, verify_loaded_revision, PostUnlock};
use vaulty::secrets::{new_uuid, uuid_from_bytes, zeroize_sensitive};
use vaulty::store::{load_trusted_revision, parse_u64, revision_text};
use vaulty::unlock::StoreRead;

#[test]
fn rollback_detection() {
    assert_eq!(verify_loaded_revision(4, &Ok(Some(5))), Err(VaultError::RollbackDetected { loaded: 4, trusted: 5 }));
    assert_eq!(verify_loaded_revision(5, &Ok(Some(5))), Ok(None));
    assert_eq!(verify_loaded_revision(7, &Ok(Some(5))), Ok(Some(7)));
    assert_eq!(verify_loaded_revision(0, &Ok(None)), Ok(Some(0)));
    assert_eq!(verify_loaded_revision(0, &Err(VaultError::ExternalStore)), Ok(None));
}

#[test]
fn revision_counts_saves_and_saturates() {
    let mut v = Vault::empty();
    advance_revision(&mut v);
    advance_revision(&mut v);
    advance_revision(&mut v);
    assert_eq!(v.revision, 3);
    assert_eq!(next_revision(u64::MAX), u64::MAX);
}

#[test]
fn lockout_after_three_failures() {
    let (c1, l1) = register_failure(0);
    let (c2, l2) = register_failure(c1);
    let (c3, l3) = register_failure(c2);
    assert_eq!((c1, c2, c3), (1, 2, 3));
    assert!(!l1 && !l2 && l3);
    assert_eq!(MAX_ATTEMPTS, 3);
    let now = 1_000_000u64;
    let until = set_lock(now, LOCK_SECONDS);
    assert_eq!(until, now + 120);
    assert_eq!(LOCK_SECONDS, 120);
    assert_eq!(ensure_lock_not_active(Some(until), now + 1), LockCheck::Active { remaining: 119 });
    assert_eq!(ensure_lock_not_active(Some(until), until), LockCheck::Expired);
    assert_eq!(ensure_lock_not_active(None, now), LockCheck::Clear);
    assert_eq!(set_lock(u64::MAX - 1, LOCK_SECONDS), u64::MAX);
    assert_eq!(set_lock(10, 5), 15);
}

#[test]
fn unlock_session_steps() {
    let now = 500u64;
    let (f1, a1) = unlock_step(0, false, now);
    assert_eq!(a1, UnlockAction::Retry { attempts_left: 2 });
    let (f2, a2) = unlock_step(f1, false, now);
    assert_eq!(a2, UnlockAction::Retry { attempts_left: 1 });
    let (f3, a3) = unlock_step(f2, false, now);
    assert_eq!(a3, UnlockAction::LockAndExit { unlock_at: 620 });
    assert_eq!(f3, 3);
    assert_eq!(unlock_step(2, true, now), (2, UnlockAction::Proceed));
}

#[test]
fn path_validation() {
    assert_eq!(resolve_vault_dir_under_home("../outside", "/home/u"), Err(VaultError::PathValidation));
    assert_eq!(resolve_vault_dir_under_home("vaults/personal", "/home/u"), Ok("/home/u/vaults/personal".to_string()));
    assert_eq!(resolve_vault_dir_under_home("/home/u/x", "/home/u"), Ok("/home/u/x".to_string()));
    assert_eq!(resolve_vault_dir_under_home("/etc", "/home/u"), Err(VaultError::PathValidation));
    assert_eq!(resolve_vault_dir_under_home("/home/user2", "/home/u"), Err(VaultError::PathValidation));
    assert_eq!(resolve_vault_dir_under_home("a/./b", "/home/u/"), Ok("/home/u/a/./b".to_string()));
    assert_eq!(resolve_vault_dir_under_home("/home/u/a/../../etc", "/home/u"), Err(VaultError::PathValidation));
}

#[test]
fn symlink_target_outside_home_is_rejected() {
    assert_eq!(check_real_location("/tmp/elsewhere", "/home/u"), Err(VaultError::PathValidation));
    assert_eq!(check_real_location("/home/u/vaults", "/home/u"), Ok(()));
    assert_eq!(check_real_location("/home/u", "/home/u"), Ok(()));
}

#[test]
fn storage_paths() {
    assert_eq!(default_base_dir("/home/u"), "/home/u/.terminal-vault");
    assert_eq!(config_path("/home/u"), "/home/u/.terminal-vault/config.json");
    assert_eq!(vault_path("/d"), "/d/vault.json");
    assert_eq!(lock_path("/d/"), "/d/lock.json");
    assert_eq!(meta_path("/d"), "/d/meta.json");
    assert_eq!(join_path("/d", "/abs"), "/abs");
}

#[test]
fn generated_passwords_are_strong() {
    for len in [0usize, 12, 20, 40] {
        let p = generate_strong_password(len).unwrap();
        assert_eq!(p.chars().count(), len.max(12));
        assert!(p.chars().any(|c| c.is_ascii_uppercase()));
        assert!(p.chars().any(|c| c.is_ascii_lowercase()));
        assert!(p.chars().any(|c| c.is_ascii_digit()));
        assert!(p.chars().any(|c| "!@#$%^&*()-_=+[]{};:,.?".contains(c)));
        assert!(!p.contains('I') && !p.contains('O') && !p.contains('l') && !p.contains('0') && !p.contains('1'));
    }
}

#[test]
fn seeded_generation_is_reproducible() {
    let a = generate_strong_password_seeded(16, 7);
    let b = generate_strong_password_seeded(16, 7);
    let c = generate_strong_password_seeded(16, 8);
    assert_eq!(a, b);
    assert_ne!(a, c);
    assert_eq!(a.chars().count(), 16);
    assert!(a.chars().any(|ch| ch.is_ascii_uppercase()) && a.chars().any(|ch| ch.is_ascii_digit()));
}

#[test]
fn uuid_format() {
    let bytes: Vec<u8> = (0u8..16).map(|i| i * 17).collect();
    assert_eq!(uuid_from_bytes(&bytes), "00112233-4455-4677-8899-aabbccddeeff");
    let id = new_uuid().unwrap();
    assert_eq!(id.len(), 36);
    assert_eq!(id.as_bytes()[14], b'4');
    assert_ne!(new_uuid().unwrap(), id);
}

#[test]
fn zeroize_clears_everything_but_revision() {
    let mut v = Vault::empty();
    v.revision = 9;
    v.entries.push(vaulty::models::Entry {
        id: "i".to_string(), name: "n".to_string(), email: "e".to_string(), password: "p".to_string(),
        username: None, notes: None,
    });
    v.notes.push(vaulty::models::Note { id: "j".to_string(), title: "t".to_string(), content: "c".to_string() });
    let mut pass = "secret".to_string();
    zeroize_sensitive(&mut v, &mut pass);
    assert!(v.entries.is_empty() && v.notes.is_empty());
    assert_eq!(v.revision, 9);
    assert!(pass.is_empty());
}

#[test]
fn trusted_revision_text() {
    assert_eq!(revision_text(0), "0");
    assert_eq!(revision_text(1234), "1234");
    assert_eq!(parse_u64(&revision_text(u64::MAX)), Some(u64::MAX));
    assert_eq!(parse_u64("+17"), Some(17));
    assert_eq!(parse_u64("18446744073709551616"), None);
    assert_eq!(parse_u64(""), None);
    assert_eq!(parse_u64("+"), None);
    assert_eq!(parse_u64("12a"), None);
    assert_eq!(load_trusted_revision(&StoreRead::Present("42".to_string())), Ok(Some(42)));
    assert_eq!(load_trusted_revision(&StoreRead::Present("x".to_string())), Err(VaultError::ExternalStore));
    assert_eq!(load_trusted_revision(&StoreRead::Absent), Ok(None));
    assert_eq!(load_trusted_revision(&StoreRead::Failed), Err(VaultError::ExternalStore));
}


#[test]
fn post_unlock_checks_before_migrating() {
    assert_eq!(after_unlock(5, true, &Ok(Some(10))), Err(VaultError::RollbackDetected { loaded: 5, trusted: 10 }));
    assert_eq!(after_unlock(5, false, &Ok(Some(10))), Err(VaultError::RollbackDetected { loaded: 5, trusted: 10 }));
    assert_eq!(
        after_unlock(5, true, &Ok(Some(5))),
        Ok(PostUnlock { save_revision: Some(6), record_trusted: Some(6) })
    );
    assert_eq!(after_unlock(7, false, &Ok(Some(5))), Ok(PostUnlock { save_revision: None, record_trusted: Some(7) }));
    assert_eq!(after_unlock(5, false, &Ok(Some(5))), Ok(PostUnlock { save_revision: None, record_trusted: None }));
    assert_eq!(
        after_unlock(0, true, &Ok(None)),
        Ok(PostUnlock { save_revision: Some(1), record_trusted: Some(1) })
    );
    assert_eq!(
        after_unlock(3, true, &Err(VaultError::ExternalStore)),
        Ok(PostUnlock { save_revision: Some(4), record_trusted: None })
    );
}

#[test]
fn saves_never_lower_the_trusted_revision() {
    assert_eq!(trusted_record(6, &Ok(Some(10))), None);
    assert_eq!(trusted_record(11, &Ok(Some(10))), Some(11));
    assert_eq!(trusted_record(1, &Ok(None)), Some(1));
    assert_eq!(trusted_record(1, &Err(VaultError::ExternalStore)), None);
}

#[test]
fn real_location_rule() {
    let home = "/home/u";
    assert_eq!(validate_real_location(&Some("/home/u/v".to_string()), &None, home), Ok(()));
    assert_eq!(validate_real_location(&Some("/etc/v".to_string()), &None, home), Err(VaultError::PathValidation));
    assert_eq!(validate_real_location(&None, &Some("/home/u".to_string()), home), Ok(()));
    assert_eq!(validate_real_location(&None, &Some("/tmp".to_string()), home), Err(VaultError::PathValidation));
    assert_eq!(validate_real_location(&None, &None, home), Ok(()));
}
