use argon2::password_hash::PasswordVerifier;
use vstd::prelude::*;
use crate::crypto::{b64_decode, b64_decoded, bytes_result, decrypt_with_password, open_record, open_with_key,
    open_with_password, KEY_LEN};
use crate::crypto::KdfParams;
use crate::revision::{post_unlock, spec_next_revision, PostUnlock};
use crate::envelope::{load_vault, open_wrapped, wrapped_from, WrappedVaultFile};
use crate::error::VaultError;
use crate::models::{EncryptedVault, Meta};
use crate::store::{parse_u64, parsed_u64};
use crate::text::same_text;
use crate::secrets::wipe_bytes;

verus! {

/// A vault file as parsed from disk: the wrapped shape, or a single-layer
/// legacy record.
#[derive(Debug, Clone)]
pub enum VaultFile {
    Wrapped(WrappedVaultFile),
    Single(EncryptedVault),
}

/// What a read of one entry of the external secret store gave.
#[derive(Debug, Clone)]
pub enum StoreRead {
    /// The entry does not exist.
    Absent,
    /// The entry holds this text.
    Present(String),
    /// The store failed for another reason than absence.
    Failed,
}

/// A successful unlock: the serialized vault, and whether it came from a
/// legacy shape and must be re-saved in the wrapped shape.
#[derive(Debug, Clone)]
pub struct Unlocked {
    pub plaintext: Vec<u8>,
    pub migrate: bool,
}

/// How a self-describing password hash parses: nothing if it cannot be
/// parsed, else its parameter pairs (name, value) in order.
pub uninterp spec fn phc_params(stored_hash: Seq<char>) -> Option<Seq<(Seq<char>, Seq<char>)>>;

/// Whether a passphrase matches a parseable self-describing password hash.
pub uninterp spec fn phc_verdict(password: Seq<char>, stored_hash: Seq<char>) -> bool;

/// The most lanes that Argon2 accepts.
pub const MAX_LANES: u64 = 0xFF_FFFF;

pub open spec fn pair_views(v: Seq<(String, String)>) -> Seq<(Seq<char>, Seq<char>)> {
    v.map_values(|p: (String, String)| (p.0@, p.1@))
}

/// Relies on password-hash's `PasswordHash::new` (parses the stored PHC
/// string; an error if it is not one) and `ParamsString::iter` (every
/// parameter pair, in order, repeated names included).
#[verifier::external_body]
fn parse_phc_params(stored_hash: &str) -> (r: Option<Vec<(String, String)>>)
    ensures
        match r {
            None => phc_params(stored_hash@) is None,
            Some(v) => phc_params(stored_hash@) == Some(pair_views(v@)),
        },
{
    match argon2::password_hash::PasswordHash::new(stored_hash) {
        Ok(parsed) => Some(parsed.params.iter().map(|(k, v)| (k.as_str().to_string(), v.as_str().to_string())).collect()),
        Err(_) => None,
    }
}

/// Every `p` (lanes) parameter is a decimal number of at most `MAX_LANES`.
/// Argon2 applies each `p` it reads and computes `8 * p` in 32 bits, so
/// every occurrence is bounded.
pub open spec fn lanes_bounded(params: Seq<(Seq<char>, Seq<char>)>) -> bool {
    forall|i: int| 0 <= i < params.len() && #[trigger] params[i].0 == "p"@
        ==> (parsed_u64(params[i].1) matches Some(v) && v <= MAX_LANES)
}

/// Relies on password-hash's `PasswordHash::new` and argon2's
/// `PasswordVerifier::verify_password`, which recomputes the hash with the
/// parameters and salt that the string records. Argon2 computes `8 * p` in
/// 32 bits while checking the parameters, so every `p` is bounded here.
#[verifier::external_body]
fn check_password_hash(password: &str, stored_hash: &str) -> (r: bool)
    requires
        phc_params(stored_hash@) matches Some(params) && lanes_bounded(params),
    ensures
        r == phc_verdict(password@, stored_hash@),
{
    match argon2::password_hash::PasswordHash::new(stored_hash) {
        Ok(parsed) => argon2::Argon2::default().verify_password(password.as_bytes(), &parsed).is_ok(),
        Err(_) => false,
    }
}

fn check_lanes(params: &Vec<(String, String)>) -> (r: bool)
    ensures
        r == lanes_bounded(pair_views(params@)),
{
    let mut i: usize = 0;
    while i < params.len()
        invariant
            i <= params@.len(),
            forall|j: int| 0 <= j < i && #[trigger] pair_views(params@)[j].0 == "p"@
                ==> (parsed_u64(pair_views(params@)[j].1) matches Some(v) && v <= MAX_LANES),
        decreases params@.len() - i,
    {
        let (name, value) = &params[i];
        assert(pair_views(params@)[i as int] == (name@, value@));
        if same_text(name.as_str(), "p") {
            assert(pair_views(params@)[i as int].0 == "p"@);
            match parse_u64(value.as_str()) {
                Some(v) => if v > MAX_LANES {
                    assert(!lanes_bounded(pair_views(params@)));
                    return false;
                },
                None => {
                    assert(!lanes_bounded(pair_views(params@)));
                    return false;
                },
            }
        }
        assert(pair_views(params@)[i as int].0 == "p"@ ==> (parsed_u64(pair_views(params@)[i as int].1) matches Some(
            v,
        ) && v <= MAX_LANES));
        i += 1;
    }
    true
}

/// What authenticating a passphrase against a legacy hash yields: a hash
/// that does not parse, or with a `p` that Argon2 cannot take, is a format
/// error.
pub open spec fn master_check(password: Seq<char>, stored_hash: Seq<char>) -> Result<(), VaultError> {
    match phc_params(stored_hash) {
        None => Err(VaultError::Format),
        Some(params) => if !lanes_bounded(params) {
            Err(VaultError::Format)
        } else if phc_verdict(password, stored_hash) {
            Ok(())
        } else {
            Err(VaultError::Decryption)
        },
    }
}

/// Authenticates a passphrase against the legacy meta file's hash. This is
/// a hash verification, not a decryption.
pub fn verify_master(master: &str, stored: &str) -> (r: Result<(), VaultError>)
    ensures
        r == master_check(master@, stored@),
{
    match parse_phc_params(stored) {
        None => Err(VaultError::Format),
        Some(params) => {
            if !check_lanes(&params) {
                return Err(VaultError::Format);
            }
            if check_password_hash(master, stored) {
                Ok(())
            } else {
                Err(VaultError::Decryption)
            }
        },
    }
}

/// The legacy raw key that a store read gives: absent, a 32-byte key, or a
/// store failure (which includes a stored value that is not such a key).
pub open spec fn legacy_key_of(read: StoreRead) -> Result<Option<Seq<u8>>, VaultError> {
    match read {
        StoreRead::Absent => Ok(None),
        StoreRead::Failed => Err(VaultError::ExternalStore),
        StoreRead::Present(s) => match b64_decoded(s@) {
            None => Err(VaultError::ExternalStore),
            Some(k) => if k.len() != KEY_LEN {
                Err(VaultError::ExternalStore)
            } else {
                Ok(Some(k))
            },
        },
    }
}

/// Interprets the store's legacy-key entry: absence is not an error, any
/// other failure is.
pub fn load_wrapped_key(read: &StoreRead) -> (r: Result<Option<Vec<u8>>, VaultError>)
    ensures
        match r {
            Ok(Some(k)) => legacy_key_of(*read) == Ok::<Option<Seq<u8>>, VaultError>(Some(k@)),
            Ok(None) => legacy_key_of(*read) == Ok::<Option<Seq<u8>>, VaultError>(None),
            Err(e) => legacy_key_of(*read) == Err::<Option<Seq<u8>>, VaultError>(e),
        },
{
    match read {
        StoreRead::Absent => Ok(None),
        StoreRead::Failed => Err(VaultError::ExternalStore),
        StoreRead::Present(s) => match b64_decode(s.as_str()) {
            Err(_) => Err(VaultError::ExternalStore),
            Ok(k) => if k.len() != KEY_LEN {
                Err(VaultError::ExternalStore)
            } else {
                Ok(Some(k))
            },
        },
    }
}

/// Opens a legacy single-layer record with a raw key.
pub fn load_vault_with_key(enc: &EncryptedVault, key: &[u8; 32]) -> (r: Result<Vec<u8>, VaultError>)
    ensures
        bytes_result(r) == open_with_key(key@, *enc),
{
    open_record(key.as_slice(), enc)
}

/// Opens a legacy single-layer record with a passphrase.
pub fn load_vault_legacy(enc: &EncryptedVault, master_password: &str) -> (r: Result<Vec<u8>, VaultError>)
    ensures
        bytes_result(r) == open_with_password(master_password, *enc),
{
    decrypt_with_password(master_password, enc)
}

/// A legacy plaintext, marked for migration.
pub open spec fn migrating(r: Result<Seq<u8>, VaultError>) -> Result<(Seq<u8>, bool), VaultError> {
    match r {
        Ok(p) => Ok((p, true)),
        Err(e) => Err(e),
    }
}

/// The unlock protocol, in fixed priority: the wrapped shape; else a legacy
/// record with a meta file (hash check, then the stored raw key, then the
/// passphrase); else a legacy record opened with the passphrase.
pub open spec fn unlock_outcome(file: Option<VaultFile>, meta: Option<Meta>, legacy_key: StoreRead, password: &str)
    -> Result<(Seq<u8>, bool), VaultError>
{
    match file {
        None => Err(VaultError::NotFound),
        Some(VaultFile::Wrapped(f)) => match open_wrapped(f, password) {
            Ok(p) => Ok((p, false)),
            Err(e) => Err(e),
        },
        Some(VaultFile::Single(rec)) => match meta {
            None => migrating(open_with_password(password, rec)),
            Some(m) => match master_check(password@, m.master_hash@) {
                Err(e) => Err(e),
                Ok(_) => match legacy_key_of(legacy_key) {
                    Err(e) => Err(e),
                    Ok(None) => migrating(open_with_password(password, rec)),
                    Ok(Some(k)) => match open_with_key(k, rec) {
                        Ok(p) => Ok((p, true)),
                        Err(_) => migrating(open_with_password(password, rec)),
                    },
                },
            },
        },
    }
}

/// One unlock attempt with a passphrase, over what was read from disk and
/// from the secret store.
pub fn attempt_unlock(file: &Option<VaultFile>, meta: &Option<Meta>, legacy_key: &StoreRead, password: &str)
    -> (r: Result<Unlocked, VaultError>)
    ensures
        match r {
            Ok(u) => unlock_outcome(*file, *meta, *legacy_key, password)
                == Ok::<(Seq<u8>, bool), VaultError>((u.plaintext@, u.migrate)),
            Err(e) => unlock_outcome(*file, *meta, *legacy_key, password)
                == Err::<(Seq<u8>, bool), VaultError>(e),
        },
{
    match file {
        None => Err(VaultError::NotFound),
        Some(VaultFile::Wrapped(f)) => {
            let plaintext = load_vault(f, password)?;
            Ok(Unlocked { plaintext, migrate: false })
        },
        Some(VaultFile::Single(rec)) => match meta {
            None => {
                let plaintext = load_vault_legacy(rec, password)?;
                Ok(Unlocked { plaintext, migrate: true })
            },
            Some(m) => {
                verify_master(password, m.master_hash.as_str())?;
                let plaintext = match load_wrapped_key(legacy_key)? {
                    Some(mut k) => {
                        let keyed = open_record(k.as_slice(), rec);
                        wipe_bytes(&mut k);
                        match keyed {
                            Ok(p) => p,
                            Err(_) => load_vault_legacy(rec, password)?,
                        }
                    },
                    None => load_vault_legacy(rec, password)?,
                };
                Ok(Unlocked { plaintext, migrate: true })
            },
        },
    }
}

/// Legacy migration: a legacy record that opens with the passphrase
/// unlocks and is marked for re-saving, at the revision after the loaded
/// one (when the trusted revision is not newer); once re-saved in the
/// wrapped shape, the same passphrase unlocks it through the wrapped shape
/// alone, with no further migration, whatever meta file and stored key are
/// present, and the re-saved revision passes the rollback check.
pub proof fn lemma_legacy_migration(
    rec: EncryptedVault,
    legacy_key: StoreRead,
    password: &str,
    plaintext: Seq<u8>,
    resaved: WrappedVaultFile,
    params: KdfParams,
    salt: Seq<u8>,
    dek: Seq<u8>,
    saved: Seq<u8>,
    meta: Option<Meta>,
    loaded: u64,
    trusted: Option<u64>,
)
    requires
        open_with_password(password, rec) == Ok::<Seq<u8>, VaultError>(plaintext),
        wrapped_from(resaved, password, params, salt, dek, saved),
        trusted matches Some(t) ==> t <= loaded,
    ensures
        (post_unlock(loaded, true, Ok(trusted)) matches Ok(p) && p.save_revision == Some(spec_next_revision(loaded))),
        post_unlock(spec_next_revision(loaded), false, Ok(Some(spec_next_revision(loaded))))
            == Ok::<PostUnlock, VaultError>(PostUnlock { save_revision: None, record_trusted: None }),
        unlock_outcome(Some(VaultFile::Single(rec)), None, legacy_key, password)
            == Ok::<(Seq<u8>, bool), VaultError>((plaintext, true)),
        unlock_outcome(Some(VaultFile::Wrapped(resaved)), meta, legacy_key, password)
            == Ok::<(Seq<u8>, bool), VaultError>((saved, false)),
{
    crate::envelope::lemma_wrapped_round_trip(resaved, password, params, salt, dek, saved);
}

} // verus!
