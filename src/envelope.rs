use vstd::prelude::*;
use crate::crypto::{
    argon2id_key, b64_decode, b64_decoded, b64_encode, b64_encoded, bytes_result, derive_key_with_params,
    encrypt_with_key_nonce, kdf_accepts, open_record, open_with_key, random_bytes, sealable, KdfParams,
    KEY_LEN, NONCE_LEN, SALT_LEN,
};
use crate::error::VaultError;
use crate::models::EncryptedVault;
use crate::secrets::{wipe_bytes, wipe_key};
use crate::text::{contains_text, has_key};

verus! {

/// The format version of the wrapped (two-layer) vault file.
pub const VAULT_FORMAT_VERSION: u8 = 2;

/// The current on-disk vault: a key-encrypting key derived from the
/// passphrase with the recorded costs and salt wraps a random
/// data-encryption key, which seals the serialized vault.
#[derive(Debug, Clone)]
pub struct WrappedVaultFile {
    pub version: u8,
    pub kdf: KdfParams,
    pub kdf_salt: String,
    pub wrapped_key: EncryptedVault,
    pub vault: EncryptedVault,
}

/// A file is of the wrapped shape iff its top-level object has all five
/// fields of that shape.
pub open spec fn wrapped_shape(keys: Seq<String>) -> bool {
    &&& has_key(keys, "version"@)
    &&& has_key(keys, "kdf"@)
    &&& has_key(keys, "kdf_salt"@)
    &&& has_key(keys, "wrapped_key"@)
    &&& has_key(keys, "vault"@)
}

/// Whether the top-level keys of a parsed vault file mark the wrapped
/// shape.
pub fn is_wrapped_vault_file(keys: &Vec<String>) -> (r: bool)
    ensures
        r == wrapped_shape(keys@),
{
    contains_text(keys, "version") && contains_text(keys, "kdf") && contains_text(keys, "kdf_salt")
        && contains_text(keys, "wrapped_key") && contains_text(keys, "vault")
}

/// What unlocking a wrapped file with a passphrase yields: the plaintext
/// vault bytes, or the first failure on the way.
pub open spec fn open_wrapped(file: WrappedVaultFile, master_password: &str) -> Result<Seq<u8>, VaultError> {
    if file.version != VAULT_FORMAT_VERSION {
        Err(VaultError::Format)
    } else {
        match b64_decoded(file.kdf_salt@) {
            None => Err(VaultError::Format),
            Some(salt) => if !kdf_accepts(master_password, salt, file.kdf) {
                Err(VaultError::KeyDerivation)
            } else {
                let kek = argon2id_key(master_password@, salt, file.kdf.m_cost, file.kdf.t_cost, file.kdf.p_cost);
                match open_with_key(kek, file.wrapped_key) {
                    Err(e) => Err(e),
                    Ok(dek) => if dek.len() != KEY_LEN {
                        Err(VaultError::Format)
                    } else {
                        open_with_key(dek, file.vault)
                    },
                }
            },
        }
    }
}

/// `file` is a wrapped file whose passphrase `master_password`, costs
/// `params` and salt `salt` give a key that opens its key record to `dek`,
/// which opens its vault record to `plaintext`.
pub open spec fn wrapped_from(
    file: WrappedVaultFile,
    master_password: &str,
    params: KdfParams,
    salt: Seq<u8>,
    dek: Seq<u8>,
    plaintext: Seq<u8>,
) -> bool {
    &&& file.version == VAULT_FORMAT_VERSION
    &&& file.kdf == params
    &&& b64_decoded(file.kdf_salt@) == Some(salt)
    &&& kdf_accepts(master_password, salt, params)
    &&& dek.len() == KEY_LEN
    &&& open_with_key(argon2id_key(master_password@, salt, params.m_cost, params.t_cost, params.p_cost), file.wrapped_key)
        == Ok::<Seq<u8>, VaultError>(dek)
    &&& open_with_key(dek, file.vault) == Ok::<Seq<u8>, VaultError>(plaintext)
}

/// Round trip: a wrapped file built from a plaintext under a passphrase
/// opens with that passphrase to exactly that plaintext.
pub proof fn lemma_wrapped_round_trip(
    file: WrappedVaultFile,
    master_password: &str,
    params: KdfParams,
    salt: Seq<u8>,
    dek: Seq<u8>,
    plaintext: Seq<u8>,
)
    requires
        wrapped_from(file, master_password, params, salt, dek, plaintext),
    ensures
        open_wrapped(file, master_password) == Ok::<Seq<u8>, VaultError>(plaintext),
{
}

/// The salt and nonce fields of `file` read back as `salt`, `key_nonce`
/// and `vault_nonce`.
pub open spec fn drawn_with(file: WrappedVaultFile, salt: Seq<u8>, key_nonce: Seq<u8>, vault_nonce: Seq<u8>) -> bool {
    &&& b64_decoded(file.kdf_salt@) == Some(salt)
    &&& b64_decoded(file.wrapped_key.nonce@) == Some(key_nonce)
    &&& b64_decoded(file.vault.nonce@) == Some(vault_nonce)
}

/// Two saves whose salts and nonces were drawn differently write
/// different salt and nonce fields: the file shows every fresh draw.
pub proof fn lemma_distinct_draws_show(
    f1: WrappedVaultFile,
    f2: WrappedVaultFile,
    salt1: Seq<u8>,
    salt2: Seq<u8>,
    key_nonce1: Seq<u8>,
    key_nonce2: Seq<u8>,
    vault_nonce1: Seq<u8>,
    vault_nonce2: Seq<u8>,
)
    requires
        drawn_with(f1, salt1, key_nonce1, vault_nonce1),
        drawn_with(f2, salt2, key_nonce2, vault_nonce2),
    ensures
        salt1 != salt2 ==> f1.kdf_salt@ != f2.kdf_salt@,
        key_nonce1 != key_nonce2 ==> f1.wrapped_key.nonce@ != f2.wrapped_key.nonce@,
        vault_nonce1 != vault_nonce2 ==> f1.vault.nonce@ != f2.vault.nonce@,
{
}

/// Builds a wrapped file from the given salt, data-encryption key and
/// nonces.
pub fn save_vault_using(
    plaintext: &[u8],
    master_password: &str,
    params: KdfParams,
    salt: &[u8],
    dek: &[u8],
    key_nonce: &[u8],
    vault_nonce: &[u8],
) -> (r: Result<WrappedVaultFile, VaultError>)
    requires
        dek@.len() == KEY_LEN,
        key_nonce@.len() == NONCE_LEN,
        vault_nonce@.len() == NONCE_LEN,
    ensures
        r is Ok <==> kdf_accepts(master_password, salt@, params) && sealable(plaintext@.len()),
        r matches Err(e) ==> (e == VaultError::KeyDerivation && !kdf_accepts(master_password, salt@, params))
            || (e == VaultError::Encryption && kdf_accepts(master_password, salt@, params)),
        r matches Ok(f) ==> wrapped_from(f, master_password, params, salt@, dek@, plaintext@),
        r matches Ok(f) ==> f.kdf_salt@ == b64_encoded(salt@) && f.wrapped_key.nonce@ == b64_encoded(key_nonce@)
            && f.vault.nonce@ == b64_encoded(vault_nonce@),
        r matches Ok(f) ==> drawn_with(f, salt@, key_nonce@, vault_nonce@),
        r matches Ok(f) ==> open_wrapped(f, master_password) == Ok::<Seq<u8>, VaultError>(plaintext@),
{
    let mut kek = derive_key_with_params(master_password, salt, params)?;
    let wrapped = encrypt_with_key_nonce(kek.as_slice(), key_nonce, dek);
    wipe_key(&mut kek);
    let wrapped_key = wrapped?;
    let vault = encrypt_with_key_nonce(dek, vault_nonce, plaintext)?;
    let file = WrappedVaultFile { version: VAULT_FORMAT_VERSION, kdf: params, kdf_salt: b64_encode(salt), wrapped_key, vault };
    proof {
        lemma_wrapped_round_trip(file, master_password, params, salt@, dek@, plaintext@);
    }
    Ok(file)
}

/// Seals serialized vault bytes into a wrapped file with the default
/// costs, a fresh salt, a fresh data-encryption key and fresh nonces.
pub fn save_vault(plaintext: &[u8], master_password: &str) -> (r: Result<WrappedVaultFile, VaultError>)
    ensures
        kdf_accepts(master_password, seq![0u8; 16], KdfParams::spec_default()) && sealable(plaintext@.len())
            ==> r is Ok || r == Err::<WrappedVaultFile, VaultError>(VaultError::RandomSource),
        r matches Err(e) ==> e == VaultError::RandomSource
            || (e == VaultError::KeyDerivation && !kdf_accepts(master_password, seq![0u8; 16], KdfParams::spec_default()))
            || (e == VaultError::Encryption && !sealable(plaintext@.len())),
        r matches Ok(f) ==> f.kdf == KdfParams::spec_default(),
        r matches Ok(f) ==> open_wrapped(f, master_password) == Ok::<Seq<u8>, VaultError>(plaintext@),
        r matches Ok(f) ==> exists|s: Seq<u8>, kn: Seq<u8>, vn: Seq<u8>|
            s.len() == SALT_LEN && kn.len() == NONCE_LEN && vn.len() == NONCE_LEN && #[trigger] drawn_with(f, s, kn, vn),
{
    let salt = random_bytes(SALT_LEN)?;
    let mut dek = random_bytes(KEY_LEN)?;
    let key_nonce = match random_bytes(NONCE_LEN) {
        Ok(n) => n,
        Err(e) => {
            wipe_bytes(&mut dek);
            return Err(e);
        },
    };
    let vault_nonce = match random_bytes(NONCE_LEN) {
        Ok(n) => n,
        Err(e) => {
            wipe_bytes(&mut dek);
            return Err(e);
        },
    };
    let saved = save_vault_using(plaintext, master_password, KdfParams::default(), salt.as_slice(), dek.as_slice(),
        key_nonce.as_slice(), vault_nonce.as_slice());
    wipe_bytes(&mut dek);
    saved
}

/// Opens a wrapped file with a passphrase, yielding the serialized vault.
pub fn load_vault(file: &WrappedVaultFile, master_password: &str) -> (r: Result<Vec<u8>, VaultError>)
    ensures
        bytes_result(r) == open_wrapped(*file, master_password),
{
    if file.version != VAULT_FORMAT_VERSION {
        return Err(VaultError::Format);
    }
    let salt = match b64_decode(file.kdf_salt.as_str()) {
        Ok(s) => s,
        Err(_) => return Err(VaultError::Format),
    };
    let mut kek = derive_key_with_params(master_password, salt.as_slice(), file.kdf)?;
    let unwrapped = open_record(kek.as_slice(), &file.wrapped_key);
    wipe_key(&mut kek);
    let mut dek = unwrapped?;
    if dek.len() != KEY_LEN {
        wipe_bytes(&mut dek);
        return Err(VaultError::Format);
    }
    let opened = open_record(dek.as_slice(), &file.vault);
    wipe_bytes(&mut dek);
    opened
}

} // verus!
