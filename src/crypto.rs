use vstd::prelude::*;
use base64::Engine;
use chacha20poly1305::aead::{Aead, KeyInit};
use rand::RngCore;
use vstd::string::StringSliceAdditionalSpecFns;
use crate::error::VaultError;
use crate::models::EncryptedVault;
use crate::secrets::wipe_key;

verus! {

/// Argon2id cost parameters, stored beside every wrapped file.
#[derive(Debug, Clone, Copy, PartialEq, Eq, Structural)]
pub struct KdfParams {
    pub m_cost: u32,
    pub t_cost: u32,
    pub p_cost: u32,
}

/// Length in bytes of every derived key and data-encryption key.
pub const KEY_LEN: usize = 32;

/// Length in bytes of every AEAD nonce.
pub const NONCE_LEN: usize = 12;

/// Length in bytes of a freshly generated salt.
pub const SALT_LEN: usize = 16;

/// The smallest salt that Argon2 accepts.
pub const MIN_SALT_LEN: usize = 8;

impl KdfParams {
    /// Parameters that Argon2 accepts for a 32-byte output.
    pub open spec fn valid(self) -> bool {
        &&& self.m_cost >= 8
        &&& self.m_cost >= 8 * self.p_cost
        &&& self.t_cost >= 1
        &&& 1 <= self.p_cost <= 0xFF_FFFF
    }

    pub open spec fn spec_default() -> KdfParams {
        KdfParams { m_cost: 19456, t_cost: 2, p_cost: 1 }
    }
}

impl Default for KdfParams {
    /// 19 MiB of memory, two passes, one lane.
    fn default() -> (r: KdfParams)
        ensures
            r == KdfParams::spec_default(),
    {
        KdfParams { m_cost: 19 * 1024, t_cost: 2, p_cost: 1 }
    }
}

/// What Argon2id (version 0x13, 32-byte output) derives from a passphrase,
/// a salt and cost parameters.
pub uninterp spec fn argon2id_key(password: Seq<char>, salt: Seq<u8>, m_cost: u32, t_cost: u32, p_cost: u32) -> Seq<u8>;

#[verifier::external_type_specification]
#[verifier::external_body]
pub struct ExArgon2Error(argon2::Error);

/// Inputs that `derive_key_with_params` turns into a key.
pub open spec fn kdf_accepts(password: &str, salt: Seq<u8>, params: KdfParams) -> bool {
    &&& params.valid()
    &&& MIN_SALT_LEN <= salt.len() <= 0xFFFF_FFFF
    &&& password.spec_bytes().len() <= 0xFFFF_FFFF
}

/// Relies on argon2's `Params::new` and `Argon2::hash_password_into`
/// (Argon2id, version 0x13): `Params::new` fails exactly on the costs that
/// `KdfParams::valid` excludes, hashing fails exactly on a password or salt
/// of a length out of range, and otherwise the 32 bytes are the Argon2id hash.
/// The work allocates `m_cost` KiB of memory.
#[verifier::external_body]
fn argon2id_hash(password: &str, salt: &[u8], m_cost: u32, t_cost: u32, p_cost: u32) -> (r: Result<[u8; 32], argon2::Error>)
    requires
        p_cost <= 0xFF_FFFF,
    ensures
        r is Ok <==> kdf_accepts(password, salt@, KdfParams { m_cost, t_cost, p_cost }),
        r matches Ok(k) ==> k@ == argon2id_key(password@, salt@, m_cost, t_cost, p_cost),
{
    let params = argon2::Params::new(m_cost, t_cost, p_cost, Some(32))?;
    let hasher = argon2::Argon2::new(argon2::Algorithm::Argon2id, argon2::Version::V0x13, params);
    let mut key = [0u8; 32];
    hasher.hash_password_into(password.as_bytes(), salt, &mut key)?;
    Ok(key)
}

/// Derives a 32-byte key from a passphrase and salt with the given Argon2id
/// costs; rejects invalid costs or an out-of-range salt.
pub fn derive_key_with_params(master_password: &str, salt: &[u8], params: KdfParams) -> (r: Result<[u8; 32], VaultError>)
    ensures
        r is Ok <==> kdf_accepts(master_password, salt@, params),
        r matches Ok(k) ==> k@ == argon2id_key(master_password@, salt@, params.m_cost, params.t_cost, params.p_cost),
        r matches Err(e) ==> e == VaultError::KeyDerivation,
{
    if params.p_cost > 0xFF_FFFF {
        return Err(VaultError::KeyDerivation);
    }
    match argon2id_hash(master_password, salt, params.m_cost, params.t_cost, params.p_cost) {
        Ok(k) => Ok(k),
        Err(_) => Err(VaultError::KeyDerivation),
    }
}

/// Derives a key with the default costs.
pub fn derive_key(master_password: &str, salt: &[u8]) -> (r: Result<[u8; 32], VaultError>)
    ensures
        r is Ok <==> kdf_accepts(master_password, salt@, KdfParams::spec_default()),
        r matches Ok(k) ==> k@ == argon2id_key(master_password@, salt@, 19456, 2, 1),
        r matches Err(e) ==> e == VaultError::KeyDerivation,
{
    derive_key_with_params(master_password, salt, KdfParams::default())
}


/// What base64 (standard alphabet, padded) makes of some bytes.
pub uninterp spec fn b64_encoded(bytes: Seq<u8>) -> Seq<char>;

/// What base64 (standard alphabet, padded) decodes a text to, if anything.
pub uninterp spec fn b64_decoded(text: Seq<char>) -> Option<Seq<u8>>;

#[verifier::external_type_specification]
#[verifier::external_body]
pub struct ExDecodeError(base64::DecodeError);

/// Relies on base64's `STANDARD` engine `encode`: the encoding of the bytes,
/// which the same engine decodes back to them.
#[verifier::external_body]
pub(crate) fn b64_encode(bytes: &[u8]) -> (r: String)
    ensures
        r@ == b64_encoded(bytes@),
        b64_decoded(r@) == Some(bytes@),
        bytes@.len() == 0 ==> r@.len() == 0,
{
    base64::engine::general_purpose::STANDARD.encode(bytes)
}

/// Relies on base64's `STANDARD` engine `decode`: the decoded bytes, or an
/// error on text that is not canonical padded base64.
#[verifier::external_body]
pub(crate) fn b64_decode(text: &str) -> (r: Result<Vec<u8>, base64::DecodeError>)
    ensures
        match r {
            Ok(v) => b64_decoded(text@) == Some(v@),
            Err(_) => b64_decoded(text@) is None,
        },
{
    base64::engine::general_purpose::STANDARD.decode(text)
}

/// What ChaCha20-Poly1305 (no associated data) seals a plaintext to: the
/// ciphertext followed by the 16-byte tag.
pub uninterp spec fn chacha_sealed(key: Seq<u8>, nonce: Seq<u8>, plaintext: Seq<u8>) -> Seq<u8>;

/// What ChaCha20-Poly1305 (no associated data) opens a ciphertext to: the
/// plaintext when the tag authenticates, else nothing.
pub uninterp spec fn chacha_opened(key: Seq<u8>, nonce: Seq<u8>, ciphertext: Seq<u8>) -> Option<Seq<u8>>;

/// Plaintexts that ChaCha20-Poly1305 agrees to seal (fewer than 2^32 - 1
/// blocks of 64 bytes).
pub open spec fn sealable(len: nat) -> bool {
    len / 64 < 0xFFFF_FFFF
}

#[verifier::external_type_specification]
#[verifier::external_body]
pub struct ExAeadError(chacha20poly1305::Error);

/// Relies on chacha20poly1305's `ChaCha20Poly1305::encrypt`: it fails only on
/// a plaintext of 2^32 - 1 blocks or more, and what it seals opens under the
/// same key and nonce to the same plaintext; the ciphertext is the
/// plaintext's length plus the 16-byte tag.
#[verifier::external_body]
fn chacha_encrypt(key: &[u8], nonce: &[u8], plaintext: &[u8]) -> (r: Result<Vec<u8>, chacha20poly1305::Error>)
    requires
        key@.len() == KEY_LEN,
        nonce@.len() == NONCE_LEN,
    ensures
        r is Ok <==> sealable(plaintext@.len()),
        r matches Ok(c) ==> c@ == chacha_sealed(key@, nonce@, plaintext@)
            && chacha_opened(key@, nonce@, c@) == Some(plaintext@)
            && c@.len() == plaintext@.len() + 16,
{
    let cipher = chacha20poly1305::ChaCha20Poly1305::new(chacha20poly1305::Key::from_slice(key));
    cipher.encrypt(chacha20poly1305::Nonce::from_slice(nonce), plaintext)
}

/// Relies on chacha20poly1305's `ChaCha20Poly1305::decrypt`: the plaintext
/// when the tag authenticates, else an error.
#[verifier::external_body]
fn chacha_decrypt(key: &[u8], nonce: &[u8], ciphertext: &[u8]) -> (r: Result<Vec<u8>, chacha20poly1305::Error>)
    requires
        key@.len() == KEY_LEN,
        nonce@.len() == NONCE_LEN,
    ensures
        match r {
            Ok(p) => chacha_opened(key@, nonce@, ciphertext@) == Some(p@),
            Err(_) => chacha_opened(key@, nonce@, ciphertext@) is None,
        },
{
    let cipher = chacha20poly1305::ChaCha20Poly1305::new(chacha20poly1305::Key::from_slice(key));
    cipher.decrypt(chacha20poly1305::Nonce::from_slice(nonce), ciphertext)
}

#[verifier::external_type_specification]
#[verifier::external_body]
pub struct ExRandError(rand::Error);

/// Relies on rand's `OsRng` (`RngCore::try_fill_bytes`): `n` bytes from the
/// operating system's secure source, or an error if that source fails.
/// Nothing is known of the bytes' values.
#[verifier::external_body]
fn os_random_bytes(n: usize) -> (r: Result<Vec<u8>, rand::Error>)
    ensures
        r matches Ok(v) ==> v@.len() == n,
{
    let mut buf = vec![0u8; n];
    rand::rngs::OsRng.try_fill_bytes(&mut buf)?;
    Ok(buf)
}

/// `n` fresh random bytes.
pub fn random_bytes(n: usize) -> (r: Result<Vec<u8>, VaultError>)
    ensures
        r matches Ok(v) ==> v@.len() == n,
        r matches Err(e) ==> e == VaultError::RandomSource,
{
    match os_random_bytes(n) {
        Ok(v) => Ok(v),
        Err(_) => Err(VaultError::RandomSource),
    }
}

/// The record that sealing `plaintext` under `key` and `nonce` produces;
/// `salt` is written as given.
pub open spec fn sealed_record(key: Seq<u8>, nonce: Seq<u8>, salt: Seq<u8>, plaintext: Seq<u8>, r: EncryptedVault) -> bool {
    &&& r.salt@ == b64_encoded(salt)
    &&& r.nonce@ == b64_encoded(nonce)
    &&& r.data@ == b64_encoded(chacha_sealed(key, nonce, plaintext))
    &&& b64_decoded(r.salt@) == Some(salt)
    &&& b64_decoded(r.nonce@) == Some(nonce)
    &&& b64_decoded(r.data@) == Some(chacha_sealed(key, nonce, plaintext))
    &&& chacha_sealed(key, nonce, plaintext).len() == plaintext.len() + 16
}

/// What opening a record under a raw key yields.
pub open spec fn open_with_key(key: Seq<u8>, rec: EncryptedVault) -> Result<Seq<u8>, VaultError> {
    match (b64_decoded(rec.nonce@), b64_decoded(rec.data@)) {
        (Some(n), Some(c)) => if n.len() != NONCE_LEN {
            Err(VaultError::Format)
        } else {
            match chacha_opened(key, n, c) {
                Some(p) => Ok(p),
                None => Err(VaultError::Decryption),
            }
        },
        _ => Err(VaultError::Format),
    }
}

/// What opening a legacy record with a passphrase yields: the key is
/// derived with the default costs from the record's own salt.
pub open spec fn open_with_password(master_password: &str, rec: EncryptedVault) -> Result<Seq<u8>, VaultError> {
    match (b64_decoded(rec.salt@), b64_decoded(rec.nonce@), b64_decoded(rec.data@)) {
        (Some(salt), Some(_), Some(_)) => if !kdf_accepts(master_password, salt, KdfParams::spec_default()) {
            Err(VaultError::KeyDerivation)
        } else {
            open_with_key(argon2id_key(master_password@, salt, 19456, 2, 1), rec)
        },
        _ => Err(VaultError::Format),
    }
}

/// The bytes of a result, seen as a sequence.
pub open spec fn bytes_result(r: Result<Vec<u8>, VaultError>) -> Result<Seq<u8>, VaultError> {
    match r {
        Ok(v) => Ok(v@),
        Err(e) => Err(e),
    }
}

/// Seals `plaintext` under `key` with the given nonce.
pub fn encrypt_with_key_nonce(key: &[u8], nonce: &[u8], plaintext: &[u8]) -> (r: Result<EncryptedVault, VaultError>)
    requires
        key@.len() == KEY_LEN,
        nonce@.len() == NONCE_LEN,
    ensures
        r is Ok <==> sealable(plaintext@.len()),
        r matches Ok(rec) ==> sealed_record(key@, nonce@, seq![], plaintext@, rec),
        r matches Ok(rec) ==> rec.salt@.len() == 0,
        r matches Ok(rec) ==> open_with_key(key@, rec) == Ok::<Seq<u8>, VaultError>(plaintext@),
        r matches Err(e) ==> e == VaultError::Encryption,
{
    let ciphertext = match chacha_encrypt(key, nonce, plaintext) {
        Ok(c) => c,
        Err(_) => return Err(VaultError::Encryption),
    };
    let no_salt: Vec<u8> = Vec::new();
    let rec = EncryptedVault {
        salt: b64_encode(no_salt.as_slice()),
        nonce: b64_encode(nonce),
        data: b64_encode(ciphertext.as_slice()),
    };
    proof {
        assert(no_salt@ =~= seq![]);
    }
    Ok(rec)
}

/// Seals `plaintext` under `key` with a fresh random nonce.
pub fn encrypt_with_key(key: &[u8; 32], plaintext: &[u8]) -> (r: Result<EncryptedVault, VaultError>)
    ensures
        sealable(plaintext@.len()) ==> r is Ok || r == Err::<EncryptedVault, VaultError>(VaultError::RandomSource),
        r matches Ok(rec) ==> exists|n: Seq<u8>| n.len() == NONCE_LEN && #[trigger] sealed_record(key@, n, seq![], plaintext@, rec),
        r matches Ok(rec) ==> rec.salt@.len() == 0,
        r matches Ok(rec) ==> open_with_key(key@, rec) == Ok::<Seq<u8>, VaultError>(plaintext@),
        r matches Err(e) ==> e == VaultError::RandomSource || (e == VaultError::Encryption && !sealable(plaintext@.len())),
{
    let nonce = random_bytes(NONCE_LEN)?;
    encrypt_with_key_nonce(key.as_slice(), nonce.as_slice(), plaintext)
}

/// Opens a record under a raw key.
pub fn decrypt_with_key(key: &[u8; 32], enc: &EncryptedVault) -> (r: Result<Vec<u8>, VaultError>)
    ensures
        bytes_result(r) == open_with_key(key@, *enc),
{
    open_record(key.as_slice(), enc)
}

pub(crate) fn open_record(key: &[u8], enc: &EncryptedVault) -> (r: Result<Vec<u8>, VaultError>)
    requires
        key@.len() == KEY_LEN,
    ensures
        bytes_result(r) == open_with_key(key@, *enc),
{
    let nonce = match b64_decode(enc.nonce.as_str()) {
        Ok(n) => n,
        Err(_) => return Err(VaultError::Format),
    };
    let ciphertext = match b64_decode(enc.data.as_str()) {
        Ok(c) => c,
        Err(_) => return Err(VaultError::Format),
    };
    if nonce.len() != NONCE_LEN {
        return Err(VaultError::Format);
    }
    match chacha_decrypt(key, nonce.as_slice(), ciphertext.as_slice()) {
        Ok(p) => Ok(p),
        Err(_) => Err(VaultError::Decryption),
    }
}

/// Legacy single-layer sealing: a fresh salt, a key derived from it with
/// the default costs, a fresh nonce. Kept to write fixtures of the old
/// shape; current saves never use it.
pub fn encrypt_with_password(master_password: &str, plaintext: &[u8]) -> (r: Result<EncryptedVault, VaultError>)
    ensures
        r matches Ok(rec) ==> open_with_password(master_password, rec) == Ok::<Seq<u8>, VaultError>(plaintext@),
        r matches Ok(rec) ==> exists|salt: Seq<u8>, n: Seq<u8>| salt.len() == SALT_LEN && n.len() == NONCE_LEN
            && #[trigger] sealed_record(argon2id_key(master_password@, salt, 19456, 2, 1), n, salt, plaintext@, rec),
        kdf_accepts(master_password, seq![0u8; 16], KdfParams::spec_default()) && sealable(plaintext@.len())
            ==> r is Ok || r == Err::<EncryptedVault, VaultError>(VaultError::RandomSource),
        r matches Err(e) ==> e == VaultError::RandomSource
            || (e == VaultError::KeyDerivation && !kdf_accepts(master_password, seq![0u8; 16], KdfParams::spec_default()))
            || (e == VaultError::Encryption && !sealable(plaintext@.len())),
{
    let salt = random_bytes(SALT_LEN)?;
    let nonce = random_bytes(NONCE_LEN)?;
    encrypt_with_password_using(master_password, plaintext, salt.as_slice(), nonce.as_slice())
}

/// Legacy single-layer sealing with a given salt and nonce.
pub fn encrypt_with_password_using(master_password: &str, plaintext: &[u8], salt: &[u8], nonce: &[u8]) -> (r: Result<EncryptedVault, VaultError>)
    requires
        salt@.len() == SALT_LEN,
        nonce@.len() == NONCE_LEN,
    ensures
        r matches Ok(rec) ==> sealed_record(argon2id_key(master_password@, salt@, 19456, 2, 1), nonce@, salt@, plaintext@, rec),
        r matches Ok(rec) ==> open_with_password(master_password, rec) == Ok::<Seq<u8>, VaultError>(plaintext@),
        r is Ok <==> kdf_accepts(master_password, salt@, KdfParams::spec_default()) && sealable(plaintext@.len()),
        r matches Err(e) ==> (e == VaultError::KeyDerivation && !kdf_accepts(master_password, salt@, KdfParams::spec_default()))
            || (e == VaultError::Encryption && kdf_accepts(master_password, salt@, KdfParams::spec_default())),
{
    let mut key = derive_key(master_password, salt)?;
    let sealed = chacha_encrypt(key.as_slice(), nonce, plaintext);
    wipe_key(&mut key);
    let ciphertext = match sealed {
        Ok(c) => c,
        Err(_) => return Err(VaultError::Encryption),
    };
    Ok(EncryptedVault {
        salt: b64_encode(salt),
        nonce: b64_encode(nonce),
        data: b64_encode(ciphertext.as_slice()),
    })
}

/// Opens a legacy single-layer record with a passphrase.
pub fn decrypt_with_password(master_password: &str, enc: &EncryptedVault) -> (r: Result<Vec<u8>, VaultError>)
    ensures
        bytes_result(r) == open_with_password(master_password, *enc),
{
    let salt = match b64_decode(enc.salt.as_str()) {
        Ok(s) => s,
        Err(_) => return Err(VaultError::Format),
    };
    match b64_decode(enc.nonce.as_str()) {
        Ok(_) => {},
        Err(_) => return Err(VaultError::Format),
    }
    match b64_decode(enc.data.as_str()) {
        Ok(_) => {},
        Err(_) => return Err(VaultError::Format),
    }
    let mut key = derive_key(master_password, salt.as_slice())?;
    let opened = open_record(key.as_slice(), enc);
    wipe_key(&mut key);
    opened
}

} // verus!
