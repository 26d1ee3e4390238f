use vstd::prelude::*;

verus! {

/// The kinds of failure that the vault core reports.
#[derive(Debug, Clone, Copy, PartialEq, Eq, Structural)]
pub enum VaultError {
    /// Key-derivation parameters or inputs were rejected.
    KeyDerivation,
    /// Authentication failed: wrong key or corrupted data.
    Decryption,
    /// A file is corrupt or of an unsupported format version.
    Format,
    /// A storage directory lies outside the home directory.
    PathValidation,
    /// The loaded revision is older than the trusted revision.
    RollbackDetected { loaded: u64, trusted: u64 },
    /// A cooldown is active; the attempt is refused.
    LockActive { remaining: u64 },
    /// The external secret store failed.
    ExternalStore,
    /// The vault file does not exist.
    NotFound,
    /// Encryption of a payload was refused (payload too large).
    Encryption,
    /// The operating system's random source failed.
    RandomSource,
}

impl VaultError {
    /// The operator's message for each kind of failure.
    pub open spec fn text(self) -> Seq<char> {
        match self {
            VaultError::KeyDerivation => "key derivation failed"@,
            VaultError::Decryption => "decryption failed: wrong key or corrupted data"@,
            VaultError::Format => "corrupt or unsupported file"@,
            VaultError::PathValidation => "storage path must stay inside the home directory"@,
            VaultError::RollbackDetected { .. } => "vault rollback detected"@,
            VaultError::LockActive { .. } => "vault is locked due to failed attempts"@,
            VaultError::ExternalStore => "secret store error"@,
            VaultError::NotFound => "vault file not found"@,
            VaultError::Encryption => "encryption failed"@,
            VaultError::RandomSource => "the system's random source failed"@,
        }
    }

    /// A message for the operator. Every authentication failure reads the
    /// same, whatever its cause.
    pub fn message(&self) -> (r: String)
        ensures
            r@ == self.text(),
    {
        match self {
            VaultError::KeyDerivation => String::from_str("key derivation failed"),
            VaultError::Decryption => String::from_str("decryption failed: wrong key or corrupted data"),
            VaultError::Format => String::from_str("corrupt or unsupported file"),
            VaultError::PathValidation => String::from_str("storage path must stay inside the home directory"),
            VaultError::RollbackDetected { .. } => String::from_str("vault rollback detected"),
            VaultError::LockActive { .. } => String::from_str("vault is locked due to failed attempts"),
            VaultError::ExternalStore => String::from_str("secret store error"),
            VaultError::NotFound => String::from_str("vault file not found"),
            VaultError::Encryption => String::from_str("encryption failed"),
            VaultError::RandomSource => String::from_str("the system's random source failed"),
        }
    }
}

} // verus!
