//! A local secret store: key derivation, envelope encryption of the vault
//! body, the unlock protocol with its legacy formats, rollback detection,
//! lockout decisions and storage-path validation.

pub mod error;
pub mod models;
pub mod crypto;
pub mod text;
pub mod envelope;
pub mod unlock;
pub mod revision;
pub mod lockout;
pub mod paths;
pub mod passgen;
pub mod secrets;
pub mod store;
pub mod strength;
pub mod listing;
