use vstd::prelude::*;

verus! {

/// A stored credential.
#[derive(Debug, Clone)]
pub struct Entry {
    pub id: String,
    pub name: String,
    pub email: String,
    pub password: String,
    pub username: Option<String>,
    pub notes: Option<String>,
}

impl Entry {
    /// An entry as created: service name, email and password are not empty.
    pub open spec fn well_formed(&self) -> bool {
        &&& self.name@.len() > 0
        &&& self.email@.len() > 0
        &&& self.password@.len() > 0
    }

    /// Creates an entry under the given identifier; refuses an empty
    /// service name, email or password.
    pub fn create(
        id: String,
        name: String,
        email: String,
        password: String,
        username: Option<String>,
        notes: Option<String>,
    ) -> (r: Option<Entry>)
        ensures
            r is Some <==> name@.len() > 0 && email@.len() > 0 && password@.len() > 0,
            r matches Some(e) ==> e.well_formed() && e.id@ == id@ && e.name@ == name@ && e.email@ == email@
                && e.password@ == password@ && e.username == username && e.notes == notes,
    {
        if name.unicode_len() == 0 || email.unicode_len() == 0 || password.unicode_len() == 0 {
            return None;
        }
        Some(Entry { id, name, email, password, username, notes })
    }
}

/// A private note.
#[derive(Debug, Clone)]
pub struct Note {
    pub id: String,
    pub title: String,
    pub content: String,
}

/// One AEAD record as it is written to disk: base64 nonce and ciphertext,
/// and for the legacy password-keyed form a base64 salt (else the encoding
/// of no bytes).
#[derive(Debug, Clone)]
pub struct EncryptedVault {
    pub salt: String,
    pub nonce: String,
    pub data: String,
}

/// The plaintext payload: a revision counter and the ordered entries and
/// notes.
#[derive(Debug, Clone)]
pub struct Vault {
    pub revision: u64,
    pub entries: Vec<Entry>,
    pub notes: Vec<Note>,
}

impl Vault {
    /// The vault of a first run: revision zero, nothing stored.
    pub fn empty() -> (r: Vault)
        ensures
            r.revision == 0,
            r.entries@.len() == 0,
            r.notes@.len() == 0,
    {
        Vault { revision: 0, entries: Vec::new(), notes: Vec::new() }
    }
}

/// The legacy meta file: a self-describing password hash.
#[derive(Debug, Clone)]
pub struct Meta {
    pub master_hash: String,
}

/// The configuration file: the chosen storage directory.
#[derive(Debug, Clone)]
pub struct Config {
    pub vault_dir: String,
}

} // verus!
