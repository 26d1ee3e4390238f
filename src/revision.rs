use vstd::prelude::*;
use crate::error::VaultError;
use crate::models::Vault;

verus! {

/// The revision that a save writes: one more, saturating at the top.
pub open spec fn spec_next_revision(r: u64) -> u64 {
    if r == u64::MAX {
        r
    } else {
        (r + 1) as u64
    }
}

/// The revision after `k` successive saves starting from `r`.
pub open spec fn revision_after_saves(r: u64, k: nat) -> u64
    decreases k,
{
    if k == 0 {
        r
    } else {
        spec_next_revision(revision_after_saves(r, (k - 1) as nat))
    }
}

/// Every save adds exactly one to the revision while there is room: after
/// `k` saves the revision is `r + k`.
pub proof fn lemma_revision_counts_saves(r: u64, k: nat)
    requires
        r + k <= u64::MAX,
    ensures
        revision_after_saves(r, k) == r + k,
    decreases k,
{
    if k > 0 {
        lemma_revision_counts_saves(r, (k - 1) as nat);
    }
}

/// The revision that a save writes.
pub fn next_revision(r: u64) -> (n: u64)
    ensures
        n == spec_next_revision(r),
{
    r.saturating_add(1)
}

/// Advances the vault's revision before it is saved; its entries and notes
/// stay as they are.
pub fn advance_revision(vault: &mut Vault)
    ensures
        final(vault).revision == spec_next_revision(old(vault).revision),
        final(vault).entries@ == old(vault).entries@,
        final(vault).notes@ == old(vault).notes@,
{
    vault.revision = next_revision(vault.revision);
}

/// The rollback check on a decrypted vault's revision against the trusted
/// revision: a refusal if the vault is older, else the value to record as
/// trusted, if it changes. An unreadable store skips the check.
pub open spec fn revision_check(loaded: u64, trusted: Result<Option<u64>, VaultError>) -> Result<Option<u64>, VaultError> {
    match trusted {
        Err(_) => Ok(None),
        Ok(None) => Ok(Some(loaded)),
        Ok(Some(t)) => if loaded < t {
            Err(VaultError::RollbackDetected { loaded, trusted: t })
        } else if loaded > t {
            Ok(Some(loaded))
        } else {
            Ok(None)
        },
    }
}

/// The trusted revision after a check: unchanged, or the loaded revision.
pub open spec fn trusted_after(trusted: Option<u64>, outcome: Result<Option<u64>, VaultError>) -> Option<u64> {
    match outcome {
        Ok(Some(v)) => Some(v),
        _ => trusted,
    }
}

/// Checks a loaded revision against the trusted one and says what to
/// record as trusted.
pub fn verify_loaded_revision(loaded: u64, trusted: &Result<Option<u64>, VaultError>) -> (r: Result<Option<u64>, VaultError>)
    ensures
        r == revision_check(loaded, *trusted),
{
    match trusted {
        Err(_) => Ok(None),
        Ok(None) => Ok(Some(loaded)),
        Ok(Some(t)) => {
            let t = *t;
            if loaded < t {
                Err(VaultError::RollbackDetected { loaded, trusted: t })
            } else if loaded > t {
                Ok(Some(loaded))
            } else {
                Ok(None)
            }
        },
    }
}

/// Rollback: with trusted revision `t`, an older vault is refused; one at
/// least as new is accepted and the trusted value becomes its revision.
pub proof fn lemma_rollback(loaded: u64, t: u64)
    ensures
        loaded < t ==> revision_check(loaded, Ok(Some(t))) == Err::<Option<u64>, VaultError>(
            VaultError::RollbackDetected { loaded, trusted: t },
        ),
        loaded >= t ==> revision_check(loaded, Ok(Some(t))) is Ok
            && trusted_after(Some(t), revision_check(loaded, Ok(Some(t)))) == Some(loaded),
{
}

/// The trusted revision never decreases: whatever the check records is at
/// least what was trusted before.
pub proof fn lemma_trusted_monotone(loaded: u64, trusted: Option<u64>)
    ensures
        trusted matches Some(t) ==> trusted_after(trusted, revision_check(loaded, Ok(trusted))) matches Some(n) && n >= t,
{
}

/// The value to record as trusted after a vault at revision `rev` was
/// decrypted or saved: `rev` when it raises the trusted value (or none is
/// recorded yet), else nothing. An unreadable store gets no write, so the
/// trusted value can never be lowered.
pub open spec fn record_for(trusted: Result<Option<u64>, VaultError>, rev: u64) -> Option<u64> {
    match trusted {
        Err(_) => None,
        Ok(None) => Some(rev),
        Ok(Some(t)) => if rev > t {
            Some(rev)
        } else {
            None
        },
    }
}

/// What to record as trusted after saving a vault at revision `saved`.
pub fn trusted_record(saved: u64, trusted: &Result<Option<u64>, VaultError>) -> (r: Option<u64>)
    ensures
        r == record_for(*trusted, saved),
{
    match trusted {
        Err(_) => None,
        Ok(None) => Some(saved),
        Ok(Some(t)) => if saved > *t {
            Some(saved)
        } else {
            None
        },
    }
}

/// What follows a successful decryption: the revision to save the vault
/// under (when a legacy shape is migrated) and the value to record as
/// trusted.
#[derive(Debug, Clone, Copy, PartialEq, Eq, Structural)]
pub struct PostUnlock {
    pub save_revision: Option<u64>,
    pub record_trusted: Option<u64>,
}

/// After a decryption: the rollback check on the revision as loaded,
/// before any migration save; then, for a legacy shape, a save at the next
/// revision; the trusted value recorded is never below the trusted one.
pub open spec fn post_unlock(loaded: u64, migrate: bool, trusted: Result<Option<u64>, VaultError>)
    -> Result<PostUnlock, VaultError>
{
    match revision_check(loaded, trusted) {
        Err(e) => Err(e),
        Ok(_) => if migrate {
            Ok(PostUnlock {
                save_revision: Some(spec_next_revision(loaded)),
                record_trusted: record_for(trusted, spec_next_revision(loaded)),
            })
        } else {
            Ok(PostUnlock { save_revision: None, record_trusted: record_for(trusted, loaded) })
        },
    }
}

/// Decides the steps after a successful decryption of a vault at revision
/// `loaded`.
pub fn after_unlock(loaded: u64, migrate: bool, trusted: &Result<Option<u64>, VaultError>) -> (r: Result<PostUnlock, VaultError>)
    ensures
        r == post_unlock(loaded, migrate, *trusted),
{
    verify_loaded_revision(loaded, trusted)?;
    if migrate {
        let saved = next_revision(loaded);
        Ok(PostUnlock { save_revision: Some(saved), record_trusted: trusted_record(saved, trusted) })
    } else {
        Ok(PostUnlock { save_revision: None, record_trusted: trusted_record(loaded, trusted) })
    }
}

/// After any unlock, migrating or not: an older vault than the trusted
/// revision is refused before anything is saved, and whatever is recorded
/// is at least the trusted revision and never lowers it.
pub proof fn lemma_post_unlock_keeps_trust(loaded: u64, migrate: bool, t: u64)
    ensures
        loaded < t ==> post_unlock(loaded, migrate, Ok(Some(t))) == Err::<PostUnlock, VaultError>(
            VaultError::RollbackDetected { loaded, trusted: t },
        ),
        (post_unlock(loaded, migrate, Ok(Some(t))) matches Ok(p) ==> (p.record_trusted matches Some(n) ==> n > t)),
        (post_unlock(loaded, migrate, Ok(Some(t))) matches Ok(p) ==> (p.save_revision matches Some(s) ==> s >= t)),
{
}

/// A save never lowers the trusted revision.
pub proof fn lemma_save_keeps_trust(saved: u64, t: u64)
    ensures
        (record_for(Ok(Some(t)), saved) matches Some(n) ==> n > t),
{
}

} // verus!
