use vstd::prelude::*;

verus! {

/// Consecutive failed unlocks within one session that trigger a lockout.
pub const MAX_ATTEMPTS: u8 = 3;

/// Length of a lockout, in seconds.
pub const LOCK_SECONDS: u64 = 120;

/// What the lock state says of an unlock attempt at a given time.
#[derive(Debug, Clone, Copy, PartialEq, Eq, Structural)]
pub enum LockCheck {
    /// No lock state: the attempt proceeds.
    Clear,
    /// The lock has expired: it is removed and the attempt proceeds.
    Expired,
    /// The lock is active: the attempt is refused for this many seconds more.
    Active { remaining: u64 },
}

pub open spec fn lock_status(unlock_at: Option<u64>, now: u64) -> LockCheck {
    match unlock_at {
        None => LockCheck::Clear,
        Some(until) => if now < until {
            LockCheck::Active { remaining: (until - now) as u64 }
        } else {
            LockCheck::Expired
        },
    }
}

/// Consults the lock state before an unlock attempt; no passphrase is
/// involved.
pub fn ensure_lock_not_active(unlock_at: Option<u64>, now: u64) -> (r: LockCheck)
    ensures
        r == lock_status(unlock_at, now),
{
    match unlock_at {
        None => LockCheck::Clear,
        Some(until) => if now < until {
            LockCheck::Active { remaining: until - now }
        } else {
            LockCheck::Expired
        },
    }
}

pub open spec fn lock_deadline(now: u64, duration_secs: u64) -> u64 {
    if now + duration_secs > u64::MAX {
        u64::MAX
    } else {
        (now + duration_secs) as u64
    }
}

/// The `unlock_at` of a lock of `duration_secs` set at `now`.
pub fn set_lock(now: u64, duration_secs: u64) -> (r: u64)
    ensures
        r == lock_deadline(now, duration_secs),
{
    now.saturating_add(duration_secs)
}

/// The failure count after one more failed unlock.
pub open spec fn failures_after(count: u8) -> u8 {
    if count == u8::MAX {
        count
    } else {
        (count + 1) as u8
    }
}

/// Records one failed unlock: the new count, and whether it reaches the
/// threshold, after which the caller writes a lock and exits.
pub fn register_failure(count: u8) -> (r: (u8, bool))
    ensures
        r.0 == failures_after(count),
        r.1 == (r.0 >= MAX_ATTEMPTS),
{
    let n = count.saturating_add(1);
    (n, n >= MAX_ATTEMPTS)
}

/// What the session does after an unlock attempt.
#[derive(Debug, Clone, Copy, PartialEq, Eq, Structural)]
pub enum UnlockAction {
    /// The vault is open.
    Proceed,
    /// Ask again; this many attempts remain before a lockout.
    Retry { attempts_left: u8 },
    /// Write a lock with this `unlock_at` and end the process.
    LockAndExit { unlock_at: u64 },
}

pub open spec fn unlock_step_spec(failures: u8, succeeded: bool, now: u64) -> (u8, UnlockAction) {
    if succeeded {
        (failures, UnlockAction::Proceed)
    } else if failures_after(failures) >= MAX_ATTEMPTS {
        (failures_after(failures), UnlockAction::LockAndExit { unlock_at: lock_deadline(now, LOCK_SECONDS) })
    } else {
        (failures_after(failures), UnlockAction::Retry { attempts_left: (MAX_ATTEMPTS - failures_after(failures)) as u8 })
    }
}

/// The session's decision after one unlock attempt: the new failure count
/// and what to do next.
pub fn unlock_step(failures: u8, succeeded: bool, now: u64) -> (r: (u8, UnlockAction))
    ensures
        r == unlock_step_spec(failures, succeeded, now),
{
    if succeeded {
        return (failures, UnlockAction::Proceed);
    }
    let (count, lock_now) = register_failure(failures);
    if lock_now {
        (count, UnlockAction::LockAndExit { unlock_at: set_lock(now, LOCK_SECONDS) })
    } else {
        (count, UnlockAction::Retry { attempts_left: MAX_ATTEMPTS - count })
    }
}

/// Lockout: from zero failures, the first two failures do not lock, the
/// third does, with `unlock_at = now + 120`; an attempt before that moment
/// is refused, one at or after it proceeds once the lock is removed.
pub proof fn lemma_lockout(now: u64, later: u64)
    requires
        now <= u64::MAX - LOCK_SECONDS,
    ensures
        failures_after(0) < MAX_ATTEMPTS,
        failures_after(failures_after(0)) < MAX_ATTEMPTS,
        failures_after(failures_after(failures_after(0))) >= MAX_ATTEMPTS,
        unlock_step_spec(0, false, now).1 == (UnlockAction::Retry { attempts_left: 2 }),
        unlock_step_spec(1, false, now).1 == (UnlockAction::Retry { attempts_left: 1 }),
        unlock_step_spec(2, false, now).1 == (UnlockAction::LockAndExit { unlock_at: (now + 120) as u64 }),
        lock_deadline(now, LOCK_SECONDS) == now + 120,
        later < lock_deadline(now, LOCK_SECONDS) ==> (lock_status(Some(lock_deadline(now, LOCK_SECONDS)), later) is Active),
        later >= lock_deadline(now, LOCK_SECONDS) ==> lock_status(Some(lock_deadline(now, LOCK_SECONDS)), later) == LockCheck::Expired,
{
}

} // verus!
