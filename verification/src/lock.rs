//! A single-bit lock for the context that the interrupt handlers share.
//!
//! The controller has one core and no threads: an owner of the context runs
//! to its end before another one starts, so the lock is a plain flag. Who
//! finds the flag clear sets it and owns the context until it clears the
//! flag again; who finds it set has to wait.

use vstd::prelude::*;

verus! {

/// The flag of the lock: set while the context has an exclusive owner.
pub struct RawSpinLock {
    locked: bool,
}

impl RawSpinLock {
    /// Whether the flag is set.
    pub closed spec fn spec_is_locked(&self) -> bool {
        self.locked
    }

    /// The lock whose flag is `locked`.
    pub closed spec fn with_flag(locked: bool) -> RawSpinLock {
        RawSpinLock { locked }
    }

    /// A lock is determined by its flag.
    pub proof fn lemma_flag(self)
        ensures
            self == RawSpinLock::with_flag(self.is_locked()),
            forall|locked: bool| #[trigger] RawSpinLock::with_flag(locked).is_locked() == locked,
    {
    }

    /// Mutual exclusion: from a successful exclusive attempt until the
    /// unlock, the flag is set, so that every exclusive attempt in between
    /// fails, whatever happened before.
    pub proof fn lemma_mutual_exclusion(self)
        ensures
            self.after_try_exclusive().is_locked(),
            !self.after_try_exclusive().grants_exclusive(),
            self.after_unlock().grants_exclusive(),
    {
    }

    /// Whether an exclusive attempt succeeds: exactly when the flag is clear.
    pub open spec fn grants_exclusive(self) -> bool {
        !self.is_locked()
    }

    /// The lock after an exclusive attempt: the flag is set, whether the
    /// attempt set it or found it set.
    pub open spec fn after_try_exclusive(self) -> RawSpinLock {
        RawSpinLock::with_flag(true)
    }

    /// The lock after an unlock: the flag is clear.
    pub open spec fn after_unlock(self) -> RawSpinLock {
        RawSpinLock::with_flag(false)
    }

    /// Creates a lock with its flag clear.
    pub fn new() -> (lock: Self)
        ensures
            lock == RawSpinLock::with_flag(false),
            !lock.is_locked(),
    {
        RawSpinLock { locked: false }
    }

    /// Creates a lock from the value of its flag.
    pub fn from_flag(locked: bool) -> (lock: Self)
        ensures
            lock == RawSpinLock::with_flag(locked),
            lock.is_locked() == locked,
    {
        RawSpinLock { locked }
    }

    /// Gets whether the flag is set.
    #[verifier::when_used_as_spec(spec_is_locked)]
    pub fn is_locked(&self) -> (locked: bool)
        ensures
            locked == self.is_locked(),
    {
        self.locked
    }

    /// Attempts a shared lock. The attempt succeeds exactly when the flag is
    /// set, and leaves the flag as it is.
    pub fn try_lock_shared(&self) -> (acquired: bool)
        ensures
            acquired == self.is_locked(),
    {
        self.locked
    }

    /// Gives a shared lock back: clears the flag.
    pub fn unlock_shared(&mut self)
        ensures
            *final(self) == old(self).after_unlock(),
            !final(self).is_locked(),
    {
        self.locked = false;
    }

    /// Attempts an exclusive lock. The attempt succeeds exactly when the
    /// flag is clear; the flag is set afterwards in either case.
    pub fn try_lock_exclusive(&mut self) -> (acquired: bool)
        ensures
            acquired == old(self).grants_exclusive(),
            *final(self) == old(self).after_try_exclusive(),
            final(self).is_locked(),
    {
        let current = self.locked;

        if !current {
            self.locked = true;
            true
        } else {
            false
        }
    }

    /// Gives an exclusive lock back: clears the flag.
    pub fn unlock_exclusive(&mut self)
        ensures
            *final(self) == old(self).after_unlock(),
            !final(self).is_locked(),
    {
        self.locked = false;
    }
}

} // verus!
