//! The cross-hart spinlock half of the critical section: models of the
//! atomic lock word and of single compare-and-swap attempts on it, in the
//! two forms that a deployment may choose between — a boolean lock that
//! records nothing about its holder, and an owner-tracking lock with a
//! same-hart re-entry fast path.
//!
//! Each `try_acquire` models exactly one atomic attempt; a hart acquires
//! the lock by repeating attempts (busy-waiting) until one succeeds.

use vstd::prelude::*;

verus! {

/// The boolean-form lock word: locked or not, with no notion of which hart
/// holds it.
#[derive(Clone, Copy, PartialEq, Eq, Structural, Debug)]
pub struct BoolLock {
    /// Whether some hart currently holds the lock.
    pub locked: bool,
}

/// Whether a single compare-and-swap attempt on the boolean lock succeeds
/// in the given state: exactly when the lock is free. The caller's own
/// identity plays no part — this form has no re-entry fast path.
pub open spec fn bool_cas_succeeds(s: BoolLock) -> bool {
    !s.locked
}

impl BoolLock {
    /// A fresh, unheld lock.
    pub fn new() -> (r: BoolLock)
        ensures
            !r.locked,
    {
        BoolLock { locked: false }
    }

    /// One acquire-ordered compare-and-swap attempt: transition the lock
    /// word from free to held, succeeding exactly when it was free and
    /// leaving it unchanged (still held) otherwise.
    pub fn try_acquire(&mut self) -> (r: bool)
        ensures
            r == bool_cas_succeeds(*old(self)),
            final(self).locked,
            !r ==> *final(self) == *old(self),
    {
        if self.locked {
            false
        } else {
            self.locked = true;
            true
        }
    }

    /// The release-ordered store that frees the lock. The store is
    /// unconditional, as the hardware store is: nothing checks that the
    /// caller holds the lock, so calling this without holding it is a
    /// caller error that breaks mutual exclusion.
    pub fn release(&mut self)
        ensures
            !final(self).locked,
    {
        self.locked = false;
    }
}

/// Law: self-deadlock of the boolean form. While the lock is held, no
/// compare-and-swap attempt succeeds — including an attempt by the holder
/// itself, since the boolean form records no holder. A hart that calls
/// acquire a second time without an intervening release therefore spins
/// forever: every attempt it makes finds the lock held and fails. This is
/// the documented hazard of the boolean form, not a defect to paper over.
pub proof fn lemma_bool_self_deadlock(s: BoolLock)
    requires
        s.locked,
    ensures
        !bool_cas_succeeds(s),
{
}

/// The owner-form lock word: free, or held by a particular hart.
#[derive(Clone, Copy, PartialEq, Eq, Structural, Debug)]
pub enum OwnerLock {
    /// No hart holds the lock.
    Unlocked,
    /// The hart with this identifier holds the lock.
    LockedBy {
        /// The holding hart's hardware identifier.
        hart: u64,
    },
}

/// Whether a single acquire attempt by `hart` succeeds in the given state:
/// when the lock is free, or — the fast path — when `hart` already holds
/// it.
pub open spec fn owner_acquire_succeeds(s: OwnerLock, hart: u64) -> bool {
    s is Unlocked || s == (OwnerLock::LockedBy { hart })
}

impl OwnerLock {
    /// A fresh, unheld lock.
    pub fn new() -> (r: OwnerLock)
        ensures
            r is Unlocked,
    {
        OwnerLock::Unlocked
    }

    /// Whether `hart` currently holds the lock.
    pub open spec fn held_by(self, hart: u64) -> bool {
        self == (OwnerLock::LockedBy { hart })
    }

    /// One acquire attempt by `hart`: succeed at once if the lock is free
    /// or if `hart` already holds it (the re-entry fast path, which skips
    /// the compare-and-swap entirely); fail, changing nothing, while any
    /// other hart holds it.
    ///
    /// The fast path re-enters at the lock level only: release frees the
    /// lock unconditionally, with no depth count gating the unlock, so an
    /// inner release would strip protection from the still-active outer
    /// section. This lock is therefore genuinely non-reentrant, and
    /// acquiring it twice on one hart without an intervening release is a
    /// caller error.
    pub fn try_acquire(&mut self, hart: u64) -> (r: bool)
        ensures
            r == owner_acquire_succeeds(*old(self), hart),
            r ==> final(self).held_by(hart),
            !r ==> *final(self) == *old(self),
    {
        match *self {
            OwnerLock::Unlocked => {
                *self = OwnerLock::LockedBy { hart };
                true
            }
            OwnerLock::LockedBy { hart: holder } => holder == hart,
        }
    }

    /// The release-ordered store that frees the lock. Releasing a lock the
    /// caller does not hold is a caller error, so holding it is required.
    pub fn release(&mut self, hart: u64)
        requires
            old(self).held_by(hart),
        ensures
            *final(self) is Unlocked,
    {
        *self = OwnerLock::Unlocked;
    }
}

/// Law: the owner-form fast path. A hart that already holds the lock and
/// attempts to acquire it again succeeds immediately — without spinning —
/// while every attempt made by any other hart in the same state fails, so
/// all other harts continue to block.
pub proof fn lemma_owner_fast_path(s: OwnerLock, holder: u64, other: u64)
    requires
        s.held_by(holder),
        other != holder,
    ensures
        owner_acquire_succeeds(s, holder),
        !owner_acquire_succeeds(s, other),
{
}

} // verus!
