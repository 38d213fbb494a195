//! The composed critical-section provider over any number of harts: a
//! state machine whose steps are the atomic events of the acquire/release
//! protocol — mask interrupts, one spin attempt on the global lock, work
//! inside the section, the unlocking store, and the interrupt restore.
//!
//! Each hart cycles `Idle -> Entering -> InSection -> Exiting -> Idle`.
//! The module's invariant [`System::inv`] is established by [`System::new`]
//! and preserved by every step; from it follow the central guarantees: at
//! most one hart is ever inside the section, the lock word and the debug
//! depth counter always agree with the set of harts inside, and on exit
//! each hart's status register is restored bit-for-bit to its captured
//! value.

use crate::spinlock::{bool_cas_succeeds, BoolLock};
use crate::status::{decode_token, restore_bits, MaskPattern, UNRECOGNIZED_LOW_BITS};
use crate::status::lemma_restore_round_trip;
use vstd::prelude::*;

verus! {

/// Where one hart stands in the acquire/release protocol.
#[derive(Clone, Copy, PartialEq, Eq, Structural, Debug)]
pub enum Phase {
    /// Outside any critical section.
    Idle,
    /// Interrupts masked, spinning for the global lock.
    Entering,
    /// Holding the lock, interrupts masked: inside the section.
    InSection,
    /// Lock released, interrupts about to be restored.
    Exiting,
}

/// One hart's protocol state: its phase, its own status register, and the
/// restore token it captured on entry (meaningful outside `Idle`).
#[derive(Clone, Copy, PartialEq, Eq, Structural, Debug)]
pub struct Hart {
    /// Where this hart stands in the protocol.
    pub phase: Phase,
    /// The hart's status register, including its interrupt-enable bits.
    pub status: u64,
    /// The register value captured by the read-and-clear on entry.
    pub saved: u64,
}

/// The whole machine: the process-wide singleton lock and depth counter,
/// the configured interrupt mask, one shared memory cell standing for the
/// data the sections protect, and every hart's local state.
pub struct System {
    /// Which interrupt-enable bits every hart masks on entry.
    pub cfg: MaskPattern,
    /// The global boolean spinlock word.
    pub lock: BoolLock,
    /// The debug nesting counter: the number of harts inside the section.
    pub depth: i64,
    /// A cell of lock-protected shared memory.
    pub shared: u64,
    /// The per-hart states, indexed by hart identifier.
    pub harts: Vec<Hart>,
}

impl System {
    /// Whether hart `i` is inside the critical section.
    pub open spec fn in_section(self, i: int) -> bool {
        0 <= i < self.harts.len() && self.harts[i].phase is InSection
    }

    /// Per-hart well-formedness: the status register never has a
    /// never-targeted low bit set, and away from `Idle` the register is
    /// exactly the captured value with the configured bits cleared.
    pub open spec fn hart_ok(self, i: int) -> bool {
        let h = self.harts[i];
        &&& h.status & UNRECOGNIZED_LOW_BITS == 0
        &&& !(h.phase is Idle) ==> {
            &&& h.saved & UNRECOGNIZED_LOW_BITS == 0
            &&& h.status == h.saved & !self.cfg.bits()
        }
    }

    /// The machine invariant, established by `new` and preserved by every
    /// step: mutual exclusion (no two harts inside the section), the lock
    /// word held exactly while some hart is inside, the depth counter
    /// agreeing with the lock, and every hart well-formed.
    pub open spec fn inv(self) -> bool {
        &&& forall|i: int, j: int| self.in_section(i) && self.in_section(j) ==> i == j
        &&& forall|i: int| self.in_section(i) ==> self.lock.locked
        &&& self.lock.locked ==> exists|i: int| self.in_section(i)
        &&& self.depth == if self.lock.locked {
            1int
        } else {
            0int
        }
        &&& forall|i: int| 0 <= i < self.harts.len() ==> self.hart_ok(i)
    }

    /// Everything outside hart `i` that a hart-local step may not touch:
    /// the configuration, the number of harts, and every other hart.
    pub open spec fn frame_except(pre: System, post: System, i: int) -> bool {
        &&& post.cfg == pre.cfg
        &&& post.harts.len() == pre.harts.len()
        &&& forall|j: int| 0 <= j < pre.harts.len() && j != i ==> post.harts[j] == pre.harts[j]
    }

    /// Bring up the machine: every hart idle, the lock free, the depth
    /// counter zero. Initial status registers must not have never-targeted
    /// low bits set — on real hardware those are reserved-zero.
    pub fn new(cfg: MaskPattern, statuses: &Vec<u64>) -> (r: System)
        requires
            forall|i: int|
                0 <= i < statuses.len() ==> #[trigger] statuses[i] & UNRECOGNIZED_LOW_BITS == 0,
        ensures
            r.inv(),
            r.cfg == cfg,
            r.harts.len() == statuses.len(),
            forall|i: int|
                0 <= i < statuses.len() ==> (#[trigger] r.harts[i]).phase is Idle
                    && r.harts[i].status == statuses[i],
            !r.lock.locked,
            r.depth == 0,
            r.shared == 0,
    {
        let mut harts: Vec<Hart> = Vec::new();
        let mut i: usize = 0;
        while i < statuses.len()
            invariant
                i <= statuses.len(),
                harts.len() == i,
                forall|j: int|
                    0 <= j < i ==> (#[trigger] harts[j]).phase is Idle && harts[j].status
                        == statuses[j],
                forall|j: int|
                    0 <= j < statuses.len() ==> #[trigger] statuses[j] & UNRECOGNIZED_LOW_BITS
                        == 0,
            decreases statuses.len() - i,
        {
            harts.push(Hart { phase: Phase::Idle, status: statuses[i], saved: 0 });
            i = i + 1;
        }
        let r = System { cfg, lock: BoolLock::new(), depth: 0, shared: 0, harts };
        assert forall|i: int| 0 <= i < r.harts.len() implies r.hart_ok(i) by {
            assert(r.harts[i].status == statuses[i]);
        }
        r
    }

    /// Entry, first event: the uninterruptible read-and-clear on hart
    /// `c`'s own status register. Captures the register as the restore
    /// token and clears the configured interrupt-enable bits; touches no
    /// global state, so it needs no lock.
    pub fn step_mask_interrupts(&mut self, c: usize)
        requires
            old(self).inv(),
            c < old(self).harts.len(),
            old(self).harts[c as int].phase is Idle,
        ensures
            final(self).inv(),
            System::frame_except(*old(self), *final(self), c as int),
            final(self).lock == old(self).lock,
            final(self).depth == old(self).depth,
            final(self).shared == old(self).shared,
            final(self).harts[c as int].phase is Entering,
            final(self).harts[c as int].saved == old(self).harts[c as int].status,
            final(self).harts[c as int].status == old(self).harts[c as int].status
                & !old(self).cfg.bits(),
    {
        let imm = self.cfg.imm();
        let mut h = self.harts[c];
        h.saved = h.status;
        h.status = h.status & !imm;
        h.phase = Phase::Entering;
        self.harts[c] = h;
        proof {
            assert(old(self).hart_ok(c as int));
            lemma_low_clear_survives_clear(old(self).harts[c as int].status, imm);
            assert forall|i: int| 0 <= i < self.harts.len() implies self.hart_ok(i) by {
                if i != c as int {
                    assert(old(self).hart_ok(i));
                }
            }
            assert forall|i: int| self.in_section(i) implies old(self).in_section(i) by {}
            if self.lock.locked {
                let w = choose|i: int| old(self).in_section(i);
                assert(self.in_section(w));
            }
        }
    }

    /// Entry, spin event: one acquire-ordered compare-and-swap attempt on
    /// the global lock by hart `c`. Succeeds exactly when the lock was
    /// free; on success the hart is inside the section and the depth
    /// counter — provably at its expected value zero — is raised. On
    /// failure nothing changes and the hart keeps spinning: while any
    /// hart is inside, every attempt by every hart fails.
    pub fn step_try_lock(&mut self, c: usize) -> (r: bool)
        requires
            old(self).inv(),
            c < old(self).harts.len(),
            old(self).harts[c as int].phase is Entering,
        ensures
            final(self).inv(),
            System::frame_except(*old(self), *final(self), c as int),
            final(self).shared == old(self).shared,
            r == bool_cas_succeeds(old(self).lock),
            r ==> final(self).harts[c as int].phase is InSection,
            r ==> final(self).lock.locked && old(self).depth == 0 && final(self).depth == 1,
            r ==> final(self).harts[c as int].status == old(self).harts[c as int].status,
            r ==> final(self).harts[c as int].saved == old(self).harts[c as int].saved,
            !r ==> *final(self) == *old(self),
    {
        let won = self.lock.try_acquire();
        if won {
            assert(self.depth == 0);
            self.depth = self.depth + 1;
            let mut h = self.harts[c];
            h.phase = Phase::InSection;
            self.harts[c] = h;
            proof {
                assert forall|i: int, j: int|
                    self.in_section(i) && self.in_section(j) implies i == j by {
                    if i != c as int {
                        assert(old(self).in_section(i));
                    }
                    if j != c as int {
                        assert(old(self).in_section(j));
                    }
                }
                assert(self.in_section(c as int));
                assert forall|i: int| 0 <= i < self.harts.len() implies self.hart_ok(i) by {
                    assert(old(self).hart_ok(i));
                }
            }
        }
        won
    }

    /// Work inside the section: hart `c`, which must be inside, stores a
    /// value into the lock-protected shared memory. No step of any hart
    /// outside the section changes `shared`, so together with mutual
    /// exclusion the holder's writes are the only writes.
    pub fn step_write_shared(&mut self, c: usize, v: u64)
        requires
            old(self).inv(),
            c < old(self).harts.len(),
            old(self).harts[c as int].phase is InSection,
        ensures
            final(self).inv(),
            final(self).harts == old(self).harts,
            final(self).cfg == old(self).cfg,
            final(self).lock == old(self).lock,
            final(self).depth == old(self).depth,
            final(self).shared == v,
    {
        self.shared = v;
        proof {
            assert forall|i: int| self.in_section(i) implies old(self).in_section(i) by {}
            if self.lock.locked {
                let w = choose|i: int| old(self).in_section(i);
                assert(self.in_section(w));
            }
            assert forall|i: int| 0 <= i < self.harts.len() implies self.hart_ok(i) by {
                assert(old(self).hart_ok(i));
            }
        }
    }

    /// Work inside the section: hart `c`, which must be inside, reads the
    /// lock-protected shared memory.
    pub fn step_read_shared(&self, c: usize) -> (r: u64)
        requires
            self.inv(),
            c < self.harts.len(),
            self.harts[c as int].phase is InSection,
        ensures
            r == self.shared,
    {
        self.shared
    }

    /// Exit, first event: the depth counter — provably at its expected
    /// value one — is lowered, then the release-ordered store frees the
    /// global lock. The lock must be given back to other harts before
    /// interrupts come back on this one, so this strictly precedes the
    /// restore.
    pub fn step_unlock(&mut self, c: usize)
        requires
            old(self).inv(),
            c < old(self).harts.len(),
            old(self).harts[c as int].phase is InSection,
        ensures
            final(self).inv(),
            System::frame_except(*old(self), *final(self), c as int),
            final(self).shared == old(self).shared,
            old(self).depth == 1,
            final(self).depth == 0,
            !final(self).lock.locked,
            final(self).harts[c as int].phase is Exiting,
            final(self).harts[c as int].status == old(self).harts[c as int].status,
            final(self).harts[c as int].saved == old(self).harts[c as int].saved,
    {
        proof {
            assert(old(self).in_section(c as int));
        }
        assert(self.depth == 1);
        self.depth = self.depth - 1;
        self.lock.release();
        let mut h = self.harts[c];
        h.phase = Phase::Exiting;
        self.harts[c] = h;
        proof {
            assert forall|i: int| !self.in_section(i) by {
                if self.in_section(i) {
                    assert(old(self).in_section(i));
                    assert(old(self).in_section(c as int));
                }
            }
            assert forall|i: int| 0 <= i < self.harts.len() implies self.hart_ok(i) by {
                assert(old(self).hart_ok(i));
            }
        }
    }

    /// Exit, second event: decode hart `c`'s captured token against the
    /// fixed set of masks and set exactly the captured low-field bits
    /// again. In every reachable state the decode is proven to succeed —
    /// the fatal corrupt-token abort is unreachable through the protocol —
    /// and the hart's status register comes back bit-for-bit equal to the
    /// value captured on entry.
    pub fn step_restore(&mut self, c: usize)
        requires
            old(self).inv(),
            c < old(self).harts.len(),
            old(self).harts[c as int].phase is Exiting,
        ensures
            final(self).inv(),
            System::frame_except(*old(self), *final(self), c as int),
            final(self).lock == old(self).lock,
            final(self).depth == old(self).depth,
            final(self).shared == old(self).shared,
            final(self).harts[c as int].phase is Idle,
            final(self).harts[c as int].status == old(self).harts[c as int].saved,
            final(self).harts[c as int].saved == old(self).harts[c as int].saved,
    {
        let mut h = self.harts[c];
        proof {
            assert(old(self).hart_ok(c as int));
            lemma_restore_round_trip(h.saved, self.cfg);
        }
        let p = match decode_token(h.saved) {
            Ok(p) => p,
            Err(_) => {
                // Unreachable: the invariant keeps every captured token
                // recognizable, so the decode cannot fail here.
                proof {
                    assert(false);
                }
                MaskPattern::Neither
            }
        };
        h.status = restore_bits(h.status, p);
        h.phase = Phase::Idle;
        proof {
            let b = self.cfg.bits();
            lemma_restore_exact(old(self).harts[c as int].saved, b);
        }
        self.harts[c] = h;
        proof {
            assert forall|i: int| self.in_section(i) implies old(self).in_section(i) by {}
            if self.lock.locked {
                let w = choose|i: int| old(self).in_section(i);
                assert(self.in_section(w));
            }
            assert forall|i: int| 0 <= i < self.harts.len() implies self.hart_ok(i) by {
                if i != c as int {
                    assert(old(self).hart_ok(i));
                }
            }
        }
    }
}

/// Clearing bits can only clear: a register with no never-targeted low
/// bit set still has none after any mask is cleared from it.
proof fn lemma_low_clear_survives_clear(s: u64, b: u64)
    by (bit_vector)
    requires
        s & 0b0101 == 0,
    ensures
        (s & !b) & 0b0101 == 0,
{
}

/// Setting back every captured low-field bit after clearing one of the
/// four recognized masks reconstructs the captured value exactly.
proof fn lemma_restore_exact(saved: u64, b: u64)
    by (bit_vector)
    requires
        b == 0b1010 || b == 0b1000 || b == 0b0010 || b == 0b0000,
    ensures
        (saved & !b) | (saved & 0b1111) == saved,
        ((saved & !b) | (saved & 0b1111)) & 0b0101 == saved & 0b0101,
{
}

/// Law: ordering across sections. For every machine state satisfying the
/// invariant, every pair of distinct idle harts `a != b`, and every value
/// `v`: if hart `a` runs a full critical section that stores `v` into the
/// shared memory, and hart `b` afterwards runs a full critical section
/// that reads it, then `b` reads exactly `v` — the write of the earlier
/// section is visible to the later one. Both harts also leave with their
/// status registers restored bit-for-bit.
pub fn handoff(sys: &mut System, a: usize, b: usize, v: u64) -> (r: u64)
    requires
        old(sys).inv(),
        a < old(sys).harts.len(),
        b < old(sys).harts.len(),
        a != b,
        old(sys).harts[a as int].phase is Idle,
        old(sys).harts[b as int].phase is Idle,
        !old(sys).lock.locked,
    ensures
        r == v,
        final(sys).inv(),
        final(sys).shared == v,
        final(sys).harts[a as int].phase is Idle,
        final(sys).harts[b as int].phase is Idle,
        final(sys).harts[a as int].status == old(sys).harts[a as int].status,
        final(sys).harts[b as int].status == old(sys).harts[b as int].status,
        !final(sys).lock.locked,
{
    sys.step_mask_interrupts(a);
    let won_a = sys.step_try_lock(a);
    assert(won_a);
    sys.step_write_shared(a, v);
    sys.step_unlock(a);
    sys.step_restore(a);
    sys.step_mask_interrupts(b);
    let won_b = sys.step_try_lock(b);
    assert(won_b);
    let r = sys.step_read_shared(b);
    sys.step_unlock(b);
    sys.step_restore(b);
    r
}

/// Law: mutual exclusion. In any state the protocol can reach, at most
/// one hart is inside the critical section: two harts both inside are the
/// same hart, so two acquire/release intervals on different harts never
/// overlap.
pub proof fn lemma_mutual_exclusion(s: System, i: int, j: int)
    requires
        s.inv(),
        s.in_section(i),
        s.in_section(j),
    ensures
        i == j,
{
}

/// Law: the debug depth guard holds. In any state the protocol can reach,
/// the nesting counter is zero or one, and it is one exactly while some
/// hart is inside the section — so the entry assertion (counter zero) and
/// the exit assertion (counter one) can never fire.
pub proof fn lemma_depth_guard(s: System)
    requires
        s.inv(),
    ensures
        s.depth == 0 || s.depth == 1,
        (s.depth == 1) <==> exists|i: int| s.in_section(i),
        (s.depth == 1) <==> s.lock.locked,
{
}

/// Law: while some hart is inside the section, the global lock is held,
/// and so by the compare-and-swap contract every spin attempt by every
/// hart fails: waiters keep spinning until the holder leaves.
pub proof fn lemma_waiters_spin(s: System, i: int)
    requires
        s.inv(),
        s.in_section(i),
    ensures
        !bool_cas_succeeds(s.lock),
{
}

} // verus!
