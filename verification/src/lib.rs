//! A verified model of a process-wide critical-section primitive for a
//! multi-hart bare-metal processor.
//!
//! The primitive pairs two mechanisms:
//!
//! * an interrupt mask, which atomically clears a configured set of
//!   interrupt-enable bits in the hart's status register and later restores
//!   them bit-for-bit from a captured token ([`status`]);
//! * a global spinlock that serializes entry among harts ([`spinlock`]).
//!
//! [`system`] composes the two into the full acquire/release protocol over
//! any number of harts and proves its central invariant: at most one hart is
//! inside the critical section at any time.
//!
//! The hardware itself (the status register, the atomic compare-and-swap)
//! is modeled by plain values; the thin layer that issues the actual
//! register instructions and registers the provider lives outside this
//! library and takes every decision from the verified functions here.

pub mod spinlock;
pub mod status;
pub mod system;
