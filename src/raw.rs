//! The lock itself: one atomic word, changed only by single atomic
//! read-modify-write operations. Which outcome each operation reports is
//! decided on the previous value by the methods of `LockWord`.
use core::sync::atomic::{AtomicUsize, Ordering};
use vstd::prelude::*;

use crate::word::{LockWord, READER, UPGRADED, WRITER};

verus! {

/// A reader-writer spinlock: any number of readers, or one writer, plus one
/// upgradable reader that may turn into the writer in place.
///
/// Each method is a single attempt; waiting is left to the caller, who retries
/// the attempt until it succeeds.
pub struct RawRwSpinlock(AtomicUsize);

impl RawRwSpinlock {
    /// An unlocked lock.
    pub fn new() -> (r: RawRwSpinlock) {
        RawRwSpinlock(AtomicUsize::new(0))
    }

    fn ulock(&self) -> &AtomicUsize {
        &self.0
    }

    /// The state word as it is at this instant.
    pub fn snapshot(&self) -> (r: LockWord) {
        LockWord { bits: self.ulock().load(Ordering::Acquire) }
    }

    /// Adds a reader, and takes it back when a writer or an upgradable reader
    /// held the lock at that instant.
    pub fn try_lock_shared(&self) -> (r: bool) {
        let prev = LockWord { bits: self.ulock().fetch_add(READER, Ordering::Acquire) };
        if prev.excludes_readers() {
            self.ulock().fetch_sub(READER, Ordering::Relaxed);
            false
        } else {
            true
        }
    }

    /// Takes the lock for writing if it is fully unlocked.
    pub fn try_lock_exclusive(&self) -> (r: bool) {
        self.ulock().compare_exchange(0, WRITER, Ordering::Acquire, Ordering::Relaxed).is_ok()
    }

    /// One attempt of a writer that spins: as `try_lock_exclusive`, but it
    /// may also fail spuriously, which is cheaper inside a retry loop.
    pub fn try_lock_exclusive_weak(&self) -> (r: bool) {
        self.ulock().compare_exchange_weak(0, WRITER, Ordering::Acquire, Ordering::Relaxed).is_ok()
    }

    /// Releases one reader. The caller holds a shared lock.
    pub fn unlock_shared(&self) {
        self.ulock().fetch_sub(READER, Ordering::Release);
    }

    /// Releases the writer. The caller holds the exclusive lock.
    pub fn unlock_exclusive(&self) {
        self.ulock().fetch_and(!(WRITER | UPGRADED), Ordering::Release);
    }

    /// Sets the upgrade flag, and succeeds when neither a writer nor another
    /// upgradable reader held the lock at that instant.
    pub fn try_lock_upgradable(&self) -> (r: bool) {
        let prev = LockWord { bits: self.ulock().fetch_or(UPGRADED, Ordering::Acquire) };
        !prev.excludes_readers()
    }

    /// Turns the upgradable read into the writer if no reader is left. The
    /// caller holds the upgradable lock.
    pub fn try_upgrade(&self) -> (r: bool) {
        self.ulock().compare_exchange(UPGRADED, WRITER, Ordering::Acquire, Ordering::Relaxed).is_ok()
    }

    /// One attempt of an upgrade that spins: as `try_upgrade`, but it may
    /// also fail spuriously.
    pub fn try_upgrade_weak(&self) -> (r: bool) {
        self.ulock().compare_exchange_weak(
            UPGRADED,
            WRITER,
            Ordering::Acquire,
            Ordering::Relaxed,
        ).is_ok()
    }

    /// Gives the upgrade slot back. The caller holds the upgradable lock and
    /// has not upgraded.
    pub fn unlock_upgradable(&self) {
        self.ulock().fetch_sub(UPGRADED, Ordering::AcqRel);
    }

    /// Turns the writer into a reader without a moment in which the lock
    /// looks free. The caller holds the exclusive lock.
    pub fn downgrade(&self) {
        self.ulock().fetch_add(READER, Ordering::Acquire);
        self.unlock_exclusive();
    }
}

} // verus!
