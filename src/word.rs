//! The lock's state word as a plain value, and the effect that each atomic
//! operation of the lock has on it.
use vstd::prelude::*;

verus! {

/// Bit set while a writer holds the lock.
pub const WRITER: usize = 1;

/// Bit set while an upgradable reader holds the single upgrade slot.
pub const UPGRADED: usize = 2;

/// One reader: the lowest bit of the reader field, above the two flags.
pub const READER: usize = 4;

/// The largest reader count that the reader field holds; one more increment
/// wraps it to zero.
pub const MAX_READERS: usize = usize::MAX / 4;

/// The word holding `readers` readers and the two flags.
pub open spec fn pack(readers: nat, upgraded: bool, writer: bool) -> int {
    4 * readers + (if upgraded { 2int } else { 0int }) + (if writer { 1int } else { 0int })
}

/// One value of the lock's state word.
#[derive(Clone, Copy, Debug, PartialEq, Eq, Structural)]
pub struct LockWord {
    pub bits: usize,
}

impl LockWord {
    /// The writer bit.
    pub open spec fn writer_set(self) -> bool {
        self.bits % 2 == 1
    }

    /// The upgrade flag.
    pub open spec fn upgraded_set(self) -> bool {
        (self.bits / 2) % 2 == 1
    }

    /// The reader field: how many reader increments the word carries.
    pub open spec fn reader_count(self) -> nat {
        (self.bits / 4) as nat
    }

    /// A writer holds the lock or the upgrade slot is taken: no reader may enter.
    pub open spec fn closed_to_readers(self) -> bool {
        self.writer_set() || self.upgraded_set()
    }

    /// The word after one reader increment, wrapping as the atomic add does.
    pub open spec fn reader_added(self) -> LockWord {
        LockWord { bits: self.bits.wrapping_add(READER) }
    }

    /// The word after one reader decrement, wrapping as the atomic subtraction does.
    pub open spec fn reader_removed(self) -> LockWord {
        LockWord { bits: self.bits.wrapping_sub(READER) }
    }

    /// The word with both flags cleared and the reader field kept.
    pub open spec fn flags_cleared(self) -> LockWord {
        LockWord { bits: (self.bits - self.bits % 4) as usize }
    }

    /// The word with the upgrade flag set.
    pub open spec fn upgrade_flag_set(self) -> LockWord {
        if self.upgraded_set() {
            self
        } else {
            LockWord { bits: (self.bits + UPGRADED) as usize }
        }
    }

    /// The word after the upgrade flag's value is subtracted.
    pub open spec fn upgrade_flag_removed(self) -> LockWord {
        LockWord { bits: self.bits.wrapping_sub(UPGRADED) }
    }

    /// The word of an unlocked lock.
    pub fn unlocked() -> (r: LockWord)
        ensures
            r.bits == 0,
            r.reader_count() == 0,
            !r.writer_set(),
            !r.upgraded_set(),
    {
        LockWord { bits: 0 }
    }

    /// How many readers the word counts.
    pub fn readers(&self) -> (r: usize)
        ensures
            r == self.reader_count(),
    {
        self.bits / READER
    }

    /// Whether the writer bit is set.
    pub fn has_writer(&self) -> (r: bool)
        ensures
            r == self.writer_set(),
    {
        let b = self.bits;
        assert(b & WRITER == b % 2) by (bit_vector);
        b & WRITER != 0
    }

    /// Whether the upgrade flag is set.
    pub fn has_upgrade(&self) -> (r: bool)
        ensures
            r == self.upgraded_set(),
    {
        let b = self.bits;
        assert((b & UPGRADED != 0) == ((b / 2) % 2 == 1)) by (bit_vector);
        b & UPGRADED != 0
    }

    /// Whether a writer or an upgradable reader keeps plain readers and new
    /// upgradable readers out.
    pub fn excludes_readers(&self) -> (r: bool)
        ensures
            r == self.closed_to_readers(),
    {
        let b = self.bits;
        assert((b & (WRITER | UPGRADED) != 0) == (b % 2 == 1 || (b / 2) % 2 == 1)) by (bit_vector);
        b & (WRITER | UPGRADED) != 0
    }

    /// A shared attempt on this word alone: add a reader, and take it back
    /// when a writer or an upgradable reader was there before.
    pub fn try_lock_shared(&mut self) -> (r: bool)
        ensures
            r == !old(self).closed_to_readers(),
            r ==> *final(self) == old(self).reader_added(),
            !r ==> *final(self) == *old(self),
    {
        let prev = *self;
        self.bits = self.bits.wrapping_add(READER);
        if prev.excludes_readers() {
            self.bits = self.bits.wrapping_sub(READER);
            false
        } else {
            true
        }
    }

    /// An exclusive attempt: from the unlocked word to the writer bit alone.
    pub fn try_lock_exclusive(&mut self) -> (r: bool)
        ensures
            r == (old(self).bits == 0),
            r ==> final(self).bits == WRITER,
            !r ==> *final(self) == *old(self),
    {
        if self.bits == 0 {
            self.bits = WRITER;
            true
        } else {
            false
        }
    }

    /// Releases one reader.
    pub fn unlock_shared(&mut self)
        ensures
            *final(self) == old(self).reader_removed(),
    {
        self.bits = self.bits.wrapping_sub(READER);
    }

    /// Releases the writer: clears the writer bit and the upgrade flag.
    pub fn unlock_exclusive(&mut self)
        ensures
            *final(self) == old(self).flags_cleared(),
    {
        let b = self.bits;
        assert(b & !(WRITER | UPGRADED) == (b - b % 4) as usize) by (bit_vector);
        self.bits = b & !(WRITER | UPGRADED);
    }

    /// An upgradable attempt: sets the upgrade flag, and succeeds when neither
    /// flag was set before.
    pub fn try_lock_upgradable(&mut self) -> (r: bool)
        ensures
            r == !old(self).closed_to_readers(),
            *final(self) == old(self).upgrade_flag_set(),
    {
        let prev = *self;
        let b = self.bits;
        assert(b | UPGRADED == (if (b / 2) % 2 == 1 { b } else { (b + UPGRADED) as usize }))
            by (bit_vector);
        self.bits = b | UPGRADED;
        !prev.excludes_readers()
    }

    /// An upgrade attempt: from the upgrade flag alone to the writer bit alone.
    pub fn try_upgrade(&mut self) -> (r: bool)
        ensures
            r == (old(self).bits == UPGRADED),
            r ==> final(self).bits == WRITER,
            !r ==> *final(self) == *old(self),
    {
        if self.bits == UPGRADED {
            self.bits = WRITER;
            true
        } else {
            false
        }
    }

    /// Gives the upgrade slot back.
    pub fn unlock_upgradable(&mut self)
        ensures
            *final(self) == old(self).upgrade_flag_removed(),
    {
        self.bits = self.bits.wrapping_sub(UPGRADED);
    }

    /// Turns the writer into a reader: adds a reader first, then releases the
    /// writer.
    pub fn downgrade(&mut self)
        ensures
            *final(self) == old(self).reader_added().flags_cleared(),
    {
        self.bits = self.bits.wrapping_add(READER);
        self.unlock_exclusive();
    }
}

/// The word after `n` successful shared attempts on an unlocked lock, with no
/// release in between.
pub open spec fn after_shared_locks(n: nat) -> LockWord
    decreases n,
{
    if n == 0 {
        LockWord { bits: 0 }
    } else {
        after_shared_locks((n - 1) as nat).reader_added()
    }
}

/// Reader counting: after `n` shared locks on an unlocked lock the word
/// counts `n` readers and no flag, so the next shared attempt succeeds too.
pub proof fn shared_locks_are_counted(n: nat)
    requires
        n <= MAX_READERS,
    ensures
        after_shared_locks(n).reader_count() == n,
        after_shared_locks(n).bits == 4 * n,
        !after_shared_locks(n).closed_to_readers(),
    decreases n,
{
    if n > 0 {
        shared_locks_are_counted((n - 1) as nat);
    }
}

/// Reader counting: one shared release takes one reader off the count and
/// leaves both flags as they were.
pub proof fn shared_release_counts_down(w: LockWord)
    requires
        w.reader_count() > 0,
    ensures
        w.reader_removed().reader_count() == w.reader_count() - 1,
        w.reader_removed().writer_set() == w.writer_set(),
        w.reader_removed().upgraded_set() == w.upgraded_set(),
{
}

} // verus!
