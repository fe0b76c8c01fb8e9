//! The locking protocol under any interleaving of threads: the state word
//! together with what the threads hold, and each atomic operation of
//! `RawRwSpinlock` as one step on both.
use vstd::prelude::*;

use crate::word::{pack, LockWord, MAX_READERS, UPGRADED, WRITER};

verus! {

/// What the threads hold at one instant.
pub struct Holders {
    /// Threads holding a shared lock.
    pub readers: nat,
    /// Threads whose shared attempt failed and whose increment is not yet
    /// taken back.
    pub pending: nat,
    /// A thread holds the exclusive lock.
    pub writer: bool,
    /// A thread holds the upgradable lock.
    pub upgradable: bool,
    /// An upgradable attempt failed while a writer held the lock and left the
    /// upgrade flag set; the writer's release clears it.
    pub stray_upgrade: bool,
    /// The writer is between the two steps of a downgrade: its reader is
    /// already counted, its writer bit not yet cleared.
    pub downgrading: bool,
}

/// The lock at one instant: its state word and its holders.
pub struct Snapshot {
    pub word: LockWord,
    pub holders: Holders,
}

/// One atomic operation of one thread.
pub enum Step {
    /// The increment of a shared attempt.
    SharedAttempt,
    /// The decrement that takes back a failed shared attempt.
    SharedRollback,
    UnlockShared,
    /// The compare-and-swap of an exclusive attempt.
    ExclusiveAttempt,
    UnlockExclusive,
    /// The flag-setting of an upgradable attempt.
    UpgradableAttempt,
    /// The compare-and-swap of an upgrade attempt.
    UpgradeAttempt,
    UnlockUpgradable,
    /// The first half of a downgrade: the writer adds its reader.
    DowngradeAddReader,
    /// The second half of a downgrade: the writer releases the writer bit.
    DowngradeRelease,
}

/// The reader increments that the word carries.
pub open spec fn increments(h: Holders) -> nat {
    h.readers + h.pending + if h.downgrading { 1nat } else { 0nat }
}

/// What holds at every instant of every run.
pub open spec fn well_formed(s: Snapshot) -> bool {
    let h = s.holders;
    &&& s.word.bits == pack(increments(h), h.upgradable || h.stray_upgrade, h.writer)
    &&& increments(h) <= MAX_READERS
    &&& h.writer ==> h.readers == 0 && !h.upgradable
    &&& h.stray_upgrade ==> h.writer
    &&& h.downgrading ==> h.writer
}

/// The unlocked lock that nobody holds.
pub open spec fn initial() -> Snapshot {
    Snapshot {
        word: LockWord { bits: 0 },
        holders: Holders {
            readers: 0,
            pending: 0,
            writer: false,
            upgradable: false,
            stray_upgrade: false,
            downgrading: false,
        },
    }
}

/// Whether some thread may take this step now: it holds what the operation
/// asks of its caller, and the reader field has room for one more increment.
pub open spec fn enabled(s: Snapshot, step: Step) -> bool {
    let h = s.holders;
    match step {
        Step::SharedAttempt => increments(h) < MAX_READERS,
        Step::SharedRollback => h.pending > 0,
        Step::UnlockShared => h.readers > 0,
        Step::ExclusiveAttempt => true,
        Step::UnlockExclusive => h.writer && !h.downgrading,
        Step::UpgradableAttempt => true,
        Step::UpgradeAttempt => h.upgradable,
        Step::UnlockUpgradable => h.upgradable,
        Step::DowngradeAddReader => h.writer && !h.downgrading && increments(h) < MAX_READERS,
        Step::DowngradeRelease => h.downgrading,
    }
}

/// Whether an attempt succeeds, decided on the word it finds.
pub open spec fn succeeds(s: Snapshot, step: Step) -> bool {
    match step {
        Step::SharedAttempt => !s.word.closed_to_readers(),
        Step::ExclusiveAttempt => s.word.bits == 0,
        Step::UpgradableAttempt => !s.word.closed_to_readers(),
        Step::UpgradeAttempt => s.word.bits == UPGRADED,
        _ => true,
    }
}

/// The lock after one step.
pub open spec fn next(s: Snapshot, step: Step) -> Snapshot {
    let w = s.word;
    let h = s.holders;
    match step {
        Step::SharedAttempt => if succeeds(s, step) {
            Snapshot { word: w.reader_added(), holders: Holders { readers: h.readers + 1, ..h } }
        } else {
            Snapshot { word: w.reader_added(), holders: Holders { pending: h.pending + 1, ..h } }
        },
        Step::SharedRollback => Snapshot {
            word: w.reader_removed(),
            holders: Holders { pending: (h.pending - 1) as nat, ..h },
        },
        Step::UnlockShared => Snapshot {
            word: w.reader_removed(),
            holders: Holders { readers: (h.readers - 1) as nat, ..h },
        },
        Step::ExclusiveAttempt => if succeeds(s, step) {
            Snapshot { word: LockWord { bits: WRITER }, holders: Holders { writer: true, ..h } }
        } else {
            s
        },
        Step::UnlockExclusive => Snapshot {
            word: w.flags_cleared(),
            holders: Holders { writer: false, stray_upgrade: false, ..h },
        },
        Step::UpgradableAttempt => if succeeds(s, step) {
            Snapshot { word: w.upgrade_flag_set(), holders: Holders { upgradable: true, ..h } }
        } else if !w.upgraded_set() {
            Snapshot { word: w.upgrade_flag_set(), holders: Holders { stray_upgrade: true, ..h } }
        } else {
            s
        },
        Step::UpgradeAttempt => if succeeds(s, step) {
            Snapshot {
                word: LockWord { bits: WRITER },
                holders: Holders { writer: true, upgradable: false, ..h },
            }
        } else {
            s
        },
        Step::UnlockUpgradable => Snapshot {
            word: w.upgrade_flag_removed(),
            holders: Holders { upgradable: false, ..h },
        },
        Step::DowngradeAddReader => Snapshot {
            word: w.reader_added(),
            holders: Holders { downgrading: true, ..h },
        },
        Step::DowngradeRelease => Snapshot {
            word: w.flags_cleared(),
            holders: Holders {
                readers: h.readers + 1,
                writer: false,
                stray_upgrade: false,
                downgrading: false,
                ..h
            },
        },
    }
}

/// Whether the threads can take these steps one after another from `s`.
pub open spec fn runnable(s: Snapshot, steps: Seq<Step>) -> bool
    decreases steps.len(),
{
    steps.len() == 0 || (enabled(s, steps[0]) && runnable(next(s, steps[0]), steps.drop_first()))
}

/// The lock after these steps, one after another.
pub open spec fn run(s: Snapshot, steps: Seq<Step>) -> Snapshot
    decreases steps.len(),
{
    if steps.len() == 0 {
        s
    } else {
        run(next(s, steps[0]), steps.drop_first())
    }
}

/// The word `pack(n, u, w)` fits in a `usize` and reads back as `n`, `u` and `w`.
proof fn lemma_unpack(bits: usize, n: nat, u: bool, w: bool)
    requires
        n <= MAX_READERS,
        bits == pack(n, u, w),
    ensures
        (LockWord { bits }).reader_count() == n,
        (LockWord { bits }).upgraded_set() == u,
        (LockWord { bits }).writer_set() == w,
{
}

proof fn lemma_pack_fits(n: nat, u: bool, w: bool)
    requires
        n <= MAX_READERS,
    ensures
        0 <= pack(n, u, w) <= usize::MAX,
{
}

/// Every step that a thread may take keeps the lock well formed.
pub proof fn step_keeps_well_formed(s: Snapshot, step: Step)
    requires
        well_formed(s),
        enabled(s, step),
    ensures
        well_formed(next(s, step)),
{
    let h = s.holders;
    let n = increments(h);
    let u = h.upgradable || h.stray_upgrade;
    lemma_unpack(s.word.bits, n, u, h.writer);
    lemma_pack_fits(n, true, h.writer);
    if n < MAX_READERS {
        lemma_pack_fits(n + 1, u, h.writer);
    }
}

/// The unlocked lock is well formed.
pub proof fn initial_is_well_formed()
    ensures
        well_formed(initial()),
{
}

/// Every run of steps from a well-formed lock ends well formed.
pub proof fn run_keeps_well_formed(s: Snapshot, steps: Seq<Step>)
    requires
        well_formed(s),
        runnable(s, steps),
    ensures
        well_formed(run(s, steps)),
    decreases steps.len(),
{
    if steps.len() > 0 {
        step_keeps_well_formed(s, steps[0]);
        run_keeps_well_formed(next(s, steps[0]), steps.drop_first());
    }
}

/// Mutual exclusion: at every instant of every run from the unlocked lock, a
/// writer never holds the lock together with a reader or the upgradable
/// reader, and the writer bit is set exactly while a writer holds the lock.
pub proof fn mutual_exclusion(steps: Seq<Step>)
    requires
        runnable(initial(), steps),
    ensures
        ({
            let h = run(initial(), steps).holders;
            h.writer ==> h.readers == 0 && !h.upgradable
        }),
        run(initial(), steps).word.writer_set() == run(initial(), steps).holders.writer,
{
    run_keeps_well_formed(initial(), steps);
    let s = run(initial(), steps);
    let h = s.holders;
    lemma_unpack(s.word.bits, increments(h), h.upgradable || h.stray_upgrade, h.writer);
}

/// A writer is only ever admitted while no writer holds the lock: an
/// exclusive attempt or an upgrade that succeeds finds no writer.
pub proof fn one_writer_at_a_time(s: Snapshot, step: Step)
    requires
        well_formed(s),
        enabled(s, step),
        step == Step::ExclusiveAttempt || step == Step::UpgradeAttempt,
        succeeds(s, step),
    ensures
        !s.holders.writer,
        next(s, step).holders.writer,
{
    let h = s.holders;
    lemma_unpack(s.word.bits, increments(h), h.upgradable || h.stray_upgrade, h.writer);
}

/// The upgrade slot holds one thread: while it is held, an upgradable
/// attempt fails at once and changes nothing.
pub proof fn single_upgrade_slot(s: Snapshot)
    requires
        well_formed(s),
        s.holders.upgradable,
    ensures
        !succeeds(s, Step::UpgradableAttempt),
        next(s, Step::UpgradableAttempt) == s,
{
    let h = s.holders;
    lemma_unpack(s.word.bits, increments(h), h.upgradable || h.stray_upgrade, h.writer);
}

/// An upgrade succeeds exactly when no reader holds the lock, once no failed
/// shared attempt is waiting to take its increment back; so it succeeds as
/// soon as the readers have left.
pub proof fn upgrade_when_readers_gone(s: Snapshot)
    requires
        well_formed(s),
        s.holders.upgradable,
        s.holders.pending == 0,
    ensures
        succeeds(s, Step::UpgradeAttempt) <==> s.holders.readers == 0,
{
    let h = s.holders;
    lemma_unpack(s.word.bits, increments(h), h.upgradable || h.stray_upgrade, h.writer);
}

/// A failed shared attempt, once taken back, leaves the word and the holders
/// as they were before it.
pub proof fn failed_shared_attempt_leaves_no_trace(s: Snapshot)
    requires
        well_formed(s),
        enabled(s, Step::SharedAttempt),
        !succeeds(s, Step::SharedAttempt),
    ensures
        next(next(s, Step::SharedAttempt), Step::SharedRollback) == s,
{
    let h = s.holders;
    lemma_unpack(s.word.bits, increments(h), h.upgradable || h.stray_upgrade, h.writer);
    lemma_pack_fits(increments(h) + 1, h.upgradable || h.stray_upgrade, h.writer);
}

/// The upgrade flag that a writer's release clears never belongs to a held
/// upgradable lock: while a writer holds the lock nobody holds the upgrade
/// slot, so the flag is one left by a failed upgradable attempt.
pub proof fn writer_release_cancels_no_upgrade(s: Snapshot, step: Step)
    requires
        well_formed(s),
        enabled(s, step),
        step == Step::UnlockExclusive || step == Step::DowngradeRelease,
    ensures
        !s.holders.upgradable,
        !next(s, step).holders.upgradable,
{
}

/// Round trip: an exclusive lock that succeeds, a downgrade and a shared
/// release, with no other step in between, bring the lock back to exactly
/// what it was before the lock.
pub proof fn downgrade_round_trip(s: Snapshot)
    requires
        well_formed(s),
        succeeds(s, Step::ExclusiveAttempt),
    ensures
        runnable(
            s,
            seq![Step::ExclusiveAttempt, Step::DowngradeAddReader, Step::DowngradeRelease, Step::UnlockShared],
        ),
        run(
            s,
            seq![Step::ExclusiveAttempt, Step::DowngradeAddReader, Step::DowngradeRelease, Step::UnlockShared],
        ) == s,
{
    let h = s.holders;
    lemma_unpack(s.word.bits, increments(h), h.upgradable || h.stray_upgrade, h.writer);
    let steps = seq![Step::ExclusiveAttempt, Step::DowngradeAddReader, Step::DowngradeRelease, Step::UnlockShared];
    let s1 = next(s, Step::ExclusiveAttempt);
    let s2 = next(s1, Step::DowngradeAddReader);
    let s3 = next(s2, Step::DowngradeRelease);
    let s4 = next(s3, Step::UnlockShared);
    assert(s4 == s);
    let t1 = steps.drop_first();
    let t2 = t1.drop_first();
    let t3 = t2.drop_first();
    let t4 = t3.drop_first();
    assert(t1 =~= seq![Step::DowngradeAddReader, Step::DowngradeRelease, Step::UnlockShared]);
    assert(t2 =~= seq![Step::DowngradeRelease, Step::UnlockShared]);
    assert(t3 =~= seq![Step::UnlockShared]);
    assert(t4.len() == 0);
    assert(run(s4, t4) == s4 && runnable(s4, t4));
    assert(run(s3, t3) == s4 && runnable(s3, t3));
    assert(run(s2, t2) == s4 && runnable(s2, t2));
    assert(run(s1, t1) == s4 && runnable(s1, t1));
}

} // verus!
