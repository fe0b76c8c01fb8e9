use spinning_rwlock::{LockWord, RawRwSpinlock};

/// What one simulated thread does next.
#[derive(Clone, Copy, PartialEq, Debug)]
enum Phase {
    Acquire,
    Upgrade,
    Work,
    Release,
    Done,
}

/// The kinds of simulated thread.
#[derive(Clone, Copy, PartialEq, Debug)]
enum Role {
    Reader,
    Writer,
    UpgradeReader,
    UpgradeWriter,
}

/// A lock, the value it guards and a flag, with threads that take turns one
/// atomic operation at a time, in an order that shifts each round so that
/// every thread meets contention.
struct Sim {
    lock: RawRwSpinlock,
    value: usize,
    flag: bool,
    roles: Vec<Role>,
    phases: Vec<Phase>,
    seen: Vec<usize>,
    writers_inside: usize,
    readers_inside: usize,
}

impl Sim {
    fn new(value: usize, roles: Vec<Role>) -> Sim {
        let n = roles.len();
        Sim {
            lock: RawRwSpinlock::new(),
            value,
            flag: false,
            roles,
            phases: vec![Phase::Acquire; n],
            seen: Vec::new(),
            writers_inside: 0,
            readers_inside: 0,
        }
    }

    fn turn(&mut self, t: usize) {
        let role = self.roles[t];
        match self.phases[t] {
            Phase::Acquire => {
                let ok = match role {
                    Role::Reader => self.lock.try_lock_shared(),
                    Role::Writer => self.lock.try_lock_exclusive_weak(),
                    Role::UpgradeReader | Role::UpgradeWriter => self.lock.try_lock_upgradable(),
                };
                if ok {
                    self.phases[t] = if role == Role::UpgradeWriter { Phase::Upgrade } else { Phase::Work };
                    if role == Role::Writer {
                        self.writers_inside += 1;
                    } else {
                        self.readers_inside += 1;
                    }
                }
            }
            Phase::Upgrade => {
                if self.lock.try_upgrade_weak() {
                    self.readers_inside -= 1;
                    self.writers_inside += 1;
                    self.phases[t] = Phase::Work;
                }
            }
            Phase::Work => {
                assert!(self.writers_inside <= 1);
                assert!(self.writers_inside == 0 || self.readers_inside == 0);
                match role {
                    Role::Reader => self.seen.push(self.value),
                    Role::UpgradeReader => assert_eq!(self.flag, false),
                    Role::Writer | Role::UpgradeWriter => self.value += 1,
                }
                self.phases[t] = Phase::Release;
            }
            Phase::Release => {
                match role {
                    Role::Reader => self.lock.unlock_shared(),
                    Role::UpgradeReader => self.lock.unlock_upgradable(),
                    Role::Writer | Role::UpgradeWriter => self.lock.unlock_exclusive(),
                }
                if role == Role::Reader || role == Role::UpgradeReader {
                    self.readers_inside -= 1;
                } else {
                    self.writers_inside -= 1;
                }
                self.phases[t] = Phase::Done;
            }
            Phase::Done => {}
        }
    }

    fn run(&mut self) {
        let n = self.roles.len();
        let mut round = 0usize;
        while self.phases.iter().any(|p| *p != Phase::Done) {
            assert!(round < 10_000);
            for k in 0..n {
                let t = (k * 7 + round) % n;
                self.turn(t);
            }
            round += 1;
        }
    }
}

fn read_lock(lock: &RawRwSpinlock) {
    while !lock.try_lock_shared() {
        std::hint::spin_loop();
    }
}

fn write_lock(lock: &RawRwSpinlock) {
    while !lock.try_lock_exclusive_weak() {
        std::hint::spin_loop();
    }
}

#[test]
fn basics() {
    let lock = RawRwSpinlock::new();
    let mut value = 8;
    read_lock(&lock);
    assert_eq!(value, 8);
    lock.unlock_shared();
    write_lock(&lock);
    value = 7;
    lock.unlock_exclusive();
    read_lock(&lock);
    assert_eq!(value, 7);
    lock.unlock_shared();
    assert_eq!(lock.snapshot(), LockWord { bits: 0 });
}

#[test]
fn lib_multiread() {
    let mut sim = Sim::new(7, vec![Role::Reader; 1]);
    sim.run();
    assert_eq!(sim.seen, vec![7]);
    assert_eq!(sim.lock.snapshot(), LockWord { bits: 0 });
}

#[test]
fn lib_multiwrite() {
    let mut sim = Sim::new(0, vec![Role::Writer; 2]);
    sim.run();
    assert_eq!(sim.value, 2);
}

fn upgraders(n: usize) -> Vec<Role> {
    (0..n).map(|i| if i & 1 == 0 { Role::UpgradeReader } else { Role::UpgradeWriter }).collect()
}

#[test]
fn lib_upgrade() {
    let mut sim = Sim::new(0, upgraders(2));
    sim.run();
    assert_eq!(sim.value, 1);
}

#[test]
fn ten_readers_see_seven_and_leave_it_unlocked() {
    let mut sim = Sim::new(7, vec![Role::Reader; 10]);
    sim.run();
    assert_eq!(sim.seen, vec![7; 10]);
    let w = sim.lock.snapshot();
    assert_eq!(w, LockWord { bits: 0 });
    assert_eq!(w.readers(), 0);
}

#[test]
fn ten_writers_count_to_ten() {
    let mut sim = Sim::new(0, vec![Role::Writer; 10]);
    sim.run();
    assert_eq!(sim.value, 10);
    assert_eq!(sim.lock.snapshot(), LockWord { bits: 0 });
}

#[test]
fn twelve_upgradable_threads_add_six() {
    let mut sim = Sim::new(0, upgraders(12));
    sim.run();
    assert_eq!(sim.value, 6);
    assert_eq!(sim.lock.snapshot(), LockWord { bits: 0 });
}

#[test]
fn readers_writers_and_upgraders_mixed() {
    let roles = vec![
        Role::Reader,
        Role::Writer,
        Role::UpgradeWriter,
        Role::Reader,
        Role::UpgradeReader,
        Role::Writer,
        Role::Reader,
    ];
    let mut sim = Sim::new(0, roles);
    sim.run();
    assert_eq!(sim.value, 3);
    assert_eq!(sim.seen.len(), 3);
    assert_eq!(sim.lock.snapshot(), LockWord { bits: 0 });
}

#[test]
fn shared_locks_counted_on_the_lock() {
    let lock = RawRwSpinlock::new();
    for _ in 0..5 {
        assert!(lock.try_lock_shared());
    }
    assert_eq!(lock.snapshot().readers(), 5);
    lock.unlock_shared();
    assert_eq!(lock.snapshot().readers(), 4);
    assert!(!lock.try_lock_exclusive());
    assert_eq!(lock.snapshot(), LockWord { bits: 16 });
}

#[test]
fn writer_excludes_everyone() {
    let lock = RawRwSpinlock::new();
    assert!(lock.try_lock_exclusive());
    assert!(!lock.try_lock_shared());
    assert_eq!(lock.snapshot(), LockWord { bits: 1 });
    assert!(!lock.try_lock_exclusive());
    assert!(!lock.try_lock_upgradable());
    // the failed upgradable attempt leaves the flag, and the release clears it
    assert_eq!(lock.snapshot(), LockWord { bits: 3 });
    lock.unlock_exclusive();
    assert_eq!(lock.snapshot(), LockWord { bits: 0 });
}

#[test]
fn second_upgradable_attempt_fails() {
    let lock = RawRwSpinlock::new();
    assert!(lock.try_lock_upgradable());
    assert!(!lock.try_lock_upgradable());
    assert_eq!(lock.snapshot(), LockWord { bits: 2 });
    assert!(!lock.try_lock_shared());
    lock.unlock_upgradable();
    assert_eq!(lock.snapshot(), LockWord { bits: 0 });
}

#[test]
fn upgrade_waits_for_readers() {
    let lock = RawRwSpinlock::new();
    assert!(lock.try_lock_shared());
    assert!(lock.try_lock_upgradable());
    assert!(!lock.try_upgrade());
    assert_eq!(lock.snapshot(), LockWord { bits: 6 });
    lock.unlock_shared();
    assert!(lock.try_upgrade());
    assert_eq!(lock.snapshot(), LockWord { bits: 1 });
    lock.unlock_exclusive();
    assert_eq!(lock.snapshot(), LockWord { bits: 0 });
}

#[test]
fn lock_downgrade_release_round_trip() {
    let lock = RawRwSpinlock::new();
    assert!(lock.try_lock_exclusive());
    lock.downgrade();
    assert_eq!(lock.snapshot(), LockWord { bits: 4 });
    assert!(lock.try_lock_shared());
    assert!(!lock.try_lock_exclusive());
    lock.unlock_shared();
    lock.unlock_shared();
    assert_eq!(lock.snapshot(), LockWord { bits: 0 });
}

#[test]
fn failed_shared_attempt_changes_nothing_on_the_lock() {
    let lock = RawRwSpinlock::new();
    assert!(lock.try_lock_upgradable());
    assert!(lock.try_lock_shared() == false);
    assert_eq!(lock.snapshot(), LockWord { bits: 2 });
}
