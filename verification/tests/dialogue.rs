//! Whole dialogues between the machine and a simulated operating system.

use std::collections::BTreeSet;

use shm_open_anonymous::abi::Abi;
use shm_open_anonymous::machine::{Action, Event, Machine, Phase};
use shm_open_anonymous::name::CandidateName;
use shm_open_anonymous::platform::Platform;

const FIRST_NAME: &[u8; 25] = b"/shm_open_anonymous-XXXX\0";

/// A shared-memory namespace and a descriptor table, with switches that make
/// single calls fail.
struct FakeOs {
    abi: Abi,
    names: BTreeSet<Vec<u8>>,
    open: BTreeSet<i32>,
    next_fd: i32,
    readings: Vec<i64>,
    memfd_errno: Option<i32>,
    create_errno: Option<i32>,
    unlink_fails: bool,
    clock_fails: bool,
    log: Vec<Action>,
}

impl FakeOs {
    fn new() -> FakeOs {
        FakeOs {
            abi: Abi::host(),
            names: BTreeSet::new(),
            open: BTreeSet::new(),
            next_fd: 3,
            readings: Vec::new(),
            memfd_errno: None,
            create_errno: None,
            unlink_fails: false,
            clock_fails: false,
            log: Vec::new(),
        }
    }

    fn allocate(&mut self) -> i32 {
        let fd = self.next_fd;
        self.next_fd += 1;
        self.open.insert(fd);
        fd
    }

    fn shm_open(&mut self, name: &[u8], flags: i32) -> Event {
        assert_eq!(name.last(), Some(&0u8));
        if let Some(errno) = self.create_errno {
            return Event::Opened { fd: -1, errno };
        }
        let exclusive = self.abi.o_creat | self.abi.o_excl;
        if self.names.contains(name) && flags & exclusive == exclusive {
            return Event::Opened { fd: -1, errno: self.abi.eexist };
        }
        self.names.insert(name.to_vec());
        let fd = self.allocate();
        Event::Opened { fd, errno: 0 }
    }

    fn close(&mut self, fd: i32) -> i32 {
        if self.open.remove(&fd) {
            0
        } else {
            -1
        }
    }

    fn perform(&mut self, action: &Action) -> Event {
        self.log.push(*action);
        match action {
            Action::MemfdCreate { .. } => match self.memfd_errno {
                Some(errno) => Event::Opened { fd: -1, errno },
                None => {
                    let fd = self.allocate();
                    Event::Opened { fd, errno: 0 }
                }
            },
            Action::ShmOpenAnonymous { .. } => {
                let fd = self.allocate();
                Event::Opened { fd, errno: 0 }
            }
            Action::ShmOpen { name, flags, .. } => self.shm_open(name.as_bytes(), *flags),
            Action::ShmUnlink { name } => {
                if self.unlink_fails || !self.names.remove(&name.as_bytes().to_vec()) {
                    Event::Unlinked { status: -1 }
                } else {
                    Event::Unlinked { status: 0 }
                }
            }
            Action::Close { fd } => {
                self.close(*fd);
                Event::Closed
            }
            Action::ClockGettime { .. } => {
                if self.clock_fails {
                    Event::ClockRead { status: -1, nanos: 0 }
                } else {
                    let nanos = self.readings.remove(0);
                    Event::ClockRead { status: 0, nanos }
                }
            }
            Action::Return { .. } => panic!("a return is not carried out"),
        }
    }

    /// Runs one whole invocation and gives what it returns.
    fn invoke(&mut self, platform: Platform) -> i32 {
        self.run(Machine::new(platform, self.abi))
    }

    /// Carries out what `machine` asks for until it names what to return.
    fn run(&mut self, mut machine: Machine) -> i32 {
        for _ in 0..1000 {
            let action = machine.action();
            if let Action::Return { fd } = action {
                assert_eq!(machine.result(), Some(fd));
                return fd;
            }
            assert_eq!(machine.result(), None);
            let event = self.perform(&action);
            machine = machine.step(event);
        }
        panic!("the dialogue did not end");
    }

    fn created(&self) -> Vec<Vec<u8>> {
        let mut names = Vec::new();
        for action in &self.log {
            if let Action::ShmOpen { name, .. } = action {
                names.push(name.as_bytes().to_vec());
            }
        }
        names
    }
}

#[test]
fn shm_open_anonymous() {
    let mut os = FakeOs::new();
    let fd = os.run(shm_open_anonymous::shm_open_anonymous(Platform::Linux));
    assert!(fd != -1);
    assert!(os.close(fd) != -1);
}

#[test]
fn shm_open_anonymous_posix() {
    let mut os = FakeOs::new();
    let fd = os.invoke(Platform::Posix);
    assert!(fd != -1);
    assert!(os.close(fd) != -1);
}

#[test]
fn shm_open_anonymous_posix_contention() {
    let mut os = FakeOs::new();
    os.readings = vec![123_456_789];
    let flags = os.abi.o_rdwr | os.abi.o_creat | os.abi.o_excl | os.abi.o_nofollow;
    let taken = os.shm_open(b"/shm_open_anonymous-XXXX\0", flags);
    let taken_fd = match taken {
        Event::Opened { fd, .. } => fd,
        _ => -1,
    };
    assert!(taken_fd != -1);
    let fd = os.invoke(Platform::Posix);
    os.close(taken_fd);
    assert!(fd != -1);
    assert!(os.close(fd) != -1);
}

#[test]
fn posix_success_leaves_no_name_behind() {
    let mut os = FakeOs::new();
    let fd = os.invoke(Platform::Posix);
    assert_eq!(fd, 3);
    assert!(os.names.is_empty());
    assert_eq!(os.open.iter().copied().collect::<Vec<i32>>(), vec![3]);
    assert_eq!(os.created(), vec![FIRST_NAME.to_vec()]);
    assert_eq!(
        os.log,
        vec![
            Action::ShmOpen {
                name: CandidateName::placeholder(),
                flags: libc::O_RDWR | libc::O_CREAT | libc::O_EXCL | libc::O_NOFOLLOW,
                mode: 0o600,
            },
            Action::ShmUnlink { name: CandidateName::placeholder() },
        ]
    );
}

#[test]
fn contention_picks_another_suffix_and_keeps_the_taken_name() {
    let mut os = FakeOs::new();
    os.readings = vec![123_456_789];
    os.names.insert(FIRST_NAME.to_vec());
    let taken_fd = os.allocate();
    let fd = os.invoke(Platform::Posix);
    assert!(fd != -1);
    assert!(fd != taken_fd);
    assert_eq!(
        os.created(),
        vec![FIRST_NAME.to_vec(), b"/shm_open_anonymous-6789\0".to_vec()]
    );
    assert_eq!(os.names.iter().cloned().collect::<Vec<_>>(), vec![FIRST_NAME.to_vec()]);
    assert!(os.open.contains(&taken_fd));
    assert!(os.open.contains(&fd));
    assert_eq!(os.log[1], Action::ClockGettime { clock: libc::CLOCK_REALTIME });
}

#[test]
fn contention_is_retried_as_often_as_it_occurs() {
    let mut os = FakeOs::new();
    os.readings = vec![7, 10_007, 999_990_042, 5];
    os.names.insert(FIRST_NAME.to_vec());
    os.names.insert(b"/shm_open_anonymous-0007\0".to_vec());
    os.names.insert(b"/shm_open_anonymous-0042\0".to_vec());
    let fd = os.invoke(Platform::Posix);
    assert!(fd != -1);
    assert_eq!(
        os.created(),
        vec![
            FIRST_NAME.to_vec(),
            b"/shm_open_anonymous-0007\0".to_vec(),
            b"/shm_open_anonymous-0007\0".to_vec(),
            b"/shm_open_anonymous-0042\0".to_vec(),
            b"/shm_open_anonymous-0005\0".to_vec(),
        ]
    );
    assert_eq!(os.names.len(), 3);
    assert!(!os.names.contains(&b"/shm_open_anonymous-0005\0".to_vec()));
    assert!(os.readings.is_empty());
}

#[test]
fn creation_failure_other_than_contention_is_final() {
    let mut os = FakeOs::new();
    os.create_errno = Some(libc::EACCES);
    let fd = os.invoke(Platform::Posix);
    assert_eq!(fd, -1);
    assert!(os.open.is_empty());
    assert!(os.names.is_empty());
    assert_eq!(os.log.len(), 1);
}

#[test]
fn failed_unlink_closes_the_descriptor_and_fails() {
    let mut os = FakeOs::new();
    os.unlink_fails = true;
    let fd = os.invoke(Platform::Posix);
    assert_eq!(fd, -1);
    assert!(os.open.is_empty());
    assert_eq!(os.log.len(), 3);
    assert_eq!(os.log[2], Action::Close { fd: 3 });
}

#[test]
fn failed_clock_read_is_final() {
    let mut os = FakeOs::new();
    os.names.insert(FIRST_NAME.to_vec());
    os.clock_fails = true;
    let fd = os.invoke(Platform::Posix);
    assert_eq!(fd, -1);
    assert!(os.open.is_empty());
    assert_eq!(os.log.len(), 2);
}

#[test]
fn linux_asks_for_an_in_memory_file_first() {
    let mut os = FakeOs::new();
    let fd = os.invoke(Platform::Linux);
    assert_eq!(fd, 3);
    assert_eq!(
        os.log,
        vec![Action::MemfdCreate { label: *b"shm_open_anonymous\0", flags: libc::MFD_CLOEXEC }]
    );
}

#[test]
fn linux_falls_back_when_the_kernel_lacks_the_call() {
    let mut os = FakeOs::new();
    os.memfd_errno = Some(libc::ENOSYS);
    let fd = os.invoke(Platform::Linux);
    assert_eq!(fd, 3);
    assert!(os.names.is_empty());
    assert_eq!(os.created(), vec![FIRST_NAME.to_vec()]);
    assert_eq!(os.log.len(), 3);
}

#[test]
fn linux_reports_any_other_failure_of_the_in_memory_file() {
    let mut os = FakeOs::new();
    os.memfd_errno = Some(libc::EMFILE);
    let fd = os.invoke(Platform::Linux);
    assert_eq!(fd, -1);
    assert_eq!(os.log.len(), 1);
    assert!(os.open.is_empty());
}

#[test]
fn android_has_no_fallback() {
    let mut os = FakeOs::new();
    os.memfd_errno = Some(libc::ENOSYS);
    let fd = os.invoke(Platform::Android);
    assert_eq!(fd, -1);
    assert_eq!(os.log.len(), 1);

    let mut os = FakeOs::new();
    assert_eq!(os.invoke(Platform::Android), 3);
}

#[test]
fn freebsd_opens_without_a_name() {
    let mut os = FakeOs::new();
    let fd = os.invoke(Platform::FreeBsd);
    assert_eq!(fd, 3);
    assert_eq!(os.log, vec![Action::ShmOpenAnonymous { flags: libc::O_RDWR, mode: 0 }]);

    let machine = Machine::new(Platform::FreeBsd, Abi::host());
    let failed = machine.step(Event::Opened { fd: -1, errno: libc::EACCES });
    assert_eq!(failed.action(), Action::Return { fd: -1 });
}

#[test]
fn repeated_invocations_all_succeed_and_start_alike() {
    let mut os = FakeOs::new();
    let mut fds = Vec::new();
    for _ in 0..50 {
        let fd = os.invoke(Platform::Posix);
        assert!(fd != -1);
        assert!(os.names.is_empty());
        fds.push(fd);
    }
    assert_eq!(fds, (3..53).collect::<Vec<i32>>());
    assert_eq!(os.created(), vec![FIRST_NAME.to_vec(); 50]);
    for fd in fds {
        assert_eq!(os.close(fd), 0);
    }
    assert!(os.open.is_empty());
}

#[test]
fn an_event_that_answers_nothing_pending_is_ignored() {
    let machine = Machine::new(Platform::Posix, Abi::host());
    assert_eq!(machine.step(Event::Closed), machine);
    assert_eq!(machine.step(Event::Unlinked { status: 0 }), machine);
    assert_eq!(machine.step(Event::ClockRead { status: 0, nanos: 1 }), machine);

    let finished =
        machine.step(Event::Opened { fd: 4, errno: 0 }).step(Event::Unlinked { status: 0 });
    assert_eq!(finished.phase, Phase::Finished { fd: 4 });
    assert_eq!(finished.step(Event::Opened { fd: 9, errno: 0 }), finished);
    assert_eq!(finished.step(Event::Closed), finished);
}

#[test]
fn the_numbers_compared_are_those_of_the_abi_given() {
    let abi = Abi {
        o_rdwr: 1,
        o_creat: 2,
        o_excl: 4,
        o_nofollow: 8,
        eexist: 1000,
        enosys: 2000,
        clock_realtime: 77,
        mfd_cloexec: 16,
    };
    let machine = Machine::new(Platform::Posix, abi);
    assert_eq!(
        machine.action(),
        Action::ShmOpen { name: CandidateName::placeholder(), flags: 15, mode: 0o600 }
    );
    let taken = machine.step(Event::Opened { fd: -1, errno: 1000 });
    assert_eq!(taken.phase, Phase::AwaitClock);
    assert_eq!(taken.action(), Action::ClockGettime { clock: 77 });
    let other = machine.step(Event::Opened { fd: -1, errno: libc::EEXIST });
    assert_eq!(other.phase, Phase::Finished { fd: -1 });

    let linux = Machine::new(Platform::Linux, abi);
    assert_eq!(
        linux.action(),
        Action::MemfdCreate { label: *b"shm_open_anonymous\0", flags: 16 }
    );
    let fallback = linux.step(Event::Opened { fd: -1, errno: 2000 });
    assert_eq!(fallback.phase, Phase::AwaitCreate { name: CandidateName::placeholder() });
}

#[test]
fn unlink_counts_as_failed_only_at_minus_one() {
    let machine =
        Machine::new(Platform::Posix, Abi::host()).step(Event::Opened { fd: 8, errno: 0 });
    assert_eq!(
        machine.phase,
        Phase::AwaitUnlink { name: CandidateName::placeholder(), fd: 8 }
    );
    assert_eq!(machine.step(Event::Unlinked { status: 0 }).phase, Phase::Finished { fd: 8 });
    assert_eq!(machine.step(Event::Unlinked { status: 5 }).phase, Phase::Finished { fd: 8 });
    let failed = machine.step(Event::Unlinked { status: -1 });
    assert_eq!(failed.phase, Phase::AwaitClose { fd: 8 });
    assert_eq!(failed.step(Event::Closed).phase, Phase::Finished { fd: -1 });
}

#[test]
fn clock_counts_as_failed_at_any_status_but_zero() {
    let machine = Machine { abi: Abi::host(), phase: Phase::AwaitClock };
    assert_eq!(
        machine.step(Event::ClockRead { status: 1, nanos: 5 }).phase,
        Phase::Finished { fd: -1 }
    );
    assert_eq!(
        machine.step(Event::ClockRead { status: -1, nanos: 5 }).phase,
        Phase::Finished { fd: -1 }
    );
    assert_eq!(
        machine.step(Event::ClockRead { status: 0, nanos: 5 }).phase,
        Phase::AwaitCreate { name: CandidateName::numbered(5) }
    );
}

#[test]
fn the_operation_begins_with_the_numbers_of_libc() {
    for platform in [Platform::Linux, Platform::Android, Platform::FreeBsd, Platform::Posix] {
        let machine = shm_open_anonymous::shm_open_anonymous(platform);
        assert_eq!(machine, Machine::new(platform, Abi::host()));
        assert_eq!(machine.abi.eexist, libc::EEXIST);
        assert_eq!(machine.abi.enosys, libc::ENOSYS);
    }
    assert_eq!(
        shm_open_anonymous::shm_open_anonymous(Platform::Posix).phase,
        Phase::AwaitCreate { name: CandidateName::placeholder() }
    );
    assert_eq!(
        shm_open_anonymous::shm_open_anonymous(Platform::Linux).phase,
        Phase::AwaitMemfd { fallback: true }
    );
    assert_eq!(
        shm_open_anonymous::shm_open_anonymous(Platform::Android).phase,
        Phase::AwaitMemfd { fallback: false }
    );
    assert_eq!(
        shm_open_anonymous::shm_open_anonymous(Platform::FreeBsd).phase,
        Phase::AwaitAnonymous
    );
}

#[test]
fn without_contention_four_calls_are_the_most() {
    let mut os = FakeOs::new();
    os.memfd_errno = Some(libc::ENOSYS);
    os.unlink_fails = true;
    assert_eq!(os.invoke(Platform::Linux), -1);
    assert_eq!(os.log.len(), 4);
    assert_eq!(os.log[3], Action::Close { fd: 3 });
    assert!(os.open.is_empty());
}

#[test]
fn every_round_of_contention_costs_two_calls() {
    for rounds in 0..20usize {
        let mut os = FakeOs::new();
        os.names.insert(FIRST_NAME.to_vec());
        for round in 0..rounds {
            let number = round as i64 + 1;
            os.names.insert(CandidateName::numbered(number).as_bytes().to_vec());
            os.readings.push(number);
        }
        os.readings.push(9_000);
        let fd = os.invoke(Platform::Posix);
        assert_eq!(fd, 3);
        assert_eq!(os.log.len(), 2 * (rounds + 1) + 2);
        assert_eq!(os.names.len(), rounds + 1);
    }
}
