//! The decision procedure.
//!
//! A [`Machine`] is always waiting for the outcome of one [`Action`], or has
//! finished. The caller carries the action out, wraps what came back in an
//! [`Event`] and hands it to [`Machine::step`]; this repeats until the
//! action is [`Action::Return`], whose descriptor is the operation's result.
//! The machine makes no call itself and keeps no descriptor once it has
//! named it for return.

use vstd::prelude::*;
use crate::abi::Abi;
use crate::model::{
    advance, initial, memfd_label, pending, ActionView, PhaseView, LABEL_LEN, NO_DESCRIPTOR,
    OWNER_ONLY,
};
use crate::name::CandidateName;
use crate::platform::{select_strategy, strategy_of, Platform, Strategy};

verus! {

/// What the caller is to do next.
#[allow(inconsistent_fields)]
#[derive(Clone, Copy, Debug, PartialEq, Eq)]
pub enum Action {
    /// Create an unnamed in-memory file labelled `label` (NUL-terminated)
    /// with `flags`.
    MemfdCreate { label: [u8; LABEL_LEN], flags: u32 },
    /// Open shared memory in the platform's anonymous mode, in place of a
    /// name, with `flags` and `mode`.
    ShmOpenAnonymous { flags: i32, mode: u32 },
    /// Open the shared-memory object `name` with `flags` and `mode`.
    ShmOpen { name: CandidateName, flags: i32, mode: u32 },
    /// Remove `name` from the shared-memory namespace.
    ShmUnlink { name: CandidateName },
    /// Close `fd`. Whether that succeeds is of no account.
    Close { fd: i32 },
    /// Read the clock `clock`.
    ClockGettime { clock: i32 },
    /// Return `fd` to whoever asked for the descriptor: an open descriptor,
    /// or [`NO_DESCRIPTOR`] with the thread's error number left as the
    /// failing call set it.
    Return { fd: i32 },
}

impl View for Action {
    type V = ActionView;

    open spec fn view(&self) -> ActionView {
        match *self {
            Action::MemfdCreate { label, flags } => ActionView::MemfdCreate {
                label: label@,
                flags,
            },
            Action::ShmOpenAnonymous { flags, mode } => ActionView::ShmOpenAnonymous {
                flags,
                mode,
            },
            Action::ShmOpen { name, flags, mode } => ActionView::ShmOpen {
                name: name@,
                flags,
                mode,
            },
            Action::ShmUnlink { name } => ActionView::ShmUnlink { name: name@ },
            Action::Close { fd } => ActionView::Close { fd },
            Action::ClockGettime { clock } => ActionView::ClockGettime { clock },
            Action::Return { fd } => ActionView::Return { fd },
        }
    }
}

/// What came back from carrying out an action.
#[derive(Clone, Copy, Debug, PartialEq, Eq, Structural)]
pub enum Event {
    /// A call that opens a descriptor returned `fd`, and the thread's error
    /// number after the call was `errno`. Where `fd` is a descriptor,
    /// `errno` is not looked at.
    Opened { fd: i32, errno: i32 },
    /// The call that unlinks a name returned `status`.
    Unlinked { status: i32 },
    /// The call that closes a descriptor has returned.
    Closed,
    /// The call that reads the clock returned `status`, and `nanos` is the
    /// nanosecond field of the time read. Where `status` is not zero,
    /// `nanos` is not looked at.
    ClockRead { status: i32, nanos: i64 },
}

/// Where the dialogue stands.
#[derive(Clone, Copy, Debug, PartialEq, Eq)]
pub enum Phase {
    /// The in-memory file has been asked for.
    AwaitMemfd { fallback: bool },
    /// The anonymous open has been asked for.
    AwaitAnonymous,
    /// The exclusive creation of `name` has been asked for.
    AwaitCreate { name: CandidateName },
    /// The name was taken; a clock reading has been asked for.
    AwaitClock,
    /// `fd` is open on `name`, whose unlinking has been asked for.
    AwaitUnlink { name: CandidateName, fd: i32 },
    /// Unlinking failed; the closing of `fd` has been asked for.
    AwaitClose { fd: i32 },
    /// The operation has ended with `fd`.
    Finished { fd: i32 },
}

impl View for Phase {
    type V = PhaseView;

    open spec fn view(&self) -> PhaseView {
        match *self {
            Phase::AwaitMemfd { fallback } => PhaseView::AwaitMemfd { fallback },
            Phase::AwaitAnonymous => PhaseView::AwaitAnonymous,
            Phase::AwaitCreate { name } => PhaseView::AwaitCreate { name: name@ },
            Phase::AwaitClock => PhaseView::AwaitClock,
            Phase::AwaitUnlink { name, fd } => PhaseView::AwaitUnlink { name: name@, fd },
            Phase::AwaitClose { fd } => PhaseView::AwaitClose { fd },
            Phase::Finished { fd } => PhaseView::Finished { fd },
        }
    }
}

/// The label of the in-memory file: `shm_open_anonymous` and a NUL.
pub fn memfd_label_bytes() -> (label: [u8; LABEL_LEN])
    ensures
        label@ == memfd_label(),
{
    let label: [u8; LABEL_LEN] = [
        's' as u8, 'h' as u8, 'm' as u8, '_' as u8, 'o' as u8, 'p' as u8, 'e' as u8, 'n' as u8,
        '_' as u8, 'a' as u8, 'n' as u8, 'o' as u8, 'n' as u8, 'y' as u8, 'm' as u8, 'o' as u8,
        'u' as u8, 's' as u8, 0,
    ];
    label
}

/// The decision procedure's state: the platform's numbers and the phase.
#[derive(Clone, Copy, Debug, PartialEq, Eq)]
pub struct Machine {
    /// The numbers that flags and error codes are compared with.
    pub abi: Abi,
    /// What the machine is waiting for.
    pub phase: Phase,
}

impl Machine {
    /// Starts the operation for `platform`, with `abi` as the numbers of
    /// flags and error codes.
    pub fn new(platform: Platform, abi: Abi) -> (machine: Machine)
        ensures
            machine.abi == abi,
            machine.phase@ == initial(strategy_of(platform)),
    {
        let phase = match select_strategy(platform) {
            Strategy::NativeAnonymous => Phase::AwaitAnonymous,
            Strategy::NativeTempFile { fallback } => Phase::AwaitMemfd { fallback },
            Strategy::GenericPosix => Phase::AwaitCreate { name: CandidateName::placeholder() },
        };
        Machine { abi, phase }
    }

    /// The action that the caller is to carry out now.
    pub fn action(&self) -> (action: Action)
        ensures
            action@ == pending(self.abi, self.phase@),
    {
        match self.phase {
            Phase::AwaitMemfd { .. } => Action::MemfdCreate {
                label: memfd_label_bytes(),
                flags: self.abi.mfd_cloexec,
            },
            Phase::AwaitAnonymous => Action::ShmOpenAnonymous { flags: self.abi.o_rdwr, mode: 0 },
            Phase::AwaitCreate { name } => Action::ShmOpen {
                name,
                flags: self.abi.create_flags(),
                mode: OWNER_ONLY,
            },
            Phase::AwaitClock => Action::ClockGettime { clock: self.abi.clock_realtime },
            Phase::AwaitUnlink { name, .. } => Action::ShmUnlink { name },
            Phase::AwaitClose { fd } => Action::Close { fd },
            Phase::Finished { fd } => Action::Return { fd },
        }
    }

    /// Takes in the outcome of the pending action and moves on. An event
    /// that does not answer the pending action leaves the machine as it is.
    pub fn step(self, event: Event) -> (next: Machine)
        ensures
            next.abi == self.abi,
            next.phase@ == advance(self.abi, self.phase@, event),
    {
        let phase = match (self.phase, event) {
            (Phase::AwaitMemfd { fallback }, Event::Opened { fd, errno }) => {
                if fd != NO_DESCRIPTOR {
                    Phase::Finished { fd }
                } else if fallback && errno == self.abi.enosys {
                    Phase::AwaitCreate { name: CandidateName::placeholder() }
                } else {
                    Phase::Finished { fd: NO_DESCRIPTOR }
                }
            },
            (Phase::AwaitAnonymous, Event::Opened { fd, .. }) => Phase::Finished { fd },
            (Phase::AwaitCreate { name }, Event::Opened { fd, errno }) => {
                if fd != NO_DESCRIPTOR {
                    Phase::AwaitUnlink { name, fd }
                } else if errno == self.abi.eexist {
                    Phase::AwaitClock
                } else {
                    Phase::Finished { fd: NO_DESCRIPTOR }
                }
            },
            (Phase::AwaitClock, Event::ClockRead { status, nanos }) => {
                if status != 0 {
                    Phase::Finished { fd: NO_DESCRIPTOR }
                } else {
                    Phase::AwaitCreate { name: CandidateName::numbered(nanos) }
                }
            },
            (Phase::AwaitUnlink { fd, .. }, Event::Unlinked { status }) => {
                if status == -1 {
                    Phase::AwaitClose { fd }
                } else {
                    Phase::Finished { fd }
                }
            },
            (Phase::AwaitClose { .. }, Event::Closed) => Phase::Finished { fd: NO_DESCRIPTOR },
            (phase, _) => phase,
        };
        Machine { abi: self.abi, phase }
    }

    /// The operation's result once the machine has finished, `None` before.
    pub fn result(&self) -> (result: Option<i32>)
        ensures
            result == match self.phase@ {
                PhaseView::Finished { fd } => Some(fd),
                _ => None,
            },
    {
        match self.phase {
            Phase::Finished { fd } => Some(fd),
            _ => None,
        }
    }
}

} // verus!
