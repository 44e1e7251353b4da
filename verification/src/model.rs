//! The mathematical model of the decision procedure: its phases and actions
//! with names as byte sequences, and the transition function.

use vstd::prelude::*;
use crate::abi::Abi;
use crate::machine::Event;
use crate::name::{candidate, decimal4, placeholder_suffix};
use crate::platform::Strategy;

verus! {

/// What every failing call returns, and what the operation returns when it
/// has no descriptor to give.
pub const NO_DESCRIPTOR: i32 = -1;

/// Permission bits of a created object: read and write for the owner only.
pub const OWNER_ONLY: u32 = 0o600;

/// Length of the in-memory file's label in bytes, the terminating NUL
/// included.
pub const LABEL_LEN: usize = 19;

/// The bytes of `shm_open_anonymous` and a terminating NUL: the label of the
/// in-memory file, which serves diagnostics only.
pub open spec fn memfd_label() -> Seq<u8> {
    seq![
        's' as u8, 'h' as u8, 'm' as u8, '_' as u8, 'o' as u8, 'p' as u8, 'e' as u8, 'n' as u8,
        '_' as u8, 'a' as u8, 'n' as u8, 'o' as u8, 'n' as u8, 'y' as u8, 'm' as u8, 'o' as u8,
        'u' as u8, 's' as u8, 0u8,
    ]
}

/// The name that is tried first.
pub open spec fn first_name() -> Seq<u8> {
    candidate(placeholder_suffix())
}

/// The name that is tried after the clock has read `nanos` nanoseconds: its
/// suffix is `nanos` modulo 10000 in four decimal digits.
pub open spec fn retry_name(nanos: i64) -> Seq<u8> {
    candidate(decimal4(nanos as int % 10000))
}

/// Where the dialogue stands.
pub ghost enum PhaseView {
    /// The in-memory file has been asked for.
    AwaitMemfd { fallback: bool },
    /// The anonymous open has been asked for.
    AwaitAnonymous,
    /// The exclusive creation of `name` has been asked for.
    AwaitCreate { name: Seq<u8> },
    /// The name was taken; a clock reading has been asked for.
    AwaitClock,
    /// `fd` is open on `name`, whose unlinking has been asked for.
    AwaitUnlink { name: Seq<u8>, fd: i32 },
    /// Unlinking failed; the closing of `fd` has been asked for.
    AwaitClose { fd: i32 },
    /// The operation has ended with `fd`.
    Finished { fd: i32 },
}

/// What the caller is to do next.
#[allow(inconsistent_fields)]
pub ghost enum ActionView {
    /// Create an unnamed in-memory file labelled `label` with `flags`.
    MemfdCreate { label: Seq<u8>, flags: u32 },
    /// Open shared memory in the platform's anonymous mode with `flags` and
    /// `mode`.
    ShmOpenAnonymous { flags: i32, mode: u32 },
    /// Open the shared-memory object `name` with `flags` and `mode`.
    ShmOpen { name: Seq<u8>, flags: i32, mode: u32 },
    /// Remove `name` from the shared-memory namespace.
    ShmUnlink { name: Seq<u8> },
    /// Close `fd`.
    Close { fd: i32 },
    /// Read the clock `clock`.
    ClockGettime { clock: i32 },
    /// Return `fd`.
    Return { fd: i32 },
}

/// Whether `event` is the kind of outcome that `action` has. Nothing answers
/// [`ActionView::Return`].
pub open spec fn answers(action: ActionView, event: Event) -> bool {
    match action {
        ActionView::MemfdCreate { .. }
        | ActionView::ShmOpenAnonymous { .. }
        | ActionView::ShmOpen { .. } => event is Opened,
        ActionView::ShmUnlink { .. } => event is Unlinked,
        ActionView::Close { .. } => event is Closed,
        ActionView::ClockGettime { .. } => event is ClockRead,
        ActionView::Return { .. } => false,
    }
}

/// The phase in which `strategy` begins.
pub open spec fn initial(strategy: Strategy) -> PhaseView {
    match strategy {
        Strategy::NativeAnonymous => PhaseView::AwaitAnonymous,
        Strategy::NativeTempFile { fallback } => PhaseView::AwaitMemfd { fallback },
        Strategy::GenericPosix => PhaseView::AwaitCreate { name: first_name() },
    }
}

/// The action whose outcome `phase` waits for; once finished, the return of
/// the result.
pub open spec fn pending(abi: Abi, phase: PhaseView) -> ActionView {
    match phase {
        PhaseView::AwaitMemfd { .. } => ActionView::MemfdCreate {
            label: memfd_label(),
            flags: abi.mfd_cloexec,
        },
        PhaseView::AwaitAnonymous => ActionView::ShmOpenAnonymous { flags: abi.o_rdwr, mode: 0 },
        PhaseView::AwaitCreate { name } => ActionView::ShmOpen {
            name,
            flags: abi.create_flags(),
            mode: OWNER_ONLY,
        },
        PhaseView::AwaitClock => ActionView::ClockGettime { clock: abi.clock_realtime },
        PhaseView::AwaitUnlink { name, .. } => ActionView::ShmUnlink { name },
        PhaseView::AwaitClose { fd } => ActionView::Close { fd },
        PhaseView::Finished { fd } => ActionView::Return { fd },
    }
}

/// The phase that follows `phase` when `event` comes in. An event that does
/// not answer the pending action changes nothing.
pub open spec fn advance(abi: Abi, phase: PhaseView, event: Event) -> PhaseView {
    match (phase, event) {
        (PhaseView::AwaitMemfd { fallback }, Event::Opened { fd, errno }) => {
            if fd != NO_DESCRIPTOR {
                PhaseView::Finished { fd }
            } else if fallback && errno == abi.enosys {
                PhaseView::AwaitCreate { name: first_name() }
            } else {
                PhaseView::Finished { fd: NO_DESCRIPTOR }
            }
        },
        (PhaseView::AwaitAnonymous, Event::Opened { fd, .. }) => PhaseView::Finished { fd },
        (PhaseView::AwaitCreate { name }, Event::Opened { fd, errno }) => {
            if fd != NO_DESCRIPTOR {
                PhaseView::AwaitUnlink { name, fd }
            } else if errno == abi.eexist {
                PhaseView::AwaitClock
            } else {
                PhaseView::Finished { fd: NO_DESCRIPTOR }
            }
        },
        (PhaseView::AwaitClock, Event::ClockRead { status, nanos }) => {
            if status != 0 {
                PhaseView::Finished { fd: NO_DESCRIPTOR }
            } else {
                PhaseView::AwaitCreate { name: retry_name(nanos) }
            }
        },
        (PhaseView::AwaitUnlink { fd, .. }, Event::Unlinked { status }) => {
            if status == -1 {
                PhaseView::AwaitClose { fd }
            } else {
                PhaseView::Finished { fd }
            }
        },
        (PhaseView::AwaitClose { .. }, Event::Closed) => PhaseView::Finished {
            fd: NO_DESCRIPTOR,
        },
        _ => phase,
    }
}

} // verus!
