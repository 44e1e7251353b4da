//! Which way of obtaining the descriptor a platform takes.

use vstd::prelude::*;

verus! {

/// The operating systems that are told apart. The choice is made once, where
/// the caller is built, never by probing the running system.
#[derive(Clone, Copy, Debug, PartialEq, Eq, Structural)]
pub enum Platform {
    /// Linux: an in-memory file, or named shared memory on a kernel too old
    /// to have one.
    Linux,
    /// Android: an in-memory file. Its C library has no named shared memory
    /// to fall back on.
    Android,
    /// FreeBSD: shared memory can be opened without a name.
    FreeBsd,
    /// Any other POSIX system: named shared memory, unlinked at once.
    Posix,
}

/// The ways of obtaining an anonymous shared-memory descriptor.
#[derive(Clone, Copy, Debug, PartialEq, Eq, Structural)]
pub enum Strategy {
    /// One call opens shared memory in the platform's anonymous mode. Its
    /// result is final.
    NativeAnonymous,
    /// One call creates an unnamed in-memory file. With `fallback`, a kernel
    /// that does not implement the call sends the operation on to
    /// [`Strategy::GenericPosix`]; any other result is final.
    NativeTempFile { fallback: bool },
    /// Create a named object exclusively, retry under another name while the
    /// name is taken, and unlink the name as soon as creation succeeds.
    GenericPosix,
}

/// The strategy of each platform.
pub open spec fn strategy_of(platform: Platform) -> Strategy {
    match platform {
        Platform::Linux => Strategy::NativeTempFile { fallback: true },
        Platform::Android => Strategy::NativeTempFile { fallback: false },
        Platform::FreeBsd => Strategy::NativeAnonymous,
        Platform::Posix => Strategy::GenericPosix,
    }
}

/// Picks the strategy for `platform`.
pub fn select_strategy(platform: Platform) -> (strategy: Strategy)
    ensures
        strategy == strategy_of(platform),
{
    match platform {
        Platform::Linux => Strategy::NativeTempFile { fallback: true },
        Platform::Android => Strategy::NativeTempFile { fallback: false },
        Platform::FreeBsd => Strategy::NativeAnonymous,
        Platform::Posix => Strategy::GenericPosix,
    }
}

} // verus!
