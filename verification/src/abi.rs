//! The numbers by which the host's C library knows the flags, error codes
//! and clock that the dialogue with the operating system speaks of.
//!
//! They differ between operating systems and between processor
//! architectures, so nothing here says what any of them is: the decision
//! procedure is verified for every assignment of numbers, and
//! [`Abi::host`] reads the ones that hold where the crate was built.

use vstd::prelude::*;

verus! {

/// Reads `libc::O_RDWR`, the open flag for reading and writing. Nothing is
/// claimed of its value.
#[verifier::external_body]
fn host_o_rdwr() -> (flag: i32) {
    libc::O_RDWR
}

/// Reads `libc::O_CREAT`, the open flag that creates the object if it is
/// absent. Nothing is claimed of its value.
#[verifier::external_body]
fn host_o_creat() -> (flag: i32) {
    libc::O_CREAT
}

/// Reads `libc::O_EXCL`, the open flag that makes creation fail if the name
/// exists. Nothing is claimed of its value.
#[verifier::external_body]
fn host_o_excl() -> (flag: i32) {
    libc::O_EXCL
}

/// Reads `libc::O_NOFOLLOW`, the open flag that refuses a symbolic link at
/// the name. Nothing is claimed of its value.
#[verifier::external_body]
fn host_o_nofollow() -> (flag: i32) {
    libc::O_NOFOLLOW
}

/// Reads `libc::EEXIST`, the error number for "name already exists". Nothing
/// is claimed of its value.
#[verifier::external_body]
fn host_eexist() -> (code: i32) {
    libc::EEXIST
}

/// Reads `libc::ENOSYS`, the error number for "function not implemented".
/// Nothing is claimed of its value.
#[verifier::external_body]
fn host_enosys() -> (code: i32) {
    libc::ENOSYS
}

/// Reads `libc::CLOCK_REALTIME`, the identifier of the wall clock. Nothing
/// is claimed of its value.
#[verifier::external_body]
fn host_clock_realtime() -> (clock: i32) {
    libc::CLOCK_REALTIME
}

/// Reads `libc::MFD_CLOEXEC`, the `memfd_create` flag that closes the
/// descriptor when the process image is replaced. Nothing is claimed of its
/// value.
#[verifier::external_body]
fn host_mfd_cloexec() -> (flag: u32) {
    libc::MFD_CLOEXEC
}

/// One platform's numbers for the flags, error codes and clock that the
/// decision procedure names.
#[derive(Clone, Copy, Debug, PartialEq, Eq, Structural)]
pub struct Abi {
    /// Open for reading and writing.
    pub o_rdwr: i32,
    /// Create the object if it does not exist.
    pub o_creat: i32,
    /// Fail if the object exists.
    pub o_excl: i32,
    /// Do not follow a symbolic link at the name.
    pub o_nofollow: i32,
    /// Error number: the name already exists.
    pub eexist: i32,
    /// Error number: the system call is not implemented.
    pub enosys: i32,
    /// Identifier of the wall clock.
    pub clock_realtime: i32,
    /// Close-on-exec flag of `memfd_create`.
    pub mfd_cloexec: u32,
}

impl Abi {
    /// The flags of an exclusive creation: read-write, create, fail if the
    /// name exists, do not follow a symbolic link.
    pub open spec fn spec_create_flags(&self) -> i32 {
        self.o_rdwr | self.o_creat | self.o_excl | self.o_nofollow
    }

    /// The flags of an exclusive creation: read-write, create, fail if the
    /// name exists, do not follow a symbolic link.
    #[verifier::when_used_as_spec(spec_create_flags)]
    pub fn create_flags(&self) -> (flags: i32)
        ensures
            flags == self.create_flags(),
    {
        self.o_rdwr | self.o_creat | self.o_excl | self.o_nofollow
    }

    /// The numbers of the platform that this crate was built for, as the
    /// `libc` crate gives them.
    pub fn host() -> Abi {
        Abi {
            o_rdwr: host_o_rdwr(),
            o_creat: host_o_creat(),
            o_excl: host_o_excl(),
            o_nofollow: host_o_nofollow(),
            eexist: host_eexist(),
            enosys: host_enosys(),
            clock_realtime: host_clock_realtime(),
            mfd_cloexec: host_mfd_cloexec(),
        }
    }
}

} // verus!
