//! Anonymous POSIX shared memory, as a verified decision procedure.
//!
//! Obtaining an unnamed shared-memory descriptor takes a handful of system
//! calls whose order depends on how each one ends. This crate holds every
//! decision of that dialogue and none of the calls: a [`machine::Machine`]
//! names the next call to make, the caller makes it and reports what came
//! back, and the machine says what follows, until it names the descriptor
//! to return.
//!
//! [`shm_open_anonymous`] begins the dialogue. [`ledger`] and [`progress`]
//! prove what every dialogue amounts to: the descriptor returned is open and
//! has no name, nothing else stays open or named, and a name that is taken
//! only makes the machine try another.

use vstd::prelude::*;
use crate::abi::Abi;
use crate::machine::Machine;
use crate::model::initial;
use crate::platform::{strategy_of, Platform};

pub mod abi;
pub mod ledger;
pub mod machine;
pub mod model;
pub mod name;
pub mod platform;
pub mod progress;

verus! {

/// Begins the creation of an anonymous shared-memory object on `platform`,
/// with the numbers that the host's C library has for flags and error codes.
///
/// The machine returned names the first call to make. Carrying out each
/// [`Machine::action`] and reporting its outcome to [`Machine::step`] leads
/// to [`machine::Action::Return`]: of a new descriptor that no name refers
/// to, or of [`model::NO_DESCRIPTOR`] where a call failed for good.
pub fn shm_open_anonymous(platform: Platform) -> (machine: Machine)
    ensures
        machine.phase@ == initial(strategy_of(platform)),
{
    Machine::new(platform, Abi::host())
}

} // verus!
