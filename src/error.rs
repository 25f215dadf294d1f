//! Error kinds surfaced by the execution core.
use vstd::prelude::*;

verus! {

/// A failure reported to the immediate caller.
#[derive(Debug, Clone, Copy, PartialEq, Eq, Structural)]
pub enum Errno {
    /// Every thread identifier is already taken.
    NoIdAvailable,
    /// No thread, process or current thread for the given key.
    NotFound,
    /// The operation met a thread whose context is absent (taken twice).
    InvalidState,
    /// An argument, or the state of the object it names, is not acceptable.
    InvalidArgument,
    /// A process is already registered under the identifier a new one needs.
    ProcessIdInUse,
    /// The descriptor does not name an object of the expected kind.
    BadDescriptor,
}

/// The result of a fallible kernel operation.
pub type KResult<T> = Result<T, Errno>;

} // verus!
