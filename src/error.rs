//! The kinds of failure an operation reports.
use vstd::prelude::*;

verus! {

#[derive(Clone, Copy, Debug, PartialEq, Eq, Structural)]
pub enum BackendError {
    /// Sign-in or restore failed, or an action needed a session and there was none.
    Auth,
    /// No persisted session was found.
    NotFound,
    /// A remote call failed.
    Remote,
    /// An argument could not be used and could not be coerced.
    Validation,
    /// A step of a multi-step operation failed; nothing was committed.
    Partial,
}

} // verus!
