use vstd::prelude::*;

verus! {

/// Why an operation was refused. Every failing operation returns one of
/// these and leaves the store exactly as it was.
#[derive(Clone, Copy, Debug, PartialEq, Eq, Structural)]
pub enum Error {
    /// `initialize` was called on a store whose administrator is already set.
    AlreadyInitialized,
    /// A mutating operation was invoked by a caller other than the
    /// administrator.
    Unauthorized,
    /// The referenced patient, doctor or test record does not exist.
    NotFound,
    /// A mutating operation was invoked before `initialize` set the
    /// administrator and the counters.
    Uninitialized,
}

} // verus!
