use vstd::prelude::*;

verus! {

/// Errors reported to the caller that made the conflicting or failing call.
#[derive(Clone, Copy, Debug, PartialEq, Eq, Structural)]
pub enum Error {
    /// `run` or `poll` was entered while the loop was already running.
    AlreadyRunning,
    /// A teardown operation was requested from inside its own callback.
    InsideEventHandler,
    /// The task was already exclusively borrowed.
    BorrowConflict,
    /// The window has already been torn down.
    WindowClosed,
    /// A parent handle of the wrong platform kind was supplied.
    InvalidWindowHandle,
    /// Native resource creation failed with the given platform code.
    Platform(i64),
}

/// The task is already exclusively borrowed.
#[derive(Clone, Copy, Debug, PartialEq, Eq, Structural)]
pub struct BorrowMutError;

impl Error {
    /// A short human-readable description of the error.
    pub fn message(&self) -> (r: String)
        ensures
            *self == Error::AlreadyRunning ==> r@ == "event loop is already running"@,
            *self == Error::InsideEventHandler ==> r@
                == "operation not allowed inside its own event handler"@,
            *self == Error::BorrowConflict ==> r@ == "task is already mutably borrowed"@,
            *self == Error::WindowClosed ==> r@ == "window has been closed"@,
            *self == Error::InvalidWindowHandle ==> r@ == "invalid window handle"@,
            *self matches Error::Platform(_) ==> r@ == "platform error"@,
    {
        match self {
            Error::AlreadyRunning => String::from_str("event loop is already running"),
            Error::InsideEventHandler => String::from_str("operation not allowed inside its own event handler"),
            Error::BorrowConflict => String::from_str("task is already mutably borrowed"),
            Error::WindowClosed => String::from_str("window has been closed"),
            Error::InvalidWindowHandle => String::from_str("invalid window handle"),
            Error::Platform(_) => String::from_str("platform error"),
        }
    }
}

} // verus!
