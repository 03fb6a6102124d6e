use vstd::prelude::*;

verus! {

/// The failure taxonomy of the operation surface.
#[derive(Clone, Debug, PartialEq, Eq)]
pub enum Error {
    /// The executable could not be found or started. Fatal, surfaced
    /// immediately, never retried.
    SubprocessLaunchFailed,
    /// The subprocess exited with a nonzero status. Surfaced to the caller
    /// of the operation; never retried automatically, since most backends
    /// are not safely idempotent.
    CommandFailed { program: String, exit_code: i32 },
    /// The captured output bytes were not valid text; the operation aborts.
    OutputDecodeFailed,
    /// A confirmation prompt was declined, or its input stream was closed.
    /// Not an error in the taxonomy sense: surfaced as a distinct outcome
    /// so callers can exit cleanly.
    UserCancelled,
    /// The active backend declares the requested operation unimplemented.
    /// Surfaced verbatim, never silently a no-op.
    UnsupportedOperation,
}

impl Error {
    /// True for every kind but `UserCancelled`: a declined prompt is a
    /// distinct, non-failure outcome.
    pub fn is_failure(&self) -> (r: bool)
        ensures
            r == !(self is UserCancelled),
    {
        !(matches!(self, Error::UserCancelled))
    }
}

} // verus!
