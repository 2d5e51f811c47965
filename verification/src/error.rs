//! The ways in which an elevated launch can fail.

use vstd::prelude::*;

verus! {

/// Why a launch, or the wait for a launched process, failed.
#[derive(Debug, Clone, Copy, PartialEq, Eq, Structural)]
pub enum LaunchError {
    /// No elevation tool was found on the search path.
    NotFound,
    /// A call into the platform failed; the value is the platform's last
    /// error code. A declined elevation prompt and a missing program both
    /// arrive here and cannot be told apart.
    OsError(i32),
    /// The termination state of a launched process could not be read; the
    /// value is the platform's last error code.
    WaitError(i32),
}

} // verus!
