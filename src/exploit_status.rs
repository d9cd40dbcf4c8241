//! Outcome classification of one exploit attempt.

use vstd::prelude::*;

verus! {

/// How one exploit attempt ended.
#[derive(Debug, Clone, Copy, PartialEq, Eq, Structural)]
pub enum ExploitStatus {
    /// The escape technique worked.
    Success,
    /// The technique ran and was denied.
    Failure,
    /// A prerequisite of the attempt could not be established.
    SetupFailure,
    /// The step was intentionally bypassed.
    Skip,
}

} // verus!
