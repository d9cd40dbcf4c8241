//! Default values for optional fields of step specifications.

use vstd::prelude::*;

use crate::exploit_status::ExploitStatus;

verus! {

/// Default for a flag that is on unless stated otherwise.
pub fn default_true() -> (r: bool)
    ensures
        r,
{
    true
}

/// Default for a flag that is off unless stated otherwise.
pub fn default_false() -> (r: bool)
    ensures
        !r,
{
    false
}

/// Default declared outcome of a step: its prerequisites could not be met.
pub fn default_setup_failure() -> (r: ExploitStatus)
    ensures
        r == ExploitStatus::SetupFailure,
{
    ExploitStatus::SetupFailure
}

/// Declared outcome of a step that is meant to be bypassed.
pub fn default_skip() -> (r: ExploitStatus)
    ensures
        r == ExploitStatus::Skip,
{
    ExploitStatus::Skip
}

} // verus!
