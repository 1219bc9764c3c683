//! Launching an installer executable.
use vstd::prelude::*;

verus! {

/// The outcome of an installer run: its success if it was waited for.
#[derive(Debug, Clone, Copy, PartialEq, Eq, Structural)]
pub enum SuccessStatus {
    Stat(bool),
    Unknown,
}

} // verus!
