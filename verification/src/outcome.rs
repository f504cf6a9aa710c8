//! The failure classes of one invocation, and the exit status each maps to.

use vstd::prelude::*;

verus! {

/// Everything that can go wrong during one run, one variant per class.
/// Each class maps to its own process exit status so that callers can
/// script around a specific failure.
#[derive(Clone, Copy, Debug, PartialEq, Eq, Structural)]
pub enum FailureKind {
    /// Wrong number of command-line arguments; nothing was attempted.
    Usage,
    /// The source could not be opened or read while hashing.
    Read,
    /// The destination name could not be built from the source path.
    Naming,
    /// The byte copy to the destination failed.
    Copy,
}

pub open spec fn exit_status_spec(k: FailureKind) -> int {
    match k {
        FailureKind::Usage => 1,
        FailureKind::Read => 2,
        FailureKind::Naming => 3,
        FailureKind::Copy => 4,
    }
}

/// The process exit status for a failure class: distinct, non-zero, and
/// fixed for all time.
pub fn exit_status(k: FailureKind) -> (r: i32)
    ensures
        r == exit_status_spec(k),
        1 <= r <= 4,
{
    match k {
        FailureKind::Usage => 1,
        FailureKind::Read => 2,
        FailureKind::Naming => 3,
        FailureKind::Copy => 4,
    }
}

} // verus!
