//! Error values for the lock protocol.
//!
//! Two disjoint channels: contention (another live process holds the lock)
//! and I/O failure (permission denied, disk error, and the like). The check
//! path reports plain I/O errors; the lock path wraps both channels in
//! [`LockError`].

use vstd::prelude::*;

verus! {

/// The class of an I/O failure, as far as the protocol reads it: the
/// check path folds `NotFound` into its "no lock" success case and
/// propagates every other class.
#[derive(Clone, Copy, PartialEq, Eq, Structural, Debug)]
pub enum IoKind {
    /// The file does not exist.
    NotFound,
    /// The caller may not open or read the file.
    PermissionDenied,
    /// Any other failure of the underlying operation.
    Other,
}

/// An I/O failure reported by a file operation: its class, and the raw
/// operating-system error code where one was available (zero otherwise).
#[derive(Clone, Copy, PartialEq, Eq, Structural, Debug)]
pub struct IoErr {
    pub kind: IoKind,
    pub code: i32,
}

/// Why a lock attempt failed. Exactly one of the two fields carries
/// information: `conflict == true` with `io == None` means another live
/// process holds the lock; `conflict == false` with `io == Some(e)` means
/// an underlying I/O failure occurred.
#[derive(Clone, Copy, PartialEq, Eq, Structural, Debug)]
pub struct LockError {
    pub conflict: bool,
    pub io: Option<IoErr>,
}

impl LockError {
    /// The two channels are disjoint: a contention error carries no I/O
    /// detail, and an I/O error is never a contention report.
    pub open spec fn wf(self) -> bool {
        self.conflict <==> self.io is None
    }

    /// A contention report: another live process holds the lock.
    pub fn conflict() -> (r: LockError)
        ensures
            r == (LockError { conflict: true, io: None::<IoErr> }),
            r.wf(),
    {
        LockError { conflict: true, io: None }
    }

    /// Wraps an underlying I/O failure.
    pub fn io_error(err: IoErr) -> (r: LockError)
        ensures
            r == (LockError { conflict: false, io: Some(err) }),
            r.wf(),
    {
        LockError { conflict: false, io: Some(err) }
    }
}

} // verus!
