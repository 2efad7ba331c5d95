//! Process-singleton coordination through a pidfile: a filesystem path
//! that, while exclusively locked and populated with a process identifier,
//! proves that one instance of a cooperating process group is active.
//!
//! The verified core holds the data model (`Request`, `Pidfile`, `Lock`,
//! `LockError`), the on-disk encoding of a process identifier, and the
//! lock-acquisition and check protocols as step-by-step state machines.
//! The caller performs each requested file operation (open, non-blocking
//! exclusive lock, truncate, write, read) and reports its outcome back to
//! the machine, which decides how the attempt proceeds.
//!
//! A released lock's file is removed on a best-effort basis only: a
//! process killed from outside never runs its cleanup, so readers must
//! treat empty or unparseable content as "no live lock" — and the
//! advisory lock itself, held only while its owner lives, remains the
//! true source of truth.

use vstd::prelude::*;

mod codec;
mod errors;
mod protocol;

pub use codec::dec_value;
pub use codec::encode_pid;
pub use codec::is_dec_digits;
pub use codec::lemma_pid_roundtrip;
pub use codec::parse_pid;
pub use codec::spec_encode;
pub use codec::spec_parse;
pub use errors::IoErr;
pub use errors::IoKind;
pub use errors::LockError;
pub use protocol::check_verdict;
pub use protocol::lemma_check_sees_lock;
pub use protocol::CheckFlow;
pub use protocol::CheckPhase;
pub use protocol::IoOutcome;
pub use protocol::LockFlow;
pub use protocol::LockPhase;
pub use protocol::OpenOutcome;
pub use protocol::ReadOutcome;
pub use protocol::TryLockOutcome;

verus! {

/// A process identifier believed to hold (or to have held) a lock at some
/// path. A plain snapshot value: immutable, freely copyable, owning no
/// resource.
#[derive(Clone, Copy, PartialEq, Eq, Structural, Debug)]
pub struct Pidfile {
    pub pid: usize,
}

impl Pidfile {
    /// The recorded process identifier.
    pub fn pid(&self) -> (p: usize)
        ensures
            p == self.pid,
    {
        self.pid
    }
}

/// An immutable, single-use lock request: the target path, the process
/// identifier to record, and the permission bits to use if the file must
/// be created. Consumed by exactly one of [`Request::lock`] or
/// [`Request::check`].
pub struct Request {
    pub(crate) pid: usize,
    pub(crate) path: String,
    pub(crate) perm: u32,
}

/// Builds a lock request for `path`, recording `pid` — the calling
/// process's identifier, obtained once from the operating system by the
/// caller — with the default permission bits of owner-read/write,
/// group-read, other-read.
pub fn at(path: String, pid: usize) -> (r: Request)
    ensures
        r.pid() == pid,
        r.path() == path@,
        r.perm() == 0o644u32,
        r.wf(),
{
    Request { pid, path, perm: 0o644 }
}

impl Request {
    /// The process identifier this request would record.
    pub closed spec fn pid(self) -> usize {
        self.pid
    }

    /// The filesystem path of the pidfile.
    pub closed spec fn path(self) -> Seq<char> {
        self.path@
    }

    /// The permission bits used if the file must be created.
    pub closed spec fn perm(self) -> u32 {
        self.perm
    }

    /// The permission bits are a valid pattern.
    pub open spec fn wf(self) -> bool {
        self.perm() <= 0o7777
    }

    /// Begin a lock attempt: consume the request and yield the attempt's
    /// state machine, awaiting the open of the file.
    pub fn lock(self) -> (f: LockFlow)
        ensures
            f.pid() == self.pid(),
            f.path() == self.path(),
            f.perm() == self.perm(),
            f.phase() == LockPhase::Opening,
            f.wf(),
    {
        LockFlow::begin(self.pid, self.path, self.perm)
    }

    /// Begin a read-only check: consume the request and yield the check's
    /// state machine, awaiting the non-creating, read-only open.
    pub fn check(self) -> (f: CheckFlow)
        ensures
            f.path() == self.path(),
            f.phase() == CheckPhase::Opening,
    {
        CheckFlow::begin(self.path)
    }
}

/// The capability returned on successful acquisition: a record of the
/// held lock's process identifier and path. Move-only; never copied.
///
/// The open, locked file descriptor itself is an operating-system
/// resource owned by the caller that drove the acquisition; releasing
/// the advisory lock and removing the file when the lock goes out of
/// scope are that owner's duty, and the removal is best-effort only.
pub struct Lock {
    pub(crate) pidfile: Pidfile,
    pub(crate) path: String,
}

impl Lock {
    /// A record of a freshly acquired lock.
    pub(crate) fn new(pidfile: Pidfile, path: String) -> (l: Lock)
        ensures
            l.pidfile_spec() == pidfile,
            l.path_spec() == path@,
    {
        Lock { pidfile, path }
    }

    /// The recorded holder of this lock.
    pub closed spec fn pidfile_spec(self) -> Pidfile {
        self.pidfile
    }

    /// The filesystem path of the pidfile.
    pub closed spec fn path_spec(self) -> Seq<char> {
        self.path@
    }

    /// The acquired pidfile: a snapshot of this lock's holder.
    pub fn pidfile(&self) -> (p: Pidfile)
        ensures
            p == self.pidfile_spec(),
    {
        self.pidfile
    }

    /// The path the lock was acquired at, for release-time cleanup.
    pub fn path(&self) -> (p: &String)
        ensures
            p@ == self.path_spec(),
    {
        &self.path
    }
}

} // verus!
