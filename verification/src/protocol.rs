//! The lock-acquisition and check protocols, as step-by-step state machines.
//!
//! Acquiring a lock drives one open file through open → non-blocking
//! exclusive lock → truncate → write; checking drives one through
//! open (read-only, non-creating) → read-and-parse. The machines here
//! hold the decision logic of both protocols: the caller performs each
//! file operation and reports its outcome, and the machine determines
//! how the attempt proceeds and what the final result is. The caller
//! never waits on contention: a held lock is reported immediately as a
//! conflict, never retried.

use vstd::prelude::*;

use crate::Lock;
use crate::Pidfile;
use crate::codec::encode_pid;
use crate::codec::lemma_pid_roundtrip;
use crate::codec::spec_encode;
use crate::codec::spec_parse;
use crate::errors::IoErr;
use crate::errors::IoKind;
use crate::errors::LockError;

verus! {

/// What opening the file reported.
#[derive(Clone, Copy, Debug)]
pub enum OpenOutcome {
    /// The file is open (created first if the protocol asked for that).
    Opened,
    /// Opening failed.
    Failed(IoErr),
}

/// What the non-blocking exclusive lock attempt reported. The attempt
/// must never wait: a lock held elsewhere is reported as `Contended`.
#[derive(Clone, Copy, Debug)]
pub enum TryLockOutcome {
    /// This process now holds the advisory lock.
    Acquired,
    /// Another process holds the lock; the attempt did not wait.
    Contended,
    /// The attempt itself failed for a reason other than contention.
    Failed(IoErr),
}

/// What a truncate or write operation reported.
#[derive(Clone, Copy, Debug)]
pub enum IoOutcome {
    /// The operation completed.
    Done,
    /// The operation failed.
    Failed(IoErr),
}

/// What reading the file's contents reported.
#[derive(Debug)]
pub enum ReadOutcome {
    /// The file's entire contents.
    Data(Vec<u8>),
    /// Reading failed.
    Failed(IoErr),
}

/// Where a lock attempt stands: which file operation it awaits, or how
/// it ended.
#[derive(Clone, Copy, PartialEq, Eq, Structural, Debug)]
pub enum LockPhase {
    /// Awaiting: open (creating if absent) with read and write access,
    /// using the request's permission bits.
    Opening,
    /// Awaiting: a non-blocking exclusive advisory lock attempt.
    Locking,
    /// Awaiting: truncate to zero length. Entered only once the lock is
    /// confirmed held, so the truncate never touches a file another
    /// process still owns.
    Truncating,
    /// Awaiting: write of the encoded process identifier.
    Writing,
    /// The lock is held and the identifier is recorded.
    Acquired,
    /// The attempt failed; the error says whether by contention or I/O.
    Refused(LockError),
}

/// A single lock attempt in progress. Created by [`crate::Request::lock`];
/// the caller performs the file operation named by the current phase and
/// reports its outcome through the matching `on_*` step.
pub struct LockFlow {
    pub(crate) pid: usize,
    pub(crate) path: String,
    pub(crate) perm: u32,
    pub(crate) phase: LockPhase,
}

impl LockFlow {
    /// A fresh attempt for `pid` at `path`, awaiting the open.
    pub(crate) fn begin(pid: usize, path: String, perm: u32) -> (f: LockFlow)
        ensures
            f.pid() == pid,
            f.path() == path@,
            f.perm() == perm,
            f.phase() == LockPhase::Opening,
            f.wf(),
    {
        LockFlow { pid, path, perm, phase: LockPhase::Opening }
    }

    /// The process identifier this attempt records on success.
    pub closed spec fn pid(self) -> usize {
        self.pid
    }

    /// The filesystem path of the pidfile.
    pub closed spec fn path(self) -> Seq<char> {
        self.path@
    }

    /// The permission bits used if the file must be created.
    pub closed spec fn perm(self) -> u32 {
        self.perm
    }

    /// The current phase of the attempt.
    pub closed spec fn phase(self) -> LockPhase {
        self.phase
    }

    /// The permission bits to create the file with, handed to the caller
    /// for the open the `Opening` phase requests.
    pub fn perm_bits(&self) -> (p: u32)
        ensures
            p == self.perm(),
    {
        self.perm
    }

    /// Every failure wraps a well-formed error: contention and I/O detail
    /// are mutually exclusive.
    pub open spec fn wf(self) -> bool {
        self.phase() matches LockPhase::Refused(e) ==> e.wf()
    }

    /// Report the outcome of the open. Failure to open refuses the
    /// attempt with an I/O error; success moves on to the lock attempt.
    pub fn on_open(self, r: OpenOutcome) -> (f: LockFlow)
        requires
            self.phase() == LockPhase::Opening,
        ensures
            f.pid() == self.pid(),
            f.path() == self.path(),
            f.perm() == self.perm(),
            (match r {
                OpenOutcome::Opened => f.phase() == LockPhase::Locking,
                OpenOutcome::Failed(e) => f.phase() == LockPhase::Refused(
                    LockError { conflict: false, io: Some(e) },
                ),
            }),
            f.wf(),
    {
        match r {
            OpenOutcome::Opened => LockFlow { phase: LockPhase::Locking, ..self },
            OpenOutcome::Failed(e) => LockFlow {
                phase: LockPhase::Refused(LockError::io_error(e)),
                ..self
            },
        }
    }

    /// Report the outcome of the non-blocking exclusive lock attempt.
    /// Contention refuses the attempt with a conflict error — and with
    /// no I/O detail — while an I/O failure of the attempt itself refuses
    /// it with an I/O error. Success moves on to the truncate.
    pub fn on_try_lock(self, r: TryLockOutcome) -> (f: LockFlow)
        requires
            self.phase() == LockPhase::Locking,
        ensures
            f.pid() == self.pid(),
            f.path() == self.path(),
            f.perm() == self.perm(),
            (match r {
                TryLockOutcome::Acquired => f.phase() == LockPhase::Truncating,
                TryLockOutcome::Contended => f.phase() == LockPhase::Refused(
                    LockError { conflict: true, io: None::<IoErr> },
                ),
                TryLockOutcome::Failed(e) => f.phase() == LockPhase::Refused(
                    LockError { conflict: false, io: Some(e) },
                ),
            }),
            f.wf(),
    {
        match r {
            TryLockOutcome::Acquired => LockFlow { phase: LockPhase::Truncating, ..self },
            TryLockOutcome::Contended => LockFlow {
                phase: LockPhase::Refused(LockError::conflict()),
                ..self
            },
            TryLockOutcome::Failed(e) => LockFlow {
                phase: LockPhase::Refused(LockError::io_error(e)),
                ..self
            },
        }
    }

    /// Report the outcome of the truncate. Success moves on to the write.
    pub fn on_truncate(self, r: IoOutcome) -> (f: LockFlow)
        requires
            self.phase() == LockPhase::Truncating,
        ensures
            f.pid() == self.pid(),
            f.path() == self.path(),
            f.perm() == self.perm(),
            (match r {
                IoOutcome::Done => f.phase() == LockPhase::Writing,
                IoOutcome::Failed(e) => f.phase() == LockPhase::Refused(
                    LockError { conflict: false, io: Some(e) },
                ),
            }),
            f.wf(),
    {
        match r {
            IoOutcome::Done => LockFlow { phase: LockPhase::Writing, ..self },
            IoOutcome::Failed(e) => LockFlow {
                phase: LockPhase::Refused(LockError::io_error(e)),
                ..self
            },
        }
    }

    /// The exact bytes the caller must write once the lock is held: the
    /// decimal encoding of the process identifier.
    pub fn contents(&self) -> (v: Vec<u8>)
        ensures
            v@ == spec_encode(self.pid() as nat),
    {
        encode_pid(self.pid)
    }

    /// Report the outcome of the write. Success completes the attempt.
    pub fn on_write(self, r: IoOutcome) -> (f: LockFlow)
        requires
            self.phase() == LockPhase::Writing,
        ensures
            f.pid() == self.pid(),
            f.path() == self.path(),
            f.perm() == self.perm(),
            (match r {
                IoOutcome::Done => f.phase() == LockPhase::Acquired,
                IoOutcome::Failed(e) => f.phase() == LockPhase::Refused(
                    LockError { conflict: false, io: Some(e) },
                ),
            }),
            f.wf(),
    {
        match r {
            IoOutcome::Done => LockFlow { phase: LockPhase::Acquired, ..self },
            IoOutcome::Failed(e) => LockFlow {
                phase: LockPhase::Refused(LockError::io_error(e)),
                ..self
            },
        }
    }

    /// Whether the attempt has been refused. Once true, no further file
    /// operation is requested; the caller finishes the attempt.
    pub fn refused(&self) -> (b: bool)
        ensures
            b == (self.phase() is Refused),
    {
        matches!(self.phase, LockPhase::Refused(_))
    }

    /// Whether the attempt has succeeded.
    pub fn acquired(&self) -> (b: bool)
        ensures
            b == (self.phase() is Acquired),
    {
        matches!(self.phase, LockPhase::Acquired)
    }

    /// Conclude the attempt: a [`Lock`] recording this process identifier
    /// and path on success, the refusing error otherwise.
    pub fn finish(self) -> (r: Result<Lock, LockError>)
        requires
            self.phase() is Acquired || self.phase() is Refused,
        ensures
            (match self.phase() {
                LockPhase::Acquired => {
                    &&& r matches Ok(l)
                    &&& l.pidfile_spec() == (Pidfile { pid: self.pid() })
                    &&& l.path_spec() == self.path()
                },
                LockPhase::Refused(e) => r == Err::<Lock, LockError>(e),
                _ => false,
            }),
    {
        match self.phase {
            LockPhase::Acquired => Ok(Lock::new(Pidfile { pid: self.pid }, self.path)),
            LockPhase::Refused(e) => Err(e),
            _ => {
                proof {
                    assert(false);
                }
                Err(LockError::conflict())
            },
        }
    }
}

/// Where a check stands: which file operation it awaits, or its result.
#[derive(Clone, Copy, PartialEq, Eq, Debug)]
pub enum CheckPhase {
    /// Awaiting: open read-only, without creating the file.
    Opening,
    /// Awaiting: read of the file's entire contents.
    Reading,
    /// The check is complete with this result.
    Done(Result<Option<Pidfile>, IoErr>),
}

/// What file content a completed check reports: the parsed identifier
/// where the content denotes a positive value, and "no live lock"
/// where it is empty, non-numeric, zero or out of range.
pub open spec fn check_verdict(s: Seq<u8>) -> Option<Pidfile> {
    match spec_parse(s) {
        Some(p) => Some(Pidfile { pid: p }),
        None => None,
    }
}

/// A single read-only check in progress. Created by
/// [`crate::Request::check`]; the caller performs the file operation named
/// by the current phase and reports its outcome. A check requests no
/// mutating operation at any step: the file's contents and permissions
/// are left exactly as they were.
pub struct CheckFlow {
    pub(crate) path: String,
    pub(crate) phase: CheckPhase,
}

impl CheckFlow {
    /// A fresh check at `path`, awaiting the read-only open.
    pub(crate) fn begin(path: String) -> (f: CheckFlow)
        ensures
            f.path() == path@,
            f.phase() == CheckPhase::Opening,
    {
        CheckFlow { path, phase: CheckPhase::Opening }
    }

    /// The filesystem path of the pidfile.
    pub closed spec fn path(self) -> Seq<char> {
        self.path@
    }

    /// The current phase of the check.
    pub closed spec fn phase(self) -> CheckPhase {
        self.phase
    }

    /// Report the outcome of the read-only open. A file that does not
    /// exist is not a fault: absence means no lock, and the check
    /// completes with `Ok(None)`. Any other failure completes it with
    /// that error. Success moves on to the read.
    pub fn on_open(self, r: OpenOutcome) -> (f: CheckFlow)
        requires
            self.phase() == CheckPhase::Opening,
        ensures
            f.path() == self.path(),
            (match r {
                OpenOutcome::Opened => f.phase() == CheckPhase::Reading,
                OpenOutcome::Failed(e) => f.phase() == (if e.kind == IoKind::NotFound {
                    CheckPhase::Done(Ok(None::<Pidfile>))
                } else {
                    CheckPhase::Done(Err::<Option<Pidfile>, IoErr>(e))
                }),
            }),
    {
        match r {
            OpenOutcome::Opened => CheckFlow { phase: CheckPhase::Reading, ..self },
            OpenOutcome::Failed(e) => {
                if matches!(e.kind, IoKind::NotFound) {
                    CheckFlow { phase: CheckPhase::Done(Ok(None)), ..self }
                } else {
                    CheckFlow { phase: CheckPhase::Done(Err(e)), ..self }
                }
            },
        }
    }

    /// Report the outcome of the read. Content denoting a positive
    /// identifier completes the check with that identifier; anything
    /// else completes it with "no live lock".
    pub fn on_read(self, r: ReadOutcome) -> (f: CheckFlow)
        requires
            self.phase() == CheckPhase::Reading,
        ensures
            f.path() == self.path(),
            (match r {
                ReadOutcome::Data(bytes) => f.phase() == CheckPhase::Done(
                    Ok(check_verdict(bytes@)),
                ),
                ReadOutcome::Failed(e) => f.phase() == CheckPhase::Done(
                    Err::<Option<Pidfile>, IoErr>(e),
                ),
            }),
    {
        match r {
            ReadOutcome::Data(bytes) => {
                let parsed = crate::codec::parse_pid(&bytes);
                match parsed {
                    Some(p) => CheckFlow {
                        phase: CheckPhase::Done(Ok(Some(Pidfile { pid: p }))),
                        ..self
                    },
                    None => CheckFlow { phase: CheckPhase::Done(Ok(None)), ..self },
                }
            },
            ReadOutcome::Failed(e) => CheckFlow { phase: CheckPhase::Done(Err(e)), ..self },
        }
    }

    /// Whether the check has completed.
    pub fn done(&self) -> (b: bool)
        ensures
            b == (self.phase() is Done),
    {
        matches!(self.phase, CheckPhase::Done(_))
    }

    /// Conclude the check with its result.
    pub fn finish(self) -> (r: Result<Option<Pidfile>, IoErr>)
        requires
            self.phase() is Done,
        ensures
            self.phase() == CheckPhase::Done(r),
    {
        match self.phase {
            CheckPhase::Done(r) => r,
            _ => {
                proof {
                    assert(false);
                }
                Ok(None)
            },
        }
    }
}

/// A check that reads exactly the bytes a successful acquisition wrote
/// reports a live lock held by that same process identifier.
pub proof fn lemma_check_sees_lock(n: usize)
    requires
        n > 0,
    ensures
        check_verdict(spec_encode(n as nat)) == Some(Pidfile { pid: n }),
{
    lemma_pid_roundtrip(n);
}

} // verus!
