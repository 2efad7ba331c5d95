//! The lock and check protocols, driven with concrete outcomes.

use pidfile::at;
use pidfile::encode_pid;
use pidfile::CheckFlow;
use pidfile::IoErr;
use pidfile::IoKind;
use pidfile::IoOutcome;
use pidfile::Lock;
use pidfile::LockError;
use pidfile::LockFlow;
use pidfile::OpenOutcome;
use pidfile::ReadOutcome;
use pidfile::TryLockOutcome;

fn not_found() -> IoErr {
    IoErr { kind: IoKind::NotFound, code: 2 }
}

fn denied() -> IoErr {
    IoErr { kind: IoKind::PermissionDenied, code: 13 }
}

fn run_check(path: &str, open: OpenOutcome, read: Option<ReadOutcome>) -> Result<Option<pidfile::Pidfile>, IoErr> {
    let mut flow: CheckFlow = at(path.to_string(), 1).check();
    flow = flow.on_open(open);
    if !flow.done() {
        flow = flow.on_read(read.expect("an opened check needs a read outcome"));
    }
    flow.finish()
}

fn run_successful_lock(path: &str, pid: usize) -> (Lock, Vec<u8>) {
    let flow: LockFlow = at(path.to_string(), pid).lock();
    let flow = flow.on_open(OpenOutcome::Opened);
    let flow = flow.on_try_lock(TryLockOutcome::Acquired);
    let flow = flow.on_truncate(IoOutcome::Done);
    let written = flow.contents();
    let flow = flow.on_write(IoOutcome::Done);
    assert!(flow.acquired());
    (flow.finish().ok().expect("acquired attempt yields a lock"), written)
}

#[test]
fn check_on_absent_file_reports_no_lock() {
    let r = run_check("/tmp/test.pid", OpenOutcome::Failed(not_found()), None);
    assert_eq!(r, Ok(None));
}

#[test]
fn check_propagates_other_open_failures() {
    let r = run_check("/tmp/test.pid", OpenOutcome::Failed(denied()), None);
    assert_eq!(r, Err(denied()));
}

#[test]
fn check_propagates_read_failures() {
    let r = run_check(
        "/tmp/test.pid",
        OpenOutcome::Opened,
        Some(ReadOutcome::Failed(denied())),
    );
    assert_eq!(r, Err(denied()));
}

#[test]
fn check_reads_back_the_locked_pid() {
    let r = run_check(
        "/tmp/test.pid",
        OpenOutcome::Opened,
        Some(ReadOutcome::Data(encode_pid(4242))),
    );
    let pf = r.expect("readable file is no error").expect("a recorded pid is a live lock");
    assert_eq!(pf.pid(), 4242);
}

#[test]
fn check_treats_empty_or_zero_content_as_no_lock() {
    let r = run_check("/tmp/test.pid", OpenOutcome::Opened, Some(ReadOutcome::Data(Vec::new())));
    assert_eq!(r, Ok(None));
    let r = run_check(
        "/tmp/test.pid",
        OpenOutcome::Opened,
        Some(ReadOutcome::Data(b"0".to_vec())),
    );
    assert_eq!(r, Ok(None));
}

#[test]
fn check_treats_garbage_content_as_no_lock() {
    let r = run_check(
        "/tmp/test.pid",
        OpenOutcome::Opened,
        Some(ReadOutcome::Data(b"not a pid".to_vec())),
    );
    assert_eq!(r, Ok(None));
}

#[test]
fn lock_records_the_requested_pid() {
    let (lock, written) = run_successful_lock("/tmp/test.pid", 4242);
    assert_eq!(lock.pidfile().pid(), 4242);
    assert_eq!(lock.path().as_str(), "/tmp/test.pid");
    assert_eq!(written, b"4242".to_vec());
}

#[test]
fn lock_contention_is_a_conflict_not_an_io_error() {
    let flow = at("/tmp/test.pid".to_string(), 9999).lock();
    let flow = flow.on_open(OpenOutcome::Opened);
    let flow = flow.on_try_lock(TryLockOutcome::Contended);
    assert!(flow.refused());
    let e = flow.finish().err().expect("contended attempt fails");
    assert!(e.conflict);
    assert!(e.io.is_none());
}

#[test]
fn lock_open_failure_is_an_io_error() {
    let flow = at("/tmp/test.pid".to_string(), 7).lock();
    let flow = flow.on_open(OpenOutcome::Failed(denied()));
    assert!(flow.refused());
    let e = flow.finish().err().expect("failed open refuses the attempt");
    assert!(!e.conflict);
    assert_eq!(e.io, Some(denied()));
}

#[test]
fn lock_trylock_io_failure_is_an_io_error() {
    let flow = at("/tmp/test.pid".to_string(), 7).lock();
    let flow = flow.on_open(OpenOutcome::Opened);
    let other = IoErr { kind: IoKind::Other, code: 5 };
    let flow = flow.on_try_lock(TryLockOutcome::Failed(other));
    let e = flow.finish().err().expect("failed attempt refuses");
    assert!(!e.conflict);
    assert_eq!(e.io, Some(other));
}

#[test]
fn lock_truncate_failure_is_an_io_error() {
    let flow = at("/tmp/test.pid".to_string(), 7).lock();
    let flow = flow.on_open(OpenOutcome::Opened);
    let flow = flow.on_try_lock(TryLockOutcome::Acquired);
    let flow = flow.on_truncate(IoOutcome::Failed(denied()));
    let e = flow.finish().err().expect("failed truncate refuses");
    assert!(!e.conflict);
    assert_eq!(e.io, Some(denied()));
}

#[test]
fn lock_write_failure_is_an_io_error() {
    let flow = at("/tmp/test.pid".to_string(), 7).lock();
    let flow = flow.on_open(OpenOutcome::Opened);
    let flow = flow.on_try_lock(TryLockOutcome::Acquired);
    let flow = flow.on_truncate(IoOutcome::Done);
    let flow = flow.on_write(IoOutcome::Failed(denied()));
    let e = flow.finish().err().expect("failed write refuses");
    assert!(!e.conflict);
    assert_eq!(e.io, Some(denied()));
}

#[test]
fn lock_creates_files_with_default_permissions() {
    let flow = at("/tmp/test.pid".to_string(), 7).lock();
    assert_eq!(flow.perm_bits(), 0o644);
}

#[test]
fn error_constructors_keep_the_channels_disjoint() {
    let c = LockError::conflict();
    assert!(c.conflict);
    assert!(c.io.is_none());
    let e = LockError::io_error(denied());
    assert!(!e.conflict);
    assert_eq!(e.io, Some(denied()));
}

#[test]
fn singleton_scenario_at_one_path() {
    // Absent file: no lock.
    let r = run_check("/tmp/test.pid", OpenOutcome::Failed(not_found()), None);
    assert_eq!(r, Ok(None));

    // First caller (pid 4242) acquires and records itself.
    let (lock, written) = run_successful_lock("/tmp/test.pid", 4242);
    assert_eq!(lock.pidfile().pid(), 4242);
    assert_eq!(written, b"4242".to_vec());

    // A second caller (pid 9999) finds the lock contended: a conflict,
    // not an I/O error.
    let second = at("/tmp/test.pid".to_string(), 9999).lock();
    let second = second.on_open(OpenOutcome::Opened);
    let second = second.on_try_lock(TryLockOutcome::Contended);
    let e = second.finish().err().expect("contended attempt fails");
    assert!(e.conflict);
    assert!(e.io.is_none());

    // A concurrent reader sees the holder's pid in the file.
    let seen = run_check(
        "/tmp/test.pid",
        OpenOutcome::Opened,
        Some(ReadOutcome::Data(written)),
    );
    assert_eq!(seen.unwrap().unwrap().pid(), 4242);

    // After release the file is gone again: no lock.
    drop(lock);
    let r = run_check("/tmp/test.pid", OpenOutcome::Failed(not_found()), None);
    assert_eq!(r, Ok(None));
}
