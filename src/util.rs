use vstd::prelude::*;

use crate::error::{FailureKind, SyncError};

verus! {

#[verifier::external_type_specification]
#[verifier::external_body]
pub struct ExIoError(std::io::Error);

/// Relies on std::io::Error::last_os_error: it captures the error code that
/// the calling thread's last failed system call left behind. That code
/// depends on the thread's history, so nothing is stated of it.
#[verifier::external_body]
fn last_os_error() -> (r: std::io::Error) {
    std::io::Error::last_os_error()
}

/// Checks the return value of a system call that signals failure with a
/// negative value and leaves the reason in the thread's error code.
/// A non-negative value is handed back unchanged.
pub fn check_libc_err(ret: i32) -> (r: std::io::Result<i32>)
    ensures
        r is Ok <==> ret >= 0,
        r matches Ok(v) ==> v == ret,
{
    if ret < 0 {
        return Err(last_os_error());
    }
    Ok(ret)
}

/// The result that a call which returns its error number directly (zero on
/// success) stands for, classified under `kind`.
pub open spec fn pthread_outcome(ret: i32, kind: FailureKind) -> Result<(), SyncError> {
    if ret == 0 {
        Ok(())
    } else {
        Err(SyncError { kind, code: ret })
    }
}

/// Checks the return value of a call that reports its error number directly
/// and returns zero on success.
pub fn check_pthread_ret(ret: i32, kind: FailureKind) -> (r: Result<(), SyncError>)
    ensures
        r == pthread_outcome(ret, kind),
{
    if ret == 0 {
        Ok(())
    } else {
        Err(SyncError::new(kind, ret))
    }
}

/// The result that a call which returns zero on success, and anything else
/// with the reason left in the thread's error code `errno`, stands for.
pub open spec fn errno_outcome(ret: i32, errno: i32, kind: FailureKind) -> Result<(), SyncError> {
    if ret == 0 {
        Ok(())
    } else {
        Err(SyncError { kind, code: errno })
    }
}

/// Checks the return value `ret` of a call that returns zero on success and
/// otherwise leaves the reason in the thread's error code, read as `errno`.
pub fn check_status_errno(ret: i32, errno: i32, kind: FailureKind) -> (r: Result<(), SyncError>)
    ensures
        r == errno_outcome(ret, errno, kind),
{
    if ret == 0 {
        Ok(())
    } else {
        Err(SyncError::new(kind, errno))
    }
}

} // verus!

verus! {

/// Whether the handle of a structure created by process `owner_pid`
/// destroys that structure when it is released in process `current_pid`:
/// only the creating process does.
pub open spec fn must_finalize(owner_pid: i32, current_pid: i32) -> bool {
    owner_pid == current_pid
}

/// Handles duplicated from one creator all carry the creator's identity.
/// Among processes with distinct identities that release such handles, at
/// most one destroys the structure, and one does exactly when the creator is
/// among them.
pub proof fn lemma_finalized_at_most_once(owner_pid: i32, pids: Seq<i32>)
    requires
        pids.no_duplicates(),
    ensures
        forall|i: int, j: int|
            0 <= i < pids.len() && 0 <= j < pids.len() && #[trigger] must_finalize(owner_pid, pids[i])
                && #[trigger] must_finalize(owner_pid, pids[j]) ==> i == j,
        pids.contains(owner_pid) <==> exists|i: int|
            0 <= i < pids.len() && #[trigger] must_finalize(owner_pid, pids[i]),
{
    if pids.contains(owner_pid) {
        let i = choose|i: int| 0 <= i < pids.len() && pids[i] == owner_pid;
        assert(must_finalize(owner_pid, pids[i]));
    }
}

} // verus!
