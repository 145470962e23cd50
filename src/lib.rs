//! Synchronization primitives for processes that share a common ancestor.
//!
//! The library holds the decisions that surround the operating system's
//! process-shared mutex, condition variable and anonymous shared mapping:
//! how each return code becomes a result, the order of the calls that set a
//! synchronization structure up, and which process is allowed to destroy it.
//! Every decision is stated as a contract and proved.

mod condvar;
mod error;
mod init;
mod mutex;
mod shared_memory;
mod util;

pub use condvar::SharedCondvar;
pub use error::{FailureKind, SyncError};
pub use init::{InitAction, InitCall, InitSequence};
pub use mutex::SharedMutex;
pub use shared_memory::{SharedMemoryObject, MAP_FAILED_ADDR};
pub use util::{check_libc_err, check_pthread_ret, check_status_errno};
