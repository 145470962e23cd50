use vstd::prelude::*;

verus! {

/// The stage at which an operating-system call was rejected.
#[derive(Clone, Copy, Debug, PartialEq, Eq, Structural)]
pub enum FailureKind {
    /// Reserving the shared mapping was rejected.
    Allocation,
    /// Marking a structure as shareable between processes was rejected.
    AttributeConfig,
    /// Initializing an attribute object or a structure was rejected.
    Initialization,
    /// Locking, unlocking, waiting or notifying was rejected.
    Operation,
    /// Releasing a mapping, an attribute object or a structure was rejected.
    Deallocation,
}

/// An operating-system failure: the stage it happened at, and the raw error
/// code that the system reported, passed on unmodified.
#[derive(Clone, Copy, Debug, PartialEq, Eq, Structural)]
pub struct SyncError {
    pub kind: FailureKind,
    pub code: i32,
}

impl SyncError {
    pub fn new(kind: FailureKind, code: i32) -> (r: SyncError)
        ensures
            r.kind == kind,
            r.code == code,
    {
        SyncError { kind, code }
    }

    pub fn kind(&self) -> (r: FailureKind)
        ensures
            r == self.kind,
    {
        self.kind
    }

    pub fn code(&self) -> (r: i32)
        ensures
            r == self.code,
    {
        self.code
    }
}

} // verus!
