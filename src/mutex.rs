use vstd::prelude::*;

use crate::error::SyncError;
use crate::init::{
    lemma_successful_setup, outcome, scheduled, successful_setup, InitCall,
    InitSequence,
};
use crate::shared_memory::SharedMemoryObject;
use crate::util::must_finalize;

verus! {

/// The system's mutex structure, held opaque.
#[verifier::external_type_specification]
#[verifier::external_body]
pub struct ExPthreadMutex(libc::pthread_mutex_t);

/// A mutex shared between processes: the mapping that holds the lock
/// structure, and the identity of the process that created it.
///
/// The mutex is not recursive. Any process may lock and unlock it; only the
/// creating process destroys the structure when its handle is released, and
/// every process releases its own view of the mapping. A handle exists only
/// for a lock structure whose set-up went through without a rejected call.
pub struct SharedMutex {
    mutex: SharedMemoryObject<libc::pthread_mutex_t>,
    owner_pid: i32,
    setup: Ghost<Seq<(InitCall, i32)>>,
}

impl SharedMutex {
    /// The identity of the creating process.
    pub closed spec fn owner(&self) -> i32 {
        self.owner_pid
    }

    /// The mapping that holds the lock structure.
    pub closed spec fn region(&self) -> SharedMemoryObject<libc::pthread_mutex_t> {
        self.mutex
    }

    /// The calls that set the lock structure up, each with its return value.
    pub closed spec fn setup_history(&self) -> Seq<(InitCall, i32)> {
        self.setup@
    }

    /// Creates the handle for the lock structure in `mutex`, which process
    /// `owner_pid` has set up with the finished sequence `setup`. The handle
    /// exists only if no call of the set-up was rejected; otherwise the
    /// mapping comes back, to be released, with the set-up's first failure.
    pub fn new(
        mutex: SharedMemoryObject<libc::pthread_mutex_t>,
        setup: &InitSequence,
        owner_pid: i32,
    ) -> (r: Result<SharedMutex, (SharedMemoryObject<libc::pthread_mutex_t>, SyncError)>)
        requires
            setup.wf(),
            scheduled(setup.history()) is None,
        ensures
            r is Ok <==> outcome(setup.history()) is Ok,
            r matches Ok(m) ==> m.owner() == owner_pid && m.region() == mutex
                && m.setup_history() == setup.history() && m.setup_history() == successful_setup(),
            r matches Err(p) ==> p.0 == mutex && outcome(setup.history()) == Err::<(), SyncError>(
                p.1,
            ),
    {
        proof {
            if outcome(setup.history()) is Ok {
                lemma_successful_setup(setup.history());
            }
        }
        match setup.result() {
            Ok(()) => Ok(SharedMutex { mutex, owner_pid, setup: Ghost(setup.history()) }),
            Err(e) => Err((mutex, e)),
        }
    }

    /// The mapping that holds the lock structure.
    pub fn get(&self) -> (r: &SharedMemoryObject<libc::pthread_mutex_t>)
        ensures
            *r == self.region(),
    {
        &self.mutex
    }

    /// The identity of the creating process.
    pub fn owner_pid(&self) -> (r: i32)
        ensures
            r == self.owner(),
    {
        self.owner_pid
    }

    /// Whether releasing this handle in process `current_pid` destroys the
    /// lock structure: only in the creating process. The mapping itself is
    /// released in every process.
    pub fn must_destroy(&self, current_pid: i32) -> (r: bool)
        ensures
            r == must_finalize(self.owner(), current_pid),
    {
        self.owner_pid == current_pid
    }
}

} // verus!
