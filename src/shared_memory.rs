use vstd::layout::size_of;
use vstd::prelude::*;

use crate::error::{FailureKind, SyncError};

verus! {

/// The address that the mapping call returns when it rejects a request
/// (all bits set).
pub const MAP_FAILED_ADDR: usize = usize::MAX;

/// A shared anonymous mapping that holds one value of type `T`.
///
/// The descriptor records where the mapping starts; it is sized for exactly
/// one `T`. Every process that holds a descriptor, the creating one and each
/// one duplicated from it, releases its own view of the mapping, and that
/// release never touches the value inside.
pub struct SharedMemoryObject<T> {
    addr: usize,
    marker: std::marker::PhantomData<T>,
}

impl<T> SharedMemoryObject<T> {
    /// The start of the mapping.
    pub closed spec fn start(&self) -> usize {
        self.addr
    }

    /// Turns what the mapping call returned into a descriptor: `addr` is the
    /// address it returned and `errno` the thread's error code read right
    /// after it. A rejected mapping is an allocation failure that carries
    /// that code.
    pub fn from_mapping(addr: usize, errno: i32) -> (r: Result<Self, SyncError>)
        ensures
            r is Ok <==> addr != MAP_FAILED_ADDR,
            r matches Ok(m) ==> m.start() == addr,
            r matches Err(e) ==> e == (SyncError { kind: FailureKind::Allocation, code: errno }),
    {
        if addr == MAP_FAILED_ADDR {
            Err(SyncError::new(FailureKind::Allocation, errno))
        } else {
            Ok(SharedMemoryObject { addr, marker: std::marker::PhantomData })
        }
    }

    /// The start of the mapping, where the value lives.
    pub fn addr(&self) -> (r: usize)
        ensures
            r == self.start(),
    {
        self.addr
    }

    /// The length of the mapping: the size of one `T`.
    pub fn len(&self) -> (r: usize)
        ensures
            r as nat == size_of::<T>(),
    {
        core::mem::size_of::<T>()
    }
}

} // verus!
