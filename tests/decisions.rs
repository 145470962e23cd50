use process_sync::{
    check_libc_err, check_pthread_ret, check_status_errno, FailureKind, InitAction, InitCall,
    InitSequence, SharedCondvar, SharedMemoryObject, SharedMutex, SyncError, MAP_FAILED_ADDR,
};

fn finished_sequence(returns: &[i32]) -> (InitSequence, Vec<InitCall>) {
    let mut seq = InitSequence::new();
    let mut calls = Vec::new();
    let mut next = 0;
    while let InitAction::Call(c) = seq.next_action() {
        calls.push(c);
        let ret = returns[next];
        next += 1;
        seq.record(ret);
    }
    (seq, calls)
}

fn run_sequence(returns: &[i32]) -> (Vec<InitCall>, Result<(), SyncError>) {
    let (seq, calls) = finished_sequence(returns);
    match seq.next_action() {
        InitAction::Finish(r) => {
            assert_eq!(seq.result(), r);
            (calls, r)
        }
        InitAction::Call(_) => unreachable!(),
    }
}

#[test]
fn check_libc_err_passes_non_negative_values() {
    assert_eq!(check_libc_err(0).unwrap(), 0);
    assert_eq!(check_libc_err(4242).unwrap(), 4242);
}

#[test]
fn check_libc_err_rejects_negative_values() {
    assert!(check_libc_err(-1).is_err());
    assert!(check_libc_err(i32::MIN).is_err());
}

#[test]
fn pthread_ret_zero_is_success() {
    assert_eq!(check_pthread_ret(0, FailureKind::Operation), Ok(()));
}

#[test]
fn pthread_ret_error_number_is_passed_on() {
    let e = check_pthread_ret(libc::EINVAL, FailureKind::Operation).unwrap_err();
    assert_eq!(e.kind(), FailureKind::Operation);
    assert_eq!(e.code(), libc::EINVAL);
    let e = check_pthread_ret(libc::EDEADLK, FailureKind::Operation).unwrap_err();
    assert_eq!(e, SyncError::new(FailureKind::Operation, libc::EDEADLK));
}

#[test]
fn status_errno_reports_the_thread_error_code() {
    assert_eq!(check_status_errno(0, 99, FailureKind::Deallocation), Ok(()));
    let e = check_status_errno(-1, libc::EINVAL, FailureKind::Deallocation).unwrap_err();
    assert_eq!(e.kind(), FailureKind::Deallocation);
    assert_eq!(e.code(), libc::EINVAL);
}

#[test]
fn rejected_mapping_is_an_allocation_failure() {
    let r = SharedMemoryObject::<u64>::from_mapping(MAP_FAILED_ADDR, libc::ENOMEM);
    let e = r.err().unwrap();
    assert_eq!(e.kind(), FailureKind::Allocation);
    assert_eq!(e.code(), libc::ENOMEM);
}

#[test]
fn accepted_mapping_keeps_its_address_and_size() {
    let m = SharedMemoryObject::<u64>::from_mapping(0x7f00_0000_1000, 0).ok().unwrap();
    assert_eq!(m.addr(), 0x7f00_0000_1000);
    assert_eq!(m.len(), 8);
    let m = SharedMemoryObject::<[u8; 40]>::from_mapping(4096, 0).ok().unwrap();
    assert_eq!(m.len(), 40);
}

#[test]
fn full_setup_succeeds_when_every_call_succeeds() {
    let (calls, r) = run_sequence(&[0, 0, 0, 0]);
    assert_eq!(
        calls,
        vec![
            InitCall::AttrInit,
            InitCall::SetProcessShared,
            InitCall::ObjectInit,
            InitCall::AttrDestroy
        ]
    );
    assert_eq!(r, Ok(()));
}

#[test]
fn rejected_attribute_creation_stops_at_once() {
    let (calls, r) = run_sequence(&[libc::ENOMEM]);
    assert_eq!(calls, vec![InitCall::AttrInit]);
    assert_eq!(r, Err(SyncError::new(FailureKind::Initialization, libc::ENOMEM)));
}

#[test]
fn rejected_shareable_mark_still_destroys_the_attribute() {
    let (calls, r) = run_sequence(&[0, libc::ENOTSUP, 0]);
    assert_eq!(
        calls,
        vec![InitCall::AttrInit, InitCall::SetProcessShared, InitCall::AttrDestroy]
    );
    assert_eq!(r, Err(SyncError::new(FailureKind::AttributeConfig, libc::ENOTSUP)));
}

#[test]
fn rejected_structure_init_still_destroys_the_attribute() {
    let (calls, r) = run_sequence(&[0, 0, libc::EAGAIN, 0]);
    assert_eq!(calls.len(), 4);
    assert_eq!(calls[3], InitCall::AttrDestroy);
    assert_eq!(r, Err(SyncError::new(FailureKind::Initialization, libc::EAGAIN)));
}

#[test]
fn rejected_attribute_destroy_is_a_deallocation_failure() {
    let (_, r) = run_sequence(&[0, 0, 0, libc::EINVAL]);
    assert_eq!(r, Err(SyncError::new(FailureKind::Deallocation, libc::EINVAL)));
}

#[test]
fn first_rejection_is_the_one_reported() {
    let (_, r) = run_sequence(&[0, 0, libc::EAGAIN, libc::EINVAL]);
    assert_eq!(r, Err(SyncError::new(FailureKind::Initialization, libc::EAGAIN)));
}

#[test]
fn only_creator_destroys_mutex() {
    let region = SharedMemoryObject::from_mapping(8192, 0).ok().unwrap();
    let (setup, _) = finished_sequence(&[0, 0, 0, 0]);
    let m = SharedMutex::new(region, &setup, 100).ok().unwrap();
    assert_eq!(m.owner_pid(), 100);
    assert_eq!(m.get().addr(), 8192);
    assert!(m.must_destroy(100));
    assert!(!m.must_destroy(101));
}

#[test]
fn only_creator_destroys_condvar() {
    let region = SharedMemoryObject::from_mapping(12288, 0).ok().unwrap();
    let (setup, _) = finished_sequence(&[0, 0, 0, 0]);
    let c = SharedCondvar::new(region, &setup, 7).ok().unwrap();
    assert_eq!(c.owner_pid(), 7);
    assert_eq!(c.get().addr(), 12288);
    assert!(c.must_destroy(7));
    assert!(!c.must_destroy(8));
    assert!(!c.must_destroy(-1));
}

#[test]
fn failed_mutex_setup_gives_no_handle() {
    let region = SharedMemoryObject::from_mapping(8192, 0).ok().unwrap();
    let (setup, _) = finished_sequence(&[0, libc::ENOTSUP, 0]);
    assert!(!setup.object_initialized());
    let (back, e) = SharedMutex::new(region, &setup, 100).err().unwrap();
    assert_eq!(back.addr(), 8192);
    assert_eq!(e, SyncError::new(FailureKind::AttributeConfig, libc::ENOTSUP));
}

#[test]
fn failed_condvar_setup_gives_no_handle() {
    let region = SharedMemoryObject::from_mapping(12288, 0).ok().unwrap();
    let (setup, _) = finished_sequence(&[0, 0, libc::EAGAIN, 0]);
    assert!(!setup.object_initialized());
    let (back, e) = SharedCondvar::new(region, &setup, 7).err().unwrap();
    assert_eq!(back.addr(), 12288);
    assert_eq!(e, SyncError::new(FailureKind::Initialization, libc::EAGAIN));
}

#[test]
fn failed_attribute_destroy_leaves_an_initialized_structure() {
    let region = SharedMemoryObject::from_mapping(4096, 0).ok().unwrap();
    let (setup, _) = finished_sequence(&[0, 0, 0, libc::EINVAL]);
    assert!(setup.object_initialized());
    let (back, e) = SharedMutex::new(region, &setup, 1).err().unwrap();
    assert_eq!(back.addr(), 4096);
    assert_eq!(e, SyncError::new(FailureKind::Deallocation, libc::EINVAL));
}

#[test]
fn duplicated_handles_destroy_once() {
    // The creator 300 and two processes duplicated from it each release a
    // handle that carries the creator's identity.
    let pids = [300, 301, 302];
    let mut destroys = 0;
    for pid in pids {
        let region = SharedMemoryObject::from_mapping(4096, 0).ok().unwrap();
        let (setup, _) = finished_sequence(&[0, 0, 0, 0]);
        let m = SharedMutex::new(region, &setup, 300).ok().unwrap();
        if m.must_destroy(pid) {
            destroys += 1;
        }
    }
    assert_eq!(destroys, 1);
}
