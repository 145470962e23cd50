use vstd::prelude::*;

use crate::error::{FailureKind, SyncError};

verus! {

/// One of the system calls that set up a process-shared mutex or condition
/// variable.
#[derive(Clone, Copy, Debug, PartialEq, Eq, Structural)]
pub enum InitCall {
    /// Create the attribute object.
    AttrInit,
    /// Mark the attribute object as shareable between processes.
    SetProcessShared,
    /// Initialize the structure in shared memory with the attribute object.
    ObjectInit,
    /// Destroy the attribute object.
    AttrDestroy,
}

/// What the caller does next while setting a structure up.
#[derive(Clone, Copy, Debug, PartialEq, Eq)]
pub enum InitAction {
    /// Make this call and report its return value.
    Call(InitCall),
    /// The sequence is over, with this result.
    Finish(Result<(), SyncError>),
}

/// The failure that a rejected call is reported as.
pub open spec fn failure_kind(c: InitCall) -> FailureKind {
    match c {
        InitCall::AttrInit => FailureKind::Initialization,
        InitCall::SetProcessShared => FailureKind::AttributeConfig,
        InitCall::ObjectInit => FailureKind::Initialization,
        InitCall::AttrDestroy => FailureKind::Deallocation,
    }
}

/// The call due after the calls `h` (each with its return value), or `None`
/// once the sequence is over. The attribute object is destroyed whenever it
/// was created, and the structure is initialized only with an attribute
/// object that was marked shareable.
pub open spec fn scheduled(h: Seq<(InitCall, i32)>) -> Option<InitCall> {
    if h.len() == 0 {
        Some(InitCall::AttrInit)
    } else if h.len() == 1 {
        if h[0].1 == 0 {
            Some(InitCall::SetProcessShared)
        } else {
            None
        }
    } else if h.len() == 2 {
        if h[1].1 == 0 {
            Some(InitCall::ObjectInit)
        } else {
            Some(InitCall::AttrDestroy)
        }
    } else if h.len() == 3 && h[2].0 == InitCall::ObjectInit {
        Some(InitCall::AttrDestroy)
    } else {
        None
    }
}

/// The calls `h` were made in the order that `scheduled` gives.
pub open spec fn reachable(h: Seq<(InitCall, i32)>) -> bool
    decreases h.len(),
{
    h.len() == 0 || (reachable(h.drop_last()) && scheduled(h.drop_last()) == Some(h.last().0))
}

/// The earliest rejected call among `h`, as the failure it is reported as.
pub open spec fn first_failure(h: Seq<(InitCall, i32)>) -> Option<SyncError>
    decreases h.len(),
{
    if h.len() == 0 {
        None
    } else {
        match first_failure(h.drop_last()) {
            Some(e) => Some(e),
            None => if h.last().1 != 0 {
                Some(SyncError { kind: failure_kind(h.last().0), code: h.last().1 })
            } else {
                None
            },
        }
    }
}

/// The result of a sequence that made the calls `h`: the first failure, if
/// any call was rejected.
pub open spec fn outcome(h: Seq<(InitCall, i32)>) -> Result<(), SyncError> {
    match first_failure(h) {
        Some(e) => Err(e),
        None => Ok(()),
    }
}

/// What is to be done after the calls `h`.
pub open spec fn action_after(h: Seq<(InitCall, i32)>) -> InitAction {
    match scheduled(h) {
        Some(c) => InitAction::Call(c),
        None => InitAction::Finish(outcome(h)),
    }
}

/// The calls of a set-up in which nothing was rejected: the attribute object
/// was created and marked shareable, the structure was initialized with it,
/// and the attribute object was destroyed.
pub open spec fn successful_setup() -> Seq<(InitCall, i32)> {
    seq![
        (InitCall::AttrInit, 0i32),
        (InitCall::SetProcessShared, 0i32),
        (InitCall::ObjectInit, 0i32),
        (InitCall::AttrDestroy, 0i32),
    ]
}

/// Whether the calls `h` initialized the structure, which then has to be
/// destroyed if the set-up fails afterwards.
pub open spec fn structure_initialized(h: Seq<(InitCall, i32)>) -> bool {
    h.len() >= 3 && h[2] == (InitCall::ObjectInit, 0i32)
}

/// The decisions that set a process-shared structure up: which call comes
/// next, given the return values of those made so far, and the result.
pub struct InitSequence {
    calls: Vec<(InitCall, i32)>,
}

impl InitSequence {
    /// The calls made so far, each with its return value.
    pub closed spec fn history(&self) -> Seq<(InitCall, i32)> {
        self.calls@
    }

    /// The calls so far were made in the scheduled order.
    pub open spec fn wf(&self) -> bool {
        reachable(self.history())
    }

    /// A sequence in which no call has been made yet.
    pub fn new() -> (r: InitSequence)
        ensures
            r.wf(),
            r.history() == Seq::<(InitCall, i32)>::empty(),
    {
        InitSequence { calls: Vec::new() }
    }

    /// The call to make next, or the result once the sequence is over.
    pub fn next_action(&self) -> (r: InitAction)
        requires
            self.wf(),
        ensures
            r == action_after(self.history()),
    {
        match self.next_call() {
            Some(c) => InitAction::Call(c),
            None => InitAction::Finish(self.result()),
        }
    }

    fn next_call(&self) -> (r: Option<InitCall>)
        ensures
            r == scheduled(self.history()),
    {
        let n = self.calls.len();
        if n == 0 {
            Some(InitCall::AttrInit)
        } else if n == 1 {
            if self.calls[0].1 == 0 {
                Some(InitCall::SetProcessShared)
            } else {
                None
            }
        } else if n == 2 {
            if self.calls[1].1 == 0 {
                Some(InitCall::ObjectInit)
            } else {
                Some(InitCall::AttrDestroy)
            }
        } else if n == 3 && self.calls[2].0 == InitCall::ObjectInit {
            Some(InitCall::AttrDestroy)
        } else {
            None
        }
    }

    /// The result of the calls so far: their first failure, if any.
    pub fn result(&self) -> (r: Result<(), SyncError>)
        ensures
            r == outcome(self.history()),
    {
        let n = self.calls.len();
        let mut i: usize = 0;
        while i < n
            invariant
                n == self.calls@.len(),
                0 <= i <= n,
                first_failure(self.calls@.subrange(0, i as int)) is None,
            decreases n - i,
        {
            let (c, ret) = self.calls[i];
            assert(self.calls@.subrange(0, i as int + 1).drop_last()
                =~= self.calls@.subrange(0, i as int));
            if ret != 0 {
                proof {
                    lemma_failure_extends(self.calls@, i as int + 1);
                }
                return Err(SyncError::new(failure_kind_of(c), ret));
            }
            i = i + 1;
        }
        assert(self.calls@.subrange(0, n as int) =~= self.calls@);
        Ok(())
    }

    /// Whether the structure itself was initialized by the calls so far.
    pub fn object_initialized(&self) -> (r: bool)
        ensures
            r == structure_initialized(self.history()),
    {
        self.calls.len() >= 3 && self.calls[2].0 == InitCall::ObjectInit && self.calls[2].1 == 0
    }

    /// Records the return value of the call that `next_action` asked for.
    pub fn record(&mut self, ret: i32)
        requires
            old(self).wf(),
            scheduled(old(self).history()) is Some,
        ensures
            final(self).wf(),
            final(self).history() == old(self).history().push(
                (scheduled(old(self).history())->0, ret),
            ),
    {
        let c = self.next_call().unwrap();
        self.calls.push((c, ret));
        assert(self.calls@.drop_last() =~= old(self).calls@);
    }
}

/// A sequence that has run to its end made one of three series of calls:
/// creating the attribute object was rejected; or it was created, marking it
/// shareable was rejected, and it was destroyed; or it was created and
/// marked, the structure was initialized, and the attribute object was
/// destroyed. So the attribute object is destroyed exactly when it was
/// created, and the structure is only ever initialized with an attribute
/// object marked shareable. The result is a success exactly when no call was
/// rejected.
pub proof fn lemma_complete_sequences(h: Seq<(InitCall, i32)>)
    requires
        reachable(h),
        scheduled(h) is None,
    ensures
        (h.len() == 1 && h[0].0 == InitCall::AttrInit && h[0].1 != 0) || (h.len() == 3 && h[0]
            == (InitCall::AttrInit, 0i32) && h[1].0 == InitCall::SetProcessShared && h[1].1 != 0
            && h[2].0 == InitCall::AttrDestroy) || (h.len() == 4 && h[0] == (InitCall::AttrInit, 0i32)
            && h[1] == (InitCall::SetProcessShared, 0i32) && h[2].0 == InitCall::ObjectInit
            && h[3].0 == InitCall::AttrDestroy),
        outcome(h) is Ok <==> forall|i: int| 0 <= i < h.len() ==> #[trigger] h[i].1 == 0,
{
    assert(h.len() <= 4);
    if h.len() >= 2 {
        let h1 = h.drop_last();
        assert(reachable(h1));
        assert(h1[0] == h[0]);
        if h.len() >= 3 {
            let h2 = h1.drop_last();
            assert(reachable(h2));
            assert(h1[1] == h[1]);
            assert(h2[0] == h[0]);
            if h.len() == 4 {
                let h3 = h2.drop_last();
                assert(reachable(h3));
                assert(h2[1] == h[1]);
                assert(h1[2] == h[2]);
                assert(h3[0] == h[0]);
            }
        }
    }
    lemma_no_failure(h);
}

/// No call among `h` was rejected exactly when there is no first failure.
proof fn lemma_no_failure(h: Seq<(InitCall, i32)>)
    ensures
        first_failure(h) is None <==> forall|i: int| 0 <= i < h.len() ==> #[trigger] h[i].1 == 0,
    decreases h.len(),
{
    if h.len() > 0 {
        lemma_no_failure(h.drop_last());
        let t = h.drop_last();
        if forall|i: int| 0 <= i < h.len() ==> #[trigger] h[i].1 == 0 {
            assert forall|i: int| 0 <= i < t.len() implies #[trigger] t[i].1 == 0 by {
                assert(t[i] == h[i]);
            }
        }
        if first_failure(h) is None {
            assert forall|i: int| 0 <= i < h.len() implies #[trigger] h[i].1 == 0 by {
                if i < t.len() {
                    assert(t[i] == h[i]);
                }
            }
        }
    }
}

/// A set-up that ran to its end without a rejected call made exactly the
/// calls of `successful_setup`.
pub proof fn lemma_successful_setup(h: Seq<(InitCall, i32)>)
    requires
        reachable(h),
        scheduled(h) is None,
        outcome(h) is Ok,
    ensures
        h == successful_setup(),
{
    lemma_complete_sequences(h);
    assert(h[0].1 == 0);
    assert(h[1].1 == 0);
    assert(h[2].1 == 0);
    assert(h[3].1 == 0);
    assert(h =~= successful_setup());
}

/// A failure found within the first `k` calls is the first failure of the
/// whole history as well.
proof fn lemma_failure_extends(h: Seq<(InitCall, i32)>, k: int)
    requires
        0 <= k <= h.len(),
        first_failure(h.subrange(0, k)) is Some,
    ensures
        first_failure(h) == first_failure(h.subrange(0, k)),
    decreases h.len() - k,
{
    if k < h.len() {
        assert(h.subrange(0, k + 1).drop_last() =~= h.subrange(0, k));
        lemma_failure_extends(h, k + 1);
    } else {
        assert(h.subrange(0, k) =~= h);
    }
}

fn failure_kind_of(c: InitCall) -> (r: FailureKind)
    ensures
        r == failure_kind(c),
{
    match c {
        InitCall::AttrInit => FailureKind::Initialization,
        InitCall::SetProcessShared => FailureKind::AttributeConfig,
        InitCall::ObjectInit => FailureKind::Initialization,
        InitCall::AttrDestroy => FailureKind::Deallocation,
    }
}

} // verus!
