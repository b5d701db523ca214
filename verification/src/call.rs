//! Running one lifecycle operation: its requests are issued in order, the
//! first failure ends it, and success needs every request to succeed.

use vstd::prelude::*;
use crate::error::{RealmError, RealmOp};
use crate::request::RmeRequest;

verus! {

/// What the caller does next for an operation in progress.
#[derive(Debug, Clone, Copy)]
pub enum CallAction {
    /// Issue this request and hand its outcome to [`RealmCall::record`].
    Issue(RmeRequest),
    /// The operation is over, with this result.
    Finish(Result<(), RealmError>),
}

/// Progress of an operation: how many of its requests succeeded, and the
/// error of the one that failed, if one did.
pub type CallState = (nat, Option<kvm_ioctls::Error>);

/// What to do in state `state` of operation `op` with requests `requests`.
pub open spec fn action_of(op: RealmOp, requests: Seq<RmeRequest>, state: CallState) -> CallAction {
    match state.1 {
        Some(e) => CallAction::Finish(Err(op.wrap_spec(e))),
        None => if state.0 < requests.len() {
            CallAction::Issue(requests[state.0 as int])
        } else {
            CallAction::Finish(Ok(()))
        },
    }
}

/// The state after the outcome of the request that was being waited for;
/// an operation that is over keeps its state.
pub open spec fn record_of(
    len: nat,
    state: CallState,
    outcome: Result<(), kvm_ioctls::Error>,
) -> CallState {
    if state.1 is None && state.0 < len {
        match outcome {
            Ok(()) => (state.0 + 1, None),
            Err(e) => (state.0, Some(e)),
        }
    } else {
        state
    }
}

/// The state after recording `outcomes` one after the other.
pub open spec fn feed(len: nat, state: CallState, outcomes: Seq<Result<(), kvm_ioctls::Error>>) -> CallState
    decreases outcomes.len(),
{
    if outcomes.len() == 0 {
        state
    } else {
        feed(len, record_of(len, state, outcomes[0]), outcomes.drop_first())
    }
}

/// The first error among `outcomes`, if any.
pub open spec fn first_error(outcomes: Seq<Result<(), kvm_ioctls::Error>>) -> Option<kvm_ioctls::Error>
    decreases outcomes.len(),
{
    if outcomes.len() == 0 {
        None
    } else {
        match outcomes[0] {
            Err(e) => Some(e),
            Ok(()) => first_error(outcomes.drop_first()),
        }
    }
}

/// The state in which an operation starts.
pub open spec fn initial_state() -> CallState {
    (0nat, None::<kvm_ioctls::Error>)
}

/// One lifecycle operation in progress.
pub struct RealmCall {
    op: RealmOp,
    requests: Vec<RmeRequest>,
    done: usize,
    failure: Option<kvm_ioctls::Error>,
}

impl RealmCall {
    #[verifier::type_invariant]
    spec fn inv(self) -> bool {
        &&& self.done <= self.requests.len()
        &&& (self.failure is Some ==> self.done < self.requests.len())
    }

    /// The operation.
    pub closed spec fn op(&self) -> RealmOp {
        self.op
    }

    /// The requests of the operation, in the order in which they are issued.
    pub closed spec fn requests(&self) -> Seq<RmeRequest> {
        self.requests@
    }

    /// The progress of the operation.
    pub closed spec fn state(&self) -> CallState {
        (self.done as nat, self.failure)
    }

    /// An operation `op` that has yet to issue `requests`.
    pub fn new(op: RealmOp, requests: Vec<RmeRequest>) -> (call: Self)
        ensures
            call.op() == op,
            call.requests() == requests@,
            call.state() == initial_state(),
    {
        RealmCall { op, requests, done: 0, failure: None }
    }

    /// What to do next: issue the next request, or finish.
    pub fn action(&self) -> (a: CallAction)
        ensures
            a == action_of(self.op(), self.requests(), self.state()),
    {
        proof {
            use_type_invariant(self);
        }
        match self.failure {
            Some(e) => CallAction::Finish(Err(self.op.wrap(e))),
            None => if self.done < self.requests.len() {
                CallAction::Issue(self.requests[self.done])
            } else {
                CallAction::Finish(Ok(()))
            },
        }
    }

    /// Records the outcome of the request last handed out by [`RealmCall::action`].
    /// Once the operation is over, its state no longer changes.
    pub fn record(&mut self, outcome: Result<(), kvm_ioctls::Error>)
        ensures
            final(self).op() == old(self).op(),
            final(self).requests() == old(self).requests(),
            final(self).state() == record_of(old(self).requests().len(), old(self).state(), outcome),
    {
        proof {
            use_type_invariant(&*self);
        }
        if self.failure.is_none() && self.done < self.requests.len() {
            match outcome {
                Ok(()) => {
                    self.done = self.done + 1;
                },
                Err(e) => {
                    self.failure = Some(e);
                },
            }
        }
    }
}

/// The result an operation ends with when its requests have the outcomes
/// `outcomes`: the first error, reported as a failure of `op`, or success.
pub open spec fn expected_result(op: RealmOp, outcomes: Seq<Result<(), kvm_ioctls::Error>>) -> Result<(), RealmError> {
    match first_error(outcomes) {
        Some(e) => Err(op.wrap_spec(e)),
        None => Ok(()),
    }
}

/// Feeding outcomes to an operation that has not failed and still has at
/// least that many requests to issue: it fails with the first error among
/// them, or else counts them all as done.
pub proof fn lemma_feed_pending(len: nat, done: nat, outcomes: Seq<Result<(), kvm_ioctls::Error>>)
    requires
        done + outcomes.len() <= len,
    ensures
        feed(len, (done, None), outcomes).1 == first_error(outcomes),
        first_error(outcomes) is None ==> feed(len, (done, None), outcomes).0 == done + outcomes.len(),
        feed(len, (done, None), outcomes).0 <= done + outcomes.len(),
    decreases outcomes.len(),
{
    if outcomes.len() > 0 {
        let rest = outcomes.drop_first();
        match outcomes[0] {
            Ok(()) => {
                lemma_feed_pending(len, done + 1, rest);
            },
            Err(e) => {
                lemma_failure_is_final(len, (done, Some(e)), rest);
            },
        }
    }
}

/// Once an operation has failed, no outcome changes its state: it issues
/// nothing more and keeps reporting the same failure.
pub proof fn lemma_failure_is_final(len: nat, state: CallState, outcomes: Seq<Result<(), kvm_ioctls::Error>>)
    requires
        state.1 is Some,
    ensures
        feed(len, state, outcomes) == state,
    decreases outcomes.len(),
{
    if outcomes.len() > 0 {
        lemma_failure_is_final(len, state, outcomes.drop_first());
    }
}

/// An operation whose requests all get an outcome ends with the first error
/// among them, reported as a failure of the operation, and succeeds exactly
/// when every request succeeded.
pub proof fn lemma_run_result(op: RealmOp, requests: Seq<RmeRequest>, outcomes: Seq<Result<(), kvm_ioctls::Error>>)
    requires
        outcomes.len() == requests.len(),
    ensures
        action_of(op, requests, feed(requests.len(), initial_state(), outcomes))
            == CallAction::Finish(expected_result(op, outcomes)),
{
    lemma_feed_pending(requests.len(), 0, outcomes);
}

/// Requests are issued in order: after the first `outcomes.len()` requests
/// succeeded, the next one to issue is the request at that position.
pub proof fn lemma_issue_in_order(op: RealmOp, requests: Seq<RmeRequest>, outcomes: Seq<Result<(), kvm_ioctls::Error>>)
    requires
        outcomes.len() < requests.len(),
        first_error(outcomes) is None,
    ensures
        action_of(op, requests, feed(requests.len(), initial_state(), outcomes))
            == CallAction::Issue(requests[outcomes.len() as int]),
{
    lemma_feed_pending(requests.len(), 0, outcomes);
}

/// After a request fails, the operation issues nothing more: whatever
/// outcomes follow, it finishes with that failure.
pub proof fn lemma_stop_at_failure(
    op: RealmOp,
    requests: Seq<RmeRequest>,
    outcomes: Seq<Result<(), kvm_ioctls::Error>>,
    e: kvm_ioctls::Error,
    later: Seq<Result<(), kvm_ioctls::Error>>,
)
    requires
        outcomes.len() < requests.len(),
        first_error(outcomes) is None,
    ensures
        action_of(op, requests, feed(requests.len(), initial_state(), outcomes.push(Err(e)) + later))
            == CallAction::Finish(Err::<(), RealmError>(op.wrap_spec(e))),
{
    let all = outcomes.push(Err(e)) + later;
    lemma_first_error_append(outcomes, Err(e), later);
    assert(all.len() == outcomes.len() + 1 + later.len());
    if outcomes.len() + 1 + later.len() <= requests.len() {
        lemma_feed_pending(requests.len(), 0, all);
    } else {
        lemma_feed_prefix(requests.len(), initial_state(), outcomes.push(Err(e)), later);
        lemma_feed_pending(requests.len(), 0, outcomes.push(Err(e)));
        lemma_failure_is_final(requests.len(), feed(requests.len(), initial_state(), outcomes.push(Err(e))), later);
    }
}

/// The first error of `outcomes`, followed by `o` and `later`, when `outcomes` holds none.
proof fn lemma_first_error_append(
    outcomes: Seq<Result<(), kvm_ioctls::Error>>,
    o: Result<(), kvm_ioctls::Error>,
    later: Seq<Result<(), kvm_ioctls::Error>>,
)
    requires
        first_error(outcomes) is None,
    ensures
        first_error(outcomes.push(o) + later) == (match o {
            Err(e) => Some(e),
            Ok(()) => first_error(later),
        }),
        first_error(outcomes.push(o)) == (match o {
            Err(e) => Some(e),
            Ok(()) => None::<kvm_ioctls::Error>,
        }),
    decreases outcomes.len(),
{
    if outcomes.len() == 0 {
        assert((outcomes.push(o) + later).drop_first() =~= later);
        assert(outcomes.push(o).drop_first() =~= Seq::<Result<(), kvm_ioctls::Error>>::empty());
        assert(first_error(Seq::<Result<(), kvm_ioctls::Error>>::empty()) is None);
    } else {
        lemma_first_error_append(outcomes.drop_first(), o, later);
        assert((outcomes.push(o) + later).drop_first() =~= outcomes.drop_first().push(o) + later);
        assert(outcomes.push(o).drop_first() =~= outcomes.drop_first().push(o));
    }
}

/// Feeding two runs of outcomes one after the other is feeding them joined.
proof fn lemma_feed_prefix(
    len: nat,
    state: CallState,
    first: Seq<Result<(), kvm_ioctls::Error>>,
    second: Seq<Result<(), kvm_ioctls::Error>>,
)
    ensures
        feed(len, state, first + second) == feed(len, feed(len, state, first), second),
    decreases first.len(),
{
    if first.len() == 0 {
        assert(first + second =~= second);
    } else {
        assert((first + second).drop_first() =~= first.drop_first() + second);
        lemma_feed_prefix(len, record_of(len, state, first[0]), first.drop_first(), second);
    }
}

/// An operation all of whose requests succeed ends with success.
pub proof fn lemma_all_succeed_ends_ok(op: RealmOp, requests: Seq<RmeRequest>, outcomes: Seq<Result<(), kvm_ioctls::Error>>)
    requires
        outcomes.len() == requests.len(),
        forall|i: int| 0 <= i < outcomes.len() ==> #[trigger] outcomes[i] is Ok,
    ensures
        action_of(op, requests, feed(requests.len(), initial_state(), outcomes))
            == CallAction::Finish(Ok::<(), RealmError>(())),
{
    lemma_no_error_when_all_ok(outcomes);
    lemma_run_result(op, requests, outcomes);
}

/// An operation whose request at position `k` fails with `e`, after the
/// ones before it succeeded, ends with `e` reported as a failure of the
/// operation, whatever the outcomes after it.
pub proof fn lemma_failure_at_ends_with_it(
    op: RealmOp,
    requests: Seq<RmeRequest>,
    outcomes: Seq<Result<(), kvm_ioctls::Error>>,
    k: int,
    e: kvm_ioctls::Error,
)
    requires
        outcomes.len() == requests.len(),
        0 <= k < outcomes.len(),
        forall|i: int| 0 <= i < k ==> #[trigger] outcomes[i] is Ok,
        outcomes[k] == Err::<(), kvm_ioctls::Error>(e),
    ensures
        action_of(op, requests, feed(requests.len(), initial_state(), outcomes))
            == CallAction::Finish(Err::<(), RealmError>(op.wrap_spec(e))),
{
    let before = outcomes.take(k);
    assert forall|i: int| 0 <= i < before.len() implies #[trigger] before[i] is Ok by {
        assert(before[i] == outcomes[i]);
    }
    lemma_no_error_when_all_ok(before);
    assert(outcomes =~= before.push(Err(e)) + outcomes.skip(k + 1));
    lemma_stop_at_failure(op, requests, before, e, outcomes.skip(k + 1));
}

proof fn lemma_no_error_when_all_ok(outcomes: Seq<Result<(), kvm_ioctls::Error>>)
    requires
        forall|i: int| 0 <= i < outcomes.len() ==> #[trigger] outcomes[i] is Ok,
    ensures
        first_error(outcomes) is None,
    decreases outcomes.len(),
{
    if outcomes.len() > 0 {
        let rest = outcomes.drop_first();
        assert forall|i: int| 0 <= i < rest.len() implies #[trigger] rest[i] is Ok by {
            assert(rest[i] == outcomes[i + 1]);
        }
        lemma_no_error_when_all_ok(rest);
        assert(outcomes[0] is Ok);
    }
}

} // verus!
