//! Every gate a read served from this node's state has to pass, in the one
//! order that is safe: the recovery barrier, authorization, the
//! read-your-writes hold, and authorization again if that hold parked.
//!
//! The two waits lie with the caller. [`gate_after_barrier`] takes the outcome
//! of the first and says whether the second is needed; [`gate_after_frontier`]
//! takes the outcome of the second.

use crate::authorize::{
    authorize_read, check_callable, denied_check_rejects, passed_check_was_permitted,
    read_authorized, rule_answers, wants_primary,
};
use crate::barrier::{
    met_at, recovery_run, recovery_wait_is_decided_by_its_samples, RecoverySample, RecoveryState,
};
use crate::error::ReadError;
use crate::frontier::{
    frontier_run, read_past_the_frontier_sees_its_own_writes, FrontierEvent, FrontierWait,
};
use crate::metadata::HttpInner;
use crate::request::{read_needs_metadata_frontier, ClientIp, Consistency, Identity, ReadCode};
use vstd::prelude::*;

verus! {

/// What happens to a read once the recovery barrier is behind it.
#[derive(Debug, PartialEq, Eq)]
pub enum GateStep<E> {
    /// The read is let on, or refused.
    Finish(Result<(), ReadError<E>>),
    /// The read has to be held for the metadata frontier.
    AwaitFrontier,
}

/// What becomes of a read after the recovery barrier. A barrier that was not
/// met, and a check that turns the read down, refuse it there; a read that
/// passes is held only if its code asks for it.
pub open spec fn after_barrier<
    P,
    E,
    R: Fn(&P, u32) -> Result<(), E>,
    N: Fn(&String, ClientIp) -> ReadError<E>,
>(
    barrier: Result<(), ReadError<E>>,
    state: HttpInner<P>,
    identity: Identity,
    consistency: Consistency,
    code: ReadCode,
    rule: R,
    not_primary_read_error: N,
    step: GateStep<E>,
) -> bool {
    match barrier {
        Err(refusal) => step == GateStep::Finish(Err(refusal)),
        Ok(()) => exists|check: Result<(), ReadError<E>>| #[trigger]
            read_authorized(state, identity, consistency, rule, not_primary_read_error, check)
                && step == if check is Ok && code.needs_frontier() {
                GateStep::AwaitFrontier
            } else {
                GateStep::Finish(check)
            },
    }
}

/// What becomes of a read after the hold. A read that did not park passes on
/// the check it has had; one that parked is checked again, against the state
/// that moved under it.
pub open spec fn after_frontier<
    P,
    E,
    R: Fn(&P, u32) -> Result<(), E>,
    N: Fn(&String, ClientIp) -> ReadError<E>,
>(
    frontier: Result<FrontierWait, ReadError<E>>,
    state: HttpInner<P>,
    identity: Identity,
    consistency: Consistency,
    rule: R,
    not_primary_read_error: N,
    result: Result<(), ReadError<E>>,
) -> bool {
    match frontier {
        Err(refusal) => result == Err::<(), _>(refusal),
        Ok(FrontierWait::Ready) => result == Ok::<(), ReadError<E>>(()),
        Ok(FrontierWait::CaughtUp) => read_authorized(
            state,
            identity,
            consistency,
            rule,
            not_primary_read_error,
            result,
        ),
    }
}

/// The step after the recovery barrier. Authorization comes before the
/// hold because it is terminal: a redirect or a denial must answer at once
/// rather than after a park.
pub fn gate_after_barrier<
    P,
    E,
    R: Fn(&P, u32) -> Result<(), E>,
    N: Fn(&String, ClientIp) -> ReadError<E>,
>(
    barrier: Result<(), ReadError<E>>,
    state: &HttpInner<P>,
    identity: &Identity,
    consistency: Consistency,
    code: ReadCode,
    rule: &R,
    not_primary_read_error: &N,
) -> (step: GateStep<E>)
    requires
        barrier is Ok ==> check_callable(
            *state,
            *identity,
            consistency,
            *rule,
            *not_primary_read_error,
        ),
    ensures
        after_barrier(
            barrier,
            *state,
            *identity,
            consistency,
            code,
            *rule,
            *not_primary_read_error,
            step,
        ),
{
    match barrier {
        Err(refusal) => GateStep::Finish(Err(refusal)),
        Ok(()) => {
            let check = authorize_read(state, identity, consistency, rule, not_primary_read_error);
            let ghost checked = check;
            assert(read_authorized(
                *state,
                *identity,
                consistency,
                *rule,
                *not_primary_read_error,
                checked,
            ));
            if check.is_ok() && read_needs_metadata_frontier(code) {
                GateStep::AwaitFrontier
            } else {
                GateStep::Finish(check)
            }
        },
    }
}

/// The last step, after the hold for the metadata frontier. `state` is
/// the node as it is now: a rule resolves its entity when it runs, and an
/// entity that was missing on the first pass may exist after a park, so a read
/// that parked is checked again.
pub fn gate_after_frontier<
    P,
    E,
    R: Fn(&P, u32) -> Result<(), E>,
    N: Fn(&String, ClientIp) -> ReadError<E>,
>(
    frontier: Result<FrontierWait, ReadError<E>>,
    state: &HttpInner<P>,
    identity: &Identity,
    consistency: Consistency,
    rule: &R,
    not_primary_read_error: &N,
) -> (result: Result<(), ReadError<E>>)
    requires
        frontier matches Ok(FrontierWait::CaughtUp) ==> check_callable(
            *state,
            *identity,
            consistency,
            *rule,
            *not_primary_read_error,
        ),
    ensures
        after_frontier(
            frontier,
            *state,
            *identity,
            consistency,
            *rule,
            *not_primary_read_error,
            result,
        ),
{
    match frontier {
        Err(refusal) => Err(refusal),
        Ok(FrontierWait::Ready) => Ok(()),
        Ok(FrontierWait::CaughtUp) => authorize_read(
            state,
            identity,
            consistency,
            rule,
            not_primary_read_error,
        ),
    }
}

/// The whole gate of one read can end with `result`: `before` is the node when
/// the barrier was behind, `frontier` the outcome of the hold, and `after` the
/// node when the hold ended.
pub open spec fn gate_ends_with<
    P,
    E,
    R: Fn(&P, u32) -> Result<(), E>,
    N: Fn(&String, ClientIp) -> ReadError<E>,
>(
    barrier: Result<(), ReadError<E>>,
    before: HttpInner<P>,
    frontier: Result<FrontierWait, ReadError<E>>,
    after: HttpInner<P>,
    identity: Identity,
    consistency: Consistency,
    code: ReadCode,
    rule: R,
    not_primary_read_error: N,
    result: Result<(), ReadError<E>>,
) -> bool {
    exists|step: GateStep<E>| #[trigger]
        after_barrier(
            barrier,
            before,
            identity,
            consistency,
            code,
            rule,
            not_primary_read_error,
            step,
        ) && match step {
            GateStep::Finish(decided) => result == decided,
            GateStep::AwaitFrontier => after_frontier(
                frontier,
                after,
                identity,
                consistency,
                rule,
                not_primary_read_error,
                result,
            ),
        }
}

/// No read is let on without everything the gates promise: the recovery
/// barrier was met, the caller was permitted on the state that followed it,
/// a linearizable read was on the primary, a read that its code holds reached
/// the frontier, and where it parked for that, it was permitted again on the
/// state it is served from.
pub proof fn served_read_passed_every_gate<
    P,
    E,
    R: Fn(&P, u32) -> Result<(), E>,
    N: Fn(&String, ClientIp) -> ReadError<E>,
>(
    barrier: Result<(), ReadError<E>>,
    before: HttpInner<P>,
    frontier: Result<FrontierWait, ReadError<E>>,
    after: HttpInner<P>,
    identity: Identity,
    consistency: Consistency,
    code: ReadCode,
    rule: R,
    not_primary_read_error: N,
)
    requires
        gate_ends_with(
            barrier,
            before,
            frontier,
            after,
            identity,
            consistency,
            code,
            rule,
            not_primary_read_error,
            Ok(()),
        ),
    ensures
        barrier is Ok,
        rule_answers(before, identity, rule, Ok::<(), E>(())),
        !wants_primary(before, consistency),
        code.needs_frontier() ==> frontier is Ok,
        code.needs_frontier() && frontier == Ok::<_, ReadError<E>>(FrontierWait::CaughtUp) ==> {
            &&& rule_answers(after, identity, rule, Ok::<(), E>(()))
            &&& !wants_primary(after, consistency)
        },
{
    assert(barrier is Ok);
    assert(read_authorized(
        before,
        identity,
        consistency,
        rule,
        not_primary_read_error,
        Ok::<(), ReadError<E>>(()),
    ));
    passed_check_was_permitted(before, identity, consistency, rule, not_primary_read_error);
    if code.needs_frontier() && frontier == Ok::<_, ReadError<E>>(FrontierWait::CaughtUp) {
        passed_check_was_permitted(after, identity, consistency, rule, not_primary_read_error);
    }
}

/// The two promises of a served read together, over everything that was seen
/// while it waited: some look at the recovery barrier found it met, and where
/// the code of the read holds it for the frontier, the node was seen to have
/// applied everything the caller was told committed.
pub proof fn served_read_is_recovered_and_sees_its_own_writes<
    P,
    E,
    R: Fn(&P, u32) -> Result<(), E>,
    N: Fn(&String, ClientIp) -> ReadError<E>,
>(
    samples: Seq<RecoverySample>,
    floor: u64,
    applied: u64,
    events: Seq<FrontierEvent>,
    barrier: Result<(), ReadError<E>>,
    before: HttpInner<P>,
    frontier: Result<FrontierWait, ReadError<E>>,
    after: HttpInner<P>,
    identity: Identity,
    consistency: Consistency,
    code: ReadCode,
    rule: R,
    not_primary_read_error: N,
)
    requires
        samples.len() > 0,
        !samples[0].met() ==> samples[0].gives_up_at() <= u128::MAX,
        recovery_run::<E>(RecoveryState::Entering, samples) == Some(barrier),
        code.needs_frontier() ==> frontier_run::<E>(floor, applied, events) == Some(frontier),
        gate_ends_with(
            barrier,
            before,
            frontier,
            after,
            identity,
            consistency,
            code,
            rule,
            not_primary_read_error,
            Ok(()),
        ),
    ensures
        exists|k: int| 0 <= k < samples.len() && (#[trigger] samples[k]).met(),
        code.needs_frontier() ==> applied >= floor || exists|k: int|
            0 <= k < events.len() && (#[trigger] events[k] matches FrontierEvent::Advanced(seen)
                && seen >= floor),
{
    served_read_passed_every_gate(
        barrier,
        before,
        frontier,
        after,
        identity,
        consistency,
        code,
        rule,
        not_primary_read_error,
    );
    recovery_wait_is_decided_by_its_samples::<E>(samples);
    assert(barrier->Ok_0 == ());
    assert(barrier == Ok::<(), ReadError<E>>(()));
    if !samples[0].met() {
        let later = samples.drop_first();
        let k = choose|k: int| met_at(later, samples[0].gives_up_at(), k);
        assert(samples[k + 1] == later[k]);
    }
    if code.needs_frontier() {
        read_past_the_frontier_sees_its_own_writes::<E>(floor, applied, events);
    }
}

/// A denial is terminal: where the rule denies once the barrier is behind,
/// the read is rejected with the denial there and then, and never held.
pub proof fn denial_answers_without_a_hold<
    P,
    E,
    R: Fn(&P, u32) -> Result<(), E>,
    N: Fn(&String, ClientIp) -> ReadError<E>,
>(
    state: HttpInner<P>,
    identity: Identity,
    consistency: Consistency,
    code: ReadCode,
    rule: R,
    not_primary_read_error: N,
    step: GateStep<E>,
)
    requires
        !rule_answers(state, identity, rule, Ok::<(), E>(())),
        after_barrier(
            Ok(()),
            state,
            identity,
            consistency,
            code,
            rule,
            not_primary_read_error,
            step,
        ),
    ensures
        step matches GateStep::Finish(Err(ReadError::Rejected(denial))) && rule_answers(
            state,
            identity,
            rule,
            Err::<(), E>(denial),
        ),
{
    let check = choose|check: Result<(), ReadError<E>>| #[trigger]
        read_authorized(state, identity, consistency, rule, not_primary_read_error, check) && step
            == if check is Ok && code.needs_frontier() {
            GateStep::AwaitFrontier
        } else {
            GateStep::Finish(check)
        };
    denied_check_rejects(state, identity, consistency, rule, not_primary_read_error, check);
}

/// A linearizable read on a follower is never held and never served: it ends as
/// soon as the barrier is behind, with a denial or with the answer that sends
/// the caller to the primary.
pub proof fn follower_answers_linearizable_reads_at_once<
    P,
    E,
    R: Fn(&P, u32) -> Result<(), E>,
    N: Fn(&String, ClientIp) -> ReadError<E>,
>(
    state: HttpInner<P>,
    identity: Identity,
    code: ReadCode,
    rule: R,
    not_primary_read_error: N,
    step: GateStep<E>,
)
    requires
        !state.metadata_primary,
        after_barrier(
            Ok(()),
            state,
            identity,
            Consistency::Linearizable,
            code,
            rule,
            not_primary_read_error,
            step,
        ),
    ensures
        step matches GateStep::Finish(result) && result is Err,
{
}

/// Only a park pays for a second check: a read that found its floor applied is
/// let on whatever the node looks like by then.
pub proof fn read_that_did_not_park_is_not_checked_again<
    P,
    E,
    R: Fn(&P, u32) -> Result<(), E>,
    N: Fn(&String, ClientIp) -> ReadError<E>,
>(
    state: HttpInner<P>,
    identity: Identity,
    consistency: Consistency,
    rule: R,
    not_primary_read_error: N,
    result: Result<(), ReadError<E>>,
)
    requires
        after_frontier(
            Ok(FrontierWait::Ready),
            state,
            identity,
            consistency,
            rule,
            not_primary_read_error,
            result,
        ),
    ensures
        result == Ok::<(), ReadError<E>>(()),
{
}

} // verus!
