//! What the checks and the answer to a read owe the caller.

use crate::authorize::{
    answers_verdict, data_plane_authorized, read_authorized, rule_answers, write_authorized,
};
use crate::error::ReadError;
use crate::frontier::FrontierWait;
use crate::gate::{after_barrier, after_frontier, gate_ends_with, GateStep};
use crate::local::{
    local_read_answered, query_of, reply_of, reported_clients, reports_clients,
    NonReplicatedResponse, ResponseQuery,
};
use crate::metadata::{topic_ids_of, HttpInner, WireIdentifier};
use crate::request::{ClientIp, Consistency, Identity, ReadCode};
use bytes::Bytes;
use vstd::prelude::*;

verus! {

/// The static catalog, and what the binary dispatch exempts, are the only reads
/// that are not held for the frontier.
pub proof fn every_other_read_is_held(code: ReadCode)
    ensures
        code is DescribeOptions ==> !code.needs_frontier(),
        code matches ReadCode::Dispatched { code: _, frontier_exempt } ==> (code.needs_frontier()
            <==> !frontier_exempt),
        !(code is DescribeOptions) && !(code is Dispatched) ==> code.needs_frontier(),
{
}

/// A caller whom the rule never denies passes the check wherever the read may be
/// served: any read but a linearizable one, and that on the primary.
pub proof fn permitted_read_passes_the_check<
    P,
    E,
    R: Fn(&P, u32) -> Result<(), E>,
    N: Fn(&String, ClientIp) -> ReadError<E>,
>(
    state: HttpInner<P>,
    identity: Identity,
    consistency: Consistency,
    rule: R,
    not_primary_read_error: N,
    result: Result<(), ReadError<E>>,
)
    requires
        forall|verdict: Result<(), E>|
            call_ensures(rule, (&state.users.permissioner, identity.user_id), verdict)
                ==> verdict is Ok,
        consistency != Consistency::Linearizable || state.metadata_primary,
        read_authorized(state, identity, consistency, rule, not_primary_read_error, result),
    ensures
        result == Ok::<(), ReadError<E>>(()),
{
    let verdict = choose|verdict: Result<(), E>| #[trigger]
        rule_answers(state, identity, rule, verdict) && answers_verdict(
            state,
            identity,
            consistency,
            verdict,
            not_primary_read_error,
            result,
        );
    assert(call_ensures(rule, (&state.users.permissioner, identity.user_id), verdict));
}

/// A caller whom the rule never denies is sent to the primary with a
/// linearizable read on a follower, by the answer made of the request.
pub proof fn permitted_linearizable_read_is_sent_to_the_primary<
    P,
    E,
    R: Fn(&P, u32) -> Result<(), E>,
    N: Fn(&String, ClientIp) -> ReadError<E>,
>(
    state: HttpInner<P>,
    identity: Identity,
    rule: R,
    not_primary_read_error: N,
    result: Result<(), ReadError<E>>,
)
    requires
        forall|verdict: Result<(), E>|
            call_ensures(rule, (&state.users.permissioner, identity.user_id), verdict)
                ==> verdict is Ok,
        !state.metadata_primary,
        read_authorized(
            state,
            identity,
            Consistency::Linearizable,
            rule,
            not_primary_read_error,
            result,
        ),
    ensures
        result matches Err(answer) && call_ensures(
            not_primary_read_error,
            (&identity.path_and_query, identity.client_ip),
            answer,
        ),
{
    let verdict = choose|verdict: Result<(), E>| #[trigger]
        rule_answers(state, identity, rule, verdict) && answers_verdict(
            state,
            identity,
            Consistency::Linearizable,
            verdict,
            not_primary_read_error,
            result,
        );
    assert(call_ensures(rule, (&state.users.permissioner, identity.user_id), verdict));
}

/// Whatever the check answers has its cause: a pass was permitted by the rule
/// for this caller, and on the primary if the read is linearizable; a refusal is
/// the rule's denial of this caller, or the answer for the primary to a
/// permitted linearizable read on a follower.
pub proof fn answer_of_the_check_has_its_cause<
    P,
    E,
    R: Fn(&P, u32) -> Result<(), E>,
    N: Fn(&String, ClientIp) -> ReadError<E>,
>(
    state: HttpInner<P>,
    identity: Identity,
    consistency: Consistency,
    rule: R,
    not_primary_read_error: N,
    result: Result<(), ReadError<E>>,
)
    requires
        read_authorized(state, identity, consistency, rule, not_primary_read_error, result),
    ensures
        result is Ok ==> {
            &&& call_ensures(
                rule,
                (&state.users.permissioner, identity.user_id),
                Ok::<(), E>(()),
            )
            &&& consistency == Consistency::Linearizable ==> state.metadata_primary
        },
        result matches Err(answer) ==> {
            ||| (answer matches ReadError::Rejected(denial) && call_ensures(
                rule,
                (&state.users.permissioner, identity.user_id),
                Err::<(), E>(denial),
            ))
            ||| {
                &&& consistency == Consistency::Linearizable
                &&& !state.metadata_primary
                &&& call_ensures(
                    rule,
                    (&state.users.permissioner, identity.user_id),
                    Ok::<(), E>(()),
                )
                &&& call_ensures(
                    not_primary_read_error,
                    (&identity.path_and_query, identity.client_ip),
                    answer,
                )
            }
        },
{
    let verdict = choose|verdict: Result<(), E>| #[trigger]
        rule_answers(state, identity, rule, verdict) && answers_verdict(
            state,
            identity,
            consistency,
            verdict,
            not_primary_read_error,
            result,
        );
    if verdict is Ok {
        assert(verdict->Ok_0 == ());
        assert(verdict == Ok::<(), E>(()));
    } else {
        assert(verdict == Err::<(), E>(verdict->Err_0));
    }
}

/// A caller whom the rule never permits is rejected with the rule's own denial,
/// whatever the read and wherever it landed.
pub proof fn denied_read_is_rejected<
    P,
    E,
    R: Fn(&P, u32) -> Result<(), E>,
    N: Fn(&String, ClientIp) -> ReadError<E>,
>(
    state: HttpInner<P>,
    identity: Identity,
    consistency: Consistency,
    rule: R,
    not_primary_read_error: N,
    result: Result<(), ReadError<E>>,
)
    requires
        forall|verdict: Result<(), E>|
            call_ensures(rule, (&state.users.permissioner, identity.user_id), verdict)
                ==> verdict is Err,
        read_authorized(state, identity, consistency, rule, not_primary_read_error, result),
    ensures
        result matches Err(ReadError::Rejected(denial)) && call_ensures(
            rule,
            (&state.users.permissioner, identity.user_id),
            Err::<(), E>(denial),
        ),
{
    answer_of_the_check_has_its_cause(
        state,
        identity,
        consistency,
        rule,
        not_primary_read_error,
        result,
    );
}

/// Two callers with the same user id are answered alike by a rule that has one
/// answer, on any two nodes with the same permissioner and the same role.
pub proof fn check_goes_by_user_permissions_and_role<
    P,
    E,
    R: Fn(&P, u32) -> Result<(), E>,
    N: Fn(&String, ClientIp) -> ReadError<E>,
>(
    one: HttpInner<P>,
    other: HttpInner<P>,
    identity: Identity,
    twin: Identity,
    consistency: Consistency,
    rule: R,
    not_primary_read_error: N,
    verdict: Result<(), E>,
    result: Result<(), ReadError<E>>,
    twin_result: Result<(), ReadError<E>>,
)
    requires
        one.users.permissioner == other.users.permissioner,
        one.metadata_primary == other.metadata_primary,
        identity.user_id == twin.user_id,
        forall|answer: Result<(), E>|
            call_ensures(rule, (&one.users.permissioner, identity.user_id), answer) ==> answer
                == verdict,
        read_authorized(one, identity, consistency, rule, not_primary_read_error, result),
        read_authorized(other, twin, consistency, rule, not_primary_read_error, twin_result),
    ensures
        result is Ok <==> twin_result is Ok,
        verdict is Err ==> result == twin_result,
{
    answer_of_the_check_has_its_cause(
        one,
        identity,
        consistency,
        rule,
        not_primary_read_error,
        result,
    );
    answer_of_the_check_has_its_cause(
        other,
        twin,
        consistency,
        rule,
        not_primary_read_error,
        twin_result,
    );
}

/// A refusal at the barrier is the answer to the read, as it is.
pub proof fn refusal_at_the_barrier_stands<
    P,
    E,
    R: Fn(&P, u32) -> Result<(), E>,
    N: Fn(&String, ClientIp) -> ReadError<E>,
>(
    refusal: ReadError<E>,
    state: HttpInner<P>,
    identity: Identity,
    consistency: Consistency,
    code: ReadCode,
    rule: R,
    not_primary_read_error: N,
    step: GateStep<E>,
)
    requires
        after_barrier(
            Err(refusal),
            state,
            identity,
            consistency,
            code,
            rule,
            not_primary_read_error,
            step,
        ),
    ensures
        step == GateStep::Finish(Err::<(), _>(refusal)),
{
}

/// A permitted read that may be served here goes on from a barrier that is met:
/// to the hold if it is an entity read, or one that the dispatch does not
/// exempt, and otherwise straight through.
pub proof fn permitted_read_goes_on_from_the_barrier<
    P,
    E,
    R: Fn(&P, u32) -> Result<(), E>,
    N: Fn(&String, ClientIp) -> ReadError<E>,
>(
    state: HttpInner<P>,
    identity: Identity,
    consistency: Consistency,
    code: ReadCode,
    rule: R,
    not_primary_read_error: N,
    step: GateStep<E>,
)
    requires
        forall|verdict: Result<(), E>|
            call_ensures(rule, (&state.users.permissioner, identity.user_id), verdict)
                ==> verdict is Ok,
        consistency != Consistency::Linearizable || state.metadata_primary,
        after_barrier(
            Ok(()),
            state,
            identity,
            consistency,
            code,
            rule,
            not_primary_read_error,
            step,
        ),
    ensures
        code is DescribeOptions || (code matches ReadCode::Dispatched { code: _, frontier_exempt }
            && frontier_exempt) ==> step == GateStep::Finish(Ok::<(), ReadError<E>>(())),
        !(code is DescribeOptions) && !(code is Dispatched) ==> step is AwaitFrontier,
        code matches ReadCode::Dispatched { code: _, frontier_exempt } ==> !frontier_exempt
            ==> step is AwaitFrontier,
{
    let check = choose|check: Result<(), ReadError<E>>| #[trigger]
        read_authorized(state, identity, consistency, rule, not_primary_read_error, check) && step
            == if check is Ok && code.needs_frontier() {
            GateStep::AwaitFrontier
        } else {
            GateStep::Finish(check)
        };
    permitted_read_passes_the_check(
        state,
        identity,
        consistency,
        rule,
        not_primary_read_error,
        check,
    );
}

/// Whatever follows a barrier that is met has its cause: the read goes on, held
/// or not, only where the rule permits it and it may be served here; it is held
/// only if it is not the static catalog and not exempt; and it is refused only
/// with the rule's denial, or with the answer for the primary.
pub proof fn step_after_the_barrier_has_its_cause<
    P,
    E,
    R: Fn(&P, u32) -> Result<(), E>,
    N: Fn(&String, ClientIp) -> ReadError<E>,
>(
    state: HttpInner<P>,
    identity: Identity,
    consistency: Consistency,
    code: ReadCode,
    rule: R,
    not_primary_read_error: N,
    step: GateStep<E>,
)
    requires
        after_barrier(
            Ok(()),
            state,
            identity,
            consistency,
            code,
            rule,
            not_primary_read_error,
            step,
        ),
    ensures
        step is AwaitFrontier || step == GateStep::Finish(Ok::<(), ReadError<E>>(())) ==> {
            &&& call_ensures(
                rule,
                (&state.users.permissioner, identity.user_id),
                Ok::<(), E>(()),
            )
            &&& consistency == Consistency::Linearizable ==> state.metadata_primary
        },
        step is AwaitFrontier ==> !(code is DescribeOptions) && !(
        code matches ReadCode::Dispatched { code: _, frontier_exempt } && frontier_exempt),
        step == GateStep::Finish(Ok::<(), ReadError<E>>(())) ==> code is DescribeOptions || (
        code matches ReadCode::Dispatched { code: _, frontier_exempt } && frontier_exempt),
        step matches GateStep::Finish(Err(answer)) ==> {
            ||| (answer matches ReadError::Rejected(denial) && call_ensures(
                rule,
                (&state.users.permissioner, identity.user_id),
                Err::<(), E>(denial),
            ))
            ||| {
                &&& consistency == Consistency::Linearizable
                &&& !state.metadata_primary
                &&& call_ensures(
                    rule,
                    (&state.users.permissioner, identity.user_id),
                    Ok::<(), E>(()),
                )
                &&& call_ensures(
                    not_primary_read_error,
                    (&identity.path_and_query, identity.client_ip),
                    answer,
                )
            }
        },
{
    let check = choose|check: Result<(), ReadError<E>>| #[trigger]
        read_authorized(state, identity, consistency, rule, not_primary_read_error, check) && step
            == if check is Ok && code.needs_frontier() {
            GateStep::AwaitFrontier
        } else {
            GateStep::Finish(check)
        };
    answer_of_the_check_has_its_cause(
        state,
        identity,
        consistency,
        rule,
        not_primary_read_error,
        check,
    );
}

/// What follows the hold: a refusal stands, a read that found its floor applied
/// goes on, and one that parked is answered as a check of the node as it is now
/// answers it.
pub proof fn step_after_the_hold_goes_by_the_hold<
    P,
    E,
    R: Fn(&P, u32) -> Result<(), E>,
    N: Fn(&String, ClientIp) -> ReadError<E>,
>(
    frontier: Result<FrontierWait, ReadError<E>>,
    state: HttpInner<P>,
    identity: Identity,
    consistency: Consistency,
    rule: R,
    not_primary_read_error: N,
    result: Result<(), ReadError<E>>,
)
    requires
        after_frontier(
            frontier,
            state,
            identity,
            consistency,
            rule,
            not_primary_read_error,
            result,
        ),
    ensures
        frontier matches Err(refusal) ==> result == Err::<(), _>(refusal),
        frontier matches Ok(FrontierWait::Ready) ==> result == Ok::<(), ReadError<E>>(()),
        frontier matches Ok(FrontierWait::CaughtUp) ==> {
            &&& result is Ok ==> {
                &&& call_ensures(
                    rule,
                    (&state.users.permissioner, identity.user_id),
                    Ok::<(), E>(()),
                )
                &&& consistency == Consistency::Linearizable ==> state.metadata_primary
            }
            &&& result matches Err(answer) ==> {
                ||| (answer matches ReadError::Rejected(denial) && call_ensures(
                    rule,
                    (&state.users.permissioner, identity.user_id),
                    Err::<(), E>(denial),
                ))
                ||| {
                    &&& consistency == Consistency::Linearizable
                    &&& !state.metadata_primary
                    &&& call_ensures(
                        rule,
                        (&state.users.permissioner, identity.user_id),
                        Ok::<(), E>(()),
                    )
                    &&& call_ensures(
                        not_primary_read_error,
                        (&identity.path_and_query, identity.client_ip),
                        answer,
                    )
                }
            }
        },
{
    if frontier is Ok && frontier->Ok_0 is CaughtUp {
        answer_of_the_check_has_its_cause(
            state,
            identity,
            consistency,
            rule,
            not_primary_read_error,
            result,
        );
    }
}

/// A read that is permitted throughout is served: where the barrier is met, the
/// rule denies the caller neither before nor after the hold, the read may be
/// served here both times, and the hold lets it on, nothing turns it away.
pub proof fn permitted_read_is_served<
    P,
    E,
    R: Fn(&P, u32) -> Result<(), E>,
    N: Fn(&String, ClientIp) -> ReadError<E>,
>(
    before: HttpInner<P>,
    wait: FrontierWait,
    after: HttpInner<P>,
    identity: Identity,
    consistency: Consistency,
    code: ReadCode,
    rule: R,
    not_primary_read_error: N,
    result: Result<(), ReadError<E>>,
)
    requires
        forall|verdict: Result<(), E>|
            call_ensures(rule, (&before.users.permissioner, identity.user_id), verdict)
                ==> verdict is Ok,
        forall|verdict: Result<(), E>|
            call_ensures(rule, (&after.users.permissioner, identity.user_id), verdict)
                ==> verdict is Ok,
        consistency != Consistency::Linearizable || (before.metadata_primary
            && after.metadata_primary),
        gate_ends_with(
            Ok(()),
            before,
            Ok(wait),
            after,
            identity,
            consistency,
            code,
            rule,
            not_primary_read_error,
            result,
        ),
    ensures
        result == Ok::<(), ReadError<E>>(()),
{
    let step = choose|step: GateStep<E>| #[trigger]
        after_barrier(
            Ok(()),
            before,
            identity,
            consistency,
            code,
            rule,
            not_primary_read_error,
            step,
        ) && match step {
            GateStep::Finish(decided) => result == decided,
            GateStep::AwaitFrontier => after_frontier(
                Ok(wait),
                after,
                identity,
                consistency,
                rule,
                not_primary_read_error,
                result,
            ),
        };
    permitted_read_goes_on_from_the_barrier(
        before,
        identity,
        consistency,
        code,
        rule,
        not_primary_read_error,
        step,
    );
    if wait is CaughtUp && step is AwaitFrontier {
        permitted_read_passes_the_check(
            after,
            identity,
            consistency,
            rule,
            not_primary_read_error,
            result,
        );
    }
}

/// A refusal of either wait is the answer to a read that gets that far: the
/// barrier's to every read, and the hold's to a permitted read that is held. A
/// read that is not held is answered without regard to the hold.
pub proof fn refusal_of_a_wait_is_the_answer<
    P,
    E,
    R: Fn(&P, u32) -> Result<(), E>,
    N: Fn(&String, ClientIp) -> ReadError<E>,
>(
    barrier: Result<(), ReadError<E>>,
    before: HttpInner<P>,
    frontier: Result<FrontierWait, ReadError<E>>,
    after: HttpInner<P>,
    identity: Identity,
    consistency: Consistency,
    code: ReadCode,
    rule: R,
    not_primary_read_error: N,
    result: Result<(), ReadError<E>>,
)
    requires
        forall|verdict: Result<(), E>|
            call_ensures(rule, (&before.users.permissioner, identity.user_id), verdict)
                ==> verdict is Ok,
        consistency != Consistency::Linearizable || before.metadata_primary,
        gate_ends_with(
            barrier,
            before,
            frontier,
            after,
            identity,
            consistency,
            code,
            rule,
            not_primary_read_error,
            result,
        ),
    ensures
        barrier matches Err(refusal) ==> result == Err::<(), _>(refusal),
        barrier is Ok && code is DescribeOptions ==> result == Ok::<(), ReadError<E>>(()),
        barrier is Ok && !(code is DescribeOptions) && !(code is Dispatched) ==> (
        frontier matches Err(refusal) ==> result == Err::<(), _>(refusal)),
{
    if barrier is Ok {
        assert(barrier->Ok_0 == ());
        assert(barrier == Ok::<(), ReadError<E>>(()));
        let step = choose|step: GateStep<E>| #[trigger]
            after_barrier(
                barrier,
                before,
                identity,
                consistency,
                code,
                rule,
                not_primary_read_error,
                step,
            ) && match step {
                GateStep::Finish(decided) => result == decided,
                GateStep::AwaitFrontier => after_frontier(
                    frontier,
                    after,
                    identity,
                    consistency,
                    rule,
                    not_primary_read_error,
                    result,
                ),
            };
        permitted_read_goes_on_from_the_barrier(
            before,
            identity,
            consistency,
            code,
            rule,
            not_primary_read_error,
            step,
        );
    }
}

/// A write to a topic that both identifiers lead to is answered by the rule on
/// that topic, and by nothing else: it passes only where the rule permits it
/// there, and is refused only with the rule's error.
pub proof fn write_to_a_found_topic_is_answered_by_the_rule<
    P,
    E,
    X,
    R: FnOnce(&P, u32, usize, usize) -> Result<(), E>,
>(
    state: HttpInner<P>,
    user_id: u32,
    stream: WireIdentifier,
    topic: WireIdentifier,
    rule: R,
    result: Result<(), E>,
    stream_id: usize,
    topic_id: usize,
)
    requires
        topic_ids_of(state.streams, stream, topic) == Some((stream_id, topic_id)),
        data_plane_authorized(
            state,
            user_id,
            Ok::<_, X>(stream),
            Ok::<_, X>(topic),
            rule,
            result,
        ),
    ensures
        call_ensures(rule, (&state.users.permissioner, user_id, stream_id, topic_id), result),
{
}

/// A write that passes either named no committed topic, or was permitted by the
/// rule on the topic it named.
pub proof fn passed_write_was_permitted_or_named_nothing<
    P,
    E,
    I,
    X,
    W: Fn(&I) -> Result<WireIdentifier, X>,
    R: FnOnce(&P, u32, usize, usize) -> Result<(), E>,
>(
    state: HttpInner<P>,
    user_id: u32,
    stream_id: &I,
    topic_id: &I,
    identifier_to_wire: W,
    rule: R,
    stream: WireIdentifier,
    topic: WireIdentifier,
)
    requires
        forall|outcome: Result<WireIdentifier, X>|
            call_ensures(identifier_to_wire, (stream_id,), outcome) ==> outcome == Ok::<_, X>(
                stream,
            ),
        forall|outcome: Result<WireIdentifier, X>|
            call_ensures(identifier_to_wire, (topic_id,), outcome) ==> outcome == Ok::<_, X>(topic),
        write_authorized(
            state,
            user_id,
            stream_id,
            topic_id,
            identifier_to_wire,
            rule,
            Ok(()),
        ),
    ensures
        topic_ids_of(state.streams, stream, topic) matches Some(ids) ==> call_ensures(
            rule,
            (&state.users.permissioner, user_id, ids.0, ids.1),
            Ok::<(), E>(()),
        ),
{
}

/// Where both identifiers convert, a write is answered by the rule on the topic
/// they lead to, and passes where they lead to none.
pub proof fn write_is_answered_for_the_topic_it_names<
    P,
    E,
    I,
    X,
    W: Fn(&I) -> Result<WireIdentifier, X>,
    R: FnOnce(&P, u32, usize, usize) -> Result<(), E>,
>(
    state: HttpInner<P>,
    user_id: u32,
    stream_id: &I,
    topic_id: &I,
    identifier_to_wire: W,
    rule: R,
    stream: WireIdentifier,
    topic: WireIdentifier,
    result: Result<(), E>,
)
    requires
        forall|outcome: Result<WireIdentifier, X>|
            call_ensures(identifier_to_wire, (stream_id,), outcome) ==> outcome == Ok::<_, X>(
                stream,
            ),
        forall|outcome: Result<WireIdentifier, X>|
            call_ensures(identifier_to_wire, (topic_id,), outcome) ==> outcome == Ok::<_, X>(topic),
        write_authorized(
            state,
            user_id,
            stream_id,
            topic_id,
            identifier_to_wire,
            rule,
            result,
        ),
    ensures
        topic_ids_of(state.streams, stream, topic) matches Some(ids) ==> call_ensures(
            rule,
            (&state.users.permissioner, user_id, ids.0, ids.1),
            result,
        ),
        topic_ids_of(state.streams, stream, topic) is None ==> result == Ok::<(), E>(()),
{
}

/// A write of which either identifier does not convert passes.
pub proof fn write_that_does_not_convert_passes<
    P,
    E,
    I,
    X,
    W: Fn(&I) -> Result<WireIdentifier, X>,
    R: FnOnce(&P, u32, usize, usize) -> Result<(), E>,
>(
    state: HttpInner<P>,
    user_id: u32,
    stream_id: &I,
    topic_id: &I,
    identifier_to_wire: W,
    rule: R,
    result: Result<(), E>,
)
    requires
        (forall|outcome: Result<WireIdentifier, X>|
            call_ensures(identifier_to_wire, (stream_id,), outcome) ==> outcome is Err) || (forall|
            outcome: Result<WireIdentifier, X>,
        |
            call_ensures(identifier_to_wire, (topic_id,), outcome) ==> outcome is Err),
        write_authorized(
            state,
            user_id,
            stream_id,
            topic_id,
            identifier_to_wire,
            rule,
            result,
        ),
    ensures
        result == Ok::<(), E>(()),
{
}

/// Only the statistics report clients: all that are connected, or as many as
/// the count can hold.
pub proof fn only_the_statistics_report_clients(code: ReadCode, connected: usize)
    ensures
        reports_clients(code) <==> code == ReadCode::GetStats,
        code != ReadCode::GetStats ==> reported_clients(code, connected) == 0,
        code == ReadCode::GetStats && connected <= u32::MAX ==> reported_clients(code, connected)
            == connected,
        code == ReadCode::GetStats && connected > u32::MAX ==> reported_clients(code, connected)
            == u32::MAX,
{
}

/// The builder is asked for exactly this read, on behalf of this caller.
pub proof fn query_is_the_callers<'a>(
    identity: Identity,
    code: ReadCode,
    body: &'a [u8],
    connected: usize,
)
    ensures
        query_of(identity, code, body, connected).code == code,
        query_of(identity, code, body, connected).body == body,
        query_of(identity, code, body, connected).user_id == Some(identity.user_id),
        query_of(identity, code, body, connected).client_ip == identity.client_ip,
        code != ReadCode::GetStats ==> query_of(identity, code, body, connected).clients_count == 0,
        code == ReadCode::GetStats && connected <= u32::MAX ==> query_of(
            identity,
            code,
            body,
            connected,
        ).clients_count == connected,
        code == ReadCode::GetStats && connected > u32::MAX ==> query_of(
            identity,
            code,
            body,
            connected,
        ).clients_count == u32::MAX,
{
}

/// A body is handed on as it is, an absent entity is not found, and the
/// builder's error rejects the read; no other answer comes of a response.
pub proof fn reply_is_what_the_builder_found<E>(response: Result<NonReplicatedResponse, E>)
    ensures
        response matches Ok(NonReplicatedResponse::Bytes(body)) ==> reply_of(response) == Ok::<
            Bytes,
            ReadError<E>,
        >(body),
        response matches Ok(NonReplicatedResponse::Empty) ==> reply_of(response) == Err::<Bytes, _>(
            ReadError::<E>::NotFound,
        ),
        response matches Err(error) ==> reply_of(response) == Err::<Bytes, _>(
            ReadError::Rejected(error),
        ),
{
}

/// A refusal at the gates is the answer to a local read; past them it is served
/// exactly when the builder, asked for this read on behalf of this caller, has
/// a body, and then with that body.
pub proof fn local_read_is_answered_as_built<
    'a,
    E,
    B: FnOnce(ResponseQuery<'a>) -> Result<NonReplicatedResponse, E>,
>(
    gate: Result<(), ReadError<E>>,
    identity: Identity,
    code: ReadCode,
    body: &'a [u8],
    connected: usize,
    build_non_replicated_response: B,
    response: Result<NonReplicatedResponse, E>,
    query: ResponseQuery<'a>,
    result: Result<Bytes, ReadError<E>>,
)
    requires
        query.code == code,
        query.body == body,
        query.user_id == Some(identity.user_id),
        query.client_ip == identity.client_ip,
        query.clients_count == (if code != ReadCode::GetStats {
            0
        } else if connected <= u32::MAX {
            connected as int
        } else {
            u32::MAX as int
        }),
        forall|answer: Result<NonReplicatedResponse, E>|
            call_ensures(build_non_replicated_response, (query,), answer) ==> answer == response,
        local_read_answered(
            gate,
            identity,
            code,
            body,
            connected,
            build_non_replicated_response,
            result,
        ),
    ensures
        gate matches Err(refusal) ==> result == Err::<Bytes, _>(refusal),
        gate is Ok ==> {
            &&& response matches Ok(NonReplicatedResponse::Bytes(found)) ==> result == Ok::<
                Bytes,
                ReadError<E>,
            >(found)
            &&& response matches Ok(NonReplicatedResponse::Empty) ==> result == Err::<Bytes, _>(
                ReadError::<E>::NotFound,
            )
            &&& response matches Err(error) ==> result == Err::<Bytes, _>(
                ReadError::Rejected(error),
            )
        },
{
    assert(query_of(identity, code, body, connected) == query);
}

} // verus!
