//! The authorization and consistency check of reads, and the authorization of
//! data-plane writes.

use crate::error::ReadError;
use crate::metadata::{
    resolved_topic_is_committed, topic_ids_of, topic_of, HttpInner, WireIdentifier,
};
use crate::request::{ClientIp, Consistency, Identity};
use crate::resolve::resolve_gate_topic;
use vstd::prelude::*;

verus! {

/// The rule, run for the caller against the node's live permissioner, can
/// answer with `verdict`.
pub open spec fn rule_answers<P, E, R: Fn(&P, u32) -> Result<(), E>>(
    state: HttpInner<P>,
    identity: Identity,
    rule: R,
    verdict: Result<(), E>,
) -> bool {
    call_ensures(rule, (&state.users.permissioner, identity.user_id), verdict)
}

/// A read of this consistency has to be answered by another node.
pub open spec fn wants_primary<P>(state: HttpInner<P>, consistency: Consistency) -> bool {
    consistency is Linearizable && !state.metadata_primary
}

/// What the check of one read comes to. A denial rejects the read; a permitted
/// linearizable read on a follower is answered with `not_primary_read_error` of
/// the request; any other permitted read passes.
pub open spec fn read_authorized<
    P,
    E,
    R: Fn(&P, u32) -> Result<(), E>,
    N: Fn(&String, ClientIp) -> ReadError<E>,
>(
    state: HttpInner<P>,
    identity: Identity,
    consistency: Consistency,
    rule: R,
    not_primary_read_error: N,
    result: Result<(), ReadError<E>>,
) -> bool {
    exists|verdict: Result<(), E>| #[trigger]
        rule_answers(state, identity, rule, verdict) && answers_verdict(
            state,
            identity,
            consistency,
            verdict,
            not_primary_read_error,
            result,
        )
}

/// What the check of one read makes of the rule's verdict.
pub open spec fn answers_verdict<P, E, N: Fn(&String, ClientIp) -> ReadError<E>>(
    state: HttpInner<P>,
    identity: Identity,
    consistency: Consistency,
    verdict: Result<(), E>,
    not_primary_read_error: N,
    result: Result<(), ReadError<E>>,
) -> bool {
    match verdict {
        Err(denial) => result == Err::<(), _>(ReadError::Rejected(denial)),
        Ok(()) => if wants_primary(state, consistency) {
            result matches Err(answer) && call_ensures(
                not_primary_read_error,
                (&identity.path_and_query, identity.client_ip),
                answer,
            )
        } else {
            result == Ok::<(), ReadError<E>>(())
        },
    }
}

/// What the check of one read calls: the rule, and what answers for the primary
/// only where the rule permits a read that has to go there.
pub open spec fn check_callable<
    P,
    E,
    R: Fn(&P, u32) -> Result<(), E>,
    N: Fn(&String, ClientIp) -> ReadError<E>,
>(
    state: HttpInner<P>,
    identity: Identity,
    consistency: Consistency,
    rule: R,
    not_primary_read_error: N,
) -> bool {
    &&& call_requires(rule, (&state.users.permissioner, identity.user_id))
    &&& rule_answers(state, identity, rule, Ok(())) && wants_primary(state, consistency)
        ==> call_requires(
        not_primary_read_error,
        (&identity.path_and_query, identity.client_ip),
    )
}

/// The authorization and consistency check of a read, without the waits: runs
/// the route's `rule` against the caller's committed permissions. A denial
/// rejects the read, whoever the caller is. A linearizable read must come from
/// the primary; on a follower it is answered with what
/// `not_primary_read_error` makes of the request, a redirect to the primary
/// where it can be named.
pub fn authorize_read<
    P,
    E,
    R: Fn(&P, u32) -> Result<(), E>,
    N: Fn(&String, ClientIp) -> ReadError<E>,
>(
    state: &HttpInner<P>,
    identity: &Identity,
    consistency: Consistency,
    rule: &R,
    not_primary_read_error: &N,
) -> (result: Result<(), ReadError<E>>)
    requires
        check_callable(*state, *identity, consistency, *rule, *not_primary_read_error),
    ensures
        read_authorized(
            *state,
            *identity,
            consistency,
            *rule,
            *not_primary_read_error,
            result,
        ),
{
    let verdict = rule(&state.users.permissioner, identity.user_id);
    assert(rule_answers(*state, *identity, *rule, verdict));
    assert(verdict is Ok ==> verdict == Ok::<(), E>(())) by {
        assert(verdict is Ok ==> verdict->Ok_0 == ());
    }
    match verdict {
        Err(denial) => Err(ReadError::Rejected(denial)),
        Ok(()) => {
            if consistency == Consistency::Linearizable && !state.metadata_primary {
                Err(not_primary_read_error(&identity.path_and_query, identity.client_ip))
            } else {
                Ok(())
            }
        },
    }
}

/// A check passes only where the rule permits, and a linearizable read only on
/// the primary.
pub proof fn passed_check_was_permitted<
    P,
    E,
    R: Fn(&P, u32) -> Result<(), E>,
    N: Fn(&String, ClientIp) -> ReadError<E>,
>(
    state: HttpInner<P>,
    identity: Identity,
    consistency: Consistency,
    rule: R,
    not_primary_read_error: N,
)
    requires
        read_authorized(state, identity, consistency, rule, not_primary_read_error, Ok(())),
    ensures
        rule_answers(state, identity, rule, Ok::<(), E>(())),
        !wants_primary(state, consistency),
{
    let verdict = choose|verdict: Result<(), E>| #[trigger]
        rule_answers(state, identity, rule, verdict) && answers_verdict(
            state,
            identity,
            consistency,
            verdict,
            not_primary_read_error,
            Ok(()),
        );
    assert(verdict->Ok_0 == ());
    assert(verdict == Ok::<(), E>(()));
}

/// A caller whom the rule denies is rejected with the denial, whatever the
/// consistency of the read: it learns nothing of where the primary is.
pub proof fn denied_check_rejects<
    P,
    E,
    R: Fn(&P, u32) -> Result<(), E>,
    N: Fn(&String, ClientIp) -> ReadError<E>,
>(
    state: HttpInner<P>,
    identity: Identity,
    consistency: Consistency,
    rule: R,
    not_primary_read_error: N,
    result: Result<(), ReadError<E>>,
)
    requires
        !rule_answers(state, identity, rule, Ok::<(), E>(())),
        read_authorized(state, identity, consistency, rule, not_primary_read_error, result),
    ensures
        result matches Err(ReadError::Rejected(denial)) && rule_answers(
            state,
            identity,
            rule,
            Err::<(), E>(denial),
        ),
{
    let verdict = choose|verdict: Result<(), E>| #[trigger]
        rule_answers(state, identity, rule, verdict) && answers_verdict(
            state,
            identity,
            consistency,
            verdict,
            not_primary_read_error,
            result,
        );
    if verdict is Ok {
        assert(verdict->Ok_0 == ());
        assert(verdict == Ok::<(), E>(()));
    }
    assert(verdict == Err::<(), E>(verdict->Err_0));
}

/// What the authorization of a data-plane write comes to, given the wire forms
/// of its identifiers: an identifier that does not convert, or a pair that does
/// not resolve, lets the write through, and otherwise the rule's answer on the
/// resolved ids stands.
pub open spec fn data_plane_authorized<
    P,
    E,
    X,
    R: FnOnce(&P, u32, usize, usize) -> Result<(), E>,
>(
    state: HttpInner<P>,
    user_id: u32,
    stream: Result<WireIdentifier, X>,
    topic: Result<WireIdentifier, X>,
    rule: R,
    result: Result<(), E>,
) -> bool {
    match (stream, topic) {
        (Ok(wire_stream), Ok(wire_topic)) => match topic_ids_of(
            state.streams,
            wire_stream,
            wire_topic,
        ) {
            Some((stream_id, topic_id)) => call_ensures(
                rule,
                (&state.users.permissioner, user_id, stream_id, topic_id),
                result,
            ),
            None => result == Ok::<(), E>(()),
        },
        _ => result == Ok::<(), E>(()),
    }
}

/// What the authorization of a data-plane write comes to, given the conversion
/// of its identifiers to the wire form.
pub open spec fn write_authorized<
    P,
    E,
    I,
    X,
    W: Fn(&I) -> Result<WireIdentifier, X>,
    R: FnOnce(&P, u32, usize, usize) -> Result<(), E>,
>(
    state: HttpInner<P>,
    user_id: u32,
    stream_id: &I,
    topic_id: &I,
    identifier_to_wire: W,
    rule: R,
    result: Result<(), E>,
) -> bool {
    exists|stream: Result<WireIdentifier, X>, topic: Result<WireIdentifier, X>|
        {
            &&& #[trigger] call_ensures(identifier_to_wire, (stream_id,), stream)
            &&& #[trigger] call_ensures(identifier_to_wire, (topic_id,), topic)
            &&& data_plane_authorized(state, user_id, stream, topic, rule, result)
        }
}

/// Authorizes a data-plane write (produce or consumer offset) on a topic. A
/// miss returns `Ok`, so that the write proceeds to the dispatch gates, which
/// answer not found; a resolved topic whose rule rejects returns the rule's
/// error.
pub fn authorize_data_plane<
    P,
    E,
    I,
    X,
    W: Fn(&I) -> Result<WireIdentifier, X>,
    R: FnOnce(&P, u32, usize, usize) -> Result<(), E>,
>(
    state: &HttpInner<P>,
    user_id: u32,
    stream_id: &I,
    topic_id: &I,
    identifier_to_wire: W,
    rule: R,
) -> (result: Result<(), E>)
    requires
        call_requires(identifier_to_wire, (stream_id,)),
        call_requires(identifier_to_wire, (topic_id,)),
        forall|stream: WireIdentifier, topic: WireIdentifier|
            {
                &&& #[trigger] call_ensures(identifier_to_wire, (stream_id,), Ok(stream))
                &&& #[trigger] call_ensures(identifier_to_wire, (topic_id,), Ok(topic))
            } ==> (topic_ids_of(state.streams, stream, topic) matches Some(ids) ==> call_requires(
                rule,
                (&state.users.permissioner, user_id, ids.0, ids.1),
            )),
    ensures
        write_authorized(*state, user_id, stream_id, topic_id, identifier_to_wire, rule, result),
{
    let stream = identifier_to_wire(stream_id);
    let topic = identifier_to_wire(topic_id);
    let ghost stream_outcome = stream;
    let ghost topic_outcome = topic;
    assert(call_ensures(identifier_to_wire, (stream_id,), stream_outcome));
    assert(call_ensures(identifier_to_wire, (topic_id,), topic_outcome));
    let (Ok(wire_stream), Ok(wire_topic)) = (stream, topic) else {
        return Ok(());
    };
    let Some((stream_id, topic_id)) = resolve_gate_topic(state, &wire_stream, &wire_topic) else {
        return Ok(());
    };
    rule(&state.users.permissioner, user_id, stream_id, topic_id)
}

/// A data-plane write is refused only by the rule, and only on a topic that is
/// committed: whatever does not convert or resolve passes on.
pub proof fn refused_write_names_a_committed_topic<
    P,
    E,
    X,
    R: FnOnce(&P, u32, usize, usize) -> Result<(), E>,
>(
    state: HttpInner<P>,
    user_id: u32,
    stream: Result<WireIdentifier, X>,
    topic: Result<WireIdentifier, X>,
    rule: R,
    error: E,
)
    requires
        data_plane_authorized(state, user_id, stream, topic, rule, Err(error)),
    ensures
        stream is Ok,
        topic is Ok,
        topic_ids_of(state.streams, stream->Ok_0, topic->Ok_0) matches Some((stream_id, topic_id))
            && {
            &&& topic_of(state.streams, stream_id, topic_id) is Some
            &&& call_ensures(
                rule,
                (&state.users.permissioner, user_id, stream_id, topic_id),
                Err(error),
            )
        },
{
    resolved_topic_is_committed(state.streams, stream->Ok_0, topic->Ok_0);
}

} // verus!
