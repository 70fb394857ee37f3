//! The resolvers that routes ground their scopes through.

use crate::metadata::{
    lookup, resolve_stream_id, resolve_topic_ids, stream_id_of, topic_ids_of, HttpInner,
    StreamsInner, WireIdentifier,
};
use vstd::prelude::*;

verus! {

/// Resolves a wire stream identifier to its committed id for a gate, or `None`
/// on a miss. A miss is passed through, so that the route's own
/// not-found path answers.
pub fn resolve_gate_stream<P>(state: &HttpInner<P>, stream_id: &WireIdentifier) -> (found: Option<
    usize,
>)
    ensures
        found == stream_id_of(state.streams, *stream_id),
{
    resolve_stream_id(&state.streams, stream_id)
}

/// Resolves a wire user identifier to its committed id, or `None` on a miss.
pub fn resolve_gate_user<P>(state: &HttpInner<P>, user_id: &WireIdentifier) -> (found: Option<
    usize,
>)
    ensures
        found == lookup(*user_id, state.users.items@),
{
    state.users.resolve_user_id(user_id)
}

/// Resolves a wire (stream, topic) pair to committed ids, or `None` if either
/// misses.
pub fn resolve_gate_topic<P>(
    state: &HttpInner<P>,
    stream_id: &WireIdentifier,
    topic_id: &WireIdentifier,
) -> (found: Option<(usize, usize)>)
    ensures
        found == topic_ids_of(state.streams, *stream_id, *topic_id),
{
    resolve_topic_ids(&state.streams, stream_id, topic_id)
}

/// What a pair of domain identifiers resolves to, given the conversion to the
/// wire form: a stream that does not convert is a miss, and so is a topic.
pub open spec fn topic_ids_found<I, X, W: Fn(&I) -> Result<WireIdentifier, X>>(
    streams: StreamsInner,
    stream_id: &I,
    topic_id: &I,
    identifier_to_wire: W,
    found: Option<(usize, usize)>,
) -> bool {
    exists|stream: Result<WireIdentifier, X>| #[trigger]
        call_ensures(identifier_to_wire, (stream_id,), stream) && match stream {
            Err(_) => found is None,
            Ok(wire_stream) => exists|topic: Result<WireIdentifier, X>| #[trigger]
                call_ensures(identifier_to_wire, (topic_id,), topic) && match topic {
                    Err(_) => found is None,
                    Ok(wire_topic) => found == topic_ids_of(streams, wire_stream, wire_topic),
                },
        }
}

/// Resolves a pair of domain identifiers to committed ids for a gate, or `None`
/// on any conversion or resolution miss. `identifier_to_wire` converts a domain
/// identifier to its wire form.
pub fn resolve_gate_topic_ids<P, I, X, W: Fn(&I) -> Result<WireIdentifier, X>>(
    state: &HttpInner<P>,
    stream_id: &I,
    topic_id: &I,
    identifier_to_wire: W,
) -> (found: Option<(usize, usize)>)
    requires
        call_requires(identifier_to_wire, (stream_id,)),
        forall|stream: WireIdentifier| #[trigger]
            call_ensures(identifier_to_wire, (stream_id,), Ok(stream)) ==> call_requires(
                identifier_to_wire,
                (topic_id,),
            ),
    ensures
        topic_ids_found(state.streams, stream_id, topic_id, identifier_to_wire, found),
{
    let wire_stream = match identifier_to_wire(stream_id) {
        Ok(wire) => wire,
        Err(_) => return None,
    };
    let wire_topic = match identifier_to_wire(topic_id) {
        Ok(wire) => wire,
        Err(_) => return None,
    };
    resolve_gate_topic(state, &wire_stream, &wire_topic)
}

} // verus!
