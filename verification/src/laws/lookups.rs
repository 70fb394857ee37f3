//! What the resolution of identifiers owes a request.

use crate::metadata::{
    designates, designates_first, lookup, lookup_finds_the_first_named_slot,
    numeric_identifier_is_its_slot, slot_of, stream_id_of, topic_id_of, topic_ids_of, topic_of,
    Named, Stream, StreamsInner, Topic, User, WireIdentifier,
};
use crate::resolve::topic_ids_found;
use vstd::prelude::*;

verus! {

/// What a slot holds is what stands there, and nothing beyond the last slot.
pub proof fn slot_holds_what_stands_there<T>(slots: Seq<Option<T>>, id: usize)
    ensures
        id < slots.len() ==> slot_of(slots, id as int) == slots[id as int],
        id >= slots.len() ==> slot_of(slots, id as int) is None,
{
}

/// A number finds a stream exactly where that slot is occupied, and it is that
/// slot that it finds.
pub proof fn number_finds_the_stream_in_its_slot(streams: StreamsInner, number: u32)
    ensures
        number < streams.items@.len() && streams.items@[number as int] is Some ==> stream_id_of(
            streams,
            WireIdentifier::Numeric(number),
        ) == Some(number as usize),
        number >= streams.items@.len() || streams.items@[number as int] is None ==> stream_id_of(
            streams,
            WireIdentifier::Numeric(number),
        ) is None,
{
    let items = streams.items;
    assert(items@.len() == items.len());
    numeric_identifier_is_its_slot(number, items@);
}

/// A name finds the first stream that bears it, and misses exactly when no
/// stream does.
pub proof fn name_finds_the_first_stream_that_bears_it(
    streams: StreamsInner,
    name: String,
    id: usize,
)
    ensures
        stream_id_of(streams, WireIdentifier::String(name)) == Some(id) <==> {
            &&& id < streams.items@.len()
            &&& streams.items@[id as int] matches Some(stream) && stream.name@ == name@
            &&& forall|lower: int|
                0 <= lower < id ==> (#[trigger] streams.items@[lower] matches Some(other)
                    ==> other.name@ != name@)
        },
        stream_id_of(streams, WireIdentifier::String(name)) is None <==> forall|any: int|
            0 <= any < streams.items@.len() ==> (#[trigger] streams.items@[any] matches Some(stream)
                ==> stream.name@ != name@),
{
    let identifier = WireIdentifier::String(name);
    let items = streams.items;
    assert(items@.len() == items.len());
    lookup_finds_the_first_named_slot(identifier, items@);
    assert forall|i: int|
        0 <= i < items@.len() implies (#[trigger] items@[i] matches Some(stream) && stream.name@
        == name@) == designates(identifier, items@, i) by {}
    assert(designates_first(identifier, items@, id as int) <==> {
        &&& designates(identifier, items@, id as int)
        &&& forall|lower: int| 0 <= lower < id ==> !designates(identifier, items@, lower)
    });
    if stream_id_of(streams, identifier) == Some(id) {
        assert forall|lower: int| 0 <= lower < id implies (#[trigger] items@[lower] matches Some(
            other,
        ) ==> other.name@ != name@) by {
            assert(!designates(identifier, items@, lower));
        }
    }
    if stream_id_of(streams, identifier) is None {
        assert forall|any: int| 0 <= any < items@.len() implies (#[trigger] items@[any] matches Some(
            stream,
        ) ==> stream.name@ != name@) by {
            assert(!designates(identifier, items@, any));
        }
    }
}

/// A number finds a topic exactly where its stream is there and holds one in
/// that slot.
pub proof fn number_finds_the_topic_in_its_slot(
    streams: StreamsInner,
    stream_id: usize,
    number: u32,
)
    ensures
        stream_id >= streams.items@.len() || streams.items@[stream_id as int] is None
            ==> topic_id_of(streams, stream_id, WireIdentifier::Numeric(number)) is None,
        stream_id < streams.items@.len() ==> (streams.items@[stream_id as int] matches Some(stream)
            ==> topic_id_of(streams, stream_id, WireIdentifier::Numeric(number)) == (if number
            < stream.topics@.len() && stream.topics@[number as int] is Some {
            Some(number as usize)
        } else {
            None
        })),
{
    if stream_id < streams.items@.len() && streams.items@[stream_id as int] is Some {
        let topics = streams.items@[stream_id as int]->0.topics;
        assert(topics@.len() == topics.len());
        numeric_identifier_is_its_slot(number, topics@);
    }
}

/// A name finds the first topic of its stream that bears it, misses exactly when
/// no topic of the stream does, and finds nothing in a stream that is not there.
pub proof fn name_finds_the_first_topic_that_bears_it(
    streams: StreamsInner,
    stream_id: usize,
    name: String,
    id: usize,
)
    ensures
        stream_id >= streams.items@.len() || streams.items@[stream_id as int] is None
            ==> topic_id_of(streams, stream_id, WireIdentifier::String(name)) is None,
        stream_id < streams.items@.len() ==> (streams.items@[stream_id as int] matches Some(stream)
            ==> {
            &&& topic_id_of(streams, stream_id, WireIdentifier::String(name)) == Some(id) <==> {
                &&& id < stream.topics@.len()
                &&& stream.topics@[id as int] matches Some(topic) && topic.name@ == name@
                &&& forall|lower: int|
                    0 <= lower < id ==> (#[trigger] stream.topics@[lower] matches Some(other)
                        ==> other.name@ != name@)
            }
            &&& topic_id_of(streams, stream_id, WireIdentifier::String(name)) is None <==> forall|
                any: int,
            |
                0 <= any < stream.topics@.len() ==> (#[trigger] stream.topics@[any] matches Some(
                    topic,
                ) ==> topic.name@ != name@)
        }),
{
    if stream_id < streams.items@.len() && streams.items@[stream_id as int] is Some {
        let identifier = WireIdentifier::String(name);
        let stream = streams.items@[stream_id as int]->0;
        let topics = stream.topics;
        assert(topics@.len() == topics.len());
        lookup_finds_the_first_named_slot(identifier, topics@);
        assert forall|i: int|
            0 <= i < topics@.len() implies (#[trigger] topics@[i] matches Some(topic) && topic.name@
            == name@) == designates(identifier, topics@, i) by {}
        assert(designates_first(identifier, topics@, id as int) <==> {
            &&& designates(identifier, topics@, id as int)
            &&& forall|lower: int| 0 <= lower < id ==> !designates(identifier, topics@, lower)
        });
        if topic_id_of(streams, stream_id, identifier) == Some(id) {
            assert forall|lower: int| 0 <= lower < id implies (#[trigger] topics@[lower] matches Some(
                other,
            ) ==> other.name@ != name@) by {
                assert(!designates(identifier, topics@, lower));
            }
        }
        if topic_id_of(streams, stream_id, identifier) is None {
            assert forall|any: int| 0 <= any < topics@.len() implies (#[trigger] topics@[any] matches Some(
                topic,
            ) ==> topic.name@ != name@) by {
                assert(!designates(identifier, topics@, any));
            }
        }
    }
}

/// A number finds a user exactly where that slot is occupied.
pub proof fn number_finds_the_user_in_its_slot(users: Seq<Option<User>>, number: u32)
    requires
        users.len() <= usize::MAX,
    ensures
        lookup(WireIdentifier::Numeric(number), users) == (if number < users.len()
            && users[number as int] is Some {
            Some(number as usize)
        } else {
            None
        }),
{
    numeric_identifier_is_its_slot(number, users);
}

/// A name finds the first user who bears it, and misses exactly when no user
/// does.
pub proof fn name_finds_the_first_user_who_bears_it(
    users: Seq<Option<User>>,
    name: String,
    id: usize,
)
    requires
        users.len() <= usize::MAX,
    ensures
        lookup(WireIdentifier::String(name), users) == Some(id) <==> {
            &&& id < users.len()
            &&& users[id as int] matches Some(user) && user.username@ == name@
            &&& forall|lower: int|
                0 <= lower < id ==> (#[trigger] users[lower] matches Some(other)
                    ==> other.username@ != name@)
        },
        lookup(WireIdentifier::String(name), users) is None <==> forall|any: int|
            0 <= any < users.len() ==> (#[trigger] users[any] matches Some(user) ==> user.username@
                != name@),
{
    let identifier = WireIdentifier::String(name);
    lookup_finds_the_first_named_slot(identifier, users);
    assert forall|i: int|
        0 <= i < users.len() implies (#[trigger] users[i] matches Some(user) && user.username@
        == name@) == designates(identifier, users, i) by {}
    assert(designates_first(identifier, users, id as int) <==> {
        &&& designates(identifier, users, id as int)
        &&& forall|lower: int| 0 <= lower < id ==> !designates(identifier, users, lower)
    });
    if lookup(identifier, users) == Some(id) {
        assert forall|lower: int| 0 <= lower < id implies (#[trigger] users[lower] matches Some(
            other,
        ) ==> other.username@ != name@) by {
            assert(!designates(identifier, users, lower));
        }
    }
    if lookup(identifier, users) is None {
        assert forall|any: int| 0 <= any < users.len() implies (#[trigger] users[any] matches Some(
            user,
        ) ==> user.username@ != name@) by {
            assert(!designates(identifier, users, any));
        }
    }
}

/// A pair finds a topic exactly when its stream is found, and its topic is
/// found in that stream.
pub proof fn pair_finds_its_topic_in_its_stream(
    streams: StreamsInner,
    stream: WireIdentifier,
    topic: WireIdentifier,
    stream_id: usize,
    topic_id: usize,
)
    ensures
        topic_ids_of(streams, stream, topic) == Some((stream_id, topic_id)) <==> stream_id_of(
            streams,
            stream,
        ) == Some(stream_id) && topic_id_of(streams, stream_id, topic) == Some(topic_id),
{
}

/// Every committed topic is found by the numbers of its slots.
pub proof fn committed_topic_is_found_by_its_numbers(
    streams: StreamsInner,
    stream: u32,
    topic: u32,
)
    ensures
        topic_ids_of(
            streams,
            WireIdentifier::Numeric(stream),
            WireIdentifier::Numeric(topic),
        ) == (if stream < streams.items@.len() && (streams.items@[stream as int] matches Some(held)
            && topic < held.topics@.len() && held.topics@[topic as int] is Some) {
            Some((stream as usize, topic as usize))
        } else {
            None
        }),
{
    number_finds_the_stream_in_its_slot(streams, stream);
    number_finds_the_topic_in_its_slot(streams, stream as usize, topic);
}

/// The topic of a pair of ids is what stands in that slot of that stream.
pub proof fn topic_is_what_stands_in_its_slot(
    streams: StreamsInner,
    stream_id: usize,
    topic_id: usize,
    topic: Topic,
)
    ensures
        topic_of(streams, stream_id, topic_id) == Some(topic) <==> {
            &&& stream_id < streams.items@.len()
            &&& streams.items@[stream_id as int] matches Some(stream) && topic_id
                < stream.topics@.len() && stream.topics@[topic_id as int] == Some(topic)
        },
{
}

/// Two domain identifiers that convert find exactly what their wire forms find.
pub proof fn converted_pair_finds_what_its_wire_forms_find<
    I,
    X,
    W: Fn(&I) -> Result<WireIdentifier, X>,
>(
    streams: StreamsInner,
    stream_id: &I,
    topic_id: &I,
    identifier_to_wire: W,
    stream: WireIdentifier,
    topic: WireIdentifier,
    found: Option<(usize, usize)>,
)
    requires
        forall|outcome: Result<WireIdentifier, X>|
            call_ensures(identifier_to_wire, (stream_id,), outcome) ==> outcome == Ok::<_, X>(
                stream,
            ),
        forall|outcome: Result<WireIdentifier, X>|
            call_ensures(identifier_to_wire, (topic_id,), outcome) ==> outcome == Ok::<_, X>(topic),
        topic_ids_found(streams, stream_id, topic_id, identifier_to_wire, found),
    ensures
        found == topic_ids_of(streams, stream, topic),
{
}

/// A pair of which either identifier does not convert finds nothing.
pub proof fn pair_that_does_not_convert_finds_nothing<
    I,
    X,
    W: Fn(&I) -> Result<WireIdentifier, X>,
>(
    streams: StreamsInner,
    stream_id: &I,
    topic_id: &I,
    identifier_to_wire: W,
    found: Option<(usize, usize)>,
)
    requires
        (forall|outcome: Result<WireIdentifier, X>|
            call_ensures(identifier_to_wire, (stream_id,), outcome) ==> outcome is Err) || (forall|
            outcome: Result<WireIdentifier, X>,
        |
            call_ensures(identifier_to_wire, (topic_id,), outcome) ==> outcome is Err),
        topic_ids_found(streams, stream_id, topic_id, identifier_to_wire, found),
    ensures
        found is None,
{
}

/// Whatever is found is what some wire forms of the two identifiers find.
pub proof fn found_pair_comes_from_its_identifiers<I, X, W: Fn(&I) -> Result<WireIdentifier, X>>(
    streams: StreamsInner,
    stream_id: &I,
    topic_id: &I,
    identifier_to_wire: W,
    found: (usize, usize),
)
    requires
        topic_ids_found(streams, stream_id, topic_id, identifier_to_wire, Some(found)),
    ensures
        exists|stream: Result<WireIdentifier, X>, topic: Result<WireIdentifier, X>|
            {
                &&& #[trigger] call_ensures(identifier_to_wire, (stream_id,), stream)
                &&& #[trigger] call_ensures(identifier_to_wire, (topic_id,), topic)
                &&& stream is Ok
                &&& topic is Ok
                &&& topic_ids_of(streams, stream->Ok_0, topic->Ok_0) == Some(found)
            },
{
}

/// A stream, a topic and a user each go by the name they hold.
pub proof fn entities_go_by_the_names_they_hold(stream: Stream, topic: Topic, user: User)
    ensures
        stream.spec_name() == stream.name@,
        topic.spec_name() == topic.name@,
        user.spec_name() == user.username@,
{
}

/// Two identifiers are the same exactly when they are the same number or the
/// same text.
pub proof fn identifiers_are_the_same_by_number_or_text(one: WireIdentifier, other: WireIdentifier)
    ensures
        one matches WireIdentifier::Numeric(number) ==> (one.same_as(other) <==> other
            == WireIdentifier::Numeric(number)),
        one matches WireIdentifier::String(name) ==> (one.same_as(other) <==> (
        other matches WireIdentifier::String(text) && text@ == name@)),
{
}

} // verus!
