//! What the capture of a durability policy, and its confirmation, owe a produce
//! request.

use crate::durability::{
    absent_key_has_no_value, capture_found, captured, incarnation_of, option_value, policy_read,
    Durability, TopicDurability,
};
use crate::laws::lookups::{
    committed_topic_is_found_by_its_numbers, name_finds_the_first_stream_that_bears_it,
    name_finds_the_first_topic_that_bears_it,
};
use crate::metadata::{
    resolved_topic_is_committed, topic_ids_of, Stream, StreamsInner, Topic, TopicOption,
    WireIdentifier,
};
use vstd::prelude::*;
use vstd::utf8::{encode_utf8, valid_utf8};

verus! {

/// An incarnation is told by the revision of the first partition of what stands
/// in the slot; a topic without partitions has none.
pub proof fn incarnation_is_that_of_the_first_partition(
    streams: StreamsInner,
    stream_id: usize,
    topic_id: usize,
    stream: Stream,
    topic: Topic,
)
    requires
        stream_id < streams.items@.len(),
        streams.items@[stream_id as int] == Some(stream),
        topic_id < stream.topics@.len(),
        stream.topics@[topic_id as int] == Some(topic),
    ensures
        topic.partitions@.len() == 0 ==> incarnation_of(streams, stream_id, topic_id) is None,
        topic.partitions@.len() > 0 ==> incarnation_of(streams, stream_id, topic_id) == Some(
            topic.partitions@[0].created_revision,
        ),
{
}

/// Where no topic stands there is no incarnation.
pub proof fn empty_slot_has_no_incarnation(
    streams: StreamsInner,
    stream_id: usize,
    topic_id: usize,
)
    requires
        stream_id < streams.items@.len() ==> (streams.items@[stream_id as int] matches Some(stream)
            ==> topic_id >= stream.topics@.len() || stream.topics@[topic_id as int] is None),
    ensures
        incarnation_of(streams, stream_id, topic_id) is None,
{
}

/// The value of a key is that of the first option that bears the key.
pub proof fn value_is_that_of_the_first_option_with_the_key(
    options: Seq<TopicOption>,
    key: Seq<char>,
    first: int,
)
    requires
        0 <= first < options.len(),
        options[first].key@ == key,
        forall|lower: int| 0 <= lower < first ==> (#[trigger] options[lower]).key@ != key,
    ensures
        option_value(options, key) == Some(options[first].value@),
    decreases options.len(),
{
    if first > 0 {
        assert(options[0].key@ != key);
        let rest = options.drop_first();
        assert forall|lower: int| 0 <= lower < first - 1 implies (#[trigger] rest[lower]).key@
            != key by {
            assert(rest[lower] == options[lower + 1]);
        }
        value_is_that_of_the_first_option_with_the_key(rest, key, first - 1);
    }
}

/// A topic without the option has the default policy.
pub proof fn topic_without_the_option_has_the_default<X, D: Fn(&str) -> Result<Durability, X>>(
    topic: Topic,
    parse_durability: D,
    default: Durability,
    policy: Durability,
)
    requires
        forall|i: int|
            0 <= i < topic.options@.len() ==> (#[trigger] topic.options@[i]).key@ != "durability"@,
        policy_read(topic, parse_durability, default, policy),
    ensures
        policy == default,
{
    absent_key_has_no_value(topic.options@, "durability"@);
}

/// A topic has the policy that the parser knows the text of its option by, and
/// the default where the value is not text or the parser does not know it.
pub proof fn topic_has_the_policy_its_option_spells<X, D: Fn(&str) -> Result<Durability, X>>(
    topic: Topic,
    parse_durability: D,
    default: Durability,
    policy: Durability,
    first: int,
    known: spec_fn(Seq<u8>) -> Option<Durability>,
)
    requires
        0 <= first < topic.options@.len(),
        topic.options@[first].key@ == "durability"@,
        forall|lower: int|
            0 <= lower < first ==> (#[trigger] topic.options@[lower]).key@ != "durability"@,
        forall|text: &str, answer: Result<Durability, X>| #[trigger]
            call_ensures(parse_durability, (text,), answer) ==> known(encode_utf8(text@)) == (
            match answer {
                Ok(durability) => Some(durability),
                Err(_) => None,
            }),
        policy_read(topic, parse_durability, default, policy),
    ensures
        !valid_utf8(topic.options@[first].value@) ==> policy == default,
        valid_utf8(topic.options@[first].value@) && known(topic.options@[first].value@) is None
            ==> policy == default,
        valid_utf8(topic.options@[first].value@) ==> (known(topic.options@[first].value@)
            matches Some(durability) ==> policy == durability),
{
    value_is_that_of_the_first_option_with_the_key(topic.options@, "durability"@, first);
}

/// Whichever way a request names it, a topic that it leads to is captured
/// exactly if it has a partition, and then as it stands in its slot.
pub proof fn found_topic_is_captured_as_it_stands<X, D: Fn(&str) -> Result<Durability, X>>(
    streams: StreamsInner,
    stream: WireIdentifier,
    topic: WireIdentifier,
    parse_durability: D,
    default: Durability,
    found: Option<TopicDurability>,
    stream_id: usize,
    topic_id: usize,
    holder: Stream,
    held: Topic,
)
    requires
        topic_ids_of(streams, stream, topic) == Some((stream_id, topic_id)),
        stream_id < streams.items@.len(),
        streams.items@[stream_id as int] == Some(holder),
        topic_id < holder.topics@.len(),
        holder.topics@[topic_id as int] == Some(held),
        captured(streams, stream, topic, parse_durability, default, found),
    ensures
        found is Some <==> held.partitions@.len() > 0,
        found matches Some(capture) ==> {
            &&& capture.requested_stream == stream
            &&& capture.requested_topic == topic
            &&& capture.stream_id == stream_id
            &&& capture.topic_id == topic_id
            &&& capture.created_revision == held.partitions@[0].created_revision
            &&& policy_read(held, parse_durability, default, capture.durability)
        },
{
}

/// Something is captured exactly for a request that leads to a committed topic
/// with a partition.
pub proof fn capture_is_owed_to_every_topic_with_a_partition<
    X,
    D: Fn(&str) -> Result<Durability, X>,
>(
    streams: StreamsInner,
    stream: WireIdentifier,
    topic: WireIdentifier,
    parse_durability: D,
    default: Durability,
    found: Option<TopicDurability>,
)
    requires
        captured(streams, stream, topic, parse_durability, default, found),
    ensures
        found is Some <==> (topic_ids_of(streams, stream, topic) matches Some(ids)
            && streams.items@[ids.0 as int]->0.topics@[ids.1 as int]->0.partitions@.len() > 0),
{
    resolved_topic_is_committed(streams, stream, topic);
}

/// A request by number captures the topic in that slot, if it has a partition.
pub proof fn topic_is_captured_by_its_numbers<X, D: Fn(&str) -> Result<Durability, X>>(
    streams: StreamsInner,
    stream: u32,
    topic: u32,
    parse_durability: D,
    default: Durability,
    found: Option<TopicDurability>,
)
    requires
        captured(
            streams,
            WireIdentifier::Numeric(stream),
            WireIdentifier::Numeric(topic),
            parse_durability,
            default,
            found,
        ),
    ensures
        found is Some <==> stream < streams.items@.len() && (streams.items@[stream as int]
            matches Some(holder) && topic < holder.topics@.len() && (holder.topics@[topic as int]
            matches Some(held) && held.partitions@.len() > 0)),
        found matches Some(capture) ==> {
            let held = streams.items@[stream as int]->0.topics@[topic as int]->0;
            &&& capture.stream_id == stream
            &&& capture.topic_id == topic
            &&& capture.created_revision == held.partitions@[0].created_revision
            &&& policy_read(held, parse_durability, default, capture.durability)
        },
{
    committed_topic_is_found_by_its_numbers(streams, stream, topic);
}

/// A request by name captures the first topic that bears the name, in the first
/// stream that bears the other, if that topic has a partition.
pub proof fn topic_is_captured_by_its_names<X, D: Fn(&str) -> Result<Durability, X>>(
    streams: StreamsInner,
    stream: String,
    topic: String,
    parse_durability: D,
    default: Durability,
    found: Option<TopicDurability>,
    stream_id: usize,
    topic_id: usize,
    holder: Stream,
    held: Topic,
)
    requires
        stream_id < streams.items@.len(),
        streams.items@[stream_id as int] == Some(holder),
        holder.name@ == stream@,
        forall|lower: int|
            0 <= lower < stream_id ==> (#[trigger] streams.items@[lower] matches Some(other)
                ==> other.name@ != stream@),
        topic_id < holder.topics@.len(),
        holder.topics@[topic_id as int] == Some(held),
        held.name@ == topic@,
        forall|lower: int|
            0 <= lower < topic_id ==> (#[trigger] holder.topics@[lower] matches Some(other)
                ==> other.name@ != topic@),
        captured(
            streams,
            WireIdentifier::String(stream),
            WireIdentifier::String(topic),
            parse_durability,
            default,
            found,
        ),
    ensures
        found is Some <==> held.partitions@.len() > 0,
        found matches Some(capture) ==> {
            &&& capture.stream_id == stream_id
            &&& capture.topic_id == topic_id
            &&& capture.created_revision == held.partitions@[0].created_revision
            &&& policy_read(held, parse_durability, default, capture.durability)
        },
{
    name_finds_the_first_stream_that_bears_it(streams, stream, stream_id);
    name_finds_the_first_topic_that_bears_it(streams, stream_id, topic, topic_id);
}

/// Requests that lead to one topic capture the same of it, by whatever
/// identifiers they name it: the same ids, the same incarnation, and the same
/// policy, where the parser goes by the text alone.
pub proof fn requests_for_one_topic_capture_the_same<X, D: Fn(&str) -> Result<Durability, X>>(
    streams: StreamsInner,
    stream: WireIdentifier,
    topic: WireIdentifier,
    other_stream: WireIdentifier,
    other_topic: WireIdentifier,
    parse_durability: D,
    default: Durability,
    found: Option<TopicDurability>,
    other_found: Option<TopicDurability>,
)
    requires
        topic_ids_of(streams, stream, topic) == topic_ids_of(streams, other_stream, other_topic),
        forall|
            text: &str,
            twin: &str,
            answer: Result<Durability, X>,
            twin_answer: Result<Durability, X>,
        |
            {
                &&& encode_utf8(text@) == encode_utf8(twin@)
                &&& #[trigger] call_ensures(parse_durability, (text,), answer)
                &&& #[trigger] call_ensures(parse_durability, (twin,), twin_answer)
            } ==> answer == twin_answer,
        captured(streams, stream, topic, parse_durability, default, found),
        captured(streams, other_stream, other_topic, parse_durability, default, other_found),
    ensures
        found is Some <==> other_found is Some,
        found matches Some(capture) ==> {
            &&& capture.stream_id == other_found->0.stream_id
            &&& capture.topic_id == other_found->0.topic_id
            &&& capture.created_revision == other_found->0.created_revision
            &&& capture.durability == other_found->0.durability
        },
{
}

/// What two domain identifiers capture is what their wire forms capture.
pub proof fn converted_pair_captures_what_its_wire_forms_capture<
    I,
    X,
    Y,
    W: Fn(&I) -> Result<WireIdentifier, X>,
    D: Fn(&str) -> Result<Durability, Y>,
>(
    streams: StreamsInner,
    stream: &I,
    topic: &I,
    identifier_to_wire: W,
    parse_durability: D,
    default: Durability,
    found: Option<TopicDurability>,
    wire_stream: WireIdentifier,
    wire_topic: WireIdentifier,
)
    requires
        forall|outcome: Result<WireIdentifier, X>|
            call_ensures(identifier_to_wire, (stream,), outcome) ==> outcome == Ok::<_, X>(
                wire_stream,
            ),
        forall|outcome: Result<WireIdentifier, X>|
            call_ensures(identifier_to_wire, (topic,), outcome) ==> outcome == Ok::<_, X>(
                wire_topic,
            ),
        capture_found(
            streams,
            stream,
            topic,
            identifier_to_wire,
            parse_durability,
            default,
            found,
        ),
    ensures
        captured(streams, wire_stream, wire_topic, parse_durability, default, found),
        found is Some <==> (topic_ids_of(streams, wire_stream, wire_topic) matches Some(ids)
            && streams.items@[ids.0 as int]->0.topics@[ids.1 as int]->0.partitions@.len() > 0),
{
    capture_is_owed_to_every_topic_with_a_partition(
        streams,
        wire_stream,
        wire_topic,
        parse_durability,
        default,
        found,
    );
}

/// A pair of which either identifier does not convert captures nothing.
pub proof fn pair_that_does_not_convert_captures_nothing<
    I,
    X,
    Y,
    W: Fn(&I) -> Result<WireIdentifier, X>,
    D: Fn(&str) -> Result<Durability, Y>,
>(
    streams: StreamsInner,
    stream: &I,
    topic: &I,
    identifier_to_wire: W,
    parse_durability: D,
    default: Durability,
    found: Option<TopicDurability>,
)
    requires
        (forall|outcome: Result<WireIdentifier, X>|
            call_ensures(identifier_to_wire, (stream,), outcome) ==> outcome is Err) || (forall|
            outcome: Result<WireIdentifier, X>,
        |
            call_ensures(identifier_to_wire, (topic,), outcome) ==> outcome is Err),
        capture_found(
            streams,
            stream,
            topic,
            identifier_to_wire,
            parse_durability,
            default,
            found,
        ),
    ensures
        found is None,
{
}

/// The captured policy is attested while the captured slot holds a topic whose
/// first partition has the captured revision, unless the request leads to
/// another topic by now; otherwise replication is.
pub proof fn policy_is_attested_while_its_topic_stands(
    capture: TopicDurability,
    streams: StreamsInner,
    holder: Stream,
    held: Topic,
)
    requires
        capture.stream_id < streams.items@.len(),
        streams.items@[capture.stream_id as int] == Some(holder),
        capture.topic_id < holder.topics@.len(),
        holder.topics@[capture.topic_id as int] == Some(held),
    ensures
        ({
            &&& held.partitions@.len() > 0
            &&& held.partitions@[0].created_revision == capture.created_revision
            &&& (topic_ids_of(streams, capture.requested_stream, capture.requested_topic)
                matches Some(ids) ==> ids.0 == capture.stream_id && ids.1 == capture.topic_id)
        }) ==> capture.confirmed(streams) == capture.durability,
        held.partitions@.len() == 0 ==> capture.confirmed(streams) == Durability::Replicated,
        held.partitions@.len() > 0 && held.partitions@[0].created_revision
            != capture.created_revision ==> capture.confirmed(streams) == Durability::Replicated,
{
}

/// A request that leads to another topic by now, in either id, attests no more
/// than replication.
pub proof fn request_that_leads_elsewhere_attests_replication(
    capture: TopicDurability,
    streams: StreamsInner,
    stream_id: usize,
    topic_id: usize,
)
    requires
        topic_ids_of(streams, capture.requested_stream, capture.requested_topic) == Some(
            (stream_id, topic_id),
        ),
        stream_id != capture.stream_id || topic_id != capture.topic_id,
    ensures
        capture.confirmed(streams) == Durability::Replicated,
{
}

/// A topic that is gone from its slot attests no more than replication.
pub proof fn topic_that_is_gone_attests_replication(
    capture: TopicDurability,
    streams: StreamsInner,
)
    requires
        capture.stream_id < streams.items@.len() ==> (streams.items@[capture.stream_id as int]
            matches Some(holder) ==> capture.topic_id >= holder.topics@.len()
            || holder.topics@[capture.topic_id as int] is None),
    ensures
        capture.confirmed(streams) == Durability::Replicated,
{
    empty_slot_has_no_incarnation(streams, capture.stream_id, capture.topic_id);
}

} // verus!
