//! The durability a produce request may attest for the topic it went to.
//!
//! The policy is captured before the request waits for dispatch. Once the
//! produce completes, it is confirmed against the metadata as they are then:
//! the captured policy stands only if the topic is still the same incarnation,
//! and the identifiers of the request do not lead to a different topic by now.

use crate::metadata::{
    names_are_unique, numeric_identifier_is_its_slot, resolve_topic_ids, same_pair_resolves_alike,
    slot_of, stream_id_of, topic_ids_of, topic_of, unique_name_is_its_slot, HttpInner, StreamsInner,
    Topic, TopicOption, WireIdentifier,
};
use vstd::prelude::*;
use vstd::utf8::{encode_utf8, valid_utf8};

verus! {

/// What a produce is acknowledged on.
#[derive(Debug, Clone, Copy, PartialEq, Eq, Structural)]
pub enum Durability {
    /// On replication.
    Replicated,
    /// On persistence.
    Persisted,
}

/// The key of the topic option that holds the durability policy.
pub const DURABILITY_KEY: &'static str = "durability";

/// The durability policy of a topic, as captured for one request.
#[derive(Debug, PartialEq, Eq)]
pub struct TopicDurability {
    /// How the request named the stream.
    pub requested_stream: WireIdentifier,
    /// How the request named the topic.
    pub requested_topic: WireIdentifier,
    /// The committed id the stream resolved to.
    pub stream_id: usize,
    /// The committed id the topic resolved to.
    pub topic_id: usize,
    /// The revision that created the topic's first partition.
    pub created_revision: u64,
    /// The topic's policy.
    pub durability: Durability,
}

/// The revision that created a topic's first partition, which tells one
/// incarnation of a topic from the next.
pub open spec fn incarnation_of(streams: StreamsInner, stream_id: usize, topic_id: usize) -> Option<
    u64,
> {
    match topic_of(streams, stream_id, topic_id) {
        Some(topic) => if topic.partitions@.len() > 0 {
            Some(topic.partitions@[0].created_revision)
        } else {
            None
        },
        None => None,
    }
}

/// The value of the first option with this key.
pub open spec fn option_value(options: Seq<TopicOption>, key: Seq<char>) -> Option<Seq<u8>>
    decreases options.len(),
{
    if options.len() == 0 {
        None
    } else if options[0].key@ == key {
        Some(options[0].value@)
    } else {
        option_value(options.drop_first(), key)
    }
}

/// No key occurs twice among the options.
pub open spec fn keys_are_unique(options: Seq<TopicOption>) -> bool {
    forall|i: int, j: int|
        0 <= i < options.len() && 0 <= j < options.len() && (#[trigger] options[i]).key@ == (
        #[trigger] options[j]).key@ ==> i == j
}

/// Where keys are unique, a key has a value exactly when some option bears that
/// key with that value, wherever the option stands.
pub proof fn unique_key_has_its_value(options: Seq<TopicOption>, key: Seq<char>, value: Seq<u8>)
    requires
        keys_are_unique(options),
    ensures
        option_value(options, key) == Some(value) <==> exists|i: int|
            0 <= i < options.len() && (#[trigger] options[i]).key@ == key && options[i].value@
                == value,
    decreases options.len(),
{
    if options.len() > 0 {
        let rest = options.drop_first();
        assert forall|i: int, j: int|
            0 <= i < rest.len() && 0 <= j < rest.len() && (#[trigger] rest[i]).key@ == (
            #[trigger] rest[j]).key@ implies i == j by {
            assert(options[i + 1].key@ == options[j + 1].key@);
        }
        unique_key_has_its_value(rest, key, value);
        if options[0].key@ != key {
            if option_value(rest, key) == Some(value) {
                let i = choose|i: int|
                    0 <= i < rest.len() && (#[trigger] rest[i]).key@ == key && rest[i].value@
                        == value;
                assert(options[i + 1].key@ == key);
            }
            if exists|i: int|
                0 <= i < options.len() && (#[trigger] options[i]).key@ == key && options[i].value@
                    == value {
                let i = choose|i: int|
                    0 <= i < options.len() && (#[trigger] options[i]).key@ == key
                        && options[i].value@ == value;
                assert(rest[i - 1].key@ == key);
            }
        } else {
            assert(options[0].key@ == key);
        }
    }
}

/// A key has no value exactly when no option bears it.
pub proof fn absent_key_has_no_value(options: Seq<TopicOption>, key: Seq<char>)
    ensures
        option_value(options, key) is None <==> forall|i: int|
            0 <= i < options.len() ==> (#[trigger] options[i]).key@ != key,
    decreases options.len(),
{
    if options.len() > 0 {
        let rest = options.drop_first();
        absent_key_has_no_value(rest, key);
        assert forall|i: int| 0 <= i < rest.len() implies #[trigger] rest[i] == options[i + 1] by {}
        if option_value(options, key) is None {
            assert forall|i: int| 0 <= i < options.len() implies (#[trigger] options[i]).key@
                != key by {
                if i > 0 {
                    assert(rest[i - 1] == options[i]);
                }
            }
        } else if options[0].key@ != key {
            let i = choose|i: int| 0 <= i < rest.len() && (#[trigger] rest[i]).key@ == key;
            assert(options[i + 1].key@ == key);
        }
    }
}

/// The policy that a topic's options give, given the parser of the option
/// catalog. A missing value, one that is not text, and one that the parser
/// does not know give the default policy.
pub open spec fn policy_read<X, D: Fn(&str) -> Result<Durability, X>>(
    topic: Topic,
    parse_durability: D,
    default: Durability,
    policy: Durability,
) -> bool {
    match option_value(topic.options@, DURABILITY_KEY@) {
        None => policy == default,
        Some(value) => if valid_utf8(value) {
            exists|text: &str, parsed: Result<Durability, X>|
                {
                    &&& encode_utf8(text@) == value
                    &&& #[trigger] call_ensures(parse_durability, (text,), parsed)
                    &&& policy == match parsed {
                        Ok(known) => known,
                        Err(_) => default,
                    }
                }
        } else {
            policy == default
        },
    }
}

/// The text that these bytes encode, by `std::str::from_utf8`: there is one
/// exactly when the bytes are valid UTF-8, and its encoding is those bytes.
#[verifier::external_body]
fn text_of(bytes: &[u8]) -> (text: Option<&str>)
    ensures
        text is Some <==> valid_utf8(bytes@),
        text matches Some(decoded) ==> encode_utf8(decoded@) == bytes@,
{
    std::str::from_utf8(bytes).ok()
}

fn first_option<'a>(options: &'a Vec<TopicOption>, key: &String) -> (value: Option<&'a Vec<u8>>)
    ensures
        match value {
            Some(bytes) => option_value(options@, key@) == Some(bytes@),
            None => option_value(options@, key@) is None,
        },
{
    let mut i: usize = 0;
    assert(options@.skip(0) =~= options@);
    while i < options.len()
        invariant
            i <= options.len(),
            option_value(options@, key@) == option_value(options@.skip(i as int), key@),
        decreases options.len() - i,
    {
        if options[i].key == *key {
            return Some(&options[i].value);
        }
        assert(options@.skip(i as int).drop_first() =~= options@.skip(i + 1));
        i += 1;
    }
    None
}

/// The topic that a request names has this text as its durability option.
pub open spec fn has_policy_text(
    streams: StreamsInner,
    stream: WireIdentifier,
    topic: WireIdentifier,
    text: &str,
) -> bool {
    topic_ids_of(streams, stream, topic) matches Some(ids) && incarnation_of(
        streams,
        ids.0,
        ids.1,
    ) is Some && option_value(topic_of(streams, ids.0, ids.1)->0.options@, DURABILITY_KEY@) == Some(
        encode_utf8(text@),
    )
}

fn read_policy<X, D: Fn(&str) -> Result<Durability, X>>(
    topic: &Topic,
    parse_durability: &D,
    default: Durability,
) -> (policy: Durability)
    requires
        forall|text: &str|
            option_value(topic.options@, DURABILITY_KEY@) == Some(encode_utf8(text@)) ==> #[trigger]
            call_requires(*parse_durability, (text,)),
    ensures
        policy_read(*topic, *parse_durability, default, policy),
{
    let Some(value) = first_option(&topic.options, &DURABILITY_KEY.to_owned()) else {
        return default;
    };
    let Some(text) = text_of(value.as_slice()) else {
        return default;
    };
    match parse_durability(text) {
        Ok(known) => known,
        Err(_) => default,
    }
}

impl TopicDurability {
    /// The identifiers of the request lead to a different topic than the one
    /// whose policy was captured.
    pub open spec fn rerouted(self, streams: StreamsInner) -> bool {
        topic_ids_of(streams, self.requested_stream, self.requested_topic) matches Some(ids)
            && ids != (self.stream_id, self.topic_id)
    }

    /// The topic whose policy was captured is still there, in the same
    /// incarnation, and the request does not lead elsewhere.
    pub open spec fn unchanged(self, streams: StreamsInner) -> bool {
        &&& incarnation_of(streams, self.stream_id, self.topic_id) == Some(self.created_revision)
        &&& !self.rerouted(streams)
    }

    /// The policy that may be attested against these metadata.
    pub open spec fn confirmed(self, streams: StreamsInner) -> Durability {
        if self.unchanged(streams) {
            self.durability
        } else {
            Durability::Replicated
        }
    }

    /// The policy that a completed produce may attest: the captured one if the
    /// captured topic keeps its incarnation and the request does not lead to a
    /// different topic by now, and otherwise no more than replication. A rename
    /// alone does not touch it; a name that another topic has taken over does.
    pub fn confirmed_policy<P>(&self, state: &HttpInner<P>) -> (policy: Durability)
        ensures
            policy == self.confirmed(state.streams),
    {
        self.confirmed_policy_in(&state.streams)
    }

    /// The policy that a completed produce may attest against these metadata.
    pub fn confirmed_policy_in(&self, inner: &StreamsInner) -> (policy: Durability)
        ensures
            policy == self.confirmed(*inner),
    {
        let same_incarnation = match inner.topic(self.stream_id, self.topic_id) {
            Some(topic) => topic.partitions.len() > 0 && topic.partitions[0].created_revision
                == self.created_revision,
            None => false,
        };
        let rerouted = match resolve_topic_ids(
            inner,
            &self.requested_stream,
            &self.requested_topic,
        ) {
            Some((stream_id, topic_id)) => stream_id != self.stream_id || topic_id
                != self.topic_id,
            None => false,
        };
        if same_incarnation && !rerouted {
            self.durability
        } else {
            Durability::Replicated
        }
    }
}

impl Clone for TopicDurability {
    fn clone(&self) -> (copy: TopicDurability)
        ensures
            copy.requested_stream.same_as(self.requested_stream),
            copy.requested_topic.same_as(self.requested_topic),
            copy.stream_id == self.stream_id,
            copy.topic_id == self.topic_id,
            copy.created_revision == self.created_revision,
            copy.durability == self.durability,
    {
        TopicDurability {
            requested_stream: self.requested_stream.clone(),
            requested_topic: self.requested_topic.clone(),
            stream_id: self.stream_id,
            topic_id: self.topic_id,
            created_revision: self.created_revision,
            durability: self.durability,
        }
    }
}

/// What is captured for a request that names a topic in this way.
pub open spec fn captured<X, D: Fn(&str) -> Result<Durability, X>>(
    streams: StreamsInner,
    stream: WireIdentifier,
    topic: WireIdentifier,
    parse_durability: D,
    default: Durability,
    found: Option<TopicDurability>,
) -> bool {
    match topic_ids_of(streams, stream, topic) {
        None => found is None,
        Some((stream_id, topic_id)) => match incarnation_of(streams, stream_id, topic_id) {
            None => found is None,
            Some(created_revision) => found matches Some(captured) && {
                &&& captured.requested_stream == stream
                &&& captured.requested_topic == topic
                &&& captured.stream_id == stream_id
                &&& captured.topic_id == topic_id
                &&& captured.created_revision == created_revision
                &&& policy_read(
                    topic_of(streams, stream_id, topic_id)->0,
                    parse_durability,
                    default,
                    captured.durability,
                )
            },
        },
    }
}

/// Captures the durability policy of the topic that a request names, or `None`
/// where it names none, or one without partitions. `parse_durability` is the
/// parser of the option catalog, and `default` the policy of a topic whose
/// options give none.
pub fn topic_durability_in<X, D: Fn(&str) -> Result<Durability, X>>(
    inner: &StreamsInner,
    stream: WireIdentifier,
    topic: WireIdentifier,
    parse_durability: &D,
    default: Durability,
) -> (found: Option<TopicDurability>)
    requires
        forall|text: &str|
            has_policy_text(*inner, stream, topic, text) ==> #[trigger] call_requires(
                *parse_durability,
                (text,),
            ),
    ensures
        captured(*inner, stream, topic, *parse_durability, default, found),
{
    let (stream_id, topic_id) = resolve_topic_ids(inner, &stream, &topic)?;
    let held = inner.topic(stream_id, topic_id)?;
    if held.partitions.len() == 0 {
        return None;
    }
    let created_revision: u64 = held.partitions[0].created_revision;
    let durability = read_policy(held, parse_durability, default);
    Some(
        TopicDurability {
            requested_stream: stream,
            requested_topic: topic,
            stream_id,
            topic_id,
            created_revision,
            durability,
        },
    )
}

/// What is captured for a pair of domain identifiers, given the conversion to
/// the wire form: an identifier that does not convert captures nothing.
pub open spec fn capture_found<
    I,
    X,
    Y,
    W: Fn(&I) -> Result<WireIdentifier, X>,
    D: Fn(&str) -> Result<Durability, Y>,
>(
    streams: StreamsInner,
    stream: &I,
    topic: &I,
    identifier_to_wire: W,
    parse_durability: D,
    default: Durability,
    found: Option<TopicDurability>,
) -> bool {
    exists|converted_stream: Result<WireIdentifier, X>| #[trigger]
        call_ensures(identifier_to_wire, (stream,), converted_stream) && match converted_stream {
            Err(_) => found is None,
            Ok(wire_stream) => exists|converted_topic: Result<WireIdentifier, X>| #[trigger]
                call_ensures(identifier_to_wire, (topic,), converted_topic)
                    && match converted_topic {
                    Err(_) => found is None,
                    Ok(wire_topic) => captured(
                        streams,
                        wire_stream,
                        wire_topic,
                        parse_durability,
                        default,
                        found,
                    ),
                },
        }
}

/// Captures the durability policy of the topic that a pair of domain
/// identifiers names, or `None` on any conversion or resolution miss.
pub fn topic_durability<
    P,
    I,
    X,
    Y,
    W: Fn(&I) -> Result<WireIdentifier, X>,
    D: Fn(&str) -> Result<Durability, Y>,
>(
    state: &HttpInner<P>,
    stream: &I,
    topic: &I,
    identifier_to_wire: W,
    parse_durability: &D,
    default: Durability,
) -> (found: Option<TopicDurability>)
    requires
        call_requires(identifier_to_wire, (stream,)),
        forall|wire_stream: WireIdentifier| #[trigger]
            call_ensures(identifier_to_wire, (stream,), Ok(wire_stream)) ==> call_requires(
                identifier_to_wire,
                (topic,),
            ),
        forall|wire_stream: WireIdentifier, wire_topic: WireIdentifier, text: &str|
            {
                &&& #[trigger] call_ensures(identifier_to_wire, (stream,), Ok(wire_stream))
                &&& #[trigger] call_ensures(identifier_to_wire, (topic,), Ok(wire_topic))
                &&& has_policy_text(state.streams, wire_stream, wire_topic, text)
            } ==> #[trigger] call_requires(*parse_durability, (text,)),
    ensures
        capture_found(
            state.streams,
            stream,
            topic,
            identifier_to_wire,
            *parse_durability,
            default,
            found,
        ),
{
    let stream = match identifier_to_wire(stream) {
        Ok(wire) => wire,
        Err(_) => return None,
    };
    let topic = match identifier_to_wire(topic) {
        Ok(wire) => wire,
        Err(_) => return None,
    };
    topic_durability_in(&state.streams, stream, topic, parse_durability, default)
}

/// A policy that is confirmed against the metadata it was captured from is the
/// captured policy.
pub proof fn capture_confirms_itself<X, D: Fn(&str) -> Result<Durability, X>>(
    streams: StreamsInner,
    stream: WireIdentifier,
    topic: WireIdentifier,
    parse_durability: D,
    default: Durability,
    capture: TopicDurability,
)
    requires
        captured(streams, stream, topic, parse_durability, default, Some(capture)),
    ensures
        capture.unchanged(streams),
        capture.confirmed(streams) == capture.durability,
{
}

/// Persistence is attested only where it was captured, only while the topic
/// keeps the incarnation it was captured for, and never for a request that
/// leads to a different topic by now.
pub proof fn persistence_is_attested_only_as_captured(
    capture: TopicDurability,
    streams: StreamsInner,
)
    requires
        capture.confirmed(streams) is Persisted,
    ensures
        capture.durability is Persisted,
        capture.unchanged(streams),
{
}

/// The captured policy stands wherever the captured topic keeps its incarnation
/// and the request does not lead to a different topic.
pub proof fn unchanged_topic_keeps_the_policy(capture: TopicDurability, streams: StreamsInner)
    requires
        incarnation_of(streams, capture.stream_id, capture.topic_id) == Some(
            capture.created_revision,
        ),
        !capture.rerouted(streams),
    ensures
        capture.confirmed(streams) == capture.durability,
{
}

/// A copy of a capture is confirmed alike.
pub proof fn copied_capture_confirms_alike(
    capture: TopicDurability,
    copy: TopicDurability,
    streams: StreamsInner,
)
    requires
        copy.requested_stream.same_as(capture.requested_stream),
        copy.requested_topic.same_as(capture.requested_topic),
        copy.stream_id == capture.stream_id,
        copy.topic_id == capture.topic_id,
        copy.created_revision == capture.created_revision,
        copy.durability == capture.durability,
    ensures
        copy.confirmed(streams) == capture.confirmed(streams),
{
    same_pair_resolves_alike(
        streams,
        copy.requested_stream,
        copy.requested_topic,
        capture.requested_stream,
        capture.requested_topic,
    );
}

/// The two hold the same streams and topics in the same slots, in the same
/// incarnations; names and options may differ.
pub open spec fn same_incarnations(one: StreamsInner, other: StreamsInner) -> bool {
    &&& forall|stream_id: usize|
        slot_of(one.items@, stream_id as int) is Some <==> (#[trigger] slot_of(
            other.items@,
            stream_id as int,
        )) is Some
    &&& forall|stream_id: usize, topic_id: usize|
        topic_of(one, stream_id, topic_id) is Some <==> (#[trigger] topic_of(
            other,
            stream_id,
            topic_id,
        )) is Some
    &&& forall|stream_id: usize, topic_id: usize|
        incarnation_of(one, stream_id, topic_id) == #[trigger] incarnation_of(
            other,
            stream_id,
            topic_id,
        )
}

proof fn lemma_numeric_route(streams: StreamsInner, stream: u32, topic: u32)
    ensures
        topic_ids_of(
            streams,
            WireIdentifier::Numeric(stream),
            WireIdentifier::Numeric(topic),
        ) == (if topic_of(streams, stream as usize, topic as usize) is Some {
            Some((stream as usize, topic as usize))
        } else {
            None
        }),
{
    let items = streams.items;
    assert(items@.len() == items.len());
    numeric_identifier_is_its_slot(stream, items@);
    if let Some(held) = slot_of(items@, stream as int) {
        let topics = held.topics;
        assert(topics@.len() == topics.len());
        numeric_identifier_is_its_slot(topic, topics@);
    }
}

/// A request that names its topic by id is not touched by renames: its policy
/// is confirmed alike before and after.
pub proof fn rename_keeps_a_numeric_request(
    capture: TopicDurability,
    before: StreamsInner,
    after: StreamsInner,
)
    requires
        capture.requested_stream is Numeric,
        capture.requested_topic is Numeric,
        same_incarnations(before, after),
    ensures
        capture.confirmed(before) == capture.confirmed(after),
{
    if let WireIdentifier::Numeric(stream) = capture.requested_stream {
        if let WireIdentifier::Numeric(topic) = capture.requested_topic {
            lemma_numeric_route(before, stream, topic);
            lemma_numeric_route(after, stream, topic);
            assert(topic_of(after, stream as usize, topic as usize) is Some <==> topic_of(
                before,
                stream as usize,
                topic as usize,
            ) is Some);
            assert(incarnation_of(after, capture.stream_id, capture.topic_id) == incarnation_of(
                before,
                capture.stream_id,
                capture.topic_id,
            ));
        }
    }
}

/// A name that nobody bears any more does not touch the policy: the captured
/// topic was renamed, and no other took its name.
pub proof fn vacated_name_keeps_the_policy(capture: TopicDurability, streams: StreamsInner)
    requires
        topic_ids_of(streams, capture.requested_stream, capture.requested_topic) is None,
        incarnation_of(streams, capture.stream_id, capture.topic_id) == Some(
            capture.created_revision,
        ),
    ensures
        capture.confirmed(streams) == capture.durability,
{
}

/// A request that names its topic by a name which another topic bears by now
/// attests no more than replication, even though the topic that was captured
/// may live on under another name.
pub proof fn reassigned_name_attests_replication(
    capture: TopicDurability,
    streams: StreamsInner,
    name: String,
    bearer: usize,
)
    requires
        capture.requested_topic == WireIdentifier::String(name),
        stream_id_of(streams, capture.requested_stream) == Some(capture.stream_id),
        slot_of(streams.items@, capture.stream_id as int) matches Some(stream) && {
            &&& names_are_unique(stream.topics@)
            &&& slot_of(stream.topics@, bearer as int) matches Some(topic) && topic.name@ == name@
        },
        bearer != capture.topic_id,
    ensures
        capture.confirmed(streams) is Replicated,
{
    let topics = slot_of(streams.items@, capture.stream_id as int)->0.topics;
    assert(topics@.len() == topics.len());
    unique_name_is_its_slot(name, topics@, bearer);
}

/// A topic that is gone, or whose slot holds another incarnation by now, is
/// attested no more than replication.
pub proof fn changed_incarnation_attests_replication(
    capture: TopicDurability,
    streams: StreamsInner,
)
    requires
        incarnation_of(streams, capture.stream_id, capture.topic_id) != Some(
            capture.created_revision,
        ),
    ensures
        capture.confirmed(streams) is Replicated,
{
}

} // verus!
