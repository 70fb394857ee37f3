//! The durability policy that a produce attests.

use http_reads::durability::{
    topic_durability, topic_durability_in, Durability, TopicDurability, DURABILITY_KEY,
};
use http_reads::metadata::{
    resolve_stream_id, resolve_topic_id, HttpInner, Partition, Stream, StreamsInner, Topic,
    TopicOption, UsersInner, WireIdentifier,
};

fn named(name: &str) -> WireIdentifier {
    WireIdentifier::String(name.to_string())
}

fn number(id: usize) -> WireIdentifier {
    WireIdentifier::Numeric(id.try_into().unwrap())
}

fn text(policy: Durability) -> &'static str {
    match policy {
        Durability::Replicated => "replicated",
        Durability::Persisted => "persisted",
    }
}

fn parse(value: &str) -> Result<Durability, ()> {
    match value {
        "replicated" => Ok(Durability::Replicated),
        "persisted" => Ok(Durability::Persisted),
        _ => Err(()),
    }
}

fn option(key: &str, value: &[u8]) -> TopicOption {
    TopicOption {
        key: key.to_string(),
        value: value.to_vec(),
    }
}

fn create_stream(inner: &mut StreamsInner, name: &str) {
    inner.items.push(Some(Stream {
        name: name.to_string(),
        topics: vec![],
    }));
}

fn create_topic(
    inner: &mut StreamsInner,
    stream_id: usize,
    name: &str,
    policy: Durability,
    created_revision: u64,
) {
    let topics = &mut inner.items[stream_id].as_mut().unwrap().topics;
    let id = topics.len();
    topics.push(Some(Topic {
        id,
        name: name.to_string(),
        partitions: vec![Partition { created_revision }],
        options: vec![option(DURABILITY_KEY, text(policy).as_bytes())],
    }));
}

fn topic_mut(inner: &mut StreamsInner, stream_id: usize, topic_id: usize) -> &mut Topic {
    inner.items[stream_id].as_mut().unwrap().topics[topic_id]
        .as_mut()
        .unwrap()
}

#[test]
fn named_produce_attests_the_dispatched_topic() {
    let mut inner = StreamsInner { items: vec![] };

    create_stream(&mut inner, "events");
    let stream_id = resolve_stream_id(&inner, &named("events")).unwrap();

    for (name, policy, created_revision) in [
        ("orders", Durability::Persisted, 1),
        ("fast", Durability::Replicated, 2),
    ] {
        create_topic(&mut inner, stream_id, name, policy, created_revision);
    }

    let requested_topic = named("orders");
    let original_id = resolve_topic_id(&inner, stream_id, &requested_topic).unwrap();
    let replacement_id = resolve_topic_id(&inner, stream_id, &named("fast")).unwrap();

    // Model the policy captured before the HTTP request can wait for dispatch.
    let original_topic = inner.topic(stream_id, original_id).unwrap();
    assert_eq!(original_topic.id, original_id);
    let captured = TopicDurability {
        requested_stream: named("events"),
        requested_topic: named("orders"),
        stream_id,
        topic_id: original_id,
        created_revision: original_topic.partitions[0].created_revision,
        durability: Durability::Persisted,
    };
    assert_eq!(captured.confirmed_policy_in(&inner), Durability::Persisted);

    // The original topic keeps its incarnation while the replacement takes
    // the name still carried by the request.
    for (topic_id, new_name) in [(original_id, "archived"), (replacement_id, "orders")] {
        topic_mut(&mut inner, stream_id, topic_id).name = new_name.to_string();
    }

    // Resolve after the modeled wait; this does not execute an HTTP dispatch.
    let dispatched_id = resolve_topic_id(&inner, stream_id, &requested_topic).unwrap();
    assert_eq!(dispatched_id, replacement_id);
    let dispatched = inner.topic(stream_id, dispatched_id).unwrap();
    assert_eq!(dispatched.id, dispatched_id);
    let actual_policy = dispatched
        .options
        .iter()
        .find(|option| option.key == DURABILITY_KEY)
        .unwrap();
    assert_eq!(actual_policy.value, b"replicated");
    assert_eq!(
        captured.confirmed_policy_in(&inner),
        Durability::Replicated,
        "the original topic survived its rename, but the named request now routes to a different topic"
    );
}

#[test]
fn completed_produce_checks_the_stored_topic_incarnation() {
    for requested in [[number(0), number(0)], [named(""), named("")]] {
        let [requested_stream, requested_topic] = requested;
        let mut inner = StreamsInner { items: vec![] };
        create_stream(&mut inner, "");
        let stream_id = 0;
        create_topic(&mut inner, stream_id, "", Durability::Replicated, 3);
        let topic_id = 0;
        let original = TopicDurability {
            requested_stream,
            requested_topic,
            stream_id,
            topic_id,
            created_revision: 3,
            durability: Durability::Persisted,
        };
        assert_eq!(original.confirmed_policy_in(&inner), Durability::Persisted);
        topic_mut(&mut inner, stream_id, topic_id).name = "renamed".into();
        assert_eq!(original.confirmed_policy_in(&inner), Durability::Persisted);
        topic_mut(&mut inner, stream_id, topic_id).partitions[0].created_revision = 4;
        assert_eq!(original.confirmed_policy_in(&inner), Durability::Replicated);
        inner.items[stream_id] = None;
        assert_eq!(original.confirmed_policy_in(&inner), Durability::Replicated);
    }
}

fn fixture() -> StreamsInner {
    let mut inner = StreamsInner { items: vec![None] };
    create_stream(&mut inner, "events");
    create_topic(&mut inner, 1, "orders", Durability::Persisted, 5);
    create_topic(&mut inner, 1, "fast", Durability::Replicated, 6);
    inner
}

fn capture(inner: &StreamsInner, topic: &str, default: Durability) -> Option<TopicDurability> {
    topic_durability_in(inner, named("events"), named(topic), &parse, default)
}

#[test]
fn capture_holds_what_the_request_resolved_to() {
    let inner = fixture();
    assert_eq!(
        capture(&inner, "orders", Durability::Replicated),
        Some(TopicDurability {
            requested_stream: named("events"),
            requested_topic: named("orders"),
            stream_id: 1,
            topic_id: 0,
            created_revision: 5,
            durability: Durability::Persisted,
        })
    );
    assert_eq!(
        capture(&inner, "fast", Durability::Persisted).unwrap().durability,
        Durability::Replicated
    );
}

#[test]
fn capture_misses_without_a_topic_or_a_partition() {
    let mut inner = fixture();
    assert_eq!(capture(&inner, "missing", Durability::Replicated), None);
    assert_eq!(
        topic_durability_in(
            &inner,
            named("missing"),
            named("orders"),
            &parse,
            Durability::Replicated
        ),
        None
    );
    topic_mut(&mut inner, 1, 0).partitions.clear();
    assert_eq!(capture(&inner, "orders", Durability::Replicated), None);
}

#[test]
fn policy_that_cannot_be_read_is_the_default() {
    for options in [
        vec![],
        vec![option("retention", b"persisted")],
        vec![option(DURABILITY_KEY, b"nonsense")],
        vec![option(DURABILITY_KEY, &[0xff, 0xfe])],
    ] {
        let mut inner = fixture();
        topic_mut(&mut inner, 1, 0).options = options;
        for default in [Durability::Replicated, Durability::Persisted] {
            assert_eq!(capture(&inner, "orders", default).unwrap().durability, default);
        }
    }
}

#[test]
fn policy_is_found_among_other_options() {
    let mut inner = fixture();
    topic_mut(&mut inner, 1, 0).options = vec![
        option("retention", b"7d"),
        option(DURABILITY_KEY, b"persisted"),
    ];
    assert_eq!(
        capture(&inner, "orders", Durability::Replicated).unwrap().durability,
        Durability::Persisted
    );
}

#[test]
fn policy_does_not_depend_on_where_its_option_stands() {
    let mut inner = fixture();
    let options = || {
        vec![
            option(DURABILITY_KEY, b"persisted"),
            option("retention", b"7d"),
            option("compression", b"none"),
        ]
    };
    for turn in 0..3 {
        let mut turned = options();
        turned.rotate_left(turn);
        topic_mut(&mut inner, 1, 0).options = turned;
        assert_eq!(
            capture(&inner, "orders", Durability::Replicated).unwrap().durability,
            Durability::Persisted
        );
    }
}

#[test]
fn copy_of_a_capture_is_confirmed_alike() {
    let mut inner = fixture();
    let captured = capture(&inner, "orders", Durability::Replicated).unwrap();
    let copy = captured.clone();
    assert_eq!(copy, captured);
    assert_eq!(copy.confirmed_policy_in(&inner), Durability::Persisted);
    topic_mut(&mut inner, 1, 0).partitions[0].created_revision = 9;
    assert_eq!(copy.confirmed_policy_in(&inner), captured.confirmed_policy_in(&inner));
    assert_eq!(number(4).clone(), number(4));
}

#[test]
fn parser_is_handed_the_text_of_the_option() {
    let mut inner = fixture();
    topic_mut(&mut inner, 1, 0).options = vec![option(DURABILITY_KEY, "d\u{fc}rabel".as_bytes())];
    let german = |value: &str| -> Result<Durability, ()> {
        assert_eq!(value, "d\u{fc}rabel");
        Ok(Durability::Persisted)
    };
    let found = topic_durability_in(
        &inner,
        named("events"),
        named("orders"),
        &german,
        Durability::Replicated,
    );
    assert_eq!(found.unwrap().durability, Durability::Persisted);
}

#[test]
fn capture_is_confirmed_by_the_metadata_it_came_from() {
    let state = HttpInner {
        streams: fixture(),
        users: UsersInner {
            items: vec![],
            permissioner: (),
        },
        metadata_primary: true,
    };
    let to_wire = |id: &&str| if id.is_empty() { Err(()) } else { Ok(named(id)) };
    let found = topic_durability(
        &state,
        &"events",
        &"orders",
        to_wire,
        &parse,
        Durability::Replicated,
    );
    assert_eq!(found.unwrap().confirmed_policy(&state), Durability::Persisted);
    for (stream, topic) in [("", "orders"), ("events", ""), ("events", "missing")] {
        let found = topic_durability(
            &state,
            &stream,
            &topic,
            to_wire,
            &parse,
            Durability::Replicated,
        );
        assert_eq!(found, None);
    }
}

#[test]
fn vacated_name_keeps_the_captured_policy() {
    let mut inner = fixture();
    let captured = capture(&inner, "orders", Durability::Replicated).unwrap();
    topic_mut(&mut inner, 1, 0).name = "archived".to_string();
    assert_eq!(captured.confirmed_policy_in(&inner), Durability::Persisted);
    topic_mut(&mut inner, 1, 1).name = "orders".to_string();
    assert_eq!(captured.confirmed_policy_in(&inner), Durability::Replicated);
}

#[test]
fn request_whose_stream_name_moved_attests_replication() {
    let mut inner = fixture();
    let captured = capture(&inner, "orders", Durability::Replicated).unwrap();
    create_stream(&mut inner, "other");
    create_topic(&mut inner, 2, "orders", Durability::Replicated, 7);
    assert_eq!(captured.confirmed_policy_in(&inner), Durability::Persisted);
    inner.items[1].as_mut().unwrap().name = "archived".to_string();
    inner.items[2].as_mut().unwrap().name = "events".to_string();
    assert_eq!(captured.confirmed_policy_in(&inner), Durability::Replicated);
}
