//! Authorization, the order of the gates, and the answer to a local read.

use bytes::Bytes;
use http_reads::authorize::{authorize_data_plane, authorize_read};
use http_reads::error::ReadError;
use http_reads::barrier::{recovery_step, RecoveryAction, RecoverySample, RecoveryState};
use http_reads::frontier::{
    enter_frontier_hold, FrontierEntry, FrontierEvent, FrontierWait, HoldAction,
};
use http_reads::gate::{gate_after_barrier, gate_after_frontier, GateStep};
use http_reads::local::{
    clients_count, needs_client_gather, read_local, read_reply, NonReplicatedResponse,
    ResponseQuery,
};
use http_reads::metadata::{
    HttpInner, Partition, Stream, StreamsInner, Topic, User, UsersInner, WireIdentifier,
};
use http_reads::request::{
    read_needs_metadata_frontier, ClientIp, Consistency, Identity, ReadCode,
};
use http_reads::resolve::{
    resolve_gate_stream, resolve_gate_topic, resolve_gate_topic_ids, resolve_gate_user,
};

#[derive(Debug, PartialEq, Eq)]
enum Denial {
    Unauthorized,
    Malformed,
}

/// The users that hold a grant.
type Grants = Vec<u32>;

fn named(name: &str) -> WireIdentifier {
    WireIdentifier::String(name.to_string())
}

fn topic(id: usize, name: &str) -> Option<Topic> {
    Some(Topic {
        id,
        name: name.to_string(),
        partitions: vec![Partition { created_revision: 1 }],
        options: vec![],
    })
}

fn node(primary: bool, granted: Grants) -> HttpInner<Grants> {
    HttpInner {
        streams: StreamsInner {
            items: vec![
                None,
                Some(Stream {
                    name: "events".to_string(),
                    topics: vec![topic(0, "orders"), None, topic(2, "fast")],
                }),
                Some(Stream {
                    name: "logs".to_string(),
                    topics: vec![],
                }),
            ],
        },
        users: UsersInner {
            items: vec![
                Some(User {
                    username: "root".to_string(),
                }),
                None,
                Some(User {
                    username: "alice".to_string(),
                }),
            ],
            permissioner: granted,
        },
        metadata_primary: primary,
    }
}

fn caller(user_id: u32) -> Identity {
    Identity {
        user_id,
        path_and_query: "/streams/1?consistency=linearizable".to_string(),
        client_ip: ClientIp::V4(0x0a00_0001),
    }
}

fn rule(grants: &Grants, user_id: u32) -> Result<(), Denial> {
    if grants.contains(&user_id) {
        Ok(())
    } else {
        Err(Denial::Unauthorized)
    }
}

fn to_primary(path_and_query: &String, client_ip: ClientIp) -> ReadError<Denial> {
    match client_ip {
        ClientIp::V4(_) => ReadError::Redirect(format!("http://primary{path_and_query}")),
        ClientIp::V6(_) => ReadError::NotPrimary,
    }
}

fn to_wire(identifier: &&str) -> Result<WireIdentifier, Denial> {
    if identifier.is_empty() {
        Err(Denial::Malformed)
    } else {
        Ok(named(identifier))
    }
}

#[test]
fn check_passes_a_permitted_local_read_on_any_node() {
    for primary in [true, false] {
        let state = node(primary, vec![7]);
        assert_eq!(
            authorize_read(&state, &caller(7), Consistency::Local, &rule, &to_primary),
            Ok(())
        );
    }
}

#[test]
fn check_runs_the_rule_for_the_calling_user() {
    let state = node(true, vec![7]);
    assert_eq!(
        authorize_read(&state, &caller(8), Consistency::Local, &rule, &to_primary),
        Err(ReadError::Rejected(Denial::Unauthorized))
    );
}

#[test]
fn check_sends_a_linearizable_read_to_the_primary() {
    let primary = node(true, vec![7]);
    let follower = node(false, vec![7]);
    assert_eq!(
        authorize_read(&primary, &caller(7), Consistency::Linearizable, &rule, &to_primary),
        Ok(())
    );
    assert_eq!(
        authorize_read(&follower, &caller(7), Consistency::Linearizable, &rule, &to_primary),
        Err(ReadError::Redirect(
            "http://primary/streams/1?consistency=linearizable".to_string()
        ))
    );
    let unresolvable = Identity {
        client_ip: ClientIp::V6(1),
        ..caller(7)
    };
    assert_eq!(
        authorize_read(&follower, &unresolvable, Consistency::Linearizable, &rule, &to_primary),
        Err(ReadError::NotPrimary)
    );
}

#[test]
fn denied_caller_is_not_answered_for_the_primary() {
    let follower = node(false, vec![]);
    let unreached =
        |_: &String, _: ClientIp| -> ReadError<Denial> { panic!("the denial comes first") };
    assert_eq!(
        authorize_read(&follower, &caller(7), Consistency::Linearizable, &rule, &unreached),
        Err(ReadError::Rejected(Denial::Unauthorized))
    );
}

#[test]
fn denial_comes_before_the_redirect() {
    let follower = node(false, vec![]);
    assert_eq!(
        authorize_read(&follower, &caller(7), Consistency::Linearizable, &rule, &to_primary),
        Err(ReadError::Rejected(Denial::Unauthorized))
    );
}

#[test]
fn given_the_http_read_codes_when_classified_should_gate_all_but_the_static_catalog() {
    for code in [
        ReadCode::GetStreams,
        ReadCode::GetStream,
        ReadCode::GetTopics,
        ReadCode::GetTopic,
        ReadCode::GetUsers,
        ReadCode::GetUser,
        ReadCode::GetConsumerGroups,
        ReadCode::GetPersonalAccessTokens,
        ReadCode::GetStats,
    ] {
        assert!(
            read_needs_metadata_frontier(code),
            "code {code:?} answers from the metadata STM and must be gated"
        );
    }
    assert!(
        !read_needs_metadata_frontier(ReadCode::DescribeOptions),
        "the option catalog is static; holding a read of it buys nothing"
    );
}

#[test]
fn other_codes_follow_the_binary_dispatch() {
    let code = |frontier_exempt| ReadCode::Dispatched {
        code: 22,
        frontier_exempt,
    };
    assert!(read_needs_metadata_frontier(code(false)));
    assert!(!read_needs_metadata_frontier(code(true)));
}

fn first_step(
    barrier: Result<(), ReadError<Denial>>,
    state: &HttpInner<Grants>,
    consistency: Consistency,
    code: ReadCode,
) -> GateStep<Denial> {
    gate_after_barrier(barrier, state, &caller(7), consistency, code, &rule, &to_primary)
}

#[test]
fn unmet_barrier_ends_the_gate() {
    let state = node(true, vec![7]);
    assert_eq!(
        first_step(
            Err(ReadError::RecoveryIncomplete),
            &state,
            Consistency::Local,
            ReadCode::GetStreams
        ),
        GateStep::Finish(Err(ReadError::RecoveryIncomplete))
    );
}

#[test]
fn permitted_read_is_held_only_if_its_code_asks_for_it() {
    let state = node(true, vec![7]);
    assert_eq!(
        first_step(Ok(()), &state, Consistency::Local, ReadCode::GetStreams),
        GateStep::AwaitFrontier
    );
    assert_eq!(
        first_step(Ok(()), &state, Consistency::Local, ReadCode::DescribeOptions),
        GateStep::Finish(Ok(()))
    );
}

#[test]
fn denial_and_redirect_answer_before_the_hold() {
    assert_eq!(
        first_step(Ok(()), &node(true, vec![]), Consistency::Local, ReadCode::GetStreams),
        GateStep::Finish(Err(ReadError::Rejected(Denial::Unauthorized)))
    );
    assert!(matches!(
        first_step(
            Ok(()),
            &node(false, vec![7]),
            Consistency::Linearizable,
            ReadCode::GetStreams
        ),
        GateStep::Finish(Err(ReadError::Redirect(_)))
    ));
}

fn last_step(
    frontier: Result<FrontierWait, ReadError<Denial>>,
    state: &HttpInner<Grants>,
) -> Result<(), ReadError<Denial>> {
    gate_after_frontier(frontier, state, &caller(7), Consistency::Local, &rule, &to_primary)
}

#[test]
fn parked_read_is_checked_against_the_state_that_moved_under_it() {
    assert_eq!(last_step(Ok(FrontierWait::CaughtUp), &node(true, vec![7])), Ok(()));
    assert_eq!(
        last_step(Ok(FrontierWait::CaughtUp), &node(true, vec![])),
        Err(ReadError::Rejected(Denial::Unauthorized))
    );
}

#[test]
fn read_that_did_not_park_is_let_on() {
    assert_eq!(last_step(Ok(FrontierWait::Ready), &node(true, vec![])), Ok(()));
}

#[test]
fn unreached_frontier_refuses_the_read() {
    assert_eq!(
        last_step(Err(ReadError::MetadataFrontierUnreached), &node(true, vec![7])),
        Err(ReadError::MetadataFrontierUnreached)
    );
}

#[test]
fn served_read_went_through_both_waits_and_both_checks() {
    let sample = |commit_min: u64, now: u128| {
        Some(RecoverySample {
            barrier: 5,
            commit_min,
            now,
            recovery_deadline: 100,
        })
    };
    let RecoveryAction::Poll(polling) =
        recovery_step::<Denial>(RecoveryState::Entering, sample(3, 0))
    else {
        panic!("the barrier is unmet on entry");
    };
    let RecoveryAction::Finish(barrier) = recovery_step::<Denial>(polling, sample(5, 1)) else {
        panic!("the barrier is met");
    };
    let before = node(true, vec![7]);
    assert_eq!(
        first_step(barrier, &before, Consistency::Local, ReadCode::GetStreams),
        GateStep::AwaitFrontier
    );
    let FrontierEntry::Held(hold) = enter_frontier_hold(&caller(7), &|_user: u32| 9, 5) else {
        panic!("the floor is not applied yet");
    };
    for (event, after, served) in [
        (FrontierEvent::Advanced(9), node(true, vec![7]), true),
        (FrontierEvent::Advanced(9), node(true, vec![]), false),
        (FrontierEvent::BudgetSpent, node(true, vec![7]), false),
    ] {
        let frontier = match hold.wake(event) {
            HoldAction::Serve(wait) => Ok(wait),
            HoldAction::Refuse(refusal) => Err(refusal),
            HoldAction::Park => panic!("the event ends the hold"),
        };
        assert_eq!(last_step(frontier, &after).is_ok(), served);
    }
}

#[test]
fn identifiers_resolve_to_occupied_slots() {
    let state = node(true, vec![]);
    assert_eq!(resolve_gate_stream(&state, &WireIdentifier::Numeric(1)), Some(1));
    assert_eq!(resolve_gate_stream(&state, &WireIdentifier::Numeric(0)), None);
    assert_eq!(resolve_gate_stream(&state, &WireIdentifier::Numeric(3)), None);
    assert_eq!(resolve_gate_stream(&state, &named("events")), Some(1));
    assert_eq!(resolve_gate_stream(&state, &named("logs")), Some(2));
    assert_eq!(resolve_gate_stream(&state, &named("missing")), None);

    assert_eq!(resolve_gate_user(&state, &WireIdentifier::Numeric(0)), Some(0));
    assert_eq!(resolve_gate_user(&state, &WireIdentifier::Numeric(1)), None);
    assert_eq!(resolve_gate_user(&state, &named("alice")), Some(2));
    assert_eq!(resolve_gate_user(&state, &named("bob")), None);
}

#[test]
fn topic_resolves_inside_its_own_stream() {
    let state = node(true, vec![]);
    assert_eq!(
        resolve_gate_topic(&state, &named("events"), &named("fast")),
        Some((1, 2))
    );
    assert_eq!(
        resolve_gate_topic(&state, &WireIdentifier::Numeric(1), &WireIdentifier::Numeric(0)),
        Some((1, 0))
    );
    assert_eq!(
        resolve_gate_topic(&state, &named("events"), &WireIdentifier::Numeric(1)),
        None
    );
    assert_eq!(resolve_gate_topic(&state, &named("logs"), &named("fast")), None);
    assert_eq!(resolve_gate_topic(&state, &named("missing"), &named("fast")), None);
}

#[test]
fn topic_of_an_unconverted_stream_is_not_converted() {
    let state = node(true, vec![]);
    let stream_only = |identifier: &&str| {
        assert!(identifier.is_empty(), "the topic must not be converted");
        to_wire(identifier)
    };
    assert_eq!(resolve_gate_topic_ids(&state, &"", &"orders", stream_only), None);
}

#[test]
fn identifier_that_does_not_convert_is_a_miss() {
    let state = node(true, vec![]);
    assert_eq!(
        resolve_gate_topic_ids(&state, &"events", &"orders", to_wire),
        Some((1, 0))
    );
    assert_eq!(resolve_gate_topic_ids(&state, &"", &"orders", to_wire), None);
    assert_eq!(resolve_gate_topic_ids(&state, &"events", &"", to_wire), None);
    assert_eq!(resolve_gate_topic_ids(&state, &"events", &"missing", to_wire), None);
}

fn write_rule(
    grants: &Grants,
    user_id: u32,
    stream_id: usize,
    topic_id: usize,
) -> Result<(), Denial> {
    assert_eq!((stream_id, topic_id), (1, 2), "the rule sees the resolved ids");
    rule(grants, user_id)
}

#[test]
fn data_plane_write_is_judged_on_the_resolved_topic() {
    let state = node(true, vec![7]);
    assert_eq!(
        authorize_data_plane(&state, 7, &"events", &"fast", to_wire, write_rule),
        Ok(())
    );
    assert_eq!(
        authorize_data_plane(&state, 8, &"events", &"fast", to_wire, write_rule),
        Err(Denial::Unauthorized)
    );
}

#[test]
fn data_plane_miss_runs_no_rule() {
    let state = node(true, vec![]);
    let unreached =
        |_: &Grants, _: u32, _: usize, _: usize| -> Result<(), Denial> { panic!("no rule to run") };
    for (stream, topic) in [("events", "missing"), ("", "fast"), ("events", "")] {
        assert_eq!(
            authorize_data_plane(&state, 7, &stream, &topic, to_wire, unreached),
            Ok(())
        );
    }
}

#[test]
fn data_plane_miss_is_a_pass_through() {
    let state = node(true, vec![]);
    let deny = |_: &Grants, _: u32, _: usize, _: usize| Err(Denial::Unauthorized);
    assert_eq!(
        authorize_data_plane(&state, 7, &"events", &"missing", to_wire, deny),
        Ok(())
    );
    assert_eq!(authorize_data_plane(&state, 7, &"", &"fast", to_wire, deny), Ok(()));
    assert_eq!(authorize_data_plane(&state, 7, &"events", &"", to_wire, deny), Ok(()));
    assert_eq!(
        authorize_data_plane(&state, 7, &"events", &"orders", to_wire, deny),
        Err(Denial::Unauthorized)
    );
}

#[test]
fn only_the_statistics_count_clients() {
    let passed: Result<(), ReadError<Denial>> = Ok(());
    let refused: Result<(), ReadError<Denial>> = Err(ReadError::RecoveryIncomplete);
    assert!(needs_client_gather(&passed, ReadCode::GetStats));
    assert!(!needs_client_gather(&passed, ReadCode::GetStreams));
    assert!(!needs_client_gather(&refused, ReadCode::GetStats));
    assert_eq!(clients_count(ReadCode::GetStats, 3), 3);
    assert_eq!(clients_count(ReadCode::GetStreams, 3), 0);
    assert_eq!(clients_count(ReadCode::GetStats, u32::MAX as usize), u32::MAX);
    assert_eq!(clients_count(ReadCode::GetStats, usize::MAX), u32::MAX);
}

#[test]
fn reply_maps_what_the_builder_found() {
    let body = Bytes::from_static(b"stream");
    let found: Result<_, Denial> = Ok(NonReplicatedResponse::Bytes(body.clone()));
    assert_eq!(read_reply(found), Ok(body));
    let absent: Result<_, Denial> = Ok(NonReplicatedResponse::Empty);
    assert_eq!(read_reply(absent), Err(ReadError::NotFound));
    assert_eq!(
        read_reply(Err(Denial::Malformed)),
        Err(ReadError::Rejected(Denial::Malformed))
    );
}

#[test]
fn local_read_asks_the_builder_for_the_caller() {
    let build = |query: ResponseQuery| {
        assert_eq!(
            query,
            ResponseQuery {
                code: ReadCode::GetStats,
                body: b"request",
                user_id: Some(7),
                client_ip: ClientIp::V4(0x0a00_0001),
                clients_count: 2,
            }
        );
        Ok::<_, Denial>(NonReplicatedResponse::Bytes(Bytes::from_static(b"stats")))
    };
    assert_eq!(
        read_local(Ok(()), &caller(7), ReadCode::GetStats, b"request", 2, build),
        Ok(Bytes::from_static(b"stats"))
    );
}

#[test]
fn refused_gate_asks_the_builder_nothing() {
    let build = |_: ResponseQuery| -> Result<NonReplicatedResponse, Denial> {
        panic!("a refused read must not be built")
    };
    assert_eq!(
        read_local(
            Err(ReadError::RecoveryIncomplete),
            &caller(7),
            ReadCode::GetStats,
            b"",
            0,
            build
        ),
        Err(ReadError::RecoveryIncomplete)
    );
}
