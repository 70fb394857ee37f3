//! What each operation returns, in terms of what it is given and of what the
//! other operations return.

use crate::authorize::{authorize_data_plane, authorize_read};
use crate::barrier::{
    barrier_state, recovery_step, BarrierWait, RecoveryAction, RecoverySample, RecoveryState,
};
use crate::durability::{
    copied_capture_confirms_alike, topic_durability, topic_durability_in, Durability,
    TopicDurability,
};
use crate::error::ReadError;
use crate::frontier::{
    enter_frontier_hold, FrontierEntry, FrontierEvent, FrontierHold, FrontierWait, HoldAction,
};
use crate::gate::{gate_after_barrier, gate_after_frontier, GateStep};
use crate::laws::answers::{
    answer_of_the_check_has_its_cause, local_read_is_answered_as_built,
    permitted_read_goes_on_from_the_barrier, permitted_read_passes_the_check,
    step_after_the_barrier_has_its_cause, step_after_the_hold_goes_by_the_hold,
};
use crate::laws::lookups::{
    committed_topic_is_found_by_its_numbers, name_finds_the_first_stream_that_bears_it,
    name_finds_the_first_topic_that_bears_it, name_finds_the_first_user_who_bears_it,
    number_finds_the_stream_in_its_slot, number_finds_the_topic_in_its_slot,
    number_finds_the_user_in_its_slot,
};
use crate::laws::policies::{
    capture_is_owed_to_every_topic_with_a_partition, found_topic_is_captured_as_it_stands,
    policy_is_attested_while_its_topic_stands, request_that_leads_elsewhere_attests_replication,
    requests_for_one_topic_capture_the_same, topic_has_the_policy_its_option_spells,
    topic_is_captured_by_its_names, topic_is_captured_by_its_numbers,
    topic_that_is_gone_attests_replication, topic_without_the_option_has_the_default,
};
use crate::laws::waits::{
    first_look_starts_the_clock, floor_is_the_one_of_the_calling_user, later_look_keeps_the_clock,
    woken_read_goes_by_its_floor,
};
use crate::local::{
    clients_count, needs_client_gather, read_local, read_reply, NonReplicatedResponse,
    ResponseQuery,
};
use crate::metadata::{
    resolve_stream_id, resolve_topic_id, resolve_topic_ids, resolved_topic_is_committed, slot,
    HttpInner, Stream, StreamsInner, Topic, UsersInner, WireIdentifier,
};
use crate::request::{
    read_needs_metadata_frontier, ClientIp, Consistency, Identity, ReadCode,
};
use crate::resolve::{
    resolve_gate_stream, resolve_gate_topic, resolve_gate_topic_ids, resolve_gate_user,
};
use bytes::Bytes;
use vstd::prelude::*;
use vstd::utf8::{encode_utf8, valid_utf8};

verus! {

/// One look serves a read exactly when no barrier is armed or everything up to
/// it is applied, whatever the clock says; short of that the clock decides.
pub proof fn look_serves_exactly_past_the_barrier(
    barrier: u64,
    commit_min: u64,
    expired: bool,
    wait: BarrierWait,
)
    requires
        call_ensures(barrier_state, (barrier, commit_min, expired), wait),
    ensures
        wait is Ready <==> barrier == 0 || commit_min >= barrier,
        wait is Expired <==> commit_min < barrier && expired,
        wait is Pending <==> commit_min < barrier && !expired,
{
}

/// The first step of the wait finishes it exactly when the barrier is applied,
/// and otherwise fixes the deadline at the time allowed from now.
pub proof fn first_step_fixes_the_deadline<E>(sample: RecoverySample, action: RecoveryAction<E>)
    requires
        sample.commit_min < sample.barrier ==> sample.now + sample.recovery_deadline <= u128::MAX,
        call_ensures(recovery_step::<E>, (RecoveryState::Entering, Some(sample)), action),
    ensures
        sample.barrier == 0 || sample.commit_min >= sample.barrier ==> action
            == RecoveryAction::<E>::Finish(Ok(())),
        sample.commit_min < sample.barrier ==> (action matches RecoveryAction::Poll(
            RecoveryState::Polling { deadline },
        ) && deadline == sample.now + sample.recovery_deadline),
{
    first_look_starts_the_clock::<E>(sample);
}

/// A later step finishes the wait when the barrier is applied or the deadline
/// has come, and otherwise sleeps on with the same deadline.
pub proof fn later_step_goes_by_barrier_and_deadline<E>(
    deadline: u128,
    sample: RecoverySample,
    action: RecoveryAction<E>,
)
    requires
        call_ensures(
            recovery_step::<E>,
            (RecoveryState::Polling { deadline }, Some(sample)),
            action,
        ),
    ensures
        sample.barrier == 0 || sample.commit_min >= sample.barrier ==> action
            == RecoveryAction::<E>::Finish(Ok(())),
        sample.commit_min < sample.barrier && sample.now >= deadline ==> action == RecoveryAction::<
            E,
        >::Finish(Err(ReadError::RecoveryIncomplete)),
        sample.commit_min < sample.barrier && sample.now < deadline ==> action == RecoveryAction::<
            E,
        >::Sleep(RecoveryState::Polling { deadline }),
{
    later_look_keeps_the_clock::<E>(deadline, sample);
}

/// A step without a consensus group finishes the wait.
pub proof fn step_without_consensus_finishes<E>(state: RecoveryState, action: RecoveryAction<E>)
    requires
        call_ensures(recovery_step::<E>, (state, None::<RecoverySample>), action),
    ensures
        action == RecoveryAction::<E>::Finish(Ok(())),
{
}

/// A read is held exactly when the node is behind what was recorded for the
/// calling user, and then for exactly that.
pub proof fn read_is_held_for_the_floor_of_its_user<F: Fn(u32) -> u64>(
    identity: Identity,
    metadata_watermark: F,
    applied: u64,
    floor: u64,
    entry: FrontierEntry,
)
    requires
        forall|recorded: u64|
            call_ensures(metadata_watermark, (identity.user_id,), recorded) ==> recorded == floor,
        call_ensures(enter_frontier_hold::<F>, (&identity, &metadata_watermark, applied), entry),
    ensures
        applied >= floor ==> entry is Ready,
        applied < floor ==> entry == FrontierEntry::Held(FrontierHold { floor }),
{
    floor_is_the_one_of_the_calling_user(identity, metadata_watermark, applied, floor, entry);
}

/// A woken read goes on exactly when its floor is applied, is refused exactly
/// when its budget is spent, and parks again otherwise.
pub proof fn wake_serves_exactly_at_the_floor<E>(
    hold: FrontierHold,
    event: FrontierEvent,
    action: HoldAction<E>,
)
    requires
        call_ensures(FrontierHold::wake::<E>, (&hold, event), action),
    ensures
        event is BudgetSpent ==> action == HoldAction::<E>::Refuse(
            ReadError::MetadataFrontierUnreached,
        ),
        event matches FrontierEvent::Advanced(applied) ==> {
            &&& applied >= hold.floor ==> action == HoldAction::<E>::Serve(FrontierWait::CaughtUp)
            &&& applied < hold.floor ==> action == HoldAction::<E>::Park
        },
{
    woken_read_goes_by_its_floor::<E>(hold, event);
}

/// A read that entered the hold and was let on by an event was seen to have
/// everything recorded for its user applied.
pub proof fn read_let_on_by_an_event_has_its_floor<E, F: Fn(u32) -> u64>(
    identity: Identity,
    metadata_watermark: F,
    applied: u64,
    hold: FrontierHold,
    event: FrontierEvent,
    wait: FrontierWait,
)
    requires
        call_ensures(
            enter_frontier_hold::<F>,
            (&identity, &metadata_watermark, applied),
            FrontierEntry::Held(hold),
        ),
        call_ensures(
            FrontierHold::wake::<E>,
            (&hold, event),
            HoldAction::<E>::Serve(wait),
        ),
    ensures
        wait is CaughtUp,
        event matches FrontierEvent::Advanced(seen) && exists|floor: u64|
            seen >= floor && applied < floor && #[trigger] call_ensures(
                metadata_watermark,
                (identity.user_id,),
                floor,
            ),
{
    woken_read_goes_by_its_floor::<E>(hold, event);
    assert(call_ensures(metadata_watermark, (identity.user_id,), hold.floor));
}

/// Every read is held but that of the static catalog, and what the binary
/// dispatch exempts.
pub proof fn only_the_catalog_and_exempt_reads_are_not_held(code: ReadCode, needed: bool)
    requires
        call_ensures(read_needs_metadata_frontier, (code,), needed),
    ensures
        code is DescribeOptions ==> !needed,
        code matches ReadCode::Dispatched { code: _, frontier_exempt } ==> needed
            == !frontier_exempt,
        !(code is DescribeOptions) && !(code is Dispatched) ==> needed,
{
}

/// A slot gives what stands there, and nothing where it is empty or past the
/// last one.
pub proof fn slot_gives_what_stands_there<T>(
    slots: Vec<Option<T>>,
    id: usize,
    entry: Option<&T>,
)
    requires
        call_ensures(slot::<T>, (&slots, id), entry),
    ensures
        id >= slots@.len() ==> entry is None,
        id < slots@.len() ==> (entry is Some <==> slots@[id as int] is Some),
        entry matches Some(held) ==> slots@[id as int] == Some(*held),
{
}

/// A topic is given exactly where one stands in that slot of that stream, and
/// it is that one.
pub proof fn topic_gives_what_stands_there(
    streams: StreamsInner,
    stream_id: usize,
    topic_id: usize,
    found: Option<&Topic>,
)
    requires
        call_ensures(StreamsInner::topic, (&streams, stream_id, topic_id), found),
    ensures
        found is Some <==> stream_id < streams.items@.len() && (streams.items@[stream_id as int]
            matches Some(stream) && topic_id < stream.topics@.len()
            && stream.topics@[topic_id as int] is Some),
        found matches Some(topic) ==> streams.items@[stream_id as int]->0.topics@[topic_id as int]
            == Some(*topic),
{
}

/// A stream is resolved by its number to that slot, if it is occupied.
pub proof fn stream_is_resolved_by_its_number<P>(
    state: HttpInner<P>,
    number: u32,
    found: Option<usize>,
    gate_found: Option<usize>,
)
    requires
        call_ensures(
            resolve_stream_id,
            (&state.streams, &WireIdentifier::Numeric(number)),
            found,
        ),
        call_ensures(
            resolve_gate_stream::<P>,
            (&state, &WireIdentifier::Numeric(number)),
            gate_found,
        ),
    ensures
        gate_found == found,
        found is Some <==> number < state.streams.items@.len()
            && state.streams.items@[number as int] is Some,
        found matches Some(id) ==> id == number,
{
    number_finds_the_stream_in_its_slot(state.streams, number);
}

/// A stream is resolved by its name to the first slot whose stream bears it.
pub proof fn stream_is_resolved_by_its_name<P>(
    state: HttpInner<P>,
    name: String,
    id: usize,
    found: Option<usize>,
    gate_found: Option<usize>,
)
    requires
        call_ensures(resolve_stream_id, (&state.streams, &WireIdentifier::String(name)), found),
        call_ensures(
            resolve_gate_stream::<P>,
            (&state, &WireIdentifier::String(name)),
            gate_found,
        ),
    ensures
        gate_found == found,
        found == Some(id) <==> {
            &&& id < state.streams.items@.len()
            &&& state.streams.items@[id as int] matches Some(stream) && stream.name@ == name@
            &&& forall|lower: int|
                0 <= lower < id ==> (#[trigger] state.streams.items@[lower] matches Some(other)
                    ==> other.name@ != name@)
        },
        found is None <==> forall|any: int|
            0 <= any < state.streams.items@.len() ==> (
            #[trigger] state.streams.items@[any] matches Some(stream) ==> stream.name@ != name@),
{
    name_finds_the_first_stream_that_bears_it(state.streams, name, id);
}

/// A user is resolved by number to that slot, if it is occupied.
pub proof fn user_is_resolved_by_number<P>(
    state: HttpInner<P>,
    number: u32,
    found: Option<usize>,
    gate_found: Option<usize>,
)
    requires
        call_ensures(
            UsersInner::<P>::resolve_user_id,
            (&state.users, &WireIdentifier::Numeric(number)),
            found,
        ),
        call_ensures(
            resolve_gate_user::<P>,
            (&state, &WireIdentifier::Numeric(number)),
            gate_found,
        ),
    ensures
        gate_found == found,
        found is Some <==> number < state.users.items@.len()
            && state.users.items@[number as int] is Some,
        found matches Some(id) ==> id == number,
{
    let items = state.users.items;
    assert(items@.len() == items.len());
    number_finds_the_user_in_its_slot(items@, number);
}

/// A user is resolved by name to the first slot whose user bears it.
pub proof fn user_is_resolved_by_name<P>(
    state: HttpInner<P>,
    name: String,
    id: usize,
    found: Option<usize>,
    gate_found: Option<usize>,
)
    requires
        call_ensures(
            UsersInner::<P>::resolve_user_id,
            (&state.users, &WireIdentifier::String(name)),
            found,
        ),
        call_ensures(
            resolve_gate_user::<P>,
            (&state, &WireIdentifier::String(name)),
            gate_found,
        ),
    ensures
        gate_found == found,
        found == Some(id) <==> {
            &&& id < state.users.items@.len()
            &&& state.users.items@[id as int] matches Some(user) && user.username@ == name@
            &&& forall|lower: int|
                0 <= lower < id ==> (#[trigger] state.users.items@[lower] matches Some(other)
                    ==> other.username@ != name@)
        },
        found is None <==> forall|any: int|
            0 <= any < state.users.items@.len() ==> (
            #[trigger] state.users.items@[any] matches Some(user) ==> user.username@ != name@),
{
    let items = state.users.items;
    assert(items@.len() == items.len());
    name_finds_the_first_user_who_bears_it(items@, name, id);
}

/// A topic is resolved by its number to that slot of its stream, if both are
/// occupied.
pub proof fn topic_is_resolved_by_its_number(
    streams: StreamsInner,
    stream_id: usize,
    number: u32,
    found: Option<usize>,
)
    requires
        call_ensures(
            resolve_topic_id,
            (&streams, stream_id, &WireIdentifier::Numeric(number)),
            found,
        ),
    ensures
        found is Some <==> stream_id < streams.items@.len() && (streams.items@[stream_id as int]
            matches Some(stream) && number < stream.topics@.len() && stream.topics@[number as int]
            is Some),
        found matches Some(id) ==> id == number,
{
    number_finds_the_topic_in_its_slot(streams, stream_id, number);
}

/// A topic is resolved by its name to the first slot of its stream whose topic
/// bears it, and in a stream that is not there to nothing.
pub proof fn topic_is_resolved_by_its_name(
    streams: StreamsInner,
    stream_id: usize,
    name: String,
    id: usize,
    found: Option<usize>,
)
    requires
        call_ensures(
            resolve_topic_id,
            (&streams, stream_id, &WireIdentifier::String(name)),
            found,
        ),
    ensures
        stream_id >= streams.items@.len() || streams.items@[stream_id as int] is None ==> found
            is None,
        stream_id < streams.items@.len() ==> (streams.items@[stream_id as int] matches Some(stream)
            ==> {
            &&& found == Some(id) <==> {
                &&& id < stream.topics@.len()
                &&& stream.topics@[id as int] matches Some(topic) && topic.name@ == name@
                &&& forall|lower: int|
                    0 <= lower < id ==> (#[trigger] stream.topics@[lower] matches Some(other)
                        ==> other.name@ != name@)
            }
            &&& found is None <==> forall|any: int|
                0 <= any < stream.topics@.len() ==> (#[trigger] stream.topics@[any] matches Some(
                    topic,
                ) ==> topic.name@ != name@)
        }),
{
    name_finds_the_first_topic_that_bears_it(streams, stream_id, name, id);
}

/// A pair resolves to what its stream resolves to, with what its topic resolves
/// to there, and misses where either does.
pub proof fn pair_is_resolved_one_after_the_other<P>(
    state: HttpInner<P>,
    stream: WireIdentifier,
    topic: WireIdentifier,
    found_stream: Option<usize>,
    found_topic: Option<usize>,
    found: Option<(usize, usize)>,
    gate_found: Option<(usize, usize)>,
)
    requires
        call_ensures(resolve_stream_id, (&state.streams, &stream), found_stream),
        found_stream matches Some(stream_id) ==> call_ensures(
            resolve_topic_id,
            (&state.streams, stream_id, &topic),
            found_topic,
        ),
        call_ensures(resolve_topic_ids, (&state.streams, &stream, &topic), found),
        call_ensures(resolve_gate_topic::<P>, (&state, &stream, &topic), gate_found),
    ensures
        gate_found == found,
        found is Some <==> found_stream is Some && found_topic is Some,
        found matches Some(ids) ==> found_stream == Some(ids.0) && found_topic == Some(ids.1),
{
}

/// A pair of numbers resolves to those slots, if a topic stands there.
pub proof fn pair_of_numbers_is_resolved_to_its_slots(
    streams: StreamsInner,
    stream: u32,
    topic: u32,
    found: Option<(usize, usize)>,
)
    requires
        call_ensures(
            resolve_topic_ids,
            (&streams, &WireIdentifier::Numeric(stream), &WireIdentifier::Numeric(topic)),
            found,
        ),
    ensures
        found is Some <==> stream < streams.items@.len() && (streams.items@[stream as int]
            matches Some(held) && topic < held.topics@.len() && held.topics@[topic as int] is Some),
        found matches Some(ids) ==> ids.0 == stream && ids.1 == topic,
{
    committed_topic_is_found_by_its_numbers(streams, stream, topic);
}

/// Whatever a pair resolves to is a topic that stands there.
pub proof fn resolved_pair_has_its_topic(
    streams: StreamsInner,
    stream: WireIdentifier,
    topic: WireIdentifier,
    ids: (usize, usize),
    held: Option<&Topic>,
)
    requires
        call_ensures(resolve_topic_ids, (&streams, &stream, &topic), Some(ids)),
        call_ensures(StreamsInner::topic, (&streams, ids.0, ids.1), held),
    ensures
        held is Some,
{
    resolved_topic_is_committed(streams, stream, topic);
}

/// Two domain identifiers that convert resolve to what their wire forms
/// resolve to.
pub proof fn converted_pair_is_resolved_as_its_wire_forms<
    P,
    I,
    X,
    W: Fn(&I) -> Result<WireIdentifier, X>,
>(
    state: HttpInner<P>,
    stream_id: &I,
    topic_id: &I,
    identifier_to_wire: W,
    stream: WireIdentifier,
    topic: WireIdentifier,
    found: Option<(usize, usize)>,
    wire_found: Option<(usize, usize)>,
)
    requires
        forall|outcome: Result<WireIdentifier, X>|
            call_ensures(identifier_to_wire, (stream_id,), outcome) ==> outcome == Ok::<_, X>(
                stream,
            ),
        forall|outcome: Result<WireIdentifier, X>|
            call_ensures(identifier_to_wire, (topic_id,), outcome) ==> outcome == Ok::<_, X>(topic),
        call_ensures(
            resolve_gate_topic_ids::<P, I, X, W>,
            (&state, stream_id, topic_id, identifier_to_wire),
            found,
        ),
        call_ensures(resolve_topic_ids, (&state.streams, &stream, &topic), wire_found),
    ensures
        found == wire_found,
{
}

/// Where either of two domain identifiers does not convert, they resolve to
/// nothing.
pub proof fn pair_that_does_not_convert_is_a_miss<
    P,
    I,
    X,
    W: Fn(&I) -> Result<WireIdentifier, X>,
>(
    state: HttpInner<P>,
    stream_id: &I,
    topic_id: &I,
    identifier_to_wire: W,
    found: Option<(usize, usize)>,
)
    requires
        (forall|outcome: Result<WireIdentifier, X>|
            call_ensures(identifier_to_wire, (stream_id,), outcome) ==> outcome is Err) || (forall|
            outcome: Result<WireIdentifier, X>,
        |
            call_ensures(identifier_to_wire, (topic_id,), outcome) ==> outcome is Err),
        call_ensures(
            resolve_gate_topic_ids::<P, I, X, W>,
            (&state, stream_id, topic_id, identifier_to_wire),
            found,
        ),
    ensures
        found is None,
{
}

/// A caller whom the rule never denies passes the check of any read that may be
/// served here.
pub proof fn permitted_caller_is_authorized<
    P,
    E,
    R: Fn(&P, u32) -> Result<(), E>,
    N: Fn(&String, ClientIp) -> ReadError<E>,
>(
    state: HttpInner<P>,
    identity: Identity,
    consistency: Consistency,
    rule: R,
    not_primary_read_error: N,
    result: Result<(), ReadError<E>>,
)
    requires
        forall|verdict: Result<(), E>|
            call_ensures(rule, (&state.users.permissioner, identity.user_id), verdict)
                ==> verdict is Ok,
        consistency != Consistency::Linearizable || state.metadata_primary,
        call_ensures(
            authorize_read::<P, E, R, N>,
            (&state, &identity, consistency, &rule, &not_primary_read_error),
            result,
        ),
    ensures
        result == Ok::<(), ReadError<E>>(()),
{
    permitted_read_passes_the_check(
        state,
        identity,
        consistency,
        rule,
        not_primary_read_error,
        result,
    );
}

/// A caller passes the check only where the rule permits, and a linearizable
/// read only on the primary; what is answered otherwise is the rule's denial,
/// or, to a permitted linearizable read on a follower, what is made of the
/// request there.
pub proof fn authorization_has_its_cause<
    P,
    E,
    R: Fn(&P, u32) -> Result<(), E>,
    N: Fn(&String, ClientIp) -> ReadError<E>,
>(
    state: HttpInner<P>,
    identity: Identity,
    consistency: Consistency,
    rule: R,
    not_primary_read_error: N,
    result: Result<(), ReadError<E>>,
)
    requires
        call_ensures(
            authorize_read::<P, E, R, N>,
            (&state, &identity, consistency, &rule, &not_primary_read_error),
            result,
        ),
    ensures
        result is Ok ==> {
            &&& call_ensures(
                rule,
                (&state.users.permissioner, identity.user_id),
                Ok::<(), E>(()),
            )
            &&& consistency == Consistency::Linearizable ==> state.metadata_primary
        },
        result matches Err(answer) ==> {
            ||| (answer matches ReadError::Rejected(denial) && call_ensures(
                rule,
                (&state.users.permissioner, identity.user_id),
                Err::<(), E>(denial),
            ))
            ||| {
                &&& consistency == Consistency::Linearizable
                &&& !state.metadata_primary
                &&& call_ensures(
                    rule,
                    (&state.users.permissioner, identity.user_id),
                    Ok::<(), E>(()),
                )
                &&& call_ensures(
                    not_primary_read_error,
                    (&identity.path_and_query, identity.client_ip),
                    answer,
                )
            }
        },
{
    answer_of_the_check_has_its_cause(
        state,
        identity,
        consistency,
        rule,
        not_primary_read_error,
        result,
    );
}

/// A write is answered by the rule on the topic that its identifiers resolve
/// to, whichever topic that is, and passes where they resolve to none.
pub proof fn write_is_answered_by_the_rule_on_its_topic<
    P,
    E,
    I,
    X,
    W: Fn(&I) -> Result<WireIdentifier, X>,
    R: FnOnce(&P, u32, usize, usize) -> Result<(), E>,
>(
    state: HttpInner<P>,
    user_id: u32,
    stream_id: &I,
    topic_id: &I,
    identifier_to_wire: W,
    rule: R,
    stream: WireIdentifier,
    topic: WireIdentifier,
    found: Option<(usize, usize)>,
    result: Result<(), E>,
)
    requires
        forall|outcome: Result<WireIdentifier, X>|
            call_ensures(identifier_to_wire, (stream_id,), outcome) ==> outcome == Ok::<_, X>(
                stream,
            ),
        forall|outcome: Result<WireIdentifier, X>|
            call_ensures(identifier_to_wire, (topic_id,), outcome) ==> outcome == Ok::<_, X>(topic),
        call_ensures(resolve_topic_ids, (&state.streams, &stream, &topic), found),
        call_ensures(
            authorize_data_plane::<P, E, I, X, W, R>,
            (&state, user_id, stream_id, topic_id, identifier_to_wire, rule),
            result,
        ),
    ensures
        found matches Some(ids) ==> call_ensures(
            rule,
            (&state.users.permissioner, user_id, ids.0, ids.1),
            result,
        ),
        found is None ==> result == Ok::<(), E>(()),
{
}

/// A write of which either identifier does not convert passes on.
pub proof fn write_that_does_not_convert_passes_on<
    P,
    E,
    I,
    X,
    W: Fn(&I) -> Result<WireIdentifier, X>,
    R: FnOnce(&P, u32, usize, usize) -> Result<(), E>,
>(
    state: HttpInner<P>,
    user_id: u32,
    stream_id: &I,
    topic_id: &I,
    identifier_to_wire: W,
    rule: R,
    result: Result<(), E>,
)
    requires
        (forall|outcome: Result<WireIdentifier, X>|
            call_ensures(identifier_to_wire, (stream_id,), outcome) ==> outcome is Err) || (forall|
            outcome: Result<WireIdentifier, X>,
        |
            call_ensures(identifier_to_wire, (topic_id,), outcome) ==> outcome is Err),
        call_ensures(
            authorize_data_plane::<P, E, I, X, W, R>,
            (&state, user_id, stream_id, topic_id, identifier_to_wire, rule),
            result,
        ),
    ensures
        result == Ok::<(), E>(()),
{
}

/// Past the barrier, a read is decided as its check decides it, and held only
/// and always if it passes the check and its code is one that is held.
pub proof fn step_past_the_barrier_is_that_of_the_check<
    P,
    E,
    R: Fn(&P, u32) -> Result<(), E>,
    N: Fn(&String, ClientIp) -> ReadError<E>,
>(
    state: HttpInner<P>,
    identity: Identity,
    consistency: Consistency,
    code: ReadCode,
    rule: R,
    not_primary_read_error: N,
    step: GateStep<E>,
)
    requires
        call_ensures(
            gate_after_barrier::<P, E, R, N>,
            (
                Ok::<(), ReadError<E>>(()),
                &state,
                &identity,
                consistency,
                code,
                &rule,
                &not_primary_read_error,
            ),
            step,
        ),
    ensures
        step is AwaitFrontier || step == GateStep::Finish(Ok::<(), ReadError<E>>(())) ==> {
            &&& call_ensures(
                rule,
                (&state.users.permissioner, identity.user_id),
                Ok::<(), E>(()),
            )
            &&& consistency == Consistency::Linearizable ==> state.metadata_primary
        },
        step is AwaitFrontier ==> !(code is DescribeOptions) && !(
        code matches ReadCode::Dispatched { code: _, frontier_exempt } && frontier_exempt),
        step == GateStep::Finish(Ok::<(), ReadError<E>>(())) ==> code is DescribeOptions || (
        code matches ReadCode::Dispatched { code: _, frontier_exempt } && frontier_exempt),
        step matches GateStep::Finish(Err(answer)) ==> {
            ||| (answer matches ReadError::Rejected(denial) && call_ensures(
                rule,
                (&state.users.permissioner, identity.user_id),
                Err::<(), E>(denial),
            ))
            ||| {
                &&& consistency == Consistency::Linearizable
                &&& !state.metadata_primary
                &&& call_ensures(
                    rule,
                    (&state.users.permissioner, identity.user_id),
                    Ok::<(), E>(()),
                )
                &&& call_ensures(
                    not_primary_read_error,
                    (&identity.path_and_query, identity.client_ip),
                    answer,
                )
            }
        },
{
    step_after_the_barrier_has_its_cause(
        state,
        identity,
        consistency,
        code,
        rule,
        not_primary_read_error,
        step,
    );
}

/// Past the barrier, a permitted read that may be served here is never refused:
/// it is held if its code is one that is held, and served otherwise.
pub proof fn permitted_read_is_held_or_served<
    P,
    E,
    R: Fn(&P, u32) -> Result<(), E>,
    N: Fn(&String, ClientIp) -> ReadError<E>,
>(
    state: HttpInner<P>,
    identity: Identity,
    consistency: Consistency,
    code: ReadCode,
    needed: bool,
    rule: R,
    not_primary_read_error: N,
    step: GateStep<E>,
)
    requires
        forall|verdict: Result<(), E>|
            call_ensures(rule, (&state.users.permissioner, identity.user_id), verdict)
                ==> verdict is Ok,
        consistency != Consistency::Linearizable || state.metadata_primary,
        call_ensures(read_needs_metadata_frontier, (code,), needed),
        call_ensures(
            gate_after_barrier::<P, E, R, N>,
            (
                Ok::<(), ReadError<E>>(()),
                &state,
                &identity,
                consistency,
                code,
                &rule,
                &not_primary_read_error,
            ),
            step,
        ),
    ensures
        step == (if needed {
            GateStep::AwaitFrontier
        } else {
            GateStep::Finish(Ok::<(), ReadError<E>>(()))
        }),
{
    permitted_read_goes_on_from_the_barrier(
        state,
        identity,
        consistency,
        code,
        rule,
        not_primary_read_error,
        step,
    );
}

/// A read that the barrier refused is answered with that refusal.
pub proof fn read_refused_at_the_barrier_keeps_its_refusal<
    P,
    E,
    R: Fn(&P, u32) -> Result<(), E>,
    N: Fn(&String, ClientIp) -> ReadError<E>,
>(
    refusal: ReadError<E>,
    state: HttpInner<P>,
    identity: Identity,
    consistency: Consistency,
    code: ReadCode,
    rule: R,
    not_primary_read_error: N,
    step: GateStep<E>,
)
    requires
        call_ensures(
            gate_after_barrier::<P, E, R, N>,
            (
                Err::<(), _>(refusal),
                &state,
                &identity,
                consistency,
                code,
                &rule,
                &not_primary_read_error,
            ),
            step,
        ),
    ensures
        step == GateStep::Finish(Err::<(), _>(refusal)),
{
}

/// After the hold, a refusal stands, a read that did not park goes on, and one
/// that did is let on only where a check of the node as it is now lets it.
pub proof fn step_past_the_hold_is_that_of_the_hold<
    P,
    E,
    R: Fn(&P, u32) -> Result<(), E>,
    N: Fn(&String, ClientIp) -> ReadError<E>,
>(
    frontier: Result<FrontierWait, ReadError<E>>,
    state: HttpInner<P>,
    identity: Identity,
    consistency: Consistency,
    rule: R,
    not_primary_read_error: N,
    result: Result<(), ReadError<E>>,
)
    requires
        call_ensures(
            gate_after_frontier::<P, E, R, N>,
            (frontier, &state, &identity, consistency, &rule, &not_primary_read_error),
            result,
        ),
    ensures
        frontier matches Err(refusal) ==> result == Err::<(), _>(refusal),
        frontier matches Ok(FrontierWait::Ready) ==> result == Ok::<(), ReadError<E>>(()),
        frontier matches Ok(FrontierWait::CaughtUp) ==> {
            &&& result is Ok ==> {
                &&& call_ensures(
                    rule,
                    (&state.users.permissioner, identity.user_id),
                    Ok::<(), E>(()),
                )
                &&& consistency == Consistency::Linearizable ==> state.metadata_primary
            }
            &&& result matches Err(answer) ==> {
                ||| (answer matches ReadError::Rejected(denial) && call_ensures(
                    rule,
                    (&state.users.permissioner, identity.user_id),
                    Err::<(), E>(denial),
                ))
                ||| {
                    &&& consistency == Consistency::Linearizable
                    &&& !state.metadata_primary
                    &&& call_ensures(
                        rule,
                        (&state.users.permissioner, identity.user_id),
                        Ok::<(), E>(()),
                    )
                    &&& call_ensures(
                        not_primary_read_error,
                        (&identity.path_and_query, identity.client_ip),
                        answer,
                    )
                }
            }
        },
{
    step_after_the_hold_goes_by_the_hold(
        frontier,
        state,
        identity,
        consistency,
        rule,
        not_primary_read_error,
        result,
    );
}

/// Clients are gathered only for the statistics, and only past the gates.
pub proof fn clients_are_gathered_for_the_statistics_alone<E>(
    gate: Result<(), ReadError<E>>,
    code: ReadCode,
    needed: bool,
)
    requires
        call_ensures(needs_client_gather::<E>, (&gate, code), needed),
    ensures
        needed <==> gate is Ok && code == ReadCode::GetStats,
{
}

/// The statistics count every client, up to what the count can hold, and other
/// reads none.
pub proof fn statistics_count_every_client(code: ReadCode, connected: usize, count: u32)
    requires
        call_ensures(clients_count, (code, connected), count),
    ensures
        code != ReadCode::GetStats ==> count == 0,
        code == ReadCode::GetStats && connected <= u32::MAX ==> count == connected,
        code == ReadCode::GetStats && connected > u32::MAX ==> count == u32::MAX,
{
}

/// A body is handed on as it is, an absent entity is not found, and an error
/// rejects.
pub proof fn reply_hands_on_what_was_found<E>(
    response: Result<NonReplicatedResponse, E>,
    reply: Result<Bytes, ReadError<E>>,
)
    requires
        call_ensures(read_reply::<E>, (response,), reply),
    ensures
        response matches Ok(NonReplicatedResponse::Bytes(body)) ==> reply == Ok::<
            Bytes,
            ReadError<E>,
        >(body),
        response matches Ok(NonReplicatedResponse::Empty) ==> reply == Err::<Bytes, _>(
            ReadError::<E>::NotFound,
        ),
        response matches Err(error) ==> reply == Err::<Bytes, _>(ReadError::Rejected(error)),
{
}

/// A local read that the gates refused keeps the refusal; any other is the
/// reply to what the builder makes of the caller's own query.
pub proof fn local_read_is_the_reply_to_the_callers_query<
    'a,
    E,
    B: FnOnce(ResponseQuery<'a>) -> Result<NonReplicatedResponse, E>,
>(
    gate: Result<(), ReadError<E>>,
    identity: Identity,
    code: ReadCode,
    body: &'a [u8],
    connected: usize,
    count: u32,
    build_non_replicated_response: B,
    response: Result<NonReplicatedResponse, E>,
    reply: Result<Bytes, ReadError<E>>,
    query: ResponseQuery<'a>,
    result: Result<Bytes, ReadError<E>>,
)
    requires
        call_ensures(clients_count, (code, connected), count),
        query.code == code,
        query.body == body,
        query.user_id == Some(identity.user_id),
        query.client_ip == identity.client_ip,
        query.clients_count == count,
        forall|answer: Result<NonReplicatedResponse, E>|
            call_ensures(build_non_replicated_response, (query,), answer) ==> answer == response,
        call_ensures(read_reply::<E>, (response,), reply),
        call_ensures(
            read_local::<E, B>,
            (gate, &identity, code, body, connected, build_non_replicated_response),
            result,
        ),
    ensures
        gate matches Err(refusal) ==> result == Err::<Bytes, _>(refusal),
        gate is Ok ==> result == reply,
{
    local_read_is_answered_as_built(
        gate,
        identity,
        code,
        body,
        connected,
        build_non_replicated_response,
        response,
        query,
        result,
    );
}

/// Something is captured exactly for a request that resolves to a topic with a
/// partition, whichever way the request names it, and it is that topic's ids
/// and incarnation.
pub proof fn capture_is_of_the_topic_that_is_resolved<X, D: Fn(&str) -> Result<Durability, X>>(
    streams: StreamsInner,
    stream: WireIdentifier,
    topic: WireIdentifier,
    parse_durability: D,
    default: Durability,
    ids: Option<(usize, usize)>,
    held: Option<&Topic>,
    found: Option<TopicDurability>,
)
    requires
        call_ensures(resolve_topic_ids, (&streams, &stream, &topic), ids),
        ids matches Some(pair) ==> call_ensures(
            StreamsInner::topic,
            (&streams, pair.0, pair.1),
            held,
        ),
        call_ensures(
            topic_durability_in::<X, D>,
            (&streams, stream, topic, &parse_durability, default),
            found,
        ),
    ensures
        found is Some <==> ids is Some && held->0.partitions@.len() > 0,
        found matches Some(capture) ==> {
            &&& capture.requested_stream == stream
            &&& capture.requested_topic == topic
            &&& ids == Some((capture.stream_id, capture.topic_id))
            &&& capture.created_revision == held->0.partitions@[0].created_revision
        },
{
    capture_is_owed_to_every_topic_with_a_partition(
        streams,
        stream,
        topic,
        parse_durability,
        default,
        found,
    );
    resolved_topic_is_committed(streams, stream, topic);
}

/// What is captured has the policy that the topic's durability option spells,
/// and the default where there is none, or none that is known.
pub proof fn capture_has_the_policy_of_its_topic<X, D: Fn(&str) -> Result<Durability, X>>(
    streams: StreamsInner,
    stream: WireIdentifier,
    topic: WireIdentifier,
    parse_durability: D,
    default: Durability,
    ids: (usize, usize),
    held: &Topic,
    known: spec_fn(Seq<u8>) -> Option<Durability>,
    capture: TopicDurability,
)
    requires
        call_ensures(resolve_topic_ids, (&streams, &stream, &topic), Some(ids)),
        call_ensures(StreamsInner::topic, (&streams, ids.0, ids.1), Some(held)),
        forall|text: &str, answer: Result<Durability, X>| #[trigger]
            call_ensures(parse_durability, (text,), answer) ==> known(encode_utf8(text@)) == (
            match answer {
                Ok(durability) => Some(durability),
                Err(_) => None,
            }),
        call_ensures(
            topic_durability_in::<X, D>,
            (&streams, stream, topic, &parse_durability, default),
            Some(capture),
        ),
    ensures
        (forall|i: int|
            0 <= i < held.options@.len() ==> (#[trigger] held.options@[i]).key@ != "durability"@)
            ==> capture.durability == default,
        forall|first: int|
            0 <= first < held.options@.len() && (#[trigger] held.options@[first]).key@
                == "durability"@ && (forall|lower: int|
                0 <= lower < first ==> (#[trigger] held.options@[lower]).key@ != "durability"@)
                ==> capture.durability == (if valid_utf8(held.options@[first].value@)
                && known(held.options@[first].value@) is Some {
                known(held.options@[first].value@)->0
            } else {
                default
            }),
{
    found_topic_is_captured_as_it_stands(
        streams,
        stream,
        topic,
        parse_durability,
        default,
        Some(capture),
        ids.0,
        ids.1,
        streams.items@[ids.0 as int]->0,
        *held,
    );
    if forall|i: int|
        0 <= i < held.options@.len() ==> (#[trigger] held.options@[i]).key@ != "durability"@ {
        topic_without_the_option_has_the_default(
            *held,
            parse_durability,
            default,
            capture.durability,
        );
    }
    assert forall|first: int|
        0 <= first < held.options@.len() && (#[trigger] held.options@[first]).key@ == "durability"@
            && (forall|lower: int|
            0 <= lower < first ==> (#[trigger] held.options@[lower]).key@
                != "durability"@) implies capture.durability == (if valid_utf8(
        held.options@[first].value@,
    ) && known(held.options@[first].value@) is Some {
        known(held.options@[first].value@)->0
    } else {
        default
    }) by {
        topic_has_the_policy_its_option_spells(
            *held,
            parse_durability,
            default,
            capture.durability,
            first,
            known,
        );
    }
}

/// A topic is captured by its numbers exactly if it stands in those slots with
/// a partition.
pub proof fn numbers_capture_the_topic_in_their_slots<X, D: Fn(&str) -> Result<Durability, X>>(
    streams: StreamsInner,
    stream: u32,
    topic: u32,
    parse_durability: D,
    default: Durability,
    found: Option<TopicDurability>,
)
    requires
        call_ensures(
            topic_durability_in::<X, D>,
            (
                &streams,
                WireIdentifier::Numeric(stream),
                WireIdentifier::Numeric(topic),
                &parse_durability,
                default,
            ),
            found,
        ),
    ensures
        found is Some <==> stream < streams.items@.len() && (streams.items@[stream as int]
            matches Some(holder) && topic < holder.topics@.len() && (holder.topics@[topic as int]
            matches Some(held) && held.partitions@.len() > 0)),
        found matches Some(capture) ==> {
            &&& capture.stream_id == stream
            &&& capture.topic_id == topic
            &&& capture.created_revision
                == streams.items@[stream as int]->0.topics@[topic as int]->0.partitions@[0].created_revision
        },
{
    topic_is_captured_by_its_numbers(streams, stream, topic, parse_durability, default, found);
}

/// A topic is captured by its names exactly if the first that bears them has a
/// partition.
pub proof fn names_capture_the_first_topic_that_bears_them<
    X,
    D: Fn(&str) -> Result<Durability, X>,
>(
    streams: StreamsInner,
    stream: String,
    topic: String,
    parse_durability: D,
    default: Durability,
    found: Option<TopicDurability>,
    stream_id: usize,
    topic_id: usize,
    holder: Stream,
    held: Topic,
)
    requires
        stream_id < streams.items@.len(),
        streams.items@[stream_id as int] == Some(holder),
        holder.name@ == stream@,
        forall|lower: int|
            0 <= lower < stream_id ==> (#[trigger] streams.items@[lower] matches Some(other)
                ==> other.name@ != stream@),
        topic_id < holder.topics@.len(),
        holder.topics@[topic_id as int] == Some(held),
        held.name@ == topic@,
        forall|lower: int|
            0 <= lower < topic_id ==> (#[trigger] holder.topics@[lower] matches Some(other)
                ==> other.name@ != topic@),
        call_ensures(
            topic_durability_in::<X, D>,
            (
                &streams,
                WireIdentifier::String(stream),
                WireIdentifier::String(topic),
                &parse_durability,
                default,
            ),
            found,
        ),
    ensures
        found is Some <==> held.partitions@.len() > 0,
        found matches Some(capture) ==> {
            &&& capture.stream_id == stream_id
            &&& capture.topic_id == topic_id
            &&& capture.created_revision == held.partitions@[0].created_revision
        },
{
    topic_is_captured_by_its_names(
        streams,
        stream,
        topic,
        parse_durability,
        default,
        found,
        stream_id,
        topic_id,
        holder,
        held,
    );
}

/// Two requests that resolve alike capture the same ids, the same incarnation
/// and the same policy, by whatever identifiers they name the topic.
pub proof fn capture_does_not_depend_on_the_naming<X, D: Fn(&str) -> Result<Durability, X>>(
    streams: StreamsInner,
    stream: WireIdentifier,
    topic: WireIdentifier,
    other_stream: WireIdentifier,
    other_topic: WireIdentifier,
    ids: Option<(usize, usize)>,
    parse_durability: D,
    default: Durability,
    found: Option<TopicDurability>,
    other_found: Option<TopicDurability>,
)
    requires
        call_ensures(resolve_topic_ids, (&streams, &stream, &topic), ids),
        call_ensures(resolve_topic_ids, (&streams, &other_stream, &other_topic), ids),
        forall|
            text: &str,
            twin: &str,
            answer: Result<Durability, X>,
            twin_answer: Result<Durability, X>,
        |
            {
                &&& encode_utf8(text@) == encode_utf8(twin@)
                &&& #[trigger] call_ensures(parse_durability, (text,), answer)
                &&& #[trigger] call_ensures(parse_durability, (twin,), twin_answer)
            } ==> answer == twin_answer,
        call_ensures(
            topic_durability_in::<X, D>,
            (&streams, stream, topic, &parse_durability, default),
            found,
        ),
        call_ensures(
            topic_durability_in::<X, D>,
            (&streams, other_stream, other_topic, &parse_durability, default),
            other_found,
        ),
    ensures
        found is Some <==> other_found is Some,
        found matches Some(capture) ==> {
            &&& capture.stream_id == other_found->0.stream_id
            &&& capture.topic_id == other_found->0.topic_id
            &&& capture.created_revision == other_found->0.created_revision
            &&& capture.durability == other_found->0.durability
        },
{
    requests_for_one_topic_capture_the_same(
        streams,
        stream,
        topic,
        other_stream,
        other_topic,
        parse_durability,
        default,
        found,
        other_found,
    );
}

/// Two domain identifiers that convert capture the topic with a partition that
/// their wire forms resolve to, and nothing where there is none.
pub proof fn converted_pair_captures_the_topic_it_names<
    P,
    I,
    X,
    Y,
    W: Fn(&I) -> Result<WireIdentifier, X>,
    D: Fn(&str) -> Result<Durability, Y>,
>(
    state: HttpInner<P>,
    stream: &I,
    topic: &I,
    identifier_to_wire: W,
    parse_durability: D,
    default: Durability,
    wire_stream: WireIdentifier,
    wire_topic: WireIdentifier,
    ids: Option<(usize, usize)>,
    held: Option<&Topic>,
    found: Option<TopicDurability>,
)
    requires
        forall|outcome: Result<WireIdentifier, X>|
            call_ensures(identifier_to_wire, (stream,), outcome) ==> outcome == Ok::<_, X>(
                wire_stream,
            ),
        forall|outcome: Result<WireIdentifier, X>|
            call_ensures(identifier_to_wire, (topic,), outcome) ==> outcome == Ok::<_, X>(
                wire_topic,
            ),
        call_ensures(resolve_topic_ids, (&state.streams, &wire_stream, &wire_topic), ids),
        ids matches Some(pair) ==> call_ensures(
            StreamsInner::topic,
            (&state.streams, pair.0, pair.1),
            held,
        ),
        call_ensures(
            topic_durability::<P, I, X, Y, W, D>,
            (&state, stream, topic, identifier_to_wire, &parse_durability, default),
            found,
        ),
    ensures
        found is Some <==> ids is Some && held->0.partitions@.len() > 0,
        found matches Some(capture) ==> {
            &&& capture.requested_stream == wire_stream
            &&& capture.requested_topic == wire_topic
            &&& ids == Some((capture.stream_id, capture.topic_id))
            &&& capture.created_revision == held->0.partitions@[0].created_revision
        },
{
    capture_is_owed_to_every_topic_with_a_partition(
        state.streams,
        wire_stream,
        wire_topic,
        parse_durability,
        default,
        found,
    );
    resolved_topic_is_committed(state.streams, wire_stream, wire_topic);
}

/// What two domain identifiers that convert capture has the policy that the
/// topic's durability option spells, and the default where there is none, or
/// none that is known.
pub proof fn converted_pair_captures_the_policy_of_its_topic<
    P,
    I,
    X,
    Y,
    W: Fn(&I) -> Result<WireIdentifier, X>,
    D: Fn(&str) -> Result<Durability, Y>,
>(
    state: HttpInner<P>,
    stream: &I,
    topic: &I,
    identifier_to_wire: W,
    parse_durability: D,
    default: Durability,
    wire_stream: WireIdentifier,
    wire_topic: WireIdentifier,
    ids: (usize, usize),
    held: &Topic,
    known: spec_fn(Seq<u8>) -> Option<Durability>,
    capture: TopicDurability,
)
    requires
        forall|outcome: Result<WireIdentifier, X>|
            call_ensures(identifier_to_wire, (stream,), outcome) ==> outcome == Ok::<_, X>(
                wire_stream,
            ),
        forall|outcome: Result<WireIdentifier, X>|
            call_ensures(identifier_to_wire, (topic,), outcome) ==> outcome == Ok::<_, X>(
                wire_topic,
            ),
        call_ensures(resolve_topic_ids, (&state.streams, &wire_stream, &wire_topic), Some(ids)),
        call_ensures(StreamsInner::topic, (&state.streams, ids.0, ids.1), Some(held)),
        forall|text: &str, answer: Result<Durability, Y>| #[trigger]
            call_ensures(parse_durability, (text,), answer) ==> known(encode_utf8(text@)) == (
            match answer {
                Ok(durability) => Some(durability),
                Err(_) => None,
            }),
        call_ensures(
            topic_durability::<P, I, X, Y, W, D>,
            (&state, stream, topic, identifier_to_wire, &parse_durability, default),
            Some(capture),
        ),
    ensures
        (forall|i: int|
            0 <= i < held.options@.len() ==> (#[trigger] held.options@[i]).key@ != "durability"@)
            ==> capture.durability == default,
        forall|first: int|
            0 <= first < held.options@.len() && (#[trigger] held.options@[first]).key@
                == "durability"@ && (forall|lower: int|
                0 <= lower < first ==> (#[trigger] held.options@[lower]).key@ != "durability"@)
                ==> capture.durability == (if valid_utf8(held.options@[first].value@)
                && known(held.options@[first].value@) is Some {
                known(held.options@[first].value@)->0
            } else {
                default
            }),
{
    found_topic_is_captured_as_it_stands(
        state.streams,
        wire_stream,
        wire_topic,
        parse_durability,
        default,
        Some(capture),
        ids.0,
        ids.1,
        state.streams.items@[ids.0 as int]->0,
        *held,
    );
    if forall|i: int|
        0 <= i < held.options@.len() ==> (#[trigger] held.options@[i]).key@ != "durability"@ {
        topic_without_the_option_has_the_default(
            *held,
            parse_durability,
            default,
            capture.durability,
        );
    }
    assert forall|first: int|
        0 <= first < held.options@.len() && (#[trigger] held.options@[first]).key@ == "durability"@
            && (forall|lower: int|
            0 <= lower < first ==> (#[trigger] held.options@[lower]).key@
                != "durability"@) implies capture.durability == (if valid_utf8(
        held.options@[first].value@,
    ) && known(held.options@[first].value@) is Some {
        known(held.options@[first].value@)->0
    } else {
        default
    }) by {
        topic_has_the_policy_its_option_spells(
            *held,
            parse_durability,
            default,
            capture.durability,
            first,
            known,
        );
    }
}

/// Where either of two domain identifiers does not convert, nothing is captured.
pub proof fn unconverted_pair_captures_nothing<
    P,
    I,
    X,
    Y,
    W: Fn(&I) -> Result<WireIdentifier, X>,
    D: Fn(&str) -> Result<Durability, Y>,
>(
    state: HttpInner<P>,
    stream: &I,
    topic: &I,
    identifier_to_wire: W,
    parse_durability: D,
    default: Durability,
    found: Option<TopicDurability>,
)
    requires
        (forall|outcome: Result<WireIdentifier, X>|
            call_ensures(identifier_to_wire, (stream,), outcome) ==> outcome is Err) || (forall|
            outcome: Result<WireIdentifier, X>,
        |
            call_ensures(identifier_to_wire, (topic,), outcome) ==> outcome is Err),
        call_ensures(
            topic_durability::<P, I, X, Y, W, D>,
            (&state, stream, topic, identifier_to_wire, &parse_durability, default),
            found,
        ),
    ensures
        found is None,
{
}

/// The captured policy is attested exactly while the captured topic stands in
/// its slot with the captured revision, and the request resolves to it or to
/// nothing; otherwise no more than replication is.
pub proof fn captured_policy_is_attested_while_its_topic_stands<P>(
    capture: TopicDurability,
    state: HttpInner<P>,
    held: Option<&Topic>,
    ids: Option<(usize, usize)>,
    policy: Durability,
    policy_in: Durability,
)
    requires
        call_ensures(
            StreamsInner::topic,
            (&state.streams, capture.stream_id, capture.topic_id),
            held,
        ),
        call_ensures(
            resolve_topic_ids,
            (&state.streams, &capture.requested_stream, &capture.requested_topic),
            ids,
        ),
        call_ensures(TopicDurability::confirmed_policy::<P>, (&capture, &state), policy),
        call_ensures(
            TopicDurability::confirmed_policy_in,
            (&capture, &state.streams),
            policy_in,
        ),
    ensures
        policy_in == policy,
        policy == (if held is Some && held->0.partitions@.len() > 0
            && held->0.partitions@[0].created_revision == capture.created_revision && (ids is None
            || ids == Some((capture.stream_id, capture.topic_id))) {
            capture.durability
        } else {
            Durability::Replicated
        }),
{
    if let Some(topic) = held {
        policy_is_attested_while_its_topic_stands(
            capture,
            state.streams,
            state.streams.items@[capture.stream_id as int]->0,
            *topic,
        );
    } else {
        topic_that_is_gone_attests_replication(capture, state.streams);
    }
    if let Some(pair) = ids {
        if pair.0 != capture.stream_id || pair.1 != capture.topic_id {
            request_that_leads_elsewhere_attests_replication(
                capture,
                state.streams,
                pair.0,
                pair.1,
            );
        }
    }
}

/// What a request captures, it may attest against the metadata it was captured
/// from.
pub proof fn fresh_capture_is_attested_as_captured<X, D: Fn(&str) -> Result<Durability, X>>(
    streams: StreamsInner,
    stream: WireIdentifier,
    topic: WireIdentifier,
    parse_durability: D,
    default: Durability,
    capture: TopicDurability,
    policy: Durability,
)
    requires
        call_ensures(
            topic_durability_in::<X, D>,
            (&streams, stream, topic, &parse_durability, default),
            Some(capture),
        ),
        call_ensures(TopicDurability::confirmed_policy_in, (&capture, &streams), policy),
    ensures
        policy == capture.durability,
{
}

/// A copy of an identifier is the same number, or the same text.
pub proof fn copied_identifier_is_the_same(identifier: WireIdentifier, copy: WireIdentifier)
    requires
        call_ensures(WireIdentifier::clone, (&identifier,), copy),
    ensures
        identifier matches WireIdentifier::Numeric(number) ==> copy == WireIdentifier::Numeric(
            number,
        ),
        identifier matches WireIdentifier::String(name) ==> (copy matches WireIdentifier::String(
            text,
        ) && text@ == name@),
{
}

/// A copy of a capture is attested as the capture is, against any metadata.
pub proof fn copied_capture_is_attested_alike(
    capture: TopicDurability,
    copy: TopicDurability,
    streams: StreamsInner,
    policy: Durability,
    copied_policy: Durability,
)
    requires
        call_ensures(TopicDurability::clone, (&capture,), copy),
        call_ensures(TopicDurability::confirmed_policy_in, (&capture, &streams), policy),
        call_ensures(TopicDurability::confirmed_policy_in, (&copy, &streams), copied_policy),
    ensures
        copied_policy == policy,
        copy.stream_id == capture.stream_id,
        copy.topic_id == capture.topic_id,
        copy.created_revision == capture.created_revision,
        copy.durability == capture.durability,
{
    copied_capture_confirms_alike(capture, copy, streams);
}

/// A permitted read is served: where the barrier is met, the rule denies the
/// caller neither before the hold nor after it, and the read may be served here
/// both times, the two steps lead to a pass.
pub proof fn permitted_read_is_let_through_both_steps<
    P,
    E,
    R: Fn(&P, u32) -> Result<(), E>,
    N: Fn(&String, ClientIp) -> ReadError<E>,
>(
    before: HttpInner<P>,
    wait: FrontierWait,
    after: HttpInner<P>,
    identity: Identity,
    consistency: Consistency,
    code: ReadCode,
    rule: R,
    not_primary_read_error: N,
    step: GateStep<E>,
    result: Result<(), ReadError<E>>,
)
    requires
        forall|verdict: Result<(), E>|
            call_ensures(rule, (&before.users.permissioner, identity.user_id), verdict)
                ==> verdict is Ok,
        forall|verdict: Result<(), E>|
            call_ensures(rule, (&after.users.permissioner, identity.user_id), verdict)
                ==> verdict is Ok,
        consistency != Consistency::Linearizable || (before.metadata_primary
            && after.metadata_primary),
        call_ensures(
            gate_after_barrier::<P, E, R, N>,
            (
                Ok::<(), ReadError<E>>(()),
                &before,
                &identity,
                consistency,
                code,
                &rule,
                &not_primary_read_error,
            ),
            step,
        ),
        call_ensures(
            gate_after_frontier::<P, E, R, N>,
            (
                Ok::<_, ReadError<E>>(wait),
                &after,
                &identity,
                consistency,
                &rule,
                &not_primary_read_error,
            ),
            result,
        ),
    ensures
        step is AwaitFrontier || step == GateStep::Finish(Ok::<(), ReadError<E>>(())),
        result == Ok::<(), ReadError<E>>(()),
{
    permitted_read_goes_on_from_the_barrier(
        before,
        identity,
        consistency,
        code,
        rule,
        not_primary_read_error,
        step,
    );
    if wait is CaughtUp {
        permitted_read_passes_the_check(
            after,
            identity,
            consistency,
            rule,
            not_primary_read_error,
            result,
        );
    }
}

} // verus!
