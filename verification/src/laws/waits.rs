//! What the two waits of a read owe it.

use crate::barrier::{
    barrier_outcome, recovery_next, recovery_run, RecoveryAction, RecoverySample, RecoveryState,
};
use crate::error::ReadError;
use crate::frontier::{
    frontier_entry, frontier_run, hold_entered, FrontierEntry, FrontierEvent, FrontierHold,
    FrontierWait, HoldAction,
};
use crate::request::Identity;
use vstd::prelude::*;

verus! {

/// A read is let past the barrier exactly when everything up to the barrier is
/// applied; short of that by a single op it is held, or refused once its time
/// is up.
pub proof fn barrier_holds_a_read_down_to_the_last_op(barrier: u64, commit_min: u64, expired: bool)
    ensures
        barrier_outcome(barrier, commit_min, expired) is Ready <==> barrier == 0 || commit_min
            >= barrier,
        barrier_outcome(barrier, commit_min, expired) is Expired <==> commit_min < barrier
            && expired,
        barrier_outcome(barrier, commit_min, expired) is Pending <==> commit_min < barrier
            && !expired,
{
}

/// The first look lets a read on exactly when the barrier is applied, and
/// otherwise has it look again at once, with as much time as the node allows
/// from that moment.
pub proof fn first_look_starts_the_clock<E>(sample: RecoverySample)
    requires
        sample.commit_min < sample.barrier ==> sample.now + sample.recovery_deadline <= u128::MAX,
    ensures
        sample.commit_min >= sample.barrier ==> recovery_next::<E>(
            RecoveryState::Entering,
            Some(sample),
        ) == RecoveryAction::<E>::Finish(Ok(())),
        sample.commit_min < sample.barrier ==> (recovery_next::<E>(
            RecoveryState::Entering,
            Some(sample),
        ) matches RecoveryAction::Poll(RecoveryState::Polling { deadline }) && deadline
            == sample.now + sample.recovery_deadline),
{
}

/// A later look lets a read on exactly when the barrier is applied, refuses it
/// exactly when it is not and the deadline has come, and otherwise has it sleep
/// without moving the deadline.
pub proof fn later_look_keeps_the_clock<E>(deadline: u128, sample: RecoverySample)
    ensures
        ({
            let polling = RecoveryState::Polling { deadline };
            let action = recovery_next::<E>(polling, Some(sample));
            &&& sample.commit_min >= sample.barrier ==> action == RecoveryAction::<E>::Finish(
                Ok(()),
            )
            &&& sample.commit_min < sample.barrier && sample.now >= deadline ==> action
                == RecoveryAction::<E>::Finish(Err(ReadError::RecoveryIncomplete))
            &&& sample.commit_min < sample.barrier && sample.now < deadline ==> action
                == RecoveryAction::<E>::Sleep(polling)
        }),
{
}

/// A node without a consensus group never holds a read.
pub proof fn node_without_consensus_serves_at_once<E>(state: RecoveryState)
    ensures
        recovery_next::<E>(state, None) == RecoveryAction::<E>::Finish(Ok(())),
{
}

/// No look before the `k`-th sees the barrier applied, and none of them but the
/// first comes at the deadline or later.
proof fn lemma_polling_prefix<E>(deadline: u128, later: Seq<RecoverySample>, k: int)
    requires
        0 <= k <= later.len(),
        forall|j: int|
            0 <= j < k ==> (#[trigger] later[j]).commit_min < later[j].barrier && later[j].now
                < deadline,
    ensures
        recovery_run::<E>(RecoveryState::Polling { deadline }, later) == recovery_run::<E>(
            RecoveryState::Polling { deadline },
            later.skip(k),
        ),
    decreases k,
{
    if k == 0 {
        assert(later.skip(0) =~= later);
    } else {
        let rest = later.drop_first();
        assert forall|j: int| 0 <= j < k - 1 implies (#[trigger] rest[j]).commit_min
            < rest[j].barrier && rest[j].now < deadline by {
            assert(rest[j] == later[j + 1]);
        }
        assert(later[0].commit_min < later[0].barrier);
        later_look_keeps_the_clock::<E>(deadline, later[0]);
        lemma_polling_prefix::<E>(deadline, rest, k - 1);
        assert(rest.skip(k - 1) =~= later.skip(k));
    }
}

proof fn lemma_whole_prefix<E>(samples: Seq<RecoverySample>, k: int)
    requires
        0 < k <= samples.len(),
        samples[0].now + samples[0].recovery_deadline <= u128::MAX,
        forall|j: int| 0 <= j < k ==> (#[trigger] samples[j]).commit_min < samples[j].barrier,
        forall|j: int|
            1 <= j < k ==> (#[trigger] samples[j]).now < samples[0].now
                + samples[0].recovery_deadline,
    ensures
        recovery_run::<E>(RecoveryState::Entering, samples) == recovery_run::<E>(
            RecoveryState::Polling {
                deadline: (samples[0].now + samples[0].recovery_deadline) as u128,
            },
            samples.skip(k),
        ),
{
    let deadline = (samples[0].now + samples[0].recovery_deadline) as u128;
    let later = samples.drop_first();
    first_look_starts_the_clock::<E>(samples[0]);
    assert(samples[0].commit_min < samples[0].barrier);
    assert forall|j: int| 0 <= j < k - 1 implies (#[trigger] later[j]).commit_min
        < later[j].barrier && later[j].now < deadline by {
        assert(later[j] == samples[j + 1]);
    }
    lemma_polling_prefix::<E>(deadline, later, k - 1);
    assert(later.skip(k - 1) =~= samples.skip(k));
}

/// A read is served at the first look that sees the barrier applied, if no look
/// before it came at the deadline or later.
pub proof fn wait_serves_at_the_first_applied_look<E>(samples: Seq<RecoverySample>, k: int)
    requires
        0 <= k < samples.len(),
        k > 0 ==> samples[0].now + samples[0].recovery_deadline <= u128::MAX,
        samples[k].commit_min >= samples[k].barrier,
        forall|j: int| 0 <= j < k ==> (#[trigger] samples[j]).commit_min < samples[j].barrier,
        forall|j: int|
            1 <= j < k ==> (#[trigger] samples[j]).now < samples[0].now
                + samples[0].recovery_deadline,
    ensures
        recovery_run::<E>(RecoveryState::Entering, samples) == Some(Ok::<(), ReadError<E>>(())),
{
    if k == 0 {
        first_look_starts_the_clock::<E>(samples[0]);
    } else {
        lemma_whole_prefix::<E>(samples, k);
        assert(samples.skip(k)[0] == samples[k]);
        later_look_keeps_the_clock::<E>(
            (samples[0].now + samples[0].recovery_deadline) as u128,
            samples[k],
        );
    }
}

/// A read is refused at the first look at the deadline or later, if neither it
/// nor any look before it sees the barrier applied.
pub proof fn wait_refuses_at_the_first_late_look<E>(samples: Seq<RecoverySample>, k: int)
    requires
        1 <= k < samples.len(),
        samples[0].now + samples[0].recovery_deadline <= u128::MAX,
        samples[k].now >= samples[0].now + samples[0].recovery_deadline,
        forall|j: int| 0 <= j <= k ==> (#[trigger] samples[j]).commit_min < samples[j].barrier,
        forall|j: int|
            1 <= j < k ==> (#[trigger] samples[j]).now < samples[0].now
                + samples[0].recovery_deadline,
    ensures
        recovery_run::<E>(RecoveryState::Entering, samples) == Some(
            Err::<(), _>(ReadError::<E>::RecoveryIncomplete),
        ),
{
    lemma_whole_prefix::<E>(samples, k);
    assert(samples.skip(k)[0] == samples[k]);
    later_look_keeps_the_clock::<E>(
        (samples[0].now + samples[0].recovery_deadline) as u128,
        samples[k],
    );
}

/// A read waits on while no look sees the barrier applied and none but the
/// first comes at the deadline or later.
pub proof fn wait_goes_on_until_then<E>(samples: Seq<RecoverySample>)
    requires
        samples.len() > 0,
        samples[0].now + samples[0].recovery_deadline <= u128::MAX,
        forall|j: int|
            0 <= j < samples.len() ==> (#[trigger] samples[j]).commit_min < samples[j].barrier,
        forall|j: int|
            1 <= j < samples.len() ==> (#[trigger] samples[j]).now < samples[0].now
                + samples[0].recovery_deadline,
    ensures
        recovery_run::<E>(RecoveryState::Entering, samples) is None,
{
    lemma_whole_prefix::<E>(samples, samples.len() as int);
}

/// No read is served unless some look saw everything up to the barrier applied.
pub proof fn served_wait_saw_the_barrier_applied<E>(
    state: RecoveryState,
    samples: Seq<RecoverySample>,
)
    requires
        recovery_run::<E>(state, samples) matches Some(result) && result is Ok,
    ensures
        exists|k: int|
            0 <= k < samples.len() && ((#[trigger] samples[k]).barrier == 0
                || samples[k].commit_min >= samples[k].barrier),
    decreases samples.len(),
{
    if samples.len() > 0 && samples[0].commit_min < samples[0].barrier {
        let rest = samples.drop_first();
        let next = match recovery_next::<E>(state, Some(samples[0])) {
            RecoveryAction::Poll(next) => next,
            RecoveryAction::Sleep(next) => next,
            RecoveryAction::Finish(_) => state,
        };
        served_wait_saw_the_barrier_applied::<E>(next, rest);
        let k = choose|k: int|
            0 <= k < rest.len() && ((#[trigger] rest[k]).barrier == 0 || rest[k].commit_min
                >= rest[k].barrier);
        assert(rest[k] == samples[k + 1]);
    } else if samples.len() > 0 {
        assert(samples[0].commit_min >= samples[0].barrier);
    }
}

/// A read is held exactly when the node is behind the caller's floor, and then
/// for exactly that floor.
pub proof fn hold_is_for_the_callers_floor(floor: u64, applied: u64)
    ensures
        frontier_entry(floor, applied) is Ready <==> applied >= floor,
        frontier_entry(floor, applied) is Held <==> applied < floor,
        frontier_entry(floor, applied) matches FrontierEntry::Held(hold) ==> hold.floor == floor,
{
}

/// The floor is the one recorded for the calling user: where that is one op,
/// the read is held exactly when the node is behind it.
pub proof fn floor_is_the_one_of_the_calling_user<F: Fn(u32) -> u64>(
    identity: Identity,
    metadata_watermark: F,
    applied: u64,
    floor: u64,
    entry: FrontierEntry,
)
    requires
        forall|recorded: u64|
            call_ensures(metadata_watermark, (identity.user_id,), recorded) ==> recorded == floor,
        hold_entered(identity, metadata_watermark, applied, entry),
    ensures
        applied >= floor ==> entry is Ready,
        applied < floor ==> entry == FrontierEntry::Held(FrontierHold { floor }),
{
}

/// Woken, a held read goes on exactly when its floor is applied, is refused
/// exactly when its budget is spent, and parks again otherwise.
pub proof fn woken_read_goes_by_its_floor<E>(hold: FrontierHold, event: FrontierEvent)
    ensures
        event is BudgetSpent ==> hold.next::<E>(event) == HoldAction::<E>::Refuse(
            ReadError::MetadataFrontierUnreached,
        ),
        event matches FrontierEvent::Advanced(applied) ==> {
            &&& applied >= hold.floor ==> hold.next::<E>(event) == HoldAction::<E>::Serve(
                FrontierWait::CaughtUp,
            )
            &&& applied < hold.floor ==> hold.next::<E>(event) == HoldAction::<E>::Park
        },
{
}

proof fn lemma_parked_prefix<E>(hold: FrontierHold, events: Seq<FrontierEvent>, k: int)
    requires
        0 <= k <= events.len(),
        forall|j: int|
            0 <= j < k ==> (#[trigger] events[j] matches FrontierEvent::Advanced(applied)
                && applied < hold.floor),
    ensures
        hold.run::<E>(events) == hold.run::<E>(events.skip(k)),
        hold.refusals::<E>(events) == hold.refusals::<E>(events.skip(k)),
    decreases k,
{
    if k == 0 {
        assert(events.skip(0) =~= events);
    } else {
        let rest = events.drop_first();
        assert forall|j: int| 0 <= j < k - 1 implies (#[trigger] rest[j] matches FrontierEvent::Advanced(
            applied,
        ) && applied < hold.floor) by {
            assert(rest[j] == events[j + 1]);
        }
        assert(events[0] matches FrontierEvent::Advanced(applied) && applied < hold.floor);
        woken_read_goes_by_its_floor::<E>(hold, events[0]);
        lemma_parked_prefix::<E>(hold, rest, k - 1);
        assert(rest.skip(k - 1) =~= events.skip(k));
    }
}

/// A read behind its floor is served by the first commit that reaches it, if
/// the budget was not spent before, and counts no refusal.
pub proof fn held_read_is_served_as_soon_as_its_floor_is_applied<E>(
    floor: u64,
    applied: u64,
    events: Seq<FrontierEvent>,
    k: int,
)
    requires
        applied < floor,
        0 <= k < events.len(),
        events[k] matches FrontierEvent::Advanced(seen) && seen >= floor,
        forall|j: int|
            0 <= j < k ==> (#[trigger] events[j] matches FrontierEvent::Advanced(seen) && seen
                < floor),
    ensures
        frontier_run::<E>(floor, applied, events) == Some(
            Ok::<_, ReadError<E>>(FrontierWait::CaughtUp),
        ),
        (FrontierHold { floor }).refusals::<E>(events) == 0,
{
    let hold = FrontierHold { floor };
    hold_is_for_the_callers_floor(floor, applied);
    lemma_parked_prefix::<E>(hold, events, k);
    assert(events.skip(k)[0] == events[k]);
    woken_read_goes_by_its_floor::<E>(hold, events[k]);
}

/// A read behind its floor is refused when the budget is spent before any
/// commit reaches it, and counts one refusal.
pub proof fn held_read_is_refused_when_its_budget_is_spent<E>(
    floor: u64,
    applied: u64,
    events: Seq<FrontierEvent>,
    k: int,
)
    requires
        applied < floor,
        0 <= k < events.len(),
        events[k] is BudgetSpent,
        forall|j: int|
            0 <= j < k ==> (#[trigger] events[j] matches FrontierEvent::Advanced(seen) && seen
                < floor),
    ensures
        frontier_run::<E>(floor, applied, events) == Some(
            Err::<FrontierWait, _>(ReadError::<E>::MetadataFrontierUnreached),
        ),
        (FrontierHold { floor }).refusals::<E>(events) == 1,
{
    let hold = FrontierHold { floor };
    hold_is_for_the_callers_floor(floor, applied);
    lemma_parked_prefix::<E>(hold, events, k);
    assert(events.skip(k)[0] == events[k]);
    woken_read_goes_by_its_floor::<E>(hold, events[k]);
}

/// A read behind its floor stays parked while every commit falls short of it.
pub proof fn held_read_stays_parked_until_then<E>(
    floor: u64,
    applied: u64,
    events: Seq<FrontierEvent>,
)
    requires
        applied < floor,
        forall|j: int|
            0 <= j < events.len() ==> (#[trigger] events[j] matches FrontierEvent::Advanced(seen)
                && seen < floor),
    ensures
        frontier_run::<E>(floor, applied, events) is None,
        (FrontierHold { floor }).refusals::<E>(events) == 0,
{
    hold_is_for_the_callers_floor(floor, applied);
    lemma_parked_prefix::<E>(FrontierHold { floor }, events, events.len() as int);
}

/// A read whose floor is applied never parks, whatever would have woken it.
pub proof fn applied_floor_is_ready<E>(floor: u64, applied: u64, events: Seq<FrontierEvent>)
    requires
        applied >= floor,
    ensures
        frontier_run::<E>(floor, applied, events) == Some(
            Ok::<_, ReadError<E>>(FrontierWait::Ready),
        ),
{
}

} // verus!
