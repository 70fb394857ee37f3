//! The recovery barrier and the read-your-writes hold.

use http_reads::barrier::{
    barrier_state, recovery_step, BarrierWait, RecoveryAction, RecoverySample, RecoveryState,
};
use http_reads::error::ReadError;
use http_reads::frontier::{
    enter_frontier_hold, FrontierEntry, FrontierEvent, FrontierHold, FrontierWait, HoldAction,
};
use http_reads::request::{ClientIp, Identity};

/// Root's user id, the caller every fixture below writes and reads as.
const USER: u32 = 0;

fn caller(user_id: u32) -> Identity {
    Identity {
        user_id,
        path_and_query: "/streams".to_string(),
        client_ip: ClientIp::V4(0x7f00_0001),
    }
}

fn sample(barrier: u64, commit_min: u64, now: u128) -> Option<RecoverySample> {
    Some(RecoverySample {
        barrier,
        commit_min,
        now,
        recovery_deadline: 100,
    })
}

fn step(state: RecoveryState, sample: Option<RecoverySample>) -> RecoveryAction<()> {
    recovery_step(state, sample)
}

#[test]
fn barrier_state_ready_when_no_barrier_armed() {
    assert_eq!(barrier_state(0, 0, false), BarrierWait::Ready);
    assert_eq!(barrier_state(0, 0, true), BarrierWait::Ready);
}

#[test]
fn barrier_state_ready_when_commit_reached_barrier() {
    assert_eq!(barrier_state(5, 5, false), BarrierWait::Ready);
    assert_eq!(barrier_state(5, 6, false), BarrierWait::Ready);
}

#[test]
fn barrier_state_pending_while_unmet_before_deadline() {
    assert_eq!(barrier_state(5, 3, false), BarrierWait::Pending);
}

#[test]
fn barrier_state_expires_when_unmet_past_deadline() {
    assert_eq!(barrier_state(5, 3, true), BarrierWait::Expired);
}

#[test]
fn barrier_state_met_wins_over_expired_deadline() {
    assert_eq!(barrier_state(5, 5, true), BarrierWait::Ready);
}

#[test]
fn recovery_serves_at_once_without_a_consensus_group_or_a_barrier() {
    assert_eq!(step(RecoveryState::Entering, None), RecoveryAction::Finish(Ok(())));
    assert_eq!(
        step(RecoveryState::Entering, sample(0, 0, 0)),
        RecoveryAction::Finish(Ok(()))
    );
    assert_eq!(
        step(RecoveryState::Entering, sample(5, 5, 0)),
        RecoveryAction::Finish(Ok(()))
    );
}

#[test]
fn recovery_polls_until_the_barrier_is_met() {
    let polling = RecoveryState::Polling { deadline: 107 };
    assert_eq!(
        step(RecoveryState::Entering, sample(5, 3, 7)),
        RecoveryAction::Poll(polling)
    );
    assert_eq!(step(polling, sample(5, 3, 8)), RecoveryAction::Sleep(polling));
    assert_eq!(step(polling, sample(5, 4, 106)), RecoveryAction::Sleep(polling));
    assert_eq!(step(polling, sample(5, 5, 106)), RecoveryAction::Finish(Ok(())));
}

#[test]
fn recovery_refuses_at_the_deadline_and_not_before() {
    let polling = RecoveryState::Polling { deadline: 107 };
    assert_eq!(
        step(polling, sample(5, 3, 107)),
        RecoveryAction::Finish(Err(ReadError::RecoveryIncomplete))
    );
    // Recovery that completes as the deadline lands still serves.
    assert_eq!(step(polling, sample(5, 5, 107)), RecoveryAction::Finish(Ok(())));
}

#[test]
fn lowered_barrier_releases_a_waiting_read() {
    let polling = RecoveryState::Polling { deadline: 107 };
    assert_eq!(step(polling, sample(9, 3, 8)), RecoveryAction::Sleep(polling));
    assert_eq!(step(polling, sample(3, 3, 9)), RecoveryAction::Finish(Ok(())));
    assert_eq!(step(polling, sample(0, 3, 9)), RecoveryAction::Finish(Ok(())));
}

#[test]
fn given_a_recorded_floor_when_the_node_catches_up_should_serve_the_held_read() {
    let floors = |floor: u64| move |user: u32| if user == USER { floor } else { 0 };

    // A caller this node never wrote for waits for nothing.
    assert_eq!(
        enter_frontier_hold(&caller(USER), &floors(0), 4),
        FrontierEntry::Ready,
        "an unseeded caller has no write to read back"
    );

    // The committed reply's op becomes the floor, which is above what this
    // node has applied: the read must not be answered yet.
    let entry = enter_frontier_hold(&caller(USER), &floors(9), 4);
    let FrontierEntry::Held(hold) = entry else {
        panic!("the read must be held until the node applies the caller's own op");
    };
    let still_behind: HoldAction<()> = hold.wake(FrontierEvent::Advanced(8));
    assert_eq!(still_behind, HoldAction::Park);
    let caught_up: HoldAction<()> = hold.wake(FrontierEvent::Advanced(9));
    assert_eq!(
        caught_up,
        HoldAction::Serve(FrontierWait::CaughtUp),
        "the read must be held until the node applies the caller's own op"
    );

    // Caught up: back to the fast path, with the floor still in place.
    assert_eq!(
        enter_frontier_hold(&caller(USER), &floors(9), 9),
        FrontierEntry::Ready,
        "an applied floor must not cost a park on every later read"
    );
}

#[test]
fn given_a_floor_the_node_never_reaches_when_gating_should_render_the_retryable_503() {
    let entry = enter_frontier_hold(&caller(USER), &|_user: u32| 9, 4);
    assert_eq!(entry, FrontierEntry::Held(FrontierHold { floor: 9 }));
    let outcome: HoldAction<()> = FrontierHold { floor: 9 }.wake(FrontierEvent::BudgetSpent);
    assert!(
        matches!(
            outcome,
            HoldAction::Refuse(ReadError::MetadataFrontierUnreached)
        ),
        "an unreached frontier must refuse the read, not serve it"
    );
}

#[test]
fn hold_counts_one_refusal_and_only_where_it_refuses() {
    let hold = FrontierHold { floor: 9 };
    let refusals = |events: &[FrontierEvent]| {
        let mut refused = 0;
        for event in events {
            let action: HoldAction<()> = hold.wake(*event);
            match action {
                HoldAction::Park => continue,
                HoldAction::Serve(_) => break,
                HoldAction::Refuse(_) => {
                    refused += 1;
                    break;
                }
            }
        }
        refused
    };
    assert_eq!(refusals(&[FrontierEvent::Advanced(5)]), 0);
    assert_eq!(refusals(&[FrontierEvent::Advanced(9), FrontierEvent::BudgetSpent]), 0);
    assert_eq!(refusals(&[FrontierEvent::Advanced(5), FrontierEvent::BudgetSpent]), 1);
}

#[test]
fn floor_is_the_floor_of_the_calling_user() {
    let floors = |user: u32| if user == 7 { 9 } else { 2 };
    assert_eq!(
        enter_frontier_hold(&caller(7), &floors, 4),
        FrontierEntry::Held(FrontierHold { floor: 9 })
    );
    assert_eq!(enter_frontier_hold(&caller(8), &floors, 4), FrontierEntry::Ready);
}
