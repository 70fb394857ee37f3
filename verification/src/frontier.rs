//! The hold of a local read until the node has applied everything the calling
//! user was told committed.

use crate::error::ReadError;
use crate::request::Identity;
use vstd::prelude::*;

verus! {

/// How a read got past the metadata frontier.
#[derive(Debug, Clone, Copy, PartialEq, Eq, Structural)]
pub enum FrontierWait {
    /// The node had applied the caller's floor already.
    Ready,
    /// The read parked, and the node caught up with the caller's floor.
    CaughtUp,
}

/// A read that is parked until the node has applied `floor`.
#[derive(Debug, Clone, Copy, PartialEq, Eq, Structural)]
pub struct FrontierHold {
    /// The highest op the caller was told committed.
    pub floor: u64,
}

/// What the first look at the frontier comes to.
#[derive(Debug, Clone, Copy, PartialEq, Eq, Structural)]
pub enum FrontierEntry {
    /// Nothing to wait for.
    Ready,
    /// The read has to park.
    Held(FrontierHold),
}

/// What wakes a parked read.
#[derive(Debug, Clone, Copy, PartialEq, Eq, Structural)]
pub enum FrontierEvent {
    /// A commit advanced the applied frontier to this op.
    Advanced(u64),
    /// The read budget ran out before that.
    BudgetSpent,
}

/// What a parked read does when it is woken.
#[derive(Debug, PartialEq, Eq)]
pub enum HoldAction<E> {
    /// The hold is over: the read goes on.
    Serve(FrontierWait),
    /// The hold is over: count one refusal at the frontier, and answer with this
    /// error.
    Refuse(ReadError<E>),
    /// Park again.
    Park,
}

/// The first look at the frontier: a caller whose floor is applied waits for
/// nothing.
pub open spec fn frontier_entry(floor: u64, applied: u64) -> FrontierEntry {
    if applied >= floor {
        FrontierEntry::Ready
    } else {
        FrontierEntry::Held(FrontierHold { floor })
    }
}

/// What the first look comes to for this caller, whose floor is what
/// `metadata_watermark` has for the user.
pub open spec fn hold_entered<F: Fn(u32) -> u64>(
    identity: Identity,
    metadata_watermark: F,
    applied: u64,
    entry: FrontierEntry,
) -> bool {
    exists|floor: u64| #[trigger]
        call_ensures(metadata_watermark, (identity.user_id,), floor) && entry == frontier_entry(
            floor,
            applied,
        )
}

/// Looks whether a read of this caller has to be held. The floor is what
/// `metadata_watermark` has for the caller's user, so that it is the same for
/// every credential of that user; `applied` is the node's applied frontier.
pub fn enter_frontier_hold<F: Fn(u32) -> u64>(
    identity: &Identity,
    metadata_watermark: &F,
    applied: u64,
) -> (entry: FrontierEntry)
    requires
        call_requires(*metadata_watermark, (identity.user_id,)),
    ensures
        hold_entered(*identity, *metadata_watermark, applied, entry),
        entry matches FrontierEntry::Held(hold) ==> applied < hold.floor && call_ensures(
            *metadata_watermark,
            (identity.user_id,),
            hold.floor,
        ),
{
    let floor: u64 = metadata_watermark(identity.user_id);
    if applied >= floor {
        FrontierEntry::Ready
    } else {
        FrontierEntry::Held(FrontierHold { floor })
    }
}

impl FrontierHold {
    /// What the hold does on one event.
    pub open spec fn next<E>(self, event: FrontierEvent) -> HoldAction<E> {
        match event {
            FrontierEvent::Advanced(applied) => if applied >= self.floor {
                HoldAction::Serve(FrontierWait::CaughtUp)
            } else {
                HoldAction::Park
            },
            FrontierEvent::BudgetSpent => HoldAction::Refuse(ReadError::MetadataFrontierUnreached),
        }
    }

    /// Decides what a parked read does when it is woken: a frontier that
    /// reached the floor lets it on, a spent budget refuses it, and anything
    /// else parks it again.
    pub fn wake<E>(&self, event: FrontierEvent) -> (action: HoldAction<E>)
        ensures
            action == self.next::<E>(event),
            action is Serve <==> (event matches FrontierEvent::Advanced(applied) && applied
                >= self.floor),
            action is Refuse <==> event is BudgetSpent,
    {
        match event {
            FrontierEvent::Advanced(applied) => {
                if applied >= self.floor {
                    HoldAction::Serve(FrontierWait::CaughtUp)
                } else {
                    HoldAction::Park
                }
            },
            FrontierEvent::BudgetSpent => HoldAction::Refuse(ReadError::MetadataFrontierUnreached),
        }
    }

    /// The result of the hold over the events that wake it, in order, or `None`
    /// where they leave it parked.
    pub open spec fn run<E>(self, events: Seq<FrontierEvent>) -> Option<
        Result<FrontierWait, ReadError<E>>,
    >
        decreases events.len(),
    {
        if events.len() == 0 {
            None
        } else {
            match self.next::<E>(events[0]) {
                HoldAction::Serve(wait) => Some(Ok(wait)),
                HoldAction::Refuse(refusal) => Some(Err(refusal)),
                HoldAction::Park => self.run(events.drop_first()),
            }
        }
    }

    /// How many refusals the hold has counted over the events that wake it.
    pub open spec fn refusals<E>(self, events: Seq<FrontierEvent>) -> nat
        decreases events.len(),
    {
        if events.len() == 0 {
            0
        } else {
            match self.next::<E>(events[0]) {
                HoldAction::Serve(_) => 0,
                HoldAction::Refuse(_) => 1,
                HoldAction::Park => self.refusals::<E>(events.drop_first()),
            }
        }
    }

    /// This event shows the floor applied.
    pub open spec fn reached_by(self, event: FrontierEvent) -> bool {
        event matches FrontierEvent::Advanced(applied) && applied >= self.floor
    }

    /// The `k`-th event is the first to end the hold.
    pub open spec fn ended_by(self, events: Seq<FrontierEvent>, k: int) -> bool {
        &&& 0 <= k < events.len()
        &&& self.reached_by(events[k]) || events[k] is BudgetSpent
        &&& forall|j: int|
            0 <= j < k ==> !self.reached_by(#[trigger] events[j]) && !(events[j] is BudgetSpent)
    }
}

/// The result of a whole wait for the frontier: what the first look comes to,
/// and, where the read parks, what the events that wake it come to.
pub open spec fn frontier_run<E>(floor: u64, applied: u64, events: Seq<FrontierEvent>) -> Option<
    Result<FrontierWait, ReadError<E>>,
> {
    match frontier_entry(floor, applied) {
        FrontierEntry::Ready => Some(Ok(FrontierWait::Ready)),
        FrontierEntry::Held(hold) => hold.run(events),
    }
}

/// A read gets past the frontier only on a node that has been seen to have
/// applied everything its caller was told committed.
pub proof fn read_past_the_frontier_sees_its_own_writes<E>(
    floor: u64,
    applied: u64,
    events: Seq<FrontierEvent>,
)
    requires
        frontier_run::<E>(floor, applied, events) matches Some(result) && result is Ok,
    ensures
        applied >= floor || exists|k: int|
            0 <= k < events.len() && (#[trigger] events[k] matches FrontierEvent::Advanced(seen)
                && seen >= floor),
{
    if applied < floor {
        let hold = FrontierHold { floor };
        held_read_is_decided_by_its_floor::<E>(hold, events);
        let k = choose|k: int| hold.ended_by(events, k);
        assert(hold.reached_by(events[k]));
    }
}

/// Whatever wakes a held read, the first event that shows its floor applied
/// serves it, unless the budget was spent before that, and then it is refused.
/// It is never served below its floor, and it stays parked only while neither
/// has happened.
pub proof fn held_read_is_decided_by_its_floor<E>(hold: FrontierHold, events: Seq<FrontierEvent>)
    ensures
        forall|k: int| #[trigger]
            hold.ended_by(events, k) ==> hold.run::<E>(events) == Some(
                if hold.reached_by(events[k]) {
                    Ok(FrontierWait::CaughtUp)
                } else {
                    Err(ReadError::<E>::MetadataFrontierUnreached)
                },
            ),
        hold.run::<E>(events) is Some ==> exists|k: int| hold.ended_by(events, k),
    decreases events.len(),
{
    if events.len() > 0 {
        let rest = events.drop_first();
        held_read_is_decided_by_its_floor::<E>(hold, rest);
        assert forall|k: int| #[trigger] hold.ended_by(events, k) implies hold.run::<E>(events)
            == Some(
            if hold.reached_by(events[k]) {
                Ok(FrontierWait::CaughtUp)
            } else {
                Err(ReadError::<E>::MetadataFrontierUnreached)
            },
        ) by {
            if k > 0 {
                assert forall|j: int| 0 <= j < k - 1 implies !hold.reached_by(#[trigger] rest[j])
                    && !(rest[j] is BudgetSpent) by {
                    assert(rest[j] == events[j + 1]);
                }
                assert(!hold.reached_by(events[0]));
                assert(hold.ended_by(rest, k - 1));
            }
        }
        if hold.run::<E>(events) is Some {
            if !(hold.next::<E>(events[0]) is Park) {
                assert(hold.ended_by(events, 0));
            } else {
                let k = choose|k: int| hold.ended_by(rest, k);
                assert forall|j: int| 0 <= j < k + 1 implies !hold.reached_by(#[trigger] events[j])
                    && !(events[j] is BudgetSpent) by {
                    if j > 0 {
                        assert(rest[j - 1] == events[j]);
                    }
                }
                assert(hold.ended_by(events, k + 1));
            }
        }
    }
}

/// A hold counts one refusal where it refuses the read, and none where it lets
/// the read on or keeps it parked.
pub proof fn refusal_is_counted_exactly_where_the_read_is_refused<E>(
    hold: FrontierHold,
    events: Seq<FrontierEvent>,
)
    ensures
        hold.refusals::<E>(events) == (if hold.run::<E>(events) == Some(
            Err::<FrontierWait, _>(ReadError::<E>::MetadataFrontierUnreached),
        ) {
            1nat
        } else {
            0nat
        }),
    decreases events.len(),
{
    if events.len() > 0 {
        refusal_is_counted_exactly_where_the_read_is_refused::<E>(hold, events.drop_first());
    }
}

/// A floor that is applied costs no park on any later read: the frontier only
/// advances.
pub proof fn applied_floor_never_parks(floor: u64, applied: u64, later: u64)
    requires
        applied >= floor,
        later >= applied,
    ensures
        frontier_entry(floor, applied) is Ready,
        frontier_entry(floor, later) is Ready,
{
}

} // verus!
