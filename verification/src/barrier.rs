//! The wait of a local read behind the post-restart recovery barrier.

use crate::error::ReadError;
use vstd::prelude::*;

verus! {

/// The outcome of one look at the recovery barrier.
#[derive(Debug, Clone, Copy, PartialEq, Eq, Structural)]
pub enum BarrierWait {
    /// Barrier met, or none armed: serve the read.
    Ready,
    /// Barrier unmet and the deadline has passed: fail loud.
    Expired,
    /// Barrier unmet, deadline still ahead: keep polling.
    Pending,
}

/// No barrier is armed, or everything up to it is applied locally.
pub open spec fn barrier_met(barrier: u64, commit_min: u64) -> bool {
    barrier == 0 || commit_min >= barrier
}

/// What one look at the barrier means for the read that waits on it.
pub open spec fn barrier_outcome(barrier: u64, commit_min: u64, expired: bool) -> BarrierWait {
    if barrier_met(barrier, commit_min) {
        BarrierWait::Ready
    } else if expired {
        BarrierWait::Expired
    } else {
        BarrierWait::Pending
    }
}

/// Decides the barrier outcome from the armed barrier, the locally applied
/// commit point, and whether the deadline has passed. A met barrier wins over
/// an expired deadline, so recovery that completes as the deadline lands still
/// serves.
pub fn barrier_state(barrier: u64, commit_min: u64, expired: bool) -> (wait: BarrierWait)
    ensures
        wait == barrier_outcome(barrier, commit_min, expired),
        wait is Ready <==> barrier == 0 || commit_min >= barrier,
        wait is Expired <==> commit_min < barrier && expired,
        wait is Pending <==> commit_min < barrier && !expired,
{
    if barrier == 0 || commit_min >= barrier {
        BarrierWait::Ready
    } else if expired {
        BarrierWait::Expired
    } else {
        BarrierWait::Pending
    }
}

/// What a waiting read sees of the consensus group at one moment. The two
/// times are in nanoseconds; `now` counts from any origin that stays the same
/// for one wait.
#[derive(Debug, Clone, Copy, PartialEq, Eq, Structural)]
pub struct RecoverySample {
    /// The armed barrier, zero for none.
    pub barrier: u64,
    /// The highest op that is applied locally.
    pub commit_min: u64,
    /// The clock.
    pub now: u128,
    /// How long a read may wait for the barrier.
    pub recovery_deadline: u128,
}

/// Where the wait of one read stands.
#[derive(Debug, Clone, Copy, PartialEq, Eq, Structural)]
pub enum RecoveryState {
    /// The barrier has not been looked at yet.
    Entering,
    /// The barrier was unmet on entry; the wait ends at `deadline`.
    Polling { deadline: u128 },
}

/// What the caller has to do next.
#[derive(Debug, PartialEq, Eq)]
pub enum RecoveryAction<E> {
    /// The wait is over, with this result.
    Finish(Result<(), ReadError<E>>),
    /// Take a fresh sample at once.
    Poll(RecoveryState),
    /// Sleep for one poll interval, then take a fresh sample.
    Sleep(RecoveryState),
}

impl RecoverySample {
    /// The barrier is met at this moment.
    pub open spec fn met(self) -> bool {
        barrier_met(self.barrier, self.commit_min)
    }

    /// The moment at which a wait that starts here gives up.
    pub open spec fn gives_up_at(self) -> int {
        self.now + self.recovery_deadline
    }
}

/// The step of the wait on one sample. `None` stands for a node without a
/// consensus group, on which there is nothing to wait for.
pub open spec fn recovery_next<E>(
    state: RecoveryState,
    sample: Option<RecoverySample>,
) -> RecoveryAction<E> {
    match sample {
        None => RecoveryAction::Finish(Ok(())),
        Some(sample) => match state {
            RecoveryState::Entering => if sample.met() {
                RecoveryAction::Finish(Ok(()))
            } else {
                RecoveryAction::Poll(
                    RecoveryState::Polling { deadline: sample.gives_up_at() as u128 },
                )
            },
            RecoveryState::Polling { deadline } => match barrier_outcome(
                sample.barrier,
                sample.commit_min,
                sample.now >= deadline,
            ) {
                BarrierWait::Ready => RecoveryAction::Finish(Ok(())),
                BarrierWait::Expired => RecoveryAction::Finish(Err(ReadError::RecoveryIncomplete)),
                BarrierWait::Pending => RecoveryAction::Sleep(state),
            },
        },
    }
}

/// One step of the wait behind the recovery barrier.
///
/// The first sample only decides whether there is anything to wait for; when
/// there is, it fixes the deadline, and every later sample is judged against
/// that. The barrier is taken from each sample anew, so a barrier that is
/// lowered while the read waits releases it. What counts is what is
/// applied locally, not what is known to be committed.
pub fn recovery_step<E>(state: RecoveryState, sample: Option<RecoverySample>) -> (action:
    RecoveryAction<E>)
    requires
        state is Entering && sample is Some && !sample->0.met() ==> sample->0.gives_up_at()
            <= u128::MAX,
    ensures
        action == recovery_next::<E>(state, sample),
{
    let Some(sample) = sample else {
        return RecoveryAction::Finish(Ok(()));
    };
    match state {
        RecoveryState::Entering => {
            match barrier_state(sample.barrier, sample.commit_min, false) {
                BarrierWait::Ready => RecoveryAction::Finish(Ok(())),
                _ => {
                    let deadline: u128 = sample.now + sample.recovery_deadline;
                    RecoveryAction::Poll(RecoveryState::Polling { deadline })
                },
            }
        },
        RecoveryState::Polling { deadline } => {
            let expired = sample.now >= deadline;
            match barrier_state(sample.barrier, sample.commit_min, expired) {
                BarrierWait::Ready => RecoveryAction::Finish(Ok(())),
                BarrierWait::Expired => RecoveryAction::Finish(Err(ReadError::RecoveryIncomplete)),
                BarrierWait::Pending => RecoveryAction::Sleep(state),
            }
        },
    }
}

/// The result of a whole wait over the samples it takes, in order, or `None`
/// where they leave it waiting.
pub open spec fn recovery_run<E>(state: RecoveryState, samples: Seq<RecoverySample>) -> Option<
    Result<(), ReadError<E>>,
>
    decreases samples.len(),
{
    if samples.len() == 0 {
        None
    } else {
        match recovery_next::<E>(state, Some(samples[0])) {
            RecoveryAction::Finish(result) => Some(result),
            RecoveryAction::Poll(next) => recovery_run(next, samples.drop_first()),
            RecoveryAction::Sleep(next) => recovery_run(next, samples.drop_first()),
        }
    }
}

/// The samples before the `k`-th leave a wait with this deadline undecided.
pub open spec fn undecided_before(samples: Seq<RecoverySample>, deadline: int, k: int) -> bool {
    forall|j: int| 0 <= j < k ==> !(#[trigger] samples[j]).met() && samples[j].now < deadline
}

/// The `k`-th sample is the first to decide a wait with this deadline, and it
/// finds the barrier met.
pub open spec fn met_at(samples: Seq<RecoverySample>, deadline: int, k: int) -> bool {
    0 <= k < samples.len() && samples[k].met() && undecided_before(samples, deadline, k)
}

/// The `k`-th sample is the first to decide a wait with this deadline, and it
/// finds the barrier unmet with the deadline passed.
pub open spec fn expired_at(samples: Seq<RecoverySample>, deadline: int, k: int) -> bool {
    0 <= k < samples.len() && !samples[k].met() && samples[k].now >= deadline && undecided_before(
        samples,
        deadline,
        k,
    )
}

proof fn lemma_polling_run<E>(deadline: u128, samples: Seq<RecoverySample>)
    ensures
        ({
            let run = recovery_run::<E>(RecoveryState::Polling { deadline }, samples);
            &&& run == Some(Ok::<(), ReadError<E>>(())) <==> exists|k: int|
                met_at(samples, deadline as int, k)
            &&& run == Some(Err::<(), ReadError<E>>(ReadError::RecoveryIncomplete)) <==> exists|
                k: int,
            |
                expired_at(samples, deadline as int, k)
            &&& run is None <==> undecided_before(samples, deadline as int, samples.len() as int)
            &&& run is Some ==> run == Some(Ok::<(), ReadError<E>>(())) || run == Some(
                Err::<(), ReadError<E>>(ReadError::RecoveryIncomplete),
            )
        }),
    decreases samples.len(),
{
    let d = deadline as int;
    if samples.len() > 0 {
        let rest = samples.drop_first();
        if samples[0].met() {
            assert(met_at(samples, d, 0));
            assert forall|k: int| !expired_at(samples, d, k) by {
                if expired_at(samples, d, k) && k > 0 {
                    assert(!samples[0].met());
                }
            }
        } else if samples[0].now >= deadline {
            assert(expired_at(samples, d, 0));
            assert forall|k: int| !met_at(samples, d, k) by {
                if met_at(samples, d, k) && k > 0 {
                    assert(samples[0].now < d);
                }
            }
        } else {
            lemma_polling_run::<E>(deadline, rest);
            assert forall|k: int|
                k <= rest.len() && undecided_before(rest, d, k) implies undecided_before(
                samples,
                d,
                k + 1,
            ) by {
                assert forall|j: int| 0 <= j < k + 1 implies !(#[trigger] samples[j]).met()
                    && samples[j].now < d by {
                    if j > 0 {
                        assert(rest[j - 1] == samples[j]);
                    }
                }
            }
            assert forall|k: int|
                0 <= k <= rest.len() && undecided_before(samples, d, k + 1) implies undecided_before(
                rest,
                d,
                k,
            ) by {
                assert forall|j: int| 0 <= j < k implies !(#[trigger] rest[j]).met() && rest[j].now
                    < d by {
                    assert(rest[j] == samples[j + 1]);
                }
            }
            assert forall|k: int| met_at(rest, d, k) implies met_at(samples, d, k + 1) by {}
            assert forall|k: int| met_at(samples, d, k) implies met_at(rest, d, k - 1) by {
                assert(undecided_before(samples, d, (k - 1) + 1));
            }
            assert forall|k: int| expired_at(rest, d, k) implies expired_at(samples, d, k + 1) by {}
            assert forall|k: int| expired_at(samples, d, k) implies expired_at(rest, d, k - 1) by {
                assert(undecided_before(samples, d, (k - 1) + 1));
            }
            assert(undecided_before(samples, d, samples.len() as int) <==> undecided_before(
                rest,
                d,
                rest.len() as int,
            )) by {
                assert(samples.len() == rest.len() + 1);
            }
        }
    }
}

/// A read is served behind the barrier exactly when the first sample, or a
/// later one before which the deadline had not been seen to pass, finds the
/// barrier met; it is refused exactly when a later sample is the first to
/// decide and finds the barrier unmet with the deadline passed; and it waits
/// on exactly while neither has happened.
pub proof fn recovery_wait_is_decided_by_its_samples<E>(samples: Seq<RecoverySample>)
    requires
        samples.len() > 0,
        !samples[0].met() ==> samples[0].gives_up_at() <= u128::MAX,
    ensures
        ({
            let run = recovery_run::<E>(RecoveryState::Entering, samples);
            let later = samples.drop_first();
            let deadline = samples[0].gives_up_at();
            &&& run == Some(Ok::<(), ReadError<E>>(())) <==> samples[0].met() || exists|k: int|
                met_at(later, deadline, k)
            &&& run == Some(Err::<(), ReadError<E>>(ReadError::RecoveryIncomplete)) <==> (
            !samples[0].met() && exists|k: int| expired_at(later, deadline, k))
            &&& run is None <==> !samples[0].met() && undecided_before(
                later,
                deadline,
                later.len() as int,
            )
        }),
{
    if !samples[0].met() {
        lemma_polling_run::<E>(samples[0].gives_up_at() as u128, samples.drop_first());
    }
}

/// A met barrier wins over an expired deadline.
pub proof fn met_barrier_wins_over_expiry(barrier: u64, commit_min: u64)
    requires
        barrier_met(barrier, commit_min),
    ensures
        forall|expired: bool| barrier_outcome(barrier, commit_min, expired) is Ready,
{
}

/// Once a barrier is met it stays met: applying more, or lowering the barrier,
/// never turns a served read into a held or refused one.
pub proof fn met_barrier_stays_met(
    barrier: u64,
    commit_min: u64,
    lowered: u64,
    advanced: u64,
    expired: bool,
)
    requires
        lowered <= barrier,
        commit_min <= advanced,
        barrier_outcome(barrier, commit_min, expired) is Ready,
    ensures
        barrier_outcome(lowered, advanced, expired) is Ready,
{
}

/// A sample that finds the deadline passed ends the wait: no read polls on
/// past its deadline.
pub proof fn wait_ends_at_the_deadline<E>(deadline: u128, sample: RecoverySample)
    requires
        sample.now >= deadline,
    ensures
        recovery_next::<E>(RecoveryState::Polling { deadline }, Some(sample)) is Finish,
{
}

} // verus!
