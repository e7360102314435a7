//! Whole calls of the executor: what a driver that follows every action
//! does, given the outcomes that the operation's invocations produce.

use crate::backoff::delay_is_monotonic;
use crate::backoff::delay_spec;
use crate::backoff::schedule_spec;
use crate::retry::initial_state;
use crate::retry::step;
use crate::retry::transition;
use crate::retry::Action;
use crate::retry::Event;
use crate::retry::RetryConfig;
use crate::retry::RetryOutcome;
use crate::retry::RetryState;
use vstd::arithmetic::power2::pow2;
use vstd::prelude::*;

verus! {

/// What one call did, as a mathematical value.
pub struct RunView<T, E> {
    /// How often the operation was invoked.
    pub invocations: nat,
    /// The waits that were slept, in milliseconds and in order.
    pub sleeps: Seq<u64>,
    /// How the call ended; `None` while it has not ended.
    pub outcome: Option<RetryOutcome<T, E>>,
}

/// What one call did.
#[derive(Debug, PartialEq, Eq)]
pub struct Run<T, E> {
    /// How often the operation was invoked.
    pub invocations: usize,
    /// The waits that were slept, in milliseconds and in order.
    pub sleeps: Vec<u64>,
    /// How the call ended; `None` where the recorded outcomes ran out
    /// before it ended.
    pub outcome: Option<RetryOutcome<T, E>>,
}

impl<T, E> View for Run<T, E> {
    type V = RunView<T, E>;

    open spec fn view(&self) -> RunView<T, E> {
        RunView {
            invocations: self.invocations as nat,
            sleeps: self.sleeps@,
            outcome: self.outcome,
        }
    }
}

/// The run `rest`, preceded by one failed attempt and the wait `wait`.
pub open spec fn after_failed_attempt<T, E>(wait: u64, rest: RunView<T, E>) -> RunView<T, E> {
    RunView {
        invocations: rest.invocations + 1,
        sleeps: seq![wait] + rest.sleeps,
        outcome: rest.outcome,
    }
}

/// What a driver does from `state` on, where an attempt is due and the
/// operation's invocations produce `outcomes` in turn.
///
/// The driver invokes the operation, reports the outcome, and performs the
/// action that `transition` answers with: it stops at `Finish`; at `Sleep`
/// it waits, reports that the wait has elapsed, and makes the attempt that
/// is then due. Outcomes beyond the one that ends the call belong to
/// invocations that never happen. Where the outcomes run out first, the
/// call has not ended.
pub open spec fn run_from<T, E>(
    config: RetryConfig,
    state: RetryState,
    outcomes: Seq<Result<T, E>>,
) -> RunView<T, E>
    decreases outcomes.len(),
{
    if outcomes.len() == 0 {
        RunView { invocations: 0, sleeps: Seq::empty(), outcome: None }
    } else {
        match transition(config, state, Event::Completed(outcomes[0])) {
            Some((_, Action::Finish(outcome))) => RunView {
                invocations: 1,
                sleeps: Seq::empty(),
                outcome: Some(outcome),
            },
            Some((waiting, Action::Sleep(wait))) => match transition::<T, E>(
                config,
                waiting,
                Event::SleepElapsed,
            ) {
                Some((next, Action::Invoke)) => after_failed_attempt(
                    wait,
                    run_from(config, next, outcomes.drop_first()),
                ),
                _ => RunView { invocations: 1, sleeps: seq![wait], outcome: None },
            },
            _ => RunView { invocations: 1, sleeps: Seq::empty(), outcome: None },
        }
    }
}

/// What one whole call does under `config`, where the operation's
/// invocations produce `outcomes` in turn.
pub open spec fn run<T, E>(config: RetryConfig, outcomes: Seq<Result<T, E>>) -> RunView<T, E> {
    run_from(config, RetryState::initial(), outcomes)
}

/// How a call ends whose last attempt produced `outcome`.
pub open spec fn outcome_of<T, E>(outcome: Result<T, E>) -> RetryOutcome<T, E> {
    match outcome {
        Ok(value) => RetryOutcome::Success(value),
        Err(error) => RetryOutcome::Failure(error),
    }
}

/// Whether the first `count` of `outcomes` are all failures.
pub open spec fn all_fail<T, E>(outcomes: Seq<Result<T, E>>, count: nat) -> bool {
    forall|i: int| 0 <= i < count ==> (#[trigger] outcomes[i]) is Err
}

/// A run that starts with `failures` failed attempts, none of them the
/// last permitted one, is that many attempts and waits followed by the run
/// from the attempt that is then due.
proof fn lemma_run_through_failures<T, E>(
    config: RetryConfig,
    attempt: nat,
    outcomes: Seq<Result<T, E>>,
    failures: nat,
)
    requires
        attempt + failures <= config.max_retries,
        failures <= outcomes.len(),
        all_fail(outcomes, failures),
    ensures
        ({
            let rest = run_from(
                config,
                RetryState::Attempting((attempt + failures) as usize),
                outcomes.skip(failures as int),
            );
            let all = run_from(config, RetryState::Attempting(attempt as usize), outcomes);
            &&& all.invocations == failures + rest.invocations
            &&& all.sleeps == Seq::new(
                failures,
                |i: int| delay_spec(config.base_delay, (attempt + i) as nat),
            ) + rest.sleeps
            &&& all.outcome == rest.outcome
        }),
    decreases failures,
{
    if failures == 0 {
        assert(outcomes.skip(0) =~= outcomes);
    } else {
        let tail = outcomes.drop_first();
        lemma_run_through_failures(config, attempt + 1, tail, (failures - 1) as nat);
        assert(tail.skip(failures - 1) =~= outcomes.skip(failures as int));
    }
}

/// An operation that fails on every attempt is invoked once and then once
/// per retry, with the scheduled wait after every attempt but the last;
/// the call ends with the error of the last attempt.
pub proof fn run_always_failing<T, E>(config: RetryConfig, outcomes: Seq<Result<T, E>>)
    requires
        outcomes.len() > config.max_retries,
        all_fail(outcomes, (config.max_retries + 1) as nat),
    ensures
        run(config, outcomes).invocations == config.max_retries + 1,
        run(config, outcomes).sleeps == schedule_spec(
            config.base_delay,
            config.max_retries as nat,
        ),
        run(config, outcomes).outcome == Some(
            RetryOutcome::<T, E>::Failure(outcomes[config.max_retries as int]->Err_0),
        ),
{
    lemma_run_through_failures(config, 0, outcomes, config.max_retries as nat);
}

/// An operation that fails `failures` times and then succeeds, with
/// `failures` no greater than the number of retries, is invoked
/// `failures + 1` times; the call ends with the value of the attempt that
/// succeeded, after exactly `failures` waits: the scheduled ones, in order,
/// each of them `base_delay * 2^i` wherever that fits the range of waits.
pub proof fn run_failing_then_succeeding<T, E>(
    config: RetryConfig,
    outcomes: Seq<Result<T, E>>,
    failures: nat,
)
    requires
        failures <= config.max_retries,
        failures < outcomes.len(),
        all_fail(outcomes, failures),
        outcomes[failures as int] is Ok,
    ensures
        run(config, outcomes).invocations == failures + 1,
        run(config, outcomes).outcome == Some(
            RetryOutcome::<T, E>::Success(outcomes[failures as int]->Ok_0),
        ),
        run(config, outcomes).sleeps == schedule_spec(config.base_delay, failures),
        forall|i: int|
            0 <= i < failures && config.base_delay * pow2(i as nat) <= u64::MAX ==> (
            #[trigger] run(config, outcomes).sleeps[i]) == config.base_delay * pow2(i as nat),
{
    lemma_run_through_failures(config, 0, outcomes, failures);
}

/// Without retries the operation is invoked exactly once and nothing is
/// slept, whatever the attempt's outcome; the call ends with that outcome.
pub proof fn run_without_retries<T, E>(config: RetryConfig, outcomes: Seq<Result<T, E>>)
    requires
        config.max_retries == 0,
        outcomes.len() > 0,
    ensures
        run(config, outcomes).invocations == 1,
        run(config, outcomes).sleeps == Seq::<u64>::empty(),
        run(config, outcomes).outcome == Some(outcome_of(outcomes[0])),
{
}

/// The shape of every run: the operation is invoked at least once and at
/// most once more than there are retries; every attempt but the one that
/// ends the call is a failure and is followed by its scheduled wait, so
/// that the waits never shrink; a success ends the call with its value at
/// once; a failure ends it, with its error, exactly where it is the last
/// permitted attempt; and a call has not ended only where the outcomes ran
/// out.
pub proof fn run_shape<T, E>(config: RetryConfig, outcomes: Seq<Result<T, E>>)
    ensures
        ({
            let r = run(config, outcomes);
            let last = r.invocations - 1;
            &&& r.invocations <= outcomes.len()
            &&& r.invocations <= config.max_retries + 1
            &&& outcomes.len() > 0 ==> r.invocations >= 1
            &&& r.sleeps == schedule_spec(config.base_delay, r.sleeps.len())
            &&& forall|i: int, j: int|
                0 <= i <= j < r.sleeps.len() ==> r.sleeps[i] <= r.sleeps[j]
            &&& r.outcome is Some ==> r.sleeps.len() == last && all_fail(outcomes, last as nat)
                && r.outcome == Some(outcome_of(outcomes[last])) && (outcomes[last] is Err ==> last
                == config.max_retries)
            &&& r.outcome is None ==> r.invocations == outcomes.len() && r.sleeps.len()
                == outcomes.len() && all_fail(outcomes, outcomes.len())
        }),
{
    lemma_run_shape_from(config, 0, outcomes);
    let r = run(config, outcomes);
    assert forall|i: int, j: int| 0 <= i <= j < r.sleeps.len() implies r.sleeps[i]
        <= r.sleeps[j] by {
        delay_is_monotonic(config.base_delay, i as nat, j as nat);
    }
}

/// `run_shape`, for a run that starts at any attempt.
proof fn lemma_run_shape_from<T, E>(config: RetryConfig, attempt: nat, outcomes: Seq<Result<T, E>>)
    requires
        attempt <= config.max_retries,
    ensures
        ({
            let r = run_from(config, RetryState::Attempting(attempt as usize), outcomes);
            let last = r.invocations - 1;
            &&& r.invocations <= outcomes.len()
            &&& attempt + r.invocations <= config.max_retries + 1
            &&& outcomes.len() > 0 ==> r.invocations >= 1
            &&& r.sleeps == Seq::new(
                r.sleeps.len(),
                |i: int| delay_spec(config.base_delay, (attempt + i) as nat),
            )
            &&& r.outcome is Some ==> r.sleeps.len() == last && all_fail(outcomes, last as nat)
                && r.outcome == Some(outcome_of(outcomes[last])) && (outcomes[last] is Err
                ==> attempt + last == config.max_retries)
            &&& r.outcome is None ==> r.invocations == outcomes.len() && r.sleeps.len()
                == outcomes.len() && all_fail(outcomes, outcomes.len())
        }),
    decreases outcomes.len(),
{
    if outcomes.len() > 0 && outcomes[0] is Err && attempt < config.max_retries {
        let tail = outcomes.drop_first();
        let rest = run_from(config, RetryState::Attempting((attempt + 1) as usize), tail);
        lemma_run_shape_from(config, attempt + 1, tail);
        assert forall|i: int| 0 <= i < rest.invocations implies (#[trigger] outcomes[i]) is Err by {
            if i > 0 {
                assert(tail[i - 1] == outcomes[i]);
            }
        }
    }
}

/// Replays recorded outcomes through the executor: drives it from its
/// initial state as far as `outcomes` reach, sleeping nothing, and reports
/// how often the operation would have been invoked, which waits would have
/// been slept, and how the call would have ended.
pub fn replay<T, E>(config: &RetryConfig, outcomes: Vec<Result<T, E>>) -> (report: Run<T, E>)
    ensures
        report@ == run(*config, outcomes@),
{
    let ghost recorded = outcomes@;
    let total: usize = outcomes.len();
    let mut state = initial_state();
    let mut invocations: usize = 0;
    let mut sleeps: Vec<u64> = Vec::new();
    let mut outcome: Option<RetryOutcome<T, E>> = None;
    let mut running = true;
    proof {
        assert(recorded.skip(0) =~= recorded);
    }
    for attempt_outcome in attempts: outcomes
        invariant
            recorded.len() == total,
            attempts.seq() == recorded,
            invocations <= attempts.index(),
            running ==> outcome is None,
            ({
                let rest = if running {
                    run_from(*config, state, recorded.skip(attempts.index() as int))
                } else {
                    RunView { invocations: 0, sleeps: Seq::empty(), outcome }
                };
                &&& run(*config, recorded).invocations == invocations + rest.invocations
                &&& run(*config, recorded).sleeps == sleeps@ + rest.sleeps
                &&& run(*config, recorded).outcome == rest.outcome
            }),
    {
        if running {
            proof {
                let due = recorded.skip(attempts.index() as int);
                assert(due.drop_first() =~= recorded.skip(attempts.index() + 1));
            }
            invocations += 1;
            match step(config, state, Event::Completed(attempt_outcome)) {
                Some((_, Action::Finish(end))) => {
                    outcome = Some(end);
                    running = false;
                },
                Some((waiting, Action::Sleep(wait))) => {
                    sleeps.push(wait);
                    match step::<T, E>(config, waiting, Event::SleepElapsed) {
                        Some((next, Action::Invoke)) => {
                            state = next;
                        },
                        _ => {
                            running = false;
                        },
                    }
                },
                _ => {
                    running = false;
                },
            }
        }
    }
    Run { invocations, sleeps, outcome }
}

} // verus!
