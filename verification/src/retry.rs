//! The retry executor as a state machine.
//!
//! The executor itself neither runs the operation nor sleeps. A driver does
//! both: it starts in `RetryState::Attempting(0)`, invokes the operation,
//! and reports what happened as an `Event`; `step` answers with the next
//! state and the `Action` the driver has to perform next.

use crate::backoff::delay;
use crate::backoff::delay_spec;
use std::future::Future;
use vstd::prelude::*;

verus! {

/// An operation that can be attempted again and again: every call of `make`
/// starts one fresh attempt, which resolves to the attempt's outcome.
pub trait RetryFuture {
    type Fut<'a>: Future<Output = Result<Self::Ok, Self::Err>> + Send where Self: 'a;

    type Ok: Send;

    type Err: Send;

    fn make<'a>(&'a mut self) -> Self::Fut<'a>;
}

/// How often to retry and how long to wait at first.
#[derive(Clone, Copy, Debug, PartialEq, Eq)]
pub struct RetryConfig {
    /// The number of retries after the first attempt; the operation is
    /// invoked at most `max_retries + 1` times.
    pub max_retries: usize,
    /// The wait after the first failed attempt, in milliseconds.
    pub base_delay: u64,
}

/// Where one call of the executor stands.
#[derive(Clone, Copy, Debug, PartialEq, Eq)]
pub enum RetryState {
    /// The attempt with this index is to be made or is in flight.
    Attempting(usize),
    /// The attempt with this index has failed and the wait before the next
    /// one is running.
    WaitingToRetry(usize),
    /// An attempt succeeded.
    Success,
    /// The last permitted attempt failed.
    Exhausted,
    /// The call was cancelled while an attempt or a wait was in flight.
    Cancelled,
}

/// What the driver reports to the executor.
#[derive(Debug, PartialEq, Eq)]
pub enum Event<T, E> {
    /// The attempt in flight has completed with this outcome.
    Completed(Result<T, E>),
    /// The wait in progress has elapsed.
    SleepElapsed,
    /// The surrounding context has cancelled the call.
    Cancel,
}

/// How one call of the executor ends.
#[derive(Debug, PartialEq, Eq)]
pub enum RetryOutcome<T, E> {
    /// The value of the first attempt that succeeded.
    Success(T),
    /// The error of the last attempt, unchanged.
    Failure(E),
    /// The call was cancelled; no attempt's outcome is reported.
    Cancelled,
}

/// What the driver has to do next.
#[derive(Debug, PartialEq, Eq)]
pub enum Action<T, E> {
    /// Invoke the operation once more and report its outcome.
    Invoke,
    /// Wait this many milliseconds, then report that the wait has elapsed.
    Sleep(u64),
    /// Stop and hand this outcome to the caller.
    Finish(RetryOutcome<T, E>),
}

impl RetryState {
    /// The state in which every call starts: the first attempt is due.
    pub open spec fn initial() -> RetryState {
        RetryState::Attempting(0)
    }

    /// Whether the state can occur under `config`: an attempt's index
    /// never exceeds the number of retries, and a wait only follows an
    /// attempt that was not the last.
    pub open spec fn valid_for(self, config: RetryConfig) -> bool {
        match self {
            RetryState::Attempting(attempt) => attempt <= config.max_retries,
            RetryState::WaitingToRetry(attempt) => attempt < config.max_retries,
            _ => true,
        }
    }

    /// Whether the call has ended.
    pub open spec fn is_terminal(self) -> bool {
        self is Success || self is Exhausted || self is Cancelled
    }
}

/// The executor's transition relation, as a partial function: the next
/// state and the action to perform, or `None` where `state` cannot occur
/// under `config` or does not await `event`.
///
/// - A successful attempt ends the call with its value.
/// - A failed attempt that was the last one ends the call with its error.
/// - A failed attempt that was not the last one starts the wait
///   `delay_spec(config.base_delay, attempt)`; the error is dropped.
/// - An elapsed wait makes the next attempt due.
/// - A cancellation ends the call from any state that has not ended.
pub open spec fn transition<T, E>(config: RetryConfig, state: RetryState, event: Event<T, E>)
    -> Option<(RetryState, Action<T, E>)> {
    if !state.valid_for(config) {
        None
    } else {
        match (state, event) {
            (RetryState::Attempting(_), Event::Completed(Ok(value))) => Some(
                (RetryState::Success, Action::Finish(RetryOutcome::Success(value))),
            ),
            (RetryState::Attempting(attempt), Event::Completed(Err(error))) => if attempt
                == config.max_retries {
                Some((RetryState::Exhausted, Action::Finish(RetryOutcome::Failure(error))))
            } else {
                Some(
                    (
                        RetryState::WaitingToRetry(attempt),
                        Action::Sleep(delay_spec(config.base_delay, attempt as nat)),
                    ),
                )
            },
            (RetryState::WaitingToRetry(attempt), Event::SleepElapsed) => Some(
                (RetryState::Attempting((attempt + 1) as usize), Action::Invoke),
            ),
            (RetryState::Attempting(_), Event::Cancel) => Some(
                (RetryState::Cancelled, Action::Finish(RetryOutcome::Cancelled)),
            ),
            (RetryState::WaitingToRetry(_), Event::Cancel) => Some(
                (RetryState::Cancelled, Action::Finish(RetryOutcome::Cancelled)),
            ),
            _ => None,
        }
    }
}

/// Only a call that has not ended accepts an event, and every state that
/// the executor moves to can occur under its configuration: an attempt's
/// index never exceeds the number of retries. The action tells where the
/// executor then stands: at an attempt after `Invoke`, in a wait after
/// `Sleep`, and at an end after `Finish`.
pub proof fn transition_keeps_states_valid<T, E>(
    config: RetryConfig,
    state: RetryState,
    event: Event<T, E>,
)
    ensures
        transition(config, state, event) matches Some((next, action)) ==> {
            &&& state.valid_for(config)
            &&& !state.is_terminal()
            &&& next.valid_for(config)
            &&& action is Invoke <==> next is Attempting
            &&& action is Sleep <==> next is WaitingToRetry
            &&& action is Finish <==> next.is_terminal()
        },
{
}

/// Once a call has ended it stays ended: no event is accepted, so nothing
/// is invoked and nothing is slept after a success, after the last
/// failure, or after a cancellation.
pub proof fn ended_call_accepts_nothing<T, E>(
    config: RetryConfig,
    state: RetryState,
    event: Event<T, E>,
)
    requires
        state.is_terminal(),
    ensures
        transition(config, state, event) is None,
{
}

/// A cancellation ends a call that has not ended, whether an attempt or a
/// wait is in flight, and what it reports is the cancellation, not an
/// outcome of the operation.
pub proof fn cancellation_ends_the_call<T, E>(config: RetryConfig, state: RetryState)
    requires
        state.valid_for(config),
        !state.is_terminal(),
    ensures
        transition(config, state, Event::<T, E>::Cancel) == Some(
            (RetryState::Cancelled, Action::<T, E>::Finish(RetryOutcome::Cancelled)),
        ),
{
}

/// The state in which every call starts.
pub fn initial_state() -> (state: RetryState)
    ensures
        state == RetryState::initial(),
{
    RetryState::Attempting(0)
}

/// Advances the executor by one event.
///
/// Returns the next state and the action that the driver has to perform,
/// or `None` where `state` cannot occur under `config` or does not await
/// `event`.
pub fn step<T, E>(config: &RetryConfig, state: RetryState, event: Event<T, E>) -> (next: Option<
    (RetryState, Action<T, E>),
>)
    ensures
        next == transition(*config, state, event),
{
    match state {
        RetryState::Attempting(attempt) => {
            if attempt > config.max_retries {
                return None;
            }
            match event {
                Event::Completed(Ok(value)) => Some(
                    (RetryState::Success, Action::Finish(RetryOutcome::Success(value))),
                ),
                Event::Completed(Err(error)) => {
                    if attempt == config.max_retries {
                        Some((RetryState::Exhausted, Action::Finish(RetryOutcome::Failure(error))))
                    } else {
                        let wait: u64 = delay(attempt, config.base_delay);
                        Some((RetryState::WaitingToRetry(attempt), Action::Sleep(wait)))
                    }
                },
                Event::SleepElapsed => None,
                Event::Cancel => Some(
                    (RetryState::Cancelled, Action::Finish(RetryOutcome::Cancelled)),
                ),
            }
        },
        RetryState::WaitingToRetry(attempt) => {
            if attempt >= config.max_retries {
                return None;
            }
            match event {
                Event::SleepElapsed => Some((RetryState::Attempting(attempt + 1), Action::Invoke)),
                Event::Cancel => Some(
                    (RetryState::Cancelled, Action::Finish(RetryOutcome::Cancelled)),
                ),
                Event::Completed(_) => None,
            }
        },
        _ => None,
    }
}

} // verus!
