//! The decisions of an operation on a non-blocking socket that waits for
//! readiness instead of blocking.
//!
//! The caller owns the reactor and makes the system calls. It tells what
//! happened, one event at a time, and is told what to do next: wait until
//! the descriptor is ready, make one attempt, forget the readiness that
//! turned out stale and wait again, or hand the result to whoever asked.

use vstd::prelude::*;

verus! {

/// What one attempt at the system call came to.
#[derive(Debug)]
pub enum Attempt<T, B, E> {
    /// The call went through, or failed for good.
    Finished(Result<T, E>),
    /// The call would have blocked. The buffer that was lent to it comes
    /// back.
    WouldBlock(B),
}

/// What the caller reports.
#[derive(Debug)]
pub enum AioEvent<T, B, E> {
    /// Waiting for readiness ended: the descriptor is ready, or waiting
    /// itself failed.
    Readiness(Result<(), E>),
    /// The attempt was made.
    Attempted(Attempt<T, B, E>),
}

/// Where an operation stands.
#[derive(Debug)]
pub enum AioState<B> {
    /// Waiting for readiness, the buffer at hand.
    Waiting(B),
    /// An attempt is under way and has the buffer.
    Attempting,
    /// The operation is over.
    Done,
}

/// What the caller is to do next.
#[derive(Debug)]
pub enum AioAction<T, B, E> {
    /// Wait until the descriptor is ready.
    Await,
    /// Make one attempt at the system call, with this buffer.
    Attempt(B),
    /// Forget that the descriptor was ready, and wait until it is ready
    /// anew.
    ClearReadyAndAwait,
    /// The operation is over, and this is its result.
    Return(Result<T, E>),
}

/// Whether an event can come in a state: readiness while waiting, the
/// outcome of an attempt while attempting.
pub open spec fn accepts<T, B, E>(state: AioState<B>, event: AioEvent<T, B, E>) -> bool {
    match (state, event) {
        (AioState::Waiting(_), AioEvent::Readiness(_)) => true,
        (AioState::Attempting, AioEvent::Attempted(_)) => true,
        _ => false,
    }
}

/// The state that follows an event, and what to do then.
///
/// When the descriptor is ready, one attempt is made with the buffer. When
/// waiting fails, the operation ends with that error. When the attempt
/// would have blocked, the readiness was stale: it is cleared and waited
/// for anew, with the buffer that came back. Any other outcome of the
/// attempt is the result of the operation.
pub open spec fn spec_step<T, B, E>(state: AioState<B>, event: AioEvent<T, B, E>) -> (
    AioState<B>,
    AioAction<T, B, E>,
) {
    match (state, event) {
        (AioState::Waiting(buffer), AioEvent::Readiness(Ok(_))) => (
            AioState::Attempting,
            AioAction::Attempt(buffer),
        ),
        (AioState::Waiting(_), AioEvent::Readiness(Err(error))) => (
            AioState::Done,
            AioAction::Return(Err(error)),
        ),
        (AioState::Attempting, AioEvent::Attempted(Attempt::WouldBlock(buffer))) => (
            AioState::Waiting(buffer),
            AioAction::ClearReadyAndAwait,
        ),
        (AioState::Attempting, AioEvent::Attempted(Attempt::Finished(result))) => (
            AioState::Done,
            AioAction::Return(result),
        ),
        (state, _) => (state, AioAction::Await),
    }
}

/// Begins an operation: the buffer is kept, and the descriptor is waited
/// for.
pub fn start<T, B, E>(buffer: B) -> (r: (AioState<B>, AioAction<T, B, E>))
    ensures
        r.0 == AioState::Waiting(buffer),
        r.1 == AioAction::<T, B, E>::Await,
{
    (AioState::Waiting(buffer), AioAction::Await)
}

/// Tells whether an event can come in a state.
pub fn is_accepted<T, B, E>(state: &AioState<B>, event: &AioEvent<T, B, E>) -> (b: bool)
    ensures
        b == accepts(*state, *event),
{
    match (state, event) {
        (AioState::Waiting(_), AioEvent::Readiness(_)) => true,
        (AioState::Attempting, AioEvent::Attempted(_)) => true,
        _ => false,
    }
}

/// Takes an event to the next state and says what to do then.
pub fn step<T, B, E>(state: AioState<B>, event: AioEvent<T, B, E>) -> (r: (AioState<B>, AioAction<T, B, E>))
    requires
        accepts(state, event),
    ensures
        r == spec_step(state, event),
{
    match (state, event) {
        (AioState::Waiting(buffer), AioEvent::Readiness(Ok(_))) => (
            AioState::Attempting,
            AioAction::Attempt(buffer),
        ),
        (AioState::Waiting(_), AioEvent::Readiness(Err(error))) => (
            AioState::Done,
            AioAction::Return(Err(error)),
        ),
        (AioState::Attempting, AioEvent::Attempted(Attempt::WouldBlock(buffer))) => (
            AioState::Waiting(buffer),
            AioAction::ClearReadyAndAwait,
        ),
        (AioState::Attempting, AioEvent::Attempted(Attempt::Finished(result))) => (
            AioState::Done,
            AioAction::Return(result),
        ),
        (state, _) => (state, AioAction::Await),
    }
}

/// The state after a run of events.
pub open spec fn run<T, B, E>(state: AioState<B>, events: Seq<AioEvent<T, B, E>>) -> AioState<B>
    decreases events.len(),
{
    if events.len() == 0 {
        state
    } else {
        run(spec_step(state, events[0]).0, events.drop_first())
    }
}

/// Whether each event of a run can come in the state that the events before
/// it lead to.
pub open spec fn run_accepted<T, B, E>(state: AioState<B>, events: Seq<AioEvent<T, B, E>>) -> bool
    decreases events.len(),
{
    events.len() > 0 ==> accepts(state, events[0]) && run_accepted(
        spec_step(state, events[0]).0,
        events.drop_first(),
    )
}

/// The number of attempts that a run of events asks for.
pub open spec fn attempts<T, B, E>(state: AioState<B>, events: Seq<AioEvent<T, B, E>>) -> nat
    decreases events.len(),
{
    if events.len() == 0 {
        0
    } else {
        let (next, action) = spec_step(state, events[0]);
        (if action is Attempt { 1nat } else { 0nat }) + attempts(next, events.drop_first())
    }
}

/// The number of times that a run of events reports the descriptor ready.
pub open spec fn readies<T, B, E>(events: Seq<AioEvent<T, B, E>>) -> nat
    decreases events.len(),
{
    if events.len() == 0 {
        0
    } else {
        (if events[0] matches AioEvent::Readiness(Ok(_)) { 1nat } else { 0nat }) + readies(
            events.drop_first(),
        )
    }
}

/// The number of attempts in a run of events that would have blocked.
pub open spec fn would_blocks<T, B, E>(events: Seq<AioEvent<T, B, E>>) -> nat
    decreases events.len(),
{
    if events.len() == 0 {
        0
    } else {
        (if events[0] matches AioEvent::Attempted(Attempt::WouldBlock(_)) {
            1nat
        } else {
            0nat
        }) + would_blocks(events.drop_first())
    }
}

/// An operation makes exactly one attempt each time the descriptor is
/// reported ready, and none otherwise: there is no attempt without
/// readiness, and no second attempt on one readiness.
pub proof fn lemma_one_attempt_per_readiness<T, B, E>(
    state: AioState<B>,
    events: Seq<AioEvent<T, B, E>>,
)
    requires
        run_accepted(state, events),
    ensures
        attempts(state, events) == readies(events),
    decreases events.len(),
{
    if events.len() > 0 {
        lemma_one_attempt_per_readiness(spec_step(state, events[0]).0, events.drop_first());
    }
}

/// An operation that is still under way has waited once at its start and
/// once more for each attempt that would have blocked, and has made an
/// attempt each time its wait ended: it is waiting exactly when the two
/// counts are equal, and attempting when it was ready once more.
pub proof fn lemma_retry_only_on_would_block<T, B, E>(buffer: B, events: Seq<AioEvent<T, B, E>>)
    requires
        run_accepted(AioState::Waiting(buffer), events),
    ensures
        run(AioState::Waiting(buffer), events) is Waiting ==> readies(events) == would_blocks(
            events,
        ),
        run(AioState::Waiting(buffer), events) is Attempting ==> readies(events) == would_blocks(
            events,
        ) + 1,
{
    lemma_balance(AioState::Waiting(buffer), events);
}

/// The balance of readiness and would-block events along a run, from
/// either state in which an operation is under way.
proof fn lemma_balance<T, B, E>(state: AioState<B>, events: Seq<AioEvent<T, B, E>>)
    requires
        run_accepted(state, events),
    ensures
        state is Waiting && run(state, events) is Waiting ==> readies(events) == would_blocks(
            events,
        ),
        state is Waiting && run(state, events) is Attempting ==> readies(events) == would_blocks(
            events,
        ) + 1,
        state is Attempting && run(state, events) is Waiting ==> readies(events) + 1
            == would_blocks(events),
        state is Attempting && run(state, events) is Attempting ==> readies(events)
            == would_blocks(events),
        state is Done ==> events.len() == 0,
    decreases events.len(),
{
    if events.len() > 0 {
        lemma_balance(spec_step(state, events[0]).0, events.drop_first());
    }
}

/// The buffer of an operation is never lost and never replaced: the one
/// that comes back from an attempt that would have blocked is the one that
/// the next attempt gets.
pub proof fn lemma_buffer_handed_back<T, B, E>(buffer: B)
    ensures
        ({
            let would_block = AioEvent::<T, B, E>::Attempted(Attempt::WouldBlock(buffer));
            let ready = AioEvent::<T, B, E>::Readiness(Ok(()));
            let (waiting, first) = spec_step(AioState::Attempting, would_block);
            let (attempting, second) = spec_step(waiting, ready);
            &&& waiting == AioState::Waiting(buffer)
            &&& first == AioAction::<T, B, E>::ClearReadyAndAwait
            &&& attempting == AioState::<B>::Attempting
            &&& second == AioAction::<T, B, E>::Attempt(buffer)
        }),
{
}

/// An operation ends with the outcome of an attempt that did not block, or
/// with the error of a wait that failed, and with nothing else.
pub proof fn lemma_returns<T, B, E>(state: AioState<B>, event: AioEvent<T, B, E>)
    requires
        accepts(state, event),
    ensures
        ({
            let (next, action) = spec_step(state, event);
            &&& next is Done <==> action is Return
            &&& action matches AioAction::Return(result) ==> {
                ||| event == AioEvent::<T, B, E>::Attempted(Attempt::Finished(result))
                ||| (result is Err && event == AioEvent::<T, B, E>::Readiness(
                    Err(result->Err_0),
                ))
            }
        }),
{
}

} // verus!
