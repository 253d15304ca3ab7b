//! What each operation on a driver future does, and what it answers.

use super::state::panicked_message;
use super::state::{AftermathView, EffectView, StateView};
use super::{Polling, Starting, StartingView};
use crate::callbacks::{Callback, CallbackKind};
use crate::coroutine::{Coroutine, CoroutineView, PollResultView};
use crate::exception::{described, outcome_view, stop_iteration};
use crate::exception::{ErrorClass, Exception, ExceptionView, Outcome, OutcomeView};
use crate::exception::{Raised, RaisedView};
use std::sync::Arc;
use vstd::prelude::*;

verus! {

/// The first half of moving a future to the tokio runtime: if the event loop drives it, it is
/// taken out of its coroutine, and the waker that it is parked on is kept, to be woken by the
/// task. `callbacks` are those that wait for it already.
pub open spec fn start_begun<F, W, H, O, X>(
    state: StateView<F, W, H, O, X>,
    callbacks: Seq<CallbackKind<O>>,
    fresh: W,
) -> (StateView<F, W, H, O, X>, Option<(F, StartingView<W, O>)>) {
    match state {
        StateView::PendingAsyncio { coroutine } => (
            StateView::Panicked,
            Some(
                (
                    coroutine.future,
                    StartingView { waker: coroutine.waker_or(fresh), callbacks },
                ),
            ),
        ),
        _ => (state, None),
    }
}

/// The second half: the task that drives the future can be aborted through `abort_handle`. A future
/// of which no transition is in progress is left as it is.
pub open spec fn start_completed<F, W, H, O, X>(
    state: StateView<F, W, H, O, X>,
    starting: StartingView<W, O>,
    abort_handle: H,
) -> StateView<F, W, H, O, X> {
    match state {
        StateView::Panicked => StateView::PendingTokio {
            callbacks: starting.callbacks,
            abort_handle,
            waker: starting.waker,
        },
        _ => state,
    }
}

/// What to do about a poll.
#[derive(Debug)]
pub enum PollStep<F, W, O, X> {
    /// Raise this: the future is past polling.
    Raise(Raised<O, X>),
    /// Yield the asyncio future of this waker: the future is driven elsewhere.
    Yield(Arc<W>),
    /// Poll the coroutine, and report what that came to with [`PyDriverFuture::polled`].
    Drive { coroutine: Coroutine<F, W>, polling: Polling },
}

/// What a [`PollStep`] stands for.
pub enum PollStepView<F, W, O, X> {
    Raise(RaisedView<O, X>),
    Yield(W),
    Drive { coroutine: CoroutineView<F, W> },
}

impl<F, W, O, X> View for PollStep<F, W, O, X> {
    type V = PollStepView<F, W, O, X>;

    open spec fn view(&self) -> PollStepView<F, W, O, X> {
        match self {
            PollStep::Raise(raised) => PollStepView::Raise(raised@),
            PollStep::Yield(waker) => PollStepView::Yield(**waker),
            PollStep::Drive { coroutine, .. } => PollStepView::Drive { coroutine: coroutine@ },
        }
    }
}

/// The first half of a poll. A future that has resolved ends the iteration, one on the tokio
/// runtime is waited for, one that the event loop drives is taken out to be polled, and one that
/// a panic left behind is reported.
pub open spec fn poll_begun<F, W, H, O, X>(state: StateView<F, W, H, O, X>) -> (
    StateView<F, W, H, O, X>,
    PollStepView<F, W, O, X>,
) {
    match state {
        StateView::Ready { result, .. } => (state, PollStepView::Raise(stop_iteration(result))),
        StateView::PendingTokio { waker, .. } => (state, PollStepView::Yield(waker)),
        StateView::PendingAsyncio { coroutine } => (
            StateView::Panicked,
            PollStepView::Drive { coroutine },
        ),
        StateView::Panicked => (
            state,
            PollStepView::Raise(
                RaisedView::Exception(described(ErrorClass::Runtime, panicked_message())),
            ),
        ),
    }
}

/// What a Python coroutine method comes to: the object to yield, or what to raise.
pub type Reply<O, X> = Result<Arc<O>, Raised<O, X>>;

/// What a [`Reply`] stands for.
pub type ReplyView<O, X> = Result<O, RaisedView<O, X>>;

/// The view of a [`Reply`].
pub open spec fn reply_view<O, X>(reply: Reply<O, X>) -> ReplyView<O, X> {
    match reply {
        Ok(value) => Ok(*value),
        Err(raised) => Err(raised@),
    }
}

/// An outcome as the reply of a method: an exception is raised.
pub open spec fn reply_with<O, X>(value: OutcomeView<O, X>) -> ReplyView<O, X> {
    match value {
        Ok(value) => Ok(value),
        Err(exception) => Err(RaisedView::Exception(exception)),
    }
}

/// What a poll that came to `result` answers: a future that is still pending yields, one that
/// completed ends the iteration.
pub open spec fn poll_reply<F, W, O, X>(result: PollResultView<F, W, O, X>) -> ReplyView<O, X> {
    match result {
        PollResultView::Pending { value, .. } => reply_with(value),
        PollResultView::Ready(result) => Err(stop_iteration(result)),
    }
}

/// The second half of a poll, which came to `result`: a future that is still pending goes back
/// to where it was, one that completed is resolved for good. A future of which no transition is in
/// progress is left as it is.
pub open spec fn poll_completed<F, W, H, O, X>(
    state: StateView<F, W, H, O, X>,
    result: PollResultView<F, W, O, X>,
) -> (StateView<F, W, H, O, X>, AftermathView<H, W, O, X>, ReplyView<O, X>) {
    match (state, result) {
        (StateView::Panicked, PollResultView::Pending { coroutine, .. }) => (
            StateView::PendingAsyncio { coroutine },
            AftermathView::nothing(),
            poll_reply(result),
        ),
        (StateView::Panicked, PollResultView::Ready(outcome)) => (
            StateView::Ready { result: outcome, cancelled: false },
            AftermathView::inline(seq![EffectView::NotifyAll]),
            poll_reply(result),
        ),
        _ => (state, AftermathView::nothing(), poll_reply(result)),
    }
}

/// An exception thrown into a future. One that is still pending resolves to it; its task, if it
/// has one, is aborted, and its callbacks fire. Whoever throws gets the exception back, except
/// out of a future that a panic left behind.
pub open spec fn thrown<F, W, H, O, X>(
    state: StateView<F, W, H, O, X>,
    exc: ExceptionView<X>,
) -> (StateView<F, W, H, O, X>, AftermathView<H, W, O, X>, ReplyView<O, X>) {
    match state {
        StateView::Ready { .. } => (
            state,
            AftermathView::nothing(),
            Err(RaisedView::Exception(exc)),
        ),
        StateView::PendingAsyncio { .. } => (
            StateView::Ready { result: Err(exc), cancelled: false },
            AftermathView::inline(seq![EffectView::NotifyAll]),
            Err(RaisedView::Exception(exc)),
        ),
        StateView::PendingTokio { callbacks, abort_handle, waker } => (
            StateView::Ready { result: Err(exc), cancelled: false },
            AftermathView {
                abort: Some(abort_handle),
                offload: false,
                effects: seq![
                    EffectView::Wake(waker),
                    EffectView::NotifyAll,
                    EffectView::Fire { callbacks, result: Err(exc) },
                ],
            },
            Err(RaisedView::Exception(exc)),
        ),
        StateView::Panicked => (
            state,
            AftermathView::nothing(),
            Err(RaisedView::Exception(described(ErrorClass::Runtime, panicked_message()))),
        ),
    }
}

/// A future closed with an exception: one that is still pending resolves to it. Whoever is parked
/// on it is woken, its task, if it has one, is aborted, and its callbacks fire. `cancelled` says
/// whether this is a cancellation.
pub open spec fn closed<F, W, H, O, X>(
    state: StateView<F, W, H, O, X>,
    exc: ExceptionView<X>,
    cancelled: bool,
) -> (StateView<F, W, H, O, X>, AftermathView<H, W, O, X>) {
    match state {
        StateView::PendingTokio { callbacks, abort_handle, waker } => (
            StateView::Ready { result: Err(exc), cancelled },
            AftermathView {
                abort: Some(abort_handle),
                offload: false,
                effects: seq![
                    EffectView::NotifyAll,
                    EffectView::Wake(waker),
                    EffectView::Fire { callbacks, result: Err(exc) },
                ],
            },
        ),
        StateView::PendingAsyncio { coroutine } => (
            StateView::Ready { result: Err(exc), cancelled },
            AftermathView::inline(
                match coroutine.waker {
                    Some(waker) => seq![EffectView::NotifyAll, EffectView::Wake(waker)],
                    None => seq![EffectView::NotifyAll],
                },
            ),
        ),
        _ => (state, AftermathView::nothing()),
    }
}

/// The task of a future completed. If the future still waits for it, it resolves to what the task
/// came to; its callbacks fire first, on a thread of their own, then whoever is parked on it and
/// whoever waits for it is told. A future that was resolved otherwise is left alone.
pub open spec fn task_completion<F, W, H, O, X>(
    state: StateView<F, W, H, O, X>,
    result: OutcomeView<O, X>,
) -> (StateView<F, W, H, O, X>, AftermathView<H, W, O, X>) {
    match state {
        StateView::PendingTokio { callbacks, waker, .. } => (
            StateView::Ready { result, cancelled: false },
            if callbacks.len() == 0 {
                AftermathView::inline(seq![EffectView::Wake(waker), EffectView::NotifyAll])
            } else {
                AftermathView {
                    abort: None,
                    offload: true,
                    effects: seq![
                        EffectView::Fire { callbacks, result },
                        EffectView::Wake(waker),
                        EffectView::NotifyAll,
                    ],
                }
            },
        ),
        _ => (state, AftermathView::nothing()),
    }
}

/// What to do for a thread that wants the result.
#[derive(Debug)]
pub enum BlockStep<F, W, O, X> {
    /// Hand this out: there is nothing to wait for.
    Return(Outcome<O, X>),
    /// Wait.
    Wait,
    /// Spawn the future, report that with [`PyDriverFuture::started`], and wait.
    Start { future: F, starting: Starting<W, O> },
}

/// What a [`BlockStep`] stands for.
pub enum BlockStepView<F, W, O, X> {
    Return(OutcomeView<O, X>),
    Wait,
    Start { future: F, starting: StartingView<W, O> },
}

impl<F, W, O, X> View for BlockStep<F, W, O, X> {
    type V = BlockStepView<F, W, O, X>;

    open spec fn view(&self) -> BlockStepView<F, W, O, X> {
        match self {
            BlockStep::Return(result) => BlockStepView::Return(outcome_view(*result)),
            BlockStep::Wait => BlockStepView::Wait,
            BlockStep::Start { future, starting } => BlockStepView::Start {
                future: *future,
                starting: starting@,
            },
        }
    }
}

/// The outcome that a future in a terminal state hands out.
pub open spec fn settled<F, W, H, O, X>(state: StateView<F, W, H, O, X>) -> OutcomeView<O, X> {
    match state {
        StateView::Ready { result, .. } => result,
        _ => Err(described(ErrorClass::Runtime, panicked_message())),
    }
}

/// A thread asks for the result: it gets it if there is one, and waits otherwise, for a future
/// that is moved to the tokio runtime if it is not there yet.
pub open spec fn block_begun<F, W, H, O, X>(state: StateView<F, W, H, O, X>, fresh: W) -> (
    StateView<F, W, H, O, X>,
    BlockStepView<F, W, O, X>,
) {
    match state {
        StateView::PendingTokio { .. } => (state, BlockStepView::Wait),
        StateView::PendingAsyncio { coroutine } => (
            StateView::Panicked,
            BlockStepView::Start {
                future: coroutine.future,
                starting: StartingView {
                    waker: coroutine.waker_or(fresh),
                    callbacks: Seq::empty(),
                },
            },
        ),
        _ => (state, BlockStepView::Return(settled(state))),
    }
}

/// What to do with a callback that is being registered.
#[derive(Debug)]
pub enum RegisterStep<F, W, O, X> {
    /// Invoke it on this outcome: the future has one already.
    Invoke { callback: CallbackKind<O>, result: Outcome<O, X> },
    /// Nothing: it was added to those that wait.
    Queued,
    /// Spawn the future, and report that with [`PyDriverFuture::started`]; the callback then
    /// waits for it.
    Start { future: F, starting: Starting<W, O> },
}

/// What a [`RegisterStep`] stands for.
pub enum RegisterStepView<F, W, O, X> {
    Invoke { callback: CallbackKind<O>, result: OutcomeView<O, X> },
    Queued,
    Start { future: F, starting: StartingView<W, O> },
}

impl<F, W, O, X> View for RegisterStep<F, W, O, X> {
    type V = RegisterStepView<F, W, O, X>;

    open spec fn view(&self) -> RegisterStepView<F, W, O, X> {
        match self {
            RegisterStep::Invoke { callback, result } => RegisterStepView::Invoke {
                callback: *callback,
                result: outcome_view(*result),
            },
            RegisterStep::Queued => RegisterStepView::Queued,
            RegisterStep::Start { future, starting } => RegisterStepView::Start {
                future: *future,
                starting: starting@,
            },
        }
    }
}

/// A callback is registered: on a future that has an outcome, or never will, it is invoked right
/// away; on one with a task it is put behind those that wait already; one that the event loop
/// drives is moved to the tokio runtime, and the callback waits for it.
pub open spec fn register_begun<F, W, H, O, X>(
    state: StateView<F, W, H, O, X>,
    callback: CallbackKind<O>,
    fresh: W,
) -> (StateView<F, W, H, O, X>, RegisterStepView<F, W, O, X>) {
    match state {
        StateView::PendingTokio { callbacks, abort_handle, waker } => (
            StateView::PendingTokio { callbacks: callbacks.push(callback), abort_handle, waker },
            RegisterStepView::Queued,
        ),
        StateView::PendingAsyncio { coroutine } => (
            StateView::Panicked,
            RegisterStepView::Start {
                future: coroutine.future,
                starting: StartingView {
                    waker: coroutine.waker_or(fresh),
                    callbacks: seq![callback],
                },
            },
        ),
        _ => (state, RegisterStepView::Invoke { callback, result: settled(state) }),
    }
}

/// A callable is registered for success.
pub open spec fn success_registered<F, W, H, O, X>(
    state: StateView<F, W, H, O, X>,
    callable: O,
    fresh: W,
) -> (StateView<F, W, H, O, X>, RegisterStepView<F, W, O, X>) {
    register_begun(state, CallbackKind::OnSuccess(Callback { callable }), fresh)
}

/// A callable is registered for failure.
pub open spec fn failure_registered<F, W, H, O, X>(
    state: StateView<F, W, H, O, X>,
    callable: O,
    fresh: W,
) -> (StateView<F, W, H, O, X>, RegisterStepView<F, W, O, X>) {
    register_begun(state, CallbackKind::OnError(Callback { callable }), fresh)
}

/// Whether a wait for a future has failed, when it ended with its time `elapsed` or not.
pub open spec fn wait_failed<F, W, H, O, X>(
    state: StateView<F, W, H, O, X>,
    elapsed: bool,
) -> bool {
    elapsed && !state.is_terminal()
}

/// What a thread gets that has waited for a future, unless the wait has failed.
pub open spec fn waited<F, W, H, O, X>(
    state: StateView<F, W, H, O, X>,
    timed_out: bool,
) -> OutcomeView<O, X> {
    if timed_out {
        Err(described(ErrorClass::Timeout, "DriverFuture.result() timed out"@))
    } else {
        settled(state)
    }
}

/// How a future shows itself.
#[derive(Debug)]
pub enum Repr<X> {
    /// As this text.
    Text(String),
    /// As [`repr_exception`] of the text of this exception.
    Exception(Arc<Exception<X>>),
}

/// What a [`Repr`] stands for.
#[verifier::ext_equal]
pub enum ReprView<X> {
    Text(Seq<char>),
    Exception(ExceptionView<X>),
}

impl<X> View for Repr<X> {
    type V = ReprView<X>;

    open spec fn view(&self) -> ReprView<X> {
        match self {
            Repr::Text(text) => ReprView::Text(text@),
            Repr::Exception(exception) => ReprView::Exception(exception@),
        }
    }
}

/// How a future in a given state shows itself.
pub open spec fn shown<F, W, H, O, X>(state: StateView<F, W, H, O, X>) -> ReprView<X> {
    match state {
        StateView::PendingAsyncio { .. } | StateView::PendingTokio { .. } => ReprView::Text(
            "<DriverFuture pending>"@,
        ),
        StateView::Ready { result: Ok(_), .. } => ReprView::Text("<DriverFuture finished>"@),
        StateView::Ready { result: Err(exception), .. } => ReprView::Exception(exception),
        StateView::Panicked => ReprView::Text("<DriverFuture panicked>"@),
    }
}

/// How a future that failed shows itself, given the text of its exception.
pub open spec fn exception_repr(text: Seq<char>) -> Seq<char> {
    "<DriverFuture finished exception="@ + text + ">"@
}

/// How a future that failed shows itself, given the text of its exception.
pub fn repr_exception(text: &str) -> (repr: String)
    ensures
        repr@ == "<DriverFuture finished exception="@ + text@ + ">"@,
        repr@ == exception_repr(text@),
{
    "<DriverFuture finished exception=".to_string().concat(text).concat(">")
}

} // verus!
