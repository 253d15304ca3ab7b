//! What each operation does to a future, one state at a time.
//!
//! The laws here are about all futures in a given state: whatever callbacks wait, whatever waker is
//! parked on, whatever an outcome holds.

use super::laws::{calls_made, performed, Operation};
use super::state::{cancelled_exception, closed_exception, panicked_message, resolved};
use super::state::{Aftermath, AftermathView, Effect, EffectView, FutureState, StateView};
use super::steps::{block_begun, closed, poll_begun, poll_completed, register_begun, reply_view};
use super::steps::{exception_repr, shown, start_begun, start_completed, task_completion, thrown};
use super::steps::{failure_registered, settled, success_registered, wait_failed, waited};
use super::steps::{BlockStep, BlockStepView, PollStep, PollStepView, RegisterStep, RegisterStepView};
use super::steps::{Reply, Repr, ReprView};
use super::StartingView;
use crate::callbacks::{Callback, CallbackKind};
use crate::callbacks::{calls_on, law_calls_follow_the_callbacks};
use crate::coroutine::poll_result;
use crate::coroutine::{CoroutineView, PollResultView, PolledView};
use crate::exception::outcome_view;
use crate::exception::{ErrorClass, ExceptionView, OutcomeView, RaisedView};
use vstd::prelude::*;

verus! {

/// A task that completes resolves its future, to what the task came to, whoever waits for it. Its
/// callbacks fire first, on a thread of their own if there are any; then whoever is parked on the
/// future is woken, and who waits for it is notified. The task itself is not aborted.
pub proof fn law_completed_task_resolves<F, W, H, O, X>(
    callbacks: Seq<CallbackKind<O>>,
    abort_handle: H,
    waker: W,
    result: OutcomeView<O, X>,
)
    ensures
        ({
            let state = StateView::<F, W, H, O, X>::PendingTokio { callbacks, abort_handle, waker };
            let (after, aftermath) = task_completion(state, result);
            let told = seq![EffectView::<W, O, X>::Wake(waker), EffectView::NotifyAll];
            &&& performed(state, Operation::Complete { result }) == (after, aftermath)
            &&& after == (StateView::<F, W, H, O, X>::Ready { result, cancelled: false })
            &&& aftermath.abort is None
            &&& aftermath.offload <==> callbacks.len() > 0
            &&& callbacks.len() == 0 ==> aftermath.effects == told
            &&& callbacks.len() > 0 ==> aftermath.effects == seq![
                EffectView::<W, O, X>::Fire { callbacks, result },
            ] + told
            &&& calls_made(aftermath.effects) == calls_on(callbacks, result)
        }),
{
    let state = StateView::<F, W, H, O, X>::PendingTokio { callbacks, abort_handle, waker };
    let effects = task_completion(state, result).1.effects;
    law_calls_follow_the_callbacks(callbacks, result);
    reveal_with_fuel(calls_made, 4);
    if callbacks.len() == 0 {
        assert(callbacks =~= Seq::empty());
        assert(effects.drop_last().drop_last().len() == 0);
        assert(calls_made(effects) =~= calls_on(callbacks, result));
    } else {
        assert(effects.drop_last().drop_last().drop_last().len() == 0);
        assert(effects.drop_last().drop_last().last() == effects[0]);
        assert(calls_made(effects) =~= calls_on(callbacks, result));
    }
}

/// Only a future with a task is touched by a task that completes.
pub proof fn law_task_resolves_no_other_future<F, W, H, O, X>(
    state: StateView<F, W, H, O, X>,
    result: OutcomeView<O, X>,
)
    requires
        !(state is PendingTokio),
    ensures
        task_completion(state, result) == (state, AftermathView::<H, W, O, X>::nothing()),
{
}

/// A future that is pending on the tokio runtime is awaited through the waker that its task wakes: a
/// poll yields that waker, changes nothing and never raises, whoever else waits.
pub proof fn law_spawned_future_is_awaited<F, W, H, O, X>(
    callbacks: Seq<CallbackKind<O>>,
    abort_handle: H,
    waker: W,
    polled: PollResultView<F, W, O, X>,
)
    ensures
        ({
            let state = StateView::<F, W, H, O, X>::PendingTokio { callbacks, abort_handle, waker };
            &&& poll_begun(state) == (state, PollStepView::<F, W, O, X>::Yield(waker))
            &&& performed(state, Operation::Poll { polled }) == (
                state,
                AftermathView::<H, W, O, X>::nothing(),
            )
        }),
{
}

/// A thread that wants the result of a future which is pending on the tokio runtime waits for it,
/// whoever else waits.
pub proof fn law_spawned_future_is_waited_for<F, W, H, O, X>(
    callbacks: Seq<CallbackKind<O>>,
    abort_handle: H,
    waker: W,
    fresh: W,
)
    ensures
        ({
            let state = StateView::<F, W, H, O, X>::PendingTokio { callbacks, abort_handle, waker };
            block_begun(state, fresh) == (state, BlockStepView::<F, W, O, X>::Wait)
        }),
{
}

/// A thread is sent away with an answer, a callback is invoked, and a poll raises right away, only if
/// the future is over; and if it is, that is what they get.
pub proof fn law_only_a_future_that_is_over_answers<F, W, H, O, X>(
    state: StateView<F, W, H, O, X>,
    callback: CallbackKind<O>,
    fresh: W,
)
    ensures
        ({
            let over = state is Ready || state is Panicked;
            &&& state.is_terminal() <==> over
            &&& block_begun(state, fresh).1 is Return <==> over
            &&& register_begun(state, callback, fresh).1 is Invoke <==> over
            &&& poll_begun(state).1 is Raise <==> over
        }),
{
}

/// A callback that is registered on a future with a task waits for it, behind those that wait
/// already, and nothing else about the future changes.
pub proof fn law_spawned_future_queues_callbacks<F, W, H, O, X>(
    callbacks: Seq<CallbackKind<O>>,
    abort_handle: H,
    waker: W,
    callback: CallbackKind<O>,
    fresh: W,
)
    ensures
        ({
            let state = StateView::<F, W, H, O, X>::PendingTokio { callbacks, abort_handle, waker };
            let (after, step) = register_begun(state, callback, fresh);
            &&& step == RegisterStepView::<F, W, O, X>::Queued
            &&& after == (StateView::<F, W, H, O, X>::PendingTokio {
                callbacks: callbacks + seq![callback],
                abort_handle,
                waker,
            })
        }),
{
    assert(callbacks.push(callback) =~= callbacks + seq![callback]);
}

/// A callable that is registered for success waits to be called on success, and one that is registered
/// for failure on failure, whatever the future has come to so far.
pub proof fn law_callables_are_registered_as_asked<F, W, H, O, X>(
    state: StateView<F, W, H, O, X>,
    callable: O,
    fresh: W,
)
    ensures
        success_registered(state, callable, fresh) == register_begun(
            state,
            CallbackKind::OnSuccess(Callback { callable }),
            fresh,
        ),
        failure_registered(state, callable, fresh) == register_begun(
            state,
            CallbackKind::OnError(Callback { callable }),
            fresh,
        ),
{
}

/// A future that has a task, or is over, is not started, whatever waits for it.
pub proof fn law_only_the_event_loop_hands_over<F, W, H, O, X>(
    state: StateView<F, W, H, O, X>,
    callbacks: Seq<CallbackKind<O>>,
    fresh: W,
)
    requires
        !(state is PendingAsyncio),
    ensures
        start_begun(state, callbacks, fresh).0 == state,
        start_begun(state, callbacks, fresh).1 is None,
{
}

/// A future with a task that is closed or cancelled resolves to the exception, whoever waits for it:
/// its task is aborted, who waits for it is notified, whoever is parked on it is woken, and its
/// callbacks fire, in this order and on the same thread. Only cancelling makes it cancelled.
pub proof fn law_spawned_future_is_closed<F, W, H, O, X>(
    callbacks: Seq<CallbackKind<O>>,
    abort_handle: H,
    waker: W,
    exc: ExceptionView<X>,
    cancelled: bool,
)
    ensures
        ({
            let state = StateView::<F, W, H, O, X>::PendingTokio { callbacks, abort_handle, waker };
            let (after, aftermath) = closed(state, exc, cancelled);
            let operation = if cancelled {
                Operation::<F, W, H, O, X>::Cancel { exc }
            } else {
                Operation::Close { exc }
            };
            &&& performed(state, operation) == (after, aftermath)
            &&& after == (StateView::<F, W, H, O, X>::Ready { result: Err(exc), cancelled })
            &&& aftermath.abort == Some(abort_handle)
            &&& !aftermath.offload
            &&& aftermath.effects == seq![
                EffectView::<W, O, X>::NotifyAll,
                EffectView::Wake(waker),
                EffectView::Fire { callbacks, result: Err(exc) },
            ]
        }),
{
}

/// A future that the event loop drives and that is closed or cancelled resolves to the exception: who
/// waits for it is notified, and whoever is parked on it, if anybody is, is woken.
pub proof fn law_driven_future_is_closed<F, W, H, O, X>(
    future: F,
    parked_on: Option<W>,
    exc: ExceptionView<X>,
    cancelled: bool,
)
    ensures
        ({
            let state = StateView::<F, W, H, O, X>::PendingAsyncio {
                coroutine: CoroutineView { future, waker: parked_on },
            };
            let (after, aftermath) = closed(state, exc, cancelled);
            let notify = EffectView::<W, O, X>::NotifyAll;
            &&& after == (StateView::<F, W, H, O, X>::Ready { result: Err(exc), cancelled })
            &&& aftermath.abort is None
            &&& !aftermath.offload
            &&& parked_on is None ==> aftermath.effects == seq![notify]
            &&& parked_on matches Some(waker) ==> aftermath.effects == seq![
                notify,
                EffectView::Wake(waker),
            ]
        }),
{
}

/// A future that is over cannot be closed.
pub proof fn law_closing_comes_too_late<F, W, H, O, X>(
    state: StateView<F, W, H, O, X>,
    exc: ExceptionView<X>,
    cancelled: bool,
)
    requires
        state is Ready || state is Panicked,
    ensures
        closed(state, exc, cancelled) == (state, AftermathView::<H, W, O, X>::nothing()),
{
}

/// An exception thrown into a future with a task is what the future resolves to, and what is raised,
/// whoever waits for it: the task is aborted, whoever is parked on the future is woken, who waits for
/// it is notified, and its callbacks fire, in this order and on the same thread.
pub proof fn law_spawned_future_is_thrown_into<F, W, H, O, X>(
    callbacks: Seq<CallbackKind<O>>,
    abort_handle: H,
    waker: W,
    exc: ExceptionView<X>,
)
    ensures
        ({
            let state = StateView::<F, W, H, O, X>::PendingTokio { callbacks, abort_handle, waker };
            let (after, aftermath, reply) = thrown(state, exc);
            &&& performed(state, Operation::Throw { exc }) == (after, aftermath)
            &&& after == (StateView::<F, W, H, O, X>::Ready { result: Err(exc), cancelled: false })
            &&& aftermath.abort == Some(abort_handle)
            &&& !aftermath.offload
            &&& aftermath.effects == seq![
                EffectView::<W, O, X>::Wake(waker),
                EffectView::NotifyAll,
                EffectView::Fire { callbacks, result: Err(exc) },
            ]
            &&& reply == Err::<O, RaisedView<O, X>>(RaisedView::Exception(exc))
        }),
{
}

/// An exception thrown into a future that the event loop drives is what the future resolves to, and
/// what is raised; who waits for the future is notified.
pub proof fn law_driven_future_is_thrown_into<F, W, H, O, X>(
    coroutine: CoroutineView<F, W>,
    exc: ExceptionView<X>,
)
    ensures
        ({
            let state = StateView::<F, W, H, O, X>::PendingAsyncio { coroutine };
            let (after, aftermath, reply) = thrown(state, exc);
            &&& after == (StateView::<F, W, H, O, X>::Ready { result: Err(exc), cancelled: false })
            &&& aftermath.abort is None
            &&& !aftermath.offload
            &&& aftermath.effects == seq![EffectView::<W, O, X>::NotifyAll]
            &&& reply == Err::<O, RaisedView<O, X>>(RaisedView::Exception(exc))
        }),
{
}

/// An exception thrown into a future that has resolved only comes back.
pub proof fn law_resolved_future_is_thrown_into<F, W, H, O, X>(
    result: OutcomeView<O, X>,
    cancelled: bool,
    exc: ExceptionView<X>,
)
    ensures
        ({
            let state = StateView::<F, W, H, O, X>::Ready { result, cancelled };
            thrown(state, exc) == (
                state,
                AftermathView::<H, W, O, X>::nothing(),
                Err::<O, RaisedView<O, X>>(RaisedView::Exception(exc)),
            )
        }),
{
}

/// A future that the event loop drives is handed out, as it is, to be polled.
pub proof fn law_driven_future_is_polled<F, W, H, O, X>(coroutine: CoroutineView<F, W>)
    ensures
        poll_begun(StateView::<F, W, H, O, X>::PendingAsyncio { coroutine }) == (
            StateView::<F, W, H, O, X>::Panicked,
            PollStepView::<F, W, O, X>::Drive { coroutine },
        ),
{
}

/// A future that completes while the event loop polls it resolves to just what it came to, be that a
/// value or an exception, and who waits for it is notified. The poll ends the iteration: with
/// `StopIteration` and the value, or with the exception.
pub proof fn law_completed_poll_resolves<F, W, H, O, X>(
    coroutine: CoroutineView<F, W>,
    result: OutcomeView<O, X>,
)
    ensures
        ({
            let state = StateView::<F, W, H, O, X>::PendingAsyncio { coroutine };
            let polled = poll_result(coroutine, PolledView::<O, X>::Ready(result));
            let (after, aftermath, reply) = poll_completed(poll_begun(state).0, polled);
            &&& polled == PollResultView::<F, W, O, X>::Ready(result)
            &&& performed(state, Operation::Poll { polled }) == (after, aftermath)
            &&& after == (StateView::<F, W, H, O, X>::Ready { result, cancelled: false })
            &&& aftermath.abort is None
            &&& !aftermath.offload
            &&& aftermath.effects == seq![EffectView::<W, O, X>::NotifyAll]
            &&& reply == match result {
                Ok(value) => Err::<O, RaisedView<O, X>>(RaisedView::StopIteration(value)),
                Err(exception) => Err(RaisedView::Exception(exception)),
            }
        }),
{
}

/// A future that is pending still after a poll by the event loop is kept as it is, to be polled again,
/// whether there is something to yield or not. What the waker gave is yielded, or raised.
pub proof fn law_pending_poll_yields<F, W, H, O, X>(
    coroutine: CoroutineView<F, W>,
    value: OutcomeView<O, X>,
)
    ensures
        ({
            let state = StateView::<F, W, H, O, X>::PendingAsyncio { coroutine };
            let polled = poll_result(coroutine, PolledView::<O, X>::Pending { value });
            let (after, aftermath, reply) = poll_completed(poll_begun(state).0, polled);
            &&& polled == (PollResultView::<F, W, O, X>::Pending { coroutine, value })
            &&& performed(state, Operation::Poll { polled }) == (after, aftermath)
            &&& after == state
            &&& aftermath == AftermathView::<H, W, O, X>::nothing()
            &&& reply == match value {
                Ok(value) => Ok::<O, RaisedView<O, X>>(value),
                Err(exception) => Err(RaisedView::Exception(exception)),
            }
        }),
{
}

/// What a poll answers does not depend on the future that it is reported to.
pub proof fn law_poll_reply_is_its_own<F, W, H, O, X>(
    one: StateView<F, W, H, O, X>,
    other: StateView<F, W, H, O, X>,
    result: PollResultView<F, W, O, X>,
)
    ensures
        poll_completed(one, result).2 == poll_completed(other, result).2,
{
}

/// A future that the event loop drives is handed out to be spawned, as it is, by whatever needs it to
/// make progress on its own. What is kept is the waker that it is parked on, or a fresh one if it is
/// not, and the callback that is being registered, if that is what it takes. When it has been spawned
/// it is on the tokio runtime with just these.
pub proof fn law_driven_future_is_handed_over<F, W, H, O, X>(
    future: F,
    parked_on: Option<W>,
    callback: CallbackKind<O>,
    fresh: W,
    abort_handle: H,
)
    ensures
        ({
            let state = StateView::<F, W, H, O, X>::PendingAsyncio {
                coroutine: CoroutineView { future, waker: parked_on },
            };
            let waker = if let Some(waker) = parked_on {
                waker
            } else {
                fresh
            };
            let alone = StartingView { waker, callbacks: Seq::<CallbackKind<O>>::empty() };
            let watched = StartingView { waker, callbacks: seq![callback] };
            let taken = StateView::<F, W, H, O, X>::Panicked;
            &&& start_begun(state, Seq::empty(), fresh) == (taken, Some((future, alone)))
            &&& block_begun(state, fresh) == (
                taken,
                BlockStepView::<F, W, O, X>::Start { future, starting: alone },
            )
            &&& register_begun(state, callback, fresh) == (
                taken,
                RegisterStepView::<F, W, O, X>::Start { future, starting: watched },
            )
            &&& start_completed(taken, alone, abort_handle) == (StateView::<F, W, H, O, X>::PendingTokio {
                callbacks: Seq::empty(),
                abort_handle,
                waker,
            })
            &&& start_completed(taken, watched, abort_handle) == (StateView::<F, W, H, O, X>::PendingTokio {
                callbacks: seq![callback],
                abort_handle,
                waker,
            })
        }),
{
}

/// A future that has been handed over to the tokio runtime has the waker, the handle and all of the
/// callbacks that it was handed over with.
pub proof fn law_spawned_future_keeps_what_it_started_with<F, W, H, O, X>(
    callbacks: Seq<CallbackKind<O>>,
    waker: W,
    abort_handle: H,
)
    ensures
        start_completed(
            StateView::<F, W, H, O, X>::Panicked,
            StartingView { waker, callbacks },
            abort_handle,
        ) == (StateView::<F, W, H, O, X>::PendingTokio { callbacks, abort_handle, waker }),
{
}

/// A future that has resolved hands out its outcome, whatever that is, to a thread that asks, to one
/// that has waited in time, and to a callback; a poll raises `StopIteration` with the value, or the
/// exception. None of them changes the future.
pub proof fn law_resolved_future_hands_out_its_outcome<F, W, H, O, X>(
    result: OutcomeView<O, X>,
    cancelled: bool,
    callback: CallbackKind<O>,
    fresh: W,
)
    ensures
        ({
            let state = StateView::<F, W, H, O, X>::Ready { result, cancelled };
            let raised = match result {
                Ok(value) => RaisedView::<O, X>::StopIteration(value),
                Err(exception) => RaisedView::Exception(exception),
            };
            &&& poll_begun(state) == (state, PollStepView::<F, W, O, X>::Raise(raised))
            &&& block_begun(state, fresh) == (state, BlockStepView::<F, W, O, X>::Return(result))
            &&& register_begun(state, callback, fresh) == (
                state,
                RegisterStepView::<F, W, O, X>::Invoke { callback, result },
            )
            &&& waited(state, false) == result
            &&& settled(state) == result
            &&& state.is_cancelled() == cancelled
        }),
{
}

/// A future that a panic left behind says so, in these words, to all who ask, and does nothing else.
pub proof fn law_panicked_future_says_so<F, W, H, O, X>(
    exc: ExceptionView<X>,
    callback: CallbackKind<O>,
    fresh: W,
)
    ensures
        ({
            let state = StateView::<F, W, H, O, X>::Panicked;
            let report = ExceptionView::<X> {
                class: ErrorClass::Runtime,
                message: Some("DriverFuture was left in an inconsistent state by a panic"@),
                object: None,
            };
            let raised = RaisedView::<O, X>::Exception(report);
            let failed = Err::<O, ExceptionView<X>>(report);
            &&& panicked_message() == "DriverFuture was left in an inconsistent state by a panic"@
            &&& poll_begun(state) == (state, PollStepView::<F, W, O, X>::Raise(raised))
            &&& thrown(state, exc) == (
                state,
                AftermathView::<H, W, O, X>::nothing(),
                Err::<O, RaisedView<O, X>>(raised),
            )
            &&& block_begun(state, fresh) == (state, BlockStepView::<F, W, O, X>::Return(failed))
            &&& register_begun(state, callback, fresh) == (
                state,
                RegisterStepView::<F, W, O, X>::Invoke { callback, result: failed },
            )
            &&& waited(state, false) == failed
            &&& settled(state) == failed
            &&& !state.is_cancelled()
        }),
{
}

/// A future that has not resolved has no outcome to hand out, and is not cancelled.
pub proof fn law_no_outcome_is_made_up<F, W, H, O, X>(state: StateView<F, W, H, O, X>)
    requires
        !(state is Ready),
    ensures
        waited(state, false) == Err::<O, ExceptionView<X>>(
            ExceptionView {
                class: ErrorClass::Runtime,
                message: Some("DriverFuture was left in an inconsistent state by a panic"@),
                object: None,
            },
        ),
        settled(state) == waited(state, false),
        !state.is_cancelled(),
{
}

/// A wait fails if, and only if, its time has elapsed and the future is pending still. Whoever waited
/// in vain is told so, in these words.
pub proof fn law_wait_fails_for_want_of_time<F, W, H, O, X>(
    state: StateView<F, W, H, O, X>,
    elapsed: bool,
)
    ensures
        wait_failed(state, elapsed) <==> elapsed && (state is PendingAsyncio
            || state is PendingTokio),
        waited(state, true) == Err::<O, ExceptionView<X>>(
            ExceptionView {
                class: ErrorClass::Timeout,
                message: Some("DriverFuture.result() timed out"@),
                object: None,
            },
        ),
{
}

/// A thread that waits until the future is over, or its time has elapsed, gets the outcome of a
/// future that has resolved, however long that took.
pub proof fn law_wait_that_ends_in_time<F, W, H, O, X>(
    result: OutcomeView<O, X>,
    cancelled: bool,
    elapsed: bool,
)
    ensures
        ({
            let state = StateView::<F, W, H, O, X>::Ready { result, cancelled };
            waited(state, wait_failed(state, elapsed)) == result
        }),
{
}

/// A future that was never pending has the outcome that it was made with, and was not cancelled,
/// whatever that outcome is.
pub proof fn law_future_made_ready<F, W, H, O, X>(result: OutcomeView<O, X>)
    ensures
        resolved::<F, W, H, O, X>(result) == (StateView::<F, W, H, O, X>::Ready {
            result,
            cancelled: false,
        }),
{
}

/// What a future that is closed, or cancelled, resolves to: a `RuntimeError`, or a
/// `FutureCancelledError`, with these words, held as the object that was built.
pub proof fn law_closing_and_cancelling_differ<X>(object: X)
    ensures
        closed_exception(object) == (ExceptionView {
            class: ErrorClass::Runtime,
            message: Some("future was closed"@),
            object: Some(object),
        }),
        cancelled_exception(object) == (ExceptionView {
            class: ErrorClass::Cancelled,
            message: Some("future was cancelled"@),
            object: Some(object),
        }),
{
}

/// A future shows whether it is pending, finished or left behind by a panic, and nothing else but its
/// exception, if it failed.
pub proof fn law_future_shows_where_it_is<F, W, H, O, X>(
    coroutine: CoroutineView<F, W>,
    callbacks: Seq<CallbackKind<O>>,
    abort_handle: H,
    waker: W,
    value: O,
    exception: ExceptionView<X>,
    cancelled: bool,
    text: Seq<char>,
)
    ensures
        shown(StateView::<F, W, H, O, X>::PendingAsyncio { coroutine }) == ReprView::<X>::Text(
            "<DriverFuture pending>"@,
        ),
        shown(StateView::<F, W, H, O, X>::PendingTokio { callbacks, abort_handle, waker })
            == ReprView::<X>::Text("<DriverFuture pending>"@),
        shown(StateView::<F, W, H, O, X>::Ready { result: Ok(value), cancelled })
            == ReprView::<X>::Text("<DriverFuture finished>"@),
        shown(StateView::<F, W, H, O, X>::Ready { result: Err(exception), cancelled })
            == ReprView::<X>::Exception(exception),
        shown(StateView::<F, W, H, O, X>::Panicked) == ReprView::<X>::Text(
            "<DriverFuture panicked>"@,
        ),
        exception_repr(text) == "<DriverFuture finished exception="@ + text + ">"@,
{
}

/// Nothing to do is nothing to do: no task to abort, no effect, no thread.
pub proof fn law_nothing_is_nothing<H, W, O, X>(effects: Seq<EffectView<W, O, X>>)
    ensures
        AftermathView::<H, W, O, X>::nothing() == (AftermathView::<H, W, O, X> {
            abort: None,
            offload: false,
            effects: Seq::empty(),
        }),
        AftermathView::<H, W, O, X>::inline(effects) == (AftermathView::<H, W, O, X> {
            abort: None,
            offload: false,
            effects,
        }),
{
}

/// The view of what a transition asks for has all of it: the task to abort, the thread, and every
/// effect in its place, with its waker, or its callbacks and their outcome.
pub proof fn law_aftermath_is_seen_in_full<H, W, O, X>(aftermath: Aftermath<H, W, O, X>, i: int)
    requires
        0 <= i < aftermath.effects@.len(),
    ensures
        aftermath@.abort == aftermath.abort,
        aftermath@.offload == aftermath.offload,
        aftermath@.effects.len() == aftermath.effects@.len(),
        aftermath@.effects[i] == match aftermath.effects@[i] {
            Effect::Wake(waker) => EffectView::<W, O, X>::Wake(*waker),
            Effect::NotifyAll => EffectView::NotifyAll,
            Effect::Fire { callbacks, result } => EffectView::Fire {
                callbacks: callbacks@,
                result: outcome_view(result),
            },
        },
{
}

/// The view of what a transition asks for has no effect that is not asked for.
pub proof fn law_no_effect_is_made_up<H, W, O, X>(aftermath: Aftermath<H, W, O, X>)
    ensures
        aftermath@.abort == aftermath.abort,
        aftermath@.offload == aftermath.offload,
        aftermath@.effects.len() == aftermath.effects@.len(),
{
}

/// The view of a state has all that the state holds.
pub proof fn law_state_is_seen_in_full<F, W, H, O, X>(state: FutureState<F, W, H, O, X>)
    ensures
        match state {
            FutureState::PendingAsyncio { coroutine } => state@ == (StateView::<
                F,
                W,
                H,
                O,
                X,
            >::PendingAsyncio { coroutine: coroutine@ }),
            FutureState::PendingTokio { callbacks, abort_handle, waker } => state@ == (StateView::<
                F,
                W,
                H,
                O,
                X,
            >::PendingTokio { callbacks: callbacks@, abort_handle, waker: *waker }),
            FutureState::Ready { result, cancelled } => state@ == (StateView::<
                F,
                W,
                H,
                O,
                X,
            >::Ready { result: outcome_view(result), cancelled }),
            FutureState::Panicked => state@ == StateView::<F, W, H, O, X>::Panicked,
        },
{
}

/// The view of a step says which step it is, and has all that is handed out with it.
pub proof fn law_steps_are_seen_in_full<F, W, O, X>(
    poll: PollStep<F, W, O, X>,
    block: BlockStep<F, W, O, X>,
    register: RegisterStep<F, W, O, X>,
    reply: Reply<O, X>,
    repr: Repr<X>,
)
    ensures
        match poll {
            PollStep::Raise(raised) => poll@ == PollStepView::<F, W, O, X>::Raise(raised@),
            PollStep::Yield(waker) => poll@ == PollStepView::<F, W, O, X>::Yield(*waker),
            PollStep::Drive { coroutine, .. } => poll@ == (PollStepView::<F, W, O, X>::Drive {
                coroutine: coroutine@,
            }),
        },
        match block {
            BlockStep::Return(result) => block@ == BlockStepView::<F, W, O, X>::Return(
                outcome_view(result),
            ),
            BlockStep::Wait => block@ == BlockStepView::<F, W, O, X>::Wait,
            BlockStep::Start { future, starting } => block@ == (BlockStepView::<F, W, O, X>::Start {
                future,
                starting: starting@,
            }),
        },
        match register {
            RegisterStep::Invoke { callback, result } => register@ == (RegisterStepView::<
                F,
                W,
                O,
                X,
            >::Invoke { callback, result: outcome_view(result) }),
            RegisterStep::Queued => register@ == RegisterStepView::<F, W, O, X>::Queued,
            RegisterStep::Start { future, starting } => register@ == (RegisterStepView::<
                F,
                W,
                O,
                X,
            >::Start { future, starting: starting@ }),
        },
        match reply {
            Ok(value) => reply_view(reply) == Ok::<O, RaisedView<O, X>>(*value),
            Err(raised) => reply_view(reply) == Err::<O, RaisedView<O, X>>(raised@),
        },
        match repr {
            Repr::Text(text) => repr@ == ReprView::<X>::Text(text@),
            Repr::Exception(exception) => repr@ == ReprView::<X>::Exception(exception@),
        },
{
}

} // verus!
