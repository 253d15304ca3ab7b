//! What holds of a driver future over its whole life.

use super::state::panicked_message;
use super::state::{AftermathView, EffectView, StateView};
use super::steps::{block_begun, closed, poll_begun, poll_completed, register_begun, reply_with};
use super::steps::{settled, start_begun, start_completed, task_completion, thrown};
use super::steps::{BlockStepView, PollStepView, RegisterStepView};
use super::StartingView;
use crate::callbacks::calls_on;
use crate::callbacks::{CallView, CallbackKind};
use crate::coroutine::poll_result;
use crate::coroutine::{CoroutineView, PollResultView, PolledView};
use crate::exception::{described, stop_iteration};
use crate::exception::{ErrorClass, ExceptionView, OutcomeView, RaisedView};
use vstd::prelude::*;

verus! {

/// An operation on a future, with all that comes from outside in the course of it.
pub enum Operation<F, W, H, O, X> {
    /// A poll, which comes to `polled` if there is something to poll.
    Poll { polled: PollResultView<F, W, O, X> },
    /// An exception is thrown into the future.
    Throw { exc: ExceptionView<X> },
    /// The future is closed with an exception.
    Close { exc: ExceptionView<X> },
    /// The future is cancelled with an exception.
    Cancel { exc: ExceptionView<X> },
    /// The future is started; if that spawns a task, `abort_handle` is its handle.
    Start { fresh: W, abort_handle: H },
    /// A callback is registered; if that spawns a task, `abort_handle` is its handle.
    Register { callback: CallbackKind<O>, fresh: W, abort_handle: H },
    /// A thread asks for the result; if that spawns a task, `abort_handle` is its handle.
    Block { fresh: W, abort_handle: H },
    /// The task completes.
    Complete { result: OutcomeView<O, X> },
}

/// The state after an operation that ran to its end, and what the operation asked for.
pub open spec fn performed<F, W, H, O, X>(
    state: StateView<F, W, H, O, X>,
    operation: Operation<F, W, H, O, X>,
) -> (StateView<F, W, H, O, X>, AftermathView<H, W, O, X>) {
    match operation {
        Operation::Poll { polled } => match poll_begun(state) {
            (begun, PollStepView::Drive { .. }) => (
                poll_completed(begun, polled).0,
                poll_completed(begun, polled).1,
            ),
            (state, _) => (state, AftermathView::nothing()),
        },
        Operation::Throw { exc } => (thrown(state, exc).0, thrown(state, exc).1),
        Operation::Close { exc } => closed(state, exc, false),
        Operation::Cancel { exc } => closed(state, exc, true),
        Operation::Start { fresh, abort_handle } => match start_begun(state, Seq::empty(), fresh) {
            (begun, Some((_, starting))) => (
                start_completed(begun, starting, abort_handle),
                AftermathView::nothing(),
            ),
            (state, None) => (state, AftermathView::nothing()),
        },
        Operation::Register { callback, fresh, abort_handle } => match register_begun(
            state,
            callback,
            fresh,
        ) {
            (begun, RegisterStepView::Start { starting, .. }) => (
                start_completed(begun, starting, abort_handle),
                AftermathView::nothing(),
            ),
            (state, _) => (state, AftermathView::nothing()),
        },
        Operation::Block { fresh, abort_handle } => match block_begun(state, fresh) {
            (begun, BlockStepView::Start { starting, .. }) => (
                start_completed(begun, starting, abort_handle),
                AftermathView::nothing(),
            ),
            (state, _) => (state, AftermathView::nothing()),
        },
        Operation::Complete { result } => task_completion(state, result),
    }
}

/// The state after a sequence of operations.
pub open spec fn run<F, W, H, O, X>(
    state: StateView<F, W, H, O, X>,
    operations: Seq<Operation<F, W, H, O, X>>,
) -> StateView<F, W, H, O, X>
    decreases operations.len(),
{
    if operations.len() == 0 {
        state
    } else {
        performed(run(state, operations.drop_last()), operations.last()).0
    }
}

/// The calls that a list of effects asks for, in order.
pub open spec fn calls_made<W, O, X>(effects: Seq<EffectView<W, O, X>>) -> Seq<CallView<O, X>>
    decreases effects.len(),
{
    if effects.len() == 0 {
        Seq::empty()
    } else {
        calls_made(effects.drop_last()) + match effects.last() {
            EffectView::Fire { callbacks, result } => calls_on(callbacks, result),
            _ => Seq::empty(),
        }
    }
}

/// The calls that an operation asks for: those of its effects, and the one of a callback that is
/// invoked as it is registered.
pub open spec fn calls_of<F, W, H, O, X>(
    state: StateView<F, W, H, O, X>,
    operation: Operation<F, W, H, O, X>,
) -> Seq<CallView<O, X>> {
    let made = calls_made(performed(state, operation).1.effects);
    match operation {
        Operation::Register { callback, fresh, .. } => match register_begun(
            state,
            callback,
            fresh,
        ).1 {
            RegisterStepView::Invoke { callback, result } => made + calls_on(
                seq![callback],
                result,
            ),
            _ => made,
        },
        _ => made,
    }
}

/// The calls that a sequence of operations asks for, in order. Those that are left to a thread of
/// their own may be made later than the ones that follow.
pub open spec fn calls_during<F, W, H, O, X>(
    state: StateView<F, W, H, O, X>,
    operations: Seq<Operation<F, W, H, O, X>>,
) -> Seq<CallView<O, X>>
    decreases operations.len(),
{
    if operations.len() == 0 {
        Seq::empty()
    } else {
        calls_during(state, operations.drop_last()) + calls_of(
            run(state, operations.drop_last()),
            operations.last(),
        )
    }
}

/// The callbacks that a sequence of operations registers, in order.
pub open spec fn registered<F, W, H, O, X>(operations: Seq<Operation<F, W, H, O, X>>) -> Seq<
    CallbackKind<O>,
>
    decreases operations.len(),
{
    if operations.len() == 0 {
        Seq::empty()
    } else {
        let before = registered(operations.drop_last());
        match operations.last() {
            Operation::Register { callback, .. } => before.push(callback),
            _ => before,
        }
    }
}

/// The number of times that a list of effects notifies those who wait.
pub open spec fn notifications<W, O, X>(effects: Seq<EffectView<W, O, X>>) -> nat {
    effects.filter(|effect: EffectView<W, O, X>| effect is NotifyAll).len()
}

/// A future in a terminal state stays as it is, whatever is done to it, and nothing is done on
/// its behalf.
pub proof fn law_terminal_state_is_final<F, W, H, O, X>(
    state: StateView<F, W, H, O, X>,
    operation: Operation<F, W, H, O, X>,
)
    requires
        state.is_terminal(),
    ensures
        performed(state, operation) == (state, AftermathView::<H, W, O, X>::nothing()),
{
}

/// Once a future has resolved, it keeps its outcome through every sequence of operations.
pub proof fn law_outcome_is_permanent<F, W, H, O, X>(
    state: StateView<F, W, H, O, X>,
    operations: Seq<Operation<F, W, H, O, X>>,
)
    requires
        state.is_terminal(),
    ensures
        run(state, operations) == state,
    decreases operations.len(),
{
    if operations.len() > 0 {
        law_outcome_is_permanent(state, operations.drop_last());
    }
}

/// The transitions there are: a future that the event loop drives may stay so, move to the tokio
/// runtime or resolve; one on the tokio runtime may stay so or resolve, and never goes back; the
/// rest do not move. None ends in the state that a panic leaves.
pub proof fn law_transitions<F, W, H, O, X>(
    state: StateView<F, W, H, O, X>,
    operation: Operation<F, W, H, O, X>,
)
    ensures
        ({
            let after = performed(state, operation).0;
            match state {
                StateView::PendingAsyncio { .. } => !(after is Panicked),
                StateView::PendingTokio { .. } => after is PendingTokio || after is Ready,
                _ => after == state,
            }
        }),
{
}

/// An operation that stops half way, for the future to be polled or spawned, leaves it in the
/// terminal state that a panic leaves; one that does not never leads there. So a panic in between is
/// seen by all, and nothing else looks like one.
pub proof fn law_interrupted_transition_shows<F, W, H, O, X>(
    state: StateView<F, W, H, O, X>,
    callback: CallbackKind<O>,
    fresh: W,
)
    requires
        !(state is Panicked),
    ensures
        poll_begun(state).0 is Panicked <==> poll_begun(state).1 is Drive,
        start_begun(state, Seq::empty(), fresh).0 is Panicked <==> start_begun(
            state,
            Seq::empty(),
            fresh,
        ).1 is Some,
        block_begun(state, fresh).0 is Panicked <==> block_begun(state, fresh).1 is Start,
        register_begun(state, callback, fresh).0 is Panicked <==> register_begun(
            state,
            callback,
            fresh,
        ).1 is Start,
{
}

/// The second half of an operation does nothing to a future of which no transition is in progress,
/// wherever the first half was: it neither takes away an outcome nor resolves the future.
pub proof fn law_second_half_needs_the_first<F, W, H, O, X>(
    state: StateView<F, W, H, O, X>,
    starting: StartingView<W, O>,
    abort_handle: H,
    result: PollResultView<F, W, O, X>,
)
    requires
        !(state is Panicked),
    ensures
        start_completed(state, starting, abort_handle) == state,
        poll_completed(state, result).0 == state,
        poll_completed(state, result).1 == AftermathView::<H, W, O, X>::nothing(),
{
}

/// Who waits for a future is notified exactly once: by the operation that brings it to a terminal
/// state.
pub proof fn law_waiters_are_notified_once<F, W, H, O, X>(
    state: StateView<F, W, H, O, X>,
    operation: Operation<F, W, H, O, X>,
)
    ensures
        ({
            let (after, aftermath) = performed(state, operation);
            notifications(aftermath.effects) == if !state.is_terminal() && after.is_terminal() {
                1nat
            } else {
                0nat
            }
        }),
{
    reveal_with_fuel(Seq::filter, 4);
    let effects = performed(state, operation).1.effects;
    if effects.len() > 0 {
        let e1 = effects.drop_last();
        if e1.len() > 0 {
            let e2 = e1.drop_last();
            if e2.len() > 0 {
                assert(e2.drop_last().len() == 0);
            }
        }
    }
}

/// A future that is moved to the tokio runtime takes the waker that it is parked on with it, so
/// that its task wakes the Python coroutine that awaits it.
pub proof fn law_parked_waker_moves_along<F, W, H, O, X>(
    coroutine: CoroutineView<F, W>,
    callback: CallbackKind<O>,
    fresh: W,
    abort_handle: H,
)
    ensures
        ({
            let state = StateView::<F, W, H, O, X>::PendingAsyncio { coroutine };
            let waker = coroutine.waker_or(fresh);
            &&& performed(state, Operation::Start { fresh, abort_handle }).0
                == (StateView::<F, W, H, O, X>::PendingTokio {
                callbacks: Seq::empty(),
                abort_handle,
                waker,
            })
            &&& performed(state, Operation::Block { fresh, abort_handle }).0
                == (StateView::<F, W, H, O, X>::PendingTokio {
                callbacks: Seq::empty(),
                abort_handle,
                waker,
            })
            &&& performed(state, Operation::Register { callback, fresh, abort_handle }).0
                == (StateView::<F, W, H, O, X>::PendingTokio {
                callbacks: seq![callback],
                abort_handle,
                waker,
            })
        }),
{
}

/// Whatever resolves a future on the tokio runtime wakes the waker that the future is parked on.
pub proof fn law_parked_waker_is_woken<F, W, H, O, X>(
    callbacks: Seq<CallbackKind<O>>,
    abort_handle: H,
    waker: W,
    operation: Operation<F, W, H, O, X>,
)
    ensures
        ({
            let state = StateView::<F, W, H, O, X>::PendingTokio {
                callbacks,
                abort_handle,
                waker,
            };
            let (after, aftermath) = performed(state, operation);
            after is Ready ==> aftermath.effects.contains(EffectView::Wake(waker))
        }),
{
    let state = StateView::<F, W, H, O, X>::PendingTokio { callbacks, abort_handle, waker };
    let effects = performed(state, operation).1.effects;
    if performed(state, operation).0 is Ready {
        assert(effects[0] == EffectView::<W, O, X>::Wake(waker) || effects[1] == EffectView::<
            W,
            O,
            X,
        >::Wake(waker));
    }
}

/// A Python coroutine that was parked on a future before it moved to the tokio runtime is woken when
/// the task completes, whatever moved it.
pub proof fn law_task_wakes_the_parked_coroutine<F, W, H, O, X>(
    future: F,
    waker: W,
    moved: Operation<F, W, H, O, X>,
    result: OutcomeView<O, X>,
)
    requires
        moved is Start || moved is Register || moved is Block,
    ensures
        ({
            let state = StateView::<F, W, H, O, X>::PendingAsyncio {
                coroutine: CoroutineView { future, waker: Some(waker) },
            };
            let (after, aftermath) = performed(
                performed(state, moved).0,
                Operation::Complete { result },
            );
            &&& after == (StateView::<F, W, H, O, X>::Ready { result, cancelled: false })
            &&& aftermath.effects.contains(EffectView::Wake(waker))
        }),
{
    let state = StateView::<F, W, H, O, X>::PendingAsyncio {
        coroutine: CoroutineView { future, waker: Some(waker) },
    };
    let spawned = performed(state, moved).0;
    law_parked_waker_is_woken(
        spawned->callbacks,
        spawned->abort_handle,
        waker,
        Operation::<F, W, H, O, X>::Complete { result },
    );
}

/// A future that panics while the event loop polls it resolves to an exception with the message of
/// the panic; it is not lost.
pub proof fn law_panicking_future_resolves<F, W, H, O, X>(
    coroutine: CoroutineView<F, W>,
    message: Seq<char>,
    object: X,
)
    ensures
        ({
            let state = StateView::<F, W, H, O, X>::PendingAsyncio { coroutine };
            let panicked = PolledView::<O, X>::Panicked { message, object };
            let polled = poll_result(coroutine, panicked);
            performed(state, Operation::Poll { polled }).0 == (StateView::<F, W, H, O, X>::Ready {
                result: Err(
                    ExceptionView {
                        class: ErrorClass::Runtime,
                        message: Some(message),
                        object: Some(object),
                    },
                ),
                cancelled: false,
            })
        }),
{
}

/// A Python coroutine that is parked on a future which the event loop drives is woken when the
/// future is closed or cancelled.
pub proof fn law_closing_wakes<F, W, H, O, X>(future: F, waker: W, exc: ExceptionView<X>)
    ensures
        ({
            let state = StateView::<F, W, H, O, X>::PendingAsyncio {
                coroutine: CoroutineView { future, waker: Some(waker) },
            };
            let wake = EffectView::Wake(waker);
            &&& performed(state, Operation::Close { exc }).1.effects.contains(wake)
            &&& performed(state, Operation::Cancel { exc }).1.effects.contains(wake)
        }),
{
    let state = StateView::<F, W, H, O, X>::PendingAsyncio {
        coroutine: CoroutineView { future, waker: Some(waker) },
    };
    let closed_with = performed(state, Operation::<F, W, H, O, X>::Close { exc }).1.effects;
    assert(closed_with[1] == EffectView::<W, O, X>::Wake(waker));
    let cancelled_with = performed(state, Operation::<F, W, H, O, X>::Cancel { exc }).1.effects;
    assert(cancelled_with[1] == EffectView::<W, O, X>::Wake(waker));
}

/// A task is aborted by what resolves its future before it completes, and by nothing else.
pub proof fn law_task_is_aborted<F, W, H, O, X>(
    callbacks: Seq<CallbackKind<O>>,
    abort_handle: H,
    waker: W,
    operation: Operation<F, W, H, O, X>,
)
    ensures
        ({
            let state = StateView::<F, W, H, O, X>::PendingTokio {
                callbacks,
                abort_handle,
                waker,
            };
            let (after, aftermath) = performed(state, operation);
            aftermath.abort == if after is Ready && !(operation is Complete) {
                Some(abort_handle)
            } else {
                None
            }
        }),
{
}

/// A task that completes although its future was closed, cancelled or thrown into changes nothing.
pub proof fn law_late_task_is_ignored<F, W, H, O, X>(
    callbacks: Seq<CallbackKind<O>>,
    abort_handle: H,
    waker: W,
    exc: ExceptionView<X>,
    result: OutcomeView<O, X>,
)
    ensures
        ({
            let state = StateView::<F, W, H, O, X>::PendingTokio {
                callbacks,
                abort_handle,
                waker,
            };
            let late = Operation::<F, W, H, O, X>::Complete { result };
            let ended = StateView::<F, W, H, O, X>::Ready { result: Err(exc), cancelled: false };
            let called_off = StateView::<F, W, H, O, X>::Ready { result: Err(exc), cancelled: true };
            let nothing = AftermathView::<H, W, O, X>::nothing();
            &&& performed(performed(state, Operation::Close { exc }).0, late) == (ended, nothing)
            &&& performed(performed(state, Operation::Throw { exc }).0, late) == (ended, nothing)
            &&& performed(performed(state, Operation::Cancel { exc }).0, late) == (
                called_off,
                nothing,
            )
        }),
{
}

/// Starting a future twice is like starting it once: the second start spawns nothing, and whatever it
/// brings along is not used. Starting one that has a task already, or is over, does nothing.
pub proof fn law_starting_is_idempotent<F, W, H, O, X>(
    state: StateView<F, W, H, O, X>,
    fresh: W,
    abort_handle: H,
    fresh_again: W,
    abort_handle_again: H,
)
    ensures
        ({
            let start = Operation::<F, W, H, O, X>::Start { fresh, abort_handle };
            let again = Operation::<F, W, H, O, X>::Start {
                fresh: fresh_again,
                abort_handle: abort_handle_again,
            };
            let once = performed(state, start).0;
            let nothing = AftermathView::<H, W, O, X>::nothing();
            &&& performed(once, again) == (once, nothing)
            &&& start_begun(once, Seq::empty(), fresh_again).1 is None
            &&& !(state is PendingAsyncio) ==> performed(state, start) == (state, nothing)
        }),
{
}

/// All who ask a future that has resolved get the same: a poll ends with the outcome, a thread
/// gets it, whether it has waited for it or not, and a callback is invoked on it.
pub proof fn law_everybody_sees_the_outcome<F, W, H, O, X>(
    result: OutcomeView<O, X>,
    cancelled: bool,
    callback: CallbackKind<O>,
    fresh: W,
)
    ensures
        ({
            let state = StateView::<F, W, H, O, X>::Ready { result, cancelled };
            &&& poll_begun(state) == (
                state,
                PollStepView::<F, W, O, X>::Raise(stop_iteration(result)),
            )
            &&& block_begun(state, fresh) == (
                state,
                BlockStepView::<F, W, O, X>::Return(result),
            )
            &&& register_begun(state, callback, fresh) == (
                state,
                RegisterStepView::<F, W, O, X>::Invoke { callback, result },
            )
            &&& settled(state) == result
        }),
{
}

/// A thread that waits for a future gets what the future resolved to, whatever happens between that
/// and the moment when the thread gets to look.
pub proof fn law_waiting_thread_gets_the_outcome<F, W, H, O, X>(
    state: StateView<F, W, H, O, X>,
    until_resolved: Seq<Operation<F, W, H, O, X>>,
    afterwards: Seq<Operation<F, W, H, O, X>>,
    result: OutcomeView<O, X>,
)
    requires
        run(state, until_resolved) matches StateView::Ready { result: resolved, .. } && resolved
            == result,
    ensures
        settled(run(run(state, until_resolved), afterwards)) == result,
{
    law_outcome_is_permanent(run(state, until_resolved), afterwards);
}

/// All who ask a future that a panic left behind are told so, in the same words.
pub proof fn law_everybody_sees_the_panic<F, W, H, O, X>(
    exc: ExceptionView<X>,
    callback: CallbackKind<O>,
    fresh: W,
)
    ensures
        ({
            let state = StateView::<F, W, H, O, X>::Panicked;
            let report = described::<X>(ErrorClass::Runtime, panicked_message());
            &&& poll_begun(state) == (
                state,
                PollStepView::<F, W, O, X>::Raise(RaisedView::Exception(report)),
            )
            &&& thrown(state, exc).2 == reply_with::<O, X>(Err(report))
            &&& block_begun(state, fresh) == (
                state,
                BlockStepView::<F, W, O, X>::Return(Err(report)),
            )
            &&& register_begun(state, callback, fresh) == (
                state,
                RegisterStepView::<F, W, O, X>::Invoke { callback, result: Err(report) },
            )
            &&& settled(state) == Err::<O, ExceptionView<X>>(report)
        }),
{
}

/// Whoever throws an exception into a future gets it back, and a future that was pending resolves
/// to it; only one that a panic left behind answers otherwise.
pub proof fn law_thrown_exception_comes_back<F, W, H, O, X>(
    state: StateView<F, W, H, O, X>,
    exc: ExceptionView<X>,
)
    requires
        !(state is Panicked),
    ensures
        thrown(state, exc).2 == reply_with::<O, X>(Err(exc)),
        !state.is_terminal() ==> thrown(state, exc).0 == (StateView::<F, W, H, O, X>::Ready {
            result: Err(exc),
            cancelled: false,
        }),
{
}

/// A future that was pending is over when it has been closed or cancelled, and it counts as
/// cancelled in the latter case only, whatever the exception; one that was over is as cancelled as
/// it was.
pub proof fn law_cancellation_is_told_apart<F, W, H, O, X>(
    state: StateView<F, W, H, O, X>,
    exc: ExceptionView<X>,
)
    ensures
        ({
            let closed = performed(state, Operation::Close { exc }).0;
            let cancelled = performed(state, Operation::Cancel { exc }).0;
            &&& closed.is_terminal()
            &&& closed.is_cancelled() == state.is_cancelled()
            &&& cancelled.is_terminal()
            &&& cancelled.is_cancelled() == (!state.is_terminal() || state.is_cancelled())
        }),
{
}

/// Whether the operation with number `i` is the one that brought the future to a terminal state.
pub open spec fn resolved_by<F, W, H, O, X>(
    start: StateView<F, W, H, O, X>,
    operations: Seq<Operation<F, W, H, O, X>>,
    i: int,
) -> bool {
    &&& 0 <= i < operations.len()
    &&& !run(start, operations.take(i)).is_terminal()
    &&& run(start, operations.take(i + 1)).is_terminal()
}

/// A future is cancelled if, and only if, the operation that resolved it cancelled it. It does not
/// become so by what it, or its task, comes to, nor by an exception that is thrown into it.
pub proof fn law_only_cancelling_cancels<F, W, H, O, X>(
    start: StateView<F, W, H, O, X>,
    operations: Seq<Operation<F, W, H, O, X>>,
)
    requires
        !start.is_cancelled(),
    ensures
        run(start, operations).is_cancelled() <==> exists|i: int| #[trigger]
            resolved_by(start, operations, i) && operations[i] is Cancel,
    decreases operations.len(),
{
    if operations.len() > 0 {
        let earlier = operations.drop_last();
        let last = operations.len() - 1;
        law_only_cancelling_cancels(start, earlier);
        assert(operations.take(last) =~= earlier);
        assert(operations.take(last + 1) =~= operations);
        assert forall|i: int| 0 <= i < last implies resolved_by(start, earlier, i)
            == #[trigger] resolved_by(start, operations, i) by {
            assert(earlier.take(i) =~= operations.take(i));
            assert(earlier.take(i + 1) =~= operations.take(i + 1));
        }
        let before = run(start, earlier);
        if before.is_cancelled() {
            let i = choose|i: int| #[trigger]
                resolved_by(start, earlier, i) && earlier[i] is Cancel;
            assert(resolved_by(start, operations, i) && operations[i] is Cancel);
        } else if run(start, operations).is_cancelled() {
            assert(resolved_by(start, operations, last) && operations[last] is Cancel);
        } else {
            assert forall|i: int| #[trigger] resolved_by(start, operations, i) implies !(
            operations[i] is Cancel) by {
                if i < last {
                    assert(resolved_by(start, earlier, i));
                }
            }
        }
    }
}

/// No callbacks make no calls.
proof fn lemma_calls_on_nobody<O, X>(result: OutcomeView<O, X>)
    ensures
        calls_on(Seq::<CallbackKind<O>>::empty(), result) == Seq::<CallView<O, X>>::empty(),
{
    reveal(Seq::filter);
    assert(calls_on(Seq::<CallbackKind<O>>::empty(), result) =~= Seq::empty());
}

/// The call of a callback comes behind those of the callbacks before it.
proof fn lemma_calls_on_push<O, X>(
    callbacks: Seq<CallbackKind<O>>,
    callback: CallbackKind<O>,
    result: OutcomeView<O, X>,
)
    ensures
        calls_on(callbacks.push(callback), result) == calls_on(callbacks, result) + calls_on(
            seq![callback],
            result,
        ),
{
    reveal_with_fuel(Seq::filter, 2);
    assert(callbacks.push(callback).drop_last() =~= callbacks);
    assert(seq![callback].drop_last() =~= Seq::empty());
    assert(calls_on(callbacks.push(callback), result) =~= calls_on(callbacks, result) + calls_on(
        seq![callback],
        result,
    ));
}

/// The calls that three effects make.
proof fn lemma_calls_made<W, O, X>(effects: Seq<EffectView<W, O, X>>)
    requires
        effects.len() <= 3,
    ensures
        (forall|i: int| 0 <= i < effects.len() ==> !(#[trigger] effects[i] is Fire)) ==> calls_made(
            effects,
        ) == Seq::<CallView<O, X>>::empty(),
        forall|i: int|
            0 <= i < effects.len() && #[trigger] effects[i] is Fire && (forall|j: int|
                0 <= j < effects.len() && j != i ==> !(#[trigger] effects[j] is Fire))
                ==> calls_made(effects) == calls_on(
                effects[i]->callbacks,
                effects[i]->Fire_result,
            ),
    decreases effects.len(),
{
    if effects.len() > 0 {
        let rest = effects.drop_last();
        lemma_calls_made(rest);
        assert forall|i: int| 0 <= i < rest.len() implies rest[i] == effects[i] by {}
        if effects.last() is Fire {
            assert(calls_made(effects) =~= calls_made(rest) + calls_on(
                effects.last()->callbacks,
                effects.last()->Fire_result,
            ));
        } else {
            assert(calls_made(effects) =~= calls_made(rest));
        }
    }
}

/// The calls that one operation makes.
proof fn lemma_calls_of<F, W, H, O, X>(
    state: StateView<F, W, H, O, X>,
    operation: Operation<F, W, H, O, X>,
)
    ensures
        match (state, performed(state, operation).0) {
            (StateView::PendingTokio { callbacks, .. }, StateView::Ready { result, .. }) => calls_of(
                state,
                operation,
            ) == calls_on(callbacks, result),
            (StateView::Ready { result, .. }, _) => calls_of(state, operation) == match operation {
                Operation::Register { callback, .. } => calls_on(seq![callback], result),
                _ => Seq::empty(),
            },
            (StateView::Panicked, _) => true,
            _ => calls_of(state, operation) == Seq::<CallView<O, X>>::empty(),
        },
{
    let (after, aftermath) = performed(state, operation);
    let effects = aftermath.effects;
    lemma_calls_made(effects);
    match (state, after) {
        (StateView::PendingTokio { callbacks, .. }, StateView::Ready { result, .. }) => {
            lemma_calls_on_nobody(result);
            assert(callbacks.len() == 0 ==> callbacks =~= Seq::empty());
            if operation is Complete {
                if callbacks.len() > 0 {
                    assert(effects[0] is Fire);
                }
            } else {
                assert(effects[2] is Fire);
            }
        },
        (StateView::Ready { result, .. }, _) => {
            if let Operation::Register { callback, .. } = operation {
                assert(Seq::<CallView<O, X>>::empty() + calls_on(seq![callback], result)
                    =~= calls_on(seq![callback], result));
            }
        },
        _ => {},
    }
}

/// Whether a future is as its constructors make it: no callback waits for it.
pub open spec fn is_new<F, W, H, O, X>(state: StateView<F, W, H, O, X>) -> bool {
    match state {
        StateView::PendingTokio { callbacks, .. } => callbacks.len() == 0,
        StateView::Panicked => false,
        _ => true,
    }
}

/// A future that is pending has made no call, and those who wait are those who registered; one that
/// has resolved has made the calls of all who registered.
proof fn lemma_calls_so_far<F, W, H, O, X>(
    start: StateView<F, W, H, O, X>,
    operations: Seq<Operation<F, W, H, O, X>>,
)
    requires
        is_new(start),
    ensures
        ({
            let made = calls_during(start, operations);
            match run(start, operations) {
                StateView::PendingAsyncio { .. } => made.len() == 0 && registered(operations).len()
                    == 0,
                StateView::PendingTokio { callbacks, .. } => made.len() == 0 && callbacks
                    == registered(operations),
                StateView::Ready { result, .. } => made == calls_on(registered(operations), result),
                StateView::Panicked => false,
            }
        }),
    decreases operations.len(),
{
    if operations.len() == 0 {
        if let StateView::Ready { result, .. } = start {
            lemma_calls_on_nobody(result);
        }
    } else {
        let earlier = operations.drop_last();
        let operation = operations.last();
        lemma_calls_so_far(start, earlier);
        let before = run(start, earlier);
        lemma_calls_of(before, operation);
        match before {
            StateView::PendingAsyncio { .. } => {
                assert(registered(earlier) =~= Seq::empty());
                if let StateView::Ready { result, .. } = performed(before, operation).0 {
                    lemma_calls_on_nobody(result);
                }
            },
            StateView::Ready { result, .. } => {
                if let Operation::Register { callback, .. } = operation {
                    lemma_calls_on_push(registered(earlier), callback, result);
                }
            },
            _ => {},
        }
    }
}

/// Every callback that is registered on a future is asked to be called exactly once if it matches
/// the outcome, and never if it does not: with that outcome, in the order in which they were
/// registered, no matter which of them were registered before the future resolved and which
/// afterwards. Before it has resolved no callback is called.
pub proof fn law_callbacks_are_called_once<F, W, H, O, X>(
    start: StateView<F, W, H, O, X>,
    operations: Seq<Operation<F, W, H, O, X>>,
)
    requires
        is_new(start),
    ensures
        calls_during(start, operations) == match run(start, operations) {
            StateView::Ready { result, .. } => calls_on(registered(operations), result),
            _ => Seq::empty(),
        },
{
    lemma_calls_so_far(start, operations);
}

/// A future on which a callback has been registered does not depend on the event loop any more:
/// unless it has resolved, it is on the tokio runtime, and all the callbacks wait for it.
pub proof fn law_callbacks_are_kept<F, W, H, O, X>(
    start: StateView<F, W, H, O, X>,
    operations: Seq<Operation<F, W, H, O, X>>,
)
    requires
        is_new(start),
        registered(operations).len() > 0,
    ensures
        match run(start, operations) {
            StateView::PendingTokio { callbacks, .. } => callbacks == registered(operations),
            after => after is Ready,
        },
{
    lemma_calls_so_far(start, operations);
}

} // verus!
