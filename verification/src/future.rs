//! The life of a driver future.
//!
//! A future starts out driven by the asyncio event loop, which polls the coroutine around it. It
//! moves to the tokio runtime when somebody needs it to make progress on its own: a callback is
//! registered, a thread blocks on the result, or it is started explicitly. Either way it ends up
//! resolved, and stays so.
//!
//! A [`PyDriverFuture`] is the part of this that decides. It is kept behind a lock, and it does
//! nothing outside of itself: each operation says what is to be done, and in which order. Where a
//! transition needs something done half way (the future polled, or spawned), the operation hands
//! out what that takes and leaves the state at [`FutureState::Panicked`]; a second operation
//! completes the transition before the lock is released. So that state is seen by anybody else
//! only if a panic unwound out of a transition, which is what it means.

pub mod cases;
pub mod laws;
pub mod state;
pub mod steps;

use self::state::{cancelled_err, closed_err, panicked_err, timeout_err};
use self::state::{cancelled_exception, closed_exception, resolved};
use self::state::{Aftermath, Effect, FutureState, StateView};
use self::steps::{block_begun, closed, poll_begun, poll_completed, register_begun, reply_view};
use self::steps::{settled, shown, start_begun, start_completed, task_completion, thrown};
use self::steps::{failure_registered, success_registered, wait_failed, waited};
use self::steps::{BlockStep, PollStep, RegisterStep, Reply, Repr};
use crate::callbacks::{Callback, CallbackKind};
use crate::coroutine::{Coroutine, CoroutineView, PollResult};
use crate::exception::{clone_result, raise_stop_iteration, ErrorClass, Exception};
use crate::exception::{described, outcome_view};
use crate::exception::{ExceptionView, Outcome, Raised};
use std::sync::Arc;
use vstd::prelude::*;

verus! {

/// A future that is being moved to the tokio runtime: what is kept of it until its task has been
/// spawned.
#[derive(Debug)]
pub struct Starting<W, O> {
    waker: Arc<W>,
    callbacks: Vec<CallbackKind<O>>,
}

/// What a [`Starting`] stands for.
#[verifier::ext_equal]
pub struct StartingView<W, O> {
    pub waker: W,
    pub callbacks: Seq<CallbackKind<O>>,
}

impl<W, O> View for Starting<W, O> {
    type V = StartingView<W, O>;

    closed spec fn view(&self) -> StartingView<W, O> {
        StartingView { waker: *self.waker, callbacks: self.callbacks@ }
    }
}

/// A poll that is in progress: the right to say what it came to.
#[derive(Debug)]
pub struct Polling {
    _in_progress: (),
}

/// A future that Python code can await, wait for, and be called back by.
#[derive(Debug)]
pub struct PyDriverFuture<F, W, H, O, X> {
    /// Where the future is in its life.
    state: FutureState<F, W, H, O, X>,
}

impl<F, W, H, O, X> View for PyDriverFuture<F, W, H, O, X> {
    type V = StateView<F, W, H, O, X>;

    closed spec fn view(&self) -> StateView<F, W, H, O, X> {
        self.state@
    }
}

impl<F, W, H, O, X> PyDriverFuture<F, W, H, O, X> {
    /// A future to be driven by the event loop.
    pub fn new(future: F) -> (this: Self)
        ensures
            this@ == (StateView::<F, W, H, O, X>::PendingAsyncio {
                coroutine: CoroutineView { future, waker: None },
            }),
    {
        PyDriverFuture { state: FutureState::PendingAsyncio { coroutine: Coroutine::new(future) } }
    }

    /// Where the future is in its life.
    pub fn state(&self) -> (state: &FutureState<F, W, H, O, X>)
        ensures
            state@ == self@,
    {
        &self.state
    }

    /// Takes the state out, leaving the mark of a transition in progress.
    fn take_state(&mut self) -> (state: FutureState<F, W, H, O, X>)
        ensures
            state@ == old(self)@,
            final(self)@ is Panicked,
    {
        let mut state = FutureState::Panicked;
        std::mem::swap(&mut self.state, &mut state);
        state
    }

    /// The first half of moving the future to the tokio runtime: hands out the future to spawn.
    /// Nothing is to be spawned, and nothing changes, unless the event loop drives the future.
    fn begin_start(&mut self, callbacks: Vec<CallbackKind<O>>, fresh: W) -> (start: Option<
        (F, Starting<W, O>),
    >)
        ensures
            final(self)@ == start_begun(old(self)@, callbacks@, fresh).0,
            (match start {
                Some((future, starting)) => Some((future, starting@)),
                None => None,
            }) == start_begun(old(self)@, callbacks@, fresh).1,
    {
        match self.take_state() {
            FutureState::PendingAsyncio { coroutine } => {
                let (future, waker) = coroutine.into_future_and_waker(fresh);
                Some((future, Starting { waker, callbacks }))
            },
            other => {
                self.state = other;
                None
            },
        }
    }

    /// A future that is being spawned: what others would see of it if that panicked.
    pub fn spawning() -> (this: Self)
        ensures
            this@ == StateView::<F, W, H, O, X>::Panicked,
    {
        PyDriverFuture { state: FutureState::Panicked }
    }

    /// A future that has been spawned on the tokio runtime right away.
    pub fn spawn_on_tokio(abort_handle: H, waker: Arc<W>) -> (this: Self)
        ensures
            this@ == start_completed::<F, W, H, O, X>(
                StateView::Panicked,
                StartingView { waker: *waker, callbacks: Seq::empty() },
                abort_handle,
            ),
    {
        PyDriverFuture {
            state: FutureState::PendingTokio { callbacks: Vec::new(), abort_handle, waker },
        }
    }

    /// A future that has resolved already.
    pub fn ready(result: Outcome<O, X>) -> (this: Self)
        ensures
            this@ == (StateView::<F, W, H, O, X>::Ready {
                result: outcome_view(result),
                cancelled: false,
            }),
            this@ == resolved::<F, W, H, O, X>(outcome_view(result)),
    {
        PyDriverFuture { state: FutureState::Ready { result, cancelled: false } }
    }

    /// Begins to move the future to the tokio runtime, if the event loop drives it: hands out the
    /// future to spawn. Otherwise nothing changes. `fresh` is a waker on which nothing is parked.
    pub fn ensure_started(&mut self, fresh: W) -> (start: Option<(F, Starting<W, O>)>)
        ensures
            final(self)@ == start_begun(old(self)@, Seq::empty(), fresh).0,
            (match start {
                Some((future, starting)) => Some((future, starting@)),
                None => None,
            }) == start_begun(old(self)@, Seq::empty(), fresh).1,
    {
        self.begin_start(Vec::new(), fresh)
    }

    /// The future has been spawned, and can be aborted through `abort_handle`. Nothing changes unless
    /// a transition is in progress.
    pub fn started(&mut self, starting: Starting<W, O>, abort_handle: H)
        ensures
            final(self)@ == start_completed(old(self)@, starting@, abort_handle),
            !(old(self)@ is Panicked) ==> final(self)@ == old(self)@,
    {
        if let FutureState::Panicked = &self.state {
            self.state = FutureState::PendingTokio {
                callbacks: starting.callbacks,
                abort_handle,
                waker: starting.waker,
            };
        }
    }

    /// The task that drives the future completed with `result`.
    pub fn task_completed(&mut self, result: Outcome<O, X>) -> (aftermath: Aftermath<H, W, O, X>)
        ensures
            final(self)@ == task_completion(old(self)@, outcome_view(result)).0,
            aftermath@ == task_completion(old(self)@, outcome_view(result)).1,
    {
        match self.take_state() {
            FutureState::PendingTokio { callbacks, abort_handle: _, waker } => {
                self.state = FutureState::Ready { result: clone_result(&result), cancelled: false };
                if callbacks.len() == 0 {
                    let effects = vec![Effect::Wake(waker), Effect::NotifyAll];
                    Aftermath::inline(effects)
                } else {
                    let effects = vec![
                        Effect::Fire { callbacks, result },
                        Effect::Wake(waker),
                        Effect::NotifyAll,
                    ];
                    Aftermath { abort: None, offload: true, effects }
                }
            },
            other => {
                self.state = other;
                Aftermath::nothing()
            },
        }
    }

    /// Begins to poll the future.
    pub fn poll_coroutine(&mut self) -> (step: PollStep<F, W, O, X>)
        ensures
            final(self)@ == poll_begun(old(self)@).0,
            step@ == poll_begun(old(self)@).1,
    {
        match self.take_state() {
            FutureState::Ready { result, cancelled } => {
                let raised = raise_stop_iteration(&result);
                self.state = FutureState::Ready { result, cancelled };
                PollStep::Raise(raised)
            },
            FutureState::PendingTokio { callbacks, abort_handle, waker } => {
                let asyncio_waker = Arc::clone(&waker);
                self.state = FutureState::PendingTokio { callbacks, abort_handle, waker };
                PollStep::Yield(asyncio_waker)
            },
            FutureState::PendingAsyncio { coroutine } => PollStep::Drive {
                coroutine,
                polling: Polling { _in_progress: () },
            },
            FutureState::Panicked => PollStep::Raise(Raised::Exception(Arc::new(panicked_err()))),
        }
    }

    /// The poll that was begun came to `result`. Nothing changes unless a transition is in progress.
    pub fn polled(&mut self, polling: Polling, result: PollResult<F, W, O, X>) -> (done: (
        Aftermath<H, W, O, X>,
        Reply<O, X>,
    ))
        ensures
            final(self)@ == poll_completed(old(self)@, result@).0,
            done.0@ == poll_completed(old(self)@, result@).1,
            reply_view(done.1) == poll_completed(old(self)@, result@).2,
            !(old(self)@ is Panicked) ==> final(self)@ == old(self)@,
    {
        let in_progress = matches!(&self.state, FutureState::Panicked);
        match result {
            PollResult::Pending { coroutine, value } => {
                if in_progress {
                    self.state = FutureState::PendingAsyncio { coroutine };
                }
                let reply = match value {
                    Ok(value) => Ok(value),
                    Err(exception) => Err(Raised::Exception(exception)),
                };
                (Aftermath::nothing(), reply)
            },
            PollResult::Ready(result) => {
                let raised = raise_stop_iteration(&result);
                if !in_progress {
                    return (Aftermath::nothing(), Err(raised));
                }
                self.state = FutureState::Ready { result, cancelled: false };
                let effects = vec![Effect::NotifyAll];
                (Aftermath::inline(effects), Err(raised))
            },
        }
    }

    /// Throws an exception into the future.
    pub fn throw_into(&mut self, exc: Arc<Exception<X>>) -> (done: (
        Aftermath<H, W, O, X>,
        Reply<O, X>,
    ))
        ensures
            final(self)@ == thrown(old(self)@, exc@).0,
            done.0@ == thrown(old(self)@, exc@).1,
            reply_view(done.1) == thrown(old(self)@, exc@).2,
    {
        match self.take_state() {
            FutureState::Ready { result, cancelled } => {
                self.state = FutureState::Ready { result, cancelled };
                (Aftermath::nothing(), Err(Raised::Exception(exc)))
            },
            FutureState::PendingAsyncio { coroutine } => {
                self.polled(Polling { _in_progress: () }, coroutine.throw(exc))
            },
            FutureState::PendingTokio { callbacks, abort_handle, waker } => {
                self.state = FutureState::Ready { result: Err(Arc::clone(&exc)), cancelled: false };
                let effects = vec![
                    Effect::Wake(waker),
                    Effect::NotifyAll,
                    Effect::Fire { callbacks, result: Err(Arc::clone(&exc)) },
                ];
                (
                    Aftermath { abort: Some(abort_handle), offload: false, effects },
                    Err(Raised::Exception(exc)),
                )
            },
            FutureState::Panicked => {
                (Aftermath::nothing(), Err(Raised::Exception(Arc::new(panicked_err()))))
            },
        }
    }

    /// Closes the future with `exc` as what it resolves to. `cancelled` says whether it is thereby
    /// cancelled.
    pub fn close_future(&mut self, exc: Arc<Exception<X>>, cancelled: bool) -> (aftermath: Aftermath<
        H,
        W,
        O,
        X,
    >)
        ensures
            final(self)@ == closed(old(self)@, exc@, cancelled).0,
            aftermath@ == closed(old(self)@, exc@, cancelled).1,
    {
        match self.take_state() {
            FutureState::Ready { result, cancelled } => {
                self.state = FutureState::Ready { result, cancelled };
                Aftermath::nothing()
            },
            FutureState::PendingTokio { callbacks, abort_handle, waker } => {
                self.state = FutureState::Ready { result: Err(Arc::clone(&exc)), cancelled };
                let effects = vec![
                    Effect::NotifyAll,
                    Effect::Wake(waker),
                    Effect::Fire { callbacks, result: Err(exc) },
                ];
                Aftermath { abort: Some(abort_handle), offload: false, effects }
            },
            FutureState::PendingAsyncio { coroutine } => {
                self.state = FutureState::Ready { result: Err(exc), cancelled };
                match coroutine.into_waker() {
                    Some(waker) => {
                        let effects = vec![Effect::NotifyAll, Effect::Wake(waker)];
                        Aftermath::inline(effects)
                    },
                    None => {
                        let effects = vec![Effect::NotifyAll];
                        Aftermath::inline(effects)
                    },
                }
            },
            FutureState::Panicked => Aftermath::nothing(),
        }
    }

    /// Closes the future. `object` is the exception object built from [`closed_err`].
    pub fn close(&mut self, object: X) -> (aftermath: Aftermath<H, W, O, X>)
        ensures
            ({
                let exc = ExceptionView {
                    object: Some(object),
                    ..described(ErrorClass::Runtime, "future was closed"@)
                };
                &&& final(self)@ == if old(self)@.is_terminal() {
                    old(self)@
                } else {
                    StateView::Ready { result: Err(exc), cancelled: false }
                }
                &&& aftermath@ == closed(old(self)@, exc, false).1
            }),
            final(self)@ == closed(old(self)@, closed_exception(object), false).0,
            aftermath@ == closed(old(self)@, closed_exception(object), false).1,
    {
        self.close_future(Arc::new(closed_err().with_object(object)), false)
    }

    /// Cancels the future: like closing it, but what it resolves to says that it was called off.
    /// `object` is the exception object built from [`cancelled_err`].
    pub fn cancel(&mut self, object: X) -> (aftermath: Aftermath<H, W, O, X>)
        ensures
            ({
                let exc = ExceptionView {
                    object: Some(object),
                    ..described(ErrorClass::Cancelled, "future was cancelled"@)
                };
                &&& final(self)@ == if old(self)@.is_terminal() {
                    old(self)@
                } else {
                    StateView::Ready { result: Err(exc), cancelled: true }
                }
                &&& aftermath@ == closed(old(self)@, exc, true).1
            }),
            final(self)@ == closed(old(self)@, cancelled_exception(object), true).0,
            aftermath@ == closed(old(self)@, cancelled_exception(object), true).1,
    {
        self.close_future(Arc::new(cancelled_err().with_object(object)), true)
    }

    /// Whether a wait has failed, when it ended with the time that it was given `elapsed` or not.
    /// A future that got there at the last moment is in time.
    pub fn timed_out(&self, elapsed: bool) -> (timed_out: bool)
        ensures
            timed_out == (elapsed && !self@.is_terminal()),
            timed_out == wait_failed(self@, elapsed),
    {
        elapsed && !self.state.is_terminal()
    }

    /// What a thread gets that has waited for the future to reach a terminal state, unless the
    /// wait has failed.
    pub fn wait_for_ready(&self, timed_out: bool) -> (result: Outcome<O, X>)
        ensures
            outcome_view(result) == (if timed_out {
                Err(described(ErrorClass::Timeout, "DriverFuture.result() timed out"@))
            } else {
                settled(self@)
            }),
            outcome_view(result) == waited(self@, timed_out),
    {
        if timed_out {
            return Err(Arc::new(timeout_err()));
        }
        match &self.state {
            FutureState::Ready { result, .. } => clone_result(result),
            _ => Err(Arc::new(panicked_err())),
        }
    }

    /// What to do for a thread that wants the result. `fresh` is a waker on which nothing is
    /// parked.
    pub fn block_until_ready(&mut self, fresh: W) -> (step: BlockStep<F, W, O, X>)
        ensures
            final(self)@ == block_begun(old(self)@, fresh).0,
            step@ == block_begun(old(self)@, fresh).1,
    {
        match &self.state {
            FutureState::Ready { result, .. } => {
                return BlockStep::Return(clone_result(result));
            },
            FutureState::PendingTokio { .. } => {
                return BlockStep::Wait;
            },
            FutureState::PendingAsyncio { .. } => {},
            FutureState::Panicked => {
                return BlockStep::Return(Err(Arc::new(panicked_err())));
            },
        }
        match self.ensure_started(fresh) {
            Some((future, starting)) => BlockStep::Start { future, starting },
            None => BlockStep::Wait,
        }
    }

    /// Registers a callback. `fresh` is a waker on which nothing is parked.
    pub fn register_callback(&mut self, callback: CallbackKind<O>, fresh: W) -> (step: RegisterStep<
        F,
        W,
        O,
        X,
    >)
        ensures
            final(self)@ == register_begun(old(self)@, callback, fresh).0,
            step@ == register_begun(old(self)@, callback, fresh).1,
    {
        match &mut self.state {
            FutureState::Ready { result, .. } => {
                return RegisterStep::Invoke { callback, result: clone_result(result) };
            },
            FutureState::PendingTokio { callbacks, .. } => {
                callbacks.push(callback);
                return RegisterStep::Queued;
            },
            FutureState::PendingAsyncio { .. } => {},
            FutureState::Panicked => {
                return RegisterStep::Invoke { callback, result: Err(Arc::new(panicked_err())) };
            },
        }
        let callbacks = vec![callback];
        assert(callbacks@ =~= seq![callback]);
        match self.begin_start(callbacks, fresh) {
            Some((future, starting)) => RegisterStep::Start { future, starting },
            None => RegisterStep::Queued,
        }
    }

    /// Registers a callback for success.
    pub fn on_result(&mut self, callable: O, fresh: W) -> (step: RegisterStep<F, W, O, X>)
        ensures
            ({
                let callback = CallbackKind::OnSuccess(Callback { callable });
                &&& final(self)@ == register_begun(old(self)@, callback, fresh).0
                &&& step@ == register_begun(old(self)@, callback, fresh).1
            }),
            final(self)@ == success_registered(old(self)@, callable, fresh).0,
            step@ == success_registered(old(self)@, callable, fresh).1,
    {
        self.register_callback(CallbackKind::on_success(callable), fresh)
    }

    /// Registers a callback for failure.
    pub fn on_error(&mut self, callable: O, fresh: W) -> (step: RegisterStep<F, W, O, X>)
        ensures
            ({
                let callback = CallbackKind::OnError(Callback { callable });
                &&& final(self)@ == register_begun(old(self)@, callback, fresh).0
                &&& step@ == register_begun(old(self)@, callback, fresh).1
            }),
            final(self)@ == failure_registered(old(self)@, callable, fresh).0,
            step@ == failure_registered(old(self)@, callable, fresh).1,
    {
        self.register_callback(CallbackKind::on_error(callable), fresh)
    }

    /// Whether the future is over, one way or another.
    pub fn done(&self) -> (done: bool)
        ensures
            done == self@.is_terminal(),
    {
        self.state.is_terminal()
    }

    /// Whether the future resolved because [`PyDriverFuture::cancel`] was called. An exception like
    /// that of a cancellation which came from elsewhere makes no difference.
    pub fn cancelled(&self) -> (cancelled: bool)
        ensures
            cancelled == self@.is_cancelled(),
    {
        match &self.state {
            FutureState::Ready { cancelled, .. } => *cancelled,
            _ => false,
        }
    }

    /// How the future shows itself.
    pub fn repr(&self) -> (repr: Repr<X>)
        ensures
            match self@ {
                StateView::PendingAsyncio { .. } | StateView::PendingTokio { .. } => {
                    repr matches Repr::Text(text) && text@ == "<DriverFuture pending>"@
                },
                StateView::Ready { result: Ok(_), .. } => {
                    repr matches Repr::Text(text) && text@ == "<DriverFuture finished>"@
                },
                StateView::Ready { result: Err(exception), .. } => {
                    repr matches Repr::Exception(shown) && shown@ == exception
                },
                StateView::Panicked => {
                    repr matches Repr::Text(text) && text@ == "<DriverFuture panicked>"@
                },
            },
            repr@ == shown(self@),
    {
        match &self.state {
            FutureState::PendingAsyncio { .. } | FutureState::PendingTokio { .. } => Repr::Text(
                "<DriverFuture pending>".to_string(),
            ),
            FutureState::Ready { result: Ok(_), .. } => Repr::Text(
                "<DriverFuture finished>".to_string(),
            ),
            FutureState::Ready { result: Err(exception), .. } => Repr::Exception(Arc::clone(exception)),
            FutureState::Panicked => Repr::Text("<DriverFuture panicked>".to_string()),
        }
    }
}

} // verus!
