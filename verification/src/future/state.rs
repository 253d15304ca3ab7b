//! The states of a driver future, and what a transition between them asks for.

use crate::callbacks::CallbackKind;
use crate::coroutine::{Coroutine, CoroutineView};
use crate::exception::{described, outcome_view};
use crate::exception::{ErrorClass, Exception, ExceptionView, Outcome, OutcomeView};
use std::sync::Arc;
use vstd::prelude::*;

verus! {

/// The state of a future of type `F`, with wakers of type `W`, tasks that are aborted through
/// handles of type `H`, and Python objects of type `O`, exceptions held as objects of type `X`.
#[derive(Debug)]
pub enum FutureState<F, W, H, O, X> {
    /// The future is driven by the asyncio event loop.
    PendingAsyncio { coroutine: Coroutine<F, W> },
    /// The future has been spawned on the tokio runtime.
    PendingTokio { callbacks: Vec<CallbackKind<O>>, abort_handle: H, waker: Arc<W> },
    /// The future has resolved, for good; `cancelled` says whether it was by being cancelled.
    Ready { result: Outcome<O, X>, cancelled: bool },
    /// A transition is in progress, or a panic unwound out of one. In the latter case the
    /// future is lost, and can no longer make progress.
    Panicked,
}

/// What a [`FutureState`] stands for.
#[verifier::ext_equal]
pub enum StateView<F, W, H, O, X> {
    PendingAsyncio { coroutine: CoroutineView<F, W> },
    PendingTokio { callbacks: Seq<CallbackKind<O>>, abort_handle: H, waker: W },
    Ready { result: OutcomeView<O, X>, cancelled: bool },
    Panicked,
}

impl<F, W, H, O, X> View for FutureState<F, W, H, O, X> {
    type V = StateView<F, W, H, O, X>;

    open spec fn view(&self) -> StateView<F, W, H, O, X> {
        match self {
            FutureState::PendingAsyncio { coroutine } => StateView::PendingAsyncio {
                coroutine: coroutine@,
            },
            FutureState::PendingTokio { callbacks, abort_handle, waker } => StateView::PendingTokio {
                callbacks: callbacks@,
                abort_handle: *abort_handle,
                waker: **waker,
            },
            FutureState::Ready { result, cancelled } => StateView::Ready {
                result: outcome_view(*result),
                cancelled: *cancelled,
            },
            FutureState::Panicked => StateView::Panicked,
        }
    }
}

impl<F, W, H, O, X> StateView<F, W, H, O, X> {
    /// Whether the future can make no more progress.
    pub open spec fn is_terminal(self) -> bool {
        self is Ready || self is Panicked
    }

    /// Whether the future resolved because it was cancelled. What it resolved to does not matter.
    pub open spec fn is_cancelled(self) -> bool {
        self matches StateView::Ready { cancelled: true, .. }
    }
}

impl<F, W, H, O, X> FutureState<F, W, H, O, X> {
    /// Whether the future can make no more progress. Both terminal states release whoever waits
    /// for the result.
    pub fn is_terminal(&self) -> (terminal: bool)
        ensures
            terminal == self@.is_terminal(),
    {
        matches!(self, FutureState::Ready { .. } | FutureState::Panicked)
    }
}

/// Something to be done after a transition, once the lock is released.
#[derive(Debug)]
pub enum Effect<W, O, X> {
    /// Wake this waker, so that the Python coroutine parked on it looks at the future again.
    Wake(Arc<W>),
    /// Notify every thread that waits for the future to reach a terminal state.
    NotifyAll,
    /// Fire the callbacks that match the outcome, in order.
    Fire { callbacks: Vec<CallbackKind<O>>, result: Outcome<O, X> },
}

/// What an [`Effect`] stands for.
#[verifier::ext_equal]
pub enum EffectView<W, O, X> {
    Wake(W),
    NotifyAll,
    Fire { callbacks: Seq<CallbackKind<O>>, result: OutcomeView<O, X> },
}

impl<W, O, X> View for Effect<W, O, X> {
    type V = EffectView<W, O, X>;

    open spec fn view(&self) -> EffectView<W, O, X> {
        match self {
            Effect::Wake(waker) => EffectView::Wake(**waker),
            Effect::NotifyAll => EffectView::NotifyAll,
            Effect::Fire { callbacks, result } => EffectView::Fire {
                callbacks: callbacks@,
                result: outcome_view(*result),
            },
        }
    }
}

/// What a transition asks for.
#[derive(Debug)]
pub struct Aftermath<H, W, O, X> {
    /// The task to abort, while the lock is still held.
    pub abort: Option<H>,
    /// Whether the effects are to be left to a thread that may block.
    pub offload: bool,
    /// What to do once the lock is released, in this order.
    pub effects: Vec<Effect<W, O, X>>,
}

/// What an [`Aftermath`] stands for.
#[verifier::ext_equal]
pub struct AftermathView<H, W, O, X> {
    pub abort: Option<H>,
    pub offload: bool,
    pub effects: Seq<EffectView<W, O, X>>,
}

impl<H, W, O, X> View for Aftermath<H, W, O, X> {
    type V = AftermathView<H, W, O, X>;

    open spec fn view(&self) -> AftermathView<H, W, O, X> {
        AftermathView {
            abort: self.abort,
            offload: self.offload,
            effects: self.effects@.map_values(|effect: Effect<W, O, X>| effect@),
        }
    }
}

impl<H, W, O, X> AftermathView<H, W, O, X> {
    /// The effects in the given order, right away, with nothing to abort.
    pub open spec fn inline(effects: Seq<EffectView<W, O, X>>) -> Self {
        AftermathView { abort: None, offload: false, effects }
    }

    /// Nothing to do.
    pub open spec fn nothing() -> Self {
        Self::inline(Seq::empty())
    }
}

impl<H, W, O, X> Aftermath<H, W, O, X> {
    /// The effects in the given order, right away, with nothing to abort.
    pub(super) fn inline(effects: Vec<Effect<W, O, X>>) -> (aftermath: Self)
        ensures
            aftermath@ == AftermathView::<H, W, O, X>::inline(
                effects@.map_values(|effect: Effect<W, O, X>| effect@),
            ),
    {
        Aftermath { abort: None, offload: false, effects }
    }

    /// Nothing to do.
    pub(super) fn nothing() -> (aftermath: Self)
        ensures
            aftermath@ == AftermathView::<H, W, O, X>::nothing(),
    {
        Self::inline(Vec::new())
    }
}

/// A future that has resolved to `result` from the start.
pub open spec fn resolved<F, W, H, O, X>(result: OutcomeView<O, X>) -> StateView<F, W, H, O, X> {
    StateView::Ready { result, cancelled: false }
}

/// What a future that is closed resolves to, held as `object`.
pub open spec fn closed_exception<X>(object: X) -> ExceptionView<X> {
    ExceptionView {
        object: Some(object),
        ..described(ErrorClass::Runtime, "future was closed"@)
    }
}

/// What a future that is cancelled resolves to, held as `object`.
pub open spec fn cancelled_exception<X>(object: X) -> ExceptionView<X> {
    ExceptionView {
        object: Some(object),
        ..described(ErrorClass::Cancelled, "future was cancelled"@)
    }
}

/// The message of the exception that every operation reports for a future that a panic left
/// behind.
pub open spec fn panicked_message() -> Seq<char> {
    "DriverFuture was left in an inconsistent state by a panic"@
}

/// The exception that every operation reports for a future that a panic left behind.
pub fn panicked_err<X>() -> (exception: Exception<X>)
    ensures
        exception@ == described::<X>(ErrorClass::Runtime, panicked_message()),
{
    Exception::new(
        ErrorClass::Runtime,
        "DriverFuture was left in an inconsistent state by a panic".to_string(),
    )
}

/// The exception that a future which is closed resolves to.
pub fn closed_err<X>() -> (exception: Exception<X>)
    ensures
        exception@ == described::<X>(ErrorClass::Runtime, "future was closed"@),
{
    Exception::new(ErrorClass::Runtime, "future was closed".to_string())
}

/// The exception that a future which is cancelled resolves to.
pub fn cancelled_err<X>() -> (exception: Exception<X>)
    ensures
        exception@ == described::<X>(ErrorClass::Cancelled, "future was cancelled"@),
{
    Exception::new(ErrorClass::Cancelled, "future was cancelled".to_string())
}

/// The exception for a thread that waited for the result in vain.
pub fn timeout_err<X>() -> (exception: Exception<X>)
    ensures
        exception@ == described::<X>(ErrorClass::Timeout, "DriverFuture.result() timed out"@),
{
    Exception::new(ErrorClass::Timeout, "DriverFuture.result() timed out".to_string())
}

} // verus!
