//! The coroutine that wraps a future while the asyncio event loop drives it.

use crate::exception::{ErrorClass, Exception, ExceptionView, Outcome, OutcomeView};
use crate::exception::{described, outcome_view};
use crate::shared::exclusive;
use std::sync::Arc;
use vstd::prelude::*;

verus! {

/// A coroutine around a future of type `F`, parked on wakers of type `W`.
///
/// The future is owned unconditionally: as long as the coroutine exists there is a future to
/// poll, and getting rid of the one means getting rid of the other.
#[derive(Debug)]
pub struct Coroutine<F, W> {
    /// The future to poll.
    pub future: F,
    /// The waker of the last poll, if there has been one.
    pub waker: Option<Arc<W>>,
}

/// What a [`Coroutine`] stands for.
pub struct CoroutineView<F, W> {
    pub future: F,
    pub waker: Option<W>,
}

impl<F, W> View for Coroutine<F, W> {
    type V = CoroutineView<F, W>;

    open spec fn view(&self) -> CoroutineView<F, W> {
        CoroutineView {
            future: self.future,
            waker: match self.waker {
                Some(waker) => Some(*waker),
                None => None,
            },
        }
    }
}

impl<F, W> CoroutineView<F, W> {
    /// The waker that whoever drives the future from now on has to wake: the one that it is
    /// parked on, or a fresh one if it was never polled.
    pub open spec fn waker_or(self, fresh: W) -> W {
        match self.waker {
            Some(waker) => waker,
            None => fresh,
        }
    }
}

/// A coroutine that is about to be polled with the waker `fresh`.
pub open spec fn parked_anew<F, W>(coroutine: CoroutineView<F, W>, fresh: W) -> CoroutineView<F, W> {
    CoroutineView { future: coroutine.future, waker: Some(fresh) }
}

/// What a poll of a coroutine comes to.
#[derive(Debug)]
pub enum PollResult<F, W, O, X> {
    /// The future is not ready: the coroutine is handed back to be polled again, with what is
    /// to be yielded to the event loop. Making the object to yield can fail; the coroutine is
    /// kept then too.
    Pending { coroutine: Coroutine<F, W>, value: Outcome<O, X> },
    /// The future completed, and the coroutine is gone.
    Ready(Outcome<O, X>),
}

/// What a [`PollResult`] stands for.
pub enum PollResultView<F, W, O, X> {
    Pending { coroutine: CoroutineView<F, W>, value: OutcomeView<O, X> },
    Ready(OutcomeView<O, X>),
}

impl<F, W, O, X> View for PollResult<F, W, O, X> {
    type V = PollResultView<F, W, O, X>;

    open spec fn view(&self) -> PollResultView<F, W, O, X> {
        match self {
            PollResult::Pending { coroutine, value } => PollResultView::Pending {
                coroutine: coroutine@,
                value: outcome_view(*value),
            },
            PollResult::Ready(result) => PollResultView::Ready(outcome_view(*result)),
        }
    }
}

/// What a panic was raised with.
#[derive(Debug)]
pub enum PanicPayload {
    /// A string literal.
    Literal(String),
    /// A formatted string.
    Formatted(String),
    /// Anything else.
    Opaque,
}

/// The message to report a panic with.
pub open spec fn panic_message(payload: PanicPayload) -> Seq<char> {
    match payload {
        PanicPayload::Literal(text) => text@,
        PanicPayload::Formatted(text) => text@,
        PanicPayload::Opaque => "Rust future panicked"@,
    }
}

/// The exception that a future which panicked resolves to.
pub fn panicked_future_err<X>(payload: &PanicPayload) -> (exception: Exception<X>)
    ensures
        exception@ == described::<X>(ErrorClass::Runtime, panic_message(*payload)),
{
    let message: String = match payload {
        PanicPayload::Literal(text) => text.clone(),
        PanicPayload::Formatted(text) => text.clone(),
        PanicPayload::Opaque => "Rust future panicked".to_string(),
    };
    Exception::new(ErrorClass::Runtime, message)
}

/// What polling a future came to.
#[derive(Debug)]
pub enum Polled<O, X> {
    /// It completed.
    Ready(Outcome<O, X>),
    /// It is not ready; `value` is what the waker wants yielded to the event loop.
    Pending { value: Outcome<O, X> },
    /// It panicked; `object` is the exception object built from [`panicked_future_err`].
    Panicked { payload: PanicPayload, object: X },
}

/// What a [`Polled`] stands for.
pub enum PolledView<O, X> {
    Ready(OutcomeView<O, X>),
    Pending { value: OutcomeView<O, X> },
    Panicked { message: Seq<char>, object: X },
}

impl<O, X> View for Polled<O, X> {
    type V = PolledView<O, X>;

    open spec fn view(&self) -> PolledView<O, X> {
        match self {
            Polled::Ready(result) => PolledView::Ready(outcome_view(*result)),
            Polled::Pending { value } => PolledView::Pending { value: outcome_view(*value) },
            Polled::Panicked { payload, object } => PolledView::Panicked {
                message: panic_message(*payload),
                object: *object,
            },
        }
    }
}

/// What a poll of `coroutine` comes to when polling its future came to `polled`.
pub open spec fn poll_result<F, W, O, X>(
    coroutine: CoroutineView<F, W>,
    polled: PolledView<O, X>,
) -> PollResultView<F, W, O, X> {
    match polled {
        PolledView::Ready(result) => PollResultView::Ready(result),
        PolledView::Pending { value } => PollResultView::Pending { coroutine, value },
        PolledView::Panicked { message, object } => PollResultView::Ready(
            Err(
                ExceptionView {
                    class: ErrorClass::Runtime,
                    message: Some(message),
                    object: Some(object),
                },
            ),
        ),
    }
}

/// A coroutine is handed back while its future is pending, unchanged, and only then: one that has
/// completed or panicked cannot be polled again.
pub proof fn law_only_a_pending_coroutine_is_kept<F, W, O, X>(
    coroutine: CoroutineView<F, W>,
    polled: PolledView<O, X>,
)
    ensures
        match poll_result(coroutine, polled) {
            PollResultView::Pending { coroutine: kept, value } => {
                polled == (PolledView::<O, X>::Pending { value }) && kept == coroutine
            },
            PollResultView::Ready(_) => !(polled is Pending),
        },
{
}

/// A future that completed comes to just what it completed with, be that a value or an exception.
pub proof fn law_completed_future_is_forwarded<F, W, O, X>(
    coroutine: CoroutineView<F, W>,
    result: OutcomeView<O, X>,
)
    ensures
        poll_result(coroutine, PolledView::<O, X>::Ready(result)) == PollResultView::<
            F,
            W,
            O,
            X,
        >::Ready(result),
{
}

/// A future that is pending still is kept, as it is, whether there is something to yield or not.
pub proof fn law_pending_future_is_kept<F, W, O, X>(
    coroutine: CoroutineView<F, W>,
    value: OutcomeView<O, X>,
)
    ensures
        poll_result(coroutine, PolledView::<O, X>::Pending { value }) == (PollResultView::<
            F,
            W,
            O,
            X,
        >::Pending { coroutine, value }),
{
}

/// A future that panicked comes to a `RuntimeError` with the message of the panic: the text that it
/// was raised with, or a text of its own if there was none.
pub proof fn law_panic_is_reported<F, W, O, X>(
    coroutine: CoroutineView<F, W>,
    payload: PanicPayload,
    object: X,
)
    ensures
        panic_message(payload) == match payload {
            PanicPayload::Literal(text) => text@,
            PanicPayload::Formatted(text) => text@,
            PanicPayload::Opaque => "Rust future panicked"@,
        },
        ({
            let panicked = PolledView::<O, X>::Panicked { message: panic_message(payload), object };
            poll_result(coroutine, panicked) == PollResultView::<F, W, O, X>::Ready(
                Err(
                    ExceptionView {
                        class: ErrorClass::Runtime,
                        message: Some(panic_message(payload)),
                        object: Some(object),
                    },
                ),
            )
        }),
{
}

/// A waker that is parked on is never traded for a fresh one, and a fresh one is used if there is none.
pub proof fn law_parked_waker_is_preferred<F, W>(future: F, parked_on: W, fresh: W)
    ensures
        (CoroutineView { future, waker: Some(parked_on) }).waker_or(fresh) == parked_on,
        (CoroutineView { future, waker: None::<W> }).waker_or(fresh) == fresh,
{
}

/// Every poll is made with a fresh waker, on which the coroutine is then parked, whatever it was
/// parked on before; the future stays the same.
pub proof fn law_every_poll_parks_anew<F, W>(coroutine: CoroutineView<F, W>, fresh: W)
    ensures
        parked_anew(coroutine, fresh).future == coroutine.future,
        parked_anew(coroutine, fresh).waker == Some(fresh),
{
}

/// The view of a coroutine, and of what a poll came to, has all that they hold.
pub proof fn law_polls_are_seen_in_full<F, W, O, X>(
    coroutine: Coroutine<F, W>,
    result: PollResult<F, W, O, X>,
    polled: Polled<O, X>,
)
    ensures
        coroutine@.future == coroutine.future,
        coroutine@.waker is Some <==> coroutine.waker is Some,
        coroutine.waker matches Some(waker) ==> coroutine@.waker == Some(*waker),
        match result {
            PollResult::Pending { coroutine, value } => result@ == (PollResultView::<
                F,
                W,
                O,
                X,
            >::Pending { coroutine: coroutine@, value: outcome_view(value) }),
            PollResult::Ready(outcome) => result@ == PollResultView::<F, W, O, X>::Ready(
                outcome_view(outcome),
            ),
        },
        match polled {
            Polled::Ready(outcome) => polled@ == PolledView::<O, X>::Ready(outcome_view(outcome)),
            Polled::Pending { value } => polled@ == (PolledView::<O, X>::Pending {
                value: outcome_view(value),
            }),
            Polled::Panicked { payload, object } => polled@ == (PolledView::<O, X>::Panicked {
                message: panic_message(payload),
                object,
            }),
        },
{
}

impl<F, W> Coroutine<F, W> {
    /// Wraps a future that has not been polled.
    pub fn new(future: F) -> (coroutine: Self)
        ensures
            coroutine@ == (CoroutineView::<F, W> { future, waker: None }),
    {
        Coroutine { future, waker: None }
    }

    /// Gives up the coroutine for the future that it owns, to be driven elsewhere, and the waker
    /// that it is parked on; `fresh` takes its place if there is none.
    pub fn into_future_and_waker(self, fresh: W) -> (parts: (F, Arc<W>))
        ensures
            parts.0 == self@.future,
            *parts.1 == self@.waker_or(fresh),
    {
        let waker: Arc<W> = match self.waker {
            Some(waker) => waker,
            None => Arc::new(fresh),
        };
        (self.future, waker)
    }

    /// Drops the future and gives back the waker that the coroutine is parked on, if any.
    pub fn into_waker(self) -> (waker: Option<Arc<W>>)
        ensures
            (match waker {
                Some(waker) => Some(*waker),
                None => None::<W>,
            }) == self@.waker,
    {
        self.waker
    }

    /// The waker to poll with, on which nothing is parked yet: `fresh`, put in the place of the
    /// last one when no one else holds that, and next to it otherwise.
    pub fn poll_waker(&mut self, fresh: W) -> (waker: Arc<W>)
        ensures
            *waker == fresh,
            final(self)@ == (CoroutineView { future: old(self)@.future, waker: Some(fresh) }),
            final(self)@ == parked_anew(old(self)@, fresh),
    {
        let waker: Arc<W> = match self.waker.take() {
            None => Arc::new(fresh),
            Some(mut last) => {
                match exclusive(&mut last) {
                    Some(unique) => {
                        *unique = fresh;
                        last
                    },
                    None => Arc::new(fresh),
                }
            },
        };
        let handle = Arc::clone(&waker);
        self.waker = Some(waker);
        handle
    }

    /// Throws an exception into the coroutine: the future is dropped unpolled, and the exception
    /// is what it comes to.
    pub fn throw<O, X>(self, exc: Arc<Exception<X>>) -> (result: PollResult<F, W, O, X>)
        ensures
            result@ == PollResultView::<F, W, O, X>::Ready(Err(exc@)),
    {
        PollResult::Ready(Err(exc))
    }

    /// What polling the future came to, for the coroutine: one that is still pending is handed
    /// back, one that completed or panicked is gone.
    pub fn poll<O, X>(self, polled: Polled<O, X>) -> (result: PollResult<F, W, O, X>)
        ensures
            result@ == poll_result(self@, polled@),
    {
        match polled {
            Polled::Ready(result) => PollResult::Ready(result),
            Polled::Pending { value } => PollResult::Pending { coroutine: self, value },
            Polled::Panicked { payload, object } => {
                let exception = panicked_future_err(&payload).with_object(object);
                PollResult::Ready(Err(Arc::new(exception)))
            },
        }
    }
}

} // verus!
