//! Callbacks on the outcome of a future.

use crate::exception::outcome_view;
use crate::exception::{Exception, ExceptionView, Outcome, OutcomeView};
use std::sync::Arc;
use vstd::prelude::*;

verus! {

/// A registered callback, called with the outcome of the future as its sole argument.
#[derive(Debug)]
pub struct Callback<O> {
    /// The Python callable.
    pub callable: O,
}

impl<O> Callback<O> {
    /// A callback to a Python callable.
    pub fn new(callable: O) -> (callback: Self)
        ensures
            callback.callable == callable,
    {
        Callback { callable }
    }

    /// The call of this callback with `argument`. What the call raises concerns nobody but the
    /// log.
    pub fn invoke<X>(&self, argument: Argument<O, X>) -> (call: Call<'_, O, X>)
        ensures
            call@ == (CallView { callable: self.callable, argument: argument@ }),
    {
        Call { callable: &self.callable, argument }
    }
}

/// A callback, together with the outcome on which it fires.
#[derive(Debug)]
pub enum CallbackKind<O> {
    /// Fired when the future succeeds, with its value.
    OnSuccess(Callback<O>),
    /// Fired when the future fails, with the exception.
    OnError(Callback<O>),
}

/// What a callback is called with.
#[derive(Debug)]
pub enum Argument<O, X> {
    /// The value of a future that succeeded.
    Value(Arc<O>),
    /// The exception of one that failed.
    Exception(Arc<Exception<X>>),
}

/// What an [`Argument`] stands for.
#[verifier::ext_equal]
pub enum ArgumentView<O, X> {
    Value(O),
    Exception(ExceptionView<X>),
}

impl<O, X> View for Argument<O, X> {
    type V = ArgumentView<O, X>;

    open spec fn view(&self) -> ArgumentView<O, X> {
        match self {
            Argument::Value(value) => ArgumentView::Value(**value),
            Argument::Exception(exception) => ArgumentView::Exception(exception@),
        }
    }
}

/// A call to make into Python.
#[derive(Debug)]
pub struct Call<'a, O, X> {
    /// What to call.
    pub callable: &'a O,
    /// Its only argument.
    pub argument: Argument<O, X>,
}

/// What a [`Call`] stands for.
#[verifier::ext_equal]
pub struct CallView<O, X> {
    pub callable: O,
    pub argument: ArgumentView<O, X>,
}

impl<'a, O, X> View for Call<'a, O, X> {
    type V = CallView<O, X>;

    open spec fn view(&self) -> CallView<O, X> {
        CallView { callable: *self.callable, argument: self.argument@ }
    }
}

/// Whether a callback fires on `result`.
pub open spec fn fires_on<O, X>(callback: CallbackKind<O>, result: OutcomeView<O, X>) -> bool {
    match callback {
        CallbackKind::OnSuccess(_) => result is Ok,
        CallbackKind::OnError(_) => result is Err,
    }
}

/// The call that a callback makes when it fires on `result`.
pub open spec fn call_on<O, X>(
    callback: CallbackKind<O>,
    result: OutcomeView<O, X>,
) -> CallView<O, X> {
    CallView {
        callable: match callback {
            CallbackKind::OnSuccess(callback) => callback.callable,
            CallbackKind::OnError(callback) => callback.callable,
        },
        argument: match result {
            Ok(value) => ArgumentView::Value(value),
            Err(exception) => ArgumentView::Exception(exception),
        },
    }
}

/// The calls that a list of callbacks makes on `result`: one for each that fires, in order.
pub open spec fn calls_on<O, X>(
    callbacks: Seq<CallbackKind<O>>,
    result: OutcomeView<O, X>,
) -> Seq<CallView<O, X>> {
    callbacks.filter(|callback: CallbackKind<O>| fires_on(callback, result)).map_values(
        |callback: CallbackKind<O>| call_on(callback, result),
    )
}

/// Of a callback for success and one for failure, exactly one fires on any outcome.
pub proof fn law_one_kind_fires<O, X>(
    success: Callback<O>,
    failure: Callback<O>,
    result: OutcomeView<O, X>,
)
    ensures
        fires_on(CallbackKind::OnSuccess(success), result) != fires_on(
            CallbackKind::OnError(failure),
            result,
        ),
{
}

/// A callback for success fires if, and only if, the future succeeded, and one for failure if, and
/// only if, it failed, whatever it came to. Each calls its own callable: the one for success with the
/// value, and never with an exception, the one for failure with the exception.
pub proof fn law_kind_decides<O, X>(callable: O, value: O, exception: ExceptionView<X>)
    ensures
        ({
            let success = CallbackKind::OnSuccess(Callback { callable });
            let failure = CallbackKind::OnError(Callback { callable });
            let ok = Ok::<O, ExceptionView<X>>(value);
            let err = Err::<O, ExceptionView<X>>(exception);
            &&& fires_on(success, ok)
            &&& !fires_on(success, err)
            &&& !fires_on(failure, ok)
            &&& fires_on(failure, err)
            &&& call_on(success, ok) == (CallView {
                callable,
                argument: ArgumentView::<O, X>::Value(value),
            })
            &&& call_on(failure, err) == (CallView {
                callable,
                argument: ArgumentView::<O, X>::Exception(exception),
            })
        }),
{
}

/// The calls of a list of callbacks, from the first callback to the last: on success, each callback
/// for success is called with the value and no other is; on failure, each callback for failure is
/// called with the exception and no other is. Nothing is called twice, left out or moved.
pub proof fn law_calls_follow_the_callbacks<O, X>(
    callbacks: Seq<CallbackKind<O>>,
    result: OutcomeView<O, X>,
)
    ensures
        callbacks.len() == 0 ==> calls_on(callbacks, result).len() == 0,
        callbacks.len() > 0 ==> calls_on(callbacks, result) == {
            let before = calls_on(callbacks.drop_last(), result);
            match (callbacks.last(), result) {
                (CallbackKind::OnSuccess(callback), Ok(value)) => before.push(
                    CallView {
                        callable: callback.callable,
                        argument: ArgumentView::Value(value),
                    },
                ),
                (CallbackKind::OnError(callback), Err(exception)) => before.push(
                    CallView {
                        callable: callback.callable,
                        argument: ArgumentView::Exception(exception),
                    },
                ),
                _ => before,
            }
        },
{
    reveal(Seq::filter);
    if callbacks.len() > 0 {
        let before = calls_on(callbacks.drop_last(), result);
        if fires_on(callbacks.last(), result) {
            assert(calls_on(callbacks, result) =~= before.push(call_on(callbacks.last(), result)));
        } else {
            assert(calls_on(callbacks, result) =~= before);
        }
    }
}

/// The view of a call has what is called, and with what.
pub proof fn law_calls_are_seen_in_full<'a, O, X>(calls: Seq<Call<'a, O, X>>, i: int)
    requires
        0 <= i < calls.len(),
    ensures
        calls_view(calls).len() == calls.len(),
        calls_view(calls)[i].callable == *calls[i].callable,
        calls_view(calls)[i].argument == match calls[i].argument {
            Argument::Value(value) => ArgumentView::<O, X>::Value(*value),
            Argument::Exception(exception) => ArgumentView::Exception(exception@),
        },
{
}

/// The views of a list of calls.
pub open spec fn calls_view<'a, O, X>(calls: Seq<Call<'a, O, X>>) -> Seq<CallView<O, X>> {
    calls.map_values(|call: Call<'a, O, X>| call@)
}

impl<O> CallbackKind<O> {
    /// A callback for success.
    pub fn on_success(callable: O) -> (callback: Self)
        ensures
            callback == CallbackKind::OnSuccess(Callback { callable }),
    {
        CallbackKind::OnSuccess(Callback::new(callable))
    }

    /// A callback for failure.
    pub fn on_error(callable: O) -> (callback: Self)
        ensures
            callback == CallbackKind::OnError(Callback { callable }),
    {
        CallbackKind::OnError(Callback::new(callable))
    }

    /// The call to make if this callback fires on `result`.
    pub fn invoke<X>(&self, result: &Outcome<O, X>) -> (call: Option<Call<'_, O, X>>)
        ensures
            call is Some <==> fires_on(*self, outcome_view(*result)),
            call matches Some(call) ==> call@ == call_on(*self, outcome_view(*result)),
    {
        match (self, result) {
            (CallbackKind::OnSuccess(callback), Ok(value)) => Some(
                callback.invoke(Argument::Value(Arc::clone(value))),
            ),
            (CallbackKind::OnError(callback), Err(exception)) => Some(
                callback.invoke(Argument::Exception(Arc::clone(exception))),
            ),
            _ => None,
        }
    }

    /// The calls to make, in order, for all of `callbacks` that fire on `result`.
    pub fn fire_all<'a, X>(callbacks: &'a Vec<CallbackKind<O>>, result: &Outcome<O, X>) -> (calls:
        Vec<Call<'a, O, X>>)
        ensures
            calls_view(calls@) == calls_on(callbacks@, outcome_view(*result)),
    {
        let ghost view = outcome_view(*result);
        let mut calls: Vec<Call<'a, O, X>> = Vec::new();
        let mut i: usize = 0;
        proof {
            reveal(Seq::filter);
            assert(calls_view(calls@) =~= calls_on(callbacks@.take(0), view));
        }
        while i < callbacks.len()
            invariant
                i <= callbacks.len(),
                view == outcome_view(*result),
                calls_view(calls@) == calls_on(callbacks@.take(i as int), view),
            decreases callbacks.len() - i,
        {
            proof {
                reveal(Seq::filter);
                assert(callbacks@.take(i + 1).drop_last() =~= callbacks@.take(i as int));
            }
            match callbacks[i].invoke(result) {
                Some(call) => {
                    let ghost before = calls@;
                    calls.push(call);
                    assert(calls_view(calls@) =~= calls_view(before).push(call@));
                },
                None => {},
            }
            assert(calls_view(calls@) =~= calls_on(callbacks@.take(i + 1), view));
            i = i + 1;
        }
        assert(callbacks@.take(i as int) =~= callbacks@);
        calls
    }
}

} // verus!
