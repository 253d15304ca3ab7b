//! Python exceptions and the outcome of a future, as far as the driver looks into them.

use std::sync::Arc;
use vstd::prelude::*;

verus! {

/// The classes of exceptions that the driver raises.
#[derive(Clone, Copy, Debug, PartialEq, Eq, Structural)]
pub enum ErrorClass {
    /// `RuntimeError`
    Runtime,
    /// `TimeoutError`
    Timeout,
    /// `TypeError`
    Type,
    /// The driver's own `FutureCancelledError`
    Cancelled,
    /// The class of the exception object, whichever that is: the driver does not look into an
    /// exception that came out of Python code.
    Other,
}

/// An exception.
///
/// One that the driver raises itself is known by its class and message; one that came out of
/// Python code, or that was already built, is held as an object of type `X`.
#[derive(Debug)]
pub struct Exception<X> {
    /// The class, where the driver chose it.
    pub class: ErrorClass,
    /// The message, where the driver chose it.
    pub message: Option<String>,
    /// The exception object, where there is one.
    pub object: Option<X>,
}

/// What an [`Exception`] stands for.
#[verifier::ext_equal]
pub struct ExceptionView<X> {
    pub class: ErrorClass,
    pub message: Option<Seq<char>>,
    pub object: Option<X>,
}

impl<X> View for Exception<X> {
    type V = ExceptionView<X>;

    open spec fn view(&self) -> ExceptionView<X> {
        ExceptionView {
            class: self.class,
            message: match self.message {
                Some(message) => Some(message@),
                None => None,
            },
            object: self.object,
        }
    }
}

/// An exception that the driver raises: no object has been built for it yet.
pub open spec fn described<X>(class: ErrorClass, message: Seq<char>) -> ExceptionView<X> {
    ExceptionView { class, message: Some(message), object: None }
}

impl<X> Exception<X> {
    /// An exception of the given class and message, to be built when it is raised.
    pub fn new(class: ErrorClass, message: String) -> (exception: Self)
        ensures
            exception@ == described::<X>(class, message@),
    {
        Exception { class, message: Some(message), object: None }
    }

    /// An exception that came out of Python code.
    pub fn from_object(object: X) -> (exception: Self)
        ensures
            exception@ == (ExceptionView {
                class: ErrorClass::Other,
                message: None,
                object: Some(object),
            }),
    {
        Exception { class: ErrorClass::Other, message: None, object: Some(object) }
    }

    /// The same exception, with the object that was built for it.
    pub fn with_object(self, object: X) -> (exception: Self)
        ensures
            exception@ == (ExceptionView { object: Some(object), ..self@ }),
    {
        Exception { class: self.class, message: self.message, object: Some(object) }
    }
}

/// What a future resolves to: a Python object, or the exception to raise.
///
/// Both are shared, as Python objects are: handing out an outcome copies no object.
pub type Outcome<O, X> = Result<Arc<O>, Arc<Exception<X>>>;

/// What an [`Outcome`] stands for.
pub type OutcomeView<O, X> = Result<O, ExceptionView<X>>;

/// The view of an [`Outcome`].
pub open spec fn outcome_view<O, X>(outcome: Outcome<O, X>) -> OutcomeView<O, X> {
    match outcome {
        Ok(value) => Ok(*value),
        Err(exception) => Err(exception@),
    }
}

/// Another handle on the same outcome.
pub fn clone_result<O, X>(result: &Outcome<O, X>) -> (another: Outcome<O, X>)
    ensures
        another == *result,
{
    match result {
        Ok(value) => Ok(Arc::clone(value)),
        Err(exception) => Err(Arc::clone(exception)),
    }
}

/// What is raised to whoever drives a future.
#[derive(Debug)]
pub enum Raised<O, X> {
    /// `StopIteration`, carrying the value of a future that succeeded.
    StopIteration(Arc<O>),
    /// An exception.
    Exception(Arc<Exception<X>>),
}

/// What a [`Raised`] stands for.
#[verifier::ext_equal]
pub enum RaisedView<O, X> {
    StopIteration(O),
    Exception(ExceptionView<X>),
}

impl<O, X> View for Raised<O, X> {
    type V = RaisedView<O, X>;

    open spec fn view(&self) -> RaisedView<O, X> {
        match self {
            Raised::StopIteration(value) => RaisedView::StopIteration(**value),
            Raised::Exception(exception) => RaisedView::Exception(exception@),
        }
    }
}

/// How a future that has resolved ends an iteration: a value is carried by `StopIteration`, an
/// exception is raised as it is.
pub open spec fn stop_iteration<O, X>(result: OutcomeView<O, X>) -> RaisedView<O, X> {
    match result {
        Ok(value) => RaisedView::StopIteration(value),
        Err(exception) => RaisedView::Exception(exception),
    }
}

/// An exception that the driver raises is of the class, and has the message, that the driver chose.
pub proof fn law_described_as_chosen<X>(class: ErrorClass, message: Seq<char>)
    ensures
        described::<X>(class, message) == (ExceptionView::<X> {
            class,
            message: Some(message),
            object: None,
        }),
{
}

/// An iteration over a future ends with `StopIteration` and the value if the future succeeded, and
/// with the exception, as it is, if it failed.
pub proof fn law_iteration_ends_with_the_outcome<O, X>(value: O, exception: ExceptionView<X>)
    ensures
        stop_iteration(Ok::<O, ExceptionView<X>>(value)) == RaisedView::<O, X>::StopIteration(value),
        stop_iteration(Err::<O, ExceptionView<X>>(exception)) == RaisedView::<O, X>::Exception(
            exception,
        ),
{
}

/// The view of an exception, of an outcome, and of what is raised has all that they hold.
pub proof fn law_outcomes_are_seen_in_full<O, X>(
    exception: Exception<X>,
    outcome: Outcome<O, X>,
    raised: Raised<O, X>,
)
    ensures
        exception@.class == exception.class,
        exception@.object == exception.object,
        exception@.message is Some <==> exception.message is Some,
        exception.message matches Some(message) ==> exception@.message == Some(message@),
        match outcome {
            Ok(value) => outcome_view(outcome) == Ok::<O, ExceptionView<X>>(*value),
            Err(exception) => outcome_view(outcome) == Err::<O, ExceptionView<X>>(exception@),
        },
        match raised {
            Raised::StopIteration(value) => raised@ == RaisedView::<O, X>::StopIteration(*value),
            Raised::Exception(exception) => raised@ == RaisedView::<O, X>::Exception(exception@),
        },
{
}

/// What to raise for a future that resolved to `result`.
pub fn raise_stop_iteration<O, X>(result: &Outcome<O, X>) -> (raised: Raised<O, X>)
    ensures
        raised@ == stop_iteration(outcome_view(*result)),
{
    match result {
        Ok(value) => Raised::StopIteration(Arc::clone(value)),
        Err(exception) => Raised::Exception(Arc::clone(exception)),
    }
}

} // verus!
