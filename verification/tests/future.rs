use pydriver::callbacks::{Argument, CallbackKind};
use pydriver::coroutine::{PanicPayload, PollResult, Polled};
use pydriver::exception::{ErrorClass, Exception, Outcome, Raised};
use pydriver::future::state::{cancelled_err, closed_err, panicked_err, timeout_err};
use pydriver::future::state::{Aftermath, Effect, FutureState};
use pydriver::future::steps::{repr_exception, BlockStep, PollStep, RegisterStep, Reply, Repr};
use pydriver::future::PyDriverFuture;
use std::sync::Arc;

// Futures are known by name, wakers and abort handles by number; so are exception objects.
type Future = PyDriverFuture<&'static str, u32, u64, String, u32>;
type Doing = Aftermath<u64, u32, String, u32>;

const FRESH: u32 = 1000;
const HANDLE: u64 = 77;
const PANICKED: &str = "DriverFuture was left in an inconsistent state by a panic";

fn value(text: &str) -> Outcome<String, u32> {
    Ok(Arc::new(text.to_string()))
}

fn error(object: u32) -> Arc<Exception<u32>> {
    Arc::new(Exception::from_object(object))
}

/// A future that the event loop drives, parked on waker 5.
fn parked() -> Future {
    let mut future: Future = PyDriverFuture::new("work");
    match future.poll_coroutine() {
        PollStep::Drive { mut coroutine, polling } => {
            coroutine.poll_waker(5);
            let polled = coroutine.poll(Polled::Pending { value: value("asyncio future") });
            let (aftermath, reply) = future.polled(polling, polled);
            assert_eq!(shown(&aftermath), Vec::<String>::new());
            assert_eq!(*reply.unwrap(), "asyncio future");
        }
        _ => panic!("not driven"),
    }
    future
}

/// A future with a task, parked on waker 5, with a callback of each kind.
fn spawned() -> Future {
    let mut future = parked();
    start(&mut future);
    assert!(matches!(future.on_result("good".to_string(), FRESH), RegisterStep::Queued));
    assert!(matches!(future.on_error("bad".to_string(), FRESH), RegisterStep::Queued));
    future
}

fn panicked() -> Future {
    PyDriverFuture::spawning()
}

fn start(future: &mut Future) {
    let (work, starting) = future.ensure_started(FRESH).unwrap();
    assert_eq!(work, "work");
    future.started(starting, HANDLE);
}

/// The effects, in words.
fn shown(aftermath: &Doing) -> Vec<String> {
    let mut words = Vec::new();
    for effect in &aftermath.effects {
        match effect {
            Effect::Wake(waker) => words.push(format!("wake {}", waker)),
            Effect::NotifyAll => words.push("notify".to_string()),
            Effect::Fire { callbacks, result } => {
                for call in CallbackKind::fire_all(callbacks, result) {
                    words.push(match call.argument {
                        Argument::Value(value) => format!("{}({})", call.callable, value),
                        Argument::Exception(exception) => {
                            format!("{}(exception {:?})", call.callable, exception.object)
                        }
                    });
                }
            }
        }
    }
    words
}

fn raised_object(reply: Reply<String, u32>) -> Option<u32> {
    match reply {
        Err(Raised::Exception(exception)) => exception.object,
        _ => None,
    }
}

fn result_of(future: &mut Future) -> Outcome<String, u32> {
    match future.block_until_ready(FRESH) {
        BlockStep::Return(result) => result,
        _ => panic!("has to wait"),
    }
}

fn text_of(repr: Repr<u32>) -> String {
    match repr {
        Repr::Text(text) => text,
        Repr::Exception(exception) => repr_exception(&format!("#{}", exception.object.unwrap())),
    }
}

#[test]
fn a_new_future_is_pending() {
    let future: Future = PyDriverFuture::new("work");
    assert!(!future.done());
    assert!(!future.cancelled());
    assert_eq!(text_of(future.repr()), "<DriverFuture pending>");
}

#[test]
fn polling_to_completion_ends_the_iteration_for_good() {
    let mut future = parked();
    match future.poll_coroutine() {
        PollStep::Drive { coroutine, polling } => {
            let polled = coroutine.poll(Polled::Ready(value("done")));
            let (aftermath, reply) = future.polled(polling, polled);
            assert_eq!(aftermath.abort, None);
            assert!(!aftermath.offload);
            assert_eq!(shown(&aftermath), ["notify"]);
            match reply {
                Err(Raised::StopIteration(value)) => assert_eq!(*value, "done"),
                _ => panic!("no StopIteration"),
            }
        }
        _ => panic!("not driven"),
    }
    assert!(future.done());
    assert_eq!(text_of(future.repr()), "<DriverFuture finished>");
    for _ in 0..2 {
        match future.poll_coroutine() {
            PollStep::Raise(Raised::StopIteration(value)) => assert_eq!(*value, "done"),
            _ => panic!("no StopIteration"),
        }
        assert_eq!(*result_of(&mut future).unwrap(), "done");
    }
}

#[test]
fn a_panic_while_polling_is_the_outcome() {
    let mut future = parked();
    match future.poll_coroutine() {
        PollStep::Drive { coroutine, polling } => {
            let payload = PanicPayload::Literal("boom".to_string());
            let polled = coroutine.poll(Polled::Panicked { payload, object: 31 });
            let (_, reply) = future.polled(polling, polled);
            assert_eq!(raised_object(reply), Some(31));
        }
        _ => panic!("not driven"),
    }
    let error = result_of(&mut future).unwrap_err();
    assert_eq!(error.class, ErrorClass::Runtime);
    assert_eq!(error.message.as_deref(), Some("boom"));
}

#[test]
fn a_poll_that_cannot_yield_keeps_the_future() {
    let mut future = parked();
    match future.poll_coroutine() {
        PollStep::Drive { coroutine, polling } => {
            let polled = coroutine.poll(Polled::Pending { value: Err(error(8)) });
            let (aftermath, reply) = future.polled(polling, polled);
            assert!(shown(&aftermath).is_empty());
            assert_eq!(raised_object(reply), Some(8));
        }
        _ => panic!("not driven"),
    }
    assert!(matches!(future.state(), FutureState::PendingAsyncio { .. }));
}

#[test]
fn a_poll_that_unwinds_leaves_the_future_panicked() {
    let mut future = parked();
    drop(future.poll_coroutine());
    assert!(future.done());
    assert_eq!(text_of(future.repr()), "<DriverFuture panicked>");
}

#[test]
fn a_spawned_future_yields_its_waker() {
    let mut future = spawned();
    match future.poll_coroutine() {
        PollStep::Yield(waker) => assert_eq!(*waker, 5),
        _ => panic!("does not yield"),
    }
    assert!(matches!(future.state(), FutureState::PendingTokio { .. }));
}

#[test]
fn starting_keeps_the_waker_that_is_parked_on() {
    let mut future = parked();
    start(&mut future);
    match future.state() {
        FutureState::PendingTokio { callbacks, abort_handle, waker } => {
            assert!(callbacks.is_empty());
            assert_eq!(*abort_handle, HANDLE);
            assert_eq!(**waker, 5);
        }
        _ => panic!("not started"),
    }
    assert!(future.ensure_started(FRESH).is_none());

    let mut unpolled: Future = PyDriverFuture::new("work");
    start(&mut unpolled);
    match unpolled.state() {
        FutureState::PendingTokio { waker, .. } => assert_eq!(**waker, FRESH),
        _ => panic!("not started"),
    }
}

#[test]
fn starting_does_nothing_to_a_future_that_is_over() {
    let mut future: Future = PyDriverFuture::ready(value("v"));
    assert!(future.ensure_started(FRESH).is_none());
    assert_eq!(*result_of(&mut future).unwrap(), "v");
    let mut future = panicked();
    assert!(future.ensure_started(FRESH).is_none());
    assert!(matches!(future.state(), FutureState::Panicked));
}

#[test]
fn a_future_can_be_spawned_right_away() {
    let mut future: Future = PyDriverFuture::spawning();
    assert!(matches!(future.state(), FutureState::Panicked));
    future = PyDriverFuture::spawn_on_tokio(HANDLE, Arc::new(6));
    let aftermath = future.task_completed(value("v"));
    assert_eq!(shown(&aftermath), ["wake 6", "notify"]);
    assert!(!aftermath.offload);
    assert_eq!(aftermath.abort, None);
}

#[test]
fn a_task_that_succeeds_fires_and_tells() {
    let mut future = spawned();
    let aftermath = future.task_completed(value("v"));
    assert_eq!(shown(&aftermath), ["good(v)", "wake 5", "notify"]);
    assert!(aftermath.offload);
    assert_eq!(aftermath.abort, None);
    assert_eq!(*result_of(&mut future).unwrap(), "v");
}

#[test]
fn a_task_that_fails_fires_and_tells() {
    let mut future = spawned();
    let aftermath = future.task_completed(Err(error(3)));
    assert_eq!(shown(&aftermath), ["bad(exception Some(3))", "wake 5", "notify"]);
    assert_eq!(text_of(future.repr()), "<DriverFuture finished exception=#3>");
}

#[test]
fn a_task_that_comes_late_changes_nothing() {
    let mut future = spawned();
    future.close(1);
    let aftermath = future.task_completed(value("late"));
    assert!(shown(&aftermath).is_empty());
    assert_eq!(result_of(&mut future).unwrap_err().object, Some(1));
}

#[test]
fn closing_a_spawned_future_aborts_tells_and_fires() {
    let mut future = spawned();
    let aftermath = future.close(4);
    assert_eq!(aftermath.abort, Some(HANDLE));
    assert!(!aftermath.offload);
    assert_eq!(shown(&aftermath), ["notify", "wake 5", "bad(exception Some(4))"]);
    let error = result_of(&mut future).unwrap_err();
    assert_eq!(error.class, ErrorClass::Runtime);
    assert_eq!(error.message.as_deref(), Some("future was closed"));
    assert_eq!(error.object, Some(4));
    assert!(!future.cancelled());
    assert!(future.done());
}

#[test]
fn closing_a_future_of_the_event_loop_wakes_who_is_parked() {
    let mut future = parked();
    let aftermath = future.close(4);
    assert_eq!(aftermath.abort, None);
    assert_eq!(shown(&aftermath), ["notify", "wake 5"]);

    let mut unpolled: Future = PyDriverFuture::new("work");
    let aftermath = unpolled.close(4);
    assert_eq!(shown(&aftermath), ["notify"]);
    assert!(unpolled.done());
}

#[test]
fn closing_a_future_that_is_over_does_nothing() {
    let mut future: Future = PyDriverFuture::ready(value("v"));
    assert!(shown(&future.close(4)).is_empty());
    assert_eq!(*result_of(&mut future).unwrap(), "v");
    assert!(shown(&future.cancel(4)).is_empty());
    assert!(!future.cancelled());

    let mut future = panicked();
    assert!(shown(&future.close_future(error(4), false)).is_empty());
    assert!(matches!(future.state(), FutureState::Panicked));
}

#[test]
fn cancelling_is_told_apart_from_closing() {
    for mut future in [parked(), spawned()] {
        future.cancel(9);
        assert!(future.cancelled());
        assert!(future.done());
        let error = result_of(&mut future).unwrap_err();
        assert_eq!(error.class, ErrorClass::Cancelled);
        assert_eq!(error.message.as_deref(), Some("future was cancelled"));
        assert_eq!(error.object, Some(9));
    }
}

#[test]
fn only_cancelling_makes_a_future_cancelled() {
    let lookalike = || Arc::new(cancelled_err().with_object(2));
    for mut future in [parked(), spawned()] {
        future.throw_into(lookalike());
        assert!(future.done());
        assert!(!future.cancelled());
        assert_eq!(result_of(&mut future).unwrap_err().class, ErrorClass::Cancelled);
    }
    let mut future = spawned();
    future.task_completed(Err(lookalike()));
    assert!(!future.cancelled());

    let mut future = parked();
    match future.poll_coroutine() {
        PollStep::Drive { coroutine, polling } => {
            future.polled(polling, coroutine.poll(Polled::Ready(Err(lookalike()))));
        }
        _ => panic!("nothing to drive"),
    }
    assert!(future.done());
    assert!(!future.cancelled());

    for mut future in [parked(), spawned()] {
        future.close_future(lookalike(), false);
        assert!(!future.cancelled());
    }
    assert!(!Future::ready(Err(lookalike())).cancelled());
    assert!(!panicked().cancelled());
}

#[test]
fn whether_a_future_is_cancelled_is_settled_when_it_resolves() {
    let mut future = spawned();
    future.cancel(9);
    future.close(10);
    future.throw_into(error(11));
    future.task_completed(value("late"));
    assert!(future.cancelled());
    assert_eq!(result_of(&mut future).unwrap_err().object, Some(9));

    let mut future = spawned();
    future.close(10);
    future.cancel(9);
    assert!(!future.cancelled());

    let mut future = spawned();
    future.task_completed(value("done"));
    future.cancel(9);
    assert!(!future.cancelled());
    assert_eq!(*result_of(&mut future).unwrap(), "done");
}

#[test]
fn throwing_into_a_future_of_the_event_loop_resolves_it() {
    let mut future = parked();
    let (aftermath, reply) = future.throw_into(error(12));
    assert_eq!(shown(&aftermath), ["notify"]);
    assert_eq!(aftermath.abort, None);
    assert_eq!(raised_object(reply), Some(12));
    assert_eq!(result_of(&mut future).unwrap_err().object, Some(12));
}

#[test]
fn throwing_into_a_spawned_future_aborts_tells_and_fires() {
    let mut future = spawned();
    let (aftermath, reply) = future.throw_into(error(13));
    assert_eq!(aftermath.abort, Some(HANDLE));
    assert!(!aftermath.offload);
    assert_eq!(shown(&aftermath), ["wake 5", "notify", "bad(exception Some(13))"]);
    assert_eq!(raised_object(reply), Some(13));
    assert_eq!(result_of(&mut future).unwrap_err().object, Some(13));
}

#[test]
fn throwing_into_a_future_that_is_over_only_raises() {
    let mut future: Future = PyDriverFuture::ready(value("v"));
    let (aftermath, reply) = future.throw_into(error(14));
    assert!(shown(&aftermath).is_empty());
    assert_eq!(raised_object(reply), Some(14));
    assert_eq!(*result_of(&mut future).unwrap(), "v");
}

#[test]
fn blocking_starts_a_future_of_the_event_loop() {
    let mut future = parked();
    match future.block_until_ready(FRESH) {
        BlockStep::Start { future: work, starting } => {
            assert_eq!(work, "work");
            future.started(starting, HANDLE);
        }
        _ => panic!("not started"),
    }
    assert!(matches!(future.block_until_ready(FRESH), BlockStep::Wait));
    future.task_completed(value("v"));
    assert!(!future.timed_out(true));
    assert_eq!(*future.wait_for_ready(false).unwrap(), "v");
}

#[test]
fn a_wait_times_out_only_on_a_pending_future() {
    let pending = spawned();
    assert!(pending.timed_out(true));
    assert!(!pending.timed_out(false));
    let error = pending.wait_for_ready(true).unwrap_err();
    assert_eq!(error.class, ErrorClass::Timeout);
    assert_eq!(error.message.as_deref(), Some("DriverFuture.result() timed out"));

    let done: Future = PyDriverFuture::ready(value("v"));
    assert!(!done.timed_out(true));
    assert_eq!(*done.wait_for_ready(false).unwrap(), "v");
}

#[test]
fn registering_starts_a_future_of_the_event_loop() {
    let mut future = parked();
    match future.register_callback(CallbackKind::on_success("first".to_string()), FRESH) {
        RegisterStep::Start { future: work, starting } => {
            assert_eq!(work, "work");
            future.started(starting, HANDLE);
        }
        _ => panic!("not started"),
    }
    assert!(matches!(future.on_result("second".to_string(), FRESH), RegisterStep::Queued));
    let aftermath = future.task_completed(value("v"));
    assert_eq!(shown(&aftermath), ["first(v)", "second(v)", "wake 5", "notify"]);
}

#[test]
fn registering_on_a_resolved_future_invokes_on_its_outcome() {
    let mut future: Future = PyDriverFuture::ready(value("v"));
    match future.on_result("good".to_string(), FRESH) {
        RegisterStep::Invoke { callback, result } => {
            let call = callback.invoke(&result).unwrap();
            assert_eq!(call.callable, "good");
            assert!(matches!(call.argument, Argument::Value(value) if *value == "v"));
        }
        _ => panic!("not invoked"),
    }
    match future.on_error("bad".to_string(), FRESH) {
        RegisterStep::Invoke { callback, result } => assert!(callback.invoke(&result).is_none()),
        _ => panic!("not invoked"),
    }
}

#[test]
fn a_panicked_future_reports_the_panic_everywhere() {
    let check = |exception: &Exception<u32>| {
        assert_eq!(exception.class, ErrorClass::Runtime);
        assert_eq!(exception.message.as_deref(), Some(PANICKED));
    };
    let mut future = panicked();
    match future.poll_coroutine() {
        PollStep::Raise(Raised::Exception(exception)) => check(&exception),
        _ => panic!("no exception"),
    }
    match future.throw_into(error(1)) {
        (aftermath, Err(Raised::Exception(exception))) => {
            assert!(shown(&aftermath).is_empty());
            check(&exception);
        }
        _ => panic!("no exception"),
    }
    check(&result_of(&mut future).unwrap_err());
    check(&future.wait_for_ready(false).unwrap_err());
    match future.on_error("bad".to_string(), FRESH) {
        RegisterStep::Invoke { callback, result } => match callback.invoke(&result).unwrap().argument {
            Argument::Exception(exception) => check(&exception),
            Argument::Value(_) => panic!("called with a value"),
        },
        _ => panic!("not invoked"),
    }
    assert!(future.done());
    assert!(!future.cancelled());
    assert!(matches!(future.state(), FutureState::Panicked));
}

#[test]
fn the_exceptions_of_the_driver_have_their_messages() {
    let described = |exception: Exception<u32>| (exception.class, exception.message.unwrap());
    assert_eq!(described(panicked_err()), (ErrorClass::Runtime, PANICKED.to_string()));
    assert_eq!(
        described(closed_err()),
        (ErrorClass::Runtime, "future was closed".to_string()),
    );
    assert_eq!(
        described(cancelled_err()),
        (ErrorClass::Cancelled, "future was cancelled".to_string()),
    );
    assert_eq!(
        described(timeout_err()),
        (ErrorClass::Timeout, "DriverFuture.result() timed out".to_string()),
    );
}

#[test]
fn the_second_half_of_a_start_leaves_other_futures_alone() {
    let (_, starting) = parked().ensure_started(FRESH).unwrap();
    let mut future: Future = PyDriverFuture::ready(value("kept"));
    future.started(starting, HANDLE);
    assert_eq!(*result_of(&mut future).unwrap(), "kept");

    let (_, starting) = parked().ensure_started(FRESH).unwrap();
    let mut future = parked();
    future.started(starting, HANDLE);
    assert!(matches!(future.state(), FutureState::PendingAsyncio { .. }));
}

#[test]
fn the_second_half_of_a_poll_leaves_other_futures_alone() {
    let mut future: Future = PyDriverFuture::ready(value("kept"));
    match parked().poll_coroutine() {
        PollStep::Drive { coroutine, polling } => {
            let polled = coroutine.poll(Polled::Ready(value("other")));
            let (aftermath, reply) = future.polled(polling, polled);
            assert!(shown(&aftermath).is_empty());
            match reply {
                Err(Raised::StopIteration(value)) => assert_eq!(*value, "other"),
                _ => panic!("the poll did not end"),
            }
        }
        _ => panic!("nothing to drive"),
    }
    assert_eq!(*result_of(&mut future).unwrap(), "kept");

    let mut future = spawned();
    match parked().poll_coroutine() {
        PollStep::Drive { coroutine, polling } => {
            let polled = coroutine.poll(Polled::Pending { value: value("yielded") });
            let (aftermath, reply) = future.polled(polling, polled);
            assert!(shown(&aftermath).is_empty());
            assert_eq!(*reply.unwrap(), "yielded");
        }
        _ => panic!("nothing to drive"),
    }
    assert!(matches!(future.state(), FutureState::PendingTokio { .. }));
}
