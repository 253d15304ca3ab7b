use pydriver::coroutine::{panicked_future_err, Coroutine, PanicPayload, PollResult, Polled};
use pydriver::exception::{ErrorClass, Exception};
use std::sync::Arc;

type Co = Coroutine<&'static str, u32>;
type Polling = PollResult<&'static str, u32, u32, u32>;

#[test]
fn a_new_coroutine_is_parked_nowhere() {
    let coroutine: Co = Coroutine::new("future");
    assert_eq!(coroutine.future, "future");
    assert!(coroutine.waker.is_none());
    assert!(coroutine.into_waker().is_none());
}

#[test]
fn a_first_poll_takes_the_fresh_waker() {
    let mut coroutine: Co = Coroutine::new("future");
    let waker = coroutine.poll_waker(1);
    assert_eq!(*waker, 1);
    assert!(Arc::ptr_eq(&waker, coroutine.waker.as_ref().unwrap()));
}

#[test]
fn a_waker_that_nobody_else_holds_is_reused() {
    let mut coroutine: Co = Coroutine::new("future");
    let first = coroutine.poll_waker(1);
    let address = Arc::as_ptr(&first) as usize;
    drop(first);
    let second = coroutine.poll_waker(2);
    assert_eq!(*second, 2);
    assert_eq!(Arc::as_ptr(&second) as usize, address);
}

#[test]
fn a_waker_that_is_still_held_is_left_alone() {
    let mut coroutine: Co = Coroutine::new("future");
    let first = coroutine.poll_waker(1);
    let second = coroutine.poll_waker(2);
    assert_eq!(*first, 1);
    assert_eq!(*second, 2);
    assert!(!Arc::ptr_eq(&first, &second));
    assert!(Arc::ptr_eq(&second, coroutine.waker.as_ref().unwrap()));
}

#[test]
fn the_parked_waker_goes_with_the_future() {
    let mut coroutine: Co = Coroutine::new("future");
    let parked = coroutine.poll_waker(1);
    let (future, waker) = coroutine.into_future_and_waker(7);
    assert_eq!(future, "future");
    assert!(Arc::ptr_eq(&parked, &waker));

    let coroutine: Co = Coroutine::new("other");
    let (future, waker) = coroutine.into_future_and_waker(7);
    assert_eq!(future, "other");
    assert_eq!(*waker, 7);
}

#[test]
fn a_closed_coroutine_gives_back_its_waker() {
    let mut coroutine: Co = Coroutine::new("future");
    let parked = coroutine.poll_waker(1);
    assert!(Arc::ptr_eq(&parked, &coroutine.into_waker().unwrap()));
}

#[test]
fn a_thrown_exception_ends_the_coroutine() {
    let coroutine: Co = Coroutine::new("future");
    let exc = Arc::new(Exception::from_object(3u32));
    let result: Polling = coroutine.throw(Arc::clone(&exc));
    match result {
        PollResult::Ready(Err(raised)) => assert!(Arc::ptr_eq(&raised, &exc)),
        _ => panic!("not ready with the exception"),
    }
}

#[test]
fn a_pending_coroutine_is_handed_back() {
    let coroutine: Co = Coroutine::new("future");
    let result: Polling = coroutine.poll(Polled::Pending { value: Ok(Arc::new(4)) });
    match result {
        PollResult::Pending { coroutine, value } => {
            assert_eq!(coroutine.future, "future");
            assert_eq!(*value.unwrap(), 4);
        }
        PollResult::Ready(_) => panic!("ready"),
    }
}

#[test]
fn a_coroutine_survives_a_failure_to_yield() {
    let coroutine: Co = Coroutine::new("future");
    let no_loop = Arc::new(Exception::from_object(6u32));
    let result: Polling = coroutine.poll(Polled::Pending { value: Err(no_loop) });
    match result {
        PollResult::Pending { coroutine, value } => {
            assert_eq!(coroutine.future, "future");
            assert_eq!(value.unwrap_err().object, Some(6));
        }
        PollResult::Ready(_) => panic!("ready"),
    }
}

#[test]
fn a_completed_future_is_forwarded() {
    let coroutine: Co = Coroutine::new("future");
    let result: Polling = coroutine.poll(Polled::Ready(Ok(Arc::new(5))));
    match result {
        PollResult::Ready(result) => assert_eq!(*result.unwrap(), 5),
        PollResult::Pending { .. } => panic!("pending"),
    }
}

#[test]
fn a_panic_becomes_a_runtime_error_with_its_message() {
    let cases = [
        (PanicPayload::Literal("boom".to_string()), "boom"),
        (PanicPayload::Formatted("boom 2".to_string()), "boom 2"),
        (PanicPayload::Opaque, "Rust future panicked"),
    ];
    for (payload, message) in cases {
        let described: Exception<u32> = panicked_future_err(&payload);
        assert_eq!(described.class, ErrorClass::Runtime);
        assert_eq!(described.message.as_deref(), Some(message));
        let coroutine: Co = Coroutine::new("future");
        let result: Polling = coroutine.poll(Polled::Panicked { payload, object: 11 });
        match result {
            PollResult::Ready(Err(exception)) => {
                assert_eq!(exception.class, ErrorClass::Runtime);
                assert_eq!(exception.message.as_deref(), Some(message));
                assert_eq!(exception.object, Some(11));
            }
            _ => panic!("not ready with an exception"),
        }
    }
}
