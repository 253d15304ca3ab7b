use pydriver::exception::{clone_result, raise_stop_iteration, ErrorClass, Exception, Outcome, Raised};
use std::sync::Arc;

#[test]
fn an_outcome_is_shared_and_not_copied() {
    let value = Arc::new(5u32);
    let outcome: Outcome<u32, u32> = Ok(Arc::clone(&value));
    let another = clone_result(&outcome);
    assert!(Arc::ptr_eq(&value, &another.unwrap()));

    let exception = Arc::new(Exception::new(ErrorClass::Type, "no".to_string()));
    let outcome: Outcome<u32, u32> = Err(Arc::clone(&exception));
    let another = clone_result(&outcome);
    assert!(Arc::ptr_eq(&exception, &another.unwrap_err()));
}

#[test]
fn success_is_raised_as_stop_iteration() {
    let outcome: Outcome<u32, u32> = Ok(Arc::new(5));
    match raise_stop_iteration(&outcome) {
        Raised::StopIteration(value) => assert_eq!(*value, 5),
        Raised::Exception(_) => panic!("raised an exception"),
    }
}

#[test]
fn failure_is_raised_as_it_is() {
    let exception = Arc::new(Exception::from_object(9u32));
    let outcome: Outcome<u32, u32> = Err(Arc::clone(&exception));
    match raise_stop_iteration(&outcome) {
        Raised::StopIteration(_) => panic!("raised StopIteration"),
        Raised::Exception(raised) => assert!(Arc::ptr_eq(&raised, &exception)),
    }
}

#[test]
fn an_exception_keeps_class_and_message_when_its_object_is_built() {
    let exception = Exception::new(ErrorClass::Timeout, "late".to_string());
    assert_eq!(exception.object, None::<u32>);
    let built = exception.with_object(3u32);
    assert_eq!(built.class, ErrorClass::Timeout);
    assert_eq!(built.message, Some("late".to_string()));
    assert_eq!(built.object, Some(3));

    let foreign = Exception::from_object(4u32);
    assert_eq!(foreign.class, ErrorClass::Other);
    assert_eq!(foreign.message, None);
    assert_eq!(foreign.object, Some(4));
}
