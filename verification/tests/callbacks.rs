use pydriver::callbacks::{Argument, CallbackKind};
use pydriver::exception::{Exception, Outcome};
use std::sync::Arc;

fn success(value: &str) -> Outcome<String, u32> {
    Ok(Arc::new(value.to_string()))
}

fn failure(object: u32) -> Outcome<String, u32> {
    Err(Arc::new(Exception::from_object(object)))
}

#[test]
fn a_callback_for_success_fires_on_success_alone() {
    let callback = CallbackKind::on_success("f".to_string());
    let call = callback.invoke(&success("v")).unwrap();
    assert_eq!(call.callable, "f");
    match call.argument {
        Argument::Value(value) => assert_eq!(*value, "v"),
        Argument::Exception(_) => panic!("called with an exception"),
    }
    assert!(callback.invoke(&failure(1)).is_none());
}

#[test]
fn a_callback_for_failure_fires_on_failure_alone() {
    let callback = CallbackKind::on_error("g".to_string());
    let call = callback.invoke(&failure(8)).unwrap();
    assert_eq!(call.callable, "g");
    match call.argument {
        Argument::Exception(exception) => assert_eq!(exception.object, Some(8)),
        Argument::Value(_) => panic!("called with a value"),
    }
    assert!(callback.invoke(&success("v")).is_none());
}

#[test]
fn matching_callbacks_fire_in_order() {
    let callbacks = vec![
        CallbackKind::on_success("a".to_string()),
        CallbackKind::on_error("b".to_string()),
        CallbackKind::on_success("c".to_string()),
        CallbackKind::on_error("d".to_string()),
    ];
    let called = |outcome: &Outcome<String, u32>| -> Vec<String> {
        CallbackKind::fire_all(&callbacks, outcome).iter().map(|call| call.callable.clone()).collect()
    };
    assert_eq!(called(&success("v")), ["a", "c"]);
    assert_eq!(called(&failure(1)), ["b", "d"]);
}

#[test]
fn no_callbacks_make_no_calls() {
    let callbacks: Vec<CallbackKind<String>> = Vec::new();
    assert!(CallbackKind::fire_all(&callbacks, &success("v")).is_empty());
}
