use pydriver::exception::{ErrorClass, Exception};
use pydriver::session::{execute, prepare, request_result, scylla_prepare};
use pydriver::session::{ExecutableStatement, ExecuteCall, PrepareStep, RequestObject};
use scylla::statement::unprepared::Statement;
use std::sync::Arc;

type Request = RequestObject<&'static str, u32>;

fn extract(request: Request) -> Result<ExecutableStatement<&'static str>, Arc<Exception<u32>>> {
    ExecutableStatement::extract(request)
}

#[test]
fn text_becomes_an_unprepared_statement() {
    let text = "SELECT a FROM ks.t WHERE b = ?";
    match extract(RequestObject::Text(Ok(text.to_string()))) {
        Ok(ExecutableStatement::Unprepared(statement)) => {
            assert_eq!(statement.contents, text);
            assert_eq!(statement.get_page_size(), Statement::new("").get_page_size());
            assert_eq!(statement.get_consistency(), None);
        }
        _ => panic!("not an unprepared statement"),
    }
}

#[test]
fn statements_are_taken_as_they_are() {
    let mut statement = Statement::new("INSERT");
    statement.set_page_size(17);
    match extract(RequestObject::Statement(statement)) {
        Ok(ExecutableStatement::Unprepared(statement)) => {
            assert_eq!(statement.contents, "INSERT");
            assert_eq!(statement.get_page_size(), 17);
        }
        _ => panic!("not an unprepared statement"),
    }
    match extract(RequestObject::PreparedStatement("prepared")) {
        Ok(ExecutableStatement::Prepared(prepared)) => assert_eq!(prepared, "prepared"),
        _ => panic!("not a prepared statement"),
    }
}

#[test]
fn other_objects_are_refused_by_the_name_of_their_type() {
    let error = match extract(RequestObject::Other { py_type: Ok("int".to_string()) }) {
        Err(error) => error,
        Ok(_) => panic!("accepted"),
    };
    assert_eq!(error.class, ErrorClass::Type);
    assert_eq!(
        error.message.as_deref(),
        Some("Invalid request type: expected str | Statement | PreparedStatement, got int"),
    );
}

#[test]
fn what_python_raises_is_passed_on() {
    let raised = Arc::new(Exception::from_object(21u32));
    match extract(RequestObject::Text(Err(Arc::clone(&raised)))) {
        Err(error) => assert!(Arc::ptr_eq(&error, &raised)),
        Ok(_) => panic!("accepted"),
    }
    match extract(RequestObject::Other { py_type: Err(Arc::clone(&raised)) }) {
        Err(error) => assert!(Arc::ptr_eq(&error, &raised)),
        Ok(_) => panic!("accepted"),
    }
}

#[test]
fn unprepared_statements_are_queried() {
    let request: ExecutableStatement<u8> = ExecutableStatement::Unprepared(Statement::new("A"));
    match execute(request, 5u32) {
        ExecuteCall::QueryUnpaged { statement, values } => {
            assert_eq!(statement.contents, "A");
            assert_eq!(values, 5);
        }
        ExecuteCall::ExecuteUnpaged { .. } => panic!("executed"),
    }
}

#[test]
fn prepared_statements_are_executed() {
    match execute(ExecutableStatement::Prepared("p"), 6u32) {
        ExecuteCall::ExecuteUnpaged { statement, values } => {
            assert_eq!(statement, "p");
            assert_eq!(values, 6);
        }
        ExecuteCall::QueryUnpaged { .. } => panic!("queried"),
    }
}

#[test]
fn the_answer_to_a_request_is_shared_or_raised() {
    let rows: Result<_, Exception<u32>> = request_result(Ok::<u32, String>(3));
    assert_eq!(*rows.unwrap().inner, 3);
    let failed: Result<_, Exception<u32>> = request_result::<u32, u32>(Err("no host".to_string()));
    let error = failed.unwrap_err();
    assert_eq!(error.class, ErrorClass::Runtime);
    assert_eq!(error.message.as_deref(), Some("no host"));
}

#[test]
fn a_prepared_statement_is_not_prepared_again() {
    match prepare(ExecutableStatement::Prepared("p")) {
        PrepareStep::Done(prepared) => assert_eq!(prepared.inner, "p"),
        PrepareStep::Prepare(_) => panic!("prepared again"),
    }
    match prepare::<u8>(ExecutableStatement::Unprepared(Statement::new("B"))) {
        PrepareStep::Prepare(statement) => assert_eq!(statement.contents, "B"),
        PrepareStep::Done(_) => panic!("not prepared"),
    }
}

#[test]
fn preparing_reports_why_it_failed() {
    let prepared: Result<_, Exception<u32>> = scylla_prepare(Ok::<u32, String>(4));
    assert_eq!(prepared.unwrap().inner, 4);
    let failed: Result<_, Exception<u32>> = scylla_prepare::<u32, u32>(Err("syntax".to_string()));
    let error = failed.unwrap_err();
    assert_eq!(error.class, ErrorClass::Runtime);
    assert_eq!(error.message.as_deref(), Some("Failed to prepare statement: syntax"));
}
