//! Requests of a session: what can be run or prepared, and how.

use crate::exception::described;
use crate::exception::{ErrorClass, Exception, ExceptionView};
use scylla::statement::unprepared::Statement;
use std::sync::Arc;
use vstd::prelude::*;

pub mod laws;

verus! {

/// An unprepared statement of the CQL driver.
#[verifier::external_type_specification]
#[verifier::external_body]
pub struct ExStatement(scylla::statement::unprepared::Statement);

/// The text of an unprepared statement: its `contents`.
pub uninterp spec fn statement_contents(statement: Statement) -> Seq<char>;

/// What `Statement::new` makes of a text: the statement with that text and the default settings.
pub uninterp spec fn statement_of(text: Seq<char>) -> Statement;

/// `Statement::new` of the `scylla` crate: a statement from its text.
///
/// Taken on trust: the statement depends on the text alone, and the text is kept as it is, as the
/// contents of the statement. Nothing is said of the settings that the statement starts out with,
/// but that they are always the same.
#[verifier::external_body]
fn statement_from_text(text: String) -> (statement: Statement)
    ensures
        statement == statement_of(text@),
        statement_contents(statement) == text@,
{
    Statement::new(text)
}

/// A Python object that is passed where a statement is expected. `P` is the type of prepared
/// statements.
pub enum RequestObject<P, X> {
    /// A prepared statement.
    PreparedStatement(P),
    /// A `str`, with its text, or what reading that raised.
    Text(Result<String, Arc<Exception<X>>>),
    /// A statement.
    Statement(Statement),
    /// Any other object, with the name of its type, or what asking for that raised.
    Other { py_type: Result<String, Arc<Exception<X>>> },
}

/// A statement that can be run.
pub enum ExecutableStatement<P> {
    /// One that has been prepared.
    Prepared(P),
    /// One that has not.
    Unprepared(Statement),
}

/// The message for an object that is no statement.
pub open spec fn invalid_request_message(py_type: Seq<char>) -> Seq<char> {
    "Invalid request type: expected str | Statement | PreparedStatement, got "@ + py_type
}

/// What becomes of a Python object where a statement is expected.
pub open spec fn extracted_request<P, X>(request: RequestObject<P, X>) -> Result<
    ExecutableStatement<P>,
    ExceptionView<X>,
> {
    match request {
        RequestObject::PreparedStatement(prepared) => Ok(ExecutableStatement::Prepared(prepared)),
        RequestObject::Text(Ok(text)) => Ok(ExecutableStatement::Unprepared(statement_of(text@))),
        RequestObject::Text(Err(raised)) => Err(raised@),
        RequestObject::Statement(unprepared) => Ok(ExecutableStatement::Unprepared(unprepared)),
        RequestObject::Other { py_type: Ok(name) } => Err(
            described(ErrorClass::Type, invalid_request_message(name@)),
        ),
        RequestObject::Other { py_type: Err(raised) } => Err(raised@),
    }
}

impl<P> ExecutableStatement<P> {
    /// Accepts a Python object for a statement: a statement, prepared or not, or the text of one.
    pub fn extract<X>(request: RequestObject<P, X>) -> (statement: Result<
        Self,
        Arc<Exception<X>>,
    >)
        ensures
            match request {
                RequestObject::PreparedStatement(prepared) => {
                    statement matches Ok(executable) && executable
                        == ExecutableStatement::Prepared(prepared)
                },
                RequestObject::Text(Ok(text)) => {
                    statement matches Ok(executable)
                        && executable matches ExecutableStatement::Unprepared(unprepared)
                        && unprepared == statement_of(text@)
                        && statement_contents(unprepared) == text@
                },
                RequestObject::Text(Err(raised)) => {
                    statement matches Err(exception) && exception == raised
                },
                RequestObject::Statement(unprepared) => {
                    statement matches Ok(executable) && executable
                        == ExecutableStatement::<P>::Unprepared(unprepared)
                },
                RequestObject::Other { py_type: Ok(name) } => {
                    statement matches Err(exception) && exception@ == described::<X>(
                        ErrorClass::Type,
                        invalid_request_message(name@),
                    )
                },
                RequestObject::Other { py_type: Err(raised) } => {
                    statement matches Err(exception) && exception == raised
                },
            },
            (match statement {
                Ok(statement) => Ok(statement),
                Err(exception) => Err(exception@),
            }) == extracted_request(request),
    {
        match request {
            RequestObject::PreparedStatement(prepared) => Ok(
                ExecutableStatement::Prepared(prepared),
            ),
            RequestObject::Text(Ok(text)) => Ok(
                ExecutableStatement::Unprepared(statement_from_text(text)),
            ),
            RequestObject::Text(Err(raised)) => Err(raised),
            RequestObject::Statement(unprepared) => Ok(ExecutableStatement::Unprepared(unprepared)),
            RequestObject::Other { py_type: Ok(name) } => {
                let message =
                    "Invalid request type: expected str | Statement | PreparedStatement, got ".to_string().concat(
                name.as_str());
                Err(Arc::new(Exception::new(ErrorClass::Type, message)))
            },
            RequestObject::Other { py_type: Err(raised) } => Err(raised),
        }
    }
}

/// How the database is to be asked to run a statement.
pub enum ExecuteCall<P, V> {
    /// By `query_unpaged`.
    QueryUnpaged { statement: Statement, values: V },
    /// By `execute_unpaged`.
    ExecuteUnpaged { statement: P, values: V },
}

/// How to run a statement with the given values.
pub open spec fn execution<P, V>(request: ExecutableStatement<P>, values: V) -> ExecuteCall<P, V> {
    match request {
        ExecutableStatement::Prepared(statement) => ExecuteCall::ExecuteUnpaged {
            statement,
            values,
        },
        ExecutableStatement::Unprepared(statement) => ExecuteCall::QueryUnpaged {
            statement,
            values,
        },
    }
}

/// How to run a statement with the given values: one that has been prepared is executed, one that
/// has not is sent as it is.
pub fn execute<P, V>(request: ExecutableStatement<P>, values: V) -> (call: ExecuteCall<P, V>)
    ensures
        call == match request {
            ExecutableStatement::Prepared(statement) => ExecuteCall::ExecuteUnpaged {
                statement,
                values,
            },
            ExecutableStatement::Unprepared(statement) => ExecuteCall::QueryUnpaged {
                statement,
                values,
            },
        },
        call == execution(request, values),
{
    match request {
        ExecutableStatement::Unprepared(statement) => ExecuteCall::QueryUnpaged {
            statement,
            values,
        },
        ExecutableStatement::Prepared(statement) => ExecuteCall::ExecuteUnpaged {
            statement,
            values,
        },
    }
}

/// The result of a request.
#[derive(Debug)]
pub struct RequestResult<R> {
    /// The rows that came back.
    pub inner: Arc<R>,
}

/// What a request comes to: the answer of the database, or an exception with the text of the error.
pub open spec fn request_outcome<R, X>(answer: Result<R, Seq<char>>) -> Result<
    R,
    ExceptionView<X>,
> {
    match answer {
        Ok(rows) => Ok(rows),
        Err(text) => Err(described(ErrorClass::Runtime, text)),
    }
}

/// What a request comes to, given the answer of the database or the text of the error.
pub fn request_result<R, X>(answer: Result<R, String>) -> (result: Result<
    RequestResult<R>,
    Exception<X>,
>)
    ensures
        match answer {
            Ok(rows) => result matches Ok(result) && *result.inner == rows,
            Err(text) => {
                result matches Err(exception) && exception@ == described::<X>(
                    ErrorClass::Runtime,
                    text@,
                )
            },
        },
        (match result {
            Ok(result) => Ok(*result.inner),
            Err(exception) => Err(exception@),
        }) == request_outcome::<R, X>(
            match answer {
                Ok(rows) => Ok(rows),
                Err(text) => Err(text@),
            },
        ),
{
    match answer {
        Ok(rows) => Ok(RequestResult { inner: Arc::new(rows) }),
        Err(text) => Err(Exception::new(ErrorClass::Runtime, text)),
    }
}

/// A prepared statement, as Python code sees it.
#[derive(Debug)]
pub struct PreparedStatement<P> {
    /// The prepared statement of the CQL driver.
    pub inner: P,
}

/// How to prepare a statement.
pub enum PrepareStep<P> {
    /// There is nothing to do.
    Done(PreparedStatement<P>),
    /// Ask the database to prepare it, and hand the answer to [`scylla_prepare`].
    Prepare(Statement),
}

/// How to prepare a statement.
pub open spec fn preparation<P>(statement: ExecutableStatement<P>) -> PrepareStep<P> {
    match statement {
        ExecutableStatement::Prepared(inner) => PrepareStep::Done(PreparedStatement { inner }),
        ExecutableStatement::Unprepared(statement) => PrepareStep::Prepare(statement),
    }
}

/// How to prepare a statement: one that has been prepared is handed back as it is.
pub fn prepare<P>(statement: ExecutableStatement<P>) -> (step: PrepareStep<P>)
    ensures
        step == match statement {
            ExecutableStatement::Prepared(inner) => PrepareStep::Done(PreparedStatement { inner }),
            ExecutableStatement::Unprepared(statement) => PrepareStep::Prepare(statement),
        },
        step == preparation(statement),
{
    match statement {
        ExecutableStatement::Unprepared(statement) => PrepareStep::Prepare(statement),
        ExecutableStatement::Prepared(inner) => PrepareStep::Done(PreparedStatement { inner }),
    }
}

/// What preparing a statement comes to: the prepared statement, or an exception that says why it
/// failed.
pub open spec fn prepared_outcome<P, X>(answer: Result<P, Seq<char>>) -> Result<
    PreparedStatement<P>,
    ExceptionView<X>,
> {
    match answer {
        Ok(inner) => Ok(PreparedStatement { inner }),
        Err(text) => Err(
            described(ErrorClass::Runtime, "Failed to prepare statement: "@ + text),
        ),
    }
}

/// What preparing a statement comes to, given the answer of the database or the text of the error.
pub fn scylla_prepare<P, X>(answer: Result<P, String>) -> (result: Result<
    PreparedStatement<P>,
    Exception<X>,
>)
    ensures
        match answer {
            Ok(prepared) => result matches Ok(result) && result.inner == prepared,
            Err(text) => {
                result matches Err(exception) && exception@ == described::<X>(
                    ErrorClass::Runtime,
                    "Failed to prepare statement: "@ + text@,
                )
            },
        },
        (match result {
            Ok(result) => Ok(result),
            Err(exception) => Err(exception@),
        }) == prepared_outcome::<P, X>(
            match answer {
                Ok(prepared) => Ok(prepared),
                Err(text) => Err(text@),
            },
        ),
{
    match answer {
        Ok(inner) => Ok(PreparedStatement { inner }),
        Err(text) => {
            let message = "Failed to prepare statement: ".to_string().concat(text.as_str());
            Err(Exception::new(ErrorClass::Runtime, message))
        },
    }
}

} // verus!
