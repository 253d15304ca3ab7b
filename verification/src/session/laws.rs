//! What becomes of a request, from the Python object to the answer.

use super::{execution, extracted_request, invalid_request_message, preparation};
use super::{prepared_outcome, request_outcome, statement_of};
use super::{ExecutableStatement, ExecuteCall, PrepareStep, PreparedStatement, RequestObject};
use crate::exception::{ErrorClass, Exception, ExceptionView};
use scylla::statement::unprepared::Statement;
use std::sync::Arc;
use vstd::prelude::*;

verus! {

/// A prepared statement is run as one, with the values that it was given, and is not prepared again.
pub proof fn law_prepared_statement_is_run_as_it_is<P, V, X>(prepared: P, values: V)
    ensures
        ({
            let request = RequestObject::<P, X>::PreparedStatement(prepared);
            let statement = ExecutableStatement::Prepared(prepared);
            &&& extracted_request(request) == Ok::<ExecutableStatement<P>, ExceptionView<X>>(
                statement,
            )
            &&& execution(statement, values) == (ExecuteCall::<P, V>::ExecuteUnpaged {
                statement: prepared,
                values,
            })
            &&& preparation(statement) == PrepareStep::<P>::Done(
                PreparedStatement { inner: prepared },
            )
        }),
{
}

/// A statement that has not been prepared is sent as it is, with the values that it was given, and it
/// is this very statement that is prepared.
pub proof fn law_unprepared_statement_is_sent_as_it_is<P, V, X>(unprepared: Statement, values: V)
    ensures
        ({
            let request = RequestObject::<P, X>::Statement(unprepared);
            let statement = ExecutableStatement::<P>::Unprepared(unprepared);
            &&& extracted_request(request) == Ok::<ExecutableStatement<P>, ExceptionView<X>>(
                statement,
            )
            &&& execution(statement, values) == (ExecuteCall::<P, V>::QueryUnpaged {
                statement: unprepared,
                values,
            })
            &&& preparation(statement) == PrepareStep::<P>::Prepare(unprepared)
        }),
{
}

/// A text is taken for the statement with that text, whatever the text is, and only a text that cannot
/// be read is refused, with what reading it raised.
pub proof fn law_text_is_a_statement<P, X>(text: String, raised: Arc<Exception<X>>)
    ensures
        extracted_request(RequestObject::<P, X>::Text(Ok(text))) == Ok::<
            ExecutableStatement<P>,
            ExceptionView<X>,
        >(ExecutableStatement::Unprepared(statement_of(text@))),
        extracted_request(RequestObject::<P, X>::Text(Err(raised))) == Err::<
            ExecutableStatement<P>,
            ExceptionView<X>,
        >(raised@),
{
}

/// Any other object is refused with a `TypeError` that names its type, or with what asking for that
/// raised.
pub proof fn law_other_objects_are_no_statements<P, X>(name: String, raised: Arc<Exception<X>>)
    ensures
        invalid_request_message(name@)
            == "Invalid request type: expected str | Statement | PreparedStatement, got "@ + name@,
        extracted_request(RequestObject::<P, X>::Other { py_type: Ok(name) }) == Err::<
            ExecutableStatement<P>,
            ExceptionView<X>,
        >(
            ExceptionView {
                class: ErrorClass::Type,
                message: Some(
                    "Invalid request type: expected str | Statement | PreparedStatement, got "@
                        + name@,
                ),
                object: None,
            },
        ),
        extracted_request(RequestObject::<P, X>::Other { py_type: Err(raised) }) == Err::<
            ExecutableStatement<P>,
            ExceptionView<X>,
        >(raised@),
{
}

/// The answer of the database is handed on, and an error is raised as a `RuntimeError`: with its text
/// if a statement was run, and with what failed in front of it if one was prepared.
pub proof fn law_answers_are_handed_on<R, P, X>(rows: R, prepared: P, text: Seq<char>)
    ensures
        request_outcome::<R, X>(Ok(rows)) == Ok::<R, ExceptionView<X>>(rows),
        request_outcome::<R, X>(Err(text)) == Err::<R, ExceptionView<X>>(
            ExceptionView { class: ErrorClass::Runtime, message: Some(text), object: None },
        ),
        prepared_outcome::<P, X>(Ok(prepared)) == Ok::<PreparedStatement<P>, ExceptionView<X>>(
            PreparedStatement { inner: prepared },
        ),
        prepared_outcome::<P, X>(Err(text)) == Err::<PreparedStatement<P>, ExceptionView<X>>(
            ExceptionView {
                class: ErrorClass::Runtime,
                message: Some("Failed to prepare statement: "@ + text),
                object: None,
            },
        ),
{
}

} // verus!
