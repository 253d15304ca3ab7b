//! The values of a statement: which Python objects hold them, and how they are paired up with the
//! columns that they are bound to.
//!
//! A row is written one cell at a time, and each cell takes two answers from outside: the value
//! for the column, which comes out of a Python object, and whether that value could be written as
//! what the column wants. So a row is a chain of steps. Each step says what to find out next, and
//! hands out what to report the answer to; the last one says how it went.

use crate::exception::described;
use crate::exception::{ErrorClass, Exception, ExceptionView};
use scylla::serialize::row::{BuiltinTypeCheckError, BuiltinTypeCheckErrorKind};
use scylla::serialize::SerializationError;
use std::sync::Arc;
use vstd::prelude::*;

pub mod laws;

verus! {

/// The Python containers that values come in.
#[derive(Clone, Copy, Debug, PartialEq, Eq, Structural)]
pub enum Container {
    /// `list`: the values in the order of the columns.
    List,
    /// `tuple`: the values in the order of the columns.
    Tuple,
    /// `dict`: the values under the names of the columns.
    Dict,
}

/// A Python object that is passed where values are expected.
#[derive(Debug)]
pub enum RowObject<X> {
    /// A container, with its length unless asking for that raised an exception.
    Container { container: Container, len: Option<usize> },
    /// `None`: no values.
    Nothing,
    /// Any other object, with the name of its type, or what asking for that raised.
    Other { py_type: Result<String, Arc<Exception<X>>> },
}

/// What a Python object that holds values turned out to be.
#[derive(Clone, Copy, Debug, PartialEq, Eq, Structural)]
pub enum RowKind {
    /// A container.
    Container(Container),
    /// `None`.
    Nothing,
    /// Something else.
    Other,
}

/// What an object is, given what it is an instance of. The first that applies counts.
pub open spec fn first_kind(is_list: bool, is_tuple: bool, is_dict: bool, is_none: bool) -> RowKind {
    if is_list {
        RowKind::Container(Container::List)
    } else if is_tuple {
        RowKind::Container(Container::Tuple)
    } else if is_dict {
        RowKind::Container(Container::Dict)
    } else if is_none {
        RowKind::Nothing
    } else {
        RowKind::Other
    }
}

/// What an object is, given what it is an instance of. The first that applies counts.
pub fn row_kind(is_list: bool, is_tuple: bool, is_dict: bool, is_none: bool) -> (kind: RowKind)
    ensures
        kind == if is_list {
            RowKind::Container(Container::List)
        } else if is_tuple {
            RowKind::Container(Container::Tuple)
        } else if is_dict {
            RowKind::Container(Container::Dict)
        } else if is_none {
            RowKind::Nothing
        } else {
            RowKind::Other
        },
        kind == first_kind(is_list, is_tuple, is_dict, is_none),
{
    if is_list {
        RowKind::Container(Container::List)
    } else if is_tuple {
        RowKind::Container(Container::Tuple)
    } else if is_dict {
        RowKind::Container(Container::Dict)
    } else if is_none {
        RowKind::Nothing
    } else {
        RowKind::Other
    }
}

/// The kind of an object that is passed where values are expected.
pub open spec fn kind_of<X>(row: RowObject<X>) -> RowKind {
    match row {
        RowObject::Container { container, .. } => RowKind::Container(container),
        RowObject::Nothing => RowKind::Nothing,
        RowObject::Other { .. } => RowKind::Other,
    }
}

impl<X> RowObject<X> {
    /// The kind of the object.
    pub fn kind(&self) -> (kind: RowKind)
        ensures
            kind == kind_of(*self),
    {
        match self {
            RowObject::Container { container, .. } => RowKind::Container(*container),
            RowObject::Nothing => RowKind::Nothing,
            RowObject::Other { .. } => RowKind::Other,
        }
    }
}

/// The values of a statement, in a Python object of type `O`.
#[derive(Debug)]
pub struct PyAnyWrapperValueList<O> {
    /// The object that holds them.
    pub inner: O,
    /// Whether there are none.
    pub is_empty: bool,
}

/// Whether a row has no values.
pub open spec fn has_no_values(is_none: bool, len: Option<usize>) -> bool {
    is_none || len == Some(0usize)
}

/// Whether a row has no values: it is `None`, or it has a length and that is zero.
pub fn is_empty_row(is_none: bool, len: Option<usize>) -> (empty: bool)
    ensures
        empty == (is_none || len == Some(0usize)),
        empty == has_no_values(is_none, len),
{
    if is_none {
        return true;
    }
    match len {
        Some(len) => len == 0,
        None => false,
    }
}

/// The message for an object that values do not come in.
pub open spec fn invalid_row_message(py_type: Seq<char>) -> Seq<char> {
    "Invalid row type: got "@ + py_type + ", expected Python tuple, list or dict"@
}

/// The message for an object that turned out not to hold values.
pub open spec fn unsupported_row_message() -> Seq<char> {
    "expected Python tuple, list or dict"@
}

/// What becomes of `val` where values are expected: one of the containers, and `None`, are accepted,
/// and anything else is refused by the name of its type.
pub open spec fn extracted<O, X>(val: O, row: RowObject<X>) -> Result<
    PyAnyWrapperValueList<O>,
    ExceptionView<X>,
> {
    match row {
        RowObject::Container { len, .. } => Ok(
            PyAnyWrapperValueList { inner: val, is_empty: len == Some(0usize) },
        ),
        RowObject::Nothing => Ok(PyAnyWrapperValueList { inner: val, is_empty: true }),
        RowObject::Other { py_type: Ok(name) } => Err(
            described(ErrorClass::Type, invalid_row_message(name@)),
        ),
        RowObject::Other { py_type: Err(raised) } => Err(raised@),
    }
}

impl<O> PyAnyWrapperValueList<O> {
    /// No values: `none` is the Python object `None`.
    pub fn default(none: O) -> (values: Self)
        ensures
            values == (PyAnyWrapperValueList { inner: none, is_empty: true }),
    {
        PyAnyWrapperValueList { inner: none, is_empty: true }
    }

    /// Accepts `val` for a list of values, if it is one of the containers or `None`.
    pub fn extract<X>(val: O, row: RowObject<X>) -> (values: Result<Self, Arc<Exception<X>>>)
        ensures
            (match values {
                Ok(values) => Ok(values),
                Err(exception) => Err(exception@),
            }) == extracted(val, row),
    {
        match row {
            RowObject::Container { container: _, len } => {
                let is_empty = is_empty_row(false, len);
                Ok(PyAnyWrapperValueList { inner: val, is_empty })
            },
            RowObject::Nothing => {
                let is_empty = is_empty_row(true, None);
                Ok(PyAnyWrapperValueList { inner: val, is_empty })
            },
            RowObject::Other { py_type: Ok(name) } => {
                let message = "Invalid row type: got ".to_string().concat(name.as_str()).concat(
                    ", expected Python tuple, list or dict",
                );
                Err(Arc::new(Exception::new(ErrorClass::Type, message)))
            },
            RowObject::Other { py_type: Err(raised) } => Err(raised),
        }
    }

    /// Whether there are no values.
    pub fn is_empty(&self) -> (empty: bool)
        ensures
            empty == self.is_empty,
    {
        self.is_empty
    }
}

/// Why the values do not fit the columns.
#[derive(Debug)]
pub enum TypeCheckErrorKind {
    /// There are not as many values as columns.
    WrongColumnCount { rust_cols: usize, cql_cols: usize },
    /// There is no value under the name of a column.
    ValueMissingForColumn { name: String },
}

/// What a [`TypeCheckErrorKind`] stands for.
#[verifier::ext_equal]
pub enum TypeCheckErrorKindView {
    WrongColumnCount { rust_cols: nat, cql_cols: nat },
    ValueMissingForColumn { name: Seq<char> },
}

impl View for TypeCheckErrorKind {
    type V = TypeCheckErrorKindView;

    open spec fn view(&self) -> TypeCheckErrorKindView {
        match self {
            TypeCheckErrorKind::WrongColumnCount {
                rust_cols,
                cql_cols,
            } => TypeCheckErrorKindView::WrongColumnCount {
                rust_cols: *rust_cols as nat,
                cql_cols: *cql_cols as nat,
            },
            TypeCheckErrorKind::ValueMissingForColumn {
                name,
            } => TypeCheckErrorKindView::ValueMissingForColumn { name: name@ },
        }
    }
}

/// An error of the CQL driver's serialization.
#[verifier::external_type_specification]
#[verifier::external_body]
pub struct ExSerializationError(scylla::serialize::SerializationError);

/// What `SerializationError::new` makes of a `BuiltinTypeCheckError`, which is made up of the name
/// of the type that holds the values and of what is wrong with them.
pub uninterp spec fn type_check_error(
    rust_name: Seq<char>,
    kind: TypeCheckErrorKindView,
) -> SerializationError;

/// `SerializationError::new` of the `scylla` crate, on a `BuiltinTypeCheckError`.
///
/// Taken on trust: the error depends on the name and the kind alone. Nothing is said of what it
/// shows of them.
#[verifier::external_body]
fn new_type_check_error(rust_name: &'static str, kind: TypeCheckErrorKind) -> (error:
    SerializationError)
    ensures
        error == type_check_error(rust_name@, kind@),
{
    let kind = match kind {
        TypeCheckErrorKind::WrongColumnCount { rust_cols, cql_cols } => {
            BuiltinTypeCheckErrorKind::WrongColumnCount { rust_cols, cql_cols }
        },
        TypeCheckErrorKind::ValueMissingForColumn { name } => {
            BuiltinTypeCheckErrorKind::ValueMissingForColumn { name }
        },
    };
    SerializationError::new(BuiltinTypeCheckError { rust_name, kind })
}

/// The error that the CQL driver is given for values that do not fit the columns. `rust_name` is
/// the name of the type that holds them.
pub fn mk_typck_err_val_list(rust_name: &'static str, kind: TypeCheckErrorKind) -> (error:
    SerializationError)
    ensures
        error == type_check_error(rust_name@, kind@),
{
    new_type_check_error(rust_name, kind)
}

/// What `SerializationError::new` makes of an error that is a `SerializationError` already: one that
/// holds it.
pub uninterp spec fn nested_error(error: SerializationError) -> SerializationError;

/// `SerializationError::new` of the `scylla` crate, on a `SerializationError`.
///
/// Taken on trust: the error depends on the one that it is made from alone. Nothing is said of what
/// it shows of that.
#[verifier::external_body]
fn nest_error(error: SerializationError) -> (nested: SerializationError)
    ensures
        nested == nested_error(error),
{
    SerializationError::new(error)
}

/// The name of the type that stands for a container.
pub open spec fn container_name(
    container: Container,
    list: Seq<char>,
    tuple: Seq<char>,
    dict: Seq<char>,
) -> Seq<char> {
    match container {
        Container::List => list,
        Container::Tuple => tuple,
        Container::Dict => dict,
    }
}

/// The error that the CQL driver is given for values in `container` that do not fit the columns, in
/// the form in which a row reports it: inside of another one. `list`, `tuple` and `dict` are the names of the types that stand for the containers.
pub fn type_check_failure(
    container: Container,
    kind: TypeCheckErrorKind,
    list: &'static str,
    tuple: &'static str,
    dict: &'static str,
) -> (error: SerializationError)
    ensures
        error == nested_error(
            type_check_error(
                match container {
                    Container::List => list@,
                    Container::Tuple => tuple@,
                    Container::Dict => dict@,
                },
                kind@,
            ),
        ),
        error == nested_error(
            type_check_error(container_name(container, list@, tuple@, dict@), kind@),
        ),
{
    let rust_name = match container {
        Container::List => list,
        Container::Tuple => tuple,
        Container::Dict => dict,
    };
    nest_error(mk_typck_err_val_list(rust_name, kind))
}

/// Why a row could not be written. `S` is the type of errors of writing a single value.
#[derive(Debug)]
pub enum RowError<X, S> {
    /// The values do not fit the columns.
    TypeCheck { container: Container, kind: TypeCheckErrorKind },
    /// Python code raised an exception.
    Python(Arc<Exception<X>>),
    /// The object holds no values.
    Unsupported(Exception<X>),
    /// A value could not be written.
    Value(S),
}

/// What a [`RowError`] stands for.
#[verifier::ext_equal]
pub enum RowErrorView<X, S> {
    TypeCheck { container: Container, kind: TypeCheckErrorKindView },
    Python(ExceptionView<X>),
    Unsupported(ExceptionView<X>),
    Value(S),
}

impl<X, S> View for RowError<X, S> {
    type V = RowErrorView<X, S>;

    open spec fn view(&self) -> RowErrorView<X, S> {
        match self {
            RowError::TypeCheck { container, kind } => RowErrorView::TypeCheck {
                container: *container,
                kind: kind@,
            },
            RowError::Python(exception) => RowErrorView::Python(exception@),
            RowError::Unsupported(exception) => RowErrorView::Unsupported(exception@),
            RowError::Value(error) => RowErrorView::Value(*error),
        }
    }
}

/// How writing a row went.
pub type RowResult<X, S> = Result<(), RowError<X, S>>;

/// What a [`RowResult`] stands for.
pub type RowResultView<X, S> = Result<(), RowErrorView<X, S>>;

/// The view of a [`RowResult`].
pub open spec fn row_result_view<X, S>(result: RowResult<X, S>) -> RowResultView<X, S> {
    match result {
        Ok(()) => Ok(()),
        Err(error) => Err(error@),
    }
}

/// Whether there are as many values as columns.
pub fn length_equality_check<X, S>(
    container: Container,
    val_list_len: usize,
    cols_len: usize,
) -> (result: RowResult<X, S>)
    ensures
        row_result_view(result) == if val_list_len == cols_len {
            Ok(())
        } else {
            Err(
                RowErrorView::<X, S>::TypeCheck {
                    container,
                    kind: TypeCheckErrorKindView::WrongColumnCount {
                        rust_cols: val_list_len as nat,
                        cql_cols: cols_len as nat,
                    },
                },
            )
        },
{
    if val_list_len != cols_len {
        return Err(
            RowError::TypeCheck {
                container,
                kind: TypeCheckErrorKind::WrongColumnCount {
                    rust_cols: val_list_len,
                    cql_cols: cols_len,
                },
            },
        );
    }
    Ok(())
}

/// The views of the names of columns.
pub open spec fn names_view(names: Seq<String>) -> Seq<Seq<char>> {
    names.map_values(|name: String| name@)
}

/// A row of which no cell has been looked at.
#[derive(Debug)]
pub struct RowStart {
    container: Container,
    columns: Vec<String>,
}

/// What a [`RowStart`] stands for.
#[verifier::ext_equal]
pub struct RowStartView {
    pub container: Container,
    pub columns: Seq<Seq<char>>,
}

impl View for RowStart {
    type V = RowStartView;

    closed spec fn view(&self) -> RowStartView {
        RowStartView { container: self.container, columns: names_view(self.columns@) }
    }
}

/// A cell of a row whose earlier cells have all been written.
#[derive(Debug)]
pub struct RowCell {
    container: Container,
    columns: Vec<String>,
    next: usize,
}

/// What a [`RowCell`] stands for.
#[verifier::ext_equal]
pub struct RowCellView {
    pub container: Container,
    pub columns: Seq<Seq<char>>,
    pub next: nat,
}

impl RowCell {
    /// There is a column for the cell.
    #[verifier::type_invariant]
    spec fn has_column(self) -> bool {
        self.next < self.columns@.len()
    }
}

impl View for RowCell {
    type V = RowCellView;

    closed spec fn view(&self) -> RowCellView {
        RowCellView {
            container: self.container,
            columns: names_view(self.columns@),
            next: self.next as nat,
        }
    }
}

/// What to find out next in order to write a row.
#[derive(Debug)]
pub enum RowStep<O, X, S> {
    /// The length of the container: report it with [`RowStart::measured`].
    Measure(RowStart),
    /// Whether the container can be iterated over: report it with [`RowStart::opened`].
    Open(RowStart),
    /// The next item of the iteration: report it with [`RowCell::fetched`].
    Fetch(RowCell),
    /// The item under this name: report it with [`RowCell::looked_up`].
    LookUp { cell: RowCell, name: String },
    /// Whether `value` can be written into the next cell, as the type of the column with this
    /// number has it: report it with [`RowCell::written`].
    Write { cell: RowCell, column: usize, value: O },
    /// Nothing: this is how it went.
    Done(RowResult<X, S>),
}

/// What a [`RowStep`] stands for.
#[verifier::ext_equal]
pub enum RowStepView<O, X, S> {
    Measure(RowStartView),
    Open(RowStartView),
    Fetch(RowCellView),
    LookUp { cell: RowCellView, name: Seq<char> },
    Write { cell: RowCellView, column: nat, value: O },
    Done(RowResultView<X, S>),
}

impl<O, X, S> View for RowStep<O, X, S> {
    type V = RowStepView<O, X, S>;

    open spec fn view(&self) -> RowStepView<O, X, S> {
        match self {
            RowStep::Measure(row) => RowStepView::Measure(row@),
            RowStep::Open(row) => RowStepView::Open(row@),
            RowStep::Fetch(cell) => RowStepView::Fetch(cell@),
            RowStep::LookUp { cell, name } => RowStepView::LookUp { cell: cell@, name: name@ },
            RowStep::Write { cell, column, value } => RowStepView::Write {
                cell: cell@,
                column: *column as nat,
                value: *value,
            },
            RowStep::Done(result) => RowStepView::Done(row_result_view(*result)),
        }
    }
}

/// How a row begins: a container is measured, `None` is a row without cells, and nothing else is
/// a row.
pub open spec fn row_begun<O, X, S>(kind: RowKind, columns: Seq<Seq<char>>) -> RowStepView<
    O,
    X,
    S,
> {
    match kind {
        RowKind::Container(container) => RowStepView::Measure(RowStartView { container, columns }),
        RowKind::Nothing => RowStepView::Done(Ok(())),
        RowKind::Other => RowStepView::Done(
            Err(
                RowErrorView::Unsupported(described(ErrorClass::Type, unsupported_row_message())),
            ),
        ),
    }
}

/// How the cell for column `next` begins, if there is such a column: its value is the next item of
/// a sequence, or what a `dict` has under its name.
pub open spec fn cell_begun<O, X, S>(
    container: Container,
    columns: Seq<Seq<char>>,
    next: nat,
) -> RowStepView<O, X, S> {
    let cell = RowCellView { container, columns, next };
    if next >= columns.len() {
        RowStepView::Done(Ok(()))
    } else if container == Container::Dict {
        RowStepView::LookUp { cell, name: columns[next as int] }
    } else {
        RowStepView::Fetch(cell)
    }
}

/// A container has been measured: as many values as columns are wanted.
pub open spec fn row_measured<O, X, S>(
    row: RowStartView,
    len: Result<nat, ExceptionView<X>>,
) -> RowStepView<O, X, S> {
    match len {
        Err(raised) => RowStepView::Done(Err(RowErrorView::Python(raised))),
        Ok(len) => if len != row.columns.len() {
            RowStepView::Done(
                Err(
                    RowErrorView::TypeCheck {
                        container: row.container,
                        kind: TypeCheckErrorKindView::WrongColumnCount {
                            rust_cols: len,
                            cql_cols: row.columns.len(),
                        },
                    },
                ),
            )
        } else if row.container == Container::Dict {
            cell_begun(row.container, row.columns, 0)
        } else {
            RowStepView::Open(row)
        },
    }
}

/// The iteration over a container has begun, or could not.
pub open spec fn row_opened<O, X, S>(
    row: RowStartView,
    opened: Result<(), ExceptionView<X>>,
) -> RowStepView<O, X, S> {
    match opened {
        Err(raised) => RowStepView::Done(Err(RowErrorView::Python(raised))),
        Ok(()) => cell_begun(row.container, row.columns, 0),
    }
}

/// The iteration has come to the next item, has raised an exception, or is over; in the last case
/// so is the row, and the columns that are left get no cell.
pub open spec fn cell_fetched<O, X, S>(
    cell: RowCellView,
    item: Option<Result<O, ExceptionView<X>>>,
) -> RowStepView<O, X, S> {
    match item {
        None => RowStepView::Done(Ok(())),
        Some(Err(raised)) => RowStepView::Done(Err(RowErrorView::Python(raised))),
        Some(Ok(value)) => RowStepView::Write { cell, column: cell.next, value },
    }
}

/// The `dict` has an item under the name of the column, has none, or has raised an exception.
pub open spec fn cell_looked_up<O, X, S>(
    cell: RowCellView,
    item: Result<Option<O>, ExceptionView<X>>,
) -> RowStepView<O, X, S> {
    match item {
        Err(raised) => RowStepView::Done(Err(RowErrorView::Python(raised))),
        Ok(None) => RowStepView::Done(
            Err(
                RowErrorView::TypeCheck {
                    container: cell.container,
                    kind: TypeCheckErrorKindView::ValueMissingForColumn {
                        name: cell.columns[cell.next as int],
                    },
                },
            ),
        ),
        Ok(Some(value)) => RowStepView::Write { cell, column: cell.next, value },
    }
}

/// The cell has been written, and the next one begins; or it could not be.
pub open spec fn cell_written<O, X, S>(cell: RowCellView, written: Result<(), S>) -> RowStepView<
    O,
    X,
    S,
> {
    match written {
        Err(error) => RowStepView::Done(Err(RowErrorView::Value(error))),
        Ok(()) => cell_begun(cell.container, cell.columns, cell.next + 1),
    }
}

/// Begins to write a row for the columns with the given names.
pub fn serialize<O, X, S>(kind: RowKind, columns: Vec<String>) -> (step: RowStep<O, X, S>)
    ensures
        step@ == row_begun::<O, X, S>(kind, names_view(columns@)),
{
    match kind {
        RowKind::Container(container) => RowStep::Measure(RowStart { container, columns }),
        RowKind::Nothing => RowStep::Done(Ok(())),
        RowKind::Other => RowStep::Done(
            Err(
                RowError::Unsupported(
                    Exception::new(
                        ErrorClass::Type,
                        "expected Python tuple, list or dict".to_string(),
                    ),
                ),
            ),
        ),
    }
}

/// Begins the cell for column `next`, or ends the row if that was the last.
fn begin_cell<O, X, S>(container: Container, columns: Vec<String>, next: usize) -> (step: RowStep<
    O,
    X,
    S,
>)
    ensures
        step@ == cell_begun::<O, X, S>(container, names_view(columns@), next as nat),
{
    if next >= columns.len() {
        return RowStep::Done(Ok(()));
    }
    match container {
        Container::Dict => {
            let name = columns[next].clone();
            RowStep::LookUp { cell: RowCell { container, columns, next }, name }
        },
        _ => RowStep::Fetch(RowCell { container, columns, next }),
    }
}

impl RowStart {
    /// The length of the container, or what asking for it raised.
    pub fn measured<O, X, S>(self, len: Result<usize, Arc<Exception<X>>>) -> (step: RowStep<O, X, S>)
        ensures
            step@ == row_measured::<O, X, S>(
                self@,
                match len {
                    Ok(len) => Ok(len as nat),
                    Err(raised) => Err(raised@),
                },
            ),
    {
        let len: usize = match len {
            Ok(len) => len,
            Err(raised) => {
                return RowStep::Done(Err(RowError::Python(raised)));
            },
        };
        match length_equality_check(self.container, len, self.columns.len()) {
            Err(error) => RowStep::Done(Err(error)),
            Ok(()) => match self.container {
                Container::Dict => begin_cell(self.container, self.columns, 0),
                _ => RowStep::Open(self),
            },
        }
    }

    /// Whether the iteration over the container has begun, or what that raised.
    pub fn opened<O, X, S>(self, opened: Result<(), Arc<Exception<X>>>) -> (step: RowStep<O, X, S>)
        ensures
            step@ == row_opened::<O, X, S>(
                self@,
                match opened {
                    Ok(()) => Ok(()),
                    Err(raised) => Err(raised@),
                },
            ),
    {
        match opened {
            Ok(()) => begin_cell(self.container, self.columns, 0),
            Err(raised) => RowStep::Done(Err(RowError::Python(raised))),
        }
    }
}

impl RowCell {
    /// The next item of the iteration, if it is not over, or what asking for it raised.
    pub fn fetched<O, X, S>(self, item: Option<Result<O, Arc<Exception<X>>>>) -> (step: RowStep<
        O,
        X,
        S,
    >)
        ensures
            step@ == cell_fetched::<O, X, S>(
                self@,
                match item {
                    None => None,
                    Some(Ok(value)) => Some(Ok(value)),
                    Some(Err(raised)) => Some(Err(raised@)),
                },
            ),
    {
        match item {
            None => RowStep::Done(Ok(())),
            Some(Err(raised)) => RowStep::Done(Err(RowError::Python(raised))),
            Some(Ok(value)) => {
                let column: usize = self.next;
                RowStep::Write { cell: self, column, value }
            },
        }
    }

    /// The item under the name of the column, if there is one, or what looking for it raised.
    pub fn looked_up<O, X, S>(self, item: Result<Option<O>, Arc<Exception<X>>>) -> (step: RowStep<
        O,
        X,
        S,
    >)
        ensures
            step@ == cell_looked_up::<O, X, S>(
                self@,
                match item {
                    Ok(item) => Ok(item),
                    Err(raised) => Err(raised@),
                },
            ),
    {
        proof {
            use_type_invariant(&self);
        }
        match item {
            Err(raised) => RowStep::Done(Err(RowError::Python(raised))),
            Ok(None) => {
                let name = self.columns[self.next].clone();
                RowStep::Done(
                    Err(
                        RowError::TypeCheck {
                            container: self.container,
                            kind: TypeCheckErrorKind::ValueMissingForColumn { name },
                        },
                    ),
                )
            },
            Ok(Some(value)) => {
                let column: usize = self.next;
                RowStep::Write { cell: self, column, value }
            },
        }
    }

    /// Whether the value could be written into the cell.
    pub fn written<O, X, S>(self, written: Result<(), S>) -> (step: RowStep<O, X, S>)
        ensures
            step@ == cell_written::<O, X, S>(self@, written),
    {
        proof {
            use_type_invariant(&self);
            assert(self.next < self.columns.len());
        }
        match written {
            Err(error) => RowStep::Done(Err(RowError::Value(error))),
            Ok(()) => begin_cell(self.container, self.columns, self.next + 1),
        }
    }
}

} // verus!
