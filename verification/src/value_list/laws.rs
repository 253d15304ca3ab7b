//! What holds of a row as a whole.

use super::{cell_begun, cell_fetched, cell_looked_up, cell_written, row_begun, row_measured};
use super::{container_name, extracted, first_kind, has_no_values, kind_of, names_view};
use super::{invalid_row_message, row_opened, row_result_view, unsupported_row_message};
use super::{Container, PyAnyWrapperValueList, RowError, RowErrorView, RowKind, RowObject};
use super::{RowResult, RowResultView, RowStep, RowStepView};
use super::{TypeCheckErrorKind, TypeCheckErrorKindView};
use crate::exception::{ErrorClass, Exception, ExceptionView};
use std::sync::Arc;
use vstd::prelude::*;

verus! {

/// All that comes from outside in the course of writing a row.
#[verifier::reject_recursive_types(O)]
pub struct Answers<O, X, S> {
    /// The length of the container.
    pub len: Result<nat, ExceptionView<X>>,
    /// Whether it can be iterated over.
    pub opened: Result<(), ExceptionView<X>>,
    /// The items that an iteration comes to, by their number.
    pub items: spec_fn(nat) -> Option<Result<O, ExceptionView<X>>>,
    /// What is found under the name of a column.
    pub lookups: spec_fn(Seq<char>) -> Result<Option<O>, ExceptionView<X>>,
    /// Whether a value can be written into the cell of a column, by its number.
    pub writes: spec_fn(nat, O) -> Result<(), S>,
}

/// A row that came to its end: the cells that were handed out to be written, each with the number
/// of its column and its value, and how it went.
#[verifier::ext_equal]
pub struct Written<O, X, S> {
    pub cells: Seq<(nat, O)>,
    pub result: RowResultView<X, S>,
}

/// The step after `step`, once it has got its answer.
pub open spec fn answered<O, X, S>(
    step: RowStepView<O, X, S>,
    answers: Answers<O, X, S>,
) -> RowStepView<O, X, S> {
    match step {
        RowStepView::Measure(row) => row_measured(row, answers.len),
        RowStepView::Open(row) => row_opened(row, answers.opened),
        RowStepView::Fetch(cell) => cell_fetched(cell, (answers.items)(cell.next)),
        RowStepView::LookUp { cell, name } => cell_looked_up(cell, (answers.lookups)(name)),
        RowStepView::Write { cell, column, value } => cell_written(
            cell,
            (answers.writes)(column, value),
        ),
        RowStepView::Done(_) => step,
    }
}

/// How many steps are left at most.
pub open spec fn steps_left<O, X, S>(step: RowStepView<O, X, S>) -> int {
    match step {
        RowStepView::Measure(row) => (2 * row.columns.len() + 2) as int,
        RowStepView::Open(row) => (2 * row.columns.len() + 1) as int,
        RowStepView::Fetch(cell) => if cell.next < cell.columns.len() {
            2 * (cell.columns.len() - cell.next)
        } else {
            2
        },
        RowStepView::LookUp { cell, .. } => if cell.next < cell.columns.len() {
            2 * (cell.columns.len() - cell.next)
        } else {
            2
        },
        RowStepView::Write { cell, .. } => if cell.next < cell.columns.len() {
            2 * (cell.columns.len() - cell.next) - 1
        } else {
            1
        },
        RowStepView::Done(_) => 0,
    }
}

/// What becomes of a row that has got as far as `step`.
pub open spec fn completed<O, X, S>(
    step: RowStepView<O, X, S>,
    answers: Answers<O, X, S>,
) -> Written<O, X, S>
    decreases steps_left(step),
{
    match step {
        RowStepView::Done(result) => Written { cells: Seq::empty(), result },
        RowStepView::Write { column, value, .. } => {
            let rest = completed(answered(step, answers), answers);
            Written { cells: seq![(column, value)] + rest.cells, result: rest.result }
        },
        _ => completed(answered(step, answers), answers),
    }
}

/// What becomes of a row of the given kind.
pub open spec fn written<O, X, S>(
    kind: RowKind,
    columns: Seq<Seq<char>>,
    answers: Answers<O, X, S>,
) -> Written<O, X, S> {
    completed(row_begun(kind, columns), answers)
}

/// Whether `value` is what a container holds for a column.
pub open spec fn holds<O, X, S>(
    container: Container,
    columns: Seq<Seq<char>>,
    column: nat,
    value: O,
    answers: Answers<O, X, S>,
) -> bool {
    if container == Container::Dict {
        (answers.lookups)(columns[column as int]) == Ok::<Option<O>, ExceptionView<X>>(Some(value))
    } else {
        (answers.items)(column) == Some(Ok::<O, ExceptionView<X>>(value))
    }
}

/// Whether a list of cells is that of columns one after the other, beginning with `next`, each with
/// the value that the container holds for it, and each written but perhaps the last; and whether
/// the row is one that is supported.
spec fn in_order<O, X, S>(
    container: Container,
    columns: Seq<Seq<char>>,
    next: nat,
    answers: Answers<O, X, S>,
    row: Written<O, X, S>,
) -> bool {
    &&& next + row.cells.len() <= columns.len()
    &&& forall|i: int|
        0 <= i < row.cells.len() ==> {
            let (column, value) = #[trigger] row.cells[i];
            &&& column == next + i
            &&& holds(container, columns, column, value, answers)
            &&& (answers.writes)(column, value) is Ok || (i == row.cells.len() - 1
                && row.result is Err)
        }
    &&& row.result is Ok ==> next + row.cells.len() == columns.len() || (container
        != Container::Dict && (answers.items)((next + row.cells.len()) as nat) is None)
    &&& !(row.result matches Err(RowErrorView::Unsupported(_)))
}

proof fn lemma_cells_in_order<O, X, S>(
    container: Container,
    columns: Seq<Seq<char>>,
    next: nat,
    answers: Answers<O, X, S>,
)
    requires
        next <= columns.len(),
    ensures
        in_order(
            container,
            columns,
            next,
            answers,
            completed(cell_begun(container, columns, next), answers),
        ),
    decreases columns.len() - next,
{
    let begun = cell_begun::<O, X, S>(container, columns, next);
    let row = completed(begun, answers);
    if next < columns.len() {
        let found = answered(begun, answers);
        assert(row == completed(found, answers));
        if let RowStepView::Write { cell, column, value } = found {
            let after = answered(found, answers);
            let rest = completed(after, answers);
            assert(row.cells =~= seq![(column, value)] + rest.cells);
            assert(row.cells[0] == (column, value));
            if (answers.writes)(column, value) is Ok {
                lemma_cells_in_order(container, columns, next + 1, answers);
                assert forall|i: int| 0 <= i < row.cells.len() implies {
                    let (column, value) = #[trigger] row.cells[i];
                    &&& column == next + i
                    &&& holds(container, columns, column, value, answers)
                    &&& (answers.writes)(column, value) is Ok || (i == row.cells.len() - 1
                        && row.result is Err)
                } by {
                    if i > 0 {
                        assert(row.cells[i] == rest.cells[i - 1]);
                    }
                }
            }
        }
    }
}

/// The values of a row are bound to the columns in their order: the first cell is that of the first
/// column, and no column is left out between two cells. Each cell gets the value that the container
/// holds for its column, by its place in a sequence and by its name in a `dict`. Only the last cell
/// that is handed out may fail to be written, and if it does the row fails.
pub proof fn law_cells_follow_the_columns<O, X, S>(
    container: Container,
    columns: Seq<Seq<char>>,
    answers: Answers<O, X, S>,
    i: int,
)
    requires
        0 <= i < written(RowKind::Container(container), columns, answers).cells.len(),
    ensures
        ({
            let row = written(RowKind::Container(container), columns, answers);
            let (column, value) = row.cells[i];
            &&& column == i < columns.len()
            &&& holds(container, columns, column, value, answers)
            &&& (answers.writes)(column, value) is Ok || (i == row.cells.len() - 1
                && row.result is Err)
        }),
{
    lemma_cells_in_order(container, columns, 0, answers);
    lemma_row(container, columns, answers);
}

/// A row that goes well has a cell for every column; only an iteration that ends before the length
/// of its container was reached leaves the last columns out.
pub proof fn law_no_column_is_left_out<O, X, S>(
    container: Container,
    columns: Seq<Seq<char>>,
    answers: Answers<O, X, S>,
)
    requires
        written(RowKind::Container(container), columns, answers).result is Ok,
    ensures
        ({
            let cells = written(RowKind::Container(container), columns, answers).cells;
            ||| cells.len() == columns.len()
            ||| container != Container::Dict && (answers.items)(cells.len()) is None
        }),
{
    lemma_cells_in_order(container, columns, 0, answers);
    lemma_row(container, columns, answers);
}

/// What becomes of a row in a container: it fails before its first cell, or it is made of cells.
proof fn lemma_row<O, X, S>(
    container: Container,
    columns: Seq<Seq<char>>,
    answers: Answers<O, X, S>,
)
    ensures
        ({
            let row = written(RowKind::Container(container), columns, answers);
            ||| row.cells.len() == 0 && row.result is Err && !(row.result matches Err(
                RowErrorView::Unsupported(_),
            ))
            ||| row == completed(cell_begun(container, columns, 0), answers)
        }),
{
    let measure = row_begun::<O, X, S>(RowKind::Container(container), columns);
    let measured = answered(measure, answers);
    assert(completed(measure, answers) == completed(measured, answers));
    if measured is Open {
        assert(completed(measured, answers) == completed(answered(measured, answers), answers));
    }
}

/// A container with more or fewer values than there are columns is refused before any of them is
/// looked at.
pub proof fn law_wrong_count_is_refused<O, X, S>(
    container: Container,
    columns: Seq<Seq<char>>,
    answers: Answers<O, X, S>,
    len: nat,
)
    requires
        answers.len == Ok::<nat, ExceptionView<X>>(len),
        len != columns.len(),
    ensures
        written(RowKind::Container(container), columns, answers) == (Written::<O, X, S> {
            cells: Seq::empty(),
            result: Err(
                RowErrorView::<X, S>::TypeCheck {
                    container,
                    kind: TypeCheckErrorKindView::WrongColumnCount {
                        rust_cols: len,
                        cql_cols: columns.len(),
                    },
                },
            ),
        }),
{
    let measure = row_begun::<O, X, S>(RowKind::Container(container), columns);
    assert(completed(measure, answers) == completed(answered(measure, answers), answers));
}

/// `None` is a row without values: it goes well, and has no cells.
pub proof fn law_none_has_no_cells<O, X, S>(columns: Seq<Seq<char>>, answers: Answers<O, X, S>)
    ensures
        written(RowKind::Nothing, columns, answers) == (Written::<O, X, S> {
            cells: Seq::empty(),
            result: Ok(()),
        }),
{
}

/// What `extract` refuses is what a row is refused for, and nothing else: an object that was accepted
/// for values never turns out not to hold any, and one that was not has no cells.
pub proof fn law_what_is_accepted_is_supported<V, O, X, S>(
    val: V,
    row: RowObject<X>,
    columns: Seq<Seq<char>>,
    answers: Answers<O, X, S>,
)
    ensures
        extracted(val, row) is Err <==> written(kind_of(row), columns, answers).result matches Err(
            RowErrorView::Unsupported(_),
        ),
        extracted(val, row) is Err ==> written(kind_of(row), columns, answers) == (Written::<O, X, S> {
            cells: Seq::empty(),
            result: Err(
                RowErrorView::Unsupported(
                    ExceptionView {
                        class: ErrorClass::Type,
                        message: Some("expected Python tuple, list or dict"@),
                        object: None,
                    },
                ),
            ),
        }),
{
    if let RowObject::Container { container, .. } = row {
        lemma_cells_in_order(container, columns, 0, answers);
        lemma_row(container, columns, answers);
    }
}

/// Values that were said to be none when they were accepted make no cells, if the container has kept
/// its length.
pub proof fn law_empty_row_has_no_cells<V, O, X, S>(
    val: V,
    row: RowObject<X>,
    columns: Seq<Seq<char>>,
    answers: Answers<O, X, S>,
)
    requires
        extracted(val, row) matches Ok(values) && values.is_empty,
        row matches RowObject::Container { len: Some(len), .. } ==> answers.len == Ok::<
            nat,
            ExceptionView<X>,
        >(len as nat),
    ensures
        written(kind_of(row), columns, answers).cells.len() == 0,
{
    if let RowObject::Container { container, .. } = row {
        lemma_cells_in_order(container, columns, 0, answers);
        lemma_row(container, columns, answers);
        if columns.len() != 0 {
            law_wrong_count_is_refused(container, columns, answers, 0);
        }
    }
}

/// The cells of the first columns, with these values.
pub open spec fn numbered<O>(values: Seq<O>) -> Seq<(nat, O)> {
    Seq::new(values.len(), |i: int| (i as nat, values[i]))
}

/// Whether a container has as many values as there are columns, and can be iterated over if it is a
/// sequence.
pub open spec fn is_readable<O, X, S>(
    container: Container,
    columns: Seq<Seq<char>>,
    answers: Answers<O, X, S>,
) -> bool {
    &&& answers.len == Ok::<nat, ExceptionView<X>>(columns.len())
    &&& container == Container::Dict || answers.opened is Ok
}

/// Whether the container holds these values for the first columns, and all of them can be written.
pub open spec fn begins_with<O, X, S>(
    container: Container,
    columns: Seq<Seq<char>>,
    values: Seq<O>,
    answers: Answers<O, X, S>,
) -> bool {
    &&& values.len() <= columns.len()
    &&& forall|i: int|
        0 <= i < values.len() ==> holds(
            container,
            columns,
            i as nat,
            #[trigger] values[i],
            answers,
        ) && (answers.writes)(i as nat, values[i]) is Ok
}

/// Cells that can be written are, one after the other, beginning with `next`.
proof fn lemma_cells_written<O, X, S>(
    container: Container,
    columns: Seq<Seq<char>>,
    values: Seq<O>,
    next: nat,
    answers: Answers<O, X, S>,
)
    requires
        next <= values.len(),
        begins_with(container, columns, values, answers),
    ensures
        ({
            let rest = completed(cell_begun(container, columns, values.len()), answers);
            completed(cell_begun(container, columns, next), answers) == (Written::<O, X, S> {
                cells: numbered(values).skip(next as int) + rest.cells,
                result: rest.result,
            })
        }),
    decreases values.len() - next,
{
    let begun = cell_begun::<O, X, S>(container, columns, next);
    let row = completed(begun, answers);
    let rest = completed(cell_begun::<O, X, S>(container, columns, values.len()), answers);
    if next < values.len() {
        let value = values[next as int];
        assert(holds(container, columns, next, value, answers));
        let found = answered(begun, answers);
        assert(row == completed(found, answers));
        assert(found is Write);
        lemma_cells_written(container, columns, values, next + 1, answers);
        let after = completed(answered(found, answers), answers);
        assert(row.cells =~= seq![(next, value)] + after.cells);
        assert(row.cells =~= numbered(values).skip(next as int) + rest.cells);
    } else {
        assert(row.cells =~= numbered(values).skip(next as int) + rest.cells);
    }
}

/// A row whose first values can be written is made of their cells, and of what comes after them.
proof fn lemma_row_begins_with<O, X, S>(
    container: Container,
    columns: Seq<Seq<char>>,
    values: Seq<O>,
    answers: Answers<O, X, S>,
)
    requires
        is_readable(container, columns, answers),
        begins_with(container, columns, values, answers),
    ensures
        ({
            let rest = completed(cell_begun(container, columns, values.len()), answers);
            written(RowKind::Container(container), columns, answers) == (Written::<O, X, S> {
                cells: numbered(values) + rest.cells,
                result: rest.result,
            })
        }),
{
    let measure = row_begun::<O, X, S>(RowKind::Container(container), columns);
    let measured = answered(measure, answers);
    assert(completed(measure, answers) == completed(measured, answers));
    if container != Container::Dict {
        assert(completed(measured, answers) == completed(answered(measured, answers), answers));
    }
    lemma_cells_written(container, columns, values, 0, answers);
    assert(numbered(values).skip(0) =~= numbered(values));
}

/// A container with a value for every column, each of which can be written, makes a row: all of
/// the values, in the order of the columns.
pub proof fn law_fitting_row_is_written<O, X, S>(
    container: Container,
    columns: Seq<Seq<char>>,
    values: Seq<O>,
    answers: Answers<O, X, S>,
)
    requires
        is_readable(container, columns, answers),
        begins_with(container, columns, values, answers),
        values.len() == columns.len(),
    ensures
        written(RowKind::Container(container), columns, answers) == (Written::<O, X, S> {
            cells: numbered(values),
            result: Ok(()),
        }),
{
    lemma_row_begins_with(container, columns, values, answers);
    assert(numbered(values) + Seq::empty() =~= numbered(values));
}

/// The first value that cannot be written ends the row: its own error is how the row went, and the
/// cells up to that value are those that were handed out.
pub proof fn law_failing_value_is_reported<O, X, S>(
    container: Container,
    columns: Seq<Seq<char>>,
    values: Seq<O>,
    failing: O,
    error: S,
    answers: Answers<O, X, S>,
)
    requires
        is_readable(container, columns, answers),
        begins_with(container, columns, values, answers),
        values.len() < columns.len(),
        holds(container, columns, values.len(), failing, answers),
        (answers.writes)(values.len(), failing) == Err::<(), S>(error),
    ensures
        written(RowKind::Container(container), columns, answers) == (Written::<O, X, S> {
            cells: numbered(values.push(failing)),
            result: Err(RowErrorView::Value(error)),
        }),
{
    lemma_row_begins_with(container, columns, values, answers);
    let begun = cell_begun::<O, X, S>(container, columns, values.len());
    let found = answered(begun, answers);
    assert(completed(begun, answers) == completed(found, answers));
    assert(found is Write);
    let rest = completed(found, answers);
    let failed = completed(answered(found, answers), answers);
    assert(failed.cells == Seq::<(nat, O)>::empty());
    assert(rest.cells =~= seq![(values.len(), failing)]);
    assert(numbered(values) + rest.cells =~= numbered(values.push(failing)));
}

/// The first column whose name a `dict` does not have is the one that the error names, and the cells
/// of the columns before it are those that were written.
pub proof fn law_missing_column_is_named<O, X, S>(
    columns: Seq<Seq<char>>,
    values: Seq<O>,
    answers: Answers<O, X, S>,
)
    requires
        is_readable(Container::Dict, columns, answers),
        begins_with(Container::Dict, columns, values, answers),
        values.len() < columns.len(),
        (answers.lookups)(columns[values.len() as int]) == Ok::<Option<O>, ExceptionView<X>>(None),
    ensures
        written(RowKind::Container(Container::Dict), columns, answers) == (Written::<O, X, S> {
            cells: numbered(values),
            result: Err(
                RowErrorView::TypeCheck {
                    container: Container::Dict,
                    kind: TypeCheckErrorKindView::ValueMissingForColumn {
                        name: columns[values.len() as int],
                    },
                },
            ),
        }),
{
    lemma_row_begins_with(Container::Dict, columns, values, answers);
    let begun = cell_begun::<O, X, S>(Container::Dict, columns, values.len());
    assert(completed(begun, answers) == completed(answered(begun, answers), answers));
    assert(numbered(values) + Seq::empty() =~= numbered(values));
}

/// An exception that Python code raises instead of a value ends the row, and the cells of the columns
/// before it are those that were written.
pub proof fn law_raised_exception_ends_the_row<O, X, S>(
    container: Container,
    columns: Seq<Seq<char>>,
    values: Seq<O>,
    raised: ExceptionView<X>,
    answers: Answers<O, X, S>,
)
    requires
        is_readable(container, columns, answers),
        begins_with(container, columns, values, answers),
        values.len() < columns.len(),
        if container == Container::Dict {
            (answers.lookups)(columns[values.len() as int]) == Err::<Option<O>, ExceptionView<X>>(
                raised,
            )
        } else {
            (answers.items)(values.len()) == Some(Err::<O, ExceptionView<X>>(raised))
        },
    ensures
        written(RowKind::Container(container), columns, answers) == (Written::<O, X, S> {
            cells: numbered(values),
            result: Err(RowErrorView::Python(raised)),
        }),
{
    lemma_row_begins_with(container, columns, values, answers);
    let begun = cell_begun::<O, X, S>(container, columns, values.len());
    assert(completed(begun, answers) == completed(answered(begun, answers), answers));
    assert(numbered(values) + Seq::empty() =~= numbered(values));
}

/// An exception that a container raises when it is measured, or when an iteration over it begins,
/// is how the row went, and there are no cells.
pub proof fn law_unreadable_container_has_no_cells<O, X, S>(
    container: Container,
    columns: Seq<Seq<char>>,
    raised: ExceptionView<X>,
    answers: Answers<O, X, S>,
)
    requires
        answers.len == Err::<nat, ExceptionView<X>>(raised) || (answers.len == Ok::<
            nat,
            ExceptionView<X>,
        >(columns.len()) && container != Container::Dict && answers.opened == Err::<
            (),
            ExceptionView<X>,
        >(raised)),
    ensures
        written(RowKind::Container(container), columns, answers) == (Written::<O, X, S> {
            cells: Seq::empty(),
            result: Err(RowErrorView::Python(raised)),
        }),
{
    let measure = row_begun::<O, X, S>(RowKind::Container(container), columns);
    let measured = answered(measure, answers);
    assert(completed(measure, answers) == completed(measured, answers));
    if measured is Open {
        assert(completed(measured, answers) == completed(answered(measured, answers), answers));
    }
}

/// An iteration that ends before there is a value for every column ends the row, well, with the cells
/// of the values that there were.
pub proof fn law_early_end_is_the_end<O, X, S>(
    container: Container,
    columns: Seq<Seq<char>>,
    values: Seq<O>,
    answers: Answers<O, X, S>,
)
    requires
        container != Container::Dict,
        is_readable(container, columns, answers),
        begins_with(container, columns, values, answers),
        values.len() < columns.len(),
        (answers.items)(values.len()) is None,
    ensures
        written(RowKind::Container(container), columns, answers) == (Written::<O, X, S> {
            cells: numbered(values),
            result: Ok(()),
        }),
{
    lemma_row_begins_with(container, columns, values, answers);
    let begun = cell_begun::<O, X, S>(container, columns, values.len());
    assert(completed(begun, answers) == completed(answered(begun, answers), answers));
    assert(numbered(values) + Seq::empty() =~= numbered(values));
}

/// An object that is none of the containers, nor `None`, makes no row: it is refused, in these words.
pub proof fn law_unknown_row_is_refused<O, X, S>(
    columns: Seq<Seq<char>>,
    answers: Answers<O, X, S>,
)
    ensures
        unsupported_row_message() == "expected Python tuple, list or dict"@,
        written(RowKind::Other, columns, answers) == (Written::<O, X, S> {
            cells: Seq::empty(),
            result: Err(
                RowErrorView::Unsupported(
                    ExceptionView {
                        class: ErrorClass::Type,
                        message: Some("expected Python tuple, list or dict"@),
                        object: None,
                    },
                ),
            ),
        }),
{
}

/// A container is accepted for values as it is, whether it could be measured or not, and is empty if,
/// and only if, its length is known to be zero. `None` is accepted, and is empty.
pub proof fn law_containers_and_none_are_accepted<V, X>(
    val: V,
    container: Container,
    len: Option<usize>,
)
    ensures
        extracted(val, RowObject::<X>::Container { container, len }) matches Ok(values)
            && values.inner == val && (values.is_empty <==> len == Some(0usize)),
        extracted(val, RowObject::<X>::Nothing) == Ok::<
            PyAnyWrapperValueList<V>,
            ExceptionView<X>,
        >(PyAnyWrapperValueList { inner: val, is_empty: true }),
        kind_of(RowObject::<X>::Container { container, len }) == RowKind::Container(container),
        kind_of(RowObject::<X>::Nothing) == RowKind::Nothing,
{
}

/// Any other object is refused with a `TypeError` that names its type, or with what asking for that
/// raised.
pub proof fn law_other_objects_are_no_values<V, X>(
    val: V,
    name: String,
    raised: Arc<Exception<X>>,
    py_type: Result<String, Arc<Exception<X>>>,
)
    ensures
        invalid_row_message(name@) == "Invalid row type: got "@ + name@
            + ", expected Python tuple, list or dict"@,
        extracted(val, RowObject::<X>::Other { py_type: Ok(name) }) == Err::<
            PyAnyWrapperValueList<V>,
            ExceptionView<X>,
        >(
            ExceptionView {
                class: ErrorClass::Type,
                message: Some(
                    "Invalid row type: got "@ + name@ + ", expected Python tuple, list or dict"@,
                ),
                object: None,
            },
        ),
        extracted(val, RowObject::<X>::Other { py_type: Err(raised) }) == Err::<
            PyAnyWrapperValueList<V>,
            ExceptionView<X>,
        >(raised@),
        kind_of(RowObject::<X>::Other { py_type }) == RowKind::Other,
{
}

/// Whether an object is a `list` counts before whether it is a `tuple`, that before whether it is a
/// `dict`, and that before whether it is `None`.
pub proof fn law_first_kind_counts(is_list: bool, is_tuple: bool, is_dict: bool, is_none: bool)
    ensures
        first_kind(is_list, is_tuple, is_dict, is_none) == RowKind::Container(Container::List)
            <==> is_list,
        first_kind(is_list, is_tuple, is_dict, is_none) == RowKind::Container(Container::Tuple)
            <==> is_tuple && !is_list,
        first_kind(is_list, is_tuple, is_dict, is_none) == RowKind::Container(Container::Dict)
            <==> is_dict && !is_list && !is_tuple,
        first_kind(is_list, is_tuple, is_dict, is_none) == RowKind::Nothing <==> is_none && !is_list
            && !is_tuple && !is_dict,
        first_kind(is_list, is_tuple, is_dict, is_none) == RowKind::Other <==> !is_list && !is_tuple
            && !is_dict && !is_none,
{
}

/// `None` has no values, whatever its length; anything else has none only if its length is zero.
pub proof fn law_no_values(len: Option<usize>)
    ensures
        has_no_values(true, len),
        has_no_values(false, len) <==> len == Some(0usize),
{
}

/// A misfit is reported under the name of the type of its own container.
pub proof fn law_containers_have_their_names(list: Seq<char>, tuple: Seq<char>, dict: Seq<char>)
    ensures
        container_name(Container::List, list, tuple, dict) == list,
        container_name(Container::Tuple, list, tuple, dict) == tuple,
        container_name(Container::Dict, list, tuple, dict) == dict,
{
}

/// The view of the names of columns has each in its place.
pub proof fn law_names_are_seen_in_full(names: Seq<String>, i: int)
    requires
        0 <= i < names.len(),
    ensures
        names_view(names).len() == names.len(),
        names_view(names)[i] == names[i]@,
{
}

/// The view of a step, and of how a row went, says which it is, and has all that comes with it.
pub proof fn law_row_steps_are_seen_in_full<O, X, S>(
    step: RowStep<O, X, S>,
    error: RowError<X, S>,
    kind: TypeCheckErrorKind,
    result: RowResult<X, S>,
)
    ensures
        match step {
            RowStep::Measure(row) => step@ == RowStepView::<O, X, S>::Measure(row@),
            RowStep::Open(row) => step@ == RowStepView::<O, X, S>::Open(row@),
            RowStep::Fetch(cell) => step@ == RowStepView::<O, X, S>::Fetch(cell@),
            RowStep::LookUp { cell, name } => step@ == (RowStepView::<O, X, S>::LookUp {
                cell: cell@,
                name: name@,
            }),
            RowStep::Write { cell, column, value } => step@ == (RowStepView::<O, X, S>::Write {
                cell: cell@,
                column: column as nat,
                value,
            }),
            RowStep::Done(result) => step@ == RowStepView::<O, X, S>::Done(row_result_view(result)),
        },
        match error {
            RowError::TypeCheck { container, kind } => error@ == (RowErrorView::<X, S>::TypeCheck {
                container,
                kind: kind@,
            }),
            RowError::Python(raised) => error@ == RowErrorView::<X, S>::Python(raised@),
            RowError::Unsupported(raised) => error@ == RowErrorView::<X, S>::Unsupported(raised@),
            RowError::Value(error_of_value) => error@ == RowErrorView::<X, S>::Value(error_of_value),
        },
        match kind {
            TypeCheckErrorKind::WrongColumnCount { rust_cols, cql_cols } => kind@ == (
            TypeCheckErrorKindView::WrongColumnCount {
                rust_cols: rust_cols as nat,
                cql_cols: cql_cols as nat,
            }),
            TypeCheckErrorKind::ValueMissingForColumn { name } => kind@ == (
            TypeCheckErrorKindView::ValueMissingForColumn { name: name@ }),
        },
        match result {
            Ok(()) => row_result_view(result) == Ok::<(), RowErrorView<X, S>>(()),
            Err(error) => row_result_view(result) == Err::<(), RowErrorView<X, S>>(error@),
        },
{
}

} // verus!
