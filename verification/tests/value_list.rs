use pydriver::exception::{ErrorClass, Exception};
use pydriver::value_list::{is_empty_row, length_equality_check, mk_typck_err_val_list, row_kind};
use pydriver::value_list::{serialize, type_check_failure};
use pydriver::value_list::{Container, PyAnyWrapperValueList, RowError, RowKind, RowObject};
use pydriver::value_list::{RowResult, RowStep, TypeCheckErrorKind};
use scylla::serialize::row::{BuiltinTypeCheckError, BuiltinTypeCheckErrorKind};
use scylla::serialize::SerializationError;
use std::sync::Arc;

type Raised = Arc<Exception<u32>>;

/// What a Python container would answer.
struct Object {
    len: Result<usize, u32>,
    opened: Result<(), u32>,
    items: Vec<Result<i32, u32>>,
    entries: Vec<(&'static str, Result<i32, u32>)>,
    unwritable: Option<i32>,
}

impl Object {
    fn sequence(items: &[i32]) -> Object {
        Object {
            len: Ok(items.len()),
            opened: Ok(()),
            items: items.iter().map(|item| Ok(*item)).collect(),
            entries: Vec::new(),
            unwritable: None,
        }
    }

    fn dict(entries: &[(&'static str, i32)]) -> Object {
        Object {
            len: Ok(entries.len()),
            opened: Err(99),
            items: Vec::new(),
            entries: entries.iter().map(|(name, value)| (*name, Ok(*value))).collect(),
            unwritable: None,
        }
    }
}

fn raised(object: u32) -> Raised {
    Arc::new(Exception::from_object(object))
}

/// Writes a row, and returns the cells that were handed out with how it went.
fn write(kind: RowKind, columns: &[&str], object: Object) -> (Vec<(usize, i32)>, RowResult<u32, i32>) {
    let columns: Vec<String> = columns.iter().map(|name| name.to_string()).collect();
    let mut items = object.items.into_iter();
    let mut cells = Vec::new();
    let mut step: RowStep<i32, u32, i32> = serialize(kind, columns);
    loop {
        step = match step {
            RowStep::Measure(row) => row.measured(object.len.map_err(raised)),
            RowStep::Open(row) => row.opened(object.opened.map_err(raised)),
            RowStep::Fetch(cell) => cell.fetched(items.next().map(|item| item.map_err(raised))),
            RowStep::LookUp { cell, name } => {
                let found = object.entries.iter().find(|(key, _)| *key == name);
                let item = match found {
                    None => Ok(None),
                    Some((_, Ok(value))) => Ok(Some(*value)),
                    Some((_, Err(object))) => Err(raised(*object)),
                };
                cell.looked_up(item)
            }
            RowStep::Write { cell, column, value } => {
                cells.push((column, value));
                cell.written(if object.unwritable == Some(value) { Err(-value) } else { Ok(()) })
            }
            RowStep::Done(result) => return (cells, result),
        };
    }
}

const LIST: RowKind = RowKind::Container(Container::List);
const TUPLE: RowKind = RowKind::Container(Container::Tuple);
const DICT: RowKind = RowKind::Container(Container::Dict);

#[test]
fn only_none_and_a_length_of_zero_are_empty() {
    assert!(is_empty_row(true, None));
    assert!(is_empty_row(true, Some(3)));
    assert!(is_empty_row(false, Some(0)));
    assert!(!is_empty_row(false, Some(1)));
    assert!(!is_empty_row(false, None));
}

#[test]
fn containers_and_none_are_extracted() {
    for container in [Container::List, Container::Tuple, Container::Dict] {
        for (len, empty) in [(Some(0), true), (Some(2), false), (None, false)] {
            let row: RowObject<u32> = RowObject::Container { container, len };
            let values = PyAnyWrapperValueList::extract("row", row).unwrap();
            assert_eq!(values.inner, "row");
            assert_eq!(values.is_empty(), empty);
        }
    }
    let values = PyAnyWrapperValueList::extract::<u32>("none", RowObject::Nothing).unwrap();
    assert_eq!(values.inner, "none");
    assert!(values.is_empty());
}

#[test]
fn values_default_to_none() {
    let values = PyAnyWrapperValueList::default("none");
    assert_eq!(values.inner, "none");
    assert!(values.is_empty());
}

#[test]
fn other_rows_are_refused_by_the_name_of_their_type() {
    let row: RowObject<u32> = RowObject::Other { py_type: Ok("set".to_string()) };
    let error = PyAnyWrapperValueList::extract("row", row).unwrap_err();
    assert_eq!(error.class, ErrorClass::Type);
    assert_eq!(
        error.message.as_deref(),
        Some("Invalid row type: got set, expected Python tuple, list or dict"),
    );
    let row = RowObject::Other { py_type: Err(raised(5)) };
    let error = PyAnyWrapperValueList::extract("row", row).unwrap_err();
    assert_eq!(error.object, Some(5));
}

#[test]
fn lengths_have_to_agree() {
    let fits: RowResult<u32, i32> = length_equality_check(Container::List, 3, 3);
    assert!(fits.is_ok());
    let differs: RowResult<u32, i32> = length_equality_check(Container::Tuple, 2, 3);
    match differs {
        Err(RowError::TypeCheck {
            container,
            kind: TypeCheckErrorKind::WrongColumnCount { rust_cols, cql_cols },
        }) => {
            assert_eq!(container, Container::Tuple);
            assert_eq!((rust_cols, cql_cols), (2, 3));
        }
        _ => panic!("not the wrong column count"),
    }
}

#[test]
fn sequences_are_written_in_order() {
    for kind in [LIST, TUPLE] {
        let (cells, result) = write(kind, &["a", "b", "c"], Object::sequence(&[10, 20, 30]));
        assert_eq!(cells, [(0, 10), (1, 20), (2, 30)]);
        assert!(result.is_ok());
    }
}

#[test]
fn dicts_are_written_in_the_order_of_the_columns() {
    let object = Object::dict(&[("c", 30), ("a", 10), ("b", 20)]);
    let (cells, result) = write(DICT, &["a", "b", "c"], object);
    assert_eq!(cells, [(0, 10), (1, 20), (2, 30)]);
    assert!(result.is_ok());
}

#[test]
fn a_row_without_columns_has_no_cells() {
    let (cells, result) = write(LIST, &[], Object::sequence(&[]));
    assert!(cells.is_empty() && result.is_ok());
    let (cells, result) = write(DICT, &[], Object::dict(&[]));
    assert!(cells.is_empty() && result.is_ok());
}

#[test]
fn none_is_written_as_nothing_whatever_the_columns() {
    let (cells, result) = write(RowKind::Nothing, &["a"], Object::sequence(&[1]));
    assert!(cells.is_empty() && result.is_ok());
}

#[test]
fn an_unknown_row_is_a_type_error() {
    let (cells, result) = write(RowKind::Other, &["a"], Object::sequence(&[1]));
    assert!(cells.is_empty());
    match result {
        Err(RowError::Unsupported(exception)) => {
            assert_eq!(exception.class, ErrorClass::Type);
            assert_eq!(exception.message.as_deref(), Some("expected Python tuple, list or dict"));
        }
        _ => panic!("not unsupported"),
    }
}

#[test]
fn a_wrong_count_is_refused_before_any_cell() {
    for (kind, expected) in [(LIST, Container::List), (DICT, Container::Dict)] {
        let mut object = Object::sequence(&[1, 2]);
        object.opened = Err(1);
        let (cells, result) = write(kind, &["a"], object);
        assert!(cells.is_empty());
        match result {
            Err(RowError::TypeCheck {
                container,
                kind: TypeCheckErrorKind::WrongColumnCount { rust_cols, cql_cols },
            }) => {
                assert_eq!(container, expected);
                assert_eq!((rust_cols, cql_cols), (2, 1));
            }
            _ => panic!("not the wrong column count"),
        }
    }
}

#[test]
fn a_missing_name_stops_the_row() {
    let object = Object::dict(&[("a", 10), ("x", 20)]);
    let (cells, result) = write(DICT, &["a", "b"], object);
    assert_eq!(cells, [(0, 10)]);
    match result {
        Err(RowError::TypeCheck {
            container,
            kind: TypeCheckErrorKind::ValueMissingForColumn { name },
        }) => {
            assert_eq!(container, Container::Dict);
            assert_eq!(name, "b");
        }
        _ => panic!("not a missing value"),
    }
}

fn python_error(result: RowResult<u32, i32>) -> Option<u32> {
    match result {
        Err(RowError::Python(exception)) => exception.object,
        _ => None,
    }
}

#[test]
fn python_errors_stop_the_row_where_they_occur() {
    let mut object = Object::sequence(&[1]);
    object.len = Err(41);
    let (cells, result) = write(LIST, &["a"], object);
    assert!(cells.is_empty());
    assert_eq!(python_error(result), Some(41));

    let mut object = Object::sequence(&[1]);
    object.opened = Err(42);
    let (cells, result) = write(TUPLE, &["a"], object);
    assert!(cells.is_empty());
    assert_eq!(python_error(result), Some(42));

    let mut object = Object::sequence(&[1, 2, 3]);
    object.items[1] = Err(43);
    let (cells, result) = write(LIST, &["a", "b", "c"], object);
    assert_eq!(cells, [(0, 1)]);
    assert_eq!(python_error(result), Some(43));

    let mut object = Object::dict(&[("a", 1), ("b", 2)]);
    object.entries[1].1 = Err(44);
    let (cells, result) = write(DICT, &["a", "b"], object);
    assert_eq!(cells, [(0, 1)]);
    assert_eq!(python_error(result), Some(44));
}

#[test]
fn a_value_that_cannot_be_written_stops_the_row() {
    let mut object = Object::sequence(&[1, 2, 3]);
    object.unwritable = Some(2);
    let (cells, result) = write(LIST, &["a", "b", "c"], object);
    assert_eq!(cells, [(0, 1), (1, 2)]);
    assert!(matches!(result, Err(RowError::Value(-2))));
}

#[test]
fn an_iteration_that_ends_early_ends_the_row() {
    let mut object = Object::sequence(&[1, 2]);
    object.len = Ok(3);
    let (cells, result) = write(LIST, &["a", "b", "c"], object);
    assert_eq!(cells, [(0, 1), (1, 2)]);
    assert!(result.is_ok());
}

#[test]
fn wrong_count_is_reported_to_the_driver() {
    let kind = TypeCheckErrorKind::WrongColumnCount { rust_cols: 2, cql_cols: 3 };
    let error = mk_typck_err_val_list("list", kind);
    let found = error.downcast_ref::<BuiltinTypeCheckError>().unwrap();
    assert_eq!(found.rust_name, "list");
    match &found.kind {
        BuiltinTypeCheckErrorKind::WrongColumnCount { rust_cols, cql_cols } => {
            assert_eq!((*rust_cols, *cql_cols), (2, 3));
        }
        _ => panic!("another kind"),
    }
}

#[test]
fn missing_column_is_reported_to_the_driver() {
    let kind = TypeCheckErrorKind::ValueMissingForColumn { name: "b".to_string() };
    let error = mk_typck_err_val_list("dict", kind);
    let found = error.downcast_ref::<BuiltinTypeCheckError>().unwrap();
    assert_eq!(found.rust_name, "dict");
    match &found.kind {
        BuiltinTypeCheckErrorKind::ValueMissingForColumn { name } => assert_eq!(name, "b"),
        _ => panic!("another kind"),
    }
}

#[test]
fn a_misfit_is_reported_under_the_name_of_its_container() {
    for (container, name) in [(Container::List, "l"), (Container::Tuple, "t"), (Container::Dict, "d")] {
        let kind = TypeCheckErrorKind::WrongColumnCount { rust_cols: 4, cql_cols: 1 };
        let error = type_check_failure(container, kind, "l", "t", "d");
        assert!(error.downcast_ref::<BuiltinTypeCheckError>().is_none());
        let inner = error.downcast_ref::<SerializationError>().unwrap();
        let found = inner.downcast_ref::<BuiltinTypeCheckError>().unwrap();
        assert_eq!(found.rust_name, name);
        match &found.kind {
            BuiltinTypeCheckErrorKind::WrongColumnCount { rust_cols, cql_cols } => {
                assert_eq!((*rust_cols, *cql_cols), (4, 1));
            }
            _ => panic!("another kind"),
        }
    }
}

#[test]
fn the_first_type_that_applies_is_the_kind() {
    assert_eq!(row_kind(true, false, false, false), LIST);
    assert_eq!(row_kind(false, true, false, false), TUPLE);
    assert_eq!(row_kind(false, false, true, false), DICT);
    assert_eq!(row_kind(false, false, false, true), RowKind::Nothing);
    assert_eq!(row_kind(false, false, false, false), RowKind::Other);
    assert_eq!(row_kind(true, true, true, true), LIST);
    assert_eq!(row_kind(false, true, true, false), TUPLE);
}

#[test]
fn what_is_accepted_is_what_is_supported() {
    let rows: Vec<RowObject<u32>> = vec![
        RowObject::Container { container: Container::List, len: Some(0) },
        RowObject::Container { container: Container::Tuple, len: None },
        RowObject::Container { container: Container::Dict, len: Some(0) },
        RowObject::Nothing,
        RowObject::Other { py_type: Ok("int".to_string()) },
        RowObject::Other { py_type: Err(raised(1)) },
    ];
    let kinds = [LIST, TUPLE, DICT, RowKind::Nothing, RowKind::Other, RowKind::Other];
    for (row, expected) in rows.into_iter().zip(kinds) {
        let kind = row.kind();
        assert_eq!(kind, expected);
        let (cells, result) = write(kind, &[], Object::sequence(&[]));
        assert!(cells.is_empty());
        let refused = matches!(result, Err(RowError::Unsupported(_)));
        assert_eq!(PyAnyWrapperValueList::extract("row", row).is_err(), refused);
    }
}
