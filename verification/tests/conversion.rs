use postgres_mapper_derive::model::{extract, FieldDecl, MappedType, TypeDecl};
use postgres_mapper_derive::row::{
    convert_fallible, convert_fallible_ref, convert_infallible, convert_infallible_ref, CellState,
    Column, DecodeError, MappingError, Record, RecordField, Row, Value,
};

fn named(ident: &str, ty: &str) -> FieldDecl {
    FieldDecl { identifier: Some(ident.to_owned()), declared_type: ty.to_owned() }
}

fn user_mapped() -> MappedType {
    let decl = TypeDecl::Record {
        name: "User".to_owned(),
        fields: vec![named("id", "i64"), named("name", "String")],
        options: vec![],
    };
    match extract(&decl) {
        Ok(m) => m,
        Err(_) => panic!("a fully named record must extract"),
    }
}

fn decoded(name: &str, value: Value) -> Column {
    Column { name: name.to_owned(), cell: CellState::Decoded(value) }
}

fn ada_row() -> Row {
    Row {
        columns: vec![
            decoded("id", Value::Int(7)),
            decoded("name", Value::Text("Ada".to_owned())),
        ],
    }
}

fn ada_record() -> Record {
    Record {
        fields: vec![
            RecordField { name: "id".to_owned(), value: Value::Int(7) },
            RecordField { name: "name".to_owned(), value: Value::Text("Ada".to_owned()) },
        ],
    }
}

#[test]
fn infallible_borrowed_round_trip() {
    assert_eq!(convert_infallible_ref(&user_mapped(), &ada_row()), ada_record());
}

#[test]
fn infallible_owned_round_trip() {
    assert_eq!(convert_infallible(&user_mapped(), ada_row()), ada_record());
}

#[test]
fn fallible_borrowed_round_trip() {
    assert_eq!(convert_fallible_ref(&user_mapped(), &ada_row()), Ok(ada_record()));
}

#[test]
fn fallible_owned_round_trip() {
    assert_eq!(convert_fallible(&user_mapped(), ada_row()), Ok(ada_record()));
}

#[test]
fn extra_columns_are_ignored() {
    let row = Row {
        columns: vec![
            decoded("age", Value::Int(36)),
            decoded("id", Value::Int(7)),
            decoded("name", Value::Text("Ada".to_owned())),
            decoded("active", Value::Boolean(true)),
        ],
    };
    assert_eq!(convert_fallible(&user_mapped(), row), Ok(ada_record()));
}

#[test]
fn missing_column_gives_column_not_found() {
    let row = Row { columns: vec![decoded("id", Value::Int(7))] };
    assert_eq!(
        convert_fallible(&user_mapped(), row),
        Err(MappingError::ColumnNotFound { column: "name".to_owned() })
    );
}

#[test]
fn first_missing_field_wins() {
    let row = Row { columns: vec![] };
    assert_eq!(
        convert_fallible_ref(&user_mapped(), &row),
        Err(MappingError::ColumnNotFound { column: "id".to_owned() })
    );
}

#[test]
fn decode_failure_propagates_unchanged() {
    let row = Row {
        columns: vec![
            decoded("id", Value::Int(7)),
            Column {
                name: "name".to_owned(),
                cell: CellState::Undecodable(DecodeError { detail: "type mismatch".to_owned() }),
            },
        ],
    };
    assert_eq!(
        convert_fallible(&user_mapped(), row),
        Err(MappingError::Underlying { error: DecodeError { detail: "type mismatch".to_owned() } })
    );
}

#[test]
fn decode_failure_on_earlier_field_short_circuits() {
    let row = Row {
        columns: vec![Column {
            name: "id".to_owned(),
            cell: CellState::Undecodable(DecodeError { detail: "not an integer".to_owned() }),
        }],
    };
    assert_eq!(
        convert_fallible(&user_mapped(), row),
        Err(MappingError::Underlying { error: DecodeError { detail: "not an integer".to_owned() } })
    );
}

#[test]
fn try_get_returns_first_matching_column() {
    let row = Row {
        columns: vec![decoded("id", Value::Int(1)), decoded("id", Value::Int(2))],
    };
    assert_eq!(row.try_get(&"id".to_owned()), Ok(Some(Value::Int(1))));
}

#[test]
fn try_get_reports_absence() {
    assert_eq!(ada_row().try_get(&"age".to_owned()), Ok(None));
}

#[test]
fn try_get_reports_decode_failure() {
    let row = Row {
        columns: vec![Column {
            name: "id".to_owned(),
            cell: CellState::Undecodable(DecodeError { detail: "bad wire value".to_owned() }),
        }],
    };
    assert_eq!(
        row.try_get(&"id".to_owned()),
        Err(DecodeError { detail: "bad wire value".to_owned() })
    );
}

#[test]
fn get_or_fault_returns_the_decoded_value() {
    assert_eq!(ada_row().get_or_fault(&"name".to_owned()), Value::Text("Ada".to_owned()));
}
