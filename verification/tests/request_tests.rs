use pgclient_core::error::DbError;
use pgclient_core::request::{parse_request, QueryRequest};
use pgclient_core::value::{Number, Value};

fn s(text: &str) -> String {
    text.to_string()
}

#[test]
fn a_string_sql_member_makes_a_raw_batch() {
    let req = Value::Obj(vec![(s("sql"), Value::Str(s("SELECT 1")))]);
    match parse_request(req) {
        Ok(QueryRequest::RawSql(sql)) => assert_eq!(sql, "SELECT 1"),
        other => panic!("wrong outcome: {other:?}"),
    }
}

#[test]
fn sql_wins_over_structured_members() {
    let req = Value::Obj(vec![
        (s("table"), Value::Str(s("t"))),
        (s("sql"), Value::Str(s("SELECT 2"))),
        (s("operation"), Value::Str(s("find"))),
    ]);
    match parse_request(req) {
        Ok(QueryRequest::RawSql(sql)) => assert_eq!(sql, "SELECT 2"),
        other => panic!("wrong outcome: {other:?}"),
    }
}

#[test]
fn structured_request_decodes_table_operation_and_filter() {
    let req = Value::Obj(vec![
        (s("table"), Value::Str(s("users"))),
        (s("operation"), Value::Str(s("find"))),
        (
            s("filter"),
            Value::Obj(vec![(s("age"), Value::Num(Number::Int(30)))]),
        ),
    ]);
    match parse_request(req) {
        Ok(QueryRequest::Structured { table, operation, filter }) => {
            assert_eq!(table, "users");
            assert_eq!(operation, "find");
            assert_eq!(filter, vec![(s("age"), Value::Num(Number::Int(30)))]);
        },
        other => panic!("wrong outcome: {other:?}"),
    }
}

#[test]
fn missing_filter_decodes_as_empty() {
    let req = Value::Obj(vec![
        (s("table"), Value::Str(s("users"))),
        (s("operation"), Value::Str(s("count"))),
    ]);
    match parse_request(req) {
        Ok(QueryRequest::Structured { filter, .. }) => assert!(filter.is_empty()),
        other => panic!("wrong outcome: {other:?}"),
    }
}

#[test]
fn non_object_filter_decodes_as_empty() {
    let req = Value::Obj(vec![
        (s("table"), Value::Str(s("users"))),
        (s("operation"), Value::Str(s("find"))),
        (s("filter"), Value::Str(s("nope"))),
    ]);
    match parse_request(req) {
        Ok(QueryRequest::Structured { filter, .. }) => assert!(filter.is_empty()),
        other => panic!("wrong outcome: {other:?}"),
    }
}

#[test]
fn missing_table_is_an_invalid_request() {
    let req = Value::Obj(vec![(s("operation"), Value::Str(s("find")))]);
    match parse_request(req) {
        Err(DbError::InvalidRequest(_)) => {},
        other => panic!("wrong outcome: {other:?}"),
    }
}

#[test]
fn missing_operation_is_an_invalid_request() {
    let req = Value::Obj(vec![(s("table"), Value::Str(s("users")))]);
    match parse_request(req) {
        Err(DbError::InvalidRequest(_)) => {},
        other => panic!("wrong outcome: {other:?}"),
    }
}

#[test]
fn a_non_object_request_is_invalid() {
    match parse_request(Value::Str(s("SELECT 1"))) {
        Err(DbError::InvalidRequest(_)) => {},
        other => panic!("wrong outcome: {other:?}"),
    }
}

#[test]
fn a_non_string_sql_member_falls_through_to_the_structured_path() {
    let req = Value::Obj(vec![
        (s("sql"), Value::Num(Number::Int(1))),
        (s("table"), Value::Str(s("t"))),
        (s("operation"), Value::Str(s("find"))),
    ]);
    match parse_request(req) {
        Ok(QueryRequest::Structured { table, .. }) => assert_eq!(table, "t"),
        other => panic!("wrong outcome: {other:?}"),
    }
}
