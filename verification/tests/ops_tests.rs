use pgclient_core::error::DbError;
use pgclient_core::ops::{
    build_operation_sql, count_result, find_one_result, find_result, parse_operation,
    plan_operation, query_result_value, Operation,
};
use pgclient_core::value::{Number, Value};

fn s(text: &str) -> String {
    text.to_string()
}

fn num(n: i64) -> Value {
    Value::Num(Number::Int(n))
}

#[test]
fn operation_names_parse_exactly() {
    assert_eq!(parse_operation("find").unwrap(), Operation::Find);
    assert_eq!(parse_operation("findOne").unwrap(), Operation::FindOne);
    assert_eq!(parse_operation("count").unwrap(), Operation::Count);
}

#[test]
fn unknown_operation_is_refused_with_its_name() {
    match parse_operation("findone") {
        Err(DbError::UnsupportedOperation(name)) => assert_eq!(name, "findone"),
        other => panic!("wrong outcome: {other:?}"),
    }
}

#[test]
fn find_sql_selects_everything_with_the_filter() {
    let sql = build_operation_sql(
        Operation::Find,
        "users",
        vec![(s("age"), Value::Obj(vec![(s("$gt"), num(18))]))],
    );
    assert_eq!(sql, "SELECT * FROM users WHERE age > 18");
}

#[test]
fn find_one_sql_adds_limit_one() {
    let sql = build_operation_sql(Operation::FindOne, "users", vec![]);
    assert_eq!(sql, "SELECT * FROM users LIMIT 1");
}

#[test]
fn count_sql_selects_the_count() {
    let sql = build_operation_sql(
        Operation::Count,
        "users",
        vec![(s("name"), Value::Str(s("Alice")))],
    );
    assert_eq!(sql, "SELECT COUNT(*) as count FROM users WHERE name = 'Alice'");
}

#[test]
fn plan_operation_pairs_the_parsed_operation_with_its_sql() {
    let (op, sql) = plan_operation("find", "t", vec![]).unwrap();
    assert_eq!(op, Operation::Find);
    assert_eq!(sql, "SELECT * FROM t");
    match plan_operation("drop", "t", vec![]) {
        Err(DbError::UnsupportedOperation(name)) => assert_eq!(name, "drop"),
        other => panic!("wrong outcome: {other:?}"),
    }
}

#[test]
fn count_on_empty_table_gives_empty_data_and_zero_total() {
    let q = count_result(0);
    let v = query_result_value(q);
    assert_eq!(
        v,
        Value::Obj(vec![
            (s("data"), Value::Arr(vec![])),
            (s("total"), Value::Num(Number::Int(0))),
        ])
    );
}

#[test]
fn find_on_empty_table_gives_empty_data_and_null_total() {
    let q = find_result(vec![]);
    let v = query_result_value(q);
    assert_eq!(
        v,
        Value::Obj(vec![(s("data"), Value::Arr(vec![])), (s("total"), Value::Null)])
    );
}

#[test]
fn find_keeps_every_row_in_order() {
    let rows = vec![num(1), num(2)];
    let q = find_result(rows);
    assert_eq!(q.data, vec![num(1), num(2)]);
    assert_eq!(q.total, None);
}

#[test]
fn find_one_keeps_zero_or_one_row() {
    let q = find_one_result(Some(num(7)));
    assert_eq!(q.data, vec![num(7)]);
    assert_eq!(q.total, None);
    let q = find_one_result(None);
    assert!(q.data.is_empty());
    assert_eq!(q.total, None);
}
