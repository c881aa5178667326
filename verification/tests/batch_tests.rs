use pgclient_core::batch::{
    batch_envelope, classify_statement, split_statements, BatchRun, StatementResult, StmtKind,
};
use pgclient_core::error::DbError;
use pgclient_core::value::{Number, Value};

fn s(text: &str) -> String {
    text.to_string()
}

fn one_row(n: i64) -> Value {
    Value::Obj(vec![(s("?column?"), Value::Num(Number::Int(n)))])
}

#[test]
fn split_trims_and_drops_empty_fragments() {
    let parts = split_statements("SELECT 1; SELECT 2");
    assert_eq!(parts, vec![s("SELECT 1"), s("SELECT 2")]);
    let parts = split_statements("  SELECT 1 ;;  ; ");
    assert_eq!(parts, vec![s("SELECT 1")]);
    let parts = split_statements(" ; ; ");
    assert!(parts.is_empty());
    let parts = split_statements("");
    assert!(parts.is_empty());
}

#[test]
fn classification_is_case_insensitive_on_the_leading_keyword() {
    assert_eq!(classify_statement("SELECT * FROM t"), StmtKind::Select);
    assert_eq!(classify_statement("select 1"), StmtKind::Select);
    assert_eq!(classify_statement("Insert into t values (1)"), StmtKind::Write);
    assert_eq!(classify_statement("update t set a = 1"), StmtKind::Write);
    assert_eq!(classify_statement("DELETE FROM t"), StmtKind::Write);
    assert_eq!(classify_statement("CREATE TABLE t (a int)"), StmtKind::Ddl);
    assert_eq!(classify_statement("drop table t"), StmtKind::Ddl);
}

#[test]
fn two_statement_batch_yields_array_of_select_results() {
    let mut run = BatchRun::start("SELECT 1; SELECT 2").expect("two statements");
    let (sql, kind) = run.next_statement().expect("first pending");
    assert_eq!(sql, "SELECT 1");
    assert_eq!(kind, StmtKind::Select);
    run.record_select(vec![one_row(1)]);
    let (sql, kind) = run.next_statement().expect("second pending");
    assert_eq!(sql, "SELECT 2");
    assert_eq!(kind, StmtKind::Select);
    run.record_select(vec![one_row(2)]);
    assert!(run.is_complete());
    let envelope = run.finish();
    match envelope {
        Value::Arr(items) => {
            assert_eq!(items.len(), 2);
            for (i, item) in items.iter().enumerate() {
                match item {
                    Value::Obj(entries) => {
                        assert_eq!(entries[0], (s("type"), Value::Str(s("select"))));
                        assert_eq!(entries[1].0, "sql");
                        assert_eq!(entries[2].0, "data");
                        match &entries[2].1 {
                            Value::Arr(rows) => assert_eq!(rows.len(), 1),
                            other => panic!("data is not an array: {other:?}"),
                        }
                        assert_eq!(
                            entries[3],
                            (s("rows_affected"), Value::Num(Number::UInt(1))),
                            "statement {i}"
                        );
                    },
                    other => panic!("result is not an object: {other:?}"),
                }
            }
        },
        other => panic!("two results must come back as an array: {other:?}"),
    }
}

#[test]
fn single_statement_result_is_not_wrapped_in_an_array() {
    let mut run = BatchRun::start("SELECT 1").expect("one statement");
    let (sql, kind) = run.next_statement().expect("pending");
    assert_eq!(sql, "SELECT 1");
    assert_eq!(kind, StmtKind::Select);
    run.record_select(vec![one_row(1)]);
    let envelope = run.finish();
    match envelope {
        Value::Obj(entries) => {
            assert_eq!(entries[0], (s("type"), Value::Str(s("select"))));
            assert_eq!(entries[1], (s("sql"), Value::Str(s("SELECT 1"))));
        },
        other => panic!("a single result must stand alone: {other:?}"),
    }
}

#[test]
fn write_and_ddl_results_carry_no_data_member() {
    let mut run = BatchRun::start("DELETE FROM t; CREATE TABLE u (a int)").expect("statements");
    run.record_command(3);
    run.record_command(0);
    let envelope = run.finish();
    match envelope {
        Value::Arr(items) => {
            match &items[0] {
                Value::Obj(entries) => {
                    assert_eq!(entries[0], (s("type"), Value::Str(s("write"))));
                    assert_eq!(entries.len(), 3);
                    assert_eq!(entries[2], (s("rows_affected"), Value::Num(Number::UInt(3))));
                },
                other => panic!("not an object: {other:?}"),
            }
            match &items[1] {
                Value::Obj(entries) => {
                    assert_eq!(entries[0], (s("type"), Value::Str(s("ddl"))));
                    assert_eq!(entries[2], (s("rows_affected"), Value::Num(Number::UInt(0))));
                },
                other => panic!("not an object: {other:?}"),
            }
        },
        other => panic!("expected an array: {other:?}"),
    }
}

#[test]
fn failure_identifies_the_failing_statement_and_discards_partials() {
    let mut run = BatchRun::start("SELECT 1; BOOM").expect("statements");
    run.record_select(vec![one_row(1)]);
    let (sql, kind) = run.next_statement().expect("second pending");
    assert_eq!(sql, "BOOM");
    assert_eq!(kind, StmtKind::Ddl);
    let err = run.fail(s("syntax error"));
    match err {
        DbError::StatementExecution { sql, message } => {
            assert_eq!(sql, "BOOM");
            assert_eq!(message, "syntax error");
        },
        other => panic!("wrong error: {other:?}"),
    }
}

#[test]
fn empty_batch_is_refused() {
    match BatchRun::start("  ;  ; ") {
        Err(DbError::EmptyBatch) => {},
        other => panic!("an empty batch must be refused: {other:?}"),
    }
}

#[test]
fn empty_result_list_becomes_an_empty_array() {
    let envelope = batch_envelope(vec![]);
    assert_eq!(envelope, Value::Arr(vec![]));
}

#[test]
fn statement_result_envelope_holds_its_fields() {
    let r = StatementResult {
        kind: StmtKind::Select,
        sql: s("SELECT a FROM t"),
        data: vec![one_row(5)],
        rows_affected: 1,
    };
    let v = pgclient_core::batch::statement_result_value(r);
    assert_eq!(
        v,
        Value::Obj(vec![
            (s("type"), Value::Str(s("select"))),
            (s("sql"), Value::Str(s("SELECT a FROM t"))),
            (s("data"), Value::Arr(vec![one_row(5)])),
            (s("rows_affected"), Value::Num(Number::UInt(1))),
        ])
    );
}
