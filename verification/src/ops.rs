use vstd::prelude::*;
use vstd::string::*;
use crate::value::{
    Value,
    Number,
    ValModel,
    NumModel,
    val_model,
    vals_model,
    entry_models,
    lemma_entry_models,
    lemma_arr_models,
};
use crate::filter::{where_clause_text, build_where_clause};
use crate::error::DbError;

verus! {

/// The structured operations the dispatcher knows.
#[derive(Debug, Clone, Copy, PartialEq, Eq, Structural)]
pub enum Operation {
    Find,
    FindOne,
    Count,
}

/// The operation an operation name stands for, if any.
pub open spec fn operation_of(s: Seq<char>) -> Option<Operation> {
    if s == "find"@ {
        Some(Operation::Find)
    } else if s == "findOne"@ {
        Some(Operation::FindOne)
    } else if s == "count"@ {
        Some(Operation::Count)
    } else {
        None
    }
}

/// Reads an operation name.  Fails with `UnsupportedOperation`, carrying the
/// name, exactly when the name is unknown.
pub fn parse_operation(s: &str) -> (r: Result<Operation, DbError>)
    ensures
        match r {
            Ok(op) => operation_of(s@) == Some(op),
            Err(e) => operation_of(s@) is None && match e {
                DbError::UnsupportedOperation(m) => m@ == s@,
                _ => false,
            },
        },
{
    if crate::render::str_eq(s, "find") {
        Ok(Operation::Find)
    } else if crate::render::str_eq(s, "findOne") {
        Ok(Operation::FindOne)
    } else if crate::render::str_eq(s, "count") {
        Ok(Operation::Count)
    } else {
        Err(DbError::UnsupportedOperation(String::from_str(s)))
    }
}

/// The SQL a structured operation runs: a `find` selects every matching
/// row, a `findOne` adds `LIMIT 1`, and a `count` selects the matching row
/// count.  The table name is interpolated verbatim, unquoted and
/// unvalidated: the caller must supply a safe identifier.
pub open spec fn operation_sql_text(op: Operation, table: Seq<char>, wc: Seq<char>) -> Seq<char> {
    match op {
        Operation::Find => "SELECT * FROM "@ + table + wc,
        Operation::FindOne => "SELECT * FROM "@ + table + wc + " LIMIT 1"@,
        Operation::Count => "SELECT COUNT(*) as count FROM "@ + table + wc,
    }
}

/// Builds the SQL of a structured operation over a filter.
pub fn build_operation_sql(op: Operation, table: &str, filter: Vec<(String, Value)>) -> (r: String)
    ensures
        r@ == operation_sql_text(op, table@, where_clause_text(entry_models(filter@, 0))),
{
    let wc = build_where_clause(filter);
    match op {
        Operation::Find => {
            let mut sql = String::from_str("SELECT * FROM ");
            sql.append(table);
            sql.append(wc.as_str());
            sql
        },
        Operation::FindOne => {
            let mut sql = String::from_str("SELECT * FROM ");
            sql.append(table);
            sql.append(wc.as_str());
            sql.append(" LIMIT 1");
            assert(sql@ =~= operation_sql_text(op, table@, wc@));
            sql
        },
        Operation::Count => {
            let mut sql = String::from_str("SELECT COUNT(*) as count FROM ");
            sql.append(table);
            sql.append(wc.as_str());
            sql
        },
    }
}

/// Reads the operation name and builds the SQL it runs in one step: the
/// decision part of the structured dispatcher.
pub fn plan_operation(operation: &str, table: &str, filter: Vec<(String, Value)>) -> (r: Result<
    (Operation, String),
    DbError,
>)
    ensures
        match r {
            Ok(p) => operation_of(operation@) == Some(p.0) && p.1@ == operation_sql_text(
                p.0,
                table@,
                where_clause_text(entry_models(filter@, 0)),
            ),
            Err(e) => operation_of(operation@) is None && match e {
                DbError::UnsupportedOperation(m) => m@ == operation@,
                _ => false,
            },
        },
{
    let op = parse_operation(operation)?;
    let sql = build_operation_sql(op, table, filter);
    Ok((op, sql))
}

/// The result of one structured operation: the matching rows, and for a
/// `count` the matched total.
#[derive(Debug, PartialEq)]
pub struct QueryResult {
    pub data: Vec<Value>,
    pub total: Option<i64>,
}

/// The envelope object of a structured operation result: its rows under
/// `data`, and under `total` the count when one was taken, null otherwise.
pub open spec fn query_result_model(data: Seq<ValModel>, total: Option<i64>) -> ValModel {
    ValModel::Obj(
        seq![
            ("data"@, ValModel::Arr(data)),
            (
                "total"@,
                match total {
                    Some(n) => ValModel::Num(NumModel::Int(n)),
                    None => ValModel::Null,
                },
            ),
        ],
    )
}

/// Shapes a `find`'s rows: every matching row, no total.
pub fn find_result(rows: Vec<Value>) -> (q: QueryResult)
    ensures
        q.data == rows,
        q.total is None,
{
    QueryResult { data: rows, total: None }
}

/// Shapes a `findOne`'s zero-or-one row, no total.
pub fn find_one_result(row: Option<Value>) -> (q: QueryResult)
    ensures
        match row {
            Some(v) => q.data@.len() == 1 && q.data@[0] == v,
            None => q.data@.len() == 0,
        },
        q.total is None,
{
    match row {
        Some(v) => {
            let mut data: Vec<Value> = Vec::new();
            data.push(v);
            QueryResult { data, total: None }
        },
        None => QueryResult { data: Vec::new(), total: None },
    }
}

/// Shapes a `count`'s scalar: no rows, the matched total.
pub fn count_result(n: i64) -> (q: QueryResult)
    ensures
        q.data@.len() == 0,
        q.total == Some(n),
{
    QueryResult { data: Vec::new(), total: Some(n) }
}

/// Builds the envelope object of a structured operation result.
pub fn query_result_value(q: QueryResult) -> (v: Value)
    ensures
        val_model(v) == query_result_model(vals_model(q.data@), q.total),
{
    let QueryResult { data, total } = q;
    let mut entries: Vec<(String, Value)> = Vec::new();
    entries.push((String::from_str("data"), Value::Arr(data)));
    let total_value = match total {
        Some(n) => Value::Num(Number::Int(n)),
        None => Value::Null,
    };
    entries.push((String::from_str("total"), total_value));
    proof {
        lemma_entry_models(entries@, 0);
        reveal_strlit("data");
        reveal_strlit("total");
        assert(entry_models(entries@, 0) =~= query_result_model(
            vals_model(q.data@),
            q.total,
        )->Obj_0);
    }
    Value::Obj(entries)
}

} // verus!
