use vstd::prelude::*;
use vstd::string::*;
use crate::value::{Value, ValModel, val_model, entry_models, lemma_entry_models};
use crate::filter::{obj_get, find_key, lemma_obj_get_at};
use crate::error::DbError;

verus! {

/// A request to the core, decoded once at the boundary: either a raw SQL
/// batch, or a structured operation over one table with an optional filter.
#[derive(Debug, PartialEq)]
pub enum QueryRequest {
    RawSql(String),
    Structured { table: String, operation: String, filter: Vec<(String, Value)> },
}

/// The entries a JSON-shaped request exposes to key lookup: those of an
/// object, and none for anything else.
pub open spec fn req_entries(v: ValModel) -> Seq<(Seq<char>, ValModel)> {
    match v {
        ValModel::Obj(es) => es,
        _ => Seq::empty(),
    }
}

/// The filter entries a request's `filter` member carries: those of an
/// object member, and none when the member is absent or of another shape.
pub open spec fn filter_entries_of(es: Seq<(Seq<char>, ValModel)>) -> Seq<(Seq<char>, ValModel)> {
    match obj_get(es, "filter"@) {
        Some(ValModel::Obj(fs)) => fs,
        _ => Seq::empty(),
    }
}

/// Decodes the JSON shape of a request.  A string `sql` member wins and
/// makes the request a raw batch; otherwise the request must carry string
/// `table` and `operation` members, and may carry an object `filter`.
/// Fails with `InvalidRequest` exactly when neither shape is met.
pub fn parse_request(q: Value) -> (r: Result<QueryRequest, DbError>)
    ensures
        match r {
            Ok(QueryRequest::RawSql(s)) => obj_get(req_entries(val_model(q)), "sql"@) == Some(
                ValModel::Str(s@),
            ),
            Ok(QueryRequest::Structured { table, operation, filter }) => {
                let es = req_entries(val_model(q));
                &&& !(obj_get(es, "sql"@) matches Some(ValModel::Str(_)))
                &&& obj_get(es, "table"@) == Some(ValModel::Str(table@))
                &&& obj_get(es, "operation"@) == Some(ValModel::Str(operation@))
                &&& entry_models(filter@, 0) == filter_entries_of(es)
            },
            Err(e) => {
                let es = req_entries(val_model(q));
                &&& e matches DbError::InvalidRequest(_)
                &&& !(obj_get(es, "sql"@) matches Some(ValModel::Str(_)))
                &&& (!(obj_get(es, "table"@) matches Some(ValModel::Str(_))) || !(obj_get(
                    es,
                    "operation"@,
                ) matches Some(ValModel::Str(_))))
            },
        },
{
    match q {
        Value::Obj(entries) => {
            let mut entries = entries;
            let ghost es = entry_models(entries@, 0);
            proof {
                lemma_entry_models(entries@, 0);
            }
            let r_sql = find_key(&entries, "sql");
            proof {
                lemma_obj_get_at(es, "sql"@, match r_sql {
                    Some(i) => i as int,
                    None => es.len() as int,
                });
            }
            if let Some(i) = r_sql {
                let is_str = match &entries[i].1 {
                    Value::Str(_) => true,
                    _ => false,
                };
                if is_str {
                    let kv = entries.remove(i);
                    match kv.1 {
                        Value::Str(s) => {
                            return Ok(QueryRequest::RawSql(s));
                        },
                        _ => {
                            proof {
                                assert(false);
                            }
                        },
                    }
                }
            }
            let r_table = find_key(&entries, "table");
            let r_op = find_key(&entries, "operation");
            let r_filter = find_key(&entries, "filter");
            proof {
                lemma_obj_get_at(es, "table"@, match r_table {
                    Some(i) => i as int,
                    None => es.len() as int,
                });
                lemma_obj_get_at(es, "operation"@, match r_op {
                    Some(i) => i as int,
                    None => es.len() as int,
                });
                lemma_obj_get_at(es, "filter"@, match r_filter {
                    Some(i) => i as int,
                    None => es.len() as int,
                });
            }
            let table: String = match r_table {
                Some(i) => match &entries[i].1 {
                    Value::Str(s) => s.clone(),
                    _ => {
                        return Err(
                            DbError::InvalidRequest(
                                String::from_str("the request must hold a table or a sql field"),
                            ),
                        );
                    },
                },
                None => {
                    return Err(
                        DbError::InvalidRequest(
                            String::from_str("the request must hold a table or a sql field"),
                        ),
                    );
                },
            };
            let operation: String = match r_op {
                Some(i) => match &entries[i].1 {
                    Value::Str(s) => s.clone(),
                    _ => {
                        return Err(
                            DbError::InvalidRequest(
                                String::from_str("the request must hold an operation field"),
                            ),
                        );
                    },
                },
                None => {
                    return Err(
                        DbError::InvalidRequest(
                            String::from_str("the request must hold an operation field"),
                        ),
                    );
                },
            };
            let filter: Vec<(String, Value)> = match r_filter {
                Some(i) => {
                    let is_obj = match &entries[i].1 {
                        Value::Obj(_) => true,
                        _ => false,
                    };
                    if is_obj {
                        let kv = entries.remove(i);
                        match kv.1 {
                            Value::Obj(fs) => fs,
                            _ => {
                                proof {
                                    assert(false);
                                }
                                Vec::new()
                            },
                        }
                    } else {
                        Vec::new()
                    }
                },
                None => Vec::new(),
            };
            Ok(QueryRequest::Structured { table, operation, filter })
        },
        _ => Err(
            DbError::InvalidRequest(
                String::from_str("the request must hold a table or a sql field"),
            ),
        ),
    }
}

} // verus!
