use vstd::prelude::*;
use vstd::string::*;
use crate::value::{Value, ValModel, val_model, vals_model, entry_models, lemma_entry_models, lemma_arr_models};
use crate::render::{num_text, bool_text, json_text, num_string, bool_str, str_eq, push_json};

verus! {

/// Comparison operators accepted in an operator-object condition, in their
/// fixed precedence order.
#[derive(Debug, Clone, Copy, PartialEq, Eq, Structural)]
pub enum CompareOp {
    Gt,
    Gte,
    Lt,
    Lte,
    Ne,
}

/// A single field condition, decoded once from its JSON shape: a plain
/// equality, a comparison against one operand, or membership in a list.
#[derive(Debug, PartialEq)]
pub enum Condition {
    Equals(Value),
    Compare(CompareOp, Value),
    InList(Vec<Value>),
}

/// Mathematical model of a [`Condition`].
pub enum CondModel {
    Equals(ValModel),
    Compare(CompareOp, ValModel),
    InList(Seq<ValModel>),
}

pub open spec fn cond_model(c: Condition) -> CondModel {
    match c {
        Condition::Equals(v) => CondModel::Equals(val_model(v)),
        Condition::Compare(op, v) => CondModel::Compare(op, val_model(v)),
        Condition::InList(items) => CondModel::InList(vals_model(items@)),
    }
}

/// First-match lookup of `k` among the entries of a JSON object.
pub open spec fn obj_get(es: Seq<(Seq<char>, ValModel)>, k: Seq<char>) -> Option<ValModel>
    decreases es.len(),
{
    if es.len() == 0 {
        None
    } else if es[0].0 == k {
        Some(es[0].1)
    } else {
        obj_get(es.drop_first(), k)
    }
}

/// If the entries before `i` all miss `k` and entry `i` (when present) hits
/// it, then `obj_get` returns exactly entry `i`.
pub proof fn lemma_obj_get_at(es: Seq<(Seq<char>, ValModel)>, k: Seq<char>, i: int)
    requires
        0 <= i <= es.len(),
        forall|j: int| 0 <= j < i ==> es[j].0 != k,
        i < es.len() ==> es[i].0 == k,
    ensures
        obj_get(es, k) == if i < es.len() {
            Some(es[i].1)
        } else {
            None::<ValModel>
        },
    decreases es.len(),
{
    if es.len() > 0 && i > 0 {
        lemma_obj_get_at(es.drop_first(), k, i - 1);
    }
}

/// The condition a JSON-shaped value stands for.  An object is probed for
/// the operator keys in their precedence order; the first present key wins.
/// A `$in` whose operand is an array becomes a membership list; with any
/// other operand the object falls through.  Anything else is a plain
/// equality against the value itself.
pub open spec fn spec_condition(v: ValModel) -> CondModel {
    match v {
        ValModel::Obj(es) => {
            if obj_get(es, "$gt"@) is Some {
                CondModel::Compare(CompareOp::Gt, obj_get(es, "$gt"@)->Some_0)
            } else if obj_get(es, "$gte"@) is Some {
                CondModel::Compare(CompareOp::Gte, obj_get(es, "$gte"@)->Some_0)
            } else if obj_get(es, "$lt"@) is Some {
                CondModel::Compare(CompareOp::Lt, obj_get(es, "$lt"@)->Some_0)
            } else if obj_get(es, "$lte"@) is Some {
                CondModel::Compare(CompareOp::Lte, obj_get(es, "$lte"@)->Some_0)
            } else if obj_get(es, "$ne"@) is Some {
                CondModel::Compare(CompareOp::Ne, obj_get(es, "$ne"@)->Some_0)
            } else {
                match obj_get(es, "$in"@) {
                    Some(ValModel::Arr(items)) => CondModel::InList(items),
                    _ => CondModel::Equals(v),
                }
            }
        },
        _ => CondModel::Equals(v),
    }
}

/// Index of the first entry of `entries` whose key is `key`.
pub fn find_key(entries: &Vec<(String, Value)>, key: &str) -> (r: Option<usize>)
    ensures
        match r {
            Some(i) => i < entries@.len() && entries@[i as int].0@ == key@ && forall|j: int|
                0 <= j < i ==> entries@[j].0@ != key@,
            None => forall|j: int| 0 <= j < entries@.len() ==> entries@[j].0@ != key@,
        },
{
    let mut i: usize = 0;
    while i < entries.len()
        invariant
            0 <= i <= entries@.len(),
            forall|j: int| 0 <= j < i ==> entries@[j].0@ != key@,
        decreases entries@.len() - i,
    {
        if str_eq(entries[i].0.as_str(), key) {
            return Some(i);
        }
        i = i + 1;
    }
    None
}

/// Decodes the JSON shape of one field condition into its closed variant
/// form.  The operator keys are probed in their fixed precedence order and
/// the first one present wins; the rest of the object is ignored.
pub fn parse_condition(v: Value) -> (c: Condition)
    ensures
        cond_model(c) == spec_condition(val_model(v)),
{
    match v {
        Value::Obj(entries) => {
            let mut entries = entries;
            let ghost es0 = entries@;
            let ghost ms = entry_models(es0, 0);
            proof {
                lemma_entry_models(es0, 0);
            }
            let r_gt = find_key(&entries, "$gt");
            let r_gte = find_key(&entries, "$gte");
            let r_lt = find_key(&entries, "$lt");
            let r_lte = find_key(&entries, "$lte");
            let r_ne = find_key(&entries, "$ne");
            let r_in = find_key(&entries, "$in");
            proof {
                lemma_obj_get_at(ms, "$gt"@, match r_gt {
                    Some(i) => i as int,
                    None => ms.len() as int,
                });
                lemma_obj_get_at(ms, "$gte"@, match r_gte {
                    Some(i) => i as int,
                    None => ms.len() as int,
                });
                lemma_obj_get_at(ms, "$lt"@, match r_lt {
                    Some(i) => i as int,
                    None => ms.len() as int,
                });
                lemma_obj_get_at(ms, "$lte"@, match r_lte {
                    Some(i) => i as int,
                    None => ms.len() as int,
                });
                lemma_obj_get_at(ms, "$ne"@, match r_ne {
                    Some(i) => i as int,
                    None => ms.len() as int,
                });
                lemma_obj_get_at(ms, "$in"@, match r_in {
                    Some(i) => i as int,
                    None => ms.len() as int,
                });
            }
            if let Some(i) = r_gt {
                let kv = entries.remove(i);
                Condition::Compare(CompareOp::Gt, kv.1)
            } else if let Some(i) = r_gte {
                let kv = entries.remove(i);
                Condition::Compare(CompareOp::Gte, kv.1)
            } else if let Some(i) = r_lt {
                let kv = entries.remove(i);
                Condition::Compare(CompareOp::Lt, kv.1)
            } else if let Some(i) = r_lte {
                let kv = entries.remove(i);
                Condition::Compare(CompareOp::Lte, kv.1)
            } else if let Some(i) = r_ne {
                let kv = entries.remove(i);
                Condition::Compare(CompareOp::Ne, kv.1)
            } else {
                let mut in_items: Option<Vec<Value>> = None;
                if let Some(i) = r_in {
                    let is_arr = match &entries[i].1 {
                        Value::Arr(_) => true,
                        _ => false,
                    };
                    if is_arr {
                        let kv = entries.remove(i);
                        match kv.1 {
                            Value::Arr(items) => {
                                in_items = Some(items);
                            },
                            _ => {
                                proof {
                                    assert(false);
                                }
                            },
                        }
                    }
                }
                match in_items {
                    Some(items) => Condition::InList(items),
                    None => Condition::Equals(Value::Obj(entries)),
                }
            }
        },
        other => Condition::Equals(other),
    }
}

/// SQL operator text of a comparison.
pub open spec fn compare_op_text(op: CompareOp) -> Seq<char> {
    match op {
        CompareOp::Gt => ">"@,
        CompareOp::Gte => ">="@,
        CompareOp::Lt => "<"@,
        CompareOp::Lte => "<="@,
        CompareOp::Ne => "!="@,
    }
}

/// SQL literal text of a value: strings are single-quoted verbatim (no
/// escaping, a documented limitation of the generated SQL), numbers and
/// booleans render bare, and anything else renders as its quoted JSON text.
pub open spec fn sql_literal(v: ValModel) -> Seq<char> {
    match v {
        ValModel::Str(s) => "'"@ + s + "'"@,
        ValModel::Num(n) => num_text(n),
        ValModel::Bool(b) => bool_text(b),
        _ => "'"@ + json_text(v) + "'"@,
    }
}

/// Comma-separated SQL literals of `items[i..]`.
pub open spec fn in_list_text(items: Seq<ValModel>, i: int) -> Seq<char>
    decreases items.len() - i,
{
    if i < 0 || i >= items.len() {
        Seq::empty()
    } else if i + 1 >= items.len() {
        sql_literal(items[i])
    } else {
        sql_literal(items[i]) + ", "@ + in_list_text(items, i + 1)
    }
}

/// SQL predicate text of one field condition.
pub open spec fn condition_text(key: Seq<char>, c: CondModel) -> Seq<char> {
    match c {
        CondModel::Equals(v) => key + " = "@ + sql_literal(v),
        CondModel::Compare(op, v) => key + " "@ + compare_op_text(op) + " "@ + sql_literal(v),
        CondModel::InList(items) => key + " IN ("@ + in_list_text(items, 0) + ")"@,
    }
}

/// SQL predicate text of one filter field.
pub open spec fn field_text(key: Seq<char>, v: ValModel) -> Seq<char> {
    condition_text(key, spec_condition(v))
}

/// The filter's field predicates joined with `AND`, in field order.
pub open spec fn and_join(ms: Seq<(Seq<char>, ValModel)>) -> Seq<char>
    decreases ms.len(),
{
    if ms.len() == 0 {
        Seq::empty()
    } else if ms.len() == 1 {
        field_text(ms[0].0, ms[0].1)
    } else {
        field_text(ms[0].0, ms[0].1) + " AND "@ + and_join(ms.drop_first())
    }
}

/// The full predicate fragment of a filter: empty for an empty filter, and
/// otherwise `" WHERE "` followed by the AND-joined field predicates.
pub open spec fn where_clause_text(ms: Seq<(Seq<char>, ValModel)>) -> Seq<char> {
    if ms.len() == 0 {
        Seq::empty()
    } else {
        " WHERE "@ + and_join(ms)
    }
}

/// SQL operator text of a comparison.
pub fn op_str(op: CompareOp) -> (r: &'static str)
    ensures
        r@ == compare_op_text(op),
{
    match op {
        CompareOp::Gt => ">",
        CompareOp::Gte => ">=",
        CompareOp::Lt => "<",
        CompareOp::Lte => "<=",
        CompareOp::Ne => "!=",
    }
}

/// Appends the SQL literal text of `v` to `out`.
pub fn push_sql_literal(out: &mut String, v: &Value)
    ensures
        final(out)@ == old(out)@ + sql_literal(val_model(*v)),
{
    let ghost start = out@;
    match v {
        Value::Str(s) => {
            out.append("'");
            out.append(s.as_str());
            out.append("'");
            assert(out@ =~= start + sql_literal(val_model(*v)));
        },
        Value::Num(n) => {
            let t = num_string(n);
            out.append(t.as_str());
        },
        Value::Bool(b) => {
            out.append(bool_str(*b));
        },
        _ => {
            out.append("'");
            push_json(out, v);
            out.append("'");
            assert(out@ =~= start + sql_literal(val_model(*v)));
        },
    }
}

/// The SQL literal text of one JSON-shaped value as a fresh string.
pub fn json_value_to_sql(v: &Value) -> (r: String)
    ensures
        r@ == sql_literal(val_model(*v)),
{
    let mut out = String::new();
    push_sql_literal(&mut out, v);
    out
}

/// Appends the comma-separated SQL literals of `items[i..]` to `out`.
fn push_in_items(out: &mut String, items: &Vec<Value>, i: usize)
    requires
        i <= items@.len(),
    ensures
        final(out)@ == old(out)@ + in_list_text(vals_model(items@), i as int),
    decreases items@.len() - i,
{
    let ghost start = out@;
    proof {
        lemma_arr_models(items@, 0);
    }
    if i < items.len() {
        push_sql_literal(out, &items[i]);
        if i + 1 < items.len() {
            out.append(", ");
        }
        push_in_items(out, items, i + 1);
        assert(out@ =~= start + in_list_text(vals_model(items@), i as int));
    }
}

/// Appends the SQL predicate text of one field condition to `out`.
pub fn push_condition(out: &mut String, key: &str, c: &Condition)
    ensures
        final(out)@ == old(out)@ + condition_text(key@, cond_model(*c)),
{
    let ghost start = out@;
    match c {
        Condition::Equals(v) => {
            out.append(key);
            out.append(" = ");
            push_sql_literal(out, v);
            assert(out@ =~= start + condition_text(key@, cond_model(*c)));
        },
        Condition::Compare(op, v) => {
            out.append(key);
            out.append(" ");
            out.append(op_str(*op));
            out.append(" ");
            push_sql_literal(out, v);
            assert(out@ =~= start + condition_text(key@, cond_model(*c)));
        },
        Condition::InList(items) => {
            out.append(key);
            out.append(" IN (");
            push_in_items(out, items, 0);
            out.append(")");
            assert(out@ =~= start + condition_text(key@, cond_model(*c)));
        },
    }
}

/// Appends the AND-joined predicates of all the fields of `fields` to `out`.
fn push_and_join(out: &mut String, fields: Vec<(String, Value)>)
    ensures
        final(out)@ == old(out)@ + and_join(entry_models(fields@, 0)),
    decreases fields@.len(),
{
    let ghost start = out@;
    let ghost fs0 = fields@;
    let ghost ms = entry_models(fs0, 0);
    proof {
        lemma_entry_models(fs0, 0);
    }
    let mut fields = fields;
    if fields.len() == 0 {
        assert(out@ =~= start + and_join(ms));
        return ;
    }
    let kv = fields.remove(0);
    let cond = parse_condition(kv.1);
    push_condition(out, kv.0.as_str(), &cond);
    if fields.len() > 0 {
        out.append(" AND ");
    }
    proof {
        assert(fields@ =~= fs0.drop_first());
        lemma_entry_models(fields@, 0);
        assert(entry_models(fields@, 0) =~= ms.drop_first());
    }
    push_and_join(out, fields);
    assert(out@ =~= start + and_join(ms));
}

/// Builds the SQL predicate fragment of a filter: the empty string for an
/// empty filter, and otherwise `" WHERE "` followed by the field predicates
/// joined with `AND`, in the filter's own field order.
pub fn build_where_clause(filter: Vec<(String, Value)>) -> (r: String)
    ensures
        r@ == where_clause_text(entry_models(filter@, 0)),
{
    proof {
        lemma_entry_models(filter@, 0);
    }
    if filter.len() == 0 {
        let r = String::new();
        return r;
    }
    let mut out = String::from_str(" WHERE ");
    push_and_join(&mut out, filter);
    out
}

} // verus!
