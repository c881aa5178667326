use vstd::prelude::*;

verus! {

/// Numeric content of a [`Value`].
///
/// 64-bit integers are kept exactly in either signed or unsigned form so that
/// no integral value is silently pushed through a lossy floating conversion;
/// any other number is carried as its decimal text, which preserves
/// arbitrary-precision values verbatim.
#[derive(Debug, PartialEq)]
pub enum Number {
    Int(i64),
    UInt(u64),
    Dec(String),
}

/// The loosely-typed value model: a tagged union able to represent any
/// decoded result cell or JSON literal that crosses the request/response
/// boundary.
#[derive(Debug, PartialEq)]
pub enum Value {
    Null,
    Bool(bool),
    Num(Number),
    Str(String),
    Arr(Vec<Value>),
    Obj(Vec<(String, Value)>),
}

/// Mathematical model of a [`Number`].
#[verifier::ext_equal]
pub enum NumModel {
    Int(i64),
    UInt(u64),
    Dec(Seq<char>),
}

/// Mathematical model of a [`Value`]: the same tree with every string viewed
/// as a character sequence.
#[verifier::ext_equal]
pub enum ValModel {
    Null,
    Bool(bool),
    Num(NumModel),
    Str(Seq<char>),
    Arr(Seq<ValModel>),
    Obj(Seq<(Seq<char>, ValModel)>),
}

pub open spec fn num_model(n: Number) -> NumModel {
    match n {
        Number::Int(i) => NumModel::Int(i),
        Number::UInt(u) => NumModel::UInt(u),
        Number::Dec(t) => NumModel::Dec(t@),
    }
}

pub open spec fn val_model(v: Value) -> ValModel
    decreases v, 0int,
{
    match v {
        Value::Null => ValModel::Null,
        Value::Bool(b) => ValModel::Bool(b),
        Value::Num(n) => ValModel::Num(num_model(n)),
        Value::Str(s) => ValModel::Str(s@),
        Value::Arr(items) => ValModel::Arr(arr_models(items@, 0)),
        Value::Obj(entries) => ValModel::Obj(entry_models(entries@, 0)),
    }
}

/// Models of the values of `vs` from position `i` on, in order.
pub open spec fn arr_models(vs: Seq<Value>, i: int) -> Seq<ValModel>
    decreases vs, vs.len() - i,
{
    if i < 0 || i >= vs.len() {
        Seq::empty()
    } else {
        seq![val_model(vs[i])] + arr_models(vs, i + 1)
    }
}

/// Models of the keyed entries of `es` from position `i` on, in order.
pub open spec fn entry_models(es: Seq<(String, Value)>, i: int) -> Seq<(Seq<char>, ValModel)>
    decreases es, es.len() - i,
{
    if i < 0 || i >= es.len() {
        Seq::empty()
    } else {
        seq![(es[i].0@, val_model(es[i].1))] + entry_models(es, i + 1)
    }
}

/// Models of a whole sequence of values, elementwise.
pub open spec fn vals_model(vs: Seq<Value>) -> Seq<ValModel> {
    arr_models(vs, 0)
}

/// `arr_models(vs, i)` lists exactly the models of `vs[i..]`.
pub proof fn lemma_arr_models(vs: Seq<Value>, i: int)
    requires
        0 <= i <= vs.len(),
    ensures
        arr_models(vs, i).len() == vs.len() - i,
        forall|j: int| 0 <= j < vs.len() - i ==> arr_models(vs, i)[j] == val_model(vs[i + j]),
    decreases vs.len() - i,
{
    if i < vs.len() {
        lemma_arr_models(vs, i + 1);
    }
}

/// `entry_models(es, i)` lists exactly the models of the entries of `es[i..]`.
pub proof fn lemma_entry_models(es: Seq<(String, Value)>, i: int)
    requires
        0 <= i <= es.len(),
    ensures
        entry_models(es, i).len() == es.len() - i,
        forall|j: int|
            0 <= j < es.len() - i ==> entry_models(es, i)[j] == (
                es[i + j].0@,
                val_model(es[i + j].1),
            ),
    decreases es.len() - i,
{
    if i < es.len() {
        lemma_entry_models(es, i + 1);
    }
}

} // verus!
