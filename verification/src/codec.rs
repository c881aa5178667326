use vstd::prelude::*;
use crate::value::{Value, Number, ValModel, NumModel, val_model, entry_models, lemma_entry_models};

verus! {

/// Wire type tag of a result column, as declared by the relational engine.
#[derive(Debug, Clone, Copy, PartialEq, Eq, Structural)]
pub enum WireType {
    Int4,
    Int8,
    Float4,
    Float8,
    Bool,
    Text,
    Varchar,
    Name,
    Char,
    Uuid,
    Timestamp,
    TimestampTz,
    Date,
    Time,
    Json,
    Jsonb,
    Numeric,
    Other,
}

/// Outcome of the native typed decode attempt on one cell, reported by the
/// connection boundary as plain values.
///
/// A floating cell carries its canonical decimal text together with whether
/// the decoded value was a representable finite number.  `Null` is a SQL
/// null; `Failed` is a decode error.  An outcome whose shape does not match
/// the column's declared type counts as a failed decode.
#[derive(Debug, PartialEq)]
pub enum Fetched {
    IntVal(i64),
    FloatVal { finite: bool, text: String },
    BoolVal(bool),
    TextVal(String),
    Null,
    Failed,
}

/// One cell of a result row: its column name, the column's declared wire
/// type, the typed decode outcome, and the generic string rendering of the
/// raw cell when one is available.
#[derive(Debug, PartialEq)]
pub struct WireCell {
    pub name: String,
    pub ty: WireType,
    pub typed: Fetched,
    pub raw: Option<String>,
}

pub open spec fn raw_model(raw: Option<String>) -> Option<Seq<char>> {
    match raw {
        Some(s) => Some(s@),
        None => None,
    }
}

/// The generic fallback of the decoder: the raw string rendering when one is
/// available, and null otherwise.
pub open spec fn string_or_null(raw: Option<Seq<char>>) -> ValModel {
    match raw {
        Some(s) => ValModel::Str(s),
        None => ValModel::Null,
    }
}

/// Whether `c` equals the lower-case letter `k` up to ASCII case.
pub open spec fn char_eq_ci(c: char, k: char) -> bool {
    c == k || ('a' <= k && k <= 'z' && c as u32 == k as u32 - 32)
}

/// Whether `s` equals the lower-case keyword `kw` up to ASCII case.
pub open spec fn matches_ci(s: Seq<char>, kw: Seq<char>) -> bool {
    s.len() == kw.len() && forall|i: int| 0 <= i < kw.len() ==> char_eq_ci(s[i], kw[i])
}

/// Lenient reading of a boolean's textual rendering: `t`, `true` (any ASCII
/// case) and `1` are true; `f`, `false` and `0` are false; any other text is
/// kept as a string.
pub open spec fn lenient_bool_model(s: Seq<char>) -> ValModel {
    if matches_ci(s, "t"@) || matches_ci(s, "true"@) || s == "1"@ {
        ValModel::Bool(true)
    } else if matches_ci(s, "f"@) || matches_ci(s, "false"@) || s == "0"@ {
        ValModel::Bool(false)
    } else {
        ValModel::Str(s)
    }
}

/// The value a cell decodes to, by declared type, with the degrading
/// fallbacks: a decoder that never fails.
///
/// Integral and floating columns fall back to the raw string rendering (or
/// null) when the native decode fails, and a non-finite floating value takes
/// the same fallback; boolean columns fall back to the lenient textual
/// reading; text-like, temporal, document and arbitrary-precision columns
/// decode as strings and otherwise give null; any unknown type always takes
/// the raw rendering path.
pub open spec fn spec_decode(ty: WireType, typed: Fetched, raw: Option<Seq<char>>) -> ValModel {
    match ty {
        WireType::Int4 | WireType::Int8 => match typed {
            Fetched::IntVal(v) => ValModel::Num(NumModel::Int(v)),
            Fetched::Null => ValModel::Null,
            _ => string_or_null(raw),
        },
        WireType::Float4 | WireType::Float8 => match typed {
            Fetched::FloatVal { finite, text } => if finite {
                ValModel::Num(NumModel::Dec(text@))
            } else {
                string_or_null(raw)
            },
            Fetched::Null => ValModel::Null,
            _ => string_or_null(raw),
        },
        WireType::Bool => match typed {
            Fetched::BoolVal(b) => ValModel::Bool(b),
            Fetched::Null => ValModel::Null,
            _ => match raw {
                Some(s) => lenient_bool_model(s),
                None => ValModel::Null,
            },
        },
        WireType::Other => string_or_null(raw),
        _ => match typed {
            Fetched::TextVal(s) => ValModel::Str(s@),
            _ => ValModel::Null,
        },
    }
}

/// Whether `s` equals the lower-case keyword `kw` up to ASCII case.
pub fn eq_ignore_case(s: &str, kw: &str) -> (r: bool)
    ensures
        r == matches_ci(s@, kw@),
{
    let sn = s.unicode_len();
    let kn = kw.unicode_len();
    if sn != kn {
        return false;
    }
    let mut i: usize = 0;
    while i < kn
        invariant
            sn == s@.len(),
            kn == kw@.len(),
            sn == kn,
            0 <= i <= kn,
            forall|j: int| 0 <= j < i ==> char_eq_ci(s@[j], kw@[j]),
        decreases kn - i,
    {
        let c = s.get_char(i);
        let k = kw.get_char(i);
        let same = if c == k {
            true
        } else if 'a' <= k && k <= 'z' {
            c as u32 == k as u32 - 32
        } else {
            false
        };
        if !same {
            return false;
        }
        i = i + 1;
    }
    true
}

/// The lenient boolean reading of a raw textual rendering.
fn lenient_bool(s: String) -> (v: Value)
    ensures
        val_model(v) == lenient_bool_model(s@),
{
    if eq_ignore_case(s.as_str(), "t") || eq_ignore_case(s.as_str(), "true") {
        Value::Bool(true)
    } else if crate::render::str_eq(s.as_str(), "1") {
        Value::Bool(true)
    } else if eq_ignore_case(s.as_str(), "f") || eq_ignore_case(s.as_str(), "false") {
        Value::Bool(false)
    } else if crate::render::str_eq(s.as_str(), "0") {
        Value::Bool(false)
    } else {
        Value::Str(s)
    }
}

/// The raw string rendering when one is available, and null otherwise.
fn string_or_null_value(raw: Option<String>) -> (v: Value)
    ensures
        val_model(v) == string_or_null(raw_model(raw)),
{
    match raw {
        Some(s) => Value::Str(s),
        None => Value::Null,
    }
}

/// Decodes one cell into exactly one value, never failing: every branch of
/// the strategy table ends in a value, degrading to the raw rendering, the
/// lenient boolean reading, or null.
pub fn decode_cell(ty: WireType, typed: Fetched, raw: Option<String>) -> (v: Value)
    ensures
        val_model(v) == spec_decode(ty, typed, raw_model(raw)),
{
    match ty {
        WireType::Int4 | WireType::Int8 => match typed {
            Fetched::IntVal(n) => Value::Num(Number::Int(n)),
            Fetched::Null => Value::Null,
            _ => string_or_null_value(raw),
        },
        WireType::Float4 | WireType::Float8 => match typed {
            Fetched::FloatVal { finite, text } => if finite {
                Value::Num(Number::Dec(text))
            } else {
                string_or_null_value(raw)
            },
            Fetched::Null => Value::Null,
            _ => string_or_null_value(raw),
        },
        WireType::Bool => match typed {
            Fetched::BoolVal(b) => Value::Bool(b),
            Fetched::Null => Value::Null,
            _ => match raw {
                Some(s) => lenient_bool(s),
                None => Value::Null,
            },
        },
        WireType::Other => string_or_null_value(raw),
        _ => match typed {
            Fetched::TextVal(s) => Value::Str(s),
            _ => Value::Null,
        },
    }
}

/// The declared types that decode as strings: text-like, temporal,
/// document, and arbitrary-precision numeric columns.
pub open spec fn is_text_like(ty: WireType) -> bool {
    match ty {
        WireType::Text | WireType::Varchar | WireType::Name | WireType::Char | WireType::Uuid
            | WireType::Timestamp | WireType::TimestampTz | WireType::Date | WireType::Time
            | WireType::Json | WireType::Jsonb | WireType::Numeric => true,
        _ => false,
    }
}

/// Law: a non-null cell whose native decode succeeds decodes to a value of
/// the kind matching its declared type — a number for integral columns and
/// for finite floating columns, a boolean for boolean columns, and a string
/// for text-like, temporal, document and numeric columns — and a SQL null
/// cell always decodes to null, whatever the declared type.
pub proof fn lemma_decode_kinds(ty: WireType, typed: Fetched, raw: Option<Seq<char>>)
    ensures
        (ty == WireType::Int4 || ty == WireType::Int8) ==> (typed matches Fetched::IntVal(n)
            ==> spec_decode(ty, typed, raw) == ValModel::Num(NumModel::Int(n))),
        (ty == WireType::Float4 || ty == WireType::Float8) ==> (typed matches Fetched::FloatVal {
            finite,
            text,
        } ==> (finite ==> spec_decode(ty, typed, raw) == ValModel::Num(NumModel::Dec(text@)))),
        ty == WireType::Bool ==> (typed matches Fetched::BoolVal(b) ==> spec_decode(ty, typed, raw)
            == ValModel::Bool(b)),
        is_text_like(ty) ==> (typed matches Fetched::TextVal(s) ==> spec_decode(ty, typed, raw)
            == ValModel::Str(s@)),
        typed == Fetched::Null && raw is None ==> spec_decode(ty, typed, raw) == ValModel::Null,
{
}

/// Law: a boolean cell whose native decode fails takes the lenient reading
/// of its raw rendering — `t`, `true` and `1` give true, `f`, `false` and
/// `0` give false (keywords up to ASCII case), and any other text is kept
/// as a string.
pub proof fn lemma_bool_lenient_fallback(s: Seq<char>)
    ensures
        (matches_ci(s, "t"@) || matches_ci(s, "true"@) || s == "1"@) ==> spec_decode(
            WireType::Bool,
            Fetched::Failed,
            Some(s),
        ) == ValModel::Bool(true),
        !(matches_ci(s, "t"@) || matches_ci(s, "true"@) || s == "1"@) && (matches_ci(s, "f"@)
            || matches_ci(s, "false"@) || s == "0"@) ==> spec_decode(
            WireType::Bool,
            Fetched::Failed,
            Some(s),
        ) == ValModel::Bool(false),
        !(matches_ci(s, "t"@) || matches_ci(s, "true"@) || s == "1"@) && !(matches_ci(s, "f"@)
            || matches_ci(s, "false"@) || s == "0"@) ==> spec_decode(
            WireType::Bool,
            Fetched::Failed,
            Some(s),
        ) == ValModel::Str(s),
{
}

/// Keyed models of the decoded cells of `cells[i..]`, in column order.
pub open spec fn cell_models(cells: Seq<WireCell>, i: int) -> Seq<(Seq<char>, ValModel)>
    decreases cells.len() - i,
{
    if i < 0 || i >= cells.len() {
        Seq::empty()
    } else {
        seq![
            (cells[i].name@, spec_decode(cells[i].ty, cells[i].typed, raw_model(cells[i].raw))),
        ] + cell_models(cells, i + 1)
    }
}

/// `cell_models(cells, i)` lists exactly the decoded models of `cells[i..]`.
pub proof fn lemma_cell_models(cells: Seq<WireCell>, i: int)
    requires
        0 <= i <= cells.len(),
    ensures
        cell_models(cells, i).len() == cells.len() - i,
        forall|j: int|
            0 <= j < cells.len() - i ==> cell_models(cells, i)[j] == (
                cells[i + j].name@,
                spec_decode(cells[i + j].ty, cells[i + j].typed, raw_model(cells[i + j].raw)),
            ),
    decreases cells.len() - i,
{
    if i < cells.len() {
        lemma_cell_models(cells, i + 1);
    }
}

/// The object a whole row decodes to: one entry per column, keyed by column
/// name, in column order.
pub open spec fn row_model(cells: Seq<WireCell>) -> ValModel {
    ValModel::Obj(cell_models(cells, 0))
}

/// Decodes one row into an object keyed by column name, decoding each cell
/// with the strategy table.
pub fn row_to_json(row: Vec<WireCell>) -> (v: Value)
    ensures
        val_model(v) == row_model(row@),
{
    let ghost row0 = row@;
    let mut row = row;
    let mut entries: Vec<(String, Value)> = Vec::new();
    let ghost i: int = 0;
    proof {
        lemma_cell_models(row0, 0);
    }
    while row.len() > 0
        invariant
            0 <= i <= row0.len(),
            row@ =~= row0.subrange(i, row0.len() as int),
            entry_models(entries@, 0) =~= cell_models(row0, 0).subrange(0, i),
        decreases row@.len(),
    {
        proof {
            lemma_cell_models(row0, 0);
            lemma_entry_models(entries@, 0);
        }
        let cell = row.remove(0);
        let WireCell { name, ty, typed, raw } = cell;
        let val = decode_cell(ty, typed, raw);
        entries.push((name, val));
        proof {
            i = i + 1;
            lemma_entry_models(entries@, 0);
            assert(entry_models(entries@, 0) =~= cell_models(row0, 0).subrange(0, i));
            assert(row@ =~= row0.subrange(i, row0.len() as int));
        }
    }
    proof {
        lemma_cell_models(row0, 0);
        assert(entry_models(entries@, 0) =~= cell_models(row0, 0));
    }
    Value::Obj(entries)
}

/// Decodes every row of a result set, in order.
pub fn rows_to_json(rows: Vec<Vec<WireCell>>) -> (r: Vec<Value>)
    ensures
        r@.len() == rows@.len(),
        forall|i: int| 0 <= i < rows@.len() ==> val_model(r@[i]) == row_model(rows@[i]@),
{
    let ghost rows0 = rows@;
    let mut rows = rows;
    let mut out: Vec<Value> = Vec::new();
    while rows.len() > 0
        invariant
            out@.len() <= rows0.len(),
            rows@ =~= rows0.subrange(out@.len() as int, rows0.len() as int),
            forall|i: int| 0 <= i < out@.len() ==> val_model(out@[i]) == row_model(rows0[i]@),
        decreases rows@.len(),
    {
        let row = rows.remove(0);
        out.push(row_to_json(row));
    }
    out
}

} // verus!
