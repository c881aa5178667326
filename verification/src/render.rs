use vstd::prelude::*;
use crate::value::{Number, Value, NumModel, ValModel, num_model, val_model, vals_model, entry_models, lemma_arr_models, lemma_entry_models};
use vstd::string::*;

verus! {

/// The character for one decimal digit value.
pub open spec fn digit_char(d: int) -> char {
    if d == 0 {
        '0'
    } else if d == 1 {
        '1'
    } else if d == 2 {
        '2'
    } else if d == 3 {
        '3'
    } else if d == 4 {
        '4'
    } else if d == 5 {
        '5'
    } else if d == 6 {
        '6'
    } else if d == 7 {
        '7'
    } else if d == 8 {
        '8'
    } else {
        '9'
    }
}

/// Decimal rendering of a natural number, most significant digit first.
pub open spec fn dec_digits(n: nat) -> Seq<char>
    decreases n,
{
    if n < 10 {
        seq![digit_char(n as int)]
    } else {
        dec_digits(n / 10) + seq![digit_char((n % 10) as int)]
    }
}

/// Canonical text of an unsigned 64-bit number.
pub open spec fn uint_text(n: u64) -> Seq<char> {
    dec_digits(n as nat)
}

/// Canonical text of a signed 64-bit number.
pub open spec fn int_text(n: i64) -> Seq<char> {
    if n >= 0 {
        dec_digits(n as nat)
    } else {
        seq!['-'] + dec_digits((-(n as int)) as nat)
    }
}

/// Canonical text of a number value.
pub open spec fn num_text(n: NumModel) -> Seq<char> {
    match n {
        NumModel::Int(i) => int_text(i),
        NumModel::UInt(u) => uint_text(u),
        NumModel::Dec(t) => t,
    }
}

/// Canonical text of a boolean value.
pub open spec fn bool_text(b: bool) -> Seq<char> {
    if b {
        "true"@
    } else {
        "false"@
    }
}

/// Compact JSON-style text of a value: `null`, bare numbers and booleans,
/// double-quoted strings (kept verbatim, no escaping), `[..]` arrays and
/// `{..}` objects.
pub open spec fn json_text(v: ValModel) -> Seq<char>
    decreases v, 0int,
{
    match v {
        ValModel::Null => "null"@,
        ValModel::Bool(b) => bool_text(b),
        ValModel::Num(n) => num_text(n),
        ValModel::Str(s) => seq!['"'] + s + seq!['"'],
        ValModel::Arr(items) => seq!['['] + json_items_text(items, 0) + seq![']'],
        ValModel::Obj(entries) => seq!['{'] + json_entries_text(entries, 0) + seq!['}'],
    }
}

/// Comma-separated JSON text of the items of `items` from position `i` on.
pub open spec fn json_items_text(items: Seq<ValModel>, i: int) -> Seq<char>
    decreases items, items.len() - i,
{
    if i < 0 || i >= items.len() {
        Seq::empty()
    } else if i + 1 >= items.len() {
        json_text(items[i])
    } else {
        json_text(items[i]) + seq![','] + json_items_text(items, i + 1)
    }
}

/// Comma-separated `"key":value` JSON text of the entries of `es` from
/// position `i` on.
pub open spec fn json_entries_text(es: Seq<(Seq<char>, ValModel)>, i: int) -> Seq<char>
    decreases es, es.len() - i,
{
    if i < 0 || i >= es.len() {
        Seq::empty()
    } else if i + 1 >= es.len() {
        seq!['"'] + es[i].0 + seq!['"'] + seq![':'] + json_text(es[i].1)
    } else {
        seq!['"'] + es[i].0 + seq!['"'] + seq![':'] + json_text(es[i].1) + seq![',']
            + json_entries_text(es, i + 1)
    }
}

/// One-character string for a decimal digit value.
fn digit_str(d: u64) -> (r: &'static str)
    requires
        d < 10,
    ensures
        r@ == seq![digit_char(d as int)],
{
    let r: &'static str = if d == 0 {
        "0"
    } else if d == 1 {
        "1"
    } else if d == 2 {
        "2"
    } else if d == 3 {
        "3"
    } else if d == 4 {
        "4"
    } else if d == 5 {
        "5"
    } else if d == 6 {
        "6"
    } else if d == 7 {
        "7"
    } else if d == 8 {
        "8"
    } else {
        "9"
    };
    proof {
        reveal_strlit("0");
        reveal_strlit("1");
        reveal_strlit("2");
        reveal_strlit("3");
        reveal_strlit("4");
        reveal_strlit("5");
        reveal_strlit("6");
        reveal_strlit("7");
        reveal_strlit("8");
        reveal_strlit("9");
        assert(r@ =~= seq![digit_char(d as int)]);
    }
    r
}

/// Appends the decimal rendering of `n` to `out`.
fn push_uint_text(out: &mut String, n: u64)
    ensures
        final(out)@ == old(out)@ + dec_digits(n as nat),
    decreases n,
{
    let ghost start = out@;
    if n < 10 {
        out.append(digit_str(n));
    } else {
        push_uint_text(out, n / 10);
        out.append(digit_str(n % 10));
        assert(out@ =~= start + dec_digits(n as nat));
    }
}

/// Canonical decimal string of an unsigned 64-bit number.
pub fn uint_string(n: u64) -> (r: String)
    ensures
        r@ == uint_text(n),
{
    let mut out = String::new();
    push_uint_text(&mut out, n);
    out
}

/// Canonical decimal string of a signed 64-bit number.
pub fn int_string(n: i64) -> (r: String)
    ensures
        r@ == int_text(n),
{
    if n >= 0 {
        let r = uint_string(n as u64);
        r
    } else {
        let wide: i128 = -(n as i128);
        let m: u64 = wide as u64;
        let mut out = String::from_str("-");
        push_uint_text(&mut out, m);
        proof {
            reveal_strlit("-");
            assert(out@ =~= int_text(n));
        }
        out
    }
}

/// Canonical text of a number value.
pub fn num_string(n: &Number) -> (r: String)
    ensures
        r@ == num_text(num_model(*n)),
{
    match n {
        Number::Int(i) => int_string(*i),
        Number::UInt(u) => uint_string(*u),
        Number::Dec(t) => t.clone(),
    }
}

/// Canonical text of a boolean value.
pub fn bool_str(b: bool) -> (r: &'static str)
    ensures
        r@ == bool_text(b),
{
    if b {
        "true"
    } else {
        "false"
    }
}

/// Whether two string slices hold the same characters.
pub fn str_eq(a: &str, b: &str) -> (r: bool)
    ensures
        r == (a@ == b@),
{
    let an = a.unicode_len();
    let bn = b.unicode_len();
    if an != bn {
        return false;
    }
    let mut i: usize = 0;
    while i < an
        invariant
            an == a@.len(),
            an == b@.len(),
            0 <= i <= an,
            forall|j: int| 0 <= j < i ==> a@[j] == b@[j],
        decreases an - i,
    {
        if a.get_char(i) != b.get_char(i) {
            return false;
        }
        i = i + 1;
    }
    proof {
        assert(a@ =~= b@);
    }
    true
}

/// Appends the JSON-style text of `v` to `out`.
pub fn push_json(out: &mut String, v: &Value)
    ensures
        final(out)@ == old(out)@ + json_text(val_model(*v)),
    decreases v, 0int,
{
    let ghost start = out@;
    match v {
        Value::Null => {
            out.append("null");
        },
        Value::Bool(b) => {
            out.append(bool_str(*b));
        },
        Value::Num(n) => {
            let t = num_string(n);
            out.append(t.as_str());
        },
        Value::Str(s) => {
            out.append("\"");
            out.append(s.as_str());
            out.append("\"");
            proof {
                reveal_strlit("\"");
                assert(out@ =~= start + json_text(val_model(*v)));
            }
        },
        Value::Arr(items) => {
            out.append("[");
            push_json_items(out, items, 0);
            out.append("]");
            proof {
                reveal_strlit("[");
                reveal_strlit("]");
                assert(out@ =~= start + json_text(val_model(*v)));
            }
        },
        Value::Obj(entries) => {
            out.append("{");
            push_json_entries(out, entries, 0);
            out.append("}");
            proof {
                reveal_strlit("{");
                reveal_strlit("}");
                assert(out@ =~= start + json_text(val_model(*v)));
            }
        },
    }
}

/// Appends the comma-separated JSON text of `items[i..]` to `out`.
fn push_json_items(out: &mut String, items: &Vec<Value>, i: usize)
    requires
        i <= items@.len(),
    ensures
        final(out)@ == old(out)@ + json_items_text(vals_model(items@), i as int),
    decreases items, items@.len() - i,
{
    let ghost start = out@;
    proof {
        lemma_arr_models(items@, 0);
    }
    if i < items.len() {
        push_json(out, &items[i]);
        if i + 1 < items.len() {
            out.append(",");
            proof {
                reveal_strlit(",");
            }
        }
        push_json_items(out, items, i + 1);
        assert(out@ =~= start + json_items_text(vals_model(items@), i as int));
    }
}

/// Appends the comma-separated `"key":value` JSON text of `entries[i..]` to
/// `out`.
fn push_json_entries(out: &mut String, entries: &Vec<(String, Value)>, i: usize)
    requires
        i <= entries@.len(),
    ensures
        final(out)@ == old(out)@ + json_entries_text(entry_models(entries@, 0), i as int),
    decreases entries, entries@.len() - i,
{
    let ghost start = out@;
    proof {
        lemma_entry_models(entries@, 0);
    }
    if i < entries.len() {
        out.append("\"");
        out.append(entries[i].0.as_str());
        out.append("\"");
        out.append(":");
        push_json(out, &entries[i].1);
        if i + 1 < entries.len() {
            out.append(",");
        }
        push_json_entries(out, entries, i + 1);
        proof {
            reveal_strlit("\"");
            reveal_strlit(":");
            reveal_strlit(",");
            assert(out@ =~= start + json_entries_text(entry_models(entries@, 0), i as int));
        }
    }
}

/// JSON-style text of one value as a fresh string.
pub fn json_string(v: &Value) -> (r: String)
    ensures
        r@ == json_text(val_model(*v)),
{
    let mut out = String::new();
    push_json(&mut out, v);
    out
}

} // verus!
