use pgclient_core::codec::{decode_cell, row_to_json, rows_to_json, Fetched, WireCell, WireType};
use pgclient_core::value::{Number, Value};

fn s(text: &str) -> String {
    text.to_string()
}

#[test]
fn integral_columns_decode_to_numbers() {
    let v = decode_cell(WireType::Int4, Fetched::IntVal(42), Some(s("42")));
    assert_eq!(v, Value::Num(Number::Int(42)));
    let big: i64 = 9007199254740993;
    let v = decode_cell(WireType::Int8, Fetched::IntVal(big), None);
    assert_eq!(v, Value::Num(Number::Int(9007199254740993)));
}

#[test]
fn floating_columns_decode_to_decimal_text_numbers() {
    let v = decode_cell(
        WireType::Float8,
        Fetched::FloatVal { finite: true, text: s("1.5") },
        Some(s("1.5")),
    );
    assert_eq!(v, Value::Num(Number::Dec(s("1.5"))));
}

#[test]
fn non_finite_float_falls_back_to_raw_rendering() {
    let v = decode_cell(
        WireType::Float4,
        Fetched::FloatVal { finite: false, text: s("NaN") },
        Some(s("NaN")),
    );
    assert_eq!(v, Value::Str(s("NaN")));
}

#[test]
fn boolean_column_decodes_natively() {
    let v = decode_cell(WireType::Bool, Fetched::BoolVal(true), Some(s("t")));
    assert_eq!(v, Value::Bool(true));
}

#[test]
fn text_like_columns_decode_to_strings() {
    for ty in [
        WireType::Text,
        WireType::Varchar,
        WireType::Name,
        WireType::Char,
        WireType::Uuid,
        WireType::Timestamp,
        WireType::TimestampTz,
        WireType::Date,
        WireType::Time,
        WireType::Json,
        WireType::Jsonb,
        WireType::Numeric,
    ] {
        let v = decode_cell(ty, Fetched::TextVal(s("payload")), Some(s("payload")));
        assert_eq!(v, Value::Str(s("payload")));
    }
}

#[test]
fn json_payload_is_kept_as_text_not_parsed() {
    let v = decode_cell(
        WireType::Jsonb,
        Fetched::TextVal(s("{\"a\": 1}")),
        Some(s("{\"a\": 1}")),
    );
    assert_eq!(v, Value::Str(s("{\"a\": 1}")));
}

#[test]
fn numeric_precision_is_preserved_as_text() {
    let v = decode_cell(
        WireType::Numeric,
        Fetched::TextVal(s("12345678901234567890.123456789")),
        None,
    );
    assert_eq!(v, Value::Str(s("12345678901234567890.123456789")));
}

#[test]
fn sql_null_decodes_to_null_for_every_type() {
    for ty in [
        WireType::Int4,
        WireType::Int8,
        WireType::Float4,
        WireType::Float8,
        WireType::Bool,
        WireType::Text,
        WireType::Varchar,
        WireType::Name,
        WireType::Char,
        WireType::Uuid,
        WireType::Timestamp,
        WireType::TimestampTz,
        WireType::Date,
        WireType::Time,
        WireType::Json,
        WireType::Jsonb,
        WireType::Numeric,
        WireType::Other,
    ] {
        let v = decode_cell(ty, Fetched::Null, None);
        assert_eq!(v, Value::Null);
    }
}

#[test]
fn boolean_fallback_reads_true_words() {
    for raw in ["t", "T", "true", "TRUE", "True", "1"] {
        let v = decode_cell(WireType::Bool, Fetched::Failed, Some(s(raw)));
        assert_eq!(v, Value::Bool(true), "raw {raw}");
    }
}

#[test]
fn boolean_fallback_reads_false_words() {
    for raw in ["f", "F", "false", "FALSE", "False", "0"] {
        let v = decode_cell(WireType::Bool, Fetched::Failed, Some(s(raw)));
        assert_eq!(v, Value::Bool(false), "raw {raw}");
    }
}

#[test]
fn boolean_fallback_keeps_other_text() {
    let v = decode_cell(WireType::Bool, Fetched::Failed, Some(s("yes")));
    assert_eq!(v, Value::Str(s("yes")));
    let v = decode_cell(WireType::Bool, Fetched::Failed, None);
    assert_eq!(v, Value::Null);
}

#[test]
fn failed_integral_decode_falls_back_to_raw_then_null() {
    let v = decode_cell(WireType::Int4, Fetched::Failed, Some(s("oops")));
    assert_eq!(v, Value::Str(s("oops")));
    let v = decode_cell(WireType::Int8, Fetched::Failed, None);
    assert_eq!(v, Value::Null);
}

#[test]
fn failed_text_decode_gives_null_not_raw() {
    let v = decode_cell(WireType::Text, Fetched::Failed, Some(s("raw")));
    assert_eq!(v, Value::Null);
}

#[test]
fn unknown_type_always_takes_raw_rendering() {
    let v = decode_cell(WireType::Other, Fetched::Failed, Some(s("anything")));
    assert_eq!(v, Value::Str(s("anything")));
    let v = decode_cell(WireType::Other, Fetched::Failed, None);
    assert_eq!(v, Value::Null);
}

#[test]
fn row_decodes_to_object_keyed_by_column_name() {
    let row = vec![
        WireCell {
            name: s("id"),
            ty: WireType::Int4,
            typed: Fetched::IntVal(7),
            raw: Some(s("7")),
        },
        WireCell {
            name: s("name"),
            ty: WireType::Text,
            typed: Fetched::TextVal(s("Ada")),
            raw: Some(s("Ada")),
        },
    ];
    let v = row_to_json(row);
    assert_eq!(
        v,
        Value::Obj(vec![
            (s("id"), Value::Num(Number::Int(7))),
            (s("name"), Value::Str(s("Ada"))),
        ])
    );
}

#[test]
fn rows_decode_elementwise_in_order() {
    let rows = vec![
        vec![WireCell {
            name: s("n"),
            ty: WireType::Int4,
            typed: Fetched::IntVal(1),
            raw: None,
        }],
        vec![WireCell {
            name: s("n"),
            ty: WireType::Int4,
            typed: Fetched::IntVal(2),
            raw: None,
        }],
    ];
    let vs = rows_to_json(rows);
    assert_eq!(vs.len(), 2);
    assert_eq!(vs[0], Value::Obj(vec![(s("n"), Value::Num(Number::Int(1)))]));
    assert_eq!(vs[1], Value::Obj(vec![(s("n"), Value::Num(Number::Int(2)))]));
}
