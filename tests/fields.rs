use rustifile::csv_reader::reply_of_row;
use rustifile::{build_record, coerce, default_delimiter, delimiter_byte, Field, ReaderError};
use serde_json::Number;

fn s(v: &str) -> String {
    v.to_string()
}

#[test]
fn coerces_integers_to_numbers() {
    assert_eq!(coerce(&s("8419000")), Field::UInt(8419000));
    assert_eq!(coerce(&s("-12")), Field::Int(-12));
}

#[test]
fn coerces_rust_integer_forms_to_numbers() {
    assert_eq!(coerce(&s("02134")), Field::UInt(2134));
    assert_eq!(coerce(&s("+5")), Field::UInt(5));
    assert_eq!(coerce(&s("-007")), Field::Int(-7));
    assert_eq!(coerce(&s("18446744073709551615")), Field::UInt(u64::MAX));
    assert_eq!(coerce(&s("-9223372036854775808")), Field::Int(i64::MIN));
    assert_eq!(coerce(&s("+")), Field::Text(s("+")));
    assert_eq!(coerce(&s("-")), Field::Text(s("-")));
}

#[test]
fn coerces_decimals_to_numbers() {
    assert_eq!(coerce(&s("65.2419444")), Field::Float(Number::from_f64(65.2419444).unwrap()));
    assert_eq!(coerce(&s("1e3")), Field::Float(Number::from_f64(1000.0).unwrap()));
}

#[test]
fn coerces_rust_decimal_forms_to_numbers() {
    assert_eq!(coerce(&s(".5")), Field::Float(Number::from_f64(0.5).unwrap()));
    assert_eq!(coerce(&s("5.")), Field::Float(Number::from_f64(5.0).unwrap()));
    assert_eq!(coerce(&s("+1.5")), Field::Float(Number::from_f64(1.5).unwrap()));
    assert_eq!(coerce(&s("-2.5E2")), Field::Float(Number::from_f64(-250.0).unwrap()));
}

#[test]
fn non_finite_and_malformed_numbers_stay_text() {
    for t in ["inf", "NaN", "-infinity", "1e400", "12abc", "2024-01-01", ".", "1e", "--1"] {
        assert_eq!(coerce(&s(t)), Field::Text(s(t)));
    }
}

#[test]
fn reply_of_row_builds_the_row_read() {
    let headers = vec![s("City"), s("Population")];
    match reply_of_row(&headers, Ok(Some(vec![s("New York"), s("8419000")]))) {
        Some(Ok(rec)) => {
            assert_eq!(rec.get("City"), Some(&Field::Text(s("New York"))));
            assert_eq!(rec.get("Population"), Some(&Field::UInt(8419000)));
        }
        _ => panic!("expected a record"),
    }
    assert!(reply_of_row(&headers, Ok(None)).is_none());
}

#[test]
fn coerces_boolean_literals() {
    assert_eq!(coerce(&s("true")), Field::Bool(true));
    assert_eq!(coerce(&s("false")), Field::Bool(false));
    assert_eq!(coerce(&s("True")), Field::Text(s("True")));
    assert_eq!(coerce(&s("FALSE")), Field::Text(s("FALSE")));
}

#[test]
fn empty_text_stays_text() {
    assert_eq!(coerce(&s("")), Field::Text(s("")));
}

#[test]
fn other_text_is_kept_unchanged() {
    assert_eq!(coerce(&s("New York")), Field::Text(s("New York")));
    assert_eq!(coerce(&s("12abc")), Field::Text(s("12abc")));
    assert_eq!(coerce(&s(" 12")), Field::Text(s(" 12")));
    assert_eq!(coerce(&s("null")), Field::Text(s("null")));
}

#[test]
fn delimiter_is_the_first_byte() {
    assert_eq!(delimiter_byte("\t"), b'\t');
    assert_eq!(delimiter_byte(",x"), b',');
    assert_eq!(delimiter_byte(";"), b';');
    assert_eq!(delimiter_byte(""), b',');
}

#[test]
fn default_delimiter_is_comma() {
    assert_eq!(default_delimiter(), ",");
}

#[test]
fn record_pads_missing_cells_with_null() {
    let rec = build_record(&vec![s("a"), s("b"), s("c")], &vec![s("1"), s("x")]);
    assert_eq!(rec.entries.len(), 3);
    assert_eq!(rec.entries[0], (s("a"), Field::UInt(1)));
    assert_eq!(rec.entries[1], (s("b"), Field::Text(s("x"))));
    assert_eq!(rec.entries[2], (s("c"), Field::Null));
}

#[test]
fn record_drops_cells_beyond_the_header() {
    let rec = build_record(&vec![s("a")], &vec![s("true"), s("extra")]);
    assert_eq!(rec.entries.len(), 1);
    assert_eq!(rec.get("a"), Some(&Field::Bool(true)));
    assert_eq!(rec.get("extra"), None);
}

#[test]
fn repeated_header_takes_the_last_column() {
    let rec = build_record(&vec![s("k"), s("k")], &vec![s("first"), s("second")]);
    assert_eq!(rec.get("k"), Some(&Field::Text(s("second"))));
    assert_eq!(rec.get("missing"), None);
}

#[test]
fn recoverable_errors_are_told_apart() {
    let fatal = ReaderError::InitializationError("Mutex lock poisoned");
    assert!(!fatal.is_recoverable());
    let io = ReaderError::IoError(std::io::Error::new(std::io::ErrorKind::NotFound, "gone"));
    assert!(!io.is_recoverable());
    let json = ReaderError::JsonError(serde_json::from_str::<serde_json::Value>("{").unwrap_err());
    assert!(json.is_recoverable());
}
