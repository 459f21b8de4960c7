use std::io::Write;

use rustifile::{JsonStreamReader, Phase, ReaderError};
use serde_json::Value;
use tempfile::NamedTempFile;

/// Opens the input only when the reader asks for it, as a caller must.
fn next<R: std::io::Read + Send + 'static, F: Fn() -> Result<R, std::io::Error>>(
    reader: &mut JsonStreamReader,
    open: &F,
) -> Option<Result<Value, ReaderError>> {
    let opened = if reader.needs_source() { Some(open()) } else { None };
    reader.read_item(opened)
}

/// The outcome of opening a path that does not exist.
fn missing() -> Result<&'static [u8], std::io::Error> {
    Err(std::io::Error::new(std::io::ErrorKind::NotFound, "/invalid/file/path"))
}

fn temp_file(text: &str) -> NamedTempFile {
    let mut file = NamedTempFile::new().unwrap();
    file.write_all(text.as_bytes()).unwrap();
    file.flush().unwrap();
    file
}

fn get_file() -> NamedTempFile {
    temp_file(
        "{\"name\":\"My super product\",\"price\":10.5,\"inStock\":true}\n\
         {\"name\":\"My other product\",\"price\":20.0,\"inStock\":false}\n",
    )
}

fn get_invalid_file() -> NamedTempFile {
    temp_file(
        "[\n  {\"name\": \"My super product\", \"price\": 10.5, \"inStock\": true},\n\
         \x20 {\"name\": \"My other product\", \"price\": 20.0, \"inStock\": false},\n]\n",
    )
}

fn path_of(file: &NamedTempFile) -> String {
    file.path().to_str().unwrap().to_string()
}

#[test]
fn test_json_stream_reader_init() {
    let file = get_file();
    let mut reader = JsonStreamReader::new(path_of(&file));

    let result = reader.init(file.reopen());

    assert!(result.is_ok(), "Initialization failed: {:?}", result.err());
    assert_eq!(reader.current_phase(), Phase::Active, "Iterator was not initialized");
}

#[test]
fn test_json_stream_reader_iteration() {
    let file = get_file();
    let mut reader = JsonStreamReader::new(path_of(&file));

    reader.init(file.reopen()).unwrap();

    let mut results: Vec<Result<Value, ReaderError>> = vec![];
    while let Some(item) = next(&mut reader, &|| file.reopen()) {
        results.push(item);
    }

    let results: Vec<Value> = results.into_iter().flatten().collect();
    assert_eq!(results.len(), 2, "Expected 2 results");

    assert_eq!(results[0]["name"].as_str().unwrap(), "My super product");
    assert_eq!(results[0]["price"].as_f64().unwrap(), 10.5);
    assert_eq!(results[0]["inStock"].as_bool().unwrap(), true);

    assert_eq!(results[1]["name"].as_str().unwrap(), "My other product");
    assert_eq!(results[1]["price"].as_f64().unwrap(), 20.0);
    assert_eq!(results[1]["inStock"].as_bool().unwrap(), false);
}

#[test]
fn test_json_invalid_file_stream_reader_iteration() {
    let file = get_invalid_file();
    let mut reader = JsonStreamReader::new(path_of(&file));

    reader.init(file.reopen()).unwrap();

    let item: Result<Value, ReaderError> = next(&mut reader, &|| file.reopen()).expect("should have one invalid record");

    assert!(item.is_err())
}

#[test]
fn test_json_file_does_not_exists() {
    let mut reader = JsonStreamReader::new(String::from("/invalid/file/path"));

    assert!(reader.init(missing()).is_err(), "init error expected");
}

#[test]
fn missing_json_file_is_reported_once() {
    let mut reader = JsonStreamReader::new(String::from("/invalid/file/path"));

    let first = next(&mut reader, &missing);
    assert!(matches!(first, Some(Err(ReaderError::IoError(_)))));
    assert!(next(&mut reader, &missing).is_none());
    assert!(next(&mut reader, &missing).is_none());
    assert_eq!(reader.current_phase(), Phase::Failed);
}

#[test]
fn pretty_printed_values_are_single_records() {
    let file = temp_file("{\n  \"a\": [1,\n 2],\n  \"b\": null\n}\n{\"a\": \"x\"} {\"a\": \"y\"}\n");
    let mut reader = JsonStreamReader::new(path_of(&file));

    let first = next(&mut reader, &|| file.reopen()).unwrap().unwrap();
    assert_eq!(first["a"], serde_json::from_str::<Value>("[1,2]").unwrap());
    assert_eq!(first["b"], Value::Null);
    assert_eq!(next(&mut reader, &|| file.reopen()).unwrap().unwrap()["a"], Value::String("x".to_string()));
    assert_eq!(next(&mut reader, &|| file.reopen()).unwrap().unwrap()["a"], Value::String("y".to_string()));
    assert!(next(&mut reader, &|| file.reopen()).is_none());
    assert_eq!(reader.current_phase(), Phase::Exhausted);
    assert!(next(&mut reader, &|| file.reopen()).is_none());
}

#[test]
fn malformed_value_gives_a_json_error() {
    let file = temp_file("{\"a\": }");
    let mut reader = JsonStreamReader::new(path_of(&file));

    assert!(matches!(next(&mut reader, &|| file.reopen()), Some(Err(ReaderError::JsonError(_)))));
}

#[test]
fn shared_readers_see_each_value_once() {
    let file = temp_file("1 2 3 4 5\n");
    let mut first = JsonStreamReader::new(path_of(&file));
    assert!(first.share().is_none());
    first.init(file.reopen()).unwrap();
    let mut second = first.share().unwrap();
    assert_eq!(second.current_phase(), Phase::Active);
    assert_eq!(second.file_path(), first.file_path());

    let mut seen: Vec<u64> = vec![];
    loop {
        let a = next(&mut first, &|| file.reopen());
        let b = next(&mut second, &|| file.reopen());
        seen.extend(number_of(&a));
        seen.extend(number_of(&b));
        if a.is_none() && b.is_none() {
            break;
        }
    }
    assert_eq!(seen, vec![1, 2, 3, 4, 5]);
}

fn number_of(item: &Option<Result<Value, ReaderError>>) -> Option<u64> {
    match item {
        Some(Ok(v)) => v.as_u64(),
        _ => None,
    }
}
