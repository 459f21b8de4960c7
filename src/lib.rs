//! Streaming readers that turn flat files (delimited text, concatenated JSON
//! values) into a sequence of JSON records.
//!
//! Each reader opens its file lazily: the caller asks `needs_source`, opens the
//! file only when it is asked to, and hands the outcome to `read_item`. A failed
//! open is reported once; after it the reader only reports the end of the stream.

pub mod errors;
mod outside;
pub mod stage;
pub mod field;
pub mod csv_reader;
pub mod jsonstream;
pub mod dispatch;

pub use errors::ReaderError;
pub use stage::{Phase, Reply};
pub use field::{build_record, coerce, Field, Record};
pub use csv_reader::{CsvReader, default_delimiter, delimiter_byte};
pub use jsonstream::JsonStreamReader;
pub use dispatch::{config_from_tag, AnyReader, Item, ReaderConfig};
