use vstd::prelude::*;

verus! {

/// Every failure that a reader reports.
///
/// `CsvError` and `JsonError` stand for one malformed row or value: the reader
/// stays usable. `IoError` is a failed open of the input file, and
/// `InitializationError` a failure of the reader's own bookkeeping (a poisoned
/// lock): both are fatal.
#[derive(Debug)]
pub enum ReaderError {
    CsvError(csv::Error),
    JsonError(serde_json::Error),
    IoError(std::io::Error),
    InitializationError(&'static str),
}

impl ReaderError {
    /// Whether the reader that reported this error can go on producing records.
    pub open spec fn is_recoverable_spec(&self) -> bool {
        self is CsvError || self is JsonError
    }

    pub fn is_recoverable(&self) -> (r: bool)
        ensures
            r == self.is_recoverable_spec(),
    {
        match self {
            ReaderError::CsvError(_) => true,
            ReaderError::JsonError(_) => true,
            _ => false,
        }
    }
}

} // verus!
