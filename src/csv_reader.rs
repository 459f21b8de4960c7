use vstd::prelude::*;
use vstd::string::StringSliceAdditionalSpecFns;
use vstd::utf8::encode_utf8;

use crate::errors::ReaderError;
use crate::field::{build_record, record_of, Record};
use crate::stage::{is_step, opened_kind, reply_of, Phase, Stage};

verus! {

/// The delimiter that a reader is configured with when none is given.
pub fn default_delimiter() -> (r: String)
    ensures
        r@ == ","@,
{
    ",".to_owned()
}

/// The byte that separates fields under the configured delimiter: its first
/// byte in UTF-8, or a comma where it is empty.
pub open spec fn separator_of(delimiter: Seq<char>) -> u8 {
    let bytes = encode_utf8(delimiter);
    if bytes.len() == 0 {
        44u8
    } else {
        bytes[0]
    }
}

/// Only the first byte of a delimiter is used: delimiters that begin with the
/// same byte split fields alike, whatever follows it.
pub proof fn lemma_first_byte_only(a: Seq<char>, b: Seq<char>)
    requires
        encode_utf8(a).len() > 0,
        encode_utf8(b).len() > 0,
        encode_utf8(a)[0] == encode_utf8(b)[0],
    ensures
        separator_of(a) == separator_of(b),
{
}

/// The byte that separates fields: only the first byte of the delimiter counts.
pub fn delimiter_byte(delimiter: &str) -> (r: u8)
    ensures
        r == separator_of(delimiter@),
{
    let bytes = delimiter.as_bytes();
    if bytes.len() == 0 {
        44u8
    } else {
        bytes[0]
    }
}

/// Relies on `csv::ReaderBuilder` (`new`, `delimiter`, `flexible`, `from_reader`):
/// a row parser over `source` that splits fields on `delimiter`, takes the first
/// row as the header, and rejects rows whose length differs from it unless
/// `flexible`.
#[verifier::external_body]
fn build_rows<R: std::io::Read>(source: R, delimiter: u8, flexible: bool) -> csv::Reader<R> {
    csv::ReaderBuilder::new().delimiter(delimiter).flexible(flexible).from_reader(source)
}

/// Relies on `csv::Reader::read_record`: the next data row's fields, or `None`
/// at the end of the input.
#[verifier::external_body]
fn next_row<R: std::io::Read>(rows: &mut csv::Reader<R>) -> Result<Option<Vec<String>>, csv::Error> {
    let mut record = csv::StringRecord::new();
    match rows.read_record(&mut record) {
        Ok(true) => Ok(Some(record.iter().map(String::from).collect())),
        Ok(false) => Ok(None),
        Err(e) => Err(e),
    }
}

/// Relies on `csv::Reader::headers`: the fields of the header row, read once
/// and kept by the parser.
#[verifier::external_body]
fn header_row<R: std::io::Read>(rows: &mut csv::Reader<R>) -> Result<Vec<String>, csv::Error> {
    rows.headers().map(|h| h.iter().map(String::from).collect())
}

/// An open delimited input: the row parser and, once known, the header names.
#[verifier::reject_recursive_types(R)]
struct CsvRows<R> {
    rows: csv::Reader<R>,
    /// The byte that the parser was built to split on.
    split_on: Ghost<u8>,
    /// Whether the parser was built to accept rows of any length.
    flexible_on: Ghost<bool>,
    headers: Option<Vec<String>>,
}

/// The reply that one read of the row parser gives under `headers`: its error
/// as `CsvError`, the end, or the record of the row it returned.
pub open spec fn row_reply(
    headers: Seq<String>,
    row: Result<Option<Vec<String>>, csv::Error>,
    r: Option<Result<Record, ReaderError>>,
) -> bool {
    match row {
        Err(e) => r == Some(Err::<Record, ReaderError>(ReaderError::CsvError(e))),
        Ok(None) => r is None,
        Ok(Some(w)) => r matches Some(Ok(rec)) && record_of(headers, w@, rec.entries@),
    }
}

/// Turns the row parser's outcome for one read into the reader's reply.
pub fn reply_of_row(headers: &Vec<String>, row: Result<Option<Vec<String>>, csv::Error>) -> (r: Option<
    Result<Record, ReaderError>,
>)
    ensures
        row_reply(headers@, row, r),
{
    match row {
        Err(e) => Some(Err(ReaderError::CsvError(e))),
        Ok(None) => None,
        Ok(Some(w)) => Some(Ok(build_record(headers, &w))),
    }
}

/// The reply where reading the header row failed.
pub fn reply_of_header_error(e: csv::Error) -> (r: Option<Result<Record, ReaderError>>)
    ensures
        r == Some(Err::<Record, ReaderError>(ReaderError::CsvError(e))),
{
    Some(Err(ReaderError::CsvError(e)))
}

/// The header names, or none while they are unknown.
pub open spec fn names_or_empty(h: Option<Seq<String>>) -> Seq<String> {
    match h {
        Some(n) => n,
        None => Seq::empty(),
    }
}

/// One read of an open input: either the header row could not be read (and
/// stays unknown), or the reply is that of some outcome of the row parser.
pub open spec fn read_reply(
    before: Option<Seq<String>>,
    after: Option<Seq<String>>,
    r: Option<Result<Record, ReaderError>>,
) -> bool {
    ||| (before is None && after is None && (r matches Some(Err(e)) && e is CsvError))
    ||| exists|row: Result<Option<Vec<String>>, csv::Error>| #[trigger] row_reply(names_or_empty(after), row, r)
}

impl<R> CsvRows<R> {
    closed spec fn names(&self) -> Option<Seq<String>> {
        match self.headers {
            Some(h) => Some(h@),
            None => None,
        }
    }
}

impl<R: std::io::Read> CsvRows<R> {
    fn next_record(&mut self) -> (r: Option<Result<Record, ReaderError>>)
        ensures
            old(self).headers is Some ==> final(self).headers == old(self).headers,
            final(self).split_on == old(self).split_on,
            final(self).flexible_on == old(self).flexible_on,
            read_reply(old(self).names(), final(self).names(), r),
            r matches Some(Ok(_)) ==> final(self).headers is Some,
    {
        let row = next_row(&mut self.rows);
        let ghost seen = row;
        if let Ok(Some(_)) = &row {
            if self.headers.is_none() {
                match header_row(&mut self.rows) {
                    Ok(h) => {
                        self.headers = Some(h);
                    },
                    Err(e) => {
                        return reply_of_header_error(e);
                    },
                }
            }
        }
        let empty: Vec<String> = Vec::new();
        let r = match &self.headers {
            Some(h) => reply_of_row(h, row),
            None => reply_of_row(&empty, row),
        };
        proof {
            assert(self.names() is None ==> empty@ == names_or_empty(self.names()));
            assert(row_reply(names_or_empty(self.names()), seen, r));
        }
        r
    }
}

/// A reader of delimited text: one record per data row, each field typed by
/// `coerce` and named by the header row.
///
/// `R` is the byte source that opening `file_path` gives.
#[verifier::reject_recursive_types(R)]
pub struct CsvReader<R> {
    delimiter: String,
    flexible: bool,
    file_path: String,
    stage: Stage<CsvRows<R>>,
}

impl<R> CsvReader<R> {
    pub closed spec fn delimiter_spec(&self) -> Seq<char> {
        self.delimiter@
    }

    pub closed spec fn flexible_spec(&self) -> bool {
        self.flexible
    }

    pub closed spec fn file_path_spec(&self) -> Seq<char> {
        self.file_path@
    }

    pub closed spec fn phase(&self) -> Phase {
        self.stage.phase()
    }

    /// The header names, once the first data row has been read.
    pub closed spec fn header_names(&self) -> Option<Seq<String>> {
        match self.stage {
            Stage::Active(src) => src.names(),
            _ => None,
        }
    }

    /// The byte that the open input's parser splits on.
    pub closed spec fn split_on(&self) -> Option<u8> {
        match self.stage {
            Stage::Active(src) => Some(src.split_on@),
            _ => None,
        }
    }

    /// Whether the open input's parser accepts rows of any length.
    pub closed spec fn parser_flexible(&self) -> Option<bool> {
        match self.stage {
            Stage::Active(src) => Some(src.flexible_on@),
            _ => None,
        }
    }

    /// An open input's parser splits on the separator of the configured
    /// delimiter and checks row lengths as the configuration says.
    pub closed spec fn wf(&self) -> bool {
        &&& self.stage is Active ==> self.split_on() == Some(separator_of(self.delimiter@))
        &&& self.stage is Active ==> self.parser_flexible() == Some(self.flexible)
    }

    /// The configuration is the same in both.
    pub open spec fn same_config(&self, other: &Self) -> bool {
        &&& self.delimiter_spec() == other.delimiter_spec()
        &&& self.flexible_spec() == other.flexible_spec()
        &&& self.file_path_spec() == other.file_path_spec()
    }

    pub fn new(delimiter: String, flexible: bool, file_path: String) -> (r: Self)
        ensures
            r.delimiter_spec() == delimiter@,
            r.flexible_spec() == flexible,
            r.file_path_spec() == file_path@,
            r.phase() == Phase::Uninitialized,
            r.wf(),
    {
        CsvReader { delimiter, flexible, file_path, stage: Stage::Uninitialized }
    }

    pub fn delimiter(&self) -> (r: &String)
        ensures
            r@ == self.delimiter_spec(),
    {
        &self.delimiter
    }

    pub fn flexible(&self) -> (r: bool)
        ensures
            r == self.flexible_spec(),
    {
        self.flexible
    }

    pub fn file_path(&self) -> (r: &String)
        ensures
            r@ == self.file_path_spec(),
    {
        &self.file_path
    }

    pub fn current_phase(&self) -> (r: Phase)
        ensures
            r == self.phase(),
    {
        self.stage.phase_of()
    }

    /// Whether the next `read_item` must be handed the outcome of opening
    /// `file_path`; this is so only before the first read.
    pub fn needs_source(&self) -> (r: bool)
        ensures
            r == (self.phase() == Phase::Uninitialized),
    {
        match self.stage {
            Stage::Uninitialized => true,
            _ => false,
        }
    }
}

impl<R: std::io::Read> CsvReader<R> {
    /// Takes the outcome of opening `file_path`: an open input gets a row parser
    /// that splits on `delimiter_byte` of the configured delimiter; a failed open
    /// is returned as `IoError` and leaves the reader failed.
    pub fn init_reader(&mut self, opened: Result<R, std::io::Error>) -> (r: Result<(), ReaderError>)
        requires
            old(self).phase() == Phase::Uninitialized,
        ensures
            final(self).same_config(old(self)),
            final(self).wf(),
            opened is Ok ==> r is Ok && final(self).phase() == Phase::Active && final(self).header_names() is None
                && final(self).split_on() == Some(separator_of(old(self).delimiter_spec()))
                && final(self).parser_flexible() == Some(old(self).flexible_spec()),
            opened matches Err(e) ==> r == Err::<(), ReaderError>(ReaderError::IoError(e)) && final(self).phase()
                == Phase::Failed,
    {
        match opened {
            Ok(source) => {
                let d = delimiter_byte(self.delimiter.as_str());
                self.stage = Stage::Active(CsvRows { rows: build_rows(source, d, self.flexible), split_on: Ghost(d), flexible_on: Ghost(self.flexible), headers: None });
                Ok(())
            },
            Err(e) => {
                self.stage = Stage::Failed;
                Err(ReaderError::IoError(e))
            },
        }
    }

    /// Reads the next record.
    ///
    /// `opened` is the outcome of opening `file_path`, given exactly when
    /// `needs_source` holds. A failed open is returned once as `IoError`; after it
    /// the reader only reports the end (`None`). A malformed row gives a
    /// `CsvError` and reading goes on with the next row.
    pub fn read_item(&mut self, opened: Option<Result<R, std::io::Error>>) -> (r: Option<Result<Record, ReaderError>>)
        requires
            opened is Some <==> old(self).phase() == Phase::Uninitialized,
            old(self).wf(),
        ensures
            final(self).same_config(old(self)),
            final(self).wf(),
            is_step(old(self).phase(), opened_kind(opened), reply_of(r), final(self).phase()),
            opened matches Some(Err(e)) ==> r == Some(Err::<Record, ReaderError>(ReaderError::IoError(e))),
            opened_kind(opened) != Some(false) ==> (r matches Some(Err(e)) ==> e is CsvError),
            old(self).header_names() is Some && r is Some ==> final(self).header_names() == old(self).header_names(),
            r matches Some(Ok(_)) ==> final(self).header_names() is Some,
            old(self).phase() == Phase::Active || opened_kind(opened) == Some(true) ==> read_reply(
                old(self).header_names(),
                final(self).header_names(),
                r,
            ),
    {
        if let Some(o) = opened {
            if let Err(e) = self.init_reader(o) {
                return Some(Err(e));
            }
        }
        let mut stage: Stage<CsvRows<R>> = Stage::Exhausted;
        std::mem::swap(&mut self.stage, &mut stage);
        match stage {
            Stage::Active(mut src) => {
                let r = src.next_record();
                if r.is_some() {
                    self.stage = Stage::Active(src);
                }
                proof {
                    if r is None {
                        assert(row_reply(
                            names_or_empty(self.header_names()),
                            Ok::<Option<Vec<String>>, csv::Error>(None),
                            r,
                        ));
                    }
                }
                r
            },
            other => {
                self.stage = other;
                None
            },
        }
    }
}

} // verus!
