use vstd::prelude::*;

use crate::csv_reader::CsvReader;
use crate::errors::ReaderError;
use crate::csv_reader::read_reply;
use crate::field::Record;
use crate::jsonstream::pulled_reply;
use crate::jsonstream::JsonStreamReader;
use crate::stage::{is_step, opened_kind, reply_of, Phase};

verus! {

/// The configuration of one reader, by kind.
pub enum ReaderConfig {
    /// Delimited text; only the first byte of `delimiter` is used.
    Csv { delimiter: String, flexible: bool, file_path: String },
    /// Concatenated JSON values.
    JsonStream { file_path: String },
}

/// The configuration that the tag `tag` and the given settings make: `"csv"`
/// with the delimiter `","` and strict rows unless told otherwise, or
/// `"jsonstream"`; no other tag names a reader.
pub open spec fn config_of(
    tag: Seq<char>,
    delimiter: Option<String>,
    flexible: Option<bool>,
    file_path: Seq<char>,
    r: Option<ReaderConfig>,
) -> bool {
    if tag == "csv"@ {
        &&& r matches Some(ReaderConfig::Csv { delimiter: d, flexible: f, file_path: p })
        &&& d@ == (match delimiter {
            Some(x) => x@,
            None => ","@,
        })
        &&& f == (match flexible {
            Some(x) => x,
            None => false,
        })
        &&& p@ == file_path
    } else if tag == "jsonstream"@ {
        r matches Some(ReaderConfig::JsonStream { file_path: p }) && p@ == file_path
    } else {
        r is None
    }
}

/// Builds a configuration from its tag and settings; `None` for an unknown tag.
pub fn config_from_tag(tag: &str, delimiter: Option<String>, flexible: Option<bool>, file_path: String) -> (r:
    Option<ReaderConfig>)
    ensures
        config_of(tag@, delimiter, flexible, file_path@, r),
{
    let t = tag.to_owned();
    if t.eq(&"csv".to_owned()) {
        let d = match delimiter {
            Some(x) => x,
            None => crate::csv_reader::default_delimiter(),
        };
        let f = match flexible {
            Some(x) => x,
            None => false,
        };
        Some(ReaderConfig::Csv { delimiter: d, flexible: f, file_path })
    } else if t.eq(&"jsonstream".to_owned()) {
        Some(ReaderConfig::JsonStream { file_path })
    } else {
        None
    }
}

/// The reply of a JSON reader that `r` stands for.
pub open spec fn item_reply(r: Option<Result<Item, ReaderError>>) -> Option<Result<serde_json::Value, ReaderError>> {
    match r {
        Some(Ok(Item::Json(v))) => Some(Ok(v)),
        Some(Ok(Item::Row(_))) => None,
        Some(Err(e)) => Some(Err(e)),
        None => None,
    }
}

/// The reply of a delimited-text reader that `r` stands for.
pub open spec fn row_reply_of(r: Option<Result<Item, ReaderError>>) -> Option<Result<Record, ReaderError>> {
    match r {
        Some(Ok(Item::Row(rec))) => Some(Ok(rec)),
        Some(Ok(Item::Json(_))) => None,
        Some(Err(e)) => Some(Err(e)),
        None => None,
    }
}

/// What a reader of either kind hands out.
pub enum Item {
    Row(Record),
    Json(serde_json::Value),
}

/// A reader of any kind; callers use it only through `needs_source`,
/// `file_path` and `read_item`.
#[verifier::reject_recursive_types(R)]
pub enum AnyReader<R> {
    Csv(CsvReader<R>),
    JsonStream(JsonStreamReader),
}

impl<R> AnyReader<R> {
    pub open spec fn phase(&self) -> Phase {
        match self {
            AnyReader::Csv(r) => r.phase(),
            AnyReader::JsonStream(r) => r.phase(),
        }
    }

    pub open spec fn wf(&self) -> bool {
        match self {
            AnyReader::Csv(r) => r.wf(),
            AnyReader::JsonStream(_) => true,
        }
    }

    pub open spec fn file_path_spec(&self) -> Seq<char> {
        match self {
            AnyReader::Csv(r) => r.file_path_spec(),
            AnyReader::JsonStream(r) => r.file_path_spec(),
        }
    }

    /// The reader that a configuration describes, not yet opened.
    pub fn from_config(config: ReaderConfig) -> (r: Self)
        ensures
            r.phase() == Phase::Uninitialized,
            r.wf(),
            match config {
                ReaderConfig::Csv { delimiter, flexible, file_path } => r matches AnyReader::Csv(c)
                    && c.delimiter_spec() == delimiter@ && c.flexible_spec() == flexible
                    && c.file_path_spec() == file_path@,
                ReaderConfig::JsonStream { file_path } => r matches AnyReader::JsonStream(j)
                    && j.file_path_spec() == file_path@,
            },
    {
        match config {
            ReaderConfig::Csv { delimiter, flexible, file_path } => AnyReader::Csv(
                CsvReader::new(delimiter, flexible, file_path),
            ),
            ReaderConfig::JsonStream { file_path } => AnyReader::JsonStream(JsonStreamReader::new(file_path)),
        }
    }

    pub fn needs_source(&self) -> (r: bool)
        ensures
            r == (self.phase() == Phase::Uninitialized),
    {
        match self {
            AnyReader::Csv(r) => r.needs_source(),
            AnyReader::JsonStream(r) => r.needs_source(),
        }
    }

    pub fn file_path(&self) -> (r: &String)
        ensures
            r@ == self.file_path_spec(),
    {
        match self {
            AnyReader::Csv(r) => r.file_path(),
            AnyReader::JsonStream(r) => r.file_path(),
        }
    }
}

impl<R: std::io::Read + Send + 'static> AnyReader<R> {
    /// Reads the next item from whichever reader this is; `opened` is given
    /// exactly when `needs_source` holds.
    pub fn read_item(&mut self, opened: Option<Result<R, std::io::Error>>) -> (r: Option<Result<Item, ReaderError>>)
        requires
            opened is Some <==> old(self).phase() == Phase::Uninitialized,
            old(self).wf(),
        ensures
            final(self).wf(),
            is_step(old(self).phase(), opened_kind(opened), reply_of(r), final(self).phase()),
            final(self).file_path_spec() == old(self).file_path_spec(),
            (*old(self) is Csv) <==> (*final(self) is Csv),
            r matches Some(Ok(i)) ==> (i is Row <==> *final(self) is Csv),
            opened matches Some(Err(e)) ==> r == Some(Err::<Item, ReaderError>(ReaderError::IoError(e))),
            *old(self) is Csv && opened_kind(opened) != Some(false) ==> (r matches Some(Err(e)) ==> e is CsvError),
            *old(self) is JsonStream && opened_kind(opened) != Some(false) ==> (r matches Some(Err(e)) ==> e is JsonError
                || e == ReaderError::InitializationError("Mutex lock poisoned")),
            *old(self) is JsonStream && opened_kind(opened) != Some(false) && !old(self).phase().is_done() ==> exists|
                pulled: Result<Option<Result<serde_json::Value, serde_json::Error>>, ()>,
            | item_reply(r) == #[trigger] pulled_reply(pulled),
            *old(self) matches AnyReader::Csv(o) ==> ((o.phase() == Phase::Active || opened_kind(opened) == Some(
                true,
            )) ==> (*final(self) matches AnyReader::Csv(c) && read_reply(
                o.header_names(),
                c.header_names(),
                row_reply_of(r),
            ))),
            *old(self) matches AnyReader::Csv(o) ==> (*final(self) matches AnyReader::Csv(c) && c.same_config(&o)
                && c.wf()),
    {
        match self {
            AnyReader::Csv(c) => match c.read_item(opened) {
                Some(Ok(rec)) => Some(Ok(Item::Row(rec))),
                Some(Err(e)) => Some(Err(e)),
                None => None,
            },
            AnyReader::JsonStream(j) => match j.read_item(opened) {
                Some(Ok(v)) => Some(Ok(Item::Json(v))),
                Some(Err(e)) => Some(Err(e)),
                None => None,
            },
        }
    }
}

} // verus!
