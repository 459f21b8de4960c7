use vstd::prelude::*;

use crate::errors::ReaderError;
use crate::stage::{is_step, opened_kind, reply_of, Phase, Stage};

verus! {

/// A cursor over a stream of JSON values that several holders can share: each
/// value is handed out once, under a lock.
#[verifier::external_body]
pub struct SharedStream {
    values: std::sync::Arc<
        std::sync::Mutex<dyn Iterator<Item = Result<serde_json::Value, serde_json::Error>> + Send>,
    >,
}

/// Relies on `serde_json::Deserializer::from_reader` and `into_iter`: a cursor
/// that yields one JSON value per step, finding where a value ends by its own
/// braces, brackets and quotes rather than by lines.
#[verifier::external_body]
fn open_stream<R: std::io::Read + Send + 'static>(source: R) -> SharedStream {
    let values = serde_json::Deserializer::from_reader(source).into_iter::<serde_json::Value>();
    SharedStream { values: std::sync::Arc::new(std::sync::Mutex::new(values)) }
}

/// Relies on `std::sync::Mutex::lock` and `serde_json::StreamDeserializer::next`:
/// while holding the lock, the next value, the error of a malformed one, or
/// `None` at the end; `Err(())` where the lock is poisoned.
#[verifier::external_body]
fn pull(stream: &SharedStream) -> Result<Option<Result<serde_json::Value, serde_json::Error>>, ()> {
    match stream.values.lock() {
        Ok(mut values) => Ok(values.next()),
        Err(_) => Err(()),
    }
}

/// Relies on `std::sync::Arc::clone`: a second handle on the same cursor, so
/// that both take their values from one stream.
#[verifier::external_body]
fn share_stream(stream: &SharedStream) -> SharedStream {
    SharedStream { values: std::sync::Arc::clone(&stream.values) }
}

/// The reply that one step of the shared cursor gives: its value, its parse
/// error as `JsonError`, the end, or, where the lock was poisoned, a fatal
/// `InitializationError`.
pub open spec fn pulled_reply(
    pulled: Result<Option<Result<serde_json::Value, serde_json::Error>>, ()>,
) -> Option<Result<serde_json::Value, ReaderError>> {
    match pulled {
        Ok(Some(Ok(v))) => Some(Ok(v)),
        Ok(Some(Err(e))) => Some(Err(ReaderError::JsonError(e))),
        Ok(None) => None,
        Err(()) => Some(Err(ReaderError::InitializationError("Mutex lock poisoned"))),
    }
}

/// Turns one step of the shared cursor into the reader's reply.
pub fn reply_to_pull(pulled: Result<Option<Result<serde_json::Value, serde_json::Error>>, ()>) -> (r: Option<
    Result<serde_json::Value, ReaderError>,
>)
    ensures
        r == pulled_reply(pulled),
{
    match pulled {
        Ok(Some(Ok(v))) => Some(Ok(v)),
        Ok(Some(Err(e))) => Some(Err(ReaderError::JsonError(e))),
        Ok(None) => None,
        Err(()) => Some(Err(ReaderError::InitializationError("Mutex lock poisoned"))),
    }
}

/// A reader of concatenated JSON values: each value in the input is one
/// record, with its JSON types kept as they are.
pub struct JsonStreamReader {
    file_path: String,
    stage: Stage<SharedStream>,
}

impl JsonStreamReader {
    pub closed spec fn file_path_spec(&self) -> Seq<char> {
        self.file_path@
    }

    pub closed spec fn phase(&self) -> Phase {
        self.stage.phase()
    }

    pub fn new(file_path: String) -> (r: Self)
        ensures
            r.file_path_spec() == file_path@,
            r.phase() == Phase::Uninitialized,
    {
        JsonStreamReader { file_path, stage: Stage::Uninitialized }
    }

    pub fn file_path(&self) -> (r: &String)
        ensures
            r@ == self.file_path_spec(),
    {
        &self.file_path
    }

    pub fn current_phase(&self) -> (r: Phase)
        ensures
            r == self.phase(),
    {
        self.stage.phase_of()
    }

    /// A second reader on the same open stream: every value goes to exactly one
    /// of the readers that share it. Only an active reader can be shared.
    pub fn share(&self) -> (r: Option<Self>)
        ensures
            r is Some <==> self.phase() == Phase::Active,
            r matches Some(h) ==> h.phase() == Phase::Active && h.file_path_spec() == self.file_path_spec(),
    {
        match &self.stage {
            Stage::Active(stream) => Some(
                JsonStreamReader { file_path: self.file_path.clone(), stage: Stage::Active(share_stream(stream)) },
            ),
            _ => None,
        }
    }

    /// Whether the next `read_item` must be handed the outcome of opening
    /// `file_path`; this is so only before the first read.
    pub fn needs_source(&self) -> (r: bool)
        ensures
            r == (self.phase() == Phase::Uninitialized),
    {
        match self.stage {
            Stage::Uninitialized => true,
            _ => false,
        }
    }

    /// Takes the outcome of opening `file_path`: an open input gets a shared
    /// stream cursor; a failed open is returned as `IoError` and leaves the reader
    /// failed.
    pub fn init<R: std::io::Read + Send + 'static>(&mut self, opened: Result<R, std::io::Error>) -> (r: Result<
        (),
        ReaderError,
    >)
        requires
            old(self).phase() == Phase::Uninitialized,
        ensures
            final(self).file_path_spec() == old(self).file_path_spec(),
            opened is Ok ==> r is Ok && final(self).phase() == Phase::Active,
            opened matches Err(e) ==> r == Err::<(), ReaderError>(ReaderError::IoError(e)) && final(self).phase()
                == Phase::Failed,
    {
        match opened {
            Ok(source) => {
                self.stage = Stage::Active(open_stream(source));
                Ok(())
            },
            Err(e) => {
                self.stage = Stage::Failed;
                Err(ReaderError::IoError(e))
            },
        }
    }

    /// Reads the next JSON value.
    ///
    /// `opened` is the outcome of opening `file_path`, given exactly when
    /// `needs_source` holds. A failed open is returned once as `IoError`; after it
    /// the reader only reports the end (`None`). A malformed value gives a
    /// `JsonError` and reading goes on where the parser resumes; a poisoned lock
    /// gives an `InitializationError` on every call.
    pub fn read_item<R: std::io::Read + Send + 'static>(
        &mut self,
        opened: Option<Result<R, std::io::Error>>,
    ) -> (r: Option<Result<serde_json::Value, ReaderError>>)
        requires
            opened is Some <==> old(self).phase() == Phase::Uninitialized,
        ensures
            final(self).file_path_spec() == old(self).file_path_spec(),
            is_step(old(self).phase(), opened_kind(opened), reply_of(r), final(self).phase()),
            opened matches Some(Err(e)) ==> r == Some(Err::<serde_json::Value, ReaderError>(ReaderError::IoError(e))),
            opened_kind(opened) != Some(false) ==> (r matches Some(Err(e)) ==> e is JsonError
                || e == ReaderError::InitializationError("Mutex lock poisoned")),
            opened_kind(opened) != Some(false) && !old(self).phase().is_done() ==> exists|
                pulled: Result<Option<Result<serde_json::Value, serde_json::Error>>, ()>,
            | r == #[trigger] pulled_reply(pulled),
    {
        if let Some(o) = opened {
            if let Err(e) = self.init(o) {
                return Some(Err(e));
            }
        }
        let r = match &self.stage {
            Stage::Active(stream) => reply_to_pull(pull(stream)),
            _ => {
                return None;
            },
        };
        if r.is_none() {
            self.stage = Stage::Exhausted;
        }
        r
    }
}

} // verus!
