use vstd::prelude::*;

use crate::errors::ReaderError;

verus! {

/// Where a reader stands in its life, without the resource it holds.
#[derive(PartialEq, Eq, Structural, Clone, Copy, Debug)]
pub enum Phase {
    /// Nothing was opened yet: the next read opens the input.
    Uninitialized,
    /// The input is open and records are read from it.
    Active,
    /// The input reported its end.
    Exhausted,
    /// Opening the input failed, and that failure was reported.
    Failed,
}

/// The lifecycle of a reader, holding its open resource while it is active.
///
/// A reader never goes back to `Uninitialized`, and once `Exhausted` or
/// `Failed` it never leaves that stage.
pub enum Stage<S> {
    Uninitialized,
    Active(S),
    Exhausted,
    Failed,
}

impl<S> Stage<S> {
    pub open spec fn phase(&self) -> Phase {
        match self {
            Stage::Uninitialized => Phase::Uninitialized,
            Stage::Active(_) => Phase::Active,
            Stage::Exhausted => Phase::Exhausted,
            Stage::Failed => Phase::Failed,
        }
    }

    pub fn phase_of(&self) -> (r: Phase)
        ensures
            r == self.phase(),
    {
        match self {
            Stage::Uninitialized => Phase::Uninitialized,
            Stage::Active(_) => Phase::Active,
            Stage::Exhausted => Phase::Exhausted,
            Stage::Failed => Phase::Failed,
        }
    }
}

impl Phase {
    /// A stage from which no further record can come.
    pub open spec fn is_done(self) -> bool {
        self == Phase::Exhausted || self == Phase::Failed
    }

}

/// What one read hands back, as its caller sees it.
#[derive(PartialEq, Eq, Structural, Clone, Copy, Debug)]
pub enum Reply {
    Record,
    /// One malformed row or value; the next read goes on after it.
    Recoverable,
    /// The input cannot be read (`IoError`, `InitializationError`).
    Fatal,
    End,
}

pub open spec fn reply_of<T>(r: Option<Result<T, ReaderError>>) -> Reply {
    match r {
        None => Reply::End,
        Some(Ok(_)) => Reply::Record,
        Some(Err(e)) => if e.is_recoverable_spec() {
            Reply::Recoverable
        } else {
            Reply::Fatal
        },
    }
}

/// Whether an open was handed to the read, and if so whether it succeeded.
pub open spec fn opened_kind<R, E>(opened: Option<Result<R, E>>) -> Option<bool> {
    match opened {
        None => None,
        Some(o) => Some(o is Ok),
    }
}

/// A read on an open input: the end leaves the reader exhausted, anything else
/// leaves it active.
pub open spec fn continues(reply: Reply, after: Phase) -> bool {
    if reply == Reply::End {
        after == Phase::Exhausted
    } else {
        after == Phase::Active
    }
}

/// One read of any reader: from stage `before`, handed `opened`, it replies
/// `reply` and leaves the reader at stage `after`.
///
/// The input is opened by the first read only. A failed open is replied once, as
/// a fatal error, and leaves the reader failed; a failed or exhausted reader
/// replies only the end, and stays where it is.
pub open spec fn is_step(before: Phase, opened: Option<bool>, reply: Reply, after: Phase) -> bool {
    match before {
        Phase::Uninitialized => match opened {
            Some(false) => reply == Reply::Fatal && after == Phase::Failed,
            Some(true) => continues(reply, after),
            None => false,
        },
        Phase::Active => opened is None && continues(reply, after),
        _ => opened is None && reply == Reply::End && after == before,
    }
}

/// Successive reads of one reader: read `i` goes from `phases[i]` to
/// `phases[i + 1]`.
pub open spec fn is_trace(phases: Seq<Phase>, opened: Seq<Option<bool>>, replies: Seq<Reply>) -> bool {
    &&& phases.len() == replies.len() + 1
    &&& opened.len() == replies.len()
    &&& forall|i: int|
        0 <= i < replies.len() ==> is_step(phases[i], opened[i], #[trigger] replies[i], phases[i + 1])
}

/// Once a reader is failed or exhausted, it stays so and replies only the end.
pub proof fn lemma_done_stays_done(
    phases: Seq<Phase>,
    opened: Seq<Option<bool>>,
    replies: Seq<Reply>,
    k: int,
)
    requires
        is_trace(phases, opened, replies),
        0 <= k < phases.len(),
        phases[k].is_done(),
    ensures
        forall|i: int| k <= i < phases.len() ==> #[trigger] phases[i] == phases[k],
        forall|i: int| k <= i < replies.len() ==> #[trigger] replies[i] == Reply::End,
    decreases phases.len() - k,
{
    if k + 1 < phases.len() {
        assert(is_step(phases[k], opened[k], replies[k], phases[k + 1]));
        lemma_done_stays_done(phases, opened, replies, k + 1);
    }
}

/// A file that cannot be opened is reported exactly once: the first read
/// replies a fatal error, and every later read replies the end without being
/// handed another open.
pub proof fn lemma_failed_open_reported_once(
    phases: Seq<Phase>,
    opened: Seq<Option<bool>>,
    replies: Seq<Reply>,
)
    requires
        is_trace(phases, opened, replies),
        replies.len() >= 1,
        phases[0] == Phase::Uninitialized,
        opened[0] == Some(false),
    ensures
        replies[0] == Reply::Fatal,
        forall|i: int| 1 <= i < replies.len() ==> #[trigger] replies[i] == Reply::End,
        forall|i: int| 1 <= i < opened.len() ==> #[trigger] opened[i] is None,
{
    assert(is_step(phases[0], opened[0], replies[0], phases[1]));
    lemma_done_stays_done(phases, opened, replies, 1);
    assert forall|i: int| 1 <= i < opened.len() implies #[trigger] opened[i] is None by {
        assert(is_step(phases[i], opened[i], replies[i], phases[i + 1]));
    }
}

/// The end of the stream is final: after a read replies the end, every later
/// read replies the end too, and no read after the first is handed an open.
pub proof fn lemma_end_is_final(
    phases: Seq<Phase>,
    opened: Seq<Option<bool>>,
    replies: Seq<Reply>,
    k: int,
)
    requires
        is_trace(phases, opened, replies),
        phases[0] == Phase::Uninitialized,
        0 <= k < replies.len(),
        replies[k] == Reply::End,
    ensures
        forall|i: int| k <= i < replies.len() ==> #[trigger] replies[i] == Reply::End,
        forall|i: int| 1 <= i < opened.len() ==> #[trigger] opened[i] is None,
{
    assert(is_step(phases[k], opened[k], replies[k], phases[k + 1]));
    lemma_done_stays_done(phases, opened, replies, k + 1);
    lemma_never_uninitialized_again(phases, opened, replies);
    assert forall|i: int| 1 <= i < opened.len() implies #[trigger] opened[i] is None by {
        assert(is_step(phases[i], opened[i], replies[i], phases[i + 1]));
    }
}

/// Only the first read finds the reader uninitialized.
pub proof fn lemma_never_uninitialized_again(
    phases: Seq<Phase>,
    opened: Seq<Option<bool>>,
    replies: Seq<Reply>,
)
    requires
        is_trace(phases, opened, replies),
    ensures
        forall|i: int| 1 <= i < phases.len() ==> #[trigger] phases[i] != Phase::Uninitialized,
{
    assert forall|i: int| 1 <= i < phases.len() implies #[trigger] phases[i] != Phase::Uninitialized by {
        assert(is_step(phases[i - 1], opened[i - 1], replies[i - 1], phases[i]));
    }
}

} // verus!
