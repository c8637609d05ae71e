//! The decisions of one transfer: request, open the destination, stream the
//! body, finish. The caller performs each action and reports what happened.

use vstd::prelude::*;

verus! {

/// Why a transfer failed.
#[derive(Clone, Copy, Debug, PartialEq, Eq, Structural)]
pub enum FailureKind {
    /// The request or the response body could not be had from the network.
    Request,
    /// The destination could not be opened for writing.
    FileCreate,
    /// Writing a chunk to the destination failed.
    Write,
}

/// How a transfer ended.
#[derive(Clone, Copy, Debug, PartialEq, Eq, Structural)]
pub enum Outcome {
    Success,
    Failure(FailureKind),
}

/// Where a transfer stands.
#[derive(Clone, Copy, Debug, PartialEq, Eq, Structural)]
pub enum Phase {
    /// The GET request is on its way.
    Requesting,
    /// The response came; the destination is being opened.
    Opening,
    /// The body is being copied to the destination.
    Streaming,
    /// Nothing more happens.
    Finished(Outcome),
}

/// What happened since the last step.
#[derive(Clone, Copy, Debug)]
pub enum Event {
    /// The response arrived, with its declared length if it had one.
    Responded { content_length: Option<u64> },
    /// The request failed (connection, DNS, TLS, timeout).
    RequestFailed,
    /// The destination was opened and truncated.
    FileCreated,
    /// The destination could not be opened.
    FileCreateFailed,
    /// A chunk of `len` bytes was written to the destination.
    ChunkWritten { len: u64 },
    /// Writing a chunk failed.
    WriteFailed,
    /// Reading the body failed part way.
    BodyFailed,
    /// The body is exhausted.
    BodyEnded,
}

/// What the caller does next.
#[derive(Clone, Copy, Debug, PartialEq, Eq, Structural)]
pub enum Action {
    /// Open the destination for writing, truncating it.
    CreateFile,
    /// Read the next chunk of the body (and write it, if there is one).
    ReadChunk,
    /// Show the outcome; the transfer is over.
    Finish(Outcome),
    /// The event does not belong to this phase; nothing to do.
    Ignore,
}

/// The state of one transfer: its phase, the declared length of the body
/// (0 when unknown) and the bytes written so far.
#[derive(Clone, Copy, Debug, PartialEq, Eq, Structural)]
pub struct Transfer {
    pub phase: Phase,
    pub total: u64,
    pub received: u64,
}

/// `a + b`, held at `u64::MAX`.
pub open spec fn add_capped(a: u64, b: u64) -> u64 {
    if a + b > u64::MAX {
        u64::MAX
    } else {
        (a + b) as u64
    }
}

/// The transition table: the next state and the action for event `e` in
/// state `t`. An event that does not fit the phase changes nothing.
pub open spec fn transition(t: Transfer, e: Event) -> (Transfer, Action) {
    match (t.phase, e) {
        (Phase::Requesting, Event::Responded { content_length }) => (
            Transfer {
                phase: Phase::Opening,
                total: match content_length {
                    Some(n) => n,
                    None => 0,
                },
                ..t
            },
            Action::CreateFile,
        ),
        (Phase::Requesting, Event::RequestFailed) => {
            let o = Outcome::Failure(FailureKind::Request);
            (Transfer { phase: Phase::Finished(o), ..t }, Action::Finish(o))
        },
        (Phase::Opening, Event::FileCreated) => (
            Transfer { phase: Phase::Streaming, ..t },
            Action::ReadChunk,
        ),
        (Phase::Opening, Event::FileCreateFailed) => {
            let o = Outcome::Failure(FailureKind::FileCreate);
            (Transfer { phase: Phase::Finished(o), ..t }, Action::Finish(o))
        },
        (Phase::Streaming, Event::ChunkWritten { len }) => (
            Transfer { received: add_capped(t.received, len), ..t },
            Action::ReadChunk,
        ),
        (Phase::Streaming, Event::WriteFailed) => {
            let o = Outcome::Failure(FailureKind::Write);
            (Transfer { phase: Phase::Finished(o), ..t }, Action::Finish(o))
        },
        (Phase::Streaming, Event::BodyFailed) => {
            let o = Outcome::Failure(FailureKind::Request);
            (Transfer { phase: Phase::Finished(o), ..t }, Action::Finish(o))
        },
        (Phase::Streaming, Event::BodyEnded) => (
            Transfer { phase: Phase::Finished(Outcome::Success), ..t },
            Action::Finish(Outcome::Success),
        ),
        _ => (t, Action::Ignore),
    }
}

/// A finished transfer no longer changes, whatever is reported to it.
pub proof fn lemma_finished_is_final(t: Transfer, e: Event)
    requires
        t.phase is Finished,
    ensures
        transition(t, e) == (t, Action::Ignore),
{
}

/// Each transfer is finalised once: a step asks to show an outcome exactly
/// when it takes an unfinished transfer to its end, and that outcome is the
/// one recorded in the new phase.
pub proof fn lemma_finish_reported_once(t: Transfer, e: Event)
    ensures
        transition(t, e).1 is Finish <==> (!(t.phase is Finished) && transition(
            t,
            e,
        ).0.phase is Finished),
        transition(t, e).1 is Finish ==> transition(t, e).0.phase == Phase::Finished(
            transition(t, e).1->Finish_0,
        ),
{
}

/// The byte count never goes down, and a written chunk adds its length to it
/// (held at the largest `u64`).
pub proof fn lemma_progress_monotone(t: Transfer, e: Event)
    ensures
        transition(t, e).0.received >= t.received,
        t.phase is Streaming ==> match e {
            Event::ChunkWritten { len } => transition(t, e).0.received == add_capped(
                t.received,
                len,
            ),
            _ => transition(t, e).0.received == t.received,
        },
{
}

impl Transfer {
    /// A transfer whose request has just been sent.
    pub fn new() -> (r: Transfer)
        ensures
            r == (Transfer { phase: Phase::Requesting, total: 0, received: 0 }),
    {
        Transfer { phase: Phase::Requesting, total: 0, received: 0 }
    }

    /// Whether the transfer is over.
    pub fn is_finished(&self) -> (r: bool)
        ensures
            r == self.phase is Finished,
    {
        match self.phase {
            Phase::Finished(_) => true,
            _ => false,
        }
    }

    /// Takes in one event and says what to do next.
    pub fn step(&mut self, e: Event) -> (a: Action)
        ensures
            (*final(self), a) == transition(*old(self), e),
    {
        match (self.phase, e) {
            (Phase::Requesting, Event::Responded { content_length }) => {
                self.phase = Phase::Opening;
                self.total = match content_length {
                    Some(n) => n,
                    None => 0,
                };
                Action::CreateFile
            },
            (Phase::Requesting, Event::RequestFailed) => self.fail(FailureKind::Request),
            (Phase::Opening, Event::FileCreated) => {
                self.phase = Phase::Streaming;
                Action::ReadChunk
            },
            (Phase::Opening, Event::FileCreateFailed) => self.fail(FailureKind::FileCreate),
            (Phase::Streaming, Event::ChunkWritten { len }) => {
                self.received = self.received.saturating_add(len);
                Action::ReadChunk
            },
            (Phase::Streaming, Event::WriteFailed) => self.fail(FailureKind::Write),
            (Phase::Streaming, Event::BodyFailed) => self.fail(FailureKind::Request),
            (Phase::Streaming, Event::BodyEnded) => {
                self.phase = Phase::Finished(Outcome::Success);
                Action::Finish(Outcome::Success)
            },
            _ => Action::Ignore,
        }
    }

    fn fail(&mut self, kind: FailureKind) -> (a: Action)
        ensures
            *final(self) == (Transfer { phase: Phase::Finished(Outcome::Failure(kind)), ..*old(self) }),
            a == Action::Finish(Outcome::Failure(kind)),
    {
        self.phase = Phase::Finished(Outcome::Failure(kind));
        Action::Finish(Outcome::Failure(kind))
    }
}

} // verus!
