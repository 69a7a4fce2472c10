//! The upload pipeline of one request, as a state machine.
//!
//! The pipeline itself reads no request and touches no file. A driver does
//! that for it: it asks the request for its next part, creates files, reads
//! and writes chunks, and tells the pipeline what happened as an [`Event`].
//! The pipeline answers each event with the [`Action`] to perform next.
//!
//! A driver starts by asking the request for its first part. From then on:
//!
//! | action        | the driver ...                                   | and reports                                |
//! |---------------|--------------------------------------------------|--------------------------------------------|
//! | `CreateFile`  | creates the file, truncating an existing one     | `FileCreated` or `FileCreateFailed`        |
//! | `ReadChunk`   | reads the next chunk of the part                 | `Chunk`, `PartEnded` or `ReadFailed`       |
//! | `Write`       | appends the bytes to the file                    | `Written` or `WriteFailed`                 |
//! | `FinishPart`  | closes the file, then asks for the next part     | `Part`, `NoMoreParts` or `Malformed`       |
//! | `RefusePart`  | skips the part, then asks for the next part      | `Part`, `NoMoreParts` or `Malformed`       |
//! | `Respond`     | sends the reply; the request is over             | nothing                                    |
//!
//! Parts are handled one after the other, and the chunks of a part in the
//! order in which they arrive. A chunk is handed on for writing as soon as
//! it comes in; the pipeline keeps none.
//!
//! A part that asks for a file name that is not plain is refused before
//! anything is created. A part whose file cannot be created or written, or
//! whose chunk stream breaks off, is given up. In each case the part is
//! recorded as failed and the pipeline goes on with the next part. A body
//! whose framing is broken ends the request: it is answered like any other,
//! with the first failure recorded.
//!
//! A file is created at its final path and written in place. A part that is
//! given up after its file was created leaves the file as far as it was
//! written, and two requests that store under one name at the same time are
//! not kept apart: the bytes written last stay.

use crate::destination::{destination, destination_of, text_of};
use crate::reply::{reply_for, reply_of, summarize, summary_of, Failure, PartOutcome, Reply, Summary};
use vstd::prelude::*;
use vstd::string::*;

verus! {

/// What the driver reports to the pipeline.
#[derive(Clone, Debug, PartialEq, Eq)]
pub enum Event {
    /// The request yielded its next part, with the file name that the client
    /// supplied for it, if any.
    Part { filename: Option<String> },
    /// The request holds no further part.
    NoMoreParts,
    /// The framing of the request body is broken: asked for its next part,
    /// the request yielded an error.
    Malformed,
    /// The destination file was created and is empty.
    FileCreated,
    /// The destination file could not be created.
    FileCreateFailed,
    /// The part yielded its next chunk.
    Chunk { bytes: Vec<u8> },
    /// The part holds no further chunk.
    PartEnded,
    /// Reading the next chunk of the part failed.
    ReadFailed,
    /// The chunk was appended to the destination file.
    Written,
    /// The chunk could not be written to the destination file.
    WriteFailed,
}

/// What the pipeline asks the driver to do.
#[derive(Clone, Debug, PartialEq, Eq)]
pub enum Action {
    /// Create the file at `path`, truncating it if it exists.
    CreateFile { path: String },
    /// Read the next chunk of the current part.
    ReadChunk,
    /// Append `bytes` to the file of the current part.
    Write { bytes: Vec<u8> },
    /// The part whose file is at `path` is over and ended as `outcome` says:
    /// close its file, then ask the request for its next part.
    FinishPart { path: String, outcome: PartOutcome },
    /// The part is refused for `reason` and nothing was created for it: skip
    /// it, then ask the request for its next part.
    RefusePart { reason: Failure },
    /// Send `reply` to the client.
    Respond { reply: Reply },
}

/// Where the pipeline stands.
#[derive(Clone, Debug, PartialEq, Eq)]
pub enum Phase {
    /// Waiting for the next part of the request.
    AwaitingPart,
    /// Waiting for the file at `path` to be created.
    Creating { path: String },
    /// Waiting for the next chunk of the part stored at `path`.
    AwaitingChunk { path: String },
    /// Waiting for a chunk to be written to the file at `path`.
    Writing { path: String },
    /// The reply was given.
    Finished,
}

/// Why the pipeline refused an event.
#[derive(Clone, Copy, Debug, PartialEq, Eq, Structural)]
pub enum StepError {
    /// The reply was given already; the pipeline takes no further event.
    Finished,
    /// The event does not answer the action that the pipeline asked for.
    Unexpected,
}

/// The model of an [`Event`].
pub enum EventView {
    Part { filename: Option<Seq<char>> },
    NoMoreParts,
    Malformed,
    FileCreated,
    FileCreateFailed,
    Chunk { bytes: Seq<u8> },
    PartEnded,
    ReadFailed,
    Written,
    WriteFailed,
}

/// The model of an [`Action`].
pub enum ActionView {
    CreateFile { path: Seq<char> },
    ReadChunk,
    Write { bytes: Seq<u8> },
    FinishPart { path: Seq<char>, outcome: PartOutcome },
    RefusePart { reason: Failure },
    Respond { reply: Reply },
}

/// The model of a [`Phase`].
pub enum PhaseView {
    AwaitingPart,
    Creating { path: Seq<char> },
    AwaitingChunk { path: Seq<char> },
    Writing { path: Seq<char> },
    Finished,
}

/// The model of a [`Pipeline`]: the upload directory, where the pipeline
/// stands, and how the parts handled so far ended, in order.
pub struct PipelineView {
    pub dir: Seq<char>,
    pub phase: PhaseView,
    pub outcomes: Seq<PartOutcome>,
}

impl View for Event {
    type V = EventView;

    open spec fn view(&self) -> EventView {
        match *self {
            Event::Part { filename } => EventView::Part { filename: text_of(filename) },
            Event::NoMoreParts => EventView::NoMoreParts,
            Event::Malformed => EventView::Malformed,
            Event::FileCreated => EventView::FileCreated,
            Event::FileCreateFailed => EventView::FileCreateFailed,
            Event::Chunk { bytes } => EventView::Chunk { bytes: bytes@ },
            Event::PartEnded => EventView::PartEnded,
            Event::ReadFailed => EventView::ReadFailed,
            Event::Written => EventView::Written,
            Event::WriteFailed => EventView::WriteFailed,
        }
    }
}

impl View for Action {
    type V = ActionView;

    open spec fn view(&self) -> ActionView {
        match *self {
            Action::CreateFile { path } => ActionView::CreateFile { path: path@ },
            Action::ReadChunk => ActionView::ReadChunk,
            Action::Write { bytes } => ActionView::Write { bytes: bytes@ },
            Action::FinishPart { path, outcome } => ActionView::FinishPart { path: path@, outcome },
            Action::RefusePart { reason } => ActionView::RefusePart { reason },
            Action::Respond { reply } => ActionView::Respond { reply },
        }
    }
}

impl View for Phase {
    type V = PhaseView;

    open spec fn view(&self) -> PhaseView {
        match *self {
            Phase::AwaitingPart => PhaseView::AwaitingPart,
            Phase::Creating { path } => PhaseView::Creating { path: path@ },
            Phase::AwaitingChunk { path } => PhaseView::AwaitingChunk { path: path@ },
            Phase::Writing { path } => PhaseView::Writing { path: path@ },
            Phase::Finished => PhaseView::Finished,
        }
    }
}

impl PipelineView {
    /// The pipeline of a request of which nothing was handled yet.
    pub open spec fn fresh(dir: Seq<char>) -> PipelineView {
        PipelineView { dir, phase: PhaseView::AwaitingPart, outcomes: Seq::empty() }
    }

    /// The pipeline after the part stored at `path` ended as `outcome` says,
    /// and the action that ends the part.
    pub open spec fn finish_part(self, path: Seq<char>, outcome: PartOutcome) -> (
        PipelineView,
        ActionView,
    ) {
        (
            PipelineView {
                dir: self.dir,
                phase: PhaseView::AwaitingPart,
                outcomes: self.outcomes.push(outcome),
            },
            ActionView::FinishPart { path, outcome },
        )
    }

    /// The pipeline after a part was refused for `reason` before anything was
    /// created for it, and the action that skips the part.
    pub open spec fn refuse_part(self, reason: Failure) -> (PipelineView, ActionView) {
        (
            PipelineView {
                dir: self.dir,
                phase: PhaseView::AwaitingPart,
                outcomes: self.outcomes.push(PartOutcome::Failed(reason)),
            },
            ActionView::RefusePart { reason },
        )
    }

    /// The pipeline after the request ended with `outcomes` recorded, and the
    /// action that answers it.
    pub open spec fn respond(self, outcomes: Seq<PartOutcome>) -> (PipelineView, ActionView) {
        (
            PipelineView { dir: self.dir, phase: PhaseView::Finished, outcomes },
            ActionView::Respond { reply: reply_of(outcomes) },
        )
    }

    /// The pipeline in another phase.
    pub open spec fn moved_to(self, phase: PhaseView) -> PipelineView {
        PipelineView { dir: self.dir, phase, outcomes: self.outcomes }
    }

    /// What the pipeline does on `event`: the state it goes to and the action
    /// it asks for, or `None` where it refuses the event.
    pub open spec fn transition(self, event: EventView) -> Option<(PipelineView, ActionView)> {
        match self.phase {
            PhaseView::AwaitingPart => match event {
                EventView::Part { filename } => match destination_of(self.dir, filename) {
                    Some(path) => Some(
                        (
                            self.moved_to(PhaseView::Creating { path }),
                            ActionView::CreateFile { path },
                        ),
                    ),
                    None => Some(self.refuse_part(Failure::UnsafeName)),
                },
                EventView::NoMoreParts => Some(self.respond(self.outcomes)),
                EventView::Malformed => Some(
                    self.respond(
                        self.outcomes.push(PartOutcome::Failed(Failure::MalformedBody)),
                    ),
                ),
                _ => None,
            },
            PhaseView::Creating { path } => match event {
                EventView::FileCreated => Some(
                    (self.moved_to(PhaseView::AwaitingChunk { path }), ActionView::ReadChunk),
                ),
                EventView::FileCreateFailed => Some(
                    self.finish_part(path, PartOutcome::Failed(Failure::CreateFile)),
                ),
                _ => None,
            },
            PhaseView::AwaitingChunk { path } => match event {
                EventView::Chunk { bytes } => Some(
                    (self.moved_to(PhaseView::Writing { path }), ActionView::Write { bytes }),
                ),
                EventView::PartEnded => Some(self.finish_part(path, PartOutcome::Stored)),
                EventView::ReadFailed => Some(
                    self.finish_part(path, PartOutcome::Failed(Failure::ReadChunk)),
                ),
                _ => None,
            },
            PhaseView::Writing { path } => match event {
                EventView::Written => Some(
                    (self.moved_to(PhaseView::AwaitingChunk { path }), ActionView::ReadChunk),
                ),
                EventView::WriteFailed => Some(
                    self.finish_part(path, PartOutcome::Failed(Failure::WriteChunk)),
                ),
                _ => None,
            },
            PhaseView::Finished => None,
        }
    }

    /// Whether the pipeline takes `event` in the state it is in.
    pub open spec fn accepts(self, event: EventView) -> bool {
        self.transition(event) is Some
    }
}

/// The line that tells the console that a part was stored at `path`; a part
/// that failed is not announced.
pub open spec fn notice_of(path: Seq<char>, outcome: PartOutcome) -> Option<Seq<char>> {
    match outcome {
        PartOutcome::Stored => Some("Successfully uploaded: "@ + path),
        PartOutcome::Failed(_) => None,
    }
}

/// The line to print on the console when the part stored at `path` has
/// ended as `outcome` says: one line for each part that was stored, none for
/// a part that failed.
pub fn completion_notice(path: &str, outcome: PartOutcome) -> (notice: Option<String>)
    ensures
        text_of(notice) == notice_of(path@, outcome),
{
    match outcome {
        PartOutcome::Stored => {
            let mut line = String::from_str("Successfully uploaded: ");
            line.append(path);
            Some(line)
        },
        PartOutcome::Failed(_) => None,
    }
}

/// The upload pipeline of one request.
pub struct Pipeline {
    dir: String,
    phase: Phase,
    outcomes: Vec<PartOutcome>,
}

impl View for Pipeline {
    type V = PipelineView;

    closed spec fn view(&self) -> PipelineView {
        PipelineView { dir: self.dir@, phase: self.phase@, outcomes: self.outcomes@ }
    }
}

impl Pipeline {
    /// The pipeline of a new request, which stores its parts in `dir`.
    pub fn new(dir: &str) -> (pipeline: Pipeline)
        ensures
            pipeline@ == PipelineView::fresh(dir@),
    {
        Pipeline { dir: String::from_str(dir), phase: Phase::AwaitingPart, outcomes: Vec::new() }
    }

    /// The directory that the parts are stored in.
    pub fn dir(&self) -> (dir: &str)
        ensures
            dir@ == self@.dir,
    {
        self.dir.as_str()
    }

    /// Where the pipeline stands.
    pub fn phase(&self) -> (phase: &Phase)
        ensures
            phase@ == self@.phase,
    {
        &self.phase
    }

    /// How the parts handled so far ended, in the order of the parts.
    pub fn outcomes(&self) -> (outcomes: &Vec<PartOutcome>)
        ensures
            outcomes@ == self@.outcomes,
    {
        &self.outcomes
    }

    /// Whether the reply was given.
    pub fn is_finished(&self) -> (b: bool)
        ensures
            b == (self@.phase is Finished),
    {
        match self.phase {
            Phase::Finished => true,
            _ => false,
        }
    }

    /// The summary of the parts handled so far.
    pub fn summary(&self) -> (summary: Summary)
        ensures
            summary == summary_of(self@.outcomes),
    {
        summarize(&self.outcomes)
    }

    /// Whether the pipeline takes `event` in the state it is in.
    pub fn expects(&self, event: &Event) -> (b: bool)
        ensures
            b == self@.accepts(event@),
    {
        match self.phase {
            Phase::AwaitingPart => match event {
                Event::Part { .. } => true,
                Event::NoMoreParts => true,
                Event::Malformed => true,
                _ => false,
            },
            Phase::Creating { .. } => match event {
                Event::FileCreated => true,
                Event::FileCreateFailed => true,
                _ => false,
            },
            Phase::AwaitingChunk { .. } => match event {
                Event::Chunk { .. } => true,
                Event::PartEnded => true,
                Event::ReadFailed => true,
                _ => false,
            },
            Phase::Writing { .. } => match event {
                Event::Written => true,
                Event::WriteFailed => true,
                _ => false,
            },
            Phase::Finished => false,
        }
    }

    /// Ends the part stored at `path`: records its outcome and waits for the
    /// next part.
    fn end_part(&mut self, path: String, outcome: PartOutcome) -> (action: Action)
        ensures
            (final(self)@, action@) == old(self)@.finish_part(path@, outcome),
    {
        self.outcomes.push(outcome);
        self.phase = Phase::AwaitingPart;
        Action::FinishPart { path, outcome }
    }

    /// Takes up a part that arrived: asks for its file if the name it asks
    /// for is plain, and refuses it if not.
    fn begin_part(&mut self, filename: &Option<String>) -> (action: Action)
        requires
            old(self)@.phase is AwaitingPart,
        ensures
            old(self)@.transition(EventView::Part { filename: text_of(*filename) }) == Some(
                (final(self)@, action@),
            ),
    {
        match destination(self.dir.as_str(), filename) {
            Some(path) => {
                self.phase = Phase::Creating { path: path.clone() };
                Action::CreateFile { path }
            },
            None => {
                self.outcomes.push(PartOutcome::Failed(Failure::UnsafeName));
                Action::RefusePart { reason: Failure::UnsafeName }
            },
        }
    }

    /// Ends the request: gives the reply to the outcomes recorded.
    fn answer(&mut self) -> (action: Action)
        ensures
            (final(self)@, action@) == old(self)@.respond(old(self)@.outcomes),
    {
        let reply = reply_for(&self.outcomes);
        self.phase = Phase::Finished;
        Action::Respond { reply }
    }

    /// Takes what the driver reports and says what to do next.
    ///
    /// The pipeline takes an event only if it answers the action asked for
    /// last. It then moves as [`PipelineView::transition`] says. Any other
    /// event is refused and leaves the pipeline as it was: with
    /// `StepError::Finished` once the reply was given, with
    /// `StepError::Unexpected` before.
    pub fn step(&mut self, event: Event) -> (result: Result<Action, StepError>)
        ensures
            match result {
                Ok(action) => old(self)@.transition(event@) == Some((final(self)@, action@)),
                Err(error) => {
                    &&& old(self)@.transition(event@) is None
                    &&& final(self)@ == old(self)@
                    &&& error == StepError::Finished <==> old(self)@.phase is Finished
                },
            },
    {
        match event {
            Event::Part { filename } => {
                if let Phase::AwaitingPart = self.phase {
                    Ok(self.begin_part(&filename))
                } else {
                    Err(self.refusal())
                }
            },
            Event::NoMoreParts => {
                if let Phase::AwaitingPart = self.phase {
                    Ok(self.answer())
                } else {
                    Err(self.refusal())
                }
            },
            Event::Malformed => {
                if let Phase::AwaitingPart = self.phase {
                    self.outcomes.push(PartOutcome::Failed(Failure::MalformedBody));
                    Ok(self.answer())
                } else {
                    Err(self.refusal())
                }
            },
            Event::FileCreated => {
                if let Phase::Creating { path } = &self.phase {
                    let path = path.clone();
                    self.phase = Phase::AwaitingChunk { path };
                    Ok(Action::ReadChunk)
                } else {
                    Err(self.refusal())
                }
            },
            Event::FileCreateFailed => {
                if let Phase::Creating { path } = &self.phase {
                    let path = path.clone();
                    Ok(self.end_part(path, PartOutcome::Failed(Failure::CreateFile)))
                } else {
                    Err(self.refusal())
                }
            },
            Event::Chunk { bytes } => {
                if let Phase::AwaitingChunk { path } = &self.phase {
                    let path = path.clone();
                    self.phase = Phase::Writing { path };
                    Ok(Action::Write { bytes })
                } else {
                    Err(self.refusal())
                }
            },
            Event::PartEnded => {
                if let Phase::AwaitingChunk { path } = &self.phase {
                    let path = path.clone();
                    Ok(self.end_part(path, PartOutcome::Stored))
                } else {
                    Err(self.refusal())
                }
            },
            Event::ReadFailed => {
                if let Phase::AwaitingChunk { path } = &self.phase {
                    let path = path.clone();
                    Ok(self.end_part(path, PartOutcome::Failed(Failure::ReadChunk)))
                } else {
                    Err(self.refusal())
                }
            },
            Event::Written => {
                if let Phase::Writing { path } = &self.phase {
                    let path = path.clone();
                    self.phase = Phase::AwaitingChunk { path };
                    Ok(Action::ReadChunk)
                } else {
                    Err(self.refusal())
                }
            },
            Event::WriteFailed => {
                if let Phase::Writing { path } = &self.phase {
                    let path = path.clone();
                    Ok(self.end_part(path, PartOutcome::Failed(Failure::WriteChunk)))
                } else {
                    Err(self.refusal())
                }
            },
        }
    }

    /// The error with which an event is refused in the state the pipeline is
    /// in.
    fn refusal(&self) -> (error: StepError)
        ensures
            error == StepError::Finished <==> self@.phase is Finished,
    {
        match self.phase {
            Phase::Finished => StepError::Finished,
            _ => StepError::Unexpected,
        }
    }
}

} // verus!
