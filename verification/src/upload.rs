//! Receiving the files of a gallery, part by part.
//!
//! The parts that follow the listing each carry one file. For every part the
//! caller reads the head, then the body, then writes the file; after each of
//! these it reports how it went and is told what to do next. The first
//! failure ends the upload with the reply that the client gets.

use crate::part::{PartHead, PartHeadView};
use crate::reply::{items_view, outcome_view, Reply, ReplyView, Status};
use vstd::prelude::*;

verus! {

/// The message for a part that names no file.
pub const EMPTY_FILENAME: &'static str = "Empty filename";

/// The message for a report that does not answer the work that was asked for.
pub const UNEXPECTED_EVENT: &'static str = "Unexpected event";

/// What the caller reports.
#[derive(Debug, PartialEq, Eq)]
pub enum UploadEvent {
    /// The head of the next part, `None` after the last part.
    Part(Result<Option<PartHead>, String>),
    /// The body of the part whose head came last.
    Bytes(Result<Vec<u8>, String>),
    /// How writing the file went.
    Written(Result<(), String>),
}

pub enum UploadEventView {
    Part(Result<Option<PartHeadView>, Seq<char>>),
    Bytes(Result<Seq<u8>, Seq<char>>),
    Written(Result<(), Seq<char>>),
}

impl View for UploadEvent {
    type V = UploadEventView;

    open spec fn view(&self) -> UploadEventView {
        match self {
            UploadEvent::Part(part) => UploadEventView::Part(outcome_view(*part)),
            UploadEvent::Bytes(data) => UploadEventView::Bytes(items_view(*data)),
            UploadEvent::Written(outcome) => UploadEventView::Written(outcome_view(*outcome)),
        }
    }
}

/// What the caller is asked to do.
#[derive(Clone, Debug, PartialEq, Eq)]
pub enum UploadAction {
    /// Read the head of the next part.
    NextPart,
    /// Read the body of the current part.
    ReadBytes,
    /// Write `data` to the file `file_name` of the gallery.
    WriteFile { file_name: String, data: Vec<u8> },
}

pub enum UploadActionView {
    NextPart,
    ReadBytes,
    WriteFile { file_name: Seq<char>, data: Seq<u8> },
}

impl View for UploadAction {
    type V = UploadActionView;

    open spec fn view(&self) -> UploadActionView {
        match self {
            UploadAction::NextPart => UploadActionView::NextPart,
            UploadAction::ReadBytes => UploadActionView::ReadBytes,
            UploadAction::WriteFile { file_name, data } => UploadActionView::WriteFile {
                file_name: file_name@,
                data: data@,
            },
        }
    }
}

/// Where an upload stands: which report it waits for.
#[derive(Clone, Debug, PartialEq, Eq)]
pub enum UploadState {
    AwaitingPart,
    AwaitingBytes { file_name: String },
    AwaitingWrite,
}

pub enum UploadStateView {
    AwaitingPart,
    AwaitingBytes { file_name: Seq<char> },
    AwaitingWrite,
}

impl View for UploadState {
    type V = UploadStateView;

    open spec fn view(&self) -> UploadStateView {
        match self {
            UploadState::AwaitingPart => UploadStateView::AwaitingPart,
            UploadState::AwaitingBytes { file_name } => UploadStateView::AwaitingBytes {
                file_name: file_name@,
            },
            UploadState::AwaitingWrite => UploadStateView::AwaitingWrite,
        }
    }
}

/// What follows a report: more work, or the end of the upload.
#[derive(Debug, PartialEq, Eq)]
pub enum UploadStep {
    Continue { state: UploadState, action: UploadAction },
    Done { outcome: Result<(), Reply> },
}

pub enum UploadStepView {
    Continue { state: UploadStateView, action: UploadActionView },
    Done { outcome: Result<(), ReplyView> },
}

impl View for UploadStep {
    type V = UploadStepView;

    open spec fn view(&self) -> UploadStepView {
        match self {
            UploadStep::Continue { state, action } => UploadStepView::Continue {
                state: state@,
                action: action@,
            },
            UploadStep::Done { outcome: Ok(()) } => UploadStepView::Done { outcome: Ok(()) },
            UploadStep::Done { outcome: Err(reply) } => UploadStepView::Done {
                outcome: Err(reply@),
            },
        }
    }
}

impl UploadStepView {
    /// The upload ends with the failure `reply`.
    pub open spec fn failed(status: Status, message: Seq<char>) -> UploadStepView {
        UploadStepView::Done { outcome: Err(ReplyView::text(status, message)) }
    }
}

/// The step that follows `event` in `state`.
///
/// A part that cannot be read, that names no file or whose body cannot be
/// read is the client's fault; a file that cannot be written is the server's.
/// A report that does not answer the work asked for ends the upload as a
/// server fault.
pub open spec fn transition(state: UploadStateView, event: UploadEventView) -> UploadStepView {
    match (state, event) {
        (UploadStateView::AwaitingPart, UploadEventView::Part(Err(message))) => {
            UploadStepView::failed(Status::BadRequest, message)
        },
        (UploadStateView::AwaitingPart, UploadEventView::Part(Ok(None))) => {
            UploadStepView::Done { outcome: Ok(()) }
        },
        (UploadStateView::AwaitingPart, UploadEventView::Part(Ok(Some(head)))) => {
            match head.file_name {
                None => UploadStepView::failed(Status::BadRequest, EMPTY_FILENAME@),
                Some(file_name) => UploadStepView::Continue {
                    state: UploadStateView::AwaitingBytes { file_name },
                    action: UploadActionView::ReadBytes,
                },
            }
        },
        (UploadStateView::AwaitingBytes { file_name }, UploadEventView::Bytes(Err(message))) => {
            UploadStepView::failed(Status::BadRequest, message)
        },
        (UploadStateView::AwaitingBytes { file_name }, UploadEventView::Bytes(Ok(data))) => {
            UploadStepView::Continue {
                state: UploadStateView::AwaitingWrite,
                action: UploadActionView::WriteFile { file_name, data },
            }
        },
        (UploadStateView::AwaitingWrite, UploadEventView::Written(Err(message))) => {
            UploadStepView::failed(Status::InternalServerError, message)
        },
        (UploadStateView::AwaitingWrite, UploadEventView::Written(Ok(()))) => {
            UploadStepView::Continue {
                state: UploadStateView::AwaitingPart,
                action: UploadActionView::NextPart,
            }
        },
        _ => UploadStepView::failed(Status::InternalServerError, UNEXPECTED_EVENT@),
    }
}

fn failed(status: Status, message: String) -> (step: UploadStep)
    ensures
        step@ == UploadStepView::failed(status, message@),
{
    UploadStep::Done { outcome: Err(Reply::text(status, message)) }
}

fn unexpected() -> (step: UploadStep)
    ensures
        step@ == UploadStepView::failed(Status::InternalServerError, UNEXPECTED_EVENT@),
{
    UploadStep::Done { outcome: Err(Reply::fixed(Status::InternalServerError, UNEXPECTED_EVENT)) }
}

impl UploadState {
    /// The state an upload starts in, together with its first request.
    pub fn start() -> (first: UploadStep)
        ensures
            first@ == (UploadStepView::Continue {
                state: UploadStateView::AwaitingPart,
                action: UploadActionView::NextPart,
            }),
    {
        UploadStep::Continue { state: UploadState::AwaitingPart, action: UploadAction::NextPart }
    }

    /// Takes the caller's report and says what follows.
    pub fn step(self, event: UploadEvent) -> (next: UploadStep)
        ensures
            next@ == transition(self@, event@),
    {
        match self {
            UploadState::AwaitingPart => match event {
                UploadEvent::Part(Err(message)) => failed(Status::BadRequest, message),
                UploadEvent::Part(Ok(None)) => UploadStep::Done { outcome: Ok(()) },
                UploadEvent::Part(Ok(Some(head))) => match head.file_name {
                    None => UploadStep::Done {
                        outcome: Err(Reply::fixed(Status::BadRequest, EMPTY_FILENAME)),
                    },
                    Some(file_name) => UploadStep::Continue {
                        state: UploadState::AwaitingBytes { file_name },
                        action: UploadAction::ReadBytes,
                    },
                },
                _ => unexpected(),
            },
            UploadState::AwaitingBytes { file_name } => match event {
                UploadEvent::Bytes(Err(message)) => failed(Status::BadRequest, message),
                UploadEvent::Bytes(Ok(data)) => UploadStep::Continue {
                    state: UploadState::AwaitingWrite,
                    action: UploadAction::WriteFile { file_name, data },
                },
                _ => unexpected(),
            },
            UploadState::AwaitingWrite => match event {
                UploadEvent::Written(Err(message)) => failed(Status::InternalServerError, message),
                UploadEvent::Written(Ok(())) => UploadStep::Continue {
                    state: UploadState::AwaitingPart,
                    action: UploadAction::NextPart,
                },
                _ => unexpected(),
            },
        }
    }
}

} // verus!
