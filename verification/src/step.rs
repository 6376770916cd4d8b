//! What is to be done next for a connection.
//!
//! The library reads no files. Where an answer depends on a backing file it
//! asks for that file with `Step::Read` and says, in a `Pending`, what it
//! will do with the contents once the caller hands them over.

use crate::error::ServerError;
use crate::response::{Response, ResponseView, Status};
use vstd::prelude::*;

verus! {

/// What remains to be done once a backing file has been read.
#[derive(Clone, Debug, PartialEq, Eq)]
pub enum Pending {
    /// The contents are the body of a response with this status and type.
    Body { status: Status, content_type: &'static str },
    /// The contents are the record store that the search at `path` runs on.
    Store { path: String },
}

/// A `Pending` as a mathematical value.
pub enum PendingView {
    /// The contents are the body of a response with this status and type.
    Body { status: Status, content_type: Seq<char> },
    /// The contents are the record store that the search at `path` runs on.
    Store { path: Seq<char> },
}

impl View for Pending {
    type V = PendingView;

    open spec fn view(&self) -> PendingView {
        match self {
            Pending::Body { status, content_type } => PendingView::Body {
                status: *status,
                content_type: content_type@,
            },
            Pending::Store { path } => PendingView::Store { path: path@ },
        }
    }
}

/// The next thing to do for a connection.
#[derive(Clone, Debug, PartialEq, Eq)]
pub enum Step {
    /// Read the backing file at `path` and come back with its contents.
    Read { path: String, then: Pending },
    /// Send the response; the connection is done.
    Send(Response),
}

/// A `Step` as a mathematical value.
pub enum StepView {
    /// Read the backing file at `path` and come back with its contents.
    Read { path: Seq<char>, then: PendingView },
    /// Send the response; the connection is done.
    Send(ResponseView),
}

impl View for Step {
    type V = StepView;

    open spec fn view(&self) -> StepView {
        match self {
            Step::Read { path, then } => StepView::Read { path: path@, then: then@ },
            Step::Send(response) => StepView::Send(response@),
        }
    }
}

/// The step that asks for the file at `path`, whose contents become the body
/// of a response with the given status and content type.
pub open spec fn serve(path: Seq<char>, status: Status, content_type: Seq<char>) -> StepView {
    StepView::Read { path, then: PendingView::Body { status, content_type } }
}

/// The step that sends a response with the given parts.
pub open spec fn send(status: Status, content_type: Seq<char>, body: Seq<char>) -> StepView {
    StepView::Send(ResponseView { status, content_type, body })
}

/// The outcome of a handler as a mathematical value.
pub open spec fn outcome_view(r: Result<Step, ServerError>) -> Result<StepView, ServerError> {
    match r {
        Ok(step) => Ok(step@),
        Err(e) => Err(e),
    }
}

/// Asks for the file at `path` to answer with its contents.
pub fn serve_file(path: &str, status: Status, content_type: &'static str) -> (step: Step)
    ensures
        step@ == serve(path@, status, content_type@),
{
    Step::Read { path: path.to_owned(), then: Pending::Body { status, content_type } }
}

/// Answers with `body`.
pub fn send_body(status: Status, content_type: &'static str, body: String) -> (step: Step)
    ensures
        step@ == send(status, content_type@, body@),
{
    Step::Send(Response { status, content_type, body })
}

} // verus!
