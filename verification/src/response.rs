//! What a handler answers: an HTTP status code and a typed body.
//!
//! The body is kept typed; turning it into JSON text is left to the caller.

use vstd::prelude::*;
use crate::model::{responses_view, NoteModelResponse, NoteResponseView};

verus! {

/// HTTP 200.
pub const HTTP_OK: u16 = 200;

/// HTTP 404.
pub const HTTP_NOT_FOUND: u16 = 404;

/// HTTP 409.
pub const HTTP_CONFLICT: u16 = 409;

/// HTTP 500.
pub const HTTP_INTERNAL_SERVER_ERROR: u16 = 500;

/// The top-level `status` field of a JSON body.
#[derive(Clone, Copy, Debug, PartialEq, Eq, Structural)]
pub enum Status {
    /// `"ok"`
    Okay,
    /// `"success"`
    Success,
    /// `"error"`
    Error,
    /// `"fail"`
    Fail,
}

impl Status {
    /// The text of the field.
    pub open spec fn text(self) -> Seq<char> {
        match self {
            Status::Okay => "ok"@,
            Status::Success => "success"@,
            Status::Error => "error"@,
            Status::Fail => "fail"@,
        }
    }

    pub fn as_str(self) -> (text: &'static str)
        ensures
            text@ == self.text(),
    {
        match self {
            Status::Okay => "ok",
            Status::Success => "success",
            Status::Error => "error",
            Status::Fail => "fail",
        }
    }
}

/// The body of a response.
#[derive(Clone, Debug, PartialEq, Eq)]
pub enum Body {
    /// No body at all.
    Empty,
    /// `{"status": <status>, "message": <message>}`
    Message { status: Status, message: String },
    /// `{"status": "success", "data": {"note": <note>}}`
    Note { note: NoteModelResponse },
    /// `{"status": "ok", "count": <count>, "notes": [<note>, ...]}`
    Notes { count: usize, notes: Vec<NoteModelResponse> },
}

/// The mathematical value of a [`Body`].
pub enum BodyView {
    Empty,
    Message { status: Status, message: Seq<char> },
    Note { note: NoteResponseView },
    Notes { count: nat, notes: Seq<NoteResponseView> },
}

impl View for Body {
    type V = BodyView;

    open spec fn view(&self) -> BodyView {
        match self {
            Body::Empty => BodyView::Empty,
            Body::Message { status, message } => BodyView::Message {
                status: *status,
                message: message@,
            },
            Body::Note { note } => BodyView::Note { note: note@ },
            Body::Notes { count, notes } => BodyView::Notes {
                count: *count as nat,
                notes: responses_view(notes@),
            },
        }
    }
}

impl BodyView {
    /// The `status` field of the body, where it has one.
    pub open spec fn status(self) -> Option<Status> {
        match self {
            BodyView::Empty => None,
            BodyView::Message { status, .. } => Some(status),
            BodyView::Note { .. } => Some(Status::Success),
            BodyView::Notes { .. } => Some(Status::Okay),
        }
    }
}

impl Body {
    /// The `status` field of the body, where it has one: a single note is
    /// always a `"success"`, a list of notes always `"ok"`.
    pub fn status(&self) -> (status: Option<Status>)
        ensures
            status == self@.status(),
    {
        match self {
            Body::Empty => None,
            Body::Message { status, .. } => Some(*status),
            Body::Note { .. } => Some(Status::Success),
            Body::Notes { .. } => Some(Status::Okay),
        }
    }
}

/// A complete answer to one request.
#[derive(Clone, Debug, PartialEq, Eq)]
pub struct Response {
    pub code: u16,
    pub body: Body,
}

/// The mathematical value of a [`Response`].
pub struct ResponseView {
    pub code: u16,
    pub body: BodyView,
}

impl View for Response {
    type V = ResponseView;

    open spec fn view(&self) -> ResponseView {
        ResponseView { code: self.code, body: self.body@ }
    }
}

/// The message that says that no note has the identifier `id`.
pub open spec fn not_found_message(id: Seq<char>) -> Seq<char> {
    "La nota con el ID: "@ + id + " no encontrado"@
}

impl ResponseView {
    /// The given code with a status and a message.
    pub open spec fn message(code: u16, status: Status, message: Seq<char>) -> ResponseView {
        ResponseView { code, body: BodyView::Message { status, message } }
    }

    /// 200 with no body.
    pub open spec fn empty() -> ResponseView {
        ResponseView { code: HTTP_OK, body: BodyView::Empty }
    }

    /// 200 with one note.
    pub open spec fn note(note: NoteResponseView) -> ResponseView {
        ResponseView { code: HTTP_OK, body: BodyView::Note { note } }
    }

    /// 200 with the given notes, in their order, and their number.
    pub open spec fn notes(notes: Seq<NoteResponseView>) -> ResponseView {
        ResponseView { code: HTTP_OK, body: BodyView::Notes { count: notes.len(), notes } }
    }

    /// The answer of the health check.
    pub open spec fn health() -> ResponseView {
        ResponseView::message(HTTP_OK, Status::Okay, "API"@)
    }

    /// 404: no note has the identifier `id`.
    pub open spec fn not_found(status: Status, id: Seq<char>) -> ResponseView {
        ResponseView::message(HTTP_NOT_FOUND, status, not_found_message(id))
    }

    /// 409: the identifier of a new note is taken.
    pub open spec fn conflict() -> ResponseView {
        ResponseView::message(HTTP_CONFLICT, Status::Error, "Note already exists"@)
    }

    /// 500: the datastore failed, with what it said of the failure.
    pub open spec fn internal_error(detail: Seq<char>) -> ResponseView {
        ResponseView::message(HTTP_INTERNAL_SERVER_ERROR, Status::Error, detail)
    }
}

impl Response {
    /// The given code with a status and a message.
    pub fn message(code: u16, status: Status, message: String) -> (response: Response)
        ensures
            response@ == ResponseView::message(code, status, message@),
    {
        Response { code, body: Body::Message { status, message } }
    }

    /// 200 with no body.
    pub fn empty() -> (response: Response)
        ensures
            response@ == ResponseView::empty(),
    {
        Response { code: HTTP_OK, body: Body::Empty }
    }

    /// 200 with one note.
    pub fn note(note: NoteModelResponse) -> (response: Response)
        ensures
            response@ == ResponseView::note(note@),
    {
        Response { code: HTTP_OK, body: Body::Note { note } }
    }

    /// 200 with the given notes, in their order, and their number.
    pub fn notes(notes: Vec<NoteModelResponse>) -> (response: Response)
        ensures
            response@ == ResponseView::notes(responses_view(notes@)),
    {
        let count: usize = notes.len();
        Response { code: HTTP_OK, body: Body::Notes { count, notes } }
    }

    /// 404: no note has the identifier `id`.
    pub fn not_found(status: Status, id: &str) -> (response: Response)
        ensures
            response@ == ResponseView::not_found(status, id@),
    {
        let mut message = String::from_str("La nota con el ID: ");
        message.append(id);
        message.append(" no encontrado");
        Response::message(HTTP_NOT_FOUND, status, message)
    }

    /// 409: the identifier of a new note is taken.
    pub fn conflict() -> (response: Response)
        ensures
            response@ == ResponseView::conflict(),
    {
        Response::message(HTTP_CONFLICT, Status::Error, String::from_str("Note already exists"))
    }

    /// 500: the datastore failed, with what it said of the failure.
    pub fn internal_error(detail: String) -> (response: Response)
        ensures
            response@ == ResponseView::internal_error(detail@),
    {
        Response::message(HTTP_INTERNAL_SERVER_ERROR, Status::Error, detail)
    }
}

} // verus!
