//! The response that goes out on the wire for an outcome.

use crate::failure::IoFailure;
use crate::outcome::{Outcome, OutcomeView, Rejection};
use vstd::prelude::*;

verus! {

/// The status of a response that carries a file.
pub const STATUS_OK: u16 = 200;

/// The status of a response to a request that names nothing servable.
pub const STATUS_NOT_FOUND: u16 = 404;

/// The size of the buffer through which a file is read while it is sent:
/// however large the file, no more than this much of it is held in memory for
/// one response.
pub const READ_BUFFER_SIZE: usize = 16 * 1024;

/// The body of a response.
#[derive(Clone, Debug, PartialEq, Eq)]
pub enum Body {
    /// A short text, sent as it is.
    Text(String),
    /// The bytes of the opened file at `location`, sent in chunks from the
    /// handle that the request holds.
    File { location: String },
}

/// A response: status, one content-type header, and a body.
#[derive(Clone, Debug, PartialEq, Eq)]
pub struct Response {
    pub status: u16,
    pub content_type: String,
    pub body: Body,
}

/// The mathematical model of a [`Body`].
pub enum BodyView {
    Text(Seq<char>),
    File { location: Seq<char> },
}

/// The mathematical model of a [`Response`].
pub struct ResponseView {
    pub status: u16,
    pub content_type: Seq<char>,
    pub body: BodyView,
}

impl View for Body {
    type V = BodyView;

    open spec fn view(&self) -> BodyView {
        match *self {
            Body::Text(text) => BodyView::Text(text@),
            Body::File { location } => BodyView::File { location: location@ },
        }
    }
}

impl View for Response {
    type V = ResponseView;

    open spec fn view(&self) -> ResponseView {
        ResponseView {
            status: self.status,
            content_type: self.content_type@,
            body: self.body@,
        }
    }
}

/// The "not found" response: status 404, plain text, and a body that names
/// the path as the client sent it.
pub open spec fn not_found_spec(request_path: Seq<char>) -> ResponseView {
    ResponseView {
        status: STATUS_NOT_FOUND,
        content_type: "text/plain"@,
        body: BodyView::Text("Not found: "@ + request_path),
    }
}

/// The response for an outcome. A streamed file is a 200 with the guessed
/// content type; every rejection is the same "not found" response, whatever
/// its reason; a server error has no response of its own and is handed on as
/// the failure that caused it.
pub open spec fn respond_spec(outcome: OutcomeView, request_path: Seq<char>) -> Result<
    ResponseView,
    IoFailure,
> {
    match outcome {
        OutcomeView::Stream { content_type, location } => Ok(
            ResponseView {
                status: STATUS_OK,
                content_type: content_type,
                body: BodyView::File { location: location },
            },
        ),
        OutcomeView::NotFound(_) => Ok(not_found_spec(request_path)),
        OutcomeView::ServerError(failure) => Err(failure),
    }
}

/// Builds the "not found" response for a request path.
pub fn not_found(path: &str) -> (response: Response)
    ensures
        response@ == not_found_spec(path@),
{
    let mut text = String::from_str("Not found: ");
    text.append(path);
    Response {
        status: STATUS_NOT_FOUND,
        content_type: String::from_str("text/plain"),
        body: Body::Text(text),
    }
}

/// Turns the outcome of a request into its response.
pub fn respond(outcome: Outcome, request_path: &str) -> (result: Result<Response, IoFailure>)
    ensures
        respond_spec(outcome@, request_path@) == match result {
            Ok(response) => Ok(response@),
            Err(failure) => Err(failure),
        },
{
    match outcome {
        Outcome::Stream { content_type, location } => Ok(
            Response { status: STATUS_OK, content_type, body: Body::File { location } },
        ),
        Outcome::NotFound(_) => Ok(not_found(request_path)),
        Outcome::ServerError(failure) => Err(failure),
    }
}

/// Rejections cannot be told apart on the wire: whatever the reasons, two
/// "not found" responses have the same status and the same content type, and
/// each body is the same fixed text followed by the request path. For the
/// same request path the two responses are equal.
pub proof fn lemma_rejections_look_alike(
    first: Rejection,
    first_path: Seq<char>,
    second: Rejection,
    second_path: Seq<char>,
)
    ensures
        respond_spec(OutcomeView::NotFound(first), first_path) is Ok,
        respond_spec(OutcomeView::NotFound(second), second_path) is Ok,
        ({
            let a = respond_spec(OutcomeView::NotFound(first), first_path)->Ok_0;
            let b = respond_spec(OutcomeView::NotFound(second), second_path)->Ok_0;
            &&& a.status == b.status
            &&& a.content_type == b.content_type
            &&& a.body == BodyView::Text("Not found: "@ + first_path)
            &&& b.body == BodyView::Text("Not found: "@ + second_path)
            &&& first_path == second_path ==> a == b
        }),
{
}

} // verus!
