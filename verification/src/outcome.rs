//! What resolving a request ends in.

use crate::failure::IoFailure;
use vstd::prelude::*;

verus! {

/// Why a request was answered with "not found". The client never learns the
/// reason; it is kept for the server's own diagnostics.
#[derive(Clone, Copy, Debug, PartialEq, Eq)]
pub enum Rejection {
    /// The request path is empty or does not start with the separator.
    Malformed,
    /// The path names nothing, or runs through an entry of the wrong kind.
    Missing,
    /// The path resolves to a location outside the served root.
    Traversal,
    /// The path names a directory, and directories are not mapped to their
    /// index file.
    IndexDisabled,
    /// The path names a directory without a usable index file.
    IndexMissing,
    /// The path names an entry that is neither a regular file nor a
    /// directory.
    NotRegular,
}

/// The outcome of one request.
#[derive(Clone, Debug, PartialEq, Eq)]
pub enum Outcome {
    /// The file at `location` is sent, labelled with `content_type`.
    Stream { content_type: String, location: String },
    /// Nothing is served.
    NotFound(Rejection),
    /// The filesystem failed in a way that is not the client's doing.
    ServerError(IoFailure),
}

/// The mathematical model of an [`Outcome`].
pub enum OutcomeView {
    Stream { content_type: Seq<char>, location: Seq<char> },
    NotFound(Rejection),
    ServerError(IoFailure),
}

impl View for Outcome {
    type V = OutcomeView;

    open spec fn view(&self) -> OutcomeView {
        match *self {
            Outcome::Stream { content_type, location } => OutcomeView::Stream {
                content_type: content_type@,
                location: location@,
            },
            Outcome::NotFound(rejection) => OutcomeView::NotFound(rejection),
            Outcome::ServerError(failure) => OutcomeView::ServerError(failure),
        }
    }
}

} // verus!
