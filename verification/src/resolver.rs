//! The resolver: one request, from its path to its outcome.
//!
//! A [`Resolver`] never touches the filesystem. It names the one filesystem
//! operation that it waits for (its [`Stage`]), the caller performs that
//! operation and reports the answer as an [`Event`], and [`Resolver::advance`]
//! decides what follows. A request is settled after at most three answers.
//!
//! The location that is opened is always inside the served root: the
//! canonical location is held against the root before anything is opened,
//! and the index file of a directory is addressed below that directory.

use crate::content_type::{guess_content_type, guessed_content_type};
use crate::failure::{classify, classify_spec, FailureClass, IoFailure, Operation};
use crate::outcome::{Outcome, OutcomeView, Rejection};
use crate::path::{
    is_within, is_within_spec, join, join_spec, lemma_join_is_within_base,
    lemma_within_is_transitive, strip_leading_separator, strip_leading_separator_spec,
};
use vstd::prelude::*;

verus! {

/// What kind of entry an opened path turned out to be.
#[derive(Clone, Copy, Debug, PartialEq, Eq)]
pub enum EntryKind {
    /// A regular file.
    File,
    /// A directory.
    Directory,
    /// Anything else: a device, a socket, a pipe.
    Other,
}

/// What the filesystem answered to the operation that a resolver waited for.
#[derive(Clone, Debug, PartialEq, Eq)]
pub enum Event {
    /// The candidate path resolved to this canonical location.
    Canonicalized(String),
    /// The candidate path could not be resolved.
    CanonicalizeFailed(IoFailure),
    /// The location was opened, and its metadata names this kind of entry.
    Opened(EntryKind),
    /// The location could not be opened.
    OpenFailed(IoFailure),
    /// The location was opened, but its metadata could not be read.
    InspectFailed(IoFailure),
}

/// The mathematical model of an [`Event`].
pub enum EventView {
    Canonicalized(Seq<char>),
    CanonicalizeFailed(IoFailure),
    Opened(EntryKind),
    OpenFailed(IoFailure),
    InspectFailed(IoFailure),
}

impl View for Event {
    type V = EventView;

    open spec fn view(&self) -> EventView {
        match *self {
            Event::Canonicalized(location) => EventView::Canonicalized(location@),
            Event::CanonicalizeFailed(failure) => EventView::CanonicalizeFailed(failure),
            Event::Opened(kind) => EventView::Opened(kind),
            Event::OpenFailed(failure) => EventView::OpenFailed(failure),
            Event::InspectFailed(failure) => EventView::InspectFailed(failure),
        }
    }
}

/// Where a request stands: the filesystem operation that it waits for, or its
/// outcome.
#[derive(Clone, Debug, PartialEq, Eq)]
pub enum Stage {
    /// Waits for `candidate` to be resolved to a canonical location.
    Canonicalize { candidate: String },
    /// Waits for `location` to be opened for reading and inspected.
    Open { location: String },
    /// Waits for the index file at `location` to be opened for reading and
    /// inspected.
    OpenIndex { location: String },
    /// Settled.
    Finished(Outcome),
}

/// The mathematical model of a [`Stage`].
pub enum StageView {
    Canonicalize { candidate: Seq<char> },
    Open { location: Seq<char> },
    OpenIndex { location: Seq<char> },
    Finished(OutcomeView),
}

impl View for Stage {
    type V = StageView;

    open spec fn view(&self) -> StageView {
        match *self {
            Stage::Canonicalize { candidate } => StageView::Canonicalize { candidate: candidate@ },
            Stage::Open { location } => StageView::Open { location: location@ },
            Stage::OpenIndex { location } => StageView::OpenIndex { location: location@ },
            Stage::Finished(outcome) => StageView::Finished(outcome@),
        }
    }
}

/// The name of the file that stands for its directory.
pub open spec fn index_file() -> Seq<char> {
    "index.html"@
}

/// The outcome of a failed operation: "not found" with the given reason where
/// the failure is client input, a server error otherwise.
pub open spec fn failed(operation: Operation, failure: IoFailure, rejection: Rejection)
    -> OutcomeView {
    match classify_spec(operation, failure) {
        FailureClass::ClientInput => OutcomeView::NotFound(rejection),
        FailureClass::TransientIo => OutcomeView::ServerError(failure),
    }
}

/// The stage that follows `stage` once the filesystem has answered `event`.
///
/// - A canonical location outside `root` is a traversal and is rejected;
///   one inside `root` is opened next.
/// - A regular file is streamed with the content type guessed from its
///   location. A directory is rejected, or, with `allow_directory_index`,
///   its index file is opened next. Any other entry is rejected.
/// - An index file is streamed where it is a regular file, and rejected
///   otherwise.
/// - A failure settles the request as [`failed`] says.
/// - An event that does not answer the operation waited for changes nothing.
pub open spec fn next_stage(
    root: Seq<char>,
    allow_directory_index: bool,
    stage: StageView,
    event: EventView,
) -> StageView {
    match (stage, event) {
        (StageView::Canonicalize { .. }, EventView::Canonicalized(location)) => {
            if is_within_spec(root, location) {
                StageView::Open { location }
            } else {
                StageView::Finished(OutcomeView::NotFound(Rejection::Traversal))
            }
        },
        (StageView::Canonicalize { .. }, EventView::CanonicalizeFailed(failure)) => {
            StageView::Finished(failed(Operation::Canonicalize, failure, Rejection::Missing))
        },
        (StageView::Open { location }, EventView::Opened(EntryKind::File)) => {
            StageView::Finished(
                OutcomeView::Stream { content_type: guessed_content_type(location), location },
            )
        },
        (StageView::Open { location }, EventView::Opened(EntryKind::Directory)) => {
            if allow_directory_index {
                StageView::OpenIndex { location: join_spec(location, index_file()) }
            } else {
                StageView::Finished(OutcomeView::NotFound(Rejection::IndexDisabled))
            }
        },
        (StageView::Open { .. }, EventView::Opened(EntryKind::Other)) => {
            StageView::Finished(OutcomeView::NotFound(Rejection::NotRegular))
        },
        (StageView::Open { .. }, EventView::OpenFailed(failure)) => {
            StageView::Finished(failed(Operation::Open, failure, Rejection::Missing))
        },
        (StageView::OpenIndex { location }, EventView::Opened(EntryKind::File)) => {
            StageView::Finished(
                OutcomeView::Stream { content_type: guessed_content_type(location), location },
            )
        },
        (StageView::OpenIndex { .. }, EventView::Opened(_)) => {
            StageView::Finished(OutcomeView::NotFound(Rejection::IndexMissing))
        },
        (StageView::OpenIndex { .. }, EventView::OpenFailed(failure)) => {
            StageView::Finished(failed(Operation::OpenIndex, failure, Rejection::IndexMissing))
        },
        (StageView::Open { .. }, EventView::InspectFailed(failure)) => {
            StageView::Finished(failed(Operation::Inspect, failure, Rejection::Missing))
        },
        (StageView::OpenIndex { .. }, EventView::InspectFailed(failure)) => {
            StageView::Finished(failed(Operation::Inspect, failure, Rejection::IndexMissing))
        },
        _ => stage,
    }
}

/// Whether every location that a stage opens or streams is within `root`.
pub open spec fn stage_within(root: Seq<char>, stage: StageView) -> bool {
    match stage {
        StageView::Canonicalize { .. } => true,
        StageView::Open { location } => is_within_spec(root, location),
        StageView::OpenIndex { location } => is_within_spec(root, location),
        StageView::Finished(OutcomeView::Stream { location, .. }) => is_within_spec(
            root,
            location,
        ),
        StageView::Finished(_) => true,
    }
}

/// The mathematical model of a [`Resolver`].
pub struct ResolverView {
    /// The served root.
    pub root: Seq<char>,
    /// Whether a directory is mapped to its index file.
    pub allow_directory_index: bool,
    /// Where the request stands.
    pub stage: StageView,
}

impl ResolverView {
    /// The resolver of a new request. A request path that is empty or does
    /// not start with the separator is rejected at once; any other is
    /// stripped of that separator and joined to the root as text, and the
    /// candidate that results waits to be resolved.
    pub open spec fn begin(
        root: Seq<char>,
        request_path: Seq<char>,
        allow_directory_index: bool,
    ) -> ResolverView {
        ResolverView {
            root,
            allow_directory_index,
            stage: match strip_leading_separator_spec(request_path) {
                Some(rest) => StageView::Canonicalize { candidate: join_spec(root, rest) },
                None => StageView::Finished(OutcomeView::NotFound(Rejection::Malformed)),
            },
        }
    }

    /// The resolver after one answer of the filesystem.
    pub open spec fn after(self, event: EventView) -> ResolverView {
        ResolverView {
            root: self.root,
            allow_directory_index: self.allow_directory_index,
            stage: next_stage(self.root, self.allow_directory_index, self.stage, event),
        }
    }

    /// The resolver after a sequence of answers, first to last.
    pub open spec fn after_all(self, events: Seq<EventView>) -> ResolverView
        decreases events.len(),
    {
        if events.len() == 0 {
            self
        } else {
            self.after(events[0]).after_all(events.skip(1))
        }
    }

    /// Whether the request is settled.
    pub open spec fn is_finished(self) -> bool {
        self.stage is Finished
    }

    /// Whether every location that the resolver opens or streams is within
    /// its root.
    pub open spec fn contained(self) -> bool {
        stage_within(self.root, self.stage)
    }
}

/// One request on its way from path to outcome.
pub struct Resolver {
    root: String,
    allow_directory_index: bool,
    stage: Stage,
}

impl View for Resolver {
    type V = ResolverView;

    closed spec fn view(&self) -> ResolverView {
        ResolverView {
            root: self.root@,
            allow_directory_index: self.allow_directory_index,
            stage: self.stage@,
        }
    }
}

/// The outcome of a failed operation.
fn settle(operation: Operation, failure: IoFailure, rejection: Rejection) -> (outcome: Outcome)
    ensures
        outcome@ == failed(operation, failure, rejection),
{
    match classify(operation, failure) {
        FailureClass::ClientInput => Outcome::NotFound(rejection),
        FailureClass::TransientIo => Outcome::ServerError(failure),
    }
}

/// The outcome that streams the file at `location`.
fn stream(location: String) -> (outcome: Outcome)
    ensures
        outcome@ == (OutcomeView::Stream {
            content_type: guessed_content_type(location@),
            location: location@,
        }),
{
    let content_type = guess_content_type(location.as_str());
    Outcome::Stream { content_type, location }
}

impl Resolver {
    #[verifier::type_invariant]
    spec fn holds_containment(self) -> bool {
        stage_within(self.root@, self.stage@)
    }

    /// Starts resolving `request_path` below `root`.
    pub fn begin(root: &str, request_path: &str, allow_directory_index: bool) -> (resolver:
        Resolver)
        ensures
            resolver@ == ResolverView::begin(root@, request_path@, allow_directory_index),
            resolver@.contained(),
    {
        let stage = match strip_leading_separator(request_path) {
            Some(rest) => Stage::Canonicalize { candidate: join(root, rest) },
            None => Stage::Finished(Outcome::NotFound(Rejection::Malformed)),
        };
        Resolver { root: String::from_str(root), allow_directory_index, stage }
    }

    /// Takes the filesystem's answer to the operation waited for and moves on.
    pub fn advance(self, event: Event) -> (next: Resolver)
        ensures
            next@ == self@.after(event@),
            next@.contained(),
    {
        proof {
            use_type_invariant(&self);
        }
        let Resolver { root, allow_directory_index, stage } = self;
        let next_stage = match stage {
            Stage::Canonicalize { candidate } => match event {
                Event::Canonicalized(location) => {
                    if is_within(root.as_str(), location.as_str()) {
                        Stage::Open { location }
                    } else {
                        Stage::Finished(Outcome::NotFound(Rejection::Traversal))
                    }
                },
                Event::CanonicalizeFailed(failure) => Stage::Finished(
                    settle(Operation::Canonicalize, failure, Rejection::Missing),
                ),
                _ => Stage::Canonicalize { candidate },
            },
            Stage::Open { location } => match event {
                Event::Opened(EntryKind::File) => Stage::Finished(stream(location)),
                Event::Opened(EntryKind::Directory) => {
                    if allow_directory_index {
                        proof {
                            reveal_strlit("index.html");
                            lemma_join_is_within_base(location@, index_file());
                            lemma_within_is_transitive(
                                root@,
                                location@,
                                join_spec(location@, index_file()),
                            );
                        }
                        Stage::OpenIndex { location: join(location.as_str(), "index.html") }
                    } else {
                        Stage::Finished(Outcome::NotFound(Rejection::IndexDisabled))
                    }
                },
                Event::Opened(EntryKind::Other) => Stage::Finished(
                    Outcome::NotFound(Rejection::NotRegular),
                ),
                Event::OpenFailed(failure) => Stage::Finished(
                    settle(Operation::Open, failure, Rejection::Missing),
                ),
                Event::InspectFailed(failure) => Stage::Finished(
                    settle(Operation::Inspect, failure, Rejection::Missing),
                ),
                _ => Stage::Open { location },
            },
            Stage::OpenIndex { location } => match event {
                Event::Opened(EntryKind::File) => Stage::Finished(stream(location)),
                Event::Opened(_) => Stage::Finished(Outcome::NotFound(Rejection::IndexMissing)),
                Event::OpenFailed(failure) => Stage::Finished(
                    settle(Operation::OpenIndex, failure, Rejection::IndexMissing),
                ),
                Event::InspectFailed(failure) => Stage::Finished(
                    settle(Operation::Inspect, failure, Rejection::IndexMissing),
                ),
                _ => Stage::OpenIndex { location },
            },
            Stage::Finished(outcome) => Stage::Finished(outcome),
        };
        Resolver { root, allow_directory_index, stage: next_stage }
    }

    /// Where the request stands: the operation to perform next, or the
    /// outcome.
    pub fn stage(&self) -> (stage: &Stage)
        ensures
            stage@ == self@.stage,
            self@.contained(),
    {
        proof {
            use_type_invariant(self);
        }
        &self.stage
    }

    /// The served root.
    pub fn root(&self) -> (root: &str)
        ensures
            root@ == self@.root,
    {
        self.root.as_str()
    }

    /// Whether a directory is mapped to its index file.
    pub fn allows_directory_index(&self) -> (allowed: bool)
        ensures
            allowed == self@.allow_directory_index,
    {
        self.allow_directory_index
    }

    /// Whether the request is settled.
    pub fn is_finished(&self) -> (finished: bool)
        ensures
            finished == self@.is_finished(),
    {
        match self.stage {
            Stage::Finished(_) => true,
            _ => false,
        }
    }

    /// The outcome of a settled request; `None` while an operation is still
    /// waited for. A streamed location is within the root.
    pub fn into_outcome(self) -> (outcome: Option<Outcome>)
        ensures
            match outcome {
                Some(settled) => self@.stage == StageView::Finished(settled@),
                None => !self@.is_finished(),
            },
            outcome matches Some(Outcome::Stream { location, .. }) ==> is_within_spec(
                self@.root,
                location@,
            ),
    {
        proof {
            use_type_invariant(&self);
        }
        match self.stage {
            Stage::Finished(outcome) => Some(outcome),
            _ => None,
        }
    }
}

} // verus!
