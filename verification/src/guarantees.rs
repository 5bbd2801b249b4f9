//! What holds of every request, whatever the filesystem answers.
//!
//! The statements here are about the models of [`crate::resolver`]: since
//! [`crate::resolver::Resolver::begin`] and
//! [`crate::resolver::Resolver::advance`] compute exactly
//! [`ResolverView::begin`] and [`ResolverView::after`], they hold of every run
//! of the executable resolver.

use crate::content_type::guessed_content_type;
use crate::failure::IoFailure;
use crate::outcome::{OutcomeView, Rejection};
use crate::path::{
    is_within_spec, join_spec, lemma_join_is_within_base, lemma_within_is_transitive,
    lemma_within_itself,
};
use crate::resolver::{index_file, EntryKind, EventView, ResolverView, StageView};
use crate::response::{not_found_spec, respond_spec};
use vstd::prelude::*;

verus! {

/// The index file of a location within the root is within the root.
pub proof fn lemma_index_is_within_root(root: Seq<char>, location: Seq<char>)
    requires
        is_within_spec(root, location),
    ensures
        is_within_spec(root, join_spec(location, index_file())),
{
    reveal_strlit("index.html");
    lemma_join_is_within_base(location, index_file());
    lemma_within_is_transitive(root, location, join_spec(location, index_file()));
}

/// No answer of the filesystem leads a resolver out of its root: where every
/// location that it opens or streams is within the root before an answer, the
/// same holds after it.
pub proof fn lemma_answer_keeps_containment(resolver: ResolverView, event: EventView)
    requires
        resolver.contained(),
    ensures
        resolver.after(event).contained(),
{
    match (resolver.stage, event) {
        (StageView::Open { location }, EventView::Opened(EntryKind::Directory)) => {
            lemma_index_is_within_root(resolver.root, location);
        },
        _ => {},
    }
}

/// No sequence of answers leads a resolver out of its root, and none changes
/// the root or the flag that it was started with.
pub proof fn lemma_answers_keep_containment(resolver: ResolverView, events: Seq<EventView>)
    requires
        resolver.contained(),
    ensures
        resolver.after_all(events).contained(),
        resolver.after_all(events).root == resolver.root,
        resolver.after_all(events).allow_directory_index == resolver.allow_directory_index,
    decreases events.len(),
{
    if events.len() > 0 {
        lemma_answer_keeps_containment(resolver, events[0]);
        lemma_answers_keep_containment(resolver.after(events[0]), events.skip(1));
    }
}

/// Containment: for every root, every request path and every sequence of
/// answers, in whatever order and however wrong, a request that ends in a
/// streamed file streams a location within the root. This covers request
/// paths made of `..` segments, absolute-looking request paths, and links
/// inside the root that lead out of it: what counts is the canonical location
/// that the filesystem reports, and that is held against the root.
pub proof fn lemma_streams_only_within_root(
    root: Seq<char>,
    request_path: Seq<char>,
    allow_directory_index: bool,
    events: Seq<EventView>,
)
    ensures
        ResolverView::begin(root, request_path, allow_directory_index).after_all(
            events,
        ).stage matches StageView::Finished(OutcomeView::Stream { location, .. })
            ==> is_within_spec(root, location),
{
    let start = ResolverView::begin(root, request_path, allow_directory_index);
    lemma_answers_keep_containment(start, events);
}

/// A canonical location outside the root is answered exactly like a path that
/// names nothing: both requests end in the same "not found" response, which
/// differs between two requests only in the request path that it echoes.
pub proof fn lemma_traversal_looks_like_missing(
    root: Seq<char>,
    request_path: Seq<char>,
    allow_directory_index: bool,
    outside: Seq<char>,
    failure: IoFailure,
)
    requires
        !is_within_spec(root, outside),
        failure.kind is NotFound,
    ensures
        ({
            let start = ResolverView::begin(root, request_path, allow_directory_index);
            let escaped = start.after(EventView::Canonicalized(outside));
            let missing = start.after(EventView::CanonicalizeFailed(failure));
            &&& escaped.stage matches StageView::Finished(a)
            &&& missing.stage matches StageView::Finished(b)
            &&& respond_spec(a, request_path) == respond_spec(b, request_path)
            &&& respond_spec(a, request_path) == Ok::<_, IoFailure>(not_found_spec(request_path))
        }),
{
}

/// A directory within the root is served through its index file where that
/// is allowed, with the content type guessed from the index file's location,
/// and is rejected where it is not allowed.
pub proof fn lemma_directory_is_served_by_its_index(resolver: ResolverView, location: Seq<char>)
    requires
        resolver.stage == (StageView::Open { location }),
    ensures
        ({
            let index = join_spec(location, index_file());
            let entered = resolver.after(EventView::Opened(EntryKind::Directory));
            &&& resolver.allow_directory_index ==> entered.stage == (StageView::OpenIndex {
                location: index,
            })
            &&& resolver.allow_directory_index ==> entered.after(
                EventView::Opened(EntryKind::File),
            ).stage == StageView::Finished(
                OutcomeView::Stream { content_type: guessed_content_type(index), location: index },
            )
            &&& !resolver.allow_directory_index ==> entered.stage == StageView::Finished(
                OutcomeView::NotFound(Rejection::IndexDisabled),
            )
        }),
{
}

/// A request for `/`, where the root resolves to itself and is a directory
/// that holds a regular file `index.html`: with the index allowed the request
/// streams that file with its guessed content type, and without it the same
/// request is rejected.
pub proof fn lemma_root_request_is_served_by_the_index(root: Seq<char>)
    ensures
        ({
            let index = join_spec(root, index_file());
            let with_index = ResolverView::begin(root, seq!['/'], true).after(
                EventView::Canonicalized(root),
            ).after(EventView::Opened(EntryKind::Directory)).after(
                EventView::Opened(EntryKind::File),
            );
            let without_index = ResolverView::begin(root, seq!['/'], false).after(
                EventView::Canonicalized(root),
            ).after(EventView::Opened(EntryKind::Directory));
            &&& with_index.stage == StageView::Finished(
                OutcomeView::Stream { content_type: guessed_content_type(index), location: index },
            )
            &&& without_index.stage == StageView::Finished(
                OutcomeView::NotFound(Rejection::IndexDisabled),
            )
        }),
{
    lemma_within_itself(root);
}

/// A filesystem, as far as a request can see it: what resolving a path
/// answers, and what opening a location answers.
pub struct Filesystem {
    pub resolve: spec_fn(Seq<char>) -> EventView,
    pub open: spec_fn(Seq<char>) -> EventView,
}

impl Filesystem {
    /// Each operation is answered by an event of its own kind.
    pub open spec fn wf(self) -> bool {
        &&& forall|path: Seq<char>|
            (#[trigger] (self.resolve)(path) is Canonicalized) || (self.resolve)(path)
                is CanonicalizeFailed
        &&& forall|location: Seq<char>|
            (#[trigger] (self.open)(location) is Opened) || (self.open)(location) is OpenFailed
                || (self.open)(location) is InspectFailed
    }

    /// The answer to the operation that `stage` waits for; a settled stage
    /// waits for none.
    pub open spec fn answer(self, stage: StageView) -> Option<EventView> {
        match stage {
            StageView::Canonicalize { candidate } => Some((self.resolve)(candidate)),
            StageView::Open { location } => Some((self.open)(location)),
            StageView::OpenIndex { location } => Some((self.open)(location)),
            StageView::Finished(_) => None,
        }
    }

    /// Whether `events` is what this filesystem answers to `resolver`, one
    /// operation after the other, and nothing beyond the request's end.
    pub open spec fn answers(self, resolver: ResolverView, events: Seq<EventView>) -> bool
        decreases events.len(),
    {
        events.len() == 0 || {
            &&& self.answer(resolver.stage) == Some(events[0])
            &&& self.answers(resolver.after(events[0]), events.skip(1))
        }
    }
}

/// The number of filesystem operations that a stage can still ask for.
pub open spec fn operations_left(stage: StageView) -> nat {
    match stage {
        StageView::Canonicalize { .. } => 3,
        StageView::Open { .. } => 2,
        StageView::OpenIndex { .. } => 1,
        StageView::Finished(_) => 0,
    }
}

/// Each answer of the filesystem brings a resolver closer to its outcome.
pub proof fn lemma_answer_makes_progress(
    filesystem: Filesystem,
    resolver: ResolverView,
    events: Seq<EventView>,
)
    requires
        filesystem.wf(),
        filesystem.answers(resolver, events),
    ensures
        events.len() + operations_left(resolver.after_all(events).stage) <= operations_left(
            resolver.stage,
        ),
    decreases events.len(),
{
    if events.len() > 0 {
        let event = events[0];
        match resolver.stage {
            StageView::Canonicalize { candidate } => {
                assert(event == (filesystem.resolve)(candidate));
            },
            StageView::Open { location } => {
                assert(event == (filesystem.open)(location));
            },
            StageView::OpenIndex { location } => {
                assert(event == (filesystem.open)(location));
            },
            StageView::Finished(_) => {},
        }
        lemma_answer_makes_progress(filesystem, resolver.after(event), events.skip(1));
    }
}

/// A request is settled after at most three filesystem operations: resolving
/// the candidate, opening the location, and opening the index file.
pub proof fn lemma_settled_within_three_answers(
    filesystem: Filesystem,
    root: Seq<char>,
    request_path: Seq<char>,
    allow_directory_index: bool,
    events: Seq<EventView>,
)
    requires
        filesystem.wf(),
        filesystem.answers(
            ResolverView::begin(root, request_path, allow_directory_index),
            events,
        ),
    ensures
        events.len() <= 3,
        events.len() == 3 ==> ResolverView::begin(
            root,
            request_path,
            allow_directory_index,
        ).after_all(events).is_finished(),
{
    lemma_answer_makes_progress(
        filesystem,
        ResolverView::begin(root, request_path, allow_directory_index),
        events,
    );
}

/// Two settled runs of one resolver against one filesystem saw the same
/// answers and ended in the same stage.
pub proof fn lemma_same_filesystem_same_run(
    filesystem: Filesystem,
    resolver: ResolverView,
    first: Seq<EventView>,
    second: Seq<EventView>,
)
    requires
        filesystem.answers(resolver, first),
        filesystem.answers(resolver, second),
        resolver.after_all(first).is_finished(),
        resolver.after_all(second).is_finished(),
    ensures
        first == second,
        resolver.after_all(first) == resolver.after_all(second),
    decreases first.len(),
{
    if resolver.is_finished() {
        assert(first.len() == 0);
        assert(second.len() == 0);
        assert(first =~= second);
    } else {
        assert(first.len() > 0);
        assert(second.len() > 0);
        let next = resolver.after(first[0]);
        lemma_same_filesystem_same_run(filesystem, next, first.skip(1), second.skip(1));
        assert(first =~= seq![first[0]] + first.skip(1));
        assert(second =~= seq![second[0]] + second.skip(1));
    }
}

/// Repeating a request against an unchanged filesystem repeats its outcome:
/// two settled runs for the same root, request path and flag, each fed with
/// the answers of the same filesystem, end in the same outcome.
pub proof fn lemma_repeated_request_repeats_outcome(
    filesystem: Filesystem,
    root: Seq<char>,
    request_path: Seq<char>,
    allow_directory_index: bool,
    first: Seq<EventView>,
    second: Seq<EventView>,
)
    requires
        ({
            let start = ResolverView::begin(root, request_path, allow_directory_index);
            &&& filesystem.answers(start, first)
            &&& filesystem.answers(start, second)
            &&& start.after_all(first).is_finished()
            &&& start.after_all(second).is_finished()
        }),
    ensures
        ResolverView::begin(root, request_path, allow_directory_index).after_all(first).stage
            == ResolverView::begin(root, request_path, allow_directory_index).after_all(
            second,
        ).stage,
{
    lemma_same_filesystem_same_run(
        filesystem,
        ResolverView::begin(root, request_path, allow_directory_index),
        first,
        second,
    );
}

} // verus!
