//! The connection acceptor's decisions.
//!
//! The acceptor binds a listening socket and then accepts connections for as
//! long as the process lives. Only a failure at startup ends it: once it
//! listens, a connection that cannot be accepted or that breaks is reported,
//! and the loop goes on. The sockets are the caller's; what to do about each
//! thing that happens to them is decided here.

use vstd::prelude::*;

verus! {

/// Where the acceptor stands.
#[derive(Clone, Copy, Debug, PartialEq, Eq)]
pub enum Phase {
    /// The listening socket is not bound yet.
    Starting,
    /// The listening socket is bound, and connections are accepted.
    Listening,
    /// The listening socket could not be bound.
    Aborted,
}

/// What happened to the acceptor's sockets.
#[derive(Clone, Copy, Debug, PartialEq, Eq)]
pub enum Signal {
    /// The listening socket was bound.
    Bound,
    /// The listening socket could not be bound.
    BindFailed,
    /// A connection was accepted.
    Accepted,
    /// A connection could not be accepted.
    AcceptFailed,
    /// A connection was served to its end.
    ConnectionClosed,
    /// A connection broke: a protocol error, a client that went away.
    ConnectionFailed,
}

/// What the acceptor does about a signal.
#[derive(Clone, Copy, Debug, PartialEq, Eq)]
pub enum Reaction {
    /// Announce the bound address and start accepting.
    Announce,
    /// Give up with the failure: nothing is served.
    Abort,
    /// Serve the accepted connection on a task of its own, and accept the
    /// next one.
    Serve,
    /// Report the failure, and accept the next connection.
    Report,
    /// Nothing to do.
    Ignore,
}

/// The phase that follows `phase` on `signal`. Binding decides between
/// listening and giving up; nothing that happens later changes the phase.
pub open spec fn next_phase(phase: Phase, signal: Signal) -> Phase {
    match (phase, signal) {
        (Phase::Starting, Signal::Bound) => Phase::Listening,
        (Phase::Starting, Signal::BindFailed) => Phase::Aborted,
        _ => phase,
    }
}

/// The reaction to `signal` in `phase`. A signal that cannot occur in the
/// phase is ignored.
pub open spec fn reaction(phase: Phase, signal: Signal) -> Reaction {
    match (phase, signal) {
        (Phase::Starting, Signal::Bound) => Reaction::Announce,
        (Phase::Starting, Signal::BindFailed) => Reaction::Abort,
        (Phase::Listening, Signal::Accepted) => Reaction::Serve,
        (Phase::Listening, Signal::AcceptFailed) => Reaction::Report,
        (Phase::Listening, Signal::ConnectionFailed) => Reaction::Report,
        _ => Reaction::Ignore,
    }
}

/// The phase after a sequence of signals, first to last.
pub open spec fn phase_after(phase: Phase, signals: Seq<Signal>) -> Phase
    decreases signals.len(),
{
    if signals.len() == 0 {
        phase
    } else {
        phase_after(next_phase(phase, signals[0]), signals.skip(1))
    }
}

/// Decides what follows a signal: the next phase, and what to do now.
pub fn react(phase: Phase, signal: Signal) -> (step: (Phase, Reaction))
    ensures
        step.0 == next_phase(phase, signal),
        step.1 == reaction(phase, signal),
{
    match phase {
        Phase::Starting => match signal {
            Signal::Bound => (Phase::Listening, Reaction::Announce),
            Signal::BindFailed => (Phase::Aborted, Reaction::Abort),
            _ => (Phase::Starting, Reaction::Ignore),
        },
        Phase::Listening => match signal {
            Signal::Accepted => (Phase::Listening, Reaction::Serve),
            Signal::AcceptFailed => (Phase::Listening, Reaction::Report),
            Signal::ConnectionFailed => (Phase::Listening, Reaction::Report),
            _ => (Phase::Listening, Reaction::Ignore),
        },
        Phase::Aborted => (Phase::Aborted, Reaction::Ignore),
    }
}

/// Nothing stops an acceptor that listens: whatever happens to its
/// connections, in whatever order, it keeps listening, and it never reacts by
/// giving up.
pub proof fn lemma_listening_never_ends(signals: Seq<Signal>)
    ensures
        phase_after(Phase::Listening, signals) == Phase::Listening,
        forall|i: int|
            0 <= i < signals.len() ==> reaction(
                phase_after(Phase::Listening, signals.take(i)),
                #[trigger] signals[i],
            ) != Reaction::Abort,
    decreases signals.len(),
{
    if signals.len() > 0 {
        lemma_listening_never_ends(signals.skip(1));
        assert forall|i: int| 0 <= i < signals.len() implies reaction(
            phase_after(Phase::Listening, signals.take(i)),
            #[trigger] signals[i],
        ) != Reaction::Abort by {
            lemma_listening_never_ends(signals.take(i));
        }
    }
}

} // verus!
