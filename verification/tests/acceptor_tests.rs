use soft_serve::acceptor::{react, Phase, Reaction, Signal};

const SIGNALS: [Signal; 6] = [
    Signal::Bound,
    Signal::BindFailed,
    Signal::Accepted,
    Signal::AcceptFailed,
    Signal::ConnectionClosed,
    Signal::ConnectionFailed,
];

#[test]
fn binding_starts_the_listener() {
    assert_eq!(react(Phase::Starting, Signal::Bound), (Phase::Listening, Reaction::Announce));
}

#[test]
fn failing_to_bind_is_fatal() {
    assert_eq!(react(Phase::Starting, Signal::BindFailed), (Phase::Aborted, Reaction::Abort));
}

#[test]
fn accepted_connection_is_served() {
    assert_eq!(react(Phase::Listening, Signal::Accepted), (Phase::Listening, Reaction::Serve));
}

#[test]
fn failing_to_accept_is_reported_and_survived() {
    assert_eq!(
        react(Phase::Listening, Signal::AcceptFailed),
        (Phase::Listening, Reaction::Report)
    );
}

#[test]
fn broken_connection_is_reported_and_survived() {
    assert_eq!(
        react(Phase::Listening, Signal::ConnectionFailed),
        (Phase::Listening, Reaction::Report)
    );
}

#[test]
fn closed_connection_needs_nothing() {
    assert_eq!(
        react(Phase::Listening, Signal::ConnectionClosed),
        (Phase::Listening, Reaction::Ignore)
    );
}

#[test]
fn listener_survives_every_signal() {
    let mut phase = Phase::Listening;
    for round in 0..3 {
        for signal in SIGNALS {
            let (next, reaction) = react(phase, signal);
            assert_eq!(next, Phase::Listening, "round {round}");
            assert_ne!(reaction, Reaction::Abort);
            phase = next;
        }
    }
}

#[test]
fn signals_out_of_place_are_ignored() {
    assert_eq!(react(Phase::Starting, Signal::Accepted), (Phase::Starting, Reaction::Ignore));
    assert_eq!(react(Phase::Listening, Signal::Bound), (Phase::Listening, Reaction::Ignore));
    assert_eq!(react(Phase::Listening, Signal::BindFailed), (Phase::Listening, Reaction::Ignore));
    for signal in SIGNALS {
        assert_eq!(react(Phase::Aborted, signal), (Phase::Aborted, Reaction::Ignore));
    }
}
