use biomon::error::SessionError;
use biomon::notification::{decode_heart_rate, find_characteristic, HEART_RATE_MEASUREMENT};
use biomon::session::{step, Session, SessionAction, SessionEvent, SessionState};

fn run(events: Vec<SessionEvent>) -> (SessionState, Vec<SessionAction>) {
    let mut session = Session::new();
    let mut actions = Vec::new();
    for event in &events {
        actions.push(session.handle(event));
    }
    (session.state(), actions)
}

fn disconnects(actions: &[SessionAction]) -> usize {
    actions.iter().filter(|a| matches!(a, SessionAction::Disconnect(_))).count()
}

fn offering_heart_rate() -> SessionEvent {
    SessionEvent::DiscoverSucceeded(vec![0x2a38, HEART_RATE_MEASUREMENT, 0x2a39])
}

#[test]
fn characteristic_identifier_is_the_standard_one() {
    assert_eq!(HEART_RATE_MEASUREMENT, 0x00002a37_0000_1000_8000_00805f9b34fb_u128);
}

#[test]
fn new_session_is_discovered() {
    let session = Session::new();
    assert_eq!(session.state(), SessionState::Discovered);
    assert!(!session.is_over());
}

#[test]
fn session_passes_through_every_state_in_order() {
    let mut session = Session::new();
    assert_eq!(session.handle(&SessionEvent::Begin), SessionAction::Connect);
    assert_eq!(session.state(), SessionState::Connecting);
    assert_eq!(session.handle(&SessionEvent::ConnectSucceeded), SessionAction::DiscoverServices);
    assert_eq!(session.state(), SessionState::Connected);
    assert_eq!(session.handle(&offering_heart_rate()), SessionAction::Subscribe(1));
    assert_eq!(session.state(), SessionState::ServicesDiscovered);
    assert_eq!(session.handle(&SessionEvent::SubscribeSucceeded), SessionAction::OpenStream);
    assert_eq!(session.state(), SessionState::Subscribed);
    assert_eq!(session.handle(&SessionEvent::StreamOpened), SessionAction::Listen);
    assert_eq!(session.state(), SessionState::Streaming);
    assert_eq!(
        session.handle(&SessionEvent::Notification(vec![0x16, 72])),
        SessionAction::Record(72)
    );
    assert_eq!(session.state(), SessionState::Streaming);
    assert_eq!(session.handle(&SessionEvent::StreamEnded), SessionAction::Disconnect(None));
    assert_eq!(session.state(), SessionState::Disconnected);
    assert!(session.is_over());
}

#[test]
fn discover_failure_after_connect_disconnects_exactly_once() {
    let (state, actions) = run(vec![
        SessionEvent::Begin,
        SessionEvent::ConnectSucceeded,
        SessionEvent::DiscoverFailed,
        SessionEvent::StreamEnded,
        SessionEvent::DiscoverFailed,
    ]);
    assert_eq!(state, SessionState::Disconnected);
    assert_eq!(actions[2], SessionAction::Disconnect(Some(SessionError::DiscoverFailed)));
    assert_eq!(disconnects(&actions), 1);
}

#[test]
fn connect_failure_has_nothing_to_release() {
    let (state, actions) = run(vec![SessionEvent::Begin, SessionEvent::ConnectFailed]);
    assert_eq!(state, SessionState::Disconnected);
    assert_eq!(actions[1], SessionAction::Abandon(SessionError::ConnectFailed));
    assert_eq!(disconnects(&actions), 0);
}

#[test]
fn missing_characteristic_releases_the_connection() {
    let (state, actions) = run(vec![
        SessionEvent::Begin,
        SessionEvent::ConnectSucceeded,
        SessionEvent::DiscoverSucceeded(vec![0x2a38, 0x2a39]),
    ]);
    assert_eq!(state, SessionState::Disconnected);
    assert_eq!(
        actions[2],
        SessionAction::Disconnect(Some(SessionError::CharacteristicNotFound))
    );
    assert_eq!(disconnects(&actions), 1);
}

#[test]
fn no_characteristics_at_all_releases_the_connection() {
    let (state, actions) = run(vec![
        SessionEvent::Begin,
        SessionEvent::ConnectSucceeded,
        SessionEvent::DiscoverSucceeded(Vec::new()),
    ]);
    assert_eq!(state, SessionState::Disconnected);
    assert_eq!(disconnects(&actions), 1);
}

#[test]
fn subscribe_failure_releases_the_connection() {
    let (state, actions) = run(vec![
        SessionEvent::Begin,
        SessionEvent::ConnectSucceeded,
        offering_heart_rate(),
        SessionEvent::SubscribeFailed,
    ]);
    assert_eq!(state, SessionState::Disconnected);
    assert_eq!(actions[3], SessionAction::Disconnect(Some(SessionError::SubscribeFailed)));
    assert_eq!(disconnects(&actions), 1);
}

#[test]
fn stream_that_never_opens_releases_the_connection() {
    let (state, actions) = run(vec![
        SessionEvent::Begin,
        SessionEvent::ConnectSucceeded,
        offering_heart_rate(),
        SessionEvent::SubscribeSucceeded,
        SessionEvent::StreamEnded,
    ]);
    assert_eq!(state, SessionState::Disconnected);
    assert_eq!(actions[4], SessionAction::Disconnect(None));
    assert_eq!(disconnects(&actions), 1);
}

#[test]
fn malformed_notifications_are_rejected_and_never_recorded() {
    let (state, actions) = run(vec![
        SessionEvent::Begin,
        SessionEvent::ConnectSucceeded,
        offering_heart_rate(),
        SessionEvent::SubscribeSucceeded,
        SessionEvent::StreamOpened,
        SessionEvent::Notification(Vec::new()),
        SessionEvent::Notification(vec![0x16]),
        SessionEvent::Notification(vec![0x16, 81, 3, 4]),
    ]);
    assert_eq!(state, SessionState::Streaming);
    assert_eq!(actions[5], SessionAction::Reject(SessionError::MalformedNotification));
    assert_eq!(actions[6], SessionAction::Reject(SessionError::MalformedNotification));
    assert_eq!(actions[7], SessionAction::Record(81));
    let recorded = actions.iter().filter(|a| matches!(a, SessionAction::Record(_))).count();
    assert_eq!(recorded, 1);
}

#[test]
fn notifications_outside_streaming_are_ignored() {
    for state in [
        SessionState::Discovered,
        SessionState::Connecting,
        SessionState::Connected,
        SessionState::ServicesDiscovered,
        SessionState::Subscribed,
        SessionState::Disconnected,
    ] {
        let (next, action) = step(state, &SessionEvent::Notification(vec![0, 70]));
        assert_eq!(next, state);
        assert_eq!(action, SessionAction::Ignore);
    }
}

#[test]
fn events_out_of_turn_change_nothing() {
    let (state, actions) = run(vec![
        SessionEvent::ConnectSucceeded,
        SessionEvent::StreamEnded,
        SessionEvent::DiscoverFailed,
    ]);
    assert_eq!(state, SessionState::Discovered);
    assert!(actions.iter().all(|a| *a == SessionAction::Ignore));
    let (next, action) = step(SessionState::Streaming, &SessionEvent::Begin);
    assert_eq!((next, action), (SessionState::Streaming, SessionAction::Ignore));
}

#[test]
fn finished_session_stays_finished() {
    let events = vec![
        SessionEvent::Begin,
        SessionEvent::ConnectSucceeded,
        SessionEvent::ConnectFailed,
        offering_heart_rate(),
        SessionEvent::DiscoverFailed,
        SessionEvent::SubscribeSucceeded,
        SessionEvent::SubscribeFailed,
        SessionEvent::StreamOpened,
        SessionEvent::Notification(vec![0, 1]),
        SessionEvent::StreamEnded,
    ];
    for event in &events {
        let (next, action) = step(SessionState::Disconnected, event);
        assert_eq!(next, SessionState::Disconnected);
        assert_eq!(action, SessionAction::Ignore);
    }
}

#[test]
fn every_trace_disconnects_at_most_once() {
    let alphabet = || {
        vec![
            SessionEvent::Begin,
            SessionEvent::ConnectSucceeded,
            SessionEvent::ConnectFailed,
            offering_heart_rate(),
            SessionEvent::DiscoverFailed,
            SessionEvent::SubscribeSucceeded,
            SessionEvent::SubscribeFailed,
            SessionEvent::StreamOpened,
            SessionEvent::Notification(vec![0, 1]),
            SessionEvent::StreamEnded,
        ]
    };
    let n = alphabet().len();
    for a in 0..n {
        for b in 0..n {
            for c in 0..n {
                for d in 0..n {
                    let mut session = Session::new();
                    let mut connected = false;
                    let mut released = 0;
                    for i in [a, b, c, d] {
                        let action = session.handle(&alphabet()[i]);
                        if session.state() == SessionState::Connected {
                            connected = true;
                        }
                        if matches!(action, SessionAction::Disconnect(_)) {
                            released += 1;
                        }
                    }
                    assert!(released <= 1);
                    if session.is_over() {
                        assert_eq!(released == 1, connected);
                    } else {
                        assert_eq!(released, 0);
                    }
                }
            }
        }
    }
}

#[test]
fn decode_takes_the_octet_after_the_flags() {
    assert_eq!(decode_heart_rate(&[0x16, 72]), Ok(72));
    assert_eq!(decode_heart_rate(&[0x00, 255, 1, 2]), Ok(255));
    assert_eq!(decode_heart_rate(&[0x01, 0]), Ok(0));
}

#[test]
fn decode_rejects_short_payloads() {
    assert_eq!(decode_heart_rate(&[]), Err(SessionError::MalformedNotification));
    assert_eq!(decode_heart_rate(&[72]), Err(SessionError::MalformedNotification));
}

#[test]
fn characteristic_search_is_exact_and_takes_the_first() {
    let wanted = HEART_RATE_MEASUREMENT;
    assert_eq!(find_characteristic(&Vec::new(), wanted), None);
    assert_eq!(find_characteristic(&vec![wanted + 1, wanted - 1], wanted), None);
    assert_eq!(find_characteristic(&vec![1, wanted, 3, wanted], wanted), Some(1));
    assert_eq!(find_characteristic(&vec![wanted], wanted), Some(0));
}

#[test]
fn failures_have_their_lines() {
    assert_eq!(SessionError::DeviceNotFound.message(), "Failed to find device");
    assert_eq!(SessionError::InvalidAddress.message(), "Invalid device MAC");
    assert_eq!(SessionError::AdapterUnavailable.message(), "Adapter is not ready");
    assert_eq!(SessionError::ConnectFailed.message(), "Failed to connect to device");
    assert_eq!(SessionError::DiscoverFailed.message(), "Failed to discover services");
    assert_eq!(
        SessionError::SubscribeFailed.message(),
        "Failed to subscribe to characteristic"
    );
    assert_eq!(SessionError::CharacteristicNotFound.message(), "Characteristic not found");
    assert_eq!(
        SessionError::MalformedNotification.message(),
        "Notification is too short to hold a reading"
    );
    assert_eq!(SessionError::PersistenceFailure.message(), "Failed to write heartrate data");
}
