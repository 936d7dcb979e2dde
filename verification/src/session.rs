//! The decisions of one heart-rate session.
//!
//! A session drives one peripheral through connect, service discovery and
//! subscription, then streams notifications until the stream ends. The
//! radio work is done by the caller: it performs the action that the session
//! asks for and reports what happened as the next event. The session only
//! moves forward, and whenever it ends after a connection was made it asks
//! for the connection to be released, exactly once.

use vstd::prelude::*;
use crate::error::SessionError;
use crate::notification::{
    characteristic_index, decode_heart_rate, decoded, find_characteristic, HEART_RATE_MEASUREMENT,
};

verus! {

/// Where a session stands.
#[derive(Clone, Copy, Debug, PartialEq, Eq, Structural)]
pub enum SessionState {
    /// The device was found; nothing was asked of it yet.
    Discovered,
    /// A connection was requested.
    Connecting,
    /// The connection stands; service discovery was requested.
    Connected,
    /// The heart-rate measurement was found; a subscription was requested.
    ServicesDiscovered,
    /// The subscription stands; the notification stream is being opened.
    Subscribed,
    /// Notifications are being consumed.
    Streaming,
    /// The session is over.
    Disconnected,
}

/// What the caller reports to the session.
#[derive(Debug, PartialEq, Eq)]
pub enum SessionEvent {
    /// The session is to start.
    Begin,
    ConnectSucceeded,
    ConnectFailed,
    /// Discovery succeeded; the identifiers of the characteristics offered,
    /// in the order in which the peripheral lists them.
    DiscoverSucceeded(Vec<u128>),
    DiscoverFailed,
    SubscribeSucceeded,
    SubscribeFailed,
    StreamOpened,
    /// The value of one notification.
    Notification(Vec<u8>),
    /// The notification stream ended or could not be opened.
    StreamEnded,
}

/// What the session asks of the caller.
#[derive(Clone, Copy, Debug, PartialEq, Eq, Structural)]
pub enum SessionAction {
    Connect,
    DiscoverServices,
    /// Subscribe to the characteristic at this index of the reported list.
    Subscribe(usize),
    OpenStream,
    /// Wait for the next notification.
    Listen,
    /// Hand this reading to the sample store, then wait for the next
    /// notification.
    Record(u8),
    /// Report the failure and write nothing, then wait for the next
    /// notification.
    Reject(SessionError),
    /// Release the connection and stop: after a failure, or with `None` at
    /// the regular end of the stream.
    Disconnect(Option<SessionError>),
    /// Report the failure and stop; there is no connection to release.
    Abandon(SessionError),
    /// The event does not belong to the state; nothing is to be done.
    Ignore,
}

/// Position of a state in the order in which a session passes through them.
pub open spec fn rank(state: SessionState) -> nat {
    match state {
        SessionState::Discovered => 0,
        SessionState::Connecting => 1,
        SessionState::Connected => 2,
        SessionState::ServicesDiscovered => 3,
        SessionState::Subscribed => 4,
        SessionState::Streaming => 5,
        SessionState::Disconnected => 6,
    }
}

/// Whether a session in this state holds a live connection.
pub open spec fn holds_link(state: SessionState) -> bool {
    2 <= rank(state) <= 5
}

/// The state that follows `state` on `event`, and the action asked for.
pub open spec fn transition(state: SessionState, event: SessionEvent) -> (
    SessionState,
    SessionAction,
) {
    match (state, event) {
        (SessionState::Discovered, SessionEvent::Begin) => (
            SessionState::Connecting,
            SessionAction::Connect,
        ),
        (SessionState::Connecting, SessionEvent::ConnectSucceeded) => (
            SessionState::Connected,
            SessionAction::DiscoverServices,
        ),
        (SessionState::Connecting, SessionEvent::ConnectFailed) => (
            SessionState::Disconnected,
            SessionAction::Abandon(SessionError::ConnectFailed),
        ),
        (SessionState::Connected, SessionEvent::DiscoverSucceeded(offered)) => {
            match characteristic_index(offered@, HEART_RATE_MEASUREMENT) {
                Some(i) => (SessionState::ServicesDiscovered, SessionAction::Subscribe(i)),
                None => (
                    SessionState::Disconnected,
                    SessionAction::Disconnect(Some(SessionError::CharacteristicNotFound)),
                ),
            }
        },
        (SessionState::Connected, SessionEvent::DiscoverFailed) => (
            SessionState::Disconnected,
            SessionAction::Disconnect(Some(SessionError::DiscoverFailed)),
        ),
        (SessionState::ServicesDiscovered, SessionEvent::SubscribeSucceeded) => (
            SessionState::Subscribed,
            SessionAction::OpenStream,
        ),
        (SessionState::ServicesDiscovered, SessionEvent::SubscribeFailed) => (
            SessionState::Disconnected,
            SessionAction::Disconnect(Some(SessionError::SubscribeFailed)),
        ),
        (SessionState::Subscribed, SessionEvent::StreamOpened) => (
            SessionState::Streaming,
            SessionAction::Listen,
        ),
        (SessionState::Subscribed, SessionEvent::StreamEnded) => (
            SessionState::Disconnected,
            SessionAction::Disconnect(None),
        ),
        (SessionState::Streaming, SessionEvent::Notification(payload)) => {
            match decoded(payload@) {
                Ok(reading) => (SessionState::Streaming, SessionAction::Record(reading)),
                Err(e) => (SessionState::Streaming, SessionAction::Reject(e)),
            }
        },
        (SessionState::Streaming, SessionEvent::StreamEnded) => (
            SessionState::Disconnected,
            SessionAction::Disconnect(None),
        ),
        _ => (state, SessionAction::Ignore),
    }
}

/// Computes the state that follows `state` on `event`, and the action that
/// the caller is to perform.
pub fn step(state: SessionState, event: &SessionEvent) -> (r: (SessionState, SessionAction))
    ensures
        r == transition(state, *event),
{
    match state {
        SessionState::Discovered => match event {
            SessionEvent::Begin => (SessionState::Connecting, SessionAction::Connect),
            _ => (state, SessionAction::Ignore),
        },
        SessionState::Connecting => match event {
            SessionEvent::ConnectSucceeded => (
                SessionState::Connected,
                SessionAction::DiscoverServices,
            ),
            SessionEvent::ConnectFailed => (
                SessionState::Disconnected,
                SessionAction::Abandon(SessionError::ConnectFailed),
            ),
            _ => (state, SessionAction::Ignore),
        },
        SessionState::Connected => match event {
            SessionEvent::DiscoverSucceeded(offered) => {
                match find_characteristic(offered, HEART_RATE_MEASUREMENT) {
                    Some(i) => (SessionState::ServicesDiscovered, SessionAction::Subscribe(i)),
                    None => (
                        SessionState::Disconnected,
                        SessionAction::Disconnect(Some(SessionError::CharacteristicNotFound)),
                    ),
                }
            },
            SessionEvent::DiscoverFailed => (
                SessionState::Disconnected,
                SessionAction::Disconnect(Some(SessionError::DiscoverFailed)),
            ),
            _ => (state, SessionAction::Ignore),
        },
        SessionState::ServicesDiscovered => match event {
            SessionEvent::SubscribeSucceeded => (
                SessionState::Subscribed,
                SessionAction::OpenStream,
            ),
            SessionEvent::SubscribeFailed => (
                SessionState::Disconnected,
                SessionAction::Disconnect(Some(SessionError::SubscribeFailed)),
            ),
            _ => (state, SessionAction::Ignore),
        },
        SessionState::Subscribed => match event {
            SessionEvent::StreamOpened => (SessionState::Streaming, SessionAction::Listen),
            SessionEvent::StreamEnded => (
                SessionState::Disconnected,
                SessionAction::Disconnect(None),
            ),
            _ => (state, SessionAction::Ignore),
        },
        SessionState::Streaming => match event {
            SessionEvent::Notification(payload) => {
                match decode_heart_rate(payload.as_slice()) {
                    Ok(reading) => (SessionState::Streaming, SessionAction::Record(reading)),
                    Err(e) => (SessionState::Streaming, SessionAction::Reject(e)),
                }
            },
            SessionEvent::StreamEnded => (
                SessionState::Disconnected,
                SessionAction::Disconnect(None),
            ),
            _ => (state, SessionAction::Ignore),
        },
        SessionState::Disconnected => (state, SessionAction::Ignore),
    }
}

/// One session with one peripheral.
#[derive(Debug)]
pub struct Session {
    pub state: SessionState,
}

impl Session {
    /// A session on a device that was just found.
    pub fn new() -> (r: Session)
        ensures
            r.state == SessionState::Discovered,
    {
        Session { state: SessionState::Discovered }
    }

    /// Where the session stands.
    pub fn state(&self) -> (r: SessionState)
        ensures
            r == self.state,
    {
        self.state
    }

    /// Whether the session is over.
    pub fn is_over(&self) -> (r: bool)
        ensures
            r == (self.state == SessionState::Disconnected),
    {
        match self.state {
            SessionState::Disconnected => true,
            _ => false,
        }
    }

    /// Takes one event, moves the session on and returns the action that the
    /// caller is to perform next.
    pub fn handle(&mut self, event: &SessionEvent) -> (action: SessionAction)
        ensures
            (final(self).state, action) == transition(old(self).state, *event),
    {
        let (next, action) = step(self.state, event);
        self.state = next;
        action
    }
}

/// The state of a session that started in `state` and took `events` in
/// order.
pub open spec fn state_after(state: SessionState, events: Seq<SessionEvent>) -> SessionState
    decreases events.len(),
{
    if events.len() == 0 {
        state
    } else {
        state_after(transition(state, events[0]).0, events.drop_first())
    }
}

/// How often a session that starts in `state` asks for a disconnect while it
/// takes `events`.
pub open spec fn disconnects(state: SessionState, events: Seq<SessionEvent>) -> nat
    decreases events.len(),
{
    if events.len() == 0 {
        0
    } else {
        let (next, action) = transition(state, events[0]);
        let rest = disconnects(next, events.drop_first());
        if action is Disconnect {
            rest + 1
        } else {
            rest
        }
    }
}

/// Whether a session that starts in `state` gains a connection while it
/// takes `events`.
pub open spec fn link_made(state: SessionState, events: Seq<SessionEvent>) -> bool
    decreases events.len(),
{
    if events.len() == 0 {
        false
    } else {
        let next = transition(state, events[0]).0;
        (!holds_link(state) && holds_link(next)) || link_made(next, events.drop_first())
    }
}

/// A session only moves forward: an event leaves it where it is, takes it
/// to the next state in order, or ends it.
pub proof fn lemma_step_moves_forward(state: SessionState, event: SessionEvent)
    ensures
        ({
            let next = transition(state, event).0;
            ||| next == state
            ||| rank(next) == rank(state) + 1
            ||| next == SessionState::Disconnected
        }),
        rank(transition(state, event).0) >= rank(state),
{
}

/// A connection is gained only by a successful connect, and it is given up
/// exactly where the session asks for a disconnect.
pub proof fn lemma_link_gained_and_released(state: SessionState, event: SessionEvent)
    ensures
        ({
            let (next, action) = transition(state, event);
            &&& (!holds_link(state) && holds_link(next)) <==> (state == SessionState::Connecting
                && event is ConnectSucceeded)
            &&& (holds_link(state) && !holds_link(next)) <==> action is Disconnect
            &&& action is Disconnect ==> next == SessionState::Disconnected
        }),
{
}

/// A session that is over stays over and asks for nothing more.
pub proof fn lemma_disconnected_is_terminal(events: Seq<SessionEvent>)
    ensures
        state_after(SessionState::Disconnected, events) == SessionState::Disconnected,
        disconnects(SessionState::Disconnected, events) == 0,
        !link_made(SessionState::Disconnected, events),
    decreases events.len(),
{
    if events.len() > 0 {
        lemma_disconnected_is_terminal(events.drop_first());
    }
}

/// No connection leaks and none is released twice: over any sequence of
/// events, a session asks for a disconnect once if it held or gained a
/// connection and no longer holds one, and never otherwise.
pub proof fn lemma_disconnect_exactly_once(state: SessionState, events: Seq<SessionEvent>)
    ensures
        disconnects(state, events) == if (holds_link(state) || link_made(state, events))
            && !holds_link(state_after(state, events)) {
            1nat
        } else {
            0nat
        },
    decreases events.len(),
{
    if events.len() > 0 {
        let (next, action) = transition(state, events[0]);
        lemma_link_gained_and_released(state, events[0]);
        lemma_disconnect_exactly_once(next, events.drop_first());
        if action is Disconnect {
            lemma_disconnected_is_terminal(events.drop_first());
        }
    }
}

/// A reading is recorded only for a notification that arrives while
/// streaming and holds at least the flags and the reading; the reading is
/// then the octet after the flags. A shorter notification is rejected, and
/// the session goes on.
pub proof fn lemma_record_only_well_formed(state: SessionState, event: SessionEvent)
    ensures
        ({
            let (next, action) = transition(state, event);
            &&& action is Record <==> (state == SessionState::Streaming && event is Notification
                && event->Notification_0@.len() >= 2)
            &&& action is Record ==> action->Record_0 == event->Notification_0@[1] && next
                == state
            &&& (state == SessionState::Streaming && event is Notification
                && event->Notification_0@.len() < 2) ==> action == SessionAction::Reject(
                SessionError::MalformedNotification,
            ) && next == state
        }),
{
}

} // verus!
