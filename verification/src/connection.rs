//! The life of the listener and of each connection, as two small state
//! machines.
//!
//! The caller owns the sockets and the tasks. It tells a machine what
//! happened, and the machine answers with the next state and with what to do.
//! A connection goes from accepted through its handshake to serving, and is
//! closed at the end or at its first failure. A failure is reported and ends
//! that connection alone: the listener, once bound, listens for good.

use crate::error::ConnectionStage;
use vstd::prelude::*;

verus! {

/// Where a connection stands.
#[derive(Clone, Copy, Debug, PartialEq, Eq, Structural)]
pub enum ConnectionState {
    /// Taken from the listener; its task has not begun.
    Accepted,
    /// In the TLS handshake.
    Handshaking,
    /// Past the handshake, answering requests.
    Serving,
    /// Over.
    Closed,
}

/// What happened on a connection.
#[derive(Clone, Copy, Debug, PartialEq, Eq, Structural)]
pub enum ConnectionEvent {
    /// The connection's own task has begun.
    TaskStarted,
    /// The TLS handshake succeeded.
    HandshakeCompleted,
    /// The TLS handshake failed.
    HandshakeFailed,
    /// A request has arrived.
    RequestReceived,
    /// Reading or writing failed while serving.
    ServingFailed,
    /// The client ended the connection.
    PeerClosed,
}

/// What the caller is to do for a connection.
#[derive(Clone, Copy, Debug, PartialEq, Eq, Structural)]
pub enum ConnectionAction {
    /// Begin the TLS handshake.
    BeginHandshake,
    /// Begin to read requests.
    BeginServing,
    /// Write the fixed response, once.
    Respond,
    /// Report that the connection failed at this stage, and drop it.
    Report(ConnectionStage),
    /// Drop the connection.
    Release,
    /// Nothing: the event does not belong to the state.
    Ignore,
}

/// The next state of a connection and what to do, for each state and event.
/// An event that does not belong to the state changes nothing.
pub open spec fn connection_transition(state: ConnectionState, event: ConnectionEvent) -> (
    ConnectionState,
    ConnectionAction,
) {
    match (state, event) {
        (ConnectionState::Accepted, ConnectionEvent::TaskStarted) => (
            ConnectionState::Handshaking,
            ConnectionAction::BeginHandshake,
        ),
        (ConnectionState::Handshaking, ConnectionEvent::HandshakeCompleted) => (
            ConnectionState::Serving,
            ConnectionAction::BeginServing,
        ),
        (ConnectionState::Handshaking, ConnectionEvent::HandshakeFailed) => (
            ConnectionState::Closed,
            ConnectionAction::Report(ConnectionStage::Handshake),
        ),
        (ConnectionState::Serving, ConnectionEvent::RequestReceived) => (
            ConnectionState::Serving,
            ConnectionAction::Respond,
        ),
        (ConnectionState::Serving, ConnectionEvent::ServingFailed) => (
            ConnectionState::Closed,
            ConnectionAction::Report(ConnectionStage::Serving),
        ),
        (ConnectionState::Serving, ConnectionEvent::PeerClosed) => (
            ConnectionState::Closed,
            ConnectionAction::Release,
        ),
        _ => (state, ConnectionAction::Ignore),
    }
}

/// Takes one event on a connection.
pub fn connection_step(state: ConnectionState, event: ConnectionEvent) -> (r: (
    ConnectionState,
    ConnectionAction,
))
    ensures
        r == connection_transition(state, event),
{
    match state {
        ConnectionState::Accepted => match event {
            ConnectionEvent::TaskStarted => (
                ConnectionState::Handshaking,
                ConnectionAction::BeginHandshake,
            ),
            _ => (state, ConnectionAction::Ignore),
        },
        ConnectionState::Handshaking => match event {
            ConnectionEvent::HandshakeCompleted => (
                ConnectionState::Serving,
                ConnectionAction::BeginServing,
            ),
            ConnectionEvent::HandshakeFailed => (
                ConnectionState::Closed,
                ConnectionAction::Report(ConnectionStage::Handshake),
            ),
            _ => (state, ConnectionAction::Ignore),
        },
        ConnectionState::Serving => match event {
            ConnectionEvent::RequestReceived => (
                ConnectionState::Serving,
                ConnectionAction::Respond,
            ),
            ConnectionEvent::ServingFailed => (
                ConnectionState::Closed,
                ConnectionAction::Report(ConnectionStage::Serving),
            ),
            ConnectionEvent::PeerClosed => (ConnectionState::Closed, ConnectionAction::Release),
            _ => (state, ConnectionAction::Ignore),
        },
        ConnectionState::Closed => (state, ConnectionAction::Ignore),
    }
}

/// Where the listener stands.
#[derive(Clone, Copy, Debug, PartialEq, Eq, Structural)]
pub enum ListenerState {
    /// Not bound yet.
    Starting,
    /// Bound, and accepting connections.
    Listening,
    /// The address could not be bound.
    Failed,
}

/// What happened at the listener.
#[derive(Clone, Copy, Debug, PartialEq, Eq, Structural)]
pub enum ListenerEvent {
    /// The address is bound.
    Bound,
    /// The address could not be bound.
    BindFailed,
    /// A connection has been accepted.
    ConnectionAccepted,
    /// Accepting a connection failed.
    AcceptFailed,
}

/// What the caller is to do at the listener.
#[derive(Clone, Copy, Debug, PartialEq, Eq, Structural)]
pub enum ListenerAction {
    /// Say where the server listens, and begin to accept.
    Announce,
    /// Give the connection a task of its own, and accept the next at once.
    Spawn,
    /// Report that accepting failed, and accept the next.
    ReportAcceptFailure,
    /// Report that the address could not be bound, and give up.
    Abort,
    /// Nothing: the event does not belong to the state.
    Ignore,
}

/// The next state of the listener and what to do, for each state and event.
pub open spec fn listener_transition(state: ListenerState, event: ListenerEvent) -> (
    ListenerState,
    ListenerAction,
) {
    match (state, event) {
        (ListenerState::Starting, ListenerEvent::Bound) => (
            ListenerState::Listening,
            ListenerAction::Announce,
        ),
        (ListenerState::Starting, ListenerEvent::BindFailed) => (
            ListenerState::Failed,
            ListenerAction::Abort,
        ),
        (ListenerState::Listening, ListenerEvent::ConnectionAccepted) => (
            ListenerState::Listening,
            ListenerAction::Spawn,
        ),
        (ListenerState::Listening, ListenerEvent::AcceptFailed) => (
            ListenerState::Listening,
            ListenerAction::ReportAcceptFailure,
        ),
        _ => (state, ListenerAction::Ignore),
    }
}

/// Takes one event at the listener.
pub fn listener_step(state: ListenerState, event: ListenerEvent) -> (r: (
    ListenerState,
    ListenerAction,
))
    ensures
        r == listener_transition(state, event),
{
    match state {
        ListenerState::Starting => match event {
            ListenerEvent::Bound => (ListenerState::Listening, ListenerAction::Announce),
            ListenerEvent::BindFailed => (ListenerState::Failed, ListenerAction::Abort),
            _ => (state, ListenerAction::Ignore),
        },
        ListenerState::Listening => match event {
            ListenerEvent::ConnectionAccepted => (ListenerState::Listening, ListenerAction::Spawn),
            ListenerEvent::AcceptFailed => (
                ListenerState::Listening,
                ListenerAction::ReportAcceptFailure,
            ),
            _ => (state, ListenerAction::Ignore),
        },
        ListenerState::Failed => (state, ListenerAction::Ignore),
    }
}

/// The state of a connection after a run of events.
pub open spec fn connection_after(state: ConnectionState, events: Seq<ConnectionEvent>)
    -> ConnectionState
    decreases events.len(),
{
    if events.len() == 0 {
        state
    } else {
        connection_transition(connection_after(state, events.drop_last()), events.last()).0
    }
}

/// How many responses a run of events has the caller write.
pub open spec fn responses_written(state: ConnectionState, events: Seq<ConnectionEvent>) -> nat
    decreases events.len(),
{
    if events.len() == 0 {
        0
    } else {
        let before = connection_after(state, events.drop_last());
        let earlier = responses_written(state, events.drop_last());
        if connection_transition(before, events.last()).1 == ConnectionAction::Respond {
            earlier + 1
        } else {
            earlier
        }
    }
}

/// How many requests of a run of events arrive while the connection serves.
pub open spec fn requests_served(state: ConnectionState, events: Seq<ConnectionEvent>) -> nat
    decreases events.len(),
{
    if events.len() == 0 {
        0
    } else {
        let before = connection_after(state, events.drop_last());
        let earlier = requests_served(state, events.drop_last());
        if before == ConnectionState::Serving && events.last()
            == ConnectionEvent::RequestReceived {
            earlier + 1
        } else {
            earlier
        }
    }
}

/// A closed connection stays closed, whatever happens.
pub proof fn lemma_closed_is_final(events: Seq<ConnectionEvent>)
    ensures
        connection_after(ConnectionState::Closed, events) == ConnectionState::Closed,
    decreases events.len(),
{
    if events.len() > 0 {
        lemma_closed_is_final(events.drop_last());
    }
}

/// The handshake comes before serving: a connection that serves after a run
/// of events from its acceptance has seen its task start and then its
/// handshake complete.
pub proof fn lemma_handshake_precedes_serving(events: Seq<ConnectionEvent>)
    requires
        connection_after(ConnectionState::Accepted, events) == ConnectionState::Serving,
    ensures
        exists|i: int, j: int|
            0 <= i < j < events.len() && events[i] == ConnectionEvent::TaskStarted && events[j]
                == ConnectionEvent::HandshakeCompleted,
    decreases events.len(),
{
    if events.len() > 0 {
        let earlier = events.drop_last();
        let before = connection_after(ConnectionState::Accepted, earlier);
        if before == ConnectionState::Serving {
            lemma_handshake_precedes_serving(earlier);
            let (i, j) = choose|i: int, j: int|
                0 <= i < j < earlier.len() && earlier[i] == ConnectionEvent::TaskStarted
                    && earlier[j] == ConnectionEvent::HandshakeCompleted;
        } else {
            lemma_handshaking_has_started(earlier);
            let i = choose|i: int|
                0 <= i < earlier.len() && earlier[i] == ConnectionEvent::TaskStarted;
        }
    }
}

/// A connection that is in its handshake after a run of events from its
/// acceptance has seen its task start.
pub proof fn lemma_handshaking_has_started(events: Seq<ConnectionEvent>)
    requires
        connection_after(ConnectionState::Accepted, events) == ConnectionState::Handshaking,
    ensures
        exists|i: int| 0 <= i < events.len() && events[i] == ConnectionEvent::TaskStarted,
    decreases events.len(),
{
    if events.len() > 0 {
        let earlier = events.drop_last();
        let before = connection_after(ConnectionState::Accepted, earlier);
        if before == ConnectionState::Handshaking {
            lemma_handshaking_has_started(earlier);
            let i = choose|i: int|
                0 <= i < earlier.len() && earlier[i] == ConnectionEvent::TaskStarted;
        } else {
        }
    }
}

/// One response for each request: over any run of events, from any state,
/// the caller is told to respond exactly as often as a request arrives while
/// the connection serves.
pub proof fn lemma_one_response_per_request(state: ConnectionState, events: Seq<ConnectionEvent>)
    ensures
        responses_written(state, events) == requests_served(state, events),
    decreases events.len(),
{
    if events.len() > 0 {
        lemma_one_response_per_request(state, events.drop_last());
    }
}

/// Once bound, the listener listens for good: no event takes it out of
/// `Listening`, and none has the caller give up.
pub proof fn lemma_listening_is_final(event: ListenerEvent)
    ensures
        listener_transition(ListenerState::Listening, event).0 == ListenerState::Listening,
        listener_transition(ListenerState::Listening, event).1 != ListenerAction::Abort,
{
}

/// A server as a whole: its listener, and its connections in the order in
/// which they were accepted.
pub struct ServerView {
    pub listener: ListenerState,
    pub connections: Seq<ConnectionState>,
}

/// What happened at a server: something at the listener, or something on the
/// connection with the given number.
pub enum ServerEvent {
    Listener(ListenerEvent),
    Connection(int, ConnectionEvent),
}

/// The server after one event. An accepted connection is added at the end;
/// an event on a connection moves that connection; an event on a number that
/// no connection has changes nothing.
pub open spec fn server_transition(server: ServerView, event: ServerEvent) -> ServerView {
    match event {
        ServerEvent::Listener(at_listener) => {
            let (listener, action) = listener_transition(server.listener, at_listener);
            ServerView {
                listener,
                connections: if action == ListenerAction::Spawn {
                    server.connections.push(ConnectionState::Accepted)
                } else {
                    server.connections
                },
            }
        },
        ServerEvent::Connection(number, on_connection) => {
            if 0 <= number < server.connections.len() {
                ServerView {
                    listener: server.listener,
                    connections: server.connections.update(
                        number,
                        connection_transition(server.connections[number], on_connection).0,
                    ),
                }
            } else {
                server
            }
        },
    }
}

/// The server after a run of events.
pub open spec fn server_after(server: ServerView, events: Seq<ServerEvent>) -> ServerView
    decreases events.len(),
{
    if events.len() == 0 {
        server
    } else {
        server_transition(server_after(server, events.drop_last()), events.last())
    }
}

/// Whether `event` is an event on the connection `number`.
pub open spec fn concerns(event: ServerEvent, number: int) -> bool {
    event matches ServerEvent::Connection(n, _) && n == number
}

/// Connections are isolated: whatever happens at the listener and on other
/// connections, a connection stays as it is, and a listener that listens
/// goes on listening.
pub proof fn lemma_connections_are_isolated(
    server: ServerView,
    events: Seq<ServerEvent>,
    number: int,
)
    requires
        0 <= number < server.connections.len(),
        forall|i: int| 0 <= i < events.len() ==> !concerns(#[trigger] events[i], number),
    ensures
        server_after(server, events).connections.len() >= server.connections.len(),
        server_after(server, events).connections[number] == server.connections[number],
        server.listener == ListenerState::Listening ==> server_after(server, events).listener
            == ListenerState::Listening,
    decreases events.len(),
{
    if events.len() > 0 {
        let earlier = events.drop_last();
        assert forall|i: int| 0 <= i < earlier.len() implies !concerns(
            #[trigger] earlier[i],
            number,
        ) by {
            assert(earlier[i] == events[i]);
        }
        lemma_connections_are_isolated(server, earlier, number);
    }
}

/// A failed handshake is reported and ends its connection, and the next
/// client is served all the same: the listener accepts it, its handshake can
/// complete, and its request is answered.
pub proof fn lemma_service_survives_failed_handshake(server: ServerView, failing: int)
    requires
        server.listener == ListenerState::Listening,
        0 <= failing < server.connections.len(),
        server.connections[failing] == ConnectionState::Handshaking,
    ensures
        ({
            let next = server.connections.len() as int;
            let failed = server_transition(
                server,
                ServerEvent::Connection(failing, ConnectionEvent::HandshakeFailed),
            );
            let accepted = server_transition(
                failed,
                ServerEvent::Listener(ListenerEvent::ConnectionAccepted),
            );
            let started = server_transition(
                accepted,
                ServerEvent::Connection(next, ConnectionEvent::TaskStarted),
            );
            let serving = server_transition(
                started,
                ServerEvent::Connection(next, ConnectionEvent::HandshakeCompleted),
            );
            &&& connection_transition(
                server.connections[failing],
                ConnectionEvent::HandshakeFailed,
            ).1 == ConnectionAction::Report(ConnectionStage::Handshake)
            &&& failed.connections[failing] == ConnectionState::Closed
            &&& failed.listener == ListenerState::Listening
            &&& listener_transition(failed.listener, ListenerEvent::ConnectionAccepted).1
                == ListenerAction::Spawn
            &&& accepted.connections.len() == next + 1
            &&& accepted.connections[next] == ConnectionState::Accepted
            &&& serving.connections[next] == ConnectionState::Serving
            &&& connection_transition(
                serving.connections[next],
                ConnectionEvent::RequestReceived,
            ) == (ConnectionState::Serving, ConnectionAction::Respond)
        }),
{
}

} // verus!
