use tls_bootstrap::connection::{
    connection_step, listener_step, ConnectionAction, ConnectionEvent, ConnectionState,
    ListenerAction, ListenerEvent, ListenerState,
};
use tls_bootstrap::error::ConnectionStage;

const CONNECTION_STATES: [ConnectionState; 4] = [
    ConnectionState::Accepted,
    ConnectionState::Handshaking,
    ConnectionState::Serving,
    ConnectionState::Closed,
];

const CONNECTION_EVENTS: [ConnectionEvent; 6] = [
    ConnectionEvent::TaskStarted,
    ConnectionEvent::HandshakeCompleted,
    ConnectionEvent::HandshakeFailed,
    ConnectionEvent::RequestReceived,
    ConnectionEvent::ServingFailed,
    ConnectionEvent::PeerClosed,
];

const LISTENER_EVENTS: [ListenerEvent; 4] = [
    ListenerEvent::Bound,
    ListenerEvent::BindFailed,
    ListenerEvent::ConnectionAccepted,
    ListenerEvent::AcceptFailed,
];

fn run(mut state: ConnectionState, events: &[ConnectionEvent]) -> (ConnectionState, Vec<ConnectionAction>) {
    let mut actions = vec![];
    for event in events {
        let (next, action) = connection_step(state, *event);
        state = next;
        actions.push(action);
    }
    (state, actions)
}

#[test]
fn connection_goes_through_handshake_to_serving_and_is_closed() {
    let (state, actions) = run(
        ConnectionState::Accepted,
        &[
            ConnectionEvent::TaskStarted,
            ConnectionEvent::HandshakeCompleted,
            ConnectionEvent::RequestReceived,
            ConnectionEvent::RequestReceived,
            ConnectionEvent::PeerClosed,
        ],
    );
    assert_eq!(state, ConnectionState::Closed);
    assert_eq!(
        actions,
        vec![
            ConnectionAction::BeginHandshake,
            ConnectionAction::BeginServing,
            ConnectionAction::Respond,
            ConnectionAction::Respond,
            ConnectionAction::Release,
        ]
    );
}

#[test]
fn failed_handshake_closes_at_once_and_is_reported() {
    assert_eq!(
        connection_step(ConnectionState::Handshaking, ConnectionEvent::HandshakeFailed),
        (ConnectionState::Closed, ConnectionAction::Report(ConnectionStage::Handshake))
    );
    let (state, actions) = run(
        ConnectionState::Accepted,
        &[
            ConnectionEvent::TaskStarted,
            ConnectionEvent::HandshakeFailed,
            ConnectionEvent::RequestReceived,
        ],
    );
    assert_eq!(state, ConnectionState::Closed);
    assert_eq!(actions[2], ConnectionAction::Ignore);
}

#[test]
fn failure_while_serving_closes_and_is_reported() {
    assert_eq!(
        connection_step(ConnectionState::Serving, ConnectionEvent::ServingFailed),
        (ConnectionState::Closed, ConnectionAction::Report(ConnectionStage::Serving))
    );
}

#[test]
fn every_transition_of_a_connection() {
    for state in CONNECTION_STATES {
        for event in CONNECTION_EVENTS {
            let expected = match (state, event) {
                (ConnectionState::Accepted, ConnectionEvent::TaskStarted) => {
                    (ConnectionState::Handshaking, ConnectionAction::BeginHandshake)
                }
                (ConnectionState::Handshaking, ConnectionEvent::HandshakeCompleted) => {
                    (ConnectionState::Serving, ConnectionAction::BeginServing)
                }
                (ConnectionState::Handshaking, ConnectionEvent::HandshakeFailed) => {
                    (ConnectionState::Closed, ConnectionAction::Report(ConnectionStage::Handshake))
                }
                (ConnectionState::Serving, ConnectionEvent::RequestReceived) => {
                    (ConnectionState::Serving, ConnectionAction::Respond)
                }
                (ConnectionState::Serving, ConnectionEvent::ServingFailed) => {
                    (ConnectionState::Closed, ConnectionAction::Report(ConnectionStage::Serving))
                }
                (ConnectionState::Serving, ConnectionEvent::PeerClosed) => {
                    (ConnectionState::Closed, ConnectionAction::Release)
                }
                _ => (state, ConnectionAction::Ignore),
            };
            assert_eq!(connection_step(state, event), expected);
        }
    }
}

#[test]
fn closed_connection_stays_closed() {
    for event in CONNECTION_EVENTS {
        assert_eq!(
            connection_step(ConnectionState::Closed, event),
            (ConnectionState::Closed, ConnectionAction::Ignore)
        );
    }
}

#[test]
fn no_response_before_the_handshake_is_done() {
    for state in [ConnectionState::Accepted, ConnectionState::Handshaking, ConnectionState::Closed] {
        let (next, action) = connection_step(state, ConnectionEvent::RequestReceived);
        assert_eq!(next, state);
        assert_eq!(action, ConnectionAction::Ignore);
    }
}

#[test]
fn one_response_for_each_request_served() {
    let events = [
        ConnectionEvent::RequestReceived,
        ConnectionEvent::TaskStarted,
        ConnectionEvent::RequestReceived,
        ConnectionEvent::HandshakeCompleted,
        ConnectionEvent::RequestReceived,
        ConnectionEvent::RequestReceived,
        ConnectionEvent::RequestReceived,
        ConnectionEvent::ServingFailed,
        ConnectionEvent::RequestReceived,
    ];
    let (state, actions) = run(ConnectionState::Accepted, &events);
    assert_eq!(state, ConnectionState::Closed);
    let responses = actions.iter().filter(|a| **a == ConnectionAction::Respond).count();
    assert_eq!(responses, 3);
}

#[test]
fn listener_binds_then_accepts_for_good() {
    assert_eq!(
        listener_step(ListenerState::Starting, ListenerEvent::Bound),
        (ListenerState::Listening, ListenerAction::Announce)
    );
    assert_eq!(
        listener_step(ListenerState::Listening, ListenerEvent::ConnectionAccepted),
        (ListenerState::Listening, ListenerAction::Spawn)
    );
    assert_eq!(
        listener_step(ListenerState::Listening, ListenerEvent::AcceptFailed),
        (ListenerState::Listening, ListenerAction::ReportAcceptFailure)
    );
    for event in LISTENER_EVENTS {
        let (state, action) = listener_step(ListenerState::Listening, event);
        assert_eq!(state, ListenerState::Listening);
        assert_ne!(action, ListenerAction::Abort);
    }
}

#[test]
fn listener_gives_up_only_where_it_cannot_bind() {
    assert_eq!(
        listener_step(ListenerState::Starting, ListenerEvent::BindFailed),
        (ListenerState::Failed, ListenerAction::Abort)
    );
    for event in LISTENER_EVENTS {
        assert_eq!(
            listener_step(ListenerState::Failed, event),
            (ListenerState::Failed, ListenerAction::Ignore)
        );
    }
    assert_eq!(
        listener_step(ListenerState::Starting, ListenerEvent::ConnectionAccepted),
        (ListenerState::Starting, ListenerAction::Ignore)
    );
    assert_eq!(
        listener_step(ListenerState::Starting, ListenerEvent::AcceptFailed),
        (ListenerState::Starting, ListenerAction::Ignore)
    );
    assert_eq!(
        listener_step(ListenerState::Listening, ListenerEvent::Bound),
        (ListenerState::Listening, ListenerAction::Ignore)
    );
    assert_eq!(
        listener_step(ListenerState::Listening, ListenerEvent::BindFailed),
        (ListenerState::Listening, ListenerAction::Ignore)
    );
}

#[test]
fn connections_do_not_touch_each_other() {
    let mut listener = ListenerState::Starting;
    let mut connections: Vec<ConnectionState> = vec![];
    let (next, _) = listener_step(listener, ListenerEvent::Bound);
    listener = next;
    for _ in 0..3 {
        let (next, action) = listener_step(listener, ListenerEvent::ConnectionAccepted);
        listener = next;
        assert_eq!(action, ListenerAction::Spawn);
        connections.push(ConnectionState::Accepted);
    }
    let script = [
        (0, ConnectionEvent::TaskStarted),
        (1, ConnectionEvent::TaskStarted),
        (0, ConnectionEvent::HandshakeFailed),
        (1, ConnectionEvent::HandshakeCompleted),
        (0, ConnectionEvent::RequestReceived),
        (1, ConnectionEvent::RequestReceived),
    ];
    let mut last = ConnectionAction::Ignore;
    for (number, event) in script {
        let untouched = connections[2];
        let (next, action) = connection_step(connections[number], event);
        connections[number] = next;
        last = action;
        assert_eq!(connections[2], untouched);
    }
    assert_eq!(last, ConnectionAction::Respond);
    assert_eq!(
        connections,
        vec![ConnectionState::Closed, ConnectionState::Serving, ConnectionState::Accepted]
    );
    assert_eq!(listener, ListenerState::Listening);
}
