use bytes::BytesMut;
use caseta_codec::caseta::connection::{
    Action, CasetaConnection, ConnectionError, DefaultTcpSocketProvider, SessionState,
    TransportError, TransportEvent, CONNECT_TIMEOUT_SECS, FRAME_BUFFER_CAPACITY,
    LINE_TERMINATOR,
};
use caseta_codec::caseta::error::DecodeError;
use caseta_codec::caseta::message::Message;
use caseta_codec::caseta::remote::{ButtonAction, ButtonId};
use url::Host;

/// What a scripted transport does when it is asked to read.
enum Read {
    /// The read appends these bytes to the buffer.
    Bytes(&'static [u8]),
    /// The read yields nothing although these bytes are buffered.
    Stalled(&'static [u8]),
    /// The read fails.
    Fails,
}

/// A transport that follows a script and records what is written to it.
struct MockTransport {
    connects: Result<(), TransportEvent>,
    reads: Vec<Read>,
    write_fails: bool,
    connect_count: usize,
    writes: Vec<String>,
}

impl MockTransport {
    fn emitting(reads: Vec<Read>) -> Self {
        MockTransport { connects: Ok(()), reads, write_fails: false, connect_count: 0, writes: Vec::new() }
    }

    fn perform(&mut self, action: Action) -> Result<TransportEvent, Action> {
        match action {
            Action::Connect { timeout_secs } => {
                assert_eq!(timeout_secs, CONNECT_TIMEOUT_SECS);
                self.connect_count += 1;
                Ok(match std::mem::replace(&mut self.connects, Ok(())) {
                    Ok(()) => TransportEvent::Connected,
                    Err(event) => event,
                })
            }
            Action::Read { mut buffer } => {
                assert!(buffer.is_empty());
                if self.reads.is_empty() {
                    return Ok(TransportEvent::ReadCompleted { buffer, num_bytes_read: 0 });
                }
                Ok(match self.reads.remove(0) {
                    Read::Bytes(bytes) => {
                        buffer.extend_from_slice(bytes);
                        TransportEvent::ReadCompleted { buffer, num_bytes_read: bytes.len() }
                    }
                    Read::Stalled(bytes) => {
                        buffer.extend_from_slice(bytes);
                        TransportEvent::ReadCompleted { buffer, num_bytes_read: 0 }
                    }
                    Read::Fails => TransportEvent::ReadFailed,
                })
            }
            Action::Write { line } => {
                if self.write_fails {
                    Ok(TransportEvent::WriteFailed)
                } else {
                    self.writes.push(line);
                    Ok(TransportEvent::WriteCompleted)
                }
            }
            last => Err(last),
        }
    }

    /// Performs what the session asks for until it asks for nothing more.
    fn drive(&mut self, connection: &mut CasetaConnection, first: Action) -> Action {
        let mut action = first;
        loop {
            match self.perform(action) {
                Ok(event) => action = connection.advance(event),
                Err(last) => return last,
            }
        }
    }

    fn initialize(&mut self, connection: &mut CasetaConnection) -> Action {
        let first = connection.initialize();
        self.drive(connection, first)
    }

    fn await_message(&mut self, connection: &mut CasetaConnection) -> Action {
        let first = connection.await_message();
        self.drive(connection, first)
    }
}

fn connection() -> CasetaConnection {
    CasetaConnection::new(String::from("lutron"), String::from("integration"))
}

fn handshake() -> Vec<Read> {
    vec![Read::Bytes(b"login: "), Read::Bytes(b"password: "), Read::Bytes(b"GNET> ")]
}

fn ready(mut then: Vec<Read>) -> (CasetaConnection, MockTransport) {
    let mut reads = handshake();
    reads.append(&mut then);
    let mut transport = MockTransport::emitting(reads);
    let mut connection = connection();
    assert!(matches!(transport.initialize(&mut connection), Action::Initialized));
    assert_eq!(connection.state(), SessionState::Ready);
    (connection, transport)
}

fn failure(action: Action) -> ConnectionError {
    match action {
        Action::Fail(error) => error,
        other => panic!("expected a failure, got {:?}", other),
    }
}

fn buffer_of(bytes: &[u8]) -> BytesMut {
    BytesMut::from(bytes)
}

#[test]
fn new_connection_is_unopened() {
    assert_eq!(connection().state(), SessionState::Unopened);
}

#[test]
fn handshake_succeeds_and_writes_username_then_password() {
    let mut transport = MockTransport::emitting(handshake());
    let mut connection = connection();
    let outcome = transport.initialize(&mut connection);
    assert!(matches!(outcome, Action::Initialized));
    assert_eq!(connection.state(), SessionState::Ready);
    assert_eq!(transport.writes, vec![String::from("lutron\r\n"), String::from("integration\r\n")]);
    assert_eq!(transport.connect_count, 1);
    assert!(transport.reads.is_empty());
}

#[test]
fn handshake_step_by_step() {
    let mut connection = connection();
    assert!(matches!(connection.initialize(), Action::Connect { timeout_secs: 10 }));
    assert_eq!(connection.state(), SessionState::Unopened);

    let action = connection.advance(TransportEvent::Connected);
    assert!(matches!(action, Action::Read { ref buffer } if buffer.is_empty()));
    assert_eq!(connection.state(), SessionState::AwaitingLoginPrompt);

    let action = connection.advance(TransportEvent::ReadCompleted { buffer: buffer_of(b"login: "), num_bytes_read: 7 });
    assert!(matches!(action, Action::Write { ref line } if line == "lutron\r\n"));
    assert_eq!(connection.state(), SessionState::AwaitingPasswordPrompt);

    let action = connection.advance(TransportEvent::WriteCompleted);
    assert!(matches!(action, Action::Read { ref buffer } if buffer.is_empty()));
    assert_eq!(connection.state(), SessionState::AwaitingPasswordPrompt);

    let action = connection.advance(TransportEvent::ReadCompleted { buffer: buffer_of(b"password: "), num_bytes_read: 10 });
    assert!(matches!(action, Action::Write { ref line } if line == "integration\r\n"));
    assert_eq!(connection.state(), SessionState::AwaitingLoginConfirmation);

    let action = connection.advance(TransportEvent::WriteCompleted);
    assert!(matches!(action, Action::Read { ref buffer } if buffer.is_empty()));
    assert_eq!(connection.state(), SessionState::AwaitingLoginConfirmation);

    let action = connection.advance(TransportEvent::ReadCompleted { buffer: buffer_of(b"GNET> "), num_bytes_read: 6 });
    assert!(matches!(action, Action::Initialized));
    assert_eq!(connection.state(), SessionState::Ready);
}

#[test]
fn sent_lines_end_with_the_line_terminator() {
    assert_eq!(LINE_TERMINATOR, "\r\n");
    let mut transport = MockTransport::emitting(handshake());
    let mut connection = CasetaConnection::new(String::new(), String::from("p w"));
    assert!(matches!(transport.initialize(&mut connection), Action::Initialized));
    assert_eq!(transport.writes, vec![String::from("\r\n"), String::from("p w\r\n")]);
}

#[test]
fn handshake_fails_without_writes_when_the_login_prompt_is_skipped() {
    let mut transport = MockTransport::emitting(vec![Read::Bytes(b"password: ")]);
    let mut connection = connection();
    let error = failure(transport.initialize(&mut connection));
    assert_eq!(
        error,
        ConnectionError::ProtocolViolation {
            state: SessionState::AwaitingLoginPrompt,
            received: Some(Message::PasswordPrompt),
        }
    );
    assert!(transport.writes.is_empty());
    assert_eq!(connection.state(), SessionState::Closed);
}

#[test]
fn button_event_before_login_completes_is_a_protocol_violation() {
    let mut transport = MockTransport::emitting(vec![Read::Bytes(b"login: "), Read::Bytes(b"~DEVICE,4,5,3")]);
    let mut connection = connection();
    let error = failure(transport.initialize(&mut connection));
    assert_eq!(
        error,
        ConnectionError::ProtocolViolation {
            state: SessionState::AwaitingPasswordPrompt,
            received: Some(Message::ButtonEvent {
                remote_id: 4,
                button_id: ButtonId::Up,
                action: ButtonAction::Press,
            }),
        }
    );
    assert_eq!(transport.writes, vec![String::from("lutron\r\n")]);
    assert_eq!(connection.state(), SessionState::Closed);
}

#[test]
fn wrong_confirmation_is_a_protocol_violation() {
    let mut transport = MockTransport::emitting(vec![
        Read::Bytes(b"login: "),
        Read::Bytes(b"password: "),
        Read::Bytes(b"login: "),
    ]);
    let mut connection = connection();
    let error = failure(transport.initialize(&mut connection));
    assert_eq!(
        error,
        ConnectionError::ProtocolViolation {
            state: SessionState::AwaitingLoginConfirmation,
            received: Some(Message::LoginPrompt),
        }
    );
    assert_eq!(transport.writes.len(), 2);
    assert_eq!(connection.state(), SessionState::Closed);
}

#[test]
fn end_of_stream_during_the_handshake_is_a_protocol_violation() {
    let mut transport = MockTransport::emitting(vec![Read::Bytes(b"login: ")]);
    let mut connection = connection();
    let error = failure(transport.initialize(&mut connection));
    assert_eq!(
        error,
        ConnectionError::ProtocolViolation { state: SessionState::AwaitingPasswordPrompt, received: None }
    );
    assert_eq!(connection.state(), SessionState::Closed);
}

#[test]
fn unrecognized_text_during_the_handshake_is_a_decode_error() {
    let mut transport = MockTransport::emitting(vec![Read::Bytes(b"welcome")]);
    let mut connection = connection();
    let error = failure(transport.initialize(&mut connection));
    assert_eq!(
        error,
        ConnectionError::Decode(DecodeError::NotUnderstood { text: String::from("welcome") })
    );
    assert!(transport.writes.is_empty());
    assert_eq!(connection.state(), SessionState::Closed);
}

#[test]
fn connect_failure_is_a_transport_error() {
    let mut transport = MockTransport::emitting(handshake());
    transport.connects = Err(TransportEvent::ConnectFailed);
    let mut connection = connection();
    let error = failure(transport.initialize(&mut connection));
    assert_eq!(error, ConnectionError::Transport(TransportError::ConnectFailed));
    assert_eq!(connection.state(), SessionState::Closed);
    assert_eq!(transport.connect_count, 1);
    assert!(transport.writes.is_empty());
}

#[test]
fn connect_timeout_is_a_distinct_transport_error() {
    let mut transport = MockTransport::emitting(handshake());
    transport.connects = Err(TransportEvent::ConnectTimedOut);
    let mut connection = connection();
    let error = failure(transport.initialize(&mut connection));
    assert_eq!(error, ConnectionError::Transport(TransportError::ConnectTimedOut));
    assert_ne!(error, ConnectionError::Transport(TransportError::ConnectFailed));
    assert_eq!(connection.state(), SessionState::Closed);
}

#[test]
fn connect_timeout_is_ten_seconds() {
    assert_eq!(CONNECT_TIMEOUT_SECS, 10);
    assert!(matches!(connection().initialize(), Action::Connect { timeout_secs: 10 }));
}

#[test]
fn read_failure_during_the_handshake_is_a_transport_error() {
    let mut transport = MockTransport::emitting(vec![Read::Bytes(b"login: "), Read::Fails]);
    let mut connection = connection();
    let error = failure(transport.initialize(&mut connection));
    assert_eq!(error, ConnectionError::Transport(TransportError::ReadFailed));
    assert_eq!(connection.state(), SessionState::Closed);
}

#[test]
fn write_failure_during_the_handshake_is_a_transport_error() {
    let mut transport = MockTransport::emitting(handshake());
    transport.write_fails = true;
    let mut connection = connection();
    let error = failure(transport.initialize(&mut connection));
    assert_eq!(error, ConnectionError::Transport(TransportError::WriteFailed));
    assert_eq!(connection.state(), SessionState::Closed);
}

#[test]
fn clean_close_after_ready_is_the_end_of_stream() {
    let (mut connection, mut transport) = ready(vec![Read::Bytes(b"")]);
    let outcome = transport.await_message(&mut connection);
    assert!(matches!(outcome, Action::EndOfStream));
    assert_eq!(connection.state(), SessionState::Closed);
}

#[test]
fn truncated_message_is_a_framing_error() {
    let (mut connection, mut transport) = ready(vec![Read::Stalled(b"~DEVICE,4,")]);
    let error = failure(transport.await_message(&mut connection));
    assert_eq!(error, ConnectionError::Framing);
    assert_eq!(connection.state(), SessionState::Closed);
}

#[test]
fn ready_session_delivers_each_message() {
    let (mut connection, mut transport) = ready(vec![
        Read::Bytes(b"~DEVICE,4,5,3"),
        Read::Bytes(b"~DEVICE,4,5,4"),
        Read::Bytes(b"GNET> "),
    ]);
    let first = transport.await_message(&mut connection);
    assert!(matches!(
        first,
        Action::Deliver(Message::ButtonEvent { remote_id: 4, button_id: ButtonId::Up, action: ButtonAction::Press })
    ));
    assert_eq!(connection.state(), SessionState::Ready);
    let second = transport.await_message(&mut connection);
    assert!(matches!(
        second,
        Action::Deliver(Message::ButtonEvent { remote_id: 4, button_id: ButtonId::Up, action: ButtonAction::Release })
    ));
    let third = transport.await_message(&mut connection);
    assert!(matches!(third, Action::Deliver(Message::LoggedIn)));
    assert_eq!(connection.state(), SessionState::Ready);
    assert_eq!(transport.writes.len(), 2);
}

#[test]
fn unrecognized_line_in_the_ready_state_is_a_decode_error() {
    let (mut connection, mut transport) = ready(vec![Read::Bytes(b"~OUTPUT,2,1,100.00")]);
    let error = failure(transport.await_message(&mut connection));
    assert_eq!(
        error,
        ConnectionError::Decode(DecodeError::NotUnderstood { text: String::from("~OUTPUT,2,1,100.00") })
    );
    assert_eq!(connection.state(), SessionState::Closed);
}

#[test]
fn unknown_button_in_the_ready_state_is_a_decode_error() {
    let (mut connection, mut transport) = ready(vec![Read::Bytes(b"~DEVICE,4,7,3")]);
    let error = failure(transport.await_message(&mut connection));
    assert_eq!(error, ConnectionError::Decode(DecodeError::InvalidButtonId(7)));
}

#[test]
fn read_failure_in_the_ready_state_is_a_transport_error() {
    let (mut connection, mut transport) = ready(vec![Read::Fails]);
    let error = failure(transport.await_message(&mut connection));
    assert_eq!(error, ConnectionError::Transport(TransportError::ReadFailed));
    assert_eq!(connection.state(), SessionState::Closed);
}

#[test]
fn await_message_before_initialize_is_uninitialized() {
    let mut connection = connection();
    let error = failure(connection.await_message());
    assert_eq!(error, ConnectionError::Uninitialized);
    assert_eq!(connection.state(), SessionState::Closed);
}

#[test]
fn await_message_during_the_handshake_is_uninitialized() {
    let mut connection = connection();
    assert!(matches!(connection.advance(TransportEvent::Connected), Action::Read { .. }));
    let error = failure(connection.await_message());
    assert_eq!(error, ConnectionError::Uninitialized);
    assert_eq!(connection.state(), SessionState::Closed);
}

#[test]
fn transport_events_before_the_transport_is_open_are_uninitialized() {
    let events = [
        TransportEvent::ReadCompleted { buffer: buffer_of(b"login: "), num_bytes_read: 7 },
        TransportEvent::ReadFailed,
        TransportEvent::WriteCompleted,
        TransportEvent::WriteFailed,
    ];
    for event in events {
        let mut connection = connection();
        let error = failure(connection.advance(event));
        assert_eq!(error, ConnectionError::Uninitialized);
        assert_eq!(connection.state(), SessionState::Closed);
    }
}

#[test]
fn initialize_twice_is_out_of_turn() {
    let (mut connection, _transport) = ready(vec![]);
    let error = failure(connection.initialize());
    assert_eq!(error, ConnectionError::OutOfTurn);
    assert_eq!(connection.state(), SessionState::Closed);
}

#[test]
fn events_out_of_turn_close_the_session() {
    let mut awaiting_login = connection();
    assert!(matches!(awaiting_login.advance(TransportEvent::Connected), Action::Read { .. }));
    assert_eq!(failure(awaiting_login.advance(TransportEvent::WriteCompleted)), ConnectionError::OutOfTurn);
    assert_eq!(awaiting_login.state(), SessionState::Closed);

    let mut connected_twice = connection();
    assert!(matches!(connected_twice.advance(TransportEvent::Connected), Action::Read { .. }));
    assert_eq!(failure(connected_twice.advance(TransportEvent::Connected)), ConnectionError::OutOfTurn);

    let (mut in_ready, _transport) = ready(vec![]);
    assert_eq!(failure(in_ready.advance(TransportEvent::WriteCompleted)), ConnectionError::OutOfTurn);
    assert_eq!(in_ready.state(), SessionState::Closed);
}

#[test]
fn closed_session_stays_closed() {
    let (mut connection, mut transport) = ready(vec![Read::Bytes(b"")]);
    assert!(matches!(transport.await_message(&mut connection), Action::EndOfStream));
    assert_eq!(failure(connection.await_message()), ConnectionError::OutOfTurn);
    assert_eq!(failure(connection.initialize()), ConnectionError::OutOfTurn);
    assert_eq!(failure(connection.advance(TransportEvent::Connected)), ConnectionError::OutOfTurn);
    assert_eq!(
        failure(connection.advance(TransportEvent::ReadCompleted { buffer: buffer_of(b"GNET> "), num_bytes_read: 6 })),
        ConnectionError::OutOfTurn
    );
    assert_eq!(connection.state(), SessionState::Closed);
}

#[test]
fn read_frame_of_an_empty_read_is_the_end_of_stream() {
    assert_eq!(CasetaConnection::read_frame(&BytesMut::new(), 0), Ok(None));
}

#[test]
fn read_frame_of_a_stalled_read_is_a_framing_error() {
    assert_eq!(CasetaConnection::read_frame(&buffer_of(b"login"), 0), Err(ConnectionError::Framing));
    assert_eq!(CasetaConnection::read_frame(&buffer_of(b"login: "), 0), Err(ConnectionError::Framing));
}

#[test]
fn read_frame_decodes_what_is_buffered() {
    assert_eq!(CasetaConnection::read_frame(&buffer_of(b"login: "), 7), Ok(Some(Message::LoginPrompt)));
    assert_eq!(CasetaConnection::read_frame(&buffer_of(b"password: "), 10), Ok(Some(Message::PasswordPrompt)));
    assert_eq!(CasetaConnection::read_frame(&buffer_of(b"GNET> "), 6), Ok(Some(Message::LoggedIn)));
    assert_eq!(
        CasetaConnection::read_frame(&buffer_of(b"~DEVICE,4,5,3"), 13),
        Ok(Some(Message::ButtonEvent { remote_id: 4, button_id: ButtonId::Up, action: ButtonAction::Press }))
    );
}

#[test]
fn read_frame_of_invalid_utf8_is_a_decode_error() {
    assert_eq!(
        CasetaConnection::read_frame(&buffer_of(&[0xff, 0xfe]), 2),
        Err(ConnectionError::Decode(DecodeError::InvalidUtf8))
    );
    assert_eq!(
        CasetaConnection::read_frame(&buffer_of(b"login: \xc3"), 8),
        Err(ConnectionError::Decode(DecodeError::InvalidUtf8))
    );
}

#[test]
fn read_frame_of_unrecognized_text_carries_the_text() {
    assert_eq!(
        CasetaConnection::read_frame(&buffer_of("caf\u{e9}\r\n".as_bytes()), 7),
        Err(ConnectionError::Decode(DecodeError::NotUnderstood { text: String::from("caf\u{e9}\r\n") }))
    );
}

#[test]
fn read_buffer_is_fresh_and_bounded() {
    assert_eq!(FRAME_BUFFER_CAPACITY, 128);
    let mut connection = connection();
    match connection.advance(TransportEvent::Connected) {
        Action::Read { buffer } => {
            assert!(buffer.is_empty());
            assert_eq!(buffer.len(), 0);
            assert!(buffer.capacity() >= FRAME_BUFFER_CAPACITY);
        }
        other => panic!("expected a read, got {:?}", other),
    }
}

#[test]
fn provider_keeps_host_and_port() {
    let provider = DefaultTcpSocketProvider::new(Host::parse("192.168.1.20").unwrap(), 23);
    assert_eq!(provider.port(), 23);
    assert_eq!(provider.address().to_string(), "192.168.1.20");
    let named = DefaultTcpSocketProvider::new(Host::parse("bridge.local").unwrap(), 8023);
    assert_eq!(named.port(), 8023);
    assert_eq!(named.address(), &Host::Domain(String::from("bridge.local")));
}
