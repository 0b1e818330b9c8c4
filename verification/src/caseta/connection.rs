//! The session with the bridge: the frame reader, the login handshake and
//! the steady state in which events arrive.
//!
//! The session performs no I/O. It is a state machine: a driver performs the
//! transport operation that an [`Action`] asks for and reports what happened
//! as a [`TransportEvent`]; the session answers with the next action.

use bytes::BytesMut;
use std::ops::Deref;
use url::Host;
use vstd::prelude::*;
use vstd::string::StringExecFns;
use vstd::utf8::{decode_utf8, encode_utf8_decode_utf8, valid_utf8};

use crate::caseta::buffer::{buffered, utf8_text};
use crate::caseta::error::{DecodeError, DecodeErrorView};
use crate::caseta::message::{decode_text, Message};

verus! {

/// How long opening the transport may take, in seconds.
pub const CONNECT_TIMEOUT_SECS: u64 = 10;

/// The capacity, in bytes, that the buffer of a read starts with.
pub const FRAME_BUFFER_CAPACITY: usize = 128;

/// The line terminator that ends everything the session sends.
pub const LINE_TERMINATOR: &'static str = "\r\n";

/// `url::Host`, the host of the bridge. It is carried through unread.
#[verifier::external_type_specification]
#[verifier::external_body]
#[verifier::reject_recursive_types(S)]
pub struct ExHost<S>(url::Host<S>);

/// Where the bridge is reached: a host and a port. Opening the byte stream
/// there is the driver's work.
pub struct DefaultTcpSocketProvider {
    address: Host<String>,
    port: u16,
}

impl DefaultTcpSocketProvider {
    /// The host that the provider was made with.
    pub closed spec fn spec_address(&self) -> Host<String> {
        self.address
    }

    /// The port that the provider was made with.
    pub closed spec fn spec_port(&self) -> u16 {
        self.port
    }

    /// A provider for the bridge at `address` and `port`.
    pub fn new(address: Host<String>, port: u16) -> (provider: Self)
        ensures
            provider.spec_address() == address,
            provider.spec_port() == port,
    {
        Self { address, port }
    }

    /// The host of the bridge.
    pub fn address(&self) -> (address: &Host<String>)
        ensures
            *address == self.spec_address(),
    {
        &self.address
    }

    /// The port of the bridge.
    pub fn port(&self) -> (port: u16)
        ensures
            port == self.spec_port(),
    {
        self.port
    }
}

/// Where a session stands.
#[derive(Debug, Clone, Copy, PartialEq, Eq, Structural)]
pub enum SessionState {
    /// No transport yet.
    Unopened,
    /// The transport is open; the login prompt is expected.
    AwaitingLoginPrompt,
    /// The username is on its way; the password prompt is expected.
    AwaitingPasswordPrompt,
    /// The password is on its way; the confirmation is expected.
    AwaitingLoginConfirmation,
    /// The handshake is complete; events arrive.
    Ready,
    /// The session is over, after an error or the end of the stream.
    Closed,
}

/// What failed at the transport.
#[derive(Debug, Clone, Copy, PartialEq, Eq, Structural)]
pub enum TransportError {
    /// Opening the transport took longer than allowed.
    ConnectTimedOut,
    /// Opening the transport failed.
    ConnectFailed,
    /// A read failed.
    ReadFailed,
    /// A write or the flush after it failed.
    WriteFailed,
}

/// Why a session ended.
#[derive(Debug, PartialEq, Eq)]
pub enum ConnectionError {
    /// The transport failed.
    Transport(TransportError),
    /// The stream ended in the middle of a message.
    Framing,
    /// What was received is not a message.
    Decode(DecodeError),
    /// During the handshake in `state`, something else than the expected
    /// message arrived: the message `received`, or the end of the stream.
    ProtocolViolation { state: SessionState, received: Option<Message> },
    /// Something was asked of the session that needs a completed handshake,
    /// or of its transport before it was opened.
    Uninitialized,
    /// The request or the event has no place in the state of the session.
    OutOfTurn,
}

/// The mathematical value of a [`ConnectionError`].
pub enum ConnectionErrorView {
    Transport(TransportError),
    Framing,
    Decode(DecodeErrorView),
    ProtocolViolation { state: SessionState, received: Option<Message> },
    Uninitialized,
    OutOfTurn,
}

impl View for ConnectionError {
    type V = ConnectionErrorView;

    open spec fn view(&self) -> ConnectionErrorView {
        match *self {
            ConnectionError::Transport(error) => ConnectionErrorView::Transport(error),
            ConnectionError::Framing => ConnectionErrorView::Framing,
            ConnectionError::Decode(error) => ConnectionErrorView::Decode(error@),
            ConnectionError::ProtocolViolation { state, received } => {
                ConnectionErrorView::ProtocolViolation { state, received }
            },
            ConnectionError::Uninitialized => ConnectionErrorView::Uninitialized,
            ConnectionError::OutOfTurn => ConnectionErrorView::OutOfTurn,
        }
    }
}

/// What the transport did, as the driver reports it.
#[derive(Debug)]
pub enum TransportEvent {
    /// The transport is open.
    Connected,
    /// The transport could not be opened.
    ConnectFailed,
    /// Opening the transport took longer than the action allowed.
    ConnectTimedOut,
    /// One read was made into `buffer` and yielded `num_bytes_read` bytes.
    ReadCompleted { buffer: BytesMut, num_bytes_read: usize },
    /// The read failed.
    ReadFailed,
    /// The line was written and flushed.
    WriteCompleted,
    /// The write or the flush failed.
    WriteFailed,
}

/// The mathematical value of a [`TransportEvent`].
pub enum TransportEventView {
    Connected,
    ConnectFailed,
    ConnectTimedOut,
    ReadCompleted { buffered: Seq<u8>, num_bytes_read: usize },
    ReadFailed,
    WriteCompleted,
    WriteFailed,
}

impl View for TransportEvent {
    type V = TransportEventView;

    open spec fn view(&self) -> TransportEventView {
        match *self {
            TransportEvent::Connected => TransportEventView::Connected,
            TransportEvent::ConnectFailed => TransportEventView::ConnectFailed,
            TransportEvent::ConnectTimedOut => TransportEventView::ConnectTimedOut,
            TransportEvent::ReadCompleted { buffer, num_bytes_read } => {
                TransportEventView::ReadCompleted { buffered: buffered(&buffer), num_bytes_read }
            },
            TransportEvent::ReadFailed => TransportEventView::ReadFailed,
            TransportEvent::WriteCompleted => TransportEventView::WriteCompleted,
            TransportEvent::WriteFailed => TransportEventView::WriteFailed,
        }
    }
}

/// What the session asks of its driver, or tells its caller.
#[derive(Debug)]
pub enum Action {
    /// Open the transport, in one attempt that may take `timeout_secs`
    /// seconds at most, and report `Connected`, `ConnectFailed` or
    /// `ConnectTimedOut`.
    Connect { timeout_secs: u64 },
    /// Make one read into `buffer` and report `ReadCompleted` with the
    /// buffer, or `ReadFailed`.
    Read { buffer: BytesMut },
    /// Write `line`, flush, and report `WriteCompleted` or `WriteFailed`.
    Write { line: String },
    /// The handshake is complete.
    Initialized,
    /// This message arrived.
    Deliver(Message),
    /// The stream ended in an orderly way; no more messages will come.
    EndOfStream,
    /// The session ended with this error.
    Fail(ConnectionError),
}

/// The mathematical value of an [`Action`].
pub enum ActionView {
    Connect { timeout_secs: u64 },
    Read { buffered: Seq<u8> },
    Write { line: Seq<char> },
    Initialized,
    Deliver(Message),
    EndOfStream,
    Fail(ConnectionErrorView),
}

impl View for Action {
    type V = ActionView;

    open spec fn view(&self) -> ActionView {
        match *self {
            Action::Connect { timeout_secs } => ActionView::Connect { timeout_secs },
            Action::Read { buffer } => ActionView::Read { buffered: buffered(&buffer) },
            Action::Write { line } => ActionView::Write { line: line@ },
            Action::Initialized => ActionView::Initialized,
            Action::Deliver(message) => ActionView::Deliver(message),
            Action::EndOfStream => ActionView::EndOfStream,
            Action::Fail(error) => ActionView::Fail(error@),
        }
    }
}

/// What a frame is: a message, the orderly end of the stream (`Ok(None)`),
/// or an error.
pub type Frame = Result<Option<Message>, ConnectionError>;

/// The mathematical value of a [`Frame`].
pub type FrameView = Result<Option<Message>, ConnectionErrorView>;

/// The mathematical value of what the frame reader returns.
pub open spec fn frame_view(frame: Frame) -> FrameView {
    match frame {
        Ok(message) => Ok(message),
        Err(error) => Err(error@),
    }
}

/// What received bytes decode to: they must be UTF-8 text, and the text a
/// message.
pub open spec fn decode_frame(bytes: Seq<u8>) -> Result<Message, DecodeErrorView> {
    if valid_utf8(bytes) {
        decode_text(decode_utf8(bytes))
    } else {
        Err(DecodeErrorView::InvalidUtf8)
    }
}

/// What one read amounts to, given the bytes that the buffer holds after it
/// and the number of bytes that the read yielded. A read that yields nothing
/// is the orderly end of the stream if nothing is buffered, and a truncated
/// message if something is. Otherwise the buffered bytes are decoded.
pub open spec fn frame_of_read(buffered: Seq<u8>, num_bytes_read: usize) -> FrameView {
    if num_bytes_read == 0 {
        if buffered.len() == 0 {
            Ok(None)
        } else {
            Err(ConnectionErrorView::Framing)
        }
    } else {
        match decode_frame(buffered) {
            Ok(message) => Ok(Some(message)),
            Err(error) => Err(ConnectionErrorView::Decode(error)),
        }
    }
}

/// The mathematical value of a session: its two credentials and its state.
pub struct SessionView {
    pub username: Seq<char>,
    pub password: Seq<char>,
    pub state: SessionState,
}

/// A credential as it is sent: followed by the line terminator.
pub open spec fn credential_line(credential: Seq<char>) -> Seq<char> {
    credential + LINE_TERMINATOR@
}

/// The state that follows and the action taken when `frame` is read during
/// the handshake, in the state `session.state`.
///
/// Each handshake state expects exactly one message. On it the session moves
/// on: after the login prompt it sends the username, after the password
/// prompt the password, and after the confirmation it is ready. Any other
/// message, and the end of the stream, is a protocol violation; an error of
/// the frame reader is passed on. Each of those closes the session.
pub open spec fn log_in_step(session: SessionView, frame: FrameView) -> (SessionState, ActionView) {
    match frame {
        Ok(Some(Message::LoginPrompt)) if session.state == SessionState::AwaitingLoginPrompt => (
            SessionState::AwaitingPasswordPrompt,
            ActionView::Write { line: credential_line(session.username) },
        ),
        Ok(Some(Message::PasswordPrompt)) if session.state
            == SessionState::AwaitingPasswordPrompt => (
            SessionState::AwaitingLoginConfirmation,
            ActionView::Write { line: credential_line(session.password) },
        ),
        Ok(Some(Message::LoggedIn)) if session.state == SessionState::AwaitingLoginConfirmation => (
            SessionState::Ready,
            ActionView::Initialized,
        ),
        Ok(received) => (
            SessionState::Closed,
            ActionView::Fail(
                ConnectionErrorView::ProtocolViolation { state: session.state, received },
            ),
        ),
        Err(error) => (SessionState::Closed, ActionView::Fail(error)),
    }
}

/// The state that follows and the action taken when a frame is read in the
/// ready state: a message is delivered, the end of the stream is reported
/// and closes the session, an error closes it.
pub open spec fn ready_step(frame: FrameView) -> (SessionState, ActionView) {
    match frame {
        Ok(Some(message)) => (SessionState::Ready, ActionView::Deliver(message)),
        Ok(None) => (SessionState::Closed, ActionView::EndOfStream),
        Err(error) => (SessionState::Closed, ActionView::Fail(error)),
    }
}

/// The session closes with `error`.
pub open spec fn fail_step(error: ConnectionErrorView) -> (SessionState, ActionView) {
    (SessionState::Closed, ActionView::Fail(error))
}

/// The state that follows and the action taken when the driver reports
/// `event` to a session.
pub open spec fn advance_step(session: SessionView, event: TransportEventView) -> (
    SessionState,
    ActionView,
) {
    match session.state {
        SessionState::Unopened => match event {
            TransportEventView::Connected => (
                SessionState::AwaitingLoginPrompt,
                ActionView::Read { buffered: Seq::empty() },
            ),
            TransportEventView::ConnectFailed => fail_step(
                ConnectionErrorView::Transport(TransportError::ConnectFailed),
            ),
            TransportEventView::ConnectTimedOut => fail_step(
                ConnectionErrorView::Transport(TransportError::ConnectTimedOut),
            ),
            _ => fail_step(ConnectionErrorView::Uninitialized),
        },
        SessionState::AwaitingLoginPrompt => match event {
            TransportEventView::ReadCompleted { buffered, num_bytes_read } => log_in_step(
                session,
                frame_of_read(buffered, num_bytes_read),
            ),
            TransportEventView::ReadFailed => fail_step(
                ConnectionErrorView::Transport(TransportError::ReadFailed),
            ),
            _ => fail_step(ConnectionErrorView::OutOfTurn),
        },
        SessionState::AwaitingPasswordPrompt
        | SessionState::AwaitingLoginConfirmation => match event {
            TransportEventView::WriteCompleted => (
                session.state,
                ActionView::Read { buffered: Seq::empty() },
            ),
            TransportEventView::WriteFailed => fail_step(
                ConnectionErrorView::Transport(TransportError::WriteFailed),
            ),
            TransportEventView::ReadCompleted { buffered, num_bytes_read } => log_in_step(
                session,
                frame_of_read(buffered, num_bytes_read),
            ),
            TransportEventView::ReadFailed => fail_step(
                ConnectionErrorView::Transport(TransportError::ReadFailed),
            ),
            _ => fail_step(ConnectionErrorView::OutOfTurn),
        },
        SessionState::Ready => match event {
            TransportEventView::ReadCompleted { buffered, num_bytes_read } => ready_step(
                frame_of_read(buffered, num_bytes_read),
            ),
            TransportEventView::ReadFailed => fail_step(
                ConnectionErrorView::Transport(TransportError::ReadFailed),
            ),
            _ => fail_step(ConnectionErrorView::OutOfTurn),
        },
        SessionState::Closed => fail_step(ConnectionErrorView::OutOfTurn),
    }
}

/// The state that follows and the action taken when the caller asks a
/// session to initialize: an unopened session asks for the transport to be
/// opened within [`CONNECT_TIMEOUT_SECS`]; for any other the request is out
/// of turn.
pub open spec fn initialize_step(session: SessionView) -> (SessionState, ActionView) {
    match session.state {
        SessionState::Unopened => (
            SessionState::Unopened,
            ActionView::Connect { timeout_secs: CONNECT_TIMEOUT_SECS },
        ),
        _ => fail_step(ConnectionErrorView::OutOfTurn),
    }
}

/// The state that follows and the action taken when the caller asks a
/// session for the next message: a ready session asks for one read; one
/// whose handshake is not complete is uninitialized; for a closed one the
/// request is out of turn.
pub open spec fn await_message_step(session: SessionView) -> (SessionState, ActionView) {
    match session.state {
        SessionState::Ready => (SessionState::Ready, ActionView::Read { buffered: Seq::empty() }),
        SessionState::Closed => fail_step(ConnectionErrorView::OutOfTurn),
        _ => fail_step(ConnectionErrorView::Uninitialized),
    }
}

/// One session with the bridge: the two credentials, which never change,
/// and the state.
pub struct CasetaConnection {
    caseta_username: String,
    caseta_password: String,
    state: SessionState,
}

impl View for CasetaConnection {
    type V = SessionView;

    closed spec fn view(&self) -> SessionView {
        SessionView {
            username: self.caseta_username@,
            password: self.caseta_password@,
            state: self.state,
        }
    }
}

impl CasetaConnection {
    /// A session that has no transport yet.
    pub fn new(caseta_username: String, caseta_password: String) -> (connection: Self)
        ensures
            connection@ == (SessionView {
                username: caseta_username@,
                password: caseta_password@,
                state: SessionState::Unopened,
            }),
    {
        Self { caseta_username, caseta_password, state: SessionState::Unopened }
    }

    /// Where the session stands.
    pub fn state(&self) -> (state: SessionState)
        ensures
            state == self@.state,
    {
        self.state
    }

    /// The frame reader: says what one read amounts to, given the buffer
    /// that the read was made into and the number of bytes it yielded.
    pub fn read_frame(buffer: &BytesMut, num_bytes_read: usize) -> (frame: Frame)
        ensures
            frame_view(frame) == frame_of_read(buffered(buffer), num_bytes_read),
    {
        if num_bytes_read == 0 {
            if buffer.is_empty() {
                return Ok(None);
            } else {
                return Err(ConnectionError::Framing);
            }
        }
        let bytes: &[u8] = buffer.deref();
        match utf8_text(bytes) {
            None => Err(ConnectionError::Decode(DecodeError::InvalidUtf8)),
            Some(contents) => {
                proof {
                    encode_utf8_decode_utf8(contents@);
                }
                match Message::from_str(contents) {
                    Ok(message) => Ok(Some(message)),
                    Err(error) => Err(ConnectionError::Decode(error)),
                }
            },
        }
    }

    /// Closes the session with `error`.
    fn fail(&mut self, error: ConnectionError) -> (action: Action)
        ensures
            final(self)@.username == old(self)@.username,
            final(self)@.password == old(self)@.password,
            (final(self)@.state, action@) == fail_step(error@),
    {
        self.state = SessionState::Closed;
        Action::Fail(error)
    }

    /// Asks for one read into a fresh buffer.
    fn read() -> (action: Action)
        ensures
            action@ == (ActionView::Read { buffered: Seq::empty() }),
    {
        Action::Read { buffer: BytesMut::with_capacity(FRAME_BUFFER_CAPACITY) }
    }

    /// Asks for `credential` to be sent as a line.
    fn write(credential: &String) -> (action: Action)
        ensures
            action@ == (ActionView::Write { line: credential_line(credential@) }),
    {
        let mut line = credential.clone();
        line.append(LINE_TERMINATOR);
        Action::Write { line }
    }

    /// One step of the handshake: takes the frame that was read in a
    /// handshake state and says what follows, as [`log_in_step`] has it.
    fn log_in(&mut self, frame: Frame) -> (action: Action)
        ensures
            final(self)@.username == old(self)@.username,
            final(self)@.password == old(self)@.password,
            (final(self)@.state, action@) == log_in_step(old(self)@, frame_view(frame)),
    {
        match frame {
            Ok(Some(Message::LoginPrompt)) if self.state == SessionState::AwaitingLoginPrompt => {
                self.state = SessionState::AwaitingPasswordPrompt;
                Self::write(&self.caseta_username)
            },
            Ok(Some(Message::PasswordPrompt)) if self.state
                == SessionState::AwaitingPasswordPrompt => {
                self.state = SessionState::AwaitingLoginConfirmation;
                Self::write(&self.caseta_password)
            },
            Ok(Some(Message::LoggedIn)) if self.state
                == SessionState::AwaitingLoginConfirmation => {
                self.state = SessionState::Ready;
                Action::Initialized
            },
            Ok(received) => {
                let state = self.state;
                self.fail(ConnectionError::ProtocolViolation { state, received })
            },
            Err(error) => self.fail(error),
        }
    }

    /// Begins the handshake. An unopened session asks for its transport to be
    /// opened; what the driver then reports goes to [`Self::advance`], until
    /// the answer is `Initialized` or `Fail`. A session in any other state
    /// takes the request as out of turn and closes.
    pub fn initialize(&mut self) -> (action: Action)
        ensures
            final(self)@.username == old(self)@.username,
            final(self)@.password == old(self)@.password,
            (final(self)@.state, action@) == initialize_step(old(self)@),
    {
        match self.state {
            SessionState::Unopened => Action::Connect { timeout_secs: CONNECT_TIMEOUT_SECS },
            _ => self.fail(ConnectionError::OutOfTurn),
        }
    }

    /// Asks for the next message. A ready session asks for one read; what
    /// the driver then reports goes to [`Self::advance`], which answers with
    /// `Deliver`, `EndOfStream` or `Fail`. A session whose handshake is not
    /// complete answers `Fail(Uninitialized)`, a closed one
    /// `Fail(OutOfTurn)`; either way it is closed afterwards.
    pub fn await_message(&mut self) -> (action: Action)
        ensures
            final(self)@.username == old(self)@.username,
            final(self)@.password == old(self)@.password,
            (final(self)@.state, action@) == await_message_step(old(self)@),
    {
        match self.state {
            SessionState::Ready => Self::read(),
            SessionState::Closed => self.fail(ConnectionError::OutOfTurn),
            _ => self.fail(ConnectionError::Uninitialized),
        }
    }

    /// Takes what the driver reports and answers with the next action, as
    /// [`advance_step`] has it. The credentials never change.
    pub fn advance(&mut self, event: TransportEvent) -> (action: Action)
        ensures
            final(self)@.username == old(self)@.username,
            final(self)@.password == old(self)@.password,
            (final(self)@.state, action@) == advance_step(old(self)@, event@),
    {
        match self.state {
            SessionState::Unopened => match event {
                TransportEvent::Connected => {
                    self.state = SessionState::AwaitingLoginPrompt;
                    Self::read()
                },
                TransportEvent::ConnectFailed => self.fail(
                    ConnectionError::Transport(TransportError::ConnectFailed),
                ),
                TransportEvent::ConnectTimedOut => self.fail(
                    ConnectionError::Transport(TransportError::ConnectTimedOut),
                ),
                _ => self.fail(ConnectionError::Uninitialized),
            },
            SessionState::AwaitingLoginPrompt => match event {
                TransportEvent::ReadCompleted { buffer, num_bytes_read } => {
                    let frame = Self::read_frame(&buffer, num_bytes_read);
                    self.log_in(frame)
                },
                TransportEvent::ReadFailed => self.fail(
                    ConnectionError::Transport(TransportError::ReadFailed),
                ),
                _ => self.fail(ConnectionError::OutOfTurn),
            },
            SessionState::AwaitingPasswordPrompt
            | SessionState::AwaitingLoginConfirmation => match event {
                TransportEvent::WriteCompleted => Self::read(),
                TransportEvent::WriteFailed => self.fail(
                    ConnectionError::Transport(TransportError::WriteFailed),
                ),
                TransportEvent::ReadCompleted { buffer, num_bytes_read } => {
                    let frame = Self::read_frame(&buffer, num_bytes_read);
                    self.log_in(frame)
                },
                TransportEvent::ReadFailed => self.fail(
                    ConnectionError::Transport(TransportError::ReadFailed),
                ),
                _ => self.fail(ConnectionError::OutOfTurn),
            },
            SessionState::Ready => match event {
                TransportEvent::ReadCompleted { buffer, num_bytes_read } => {
                    match Self::read_frame(&buffer, num_bytes_read) {
                        Ok(Some(message)) => Action::Deliver(message),
                        Ok(None) => {
                            self.state = SessionState::Closed;
                            Action::EndOfStream
                        },
                        Err(error) => self.fail(error),
                    }
                },
                TransportEvent::ReadFailed => self.fail(
                    ConnectionError::Transport(TransportError::ReadFailed),
                ),
                _ => self.fail(ConnectionError::OutOfTurn),
            },
            SessionState::Closed => self.fail(ConnectionError::OutOfTurn),
        }
    }
}

} // verus!
