//! What holds of a session over whole runs of events: which actions answer
//! the handshake, what is ever written, and that errors are final.

use vstd::prelude::*;
use vstd::utf8::{encode_utf8, encode_utf8_decode_utf8, encode_utf8_valid_utf8};

use crate::caseta::connection::{
    advance_step, await_message_step, credential_line, fail_step, frame_of_read,
    initialize_step, ActionView, ConnectionErrorView, SessionState, SessionView,
    TransportEventView, LINE_TERMINATOR,
};
use crate::caseta::message::{lemma_wire_text_round_trip, wire_text, Message};

verus! {

/// The session after a run of events, and the actions that it answered them
/// with, one for each event and in their order.
pub open spec fn run(session: SessionView, events: Seq<TransportEventView>) -> (
    SessionView,
    Seq<ActionView>,
)
    decreases events.len(),
{
    if events.len() == 0 {
        (session, Seq::empty())
    } else {
        let (before, actions) = run(session, events.drop_last());
        let (state, action) = advance_step(before, events.last());
        (SessionView { state, ..before }, actions.push(action))
    }
}

/// A run that is one event longer takes one more step.
pub proof fn lemma_run_push(
    session: SessionView,
    events: Seq<TransportEventView>,
    event: TransportEventView,
)
    ensures
        run(session, events.push(event)) == ({
            let (before, actions) = run(session, events);
            let (state, action) = advance_step(before, event);
            (SessionView { state, ..before }, actions.push(action))
        }),
{
    assert(events.push(event).drop_last() =~= events);
}

/// The handshake. A session starts unopened. When the transport opens and
/// the bridge sends the login prompt, the password prompt and the
/// confirmation in this order, the session answers the six reports with: a
/// read, the username as a line, a read, the password as a line, a read, and
/// the word that it is initialized. It writes nothing else, and it is ready
/// afterwards with its credentials unchanged.
pub proof fn lemma_handshake_completes(
    session: SessionView,
    login: TransportEventView,
    password: TransportEventView,
    confirmation: TransportEventView,
)
    requires
        session.state == SessionState::Unopened,
        login matches TransportEventView::ReadCompleted { buffered, num_bytes_read }
            && frame_of_read(buffered, num_bytes_read) == Ok::<
            Option<Message>,
            ConnectionErrorView,
        >(Some(Message::LoginPrompt)),
        password matches TransportEventView::ReadCompleted { buffered, num_bytes_read }
            && frame_of_read(buffered, num_bytes_read) == Ok::<
            Option<Message>,
            ConnectionErrorView,
        >(Some(Message::PasswordPrompt)),
        confirmation matches TransportEventView::ReadCompleted { buffered, num_bytes_read }
            && frame_of_read(buffered, num_bytes_read) == Ok::<
            Option<Message>,
            ConnectionErrorView,
        >(Some(Message::LoggedIn)),
    ensures
        ({
            let (after, actions) = run(
                session,
                seq![
                    TransportEventView::Connected,
                    login,
                    TransportEventView::WriteCompleted,
                    password,
                    TransportEventView::WriteCompleted,
                    confirmation,
                ],
            );
            &&& after == (SessionView { state: SessionState::Ready, ..session })
            &&& actions == seq![
                ActionView::Read { buffered: Seq::empty() },
                ActionView::Write { line: session.username + LINE_TERMINATOR@ },
                ActionView::Read { buffered: Seq::empty() },
                ActionView::Write { line: session.password + LINE_TERMINATOR@ },
                ActionView::Read { buffered: Seq::empty() },
                ActionView::Initialized,
            ]
        }),
{
    let e0 = Seq::<TransportEventView>::empty();
    let e1 = e0.push(TransportEventView::Connected);
    let e2 = e1.push(login);
    let e3 = e2.push(TransportEventView::WriteCompleted);
    let e4 = e3.push(password);
    let e5 = e4.push(TransportEventView::WriteCompleted);
    let e6 = e5.push(confirmation);
    lemma_run_push(session, e0, TransportEventView::Connected);
    lemma_run_push(session, e1, login);
    lemma_run_push(session, e2, TransportEventView::WriteCompleted);
    lemma_run_push(session, e3, password);
    lemma_run_push(session, e4, TransportEventView::WriteCompleted);
    lemma_run_push(session, e5, confirmation);
    assert(e6 =~= seq![
        TransportEventView::Connected,
        login,
        TransportEventView::WriteCompleted,
        password,
        TransportEventView::WriteCompleted,
        confirmation,
    ]);
    assert(run(session, e6).1 =~= seq![
        ActionView::Read { buffered: Seq::empty() },
        ActionView::Write { line: session.username + LINE_TERMINATOR@ },
        ActionView::Read { buffered: Seq::empty() },
        ActionView::Write { line: session.password + LINE_TERMINATOR@ },
        ActionView::Read { buffered: Seq::empty() },
        ActionView::Initialized,
    ]);
}

/// The lines of the writes among `actions`, in their order.
pub open spec fn written_lines(actions: Seq<ActionView>) -> Seq<Seq<char>>
    decreases actions.len(),
{
    if actions.len() == 0 {
        Seq::empty()
    } else {
        let before = written_lines(actions.drop_last());
        match actions.last() {
            ActionView::Write { line } => before.push(line),
            _ => before,
        }
    }
}

/// What a session writes, whatever the transport does. Over every run of
/// events from an unopened session, the session answers each event with one
/// action, keeps its credentials, and writes nothing but the username as a
/// line and then the password as a line, each once at most: nothing before
/// the login prompt was received, the username alone until the password
/// prompt was received, and both from then on. A closed session may have
/// stopped anywhere on that way.
pub proof fn lemma_run_writes_credentials_in_order(
    session: SessionView,
    events: Seq<TransportEventView>,
)
    requires
        session.state == SessionState::Unopened,
    ensures
        ({
            let (after, actions) = run(session, events);
            let lines = written_lines(actions);
            let username_line = credential_line(session.username);
            let password_line = credential_line(session.password);
            &&& after.username == session.username
            &&& after.password == session.password
            &&& actions.len() == events.len()
            &&& match after.state {
                SessionState::Unopened | SessionState::AwaitingLoginPrompt => lines
                    == Seq::<Seq<char>>::empty(),
                SessionState::AwaitingPasswordPrompt => lines == seq![username_line],
                SessionState::AwaitingLoginConfirmation | SessionState::Ready => lines
                    == seq![username_line, password_line],
                SessionState::Closed => lines.is_prefix_of(seq![username_line, password_line]),
            }
        }),
    decreases events.len(),
{
    if events.len() > 0 {
        lemma_run_writes_credentials_in_order(session, events.drop_last());
        let (before, actions) = run(session, events.drop_last());
        let action = advance_step(before, events.last()).1;
        assert(actions.push(action).drop_last() =~= actions);
        let lines = written_lines(actions);
        let both = seq![credential_line(session.username), credential_line(session.password)];
        assert(Seq::<Seq<char>>::empty().is_prefix_of(both));
        assert(seq![credential_line(session.username)].is_prefix_of(both));
        assert(both.is_prefix_of(both));
        match action {
            ActionView::Write { line } => {
                assert(written_lines(actions.push(action)) == lines.push(line));
                if before.state == SessionState::AwaitingLoginPrompt {
                    assert(lines.push(line) =~= seq![credential_line(session.username)]);
                } else {
                    assert(lines.push(line) =~= both);
                }
            },
            _ => {
                assert(written_lines(actions.push(action)) == lines);
            },
        }
    }
}

/// The transport is opened on request only, and once: no event makes a
/// session ask for it, and a request to initialize does so exactly when the
/// session is unopened, with a budget of ten seconds.
pub proof fn lemma_connect_is_asked_once(session: SessionView, event: TransportEventView)
    ensures
        advance_step(session, event).1 !is Connect,
        await_message_step(session).1 !is Connect,
        initialize_step(session).1 is Connect <==> session.state == SessionState::Unopened,
        initialize_step(session).1 matches ActionView::Connect { timeout_secs } ==> timeout_secs
            == 10,
{
}

/// The wire text of a message is a frame with that message: when a read
/// yields bytes and the buffer then holds the bytes of the text, the frame
/// reader finds the message.
pub proof fn lemma_wire_text_is_a_frame(message: Message, num_bytes_read: usize)
    requires
        num_bytes_read > 0,
    ensures
        frame_of_read(encode_utf8(wire_text(message)), num_bytes_read) == Ok::<
            Option<Message>,
            ConnectionErrorView,
        >(Some(message)),
{
    encode_utf8_valid_utf8(wire_text(message));
    encode_utf8_decode_utf8(wire_text(message));
    lemma_wire_text_round_trip(message);
}

/// A skipped login prompt. When the first thing that the bridge sends on an
/// opened transport is a message other than the login prompt, or the stream
/// ends there, the session answers the two reports with a read and a
/// protocol violation that names what arrived. It asks for no write, and it
/// is closed afterwards.
pub proof fn lemma_handshake_refuses_other_message(
    session: SessionView,
    buffered: Seq<u8>,
    num_bytes_read: usize,
    received: Option<Message>,
)
    requires
        session.state == SessionState::Unopened,
        frame_of_read(buffered, num_bytes_read) == Ok::<Option<Message>, ConnectionErrorView>(
            received,
        ),
        received != Some(Message::LoginPrompt),
    ensures
        ({
            let (after, actions) = run(
                session,
                seq![
                    TransportEventView::Connected,
                    TransportEventView::ReadCompleted { buffered, num_bytes_read },
                ],
            );
            &&& after == (SessionView { state: SessionState::Closed, ..session })
            &&& actions == seq![
                ActionView::Read { buffered: Seq::empty() },
                ActionView::Fail(
                    ConnectionErrorView::ProtocolViolation {
                        state: SessionState::AwaitingLoginPrompt,
                        received,
                    },
                ),
            ]
        }),
{
    let read = TransportEventView::ReadCompleted { buffered, num_bytes_read };
    let e0 = Seq::<TransportEventView>::empty();
    let e1 = e0.push(TransportEventView::Connected);
    let e2 = e1.push(read);
    lemma_run_push(session, e0, TransportEventView::Connected);
    lemma_run_push(session, e1, read);
    assert(e2 =~= seq![TransportEventView::Connected, read]);
    assert(run(session, e2).1 =~= seq![
        ActionView::Read { buffered: Seq::empty() },
        ActionView::Fail(
            ConnectionErrorView::ProtocolViolation {
                state: SessionState::AwaitingLoginPrompt,
                received,
            },
        ),
    ]);
}

/// A write is asked for in two situations only: the login prompt arrived
/// while it was awaited, and the line is the username; or the password
/// prompt arrived while it was awaited, and the line is the password.
pub proof fn lemma_writes_answer_prompts(session: SessionView, event: TransportEventView)
    ensures
        advance_step(session, event).1 matches ActionView::Write { line } ==> {
            &&& event matches TransportEventView::ReadCompleted { buffered, num_bytes_read }
            &&& {
                ||| {
                    &&& session.state == SessionState::AwaitingLoginPrompt
                    &&& frame_of_read(buffered, num_bytes_read) == Ok::<
                        Option<Message>,
                        ConnectionErrorView,
                    >(Some(Message::LoginPrompt))
                    &&& line == session.username + LINE_TERMINATOR@
                }
                ||| {
                    &&& session.state == SessionState::AwaitingPasswordPrompt
                    &&& frame_of_read(buffered, num_bytes_read) == Ok::<
                        Option<Message>,
                        ConnectionErrorView,
                    >(Some(Message::PasswordPrompt))
                    &&& line == session.password + LINE_TERMINATOR@
                }
            }
        },
        initialize_step(session).1 !is Write,
        await_message_step(session).1 !is Write,
{
}

/// Messages are delivered by a ready session only, which stays ready; and a
/// session says that it is initialized exactly when the confirmation arrives
/// while it is awaited, which makes it ready. No request is answered with
/// either.
pub proof fn lemma_outcomes_have_their_states(session: SessionView, event: TransportEventView)
    ensures
        advance_step(session, event).1 matches ActionView::Deliver(message) ==> {
            &&& session.state == SessionState::Ready
            &&& advance_step(session, event).0 == SessionState::Ready
            &&& event matches TransportEventView::ReadCompleted { buffered, num_bytes_read }
            &&& frame_of_read(buffered, num_bytes_read) == Ok::<
                Option<Message>,
                ConnectionErrorView,
            >(Some(message))
        },
        advance_step(session, event).1 is Initialized <==> {
            &&& session.state == SessionState::AwaitingLoginConfirmation
            &&& event matches TransportEventView::ReadCompleted { buffered, num_bytes_read }
            &&& frame_of_read(buffered, num_bytes_read) == Ok::<
                Option<Message>,
                ConnectionErrorView,
            >(Some(Message::LoggedIn))
        },
        advance_step(session, event).1 is Initialized ==> advance_step(session, event).0
            == SessionState::Ready,
        advance_step(session, event).0 == SessionState::Ready ==> session.state
            == SessionState::Ready || advance_step(session, event).1 is Initialized,
        initialize_step(session).1 !is Deliver && initialize_step(session).1 !is Initialized,
        await_message_step(session).1 !is Deliver && await_message_step(session).1 !is Initialized,
{
}

/// Every error is final, and so is the end of the stream: a step that
/// answers with `Fail` or `EndOfStream` leaves the session closed, whether
/// the step answers an event or a request.
pub proof fn lemma_failure_closes(session: SessionView, event: TransportEventView)
    ensures
        advance_step(session, event).1 is Fail || advance_step(session, event).1 is EndOfStream
            ==> advance_step(session, event).0 == SessionState::Closed,
        initialize_step(session).1 is Fail ==> initialize_step(session).0 == SessionState::Closed,
        await_message_step(session).1 is Fail ==> await_message_step(session).0
            == SessionState::Closed,
{
}

/// A closed session stays closed: it answers every event and every request
/// with `Fail(OutOfTurn)`.
pub proof fn lemma_closed_is_final(session: SessionView, event: TransportEventView)
    requires
        session.state == SessionState::Closed,
    ensures
        advance_step(session, event) == fail_step(ConnectionErrorView::OutOfTurn),
        initialize_step(session) == fail_step(ConnectionErrorView::OutOfTurn),
        await_message_step(session) == fail_step(ConnectionErrorView::OutOfTurn),
{
}

/// The handshake has no way back and no short cut: a step leaves the state
/// as it is, moves to the next state in the order unopened, awaiting the
/// login prompt, awaiting the password prompt, awaiting the confirmation,
/// ready, or closes the session.
pub proof fn lemma_steps_go_forward(session: SessionView, event: TransportEventView)
    ensures
        ({
            let next = advance_step(session, event).0;
            ||| next == session.state
            ||| next == SessionState::Closed
            ||| session.state == SessionState::Unopened && next
                == SessionState::AwaitingLoginPrompt
            ||| session.state == SessionState::AwaitingLoginPrompt && next
                == SessionState::AwaitingPasswordPrompt
            ||| session.state == SessionState::AwaitingPasswordPrompt && next
                == SessionState::AwaitingLoginConfirmation
            ||| session.state == SessionState::AwaitingLoginConfirmation && next
                == SessionState::Ready
        }),
{
}

/// The orderly end of the stream. When a read yields no bytes and nothing is
/// buffered, a ready session reports the end of the stream, which is no
/// error, and closes.
pub proof fn lemma_clean_close(session: SessionView, buffered: Seq<u8>)
    requires
        session.state == SessionState::Ready,
        buffered.len() == 0,
    ensures
        frame_of_read(buffered, 0) == Ok::<Option<Message>, ConnectionErrorView>(None),
        advance_step(
            session,
            TransportEventView::ReadCompleted { buffered, num_bytes_read: 0 },
        ) == (SessionState::Closed, ActionView::EndOfStream),
{
}

/// A truncated message. When a read yields no bytes while something is
/// buffered, the frame is a framing error, and every session that awaits a
/// read closes with it.
pub proof fn lemma_truncated_message(session: SessionView, buffered: Seq<u8>)
    requires
        buffered.len() > 0,
    ensures
        frame_of_read(buffered, 0) == Err::<Option<Message>, ConnectionErrorView>(
            ConnectionErrorView::Framing,
        ),
        session.state != SessionState::Unopened && session.state != SessionState::Closed
            ==> advance_step(
            session,
            TransportEventView::ReadCompleted { buffered, num_bytes_read: 0 },
        ) == fail_step(ConnectionErrorView::Framing),
{
}

} // verus!
