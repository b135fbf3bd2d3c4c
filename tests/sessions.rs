use secure_exchange::acceptor::{AcceptAction, AcceptEvent, Acceptor};
use secure_exchange::session::{
    Action, Event, FramedSession, Outcome, Phase, RawSession, Role, SessionError, Step,
};
use secure_exchange::text::{GREETING_SERVER_BUFFER, INTERACTIVE_BUFFER, TERMINATE_CONN_COMMAND};
use secure_exchange::transport::{Link, LinkState};

fn sent(step: &Step) -> Vec<u8> {
    match &step.action {
        Action::Send(b) => b.clone(),
        _ => panic!("expected a write"),
    }
}

fn closed_with(step: &Step) -> Outcome {
    match &step.action {
        Action::Close(o) => *o,
        _ => panic!("expected the session to close"),
    }
}

#[test]
fn raw_exchange_greeting() {
    let mut client = RawSession::new(Role::Client, 1000, Some(b"hello from the client".to_vec()));
    let mut server = RawSession::new(
        Role::Server,
        GREETING_SERVER_BUFFER,
        Some(b"Hello from the server".to_vec()),
    );
    let request = sent(&client.step(Event::HandshakeDone));
    assert_eq!(request, b"hello from the client".to_vec());
    let s = server.step(Event::HandshakeDone);
    assert!(matches!(s.action, Action::Receive { max: 100 }));
    let s = server.step(Event::Received(request));
    assert_eq!(s.shown, Some("hello from the client".to_string()));
    let reply = sent(&s);
    assert_eq!(closed_with(&server.step(Event::Sent)), Outcome::Completed);
    let c = client.step(Event::Sent);
    assert!(matches!(c.action, Action::Receive { max: 1000 }));
    let c = client.step(Event::Received(reply));
    assert_eq!(c.shown, Some("Hello from the server".to_string()));
    assert_eq!(closed_with(&c), Outcome::Completed);
    assert_eq!(client.phase, Phase::Done(Outcome::Completed));
}

#[test]
fn write_after_close_fails_with_io() {
    let mut link = Link::new();
    assert_eq!(link.check_io(), Err(SessionError::Io));
    assert_eq!(link.handshake_finished(true), Ok(()));
    assert_eq!(link.check_io(), Ok(()));
    link.close();
    assert_eq!(link.state, LinkState::Closed);
    assert_eq!(link.check_io(), Err(SessionError::Io));
    assert_eq!(link.handshake_finished(true), Err(SessionError::Io));
}

#[test]
fn failed_link_handshake_closes() {
    let mut link = Link::new();
    assert_eq!(link.handshake_finished(false), Err(SessionError::Handshake));
    assert_eq!(link.state, LinkState::Closed);
    assert_eq!(link.check_io(), Err(SessionError::Io));
}

#[test]
fn raw_closed_session_never_writes_again() {
    let mut server = RawSession::new(Role::Server, 100, Some(b"Hello from the server".to_vec()));
    server.step(Event::HandshakeDone);
    server.step(Event::Received(b"hi".to_vec()));
    server.step(Event::Sent);
    let again = server.step(Event::Input(b"more".to_vec()));
    assert_eq!(closed_with(&again), Outcome::Completed);
}

#[test]
fn raw_message_at_bound_is_intact() {
    let mut server = RawSession::new(Role::Server, 100, Some(b"ok".to_vec()));
    server.step(Event::HandshakeDone);
    let msg = vec![b'a'; 100];
    let s = server.step(Event::Received(msg));
    assert_eq!(s.shown, Some("a".repeat(100)));
}

#[test]
fn raw_message_over_bound_is_truncated() {
    let mut server = RawSession::new(Role::Server, 100, Some(b"ok".to_vec()));
    server.step(Event::HandshakeDone);
    let mut msg = vec![b'a'; 100];
    msg.extend_from_slice(b"bcd");
    let s = server.step(Event::Received(msg));
    assert_eq!(s.shown, Some("a".repeat(100)));
}

#[test]
fn raw_interactive_server_asks_operator() {
    let mut server = RawSession::new(Role::Server, INTERACTIVE_BUFFER, None);
    let s = server.step(Event::HandshakeDone);
    assert!(matches!(s.action, Action::Receive { max: 3000 }));
    let s = server.step(Event::Received(b"question".to_vec()));
    assert!(matches!(s.action, Action::FetchInput));
    assert_eq!(s.shown, Some("question".to_string()));
    let s = server.step(Event::Input(b"answer".to_vec()));
    assert_eq!(sent(&s), b"answer".to_vec());
    assert_eq!(closed_with(&server.step(Event::Sent)), Outcome::Completed);
}

#[test]
fn raw_invalid_utf8_fails_without_reply() {
    let mut server = RawSession::new(Role::Server, 100, Some(b"Hello from the server".to_vec()));
    server.step(Event::HandshakeDone);
    let s = server.step(Event::Received(vec![0x66, 0xff, 0x67]));
    assert_eq!(closed_with(&s), Outcome::Failed(SessionError::Decode));
    assert_eq!(s.shown, None);
    assert_eq!(server.phase, Phase::Done(Outcome::Failed(SessionError::Decode)));
}

#[test]
fn raw_read_failure_is_io() {
    let mut client = RawSession::new(Role::Client, 1000, None);
    assert!(matches!(client.step(Event::HandshakeDone).action, Action::FetchInput));
    client.step(Event::Input(b"x".to_vec()));
    client.step(Event::Sent);
    let s = client.step(Event::ReadFailed);
    assert_eq!(closed_with(&s), Outcome::Failed(SessionError::Io));
}

#[test]
fn raw_write_failure_is_io() {
    let mut server = RawSession::new(Role::Server, 100, Some(b"r".to_vec()));
    server.step(Event::HandshakeDone);
    server.step(Event::Received(b"q".to_vec()));
    let s = server.step(Event::SendFailed);
    assert_eq!(closed_with(&s), Outcome::Failed(SessionError::Io));
}

#[test]
fn handshake_failure_never_reaches_exchange() {
    for role in [Role::Server, Role::Client] {
        let mut raw = RawSession::new(role, 100, Some(b"x".to_vec()));
        let s = raw.step(Event::HandshakeFailed);
        assert_eq!(closed_with(&s), Outcome::Failed(SessionError::Handshake));
        let s = raw.step(Event::Received(b"late".to_vec()));
        assert_eq!(closed_with(&s), Outcome::Failed(SessionError::Handshake));
        let mut framed = FramedSession::new(role);
        let s = framed.step(Event::HandshakeFailed);
        assert_eq!(closed_with(&s), Outcome::Failed(SessionError::Handshake));
        let s = framed.step(Event::Input(b"late".to_vec()));
        assert_eq!(closed_with(&s), Outcome::Failed(SessionError::Handshake));
    }
}

#[test]
fn framed_sentinel_closes_without_reply() {
    let mut server = FramedSession::new(Role::Server);
    assert!(matches!(server.step(Event::HandshakeDone).action, Action::ReceiveMessage));
    let s = server.step(Event::Received(TERMINATE_CONN_COMMAND.as_bytes().to_vec()));
    assert_eq!(closed_with(&s), Outcome::ClosedBySentinel);
    assert_eq!(s.shown, None);
    let s = server.step(Event::StreamEnded);
    assert_eq!(closed_with(&s), Outcome::ClosedBySentinel);
    assert_eq!(server.phase, Phase::Done(Outcome::ClosedBySentinel));
}

#[test]
fn framed_server_echo_loop() {
    let mut server = FramedSession::new(Role::Server);
    server.step(Event::HandshakeDone);
    let s = server.step(Event::Received(b"first".to_vec()));
    assert_eq!(s.shown, Some("first".to_string()));
    assert!(matches!(s.action, Action::FetchInput));
    let s = server.step(Event::Input(b"reply one".to_vec()));
    assert_eq!(sent(&s), b"reply one".to_vec());
    assert!(matches!(server.step(Event::Sent).action, Action::ReceiveMessage));
    let s = server.step(Event::Received(b"TERMINATE_CONNX".to_vec()));
    assert_eq!(s.shown, Some("TERMINATE_CONNX".to_string()));
    server.step(Event::Input(b"reply two".to_vec()));
    server.step(Event::Sent);
    let s = server.step(Event::StreamEnded);
    assert_eq!(closed_with(&s), Outcome::Completed);
}

#[test]
fn framed_invalid_utf8_fails_without_reply() {
    let mut server = FramedSession::new(Role::Server);
    server.step(Event::HandshakeDone);
    let s = server.step(Event::Received(vec![0xc3, 0x28]));
    assert_eq!(closed_with(&s), Outcome::Failed(SessionError::Decode));
}

#[test]
fn framed_invalid_operator_reply_fails() {
    let mut server = FramedSession::new(Role::Server);
    server.step(Event::HandshakeDone);
    server.step(Event::Received(b"hi".to_vec()));
    let s = server.step(Event::Input(vec![0xe2, 0x82]));
    assert_eq!(closed_with(&s), Outcome::Failed(SessionError::Decode));
}

#[test]
fn framed_client_sends_sentinel_then_closes() {
    let mut client = FramedSession::new(Role::Client);
    assert!(matches!(client.step(Event::HandshakeDone).action, Action::FetchInput));
    let s = client.step(Event::Input(b"hello".to_vec()));
    assert_eq!(sent(&s), b"hello".to_vec());
    assert!(matches!(client.step(Event::Sent).action, Action::ReceiveMessage));
    let s = client.step(Event::Received("héllo".as_bytes().to_vec()));
    assert_eq!(s.shown, Some("héllo".to_string()));
    let s = client.step(Event::Input(b"TERMINATE_CONN".to_vec()));
    assert_eq!(sent(&s), b"TERMINATE_CONN".to_vec());
    assert_eq!(client.phase, Phase::Delivering { closing: true });
    assert_eq!(closed_with(&client.step(Event::Sent)), Outcome::ClosedBySentinel);
}

#[test]
fn framed_send_failure_is_io() {
    let mut client = FramedSession::new(Role::Client);
    client.step(Event::HandshakeDone);
    client.step(Event::Input(b"hello".to_vec()));
    let s = client.step(Event::SendFailed);
    assert_eq!(closed_with(&s), Outcome::Failed(SessionError::Io));
}

#[test]
fn isolation_of_concurrent_sessions() {
    let good = |s: &mut RawSession| {
        s.step(Event::HandshakeDone);
        s.step(Event::Received(b"hello from the client".to_vec()));
        s.step(Event::Sent);
    };
    let mut acceptor = Acceptor::new();
    let mut sessions = Vec::new();
    for _ in 0..4 {
        assert_eq!(acceptor.step(AcceptEvent::Accepted), AcceptAction::SpawnSession);
        sessions.push(RawSession::new(Role::Server, 100, Some(b"Hello from the server".to_vec())));
    }
    sessions[1].step(Event::HandshakeFailed);
    sessions[2].step(Event::HandshakeDone);
    sessions[2].step(Event::Received(vec![0xff]));
    good(&mut sessions[0]);
    good(&mut sessions[3]);
    for s in &sessions {
        let o = match s.phase {
            Phase::Done(o) => o,
            _ => panic!("session still open"),
        };
        assert_eq!(acceptor.step(AcceptEvent::SessionEnded(o)), AcceptAction::Continue);
    }
    assert_eq!(sessions[0].phase, Phase::Done(Outcome::Completed));
    assert_eq!(sessions[1].phase, Phase::Done(Outcome::Failed(SessionError::Handshake)));
    assert_eq!(sessions[2].phase, Phase::Done(Outcome::Failed(SessionError::Decode)));
    assert_eq!(sessions[3].phase, Phase::Done(Outcome::Completed));
    assert!(acceptor.listening);
    assert_eq!(acceptor.step(AcceptEvent::Accepted), AcceptAction::SpawnSession);
}

#[test]
fn acceptor_stops_on_accept_failure() {
    let mut acceptor = Acceptor::new();
    assert_eq!(acceptor.step(AcceptEvent::AcceptFailed), AcceptAction::Stop);
    assert!(!acceptor.listening);
    assert_eq!(acceptor.step(AcceptEvent::Accepted), AcceptAction::Stop);
}
