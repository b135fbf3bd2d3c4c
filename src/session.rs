//! Per-connection session state machines.
//!
//! The caller owns the transport. It reports each handshake, read and write
//! as an [`Event`]; `step` answers with the next [`Action`] and, where a peer
//! message was decoded, the text to show the operator. A raw session makes one
//! request/response exchange over the byte stream and closes; a framed session
//! exchanges messages until the termination sentinel, the end of the stream
//! or an error.
use vstd::prelude::*;
use vstd::utf8::{decode_utf8, valid_utf8};
use crate::text::{bounded, bounded_message, decode_payload, is_sentinel, sentinel_text};

verus! {

/// Why a session failed.
#[derive(Clone, Copy, Debug, PartialEq, Eq, Structural)]
pub enum SessionError {
    /// The TLS handshake did not complete.
    Handshake,
    /// A payload that should be text is not valid UTF-8.
    Decode,
    /// A read or write failed after the handshake, or the transport was used out of turn.
    Io,
}

/// How a session ended.
#[derive(Clone, Copy, Debug, PartialEq, Eq, Structural)]
pub enum Outcome {
    /// The exchange finished, or the peer ended the stream.
    Completed,
    /// The termination sentinel was received (server) or sent (client).
    ClosedBySentinel,
    Failed(SessionError),
}

/// The side of the connection that a session drives.
#[derive(Clone, Copy, Debug, PartialEq, Eq, Structural)]
pub enum Role {
    Server,
    Client,
}

/// Where a session stands.
#[derive(Clone, Copy, Debug, PartialEq, Eq, Structural)]
pub enum Phase {
    /// The TLS handshake is under way.
    Handshaking,
    /// Waiting for the peer's next read or message.
    AwaitingPeer,
    /// Waiting for the operator's next message.
    Composing,
    /// A write is under way; `closing` when it carries the sentinel.
    Delivering { closing: bool },
    Done(Outcome),
}

/// What the caller observed since the last action.
pub enum Event {
    HandshakeDone,
    HandshakeFailed,
    /// Bytes of one read (raw) or the payload of one message (framed).
    Received(Vec<u8>),
    /// The peer closed the message stream.
    StreamEnded,
    ReadFailed,
    /// The operator's next message.
    Input(Vec<u8>),
    Sent,
    SendFailed,
}

/// What the caller is to do next.
pub enum Action {
    /// Read once, into a buffer of `max` bytes.
    Receive { max: usize },
    /// Wait for the next framed message.
    ReceiveMessage,
    /// Ask the operator for the next message.
    FetchInput,
    /// Write these bytes (raw) or send them as one binary message (framed).
    Send(Vec<u8>),
    /// Release the transport; the session has ended so.
    Close(Outcome),
}

/// An action as a mathematical value: bytes as a sequence, sizes as naturals.
pub enum ActionModel {
    Receive { max: nat },
    ReceiveMessage,
    FetchInput,
    Send(Seq<u8>),
    Close(Outcome),
}

impl View for Action {
    type V = ActionModel;

    open spec fn view(&self) -> ActionModel {
        match self {
            Action::Receive { max } => ActionModel::Receive { max: *max as nat },
            Action::ReceiveMessage => ActionModel::ReceiveMessage,
            Action::FetchInput => ActionModel::FetchInput,
            Action::Send(b) => ActionModel::Send(b@),
            Action::Close(o) => ActionModel::Close(*o),
        }
    }
}

/// The answer to one event: the next action and the decoded peer text, if any.
pub struct Step {
    pub action: Action,
    pub shown: Option<String>,
}

/// A step as a mathematical value.
pub struct StepModel {
    pub action: ActionModel,
    pub shown: Option<Seq<char>>,
}

impl View for Step {
    type V = StepModel;

    open spec fn view(&self) -> StepModel {
        StepModel {
            action: self.action@,
            shown: match self.shown {
                Some(s) => Some(s@),
                None => None,
            },
        }
    }
}

/// A step that shows no text.
pub open spec fn plain(action: ActionModel) -> StepModel {
    StepModel { action, shown: None }
}

/// The session has ended with `o`: the transport is to be released.
pub open spec fn closed(o: Outcome) -> (Phase, StepModel) {
    (Phase::Done(o), plain(ActionModel::Close(o)))
}

/// Whether a step writes to the peer.
pub open spec fn is_send(s: StepModel) -> bool {
    s.action is Send
}

/// The bytes of an optional buffer.
pub open spec fn bytes_of(v: Option<Vec<u8>>) -> Option<Seq<u8>> {
    match v {
        Some(b) => Some(b@),
        None => None,
    }
}

// ---------------------------------------------------------------- raw mode

/// A raw session answers with `fixed` where it is set, else with operator input.
pub open spec fn raw_reply(fixed: Option<Seq<u8>>, shown: Option<Seq<char>>) -> (Phase, StepModel) {
    match fixed {
        Some(r) => (Phase::Delivering { closing: false }, StepModel { action: ActionModel::Send(r), shown }),
        None => (Phase::Composing, StepModel { action: ActionModel::FetchInput, shown }),
    }
}

/// One transition of a raw session. The server reads one request, replies and
/// closes; the client sends one request, reads one reply and closes. A read
/// delivers at most `bound` bytes, which must be UTF-8 text.
pub open spec fn raw_next(
    role: Role,
    bound: nat,
    fixed: Option<Seq<u8>>,
    phase: Phase,
    e: Event,
) -> (Phase, StepModel) {
    match phase {
        Phase::Done(o) => closed(o),
        Phase::Handshaking => match e {
            Event::HandshakeDone => match role {
                Role::Server => (Phase::AwaitingPeer, plain(ActionModel::Receive { max: bound })),
                Role::Client => raw_reply(fixed, None),
            },
            Event::HandshakeFailed => closed(Outcome::Failed(SessionError::Handshake)),
            _ => closed(Outcome::Failed(SessionError::Io)),
        },
        Phase::AwaitingPeer => match e {
            Event::Received(b) => {
                let m = bounded(b@, bound);
                if !valid_utf8(m) {
                    closed(Outcome::Failed(SessionError::Decode))
                } else {
                    match role {
                        Role::Server => raw_reply(fixed, Some(decode_utf8(m))),
                        Role::Client => (
                            Phase::Done(Outcome::Completed),
                            StepModel {
                                action: ActionModel::Close(Outcome::Completed),
                                shown: Some(decode_utf8(m)),
                            },
                        ),
                    }
                }
            },
            _ => closed(Outcome::Failed(SessionError::Io)),
        },
        Phase::Composing => match e {
            Event::Input(b) => (Phase::Delivering { closing: false }, plain(ActionModel::Send(b@))),
            _ => closed(Outcome::Failed(SessionError::Io)),
        },
        Phase::Delivering { .. } => match e {
            Event::Sent => match role {
                Role::Server => closed(Outcome::Completed),
                Role::Client => (Phase::AwaitingPeer, plain(ActionModel::Receive { max: bound })),
            },
            _ => closed(Outcome::Failed(SessionError::Io)),
        },
    }
}

/// A raw session after a sequence of events, with the step taken on each.
pub open spec fn raw_run(
    role: Role,
    bound: nat,
    fixed: Option<Seq<u8>>,
    phase: Phase,
    events: Seq<Event>,
) -> (Phase, Seq<StepModel>)
    decreases events.len(),
{
    if events.len() == 0 {
        (phase, seq![])
    } else {
        let (p, s) = raw_next(role, bound, fixed, phase, events[0]);
        let (q, rest) = raw_run(role, bound, fixed, p, events.drop_first());
        (q, seq![s] + rest)
    }
}

/// One request/response exchange over a TLS byte stream.
pub struct RawSession {
    pub role: Role,
    /// Size of the read buffer: the most bytes that one message can hold.
    pub bound: usize,
    /// The reply (server) or request (client) sent without asking the operator.
    pub fixed: Option<Vec<u8>>,
    pub phase: Phase,
}

impl RawSession {
    pub fn new(role: Role, bound: usize, fixed: Option<Vec<u8>>) -> (r: RawSession)
        ensures
            r.role == role,
            r.bound == bound,
            bytes_of(r.fixed) == bytes_of(fixed),
            r.phase == Phase::Handshaking,
    {
        RawSession { role, bound, fixed, phase: Phase::Handshaking }
    }

    fn reply(&self, shown: Option<String>) -> (r: (Phase, Step))
        ensures
            (r.0, r.1@) == raw_reply(bytes_of(self.fixed), match shown {
                Some(s) => Some(s@),
                None => None,
            }),
    {
        match &self.fixed {
            Some(f) => {
                let b: Vec<u8> = f.clone();
                assert(b@ =~= f@);
                (Phase::Delivering { closing: false }, Step { action: Action::Send(b), shown })
            },
            None => (Phase::Composing, Step { action: Action::FetchInput, shown }),
        }
    }

    /// Takes one event and returns the next action.
    pub fn step(&mut self, e: Event) -> (r: Step)
        ensures
            final(self).role == old(self).role,
            final(self).bound == old(self).bound,
            bytes_of(final(self).fixed) == bytes_of(old(self).fixed),
            (final(self).phase, r@) == raw_next(
                old(self).role,
                old(self).bound as nat,
                bytes_of(old(self).fixed),
                old(self).phase,
                e,
            ),
    {
        let io = Outcome::Failed(SessionError::Io);
        let (phase, step): (Phase, Step) = match self.phase {
            Phase::Done(o) => (Phase::Done(o), Step { action: Action::Close(o), shown: None }),
            Phase::Handshaking => match e {
                Event::HandshakeDone => match self.role {
                    Role::Server => (
                        Phase::AwaitingPeer,
                        Step { action: Action::Receive { max: self.bound }, shown: None },
                    ),
                    Role::Client => self.reply(None),
                },
                Event::HandshakeFailed => {
                    let o = Outcome::Failed(SessionError::Handshake);
                    (Phase::Done(o), Step { action: Action::Close(o), shown: None })
                },
                _ => (Phase::Done(io), Step { action: Action::Close(io), shown: None }),
            },
            Phase::AwaitingPeer => match e {
                Event::Received(b) => {
                    let m = bounded_message(&b, self.bound);
                    match decode_payload(m) {
                        None => {
                            let o = Outcome::Failed(SessionError::Decode);
                            (Phase::Done(o), Step { action: Action::Close(o), shown: None })
                        },
                        Some(t) => match self.role {
                            Role::Server => self.reply(Some(t)),
                            Role::Client => (
                                Phase::Done(Outcome::Completed),
                                Step { action: Action::Close(Outcome::Completed), shown: Some(t) },
                            ),
                        },
                    }
                },
                _ => (Phase::Done(io), Step { action: Action::Close(io), shown: None }),
            },
            Phase::Composing => match e {
                Event::Input(b) => (
                    Phase::Delivering { closing: false },
                    Step { action: Action::Send(b), shown: None },
                ),
                _ => (Phase::Done(io), Step { action: Action::Close(io), shown: None }),
            },
            Phase::Delivering { .. } => match e {
                Event::Sent => match self.role {
                    Role::Server => (
                        Phase::Done(Outcome::Completed),
                        Step { action: Action::Close(Outcome::Completed), shown: None },
                    ),
                    Role::Client => (
                        Phase::AwaitingPeer,
                        Step { action: Action::Receive { max: self.bound }, shown: None },
                    ),
                },
                _ => (Phase::Done(io), Step { action: Action::Close(io), shown: None }),
            },
        };
        self.phase = phase;
        step
    }
}

// ------------------------------------------------------------- framed mode

/// One transition of a framed session. Every payload must be UTF-8 text. The
/// server closes without replying on the sentinel; the client closes once it
/// has sent the sentinel. Either side ends normally when the stream ends.
pub open spec fn framed_next(role: Role, phase: Phase, e: Event) -> (Phase, StepModel) {
    match phase {
        Phase::Done(o) => closed(o),
        Phase::Handshaking => match e {
            Event::HandshakeDone => match role {
                Role::Server => (Phase::AwaitingPeer, plain(ActionModel::ReceiveMessage)),
                Role::Client => (Phase::Composing, plain(ActionModel::FetchInput)),
            },
            Event::HandshakeFailed => closed(Outcome::Failed(SessionError::Handshake)),
            _ => closed(Outcome::Failed(SessionError::Io)),
        },
        Phase::AwaitingPeer => match e {
            Event::Received(b) => {
                if !valid_utf8(b@) {
                    closed(Outcome::Failed(SessionError::Decode))
                } else if role == Role::Server && decode_utf8(b@) == sentinel_text() {
                    closed(Outcome::ClosedBySentinel)
                } else {
                    (
                        Phase::Composing,
                        StepModel { action: ActionModel::FetchInput, shown: Some(decode_utf8(b@)) },
                    )
                }
            },
            Event::StreamEnded => closed(Outcome::Completed),
            _ => closed(Outcome::Failed(SessionError::Io)),
        },
        Phase::Composing => match e {
            Event::Input(b) => {
                if !valid_utf8(b@) {
                    closed(Outcome::Failed(SessionError::Decode))
                } else {
                    let closing = role == Role::Client && decode_utf8(b@) == sentinel_text();
                    (Phase::Delivering { closing }, plain(ActionModel::Send(b@)))
                }
            },
            _ => closed(Outcome::Failed(SessionError::Io)),
        },
        Phase::Delivering { closing } => match e {
            Event::Sent => if closing {
                closed(Outcome::ClosedBySentinel)
            } else {
                (Phase::AwaitingPeer, plain(ActionModel::ReceiveMessage))
            },
            _ => closed(Outcome::Failed(SessionError::Io)),
        },
    }
}

/// A framed session after a sequence of events, with the step taken on each.
pub open spec fn framed_run(role: Role, phase: Phase, events: Seq<Event>) -> (Phase, Seq<StepModel>)
    decreases events.len(),
{
    if events.len() == 0 {
        (phase, seq![])
    } else {
        let (p, s) = framed_next(role, phase, events[0]);
        let (q, rest) = framed_run(role, p, events.drop_first());
        (q, seq![s] + rest)
    }
}

/// A message exchange over WebSocket framing on a TLS stream.
pub struct FramedSession {
    pub role: Role,
    pub phase: Phase,
}

impl FramedSession {
    pub fn new(role: Role) -> (r: FramedSession)
        ensures
            r.role == role,
            r.phase == Phase::Handshaking,
    {
        FramedSession { role, phase: Phase::Handshaking }
    }

    /// Takes one event and returns the next action.
    pub fn step(&mut self, e: Event) -> (r: Step)
        ensures
            final(self).role == old(self).role,
            (final(self).phase, r@) == framed_next(old(self).role, old(self).phase, e),
    {
        let io = Outcome::Failed(SessionError::Io);
        let decode = Outcome::Failed(SessionError::Decode);
        let (phase, step): (Phase, Step) = match self.phase {
            Phase::Done(o) => (Phase::Done(o), Step { action: Action::Close(o), shown: None }),
            Phase::Handshaking => match e {
                Event::HandshakeDone => match self.role {
                    Role::Server => (
                        Phase::AwaitingPeer,
                        Step { action: Action::ReceiveMessage, shown: None },
                    ),
                    Role::Client => (Phase::Composing, Step { action: Action::FetchInput, shown: None }),
                },
                Event::HandshakeFailed => {
                    let o = Outcome::Failed(SessionError::Handshake);
                    (Phase::Done(o), Step { action: Action::Close(o), shown: None })
                },
                _ => (Phase::Done(io), Step { action: Action::Close(io), shown: None }),
            },
            Phase::AwaitingPeer => match e {
                Event::Received(b) => match decode_payload(b) {
                    None => (Phase::Done(decode), Step { action: Action::Close(decode), shown: None }),
                    Some(t) => {
                        if self.role == Role::Server && is_sentinel(&t) {
                            let o = Outcome::ClosedBySentinel;
                            (Phase::Done(o), Step { action: Action::Close(o), shown: None })
                        } else {
                            (Phase::Composing, Step { action: Action::FetchInput, shown: Some(t) })
                        }
                    },
                },
                Event::StreamEnded => {
                    let o = Outcome::Completed;
                    (Phase::Done(o), Step { action: Action::Close(o), shown: None })
                },
                _ => (Phase::Done(io), Step { action: Action::Close(io), shown: None }),
            },
            Phase::Composing => match e {
                Event::Input(b) => {
                    let ghost payload = b@;
                    let copy: Vec<u8> = b.clone();
                    assert(copy@ =~= payload);
                    match decode_payload(copy) {
                        None => (Phase::Done(decode), Step { action: Action::Close(decode), shown: None }),
                        Some(t) => {
                            let closing = self.role == Role::Client && is_sentinel(&t);
                            (Phase::Delivering { closing }, Step { action: Action::Send(b), shown: None })
                        },
                    }
                },
                _ => (Phase::Done(io), Step { action: Action::Close(io), shown: None }),
            },
            Phase::Delivering { closing } => match e {
                Event::Sent => if closing {
                    let o = Outcome::ClosedBySentinel;
                    (Phase::Done(o), Step { action: Action::Close(o), shown: None })
                } else {
                    (Phase::AwaitingPeer, Step { action: Action::ReceiveMessage, shown: None })
                },
                _ => (Phase::Done(io), Step { action: Action::Close(io), shown: None }),
            },
        };
        self.phase = phase;
        step
    }
}

} // verus!
