//! Decision logic of a secure request/response exchange service.
//!
//! Each connection is driven by a session state machine: the caller performs
//! the handshake, reads and writes, and reports what happened as an event; the
//! session answers with the next action. Raw sessions make one exchange over a
//! TLS byte stream; framed sessions exchange WebSocket messages until a
//! termination sentinel, the end of the stream, or an error.

pub mod acceptor;
pub mod laws;
pub mod session;
pub mod text;
pub mod transport;
