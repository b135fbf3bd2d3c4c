//! Lifecycle of a secure transport handle: handshaking, established, closed.
use vstd::prelude::*;
use crate::session::SessionError;

verus! {

#[derive(Clone, Copy, Debug, PartialEq, Eq, Structural)]
pub enum LinkState {
    Handshaking,
    Established,
    Closed,
}

/// Guards the use of one transport: reads and writes are allowed only while
/// it is established.
pub struct Link {
    pub state: LinkState,
}

impl Link {
    pub fn new() -> (r: Link)
        ensures
            r.state == LinkState::Handshaking,
    {
        Link { state: LinkState::Handshaking }
    }

    /// Records the end of the handshake. A failed handshake closes the link.
    pub fn handshake_finished(&mut self, ok: bool) -> (r: Result<(), SessionError>)
        ensures
            old(self).state == LinkState::Handshaking && ok ==> r is Ok && final(self).state
                == LinkState::Established,
            old(self).state == LinkState::Handshaking && !ok ==> r == Err::<(), SessionError>(
                SessionError::Handshake,
            ) && final(self).state == LinkState::Closed,
            old(self).state != LinkState::Handshaking ==> r == Err::<(), SessionError>(
                SessionError::Io,
            ) && final(self).state == old(self).state,
    {
        if self.state != LinkState::Handshaking {
            Err(SessionError::Io)
        } else if ok {
            self.state = LinkState::Established;
            Ok(())
        } else {
            self.state = LinkState::Closed;
            Err(SessionError::Handshake)
        }
    }

    /// Whether a read or write may be issued now; `Io` unless established.
    pub fn check_io(&self) -> (r: Result<(), SessionError>)
        ensures
            r is Ok <==> self.state == LinkState::Established,
            r is Err ==> r == Err::<(), SessionError>(SessionError::Io),
    {
        if self.state == LinkState::Established {
            Ok(())
        } else {
            Err(SessionError::Io)
        }
    }

    /// Releases the transport; no read or write is allowed after this.
    pub fn close(&mut self)
        ensures
            final(self).state == LinkState::Closed,
    {
        self.state = LinkState::Closed;
    }
}

} // verus!
