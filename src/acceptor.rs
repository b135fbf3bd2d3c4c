//! Decisions of the connection acceptor: one session per accepted
//! connection, stop only when accepting itself fails.
use vstd::prelude::*;
use crate::session::Outcome;

verus! {

/// What the accept loop observed.
pub enum AcceptEvent {
    /// A new inbound connection.
    Accepted,
    /// The listening socket failed.
    AcceptFailed,
    /// A spawned session ended, however it ended.
    SessionEnded(Outcome),
}

#[derive(Clone, Copy, Debug, PartialEq, Eq, Structural)]
pub enum AcceptAction {
    /// Start an independent session on the new connection.
    SpawnSession,
    /// Keep accepting.
    Continue,
    /// Stop accepting.
    Stop,
}

/// One transition of the acceptor, from whether it is listening.
pub open spec fn acceptor_next(listening: bool, e: AcceptEvent) -> (bool, AcceptAction) {
    if !listening {
        (false, AcceptAction::Stop)
    } else {
        match e {
            AcceptEvent::Accepted => (true, AcceptAction::SpawnSession),
            AcceptEvent::AcceptFailed => (false, AcceptAction::Stop),
            AcceptEvent::SessionEnded(_) => (true, AcceptAction::Continue),
        }
    }
}

/// The acceptor after a sequence of events, with the action taken on each.
pub open spec fn acceptor_run(listening: bool, events: Seq<AcceptEvent>) -> (bool, Seq<AcceptAction>)
    decreases events.len(),
{
    if events.len() == 0 {
        (listening, seq![])
    } else {
        let (l, a) = acceptor_next(listening, events[0]);
        let (m, rest) = acceptor_run(l, events.drop_first());
        (m, seq![a] + rest)
    }
}

pub struct Acceptor {
    pub listening: bool,
}

impl Acceptor {
    pub fn new() -> (r: Acceptor)
        ensures
            r.listening,
    {
        Acceptor { listening: true }
    }

    /// Takes one event of the accept loop and returns what to do.
    pub fn step(&mut self, e: AcceptEvent) -> (r: AcceptAction)
        ensures
            (final(self).listening, r) == acceptor_next(old(self).listening, e),
    {
        if !self.listening {
            return AcceptAction::Stop;
        }
        match e {
            AcceptEvent::Accepted => AcceptAction::SpawnSession,
            AcceptEvent::AcceptFailed => {
                self.listening = false;
                AcceptAction::Stop
            },
            AcceptEvent::SessionEnded(_) => AcceptAction::Continue,
        }
    }
}

} // verus!
