//! Properties of the session and acceptor state machines over whole runs.
use vstd::prelude::*;
use vstd::utf8::{decode_utf8, valid_utf8};
use crate::acceptor::{AcceptAction, AcceptEvent, acceptor_run};
use crate::session::{
    ActionModel, Event, Outcome, Phase, Role, SessionError, StepModel, framed_next,
    framed_run, is_send, plain, raw_next, raw_run,
};
use crate::text::{bounded, sentinel_text};

verus! {

/// Every step of `steps` releases the transport with outcome `o`.
pub open spec fn only_closes(steps: Seq<StepModel>, o: Outcome) -> bool {
    forall|i: int| 0 <= i < steps.len() ==> steps[i] == plain(ActionModel::Close(o))
}

/// No step of `steps` writes to the peer.
pub open spec fn never_sends(steps: Seq<StepModel>) -> bool {
    forall|i: int| 0 <= i < steps.len() ==> !is_send(#[trigger] steps[i])
}

/// The outcome of each connection's raw server session, one per event trace.
pub open spec fn raw_outcomes(bound: nat, fixed: Option<Seq<u8>>, traces: Seq<Seq<Event>>) -> Seq<Phase> {
    traces.map_values(|t: Seq<Event>| raw_run(Role::Server, bound, fixed, Phase::Handshaking, t).0)
}

/// The outcome of each connection's framed server session, one per event trace.
pub open spec fn framed_outcomes(traces: Seq<Seq<Event>>) -> Seq<Phase> {
    traces.map_values(|t: Seq<Event>| framed_run(Role::Server, Phase::Handshaking, t).0)
}

proof fn lemma_raw_run_first(
    role: Role,
    bound: nat,
    fixed: Option<Seq<u8>>,
    phase: Phase,
    e: Event,
    rest: Seq<Event>,
)
    ensures
        ({
            let (p, s) = raw_next(role, bound, fixed, phase, e);
            let (q, steps) = raw_run(role, bound, fixed, p, rest);
            raw_run(role, bound, fixed, phase, seq![e] + rest) == (q, seq![s] + steps)
        }),
{
    assert((seq![e] + rest).drop_first() =~= rest);
    assert((seq![e] + rest)[0] == e);
}

proof fn lemma_framed_run_first(role: Role, phase: Phase, e: Event, rest: Seq<Event>)
    ensures
        ({
            let (p, s) = framed_next(role, phase, e);
            let (q, steps) = framed_run(role, p, rest);
            framed_run(role, phase, seq![e] + rest) == (q, seq![s] + steps)
        }),
{
    assert((seq![e] + rest).drop_first() =~= rest);
    assert((seq![e] + rest)[0] == e);
}

/// A raw session that has ended stays ended with the same outcome, whatever
/// else happens, and only asks for the transport to be released.
pub proof fn lemma_raw_done_is_final(
    role: Role,
    bound: nat,
    fixed: Option<Seq<u8>>,
    o: Outcome,
    events: Seq<Event>,
)
    ensures
        raw_run(role, bound, fixed, Phase::Done(o), events).0 == Phase::Done(o),
        raw_run(role, bound, fixed, Phase::Done(o), events).1.len() == events.len(),
        only_closes(raw_run(role, bound, fixed, Phase::Done(o), events).1, o),
    decreases events.len(),
{
    if events.len() > 0 {
        lemma_raw_done_is_final(role, bound, fixed, o, events.drop_first());
        let steps = raw_run(role, bound, fixed, Phase::Done(o), events).1;
        let rest = raw_run(role, bound, fixed, Phase::Done(o), events.drop_first()).1;
        assert forall|i: int| 0 <= i < steps.len() implies steps[i] == plain(
            ActionModel::Close(o),
        ) by {
            if i > 0 {
                assert(steps[i] == rest[i - 1]);
            }
        }
    }
}

/// A framed session that has ended stays ended with the same outcome,
/// whatever else happens, and only asks for the transport to be released.
pub proof fn lemma_framed_done_is_final(role: Role, o: Outcome, events: Seq<Event>)
    ensures
        framed_run(role, Phase::Done(o), events).0 == Phase::Done(o),
        framed_run(role, Phase::Done(o), events).1.len() == events.len(),
        only_closes(framed_run(role, Phase::Done(o), events).1, o),
    decreases events.len(),
{
    if events.len() > 0 {
        lemma_framed_done_is_final(role, o, events.drop_first());
        let steps = framed_run(role, Phase::Done(o), events).1;
        let rest = framed_run(role, Phase::Done(o), events.drop_first()).1;
        assert forall|i: int| 0 <= i < steps.len() implies steps[i] == plain(
            ActionModel::Close(o),
        ) by {
            if i > 0 {
                assert(steps[i] == rest[i - 1]);
            }
        }
    }
}

proof fn lemma_closes_never_send(steps: Seq<StepModel>, o: Outcome)
    requires
        only_closes(steps, o),
    ensures
        never_sends(steps),
{
    assert forall|i: int| 0 <= i < steps.len() implies !is_send(#[trigger] steps[i]) by {
        assert(steps[i] == plain(ActionModel::Close(o)));
    }
}

/// A failed handshake ends the session with `Handshake`: whatever follows, it
/// never reads, asks for input or writes, in either mode.
pub proof fn lemma_handshake_failure_never_exchanges(
    role: Role,
    bound: nat,
    fixed: Option<Seq<u8>>,
    events: Seq<Event>,
)
    ensures
        ({
            let o = Outcome::Failed(SessionError::Handshake);
            let raw = raw_run(role, bound, fixed, Phase::Handshaking, seq![Event::HandshakeFailed] + events);
            let framed = framed_run(role, Phase::Handshaking, seq![Event::HandshakeFailed] + events);
            &&& raw.0 == Phase::Done(o)
            &&& only_closes(raw.1, o)
            &&& framed.0 == Phase::Done(o)
            &&& only_closes(framed.1, o)
        }),
{
    let o = Outcome::Failed(SessionError::Handshake);
    lemma_raw_run_first(role, bound, fixed, Phase::Handshaking, Event::HandshakeFailed, events);
    lemma_raw_done_is_final(role, bound, fixed, o, events);
    lemma_framed_run_first(role, Phase::Handshaking, Event::HandshakeFailed, events);
    lemma_framed_done_is_final(role, o, events);
    let raw = raw_run(role, bound, fixed, Phase::Handshaking, seq![Event::HandshakeFailed] + events);
    let framed = framed_run(role, Phase::Handshaking, seq![Event::HandshakeFailed] + events);
    let raw_rest = raw_run(role, bound, fixed, Phase::Done(o), events).1;
    let framed_rest = framed_run(role, Phase::Done(o), events).1;
    assert forall|i: int| 0 <= i < raw.1.len() implies raw.1[i] == plain(ActionModel::Close(o)) by {
        if i > 0 {
            assert(raw.1[i] == raw_rest[i - 1]);
        }
    }
    assert forall|i: int| 0 <= i < framed.1.len() implies framed.1[i] == plain(
        ActionModel::Close(o),
    ) by {
        if i > 0 {
            assert(framed.1[i] == framed_rest[i - 1]);
        }
    }
}

/// A peer message that is not UTF-8 text ends the session with `Decode`, and
/// nothing is written to the peer then or afterwards. In raw mode the text is
/// what one read of `bound` bytes delivers.
pub proof fn lemma_invalid_payload_no_reply(
    role: Role,
    bound: nat,
    fixed: Option<Seq<u8>>,
    payload: Vec<u8>,
    events: Seq<Event>,
)
    ensures
        !valid_utf8(bounded(payload@, bound)) ==> {
            let raw = raw_run(role, bound, fixed, Phase::AwaitingPeer, seq![Event::Received(payload)] + events);
            raw.0 == Phase::Done(Outcome::Failed(SessionError::Decode)) && never_sends(raw.1)
        },
        !valid_utf8(payload@) ==> {
            let framed = framed_run(role, Phase::AwaitingPeer, seq![Event::Received(payload)] + events);
            framed.0 == Phase::Done(Outcome::Failed(SessionError::Decode)) && never_sends(framed.1)
        },
{
    let o = Outcome::Failed(SessionError::Decode);
    let e = Event::Received(payload);
    lemma_raw_run_first(role, bound, fixed, Phase::AwaitingPeer, e, events);
    lemma_framed_run_first(role, Phase::AwaitingPeer, e, events);
    lemma_raw_done_is_final(role, bound, fixed, o, events);
    lemma_framed_done_is_final(role, o, events);
    lemma_closes_never_send(seq![plain(ActionModel::Close(o))] + raw_run(role, bound, fixed, Phase::Done(o), events).1, o);
    lemma_closes_never_send(seq![plain(ActionModel::Close(o))] + framed_run(role, Phase::Done(o), events).1, o);
}

/// The sentinel received by a framed server closes the session without any
/// reply; whatever follows (the peer closing the stream, say) changes neither
/// the outcome nor the absence of a reply.
pub proof fn lemma_sentinel_closes_without_reply(payload: Vec<u8>, events: Seq<Event>)
    requires
        valid_utf8(payload@),
        decode_utf8(payload@) == sentinel_text(),
    ensures
        ({
            let run = framed_run(Role::Server, Phase::AwaitingPeer, seq![Event::Received(payload)] + events);
            run.0 == Phase::Done(Outcome::ClosedBySentinel) && never_sends(run.1)
        }),
{
    let o = Outcome::ClosedBySentinel;
    lemma_framed_run_first(Role::Server, Phase::AwaitingPeer, Event::Received(payload), events);
    lemma_framed_done_is_final(Role::Server, o, events);
    lemma_closes_never_send(seq![plain(ActionModel::Close(o))] + framed_run(Role::Server, Phase::Done(o), events).1, o);
}

/// One raw read delivers a request of exactly `bound` bytes intact, and a
/// longer one cut to exactly its first `bound` bytes.
pub proof fn lemma_raw_read_boundary(bound: nat, fixed: Option<Seq<u8>>, payload: Vec<u8>)
    ensures
        payload@.len() <= bound ==> bounded(payload@, bound) == payload@,
        payload@.len() > bound ==> bounded(payload@, bound) == payload@.take(bound as int)
            && bounded(payload@, bound).len() == bound,
        valid_utf8(bounded(payload@, bound)) ==> raw_next(
            Role::Server,
            bound,
            fixed,
            Phase::AwaitingPeer,
            Event::Received(payload),
        ).1.shown == Some(decode_utf8(bounded(payload@, bound))),
{
}

/// Isolation: what happens on one connection (a failed handshake, an invalid
/// payload, anything) changes the outcome of that connection only; and while
/// the listening socket does not fail, the acceptor keeps accepting, spawning
/// a session for every connection, whatever the sessions' outcomes.
pub proof fn lemma_isolation(
    bound: nat,
    fixed: Option<Seq<u8>>,
    traces: Seq<Seq<Event>>,
    i: int,
    replaced: Seq<Event>,
    accepts: Seq<AcceptEvent>,
)
    requires
        0 <= i < traces.len(),
        forall|k: int| 0 <= k < accepts.len() ==> !(accepts[k] is AcceptFailed),
    ensures
        raw_outcomes(bound, fixed, traces.update(i, replaced)) == raw_outcomes(bound, fixed, traces).update(
            i,
            raw_run(Role::Server, bound, fixed, Phase::Handshaking, replaced).0,
        ),
        framed_outcomes(traces.update(i, replaced)) == framed_outcomes(traces).update(
            i,
            framed_run(Role::Server, Phase::Handshaking, replaced).0,
        ),
        acceptor_run(true, accepts).0,
        acceptor_run(true, accepts).1.len() == accepts.len(),
        forall|k: int|
            0 <= k < accepts.len() && accepts[k] is Accepted ==> acceptor_run(true, accepts).1[k]
                == AcceptAction::SpawnSession,
{
    assert(raw_outcomes(bound, fixed, traces.update(i, replaced)) =~= raw_outcomes(bound, fixed, traces).update(
        i,
        raw_run(Role::Server, bound, fixed, Phase::Handshaking, replaced).0,
    ));
    assert(framed_outcomes(traces.update(i, replaced)) =~= framed_outcomes(traces).update(
        i,
        framed_run(Role::Server, Phase::Handshaking, replaced).0,
    ));
    lemma_acceptor_keeps_accepting(accepts);
}

proof fn lemma_acceptor_keeps_accepting(accepts: Seq<AcceptEvent>)
    requires
        forall|k: int| 0 <= k < accepts.len() ==> !(accepts[k] is AcceptFailed),
    ensures
        acceptor_run(true, accepts).0,
        acceptor_run(true, accepts).1.len() == accepts.len(),
        forall|k: int|
            0 <= k < accepts.len() && accepts[k] is Accepted ==> acceptor_run(true, accepts).1[k]
                == AcceptAction::SpawnSession,
    decreases accepts.len(),
{
    if accepts.len() > 0 {
        let rest = accepts.drop_first();
        assert forall|k: int| 0 <= k < rest.len() implies !(rest[k] is AcceptFailed) by {
            assert(rest[k] == accepts[k + 1]);
        }
        lemma_acceptor_keeps_accepting(rest);
        let actions = acceptor_run(true, accepts).1;
        let tail = acceptor_run(true, rest).1;
        assert forall|k: int|
            0 <= k < accepts.len() && accepts[k] is Accepted implies actions[k]
                == AcceptAction::SpawnSession by {
            if k > 0 {
                assert(actions[k] == tail[k - 1]);
                assert(rest[k - 1] == accepts[k]);
            }
        }
    }
}

/// How many steps of `steps` write to the peer.
pub open spec fn send_count(steps: Seq<StepModel>) -> nat
    decreases steps.len(),
{
    if steps.len() == 0 {
        0
    } else {
        (if is_send(steps[0]) { 1nat } else { 0nat }) + send_count(steps.drop_first())
    }
}

/// Writes still open to a raw server in `phase`: one before its reply is
/// under way, none after.
pub open spec fn raw_server_writes_left(phase: Phase) -> nat {
    match phase {
        Phase::Handshaking | Phase::AwaitingPeer | Phase::Composing => 1,
        _ => 0,
    }
}

/// A raw server session answers at most once: from the start of the
/// handshake, no sequence of events makes it write to the peer twice.
pub proof fn lemma_raw_server_single_reply(bound: nat, fixed: Option<Seq<u8>>, events: Seq<Event>)
    ensures
        send_count(raw_run(Role::Server, bound, fixed, Phase::Handshaking, events).1) <= 1,
{
    lemma_raw_server_writes_bounded(bound, fixed, Phase::Handshaking, events);
}

proof fn lemma_raw_server_writes_bounded(
    bound: nat,
    fixed: Option<Seq<u8>>,
    phase: Phase,
    events: Seq<Event>,
)
    ensures
        send_count(raw_run(Role::Server, bound, fixed, phase, events).1) <= raw_server_writes_left(
            phase,
        ),
    decreases events.len(),
{
    if events.len() > 0 {
        let (p, s) = raw_next(Role::Server, bound, fixed, phase, events[0]);
        lemma_raw_server_writes_bounded(bound, fixed, p, events.drop_first());
        let steps = raw_run(Role::Server, bound, fixed, phase, events).1;
        let rest = raw_run(Role::Server, bound, fixed, p, events.drop_first()).1;
        assert(steps == seq![s] + rest);
        assert(steps.drop_first() =~= rest);
        assert(steps[0] == s);
    }
}

} // verus!
