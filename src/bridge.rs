//! The decisions of a WebSocket bridge session. The session is told what
//! happened on either connection and answers with what to do next; the
//! caller performs the action. A close message is relayed like any other
//! message; the session ends at the first end of stream, receive error, send
//! error or untranslatable message, on either side, and stays ended.
use vstd::prelude::*;
use crate::message::{
    client_of, to_client, to_upstream, upstream_of, ClientMessage, UpstreamMessage,
};

verus! {

/// One of the two connections of a bridge.
#[derive(Clone, Copy, Debug, PartialEq, Eq, Structural)]
pub enum Side {
    Client,
    Upstream,
}

/// What the bridge observed.
#[derive(Clone, Debug, PartialEq, Eq)]
pub enum BridgeEvent {
    /// The client sent a message.
    FromClient(ClientMessage),
    /// The upstream sent a message.
    FromUpstream(UpstreamMessage),
    /// The stream of that side ended.
    Closed(Side),
    /// Receiving from that side failed.
    ReceiveFailed(Side),
    /// Sending to that side failed.
    SendFailed(Side),
}

/// Why a session ended.
#[derive(Clone, Copy, Debug, PartialEq, Eq, Structural)]
pub enum Termination {
    ClosedBy(Side),
    ReceiveError(Side),
    SendError(Side),
    UnsupportedFrame,
}

/// What the caller is to do next.
#[derive(Clone, Debug, PartialEq, Eq)]
pub enum BridgeAction {
    /// Send this message to the upstream.
    ToUpstream(UpstreamMessage),
    /// Send this message to the client.
    ToClient(ClientMessage),
    /// Stop relaying and release both connections.
    Release(Termination),
}

/// The session's state after an event, and the action it asks for. `ended`
/// is the reason the session ended, if it has.
pub open spec fn step_of(ended: Option<Termination>, e: BridgeEvent) -> (
    Option<Termination>,
    BridgeAction,
) {
    match ended {
        Some(t) => (Some(t), BridgeAction::Release(t)),
        None => match e {
            BridgeEvent::FromClient(m) => (None, BridgeAction::ToUpstream(upstream_of(m))),
            BridgeEvent::FromUpstream(m) => match client_of(m) {
                Some(c) => (None, BridgeAction::ToClient(c)),
                None => (
                    Some(Termination::UnsupportedFrame),
                    BridgeAction::Release(Termination::UnsupportedFrame),
                ),
            },
            BridgeEvent::Closed(s) => (
                Some(Termination::ClosedBy(s)),
                BridgeAction::Release(Termination::ClosedBy(s)),
            ),
            BridgeEvent::ReceiveFailed(s) => (
                Some(Termination::ReceiveError(s)),
                BridgeAction::Release(Termination::ReceiveError(s)),
            ),
            BridgeEvent::SendFailed(s) => (
                Some(Termination::SendError(s)),
                BridgeAction::Release(Termination::SendError(s)),
            ),
        },
    }
}

/// The state and the actions after a sequence of events, in order.
pub open spec fn run(ended: Option<Termination>, events: Seq<BridgeEvent>) -> (
    Option<Termination>,
    Seq<BridgeAction>,
)
    decreases events.len(),
{
    if events.len() == 0 {
        (ended, Seq::empty())
    } else {
        let (next, a) = step_of(ended, events[0]);
        let (last, rest) = run(next, events.drop_first());
        (last, seq![a] + rest)
    }
}

/// Whether an event is a message that the open bridge relays.
pub open spec fn is_relayed(e: BridgeEvent) -> bool {
    match e {
        BridgeEvent::FromClient(_) => true,
        BridgeEvent::FromUpstream(m) => client_of(m) is Some,
        _ => false,
    }
}

/// One bridge session, owned by the task that runs its relay loop.
#[derive(Debug)]
pub struct BridgeSession {
    ended: Option<Termination>,
}

impl View for BridgeSession {
    type V = Option<Termination>;

    closed spec fn view(&self) -> Option<Termination> {
        self.ended
    }
}

impl BridgeSession {
    /// A session whose two connections are both open.
    pub fn new() -> (r: BridgeSession)
        ensures
            r@ is None,
    {
        BridgeSession { ended: None }
    }

    /// Whether the session still relays.
    pub fn is_open(&self) -> (r: bool)
        ensures
            r == (self@ is None),
    {
        self.ended.is_none()
    }

    /// Why the session ended, if it has.
    pub fn termination(&self) -> (r: Option<Termination>)
        ensures
            r == self@,
    {
        self.ended
    }

    /// Takes in one event and returns the action it calls for.
    pub fn on_event(&mut self, e: BridgeEvent) -> (a: BridgeAction)
        ensures
            (final(self)@, a) == step_of(old(self)@, e),
    {
        if let Some(t) = self.ended {
            return BridgeAction::Release(t);
        }
        match e {
            BridgeEvent::FromClient(m) => BridgeAction::ToUpstream(to_upstream(m)),
            BridgeEvent::FromUpstream(m) => match to_client(m) {
                Ok(c) => BridgeAction::ToClient(c),
                Err(_) => {
                    self.ended = Some(Termination::UnsupportedFrame);
                    BridgeAction::Release(Termination::UnsupportedFrame)
                },
            },
            BridgeEvent::Closed(s) => {
                self.ended = Some(Termination::ClosedBy(s));
                BridgeAction::Release(Termination::ClosedBy(s))
            },
            BridgeEvent::ReceiveFailed(s) => {
                self.ended = Some(Termination::ReceiveError(s));
                BridgeAction::Release(Termination::ReceiveError(s))
            },
            BridgeEvent::SendFailed(s) => {
                self.ended = Some(Termination::SendError(s));
                BridgeAction::Release(Termination::SendError(s))
            },
        }
    }
}

/// While both sides only send messages that translate, the session stays
/// open and answers each message, in order, with its translation sent to the
/// other side: messages from one side reach the other in the order sent.
pub proof fn lemma_relay_in_order(events: Seq<BridgeEvent>)
    requires
        forall|i: int| 0 <= i < events.len() ==> is_relayed(#[trigger] events[i]),
    ensures
        run(None, events).0 is None,
        run(None, events).1.len() == events.len(),
        forall|i: int|
            0 <= i < events.len() ==> #[trigger] run(None, events).1[i] == (match events[i] {
                BridgeEvent::FromClient(m) => BridgeAction::ToUpstream(upstream_of(m)),
                BridgeEvent::FromUpstream(m) => BridgeAction::ToClient(client_of(m)->0),
                _ => arbitrary(),
            }),
    decreases events.len(),
{
    if events.len() > 0 {
        let rest = events.drop_first();
        assert forall|i: int| 0 <= i < rest.len() implies is_relayed(#[trigger] rest[i]) by {
            assert(rest[i] == events[i + 1]);
        }
        lemma_relay_in_order(rest);
        assert(is_relayed(events[0]));
        assert forall|i: int| 0 <= i < events.len() implies #[trigger] run(None, events).1[i] == (
        match events[i] {
            BridgeEvent::FromClient(m) => BridgeAction::ToUpstream(upstream_of(m)),
            BridgeEvent::FromUpstream(m) => BridgeAction::ToClient(client_of(m)->0),
            _ => arbitrary(),
        }) by {
            if i > 0 {
                assert(rest[i - 1] == events[i]);
            }
        }
    }
}

/// Once a session has ended it stays ended, and every later event is answered
/// by releasing both connections for the same reason.
pub proof fn lemma_ended_stays_ended(t: Termination, events: Seq<BridgeEvent>)
    ensures
        run(Some(t), events).0 == Some(t),
        run(Some(t), events).1.len() == events.len(),
        forall|i: int|
            0 <= i < events.len() ==> #[trigger] run(Some(t), events).1[i]
                == BridgeAction::Release(t),
    decreases events.len(),
{
    if events.len() > 0 {
        lemma_ended_stays_ended(t, events.drop_first());
    }
}

/// An end of stream or an error on either side ends the session at once.
pub proof fn lemma_close_ends_session(e: BridgeEvent)
    requires
        e is Closed || e is ReceiveFailed || e is SendFailed,
    ensures
        step_of(None, e).0 is Some,
        step_of(None, e).1 == BridgeAction::Release(step_of(None, e).0->0),
{
}

} // verus!
