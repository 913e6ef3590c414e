//! The decisions of a WebSocket upgrade. The handshake with the upstream comes
//! first, within a deadline; only when it succeeds is the client's upgrade
//! completed, and only when both are done does bridging start.
use vstd::prelude::*;

verus! {

/// How long the handshake with the upstream may take, in milliseconds.
pub const HANDSHAKE_TIMEOUT_MS: u64 = 1000;

/// Why an upgrade was given up.
#[derive(Clone, Copy, Debug, PartialEq, Eq, Structural)]
pub enum UpgradeFailure {
    /// The upstream refused the handshake or could not be reached.
    HandshakeFailed,
    /// The upstream handshake did not complete before the deadline.
    HandshakeTimedOut,
    /// Completing the upgrade with the client failed.
    ClientUpgradeFailed,
}

/// Where an upgrade stands.
#[derive(Clone, Copy, Debug, PartialEq, Eq, Structural)]
pub enum Negotiation {
    /// The handshake with the upstream is under way.
    AwaitingUpstream,
    /// The upstream is connected; the client's upgrade is being completed.
    AwaitingClient,
    /// Both connections are upgraded and handed to a bridge.
    Bridging,
    /// The upgrade was given up.
    Abandoned(UpgradeFailure),
}

/// What happened to an upgrade under way.
#[derive(Clone, Copy, Debug, PartialEq, Eq, Structural)]
pub enum NegotiationEvent {
    UpstreamConnected,
    UpstreamFailed,
    UpstreamTimedOut,
    ClientUpgraded,
    ClientUpgradeFailed,
}

/// What the caller is to do next.
#[derive(Clone, Copy, Debug, PartialEq, Eq, Structural)]
pub enum NegotiationAction {
    /// Complete the upgrade with the client.
    CompleteClientUpgrade,
    /// Hand both connections to a bridge session.
    StartBridge,
    /// Refuse the client's upgrade and close its connection.
    CloseClient(UpgradeFailure),
    /// Drop the upstream connection.
    ReleaseUpstream(UpgradeFailure),
    /// Nothing: the event does not apply in this state.
    Ignore,
}

/// The state after an event, and the action it asks for.
pub open spec fn negotiate_of(s: Negotiation, e: NegotiationEvent) -> (
    Negotiation,
    NegotiationAction,
) {
    match (s, e) {
        (Negotiation::AwaitingUpstream, NegotiationEvent::UpstreamConnected) => (
            Negotiation::AwaitingClient,
            NegotiationAction::CompleteClientUpgrade,
        ),
        (Negotiation::AwaitingUpstream, NegotiationEvent::UpstreamFailed) => (
            Negotiation::Abandoned(UpgradeFailure::HandshakeFailed),
            NegotiationAction::CloseClient(UpgradeFailure::HandshakeFailed),
        ),
        (Negotiation::AwaitingUpstream, NegotiationEvent::UpstreamTimedOut) => (
            Negotiation::Abandoned(UpgradeFailure::HandshakeTimedOut),
            NegotiationAction::CloseClient(UpgradeFailure::HandshakeTimedOut),
        ),
        (Negotiation::AwaitingClient, NegotiationEvent::ClientUpgraded) => (
            Negotiation::Bridging,
            NegotiationAction::StartBridge,
        ),
        (Negotiation::AwaitingClient, NegotiationEvent::ClientUpgradeFailed) => (
            Negotiation::Abandoned(UpgradeFailure::ClientUpgradeFailed),
            NegotiationAction::ReleaseUpstream(UpgradeFailure::ClientUpgradeFailed),
        ),
        _ => (s, NegotiationAction::Ignore),
    }
}

impl Negotiation {
    /// An upgrade whose upstream handshake has just been started.
    pub fn start() -> (r: Negotiation)
        ensures
            r == Negotiation::AwaitingUpstream,
    {
        Negotiation::AwaitingUpstream
    }

    /// Takes in one event and returns the action it calls for.
    pub fn on_event(&mut self, e: NegotiationEvent) -> (a: NegotiationAction)
        ensures
            (*final(self), a) == negotiate_of(*old(self), e),
    {
        match (*self, e) {
            (Negotiation::AwaitingUpstream, NegotiationEvent::UpstreamConnected) => {
                *self = Negotiation::AwaitingClient;
                NegotiationAction::CompleteClientUpgrade
            },
            (Negotiation::AwaitingUpstream, NegotiationEvent::UpstreamFailed) => {
                *self = Negotiation::Abandoned(UpgradeFailure::HandshakeFailed);
                NegotiationAction::CloseClient(UpgradeFailure::HandshakeFailed)
            },
            (Negotiation::AwaitingUpstream, NegotiationEvent::UpstreamTimedOut) => {
                *self = Negotiation::Abandoned(UpgradeFailure::HandshakeTimedOut);
                NegotiationAction::CloseClient(UpgradeFailure::HandshakeTimedOut)
            },
            (Negotiation::AwaitingClient, NegotiationEvent::ClientUpgraded) => {
                *self = Negotiation::Bridging;
                NegotiationAction::StartBridge
            },
            (Negotiation::AwaitingClient, NegotiationEvent::ClientUpgradeFailed) => {
                *self = Negotiation::Abandoned(UpgradeFailure::ClientUpgradeFailed);
                NegotiationAction::ReleaseUpstream(UpgradeFailure::ClientUpgradeFailed)
            },
            _ => NegotiationAction::Ignore,
        }
    }
}

/// The state and the actions after a sequence of events, in order.
pub open spec fn negotiate_run(s: Negotiation, events: Seq<NegotiationEvent>) -> (
    Negotiation,
    Seq<NegotiationAction>,
)
    decreases events.len(),
{
    if events.len() == 0 {
        (s, Seq::empty())
    } else {
        let (next, a) = negotiate_of(s, events[0]);
        let (last, rest) = negotiate_run(next, events.drop_first());
        (last, seq![a] + rest)
    }
}

/// Without a successful upstream handshake the client's upgrade is never
/// completed and no bridge is started, whatever else happens.
pub proof fn lemma_no_bridge_without_upstream(s: Negotiation, events: Seq<NegotiationEvent>)
    requires
        s == Negotiation::AwaitingUpstream || s is Abandoned,
        forall|i: int| 0 <= i < events.len() ==> #[trigger] events[i] != NegotiationEvent::UpstreamConnected,
    ensures
        negotiate_run(s, events).0 == Negotiation::AwaitingUpstream || negotiate_run(s, events).0 is Abandoned,
        negotiate_run(s, events).1.len() == events.len(),
        forall|i: int|
            0 <= i < events.len() ==> #[trigger] negotiate_run(s, events).1[i]
                != NegotiationAction::CompleteClientUpgrade && negotiate_run(s, events).1[i]
                != NegotiationAction::StartBridge,
    decreases events.len(),
{
    if events.len() > 0 {
        let rest = events.drop_first();
        assert(events[0] != NegotiationEvent::UpstreamConnected);
        assert forall|i: int| 0 <= i < rest.len() implies #[trigger] rest[i]
            != NegotiationEvent::UpstreamConnected by {
            assert(rest[i] == events[i + 1]);
        }
        let next = negotiate_of(s, events[0]).0;
        lemma_no_bridge_without_upstream(next, rest);
        assert forall|i: int| 0 <= i < events.len() implies #[trigger] negotiate_run(s, events).1[i]
            != NegotiationAction::CompleteClientUpgrade && negotiate_run(s, events).1[i]
            != NegotiationAction::StartBridge by {
            if i > 0 {
                assert(negotiate_run(s, events).1[i] == negotiate_run(next, rest).1[i - 1]);
            }
        }
    }
}

/// A bridge starts exactly when the client's upgrade completes after the
/// upstream handshake succeeded.
pub proof fn lemma_bridge_needs_both_upgrades(s: Negotiation, e: NegotiationEvent)
    ensures
        negotiate_of(s, e).1 == NegotiationAction::StartBridge <==> s
            == Negotiation::AwaitingClient && e == NegotiationEvent::ClientUpgraded,
        negotiate_of(s, e).0 == Negotiation::AwaitingClient ==> s == Negotiation::AwaitingClient
            || (s == Negotiation::AwaitingUpstream && e == NegotiationEvent::UpstreamConnected),
{
}

} // verus!
