//! The dispatch plan of an inbound request: which upstream, which outbound
//! URI, and whether it is forwarded once or upgraded to a WebSocket bridge.
use vstd::prelude::*;
use crate::route::{select, RouteTable, RuleView, Upstream, UpstreamView};
use crate::uri::{rewritten, upgraded_scheme, RequestUri, UriView};

verus! {

/// How a request is handled once its upstream is known.
#[derive(Clone, Copy, Debug, PartialEq, Eq, Structural)]
pub enum Mode {
    /// Sent once over the pooled HTTP client; the single response is returned.
    Forward,
    /// Upgraded: handshake upstream, then bridge the two WebSockets.
    Upgrade,
}

/// Where and how an inbound request goes.
#[derive(Clone, Debug, PartialEq, Eq)]
pub struct Plan {
    pub upstream: Upstream,
    pub target: RequestUri,
    pub mode: Mode,
}

pub struct PlanView {
    pub upstream: UpstreamView,
    pub target: UriView,
    pub mode: Mode,
}

impl View for Plan {
    type V = PlanView;

    open spec fn view(&self) -> PlanView {
        PlanView { upstream: self.upstream@, target: self.target@, mode: self.mode }
    }
}

/// The plan for a request to `uri`: the first matching rule's upstream, the
/// URI rewritten to it (under the WebSocket scheme for an upgrade).
pub open spec fn plan_of(rules: Seq<RuleView>, uri: UriView, upgrade: bool) -> PlanView {
    let up = select(rules, uri.path)->0;
    PlanView {
        upstream: up,
        target: rewritten(
            uri,
            up.authority,
            if upgrade {
                upgraded_scheme(up.scheme)
            } else {
                up.scheme
            },
        ),
        mode: if upgrade {
            Mode::Upgrade
        } else {
            Mode::Forward
        },
    }
}

/// Plans an inbound request. `upgrade` tells whether the request asks for a
/// WebSocket upgrade.
pub fn plan_request(table: &RouteTable, uri: &RequestUri, upgrade: bool) -> (r: Plan)
    requires
        table.wf(),
    ensures
        r@ == plan_of(table@, uri@, upgrade),
        select(table@, uri@.path) == Some(r@.upstream),
{
    let up = table.route(uri.path.as_str());
    let scheme = if upgrade {
        up.scheme.upgraded()
    } else {
        up.scheme
    };
    let target = uri.rewrite(up.authority.as_str(), scheme);
    let mode = if upgrade {
        Mode::Upgrade
    } else {
        Mode::Forward
    };
    Plan { upstream: Upstream { authority: up.authority.clone(), scheme: up.scheme }, target, mode }
}

/// A plan depends on nothing but the table, the inbound path and query, and
/// whether an upgrade is asked for: repeating a request gives the same
/// upstream and the same outbound URI every time.
pub proof fn lemma_plan_repeatable(rules: Seq<RuleView>, u1: UriView, u2: UriView, upgrade: bool)
    requires
        u1.path == u2.path,
        u1.query == u2.query,
    ensures
        plan_of(rules, u1, upgrade) == plan_of(rules, u2, upgrade),
{
}

} // verus!
