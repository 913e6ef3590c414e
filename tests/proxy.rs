use dev_proxy::bridge::{BridgeAction, BridgeEvent, BridgeSession, Side, Termination};
use dev_proxy::dispatch::{plan_request, Mode};
use dev_proxy::forward::{bad_gateway, forward_reply, ErrorResponse, BAD_GATEWAY};
use dev_proxy::message::{
    to_client, to_upstream, ClientClose, ClientMessage, TranslateError, UpstreamClose,
    UpstreamMessage,
};
use dev_proxy::negotiate::{
    Negotiation, NegotiationAction, NegotiationEvent, UpgradeFailure, HANDSHAKE_TIMEOUT_MS,
};
use dev_proxy::route::{dev_table, starts_with, ConfigError, RouteTable, Rule, Upstream};
use dev_proxy::uri::{RequestUri, Scheme};

fn uri(path: &str, query: Option<&str>) -> RequestUri {
    RequestUri {
        scheme: None,
        authority: None,
        path: path.to_string(),
        query: query.map(|q| q.to_string()),
    }
}

fn upstream(authority: &str) -> Upstream {
    Upstream { authority: authority.to_string(), scheme: Scheme::Http }
}

fn rule(prefix: &str, authority: &str) -> Rule {
    Rule { prefix: prefix.to_string(), upstream: upstream(authority) }
}

#[test]
fn api_and_oauth_paths_go_to_api_server() {
    let table = dev_table().unwrap();
    for p in ["/api/greet", "/api/", "/oauth/callback/github", "/oauth/", "/api/a/b?c"] {
        assert_eq!(table.route(p).authority, "127.0.0.1:8000", "path {p}");
    }
}

#[test]
fn other_paths_go_to_ui_server() {
    let table = dev_table().unwrap();
    for p in ["/", "", "/api", "/oauth", "/apis/x", "/API/greet", "/index.html", "/x/api/"] {
        assert_eq!(table.route(p).authority, "127.0.0.1:1234", "path {p}");
    }
}

#[test]
fn dev_table_rules_in_order() {
    let table = dev_table().unwrap();
    let rules = table.rules();
    assert_eq!(rules.len(), 3);
    assert_eq!(rules[0], rule("/api/", "127.0.0.1:8000"));
    assert_eq!(rules[1], rule("/oauth/", "127.0.0.1:8000"));
    assert_eq!(rules[2], rule("", "127.0.0.1:1234"));
}

#[test]
fn first_matching_rule_wins() {
    let table = RouteTable::new(vec![
        rule("/a", "first:1"),
        rule("/ab", "second:2"),
        rule("", "fallback:3"),
        rule("/abc", "late:4"),
    ])
    .unwrap();
    assert_eq!(table.route("/abc").authority, "first:1");
    assert_eq!(table.route("/b").authority, "fallback:3");
}

#[test]
fn table_without_fallback_is_refused() {
    let r = RouteTable::new(vec![rule("/api/", "localhost:8000")]);
    assert_eq!(r.unwrap_err(), ConfigError::MissingFallback);
    let r = RouteTable::new(vec![]);
    assert_eq!(r.unwrap_err(), ConfigError::MissingFallback);
}

#[test]
fn missing_fallback_reported_before_bad_authority() {
    let r = RouteTable::new(vec![rule("/api/", "not a host")]);
    assert_eq!(r.unwrap_err(), ConfigError::MissingFallback);
}

#[test]
fn table_with_bad_authority_is_refused() {
    let r = RouteTable::new(vec![
        rule("/api/", "localhost:8000"),
        rule("/x/", "bad host"),
        rule("", ""),
    ]);
    assert_eq!(r.unwrap_err(), ConfigError::InvalidAuthority(1));
    let r = RouteTable::new(vec![rule("/api/", "localhost:8000"), rule("", "")]);
    assert_eq!(r.unwrap_err(), ConfigError::InvalidAuthority(1));
}

#[test]
fn good_authorities_are_accepted() {
    let r = RouteTable::new(vec![
        rule("/a/", "example.com"),
        rule("/b/", "[::1]:8080"),
        rule("", "127.0.0.1:1234"),
    ]);
    assert!(r.is_ok());
}

#[test]
fn prefix_comparison() {
    assert!(starts_with("/api/x", "/api/"));
    assert!(starts_with("/api/", "/api/"));
    assert!(starts_with("anything", ""));
    assert!(starts_with("", ""));
    assert!(!starts_with("/api", "/api/"));
    assert!(!starts_with("/Api/x", "/api/"));
    assert!(!starts_with("", "/"));
    assert!(starts_with("/ünï/x", "/ünï"));
}

#[test]
fn rewrite_keeps_path_and_query() {
    let original = RequestUri {
        scheme: Some(Scheme::Https),
        authority: Some("localhost:8080".to_string()),
        path: "/api/items/%20x".to_string(),
        query: Some("a=1&b=%2F".to_string()),
    };
    let r = original.rewrite("127.0.0.1:8000", Scheme::Http);
    assert_eq!(r.scheme, Some(Scheme::Http));
    assert_eq!(r.authority.as_deref(), Some("127.0.0.1:8000"));
    assert_eq!(r.path, "/api/items/%20x");
    assert_eq!(r.query.as_deref(), Some("a=1&b=%2F"));
    let r = uri("/", None).rewrite("h:1", Scheme::Wss);
    assert_eq!(r.path, "/");
    assert_eq!(r.query, None);
    assert_eq!(r.scheme, Some(Scheme::Wss));
}

#[test]
fn replace_scheme_keeps_the_rest() {
    let u = uri("/api/stream", Some("x=1")).rewrite("127.0.0.1:8000", Scheme::Http);
    let w = u.replace_scheme(Scheme::Ws);
    assert_eq!(w.scheme, Some(Scheme::Ws));
    assert_eq!(w.authority.as_deref(), Some("127.0.0.1:8000"));
    assert_eq!(w.path, "/api/stream");
    assert_eq!(w.query.as_deref(), Some("x=1"));
}

#[test]
fn scheme_upgrade_and_text() {
    assert_eq!(Scheme::Http.upgraded(), Scheme::Ws);
    assert_eq!(Scheme::Https.upgraded(), Scheme::Wss);
    assert_eq!(Scheme::Ws.upgraded(), Scheme::Ws);
    assert_eq!(Scheme::Wss.upgraded(), Scheme::Wss);
    assert_eq!(Scheme::Http.as_str(), "http");
    assert_eq!(Scheme::Https.as_str(), "https");
    assert_eq!(Scheme::Ws.as_str(), "ws");
    assert_eq!(Scheme::Wss.as_str(), "wss");
}

#[test]
fn plain_request_plan() {
    let table = dev_table().unwrap();
    let plan = plan_request(&table, &uri("/api/greet", None), false);
    assert_eq!(plan.mode, Mode::Forward);
    assert_eq!(plan.upstream, upstream("127.0.0.1:8000"));
    assert_eq!(plan.target.scheme, Some(Scheme::Http));
    assert_eq!(plan.target.authority.as_deref(), Some("127.0.0.1:8000"));
    assert_eq!(plan.target.path, "/api/greet");
    assert_eq!(plan.target.query, None);
}

#[test]
fn upgrade_request_plan_uses_websocket_scheme() {
    let table = dev_table().unwrap();
    let plan = plan_request(&table, &uri("/api/stream", Some("room=1")), true);
    assert_eq!(plan.mode, Mode::Upgrade);
    assert_eq!(plan.target.scheme, Some(Scheme::Ws));
    assert_eq!(plan.target.authority.as_deref(), Some("127.0.0.1:8000"));
    assert_eq!(plan.target.path, "/api/stream");
    assert_eq!(plan.target.query.as_deref(), Some("room=1"));
    let plan = plan_request(&table, &uri("/", None), true);
    assert_eq!(plan.target.authority.as_deref(), Some("127.0.0.1:1234"));
    assert_eq!(plan.target.scheme, Some(Scheme::Ws));
}

#[test]
fn repeated_request_gets_same_plan() {
    let table = dev_table().unwrap();
    let u = uri("/oauth/callback/github", Some("code=abc&state=xyz"));
    let first = plan_request(&table, &u, false);
    for _ in 0..3 {
        assert_eq!(plan_request(&table, &u, false), first);
    }
    let mut other = u.clone();
    other.scheme = Some(Scheme::Https);
    other.authority = Some("localhost:8080".to_string());
    assert_eq!(plan_request(&table, &other, false), first);
}

#[test]
fn client_messages_round_trip() {
    let cases = vec![
        ClientMessage::Text("hello".to_string()),
        ClientMessage::Text(String::new()),
        ClientMessage::Binary(vec![0, 1, 255]),
        ClientMessage::Ping(vec![9]),
        ClientMessage::Pong(vec![]),
        ClientMessage::Close(None),
        ClientMessage::Close(Some(ClientClose { code: 1000, reason: "bye".to_string() })),
        ClientMessage::Close(Some(ClientClose { code: 4321, reason: String::new() })),
    ];
    for m in cases {
        assert_eq!(to_client(to_upstream(m.clone())), Ok(m));
    }
}

#[test]
fn upstream_messages_round_trip() {
    let cases = vec![
        UpstreamMessage::Text("hi".to_string()),
        UpstreamMessage::Binary(vec![7, 7]),
        UpstreamMessage::Ping(vec![]),
        UpstreamMessage::Pong(vec![1, 2, 3]),
        UpstreamMessage::Close(None),
        UpstreamMessage::Close(Some(UpstreamClose { code: 1001, reason: "going away".to_string() })),
    ];
    for m in cases {
        assert_eq!(to_upstream(to_client(m.clone()).unwrap()), m);
    }
}

#[test]
fn translation_keeps_variant_and_payload() {
    assert_eq!(to_upstream(ClientMessage::Ping(vec![1])), UpstreamMessage::Ping(vec![1]));
    assert_eq!(to_upstream(ClientMessage::Pong(vec![1])), UpstreamMessage::Pong(vec![1]));
    assert_eq!(
        to_upstream(ClientMessage::Close(Some(ClientClose { code: 1008, reason: "policy".to_string() }))),
        UpstreamMessage::Close(Some(UpstreamClose { code: 1008, reason: "policy".to_string() }))
    );
    assert_eq!(
        to_client(UpstreamMessage::Binary(vec![5])),
        Ok(ClientMessage::Binary(vec![5]))
    );
}

#[test]
fn raw_frame_is_reported() {
    assert_eq!(
        to_client(UpstreamMessage::Frame(vec![0x81, 0])),
        Err(TranslateError::UnsupportedFrame)
    );
}

#[test]
fn forward_success_is_passed_through() {
    let table = dev_table().unwrap();
    let plan = plan_request(&table, &uri("/api/greet", None), false);
    assert_eq!(plan.target.path, "/api/greet");
    assert_eq!(plan.target.authority.as_deref(), Some("127.0.0.1:8000"));
    let upstream_response: Result<(u16, String), String> = Ok((200, "hello".to_string()));
    assert_eq!(forward_reply(upstream_response), Ok((200, "hello".to_string())));
}

#[test]
fn forward_failure_gives_bad_gateway() {
    let table = dev_table().unwrap();
    let plan = plan_request(&table, &uri("/api/x", None), false);
    assert_eq!(plan.upstream, upstream("127.0.0.1:8000"));
    let failed: Result<(u16, String), String> = Err("client error (Connect)".to_string());
    let reply = forward_reply(failed).unwrap_err();
    assert_eq!(reply.status, 502);
    assert_eq!(reply.body, "client error (Connect)");
    assert!(!reply.body.is_empty());
}

#[test]
fn bad_gateway_response() {
    assert_eq!(BAD_GATEWAY, 502);
    assert_eq!(
        bad_gateway("connection refused".to_string()),
        ErrorResponse { status: 502, body: "connection refused".to_string() }
    );
}

#[test]
fn upgrade_success_then_relay_then_close() {
    let mut n = Negotiation::start();
    assert_eq!(n, Negotiation::AwaitingUpstream);
    assert_eq!(n.on_event(NegotiationEvent::UpstreamConnected), NegotiationAction::CompleteClientUpgrade);
    assert_eq!(n.on_event(NegotiationEvent::ClientUpgraded), NegotiationAction::StartBridge);
    assert_eq!(n, Negotiation::Bridging);

    let mut s = BridgeSession::new();
    assert!(s.is_open());
    assert_eq!(
        s.on_event(BridgeEvent::FromClient(ClientMessage::Text("ping".to_string()))),
        BridgeAction::ToUpstream(UpstreamMessage::Text("ping".to_string()))
    );
    assert_eq!(
        s.on_event(BridgeEvent::FromUpstream(UpstreamMessage::Text("pong".to_string()))),
        BridgeAction::ToClient(ClientMessage::Text("pong".to_string()))
    );
    assert!(s.is_open());
    assert_eq!(
        s.on_event(BridgeEvent::Closed(Side::Upstream)),
        BridgeAction::Release(Termination::ClosedBy(Side::Upstream))
    );
    assert!(!s.is_open());
    assert_eq!(s.termination(), Some(Termination::ClosedBy(Side::Upstream)));
}

#[test]
fn client_close_ends_session() {
    let mut s = BridgeSession::new();
    assert_eq!(
        s.on_event(BridgeEvent::Closed(Side::Client)),
        BridgeAction::Release(Termination::ClosedBy(Side::Client))
    );
    assert_eq!(
        s.on_event(BridgeEvent::FromClient(ClientMessage::Text("late".to_string()))),
        BridgeAction::Release(Termination::ClosedBy(Side::Client))
    );
}

#[test]
fn close_message_is_relayed() {
    let mut s = BridgeSession::new();
    assert_eq!(
        s.on_event(BridgeEvent::FromClient(ClientMessage::Close(Some(ClientClose {
            code: 1000,
            reason: "done".to_string()
        })))),
        BridgeAction::ToUpstream(UpstreamMessage::Close(Some(UpstreamClose {
            code: 1000,
            reason: "done".to_string()
        })))
    );
    assert!(s.is_open());
}

#[test]
fn bridge_errors_end_session() {
    let mut s = BridgeSession::new();
    assert_eq!(
        s.on_event(BridgeEvent::ReceiveFailed(Side::Client)),
        BridgeAction::Release(Termination::ReceiveError(Side::Client))
    );
    let mut s = BridgeSession::new();
    assert_eq!(
        s.on_event(BridgeEvent::SendFailed(Side::Upstream)),
        BridgeAction::Release(Termination::SendError(Side::Upstream))
    );
    let mut s = BridgeSession::new();
    assert_eq!(
        s.on_event(BridgeEvent::FromUpstream(UpstreamMessage::Frame(vec![1]))),
        BridgeAction::Release(Termination::UnsupportedFrame)
    );
    assert_eq!(s.termination(), Some(Termination::UnsupportedFrame));
}

#[test]
fn relay_keeps_order_per_direction() {
    let mut s = BridgeSession::new();
    let mut to_upstream_seen = Vec::new();
    let mut to_client_seen = Vec::new();
    let events = vec![
        BridgeEvent::FromClient(ClientMessage::Text("1".to_string())),
        BridgeEvent::FromUpstream(UpstreamMessage::Text("a".to_string())),
        BridgeEvent::FromClient(ClientMessage::Text("2".to_string())),
        BridgeEvent::FromClient(ClientMessage::Binary(vec![3])),
        BridgeEvent::FromUpstream(UpstreamMessage::Text("b".to_string())),
    ];
    for e in events {
        match s.on_event(e) {
            BridgeAction::ToUpstream(m) => to_upstream_seen.push(m),
            BridgeAction::ToClient(m) => to_client_seen.push(m),
            BridgeAction::Release(t) => panic!("released: {t:?}"),
        }
    }
    assert_eq!(
        to_upstream_seen,
        vec![
            UpstreamMessage::Text("1".to_string()),
            UpstreamMessage::Text("2".to_string()),
            UpstreamMessage::Binary(vec![3]),
        ]
    );
    assert_eq!(
        to_client_seen,
        vec![ClientMessage::Text("a".to_string()), ClientMessage::Text("b".to_string())]
    );
}

#[test]
fn upgrade_timeout_never_completes_client_upgrade() {
    assert_eq!(HANDSHAKE_TIMEOUT_MS, 1000);
    let mut n = Negotiation::start();
    assert_eq!(
        n.on_event(NegotiationEvent::UpstreamTimedOut),
        NegotiationAction::CloseClient(UpgradeFailure::HandshakeTimedOut)
    );
    assert_eq!(n, Negotiation::Abandoned(UpgradeFailure::HandshakeTimedOut));
    assert_eq!(n.on_event(NegotiationEvent::UpstreamConnected), NegotiationAction::Ignore);
    assert_eq!(n.on_event(NegotiationEvent::ClientUpgraded), NegotiationAction::Ignore);
    assert_eq!(n, Negotiation::Abandoned(UpgradeFailure::HandshakeTimedOut));
}

#[test]
fn upgrade_handshake_failure_closes_client() {
    let mut n = Negotiation::start();
    assert_eq!(
        n.on_event(NegotiationEvent::UpstreamFailed),
        NegotiationAction::CloseClient(UpgradeFailure::HandshakeFailed)
    );
    assert_eq!(n, Negotiation::Abandoned(UpgradeFailure::HandshakeFailed));
}

#[test]
fn client_upgrade_failure_releases_upstream() {
    let mut n = Negotiation::start();
    assert_eq!(n.on_event(NegotiationEvent::ClientUpgraded), NegotiationAction::Ignore);
    assert_eq!(n, Negotiation::AwaitingUpstream);
    n.on_event(NegotiationEvent::UpstreamConnected);
    assert_eq!(
        n.on_event(NegotiationEvent::ClientUpgradeFailed),
        NegotiationAction::ReleaseUpstream(UpgradeFailure::ClientUpgradeFailed)
    );
    assert_eq!(n.on_event(NegotiationEvent::ClientUpgraded), NegotiationAction::Ignore);
}
