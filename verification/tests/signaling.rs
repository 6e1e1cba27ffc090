use webrtc_signaler::config::TurnConfig;
use webrtc_signaler::messages::{Byebye, Method, Negotiation, PeerInfo};
use webrtc_signaler::signaling::{CallStatus, ConnState, RelayKind, Signaler};

fn test_config() -> TurnConfig {
    TurnConfig {
        public_ip: String::from("1.2.3.4"),
        port: 19302,
        realm: String::from("flutter-webrtc"),
        username: String::from("user"),
        password: String::from("password"),
    }
}

fn register(s: &mut Signaler, conn: &mut ConnState, id: &str) {
    let pi = PeerInfo {
        id: String::from(id),
        name: format!("name-{}", id),
        user_agent: String::from("agent"),
    };
    s.handle_message_at(conn, Method::New(pi), 0);
}

fn nego(from: &str, to: &str, sid: &str) -> Negotiation {
    Negotiation {
        from: String::from(from),
        to: String::from(to),
        session_id: String::from(sid),
    }
}

#[test]
fn register_then_snapshot_includes_peer() {
    let mut s = Signaler::new(test_config());
    let mut conn = ConnState::new();
    register(&mut s, &mut conn, "p1");
    assert_eq!(conn.registered.as_deref(), Some("p1"));
    let snap = s.snapshot();
    assert!(snap.iter().any(|p| p.id == "p1"));
}

#[test]
fn disconnect_excludes_peer_from_snapshots() {
    let mut s = Signaler::new(test_config());
    let mut c1 = ConnState::new();
    let mut c2 = ConnState::new();
    register(&mut s, &mut c1, "p1");
    register(&mut s, &mut c2, "p2");
    let out = s.handle_disconnect(&c1);
    assert!(out.reply.is_empty());
    let snap = s.snapshot();
    assert!(!snap.iter().any(|p| p.id == "p1"));
    assert!(snap.iter().any(|p| p.id == "p2"));
    for d in &out.sends {
        match &d.message {
            Method::Peers(infos) => assert!(!infos.iter().any(|p| p.id == "p1")),
            other => panic!("expected a peers update, got {:?}", other),
        }
    }
}

#[test]
fn register_broadcasts_to_all_peers() {
    let mut s = Signaler::new(test_config());
    let mut c1 = ConnState::new();
    let mut c2 = ConnState::new();
    register(&mut s, &mut c1, "a");
    let pi = PeerInfo {
        id: String::from("b"),
        name: String::from("name-b"),
        user_agent: String::from("agent"),
    };
    let out = s.handle_message_at(&mut c2, Method::New(pi), 0);
    let mut targets: Vec<String> = out.sends.iter().map(|d| d.to.clone()).collect();
    targets.sort();
    assert_eq!(targets, vec![String::from("a"), String::from("b")]);
    for d in &out.sends {
        match &d.message {
            Method::Peers(infos) => {
                assert_eq!(infos.len(), 2);
                assert!(infos.iter().any(|p| p.id == "b"));
            }
            other => panic!("expected a peers update, got {:?}", other),
        }
    }
}

#[test]
fn offer_then_answer_moves_session_to_connected() {
    let mut s = Signaler::new(test_config());
    let mut ca = ConnState::new();
    let mut cb = ConnState::new();
    register(&mut s, &mut ca, "a");
    register(&mut s, &mut cb, "b");

    let out = s.handle_message_at(
        &mut ca,
        Method::Offer(nego("a", "b", "a-b"), String::from("{\"sdp\":\"x\"}")),
        7,
    );
    assert_eq!(out.sends.len(), 1);
    assert_eq!(out.sends[0].to, "b");
    assert!(matches!(&out.sends[0].message, Method::Offer(n, p) if n.session_id == "a-b" && p == "{\"sdp\":\"x\"}"));
    {
        let session = s.sessions.get(&String::from("a-b")).expect("session created");
        assert!(matches!(session.status, CallStatus::Calling));
        assert_eq!(session.caller_id, "a");
        assert_eq!(session.callee_id, "b");
        assert_eq!(session.started_at, 7);
    }

    let out = s.handle_message_at(
        &mut cb,
        Method::Answer(nego("b", "a", "a-b"), String::from("{\"sdp\":\"y\"}")),
        8,
    );
    assert_eq!(out.sends.len(), 1);
    assert_eq!(out.sends[0].to, "a");
    let session = s.sessions.get(&String::from("a-b")).expect("session kept");
    assert!(matches!(session.status, CallStatus::Connected));
}

#[test]
fn offer_to_absent_peer_errors_and_ends_session() {
    let mut s = Signaler::new(test_config());
    let mut ca = ConnState::new();
    register(&mut s, &mut ca, "a");
    let out = s.handle_message_at(
        &mut ca,
        Method::Offer(nego("a", "b", "a-b"), String::from("{}")),
        0,
    );
    assert!(out.sends.is_empty());
    assert_eq!(out.reply.len(), 1);
    match &out.reply[0] {
        Method::Error(e) => {
            assert_eq!(e.request, "offer");
            assert_eq!(e.reason, "Recipient [b] not available");
        }
        other => panic!("expected an error envelope, got {:?}", other),
    }
    let session = s.sessions.get(&String::from("a-b")).expect("session created");
    assert!(matches!(session.status, CallStatus::Ended));
}

#[test]
fn answer_to_absent_peer_errors() {
    let mut s = Signaler::new(test_config());
    let mut cb = ConnState::new();
    register(&mut s, &mut cb, "b");
    let out = s.handle_message_at(
        &mut cb,
        Method::Answer(nego("b", "a", "a-b"), String::from("{}")),
        0,
    );
    assert!(out.sends.is_empty());
    assert_eq!(out.reply.len(), 1);
    match &out.reply[0] {
        Method::Error(e) => {
            assert_eq!(e.request, "answer");
            assert_eq!(e.reason, "Caller [a] no longer available");
        }
        other => panic!("expected an error envelope, got {:?}", other),
    }
}

#[test]
fn bye_relayed_exactly_once_to_other_party() {
    let mut s = Signaler::new(test_config());
    let mut ca = ConnState::new();
    let mut cb = ConnState::new();
    register(&mut s, &mut ca, "a");
    register(&mut s, &mut cb, "b");
    s.handle_message_at(
        &mut ca,
        Method::Offer(nego("a", "b", "a-b"), String::from("{}")),
        0,
    );
    let bye = Byebye { session_id: String::from("a-b"), from: String::from("a") };
    let out = s.handle_message_at(&mut ca, Method::Bye(bye), 1);
    assert_eq!(out.sends.len(), 1);
    assert_eq!(out.sends[0].to, "b");
    assert!(matches!(&out.sends[0].message, Method::Bye(b) if b.session_id == "a-b" && b.from == "a"));
    let session = s.sessions.get(&String::from("a-b")).expect("session kept");
    assert!(matches!(session.status, CallStatus::Ended));
}

#[test]
fn bye_with_malformed_session_id_relays_nothing() {
    let mut s = Signaler::new(test_config());
    let mut ca = ConnState::new();
    let mut cb = ConnState::new();
    register(&mut s, &mut ca, "a");
    register(&mut s, &mut cb, "b");
    for sid in ["abc", "a-b-c"] {
        let bye = Byebye { session_id: String::from(sid), from: String::from("a") };
        let out = s.handle_message_at(&mut ca, Method::Bye(bye), 0);
        assert!(out.sends.is_empty(), "no relay expected for {:?}", sid);
        assert!(out.reply.is_empty());
    }
}

#[test]
fn candidate_forwarded_verbatim_or_dropped() {
    let mut s = Signaler::new(test_config());
    let mut ca = ConnState::new();
    let mut cb = ConnState::new();
    register(&mut s, &mut ca, "a");
    register(&mut s, &mut cb, "b");
    let out = s.handle_message_at(
        &mut ca,
        Method::Candidate(nego("a", "b", "a-b"), String::from("{\"candidate\":\"c\"}")),
        0,
    );
    assert_eq!(out.sends.len(), 1);
    assert_eq!(out.sends[0].to, "b");
    assert!(matches!(&out.sends[0].message, Method::Candidate(_, p) if p == "{\"candidate\":\"c\"}"));

    let out = s.handle_message_at(
        &mut ca,
        Method::Candidate(nego("a", "zzz", "a-zzz"), String::from("{}")),
        0,
    );
    assert!(out.sends.is_empty());
    assert!(out.reply.is_empty());
}

#[test]
fn keepalive_echoed_to_sender_only() {
    let mut s = Signaler::new(test_config());
    let mut conn = ConnState::new();
    let out = s.handle_message_at(&mut conn, Method::Keepalive, 0);
    assert!(out.sends.is_empty());
    assert_eq!(out.reply.len(), 1);
    assert!(matches!(out.reply[0], Method::Keepalive));
}

#[test]
fn server_originated_kinds_are_ignored() {
    let mut s = Signaler::new(test_config());
    let mut conn = ConnState::new();
    let msgs = vec![
        Method::Leave(String::from("x")),
        Method::Peers(Vec::new()),
        Method::Error(webrtc_signaler::messages::SignalingError {
            request: String::from("r"),
            reason: String::from("why"),
        }),
    ];
    for m in msgs {
        let out = s.handle_message_at(&mut conn, m, 0);
        assert!(out.sends.is_empty());
        assert!(out.reply.is_empty());
    }
}

#[test]
fn relay_failure_ends_session_and_reports() {
    let mut s = Signaler::new(test_config());
    let mut ca = ConnState::new();
    let mut cb = ConnState::new();
    register(&mut s, &mut ca, "a");
    register(&mut s, &mut cb, "b");
    s.handle_message_at(
        &mut ca,
        Method::Offer(nego("a", "b", "a-b"), String::from("{}")),
        0,
    );
    let out = s.handle_relay_failure(
        RelayKind::Offer,
        &String::from("a-b"),
        &String::from("b"),
    );
    assert!(out.sends.is_empty());
    assert_eq!(out.reply.len(), 1);
    match &out.reply[0] {
        Method::Error(e) => {
            assert_eq!(e.request, "offer");
            assert_eq!(e.reason, "Recipient [b] unreachable");
        }
        other => panic!("expected an error envelope, got {:?}", other),
    }
    let session = s.sessions.get(&String::from("a-b")).expect("session kept");
    assert!(matches!(session.status, CallStatus::Ended));
}

#[test]
fn reregistering_replaces_entry() {
    let mut s = Signaler::new(test_config());
    let mut c1 = ConnState::new();
    let mut c2 = ConnState::new();
    register(&mut s, &mut c1, "p1");
    let pi = PeerInfo {
        id: String::from("p1"),
        name: String::from("second"),
        user_agent: String::from("agent2"),
    };
    s.handle_message_at(&mut c2, Method::New(pi), 0);
    let snap = s.snapshot();
    assert_eq!(snap.len(), 1);
    assert_eq!(snap[0].name, "second");
}
