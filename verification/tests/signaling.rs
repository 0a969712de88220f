use autodesk::{ClientMessage, ClientRole, Outgoing, ServerMessage, SignalingState};

fn out(to: &str, message: ServerMessage) -> Outgoing {
    Outgoing { to: to.to_string(), message }
}

fn paired() -> SignalingState {
    let mut s = SignalingState::new();
    s.add_client("host".to_string());
    s.add_client("ctl".to_string());
    s.register_host("host", "123456789".to_string(), "654321".to_string());
    s.connect("ctl", "123456789", "654321");
    s
}

#[test]
fn new_connection_joins_as_controller() {
    let mut s = SignalingState::new();
    s.add_client("a".to_string());
    let c = s.client("a").unwrap();
    assert_eq!(c.role, ClientRole::Control);
    assert_eq!(c.peer_id, None);
    assert!(s.client("b").is_none());
}

#[test]
fn open_connection_gives_uuid_id() {
    let mut s = SignalingState::new();
    let id = s.open_connection();
    assert_eq!(id.len(), 36);
    for (i, ch) in id.chars().enumerate() {
        if i == 8 || i == 13 || i == 18 || i == 23 {
            assert_eq!(ch, '-');
        } else {
            assert!(ch.is_ascii_digit() || ('a'..='f').contains(&ch));
        }
    }
    assert_eq!(s.client(&id).unwrap().role, ClientRole::Control);
}

#[test]
fn register_host_draws_code_and_password() {
    let mut s = SignalingState::new();
    s.add_client("h".to_string());
    let o = s.handle_client_message("h", ClientMessage::RegisterHost);
    assert_eq!(o.len(), 1);
    assert_eq!(o[0].to, "h");
    match &o[0].message {
        ServerMessage::Registered { code, password, client_id } => {
            assert_eq!(code.len(), 9);
            assert!(code.chars().all(|c| c.is_ascii_digit()));
            assert_eq!(password.len(), 6);
            assert!(password.chars().all(|c| c.is_ascii_digit()));
            assert_eq!(client_id, "h");
            let session = s.session(code).unwrap();
            assert_eq!(session.host_id, "h");
            assert_eq!(&session.password, password);
            assert_eq!(session.control_id, None);
        }
        other => panic!("unexpected reply {:?}", other),
    }
    assert_eq!(s.client("h").unwrap().role, ClientRole::Host);
}

#[test]
fn register_host_with_given_values() {
    let mut s = SignalingState::new();
    s.add_client("h".to_string());
    let o = s.register_host("h", "000000001".to_string(), "000002".to_string());
    assert_eq!(
        o,
        vec![out(
            "h",
            ServerMessage::Registered {
                code: "000000001".to_string(),
                password: "000002".to_string(),
                client_id: "h".to_string(),
            }
        )]
    );
}

#[test]
fn connect_with_right_password_pairs_both_sides() {
    let mut s = SignalingState::new();
    s.add_client("host".to_string());
    s.add_client("ctl".to_string());
    s.register_host("host", "123456789".to_string(), "654321".to_string());
    let o = s.handle_client_message(
        "ctl",
        ClientMessage::Connect { code: "123456789".to_string(), password: "654321".to_string() },
    );
    assert_eq!(
        o,
        vec![
            out("host", ServerMessage::PeerConnected { peer_id: "ctl".to_string() }),
            out(
                "ctl",
                ServerMessage::ConnectResult {
                    success: true,
                    message: "Connected successfully".to_string()
                }
            ),
        ]
    );
    assert_eq!(s.client("ctl").unwrap().peer_id, Some("host".to_string()));
    assert_eq!(s.client("ctl").unwrap().role, ClientRole::Control);
    assert_eq!(s.client("host").unwrap().peer_id, Some("ctl".to_string()));
    assert_eq!(s.client("host").unwrap().role, ClientRole::Host);
    assert_eq!(s.session("123456789").unwrap().control_id, Some("ctl".to_string()));
}

#[test]
fn connect_with_wrong_password_is_refused() {
    let mut s = SignalingState::new();
    s.add_client("host".to_string());
    s.add_client("ctl".to_string());
    s.register_host("host", "123456789".to_string(), "654321".to_string());
    let o = s.connect("ctl", "123456789", "111111");
    assert_eq!(
        o,
        vec![out(
            "ctl",
            ServerMessage::ConnectResult { success: false, message: "Invalid password".to_string() }
        )]
    );
    assert_eq!(s.client("ctl").unwrap().peer_id, None);
    assert_eq!(s.session("123456789").unwrap().control_id, None);
}

#[test]
fn connect_with_unknown_code_is_refused() {
    let mut s = SignalingState::new();
    s.add_client("ctl".to_string());
    let o = s.connect("ctl", "999999999", "654321");
    assert_eq!(
        o,
        vec![out(
            "ctl",
            ServerMessage::ConnectResult {
                success: false,
                message: "Invalid connection code".to_string()
            }
        )]
    );
}

#[test]
fn connect_when_host_is_gone_still_succeeds_without_notice() {
    let mut s = SignalingState::new();
    s.add_client("ctl".to_string());
    s.register_host("ghost", "123456789".to_string(), "654321".to_string());
    let o = s.connect("ctl", "123456789", "654321");
    assert_eq!(
        o,
        vec![out(
            "ctl",
            ServerMessage::ConnectResult {
                success: true,
                message: "Connected successfully".to_string()
            }
        )]
    );
    assert_eq!(s.client("ctl").unwrap().peer_id, Some("ghost".to_string()));
}

#[test]
fn sdp_is_relayed_to_peer() {
    let mut s = paired();
    let o = s.handle_client_message(
        "ctl",
        ClientMessage::Sdp { sdp: "v=0".to_string(), sdp_type: "offer".to_string() },
    );
    assert_eq!(
        o,
        vec![out("host", ServerMessage::Sdp { sdp: "v=0".to_string(), sdp_type: "offer".to_string() })]
    );
    let o = s.handle_client_message(
        "host",
        ClientMessage::Sdp { sdp: "v=1".to_string(), sdp_type: "answer".to_string() },
    );
    assert_eq!(
        o,
        vec![out("ctl", ServerMessage::Sdp { sdp: "v=1".to_string(), sdp_type: "answer".to_string() })]
    );
}

#[test]
fn ice_candidate_is_relayed_to_peer() {
    let mut s = paired();
    let o = s.handle_client_message(
        "host",
        ClientMessage::IceCandidate {
            candidate: "cand".to_string(),
            sdp_mid: Some("0".to_string()),
            sdp_m_line_index: Some(0),
        },
    );
    assert_eq!(
        o,
        vec![out(
            "ctl",
            ServerMessage::IceCandidate {
                candidate: "cand".to_string(),
                sdp_mid: Some("0".to_string()),
                sdp_m_line_index: Some(0),
            }
        )]
    );
}

#[test]
fn relay_without_peer_sends_nothing() {
    let mut s = SignalingState::new();
    s.add_client("a".to_string());
    let o = s.handle_client_message(
        "a",
        ClientMessage::Sdp { sdp: "x".to_string(), sdp_type: "offer".to_string() },
    );
    assert!(o.is_empty());
    let o = s.forward_to_peer("nobody", ServerMessage::Error { message: "x".to_string() });
    assert!(o.is_empty());
}

#[test]
fn malformed_frame_gets_error_reply() {
    let mut s = SignalingState::new();
    s.add_client("a".to_string());
    let o = s.handle_text_frame("a", None);
    assert_eq!(
        o,
        vec![out("a", ServerMessage::Error { message: "Invalid message format".to_string() })]
    );
}

#[test]
fn text_frame_with_request_is_handled() {
    let mut s = SignalingState::new();
    s.add_client("ctl".to_string());
    let o = s.handle_text_frame(
        "ctl",
        Some(ClientMessage::Connect { code: "1".to_string(), password: "2".to_string() }),
    );
    assert_eq!(
        o,
        vec![out(
            "ctl",
            ServerMessage::ConnectResult {
                success: false,
                message: "Invalid connection code".to_string()
            }
        )]
    );
}

#[test]
fn host_disconnect_closes_sessions_and_notifies_peer() {
    let mut s = paired();
    s.register_host("host", "222222222".to_string(), "111111".to_string());
    s.add_client("other".to_string());
    s.register_host("other", "333333333".to_string(), "000000".to_string());
    let o = s.cleanup_client("host");
    assert_eq!(
        o,
        vec![out("ctl", ServerMessage::Error { message: "Peer disconnected".to_string() })]
    );
    assert!(s.client("host").is_none());
    assert!(s.session("123456789").is_none());
    assert!(s.session("222222222").is_none());
    assert_eq!(s.session("333333333").unwrap().host_id, "other");
    assert_eq!(s.client("ctl").unwrap().peer_id, None);
}

#[test]
fn controller_disconnect_keeps_sessions() {
    let mut s = paired();
    let o = s.cleanup_client("ctl");
    assert_eq!(
        o,
        vec![out("host", ServerMessage::Error { message: "Peer disconnected".to_string() })]
    );
    assert!(s.client("ctl").is_none());
    assert_eq!(s.client("host").unwrap().peer_id, None);
    assert_eq!(s.session("123456789").unwrap().control_id, Some("ctl".to_string()));
}

#[test]
fn unknown_disconnect_is_noop() {
    let mut s = paired();
    let o = s.cleanup_client("stranger");
    assert!(o.is_empty());
    assert!(s.client("host").is_some());
    assert!(s.session("123456789").is_some());
}
