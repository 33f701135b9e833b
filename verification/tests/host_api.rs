//! Edges of the host-facing client and server APIs.
use simplenet::{
    encode_client_frame, encode_server_frame, AuthRequest, Authenticator, Client, ClientAction,
    ClientConfig, ClientError, ClientEvent, ClientFactory, ClientFrame, ClientReport, CloseCode,
    CloseFrame, EnvType, RateLimitConfig, RequestStatus, Server, ServerAction, ServerConfig,
    ServerEvent, ServerFactory, ServerFrame, ServerReport,
};

fn new_server(max_msg_size: usize) -> Server {
    ServerFactory::new("v1").new_server(
        Authenticator::Open,
        ServerConfig {
            max_connections: 4,
            max_msg_size,
            rate_limit_config: RateLimitConfig { period_ms: 1000, max_count: 100 },
            heartbeat_interval_ms: 5000,
            keepalive_timeout_ms: 10000,
        },
        String::from("ws://127.0.0.1:8080/ws"),
    )
}

fn new_client(max_msg_size: usize) -> Client {
    ClientFactory::new("v1").new_client(
        AuthRequest::Anonymous { client_id: 1 },
        ClientConfig {
            reconnect_interval_ms: 100,
            max_initial_connect_attempts: 2,
            max_reconnect_attempts: 1,
            heartbeat_interval_ms: 5000,
            keepalive_timeout_ms: 10000,
            max_msg_size,
        },
        vec![0xc0],
    )
}

#[test]
fn disconnected_client_refuses_submissions() {
    let mut client = new_client(1024);
    assert!(!client.is_connected());
    assert_eq!(client.send(vec![1]), Err(ClientError::SendError));
    assert_eq!(client.request(vec![1]), Err(ClientError::SendError));
    client.on_connected();
    assert!(client.is_connected());
    assert_eq!(client.send(vec![1]), Ok(()));
    client.close();
    // Closed clients refuse as well, even though the link is still up.
    assert_eq!(client.send(vec![1]), Err(ClientError::SendError));
    assert_eq!(client.request(vec![1]), Err(ClientError::SendError));
}

#[test]
fn oversize_submission_fails_and_burns_the_id() {
    let mut client = new_client(16);
    client.on_connected();
    assert_eq!(client.request(vec![0u8; 64]), Err(ClientError::SendError));
    // The reserved id is burned; the next request takes the next id.
    assert_eq!(client.request(vec![0x01]), Ok(2));
    assert_eq!(client.request_status(1), None);
    assert_eq!(client.request_status(2), Some(RequestStatus::Sending));
    client.confirm_sent(2);
    assert_eq!(client.request_status(2), Some(RequestStatus::Sent));
}

#[test]
fn write_failure_aborts_the_request() {
    let mut client = new_client(1024);
    client.on_connected();
    assert_eq!(client.request(vec![0x01]), Ok(1));
    drain_client_events(&mut client);
    client.write_failed(1);
    assert_eq!(client.request_status(1), Some(RequestStatus::Aborted));
    assert_eq!(drain_client_events(&mut client), vec![ClientEvent::SendFailed(1)]);
    // The terminal status holds against a late answer.
    client.write_failed(1);
    assert_eq!(drain_client_events(&mut client), vec![]);
}

#[test]
fn disconnect_sweeps_every_outstanding_request() {
    let mut client = new_client(1024);
    client.on_connected();
    assert_eq!(client.request(vec![0x01]), Ok(1));
    assert_eq!(client.request(vec![0x02]), Ok(2));
    client.confirm_sent(1);
    drain_client_events(&mut client);

    client.on_disconnected();
    assert_eq!(
        drain_client_events(&mut client),
        vec![
            ClientEvent::ResponseLost(1),
            ClientEvent::SendFailed(2),
            ClientEvent::Report(ClientReport::Disconnected),
        ]
    );
    // Both outcomes are final: a late response resolves nothing.
    let late = encode_server_frame(&ServerFrame::Response(vec![9], 1));
    client.handle_server_frame(&late);
    assert_eq!(drain_client_events(&mut client), vec![]);
}

#[test]
fn attempt_budgets_are_separate_and_exhaustion_kills() {
    let mut client = new_client(1024);
    // Two initial attempts are allowed: the first failure retries.
    assert!(client.on_connect_attempt_failed());
    client.on_connected();
    client.on_disconnected();
    // One reconnect attempt is allowed: its first failure is the end.
    assert!(!client.on_connect_attempt_failed());
    assert!(client.is_dead());
    let events = drain_client_events(&mut client);
    assert_eq!(events.last(), Some(&ClientEvent::Report(ClientReport::IsDead)));
}

#[test]
fn duplicate_answers_resolve_once() {
    let mut client = new_client(1024);
    client.on_connected();
    assert_eq!(client.request(vec![0x01]), Ok(1));
    drain_client_events(&mut client);
    let ack = encode_server_frame(&ServerFrame::Ack(1));
    client.handle_server_frame(&ack);
    client.handle_server_frame(&ack);
    let reject = encode_server_frame(&ServerFrame::Reject(1));
    client.handle_server_frame(&reject);
    assert_eq!(drain_client_events(&mut client), vec![ClientEvent::Ack(1)]);
    assert_eq!(client.request_status(1), Some(RequestStatus::Acked));
}

#[test]
fn server_send_edges() {
    let mut server = new_server(16);
    assert!(server.install_session(1, EnvType::Native, vec![], 0));
    // Sending to a session that is not installed is silently dropped.
    assert_eq!(server.send(9, vec![0x01]), Ok(()));
    assert!(server.next_action().is_none());
    // A deliverable message becomes a write command.
    assert_eq!(server.send(1, vec![0x01]), Ok(()));
    match server.next_action() {
        Some(ServerAction::SendFrame(1, ServerFrame::Msg(p))) => assert_eq!(p, vec![0x01]),
        other => panic!("expected a write command, got {:?}", other),
    }
    // An unencodable (oversize) outbound frame closes the session with an
    // internal error.
    assert_eq!(server.send(1, vec![0u8; 64]), Ok(()));
    assert_eq!(server.num_connections(), 0);
    match server.next_action() {
        Some(ServerAction::CloseSession(1, CloseFrame { code, .. })) => {
            assert_eq!(code, CloseCode::InternalError)
        }
        other => panic!("expected a close command, got {:?}", other),
    }
    // A dead server refuses everything.
    server.mark_dead();
    assert!(server.is_dead());
    assert_eq!(server.send(1, vec![0x01]), Err(()));
    assert_eq!(server.close_session(1, CloseFrame { code: CloseCode::Normal, reason: String::new() }), Err(()));
}

#[test]
fn answers_to_dead_destinations_are_suppressed() {
    let mut server = new_server(1024);
    let mut client = new_client(1024);
    assert!(server.install_session(1, EnvType::Native, vec![], 0));
    client.on_connected();
    assert_eq!(client.request(vec![0x01]), Ok(1));
    let frame = encode_client_frame(&ClientFrame::Request(vec![0x01], 1));
    server.handle_session_frame(1, &frame, 1);
    let mut token = None;
    while let Some((_, ev)) = server.next() {
        if let ServerEvent::Request(_, t) = ev {
            token = Some(t);
        }
    }
    let token = token.expect("request dispatched");

    // The session dies, then reconnects: the token's destination is the
    // old session, not the new one with the same id.
    assert!(!server.destination_is_dead(&token));
    server.session_closed(1);
    assert!(server.destination_is_dead(&token));
    assert!(server.install_session(1, EnvType::Native, vec![], 2));
    assert!(server.destination_is_dead(&token));
    while server.next_action().is_some() {}
    assert_eq!(server.respond(token, vec![0x02]), Ok(()));
    assert!(server.next_action().is_none());
}

#[test]
fn reinstalling_an_id_supersedes_the_old_session() {
    // Last writer wins: a new connection carrying a live id retires the
    // old session first, and tokens minted on the old session stay dead.
    let mut server = new_server(1024);
    assert!(server.install_session(1, EnvType::Native, vec![], 0));
    let frame = encode_client_frame(&ClientFrame::Request(vec![0x01], 1));
    server.handle_session_frame(1, &frame, 1);
    let mut token = None;
    while let Some((_, ev)) = server.next() {
        if let ServerEvent::Request(_, t) = ev {
            token = Some(t);
        }
    }
    let token = token.expect("request dispatched");

    assert!(server.install_session(1, EnvType::Native, vec![0x09], 2));
    assert_eq!(server.num_connections(), 1);
    match server.next_action() {
        Some(ServerAction::CloseSession(1, f)) => assert_eq!(f.code, CloseCode::Normal),
        other => panic!("expected the supersede close, got {:?}", other),
    }
    let reports: Vec<_> = {
        let mut out = Vec::new();
        while let Some((id, ev)) = server.next() {
            if let ServerEvent::Report(r) = ev {
                out.push((id, r));
            }
        }
        out
    };
    assert_eq!(
        reports,
        vec![
            (1, ServerReport::Disconnected),
            (1, ServerReport::Connected(EnvType::Native, vec![0x09])),
        ]
    );
    // The old session's token aims at a destination that no longer
    // exists; answering through it sends nothing.
    assert_eq!(server.respond(token, vec![0x02]), Ok(()));
    assert!(server.next_action().is_none());
}

#[test]
fn close_session_reports_and_commands() {
    let mut server = new_server(1024);
    assert!(server.install_session(5, EnvType::Wasm, vec![0x01], 0));
    while server.next().is_some() {}
    let frame = CloseFrame { code: CloseCode::Normal, reason: String::from("done") };
    assert_eq!(server.close_session(5, frame), Ok(()));
    assert_eq!(server.num_connections(), 0);
    match server.next() {
        Some((5, ServerEvent::Report(ServerReport::Disconnected))) => {}
        other => panic!("expected the disconnect report, got {:?}", other),
    }
    match server.next_action() {
        Some(ServerAction::CloseSession(5, f)) => {
            assert_eq!(f.code, CloseCode::Normal);
            assert_eq!(f.reason, "done");
        }
        other => panic!("expected the close command, got {:?}", other),
    }
    // Closing a session that is gone does nothing.
    let frame = CloseFrame { code: CloseCode::Normal, reason: String::new() };
    assert_eq!(server.close_session(5, frame), Ok(()));
    assert!(server.next_action().is_none());
}

#[test]
fn factories_bake_in_the_version_and_identity() {
    let server = new_server(1024);
    assert_eq!(server.url(), "ws://127.0.0.1:8080/ws");
    assert_eq!(server.num_connections(), 0);
    assert!(!server.is_dead());

    let client = new_client(1024);
    assert_eq!(client.id(), 1);
    assert!(!client.is_dead());
    assert!(!client.is_closed());
    let query = client.connection_request(EnvType::Wasm);
    assert_eq!(query.protocol_version, "v1");
    assert_eq!(query.env_type, "wasm");
    assert_eq!(query.connect_msg, vec![0xc0]);
    assert_eq!(query.auth.client_id(), 1);
}

#[test]
fn messages_arrive_in_submission_order() {
    let mut server = new_server(1024);
    let mut client = new_client(1024);
    assert!(server.install_session(1, EnvType::Native, vec![], 0));
    client.on_connected();
    while server.next().is_some() {}

    // Client to server.
    assert_eq!(client.send(vec![1]), Ok(()));
    assert_eq!(client.send(vec![2]), Ok(()));
    assert_eq!(client.send(vec![3]), Ok(()));
    let mut now: u64 = 1;
    while let Some(action) = client.next_action() {
        if let ClientAction::WriteFrame(frame) = action {
            let bytes = encode_client_frame(&frame);
            server.handle_session_frame(1, &bytes, now);
            now += 1;
        }
    }
    let mut received = Vec::new();
    while let Some((_, ev)) = server.next() {
        if let ServerEvent::Msg(p) = ev {
            received.push(p);
        }
    }
    assert_eq!(received, vec![vec![1], vec![2], vec![3]]);

    // Server to client.
    drain_client_events(&mut client);
    assert_eq!(server.send(1, vec![4]), Ok(()));
    assert_eq!(server.send(1, vec![5]), Ok(()));
    assert_eq!(server.send(1, vec![6]), Ok(()));
    while let Some(action) = server.next_action() {
        if let ServerAction::SendFrame(_, frame) = action {
            let bytes = encode_server_frame(&frame);
            client.handle_server_frame(&bytes);
        }
    }
    assert_eq!(
        drain_client_events(&mut client),
        vec![ClientEvent::Msg(vec![4]), ClientEvent::Msg(vec![5]), ClientEvent::Msg(vec![6])]
    );
}

fn drain_client_events(client: &mut Client) -> Vec<ClientEvent> {
    let mut out = Vec::new();
    while let Some(ev) = client.next() {
        out.push(ev);
    }
    out
}
