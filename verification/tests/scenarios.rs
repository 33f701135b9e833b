//! End-to-end scenarios, driving a client and a server pair by hand the
//! way an embedding transport would.
use simplenet::{
    encode_client_frame, encode_server_frame, AuthRequest, Authenticator, Client, ClientAction,
    ClientConfig, ClientEvent, ClientFactory, ClientReport, CloseCode, ConnectionRejection,
    EnvType, RateLimitConfig, Server, ServerAction, ServerConfig, ServerEvent, ServerFactory,
    ServerReport,
};

fn new_server(version: &'static str, max_connections: u64) -> Server {
    ServerFactory::new(version).new_server(
        Authenticator::Open,
        ServerConfig {
            max_connections,
            max_msg_size: 1024,
            rate_limit_config: RateLimitConfig { period_ms: 1000, max_count: 100 },
            heartbeat_interval_ms: 5000,
            keepalive_timeout_ms: 10000,
        },
        String::from("ws://127.0.0.1:8080/ws"),
    )
}

fn new_client(version: &'static str, id: u128) -> Client {
    ClientFactory::new(version).new_client(
        AuthRequest::Anonymous { client_id: id },
        ClientConfig {
            reconnect_interval_ms: 100,
            max_initial_connect_attempts: 3,
            max_reconnect_attempts: 2,
            heartbeat_interval_ms: 5000,
            keepalive_timeout_ms: 10000,
            max_msg_size: 1024,
        },
        vec![],
    )
}

fn drain_client(client: &mut Client) -> Vec<ClientEvent> {
    let mut out = Vec::new();
    while let Some(ev) = client.next() {
        out.push(ev);
    }
    out
}

fn drain_server(server: &mut Server) -> Vec<(u128, ServerEvent)> {
    let mut out = Vec::new();
    while let Some(ev) = server.next() {
        out.push(ev);
    }
    out
}

/// Carry every frame the client has queued over to the server.
fn pump_client_to_server(client: &mut Client, server: &mut Server, now_ms: u64) {
    while let Some(action) = client.next_action() {
        if let ClientAction::WriteFrame(frame) = action {
            let bytes = encode_client_frame(&frame);
            server.handle_session_frame(client.id(), &bytes, now_ms);
        }
    }
}

/// Carry every frame the server has queued for this client over to it.
fn pump_server_to_client(server: &mut Server, client: &mut Client) {
    while let Some(action) = server.next_action() {
        if let ServerAction::SendFrame(id, frame) = action {
            if id == client.id() {
                let bytes = encode_server_frame(&frame);
                client.handle_server_frame(&bytes);
            }
        }
    }
}

/// With the cap at one, the first client connects, a second that raced
/// past prevalidation sees the connection and then the server-side close,
/// and closing the first admits exactly one more.
#[test]
fn capacity_one_admits_one_at_a_time() {
    let mut server = new_server("v1", 1);
    let mut a = new_client("v1", 1);
    let mut b = new_client("v1", 2);
    let mut c = new_client("v1", 3);

    // Both upgrade requests prevalidate before either session installs:
    // the optimistic check lets the second one race past the limit.
    assert!(server.prevalidate(&a.connection_request(EnvType::Native)).is_ok());
    assert!(server.prevalidate(&b.connection_request(EnvType::Native)).is_ok());

    assert!(server.install_session(1, EnvType::Native, vec![], 0));
    a.on_connected();
    assert!(server.num_connections() <= 1);

    // The racer is not installed; it is closed with the over-capacity code
    // and the server emits no connection event for it.
    assert!(!server.install_session(2, EnvType::Native, vec![], 1));
    assert!(server.num_connections() <= 1);
    b.on_connected();
    let mut over_capacity_close = false;
    while let Some(action) = server.next_action() {
        if let ServerAction::CloseSession(2, frame) = action {
            assert_eq!(frame.code, CloseCode::OverCapacity);
            over_capacity_close = true;
        }
    }
    assert!(over_capacity_close);
    b.on_closed_by_server();
    assert_eq!(
        drain_client(&mut b),
        vec![
            ClientEvent::Report(ClientReport::Connected),
            ClientEvent::Report(ClientReport::ClosedByServer),
            ClientEvent::Report(ClientReport::IsDead),
        ]
    );
    let events = drain_server(&mut server);
    assert!(events.iter().all(|(id, _)| *id != 2));

    // One slot frees, one more client gets in.
    a.close();
    server.session_closed(1);
    assert_eq!(server.num_connections(), 0);
    assert_eq!(server.prevalidate(&c.connection_request(EnvType::Native)), Ok(EnvType::Native));
    assert!(server.install_session(3, EnvType::Native, vec![], 2));
    c.on_connected();
    assert_eq!(server.num_connections(), 1);
}

/// A request travels to the server, the host responds through the token,
/// and the client observes the response under the same request id.
#[test]
fn request_response_round_trip() {
    let mut server = new_server("v1", 4);
    let mut client = new_client("v1", 1);
    assert!(server.install_session(1, EnvType::Native, vec![], 0));
    client.on_connected();
    drain_client(&mut client);
    drain_server(&mut server);

    let rid = client.request(vec![0x01]).expect("connected client accepts requests");
    assert_eq!(rid, 1);
    pump_client_to_server(&mut client, &mut server, 1);

    let mut token = None;
    for (id, ev) in drain_server(&mut server) {
        if let ServerEvent::Request(payload, t) = ev {
            assert_eq!(id, 1);
            assert_eq!(payload, vec![0x01]);
            assert_eq!(t.request_id(), 1);
            assert_eq!(t.client_id(), 1);
            token = Some(t);
        }
    }
    let token = token.expect("the request reaches the host");

    assert_eq!(server.respond(token, vec![0x02]), Ok(()));
    pump_server_to_client(&mut server, &mut client);
    assert_eq!(drain_client(&mut client), vec![ClientEvent::Response(vec![0x02], 1)]);
}

/// An acknowledged request resolves at the client without a payload,
/// under the request's id.
#[test]
fn acknowledgement_round_trip() {
    let mut server = new_server("v1", 4);
    let mut client = new_client("v1", 1);
    assert!(server.install_session(1, EnvType::Native, vec![], 0));
    client.on_connected();
    drain_client(&mut client);
    drain_server(&mut server);

    let rid = client.request(vec![0x0a]).expect("connected");
    pump_client_to_server(&mut client, &mut server, 1);
    let mut acked = 0;
    for (_, ev) in drain_server(&mut server) {
        if let ServerEvent::Request(_, token) = ev {
            assert_eq!(server.ack(token), Ok(()));
            acked += 1;
        }
    }
    assert_eq!(acked, 1);
    pump_server_to_client(&mut server, &mut client);
    assert_eq!(drain_client(&mut client), vec![ClientEvent::Ack(rid)]);
}

/// A host that will not answer hands its token back; the client observes
/// the rejection under the request's id.
#[test]
fn dropped_token_rejects_the_request() {
    let mut server = new_server("v1", 4);
    let mut client = new_client("v1", 1);
    assert!(server.install_session(1, EnvType::Native, vec![], 0));
    client.on_connected();
    drain_client(&mut client);
    drain_server(&mut server);

    // The seventh request this client ever makes carries id 7.
    let mut last_rid = 0;
    for _ in 0..7 {
        last_rid = client.request(vec![0x00]).expect("connected");
    }
    assert_eq!(last_rid, 7);
    pump_client_to_server(&mut client, &mut server, 1);

    let mut rejected = 0;
    for (_, ev) in drain_server(&mut server) {
        if let ServerEvent::Request(_, token) = ev {
            if token.request_id() == 7 {
                // The host short-circuits: the token goes back unanswered.
                server.reject(token);
                rejected += 1;
            }
        }
    }
    assert_eq!(rejected, 1);
    pump_server_to_client(&mut server, &mut client);
    assert_eq!(drain_client(&mut client), vec![ClientEvent::Reject(7)]);
}

/// A transient disconnect and reconnect within budget keeps the session
/// identity: the server reports the drop and the new connection under the
/// same session id.
#[test]
fn reconnect_preserves_identity() {
    let mut server = new_server("v1", 4);
    let mut client = new_client("v1", 42);
    assert!(server.install_session(42, EnvType::Native, vec![], 0));
    client.on_connected();
    drain_server(&mut server);
    drain_client(&mut client);

    // The socket fails under the client; the server notices.
    client.on_disconnected();
    server.session_closed(42);
    assert!(client.on_connect_attempt_failed());
    assert!(server.install_session(42, EnvType::Native, vec![], 1));
    client.on_connected();

    assert_eq!(
        drain_server(&mut server)
            .into_iter()
            .map(|(id, ev)| (
                id,
                match ev {
                    ServerEvent::Report(r) => r,
                    _ => panic!("lifecycle events only"),
                }
            ))
            .collect::<Vec<_>>(),
        vec![(42, ServerReport::Disconnected), (42, ServerReport::Connected(EnvType::Native, vec![]))]
    );
    assert_eq!(
        drain_client(&mut client),
        vec![
            ClientEvent::Report(ClientReport::Disconnected),
            ClientEvent::Report(ClientReport::Connected),
        ]
    );
    assert!(client.is_connected());
}

/// A client built for another protocol version is turned away before the
/// upgrade completes: it never observes a connection.
#[test]
fn version_mismatch_never_connects() {
    let server = new_server("v1", 4);
    let mut client = new_client("v2", 9);
    let decision = server.prevalidate(&client.connection_request(EnvType::Native));
    assert_eq!(decision, Err(ConnectionRejection::VersionMismatch));
    assert_eq!(decision.unwrap_err().http_status(), 400);

    // The transport reports the authoritative refusal; the client dies
    // without ever having been connected.
    client.on_closed_by_server();
    let events = drain_client(&mut client);
    assert!(!events.contains(&ClientEvent::Report(ClientReport::Connected)));
    assert_eq!(
        events,
        vec![
            ClientEvent::Report(ClientReport::ClosedByServer),
            ClientEvent::Report(ClientReport::IsDead),
        ]
    );
}

/// Requests in flight when the host closes the client each resolve to a
/// failure, the close is reported, and the dead report comes last.
#[test]
fn requests_fail_on_close() {
    let mut server = new_server("v1", 4);
    let mut client = new_client("v1", 1);
    assert!(server.install_session(1, EnvType::Native, vec![], 0));
    client.on_connected();
    drain_client(&mut client);

    assert_eq!(client.request(vec![0x01]), Ok(1));
    assert_eq!(client.request(vec![0x02]), Ok(2));
    assert_eq!(client.request(vec![0x03]), Ok(3));
    // The transport confirmed the write of the second request only.
    client.confirm_sent(2);

    client.close();
    client.on_dead();

    assert_eq!(
        drain_client(&mut client),
        vec![
            ClientEvent::Report(ClientReport::ClosedBySelf),
            ClientEvent::SendFailed(1),
            ClientEvent::ResponseLost(2),
            ClientEvent::SendFailed(3),
            ClientEvent::Report(ClientReport::IsDead),
        ]
    );
    assert!(client.is_dead());
    assert_eq!(client.next(), None);
}
