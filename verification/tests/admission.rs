//! Prevalidation of upgrade requests, and the authenticator.
use simplenet::{
    authenticate, prevalidate_connection_request, socket_config, AuthRequest, Authenticator,
    ConnectionPrevalidator, ConnectionRejection, ConnectionRequest, EnvType,
};

fn prevalidator(authenticator: Authenticator, max_connections: u64) -> ConnectionPrevalidator {
    ConnectionPrevalidator {
        protocol_version: String::from("v1"),
        authenticator,
        max_connections,
        max_msg_size: 1024,
        heartbeat_interval_ms: 5000,
        keepalive_timeout_ms: 10000,
    }
}

fn request(version: &str, env: &str, auth: AuthRequest) -> ConnectionRequest {
    ConnectionRequest {
        protocol_version: String::from(version),
        env_type: String::from(env),
        auth,
        connect_msg: vec![0x42],
    }
}

#[test]
fn all_checks_passing_admits_with_env_type() {
    let p = prevalidator(Authenticator::Open, 10);
    let r = request("v1", "native", AuthRequest::Anonymous { client_id: 1 });
    assert_eq!(prevalidate_connection_request(&p, &r, 0), Ok(EnvType::Native));
    let r = request("v1", "wasm", AuthRequest::Anonymous { client_id: 1 });
    assert_eq!(prevalidate_connection_request(&p, &r, 9), Ok(EnvType::Wasm));
}

#[test]
fn version_mismatch_is_a_400_class_reject() {
    let p = prevalidator(Authenticator::Open, 10);
    let r = request("v2", "native", AuthRequest::Anonymous { client_id: 1 });
    let decision = prevalidate_connection_request(&p, &r, 0);
    assert_eq!(decision, Err(ConnectionRejection::VersionMismatch));
    assert_eq!(ConnectionRejection::VersionMismatch.http_status(), 400);
}

#[test]
fn unknown_env_type_is_a_400_class_reject() {
    let p = prevalidator(Authenticator::Open, 10);
    let r = request("v1", "mainframe", AuthRequest::Anonymous { client_id: 1 });
    assert_eq!(prevalidate_connection_request(&p, &r, 0), Err(ConnectionRejection::BadEnvType));
    assert_eq!(ConnectionRejection::BadEnvType.http_status(), 400);
}

#[test]
fn at_capacity_is_a_503_class_reject() {
    let p = prevalidator(Authenticator::Open, 3);
    let r = request("v1", "native", AuthRequest::Anonymous { client_id: 1 });
    assert_eq!(prevalidate_connection_request(&p, &r, 3), Err(ConnectionRejection::OverCapacity));
    assert_eq!(ConnectionRejection::OverCapacity.http_status(), 503);
}

#[test]
fn failed_authentication_is_a_401_class_reject() {
    let p = prevalidator(Authenticator::Secret { secret: vec![1, 2, 3] }, 10);
    let r = request("v1", "native", AuthRequest::Secret { client_id: 1, secret: vec![9] });
    assert_eq!(prevalidate_connection_request(&p, &r, 0), Err(ConnectionRejection::AuthFailure));
    assert_eq!(ConnectionRejection::AuthFailure.http_status(), 401);
}

#[test]
fn checks_run_in_a_fixed_order() {
    // A request failing several checks reports the first failure: version
    // outranks environment, environment outranks capacity, capacity
    // outranks authentication.
    let p = prevalidator(Authenticator::Secret { secret: vec![1] }, 0);
    let bad_everything = request("v9", "toaster", AuthRequest::Anonymous { client_id: 1 });
    assert_eq!(
        prevalidate_connection_request(&p, &bad_everything, 5),
        Err(ConnectionRejection::VersionMismatch)
    );
    let bad_env = request("v1", "toaster", AuthRequest::Anonymous { client_id: 1 });
    assert_eq!(
        prevalidate_connection_request(&p, &bad_env, 5),
        Err(ConnectionRejection::BadEnvType)
    );
    let over_capacity = request("v1", "native", AuthRequest::Anonymous { client_id: 1 });
    assert_eq!(
        prevalidate_connection_request(&p, &over_capacity, 5),
        Err(ConnectionRejection::OverCapacity)
    );
}

#[test]
fn authenticator_variants() {
    let anon = AuthRequest::Anonymous { client_id: 7 };
    let token = AuthRequest::Token { client_id: 7, token: vec![0xaa] };
    let secret = AuthRequest::Secret { client_id: 7, secret: vec![0xbb] };
    assert_eq!(anon.client_id(), 7);
    assert_eq!(token.client_id(), 7);
    assert_eq!(secret.client_id(), 7);

    assert!(authenticate(&Authenticator::Open, &anon));
    assert!(authenticate(&Authenticator::Open, &token));
    assert!(authenticate(&Authenticator::Token { key: vec![0xaa] }, &token));
    assert!(!authenticate(&Authenticator::Token { key: vec![0xab] }, &token));
    assert!(!authenticate(&Authenticator::Token { key: vec![0xaa] }, &anon));
    assert!(authenticate(&Authenticator::Secret { secret: vec![0xbb] }, &secret));
    assert!(!authenticate(&Authenticator::Secret { secret: vec![] }, &secret));
    assert!(!authenticate(&Authenticator::Secret { secret: vec![0xbb] }, &token));
}

#[test]
fn negotiated_socket_config_follows_env_type() {
    let p = prevalidator(Authenticator::Open, 10);
    let native = socket_config(&p, EnvType::Native);
    assert_eq!(native.heartbeat_interval_ms, 5000);
    assert_eq!(native.keepalive_timeout_ms, 10000);
    assert!(!native.text_ping);
    let wasm = socket_config(&p, EnvType::Wasm);
    assert!(wasm.text_ping);
}
