//! Admission checks run before a connection upgrade completes.
//!
//! The upgrade request carries four query parameters: protocol version,
//! environment type, authentication request, and an application connect
//! message. The prevalidator checks them, in order, against the server's
//! configuration and the current connection count, and on admission hands
//! back the negotiated socket configuration.
use vstd::prelude::*;
use crate::auth::{authenticate, spec_authenticate, AuthRequest, Authenticator};

verus! {

/// Query parameter carrying the protocol version.
pub const VERSION_MSG_KEY: &'static str = "v";

/// Query parameter carrying the environment type.
pub const TYPE_MSG_KEY: &'static str = "t";

/// Query parameter carrying the authentication request.
pub const AUTH_MSG_KEY: &'static str = "a";

/// Query parameter carrying the application connect message.
pub const CONNECT_MSG_KEY: &'static str = "c";

/// The kind of environment a client runs in.
#[derive(Debug, Clone, Copy, PartialEq, Eq, Structural)]
pub enum EnvType {
    /// A client that can use standard control-frame pings.
    Native,
    /// A web-style client that needs text-based heartbeats.
    Wasm,
}

/// Why an upgrade request was turned away.
#[derive(Debug, Clone, Copy, PartialEq, Eq, Structural)]
pub enum ConnectionRejection {
    /// The client speaks another protocol version.
    VersionMismatch,
    /// The environment type parameter is unrecognized.
    BadEnvType,
    /// The server is at its connection limit.
    OverCapacity,
    /// The authenticator turned the request away.
    AuthFailure,
}

impl ConnectionRejection {
    /// The HTTP status class a rejection answers the upgrade with.
    pub fn http_status(&self) -> (r: u16)
        ensures
            *self is VersionMismatch ==> r == 400,
            *self is BadEnvType ==> r == 400,
            *self is OverCapacity ==> r == 503,
            *self is AuthFailure ==> r == 401,
    {
        match self {
            ConnectionRejection::VersionMismatch => 400,
            ConnectionRejection::BadEnvType => 400,
            ConnectionRejection::OverCapacity => 503,
            ConnectionRejection::AuthFailure => 401,
        }
    }
}

/// The environment type a query parameter names, if any.
pub open spec fn spec_env_of(s: Seq<char>) -> Option<EnvType> {
    if s == "native"@ {
        Some(EnvType::Native)
    } else if s == "wasm"@ {
        Some(EnvType::Wasm)
    } else {
        None
    }
}

/// The textual name of an environment type, used in the connection query.
pub fn env_type_as_str(env: EnvType) -> (r: &'static str)
    ensures
        spec_env_of(r@) == Some(env),
{
    match env {
        EnvType::Native => {
            proof {
                reveal_strlit("native");
            }
            "native"
        }
        EnvType::Wasm => {
            proof {
                reveal_strlit("native");
                reveal_strlit("wasm");
                assert("wasm"@.len() != "native"@.len());
            }
            "wasm"
        }
    }
}

/// Parse an environment type query parameter.
pub fn parse_env_type(s: &String) -> (r: Option<EnvType>)
    ensures
        r == spec_env_of(s@),
{
    let native: String = "native".to_owned();
    if *s == native {
        return Some(EnvType::Native);
    }
    let wasm: String = "wasm".to_owned();
    if *s == wasm {
        return Some(EnvType::Wasm);
    }
    None
}

/// The decoded query parameters of one upgrade request.
///
/// The embedding application extracts these from the request URL and hands
/// them over as plain values; payload bytes stay opaque.
#[derive(Debug, Clone)]
pub struct ConnectionRequest {
    /// The protocol version the client was built with.
    pub protocol_version: String,
    /// The environment type parameter, still unparsed.
    pub env_type: String,
    /// The decoded authentication request.
    pub auth: AuthRequest,
    /// The application connect message, as opaque bytes.
    pub connect_msg: Vec<u8>,
}

/// Admission checks and negotiated socket parameters of one server.
#[derive(Debug, Clone)]
pub struct ConnectionPrevalidator {
    /// The protocol version this server accepts.
    pub protocol_version: String,
    /// The admission predicate over authentication requests.
    pub authenticator: Authenticator,
    /// How many connections may exist at once.
    pub max_connections: u64,
    /// Upper bound on an encoded frame's size, in bytes.
    pub max_msg_size: usize,
    /// How often to probe liveness, in milliseconds.
    pub heartbeat_interval_ms: u64,
    /// How long an unanswered probe may stand before the link counts as
    /// broken, in milliseconds.
    pub keepalive_timeout_ms: u64,
}

/// What prevalidation decides: checks run in a fixed order, and the first
/// failure names the rejection.
pub open spec fn spec_prevalidate(
    p: ConnectionPrevalidator,
    r: ConnectionRequest,
    count: u64,
) -> Result<EnvType, ConnectionRejection> {
    if r.protocol_version@ != p.protocol_version@ {
        Err(ConnectionRejection::VersionMismatch)
    } else if spec_env_of(r.env_type@) is None {
        Err(ConnectionRejection::BadEnvType)
    } else if count >= p.max_connections {
        Err(ConnectionRejection::OverCapacity)
    } else if !spec_authenticate(p.authenticator@, r.auth@) {
        Err(ConnectionRejection::AuthFailure)
    } else {
        Ok(spec_env_of(r.env_type@)->Some_0)
    }
}

/// Gate one upgrade request against the server's configuration and the
/// current connection count.
///
/// Succeeds, returning the client's environment type, exactly when the
/// protocol version matches, the environment type is recognized, the
/// connection count is under the limit, and the authenticator admits the
/// request — in that order of precedence on failure.
pub fn prevalidate_connection_request(
    p: &ConnectionPrevalidator,
    r: &ConnectionRequest,
    count: u64,
) -> (decision: Result<EnvType, ConnectionRejection>)
    ensures
        decision == spec_prevalidate(*p, *r, count),
{
    if !(r.protocol_version == p.protocol_version) {
        return Err(ConnectionRejection::VersionMismatch);
    }
    let env = parse_env_type(&r.env_type);
    match env {
        None => Err(ConnectionRejection::BadEnvType),
        Some(env) => {
            if count >= p.max_connections {
                Err(ConnectionRejection::OverCapacity)
            } else if !authenticate(&p.authenticator, &r.auth) {
                Err(ConnectionRejection::AuthFailure)
            } else {
                Ok(env)
            }
        }
    }
}

/// The socket parameters a session runs with.
#[derive(Debug, Clone, Copy, PartialEq, Eq, Structural)]
pub struct SocketConfig {
    /// How often to probe liveness, in milliseconds.
    pub heartbeat_interval_ms: u64,
    /// How long an unanswered probe may stand, in milliseconds.
    pub keepalive_timeout_ms: u64,
    /// Whether heartbeats ride on text frames holding the sentinel payload
    /// instead of control-frame pings.
    pub text_ping: bool,
}

/// The socket configuration negotiated for an admitted client.
///
/// Web-style clients cannot send control-frame pings, so for them liveness
/// probes are carried as sentinel text frames.
pub fn socket_config(p: &ConnectionPrevalidator, client_env_type: EnvType) -> (r: SocketConfig)
    ensures
        r.heartbeat_interval_ms == p.heartbeat_interval_ms,
        r.keepalive_timeout_ms == p.keepalive_timeout_ms,
        r.text_ping == (client_env_type is Wasm),
{
    SocketConfig {
        heartbeat_interval_ms: p.heartbeat_interval_ms,
        keepalive_timeout_ms: p.keepalive_timeout_ms,
        text_ping: match client_env_type {
            EnvType::Native => false,
            EnvType::Wasm => true,
        },
    }
}

} // verus!
