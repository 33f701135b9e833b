//! A typed, session-oriented, bidirectional messaging core.
//!
//! Clients exchange opaque payloads with a server and may issue requests
//! that resolve to exactly one terminal outcome. The modules here hold the
//! protocol logic: wire codec, rate limiting, admission control, pending
//! request tracking, request tokens, the server's session registry, and the
//! client's connection lifecycle. Transport (sockets, timers, threads) is
//! left to the embedding application, which drives these state machines
//! through their public methods.
mod auth;
mod client;
mod counter;
mod frames;
mod pending;
mod prevalidator;
mod rate_limiter;
mod server;
mod token;

pub use auth::{
    authenticate, bytes_eq, spec_authenticate, AuthRequest, AuthRequestView, Authenticator,
    AuthenticatorView,
};
pub use client::{
    lemma_ordering_within_session, lemma_request_response_round_trip, spec_failure_events, Client,
    ClientAction, ClientConfig, ClientError, ClientEvent, ClientFactory, ClientPhase,
    ClientReport,
};
pub use counter::ConnectionCounter;
pub use frames::{
    decode_client_frame, decode_server_frame, encode_client_frame, encode_server_frame,
    heartbeat_ping, heartbeat_pong, heartbeat_reply, is_heartbeat, lemma_client_codec_round_trip,
    lemma_server_codec_round_trip, spec_decode_client, spec_decode_server, spec_encode_client,
    spec_encode_server, spec_heartbeat_ping, spec_heartbeat_pong, ClientFrame, ClientFrameView,
    ServerFrame, ServerFrameView, FRAME_TAG_ACK, FRAME_TAG_MSG, FRAME_TAG_REJECT,
    FRAME_TAG_REQUEST, FRAME_TAG_RESPONSE,
};
pub use pending::{
    is_terminal, lemma_request_exclusivity, lemma_request_ids_strictly_increasing,
    lemma_resolve_then_sweep_misses, lemma_sweep_skips_terminal, lemma_sweep_then_resolve_misses,
    spec_fail_entry, spec_reserve, spec_resolve, spec_sweep,
    status_of_outcome, status_of_outcome_exec, PendingRequestTracker, RequestOutcome,
    RequestStatus, TrackerView,
};
pub use prevalidator::{
    env_type_as_str, parse_env_type, prevalidate_connection_request, socket_config,
    spec_env_of, spec_prevalidate, ConnectionPrevalidator, ConnectionRejection, ConnectionRequest,
    EnvType, SocketConfig, AUTH_MSG_KEY, CONNECT_MSG_KEY, TYPE_MSG_KEY, VERSION_MSG_KEY,
};
pub use rate_limiter::{
    lemma_rate_limiter_cap, lemma_rate_limiter_window_resets, spec_admit, RateLimitConfig,
    RateLimiter,
};
pub use server::{
    lemma_connection_cap, lemma_fresh_generation_outdates_token, spec_destination_live, spec_has_session, spec_session_idx, CloseCode,
    CloseFrame, Server, ServerAction, ServerConfig, ServerEvent, ServerFactory, ServerReport,
    SessionEntry,
};
pub use token::RequestToken;
