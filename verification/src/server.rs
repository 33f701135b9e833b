//! The server: session registry, inbound dispatch, outbound commands.
//!
//! The server is a state machine. The embedding application feeds it
//! upgrade requests, installed connections, inbound frame bytes and socket
//! terminations; it hands back host events through [`Server::next`] and
//! transport commands — frames to write, sessions to close — through
//! [`Server::next_action`]. All admission, registry, rate-limit and
//! request-token bookkeeping lives here, verified; only the socket work
//! stays outside.
use vstd::prelude::*;
use crate::auth::Authenticator;
use crate::counter::ConnectionCounter;
use crate::frames::{decode_client_frame, encode_server_frame, spec_decode_client,
    spec_encode_server, ClientFrame, ClientFrameView, ServerFrame, ServerFrameView};
use crate::prevalidator::{prevalidate_connection_request, spec_prevalidate,
    ConnectionPrevalidator, ConnectionRejection, ConnectionRequest, EnvType};
use crate::rate_limiter::{spec_admit, RateLimitConfig, RateLimiter};
use crate::token::RequestToken;

verus! {

/// Knobs a server is built with.
#[derive(Debug, Clone, Copy, PartialEq, Eq, Structural)]
pub struct ServerConfig {
    /// How many connections may exist at once.
    pub max_connections: u64,
    /// Upper bound on an encoded frame's size, in bytes.
    pub max_msg_size: usize,
    /// Inbound rate limit applied per session.
    pub rate_limit_config: RateLimitConfig,
    /// How often to probe liveness, in milliseconds.
    pub heartbeat_interval_ms: u64,
    /// How long an unanswered probe may stand, in milliseconds.
    pub keepalive_timeout_ms: u64,
}

/// Lifecycle news about one session.
#[derive(Debug, Clone, PartialEq, Eq)]
pub enum ServerReport {
    /// The session is up; carries the client's environment and its connect
    /// message.
    Connected(EnvType, Vec<u8>),
    /// The session is gone.
    Disconnected,
}

/// What the host sees from the server, always alongside the session id.
#[derive(Debug)]
pub enum ServerEvent {
    /// A lifecycle report.
    Report(ServerReport),
    /// A one-shot message from the client.
    Msg(Vec<u8>),
    /// A request from the client, with the token that answers it.
    Request(Vec<u8>, RequestToken),
}

/// Why a connection is being closed.
#[derive(Debug, Clone, Copy, PartialEq, Eq, Structural)]
pub enum CloseCode {
    /// Ordinary host-initiated close.
    Normal,
    /// The peer broke protocol or exceeded its rate limit.
    PolicyViolation,
    /// The connection raced past the connection limit.
    OverCapacity,
    /// Authentication failed.
    AuthFailure,
    /// The peer speaks another protocol version.
    VersionMismatch,
    /// An internal error, such as an unencodable frame.
    InternalError,
}

/// The close code and reason a connection is shut down with.
#[derive(Debug, Clone, PartialEq, Eq)]
pub struct CloseFrame {
    /// Why the connection is closing.
    pub code: CloseCode,
    /// Human-readable detail.
    pub reason: String,
}

/// A transport command for the embedding application.
#[derive(Debug)]
pub enum ServerAction {
    /// Write this frame to the session's socket.
    SendFrame(u128, ServerFrame),
    /// Close the session's socket with this close frame.
    CloseSession(u128, CloseFrame),
}

/// One live session in the registry.
#[derive(Debug, Clone, Copy)]
pub struct SessionEntry {
    /// The session id, equal to the authenticated client id.
    pub id: u128,
    /// Distinguishes this session from earlier ones with the same id, so
    /// tokens minted on a dead session stay dead across reconnects.
    pub gen: u64,
    /// This session's inbound rate limiter.
    pub limiter: RateLimiter,
}

/// Whether some session in the registry carries this id.
pub open spec fn spec_has_session(ss: Seq<SessionEntry>, id: u128) -> bool {
    exists|i: int| 0 <= i < ss.len() && ss[i].id == id
}

/// The index of the session carrying this id.
pub open spec fn spec_session_idx(ss: Seq<SessionEntry>, id: u128) -> int {
    choose|i: int| 0 <= i < ss.len() && ss[i].id == id
}

/// Whether a token's destination is still up: the session it was minted
/// on, not merely some session with the same client id.
pub open spec fn spec_destination_live(ss: Seq<SessionEntry>, token: RequestToken) -> bool {
    exists|i: int|
        0 <= i < ss.len() && ss[i].id == token.spec_client_id() && ss[i].gen
            == token.spec_session_gen()
}

/// A server for communicating with clients.
///
/// Produce one with a [`ServerFactory`]. The embedding application owns
/// the sockets; it reports upgrades, inbound bytes and terminations here
/// and carries out the actions queued in return.
#[derive(Debug)]
pub struct Server {
    /// Admission checks and negotiated socket parameters.
    pub prevalidator: ConnectionPrevalidator,
    /// The inbound rate limit each session starts with.
    pub rate_limit_config: RateLimitConfig,
    /// The fleet-wide connection tally.
    pub counter: ConnectionCounter,
    /// Generation for the next installed session.
    pub next_gen: u64,
    /// The live sessions.
    pub sessions: Vec<SessionEntry>,
    /// Events for the host, oldest first.
    pub events: Vec<(u128, ServerEvent)>,
    /// Transport commands for the embedding application, oldest first.
    pub actions: Vec<ServerAction>,
    /// Where clients reach this server.
    pub url: String,
    /// Whether the transport worker has stopped for good.
    pub dead: bool,
    /// The latest instant any session saw, in milliseconds.
    pub last_now_ms: u64,
}

impl Server {
    /// Registry consistency: the counter equals the number of sessions and
    /// never exceeds the limit; ids are unique; generations are fresh; all
    /// limiters run the configured policy and have not outrun the clock.
    pub open spec fn wf(&self) -> bool {
        &&& self.counter.spec_count() == self.sessions@.len()
        &&& self.counter.spec_count() <= self.prevalidator.max_connections
        &&& self.rate_limit_config.period_ms > 0
        &&& forall|i: int, j: int|
            0 <= i < j < self.sessions@.len() ==> self.sessions@[i].id != self.sessions@[j].id
        &&& forall|i: int|
            0 <= i < self.sessions@.len() ==> #[trigger] self.sessions@[i].gen < self.next_gen
        &&& forall|i: int|
            0 <= i < self.sessions@.len() ==> (#[trigger] self.sessions@[i].limiter).wf()
                && self.sessions@[i].limiter.config == self.rate_limit_config
                && self.sessions@[i].limiter.window_start_ms <= self.last_now_ms
    }

    /// The current connection count, for contracts.
    pub open spec fn spec_num_connections(&self) -> u64 {
        self.counter.spec_count()
    }

    /// Find the registry index of a session id.
    fn find_session(&self, id: u128) -> (r: Option<usize>)
        ensures
            match r {
                Some(i) => i < self.sessions@.len() && self.sessions@[i as int].id == id,
                None => !spec_has_session(self.sessions@, id),
            },
    {
        let mut i: usize = 0;
        while i < self.sessions.len()
            invariant
                i <= self.sessions@.len(),
                forall|j: int| 0 <= j < i ==> self.sessions@[j].id != id,
            decreases self.sessions@.len() - i,
        {
            if self.sessions[i].id == id {
                return Some(i);
            }
            i = i + 1;
        }
        None
    }

    /// Gate one upgrade request against configuration and current load.
    pub fn prevalidate(&self, r: &ConnectionRequest) -> (decision: Result<
        EnvType,
        ConnectionRejection,
    >)
        ensures
            decision == spec_prevalidate(self.prevalidator, *r, self.spec_num_connections()),
    {
        prevalidate_connection_request(&self.prevalidator, r, self.counter.load())
    }

    /// Install the session of an accepted upgrade.
    ///
    /// If a session with the same client id is still installed, that one is
    /// closed first — last writer wins — and its disconnection reported, so
    /// a reconnect keeps its identity. A connection that raced past the
    /// connection limit between prevalidation and installation is not
    /// installed: it is closed at once with the over-capacity code and the
    /// host hears nothing of it. Otherwise the session is installed under a
    /// fresh generation and its connection is reported.
    pub fn install_session(
        &mut self,
        client_id: u128,
        env: EnvType,
        connect_msg: Vec<u8>,
        now_ms: u64,
    ) -> (admitted: bool)
        requires
            old(self).wf(),
            !old(self).dead,
            now_ms >= old(self).last_now_ms,
            old(self).next_gen < u64::MAX,
        ensures
            final(self).wf(),
            final(self).dead == old(self).dead,
            final(self).prevalidator == old(self).prevalidator,
            final(self).rate_limit_config == old(self).rate_limit_config,
            final(self).url == old(self).url,
            ({
                let had_old = spec_has_session(old(self).sessions@, client_id);
                &&& admitted == (had_old || old(self).spec_num_connections() < old(self).prevalidator.max_connections)
                &&& (admitted ==> {
                    &&& spec_has_session(final(self).sessions@, client_id)
                    &&& (forall|k: int|
                        0 <= k < final(self).sessions@.len() && (#[trigger] final(self).sessions@[k]).id == client_id ==> final(self).sessions@[k].gen == old(self).next_gen)
                    &&& final(self).spec_num_connections() == old(self).spec_num_connections() + (
                    if had_old {
                        0int
                    } else {
                        1int
                    })
                    &&& final(self).last_now_ms == now_ms
                    &&& final(self).events@ == (if had_old {
                        old(self).events@.push(
                            (client_id, ServerEvent::Report(ServerReport::Disconnected)),
                        )
                    } else {
                        old(self).events@
                    }).push(
                        (client_id, ServerEvent::Report(ServerReport::Connected(env, connect_msg))),
                    )
                    &&& (had_old ==> final(self).actions@.len() == old(self).actions@.len() + 1
                        && final(self).actions@.drop_last() == old(self).actions@ && (final(self).actions@.last() matches ServerAction::CloseSession(id, f) && id == client_id
                        && f.code is Normal))
                    &&& (!had_old ==> final(self).actions@ == old(self).actions@)
                })
                &&& (!admitted ==> {
                    &&& final(self).sessions@ == old(self).sessions@
                    &&& final(self).spec_num_connections() == old(self).spec_num_connections()
                    &&& final(self).last_now_ms == old(self).last_now_ms
                    &&& final(self).events@ == old(self).events@
                    &&& final(self).actions@.len() == old(self).actions@.len() + 1
                    &&& final(self).actions@.drop_last() == old(self).actions@
                    &&& (final(self).actions@.last() matches ServerAction::CloseSession(id, f)
                        && id == client_id && f.code is OverCapacity)
                })
            }),
    {
        let found = self.find_session(client_id);
        match found {
            Some(i) => {
                // Last writer wins: retire the superseded session first.
                let frame = CloseFrame {
                    code: CloseCode::Normal,
                    reason: "session superseded by reconnect".to_owned(),
                };
                self.actions.push(ServerAction::CloseSession(client_id, frame));
                self.events.push((client_id, ServerEvent::Report(ServerReport::Disconnected)));
                let gen = self.next_gen;
                self.next_gen = self.next_gen + 1;
                self.sessions[i] = SessionEntry {
                    id: client_id,
                    gen,
                    limiter: RateLimiter::new(self.rate_limit_config, now_ms),
                };
                self.last_now_ms = now_ms;
                self.events.push(
                    (client_id, ServerEvent::Report(ServerReport::Connected(env, connect_msg))),
                );
                proof {
                    let ss = self.sessions@;
                    let os = old(self).sessions@;
                    assert forall|j: int| 0 <= j < ss.len() implies #[trigger] ss[j].id
                        == os[j].id by {}
                    assert(spec_has_session(ss, client_id));
                }
                true
            }
            None => {
                if self.counter.load() >= self.prevalidator.max_connections {
                    let frame = CloseFrame {
                        code: CloseCode::OverCapacity,
                        reason: "server over capacity".to_owned(),
                    };
                    self.actions.push(ServerAction::CloseSession(client_id, frame));
                    return false;
                }
                proof {
                    assert forall|j: int| 0 <= j < old(self).sessions@.len() implies old(self).sessions@[j].id != client_id by {
                        if old(self).sessions@[j].id == client_id {
                            assert(spec_has_session(old(self).sessions@, client_id));
                        }
                    }
                }
                let gen = self.next_gen;
                self.next_gen = self.next_gen + 1;
                self.counter.increment();
                self.sessions.push(
                    SessionEntry {
                        id: client_id,
                        gen,
                        limiter: RateLimiter::new(self.rate_limit_config, now_ms),
                    },
                );
                self.last_now_ms = now_ms;
                self.events.push(
                    (client_id, ServerEvent::Report(ServerReport::Connected(env, connect_msg))),
                );
                proof {
                    let ss = self.sessions@;
                    assert(ss[ss.len() - 1].id == client_id);
                    assert(spec_has_session(ss, client_id));
                }
                true
            }
        }
    }

    /// Record that a session's socket has terminated.
    ///
    /// Removes the session, decrements the tally and reports the
    /// disconnection; reports about a session that is not installed — one
    /// already replaced, or turned away over capacity — change nothing.
    pub fn session_closed(&mut self, client_id: u128) -> (was_installed: bool)
        requires
            old(self).wf(),
        ensures
            final(self).wf(),
            final(self).dead == old(self).dead,
            final(self).prevalidator == old(self).prevalidator,
            final(self).rate_limit_config == old(self).rate_limit_config,
            final(self).url == old(self).url,
            final(self).actions@ == old(self).actions@,
            final(self).last_now_ms == old(self).last_now_ms,
            was_installed == spec_has_session(old(self).sessions@, client_id),
            was_installed ==> {
                &&& !spec_has_session(final(self).sessions@, client_id)
                &&& final(self).spec_num_connections() == old(self).spec_num_connections() - 1
                &&& final(self).events@ == old(self).events@.push(
                    (client_id, ServerEvent::Report(ServerReport::Disconnected)),
                )
            },
            !was_installed ==> *final(self) == *old(self),
    {
        let found = self.find_session(client_id);
        match found {
            Some(i) => {
                self.sessions.remove(i);
                self.counter.decrement();
                self.events.push((client_id, ServerEvent::Report(ServerReport::Disconnected)));
                proof {
                    let ss = self.sessions@;
                    let os = old(self).sessions@;
                    assert forall|j: int| 0 <= j < ss.len() implies #[trigger] ss[j] == (if j
                        < i {
                        os[j]
                    } else {
                        os[j + 1]
                    }) by {}
                    assert forall|j: int| 0 <= j < ss.len() implies #[trigger] ss[j].id
                        != client_id by {}
                }
                true
            }
            None => false,
        }
    }

    /// Retire the session at a known registry index: close its socket with
    /// the given frame, drop it from the registry and report the
    /// disconnection.
    fn close_installed(&mut self, i: usize, frame: CloseFrame)
        requires
            old(self).wf(),
            i < old(self).sessions@.len(),
        ensures
            final(self).wf(),
            final(self).dead == old(self).dead,
            final(self).prevalidator == old(self).prevalidator,
            final(self).rate_limit_config == old(self).rate_limit_config,
            final(self).url == old(self).url,
            final(self).last_now_ms == old(self).last_now_ms,
            !spec_has_session(final(self).sessions@, old(self).sessions@[i as int].id),
            final(self).spec_num_connections() == old(self).spec_num_connections() - 1,
            final(self).events@ == old(self).events@.push(
                (old(self).sessions@[i as int].id, ServerEvent::Report(ServerReport::Disconnected)),
            ),
            final(self).actions@ == old(self).actions@.push(
                ServerAction::CloseSession(old(self).sessions@[i as int].id, frame),
            ),
    {
        let id = self.sessions[i].id;
        self.actions.push(ServerAction::CloseSession(id, frame));
        self.sessions.remove(i);
        self.counter.decrement();
        self.events.push((id, ServerEvent::Report(ServerReport::Disconnected)));
        proof {
            let ss = self.sessions@;
            let os = old(self).sessions@;
            assert forall|j: int| 0 <= j < ss.len() implies #[trigger] ss[j] == (if j < i {
                os[j]
            } else {
                os[j + 1]
            }) by {}
            assert forall|j: int| 0 <= j < ss.len() implies #[trigger] ss[j].id != id by {}
        }
    }

    /// Dispatch one inbound binary frame from a session's socket.
    ///
    /// Heartbeats and control frames never reach this method; the
    /// embedding application answers them at the transport. Bytes for a
    /// session that is no longer installed fall on the floor. Malformed
    /// bytes are a protocol violation and close the session, as does a
    /// frame past the rate limit; an admitted message or request becomes a
    /// host event, a request carrying a token minted for this session's
    /// generation.
    pub fn handle_session_frame(&mut self, client_id: u128, bytes: &[u8], now_ms: u64)
        requires
            old(self).wf(),
            now_ms >= old(self).last_now_ms,
        ensures
            final(self).wf(),
            final(self).dead == old(self).dead,
            final(self).prevalidator == old(self).prevalidator,
            final(self).rate_limit_config == old(self).rate_limit_config,
            final(self).url == old(self).url,
            !spec_has_session(old(self).sessions@, client_id) ==> *final(self) == *old(self),
            spec_has_session(old(self).sessions@, client_id) ==> ({
                let i = spec_session_idx(old(self).sessions@, client_id);
                let entry = old(self).sessions@[i];
                match spec_decode_client(bytes@) {
                    Option::None => {
                        &&& !spec_has_session(final(self).sessions@, client_id)
                        &&& final(self).spec_num_connections() == old(self).spec_num_connections() - 1
                        &&& final(self).events@ == old(self).events@.push(
                            (client_id, ServerEvent::Report(ServerReport::Disconnected)),
                        )
                        &&& final(self).actions@.len() == old(self).actions@.len() + 1
                        &&& final(self).actions@.drop_last() == old(self).actions@
                        &&& (final(self).actions@.last() matches ServerAction::CloseSession(id, f)
                            && id == client_id && f.code is PolicyViolation)
                        &&& final(self).last_now_ms == old(self).last_now_ms
                    },
                    Option::Some(fv) => {
                        let (lim2, adm) = spec_admit(entry.limiter, now_ms);
                        &&& final(self).last_now_ms == now_ms
                        &&& (!adm ==> {
                            &&& !spec_has_session(final(self).sessions@, client_id)
                            &&& final(self).spec_num_connections() == old(self).spec_num_connections() - 1
                            &&& final(self).events@ == old(self).events@.push(
                                (client_id, ServerEvent::Report(ServerReport::Disconnected)),
                            )
                            &&& final(self).actions@.len() == old(self).actions@.len() + 1
                            &&& final(self).actions@.drop_last() == old(self).actions@
                            &&& (final(self).actions@.last()
                                matches ServerAction::CloseSession(id, f) && id == client_id
                                && f.code is PolicyViolation)
                        })
                        &&& (adm ==> {
                            &&& final(self).sessions@ == old(self).sessions@.update(
                                i,
                                SessionEntry { id: client_id, gen: entry.gen, limiter: lim2 },
                            )
                            &&& final(self).spec_num_connections() == old(self).spec_num_connections()
                            &&& final(self).actions@ == old(self).actions@
                            &&& final(self).events@.len() == old(self).events@.len() + 1
                            &&& final(self).events@.drop_last() == old(self).events@
                            &&& final(self).events@.last().0 == client_id
                            &&& (match fv {
                                ClientFrameView::Msg(p) => final(self).events@.last().1
                                    matches ServerEvent::Msg(pl) && pl@ == p,
                                ClientFrameView::Request(p, rid) => final(self).events@.last().1
                                    matches ServerEvent::Request(pl, tok) && pl@ == p
                                    && tok.spec_client_id() == client_id && tok.spec_request_id()
                                    == rid && tok.spec_session_gen() == entry.gen,
                            })
                        })
                    },
                }
            }),
    {
        let found = self.find_session(client_id);
        match found {
            None => {},
            Some(i) => {
                proof {
                    let k = spec_session_idx(old(self).sessions@, client_id);
                    assert(spec_has_session(old(self).sessions@, client_id));
                    assert(0 <= k < old(self).sessions@.len() && old(self).sessions@[k].id
                        == client_id);
                    assert(k == i);
                }
                let decoded = decode_client_frame(bytes);
                match decoded {
                    None => {
                        let frame = CloseFrame {
                            code: CloseCode::PolicyViolation,
                            reason: "malformed frame".to_owned(),
                        };
                        self.close_installed(i, frame);
                    },
                    Some(f) => {
                        let mut entry = self.sessions[i];
                        let admitted = entry.limiter.try_admit(now_ms);
                        self.sessions[i] = entry;
                        self.last_now_ms = now_ms;
                        if admitted {
                            match f {
                                ClientFrame::Msg(p) => {
                                    self.events.push((client_id, ServerEvent::Msg(p)));
                                },
                                ClientFrame::Request(p, rid) => {
                                    let token = RequestToken::new(client_id, rid, entry.gen);
                                    self.events.push(
                                        (client_id, ServerEvent::Request(p, token)),
                                    );
                                },
                            }
                        } else {
                            let frame = CloseFrame {
                                code: CloseCode::PolicyViolation,
                                reason: "rate limit exceeded".to_owned(),
                            };
                            self.close_installed(i, frame);
                        }
                    },
                }
            },
        }
    }

    /// Send a one-shot message to the target session.
    ///
    /// Messages to a session that is not installed are silently dropped.
    /// A message whose encoding exceeds the session's frame-size bound
    /// cannot be delivered; the session is closed with the internal-error
    /// code, matching an unencodable outbound frame. Returns `Err` only
    /// when the server is dead.
    pub fn send(&mut self, id: u128, msg: Vec<u8>) -> (r: Result<(), ()>)
        requires
            old(self).wf(),
        ensures
            final(self).wf(),
            final(self).dead == old(self).dead,
            final(self).prevalidator == old(self).prevalidator,
            final(self).rate_limit_config == old(self).rate_limit_config,
            final(self).url == old(self).url,
            final(self).last_now_ms == old(self).last_now_ms,
            r is Err <==> old(self).dead,
            old(self).dead ==> *final(self) == *old(self),
            !old(self).dead && !spec_has_session(old(self).sessions@, id) ==> *final(self) == *old(self),
            !old(self).dead && spec_has_session(old(self).sessions@, id) ==> ({
                if spec_encode_server(ServerFrameView::Msg(msg@)).len() <= old(self).prevalidator.max_msg_size {
                    &&& final(self).sessions@ == old(self).sessions@
                    &&& final(self).events@ == old(self).events@
                    &&& final(self).actions@ == old(self).actions@.push(
                        ServerAction::SendFrame(id, ServerFrame::Msg(msg)),
                    )
                } else {
                    &&& !spec_has_session(final(self).sessions@, id)
                    &&& final(self).spec_num_connections() == old(self).spec_num_connections() - 1
                    &&& final(self).events@ == old(self).events@.push(
                        (id, ServerEvent::Report(ServerReport::Disconnected)),
                    )
                    &&& final(self).actions@.len() == old(self).actions@.len() + 1
                    &&& final(self).actions@.drop_last() == old(self).actions@
                    &&& (final(self).actions@.last() matches ServerAction::CloseSession(cid, f)
                        && cid == id && f.code is InternalError)
                }
            }),
    {
        if self.dead {
            return Err(());
        }
        let found = self.find_session(id);
        match found {
            None => Ok(()),
            Some(i) => {
                proof {
                    assert(spec_has_session(old(self).sessions@, id));
                }
                let frame = ServerFrame::Msg(msg);
                let encoded = encode_server_frame(&frame);
                if encoded.len() <= self.prevalidator.max_msg_size {
                    self.actions.push(ServerAction::SendFrame(id, frame));
                } else {
                    let close = CloseFrame {
                        code: CloseCode::InternalError,
                        reason: "outbound frame exceeds size limit".to_owned(),
                    };
                    self.close_installed(i, close);
                }
                Ok(())
            },
        }
    }

    /// Find the registry index of a token's destination: the session with
    /// the token's client id, provided it is still the very session the
    /// token was minted on.
    fn find_destination(&self, token: &RequestToken) -> (r: Option<usize>)
        requires
            self.wf(),
        ensures
            match r {
                Some(i) => i < self.sessions@.len() && self.sessions@[i as int].id
                    == token.spec_client_id() && self.sessions@[i as int].gen
                    == token.spec_session_gen(),
                None => !spec_destination_live(self.sessions@, *token),
            },
    {
        let found = self.find_session(token.client_id());
        match found {
            None => {
                proof {
                    assert forall|j: int|
                        0 <= j < self.sessions@.len() implies !(self.sessions@[j].id
                        == token.spec_client_id() && self.sessions@[j].gen
                        == token.spec_session_gen()) by {
                        if self.sessions@[j].id == token.spec_client_id() {
                            assert(spec_has_session(self.sessions@, token.spec_client_id()));
                        }
                    }
                }
                None
            },
            Some(i) => {
                if self.sessions[i].gen == token.session_gen_value() {
                    Some(i)
                } else {
                    proof {
                        assert forall|j: int|
                            0 <= j < self.sessions@.len() implies !(self.sessions@[j].id
                            == token.spec_client_id() && self.sessions@[j].gen
                            == token.spec_session_gen()) by {}
                    }
                    None
                }
            },
        }
    }

    /// Push one request-correlated frame to a token's destination, or
    /// nothing if the destination is gone; oversize encodings close the
    /// session with the internal-error code.
    fn send_to_destination(&mut self, token: RequestToken, frame: ServerFrame)
        requires
            old(self).wf(),
            (frame@ matches ServerFrameView::Response(p, rid) && rid == token.spec_request_id())
                || (frame@ matches ServerFrameView::Ack(rid) && rid == token.spec_request_id())
                || (frame@ matches ServerFrameView::Reject(rid) && rid
                == token.spec_request_id()),
        ensures
            final(self).wf(),
            final(self).dead == old(self).dead,
            final(self).prevalidator == old(self).prevalidator,
            final(self).rate_limit_config == old(self).rate_limit_config,
            final(self).url == old(self).url,
            final(self).last_now_ms == old(self).last_now_ms,
            !spec_destination_live(old(self).sessions@, token) ==> *final(self) == *old(self),
            spec_destination_live(old(self).sessions@, token) ==> ({
                if spec_encode_server(frame@).len() <= old(self).prevalidator.max_msg_size {
                    &&& final(self).sessions@ == old(self).sessions@
                    &&& final(self).events@ == old(self).events@
                    &&& final(self).actions@ == old(self).actions@.push(
                        ServerAction::SendFrame(token.spec_client_id(), frame),
                    )
                } else {
                    &&& !spec_has_session(final(self).sessions@, token.spec_client_id())
                    &&& final(self).spec_num_connections() == old(self).spec_num_connections() - 1
                    &&& final(self).events@ == old(self).events@.push(
                        (
                            token.spec_client_id(),
                            ServerEvent::Report(ServerReport::Disconnected),
                        ),
                    )
                    &&& final(self).actions@.len() == old(self).actions@.len() + 1
                    &&& final(self).actions@.drop_last() == old(self).actions@
                    &&& (final(self).actions@.last() matches ServerAction::CloseSession(cid, f)
                        && cid == token.spec_client_id() && f.code is InternalError)
                }
            }),
    {
        let found = self.find_destination(&token);
        match found {
            None => {},
            Some(i) => {
                proof {
                    assert(spec_destination_live(old(self).sessions@, token));
                }
                let encoded = encode_server_frame(&frame);
                if encoded.len() <= self.prevalidator.max_msg_size {
                    self.actions.push(ServerAction::SendFrame(token.client_id(), frame));
                } else {
                    let close = CloseFrame {
                        code: CloseCode::InternalError,
                        reason: "outbound frame exceeds size limit".to_owned(),
                    };
                    self.close_installed(i, close);
                }
            },
        }
    }

    /// Whether a token's destination is gone: the session it was minted
    /// on has terminated, even if the same client id has reconnected
    /// since. Answering through such a token sends nothing.
    pub fn destination_is_dead(&self, token: &RequestToken) -> (r: bool)
        requires
            self.wf(),
        ensures
            r == !spec_destination_live(self.sessions@, *token),
    {
        let found = self.find_destination(token);
        match found {
            Some(_) => {
                proof {
                    assert(spec_destination_live(self.sessions@, *token));
                }
                false
            },
            None => true,
        }
    }

    /// Respond to a client request, consuming its token.
    ///
    /// The response frame carries the token's request id. If the
    /// destination session died first — or was replaced by a reconnect —
    /// nothing is sent: the client synthesizes its own failure locally.
    /// Returns `Err` only when the server is dead.
    pub fn respond(&mut self, token: RequestToken, response: Vec<u8>) -> (r: Result<(), ()>)
        requires
            old(self).wf(),
        ensures
            final(self).wf(),
            final(self).dead == old(self).dead,
            r is Err <==> old(self).dead,
            old(self).dead ==> *final(self) == *old(self),
            !old(self).dead && !spec_destination_live(old(self).sessions@, token) ==> *final(self)
                == *old(self),
            !old(self).dead && spec_destination_live(old(self).sessions@, token) && spec_encode_server(
                ServerFrameView::Response(response@, token.spec_request_id()),
            ).len() <= old(self).prevalidator.max_msg_size ==> final(self).actions@ == old(self).actions@.push(
                ServerAction::SendFrame(
                    token.spec_client_id(),
                    ServerFrame::Response(response, token.spec_request_id()),
                ),
            ) && final(self).events@ == old(self).events@ && final(self).sessions@ == old(self).sessions@,
    {
        if self.dead {
            return Err(());
        }
        let rid = token.request_id();
        self.send_to_destination(token, ServerFrame::Response(response, rid));
        Ok(())
    }

    /// Acknowledge a client request without a payload, consuming its
    /// token. An acknowledged request cannot be responded to. Nothing is
    /// sent if the destination died first. Returns `Err` only when the
    /// server is dead.
    pub fn ack(&mut self, token: RequestToken) -> (r: Result<(), ()>)
        requires
            old(self).wf(),
        ensures
            final(self).wf(),
            final(self).dead == old(self).dead,
            r is Err <==> old(self).dead,
            old(self).dead ==> *final(self) == *old(self),
            !old(self).dead && !spec_destination_live(old(self).sessions@, token) ==> *final(self)
                == *old(self),
            !old(self).dead && spec_destination_live(old(self).sessions@, token) && spec_encode_server(
                ServerFrameView::Ack(token.spec_request_id()),
            ).len() <= old(self).prevalidator.max_msg_size ==> final(self).actions@ == old(self).actions@.push(
                ServerAction::SendFrame(
                    token.spec_client_id(),
                    ServerFrame::Ack(token.spec_request_id()),
                ),
            ) && final(self).events@ == old(self).events@ && final(self).sessions@ == old(self).sessions@,
    {
        if self.dead {
            return Err(());
        }
        let rid = token.request_id();
        self.send_to_destination(token, ServerFrame::Ack(rid));
        Ok(())
    }

    /// Reject a client request, consuming its token.
    ///
    /// This is also what a host does with a request it will not handle:
    /// handing the token back here keeps the client from waiting on an
    /// answer that never comes. Nothing is sent if the server is dead or
    /// the destination died first.
    pub fn reject(&mut self, token: RequestToken)
        requires
            old(self).wf(),
        ensures
            final(self).wf(),
            final(self).dead == old(self).dead,
            old(self).dead ==> *final(self) == *old(self),
            !old(self).dead && !spec_destination_live(old(self).sessions@, token) ==> *final(self)
                == *old(self),
            !old(self).dead && spec_destination_live(old(self).sessions@, token) && spec_encode_server(
                ServerFrameView::Reject(token.spec_request_id()),
            ).len() <= old(self).prevalidator.max_msg_size ==> final(self).actions@ == old(self).actions@.push(
                ServerAction::SendFrame(
                    token.spec_client_id(),
                    ServerFrame::Reject(token.spec_request_id()),
                ),
            ) && final(self).events@ == old(self).events@ && final(self).sessions@ == old(self).sessions@,
    {
        if self.dead {
            return;
        }
        let rid = token.request_id();
        self.send_to_destination(token, ServerFrame::Reject(rid));
    }

    /// Close the target session with the given close frame.
    ///
    /// The host's counterpart to a policy close: the session is retired,
    /// its disconnection reported, and the close handed to the transport.
    /// Closing a session that is not installed does nothing. Returns `Err`
    /// only when the server is dead.
    pub fn close_session(&mut self, id: u128, close_frame: CloseFrame) -> (r: Result<(), ()>)
        requires
            old(self).wf(),
        ensures
            final(self).wf(),
            final(self).dead == old(self).dead,
            r is Err <==> old(self).dead,
            old(self).dead ==> *final(self) == *old(self),
            !old(self).dead && !spec_has_session(old(self).sessions@, id) ==> *final(self) == *old(self),
            !old(self).dead && spec_has_session(old(self).sessions@, id) ==> ({
                &&& !spec_has_session(final(self).sessions@, id)
                &&& final(self).spec_num_connections() == old(self).spec_num_connections() - 1
                &&& final(self).events@ == old(self).events@.push(
                    (id, ServerEvent::Report(ServerReport::Disconnected)),
                )
                &&& final(self).actions@ == old(self).actions@.push(
                    ServerAction::CloseSession(id, close_frame),
                )
            }),
    {
        if self.dead {
            return Err(());
        }
        let found = self.find_session(id);
        match found {
            None => Ok(()),
            Some(i) => {
                proof {
                    assert(spec_has_session(old(self).sessions@, id));
                }
                self.close_installed(i, close_frame);
                Ok(())
            },
        }
    }

    /// The number of live client connections.
    pub fn num_connections(&self) -> (r: u64)
        ensures
            r == self.spec_num_connections(),
    {
        self.counter.load()
    }

    /// Where clients reach this server.
    pub fn url(&self) -> (r: &String)
        ensures
            r == &self.url,
    {
        &self.url
    }

    /// Whether the transport worker has stopped for good.
    pub fn is_dead(&self) -> (r: bool)
        ensures
            r == self.dead,
    {
        self.dead
    }

    /// Record that the transport worker has stopped; the server answers no
    /// host call afterwards.
    pub fn mark_dead(&mut self)
        ensures
            final(self).dead,
            final(self).prevalidator == old(self).prevalidator,
            final(self).rate_limit_config == old(self).rate_limit_config,
            final(self).counter == old(self).counter,
            final(self).sessions == old(self).sessions,
            final(self).events == old(self).events,
            final(self).actions == old(self).actions,
            final(self).url == old(self).url,
            final(self).last_now_ms == old(self).last_now_ms,
            final(self).next_gen == old(self).next_gen,
    {
        self.dead = true;
    }

    /// The next host event, oldest first.
    pub fn next(&mut self) -> (r: Option<(u128, ServerEvent)>)
        ensures
            final(self).sessions == old(self).sessions,
            final(self).counter == old(self).counter,
            final(self).actions == old(self).actions,
            final(self).prevalidator == old(self).prevalidator,
            final(self).rate_limit_config == old(self).rate_limit_config,
            final(self).dead == old(self).dead,
            final(self).url == old(self).url,
            final(self).last_now_ms == old(self).last_now_ms,
            final(self).next_gen == old(self).next_gen,
            old(self).events@.len() == 0 ==> r is None && final(self).events@ == old(self).events@,
            old(self).events@.len() > 0 ==> r == Some(old(self).events@[0]) && final(self).events@
                == old(self).events@.remove(0),
    {
        if self.events.len() == 0 {
            None
        } else {
            Some(self.events.remove(0))
        }
    }

    /// The next transport command, oldest first.
    pub fn next_action(&mut self) -> (r: Option<ServerAction>)
        ensures
            final(self).sessions == old(self).sessions,
            final(self).counter == old(self).counter,
            final(self).events == old(self).events,
            final(self).prevalidator == old(self).prevalidator,
            final(self).rate_limit_config == old(self).rate_limit_config,
            final(self).dead == old(self).dead,
            final(self).url == old(self).url,
            final(self).last_now_ms == old(self).last_now_ms,
            final(self).next_gen == old(self).next_gen,
            old(self).actions@.len() == 0 ==> r is None && final(self).actions@ == old(self).actions@,
            old(self).actions@.len() > 0 ==> r == Some(old(self).actions@[0]) && final(self).actions@ == old(self).actions@.remove(0),
    {
        if self.actions.len() == 0 {
            None
        } else {
            Some(self.actions.remove(0))
        }
    }
}

/// Factory for producing servers that all bake in the same protocol
/// version, so every connection is prevalidated against it.
#[derive(Debug, Clone)]
pub struct ServerFactory {
    protocol_version: &'static str,
}

impl ServerFactory {
    /// The protocol version this factory bakes into servers.
    pub closed spec fn spec_protocol_version(&self) -> Seq<char> {
        self.protocol_version@
    }

    /// Make a new server factory with a given protocol version.
    pub fn new(protocol_version: &'static str) -> (r: Self)
        ensures
            r.spec_protocol_version() == protocol_version@,
    {
        ServerFactory { protocol_version }
    }

    /// Make a new server.
    ///
    /// The embedding application binds the listening socket and passes the
    /// resulting address here as the server's url.
    pub fn new_server(
        &self,
        authenticator: Authenticator,
        config: ServerConfig,
        url: String,
    ) -> (r: Server)
        requires
            config.rate_limit_config.period_ms > 0,
        ensures
            r.wf(),
            !r.dead,
            r.spec_num_connections() == 0,
            r.sessions@.len() == 0,
            r.events@.len() == 0,
            r.actions@.len() == 0,
            r.url == url,
            r.last_now_ms == 0,
            r.prevalidator.protocol_version@ == self.spec_protocol_version(),
            r.prevalidator.authenticator == authenticator,
            r.prevalidator.max_connections == config.max_connections,
            r.prevalidator.max_msg_size == config.max_msg_size,
            r.prevalidator.heartbeat_interval_ms == config.heartbeat_interval_ms,
            r.prevalidator.keepalive_timeout_ms == config.keepalive_timeout_ms,
            r.rate_limit_config == config.rate_limit_config,
    {
        Server {
            prevalidator: ConnectionPrevalidator {
                protocol_version: self.protocol_version.to_owned(),
                authenticator,
                max_connections: config.max_connections,
                max_msg_size: config.max_msg_size,
                heartbeat_interval_ms: config.heartbeat_interval_ms,
                keepalive_timeout_ms: config.keepalive_timeout_ms,
            },
            rate_limit_config: config.rate_limit_config,
            counter: ConnectionCounter::new(),
            next_gen: 0,
            sessions: Vec::new(),
            events: Vec::new(),
            actions: Vec::new(),
            url,
            dead: false,
            last_now_ms: 0,
        }
    }
}

/// A reconnect outdates earlier tokens: once every session carrying a
/// token's client id runs under a generation newer than the token's —
/// which reinstalling the id guarantees — the token's destination is dead,
/// and answering through it sends nothing.
pub proof fn lemma_fresh_generation_outdates_token(s: Server, token: RequestToken, g: u64)
    requires
        token.spec_session_gen() < g,
        forall|k: int|
            0 <= k < s.sessions@.len() && (#[trigger] s.sessions@[k]).id
                == token.spec_client_id() ==> s.sessions@[k].gen >= g,
    ensures
        !spec_destination_live(s.sessions@, token),
{
    assert forall|k: int|
        0 <= k < s.sessions@.len() implies !((#[trigger] s.sessions@[k]).id
        == token.spec_client_id() && s.sessions@[k].gen == token.spec_session_gen()) by {}
}

/// The connection cap holds at every instant the host can observe: a well
/// formed server never counts more connections than its configured limit.
pub proof fn lemma_connection_cap(s: Server)
    requires
        s.wf(),
    ensures
        s.spec_num_connections() <= s.prevalidator.max_connections,
{
}

} // verus!
