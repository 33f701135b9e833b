//! The client: host API and connection lifecycle.
//!
//! The client is a state machine. The host submits messages and requests
//! and polls events; the embedding application drives the socket side,
//! reporting connections, inbound bytes, connection attempts that failed
//! and the final shutdown, and carries out the queued actions — frames to
//! write, a socket to close. Pending requests, reconnect budgets and the
//! exact event sequence the host observes are all pinned down here.
use vstd::prelude::*;
use crate::auth::AuthRequest;
use crate::frames::{decode_server_frame, encode_client_frame, spec_decode_client,
    spec_decode_server, spec_encode_client, spec_encode_server, ClientFrame, ClientFrameView,
    ServerFrame, ServerFrameView};
use crate::pending::{spec_fail_entry, spec_resolve, spec_sweep, PendingRequestTracker,
    RequestOutcome, RequestStatus};
use crate::prevalidator::{env_type_as_str, ConnectionRequest, EnvType};
use crate::server::{CloseCode, CloseFrame};
use vstd::slice::slice_to_vec;

verus! {

/// Errors emitted when a submission cannot be delivered now.
#[derive(Debug, Clone, Copy, PartialEq, Eq, Structural)]
pub enum ClientError {
    /// The client is not connected, or the frame cannot be encoded within
    /// the configured size limit.
    SendError,
}

/// Lifecycle news a client reports to its host.
#[derive(Debug, Clone, Copy, PartialEq, Eq, Structural)]
pub enum ClientReport {
    /// The link is up.
    Connected,
    /// The link dropped; the client will try to reconnect.
    Disconnected,
    /// The host closed the client.
    ClosedBySelf,
    /// The server closed the connection for good.
    ClosedByServer,
    /// The client is dead; this is the last event it emits.
    IsDead,
}

/// What the host sees from the client.
#[derive(Debug, Clone, PartialEq, Eq)]
pub enum ClientEvent {
    /// A lifecycle report.
    Report(ClientReport),
    /// A one-shot message from the server.
    Msg(Vec<u8>),
    /// The response to a request, with its payload.
    Response(Vec<u8>, u64),
    /// A request was acknowledged without payload.
    Ack(u64),
    /// A request was rejected.
    Reject(u64),
    /// A request's write never completed.
    SendFailed(u64),
    /// A request was written but its answer was lost to a disconnect.
    ResponseLost(u64),
}

/// A transport command for the embedding application.
#[derive(Debug, Clone, PartialEq, Eq)]
pub enum ClientAction {
    /// Write this frame to the socket.
    WriteFrame(ClientFrame),
    /// Close the socket with this close frame.
    CloseSocket(CloseFrame),
}

/// Knobs a client is built with.
#[derive(Debug, Clone, Copy, PartialEq, Eq, Structural)]
pub struct ClientConfig {
    /// Pause between reconnect attempts, in milliseconds.
    pub reconnect_interval_ms: u64,
    /// Connection attempts allowed before the first success.
    pub max_initial_connect_attempts: u64,
    /// Reconnect attempts allowed after a drop.
    pub max_reconnect_attempts: u64,
    /// How often to probe liveness, in milliseconds.
    pub heartbeat_interval_ms: u64,
    /// How long an unanswered probe may stand, in milliseconds.
    pub keepalive_timeout_ms: u64,
    /// Upper bound on an encoded frame's size, in bytes.
    pub max_msg_size: usize,
}

/// Where the client stands in its connection lifecycle.
#[derive(Debug, Clone, Copy, PartialEq, Eq, Structural)]
pub enum ClientPhase {
    /// Trying to connect for the first time.
    Connecting,
    /// The link is up.
    Connected,
    /// The link dropped; trying to connect again.
    Reconnecting,
    /// The client has shut down for good.
    Dead,
}

/// The client events that announce swept request failures: requests whose
/// write was never confirmed failed to send, the rest lost their response.
pub open spec fn spec_failure_events(swept: Seq<(u64, bool)>) -> Seq<ClientEvent> {
    swept.map_values(
        |p: (u64, bool)|
            if p.1 {
                ClientEvent::ResponseLost(p.0)
            } else {
                ClientEvent::SendFailed(p.0)
            },
    )
}

/// A client for communicating with a server.
///
/// Produce one with a [`ClientFactory`]. The embedding application owns
/// the socket; it reports lifecycle changes and inbound bytes here and
/// carries out the actions queued in return.
#[derive(Debug)]
pub struct Client {
    /// This client's id, taken from its authentication request.
    pub client_id: u128,
    /// The protocol version carried in the connection query.
    pub protocol_version: &'static str,
    /// Presented to the server on every connection attempt.
    pub auth: AuthRequest,
    /// Sent to the server on every connection attempt.
    pub connect_msg: Vec<u8>,
    /// The knobs this client was built with.
    pub config: ClientConfig,
    /// Where the client stands in its lifecycle.
    pub phase: ClientPhase,
    /// Connection attempts that failed in the current phase.
    pub attempts: u64,
    /// Whether the host has closed the client.
    pub closed_by_self: bool,
    /// The in-flight requests.
    pub pending: PendingRequestTracker,
    /// Events for the host, oldest first.
    pub events: Vec<ClientEvent>,
    /// Transport commands for the embedding application, oldest first.
    pub actions: Vec<ClientAction>,
}

impl Client {
    /// The tracker is sound, and it is sealed exactly when the client is
    /// dead: no request can ever be recorded again afterwards.
    pub open spec fn wf(&self) -> bool {
        &&& self.pending@.wf()
        &&& (self.phase is Dead <==> self.pending@.sealed)
    }

    /// Whether submissions are possible: the link is up and the host has
    /// not closed the client.
    pub open spec fn spec_is_connected(&self) -> bool {
        self.phase is Connected && !self.closed_by_self
    }

    /// Access this client's id.
    pub fn id(&self) -> (r: u128)
        ensures
            r == self.client_id,
    {
        self.client_id
    }

    /// Test if the client is connected. Messages and requests cannot be
    /// submitted when it is not.
    pub fn is_connected(&self) -> (r: bool)
        ensures
            r == self.spec_is_connected(),
    {
        match self.phase {
            ClientPhase::Connected => !self.closed_by_self,
            _ => false,
        }
    }

    /// Test if the client is dead: no longer connected and never again
    /// reconnecting. The last event it emits is the dead report.
    pub fn is_dead(&self) -> (r: bool)
        ensures
            r == (self.phase is Dead),
    {
        match self.phase {
            ClientPhase::Dead => true,
            _ => false,
        }
    }

    /// Test if the client is closed: the host closed it, or it died.
    pub fn is_closed(&self) -> (r: bool)
        ensures
            r == (self.closed_by_self || self.phase is Dead),
    {
        self.closed_by_self || self.is_dead()
    }

    /// Send a one-shot message to the server.
    ///
    /// Fails exactly when the client is not connected or the encoded
    /// frame exceeds the configured size limit; nothing is queued then.
    pub fn send(&mut self, msg: Vec<u8>) -> (r: Result<(), ClientError>)
        requires
            old(self).wf(),
        ensures
            final(self).wf(),
            ({
                let fits = spec_encode_client(ClientFrameView::Msg(msg@)).len() <= old(self).config.max_msg_size;
                if old(self).spec_is_connected() && fits {
                    &&& r is Ok
                    &&& final(self).actions@ == old(self).actions@.push(
                        ClientAction::WriteFrame(ClientFrame::Msg(msg)),
                    )
                    &&& final(self).events@ == old(self).events@
                    &&& final(self).pending@ == old(self).pending@
                    &&& final(self).phase == old(self).phase
                    &&& final(self).closed_by_self == old(self).closed_by_self
                } else {
                    r == Err::<(), ClientError>(ClientError::SendError) && *final(self) == *old(self)
                }
            }),
    {
        if !self.is_connected() {
            return Err(ClientError::SendError);
        }
        let frame = ClientFrame::Msg(msg);
        let encoded = encode_client_frame(&frame);
        if encoded.len() > self.config.max_msg_size {
            return Err(ClientError::SendError);
        }
        self.actions.push(ClientAction::WriteFrame(frame));
        Ok(())
    }

    /// Send a request to the server, returning its request id.
    ///
    /// Fails when the client is not connected — then nothing changes, so
    /// no request can be recorded once a disconnection sweep has run — and
    /// when the encoded frame exceeds the size limit, which burns the
    /// reserved id without recording an entry. On success the request is
    /// tracked as in flight and its frame is queued for the transport.
    pub fn request(&mut self, request: Vec<u8>) -> (r: Result<u64, ClientError>)
        requires
            old(self).wf(),
            old(self).pending@.next_id < usize::MAX as u64,
        ensures
            final(self).wf(),
            final(self).phase == old(self).phase,
            final(self).closed_by_self == old(self).closed_by_self,
            final(self).events@ == old(self).events@,
            !old(self).spec_is_connected() ==> r == Err::<u64, ClientError>(
                ClientError::SendError,
            ) && *final(self) == *old(self),
            old(self).spec_is_connected() ==> ({
                let rid = old(self).pending@.next_id;
                let fits = spec_encode_client(ClientFrameView::Request(request@, rid)).len() <= old(self).config.max_msg_size;
                &&& final(self).pending@.next_id == rid + 1
                &&& (if fits {
                    &&& r == Ok::<u64, ClientError>(rid)
                    &&& final(self).pending@.status(rid) == Some(RequestStatus::Sending)
                    &&& final(self).pending@.entries.len() == rid
                    &&& final(self).pending@.sealed == old(self).pending@.sealed
                    &&& final(self).actions@ == old(self).actions@.push(
                        ClientAction::WriteFrame(ClientFrame::Request(request, rid)),
                    )
                } else {
                    &&& r == Err::<u64, ClientError>(ClientError::SendError)
                    &&& final(self).pending@.entries == old(self).pending@.entries
                    &&& final(self).pending@.sealed == old(self).pending@.sealed
                    &&& final(self).actions@ == old(self).actions@
                })
            }),
    {
        if !self.is_connected() {
            return Err(ClientError::SendError);
        }
        let rid = self.pending.reserve_id();
        let frame = ClientFrame::Request(request, rid);
        let encoded = encode_client_frame(&frame);
        if encoded.len() > self.config.max_msg_size {
            return Err(ClientError::SendError);
        }
        self.pending.add_request(rid);
        self.actions.push(ClientAction::WriteFrame(frame));
        Ok(rid)
    }

    /// Where a submitted request stands, if it was recorded.
    pub fn request_status(&self, rid: u64) -> (r: Option<RequestStatus>)
        ensures
            r == self.pending@.status(rid),
    {
        if 1 <= rid && rid <= self.pending.entries.len() as u64 {
            let idx: usize = (rid - 1) as usize;
            self.pending.entries[idx]
        } else {
            None
        }
    }

    /// Record that the transport confirmed the write of request `rid`.
    pub fn confirm_sent(&mut self, rid: u64)
        requires
            old(self).wf(),
        ensures
            final(self).wf(),
            final(self).events@ == old(self).events@,
            final(self).actions@ == old(self).actions@,
            final(self).phase == old(self).phase,
            final(self).closed_by_self == old(self).closed_by_self,
            final(self).pending@.next_id == old(self).pending@.next_id,
            final(self).pending@.sealed == old(self).pending@.sealed,
            old(self).pending@.status(rid) == Some(RequestStatus::Sending) ==> final(self).pending@.entries =~= old(self).pending@.entries.update(
                rid - 1,
                Some(RequestStatus::Sent),
            ),
            old(self).pending@.status(rid) != Some(RequestStatus::Sending) ==> final(self).pending@.entries =~= old(self).pending@.entries,
    {
        self.pending.mark_sent(rid);
    }

    /// Record that the transport abandoned the write of request `rid`.
    ///
    /// If the request was still pending it is aborted and the host is told
    /// the send failed; a request already terminal is left alone.
    pub fn write_failed(&mut self, rid: u64)
        requires
            old(self).wf(),
        ensures
            final(self).wf(),
            final(self).actions@ == old(self).actions@,
            final(self).phase == old(self).phase,
            final(self).closed_by_self == old(self).closed_by_self,
            ({
                let (t, hit) = spec_resolve(old(self).pending@, rid, RequestOutcome::Abort);
                &&& final(self).pending@.next_id == t.next_id
                &&& final(self).pending@.sealed == t.sealed
                &&& final(self).pending@.entries =~= t.entries
                &&& final(self).events@ == (if hit {
                    old(self).events@.push(ClientEvent::SendFailed(rid))
                } else {
                    old(self).events@
                })
            }),
    {
        let hit = self.pending.resolve(rid, RequestOutcome::Abort);
        if hit {
            self.events.push(ClientEvent::SendFailed(rid));
        }
    }

    /// Dispatch one inbound binary frame from the socket.
    ///
    /// Bytes that arrive while the client is not connected fall on the
    /// floor. Malformed bytes are a protocol violation: the socket is told
    /// to close and the disconnect arrives through the usual lifecycle
    /// report. A response, acknowledgement or rejection resolves its
    /// pending request — each request resolves at most once, so a second
    /// answer for the same id changes nothing — and a message becomes a
    /// host event directly.
    pub fn handle_server_frame(&mut self, bytes: &[u8])
        requires
            old(self).wf(),
        ensures
            final(self).wf(),
            final(self).phase == old(self).phase,
            final(self).closed_by_self == old(self).closed_by_self,
            !old(self).spec_is_connected() ==> *final(self) == *old(self),
            old(self).spec_is_connected() ==> ({
                match spec_decode_server(bytes@) {
                    Option::None => {
                        &&& final(self).pending@ == old(self).pending@
                        &&& final(self).events@ == old(self).events@
                        &&& final(self).actions@.len() == old(self).actions@.len() + 1
                        &&& final(self).actions@.drop_last() == old(self).actions@
                        &&& (final(self).actions@.last() matches ClientAction::CloseSocket(f)
                            && f.code is PolicyViolation)
                    },
                    Option::Some(fv) => {
                        &&& final(self).actions@ == old(self).actions@
                        &&& (match fv {
                            ServerFrameView::Msg(p) => {
                                &&& final(self).pending@ == old(self).pending@
                                &&& final(self).events@.len() == old(self).events@.len() + 1
                                &&& final(self).events@.drop_last() == old(self).events@
                                &&& (final(self).events@.last() matches ClientEvent::Msg(pl)
                                    && pl@ == p)
                            },
                            ServerFrameView::Response(p, rid) => {
                                let (t, hit) = spec_resolve(
                                    old(self).pending@,
                                    rid,
                                    RequestOutcome::Response,
                                );
                                &&& final(self).pending@.next_id == t.next_id
                                &&& final(self).pending@.sealed == t.sealed
                                &&& final(self).pending@.entries =~= t.entries
                                &&& (hit ==> final(self).events@.len() == old(self).events@.len() + 1 && final(self).events@.drop_last() == old(self).events@ && (final(self).events@.last()
                                    matches ClientEvent::Response(pl, r2) && pl@ == p && r2
                                    == rid))
                                &&& (!hit ==> final(self).events@ == old(self).events@)
                            },
                            ServerFrameView::Ack(rid) => {
                                let (t, hit) = spec_resolve(
                                    old(self).pending@,
                                    rid,
                                    RequestOutcome::Ack,
                                );
                                &&& final(self).pending@.next_id == t.next_id
                                &&& final(self).pending@.sealed == t.sealed
                                &&& final(self).pending@.entries =~= t.entries
                                &&& final(self).events@ == (if hit {
                                    old(self).events@.push(ClientEvent::Ack(rid))
                                } else {
                                    old(self).events@
                                })
                            },
                            ServerFrameView::Reject(rid) => {
                                let (t, hit) = spec_resolve(
                                    old(self).pending@,
                                    rid,
                                    RequestOutcome::Reject,
                                );
                                &&& final(self).pending@.next_id == t.next_id
                                &&& final(self).pending@.sealed == t.sealed
                                &&& final(self).pending@.entries =~= t.entries
                                &&& final(self).events@ == (if hit {
                                    old(self).events@.push(ClientEvent::Reject(rid))
                                } else {
                                    old(self).events@
                                })
                            },
                        })
                    },
                }
            }),
    {
        if !self.is_connected() {
            return;
        }
        let decoded = decode_server_frame(bytes);
        match decoded {
            None => {
                let frame = CloseFrame {
                    code: CloseCode::PolicyViolation,
                    reason: "malformed frame".to_owned(),
                };
                self.actions.push(ClientAction::CloseSocket(frame));
            },
            Some(ServerFrame::Msg(p)) => {
                self.events.push(ClientEvent::Msg(p));
            },
            Some(ServerFrame::Response(p, rid)) => {
                let hit = self.pending.resolve(rid, RequestOutcome::Response);
                if hit {
                    self.events.push(ClientEvent::Response(p, rid));
                }
            },
            Some(ServerFrame::Ack(rid)) => {
                let hit = self.pending.resolve(rid, RequestOutcome::Ack);
                if hit {
                    self.events.push(ClientEvent::Ack(rid));
                }
            },
            Some(ServerFrame::Reject(rid)) => {
                let hit = self.pending.resolve(rid, RequestOutcome::Reject);
                if hit {
                    self.events.push(ClientEvent::Reject(rid));
                }
            },
        }
    }

    /// Announce swept request failures to the host, oldest id first.
    fn push_failure_events(&mut self, swept: &Vec<(u64, bool)>)
        ensures
            final(self).events@ == old(self).events@ + spec_failure_events(swept@),
            final(self).pending == old(self).pending,
            final(self).actions == old(self).actions,
            final(self).phase == old(self).phase,
            final(self).attempts == old(self).attempts,
            final(self).closed_by_self == old(self).closed_by_self,
            final(self).client_id == old(self).client_id,
            final(self).protocol_version == old(self).protocol_version,
            final(self).auth == old(self).auth,
            final(self).connect_msg == old(self).connect_msg,
            final(self).config == old(self).config,
    {
        let ghost base = self.events@;
        let mut k: usize = 0;
        while k < swept.len()
            invariant
                k <= swept@.len(),
                self.events@.len() == base.len() + k,
                forall|j: int| 0 <= j < base.len() ==> self.events@[j] == base[j],
                forall|j: int|
                    0 <= j < k ==> self.events@[base.len() + j] == spec_failure_events(swept@)[j],
                self.pending == old(self).pending,
                self.actions == old(self).actions,
                self.phase == old(self).phase,
                self.attempts == old(self).attempts,
                self.closed_by_self == old(self).closed_by_self,
                self.client_id == old(self).client_id,
                self.protocol_version == old(self).protocol_version,
                self.auth == old(self).auth,
                self.connect_msg == old(self).connect_msg,
                self.config == old(self).config,
                base == old(self).events@,
            decreases swept@.len() - k,
        {
            let pair = swept[k];
            if pair.1 {
                self.events.push(ClientEvent::ResponseLost(pair.0));
            } else {
                self.events.push(ClientEvent::SendFailed(pair.0));
            }
            k = k + 1;
        }
        proof {
            assert(self.events@ =~= old(self).events@ + spec_failure_events(swept@));
        }
    }

    /// Shut down for good: fail and seal the pending requests, announce
    /// each failure, and let the dead report be the last event.
    fn shut_down(&mut self)
        requires
            old(self).wf(),
        ensures
            final(self).wf(),
            final(self).phase is Dead,
            final(self).pending@.sealed,
            final(self).pending@.next_id == old(self).pending@.next_id,
            final(self).pending@.entries.len() == old(self).pending@.entries.len(),
            forall|j: int|
                0 <= j < old(self).pending@.entries.len() ==> final(self).pending@.entries[j]
                    == spec_fail_entry(old(self).pending@.entries[j]),
            final(self).events@ == old(self).events@ + spec_failure_events(
                spec_sweep(old(self).pending@.entries, 0),
            ) + seq![ClientEvent::Report(ClientReport::IsDead)],
            final(self).actions == old(self).actions,
            final(self).closed_by_self == old(self).closed_by_self,
            final(self).client_id == old(self).client_id,
            final(self).config == old(self).config,
    {
        let swept = self.pending.fail_all();
        self.push_failure_events(&swept);
        self.events.push(ClientEvent::Report(ClientReport::IsDead));
        self.phase = ClientPhase::Dead;
        proof {
            assert(self.events@ =~= old(self).events@ + spec_failure_events(
                spec_sweep(old(self).pending@.entries, 0),
            ) + seq![ClientEvent::Report(ClientReport::IsDead)]);
        }
    }

    /// Record that a connection attempt succeeded: the link is up.
    ///
    /// The attempt budget of the phase that just ended resets on success.
    pub fn on_connected(&mut self)
        requires
            old(self).wf(),
            old(self).phase is Connecting || old(self).phase is Reconnecting,
        ensures
            final(self).wf(),
            final(self).phase is Connected,
            final(self).attempts == 0,
            final(self).events@ == old(self).events@.push(
                ClientEvent::Report(ClientReport::Connected),
            ),
            final(self).actions == old(self).actions,
            final(self).pending == old(self).pending,
            final(self).closed_by_self == old(self).closed_by_self,
            final(self).client_id == old(self).client_id,
            final(self).config == old(self).config,
    {
        self.phase = ClientPhase::Connected;
        self.attempts = 0;
        self.events.push(ClientEvent::Report(ClientReport::Connected));
    }

    /// Record that the link dropped while connected.
    ///
    /// The connected state is cleared before the pending requests are
    /// swept, so no new request can interleave: every request in flight at
    /// the drop is failed, each failure is announced, and the disconnect
    /// report follows them. The client will try to reconnect.
    pub fn on_disconnected(&mut self)
        requires
            old(self).wf(),
            old(self).phase is Connected,
        ensures
            final(self).wf(),
            final(self).phase is Reconnecting,
            final(self).attempts == 0,
            final(self).pending@.next_id == old(self).pending@.next_id,
            final(self).pending@.sealed == old(self).pending@.sealed,
            final(self).pending@.entries.len() == old(self).pending@.entries.len(),
            forall|j: int|
                0 <= j < old(self).pending@.entries.len() ==> final(self).pending@.entries[j]
                    == spec_fail_entry(old(self).pending@.entries[j]),
            final(self).events@ == old(self).events@ + spec_failure_events(
                spec_sweep(old(self).pending@.entries, 0),
            ) + seq![ClientEvent::Report(ClientReport::Disconnected)],
            final(self).actions == old(self).actions,
            final(self).closed_by_self == old(self).closed_by_self,
            final(self).client_id == old(self).client_id,
            final(self).config == old(self).config,
    {
        self.phase = ClientPhase::Reconnecting;
        self.attempts = 0;
        let swept = self.pending.sweep_failures();
        self.push_failure_events(&swept);
        self.events.push(ClientEvent::Report(ClientReport::Disconnected));
        proof {
            assert(self.events@ =~= old(self).events@ + spec_failure_events(
                spec_sweep(old(self).pending@.entries, 0),
            ) + seq![ClientEvent::Report(ClientReport::Disconnected)]);
        }
    }

    /// Record that a connection attempt failed.
    ///
    /// Initial attempts and post-connect reconnects draw on separate
    /// budgets. While the budget lasts the client will try again; once it
    /// is spent the client shuts down for good.
    pub fn on_connect_attempt_failed(&mut self) -> (retry: bool)
        requires
            old(self).wf(),
            old(self).phase is Connecting || old(self).phase is Reconnecting,
            old(self).attempts < u64::MAX,
        ensures
            final(self).wf(),
            ({
                let limit = if old(self).phase is Connecting {
                    old(self).config.max_initial_connect_attempts
                } else {
                    old(self).config.max_reconnect_attempts
                };
                &&& retry == (old(self).attempts + 1 < limit)
                &&& (retry ==> {
                    &&& final(self).phase == old(self).phase
                    &&& final(self).attempts == old(self).attempts + 1
                    &&& final(self).events == old(self).events
                    &&& final(self).actions == old(self).actions
                    &&& final(self).pending == old(self).pending
                    &&& final(self).closed_by_self == old(self).closed_by_self
                })
                &&& (!retry ==> {
                    &&& final(self).phase is Dead
                    &&& final(self).pending@.sealed
                    &&& final(self).events@ == old(self).events@ + spec_failure_events(
                        spec_sweep(old(self).pending@.entries, 0),
                    ) + seq![ClientEvent::Report(ClientReport::IsDead)]
                    &&& final(self).actions == old(self).actions
                    &&& final(self).closed_by_self == old(self).closed_by_self
                })
            }),
            final(self).client_id == old(self).client_id,
            final(self).config == old(self).config,
    {
        let limit = match self.phase {
            ClientPhase::Connecting => self.config.max_initial_connect_attempts,
            _ => self.config.max_reconnect_attempts,
        };
        if self.attempts + 1 < limit {
            self.attempts = self.attempts + 1;
            true
        } else {
            self.shut_down();
            false
        }
    }

    /// Record that the server closed the connection for good.
    ///
    /// The host hears the server's close first; then the client shuts
    /// down, failing whatever was still in flight.
    pub fn on_closed_by_server(&mut self)
        requires
            old(self).wf(),
            !(old(self).phase is Dead),
        ensures
            final(self).wf(),
            final(self).phase is Dead,
            final(self).pending@.sealed,
            final(self).events@ == old(self).events@ + seq![
                ClientEvent::Report(ClientReport::ClosedByServer),
            ] + spec_failure_events(spec_sweep(old(self).pending@.entries, 0)) + seq![
                ClientEvent::Report(ClientReport::IsDead),
            ],
            final(self).actions == old(self).actions,
            final(self).closed_by_self == old(self).closed_by_self,
            final(self).client_id == old(self).client_id,
            final(self).config == old(self).config,
    {
        self.events.push(ClientEvent::Report(ClientReport::ClosedByServer));
        self.shut_down();
        proof {
            assert(self.events@ =~= old(self).events@ + seq![
                ClientEvent::Report(ClientReport::ClosedByServer),
            ] + spec_failure_events(spec_sweep(old(self).pending@.entries, 0)) + seq![
                ClientEvent::Report(ClientReport::IsDead),
            ]);
        }
    }

    /// Close the client.
    ///
    /// New messages and requests cannot be submitted afterwards. The
    /// socket is told to close; the client dies, and in-flight requests
    /// fail, once the transport reports the shutdown. Closing a client
    /// that is already closed does nothing.
    pub fn close(&mut self)
        requires
            old(self).wf(),
        ensures
            final(self).wf(),
            (old(self).closed_by_self || old(self).phase is Dead) ==> *final(self) == *old(self),
            !(old(self).closed_by_self || old(self).phase is Dead) ==> {
                &&& final(self).closed_by_self
                &&& final(self).phase == old(self).phase
                &&& final(self).pending == old(self).pending
                &&& final(self).events@ == old(self).events@.push(
                    ClientEvent::Report(ClientReport::ClosedBySelf),
                )
                &&& final(self).actions@.len() == old(self).actions@.len() + 1
                &&& final(self).actions@.drop_last() == old(self).actions@
                &&& (final(self).actions@.last() matches ClientAction::CloseSocket(f) && f.code
                    is Normal)
            },
            final(self).client_id == old(self).client_id,
            final(self).config == old(self).config,
    {
        if self.is_closed() {
            return;
        }
        let frame = CloseFrame { code: CloseCode::Normal, reason: "client done".to_owned() };
        self.actions.push(ClientAction::CloseSocket(frame));
        self.events.push(ClientEvent::Report(ClientReport::ClosedBySelf));
        self.closed_by_self = true;
    }

    /// Record that the transport driver has finished for good.
    ///
    /// The client shuts down: every request still in flight fails, each
    /// failure is announced, and the dead report is the last event. A
    /// client already dead is left alone.
    pub fn on_dead(&mut self)
        requires
            old(self).wf(),
        ensures
            final(self).wf(),
            final(self).phase is Dead,
            old(self).phase is Dead ==> *final(self) == *old(self),
            !(old(self).phase is Dead) ==> {
                &&& final(self).pending@.sealed
                &&& final(self).events@ == old(self).events@ + spec_failure_events(
                    spec_sweep(old(self).pending@.entries, 0),
                ) + seq![ClientEvent::Report(ClientReport::IsDead)]
                &&& final(self).actions == old(self).actions
                &&& final(self).closed_by_self == old(self).closed_by_self
            },
            final(self).client_id == old(self).client_id,
            final(self).config == old(self).config,
    {
        if self.is_dead() {
            return;
        }
        self.shut_down();
    }

    /// The next client event, oldest first. Once the client is dead and
    /// drained this always returns nothing.
    pub fn next(&mut self) -> (r: Option<ClientEvent>)
        ensures
            final(self).pending == old(self).pending,
            final(self).actions == old(self).actions,
            final(self).phase == old(self).phase,
            final(self).attempts == old(self).attempts,
            final(self).closed_by_self == old(self).closed_by_self,
            final(self).client_id == old(self).client_id,
            final(self).config == old(self).config,
            old(self).events@.len() == 0 ==> r is None && final(self).events@ == old(self).events@,
            old(self).events@.len() > 0 ==> r == Some(old(self).events@[0]) && final(self).events@
                == old(self).events@.remove(0),
    {
        if self.events.len() == 0 {
            None
        } else {
            Some(self.events.remove(0))
        }
    }

    /// The next transport command, oldest first.
    pub fn next_action(&mut self) -> (r: Option<ClientAction>)
        ensures
            final(self).pending == old(self).pending,
            final(self).events == old(self).events,
            final(self).phase == old(self).phase,
            final(self).attempts == old(self).attempts,
            final(self).closed_by_self == old(self).closed_by_self,
            final(self).client_id == old(self).client_id,
            final(self).config == old(self).config,
            old(self).actions@.len() == 0 ==> r is None && final(self).actions@ == old(self).actions@,
            old(self).actions@.len() > 0 ==> r == Some(old(self).actions@[0]) && final(self).actions@ == old(self).actions@.remove(0),
    {
        if self.actions.len() == 0 {
            None
        } else {
            Some(self.actions.remove(0))
        }
    }

    /// The connection query presented on every connection attempt: the
    /// baked-in protocol version, the environment's name, and this
    /// client's authentication request and connect message.
    pub fn connection_request(&self, env: EnvType) -> (r: ConnectionRequest)
        ensures
            r.protocol_version@ == self.protocol_version@,
            crate::prevalidator::spec_env_of(r.env_type@) == Some(env),
            r.auth@ == self.auth@,
            r.connect_msg@ == self.connect_msg@,
    {
        ConnectionRequest {
            protocol_version: self.protocol_version.to_owned(),
            env_type: env_type_as_str(env).to_owned(),
            auth: self.auth.duplicate(),
            connect_msg: slice_to_vec(self.connect_msg.as_slice()),
        }
    }
}

/// The request round trip: the request frame a client queues decodes on
/// the server to the same payload and request id; the response frame the
/// server queues for that id decodes on the client to the same payload
/// and id; and a request still pending resolves — exactly once — to its
/// response outcome. Together with the contracts of [`Client::request`],
/// the server's dispatch and respond, and [`Client::handle_server_frame`],
/// this pins the host-visible outcome: `Response(q, rid)` with the very
/// `rid` the request was assigned.
pub proof fn lemma_request_response_round_trip(
    p: Seq<u8>,
    q: Seq<u8>,
    rid: u64,
    t: crate::pending::TrackerView,
)
    requires
        t.wf(),
        t.status(rid) matches Some(s) && !crate::pending::is_terminal(s),
    ensures
        spec_decode_client(spec_encode_client(ClientFrameView::Request(p, rid))) == Some(
            ClientFrameView::Request(p, rid),
        ),
        spec_decode_server(spec_encode_server(ServerFrameView::Response(q, rid))) == Some(
            ServerFrameView::Response(q, rid),
        ),
        spec_resolve(t, rid, RequestOutcome::Response).1,
        spec_resolve(t, rid, RequestOutcome::Response).0.status(rid) == Some(
            RequestStatus::ResponseReceived,
        ),
        !spec_resolve(
            spec_resolve(t, rid, RequestOutcome::Response).0,
            rid,
            RequestOutcome::Response,
        ).1,
{
    crate::frames::lemma_client_codec_round_trip(ClientFrameView::Request(p, rid));
    crate::frames::lemma_server_codec_round_trip(ServerFrameView::Response(q, rid));
}

/// Ordering within a session: submissions queue in submission order, and
/// the queues hand elements out oldest first, so messages sent from one
/// side arrive in the order they were sent, absent a disconnect.
pub proof fn lemma_ordering_within_session<T>(q: Seq<T>, m1: T, m2: T, m3: T)
    ensures
        ({
            let q3 = q.push(m1).push(m2).push(m3);
            &&& q3.len() == q.len() + 3
            &&& q3[q.len() as int] == m1
            &&& q3[q.len() as int + 1] == m2
            &&& q3[q.len() as int + 2] == m3
        }),
{
}

/// Factory for producing clients that all bake in the same protocol
/// version, so every connection carries it for prevalidation.
#[derive(Debug, Clone)]
pub struct ClientFactory {
    protocol_version: &'static str,
}

impl ClientFactory {
    /// The protocol version this factory bakes into clients.
    pub closed spec fn spec_protocol_version(&self) -> Seq<char> {
        self.protocol_version@
    }

    /// Make a new client factory with a given protocol version.
    pub fn new(protocol_version: &'static str) -> (r: Self)
        ensures
            r.spec_protocol_version() == protocol_version@,
    {
        ClientFactory { protocol_version }
    }

    /// New client.
    ///
    /// The client's id is taken from its authentication request. It
    /// starts out trying to connect, with nothing pending and nothing to
    /// report; the embedding application owns the socket and drives the
    /// lifecycle callbacks.
    pub fn new_client(
        &self,
        auth: AuthRequest,
        config: ClientConfig,
        connect_msg: Vec<u8>,
    ) -> (r: Client)
        ensures
            r.wf(),
            r.client_id == auth@.client_id(),
            r.protocol_version@ == self.spec_protocol_version(),
            r.auth == auth,
            r.connect_msg == connect_msg,
            r.config == config,
            r.phase is Connecting,
            r.attempts == 0,
            !r.closed_by_self,
            r.pending@.next_id == 1,
            r.pending@.entries.len() == 0,
            !r.pending@.sealed,
            r.events@.len() == 0,
            r.actions@.len() == 0,
    {
        let client_id = auth.client_id();
        Client {
            client_id,
            protocol_version: self.protocol_version,
            auth,
            connect_msg,
            config,
            phase: ClientPhase::Connecting,
            attempts: 0,
            closed_by_self: false,
            pending: PendingRequestTracker::new(),
            events: Vec::new(),
            actions: Vec::new(),
        }
    }
}

} // verus!
