//! Wire frames and their binary codec.
//!
//! Application payloads are opaque byte strings. The codec encodes the
//! tagged union of frames deterministically: a one-byte tag, then for
//! request-correlated frames the request id as eight little-endian bytes,
//! then the payload. Decoding is proved to invert encoding exactly.
//!
//! Environments that cannot issue control-frame pings carry heartbeats as
//! text frames holding a fixed sentinel; [`is_heartbeat`] recognises it.
use vstd::prelude::*;
use vstd::bytes::{
    lemma_auto_spec_u64_to_from_le_bytes, spec_u64_from_le_bytes, spec_u64_to_le_bytes,
    u64_from_le_bytes, u64_to_le_bytes,
};
use vstd::slice::{slice_subrange, slice_to_vec};

verus! {

/// Tag byte of a fire-and-forget message, either direction.
pub const FRAME_TAG_MSG: u8 = 1;
/// Tag byte of a client request.
pub const FRAME_TAG_REQUEST: u8 = 2;
/// Tag byte of a server response carrying a payload.
pub const FRAME_TAG_RESPONSE: u8 = 3;
/// Tag byte of a server acknowledgement.
pub const FRAME_TAG_ACK: u8 = 4;
/// Tag byte of a server rejection.
pub const FRAME_TAG_REJECT: u8 = 5;

/// A frame travelling client to server.
#[derive(Debug, Clone, PartialEq, Eq)]
pub enum ClientFrame {
    /// Fire-and-forget payload.
    Msg(Vec<u8>),
    /// A request that the server must answer; carries the request id.
    Request(Vec<u8>, u64),
}

/// Mathematical model of a [`ClientFrame`].
pub enum ClientFrameView {
    Msg(Seq<u8>),
    Request(Seq<u8>, u64),
}

impl View for ClientFrame {
    type V = ClientFrameView;

    open spec fn view(&self) -> ClientFrameView {
        match self {
            ClientFrame::Msg(p) => ClientFrameView::Msg(p@),
            ClientFrame::Request(p, rid) => ClientFrameView::Request(p@, *rid),
        }
    }
}

/// A frame travelling server to client.
#[derive(Debug, Clone, PartialEq, Eq)]
pub enum ServerFrame {
    /// Fire-and-forget payload.
    Msg(Vec<u8>),
    /// Terminal positive outcome of a request, with a payload.
    Response(Vec<u8>, u64),
    /// Terminal positive outcome of a request, without payload.
    Ack(u64),
    /// Terminal negative outcome of a request.
    Reject(u64),
}

/// Mathematical model of a [`ServerFrame`].
pub enum ServerFrameView {
    Msg(Seq<u8>),
    Response(Seq<u8>, u64),
    Ack(u64),
    Reject(u64),
}

impl View for ServerFrame {
    type V = ServerFrameView;

    open spec fn view(&self) -> ServerFrameView {
        match self {
            ServerFrame::Msg(p) => ServerFrameView::Msg(p@),
            ServerFrame::Response(p, rid) => ServerFrameView::Response(p@, *rid),
            ServerFrame::Ack(rid) => ServerFrameView::Ack(*rid),
            ServerFrame::Reject(rid) => ServerFrameView::Reject(*rid),
        }
    }
}

/// The bytes that encode a client-to-server frame.
pub open spec fn spec_encode_client(f: ClientFrameView) -> Seq<u8> {
    match f {
        ClientFrameView::Msg(p) => seq![FRAME_TAG_MSG] + p,
        ClientFrameView::Request(p, rid) => seq![FRAME_TAG_REQUEST] + spec_u64_to_le_bytes(rid)
            + p,
    }
}

/// The client-to-server frame that a byte string decodes to, if any.
pub open spec fn spec_decode_client(b: Seq<u8>) -> Option<ClientFrameView> {
    if b.len() == 0 {
        None
    } else if b[0] == FRAME_TAG_MSG {
        Some(ClientFrameView::Msg(b.skip(1)))
    } else if b[0] == FRAME_TAG_REQUEST && b.len() >= 9 {
        Some(ClientFrameView::Request(b.skip(9), spec_u64_from_le_bytes(b.subrange(1, 9))))
    } else {
        None
    }
}

/// The bytes that encode a server-to-client frame.
pub open spec fn spec_encode_server(f: ServerFrameView) -> Seq<u8> {
    match f {
        ServerFrameView::Msg(p) => seq![FRAME_TAG_MSG] + p,
        ServerFrameView::Response(p, rid) => seq![FRAME_TAG_RESPONSE] + spec_u64_to_le_bytes(rid)
            + p,
        ServerFrameView::Ack(rid) => seq![FRAME_TAG_ACK] + spec_u64_to_le_bytes(rid),
        ServerFrameView::Reject(rid) => seq![FRAME_TAG_REJECT] + spec_u64_to_le_bytes(rid),
    }
}

/// The server-to-client frame that a byte string decodes to, if any.
pub open spec fn spec_decode_server(b: Seq<u8>) -> Option<ServerFrameView> {
    if b.len() == 0 {
        None
    } else if b[0] == FRAME_TAG_MSG {
        Some(ServerFrameView::Msg(b.skip(1)))
    } else if b[0] == FRAME_TAG_RESPONSE && b.len() >= 9 {
        Some(ServerFrameView::Response(b.skip(9), spec_u64_from_le_bytes(b.subrange(1, 9))))
    } else if b[0] == FRAME_TAG_ACK && b.len() == 9 {
        Some(ServerFrameView::Ack(spec_u64_from_le_bytes(b.subrange(1, 9))))
    } else if b[0] == FRAME_TAG_REJECT && b.len() == 9 {
        Some(ServerFrameView::Reject(spec_u64_from_le_bytes(b.subrange(1, 9))))
    } else {
        None
    }
}

/// Decoding inverts encoding for client-to-server frames.
pub proof fn lemma_client_codec_round_trip(f: ClientFrameView)
    ensures
        spec_decode_client(spec_encode_client(f)) == Some(f),
{
    lemma_auto_spec_u64_to_from_le_bytes();
    match f {
        ClientFrameView::Msg(p) => {
            let e = spec_encode_client(f);
            assert(e.skip(1) =~= p);
        }
        ClientFrameView::Request(p, rid) => {
            let e = spec_encode_client(f);
            assert(e.subrange(1, 9) =~= spec_u64_to_le_bytes(rid));
            assert(e.skip(9) =~= p);
        }
    }
}

/// Decoding inverts encoding for server-to-client frames.
pub proof fn lemma_server_codec_round_trip(f: ServerFrameView)
    ensures
        spec_decode_server(spec_encode_server(f)) == Some(f),
{
    lemma_auto_spec_u64_to_from_le_bytes();
    match f {
        ServerFrameView::Msg(p) => {
            let e = spec_encode_server(f);
            assert(e.skip(1) =~= p);
        }
        ServerFrameView::Response(p, rid) => {
            let e = spec_encode_server(f);
            assert(e.subrange(1, 9) =~= spec_u64_to_le_bytes(rid));
            assert(e.skip(9) =~= p);
        }
        ServerFrameView::Ack(rid) => {
            let e = spec_encode_server(f);
            assert(e.subrange(1, 9) =~= spec_u64_to_le_bytes(rid));
        }
        ServerFrameView::Reject(rid) => {
            let e = spec_encode_server(f);
            assert(e.subrange(1, 9) =~= spec_u64_to_le_bytes(rid));
        }
    }
}

/// Encode a client-to-server frame.
pub fn encode_client_frame(f: &ClientFrame) -> (r: Vec<u8>)
    ensures
        r@ == spec_encode_client(f@),
{
    match f {
        ClientFrame::Msg(p) => {
            let mut out: Vec<u8> = Vec::new();
            out.push(FRAME_TAG_MSG);
            out.extend_from_slice(p.as_slice());
            proof {
                assert(out@ =~= spec_encode_client(f@));
            }
            out
        }
        ClientFrame::Request(p, rid) => {
            let mut out: Vec<u8> = Vec::new();
            out.push(FRAME_TAG_REQUEST);
            let mut rid_bytes = u64_to_le_bytes(*rid);
            out.append(&mut rid_bytes);
            out.extend_from_slice(p.as_slice());
            proof {
                assert(out@ =~= spec_encode_client(f@));
            }
            out
        }
    }
}

/// Encode a server-to-client frame.
pub fn encode_server_frame(f: &ServerFrame) -> (r: Vec<u8>)
    ensures
        r@ == spec_encode_server(f@),
{
    match f {
        ServerFrame::Msg(p) => {
            let mut out: Vec<u8> = Vec::new();
            out.push(FRAME_TAG_MSG);
            out.extend_from_slice(p.as_slice());
            proof {
                assert(out@ =~= spec_encode_server(f@));
            }
            out
        }
        ServerFrame::Response(p, rid) => {
            let mut out: Vec<u8> = Vec::new();
            out.push(FRAME_TAG_RESPONSE);
            let mut rid_bytes = u64_to_le_bytes(*rid);
            out.append(&mut rid_bytes);
            out.extend_from_slice(p.as_slice());
            proof {
                assert(out@ =~= spec_encode_server(f@));
            }
            out
        }
        ServerFrame::Ack(rid) => {
            let mut out: Vec<u8> = Vec::new();
            out.push(FRAME_TAG_ACK);
            let mut rid_bytes = u64_to_le_bytes(*rid);
            out.append(&mut rid_bytes);
            proof {
                assert(out@ =~= spec_encode_server(f@));
            }
            out
        }
        ServerFrame::Reject(rid) => {
            let mut out: Vec<u8> = Vec::new();
            out.push(FRAME_TAG_REJECT);
            let mut rid_bytes = u64_to_le_bytes(*rid);
            out.append(&mut rid_bytes);
            proof {
                assert(out@ =~= spec_encode_server(f@));
            }
            out
        }
    }
}

/// Decode a client-to-server frame; `None` on malformed input.
pub fn decode_client_frame(b: &[u8]) -> (r: Option<ClientFrame>)
    ensures
        match r {
            Some(f) => spec_decode_client(b@) == Some(f@),
            None => spec_decode_client(b@) is None,
        },
{
    if b.len() == 0 {
        return None;
    }
    let tag = *vstd::slice::slice_index_get(b, 0);
    if tag == FRAME_TAG_MSG {
        let payload = slice_to_vec(slice_subrange(b, 1, b.len()));
        proof {
            assert(payload@ =~= b@.skip(1));
        }
        Some(ClientFrame::Msg(payload))
    } else if tag == FRAME_TAG_REQUEST {
        if b.len() < 9 {
            return None;
        }
        let rid = u64_from_le_bytes(slice_subrange(b, 1, 9));
        let payload = slice_to_vec(slice_subrange(b, 9, b.len()));
        proof {
            assert(payload@ =~= b@.skip(9));
        }
        Some(ClientFrame::Request(payload, rid))
    } else {
        None
    }
}

/// Decode a server-to-client frame; `None` on malformed input.
pub fn decode_server_frame(b: &[u8]) -> (r: Option<ServerFrame>)
    ensures
        match r {
            Some(f) => spec_decode_server(b@) == Some(f@),
            None => spec_decode_server(b@) is None,
        },
{
    if b.len() == 0 {
        return None;
    }
    let tag = *vstd::slice::slice_index_get(b, 0);
    if tag == FRAME_TAG_MSG {
        let payload = slice_to_vec(slice_subrange(b, 1, b.len()));
        proof {
            assert(payload@ =~= b@.skip(1));
        }
        Some(ServerFrame::Msg(payload))
    } else if tag == FRAME_TAG_RESPONSE {
        if b.len() < 9 {
            return None;
        }
        let rid = u64_from_le_bytes(slice_subrange(b, 1, 9));
        let payload = slice_to_vec(slice_subrange(b, 9, b.len()));
        proof {
            assert(payload@ =~= b@.skip(9));
        }
        Some(ServerFrame::Response(payload, rid))
    } else if tag == FRAME_TAG_ACK {
        if b.len() != 9 {
            return None;
        }
        let rid = u64_from_le_bytes(slice_subrange(b, 1, 9));
        Some(ServerFrame::Ack(rid))
    } else if tag == FRAME_TAG_REJECT {
        if b.len() != 9 {
            return None;
        }
        let rid = u64_from_le_bytes(slice_subrange(b, 1, 9));
        Some(ServerFrame::Reject(rid))
    } else {
        None
    }
}

/// The heartbeat sentinel text, as bytes.
pub open spec fn spec_heartbeat_ping() -> Seq<u8> {
    seq![112u8, 105u8, 110u8, 103u8]
}

/// The heartbeat reply text, as bytes.
pub open spec fn spec_heartbeat_pong() -> Seq<u8> {
    seq![112u8, 111u8, 110u8, 103u8]
}

/// The text payload probing liveness where control-frame pings are unavailable.
pub fn heartbeat_ping() -> (r: Vec<u8>)
    ensures
        r@ == spec_heartbeat_ping(),
{
    let mut out: Vec<u8> = Vec::new();
    out.push(112u8);
    out.push(105u8);
    out.push(110u8);
    out.push(103u8);
    proof {
        assert(out@ =~= spec_heartbeat_ping());
    }
    out
}

/// The text payload answering a heartbeat probe.
pub fn heartbeat_pong() -> (r: Vec<u8>)
    ensures
        r@ == spec_heartbeat_pong(),
{
    let mut out: Vec<u8> = Vec::new();
    out.push(112u8);
    out.push(111u8);
    out.push(110u8);
    out.push(103u8);
    proof {
        assert(out@ =~= spec_heartbeat_pong());
    }
    out
}

/// The reply a peer owes an inbound text payload: the probe sentinel is
/// answered with the reply sentinel, anything else — including the reply
/// itself — is answered with nothing.
pub fn heartbeat_reply(b: &[u8]) -> (r: Option<Vec<u8>>)
    ensures
        b@ == spec_heartbeat_ping() ==> (r matches Some(p) && p@ == spec_heartbeat_pong()),
        b@ != spec_heartbeat_ping() ==> r is None,
{
    if b.len() != 4 {
        proof {
            assert(b@ != spec_heartbeat_ping());
        }
        return None;
    }
    let b0 = *vstd::slice::slice_index_get(b, 0);
    let b1 = *vstd::slice::slice_index_get(b, 1);
    let b2 = *vstd::slice::slice_index_get(b, 2);
    let b3 = *vstd::slice::slice_index_get(b, 3);
    if b0 == 112 && b1 == 105 && b2 == 110 && b3 == 103 {
        proof {
            assert(b@ =~= spec_heartbeat_ping());
        }
        Some(heartbeat_pong())
    } else {
        proof {
            if b@ == spec_heartbeat_ping() {
                assert(b0 == 112 && b1 == 105 && b2 == 110 && b3 == 103);
            }
        }
        None
    }
}

/// Whether a text payload is exactly the heartbeat sentinel or its reply.
///
/// Heartbeats bypass rate limiting and never reach the application.
pub fn is_heartbeat(b: &[u8]) -> (r: bool)
    ensures
        r == (b@ == spec_heartbeat_ping() || b@ == spec_heartbeat_pong()),
{
    if b.len() != 4 {
        proof {
            assert(b@ != spec_heartbeat_ping());
            assert(b@ != spec_heartbeat_pong());
        }
        return false;
    }
    let b0 = *vstd::slice::slice_index_get(b, 0);
    let b1 = *vstd::slice::slice_index_get(b, 1);
    let b2 = *vstd::slice::slice_index_get(b, 2);
    let b3 = *vstd::slice::slice_index_get(b, 3);
    let ping = b0 == 112 && b1 == 105 && b2 == 110 && b3 == 103;
    let pong = b0 == 112 && b1 == 111 && b2 == 110 && b3 == 103;
    proof {
        if ping {
            assert(b@ =~= spec_heartbeat_ping());
        }
        if pong {
            assert(b@ =~= spec_heartbeat_pong());
        }
        if b@ == spec_heartbeat_ping() {
            assert(ping);
        }
        if b@ == spec_heartbeat_pong() {
            assert(pong);
        }
    }
    ping || pong
}

} // verus!
