//! One-shot capability to answer a client request.
//!
//! A token is minted when a request frame is dispatched to the host and is
//! consumed, by value, by exactly one of respond, acknowledge or reject —
//! ownership makes a second consumption impossible. The token remembers
//! the generation of the session it came from; once that session is gone,
//! the token's destination counts as dead and consuming it sends nothing.
use vstd::prelude::*;

verus! {

/// The capability to answer one client request.
///
/// A host that will not answer a request hands the token back through the
/// server's reject call, which synthesizes the rejection frame the client
/// is owed.
#[derive(Debug)]
pub struct RequestToken {
    client_id: u128,
    request_id: u64,
    session_gen: u64,
}

impl RequestToken {
    /// The id of the client that issued the request.
    pub closed spec fn spec_client_id(&self) -> u128 {
        self.client_id
    }

    /// The request id the client chose.
    pub closed spec fn spec_request_id(&self) -> u64 {
        self.request_id
    }

    /// The generation of the session the request arrived on.
    pub closed spec fn spec_session_gen(&self) -> u64 {
        self.session_gen
    }

    /// Mint the token for one dispatched request.
    pub(crate) fn new(client_id: u128, request_id: u64, session_gen: u64) -> (r: Self)
        ensures
            r.spec_client_id() == client_id,
            r.spec_request_id() == request_id,
            r.spec_session_gen() == session_gen,
    {
        RequestToken { client_id, request_id, session_gen }
    }

    /// The id of the client that issued the request.
    pub fn client_id(&self) -> (r: u128)
        ensures
            r == self.spec_client_id(),
    {
        self.client_id
    }

    /// The request id the client chose.
    pub fn request_id(&self) -> (r: u64)
        ensures
            r == self.spec_request_id(),
    {
        self.request_id
    }

    /// The generation of the session the request arrived on.
    pub(crate) fn session_gen_value(&self) -> (r: u64)
        ensures
            r == self.spec_session_gen(),
    {
        self.session_gen
    }
}

} // verus!
