//! Client identity and connection-time authentication.
//!
//! A client presents an authentication request in its connection query; the
//! server holds an authenticator, a pure predicate over that request.
use vstd::prelude::*;

verus! {

/// What a client presents at connection time.
///
/// Every variant carries the 128-bit client identifier the client chose
/// for itself.
#[derive(Debug, Clone)]
pub enum AuthRequest {
    /// Identity alone, with no proof.
    Anonymous { client_id: u128 },
    /// Identity plus a token the server is expected to recognise.
    Token { client_id: u128, token: Vec<u8> },
    /// Identity plus a shared secret.
    Secret { client_id: u128, secret: Vec<u8> },
}

/// Mathematical model of an [`AuthRequest`].
pub enum AuthRequestView {
    Anonymous { client_id: u128 },
    Token { client_id: u128, token: Seq<u8> },
    Secret { client_id: u128, secret: Seq<u8> },
}

impl View for AuthRequest {
    type V = AuthRequestView;

    open spec fn view(&self) -> AuthRequestView {
        match self {
            AuthRequest::Anonymous { client_id } => AuthRequestView::Anonymous {
                client_id: *client_id,
            },
            AuthRequest::Token { client_id, token } => AuthRequestView::Token {
                client_id: *client_id,
                token: token@,
            },
            AuthRequest::Secret { client_id, secret } => AuthRequestView::Secret {
                client_id: *client_id,
                secret: secret@,
            },
        }
    }
}

impl AuthRequestView {
    /// The client identifier carried by any variant.
    pub open spec fn client_id(&self) -> u128 {
        match self {
            AuthRequestView::Anonymous { client_id } => *client_id,
            AuthRequestView::Token { client_id, .. } => *client_id,
            AuthRequestView::Secret { client_id, .. } => *client_id,
        }
    }
}

impl AuthRequest {
    /// A value-equal copy, presented anew on each connection attempt.
    pub fn duplicate(&self) -> (r: AuthRequest)
        ensures
            r@ == self@,
    {
        match self {
            AuthRequest::Anonymous { client_id } => AuthRequest::Anonymous {
                client_id: *client_id,
            },
            AuthRequest::Token { client_id, token } => AuthRequest::Token {
                client_id: *client_id,
                token: vstd::slice::slice_to_vec(token.as_slice()),
            },
            AuthRequest::Secret { client_id, secret } => AuthRequest::Secret {
                client_id: *client_id,
                secret: vstd::slice::slice_to_vec(secret.as_slice()),
            },
        }
    }

    /// The client identifier carried by any variant.
    pub fn client_id(&self) -> (r: u128)
        ensures
            r == self@.client_id(),
    {
        match self {
            AuthRequest::Anonymous { client_id } => *client_id,
            AuthRequest::Token { client_id, .. } => *client_id,
            AuthRequest::Secret { client_id, .. } => *client_id,
        }
    }
}

/// The server's admission predicate over authentication requests.
#[derive(Debug, Clone)]
pub enum Authenticator {
    /// Admit every request.
    Open,
    /// Admit token requests whose token equals the configured key.
    Token { key: Vec<u8> },
    /// Admit secret requests whose secret equals the configured one.
    Secret { secret: Vec<u8> },
}

/// Mathematical model of an [`Authenticator`].
pub enum AuthenticatorView {
    Open,
    Token { key: Seq<u8> },
    Secret { secret: Seq<u8> },
}

impl View for Authenticator {
    type V = AuthenticatorView;

    open spec fn view(&self) -> AuthenticatorView {
        match self {
            Authenticator::Open => AuthenticatorView::Open,
            Authenticator::Token { key } => AuthenticatorView::Token { key: key@ },
            Authenticator::Secret { secret } => AuthenticatorView::Secret { secret: secret@ },
        }
    }
}

/// Whether an authenticator admits a request.
pub open spec fn spec_authenticate(a: AuthenticatorView, r: AuthRequestView) -> bool {
    match a {
        AuthenticatorView::Open => true,
        AuthenticatorView::Token { key } => r matches AuthRequestView::Token { token, .. }
            && token == key,
        AuthenticatorView::Secret { secret } => r matches AuthRequestView::Secret {
            secret: presented,
            ..
        } && presented == secret,
    }
}

/// Byte-string equality.
pub fn bytes_eq(a: &Vec<u8>, b: &Vec<u8>) -> (r: bool)
    ensures
        r == (a@ == b@),
{
    if a.len() != b.len() {
        return false;
    }
    let mut i: usize = 0;
    while i < a.len()
        invariant
            a@.len() == b@.len(),
            i <= a@.len(),
            forall|j: int| 0 <= j < i ==> a@[j] == b@[j],
        decreases a@.len() - i,
    {
        if a[i] != b[i] {
            return false;
        }
        i = i + 1;
    }
    proof {
        assert(a@ =~= b@);
    }
    true
}

/// Decide whether the authenticator admits the request.
pub fn authenticate(a: &Authenticator, r: &AuthRequest) -> (admitted: bool)
    ensures
        admitted == spec_authenticate(a@, r@),
{
    match a {
        Authenticator::Open => true,
        Authenticator::Token { key } => {
            match r {
                AuthRequest::Token { token, .. } => bytes_eq(token, key),
                _ => false,
            }
        }
        Authenticator::Secret { secret } => {
            match r {
                AuthRequest::Secret { secret: presented, .. } => bytes_eq(presented, secret),
                _ => false,
            }
        }
    }
}

} // verus!
