//! The data a handshake is made of: client identity, the two hello shapes,
//! the successful result, and the typed rejections.

use vstd::prelude::*;

verus! {

/// Opaque token uniquely naming a connecting client for the lifetime of its
/// session; the ownership comparator for subdomain collisions.
#[derive(Debug)]
pub struct ClientId(pub String);

impl View for ClientId {
    type V = Seq<char>;

    open spec fn view(&self) -> Seq<char> {
        self.0@
    }
}

impl PartialEq for ClientId {
    fn eq(&self, other: &ClientId) -> bool {
        self.0 == other.0
    }
}

impl vstd::std_specs::cmp::PartialEqSpecImpl for ClientId {
    open spec fn obeys_eq_spec() -> bool {
        true
    }

    open spec fn eq_spec(&self, other: &ClientId) -> bool {
        self@ == other@
    }
}

impl Clone for ClientId {
    fn clone(&self) -> (r: Self)
        ensures
            r@ == self@,
    {
        ClientId(self.0.clone())
    }
}

/// Credential presented by an authenticated client.
#[derive(Debug)]
pub struct SecretKey(pub String);

impl View for SecretKey {
    type V = Seq<char>;

    open spec fn view(&self) -> Seq<char> {
        self.0@
    }
}

impl Clone for SecretKey {
    fn clone(&self) -> (r: Self)
        ensures
            r@ == self@,
    {
        SecretKey(self.0.clone())
    }
}

/// Legacy hello shape: an identifier and an optional requested name; legacy
/// clients are always treated as anonymous.
pub struct ClientHelloV1 {
    pub id: ClientId,
    pub sub_domain: Option<String>,
}

/// Declared type of a current-format client.
pub enum ClientType {
    Anonymous,
    Auth { key: SecretKey },
}

/// Current hello shape: an identifier, an optional requested name, and the
/// declared client type.
pub struct ClientHello {
    pub id: ClientId,
    pub sub_domain: Option<String>,
    pub client_type: ClientType,
}

/// Produced exactly once per successful handshake; the seed of the tunnel
/// session that the connection-lifecycle owner goes on to register.
#[derive(Debug)]
pub struct ClientHandshake {
    pub id: ClientId,
    pub sub_domain: String,
    pub is_anonymous: bool,
}

/// The one reply written to the client when a handshake is refused.
#[derive(Clone, Copy, Debug, PartialEq, Eq, Structural)]
pub enum RejectionReply {
    AuthFailed,
    SubDomainInUse,
    InvalidSubDomain,
}

/// Decision of the auth adjudicator for a credential and a requested name.
#[derive(Clone, Copy, Debug, PartialEq, Eq, Structural)]
pub enum AuthResult {
    Available,
    ReservedByYou,
    ReservedByOther,
}

/// Failure of the adjudication call itself, as opposed to a denial.
#[derive(Clone, Copy, Debug, PartialEq, Eq, Structural)]
pub struct AuthError;

} // verus!
