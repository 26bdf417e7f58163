//! The handshake negotiator: dispatch over the two wire shapes and the
//! declared client type, producing either a validated handshake result or a
//! typed rejection.

use vstd::prelude::*;

use crate::auth::{adjudicated, env_auth_sub_domain};
use crate::casefold::lower_of;
use crate::domain::{
    AuthResult, ClientHandshake, ClientHello, ClientHelloV1, ClientType, RejectionReply,
};
use crate::namegen::{generated_domain, prefixed_domain, prefixed_random_domain, random_domain};
use crate::registry::Registry;
use crate::sanitize::{sanitize_outcome, sanitize_sub_domain_and_pre_validate};

verus! {

/// What the legacy path decides: with no requested name a fresh anonymous
/// domain; with one, sanitization and then a prefixed random variant, so a
/// legacy client never holds an exact literal name.
pub open spec fn legacy_outcome(
    hello: ClientHelloV1,
    reg: Seq<(Seq<char>, Seq<char>)>,
    blocked: Seq<String>,
    r: Result<ClientHandshake, RejectionReply>,
) -> bool {
    match hello.sub_domain {
        None => r matches Ok(h) && h.id@ == hello.id@ && h.is_anonymous && generated_domain(
            h.sub_domain@,
        ),
        Some(requested) => match sanitize_outcome(requested@, hello.id@, reg, blocked) {
            Ok(folded) => r matches Ok(h) && h.id@ == hello.id@ && h.is_anonymous
                && prefixed_domain(h.sub_domain@, folded),
            Err(e) => r == Err::<ClientHandshake, RejectionReply>(e),
        },
    }
}

/// What the current path decides. Anonymous clients are never rejected: a
/// requested name is used, unchecked, only as the prefix of a random variant.
/// Authenticated clients get the exact sanitized name when the adjudicator
/// grants it, SubDomainInUse when it refuses, and a fresh domain (with the
/// credential left unverified) when no name was requested.
pub open spec fn current_outcome(
    hello: ClientHello,
    reg: Seq<(Seq<char>, Seq<char>)>,
    blocked: Seq<String>,
    allowed: Seq<String>,
    r: Result<ClientHandshake, RejectionReply>,
) -> bool {
    match hello.client_type {
        ClientType::Anonymous => match hello.sub_domain {
            Some(requested) => r matches Ok(h) && h.id@ == hello.id@ && h.is_anonymous
                && prefixed_domain(h.sub_domain@, requested@),
            None => r matches Ok(h) && h.id@ == hello.id@ && h.is_anonymous && generated_domain(
                h.sub_domain@,
            ),
        },
        ClientType::Auth { key } => match hello.sub_domain {
            None => r matches Ok(h) && h.id@ == hello.id@ && !h.is_anonymous && generated_domain(
                h.sub_domain@,
            ),
            Some(requested) => match sanitize_outcome(requested@, hello.id@, reg, blocked) {
                Err(e) => r == Err::<ClientHandshake, RejectionReply>(e),
                Ok(folded) => match adjudicated(allowed, key@) {
                    AuthResult::Available | AuthResult::ReservedByYou => r matches Ok(h)
                        && h.id@ == hello.id@ && !h.is_anonymous && h.sub_domain@ == folded,
                    AuthResult::ReservedByOther => r == Err::<ClientHandshake, RejectionReply>(
                        RejectionReply::SubDomainInUse,
                    ),
                },
            },
        },
    }
}

/// A legacy hello that requested a name is never granted that name's
/// sanitized form itself: the assigned domain is a strictly longer, prefixed
/// variant.
pub proof fn lemma_legacy_never_exact(
    hello: ClientHelloV1,
    reg: Seq<(Seq<char>, Seq<char>)>,
    blocked: Seq<String>,
    h: ClientHandshake,
)
    requires
        legacy_outcome(hello, reg, blocked, Ok(h)),
    ensures
        match hello.sub_domain {
            Some(requested) => h.sub_domain@ != lower_of(requested@),
            None => true,
        },
{
    match hello.sub_domain {
        Some(requested) => {
            let folded = lower_of(requested@);
            match sanitize_outcome(requested@, hello.id@, reg, blocked) {
                Ok(s) => {
                    assert(prefixed_domain(h.sub_domain@, folded));
                    assert(h.sub_domain@.len() != folded.len());
                },
                Err(_) => {},
            }
        },
        None => {},
    }
}

/// Handle a legacy hello. The result is always anonymous, and an assigned
/// name is never the literal requested one.
pub fn auth_client_v1(
    client_hello: ClientHelloV1,
    registry: &Registry,
    blocked_sub_domains: &Vec<String>,
) -> (r: Result<ClientHandshake, RejectionReply>)
    ensures
        legacy_outcome(client_hello, registry@, blocked_sub_domains@, r),
{
    let ClientHelloV1 { id, sub_domain } = client_hello;
    let sub_domain = match sub_domain {
        None => random_domain(),
        // otherwise, try to assign the sub domain
        Some(requested) => {
            let sanitized = match sanitize_sub_domain_and_pre_validate(
                &requested,
                &id,
                registry,
                blocked_sub_domains,
            ) {
                Ok(s) => s,
                Err(e) => {
                    return Err(e);
                },
            };
            // don't allow specified domains for anonymous legacy clients
            prefixed_random_domain(&sanitized)
        },
    };
    Ok(ClientHandshake { id, sub_domain, is_anonymous: true })
}

/// Handle a current-format hello, dispatching on the declared client type.
pub fn auth_client(
    client_hello: ClientHello,
    registry: &Registry,
    blocked_sub_domains: &Vec<String>,
    allowed_keys: &Vec<String>,
) -> (r: Result<ClientHandshake, RejectionReply>)
    ensures
        current_outcome(client_hello, registry@, blocked_sub_domains@, allowed_keys@, r),
{
    let ClientHello { id, sub_domain, client_type } = client_hello;
    let (auth_key, requested_sub_domain) = match client_type {
        ClientType::Anonymous => {
            let sub_domain = match sub_domain {
                Some(requested) => prefixed_random_domain(&requested),
                None => random_domain(),
            };
            return Ok(ClientHandshake { id, sub_domain, is_anonymous: true });
        },
        ClientType::Auth { key } => match sub_domain {
            Some(requested) => {
                let sanitized = match sanitize_sub_domain_and_pre_validate(
                    &requested,
                    &id,
                    registry,
                    blocked_sub_domains,
                ) {
                    Ok(s) => s,
                    Err(e) => {
                        return Err(e);
                    },
                };
                (key, sanitized)
            },
            None => {
                let sub_domain = random_domain();
                return Ok(ClientHandshake { id, sub_domain, is_anonymous: false });
            },
        },
    };

    // next authenticate the sub-domain
    let sub_domain = match env_auth_sub_domain(allowed_keys, &auth_key.0, &requested_sub_domain) {
        Ok(AuthResult::Available) | Ok(AuthResult::ReservedByYou) => requested_sub_domain,
        Ok(AuthResult::ReservedByOther) => {
            return Err(RejectionReply::SubDomainInUse);
        },
        Err(_) => {
            return Err(RejectionReply::AuthFailed);
        },
    };

    Ok(ClientHandshake { id, sub_domain, is_anonymous: false })
}

/// Negotiate one handshake from the outcome of the two ordered parse
/// attempts: the legacy shape takes precedence, a message parsing as neither
/// is refused with AuthFailed.
pub fn auth_client_handshake(
    legacy_hello: Option<ClientHelloV1>,
    current_hello: Option<ClientHello>,
    registry: &Registry,
    blocked_sub_domains: &Vec<String>,
    allowed_keys: &Vec<String>,
) -> (r: Result<ClientHandshake, RejectionReply>)
    ensures
        match legacy_hello {
            Some(v1) => legacy_outcome(v1, registry@, blocked_sub_domains@, r),
            None => match current_hello {
                Some(hello) => current_outcome(
                    hello,
                    registry@,
                    blocked_sub_domains@,
                    allowed_keys@,
                    r,
                ),
                None => r == Err::<ClientHandshake, RejectionReply>(RejectionReply::AuthFailed),
            },
        },
{
    match legacy_hello {
        Some(v1) => auth_client_v1(v1, registry, blocked_sub_domains),
        None => match current_hello {
            Some(hello) => auth_client(hello, registry, blocked_sub_domains, allowed_keys),
            None => Err(RejectionReply::AuthFailed),
        },
    }
}

} // verus!
