use tunnelto_server::auth::{env_auth_sub_domain, split_allowed_auth_keys};
use tunnelto_server::domain::{AuthResult, ClientId, RejectionReply};
use tunnelto_server::registry::Registry;
use tunnelto_server::sanitize::sanitize_sub_domain_and_pre_validate;
use tunnelto_server::wire::reply_message;

fn cid(s: &str) -> ClientId {
    ClientId(s.to_string())
}

fn sanitize(
    requested: &str,
    caller: &ClientId,
    registry: &Registry,
    blocked: &Vec<String>,
) -> Result<String, RejectionReply> {
    sanitize_sub_domain_and_pre_validate(&requested.to_string(), caller, registry, blocked)
}

#[test]
fn non_alphanumeric_names_are_invalid() {
    let reg = Registry::new();
    let blocked = Vec::new();
    for bad in ["a-b", "A!B", "with space", "dot.com", "semi;colon", "under_score"] {
        assert_eq!(
            sanitize(bad, &cid("a"), &reg, &blocked).unwrap_err(),
            RejectionReply::InvalidSubDomain,
            "expected {:?} to be invalid",
            bad
        );
    }
}

#[test]
fn sanitization_is_case_insensitive() {
    let reg = Registry::new();
    let blocked = Vec::new();
    let upper = sanitize("Foo", &cid("a"), &reg, &blocked).unwrap();
    let lower = sanitize("foo", &cid("a"), &reg, &blocked).unwrap();
    assert_eq!(upper, "foo");
    assert_eq!(lower, "foo");
}

#[test]
fn owner_may_rerequest_its_own_name() {
    let mut reg = Registry::new();
    reg.register("abc".to_string(), cid("a"));
    let blocked = Vec::new();
    assert_eq!(sanitize("abc", &cid("a"), &reg, &blocked).unwrap(), "abc");
}

#[test]
fn other_caller_gets_in_use_for_owned_name() {
    let mut reg = Registry::new();
    reg.register("abc".to_string(), cid("a"));
    let blocked = Vec::new();
    assert_eq!(
        sanitize("abc", &cid("b"), &reg, &blocked).unwrap_err(),
        RejectionReply::SubDomainInUse
    );
}

#[test]
fn reserved_name_is_rejected_even_if_unowned() {
    let reg = Registry::new();
    let blocked = vec!["dashboard".to_string()];
    assert_eq!(
        sanitize("dashboard", &cid("a"), &reg, &blocked).unwrap_err(),
        RejectionReply::SubDomainInUse
    );
    // case folding happens before the reservation check
    assert_eq!(
        sanitize("DashBoard", &cid("a"), &reg, &blocked).unwrap_err(),
        RejectionReply::SubDomainInUse
    );
}

#[test]
fn race_for_unowned_name_passes_for_both_callers() {
    // two concurrent handshakes can both observe the name as available on the
    // same registry snapshot; the registry collaborator resolves the race
    let reg = Registry::new();
    let blocked = Vec::new();
    let first = sanitize("abc", &cid("a"), &reg, &blocked);
    let second = sanitize("abc", &cid("b"), &reg, &blocked);
    assert_eq!(first.unwrap(), "abc");
    assert_eq!(second.unwrap(), "abc");
}

#[test]
fn empty_request_passes_sanitization() {
    let reg = Registry::new();
    assert_eq!(sanitize("", &cid("a"), &reg, &Vec::new()).unwrap(), "");
}

#[test]
fn adjudication_depends_only_on_allow_list_membership() {
    let allowed = vec!["k1".to_string(), "k2".to_string()];
    assert_eq!(
        env_auth_sub_domain(&allowed, &"k2".to_string(), &"abc".to_string()),
        Ok(AuthResult::ReservedByYou)
    );
    assert_eq!(
        env_auth_sub_domain(&allowed, &"k3".to_string(), &"abc".to_string()),
        Ok(AuthResult::ReservedByOther)
    );
    // the requested name plays no part
    assert_eq!(
        env_auth_sub_domain(&allowed, &"k3".to_string(), &"anything".to_string()),
        Ok(AuthResult::ReservedByOther)
    );
}

#[test]
fn allow_list_splits_on_commas() {
    let keys = split_allowed_auth_keys(&"a,b,c".to_string());
    assert_eq!(keys, vec!["a".to_string(), "b".to_string(), "c".to_string()]);
}

#[test]
fn allow_list_of_empty_string_is_one_empty_key() {
    let keys = split_allowed_auth_keys(&"".to_string());
    assert_eq!(keys, vec!["".to_string()]);
}

#[test]
fn allow_list_keeps_empty_pieces() {
    let keys = split_allowed_auth_keys(&"a,,b".to_string());
    assert_eq!(keys, vec!["a".to_string(), "".to_string(), "b".to_string()]);
    let keys = split_allowed_auth_keys(&"k,".to_string());
    assert_eq!(keys, vec!["k".to_string(), "".to_string()]);
}

#[test]
fn rejection_replies_serialize_as_bare_tags() {
    assert_eq!(reply_message(&RejectionReply::AuthFailed), "\"AuthFailed\"");
    assert_eq!(reply_message(&RejectionReply::SubDomainInUse), "\"SubDomainInUse\"");
    assert_eq!(
        reply_message(&RejectionReply::InvalidSubDomain),
        "\"InvalidSubDomain\""
    );
    // the same text serde_json gives the bare tag
    assert_eq!(
        reply_message(&RejectionReply::AuthFailed),
        serde_json::to_string("AuthFailed").unwrap()
    );
}

#[test]
fn registry_lookup_finds_registered_owner() {
    let mut reg = Registry::new();
    reg.register("abc".to_string(), cid("a"));
    reg.register("xyz".to_string(), cid("b"));
    assert_eq!(reg.client_for_host(&"abc".to_string()), Some(&cid("a")));
    assert_eq!(reg.client_for_host(&"xyz".to_string()), Some(&cid("b")));
    assert_eq!(reg.client_for_host(&"nope".to_string()), None);
}
