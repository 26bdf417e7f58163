//! Sanitization and pre-validation of a requested subdomain: case folding,
//! the all-or-nothing character check, the live-collision check against the
//! registry snapshot, and the reserved-name check.

use vstd::prelude::*;

use crate::casefold::{alphanumeric_char, char_is_alphanumeric, fold_lowercase, lower_of};
use crate::domain::{ClientId, RejectionReply};
use crate::registry::{owner_of, Registry};

verus! {

/// Every character of `s` is alphanumeric.
pub open spec fn all_alphanumeric(s: Seq<char>) -> bool {
    forall|i: int| 0 <= i < s.len() ==> #[trigger] char_is_alphanumeric(s[i])
}

/// `s` occurs in the list of strings `list`.
pub open spec fn contains_str(list: Seq<String>, s: Seq<char>) -> bool {
    exists|i: int| 0 <= i < list.len() && #[trigger] list[i]@ == s
}

/// What sanitization decides, stated over the case-folded name: reject a name
/// with a non-alphanumeric character, then a name held by someone else, then
/// a reserved name; otherwise accept the folded name.
pub open spec fn sanitize_outcome(
    requested: Seq<char>,
    caller: Seq<char>,
    reg: Seq<(Seq<char>, Seq<char>)>,
    blocked: Seq<String>,
) -> Result<Seq<char>, RejectionReply> {
    let folded = lower_of(requested);
    if !all_alphanumeric(folded) {
        Err(RejectionReply::InvalidSubDomain)
    } else if owner_of(reg, folded) is Some && owner_of(reg, folded) != Some(caller) {
        Err(RejectionReply::SubDomainInUse)
    } else if contains_str(blocked, folded) {
        Err(RejectionReply::SubDomainInUse)
    } else {
        Ok(folded)
    }
}

/// A name already held by an identifier can be requested again by that same
/// identifier, while any other identifier requesting it is refused with
/// SubDomainInUse.
pub proof fn lemma_owned_name_reclaimable(
    requested: Seq<char>,
    holder: Seq<char>,
    other: Seq<char>,
    reg: Seq<(Seq<char>, Seq<char>)>,
    blocked: Seq<String>,
)
    requires
        owner_of(reg, lower_of(requested)) == Some(holder),
        all_alphanumeric(lower_of(requested)),
        !contains_str(blocked, lower_of(requested)),
        other != holder,
    ensures
        sanitize_outcome(requested, holder, reg, blocked) == Ok::<Seq<char>, RejectionReply>(
            lower_of(requested),
        ),
        sanitize_outcome(requested, other, reg, blocked) == Err::<Seq<char>, RejectionReply>(
            RejectionReply::SubDomainInUse,
        ),
{
}

/// A reserved name is always refused with SubDomainInUse, whoever asks and
/// whether or not anyone currently holds it.
pub proof fn lemma_reserved_name_rejected(
    requested: Seq<char>,
    caller: Seq<char>,
    reg: Seq<(Seq<char>, Seq<char>)>,
    blocked: Seq<String>,
)
    requires
        contains_str(blocked, lower_of(requested)),
        all_alphanumeric(lower_of(requested)),
    ensures
        sanitize_outcome(requested, caller, reg, blocked) == Err::<Seq<char>, RejectionReply>(
            RejectionReply::SubDomainInUse,
        ),
{
}

/// Two different identifiers racing for the same unowned, acceptable name
/// both pass pre-validation against the same registry snapshot: the race is
/// accepted here and resolved by the registry collaborator.
pub proof fn lemma_unowned_name_race(
    requested: Seq<char>,
    first: Seq<char>,
    second: Seq<char>,
    reg: Seq<(Seq<char>, Seq<char>)>,
    blocked: Seq<String>,
)
    requires
        owner_of(reg, lower_of(requested)) is None,
        all_alphanumeric(lower_of(requested)),
        !contains_str(blocked, lower_of(requested)),
    ensures
        sanitize_outcome(requested, first, reg, blocked) == Ok::<Seq<char>, RejectionReply>(
            lower_of(requested),
        ),
        sanitize_outcome(requested, second, reg, blocked) == Ok::<Seq<char>, RejectionReply>(
            lower_of(requested),
        ),
{
}

/// Whether `s` occurs in `list`, by linear search.
pub fn vec_contains_string(list: &Vec<String>, s: &String) -> (r: bool)
    ensures
        r == contains_str(list@, s@),
{
    let mut i: usize = 0;
    while i < list.len()
        invariant
            i <= list.len(),
            forall|k: int| 0 <= k < i ==> #[trigger] list@[k]@ != s@,
        decreases list.len() - i,
    {
        if list[i] == *s {
            return true;
        }
        i += 1;
    }
    false
}

/// Every character of `s` is alphanumeric, checked one character at a time.
fn check_all_alphanumeric(s: &String) -> (r: bool)
    ensures
        r == all_alphanumeric(s@),
{
    let st: &str = s.as_str();
    let n: usize = st.unicode_len();
    let mut i: usize = 0;
    while i < n
        invariant
            st@ == s@,
            n == s@.len(),
            i <= n,
            forall|k: int| 0 <= k < i ==> #[trigger] char_is_alphanumeric(s@[k]),
        decreases n - i,
    {
        let c = st.get_char(i);
        if !alphanumeric_char(c) {
            return false;
        }
        i += 1;
    }
    true
}

/// Normalize a requested subdomain and refuse it when it is malformed, held
/// by a different client, or reserved. A caller re-requesting a name it
/// already holds is let through.
pub fn sanitize_sub_domain_and_pre_validate(
    requested_sub_domain: &String,
    client_id: &ClientId,
    registry: &Registry,
    blocked_sub_domains: &Vec<String>,
) -> (r: Result<String, RejectionReply>)
    ensures
        match r {
            Ok(s) => sanitize_outcome(
                requested_sub_domain@,
                client_id@,
                registry@,
                blocked_sub_domains@,
            ) == Ok::<Seq<char>, RejectionReply>(s@),
            Err(e) => sanitize_outcome(
                requested_sub_domain@,
                client_id@,
                registry@,
                blocked_sub_domains@,
            ) == Err::<Seq<char>, RejectionReply>(e),
        },
{
    // ignore upper case
    let sub_domain = fold_lowercase(requested_sub_domain);

    if !check_all_alphanumeric(&sub_domain) {
        return Err(RejectionReply::InvalidSubDomain);
    }

    // ensure this sub-domain isn't taken
    match registry.client_for_host(&sub_domain) {
        Some(existing_client) => {
            if !(existing_client == client_id) {
                return Err(RejectionReply::SubDomainInUse);
            }
        },
        None => {},
    }

    // ensure it's not a restricted one
    if vec_contains_string(blocked_sub_domains, &sub_domain) {
        return Err(RejectionReply::SubDomainInUse);
    }

    Ok(sub_domain)
}

} // verus!
