//! The random subdomain generator, an external collaborator. Its results are
//! random, so the wrappers state only the shape that every outcome has: a
//! fresh domain is eight lower-case ASCII alphanumerics, and a prefixed one is
//! the prefix, a `-` separator, then a fresh domain.

use vstd::prelude::*;

verus! {

/// A lower-case ASCII letter or digit.
pub open spec fn ascii_lower_alnum(c: char) -> bool {
    ('a' <= c && c <= 'z') || ('0' <= c && c <= '9')
}

/// The shape of every freshly generated domain: eight lower-case ASCII
/// alphanumeric characters.
pub open spec fn generated_domain(s: Seq<char>) -> bool {
    &&& s.len() == 8
    &&& forall|i: int| 0 <= i < s.len() ==> #[trigger] ascii_lower_alnum(s[i])
}

/// The shape of every prefixed random domain: the prefix, then `-`, then a
/// freshly generated domain.
pub open spec fn prefixed_domain(s: Seq<char>, prefix: Seq<char>) -> bool {
    &&& s.len() == prefix.len() + 9
    &&& s.subrange(0, prefix.len() as int) == prefix
    &&& s[prefix.len() as int] == '-'
    &&& generated_domain(s.subrange(prefix.len() as int + 1, s.len() as int))
}

/// Relies on `tunnelto_lib::ServerHello::random_domain`: eight characters
/// sampled from the ASCII alphanumerics and then lower-cased.
#[verifier::external_body]
pub(crate) fn random_domain() -> (r: String)
    ensures
        generated_domain(r@),
{
    tunnelto_lib::ServerHello::random_domain()
}

/// Relies on `tunnelto_lib::ServerHello::prefixed_random_domain`: the prefix,
/// a `-`, then a fresh random domain.
#[verifier::external_body]
pub(crate) fn prefixed_random_domain(prefix: &String) -> (r: String)
    ensures
        prefixed_domain(r@, prefix@),
{
    tunnelto_lib::ServerHello::prefixed_random_domain(prefix.as_str())
}

} // verus!
