//! The auth adjudicator: whether a presented credential may claim a
//! subdomain. Under the configured policy the decision depends only on
//! allow-list membership: a listed credential owns every name it asks for,
//! an unlisted one owns none.

use vstd::prelude::*;

use crate::domain::{AuthError, AuthResult};
use crate::sanitize::{contains_str, vec_contains_string};

verus! {

/// The comma-separated joining of `pieces`: its unique inverse is the
/// comma-splitting of a configuration string.
pub open spec fn join_commas(pieces: Seq<Seq<char>>) -> Seq<char>
    decreases pieces.len(),
{
    if pieces.len() == 0 {
        Seq::empty()
    } else if pieces.len() == 1 {
        pieces[0]
    } else {
        pieces[0] + seq![','] + join_commas(pieces.drop_first())
    }
}

proof fn lemma_join_push(pieces: Seq<Seq<char>>, piece: Seq<char>)
    ensures
        join_commas(pieces.push(piece)) == if pieces.len() == 0 {
            piece
        } else {
            join_commas(pieces) + seq![','] + piece
        },
    decreases pieces.len(),
{
    if pieces.len() == 0 {
        assert(pieces.push(piece)[0] == piece);
    } else if pieces.len() == 1 {
        assert(pieces.push(piece).drop_first() =~= seq![piece]);
        assert(seq![piece].len() == 1);
        assert(seq![piece][0] == piece);
        assert(join_commas(seq![piece]) == piece);
        assert(pieces.push(piece)[0] == pieces[0]);
        assert(join_commas(pieces.push(piece)) == pieces[0] + seq![','] + piece);
        assert(join_commas(pieces) == pieces[0]);
    } else {
        lemma_join_push(pieces.drop_first(), piece);
        assert(pieces.push(piece).drop_first() =~= pieces.drop_first().push(piece));
        assert(pieces.push(piece)[0] == pieces[0]);
        assert(pieces[0] + seq![','] + (join_commas(pieces.drop_first()) + seq![','] + piece)
            =~= (pieces[0] + seq![','] + join_commas(pieces.drop_first())) + seq![','] + piece);
    }
}

/// The pieces gathered so far, joined, followed by the piece still being
/// read.
spec fn joined_so_far(pieces: Seq<Seq<char>>, current: Seq<char>) -> Seq<char> {
    if pieces.len() == 0 {
        current
    } else {
        join_commas(pieces) + seq![','] + current
    }
}

/// Split a configuration string on commas: the allow-list in its simplest
/// encoding. The result is the unique comma-free decomposition whose
/// comma-separated joining restores the input; an empty input yields one
/// empty key, as the encoding has no way to write an empty list.
pub fn split_allowed_auth_keys(raw: &String) -> (keys: Vec<String>)
    ensures
        join_commas(keys@.map_values(|k: String| k@)) == raw@,
        forall|i: int| 0 <= i < keys@.len() ==> !(#[trigger] keys@[i]@).contains(','),
        keys@.len() >= 1,
{
    let st: &str = raw.as_str();
    let n: usize = st.unicode_len();
    let mut keys: Vec<String> = Vec::new();
    let mut start: usize = 0;
    let mut i: usize = 0;
    proof {
        assert(raw@.subrange(0, 0) =~= Seq::<char>::empty());
    }
    while i < n
        invariant
            st@ == raw@,
            n == raw@.len(),
            start <= i <= n,
            joined_so_far(keys@.map_values(|k: String| k@), raw@.subrange(start as int, i as int))
                == raw@.subrange(0, i as int),
            forall|k: int| 0 <= k < keys@.len() ==> !(#[trigger] keys@[k]@).contains(','),
            forall|k: int| start <= k < i ==> raw@[k] != ',',
        decreases n - i,
    {
        let c = st.get_char(i);
        if c == ',' {
            let piece = st.substring_char(start, i).to_owned();
            proof {
                let ghost ps = keys@.map_values(|k: String| k@);
                lemma_join_push(ps, piece@);
                assert(keys@.push(piece).map_values(|k: String| k@) =~= ps.push(piece@));
                assert(join_commas(ps.push(piece@)) + seq![','] =~= raw@.subrange(0, i as int + 1));
                assert(raw@.subrange(i as int + 1, i as int + 1) =~= Seq::<char>::empty());
                assert(join_commas(ps.push(piece@)) + seq![','] + Seq::<char>::empty()
                    =~= join_commas(ps.push(piece@)) + seq![',']);
                assert forall|j: int| 0 <= j < piece@.len() implies piece@[j] != ',' by {
                    assert(piece@[j] == raw@[start + j]);
                }
            }
            keys.push(piece);
            start = i + 1;
        } else {
            proof {
                assert(raw@.subrange(start as int, i as int + 1) =~= raw@.subrange(
                    start as int,
                    i as int,
                ).push(raw@[i as int]));
                assert(raw@.subrange(0, i as int + 1) =~= raw@.subrange(0, i as int).push(
                    raw@[i as int],
                ));
                let ghost ps = keys@.map_values(|k: String| k@);
                if ps.len() > 0 {
                    assert(join_commas(ps) + seq![','] + raw@.subrange(start as int, i as int).push(
                        raw@[i as int],
                    ) =~= (join_commas(ps) + seq![','] + raw@.subrange(start as int, i as int)).push(
                        raw@[i as int],
                    ));
                }
            }
        }
        i += 1;
    }
    let last = st.substring_char(start, n).to_owned();
    proof {
        let ghost ps = keys@.map_values(|k: String| k@);
        lemma_join_push(ps, last@);
        assert(keys@.push(last).map_values(|k: String| k@) =~= ps.push(last@));
        assert(raw@.subrange(0, n as int) =~= raw@);
        assert forall|j: int| 0 <= j < last@.len() implies last@[j] != ',' by {
            assert(last@[j] == raw@[start + j]);
        }
    }
    keys.push(last);
    keys
}

/// The adjudicator's decision for a credential: membership in the allow-list
/// decides, and no per-name ownership record is consulted.
pub open spec fn adjudicated(allowed: Seq<String>, auth_key: Seq<char>) -> AuthResult {
    if contains_str(allowed, auth_key) {
        AuthResult::ReservedByYou
    } else {
        AuthResult::ReservedByOther
    }
}

/// Decide whether `auth_key` may claim `sub_domain`, given the configured
/// allow-list. Never fails; the requested name plays no part in the decision.
#[allow(unused_variables)]
pub fn env_auth_sub_domain(
    allowed_keys: &Vec<String>,
    auth_key: &String,
    sub_domain: &String,
) -> (r: Result<AuthResult, AuthError>)
    ensures
        r == Ok::<AuthResult, AuthError>(adjudicated(allowed_keys@, auth_key@)),
{
    if vec_contains_string(allowed_keys, auth_key) {
        Ok(AuthResult::ReservedByYou)
    } else {
        Ok(AuthResult::ReservedByOther)
    }
}

} // verus!
