//! A snapshot of the live registry: which subdomain is currently held by
//! which client. The handshake only reads it; registration of the winner is
//! the connection-lifecycle owner's step, deliberately not atomic with the
//! collision check here.

use vstd::prelude::*;

use crate::domain::ClientId;

verus! {

/// The identifier holding `name` in the registry snapshot `reg`, if any.
/// Entries are searched front to back; the first match wins.
pub open spec fn owner_of(reg: Seq<(Seq<char>, Seq<char>)>, name: Seq<char>) -> Option<Seq<char>>
    decreases reg.len(),
{
    if reg.len() == 0 {
        None
    } else if reg[0].0 == name {
        Some(reg[0].1)
    } else {
        owner_of(reg.drop_first(), name)
    }
}

/// Read-only snapshot of the live subdomain-to-client mapping.
pub struct Registry {
    entries: Vec<(String, ClientId)>,
}

impl View for Registry {
    type V = Seq<(Seq<char>, Seq<char>)>;

    closed spec fn view(&self) -> Seq<(Seq<char>, Seq<char>)> {
        self.entries@.map_values(|e: (String, ClientId)| (e.0@, e.1@))
    }
}

impl Registry {
    pub fn new() -> (r: Registry)
        ensures
            r@ == Seq::<(Seq<char>, Seq<char>)>::empty(),
    {
        let r = Registry { entries: Vec::new() };
        proof {
            assert(r@ =~= Seq::<(Seq<char>, Seq<char>)>::empty());
        }
        r
    }

    /// Record that `client` now holds `sub_domain`.
    pub fn register(&mut self, sub_domain: String, client: ClientId)
        ensures
            final(self)@ == old(self)@.push((sub_domain@, client@)),
    {
        let ghost prior = self@;
        let ghost entry = (sub_domain@, client@);
        self.entries.push((sub_domain, client));
        proof {
            assert(self@ =~= prior.push(entry));
        }
    }

    /// The identifier currently holding `sub_domain`, if any.
    pub fn client_for_host(&self, sub_domain: &String) -> (r: Option<&ClientId>)
        ensures
            match r {
                Some(c) => owner_of(self@, sub_domain@) == Some(c@),
                None => owner_of(self@, sub_domain@) is None,
            },
    {
        let mut i: usize = 0;
        proof {
            assert(self@.skip(0) =~= self@);
        }
        while i < self.entries.len()
            invariant
                i <= self.entries.len(),
                self@.len() == self.entries.len(),
                owner_of(self@, sub_domain@) == owner_of(self@.skip(i as int), sub_domain@),
            decreases self.entries.len() - i,
        {
            if self.entries[i].0 == *sub_domain {
                proof {
                    assert(self@.skip(i as int)[0] == self@[i as int]);
                }
                return Some(&self.entries[i].1);
            }
            proof {
                assert(self@.skip(i as int)[0] == self@[i as int]);
                assert(self@.skip(i as int).drop_first() =~= self@.skip(i as int + 1));
            }
            i += 1;
        }
        proof {
            assert(self@.skip(i as int) =~= Seq::<(Seq<char>, Seq<char>)>::empty());
        }
        None
    }
}

} // verus!
