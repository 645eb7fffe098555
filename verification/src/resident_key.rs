//! The resident credentials that belong to one relying party.

use crate::credential::CredentialView;
use crate::error::Error;
use crate::sequence::{lemma_full_pass_yields_all, lemma_yields_the_rest, step, yielded_from};
use vstd::prelude::*;

verus! {

/// Abstracts the set of resident credentials belonging to a given relying
/// party, in the order in which the authenticator listed them. Their number
/// is fixed when the set is made.
pub struct CredManRK {
    entries: Vec<CredentialView>,
}

impl CredManRK {
    /// The credentials, in order.
    pub closed spec fn view(&self) -> Seq<CredentialView> {
        self.entries@
    }

    /// Makes the set of the given credentials.
    pub fn new(entries: Vec<CredentialView>) -> (set: CredManRK)
        ensures
            set@ == entries@,
    {
        CredManRK { entries }
    }

    /// Returns the number of resident credentials in the set.
    pub fn count(&self) -> (n: usize)
        ensures
            n == self@.len(),
    {
        self.entries.len()
    }

    /// Returns the credential at `index`: in a set of `n` credentials every
    /// index below `n` names one, the credential at that place, and every
    /// other index is answered with `Error::IndexOutOfRange`.
    pub fn get(&self, index: usize) -> (r: Result<&CredentialView, Error>)
        ensures
            match r {
                Ok(cred) => index < self@.len() && *cred == self@[index as int],
                Err(e) => index >= self@.len() && e == Error::IndexOutOfRange,
            },
    {
        if index < self.entries.len() {
            Ok(&self.entries[index])
        } else {
            Err(Error::IndexOutOfRange)
        }
    }

    /// Returns an iterator over the resident credentials, placed at the first.
    /// The set is read, not drained: every call starts a full pass again.
    pub fn iter(&self) -> (it: IterRK<'_>)
        ensures
            it.source() == self@,
            it.position() == 0,
    {
        IterRK { idx: 0, total: self.entries.len(), rk: self }
    }
}

impl std::ops::Index<usize> for CredManRK {
    type Output = CredentialView;

    /// The credential at `index`, which must lie below the number of
    /// credentials in the set; `get` takes any index.
    fn index(&self, index: usize) -> (cred: &CredentialView)
        ensures
            *cred == self@[index as int],
    {
        &self.entries[index]
    }
}

impl vstd::std_specs::core::IndexSpecImpl<usize> for CredManRK {
    open spec fn index_req(&self, index: &usize) -> bool {
        *index < self@.len()
    }
}

/// Iterator over resident credentials.
pub struct IterRK<'a> {
    idx: usize,
    total: usize,
    rk: &'a CredManRK,
}

impl<'a> IterRK<'a> {
    /// The credentials of the set that the iterator walks.
    pub closed spec fn source(&self) -> Seq<CredentialView> {
        self.rk@
    }

    /// How many credentials the iterator has yielded.
    pub closed spec fn position(&self) -> int {
        self.idx as int
    }

    /// The iterator stands inside its set, or at its end.
    #[verifier::type_invariant]
    spec fn wf(&self) -> bool {
        self.idx <= self.total && self.total == self.rk@.len()
    }

    /// Everything that the iterator will yield from here on.
    pub open spec fn yields(&self) -> Seq<CredentialView> {
        yielded_from(self.source(), self.position())
    }

    /// Yields the credential at the iterator's position and moves one on; at
    /// the end it yields nothing and stays.
    pub fn next(&mut self) -> (r: Option<&'a CredentialView>)
        ensures
            final(self).source() == old(self).source(),
            0 <= final(self).position() <= final(self).source().len(),
            match r {
                Some(cred) => Some(*cred) == step(old(self).source(), old(self).position())
                    && final(self).position() == old(self).position() + 1,
                None => step(old(self).source(), old(self).position()) is None
                    && final(self).position() == old(self).position(),
            },
    {
        proof {
            use_type_invariant(&*self);
        }
        if self.idx >= self.total {
            return None;
        }
        let cred = &self.rk.entries[self.idx];
        self.idx += 1;
        Some(cred)
    }

    /// Returns the number of credentials that are still to come.
    pub fn len(&self) -> (n: usize)
        ensures
            n == self.source().len() - self.position(),
            n == self.yields().len(),
    {
        proof {
            use_type_invariant(self);
            lemma_yields_the_rest(self.source(), self.position());
        }
        self.total - self.idx
    }

    /// Walks the iterator to its end and returns what it yielded on the way,
    /// in order: exactly `yields()`.
    pub fn collect(self) -> (all: Vec<&'a CredentialView>)
        ensures
            all@.len() == self.yields().len(),
            forall|i: int| 0 <= i < all@.len() ==> *(#[trigger] all@[i]) == self.yields()[i],
    {
        let ghost start = self.position();
        let mut it = self;
        let mut all: Vec<&'a CredentialView> = Vec::new();
        proof {
            use_type_invariant(&it);
        }
        loop
            invariant
                it.source() == self.source(),
                0 <= start <= it.position() <= it.source().len(),
                all@.len() == it.position() - start,
                forall|i: int|
                    0 <= i < all@.len() ==> *(#[trigger] all@[i]) == self.source()[start + i],
            ensures
                it.position() == it.source().len(),
            decreases it.source().len() - it.position(),
        {
            match it.next() {
                Some(entry) => {
                    all.push(entry);
                },
                None => {
                    break ;
                },
            }
        }
        proof {
            lemma_yields_the_rest(self.source(), start);
        }
        all
    }
}

/// Two passes over one set yield the same credentials in the same order:
/// each iterator that `iter` returns yields the set's credentials, all of
/// them, from the first on.
pub proof fn lemma_set_passes_agree(set: CredManRK, first: IterRK, second: IterRK)
    requires
        first.source() == set@ && first.position() == 0,
        second.source() == set@ && second.position() == 0,
    ensures
        first.yields() == set@,
        second.yields() == first.yields(),
{
    lemma_full_pass_yields_all(set@);
}

} // verus!
