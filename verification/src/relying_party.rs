//! The relying parties that hold resident credentials on an authenticator.

use crate::sequence::{lemma_full_pass_yields_all, lemma_yields_the_rest, step, yielded_from};
use vstd::prelude::*;

verus! {

/// Information about a relying party.
#[derive(Debug, Clone, PartialEq, Eq)]
pub struct RelyingParty {
    /// The identifier of the relying party, most often a domain.
    pub id: Vec<u8>,
    /// Its display name, where the authenticator recorded one.
    pub name: Option<Vec<u8>>,
}

/// The relying parties that an authenticator listed, in the order in which
/// it listed them. Their number is fixed when the catalog is made.
pub struct CredManRP {
    entries: Vec<RelyingParty>,
}

impl CredManRP {
    /// The entries, in order.
    pub closed spec fn view(&self) -> Seq<RelyingParty> {
        self.entries@
    }

    /// Makes the catalog of the given entries.
    pub fn new(entries: Vec<RelyingParty>) -> (catalog: CredManRP)
        ensures
            catalog@ == entries@,
    {
        CredManRP { entries }
    }

    /// Returns the number of relying parties in the catalog.
    pub fn count(&self) -> (n: usize)
        ensures
            n == self@.len(),
    {
        self.entries.len()
    }

    /// Returns an iterator over the relying parties, placed at the first. The
    /// catalog is read, not drained: every call starts a full pass again.
    pub fn iter(&self) -> (it: IterRP<'_>)
        ensures
            it.source() == self@,
            it.position() == 0,
    {
        IterRP { idx: 0, total: self.entries.len(), rp: self }
    }
}

/// Iterator over relying parties.
pub struct IterRP<'a> {
    idx: usize,
    total: usize,
    rp: &'a CredManRP,
}

impl<'a> IterRP<'a> {
    /// The entries of the catalog that the iterator walks.
    pub closed spec fn source(&self) -> Seq<RelyingParty> {
        self.rp@
    }

    /// How many entries the iterator has yielded.
    pub closed spec fn position(&self) -> int {
        self.idx as int
    }

    /// The iterator stands inside its catalog, or at its end.
    #[verifier::type_invariant]
    spec fn wf(&self) -> bool {
        self.idx <= self.total && self.total == self.rp@.len()
    }

    /// Everything that the iterator will yield from here on.
    pub open spec fn yields(&self) -> Seq<RelyingParty> {
        yielded_from(self.source(), self.position())
    }

    /// Yields the entry at the iterator's position and moves one on; at the
    /// end it yields nothing and stays.
    pub fn next(&mut self) -> (r: Option<&'a RelyingParty>)
        ensures
            final(self).source() == old(self).source(),
            0 <= final(self).position() <= final(self).source().len(),
            match r {
                Some(entry) => Some(*entry) == step(old(self).source(), old(self).position())
                    && final(self).position() == old(self).position() + 1,
                None => step(old(self).source(), old(self).position()) is None
                    && final(self).position() == old(self).position(),
            },
    {
        proof {
            use_type_invariant(&*self);
        }
        if self.idx >= self.total {
            return None;
        }
        let entry = &self.rp.entries[self.idx];
        self.idx += 1;
        Some(entry)
    }

    /// Returns the number of entries that are still to come.
    pub fn len(&self) -> (n: usize)
        ensures
            n == self.source().len() - self.position(),
            n == self.yields().len(),
    {
        proof {
            use_type_invariant(self);
            lemma_yields_the_rest(self.source(), self.position());
        }
        self.total - self.idx
    }

    /// Walks the iterator to its end and returns what it yielded on the way,
    /// in order: exactly `yields()`.
    pub fn collect(self) -> (all: Vec<&'a RelyingParty>)
        ensures
            all@.len() == self.yields().len(),
            forall|i: int| 0 <= i < all@.len() ==> *(#[trigger] all@[i]) == self.yields()[i],
    {
        let ghost start = self.position();
        let mut it = self;
        let mut all: Vec<&'a RelyingParty> = Vec::new();
        proof {
            use_type_invariant(&it);
        }
        loop
            invariant
                it.source() == self.source(),
                0 <= start <= it.position() <= it.source().len(),
                all@.len() == it.position() - start,
                forall|i: int|
                    0 <= i < all@.len() ==> *(#[trigger] all@[i]) == self.source()[start + i],
            ensures
                it.position() == it.source().len(),
            decreases it.source().len() - it.position(),
        {
            match it.next() {
                Some(entry) => {
                    all.push(entry);
                },
                None => {
                    break ;
                },
            }
        }
        proof {
            lemma_yields_the_rest(self.source(), start);
        }
        all
    }
}

/// Two passes over one catalog yield the same relying parties in the same
/// order: each iterator that `iter` returns yields the catalog's entries,
/// all of them, from the first on.
pub proof fn lemma_catalog_passes_agree(catalog: CredManRP, first: IterRP, second: IterRP)
    requires
        first.source() == catalog@ && first.position() == 0,
        second.source() == catalog@ && second.position() == 0,
    ensures
        first.yields() == catalog@,
        second.yields() == first.yields(),
{
    lemma_full_pass_yields_all(catalog@);
}

} // verus!
