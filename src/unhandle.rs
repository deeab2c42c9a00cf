//! The unresolved-item ledger: the archives that could not be resolved, in
//! the order in which they were recorded.
use vstd::prelude::*;
use crate::archive::Archive;

verus! {

/// The archives recorded so far.
pub struct Ledger {
    entries: Vec<Archive>,
}

impl View for Ledger {
    type V = Seq<Archive>;

    closed spec fn view(&self) -> Seq<Archive> {
        self.entries@
    }
}

/// `s` after each archive of `xs` was appended, in order.
pub open spec fn appended(s: Seq<Archive>, xs: Seq<Archive>) -> Seq<Archive>
    decreases xs.len(),
{
    if xs.len() == 0 {
        s
    } else {
        appended(s, xs.drop_last()).push(xs.last())
    }
}

impl Ledger {
    /// An empty ledger.
    pub fn new() -> (r: Ledger)
        ensures
            r@ == Seq::<Archive>::empty(),
    {
        Ledger { entries: Vec::new() }
    }

    /// A ledger that holds what was loaded, in order.
    pub fn from_entries(entries: Vec<Archive>) -> (r: Ledger)
        ensures
            r@ == entries@,
    {
        Ledger { entries }
    }

    /// Records one more archive after the others.
    pub fn append(&mut self, archive: Archive)
        ensures
            final(self)@ == old(self)@.push(archive),
    {
        self.entries.push(archive);
    }

    /// The recorded archives, in order.
    pub fn entries(&self) -> (r: &Vec<Archive>)
        ensures
            r@ == self@,
    {
        &self.entries
    }

    pub fn len(&self) -> (r: usize)
        ensures
            r == self@.len(),
    {
        self.entries.len()
    }
}

/// Appending archives one by one to an empty ledger leaves exactly those
/// archives, in the order of appending.
pub proof fn lemma_appended_to_empty(xs: Seq<Archive>)
    ensures
        appended(Seq::empty(), xs) == xs,
    decreases xs.len(),
{
    if xs.len() > 0 {
        lemma_appended_to_empty(xs.drop_last());
        assert(xs.drop_last().push(xs.last()) =~= xs);
    }
}

} // verus!
