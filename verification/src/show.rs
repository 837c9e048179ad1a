//! The show: its objects, its patch, the programmer and the fixtures that are
//! selected.
use vstd::prelude::*;

use crate::object::ObjectContainer;
use crate::patch::{FixtureId, Patch};
use crate::programmer::Programmer;

verus! {

/// Adds a fixture to a selection, unless it is already selected.
pub open spec fn select_one(sel: Seq<FixtureId>, fid: FixtureId) -> Seq<FixtureId> {
    if sel.contains(fid) {
        sel
    } else {
        sel.push(fid)
    }
}

/// Adds fixtures to a selection one by one, in order.
pub open spec fn select_all(sel: Seq<FixtureId>, fids: Seq<FixtureId>) -> Seq<FixtureId>
    decreases fids.len(),
{
    if fids.len() == 0 {
        sel
    } else {
        select_one(select_all(sel, fids.drop_last()), fids.last())
    }
}

/// The show a console works on.
#[derive(Debug)]
pub struct Show {
    pub objects: ObjectContainer,
    pub programmer: Programmer,
    pub patch: Patch,
    /// The selected fixtures, in the order they were selected.
    pub selection: Vec<FixtureId>,
}

impl Show {
    /// A show with the given objects and patch, an empty programmer and no
    /// selection.
    pub fn new(objects: ObjectContainer, patch: Patch) -> (r: Show)
        ensures
            r.objects == objects,
            r.patch == patch,
            r.programmer.pairs().len() == 0,
            r.selection@.len() == 0,
    {
        Show { objects, programmer: Programmer::new(), patch, selection: Vec::new() }
    }

    /// The show's objects.
    pub fn objects(&self) -> (r: &ObjectContainer)
        ensures
            *r == self.objects,
    {
        &self.objects
    }

    /// The programmer.
    pub fn programmer(&self) -> (r: &Programmer)
        ensures
            *r == self.programmer,
    {
        &self.programmer
    }

    /// The patch.
    pub fn patch(&self) -> (r: &Patch)
        ensures
            *r == self.patch,
    {
        &self.patch
    }

    /// The selected fixtures, in the order they were selected.
    pub fn selected_fixtures(&self) -> (r: &[FixtureId])
        ensures
            r@ == self.selection@,
    {
        self.selection.as_slice()
    }

    /// Selects a fixture, unless it is already selected.
    pub fn select_fixture(&mut self, fid: FixtureId)
        ensures
            final(self).selection@ == select_one(old(self).selection@, fid),
            final(self).objects == old(self).objects,
            final(self).programmer == old(self).programmer,
            final(self).patch == old(self).patch,
    {
        let n = self.selection.len();
        for i in 0..n
            invariant
                n == self.selection@.len(),
                forall|j: int| 0 <= j < i ==> self.selection@[j] != fid,
        {
            if self.selection[i] == fid {
                assert(self.selection@.contains(fid)) by {
                    assert(self.selection@[i as int] == fid);
                }
                return ;
            }
        }
        self.selection.push(fid);
    }

    /// Selects fixtures one by one, in order.
    pub fn select_fixtures(&mut self, fids: &[FixtureId])
        ensures
            final(self).selection@ == select_all(old(self).selection@, fids@),
            final(self).objects == old(self).objects,
            final(self).programmer == old(self).programmer,
            final(self).patch == old(self).patch,
    {
        let n = fids.len();
        for i in 0..n
            invariant
                n == fids@.len(),
                self.selection@ == select_all(old(self).selection@, fids@.subrange(0, i as int)),
                self.objects == old(self).objects,
                self.programmer == old(self).programmer,
                self.patch == old(self).patch,
        {
            self.select_fixture(fids[i]);
            assert(fids@.subrange(0, i + 1).drop_last() =~= fids@.subrange(0, i as int));
        }
        assert(fids@.subrange(0, n as int) =~= fids@);
    }

    /// Deselects all fixtures.
    pub fn clear_selected_fixtures(&mut self)
        ensures
            final(self).selection@.len() == 0,
            final(self).objects == old(self).objects,
            final(self).programmer == old(self).programmer,
            final(self).patch == old(self).patch,
    {
        self.selection = Vec::new();
    }
}

/// A selection without repeats stays without repeats as fixtures are added.
pub proof fn lemma_select_all_no_duplicates(sel: Seq<FixtureId>, fids: Seq<FixtureId>)
    requires
        sel.no_duplicates(),
    ensures
        select_all(sel, fids).no_duplicates(),
    decreases fids.len(),
{
    if fids.len() > 0 {
        lemma_select_all_no_duplicates(sel, fids.drop_last());
    }
}

/// Selecting, one by one, fixtures that are all different, starting from no
/// selection, selects exactly them, in their order.
pub proof fn lemma_select_all_distinct(fids: Seq<FixtureId>)
    requires
        fids.no_duplicates(),
    ensures
        select_all(Seq::empty(), fids) == fids,
    decreases fids.len(),
{
    if fids.len() > 0 {
        let pre = fids.drop_last();
        assert(pre.no_duplicates());
        lemma_select_all_distinct(pre);
        assert(!pre.contains(fids.last())) by {
            if pre.contains(fids.last()) {
                let k = choose|k: int| 0 <= k < pre.len() && pre[k] == fids.last();
                assert(fids[k] == fids[fids.len() - 1]);
            }
        }
        assert(pre.push(fids.last()) =~= fids);
    }
}

} // verus!
