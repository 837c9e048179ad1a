//! The programmer: "work in progress" values that can be stored into presets.
use vstd::prelude::*;

use crate::attr::{Attribute, AttributeView};
use crate::patch::{AttributeValue, FixtureId};
use crate::values::ValueMap;

verus! {

/// Contains "work in progress" values that can be stored into presets.
#[derive(Debug, Clone)]
pub struct Programmer {
    values: ValueMap<(FixtureId, Attribute)>,
}

impl Programmer {
    /// The values, by fixture and (main) attribute.
    pub closed spec fn map(self) -> Map<(FixtureId, AttributeView), AttributeValue> {
        self.values.map()
    }

    /// The values in the order they were first set.
    pub closed spec fn pairs(self) -> Seq<((FixtureId, Attribute), AttributeValue)> {
        self.values.pairs()
    }

    /// The map of the values is the map of their list.
    pub proof fn lemma_map_of_pairs(self)
        ensures
            self.map() == crate::values::entries_map(self.pairs()),
    {
    }

    /// An empty programmer.
    pub fn new() -> (r: Programmer)
        ensures
            r.map() == Map::<(FixtureId, AttributeView), AttributeValue>::empty(),
            r.pairs().len() == 0,
    {
        Programmer { values: ValueMap::new() }
    }

    /// Sets the value of a (main) attribute of a fixture. The attribute has to
    /// be a main attribute to prevent double channel assignments.
    pub fn set_value(&mut self, fid: FixtureId, main_attribute: Attribute, value: AttributeValue)
        ensures
            final(self).map() == old(self).map().insert((fid, main_attribute@), value),
            old(self).map().contains_key((fid, main_attribute@)) ==> final(self).pairs().len() == old(
                self,
            ).pairs().len(),
            !old(self).map().contains_key((fid, main_attribute@)) ==> final(self).pairs() == old(
                self,
            ).pairs().push(((fid, main_attribute), value)),
    {
        self.values.set((fid, main_attribute), value);
    }

    /// The value of a (main) attribute of a fixture, if one is set.
    pub fn value(&self, fid: FixtureId, main_attribute: Attribute) -> (r: Option<AttributeValue>)
        ensures
            r == (if self.map().contains_key((fid, main_attribute@)) {
                Some(self.map()[(fid, main_attribute@)])
            } else {
                None
            }),
    {
        self.values.get(&(fid, main_attribute))
    }

    /// All values, in the order they were first set.
    pub fn values(&self) -> (r: &[((FixtureId, Attribute), AttributeValue)])
        ensures
            r@ == self.pairs(),
    {
        self.values.entries()
    }

    /// Clears all values.
    pub fn clear(&mut self)
        ensures
            final(self).map() == Map::<(FixtureId, AttributeView), AttributeValue>::empty(),
            final(self).pairs().len() == 0,
    {
        self.values.clear();
    }

    /// Whether no value is set.
    pub fn is_empty(&self) -> (r: bool)
        ensures
            r == (self.map() == Map::<(FixtureId, AttributeView), AttributeValue>::empty()),
            r == (self.pairs().len() == 0),
    {
        self.values.is_empty()
    }
}

} // verus!
