//! The groups and effects of the show as the pool tiles present them, the
//! show's display modes, and other small show values.
use vstd::prelude::*;

use std::collections::HashMap;

use crate::effect::{Effect, EffectId};
use crate::patch::FixtureId;

verus! {

broadcast use vstd::std_specs::hash::group_hash_axioms;

/// The number of a group.
pub type GroupId = u32;

/// A named list of fixtures.
#[derive(Debug, Clone)]
pub struct Group {
    pub name: String,
    pub fixture_ids: Vec<FixtureId>,
}

impl Group {
    /// A group with the given name and fixtures.
    pub fn new(name: String, fixture_ids: Vec<FixtureId>) -> (r: Group)
        ensures
            r.name == name,
            r.fixture_ids == fixture_ids,
    {
        Group { name, fixture_ids }
    }

    /// The group's name.
    pub fn name(&self) -> (r: &str)
        ensures
            r@ == self.name@,
    {
        self.name.as_str()
    }

    /// The group's fixtures.
    pub fn fixture_ids(&self) -> (r: &[FixtureId])
        ensures
            r@ == self.fixture_ids@,
    {
        self.fixture_ids.as_slice()
    }
}

/// The label of an occupied slot: the name of what it holds, or
/// `<unknown>`.
pub open spec fn slot_label(name: Option<Seq<char>>) -> Seq<char> {
    match name {
        Some(n) => n,
        None => "<unknown>"@,
    }
}

/// The tile of the group pool.
#[derive(Debug)]
pub struct GroupsPoolTile {}

impl GroupsPoolTile {
    /// A new tile.
    pub fn new() -> GroupsPoolTile {
        GroupsPoolTile {}
    }

    /// The tile's title.
    pub fn title(&self) -> (r: String)
        ensures
            r@ == "Groups"@,
    {
        String::from_str("Groups")
    }

    /// The group in a slot, if any.
    pub fn group<'a>(&self, slot_id: u32, groups: &'a HashMap<GroupId, Group>) -> (r: Option<&'a Group>)
        ensures
            match r {
                Some(g) => groups@.contains_key(slot_id) && *g == groups@[slot_id],
                None => !groups@.contains_key(slot_id),
            },
    {
        groups.get(&slot_id)
    }

    /// Whether a slot holds a group.
    pub fn is_occupied(&self, slot_id: u32, groups: &HashMap<GroupId, Group>) -> (r: bool)
        ensures
            r == groups@.contains_key(slot_id),
    {
        self.group(slot_id, groups).is_some()
    }

    /// The label of a slot: the name of its group, or `<unknown>`.
    pub fn occupied_label(&self, slot_id: u32, groups: &HashMap<GroupId, Group>) -> (r: String)
        ensures
            r@ == slot_label(
                if groups@.contains_key(slot_id) {
                    Some(groups@[slot_id].name@)
                } else {
                    None
                },
            ),
    {
        match self.group(slot_id, groups) {
            Some(g) => String::from_str(g.name()),
            None => String::from_str("<unknown>"),
        }
    }

    /// The selection that activating a slot makes: the fixtures of its
    /// group; none where the slot is empty.
    pub fn on_activate_slot(&self, slot_id: u32, groups: &HashMap<GroupId, Group>) -> (r: Option<
        Vec<FixtureId>,
    >)
        ensures
            match r {
                Some(fids) => groups@.contains_key(slot_id) && fids@ == groups@[slot_id].fixture_ids@,
                None => !groups@.contains_key(slot_id),
            },
    {
        match self.group(slot_id, groups) {
            Some(g) => Some(crate::object::copy_fids(g.fixture_ids())),
            None => None,
        }
    }
}

/// The tile of the effect pool.
#[derive(Debug)]
pub struct EffectsPoolTile {}

impl EffectsPoolTile {
    /// A new tile.
    pub fn new() -> EffectsPoolTile {
        EffectsPoolTile {}
    }

    /// The tile's title.
    pub fn title(&self) -> (r: String)
        ensures
            r@ == "Effects"@,
    {
        String::from_str("Effects")
    }

    /// The effect in a slot, if any.
    pub fn effect<'a>(&self, slot_id: u32, effects: &'a HashMap<EffectId, Effect>) -> (r: Option<&'a Effect>)
        ensures
            match r {
                Some(e) => effects@.contains_key(slot_id) && *e == effects@[slot_id],
                None => !effects@.contains_key(slot_id),
            },
    {
        effects.get(&slot_id)
    }

    /// Whether a slot holds an effect.
    pub fn is_occupied(&self, slot_id: u32, effects: &HashMap<EffectId, Effect>) -> (r: bool)
        ensures
            r == effects@.contains_key(slot_id),
    {
        self.effect(slot_id, effects).is_some()
    }

    /// The label of a slot: the name of its effect, or `<unknown>`.
    pub fn occupied_label(&self, slot_id: u32, effects: &HashMap<EffectId, Effect>) -> (r: String)
        ensures
            r@ == slot_label(
                if effects@.contains_key(slot_id) {
                    Some(effects@[slot_id].spec_name())
                } else {
                    None
                },
            ),
    {
        match self.effect(slot_id, effects) {
            Some(e) => String::from_str(e.name()),
            None => String::from_str("<unknown>"),
        }
    }
}

/// The display modes of the show.
#[derive(Debug, Clone, Copy)]
pub struct ShowModes {
    pub highlight: bool,
}

impl ShowModes {
    /// All modes off.
    pub fn new() -> (r: ShowModes)
        ensures
            !r.highlight,
    {
        ShowModes { highlight: false }
    }
}

/// The kinds of values that flow through an effect graph.
#[derive(Debug, Clone, Copy, PartialEq, Eq, Structural, Hash)]
pub enum DataType {
    Number,
    Boolean,
}

/// The definition of the effect graphs: which values, data types and
/// controls their nodes use.
#[derive(Debug, Clone, Copy)]
pub struct GraphDef;

/// The number of a fixture group.
pub type FixtureGroupId = u32;

/// A list of fixtures that together make a sequential group.
#[derive(Debug, Clone)]
pub struct FixtureGroup {
    pub id: FixtureGroupId,
    pub name: String,
    pub fixtures: Vec<FixtureId>,
}

impl FixtureGroup {
    /// An empty group named "New Fixture Group".
    pub fn new(id: FixtureGroupId) -> (r: FixtureGroup)
        ensures
            r.id == id,
            r.name@ == "New Fixture Group"@,
            r.fixtures@.len() == 0,
    {
        FixtureGroup { id, name: String::from_str("New Fixture Group"), fixtures: Vec::new() }
    }

    /// The group's id.
    pub fn id(&self) -> (r: FixtureGroupId)
        ensures
            r == self.id,
    {
        self.id
    }

    /// The group's name.
    pub fn name(&self) -> (r: &str)
        ensures
            r@ == self.name@,
    {
        self.name.as_str()
    }

    /// The group's fixtures, in the order they were added.
    pub fn fixtures(&self) -> (r: &[FixtureId])
        ensures
            r@ == self.fixtures@,
    {
        self.fixtures.as_slice()
    }

    /// The number of fixtures.
    pub fn len(&self) -> (r: usize)
        ensures
            r == self.fixtures@.len(),
    {
        self.fixtures.len()
    }

    /// Whether the group has no fixtures.
    pub fn is_empty(&self) -> (r: bool)
        ensures
            r == (self.fixtures@.len() == 0),
    {
        self.len() == 0
    }

    /// Whether the group has the fixture.
    pub fn contains(&self, fixture_id: &FixtureId) -> (r: bool)
        ensures
            r == self.fixtures@.contains(*fixture_id),
    {
        let n = self.fixtures.len();
        for i in 0..n
            invariant
                n == self.fixtures@.len(),
                forall|j: int| 0 <= j < i ==> self.fixtures@[j] != *fixture_id,
        {
            if self.fixtures[i] == *fixture_id {
                assert(self.fixtures@[i as int] == *fixture_id);
                return true;
            }
        }
        false
    }
}

/// A fixture as an effect script sees it.
#[derive(Debug, Clone)]
pub struct ScriptFixture {
    pub id: FixtureId,
    pub name: String,
}

impl ScriptFixture {
    /// A fixture with the given id and name.
    pub fn new(id: FixtureId, name: String) -> (r: ScriptFixture)
        ensures
            r.id == id,
            r.name == name,
    {
        ScriptFixture { id, name }
    }
}

} // verus!
