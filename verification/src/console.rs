//! The state a console keeps between patch and programming commands: the
//! patch of named fixtures, the programmer with its selection, the objects
//! and the pools that give them slots.
use vstd::prelude::*;

use crate::attr::Attribute;
use crate::event::{EngineEvent, EventHandler};
use crate::object::{ObjectId, ObjectKind, PoolId};
use crate::patch::{AttributeValue, DmxAddress, FixtureId};
use crate::show::select_one;
use crate::values::ValueMap;

verus! {

/// A fixture in the patch.
#[derive(Debug, Clone)]
pub struct PatchedFixture {
    pub fid: FixtureId,
    pub fixture_type_id: u128,
    pub address: DmxAddress,
    pub dmx_mode: String,
    pub name: String,
}

impl PatchedFixture {
    /// A fixture with the given patch information.
    pub fn new(
        fid: FixtureId,
        fixture_type_id: u128,
        address: DmxAddress,
        dmx_mode: String,
        name: String,
    ) -> (r: PatchedFixture)
        ensures
            r == (PatchedFixture { fid, fixture_type_id, address, dmx_mode, name }),
    {
        PatchedFixture { fid, fixture_type_id, address, dmx_mode, name }
    }

    /// A copy of this fixture.
    pub fn duplicate(&self) -> (r: PatchedFixture)
        ensures
            r == *self,
    {
        PatchedFixture {
            fid: self.fid,
            fixture_type_id: self.fixture_type_id,
            address: self.address,
            dmx_mode: self.dmx_mode.clone(),
            name: self.name.clone(),
        }
    }
}

/// The index of the first fixture with this id, if one is patched.
pub open spec fn fixture_pos(s: Seq<PatchedFixture>, fid: FixtureId) -> Option<int> {
    if (exists|i: int|
        0 <= i < s.len() && #[trigger] s[i].fid == fid && forall|j: int| 0 <= j < i ==> #[trigger] s[j].fid != fid) {
        Some(
            choose|i: int|
                0 <= i < s.len() && #[trigger] s[i].fid == fid && forall|j: int|
                    0 <= j < i ==> #[trigger] s[j].fid != fid,
        )
    } else {
        None
    }
}

/// The fixture at `i` is the first with its id.
proof fn lemma_fixture_pos(s: Seq<PatchedFixture>, fid: FixtureId, i: int)
    requires
        0 <= i < s.len(),
        s[i].fid == fid,
        forall|j: int| 0 <= j < i ==> #[trigger] s[j].fid != fid,
    ensures
        fixture_pos(s, fid) == Some(i),
{
    let k = choose|k: int|
        0 <= k < s.len() && #[trigger] s[k].fid == fid && forall|j: int|
            0 <= j < k ==> #[trigger] s[j].fid != fid;
    if k < i {
        assert(s[k].fid != fid);
    }
    if i < k {
        assert(s[i].fid != fid);
    }
}

/// Why a patch change was refused.
#[derive(Debug, Clone, Copy, PartialEq, Eq, Structural)]
pub enum ConsoleError {
    /// A fixture with this id is already patched.
    FixtureIdTaken,
    /// No object sits in the given pool slot.
    ObjectNotFound,
}

/// The fixtures of the console, each under its own id.
#[derive(Debug)]
pub struct ConsolePatch {
    fixtures: Vec<PatchedFixture>,
}

impl ConsolePatch {
    /// The patched fixtures, in the order they were added.
    pub closed spec fn fixtures(self) -> Seq<PatchedFixture> {
        self.fixtures@
    }

    #[verifier::type_invariant]
    spec fn fids_unique(self) -> bool {
        forall|i: int, j: int|
            0 <= i < self.fixtures@.len() && 0 <= j < self.fixtures@.len() && i != j
                ==> #[trigger] self.fixtures@[i].fid != #[trigger] self.fixtures@[j].fid
    }

    /// No two fixtures share an id.
    pub fn assert_unique(&self)
        ensures
            forall|i: int, j: int|
                0 <= i < self.fixtures().len() && 0 <= j < self.fixtures().len() && i != j
                    ==> #[trigger] self.fixtures()[i].fid != #[trigger] self.fixtures()[j].fid,
    {
        proof {
            use_type_invariant(self);
        }
    }

    /// An empty patch.
    pub fn new() -> (r: ConsolePatch)
        ensures
            r.fixtures().len() == 0,
    {
        ConsolePatch { fixtures: Vec::new() }
    }

    /// The patched fixtures.
    pub fn fixtures_slice(&self) -> (r: &[PatchedFixture])
        ensures
            r@ == self.fixtures(),
    {
        self.fixtures.as_slice()
    }

    /// The fixture with this id, if one is patched.
    pub fn fixture(&self, fid: FixtureId) -> (r: Option<&PatchedFixture>)
        ensures
            match fixture_pos(self.fixtures(), fid) {
                Some(i) => r == Some(&self.fixtures()[i]),
                None => r is None,
            },
    {
        proof {
            use_type_invariant(self);
        }
        let n = self.fixtures.len();
        for i in 0..n
            invariant
                n == self.fixtures@.len(),
                forall|a: int, b: int|
                    0 <= a < self.fixtures@.len() && 0 <= b < self.fixtures@.len() && a != b
                        ==> #[trigger] self.fixtures@[a].fid != #[trigger] self.fixtures@[b].fid,
                forall|j: int| 0 <= j < i ==> #[trigger] self.fixtures@[j].fid != fid,
        {
            if self.fixtures[i].fid == fid {
                proof {
                    lemma_fixture_pos(self.fixtures@, fid, i as int);
                }
                return Some(&self.fixtures[i]);
            }
        }
        None
    }

    /// Adds a fixture, unless its id is taken.
    pub fn add_fixture(&mut self, fixture: PatchedFixture) -> (r: Result<(), ConsoleError>)
        ensures
            fixture_pos(old(self).fixtures(), fixture.fid) is Some ==> (r == Err::<(), ConsoleError>(
                ConsoleError::FixtureIdTaken) && final(self).fixtures() == old(self).fixtures()),
            fixture_pos(old(self).fixtures(), fixture.fid) is None ==> (r is Ok && final(self).fixtures()
                == old(self).fixtures().push(fixture)),
    {
        if self.fixture(fixture.fid).is_some() {
            return Err(ConsoleError::FixtureIdTaken);
        }
        proof {
            use_type_invariant(&*self);
            let s = self.fixtures@.push(fixture);
            assert forall|a: int, b: int|
                0 <= a < s.len() && 0 <= b < s.len() && a != b implies #[trigger] s[a].fid
                != #[trigger] s[b].fid by {
                if a < self.fixtures@.len() && b < self.fixtures@.len() {
                    assert(s[a] == self.fixtures@[a] && s[b] == self.fixtures@[b]);
                } else if a == self.fixtures@.len() {
                    assert(s[b] == self.fixtures@[b]);
                } else {
                    assert(s[a] == self.fixtures@[a]);
                }
            }
        }
        let mut v: Vec<PatchedFixture> = Vec::new();
        std::mem::swap(&mut v, &mut self.fixtures);
        v.push(fixture);
        self.fixtures = v;
        Ok(())
    }

    /// Removes the fixture with this id, if one is patched.
    pub fn remove_fixture(&mut self, fid: FixtureId)
        ensures
            match fixture_pos(old(self).fixtures(), fid) {
                Some(i) => final(self).fixtures() == old(self).fixtures().remove(i),
                None => final(self).fixtures() == old(self).fixtures(),
            },
    {
        proof {
            use_type_invariant(&*self);
        }
        let n = self.fixtures.len();
        for i in 0..n
            invariant
                n == self.fixtures@.len(),
                self.fixtures@ == old(self).fixtures@,
                forall|a: int, b: int|
                    0 <= a < self.fixtures@.len() && 0 <= b < self.fixtures@.len() && a != b
                        ==> #[trigger] self.fixtures@[a].fid != #[trigger] self.fixtures@[b].fid,
                forall|j: int| 0 <= j < i ==> #[trigger] self.fixtures@[j].fid != fid,
        {
            if self.fixtures[i].fid == fid {
                proof {
                    lemma_fixture_pos(self.fixtures@, fid, i as int);
                    let s = self.fixtures@.remove(i as int);
                    assert forall|a: int, b: int|
                        0 <= a < s.len() && 0 <= b < s.len() && a != b implies #[trigger] s[a].fid
                        != #[trigger] s[b].fid by {
                        let a2 = if a < i { a } else { a + 1 };
                        let b2 = if b < i { b } else { b + 1 };
                        assert(s[a] == self.fixtures@[a2] && s[b] == self.fixtures@[b2]);
                    }
                }
                let mut v: Vec<PatchedFixture> = Vec::new();
                std::mem::swap(&mut v, &mut self.fixtures);
                v.remove(i);
                self.fixtures = v;
                return ;
            }
        }
    }
}

/// The programmer: the selected fixtures and the values set on them.
#[derive(Debug)]
pub struct ConsoleProgrammer {
    pub selection: Vec<FixtureId>,
    pub values: ValueMap<(FixtureId, Attribute)>,
}

impl ConsoleProgrammer {
    /// A programmer with no selection and no values.
    pub fn new() -> (r: ConsoleProgrammer)
        ensures
            r.selection@.len() == 0,
            r.values.pairs().len() == 0,
    {
        ConsoleProgrammer { selection: Vec::new(), values: ValueMap::new() }
    }

    /// Selects a fixture, unless it is already selected.
    pub fn select(&mut self, fid: FixtureId)
        ensures
            final(self).selection@ == select_one(old(self).selection@, fid),
            final(self).values == old(self).values,
    {
        let n = self.selection.len();
        for i in 0..n
            invariant
                n == self.selection@.len(),
                forall|j: int| 0 <= j < i ==> self.selection@[j] != fid,
        {
            if self.selection[i] == fid {
                assert(self.selection@.contains(fid)) by {
                    assert(self.selection@[i as int] == fid);
                }
                return ;
            }
        }
        self.selection.push(fid);
    }

    /// Whether any fixture is selected.
    pub fn has_selection(&self) -> (r: bool)
        ensures
            r == (self.selection@.len() > 0),
    {
        self.selection.len() > 0
    }

    /// Whether any value is set.
    pub fn has_values(&self) -> (r: bool)
        ensures
            r == (self.values.pairs().len() > 0),
    {
        !self.values.is_empty()
    }

    /// Deselects all fixtures.
    pub fn clear_selection(&mut self)
        ensures
            final(self).selection@.len() == 0,
            final(self).values == old(self).values,
    {
        self.selection = Vec::new();
    }

    /// Removes all values.
    pub fn clear_values(&mut self)
        ensures
            final(self).values.pairs().len() == 0,
            final(self).selection == old(self).selection,
    {
        self.values.clear();
    }

    /// Sets the value of an attribute of a fixture.
    pub fn set_value(&mut self, fid: FixtureId, attribute: Attribute, value: AttributeValue)
        ensures
            final(self).values.map() == old(self).values.map().insert((fid, attribute@), value),
            final(self).selection == old(self).selection,
    {
        self.values.set((fid, attribute), value);
    }
}

/// An object of the console: its id, kind and name.
#[derive(Debug, Clone)]
pub struct ConsoleObject {
    pub id: ObjectId,
    pub kind: ObjectKind,
    pub name: String,
}

/// The entry `i` of the pools is for the slot `pool_id` of `kind`'s pool.
pub open spec fn is_slot(s: Seq<(ObjectKind, PoolId, ObjectId)>, i: int, kind: ObjectKind, pool_id: PoolId) -> bool {
    s[i].0 == kind && s[i].1 == pool_id
}

/// The index of the first entry of the pools for a slot, if any.
pub open spec fn slot_pos(s: Seq<(ObjectKind, PoolId, ObjectId)>, kind: ObjectKind, pool_id: PoolId) -> Option<int> {
    if (exists|i: int|
        0 <= i < s.len() && #[trigger] is_slot(s, i, kind, pool_id) && forall|j: int|
            0 <= j < i ==> !#[trigger] is_slot(s, j, kind, pool_id)) {
        Some(
            choose|i: int|
                0 <= i < s.len() && #[trigger] is_slot(s, i, kind, pool_id) && forall|j: int|
                    0 <= j < i ==> !#[trigger] is_slot(s, j, kind, pool_id),
        )
    } else {
        None
    }
}

/// The entries of the pools after putting `id` in a slot: in place of the
/// slot's first entry where it has one, else as a new last entry.
pub open spec fn slot_put(s: Seq<(ObjectKind, PoolId, ObjectId)>, kind: ObjectKind, pool_id: PoolId, id: ObjectId) -> Seq<(ObjectKind, PoolId, ObjectId)> {
    match slot_pos(s, kind, pool_id) {
        Some(i) => s.update(i, (kind, pool_id, id)),
        None => s.push((kind, pool_id, id)),
    }
}

proof fn lemma_slot_first(s: Seq<(ObjectKind, PoolId, ObjectId)>, kind: ObjectKind, pool_id: PoolId, i: int)
    requires
        0 <= i < s.len(),
        is_slot(s, i, kind, pool_id),
        forall|j: int| 0 <= j < i ==> !#[trigger] is_slot(s, j, kind, pool_id),
    ensures
        slot_pos(s, kind, pool_id) == Some(i),
{
    let k = choose|k: int|
        0 <= k < s.len() && #[trigger] is_slot(s, k, kind, pool_id) && forall|j: int|
            0 <= j < k ==> !#[trigger] is_slot(s, j, kind, pool_id);
    if k < i {
        assert(!is_slot(s, k, kind, pool_id));
    }
    if i < k {
        assert(!is_slot(s, i, kind, pool_id));
    }
}

/// The first entry of the pools for a slot, if any.
fn find_slot(pools: &Vec<(ObjectKind, PoolId, ObjectId)>, kind: ObjectKind, pool_id: PoolId) -> (r: Option<usize>)
    ensures
        r matches Some(i) ==> i < pools@.len(),
        match r {
            Some(i) => slot_pos(pools@, kind, pool_id) == Some(i as int),
            None => slot_pos(pools@, kind, pool_id) is None,
        },
{
    let n = pools.len();
    for i in 0..n
        invariant
            n == pools@.len(),
            forall|j: int| 0 <= j < i ==> !#[trigger] is_slot(pools@, j, kind, pool_id),
    {
        if pools[i].0 == kind && pools[i].1 == pool_id {
            proof {
                assert(is_slot(pools@, i as int, kind, pool_id));
                lemma_slot_first(pools@, kind, pool_id, i as int);
            }
            return Some(i);
        }
    }
    None
}

/// The index of the first object with this id.
pub open spec fn object_pos(s: Seq<ConsoleObject>, id: ObjectId) -> Option<int> {
    if (exists|i: int|
        0 <= i < s.len() && #[trigger] s[i].id == id && forall|j: int| 0 <= j < i ==> #[trigger] s[j].id != id) {
        Some(
            choose|i: int|
                0 <= i < s.len() && #[trigger] s[i].id == id && forall|j: int|
                    0 <= j < i ==> #[trigger] s[j].id != id,
        )
    } else {
        None
    }
}

/// The objects after putting one in: in place of the first with its id,
/// else as the last.
pub open spec fn objects_put(s: Seq<ConsoleObject>, o: ConsoleObject) -> Seq<ConsoleObject> {
    match object_pos(s, o.id) {
        Some(i) => s.update(i, o),
        None => s.push(o),
    }
}

/// The objects after taking out the first with this id.
pub open spec fn objects_take(s: Seq<ConsoleObject>, id: ObjectId) -> Seq<ConsoleObject> {
    match object_pos(s, id) {
        Some(i) => s.remove(i),
        None => s,
    }
}

/// The index of the first object with this id.
fn find_object(objects: &Vec<ConsoleObject>, id: ObjectId) -> (r: Option<usize>)
    ensures
        r matches Some(i) ==> i < objects@.len(),
        match r {
            Some(i) => object_pos(objects@, id) == Some(i as int),
            None => object_pos(objects@, id) is None,
        },
{
    let n = objects.len();
    for i in 0..n
        invariant
            n == objects@.len(),
            forall|j: int| 0 <= j < i ==> #[trigger] objects@[j].id != id,
    {
        if objects[i].id == id {
            proof {
                let s = objects@;
                let k = choose|k: int|
                    0 <= k < s.len() && #[trigger] s[k].id == id && forall|j: int|
                        0 <= j < k ==> #[trigger] s[j].id != id;
                assert(s[i as int].id == id);
                if k < i {
                    assert(s[k].id != id);
                }
                if i < k {
                    assert(s[i as int].id != id);
                }
            }
            return Some(i);
        }
    }
    None
}

/// The state of a console.
#[derive(Debug)]
pub struct Console {
    pub patch: ConsolePatch,
    pub programmer: ConsoleProgrammer,
    /// The objects, in the order they were made.
    pub objects: Vec<ConsoleObject>,
    /// The pool slots, in the order they were filled; each (kind, slot) at
    /// most once.
    pub pools: Vec<(ObjectKind, PoolId, ObjectId)>,
    pub events: EventHandler,
}

impl Console {
    /// An empty console.
    pub fn new() -> (r: Console)
        ensures
            r.patch.fixtures().len() == 0,
            r.programmer.selection@.len() == 0,
            r.programmer.values.pairs().len() == 0,
            r.objects@.len() == 0,
            r.pools@.len() == 0,
            r.events.events().len() == 0,
    {
        Console {
            patch: ConsolePatch::new(),
            programmer: ConsoleProgrammer::new(),
            objects: Vec::new(),
            pools: Vec::new(),
            events: EventHandler::new(),
        }
    }

    /// The object in a pool slot, if any.
    pub fn pool_get(&self, kind: ObjectKind, pool_id: PoolId) -> (r: Option<ObjectId>)
        ensures
            match slot_pos(self.pools@, kind, pool_id) {
                Some(i) => r == Some(self.pools@[i].2),
                None => r is None,
            },
    {
        match find_slot(&self.pools, kind, pool_id) {
            Some(i) => Some(self.pools[i].2),
            None => None,
        }
    }

    /// Puts an object in: in place of the first with its id, else as the
    /// last.
    pub fn put_object(&mut self, o: ConsoleObject)
        ensures
            final(self).objects@ == objects_put(old(self).objects@, o),
            final(self).pools == old(self).pools,
            final(self).patch == old(self).patch,
            final(self).programmer == old(self).programmer,
            final(self).events == old(self).events,
    {
        match find_object(&self.objects, o.id) {
            Some(i) => self.objects.set(i, o),
            None => self.objects.push(o),
        }
    }

    /// Takes out the first object with this id.
    pub fn take_object(&mut self, id: ObjectId)
        ensures
            final(self).objects@ == objects_take(old(self).objects@, id),
            final(self).pools == old(self).pools,
            final(self).patch == old(self).patch,
            final(self).programmer == old(self).programmer,
            final(self).events == old(self).events,
    {
        match find_object(&self.objects, id) {
            Some(i) => {
                self.objects.remove(i);
            },
            None => {},
        }
    }

    /// Puts an object in a pool slot.
    pub fn pool_put(&mut self, kind: ObjectKind, pool_id: PoolId, id: ObjectId)
        ensures
            final(self).pools@ == slot_put(old(self).pools@, kind, pool_id, id),
            final(self).objects == old(self).objects,
            final(self).patch == old(self).patch,
            final(self).programmer == old(self).programmer,
            final(self).events == old(self).events,
    {
        match find_slot(&self.pools, kind, pool_id) {
            Some(i) => self.pools.set(i, (kind, pool_id, id)),
            None => self.pools.push((kind, pool_id, id)),
        }
    }
}

} // verus!
