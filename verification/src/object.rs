//! Show objects (groups, executors, sequences and the nine kinds of presets)
//! and the container that holds them by id.
use vstd::prelude::*;

use crate::attr::{Attribute, AttributeView};
use crate::patch::{first_controlling, AttributeValue, Fixture, FixtureId, Patch};
use crate::sequence::Sequence;
use crate::values::{ValueKey, ValueMap};

verus! {

/// A random (version 4) UUID as a number: its version field (bits 76 to 79)
/// holds 4 and its variant field (bits 62 and 63) holds binary `10`.
pub open spec fn is_random_uuid(x: u128) -> bool {
    (x >> 76u128) & 0xf == 4 && (x >> 62u128) & 0x3 == 2
}

/// Calls `uuid::Uuid::new_v4` and returns the new id as a number. The other
/// bits are random; what is claimed is that the crate sets the version and
/// variant fields of every id it makes (it masks them out of a random number
/// and sets them to 4 and `10`).
#[verifier::external_body]
fn random_uuid() -> (r: u128)
    ensures
        is_random_uuid(r),
{
    uuid::Uuid::new_v4().as_u128()
}

/// The unique id of a show object.
#[derive(Debug, Clone, Copy, PartialEq, Eq, Structural, Hash)]
pub struct ObjectId(pub u128);

impl ObjectId {
    /// A new random id: a version 4 UUID.
    pub fn new() -> (r: ObjectId)
        ensures
            is_random_uuid(r.0),
    {
        ObjectId(random_uuid())
    }
}

/// The number of a slot in an object pool; pool ids start at 1.
#[derive(Debug, Clone, Copy, PartialEq, Eq, Structural, Hash)]
pub struct PoolId {
    id: u32,
}

impl PoolId {
    /// The slot number.
    pub closed spec fn value(self) -> u32 {
        self.id
    }

    /// The slot number of a pool id is never 0.
    #[verifier::type_invariant]
    spec fn slot_is_positive(self) -> bool {
        self.id > 0
    }

    /// The pool id of slot `id`.
    pub fn new(id: u32) -> (r: PoolId)
        requires
            id > 0,
        ensures
            r.value() == id,
    {
        PoolId { id }
    }

    /// The pool id of slot `id`, or `None` for 0.
    pub fn try_new(id: u32) -> (r: Option<PoolId>)
        ensures
            r matches Some(p) ==> p.value() == id,
            r is None <==> id == 0,
    {
        if id > 0 {
            Some(PoolId { id })
        } else {
            None
        }
    }

    /// The slot number, which is at least 1.
    pub fn get(&self) -> (r: u32)
        ensures
            r == self.value(),
            r > 0,
    {
        proof {
            use_type_invariant(self);
        }
        self.id
    }

    /// Pool ids are equal exactly when their slot numbers are.
    pub proof fn lemma_value_injective(a: PoolId, b: PoolId)
        ensures
            (a.value() == b.value()) == (a == b),
    {
    }
}

/// The kinds of show objects.
#[derive(Debug, Clone, Copy, PartialEq, Eq, Structural, Hash)]
pub enum ObjectKind {
    Group,
    Executor,
    Sequence,
    PresetDimmer,
    PresetPosition,
    PresetGobo,
    PresetColor,
    PresetBeam,
    PresetFocus,
    PresetControl,
    PresetShapers,
    PresetVideo,
}

impl ObjectKind {
    /// The kind is one of the nine kinds of presets.
    pub open spec fn is_preset(self) -> bool {
        !(self is Group || self is Executor || self is Sequence)
    }

    /// The kind's name as commands write it.
    pub open spec fn name(self) -> Seq<char> {
        match self {
            ObjectKind::Group => "group"@,
            ObjectKind::Executor => "executor"@,
            ObjectKind::Sequence => "sequence"@,
            ObjectKind::PresetDimmer => "preset::dimmer"@,
            ObjectKind::PresetPosition => "preset::position"@,
            ObjectKind::PresetGobo => "preset::gobo"@,
            ObjectKind::PresetColor => "preset::color"@,
            ObjectKind::PresetBeam => "preset::beam"@,
            ObjectKind::PresetFocus => "preset::focus"@,
            ObjectKind::PresetControl => "preset::control"@,
            ObjectKind::PresetShapers => "preset::shapers"@,
            ObjectKind::PresetVideo => "preset::video"@,
        }
    }

    /// The kind's name as commands write it.
    pub fn to_text(&self) -> (r: String)
        ensures
            r@ == self.name(),
    {
        match self {
            ObjectKind::Group => String::from_str("group"),
            ObjectKind::Executor => String::from_str("executor"),
            ObjectKind::Sequence => String::from_str("sequence"),
            ObjectKind::PresetDimmer => String::from_str("preset::dimmer"),
            ObjectKind::PresetPosition => String::from_str("preset::position"),
            ObjectKind::PresetGobo => String::from_str("preset::gobo"),
            ObjectKind::PresetColor => String::from_str("preset::color"),
            ObjectKind::PresetBeam => String::from_str("preset::beam"),
            ObjectKind::PresetFocus => String::from_str("preset::focus"),
            ObjectKind::PresetControl => String::from_str("preset::control"),
            ObjectKind::PresetShapers => String::from_str("preset::shapers"),
            ObjectKind::PresetVideo => String::from_str("preset::video"),
        }
    }

    /// Whether the kind is one of the nine kinds of presets.
    pub fn is_preset_kind(&self) -> (r: bool)
        ensures
            r == self.is_preset(),
    {
        !matches!(self, ObjectKind::Group | ObjectKind::Executor | ObjectKind::Sequence)
    }
}

/// The id of an object together with its kind.
#[derive(Debug, Clone, Copy, PartialEq, Eq, Structural)]
pub struct AnyObjectId {
    pub kind: ObjectKind,
    pub id: ObjectId,
}

/// The id of a preset together with its kind, which is one of the preset
/// kinds.
#[derive(Debug, Clone, Copy, PartialEq, Eq, Structural)]
pub struct AnyPresetId {
    kind: ObjectKind,
    id: ObjectId,
}

impl AnyPresetId {
    #[verifier::type_invariant]
    spec fn kind_is_preset(self) -> bool {
        self.kind.is_preset()
    }

    /// The preset's kind.
    pub closed spec fn spec_kind(self) -> ObjectKind {
        self.kind
    }

    /// The preset's id.
    pub closed spec fn spec_id(self) -> ObjectId {
        self.id
    }

    /// The preset's kind, a preset kind.
    pub fn kind(&self) -> (r: ObjectKind)
        ensures
            r == self.spec_kind(),
            r.is_preset(),
    {
        proof {
            use_type_invariant(self);
        }
        self.kind
    }

    /// The preset's id.
    pub fn id(&self) -> (r: ObjectId)
        ensures
            r == self.spec_id(),
    {
        self.id
    }

    /// The preset id an object id stands for, where the object's kind is a
    /// preset kind.
    pub fn try_from(any: AnyObjectId) -> (r: Result<AnyPresetId, ()>)
        ensures
            any.kind.is_preset() ==> (r matches Ok(p) && p.spec_kind() == any.kind && p.spec_id() == any.id),
            !any.kind.is_preset() ==> r is Err,
    {
        if any.kind.is_preset_kind() {
            Ok(AnyPresetId { kind: any.kind, id: any.id })
        } else {
            Err(())
        }
    }
}

impl From<AnyPresetId> for AnyObjectId {
    fn from(p: AnyPresetId) -> (r: AnyObjectId) {
        AnyObjectId { kind: p.kind, id: p.id }
    }
}

impl vstd::std_specs::convert::FromSpecImpl<AnyPresetId> for AnyObjectId {
    open spec fn obeys_from_spec() -> bool {
        true
    }

    open spec fn from_spec(p: AnyPresetId) -> AnyObjectId {
        AnyObjectId { kind: p.spec_kind(), id: p.spec_id() }
    }
}

/// A reference to an object: its kind and its slot in that kind's pool.
#[derive(Debug, Clone, Copy, PartialEq, Eq, Structural)]
pub struct ObjectReference {
    pub kind: ObjectKind,
    pub pool_id: PoolId,
}

/// A group of fixtures, in the order they were added.
#[derive(Debug, Clone)]
pub struct Group {
    pub name: String,
    pub id: ObjectId,
    pub pool_id: PoolId,
    pub fids: Vec<FixtureId>,
}

impl Group {
    /// An empty group.
    pub fn create(id: ObjectId, pool_id: PoolId, name: String) -> (r: Group)
        ensures
            r.id == id,
            r.pool_id == pool_id,
            r.name == name,
            r.fids@.len() == 0,
    {
        Group { name, id, pool_id, fids: Vec::new() }
    }

    /// The fixtures of the group.
    pub fn fids(&self) -> (r: &[FixtureId])
        ensures
            r@ == self.fids@,
    {
        self.fids.as_slice()
    }
}

/// An executor, which plays back a sequence.
#[derive(Debug, Clone)]
pub struct Executor {
    pub name: String,
    pub id: ObjectId,
    pub pool_id: PoolId,
    pub sequence_id: Option<ObjectId>,
    pub is_on: bool,
}

impl Executor {
    /// An executor with no sequence, switched off.
    pub fn create(id: ObjectId, pool_id: PoolId, name: String) -> (r: Executor)
        ensures
            r.id == id,
            r.pool_id == pool_id,
            r.name == name,
            r.sequence_id is None,
            !r.is_on,
    {
        Executor { name, id, pool_id, sequence_id: None, is_on: false }
    }

    /// The id of the executor's sequence, if it has one.
    pub fn sequence_id(&self) -> (r: Option<ObjectId>)
        ensures
            r == self.sequence_id,
    {
        self.sequence_id
    }

    /// The executor's sequence, if it has one and the container holds it.
    pub fn sequence<'a>(&self, objects: &'a ObjectContainer) -> (r: Option<&'a Sequence>)
        ensures
            match self.sequence_id {
                Some(id) => match find_id(objects.objects(), id) {
                    Some(i) => match objects.objects()[i] {
                        AnyObject::Sequence(s) => r == Some(&s),
                        _ => r is None,
                    },
                    None => r is None,
                },
                None => r is None,
            },
    {
        match self.sequence_id {
            Some(id) => objects.sequence(id),
            None => None,
        }
    }

    /// Whether the executor is switched on.
    pub fn is_on(&self) -> (r: bool)
        ensures
            r == self.is_on,
    {
        self.is_on
    }
}

/// The values of a preset that apply to every fixture, by attribute.
#[derive(Debug, Clone)]
pub struct UniversalPreset {
    pub values: ValueMap<Attribute>,
}

/// The values of a preset that apply to fixtures of a type, by fixture type
/// and attribute.
#[derive(Debug, Clone)]
pub struct GlobalPreset {
    pub values: ValueMap<(u128, Attribute)>,
}

/// The values of a preset for single fixtures, by fixture and attribute.
#[derive(Debug, Clone)]
pub struct SelectivePreset {
    pub values: ValueMap<(FixtureId, Attribute)>,
}

impl UniversalPreset {
    /// A preset with no values.
    pub fn new() -> (r: UniversalPreset)
        ensures
            r.values.pairs().len() == 0,
    {
        UniversalPreset { values: ValueMap::new() }
    }

    /// The values, in the order their attributes were first set.
    pub fn values(&self) -> (r: &[(Attribute, AttributeValue)])
        ensures
            r@ == self.values.pairs(),
    {
        self.values.entries()
    }

    /// Sets the value of an attribute.
    pub fn set_value(&mut self, attribute: Attribute, value: AttributeValue)
        ensures
            final(self).values.map() == old(self).values.map().insert(attribute@, value),
    {
        self.values.set(attribute, value);
    }
}

impl GlobalPreset {
    /// A preset with no values.
    pub fn new() -> (r: GlobalPreset)
        ensures
            r.values.pairs().len() == 0,
    {
        GlobalPreset { values: ValueMap::new() }
    }

    /// The values, in the order their keys were first set.
    pub fn values(&self) -> (r: &[((u128, Attribute), AttributeValue)])
        ensures
            r@ == self.values.pairs(),
    {
        self.values.entries()
    }

    /// Sets the value of an attribute for fixtures of a type.
    pub fn set_value(&mut self, fixture_type_id: u128, attribute: Attribute, value: AttributeValue)
        ensures
            final(self).values.map() == old(self).values.map().insert(
                (fixture_type_id, attribute@),
                value,
            ),
    {
        self.values.set((fixture_type_id, attribute), value);
    }
}

impl SelectivePreset {
    /// A preset with no values.
    pub fn new() -> (r: SelectivePreset)
        ensures
            r.values.pairs().len() == 0,
    {
        SelectivePreset { values: ValueMap::new() }
    }

    /// The values, in the order their keys were first set.
    pub fn values(&self) -> (r: &[((FixtureId, Attribute), AttributeValue)])
        ensures
            r@ == self.values.pairs(),
    {
        self.values.entries()
    }

    /// Sets the value of an attribute of a fixture.
    pub fn set_value(&mut self, fid: FixtureId, attribute: Attribute, value: AttributeValue)
        ensures
            final(self).values.map() == old(self).values.map().insert((fid, attribute@), value),
    {
        self.values.set((fid, attribute), value);
    }
}

/// What a preset holds.
#[derive(Debug, Clone)]
pub enum PresetContent {
    Universal(UniversalPreset),
    Global(GlobalPreset),
    Selective(SelectivePreset),
}

impl PresetContent {
    /// Empty universal content, the content of a new preset.
    pub fn new() -> (r: PresetContent)
        ensures
            r matches PresetContent::Universal(u) && u.values.pairs().len() == 0,
    {
        PresetContent::Universal(UniversalPreset::new())
    }

    /// A copy of this content.
    pub fn duplicate(&self) -> (r: PresetContent)
        ensures
            same_content(r, *self),
    {
        match self {
            PresetContent::Universal(p) => PresetContent::Universal(
                UniversalPreset { values: p.values.duplicate() },
            ),
            PresetContent::Global(p) => PresetContent::Global(
                GlobalPreset { values: p.values.duplicate() },
            ),
            PresetContent::Selective(p) => PresetContent::Selective(
                SelectivePreset { values: p.values.duplicate() },
            ),
        }
    }
}

/// Both contents are of the same kind and hold the same entries.
pub open spec fn same_content(a: PresetContent, b: PresetContent) -> bool {
    match (a, b) {
        (PresetContent::Universal(x), PresetContent::Universal(y)) => x.values.pairs()
            == y.values.pairs(),
        (PresetContent::Global(x), PresetContent::Global(y)) => x.values.pairs()
            == y.values.pairs(),
        (PresetContent::Selective(x), PresetContent::Selective(y)) => x.values.pairs()
            == y.values.pairs(),
        _ => false,
    }
}

/// A preset of any of the nine kinds.
#[derive(Debug, Clone)]
pub struct Preset {
    pub name: String,
    pub id: ObjectId,
    pub pool_id: PoolId,
    pub content: PresetContent,
}

impl Preset {
    /// A preset with empty universal content.
    pub fn create(id: ObjectId, pool_id: PoolId, name: String) -> (r: Preset)
        ensures
            r.id == id,
            r.pool_id == pool_id,
            r.name == name,
            r.content matches PresetContent::Universal(u) && u.values.pairs().len() == 0,
    {
        Preset { name, id, pool_id, content: PresetContent::new() }
    }

    /// What the preset holds.
    pub fn content(&self) -> (r: &PresetContent)
        ensures
            *r == self.content,
    {
        &self.content
    }

    /// The fixtures the preset applies to, in the order the patch lists them
    /// (for universal and global content) or the order of its entries (for
    /// selective content). Universal and global content walk the patch's
    /// fixtures and the preset's keys together, in one pass over the keys:
    /// a fixture is taken when a key not yet passed matches it, and the keys
    /// up to that match are passed.
    pub fn fixture_ids(&self, patch: &Patch) -> (r: Vec<FixtureId>)
        requires
            self.content is Universal ==> forall|i: int|
                0 <= i < patch.fixtures@.len() ==> patch.resolves(#[trigger] patch.fixtures@[i]),
        ensures
            r@ == preset_fixture_ids(self.content, *patch),
    {
        match &self.content {
            PresetContent::Universal(p) => {
                let keys = p.values.entries();
                let ghost hit = universal_hit(*patch, keys@);
                let ghost ok = |f: Fixture| patch.resolves(f);
                greedy_fixture_ids(patch, keys.len(), Ghost(hit), Ghost(ok), |f: &Fixture, j: usize| -> (b: bool)
                    requires
                        j < keys@.len(),
                        patch.resolves(*f),
                    ensures
                        b == hit(*f, j as int),
                    { f.has_attribute(&keys[j].0, patch) })
            },
            PresetContent::Global(p) => {
                let keys = p.values.entries();
                let ghost hit = global_hit(keys@);
                let ghost ok = |f: Fixture| true;
                greedy_fixture_ids(patch, keys.len(), Ghost(hit), Ghost(ok), |f: &Fixture, j: usize| -> (b: bool)
                    requires
                        j < keys@.len(),
                    ensures
                        b == hit(*f, j as int),
                    { keys[j].0.0 == f.fixture_type_id })
            },
            PresetContent::Selective(p) => {
                let keys = p.values.entries();
                let mut ids: Vec<FixtureId> = Vec::new();
                let n = keys.len();
                for i in 0..n
                    invariant
                        n == keys@.len(),
                        ids@ == keys@.subrange(0, i as int).map_values(
                            |e: ((FixtureId, Attribute), AttributeValue)| e.0.0,
                        ),
                {
                    ids.push(keys[i].0.0);
                    assert(ids@ =~= keys@.subrange(0, i + 1).map_values(
                        |e: ((FixtureId, Attribute), AttributeValue)| e.0.0,
                    ));
                }
                assert(keys@.subrange(0, n as int) =~= keys@);
                ids
            },
        }
    }
}

/// A fixture has the attribute of the `j`th key of universal content.
pub open spec fn universal_hit(patch: Patch, keys: Seq<(Attribute, AttributeValue)>) -> spec_fn(
    Fixture,
    int,
) -> bool {
    |f: Fixture, j: int| first_controlling(patch.mode_of(f).channels@, keys[j].0@.name()) is Some
}

/// A fixture has the type of the `j`th key of global content.
pub open spec fn global_hit(keys: Seq<((u128, Attribute), AttributeValue)>) -> spec_fn(
    Fixture,
    int,
) -> bool {
    |f: Fixture, j: int| keys[j].0.0 == f.fixture_type_id
}

/// The first key at or after `c` (and before `n`) that matches `f`.
pub open spec fn next_hit(hit: spec_fn(Fixture, int) -> bool, n: int, f: Fixture, c: int) -> Option<
    int,
> {
    if (exists|j: int|
                c <= j < n && #[trigger] hit(f, j) && forall|k: int| c <= k < j ==> !#[trigger] hit(f, k)) {
        Some(
            choose|j: int|
                c <= j < n && #[trigger] hit(f, j) && forall|k: int| c <= k < j ==> !#[trigger] hit(f, k),
        )
    } else {
        None
    }
}

/// The fixtures taken and the keys passed after one pass over `fixtures`.
pub open spec fn greedy(hit: spec_fn(Fixture, int) -> bool, n: int, fixtures: Seq<Fixture>) -> (
    Seq<FixtureId>,
    int,
)
    decreases fixtures.len(),
{
    if fixtures.len() == 0 {
        (Seq::empty(), 0)
    } else {
        let prev = greedy(hit, n, fixtures.drop_last());
        match next_hit(hit, n, fixtures.last(), prev.1) {
            Some(j) => (prev.0.push(fixtures.last().id), j + 1),
            None => (prev.0, n),
        }
    }
}

/// The fixtures a preset's content applies to.
pub open spec fn preset_fixture_ids(content: PresetContent, patch: Patch) -> Seq<FixtureId> {
    match content {
        PresetContent::Universal(p) => greedy(
            universal_hit(patch, p.values.pairs()),
            p.values.pairs().len() as int,
            patch.fixtures@,
        ).0,
        PresetContent::Global(p) => greedy(
            global_hit(p.values.pairs()),
            p.values.pairs().len() as int,
            patch.fixtures@,
        ).0,
        PresetContent::Selective(p) => p.values.pairs().map_values(
            |e: ((FixtureId, Attribute), AttributeValue)| e.0.0,
        ),
    }
}

proof fn lemma_next_hit(hit: spec_fn(Fixture, int) -> bool, n: int, f: Fixture, c: int, j: int)
    requires
        c <= j < n,
        hit(f, j),
        forall|k: int| c <= k < j ==> !#[trigger] hit(f, k),
    ensures
        next_hit(hit, n, f, c) == Some(j),
{
    let w = choose|w: int|
        c <= w < n && #[trigger] hit(f, w) && forall|k: int| c <= k < w ==> !#[trigger] hit(f, k);
    assert(c <= w < n && hit(f, w));
    if w < j {
        assert(!hit(f, w));
    }
    if j < w {
        assert(!hit(f, j));
    }
}

/// The first key at or after `cursor` that `f` matches.
fn scan_keys<F: Fn(&Fixture, usize) -> bool>(
    f: &Fixture,
    cursor: usize,
    n: usize,
    Ghost(hit): Ghost<spec_fn(Fixture, int) -> bool>,
    matches_key: &F,
) -> (r: Option<usize>)
    requires
        cursor <= n,
        forall|j: usize| j < n ==> call_requires(*matches_key, (f, j)),
        forall|j: usize, b: bool| call_ensures(*matches_key, (f, j), b) ==> b == hit(*f, j as int),
    ensures
        match r {
            Some(j) => j < n && next_hit(hit, n as int, *f, cursor as int) == Some(j as int),
            None => next_hit(hit, n as int, *f, cursor as int) is None,
        },
{
    let mut j = cursor;
    while j < n
        invariant
            cursor <= j <= n,
            forall|j2: usize| j2 < n ==> call_requires(*matches_key, (f, j2)),
            forall|j2: usize, b: bool| call_ensures(*matches_key, (f, j2), b) ==> b == hit(*f, j2 as int),
            forall|k: int| cursor <= k < j ==> !#[trigger] hit(*f, k),
        decreases n - j,
    {
        if matches_key(f, j) {
            proof {
                lemma_next_hit(hit, n as int, *f, cursor as int, j as int);
            }
            return Some(j);
        }
        j += 1;
    }
    proof {
        if next_hit(hit, n as int, *f, cursor as int) is Some {
            let w = choose|w: int| cursor <= w < n && #[trigger] hit(*f, w);
            assert(!hit(*f, w));
        }
    }
    None
}

/// One pass over the patch's fixtures and `n` keys, as described at
/// [Preset::fixture_ids].
#[verifier::rlimit(40)]
fn greedy_fixture_ids<F: Fn(&Fixture, usize) -> bool>(
    patch: &Patch,
    n: usize,
    Ghost(hit): Ghost<spec_fn(Fixture, int) -> bool>,
    Ghost(ok): Ghost<spec_fn(Fixture) -> bool>,
    matches_key: F,
) -> (r: Vec<FixtureId>)
    requires
        forall|i: int| 0 <= i < patch.fixtures@.len() ==> ok(#[trigger] patch.fixtures@[i]),
        forall|f: Fixture, j: usize| j < n && ok(f) ==> call_requires(matches_key, (&f, j)),
        forall|f: Fixture, j: usize, b: bool|
            call_ensures(matches_key, (&f, j), b) ==> b == hit(f, j as int),
    ensures
        r@ == greedy(hit, n as int, patch.fixtures@).0,
{
    let fixtures = patch.fixtures.as_slice();
    let m = fixtures.len();
    let mut ids: Vec<FixtureId> = Vec::new();
    let mut cursor: usize = 0;
    for i in 0..m
        invariant
            m == fixtures@.len(),
            fixtures@ == patch.fixtures@,
            forall|k: int| 0 <= k < patch.fixtures@.len() ==> ok(#[trigger] patch.fixtures@[k]),
            forall|f: Fixture, j: usize| j < n && ok(f) ==> call_requires(matches_key, (&f, j)),
            forall|f: Fixture, j: usize, b: bool|
                call_ensures(matches_key, (&f, j), b) ==> b == hit(f, j as int),
            cursor <= n,
            (ids@, cursor as int) == greedy(hit, n as int, fixtures@.subrange(0, i as int)),
    {
        let f = &fixtures[i];
        let ghost pre = fixtures@.subrange(0, i + 1);
        assert(pre.drop_last() =~= fixtures@.subrange(0, i as int));
        assert(pre.last() == *f);
        assert(ok(fixtures@[i as int]));
        match scan_keys(f, cursor, n, Ghost(hit), &matches_key) {
            Some(j) => {
                ids.push(f.id);
                cursor = j + 1;
            },
            None => {
                cursor = n;
            },
        }
    }
    assert(fixtures@.subrange(0, m as int) =~= fixtures@);
    ids
}

/// A show object of any kind.
#[derive(Debug, Clone)]
pub enum AnyObject {
    Group(Group),
    Executor(Executor),
    Sequence(Sequence),
    PresetDimmer(Preset),
    PresetPosition(Preset),
    PresetGobo(Preset),
    PresetColor(Preset),
    PresetBeam(Preset),
    PresetFocus(Preset),
    PresetControl(Preset),
    PresetShapers(Preset),
    PresetVideo(Preset),
}

/// The preset inside an object of a preset kind.
pub open spec fn preset_of(o: AnyObject) -> Option<Preset> {
    match o {
        AnyObject::PresetDimmer(p) => Some(p),
        AnyObject::PresetPosition(p) => Some(p),
        AnyObject::PresetGobo(p) => Some(p),
        AnyObject::PresetColor(p) => Some(p),
        AnyObject::PresetBeam(p) => Some(p),
        AnyObject::PresetFocus(p) => Some(p),
        AnyObject::PresetControl(p) => Some(p),
        AnyObject::PresetShapers(p) => Some(p),
        AnyObject::PresetVideo(p) => Some(p),
        _ => None,
    }
}

/// A preset as an object of the given preset kind.
pub open spec fn preset_object(kind: ObjectKind, p: Preset) -> AnyObject {
    match kind {
        ObjectKind::PresetPosition => AnyObject::PresetPosition(p),
        ObjectKind::PresetGobo => AnyObject::PresetGobo(p),
        ObjectKind::PresetColor => AnyObject::PresetColor(p),
        ObjectKind::PresetBeam => AnyObject::PresetBeam(p),
        ObjectKind::PresetFocus => AnyObject::PresetFocus(p),
        ObjectKind::PresetControl => AnyObject::PresetControl(p),
        ObjectKind::PresetShapers => AnyObject::PresetShapers(p),
        ObjectKind::PresetVideo => AnyObject::PresetVideo(p),
        _ => AnyObject::PresetDimmer(p),
    }
}

impl AnyObject {
    /// The object's id.
    pub open spec fn obj_id(self) -> ObjectId {
        match self {
            AnyObject::Group(o) => o.id,
            AnyObject::Executor(o) => o.id,
            AnyObject::Sequence(o) => o.id,
            _ => preset_of(self).unwrap().id,
        }
    }

    /// The object's pool id.
    pub open spec fn obj_pool_id(self) -> PoolId {
        match self {
            AnyObject::Group(o) => o.pool_id,
            AnyObject::Executor(o) => o.pool_id,
            AnyObject::Sequence(o) => o.pool_id,
            _ => preset_of(self).unwrap().pool_id,
        }
    }

    /// The object's name.
    pub open spec fn obj_name(self) -> Seq<char> {
        match self {
            AnyObject::Group(o) => o.name@,
            AnyObject::Executor(o) => o.name@,
            AnyObject::Sequence(o) => o.name@,
            _ => preset_of(self).unwrap().name@,
        }
    }

    /// The object's kind.
    pub open spec fn obj_kind(self) -> ObjectKind {
        match self {
            AnyObject::Group(_) => ObjectKind::Group,
            AnyObject::Executor(_) => ObjectKind::Executor,
            AnyObject::Sequence(_) => ObjectKind::Sequence,
            AnyObject::PresetDimmer(_) => ObjectKind::PresetDimmer,
            AnyObject::PresetPosition(_) => ObjectKind::PresetPosition,
            AnyObject::PresetGobo(_) => ObjectKind::PresetGobo,
            AnyObject::PresetColor(_) => ObjectKind::PresetColor,
            AnyObject::PresetBeam(_) => ObjectKind::PresetBeam,
            AnyObject::PresetFocus(_) => ObjectKind::PresetFocus,
            AnyObject::PresetControl(_) => ObjectKind::PresetControl,
            AnyObject::PresetShapers(_) => ObjectKind::PresetShapers,
            AnyObject::PresetVideo(_) => ObjectKind::PresetVideo,
        }
    }

    /// The object is the one `r` refers to.
    pub open spec fn is_referred_by(self, r: ObjectReference) -> bool {
        self.obj_kind() == r.kind && self.obj_pool_id() == r.pool_id
    }

    /// The object's id.
    pub fn id(&self) -> (r: ObjectId)
        ensures
            r == self.obj_id(),
    {
        match self {
            AnyObject::Group(o) => o.id,
            AnyObject::Executor(o) => o.id,
            AnyObject::Sequence(o) => o.id,
            AnyObject::PresetDimmer(p) => p.id,
            AnyObject::PresetPosition(p) => p.id,
            AnyObject::PresetGobo(p) => p.id,
            AnyObject::PresetColor(p) => p.id,
            AnyObject::PresetBeam(p) => p.id,
            AnyObject::PresetFocus(p) => p.id,
            AnyObject::PresetControl(p) => p.id,
            AnyObject::PresetShapers(p) => p.id,
            AnyObject::PresetVideo(p) => p.id,
        }
    }

    /// The object's pool id.
    pub fn pool_id(&self) -> (r: PoolId)
        ensures
            r == self.obj_pool_id(),
    {
        match self {
            AnyObject::Group(o) => o.pool_id,
            AnyObject::Executor(o) => o.pool_id,
            AnyObject::Sequence(o) => o.pool_id,
            AnyObject::PresetDimmer(p) => p.pool_id,
            AnyObject::PresetPosition(p) => p.pool_id,
            AnyObject::PresetGobo(p) => p.pool_id,
            AnyObject::PresetColor(p) => p.pool_id,
            AnyObject::PresetBeam(p) => p.pool_id,
            AnyObject::PresetFocus(p) => p.pool_id,
            AnyObject::PresetControl(p) => p.pool_id,
            AnyObject::PresetShapers(p) => p.pool_id,
            AnyObject::PresetVideo(p) => p.pool_id,
        }
    }

    /// The object's name.
    pub fn name(&self) -> (r: &str)
        ensures
            r@ == self.obj_name(),
    {
        match self {
            AnyObject::Group(o) => o.name.as_str(),
            AnyObject::Executor(o) => o.name.as_str(),
            AnyObject::Sequence(o) => o.name.as_str(),
            AnyObject::PresetDimmer(p) => p.name.as_str(),
            AnyObject::PresetPosition(p) => p.name.as_str(),
            AnyObject::PresetGobo(p) => p.name.as_str(),
            AnyObject::PresetColor(p) => p.name.as_str(),
            AnyObject::PresetBeam(p) => p.name.as_str(),
            AnyObject::PresetFocus(p) => p.name.as_str(),
            AnyObject::PresetControl(p) => p.name.as_str(),
            AnyObject::PresetShapers(p) => p.name.as_str(),
            AnyObject::PresetVideo(p) => p.name.as_str(),
        }
    }

    /// The object's kind.
    pub fn kind(&self) -> (r: ObjectKind)
        ensures
            r == self.obj_kind(),
    {
        match self {
            AnyObject::Group(_) => ObjectKind::Group,
            AnyObject::Executor(_) => ObjectKind::Executor,
            AnyObject::Sequence(_) => ObjectKind::Sequence,
            AnyObject::PresetDimmer(_) => ObjectKind::PresetDimmer,
            AnyObject::PresetPosition(_) => ObjectKind::PresetPosition,
            AnyObject::PresetGobo(_) => ObjectKind::PresetGobo,
            AnyObject::PresetColor(_) => ObjectKind::PresetColor,
            AnyObject::PresetBeam(_) => ObjectKind::PresetBeam,
            AnyObject::PresetFocus(_) => ObjectKind::PresetFocus,
            AnyObject::PresetControl(_) => ObjectKind::PresetControl,
            AnyObject::PresetShapers(_) => ObjectKind::PresetShapers,
            AnyObject::PresetVideo(_) => ObjectKind::PresetVideo,
        }
    }

    /// Renames the object.
    pub fn set_name(&mut self, name: String)
        ensures
            *final(self) == renamed_object(*old(self), name),
    {
        match self {
            AnyObject::Group(o) => o.name = name,
            AnyObject::Executor(o) => o.name = name,
            AnyObject::Sequence(o) => o.name = name,
            AnyObject::PresetDimmer(p) => p.name = name,
            AnyObject::PresetPosition(p) => p.name = name,
            AnyObject::PresetGobo(p) => p.name = name,
            AnyObject::PresetColor(p) => p.name = name,
            AnyObject::PresetBeam(p) => p.name = name,
            AnyObject::PresetFocus(p) => p.name = name,
            AnyObject::PresetControl(p) => p.name = name,
            AnyObject::PresetShapers(p) => p.name = name,
            AnyObject::PresetVideo(p) => p.name = name,
        }
    }

    /// The preset, where the object is one.
    pub fn as_preset(&self) -> (r: Option<&Preset>)
        ensures
            match preset_of(*self) {
                Some(p) => r == Some(&p),
                None => r is None,
            },
    {
        match self {
            AnyObject::PresetDimmer(p) => Some(p),
            AnyObject::PresetPosition(p) => Some(p),
            AnyObject::PresetGobo(p) => Some(p),
            AnyObject::PresetColor(p) => Some(p),
            AnyObject::PresetBeam(p) => Some(p),
            AnyObject::PresetFocus(p) => Some(p),
            AnyObject::PresetControl(p) => Some(p),
            AnyObject::PresetShapers(p) => Some(p),
            AnyObject::PresetVideo(p) => Some(p),
            _ => None,
        }
    }

    /// A new empty object of the given kind.
    pub fn create(kind: ObjectKind, id: ObjectId, pool_id: PoolId, name: String) -> (r: AnyObject)
        ensures
            r.obj_kind() == kind,
            r.obj_id() == id,
            r.obj_pool_id() == pool_id,
            r.obj_name() == name@,
            kind.is_preset() ==> (preset_of(r) matches Some(p) && p.content matches PresetContent::Universal(u)
                && u.values.pairs().len() == 0),
            kind is Group ==> (r matches AnyObject::Group(g) && g.fids@.len() == 0),
    {
        match kind {
            ObjectKind::Group => AnyObject::Group(Group::create(id, pool_id, name)),
            ObjectKind::Executor => AnyObject::Executor(Executor::create(id, pool_id, name)),
            ObjectKind::Sequence => AnyObject::Sequence(Sequence::create(id, pool_id, name)),
            ObjectKind::PresetDimmer => AnyObject::PresetDimmer(Preset::create(id, pool_id, name)),
            ObjectKind::PresetPosition => AnyObject::PresetPosition(
                Preset::create(id, pool_id, name),
            ),
            ObjectKind::PresetGobo => AnyObject::PresetGobo(Preset::create(id, pool_id, name)),
            ObjectKind::PresetColor => AnyObject::PresetColor(Preset::create(id, pool_id, name)),
            ObjectKind::PresetBeam => AnyObject::PresetBeam(Preset::create(id, pool_id, name)),
            ObjectKind::PresetFocus => AnyObject::PresetFocus(Preset::create(id, pool_id, name)),
            ObjectKind::PresetControl => AnyObject::PresetControl(
                Preset::create(id, pool_id, name),
            ),
            ObjectKind::PresetShapers => AnyObject::PresetShapers(
                Preset::create(id, pool_id, name),
            ),
            ObjectKind::PresetVideo => AnyObject::PresetVideo(Preset::create(id, pool_id, name)),
        }
    }
}

/// A copy of a list of fixture ids.
pub fn copy_fids(s: &[FixtureId]) -> (r: Vec<FixtureId>)
    ensures
        r@ == s@,
{
    let mut r: Vec<FixtureId> = Vec::new();
    let n = s.len();
    for i in 0..n
        invariant
            n == s@.len(),
            r@ == s@.subrange(0, i as int),
    {
        r.push(s[i]);
        assert(r@ =~= s@.subrange(0, i + 1));
    }
    assert(r@ =~= s@);
    r
}

/// The object with its name replaced.
pub open spec fn renamed_object(o: AnyObject, name: String) -> AnyObject {
    match o {
        AnyObject::Group(g) => AnyObject::Group(
            Group { name, id: g.id, pool_id: g.pool_id, fids: g.fids },
        ),
        AnyObject::Executor(e) => AnyObject::Executor(
            Executor {
                name,
                id: e.id,
                pool_id: e.pool_id,
                sequence_id: e.sequence_id,
                is_on: e.is_on,
            },
        ),
        AnyObject::Sequence(q) => AnyObject::Sequence(
            Sequence {
                name,
                id: q.id,
                pool_id: q.pool_id,
                cues: q.cues,
                current_cue: q.current_cue,
                cue_fade_in_starts: q.cue_fade_in_starts,
                cue_fade_out_starts: q.cue_fade_out_starts,
            },
        ),
        _ => {
            let p = preset_of(o).unwrap();
            preset_object(
                o.obj_kind(),
                Preset { name, id: p.id, pool_id: p.pool_id, content: p.content },
            )
        },
    }
}

/// A preset of any of the nine kinds, tagged with its kind.
#[derive(Debug, Clone)]
pub enum AnyPreset {
    Dimmer(Preset),
    Position(Preset),
    Gobo(Preset),
    Color(Preset),
    Beam(Preset),
    Focus(Preset),
    Control(Preset),
    Shapers(Preset),
    Video(Preset),
}

/// The object kind of a tagged preset.
pub open spec fn any_preset_kind(p: AnyPreset) -> ObjectKind {
    match p {
        AnyPreset::Dimmer(_) => ObjectKind::PresetDimmer,
        AnyPreset::Position(_) => ObjectKind::PresetPosition,
        AnyPreset::Gobo(_) => ObjectKind::PresetGobo,
        AnyPreset::Color(_) => ObjectKind::PresetColor,
        AnyPreset::Beam(_) => ObjectKind::PresetBeam,
        AnyPreset::Focus(_) => ObjectKind::PresetFocus,
        AnyPreset::Control(_) => ObjectKind::PresetControl,
        AnyPreset::Shapers(_) => ObjectKind::PresetShapers,
        AnyPreset::Video(_) => ObjectKind::PresetVideo,
    }
}

/// The preset inside a tagged preset.
pub open spec fn any_preset_inner(p: AnyPreset) -> Preset {
    match p {
        AnyPreset::Dimmer(x) => x,
        AnyPreset::Position(x) => x,
        AnyPreset::Gobo(x) => x,
        AnyPreset::Color(x) => x,
        AnyPreset::Beam(x) => x,
        AnyPreset::Focus(x) => x,
        AnyPreset::Control(x) => x,
        AnyPreset::Shapers(x) => x,
        AnyPreset::Video(x) => x,
    }
}

/// Marks the types that are kinds of presets.
pub trait PresetKind {}

impl PresetKind for AnyPreset {}

impl AnyPreset {
    /// What the preset holds.
    pub fn content(&self) -> (r: &PresetContent)
        ensures
            *r == any_preset_inner(*self).content,
    {
        match self {
            AnyPreset::Dimmer(p) => &p.content,
            AnyPreset::Position(p) => &p.content,
            AnyPreset::Gobo(p) => &p.content,
            AnyPreset::Color(p) => &p.content,
            AnyPreset::Beam(p) => &p.content,
            AnyPreset::Focus(p) => &p.content,
            AnyPreset::Control(p) => &p.content,
            AnyPreset::Shapers(p) => &p.content,
            AnyPreset::Video(p) => &p.content,
        }
    }

    /// The preset as a show object of its kind.
    pub fn into_object(self) -> (r: AnyObject)
        ensures
            r == preset_object(any_preset_kind(self), any_preset_inner(self)),
    {
        match self {
            AnyPreset::Dimmer(p) => AnyObject::PresetDimmer(p),
            AnyPreset::Position(p) => AnyObject::PresetPosition(p),
            AnyPreset::Gobo(p) => AnyObject::PresetGobo(p),
            AnyPreset::Color(p) => AnyObject::PresetColor(p),
            AnyPreset::Beam(p) => AnyObject::PresetBeam(p),
            AnyPreset::Focus(p) => AnyObject::PresetFocus(p),
            AnyPreset::Control(p) => AnyObject::PresetControl(p),
            AnyPreset::Shapers(p) => AnyObject::PresetShapers(p),
            AnyPreset::Video(p) => AnyObject::PresetVideo(p),
        }
    }

    /// The preset of a show object, or `Err(())` where the object is no
    /// preset.
    pub fn try_from_object(object: AnyObject) -> (r: Result<AnyPreset, ()>)
        ensures
            match preset_of(object) {
                Some(p) => r matches Ok(ap) && any_preset_inner(ap) == p && any_preset_kind(ap)
                    == object.obj_kind(),
                None => r is Err,
            },
    {
        match object {
            AnyObject::PresetDimmer(p) => Ok(AnyPreset::Dimmer(p)),
            AnyObject::PresetPosition(p) => Ok(AnyPreset::Position(p)),
            AnyObject::PresetGobo(p) => Ok(AnyPreset::Gobo(p)),
            AnyObject::PresetColor(p) => Ok(AnyPreset::Color(p)),
            AnyObject::PresetBeam(p) => Ok(AnyPreset::Beam(p)),
            AnyObject::PresetFocus(p) => Ok(AnyPreset::Focus(p)),
            AnyObject::PresetControl(p) => Ok(AnyPreset::Control(p)),
            AnyObject::PresetShapers(p) => Ok(AnyPreset::Shapers(p)),
            AnyObject::PresetVideo(p) => Ok(AnyPreset::Video(p)),
            _ => Err(()),
        }
    }
}

/// The index of the object with this id, if there is one.
pub open spec fn find_id(s: Seq<AnyObject>, id: ObjectId) -> Option<int> {
    if (exists|i: int| 0 <= i < s.len() && #[trigger] s[i].obj_id() == id) {
        Some(choose|i: int| 0 <= i < s.len() && #[trigger] s[i].obj_id() == id)
    } else {
        None
    }
}

/// The index of the first object a reference refers to, if there is one.
pub open spec fn find_ref(s: Seq<AnyObject>, r: ObjectReference) -> Option<int> {
    if (exists|i: int|
                0 <= i < s.len() && #[trigger] s[i].is_referred_by(r) && forall|j: int|
                    0 <= j < i ==> !#[trigger] s[j].is_referred_by(r)) {
        Some(
            choose|i: int|
                0 <= i < s.len() && #[trigger] s[i].is_referred_by(r) && forall|j: int|
                    0 <= j < i ==> !#[trigger] s[j].is_referred_by(r),
        )
    } else {
        None
    }
}

/// No two objects share an id.
pub open spec fn ids_unique(s: Seq<AnyObject>) -> bool {
    forall|i: int, j: int|
        0 <= i < s.len() && 0 <= j < s.len() && i != j ==> #[trigger] s[i].obj_id() != #[trigger] s[j].obj_id()
}

/// The object at `i` is the one with its id.
pub proof fn lemma_find_id(s: Seq<AnyObject>, i: int)
    requires
        ids_unique(s),
        0 <= i < s.len(),
    ensures
        find_id(s, s[i].obj_id()) == Some(i),
{
    let id = s[i].obj_id();
    let k = choose|k: int| 0 <= k < s.len() && #[trigger] s[k].obj_id() == id;
    assert(0 <= k < s.len() && s[k].obj_id() == id);
}

/// Where some object is one `r` refers to, `find_ref` finds one.
pub proof fn lemma_first_ref_exists(s: Seq<AnyObject>, r: ObjectReference, j: int)
    requires
        0 <= j < s.len(),
        s[j].is_referred_by(r),
    ensures
        find_ref(s, r) is Some,
    decreases j,
{
    if exists|k: int| 0 <= k < j && #[trigger] s[k].is_referred_by(r) {
        let k = choose|k: int| 0 <= k < j && #[trigger] s[k].is_referred_by(r);
        lemma_first_ref_exists(s, r, k);
    } else {
        lemma_find_ref(s, r, j);
    }
}

/// The object `find_ref` gives is one the reference refers to.
pub proof fn lemma_find_ref_some(s: Seq<AnyObject>, r: ObjectReference)
    ensures
        find_ref(s, r) matches Some(i) ==> 0 <= i < s.len() && s[i].is_referred_by(r),
{
}

/// The object `find_id` gives has the id.
pub proof fn lemma_find_id_some(s: Seq<AnyObject>, id: ObjectId)
    ensures
        find_id(s, id) matches Some(i) ==> 0 <= i < s.len() && s[i].obj_id() == id,
{
}

/// The object at `i` is the first one `r` refers to.
pub proof fn lemma_find_ref(s: Seq<AnyObject>, r: ObjectReference, i: int)
    requires
        0 <= i < s.len(),
        s[i].is_referred_by(r),
        forall|j: int| 0 <= j < i ==> !#[trigger] s[j].is_referred_by(r),
    ensures
        find_ref(s, r) == Some(i),
{
    let k = choose|k: int|
        0 <= k < s.len() && #[trigger] s[k].is_referred_by(r) && forall|j: int|
            0 <= j < k ==> !#[trigger] s[j].is_referred_by(r);
    assert(0 <= k < s.len() && s[k].is_referred_by(r));
    if k < i {
        assert(!s[k].is_referred_by(r));
    }
    if i < k {
        assert(!s[i].is_referred_by(r));
    }
}

/// The objects of a show, each under its own id.
#[derive(Debug)]
pub struct ObjectContainer {
    objects: Vec<AnyObject>,
}

impl ObjectContainer {
    /// The objects, in the order they were first inserted.
    pub closed spec fn objects(self) -> Seq<AnyObject> {
        self.objects@
    }

    /// No two objects share an id.
    #[verifier::type_invariant]
    spec fn unique(self) -> bool {
        ids_unique(self.objects@)
    }

    /// No two objects of the container share an id.
    pub fn assert_unique(&self)
        ensures
            ids_unique(self.objects()),
    {
        proof {
            use_type_invariant(self);
        }
    }

    /// An empty container.
    pub fn new() -> (r: ObjectContainer)
        ensures
            r.objects().len() == 0,
    {
        ObjectContainer { objects: Vec::new() }
    }

    /// All objects.
    pub fn iter(&self) -> (r: &[AnyObject])
        ensures
            r@ == self.objects(),
    {
        self.objects.as_slice()
    }

    /// The number of objects.
    pub fn len(&self) -> (r: usize)
        ensures
            r == self.objects().len(),
    {
        self.objects.len()
    }

    /// Whether there is no object.
    pub fn is_empty(&self) -> (r: bool)
        ensures
            r == (self.objects().len() == 0),
    {
        self.objects.len() == 0
    }

    /// The object with this id, if there is one.
    pub fn get_any(&self, id: ObjectId) -> (r: Option<&AnyObject>)
        ensures
            r matches Some(o) ==> o.obj_id() == id,
            match find_id(self.objects(), id) {
                Some(i) => r == Some(&self.objects()[i]),
                None => r is None,
            },
    {
        proof {
            use_type_invariant(self);
        }
        let n = self.objects.len();
        for i in 0..n
            invariant
                n == self.objects@.len(),
                ids_unique(self.objects@),
                forall|j: int| 0 <= j < i ==> #[trigger] self.objects@[j].obj_id() != id,
        {
            if self.objects[i].id() == id {
                proof {
                    lemma_find_id(self.objects@, i as int);
                }
                return Some(&self.objects[i]);
            }
        }
        None
    }

    /// Whether an object has this id.
    pub fn contains(&self, id: &ObjectId) -> (r: bool)
        ensures
            r == (find_id(self.objects(), *id) is Some),
    {
        self.get_any(*id).is_some()
    }

    /// The first object the reference refers to, if there is one.
    pub fn get_any_by_obj_ref(&self, obj_ref: &ObjectReference) -> (r: Option<&AnyObject>)
        ensures
            r matches Some(o) ==> o.is_referred_by(*obj_ref),
            match find_ref(self.objects(), *obj_ref) {
                Some(i) => r == Some(&self.objects()[i]),
                None => r is None,
            },
    {
        let n = self.objects.len();
        for i in 0..n
            invariant
                n == self.objects@.len(),
                forall|j: int| 0 <= j < i ==> !#[trigger] self.objects@[j].is_referred_by(*obj_ref),
        {
            let o = &self.objects[i];
            if o.pool_id() == obj_ref.pool_id && o.kind() == obj_ref.kind {
                proof {
                    lemma_find_ref(self.objects@, *obj_ref, i as int);
                }
                return Some(o);
            }
        }
        None
    }

    /// The group in the given slot of the group pool, if there is one.
    pub fn group_by_pool_id(&self, pool_id: PoolId) -> (r: Option<&Group>)
        ensures
            match find_ref(self.objects(), (ObjectReference { kind: ObjectKind::Group, pool_id })) {
                Some(i) => self.objects()[i] matches AnyObject::Group(g) && r == Some(&g),
                None => r is None,
            },
    {
        match self.get_any_by_obj_ref(&ObjectReference { kind: ObjectKind::Group, pool_id }) {
            Some(o) => match o {
                AnyObject::Group(g) => Some(g),
                _ => {
                    assert(o.obj_kind() == ObjectKind::Group);
                    None
                },
            },
            None => None,
        }
    }

    /// The preset in the given slot of a preset pool, if there is one.
    pub fn preset_by_pool_id(&self, kind: ObjectKind, pool_id: PoolId) -> (r: Option<&Preset>)
        requires
            kind.is_preset(),
        ensures
            match find_ref(self.objects(), (ObjectReference { kind, pool_id })) {
                Some(i) => preset_of(self.objects()[i]) matches Some(p) && r == Some(&p),
                None => r is None,
            },
    {
        match self.get_any_by_obj_ref(&ObjectReference { kind, pool_id }) {
            Some(o) => {
                assert(o.obj_kind() == kind);
                assert(preset_of(*o) is Some);
                o.as_preset()
            },
            None => None,
        }
    }

    /// The sequence with this id, if there is one.
    pub fn sequence(&self, id: ObjectId) -> (r: Option<&Sequence>)
        ensures
            match find_id(self.objects(), id) {
                Some(i) => match self.objects()[i] {
                    AnyObject::Sequence(s) => r == Some(&s),
                    _ => r is None,
                },
                None => r is None,
            },
    {
        match self.get_any(id) {
            Some(AnyObject::Sequence(s)) => Some(s),
            _ => None,
        }
    }

    /// The index of the first object the reference refers to, if any.
    pub fn position_of_ref(&self, obj_ref: &ObjectReference) -> (r: Option<usize>)
        ensures
            r matches Some(i) ==> i < self.objects().len() && self.objects()[i as int].is_referred_by(
                *obj_ref,
            ),
            match r {
                Some(i) => find_ref(self.objects(), *obj_ref) == Some(i as int),
                None => find_ref(self.objects(), *obj_ref) is None,
            },
    {
        let n = self.objects.len();
        for i in 0..n
            invariant
                n == self.objects@.len(),
                forall|j: int| 0 <= j < i ==> !#[trigger] self.objects@[j].is_referred_by(*obj_ref),
        {
            let o = &self.objects[i];
            if o.pool_id() == obj_ref.pool_id && o.kind() == obj_ref.kind {
                proof {
                    lemma_find_ref(self.objects@, *obj_ref, i as int);
                }
                return Some(i);
            }
        }
        None
    }

    /// The index of the object with this id, if any.
    pub fn position_of_id(&self, id: ObjectId) -> (r: Option<usize>)
        ensures
            r matches Some(i) ==> i < self.objects().len() && self.objects()[i as int].obj_id() == id,
            match r {
                Some(i) => find_id(self.objects(), id) == Some(i as int),
                None => find_id(self.objects(), id) is None,
            },
    {
        proof {
            use_type_invariant(self);
        }
        let n = self.objects.len();
        for i in 0..n
            invariant
                n == self.objects@.len(),
                ids_unique(self.objects@),
                forall|j: int| 0 <= j < i ==> #[trigger] self.objects@[j].obj_id() != id,
        {
            if self.objects[i].id() == id {
                proof {
                    lemma_find_id(self.objects@, i as int);
                }
                return Some(i);
            }
        }
        None
    }

    /// The object at index `i`.
    pub fn at(&self, i: usize) -> (r: &AnyObject)
        requires
            i < self.objects().len(),
        ensures
            *r == self.objects()[i as int],
    {
        &self.objects[i]
    }

    /// Replaces the object at index `i` by one with the same id.
    pub fn replace(&mut self, i: usize, object: AnyObject)
        requires
            i < old(self).objects().len(),
            object.obj_id() == old(self).objects()[i as int].obj_id(),
        ensures
            final(self).objects() == old(self).objects().update(i as int, object),
    {
        proof {
            use_type_invariant(&*self);
            let s = self.objects@.update(i as int, object);
            assert(ids_unique(s)) by {
                assert forall|a: int, b: int|
                    0 <= a < s.len() && 0 <= b < s.len() && a != b implies #[trigger] s[a].obj_id()
                    != #[trigger] s[b].obj_id() by {
                    assert(self.objects@[a].obj_id() != self.objects@[b].obj_id());
                }
            }
        }
        let mut objects: Vec<AnyObject> = Vec::new();
        std::mem::swap(&mut objects, &mut self.objects);
        objects.set(i, object);
        self.objects = objects;
    }

    /// Updates, as of time `now`, the fades of the sequence at index `i`; an
    /// object of another kind is left as it is.
    pub fn update_sequence_fades_at(&mut self, i: usize, now: u64)
        requires
            i < old(self).objects().len(),
        ensures
            final(self).objects().len() == old(self).objects().len(),
            forall|k: int| 0 <= k < old(self).objects().len() && k != i ==> #[trigger] final(self).objects()[k]
                == old(self).objects()[k],
            match old(self).objects()[i as int] {
                AnyObject::Sequence(q) => final(self).objects()[i as int] matches AnyObject::Sequence(q2)
                    && crate::sequence::fades_updated(q, q2, now),
                o => final(self).objects()[i as int] == o,
            },
    {
        proof {
            use_type_invariant(&*self);
        }
        let ghost before = self.objects@;
        let mut objects: Vec<AnyObject> = Vec::new();
        std::mem::swap(&mut objects, &mut self.objects);
        let mut o = objects.remove(i);
        match &mut o {
            AnyObject::Sequence(q) => q.update_fade_times(now),
            _ => {},
        }
        objects.insert(i, o);
        proof {
            let s = objects@;
            assert(s[i as int].obj_id() == before[i as int].obj_id());
            assert forall|k: int| 0 <= k < before.len() && k != i implies s[k] == before[k] by {}
            assert(ids_unique(s)) by {
                assert forall|a: int, b: int|
                    0 <= a < s.len() && 0 <= b < s.len() && a != b implies #[trigger] s[a].obj_id()
                    != #[trigger] s[b].obj_id() by {
                    assert(before[a].obj_id() != before[b].obj_id());
                }
            }
        }
        self.objects = objects;
    }

    /// Renames the object at index `i`.
    pub fn rename_at(&mut self, i: usize, name: String)
        requires
            i < old(self).objects().len(),
        ensures
            final(self).objects() == old(self).objects().update(
                i as int,
                renamed_object(old(self).objects()[i as int], name),
            ),
    {
        proof {
            use_type_invariant(&*self);
        }
        let ghost before = self.objects@;
        let mut objects: Vec<AnyObject> = Vec::new();
        std::mem::swap(&mut objects, &mut self.objects);
        let mut o = objects.remove(i);
        o.set_name(name);
        objects.insert(i, o);
        assert(objects@ =~= before.update(i as int, renamed_object(before[i as int], name)));
        proof {
            let s = objects@;
            assert(ids_unique(s)) by {
                assert forall|a: int, b: int|
                    0 <= a < s.len() && 0 <= b < s.len() && a != b implies #[trigger] s[a].obj_id()
                    != #[trigger] s[b].obj_id() by {
                    assert(before[a].obj_id() != before[b].obj_id());
                }
            }
        }
        self.objects = objects;
    }

    /// Puts an object in: in place of the object with its id where there is
    /// one, else after all others.
    pub fn insert(&mut self, object: AnyObject)
        ensures
            match find_id(old(self).objects(), object.obj_id()) {
                Some(i) => final(self).objects() == old(self).objects().update(i, object),
                None => final(self).objects() == old(self).objects().push(object),
            },
    {
        proof {
            use_type_invariant(&*self);
        }
        let id = object.id();
        let n = self.objects.len();
        let mut found: Option<usize> = None;
        for i in 0..n
            invariant
                n == self.objects@.len(),
                ids_unique(self.objects@),
                found is None ==> forall|j: int| 0 <= j < i ==> #[trigger] self.objects@[j].obj_id() != id,
                found matches Some(k) ==> k < n && self.objects@[k as int].obj_id() == id,
        {
            if found.is_none() && self.objects[i].id() == id {
                found = Some(i);
            }
        }
        match found {
            Some(k) => {
                proof {
                    lemma_find_id(self.objects@, k as int);
                    let s = self.objects@.update(k as int, object);
                    assert(ids_unique(s)) by {
                        assert forall|a: int, b: int|
                            0 <= a < s.len() && 0 <= b < s.len() && a != b implies #[trigger] s[a].obj_id()
                            != #[trigger] s[b].obj_id() by {
                            if a != k && b != k {
                                assert(s[a] == self.objects@[a] && s[b] == self.objects@[b]);
                            } else if a == k {
                                assert(self.objects@[b].obj_id() != self.objects@[k as int].obj_id());
                            } else {
                                assert(self.objects@[a].obj_id() != self.objects@[k as int].obj_id());
                            }
                        }
                    }
                }
                let mut objects: Vec<AnyObject> = Vec::new();
                std::mem::swap(&mut objects, &mut self.objects);
                objects.set(k, object);
                self.objects = objects;
            },
            None => {
                proof {
                    let s = self.objects@.push(object);
                    assert(ids_unique(s)) by {
                        assert forall|a: int, b: int|
                            0 <= a < s.len() && 0 <= b < s.len() && a != b implies #[trigger] s[a].obj_id()
                            != #[trigger] s[b].obj_id() by {
                            if a < n && b < n {
                                assert(s[a] == self.objects@[a] && s[b] == self.objects@[b]);
                            } else if a == n {
                                assert(s[b] == self.objects@[b]);
                            } else {
                                assert(s[a] == self.objects@[a]);
                            }
                        }
                    }
                    if find_id(self.objects@, id) is Some {
                        let w = choose|w: int| 0 <= w < self.objects@.len() && #[trigger] self.objects@[w].obj_id() == id;
                        assert(self.objects@[w].obj_id() != id);
                    }
                }
                let mut objects: Vec<AnyObject> = Vec::new();
                std::mem::swap(&mut objects, &mut self.objects);
                objects.push(object);
                self.objects = objects;
            },
        }
    }

    /// Takes out the object with this id, if there is one.
    pub fn remove(&mut self, id: &ObjectId)
        ensures
            match find_id(old(self).objects(), *id) {
                Some(i) => final(self).objects() == old(self).objects().remove(i),
                None => final(self).objects() == old(self).objects(),
            },
    {
        proof {
            use_type_invariant(&*self);
        }
        let n = self.objects.len();
        for i in 0..n
            invariant
                n == self.objects@.len(),
                self.objects@ == old(self).objects@,
                ids_unique(self.objects@),
                forall|j: int| 0 <= j < i ==> #[trigger] self.objects@[j].obj_id() != *id,
        {
            if self.objects[i].id() == *id {
                proof {
                    lemma_find_id(self.objects@, i as int);
                    let s = self.objects@.remove(i as int);
                    assert(ids_unique(s)) by {
                        assert forall|a: int, b: int|
                            0 <= a < s.len() && 0 <= b < s.len() && a != b implies #[trigger] s[a].obj_id()
                            != #[trigger] s[b].obj_id() by {
                            let a2 = if a < i { a } else { a + 1 };
                            let b2 = if b < i { b } else { b + 1 };
                            assert(s[a] == self.objects@[a2] && s[b] == self.objects@[b2]);
                        }
                    }
                }
                let mut objects: Vec<AnyObject> = Vec::new();
                std::mem::swap(&mut objects, &mut self.objects);
                objects.remove(i);
                self.objects = objects;
                return ;
            }
        }
        proof {
            if find_id(self.objects@, *id) is Some {
                let w = choose|w: int| 0 <= w < self.objects@.len() && #[trigger] self.objects@[w].obj_id() == *id;
                assert(self.objects@[w].obj_id() != *id);
            }
        }
    }
}

} // verus!
