//! The output pipeline: it gathers attribute values for fixtures (defaults,
//! cues, the programmer) and resolves them to the DMX channels that carry
//! them.
use vstd::prelude::*;

use crate::attr::{Attribute, AttributeView};
use crate::object::{find_id, preset_of, AnyObject, ObjectContainer, PresetContent};
use crate::patch::{
    channels_fit, default_values, first_controlling, offset_channels, offsets_in_range,
    offsets_of, channel_bytes, level_bytes, AttributeValue, Fixture, FixtureId, Patch, DMX_CHANNEL_MAX,
    DMX_CHANNEL_MIN,
};
use crate::sequence::{Cue, Recipe};
use crate::values::{ValueKey, ValueMap};
use crate::multiverse::{written_value, Multiverse};

verus! {

/// One value set on the pipeline: fixture and attribute, and the value.
pub type ValueSet = ((FixtureId, Attribute), AttributeValue);

/// The values after setting each in turn.
pub open spec fn apply_values(m: Map<(FixtureId, AttributeView), AttributeValue>, sets: Seq<ValueSet>) -> Map<
    (FixtureId, AttributeView),
    AttributeValue,
>
    decreases sets.len(),
{
    if sets.len() == 0 {
        m
    } else {
        apply_values(m, sets.drop_last()).insert(
            (sets.last().0.0, sets.last().0.1@),
            sets.last().1,
        )
    }
}

/// Setting values from two lists in turn is setting them from the joined
/// list.
pub proof fn lemma_apply_values_append(
    m: Map<(FixtureId, AttributeView), AttributeValue>,
    a: Seq<ValueSet>,
    b: Seq<ValueSet>,
)
    ensures
        apply_values(m, a + b) == apply_values(apply_values(m, a), b),
    decreases b.len(),
{
    if b.len() == 0 {
        assert(a + b =~= a);
    } else {
        lemma_apply_values_append(m, a, b.drop_last());
        assert((a + b).drop_last() =~= a + b.drop_last());
    }
}

/// The DMX channels of one value, where it resolves to some.
#[derive(Debug)]
pub struct ChannelValue {
    pub universe: u16,
    pub channels: Vec<u16>,
    pub value: AttributeValue,
}

/// Gathers attribute values and resolves them to DMX channels.
#[derive(Debug)]
pub struct Pipeline {
    values: ValueMap<(FixtureId, Attribute)>,
    resolved_values: ValueMap<(FixtureId, Attribute)>,
}

/// The value set `e` resolves in the patch: its fixture is patched, and the
/// channels of the attribute lie in the universe.
pub open spec fn resolvable(patch: Patch, e: ValueSet) -> bool {
    match patch.spec_fixture(e.0.0) {
        Some(f) => patch.resolves(f) && match first_controlling(patch.mode_of(f).channels@, e.0.1@.name()) {
            Some(i) => offsets_in_range(patch.mode_of(f).channels@) && channels_fit(
                f.address.channel,
                offsets_of(patch.mode_of(f).channels@[i]),
            ),
            None => true,
        },
        None => true,
    }
}

/// Whether the value set `e` resolves in the patch.
pub fn value_resolvable(patch: &Patch, e: &ValueSet) -> (r: bool)
    ensures
        r == resolvable(*patch, *e),
{
    match patch.fixture(e.0.0) {
        Some(f) => patch.fixture_resolves(f) && f.attribute_fits(&e.0.1, patch),
        None => true,
    }
}

/// The channels of a value set, where its fixture is patched and controls
/// the attribute.
pub open spec fn resolved(patch: Patch, e: ValueSet) -> Option<(u16, Seq<u16>, AttributeValue)> {
    match patch.spec_fixture(e.0.0) {
        Some(f) => match first_controlling(patch.mode_of(f).channels@, e.0.1@.name()) {
            Some(i) => Some(
                (
                    f.address.universe,
                    offset_channels(f.address.channel, offsets_of(patch.mode_of(f).channels@[i])),
                    e.1,
                ),
            ),
            None => None,
        },
        None => None,
    }
}

/// The channels of the value sets that resolve, in order.
pub open spec fn resolved_all(patch: Patch, s: Seq<ValueSet>) -> Seq<(u16, Seq<u16>, AttributeValue)>
    decreases s.len(),
{
    if s.len() == 0 {
        Seq::empty()
    } else {
        let prev = resolved_all(patch, s.drop_last());
        match resolved(patch, s.last()) {
            Some(c) => prev.push(c),
            None => prev,
        }
    }
}

/// A value set that resolves is among the resolutions of every list that
/// holds it.
pub proof fn lemma_resolved_all_contains(patch: Patch, s: Seq<ValueSet>, i: int)
    requires
        0 <= i < s.len(),
        resolved(patch, s[i]) is Some,
    ensures
        resolved_all(patch, s).contains(resolved(patch, s[i]).unwrap()),
    decreases s.len(),
{
    let c = resolved(patch, s[i]).unwrap();
    let prev = resolved_all(patch, s.drop_last());
    if i == s.len() - 1 {
        assert(resolved_all(patch, s) == prev.push(c));
        assert(resolved_all(patch, s)[prev.len() as int] == c);
    } else {
        lemma_resolved_all_contains(patch, s.drop_last(), i);
        assert(s.drop_last()[i] == s[i]);
        let k = choose|k: int| 0 <= k < prev.len() && prev[k] == c;
        match resolved(patch, s.last()) {
            Some(d) => assert(prev.push(d)[k] == c),
            None => {},
        }
    }
}

/// A value of a fade: the fixture and attribute, the value the cue faded
/// from gives it and the value the cue faded to gives it.
pub type FadeValue = ((FixtureId, Attribute), Option<AttributeValue>, Option<AttributeValue>);

/// The value a map holds for a key, if any.
pub open spec fn lookup(m: Map<(FixtureId, AttributeView), AttributeValue>, k: (FixtureId, AttributeView)) -> Option<
    AttributeValue,
> {
    if m.contains_key(k) {
        Some(m[k])
    } else {
        None
    }
}

/// Each value set of the cue faded to, in order, beside what the cue faded
/// from gives its key.
pub open spec fn fade_to_values(from: Map<(FixtureId, AttributeView), AttributeValue>, to: Seq<ValueSet>) -> Seq<
    FadeValue,
>
    decreases to.len(),
{
    if to.len() == 0 {
        Seq::empty()
    } else {
        let e = to.last();
        fade_to_values(from, to.drop_last()).push((e.0, lookup(from, (e.0.0, e.0.1@)), Some(e.1)))
    }
}

/// Each value set of the cue faded from whose key the cue faded to lacks, in
/// order.
pub open spec fn fade_from_only(to: Map<(FixtureId, AttributeView), AttributeValue>, from: Seq<ValueSet>) -> Seq<
    FadeValue,
>
    decreases from.len(),
{
    if from.len() == 0 {
        Seq::empty()
    } else {
        let e = from.last();
        let prev = fade_from_only(to, from.drop_last());
        if to.contains_key((e.0.0, e.0.1@)) {
            prev
        } else {
            prev.push((e.0, Some(e.1), None))
        }
    }
}

/// The values of a fade between the values of two pipelines: first the keys
/// of the cue faded to, in order, then those only the cue faded from has.
pub fn fade_values(from: &Pipeline, to: &Pipeline) -> (r: Vec<FadeValue>)
    ensures
        r@ == fade_to_values(from.map(), to.pairs()) + fade_from_only(to.map(), from.pairs()),
{
    let tv = to.values();
    let fv = from.values();
    let mut r: Vec<FadeValue> = Vec::new();
    let n = tv.len();
    for i in 0..n
        invariant
            n == tv@.len(),
            tv@ == to.pairs(),
            r@ == fade_to_values(from.map(), tv@.subrange(0, i as int)),
    {
        let key = tv[i].0.copy_key();
        let before = from.values.get(&tv[i].0);
        r.push((key, before, Some(tv[i].1)));
        assert(tv@.subrange(0, i + 1).drop_last() =~= tv@.subrange(0, i as int));
    }
    assert(tv@.subrange(0, n as int) =~= tv@);
    let ghost first = r@;
    let m = fv.len();
    for j in 0..m
        invariant
            m == fv@.len(),
            fv@ == from.pairs(),
            r@ == first + fade_from_only(to.map(), fv@.subrange(0, j as int)),
    {
        assert(fv@.subrange(0, j + 1).drop_last() =~= fv@.subrange(0, j as int));
        if to.values.get(&fv[j].0).is_none() {
            let key = fv[j].0.copy_key();
            r.push((key, Some(fv[j].1), None));
            assert(r@ =~= first + fade_from_only(to.map(), fv@.subrange(0, j + 1)));
        } else {
            assert(r@ =~= first + fade_from_only(to.map(), fv@.subrange(0, j + 1)));
        }
    }
    assert(fv@.subrange(0, m as int) =~= fv@);
    r
}

/// The value of channel `c` of universe `u` after writing the resolved
/// values `rs` one after the other, value `i` carrying `levels[i]`, where
/// it was `before`.
pub open spec fn resolved_value(
    rs: Seq<(u16, Seq<u16>, AttributeValue)>,
    levels: Seq<u32>,
    u: u16,
    c: u16,
    before: u8,
) -> u8
    decreases rs.len(),
{
    if rs.len() == 0 || levels.len() < rs.len() {
        before
    } else {
        let i = rs.len() - 1;
        written_value(
            level_bytes(rs[i].1, levels[i]),
            rs[i].0,
            u,
            c,
            resolved_value(rs.drop_last(), levels, u, c, before),
        )
    }
}

/// Writes resolved values to the multiverse, one after the other: value `i`
/// carries `levels[i]` (the attribute value scaled to the whole `u32`
/// range), spread over its channels most significant byte first. Every
/// channel not written keeps its value.
pub fn write_resolved(multiverse: &mut Multiverse, resolved: &[ChannelValue], levels: &[u32])
    requires
        levels@.len() == resolved@.len(),
        forall|i: int| 0 <= i < resolved@.len() ==> #[trigger] resolved@[i].channels@.len() <= 4,
        forall|i: int, k: int|
            0 <= i < resolved@.len() && 0 <= k < resolved@[i].channels@.len() ==> DMX_CHANNEL_MIN
                <= #[trigger] resolved@[i].channels@[k] <= DMX_CHANNEL_MAX,
    ensures
        forall|u: u16, c: u16|
            #[trigger] final(multiverse).value_at(u, c) == resolved_value(
                resolved@.map_values(|r: ChannelValue| channel_view(r)),
                levels@,
                u,
                c,
                old(multiverse).value_at(u, c),
            ),
{
    let n = resolved.len();
    let ghost rs = resolved@.map_values(|r: ChannelValue| channel_view(r));
    for i in 0..n
        invariant
            n == resolved@.len(),
            levels@.len() == n,
            rs == resolved@.map_values(|r: ChannelValue| channel_view(r)),
            forall|j: int| 0 <= j < resolved@.len() ==> #[trigger] resolved@[j].channels@.len() <= 4,
            forall|j: int, k: int|
                0 <= j < resolved@.len() && 0 <= k < resolved@[j].channels@.len() ==> DMX_CHANNEL_MIN
                    <= #[trigger] resolved@[j].channels@[k] <= DMX_CHANNEL_MAX,
            forall|u: u16, c: u16|
                #[trigger] multiverse.value_at(u, c) == resolved_value(
                    rs.subrange(0, i as int),
                    levels@,
                    u,
                    c,
                    old(multiverse).value_at(u, c),
                ),
    {
        let bytes = channel_bytes(resolved[i].channels.as_slice(), levels[i]);
        let ghost prev = *multiverse;
        proof {
            assert forall|k: int| 0 <= k < bytes@.len() implies DMX_CHANNEL_MIN <= #[trigger] bytes@[k].0
                <= DMX_CHANNEL_MAX by {
                assert(bytes@[k].0 == resolved@[i as int].channels@[k]);
            }
        }
        multiverse.write_channels(resolved[i].universe, bytes.as_slice());
        proof {
            let t = rs.subrange(0, i + 1);
            assert(t.drop_last() =~= rs.subrange(0, i as int));
            assert(t[i as int] == channel_view(resolved@[i as int]));
            assert forall|u: u16, c: u16| #[trigger] multiverse.value_at(u, c) == resolved_value(
                t,
                levels@,
                u,
                c,
                old(multiverse).value_at(u, c),
            ) by {
                assert(prev.value_at(u, c) == resolved_value(
                    rs.subrange(0, i as int),
                    levels@,
                    u,
                    c,
                    old(multiverse).value_at(u, c),
                ));
            }
        }
    }
    assert(rs.subrange(0, n as int) =~= rs);
}

/// A resolved channel value as plain values.
pub open spec fn channel_view(c: ChannelValue) -> (u16, Seq<u16>, AttributeValue) {
    (c.universe, c.channels@, c.value)
}

impl Pipeline {
    /// The values set, in the order they were first set.
    pub closed spec fn pairs(self) -> Seq<ValueSet> {
        self.values.pairs()
    }

    /// The values set, by fixture and attribute.
    pub closed spec fn map(self) -> Map<(FixtureId, AttributeView), AttributeValue> {
        self.values.map()
    }

    /// The values of the last resolution, in the order they were first set.
    pub closed spec fn resolved_pairs(self) -> Seq<ValueSet> {
        self.resolved_values.pairs()
    }

    /// The map of the values is the map of their list.
    pub proof fn lemma_map_of_pairs(self)
        ensures
            self.map() == crate::values::entries_map(self.pairs()),
    {
    }

    /// An empty pipeline.
    pub fn new() -> (r: Pipeline)
        ensures
            r.pairs().len() == 0,
            r.map() == Map::<(FixtureId, AttributeView), AttributeValue>::empty(),
            r.resolved_pairs().len() == 0,
    {
        Pipeline { values: ValueMap::new(), resolved_values: ValueMap::new() }
    }

    /// Sets a value, to be resolved with the next resolution.
    pub fn set_value(&mut self, fixture_id: FixtureId, attribute: Attribute, value: AttributeValue)
        ensures
            final(self).map() == old(self).map().insert((fixture_id, attribute@), value),
            old(self).map().contains_key((fixture_id, attribute@)) ==> final(self).pairs().len() == old(
                self,
            ).pairs().len(),
            !old(self).map().contains_key((fixture_id, attribute@)) ==> final(self).pairs() == old(
                self,
            ).pairs().push(((fixture_id, attribute), value)),
            final(self).resolved_pairs() == old(self).resolved_pairs(),
    {
        self.values.set((fixture_id, attribute), value);
    }

    /// Sets values one after the other.
    pub fn set_values(&mut self, sets: &[ValueSet])
        ensures
            final(self).map() == apply_values(old(self).map(), sets@),
            final(self).resolved_pairs() == old(self).resolved_pairs(),
    {
        let n = sets.len();
        for i in 0..n
            invariant
                n == sets@.len(),
                self.map() == apply_values(old(self).map(), sets@.subrange(0, i as int)),
                self.resolved_pairs() == old(self).resolved_pairs(),
        {
            self.set_value(sets[i].0.0, sets[i].0.1.duplicate(), sets[i].1);
            assert(sets@.subrange(0, i + 1).drop_last() =~= sets@.subrange(0, i as int));
        }
        assert(sets@.subrange(0, n as int) =~= sets@);
    }

    /// The values set, in the order they were first set.
    pub fn values(&self) -> (r: &[ValueSet])
        ensures
            r@ == self.pairs(),
    {
        self.values.entries()
    }

    /// Every value set can be resolved in the patch (see [resolvable]).
    pub fn can_resolve(&self, patch: &Patch) -> (r: bool)
        ensures
            r == forall|i: int| 0 <= i < self.pairs().len() ==> resolvable(*patch, #[trigger] self.pairs()[i]),
    {
        let sets = self.values();
        let n = sets.len();
        for i in 0..n
            invariant
                n == sets@.len(),
                sets@ == self.pairs(),
                forall|j: int| 0 <= j < i ==> resolvable(*patch, #[trigger] sets@[j]),
        {
            if !value_resolvable(patch, &sets[i]) {
                return false;
            }
        }
        true
    }

    /// Resolves the values: the DMX channels of each value whose fixture is
    /// patched and controls its attribute, in order; the values are kept as
    /// the last resolution's.
    pub fn resolve(&mut self, patch: &Patch) -> (r: Vec<ChannelValue>)
        requires
            forall|i: int| 0 <= i < old(self).pairs().len() ==> resolvable(*patch, #[trigger] old(self).pairs()[i]),
        ensures
            r@.map_values(|c: ChannelValue| channel_view(c)) == resolved_all(*patch, old(self).pairs()),
            final(self).pairs() == old(self).pairs(),
            final(self).map() == old(self).map(),
            final(self).resolved_pairs() == old(self).pairs(),
    {
        let entries = self.values.entries();
        let n = entries.len();
        let mut out: Vec<ChannelValue> = Vec::new();
        for i in 0..n
            invariant
                n == entries@.len(),
                entries@ == self.pairs(),
                forall|k: int| 0 <= k < entries@.len() ==> resolvable(*patch, #[trigger] entries@[k]),
                out@.map_values(|c: ChannelValue| channel_view(c)) == resolved_all(
                    *patch,
                    entries@.subrange(0, i as int),
                ),
        {
            let e = &entries[i];
            assert(resolvable(*patch, entries@[i as int]));
            assert(entries@.subrange(0, i + 1).drop_last() =~= entries@.subrange(0, i as int));
            match patch.fixture(e.0.0) {
                Some(f) => {
                    match f.channels_for_attribute(&e.0.1, patch) {
                        Ok(channels) => {
                            let ghost c = ChannelValue { universe: f.address.universe, channels, value: e.1 };
                            out.push(ChannelValue { universe: f.address.universe, channels, value: e.1 });
                        },
                        Err(_) => {},
                    }
                },
                None => {},
            }
            assert(out@.map_values(|c: ChannelValue| channel_view(c)) =~= resolved_all(
                *patch,
                entries@.subrange(0, i + 1),
            ));
        }
        assert(entries@.subrange(0, n as int) =~= entries@);
        self.resolved_values = self.values.duplicate();
        out
    }
}

/// The value sets of one entry of a preset's content onto a group's
/// fixtures.
pub open spec fn entry_sets(content: PresetContent, patch: Patch, j: int, fids: Seq<FixtureId>) -> Seq<ValueSet>
    decreases fids.len(),
{
    if fids.len() == 0 {
        Seq::empty()
    } else {
        let prev = entry_sets(content, patch, j, fids.drop_last());
        let fid = fids.last();
        match content {
            PresetContent::Universal(u) => {
                let e = u.values.pairs()[j];
                prev.push(((fid, e.0), e.1))
            },
            PresetContent::Global(g) => {
                let e = g.values.pairs()[j];
                match patch.spec_fixture(fid) {
                    Some(f) => if f.fixture_type_id == e.0.0 {
                        prev.push(((fid, e.0.1), e.1))
                    } else {
                        prev
                    },
                    None => prev,
                }
            },
            PresetContent::Selective(s) => {
                let e = s.values.pairs()[j];
                if e.0.0 == fid {
                    prev.push(((fid, e.0.1), e.1))
                } else {
                    prev
                }
            },
        }
    }
}

/// The value sets of the first `n` entries of a preset's content onto a
/// group's fixtures: entry by entry, fixture by fixture.
pub open spec fn content_sets(content: PresetContent, patch: Patch, n: int, fids: Seq<FixtureId>) -> Seq<ValueSet>
    decreases n,
{
    if n <= 0 {
        Seq::empty()
    } else {
        content_sets(content, patch, n - 1, fids) + entry_sets(content, patch, n - 1, fids)
    }
}

/// The number of entries of a preset's content.
pub open spec fn content_len(content: PresetContent) -> int {
    match content {
        PresetContent::Universal(u) => u.values.pairs().len() as int,
        PresetContent::Global(g) => g.values.pairs().len() as int,
        PresetContent::Selective(s) => s.values.pairs().len() as int,
    }
}

/// The value sets of a recipe: its preset's values on its group's fixtures;
/// none where it lacks a group or a preset, or they are missing.
pub open spec fn recipe_sets(r: Recipe, objects: Seq<AnyObject>, patch: Patch) -> Seq<ValueSet> {
    match (r.group_id, r.preset_id) {
        (Some(gid), Some(pid)) => match (find_id(objects, gid), find_id(objects, pid)) {
            (Some(gi), Some(pi)) => match (objects[gi], preset_of(objects[pi])) {
                (AnyObject::Group(g), Some(p)) => content_sets(p.content, patch, content_len(p.content), g.fids@),
                _ => Seq::empty(),
            },
            _ => Seq::empty(),
        },
        _ => Seq::empty(),
    }
}

/// The value sets of a cue's recipes, recipe by recipe.
pub open spec fn cue_sets(recipes: Seq<Recipe>, objects: Seq<AnyObject>, patch: Patch) -> Seq<ValueSet>
    decreases recipes.len(),
{
    if recipes.len() == 0 {
        Seq::empty()
    } else {
        cue_sets(recipes.drop_last(), objects, patch) + recipe_sets(recipes.last(), objects, patch)
    }
}

/// The value sets of one entry of the content on the fixtures.
fn entry_value_sets(content: &PresetContent, patch: &Patch, j: usize, fids: &[FixtureId]) -> (r: Vec<ValueSet>)
    requires
        j < content_len(*content),
    ensures
        r@ == entry_sets(*content, *patch, j as int, fids@),
{
    let mut r: Vec<ValueSet> = Vec::new();
    let n = fids.len();
    for k in 0..n
        invariant
            n == fids@.len(),
            j < content_len(*content),
            r@ == entry_sets(*content, *patch, j as int, fids@.subrange(0, k as int)),
    {
        let fid = fids[k];
        assert(fids@.subrange(0, k + 1).drop_last() =~= fids@.subrange(0, k as int));
        assert(fids@.subrange(0, k + 1).last() == fid);
        match content {
            PresetContent::Universal(u) => {
                let e = &u.values.entries()[j];
                r.push(((fid, e.0.duplicate()), e.1));
            },
            PresetContent::Global(g) => {
                let e = &g.values.entries()[j];
                match patch.fixture(fid) {
                    Some(f) => {
                        if f.fixture_type_id == e.0.0 {
                            r.push(((fid, e.0.1.duplicate()), e.1));
                        }
                    },
                    None => {},
                }
            },
            PresetContent::Selective(s) => {
                let e = &s.values.entries()[j];
                if e.0.0 == fid {
                    r.push(((fid, e.0.1.duplicate()), e.1));
                }
            },
        }
    }
    assert(fids@.subrange(0, n as int) =~= fids@);
    r
}

/// The value sets of a recipe.
fn recipe_value_sets(recipe: &Recipe, objects: &ObjectContainer, patch: &Patch) -> (r: Vec<ValueSet>)
    ensures
        r@ == recipe_sets(*recipe, objects.objects(), *patch),
{
    let gid = match recipe.group_id {
        Some(g) => g,
        None => {
            return Vec::new();
        },
    };
    let pid = match recipe.preset_id {
        Some(p) => p,
        None => {
            return Vec::new();
        },
    };
    proof {
        crate::object::lemma_find_id_some(objects.objects(), gid);
        crate::object::lemma_find_id_some(objects.objects(), pid);
    }
    let group = match objects.get_any(gid) {
        Some(AnyObject::Group(g)) => g,
        _ => {
            return Vec::new();
        },
    };
    let preset = match objects.get_any(pid) {
        Some(o) => match o.as_preset() {
            Some(p) => p,
            None => {
                return Vec::new();
            },
        },
        None => {
            return Vec::new();
        },
    };
    let content = &preset.content;
    let n: usize = match content {
        PresetContent::Universal(u) => u.values.len(),
        PresetContent::Global(g) => g.values.len(),
        PresetContent::Selective(s) => s.values.len(),
    };
    let mut r: Vec<ValueSet> = Vec::new();
    for j in 0..n
        invariant
            n == content_len(*content),
            r@ == content_sets(*content, *patch, j as int, group.fids@),
    {
        let more = entry_value_sets(content, patch, j, group.fids.as_slice());
        let mut more = more;
        r.append(&mut more);
    }
    r
}

/// The value sets of a cue: those of its recipes, recipe by recipe.
pub fn cue_value_sets(cue: &Cue, objects: &ObjectContainer, patch: &Patch) -> (r: Vec<ValueSet>)
    ensures
        r@ == cue_sets(cue.recipes@, objects.objects(), *patch),
{
    let mut r: Vec<ValueSet> = Vec::new();
    let n = cue.recipes.len();
    for i in 0..n
        invariant
            n == cue.recipes@.len(),
            r@ == cue_sets(cue.recipes@.subrange(0, i as int), objects.objects(), *patch),
    {
        let mut more = recipe_value_sets(&cue.recipes[i], objects, patch);
        assert(cue.recipes@.subrange(0, i + 1).drop_last() =~= cue.recipes@.subrange(0, i as int));
        r.append(&mut more);
    }
    assert(cue.recipes@.subrange(0, n as int) =~= cue.recipes@);
    r
}

/// Puts a cue's values into the pipeline: for each recipe, its preset's
/// values on its group's fixtures.
pub fn process_cue(cue: &Cue, pipeline: &mut Pipeline, objects: &ObjectContainer, patch: &Patch)
    ensures
        final(pipeline).map() == apply_values(old(pipeline).map(), cue_sets(cue.recipes@, objects.objects(), *patch)),
        final(pipeline).resolved_pairs() == old(pipeline).resolved_pairs(),
{
    let sets = cue_value_sets(cue, objects, patch);
    pipeline.set_values(sets.as_slice());
}

/// The values after setting each, given by views, in turn.
pub open spec fn apply_views(
    m: Map<(FixtureId, AttributeView), AttributeValue>,
    sets: Seq<((FixtureId, AttributeView), AttributeValue)>,
) -> Map<(FixtureId, AttributeView), AttributeValue>
    decreases sets.len(),
{
    if sets.len() == 0 {
        m
    } else {
        apply_views(m, sets.drop_last()).insert(sets.last().0, sets.last().1)
    }
}

/// The defaults of one fixture as value sets.
pub open spec fn fixture_defaults(f: Fixture, patch: Patch) -> Seq<((FixtureId, AttributeView), AttributeValue)> {
    default_values(patch.mode_of(f).channels@).map_values(
        |d: (AttributeView, AttributeValue)| ((f.id, d.0), d.1),
    )
}

/// The default values of the patched fixtures, fixture by fixture.
pub open spec fn default_sets(fixtures: Seq<Fixture>, patch: Patch) -> Seq<((FixtureId, AttributeView), AttributeValue)>
    decreases fixtures.len(),
{
    if fixtures.len() == 0 {
        Seq::empty()
    } else {
        default_sets(fixtures.drop_last(), patch) + fixture_defaults(fixtures.last(), patch)
    }
}

proof fn lemma_apply_views_append(
    m: Map<(FixtureId, AttributeView), AttributeValue>,
    a: Seq<((FixtureId, AttributeView), AttributeValue)>,
    b: Seq<((FixtureId, AttributeView), AttributeValue)>,
)
    ensures
        apply_views(m, a + b) == apply_views(apply_views(m, a), b),
    decreases b.len(),
{
    if b.len() == 0 {
        assert(a + b =~= a);
    } else {
        lemma_apply_views_append(m, a, b.drop_last());
        assert((a + b).drop_last() =~= a + b.drop_last());
    }
}

/// Puts every patched fixture's default values into the pipeline, fixture by
/// fixture, before other values are resolved.
pub fn process_default_values(pipeline: &mut Pipeline, patch: &Patch)
    requires
        forall|i: int| 0 <= i < patch.fixtures@.len() ==> patch.resolves(#[trigger] patch.fixtures@[i]),
    ensures
        final(pipeline).map() == apply_views(old(pipeline).map(), default_sets(patch.fixtures@, *patch)),
        final(pipeline).resolved_pairs() == old(pipeline).resolved_pairs(),
{
    let fixtures = patch.fixtures();
    let n = fixtures.len();
    let ghost m0 = pipeline.map();
    for i in 0..n
        invariant
            n == fixtures@.len(),
            fixtures@ == patch.fixtures@,
            forall|k: int| 0 <= k < patch.fixtures@.len() ==> patch.resolves(#[trigger] patch.fixtures@[k]),
            pipeline.map() == apply_views(m0, default_sets(fixtures@.subrange(0, i as int), *patch)),
            m0 == old(pipeline).map(),
            pipeline.resolved_pairs() == old(pipeline).resolved_pairs(),
    {
        let f = &fixtures[i];
        assert(patch.resolves(patch.fixtures@[i as int]));
        let defaults = f.get_default_attribute_values(patch);
        let m = defaults.len();
        let ghost before = default_sets(fixtures@.subrange(0, i as int), *patch);
        let ghost fd = fixture_defaults(*f, *patch);
        for j in 0..m
            invariant
                m == defaults@.len(),
                defaults@.map_values(|e: (Attribute, AttributeValue)| (e.0@, e.1)) == default_values(
                    patch.mode_of(*f).channels@,
                ),
                fd == fixture_defaults(*f, *patch),
                fd.len() == m,
                pipeline.map() == apply_views(apply_views(m0, before), fd.subrange(0, j as int)),
                pipeline.resolved_pairs() == old(pipeline).resolved_pairs(),
        {
            let ghost dv = defaults@.map_values(|e: (Attribute, AttributeValue)| (e.0@, e.1));
            assert(dv[j as int] == (defaults@[j as int].0@, defaults@[j as int].1));
            assert(fd[j as int] == ((f.id, dv[j as int].0), dv[j as int].1));
            pipeline.set_value(f.id, defaults[j].0.duplicate(), defaults[j].1);
            assert(fd.subrange(0, j + 1).drop_last() =~= fd.subrange(0, j as int));
        }
        proof {
            assert(fd.subrange(0, m as int) =~= fd);
            lemma_apply_views_append(m0, before, fd);
            assert(fixtures@.subrange(0, i + 1).drop_last() =~= fixtures@.subrange(0, i as int));
        }
    }
    assert(fixtures@.subrange(0, n as int) =~= fixtures@);
}

} // verus!
