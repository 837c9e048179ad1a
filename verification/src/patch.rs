//! The patch: which fixtures exist, where they sit in the DMX universes, and
//! what their fixture types (as described by their GDTF files) offer.
//!
//! A fixture type is held as the plain values the console reads from its GDTF
//! description: for each DMX mode, its channels with their offsets, the names
//! of the attributes they control, and the default of their initial channel
//! function.
use vstd::prelude::*;

use crate::attr::{Attribute, AttributeView};

verus! {

/// A unique id for a patched fixture.
#[derive(Debug, Clone, Copy, PartialEq, Eq, Structural, Hash)]
pub struct FixtureId(pub u32);

/// An attribute value. It stands for a floating-point number in `0.0..=1.0`
/// and is carried as that number's IEEE-754 bit pattern: the console copies
/// values around but never computes with them here.
#[derive(Debug, Clone, Copy, PartialEq, Eq, Structural, Hash)]
pub struct AttributeValue {
    pub bits: u32,
}

/// The lowest DMX channel of a universe.
pub const DMX_CHANNEL_MIN: u16 = 1;

/// The highest DMX channel of a universe.
pub const DMX_CHANNEL_MAX: u16 = 512;

/// A DMX address: a universe and a channel in it.
#[derive(Debug, Clone, Copy, PartialEq, Eq, Structural, Hash)]
pub struct DmxAddress {
    pub universe: u16,
    pub channel: u16,
}

/// The default value of a channel's initial channel function, with the name
/// of the (main) attribute it belongs to, where the GDTF description gives one.
#[derive(Debug, Clone)]
pub struct ChannelDefault {
    pub attribute_name: Option<String>,
    pub value: AttributeValue,
}

/// One DMX channel of a DMX mode.
#[derive(Debug, Clone)]
pub struct DmxChannel {
    /// The channel's offsets (1-based, coarse byte first), if it has any.
    pub offset: Option<Vec<i32>>,
    /// The names of the attributes of the channel's logical channels and of
    /// their channel functions.
    pub attribute_names: Vec<String>,
    /// The initial channel function's default, if the channel has one.
    pub initial: Option<ChannelDefault>,
}

/// A DMX mode of a fixture type.
#[derive(Debug, Clone)]
pub struct DmxMode {
    pub name: String,
    pub channels: Vec<DmxChannel>,
}

/// A fixture type, as described by a GDTF file.
#[derive(Debug, Clone)]
pub struct FixtureType {
    pub id: u128,
    pub modes: Vec<DmxMode>,
}

/// A patched fixture.
#[derive(Debug, Clone)]
pub struct Fixture {
    pub id: FixtureId,
    pub address: DmxAddress,
    pub fixture_type_id: u128,
    pub dmx_mode: String,
}

/// All information on the mapping of fixtures to the DMX universes.
#[derive(Debug, Clone)]
pub struct Patch {
    pub gdtfs: Vec<String>,
    pub fixture_types: Vec<FixtureType>,
    pub fixtures: Vec<Fixture>,
}

/// The offsets of a channel, or none where it has no offsets.
pub open spec fn offsets_of(c: DmxChannel) -> Seq<i32> {
    match c.offset {
        Some(v) => v@,
        None => Seq::empty(),
    }
}

/// A 1-based offset as a 0-based channel offset, clamped to the `u16` range.
pub open spec fn channel_offset(o: i32) -> int {
    if o - 1 < 0 {
        0
    } else if o - 1 > 65535 {
        65535
    } else {
        o - 1
    }
}

/// The lowest and highest channel offset seen so far, as `channel_count`
/// tracks them; `1` stands for "not seen yet".
pub open spec fn count_step(st: (int, int), o: i32) -> (int, int) {
    let off = channel_offset(o);
    let low = if st.0 == 1 || off < st.0 { off } else { st.0 };
    let high = if st.1 == 1 || off > st.1 { off } else { st.1 };
    (low, high)
}

/// `count_step` over a list of offsets, from the left.
pub open spec fn count_offsets(st: (int, int), offs: Seq<i32>) -> (int, int)
    decreases offs.len(),
{
    if offs.len() == 0 {
        st
    } else {
        count_step(count_offsets(st, offs.drop_last()), offs.last())
    }
}

/// `count_step` over the offsets of the channels, from the first channel.
pub open spec fn count_channels(chs: Seq<DmxChannel>) -> (int, int)
    decreases chs.len(),
{
    if chs.len() == 0 {
        (1, 1)
    } else {
        count_offsets(count_channels(chs.drop_last()), offsets_of(chs.last()))
    }
}

/// No offset of the channels is `i32::MIN` (its 1-based form has no
/// predecessor).
pub open spec fn offsets_in_range(chs: Seq<DmxChannel>) -> bool {
    forall|i: int, j: int|
        0 <= i < chs.len() && 0 <= j < offsets_of(chs[i]).len() ==> offsets_of(chs[i])[j]
            > i32::MIN
}

/// The number of channels a DMX mode spans: highest offset less lowest
/// offset, plus one.
pub open spec fn spec_channel_count(m: DmxMode) -> int {
    let st = count_channels(m.channels@);
    st.1 - st.0 + 1
}

proof fn lemma_count_offsets_ordered(st: (int, int), offs: Seq<i32>)
    requires
        0 <= st.0 <= st.1 <= 65535,
    ensures
        0 <= count_offsets(st, offs).0 <= count_offsets(st, offs).1 <= 65535,
    decreases offs.len(),
{
    if offs.len() > 0 {
        lemma_count_offsets_ordered(st, offs.drop_last());
    }
}

proof fn lemma_count_channels_ordered(chs: Seq<DmxChannel>)
    ensures
        0 <= count_channels(chs).0 <= count_channels(chs).1 <= 65535,
    decreases chs.len(),
{
    if chs.len() > 0 {
        lemma_count_channels_ordered(chs.drop_last());
        lemma_count_offsets_ordered(count_channels(chs.drop_last()), offsets_of(chs.last()));
    }
}

/// A 1-based offset as a 0-based channel offset, clamped to the `u16` range.
fn clamp_offset(o: i32) -> (r: u16)
    requires
        o > i32::MIN,
    ensures
        r == channel_offset(o),
{
    let z = o - 1;
    if z < 0 {
        0
    } else if z > 65535 {
        65535
    } else {
        z as u16
    }
}

/// The offsets of a channel, or none where it has no offsets.
fn channel_offsets(c: &DmxChannel) -> (r: Vec<i32>)
    ensures
        r@ == offsets_of(*c),
{
    match &c.offset {
        Some(v) => v.clone(),
        None => Vec::new(),
    }
}

/// The number of channels the DMX mode spans.
pub fn channel_count(dmx_mode: &DmxMode) -> (r: u16)
    requires
        offsets_in_range(dmx_mode.channels@),
        spec_channel_count(*dmx_mode) <= u16::MAX,
    ensures
        r == spec_channel_count(*dmx_mode),
{
    let mut low_offset: u16 = 1;
    let mut high_offset: u16 = 1;
    let n = dmx_mode.channels.len();
    let ghost chs = dmx_mode.channels@;
    for i in 0..n
        invariant
            n == chs.len(),
            chs == dmx_mode.channels@,
            offsets_in_range(chs),
            (low_offset as int, high_offset as int) == count_channels(chs.subrange(0, i as int)),
    {
        let offsets = channel_offsets(&dmx_mode.channels[i]);
        let ghost st0 = (low_offset as int, high_offset as int);
        let m = offsets.len();
        for j in 0..m
            invariant
                m == offsets@.len(),
                offsets@ == offsets_of(chs[i as int]),
                0 <= i < n,
                n == chs.len(),
                offsets_in_range(chs),
                (low_offset as int, high_offset as int) == count_offsets(
                    st0,
                    offsets@.subrange(0, j as int),
                ),
        {
            assert(offsets@[j as int] > i32::MIN);
            let offset = clamp_offset(offsets[j]);
            assert(offsets@.subrange(0, j + 1).drop_last() =~= offsets@.subrange(0, j as int));
            if low_offset == 1 || offset < low_offset {
                low_offset = offset;
            }
            if high_offset == 1 || offset > high_offset {
                high_offset = offset;
            }
        }
        assert(offsets@.subrange(0, m as int) =~= offsets@);
        assert(chs.subrange(0, i + 1).drop_last() =~= chs.subrange(0, i as int));
    }
    assert(chs.subrange(0, n as int) =~= chs);
    proof {
        lemma_count_channels_ordered(chs);
    }
    high_offset - low_offset + 1
}

/// The channel controls the attribute of the given name.
pub open spec fn controls(c: DmxChannel, name: Seq<char>) -> bool {
    exists|k: int| 0 <= k < c.attribute_names@.len() && #[trigger] c.attribute_names@[k]@ == name
}

/// The index of the first channel that controls the attribute of the given
/// name.
pub open spec fn first_controlling(chs: Seq<DmxChannel>, name: Seq<char>) -> Option<int> {
    if (exists|i: int|
                0 <= i < chs.len() && controls(#[trigger] chs[i], name) && forall|j: int|
                    0 <= j < i ==> !controls(#[trigger] chs[j], name)) {
        Some(
            choose|i: int|
                0 <= i < chs.len() && controls(#[trigger] chs[i], name) && forall|j: int|
                    0 <= j < i ==> !controls(#[trigger] chs[j], name),
        )
    } else {
        None
    }
}

proof fn lemma_first_controlling(chs: Seq<DmxChannel>, name: Seq<char>, i: int)
    requires
        0 <= i < chs.len(),
        controls(chs[i], name),
        forall|j: int| 0 <= j < i ==> !controls(#[trigger] chs[j], name),
    ensures
        first_controlling(chs, name) == Some(i),
{
    let k = choose|k: int|
        0 <= k < chs.len() && controls(#[trigger] chs[k], name) && forall|j: int|
            0 <= j < k ==> !controls(#[trigger] chs[j], name);
    assert(0 <= k < chs.len() && controls(chs[k], name) && forall|j: int|
        0 <= j < k ==> !controls(#[trigger] chs[j], name));
    if k < i {
        assert(!controls(chs[k], name));
    }
    if i < k {
        assert(!controls(chs[i], name));
    }
}

/// `c` controls the attribute of the given name.
fn channel_controls(c: &DmxChannel, name: &String) -> (r: bool)
    ensures
        r == controls(*c, name@),
{
    let n = c.attribute_names.len();
    for k in 0..n
        invariant
            n == c.attribute_names@.len(),
            forall|j: int| 0 <= j < k ==> c.attribute_names@[j]@ != name@,
    {
        if c.attribute_names[k] == *name {
            return true;
        }
    }
    false
}

/// Why a channel lookup failed.
#[derive(Debug, Clone, Copy, PartialEq, Eq, Structural)]
pub enum PatchError {
    /// No channel of the fixture's DMX mode controls the attribute.
    ChannelNotFound,
}

/// The DMX channels for each 0-based offset, from the fixture's start channel.
pub open spec fn offset_channels(start: u16, offs: Seq<i32>) -> Seq<u16> {
    Seq::new(offs.len(), |j: int| (start + channel_offset(offs[j])) as u16)
}

/// Every channel the offsets give lies in the universe.
pub open spec fn channels_fit(start: u16, offs: Seq<i32>) -> bool {
    forall|j: int|
        0 <= j < offs.len() ==> DMX_CHANNEL_MIN <= start + channel_offset(#[trigger] offs[j])
            <= DMX_CHANNEL_MAX
}

/// Byte `i` of `level`, most significant first.
pub open spec fn level_byte(level: u32, i: int) -> u8 {
    (if i == 0 {
        level / 0x100_0000
    } else if i == 1 {
        (level / 0x1_0000) % 0x100
    } else if i == 2 {
        (level / 0x100) % 0x100
    } else {
        level % 0x100
    }) as u8
}

/// Each channel with the byte of `level` at its position.
pub open spec fn level_bytes(channels: Seq<u16>, level: u32) -> Seq<(u16, u8)> {
    Seq::new(channels.len(), |i: int| (channels[i], level_byte(level, i)))
}

/// Spreads `level` over up to four channels, most significant byte first.
pub fn channel_bytes(channels: &[u16], level: u32) -> (r: Vec<(u16, u8)>)
    requires
        channels@.len() <= 4,
    ensures
        r@ == level_bytes(channels@, level),
{
    let mut r: Vec<(u16, u8)> = Vec::new();
    let n = channels.len();
    for i in 0..n
        invariant
            n == channels@.len(),
            n <= 4,
            r@ == level_bytes(channels@.subrange(0, i as int), level),
    {
        let b: u32 = if i == 0 {
            level / 0x100_0000
        } else if i == 1 {
            (level / 0x1_0000) % 0x100
        } else if i == 2 {
            (level / 0x100) % 0x100
        } else {
            level % 0x100
        };
        assert(b < 0x100) by {
            assert(level / 0x100_0000 < 0x100);
        }
        r.push((channels[i], b as u8));
        assert(r@ =~= level_bytes(channels@.subrange(0, i + 1), level));
    }
    assert(channels@.subrange(0, n as int) =~= channels@);
    r
}

/// The index of the first channel of `mode` that controls the attribute
/// named `name`.
fn controlling_channel(mode: &DmxMode, name: &String) -> (r: Option<usize>)
    ensures
        match r {
            Some(k) => k < mode.channels@.len() && first_controlling(mode.channels@, name@) == Some(k as int),
            None => first_controlling(mode.channels@, name@) is None,
        },
{
    let n = mode.channels.len();
    let ghost chs = mode.channels@;
    for i in 0..n
        invariant
            n == chs.len(),
            chs == mode.channels@,
            forall|j: int| 0 <= j < i ==> !controls(#[trigger] chs[j], name@),
    {
        if channel_controls(&mode.channels[i], name) {
            proof {
                lemma_first_controlling(chs, name@, i as int);
            }
            return Some(i);
        }
    }
    proof {
        if first_controlling(chs, name@) is Some {
            let w = choose|w: int| 0 <= w < chs.len() && controls(#[trigger] chs[w], name@);
            assert(!controls(chs[w], name@));
        }
    }
    None
}

/// Every offset of every channel of `mode` is above `i32::MIN`.
fn modes_offsets_in_range(mode: &DmxMode) -> (r: bool)
    ensures
        r == offsets_in_range(mode.channels@),
{
    let n = mode.channels.len();
    let ghost chs = mode.channels@;
    for i in 0..n
        invariant
            n == chs.len(),
            chs == mode.channels@,
            forall|a: int, b: int|
                0 <= a < i && 0 <= b < offsets_of(chs[a]).len() ==> offsets_of(chs[a])[b] > i32::MIN,
    {
        let offs = channel_offsets(&mode.channels[i]);
        let m = offs.len();
        for j in 0..m
            invariant
                i < n,
                n == chs.len(),
                chs == mode.channels@,
                m == offs@.len(),
                offs@ == offsets_of(chs[i as int]),
                forall|b: int| 0 <= b < j ==> offs@[b] > i32::MIN,
        {
            if offs[j] == i32::MIN {
                proof {
                    let a = i as int;
                    let b = j as int;
                    assert(0 <= a < chs.len() && 0 <= b < offsets_of(chs[a]).len() && !(offsets_of(chs[a])[b]
                        > i32::MIN));
                    assert(!offsets_in_range(chs));
                }
                return false;
            }
        }
    }
    true
}

/// Each channel the offsets give, counted from `start`, lies in the
/// universe.
fn offsets_fit(start: u16, offs: &[i32]) -> (r: bool)
    requires
        forall|j: int| 0 <= j < offs@.len() ==> offs@[j] > i32::MIN,
    ensures
        r == channels_fit(start, offs@),
{
    let m = offs.len();
    for j in 0..m
        invariant
            m == offs@.len(),
            forall|b: int| 0 <= b < offs@.len() ==> offs@[b] > i32::MIN,
            forall|b: int|
                0 <= b < j ==> DMX_CHANNEL_MIN <= start + channel_offset(#[trigger] offs@[b]) <= DMX_CHANNEL_MAX,
    {
        let off = clamp_offset(offs[j]);
        let c: u32 = start as u32 + off as u32;
        if c < DMX_CHANNEL_MIN as u32 || c > DMX_CHANNEL_MAX as u32 {
            assert(!(DMX_CHANNEL_MIN <= start + channel_offset(offs@[j as int]) <= DMX_CHANNEL_MAX));
            return false;
        }
    }
    true
}

impl FixtureType {
    /// The index of the DMX mode of this name, if the type has one.
    pub open spec fn mode_index(self, name: Seq<char>) -> Option<int> {
        if (exists|i: int|
                    0 <= i < self.modes@.len() && #[trigger] self.modes@[i].name@ == name
                        && forall|j: int|
                        0 <= j < i ==> #[trigger] self.modes@[j].name@ != name) {
            Some(
                choose|i: int|
                    0 <= i < self.modes@.len() && #[trigger] self.modes@[i].name@ == name
                        && forall|j: int|
                        0 <= j < i ==> #[trigger] self.modes@[j].name@ != name,
            )
        } else {
            None
        }
    }

    /// The DMX mode of this name, if the type has one.
    pub fn dmx_mode(&self, name: &String) -> (r: Option<&DmxMode>)
        ensures
            match self.mode_index(name@) {
                Some(i) => r == Some(&self.modes@[i]),
                None => r is None,
            },
    {
        let n = self.modes.len();
        for i in 0..n
            invariant
                n == self.modes@.len(),
                forall|j: int| 0 <= j < i ==> #[trigger] self.modes@[j].name@ != name@,
        {
            if self.modes[i].name == *name {
                proof {
                    let k = choose|k: int|
                        0 <= k < self.modes@.len() && #[trigger] self.modes@[k].name@ == name@
                            && forall|j: int|
                            0 <= j < k ==> #[trigger] self.modes@[j].name@ != name@;
                    assert(0 <= k < self.modes@.len() && self.modes@[k].name@ == name@);
                    if k < i {
                        assert(self.modes@[k as int].name@ != name@);
                    }
                    if i < k {
                        assert(self.modes@[i as int].name@ != name@);
                    }
                }
                return Some(&self.modes[i]);
            }
        }
        None
    }
}

/// Keeps the fixtures whose id is not `fid`.
pub open spec fn other_than(fid: FixtureId) -> spec_fn(Fixture) -> bool {
    |f: Fixture| f.id != fid
}

impl Patch {
    /// A patch with no fixtures and no fixture types.
    pub fn new() -> (r: Patch)
        ensures
            r.gdtfs@.len() == 0,
            r.fixture_types@.len() == 0,
            r.fixtures@.len() == 0,
    {
        Patch { gdtfs: Vec::new(), fixture_types: Vec::new(), fixtures: Vec::new() }
    }

    /// The index of the first fixture with this id, if one is patched.
    pub open spec fn fixture_index(self, fid: FixtureId) -> Option<int> {
        if (exists|i: int|
                    0 <= i < self.fixtures@.len() && #[trigger] self.fixtures@[i].id == fid
                        && forall|j: int|
                        0 <= j < i ==> #[trigger] self.fixtures@[j].id != fid) {
            Some(
                choose|i: int|
                    0 <= i < self.fixtures@.len() && #[trigger] self.fixtures@[i].id == fid
                        && forall|j: int|
                        0 <= j < i ==> #[trigger] self.fixtures@[j].id != fid,
            )
        } else {
            None
        }
    }

    /// The index of the first fixture type with this id, if the patch has one.
    pub open spec fn fixture_type_index(self, id: u128) -> Option<int> {
        if (exists|i: int|
                    0 <= i < self.fixture_types@.len() && #[trigger] self.fixture_types@[i].id
                        == id && forall|j: int|
                        0 <= j < i ==> #[trigger] self.fixture_types@[j].id != id) {
            Some(
                choose|i: int|
                    0 <= i < self.fixture_types@.len() && #[trigger] self.fixture_types@[i].id
                        == id && forall|j: int|
                        0 <= j < i ==> #[trigger] self.fixture_types@[j].id != id,
            )
        } else {
            None
        }
    }

    /// The fixture with this id, if it is patched.
    pub open spec fn spec_fixture(self, fid: FixtureId) -> Option<Fixture> {
        match self.fixture_index(fid) {
            Some(i) => Some(self.fixtures@[i]),
            None => None,
        }
    }

    /// The patch holds the type of fixture `f` and, in it, the fixture's DMX
    /// mode.
    pub fn fixture_resolves(&self, f: &Fixture) -> (r: bool)
        ensures
            r == self.resolves(*f),
    {
        match self.fixture_type(f.fixture_type_id) {
            Some(t) => t.dmx_mode(&f.dmx_mode).is_some(),
            None => false,
        }
    }

    /// The patch holds the type and DMX mode of each of its fixtures.
    pub fn all_fixtures_resolve(&self) -> (r: bool)
        ensures
            r == forall|i: int| 0 <= i < self.fixtures@.len() ==> self.resolves(#[trigger] self.fixtures@[i]),
    {
        let n = self.fixtures.len();
        for i in 0..n
            invariant
                n == self.fixtures@.len(),
                forall|j: int| 0 <= j < i ==> self.resolves(#[trigger] self.fixtures@[j]),
        {
            if !self.fixture_resolves(&self.fixtures[i]) {
                return false;
            }
        }
        true
    }

    /// All patched fixtures.
    pub fn fixtures(&self) -> (r: &[Fixture])
        ensures
            r@ == self.fixtures@,
    {
        self.fixtures.as_slice()
    }

    /// The names of all loaded GDTF files.
    pub fn gdtfs(&self) -> (r: &[String])
        ensures
            r@ == self.gdtfs@,
    {
        self.gdtfs.as_slice()
    }

    /// All fixture types.
    pub fn fixture_types(&self) -> (r: &[FixtureType])
        ensures
            r@ == self.fixture_types@,
    {
        self.fixture_types.as_slice()
    }

    /// The fixture with this id, if it is patched.
    pub fn fixture(&self, fid: FixtureId) -> (r: Option<&Fixture>)
        ensures
            match self.fixture_index(fid) {
                Some(i) => r == Some(&self.fixtures@[i]),
                None => r is None,
            },
    {
        let n = self.fixtures.len();
        for i in 0..n
            invariant
                n == self.fixtures@.len(),
                forall|j: int| 0 <= j < i ==> #[trigger] self.fixtures@[j].id != fid,
        {
            if self.fixtures[i].id == fid {
                proof {
                    let k = choose|k: int|
                        0 <= k < self.fixtures@.len() && #[trigger] self.fixtures@[k].id == fid
                            && forall|j: int|
                            0 <= j < k ==> #[trigger] self.fixtures@[j].id != fid;
                    assert(0 <= k < self.fixtures@.len() && self.fixtures@[k].id == fid);
                    if k < i {
                        assert(self.fixtures@[k as int].id != fid);
                    }
                    if i < k {
                        assert(self.fixtures@[i as int].id != fid);
                    }
                }
                return Some(&self.fixtures[i]);
            }
        }
        None
    }

    /// The fixture type with this id, if the patch has one.
    pub fn fixture_type(&self, id: u128) -> (r: Option<&FixtureType>)
        ensures
            match self.fixture_type_index(id) {
                Some(i) => r == Some(&self.fixture_types@[i]),
                None => r is None,
            },
    {
        let n = self.fixture_types.len();
        for i in 0..n
            invariant
                n == self.fixture_types@.len(),
                forall|j: int| 0 <= j < i ==> #[trigger] self.fixture_types@[j].id != id,
        {
            if self.fixture_types[i].id == id {
                proof {
                    let k = choose|k: int|
                        0 <= k < self.fixture_types@.len() && #[trigger] self.fixture_types@[k].id
                            == id && forall|j: int|
                            0 <= j < k ==> #[trigger] self.fixture_types@[j].id != id;
                    assert(0 <= k < self.fixture_types@.len() && self.fixture_types@[k].id == id);
                    if k < i {
                        assert(self.fixture_types@[k as int].id != id);
                    }
                    if i < k {
                        assert(self.fixture_types@[i as int].id != id);
                    }
                }
                return Some(&self.fixture_types[i]);
            }
        }
        None
    }

    /// Adds a fixture at the end of the patch.
    pub fn insert_fixture(
        &mut self,
        fid: FixtureId,
        address: DmxAddress,
        type_id: u128,
        dmx_mode: String,
    )
        ensures
            final(self).fixtures@ == old(self).fixtures@.push(
                Fixture { id: fid, address, fixture_type_id: type_id, dmx_mode },
            ),
            final(self).fixture_types@ == old(self).fixture_types@,
            final(self).gdtfs@ == old(self).gdtfs@,
    {
        self.fixtures.push(Fixture::new(fid, address, type_id, dmx_mode));
    }

    /// Removes every fixture with this id, keeping the others in order.
    pub fn remove_fixture(&mut self, fid: FixtureId)
        ensures
            final(self).fixtures@ == old(self).fixtures@.filter(other_than(fid)),
            final(self).fixture_types@ == old(self).fixture_types@,
            final(self).gdtfs@ == old(self).gdtfs@,
    {
        let mut kept: Vec<Fixture> = Vec::new();
        let n = self.fixtures.len();
        let ghost old_fixtures = self.fixtures@;
        for i in 0..n
            invariant
                n == old_fixtures.len(),
                self.fixtures@ == old_fixtures,
                kept@ == old_fixtures.subrange(0, i as int).filter(other_than(fid)),
        {
            let ghost pre = old_fixtures.subrange(0, i + 1);
            assert(pre.drop_last() =~= old_fixtures.subrange(0, i as int));
            assert(pre.last() == old_fixtures[i as int]);
            let ghost p = other_than(fid);
            proof {
                reveal(Seq::filter);
            }
            if self.fixtures[i].id != fid {
                kept.push(self.fixtures[i].duplicate());
                assert(p(pre.last()));
                assert(pre.filter(p) == pre.drop_last().filter(p).push(pre.last()));
            } else {
                assert(!p(pre.last()));
                assert(pre.filter(p) == pre.drop_last().filter(p));
            }
        }
        assert(old_fixtures.subrange(0, n as int) =~= old_fixtures);
        self.fixtures = kept;
    }

    /// The fixture's type and DMX mode can be found in the patch.
    pub open spec fn resolves(self, f: Fixture) -> bool {
        match self.fixture_type_index(f.fixture_type_id) {
            Some(t) => self.fixture_types@[t].mode_index(f.dmx_mode@) is Some,
            None => false,
        }
    }

    /// The DMX mode of a fixture whose type and mode the patch holds.
    pub open spec fn mode_of(self, f: Fixture) -> DmxMode
        recommends
            self.resolves(f),
    {
        let t = self.fixture_types@[self.fixture_type_index(f.fixture_type_id).unwrap()];
        t.modes@[t.mode_index(f.dmx_mode@).unwrap()]
    }
}

impl Fixture {
    /// A fixture with the given patch information.
    pub fn new(id: FixtureId, address: DmxAddress, fixture_type_id: u128, dmx_mode: String) -> (r:
        Fixture)
        ensures
            r == (Fixture { id, address, fixture_type_id, dmx_mode }),
    {
        Fixture { id, address, fixture_type_id, dmx_mode }
    }

    /// A copy of this fixture.
    pub fn duplicate(&self) -> (r: Fixture)
        ensures
            r == *self,
    {
        Fixture {
            id: self.id,
            address: self.address,
            fixture_type_id: self.fixture_type_id,
            dmx_mode: self.dmx_mode.clone(),
        }
    }

    /// This fixture's id.
    pub fn id(&self) -> (r: FixtureId)
        ensures
            r == self.id,
    {
        self.id
    }

    /// This fixture's id.
    pub fn fid(&self) -> (r: FixtureId)
        ensures
            r == self.id,
    {
        self.id
    }

    /// The address of this fixture.
    pub fn address(&self) -> (r: &DmxAddress)
        ensures
            *r == self.address,
    {
        &self.address
    }

    /// The id of this fixture's type.
    pub fn fixture_type_id(&self) -> (r: u128)
        ensures
            r == self.fixture_type_id,
    {
        self.fixture_type_id
    }

    /// The type of this fixture, which the patch must hold.
    pub fn fixture_type<'a>(&self, patch: &'a Patch) -> (r: &'a FixtureType)
        requires
            patch.fixture_type_index(self.fixture_type_id) is Some,
        ensures
            *r == patch.fixture_types@[patch.fixture_type_index(self.fixture_type_id).unwrap()],
    {
        match patch.fixture_type(self.fixture_type_id) {
            Some(t) => t,
            None => {
                assert(false);
                &patch.fixture_types[0]
            },
        }
    }

    /// The DMX mode of this fixture, which the patch must hold.
    pub fn dmx_mode<'a>(&self, patch: &'a Patch) -> (r: &'a DmxMode)
        requires
            patch.resolves(*self),
        ensures
            *r == patch.mode_of(*self),
    {
        let t = self.fixture_type(patch);
        match t.dmx_mode(&self.dmx_mode) {
            Some(m) => m,
            None => {
                assert(false);
                &t.modes[0]
            },
        }
    }

    /// The DMX channels that control `attribute`: those of the first channel
    /// of the fixture's DMX mode that controls it, one for each offset, counted
    /// from the fixture's start channel.
    pub fn channels_for_attribute(&self, attribute: &Attribute, patch: &Patch) -> (r: Result<
        Vec<u16>,
        PatchError,
    >)
        requires
            patch.resolves(*self),
            match first_controlling(patch.mode_of(*self).channels@, attribute@.name()) {
                Some(i) => offsets_in_range(patch.mode_of(*self).channels@) && channels_fit(
                    self.address.channel,
                    offsets_of(patch.mode_of(*self).channels@[i]),
                ),
                None => true,
            },
        ensures
            match first_controlling(patch.mode_of(*self).channels@, attribute@.name()) {
                Some(i) => r is Ok && r->Ok_0@ == offset_channels(
                    self.address.channel,
                    offsets_of(patch.mode_of(*self).channels@[i]),
                ),
                None => r is Err && r->Err_0 == PatchError::ChannelNotFound,
            },
    {
        let mode = self.dmx_mode(patch);
        let name = attribute.to_string();
        let n = mode.channels.len();
        let ghost chs = mode.channels@;
        let mut found: Option<usize> = None;
        for i in 0..n
            invariant
                n == chs.len(),
                chs == mode.channels@,
                found is None ==> forall|j: int| 0 <= j < i ==> !controls(#[trigger] chs[j], name@),
                found matches Some(k) ==> k < n && controls(chs[k as int], name@) && forall|j: int|
                    0 <= j < k ==> !controls(#[trigger] chs[j], name@),
        {
            if found.is_none() && channel_controls(&mode.channels[i], &name) {
                found = Some(i);
            }
        }
        match found {
            None => {
                proof {
                    if first_controlling(chs, name@) is Some {
                        let w = choose|w: int| 0 <= w < chs.len() && controls(#[trigger] chs[w], name@);
                        assert(!controls(chs[w], name@));
                    }
                }
                Err(PatchError::ChannelNotFound)
            },
            Some(k) => {
                proof {
                    lemma_first_controlling(chs, name@, k as int);
                }
                let offsets = channel_offsets(&mode.channels[k]);
                let start = self.address.channel;
                let mut channels: Vec<u16> = Vec::new();
                let m = offsets.len();
                for j in 0..m
                    invariant
                        m == offsets@.len(),
                        offsets@ == offsets_of(chs[k as int]),
                        k < n,
                        n == chs.len(),
                        offsets_in_range(chs),
                        channels_fit(start, offsets@),
                        channels@ == offset_channels(start, offsets@.subrange(0, j as int)),
                {
                    assert(offsets@[j as int] > i32::MIN);
                    let off = clamp_offset(offsets[j]);
                    assert(DMX_CHANNEL_MIN <= start + channel_offset(offsets@[j as int])
                        <= DMX_CHANNEL_MAX);
                    channels.push(start + off);
                    assert(channels@ =~= offset_channels(start, offsets@.subrange(0, j + 1)));
                }
                assert(offsets@.subrange(0, m as int) =~= offsets@);
                Ok(channels)
            },
        }
    }

    /// The DMX channel values that carry `level` (an attribute value scaled
    /// to the whole `u32` range) on the channels that control `attribute`:
    /// byte `i` of the level, most significant first, on the `i`-th channel.
    pub fn get_channel_values(&self, attribute: &Attribute, level: u32, patch: &Patch) -> (r: Result<
        Vec<(u16, u8)>,
        PatchError,
    >)
        requires
            patch.resolves(*self),
            match first_controlling(patch.mode_of(*self).channels@, attribute@.name()) {
                Some(i) => offsets_in_range(patch.mode_of(*self).channels@) && channels_fit(
                    self.address.channel,
                    offsets_of(patch.mode_of(*self).channels@[i]),
                ) && offsets_of(patch.mode_of(*self).channels@[i]).len() <= 4,
                None => true,
            },
        ensures
            match first_controlling(patch.mode_of(*self).channels@, attribute@.name()) {
                Some(i) => r is Ok && r->Ok_0@ == level_bytes(
                    offset_channels(self.address.channel, offsets_of(patch.mode_of(*self).channels@[i])),
                    level,
                ),
                None => r is Err && r->Err_0 == PatchError::ChannelNotFound,
            },
    {
        match self.channels_for_attribute(attribute, patch) {
            Ok(channels) => Ok(channel_bytes(channels.as_slice(), level)),
            Err(e) => Err(e),
        }
    }

    /// The channels that control `attribute` can be told: where a channel of
    /// the fixture's DMX mode controls it, every offset of the mode is above
    /// `i32::MIN` and each channel of the first such one lies in the
    /// universe.
    pub fn attribute_fits(&self, attribute: &Attribute, patch: &Patch) -> (r: bool)
        requires
            patch.resolves(*self),
        ensures
            r == match first_controlling(patch.mode_of(*self).channels@, attribute@.name()) {
                Some(i) => offsets_in_range(patch.mode_of(*self).channels@) && channels_fit(
                    self.address.channel,
                    offsets_of(patch.mode_of(*self).channels@[i]),
                ),
                None => true,
            },
    {
        let mode = self.dmx_mode(patch);
        let name = attribute.to_string();
        match controlling_channel(mode, &name) {
            None => true,
            Some(k) => {
                if !modes_offsets_in_range(mode) {
                    return false;
                }
                let offs = channel_offsets(&mode.channels[k]);
                proof {
                    let chs = mode.channels@;
                    assert forall|j: int| 0 <= j < offs@.len() implies offs@[j] > i32::MIN by {
                        assert(offsets_of(chs[k as int])[j] > i32::MIN);
                    }
                }
                offsets_fit(self.address.channel, offs.as_slice())
            },
        }
    }

    /// The fixture controls `attribute`: some channel of its DMX mode does.
    pub fn has_attribute(&self, attribute: &Attribute, patch: &Patch) -> (r: bool)
        requires
            patch.resolves(*self),
        ensures
            r == (first_controlling(patch.mode_of(*self).channels@, attribute@.name()) is Some),
    {
        let mode = self.dmx_mode(patch);
        let name = attribute.to_string();
        let n = mode.channels.len();
        for i in 0..n
            invariant
                n == mode.channels@.len(),
                *mode == patch.mode_of(*self),
                name@ == attribute@.name(),
                forall|j: int| 0 <= j < i ==> !controls(#[trigger] mode.channels@[j], name@),
        {
            if channel_controls(&mode.channels[i], &name) {
                proof {
                    let chs = mode.channels@;
                    let ii = i as int;
                    assert(0 <= ii < chs.len() && controls(chs[ii], name@));
                    assert(first_controlling(chs, name@) is Some);
                }
                return true;
            }
        }
        proof {
            let chs = mode.channels@;
            if first_controlling(chs, name@) is Some {
                let w = choose|w: int| 0 <= w < chs.len() && controls(#[trigger] chs[w], name@);
                assert(!controls(chs[w], name@));
            }
        }
        false
    }

    /// The defaults of the fixture's channels: for each channel of its DMX
    /// mode, in order, whose initial channel function belongs to a named
    /// attribute, that attribute (read from its name) and the default value.
    pub fn get_default_attribute_values(&self, patch: &Patch) -> (r: Vec<(Attribute, AttributeValue)>)
        requires
            patch.resolves(*self),
        ensures
            r@.map_values(|e: (Attribute, AttributeValue)| (e.0@, e.1)) == default_values(
                patch.mode_of(*self).channels@,
            ),
    {
        let mode = self.dmx_mode(patch);
        let mut values: Vec<(Attribute, AttributeValue)> = Vec::new();
        let n = mode.channels.len();
        let ghost chs = mode.channels@;
        for i in 0..n
            invariant
                n == chs.len(),
                chs == mode.channels@,
                values@.map_values(|e: (Attribute, AttributeValue)| (e.0@, e.1)) == default_values(
                    chs.subrange(0, i as int),
                ),
        {
            assert(chs.subrange(0, i + 1).drop_last() =~= chs.subrange(0, i as int));
            match &mode.channels[i].initial {
                Some(d) => match &d.attribute_name {
                    Some(name) => {
                        let attribute = match Attribute::from_str(name.as_str()) {
                            Ok(a) => a,
                            Err(_) => Attribute::Custom(name.clone()),
                        };
                        values.push((attribute, d.value));
                        assert(values@.map_values(|e: (Attribute, AttributeValue)| (e.0@, e.1))
                            =~= default_values(chs.subrange(0, i + 1)));
                    },
                    None => {
                        assert(values@.map_values(|e: (Attribute, AttributeValue)| (e.0@, e.1))
                            =~= default_values(chs.subrange(0, i + 1)));
                    },
                },
                None => {
                    assert(values@.map_values(|e: (Attribute, AttributeValue)| (e.0@, e.1))
                        =~= default_values(chs.subrange(0, i + 1)));
                },
            }
        }
        assert(chs.subrange(0, n as int) =~= chs);
        values
    }
}

/// The defaults of the channels, as attribute views and values, in order.
pub open spec fn default_values(chs: Seq<DmxChannel>) -> Seq<(AttributeView, AttributeValue)>
    decreases chs.len(),
{
    if chs.len() == 0 {
        Seq::empty()
    } else {
        let rest = default_values(chs.drop_last());
        match chs.last().initial {
            Some(d) => match d.attribute_name {
                Some(name) => rest.push((AttributeView::parse(name@), d.value)),
                None => rest,
            },
            None => rest,
        }
    }
}

} // verus!
