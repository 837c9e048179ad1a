//! Console commands: patching fixtures, selecting, clearing, setting values,
//! creating and removing objects; and their written form.
use vstd::prelude::*;

use crate::attr::Attribute;
use crate::console::{
    fixture_pos, objects_put, objects_take, slot_pos, slot_put, Console, ConsoleError,
    ConsoleObject, PatchedFixture,
};
use crate::event::EngineEvent;
use crate::object::{ObjectId, ObjectKind, PoolId};
use crate::patch::{AttributeValue, DmxAddress, FixtureId};
use crate::show::select_one;
use crate::text::{dec32, push_u32};

verus! {

/// How far `clear` goes.
#[derive(Debug, Clone, Copy, PartialEq, Eq, Structural)]
pub enum ClearMode {
    /// Deselect all fixtures.
    ProgrammerSelection,
    /// Remove the programmer's values.
    ProgrammerValues,
    /// Deselect where something is selected, else remove the values.
    Progressive,
    /// Deselect and remove the values.
    All,
}

impl ClearMode {
    /// The mode `clear` uses when none is given.
    pub fn default_mode() -> (r: ClearMode)
        ensures
            r == ClearMode::Progressive,
    {
        ClearMode::Progressive
    }

    /// The mode as commands write it.
    pub open spec fn name(self) -> Seq<char> {
        match self {
            ClearMode::ProgrammerSelection => "selection"@,
            ClearMode::ProgrammerValues => "programmer"@,
            ClearMode::Progressive => "progressive"@,
            ClearMode::All => "all"@,
        }
    }

    /// The mode as commands write it.
    pub fn to_text(&self) -> (r: String)
        ensures
            r@ == self.name(),
    {
        match self {
            ClearMode::ProgrammerSelection => String::from_str("selection"),
            ClearMode::ProgrammerValues => String::from_str("programmer"),
            ClearMode::Progressive => String::from_str("progressive"),
            ClearMode::All => String::from_str("all"),
        }
    }
}

/// A change to the patch.
#[derive(Debug, Clone)]
pub enum PatchCommand {
    AddFixture {
        fid: FixtureId,
        fixture_type_id: u128,
        address: DmxAddress,
        dmx_mode: String,
        name: Option<String>,
    },
    RemoveFixture { fid: FixtureId },
    ReplaceFixture {
        fid: FixtureId,
        fixture_type_id: u128,
        address: DmxAddress,
        dmx_mode: String,
        name: Option<String>,
    },
    SetName { fid: FixtureId, name: String },
    SetFixtureId { fid: FixtureId, new_fid: FixtureId },
    SetAddress { fid: FixtureId, address: DmxAddress },
}

/// A reference to an object: a pool slot, or its id.
#[derive(Debug, Clone, Copy, PartialEq, Eq, Structural)]
pub enum ObjectReference {
    PoolItem(ObjectKind, PoolId),
    ObjectId(ObjectId),
}

/// A console command.
#[derive(Debug, Clone)]
pub enum Command {
    Patch(PatchCommand),
    Select { fid: FixtureId },
    Clear { mode: Option<ClearMode> },
    ProgrammerSetValue { fid: FixtureId, attribute: Attribute, value: AttributeValue },
    Create { kind: ObjectKind, pool_id: PoolId, name: Option<String> },
    Remove { object_ref: ObjectReference },
}

/// A fixture as plain values: id, type, address, DMX mode and name.
pub struct FixtureView {
    pub fid: FixtureId,
    pub fixture_type_id: u128,
    pub address: DmxAddress,
    pub dmx_mode: Seq<char>,
    pub name: Seq<char>,
}

/// A fixture as plain values.
pub open spec fn fixture_view(f: PatchedFixture) -> FixtureView {
    FixtureView {
        fid: f.fid,
        fixture_type_id: f.fixture_type_id,
        address: f.address,
        dmx_mode: f.dmx_mode@,
        name: f.name@,
    }
}

/// The patch's fixtures as plain values.
pub open spec fn patch_view(s: Seq<PatchedFixture>) -> Seq<FixtureView> {
    s.map_values(|f: PatchedFixture| fixture_view(f))
}

/// The index of the first fixture with this id.
pub open spec fn view_pos(v: Seq<FixtureView>, fid: FixtureId) -> Option<int> {
    if (exists|i: int|
        0 <= i < v.len() && #[trigger] v[i].fid == fid && forall|j: int| 0 <= j < i ==> #[trigger] v[j].fid != fid) {
        Some(
            choose|i: int|
                0 <= i < v.len() && #[trigger] v[i].fid == fid && forall|j: int|
                    0 <= j < i ==> #[trigger] v[j].fid != fid,
        )
    } else {
        None
    }
}

/// The fixtures after adding one, unless its id is taken.
pub open spec fn spec_add(v: Seq<FixtureView>, f: FixtureView) -> (bool, Seq<FixtureView>) {
    match view_pos(v, f.fid) {
        Some(_) => (false, v),
        None => (true, v.push(f)),
    }
}

/// The fixtures after removing the one with this id.
pub open spec fn spec_remove(v: Seq<FixtureView>, fid: FixtureId) -> Seq<FixtureView> {
    match view_pos(v, fid) {
        Some(i) => v.remove(i),
        None => v,
    }
}

/// The fixtures after replacing the one with this id (removing it, then
/// adding the given one).
pub open spec fn spec_replace(v: Seq<FixtureView>, f: FixtureView) -> Seq<FixtureView> {
    spec_add(spec_remove(v, f.fid), f).1
}

/// The name a fixture is given: the one given, else "New Fixture".
pub open spec fn given_name(name: Option<String>) -> Seq<char> {
    match name {
        Some(n) => n@,
        None => "New Fixture"@,
    }
}

/// What a patch command does: whether it succeeds, the fixtures after it,
/// and how many "patch changed" events it reports (one for itself and one
/// for each patch command it runs in turn).
pub open spec fn patch_outcome(v: Seq<FixtureView>, p: PatchCommand) -> (bool, Seq<FixtureView>, int) {
    match p {
        PatchCommand::AddFixture { fid, fixture_type_id, address, dmx_mode, name } => {
            let r = spec_add(
                v,
                FixtureView { fid, fixture_type_id, address, dmx_mode: dmx_mode@, name: given_name(name) },
            );
            (r.0, r.1, 1)
        },
        PatchCommand::RemoveFixture { fid } => (true, spec_remove(v, fid), 1),
        PatchCommand::ReplaceFixture { fid, fixture_type_id, address, dmx_mode, name } => (
            true,
            spec_replace(
                v,
                FixtureView { fid, fixture_type_id, address, dmx_mode: dmx_mode@, name: given_name(name) },
            ),
            3,
        ),
        PatchCommand::SetName { fid, name } => match view_pos(v, fid) {
            Some(i) => (
                true,
                spec_replace(v, FixtureView { name: name@, ..v[i] }),
                4,
            ),
            None => (true, v, 1),
        },
        PatchCommand::SetAddress { fid, address } => match view_pos(v, fid) {
            Some(i) => (true, spec_replace(v, FixtureView { address, ..v[i] }), 4),
            None => (true, v, 1),
        },
        PatchCommand::SetFixtureId { fid, new_fid } => match view_pos(v, fid) {
            Some(i) => {
                let added = spec_add(v, FixtureView { fid: new_fid, ..v[i] });
                if added.0 {
                    (true, spec_remove(added.1, fid), 3)
                } else {
                    (false, v, 2)
                }
            },
            None => (true, v, 1),
        },
    }
}

/// `n` "patch changed" events.
pub open spec fn patch_events(n: int) -> Seq<EngineEvent> {
    Seq::new(n as nat, |i: int| EngineEvent::PatchChanged)
}

/// The first fixture with an id is the same in the patch and its view.
proof fn lemma_view_pos(s: Seq<PatchedFixture>, fid: FixtureId)
    ensures
        view_pos(patch_view(s), fid) == fixture_pos(s, fid),
{
    let v = patch_view(s);
    assert(forall|j: int| 0 <= j < s.len() ==> #[trigger] v[j].fid == s[j].fid);
    if view_pos(v, fid) is Some {
        let a = choose|i: int|
            0 <= i < v.len() && #[trigger] v[i].fid == fid && forall|j: int|
                0 <= j < i ==> #[trigger] v[j].fid != fid;
        assert forall|j: int| 0 <= j < a implies #[trigger] s[j].fid != fid by {
            assert(v[j].fid == s[j].fid);
        }
        assert(v[a].fid == s[a].fid);
        let b = choose|i: int|
            0 <= i < s.len() && #[trigger] s[i].fid == fid && forall|j: int|
                0 <= j < i ==> #[trigger] s[j].fid != fid;
        if a < b {
            assert(s[a].fid != fid);
        }
        if b < a {
            assert(v[b].fid != fid);
        }
    } else if fixture_pos(s, fid) is Some {
        let b = choose|i: int|
            0 <= i < s.len() && #[trigger] s[i].fid == fid && forall|j: int|
                0 <= j < i ==> #[trigger] s[j].fid != fid;
        assert forall|j: int| 0 <= j < b implies #[trigger] v[j].fid != fid by {
            assert(v[j].fid == s[j].fid);
        }
        assert(v[b].fid == s[b].fid);
    }
}

/// The patch after `console` reported a change.
fn report_patch_change(console: &mut Console)
    ensures
        final(console).events.events() == old(console).events.events().push(EngineEvent::PatchChanged),
        final(console).patch == old(console).patch,
        final(console).programmer == old(console).programmer,
        final(console).objects == old(console).objects,
        final(console).pools == old(console).pools,
{
    console.events.emit_event(EngineEvent::PatchChanged);
}

/// Adds a fixture (reporting the change), unless its id is taken.
fn patch_add(
    console: &mut Console,
    fid: FixtureId,
    fixture_type_id: u128,
    address: DmxAddress,
    dmx_mode: String,
    name: String,
) -> (r: Result<(), ConsoleError>)
    ensures
        ({
            let a = spec_add(
                patch_view(old(console).patch.fixtures()),
                FixtureView { fid, fixture_type_id, address, dmx_mode: dmx_mode@, name: name@ },
            );
            &&& (r is Ok) == a.0
            &&& !a.0 ==> r == Err::<(), ConsoleError>(ConsoleError::FixtureIdTaken)
            &&& patch_view(final(console).patch.fixtures()) == a.1
        }),
        final(console).events.events() == old(console).events.events().push(EngineEvent::PatchChanged),
        final(console).programmer == old(console).programmer,
        final(console).objects == old(console).objects,
        final(console).pools == old(console).pools,
{
    report_patch_change(console);
    let ghost s = console.patch.fixtures();
    let f = PatchedFixture::new(fid, fixture_type_id, address, dmx_mode, name);
    let r = console.patch.add_fixture(f);
    proof {
        lemma_view_pos(s, fid);
        assert(patch_view(s.push(f)) =~= patch_view(s).push(fixture_view(f)));
    }
    r
}

/// Removes the fixture with this id, reporting the change.
fn patch_remove(console: &mut Console, fid: FixtureId)
    ensures
        patch_view(final(console).patch.fixtures()) == spec_remove(patch_view(old(console).patch.fixtures()), fid),
        final(console).events.events() == old(console).events.events().push(EngineEvent::PatchChanged),
        final(console).programmer == old(console).programmer,
        final(console).objects == old(console).objects,
        final(console).pools == old(console).pools,
{
    report_patch_change(console);
    let ghost s = console.patch.fixtures();
    console.patch.remove_fixture(fid);
    proof {
        lemma_view_pos(s, fid);
        if let Some(i) = fixture_pos(s, fid) {
            assert(patch_view(s.remove(i)) =~= patch_view(s).remove(i));
        }
    }
}

/// Replaces the fixture with this id: removes it, then adds the given one,
/// reporting each change.
fn patch_replace(
    console: &mut Console,
    fid: FixtureId,
    fixture_type_id: u128,
    address: DmxAddress,
    dmx_mode: String,
    name: String,
)
    ensures
        patch_view(final(console).patch.fixtures()) == spec_replace(
            patch_view(old(console).patch.fixtures()),
            FixtureView { fid, fixture_type_id, address, dmx_mode: dmx_mode@, name: name@ },
        ),
        final(console).events.events() == old(console).events.events() + patch_events(3),
        final(console).programmer == old(console).programmer,
        final(console).objects == old(console).objects,
        final(console).pools == old(console).pools,
{
    let ghost e0 = console.events.events();
    console.patch.assert_unique();
    proof {
        let s = console.patch.fixtures();
        let v = patch_view(s);
        assert forall|i: int, j: int| 0 <= i < v.len() && 0 <= j < v.len() && i != j implies #[trigger] v[i].fid
            != #[trigger] v[j].fid by {
            assert(s[i].fid != s[j].fid);
        }
        lemma_removed_absent(v, fid);
    }
    report_patch_change(console);
    patch_remove(console, fid);
    let r = patch_add(console, fid, fixture_type_id, address, dmx_mode, name);
    proof {
        assert(console.events.events() =~= e0 + patch_events(3));
    }
}

/// No two fixtures share an id.
pub open spec fn view_fids_unique(v: Seq<FixtureView>) -> bool {
    forall|i: int, j: int| 0 <= i < v.len() && 0 <= j < v.len() && i != j ==> #[trigger] v[i].fid != #[trigger] v[j].fid
}

/// After removing the fixture with an id, where ids are unique, no fixture
/// has it.
pub proof fn lemma_removed_absent(v: Seq<FixtureView>, fid: FixtureId)
    requires
        view_fids_unique(v),
    ensures
        view_pos(spec_remove(v, fid), fid) is None,
{
    let w = spec_remove(v, fid);
    if view_pos(w, fid) is Some {
        let k = choose|i: int|
            0 <= i < w.len() && #[trigger] w[i].fid == fid && forall|j: int|
                0 <= j < i ==> #[trigger] w[j].fid != fid;
        if let Some(i) = view_pos(v, fid) {
            let k2 = if k < i { k } else { k + 1 };
            assert(w[k] == v[k2]);
            assert(v[i].fid == fid);
        } else {
            assert(w[k] == v[k]);
        }
    }
}

impl PatchCommand {
    /// Runs the patch command, reporting each change of the patch.
    pub fn exec(self, console: &mut Console) -> (r: Result<(), ConsoleError>)
        ensures
            ({
                let o = patch_outcome(patch_view(old(console).patch.fixtures()), self);
                &&& (r is Ok) == o.0
                &&& !o.0 ==> r == Err::<(), ConsoleError>(ConsoleError::FixtureIdTaken)
                &&& patch_view(final(console).patch.fixtures()) == o.1
                &&& final(console).events.events() == old(console).events.events() + patch_events(o.2)
            }),
            final(console).programmer == old(console).programmer,
            final(console).objects == old(console).objects,
            final(console).pools == old(console).pools,
    {
        let ghost e0 = console.events.events();
        let ghost v0 = patch_view(console.patch.fixtures());
        let ghost me = self;
        match self {
            PatchCommand::AddFixture { fid, fixture_type_id, address, dmx_mode, name } => {
                let name = match name {
                    Some(n) => n,
                    None => String::from_str("New Fixture"),
                };
                proof {
                    reveal_strlit("New Fixture");
                }
                let r = patch_add(console, fid, fixture_type_id, address, dmx_mode, name);
                assert(console.events.events() =~= e0 + patch_events(1));
                r
            },
            PatchCommand::RemoveFixture { fid } => {
                patch_remove(console, fid);
                assert(console.events.events() =~= e0 + patch_events(1));
                Ok(())
            },
            PatchCommand::ReplaceFixture { fid, fixture_type_id, address, dmx_mode, name } => {
                let name = match name {
                    Some(n) => n,
                    None => String::from_str("New Fixture"),
                };
                proof {
                    reveal_strlit("New Fixture");
                }
                patch_replace(console, fid, fixture_type_id, address, dmx_mode, name);
                Ok(())
            },
            PatchCommand::SetName { fid, name } => {
                report_patch_change(console);
                let found = match console.patch.fixture(fid) {
                    Some(f) => Some((f.fixture_type_id, f.address, f.dmx_mode.clone())),
                    None => None,
                };
                proof {
                    lemma_view_pos(console.patch.fixtures(), fid);
                }
                match found {
                    Some((t, a, m)) => {
                        patch_replace(console, fid, t, a, m, name);
                        assert(console.events.events() =~= e0 + patch_events(4));
                    },
                    None => {
                        assert(console.events.events() =~= e0 + patch_events(1));
                    },
                }
                Ok(())
            },
            PatchCommand::SetAddress { fid, address } => {
                report_patch_change(console);
                let found = match console.patch.fixture(fid) {
                    Some(f) => Some((f.fixture_type_id, f.dmx_mode.clone(), f.name.clone())),
                    None => None,
                };
                proof {
                    lemma_view_pos(console.patch.fixtures(), fid);
                }
                match found {
                    Some((t, m, n)) => {
                        patch_replace(console, fid, t, address, m, n);
                        assert(console.events.events() =~= e0 + patch_events(4));
                    },
                    None => {
                        assert(console.events.events() =~= e0 + patch_events(1));
                    },
                }
                Ok(())
            },
            PatchCommand::SetFixtureId { fid, new_fid } => {
                report_patch_change(console);
                let found = match console.patch.fixture(fid) {
                    Some(f) => Some((f.fixture_type_id, f.address, f.dmx_mode.clone(), f.name.clone())),
                    None => None,
                };
                proof {
                    lemma_view_pos(console.patch.fixtures(), fid);
                }
                match found {
                    Some((t, a, m, n)) => {
                        let r = patch_add(console, new_fid, t, a, m, n);
                        match r {
                            Ok(()) => {
                                patch_remove(console, fid);
                                assert(console.events.events() =~= e0 + patch_events(3));
                                Ok(())
                            },
                            Err(e) => {
                                assert(console.events.events() =~= e0 + patch_events(2));
                                Err(e)
                            },
                        }
                    },
                    None => {
                        assert(console.events.events() =~= e0 + patch_events(1));
                        Ok(())
                    },
                }
            },
        }
    }
}

/// The name an object is given: the one given, else "New Object".
pub open spec fn object_name(name: Option<String>) -> Seq<char> {
    match name {
        Some(n) => n@,
        None => "New Object"@,
    }
}

impl ObjectReference {
    /// The id of the object: the one in the pool slot, or the id itself.
    pub fn object_id(&self, console: &Console) -> (r: Result<ObjectId, ConsoleError>)
        ensures
            match *self {
                ObjectReference::PoolItem(kind, pool_id) => match slot_pos(console.pools@, kind, pool_id) {
                    Some(i) => r == Ok::<ObjectId, ConsoleError>(console.pools@[i].2),
                    None => r == Err::<ObjectId, ConsoleError>(ConsoleError::ObjectNotFound),
                },
                ObjectReference::ObjectId(id) => r == Ok::<ObjectId, ConsoleError>(id),
            },
    {
        match self {
            ObjectReference::PoolItem(kind, pool_id) => match console.pool_get(*kind, *pool_id) {
                Some(id) => Ok(id),
                None => Err(ConsoleError::ObjectNotFound),
            },
            ObjectReference::ObjectId(id) => Ok(*id),
        }
    }
}

/// What a command does to the console, `r` being its result.
pub open spec fn command_effect(pre: Console, post: Console, c: Command, r: Result<(), ConsoleError>) -> bool {
    match c {
        Command::Patch(p) => {
            let o = patch_outcome(patch_view(pre.patch.fixtures()), p);
            &&& (r is Ok) == o.0
            &&& !o.0 ==> r == Err::<(), ConsoleError>(ConsoleError::FixtureIdTaken)
            &&& patch_view(post.patch.fixtures()) == o.1
            &&& post.events.events() == pre.events.events() + patch_events(o.2)
            &&& post.programmer == pre.programmer
            &&& post.objects == pre.objects
            &&& post.pools == pre.pools
        },
        Command::Select { fid } => {
            &&& r is Ok
            &&& post.programmer.selection@ == select_one(pre.programmer.selection@, fid)
            &&& post.programmer.values == pre.programmer.values
            &&& post.patch == pre.patch && post.objects == pre.objects && post.pools == pre.pools
            &&& post.events == pre.events
        },
        Command::Clear { mode } => {
            let m = match mode {
                Some(m) => m,
                None => ClearMode::Progressive,
            };
            let sel = pre.programmer.selection@.len() > 0;
            let clears_selection = m is ProgrammerSelection || m is All || (m is Progressive && sel);
            let clears_values = m is ProgrammerValues || m is All || (m is Progressive && !sel
                && pre.programmer.values.pairs().len() > 0);
            &&& r is Ok
            &&& if clears_selection {
                post.programmer.selection@.len() == 0
            } else {
                post.programmer.selection == pre.programmer.selection
            }
            &&& if clears_values {
                post.programmer.values.pairs().len() == 0
            } else {
                post.programmer.values == pre.programmer.values
            }
            &&& post.patch == pre.patch && post.objects == pre.objects && post.pools == pre.pools
            &&& post.events == pre.events
        },
        Command::ProgrammerSetValue { fid, attribute, value } => {
            &&& r is Ok
            &&& post.programmer.values.map() == pre.programmer.values.map().insert((fid, attribute@), value)
            &&& post.programmer.selection == pre.programmer.selection
            &&& post.patch == pre.patch && post.objects == pre.objects && post.pools == pre.pools
            &&& post.events == pre.events
        },
        Command::Create { kind, pool_id, name } => {
            &&& r is Ok
            &&& exists|o: ConsoleObject|
                o.kind == kind && o.name@ == object_name(name) && post.objects@ == objects_put(pre.objects@, o)
                    && post.pools@ == slot_put(pre.pools@, kind, pool_id, o.id)
            &&& post.patch == pre.patch && post.programmer == pre.programmer
            &&& post.events == pre.events
        },
        Command::Remove { object_ref } => {
            &&& match object_ref {
                ObjectReference::PoolItem(kind, pool_id) => match slot_pos(pre.pools@, kind, pool_id) {
                    Some(i) => r is Ok && post.objects@ == objects_take(pre.objects@, pre.pools@[i].2),
                    None => r == Err::<(), ConsoleError>(ConsoleError::ObjectNotFound) && post.objects
                        == pre.objects,
                },
                ObjectReference::ObjectId(id) => r is Ok && post.objects@ == objects_take(pre.objects@, id),
            }
            &&& post.patch == pre.patch && post.programmer == pre.programmer && post.pools == pre.pools
            &&& post.events == pre.events
        },
    }
}

impl Command {
    /// Runs the command against the console.
    pub fn exec(self, console: &mut Console) -> (r: Result<(), ConsoleError>)
        ensures
            command_effect(*old(console), *final(console), self, r),
    {
        match self {
            Command::Patch(p) => p.exec(console),
            Command::Select { fid } => {
                console.programmer.select(fid);
                Ok(())
            },
            Command::Clear { mode } => {
                let mode = match mode {
                    Some(m) => m,
                    None => ClearMode::default_mode(),
                };
                match mode {
                    ClearMode::ProgrammerSelection => console.programmer.clear_selection(),
                    ClearMode::ProgrammerValues => console.programmer.clear_values(),
                    ClearMode::Progressive => {
                        if console.programmer.has_selection() {
                            console.programmer.clear_selection();
                        } else if console.programmer.has_values() {
                            console.programmer.clear_values();
                        }
                    },
                    ClearMode::All => {
                        console.programmer.clear_selection();
                        console.programmer.clear_values();
                    },
                }
                Ok(())
            },
            Command::ProgrammerSetValue { fid, attribute, value } => {
                console.programmer.set_value(fid, attribute, value);
                Ok(())
            },
            Command::Create { kind, pool_id, name } => {
                let name = match name {
                    Some(n) => n,
                    None => String::from_str("New Object"),
                };
                proof {
                    reveal_strlit("New Object");
                }
                let o = ConsoleObject { id: ObjectId::new(), kind, name };
                let id = o.id;
                let ghost og = o;
                console.put_object(o);
                console.pool_put(kind, pool_id, id);
                assert(og.kind == kind && og.name@ == object_name(name_of(self)) && console.objects@
                    == objects_put(old(console).objects@, og));
                Ok(())
            },
            Command::Remove { object_ref } => {
                let id = object_ref.object_id(console)?;
                console.take_object(id);
                Ok(())
            },
        }
    }
}

/// The name a create command gives, if any.
pub open spec fn name_of(c: Command) -> Option<String> {
    match c {
        Command::Create { name, .. } => name,
        _ => None,
    }
}

/// A hexadecimal digit, lower case.
pub open spec fn hex_digit(d: int) -> char {
    if d < 10 {
        (48 + d) as char
    } else {
        (87 + d) as char
    }
}

/// The `k`th hexadecimal digit (from the most significant) of a 128-bit id.
pub open spec fn id_nibble(x: u128, k: int) -> int {
    (x as int / vstd::arithmetic::power2::pow2((4 * (31 - k)) as nat) as int) % 16
}

/// An id written as a hyphenated UUID: 32 lower-case hexadecimal digits,
/// most significant first, in groups of 8, 4, 4, 4 and 12.
pub open spec fn uuid_text(x: u128) -> Seq<char> {
    Seq::new(
        36,
        |i: int|
            if i == 8 || i == 13 || i == 18 || i == 23 {
                '-'
            } else {
                hex_digit(
                    id_nibble(
                        x,
                        i - (if i > 23 {
                            4int
                        } else if i > 18 {
                            3int
                        } else if i > 13 {
                            2int
                        } else if i > 8 {
                            1int
                        } else {
                            0int
                        }),
                    ),
                )
            },
    )
}

/// Calls `uuid::Uuid::from_u128(x).to_string()`: the id as a hyphenated
/// UUID. The uuid crate writes the id's sixteen big-endian bytes as lower-case
/// hexadecimal digit pairs with hyphens after the 4th, 6th, 8th and 10th
/// byte, which the contract states as [uuid_text].
#[verifier::external_body]
fn uuid_to_text(x: u128) -> (r: String)
    ensures
        r@ == uuid_text(x),
{
    uuid::Uuid::from_u128(x).to_string()
}

/// A DMX address written as `universe.channel`.
pub open spec fn address_text(a: DmxAddress) -> Seq<char> {
    dec32(a.universe as u32) + seq!['.'] + dec32(a.channel as u32)
}

/// The reference written as the pool slot (kind and number) or the id.
pub open spec fn reference_text(r: ObjectReference) -> Seq<char> {
    match r {
        ObjectReference::PoolItem(kind, pool_id) => kind.name() + seq![' '] + dec32(pool_id.value()),
        ObjectReference::ObjectId(id) => uuid_text(id.0),
    }
}

/// An optional argument, written `name=value` where given.
pub open spec fn optional_part(name: Seq<char>, value: Option<Seq<char>>) -> Seq<Seq<char>> {
    match value {
        Some(v) => seq![name + seq!['='] + v],
        None => Seq::empty(),
    }
}

/// The view of an optional string.
pub open spec fn opt_text(s: Option<String>) -> Option<Seq<char>> {
    match s {
        Some(x) => Some(x@),
        None => None,
    }
}

/// The words of a command: its keyword and its arguments.
pub open spec fn command_words(c: Command, value_text: Seq<char>) -> Seq<Seq<char>> {
    match c {
        Command::Patch(PatchCommand::AddFixture { fid, fixture_type_id, address, dmx_mode, name }) =>
            seq!["patch_fixture"@, dec32(fid.0), uuid_text(fixture_type_id), address_text(address), dmx_mode@]
            + optional_part("name"@, opt_text(name)),
        Command::Patch(PatchCommand::RemoveFixture { fid }) => seq!["patch_remove_fixture"@, dec32(fid.0)],
        Command::Patch(PatchCommand::ReplaceFixture { fid, fixture_type_id, address, dmx_mode, name }) =>
            seq!["patch_replace_fixture"@, dec32(fid.0), uuid_text(fixture_type_id), address_text(address), dmx_mode@]
            + optional_part("name"@, opt_text(name)),
        Command::Patch(PatchCommand::SetName { fid, name }) => seq!["patch_set_name"@, dec32(fid.0), name@],
        Command::Patch(PatchCommand::SetFixtureId { fid, new_fid }) => seq![
            "patch_set_address"@,
            dec32(fid.0),
            dec32(new_fid.0),
        ],
        Command::Patch(PatchCommand::SetAddress { fid, address }) => seq![
            "patch_set_address"@,
            dec32(fid.0),
            address_text(address),
        ],
        Command::Select { fid } => seq!["select"@, dec32(fid.0)],
        Command::Clear { mode } => seq!["clear"@] + optional_part(
            "mode"@,
            match mode {
                Some(m) => Some(m.name()),
                None => None,
            },
        ),
        Command::ProgrammerSetValue { fid, attribute, value } => seq![
            "programmer_set_value"@,
            dec32(fid.0),
            attribute@.name(),
            value_text,
        ],
        Command::Create { kind, pool_id, name } => seq!["create"@, kind.name(), dec32(pool_id.value())]
            + optional_part("name"@, opt_text(name)),
        Command::Remove { object_ref } => seq!["remove"@, reference_text(object_ref)],
    }
}

/// The texts of strings.
pub open spec fn words_view(v: Seq<String>) -> Seq<Seq<char>> {
    v.map_values(|w: String| w@)
}

/// Words joined by single spaces.
pub open spec fn join_words(w: Seq<Seq<char>>) -> Seq<char>
    decreases w.len(),
{
    if w.len() == 0 {
        Seq::empty()
    } else if w.len() == 1 {
        w[0]
    } else {
        join_words(w.drop_last()) + seq![' '] + w.last()
    }
}

/// Appends a word.
fn push_word(words: &mut Vec<String>, w: String)
    ensures
        words_view(final(words)@) == words_view(old(words)@).push(w@),
{
    let ghost t = w@;
    words.push(w);
    assert(words_view(words@) =~= words_view(old(words)@).push(t));
}

proof fn lemma_words(a: Seq<String>, b: Seq<Seq<char>>)
    requires
        words_view(a) =~= b,
    ensures
        words_view(a) == b,
{
}

/// Words joined by single spaces.
fn join(words: &Vec<String>) -> (r: String)
    ensures
        r@ == join_words(words_view(words@)),
{
    let mut s = String::new();
    let n = words.len();
    let ghost ws = words_view(words@);
    for i in 0..n
        invariant
            n == words@.len(),
            ws == words_view(words@),
            s@ == join_words(ws.subrange(0, i as int)),
    {
        if i > 0 {
            s.append(" ");
        }
        s.append(words[i].as_str());
        proof {
            reveal_strlit(" ");
            assert(ws.subrange(0, i + 1).drop_last() =~= ws.subrange(0, i as int));
            assert(ws.subrange(0, i + 1).last() == words@[i as int]@);
        }
    }
    assert(ws.subrange(0, n as int) =~= ws);
    s
}

/// The decimal text of a number.
fn number_text(n: u32) -> (r: String)
    ensures
        r@ == dec32(n),
{
    let mut s = String::new();
    push_u32(&mut s, n);
    assert(s@ =~= dec32(n));
    s
}

/// A DMX address written as `universe.channel`.
fn address_to_text(a: &DmxAddress) -> (r: String)
    ensures
        r@ == address_text(*a),
{
    let mut s = String::new();
    push_u32(&mut s, a.universe as u32);
    s.append(".");
    push_u32(&mut s, a.channel as u32);
    proof {
        reveal_strlit(".");
    }
    assert(s@ =~= address_text(*a));
    s
}

/// Appends `name=value` where a value is given.
fn push_optional(words: &mut Vec<String>, name: &str, value: Option<&String>)
    ensures
        words_view(final(words)@) == words_view(old(words)@) + optional_part(
            name@,
            match value {
                Some(v) => Some(v@),
                None => None,
            },
        ),
{
    match value {
        Some(v) => {
            let mut s = String::from_str(name);
            s.append("=");
            s.append(v.as_str());
            proof {
                reveal_strlit("=");
            }
            let ghost t = s@;
            assert(t =~= name@ + seq!['='] + v@);
            words.push(s);
            assert(words_view(words@) =~= words_view(old(words)@).push(t));
            assert(words_view(words@) =~= words_view(old(words)@) + optional_part(
                name@,
                Some(v@),
            ));
        },
        None => {
            assert(words_view(words@) =~= words_view(old(words)@) + Seq::<Seq<char>>::empty());
        },
    }
}

impl Command {
    /// The command as it is written: its keyword and arguments joined by
    /// spaces. `value_text` is the text of the attribute value of a command
    /// that sets one (values are floating point and written by the caller).
    pub fn to_text(&self, value_text: &str) -> (r: String)
        ensures
            r@ == join_words(command_words(*self, value_text@)),
    {
        let mut words: Vec<String> = Vec::new();
        match self {
            Command::Patch(PatchCommand::AddFixture { fid, fixture_type_id, address, dmx_mode, name })
            | Command::Patch(PatchCommand::ReplaceFixture { fid, fixture_type_id, address, dmx_mode, name }) => {
                let kw = match self {
                    Command::Patch(PatchCommand::AddFixture { .. }) => "patch_fixture",
                    _ => "patch_replace_fixture",
                };
                push_word(&mut words, String::from_str(kw));
                push_word(&mut words, number_text(fid.0));
                push_word(&mut words, uuid_to_text(*fixture_type_id));
                push_word(&mut words, address_to_text(address));
                push_word(&mut words, dmx_mode.clone());
                push_optional(&mut words, "name", name.as_ref());
                assert(words_view(words@) =~= command_words(*self, value_text@));
            },
            Command::Patch(PatchCommand::RemoveFixture { fid }) => {
                push_word(&mut words, String::from_str("patch_remove_fixture"));
                push_word(&mut words, number_text(fid.0));
                assert(words_view(words@) =~= command_words(*self, value_text@));
            },
            Command::Patch(PatchCommand::SetName { fid, name }) => {
                push_word(&mut words, String::from_str("patch_set_name"));
                push_word(&mut words, number_text(fid.0));
                push_word(&mut words, name.clone());
                assert(words_view(words@) =~= command_words(*self, value_text@));
            },
            Command::Patch(PatchCommand::SetFixtureId { fid, new_fid }) => {
                push_word(&mut words, String::from_str("patch_set_address"));
                push_word(&mut words, number_text(fid.0));
                push_word(&mut words, number_text(new_fid.0));
                assert(words_view(words@) =~= command_words(*self, value_text@));
            },
            Command::Patch(PatchCommand::SetAddress { fid, address }) => {
                push_word(&mut words, String::from_str("patch_set_address"));
                push_word(&mut words, number_text(fid.0));
                push_word(&mut words, address_to_text(address));
                assert(words_view(words@) =~= command_words(*self, value_text@));
            },
            Command::Select { fid } => {
                push_word(&mut words, String::from_str("select"));
                push_word(&mut words, number_text(fid.0));
                assert(words_view(words@) =~= command_words(*self, value_text@));
            },
            Command::Clear { mode } => {
                push_word(&mut words, String::from_str("clear"));
                let m = match mode {
                    Some(m) => Some(m.to_text()),
                    None => None,
                };
                push_optional(&mut words, "mode", m.as_ref());
                assert(words_view(words@) =~= command_words(*self, value_text@));
            },
            Command::ProgrammerSetValue { fid, attribute, value: _ } => {
                push_word(&mut words, String::from_str("programmer_set_value"));
                push_word(&mut words, number_text(fid.0));
                push_word(&mut words, attribute.to_string());
                push_word(&mut words, String::from_str(value_text));
                assert(words_view(words@) =~= command_words(*self, value_text@));
            },
            Command::Create { kind, pool_id, name } => {
                push_word(&mut words, String::from_str("create"));
                push_word(&mut words, kind.to_text());
                push_word(&mut words, number_text(pool_id.get()));
                push_optional(&mut words, "name", name.as_ref());
                assert(words_view(words@) =~= command_words(*self, value_text@));
            },
            Command::Remove { object_ref } => {
                push_word(&mut words, String::from_str("remove"));
                match object_ref {
                    ObjectReference::PoolItem(kind, pool_id) => {
                        let mut t = kind.to_text();
                        t.append(" ");
                        push_u32(&mut t, pool_id.get());
                        proof {
                            reveal_strlit(" ");
                        }
                        assert(t@ =~= kind.name() + seq![' '] + dec32(pool_id.value()));
                        push_word(&mut words, t);
                    },
                    ObjectReference::ObjectId(id) => {
                        push_word(&mut words, uuid_to_text(id.0));
                    },
                }
                assert(words_view(words@) =~= command_words(*self, value_text@));
            },
        }
        proof {
            lemma_words(words@, command_words(*self, value_text@));
        }
        join(&words)
    }
}

} // verus!
