//! The engine: it runs commands against the show and keeps the history of the
//! commands it ran.
use vstd::prelude::*;

use crate::attr::{Attribute, AttributeView};
use crate::command::{Command, Selection};
use crate::event::{EngineEvent, EventHandler};
use crate::object::{
    copy_fids, find_id, find_ref, preset_fixture_ids, preset_object, preset_of, renamed_object,
    AnyObject, Group, ObjectContainer, ObjectId, ObjectKind, ObjectReference, Preset,
    PresetContent, UniversalPreset,
};
use crate::patch::{AttributeValue, Fixture, FixtureId, Patch};
use crate::programmer::Programmer;
use crate::show::{select_all, Show};
use crate::values::entries_map;

verus! {

/// Every patched fixture's type and DMX mode can be found in the patch.
pub open spec fn patch_resolves(p: Patch) -> bool {
    forall|i: int| 0 <= i < p.fixtures@.len() ==> p.resolves(#[trigger] p.fixtures@[i])
}

/// The fixtures an object stands for: a group's fixtures, or those a
/// preset's content applies to; none where the reference finds no object.
pub open spec fn object_fids(show: Show, r: ObjectReference) -> Seq<FixtureId> {
    match find_ref(show.objects.objects(), r) {
        Some(i) => match show.objects.objects()[i] {
            AnyObject::Group(g) => g.fids@,
            o => match preset_of(o) {
                Some(p) => preset_fixture_ids(p.content, show.patch),
                None => Seq::empty(),
            },
        },
        None => Seq::empty(),
    }
}

/// The fixtures a selection stands for, in order.
pub open spec fn selected_fids(show: Show, sel: Selection) -> Seq<FixtureId> {
    match sel {
        Selection::FixtureId(f) => seq![f],
        Selection::Object(r) => object_fids(show, r),
        Selection::All => show.patch.fixtures@.map_values(|f: Fixture| f.id),
        Selection::Nothing => Seq::empty(),
    }
}

/// The object kinds the engine cannot select, store or recall yet.
pub open spec fn unsupported_kind(k: ObjectKind) -> bool {
    k is Executor || k is Sequence
}

/// The preset a reference finds, where it finds one.
pub open spec fn referred_preset(show: Show, r: ObjectReference) -> Option<Preset> {
    match find_ref(show.objects.objects(), r) {
        Some(i) => preset_of(show.objects.objects()[i]),
        None => None,
    }
}

/// Selecting `sel` is supported, and the patch can answer what it needs
/// (a preset of universal content looks up the attributes of every
/// fixture's DMX mode).
pub open spec fn select_supported(show: Show, sel: Selection) -> bool {
    match sel {
        Selection::Object(r) => !unsupported_kind(r.kind) && (referred_preset(show, r) matches Some(p)
            && p.content is Universal ==> patch_resolves(show.patch)),
        _ => true,
    }
}

/// The engine can run the command: it is not one of those it has no
/// behaviour for yet (updating, going, and selecting, storing or recalling
/// executors and sequences).
pub open spec fn command_supported(show: Show, c: Command) -> bool {
    match c {
        Command::Select { selection } => select_supported(show, selection),
        Command::Store { destination } => !unsupported_kind(destination.kind),
        Command::Update { .. } => false,
        Command::Go { .. } => false,
        Command::Recall { object } => select_supported(show, Selection::Object(object)),
        _ => true,
    }
}

/// The id of the object a reference finds.
pub open spec fn referred_id(show: Show, r: ObjectReference) -> Option<ObjectId> {
    match find_ref(show.objects.objects(), r) {
        Some(i) => Some(show.objects.objects()[i].obj_id()),
        None => None,
    }
}

/// The programmer's values after setting each attribute command in turn.
pub open spec fn apply_sets(m: Map<(FixtureId, AttributeView), AttributeValue>, cmds: Seq<Command>) -> Map<
    (FixtureId, AttributeView),
    AttributeValue,
>
    decreases cmds.len(),
{
    if cmds.len() == 0 {
        m
    } else {
        let prev = apply_sets(m, cmds.drop_last());
        match cmds.last() {
            Command::SetAttribute { fid, attribute, value } => prev.insert((fid, attribute@), value),
            _ => prev,
        }
    }
}

/// The commands that set, on fixture `fid`, the values of a preset's
/// entries from the first `n`.
pub open spec fn entry_cmds(content: PresetContent, patch: Patch, fid: FixtureId, n: int) -> Seq<
    Command,
>
    decreases n,
{
    if n <= 0 {
        Seq::empty()
    } else {
        let prev = entry_cmds(content, patch, fid, n - 1);
        let j = n - 1;
        match content {
            PresetContent::Universal(u) => {
                let e = u.values.pairs()[j];
                prev.push(Command::SetAttribute { fid, attribute: e.0, value: e.1 })
            },
            PresetContent::Global(g) => {
                let e = g.values.pairs()[j];
                match patch.spec_fixture(fid) {
                    Some(f) => if f.fixture_type_id == e.0.0 {
                        prev.push(Command::SetAttribute { fid, attribute: e.0.1, value: e.1 })
                    } else {
                        prev
                    },
                    None => prev,
                }
            },
            PresetContent::Selective(s) => {
                let e = s.values.pairs()[j];
                if e.0.0 == fid {
                    prev.push(Command::SetAttribute { fid, attribute: e.0.1, value: e.1 })
                } else {
                    prev
                }
            },
        }
    }
}

/// The number of entries of a preset's content.
pub open spec fn entry_count(content: PresetContent) -> int {
    match content {
        PresetContent::Universal(u) => u.values.pairs().len() as int,
        PresetContent::Global(g) => g.values.pairs().len() as int,
        PresetContent::Selective(s) => s.values.pairs().len() as int,
    }
}

/// The commands that recall a preset's content onto fixtures: for each
/// fixture in turn, the values of the entries that apply to it.
pub open spec fn recall_cmds(content: PresetContent, patch: Patch, fids: Seq<FixtureId>) -> Seq<
    Command,
>
    decreases fids.len(),
{
    if fids.len() == 0 {
        Seq::empty()
    } else {
        recall_cmds(content, patch, fids.drop_last()) + entry_cmds(
            content,
            patch,
            fids.last(),
            entry_count(content),
        )
    }
}

/// The programmer's values stored into universal content.
pub open spec fn stored_universal(
    m: Map<AttributeView, AttributeValue>,
    vals: Seq<((FixtureId, Attribute), AttributeValue)>,
) -> Map<AttributeView, AttributeValue>
    decreases vals.len(),
{
    if vals.len() == 0 {
        m
    } else {
        stored_universal(m, vals.drop_last()).insert(vals.last().0.1@, vals.last().1)
    }
}

/// The programmer's values stored into global content: by the type of each
/// value's fixture, where the patch has the fixture.
pub open spec fn stored_global(
    m: Map<(u128, AttributeView), AttributeValue>,
    patch: Patch,
    vals: Seq<((FixtureId, Attribute), AttributeValue)>,
) -> Map<(u128, AttributeView), AttributeValue>
    decreases vals.len(),
{
    if vals.len() == 0 {
        m
    } else {
        let prev = stored_global(m, patch, vals.drop_last());
        match patch.spec_fixture(vals.last().0.0) {
            Some(f) => prev.insert((f.fixture_type_id, vals.last().0.1@), vals.last().1),
            None => prev,
        }
    }
}

/// The programmer's values stored into selective content.
pub open spec fn stored_selective(
    m: Map<(FixtureId, AttributeView), AttributeValue>,
    vals: Seq<((FixtureId, Attribute), AttributeValue)>,
) -> Map<(FixtureId, AttributeView), AttributeValue>
    decreases vals.len(),
{
    if vals.len() == 0 {
        m
    } else {
        stored_selective(m, vals.drop_last()).insert((vals.last().0.0, vals.last().0.1@), vals.last().1)
    }
}

/// `new` is `old` with the values stored into it: same kind, and the values
/// laid over the old ones in order.
pub open spec fn content_stored(
    old: PresetContent,
    new: PresetContent,
    patch: Patch,
    vals: Seq<((FixtureId, Attribute), AttributeValue)>,
) -> bool {
    match (old, new) {
        (PresetContent::Universal(o), PresetContent::Universal(n)) => n.values.map()
            == stored_universal(o.values.map(), vals),
        (PresetContent::Global(o), PresetContent::Global(n)) => n.values.map() == stored_global(
            o.values.map(),
            patch,
            vals,
        ),
        (PresetContent::Selective(o), PresetContent::Selective(n)) => n.values.map()
            == stored_selective(o.values.map(), vals),
        _ => false,
    }
}

/// `o` is the preset object `kind` and `p` describe, with `content` in place
/// of the preset's content.
pub open spec fn with_content(kind: ObjectKind, p: Preset, content: PresetContent) -> AnyObject {
    preset_object(kind, Preset { name: p.name, id: p.id, pool_id: p.pool_id, content })
}

impl ObjectReference {
    /// The id of the object this reference finds in the show, if any.
    pub fn object_id(&self, show: &Show) -> (r: Option<ObjectId>)
        ensures
            r == referred_id(*show, *self),
    {
        proof {
            crate::object::lemma_find_ref_some(show.objects.objects(), *self);
        }
        match show.objects.position_of_ref(self) {
            Some(i) => Some(show.objects.at(i).id()),
            None => None,
        }
    }
}

/// What the engine asks its caller to do after a command.
#[derive(Debug, Clone, Copy, PartialEq, Eq, Structural)]
pub enum ExecAction {
    /// Nothing: the command has been carried out.
    Done,
    /// Write the show to its file, then report success with
    /// [Engine::finish_save].
    SaveShow,
}

/// The engine of a console.
#[derive(Debug)]
pub struct Engine {
    pub show: Show,
    pub events: EventHandler,
    pub history: Vec<Command>,
    pub is_running: bool,
}

impl Engine {
    /// An engine for the given show, not running yet, with no history.
    pub fn new(show: Show) -> (r: Engine)
        ensures
            r.show == show,
            r.events.events().len() == 0,
            r.history@.len() == 0,
            !r.is_running,
    {
        Engine { show, events: EventHandler::new(), history: Vec::new(), is_running: false }
    }

    /// Marks the engine as running. Returns whether it was not running
    /// before, that is, whether its processing is to be started now.
    pub fn start(&mut self) -> (r: bool)
        ensures
            r == !old(self).is_running,
            final(self).is_running,
            final(self).show == old(self).show,
            final(self).history == old(self).history,
            final(self).events == old(self).events,
    {
        if self.is_running {
            return false;
        }
        self.is_running = true;
        true
    }

    /// The commands run so far, oldest first.
    pub fn command_history(&self) -> (r: &[Command])
        ensures
            r@ == self.history@,
    {
        self.history.as_slice()
    }

    /// A copy of the pending events, oldest first.
    pub fn pending_events(&self) -> (r: Vec<EngineEvent>)
        ensures
            r@ == self.events.events(),
    {
        self.events.pending_events()
    }

    /// Takes out the pending events, oldest first.
    pub fn drain_pending_events(&mut self) -> (r: Vec<EngineEvent>)
        ensures
            r@ == old(self).events.events(),
            final(self).events.events().len() == 0,
            final(self).show == old(self).show,
            final(self).history == old(self).history,
            final(self).is_running == old(self).is_running,
    {
        self.events.drain_pending_events()
    }

    /// The show.
    pub fn show(&self) -> (r: &Show)
        ensures
            *r == self.show,
    {
        &self.show
    }

    /// Records a save of the show, after the caller wrote it.
    pub fn finish_save(&mut self)
        ensures
            final(self).history@ == old(self).history@.push(Command::Save),
            final(self).show == old(self).show,
            final(self).events == old(self).events,
            final(self).is_running == old(self).is_running,
    {
        self.history.push(Command::Save);
    }

    /// The fixtures an object stands for.
    fn object_fids(&self, r: &ObjectReference) -> (fids: Vec<FixtureId>)
        requires
            select_supported(self.show, Selection::Object(*r)),
        ensures
            fids@ == object_fids(self.show, *r),
    {
        match self.show.objects.position_of_ref(r) {
            None => Vec::new(),
            Some(i) => match self.show.objects.at(i) {
                AnyObject::Group(g) => copy_fids(g.fids.as_slice()),
                o => match o.as_preset() {
                    Some(p) => {
                        assert(r.kind.is_preset()) by {
                            assert(o.obj_kind() == r.kind);
                        }
                        p.fixture_ids(&self.show.patch)
                    },
                    None => Vec::new(),
                },
            },
        }
    }

    /// The ids of all patched fixtures, in order.
    fn all_fids(&self) -> (fids: Vec<FixtureId>)
        ensures
            fids@ == self.show.patch.fixtures@.map_values(|f: Fixture| f.id),
    {
        let fixtures = self.show.patch.fixtures();
        let mut fids: Vec<FixtureId> = Vec::new();
        let n = fixtures.len();
        for i in 0..n
            invariant
                n == fixtures@.len(),
                fixtures@ == self.show.patch.fixtures@,
                fids@ == fixtures@.subrange(0, i as int).map_values(|f: Fixture| f.id),
        {
            fids.push(fixtures[i].id);
            assert(fids@ =~= fixtures@.subrange(0, i + 1).map_values(|f: Fixture| f.id));
        }
        assert(fixtures@.subrange(0, n as int) =~= fixtures@);
        fids
    }

    /// Selects the fixtures a selection stands for and reports the change.
    fn select(&mut self, selection: Selection)
        requires
            select_supported(old(self).show, selection),
        ensures
            final(self).show.selection@ == select_all(
                old(self).show.selection@,
                selected_fids(old(self).show, selection),
            ),
            final(self).show.objects == old(self).show.objects,
            final(self).show.programmer == old(self).show.programmer,
            final(self).show.patch == old(self).show.patch,
            final(self).events.events() == old(self).events.events().push(
                EngineEvent::SelectionChanged,
            ),
            final(self).history == old(self).history,
            final(self).is_running == old(self).is_running,
    {
        let fids = match selection {
            Selection::FixtureId(f) => {
                let mut v: Vec<FixtureId> = Vec::new();
                v.push(f);
                assert(v@ =~= seq![f]);
                v
            },
            Selection::Object(r) => self.object_fids(&r),
            Selection::All => self.all_fids(),
            Selection::Nothing => Vec::new(),
        };
        self.show.select_fixtures(fids.as_slice());
        self.events.emit_event(EngineEvent::SelectionChanged);
    }

    /// Clears the selection where there is one, else the programmer's values.
    fn clear(&mut self)
        ensures
            old(self).show.selection@.len() > 0 ==> {
                &&& final(self).show.selection@.len() == 0
                &&& final(self).show.programmer == old(self).show.programmer
                &&& final(self).events.events() == old(self).events.events().push(
                    EngineEvent::SelectionChanged,
                )
            },
            old(self).show.selection@.len() == 0 ==> {
                &&& final(self).show.selection@ == old(self).show.selection@
                &&& final(self).show.programmer.pairs().len() == 0
                &&& final(self).events == old(self).events
            },
            final(self).show.objects == old(self).show.objects,
            final(self).show.patch == old(self).show.patch,
            final(self).history == old(self).history,
            final(self).is_running == old(self).is_running,
    {
        if self.show.selection.len() > 0 {
            self.show.clear_selected_fixtures();
            self.events.emit_event(EngineEvent::SelectionChanged);
        } else if !self.show.programmer.is_empty() {
            self.show.programmer.clear();
        }
    }

    /// Stores the selection into the group in the given pool slot, creating
    /// the group (named "New Group") where the slot is empty.
    fn store_group(&mut self, r: ObjectReference)
        requires
            r.kind is Group,
        ensures
            match find_ref(old(self).show.objects.objects(), r) {
                Some(i) => match old(self).show.objects.objects()[i] {
                    AnyObject::Group(g) => exists|fv: Vec<FixtureId>|
                        fv@ == old(self).show.selection@ && final(self).show.objects.objects()
                            == old(self).show.objects.objects().update(
                            i,
                            AnyObject::Group(
                                Group { name: g.name, id: g.id, pool_id: g.pool_id, fids: fv },
                            ),
                        ),
                    _ => false,
                },
                None => exists|g: Group|
                    g.name@ == "New Group"@ && g.pool_id == r.pool_id && g.fids@
                        == old(self).show.selection@ && final(self).show.objects.objects() == (
                    match find_id(old(self).show.objects.objects(), g.id) {
                        Some(k) => old(self).show.objects.objects().update(k, AnyObject::Group(g)),
                        None => old(self).show.objects.objects().push(AnyObject::Group(g)),
                    }),
            },
            final(self).show.selection == old(self).show.selection,
            final(self).show.programmer == old(self).show.programmer,
            final(self).show.patch == old(self).show.patch,
            final(self).events == old(self).events,
            final(self).history == old(self).history,
            final(self).is_running == old(self).is_running,
    {
        let fids = copy_fids(self.show.selection.as_slice());
        let ghost objs = self.show.objects.objects();
        let ghost sel = self.show.selection@;
        match self.show.objects.position_of_ref(&r) {
            Some(i) => {
                let g = match self.show.objects.at(i) {
                    AnyObject::Group(g) => Group {
                        name: g.name.clone(),
                        id: g.id,
                        pool_id: g.pool_id,
                        fids,
                    },
                    o => {
                        assert(o.obj_kind() == r.kind);
                        return ;
                    },
                };
                let ghost fv = g.fids;
                self.show.objects.replace(i, AnyObject::Group(g));
                proof {
                    let g0 = match objs[i as int] {
                        AnyObject::Group(x) => x,
                        _ => g,
                    };
                    assert(g == Group { name: g0.name, id: g0.id, pool_id: g0.pool_id, fids: fv });
                    assert(fv@ == sel && self.show.objects.objects() == objs.update(
                        i as int,
                        AnyObject::Group(Group { name: g0.name, id: g0.id, pool_id: g0.pool_id, fids: fv }),
                    ));
                }
            },
            None => {
                let g = Group {
                    name: String::from_str("New Group"),
                    id: ObjectId::new(),
                    pool_id: r.pool_id,
                    fids,
                };
                proof {
                    reveal_strlit("New Group");
                }
                let ghost gg = g;
                self.show.objects.insert(AnyObject::Group(g));
                proof {
                    assert(gg.name@ == "New Group"@ && gg.pool_id == r.pool_id && gg.fids@ == sel
                        && self.show.objects.objects() == (match find_id(objs, gg.id) {
                        Some(k) => objs.update(k, AnyObject::Group(gg)),
                        None => objs.push(AnyObject::Group(gg)),
                    }));
                }
            },
        }
    }

    /// Stores the programmer's values into content, in order.
    fn store_values(content: &mut PresetContent, patch: &Patch, vals: &[((FixtureId, Attribute), AttributeValue)])
        ensures
            content_stored(*old(content), *final(content), *patch, vals@),
    {
        let n = vals.len();
        let ghost start = *content;
        proof {
            match start {
                PresetContent::Universal(u) => {
                    assert(vals@.subrange(0, 0) =~= Seq::<((FixtureId, Attribute), AttributeValue)>::empty());
                },
                PresetContent::Global(g) => {
                    assert(vals@.subrange(0, 0) =~= Seq::<((FixtureId, Attribute), AttributeValue)>::empty());
                },
                PresetContent::Selective(s) => {
                    assert(vals@.subrange(0, 0) =~= Seq::<((FixtureId, Attribute), AttributeValue)>::empty());
                },
            }
        }
        for i in 0..n
            invariant
                n == vals@.len(),
                start == *old(content),
                content_stored(start, *content, *patch, vals@.subrange(0, i as int)),
        {
            let (fid, attribute, value) = (vals[i].0.0, vals[i].0.1.duplicate(), vals[i].1);
            proof {
                assert(vals@.subrange(0, i + 1).drop_last() =~= vals@.subrange(0, i as int));
            }
            match content {
                PresetContent::Universal(p) => {
                    p.set_value(attribute, value);
                },
                PresetContent::Global(p) => {
                    match patch.fixture(fid) {
                        Some(f) => {
                            p.set_value(f.fixture_type_id, attribute, value);
                        },
                        None => {},
                    }
                },
                PresetContent::Selective(p) => {
                    p.set_value(fid, attribute, value);
                },
            }
        }
        assert(vals@.subrange(0, n as int) =~= vals@);
    }

    /// Makes a preset (with empty universal content, named "New Dimmer
    /// Preset") for the slot where it is empty.
    fn ensure_preset(&mut self, r: ObjectReference)
        requires
            r.kind.is_preset(),
        ensures
            find_ref(old(self).show.objects.objects(), r) is Some ==> final(self).show.objects
                == old(self).show.objects,
            find_ref(old(self).show.objects.objects(), r) is None ==> exists|p: Preset|
                #[trigger] new_preset_made(
                    old(self).show.objects.objects(),
                    r,
                    p,
                    final(self).show.objects.objects(),
                ),
            final(self).show.selection == old(self).show.selection,
            final(self).show.programmer == old(self).show.programmer,
            final(self).show.patch == old(self).show.patch,
            final(self).events == old(self).events,
            final(self).history == old(self).history,
            final(self).is_running == old(self).is_running,
    {
        let ghost objs = self.show.objects.objects();
        if self.show.objects.position_of_ref(&r).is_none() {
            let p = Preset::create(ObjectId::new(), r.pool_id, String::from_str("New Dimmer Preset"));
            proof {
                reveal_strlit("New Dimmer Preset");
            }
            let obj = match r.kind {
                ObjectKind::PresetPosition => AnyObject::PresetPosition(p),
                ObjectKind::PresetGobo => AnyObject::PresetGobo(p),
                ObjectKind::PresetColor => AnyObject::PresetColor(p),
                ObjectKind::PresetBeam => AnyObject::PresetBeam(p),
                ObjectKind::PresetFocus => AnyObject::PresetFocus(p),
                ObjectKind::PresetControl => AnyObject::PresetControl(p),
                ObjectKind::PresetShapers => AnyObject::PresetShapers(p),
                ObjectKind::PresetVideo => AnyObject::PresetVideo(p),
                _ => AnyObject::PresetDimmer(p),
            };
            let ghost pp = p;
            assert(obj == preset_object(r.kind, pp));
            self.show.objects.insert(obj);
            proof {
                assert(new_preset_made(objs, r, pp, self.show.objects.objects()));
            }
        }
    }

    /// Lays the programmer's values over the content of the preset the slot
    /// holds.
    fn update_preset(&mut self, r: ObjectReference)
        requires
            r.kind.is_preset(),
            find_ref(old(self).show.objects.objects(), r) is Some,
        ensures
            ({
                let i = find_ref(old(self).show.objects.objects(), r).unwrap();
                let p = preset_of(old(self).show.objects.objects()[i]).unwrap();
                exists|c: PresetContent|
                    content_stored(p.content, c, old(self).show.patch, old(self).show.programmer.pairs())
                        && final(self).show.objects.objects() == old(self).show.objects.objects().update(
                        i,
                        #[trigger] with_content(r.kind, p, c),
                    )
            }),
            final(self).show.selection == old(self).show.selection,
            final(self).show.programmer == old(self).show.programmer,
            final(self).show.patch == old(self).show.patch,
            final(self).events == old(self).events,
            final(self).history == old(self).history,
            final(self).is_running == old(self).is_running,
    {
        let ghost objs = self.show.objects.objects();
        let k = match self.show.objects.position_of_ref(&r) {
            Some(k) => k,
            None => {
                return ;
            },
        };
        let (p_name, p_id, p_pool, mut content) = match self.show.objects.at(k).as_preset() {
            Some(p) => (p.name.clone(), p.id, p.pool_id, p.content.duplicate()),
            None => {
                proof {
                    assert(self.show.objects.objects()[k as int].obj_kind() == r.kind);
                }
                return ;
            },
        };
        let ghost c0 = content;
        Self::store_values(&mut content, &self.show.patch, self.show.programmer.values());
        let ghost c1 = content;
        let np = Preset { name: p_name, id: p_id, pool_id: p_pool, content };
        let obj = match r.kind {
            ObjectKind::PresetPosition => AnyObject::PresetPosition(np),
            ObjectKind::PresetGobo => AnyObject::PresetGobo(np),
            ObjectKind::PresetColor => AnyObject::PresetColor(np),
            ObjectKind::PresetBeam => AnyObject::PresetBeam(np),
            ObjectKind::PresetFocus => AnyObject::PresetFocus(np),
            ObjectKind::PresetControl => AnyObject::PresetControl(np),
            ObjectKind::PresetShapers => AnyObject::PresetShapers(np),
            ObjectKind::PresetVideo => AnyObject::PresetVideo(np),
            _ => AnyObject::PresetDimmer(np),
        };
        proof {
            let p = preset_of(objs[k as int]).unwrap();
            assert(obj == with_content(r.kind, p, c1));
            assert(content_stored(p.content, c1, self.show.patch, self.show.programmer.pairs()));
        }
        self.show.objects.replace(k, obj);
    }

    /// Stores the programmer's values into the preset in the given slot,
    /// making the preset first where the slot is empty.
    fn store_preset(&mut self, r: ObjectReference)
        requires
            r.kind.is_preset(),
        ensures
            stores(old(self).show, final(self).show.objects.objects(), r),
            final(self).show.selection == old(self).show.selection,
            final(self).show.programmer == old(self).show.programmer,
            final(self).show.patch == old(self).show.patch,
            final(self).events == old(self).events,
            final(self).history == old(self).history,
            final(self).is_running == old(self).is_running,
    {
        let ghost objs = self.show.objects.objects();
        let ghost pre = self.show;
        self.ensure_preset(r);
        let ghost mid = self.show.objects.objects();
        proof {
            if find_ref(objs, r) is None {
                let p = choose|p: Preset| #[trigger] new_preset_made(objs, r, p, mid);
                lemma_new_preset_found(objs, r, p, mid);
            }
        }
        self.update_preset(r);
        proof {
            if find_ref(objs, r) is None {
                let p = choose|p: Preset| #[trigger] new_preset_made(objs, r, p, mid);
                lemma_new_preset_found(objs, r, p, mid);
                let k = find_ref(mid, r).unwrap();
                let c = choose|c: PresetContent|
                    content_stored(p.content, c, pre.patch, pre.programmer.pairs())
                        && self.show.objects.objects() == mid.update(k, #[trigger] with_content(r.kind, p, c));
                assert(stored_new_preset(objs, r, pre.patch, pre.programmer.pairs(), p, c, k, self.show.objects.objects()));
            }
        }
    }

    /// Sets an attribute's value in the programmer and records the command.
    fn set_attribute(&mut self, fid: FixtureId, attribute: Attribute, value: AttributeValue)
        ensures
            final(self).show.programmer.map() == old(self).show.programmer.map().insert(
                (fid, attribute@),
                value,
            ),
            final(self).history@ == old(self).history@.push(
                Command::SetAttribute { fid, attribute, value },
            ),
            final(self).show.selection == old(self).show.selection,
            final(self).show.objects == old(self).show.objects,
            final(self).show.patch == old(self).show.patch,
            final(self).events == old(self).events,
            final(self).is_running == old(self).is_running,
    {
        let a = attribute.duplicate();
        self.show.programmer.set_value(fid, a, value);
        self.history.push(Command::SetAttribute { fid, attribute, value });
    }

    /// Sets, on one fixture, the values of the content's entries that apply
    /// to it.
    fn recall_onto(&mut self, content: &PresetContent, fid: FixtureId)
        ensures
            final(self).history@ == old(self).history@ + entry_cmds(
                *content,
                old(self).show.patch,
                fid,
                entry_count(*content),
            ),
            final(self).show.programmer.map() == apply_sets(
                old(self).show.programmer.map(),
                entry_cmds(*content, old(self).show.patch, fid, entry_count(*content)),
            ),
            final(self).show.selection == old(self).show.selection,
            final(self).show.objects == old(self).show.objects,
            final(self).show.patch == old(self).show.patch,
            final(self).events == old(self).events,
            final(self).is_running == old(self).is_running,
    {
        let ghost h0 = self.history@;
        let ghost m0 = self.show.programmer.map();
        let ghost patch = self.show.patch;
        let n: usize = match content {
            PresetContent::Universal(u) => u.values.len(),
            PresetContent::Global(g) => g.values.len(),
            PresetContent::Selective(s) => s.values.len(),
        };
        for j in 0..n
            invariant
                n == entry_count(*content),
                patch == self.show.patch,
                self.history@ == h0 + entry_cmds(*content, patch, fid, j as int),
                self.show.programmer.map() == apply_sets(m0, entry_cmds(*content, patch, fid, j as int)),
                self.show.selection == old(self).show.selection,
                self.show.objects == old(self).show.objects,
                patch == old(self).show.patch,
                self.events == old(self).events,
                self.is_running == old(self).is_running,
                h0 == old(self).history@,
                m0 == old(self).show.programmer.map(),
        {
            let ghost prev = entry_cmds(*content, patch, fid, j as int);
            match content {
                PresetContent::Universal(u) => {
                    let e = &u.values.entries()[j];
                    self.set_attribute(fid, e.0.duplicate(), e.1);
                    proof {
                        let next = entry_cmds(*content, patch, fid, j + 1);
                        assert(next == prev.push(next.last()));
                        assert(next.drop_last() =~= prev);
                        assert(h0 + next =~= (h0 + prev).push(next.last()));
                    }
                },
                PresetContent::Global(g) => {
                    let e = &g.values.entries()[j];
                    let has_fti = match self.show.patch.fixture(fid) {
                        Some(f) => f.fixture_type_id == e.0.0,
                        None => false,
                    };
                    if has_fti {
                        self.set_attribute(fid, e.0.1.duplicate(), e.1);
                        proof {
                            let next = entry_cmds(*content, patch, fid, j + 1);
                            assert(next.drop_last() =~= prev);
                            assert(h0 + next =~= (h0 + prev).push(next.last()));
                        }
                    }
                },
                PresetContent::Selective(s) => {
                    let e = &s.values.entries()[j];
                    if e.0.0 == fid {
                        self.set_attribute(fid, e.0.1.duplicate(), e.1);
                        proof {
                            let next = entry_cmds(*content, patch, fid, j + 1);
                            assert(next.drop_last() =~= prev);
                            assert(h0 + next =~= (h0 + prev).push(next.last()));
                        }
                    }
                },
            }
        }
    }

    /// Recalls a preset's content onto the selected fixtures, one fixture
    /// after the other.
    fn recall_content(&mut self, content: &PresetContent)
        ensures
            final(self).history@ == old(self).history@ + recall_cmds(
                *content,
                old(self).show.patch,
                old(self).show.selection@,
            ),
            final(self).show.programmer.map() == apply_sets(
                old(self).show.programmer.map(),
                recall_cmds(*content, old(self).show.patch, old(self).show.selection@),
            ),
            final(self).show.selection == old(self).show.selection,
            final(self).show.objects == old(self).show.objects,
            final(self).show.patch == old(self).show.patch,
            final(self).events == old(self).events,
            final(self).is_running == old(self).is_running,
    {
        let fids = copy_fids(self.show.selection.as_slice());
        let ghost h0 = self.history@;
        let ghost m0 = self.show.programmer.map();
        let ghost patch = self.show.patch;
        let n = fids.len();
        for i in 0..n
            invariant
                n == fids@.len(),
                fids@ == old(self).show.selection@,
                patch == self.show.patch,
                self.history@ == h0 + recall_cmds(*content, patch, fids@.subrange(0, i as int)),
                self.show.programmer.map() == apply_sets(
                    m0,
                    recall_cmds(*content, patch, fids@.subrange(0, i as int)),
                ),
                self.show.selection == old(self).show.selection,
                self.show.objects == old(self).show.objects,
                patch == old(self).show.patch,
                self.events == old(self).events,
                self.is_running == old(self).is_running,
                h0 == old(self).history@,
                m0 == old(self).show.programmer.map(),
        {
            let ghost before_cmds = recall_cmds(*content, patch, fids@.subrange(0, i as int));
            let ghost more = entry_cmds(*content, patch, fids@[i as int], entry_count(*content));
            let ghost m1 = self.show.programmer.map();
            self.recall_onto(content, fids[i]);
            proof {
                let pre = fids@.subrange(0, i + 1);
                assert(pre.drop_last() =~= fids@.subrange(0, i as int));
                assert(recall_cmds(*content, patch, pre) == before_cmds + more);
                assert(h0 + (before_cmds + more) =~= (h0 + before_cmds) + more);
                lemma_apply_sets_append(m0, before_cmds, more);
            }
        }
        assert(fids@.subrange(0, n as int) =~= fids@);
    }

    /// Selects the fixtures of a preset, then recalls its content onto the
    /// selection.
    fn recall_preset(&mut self, r: ObjectReference)
        requires
            r.kind.is_preset(),
            select_supported(old(self).show, Selection::Object(r)),
        ensures
            ({
                let sel = select_all(old(self).show.selection@, object_fids(old(self).show, r));
                let cmds = match find_ref(old(self).show.objects.objects(), r) {
                    Some(i) => recall_cmds(
                        preset_of(old(self).show.objects.objects()[i]).unwrap().content,
                        old(self).show.patch,
                        sel,
                    ),
                    None => Seq::empty(),
                };
                &&& final(self).show.selection@ == sel
                &&& final(self).history@ == old(self).history@.push(
                    Command::Select { selection: Selection::Object(r) },
                ) + cmds
                &&& final(self).show.programmer.map() == apply_sets(
                    old(self).show.programmer.map(),
                    cmds,
                )
            }),
            final(self).show.objects == old(self).show.objects,
            final(self).show.patch == old(self).show.patch,
            final(self).events.events() == old(self).events.events().push(
                EngineEvent::SelectionChanged,
            ),
            final(self).is_running == old(self).is_running,
    {
        self.select(Selection::Object(r));
        self.history.push(Command::Select { selection: Selection::Object(r) });
        let content = match self.show.objects.position_of_ref(&r) {
            None => {
                assert(self.history@ =~= old(self).history@.push(
                    Command::Select { selection: Selection::Object(r) },
                ) + Seq::<Command>::empty());
                return ;
            },
            Some(i) => match self.show.objects.at(i).as_preset() {
                Some(p) => p.content.duplicate(),
                None => {
                    proof {
                        assert(self.show.objects.objects()[i as int].obj_kind() == r.kind);
                    }
                    return ;
                },
            },
        };
        let ghost pre_recall = *self;
        self.recall_content(&content);
        proof {
            let i = find_ref(old(self).show.objects.objects(), r).unwrap();
            let c0 = preset_of(old(self).show.objects.objects()[i]).unwrap().content;
            lemma_recall_same_content(content, c0, old(self).show.patch, pre_recall.show.selection@);
        }
    }

    /// Runs a command and records it in the history (a command that saves
    /// the show is recorded once the caller reports the save done).
    pub fn exec(&mut self, command: Command) -> (r: ExecAction)
        requires
            command_supported(old(self).show, command),
        ensures
            executes(*old(self), *final(self), command, r),
    {
        let ghost pre = *self;
        match &command {
            Command::Select { selection } => {
                self.select(*selection);
            },
            Command::Clear => {
                self.clear();
            },
            Command::Store { destination } => {
                if destination.kind == ObjectKind::Group {
                    self.store_group(*destination);
                } else {
                    self.store_preset(*destination);
                }
                self.clear();
                self.history.push(Command::Clear);
            },
            Command::Delete { object } => {
                proof {
                    crate::object::lemma_find_ref_some(pre.show.objects.objects(), *object);
                }
                match self.show.objects.position_of_ref(object) {
                    Some(i) => {
                        let id = self.show.objects.at(i).id();
                        self.show.objects.assert_unique();
                        proof {
                            crate::object::lemma_find_id(self.show.objects.objects(), i as int);
                        }
                        self.show.objects.remove(&id);
                    },
                    None => {},
                }
            },
            Command::Rename { object, name } => {
                match self.show.objects.position_of_ref(object) {
                    Some(i) => {
                        self.show.objects.rename_at(i, name.clone());
                    },
                    None => {},
                }
            },
            Command::Recall { object } => {
                if object.kind == ObjectKind::Group {
                    self.select(Selection::Object(*object));
                    self.history.push(Command::Select { selection: Selection::Object(*object) });
                    proof {
                        assert(apply_sets(pre.show.programmer.map(), Seq::empty()) == pre.show.programmer.map());
                    }
                } else {
                    self.recall_preset(*object);
                }
            },
            Command::SetAttribute { fid, attribute, value } => {
                let a = attribute.duplicate();
                self.show.programmer.set_value(*fid, a, *value);
            },
            Command::Save => {
                return ExecAction::SaveShow;
            },
            Command::Update { .. } => {},
            Command::Go { .. } => {},
        }
        let ghost before_push = self.history@;
        let ghost cmd = command;
        self.history.push(command);
        proof {
            match cmd {
                Command::Recall { object } => {
                    let sel = pre.show.selection@;
                    let new_sel = select_all(sel, object_fids(pre.show, object));
                    let cmds = if object.kind is Group {
                        Seq::empty()
                    } else {
                        match find_ref(pre.show.objects.objects(), object) {
                            Some(i) => recall_cmds(
                                preset_of(pre.show.objects.objects()[i]).unwrap().content,
                                pre.show.patch,
                                new_sel,
                            ),
                            None => Seq::empty(),
                        }
                    };
                    assert(before_push =~= pre.history@.push(
                        Command::Select { selection: Selection::Object(object) },
                    ) + cmds);
                    assert(self.history@ =~= pre.history@.push(
                        Command::Select { selection: Selection::Object(object) },
                    ) + cmds.push(cmd));
                },
                _ => {},
            }
        }
        ExecAction::Done
    }
}

/// Setting attributes from two lists in turn is setting them from the
/// joined list.
pub proof fn lemma_apply_sets_append(
    m: Map<(FixtureId, AttributeView), AttributeValue>,
    a: Seq<Command>,
    b: Seq<Command>,
)
    ensures
        apply_sets(m, a + b) == apply_sets(apply_sets(m, a), b),
    decreases b.len(),
{
    if b.len() == 0 {
        assert(a + b =~= a);
    } else {
        lemma_apply_sets_append(m, a, b.drop_last());
        assert((a + b).drop_last() =~= a + b.drop_last());
    }
}

/// Content with the same entries recalls the same commands.
proof fn lemma_recall_same_content(a: PresetContent, b: PresetContent, patch: Patch, fids: Seq<FixtureId>)
    requires
        crate::object::same_content(a, b),
    ensures
        recall_cmds(a, patch, fids) == recall_cmds(b, patch, fids),
    decreases fids.len(),
{
    if fids.len() > 0 {
        lemma_recall_same_content(a, b, patch, fids.drop_last());
        lemma_entry_same_content(a, b, patch, fids.last(), entry_count(a));
    }
}

proof fn lemma_entry_same_content(a: PresetContent, b: PresetContent, patch: Patch, fid: FixtureId, n: int)
    requires
        crate::object::same_content(a, b),
    ensures
        entry_cmds(a, patch, fid, n) == entry_cmds(b, patch, fid, n),
    decreases n,
{
    if n > 0 {
        lemma_entry_same_content(a, b, patch, fid, n - 1);
    }
}

/// What running `c` in `pre` does, giving `post` and asking for `a`.
pub open spec fn executes(pre: Engine, post: Engine, c: Command, a: ExecAction) -> bool {
    let objs = pre.show.objects.objects();
    let sel = pre.show.selection@;
    &&& post.is_running == pre.is_running
    &&& post.show.patch == pre.show.patch
    &&& match c {
        Command::Select { selection } => {
            &&& a == ExecAction::Done
            &&& post.show.selection@ == select_all(sel, selected_fids(pre.show, selection))
            &&& post.show.objects == pre.show.objects
            &&& post.show.programmer == pre.show.programmer
            &&& post.events.events() == pre.events.events().push(EngineEvent::SelectionChanged)
            &&& post.history@ == pre.history@.push(c)
        },
        Command::Clear => {
            &&& a == ExecAction::Done
            &&& post.show.objects == pre.show.objects
            &&& post.show.selection@.len() == 0
            &&& post.history@ == pre.history@.push(c)
            &&& if sel.len() > 0 {
                &&& post.show.programmer == pre.show.programmer
                &&& post.events.events() == pre.events.events().push(EngineEvent::SelectionChanged)
            } else {
                &&& post.show.programmer.pairs().len() == 0
                &&& post.events == pre.events
            }
        },
        Command::Store { destination } => {
            &&& a == ExecAction::Done
            &&& post.history@ == pre.history@.push(Command::Clear).push(c)
            &&& post.show.selection@.len() == 0
            &&& if sel.len() > 0 {
                &&& post.show.programmer == pre.show.programmer
                &&& post.events.events() == pre.events.events().push(EngineEvent::SelectionChanged)
            } else {
                &&& post.show.programmer.pairs().len() == 0
                &&& post.events == pre.events
            }
            &&& stores(pre.show, post.show.objects.objects(), destination)
        },
        Command::Delete { object } => {
            &&& a == ExecAction::Done
            &&& post.show.objects.objects() == match find_ref(objs, object) {
                Some(i) => objs.remove(i),
                None => objs,
            }
            &&& post.show.selection == pre.show.selection
            &&& post.show.programmer == pre.show.programmer
            &&& post.events == pre.events
            &&& post.history@ == pre.history@.push(c)
        },
        Command::Rename { object, name } => {
            &&& a == ExecAction::Done
            &&& post.show.objects.objects() == match find_ref(objs, object) {
                Some(i) => objs.update(i, renamed_object(objs[i], name)),
                None => objs,
            }
            &&& post.show.selection == pre.show.selection
            &&& post.show.programmer == pre.show.programmer
            &&& post.events == pre.events
            &&& post.history@ == pre.history@.push(c)
        },
        Command::Recall { object } => {
            let new_sel = select_all(sel, object_fids(pre.show, object));
            let cmds = if object.kind is Group {
                Seq::empty()
            } else {
                match find_ref(objs, object) {
                    Some(i) => recall_cmds(preset_of(objs[i]).unwrap().content, pre.show.patch, new_sel),
                    None => Seq::empty(),
                }
            };
            &&& a == ExecAction::Done
            &&& post.show.selection@ == new_sel
            &&& post.show.objects == pre.show.objects
            &&& post.show.programmer.map() == apply_sets(pre.show.programmer.map(), cmds)
            &&& post.events.events() == pre.events.events().push(EngineEvent::SelectionChanged)
            &&& post.history@ == pre.history@.push(
                Command::Select { selection: Selection::Object(object) },
            ) + cmds.push(c)
        },
        Command::SetAttribute { fid, attribute, value } => {
            &&& a == ExecAction::Done
            &&& post.show.programmer.map() == pre.show.programmer.map().insert((fid, attribute@), value)
            &&& post.show.selection == pre.show.selection
            &&& post.show.objects == pre.show.objects
            &&& post.events == pre.events
            &&& post.history@ == pre.history@.push(c)
        },
        Command::Save => {
            &&& a == ExecAction::SaveShow
            &&& post.show == pre.show
            &&& post.events == pre.events
            &&& post.history == pre.history
        },
        _ => true,
    }
}

/// `post` are the objects after the new preset `p`, with empty universal
/// content and named "New Dimmer Preset", was put in for the empty slot `d`.
pub open spec fn new_preset_made(objs: Seq<AnyObject>, d: ObjectReference, p: Preset, post: Seq<AnyObject>) -> bool {
    &&& p.name@ == "New Dimmer Preset"@
    &&& p.pool_id == d.pool_id
    &&& p.content matches PresetContent::Universal(u) && u.values.pairs().len() == 0
    &&& post == match find_id(objs, p.id) {
        Some(j) => objs.update(j, preset_object(d.kind, p)),
        None => objs.push(preset_object(d.kind, p)),
    }
}

/// In the objects after a new preset was put in for an empty slot, the slot
/// finds the new preset.
proof fn lemma_new_preset_found(objs: Seq<AnyObject>, d: ObjectReference, p: Preset, post: Seq<AnyObject>)
    requires
        d.kind.is_preset(),
        find_ref(objs, d) is None,
        new_preset_made(objs, d, p, post),
    ensures
        find_ref(post, d) matches Some(k) && preset_of(post[k]) == Some(p),
{
    let o = preset_object(d.kind, p);
    let k = match find_id(objs, p.id) {
        Some(j) => j,
        None => objs.len() as int,
    };
    crate::object::lemma_find_id_some(objs, p.id);
    assert(post[k] == o);
    assert(o.is_referred_by(d));
    assert forall|j: int| 0 <= j < k implies !#[trigger] post[j].is_referred_by(d) by {
        assert(post[j] == objs[j]);
        if objs[j].is_referred_by(d) {
            assert(exists|w: int| 0 <= w < objs.len() && #[trigger] objs[w].is_referred_by(d));
            crate::object::lemma_first_ref_exists(objs, d, j);
        }
    }
    crate::object::lemma_find_ref(post, d, k);
}

/// `post` are the objects after a new preset `p` was made for the empty
/// slot `d` (it sits at `k` once put in) and given content `c`: the values
/// laid over its empty content.
pub open spec fn stored_new_preset(
    objs: Seq<AnyObject>,
    d: ObjectReference,
    patch: Patch,
    vals: Seq<((FixtureId, Attribute), AttributeValue)>,
    p: Preset,
    c: PresetContent,
    k: int,
    post: Seq<AnyObject>,
) -> bool {
    let mid = match find_id(objs, p.id) {
        Some(j) => objs.update(j, preset_object(d.kind, p)),
        None => objs.push(preset_object(d.kind, p)),
    };
    &&& p.name@ == "New Dimmer Preset"@
    &&& p.pool_id == d.pool_id
    &&& p.content matches PresetContent::Universal(u) && u.values.pairs().len() == 0
    &&& find_ref(mid, d) == Some(k)
    &&& preset_of(mid[k]) == Some(p)
    &&& content_stored(p.content, c, patch, vals)
    &&& post == mid.update(k, with_content(d.kind, p, c))
}

/// `post_objs` are the show's objects after storing into `d`: the group in
/// the slot holds the selection, or the preset in the slot holds the
/// programmer's values laid over its own; a new object is made for an empty
/// slot.
pub open spec fn stores(pre: Show, post_objs: Seq<AnyObject>, d: ObjectReference) -> bool {
    let objs = pre.objects.objects();
    if d.kind is Group {
        match find_ref(objs, d) {
            Some(i) => match objs[i] {
                AnyObject::Group(g) => exists|fv: Vec<FixtureId>|
                    fv@ == pre.selection@ && post_objs == objs.update(
                        i,
                        AnyObject::Group(Group { name: g.name, id: g.id, pool_id: g.pool_id, fids: fv }),
                    ),
                _ => false,
            },
            None => exists|g: Group|
                g.name@ == "New Group"@ && g.pool_id == d.pool_id && g.fids@ == pre.selection@
                    && post_objs == (match find_id(objs, g.id) {
                    Some(k) => objs.update(k, AnyObject::Group(g)),
                    None => objs.push(AnyObject::Group(g)),
                }),
        }
    } else {
        match find_ref(objs, d) {
            Some(i) => {
                let p = preset_of(objs[i]).unwrap();
                exists|c: PresetContent|
                    content_stored(p.content, c, pre.patch, pre.programmer.pairs()) && post_objs
                        == objs.update(i, with_content(d.kind, p, c))
            },
            None => exists|p: Preset, c: PresetContent, k: int|
                #[trigger] stored_new_preset(objs, d, pre.patch, pre.programmer.pairs(), p, c, k, post_objs),
        }
    }
}

} // verus!
