//! Properties that relate several operations of the console.
use vstd::prelude::*;

use crate::attr::{Attribute, AttributeView, FeatureGroup};
use crate::pipeline::{ValueSet, content_sets, entry_sets, lemma_resolved_all_contains, resolved, resolved_all, Pipeline};
use crate::programmer::Programmer;
use crate::values::lemma_entries_present;
use crate::cmd::{lemma_removed_absent, patch_outcome, spec_remove, view_fids_unique, view_pos, FixtureView, PatchCommand};
use crate::command::{reads_obj_ref, resolves_to, Command, CommandBuilder, CommandError, Keyword, Parameter, Selection};
use crate::effect::{other_than, EffectId};
use crate::engine::{command_supported, entry_cmds, entry_count, executes, object_fids, recall_cmds, ExecAction};
use crate::object::{
    find_id, find_ref, ids_unique, lemma_find_ref, AnyObject, Group, ObjectKind, ObjectReference,
    GlobalPreset, PresetContent, SelectivePreset, UniversalPreset,
};
use crate::patch::{
    channel_offset, count_channels, count_offsets, offsets_of, spec_channel_count, AttributeValue, DmxChannel,
    DmxMode, FixtureId, Patch,
};
use crate::engine::Engine;
use crate::cue::{lex_lt, lemma_lex_irreflexive};
use crate::sequence::{cue_index, is_first_min, is_last_max, lemma_max_cue, max_cue, min_cue, opt_id_view, window, Sequence};
use crate::show::{lemma_select_all_distinct, lemma_select_all_no_duplicates, select_all};

verus! {

/// A value that was set is what is read back: after the programmer sets the
/// value of a fixture's attribute, it holds exactly that value for it, and
/// every other value as before.
pub proof fn law_read_after_write(
    p0: Programmer,
    p1: Programmer,
    fid: FixtureId,
    attribute: Attribute,
    value: AttributeValue,
    other: (FixtureId, AttributeView),
)
    requires
        p1.map() == p0.map().insert((fid, attribute@), value),
    ensures
        p1.map().contains_key((fid, attribute@)),
        p1.map()[(fid, attribute@)] == value,
        other != (fid, attribute@) ==> p1.map().contains_key(other) == p0.map().contains_key(other),
        other != (fid, attribute@) && p0.map().contains_key(other) ==> p1.map()[other] == p0.map()[other],
{
}

/// A value set on the pipeline is part of its next resolution: after setting
/// `value` for a fixture's attribute, where the fixture is patched and a
/// channel of its DMX mode controls the attribute, resolving gives that
/// fixture's universe, the channels of the first such DMX channel, and the
/// value.
pub proof fn law_set_then_resolve(
    p0: Pipeline,
    p1: Pipeline,
    fid: FixtureId,
    attribute: Attribute,
    value: AttributeValue,
    patch: Patch,
)
    requires
        p1.map() == p0.map().insert((fid, attribute@), value),
        resolved(patch, ((fid, attribute), value)) is Some,
    ensures
        resolved_all(patch, p1.pairs()).contains(resolved(patch, ((fid, attribute), value)).unwrap()),
{
    p1.lemma_map_of_pairs();
    let i = lemma_entries_present(p1.pairs(), (fid, attribute@));
    assert(resolved(patch, p1.pairs()[i]) == resolved(patch, ((fid, attribute), value)));
    lemma_resolved_all_contains(patch, p1.pairs(), i);
}

/// Clearing twice leaves neither a selection nor programmer values: the
/// first clear removes the selection where there is one, else the values;
/// the second removes what is left.
pub proof fn law_clear_twice(e0: Engine, e1: Engine, e2: Engine, a1: ExecAction, a2: ExecAction)
    requires
        executes(e0, e1, Command::Clear, a1),
        executes(e1, e2, Command::Clear, a2),
    ensures
        e2.show.selection@.len() == 0,
        e2.show.programmer.pairs().len() == 0,
{
}

/// The selection never holds a fixture twice: every command keeps a
/// selection without repeats without repeats.
pub proof fn law_selection_no_duplicates(e0: Engine, e1: Engine, c: Command, a: ExecAction)
    requires
        e0.show.selection@.no_duplicates(),
        command_supported(e0.show, c),
        executes(e0, e1, c, a),
    ensures
        e1.show.selection@.no_duplicates(),
{
    match c {
        Command::Select { selection } => {
            lemma_select_all_no_duplicates(e0.show.selection@, crate::engine::selected_fids(e0.show, selection));
        },
        Command::Recall { object } => {
            lemma_select_all_no_duplicates(e0.show.selection@, object_fids(e0.show, object));
        },
        Command::Clear | Command::Store { .. } => {
            assert(e1.show.selection@ =~= Seq::<FixtureId>::empty());
        },
        _ => {},
    }
}

/// After storing into a group slot, the slot finds the stored group with
/// the selection as its fixtures.
proof fn lemma_stored_group(e0: Engine, e1: Engine, d: ObjectReference, a: ExecAction)
    requires
        d.kind is Group,
        ids_unique(e0.show.objects.objects()),
        executes(e0, e1, Command::Store { destination: d }, a),
    ensures
        find_ref(e1.show.objects.objects(), d) matches Some(k) && e1.show.objects.objects()[k] matches AnyObject::Group(g)
            && g.fids@ == e0.show.selection@,
{
    let objs = e0.show.objects.objects();
    let post = e1.show.objects.objects();
    match find_ref(objs, d) {
        Some(i) => {
            crate::object::lemma_find_ref_some(objs, d);
            assert forall|j: int| 0 <= j < i implies !#[trigger] post[j].is_referred_by(d) by {
                assert(post[j] == objs[j]);
                if objs[j].is_referred_by(d) {
                    let k = choose|k: int|
                        0 <= k < objs.len() && #[trigger] objs[k].is_referred_by(d) && forall|j2: int|
                            0 <= j2 < k ==> !#[trigger] objs[j2].is_referred_by(d);
                    assert(k == i);
                    assert(!objs[j].is_referred_by(d));
                }
            }
            lemma_find_ref(post, d, i);
        },
        None => {
            let g = choose|g: Group|
                g.name@ == "New Group"@ && g.pool_id == d.pool_id && g.fids@ == e0.show.selection@
                    && post == (match find_id(objs, g.id) {
                    Some(k) => objs.update(k, AnyObject::Group(g)),
                    None => objs.push(AnyObject::Group(g)),
                });
            let k = match find_id(objs, g.id) {
                Some(k) => k,
                None => objs.len() as int,
            };
            crate::object::lemma_find_id_some(objs, g.id);
            assert(post[k] == AnyObject::Group(g));
            assert forall|j: int| 0 <= j < k implies !#[trigger] post[j].is_referred_by(d) by {
                assert(post[j] == objs[j]);
                if objs[j].is_referred_by(d) {
                    crate::object::lemma_first_ref_exists(objs, d, j);
                }
            }
            lemma_find_ref(post, d, k);
        },
    }
}

/// Storing the selection into a group and then recalling the group selects
/// again exactly the fixtures that were selected, in the same order.
pub proof fn law_store_then_recall_group(
    e0: Engine,
    e1: Engine,
    e2: Engine,
    d: ObjectReference,
    a1: ExecAction,
    a2: ExecAction,
)
    requires
        d.kind is Group,
        e0.show.selection@.no_duplicates(),
        ids_unique(e0.show.objects.objects()),
        executes(e0, e1, Command::Store { destination: d }, a1),
        executes(e1, e2, Command::Recall { object: d }, a2),
    ensures
        e2.show.selection@ == e0.show.selection@,
{
    lemma_stored_group(e0, e1, d, a1);
    assert(e1.show.selection@ =~= Seq::<FixtureId>::empty());
    lemma_select_all_distinct(e0.show.selection@);
}

/// No two cues of the list share an id.
pub open spec fn cue_ids_distinct(s: Sequence) -> bool {
    forall|i: int, j: int|
        0 <= i < s.cues@.len() && 0 <= j < s.cues@.len() && i != j ==> #[trigger] s.cues@[i].id@
            != #[trigger] s.cues@[j].id@
}

/// Going to the next cue and then asking for the previous one gives the cue
/// that was current, where cue ids are all different: the current cue is
/// the latest cue before the next one.
pub proof fn law_next_then_previous(s0: Sequence, s1: Sequence, c: int, d: int)
    requires
        cue_ids_distinct(s0),
        s0.current_index() == Some(c),
        min_cue(s0.cues@, window(Some(s0.current_cue.unwrap()@), None)) == Some(d),
        s1.cues@ == s0.cues@,
        opt_id_view(s1.current_cue) == Some(s0.cues@[d].id@),
    ensures
        s1.current_index() == Some(d),
        max_cue(s1.cues@, window(None, Some(s1.current_cue.unwrap()@))) == Some(c),
{
    let cues = s0.cues@;
    let cur = s0.current_cue.unwrap()@;
    let after = window(Some(cur), None);
    let before = window(None, Some(cues[d].id@));
    assert(is_first_min(cues, after, d, cues.len() as int));
    assert(cues[c].id@ == cur);
    // the new current cue is found at d
    assert(cues[d].id@ == s1.current_cue.unwrap()@);
    assert forall|j: int| 0 <= j < d implies #[trigger] cues[j].id@ != cues[d].id@ by {
        assert(j != d);
    }
    let k = choose|i: int|
        0 <= i < cues.len() && #[trigger] cues[i].id@ == cues[d].id@ && forall|j: int|
            0 <= j < i ==> #[trigger] cues[j].id@ != cues[d].id@;
    if k != d {
        assert(cues[k].id@ != cues[d].id@);
    }
    assert(s1.current_index() == Some(d));
    // the old current cue is the latest before the new one
    assert(before(cues[c].id@));
    assert forall|j: int| 0 <= j < cues.len() && before(#[trigger] cues[j].id@) implies !lex_lt(
        cues[c].id@,
        cues[j].id@,
    ) by {
        if lex_lt(cues[c].id@, cues[j].id@) {
            assert(after(cues[j].id@));
            assert(!lex_lt(cues[j].id@, cues[d].id@));
        }
    }
    assert forall|j: int| c < j < cues.len() && before(#[trigger] cues[j].id@) implies cues[j].id@
        != cues[c].id@ by {
        assert(j != c);
    }
    assert(is_last_max(cues, before, c, cues.len() as int));
    lemma_max_cue(cues, before, c);
}

/// Every operation of the effect scheduler keeps the running effects among
/// the registered ones: stopping or unregistering `id` (which drops it from
/// the running ones), starting a registered `id`, and registering `e` as `id`.
pub proof fn law_running_effects_registered(
    effects: Map<EffectId, crate::effect::Effect>,
    running: Seq<EffectId>,
    id: EffectId,
    e: crate::effect::Effect,
)
    requires
        forall|x: EffectId| running.contains(x) ==> effects.contains_key(x),
    ensures
        forall|x: EffectId| #[trigger] running.filter(other_than(id)).contains(x) ==> effects.remove(id).contains_key(x),
        effects.contains_key(id) ==> forall|x: EffectId| #[trigger] running.filter(other_than(id)).push(id).contains(x)
            ==> effects.contains_key(x),
        forall|x: EffectId| #[trigger] running.contains(x) ==> effects.insert(id, e).contains_key(x),
{
    assert forall|x: EffectId| #[trigger] running.filter(other_than(id)).contains(x) implies effects.remove(id).contains_key(x) by {
        running.lemma_filter_contains_rev(other_than(id), x);
    }
    if effects.contains_key(id) {
        assert forall|x: EffectId| #[trigger] running.filter(other_than(id)).push(id).contains(x) implies effects.contains_key(x) by {
            let t = running.filter(other_than(id));
            if x != id {
                assert(t.contains(x)) by {
                    let i = choose|i: int| 0 <= i < t.push(id).len() && t.push(id)[i] == x;
                    assert(i < t.len());
                    assert(t[i] == x);
                }
                running.lemma_filter_contains_rev(other_than(id), x);
            }
        }
    }
}

/// Renaming a patched fixture keeps its type, address and DMX mode and gives
/// it the new name; the fixture then comes last in the patch.
pub proof fn law_rename_fixture(v: Seq<FixtureView>, fid: FixtureId, name: String)
    requires
        view_fids_unique(v),
        view_pos(v, fid) is Some,
    ensures
        ({
            let i = view_pos(v, fid).unwrap();
            let o = patch_outcome(v, PatchCommand::SetName { fid, name });
            &&& o.0
            &&& o.1.len() == v.len()
            &&& o.1.last() == (FixtureView { name: name@, ..v[i] })
            &&& view_pos(o.1, fid) == Some(o.1.len() - 1)
        }),
{
    let i = view_pos(v, fid).unwrap();
    let f = FixtureView { name: name@, ..v[i] };
    lemma_removed_absent(v, fid);
    let w = spec_remove(v, fid);
    let out = w.push(f);
    assert forall|j: int| 0 <= j < w.len() implies #[trigger] out[j].fid != fid by {
        assert(out[j] == w[j]);
        if w[j].fid == fid {
            crate::laws::lemma_some_pos(w, fid, j);
        }
    }
    let k = choose|k: int|
        0 <= k < out.len() && #[trigger] out[k].fid == fid && forall|j: int|
            0 <= j < k ==> #[trigger] out[j].fid != fid;
    assert(out[w.len() as int].fid == fid);
    if k < w.len() {
        assert(out[k].fid != fid);
    }
}

/// Where some fixture has the id, `view_pos` finds one.
pub proof fn lemma_some_pos(v: Seq<FixtureView>, fid: FixtureId, j: int)
    requires
        0 <= j < v.len(),
        v[j].fid == fid,
    ensures
        view_pos(v, fid) is Some,
    decreases j,
{
    if exists|k: int| 0 <= k < j && #[trigger] v[k].fid == fid {
        let k = choose|k: int| 0 <= k < j && #[trigger] v[k].fid == fid;
        lemma_some_pos(v, fid, k);
    } else {
        assert(0 <= j < v.len() && v[j].fid == fid && forall|k: int| 0 <= k < j ==> #[trigger] v[k].fid != fid);
    }
}

/// Building nothing resolves to no command: a builder that was cleared
/// resolves to `None`.
pub proof fn law_cleared_builder_resolves_to_nothing(b: CommandBuilder, r: Result<Option<Command>, CommandError>)
    requires
        b.params().len() == 0,
        resolves_to(b.params(), r),
    ensures
        r == Ok::<Option<Command>, CommandError>(None),
{
}

/// An object put into the container is found again by its id.
pub proof fn law_insert_then_get(s: Seq<AnyObject>, o: AnyObject, post: Seq<AnyObject>)
    requires
        ids_unique(s),
        post == (match find_id(s, o.obj_id()) {
            Some(i) => s.update(i, o),
            None => s.push(o),
        }),
        ids_unique(post),
    ensures
        find_id(post, o.obj_id()) matches Some(k) && post[k] == o,
{
    let k = match find_id(s, o.obj_id()) {
        Some(i) => i,
        None => s.len() as int,
    };
    crate::object::lemma_find_id_some(s, o.obj_id());
    assert(post[k] == o);
    crate::object::lemma_find_id(post, k);
}

/// The attribute with the numbers it carries (wheel, slot, parameter) set to
/// zero; a custom attribute is left as it is.
pub open spec fn clear_numbers(a: AttributeView) -> AttributeView {
    match a {
        AttributeView::Gobo(_) => AttributeView::Gobo(0),
        AttributeView::GoboSelectSpin(_) => AttributeView::GoboSelectSpin(0),
        AttributeView::GoboSelectShake(_) => AttributeView::GoboSelectShake(0),
        AttributeView::GoboSelectEffects(_) => AttributeView::GoboSelectEffects(0),
        AttributeView::GoboWheelIndex(_) => AttributeView::GoboWheelIndex(0),
        AttributeView::GoboWheelSpin(_) => AttributeView::GoboWheelSpin(0),
        AttributeView::GoboWheelShake(_) => AttributeView::GoboWheelShake(0),
        AttributeView::GoboWheelRandom(_) => AttributeView::GoboWheelRandom(0),
        AttributeView::GoboWheelAudio(_) => AttributeView::GoboWheelAudio(0),
        AttributeView::GoboPos(_) => AttributeView::GoboPos(0),
        AttributeView::GoboPosRotate(_) => AttributeView::GoboPosRotate(0),
        AttributeView::GoboPosShake(_) => AttributeView::GoboPosShake(0),
        AttributeView::AnimationWheel(_) => AttributeView::AnimationWheel(0),
        AttributeView::AnimationWheelAudio(_) => AttributeView::AnimationWheelAudio(0),
        AttributeView::AnimationWheelMacro(_) => AttributeView::AnimationWheelMacro(0),
        AttributeView::AnimationWheelRandom(_) => AttributeView::AnimationWheelRandom(0),
        AttributeView::AnimationWheelSelectEffects(_) => AttributeView::AnimationWheelSelectEffects(0),
        AttributeView::AnimationWheelSelectShake(_) => AttributeView::AnimationWheelSelectShake(0),
        AttributeView::AnimationWheelSelectSpin(_) => AttributeView::AnimationWheelSelectSpin(0),
        AttributeView::AnimationWheelPos(_) => AttributeView::AnimationWheelPos(0),
        AttributeView::AnimationWheelPosRotate(_) => AttributeView::AnimationWheelPosRotate(0),
        AttributeView::AnimationWheelPosShake(_) => AttributeView::AnimationWheelPosShake(0),
        AttributeView::AnimationSystem(_) => AttributeView::AnimationSystem(0),
        AttributeView::AnimationSystemRamp(_) => AttributeView::AnimationSystemRamp(0),
        AttributeView::AnimationSystemShake(_) => AttributeView::AnimationSystemShake(0),
        AttributeView::AnimationSystemAudio(_) => AttributeView::AnimationSystemAudio(0),
        AttributeView::AnimationSystemRandom(_) => AttributeView::AnimationSystemRandom(0),
        AttributeView::AnimationSystemPos(_) => AttributeView::AnimationSystemPos(0),
        AttributeView::AnimationSystemPosRotate(_) => AttributeView::AnimationSystemPosRotate(0),
        AttributeView::AnimationSystemPosShake(_) => AttributeView::AnimationSystemPosShake(0),
        AttributeView::AnimationSystemPosRandom(_) => AttributeView::AnimationSystemPosRandom(0),
        AttributeView::AnimationSystemPosAudio(_) => AttributeView::AnimationSystemPosAudio(0),
        AttributeView::AnimationSystemMacro(_) => AttributeView::AnimationSystemMacro(0),
        AttributeView::MediaFolder(_) => AttributeView::MediaFolder(0),
        AttributeView::MediaContent(_) => AttributeView::MediaContent(0),
        AttributeView::ModelFolder(_) => AttributeView::ModelFolder(0),
        AttributeView::ModelContent(_) => AttributeView::ModelContent(0),
        AttributeView::ColorEffects(_) => AttributeView::ColorEffects(0),
        AttributeView::Color(_) => AttributeView::Color(0),
        AttributeView::ColorWheelIndex(_) => AttributeView::ColorWheelIndex(0),
        AttributeView::ColorWheelSpin(_) => AttributeView::ColorWheelSpin(0),
        AttributeView::ColorWheelRandom(_) => AttributeView::ColorWheelRandom(0),
        AttributeView::ColorWheelAudio(_) => AttributeView::ColorWheelAudio(0),
        AttributeView::ColorMacro(_) => AttributeView::ColorMacro(0),
        AttributeView::ColorMacroRate(_) => AttributeView::ColorMacroRate(0),
        AttributeView::Shutter(_) => AttributeView::Shutter(0),
        AttributeView::ShutterStrobe(_) => AttributeView::ShutterStrobe(0),
        AttributeView::ShutterStrobePulse(_) => AttributeView::ShutterStrobePulse(0),
        AttributeView::ShutterStrobePulseClose(_) => AttributeView::ShutterStrobePulseClose(0),
        AttributeView::ShutterStrobePulseOpen(_) => AttributeView::ShutterStrobePulseOpen(0),
        AttributeView::ShutterStrobeRandom(_) => AttributeView::ShutterStrobeRandom(0),
        AttributeView::ShutterStrobeRandomPulse(_) => AttributeView::ShutterStrobeRandomPulse(0),
        AttributeView::ShutterStrobeRandomPulseClose(_) => AttributeView::ShutterStrobeRandomPulseClose(0),
        AttributeView::ShutterStrobeRandomPulseOpen(_) => AttributeView::ShutterStrobeRandomPulseOpen(0),
        AttributeView::ShutterStrobeEffect(_) => AttributeView::ShutterStrobeEffect(0),
        AttributeView::Frost(_) => AttributeView::Frost(0),
        AttributeView::FrostPulseOpen(_) => AttributeView::FrostPulseOpen(0),
        AttributeView::FrostPulseClose(_) => AttributeView::FrostPulseClose(0),
        AttributeView::FrostRamp(_) => AttributeView::FrostRamp(0),
        AttributeView::Prism(_) => AttributeView::Prism(0),
        AttributeView::PrismSelectSpin(_) => AttributeView::PrismSelectSpin(0),
        AttributeView::PrismMacro(_) => AttributeView::PrismMacro(0),
        AttributeView::PrismPos(_) => AttributeView::PrismPos(0),
        AttributeView::PrismPosRotate(_) => AttributeView::PrismPosRotate(0),
        AttributeView::Effects(_) => AttributeView::Effects(0),
        AttributeView::EffectsRate(_) => AttributeView::EffectsRate(0),
        AttributeView::EffectsFade(_) => AttributeView::EffectsFade(0),
        AttributeView::EffectsAdjust(_, _) => AttributeView::EffectsAdjust(0, 0),
        AttributeView::EffectsPos(_) => AttributeView::EffectsPos(0),
        AttributeView::EffectsPosRotate(_) => AttributeView::EffectsPosRotate(0),
        AttributeView::Focus(_) => AttributeView::Focus(0),
        AttributeView::FocusAdjust(_) => AttributeView::FocusAdjust(0),
        AttributeView::FocusDistance(_) => AttributeView::FocusDistance(0),
        AttributeView::Control(_) => AttributeView::Control(0),
        AttributeView::GoboWheelMode(_) => AttributeView::GoboWheelMode(0),
        AttributeView::AnimationWheelMode(_) => AttributeView::AnimationWheelMode(0),
        AttributeView::ColorMode(_) => AttributeView::ColorMode(0),
        AttributeView::FanMode(_) => AttributeView::FanMode(0),
        AttributeView::GoboWheelMSpeed(_) => AttributeView::GoboWheelMSpeed(0),
        AttributeView::PrismMSpeed(_) => AttributeView::PrismMSpeed(0),
        AttributeView::FrostMSpeed(_) => AttributeView::FrostMSpeed(0),
        AttributeView::Blower(_) => AttributeView::Blower(0),
        AttributeView::Fan(_) => AttributeView::Fan(0),
        AttributeView::Fog(_) => AttributeView::Fog(0),
        AttributeView::Haze(_) => AttributeView::Haze(0),
        AttributeView::BladeA(_) => AttributeView::BladeA(0),
        AttributeView::BladeB(_) => AttributeView::BladeB(0),
        AttributeView::BladeRot(_) => AttributeView::BladeRot(0),
        AttributeView::BladeSoftA(_) => AttributeView::BladeSoftA(0),
        AttributeView::BladeSoftB(_) => AttributeView::BladeSoftB(0),
        AttributeView::KeyStoneA(_) => AttributeView::KeyStoneA(0),
        AttributeView::KeyStoneB(_) => AttributeView::KeyStoneB(0),
        AttributeView::VideoEffectType(_) => AttributeView::VideoEffectType(0),
        AttributeView::VideoEffectParameter(_, _) => AttributeView::VideoEffectParameter(0, 0),
        AttributeView::VideoCamera(_) => AttributeView::VideoCamera(0),
        AttributeView::VideoSoundVolume(_) => AttributeView::VideoSoundVolume(0),
        other => other,
    }
}

/// The numbers an attribute carries never change its feature group: two
/// attributes that differ in their numbers alone have the same group.
pub proof fn law_feature_group_ignores_numbers(a: AttributeView, b: AttributeView)
    requires
        clear_numbers(a) == clear_numbers(b),
    ensures
        a.feature_group() == b.feature_group(),
{
    lemma_clear_numbers_keeps_group(a);
    lemma_clear_numbers_keeps_group(b);
}

/// Clearing an attribute's numbers keeps its feature group.
pub proof fn lemma_clear_numbers_keeps_group(a: AttributeView)
    ensures
        clear_numbers(a).feature_group() == a.feature_group(),
{
    match a {
        AttributeView::Dimmer => {},
        AttributeView::Pan => {},
        AttributeView::Tilt => {},
        AttributeView::PanRotate => {},
        AttributeView::TiltRotate => {},
        AttributeView::PositionEffect => {},
        AttributeView::PositionEffectRate => {},
        AttributeView::PositionEffectFade => {},
        AttributeView::XyzX => {},
        AttributeView::XyzY => {},
        AttributeView::XyzZ => {},
        AttributeView::RotX => {},
        AttributeView::RotY => {},
        AttributeView::RotZ => {},
        AttributeView::ScaleX => {},
        AttributeView::ScaleY => {},
        AttributeView::ScaleZ => {},
        AttributeView::ScaleXYZ => {},
        AttributeView::Gobo(_) => {},
        AttributeView::GoboSelectSpin(_) => {},
        AttributeView::GoboSelectShake(_) => {},
        AttributeView::GoboSelectEffects(_) => {},
        AttributeView::GoboWheelIndex(_) => {},
        AttributeView::GoboWheelSpin(_) => {},
        AttributeView::GoboWheelShake(_) => {},
        AttributeView::GoboWheelRandom(_) => {},
        AttributeView::GoboWheelAudio(_) => {},
        AttributeView::GoboPos(_) => {},
        AttributeView::GoboPosRotate(_) => {},
        AttributeView::GoboPosShake(_) => {},
        AttributeView::AnimationWheel(_) => {},
        AttributeView::AnimationWheelAudio(_) => {},
        AttributeView::AnimationWheelMacro(_) => {},
        AttributeView::AnimationWheelRandom(_) => {},
        AttributeView::AnimationWheelSelectEffects(_) => {},
        AttributeView::AnimationWheelSelectShake(_) => {},
        AttributeView::AnimationWheelSelectSpin(_) => {},
        AttributeView::AnimationWheelPos(_) => {},
        AttributeView::AnimationWheelPosRotate(_) => {},
        AttributeView::AnimationWheelPosShake(_) => {},
        AttributeView::AnimationSystem(_) => {},
        AttributeView::AnimationSystemRamp(_) => {},
        AttributeView::AnimationSystemShake(_) => {},
        AttributeView::AnimationSystemAudio(_) => {},
        AttributeView::AnimationSystemRandom(_) => {},
        AttributeView::AnimationSystemPos(_) => {},
        AttributeView::AnimationSystemPosRotate(_) => {},
        AttributeView::AnimationSystemPosShake(_) => {},
        AttributeView::AnimationSystemPosRandom(_) => {},
        AttributeView::AnimationSystemPosAudio(_) => {},
        AttributeView::AnimationSystemMacro(_) => {},
        AttributeView::MediaFolder(_) => {},
        AttributeView::MediaContent(_) => {},
        AttributeView::ModelFolder(_) => {},
        AttributeView::ModelContent(_) => {},
        AttributeView::PlayMode => {},
        AttributeView::PlayBegin => {},
        AttributeView::PlayEnd => {},
        AttributeView::PlaySpeed => {},
        AttributeView::ColorEffects(_) => {},
        AttributeView::Color(_) => {},
        AttributeView::ColorWheelIndex(_) => {},
        AttributeView::ColorWheelSpin(_) => {},
        AttributeView::ColorWheelRandom(_) => {},
        AttributeView::ColorWheelAudio(_) => {},
        AttributeView::ColorAddR => {},
        AttributeView::ColorAddG => {},
        AttributeView::ColorAddB => {},
        AttributeView::ColorAddC => {},
        AttributeView::ColorAddM => {},
        AttributeView::ColorAddY => {},
        AttributeView::ColorAddRY => {},
        AttributeView::ColorAddGY => {},
        AttributeView::ColorAddGC => {},
        AttributeView::ColorAddBC => {},
        AttributeView::ColorAddBM => {},
        AttributeView::ColorAddRM => {},
        AttributeView::ColorAddW => {},
        AttributeView::ColorAddWW => {},
        AttributeView::ColorAddCW => {},
        AttributeView::ColorAddUV => {},
        AttributeView::ColorSubR => {},
        AttributeView::ColorSubG => {},
        AttributeView::ColorSubB => {},
        AttributeView::ColorSubC => {},
        AttributeView::ColorSubM => {},
        AttributeView::ColorSubY => {},
        AttributeView::ColorMacro(_) => {},
        AttributeView::ColorMacroRate(_) => {},
        AttributeView::Cto => {},
        AttributeView::Ctc => {},
        AttributeView::Ctb => {},
        AttributeView::Tint => {},
        AttributeView::HsbHue => {},
        AttributeView::HsbSaturation => {},
        AttributeView::HsbBrightness => {},
        AttributeView::HsbQuality => {},
        AttributeView::CieX => {},
        AttributeView::CieY => {},
        AttributeView::CieBrightness => {},
        AttributeView::ColorRgbRed => {},
        AttributeView::ColorRgbGreen => {},
        AttributeView::ColorRgbBlue => {},
        AttributeView::ColorRgbCyan => {},
        AttributeView::ColorRgbMagenta => {},
        AttributeView::ColorRgbYellow => {},
        AttributeView::ColorRgbQuality => {},
        AttributeView::VideoBoostR => {},
        AttributeView::VideoBoostG => {},
        AttributeView::VideoBoostB => {},
        AttributeView::VideoHueShift => {},
        AttributeView::VideoSaturation => {},
        AttributeView::VideoBrightness => {},
        AttributeView::VideoContrast => {},
        AttributeView::VideoKeyColorR => {},
        AttributeView::VideoKeyColorG => {},
        AttributeView::VideoKeyColorB => {},
        AttributeView::VideoKeyIntensity => {},
        AttributeView::VideoKeyTolerance => {},
        AttributeView::StrobeDuration => {},
        AttributeView::StrobeRate => {},
        AttributeView::StrobeFrequency => {},
        AttributeView::StrobeModeShutter => {},
        AttributeView::StrobeModeStrobe => {},
        AttributeView::StrobeModePulse => {},
        AttributeView::StrobeModePulseOpen => {},
        AttributeView::StrobeModePulseClose => {},
        AttributeView::StrobeModeRandom => {},
        AttributeView::StrobeModeRandomPulse => {},
        AttributeView::StrobeModeRandomPulseOpen => {},
        AttributeView::StrobeModeRandomPulseClose => {},
        AttributeView::StrobeModeEffect => {},
        AttributeView::Shutter(_) => {},
        AttributeView::ShutterStrobe(_) => {},
        AttributeView::ShutterStrobePulse(_) => {},
        AttributeView::ShutterStrobePulseClose(_) => {},
        AttributeView::ShutterStrobePulseOpen(_) => {},
        AttributeView::ShutterStrobeRandom(_) => {},
        AttributeView::ShutterStrobeRandomPulse(_) => {},
        AttributeView::ShutterStrobeRandomPulseClose(_) => {},
        AttributeView::ShutterStrobeRandomPulseOpen(_) => {},
        AttributeView::ShutterStrobeEffect(_) => {},
        AttributeView::Iris => {},
        AttributeView::IrisStrobe => {},
        AttributeView::IrisStrobeRandom => {},
        AttributeView::IrisPulseClose => {},
        AttributeView::IrisPulseOpen => {},
        AttributeView::IrisRandomPulseClose => {},
        AttributeView::IrisRandomPulseOpen => {},
        AttributeView::Frost(_) => {},
        AttributeView::FrostPulseOpen(_) => {},
        AttributeView::FrostPulseClose(_) => {},
        AttributeView::FrostRamp(_) => {},
        AttributeView::Prism(_) => {},
        AttributeView::PrismSelectSpin(_) => {},
        AttributeView::PrismMacro(_) => {},
        AttributeView::PrismPos(_) => {},
        AttributeView::PrismPosRotate(_) => {},
        AttributeView::Effects(_) => {},
        AttributeView::EffectsRate(_) => {},
        AttributeView::EffectsFade(_) => {},
        AttributeView::EffectsAdjust(_, _) => {},
        AttributeView::EffectsPos(_) => {},
        AttributeView::EffectsPosRotate(_) => {},
        AttributeView::EffectsSync => {},
        AttributeView::BeamShaper => {},
        AttributeView::BeamShaperMacro => {},
        AttributeView::BeamShaperPos => {},
        AttributeView::BeamShaperPosRotate => {},
        AttributeView::Zoom => {},
        AttributeView::ZoomModeSpot => {},
        AttributeView::ZoomModeBeam => {},
        AttributeView::DigitalZoom => {},
        AttributeView::Focus(_) => {},
        AttributeView::FocusAdjust(_) => {},
        AttributeView::FocusDistance(_) => {},
        AttributeView::Control(_) => {},
        AttributeView::DimmerMode => {},
        AttributeView::DimmerCurve => {},
        AttributeView::BlackoutMode => {},
        AttributeView::LedFrequency => {},
        AttributeView::LedZoneMode => {},
        AttributeView::PixelMode => {},
        AttributeView::PanMode => {},
        AttributeView::TiltMode => {},
        AttributeView::PanTiltMode => {},
        AttributeView::PositionModes => {},
        AttributeView::GoboWheelMode(_) => {},
        AttributeView::GoboWheelShortcutMode => {},
        AttributeView::AnimationWheelMode(_) => {},
        AttributeView::AnimationWheelShortcutMode => {},
        AttributeView::ColorMode(_) => {},
        AttributeView::ColorWheelShortcutMode => {},
        AttributeView::CyanMode => {},
        AttributeView::MagentaMode => {},
        AttributeView::YellowMode => {},
        AttributeView::ColorMixMode => {},
        AttributeView::ChromaticMode => {},
        AttributeView::ColorCalibrationMode => {},
        AttributeView::ColorConsistency => {},
        AttributeView::ColorControl => {},
        AttributeView::ColorModelMode => {},
        AttributeView::ColorSettingsReset => {},
        AttributeView::ColorUniformity => {},
        AttributeView::CriMode => {},
        AttributeView::CustomColor => {},
        AttributeView::UvStability => {},
        AttributeView::WavelengthCorrection => {},
        AttributeView::WhiteCount => {},
        AttributeView::StrobeMode => {},
        AttributeView::ZoomMode => {},
        AttributeView::FocusMode => {},
        AttributeView::IrisMode => {},
        AttributeView::FanMode(_) => {},
        AttributeView::FollowSpotMode => {},
        AttributeView::BeamEffectIndexRotateMode => {},
        AttributeView::IntensityMSpeed => {},
        AttributeView::PositionMSpeed => {},
        AttributeView::ColorMixMSpeed => {},
        AttributeView::ColorWheelSelectMSpeed => {},
        AttributeView::GoboWheelMSpeed(_) => {},
        AttributeView::IrisMSpeed => {},
        AttributeView::PrismMSpeed(_) => {},
        AttributeView::FocusMSpeed => {},
        AttributeView::FrostMSpeed(_) => {},
        AttributeView::ZoomMSpeed => {},
        AttributeView::FrameMSpeed => {},
        AttributeView::GlobalMSpeed => {},
        AttributeView::ReflectorAdjust => {},
        AttributeView::FixtureGlobalReset => {},
        AttributeView::DimmerReset => {},
        AttributeView::ShutterReset => {},
        AttributeView::BeamReset => {},
        AttributeView::ColorMixReset => {},
        AttributeView::ColorWheelReset => {},
        AttributeView::FocusReset => {},
        AttributeView::FrameReset => {},
        AttributeView::GoboWheelReset => {},
        AttributeView::IntensityReset => {},
        AttributeView::IrisReset => {},
        AttributeView::PositionReset => {},
        AttributeView::PanReset => {},
        AttributeView::TiltReset => {},
        AttributeView::ZoomReset => {},
        AttributeView::CtbReset => {},
        AttributeView::CtoReset => {},
        AttributeView::CtcReset => {},
        AttributeView::AnimationSystemReset => {},
        AttributeView::FixtureCalibrationReset => {},
        AttributeView::Function => {},
        AttributeView::LampControl => {},
        AttributeView::DisplayIntensity => {},
        AttributeView::DmxInput => {},
        AttributeView::NoFeature => {},
        AttributeView::Blower(_) => {},
        AttributeView::Fan(_) => {},
        AttributeView::Fog(_) => {},
        AttributeView::Haze(_) => {},
        AttributeView::LampPowerMode => {},
        AttributeView::Fans => {},
        AttributeView::BladeA(_) => {},
        AttributeView::BladeB(_) => {},
        AttributeView::BladeRot(_) => {},
        AttributeView::ShaperRot => {},
        AttributeView::ShaperMacros => {},
        AttributeView::ShaperMacrosSpeed => {},
        AttributeView::BladeSoftA(_) => {},
        AttributeView::BladeSoftB(_) => {},
        AttributeView::KeyStoneA(_) => {},
        AttributeView::KeyStoneB(_) => {},
        AttributeView::Video => {},
        AttributeView::VideoEffectType(_) => {},
        AttributeView::VideoEffectParameter(_, _) => {},
        AttributeView::VideoCamera(_) => {},
        AttributeView::VideoSoundVolume(_) => {},
        AttributeView::VideoBlendMode => {},
        AttributeView::InputSource => {},
        AttributeView::FieldOfView => {},
        AttributeView::Custom(_) => {},
    }
}

/// Each keyword that takes an object makes the command of its own name:
/// `store`, `update`, `delete` and `go` followed by an object kind and a
/// positive number give a store, update, delete or go command on that
/// object, whatever follows.
pub proof fn law_keyword_makes_its_command(
    kw: Keyword,
    kind: ObjectKind,
    n: i32,
    rest: Seq<Parameter>,
    r: Result<Option<Command>, CommandError>,
)
    requires
        kw is Store || kw is Update || kw is Delete || kw is Go,
        n > 0,
        resolves_to(
            seq![Parameter::Keyword(kw), Parameter::ObjectKind(kind), Parameter::Integer(n)] + rest,
            r,
        ),
    ensures
        match kw {
            Keyword::Store => r matches Ok(Some(Command::Store { destination: o })) && o.kind == kind
                && o.pool_id.value() == n,
            Keyword::Update => r matches Ok(Some(Command::Update { object: o })) && o.kind == kind
                && o.pool_id.value() == n,
            Keyword::Delete => r matches Ok(Some(Command::Delete { object: o })) && o.kind == kind
                && o.pool_id.value() == n,
            Keyword::Go => r matches Ok(Some(Command::Go { executor: o })) && o.kind == kind
                && o.pool_id.value() == n,
            _ => true,
        },
{
    let ps = seq![Parameter::Keyword(kw), Parameter::ObjectKind(kind), Parameter::Integer(n)] + rest;
    assert(ps[0] == Parameter::Keyword(kw));
    assert(ps[1] == Parameter::ObjectKind(kind));
    assert(ps[2] == Parameter::Integer(n));
    let o = choose|o: Result<ObjectReference, CommandError>|
        reads_obj_ref(ps, 1, o) && match o {
            Err(e) => r == Err::<Option<Command>, CommandError>(e),
            Ok(obj) => r == Ok::<Option<Command>, CommandError>(
                Some(
                    match kw {
                        Keyword::Store => Command::Store { destination: obj },
                        Keyword::Update => Command::Update { object: obj },
                        Keyword::Delete => Command::Delete { object: obj },
                        _ => Command::Go { executor: obj },
                    },
                ),
            ),
        };
    assert(reads_obj_ref(ps, 1, o));
}

/// The feature groups of the dimmer and the position: only the dimmer
/// belongs to the dimmer group; pan, tilt and the other position attributes
/// (rotation, position effects, XYZ position, rotation and scale) belong to
/// the position group; only custom attributes belong to no group.
pub proof fn law_dimmer_and_position_groups(a: AttributeView)
    ensures
        (a.feature_group() == Some(FeatureGroup::Dimmer)) <==> (a is Dimmer),
        a is Pan || a is Tilt || a is PanRotate || a is TiltRotate || a is PositionEffect || a is PositionEffectRate || a is PositionEffectFade || a is XyzX || a is XyzY || a is XyzZ || a is RotX || a is RotY || a is RotZ || a is ScaleX || a is ScaleY || a is ScaleZ || a is ScaleXYZ ==> a.feature_group() == Some(FeatureGroup::Position),
        (a.feature_group() is None) <==> (a is Custom),
{
    match a {
        AttributeView::Dimmer => {},
        AttributeView::Pan => {},
        AttributeView::Tilt => {},
        AttributeView::PanRotate => {},
        AttributeView::TiltRotate => {},
        AttributeView::PositionEffect => {},
        AttributeView::PositionEffectRate => {},
        AttributeView::PositionEffectFade => {},
        AttributeView::XyzX => {},
        AttributeView::XyzY => {},
        AttributeView::XyzZ => {},
        AttributeView::RotX => {},
        AttributeView::RotY => {},
        AttributeView::RotZ => {},
        AttributeView::ScaleX => {},
        AttributeView::ScaleY => {},
        AttributeView::ScaleZ => {},
        AttributeView::ScaleXYZ => {},
        AttributeView::Gobo(_) => {},
        AttributeView::GoboSelectSpin(_) => {},
        AttributeView::GoboSelectShake(_) => {},
        AttributeView::GoboSelectEffects(_) => {},
        AttributeView::GoboWheelIndex(_) => {},
        AttributeView::GoboWheelSpin(_) => {},
        AttributeView::GoboWheelShake(_) => {},
        AttributeView::GoboWheelRandom(_) => {},
        AttributeView::GoboWheelAudio(_) => {},
        AttributeView::GoboPos(_) => {},
        AttributeView::GoboPosRotate(_) => {},
        AttributeView::GoboPosShake(_) => {},
        AttributeView::AnimationWheel(_) => {},
        AttributeView::AnimationWheelAudio(_) => {},
        AttributeView::AnimationWheelMacro(_) => {},
        AttributeView::AnimationWheelRandom(_) => {},
        AttributeView::AnimationWheelSelectEffects(_) => {},
        AttributeView::AnimationWheelSelectShake(_) => {},
        AttributeView::AnimationWheelSelectSpin(_) => {},
        AttributeView::AnimationWheelPos(_) => {},
        AttributeView::AnimationWheelPosRotate(_) => {},
        AttributeView::AnimationWheelPosShake(_) => {},
        AttributeView::AnimationSystem(_) => {},
        AttributeView::AnimationSystemRamp(_) => {},
        AttributeView::AnimationSystemShake(_) => {},
        AttributeView::AnimationSystemAudio(_) => {},
        AttributeView::AnimationSystemRandom(_) => {},
        AttributeView::AnimationSystemPos(_) => {},
        AttributeView::AnimationSystemPosRotate(_) => {},
        AttributeView::AnimationSystemPosShake(_) => {},
        AttributeView::AnimationSystemPosRandom(_) => {},
        AttributeView::AnimationSystemPosAudio(_) => {},
        AttributeView::AnimationSystemMacro(_) => {},
        AttributeView::MediaFolder(_) => {},
        AttributeView::MediaContent(_) => {},
        AttributeView::ModelFolder(_) => {},
        AttributeView::ModelContent(_) => {},
        AttributeView::PlayMode => {},
        AttributeView::PlayBegin => {},
        AttributeView::PlayEnd => {},
        AttributeView::PlaySpeed => {},
        AttributeView::ColorEffects(_) => {},
        AttributeView::Color(_) => {},
        AttributeView::ColorWheelIndex(_) => {},
        AttributeView::ColorWheelSpin(_) => {},
        AttributeView::ColorWheelRandom(_) => {},
        AttributeView::ColorWheelAudio(_) => {},
        AttributeView::ColorAddR => {},
        AttributeView::ColorAddG => {},
        AttributeView::ColorAddB => {},
        AttributeView::ColorAddC => {},
        AttributeView::ColorAddM => {},
        AttributeView::ColorAddY => {},
        AttributeView::ColorAddRY => {},
        AttributeView::ColorAddGY => {},
        AttributeView::ColorAddGC => {},
        AttributeView::ColorAddBC => {},
        AttributeView::ColorAddBM => {},
        AttributeView::ColorAddRM => {},
        AttributeView::ColorAddW => {},
        AttributeView::ColorAddWW => {},
        AttributeView::ColorAddCW => {},
        AttributeView::ColorAddUV => {},
        AttributeView::ColorSubR => {},
        AttributeView::ColorSubG => {},
        AttributeView::ColorSubB => {},
        AttributeView::ColorSubC => {},
        AttributeView::ColorSubM => {},
        AttributeView::ColorSubY => {},
        AttributeView::ColorMacro(_) => {},
        AttributeView::ColorMacroRate(_) => {},
        AttributeView::Cto => {},
        AttributeView::Ctc => {},
        AttributeView::Ctb => {},
        AttributeView::Tint => {},
        AttributeView::HsbHue => {},
        AttributeView::HsbSaturation => {},
        AttributeView::HsbBrightness => {},
        AttributeView::HsbQuality => {},
        AttributeView::CieX => {},
        AttributeView::CieY => {},
        AttributeView::CieBrightness => {},
        AttributeView::ColorRgbRed => {},
        AttributeView::ColorRgbGreen => {},
        AttributeView::ColorRgbBlue => {},
        AttributeView::ColorRgbCyan => {},
        AttributeView::ColorRgbMagenta => {},
        AttributeView::ColorRgbYellow => {},
        AttributeView::ColorRgbQuality => {},
        AttributeView::VideoBoostR => {},
        AttributeView::VideoBoostG => {},
        AttributeView::VideoBoostB => {},
        AttributeView::VideoHueShift => {},
        AttributeView::VideoSaturation => {},
        AttributeView::VideoBrightness => {},
        AttributeView::VideoContrast => {},
        AttributeView::VideoKeyColorR => {},
        AttributeView::VideoKeyColorG => {},
        AttributeView::VideoKeyColorB => {},
        AttributeView::VideoKeyIntensity => {},
        AttributeView::VideoKeyTolerance => {},
        AttributeView::StrobeDuration => {},
        AttributeView::StrobeRate => {},
        AttributeView::StrobeFrequency => {},
        AttributeView::StrobeModeShutter => {},
        AttributeView::StrobeModeStrobe => {},
        AttributeView::StrobeModePulse => {},
        AttributeView::StrobeModePulseOpen => {},
        AttributeView::StrobeModePulseClose => {},
        AttributeView::StrobeModeRandom => {},
        AttributeView::StrobeModeRandomPulse => {},
        AttributeView::StrobeModeRandomPulseOpen => {},
        AttributeView::StrobeModeRandomPulseClose => {},
        AttributeView::StrobeModeEffect => {},
        AttributeView::Shutter(_) => {},
        AttributeView::ShutterStrobe(_) => {},
        AttributeView::ShutterStrobePulse(_) => {},
        AttributeView::ShutterStrobePulseClose(_) => {},
        AttributeView::ShutterStrobePulseOpen(_) => {},
        AttributeView::ShutterStrobeRandom(_) => {},
        AttributeView::ShutterStrobeRandomPulse(_) => {},
        AttributeView::ShutterStrobeRandomPulseClose(_) => {},
        AttributeView::ShutterStrobeRandomPulseOpen(_) => {},
        AttributeView::ShutterStrobeEffect(_) => {},
        AttributeView::Iris => {},
        AttributeView::IrisStrobe => {},
        AttributeView::IrisStrobeRandom => {},
        AttributeView::IrisPulseClose => {},
        AttributeView::IrisPulseOpen => {},
        AttributeView::IrisRandomPulseClose => {},
        AttributeView::IrisRandomPulseOpen => {},
        AttributeView::Frost(_) => {},
        AttributeView::FrostPulseOpen(_) => {},
        AttributeView::FrostPulseClose(_) => {},
        AttributeView::FrostRamp(_) => {},
        AttributeView::Prism(_) => {},
        AttributeView::PrismSelectSpin(_) => {},
        AttributeView::PrismMacro(_) => {},
        AttributeView::PrismPos(_) => {},
        AttributeView::PrismPosRotate(_) => {},
        AttributeView::Effects(_) => {},
        AttributeView::EffectsRate(_) => {},
        AttributeView::EffectsFade(_) => {},
        AttributeView::EffectsAdjust(_, _) => {},
        AttributeView::EffectsPos(_) => {},
        AttributeView::EffectsPosRotate(_) => {},
        AttributeView::EffectsSync => {},
        AttributeView::BeamShaper => {},
        AttributeView::BeamShaperMacro => {},
        AttributeView::BeamShaperPos => {},
        AttributeView::BeamShaperPosRotate => {},
        AttributeView::Zoom => {},
        AttributeView::ZoomModeSpot => {},
        AttributeView::ZoomModeBeam => {},
        AttributeView::DigitalZoom => {},
        AttributeView::Focus(_) => {},
        AttributeView::FocusAdjust(_) => {},
        AttributeView::FocusDistance(_) => {},
        AttributeView::Control(_) => {},
        AttributeView::DimmerMode => {},
        AttributeView::DimmerCurve => {},
        AttributeView::BlackoutMode => {},
        AttributeView::LedFrequency => {},
        AttributeView::LedZoneMode => {},
        AttributeView::PixelMode => {},
        AttributeView::PanMode => {},
        AttributeView::TiltMode => {},
        AttributeView::PanTiltMode => {},
        AttributeView::PositionModes => {},
        AttributeView::GoboWheelMode(_) => {},
        AttributeView::GoboWheelShortcutMode => {},
        AttributeView::AnimationWheelMode(_) => {},
        AttributeView::AnimationWheelShortcutMode => {},
        AttributeView::ColorMode(_) => {},
        AttributeView::ColorWheelShortcutMode => {},
        AttributeView::CyanMode => {},
        AttributeView::MagentaMode => {},
        AttributeView::YellowMode => {},
        AttributeView::ColorMixMode => {},
        AttributeView::ChromaticMode => {},
        AttributeView::ColorCalibrationMode => {},
        AttributeView::ColorConsistency => {},
        AttributeView::ColorControl => {},
        AttributeView::ColorModelMode => {},
        AttributeView::ColorSettingsReset => {},
        AttributeView::ColorUniformity => {},
        AttributeView::CriMode => {},
        AttributeView::CustomColor => {},
        AttributeView::UvStability => {},
        AttributeView::WavelengthCorrection => {},
        AttributeView::WhiteCount => {},
        AttributeView::StrobeMode => {},
        AttributeView::ZoomMode => {},
        AttributeView::FocusMode => {},
        AttributeView::IrisMode => {},
        AttributeView::FanMode(_) => {},
        AttributeView::FollowSpotMode => {},
        AttributeView::BeamEffectIndexRotateMode => {},
        AttributeView::IntensityMSpeed => {},
        AttributeView::PositionMSpeed => {},
        AttributeView::ColorMixMSpeed => {},
        AttributeView::ColorWheelSelectMSpeed => {},
        AttributeView::GoboWheelMSpeed(_) => {},
        AttributeView::IrisMSpeed => {},
        AttributeView::PrismMSpeed(_) => {},
        AttributeView::FocusMSpeed => {},
        AttributeView::FrostMSpeed(_) => {},
        AttributeView::ZoomMSpeed => {},
        AttributeView::FrameMSpeed => {},
        AttributeView::GlobalMSpeed => {},
        AttributeView::ReflectorAdjust => {},
        AttributeView::FixtureGlobalReset => {},
        AttributeView::DimmerReset => {},
        AttributeView::ShutterReset => {},
        AttributeView::BeamReset => {},
        AttributeView::ColorMixReset => {},
        AttributeView::ColorWheelReset => {},
        AttributeView::FocusReset => {},
        AttributeView::FrameReset => {},
        AttributeView::GoboWheelReset => {},
        AttributeView::IntensityReset => {},
        AttributeView::IrisReset => {},
        AttributeView::PositionReset => {},
        AttributeView::PanReset => {},
        AttributeView::TiltReset => {},
        AttributeView::ZoomReset => {},
        AttributeView::CtbReset => {},
        AttributeView::CtoReset => {},
        AttributeView::CtcReset => {},
        AttributeView::AnimationSystemReset => {},
        AttributeView::FixtureCalibrationReset => {},
        AttributeView::Function => {},
        AttributeView::LampControl => {},
        AttributeView::DisplayIntensity => {},
        AttributeView::DmxInput => {},
        AttributeView::NoFeature => {},
        AttributeView::Blower(_) => {},
        AttributeView::Fan(_) => {},
        AttributeView::Fog(_) => {},
        AttributeView::Haze(_) => {},
        AttributeView::LampPowerMode => {},
        AttributeView::Fans => {},
        AttributeView::BladeA(_) => {},
        AttributeView::BladeB(_) => {},
        AttributeView::BladeRot(_) => {},
        AttributeView::ShaperRot => {},
        AttributeView::ShaperMacros => {},
        AttributeView::ShaperMacrosSpeed => {},
        AttributeView::BladeSoftA(_) => {},
        AttributeView::BladeSoftB(_) => {},
        AttributeView::KeyStoneA(_) => {},
        AttributeView::KeyStoneB(_) => {},
        AttributeView::Video => {},
        AttributeView::VideoEffectType(_) => {},
        AttributeView::VideoEffectParameter(_, _) => {},
        AttributeView::VideoCamera(_) => {},
        AttributeView::VideoSoundVolume(_) => {},
        AttributeView::VideoBlendMode => {},
        AttributeView::InputSource => {},
        AttributeView::FieldOfView => {},
        AttributeView::Custom(_) => {},
    }
}

/// All offsets of the channels of a DMX mode, channel by channel.
pub open spec fn mode_offsets(chs: Seq<DmxChannel>) -> Seq<i32>
    decreases chs.len(),
{
    if chs.len() == 0 {
        Seq::empty()
    } else {
        mode_offsets(chs.drop_last()) + offsets_of(chs.last())
    }
}

proof fn lemma_count_offsets_append(st: (int, int), a: Seq<i32>, b: Seq<i32>)
    ensures
        count_offsets(st, a + b) == count_offsets(count_offsets(st, a), b),
    decreases b.len(),
{
    if b.len() == 0 {
        assert(a + b =~= a);
    } else {
        lemma_count_offsets_append(st, a, b.drop_last());
        assert((a + b).drop_last() =~= a + b.drop_last());
    }
}

proof fn lemma_count_channels_flat(chs: Seq<DmxChannel>)
    ensures
        count_channels(chs) == count_offsets((1, 1), mode_offsets(chs)),
    decreases chs.len(),
{
    if chs.len() > 0 {
        lemma_count_channels_flat(chs.drop_last());
        lemma_count_offsets_append((1, 1), mode_offsets(chs.drop_last()), offsets_of(chs.last()));
    }
}

proof fn lemma_count_offsets_span(s: Seq<i32>)
    requires
        s.len() > 0,
        forall|k: int| 0 <= k < s.len() ==> channel_offset(#[trigger] s[k]) != 1,
    ensures
        forall|k: int|
            0 <= k < s.len() ==> count_offsets((1, 1), s).0 <= channel_offset(#[trigger] s[k]) <= count_offsets(
                (1, 1),
                s,
            ).1,
        exists|k: int| 0 <= k < s.len() && count_offsets((1, 1), s).0 == channel_offset(#[trigger] s[k]),
        exists|k: int| 0 <= k < s.len() && count_offsets((1, 1), s).1 == channel_offset(#[trigger] s[k]),
    decreases s.len(),
{
    let t = s.drop_last();
    let x = s.last();
    let last = s.len() - 1;
    assert(s[last] == x);
    if t.len() == 0 {
        assert(count_offsets((1, 1), t) == (1int, 1int));
        assert(s.len() == 1);
    } else {
        assert forall|k: int| 0 <= k < t.len() implies channel_offset(#[trigger] t[k]) != 1 by {
            assert(t[k] == s[k]);
        }
        lemma_count_offsets_span(t);
        let st = count_offsets((1, 1), t);
        let k0 = choose|k: int| 0 <= k < t.len() && st.0 == channel_offset(#[trigger] t[k]);
        let k1 = choose|k: int| 0 <= k < t.len() && st.1 == channel_offset(#[trigger] t[k]);
        assert(t[k0] == s[k0]);
        assert(t[k1] == s[k1]);
        assert(st.0 != 1);
        assert(st.1 != 1);
        assert forall|k: int| 0 <= k < s.len() implies count_offsets((1, 1), s).0 <= channel_offset(
            #[trigger] s[k],
        ) <= count_offsets((1, 1), s).1 by {
            if k < last {
                assert(t[k] == s[k]);
            }
        }
        if channel_offset(x) < st.0 {
            assert(count_offsets((1, 1), s).0 == channel_offset(s[last]));
        } else {
            assert(count_offsets((1, 1), s).0 == channel_offset(s[k0]));
        }
        if channel_offset(x) > st.1 {
            assert(count_offsets((1, 1), s).1 == channel_offset(s[last]));
        } else {
            assert(count_offsets((1, 1), s).1 == channel_offset(s[k1]));
        }
    }
}

/// The channels a DMX mode spans run from its lowest to its highest offset,
/// counting every offset of every channel (the coarse and the fine bytes of
/// a 16-bit channel alike): the count is at least the distance between any
/// two offsets plus one, and exactly that for some two. A mode with no
/// offsets spans one channel. The scan takes a 0-based offset of 1 for "not
/// seen yet", so modes with a 1-based offset of 2 are left out.
pub proof fn law_channel_count_spans_offsets(m: DmxMode)
    requires
        forall|k: int|
            0 <= k < mode_offsets(m.channels@).len() ==> channel_offset(#[trigger] mode_offsets(m.channels@)[k])
                != 1,
    ensures
        mode_offsets(m.channels@).len() == 0 ==> spec_channel_count(m) == 1,
        forall|i: int, j: int|
            0 <= i < mode_offsets(m.channels@).len() && 0 <= j < mode_offsets(m.channels@).len()
                ==> spec_channel_count(m) >= channel_offset(#[trigger] mode_offsets(m.channels@)[i])
                - channel_offset(#[trigger] mode_offsets(m.channels@)[j]) + 1,
        mode_offsets(m.channels@).len() > 0 ==> exists|i: int, j: int|
            0 <= i < mode_offsets(m.channels@).len() && 0 <= j < mode_offsets(m.channels@).len()
                && spec_channel_count(m) == channel_offset(#[trigger] mode_offsets(m.channels@)[i])
                - channel_offset(#[trigger] mode_offsets(m.channels@)[j]) + 1,
{
    let s = mode_offsets(m.channels@);
    lemma_count_channels_flat(m.channels@);
    if s.len() == 0 {
        assert(count_offsets((1, 1), s) == (1int, 1int));
    } else {
        lemma_count_offsets_span(s);
        let st = count_offsets((1, 1), s);
        let k0 = choose|k: int| 0 <= k < s.len() && st.0 == channel_offset(#[trigger] s[k]);
        let k1 = choose|k: int| 0 <= k < s.len() && st.1 == channel_offset(#[trigger] s[k]);
        assert(spec_channel_count(m) == channel_offset(s[k1]) - channel_offset(s[k0]) + 1);
    }
}

/// The count of channels depends on the offsets alone, in the order the
/// channels give them, not on how they are split into channels: a 16-bit
/// channel with offsets 2 and 3 counts as two 8-bit channels with those
/// offsets do.
pub proof fn law_channel_count_by_offsets(m1: DmxMode, m2: DmxMode)
    requires
        mode_offsets(m1.channels@) == mode_offsets(m2.channels@),
    ensures
        spec_channel_count(m1) == spec_channel_count(m2),
{
    lemma_count_channels_flat(m1.channels@);
    lemma_count_channels_flat(m2.channels@);
}

proof fn lemma_selective_entry_sets(s: SelectivePreset, patch: Patch, j: int, fids: Seq<FixtureId>)
    requires
        0 <= j < s.values.pairs().len(),
    ensures
        forall|k: int|
            0 <= k < entry_sets(PresetContent::Selective(s), patch, j, fids).len() ==> #[trigger] entry_sets(
                PresetContent::Selective(s),
                patch,
                j,
                fids,
            )[k] == s.values.pairs()[j] && fids.contains(s.values.pairs()[j].0.0),
    decreases fids.len(),
{
    if fids.len() > 0 {
        let c = PresetContent::Selective(s);
        let t = fids.drop_last();
        lemma_selective_entry_sets(s, patch, j, t);
        let prev = entry_sets(c, patch, j, t);
        assert forall|k: int| 0 <= k < entry_sets(c, patch, j, fids).len() implies #[trigger] entry_sets(
            c,
            patch,
            j,
            fids,
        )[k] == s.values.pairs()[j] && fids.contains(s.values.pairs()[j].0.0) by {
            if k < prev.len() {
                assert(entry_sets(c, patch, j, fids)[k] == prev[k]);
                let w = choose|w: int| 0 <= w < t.len() && t[w] == s.values.pairs()[j].0.0;
                assert(fids[w] == t[w]);
            } else {
                assert(fids[fids.len() - 1] == fids.last());
            }
        }
    }
}

/// A selective preset puts a value only on the fixture it holds the value
/// for: every value set a selective preset gives the fixtures `fids` is one
/// of the preset's own entries (fixture, attribute and value), for a fixture
/// among `fids`.
pub proof fn law_selective_preset_sets(s: SelectivePreset, patch: Patch, n: int, fids: Seq<FixtureId>, k: int)
    requires
        0 <= n <= s.values.pairs().len(),
        0 <= k < content_sets(PresetContent::Selective(s), patch, n, fids).len(),
    ensures
        s.values.pairs().contains(content_sets(PresetContent::Selective(s), patch, n, fids)[k]),
        fids.contains(content_sets(PresetContent::Selective(s), patch, n, fids)[k].0.0),
    decreases n,
{
    let c = PresetContent::Selective(s);
    let prev = content_sets(c, patch, n - 1, fids);
    let e = entry_sets(c, patch, n - 1, fids);
    assert(content_sets(c, patch, n, fids) == prev + e);
    if k < prev.len() {
        law_selective_preset_sets(s, patch, n - 1, fids, k);
        assert(content_sets(c, patch, n, fids)[k] == prev[k]);
    } else {
        lemma_selective_entry_sets(s, patch, n - 1, fids);
        assert(content_sets(c, patch, n, fids)[k] == e[k - prev.len()]);
        assert(s.values.pairs()[n - 1] == e[k - prev.len()]);
    }
}

/// A command that recalling global content sets on a fixture carries a value
/// the content holds for that fixture's type.
pub open spec fn global_recall_ok(g: GlobalPreset, patch: Patch, fids: Seq<FixtureId>, c: Command) -> bool {
    match c {
        Command::SetAttribute { fid, attribute, value } => fids.contains(fid) && match patch.spec_fixture(fid) {
            Some(f) => g.values.pairs().contains(((f.fixture_type_id, attribute), value)),
            None => false,
        },
        _ => false,
    }
}

proof fn lemma_global_entry_cmds(g: GlobalPreset, patch: Patch, fid: FixtureId, n: int, fids: Seq<FixtureId>)
    requires
        0 <= n <= g.values.pairs().len(),
        fids.contains(fid),
    ensures
        forall|k: int|
            0 <= k < entry_cmds(PresetContent::Global(g), patch, fid, n).len() ==> global_recall_ok(
                g,
                patch,
                fids,
                #[trigger] entry_cmds(PresetContent::Global(g), patch, fid, n)[k],
            ),
    decreases n,
{
    if n > 0 {
        let c = PresetContent::Global(g);
        lemma_global_entry_cmds(g, patch, fid, n - 1, fids);
        let prev = entry_cmds(c, patch, fid, n - 1);
        assert forall|k: int| 0 <= k < entry_cmds(c, patch, fid, n).len() implies global_recall_ok(
            g,
            patch,
            fids,
            #[trigger] entry_cmds(c, patch, fid, n)[k],
        ) by {
            if k < prev.len() {
                assert(entry_cmds(c, patch, fid, n)[k] == prev[k]);
            } else {
                assert(g.values.pairs()[n - 1] == g.values.pairs()[n - 1]);
            }
        }
    }
}

proof fn lemma_global_recall_cmds(g: GlobalPreset, patch: Patch, fids: Seq<FixtureId>, all: Seq<FixtureId>)
    requires
        forall|i: int| 0 <= i < fids.len() ==> all.contains(#[trigger] fids[i]),
    ensures
        forall|k: int|
            0 <= k < recall_cmds(PresetContent::Global(g), patch, fids).len() ==> global_recall_ok(
                g,
                patch,
                all,
                #[trigger] recall_cmds(PresetContent::Global(g), patch, fids)[k],
            ),
    decreases fids.len(),
{
    if fids.len() > 0 {
        let c = PresetContent::Global(g);
        let t = fids.drop_last();
        assert forall|i: int| 0 <= i < t.len() implies all.contains(#[trigger] t[i]) by {
            assert(t[i] == fids[i]);
        }
        lemma_global_recall_cmds(g, patch, t, all);
        assert(all.contains(fids[fids.len() - 1]));
        lemma_global_entry_cmds(g, patch, fids.last(), entry_count(c), all);
        let prev = recall_cmds(c, patch, t);
        let e = entry_cmds(c, patch, fids.last(), entry_count(c));
        assert(recall_cmds(c, patch, fids) == prev + e);
        assert forall|k: int| 0 <= k < recall_cmds(c, patch, fids).len() implies global_recall_ok(
            g,
            patch,
            all,
            #[trigger] recall_cmds(c, patch, fids)[k],
        ) by {
            if k < prev.len() {
                assert(recall_cmds(c, patch, fids)[k] == prev[k]);
            } else {
                assert(recall_cmds(c, patch, fids)[k] == e[k - prev.len()]);
            }
        }
    }
}

/// Recalling a global preset onto fixtures sets a value on a fixture only
/// where the preset holds that attribute and value for the fixture's own
/// type: every command the recall makes sets, on one of the fixtures, a
/// value the preset stores for that fixture's type.
pub proof fn law_global_recall_matches_type(g: GlobalPreset, patch: Patch, fids: Seq<FixtureId>, k: int)
    requires
        0 <= k < recall_cmds(PresetContent::Global(g), patch, fids).len(),
    ensures
        match recall_cmds(PresetContent::Global(g), patch, fids)[k] {
            Command::SetAttribute { fid, attribute, value } => fids.contains(fid) && match patch.spec_fixture(
                fid,
            ) {
                Some(f) => g.values.pairs().contains(((f.fixture_type_id, attribute), value)),
                None => false,
            },
            _ => false,
        },
{
    lemma_global_recall_cmds(g, patch, fids, fids);
    assert(global_recall_ok(g, patch, fids, recall_cmds(PresetContent::Global(g), patch, fids)[k]));
}

/// A value set of global content is on one of the fixtures, of the type the
/// content's entry `j` is stored for, with that entry's attribute and value.
pub open spec fn global_set_ok(s: GlobalPreset, patch: Patch, fids: Seq<FixtureId>, j: int, x: ValueSet) -> bool {
    &&& fids.contains(x.0.0)
    &&& x.0.1 == s.values.pairs()[j].0.1
    &&& x.1 == s.values.pairs()[j].1
    &&& match patch.spec_fixture(x.0.0) {
        Some(f) => f.fixture_type_id == s.values.pairs()[j].0.0,
        None => false,
    }
}

proof fn lemma_global_entry_sets(s: GlobalPreset, patch: Patch, j: int, fids: Seq<FixtureId>)
    requires
        0 <= j < s.values.pairs().len(),
    ensures
        forall|k: int|
            0 <= k < entry_sets(PresetContent::Global(s), patch, j, fids).len() ==> global_set_ok(
                s,
                patch,
                fids,
                j,
                #[trigger] entry_sets(PresetContent::Global(s), patch, j, fids)[k],
            ),
    decreases fids.len(),
{
    if fids.len() > 0 {
        let c = PresetContent::Global(s);
        let t = fids.drop_last();
        lemma_global_entry_sets(s, patch, j, t);
        let prev = entry_sets(c, patch, j, t);
        assert forall|k: int| 0 <= k < entry_sets(c, patch, j, fids).len() implies global_set_ok(
            s,
            patch,
            fids,
            j,
            #[trigger] entry_sets(c, patch, j, fids)[k],
        ) by {
            if k < prev.len() {
                assert(entry_sets(c, patch, j, fids)[k] == prev[k]);
                assert(global_set_ok(s, patch, t, j, prev[k]));
                let w = choose|w: int| 0 <= w < t.len() && t[w] == prev[k].0.0;
                assert(fids[w] == t[w]);
            } else {
                assert(fids[fids.len() - 1] == fids.last());
            }
        }
    }
}

/// A global preset puts a value only on fixtures of the type it holds the
/// value for: every value set a global preset gives the fixtures `fids` is,
/// for a fixture among `fids`, an attribute and value the preset stores for
/// that fixture's type.
pub proof fn law_global_preset_sets(s: GlobalPreset, patch: Patch, n: int, fids: Seq<FixtureId>, k: int)
    requires
        0 <= n <= s.values.pairs().len(),
        0 <= k < content_sets(PresetContent::Global(s), patch, n, fids).len(),
    ensures
        fids.contains(content_sets(PresetContent::Global(s), patch, n, fids)[k].0.0),
        match patch.spec_fixture(content_sets(PresetContent::Global(s), patch, n, fids)[k].0.0) {
            Some(f) => s.values.pairs().contains(
                (
                    (f.fixture_type_id, content_sets(PresetContent::Global(s), patch, n, fids)[k].0.1),
                    content_sets(PresetContent::Global(s), patch, n, fids)[k].1,
                ),
            ),
            None => false,
        },
    decreases n,
{
    let c = PresetContent::Global(s);
    let prev = content_sets(c, patch, n - 1, fids);
    let e = entry_sets(c, patch, n - 1, fids);
    assert(content_sets(c, patch, n, fids) == prev + e);
    if k < prev.len() {
        law_global_preset_sets(s, patch, n - 1, fids, k);
        assert(content_sets(c, patch, n, fids)[k] == prev[k]);
    } else {
        lemma_global_entry_sets(s, patch, n - 1, fids);
        assert(content_sets(c, patch, n, fids)[k] == e[k - prev.len()]);
        assert(global_set_ok(s, patch, fids, n - 1, e[k - prev.len()]));
        let x = e[k - prev.len()];
        assert(content_sets(c, patch, n, fids)[k] == x);
        let f = patch.spec_fixture(x.0.0).unwrap();
        assert(((f.fixture_type_id, x.0.1), x.1) == s.values.pairs()[n - 1]);
    }
}

proof fn lemma_universal_entry_sets(u: UniversalPreset, patch: Patch, j: int, fids: Seq<FixtureId>)
    requires
        0 <= j < u.values.pairs().len(),
    ensures
        entry_sets(PresetContent::Universal(u), patch, j, fids).len() == fids.len(),
        forall|i: int|
            0 <= i < fids.len() ==> #[trigger] entry_sets(PresetContent::Universal(u), patch, j, fids)[i] == (
                (fids[i], u.values.pairs()[j].0),
                u.values.pairs()[j].1,
            ),
    decreases fids.len(),
{
    if fids.len() > 0 {
        let c = PresetContent::Universal(u);
        let t = fids.drop_last();
        lemma_universal_entry_sets(u, patch, j, t);
        assert forall|i: int| 0 <= i < fids.len() implies #[trigger] entry_sets(c, patch, j, fids)[i] == (
            (fids[i], u.values.pairs()[j].0),
            u.values.pairs()[j].1,
        ) by {
            if i < t.len() {
                assert(t[i] == fids[i]);
                assert(entry_sets(c, patch, j, fids)[i] == entry_sets(c, patch, j, t)[i]);
            }
        }
    }
}

/// A universal preset puts each of its values on every fixture: the value
/// sets it gives the fixtures `fids` are exactly each of its first `n`
/// attributes and values on each of the fixtures.
pub proof fn law_universal_preset_sets(u: UniversalPreset, patch: Patch, n: int, fids: Seq<FixtureId>)
    requires
        0 <= n <= u.values.pairs().len(),
    ensures
        forall|j: int, i: int|
            #![trigger u.values.pairs()[j], fids[i]]
            0 <= j < n && 0 <= i < fids.len() ==> content_sets(PresetContent::Universal(u), patch, n, fids).contains(
                ((fids[i], u.values.pairs()[j].0), u.values.pairs()[j].1),
            ),
        forall|k: int|
            0 <= k < content_sets(PresetContent::Universal(u), patch, n, fids).len() ==> exists|j: int, i: int|
                0 <= j < n && 0 <= i < fids.len() && #[trigger] content_sets(
                    PresetContent::Universal(u),
                    patch,
                    n,
                    fids,
                )[k] == ((fids[i], u.values.pairs()[j].0), u.values.pairs()[j].1),
    decreases n,
{
    let c = PresetContent::Universal(u);
    if n > 0 {
        law_universal_preset_sets(u, patch, n - 1, fids);
        lemma_universal_entry_sets(u, patch, n - 1, fids);
        let prev = content_sets(c, patch, n - 1, fids);
        let e = entry_sets(c, patch, n - 1, fids);
        let all = content_sets(c, patch, n, fids);
        assert(all == prev + e);
        assert forall|j: int, i: int|
            #![trigger u.values.pairs()[j], fids[i]]
            0 <= j < n && 0 <= i < fids.len() implies all.contains(
            ((fids[i], u.values.pairs()[j].0), u.values.pairs()[j].1),
        ) by {
            if j < n - 1 {
                assert(prev.contains(((fids[i], u.values.pairs()[j].0), u.values.pairs()[j].1)));
                let w = choose|w: int|
                    0 <= w < prev.len() && prev[w] == ((fids[i], u.values.pairs()[j].0), u.values.pairs()[j].1);
                assert(all[w] == prev[w]);
            } else {
                assert(all[prev.len() + i] == e[i]);
            }
        }
        assert forall|k: int| 0 <= k < all.len() implies exists|j: int, i: int|
            0 <= j < n && 0 <= i < fids.len() && #[trigger] all[k] == ((fids[i], u.values.pairs()[j].0),
                u.values.pairs()[j].1) by {
            if k < prev.len() {
                assert(all[k] == prev[k]);
            } else {
                let i = k - prev.len();
                assert(all[k] == e[i]);
                assert(all[k] == ((fids[i], u.values.pairs()[n - 1].0), u.values.pairs()[n - 1].1));
            }
        }
    }
}

/// A command that recalling selective content sets on a fixture carries a
/// value the content holds for that very fixture.
pub open spec fn selective_recall_ok(g: SelectivePreset, patch: Patch, fids: Seq<FixtureId>, c: Command) -> bool {
    match c {
        Command::SetAttribute { fid, attribute, value } => fids.contains(fid) && g.values.pairs().contains(
            ((fid, attribute), value),
        ),
        _ => false,
    }
}

proof fn lemma_selective_entry_cmds(g: SelectivePreset, patch: Patch, fid: FixtureId, n: int, fids: Seq<FixtureId>)
    requires
        0 <= n <= g.values.pairs().len(),
        fids.contains(fid),
    ensures
        forall|k: int|
            0 <= k < entry_cmds(PresetContent::Selective(g), patch, fid, n).len() ==> selective_recall_ok(
                g,
                patch,
                fids,
                #[trigger] entry_cmds(PresetContent::Selective(g), patch, fid, n)[k],
            ),
    decreases n,
{
    if n > 0 {
        let c = PresetContent::Selective(g);
        lemma_selective_entry_cmds(g, patch, fid, n - 1, fids);
        let prev = entry_cmds(c, patch, fid, n - 1);
        assert forall|k: int| 0 <= k < entry_cmds(c, patch, fid, n).len() implies selective_recall_ok(
            g,
            patch,
            fids,
            #[trigger] entry_cmds(c, patch, fid, n)[k],
        ) by {
            if k < prev.len() {
                assert(entry_cmds(c, patch, fid, n)[k] == prev[k]);
            } else {
                assert(g.values.pairs()[n - 1] == g.values.pairs()[n - 1]);
            }
        }
    }
}

proof fn lemma_selective_recall_cmds(g: SelectivePreset, patch: Patch, fids: Seq<FixtureId>, all: Seq<FixtureId>)
    requires
        forall|i: int| 0 <= i < fids.len() ==> all.contains(#[trigger] fids[i]),
    ensures
        forall|k: int|
            0 <= k < recall_cmds(PresetContent::Selective(g), patch, fids).len() ==> selective_recall_ok(
                g,
                patch,
                all,
                #[trigger] recall_cmds(PresetContent::Selective(g), patch, fids)[k],
            ),
    decreases fids.len(),
{
    if fids.len() > 0 {
        let c = PresetContent::Selective(g);
        let t = fids.drop_last();
        assert forall|i: int| 0 <= i < t.len() implies all.contains(#[trigger] t[i]) by {
            assert(t[i] == fids[i]);
        }
        lemma_selective_recall_cmds(g, patch, t, all);
        assert(all.contains(fids[fids.len() - 1]));
        lemma_selective_entry_cmds(g, patch, fids.last(), entry_count(c), all);
        let prev = recall_cmds(c, patch, t);
        let e = entry_cmds(c, patch, fids.last(), entry_count(c));
        assert(recall_cmds(c, patch, fids) == prev + e);
        assert forall|k: int| 0 <= k < recall_cmds(c, patch, fids).len() implies selective_recall_ok(
            g,
            patch,
            all,
            #[trigger] recall_cmds(c, patch, fids)[k],
        ) by {
            if k < prev.len() {
                assert(recall_cmds(c, patch, fids)[k] == prev[k]);
            } else {
                assert(recall_cmds(c, patch, fids)[k] == e[k - prev.len()]);
            }
        }
    }
}

/// Recalling a selective preset onto fixtures sets on a fixture only the
/// values the preset holds for that very fixture: every command the recall
/// makes sets, on one of the fixtures, a value the preset stores for it.
pub proof fn law_selective_recall_matches_fixture(g: SelectivePreset, patch: Patch, fids: Seq<FixtureId>, k: int)
    requires
        0 <= k < recall_cmds(PresetContent::Selective(g), patch, fids).len(),
    ensures
        match recall_cmds(PresetContent::Selective(g), patch, fids)[k] {
            Command::SetAttribute { fid, attribute, value } => fids.contains(fid) && g.values.pairs().contains(
                ((fid, attribute), value),
            ),
            _ => false,
        },
{
    lemma_selective_recall_cmds(g, patch, fids, fids);
    assert(selective_recall_ok(g, patch, fids, recall_cmds(PresetContent::Selective(g), patch, fids)[k]));
}

/// The keywords that take no object make their own commands too: `select`
/// followed by a selection selects it, and `clear` and `save` clear and
/// save, whatever follows.
pub proof fn law_plain_keywords_make_their_commands(
    sel: Selection,
    rest: Seq<Parameter>,
    r1: Result<Option<Command>, CommandError>,
    r2: Result<Option<Command>, CommandError>,
    r3: Result<Option<Command>, CommandError>,
)
    requires
        resolves_to(seq![Parameter::Keyword(Keyword::Select), Parameter::Selection(sel)] + rest, r1),
        resolves_to(seq![Parameter::Keyword(Keyword::Clear)] + rest, r2),
        resolves_to(seq![Parameter::Keyword(Keyword::Save)] + rest, r3),
    ensures
        r1 == Ok::<Option<Command>, CommandError>(Some(Command::Select { selection: sel })),
        r2 == Ok::<Option<Command>, CommandError>(Some(Command::Clear)),
        r3 == Ok::<Option<Command>, CommandError>(Some(Command::Save)),
{
    let p1 = seq![Parameter::Keyword(Keyword::Select), Parameter::Selection(sel)] + rest;
    assert(p1[0] == Parameter::Keyword(Keyword::Select));
    assert(p1[1] == Parameter::Selection(sel));
    assert((seq![Parameter::Keyword(Keyword::Clear)] + rest)[0] == Parameter::Keyword(Keyword::Clear));
    assert((seq![Parameter::Keyword(Keyword::Save)] + rest)[0] == Parameter::Keyword(Keyword::Save));
}

} // verus!
