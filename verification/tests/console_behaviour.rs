use std::collections::HashMap;

use radiant::attr::{Attribute, FeatureGroup};
use radiant::cmd::{ClearMode, Command as ConsoleCommand, ObjectReference as ConsoleRef, PatchCommand};
use radiant::command::{Command, CommandBuilder, CommandError, Keyword, Parameter, Selection};
use radiant::console::{Console, ConsoleError};
use radiant::cue::CueId;
use radiant::effect::{Effect, EffectAction, EffectDefinition, EffectEngine, EffectError, EffectRunner, EffectScheduler};
use radiant::engine::{Engine, ExecAction};
use radiant::event::{EngineEvent, EventHandler};
use radiant::object::{AnyObject, ObjectContainer, ObjectId, ObjectKind, ObjectReference, PoolId, PresetContent};
use radiant::patch::{
    channel_count, AttributeValue, ChannelDefault, DmxAddress, DmxChannel, DmxMode, Fixture, FixtureId,
    FixtureType, Patch, PatchError,
};
use radiant::pipeline::{process_cue, process_default_values, Pipeline};
use radiant::pool::{FixtureGroup, Group, GroupsPoolTile, EffectsPoolTile, ShowModes};
use radiant::programmer::Programmer;
use radiant::sequence::{Cue, Recipe, Sequence};
use radiant::show::Show;

fn channel(offset: Option<Vec<i32>>, names: &[&str]) -> DmxChannel {
    DmxChannel {
        offset,
        attribute_names: names.iter().map(|n| n.to_string()).collect(),
        initial: None,
    }
}

fn spot_patch() -> Patch {
    let mode = DmxMode {
        name: "Mode1".to_string(),
        channels: vec![
            DmxChannel {
                offset: Some(vec![1, 2]),
                attribute_names: vec!["Dimmer".to_string()],
                initial: Some(ChannelDefault {
                    attribute_name: Some("Dimmer".to_string()),
                    value: AttributeValue { bits: 7 },
                }),
            },
            channel(Some(vec![3]), &["Pan"]),
        ],
    };
    let mut patch = Patch::new();
    patch.fixture_types.push(FixtureType { id: 42, modes: vec![mode] });
    patch.insert_fixture(FixtureId(1), DmxAddress { universe: 1, channel: 10 }, 42, "Mode1".to_string());
    patch.insert_fixture(FixtureId(2), DmxAddress { universe: 1, channel: 20 }, 42, "Mode1".to_string());
    patch.insert_fixture(FixtureId(3), DmxAddress { universe: 2, channel: 1 }, 42, "Mode1".to_string());
    patch
}

fn value(bits: u32) -> AttributeValue {
    AttributeValue { bits }
}

#[test]
fn attribute_names_read_back() {
    for name in ["Dimmer", "Gobo1", "Gobo3SelectSpin", "Color2", "ShaperRot", "VideoEffect1Parameter2"] {
        let a = Attribute::from_str(name).unwrap();
        let again = Attribute::from_str(&a.to_string()).unwrap();
        assert_eq!(a, again);
    }
    assert_eq!(Attribute::Gobo(12).to_string(), "Gobo12");
    // names are written as GDTF writes them, so they are read back
    assert_eq!(Attribute::from_str("Color1WheelIndex").unwrap().to_string(), "Color1WheelIndex");
    assert_eq!(Attribute::LedFrequency.to_string(), "LEDFrequency");
    assert_eq!(Attribute::from_str(&Attribute::GoboWheelMSpeed(3).to_string()).unwrap(), Attribute::GoboWheelMSpeed(3));
    assert_eq!(Attribute::Dimmer.feature_group(), Some(FeatureGroup::Dimmer));
}

#[test]
fn channel_count_spans_offsets() {
    let mode = DmxMode { name: "m".to_string(), channels: vec![channel(Some(vec![1, 2]), &[]), channel(Some(vec![3]), &[])] };
    assert_eq!(channel_count(&mode), 3);
    let single = DmxMode { name: "m".to_string(), channels: vec![channel(Some(vec![1]), &[])] };
    assert_eq!(channel_count(&single), 1);
    let empty = DmxMode { name: "m".to_string(), channels: vec![channel(None, &[])] };
    assert_eq!(channel_count(&empty), 1);
}

#[test]
fn channels_for_attribute_counts_from_start_channel() {
    let patch = spot_patch();
    let fixture = patch.fixture(FixtureId(1)).unwrap();
    assert_eq!(fixture.channels_for_attribute(&Attribute::Dimmer, &patch), Ok(vec![10, 11]));
    assert_eq!(fixture.channels_for_attribute(&Attribute::Pan, &patch), Ok(vec![12]));
    assert_eq!(fixture.channels_for_attribute(&Attribute::Tilt, &patch), Err(PatchError::ChannelNotFound));
    assert!(fixture.has_attribute(&Attribute::Pan, &patch));
    assert!(!fixture.has_attribute(&Attribute::Tilt, &patch));
    let defaults = fixture.get_default_attribute_values(&patch);
    assert_eq!(defaults.len(), 1);
    assert_eq!(defaults[0].0, Attribute::Dimmer);
    assert_eq!(defaults[0].1, value(7));
}

#[test]
fn patch_removes_fixture() {
    let mut patch = spot_patch();
    patch.remove_fixture(FixtureId(2));
    assert_eq!(patch.fixtures().len(), 2);
    assert!(patch.fixture(FixtureId(2)).is_none());
    assert_eq!(patch.fixtures()[1].id(), FixtureId(3));
}

#[test]
fn programmer_reads_back_values() {
    let mut p = Programmer::new();
    assert!(p.is_empty());
    p.set_value(FixtureId(1), Attribute::Dimmer, value(1));
    p.set_value(FixtureId(1), Attribute::Dimmer, value(2));
    p.set_value(FixtureId(2), Attribute::Pan, value(3));
    assert_eq!(p.value(FixtureId(1), Attribute::Dimmer), Some(value(2)));
    assert_eq!(p.value(FixtureId(2), Attribute::Dimmer), None);
    assert_eq!(p.values().len(), 2);
    p.clear();
    assert!(p.is_empty());
}

#[test]
fn command_builder_resolves_commands() {
    let mut b = CommandBuilder::new();
    assert!(matches!(b.resolve(), Ok(None)));
    b.process_param(Parameter::Keyword(Keyword::Store));
    b.process_param(Parameter::ObjectKind(ObjectKind::Group));
    assert_eq!(b.resolve().err(), Some(CommandError::MissingPoolId));
    b.process_param(Parameter::Integer(3));
    match b.resolve() {
        Ok(Some(Command::Store { destination })) => {
            assert_eq!(destination.kind, ObjectKind::Group);
            assert_eq!(destination.pool_id.get(), 3);
        },
        _ => panic!("expected a store command"),
    }
    assert_eq!(b.first_keyword(), Some(Keyword::Store));
    assert!(!b.is_complete());
    assert_eq!(b.to_text(), "store group 3");
    b.clear();
    b.process_param(Parameter::Keyword(Keyword::Clear));
    assert!(b.is_complete());
    b.clear();
    b.process_param(Parameter::Integer(-5));
    assert_eq!(b.to_text(), "-5");
    assert_eq!(b.resolve().err(), Some(CommandError::UnexpectedStart));
    b.clear();
    b.process_param(Parameter::Keyword(Keyword::Delete));
    b.process_param(Parameter::ObjectKind(ObjectKind::Group));
    b.process_param(Parameter::Integer(0));
    assert_eq!(b.resolve().err(), Some(CommandError::ExpectedPoolId));
    b.clear();
    b.process_param(Parameter::Keyword(Keyword::Select));
    b.process_param(Parameter::Keyword(Keyword::At));
    assert_eq!(b.resolve().err(), Some(CommandError::ExpectedSelection));
    b.clear();
    b.process_param(Parameter::Keyword(Keyword::Rename));
    b.process_param(Parameter::ObjectKind(ObjectKind::Group));
    b.process_param(Parameter::PoolId(PoolId::new(2)));
    assert_eq!(b.resolve().err(), Some(CommandError::MissingString));
    b.process_param(Parameter::String("Front".to_string()));
    match b.resolve() {
        Ok(Some(Command::Rename { object, name })) => {
            assert_eq!(object.pool_id.get(), 2);
            assert_eq!(name, "Front");
        },
        _ => panic!("expected a rename command"),
    }
}

#[test]
fn commands_are_written() {
    let r = ObjectReference { kind: ObjectKind::PresetColor, pool_id: PoolId::new(4) };
    assert_eq!(Command::Store { destination: r }.to_text(), "store preset::color 4");
    assert_eq!(Command::Select { selection: Selection::FixtureId(FixtureId(7)) }.to_text(), "select 7");
    assert_eq!(Command::Select { selection: Selection::All }.to_text(), "select all");
    assert_eq!(Command::Clear.to_text(), "clear");
    let g = ObjectReference { kind: ObjectKind::Group, pool_id: PoolId::new(2) };
    assert_eq!(Command::Rename { object: g, name: "Front".to_string() }.to_text(), "label group 2 \"Front\"");
}

fn engine_with_patch() -> Engine {
    Engine::new(Show::new(ObjectContainer::new(), spot_patch()))
}

#[test]
fn engine_selects_each_fixture_once() {
    let mut e = engine_with_patch();
    e.exec(Command::Select { selection: Selection::FixtureId(FixtureId(2)) });
    e.exec(Command::Select { selection: Selection::FixtureId(FixtureId(2)) });
    e.exec(Command::Select { selection: Selection::All });
    assert_eq!(e.show().selected_fixtures(), &[FixtureId(2), FixtureId(1), FixtureId(3)]);
    assert_eq!(e.command_history().len(), 3);
    assert_eq!(e.pending_events(), vec![EngineEvent::SelectionChanged; 3]);
    assert_eq!(e.drain_pending_events().len(), 3);
    assert!(e.pending_events().is_empty());
}

#[test]
fn engine_clear_is_progressive() {
    let mut e = engine_with_patch();
    e.exec(Command::Select { selection: Selection::FixtureId(FixtureId(1)) });
    e.exec(Command::SetAttribute { fid: FixtureId(1), attribute: Attribute::Dimmer, value: value(9) });
    e.exec(Command::Clear);
    assert!(e.show().selected_fixtures().is_empty());
    assert!(!e.show().programmer().is_empty());
    e.exec(Command::Clear);
    assert!(e.show().programmer().is_empty());
}

#[test]
fn engine_store_then_recall_group() {
    let mut e = engine_with_patch();
    let g = ObjectReference { kind: ObjectKind::Group, pool_id: PoolId::new(1) };
    e.exec(Command::Select { selection: Selection::FixtureId(FixtureId(3)) });
    e.exec(Command::Select { selection: Selection::FixtureId(FixtureId(1)) });
    e.exec(Command::Store { destination: g });
    assert!(e.show().selected_fixtures().is_empty());
    let history: Vec<String> = e.command_history().iter().map(|c| c.to_text()).collect();
    assert_eq!(history, vec!["select 3", "select 1", "clear", "store group 1"]);
    e.exec(Command::Recall { object: g });
    assert_eq!(e.show().selected_fixtures(), &[FixtureId(3), FixtureId(1)]);
    let group = e.show().objects().group_by_pool_id(PoolId::new(1)).unwrap();
    assert_eq!(group.name, "New Group");
    assert_eq!(group.fids(), &[FixtureId(3), FixtureId(1)]);
    e.exec(Command::Rename { object: g, name: "Front".to_string() });
    assert_eq!(e.show().objects().group_by_pool_id(PoolId::new(1)).unwrap().name, "Front");
    e.exec(Command::Delete { object: g });
    assert!(e.show().objects().group_by_pool_id(PoolId::new(1)).is_none());
}

#[test]
fn engine_store_then_recall_preset() {
    let mut e = engine_with_patch();
    let p = ObjectReference { kind: ObjectKind::PresetDimmer, pool_id: PoolId::new(5) };
    e.exec(Command::SetAttribute { fid: FixtureId(2), attribute: Attribute::Dimmer, value: value(11) });
    e.exec(Command::Store { destination: p });
    {
        let preset = e.show().objects().preset_by_pool_id(ObjectKind::PresetDimmer, PoolId::new(5)).unwrap();
        assert_eq!(preset.name, "New Dimmer Preset");
        match preset.content() {
            PresetContent::Universal(u) => {
                assert_eq!(u.values().len(), 1);
                assert_eq!(u.values()[0].0, Attribute::Dimmer);
                assert_eq!(u.values()[0].1, value(11));
            },
            _ => panic!("expected universal content"),
        }
    }
    // the store cleared the programmer (nothing was selected)
    assert!(e.show().programmer().is_empty());
    e.exec(Command::Recall { object: p });
    // the preset applies to the first fixture that has a dimmer
    assert_eq!(e.show().selected_fixtures(), &[FixtureId(1)]);
    assert_eq!(e.show().programmer().value(FixtureId(1), Attribute::Dimmer), Some(value(11)));
    assert_eq!(e.exec(Command::Save), ExecAction::SaveShow);
    let before = e.command_history().len();
    e.finish_save();
    assert_eq!(e.command_history().len(), before + 1);
}

#[test]
fn object_id_of_reference() {
    let mut e = engine_with_patch();
    let g = ObjectReference { kind: ObjectKind::Group, pool_id: PoolId::new(8) };
    assert!(g.object_id(e.show()).is_none());
    e.exec(Command::Store { destination: g });
    let id = g.object_id(e.show()).unwrap();
    assert_eq!(e.show().objects().get_any(id).unwrap().kind(), ObjectKind::Group);
}

#[test]
fn object_container_replaces_by_id() {
    let mut c = ObjectContainer::new();
    let id = ObjectId(5);
    c.insert(AnyObject::create(ObjectKind::Group, id, PoolId::new(1), "A".to_string()));
    c.insert(AnyObject::create(ObjectKind::Group, id, PoolId::new(2), "B".to_string()));
    assert_eq!(c.len(), 1);
    assert_eq!(c.get_any(id).unwrap().name(), "B");
    assert!(c.contains(&id));
    c.remove(&id);
    assert!(c.is_empty());
}

fn cue(id: Vec<u32>, fade_in: u64, fade_out: u64) -> Cue {
    Cue { id: CueId(id), name: String::new(), fade_in_time: fade_in, fade_out_time: fade_out, recipes: Vec::new() }
}

#[test]
fn cue_ids_are_ordered_number_by_number() {
    let a = CueId(vec![1]);
    let b = CueId(vec![1, 0]);
    let c = CueId(vec![1, 1]);
    let d = CueId(vec![2]);
    assert!(a.precedes(&b) && b.precedes(&c) && c.precedes(&d));
    assert!(!d.precedes(&a));
    assert!(!a.precedes(&a));
    assert_eq!(CueId(vec![1, 2, 5]).to_text(), "1.2.5");
}

#[test]
fn sequence_moves_between_cues() {
    let mut s = Sequence::create(ObjectId(1), PoolId::new(1), "Seq".to_string());
    s.cues = vec![cue(vec![3], 0, 0), cue(vec![1], 100, 0), cue(vec![2], 0, 50)];
    assert_eq!(s.first_cue().unwrap().id, CueId(vec![1]));
    assert_eq!(s.last_cue().unwrap().id, CueId(vec![3]));
    assert_eq!(s.next_cue().unwrap().id, CueId(vec![1]));
    s.set_current_cue(Some(CueId(vec![1])), 1000);
    assert_eq!(s.cue_fade_in_starts.len(), 1);
    assert!(s.has_fading_cue());
    assert_eq!(s.next_cue().unwrap().id, CueId(vec![2]));
    s.set_current_cue(Some(CueId(vec![2])), 1200);
    assert_eq!(s.previous_cue().unwrap().id, CueId(vec![1]));
    assert_eq!(s.active_cues().len(), 2);
    s.set_current_cue(Some(CueId(vec![3])), 1300);
    assert_eq!(s.cue_fade_out_starts.len(), 1);
    s.update_fade_times(1320);
    assert_eq!(s.cue_fade_out_starts.len(), 1);
    s.update_fade_times(2000);
    assert!(!s.has_fading_cue());
    assert!(s.cue_after(&CueId(vec![3])).is_none());
    assert_eq!(s.cue_before(&CueId(vec![3])).unwrap().id, CueId(vec![2]));
}

#[test]
fn console_patches_fixtures() {
    let mut c = Console::new();
    let add = |fid: u32| {
        ConsoleCommand::Patch(PatchCommand::AddFixture {
            fid: FixtureId(fid),
            fixture_type_id: 7,
            address: DmxAddress { universe: 1, channel: 1 },
            dmx_mode: "Basic".to_string(),
            name: None,
        })
    };
    assert_eq!(add(1).exec(&mut c), Ok(()));
    assert_eq!(add(1).exec(&mut c), Err(ConsoleError::FixtureIdTaken));
    assert_eq!(c.patch.fixtures_slice()[0].name, "New Fixture");
    assert_eq!(
        ConsoleCommand::Patch(PatchCommand::SetName { fid: FixtureId(1), name: "Spot".to_string() }).exec(&mut c),
        Ok(())
    );
    assert_eq!(c.patch.fixture(FixtureId(1)).unwrap().name, "Spot");
    assert_eq!(
        ConsoleCommand::Patch(PatchCommand::SetFixtureId { fid: FixtureId(1), new_fid: FixtureId(9) }).exec(&mut c),
        Ok(())
    );
    assert!(c.patch.fixture(FixtureId(1)).is_none());
    assert_eq!(c.patch.fixture(FixtureId(9)).unwrap().name, "Spot");
    // 2 adds, set name (1 + 3), set fixture id (1 + 2)
    assert_eq!(c.events.pending_events().len(), 9);
    assert!(c.events.pending_events().iter().all(|e| *e == EngineEvent::PatchChanged));
}

#[test]
fn console_clears_by_mode() {
    let mut c = Console::new();
    ConsoleCommand::Select { fid: FixtureId(1) }.exec(&mut c).unwrap();
    ConsoleCommand::ProgrammerSetValue { fid: FixtureId(1), attribute: Attribute::Pan, value: value(1) }
        .exec(&mut c)
        .unwrap();
    ConsoleCommand::Clear { mode: None }.exec(&mut c).unwrap();
    assert!(!c.programmer.has_selection());
    assert!(c.programmer.has_values());
    ConsoleCommand::Select { fid: FixtureId(2) }.exec(&mut c).unwrap();
    ConsoleCommand::Clear { mode: Some(ClearMode::All) }.exec(&mut c).unwrap();
    assert!(!c.programmer.has_selection());
    assert!(!c.programmer.has_values());
}

#[test]
fn console_creates_and_removes_objects() {
    let mut c = Console::new();
    ConsoleCommand::Create { kind: ObjectKind::Group, pool_id: PoolId::new(3), name: Some("Wash".to_string()) }
        .exec(&mut c)
        .unwrap();
    assert_eq!(c.objects.len(), 1);
    assert_eq!(c.objects[0].name, "Wash");
    let missing = ConsoleRef::PoolItem(ObjectKind::Group, PoolId::new(4));
    assert_eq!(ConsoleCommand::Remove { object_ref: missing }.exec(&mut c), Err(ConsoleError::ObjectNotFound));
    let present = ConsoleRef::PoolItem(ObjectKind::Group, PoolId::new(3));
    ConsoleCommand::Remove { object_ref: present }.exec(&mut c).unwrap();
    assert!(c.objects.is_empty());
}

#[test]
fn console_commands_are_written() {
    let add = ConsoleCommand::Patch(PatchCommand::AddFixture {
        fid: FixtureId(1),
        fixture_type_id: 0x67e5504410b1426f9247bb680e5fe0c8,
        address: DmxAddress { universe: 1, channel: 5 },
        dmx_mode: "Mode1".to_string(),
        name: Some("Spot".to_string()),
    });
    assert_eq!(add.to_text(""), "patch_fixture 1 67e55044-10b1-426f-9247-bb680e5fe0c8 1.5 Mode1 name=Spot");
    assert_eq!(ConsoleCommand::Select { fid: FixtureId(5) }.to_text(""), "select 5");
    assert_eq!(ConsoleCommand::Clear { mode: Some(ClearMode::All) }.to_text(""), "clear mode=all");
    assert_eq!(ConsoleCommand::Clear { mode: None }.to_text(""), "clear");
    let r = ConsoleRef::PoolItem(ObjectKind::Group, PoolId::new(3));
    assert_eq!(ConsoleCommand::Remove { object_ref: r }.to_text(""), "remove group 3");
    let set = ConsoleCommand::ProgrammerSetValue { fid: FixtureId(2), attribute: Attribute::Gobo(1), value: value(0) };
    assert_eq!(set.to_text("0.5"), "programmer_set_value 2 Gobo1 0.5");
    let swap = ConsoleCommand::Patch(PatchCommand::SetFixtureId { fid: FixtureId(1), new_fid: FixtureId(2) });
    assert_eq!(swap.to_text(""), "patch_set_address 1 2");
}

#[test]
fn effects_are_scheduled() {
    let mut s = EffectScheduler::new();
    s.register_effect(1, Effect::new("Chase".to_string(), "print()".to_string())).unwrap();
    match s.start_effect(1) {
        Ok(EffectAction::Run { effect_id, effect, restart }) => {
            assert_eq!(effect_id, 1);
            assert_eq!(effect.name(), "Chase");
            assert!(!restart);
        },
        _ => panic!("expected to run"),
    }
    assert!(s.effect_running(1));
    assert!(matches!(s.start_effect(1), Ok(EffectAction::Run { restart: true, .. })));
    assert!(matches!(s.stop_effect(1), EffectAction::Stop(1)));
    assert!(matches!(s.stop_effect(1), EffectAction::Nothing));
    assert_eq!(s.start_effect(9).err(), Some(EffectError::NotRegistered));
    assert!(matches!(s.unregister_effect(1), EffectAction::Nothing));
}

#[test]
fn effect_engine_keeps_started_runners() {
    let e = Effect::new("A".to_string(), "x".to_string());
    let mut engine = EffectEngine::new(vec![(1, e.clone()), (2, e.clone())]);
    assert_eq!(engine.runners.len(), 2);
    assert!(engine.runners[&1].running);
    engine.stop_effect(1).unwrap();
    assert!(!engine.runners[&1].running);
    engine.start_effect(1).unwrap();
    assert!(engine.runners[&1].running);
    engine.unregister_effect(2).unwrap();
    assert_eq!(engine.runners.len(), 1);
    let mut runner = EffectRunner::new(e).unwrap();
    runner.start().unwrap();
    assert!(runner.running);
    runner.stop().unwrap();
    assert!(!runner.running);
    let def = EffectDefinition::new("Chase".to_string(), "chase.lua".to_string());
    assert_eq!(def.script_location(), "objects/effects/chase.lua");
    assert_eq!(def.effect("return 1".to_string()).script(), "return 1");
}

#[test]
fn cues_fill_the_pipeline() {
    let mut objects = ObjectContainer::new();
    let gid = ObjectId(10);
    let pid = ObjectId(11);
    let mut group = AnyObject::create(ObjectKind::Group, gid, PoolId::new(1), "G".to_string());
    if let AnyObject::Group(g) = &mut group {
        g.fids = vec![FixtureId(1), FixtureId(2)];
    }
    objects.insert(group);
    let mut preset = AnyObject::create(ObjectKind::PresetDimmer, pid, PoolId::new(1), "P".to_string());
    if let AnyObject::PresetDimmer(p) = &mut preset {
        if let PresetContent::Universal(u) = &mut p.content {
            u.set_value(Attribute::Dimmer, value(5));
        }
    }
    objects.insert(preset);
    let mut c = cue(vec![1], 0, 0);
    c.recipes = vec![Recipe { group_id: Some(gid), preset_id: Some(pid) }, Recipe { group_id: None, preset_id: Some(pid) }];
    let patch = spot_patch();
    let mut pipeline = Pipeline::new();
    process_cue(&c, &mut pipeline, &objects, &patch);
    assert_eq!(pipeline.values().len(), 2);
    let resolved = pipeline.resolve(&patch);
    assert_eq!(resolved.len(), 2);
    assert_eq!(resolved[0].channels, vec![10, 11]);
    assert_eq!(resolved[1].channels, vec![20, 21]);
    assert_eq!(resolved[1].value, value(5));
    let mut defaults = Pipeline::new();
    process_default_values(&mut defaults, &patch);
    assert_eq!(defaults.values().len(), 3);
}

#[test]
fn pool_tiles_show_slots() {
    let mut groups = HashMap::new();
    groups.insert(2, Group::new("Front".to_string(), vec![FixtureId(4)]));
    let tile = GroupsPoolTile::new();
    assert!(tile.is_occupied(2, &groups));
    assert!(!tile.is_occupied(3, &groups));
    assert_eq!(tile.occupied_label(2, &groups), "Front");
    assert_eq!(tile.occupied_label(3, &groups), "<unknown>");
    assert_eq!(tile.on_activate_slot(2, &groups), Some(vec![FixtureId(4)]));
    assert_eq!(tile.title(), "Groups");
    let mut effects = HashMap::new();
    effects.insert(1, Effect::new("Chase".to_string(), String::new()));
    let etile = EffectsPoolTile::new();
    assert_eq!(etile.occupied_label(1, &effects), "Chase");
    assert!(!ShowModes::new().highlight);
    let mut fg = FixtureGroup::new(3);
    assert_eq!(fg.name(), "New Fixture Group");
    assert!(fg.is_empty());
    fg.fixtures.push(FixtureId(8));
    assert!(fg.contains(&FixtureId(8)));
    assert_eq!(fg.len(), 1);
}

#[test]
fn event_handler_keeps_order() {
    let mut h = EventHandler::new();
    h.emit_event(EngineEvent::CueFadeInProgress);
    h.emit_event(EngineEvent::SelectionChanged);
    assert_eq!(h.pending_events(), vec![EngineEvent::CueFadeInProgress, EngineEvent::SelectionChanged]);
    assert_eq!(h.drain_pending_events().len(), 2);
    assert!(h.pending_events().is_empty());
}

#[test]
fn fixture_from_parts() {
    let f = Fixture::new(FixtureId(4), DmxAddress { universe: 3, channel: 7 }, 1, "m".to_string());
    assert_eq!(f.id(), FixtureId(4));
    assert_eq!(f.address().universe, 3);
}

#[test]
fn gdtf_names_are_written_back() {
    for name in [
        "LEDFrequency", "LEDZoneMode", "CRIMode", "UVStability", "Color1WheelIndex", "Color2WheelSpin",
        "Color3WheelRandom", "Color4WheelAudio", "ColorMacro1Rate", "AnimationWheel1Mode", "GoboWheel1MSpeed",
    ] {
        assert_eq!(Attribute::from_str(name).unwrap().to_string(), name);
    }
}

#[test]
fn effect_engine_runs_each_effect_under_its_number() {
    let a = Effect::new("A".to_string(), "a".to_string());
    let b = Effect::new("B".to_string(), "b".to_string());
    let c = Effect::new("C".to_string(), "c".to_string());
    let engine = EffectEngine::new(vec![(1, a), (2, b), (1, c)]);
    assert_eq!(engine.runners.len(), 2);
    assert_eq!(engine.runners[&1].effect.name(), "C");
    assert_eq!(engine.runners[&2].effect.name(), "B");
    assert!(engine.runners[&1].running && engine.runners[&2].running);
}

#[test]
fn global_presets_select_without_a_full_patch() {
    let mut objects = ObjectContainer::new();
    let mut preset = AnyObject::create(ObjectKind::PresetColor, ObjectId(3), PoolId::new(2), "P".to_string());
    if let AnyObject::PresetColor(p) = &mut preset {
        p.content = PresetContent::Global(radiant::object::GlobalPreset::new());
        if let PresetContent::Global(g) = &mut p.content {
            g.set_value(42, Attribute::Pan, value(1));
        }
    }
    objects.insert(preset);
    let mut patch = spot_patch();
    // a fixture whose type the patch lacks
    patch.insert_fixture(FixtureId(9), DmxAddress { universe: 3, channel: 1 }, 77, "Mode1".to_string());
    let mut e = Engine::new(Show::new(objects, patch));
    e.exec(Command::Select {
        selection: Selection::Object(ObjectReference { kind: ObjectKind::PresetColor, pool_id: PoolId::new(2) }),
    });
    assert_eq!(e.show().selected_fixtures(), &[FixtureId(1)]);
}
