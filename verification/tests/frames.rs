use radiant::attr::Attribute;
use radiant::cue::CueId;
use radiant::object::{AnyObject, AnyObjectId, AnyPresetId, Executor, ObjectContainer, ObjectId, ObjectKind, PoolId};
use radiant::patch::{
    channel_bytes, AttributeValue, DmxAddress, DmxChannel, DmxMode, FixtureId, FixtureType, Patch,
    PatchError,
};
use radiant::effect::{Effect, EffectAction, EffectError, EffectScheduler};
use radiant::multiverse::Multiverse;
use radiant::pipeline::{fade_values, write_resolved, Pipeline};
use radiant::processor::{executor_steps, frame_sleep, update_executor_fades, CueStep};
use radiant::sequence::{Cue, FadeProgress, Sequence};

fn cue(id: u32, fade_in: u64, fade_out: u64) -> Cue {
    Cue { id: CueId(vec![id]), name: String::new(), fade_in_time: fade_in, fade_out_time: fade_out, recipes: Vec::new() }
}

fn sequence(id: u64) -> Sequence {
    let mut s = Sequence::create(ObjectId(id as u128), PoolId::new(1), "Seq".to_string());
    s.cues = vec![cue(1, 100, 0), cue(2, 0, 50), cue(3, 0, 0)];
    s
}

fn executor(id: u128, sequence_id: Option<u128>, is_on: bool) -> AnyObject {
    let mut x = Executor::create(ObjectId(id), PoolId::new(id as u32), "Exec".to_string());
    x.sequence_id = sequence_id.map(ObjectId);
    x.is_on = is_on;
    AnyObject::Executor(x)
}

#[test]
fn frame_sleeps_the_rest_of_the_frame() {
    assert_eq!(frame_sleep(10, 30), 20);
    assert_eq!(frame_sleep(30, 30), 0);
    assert_eq!(frame_sleep(45, 30), 0);
}

#[test]
fn fade_progress_counts_from_the_fade_start() {
    let mut s = sequence(1);
    s.set_current_cue(Some(CueId(vec![1])), 1000);
    assert_eq!(s.cue_fade_progress(&CueId(vec![1]), 1040), Some(FadeProgress::In { elapsed: 40, total: 100 }));
    // a clock that went back counts as no time passed
    assert_eq!(s.cue_fade_progress(&CueId(vec![1]), 900), Some(FadeProgress::In { elapsed: 0, total: 100 }));
    assert_eq!(s.cue_fade_progress(&CueId(vec![2]), 1040), None);
    s.set_current_cue(Some(CueId(vec![2])), 1200);
    // cue 1 keeps its fade-in start until the fades are updated
    assert_eq!(s.cue_fade_progress(&CueId(vec![1]), 1210), Some(FadeProgress::In { elapsed: 210, total: 100 }));
    s.update_fade_times(1210);
    // and then, having no fade-out time, it reports no progress
    assert_eq!(s.cue_fade_progress(&CueId(vec![1]), 1210), None);
    s.set_current_cue(Some(CueId(vec![3])), 1300);
    assert_eq!(s.cue_fade_progress(&CueId(vec![2]), 1310), Some(FadeProgress::Out { elapsed: 10, total: 50 }));
}

#[test]
fn executors_yield_a_step_per_active_cue() {
    let mut objects = ObjectContainer::new();
    let mut s = sequence(1);
    s.set_current_cue(Some(CueId(vec![1])), 1000);
    objects.insert(AnyObject::Sequence(s));
    objects.insert(executor(2, Some(1), true));
    objects.insert(executor(3, Some(1), false));
    objects.insert(executor(4, Some(99), true));
    let (steps, fading) = executor_steps(&objects, 1050);
    assert!(fading);
    assert_eq!(
        steps,
        vec![CueStep::Fade { sequence: ObjectId(1), from: None, to: Some(0), elapsed: 50, duration: 100 }]
    );
}

#[test]
fn finished_fades_leave_the_current_cue_playing() {
    let mut objects = ObjectContainer::new();
    let mut s = sequence(1);
    s.set_current_cue(Some(CueId(vec![1])), 1000);
    s.set_current_cue(Some(CueId(vec![2])), 1010);
    objects.insert(AnyObject::Sequence(s));
    objects.insert(executor(2, Some(1), false));
    objects.insert(executor(3, Some(1), true));
    let (steps, fading) = executor_steps(&objects, 1020);
    assert!(fading);
    // cue 1 is still fading in; cue 2 is current
    assert_eq!(
        steps,
        vec![
            CueStep::Fade { sequence: ObjectId(1), from: None, to: Some(0), elapsed: 20, duration: 100 },
            CueStep::Play { sequence: ObjectId(1), cue: 1 },
        ]
    );
    update_executor_fades(&mut objects, 5000);
    let (steps, fading) = executor_steps(&objects, 5000);
    assert!(!fading);
    assert_eq!(steps, vec![CueStep::Play { sequence: ObjectId(1), cue: 1 }]);
}

#[test]
fn channel_bytes_spread_the_level() {
    assert_eq!(
        channel_bytes(&[10, 11, 12, 13], 0x1234_5678),
        vec![(10, 0x12), (11, 0x34), (12, 0x56), (13, 0x78)]
    );
    assert_eq!(channel_bytes(&[7], 0xff00_0000), vec![(7, 0xff)]);
    assert!(channel_bytes(&[], 5).is_empty());
}

#[test]
fn fixture_channel_values() {
    let mode = DmxMode {
        name: "Mode1".to_string(),
        channels: vec![DmxChannel { offset: Some(vec![1, 2]), attribute_names: vec!["Dimmer".to_string()], initial: None }],
    };
    let mut patch = Patch::new();
    patch.fixture_types.push(FixtureType { id: 9, modes: vec![mode] });
    patch.insert_fixture(FixtureId(1), DmxAddress { universe: 1, channel: 5 }, 9, "Mode1".to_string());
    let f = patch.fixture(FixtureId(1)).unwrap();
    assert_eq!(f.get_channel_values(&Attribute::Dimmer, 0xabcd_0000, &patch), Ok(vec![(5, 0xab), (6, 0xcd)]));
    assert_eq!(f.get_channel_values(&Attribute::Pan, 1, &patch), Err(PatchError::ChannelNotFound));
    let _ = AttributeValue { bits: 0 };
}

#[test]
fn patch_checks_what_resolve_needs() {
    let mode = DmxMode {
        name: "Mode1".to_string(),
        channels: vec![
            DmxChannel { offset: Some(vec![1, 2]), attribute_names: vec!["Dimmer".to_string()], initial: None },
            DmxChannel { offset: Some(vec![3]), attribute_names: vec!["Pan".to_string()], initial: None },
        ],
    };
    let mut patch = Patch::new();
    patch.fixture_types.push(FixtureType { id: 9, modes: vec![mode] });
    patch.insert_fixture(FixtureId(1), DmxAddress { universe: 1, channel: 511 }, 9, "Mode1".to_string());
    assert!(patch.all_fixtures_resolve());
    let f = patch.fixture(FixtureId(1)).unwrap();
    assert!(patch.fixture_resolves(f));
    // channels 511 and 512 lie in the universe, 513 does not
    assert!(f.attribute_fits(&Attribute::Dimmer, &patch));
    assert!(!f.attribute_fits(&Attribute::Pan, &patch));
    assert!(f.attribute_fits(&Attribute::Tilt, &patch));

    let mut pipeline = Pipeline::new();
    pipeline.set_value(FixtureId(1), Attribute::Dimmer, AttributeValue { bits: 1 });
    pipeline.set_value(FixtureId(7), Attribute::Pan, AttributeValue { bits: 1 });
    assert!(pipeline.can_resolve(&patch));
    pipeline.set_value(FixtureId(1), Attribute::Pan, AttributeValue { bits: 1 });
    assert!(!pipeline.can_resolve(&patch));

    patch.insert_fixture(FixtureId(2), DmxAddress { universe: 1, channel: 1 }, 9, "Other".to_string());
    assert!(!patch.all_fixtures_resolve());
}

#[test]
fn preset_ids_and_object_ids_convert() {
    let any = AnyObjectId { kind: ObjectKind::PresetColor, id: ObjectId(4) };
    let p = AnyPresetId::try_from(any).unwrap();
    assert_eq!(p.kind(), ObjectKind::PresetColor);
    assert_eq!(p.id(), ObjectId(4));
    assert_eq!(AnyObjectId::from(p), any);
    assert!(AnyPresetId::try_from(AnyObjectId { kind: ObjectKind::Group, id: ObjectId(4) }).is_err());
}

#[test]
fn set_value_is_resolved_next() {
    let mode = DmxMode {
        name: "Mode1".to_string(),
        channels: vec![DmxChannel { offset: Some(vec![1, 2]), attribute_names: vec!["Dimmer".to_string()], initial: None }],
    };
    let mut patch = Patch::new();
    patch.fixture_types.push(FixtureType { id: 9, modes: vec![mode] });
    patch.insert_fixture(FixtureId(1), DmxAddress { universe: 3, channel: 100 }, 9, "Mode1".to_string());
    let mut pipeline = Pipeline::new();
    pipeline.set_value(FixtureId(1), Attribute::Pan, AttributeValue { bits: 2 });
    pipeline.set_value(FixtureId(1), Attribute::Dimmer, AttributeValue { bits: 5 });
    pipeline.set_value(FixtureId(1), Attribute::Dimmer, AttributeValue { bits: 6 });
    assert_eq!(pipeline.values().len(), 2);
    let out = pipeline.resolve(&patch);
    assert_eq!(out.len(), 1);
    assert_eq!(out[0].universe, 3);
    assert_eq!(out[0].channels, vec![100, 101]);
    assert_eq!(out[0].value, AttributeValue { bits: 6 });
}

#[test]
fn new_object_ids_are_version_4_uuids() {
    for _ in 0..8 {
        let id = ObjectId::new().0;
        assert_eq!((id >> 76) & 0xf, 4);
        assert_eq!((id >> 62) & 0x3, 2);
    }
    assert_ne!(ObjectId::new(), ObjectId::new());
}

#[test]
fn fade_values_pair_the_two_cues() {
    let mut from = Pipeline::new();
    from.set_value(FixtureId(1), Attribute::Dimmer, AttributeValue { bits: 1 });
    from.set_value(FixtureId(2), Attribute::Pan, AttributeValue { bits: 2 });
    let mut to = Pipeline::new();
    to.set_value(FixtureId(3), Attribute::Tilt, AttributeValue { bits: 3 });
    to.set_value(FixtureId(1), Attribute::Dimmer, AttributeValue { bits: 4 });
    let v = fade_values(&from, &to);
    assert_eq!(v.len(), 3);
    assert_eq!(v[0], ((FixtureId(3), Attribute::Tilt), None, Some(AttributeValue { bits: 3 })));
    assert_eq!(v[1], ((FixtureId(1), Attribute::Dimmer), Some(AttributeValue { bits: 1 }), Some(AttributeValue { bits: 4 })));
    assert_eq!(v[2], ((FixtureId(2), Attribute::Pan), Some(AttributeValue { bits: 2 }), None));
}

#[test]
fn multiverse_keeps_channels_until_written() {
    let mut m = Multiverse::new();
    assert_eq!(m.value(1, 1), 0);
    m.write_channels(1, &[(10, 5), (11, 6), (10, 7)]);
    assert_eq!(m.value(1, 10), 7);
    assert_eq!(m.value(1, 11), 6);
    m.write_channels(2, &[(512, 9)]);
    assert_eq!(m.value(1, 11), 6);
    assert_eq!(m.value(2, 512), 9);
    assert_eq!(m.value(2, 513), 0);
    assert_eq!(m.universes().len(), 2);
    assert_eq!(m.universes()[0].0, 1);
    assert_eq!(m.universes()[0].1[9], 7);
}

#[test]
fn scheduler_reloads_and_refuses_unregistered() {
    let mut s = EffectScheduler::new();
    s.register_effect(1, Effect::new("A".to_string(), "a".to_string())).unwrap();
    s.register_effect(2, Effect::new("B".to_string(), "b".to_string())).unwrap();
    s.start_effect(2).unwrap();
    s.start_effect(1).unwrap();
    assert_eq!(s.start_effect(5).err(), Some(EffectError::NotRegistered));
    assert!(s.effect_running(1) && s.effect_running(2));
    let actions = s.reload_effects(vec![
        (3, Effect::new("C".to_string(), "c".to_string())),
        (3, Effect::new("D".to_string(), "d".to_string())),
    ]);
    assert!(matches!(actions[..], [EffectAction::Stop(2), EffectAction::Stop(1)]));
    assert!(!s.effect_running(1));
    match s.start_effect(3) {
        Ok(EffectAction::Run { effect, restart, .. }) => {
            assert_eq!(effect.name(), "D");
            assert!(!restart);
        },
        _ => panic!("expected to run"),
    }
    assert_eq!(s.start_effect(1).err(), Some(EffectError::NotRegistered));
}

#[test]
fn feature_group_ignores_numbers() {
    assert_eq!(Attribute::Gobo(1).feature_group(), Attribute::Gobo(7).feature_group());
    assert_eq!(Attribute::EffectsAdjust(1, 2).feature_group(), Attribute::EffectsAdjust(9, 0).feature_group());
    assert_eq!(Attribute::ColorWheelIndex(3).feature_group(), Attribute::ColorWheelIndex(200).feature_group());
}

#[test]
fn resolved_values_reach_the_multiverse() {
    let mode = DmxMode {
        name: "Mode1".to_string(),
        channels: vec![DmxChannel { offset: Some(vec![1, 2]), attribute_names: vec!["Dimmer".to_string()], initial: None }],
    };
    let mut patch = Patch::new();
    patch.fixture_types.push(FixtureType { id: 9, modes: vec![mode] });
    patch.insert_fixture(FixtureId(1), DmxAddress { universe: 4, channel: 20 }, 9, "Mode1".to_string());
    let mut pipeline = Pipeline::new();
    pipeline.set_value(FixtureId(1), Attribute::Dimmer, AttributeValue { bits: 6 });
    let resolved = pipeline.resolve(&patch);
    let mut m = Multiverse::new();
    m.write_channels(4, &[(30, 1)]);
    write_resolved(&mut m, &resolved, &[0xabcd_0000]);
    assert_eq!(m.value(4, 20), 0xab);
    assert_eq!(m.value(4, 21), 0xcd);
    assert_eq!(m.value(4, 30), 1);
}
