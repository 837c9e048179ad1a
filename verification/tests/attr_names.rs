use radiant::attr::Attribute;

#[test]
fn dimmer() {
    assert_eq!(Attribute::from_str("Dimmer").unwrap(), Attribute::Dimmer);
}

#[test]
fn pan() {
    assert_eq!(Attribute::from_str("Pan").unwrap(), Attribute::Pan);
}

#[test]
fn tilt() {
    assert_eq!(Attribute::from_str("Tilt").unwrap(), Attribute::Tilt);
}

#[test]
fn pan_rotate() {
    assert_eq!(Attribute::from_str("PanRotate").unwrap(), Attribute::PanRotate);
}

#[test]
fn tilt_rotate() {
    assert_eq!(Attribute::from_str("TiltRotate").unwrap(), Attribute::TiltRotate);
}

#[test]
fn position_effect() {
    assert_eq!(Attribute::from_str("PositionEffect").unwrap(), Attribute::PositionEffect);
}

#[test]
fn position_effect_rate() {
    assert_eq!(Attribute::from_str("PositionEffectRate").unwrap(), Attribute::PositionEffectRate);
}

#[test]
fn position_effect_fade() {
    assert_eq!(Attribute::from_str("PositionEffectFade").unwrap(), Attribute::PositionEffectFade);
}

#[test]
fn xyz_x() {
    assert_eq!(Attribute::from_str("XYZ_X").unwrap(), Attribute::XyzX);
}

#[test]
fn xyz_y() {
    assert_eq!(Attribute::from_str("XYZ_Y").unwrap(), Attribute::XyzY);
}

#[test]
fn xyz_z() {
    assert_eq!(Attribute::from_str("XYZ_Z").unwrap(), Attribute::XyzZ);
}

#[test]
fn rot_x() {
    assert_eq!(Attribute::from_str("Rot_X").unwrap(), Attribute::RotX);
}

#[test]
fn rot_y() {
    assert_eq!(Attribute::from_str("Rot_Y").unwrap(), Attribute::RotY);
}

#[test]
fn rot_z() {
    assert_eq!(Attribute::from_str("Rot_Z").unwrap(), Attribute::RotZ);
}

#[test]
fn scale_x() {
    assert_eq!(Attribute::from_str("Scale_X").unwrap(), Attribute::ScaleX);
}

#[test]
fn scale_y() {
    assert_eq!(Attribute::from_str("Scale_Y").unwrap(), Attribute::ScaleY);
}

#[test]
fn scale_z() {
    assert_eq!(Attribute::from_str("Scale_Z").unwrap(), Attribute::ScaleZ);
}

#[test]
fn scale_xyz() {
    assert_eq!(Attribute::from_str("Scale_XYZ").unwrap(), Attribute::ScaleXYZ);
}

#[test]
fn gobo_n() {
    assert_eq!(Attribute::from_str("Gobo1").unwrap(), Attribute::Gobo(1));
}

#[test]
fn gobo_n_select_spin() {
    assert_eq!(Attribute::from_str("Gobo1SelectSpin").unwrap(), Attribute::GoboSelectSpin(1));
}

#[test]
fn gobo_n_select_shake() {
    assert_eq!(Attribute::from_str("Gobo1SelectShake").unwrap(), Attribute::GoboSelectShake(1));
}

#[test]
fn gobo_n_select_effects() {
    assert_eq!(Attribute::from_str("Gobo1SelectEffects").unwrap(), Attribute::GoboSelectEffects(1));
}

#[test]
fn gobo_n_wheel_index() {
    assert_eq!(Attribute::from_str("Gobo1WheelIndex").unwrap(), Attribute::GoboWheelIndex(1));
}

#[test]
fn gobo_n_wheel_spin() {
    assert_eq!(Attribute::from_str("Gobo1WheelSpin").unwrap(), Attribute::GoboWheelSpin(1));
}

#[test]
fn gobo_n_wheel_shake() {
    assert_eq!(Attribute::from_str("Gobo1WheelShake").unwrap(), Attribute::GoboWheelShake(1));
}

#[test]
fn gobo_n_wheel_random() {
    assert_eq!(Attribute::from_str("Gobo1WheelRandom").unwrap(), Attribute::GoboWheelRandom(1));
}

#[test]
fn gobo_n_wheel_audio() {
    assert_eq!(Attribute::from_str("Gobo1WheelAudio").unwrap(), Attribute::GoboWheelAudio(1));
}

#[test]
fn gobo_n_pos() {
    assert_eq!(Attribute::from_str("Gobo1Pos").unwrap(), Attribute::GoboPos(1));
}

#[test]
fn gobo_n_pos_rotate() {
    assert_eq!(Attribute::from_str("Gobo1PosRotate").unwrap(), Attribute::GoboPosRotate(1));
}

#[test]
fn gobo_n_pos_shake() {
    assert_eq!(Attribute::from_str("Gobo1PosShake").unwrap(), Attribute::GoboPosShake(1));
}

#[test]
fn animation_wheel_n() {
    assert_eq!(Attribute::from_str("AnimationWheel1").unwrap(), Attribute::AnimationWheel(1));
}

#[test]
fn animation_wheel_n_audio() {
    assert_eq!(Attribute::from_str("AnimationWheel1Audio").unwrap(), Attribute::AnimationWheelAudio(1));
}

#[test]
fn animation_wheel_n_macro() {
    assert_eq!(Attribute::from_str("AnimationWheel1Macro").unwrap(), Attribute::AnimationWheelMacro(1));
}

#[test]
fn animation_wheel_n_random() {
    assert_eq!(Attribute::from_str("AnimationWheel1Random").unwrap(), Attribute::AnimationWheelRandom(1));
}

#[test]
fn animation_wheel_n_select_effects() {
    assert_eq!(Attribute::from_str("AnimationWheel1SelectEffects").unwrap(), Attribute::AnimationWheelSelectEffects(1));
}

#[test]
fn animation_wheel_n_select_shake() {
    assert_eq!(Attribute::from_str("AnimationWheel1SelectShake").unwrap(), Attribute::AnimationWheelSelectShake(1));
}

#[test]
fn animation_wheel_n_select_spin() {
    assert_eq!(Attribute::from_str("AnimationWheel1SelectSpin").unwrap(), Attribute::AnimationWheelSelectSpin(1));
}

#[test]
fn animation_wheel_n_pos() {
    assert_eq!(Attribute::from_str("AnimationWheel1Pos").unwrap(), Attribute::AnimationWheelPos(1));
}

#[test]
fn animation_wheel_n_pos_rotate() {
    assert_eq!(Attribute::from_str("AnimationWheel1PosRotate").unwrap(), Attribute::AnimationWheelPosRotate(1));
}

#[test]
fn animation_wheel_n_pos_shake() {
    assert_eq!(Attribute::from_str("AnimationWheel1PosShake").unwrap(), Attribute::AnimationWheelPosShake(1));
}

#[test]
fn animation_system_n() {
    assert_eq!(Attribute::from_str("AnimationSystem1").unwrap(), Attribute::AnimationSystem(1));
}

#[test]
fn animation_system_n_ramp() {
    assert_eq!(Attribute::from_str("AnimationSystem1Ramp").unwrap(), Attribute::AnimationSystemRamp(1));
}

#[test]
fn animation_system_n_shake() {
    assert_eq!(Attribute::from_str("AnimationSystem1Shake").unwrap(), Attribute::AnimationSystemShake(1));
}

#[test]
fn animation_system_n_audio() {
    assert_eq!(Attribute::from_str("AnimationSystem1Audio").unwrap(), Attribute::AnimationSystemAudio(1));
}

#[test]
fn animation_system_n_random() {
    assert_eq!(Attribute::from_str("AnimationSystem1Random").unwrap(), Attribute::AnimationSystemRandom(1));
}

#[test]
fn animation_system_n_pos() {
    assert_eq!(Attribute::from_str("AnimationSystem1Pos").unwrap(), Attribute::AnimationSystemPos(1));
}

#[test]
fn animation_system_n_pos_rotate() {
    assert_eq!(Attribute::from_str("AnimationSystem1PosRotate").unwrap(), Attribute::AnimationSystemPosRotate(1));
}

#[test]
fn animation_system_n_pos_shake() {
    assert_eq!(Attribute::from_str("AnimationSystem1PosShake").unwrap(), Attribute::AnimationSystemPosShake(1));
}

#[test]
fn animation_system_n_pos_random() {
    assert_eq!(Attribute::from_str("AnimationSystem1PosRandom").unwrap(), Attribute::AnimationSystemPosRandom(1));
}

#[test]
fn animation_system_n_pos_audio() {
    assert_eq!(Attribute::from_str("AnimationSystem1PosAudio").unwrap(), Attribute::AnimationSystemPosAudio(1));
}

#[test]
fn animation_system_n_macro() {
    assert_eq!(Attribute::from_str("AnimationSystem1Macro").unwrap(), Attribute::AnimationSystemMacro(1));
}

#[test]
fn media_folder_n() {
    assert_eq!(Attribute::from_str("MediaFolder1").unwrap(), Attribute::MediaFolder(1));
}

#[test]
fn media_content_n() {
    assert_eq!(Attribute::from_str("MediaContent1").unwrap(), Attribute::MediaContent(1));
}

#[test]
fn model_folder_n() {
    assert_eq!(Attribute::from_str("ModelFolder1").unwrap(), Attribute::ModelFolder(1));
}

#[test]
fn model_content_n() {
    assert_eq!(Attribute::from_str("ModelContent1").unwrap(), Attribute::ModelContent(1));
}

#[test]
fn play_mode() {
    assert_eq!(Attribute::from_str("PlayMode").unwrap(), Attribute::PlayMode);
}

#[test]
fn play_begin() {
    assert_eq!(Attribute::from_str("PlayBegin").unwrap(), Attribute::PlayBegin);
}

#[test]
fn play_end() {
    assert_eq!(Attribute::from_str("PlayEnd").unwrap(), Attribute::PlayEnd);
}

#[test]
fn play_speed() {
    assert_eq!(Attribute::from_str("PlaySpeed").unwrap(), Attribute::PlaySpeed);
}

#[test]
fn color_effects_n() {
    assert_eq!(Attribute::from_str("ColorEffects1").unwrap(), Attribute::ColorEffects(1));
}

#[test]
fn color_n() {
    assert_eq!(Attribute::from_str("Color1").unwrap(), Attribute::Color(1));
}

#[test]
fn color_n_wheel_index() {
    assert_eq!(Attribute::from_str("Color1WheelIndex").unwrap(), Attribute::ColorWheelIndex(1));
}

#[test]
fn color_n_wheel_spin() {
    assert_eq!(Attribute::from_str("Color1WheelSpin").unwrap(), Attribute::ColorWheelSpin(1));
}

#[test]
fn color_n_wheel_random() {
    assert_eq!(Attribute::from_str("Color1WheelRandom").unwrap(), Attribute::ColorWheelRandom(1));
}

#[test]
fn color_n_wheel_audio() {
    assert_eq!(Attribute::from_str("Color1WheelAudio").unwrap(), Attribute::ColorWheelAudio(1));
}

#[test]
fn color_add_r() {
    assert_eq!(Attribute::from_str("ColorAdd_R").unwrap(), Attribute::ColorAddR);
}

#[test]
fn color_add_g() {
    assert_eq!(Attribute::from_str("ColorAdd_G").unwrap(), Attribute::ColorAddG);
}

#[test]
fn color_add_b() {
    assert_eq!(Attribute::from_str("ColorAdd_B").unwrap(), Attribute::ColorAddB);
}

#[test]
fn color_add_c() {
    assert_eq!(Attribute::from_str("ColorAdd_C").unwrap(), Attribute::ColorAddC);
}

#[test]
fn color_add_m() {
    assert_eq!(Attribute::from_str("ColorAdd_M").unwrap(), Attribute::ColorAddM);
}

#[test]
fn color_add_y() {
    assert_eq!(Attribute::from_str("ColorAdd_Y").unwrap(), Attribute::ColorAddY);
}

#[test]
fn color_add_ry() {
    assert_eq!(Attribute::from_str("ColorAdd_RY").unwrap(), Attribute::ColorAddRY);
}

#[test]
fn color_add_gy() {
    assert_eq!(Attribute::from_str("ColorAdd_GY").unwrap(), Attribute::ColorAddGY);
}

#[test]
fn color_add_gc() {
    assert_eq!(Attribute::from_str("ColorAdd_GC").unwrap(), Attribute::ColorAddGC);
}

#[test]
fn color_add_bc() {
    assert_eq!(Attribute::from_str("ColorAdd_BC").unwrap(), Attribute::ColorAddBC);
}

#[test]
fn color_add_bm() {
    assert_eq!(Attribute::from_str("ColorAdd_BM").unwrap(), Attribute::ColorAddBM);
}

#[test]
fn color_add_rm() {
    assert_eq!(Attribute::from_str("ColorAdd_RM").unwrap(), Attribute::ColorAddRM);
}

#[test]
fn color_add_w() {
    assert_eq!(Attribute::from_str("ColorAdd_W").unwrap(), Attribute::ColorAddW);
}

#[test]
fn color_add_ww() {
    assert_eq!(Attribute::from_str("ColorAdd_WW").unwrap(), Attribute::ColorAddWW);
}

#[test]
fn color_add_cw() {
    assert_eq!(Attribute::from_str("ColorAdd_CW").unwrap(), Attribute::ColorAddCW);
}

#[test]
fn color_add_uv() {
    assert_eq!(Attribute::from_str("ColorAdd_UV").unwrap(), Attribute::ColorAddUV);
}

#[test]
fn color_sub_r() {
    assert_eq!(Attribute::from_str("ColorSub_R").unwrap(), Attribute::ColorSubR);
}

#[test]
fn color_sub_g() {
    assert_eq!(Attribute::from_str("ColorSub_G").unwrap(), Attribute::ColorSubG);
}

#[test]
fn color_sub_b() {
    assert_eq!(Attribute::from_str("ColorSub_B").unwrap(), Attribute::ColorSubB);
}

#[test]
fn color_sub_c() {
    assert_eq!(Attribute::from_str("ColorSub_C").unwrap(), Attribute::ColorSubC);
}

#[test]
fn color_sub_m() {
    assert_eq!(Attribute::from_str("ColorSub_M").unwrap(), Attribute::ColorSubM);
}

#[test]
fn color_sub_y() {
    assert_eq!(Attribute::from_str("ColorSub_Y").unwrap(), Attribute::ColorSubY);
}

#[test]
fn color_macro_n() {
    assert_eq!(Attribute::from_str("ColorMacro1").unwrap(), Attribute::ColorMacro(1));
}

#[test]
fn color_macro_n_rate() {
    assert_eq!(Attribute::from_str("ColorMacro1Rate").unwrap(), Attribute::ColorMacroRate(1));
}

#[test]
fn cto() {
    assert_eq!(Attribute::from_str("CTO").unwrap(), Attribute::Cto);
}

#[test]
fn ctc() {
    assert_eq!(Attribute::from_str("CTC").unwrap(), Attribute::Ctc);
}

#[test]
fn ctb() {
    assert_eq!(Attribute::from_str("CTB").unwrap(), Attribute::Ctb);
}

#[test]
fn tint() {
    assert_eq!(Attribute::from_str("Tint").unwrap(), Attribute::Tint);
}

#[test]
fn hsb_hue() {
    assert_eq!(Attribute::from_str("HSB_Hue").unwrap(), Attribute::HsbHue);
}

#[test]
fn hsb_saturation() {
    assert_eq!(Attribute::from_str("HSB_Saturation").unwrap(), Attribute::HsbSaturation);
}

#[test]
fn hsb_brightness() {
    assert_eq!(Attribute::from_str("HSB_Brightness").unwrap(), Attribute::HsbBrightness);
}

#[test]
fn hsb_quality() {
    assert_eq!(Attribute::from_str("HSB_Quality").unwrap(), Attribute::HsbQuality);
}

#[test]
fn cie_x() {
    assert_eq!(Attribute::from_str("CIE_X").unwrap(), Attribute::CieX);
}

#[test]
fn cie_y() {
    assert_eq!(Attribute::from_str("CIE_Y").unwrap(), Attribute::CieY);
}

#[test]
fn cie_brightness() {
    assert_eq!(Attribute::from_str("CIE_Brightness").unwrap(), Attribute::CieBrightness);
}

#[test]
fn color_rgb_red() {
    assert_eq!(Attribute::from_str("ColorRGB_Red").unwrap(), Attribute::ColorRgbRed);
}

#[test]
fn color_rgb_green() {
    assert_eq!(Attribute::from_str("ColorRGB_Green").unwrap(), Attribute::ColorRgbGreen);
}

#[test]
fn color_rgb_blue() {
    assert_eq!(Attribute::from_str("ColorRGB_Blue").unwrap(), Attribute::ColorRgbBlue);
}

#[test]
fn color_rgb_cyan() {
    assert_eq!(Attribute::from_str("ColorRGB_Cyan").unwrap(), Attribute::ColorRgbCyan);
}

#[test]
fn color_rgb_magenta() {
    assert_eq!(Attribute::from_str("ColorRGB_Magenta").unwrap(), Attribute::ColorRgbMagenta);
}

#[test]
fn color_rgb_yellow() {
    assert_eq!(Attribute::from_str("ColorRGB_Yellow").unwrap(), Attribute::ColorRgbYellow);
}

#[test]
fn color_rgb_quality() {
    assert_eq!(Attribute::from_str("ColorRGB_Quality").unwrap(), Attribute::ColorRgbQuality);
}

#[test]
fn video_boost_r() {
    assert_eq!(Attribute::from_str("VideoBoost_R").unwrap(), Attribute::VideoBoostR);
}

#[test]
fn video_boost_g() {
    assert_eq!(Attribute::from_str("VideoBoost_G").unwrap(), Attribute::VideoBoostG);
}

#[test]
fn video_boost_b() {
    assert_eq!(Attribute::from_str("VideoBoost_B").unwrap(), Attribute::VideoBoostB);
}

#[test]
fn video_hue_shift() {
    assert_eq!(Attribute::from_str("VideoHueShift").unwrap(), Attribute::VideoHueShift);
}

#[test]
fn video_saturation() {
    assert_eq!(Attribute::from_str("VideoSaturation").unwrap(), Attribute::VideoSaturation);
}

#[test]
fn video_brightness() {
    assert_eq!(Attribute::from_str("VideoBrightness").unwrap(), Attribute::VideoBrightness);
}

#[test]
fn video_contrast() {
    assert_eq!(Attribute::from_str("VideoContrast").unwrap(), Attribute::VideoContrast);
}

#[test]
fn video_key_color_r() {
    assert_eq!(Attribute::from_str("VideoKeyColor_R").unwrap(), Attribute::VideoKeyColorR);
}

#[test]
fn video_key_color_g() {
    assert_eq!(Attribute::from_str("VideoKeyColor_G").unwrap(), Attribute::VideoKeyColorG);
}

#[test]
fn video_key_color_b() {
    assert_eq!(Attribute::from_str("VideoKeyColor_B").unwrap(), Attribute::VideoKeyColorB);
}

#[test]
fn video_key_intensity() {
    assert_eq!(Attribute::from_str("VideoKeyIntensity").unwrap(), Attribute::VideoKeyIntensity);
}

#[test]
fn video_key_tolerance() {
    assert_eq!(Attribute::from_str("VideoKeyTolerance").unwrap(), Attribute::VideoKeyTolerance);
}

#[test]
fn strobe_duration() {
    assert_eq!(Attribute::from_str("StrobeDuration").unwrap(), Attribute::StrobeDuration);
}

#[test]
fn strobe_rate() {
    assert_eq!(Attribute::from_str("StrobeRate").unwrap(), Attribute::StrobeRate);
}

#[test]
fn strobe_frequency() {
    assert_eq!(Attribute::from_str("StrobeFrequency").unwrap(), Attribute::StrobeFrequency);
}

#[test]
fn strobe_mode_shutter() {
    assert_eq!(Attribute::from_str("StrobeModeShutter").unwrap(), Attribute::StrobeModeShutter);
}

#[test]
fn strobe_mode_strobe() {
    assert_eq!(Attribute::from_str("StrobeModeStrobe").unwrap(), Attribute::StrobeModeStrobe);
}

#[test]
fn strobe_mode_pulse() {
    assert_eq!(Attribute::from_str("StrobeModePulse").unwrap(), Attribute::StrobeModePulse);
}

#[test]
fn strobe_mode_pulse_open() {
    assert_eq!(Attribute::from_str("StrobeModePulseOpen").unwrap(), Attribute::StrobeModePulseOpen);
}

#[test]
fn strobe_mode_pulse_close() {
    assert_eq!(Attribute::from_str("StrobeModePulseClose").unwrap(), Attribute::StrobeModePulseClose);
}

#[test]
fn strobe_mode_random() {
    assert_eq!(Attribute::from_str("StrobeModeRandom").unwrap(), Attribute::StrobeModeRandom);
}

#[test]
fn strobe_mode_random_pulse() {
    assert_eq!(Attribute::from_str("StrobeModeRandomPulse").unwrap(), Attribute::StrobeModeRandomPulse);
}

#[test]
fn strobe_mode_random_pulse_open() {
    assert_eq!(Attribute::from_str("StrobeModeRandomPulseOpen").unwrap(), Attribute::StrobeModeRandomPulseOpen);
}

#[test]
fn strobe_mode_random_pulse_close() {
    assert_eq!(Attribute::from_str("StrobeModeRandomPulseClose").unwrap(), Attribute::StrobeModeRandomPulseClose);
}

#[test]
fn strobe_mode_effect() {
    assert_eq!(Attribute::from_str("StrobeModeEffect").unwrap(), Attribute::StrobeModeEffect);
}

#[test]
fn shutter_n() {
    assert_eq!(Attribute::from_str("Shutter1").unwrap(), Attribute::Shutter(1));
}

#[test]
fn shutter_n_strobe() {
    assert_eq!(Attribute::from_str("Shutter1Strobe").unwrap(), Attribute::ShutterStrobe(1));
}

#[test]
fn shutter_n_strobe_pulse() {
    assert_eq!(Attribute::from_str("Shutter1StrobePulse").unwrap(), Attribute::ShutterStrobePulse(1));
}

#[test]
fn shutter_n_strobe_pulse_close() {
    assert_eq!(Attribute::from_str("Shutter1StrobePulseClose").unwrap(), Attribute::ShutterStrobePulseClose(1));
}

#[test]
fn shutter_n_strobe_pulse_open() {
    assert_eq!(Attribute::from_str("Shutter1StrobePulseOpen").unwrap(), Attribute::ShutterStrobePulseOpen(1));
}

#[test]
fn shutter_n_strobe_random() {
    assert_eq!(Attribute::from_str("Shutter1StrobeRandom").unwrap(), Attribute::ShutterStrobeRandom(1));
}

#[test]
fn shutter_n_strobe_random_pulse() {
    assert_eq!(Attribute::from_str("Shutter1StrobeRandomPulse").unwrap(), Attribute::ShutterStrobeRandomPulse(1));
}

#[test]
fn shutter_n_strobe_random_pulse_close() {
    assert_eq!(Attribute::from_str("Shutter1StrobeRandomPulseClose").unwrap(), Attribute::ShutterStrobeRandomPulseClose(1));
}

#[test]
fn shutter_n_strobe_random_pulse_open() {
    assert_eq!(Attribute::from_str("Shutter1StrobeRandomPulseOpen").unwrap(), Attribute::ShutterStrobeRandomPulseOpen(1));
}

#[test]
fn shutter_n_strobe_effect() {
    assert_eq!(Attribute::from_str("Shutter1StrobeEffect").unwrap(), Attribute::ShutterStrobeEffect(1));
}

#[test]
fn iris() {
    assert_eq!(Attribute::from_str("Iris").unwrap(), Attribute::Iris);
}

#[test]
fn iris_strobe() {
    assert_eq!(Attribute::from_str("IrisStrobe").unwrap(), Attribute::IrisStrobe);
}

#[test]
fn iris_strobe_random() {
    assert_eq!(Attribute::from_str("IrisStrobeRandom").unwrap(), Attribute::IrisStrobeRandom);
}

#[test]
fn iris_pulse_close() {
    assert_eq!(Attribute::from_str("IrisPulseClose").unwrap(), Attribute::IrisPulseClose);
}

#[test]
fn iris_pulse_open() {
    assert_eq!(Attribute::from_str("IrisPulseOpen").unwrap(), Attribute::IrisPulseOpen);
}

#[test]
fn iris_random_pulse_close() {
    assert_eq!(Attribute::from_str("IrisRandomPulseClose").unwrap(), Attribute::IrisRandomPulseClose);
}

#[test]
fn iris_random_pulse_open() {
    assert_eq!(Attribute::from_str("IrisRandomPulseOpen").unwrap(), Attribute::IrisRandomPulseOpen);
}

#[test]
fn frost_n() {
    assert_eq!(Attribute::from_str("Frost1").unwrap(), Attribute::Frost(1));
}

#[test]
fn frost_n_pulse_open() {
    assert_eq!(Attribute::from_str("Frost1PulseOpen").unwrap(), Attribute::FrostPulseOpen(1));
}

#[test]
fn frost_n_pulse_close() {
    assert_eq!(Attribute::from_str("Frost1PulseClose").unwrap(), Attribute::FrostPulseClose(1));
}

#[test]
fn frost_n_ramp() {
    assert_eq!(Attribute::from_str("Frost1Ramp").unwrap(), Attribute::FrostRamp(1));
}

#[test]
fn prism_n() {
    assert_eq!(Attribute::from_str("Prism1").unwrap(), Attribute::Prism(1));
}

#[test]
fn prism_n_select_spin() {
    assert_eq!(Attribute::from_str("Prism1SelectSpin").unwrap(), Attribute::PrismSelectSpin(1));
}

#[test]
fn prism_n_macro() {
    assert_eq!(Attribute::from_str("Prism1Macro").unwrap(), Attribute::PrismMacro(1));
}

#[test]
fn prism_n_pos() {
    assert_eq!(Attribute::from_str("Prism1Pos").unwrap(), Attribute::PrismPos(1));
}

#[test]
fn prism_n_pos_rotate() {
    assert_eq!(Attribute::from_str("Prism1PosRotate").unwrap(), Attribute::PrismPosRotate(1));
}

#[test]
fn effects_n() {
    assert_eq!(Attribute::from_str("Effects1").unwrap(), Attribute::Effects(1));
}

#[test]
fn effects_n_rate() {
    assert_eq!(Attribute::from_str("Effects1Rate").unwrap(), Attribute::EffectsRate(1));
}

#[test]
fn effects_n_fade() {
    assert_eq!(Attribute::from_str("Effects1Fade").unwrap(), Attribute::EffectsFade(1));
}

#[test]
fn effects_n_adjust_m() {
    assert_eq!(Attribute::from_str("Effects1Adjust2").unwrap(), Attribute::EffectsAdjust(1, 2));
}

#[test]
fn effects_n_pos() {
    assert_eq!(Attribute::from_str("Effects1Pos").unwrap(), Attribute::EffectsPos(1));
}

#[test]
fn effects_n_pos_rotate() {
    assert_eq!(Attribute::from_str("Effects1PosRotate").unwrap(), Attribute::EffectsPosRotate(1));
}

#[test]
fn effects_sync() {
    assert_eq!(Attribute::from_str("EffectsSync").unwrap(), Attribute::EffectsSync);
}

#[test]
fn beam_shaper() {
    assert_eq!(Attribute::from_str("BeamShaper").unwrap(), Attribute::BeamShaper);
}

#[test]
fn beam_shaper_macro() {
    assert_eq!(Attribute::from_str("BeamShaperMacro").unwrap(), Attribute::BeamShaperMacro);
}

#[test]
fn beam_shaper_pos() {
    assert_eq!(Attribute::from_str("BeamShaperPos").unwrap(), Attribute::BeamShaperPos);
}

#[test]
fn beam_shaper_pos_rotate() {
    assert_eq!(Attribute::from_str("BeamShaperPosRotate").unwrap(), Attribute::BeamShaperPosRotate);
}

#[test]
fn zoom() {
    assert_eq!(Attribute::from_str("Zoom").unwrap(), Attribute::Zoom);
}

#[test]
fn zoom_mode_spot() {
    assert_eq!(Attribute::from_str("ZoomModeSpot").unwrap(), Attribute::ZoomModeSpot);
}

#[test]
fn zoom_mode_beam() {
    assert_eq!(Attribute::from_str("ZoomModeBeam").unwrap(), Attribute::ZoomModeBeam);
}

#[test]
fn digital_zoom() {
    assert_eq!(Attribute::from_str("DigitalZoom").unwrap(), Attribute::DigitalZoom);
}

#[test]
fn focus_n() {
    assert_eq!(Attribute::from_str("Focus1").unwrap(), Attribute::Focus(1));
}

#[test]
fn focus_n_adjust() {
    assert_eq!(Attribute::from_str("Focus1Adjust").unwrap(), Attribute::FocusAdjust(1));
}

#[test]
fn focus_n_distance() {
    assert_eq!(Attribute::from_str("Focus1Distance").unwrap(), Attribute::FocusDistance(1));
}

#[test]
fn control_n() {
    assert_eq!(Attribute::from_str("Control1").unwrap(), Attribute::Control(1));
}

#[test]
fn dimmer_mode() {
    assert_eq!(Attribute::from_str("DimmerMode").unwrap(), Attribute::DimmerMode);
}

#[test]
fn dimmer_curve() {
    assert_eq!(Attribute::from_str("DimmerCurve").unwrap(), Attribute::DimmerCurve);
}

#[test]
fn blackout_mode() {
    assert_eq!(Attribute::from_str("BlackoutMode").unwrap(), Attribute::BlackoutMode);
}

#[test]
fn led_frequency() {
    assert_eq!(Attribute::from_str("LEDFrequency").unwrap(), Attribute::LedFrequency);
}

#[test]
fn led_zone_mode() {
    assert_eq!(Attribute::from_str("LEDZoneMode").unwrap(), Attribute::LedZoneMode);
}

#[test]
fn pixel_mode() {
    assert_eq!(Attribute::from_str("PixelMode").unwrap(), Attribute::PixelMode);
}

#[test]
fn pan_mode() {
    assert_eq!(Attribute::from_str("PanMode").unwrap(), Attribute::PanMode);
}

#[test]
fn tilt_mode() {
    assert_eq!(Attribute::from_str("TiltMode").unwrap(), Attribute::TiltMode);
}

#[test]
fn pan_tilt_mode() {
    assert_eq!(Attribute::from_str("PanTiltMode").unwrap(), Attribute::PanTiltMode);
}

#[test]
fn position_modes() {
    assert_eq!(Attribute::from_str("PositionModes").unwrap(), Attribute::PositionModes);
}

#[test]
fn gobo_n_wheel_mode() {
    assert_eq!(Attribute::from_str("Gobo1WheelMode").unwrap(), Attribute::GoboWheelMode(1));
}

#[test]
fn gobo_wheel_shortcut_mode() {
    assert_eq!(Attribute::from_str("GoboWheelShortcutMode").unwrap(), Attribute::GoboWheelShortcutMode);
}

#[test]
fn animation_wheel_n_mode() {
    assert_eq!(Attribute::from_str("AnimationWheel1Mode").unwrap(), Attribute::AnimationWheelMode(1));
}

#[test]
fn animation_wheel_shortcut_mode() {
    assert_eq!(Attribute::from_str("AnimationWheelShortcutMode").unwrap(), Attribute::AnimationWheelShortcutMode);
}

#[test]
fn color_n_mode() {
    assert_eq!(Attribute::from_str("Color1Mode").unwrap(), Attribute::ColorMode(1));
}

#[test]
fn color_wheel_shortcut_mode() {
    assert_eq!(Attribute::from_str("ColorWheelShortcutMode").unwrap(), Attribute::ColorWheelShortcutMode);
}

#[test]
fn cyan_mode() {
    assert_eq!(Attribute::from_str("CyanMode").unwrap(), Attribute::CyanMode);
}

#[test]
fn magenta_mode() {
    assert_eq!(Attribute::from_str("MagentaMode").unwrap(), Attribute::MagentaMode);
}

#[test]
fn yellow_mode() {
    assert_eq!(Attribute::from_str("YellowMode").unwrap(), Attribute::YellowMode);
}

#[test]
fn color_mix_mode() {
    assert_eq!(Attribute::from_str("ColorMixMode").unwrap(), Attribute::ColorMixMode);
}

#[test]
fn chromatic_mode() {
    assert_eq!(Attribute::from_str("ChromaticMode").unwrap(), Attribute::ChromaticMode);
}

#[test]
fn color_calibration_mode() {
    assert_eq!(Attribute::from_str("ColorCalibrationMode").unwrap(), Attribute::ColorCalibrationMode);
}

#[test]
fn color_consistency() {
    assert_eq!(Attribute::from_str("ColorConsistency").unwrap(), Attribute::ColorConsistency);
}

#[test]
fn color_control() {
    assert_eq!(Attribute::from_str("ColorControl").unwrap(), Attribute::ColorControl);
}

#[test]
fn color_model_mode() {
    assert_eq!(Attribute::from_str("ColorModelMode").unwrap(), Attribute::ColorModelMode);
}

#[test]
fn color_settings_reset() {
    assert_eq!(Attribute::from_str("ColorSettingsReset").unwrap(), Attribute::ColorSettingsReset);
}

#[test]
fn color_uniformity() {
    assert_eq!(Attribute::from_str("ColorUniformity").unwrap(), Attribute::ColorUniformity);
}

#[test]
fn cri_mode() {
    assert_eq!(Attribute::from_str("CRIMode").unwrap(), Attribute::CriMode);
}

#[test]
fn custom_color() {
    assert_eq!(Attribute::from_str("CustomColor").unwrap(), Attribute::CustomColor);
}

#[test]
fn uv_stability() {
    assert_eq!(Attribute::from_str("UVStability").unwrap(), Attribute::UvStability);
}

#[test]
fn wavelength_correction() {
    assert_eq!(Attribute::from_str("WavelengthCorrection").unwrap(), Attribute::WavelengthCorrection);
}

#[test]
fn white_count() {
    assert_eq!(Attribute::from_str("WhiteCount").unwrap(), Attribute::WhiteCount);
}

#[test]
fn strobe_mode() {
    assert_eq!(Attribute::from_str("StrobeMode").unwrap(), Attribute::StrobeMode);
}

#[test]
fn zoom_mode() {
    assert_eq!(Attribute::from_str("ZoomMode").unwrap(), Attribute::ZoomMode);
}

#[test]
fn focus_mode() {
    assert_eq!(Attribute::from_str("FocusMode").unwrap(), Attribute::FocusMode);
}

#[test]
fn iris_mode() {
    assert_eq!(Attribute::from_str("IrisMode").unwrap(), Attribute::IrisMode);
}

#[test]
fn fan_n_mode() {
    assert_eq!(Attribute::from_str("Fan1Mode").unwrap(), Attribute::FanMode(1));
}

#[test]
fn follow_spot_mode() {
    assert_eq!(Attribute::from_str("FollowSpotMode").unwrap(), Attribute::FollowSpotMode);
}

#[test]
fn beam_effect_index_rotate_mode() {
    assert_eq!(Attribute::from_str("BeamEffectIndexRotateMode").unwrap(), Attribute::BeamEffectIndexRotateMode);
}

#[test]
fn intensity_m_speed() {
    assert_eq!(Attribute::from_str("IntensityMSpeed").unwrap(), Attribute::IntensityMSpeed);
}

#[test]
fn position_m_speed() {
    assert_eq!(Attribute::from_str("PositionMSpeed").unwrap(), Attribute::PositionMSpeed);
}

#[test]
fn color_mix_m_speed() {
    assert_eq!(Attribute::from_str("ColorMixMSpeed").unwrap(), Attribute::ColorMixMSpeed);
}

#[test]
fn color_wheel_select_m_speed() {
    assert_eq!(Attribute::from_str("ColorWheelSelectMSpeed").unwrap(), Attribute::ColorWheelSelectMSpeed);
}

#[test]
fn gobo_wheel_n_m_speed() {
    assert_eq!(Attribute::from_str("GoboWheel1MSpeed").unwrap(), Attribute::GoboWheelMSpeed(1));
}

#[test]
fn iris_m_speed() {
    assert_eq!(Attribute::from_str("IrisMSpeed").unwrap(), Attribute::IrisMSpeed);
}

#[test]
fn prism_n_m_speed() {
    assert_eq!(Attribute::from_str("Prism1MSpeed").unwrap(), Attribute::PrismMSpeed(1));
}

#[test]
fn focus_m_speed() {
    assert_eq!(Attribute::from_str("FocusMSpeed").unwrap(), Attribute::FocusMSpeed);
}

#[test]
fn frost_n_m_speed() {
    assert_eq!(Attribute::from_str("Frost1MSpeed").unwrap(), Attribute::FrostMSpeed(1));
}

#[test]
fn zoom_m_speed() {
    assert_eq!(Attribute::from_str("ZoomMSpeed").unwrap(), Attribute::ZoomMSpeed);
}

#[test]
fn frame_m_speed() {
    assert_eq!(Attribute::from_str("FrameMSpeed").unwrap(), Attribute::FrameMSpeed);
}

#[test]
fn global_m_speed() {
    assert_eq!(Attribute::from_str("GlobalMSpeed").unwrap(), Attribute::GlobalMSpeed);
}

#[test]
fn reflector_adjust() {
    assert_eq!(Attribute::from_str("ReflectorAdjust").unwrap(), Attribute::ReflectorAdjust);
}

#[test]
fn fixture_global_reset() {
    assert_eq!(Attribute::from_str("FixtureGlobalReset").unwrap(), Attribute::FixtureGlobalReset);
}

#[test]
fn dimmer_reset() {
    assert_eq!(Attribute::from_str("DimmerReset").unwrap(), Attribute::DimmerReset);
}

#[test]
fn shutter_reset() {
    assert_eq!(Attribute::from_str("ShutterReset").unwrap(), Attribute::ShutterReset);
}

#[test]
fn beam_reset() {
    assert_eq!(Attribute::from_str("BeamReset").unwrap(), Attribute::BeamReset);
}

#[test]
fn color_mix_reset() {
    assert_eq!(Attribute::from_str("ColorMixReset").unwrap(), Attribute::ColorMixReset);
}

#[test]
fn color_wheel_reset() {
    assert_eq!(Attribute::from_str("ColorWheelReset").unwrap(), Attribute::ColorWheelReset);
}

#[test]
fn focus_reset() {
    assert_eq!(Attribute::from_str("FocusReset").unwrap(), Attribute::FocusReset);
}

#[test]
fn frame_reset() {
    assert_eq!(Attribute::from_str("FrameReset").unwrap(), Attribute::FrameReset);
}

#[test]
fn gobo_wheel_reset() {
    assert_eq!(Attribute::from_str("GoboWheelReset").unwrap(), Attribute::GoboWheelReset);
}

#[test]
fn intensity_reset() {
    assert_eq!(Attribute::from_str("IntensityReset").unwrap(), Attribute::IntensityReset);
}

#[test]
fn iris_reset() {
    assert_eq!(Attribute::from_str("IrisReset").unwrap(), Attribute::IrisReset);
}

#[test]
fn position_reset() {
    assert_eq!(Attribute::from_str("PositionReset").unwrap(), Attribute::PositionReset);
}

#[test]
fn pan_reset() {
    assert_eq!(Attribute::from_str("PanReset").unwrap(), Attribute::PanReset);
}

#[test]
fn tilt_reset() {
    assert_eq!(Attribute::from_str("TiltReset").unwrap(), Attribute::TiltReset);
}

#[test]
fn zoom_reset() {
    assert_eq!(Attribute::from_str("ZoomReset").unwrap(), Attribute::ZoomReset);
}

#[test]
fn ctb_reset() {
    assert_eq!(Attribute::from_str("CTBReset").unwrap(), Attribute::CtbReset);
}

#[test]
fn cto_reset() {
    assert_eq!(Attribute::from_str("CTOReset").unwrap(), Attribute::CtoReset);
}

#[test]
fn ctc_reset() {
    assert_eq!(Attribute::from_str("CTCReset").unwrap(), Attribute::CtcReset);
}

#[test]
fn animation_system_reset() {
    assert_eq!(Attribute::from_str("AnimationSystemReset").unwrap(), Attribute::AnimationSystemReset);
}

#[test]
fn fixture_calibration_reset() {
    assert_eq!(Attribute::from_str("FixtureCalibrationReset").unwrap(), Attribute::FixtureCalibrationReset);
}

#[test]
fn function() {
    assert_eq!(Attribute::from_str("Function").unwrap(), Attribute::Function);
}

#[test]
fn lamp_control() {
    assert_eq!(Attribute::from_str("LampControl").unwrap(), Attribute::LampControl);
}

#[test]
fn display_intensity() {
    assert_eq!(Attribute::from_str("DisplayIntensity").unwrap(), Attribute::DisplayIntensity);
}

#[test]
fn dmx_input() {
    assert_eq!(Attribute::from_str("DMXInput").unwrap(), Attribute::DmxInput);
}

#[test]
fn no_feature() {
    assert_eq!(Attribute::from_str("NoFeature").unwrap(), Attribute::NoFeature);
}

#[test]
fn blower_n() {
    assert_eq!(Attribute::from_str("Blower1").unwrap(), Attribute::Blower(1));
}

#[test]
fn fan_n() {
    assert_eq!(Attribute::from_str("Fan1").unwrap(), Attribute::Fan(1));
}

#[test]
fn fog_n() {
    assert_eq!(Attribute::from_str("Fog1").unwrap(), Attribute::Fog(1));
}

#[test]
fn haze_n() {
    assert_eq!(Attribute::from_str("Haze1").unwrap(), Attribute::Haze(1));
}

#[test]
fn lamp_power_mode() {
    assert_eq!(Attribute::from_str("LampPowerMode").unwrap(), Attribute::LampPowerMode);
}

#[test]
fn fans() {
    assert_eq!(Attribute::from_str("Fans").unwrap(), Attribute::Fans);
}

#[test]
fn blade_n_a() {
    assert_eq!(Attribute::from_str("Blade1A").unwrap(), Attribute::BladeA(1));
}

#[test]
fn blade_n_b() {
    assert_eq!(Attribute::from_str("Blade1B").unwrap(), Attribute::BladeB(1));
}

#[test]
fn blade_n_rot() {
    assert_eq!(Attribute::from_str("Blade1Rot").unwrap(), Attribute::BladeRot(1));
}

#[test]
fn shaper_rot() {
    assert_eq!(Attribute::from_str("ShaperRot").unwrap(), Attribute::ShaperRot);
}

#[test]
fn shaper_macros() {
    assert_eq!(Attribute::from_str("ShaperMacros").unwrap(), Attribute::ShaperMacros);
}

#[test]
fn shaper_macros_speed() {
    assert_eq!(Attribute::from_str("ShaperMacrosSpeed").unwrap(), Attribute::ShaperMacrosSpeed);
}

#[test]
fn blade_soft_n_a() {
    assert_eq!(Attribute::from_str("BladeSoft1A").unwrap(), Attribute::BladeSoftA(1));
}

#[test]
fn blade_soft_n_b() {
    assert_eq!(Attribute::from_str("BladeSoft1B").unwrap(), Attribute::BladeSoftB(1));
}

#[test]
fn key_stone_n_a() {
    assert_eq!(Attribute::from_str("KeyStone1A").unwrap(), Attribute::KeyStoneA(1));
}

#[test]
fn key_stone_n_b() {
    assert_eq!(Attribute::from_str("KeyStone1B").unwrap(), Attribute::KeyStoneB(1));
}

#[test]
fn video() {
    assert_eq!(Attribute::from_str("Video").unwrap(), Attribute::Video);
}

#[test]
fn video_effect_n_type() {
    assert_eq!(Attribute::from_str("VideoEffect1Type").unwrap(), Attribute::VideoEffectType(1));
}

#[test]
fn video_effect_n_parameter_m() {
    assert_eq!(Attribute::from_str("VideoEffect1Parameter2").unwrap(), Attribute::VideoEffectParameter(1, 2));
}

#[test]
fn video_camera_n() {
    assert_eq!(Attribute::from_str("VideoCamera1").unwrap(), Attribute::VideoCamera(1));
}

#[test]
fn video_sound_volume_n() {
    assert_eq!(Attribute::from_str("VideoSoundVolume1").unwrap(), Attribute::VideoSoundVolume(1));
}

#[test]
fn video_blend_mode() {
    assert_eq!(Attribute::from_str("VideoBlendMode").unwrap(), Attribute::VideoBlendMode);
}

#[test]
fn input_source() {
    assert_eq!(Attribute::from_str("InputSource").unwrap(), Attribute::InputSource);
}

#[test]
fn field_of_view() {
    assert_eq!(Attribute::from_str("FieldOfView").unwrap(), Attribute::FieldOfView);
}
#[test]
fn custom() {
    assert_eq!(
        Attribute::from_str("CustomAttribute").unwrap(),
        Attribute::Custom("CustomAttribute".to_string())
    );
}
