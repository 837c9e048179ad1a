//! Laws of the attribute names: reading a name back gives the attribute.
use vstd::prelude::*;

use crate::attr::{parse_fixed, parse_known, AttributeView};
use crate::text::{
    dec, is_digit, lemma_dec, lemma_extract_n_m_absent, lemma_extract_n_m_of,
    lemma_extract_n_of, lemma_extract_n_suffix_longer, lemma_extract_n_suffix_of,
    lemma_extract_n_then_letter, lemma_letter_after, lemma_no_prefix_at, lemma_no_suffix_at,
};

verus! {

/// A name with a digit in it is none of the fixed names.
proof fn lemma_fixed_rejects_digit(s: Seq<char>, i: int)
    requires
        0 <= i < s.len(),
        is_digit(s[i]),
    ensures
        parse_fixed(s) is None,
{
    reveal_strlit("Dimmer");
    reveal_strlit("Pan");
    reveal_strlit("Tilt");
    reveal_strlit("PanRotate");
    reveal_strlit("TiltRotate");
    reveal_strlit("PositionEffect");
    reveal_strlit("PositionEffectRate");
    reveal_strlit("PositionEffectFade");
    reveal_strlit("XYZ_X");
    reveal_strlit("XYZ_Y");
    reveal_strlit("XYZ_Z");
    reveal_strlit("Rot_X");
    reveal_strlit("Rot_Y");
    reveal_strlit("Rot_Z");
    reveal_strlit("Scale_X");
    reveal_strlit("Scale_Y");
    reveal_strlit("Scale_Z");
    reveal_strlit("Scale_XYZ");
    reveal_strlit("PlayMode");
    reveal_strlit("PlayBegin");
    reveal_strlit("PlayEnd");
    reveal_strlit("PlaySpeed");
    reveal_strlit("ColorAdd_R");
    reveal_strlit("ColorAdd_G");
    reveal_strlit("ColorAdd_B");
    reveal_strlit("ColorAdd_C");
    reveal_strlit("ColorAdd_M");
    reveal_strlit("ColorAdd_Y");
    reveal_strlit("ColorAdd_RY");
    reveal_strlit("ColorAdd_GY");
    reveal_strlit("ColorAdd_GC");
    reveal_strlit("ColorAdd_BC");
    reveal_strlit("ColorAdd_BM");
    reveal_strlit("ColorAdd_RM");
    reveal_strlit("ColorAdd_W");
    reveal_strlit("ColorAdd_WW");
    reveal_strlit("ColorAdd_CW");
    reveal_strlit("ColorAdd_UV");
    reveal_strlit("ColorSub_R");
    reveal_strlit("ColorSub_G");
    reveal_strlit("ColorSub_B");
    reveal_strlit("ColorSub_C");
    reveal_strlit("ColorSub_M");
    reveal_strlit("ColorSub_Y");
    reveal_strlit("CTO");
    reveal_strlit("CTC");
    reveal_strlit("CTB");
    reveal_strlit("Tint");
    reveal_strlit("HSB_Hue");
    reveal_strlit("HSB_Saturation");
    reveal_strlit("HSB_Brightness");
    reveal_strlit("HSB_Quality");
    reveal_strlit("CIE_X");
    reveal_strlit("CIE_Y");
    reveal_strlit("CIE_Brightness");
    reveal_strlit("ColorRGB_Red");
    reveal_strlit("ColorRGB_Green");
    reveal_strlit("ColorRGB_Blue");
    reveal_strlit("ColorRGB_Cyan");
    reveal_strlit("ColorRGB_Magenta");
    reveal_strlit("ColorRGB_Yellow");
    reveal_strlit("ColorRGB_Quality");
    reveal_strlit("VideoBoost_R");
    reveal_strlit("VideoBoost_G");
    reveal_strlit("VideoBoost_B");
    reveal_strlit("VideoHueShift");
    reveal_strlit("VideoSaturation");
    reveal_strlit("VideoBrightness");
    reveal_strlit("VideoContrast");
    reveal_strlit("VideoKeyColor_R");
    reveal_strlit("VideoKeyColor_G");
    reveal_strlit("VideoKeyColor_B");
    reveal_strlit("VideoKeyIntensity");
    reveal_strlit("VideoKeyTolerance");
    reveal_strlit("StrobeDuration");
    reveal_strlit("StrobeRate");
    reveal_strlit("StrobeFrequency");
    reveal_strlit("StrobeModeShutter");
    reveal_strlit("StrobeModeStrobe");
    reveal_strlit("StrobeModePulse");
    reveal_strlit("StrobeModePulseOpen");
    reveal_strlit("StrobeModePulseClose");
    reveal_strlit("StrobeModeRandom");
    reveal_strlit("StrobeModeRandomPulse");
    reveal_strlit("StrobeModeRandomPulseOpen");
    reveal_strlit("StrobeModeRandomPulseClose");
    reveal_strlit("StrobeModeEffect");
    reveal_strlit("Iris");
    reveal_strlit("IrisStrobe");
    reveal_strlit("IrisStrobeRandom");
    reveal_strlit("IrisPulseClose");
    reveal_strlit("IrisPulseOpen");
    reveal_strlit("IrisRandomPulseClose");
    reveal_strlit("IrisRandomPulseOpen");
    reveal_strlit("EffectsSync");
    reveal_strlit("BeamShaper");
    reveal_strlit("BeamShaperMacro");
    reveal_strlit("BeamShaperPos");
    reveal_strlit("BeamShaperPosRotate");
    reveal_strlit("Zoom");
    reveal_strlit("ZoomModeSpot");
    reveal_strlit("ZoomModeBeam");
    reveal_strlit("DigitalZoom");
    reveal_strlit("DimmerMode");
    reveal_strlit("DimmerCurve");
    reveal_strlit("BlackoutMode");
    reveal_strlit("LEDFrequency");
    reveal_strlit("LEDZoneMode");
    reveal_strlit("PixelMode");
    reveal_strlit("PanMode");
    reveal_strlit("TiltMode");
    reveal_strlit("PanTiltMode");
    reveal_strlit("PositionModes");
    reveal_strlit("GoboWheelShortcutMode");
    reveal_strlit("AnimationWheelShortcutMode");
    reveal_strlit("ColorWheelShortcutMode");
    reveal_strlit("CyanMode");
    reveal_strlit("MagentaMode");
    reveal_strlit("YellowMode");
    reveal_strlit("ColorMixMode");
    reveal_strlit("ChromaticMode");
    reveal_strlit("ColorCalibrationMode");
    reveal_strlit("ColorConsistency");
    reveal_strlit("ColorControl");
    reveal_strlit("ColorModelMode");
    reveal_strlit("ColorSettingsReset");
    reveal_strlit("ColorUniformity");
    reveal_strlit("CRIMode");
    reveal_strlit("CustomColor");
    reveal_strlit("UVStability");
    reveal_strlit("WavelengthCorrection");
    reveal_strlit("WhiteCount");
    reveal_strlit("StrobeMode");
    reveal_strlit("ZoomMode");
    reveal_strlit("FocusMode");
    reveal_strlit("IrisMode");
    reveal_strlit("FollowSpotMode");
    reveal_strlit("BeamEffectIndexRotateMode");
    reveal_strlit("IntensityMSpeed");
    reveal_strlit("PositionMSpeed");
    reveal_strlit("ColorMixMSpeed");
    reveal_strlit("ColorWheelSelectMSpeed");
    reveal_strlit("IrisMSpeed");
    reveal_strlit("FocusMSpeed");
    reveal_strlit("ZoomMSpeed");
    reveal_strlit("FrameMSpeed");
    reveal_strlit("GlobalMSpeed");
    reveal_strlit("ReflectorAdjust");
    reveal_strlit("FixtureGlobalReset");
    reveal_strlit("DimmerReset");
    reveal_strlit("ShutterReset");
    reveal_strlit("BeamReset");
    reveal_strlit("ColorMixReset");
    reveal_strlit("ColorWheelReset");
    reveal_strlit("FocusReset");
    reveal_strlit("FrameReset");
    reveal_strlit("GoboWheelReset");
    reveal_strlit("IntensityReset");
    reveal_strlit("IrisReset");
    reveal_strlit("PositionReset");
    reveal_strlit("PanReset");
    reveal_strlit("TiltReset");
    reveal_strlit("ZoomReset");
    reveal_strlit("CTBReset");
    reveal_strlit("CTOReset");
    reveal_strlit("CTCReset");
    reveal_strlit("AnimationSystemReset");
    reveal_strlit("FixtureCalibrationReset");
    reveal_strlit("Function");
    reveal_strlit("LampControl");
    reveal_strlit("DisplayIntensity");
    reveal_strlit("DMXInput");
    reveal_strlit("NoFeature");
    reveal_strlit("LampPowerMode");
    reveal_strlit("Fans");
    reveal_strlit("ShaperRot");
    reveal_strlit("ShaperMacros");
    reveal_strlit("ShaperMacrosSpeed");
    reveal_strlit("Video");
    reveal_strlit("VideoBlendMode");
    reveal_strlit("InputSource");
    reveal_strlit("FieldOfView");
}

/// The fixed names of part 1 of the table are read back as their attributes.
proof fn lemma_fixed_names_0(a: AttributeView)
    requires
        a is Dimmer
        || a is Pan
        || a is Tilt
        || a is PanRotate
        || a is TiltRotate
        || a is PositionEffect
        || a is PositionEffectRate
        || a is PositionEffectFade
        || a is XyzX
        || a is XyzY
        || a is XyzZ
        || a is RotX
        || a is RotY
        || a is RotZ
        || a is ScaleX
        || a is ScaleY
        || a is ScaleZ
        || a is ScaleXYZ
        || a is PlayMode
        || a is PlayBegin,
    ensures
        parse_fixed(a.name()) == Some(a),
{
    reveal_strlit("Dimmer");
    reveal_strlit("Pan");
    reveal_strlit("Tilt");
    reveal_strlit("PanRotate");
    reveal_strlit("TiltRotate");
    reveal_strlit("PositionEffect");
    reveal_strlit("PositionEffectRate");
    reveal_strlit("PositionEffectFade");
    reveal_strlit("XYZ_X");
    reveal_strlit("XYZ_Y");
    reveal_strlit("XYZ_Z");
    reveal_strlit("Rot_X");
    reveal_strlit("Rot_Y");
    reveal_strlit("Rot_Z");
    reveal_strlit("Scale_X");
    reveal_strlit("Scale_Y");
    reveal_strlit("Scale_Z");
    reveal_strlit("Scale_XYZ");
    reveal_strlit("PlayMode");
    reveal_strlit("PlayBegin");
    match a {
        AttributeView::Dimmer => {
            assert(a.name().len() == 6);
        },
        AttributeView::Pan => {
            assert(a.name().len() == 3);
        },
        AttributeView::Tilt => {
            assert(a.name().len() == 4);
        },
        AttributeView::PanRotate => {
            assert(a.name().len() == 9);
        },
        AttributeView::TiltRotate => {
            assert(a.name().len() == 10);
        },
        AttributeView::PositionEffect => {
            assert(a.name().len() == 14);
        },
        AttributeView::PositionEffectRate => {
            assert(a.name().len() == 18);
        },
        AttributeView::PositionEffectFade => {
            assert(a.name().len() == 18);
            assert("PositionEffectFade"@[14] != "PositionEffectRate"@[14]);
        },
        AttributeView::XyzX => {
            assert(a.name().len() == 5);
        },
        AttributeView::XyzY => {
            assert(a.name().len() == 5);
            assert("XYZ_Y"@[4] != "XYZ_X"@[4]);
        },
        AttributeView::XyzZ => {
            assert(a.name().len() == 5);
            assert("XYZ_Z"@[4] != "XYZ_X"@[4]);
            assert("XYZ_Z"@[4] != "XYZ_Y"@[4]);
        },
        AttributeView::RotX => {
            assert(a.name().len() == 5);
            assert("Rot_X"@[0] != "XYZ_X"@[0]);
            assert("Rot_X"@[0] != "XYZ_Y"@[0]);
            assert("Rot_X"@[0] != "XYZ_Z"@[0]);
        },
        AttributeView::RotY => {
            assert(a.name().len() == 5);
            assert("Rot_Y"@[0] != "XYZ_X"@[0]);
            assert("Rot_Y"@[0] != "XYZ_Y"@[0]);
            assert("Rot_Y"@[0] != "XYZ_Z"@[0]);
            assert("Rot_Y"@[4] != "Rot_X"@[4]);
        },
        AttributeView::RotZ => {
            assert(a.name().len() == 5);
            assert("Rot_Z"@[0] != "XYZ_X"@[0]);
            assert("Rot_Z"@[0] != "XYZ_Y"@[0]);
            assert("Rot_Z"@[0] != "XYZ_Z"@[0]);
            assert("Rot_Z"@[4] != "Rot_X"@[4]);
            assert("Rot_Z"@[4] != "Rot_Y"@[4]);
        },
        AttributeView::ScaleX => {
            assert(a.name().len() == 7);
        },
        AttributeView::ScaleY => {
            assert(a.name().len() == 7);
            assert("Scale_Y"@[6] != "Scale_X"@[6]);
        },
        AttributeView::ScaleZ => {
            assert(a.name().len() == 7);
            assert("Scale_Z"@[6] != "Scale_X"@[6]);
            assert("Scale_Z"@[6] != "Scale_Y"@[6]);
        },
        AttributeView::ScaleXYZ => {
            assert(a.name().len() == 9);
            assert("Scale_XYZ"@[0] != "PanRotate"@[0]);
        },
        AttributeView::PlayMode => {
            assert(a.name().len() == 8);
        },
        AttributeView::PlayBegin => {
            assert(a.name().len() == 9);
            assert("PlayBegin"@[1] != "PanRotate"@[1]);
            assert("PlayBegin"@[0] != "Scale_XYZ"@[0]);
        },
        _ => {},
    }
}

/// The fixed names of part 2 of the table are read back as their attributes.
proof fn lemma_fixed_names_1(a: AttributeView)
    requires
        a is PlayEnd
        || a is PlaySpeed
        || a is ColorAddR
        || a is ColorAddG
        || a is ColorAddB
        || a is ColorAddC
        || a is ColorAddM
        || a is ColorAddY
        || a is ColorAddRY
        || a is ColorAddGY
        || a is ColorAddGC
        || a is ColorAddBC
        || a is ColorAddBM
        || a is ColorAddRM
        || a is ColorAddW
        || a is ColorAddWW
        || a is ColorAddCW
        || a is ColorAddUV
        || a is ColorSubR
        || a is ColorSubG,
    ensures
        parse_fixed(a.name()) == Some(a),
{
    reveal_strlit("Dimmer");
    reveal_strlit("Pan");
    reveal_strlit("Tilt");
    reveal_strlit("PanRotate");
    reveal_strlit("TiltRotate");
    reveal_strlit("PositionEffect");
    reveal_strlit("PositionEffectRate");
    reveal_strlit("PositionEffectFade");
    reveal_strlit("XYZ_X");
    reveal_strlit("XYZ_Y");
    reveal_strlit("XYZ_Z");
    reveal_strlit("Rot_X");
    reveal_strlit("Rot_Y");
    reveal_strlit("Rot_Z");
    reveal_strlit("Scale_X");
    reveal_strlit("Scale_Y");
    reveal_strlit("Scale_Z");
    reveal_strlit("Scale_XYZ");
    reveal_strlit("PlayMode");
    reveal_strlit("PlayBegin");
    reveal_strlit("PlayEnd");
    reveal_strlit("PlaySpeed");
    reveal_strlit("ColorAdd_R");
    reveal_strlit("ColorAdd_G");
    reveal_strlit("ColorAdd_B");
    reveal_strlit("ColorAdd_C");
    reveal_strlit("ColorAdd_M");
    reveal_strlit("ColorAdd_Y");
    reveal_strlit("ColorAdd_RY");
    reveal_strlit("ColorAdd_GY");
    reveal_strlit("ColorAdd_GC");
    reveal_strlit("ColorAdd_BC");
    reveal_strlit("ColorAdd_BM");
    reveal_strlit("ColorAdd_RM");
    reveal_strlit("ColorAdd_W");
    reveal_strlit("ColorAdd_WW");
    reveal_strlit("ColorAdd_CW");
    reveal_strlit("ColorAdd_UV");
    reveal_strlit("ColorSub_R");
    reveal_strlit("ColorSub_G");
    match a {
        AttributeView::PlayEnd => {
            assert(a.name().len() == 7);
            assert("PlayEnd"@[0] != "Scale_X"@[0]);
            assert("PlayEnd"@[0] != "Scale_Y"@[0]);
            assert("PlayEnd"@[0] != "Scale_Z"@[0]);
        },
        AttributeView::PlaySpeed => {
            assert(a.name().len() == 9);
            assert("PlaySpeed"@[1] != "PanRotate"@[1]);
            assert("PlaySpeed"@[0] != "Scale_XYZ"@[0]);
            assert("PlaySpeed"@[4] != "PlayBegin"@[4]);
        },
        AttributeView::ColorAddR => {
            assert(a.name().len() == 10);
            assert("ColorAdd_R"@[0] != "TiltRotate"@[0]);
        },
        AttributeView::ColorAddG => {
            assert(a.name().len() == 10);
            assert("ColorAdd_G"@[0] != "TiltRotate"@[0]);
            assert("ColorAdd_G"@[9] != "ColorAdd_R"@[9]);
        },
        AttributeView::ColorAddB => {
            assert(a.name().len() == 10);
            assert("ColorAdd_B"@[0] != "TiltRotate"@[0]);
            assert("ColorAdd_B"@[9] != "ColorAdd_R"@[9]);
            assert("ColorAdd_B"@[9] != "ColorAdd_G"@[9]);
        },
        AttributeView::ColorAddC => {
            assert(a.name().len() == 10);
            assert("ColorAdd_C"@[0] != "TiltRotate"@[0]);
            assert("ColorAdd_C"@[9] != "ColorAdd_R"@[9]);
            assert("ColorAdd_C"@[9] != "ColorAdd_G"@[9]);
            assert("ColorAdd_C"@[9] != "ColorAdd_B"@[9]);
        },
        AttributeView::ColorAddM => {
            assert(a.name().len() == 10);
            assert("ColorAdd_M"@[0] != "TiltRotate"@[0]);
            assert("ColorAdd_M"@[9] != "ColorAdd_R"@[9]);
            assert("ColorAdd_M"@[9] != "ColorAdd_G"@[9]);
            assert("ColorAdd_M"@[9] != "ColorAdd_B"@[9]);
            assert("ColorAdd_M"@[9] != "ColorAdd_C"@[9]);
        },
        AttributeView::ColorAddY => {
            assert(a.name().len() == 10);
            assert("ColorAdd_Y"@[0] != "TiltRotate"@[0]);
            assert("ColorAdd_Y"@[9] != "ColorAdd_R"@[9]);
            assert("ColorAdd_Y"@[9] != "ColorAdd_G"@[9]);
            assert("ColorAdd_Y"@[9] != "ColorAdd_B"@[9]);
            assert("ColorAdd_Y"@[9] != "ColorAdd_C"@[9]);
            assert("ColorAdd_Y"@[9] != "ColorAdd_M"@[9]);
        },
        AttributeView::ColorAddRY => {
            assert(a.name().len() == 11);
        },
        AttributeView::ColorAddGY => {
            assert(a.name().len() == 11);
            assert("ColorAdd_GY"@[9] != "ColorAdd_RY"@[9]);
        },
        AttributeView::ColorAddGC => {
            assert(a.name().len() == 11);
            assert("ColorAdd_GC"@[9] != "ColorAdd_RY"@[9]);
            assert("ColorAdd_GC"@[10] != "ColorAdd_GY"@[10]);
        },
        AttributeView::ColorAddBC => {
            assert(a.name().len() == 11);
            assert("ColorAdd_BC"@[9] != "ColorAdd_RY"@[9]);
            assert("ColorAdd_BC"@[9] != "ColorAdd_GY"@[9]);
            assert("ColorAdd_BC"@[9] != "ColorAdd_GC"@[9]);
        },
        AttributeView::ColorAddBM => {
            assert(a.name().len() == 11);
            assert("ColorAdd_BM"@[9] != "ColorAdd_RY"@[9]);
            assert("ColorAdd_BM"@[9] != "ColorAdd_GY"@[9]);
            assert("ColorAdd_BM"@[9] != "ColorAdd_GC"@[9]);
            assert("ColorAdd_BM"@[10] != "ColorAdd_BC"@[10]);
        },
        AttributeView::ColorAddRM => {
            assert(a.name().len() == 11);
            assert("ColorAdd_RM"@[10] != "ColorAdd_RY"@[10]);
            assert("ColorAdd_RM"@[9] != "ColorAdd_GY"@[9]);
            assert("ColorAdd_RM"@[9] != "ColorAdd_GC"@[9]);
            assert("ColorAdd_RM"@[9] != "ColorAdd_BC"@[9]);
            assert("ColorAdd_RM"@[9] != "ColorAdd_BM"@[9]);
        },
        AttributeView::ColorAddW => {
            assert(a.name().len() == 10);
            assert("ColorAdd_W"@[0] != "TiltRotate"@[0]);
            assert("ColorAdd_W"@[9] != "ColorAdd_R"@[9]);
            assert("ColorAdd_W"@[9] != "ColorAdd_G"@[9]);
            assert("ColorAdd_W"@[9] != "ColorAdd_B"@[9]);
            assert("ColorAdd_W"@[9] != "ColorAdd_C"@[9]);
            assert("ColorAdd_W"@[9] != "ColorAdd_M"@[9]);
            assert("ColorAdd_W"@[9] != "ColorAdd_Y"@[9]);
        },
        AttributeView::ColorAddWW => {
            assert(a.name().len() == 11);
            assert("ColorAdd_WW"@[9] != "ColorAdd_RY"@[9]);
            assert("ColorAdd_WW"@[9] != "ColorAdd_GY"@[9]);
            assert("ColorAdd_WW"@[9] != "ColorAdd_GC"@[9]);
            assert("ColorAdd_WW"@[9] != "ColorAdd_BC"@[9]);
            assert("ColorAdd_WW"@[9] != "ColorAdd_BM"@[9]);
            assert("ColorAdd_WW"@[9] != "ColorAdd_RM"@[9]);
        },
        AttributeView::ColorAddCW => {
            assert(a.name().len() == 11);
            assert("ColorAdd_CW"@[9] != "ColorAdd_RY"@[9]);
            assert("ColorAdd_CW"@[9] != "ColorAdd_GY"@[9]);
            assert("ColorAdd_CW"@[9] != "ColorAdd_GC"@[9]);
            assert("ColorAdd_CW"@[9] != "ColorAdd_BC"@[9]);
            assert("ColorAdd_CW"@[9] != "ColorAdd_BM"@[9]);
            assert("ColorAdd_CW"@[9] != "ColorAdd_RM"@[9]);
            assert("ColorAdd_CW"@[9] != "ColorAdd_WW"@[9]);
        },
        AttributeView::ColorAddUV => {
            assert(a.name().len() == 11);
            assert("ColorAdd_UV"@[9] != "ColorAdd_RY"@[9]);
            assert("ColorAdd_UV"@[9] != "ColorAdd_GY"@[9]);
            assert("ColorAdd_UV"@[9] != "ColorAdd_GC"@[9]);
            assert("ColorAdd_UV"@[9] != "ColorAdd_BC"@[9]);
            assert("ColorAdd_UV"@[9] != "ColorAdd_BM"@[9]);
            assert("ColorAdd_UV"@[9] != "ColorAdd_RM"@[9]);
            assert("ColorAdd_UV"@[9] != "ColorAdd_WW"@[9]);
            assert("ColorAdd_UV"@[9] != "ColorAdd_CW"@[9]);
        },
        AttributeView::ColorSubR => {
            assert(a.name().len() == 10);
            assert("ColorSub_R"@[0] != "TiltRotate"@[0]);
            assert("ColorSub_R"@[5] != "ColorAdd_R"@[5]);
            assert("ColorSub_R"@[5] != "ColorAdd_G"@[5]);
            assert("ColorSub_R"@[5] != "ColorAdd_B"@[5]);
            assert("ColorSub_R"@[5] != "ColorAdd_C"@[5]);
            assert("ColorSub_R"@[5] != "ColorAdd_M"@[5]);
            assert("ColorSub_R"@[5] != "ColorAdd_Y"@[5]);
            assert("ColorSub_R"@[5] != "ColorAdd_W"@[5]);
        },
        AttributeView::ColorSubG => {
            assert(a.name().len() == 10);
            assert("ColorSub_G"@[0] != "TiltRotate"@[0]);
            assert("ColorSub_G"@[5] != "ColorAdd_R"@[5]);
            assert("ColorSub_G"@[5] != "ColorAdd_G"@[5]);
            assert("ColorSub_G"@[5] != "ColorAdd_B"@[5]);
            assert("ColorSub_G"@[5] != "ColorAdd_C"@[5]);
            assert("ColorSub_G"@[5] != "ColorAdd_M"@[5]);
            assert("ColorSub_G"@[5] != "ColorAdd_Y"@[5]);
            assert("ColorSub_G"@[5] != "ColorAdd_W"@[5]);
            assert("ColorSub_G"@[9] != "ColorSub_R"@[9]);
        },
        _ => {},
    }
}

/// The fixed names of part 3 of the table are read back as their attributes.
proof fn lemma_fixed_names_2(a: AttributeView)
    requires
        a is ColorSubB
        || a is ColorSubC
        || a is ColorSubM
        || a is ColorSubY
        || a is Cto
        || a is Ctc
        || a is Ctb
        || a is Tint
        || a is HsbHue
        || a is HsbSaturation
        || a is HsbBrightness
        || a is HsbQuality
        || a is CieX
        || a is CieY
        || a is CieBrightness
        || a is ColorRgbRed
        || a is ColorRgbGreen
        || a is ColorRgbBlue
        || a is ColorRgbCyan
        || a is ColorRgbMagenta,
    ensures
        parse_fixed(a.name()) == Some(a),
{
    reveal_strlit("Dimmer");
    reveal_strlit("Pan");
    reveal_strlit("Tilt");
    reveal_strlit("PanRotate");
    reveal_strlit("TiltRotate");
    reveal_strlit("PositionEffect");
    reveal_strlit("PositionEffectRate");
    reveal_strlit("PositionEffectFade");
    reveal_strlit("XYZ_X");
    reveal_strlit("XYZ_Y");
    reveal_strlit("XYZ_Z");
    reveal_strlit("Rot_X");
    reveal_strlit("Rot_Y");
    reveal_strlit("Rot_Z");
    reveal_strlit("Scale_X");
    reveal_strlit("Scale_Y");
    reveal_strlit("Scale_Z");
    reveal_strlit("Scale_XYZ");
    reveal_strlit("PlayMode");
    reveal_strlit("PlayBegin");
    reveal_strlit("PlayEnd");
    reveal_strlit("PlaySpeed");
    reveal_strlit("ColorAdd_R");
    reveal_strlit("ColorAdd_G");
    reveal_strlit("ColorAdd_B");
    reveal_strlit("ColorAdd_C");
    reveal_strlit("ColorAdd_M");
    reveal_strlit("ColorAdd_Y");
    reveal_strlit("ColorAdd_RY");
    reveal_strlit("ColorAdd_GY");
    reveal_strlit("ColorAdd_GC");
    reveal_strlit("ColorAdd_BC");
    reveal_strlit("ColorAdd_BM");
    reveal_strlit("ColorAdd_RM");
    reveal_strlit("ColorAdd_W");
    reveal_strlit("ColorAdd_WW");
    reveal_strlit("ColorAdd_CW");
    reveal_strlit("ColorAdd_UV");
    reveal_strlit("ColorSub_R");
    reveal_strlit("ColorSub_G");
    reveal_strlit("ColorSub_B");
    reveal_strlit("ColorSub_C");
    reveal_strlit("ColorSub_M");
    reveal_strlit("ColorSub_Y");
    reveal_strlit("CTO");
    reveal_strlit("CTC");
    reveal_strlit("CTB");
    reveal_strlit("Tint");
    reveal_strlit("HSB_Hue");
    reveal_strlit("HSB_Saturation");
    reveal_strlit("HSB_Brightness");
    reveal_strlit("HSB_Quality");
    reveal_strlit("CIE_X");
    reveal_strlit("CIE_Y");
    reveal_strlit("CIE_Brightness");
    reveal_strlit("ColorRGB_Red");
    reveal_strlit("ColorRGB_Green");
    reveal_strlit("ColorRGB_Blue");
    reveal_strlit("ColorRGB_Cyan");
    reveal_strlit("ColorRGB_Magenta");
    match a {
        AttributeView::ColorSubB => {
            assert(a.name().len() == 10);
            assert("ColorSub_B"@[0] != "TiltRotate"@[0]);
            assert("ColorSub_B"@[5] != "ColorAdd_R"@[5]);
            assert("ColorSub_B"@[5] != "ColorAdd_G"@[5]);
            assert("ColorSub_B"@[5] != "ColorAdd_B"@[5]);
            assert("ColorSub_B"@[5] != "ColorAdd_C"@[5]);
            assert("ColorSub_B"@[5] != "ColorAdd_M"@[5]);
            assert("ColorSub_B"@[5] != "ColorAdd_Y"@[5]);
            assert("ColorSub_B"@[5] != "ColorAdd_W"@[5]);
            assert("ColorSub_B"@[9] != "ColorSub_R"@[9]);
            assert("ColorSub_B"@[9] != "ColorSub_G"@[9]);
        },
        AttributeView::ColorSubC => {
            assert(a.name().len() == 10);
            assert("ColorSub_C"@[0] != "TiltRotate"@[0]);
            assert("ColorSub_C"@[5] != "ColorAdd_R"@[5]);
            assert("ColorSub_C"@[5] != "ColorAdd_G"@[5]);
            assert("ColorSub_C"@[5] != "ColorAdd_B"@[5]);
            assert("ColorSub_C"@[5] != "ColorAdd_C"@[5]);
            assert("ColorSub_C"@[5] != "ColorAdd_M"@[5]);
            assert("ColorSub_C"@[5] != "ColorAdd_Y"@[5]);
            assert("ColorSub_C"@[5] != "ColorAdd_W"@[5]);
            assert("ColorSub_C"@[9] != "ColorSub_R"@[9]);
            assert("ColorSub_C"@[9] != "ColorSub_G"@[9]);
            assert("ColorSub_C"@[9] != "ColorSub_B"@[9]);
        },
        AttributeView::ColorSubM => {
            assert(a.name().len() == 10);
            assert("ColorSub_M"@[0] != "TiltRotate"@[0]);
            assert("ColorSub_M"@[5] != "ColorAdd_R"@[5]);
            assert("ColorSub_M"@[5] != "ColorAdd_G"@[5]);
            assert("ColorSub_M"@[5] != "ColorAdd_B"@[5]);
            assert("ColorSub_M"@[5] != "ColorAdd_C"@[5]);
            assert("ColorSub_M"@[5] != "ColorAdd_M"@[5]);
            assert("ColorSub_M"@[5] != "ColorAdd_Y"@[5]);
            assert("ColorSub_M"@[5] != "ColorAdd_W"@[5]);
            assert("ColorSub_M"@[9] != "ColorSub_R"@[9]);
            assert("ColorSub_M"@[9] != "ColorSub_G"@[9]);
            assert("ColorSub_M"@[9] != "ColorSub_B"@[9]);
            assert("ColorSub_M"@[9] != "ColorSub_C"@[9]);
        },
        AttributeView::ColorSubY => {
            assert(a.name().len() == 10);
            assert("ColorSub_Y"@[0] != "TiltRotate"@[0]);
            assert("ColorSub_Y"@[5] != "ColorAdd_R"@[5]);
            assert("ColorSub_Y"@[5] != "ColorAdd_G"@[5]);
            assert("ColorSub_Y"@[5] != "ColorAdd_B"@[5]);
            assert("ColorSub_Y"@[5] != "ColorAdd_C"@[5]);
            assert("ColorSub_Y"@[5] != "ColorAdd_M"@[5]);
            assert("ColorSub_Y"@[5] != "ColorAdd_Y"@[5]);
            assert("ColorSub_Y"@[5] != "ColorAdd_W"@[5]);
            assert("ColorSub_Y"@[9] != "ColorSub_R"@[9]);
            assert("ColorSub_Y"@[9] != "ColorSub_G"@[9]);
            assert("ColorSub_Y"@[9] != "ColorSub_B"@[9]);
            assert("ColorSub_Y"@[9] != "ColorSub_C"@[9]);
            assert("ColorSub_Y"@[9] != "ColorSub_M"@[9]);
        },
        AttributeView::Cto => {
            assert(a.name().len() == 3);
            assert("CTO"@[0] != "Pan"@[0]);
        },
        AttributeView::Ctc => {
            assert(a.name().len() == 3);
            assert("CTC"@[0] != "Pan"@[0]);
            assert("CTC"@[2] != "CTO"@[2]);
        },
        AttributeView::Ctb => {
            assert(a.name().len() == 3);
            assert("CTB"@[0] != "Pan"@[0]);
            assert("CTB"@[2] != "CTO"@[2]);
            assert("CTB"@[2] != "CTC"@[2]);
        },
        AttributeView::Tint => {
            assert(a.name().len() == 4);
            assert("Tint"@[2] != "Tilt"@[2]);
        },
        AttributeView::HsbHue => {
            assert(a.name().len() == 7);
            assert("HSB_Hue"@[0] != "Scale_X"@[0]);
            assert("HSB_Hue"@[0] != "Scale_Y"@[0]);
            assert("HSB_Hue"@[0] != "Scale_Z"@[0]);
            assert("HSB_Hue"@[0] != "PlayEnd"@[0]);
        },
        AttributeView::HsbSaturation => {
            assert(a.name().len() == 14);
            assert("HSB_Saturation"@[0] != "PositionEffect"@[0]);
        },
        AttributeView::HsbBrightness => {
            assert(a.name().len() == 14);
            assert("HSB_Brightness"@[0] != "PositionEffect"@[0]);
            assert("HSB_Brightness"@[4] != "HSB_Saturation"@[4]);
        },
        AttributeView::HsbQuality => {
            assert(a.name().len() == 11);
            assert("HSB_Quality"@[0] != "ColorAdd_RY"@[0]);
            assert("HSB_Quality"@[0] != "ColorAdd_GY"@[0]);
            assert("HSB_Quality"@[0] != "ColorAdd_GC"@[0]);
            assert("HSB_Quality"@[0] != "ColorAdd_BC"@[0]);
            assert("HSB_Quality"@[0] != "ColorAdd_BM"@[0]);
            assert("HSB_Quality"@[0] != "ColorAdd_RM"@[0]);
            assert("HSB_Quality"@[0] != "ColorAdd_WW"@[0]);
            assert("HSB_Quality"@[0] != "ColorAdd_CW"@[0]);
            assert("HSB_Quality"@[0] != "ColorAdd_UV"@[0]);
        },
        AttributeView::CieX => {
            assert(a.name().len() == 5);
            assert("CIE_X"@[0] != "XYZ_X"@[0]);
            assert("CIE_X"@[0] != "XYZ_Y"@[0]);
            assert("CIE_X"@[0] != "XYZ_Z"@[0]);
            assert("CIE_X"@[0] != "Rot_X"@[0]);
            assert("CIE_X"@[0] != "Rot_Y"@[0]);
            assert("CIE_X"@[0] != "Rot_Z"@[0]);
        },
        AttributeView::CieY => {
            assert(a.name().len() == 5);
            assert("CIE_Y"@[0] != "XYZ_X"@[0]);
            assert("CIE_Y"@[0] != "XYZ_Y"@[0]);
            assert("CIE_Y"@[0] != "XYZ_Z"@[0]);
            assert("CIE_Y"@[0] != "Rot_X"@[0]);
            assert("CIE_Y"@[0] != "Rot_Y"@[0]);
            assert("CIE_Y"@[0] != "Rot_Z"@[0]);
            assert("CIE_Y"@[4] != "CIE_X"@[4]);
        },
        AttributeView::CieBrightness => {
            assert(a.name().len() == 14);
            assert("CIE_Brightness"@[0] != "PositionEffect"@[0]);
            assert("CIE_Brightness"@[0] != "HSB_Saturation"@[0]);
            assert("CIE_Brightness"@[0] != "HSB_Brightness"@[0]);
        },
        AttributeView::ColorRgbRed => {
            assert(a.name().len() == 12);
        },
        AttributeView::ColorRgbGreen => {
            assert(a.name().len() == 14);
            assert("ColorRGB_Green"@[0] != "PositionEffect"@[0]);
            assert("ColorRGB_Green"@[0] != "HSB_Saturation"@[0]);
            assert("ColorRGB_Green"@[0] != "HSB_Brightness"@[0]);
            assert("ColorRGB_Green"@[1] != "CIE_Brightness"@[1]);
        },
        AttributeView::ColorRgbBlue => {
            assert(a.name().len() == 13);
        },
        AttributeView::ColorRgbCyan => {
            assert(a.name().len() == 13);
            assert("ColorRGB_Cyan"@[9] != "ColorRGB_Blue"@[9]);
        },
        AttributeView::ColorRgbMagenta => {
            assert(a.name().len() == 16);
        },
        _ => {},
    }
}

/// The fixed names of part 4 of the table are read back as their attributes.
proof fn lemma_fixed_names_3(a: AttributeView)
    requires
        a is ColorRgbYellow
        || a is ColorRgbQuality
        || a is VideoBoostR
        || a is VideoBoostG
        || a is VideoBoostB
        || a is VideoHueShift
        || a is VideoSaturation
        || a is VideoBrightness
        || a is VideoContrast
        || a is VideoKeyColorR
        || a is VideoKeyColorG
        || a is VideoKeyColorB
        || a is VideoKeyIntensity
        || a is VideoKeyTolerance
        || a is StrobeDuration
        || a is StrobeRate
        || a is StrobeFrequency
        || a is StrobeModeShutter
        || a is StrobeModeStrobe
        || a is StrobeModePulse,
    ensures
        parse_fixed(a.name()) == Some(a),
{
    reveal_strlit("Dimmer");
    reveal_strlit("Pan");
    reveal_strlit("Tilt");
    reveal_strlit("PanRotate");
    reveal_strlit("TiltRotate");
    reveal_strlit("PositionEffect");
    reveal_strlit("PositionEffectRate");
    reveal_strlit("PositionEffectFade");
    reveal_strlit("XYZ_X");
    reveal_strlit("XYZ_Y");
    reveal_strlit("XYZ_Z");
    reveal_strlit("Rot_X");
    reveal_strlit("Rot_Y");
    reveal_strlit("Rot_Z");
    reveal_strlit("Scale_X");
    reveal_strlit("Scale_Y");
    reveal_strlit("Scale_Z");
    reveal_strlit("Scale_XYZ");
    reveal_strlit("PlayMode");
    reveal_strlit("PlayBegin");
    reveal_strlit("PlayEnd");
    reveal_strlit("PlaySpeed");
    reveal_strlit("ColorAdd_R");
    reveal_strlit("ColorAdd_G");
    reveal_strlit("ColorAdd_B");
    reveal_strlit("ColorAdd_C");
    reveal_strlit("ColorAdd_M");
    reveal_strlit("ColorAdd_Y");
    reveal_strlit("ColorAdd_RY");
    reveal_strlit("ColorAdd_GY");
    reveal_strlit("ColorAdd_GC");
    reveal_strlit("ColorAdd_BC");
    reveal_strlit("ColorAdd_BM");
    reveal_strlit("ColorAdd_RM");
    reveal_strlit("ColorAdd_W");
    reveal_strlit("ColorAdd_WW");
    reveal_strlit("ColorAdd_CW");
    reveal_strlit("ColorAdd_UV");
    reveal_strlit("ColorSub_R");
    reveal_strlit("ColorSub_G");
    reveal_strlit("ColorSub_B");
    reveal_strlit("ColorSub_C");
    reveal_strlit("ColorSub_M");
    reveal_strlit("ColorSub_Y");
    reveal_strlit("CTO");
    reveal_strlit("CTC");
    reveal_strlit("CTB");
    reveal_strlit("Tint");
    reveal_strlit("HSB_Hue");
    reveal_strlit("HSB_Saturation");
    reveal_strlit("HSB_Brightness");
    reveal_strlit("HSB_Quality");
    reveal_strlit("CIE_X");
    reveal_strlit("CIE_Y");
    reveal_strlit("CIE_Brightness");
    reveal_strlit("ColorRGB_Red");
    reveal_strlit("ColorRGB_Green");
    reveal_strlit("ColorRGB_Blue");
    reveal_strlit("ColorRGB_Cyan");
    reveal_strlit("ColorRGB_Magenta");
    reveal_strlit("ColorRGB_Yellow");
    reveal_strlit("ColorRGB_Quality");
    reveal_strlit("VideoBoost_R");
    reveal_strlit("VideoBoost_G");
    reveal_strlit("VideoBoost_B");
    reveal_strlit("VideoHueShift");
    reveal_strlit("VideoSaturation");
    reveal_strlit("VideoBrightness");
    reveal_strlit("VideoContrast");
    reveal_strlit("VideoKeyColor_R");
    reveal_strlit("VideoKeyColor_G");
    reveal_strlit("VideoKeyColor_B");
    reveal_strlit("VideoKeyIntensity");
    reveal_strlit("VideoKeyTolerance");
    reveal_strlit("StrobeDuration");
    reveal_strlit("StrobeRate");
    reveal_strlit("StrobeFrequency");
    reveal_strlit("StrobeModeShutter");
    reveal_strlit("StrobeModeStrobe");
    reveal_strlit("StrobeModePulse");
    match a {
        AttributeView::ColorRgbYellow => {
            assert(a.name().len() == 15);
        },
        AttributeView::ColorRgbQuality => {
            assert(a.name().len() == 16);
            assert("ColorRGB_Quality"@[9] != "ColorRGB_Magenta"@[9]);
        },
        AttributeView::VideoBoostR => {
            assert(a.name().len() == 12);
            assert("VideoBoost_R"@[0] != "ColorRGB_Red"@[0]);
        },
        AttributeView::VideoBoostG => {
            assert(a.name().len() == 12);
            assert("VideoBoost_G"@[0] != "ColorRGB_Red"@[0]);
            assert("VideoBoost_G"@[11] != "VideoBoost_R"@[11]);
        },
        AttributeView::VideoBoostB => {
            assert(a.name().len() == 12);
            assert("VideoBoost_B"@[0] != "ColorRGB_Red"@[0]);
            assert("VideoBoost_B"@[11] != "VideoBoost_R"@[11]);
            assert("VideoBoost_B"@[11] != "VideoBoost_G"@[11]);
        },
        AttributeView::VideoHueShift => {
            assert(a.name().len() == 13);
            assert("VideoHueShift"@[0] != "ColorRGB_Blue"@[0]);
            assert("VideoHueShift"@[0] != "ColorRGB_Cyan"@[0]);
        },
        AttributeView::VideoSaturation => {
            assert(a.name().len() == 15);
            assert("VideoSaturation"@[0] != "ColorRGB_Yellow"@[0]);
        },
        AttributeView::VideoBrightness => {
            assert(a.name().len() == 15);
            assert("VideoBrightness"@[0] != "ColorRGB_Yellow"@[0]);
            assert("VideoBrightness"@[5] != "VideoSaturation"@[5]);
        },
        AttributeView::VideoContrast => {
            assert(a.name().len() == 13);
            assert("VideoContrast"@[0] != "ColorRGB_Blue"@[0]);
            assert("VideoContrast"@[0] != "ColorRGB_Cyan"@[0]);
            assert("VideoContrast"@[5] != "VideoHueShift"@[5]);
        },
        AttributeView::VideoKeyColorR => {
            assert(a.name().len() == 15);
            assert("VideoKeyColor_R"@[0] != "ColorRGB_Yellow"@[0]);
            assert("VideoKeyColor_R"@[5] != "VideoSaturation"@[5]);
            assert("VideoKeyColor_R"@[5] != "VideoBrightness"@[5]);
        },
        AttributeView::VideoKeyColorG => {
            assert(a.name().len() == 15);
            assert("VideoKeyColor_G"@[0] != "ColorRGB_Yellow"@[0]);
            assert("VideoKeyColor_G"@[5] != "VideoSaturation"@[5]);
            assert("VideoKeyColor_G"@[5] != "VideoBrightness"@[5]);
            assert("VideoKeyColor_G"@[14] != "VideoKeyColor_R"@[14]);
        },
        AttributeView::VideoKeyColorB => {
            assert(a.name().len() == 15);
            assert("VideoKeyColor_B"@[0] != "ColorRGB_Yellow"@[0]);
            assert("VideoKeyColor_B"@[5] != "VideoSaturation"@[5]);
            assert("VideoKeyColor_B"@[5] != "VideoBrightness"@[5]);
            assert("VideoKeyColor_B"@[14] != "VideoKeyColor_R"@[14]);
            assert("VideoKeyColor_B"@[14] != "VideoKeyColor_G"@[14]);
        },
        AttributeView::VideoKeyIntensity => {
            assert(a.name().len() == 17);
        },
        AttributeView::VideoKeyTolerance => {
            assert(a.name().len() == 17);
            assert("VideoKeyTolerance"@[8] != "VideoKeyIntensity"@[8]);
        },
        AttributeView::StrobeDuration => {
            assert(a.name().len() == 14);
            assert("StrobeDuration"@[0] != "PositionEffect"@[0]);
            assert("StrobeDuration"@[0] != "HSB_Saturation"@[0]);
            assert("StrobeDuration"@[0] != "HSB_Brightness"@[0]);
            assert("StrobeDuration"@[0] != "CIE_Brightness"@[0]);
            assert("StrobeDuration"@[0] != "ColorRGB_Green"@[0]);
        },
        AttributeView::StrobeRate => {
            assert(a.name().len() == 10);
            assert("StrobeRate"@[0] != "TiltRotate"@[0]);
            assert("StrobeRate"@[0] != "ColorAdd_R"@[0]);
            assert("StrobeRate"@[0] != "ColorAdd_G"@[0]);
            assert("StrobeRate"@[0] != "ColorAdd_B"@[0]);
            assert("StrobeRate"@[0] != "ColorAdd_C"@[0]);
            assert("StrobeRate"@[0] != "ColorAdd_M"@[0]);
            assert("StrobeRate"@[0] != "ColorAdd_Y"@[0]);
            assert("StrobeRate"@[0] != "ColorAdd_W"@[0]);
            assert("StrobeRate"@[0] != "ColorSub_R"@[0]);
            assert("StrobeRate"@[0] != "ColorSub_G"@[0]);
            assert("StrobeRate"@[0] != "ColorSub_B"@[0]);
            assert("StrobeRate"@[0] != "ColorSub_C"@[0]);
            assert("StrobeRate"@[0] != "ColorSub_M"@[0]);
            assert("StrobeRate"@[0] != "ColorSub_Y"@[0]);
        },
        AttributeView::StrobeFrequency => {
            assert(a.name().len() == 15);
            assert("StrobeFrequency"@[0] != "ColorRGB_Yellow"@[0]);
            assert("StrobeFrequency"@[0] != "VideoSaturation"@[0]);
            assert("StrobeFrequency"@[0] != "VideoBrightness"@[0]);
            assert("StrobeFrequency"@[0] != "VideoKeyColor_R"@[0]);
            assert("StrobeFrequency"@[0] != "VideoKeyColor_G"@[0]);
            assert("StrobeFrequency"@[0] != "VideoKeyColor_B"@[0]);
        },
        AttributeView::StrobeModeShutter => {
            assert(a.name().len() == 17);
            assert("StrobeModeShutter"@[0] != "VideoKeyIntensity"@[0]);
            assert("StrobeModeShutter"@[0] != "VideoKeyTolerance"@[0]);
        },
        AttributeView::StrobeModeStrobe => {
            assert(a.name().len() == 16);
            assert("StrobeModeStrobe"@[0] != "ColorRGB_Magenta"@[0]);
            assert("StrobeModeStrobe"@[0] != "ColorRGB_Quality"@[0]);
        },
        AttributeView::StrobeModePulse => {
            assert(a.name().len() == 15);
            assert("StrobeModePulse"@[0] != "ColorRGB_Yellow"@[0]);
            assert("StrobeModePulse"@[0] != "VideoSaturation"@[0]);
            assert("StrobeModePulse"@[0] != "VideoBrightness"@[0]);
            assert("StrobeModePulse"@[0] != "VideoKeyColor_R"@[0]);
            assert("StrobeModePulse"@[0] != "VideoKeyColor_G"@[0]);
            assert("StrobeModePulse"@[0] != "VideoKeyColor_B"@[0]);
            assert("StrobeModePulse"@[6] != "StrobeFrequency"@[6]);
        },
        _ => {},
    }
}

/// The fixed names of part 5 of the table are read back as their attributes.
proof fn lemma_fixed_names_4(a: AttributeView)
    requires
        a is StrobeModePulseOpen
        || a is StrobeModePulseClose
        || a is StrobeModeRandom
        || a is StrobeModeRandomPulse
        || a is StrobeModeRandomPulseOpen
        || a is StrobeModeRandomPulseClose
        || a is StrobeModeEffect
        || a is Iris
        || a is IrisStrobe
        || a is IrisStrobeRandom
        || a is IrisPulseClose
        || a is IrisPulseOpen
        || a is IrisRandomPulseClose
        || a is IrisRandomPulseOpen
        || a is EffectsSync
        || a is BeamShaper
        || a is BeamShaperMacro
        || a is BeamShaperPos
        || a is BeamShaperPosRotate
        || a is Zoom,
    ensures
        parse_fixed(a.name()) == Some(a),
{
    reveal_strlit("Dimmer");
    reveal_strlit("Pan");
    reveal_strlit("Tilt");
    reveal_strlit("PanRotate");
    reveal_strlit("TiltRotate");
    reveal_strlit("PositionEffect");
    reveal_strlit("PositionEffectRate");
    reveal_strlit("PositionEffectFade");
    reveal_strlit("XYZ_X");
    reveal_strlit("XYZ_Y");
    reveal_strlit("XYZ_Z");
    reveal_strlit("Rot_X");
    reveal_strlit("Rot_Y");
    reveal_strlit("Rot_Z");
    reveal_strlit("Scale_X");
    reveal_strlit("Scale_Y");
    reveal_strlit("Scale_Z");
    reveal_strlit("Scale_XYZ");
    reveal_strlit("PlayMode");
    reveal_strlit("PlayBegin");
    reveal_strlit("PlayEnd");
    reveal_strlit("PlaySpeed");
    reveal_strlit("ColorAdd_R");
    reveal_strlit("ColorAdd_G");
    reveal_strlit("ColorAdd_B");
    reveal_strlit("ColorAdd_C");
    reveal_strlit("ColorAdd_M");
    reveal_strlit("ColorAdd_Y");
    reveal_strlit("ColorAdd_RY");
    reveal_strlit("ColorAdd_GY");
    reveal_strlit("ColorAdd_GC");
    reveal_strlit("ColorAdd_BC");
    reveal_strlit("ColorAdd_BM");
    reveal_strlit("ColorAdd_RM");
    reveal_strlit("ColorAdd_W");
    reveal_strlit("ColorAdd_WW");
    reveal_strlit("ColorAdd_CW");
    reveal_strlit("ColorAdd_UV");
    reveal_strlit("ColorSub_R");
    reveal_strlit("ColorSub_G");
    reveal_strlit("ColorSub_B");
    reveal_strlit("ColorSub_C");
    reveal_strlit("ColorSub_M");
    reveal_strlit("ColorSub_Y");
    reveal_strlit("CTO");
    reveal_strlit("CTC");
    reveal_strlit("CTB");
    reveal_strlit("Tint");
    reveal_strlit("HSB_Hue");
    reveal_strlit("HSB_Saturation");
    reveal_strlit("HSB_Brightness");
    reveal_strlit("HSB_Quality");
    reveal_strlit("CIE_X");
    reveal_strlit("CIE_Y");
    reveal_strlit("CIE_Brightness");
    reveal_strlit("ColorRGB_Red");
    reveal_strlit("ColorRGB_Green");
    reveal_strlit("ColorRGB_Blue");
    reveal_strlit("ColorRGB_Cyan");
    reveal_strlit("ColorRGB_Magenta");
    reveal_strlit("ColorRGB_Yellow");
    reveal_strlit("ColorRGB_Quality");
    reveal_strlit("VideoBoost_R");
    reveal_strlit("VideoBoost_G");
    reveal_strlit("VideoBoost_B");
    reveal_strlit("VideoHueShift");
    reveal_strlit("VideoSaturation");
    reveal_strlit("VideoBrightness");
    reveal_strlit("VideoContrast");
    reveal_strlit("VideoKeyColor_R");
    reveal_strlit("VideoKeyColor_G");
    reveal_strlit("VideoKeyColor_B");
    reveal_strlit("VideoKeyIntensity");
    reveal_strlit("VideoKeyTolerance");
    reveal_strlit("StrobeDuration");
    reveal_strlit("StrobeRate");
    reveal_strlit("StrobeFrequency");
    reveal_strlit("StrobeModeShutter");
    reveal_strlit("StrobeModeStrobe");
    reveal_strlit("StrobeModePulse");
    reveal_strlit("StrobeModePulseOpen");
    reveal_strlit("StrobeModePulseClose");
    reveal_strlit("StrobeModeRandom");
    reveal_strlit("StrobeModeRandomPulse");
    reveal_strlit("StrobeModeRandomPulseOpen");
    reveal_strlit("StrobeModeRandomPulseClose");
    reveal_strlit("StrobeModeEffect");
    reveal_strlit("Iris");
    reveal_strlit("IrisStrobe");
    reveal_strlit("IrisStrobeRandom");
    reveal_strlit("IrisPulseClose");
    reveal_strlit("IrisPulseOpen");
    reveal_strlit("IrisRandomPulseClose");
    reveal_strlit("IrisRandomPulseOpen");
    reveal_strlit("EffectsSync");
    reveal_strlit("BeamShaper");
    reveal_strlit("BeamShaperMacro");
    reveal_strlit("BeamShaperPos");
    reveal_strlit("BeamShaperPosRotate");
    reveal_strlit("Zoom");
    match a {
        AttributeView::StrobeModePulseOpen => {
            assert(a.name().len() == 19);
        },
        AttributeView::StrobeModePulseClose => {
            assert(a.name().len() == 20);
        },
        AttributeView::StrobeModeRandom => {
            assert(a.name().len() == 16);
            assert("StrobeModeRandom"@[0] != "ColorRGB_Magenta"@[0]);
            assert("StrobeModeRandom"@[0] != "ColorRGB_Quality"@[0]);
            assert("StrobeModeRandom"@[10] != "StrobeModeStrobe"@[10]);
        },
        AttributeView::StrobeModeRandomPulse => {
            assert(a.name().len() == 21);
        },
        AttributeView::StrobeModeRandomPulseOpen => {
            assert(a.name().len() == 25);
        },
        AttributeView::StrobeModeRandomPulseClose => {
            assert(a.name().len() == 26);
        },
        AttributeView::StrobeModeEffect => {
            assert(a.name().len() == 16);
            assert("StrobeModeEffect"@[0] != "ColorRGB_Magenta"@[0]);
            assert("StrobeModeEffect"@[0] != "ColorRGB_Quality"@[0]);
            assert("StrobeModeEffect"@[10] != "StrobeModeStrobe"@[10]);
            assert("StrobeModeEffect"@[10] != "StrobeModeRandom"@[10]);
        },
        AttributeView::Iris => {
            assert(a.name().len() == 4);
            assert("Iris"@[0] != "Tilt"@[0]);
            assert("Iris"@[0] != "Tint"@[0]);
        },
        AttributeView::IrisStrobe => {
            assert(a.name().len() == 10);
            assert("IrisStrobe"@[0] != "TiltRotate"@[0]);
            assert("IrisStrobe"@[0] != "ColorAdd_R"@[0]);
            assert("IrisStrobe"@[0] != "ColorAdd_G"@[0]);
            assert("IrisStrobe"@[0] != "ColorAdd_B"@[0]);
            assert("IrisStrobe"@[0] != "ColorAdd_C"@[0]);
            assert("IrisStrobe"@[0] != "ColorAdd_M"@[0]);
            assert("IrisStrobe"@[0] != "ColorAdd_Y"@[0]);
            assert("IrisStrobe"@[0] != "ColorAdd_W"@[0]);
            assert("IrisStrobe"@[0] != "ColorSub_R"@[0]);
            assert("IrisStrobe"@[0] != "ColorSub_G"@[0]);
            assert("IrisStrobe"@[0] != "ColorSub_B"@[0]);
            assert("IrisStrobe"@[0] != "ColorSub_C"@[0]);
            assert("IrisStrobe"@[0] != "ColorSub_M"@[0]);
            assert("IrisStrobe"@[0] != "ColorSub_Y"@[0]);
            assert("IrisStrobe"@[0] != "StrobeRate"@[0]);
        },
        AttributeView::IrisStrobeRandom => {
            assert(a.name().len() == 16);
            assert("IrisStrobeRandom"@[0] != "ColorRGB_Magenta"@[0]);
            assert("IrisStrobeRandom"@[0] != "ColorRGB_Quality"@[0]);
            assert("IrisStrobeRandom"@[0] != "StrobeModeStrobe"@[0]);
            assert("IrisStrobeRandom"@[0] != "StrobeModeRandom"@[0]);
            assert("IrisStrobeRandom"@[0] != "StrobeModeEffect"@[0]);
        },
        AttributeView::IrisPulseClose => {
            assert(a.name().len() == 14);
            assert("IrisPulseClose"@[0] != "PositionEffect"@[0]);
            assert("IrisPulseClose"@[0] != "HSB_Saturation"@[0]);
            assert("IrisPulseClose"@[0] != "HSB_Brightness"@[0]);
            assert("IrisPulseClose"@[0] != "CIE_Brightness"@[0]);
            assert("IrisPulseClose"@[0] != "ColorRGB_Green"@[0]);
            assert("IrisPulseClose"@[0] != "StrobeDuration"@[0]);
        },
        AttributeView::IrisPulseOpen => {
            assert(a.name().len() == 13);
            assert("IrisPulseOpen"@[0] != "ColorRGB_Blue"@[0]);
            assert("IrisPulseOpen"@[0] != "ColorRGB_Cyan"@[0]);
            assert("IrisPulseOpen"@[0] != "VideoHueShift"@[0]);
            assert("IrisPulseOpen"@[0] != "VideoContrast"@[0]);
        },
        AttributeView::IrisRandomPulseClose => {
            assert(a.name().len() == 20);
            assert("IrisRandomPulseClose"@[0] != "StrobeModePulseClose"@[0]);
        },
        AttributeView::IrisRandomPulseOpen => {
            assert(a.name().len() == 19);
            assert("IrisRandomPulseOpen"@[0] != "StrobeModePulseOpen"@[0]);
        },
        AttributeView::EffectsSync => {
            assert(a.name().len() == 11);
            assert("EffectsSync"@[0] != "ColorAdd_RY"@[0]);
            assert("EffectsSync"@[0] != "ColorAdd_GY"@[0]);
            assert("EffectsSync"@[0] != "ColorAdd_GC"@[0]);
            assert("EffectsSync"@[0] != "ColorAdd_BC"@[0]);
            assert("EffectsSync"@[0] != "ColorAdd_BM"@[0]);
            assert("EffectsSync"@[0] != "ColorAdd_RM"@[0]);
            assert("EffectsSync"@[0] != "ColorAdd_WW"@[0]);
            assert("EffectsSync"@[0] != "ColorAdd_CW"@[0]);
            assert("EffectsSync"@[0] != "ColorAdd_UV"@[0]);
            assert("EffectsSync"@[0] != "HSB_Quality"@[0]);
        },
        AttributeView::BeamShaper => {
            assert(a.name().len() == 10);
            assert("BeamShaper"@[0] != "TiltRotate"@[0]);
            assert("BeamShaper"@[0] != "ColorAdd_R"@[0]);
            assert("BeamShaper"@[0] != "ColorAdd_G"@[0]);
            assert("BeamShaper"@[0] != "ColorAdd_B"@[0]);
            assert("BeamShaper"@[0] != "ColorAdd_C"@[0]);
            assert("BeamShaper"@[0] != "ColorAdd_M"@[0]);
            assert("BeamShaper"@[0] != "ColorAdd_Y"@[0]);
            assert("BeamShaper"@[0] != "ColorAdd_W"@[0]);
            assert("BeamShaper"@[0] != "ColorSub_R"@[0]);
            assert("BeamShaper"@[0] != "ColorSub_G"@[0]);
            assert("BeamShaper"@[0] != "ColorSub_B"@[0]);
            assert("BeamShaper"@[0] != "ColorSub_C"@[0]);
            assert("BeamShaper"@[0] != "ColorSub_M"@[0]);
            assert("BeamShaper"@[0] != "ColorSub_Y"@[0]);
            assert("BeamShaper"@[0] != "StrobeRate"@[0]);
            assert("BeamShaper"@[0] != "IrisStrobe"@[0]);
        },
        AttributeView::BeamShaperMacro => {
            assert(a.name().len() == 15);
            assert("BeamShaperMacro"@[0] != "ColorRGB_Yellow"@[0]);
            assert("BeamShaperMacro"@[0] != "VideoSaturation"@[0]);
            assert("BeamShaperMacro"@[0] != "VideoBrightness"@[0]);
            assert("BeamShaperMacro"@[0] != "VideoKeyColor_R"@[0]);
            assert("BeamShaperMacro"@[0] != "VideoKeyColor_G"@[0]);
            assert("BeamShaperMacro"@[0] != "VideoKeyColor_B"@[0]);
            assert("BeamShaperMacro"@[0] != "StrobeFrequency"@[0]);
            assert("BeamShaperMacro"@[0] != "StrobeModePulse"@[0]);
        },
        AttributeView::BeamShaperPos => {
            assert(a.name().len() == 13);
            assert("BeamShaperPos"@[0] != "ColorRGB_Blue"@[0]);
            assert("BeamShaperPos"@[0] != "ColorRGB_Cyan"@[0]);
            assert("BeamShaperPos"@[0] != "VideoHueShift"@[0]);
            assert("BeamShaperPos"@[0] != "VideoContrast"@[0]);
            assert("BeamShaperPos"@[0] != "IrisPulseOpen"@[0]);
        },
        AttributeView::BeamShaperPosRotate => {
            assert(a.name().len() == 19);
            assert("BeamShaperPosRotate"@[0] != "StrobeModePulseOpen"@[0]);
            assert("BeamShaperPosRotate"@[0] != "IrisRandomPulseOpen"@[0]);
        },
        AttributeView::Zoom => {
            assert(a.name().len() == 4);
            assert("Zoom"@[0] != "Tilt"@[0]);
            assert("Zoom"@[0] != "Tint"@[0]);
            assert("Zoom"@[0] != "Iris"@[0]);
        },
        _ => {},
    }
}

/// The fixed names of part 6 of the table are read back as their attributes.
proof fn lemma_fixed_names_5(a: AttributeView)
    requires
        a is ZoomModeSpot
        || a is ZoomModeBeam
        || a is DigitalZoom
        || a is DimmerMode
        || a is DimmerCurve
        || a is BlackoutMode
        || a is LedFrequency
        || a is LedZoneMode
        || a is PixelMode
        || a is PanMode
        || a is TiltMode
        || a is PanTiltMode
        || a is PositionModes
        || a is GoboWheelShortcutMode
        || a is AnimationWheelShortcutMode
        || a is ColorWheelShortcutMode
        || a is CyanMode
        || a is MagentaMode
        || a is YellowMode
        || a is ColorMixMode,
    ensures
        parse_fixed(a.name()) == Some(a),
{
    reveal_strlit("Dimmer");
    reveal_strlit("Pan");
    reveal_strlit("Tilt");
    reveal_strlit("PanRotate");
    reveal_strlit("TiltRotate");
    reveal_strlit("PositionEffect");
    reveal_strlit("PositionEffectRate");
    reveal_strlit("PositionEffectFade");
    reveal_strlit("XYZ_X");
    reveal_strlit("XYZ_Y");
    reveal_strlit("XYZ_Z");
    reveal_strlit("Rot_X");
    reveal_strlit("Rot_Y");
    reveal_strlit("Rot_Z");
    reveal_strlit("Scale_X");
    reveal_strlit("Scale_Y");
    reveal_strlit("Scale_Z");
    reveal_strlit("Scale_XYZ");
    reveal_strlit("PlayMode");
    reveal_strlit("PlayBegin");
    reveal_strlit("PlayEnd");
    reveal_strlit("PlaySpeed");
    reveal_strlit("ColorAdd_R");
    reveal_strlit("ColorAdd_G");
    reveal_strlit("ColorAdd_B");
    reveal_strlit("ColorAdd_C");
    reveal_strlit("ColorAdd_M");
    reveal_strlit("ColorAdd_Y");
    reveal_strlit("ColorAdd_RY");
    reveal_strlit("ColorAdd_GY");
    reveal_strlit("ColorAdd_GC");
    reveal_strlit("ColorAdd_BC");
    reveal_strlit("ColorAdd_BM");
    reveal_strlit("ColorAdd_RM");
    reveal_strlit("ColorAdd_W");
    reveal_strlit("ColorAdd_WW");
    reveal_strlit("ColorAdd_CW");
    reveal_strlit("ColorAdd_UV");
    reveal_strlit("ColorSub_R");
    reveal_strlit("ColorSub_G");
    reveal_strlit("ColorSub_B");
    reveal_strlit("ColorSub_C");
    reveal_strlit("ColorSub_M");
    reveal_strlit("ColorSub_Y");
    reveal_strlit("CTO");
    reveal_strlit("CTC");
    reveal_strlit("CTB");
    reveal_strlit("Tint");
    reveal_strlit("HSB_Hue");
    reveal_strlit("HSB_Saturation");
    reveal_strlit("HSB_Brightness");
    reveal_strlit("HSB_Quality");
    reveal_strlit("CIE_X");
    reveal_strlit("CIE_Y");
    reveal_strlit("CIE_Brightness");
    reveal_strlit("ColorRGB_Red");
    reveal_strlit("ColorRGB_Green");
    reveal_strlit("ColorRGB_Blue");
    reveal_strlit("ColorRGB_Cyan");
    reveal_strlit("ColorRGB_Magenta");
    reveal_strlit("ColorRGB_Yellow");
    reveal_strlit("ColorRGB_Quality");
    reveal_strlit("VideoBoost_R");
    reveal_strlit("VideoBoost_G");
    reveal_strlit("VideoBoost_B");
    reveal_strlit("VideoHueShift");
    reveal_strlit("VideoSaturation");
    reveal_strlit("VideoBrightness");
    reveal_strlit("VideoContrast");
    reveal_strlit("VideoKeyColor_R");
    reveal_strlit("VideoKeyColor_G");
    reveal_strlit("VideoKeyColor_B");
    reveal_strlit("VideoKeyIntensity");
    reveal_strlit("VideoKeyTolerance");
    reveal_strlit("StrobeDuration");
    reveal_strlit("StrobeRate");
    reveal_strlit("StrobeFrequency");
    reveal_strlit("StrobeModeShutter");
    reveal_strlit("StrobeModeStrobe");
    reveal_strlit("StrobeModePulse");
    reveal_strlit("StrobeModePulseOpen");
    reveal_strlit("StrobeModePulseClose");
    reveal_strlit("StrobeModeRandom");
    reveal_strlit("StrobeModeRandomPulse");
    reveal_strlit("StrobeModeRandomPulseOpen");
    reveal_strlit("StrobeModeRandomPulseClose");
    reveal_strlit("StrobeModeEffect");
    reveal_strlit("Iris");
    reveal_strlit("IrisStrobe");
    reveal_strlit("IrisStrobeRandom");
    reveal_strlit("IrisPulseClose");
    reveal_strlit("IrisPulseOpen");
    reveal_strlit("IrisRandomPulseClose");
    reveal_strlit("IrisRandomPulseOpen");
    reveal_strlit("EffectsSync");
    reveal_strlit("BeamShaper");
    reveal_strlit("BeamShaperMacro");
    reveal_strlit("BeamShaperPos");
    reveal_strlit("BeamShaperPosRotate");
    reveal_strlit("Zoom");
    reveal_strlit("ZoomModeSpot");
    reveal_strlit("ZoomModeBeam");
    reveal_strlit("DigitalZoom");
    reveal_strlit("DimmerMode");
    reveal_strlit("DimmerCurve");
    reveal_strlit("BlackoutMode");
    reveal_strlit("LEDFrequency");
    reveal_strlit("LEDZoneMode");
    reveal_strlit("PixelMode");
    reveal_strlit("PanMode");
    reveal_strlit("TiltMode");
    reveal_strlit("PanTiltMode");
    reveal_strlit("PositionModes");
    reveal_strlit("GoboWheelShortcutMode");
    reveal_strlit("AnimationWheelShortcutMode");
    reveal_strlit("ColorWheelShortcutMode");
    reveal_strlit("CyanMode");
    reveal_strlit("MagentaMode");
    reveal_strlit("YellowMode");
    reveal_strlit("ColorMixMode");
    match a {
        AttributeView::ZoomModeSpot => {
            assert(a.name().len() == 12);
            assert("ZoomModeSpot"@[0] != "ColorRGB_Red"@[0]);
            assert("ZoomModeSpot"@[0] != "VideoBoost_R"@[0]);
            assert("ZoomModeSpot"@[0] != "VideoBoost_G"@[0]);
            assert("ZoomModeSpot"@[0] != "VideoBoost_B"@[0]);
        },
        AttributeView::ZoomModeBeam => {
            assert(a.name().len() == 12);
            assert("ZoomModeBeam"@[0] != "ColorRGB_Red"@[0]);
            assert("ZoomModeBeam"@[0] != "VideoBoost_R"@[0]);
            assert("ZoomModeBeam"@[0] != "VideoBoost_G"@[0]);
            assert("ZoomModeBeam"@[0] != "VideoBoost_B"@[0]);
            assert("ZoomModeBeam"@[8] != "ZoomModeSpot"@[8]);
        },
        AttributeView::DigitalZoom => {
            assert(a.name().len() == 11);
            assert("DigitalZoom"@[0] != "ColorAdd_RY"@[0]);
            assert("DigitalZoom"@[0] != "ColorAdd_GY"@[0]);
            assert("DigitalZoom"@[0] != "ColorAdd_GC"@[0]);
            assert("DigitalZoom"@[0] != "ColorAdd_BC"@[0]);
            assert("DigitalZoom"@[0] != "ColorAdd_BM"@[0]);
            assert("DigitalZoom"@[0] != "ColorAdd_RM"@[0]);
            assert("DigitalZoom"@[0] != "ColorAdd_WW"@[0]);
            assert("DigitalZoom"@[0] != "ColorAdd_CW"@[0]);
            assert("DigitalZoom"@[0] != "ColorAdd_UV"@[0]);
            assert("DigitalZoom"@[0] != "HSB_Quality"@[0]);
            assert("DigitalZoom"@[0] != "EffectsSync"@[0]);
        },
        AttributeView::DimmerMode => {
            assert(a.name().len() == 10);
            assert("DimmerMode"@[0] != "TiltRotate"@[0]);
            assert("DimmerMode"@[0] != "ColorAdd_R"@[0]);
            assert("DimmerMode"@[0] != "ColorAdd_G"@[0]);
            assert("DimmerMode"@[0] != "ColorAdd_B"@[0]);
            assert("DimmerMode"@[0] != "ColorAdd_C"@[0]);
            assert("DimmerMode"@[0] != "ColorAdd_M"@[0]);
            assert("DimmerMode"@[0] != "ColorAdd_Y"@[0]);
            assert("DimmerMode"@[0] != "ColorAdd_W"@[0]);
            assert("DimmerMode"@[0] != "ColorSub_R"@[0]);
            assert("DimmerMode"@[0] != "ColorSub_G"@[0]);
            assert("DimmerMode"@[0] != "ColorSub_B"@[0]);
            assert("DimmerMode"@[0] != "ColorSub_C"@[0]);
            assert("DimmerMode"@[0] != "ColorSub_M"@[0]);
            assert("DimmerMode"@[0] != "ColorSub_Y"@[0]);
            assert("DimmerMode"@[0] != "StrobeRate"@[0]);
            assert("DimmerMode"@[0] != "IrisStrobe"@[0]);
            assert("DimmerMode"@[0] != "BeamShaper"@[0]);
        },
        AttributeView::DimmerCurve => {
            assert(a.name().len() == 11);
            assert("DimmerCurve"@[0] != "ColorAdd_RY"@[0]);
            assert("DimmerCurve"@[0] != "ColorAdd_GY"@[0]);
            assert("DimmerCurve"@[0] != "ColorAdd_GC"@[0]);
            assert("DimmerCurve"@[0] != "ColorAdd_BC"@[0]);
            assert("DimmerCurve"@[0] != "ColorAdd_BM"@[0]);
            assert("DimmerCurve"@[0] != "ColorAdd_RM"@[0]);
            assert("DimmerCurve"@[0] != "ColorAdd_WW"@[0]);
            assert("DimmerCurve"@[0] != "ColorAdd_CW"@[0]);
            assert("DimmerCurve"@[0] != "ColorAdd_UV"@[0]);
            assert("DimmerCurve"@[0] != "HSB_Quality"@[0]);
            assert("DimmerCurve"@[0] != "EffectsSync"@[0]);
            assert("DimmerCurve"@[2] != "DigitalZoom"@[2]);
        },
        AttributeView::BlackoutMode => {
            assert(a.name().len() == 12);
            assert("BlackoutMode"@[0] != "ColorRGB_Red"@[0]);
            assert("BlackoutMode"@[0] != "VideoBoost_R"@[0]);
            assert("BlackoutMode"@[0] != "VideoBoost_G"@[0]);
            assert("BlackoutMode"@[0] != "VideoBoost_B"@[0]);
            assert("BlackoutMode"@[0] != "ZoomModeSpot"@[0]);
            assert("BlackoutMode"@[0] != "ZoomModeBeam"@[0]);
        },
        AttributeView::LedFrequency => {
            assert(a.name().len() == 12);
            assert("LEDFrequency"@[0] != "ColorRGB_Red"@[0]);
            assert("LEDFrequency"@[0] != "VideoBoost_R"@[0]);
            assert("LEDFrequency"@[0] != "VideoBoost_G"@[0]);
            assert("LEDFrequency"@[0] != "VideoBoost_B"@[0]);
            assert("LEDFrequency"@[0] != "ZoomModeSpot"@[0]);
            assert("LEDFrequency"@[0] != "ZoomModeBeam"@[0]);
            assert("LEDFrequency"@[0] != "BlackoutMode"@[0]);
        },
        AttributeView::LedZoneMode => {
            assert(a.name().len() == 11);
            assert("LEDZoneMode"@[0] != "ColorAdd_RY"@[0]);
            assert("LEDZoneMode"@[0] != "ColorAdd_GY"@[0]);
            assert("LEDZoneMode"@[0] != "ColorAdd_GC"@[0]);
            assert("LEDZoneMode"@[0] != "ColorAdd_BC"@[0]);
            assert("LEDZoneMode"@[0] != "ColorAdd_BM"@[0]);
            assert("LEDZoneMode"@[0] != "ColorAdd_RM"@[0]);
            assert("LEDZoneMode"@[0] != "ColorAdd_WW"@[0]);
            assert("LEDZoneMode"@[0] != "ColorAdd_CW"@[0]);
            assert("LEDZoneMode"@[0] != "ColorAdd_UV"@[0]);
            assert("LEDZoneMode"@[0] != "HSB_Quality"@[0]);
            assert("LEDZoneMode"@[0] != "EffectsSync"@[0]);
            assert("LEDZoneMode"@[0] != "DigitalZoom"@[0]);
            assert("LEDZoneMode"@[0] != "DimmerCurve"@[0]);
        },
        AttributeView::PixelMode => {
            assert(a.name().len() == 9);
            assert("PixelMode"@[1] != "PanRotate"@[1]);
            assert("PixelMode"@[0] != "Scale_XYZ"@[0]);
            assert("PixelMode"@[1] != "PlayBegin"@[1]);
            assert("PixelMode"@[1] != "PlaySpeed"@[1]);
        },
        AttributeView::PanMode => {
            assert(a.name().len() == 7);
            assert("PanMode"@[0] != "Scale_X"@[0]);
            assert("PanMode"@[0] != "Scale_Y"@[0]);
            assert("PanMode"@[0] != "Scale_Z"@[0]);
            assert("PanMode"@[1] != "PlayEnd"@[1]);
            assert("PanMode"@[0] != "HSB_Hue"@[0]);
        },
        AttributeView::TiltMode => {
            assert(a.name().len() == 8);
            assert("TiltMode"@[0] != "PlayMode"@[0]);
        },
        AttributeView::PanTiltMode => {
            assert(a.name().len() == 11);
            assert("PanTiltMode"@[0] != "ColorAdd_RY"@[0]);
            assert("PanTiltMode"@[0] != "ColorAdd_GY"@[0]);
            assert("PanTiltMode"@[0] != "ColorAdd_GC"@[0]);
            assert("PanTiltMode"@[0] != "ColorAdd_BC"@[0]);
            assert("PanTiltMode"@[0] != "ColorAdd_BM"@[0]);
            assert("PanTiltMode"@[0] != "ColorAdd_RM"@[0]);
            assert("PanTiltMode"@[0] != "ColorAdd_WW"@[0]);
            assert("PanTiltMode"@[0] != "ColorAdd_CW"@[0]);
            assert("PanTiltMode"@[0] != "ColorAdd_UV"@[0]);
            assert("PanTiltMode"@[0] != "HSB_Quality"@[0]);
            assert("PanTiltMode"@[0] != "EffectsSync"@[0]);
            assert("PanTiltMode"@[0] != "DigitalZoom"@[0]);
            assert("PanTiltMode"@[0] != "DimmerCurve"@[0]);
            assert("PanTiltMode"@[0] != "LEDZoneMode"@[0]);
        },
        AttributeView::PositionModes => {
            assert(a.name().len() == 13);
            assert("PositionModes"@[0] != "ColorRGB_Blue"@[0]);
            assert("PositionModes"@[0] != "ColorRGB_Cyan"@[0]);
            assert("PositionModes"@[0] != "VideoHueShift"@[0]);
            assert("PositionModes"@[0] != "VideoContrast"@[0]);
            assert("PositionModes"@[0] != "IrisPulseOpen"@[0]);
            assert("PositionModes"@[0] != "BeamShaperPos"@[0]);
        },
        AttributeView::GoboWheelShortcutMode => {
            assert(a.name().len() == 21);
            assert("GoboWheelShortcutMode"@[0] != "StrobeModeRandomPulse"@[0]);
        },
        AttributeView::AnimationWheelShortcutMode => {
            assert(a.name().len() == 26);
            assert("AnimationWheelShortcutMode"@[0] != "StrobeModeRandomPulseClose"@[0]);
        },
        AttributeView::ColorWheelShortcutMode => {
            assert(a.name().len() == 22);
        },
        AttributeView::CyanMode => {
            assert(a.name().len() == 8);
            assert("CyanMode"@[0] != "PlayMode"@[0]);
            assert("CyanMode"@[0] != "TiltMode"@[0]);
        },
        AttributeView::MagentaMode => {
            assert(a.name().len() == 11);
            assert("MagentaMode"@[0] != "ColorAdd_RY"@[0]);
            assert("MagentaMode"@[0] != "ColorAdd_GY"@[0]);
            assert("MagentaMode"@[0] != "ColorAdd_GC"@[0]);
            assert("MagentaMode"@[0] != "ColorAdd_BC"@[0]);
            assert("MagentaMode"@[0] != "ColorAdd_BM"@[0]);
            assert("MagentaMode"@[0] != "ColorAdd_RM"@[0]);
            assert("MagentaMode"@[0] != "ColorAdd_WW"@[0]);
            assert("MagentaMode"@[0] != "ColorAdd_CW"@[0]);
            assert("MagentaMode"@[0] != "ColorAdd_UV"@[0]);
            assert("MagentaMode"@[0] != "HSB_Quality"@[0]);
            assert("MagentaMode"@[0] != "EffectsSync"@[0]);
            assert("MagentaMode"@[0] != "DigitalZoom"@[0]);
            assert("MagentaMode"@[0] != "DimmerCurve"@[0]);
            assert("MagentaMode"@[0] != "LEDZoneMode"@[0]);
            assert("MagentaMode"@[0] != "PanTiltMode"@[0]);
        },
        AttributeView::YellowMode => {
            assert(a.name().len() == 10);
            assert("YellowMode"@[0] != "TiltRotate"@[0]);
            assert("YellowMode"@[0] != "ColorAdd_R"@[0]);
            assert("YellowMode"@[0] != "ColorAdd_G"@[0]);
            assert("YellowMode"@[0] != "ColorAdd_B"@[0]);
            assert("YellowMode"@[0] != "ColorAdd_C"@[0]);
            assert("YellowMode"@[0] != "ColorAdd_M"@[0]);
            assert("YellowMode"@[0] != "ColorAdd_Y"@[0]);
            assert("YellowMode"@[0] != "ColorAdd_W"@[0]);
            assert("YellowMode"@[0] != "ColorSub_R"@[0]);
            assert("YellowMode"@[0] != "ColorSub_G"@[0]);
            assert("YellowMode"@[0] != "ColorSub_B"@[0]);
            assert("YellowMode"@[0] != "ColorSub_C"@[0]);
            assert("YellowMode"@[0] != "ColorSub_M"@[0]);
            assert("YellowMode"@[0] != "ColorSub_Y"@[0]);
            assert("YellowMode"@[0] != "StrobeRate"@[0]);
            assert("YellowMode"@[0] != "IrisStrobe"@[0]);
            assert("YellowMode"@[0] != "BeamShaper"@[0]);
            assert("YellowMode"@[0] != "DimmerMode"@[0]);
        },
        AttributeView::ColorMixMode => {
            assert(a.name().len() == 12);
            assert("ColorMixMode"@[5] != "ColorRGB_Red"@[5]);
            assert("ColorMixMode"@[0] != "VideoBoost_R"@[0]);
            assert("ColorMixMode"@[0] != "VideoBoost_G"@[0]);
            assert("ColorMixMode"@[0] != "VideoBoost_B"@[0]);
            assert("ColorMixMode"@[0] != "ZoomModeSpot"@[0]);
            assert("ColorMixMode"@[0] != "ZoomModeBeam"@[0]);
            assert("ColorMixMode"@[0] != "BlackoutMode"@[0]);
            assert("ColorMixMode"@[0] != "LEDFrequency"@[0]);
        },
        _ => {},
    }
}

/// The fixed names of part 7 of the table are read back as their attributes.
proof fn lemma_fixed_names_6(a: AttributeView)
    requires
        a is ChromaticMode
        || a is ColorCalibrationMode
        || a is ColorConsistency
        || a is ColorControl
        || a is ColorModelMode
        || a is ColorSettingsReset
        || a is ColorUniformity
        || a is CriMode
        || a is CustomColor
        || a is UvStability
        || a is WavelengthCorrection
        || a is WhiteCount
        || a is StrobeMode
        || a is ZoomMode
        || a is FocusMode
        || a is IrisMode
        || a is FollowSpotMode
        || a is BeamEffectIndexRotateMode
        || a is IntensityMSpeed
        || a is PositionMSpeed,
    ensures
        parse_fixed(a.name()) == Some(a),
{
    reveal_strlit("Dimmer");
    reveal_strlit("Pan");
    reveal_strlit("Tilt");
    reveal_strlit("PanRotate");
    reveal_strlit("TiltRotate");
    reveal_strlit("PositionEffect");
    reveal_strlit("PositionEffectRate");
    reveal_strlit("PositionEffectFade");
    reveal_strlit("XYZ_X");
    reveal_strlit("XYZ_Y");
    reveal_strlit("XYZ_Z");
    reveal_strlit("Rot_X");
    reveal_strlit("Rot_Y");
    reveal_strlit("Rot_Z");
    reveal_strlit("Scale_X");
    reveal_strlit("Scale_Y");
    reveal_strlit("Scale_Z");
    reveal_strlit("Scale_XYZ");
    reveal_strlit("PlayMode");
    reveal_strlit("PlayBegin");
    reveal_strlit("PlayEnd");
    reveal_strlit("PlaySpeed");
    reveal_strlit("ColorAdd_R");
    reveal_strlit("ColorAdd_G");
    reveal_strlit("ColorAdd_B");
    reveal_strlit("ColorAdd_C");
    reveal_strlit("ColorAdd_M");
    reveal_strlit("ColorAdd_Y");
    reveal_strlit("ColorAdd_RY");
    reveal_strlit("ColorAdd_GY");
    reveal_strlit("ColorAdd_GC");
    reveal_strlit("ColorAdd_BC");
    reveal_strlit("ColorAdd_BM");
    reveal_strlit("ColorAdd_RM");
    reveal_strlit("ColorAdd_W");
    reveal_strlit("ColorAdd_WW");
    reveal_strlit("ColorAdd_CW");
    reveal_strlit("ColorAdd_UV");
    reveal_strlit("ColorSub_R");
    reveal_strlit("ColorSub_G");
    reveal_strlit("ColorSub_B");
    reveal_strlit("ColorSub_C");
    reveal_strlit("ColorSub_M");
    reveal_strlit("ColorSub_Y");
    reveal_strlit("CTO");
    reveal_strlit("CTC");
    reveal_strlit("CTB");
    reveal_strlit("Tint");
    reveal_strlit("HSB_Hue");
    reveal_strlit("HSB_Saturation");
    reveal_strlit("HSB_Brightness");
    reveal_strlit("HSB_Quality");
    reveal_strlit("CIE_X");
    reveal_strlit("CIE_Y");
    reveal_strlit("CIE_Brightness");
    reveal_strlit("ColorRGB_Red");
    reveal_strlit("ColorRGB_Green");
    reveal_strlit("ColorRGB_Blue");
    reveal_strlit("ColorRGB_Cyan");
    reveal_strlit("ColorRGB_Magenta");
    reveal_strlit("ColorRGB_Yellow");
    reveal_strlit("ColorRGB_Quality");
    reveal_strlit("VideoBoost_R");
    reveal_strlit("VideoBoost_G");
    reveal_strlit("VideoBoost_B");
    reveal_strlit("VideoHueShift");
    reveal_strlit("VideoSaturation");
    reveal_strlit("VideoBrightness");
    reveal_strlit("VideoContrast");
    reveal_strlit("VideoKeyColor_R");
    reveal_strlit("VideoKeyColor_G");
    reveal_strlit("VideoKeyColor_B");
    reveal_strlit("VideoKeyIntensity");
    reveal_strlit("VideoKeyTolerance");
    reveal_strlit("StrobeDuration");
    reveal_strlit("StrobeRate");
    reveal_strlit("StrobeFrequency");
    reveal_strlit("StrobeModeShutter");
    reveal_strlit("StrobeModeStrobe");
    reveal_strlit("StrobeModePulse");
    reveal_strlit("StrobeModePulseOpen");
    reveal_strlit("StrobeModePulseClose");
    reveal_strlit("StrobeModeRandom");
    reveal_strlit("StrobeModeRandomPulse");
    reveal_strlit("StrobeModeRandomPulseOpen");
    reveal_strlit("StrobeModeRandomPulseClose");
    reveal_strlit("StrobeModeEffect");
    reveal_strlit("Iris");
    reveal_strlit("IrisStrobe");
    reveal_strlit("IrisStrobeRandom");
    reveal_strlit("IrisPulseClose");
    reveal_strlit("IrisPulseOpen");
    reveal_strlit("IrisRandomPulseClose");
    reveal_strlit("IrisRandomPulseOpen");
    reveal_strlit("EffectsSync");
    reveal_strlit("BeamShaper");
    reveal_strlit("BeamShaperMacro");
    reveal_strlit("BeamShaperPos");
    reveal_strlit("BeamShaperPosRotate");
    reveal_strlit("Zoom");
    reveal_strlit("ZoomModeSpot");
    reveal_strlit("ZoomModeBeam");
    reveal_strlit("DigitalZoom");
    reveal_strlit("DimmerMode");
    reveal_strlit("DimmerCurve");
    reveal_strlit("BlackoutMode");
    reveal_strlit("LEDFrequency");
    reveal_strlit("LEDZoneMode");
    reveal_strlit("PixelMode");
    reveal_strlit("PanMode");
    reveal_strlit("TiltMode");
    reveal_strlit("PanTiltMode");
    reveal_strlit("PositionModes");
    reveal_strlit("GoboWheelShortcutMode");
    reveal_strlit("AnimationWheelShortcutMode");
    reveal_strlit("ColorWheelShortcutMode");
    reveal_strlit("CyanMode");
    reveal_strlit("MagentaMode");
    reveal_strlit("YellowMode");
    reveal_strlit("ColorMixMode");
    reveal_strlit("ChromaticMode");
    reveal_strlit("ColorCalibrationMode");
    reveal_strlit("ColorConsistency");
    reveal_strlit("ColorControl");
    reveal_strlit("ColorModelMode");
    reveal_strlit("ColorSettingsReset");
    reveal_strlit("ColorUniformity");
    reveal_strlit("CRIMode");
    reveal_strlit("CustomColor");
    reveal_strlit("UVStability");
    reveal_strlit("WavelengthCorrection");
    reveal_strlit("WhiteCount");
    reveal_strlit("StrobeMode");
    reveal_strlit("ZoomMode");
    reveal_strlit("FocusMode");
    reveal_strlit("IrisMode");
    reveal_strlit("FollowSpotMode");
    reveal_strlit("BeamEffectIndexRotateMode");
    reveal_strlit("IntensityMSpeed");
    reveal_strlit("PositionMSpeed");
    match a {
        AttributeView::ChromaticMode => {
            assert(a.name().len() == 13);
            assert("ChromaticMode"@[1] != "ColorRGB_Blue"@[1]);
            assert("ChromaticMode"@[1] != "ColorRGB_Cyan"@[1]);
            assert("ChromaticMode"@[0] != "VideoHueShift"@[0]);
            assert("ChromaticMode"@[0] != "VideoContrast"@[0]);
            assert("ChromaticMode"@[0] != "IrisPulseOpen"@[0]);
            assert("ChromaticMode"@[0] != "BeamShaperPos"@[0]);
            assert("ChromaticMode"@[0] != "PositionModes"@[0]);
        },
        AttributeView::ColorCalibrationMode => {
            assert(a.name().len() == 20);
            assert("ColorCalibrationMode"@[0] != "StrobeModePulseClose"@[0]);
            assert("ColorCalibrationMode"@[0] != "IrisRandomPulseClose"@[0]);
        },
        AttributeView::ColorConsistency => {
            assert(a.name().len() == 16);
            assert("ColorConsistency"@[5] != "ColorRGB_Magenta"@[5]);
            assert("ColorConsistency"@[5] != "ColorRGB_Quality"@[5]);
            assert("ColorConsistency"@[0] != "StrobeModeStrobe"@[0]);
            assert("ColorConsistency"@[0] != "StrobeModeRandom"@[0]);
            assert("ColorConsistency"@[0] != "StrobeModeEffect"@[0]);
            assert("ColorConsistency"@[0] != "IrisStrobeRandom"@[0]);
        },
        AttributeView::ColorControl => {
            assert(a.name().len() == 12);
            assert("ColorControl"@[5] != "ColorRGB_Red"@[5]);
            assert("ColorControl"@[0] != "VideoBoost_R"@[0]);
            assert("ColorControl"@[0] != "VideoBoost_G"@[0]);
            assert("ColorControl"@[0] != "VideoBoost_B"@[0]);
            assert("ColorControl"@[0] != "ZoomModeSpot"@[0]);
            assert("ColorControl"@[0] != "ZoomModeBeam"@[0]);
            assert("ColorControl"@[0] != "BlackoutMode"@[0]);
            assert("ColorControl"@[0] != "LEDFrequency"@[0]);
            assert("ColorControl"@[5] != "ColorMixMode"@[5]);
        },
        AttributeView::ColorModelMode => {
            assert(a.name().len() == 14);
            assert("ColorModelMode"@[0] != "PositionEffect"@[0]);
            assert("ColorModelMode"@[0] != "HSB_Saturation"@[0]);
            assert("ColorModelMode"@[0] != "HSB_Brightness"@[0]);
            assert("ColorModelMode"@[1] != "CIE_Brightness"@[1]);
            assert("ColorModelMode"@[5] != "ColorRGB_Green"@[5]);
            assert("ColorModelMode"@[0] != "StrobeDuration"@[0]);
            assert("ColorModelMode"@[0] != "IrisPulseClose"@[0]);
        },
        AttributeView::ColorSettingsReset => {
            assert(a.name().len() == 18);
            assert("ColorSettingsReset"@[0] != "PositionEffectRate"@[0]);
            assert("ColorSettingsReset"@[0] != "PositionEffectFade"@[0]);
        },
        AttributeView::ColorUniformity => {
            assert(a.name().len() == 15);
            assert("ColorUniformity"@[5] != "ColorRGB_Yellow"@[5]);
            assert("ColorUniformity"@[0] != "VideoSaturation"@[0]);
            assert("ColorUniformity"@[0] != "VideoBrightness"@[0]);
            assert("ColorUniformity"@[0] != "VideoKeyColor_R"@[0]);
            assert("ColorUniformity"@[0] != "VideoKeyColor_G"@[0]);
            assert("ColorUniformity"@[0] != "VideoKeyColor_B"@[0]);
            assert("ColorUniformity"@[0] != "StrobeFrequency"@[0]);
            assert("ColorUniformity"@[0] != "StrobeModePulse"@[0]);
            assert("ColorUniformity"@[0] != "BeamShaperMacro"@[0]);
        },
        AttributeView::CriMode => {
            assert(a.name().len() == 7);
            assert("CRIMode"@[0] != "Scale_X"@[0]);
            assert("CRIMode"@[0] != "Scale_Y"@[0]);
            assert("CRIMode"@[0] != "Scale_Z"@[0]);
            assert("CRIMode"@[0] != "PlayEnd"@[0]);
            assert("CRIMode"@[0] != "HSB_Hue"@[0]);
            assert("CRIMode"@[0] != "PanMode"@[0]);
        },
        AttributeView::CustomColor => {
            assert(a.name().len() == 11);
            assert("CustomColor"@[1] != "ColorAdd_RY"@[1]);
            assert("CustomColor"@[1] != "ColorAdd_GY"@[1]);
            assert("CustomColor"@[1] != "ColorAdd_GC"@[1]);
            assert("CustomColor"@[1] != "ColorAdd_BC"@[1]);
            assert("CustomColor"@[1] != "ColorAdd_BM"@[1]);
            assert("CustomColor"@[1] != "ColorAdd_RM"@[1]);
            assert("CustomColor"@[1] != "ColorAdd_WW"@[1]);
            assert("CustomColor"@[1] != "ColorAdd_CW"@[1]);
            assert("CustomColor"@[1] != "ColorAdd_UV"@[1]);
            assert("CustomColor"@[0] != "HSB_Quality"@[0]);
            assert("CustomColor"@[0] != "EffectsSync"@[0]);
            assert("CustomColor"@[0] != "DigitalZoom"@[0]);
            assert("CustomColor"@[0] != "DimmerCurve"@[0]);
            assert("CustomColor"@[0] != "LEDZoneMode"@[0]);
            assert("CustomColor"@[0] != "PanTiltMode"@[0]);
            assert("CustomColor"@[0] != "MagentaMode"@[0]);
        },
        AttributeView::UvStability => {
            assert(a.name().len() == 11);
            assert("UVStability"@[0] != "ColorAdd_RY"@[0]);
            assert("UVStability"@[0] != "ColorAdd_GY"@[0]);
            assert("UVStability"@[0] != "ColorAdd_GC"@[0]);
            assert("UVStability"@[0] != "ColorAdd_BC"@[0]);
            assert("UVStability"@[0] != "ColorAdd_BM"@[0]);
            assert("UVStability"@[0] != "ColorAdd_RM"@[0]);
            assert("UVStability"@[0] != "ColorAdd_WW"@[0]);
            assert("UVStability"@[0] != "ColorAdd_CW"@[0]);
            assert("UVStability"@[0] != "ColorAdd_UV"@[0]);
            assert("UVStability"@[0] != "HSB_Quality"@[0]);
            assert("UVStability"@[0] != "EffectsSync"@[0]);
            assert("UVStability"@[0] != "DigitalZoom"@[0]);
            assert("UVStability"@[0] != "DimmerCurve"@[0]);
            assert("UVStability"@[0] != "LEDZoneMode"@[0]);
            assert("UVStability"@[0] != "PanTiltMode"@[0]);
            assert("UVStability"@[0] != "MagentaMode"@[0]);
            assert("UVStability"@[0] != "CustomColor"@[0]);
        },
        AttributeView::WavelengthCorrection => {
            assert(a.name().len() == 20);
            assert("WavelengthCorrection"@[0] != "StrobeModePulseClose"@[0]);
            assert("WavelengthCorrection"@[0] != "IrisRandomPulseClose"@[0]);
            assert("WavelengthCorrection"@[0] != "ColorCalibrationMode"@[0]);
        },
        AttributeView::WhiteCount => {
            assert(a.name().len() == 10);
            assert("WhiteCount"@[0] != "TiltRotate"@[0]);
            assert("WhiteCount"@[0] != "ColorAdd_R"@[0]);
            assert("WhiteCount"@[0] != "ColorAdd_G"@[0]);
            assert("WhiteCount"@[0] != "ColorAdd_B"@[0]);
            assert("WhiteCount"@[0] != "ColorAdd_C"@[0]);
            assert("WhiteCount"@[0] != "ColorAdd_M"@[0]);
            assert("WhiteCount"@[0] != "ColorAdd_Y"@[0]);
            assert("WhiteCount"@[0] != "ColorAdd_W"@[0]);
            assert("WhiteCount"@[0] != "ColorSub_R"@[0]);
            assert("WhiteCount"@[0] != "ColorSub_G"@[0]);
            assert("WhiteCount"@[0] != "ColorSub_B"@[0]);
            assert("WhiteCount"@[0] != "ColorSub_C"@[0]);
            assert("WhiteCount"@[0] != "ColorSub_M"@[0]);
            assert("WhiteCount"@[0] != "ColorSub_Y"@[0]);
            assert("WhiteCount"@[0] != "StrobeRate"@[0]);
            assert("WhiteCount"@[0] != "IrisStrobe"@[0]);
            assert("WhiteCount"@[0] != "BeamShaper"@[0]);
            assert("WhiteCount"@[0] != "DimmerMode"@[0]);
            assert("WhiteCount"@[0] != "YellowMode"@[0]);
        },
        AttributeView::StrobeMode => {
            assert(a.name().len() == 10);
            assert("StrobeMode"@[0] != "TiltRotate"@[0]);
            assert("StrobeMode"@[0] != "ColorAdd_R"@[0]);
            assert("StrobeMode"@[0] != "ColorAdd_G"@[0]);
            assert("StrobeMode"@[0] != "ColorAdd_B"@[0]);
            assert("StrobeMode"@[0] != "ColorAdd_C"@[0]);
            assert("StrobeMode"@[0] != "ColorAdd_M"@[0]);
            assert("StrobeMode"@[0] != "ColorAdd_Y"@[0]);
            assert("StrobeMode"@[0] != "ColorAdd_W"@[0]);
            assert("StrobeMode"@[0] != "ColorSub_R"@[0]);
            assert("StrobeMode"@[0] != "ColorSub_G"@[0]);
            assert("StrobeMode"@[0] != "ColorSub_B"@[0]);
            assert("StrobeMode"@[0] != "ColorSub_C"@[0]);
            assert("StrobeMode"@[0] != "ColorSub_M"@[0]);
            assert("StrobeMode"@[0] != "ColorSub_Y"@[0]);
            assert("StrobeMode"@[6] != "StrobeRate"@[6]);
            assert("StrobeMode"@[0] != "IrisStrobe"@[0]);
            assert("StrobeMode"@[0] != "BeamShaper"@[0]);
            assert("StrobeMode"@[0] != "DimmerMode"@[0]);
            assert("StrobeMode"@[0] != "YellowMode"@[0]);
            assert("StrobeMode"@[0] != "WhiteCount"@[0]);
        },
        AttributeView::ZoomMode => {
            assert(a.name().len() == 8);
            assert("ZoomMode"@[0] != "PlayMode"@[0]);
            assert("ZoomMode"@[0] != "TiltMode"@[0]);
            assert("ZoomMode"@[0] != "CyanMode"@[0]);
        },
        AttributeView::FocusMode => {
            assert(a.name().len() == 9);
            assert("FocusMode"@[0] != "PanRotate"@[0]);
            assert("FocusMode"@[0] != "Scale_XYZ"@[0]);
            assert("FocusMode"@[0] != "PlayBegin"@[0]);
            assert("FocusMode"@[0] != "PlaySpeed"@[0]);
            assert("FocusMode"@[0] != "PixelMode"@[0]);
        },
        AttributeView::IrisMode => {
            assert(a.name().len() == 8);
            assert("IrisMode"@[0] != "PlayMode"@[0]);
            assert("IrisMode"@[0] != "TiltMode"@[0]);
            assert("IrisMode"@[0] != "CyanMode"@[0]);
            assert("IrisMode"@[0] != "ZoomMode"@[0]);
        },
        AttributeView::FollowSpotMode => {
            assert(a.name().len() == 14);
            assert("FollowSpotMode"@[0] != "PositionEffect"@[0]);
            assert("FollowSpotMode"@[0] != "HSB_Saturation"@[0]);
            assert("FollowSpotMode"@[0] != "HSB_Brightness"@[0]);
            assert("FollowSpotMode"@[0] != "CIE_Brightness"@[0]);
            assert("FollowSpotMode"@[0] != "ColorRGB_Green"@[0]);
            assert("FollowSpotMode"@[0] != "StrobeDuration"@[0]);
            assert("FollowSpotMode"@[0] != "IrisPulseClose"@[0]);
            assert("FollowSpotMode"@[0] != "ColorModelMode"@[0]);
        },
        AttributeView::BeamEffectIndexRotateMode => {
            assert(a.name().len() == 25);
            assert("BeamEffectIndexRotateMode"@[0] != "StrobeModeRandomPulseOpen"@[0]);
        },
        AttributeView::IntensityMSpeed => {
            assert(a.name().len() == 15);
            assert("IntensityMSpeed"@[0] != "ColorRGB_Yellow"@[0]);
            assert("IntensityMSpeed"@[0] != "VideoSaturation"@[0]);
            assert("IntensityMSpeed"@[0] != "VideoBrightness"@[0]);
            assert("IntensityMSpeed"@[0] != "VideoKeyColor_R"@[0]);
            assert("IntensityMSpeed"@[0] != "VideoKeyColor_G"@[0]);
            assert("IntensityMSpeed"@[0] != "VideoKeyColor_B"@[0]);
            assert("IntensityMSpeed"@[0] != "StrobeFrequency"@[0]);
            assert("IntensityMSpeed"@[0] != "StrobeModePulse"@[0]);
            assert("IntensityMSpeed"@[0] != "BeamShaperMacro"@[0]);
            assert("IntensityMSpeed"@[0] != "ColorUniformity"@[0]);
        },
        AttributeView::PositionMSpeed => {
            assert(a.name().len() == 14);
            assert("PositionMSpeed"@[8] != "PositionEffect"@[8]);
            assert("PositionMSpeed"@[0] != "HSB_Saturation"@[0]);
            assert("PositionMSpeed"@[0] != "HSB_Brightness"@[0]);
            assert("PositionMSpeed"@[0] != "CIE_Brightness"@[0]);
            assert("PositionMSpeed"@[0] != "ColorRGB_Green"@[0]);
            assert("PositionMSpeed"@[0] != "StrobeDuration"@[0]);
            assert("PositionMSpeed"@[0] != "IrisPulseClose"@[0]);
            assert("PositionMSpeed"@[0] != "ColorModelMode"@[0]);
            assert("PositionMSpeed"@[0] != "FollowSpotMode"@[0]);
        },
        _ => {},
    }
}

/// The fixed names of part 8 of the table are read back as their attributes.
proof fn lemma_fixed_names_7(a: AttributeView)
    requires
        a is ColorMixMSpeed
        || a is ColorWheelSelectMSpeed
        || a is IrisMSpeed
        || a is FocusMSpeed
        || a is ZoomMSpeed
        || a is FrameMSpeed
        || a is GlobalMSpeed
        || a is ReflectorAdjust
        || a is FixtureGlobalReset
        || a is DimmerReset
        || a is ShutterReset
        || a is BeamReset
        || a is ColorMixReset
        || a is ColorWheelReset
        || a is FocusReset
        || a is FrameReset
        || a is GoboWheelReset
        || a is IntensityReset
        || a is IrisReset
        || a is PositionReset,
    ensures
        parse_fixed(a.name()) == Some(a),
{
    reveal_strlit("Dimmer");
    reveal_strlit("Pan");
    reveal_strlit("Tilt");
    reveal_strlit("PanRotate");
    reveal_strlit("TiltRotate");
    reveal_strlit("PositionEffect");
    reveal_strlit("PositionEffectRate");
    reveal_strlit("PositionEffectFade");
    reveal_strlit("XYZ_X");
    reveal_strlit("XYZ_Y");
    reveal_strlit("XYZ_Z");
    reveal_strlit("Rot_X");
    reveal_strlit("Rot_Y");
    reveal_strlit("Rot_Z");
    reveal_strlit("Scale_X");
    reveal_strlit("Scale_Y");
    reveal_strlit("Scale_Z");
    reveal_strlit("Scale_XYZ");
    reveal_strlit("PlayMode");
    reveal_strlit("PlayBegin");
    reveal_strlit("PlayEnd");
    reveal_strlit("PlaySpeed");
    reveal_strlit("ColorAdd_R");
    reveal_strlit("ColorAdd_G");
    reveal_strlit("ColorAdd_B");
    reveal_strlit("ColorAdd_C");
    reveal_strlit("ColorAdd_M");
    reveal_strlit("ColorAdd_Y");
    reveal_strlit("ColorAdd_RY");
    reveal_strlit("ColorAdd_GY");
    reveal_strlit("ColorAdd_GC");
    reveal_strlit("ColorAdd_BC");
    reveal_strlit("ColorAdd_BM");
    reveal_strlit("ColorAdd_RM");
    reveal_strlit("ColorAdd_W");
    reveal_strlit("ColorAdd_WW");
    reveal_strlit("ColorAdd_CW");
    reveal_strlit("ColorAdd_UV");
    reveal_strlit("ColorSub_R");
    reveal_strlit("ColorSub_G");
    reveal_strlit("ColorSub_B");
    reveal_strlit("ColorSub_C");
    reveal_strlit("ColorSub_M");
    reveal_strlit("ColorSub_Y");
    reveal_strlit("CTO");
    reveal_strlit("CTC");
    reveal_strlit("CTB");
    reveal_strlit("Tint");
    reveal_strlit("HSB_Hue");
    reveal_strlit("HSB_Saturation");
    reveal_strlit("HSB_Brightness");
    reveal_strlit("HSB_Quality");
    reveal_strlit("CIE_X");
    reveal_strlit("CIE_Y");
    reveal_strlit("CIE_Brightness");
    reveal_strlit("ColorRGB_Red");
    reveal_strlit("ColorRGB_Green");
    reveal_strlit("ColorRGB_Blue");
    reveal_strlit("ColorRGB_Cyan");
    reveal_strlit("ColorRGB_Magenta");
    reveal_strlit("ColorRGB_Yellow");
    reveal_strlit("ColorRGB_Quality");
    reveal_strlit("VideoBoost_R");
    reveal_strlit("VideoBoost_G");
    reveal_strlit("VideoBoost_B");
    reveal_strlit("VideoHueShift");
    reveal_strlit("VideoSaturation");
    reveal_strlit("VideoBrightness");
    reveal_strlit("VideoContrast");
    reveal_strlit("VideoKeyColor_R");
    reveal_strlit("VideoKeyColor_G");
    reveal_strlit("VideoKeyColor_B");
    reveal_strlit("VideoKeyIntensity");
    reveal_strlit("VideoKeyTolerance");
    reveal_strlit("StrobeDuration");
    reveal_strlit("StrobeRate");
    reveal_strlit("StrobeFrequency");
    reveal_strlit("StrobeModeShutter");
    reveal_strlit("StrobeModeStrobe");
    reveal_strlit("StrobeModePulse");
    reveal_strlit("StrobeModePulseOpen");
    reveal_strlit("StrobeModePulseClose");
    reveal_strlit("StrobeModeRandom");
    reveal_strlit("StrobeModeRandomPulse");
    reveal_strlit("StrobeModeRandomPulseOpen");
    reveal_strlit("StrobeModeRandomPulseClose");
    reveal_strlit("StrobeModeEffect");
    reveal_strlit("Iris");
    reveal_strlit("IrisStrobe");
    reveal_strlit("IrisStrobeRandom");
    reveal_strlit("IrisPulseClose");
    reveal_strlit("IrisPulseOpen");
    reveal_strlit("IrisRandomPulseClose");
    reveal_strlit("IrisRandomPulseOpen");
    reveal_strlit("EffectsSync");
    reveal_strlit("BeamShaper");
    reveal_strlit("BeamShaperMacro");
    reveal_strlit("BeamShaperPos");
    reveal_strlit("BeamShaperPosRotate");
    reveal_strlit("Zoom");
    reveal_strlit("ZoomModeSpot");
    reveal_strlit("ZoomModeBeam");
    reveal_strlit("DigitalZoom");
    reveal_strlit("DimmerMode");
    reveal_strlit("DimmerCurve");
    reveal_strlit("BlackoutMode");
    reveal_strlit("LEDFrequency");
    reveal_strlit("LEDZoneMode");
    reveal_strlit("PixelMode");
    reveal_strlit("PanMode");
    reveal_strlit("TiltMode");
    reveal_strlit("PanTiltMode");
    reveal_strlit("PositionModes");
    reveal_strlit("GoboWheelShortcutMode");
    reveal_strlit("AnimationWheelShortcutMode");
    reveal_strlit("ColorWheelShortcutMode");
    reveal_strlit("CyanMode");
    reveal_strlit("MagentaMode");
    reveal_strlit("YellowMode");
    reveal_strlit("ColorMixMode");
    reveal_strlit("ChromaticMode");
    reveal_strlit("ColorCalibrationMode");
    reveal_strlit("ColorConsistency");
    reveal_strlit("ColorControl");
    reveal_strlit("ColorModelMode");
    reveal_strlit("ColorSettingsReset");
    reveal_strlit("ColorUniformity");
    reveal_strlit("CRIMode");
    reveal_strlit("CustomColor");
    reveal_strlit("UVStability");
    reveal_strlit("WavelengthCorrection");
    reveal_strlit("WhiteCount");
    reveal_strlit("StrobeMode");
    reveal_strlit("ZoomMode");
    reveal_strlit("FocusMode");
    reveal_strlit("IrisMode");
    reveal_strlit("FollowSpotMode");
    reveal_strlit("BeamEffectIndexRotateMode");
    reveal_strlit("IntensityMSpeed");
    reveal_strlit("PositionMSpeed");
    reveal_strlit("ColorMixMSpeed");
    reveal_strlit("ColorWheelSelectMSpeed");
    reveal_strlit("IrisMSpeed");
    reveal_strlit("FocusMSpeed");
    reveal_strlit("ZoomMSpeed");
    reveal_strlit("FrameMSpeed");
    reveal_strlit("GlobalMSpeed");
    reveal_strlit("ReflectorAdjust");
    reveal_strlit("FixtureGlobalReset");
    reveal_strlit("DimmerReset");
    reveal_strlit("ShutterReset");
    reveal_strlit("BeamReset");
    reveal_strlit("ColorMixReset");
    reveal_strlit("ColorWheelReset");
    reveal_strlit("FocusReset");
    reveal_strlit("FrameReset");
    reveal_strlit("GoboWheelReset");
    reveal_strlit("IntensityReset");
    reveal_strlit("IrisReset");
    reveal_strlit("PositionReset");
    match a {
        AttributeView::ColorMixMSpeed => {
            assert(a.name().len() == 14);
            assert("ColorMixMSpeed"@[0] != "PositionEffect"@[0]);
            assert("ColorMixMSpeed"@[0] != "HSB_Saturation"@[0]);
            assert("ColorMixMSpeed"@[0] != "HSB_Brightness"@[0]);
            assert("ColorMixMSpeed"@[1] != "CIE_Brightness"@[1]);
            assert("ColorMixMSpeed"@[5] != "ColorRGB_Green"@[5]);
            assert("ColorMixMSpeed"@[0] != "StrobeDuration"@[0]);
            assert("ColorMixMSpeed"@[0] != "IrisPulseClose"@[0]);
            assert("ColorMixMSpeed"@[6] != "ColorModelMode"@[6]);
            assert("ColorMixMSpeed"@[0] != "FollowSpotMode"@[0]);
            assert("ColorMixMSpeed"@[0] != "PositionMSpeed"@[0]);
        },
        AttributeView::ColorWheelSelectMSpeed => {
            assert(a.name().len() == 22);
            assert("ColorWheelSelectMSpeed"@[11] != "ColorWheelShortcutMode"@[11]);
        },
        AttributeView::IrisMSpeed => {
            assert(a.name().len() == 10);
            assert("IrisMSpeed"@[0] != "TiltRotate"@[0]);
            assert("IrisMSpeed"@[0] != "ColorAdd_R"@[0]);
            assert("IrisMSpeed"@[0] != "ColorAdd_G"@[0]);
            assert("IrisMSpeed"@[0] != "ColorAdd_B"@[0]);
            assert("IrisMSpeed"@[0] != "ColorAdd_C"@[0]);
            assert("IrisMSpeed"@[0] != "ColorAdd_M"@[0]);
            assert("IrisMSpeed"@[0] != "ColorAdd_Y"@[0]);
            assert("IrisMSpeed"@[0] != "ColorAdd_W"@[0]);
            assert("IrisMSpeed"@[0] != "ColorSub_R"@[0]);
            assert("IrisMSpeed"@[0] != "ColorSub_G"@[0]);
            assert("IrisMSpeed"@[0] != "ColorSub_B"@[0]);
            assert("IrisMSpeed"@[0] != "ColorSub_C"@[0]);
            assert("IrisMSpeed"@[0] != "ColorSub_M"@[0]);
            assert("IrisMSpeed"@[0] != "ColorSub_Y"@[0]);
            assert("IrisMSpeed"@[0] != "StrobeRate"@[0]);
            assert("IrisMSpeed"@[4] != "IrisStrobe"@[4]);
            assert("IrisMSpeed"@[0] != "BeamShaper"@[0]);
            assert("IrisMSpeed"@[0] != "DimmerMode"@[0]);
            assert("IrisMSpeed"@[0] != "YellowMode"@[0]);
            assert("IrisMSpeed"@[0] != "WhiteCount"@[0]);
            assert("IrisMSpeed"@[0] != "StrobeMode"@[0]);
        },
        AttributeView::FocusMSpeed => {
            assert(a.name().len() == 11);
            assert("FocusMSpeed"@[0] != "ColorAdd_RY"@[0]);
            assert("FocusMSpeed"@[0] != "ColorAdd_GY"@[0]);
            assert("FocusMSpeed"@[0] != "ColorAdd_GC"@[0]);
            assert("FocusMSpeed"@[0] != "ColorAdd_BC"@[0]);
            assert("FocusMSpeed"@[0] != "ColorAdd_BM"@[0]);
            assert("FocusMSpeed"@[0] != "ColorAdd_RM"@[0]);
            assert("FocusMSpeed"@[0] != "ColorAdd_WW"@[0]);
            assert("FocusMSpeed"@[0] != "ColorAdd_CW"@[0]);
            assert("FocusMSpeed"@[0] != "ColorAdd_UV"@[0]);
            assert("FocusMSpeed"@[0] != "HSB_Quality"@[0]);
            assert("FocusMSpeed"@[0] != "EffectsSync"@[0]);
            assert("FocusMSpeed"@[0] != "DigitalZoom"@[0]);
            assert("FocusMSpeed"@[0] != "DimmerCurve"@[0]);
            assert("FocusMSpeed"@[0] != "LEDZoneMode"@[0]);
            assert("FocusMSpeed"@[0] != "PanTiltMode"@[0]);
            assert("FocusMSpeed"@[0] != "MagentaMode"@[0]);
            assert("FocusMSpeed"@[0] != "CustomColor"@[0]);
            assert("FocusMSpeed"@[0] != "UVStability"@[0]);
        },
        AttributeView::ZoomMSpeed => {
            assert(a.name().len() == 10);
            assert("ZoomMSpeed"@[0] != "TiltRotate"@[0]);
            assert("ZoomMSpeed"@[0] != "ColorAdd_R"@[0]);
            assert("ZoomMSpeed"@[0] != "ColorAdd_G"@[0]);
            assert("ZoomMSpeed"@[0] != "ColorAdd_B"@[0]);
            assert("ZoomMSpeed"@[0] != "ColorAdd_C"@[0]);
            assert("ZoomMSpeed"@[0] != "ColorAdd_M"@[0]);
            assert("ZoomMSpeed"@[0] != "ColorAdd_Y"@[0]);
            assert("ZoomMSpeed"@[0] != "ColorAdd_W"@[0]);
            assert("ZoomMSpeed"@[0] != "ColorSub_R"@[0]);
            assert("ZoomMSpeed"@[0] != "ColorSub_G"@[0]);
            assert("ZoomMSpeed"@[0] != "ColorSub_B"@[0]);
            assert("ZoomMSpeed"@[0] != "ColorSub_C"@[0]);
            assert("ZoomMSpeed"@[0] != "ColorSub_M"@[0]);
            assert("ZoomMSpeed"@[0] != "ColorSub_Y"@[0]);
            assert("ZoomMSpeed"@[0] != "StrobeRate"@[0]);
            assert("ZoomMSpeed"@[0] != "IrisStrobe"@[0]);
            assert("ZoomMSpeed"@[0] != "BeamShaper"@[0]);
            assert("ZoomMSpeed"@[0] != "DimmerMode"@[0]);
            assert("ZoomMSpeed"@[0] != "YellowMode"@[0]);
            assert("ZoomMSpeed"@[0] != "WhiteCount"@[0]);
            assert("ZoomMSpeed"@[0] != "StrobeMode"@[0]);
            assert("ZoomMSpeed"@[0] != "IrisMSpeed"@[0]);
        },
        AttributeView::FrameMSpeed => {
            assert(a.name().len() == 11);
            assert("FrameMSpeed"@[0] != "ColorAdd_RY"@[0]);
            assert("FrameMSpeed"@[0] != "ColorAdd_GY"@[0]);
            assert("FrameMSpeed"@[0] != "ColorAdd_GC"@[0]);
            assert("FrameMSpeed"@[0] != "ColorAdd_BC"@[0]);
            assert("FrameMSpeed"@[0] != "ColorAdd_BM"@[0]);
            assert("FrameMSpeed"@[0] != "ColorAdd_RM"@[0]);
            assert("FrameMSpeed"@[0] != "ColorAdd_WW"@[0]);
            assert("FrameMSpeed"@[0] != "ColorAdd_CW"@[0]);
            assert("FrameMSpeed"@[0] != "ColorAdd_UV"@[0]);
            assert("FrameMSpeed"@[0] != "HSB_Quality"@[0]);
            assert("FrameMSpeed"@[0] != "EffectsSync"@[0]);
            assert("FrameMSpeed"@[0] != "DigitalZoom"@[0]);
            assert("FrameMSpeed"@[0] != "DimmerCurve"@[0]);
            assert("FrameMSpeed"@[0] != "LEDZoneMode"@[0]);
            assert("FrameMSpeed"@[0] != "PanTiltMode"@[0]);
            assert("FrameMSpeed"@[0] != "MagentaMode"@[0]);
            assert("FrameMSpeed"@[0] != "CustomColor"@[0]);
            assert("FrameMSpeed"@[0] != "UVStability"@[0]);
            assert("FrameMSpeed"@[1] != "FocusMSpeed"@[1]);
        },
        AttributeView::GlobalMSpeed => {
            assert(a.name().len() == 12);
            assert("GlobalMSpeed"@[0] != "ColorRGB_Red"@[0]);
            assert("GlobalMSpeed"@[0] != "VideoBoost_R"@[0]);
            assert("GlobalMSpeed"@[0] != "VideoBoost_G"@[0]);
            assert("GlobalMSpeed"@[0] != "VideoBoost_B"@[0]);
            assert("GlobalMSpeed"@[0] != "ZoomModeSpot"@[0]);
            assert("GlobalMSpeed"@[0] != "ZoomModeBeam"@[0]);
            assert("GlobalMSpeed"@[0] != "BlackoutMode"@[0]);
            assert("GlobalMSpeed"@[0] != "LEDFrequency"@[0]);
            assert("GlobalMSpeed"@[0] != "ColorMixMode"@[0]);
            assert("GlobalMSpeed"@[0] != "ColorControl"@[0]);
        },
        AttributeView::ReflectorAdjust => {
            assert(a.name().len() == 15);
            assert("ReflectorAdjust"@[0] != "ColorRGB_Yellow"@[0]);
            assert("ReflectorAdjust"@[0] != "VideoSaturation"@[0]);
            assert("ReflectorAdjust"@[0] != "VideoBrightness"@[0]);
            assert("ReflectorAdjust"@[0] != "VideoKeyColor_R"@[0]);
            assert("ReflectorAdjust"@[0] != "VideoKeyColor_G"@[0]);
            assert("ReflectorAdjust"@[0] != "VideoKeyColor_B"@[0]);
            assert("ReflectorAdjust"@[0] != "StrobeFrequency"@[0]);
            assert("ReflectorAdjust"@[0] != "StrobeModePulse"@[0]);
            assert("ReflectorAdjust"@[0] != "BeamShaperMacro"@[0]);
            assert("ReflectorAdjust"@[0] != "ColorUniformity"@[0]);
            assert("ReflectorAdjust"@[0] != "IntensityMSpeed"@[0]);
        },
        AttributeView::FixtureGlobalReset => {
            assert(a.name().len() == 18);
            assert("FixtureGlobalReset"@[0] != "PositionEffectRate"@[0]);
            assert("FixtureGlobalReset"@[0] != "PositionEffectFade"@[0]);
            assert("FixtureGlobalReset"@[0] != "ColorSettingsReset"@[0]);
        },
        AttributeView::DimmerReset => {
            assert(a.name().len() == 11);
            assert("DimmerReset"@[0] != "ColorAdd_RY"@[0]);
            assert("DimmerReset"@[0] != "ColorAdd_GY"@[0]);
            assert("DimmerReset"@[0] != "ColorAdd_GC"@[0]);
            assert("DimmerReset"@[0] != "ColorAdd_BC"@[0]);
            assert("DimmerReset"@[0] != "ColorAdd_BM"@[0]);
            assert("DimmerReset"@[0] != "ColorAdd_RM"@[0]);
            assert("DimmerReset"@[0] != "ColorAdd_WW"@[0]);
            assert("DimmerReset"@[0] != "ColorAdd_CW"@[0]);
            assert("DimmerReset"@[0] != "ColorAdd_UV"@[0]);
            assert("DimmerReset"@[0] != "HSB_Quality"@[0]);
            assert("DimmerReset"@[0] != "EffectsSync"@[0]);
            assert("DimmerReset"@[2] != "DigitalZoom"@[2]);
            assert("DimmerReset"@[6] != "DimmerCurve"@[6]);
            assert("DimmerReset"@[0] != "LEDZoneMode"@[0]);
            assert("DimmerReset"@[0] != "PanTiltMode"@[0]);
            assert("DimmerReset"@[0] != "MagentaMode"@[0]);
            assert("DimmerReset"@[0] != "CustomColor"@[0]);
            assert("DimmerReset"@[0] != "UVStability"@[0]);
            assert("DimmerReset"@[0] != "FocusMSpeed"@[0]);
            assert("DimmerReset"@[0] != "FrameMSpeed"@[0]);
        },
        AttributeView::ShutterReset => {
            assert(a.name().len() == 12);
            assert("ShutterReset"@[0] != "ColorRGB_Red"@[0]);
            assert("ShutterReset"@[0] != "VideoBoost_R"@[0]);
            assert("ShutterReset"@[0] != "VideoBoost_G"@[0]);
            assert("ShutterReset"@[0] != "VideoBoost_B"@[0]);
            assert("ShutterReset"@[0] != "ZoomModeSpot"@[0]);
            assert("ShutterReset"@[0] != "ZoomModeBeam"@[0]);
            assert("ShutterReset"@[0] != "BlackoutMode"@[0]);
            assert("ShutterReset"@[0] != "LEDFrequency"@[0]);
            assert("ShutterReset"@[0] != "ColorMixMode"@[0]);
            assert("ShutterReset"@[0] != "ColorControl"@[0]);
            assert("ShutterReset"@[0] != "GlobalMSpeed"@[0]);
        },
        AttributeView::BeamReset => {
            assert(a.name().len() == 9);
            assert("BeamReset"@[0] != "PanRotate"@[0]);
            assert("BeamReset"@[0] != "Scale_XYZ"@[0]);
            assert("BeamReset"@[0] != "PlayBegin"@[0]);
            assert("BeamReset"@[0] != "PlaySpeed"@[0]);
            assert("BeamReset"@[0] != "PixelMode"@[0]);
            assert("BeamReset"@[0] != "FocusMode"@[0]);
        },
        AttributeView::ColorMixReset => {
            assert(a.name().len() == 13);
            assert("ColorMixReset"@[5] != "ColorRGB_Blue"@[5]);
            assert("ColorMixReset"@[5] != "ColorRGB_Cyan"@[5]);
            assert("ColorMixReset"@[0] != "VideoHueShift"@[0]);
            assert("ColorMixReset"@[0] != "VideoContrast"@[0]);
            assert("ColorMixReset"@[0] != "IrisPulseOpen"@[0]);
            assert("ColorMixReset"@[0] != "BeamShaperPos"@[0]);
            assert("ColorMixReset"@[0] != "PositionModes"@[0]);
            assert("ColorMixReset"@[1] != "ChromaticMode"@[1]);
        },
        AttributeView::ColorWheelReset => {
            assert(a.name().len() == 15);
            assert("ColorWheelReset"@[5] != "ColorRGB_Yellow"@[5]);
            assert("ColorWheelReset"@[0] != "VideoSaturation"@[0]);
            assert("ColorWheelReset"@[0] != "VideoBrightness"@[0]);
            assert("ColorWheelReset"@[0] != "VideoKeyColor_R"@[0]);
            assert("ColorWheelReset"@[0] != "VideoKeyColor_G"@[0]);
            assert("ColorWheelReset"@[0] != "VideoKeyColor_B"@[0]);
            assert("ColorWheelReset"@[0] != "StrobeFrequency"@[0]);
            assert("ColorWheelReset"@[0] != "StrobeModePulse"@[0]);
            assert("ColorWheelReset"@[0] != "BeamShaperMacro"@[0]);
            assert("ColorWheelReset"@[5] != "ColorUniformity"@[5]);
            assert("ColorWheelReset"@[0] != "IntensityMSpeed"@[0]);
            assert("ColorWheelReset"@[0] != "ReflectorAdjust"@[0]);
        },
        AttributeView::FocusReset => {
            assert(a.name().len() == 10);
            assert("FocusReset"@[0] != "TiltRotate"@[0]);
            assert("FocusReset"@[0] != "ColorAdd_R"@[0]);
            assert("FocusReset"@[0] != "ColorAdd_G"@[0]);
            assert("FocusReset"@[0] != "ColorAdd_B"@[0]);
            assert("FocusReset"@[0] != "ColorAdd_C"@[0]);
            assert("FocusReset"@[0] != "ColorAdd_M"@[0]);
            assert("FocusReset"@[0] != "ColorAdd_Y"@[0]);
            assert("FocusReset"@[0] != "ColorAdd_W"@[0]);
            assert("FocusReset"@[0] != "ColorSub_R"@[0]);
            assert("FocusReset"@[0] != "ColorSub_G"@[0]);
            assert("FocusReset"@[0] != "ColorSub_B"@[0]);
            assert("FocusReset"@[0] != "ColorSub_C"@[0]);
            assert("FocusReset"@[0] != "ColorSub_M"@[0]);
            assert("FocusReset"@[0] != "ColorSub_Y"@[0]);
            assert("FocusReset"@[0] != "StrobeRate"@[0]);
            assert("FocusReset"@[0] != "IrisStrobe"@[0]);
            assert("FocusReset"@[0] != "BeamShaper"@[0]);
            assert("FocusReset"@[0] != "DimmerMode"@[0]);
            assert("FocusReset"@[0] != "YellowMode"@[0]);
            assert("FocusReset"@[0] != "WhiteCount"@[0]);
            assert("FocusReset"@[0] != "StrobeMode"@[0]);
            assert("FocusReset"@[0] != "IrisMSpeed"@[0]);
            assert("FocusReset"@[0] != "ZoomMSpeed"@[0]);
        },
        AttributeView::FrameReset => {
            assert(a.name().len() == 10);
            assert("FrameReset"@[0] != "TiltRotate"@[0]);
            assert("FrameReset"@[0] != "ColorAdd_R"@[0]);
            assert("FrameReset"@[0] != "ColorAdd_G"@[0]);
            assert("FrameReset"@[0] != "ColorAdd_B"@[0]);
            assert("FrameReset"@[0] != "ColorAdd_C"@[0]);
            assert("FrameReset"@[0] != "ColorAdd_M"@[0]);
            assert("FrameReset"@[0] != "ColorAdd_Y"@[0]);
            assert("FrameReset"@[0] != "ColorAdd_W"@[0]);
            assert("FrameReset"@[0] != "ColorSub_R"@[0]);
            assert("FrameReset"@[0] != "ColorSub_G"@[0]);
            assert("FrameReset"@[0] != "ColorSub_B"@[0]);
            assert("FrameReset"@[0] != "ColorSub_C"@[0]);
            assert("FrameReset"@[0] != "ColorSub_M"@[0]);
            assert("FrameReset"@[0] != "ColorSub_Y"@[0]);
            assert("FrameReset"@[0] != "StrobeRate"@[0]);
            assert("FrameReset"@[0] != "IrisStrobe"@[0]);
            assert("FrameReset"@[0] != "BeamShaper"@[0]);
            assert("FrameReset"@[0] != "DimmerMode"@[0]);
            assert("FrameReset"@[0] != "YellowMode"@[0]);
            assert("FrameReset"@[0] != "WhiteCount"@[0]);
            assert("FrameReset"@[0] != "StrobeMode"@[0]);
            assert("FrameReset"@[0] != "IrisMSpeed"@[0]);
            assert("FrameReset"@[0] != "ZoomMSpeed"@[0]);
            assert("FrameReset"@[1] != "FocusReset"@[1]);
        },
        AttributeView::GoboWheelReset => {
            assert(a.name().len() == 14);
            assert("GoboWheelReset"@[0] != "PositionEffect"@[0]);
            assert("GoboWheelReset"@[0] != "HSB_Saturation"@[0]);
            assert("GoboWheelReset"@[0] != "HSB_Brightness"@[0]);
            assert("GoboWheelReset"@[0] != "CIE_Brightness"@[0]);
            assert("GoboWheelReset"@[0] != "ColorRGB_Green"@[0]);
            assert("GoboWheelReset"@[0] != "StrobeDuration"@[0]);
            assert("GoboWheelReset"@[0] != "IrisPulseClose"@[0]);
            assert("GoboWheelReset"@[0] != "ColorModelMode"@[0]);
            assert("GoboWheelReset"@[0] != "FollowSpotMode"@[0]);
            assert("GoboWheelReset"@[0] != "PositionMSpeed"@[0]);
            assert("GoboWheelReset"@[0] != "ColorMixMSpeed"@[0]);
        },
        AttributeView::IntensityReset => {
            assert(a.name().len() == 14);
            assert("IntensityReset"@[0] != "PositionEffect"@[0]);
            assert("IntensityReset"@[0] != "HSB_Saturation"@[0]);
            assert("IntensityReset"@[0] != "HSB_Brightness"@[0]);
            assert("IntensityReset"@[0] != "CIE_Brightness"@[0]);
            assert("IntensityReset"@[0] != "ColorRGB_Green"@[0]);
            assert("IntensityReset"@[0] != "StrobeDuration"@[0]);
            assert("IntensityReset"@[1] != "IrisPulseClose"@[1]);
            assert("IntensityReset"@[0] != "ColorModelMode"@[0]);
            assert("IntensityReset"@[0] != "FollowSpotMode"@[0]);
            assert("IntensityReset"@[0] != "PositionMSpeed"@[0]);
            assert("IntensityReset"@[0] != "ColorMixMSpeed"@[0]);
            assert("IntensityReset"@[0] != "GoboWheelReset"@[0]);
        },
        AttributeView::IrisReset => {
            assert(a.name().len() == 9);
            assert("IrisReset"@[0] != "PanRotate"@[0]);
            assert("IrisReset"@[0] != "Scale_XYZ"@[0]);
            assert("IrisReset"@[0] != "PlayBegin"@[0]);
            assert("IrisReset"@[0] != "PlaySpeed"@[0]);
            assert("IrisReset"@[0] != "PixelMode"@[0]);
            assert("IrisReset"@[0] != "FocusMode"@[0]);
            assert("IrisReset"@[0] != "BeamReset"@[0]);
        },
        AttributeView::PositionReset => {
            assert(a.name().len() == 13);
            assert("PositionReset"@[0] != "ColorRGB_Blue"@[0]);
            assert("PositionReset"@[0] != "ColorRGB_Cyan"@[0]);
            assert("PositionReset"@[0] != "VideoHueShift"@[0]);
            assert("PositionReset"@[0] != "VideoContrast"@[0]);
            assert("PositionReset"@[0] != "IrisPulseOpen"@[0]);
            assert("PositionReset"@[0] != "BeamShaperPos"@[0]);
            assert("PositionReset"@[8] != "PositionModes"@[8]);
            assert("PositionReset"@[0] != "ChromaticMode"@[0]);
            assert("PositionReset"@[0] != "ColorMixReset"@[0]);
        },
        _ => {},
    }
}

/// The fixed names of part 9 of the table are read back as their attributes.
proof fn lemma_fixed_names_8(a: AttributeView)
    requires
        a is PanReset
        || a is TiltReset
        || a is ZoomReset
        || a is CtbReset
        || a is CtoReset
        || a is CtcReset
        || a is AnimationSystemReset
        || a is FixtureCalibrationReset
        || a is Function
        || a is LampControl
        || a is DisplayIntensity
        || a is DmxInput
        || a is NoFeature
        || a is LampPowerMode
        || a is Fans
        || a is ShaperRot
        || a is ShaperMacros
        || a is ShaperMacrosSpeed
        || a is Video
        || a is VideoBlendMode,
    ensures
        parse_fixed(a.name()) == Some(a),
{
    reveal_strlit("Dimmer");
    reveal_strlit("Pan");
    reveal_strlit("Tilt");
    reveal_strlit("PanRotate");
    reveal_strlit("TiltRotate");
    reveal_strlit("PositionEffect");
    reveal_strlit("PositionEffectRate");
    reveal_strlit("PositionEffectFade");
    reveal_strlit("XYZ_X");
    reveal_strlit("XYZ_Y");
    reveal_strlit("XYZ_Z");
    reveal_strlit("Rot_X");
    reveal_strlit("Rot_Y");
    reveal_strlit("Rot_Z");
    reveal_strlit("Scale_X");
    reveal_strlit("Scale_Y");
    reveal_strlit("Scale_Z");
    reveal_strlit("Scale_XYZ");
    reveal_strlit("PlayMode");
    reveal_strlit("PlayBegin");
    reveal_strlit("PlayEnd");
    reveal_strlit("PlaySpeed");
    reveal_strlit("ColorAdd_R");
    reveal_strlit("ColorAdd_G");
    reveal_strlit("ColorAdd_B");
    reveal_strlit("ColorAdd_C");
    reveal_strlit("ColorAdd_M");
    reveal_strlit("ColorAdd_Y");
    reveal_strlit("ColorAdd_RY");
    reveal_strlit("ColorAdd_GY");
    reveal_strlit("ColorAdd_GC");
    reveal_strlit("ColorAdd_BC");
    reveal_strlit("ColorAdd_BM");
    reveal_strlit("ColorAdd_RM");
    reveal_strlit("ColorAdd_W");
    reveal_strlit("ColorAdd_WW");
    reveal_strlit("ColorAdd_CW");
    reveal_strlit("ColorAdd_UV");
    reveal_strlit("ColorSub_R");
    reveal_strlit("ColorSub_G");
    reveal_strlit("ColorSub_B");
    reveal_strlit("ColorSub_C");
    reveal_strlit("ColorSub_M");
    reveal_strlit("ColorSub_Y");
    reveal_strlit("CTO");
    reveal_strlit("CTC");
    reveal_strlit("CTB");
    reveal_strlit("Tint");
    reveal_strlit("HSB_Hue");
    reveal_strlit("HSB_Saturation");
    reveal_strlit("HSB_Brightness");
    reveal_strlit("HSB_Quality");
    reveal_strlit("CIE_X");
    reveal_strlit("CIE_Y");
    reveal_strlit("CIE_Brightness");
    reveal_strlit("ColorRGB_Red");
    reveal_strlit("ColorRGB_Green");
    reveal_strlit("ColorRGB_Blue");
    reveal_strlit("ColorRGB_Cyan");
    reveal_strlit("ColorRGB_Magenta");
    reveal_strlit("ColorRGB_Yellow");
    reveal_strlit("ColorRGB_Quality");
    reveal_strlit("VideoBoost_R");
    reveal_strlit("VideoBoost_G");
    reveal_strlit("VideoBoost_B");
    reveal_strlit("VideoHueShift");
    reveal_strlit("VideoSaturation");
    reveal_strlit("VideoBrightness");
    reveal_strlit("VideoContrast");
    reveal_strlit("VideoKeyColor_R");
    reveal_strlit("VideoKeyColor_G");
    reveal_strlit("VideoKeyColor_B");
    reveal_strlit("VideoKeyIntensity");
    reveal_strlit("VideoKeyTolerance");
    reveal_strlit("StrobeDuration");
    reveal_strlit("StrobeRate");
    reveal_strlit("StrobeFrequency");
    reveal_strlit("StrobeModeShutter");
    reveal_strlit("StrobeModeStrobe");
    reveal_strlit("StrobeModePulse");
    reveal_strlit("StrobeModePulseOpen");
    reveal_strlit("StrobeModePulseClose");
    reveal_strlit("StrobeModeRandom");
    reveal_strlit("StrobeModeRandomPulse");
    reveal_strlit("StrobeModeRandomPulseOpen");
    reveal_strlit("StrobeModeRandomPulseClose");
    reveal_strlit("StrobeModeEffect");
    reveal_strlit("Iris");
    reveal_strlit("IrisStrobe");
    reveal_strlit("IrisStrobeRandom");
    reveal_strlit("IrisPulseClose");
    reveal_strlit("IrisPulseOpen");
    reveal_strlit("IrisRandomPulseClose");
    reveal_strlit("IrisRandomPulseOpen");
    reveal_strlit("EffectsSync");
    reveal_strlit("BeamShaper");
    reveal_strlit("BeamShaperMacro");
    reveal_strlit("BeamShaperPos");
    reveal_strlit("BeamShaperPosRotate");
    reveal_strlit("Zoom");
    reveal_strlit("ZoomModeSpot");
    reveal_strlit("ZoomModeBeam");
    reveal_strlit("DigitalZoom");
    reveal_strlit("DimmerMode");
    reveal_strlit("DimmerCurve");
    reveal_strlit("BlackoutMode");
    reveal_strlit("LEDFrequency");
    reveal_strlit("LEDZoneMode");
    reveal_strlit("PixelMode");
    reveal_strlit("PanMode");
    reveal_strlit("TiltMode");
    reveal_strlit("PanTiltMode");
    reveal_strlit("PositionModes");
    reveal_strlit("GoboWheelShortcutMode");
    reveal_strlit("AnimationWheelShortcutMode");
    reveal_strlit("ColorWheelShortcutMode");
    reveal_strlit("CyanMode");
    reveal_strlit("MagentaMode");
    reveal_strlit("YellowMode");
    reveal_strlit("ColorMixMode");
    reveal_strlit("ChromaticMode");
    reveal_strlit("ColorCalibrationMode");
    reveal_strlit("ColorConsistency");
    reveal_strlit("ColorControl");
    reveal_strlit("ColorModelMode");
    reveal_strlit("ColorSettingsReset");
    reveal_strlit("ColorUniformity");
    reveal_strlit("CRIMode");
    reveal_strlit("CustomColor");
    reveal_strlit("UVStability");
    reveal_strlit("WavelengthCorrection");
    reveal_strlit("WhiteCount");
    reveal_strlit("StrobeMode");
    reveal_strlit("ZoomMode");
    reveal_strlit("FocusMode");
    reveal_strlit("IrisMode");
    reveal_strlit("FollowSpotMode");
    reveal_strlit("BeamEffectIndexRotateMode");
    reveal_strlit("IntensityMSpeed");
    reveal_strlit("PositionMSpeed");
    reveal_strlit("ColorMixMSpeed");
    reveal_strlit("ColorWheelSelectMSpeed");
    reveal_strlit("IrisMSpeed");
    reveal_strlit("FocusMSpeed");
    reveal_strlit("ZoomMSpeed");
    reveal_strlit("FrameMSpeed");
    reveal_strlit("GlobalMSpeed");
    reveal_strlit("ReflectorAdjust");
    reveal_strlit("FixtureGlobalReset");
    reveal_strlit("DimmerReset");
    reveal_strlit("ShutterReset");
    reveal_strlit("BeamReset");
    reveal_strlit("ColorMixReset");
    reveal_strlit("ColorWheelReset");
    reveal_strlit("FocusReset");
    reveal_strlit("FrameReset");
    reveal_strlit("GoboWheelReset");
    reveal_strlit("IntensityReset");
    reveal_strlit("IrisReset");
    reveal_strlit("PositionReset");
    reveal_strlit("PanReset");
    reveal_strlit("TiltReset");
    reveal_strlit("ZoomReset");
    reveal_strlit("CTBReset");
    reveal_strlit("CTOReset");
    reveal_strlit("CTCReset");
    reveal_strlit("AnimationSystemReset");
    reveal_strlit("FixtureCalibrationReset");
    reveal_strlit("Function");
    reveal_strlit("LampControl");
    reveal_strlit("DisplayIntensity");
    reveal_strlit("DMXInput");
    reveal_strlit("NoFeature");
    reveal_strlit("LampPowerMode");
    reveal_strlit("Fans");
    reveal_strlit("ShaperRot");
    reveal_strlit("ShaperMacros");
    reveal_strlit("ShaperMacrosSpeed");
    reveal_strlit("Video");
    reveal_strlit("VideoBlendMode");
    match a {
        AttributeView::PanReset => {
            assert(a.name().len() == 8);
            assert("PanReset"@[1] != "PlayMode"@[1]);
            assert("PanReset"@[0] != "TiltMode"@[0]);
            assert("PanReset"@[0] != "CyanMode"@[0]);
            assert("PanReset"@[0] != "ZoomMode"@[0]);
            assert("PanReset"@[0] != "IrisMode"@[0]);
        },
        AttributeView::TiltReset => {
            assert(a.name().len() == 9);
            assert("TiltReset"@[0] != "PanRotate"@[0]);
            assert("TiltReset"@[0] != "Scale_XYZ"@[0]);
            assert("TiltReset"@[0] != "PlayBegin"@[0]);
            assert("TiltReset"@[0] != "PlaySpeed"@[0]);
            assert("TiltReset"@[0] != "PixelMode"@[0]);
            assert("TiltReset"@[0] != "FocusMode"@[0]);
            assert("TiltReset"@[0] != "BeamReset"@[0]);
            assert("TiltReset"@[0] != "IrisReset"@[0]);
        },
        AttributeView::ZoomReset => {
            assert(a.name().len() == 9);
            assert("ZoomReset"@[0] != "PanRotate"@[0]);
            assert("ZoomReset"@[0] != "Scale_XYZ"@[0]);
            assert("ZoomReset"@[0] != "PlayBegin"@[0]);
            assert("ZoomReset"@[0] != "PlaySpeed"@[0]);
            assert("ZoomReset"@[0] != "PixelMode"@[0]);
            assert("ZoomReset"@[0] != "FocusMode"@[0]);
            assert("ZoomReset"@[0] != "BeamReset"@[0]);
            assert("ZoomReset"@[0] != "IrisReset"@[0]);
            assert("ZoomReset"@[0] != "TiltReset"@[0]);
        },
        AttributeView::CtbReset => {
            assert(a.name().len() == 8);
            assert("CTBReset"@[0] != "PlayMode"@[0]);
            assert("CTBReset"@[0] != "TiltMode"@[0]);
            assert("CTBReset"@[1] != "CyanMode"@[1]);
            assert("CTBReset"@[0] != "ZoomMode"@[0]);
            assert("CTBReset"@[0] != "IrisMode"@[0]);
            assert("CTBReset"@[0] != "PanReset"@[0]);
        },
        AttributeView::CtoReset => {
            assert(a.name().len() == 8);
            assert("CTOReset"@[0] != "PlayMode"@[0]);
            assert("CTOReset"@[0] != "TiltMode"@[0]);
            assert("CTOReset"@[1] != "CyanMode"@[1]);
            assert("CTOReset"@[0] != "ZoomMode"@[0]);
            assert("CTOReset"@[0] != "IrisMode"@[0]);
            assert("CTOReset"@[0] != "PanReset"@[0]);
            assert("CTOReset"@[2] != "CTBReset"@[2]);
        },
        AttributeView::CtcReset => {
            assert(a.name().len() == 8);
            assert("CTCReset"@[0] != "PlayMode"@[0]);
            assert("CTCReset"@[0] != "TiltMode"@[0]);
            assert("CTCReset"@[1] != "CyanMode"@[1]);
            assert("CTCReset"@[0] != "ZoomMode"@[0]);
            assert("CTCReset"@[0] != "IrisMode"@[0]);
            assert("CTCReset"@[0] != "PanReset"@[0]);
            assert("CTCReset"@[2] != "CTBReset"@[2]);
            assert("CTCReset"@[2] != "CTOReset"@[2]);
        },
        AttributeView::AnimationSystemReset => {
            assert(a.name().len() == 20);
            assert("AnimationSystemReset"@[0] != "StrobeModePulseClose"@[0]);
            assert("AnimationSystemReset"@[0] != "IrisRandomPulseClose"@[0]);
            assert("AnimationSystemReset"@[0] != "ColorCalibrationMode"@[0]);
            assert("AnimationSystemReset"@[0] != "WavelengthCorrection"@[0]);
        },
        AttributeView::FixtureCalibrationReset => {
            assert(a.name().len() == 23);
        },
        AttributeView::Function => {
            assert(a.name().len() == 8);
            assert("Function"@[0] != "PlayMode"@[0]);
            assert("Function"@[0] != "TiltMode"@[0]);
            assert("Function"@[0] != "CyanMode"@[0]);
            assert("Function"@[0] != "ZoomMode"@[0]);
            assert("Function"@[0] != "IrisMode"@[0]);
            assert("Function"@[0] != "PanReset"@[0]);
            assert("Function"@[0] != "CTBReset"@[0]);
            assert("Function"@[0] != "CTOReset"@[0]);
            assert("Function"@[0] != "CTCReset"@[0]);
        },
        AttributeView::LampControl => {
            assert(a.name().len() == 11);
            assert("LampControl"@[0] != "ColorAdd_RY"@[0]);
            assert("LampControl"@[0] != "ColorAdd_GY"@[0]);
            assert("LampControl"@[0] != "ColorAdd_GC"@[0]);
            assert("LampControl"@[0] != "ColorAdd_BC"@[0]);
            assert("LampControl"@[0] != "ColorAdd_BM"@[0]);
            assert("LampControl"@[0] != "ColorAdd_RM"@[0]);
            assert("LampControl"@[0] != "ColorAdd_WW"@[0]);
            assert("LampControl"@[0] != "ColorAdd_CW"@[0]);
            assert("LampControl"@[0] != "ColorAdd_UV"@[0]);
            assert("LampControl"@[0] != "HSB_Quality"@[0]);
            assert("LampControl"@[0] != "EffectsSync"@[0]);
            assert("LampControl"@[0] != "DigitalZoom"@[0]);
            assert("LampControl"@[0] != "DimmerCurve"@[0]);
            assert("LampControl"@[1] != "LEDZoneMode"@[1]);
            assert("LampControl"@[0] != "PanTiltMode"@[0]);
            assert("LampControl"@[0] != "MagentaMode"@[0]);
            assert("LampControl"@[0] != "CustomColor"@[0]);
            assert("LampControl"@[0] != "UVStability"@[0]);
            assert("LampControl"@[0] != "FocusMSpeed"@[0]);
            assert("LampControl"@[0] != "FrameMSpeed"@[0]);
            assert("LampControl"@[0] != "DimmerReset"@[0]);
        },
        AttributeView::DisplayIntensity => {
            assert(a.name().len() == 16);
            assert("DisplayIntensity"@[0] != "ColorRGB_Magenta"@[0]);
            assert("DisplayIntensity"@[0] != "ColorRGB_Quality"@[0]);
            assert("DisplayIntensity"@[0] != "StrobeModeStrobe"@[0]);
            assert("DisplayIntensity"@[0] != "StrobeModeRandom"@[0]);
            assert("DisplayIntensity"@[0] != "StrobeModeEffect"@[0]);
            assert("DisplayIntensity"@[0] != "IrisStrobeRandom"@[0]);
            assert("DisplayIntensity"@[0] != "ColorConsistency"@[0]);
        },
        AttributeView::DmxInput => {
            assert(a.name().len() == 8);
            assert("DMXInput"@[0] != "PlayMode"@[0]);
            assert("DMXInput"@[0] != "TiltMode"@[0]);
            assert("DMXInput"@[0] != "CyanMode"@[0]);
            assert("DMXInput"@[0] != "ZoomMode"@[0]);
            assert("DMXInput"@[0] != "IrisMode"@[0]);
            assert("DMXInput"@[0] != "PanReset"@[0]);
            assert("DMXInput"@[0] != "CTBReset"@[0]);
            assert("DMXInput"@[0] != "CTOReset"@[0]);
            assert("DMXInput"@[0] != "CTCReset"@[0]);
            assert("DMXInput"@[0] != "Function"@[0]);
        },
        AttributeView::NoFeature => {
            assert(a.name().len() == 9);
            assert("NoFeature"@[0] != "PanRotate"@[0]);
            assert("NoFeature"@[0] != "Scale_XYZ"@[0]);
            assert("NoFeature"@[0] != "PlayBegin"@[0]);
            assert("NoFeature"@[0] != "PlaySpeed"@[0]);
            assert("NoFeature"@[0] != "PixelMode"@[0]);
            assert("NoFeature"@[0] != "FocusMode"@[0]);
            assert("NoFeature"@[0] != "BeamReset"@[0]);
            assert("NoFeature"@[0] != "IrisReset"@[0]);
            assert("NoFeature"@[0] != "TiltReset"@[0]);
            assert("NoFeature"@[0] != "ZoomReset"@[0]);
        },
        AttributeView::LampPowerMode => {
            assert(a.name().len() == 13);
            assert("LampPowerMode"@[0] != "ColorRGB_Blue"@[0]);
            assert("LampPowerMode"@[0] != "ColorRGB_Cyan"@[0]);
            assert("LampPowerMode"@[0] != "VideoHueShift"@[0]);
            assert("LampPowerMode"@[0] != "VideoContrast"@[0]);
            assert("LampPowerMode"@[0] != "IrisPulseOpen"@[0]);
            assert("LampPowerMode"@[0] != "BeamShaperPos"@[0]);
            assert("LampPowerMode"@[0] != "PositionModes"@[0]);
            assert("LampPowerMode"@[0] != "ChromaticMode"@[0]);
            assert("LampPowerMode"@[0] != "ColorMixReset"@[0]);
            assert("LampPowerMode"@[0] != "PositionReset"@[0]);
        },
        AttributeView::Fans => {
            assert(a.name().len() == 4);
            assert("Fans"@[0] != "Tilt"@[0]);
            assert("Fans"@[0] != "Tint"@[0]);
            assert("Fans"@[0] != "Iris"@[0]);
            assert("Fans"@[0] != "Zoom"@[0]);
        },
        AttributeView::ShaperRot => {
            assert(a.name().len() == 9);
            assert("ShaperRot"@[0] != "PanRotate"@[0]);
            assert("ShaperRot"@[1] != "Scale_XYZ"@[1]);
            assert("ShaperRot"@[0] != "PlayBegin"@[0]);
            assert("ShaperRot"@[0] != "PlaySpeed"@[0]);
            assert("ShaperRot"@[0] != "PixelMode"@[0]);
            assert("ShaperRot"@[0] != "FocusMode"@[0]);
            assert("ShaperRot"@[0] != "BeamReset"@[0]);
            assert("ShaperRot"@[0] != "IrisReset"@[0]);
            assert("ShaperRot"@[0] != "TiltReset"@[0]);
            assert("ShaperRot"@[0] != "ZoomReset"@[0]);
            assert("ShaperRot"@[0] != "NoFeature"@[0]);
        },
        AttributeView::ShaperMacros => {
            assert(a.name().len() == 12);
            assert("ShaperMacros"@[0] != "ColorRGB_Red"@[0]);
            assert("ShaperMacros"@[0] != "VideoBoost_R"@[0]);
            assert("ShaperMacros"@[0] != "VideoBoost_G"@[0]);
            assert("ShaperMacros"@[0] != "VideoBoost_B"@[0]);
            assert("ShaperMacros"@[0] != "ZoomModeSpot"@[0]);
            assert("ShaperMacros"@[0] != "ZoomModeBeam"@[0]);
            assert("ShaperMacros"@[0] != "BlackoutMode"@[0]);
            assert("ShaperMacros"@[0] != "LEDFrequency"@[0]);
            assert("ShaperMacros"@[0] != "ColorMixMode"@[0]);
            assert("ShaperMacros"@[0] != "ColorControl"@[0]);
            assert("ShaperMacros"@[0] != "GlobalMSpeed"@[0]);
            assert("ShaperMacros"@[2] != "ShutterReset"@[2]);
        },
        AttributeView::ShaperMacrosSpeed => {
            assert(a.name().len() == 17);
            assert("ShaperMacrosSpeed"@[0] != "VideoKeyIntensity"@[0]);
            assert("ShaperMacrosSpeed"@[0] != "VideoKeyTolerance"@[0]);
            assert("ShaperMacrosSpeed"@[1] != "StrobeModeShutter"@[1]);
        },
        AttributeView::Video => {
            assert(a.name().len() == 5);
            assert("Video"@[0] != "XYZ_X"@[0]);
            assert("Video"@[0] != "XYZ_Y"@[0]);
            assert("Video"@[0] != "XYZ_Z"@[0]);
            assert("Video"@[0] != "Rot_X"@[0]);
            assert("Video"@[0] != "Rot_Y"@[0]);
            assert("Video"@[0] != "Rot_Z"@[0]);
            assert("Video"@[0] != "CIE_X"@[0]);
            assert("Video"@[0] != "CIE_Y"@[0]);
        },
        AttributeView::VideoBlendMode => {
            assert(a.name().len() == 14);
            assert("VideoBlendMode"@[0] != "PositionEffect"@[0]);
            assert("VideoBlendMode"@[0] != "HSB_Saturation"@[0]);
            assert("VideoBlendMode"@[0] != "HSB_Brightness"@[0]);
            assert("VideoBlendMode"@[0] != "CIE_Brightness"@[0]);
            assert("VideoBlendMode"@[0] != "ColorRGB_Green"@[0]);
            assert("VideoBlendMode"@[0] != "StrobeDuration"@[0]);
            assert("VideoBlendMode"@[0] != "IrisPulseClose"@[0]);
            assert("VideoBlendMode"@[0] != "ColorModelMode"@[0]);
            assert("VideoBlendMode"@[0] != "FollowSpotMode"@[0]);
            assert("VideoBlendMode"@[0] != "PositionMSpeed"@[0]);
            assert("VideoBlendMode"@[0] != "ColorMixMSpeed"@[0]);
            assert("VideoBlendMode"@[0] != "GoboWheelReset"@[0]);
            assert("VideoBlendMode"@[0] != "IntensityReset"@[0]);
        },
        _ => {},
    }
}

/// The fixed names of part 10 of the table are read back as their attributes.
proof fn lemma_fixed_names_9(a: AttributeView)
    requires
        a is InputSource
        || a is FieldOfView,
    ensures
        parse_fixed(a.name()) == Some(a),
{
    reveal_strlit("Dimmer");
    reveal_strlit("Pan");
    reveal_strlit("Tilt");
    reveal_strlit("PanRotate");
    reveal_strlit("TiltRotate");
    reveal_strlit("PositionEffect");
    reveal_strlit("PositionEffectRate");
    reveal_strlit("PositionEffectFade");
    reveal_strlit("XYZ_X");
    reveal_strlit("XYZ_Y");
    reveal_strlit("XYZ_Z");
    reveal_strlit("Rot_X");
    reveal_strlit("Rot_Y");
    reveal_strlit("Rot_Z");
    reveal_strlit("Scale_X");
    reveal_strlit("Scale_Y");
    reveal_strlit("Scale_Z");
    reveal_strlit("Scale_XYZ");
    reveal_strlit("PlayMode");
    reveal_strlit("PlayBegin");
    reveal_strlit("PlayEnd");
    reveal_strlit("PlaySpeed");
    reveal_strlit("ColorAdd_R");
    reveal_strlit("ColorAdd_G");
    reveal_strlit("ColorAdd_B");
    reveal_strlit("ColorAdd_C");
    reveal_strlit("ColorAdd_M");
    reveal_strlit("ColorAdd_Y");
    reveal_strlit("ColorAdd_RY");
    reveal_strlit("ColorAdd_GY");
    reveal_strlit("ColorAdd_GC");
    reveal_strlit("ColorAdd_BC");
    reveal_strlit("ColorAdd_BM");
    reveal_strlit("ColorAdd_RM");
    reveal_strlit("ColorAdd_W");
    reveal_strlit("ColorAdd_WW");
    reveal_strlit("ColorAdd_CW");
    reveal_strlit("ColorAdd_UV");
    reveal_strlit("ColorSub_R");
    reveal_strlit("ColorSub_G");
    reveal_strlit("ColorSub_B");
    reveal_strlit("ColorSub_C");
    reveal_strlit("ColorSub_M");
    reveal_strlit("ColorSub_Y");
    reveal_strlit("CTO");
    reveal_strlit("CTC");
    reveal_strlit("CTB");
    reveal_strlit("Tint");
    reveal_strlit("HSB_Hue");
    reveal_strlit("HSB_Saturation");
    reveal_strlit("HSB_Brightness");
    reveal_strlit("HSB_Quality");
    reveal_strlit("CIE_X");
    reveal_strlit("CIE_Y");
    reveal_strlit("CIE_Brightness");
    reveal_strlit("ColorRGB_Red");
    reveal_strlit("ColorRGB_Green");
    reveal_strlit("ColorRGB_Blue");
    reveal_strlit("ColorRGB_Cyan");
    reveal_strlit("ColorRGB_Magenta");
    reveal_strlit("ColorRGB_Yellow");
    reveal_strlit("ColorRGB_Quality");
    reveal_strlit("VideoBoost_R");
    reveal_strlit("VideoBoost_G");
    reveal_strlit("VideoBoost_B");
    reveal_strlit("VideoHueShift");
    reveal_strlit("VideoSaturation");
    reveal_strlit("VideoBrightness");
    reveal_strlit("VideoContrast");
    reveal_strlit("VideoKeyColor_R");
    reveal_strlit("VideoKeyColor_G");
    reveal_strlit("VideoKeyColor_B");
    reveal_strlit("VideoKeyIntensity");
    reveal_strlit("VideoKeyTolerance");
    reveal_strlit("StrobeDuration");
    reveal_strlit("StrobeRate");
    reveal_strlit("StrobeFrequency");
    reveal_strlit("StrobeModeShutter");
    reveal_strlit("StrobeModeStrobe");
    reveal_strlit("StrobeModePulse");
    reveal_strlit("StrobeModePulseOpen");
    reveal_strlit("StrobeModePulseClose");
    reveal_strlit("StrobeModeRandom");
    reveal_strlit("StrobeModeRandomPulse");
    reveal_strlit("StrobeModeRandomPulseOpen");
    reveal_strlit("StrobeModeRandomPulseClose");
    reveal_strlit("StrobeModeEffect");
    reveal_strlit("Iris");
    reveal_strlit("IrisStrobe");
    reveal_strlit("IrisStrobeRandom");
    reveal_strlit("IrisPulseClose");
    reveal_strlit("IrisPulseOpen");
    reveal_strlit("IrisRandomPulseClose");
    reveal_strlit("IrisRandomPulseOpen");
    reveal_strlit("EffectsSync");
    reveal_strlit("BeamShaper");
    reveal_strlit("BeamShaperMacro");
    reveal_strlit("BeamShaperPos");
    reveal_strlit("BeamShaperPosRotate");
    reveal_strlit("Zoom");
    reveal_strlit("ZoomModeSpot");
    reveal_strlit("ZoomModeBeam");
    reveal_strlit("DigitalZoom");
    reveal_strlit("DimmerMode");
    reveal_strlit("DimmerCurve");
    reveal_strlit("BlackoutMode");
    reveal_strlit("LEDFrequency");
    reveal_strlit("LEDZoneMode");
    reveal_strlit("PixelMode");
    reveal_strlit("PanMode");
    reveal_strlit("TiltMode");
    reveal_strlit("PanTiltMode");
    reveal_strlit("PositionModes");
    reveal_strlit("GoboWheelShortcutMode");
    reveal_strlit("AnimationWheelShortcutMode");
    reveal_strlit("ColorWheelShortcutMode");
    reveal_strlit("CyanMode");
    reveal_strlit("MagentaMode");
    reveal_strlit("YellowMode");
    reveal_strlit("ColorMixMode");
    reveal_strlit("ChromaticMode");
    reveal_strlit("ColorCalibrationMode");
    reveal_strlit("ColorConsistency");
    reveal_strlit("ColorControl");
    reveal_strlit("ColorModelMode");
    reveal_strlit("ColorSettingsReset");
    reveal_strlit("ColorUniformity");
    reveal_strlit("CRIMode");
    reveal_strlit("CustomColor");
    reveal_strlit("UVStability");
    reveal_strlit("WavelengthCorrection");
    reveal_strlit("WhiteCount");
    reveal_strlit("StrobeMode");
    reveal_strlit("ZoomMode");
    reveal_strlit("FocusMode");
    reveal_strlit("IrisMode");
    reveal_strlit("FollowSpotMode");
    reveal_strlit("BeamEffectIndexRotateMode");
    reveal_strlit("IntensityMSpeed");
    reveal_strlit("PositionMSpeed");
    reveal_strlit("ColorMixMSpeed");
    reveal_strlit("ColorWheelSelectMSpeed");
    reveal_strlit("IrisMSpeed");
    reveal_strlit("FocusMSpeed");
    reveal_strlit("ZoomMSpeed");
    reveal_strlit("FrameMSpeed");
    reveal_strlit("GlobalMSpeed");
    reveal_strlit("ReflectorAdjust");
    reveal_strlit("FixtureGlobalReset");
    reveal_strlit("DimmerReset");
    reveal_strlit("ShutterReset");
    reveal_strlit("BeamReset");
    reveal_strlit("ColorMixReset");
    reveal_strlit("ColorWheelReset");
    reveal_strlit("FocusReset");
    reveal_strlit("FrameReset");
    reveal_strlit("GoboWheelReset");
    reveal_strlit("IntensityReset");
    reveal_strlit("IrisReset");
    reveal_strlit("PositionReset");
    reveal_strlit("PanReset");
    reveal_strlit("TiltReset");
    reveal_strlit("ZoomReset");
    reveal_strlit("CTBReset");
    reveal_strlit("CTOReset");
    reveal_strlit("CTCReset");
    reveal_strlit("AnimationSystemReset");
    reveal_strlit("FixtureCalibrationReset");
    reveal_strlit("Function");
    reveal_strlit("LampControl");
    reveal_strlit("DisplayIntensity");
    reveal_strlit("DMXInput");
    reveal_strlit("NoFeature");
    reveal_strlit("LampPowerMode");
    reveal_strlit("Fans");
    reveal_strlit("ShaperRot");
    reveal_strlit("ShaperMacros");
    reveal_strlit("ShaperMacrosSpeed");
    reveal_strlit("Video");
    reveal_strlit("VideoBlendMode");
    reveal_strlit("InputSource");
    reveal_strlit("FieldOfView");
    match a {
        AttributeView::InputSource => {
            assert(a.name().len() == 11);
            assert("InputSource"@[0] != "ColorAdd_RY"@[0]);
            assert("InputSource"@[0] != "ColorAdd_GY"@[0]);
            assert("InputSource"@[0] != "ColorAdd_GC"@[0]);
            assert("InputSource"@[0] != "ColorAdd_BC"@[0]);
            assert("InputSource"@[0] != "ColorAdd_BM"@[0]);
            assert("InputSource"@[0] != "ColorAdd_RM"@[0]);
            assert("InputSource"@[0] != "ColorAdd_WW"@[0]);
            assert("InputSource"@[0] != "ColorAdd_CW"@[0]);
            assert("InputSource"@[0] != "ColorAdd_UV"@[0]);
            assert("InputSource"@[0] != "HSB_Quality"@[0]);
            assert("InputSource"@[0] != "EffectsSync"@[0]);
            assert("InputSource"@[0] != "DigitalZoom"@[0]);
            assert("InputSource"@[0] != "DimmerCurve"@[0]);
            assert("InputSource"@[0] != "LEDZoneMode"@[0]);
            assert("InputSource"@[0] != "PanTiltMode"@[0]);
            assert("InputSource"@[0] != "MagentaMode"@[0]);
            assert("InputSource"@[0] != "CustomColor"@[0]);
            assert("InputSource"@[0] != "UVStability"@[0]);
            assert("InputSource"@[0] != "FocusMSpeed"@[0]);
            assert("InputSource"@[0] != "FrameMSpeed"@[0]);
            assert("InputSource"@[0] != "DimmerReset"@[0]);
            assert("InputSource"@[0] != "LampControl"@[0]);
        },
        AttributeView::FieldOfView => {
            assert(a.name().len() == 11);
            assert("FieldOfView"@[0] != "ColorAdd_RY"@[0]);
            assert("FieldOfView"@[0] != "ColorAdd_GY"@[0]);
            assert("FieldOfView"@[0] != "ColorAdd_GC"@[0]);
            assert("FieldOfView"@[0] != "ColorAdd_BC"@[0]);
            assert("FieldOfView"@[0] != "ColorAdd_BM"@[0]);
            assert("FieldOfView"@[0] != "ColorAdd_RM"@[0]);
            assert("FieldOfView"@[0] != "ColorAdd_WW"@[0]);
            assert("FieldOfView"@[0] != "ColorAdd_CW"@[0]);
            assert("FieldOfView"@[0] != "ColorAdd_UV"@[0]);
            assert("FieldOfView"@[0] != "HSB_Quality"@[0]);
            assert("FieldOfView"@[0] != "EffectsSync"@[0]);
            assert("FieldOfView"@[0] != "DigitalZoom"@[0]);
            assert("FieldOfView"@[0] != "DimmerCurve"@[0]);
            assert("FieldOfView"@[0] != "LEDZoneMode"@[0]);
            assert("FieldOfView"@[0] != "PanTiltMode"@[0]);
            assert("FieldOfView"@[0] != "MagentaMode"@[0]);
            assert("FieldOfView"@[0] != "CustomColor"@[0]);
            assert("FieldOfView"@[0] != "UVStability"@[0]);
            assert("FieldOfView"@[1] != "FocusMSpeed"@[1]);
            assert("FieldOfView"@[1] != "FrameMSpeed"@[1]);
            assert("FieldOfView"@[0] != "DimmerReset"@[0]);
            assert("FieldOfView"@[0] != "LampControl"@[0]);
            assert("FieldOfView"@[0] != "InputSource"@[0]);
        },
        _ => {},
    }
}

/// The name of `Gobo` is read back as `Gobo`.
proof fn lemma_numbered_name_gobo(n: u8)
    ensures
        AttributeView::parse(AttributeView::Gobo(n).name()) == AttributeView::Gobo(n),
{
    let s = AttributeView::Gobo(n).name();
    lemma_dec(n);
    reveal_strlit("Gobo");
    assert(s[4] == dec(n)[0]);
    lemma_fixed_rejects_digit(s, 4);
    lemma_extract_n_of("Gobo"@, n);
}

/// The name of `GoboSelectSpin` is read back as `GoboSelectSpin`.
proof fn lemma_numbered_name_gobo_select_spin(n: u8)
    ensures
        AttributeView::parse(AttributeView::GoboSelectSpin(n).name()) == AttributeView::GoboSelectSpin(n),
{
    let s = AttributeView::GoboSelectSpin(n).name();
    lemma_dec(n);
    reveal_strlit("Gobo");
    reveal_strlit("SelectSpin");
    assert(s[4] == dec(n)[0]);
    lemma_fixed_rejects_digit(s, 4);
    lemma_extract_n_then_letter("Gobo"@, n, "SelectSpin"@);
    lemma_extract_n_suffix_of("Gobo"@, n, "SelectSpin"@);
}

/// The name of `GoboSelectShake` is read back as `GoboSelectShake`.
proof fn lemma_numbered_name_gobo_select_shake(n: u8)
    ensures
        AttributeView::parse(AttributeView::GoboSelectShake(n).name()) == AttributeView::GoboSelectShake(n),
{
    let s = AttributeView::GoboSelectShake(n).name();
    lemma_dec(n);
    reveal_strlit("Gobo");
    reveal_strlit("SelectShake");
    reveal_strlit("SelectSpin");
    assert(s[4] == dec(n)[0]);
    lemma_fixed_rejects_digit(s, 4);
    lemma_extract_n_then_letter("Gobo"@, n, "SelectShake"@);
    lemma_no_suffix_at(s, "Gobo"@, "SelectSpin"@, 0);
    lemma_extract_n_suffix_of("Gobo"@, n, "SelectShake"@);
}

/// The name of `GoboSelectEffects` is read back as `GoboSelectEffects`.
proof fn lemma_numbered_name_gobo_select_effects(n: u8)
    ensures
        AttributeView::parse(AttributeView::GoboSelectEffects(n).name()) == AttributeView::GoboSelectEffects(n),
{
    let s = AttributeView::GoboSelectEffects(n).name();
    lemma_dec(n);
    reveal_strlit("Gobo");
    reveal_strlit("SelectEffects");
    reveal_strlit("SelectShake");
    reveal_strlit("SelectSpin");
    assert(s[4] == dec(n)[0]);
    lemma_fixed_rejects_digit(s, 4);
    lemma_extract_n_then_letter("Gobo"@, n, "SelectEffects"@);
    lemma_no_suffix_at(s, "Gobo"@, "SelectSpin"@, 0);
    lemma_no_suffix_at(s, "Gobo"@, "SelectShake"@, 0);
    lemma_extract_n_suffix_of("Gobo"@, n, "SelectEffects"@);
}

/// The name of `GoboWheelIndex` is read back as `GoboWheelIndex`.
proof fn lemma_numbered_name_gobo_wheel_index(n: u8)
    ensures
        AttributeView::parse(AttributeView::GoboWheelIndex(n).name()) == AttributeView::GoboWheelIndex(n),
{
    let s = AttributeView::GoboWheelIndex(n).name();
    lemma_dec(n);
    reveal_strlit("Gobo");
    reveal_strlit("SelectEffects");
    reveal_strlit("SelectShake");
    reveal_strlit("SelectSpin");
    reveal_strlit("WheelIndex");
    assert(s[4] == dec(n)[0]);
    lemma_fixed_rejects_digit(s, 4);
    lemma_extract_n_then_letter("Gobo"@, n, "WheelIndex"@);
    lemma_no_suffix_at(s, "Gobo"@, "SelectSpin"@, 0);
    lemma_no_suffix_at(s, "Gobo"@, "SelectShake"@, 0);
    lemma_no_suffix_at(s, "Gobo"@, "SelectEffects"@, 2);
    lemma_extract_n_suffix_of("Gobo"@, n, "WheelIndex"@);
}

/// The name of `GoboWheelSpin` is read back as `GoboWheelSpin`.
proof fn lemma_numbered_name_gobo_wheel_spin(n: u8)
    ensures
        AttributeView::parse(AttributeView::GoboWheelSpin(n).name()) == AttributeView::GoboWheelSpin(n),
{
    let s = AttributeView::GoboWheelSpin(n).name();
    lemma_dec(n);
    reveal_strlit("Gobo");
    reveal_strlit("SelectEffects");
    reveal_strlit("SelectShake");
    reveal_strlit("SelectSpin");
    reveal_strlit("WheelIndex");
    reveal_strlit("WheelSpin");
    assert(s[4] == dec(n)[0]);
    lemma_fixed_rejects_digit(s, 4);
    lemma_extract_n_then_letter("Gobo"@, n, "WheelSpin"@);
    lemma_no_suffix_at(s, "Gobo"@, "SelectSpin"@, 0);
    lemma_no_suffix_at(s, "Gobo"@, "SelectShake"@, 1);
    lemma_no_suffix_at(s, "Gobo"@, "SelectEffects"@, 3);
    lemma_no_suffix_at(s, "Gobo"@, "WheelIndex"@, 0);
    lemma_extract_n_suffix_of("Gobo"@, n, "WheelSpin"@);
}

/// The name of `GoboWheelShake` is read back as `GoboWheelShake`.
proof fn lemma_numbered_name_gobo_wheel_shake(n: u8)
    ensures
        AttributeView::parse(AttributeView::GoboWheelShake(n).name()) == AttributeView::GoboWheelShake(n),
{
    let s = AttributeView::GoboWheelShake(n).name();
    lemma_dec(n);
    reveal_strlit("Gobo");
    reveal_strlit("SelectEffects");
    reveal_strlit("SelectShake");
    reveal_strlit("SelectSpin");
    reveal_strlit("WheelIndex");
    reveal_strlit("WheelShake");
    reveal_strlit("WheelSpin");
    assert(s[4] == dec(n)[0]);
    lemma_fixed_rejects_digit(s, 4);
    lemma_extract_n_then_letter("Gobo"@, n, "WheelShake"@);
    lemma_no_suffix_at(s, "Gobo"@, "SelectSpin"@, 0);
    lemma_no_suffix_at(s, "Gobo"@, "SelectShake"@, 0);
    lemma_no_suffix_at(s, "Gobo"@, "SelectEffects"@, 2);
    lemma_no_suffix_at(s, "Gobo"@, "WheelIndex"@, 5);
    lemma_no_suffix_at(s, "Gobo"@, "WheelSpin"@, 0);
    lemma_extract_n_suffix_of("Gobo"@, n, "WheelShake"@);
}

/// The name of `GoboWheelRandom` is read back as `GoboWheelRandom`.
proof fn lemma_numbered_name_gobo_wheel_random(n: u8)
    ensures
        AttributeView::parse(AttributeView::GoboWheelRandom(n).name()) == AttributeView::GoboWheelRandom(n),
{
    let s = AttributeView::GoboWheelRandom(n).name();
    lemma_dec(n);
    reveal_strlit("Gobo");
    reveal_strlit("SelectEffects");
    reveal_strlit("SelectShake");
    reveal_strlit("SelectSpin");
    reveal_strlit("WheelIndex");
    reveal_strlit("WheelRandom");
    reveal_strlit("WheelShake");
    reveal_strlit("WheelSpin");
    assert(s[4] == dec(n)[0]);
    lemma_fixed_rejects_digit(s, 4);
    lemma_extract_n_then_letter("Gobo"@, n, "WheelRandom"@);
    lemma_no_suffix_at(s, "Gobo"@, "SelectSpin"@, 0);
    lemma_no_suffix_at(s, "Gobo"@, "SelectShake"@, 0);
    lemma_no_suffix_at(s, "Gobo"@, "SelectEffects"@, 1);
    lemma_no_suffix_at(s, "Gobo"@, "WheelIndex"@, 0);
    lemma_no_suffix_at(s, "Gobo"@, "WheelSpin"@, 0);
    lemma_no_suffix_at(s, "Gobo"@, "WheelShake"@, 0);
    lemma_extract_n_suffix_of("Gobo"@, n, "WheelRandom"@);
}

/// The name of `GoboWheelAudio` is read back as `GoboWheelAudio`.
proof fn lemma_numbered_name_gobo_wheel_audio(n: u8)
    ensures
        AttributeView::parse(AttributeView::GoboWheelAudio(n).name()) == AttributeView::GoboWheelAudio(n),
{
    let s = AttributeView::GoboWheelAudio(n).name();
    lemma_dec(n);
    reveal_strlit("Gobo");
    reveal_strlit("SelectEffects");
    reveal_strlit("SelectShake");
    reveal_strlit("SelectSpin");
    reveal_strlit("WheelAudio");
    reveal_strlit("WheelIndex");
    reveal_strlit("WheelRandom");
    reveal_strlit("WheelShake");
    reveal_strlit("WheelSpin");
    assert(s[4] == dec(n)[0]);
    lemma_fixed_rejects_digit(s, 4);
    lemma_extract_n_then_letter("Gobo"@, n, "WheelAudio"@);
    lemma_no_suffix_at(s, "Gobo"@, "SelectSpin"@, 0);
    lemma_no_suffix_at(s, "Gobo"@, "SelectShake"@, 0);
    lemma_no_suffix_at(s, "Gobo"@, "SelectEffects"@, 2);
    lemma_no_suffix_at(s, "Gobo"@, "WheelIndex"@, 5);
    lemma_no_suffix_at(s, "Gobo"@, "WheelSpin"@, 0);
    lemma_no_suffix_at(s, "Gobo"@, "WheelShake"@, 5);
    lemma_no_suffix_at(s, "Gobo"@, "WheelRandom"@, 0);
    lemma_extract_n_suffix_of("Gobo"@, n, "WheelAudio"@);
}

/// The name of `GoboPos` is read back as `GoboPos`.
proof fn lemma_numbered_name_gobo_pos(n: u8)
    ensures
        AttributeView::parse(AttributeView::GoboPos(n).name()) == AttributeView::GoboPos(n),
{
    let s = AttributeView::GoboPos(n).name();
    lemma_dec(n);
    reveal_strlit("Gobo");
    reveal_strlit("Pos");
    reveal_strlit("SelectEffects");
    reveal_strlit("SelectShake");
    reveal_strlit("SelectSpin");
    reveal_strlit("WheelAudio");
    reveal_strlit("WheelIndex");
    reveal_strlit("WheelRandom");
    reveal_strlit("WheelShake");
    reveal_strlit("WheelSpin");
    assert(s[4] == dec(n)[0]);
    lemma_fixed_rejects_digit(s, 4);
    lemma_extract_n_then_letter("Gobo"@, n, "Pos"@);
    lemma_no_suffix_at(s, "Gobo"@, "SelectSpin"@, 6);
    lemma_no_suffix_at(s, "Gobo"@, "SelectShake"@, 7);
    lemma_no_suffix_at(s, "Gobo"@, "SelectEffects"@, 9);
    lemma_no_suffix_at(s, "Gobo"@, "WheelIndex"@, 6);
    lemma_no_suffix_at(s, "Gobo"@, "WheelSpin"@, 5);
    lemma_no_suffix_at(s, "Gobo"@, "WheelShake"@, 6);
    lemma_no_suffix_at(s, "Gobo"@, "WheelRandom"@, 7);
    lemma_no_suffix_at(s, "Gobo"@, "WheelAudio"@, 6);
    lemma_extract_n_suffix_of("Gobo"@, n, "Pos"@);
}

/// The name of `GoboPosRotate` is read back as `GoboPosRotate`.
proof fn lemma_numbered_name_gobo_pos_rotate(n: u8)
    ensures
        AttributeView::parse(AttributeView::GoboPosRotate(n).name()) == AttributeView::GoboPosRotate(n),
{
    let s = AttributeView::GoboPosRotate(n).name();
    lemma_dec(n);
    reveal_strlit("Gobo");
    reveal_strlit("Pos");
    reveal_strlit("PosRotate");
    reveal_strlit("SelectEffects");
    reveal_strlit("SelectShake");
    reveal_strlit("SelectSpin");
    reveal_strlit("WheelAudio");
    reveal_strlit("WheelIndex");
    reveal_strlit("WheelRandom");
    reveal_strlit("WheelShake");
    reveal_strlit("WheelSpin");
    assert(s[4] == dec(n)[0]);
    lemma_fixed_rejects_digit(s, 4);
    lemma_extract_n_then_letter("Gobo"@, n, "PosRotate"@);
    lemma_no_suffix_at(s, "Gobo"@, "SelectSpin"@, 0);
    lemma_no_suffix_at(s, "Gobo"@, "SelectShake"@, 1);
    lemma_no_suffix_at(s, "Gobo"@, "SelectEffects"@, 3);
    lemma_no_suffix_at(s, "Gobo"@, "WheelIndex"@, 0);
    lemma_no_suffix_at(s, "Gobo"@, "WheelSpin"@, 0);
    lemma_no_suffix_at(s, "Gobo"@, "WheelShake"@, 0);
    lemma_no_suffix_at(s, "Gobo"@, "WheelRandom"@, 1);
    lemma_no_suffix_at(s, "Gobo"@, "WheelAudio"@, 0);
    lemma_no_suffix_at(s, "Gobo"@, "Pos"@, 0);
    lemma_extract_n_suffix_of("Gobo"@, n, "PosRotate"@);
}

/// The name of `GoboPosShake` is read back as `GoboPosShake`.
proof fn lemma_numbered_name_gobo_pos_shake(n: u8)
    ensures
        AttributeView::parse(AttributeView::GoboPosShake(n).name()) == AttributeView::GoboPosShake(n),
{
    let s = AttributeView::GoboPosShake(n).name();
    lemma_dec(n);
    reveal_strlit("Gobo");
    reveal_strlit("Pos");
    reveal_strlit("PosRotate");
    reveal_strlit("PosShake");
    reveal_strlit("SelectEffects");
    reveal_strlit("SelectShake");
    reveal_strlit("SelectSpin");
    reveal_strlit("WheelAudio");
    reveal_strlit("WheelIndex");
    reveal_strlit("WheelRandom");
    reveal_strlit("WheelShake");
    reveal_strlit("WheelSpin");
    assert(s[4] == dec(n)[0]);
    lemma_fixed_rejects_digit(s, 4);
    lemma_extract_n_then_letter("Gobo"@, n, "PosShake"@);
    lemma_no_suffix_at(s, "Gobo"@, "SelectSpin"@, 1);
    lemma_no_suffix_at(s, "Gobo"@, "SelectShake"@, 2);
    lemma_no_suffix_at(s, "Gobo"@, "SelectEffects"@, 4);
    lemma_no_suffix_at(s, "Gobo"@, "WheelIndex"@, 1);
    lemma_no_suffix_at(s, "Gobo"@, "WheelSpin"@, 0);
    lemma_no_suffix_at(s, "Gobo"@, "WheelShake"@, 1);
    lemma_no_suffix_at(s, "Gobo"@, "WheelRandom"@, 2);
    lemma_no_suffix_at(s, "Gobo"@, "WheelAudio"@, 1);
    lemma_no_suffix_at(s, "Gobo"@, "Pos"@, 0);
    lemma_no_suffix_at(s, "Gobo"@, "PosRotate"@, 0);
    lemma_extract_n_suffix_of("Gobo"@, n, "PosShake"@);
}

/// The name of `AnimationWheel` is read back as `AnimationWheel`.
proof fn lemma_numbered_name_animation_wheel(n: u8)
    ensures
        AttributeView::parse(AttributeView::AnimationWheel(n).name()) == AttributeView::AnimationWheel(n),
{
    let s = AttributeView::AnimationWheel(n).name();
    lemma_dec(n);
    reveal_strlit("AnimationWheel");
    reveal_strlit("Gobo");
    assert(s[14] == dec(n)[0]);
    lemma_fixed_rejects_digit(s, 14);
    lemma_no_prefix_at(s, "Gobo"@, 0);
    lemma_no_prefix_at(s, "Gobo"@, 0);
    lemma_no_prefix_at(s, "Gobo"@, 0);
    lemma_no_prefix_at(s, "Gobo"@, 0);
    lemma_no_prefix_at(s, "Gobo"@, 0);
    lemma_no_prefix_at(s, "Gobo"@, 0);
    lemma_no_prefix_at(s, "Gobo"@, 0);
    lemma_no_prefix_at(s, "Gobo"@, 0);
    lemma_no_prefix_at(s, "Gobo"@, 0);
    lemma_no_prefix_at(s, "Gobo"@, 0);
    lemma_no_prefix_at(s, "Gobo"@, 0);
    lemma_no_prefix_at(s, "Gobo"@, 0);
    lemma_extract_n_of("AnimationWheel"@, n);
}

/// The name of `AnimationWheelAudio` is read back as `AnimationWheelAudio`.
proof fn lemma_numbered_name_animation_wheel_audio(n: u8)
    ensures
        AttributeView::parse(AttributeView::AnimationWheelAudio(n).name()) == AttributeView::AnimationWheelAudio(n),
{
    let s = AttributeView::AnimationWheelAudio(n).name();
    lemma_dec(n);
    reveal_strlit("AnimationWheel");
    reveal_strlit("Audio");
    reveal_strlit("Gobo");
    assert(s[14] == dec(n)[0]);
    lemma_fixed_rejects_digit(s, 14);
    lemma_no_prefix_at(s, "Gobo"@, 0);
    lemma_no_prefix_at(s, "Gobo"@, 0);
    lemma_no_prefix_at(s, "Gobo"@, 0);
    lemma_no_prefix_at(s, "Gobo"@, 0);
    lemma_no_prefix_at(s, "Gobo"@, 0);
    lemma_no_prefix_at(s, "Gobo"@, 0);
    lemma_no_prefix_at(s, "Gobo"@, 0);
    lemma_no_prefix_at(s, "Gobo"@, 0);
    lemma_no_prefix_at(s, "Gobo"@, 0);
    lemma_no_prefix_at(s, "Gobo"@, 0);
    lemma_no_prefix_at(s, "Gobo"@, 0);
    lemma_no_prefix_at(s, "Gobo"@, 0);
    lemma_extract_n_then_letter("AnimationWheel"@, n, "Audio"@);
    lemma_extract_n_suffix_of("AnimationWheel"@, n, "Audio"@);
}

/// The name of `AnimationWheelMacro` is read back as `AnimationWheelMacro`.
proof fn lemma_numbered_name_animation_wheel_macro(n: u8)
    ensures
        AttributeView::parse(AttributeView::AnimationWheelMacro(n).name()) == AttributeView::AnimationWheelMacro(n),
{
    let s = AttributeView::AnimationWheelMacro(n).name();
    lemma_dec(n);
    reveal_strlit("AnimationWheel");
    reveal_strlit("Audio");
    reveal_strlit("Gobo");
    reveal_strlit("Macro");
    assert(s[14] == dec(n)[0]);
    lemma_fixed_rejects_digit(s, 14);
    lemma_no_prefix_at(s, "Gobo"@, 0);
    lemma_no_prefix_at(s, "Gobo"@, 0);
    lemma_no_prefix_at(s, "Gobo"@, 0);
    lemma_no_prefix_at(s, "Gobo"@, 0);
    lemma_no_prefix_at(s, "Gobo"@, 0);
    lemma_no_prefix_at(s, "Gobo"@, 0);
    lemma_no_prefix_at(s, "Gobo"@, 0);
    lemma_no_prefix_at(s, "Gobo"@, 0);
    lemma_no_prefix_at(s, "Gobo"@, 0);
    lemma_no_prefix_at(s, "Gobo"@, 0);
    lemma_no_prefix_at(s, "Gobo"@, 0);
    lemma_no_prefix_at(s, "Gobo"@, 0);
    lemma_extract_n_then_letter("AnimationWheel"@, n, "Macro"@);
    lemma_no_suffix_at(s, "AnimationWheel"@, "Audio"@, 0);
    lemma_extract_n_suffix_of("AnimationWheel"@, n, "Macro"@);
}

/// The name of `AnimationWheelRandom` is read back as `AnimationWheelRandom`.
proof fn lemma_numbered_name_animation_wheel_random(n: u8)
    ensures
        AttributeView::parse(AttributeView::AnimationWheelRandom(n).name()) == AttributeView::AnimationWheelRandom(n),
{
    let s = AttributeView::AnimationWheelRandom(n).name();
    lemma_dec(n);
    reveal_strlit("AnimationWheel");
    reveal_strlit("Audio");
    reveal_strlit("Gobo");
    reveal_strlit("Macro");
    reveal_strlit("Random");
    assert(s[14] == dec(n)[0]);
    lemma_fixed_rejects_digit(s, 14);
    lemma_no_prefix_at(s, "Gobo"@, 0);
    lemma_no_prefix_at(s, "Gobo"@, 0);
    lemma_no_prefix_at(s, "Gobo"@, 0);
    lemma_no_prefix_at(s, "Gobo"@, 0);
    lemma_no_prefix_at(s, "Gobo"@, 0);
    lemma_no_prefix_at(s, "Gobo"@, 0);
    lemma_no_prefix_at(s, "Gobo"@, 0);
    lemma_no_prefix_at(s, "Gobo"@, 0);
    lemma_no_prefix_at(s, "Gobo"@, 0);
    lemma_no_prefix_at(s, "Gobo"@, 0);
    lemma_no_prefix_at(s, "Gobo"@, 0);
    lemma_no_prefix_at(s, "Gobo"@, 0);
    lemma_extract_n_then_letter("AnimationWheel"@, n, "Random"@);
    lemma_no_suffix_at(s, "AnimationWheel"@, "Audio"@, 0);
    lemma_no_suffix_at(s, "AnimationWheel"@, "Macro"@, 0);
    lemma_extract_n_suffix_of("AnimationWheel"@, n, "Random"@);
}

/// The name of `AnimationWheelSelectEffects` is read back as `AnimationWheelSelectEffects`.
proof fn lemma_numbered_name_animation_wheel_select_effects(n: u8)
    ensures
        AttributeView::parse(AttributeView::AnimationWheelSelectEffects(n).name()) == AttributeView::AnimationWheelSelectEffects(n),
{
    let s = AttributeView::AnimationWheelSelectEffects(n).name();
    lemma_dec(n);
    reveal_strlit("AnimationWheel");
    reveal_strlit("Audio");
    reveal_strlit("Gobo");
    reveal_strlit("Macro");
    reveal_strlit("Random");
    reveal_strlit("SelectEffects");
    assert(s[14] == dec(n)[0]);
    lemma_fixed_rejects_digit(s, 14);
    lemma_no_prefix_at(s, "Gobo"@, 0);
    lemma_no_prefix_at(s, "Gobo"@, 0);
    lemma_no_prefix_at(s, "Gobo"@, 0);
    lemma_no_prefix_at(s, "Gobo"@, 0);
    lemma_no_prefix_at(s, "Gobo"@, 0);
    lemma_no_prefix_at(s, "Gobo"@, 0);
    lemma_no_prefix_at(s, "Gobo"@, 0);
    lemma_no_prefix_at(s, "Gobo"@, 0);
    lemma_no_prefix_at(s, "Gobo"@, 0);
    lemma_no_prefix_at(s, "Gobo"@, 0);
    lemma_no_prefix_at(s, "Gobo"@, 0);
    lemma_no_prefix_at(s, "Gobo"@, 0);
    lemma_extract_n_then_letter("AnimationWheel"@, n, "SelectEffects"@);
    lemma_no_suffix_at(s, "AnimationWheel"@, "Audio"@, 0);
    lemma_no_suffix_at(s, "AnimationWheel"@, "Macro"@, 0);
    lemma_no_suffix_at(s, "AnimationWheel"@, "Random"@, 0);
    lemma_extract_n_suffix_of("AnimationWheel"@, n, "SelectEffects"@);
}

/// The name of `AnimationWheelSelectShake` is read back as `AnimationWheelSelectShake`.
proof fn lemma_numbered_name_animation_wheel_select_shake(n: u8)
    ensures
        AttributeView::parse(AttributeView::AnimationWheelSelectShake(n).name()) == AttributeView::AnimationWheelSelectShake(n),
{
    let s = AttributeView::AnimationWheelSelectShake(n).name();
    lemma_dec(n);
    reveal_strlit("AnimationWheel");
    reveal_strlit("Audio");
    reveal_strlit("Gobo");
    reveal_strlit("Macro");
    reveal_strlit("Random");
    reveal_strlit("SelectEffects");
    reveal_strlit("SelectShake");
    assert(s[14] == dec(n)[0]);
    lemma_fixed_rejects_digit(s, 14);
    lemma_no_prefix_at(s, "Gobo"@, 0);
    lemma_no_prefix_at(s, "Gobo"@, 0);
    lemma_no_prefix_at(s, "Gobo"@, 0);
    lemma_no_prefix_at(s, "Gobo"@, 0);
    lemma_no_prefix_at(s, "Gobo"@, 0);
    lemma_no_prefix_at(s, "Gobo"@, 0);
    lemma_no_prefix_at(s, "Gobo"@, 0);
    lemma_no_prefix_at(s, "Gobo"@, 0);
    lemma_no_prefix_at(s, "Gobo"@, 0);
    lemma_no_prefix_at(s, "Gobo"@, 0);
    lemma_no_prefix_at(s, "Gobo"@, 0);
    lemma_no_prefix_at(s, "Gobo"@, 0);
    lemma_extract_n_then_letter("AnimationWheel"@, n, "SelectShake"@);
    lemma_no_suffix_at(s, "AnimationWheel"@, "Audio"@, 0);
    lemma_no_suffix_at(s, "AnimationWheel"@, "Macro"@, 0);
    lemma_no_suffix_at(s, "AnimationWheel"@, "Random"@, 0);
    lemma_no_suffix_at(s, "AnimationWheel"@, "SelectEffects"@, 1);
    lemma_extract_n_suffix_of("AnimationWheel"@, n, "SelectShake"@);
}

/// The name of `AnimationWheelSelectSpin` is read back as `AnimationWheelSelectSpin`.
proof fn lemma_numbered_name_animation_wheel_select_spin(n: u8)
    ensures
        AttributeView::parse(AttributeView::AnimationWheelSelectSpin(n).name()) == AttributeView::AnimationWheelSelectSpin(n),
{
    let s = AttributeView::AnimationWheelSelectSpin(n).name();
    lemma_dec(n);
    reveal_strlit("AnimationWheel");
    reveal_strlit("Audio");
    reveal_strlit("Gobo");
    reveal_strlit("Macro");
    reveal_strlit("Random");
    reveal_strlit("SelectEffects");
    reveal_strlit("SelectShake");
    reveal_strlit("SelectSpin");
    assert(s[14] == dec(n)[0]);
    lemma_fixed_rejects_digit(s, 14);
    lemma_no_prefix_at(s, "Gobo"@, 0);
    lemma_no_prefix_at(s, "Gobo"@, 0);
    lemma_no_prefix_at(s, "Gobo"@, 0);
    lemma_no_prefix_at(s, "Gobo"@, 0);
    lemma_no_prefix_at(s, "Gobo"@, 0);
    lemma_no_prefix_at(s, "Gobo"@, 0);
    lemma_no_prefix_at(s, "Gobo"@, 0);
    lemma_no_prefix_at(s, "Gobo"@, 0);
    lemma_no_prefix_at(s, "Gobo"@, 0);
    lemma_no_prefix_at(s, "Gobo"@, 0);
    lemma_no_prefix_at(s, "Gobo"@, 0);
    lemma_no_prefix_at(s, "Gobo"@, 0);
    lemma_extract_n_then_letter("AnimationWheel"@, n, "SelectSpin"@);
    lemma_no_suffix_at(s, "AnimationWheel"@, "Audio"@, 0);
    lemma_no_suffix_at(s, "AnimationWheel"@, "Macro"@, 0);
    lemma_no_suffix_at(s, "AnimationWheel"@, "Random"@, 0);
    lemma_no_suffix_at(s, "AnimationWheel"@, "SelectEffects"@, 2);
    lemma_no_suffix_at(s, "AnimationWheel"@, "SelectShake"@, 0);
    lemma_extract_n_suffix_of("AnimationWheel"@, n, "SelectSpin"@);
}

/// The name of `AnimationWheelPos` is read back as `AnimationWheelPos`.
proof fn lemma_numbered_name_animation_wheel_pos(n: u8)
    ensures
        AttributeView::parse(AttributeView::AnimationWheelPos(n).name()) == AttributeView::AnimationWheelPos(n),
{
    let s = AttributeView::AnimationWheelPos(n).name();
    lemma_dec(n);
    reveal_strlit("AnimationWheel");
    reveal_strlit("Audio");
    reveal_strlit("Gobo");
    reveal_strlit("Macro");
    reveal_strlit("Pos");
    reveal_strlit("Random");
    reveal_strlit("SelectEffects");
    reveal_strlit("SelectShake");
    reveal_strlit("SelectSpin");
    assert(s[14] == dec(n)[0]);
    lemma_fixed_rejects_digit(s, 14);
    lemma_no_prefix_at(s, "Gobo"@, 0);
    lemma_no_prefix_at(s, "Gobo"@, 0);
    lemma_no_prefix_at(s, "Gobo"@, 0);
    lemma_no_prefix_at(s, "Gobo"@, 0);
    lemma_no_prefix_at(s, "Gobo"@, 0);
    lemma_no_prefix_at(s, "Gobo"@, 0);
    lemma_no_prefix_at(s, "Gobo"@, 0);
    lemma_no_prefix_at(s, "Gobo"@, 0);
    lemma_no_prefix_at(s, "Gobo"@, 0);
    lemma_no_prefix_at(s, "Gobo"@, 0);
    lemma_no_prefix_at(s, "Gobo"@, 0);
    lemma_no_prefix_at(s, "Gobo"@, 0);
    lemma_extract_n_then_letter("AnimationWheel"@, n, "Pos"@);
    lemma_no_suffix_at(s, "AnimationWheel"@, "Audio"@, 1);
    lemma_no_suffix_at(s, "AnimationWheel"@, "Macro"@, 1);
    lemma_no_suffix_at(s, "AnimationWheel"@, "Random"@, 2);
    lemma_no_suffix_at(s, "AnimationWheel"@, "SelectEffects"@, 9);
    lemma_no_suffix_at(s, "AnimationWheel"@, "SelectShake"@, 7);
    lemma_no_suffix_at(s, "AnimationWheel"@, "SelectSpin"@, 6);
    lemma_extract_n_suffix_of("AnimationWheel"@, n, "Pos"@);
}

/// The name of `AnimationWheelPosRotate` is read back as `AnimationWheelPosRotate`.
proof fn lemma_numbered_name_animation_wheel_pos_rotate(n: u8)
    ensures
        AttributeView::parse(AttributeView::AnimationWheelPosRotate(n).name()) == AttributeView::AnimationWheelPosRotate(n),
{
    let s = AttributeView::AnimationWheelPosRotate(n).name();
    lemma_dec(n);
    reveal_strlit("AnimationWheel");
    reveal_strlit("Audio");
    reveal_strlit("Gobo");
    reveal_strlit("Macro");
    reveal_strlit("Pos");
    reveal_strlit("PosRotate");
    reveal_strlit("Random");
    reveal_strlit("SelectEffects");
    reveal_strlit("SelectShake");
    reveal_strlit("SelectSpin");
    assert(s[14] == dec(n)[0]);
    lemma_fixed_rejects_digit(s, 14);
    lemma_no_prefix_at(s, "Gobo"@, 0);
    lemma_no_prefix_at(s, "Gobo"@, 0);
    lemma_no_prefix_at(s, "Gobo"@, 0);
    lemma_no_prefix_at(s, "Gobo"@, 0);
    lemma_no_prefix_at(s, "Gobo"@, 0);
    lemma_no_prefix_at(s, "Gobo"@, 0);
    lemma_no_prefix_at(s, "Gobo"@, 0);
    lemma_no_prefix_at(s, "Gobo"@, 0);
    lemma_no_prefix_at(s, "Gobo"@, 0);
    lemma_no_prefix_at(s, "Gobo"@, 0);
    lemma_no_prefix_at(s, "Gobo"@, 0);
    lemma_no_prefix_at(s, "Gobo"@, 0);
    lemma_extract_n_then_letter("AnimationWheel"@, n, "PosRotate"@);
    lemma_no_suffix_at(s, "AnimationWheel"@, "Audio"@, 0);
    lemma_no_suffix_at(s, "AnimationWheel"@, "Macro"@, 0);
    lemma_no_suffix_at(s, "AnimationWheel"@, "Random"@, 1);
    lemma_no_suffix_at(s, "AnimationWheel"@, "SelectEffects"@, 3);
    lemma_no_suffix_at(s, "AnimationWheel"@, "SelectShake"@, 1);
    lemma_no_suffix_at(s, "AnimationWheel"@, "SelectSpin"@, 0);
    lemma_no_suffix_at(s, "AnimationWheel"@, "Pos"@, 0);
    lemma_extract_n_suffix_of("AnimationWheel"@, n, "PosRotate"@);
}

/// The name of `AnimationWheelPosShake` is read back as `AnimationWheelPosShake`.
proof fn lemma_numbered_name_animation_wheel_pos_shake(n: u8)
    ensures
        AttributeView::parse(AttributeView::AnimationWheelPosShake(n).name()) == AttributeView::AnimationWheelPosShake(n),
{
    let s = AttributeView::AnimationWheelPosShake(n).name();
    lemma_dec(n);
    reveal_strlit("AnimationWheel");
    reveal_strlit("Audio");
    reveal_strlit("Gobo");
    reveal_strlit("Macro");
    reveal_strlit("Pos");
    reveal_strlit("PosRotate");
    reveal_strlit("PosShake");
    reveal_strlit("Random");
    reveal_strlit("SelectEffects");
    reveal_strlit("SelectShake");
    reveal_strlit("SelectSpin");
    assert(s[14] == dec(n)[0]);
    lemma_fixed_rejects_digit(s, 14);
    lemma_no_prefix_at(s, "Gobo"@, 0);
    lemma_no_prefix_at(s, "Gobo"@, 0);
    lemma_no_prefix_at(s, "Gobo"@, 0);
    lemma_no_prefix_at(s, "Gobo"@, 0);
    lemma_no_prefix_at(s, "Gobo"@, 0);
    lemma_no_prefix_at(s, "Gobo"@, 0);
    lemma_no_prefix_at(s, "Gobo"@, 0);
    lemma_no_prefix_at(s, "Gobo"@, 0);
    lemma_no_prefix_at(s, "Gobo"@, 0);
    lemma_no_prefix_at(s, "Gobo"@, 0);
    lemma_no_prefix_at(s, "Gobo"@, 0);
    lemma_no_prefix_at(s, "Gobo"@, 0);
    lemma_extract_n_then_letter("AnimationWheel"@, n, "PosShake"@);
    lemma_no_suffix_at(s, "AnimationWheel"@, "Audio"@, 0);
    lemma_no_suffix_at(s, "AnimationWheel"@, "Macro"@, 0);
    lemma_no_suffix_at(s, "AnimationWheel"@, "Random"@, 0);
    lemma_no_suffix_at(s, "AnimationWheel"@, "SelectEffects"@, 4);
    lemma_no_suffix_at(s, "AnimationWheel"@, "SelectShake"@, 2);
    lemma_no_suffix_at(s, "AnimationWheel"@, "SelectSpin"@, 1);
    lemma_no_suffix_at(s, "AnimationWheel"@, "Pos"@, 0);
    lemma_no_suffix_at(s, "AnimationWheel"@, "PosRotate"@, 0);
    lemma_extract_n_suffix_of("AnimationWheel"@, n, "PosShake"@);
}

/// The name of `AnimationSystem` is read back as `AnimationSystem`.
proof fn lemma_numbered_name_animation_system(n: u8)
    ensures
        AttributeView::parse(AttributeView::AnimationSystem(n).name()) == AttributeView::AnimationSystem(n),
{
    let s = AttributeView::AnimationSystem(n).name();
    lemma_dec(n);
    reveal_strlit("AnimationSystem");
    reveal_strlit("AnimationWheel");
    reveal_strlit("Gobo");
    assert(s[15] == dec(n)[0]);
    lemma_fixed_rejects_digit(s, 15);
    lemma_no_prefix_at(s, "Gobo"@, 0);
    lemma_no_prefix_at(s, "Gobo"@, 0);
    lemma_no_prefix_at(s, "Gobo"@, 0);
    lemma_no_prefix_at(s, "Gobo"@, 0);
    lemma_no_prefix_at(s, "Gobo"@, 0);
    lemma_no_prefix_at(s, "Gobo"@, 0);
    lemma_no_prefix_at(s, "Gobo"@, 0);
    lemma_no_prefix_at(s, "Gobo"@, 0);
    lemma_no_prefix_at(s, "Gobo"@, 0);
    lemma_no_prefix_at(s, "Gobo"@, 0);
    lemma_no_prefix_at(s, "Gobo"@, 0);
    lemma_no_prefix_at(s, "Gobo"@, 0);
    lemma_no_prefix_at(s, "AnimationWheel"@, 9);
    lemma_no_prefix_at(s, "AnimationWheel"@, 9);
    lemma_no_prefix_at(s, "AnimationWheel"@, 9);
    lemma_no_prefix_at(s, "AnimationWheel"@, 9);
    lemma_no_prefix_at(s, "AnimationWheel"@, 9);
    lemma_no_prefix_at(s, "AnimationWheel"@, 9);
    lemma_no_prefix_at(s, "AnimationWheel"@, 9);
    lemma_no_prefix_at(s, "AnimationWheel"@, 9);
    lemma_no_prefix_at(s, "AnimationWheel"@, 9);
    lemma_no_prefix_at(s, "AnimationWheel"@, 9);
    lemma_extract_n_of("AnimationSystem"@, n);
}

/// The name of `AnimationSystemRamp` is read back as `AnimationSystemRamp`.
proof fn lemma_numbered_name_animation_system_ramp(n: u8)
    ensures
        AttributeView::parse(AttributeView::AnimationSystemRamp(n).name()) == AttributeView::AnimationSystemRamp(n),
{
    let s = AttributeView::AnimationSystemRamp(n).name();
    lemma_dec(n);
    reveal_strlit("AnimationSystem");
    reveal_strlit("AnimationWheel");
    reveal_strlit("Gobo");
    reveal_strlit("Ramp");
    assert(s[15] == dec(n)[0]);
    lemma_fixed_rejects_digit(s, 15);
    lemma_no_prefix_at(s, "Gobo"@, 0);
    lemma_no_prefix_at(s, "Gobo"@, 0);
    lemma_no_prefix_at(s, "Gobo"@, 0);
    lemma_no_prefix_at(s, "Gobo"@, 0);
    lemma_no_prefix_at(s, "Gobo"@, 0);
    lemma_no_prefix_at(s, "Gobo"@, 0);
    lemma_no_prefix_at(s, "Gobo"@, 0);
    lemma_no_prefix_at(s, "Gobo"@, 0);
    lemma_no_prefix_at(s, "Gobo"@, 0);
    lemma_no_prefix_at(s, "Gobo"@, 0);
    lemma_no_prefix_at(s, "Gobo"@, 0);
    lemma_no_prefix_at(s, "Gobo"@, 0);
    lemma_no_prefix_at(s, "AnimationWheel"@, 9);
    lemma_no_prefix_at(s, "AnimationWheel"@, 9);
    lemma_no_prefix_at(s, "AnimationWheel"@, 9);
    lemma_no_prefix_at(s, "AnimationWheel"@, 9);
    lemma_no_prefix_at(s, "AnimationWheel"@, 9);
    lemma_no_prefix_at(s, "AnimationWheel"@, 9);
    lemma_no_prefix_at(s, "AnimationWheel"@, 9);
    lemma_no_prefix_at(s, "AnimationWheel"@, 9);
    lemma_no_prefix_at(s, "AnimationWheel"@, 9);
    lemma_no_prefix_at(s, "AnimationWheel"@, 9);
    lemma_extract_n_then_letter("AnimationSystem"@, n, "Ramp"@);
    lemma_extract_n_suffix_of("AnimationSystem"@, n, "Ramp"@);
}

/// The name of `AnimationSystemShake` is read back as `AnimationSystemShake`.
proof fn lemma_numbered_name_animation_system_shake(n: u8)
    ensures
        AttributeView::parse(AttributeView::AnimationSystemShake(n).name()) == AttributeView::AnimationSystemShake(n),
{
    let s = AttributeView::AnimationSystemShake(n).name();
    lemma_dec(n);
    reveal_strlit("AnimationSystem");
    reveal_strlit("AnimationWheel");
    reveal_strlit("Gobo");
    reveal_strlit("Ramp");
    reveal_strlit("Shake");
    assert(s[15] == dec(n)[0]);
    lemma_fixed_rejects_digit(s, 15);
    lemma_no_prefix_at(s, "Gobo"@, 0);
    lemma_no_prefix_at(s, "Gobo"@, 0);
    lemma_no_prefix_at(s, "Gobo"@, 0);
    lemma_no_prefix_at(s, "Gobo"@, 0);
    lemma_no_prefix_at(s, "Gobo"@, 0);
    lemma_no_prefix_at(s, "Gobo"@, 0);
    lemma_no_prefix_at(s, "Gobo"@, 0);
    lemma_no_prefix_at(s, "Gobo"@, 0);
    lemma_no_prefix_at(s, "Gobo"@, 0);
    lemma_no_prefix_at(s, "Gobo"@, 0);
    lemma_no_prefix_at(s, "Gobo"@, 0);
    lemma_no_prefix_at(s, "Gobo"@, 0);
    lemma_no_prefix_at(s, "AnimationWheel"@, 9);
    lemma_no_prefix_at(s, "AnimationWheel"@, 9);
    lemma_no_prefix_at(s, "AnimationWheel"@, 9);
    lemma_no_prefix_at(s, "AnimationWheel"@, 9);
    lemma_no_prefix_at(s, "AnimationWheel"@, 9);
    lemma_no_prefix_at(s, "AnimationWheel"@, 9);
    lemma_no_prefix_at(s, "AnimationWheel"@, 9);
    lemma_no_prefix_at(s, "AnimationWheel"@, 9);
    lemma_no_prefix_at(s, "AnimationWheel"@, 9);
    lemma_no_prefix_at(s, "AnimationWheel"@, 9);
    lemma_extract_n_then_letter("AnimationSystem"@, n, "Shake"@);
    lemma_no_suffix_at(s, "AnimationSystem"@, "Ramp"@, 0);
    lemma_extract_n_suffix_of("AnimationSystem"@, n, "Shake"@);
}

/// The name of `AnimationSystemAudio` is read back as `AnimationSystemAudio`.
proof fn lemma_numbered_name_animation_system_audio(n: u8)
    ensures
        AttributeView::parse(AttributeView::AnimationSystemAudio(n).name()) == AttributeView::AnimationSystemAudio(n),
{
    let s = AttributeView::AnimationSystemAudio(n).name();
    lemma_dec(n);
    reveal_strlit("AnimationSystem");
    reveal_strlit("AnimationWheel");
    reveal_strlit("Audio");
    reveal_strlit("Gobo");
    reveal_strlit("Ramp");
    reveal_strlit("Shake");
    assert(s[15] == dec(n)[0]);
    lemma_fixed_rejects_digit(s, 15);
    lemma_no_prefix_at(s, "Gobo"@, 0);
    lemma_no_prefix_at(s, "Gobo"@, 0);
    lemma_no_prefix_at(s, "Gobo"@, 0);
    lemma_no_prefix_at(s, "Gobo"@, 0);
    lemma_no_prefix_at(s, "Gobo"@, 0);
    lemma_no_prefix_at(s, "Gobo"@, 0);
    lemma_no_prefix_at(s, "Gobo"@, 0);
    lemma_no_prefix_at(s, "Gobo"@, 0);
    lemma_no_prefix_at(s, "Gobo"@, 0);
    lemma_no_prefix_at(s, "Gobo"@, 0);
    lemma_no_prefix_at(s, "Gobo"@, 0);
    lemma_no_prefix_at(s, "Gobo"@, 0);
    lemma_no_prefix_at(s, "AnimationWheel"@, 9);
    lemma_no_prefix_at(s, "AnimationWheel"@, 9);
    lemma_no_prefix_at(s, "AnimationWheel"@, 9);
    lemma_no_prefix_at(s, "AnimationWheel"@, 9);
    lemma_no_prefix_at(s, "AnimationWheel"@, 9);
    lemma_no_prefix_at(s, "AnimationWheel"@, 9);
    lemma_no_prefix_at(s, "AnimationWheel"@, 9);
    lemma_no_prefix_at(s, "AnimationWheel"@, 9);
    lemma_no_prefix_at(s, "AnimationWheel"@, 9);
    lemma_no_prefix_at(s, "AnimationWheel"@, 9);
    lemma_extract_n_then_letter("AnimationSystem"@, n, "Audio"@);
    lemma_no_suffix_at(s, "AnimationSystem"@, "Ramp"@, 0);
    lemma_no_suffix_at(s, "AnimationSystem"@, "Shake"@, 0);
    lemma_extract_n_suffix_of("AnimationSystem"@, n, "Audio"@);
}

/// The name of `AnimationSystemRandom` is read back as `AnimationSystemRandom`.
proof fn lemma_numbered_name_animation_system_random(n: u8)
    ensures
        AttributeView::parse(AttributeView::AnimationSystemRandom(n).name()) == AttributeView::AnimationSystemRandom(n),
{
    let s = AttributeView::AnimationSystemRandom(n).name();
    lemma_dec(n);
    reveal_strlit("AnimationSystem");
    reveal_strlit("AnimationWheel");
    reveal_strlit("Audio");
    reveal_strlit("Gobo");
    reveal_strlit("Ramp");
    reveal_strlit("Random");
    reveal_strlit("Shake");
    assert(s[15] == dec(n)[0]);
    lemma_fixed_rejects_digit(s, 15);
    lemma_no_prefix_at(s, "Gobo"@, 0);
    lemma_no_prefix_at(s, "Gobo"@, 0);
    lemma_no_prefix_at(s, "Gobo"@, 0);
    lemma_no_prefix_at(s, "Gobo"@, 0);
    lemma_no_prefix_at(s, "Gobo"@, 0);
    lemma_no_prefix_at(s, "Gobo"@, 0);
    lemma_no_prefix_at(s, "Gobo"@, 0);
    lemma_no_prefix_at(s, "Gobo"@, 0);
    lemma_no_prefix_at(s, "Gobo"@, 0);
    lemma_no_prefix_at(s, "Gobo"@, 0);
    lemma_no_prefix_at(s, "Gobo"@, 0);
    lemma_no_prefix_at(s, "Gobo"@, 0);
    lemma_no_prefix_at(s, "AnimationWheel"@, 9);
    lemma_no_prefix_at(s, "AnimationWheel"@, 9);
    lemma_no_prefix_at(s, "AnimationWheel"@, 9);
    lemma_no_prefix_at(s, "AnimationWheel"@, 9);
    lemma_no_prefix_at(s, "AnimationWheel"@, 9);
    lemma_no_prefix_at(s, "AnimationWheel"@, 9);
    lemma_no_prefix_at(s, "AnimationWheel"@, 9);
    lemma_no_prefix_at(s, "AnimationWheel"@, 9);
    lemma_no_prefix_at(s, "AnimationWheel"@, 9);
    lemma_no_prefix_at(s, "AnimationWheel"@, 9);
    lemma_extract_n_then_letter("AnimationSystem"@, n, "Random"@);
    lemma_no_suffix_at(s, "AnimationSystem"@, "Ramp"@, 0);
    lemma_no_suffix_at(s, "AnimationSystem"@, "Shake"@, 0);
    lemma_no_suffix_at(s, "AnimationSystem"@, "Audio"@, 0);
    lemma_extract_n_suffix_of("AnimationSystem"@, n, "Random"@);
}

/// The name of `AnimationSystemPos` is read back as `AnimationSystemPos`.
proof fn lemma_numbered_name_animation_system_pos(n: u8)
    ensures
        AttributeView::parse(AttributeView::AnimationSystemPos(n).name()) == AttributeView::AnimationSystemPos(n),
{
    let s = AttributeView::AnimationSystemPos(n).name();
    lemma_dec(n);
    reveal_strlit("AnimationSystem");
    reveal_strlit("AnimationWheel");
    reveal_strlit("Audio");
    reveal_strlit("Gobo");
    reveal_strlit("Pos");
    reveal_strlit("Ramp");
    reveal_strlit("Random");
    reveal_strlit("Shake");
    assert(s[15] == dec(n)[0]);
    lemma_fixed_rejects_digit(s, 15);
    lemma_no_prefix_at(s, "Gobo"@, 0);
    lemma_no_prefix_at(s, "Gobo"@, 0);
    lemma_no_prefix_at(s, "Gobo"@, 0);
    lemma_no_prefix_at(s, "Gobo"@, 0);
    lemma_no_prefix_at(s, "Gobo"@, 0);
    lemma_no_prefix_at(s, "Gobo"@, 0);
    lemma_no_prefix_at(s, "Gobo"@, 0);
    lemma_no_prefix_at(s, "Gobo"@, 0);
    lemma_no_prefix_at(s, "Gobo"@, 0);
    lemma_no_prefix_at(s, "Gobo"@, 0);
    lemma_no_prefix_at(s, "Gobo"@, 0);
    lemma_no_prefix_at(s, "Gobo"@, 0);
    lemma_no_prefix_at(s, "AnimationWheel"@, 9);
    lemma_no_prefix_at(s, "AnimationWheel"@, 9);
    lemma_no_prefix_at(s, "AnimationWheel"@, 9);
    lemma_no_prefix_at(s, "AnimationWheel"@, 9);
    lemma_no_prefix_at(s, "AnimationWheel"@, 9);
    lemma_no_prefix_at(s, "AnimationWheel"@, 9);
    lemma_no_prefix_at(s, "AnimationWheel"@, 9);
    lemma_no_prefix_at(s, "AnimationWheel"@, 9);
    lemma_no_prefix_at(s, "AnimationWheel"@, 9);
    lemma_no_prefix_at(s, "AnimationWheel"@, 9);
    lemma_extract_n_then_letter("AnimationSystem"@, n, "Pos"@);
    lemma_no_suffix_at(s, "AnimationSystem"@, "Ramp"@, 0);
    lemma_no_suffix_at(s, "AnimationSystem"@, "Shake"@, 1);
    lemma_no_suffix_at(s, "AnimationSystem"@, "Audio"@, 1);
    lemma_no_suffix_at(s, "AnimationSystem"@, "Random"@, 2);
    lemma_extract_n_suffix_of("AnimationSystem"@, n, "Pos"@);
}

/// The name of `AnimationSystemPosRotate` is read back as `AnimationSystemPosRotate`.
proof fn lemma_numbered_name_animation_system_pos_rotate(n: u8)
    ensures
        AttributeView::parse(AttributeView::AnimationSystemPosRotate(n).name()) == AttributeView::AnimationSystemPosRotate(n),
{
    let s = AttributeView::AnimationSystemPosRotate(n).name();
    lemma_dec(n);
    reveal_strlit("AnimationSystem");
    reveal_strlit("AnimationWheel");
    reveal_strlit("Audio");
    reveal_strlit("Gobo");
    reveal_strlit("Pos");
    reveal_strlit("PosRotate");
    reveal_strlit("Ramp");
    reveal_strlit("Random");
    reveal_strlit("Shake");
    assert(s[15] == dec(n)[0]);
    lemma_fixed_rejects_digit(s, 15);
    lemma_no_prefix_at(s, "Gobo"@, 0);
    lemma_no_prefix_at(s, "Gobo"@, 0);
    lemma_no_prefix_at(s, "Gobo"@, 0);
    lemma_no_prefix_at(s, "Gobo"@, 0);
    lemma_no_prefix_at(s, "Gobo"@, 0);
    lemma_no_prefix_at(s, "Gobo"@, 0);
    lemma_no_prefix_at(s, "Gobo"@, 0);
    lemma_no_prefix_at(s, "Gobo"@, 0);
    lemma_no_prefix_at(s, "Gobo"@, 0);
    lemma_no_prefix_at(s, "Gobo"@, 0);
    lemma_no_prefix_at(s, "Gobo"@, 0);
    lemma_no_prefix_at(s, "Gobo"@, 0);
    lemma_no_prefix_at(s, "AnimationWheel"@, 9);
    lemma_no_prefix_at(s, "AnimationWheel"@, 9);
    lemma_no_prefix_at(s, "AnimationWheel"@, 9);
    lemma_no_prefix_at(s, "AnimationWheel"@, 9);
    lemma_no_prefix_at(s, "AnimationWheel"@, 9);
    lemma_no_prefix_at(s, "AnimationWheel"@, 9);
    lemma_no_prefix_at(s, "AnimationWheel"@, 9);
    lemma_no_prefix_at(s, "AnimationWheel"@, 9);
    lemma_no_prefix_at(s, "AnimationWheel"@, 9);
    lemma_no_prefix_at(s, "AnimationWheel"@, 9);
    lemma_extract_n_then_letter("AnimationSystem"@, n, "PosRotate"@);
    lemma_no_suffix_at(s, "AnimationSystem"@, "Ramp"@, 0);
    lemma_no_suffix_at(s, "AnimationSystem"@, "Shake"@, 0);
    lemma_no_suffix_at(s, "AnimationSystem"@, "Audio"@, 0);
    lemma_no_suffix_at(s, "AnimationSystem"@, "Random"@, 1);
    lemma_no_suffix_at(s, "AnimationSystem"@, "Pos"@, 0);
    lemma_extract_n_suffix_of("AnimationSystem"@, n, "PosRotate"@);
}

/// The name of `AnimationSystemPosShake` is read back as `AnimationSystemPosShake`.
proof fn lemma_numbered_name_animation_system_pos_shake(n: u8)
    ensures
        AttributeView::parse(AttributeView::AnimationSystemPosShake(n).name()) == AttributeView::AnimationSystemPosShake(n),
{
    let s = AttributeView::AnimationSystemPosShake(n).name();
    lemma_dec(n);
    reveal_strlit("AnimationSystem");
    reveal_strlit("AnimationWheel");
    reveal_strlit("Audio");
    reveal_strlit("Gobo");
    reveal_strlit("Pos");
    reveal_strlit("PosRotate");
    reveal_strlit("PosShake");
    reveal_strlit("Ramp");
    reveal_strlit("Random");
    reveal_strlit("Shake");
    assert(s[15] == dec(n)[0]);
    lemma_fixed_rejects_digit(s, 15);
    lemma_no_prefix_at(s, "Gobo"@, 0);
    lemma_no_prefix_at(s, "Gobo"@, 0);
    lemma_no_prefix_at(s, "Gobo"@, 0);
    lemma_no_prefix_at(s, "Gobo"@, 0);
    lemma_no_prefix_at(s, "Gobo"@, 0);
    lemma_no_prefix_at(s, "Gobo"@, 0);
    lemma_no_prefix_at(s, "Gobo"@, 0);
    lemma_no_prefix_at(s, "Gobo"@, 0);
    lemma_no_prefix_at(s, "Gobo"@, 0);
    lemma_no_prefix_at(s, "Gobo"@, 0);
    lemma_no_prefix_at(s, "Gobo"@, 0);
    lemma_no_prefix_at(s, "Gobo"@, 0);
    lemma_no_prefix_at(s, "AnimationWheel"@, 9);
    lemma_no_prefix_at(s, "AnimationWheel"@, 9);
    lemma_no_prefix_at(s, "AnimationWheel"@, 9);
    lemma_no_prefix_at(s, "AnimationWheel"@, 9);
    lemma_no_prefix_at(s, "AnimationWheel"@, 9);
    lemma_no_prefix_at(s, "AnimationWheel"@, 9);
    lemma_no_prefix_at(s, "AnimationWheel"@, 9);
    lemma_no_prefix_at(s, "AnimationWheel"@, 9);
    lemma_no_prefix_at(s, "AnimationWheel"@, 9);
    lemma_no_prefix_at(s, "AnimationWheel"@, 9);
    lemma_extract_n_then_letter("AnimationSystem"@, n, "PosShake"@);
    lemma_no_suffix_at(s, "AnimationSystem"@, "Ramp"@, 0);
    lemma_extract_n_suffix_longer("AnimationSystem"@, n, "PosShake"@, "Shake"@);
    lemma_no_suffix_at(s, "AnimationSystem"@, "Audio"@, 0);
    lemma_no_suffix_at(s, "AnimationSystem"@, "Random"@, 0);
    lemma_no_suffix_at(s, "AnimationSystem"@, "Pos"@, 0);
    lemma_no_suffix_at(s, "AnimationSystem"@, "PosRotate"@, 0);
    lemma_extract_n_suffix_of("AnimationSystem"@, n, "PosShake"@);
}

/// The name of `AnimationSystemPosRandom` is read back as `AnimationSystemPosRandom`.
proof fn lemma_numbered_name_animation_system_pos_random(n: u8)
    ensures
        AttributeView::parse(AttributeView::AnimationSystemPosRandom(n).name()) == AttributeView::AnimationSystemPosRandom(n),
{
    let s = AttributeView::AnimationSystemPosRandom(n).name();
    lemma_dec(n);
    reveal_strlit("AnimationSystem");
    reveal_strlit("AnimationWheel");
    reveal_strlit("Audio");
    reveal_strlit("Gobo");
    reveal_strlit("Pos");
    reveal_strlit("PosRandom");
    reveal_strlit("PosRotate");
    reveal_strlit("PosShake");
    reveal_strlit("Ramp");
    reveal_strlit("Random");
    reveal_strlit("Shake");
    assert(s[15] == dec(n)[0]);
    lemma_fixed_rejects_digit(s, 15);
    lemma_no_prefix_at(s, "Gobo"@, 0);
    lemma_no_prefix_at(s, "Gobo"@, 0);
    lemma_no_prefix_at(s, "Gobo"@, 0);
    lemma_no_prefix_at(s, "Gobo"@, 0);
    lemma_no_prefix_at(s, "Gobo"@, 0);
    lemma_no_prefix_at(s, "Gobo"@, 0);
    lemma_no_prefix_at(s, "Gobo"@, 0);
    lemma_no_prefix_at(s, "Gobo"@, 0);
    lemma_no_prefix_at(s, "Gobo"@, 0);
    lemma_no_prefix_at(s, "Gobo"@, 0);
    lemma_no_prefix_at(s, "Gobo"@, 0);
    lemma_no_prefix_at(s, "Gobo"@, 0);
    lemma_no_prefix_at(s, "AnimationWheel"@, 9);
    lemma_no_prefix_at(s, "AnimationWheel"@, 9);
    lemma_no_prefix_at(s, "AnimationWheel"@, 9);
    lemma_no_prefix_at(s, "AnimationWheel"@, 9);
    lemma_no_prefix_at(s, "AnimationWheel"@, 9);
    lemma_no_prefix_at(s, "AnimationWheel"@, 9);
    lemma_no_prefix_at(s, "AnimationWheel"@, 9);
    lemma_no_prefix_at(s, "AnimationWheel"@, 9);
    lemma_no_prefix_at(s, "AnimationWheel"@, 9);
    lemma_no_prefix_at(s, "AnimationWheel"@, 9);
    lemma_extract_n_then_letter("AnimationSystem"@, n, "PosRandom"@);
    lemma_no_suffix_at(s, "AnimationSystem"@, "Ramp"@, 0);
    lemma_no_suffix_at(s, "AnimationSystem"@, "Shake"@, 0);
    lemma_no_suffix_at(s, "AnimationSystem"@, "Audio"@, 0);
    lemma_extract_n_suffix_longer("AnimationSystem"@, n, "PosRandom"@, "Random"@);
    lemma_no_suffix_at(s, "AnimationSystem"@, "Pos"@, 0);
    lemma_no_suffix_at(s, "AnimationSystem"@, "PosRotate"@, 4);
    lemma_no_suffix_at(s, "AnimationSystem"@, "PosShake"@, 0);
    lemma_extract_n_suffix_of("AnimationSystem"@, n, "PosRandom"@);
}

/// The name of `AnimationSystemPosAudio` is read back as `AnimationSystemPosAudio`.
proof fn lemma_numbered_name_animation_system_pos_audio(n: u8)
    ensures
        AttributeView::parse(AttributeView::AnimationSystemPosAudio(n).name()) == AttributeView::AnimationSystemPosAudio(n),
{
    let s = AttributeView::AnimationSystemPosAudio(n).name();
    lemma_dec(n);
    reveal_strlit("AnimationSystem");
    reveal_strlit("AnimationWheel");
    reveal_strlit("Audio");
    reveal_strlit("Gobo");
    reveal_strlit("Pos");
    reveal_strlit("PosAudio");
    reveal_strlit("PosRandom");
    reveal_strlit("PosRotate");
    reveal_strlit("PosShake");
    reveal_strlit("Ramp");
    reveal_strlit("Random");
    reveal_strlit("Shake");
    assert(s[15] == dec(n)[0]);
    lemma_fixed_rejects_digit(s, 15);
    lemma_no_prefix_at(s, "Gobo"@, 0);
    lemma_no_prefix_at(s, "Gobo"@, 0);
    lemma_no_prefix_at(s, "Gobo"@, 0);
    lemma_no_prefix_at(s, "Gobo"@, 0);
    lemma_no_prefix_at(s, "Gobo"@, 0);
    lemma_no_prefix_at(s, "Gobo"@, 0);
    lemma_no_prefix_at(s, "Gobo"@, 0);
    lemma_no_prefix_at(s, "Gobo"@, 0);
    lemma_no_prefix_at(s, "Gobo"@, 0);
    lemma_no_prefix_at(s, "Gobo"@, 0);
    lemma_no_prefix_at(s, "Gobo"@, 0);
    lemma_no_prefix_at(s, "Gobo"@, 0);
    lemma_no_prefix_at(s, "AnimationWheel"@, 9);
    lemma_no_prefix_at(s, "AnimationWheel"@, 9);
    lemma_no_prefix_at(s, "AnimationWheel"@, 9);
    lemma_no_prefix_at(s, "AnimationWheel"@, 9);
    lemma_no_prefix_at(s, "AnimationWheel"@, 9);
    lemma_no_prefix_at(s, "AnimationWheel"@, 9);
    lemma_no_prefix_at(s, "AnimationWheel"@, 9);
    lemma_no_prefix_at(s, "AnimationWheel"@, 9);
    lemma_no_prefix_at(s, "AnimationWheel"@, 9);
    lemma_no_prefix_at(s, "AnimationWheel"@, 9);
    lemma_extract_n_then_letter("AnimationSystem"@, n, "PosAudio"@);
    lemma_no_suffix_at(s, "AnimationSystem"@, "Ramp"@, 0);
    lemma_no_suffix_at(s, "AnimationSystem"@, "Shake"@, 0);
    lemma_extract_n_suffix_longer("AnimationSystem"@, n, "PosAudio"@, "Audio"@);
    lemma_no_suffix_at(s, "AnimationSystem"@, "Random"@, 0);
    lemma_no_suffix_at(s, "AnimationSystem"@, "Pos"@, 0);
    lemma_no_suffix_at(s, "AnimationSystem"@, "PosRotate"@, 0);
    lemma_no_suffix_at(s, "AnimationSystem"@, "PosShake"@, 3);
    lemma_no_suffix_at(s, "AnimationSystem"@, "PosRandom"@, 0);
    lemma_extract_n_suffix_of("AnimationSystem"@, n, "PosAudio"@);
}

/// The name of `AnimationSystemMacro` is read back as `AnimationSystemMacro`.
proof fn lemma_numbered_name_animation_system_macro(n: u8)
    ensures
        AttributeView::parse(AttributeView::AnimationSystemMacro(n).name()) == AttributeView::AnimationSystemMacro(n),
{
    let s = AttributeView::AnimationSystemMacro(n).name();
    lemma_dec(n);
    reveal_strlit("AnimationSystem");
    reveal_strlit("AnimationWheel");
    reveal_strlit("Audio");
    reveal_strlit("Gobo");
    reveal_strlit("Macro");
    reveal_strlit("Pos");
    reveal_strlit("PosAudio");
    reveal_strlit("PosRandom");
    reveal_strlit("PosRotate");
    reveal_strlit("PosShake");
    reveal_strlit("Ramp");
    reveal_strlit("Random");
    reveal_strlit("Shake");
    assert(s[15] == dec(n)[0]);
    lemma_fixed_rejects_digit(s, 15);
    lemma_no_prefix_at(s, "Gobo"@, 0);
    lemma_no_prefix_at(s, "Gobo"@, 0);
    lemma_no_prefix_at(s, "Gobo"@, 0);
    lemma_no_prefix_at(s, "Gobo"@, 0);
    lemma_no_prefix_at(s, "Gobo"@, 0);
    lemma_no_prefix_at(s, "Gobo"@, 0);
    lemma_no_prefix_at(s, "Gobo"@, 0);
    lemma_no_prefix_at(s, "Gobo"@, 0);
    lemma_no_prefix_at(s, "Gobo"@, 0);
    lemma_no_prefix_at(s, "Gobo"@, 0);
    lemma_no_prefix_at(s, "Gobo"@, 0);
    lemma_no_prefix_at(s, "Gobo"@, 0);
    lemma_no_prefix_at(s, "AnimationWheel"@, 9);
    lemma_no_prefix_at(s, "AnimationWheel"@, 9);
    lemma_no_prefix_at(s, "AnimationWheel"@, 9);
    lemma_no_prefix_at(s, "AnimationWheel"@, 9);
    lemma_no_prefix_at(s, "AnimationWheel"@, 9);
    lemma_no_prefix_at(s, "AnimationWheel"@, 9);
    lemma_no_prefix_at(s, "AnimationWheel"@, 9);
    lemma_no_prefix_at(s, "AnimationWheel"@, 9);
    lemma_no_prefix_at(s, "AnimationWheel"@, 9);
    lemma_no_prefix_at(s, "AnimationWheel"@, 9);
    lemma_extract_n_then_letter("AnimationSystem"@, n, "Macro"@);
    lemma_no_suffix_at(s, "AnimationSystem"@, "Ramp"@, 0);
    lemma_no_suffix_at(s, "AnimationSystem"@, "Shake"@, 0);
    lemma_no_suffix_at(s, "AnimationSystem"@, "Audio"@, 0);
    lemma_no_suffix_at(s, "AnimationSystem"@, "Random"@, 0);
    lemma_no_suffix_at(s, "AnimationSystem"@, "Pos"@, 0);
    lemma_no_suffix_at(s, "AnimationSystem"@, "PosRotate"@, 3);
    lemma_no_suffix_at(s, "AnimationSystem"@, "PosShake"@, 2);
    lemma_no_suffix_at(s, "AnimationSystem"@, "PosRandom"@, 3);
    lemma_no_suffix_at(s, "AnimationSystem"@, "PosAudio"@, 2);
    lemma_extract_n_suffix_of("AnimationSystem"@, n, "Macro"@);
}

/// The name of `MediaFolder` is read back as `MediaFolder`.
proof fn lemma_numbered_name_media_folder(n: u8)
    ensures
        AttributeView::parse(AttributeView::MediaFolder(n).name()) == AttributeView::MediaFolder(n),
{
    let s = AttributeView::MediaFolder(n).name();
    lemma_dec(n);
    reveal_strlit("AnimationSystem");
    reveal_strlit("AnimationWheel");
    reveal_strlit("Gobo");
    reveal_strlit("MediaFolder");
    assert(s[11] == dec(n)[0]);
    lemma_fixed_rejects_digit(s, 11);
    lemma_no_prefix_at(s, "Gobo"@, 0);
    lemma_no_prefix_at(s, "Gobo"@, 0);
    lemma_no_prefix_at(s, "Gobo"@, 0);
    lemma_no_prefix_at(s, "Gobo"@, 0);
    lemma_no_prefix_at(s, "Gobo"@, 0);
    lemma_no_prefix_at(s, "Gobo"@, 0);
    lemma_no_prefix_at(s, "Gobo"@, 0);
    lemma_no_prefix_at(s, "Gobo"@, 0);
    lemma_no_prefix_at(s, "Gobo"@, 0);
    lemma_no_prefix_at(s, "Gobo"@, 0);
    lemma_no_prefix_at(s, "Gobo"@, 0);
    lemma_no_prefix_at(s, "Gobo"@, 0);
    lemma_no_prefix_at(s, "AnimationWheel"@, 0);
    lemma_no_prefix_at(s, "AnimationWheel"@, 0);
    lemma_no_prefix_at(s, "AnimationWheel"@, 0);
    lemma_no_prefix_at(s, "AnimationWheel"@, 0);
    lemma_no_prefix_at(s, "AnimationWheel"@, 0);
    lemma_no_prefix_at(s, "AnimationWheel"@, 0);
    lemma_no_prefix_at(s, "AnimationWheel"@, 0);
    lemma_no_prefix_at(s, "AnimationWheel"@, 0);
    lemma_no_prefix_at(s, "AnimationWheel"@, 0);
    lemma_no_prefix_at(s, "AnimationWheel"@, 0);
    lemma_no_prefix_at(s, "AnimationSystem"@, 0);
    lemma_no_prefix_at(s, "AnimationSystem"@, 0);
    lemma_no_prefix_at(s, "AnimationSystem"@, 0);
    lemma_no_prefix_at(s, "AnimationSystem"@, 0);
    lemma_no_prefix_at(s, "AnimationSystem"@, 0);
    lemma_no_prefix_at(s, "AnimationSystem"@, 0);
    lemma_no_prefix_at(s, "AnimationSystem"@, 0);
    lemma_no_prefix_at(s, "AnimationSystem"@, 0);
    lemma_no_prefix_at(s, "AnimationSystem"@, 0);
    lemma_no_prefix_at(s, "AnimationSystem"@, 0);
    lemma_no_prefix_at(s, "AnimationSystem"@, 0);
    lemma_extract_n_of("MediaFolder"@, n);
}

/// The name of `MediaContent` is read back as `MediaContent`.
proof fn lemma_numbered_name_media_content(n: u8)
    ensures
        AttributeView::parse(AttributeView::MediaContent(n).name()) == AttributeView::MediaContent(n),
{
    let s = AttributeView::MediaContent(n).name();
    lemma_dec(n);
    reveal_strlit("AnimationSystem");
    reveal_strlit("AnimationWheel");
    reveal_strlit("Gobo");
    reveal_strlit("MediaContent");
    reveal_strlit("MediaFolder");
    assert(s[12] == dec(n)[0]);
    lemma_fixed_rejects_digit(s, 12);
    lemma_no_prefix_at(s, "Gobo"@, 0);
    lemma_no_prefix_at(s, "Gobo"@, 0);
    lemma_no_prefix_at(s, "Gobo"@, 0);
    lemma_no_prefix_at(s, "Gobo"@, 0);
    lemma_no_prefix_at(s, "Gobo"@, 0);
    lemma_no_prefix_at(s, "Gobo"@, 0);
    lemma_no_prefix_at(s, "Gobo"@, 0);
    lemma_no_prefix_at(s, "Gobo"@, 0);
    lemma_no_prefix_at(s, "Gobo"@, 0);
    lemma_no_prefix_at(s, "Gobo"@, 0);
    lemma_no_prefix_at(s, "Gobo"@, 0);
    lemma_no_prefix_at(s, "Gobo"@, 0);
    lemma_no_prefix_at(s, "AnimationWheel"@, 0);
    lemma_no_prefix_at(s, "AnimationWheel"@, 0);
    lemma_no_prefix_at(s, "AnimationWheel"@, 0);
    lemma_no_prefix_at(s, "AnimationWheel"@, 0);
    lemma_no_prefix_at(s, "AnimationWheel"@, 0);
    lemma_no_prefix_at(s, "AnimationWheel"@, 0);
    lemma_no_prefix_at(s, "AnimationWheel"@, 0);
    lemma_no_prefix_at(s, "AnimationWheel"@, 0);
    lemma_no_prefix_at(s, "AnimationWheel"@, 0);
    lemma_no_prefix_at(s, "AnimationWheel"@, 0);
    lemma_no_prefix_at(s, "AnimationSystem"@, 0);
    lemma_no_prefix_at(s, "AnimationSystem"@, 0);
    lemma_no_prefix_at(s, "AnimationSystem"@, 0);
    lemma_no_prefix_at(s, "AnimationSystem"@, 0);
    lemma_no_prefix_at(s, "AnimationSystem"@, 0);
    lemma_no_prefix_at(s, "AnimationSystem"@, 0);
    lemma_no_prefix_at(s, "AnimationSystem"@, 0);
    lemma_no_prefix_at(s, "AnimationSystem"@, 0);
    lemma_no_prefix_at(s, "AnimationSystem"@, 0);
    lemma_no_prefix_at(s, "AnimationSystem"@, 0);
    lemma_no_prefix_at(s, "AnimationSystem"@, 0);
    lemma_no_prefix_at(s, "MediaFolder"@, 5);
    lemma_extract_n_of("MediaContent"@, n);
}

/// The name of `ModelFolder` is read back as `ModelFolder`.
proof fn lemma_numbered_name_model_folder(n: u8)
    ensures
        AttributeView::parse(AttributeView::ModelFolder(n).name()) == AttributeView::ModelFolder(n),
{
    let s = AttributeView::ModelFolder(n).name();
    lemma_dec(n);
    reveal_strlit("AnimationSystem");
    reveal_strlit("AnimationWheel");
    reveal_strlit("Gobo");
    reveal_strlit("MediaContent");
    reveal_strlit("MediaFolder");
    reveal_strlit("ModelFolder");
    assert(s[11] == dec(n)[0]);
    lemma_fixed_rejects_digit(s, 11);
    lemma_no_prefix_at(s, "Gobo"@, 0);
    lemma_no_prefix_at(s, "Gobo"@, 0);
    lemma_no_prefix_at(s, "Gobo"@, 0);
    lemma_no_prefix_at(s, "Gobo"@, 0);
    lemma_no_prefix_at(s, "Gobo"@, 0);
    lemma_no_prefix_at(s, "Gobo"@, 0);
    lemma_no_prefix_at(s, "Gobo"@, 0);
    lemma_no_prefix_at(s, "Gobo"@, 0);
    lemma_no_prefix_at(s, "Gobo"@, 0);
    lemma_no_prefix_at(s, "Gobo"@, 0);
    lemma_no_prefix_at(s, "Gobo"@, 0);
    lemma_no_prefix_at(s, "Gobo"@, 0);
    lemma_no_prefix_at(s, "AnimationWheel"@, 0);
    lemma_no_prefix_at(s, "AnimationWheel"@, 0);
    lemma_no_prefix_at(s, "AnimationWheel"@, 0);
    lemma_no_prefix_at(s, "AnimationWheel"@, 0);
    lemma_no_prefix_at(s, "AnimationWheel"@, 0);
    lemma_no_prefix_at(s, "AnimationWheel"@, 0);
    lemma_no_prefix_at(s, "AnimationWheel"@, 0);
    lemma_no_prefix_at(s, "AnimationWheel"@, 0);
    lemma_no_prefix_at(s, "AnimationWheel"@, 0);
    lemma_no_prefix_at(s, "AnimationWheel"@, 0);
    lemma_no_prefix_at(s, "AnimationSystem"@, 0);
    lemma_no_prefix_at(s, "AnimationSystem"@, 0);
    lemma_no_prefix_at(s, "AnimationSystem"@, 0);
    lemma_no_prefix_at(s, "AnimationSystem"@, 0);
    lemma_no_prefix_at(s, "AnimationSystem"@, 0);
    lemma_no_prefix_at(s, "AnimationSystem"@, 0);
    lemma_no_prefix_at(s, "AnimationSystem"@, 0);
    lemma_no_prefix_at(s, "AnimationSystem"@, 0);
    lemma_no_prefix_at(s, "AnimationSystem"@, 0);
    lemma_no_prefix_at(s, "AnimationSystem"@, 0);
    lemma_no_prefix_at(s, "AnimationSystem"@, 0);
    lemma_no_prefix_at(s, "MediaFolder"@, 1);
    lemma_no_prefix_at(s, "MediaContent"@, 1);
    lemma_extract_n_of("ModelFolder"@, n);
}

/// The name of `ModelContent` is read back as `ModelContent`.
proof fn lemma_numbered_name_model_content(n: u8)
    ensures
        AttributeView::parse(AttributeView::ModelContent(n).name()) == AttributeView::ModelContent(n),
{
    let s = AttributeView::ModelContent(n).name();
    lemma_dec(n);
    reveal_strlit("AnimationSystem");
    reveal_strlit("AnimationWheel");
    reveal_strlit("Gobo");
    reveal_strlit("MediaContent");
    reveal_strlit("MediaFolder");
    reveal_strlit("ModelContent");
    reveal_strlit("ModelFolder");
    assert(s[12] == dec(n)[0]);
    lemma_fixed_rejects_digit(s, 12);
    lemma_no_prefix_at(s, "Gobo"@, 0);
    lemma_no_prefix_at(s, "Gobo"@, 0);
    lemma_no_prefix_at(s, "Gobo"@, 0);
    lemma_no_prefix_at(s, "Gobo"@, 0);
    lemma_no_prefix_at(s, "Gobo"@, 0);
    lemma_no_prefix_at(s, "Gobo"@, 0);
    lemma_no_prefix_at(s, "Gobo"@, 0);
    lemma_no_prefix_at(s, "Gobo"@, 0);
    lemma_no_prefix_at(s, "Gobo"@, 0);
    lemma_no_prefix_at(s, "Gobo"@, 0);
    lemma_no_prefix_at(s, "Gobo"@, 0);
    lemma_no_prefix_at(s, "Gobo"@, 0);
    lemma_no_prefix_at(s, "AnimationWheel"@, 0);
    lemma_no_prefix_at(s, "AnimationWheel"@, 0);
    lemma_no_prefix_at(s, "AnimationWheel"@, 0);
    lemma_no_prefix_at(s, "AnimationWheel"@, 0);
    lemma_no_prefix_at(s, "AnimationWheel"@, 0);
    lemma_no_prefix_at(s, "AnimationWheel"@, 0);
    lemma_no_prefix_at(s, "AnimationWheel"@, 0);
    lemma_no_prefix_at(s, "AnimationWheel"@, 0);
    lemma_no_prefix_at(s, "AnimationWheel"@, 0);
    lemma_no_prefix_at(s, "AnimationWheel"@, 0);
    lemma_no_prefix_at(s, "AnimationSystem"@, 0);
    lemma_no_prefix_at(s, "AnimationSystem"@, 0);
    lemma_no_prefix_at(s, "AnimationSystem"@, 0);
    lemma_no_prefix_at(s, "AnimationSystem"@, 0);
    lemma_no_prefix_at(s, "AnimationSystem"@, 0);
    lemma_no_prefix_at(s, "AnimationSystem"@, 0);
    lemma_no_prefix_at(s, "AnimationSystem"@, 0);
    lemma_no_prefix_at(s, "AnimationSystem"@, 0);
    lemma_no_prefix_at(s, "AnimationSystem"@, 0);
    lemma_no_prefix_at(s, "AnimationSystem"@, 0);
    lemma_no_prefix_at(s, "AnimationSystem"@, 0);
    lemma_no_prefix_at(s, "MediaFolder"@, 1);
    lemma_no_prefix_at(s, "MediaContent"@, 1);
    lemma_no_prefix_at(s, "ModelFolder"@, 5);
    lemma_extract_n_of("ModelContent"@, n);
}

/// The name of `ColorEffects` is read back as `ColorEffects`.
proof fn lemma_numbered_name_color_effects(n: u8)
    ensures
        AttributeView::parse(AttributeView::ColorEffects(n).name()) == AttributeView::ColorEffects(n),
{
    let s = AttributeView::ColorEffects(n).name();
    lemma_dec(n);
    reveal_strlit("AnimationSystem");
    reveal_strlit("AnimationWheel");
    reveal_strlit("ColorEffects");
    reveal_strlit("Gobo");
    reveal_strlit("MediaContent");
    reveal_strlit("MediaFolder");
    reveal_strlit("ModelContent");
    reveal_strlit("ModelFolder");
    assert(s[12] == dec(n)[0]);
    lemma_fixed_rejects_digit(s, 12);
    lemma_no_prefix_at(s, "Gobo"@, 0);
    lemma_no_prefix_at(s, "Gobo"@, 0);
    lemma_no_prefix_at(s, "Gobo"@, 0);
    lemma_no_prefix_at(s, "Gobo"@, 0);
    lemma_no_prefix_at(s, "Gobo"@, 0);
    lemma_no_prefix_at(s, "Gobo"@, 0);
    lemma_no_prefix_at(s, "Gobo"@, 0);
    lemma_no_prefix_at(s, "Gobo"@, 0);
    lemma_no_prefix_at(s, "Gobo"@, 0);
    lemma_no_prefix_at(s, "Gobo"@, 0);
    lemma_no_prefix_at(s, "Gobo"@, 0);
    lemma_no_prefix_at(s, "Gobo"@, 0);
    lemma_no_prefix_at(s, "AnimationWheel"@, 0);
    lemma_no_prefix_at(s, "AnimationWheel"@, 0);
    lemma_no_prefix_at(s, "AnimationWheel"@, 0);
    lemma_no_prefix_at(s, "AnimationWheel"@, 0);
    lemma_no_prefix_at(s, "AnimationWheel"@, 0);
    lemma_no_prefix_at(s, "AnimationWheel"@, 0);
    lemma_no_prefix_at(s, "AnimationWheel"@, 0);
    lemma_no_prefix_at(s, "AnimationWheel"@, 0);
    lemma_no_prefix_at(s, "AnimationWheel"@, 0);
    lemma_no_prefix_at(s, "AnimationWheel"@, 0);
    lemma_no_prefix_at(s, "AnimationSystem"@, 0);
    lemma_no_prefix_at(s, "AnimationSystem"@, 0);
    lemma_no_prefix_at(s, "AnimationSystem"@, 0);
    lemma_no_prefix_at(s, "AnimationSystem"@, 0);
    lemma_no_prefix_at(s, "AnimationSystem"@, 0);
    lemma_no_prefix_at(s, "AnimationSystem"@, 0);
    lemma_no_prefix_at(s, "AnimationSystem"@, 0);
    lemma_no_prefix_at(s, "AnimationSystem"@, 0);
    lemma_no_prefix_at(s, "AnimationSystem"@, 0);
    lemma_no_prefix_at(s, "AnimationSystem"@, 0);
    lemma_no_prefix_at(s, "AnimationSystem"@, 0);
    lemma_no_prefix_at(s, "MediaFolder"@, 0);
    lemma_no_prefix_at(s, "MediaContent"@, 0);
    lemma_no_prefix_at(s, "ModelFolder"@, 0);
    lemma_no_prefix_at(s, "ModelContent"@, 0);
    lemma_extract_n_of("ColorEffects"@, n);
}

/// The name of `Color` is read back as `Color`.
proof fn lemma_numbered_name_color(n: u8)
    ensures
        AttributeView::parse(AttributeView::Color(n).name()) == AttributeView::Color(n),
{
    let s = AttributeView::Color(n).name();
    lemma_dec(n);
    reveal_strlit("AnimationSystem");
    reveal_strlit("AnimationWheel");
    reveal_strlit("Color");
    reveal_strlit("ColorEffects");
    reveal_strlit("Gobo");
    reveal_strlit("MediaContent");
    reveal_strlit("MediaFolder");
    reveal_strlit("ModelContent");
    reveal_strlit("ModelFolder");
    assert(s[5] == dec(n)[0]);
    lemma_fixed_rejects_digit(s, 5);
    lemma_no_prefix_at(s, "Gobo"@, 0);
    lemma_no_prefix_at(s, "Gobo"@, 0);
    lemma_no_prefix_at(s, "Gobo"@, 0);
    lemma_no_prefix_at(s, "Gobo"@, 0);
    lemma_no_prefix_at(s, "Gobo"@, 0);
    lemma_no_prefix_at(s, "Gobo"@, 0);
    lemma_no_prefix_at(s, "Gobo"@, 0);
    lemma_no_prefix_at(s, "Gobo"@, 0);
    lemma_no_prefix_at(s, "Gobo"@, 0);
    lemma_no_prefix_at(s, "Gobo"@, 0);
    lemma_no_prefix_at(s, "Gobo"@, 0);
    lemma_no_prefix_at(s, "Gobo"@, 0);
    lemma_no_prefix_at(s, "AnimationWheel"@, 0);
    lemma_no_prefix_at(s, "AnimationWheel"@, 0);
    lemma_no_prefix_at(s, "AnimationWheel"@, 0);
    lemma_no_prefix_at(s, "AnimationWheel"@, 0);
    lemma_no_prefix_at(s, "AnimationWheel"@, 0);
    lemma_no_prefix_at(s, "AnimationWheel"@, 0);
    lemma_no_prefix_at(s, "AnimationWheel"@, 0);
    lemma_no_prefix_at(s, "AnimationWheel"@, 0);
    lemma_no_prefix_at(s, "AnimationWheel"@, 0);
    lemma_no_prefix_at(s, "AnimationWheel"@, 0);
    lemma_no_prefix_at(s, "AnimationSystem"@, 0);
    lemma_no_prefix_at(s, "AnimationSystem"@, 0);
    lemma_no_prefix_at(s, "AnimationSystem"@, 0);
    lemma_no_prefix_at(s, "AnimationSystem"@, 0);
    lemma_no_prefix_at(s, "AnimationSystem"@, 0);
    lemma_no_prefix_at(s, "AnimationSystem"@, 0);
    lemma_no_prefix_at(s, "AnimationSystem"@, 0);
    lemma_no_prefix_at(s, "AnimationSystem"@, 0);
    lemma_no_prefix_at(s, "AnimationSystem"@, 0);
    lemma_no_prefix_at(s, "AnimationSystem"@, 0);
    lemma_no_prefix_at(s, "AnimationSystem"@, 0);
    lemma_no_prefix_at(s, "MediaFolder"@, 0);
    lemma_no_prefix_at(s, "MediaContent"@, 0);
    lemma_no_prefix_at(s, "ModelFolder"@, 0);
    lemma_no_prefix_at(s, "ModelContent"@, 0);
    lemma_no_prefix_at(s, "ColorEffects"@, 5);
    lemma_extract_n_of("Color"@, n);
}

/// The name of `ColorWheelIndex` is read back as `ColorWheelIndex`.
proof fn lemma_numbered_name_color_wheel_index(n: u8)
    ensures
        AttributeView::parse(AttributeView::ColorWheelIndex(n).name()) == AttributeView::ColorWheelIndex(n),
{
    let s = AttributeView::ColorWheelIndex(n).name();
    lemma_dec(n);
    reveal_strlit("AnimationSystem");
    reveal_strlit("AnimationWheel");
    reveal_strlit("Color");
    reveal_strlit("ColorEffects");
    reveal_strlit("Gobo");
    reveal_strlit("MediaContent");
    reveal_strlit("MediaFolder");
    reveal_strlit("ModelContent");
    reveal_strlit("ModelFolder");
    reveal_strlit("WheelIndex");
    assert(s[5] == dec(n)[0]);
    lemma_fixed_rejects_digit(s, 5);
    lemma_no_prefix_at(s, "Gobo"@, 0);
    lemma_no_prefix_at(s, "Gobo"@, 0);
    lemma_no_prefix_at(s, "Gobo"@, 0);
    lemma_no_prefix_at(s, "Gobo"@, 0);
    lemma_no_prefix_at(s, "Gobo"@, 0);
    lemma_no_prefix_at(s, "Gobo"@, 0);
    lemma_no_prefix_at(s, "Gobo"@, 0);
    lemma_no_prefix_at(s, "Gobo"@, 0);
    lemma_no_prefix_at(s, "Gobo"@, 0);
    lemma_no_prefix_at(s, "Gobo"@, 0);
    lemma_no_prefix_at(s, "Gobo"@, 0);
    lemma_no_prefix_at(s, "Gobo"@, 0);
    lemma_no_prefix_at(s, "AnimationWheel"@, 0);
    lemma_no_prefix_at(s, "AnimationWheel"@, 0);
    lemma_no_prefix_at(s, "AnimationWheel"@, 0);
    lemma_no_prefix_at(s, "AnimationWheel"@, 0);
    lemma_no_prefix_at(s, "AnimationWheel"@, 0);
    lemma_no_prefix_at(s, "AnimationWheel"@, 0);
    lemma_no_prefix_at(s, "AnimationWheel"@, 0);
    lemma_no_prefix_at(s, "AnimationWheel"@, 0);
    lemma_no_prefix_at(s, "AnimationWheel"@, 0);
    lemma_no_prefix_at(s, "AnimationWheel"@, 0);
    lemma_no_prefix_at(s, "AnimationSystem"@, 0);
    lemma_no_prefix_at(s, "AnimationSystem"@, 0);
    lemma_no_prefix_at(s, "AnimationSystem"@, 0);
    lemma_no_prefix_at(s, "AnimationSystem"@, 0);
    lemma_no_prefix_at(s, "AnimationSystem"@, 0);
    lemma_no_prefix_at(s, "AnimationSystem"@, 0);
    lemma_no_prefix_at(s, "AnimationSystem"@, 0);
    lemma_no_prefix_at(s, "AnimationSystem"@, 0);
    lemma_no_prefix_at(s, "AnimationSystem"@, 0);
    lemma_no_prefix_at(s, "AnimationSystem"@, 0);
    lemma_no_prefix_at(s, "AnimationSystem"@, 0);
    lemma_no_prefix_at(s, "MediaFolder"@, 0);
    lemma_no_prefix_at(s, "MediaContent"@, 0);
    lemma_no_prefix_at(s, "ModelFolder"@, 0);
    lemma_no_prefix_at(s, "ModelContent"@, 0);
    lemma_no_prefix_at(s, "ColorEffects"@, 5);
    lemma_extract_n_then_letter("Color"@, n, "WheelIndex"@);
    lemma_extract_n_suffix_of("Color"@, n, "WheelIndex"@);
}

/// The name of `ColorWheelSpin` is read back as `ColorWheelSpin`.
proof fn lemma_numbered_name_color_wheel_spin(n: u8)
    ensures
        AttributeView::parse(AttributeView::ColorWheelSpin(n).name()) == AttributeView::ColorWheelSpin(n),
{
    let s = AttributeView::ColorWheelSpin(n).name();
    lemma_dec(n);
    reveal_strlit("AnimationSystem");
    reveal_strlit("AnimationWheel");
    reveal_strlit("Color");
    reveal_strlit("ColorEffects");
    reveal_strlit("Gobo");
    reveal_strlit("MediaContent");
    reveal_strlit("MediaFolder");
    reveal_strlit("ModelContent");
    reveal_strlit("ModelFolder");
    reveal_strlit("WheelIndex");
    reveal_strlit("WheelSpin");
    assert(s[5] == dec(n)[0]);
    lemma_fixed_rejects_digit(s, 5);
    lemma_no_prefix_at(s, "Gobo"@, 0);
    lemma_no_prefix_at(s, "Gobo"@, 0);
    lemma_no_prefix_at(s, "Gobo"@, 0);
    lemma_no_prefix_at(s, "Gobo"@, 0);
    lemma_no_prefix_at(s, "Gobo"@, 0);
    lemma_no_prefix_at(s, "Gobo"@, 0);
    lemma_no_prefix_at(s, "Gobo"@, 0);
    lemma_no_prefix_at(s, "Gobo"@, 0);
    lemma_no_prefix_at(s, "Gobo"@, 0);
    lemma_no_prefix_at(s, "Gobo"@, 0);
    lemma_no_prefix_at(s, "Gobo"@, 0);
    lemma_no_prefix_at(s, "Gobo"@, 0);
    lemma_no_prefix_at(s, "AnimationWheel"@, 0);
    lemma_no_prefix_at(s, "AnimationWheel"@, 0);
    lemma_no_prefix_at(s, "AnimationWheel"@, 0);
    lemma_no_prefix_at(s, "AnimationWheel"@, 0);
    lemma_no_prefix_at(s, "AnimationWheel"@, 0);
    lemma_no_prefix_at(s, "AnimationWheel"@, 0);
    lemma_no_prefix_at(s, "AnimationWheel"@, 0);
    lemma_no_prefix_at(s, "AnimationWheel"@, 0);
    lemma_no_prefix_at(s, "AnimationWheel"@, 0);
    lemma_no_prefix_at(s, "AnimationWheel"@, 0);
    lemma_no_prefix_at(s, "AnimationSystem"@, 0);
    lemma_no_prefix_at(s, "AnimationSystem"@, 0);
    lemma_no_prefix_at(s, "AnimationSystem"@, 0);
    lemma_no_prefix_at(s, "AnimationSystem"@, 0);
    lemma_no_prefix_at(s, "AnimationSystem"@, 0);
    lemma_no_prefix_at(s, "AnimationSystem"@, 0);
    lemma_no_prefix_at(s, "AnimationSystem"@, 0);
    lemma_no_prefix_at(s, "AnimationSystem"@, 0);
    lemma_no_prefix_at(s, "AnimationSystem"@, 0);
    lemma_no_prefix_at(s, "AnimationSystem"@, 0);
    lemma_no_prefix_at(s, "AnimationSystem"@, 0);
    lemma_no_prefix_at(s, "MediaFolder"@, 0);
    lemma_no_prefix_at(s, "MediaContent"@, 0);
    lemma_no_prefix_at(s, "ModelFolder"@, 0);
    lemma_no_prefix_at(s, "ModelContent"@, 0);
    lemma_no_prefix_at(s, "ColorEffects"@, 5);
    lemma_extract_n_then_letter("Color"@, n, "WheelSpin"@);
    lemma_no_suffix_at(s, "Color"@, "WheelIndex"@, 0);
    lemma_extract_n_suffix_of("Color"@, n, "WheelSpin"@);
}

/// The name of `ColorWheelRandom` is read back as `ColorWheelRandom`.
proof fn lemma_numbered_name_color_wheel_random(n: u8)
    ensures
        AttributeView::parse(AttributeView::ColorWheelRandom(n).name()) == AttributeView::ColorWheelRandom(n),
{
    let s = AttributeView::ColorWheelRandom(n).name();
    lemma_dec(n);
    reveal_strlit("AnimationSystem");
    reveal_strlit("AnimationWheel");
    reveal_strlit("Color");
    reveal_strlit("ColorEffects");
    reveal_strlit("Gobo");
    reveal_strlit("MediaContent");
    reveal_strlit("MediaFolder");
    reveal_strlit("ModelContent");
    reveal_strlit("ModelFolder");
    reveal_strlit("WheelIndex");
    reveal_strlit("WheelRandom");
    reveal_strlit("WheelSpin");
    assert(s[5] == dec(n)[0]);
    lemma_fixed_rejects_digit(s, 5);
    lemma_no_prefix_at(s, "Gobo"@, 0);
    lemma_no_prefix_at(s, "Gobo"@, 0);
    lemma_no_prefix_at(s, "Gobo"@, 0);
    lemma_no_prefix_at(s, "Gobo"@, 0);
    lemma_no_prefix_at(s, "Gobo"@, 0);
    lemma_no_prefix_at(s, "Gobo"@, 0);
    lemma_no_prefix_at(s, "Gobo"@, 0);
    lemma_no_prefix_at(s, "Gobo"@, 0);
    lemma_no_prefix_at(s, "Gobo"@, 0);
    lemma_no_prefix_at(s, "Gobo"@, 0);
    lemma_no_prefix_at(s, "Gobo"@, 0);
    lemma_no_prefix_at(s, "Gobo"@, 0);
    lemma_no_prefix_at(s, "AnimationWheel"@, 0);
    lemma_no_prefix_at(s, "AnimationWheel"@, 0);
    lemma_no_prefix_at(s, "AnimationWheel"@, 0);
    lemma_no_prefix_at(s, "AnimationWheel"@, 0);
    lemma_no_prefix_at(s, "AnimationWheel"@, 0);
    lemma_no_prefix_at(s, "AnimationWheel"@, 0);
    lemma_no_prefix_at(s, "AnimationWheel"@, 0);
    lemma_no_prefix_at(s, "AnimationWheel"@, 0);
    lemma_no_prefix_at(s, "AnimationWheel"@, 0);
    lemma_no_prefix_at(s, "AnimationWheel"@, 0);
    lemma_no_prefix_at(s, "AnimationSystem"@, 0);
    lemma_no_prefix_at(s, "AnimationSystem"@, 0);
    lemma_no_prefix_at(s, "AnimationSystem"@, 0);
    lemma_no_prefix_at(s, "AnimationSystem"@, 0);
    lemma_no_prefix_at(s, "AnimationSystem"@, 0);
    lemma_no_prefix_at(s, "AnimationSystem"@, 0);
    lemma_no_prefix_at(s, "AnimationSystem"@, 0);
    lemma_no_prefix_at(s, "AnimationSystem"@, 0);
    lemma_no_prefix_at(s, "AnimationSystem"@, 0);
    lemma_no_prefix_at(s, "AnimationSystem"@, 0);
    lemma_no_prefix_at(s, "AnimationSystem"@, 0);
    lemma_no_prefix_at(s, "MediaFolder"@, 0);
    lemma_no_prefix_at(s, "MediaContent"@, 0);
    lemma_no_prefix_at(s, "ModelFolder"@, 0);
    lemma_no_prefix_at(s, "ModelContent"@, 0);
    lemma_no_prefix_at(s, "ColorEffects"@, 5);
    lemma_extract_n_then_letter("Color"@, n, "WheelRandom"@);
    lemma_no_suffix_at(s, "Color"@, "WheelIndex"@, 0);
    lemma_no_suffix_at(s, "Color"@, "WheelSpin"@, 0);
    lemma_extract_n_suffix_of("Color"@, n, "WheelRandom"@);
}

/// The name of `ColorWheelAudio` is read back as `ColorWheelAudio`.
proof fn lemma_numbered_name_color_wheel_audio(n: u8)
    ensures
        AttributeView::parse(AttributeView::ColorWheelAudio(n).name()) == AttributeView::ColorWheelAudio(n),
{
    let s = AttributeView::ColorWheelAudio(n).name();
    lemma_dec(n);
    reveal_strlit("AnimationSystem");
    reveal_strlit("AnimationWheel");
    reveal_strlit("Color");
    reveal_strlit("ColorEffects");
    reveal_strlit("Gobo");
    reveal_strlit("MediaContent");
    reveal_strlit("MediaFolder");
    reveal_strlit("ModelContent");
    reveal_strlit("ModelFolder");
    reveal_strlit("WheelAudio");
    reveal_strlit("WheelIndex");
    reveal_strlit("WheelRandom");
    reveal_strlit("WheelSpin");
    assert(s[5] == dec(n)[0]);
    lemma_fixed_rejects_digit(s, 5);
    lemma_no_prefix_at(s, "Gobo"@, 0);
    lemma_no_prefix_at(s, "Gobo"@, 0);
    lemma_no_prefix_at(s, "Gobo"@, 0);
    lemma_no_prefix_at(s, "Gobo"@, 0);
    lemma_no_prefix_at(s, "Gobo"@, 0);
    lemma_no_prefix_at(s, "Gobo"@, 0);
    lemma_no_prefix_at(s, "Gobo"@, 0);
    lemma_no_prefix_at(s, "Gobo"@, 0);
    lemma_no_prefix_at(s, "Gobo"@, 0);
    lemma_no_prefix_at(s, "Gobo"@, 0);
    lemma_no_prefix_at(s, "Gobo"@, 0);
    lemma_no_prefix_at(s, "Gobo"@, 0);
    lemma_no_prefix_at(s, "AnimationWheel"@, 0);
    lemma_no_prefix_at(s, "AnimationWheel"@, 0);
    lemma_no_prefix_at(s, "AnimationWheel"@, 0);
    lemma_no_prefix_at(s, "AnimationWheel"@, 0);
    lemma_no_prefix_at(s, "AnimationWheel"@, 0);
    lemma_no_prefix_at(s, "AnimationWheel"@, 0);
    lemma_no_prefix_at(s, "AnimationWheel"@, 0);
    lemma_no_prefix_at(s, "AnimationWheel"@, 0);
    lemma_no_prefix_at(s, "AnimationWheel"@, 0);
    lemma_no_prefix_at(s, "AnimationWheel"@, 0);
    lemma_no_prefix_at(s, "AnimationSystem"@, 0);
    lemma_no_prefix_at(s, "AnimationSystem"@, 0);
    lemma_no_prefix_at(s, "AnimationSystem"@, 0);
    lemma_no_prefix_at(s, "AnimationSystem"@, 0);
    lemma_no_prefix_at(s, "AnimationSystem"@, 0);
    lemma_no_prefix_at(s, "AnimationSystem"@, 0);
    lemma_no_prefix_at(s, "AnimationSystem"@, 0);
    lemma_no_prefix_at(s, "AnimationSystem"@, 0);
    lemma_no_prefix_at(s, "AnimationSystem"@, 0);
    lemma_no_prefix_at(s, "AnimationSystem"@, 0);
    lemma_no_prefix_at(s, "AnimationSystem"@, 0);
    lemma_no_prefix_at(s, "MediaFolder"@, 0);
    lemma_no_prefix_at(s, "MediaContent"@, 0);
    lemma_no_prefix_at(s, "ModelFolder"@, 0);
    lemma_no_prefix_at(s, "ModelContent"@, 0);
    lemma_no_prefix_at(s, "ColorEffects"@, 5);
    lemma_extract_n_then_letter("Color"@, n, "WheelAudio"@);
    lemma_no_suffix_at(s, "Color"@, "WheelIndex"@, 5);
    lemma_no_suffix_at(s, "Color"@, "WheelSpin"@, 0);
    lemma_no_suffix_at(s, "Color"@, "WheelRandom"@, 0);
    lemma_extract_n_suffix_of("Color"@, n, "WheelAudio"@);
}

/// The name of `ColorMacro` is read back as `ColorMacro`.
proof fn lemma_numbered_name_color_macro(n: u8)
    ensures
        AttributeView::parse(AttributeView::ColorMacro(n).name()) == AttributeView::ColorMacro(n),
{
    let s = AttributeView::ColorMacro(n).name();
    lemma_dec(n);
    reveal_strlit("AnimationSystem");
    reveal_strlit("AnimationWheel");
    reveal_strlit("Color");
    reveal_strlit("ColorEffects");
    reveal_strlit("ColorMacro");
    reveal_strlit("Gobo");
    reveal_strlit("MediaContent");
    reveal_strlit("MediaFolder");
    reveal_strlit("ModelContent");
    reveal_strlit("ModelFolder");
    assert(s[10] == dec(n)[0]);
    lemma_fixed_rejects_digit(s, 10);
    lemma_no_prefix_at(s, "Gobo"@, 0);
    lemma_no_prefix_at(s, "Gobo"@, 0);
    lemma_no_prefix_at(s, "Gobo"@, 0);
    lemma_no_prefix_at(s, "Gobo"@, 0);
    lemma_no_prefix_at(s, "Gobo"@, 0);
    lemma_no_prefix_at(s, "Gobo"@, 0);
    lemma_no_prefix_at(s, "Gobo"@, 0);
    lemma_no_prefix_at(s, "Gobo"@, 0);
    lemma_no_prefix_at(s, "Gobo"@, 0);
    lemma_no_prefix_at(s, "Gobo"@, 0);
    lemma_no_prefix_at(s, "Gobo"@, 0);
    lemma_no_prefix_at(s, "Gobo"@, 0);
    lemma_no_prefix_at(s, "AnimationWheel"@, 0);
    lemma_no_prefix_at(s, "AnimationWheel"@, 0);
    lemma_no_prefix_at(s, "AnimationWheel"@, 0);
    lemma_no_prefix_at(s, "AnimationWheel"@, 0);
    lemma_no_prefix_at(s, "AnimationWheel"@, 0);
    lemma_no_prefix_at(s, "AnimationWheel"@, 0);
    lemma_no_prefix_at(s, "AnimationWheel"@, 0);
    lemma_no_prefix_at(s, "AnimationWheel"@, 0);
    lemma_no_prefix_at(s, "AnimationWheel"@, 0);
    lemma_no_prefix_at(s, "AnimationWheel"@, 0);
    lemma_no_prefix_at(s, "AnimationSystem"@, 0);
    lemma_no_prefix_at(s, "AnimationSystem"@, 0);
    lemma_no_prefix_at(s, "AnimationSystem"@, 0);
    lemma_no_prefix_at(s, "AnimationSystem"@, 0);
    lemma_no_prefix_at(s, "AnimationSystem"@, 0);
    lemma_no_prefix_at(s, "AnimationSystem"@, 0);
    lemma_no_prefix_at(s, "AnimationSystem"@, 0);
    lemma_no_prefix_at(s, "AnimationSystem"@, 0);
    lemma_no_prefix_at(s, "AnimationSystem"@, 0);
    lemma_no_prefix_at(s, "AnimationSystem"@, 0);
    lemma_no_prefix_at(s, "AnimationSystem"@, 0);
    lemma_no_prefix_at(s, "MediaFolder"@, 0);
    lemma_no_prefix_at(s, "MediaContent"@, 0);
    lemma_no_prefix_at(s, "ModelFolder"@, 0);
    lemma_no_prefix_at(s, "ModelContent"@, 0);
    lemma_no_prefix_at(s, "ColorEffects"@, 5);
    lemma_letter_after(s, "Color"@);
    lemma_letter_after(s, "Color"@);
    lemma_letter_after(s, "Color"@);
    lemma_letter_after(s, "Color"@);
    lemma_letter_after(s, "Color"@);
    lemma_extract_n_of("ColorMacro"@, n);
}

/// The name of `ColorMacroRate` is read back as `ColorMacroRate`.
proof fn lemma_numbered_name_color_macro_rate(n: u8)
    ensures
        AttributeView::parse(AttributeView::ColorMacroRate(n).name()) == AttributeView::ColorMacroRate(n),
{
    let s = AttributeView::ColorMacroRate(n).name();
    lemma_dec(n);
    reveal_strlit("AnimationSystem");
    reveal_strlit("AnimationWheel");
    reveal_strlit("Color");
    reveal_strlit("ColorEffects");
    reveal_strlit("ColorMacro");
    reveal_strlit("Gobo");
    reveal_strlit("MediaContent");
    reveal_strlit("MediaFolder");
    reveal_strlit("ModelContent");
    reveal_strlit("ModelFolder");
    reveal_strlit("Rate");
    assert(s[10] == dec(n)[0]);
    lemma_fixed_rejects_digit(s, 10);
    lemma_no_prefix_at(s, "Gobo"@, 0);
    lemma_no_prefix_at(s, "Gobo"@, 0);
    lemma_no_prefix_at(s, "Gobo"@, 0);
    lemma_no_prefix_at(s, "Gobo"@, 0);
    lemma_no_prefix_at(s, "Gobo"@, 0);
    lemma_no_prefix_at(s, "Gobo"@, 0);
    lemma_no_prefix_at(s, "Gobo"@, 0);
    lemma_no_prefix_at(s, "Gobo"@, 0);
    lemma_no_prefix_at(s, "Gobo"@, 0);
    lemma_no_prefix_at(s, "Gobo"@, 0);
    lemma_no_prefix_at(s, "Gobo"@, 0);
    lemma_no_prefix_at(s, "Gobo"@, 0);
    lemma_no_prefix_at(s, "AnimationWheel"@, 0);
    lemma_no_prefix_at(s, "AnimationWheel"@, 0);
    lemma_no_prefix_at(s, "AnimationWheel"@, 0);
    lemma_no_prefix_at(s, "AnimationWheel"@, 0);
    lemma_no_prefix_at(s, "AnimationWheel"@, 0);
    lemma_no_prefix_at(s, "AnimationWheel"@, 0);
    lemma_no_prefix_at(s, "AnimationWheel"@, 0);
    lemma_no_prefix_at(s, "AnimationWheel"@, 0);
    lemma_no_prefix_at(s, "AnimationWheel"@, 0);
    lemma_no_prefix_at(s, "AnimationWheel"@, 0);
    lemma_no_prefix_at(s, "AnimationSystem"@, 0);
    lemma_no_prefix_at(s, "AnimationSystem"@, 0);
    lemma_no_prefix_at(s, "AnimationSystem"@, 0);
    lemma_no_prefix_at(s, "AnimationSystem"@, 0);
    lemma_no_prefix_at(s, "AnimationSystem"@, 0);
    lemma_no_prefix_at(s, "AnimationSystem"@, 0);
    lemma_no_prefix_at(s, "AnimationSystem"@, 0);
    lemma_no_prefix_at(s, "AnimationSystem"@, 0);
    lemma_no_prefix_at(s, "AnimationSystem"@, 0);
    lemma_no_prefix_at(s, "AnimationSystem"@, 0);
    lemma_no_prefix_at(s, "AnimationSystem"@, 0);
    lemma_no_prefix_at(s, "MediaFolder"@, 0);
    lemma_no_prefix_at(s, "MediaContent"@, 0);
    lemma_no_prefix_at(s, "ModelFolder"@, 0);
    lemma_no_prefix_at(s, "ModelContent"@, 0);
    lemma_no_prefix_at(s, "ColorEffects"@, 5);
    lemma_letter_after(s, "Color"@);
    lemma_letter_after(s, "Color"@);
    lemma_letter_after(s, "Color"@);
    lemma_letter_after(s, "Color"@);
    lemma_letter_after(s, "Color"@);
    lemma_extract_n_then_letter("ColorMacro"@, n, "Rate"@);
    lemma_extract_n_suffix_of("ColorMacro"@, n, "Rate"@);
}

/// The name of `Shutter` is read back as `Shutter`.
proof fn lemma_numbered_name_shutter(n: u8)
    ensures
        AttributeView::parse(AttributeView::Shutter(n).name()) == AttributeView::Shutter(n),
{
    let s = AttributeView::Shutter(n).name();
    lemma_dec(n);
    reveal_strlit("AnimationSystem");
    reveal_strlit("AnimationWheel");
    reveal_strlit("Color");
    reveal_strlit("ColorEffects");
    reveal_strlit("ColorMacro");
    reveal_strlit("Gobo");
    reveal_strlit("MediaContent");
    reveal_strlit("MediaFolder");
    reveal_strlit("ModelContent");
    reveal_strlit("ModelFolder");
    reveal_strlit("Shutter");
    assert(s[7] == dec(n)[0]);
    lemma_fixed_rejects_digit(s, 7);
    lemma_no_prefix_at(s, "Gobo"@, 0);
    lemma_no_prefix_at(s, "Gobo"@, 0);
    lemma_no_prefix_at(s, "Gobo"@, 0);
    lemma_no_prefix_at(s, "Gobo"@, 0);
    lemma_no_prefix_at(s, "Gobo"@, 0);
    lemma_no_prefix_at(s, "Gobo"@, 0);
    lemma_no_prefix_at(s, "Gobo"@, 0);
    lemma_no_prefix_at(s, "Gobo"@, 0);
    lemma_no_prefix_at(s, "Gobo"@, 0);
    lemma_no_prefix_at(s, "Gobo"@, 0);
    lemma_no_prefix_at(s, "Gobo"@, 0);
    lemma_no_prefix_at(s, "Gobo"@, 0);
    lemma_no_prefix_at(s, "AnimationWheel"@, 0);
    lemma_no_prefix_at(s, "AnimationWheel"@, 0);
    lemma_no_prefix_at(s, "AnimationWheel"@, 0);
    lemma_no_prefix_at(s, "AnimationWheel"@, 0);
    lemma_no_prefix_at(s, "AnimationWheel"@, 0);
    lemma_no_prefix_at(s, "AnimationWheel"@, 0);
    lemma_no_prefix_at(s, "AnimationWheel"@, 0);
    lemma_no_prefix_at(s, "AnimationWheel"@, 0);
    lemma_no_prefix_at(s, "AnimationWheel"@, 0);
    lemma_no_prefix_at(s, "AnimationWheel"@, 0);
    lemma_no_prefix_at(s, "AnimationSystem"@, 0);
    lemma_no_prefix_at(s, "AnimationSystem"@, 0);
    lemma_no_prefix_at(s, "AnimationSystem"@, 0);
    lemma_no_prefix_at(s, "AnimationSystem"@, 0);
    lemma_no_prefix_at(s, "AnimationSystem"@, 0);
    lemma_no_prefix_at(s, "AnimationSystem"@, 0);
    lemma_no_prefix_at(s, "AnimationSystem"@, 0);
    lemma_no_prefix_at(s, "AnimationSystem"@, 0);
    lemma_no_prefix_at(s, "AnimationSystem"@, 0);
    lemma_no_prefix_at(s, "AnimationSystem"@, 0);
    lemma_no_prefix_at(s, "AnimationSystem"@, 0);
    lemma_no_prefix_at(s, "MediaFolder"@, 0);
    lemma_no_prefix_at(s, "MediaContent"@, 0);
    lemma_no_prefix_at(s, "ModelFolder"@, 0);
    lemma_no_prefix_at(s, "ModelContent"@, 0);
    lemma_no_prefix_at(s, "ColorEffects"@, 0);
    lemma_no_prefix_at(s, "Color"@, 0);
    lemma_no_prefix_at(s, "Color"@, 0);
    lemma_no_prefix_at(s, "Color"@, 0);
    lemma_no_prefix_at(s, "Color"@, 0);
    lemma_no_prefix_at(s, "Color"@, 0);
    lemma_no_prefix_at(s, "ColorMacro"@, 0);
    lemma_no_prefix_at(s, "ColorMacro"@, 0);
    lemma_extract_n_of("Shutter"@, n);
}

/// The name of `ShutterStrobe` is read back as `ShutterStrobe`.
proof fn lemma_numbered_name_shutter_strobe(n: u8)
    ensures
        AttributeView::parse(AttributeView::ShutterStrobe(n).name()) == AttributeView::ShutterStrobe(n),
{
    let s = AttributeView::ShutterStrobe(n).name();
    lemma_dec(n);
    reveal_strlit("AnimationSystem");
    reveal_strlit("AnimationWheel");
    reveal_strlit("Color");
    reveal_strlit("ColorEffects");
    reveal_strlit("ColorMacro");
    reveal_strlit("Gobo");
    reveal_strlit("MediaContent");
    reveal_strlit("MediaFolder");
    reveal_strlit("ModelContent");
    reveal_strlit("ModelFolder");
    reveal_strlit("Shutter");
    reveal_strlit("Strobe");
    assert(s[7] == dec(n)[0]);
    lemma_fixed_rejects_digit(s, 7);
    lemma_no_prefix_at(s, "Gobo"@, 0);
    lemma_no_prefix_at(s, "Gobo"@, 0);
    lemma_no_prefix_at(s, "Gobo"@, 0);
    lemma_no_prefix_at(s, "Gobo"@, 0);
    lemma_no_prefix_at(s, "Gobo"@, 0);
    lemma_no_prefix_at(s, "Gobo"@, 0);
    lemma_no_prefix_at(s, "Gobo"@, 0);
    lemma_no_prefix_at(s, "Gobo"@, 0);
    lemma_no_prefix_at(s, "Gobo"@, 0);
    lemma_no_prefix_at(s, "Gobo"@, 0);
    lemma_no_prefix_at(s, "Gobo"@, 0);
    lemma_no_prefix_at(s, "Gobo"@, 0);
    lemma_no_prefix_at(s, "AnimationWheel"@, 0);
    lemma_no_prefix_at(s, "AnimationWheel"@, 0);
    lemma_no_prefix_at(s, "AnimationWheel"@, 0);
    lemma_no_prefix_at(s, "AnimationWheel"@, 0);
    lemma_no_prefix_at(s, "AnimationWheel"@, 0);
    lemma_no_prefix_at(s, "AnimationWheel"@, 0);
    lemma_no_prefix_at(s, "AnimationWheel"@, 0);
    lemma_no_prefix_at(s, "AnimationWheel"@, 0);
    lemma_no_prefix_at(s, "AnimationWheel"@, 0);
    lemma_no_prefix_at(s, "AnimationWheel"@, 0);
    lemma_no_prefix_at(s, "AnimationSystem"@, 0);
    lemma_no_prefix_at(s, "AnimationSystem"@, 0);
    lemma_no_prefix_at(s, "AnimationSystem"@, 0);
    lemma_no_prefix_at(s, "AnimationSystem"@, 0);
    lemma_no_prefix_at(s, "AnimationSystem"@, 0);
    lemma_no_prefix_at(s, "AnimationSystem"@, 0);
    lemma_no_prefix_at(s, "AnimationSystem"@, 0);
    lemma_no_prefix_at(s, "AnimationSystem"@, 0);
    lemma_no_prefix_at(s, "AnimationSystem"@, 0);
    lemma_no_prefix_at(s, "AnimationSystem"@, 0);
    lemma_no_prefix_at(s, "AnimationSystem"@, 0);
    lemma_no_prefix_at(s, "MediaFolder"@, 0);
    lemma_no_prefix_at(s, "MediaContent"@, 0);
    lemma_no_prefix_at(s, "ModelFolder"@, 0);
    lemma_no_prefix_at(s, "ModelContent"@, 0);
    lemma_no_prefix_at(s, "ColorEffects"@, 0);
    lemma_no_prefix_at(s, "Color"@, 0);
    lemma_no_prefix_at(s, "Color"@, 0);
    lemma_no_prefix_at(s, "Color"@, 0);
    lemma_no_prefix_at(s, "Color"@, 0);
    lemma_no_prefix_at(s, "Color"@, 0);
    lemma_no_prefix_at(s, "ColorMacro"@, 0);
    lemma_no_prefix_at(s, "ColorMacro"@, 0);
    lemma_extract_n_then_letter("Shutter"@, n, "Strobe"@);
    lemma_extract_n_suffix_of("Shutter"@, n, "Strobe"@);
}

/// The name of `ShutterStrobePulse` is read back as `ShutterStrobePulse`.
proof fn lemma_numbered_name_shutter_strobe_pulse(n: u8)
    ensures
        AttributeView::parse(AttributeView::ShutterStrobePulse(n).name()) == AttributeView::ShutterStrobePulse(n),
{
    let s = AttributeView::ShutterStrobePulse(n).name();
    lemma_dec(n);
    reveal_strlit("AnimationSystem");
    reveal_strlit("AnimationWheel");
    reveal_strlit("Color");
    reveal_strlit("ColorEffects");
    reveal_strlit("ColorMacro");
    reveal_strlit("Gobo");
    reveal_strlit("MediaContent");
    reveal_strlit("MediaFolder");
    reveal_strlit("ModelContent");
    reveal_strlit("ModelFolder");
    reveal_strlit("Shutter");
    reveal_strlit("Strobe");
    reveal_strlit("StrobePulse");
    assert(s[7] == dec(n)[0]);
    lemma_fixed_rejects_digit(s, 7);
    lemma_no_prefix_at(s, "Gobo"@, 0);
    lemma_no_prefix_at(s, "Gobo"@, 0);
    lemma_no_prefix_at(s, "Gobo"@, 0);
    lemma_no_prefix_at(s, "Gobo"@, 0);
    lemma_no_prefix_at(s, "Gobo"@, 0);
    lemma_no_prefix_at(s, "Gobo"@, 0);
    lemma_no_prefix_at(s, "Gobo"@, 0);
    lemma_no_prefix_at(s, "Gobo"@, 0);
    lemma_no_prefix_at(s, "Gobo"@, 0);
    lemma_no_prefix_at(s, "Gobo"@, 0);
    lemma_no_prefix_at(s, "Gobo"@, 0);
    lemma_no_prefix_at(s, "Gobo"@, 0);
    lemma_no_prefix_at(s, "AnimationWheel"@, 0);
    lemma_no_prefix_at(s, "AnimationWheel"@, 0);
    lemma_no_prefix_at(s, "AnimationWheel"@, 0);
    lemma_no_prefix_at(s, "AnimationWheel"@, 0);
    lemma_no_prefix_at(s, "AnimationWheel"@, 0);
    lemma_no_prefix_at(s, "AnimationWheel"@, 0);
    lemma_no_prefix_at(s, "AnimationWheel"@, 0);
    lemma_no_prefix_at(s, "AnimationWheel"@, 0);
    lemma_no_prefix_at(s, "AnimationWheel"@, 0);
    lemma_no_prefix_at(s, "AnimationWheel"@, 0);
    lemma_no_prefix_at(s, "AnimationSystem"@, 0);
    lemma_no_prefix_at(s, "AnimationSystem"@, 0);
    lemma_no_prefix_at(s, "AnimationSystem"@, 0);
    lemma_no_prefix_at(s, "AnimationSystem"@, 0);
    lemma_no_prefix_at(s, "AnimationSystem"@, 0);
    lemma_no_prefix_at(s, "AnimationSystem"@, 0);
    lemma_no_prefix_at(s, "AnimationSystem"@, 0);
    lemma_no_prefix_at(s, "AnimationSystem"@, 0);
    lemma_no_prefix_at(s, "AnimationSystem"@, 0);
    lemma_no_prefix_at(s, "AnimationSystem"@, 0);
    lemma_no_prefix_at(s, "AnimationSystem"@, 0);
    lemma_no_prefix_at(s, "MediaFolder"@, 0);
    lemma_no_prefix_at(s, "MediaContent"@, 0);
    lemma_no_prefix_at(s, "ModelFolder"@, 0);
    lemma_no_prefix_at(s, "ModelContent"@, 0);
    lemma_no_prefix_at(s, "ColorEffects"@, 0);
    lemma_no_prefix_at(s, "Color"@, 0);
    lemma_no_prefix_at(s, "Color"@, 0);
    lemma_no_prefix_at(s, "Color"@, 0);
    lemma_no_prefix_at(s, "Color"@, 0);
    lemma_no_prefix_at(s, "Color"@, 0);
    lemma_no_prefix_at(s, "ColorMacro"@, 0);
    lemma_no_prefix_at(s, "ColorMacro"@, 0);
    lemma_extract_n_then_letter("Shutter"@, n, "StrobePulse"@);
    lemma_no_suffix_at(s, "Shutter"@, "Strobe"@, 0);
    lemma_extract_n_suffix_of("Shutter"@, n, "StrobePulse"@);
}

/// The name of `ShutterStrobePulseClose` is read back as `ShutterStrobePulseClose`.
proof fn lemma_numbered_name_shutter_strobe_pulse_close(n: u8)
    ensures
        AttributeView::parse(AttributeView::ShutterStrobePulseClose(n).name()) == AttributeView::ShutterStrobePulseClose(n),
{
    let s = AttributeView::ShutterStrobePulseClose(n).name();
    lemma_dec(n);
    reveal_strlit("AnimationSystem");
    reveal_strlit("AnimationWheel");
    reveal_strlit("Color");
    reveal_strlit("ColorEffects");
    reveal_strlit("ColorMacro");
    reveal_strlit("Gobo");
    reveal_strlit("MediaContent");
    reveal_strlit("MediaFolder");
    reveal_strlit("ModelContent");
    reveal_strlit("ModelFolder");
    reveal_strlit("Shutter");
    reveal_strlit("Strobe");
    reveal_strlit("StrobePulse");
    reveal_strlit("StrobePulseClose");
    assert(s[7] == dec(n)[0]);
    lemma_fixed_rejects_digit(s, 7);
    lemma_no_prefix_at(s, "Gobo"@, 0);
    lemma_no_prefix_at(s, "Gobo"@, 0);
    lemma_no_prefix_at(s, "Gobo"@, 0);
    lemma_no_prefix_at(s, "Gobo"@, 0);
    lemma_no_prefix_at(s, "Gobo"@, 0);
    lemma_no_prefix_at(s, "Gobo"@, 0);
    lemma_no_prefix_at(s, "Gobo"@, 0);
    lemma_no_prefix_at(s, "Gobo"@, 0);
    lemma_no_prefix_at(s, "Gobo"@, 0);
    lemma_no_prefix_at(s, "Gobo"@, 0);
    lemma_no_prefix_at(s, "Gobo"@, 0);
    lemma_no_prefix_at(s, "Gobo"@, 0);
    lemma_no_prefix_at(s, "AnimationWheel"@, 0);
    lemma_no_prefix_at(s, "AnimationWheel"@, 0);
    lemma_no_prefix_at(s, "AnimationWheel"@, 0);
    lemma_no_prefix_at(s, "AnimationWheel"@, 0);
    lemma_no_prefix_at(s, "AnimationWheel"@, 0);
    lemma_no_prefix_at(s, "AnimationWheel"@, 0);
    lemma_no_prefix_at(s, "AnimationWheel"@, 0);
    lemma_no_prefix_at(s, "AnimationWheel"@, 0);
    lemma_no_prefix_at(s, "AnimationWheel"@, 0);
    lemma_no_prefix_at(s, "AnimationWheel"@, 0);
    lemma_no_prefix_at(s, "AnimationSystem"@, 0);
    lemma_no_prefix_at(s, "AnimationSystem"@, 0);
    lemma_no_prefix_at(s, "AnimationSystem"@, 0);
    lemma_no_prefix_at(s, "AnimationSystem"@, 0);
    lemma_no_prefix_at(s, "AnimationSystem"@, 0);
    lemma_no_prefix_at(s, "AnimationSystem"@, 0);
    lemma_no_prefix_at(s, "AnimationSystem"@, 0);
    lemma_no_prefix_at(s, "AnimationSystem"@, 0);
    lemma_no_prefix_at(s, "AnimationSystem"@, 0);
    lemma_no_prefix_at(s, "AnimationSystem"@, 0);
    lemma_no_prefix_at(s, "AnimationSystem"@, 0);
    lemma_no_prefix_at(s, "MediaFolder"@, 0);
    lemma_no_prefix_at(s, "MediaContent"@, 0);
    lemma_no_prefix_at(s, "ModelFolder"@, 0);
    lemma_no_prefix_at(s, "ModelContent"@, 0);
    lemma_no_prefix_at(s, "ColorEffects"@, 0);
    lemma_no_prefix_at(s, "Color"@, 0);
    lemma_no_prefix_at(s, "Color"@, 0);
    lemma_no_prefix_at(s, "Color"@, 0);
    lemma_no_prefix_at(s, "Color"@, 0);
    lemma_no_prefix_at(s, "Color"@, 0);
    lemma_no_prefix_at(s, "ColorMacro"@, 0);
    lemma_no_prefix_at(s, "ColorMacro"@, 0);
    lemma_extract_n_then_letter("Shutter"@, n, "StrobePulseClose"@);
    lemma_no_suffix_at(s, "Shutter"@, "Strobe"@, 0);
    lemma_no_suffix_at(s, "Shutter"@, "StrobePulse"@, 0);
    lemma_extract_n_suffix_of("Shutter"@, n, "StrobePulseClose"@);
}

/// The name of `ShutterStrobePulseOpen` is read back as `ShutterStrobePulseOpen`.
proof fn lemma_numbered_name_shutter_strobe_pulse_open(n: u8)
    ensures
        AttributeView::parse(AttributeView::ShutterStrobePulseOpen(n).name()) == AttributeView::ShutterStrobePulseOpen(n),
{
    let s = AttributeView::ShutterStrobePulseOpen(n).name();
    lemma_dec(n);
    reveal_strlit("AnimationSystem");
    reveal_strlit("AnimationWheel");
    reveal_strlit("Color");
    reveal_strlit("ColorEffects");
    reveal_strlit("ColorMacro");
    reveal_strlit("Gobo");
    reveal_strlit("MediaContent");
    reveal_strlit("MediaFolder");
    reveal_strlit("ModelContent");
    reveal_strlit("ModelFolder");
    reveal_strlit("Shutter");
    reveal_strlit("Strobe");
    reveal_strlit("StrobePulse");
    reveal_strlit("StrobePulseClose");
    reveal_strlit("StrobePulseOpen");
    assert(s[7] == dec(n)[0]);
    lemma_fixed_rejects_digit(s, 7);
    lemma_no_prefix_at(s, "Gobo"@, 0);
    lemma_no_prefix_at(s, "Gobo"@, 0);
    lemma_no_prefix_at(s, "Gobo"@, 0);
    lemma_no_prefix_at(s, "Gobo"@, 0);
    lemma_no_prefix_at(s, "Gobo"@, 0);
    lemma_no_prefix_at(s, "Gobo"@, 0);
    lemma_no_prefix_at(s, "Gobo"@, 0);
    lemma_no_prefix_at(s, "Gobo"@, 0);
    lemma_no_prefix_at(s, "Gobo"@, 0);
    lemma_no_prefix_at(s, "Gobo"@, 0);
    lemma_no_prefix_at(s, "Gobo"@, 0);
    lemma_no_prefix_at(s, "Gobo"@, 0);
    lemma_no_prefix_at(s, "AnimationWheel"@, 0);
    lemma_no_prefix_at(s, "AnimationWheel"@, 0);
    lemma_no_prefix_at(s, "AnimationWheel"@, 0);
    lemma_no_prefix_at(s, "AnimationWheel"@, 0);
    lemma_no_prefix_at(s, "AnimationWheel"@, 0);
    lemma_no_prefix_at(s, "AnimationWheel"@, 0);
    lemma_no_prefix_at(s, "AnimationWheel"@, 0);
    lemma_no_prefix_at(s, "AnimationWheel"@, 0);
    lemma_no_prefix_at(s, "AnimationWheel"@, 0);
    lemma_no_prefix_at(s, "AnimationWheel"@, 0);
    lemma_no_prefix_at(s, "AnimationSystem"@, 0);
    lemma_no_prefix_at(s, "AnimationSystem"@, 0);
    lemma_no_prefix_at(s, "AnimationSystem"@, 0);
    lemma_no_prefix_at(s, "AnimationSystem"@, 0);
    lemma_no_prefix_at(s, "AnimationSystem"@, 0);
    lemma_no_prefix_at(s, "AnimationSystem"@, 0);
    lemma_no_prefix_at(s, "AnimationSystem"@, 0);
    lemma_no_prefix_at(s, "AnimationSystem"@, 0);
    lemma_no_prefix_at(s, "AnimationSystem"@, 0);
    lemma_no_prefix_at(s, "AnimationSystem"@, 0);
    lemma_no_prefix_at(s, "AnimationSystem"@, 0);
    lemma_no_prefix_at(s, "MediaFolder"@, 0);
    lemma_no_prefix_at(s, "MediaContent"@, 0);
    lemma_no_prefix_at(s, "ModelFolder"@, 0);
    lemma_no_prefix_at(s, "ModelContent"@, 0);
    lemma_no_prefix_at(s, "ColorEffects"@, 0);
    lemma_no_prefix_at(s, "Color"@, 0);
    lemma_no_prefix_at(s, "Color"@, 0);
    lemma_no_prefix_at(s, "Color"@, 0);
    lemma_no_prefix_at(s, "Color"@, 0);
    lemma_no_prefix_at(s, "Color"@, 0);
    lemma_no_prefix_at(s, "ColorMacro"@, 0);
    lemma_no_prefix_at(s, "ColorMacro"@, 0);
    lemma_extract_n_then_letter("Shutter"@, n, "StrobePulseOpen"@);
    lemma_no_suffix_at(s, "Shutter"@, "Strobe"@, 0);
    lemma_no_suffix_at(s, "Shutter"@, "StrobePulse"@, 0);
    lemma_no_suffix_at(s, "Shutter"@, "StrobePulseClose"@, 0);
    lemma_extract_n_suffix_of("Shutter"@, n, "StrobePulseOpen"@);
}

/// The name of `ShutterStrobeRandom` is read back as `ShutterStrobeRandom`.
proof fn lemma_numbered_name_shutter_strobe_random(n: u8)
    ensures
        AttributeView::parse(AttributeView::ShutterStrobeRandom(n).name()) == AttributeView::ShutterStrobeRandom(n),
{
    let s = AttributeView::ShutterStrobeRandom(n).name();
    lemma_dec(n);
    reveal_strlit("AnimationSystem");
    reveal_strlit("AnimationWheel");
    reveal_strlit("Color");
    reveal_strlit("ColorEffects");
    reveal_strlit("ColorMacro");
    reveal_strlit("Gobo");
    reveal_strlit("MediaContent");
    reveal_strlit("MediaFolder");
    reveal_strlit("ModelContent");
    reveal_strlit("ModelFolder");
    reveal_strlit("Shutter");
    reveal_strlit("Strobe");
    reveal_strlit("StrobePulse");
    reveal_strlit("StrobePulseClose");
    reveal_strlit("StrobePulseOpen");
    reveal_strlit("StrobeRandom");
    assert(s[7] == dec(n)[0]);
    lemma_fixed_rejects_digit(s, 7);
    lemma_no_prefix_at(s, "Gobo"@, 0);
    lemma_no_prefix_at(s, "Gobo"@, 0);
    lemma_no_prefix_at(s, "Gobo"@, 0);
    lemma_no_prefix_at(s, "Gobo"@, 0);
    lemma_no_prefix_at(s, "Gobo"@, 0);
    lemma_no_prefix_at(s, "Gobo"@, 0);
    lemma_no_prefix_at(s, "Gobo"@, 0);
    lemma_no_prefix_at(s, "Gobo"@, 0);
    lemma_no_prefix_at(s, "Gobo"@, 0);
    lemma_no_prefix_at(s, "Gobo"@, 0);
    lemma_no_prefix_at(s, "Gobo"@, 0);
    lemma_no_prefix_at(s, "Gobo"@, 0);
    lemma_no_prefix_at(s, "AnimationWheel"@, 0);
    lemma_no_prefix_at(s, "AnimationWheel"@, 0);
    lemma_no_prefix_at(s, "AnimationWheel"@, 0);
    lemma_no_prefix_at(s, "AnimationWheel"@, 0);
    lemma_no_prefix_at(s, "AnimationWheel"@, 0);
    lemma_no_prefix_at(s, "AnimationWheel"@, 0);
    lemma_no_prefix_at(s, "AnimationWheel"@, 0);
    lemma_no_prefix_at(s, "AnimationWheel"@, 0);
    lemma_no_prefix_at(s, "AnimationWheel"@, 0);
    lemma_no_prefix_at(s, "AnimationWheel"@, 0);
    lemma_no_prefix_at(s, "AnimationSystem"@, 0);
    lemma_no_prefix_at(s, "AnimationSystem"@, 0);
    lemma_no_prefix_at(s, "AnimationSystem"@, 0);
    lemma_no_prefix_at(s, "AnimationSystem"@, 0);
    lemma_no_prefix_at(s, "AnimationSystem"@, 0);
    lemma_no_prefix_at(s, "AnimationSystem"@, 0);
    lemma_no_prefix_at(s, "AnimationSystem"@, 0);
    lemma_no_prefix_at(s, "AnimationSystem"@, 0);
    lemma_no_prefix_at(s, "AnimationSystem"@, 0);
    lemma_no_prefix_at(s, "AnimationSystem"@, 0);
    lemma_no_prefix_at(s, "AnimationSystem"@, 0);
    lemma_no_prefix_at(s, "MediaFolder"@, 0);
    lemma_no_prefix_at(s, "MediaContent"@, 0);
    lemma_no_prefix_at(s, "ModelFolder"@, 0);
    lemma_no_prefix_at(s, "ModelContent"@, 0);
    lemma_no_prefix_at(s, "ColorEffects"@, 0);
    lemma_no_prefix_at(s, "Color"@, 0);
    lemma_no_prefix_at(s, "Color"@, 0);
    lemma_no_prefix_at(s, "Color"@, 0);
    lemma_no_prefix_at(s, "Color"@, 0);
    lemma_no_prefix_at(s, "Color"@, 0);
    lemma_no_prefix_at(s, "ColorMacro"@, 0);
    lemma_no_prefix_at(s, "ColorMacro"@, 0);
    lemma_extract_n_then_letter("Shutter"@, n, "StrobeRandom"@);
    lemma_no_suffix_at(s, "Shutter"@, "Strobe"@, 0);
    lemma_no_suffix_at(s, "Shutter"@, "StrobePulse"@, 0);
    lemma_no_suffix_at(s, "Shutter"@, "StrobePulseClose"@, 3);
    lemma_no_suffix_at(s, "Shutter"@, "StrobePulseOpen"@, 2);
    lemma_extract_n_suffix_of("Shutter"@, n, "StrobeRandom"@);
}

/// The name of `ShutterStrobeRandomPulse` is read back as `ShutterStrobeRandomPulse`.
proof fn lemma_numbered_name_shutter_strobe_random_pulse(n: u8)
    ensures
        AttributeView::parse(AttributeView::ShutterStrobeRandomPulse(n).name()) == AttributeView::ShutterStrobeRandomPulse(n),
{
    let s = AttributeView::ShutterStrobeRandomPulse(n).name();
    lemma_dec(n);
    reveal_strlit("AnimationSystem");
    reveal_strlit("AnimationWheel");
    reveal_strlit("Color");
    reveal_strlit("ColorEffects");
    reveal_strlit("ColorMacro");
    reveal_strlit("Gobo");
    reveal_strlit("MediaContent");
    reveal_strlit("MediaFolder");
    reveal_strlit("ModelContent");
    reveal_strlit("ModelFolder");
    reveal_strlit("Shutter");
    reveal_strlit("Strobe");
    reveal_strlit("StrobePulse");
    reveal_strlit("StrobePulseClose");
    reveal_strlit("StrobePulseOpen");
    reveal_strlit("StrobeRandom");
    reveal_strlit("StrobeRandomPulse");
    assert(s[7] == dec(n)[0]);
    lemma_fixed_rejects_digit(s, 7);
    lemma_no_prefix_at(s, "Gobo"@, 0);
    lemma_no_prefix_at(s, "Gobo"@, 0);
    lemma_no_prefix_at(s, "Gobo"@, 0);
    lemma_no_prefix_at(s, "Gobo"@, 0);
    lemma_no_prefix_at(s, "Gobo"@, 0);
    lemma_no_prefix_at(s, "Gobo"@, 0);
    lemma_no_prefix_at(s, "Gobo"@, 0);
    lemma_no_prefix_at(s, "Gobo"@, 0);
    lemma_no_prefix_at(s, "Gobo"@, 0);
    lemma_no_prefix_at(s, "Gobo"@, 0);
    lemma_no_prefix_at(s, "Gobo"@, 0);
    lemma_no_prefix_at(s, "Gobo"@, 0);
    lemma_no_prefix_at(s, "AnimationWheel"@, 0);
    lemma_no_prefix_at(s, "AnimationWheel"@, 0);
    lemma_no_prefix_at(s, "AnimationWheel"@, 0);
    lemma_no_prefix_at(s, "AnimationWheel"@, 0);
    lemma_no_prefix_at(s, "AnimationWheel"@, 0);
    lemma_no_prefix_at(s, "AnimationWheel"@, 0);
    lemma_no_prefix_at(s, "AnimationWheel"@, 0);
    lemma_no_prefix_at(s, "AnimationWheel"@, 0);
    lemma_no_prefix_at(s, "AnimationWheel"@, 0);
    lemma_no_prefix_at(s, "AnimationWheel"@, 0);
    lemma_no_prefix_at(s, "AnimationSystem"@, 0);
    lemma_no_prefix_at(s, "AnimationSystem"@, 0);
    lemma_no_prefix_at(s, "AnimationSystem"@, 0);
    lemma_no_prefix_at(s, "AnimationSystem"@, 0);
    lemma_no_prefix_at(s, "AnimationSystem"@, 0);
    lemma_no_prefix_at(s, "AnimationSystem"@, 0);
    lemma_no_prefix_at(s, "AnimationSystem"@, 0);
    lemma_no_prefix_at(s, "AnimationSystem"@, 0);
    lemma_no_prefix_at(s, "AnimationSystem"@, 0);
    lemma_no_prefix_at(s, "AnimationSystem"@, 0);
    lemma_no_prefix_at(s, "AnimationSystem"@, 0);
    lemma_no_prefix_at(s, "MediaFolder"@, 0);
    lemma_no_prefix_at(s, "MediaContent"@, 0);
    lemma_no_prefix_at(s, "ModelFolder"@, 0);
    lemma_no_prefix_at(s, "ModelContent"@, 0);
    lemma_no_prefix_at(s, "ColorEffects"@, 0);
    lemma_no_prefix_at(s, "Color"@, 0);
    lemma_no_prefix_at(s, "Color"@, 0);
    lemma_no_prefix_at(s, "Color"@, 0);
    lemma_no_prefix_at(s, "Color"@, 0);
    lemma_no_prefix_at(s, "Color"@, 0);
    lemma_no_prefix_at(s, "ColorMacro"@, 0);
    lemma_no_prefix_at(s, "ColorMacro"@, 0);
    lemma_extract_n_then_letter("Shutter"@, n, "StrobeRandomPulse"@);
    lemma_no_suffix_at(s, "Shutter"@, "Strobe"@, 0);
    lemma_no_suffix_at(s, "Shutter"@, "StrobePulse"@, 0);
    lemma_no_suffix_at(s, "Shutter"@, "StrobePulseClose"@, 0);
    lemma_no_suffix_at(s, "Shutter"@, "StrobePulseOpen"@, 0);
    lemma_no_suffix_at(s, "Shutter"@, "StrobeRandom"@, 0);
    lemma_extract_n_suffix_of("Shutter"@, n, "StrobeRandomPulse"@);
}

/// The name of `ShutterStrobeRandomPulseClose` is read back as `ShutterStrobeRandomPulseClose`.
proof fn lemma_numbered_name_shutter_strobe_random_pulse_close(n: u8)
    ensures
        AttributeView::parse(AttributeView::ShutterStrobeRandomPulseClose(n).name()) == AttributeView::ShutterStrobeRandomPulseClose(n),
{
    let s = AttributeView::ShutterStrobeRandomPulseClose(n).name();
    lemma_dec(n);
    reveal_strlit("AnimationSystem");
    reveal_strlit("AnimationWheel");
    reveal_strlit("Color");
    reveal_strlit("ColorEffects");
    reveal_strlit("ColorMacro");
    reveal_strlit("Gobo");
    reveal_strlit("MediaContent");
    reveal_strlit("MediaFolder");
    reveal_strlit("ModelContent");
    reveal_strlit("ModelFolder");
    reveal_strlit("Shutter");
    reveal_strlit("Strobe");
    reveal_strlit("StrobePulse");
    reveal_strlit("StrobePulseClose");
    reveal_strlit("StrobePulseOpen");
    reveal_strlit("StrobeRandom");
    reveal_strlit("StrobeRandomPulse");
    reveal_strlit("StrobeRandomPulseClose");
    assert(s[7] == dec(n)[0]);
    lemma_fixed_rejects_digit(s, 7);
    lemma_no_prefix_at(s, "Gobo"@, 0);
    lemma_no_prefix_at(s, "Gobo"@, 0);
    lemma_no_prefix_at(s, "Gobo"@, 0);
    lemma_no_prefix_at(s, "Gobo"@, 0);
    lemma_no_prefix_at(s, "Gobo"@, 0);
    lemma_no_prefix_at(s, "Gobo"@, 0);
    lemma_no_prefix_at(s, "Gobo"@, 0);
    lemma_no_prefix_at(s, "Gobo"@, 0);
    lemma_no_prefix_at(s, "Gobo"@, 0);
    lemma_no_prefix_at(s, "Gobo"@, 0);
    lemma_no_prefix_at(s, "Gobo"@, 0);
    lemma_no_prefix_at(s, "Gobo"@, 0);
    lemma_no_prefix_at(s, "AnimationWheel"@, 0);
    lemma_no_prefix_at(s, "AnimationWheel"@, 0);
    lemma_no_prefix_at(s, "AnimationWheel"@, 0);
    lemma_no_prefix_at(s, "AnimationWheel"@, 0);
    lemma_no_prefix_at(s, "AnimationWheel"@, 0);
    lemma_no_prefix_at(s, "AnimationWheel"@, 0);
    lemma_no_prefix_at(s, "AnimationWheel"@, 0);
    lemma_no_prefix_at(s, "AnimationWheel"@, 0);
    lemma_no_prefix_at(s, "AnimationWheel"@, 0);
    lemma_no_prefix_at(s, "AnimationWheel"@, 0);
    lemma_no_prefix_at(s, "AnimationSystem"@, 0);
    lemma_no_prefix_at(s, "AnimationSystem"@, 0);
    lemma_no_prefix_at(s, "AnimationSystem"@, 0);
    lemma_no_prefix_at(s, "AnimationSystem"@, 0);
    lemma_no_prefix_at(s, "AnimationSystem"@, 0);
    lemma_no_prefix_at(s, "AnimationSystem"@, 0);
    lemma_no_prefix_at(s, "AnimationSystem"@, 0);
    lemma_no_prefix_at(s, "AnimationSystem"@, 0);
    lemma_no_prefix_at(s, "AnimationSystem"@, 0);
    lemma_no_prefix_at(s, "AnimationSystem"@, 0);
    lemma_no_prefix_at(s, "AnimationSystem"@, 0);
    lemma_no_prefix_at(s, "MediaFolder"@, 0);
    lemma_no_prefix_at(s, "MediaContent"@, 0);
    lemma_no_prefix_at(s, "ModelFolder"@, 0);
    lemma_no_prefix_at(s, "ModelContent"@, 0);
    lemma_no_prefix_at(s, "ColorEffects"@, 0);
    lemma_no_prefix_at(s, "Color"@, 0);
    lemma_no_prefix_at(s, "Color"@, 0);
    lemma_no_prefix_at(s, "Color"@, 0);
    lemma_no_prefix_at(s, "Color"@, 0);
    lemma_no_prefix_at(s, "Color"@, 0);
    lemma_no_prefix_at(s, "ColorMacro"@, 0);
    lemma_no_prefix_at(s, "ColorMacro"@, 0);
    lemma_extract_n_then_letter("Shutter"@, n, "StrobeRandomPulseClose"@);
    lemma_no_suffix_at(s, "Shutter"@, "Strobe"@, 0);
    lemma_no_suffix_at(s, "Shutter"@, "StrobePulse"@, 0);
    lemma_no_suffix_at(s, "Shutter"@, "StrobePulseClose"@, 0);
    lemma_no_suffix_at(s, "Shutter"@, "StrobePulseOpen"@, 0);
    lemma_no_suffix_at(s, "Shutter"@, "StrobeRandom"@, 0);
    lemma_no_suffix_at(s, "Shutter"@, "StrobeRandomPulse"@, 0);
    lemma_extract_n_suffix_of("Shutter"@, n, "StrobeRandomPulseClose"@);
}

/// The name of `ShutterStrobeRandomPulseOpen` is read back as `ShutterStrobeRandomPulseOpen`.
proof fn lemma_numbered_name_shutter_strobe_random_pulse_open(n: u8)
    ensures
        AttributeView::parse(AttributeView::ShutterStrobeRandomPulseOpen(n).name()) == AttributeView::ShutterStrobeRandomPulseOpen(n),
{
    let s = AttributeView::ShutterStrobeRandomPulseOpen(n).name();
    lemma_dec(n);
    reveal_strlit("AnimationSystem");
    reveal_strlit("AnimationWheel");
    reveal_strlit("Color");
    reveal_strlit("ColorEffects");
    reveal_strlit("ColorMacro");
    reveal_strlit("Gobo");
    reveal_strlit("MediaContent");
    reveal_strlit("MediaFolder");
    reveal_strlit("ModelContent");
    reveal_strlit("ModelFolder");
    reveal_strlit("Shutter");
    reveal_strlit("Strobe");
    reveal_strlit("StrobePulse");
    reveal_strlit("StrobePulseClose");
    reveal_strlit("StrobePulseOpen");
    reveal_strlit("StrobeRandom");
    reveal_strlit("StrobeRandomPulse");
    reveal_strlit("StrobeRandomPulseClose");
    reveal_strlit("StrobeRandomPulseOpen");
    assert(s[7] == dec(n)[0]);
    lemma_fixed_rejects_digit(s, 7);
    lemma_no_prefix_at(s, "Gobo"@, 0);
    lemma_no_prefix_at(s, "Gobo"@, 0);
    lemma_no_prefix_at(s, "Gobo"@, 0);
    lemma_no_prefix_at(s, "Gobo"@, 0);
    lemma_no_prefix_at(s, "Gobo"@, 0);
    lemma_no_prefix_at(s, "Gobo"@, 0);
    lemma_no_prefix_at(s, "Gobo"@, 0);
    lemma_no_prefix_at(s, "Gobo"@, 0);
    lemma_no_prefix_at(s, "Gobo"@, 0);
    lemma_no_prefix_at(s, "Gobo"@, 0);
    lemma_no_prefix_at(s, "Gobo"@, 0);
    lemma_no_prefix_at(s, "Gobo"@, 0);
    lemma_no_prefix_at(s, "AnimationWheel"@, 0);
    lemma_no_prefix_at(s, "AnimationWheel"@, 0);
    lemma_no_prefix_at(s, "AnimationWheel"@, 0);
    lemma_no_prefix_at(s, "AnimationWheel"@, 0);
    lemma_no_prefix_at(s, "AnimationWheel"@, 0);
    lemma_no_prefix_at(s, "AnimationWheel"@, 0);
    lemma_no_prefix_at(s, "AnimationWheel"@, 0);
    lemma_no_prefix_at(s, "AnimationWheel"@, 0);
    lemma_no_prefix_at(s, "AnimationWheel"@, 0);
    lemma_no_prefix_at(s, "AnimationWheel"@, 0);
    lemma_no_prefix_at(s, "AnimationSystem"@, 0);
    lemma_no_prefix_at(s, "AnimationSystem"@, 0);
    lemma_no_prefix_at(s, "AnimationSystem"@, 0);
    lemma_no_prefix_at(s, "AnimationSystem"@, 0);
    lemma_no_prefix_at(s, "AnimationSystem"@, 0);
    lemma_no_prefix_at(s, "AnimationSystem"@, 0);
    lemma_no_prefix_at(s, "AnimationSystem"@, 0);
    lemma_no_prefix_at(s, "AnimationSystem"@, 0);
    lemma_no_prefix_at(s, "AnimationSystem"@, 0);
    lemma_no_prefix_at(s, "AnimationSystem"@, 0);
    lemma_no_prefix_at(s, "AnimationSystem"@, 0);
    lemma_no_prefix_at(s, "MediaFolder"@, 0);
    lemma_no_prefix_at(s, "MediaContent"@, 0);
    lemma_no_prefix_at(s, "ModelFolder"@, 0);
    lemma_no_prefix_at(s, "ModelContent"@, 0);
    lemma_no_prefix_at(s, "ColorEffects"@, 0);
    lemma_no_prefix_at(s, "Color"@, 0);
    lemma_no_prefix_at(s, "Color"@, 0);
    lemma_no_prefix_at(s, "Color"@, 0);
    lemma_no_prefix_at(s, "Color"@, 0);
    lemma_no_prefix_at(s, "Color"@, 0);
    lemma_no_prefix_at(s, "ColorMacro"@, 0);
    lemma_no_prefix_at(s, "ColorMacro"@, 0);
    lemma_extract_n_then_letter("Shutter"@, n, "StrobeRandomPulseOpen"@);
    lemma_no_suffix_at(s, "Shutter"@, "Strobe"@, 0);
    lemma_no_suffix_at(s, "Shutter"@, "StrobePulse"@, 0);
    lemma_no_suffix_at(s, "Shutter"@, "StrobePulseClose"@, 0);
    lemma_no_suffix_at(s, "Shutter"@, "StrobePulseOpen"@, 0);
    lemma_no_suffix_at(s, "Shutter"@, "StrobeRandom"@, 0);
    lemma_no_suffix_at(s, "Shutter"@, "StrobeRandomPulse"@, 0);
    lemma_no_suffix_at(s, "Shutter"@, "StrobeRandomPulseClose"@, 0);
    lemma_extract_n_suffix_of("Shutter"@, n, "StrobeRandomPulseOpen"@);
}

/// The name of `ShutterStrobeEffect` is read back as `ShutterStrobeEffect`.
proof fn lemma_numbered_name_shutter_strobe_effect(n: u8)
    ensures
        AttributeView::parse(AttributeView::ShutterStrobeEffect(n).name()) == AttributeView::ShutterStrobeEffect(n),
{
    let s = AttributeView::ShutterStrobeEffect(n).name();
    lemma_dec(n);
    reveal_strlit("AnimationSystem");
    reveal_strlit("AnimationWheel");
    reveal_strlit("Color");
    reveal_strlit("ColorEffects");
    reveal_strlit("ColorMacro");
    reveal_strlit("Gobo");
    reveal_strlit("MediaContent");
    reveal_strlit("MediaFolder");
    reveal_strlit("ModelContent");
    reveal_strlit("ModelFolder");
    reveal_strlit("Shutter");
    reveal_strlit("Strobe");
    reveal_strlit("StrobeEffect");
    reveal_strlit("StrobePulse");
    reveal_strlit("StrobePulseClose");
    reveal_strlit("StrobePulseOpen");
    reveal_strlit("StrobeRandom");
    reveal_strlit("StrobeRandomPulse");
    reveal_strlit("StrobeRandomPulseClose");
    reveal_strlit("StrobeRandomPulseOpen");
    assert(s[7] == dec(n)[0]);
    lemma_fixed_rejects_digit(s, 7);
    lemma_no_prefix_at(s, "Gobo"@, 0);
    lemma_no_prefix_at(s, "Gobo"@, 0);
    lemma_no_prefix_at(s, "Gobo"@, 0);
    lemma_no_prefix_at(s, "Gobo"@, 0);
    lemma_no_prefix_at(s, "Gobo"@, 0);
    lemma_no_prefix_at(s, "Gobo"@, 0);
    lemma_no_prefix_at(s, "Gobo"@, 0);
    lemma_no_prefix_at(s, "Gobo"@, 0);
    lemma_no_prefix_at(s, "Gobo"@, 0);
    lemma_no_prefix_at(s, "Gobo"@, 0);
    lemma_no_prefix_at(s, "Gobo"@, 0);
    lemma_no_prefix_at(s, "Gobo"@, 0);
    lemma_no_prefix_at(s, "AnimationWheel"@, 0);
    lemma_no_prefix_at(s, "AnimationWheel"@, 0);
    lemma_no_prefix_at(s, "AnimationWheel"@, 0);
    lemma_no_prefix_at(s, "AnimationWheel"@, 0);
    lemma_no_prefix_at(s, "AnimationWheel"@, 0);
    lemma_no_prefix_at(s, "AnimationWheel"@, 0);
    lemma_no_prefix_at(s, "AnimationWheel"@, 0);
    lemma_no_prefix_at(s, "AnimationWheel"@, 0);
    lemma_no_prefix_at(s, "AnimationWheel"@, 0);
    lemma_no_prefix_at(s, "AnimationWheel"@, 0);
    lemma_no_prefix_at(s, "AnimationSystem"@, 0);
    lemma_no_prefix_at(s, "AnimationSystem"@, 0);
    lemma_no_prefix_at(s, "AnimationSystem"@, 0);
    lemma_no_prefix_at(s, "AnimationSystem"@, 0);
    lemma_no_prefix_at(s, "AnimationSystem"@, 0);
    lemma_no_prefix_at(s, "AnimationSystem"@, 0);
    lemma_no_prefix_at(s, "AnimationSystem"@, 0);
    lemma_no_prefix_at(s, "AnimationSystem"@, 0);
    lemma_no_prefix_at(s, "AnimationSystem"@, 0);
    lemma_no_prefix_at(s, "AnimationSystem"@, 0);
    lemma_no_prefix_at(s, "AnimationSystem"@, 0);
    lemma_no_prefix_at(s, "MediaFolder"@, 0);
    lemma_no_prefix_at(s, "MediaContent"@, 0);
    lemma_no_prefix_at(s, "ModelFolder"@, 0);
    lemma_no_prefix_at(s, "ModelContent"@, 0);
    lemma_no_prefix_at(s, "ColorEffects"@, 0);
    lemma_no_prefix_at(s, "Color"@, 0);
    lemma_no_prefix_at(s, "Color"@, 0);
    lemma_no_prefix_at(s, "Color"@, 0);
    lemma_no_prefix_at(s, "Color"@, 0);
    lemma_no_prefix_at(s, "Color"@, 0);
    lemma_no_prefix_at(s, "ColorMacro"@, 0);
    lemma_no_prefix_at(s, "ColorMacro"@, 0);
    lemma_extract_n_then_letter("Shutter"@, n, "StrobeEffect"@);
    lemma_no_suffix_at(s, "Shutter"@, "Strobe"@, 0);
    lemma_no_suffix_at(s, "Shutter"@, "StrobePulse"@, 0);
    lemma_no_suffix_at(s, "Shutter"@, "StrobePulseClose"@, 3);
    lemma_no_suffix_at(s, "Shutter"@, "StrobePulseOpen"@, 2);
    lemma_no_suffix_at(s, "Shutter"@, "StrobeRandom"@, 6);
    lemma_no_suffix_at(s, "Shutter"@, "StrobeRandomPulse"@, 4);
    lemma_no_suffix_at(s, "Shutter"@, "StrobeRandomPulseClose"@, 9);
    lemma_no_suffix_at(s, "Shutter"@, "StrobeRandomPulseOpen"@, 8);
    lemma_extract_n_suffix_of("Shutter"@, n, "StrobeEffect"@);
}

/// The name of `Frost` is read back as `Frost`.
proof fn lemma_numbered_name_frost(n: u8)
    ensures
        AttributeView::parse(AttributeView::Frost(n).name()) == AttributeView::Frost(n),
{
    let s = AttributeView::Frost(n).name();
    lemma_dec(n);
    reveal_strlit("AnimationSystem");
    reveal_strlit("AnimationWheel");
    reveal_strlit("Color");
    reveal_strlit("ColorEffects");
    reveal_strlit("ColorMacro");
    reveal_strlit("Frost");
    reveal_strlit("Gobo");
    reveal_strlit("MediaContent");
    reveal_strlit("MediaFolder");
    reveal_strlit("ModelContent");
    reveal_strlit("ModelFolder");
    reveal_strlit("Shutter");
    assert(s[5] == dec(n)[0]);
    lemma_fixed_rejects_digit(s, 5);
    lemma_no_prefix_at(s, "Gobo"@, 0);
    lemma_no_prefix_at(s, "Gobo"@, 0);
    lemma_no_prefix_at(s, "Gobo"@, 0);
    lemma_no_prefix_at(s, "Gobo"@, 0);
    lemma_no_prefix_at(s, "Gobo"@, 0);
    lemma_no_prefix_at(s, "Gobo"@, 0);
    lemma_no_prefix_at(s, "Gobo"@, 0);
    lemma_no_prefix_at(s, "Gobo"@, 0);
    lemma_no_prefix_at(s, "Gobo"@, 0);
    lemma_no_prefix_at(s, "Gobo"@, 0);
    lemma_no_prefix_at(s, "Gobo"@, 0);
    lemma_no_prefix_at(s, "Gobo"@, 0);
    lemma_no_prefix_at(s, "AnimationWheel"@, 0);
    lemma_no_prefix_at(s, "AnimationWheel"@, 0);
    lemma_no_prefix_at(s, "AnimationWheel"@, 0);
    lemma_no_prefix_at(s, "AnimationWheel"@, 0);
    lemma_no_prefix_at(s, "AnimationWheel"@, 0);
    lemma_no_prefix_at(s, "AnimationWheel"@, 0);
    lemma_no_prefix_at(s, "AnimationWheel"@, 0);
    lemma_no_prefix_at(s, "AnimationWheel"@, 0);
    lemma_no_prefix_at(s, "AnimationWheel"@, 0);
    lemma_no_prefix_at(s, "AnimationWheel"@, 0);
    lemma_no_prefix_at(s, "AnimationSystem"@, 0);
    lemma_no_prefix_at(s, "AnimationSystem"@, 0);
    lemma_no_prefix_at(s, "AnimationSystem"@, 0);
    lemma_no_prefix_at(s, "AnimationSystem"@, 0);
    lemma_no_prefix_at(s, "AnimationSystem"@, 0);
    lemma_no_prefix_at(s, "AnimationSystem"@, 0);
    lemma_no_prefix_at(s, "AnimationSystem"@, 0);
    lemma_no_prefix_at(s, "AnimationSystem"@, 0);
    lemma_no_prefix_at(s, "AnimationSystem"@, 0);
    lemma_no_prefix_at(s, "AnimationSystem"@, 0);
    lemma_no_prefix_at(s, "AnimationSystem"@, 0);
    lemma_no_prefix_at(s, "MediaFolder"@, 0);
    lemma_no_prefix_at(s, "MediaContent"@, 0);
    lemma_no_prefix_at(s, "ModelFolder"@, 0);
    lemma_no_prefix_at(s, "ModelContent"@, 0);
    lemma_no_prefix_at(s, "ColorEffects"@, 0);
    lemma_no_prefix_at(s, "Color"@, 0);
    lemma_no_prefix_at(s, "Color"@, 0);
    lemma_no_prefix_at(s, "Color"@, 0);
    lemma_no_prefix_at(s, "Color"@, 0);
    lemma_no_prefix_at(s, "Color"@, 0);
    lemma_no_prefix_at(s, "ColorMacro"@, 0);
    lemma_no_prefix_at(s, "ColorMacro"@, 0);
    lemma_no_prefix_at(s, "Shutter"@, 0);
    lemma_no_prefix_at(s, "Shutter"@, 0);
    lemma_no_prefix_at(s, "Shutter"@, 0);
    lemma_no_prefix_at(s, "Shutter"@, 0);
    lemma_no_prefix_at(s, "Shutter"@, 0);
    lemma_no_prefix_at(s, "Shutter"@, 0);
    lemma_no_prefix_at(s, "Shutter"@, 0);
    lemma_no_prefix_at(s, "Shutter"@, 0);
    lemma_no_prefix_at(s, "Shutter"@, 0);
    lemma_no_prefix_at(s, "Shutter"@, 0);
    lemma_extract_n_of("Frost"@, n);
}

/// The name of `FrostPulseOpen` is read back as `FrostPulseOpen`.
proof fn lemma_numbered_name_frost_pulse_open(n: u8)
    ensures
        AttributeView::parse(AttributeView::FrostPulseOpen(n).name()) == AttributeView::FrostPulseOpen(n),
{
    let s = AttributeView::FrostPulseOpen(n).name();
    lemma_dec(n);
    reveal_strlit("AnimationSystem");
    reveal_strlit("AnimationWheel");
    reveal_strlit("Color");
    reveal_strlit("ColorEffects");
    reveal_strlit("ColorMacro");
    reveal_strlit("Frost");
    reveal_strlit("Gobo");
    reveal_strlit("MediaContent");
    reveal_strlit("MediaFolder");
    reveal_strlit("ModelContent");
    reveal_strlit("ModelFolder");
    reveal_strlit("PulseOpen");
    reveal_strlit("Shutter");
    assert(s[5] == dec(n)[0]);
    lemma_fixed_rejects_digit(s, 5);
    lemma_no_prefix_at(s, "Gobo"@, 0);
    lemma_no_prefix_at(s, "Gobo"@, 0);
    lemma_no_prefix_at(s, "Gobo"@, 0);
    lemma_no_prefix_at(s, "Gobo"@, 0);
    lemma_no_prefix_at(s, "Gobo"@, 0);
    lemma_no_prefix_at(s, "Gobo"@, 0);
    lemma_no_prefix_at(s, "Gobo"@, 0);
    lemma_no_prefix_at(s, "Gobo"@, 0);
    lemma_no_prefix_at(s, "Gobo"@, 0);
    lemma_no_prefix_at(s, "Gobo"@, 0);
    lemma_no_prefix_at(s, "Gobo"@, 0);
    lemma_no_prefix_at(s, "Gobo"@, 0);
    lemma_no_prefix_at(s, "AnimationWheel"@, 0);
    lemma_no_prefix_at(s, "AnimationWheel"@, 0);
    lemma_no_prefix_at(s, "AnimationWheel"@, 0);
    lemma_no_prefix_at(s, "AnimationWheel"@, 0);
    lemma_no_prefix_at(s, "AnimationWheel"@, 0);
    lemma_no_prefix_at(s, "AnimationWheel"@, 0);
    lemma_no_prefix_at(s, "AnimationWheel"@, 0);
    lemma_no_prefix_at(s, "AnimationWheel"@, 0);
    lemma_no_prefix_at(s, "AnimationWheel"@, 0);
    lemma_no_prefix_at(s, "AnimationWheel"@, 0);
    lemma_no_prefix_at(s, "AnimationSystem"@, 0);
    lemma_no_prefix_at(s, "AnimationSystem"@, 0);
    lemma_no_prefix_at(s, "AnimationSystem"@, 0);
    lemma_no_prefix_at(s, "AnimationSystem"@, 0);
    lemma_no_prefix_at(s, "AnimationSystem"@, 0);
    lemma_no_prefix_at(s, "AnimationSystem"@, 0);
    lemma_no_prefix_at(s, "AnimationSystem"@, 0);
    lemma_no_prefix_at(s, "AnimationSystem"@, 0);
    lemma_no_prefix_at(s, "AnimationSystem"@, 0);
    lemma_no_prefix_at(s, "AnimationSystem"@, 0);
    lemma_no_prefix_at(s, "AnimationSystem"@, 0);
    lemma_no_prefix_at(s, "MediaFolder"@, 0);
    lemma_no_prefix_at(s, "MediaContent"@, 0);
    lemma_no_prefix_at(s, "ModelFolder"@, 0);
    lemma_no_prefix_at(s, "ModelContent"@, 0);
    lemma_no_prefix_at(s, "ColorEffects"@, 0);
    lemma_no_prefix_at(s, "Color"@, 0);
    lemma_no_prefix_at(s, "Color"@, 0);
    lemma_no_prefix_at(s, "Color"@, 0);
    lemma_no_prefix_at(s, "Color"@, 0);
    lemma_no_prefix_at(s, "Color"@, 0);
    lemma_no_prefix_at(s, "ColorMacro"@, 0);
    lemma_no_prefix_at(s, "ColorMacro"@, 0);
    lemma_no_prefix_at(s, "Shutter"@, 0);
    lemma_no_prefix_at(s, "Shutter"@, 0);
    lemma_no_prefix_at(s, "Shutter"@, 0);
    lemma_no_prefix_at(s, "Shutter"@, 0);
    lemma_no_prefix_at(s, "Shutter"@, 0);
    lemma_no_prefix_at(s, "Shutter"@, 0);
    lemma_no_prefix_at(s, "Shutter"@, 0);
    lemma_no_prefix_at(s, "Shutter"@, 0);
    lemma_no_prefix_at(s, "Shutter"@, 0);
    lemma_no_prefix_at(s, "Shutter"@, 0);
    lemma_extract_n_then_letter("Frost"@, n, "PulseOpen"@);
    lemma_extract_n_suffix_of("Frost"@, n, "PulseOpen"@);
}

/// The name of `FrostPulseClose` is read back as `FrostPulseClose`.
proof fn lemma_numbered_name_frost_pulse_close(n: u8)
    ensures
        AttributeView::parse(AttributeView::FrostPulseClose(n).name()) == AttributeView::FrostPulseClose(n),
{
    let s = AttributeView::FrostPulseClose(n).name();
    lemma_dec(n);
    reveal_strlit("AnimationSystem");
    reveal_strlit("AnimationWheel");
    reveal_strlit("Color");
    reveal_strlit("ColorEffects");
    reveal_strlit("ColorMacro");
    reveal_strlit("Frost");
    reveal_strlit("Gobo");
    reveal_strlit("MediaContent");
    reveal_strlit("MediaFolder");
    reveal_strlit("ModelContent");
    reveal_strlit("ModelFolder");
    reveal_strlit("PulseClose");
    reveal_strlit("PulseOpen");
    reveal_strlit("Shutter");
    assert(s[5] == dec(n)[0]);
    lemma_fixed_rejects_digit(s, 5);
    lemma_no_prefix_at(s, "Gobo"@, 0);
    lemma_no_prefix_at(s, "Gobo"@, 0);
    lemma_no_prefix_at(s, "Gobo"@, 0);
    lemma_no_prefix_at(s, "Gobo"@, 0);
    lemma_no_prefix_at(s, "Gobo"@, 0);
    lemma_no_prefix_at(s, "Gobo"@, 0);
    lemma_no_prefix_at(s, "Gobo"@, 0);
    lemma_no_prefix_at(s, "Gobo"@, 0);
    lemma_no_prefix_at(s, "Gobo"@, 0);
    lemma_no_prefix_at(s, "Gobo"@, 0);
    lemma_no_prefix_at(s, "Gobo"@, 0);
    lemma_no_prefix_at(s, "Gobo"@, 0);
    lemma_no_prefix_at(s, "AnimationWheel"@, 0);
    lemma_no_prefix_at(s, "AnimationWheel"@, 0);
    lemma_no_prefix_at(s, "AnimationWheel"@, 0);
    lemma_no_prefix_at(s, "AnimationWheel"@, 0);
    lemma_no_prefix_at(s, "AnimationWheel"@, 0);
    lemma_no_prefix_at(s, "AnimationWheel"@, 0);
    lemma_no_prefix_at(s, "AnimationWheel"@, 0);
    lemma_no_prefix_at(s, "AnimationWheel"@, 0);
    lemma_no_prefix_at(s, "AnimationWheel"@, 0);
    lemma_no_prefix_at(s, "AnimationWheel"@, 0);
    lemma_no_prefix_at(s, "AnimationSystem"@, 0);
    lemma_no_prefix_at(s, "AnimationSystem"@, 0);
    lemma_no_prefix_at(s, "AnimationSystem"@, 0);
    lemma_no_prefix_at(s, "AnimationSystem"@, 0);
    lemma_no_prefix_at(s, "AnimationSystem"@, 0);
    lemma_no_prefix_at(s, "AnimationSystem"@, 0);
    lemma_no_prefix_at(s, "AnimationSystem"@, 0);
    lemma_no_prefix_at(s, "AnimationSystem"@, 0);
    lemma_no_prefix_at(s, "AnimationSystem"@, 0);
    lemma_no_prefix_at(s, "AnimationSystem"@, 0);
    lemma_no_prefix_at(s, "AnimationSystem"@, 0);
    lemma_no_prefix_at(s, "MediaFolder"@, 0);
    lemma_no_prefix_at(s, "MediaContent"@, 0);
    lemma_no_prefix_at(s, "ModelFolder"@, 0);
    lemma_no_prefix_at(s, "ModelContent"@, 0);
    lemma_no_prefix_at(s, "ColorEffects"@, 0);
    lemma_no_prefix_at(s, "Color"@, 0);
    lemma_no_prefix_at(s, "Color"@, 0);
    lemma_no_prefix_at(s, "Color"@, 0);
    lemma_no_prefix_at(s, "Color"@, 0);
    lemma_no_prefix_at(s, "Color"@, 0);
    lemma_no_prefix_at(s, "ColorMacro"@, 0);
    lemma_no_prefix_at(s, "ColorMacro"@, 0);
    lemma_no_prefix_at(s, "Shutter"@, 0);
    lemma_no_prefix_at(s, "Shutter"@, 0);
    lemma_no_prefix_at(s, "Shutter"@, 0);
    lemma_no_prefix_at(s, "Shutter"@, 0);
    lemma_no_prefix_at(s, "Shutter"@, 0);
    lemma_no_prefix_at(s, "Shutter"@, 0);
    lemma_no_prefix_at(s, "Shutter"@, 0);
    lemma_no_prefix_at(s, "Shutter"@, 0);
    lemma_no_prefix_at(s, "Shutter"@, 0);
    lemma_no_prefix_at(s, "Shutter"@, 0);
    lemma_extract_n_then_letter("Frost"@, n, "PulseClose"@);
    lemma_no_suffix_at(s, "Frost"@, "PulseOpen"@, 0);
    lemma_extract_n_suffix_of("Frost"@, n, "PulseClose"@);
}

/// The name of `FrostRamp` is read back as `FrostRamp`.
proof fn lemma_numbered_name_frost_ramp(n: u8)
    ensures
        AttributeView::parse(AttributeView::FrostRamp(n).name()) == AttributeView::FrostRamp(n),
{
    let s = AttributeView::FrostRamp(n).name();
    lemma_dec(n);
    reveal_strlit("AnimationSystem");
    reveal_strlit("AnimationWheel");
    reveal_strlit("Color");
    reveal_strlit("ColorEffects");
    reveal_strlit("ColorMacro");
    reveal_strlit("Frost");
    reveal_strlit("Gobo");
    reveal_strlit("MediaContent");
    reveal_strlit("MediaFolder");
    reveal_strlit("ModelContent");
    reveal_strlit("ModelFolder");
    reveal_strlit("PulseClose");
    reveal_strlit("PulseOpen");
    reveal_strlit("Ramp");
    reveal_strlit("Shutter");
    assert(s[5] == dec(n)[0]);
    lemma_fixed_rejects_digit(s, 5);
    lemma_no_prefix_at(s, "Gobo"@, 0);
    lemma_no_prefix_at(s, "Gobo"@, 0);
    lemma_no_prefix_at(s, "Gobo"@, 0);
    lemma_no_prefix_at(s, "Gobo"@, 0);
    lemma_no_prefix_at(s, "Gobo"@, 0);
    lemma_no_prefix_at(s, "Gobo"@, 0);
    lemma_no_prefix_at(s, "Gobo"@, 0);
    lemma_no_prefix_at(s, "Gobo"@, 0);
    lemma_no_prefix_at(s, "Gobo"@, 0);
    lemma_no_prefix_at(s, "Gobo"@, 0);
    lemma_no_prefix_at(s, "Gobo"@, 0);
    lemma_no_prefix_at(s, "Gobo"@, 0);
    lemma_no_prefix_at(s, "AnimationWheel"@, 0);
    lemma_no_prefix_at(s, "AnimationWheel"@, 0);
    lemma_no_prefix_at(s, "AnimationWheel"@, 0);
    lemma_no_prefix_at(s, "AnimationWheel"@, 0);
    lemma_no_prefix_at(s, "AnimationWheel"@, 0);
    lemma_no_prefix_at(s, "AnimationWheel"@, 0);
    lemma_no_prefix_at(s, "AnimationWheel"@, 0);
    lemma_no_prefix_at(s, "AnimationWheel"@, 0);
    lemma_no_prefix_at(s, "AnimationWheel"@, 0);
    lemma_no_prefix_at(s, "AnimationWheel"@, 0);
    lemma_no_prefix_at(s, "AnimationSystem"@, 0);
    lemma_no_prefix_at(s, "AnimationSystem"@, 0);
    lemma_no_prefix_at(s, "AnimationSystem"@, 0);
    lemma_no_prefix_at(s, "AnimationSystem"@, 0);
    lemma_no_prefix_at(s, "AnimationSystem"@, 0);
    lemma_no_prefix_at(s, "AnimationSystem"@, 0);
    lemma_no_prefix_at(s, "AnimationSystem"@, 0);
    lemma_no_prefix_at(s, "AnimationSystem"@, 0);
    lemma_no_prefix_at(s, "AnimationSystem"@, 0);
    lemma_no_prefix_at(s, "AnimationSystem"@, 0);
    lemma_no_prefix_at(s, "AnimationSystem"@, 0);
    lemma_no_prefix_at(s, "MediaFolder"@, 0);
    lemma_no_prefix_at(s, "MediaContent"@, 0);
    lemma_no_prefix_at(s, "ModelFolder"@, 0);
    lemma_no_prefix_at(s, "ModelContent"@, 0);
    lemma_no_prefix_at(s, "ColorEffects"@, 0);
    lemma_no_prefix_at(s, "Color"@, 0);
    lemma_no_prefix_at(s, "Color"@, 0);
    lemma_no_prefix_at(s, "Color"@, 0);
    lemma_no_prefix_at(s, "Color"@, 0);
    lemma_no_prefix_at(s, "Color"@, 0);
    lemma_no_prefix_at(s, "ColorMacro"@, 0);
    lemma_no_prefix_at(s, "ColorMacro"@, 0);
    lemma_no_prefix_at(s, "Shutter"@, 0);
    lemma_no_prefix_at(s, "Shutter"@, 0);
    lemma_no_prefix_at(s, "Shutter"@, 0);
    lemma_no_prefix_at(s, "Shutter"@, 0);
    lemma_no_prefix_at(s, "Shutter"@, 0);
    lemma_no_prefix_at(s, "Shutter"@, 0);
    lemma_no_prefix_at(s, "Shutter"@, 0);
    lemma_no_prefix_at(s, "Shutter"@, 0);
    lemma_no_prefix_at(s, "Shutter"@, 0);
    lemma_no_prefix_at(s, "Shutter"@, 0);
    lemma_extract_n_then_letter("Frost"@, n, "Ramp"@);
    lemma_no_suffix_at(s, "Frost"@, "PulseOpen"@, 4);
    lemma_no_suffix_at(s, "Frost"@, "PulseClose"@, 5);
    lemma_extract_n_suffix_of("Frost"@, n, "Ramp"@);
}

/// The name of `Prism` is read back as `Prism`.
proof fn lemma_numbered_name_prism(n: u8)
    ensures
        AttributeView::parse(AttributeView::Prism(n).name()) == AttributeView::Prism(n),
{
    let s = AttributeView::Prism(n).name();
    lemma_dec(n);
    reveal_strlit("AnimationSystem");
    reveal_strlit("AnimationWheel");
    reveal_strlit("Color");
    reveal_strlit("ColorEffects");
    reveal_strlit("ColorMacro");
    reveal_strlit("Frost");
    reveal_strlit("Gobo");
    reveal_strlit("MediaContent");
    reveal_strlit("MediaFolder");
    reveal_strlit("ModelContent");
    reveal_strlit("ModelFolder");
    reveal_strlit("Prism");
    reveal_strlit("Shutter");
    assert(s[5] == dec(n)[0]);
    lemma_fixed_rejects_digit(s, 5);
    lemma_no_prefix_at(s, "Gobo"@, 0);
    lemma_no_prefix_at(s, "Gobo"@, 0);
    lemma_no_prefix_at(s, "Gobo"@, 0);
    lemma_no_prefix_at(s, "Gobo"@, 0);
    lemma_no_prefix_at(s, "Gobo"@, 0);
    lemma_no_prefix_at(s, "Gobo"@, 0);
    lemma_no_prefix_at(s, "Gobo"@, 0);
    lemma_no_prefix_at(s, "Gobo"@, 0);
    lemma_no_prefix_at(s, "Gobo"@, 0);
    lemma_no_prefix_at(s, "Gobo"@, 0);
    lemma_no_prefix_at(s, "Gobo"@, 0);
    lemma_no_prefix_at(s, "Gobo"@, 0);
    lemma_no_prefix_at(s, "AnimationWheel"@, 0);
    lemma_no_prefix_at(s, "AnimationWheel"@, 0);
    lemma_no_prefix_at(s, "AnimationWheel"@, 0);
    lemma_no_prefix_at(s, "AnimationWheel"@, 0);
    lemma_no_prefix_at(s, "AnimationWheel"@, 0);
    lemma_no_prefix_at(s, "AnimationWheel"@, 0);
    lemma_no_prefix_at(s, "AnimationWheel"@, 0);
    lemma_no_prefix_at(s, "AnimationWheel"@, 0);
    lemma_no_prefix_at(s, "AnimationWheel"@, 0);
    lemma_no_prefix_at(s, "AnimationWheel"@, 0);
    lemma_no_prefix_at(s, "AnimationSystem"@, 0);
    lemma_no_prefix_at(s, "AnimationSystem"@, 0);
    lemma_no_prefix_at(s, "AnimationSystem"@, 0);
    lemma_no_prefix_at(s, "AnimationSystem"@, 0);
    lemma_no_prefix_at(s, "AnimationSystem"@, 0);
    lemma_no_prefix_at(s, "AnimationSystem"@, 0);
    lemma_no_prefix_at(s, "AnimationSystem"@, 0);
    lemma_no_prefix_at(s, "AnimationSystem"@, 0);
    lemma_no_prefix_at(s, "AnimationSystem"@, 0);
    lemma_no_prefix_at(s, "AnimationSystem"@, 0);
    lemma_no_prefix_at(s, "AnimationSystem"@, 0);
    lemma_no_prefix_at(s, "MediaFolder"@, 0);
    lemma_no_prefix_at(s, "MediaContent"@, 0);
    lemma_no_prefix_at(s, "ModelFolder"@, 0);
    lemma_no_prefix_at(s, "ModelContent"@, 0);
    lemma_no_prefix_at(s, "ColorEffects"@, 0);
    lemma_no_prefix_at(s, "Color"@, 0);
    lemma_no_prefix_at(s, "Color"@, 0);
    lemma_no_prefix_at(s, "Color"@, 0);
    lemma_no_prefix_at(s, "Color"@, 0);
    lemma_no_prefix_at(s, "Color"@, 0);
    lemma_no_prefix_at(s, "ColorMacro"@, 0);
    lemma_no_prefix_at(s, "ColorMacro"@, 0);
    lemma_no_prefix_at(s, "Shutter"@, 0);
    lemma_no_prefix_at(s, "Shutter"@, 0);
    lemma_no_prefix_at(s, "Shutter"@, 0);
    lemma_no_prefix_at(s, "Shutter"@, 0);
    lemma_no_prefix_at(s, "Shutter"@, 0);
    lemma_no_prefix_at(s, "Shutter"@, 0);
    lemma_no_prefix_at(s, "Shutter"@, 0);
    lemma_no_prefix_at(s, "Shutter"@, 0);
    lemma_no_prefix_at(s, "Shutter"@, 0);
    lemma_no_prefix_at(s, "Shutter"@, 0);
    lemma_no_prefix_at(s, "Frost"@, 0);
    lemma_no_prefix_at(s, "Frost"@, 0);
    lemma_no_prefix_at(s, "Frost"@, 0);
    lemma_no_prefix_at(s, "Frost"@, 0);
    lemma_extract_n_of("Prism"@, n);
}

/// The name of `PrismSelectSpin` is read back as `PrismSelectSpin`.
proof fn lemma_numbered_name_prism_select_spin(n: u8)
    ensures
        AttributeView::parse(AttributeView::PrismSelectSpin(n).name()) == AttributeView::PrismSelectSpin(n),
{
    let s = AttributeView::PrismSelectSpin(n).name();
    lemma_dec(n);
    reveal_strlit("AnimationSystem");
    reveal_strlit("AnimationWheel");
    reveal_strlit("Color");
    reveal_strlit("ColorEffects");
    reveal_strlit("ColorMacro");
    reveal_strlit("Frost");
    reveal_strlit("Gobo");
    reveal_strlit("MediaContent");
    reveal_strlit("MediaFolder");
    reveal_strlit("ModelContent");
    reveal_strlit("ModelFolder");
    reveal_strlit("Prism");
    reveal_strlit("SelectSpin");
    reveal_strlit("Shutter");
    assert(s[5] == dec(n)[0]);
    lemma_fixed_rejects_digit(s, 5);
    lemma_no_prefix_at(s, "Gobo"@, 0);
    lemma_no_prefix_at(s, "Gobo"@, 0);
    lemma_no_prefix_at(s, "Gobo"@, 0);
    lemma_no_prefix_at(s, "Gobo"@, 0);
    lemma_no_prefix_at(s, "Gobo"@, 0);
    lemma_no_prefix_at(s, "Gobo"@, 0);
    lemma_no_prefix_at(s, "Gobo"@, 0);
    lemma_no_prefix_at(s, "Gobo"@, 0);
    lemma_no_prefix_at(s, "Gobo"@, 0);
    lemma_no_prefix_at(s, "Gobo"@, 0);
    lemma_no_prefix_at(s, "Gobo"@, 0);
    lemma_no_prefix_at(s, "Gobo"@, 0);
    lemma_no_prefix_at(s, "AnimationWheel"@, 0);
    lemma_no_prefix_at(s, "AnimationWheel"@, 0);
    lemma_no_prefix_at(s, "AnimationWheel"@, 0);
    lemma_no_prefix_at(s, "AnimationWheel"@, 0);
    lemma_no_prefix_at(s, "AnimationWheel"@, 0);
    lemma_no_prefix_at(s, "AnimationWheel"@, 0);
    lemma_no_prefix_at(s, "AnimationWheel"@, 0);
    lemma_no_prefix_at(s, "AnimationWheel"@, 0);
    lemma_no_prefix_at(s, "AnimationWheel"@, 0);
    lemma_no_prefix_at(s, "AnimationWheel"@, 0);
    lemma_no_prefix_at(s, "AnimationSystem"@, 0);
    lemma_no_prefix_at(s, "AnimationSystem"@, 0);
    lemma_no_prefix_at(s, "AnimationSystem"@, 0);
    lemma_no_prefix_at(s, "AnimationSystem"@, 0);
    lemma_no_prefix_at(s, "AnimationSystem"@, 0);
    lemma_no_prefix_at(s, "AnimationSystem"@, 0);
    lemma_no_prefix_at(s, "AnimationSystem"@, 0);
    lemma_no_prefix_at(s, "AnimationSystem"@, 0);
    lemma_no_prefix_at(s, "AnimationSystem"@, 0);
    lemma_no_prefix_at(s, "AnimationSystem"@, 0);
    lemma_no_prefix_at(s, "AnimationSystem"@, 0);
    lemma_no_prefix_at(s, "MediaFolder"@, 0);
    lemma_no_prefix_at(s, "MediaContent"@, 0);
    lemma_no_prefix_at(s, "ModelFolder"@, 0);
    lemma_no_prefix_at(s, "ModelContent"@, 0);
    lemma_no_prefix_at(s, "ColorEffects"@, 0);
    lemma_no_prefix_at(s, "Color"@, 0);
    lemma_no_prefix_at(s, "Color"@, 0);
    lemma_no_prefix_at(s, "Color"@, 0);
    lemma_no_prefix_at(s, "Color"@, 0);
    lemma_no_prefix_at(s, "Color"@, 0);
    lemma_no_prefix_at(s, "ColorMacro"@, 0);
    lemma_no_prefix_at(s, "ColorMacro"@, 0);
    lemma_no_prefix_at(s, "Shutter"@, 0);
    lemma_no_prefix_at(s, "Shutter"@, 0);
    lemma_no_prefix_at(s, "Shutter"@, 0);
    lemma_no_prefix_at(s, "Shutter"@, 0);
    lemma_no_prefix_at(s, "Shutter"@, 0);
    lemma_no_prefix_at(s, "Shutter"@, 0);
    lemma_no_prefix_at(s, "Shutter"@, 0);
    lemma_no_prefix_at(s, "Shutter"@, 0);
    lemma_no_prefix_at(s, "Shutter"@, 0);
    lemma_no_prefix_at(s, "Shutter"@, 0);
    lemma_no_prefix_at(s, "Frost"@, 0);
    lemma_no_prefix_at(s, "Frost"@, 0);
    lemma_no_prefix_at(s, "Frost"@, 0);
    lemma_no_prefix_at(s, "Frost"@, 0);
    lemma_extract_n_then_letter("Prism"@, n, "SelectSpin"@);
    lemma_extract_n_suffix_of("Prism"@, n, "SelectSpin"@);
}

/// The name of `PrismMacro` is read back as `PrismMacro`.
proof fn lemma_numbered_name_prism_macro(n: u8)
    ensures
        AttributeView::parse(AttributeView::PrismMacro(n).name()) == AttributeView::PrismMacro(n),
{
    let s = AttributeView::PrismMacro(n).name();
    lemma_dec(n);
    reveal_strlit("AnimationSystem");
    reveal_strlit("AnimationWheel");
    reveal_strlit("Color");
    reveal_strlit("ColorEffects");
    reveal_strlit("ColorMacro");
    reveal_strlit("Frost");
    reveal_strlit("Gobo");
    reveal_strlit("Macro");
    reveal_strlit("MediaContent");
    reveal_strlit("MediaFolder");
    reveal_strlit("ModelContent");
    reveal_strlit("ModelFolder");
    reveal_strlit("Prism");
    reveal_strlit("SelectSpin");
    reveal_strlit("Shutter");
    assert(s[5] == dec(n)[0]);
    lemma_fixed_rejects_digit(s, 5);
    lemma_no_prefix_at(s, "Gobo"@, 0);
    lemma_no_prefix_at(s, "Gobo"@, 0);
    lemma_no_prefix_at(s, "Gobo"@, 0);
    lemma_no_prefix_at(s, "Gobo"@, 0);
    lemma_no_prefix_at(s, "Gobo"@, 0);
    lemma_no_prefix_at(s, "Gobo"@, 0);
    lemma_no_prefix_at(s, "Gobo"@, 0);
    lemma_no_prefix_at(s, "Gobo"@, 0);
    lemma_no_prefix_at(s, "Gobo"@, 0);
    lemma_no_prefix_at(s, "Gobo"@, 0);
    lemma_no_prefix_at(s, "Gobo"@, 0);
    lemma_no_prefix_at(s, "Gobo"@, 0);
    lemma_no_prefix_at(s, "AnimationWheel"@, 0);
    lemma_no_prefix_at(s, "AnimationWheel"@, 0);
    lemma_no_prefix_at(s, "AnimationWheel"@, 0);
    lemma_no_prefix_at(s, "AnimationWheel"@, 0);
    lemma_no_prefix_at(s, "AnimationWheel"@, 0);
    lemma_no_prefix_at(s, "AnimationWheel"@, 0);
    lemma_no_prefix_at(s, "AnimationWheel"@, 0);
    lemma_no_prefix_at(s, "AnimationWheel"@, 0);
    lemma_no_prefix_at(s, "AnimationWheel"@, 0);
    lemma_no_prefix_at(s, "AnimationWheel"@, 0);
    lemma_no_prefix_at(s, "AnimationSystem"@, 0);
    lemma_no_prefix_at(s, "AnimationSystem"@, 0);
    lemma_no_prefix_at(s, "AnimationSystem"@, 0);
    lemma_no_prefix_at(s, "AnimationSystem"@, 0);
    lemma_no_prefix_at(s, "AnimationSystem"@, 0);
    lemma_no_prefix_at(s, "AnimationSystem"@, 0);
    lemma_no_prefix_at(s, "AnimationSystem"@, 0);
    lemma_no_prefix_at(s, "AnimationSystem"@, 0);
    lemma_no_prefix_at(s, "AnimationSystem"@, 0);
    lemma_no_prefix_at(s, "AnimationSystem"@, 0);
    lemma_no_prefix_at(s, "AnimationSystem"@, 0);
    lemma_no_prefix_at(s, "MediaFolder"@, 0);
    lemma_no_prefix_at(s, "MediaContent"@, 0);
    lemma_no_prefix_at(s, "ModelFolder"@, 0);
    lemma_no_prefix_at(s, "ModelContent"@, 0);
    lemma_no_prefix_at(s, "ColorEffects"@, 0);
    lemma_no_prefix_at(s, "Color"@, 0);
    lemma_no_prefix_at(s, "Color"@, 0);
    lemma_no_prefix_at(s, "Color"@, 0);
    lemma_no_prefix_at(s, "Color"@, 0);
    lemma_no_prefix_at(s, "Color"@, 0);
    lemma_no_prefix_at(s, "ColorMacro"@, 0);
    lemma_no_prefix_at(s, "ColorMacro"@, 0);
    lemma_no_prefix_at(s, "Shutter"@, 0);
    lemma_no_prefix_at(s, "Shutter"@, 0);
    lemma_no_prefix_at(s, "Shutter"@, 0);
    lemma_no_prefix_at(s, "Shutter"@, 0);
    lemma_no_prefix_at(s, "Shutter"@, 0);
    lemma_no_prefix_at(s, "Shutter"@, 0);
    lemma_no_prefix_at(s, "Shutter"@, 0);
    lemma_no_prefix_at(s, "Shutter"@, 0);
    lemma_no_prefix_at(s, "Shutter"@, 0);
    lemma_no_prefix_at(s, "Shutter"@, 0);
    lemma_no_prefix_at(s, "Frost"@, 0);
    lemma_no_prefix_at(s, "Frost"@, 0);
    lemma_no_prefix_at(s, "Frost"@, 0);
    lemma_no_prefix_at(s, "Frost"@, 0);
    lemma_extract_n_then_letter("Prism"@, n, "Macro"@);
    lemma_no_suffix_at(s, "Prism"@, "SelectSpin"@, 4);
    lemma_extract_n_suffix_of("Prism"@, n, "Macro"@);
}

/// The name of `PrismPos` is read back as `PrismPos`.
proof fn lemma_numbered_name_prism_pos(n: u8)
    ensures
        AttributeView::parse(AttributeView::PrismPos(n).name()) == AttributeView::PrismPos(n),
{
    let s = AttributeView::PrismPos(n).name();
    lemma_dec(n);
    reveal_strlit("AnimationSystem");
    reveal_strlit("AnimationWheel");
    reveal_strlit("Color");
    reveal_strlit("ColorEffects");
    reveal_strlit("ColorMacro");
    reveal_strlit("Frost");
    reveal_strlit("Gobo");
    reveal_strlit("Macro");
    reveal_strlit("MediaContent");
    reveal_strlit("MediaFolder");
    reveal_strlit("ModelContent");
    reveal_strlit("ModelFolder");
    reveal_strlit("Pos");
    reveal_strlit("Prism");
    reveal_strlit("SelectSpin");
    reveal_strlit("Shutter");
    assert(s[5] == dec(n)[0]);
    lemma_fixed_rejects_digit(s, 5);
    lemma_no_prefix_at(s, "Gobo"@, 0);
    lemma_no_prefix_at(s, "Gobo"@, 0);
    lemma_no_prefix_at(s, "Gobo"@, 0);
    lemma_no_prefix_at(s, "Gobo"@, 0);
    lemma_no_prefix_at(s, "Gobo"@, 0);
    lemma_no_prefix_at(s, "Gobo"@, 0);
    lemma_no_prefix_at(s, "Gobo"@, 0);
    lemma_no_prefix_at(s, "Gobo"@, 0);
    lemma_no_prefix_at(s, "Gobo"@, 0);
    lemma_no_prefix_at(s, "Gobo"@, 0);
    lemma_no_prefix_at(s, "Gobo"@, 0);
    lemma_no_prefix_at(s, "Gobo"@, 0);
    lemma_no_prefix_at(s, "AnimationWheel"@, 0);
    lemma_no_prefix_at(s, "AnimationWheel"@, 0);
    lemma_no_prefix_at(s, "AnimationWheel"@, 0);
    lemma_no_prefix_at(s, "AnimationWheel"@, 0);
    lemma_no_prefix_at(s, "AnimationWheel"@, 0);
    lemma_no_prefix_at(s, "AnimationWheel"@, 0);
    lemma_no_prefix_at(s, "AnimationWheel"@, 0);
    lemma_no_prefix_at(s, "AnimationWheel"@, 0);
    lemma_no_prefix_at(s, "AnimationWheel"@, 0);
    lemma_no_prefix_at(s, "AnimationWheel"@, 0);
    lemma_no_prefix_at(s, "AnimationSystem"@, 0);
    lemma_no_prefix_at(s, "AnimationSystem"@, 0);
    lemma_no_prefix_at(s, "AnimationSystem"@, 0);
    lemma_no_prefix_at(s, "AnimationSystem"@, 0);
    lemma_no_prefix_at(s, "AnimationSystem"@, 0);
    lemma_no_prefix_at(s, "AnimationSystem"@, 0);
    lemma_no_prefix_at(s, "AnimationSystem"@, 0);
    lemma_no_prefix_at(s, "AnimationSystem"@, 0);
    lemma_no_prefix_at(s, "AnimationSystem"@, 0);
    lemma_no_prefix_at(s, "AnimationSystem"@, 0);
    lemma_no_prefix_at(s, "AnimationSystem"@, 0);
    lemma_no_prefix_at(s, "MediaFolder"@, 0);
    lemma_no_prefix_at(s, "MediaContent"@, 0);
    lemma_no_prefix_at(s, "ModelFolder"@, 0);
    lemma_no_prefix_at(s, "ModelContent"@, 0);
    lemma_no_prefix_at(s, "ColorEffects"@, 0);
    lemma_no_prefix_at(s, "Color"@, 0);
    lemma_no_prefix_at(s, "Color"@, 0);
    lemma_no_prefix_at(s, "Color"@, 0);
    lemma_no_prefix_at(s, "Color"@, 0);
    lemma_no_prefix_at(s, "Color"@, 0);
    lemma_no_prefix_at(s, "ColorMacro"@, 0);
    lemma_no_prefix_at(s, "ColorMacro"@, 0);
    lemma_no_prefix_at(s, "Shutter"@, 0);
    lemma_no_prefix_at(s, "Shutter"@, 0);
    lemma_no_prefix_at(s, "Shutter"@, 0);
    lemma_no_prefix_at(s, "Shutter"@, 0);
    lemma_no_prefix_at(s, "Shutter"@, 0);
    lemma_no_prefix_at(s, "Shutter"@, 0);
    lemma_no_prefix_at(s, "Shutter"@, 0);
    lemma_no_prefix_at(s, "Shutter"@, 0);
    lemma_no_prefix_at(s, "Shutter"@, 0);
    lemma_no_prefix_at(s, "Shutter"@, 0);
    lemma_no_prefix_at(s, "Frost"@, 0);
    lemma_no_prefix_at(s, "Frost"@, 0);
    lemma_no_prefix_at(s, "Frost"@, 0);
    lemma_no_prefix_at(s, "Frost"@, 0);
    lemma_extract_n_then_letter("Prism"@, n, "Pos"@);
    lemma_no_suffix_at(s, "Prism"@, "SelectSpin"@, 6);
    lemma_no_suffix_at(s, "Prism"@, "Macro"@, 1);
    lemma_extract_n_suffix_of("Prism"@, n, "Pos"@);
}

/// The name of `PrismPosRotate` is read back as `PrismPosRotate`.
proof fn lemma_numbered_name_prism_pos_rotate(n: u8)
    ensures
        AttributeView::parse(AttributeView::PrismPosRotate(n).name()) == AttributeView::PrismPosRotate(n),
{
    let s = AttributeView::PrismPosRotate(n).name();
    lemma_dec(n);
    reveal_strlit("AnimationSystem");
    reveal_strlit("AnimationWheel");
    reveal_strlit("Color");
    reveal_strlit("ColorEffects");
    reveal_strlit("ColorMacro");
    reveal_strlit("Frost");
    reveal_strlit("Gobo");
    reveal_strlit("Macro");
    reveal_strlit("MediaContent");
    reveal_strlit("MediaFolder");
    reveal_strlit("ModelContent");
    reveal_strlit("ModelFolder");
    reveal_strlit("Pos");
    reveal_strlit("PosRotate");
    reveal_strlit("Prism");
    reveal_strlit("SelectSpin");
    reveal_strlit("Shutter");
    assert(s[5] == dec(n)[0]);
    lemma_fixed_rejects_digit(s, 5);
    lemma_no_prefix_at(s, "Gobo"@, 0);
    lemma_no_prefix_at(s, "Gobo"@, 0);
    lemma_no_prefix_at(s, "Gobo"@, 0);
    lemma_no_prefix_at(s, "Gobo"@, 0);
    lemma_no_prefix_at(s, "Gobo"@, 0);
    lemma_no_prefix_at(s, "Gobo"@, 0);
    lemma_no_prefix_at(s, "Gobo"@, 0);
    lemma_no_prefix_at(s, "Gobo"@, 0);
    lemma_no_prefix_at(s, "Gobo"@, 0);
    lemma_no_prefix_at(s, "Gobo"@, 0);
    lemma_no_prefix_at(s, "Gobo"@, 0);
    lemma_no_prefix_at(s, "Gobo"@, 0);
    lemma_no_prefix_at(s, "AnimationWheel"@, 0);
    lemma_no_prefix_at(s, "AnimationWheel"@, 0);
    lemma_no_prefix_at(s, "AnimationWheel"@, 0);
    lemma_no_prefix_at(s, "AnimationWheel"@, 0);
    lemma_no_prefix_at(s, "AnimationWheel"@, 0);
    lemma_no_prefix_at(s, "AnimationWheel"@, 0);
    lemma_no_prefix_at(s, "AnimationWheel"@, 0);
    lemma_no_prefix_at(s, "AnimationWheel"@, 0);
    lemma_no_prefix_at(s, "AnimationWheel"@, 0);
    lemma_no_prefix_at(s, "AnimationWheel"@, 0);
    lemma_no_prefix_at(s, "AnimationSystem"@, 0);
    lemma_no_prefix_at(s, "AnimationSystem"@, 0);
    lemma_no_prefix_at(s, "AnimationSystem"@, 0);
    lemma_no_prefix_at(s, "AnimationSystem"@, 0);
    lemma_no_prefix_at(s, "AnimationSystem"@, 0);
    lemma_no_prefix_at(s, "AnimationSystem"@, 0);
    lemma_no_prefix_at(s, "AnimationSystem"@, 0);
    lemma_no_prefix_at(s, "AnimationSystem"@, 0);
    lemma_no_prefix_at(s, "AnimationSystem"@, 0);
    lemma_no_prefix_at(s, "AnimationSystem"@, 0);
    lemma_no_prefix_at(s, "AnimationSystem"@, 0);
    lemma_no_prefix_at(s, "MediaFolder"@, 0);
    lemma_no_prefix_at(s, "MediaContent"@, 0);
    lemma_no_prefix_at(s, "ModelFolder"@, 0);
    lemma_no_prefix_at(s, "ModelContent"@, 0);
    lemma_no_prefix_at(s, "ColorEffects"@, 0);
    lemma_no_prefix_at(s, "Color"@, 0);
    lemma_no_prefix_at(s, "Color"@, 0);
    lemma_no_prefix_at(s, "Color"@, 0);
    lemma_no_prefix_at(s, "Color"@, 0);
    lemma_no_prefix_at(s, "Color"@, 0);
    lemma_no_prefix_at(s, "ColorMacro"@, 0);
    lemma_no_prefix_at(s, "ColorMacro"@, 0);
    lemma_no_prefix_at(s, "Shutter"@, 0);
    lemma_no_prefix_at(s, "Shutter"@, 0);
    lemma_no_prefix_at(s, "Shutter"@, 0);
    lemma_no_prefix_at(s, "Shutter"@, 0);
    lemma_no_prefix_at(s, "Shutter"@, 0);
    lemma_no_prefix_at(s, "Shutter"@, 0);
    lemma_no_prefix_at(s, "Shutter"@, 0);
    lemma_no_prefix_at(s, "Shutter"@, 0);
    lemma_no_prefix_at(s, "Shutter"@, 0);
    lemma_no_prefix_at(s, "Shutter"@, 0);
    lemma_no_prefix_at(s, "Frost"@, 0);
    lemma_no_prefix_at(s, "Frost"@, 0);
    lemma_no_prefix_at(s, "Frost"@, 0);
    lemma_no_prefix_at(s, "Frost"@, 0);
    lemma_extract_n_then_letter("Prism"@, n, "PosRotate"@);
    lemma_no_suffix_at(s, "Prism"@, "SelectSpin"@, 0);
    lemma_no_suffix_at(s, "Prism"@, "Macro"@, 0);
    lemma_no_suffix_at(s, "Prism"@, "Pos"@, 0);
    lemma_extract_n_suffix_of("Prism"@, n, "PosRotate"@);
}

/// The name of `Effects` is read back as `Effects`.
proof fn lemma_numbered_name_effects(n: u8)
    ensures
        AttributeView::parse(AttributeView::Effects(n).name()) == AttributeView::Effects(n),
{
    let s = AttributeView::Effects(n).name();
    lemma_dec(n);
    reveal_strlit("Adjust");
    reveal_strlit("AnimationSystem");
    reveal_strlit("AnimationWheel");
    reveal_strlit("Color");
    reveal_strlit("ColorEffects");
    reveal_strlit("ColorMacro");
    reveal_strlit("Effects");
    reveal_strlit("Frost");
    reveal_strlit("Gobo");
    reveal_strlit("MediaContent");
    reveal_strlit("MediaFolder");
    reveal_strlit("ModelContent");
    reveal_strlit("ModelFolder");
    reveal_strlit("Prism");
    reveal_strlit("Shutter");
    assert(s[7] == dec(n)[0]);
    lemma_fixed_rejects_digit(s, 7);
    lemma_no_prefix_at(s, "Gobo"@, 0);
    lemma_no_prefix_at(s, "Gobo"@, 0);
    lemma_no_prefix_at(s, "Gobo"@, 0);
    lemma_no_prefix_at(s, "Gobo"@, 0);
    lemma_no_prefix_at(s, "Gobo"@, 0);
    lemma_no_prefix_at(s, "Gobo"@, 0);
    lemma_no_prefix_at(s, "Gobo"@, 0);
    lemma_no_prefix_at(s, "Gobo"@, 0);
    lemma_no_prefix_at(s, "Gobo"@, 0);
    lemma_no_prefix_at(s, "Gobo"@, 0);
    lemma_no_prefix_at(s, "Gobo"@, 0);
    lemma_no_prefix_at(s, "Gobo"@, 0);
    lemma_no_prefix_at(s, "AnimationWheel"@, 0);
    lemma_no_prefix_at(s, "AnimationWheel"@, 0);
    lemma_no_prefix_at(s, "AnimationWheel"@, 0);
    lemma_no_prefix_at(s, "AnimationWheel"@, 0);
    lemma_no_prefix_at(s, "AnimationWheel"@, 0);
    lemma_no_prefix_at(s, "AnimationWheel"@, 0);
    lemma_no_prefix_at(s, "AnimationWheel"@, 0);
    lemma_no_prefix_at(s, "AnimationWheel"@, 0);
    lemma_no_prefix_at(s, "AnimationWheel"@, 0);
    lemma_no_prefix_at(s, "AnimationWheel"@, 0);
    lemma_no_prefix_at(s, "AnimationSystem"@, 0);
    lemma_no_prefix_at(s, "AnimationSystem"@, 0);
    lemma_no_prefix_at(s, "AnimationSystem"@, 0);
    lemma_no_prefix_at(s, "AnimationSystem"@, 0);
    lemma_no_prefix_at(s, "AnimationSystem"@, 0);
    lemma_no_prefix_at(s, "AnimationSystem"@, 0);
    lemma_no_prefix_at(s, "AnimationSystem"@, 0);
    lemma_no_prefix_at(s, "AnimationSystem"@, 0);
    lemma_no_prefix_at(s, "AnimationSystem"@, 0);
    lemma_no_prefix_at(s, "AnimationSystem"@, 0);
    lemma_no_prefix_at(s, "AnimationSystem"@, 0);
    lemma_no_prefix_at(s, "MediaFolder"@, 0);
    lemma_no_prefix_at(s, "MediaContent"@, 0);
    lemma_no_prefix_at(s, "ModelFolder"@, 0);
    lemma_no_prefix_at(s, "ModelContent"@, 0);
    lemma_no_prefix_at(s, "ColorEffects"@, 0);
    lemma_no_prefix_at(s, "Color"@, 0);
    lemma_no_prefix_at(s, "Color"@, 0);
    lemma_no_prefix_at(s, "Color"@, 0);
    lemma_no_prefix_at(s, "Color"@, 0);
    lemma_no_prefix_at(s, "Color"@, 0);
    lemma_no_prefix_at(s, "ColorMacro"@, 0);
    lemma_no_prefix_at(s, "ColorMacro"@, 0);
    lemma_no_prefix_at(s, "Shutter"@, 0);
    lemma_no_prefix_at(s, "Shutter"@, 0);
    lemma_no_prefix_at(s, "Shutter"@, 0);
    lemma_no_prefix_at(s, "Shutter"@, 0);
    lemma_no_prefix_at(s, "Shutter"@, 0);
    lemma_no_prefix_at(s, "Shutter"@, 0);
    lemma_no_prefix_at(s, "Shutter"@, 0);
    lemma_no_prefix_at(s, "Shutter"@, 0);
    lemma_no_prefix_at(s, "Shutter"@, 0);
    lemma_no_prefix_at(s, "Shutter"@, 0);
    lemma_no_prefix_at(s, "Frost"@, 0);
    lemma_no_prefix_at(s, "Frost"@, 0);
    lemma_no_prefix_at(s, "Frost"@, 0);
    lemma_no_prefix_at(s, "Frost"@, 0);
    lemma_no_prefix_at(s, "Prism"@, 0);
    lemma_no_prefix_at(s, "Prism"@, 0);
    lemma_no_prefix_at(s, "Prism"@, 0);
    lemma_no_prefix_at(s, "Prism"@, 0);
    lemma_no_prefix_at(s, "Prism"@, 0);
    assert(s =~= "Effects"@ + dec(n) + Seq::<char>::empty());
    lemma_extract_n_m_absent("Effects"@, n, Seq::<char>::empty(), "Adjust"@);
    lemma_extract_n_of("Effects"@, n);
}

/// The name of `EffectsRate` is read back as `EffectsRate`.
proof fn lemma_numbered_name_effects_rate(n: u8)
    ensures
        AttributeView::parse(AttributeView::EffectsRate(n).name()) == AttributeView::EffectsRate(n),
{
    let s = AttributeView::EffectsRate(n).name();
    lemma_dec(n);
    reveal_strlit("Adjust");
    reveal_strlit("AnimationSystem");
    reveal_strlit("AnimationWheel");
    reveal_strlit("Color");
    reveal_strlit("ColorEffects");
    reveal_strlit("ColorMacro");
    reveal_strlit("Effects");
    reveal_strlit("Frost");
    reveal_strlit("Gobo");
    reveal_strlit("MediaContent");
    reveal_strlit("MediaFolder");
    reveal_strlit("ModelContent");
    reveal_strlit("ModelFolder");
    reveal_strlit("Prism");
    reveal_strlit("Rate");
    reveal_strlit("Shutter");
    assert(s[7] == dec(n)[0]);
    lemma_fixed_rejects_digit(s, 7);
    lemma_no_prefix_at(s, "Gobo"@, 0);
    lemma_no_prefix_at(s, "Gobo"@, 0);
    lemma_no_prefix_at(s, "Gobo"@, 0);
    lemma_no_prefix_at(s, "Gobo"@, 0);
    lemma_no_prefix_at(s, "Gobo"@, 0);
    lemma_no_prefix_at(s, "Gobo"@, 0);
    lemma_no_prefix_at(s, "Gobo"@, 0);
    lemma_no_prefix_at(s, "Gobo"@, 0);
    lemma_no_prefix_at(s, "Gobo"@, 0);
    lemma_no_prefix_at(s, "Gobo"@, 0);
    lemma_no_prefix_at(s, "Gobo"@, 0);
    lemma_no_prefix_at(s, "Gobo"@, 0);
    lemma_no_prefix_at(s, "AnimationWheel"@, 0);
    lemma_no_prefix_at(s, "AnimationWheel"@, 0);
    lemma_no_prefix_at(s, "AnimationWheel"@, 0);
    lemma_no_prefix_at(s, "AnimationWheel"@, 0);
    lemma_no_prefix_at(s, "AnimationWheel"@, 0);
    lemma_no_prefix_at(s, "AnimationWheel"@, 0);
    lemma_no_prefix_at(s, "AnimationWheel"@, 0);
    lemma_no_prefix_at(s, "AnimationWheel"@, 0);
    lemma_no_prefix_at(s, "AnimationWheel"@, 0);
    lemma_no_prefix_at(s, "AnimationWheel"@, 0);
    lemma_no_prefix_at(s, "AnimationSystem"@, 0);
    lemma_no_prefix_at(s, "AnimationSystem"@, 0);
    lemma_no_prefix_at(s, "AnimationSystem"@, 0);
    lemma_no_prefix_at(s, "AnimationSystem"@, 0);
    lemma_no_prefix_at(s, "AnimationSystem"@, 0);
    lemma_no_prefix_at(s, "AnimationSystem"@, 0);
    lemma_no_prefix_at(s, "AnimationSystem"@, 0);
    lemma_no_prefix_at(s, "AnimationSystem"@, 0);
    lemma_no_prefix_at(s, "AnimationSystem"@, 0);
    lemma_no_prefix_at(s, "AnimationSystem"@, 0);
    lemma_no_prefix_at(s, "AnimationSystem"@, 0);
    lemma_no_prefix_at(s, "MediaFolder"@, 0);
    lemma_no_prefix_at(s, "MediaContent"@, 0);
    lemma_no_prefix_at(s, "ModelFolder"@, 0);
    lemma_no_prefix_at(s, "ModelContent"@, 0);
    lemma_no_prefix_at(s, "ColorEffects"@, 0);
    lemma_no_prefix_at(s, "Color"@, 0);
    lemma_no_prefix_at(s, "Color"@, 0);
    lemma_no_prefix_at(s, "Color"@, 0);
    lemma_no_prefix_at(s, "Color"@, 0);
    lemma_no_prefix_at(s, "Color"@, 0);
    lemma_no_prefix_at(s, "ColorMacro"@, 0);
    lemma_no_prefix_at(s, "ColorMacro"@, 0);
    lemma_no_prefix_at(s, "Shutter"@, 0);
    lemma_no_prefix_at(s, "Shutter"@, 0);
    lemma_no_prefix_at(s, "Shutter"@, 0);
    lemma_no_prefix_at(s, "Shutter"@, 0);
    lemma_no_prefix_at(s, "Shutter"@, 0);
    lemma_no_prefix_at(s, "Shutter"@, 0);
    lemma_no_prefix_at(s, "Shutter"@, 0);
    lemma_no_prefix_at(s, "Shutter"@, 0);
    lemma_no_prefix_at(s, "Shutter"@, 0);
    lemma_no_prefix_at(s, "Shutter"@, 0);
    lemma_no_prefix_at(s, "Frost"@, 0);
    lemma_no_prefix_at(s, "Frost"@, 0);
    lemma_no_prefix_at(s, "Frost"@, 0);
    lemma_no_prefix_at(s, "Frost"@, 0);
    lemma_no_prefix_at(s, "Prism"@, 0);
    lemma_no_prefix_at(s, "Prism"@, 0);
    lemma_no_prefix_at(s, "Prism"@, 0);
    lemma_no_prefix_at(s, "Prism"@, 0);
    lemma_no_prefix_at(s, "Prism"@, 0);
    lemma_extract_n_m_absent("Effects"@, n, "Rate"@, "Adjust"@);
    lemma_extract_n_then_letter("Effects"@, n, "Rate"@);
    lemma_extract_n_suffix_of("Effects"@, n, "Rate"@);
}

/// The name of `EffectsFade` is read back as `EffectsFade`.
proof fn lemma_numbered_name_effects_fade(n: u8)
    ensures
        AttributeView::parse(AttributeView::EffectsFade(n).name()) == AttributeView::EffectsFade(n),
{
    let s = AttributeView::EffectsFade(n).name();
    lemma_dec(n);
    reveal_strlit("Adjust");
    reveal_strlit("AnimationSystem");
    reveal_strlit("AnimationWheel");
    reveal_strlit("Color");
    reveal_strlit("ColorEffects");
    reveal_strlit("ColorMacro");
    reveal_strlit("Effects");
    reveal_strlit("Fade");
    reveal_strlit("Frost");
    reveal_strlit("Gobo");
    reveal_strlit("MediaContent");
    reveal_strlit("MediaFolder");
    reveal_strlit("ModelContent");
    reveal_strlit("ModelFolder");
    reveal_strlit("Prism");
    reveal_strlit("Rate");
    reveal_strlit("Shutter");
    assert(s[7] == dec(n)[0]);
    lemma_fixed_rejects_digit(s, 7);
    lemma_no_prefix_at(s, "Gobo"@, 0);
    lemma_no_prefix_at(s, "Gobo"@, 0);
    lemma_no_prefix_at(s, "Gobo"@, 0);
    lemma_no_prefix_at(s, "Gobo"@, 0);
    lemma_no_prefix_at(s, "Gobo"@, 0);
    lemma_no_prefix_at(s, "Gobo"@, 0);
    lemma_no_prefix_at(s, "Gobo"@, 0);
    lemma_no_prefix_at(s, "Gobo"@, 0);
    lemma_no_prefix_at(s, "Gobo"@, 0);
    lemma_no_prefix_at(s, "Gobo"@, 0);
    lemma_no_prefix_at(s, "Gobo"@, 0);
    lemma_no_prefix_at(s, "Gobo"@, 0);
    lemma_no_prefix_at(s, "AnimationWheel"@, 0);
    lemma_no_prefix_at(s, "AnimationWheel"@, 0);
    lemma_no_prefix_at(s, "AnimationWheel"@, 0);
    lemma_no_prefix_at(s, "AnimationWheel"@, 0);
    lemma_no_prefix_at(s, "AnimationWheel"@, 0);
    lemma_no_prefix_at(s, "AnimationWheel"@, 0);
    lemma_no_prefix_at(s, "AnimationWheel"@, 0);
    lemma_no_prefix_at(s, "AnimationWheel"@, 0);
    lemma_no_prefix_at(s, "AnimationWheel"@, 0);
    lemma_no_prefix_at(s, "AnimationWheel"@, 0);
    lemma_no_prefix_at(s, "AnimationSystem"@, 0);
    lemma_no_prefix_at(s, "AnimationSystem"@, 0);
    lemma_no_prefix_at(s, "AnimationSystem"@, 0);
    lemma_no_prefix_at(s, "AnimationSystem"@, 0);
    lemma_no_prefix_at(s, "AnimationSystem"@, 0);
    lemma_no_prefix_at(s, "AnimationSystem"@, 0);
    lemma_no_prefix_at(s, "AnimationSystem"@, 0);
    lemma_no_prefix_at(s, "AnimationSystem"@, 0);
    lemma_no_prefix_at(s, "AnimationSystem"@, 0);
    lemma_no_prefix_at(s, "AnimationSystem"@, 0);
    lemma_no_prefix_at(s, "AnimationSystem"@, 0);
    lemma_no_prefix_at(s, "MediaFolder"@, 0);
    lemma_no_prefix_at(s, "MediaContent"@, 0);
    lemma_no_prefix_at(s, "ModelFolder"@, 0);
    lemma_no_prefix_at(s, "ModelContent"@, 0);
    lemma_no_prefix_at(s, "ColorEffects"@, 0);
    lemma_no_prefix_at(s, "Color"@, 0);
    lemma_no_prefix_at(s, "Color"@, 0);
    lemma_no_prefix_at(s, "Color"@, 0);
    lemma_no_prefix_at(s, "Color"@, 0);
    lemma_no_prefix_at(s, "Color"@, 0);
    lemma_no_prefix_at(s, "ColorMacro"@, 0);
    lemma_no_prefix_at(s, "ColorMacro"@, 0);
    lemma_no_prefix_at(s, "Shutter"@, 0);
    lemma_no_prefix_at(s, "Shutter"@, 0);
    lemma_no_prefix_at(s, "Shutter"@, 0);
    lemma_no_prefix_at(s, "Shutter"@, 0);
    lemma_no_prefix_at(s, "Shutter"@, 0);
    lemma_no_prefix_at(s, "Shutter"@, 0);
    lemma_no_prefix_at(s, "Shutter"@, 0);
    lemma_no_prefix_at(s, "Shutter"@, 0);
    lemma_no_prefix_at(s, "Shutter"@, 0);
    lemma_no_prefix_at(s, "Shutter"@, 0);
    lemma_no_prefix_at(s, "Frost"@, 0);
    lemma_no_prefix_at(s, "Frost"@, 0);
    lemma_no_prefix_at(s, "Frost"@, 0);
    lemma_no_prefix_at(s, "Frost"@, 0);
    lemma_no_prefix_at(s, "Prism"@, 0);
    lemma_no_prefix_at(s, "Prism"@, 0);
    lemma_no_prefix_at(s, "Prism"@, 0);
    lemma_no_prefix_at(s, "Prism"@, 0);
    lemma_no_prefix_at(s, "Prism"@, 0);
    lemma_extract_n_m_absent("Effects"@, n, "Fade"@, "Adjust"@);
    lemma_extract_n_then_letter("Effects"@, n, "Fade"@);
    lemma_no_suffix_at(s, "Effects"@, "Rate"@, 0);
    lemma_extract_n_suffix_of("Effects"@, n, "Fade"@);
}

/// The name of `EffectsAdjust` is read back as `EffectsAdjust`.
proof fn lemma_numbered_name_effects_adjust(n: u8, m: u8)
    ensures
        AttributeView::parse(AttributeView::EffectsAdjust(n, m).name()) == AttributeView::EffectsAdjust(n, m),
{
    let s = AttributeView::EffectsAdjust(n, m).name();
    lemma_dec(n);
    lemma_dec(m);
    reveal_strlit("Adjust");
    reveal_strlit("AnimationSystem");
    reveal_strlit("AnimationWheel");
    reveal_strlit("Color");
    reveal_strlit("ColorEffects");
    reveal_strlit("ColorMacro");
    reveal_strlit("Effects");
    reveal_strlit("Frost");
    reveal_strlit("Gobo");
    reveal_strlit("MediaContent");
    reveal_strlit("MediaFolder");
    reveal_strlit("ModelContent");
    reveal_strlit("ModelFolder");
    reveal_strlit("Prism");
    reveal_strlit("Shutter");
    assert(s[7] == dec(n)[0]);
    lemma_fixed_rejects_digit(s, 7);
    lemma_no_prefix_at(s, "Gobo"@, 0);
    lemma_no_prefix_at(s, "Gobo"@, 0);
    lemma_no_prefix_at(s, "Gobo"@, 0);
    lemma_no_prefix_at(s, "Gobo"@, 0);
    lemma_no_prefix_at(s, "Gobo"@, 0);
    lemma_no_prefix_at(s, "Gobo"@, 0);
    lemma_no_prefix_at(s, "Gobo"@, 0);
    lemma_no_prefix_at(s, "Gobo"@, 0);
    lemma_no_prefix_at(s, "Gobo"@, 0);
    lemma_no_prefix_at(s, "Gobo"@, 0);
    lemma_no_prefix_at(s, "Gobo"@, 0);
    lemma_no_prefix_at(s, "Gobo"@, 0);
    lemma_no_prefix_at(s, "AnimationWheel"@, 0);
    lemma_no_prefix_at(s, "AnimationWheel"@, 0);
    lemma_no_prefix_at(s, "AnimationWheel"@, 0);
    lemma_no_prefix_at(s, "AnimationWheel"@, 0);
    lemma_no_prefix_at(s, "AnimationWheel"@, 0);
    lemma_no_prefix_at(s, "AnimationWheel"@, 0);
    lemma_no_prefix_at(s, "AnimationWheel"@, 0);
    lemma_no_prefix_at(s, "AnimationWheel"@, 0);
    lemma_no_prefix_at(s, "AnimationWheel"@, 0);
    lemma_no_prefix_at(s, "AnimationWheel"@, 0);
    lemma_no_prefix_at(s, "AnimationSystem"@, 0);
    lemma_no_prefix_at(s, "AnimationSystem"@, 0);
    lemma_no_prefix_at(s, "AnimationSystem"@, 0);
    lemma_no_prefix_at(s, "AnimationSystem"@, 0);
    lemma_no_prefix_at(s, "AnimationSystem"@, 0);
    lemma_no_prefix_at(s, "AnimationSystem"@, 0);
    lemma_no_prefix_at(s, "AnimationSystem"@, 0);
    lemma_no_prefix_at(s, "AnimationSystem"@, 0);
    lemma_no_prefix_at(s, "AnimationSystem"@, 0);
    lemma_no_prefix_at(s, "AnimationSystem"@, 0);
    lemma_no_prefix_at(s, "AnimationSystem"@, 0);
    lemma_no_prefix_at(s, "MediaFolder"@, 0);
    lemma_no_prefix_at(s, "MediaContent"@, 0);
    lemma_no_prefix_at(s, "ModelFolder"@, 0);
    lemma_no_prefix_at(s, "ModelContent"@, 0);
    lemma_no_prefix_at(s, "ColorEffects"@, 0);
    lemma_no_prefix_at(s, "Color"@, 0);
    lemma_no_prefix_at(s, "Color"@, 0);
    lemma_no_prefix_at(s, "Color"@, 0);
    lemma_no_prefix_at(s, "Color"@, 0);
    lemma_no_prefix_at(s, "Color"@, 0);
    lemma_no_prefix_at(s, "ColorMacro"@, 0);
    lemma_no_prefix_at(s, "ColorMacro"@, 0);
    lemma_no_prefix_at(s, "Shutter"@, 0);
    lemma_no_prefix_at(s, "Shutter"@, 0);
    lemma_no_prefix_at(s, "Shutter"@, 0);
    lemma_no_prefix_at(s, "Shutter"@, 0);
    lemma_no_prefix_at(s, "Shutter"@, 0);
    lemma_no_prefix_at(s, "Shutter"@, 0);
    lemma_no_prefix_at(s, "Shutter"@, 0);
    lemma_no_prefix_at(s, "Shutter"@, 0);
    lemma_no_prefix_at(s, "Shutter"@, 0);
    lemma_no_prefix_at(s, "Shutter"@, 0);
    lemma_no_prefix_at(s, "Frost"@, 0);
    lemma_no_prefix_at(s, "Frost"@, 0);
    lemma_no_prefix_at(s, "Frost"@, 0);
    lemma_no_prefix_at(s, "Frost"@, 0);
    lemma_no_prefix_at(s, "Prism"@, 0);
    lemma_no_prefix_at(s, "Prism"@, 0);
    lemma_no_prefix_at(s, "Prism"@, 0);
    lemma_no_prefix_at(s, "Prism"@, 0);
    lemma_no_prefix_at(s, "Prism"@, 0);
    lemma_extract_n_m_of("Effects"@, n, "Adjust"@, m);
}

/// The name of `EffectsPos` is read back as `EffectsPos`.
proof fn lemma_numbered_name_effects_pos(n: u8)
    ensures
        AttributeView::parse(AttributeView::EffectsPos(n).name()) == AttributeView::EffectsPos(n),
{
    let s = AttributeView::EffectsPos(n).name();
    lemma_dec(n);
    reveal_strlit("Adjust");
    reveal_strlit("AnimationSystem");
    reveal_strlit("AnimationWheel");
    reveal_strlit("Color");
    reveal_strlit("ColorEffects");
    reveal_strlit("ColorMacro");
    reveal_strlit("Effects");
    reveal_strlit("Fade");
    reveal_strlit("Frost");
    reveal_strlit("Gobo");
    reveal_strlit("MediaContent");
    reveal_strlit("MediaFolder");
    reveal_strlit("ModelContent");
    reveal_strlit("ModelFolder");
    reveal_strlit("Pos");
    reveal_strlit("Prism");
    reveal_strlit("Rate");
    reveal_strlit("Shutter");
    assert(s[7] == dec(n)[0]);
    lemma_fixed_rejects_digit(s, 7);
    lemma_no_prefix_at(s, "Gobo"@, 0);
    lemma_no_prefix_at(s, "Gobo"@, 0);
    lemma_no_prefix_at(s, "Gobo"@, 0);
    lemma_no_prefix_at(s, "Gobo"@, 0);
    lemma_no_prefix_at(s, "Gobo"@, 0);
    lemma_no_prefix_at(s, "Gobo"@, 0);
    lemma_no_prefix_at(s, "Gobo"@, 0);
    lemma_no_prefix_at(s, "Gobo"@, 0);
    lemma_no_prefix_at(s, "Gobo"@, 0);
    lemma_no_prefix_at(s, "Gobo"@, 0);
    lemma_no_prefix_at(s, "Gobo"@, 0);
    lemma_no_prefix_at(s, "Gobo"@, 0);
    lemma_no_prefix_at(s, "AnimationWheel"@, 0);
    lemma_no_prefix_at(s, "AnimationWheel"@, 0);
    lemma_no_prefix_at(s, "AnimationWheel"@, 0);
    lemma_no_prefix_at(s, "AnimationWheel"@, 0);
    lemma_no_prefix_at(s, "AnimationWheel"@, 0);
    lemma_no_prefix_at(s, "AnimationWheel"@, 0);
    lemma_no_prefix_at(s, "AnimationWheel"@, 0);
    lemma_no_prefix_at(s, "AnimationWheel"@, 0);
    lemma_no_prefix_at(s, "AnimationWheel"@, 0);
    lemma_no_prefix_at(s, "AnimationWheel"@, 0);
    lemma_no_prefix_at(s, "AnimationSystem"@, 0);
    lemma_no_prefix_at(s, "AnimationSystem"@, 0);
    lemma_no_prefix_at(s, "AnimationSystem"@, 0);
    lemma_no_prefix_at(s, "AnimationSystem"@, 0);
    lemma_no_prefix_at(s, "AnimationSystem"@, 0);
    lemma_no_prefix_at(s, "AnimationSystem"@, 0);
    lemma_no_prefix_at(s, "AnimationSystem"@, 0);
    lemma_no_prefix_at(s, "AnimationSystem"@, 0);
    lemma_no_prefix_at(s, "AnimationSystem"@, 0);
    lemma_no_prefix_at(s, "AnimationSystem"@, 0);
    lemma_no_prefix_at(s, "AnimationSystem"@, 0);
    lemma_no_prefix_at(s, "MediaFolder"@, 0);
    lemma_no_prefix_at(s, "MediaContent"@, 0);
    lemma_no_prefix_at(s, "ModelFolder"@, 0);
    lemma_no_prefix_at(s, "ModelContent"@, 0);
    lemma_no_prefix_at(s, "ColorEffects"@, 0);
    lemma_no_prefix_at(s, "Color"@, 0);
    lemma_no_prefix_at(s, "Color"@, 0);
    lemma_no_prefix_at(s, "Color"@, 0);
    lemma_no_prefix_at(s, "Color"@, 0);
    lemma_no_prefix_at(s, "Color"@, 0);
    lemma_no_prefix_at(s, "ColorMacro"@, 0);
    lemma_no_prefix_at(s, "ColorMacro"@, 0);
    lemma_no_prefix_at(s, "Shutter"@, 0);
    lemma_no_prefix_at(s, "Shutter"@, 0);
    lemma_no_prefix_at(s, "Shutter"@, 0);
    lemma_no_prefix_at(s, "Shutter"@, 0);
    lemma_no_prefix_at(s, "Shutter"@, 0);
    lemma_no_prefix_at(s, "Shutter"@, 0);
    lemma_no_prefix_at(s, "Shutter"@, 0);
    lemma_no_prefix_at(s, "Shutter"@, 0);
    lemma_no_prefix_at(s, "Shutter"@, 0);
    lemma_no_prefix_at(s, "Shutter"@, 0);
    lemma_no_prefix_at(s, "Frost"@, 0);
    lemma_no_prefix_at(s, "Frost"@, 0);
    lemma_no_prefix_at(s, "Frost"@, 0);
    lemma_no_prefix_at(s, "Frost"@, 0);
    lemma_no_prefix_at(s, "Prism"@, 0);
    lemma_no_prefix_at(s, "Prism"@, 0);
    lemma_no_prefix_at(s, "Prism"@, 0);
    lemma_no_prefix_at(s, "Prism"@, 0);
    lemma_no_prefix_at(s, "Prism"@, 0);
    lemma_extract_n_m_absent("Effects"@, n, "Pos"@, "Adjust"@);
    lemma_extract_n_then_letter("Effects"@, n, "Pos"@);
    lemma_no_suffix_at(s, "Effects"@, "Rate"@, 0);
    lemma_no_suffix_at(s, "Effects"@, "Fade"@, 0);
    lemma_extract_n_suffix_of("Effects"@, n, "Pos"@);
}

/// The name of `EffectsPosRotate` is read back as `EffectsPosRotate`.
proof fn lemma_numbered_name_effects_pos_rotate(n: u8)
    ensures
        AttributeView::parse(AttributeView::EffectsPosRotate(n).name()) == AttributeView::EffectsPosRotate(n),
{
    let s = AttributeView::EffectsPosRotate(n).name();
    lemma_dec(n);
    reveal_strlit("Adjust");
    reveal_strlit("AnimationSystem");
    reveal_strlit("AnimationWheel");
    reveal_strlit("Color");
    reveal_strlit("ColorEffects");
    reveal_strlit("ColorMacro");
    reveal_strlit("Effects");
    reveal_strlit("Fade");
    reveal_strlit("Frost");
    reveal_strlit("Gobo");
    reveal_strlit("MediaContent");
    reveal_strlit("MediaFolder");
    reveal_strlit("ModelContent");
    reveal_strlit("ModelFolder");
    reveal_strlit("Pos");
    reveal_strlit("PosRotate");
    reveal_strlit("Prism");
    reveal_strlit("Rate");
    reveal_strlit("Shutter");
    assert(s[7] == dec(n)[0]);
    lemma_fixed_rejects_digit(s, 7);
    lemma_no_prefix_at(s, "Gobo"@, 0);
    lemma_no_prefix_at(s, "Gobo"@, 0);
    lemma_no_prefix_at(s, "Gobo"@, 0);
    lemma_no_prefix_at(s, "Gobo"@, 0);
    lemma_no_prefix_at(s, "Gobo"@, 0);
    lemma_no_prefix_at(s, "Gobo"@, 0);
    lemma_no_prefix_at(s, "Gobo"@, 0);
    lemma_no_prefix_at(s, "Gobo"@, 0);
    lemma_no_prefix_at(s, "Gobo"@, 0);
    lemma_no_prefix_at(s, "Gobo"@, 0);
    lemma_no_prefix_at(s, "Gobo"@, 0);
    lemma_no_prefix_at(s, "Gobo"@, 0);
    lemma_no_prefix_at(s, "AnimationWheel"@, 0);
    lemma_no_prefix_at(s, "AnimationWheel"@, 0);
    lemma_no_prefix_at(s, "AnimationWheel"@, 0);
    lemma_no_prefix_at(s, "AnimationWheel"@, 0);
    lemma_no_prefix_at(s, "AnimationWheel"@, 0);
    lemma_no_prefix_at(s, "AnimationWheel"@, 0);
    lemma_no_prefix_at(s, "AnimationWheel"@, 0);
    lemma_no_prefix_at(s, "AnimationWheel"@, 0);
    lemma_no_prefix_at(s, "AnimationWheel"@, 0);
    lemma_no_prefix_at(s, "AnimationWheel"@, 0);
    lemma_no_prefix_at(s, "AnimationSystem"@, 0);
    lemma_no_prefix_at(s, "AnimationSystem"@, 0);
    lemma_no_prefix_at(s, "AnimationSystem"@, 0);
    lemma_no_prefix_at(s, "AnimationSystem"@, 0);
    lemma_no_prefix_at(s, "AnimationSystem"@, 0);
    lemma_no_prefix_at(s, "AnimationSystem"@, 0);
    lemma_no_prefix_at(s, "AnimationSystem"@, 0);
    lemma_no_prefix_at(s, "AnimationSystem"@, 0);
    lemma_no_prefix_at(s, "AnimationSystem"@, 0);
    lemma_no_prefix_at(s, "AnimationSystem"@, 0);
    lemma_no_prefix_at(s, "AnimationSystem"@, 0);
    lemma_no_prefix_at(s, "MediaFolder"@, 0);
    lemma_no_prefix_at(s, "MediaContent"@, 0);
    lemma_no_prefix_at(s, "ModelFolder"@, 0);
    lemma_no_prefix_at(s, "ModelContent"@, 0);
    lemma_no_prefix_at(s, "ColorEffects"@, 0);
    lemma_no_prefix_at(s, "Color"@, 0);
    lemma_no_prefix_at(s, "Color"@, 0);
    lemma_no_prefix_at(s, "Color"@, 0);
    lemma_no_prefix_at(s, "Color"@, 0);
    lemma_no_prefix_at(s, "Color"@, 0);
    lemma_no_prefix_at(s, "ColorMacro"@, 0);
    lemma_no_prefix_at(s, "ColorMacro"@, 0);
    lemma_no_prefix_at(s, "Shutter"@, 0);
    lemma_no_prefix_at(s, "Shutter"@, 0);
    lemma_no_prefix_at(s, "Shutter"@, 0);
    lemma_no_prefix_at(s, "Shutter"@, 0);
    lemma_no_prefix_at(s, "Shutter"@, 0);
    lemma_no_prefix_at(s, "Shutter"@, 0);
    lemma_no_prefix_at(s, "Shutter"@, 0);
    lemma_no_prefix_at(s, "Shutter"@, 0);
    lemma_no_prefix_at(s, "Shutter"@, 0);
    lemma_no_prefix_at(s, "Shutter"@, 0);
    lemma_no_prefix_at(s, "Frost"@, 0);
    lemma_no_prefix_at(s, "Frost"@, 0);
    lemma_no_prefix_at(s, "Frost"@, 0);
    lemma_no_prefix_at(s, "Frost"@, 0);
    lemma_no_prefix_at(s, "Prism"@, 0);
    lemma_no_prefix_at(s, "Prism"@, 0);
    lemma_no_prefix_at(s, "Prism"@, 0);
    lemma_no_prefix_at(s, "Prism"@, 0);
    lemma_no_prefix_at(s, "Prism"@, 0);
    lemma_extract_n_m_absent("Effects"@, n, "PosRotate"@, "Adjust"@);
    lemma_extract_n_then_letter("Effects"@, n, "PosRotate"@);
    lemma_no_suffix_at(s, "Effects"@, "Rate"@, 0);
    lemma_no_suffix_at(s, "Effects"@, "Fade"@, 0);
    lemma_no_suffix_at(s, "Effects"@, "Pos"@, 0);
    lemma_extract_n_suffix_of("Effects"@, n, "PosRotate"@);
}

/// The name of `Focus` is read back as `Focus`.
proof fn lemma_numbered_name_focus(n: u8)
    ensures
        AttributeView::parse(AttributeView::Focus(n).name()) == AttributeView::Focus(n),
{
    let s = AttributeView::Focus(n).name();
    lemma_dec(n);
    reveal_strlit("AnimationSystem");
    reveal_strlit("AnimationWheel");
    reveal_strlit("Color");
    reveal_strlit("ColorEffects");
    reveal_strlit("ColorMacro");
    reveal_strlit("Effects");
    reveal_strlit("Focus");
    reveal_strlit("Frost");
    reveal_strlit("Gobo");
    reveal_strlit("MediaContent");
    reveal_strlit("MediaFolder");
    reveal_strlit("ModelContent");
    reveal_strlit("ModelFolder");
    reveal_strlit("Prism");
    reveal_strlit("Shutter");
    assert(s[5] == dec(n)[0]);
    lemma_fixed_rejects_digit(s, 5);
    lemma_no_prefix_at(s, "Gobo"@, 0);
    lemma_no_prefix_at(s, "Gobo"@, 0);
    lemma_no_prefix_at(s, "Gobo"@, 0);
    lemma_no_prefix_at(s, "Gobo"@, 0);
    lemma_no_prefix_at(s, "Gobo"@, 0);
    lemma_no_prefix_at(s, "Gobo"@, 0);
    lemma_no_prefix_at(s, "Gobo"@, 0);
    lemma_no_prefix_at(s, "Gobo"@, 0);
    lemma_no_prefix_at(s, "Gobo"@, 0);
    lemma_no_prefix_at(s, "Gobo"@, 0);
    lemma_no_prefix_at(s, "Gobo"@, 0);
    lemma_no_prefix_at(s, "Gobo"@, 0);
    lemma_no_prefix_at(s, "AnimationWheel"@, 0);
    lemma_no_prefix_at(s, "AnimationWheel"@, 0);
    lemma_no_prefix_at(s, "AnimationWheel"@, 0);
    lemma_no_prefix_at(s, "AnimationWheel"@, 0);
    lemma_no_prefix_at(s, "AnimationWheel"@, 0);
    lemma_no_prefix_at(s, "AnimationWheel"@, 0);
    lemma_no_prefix_at(s, "AnimationWheel"@, 0);
    lemma_no_prefix_at(s, "AnimationWheel"@, 0);
    lemma_no_prefix_at(s, "AnimationWheel"@, 0);
    lemma_no_prefix_at(s, "AnimationWheel"@, 0);
    lemma_no_prefix_at(s, "AnimationSystem"@, 0);
    lemma_no_prefix_at(s, "AnimationSystem"@, 0);
    lemma_no_prefix_at(s, "AnimationSystem"@, 0);
    lemma_no_prefix_at(s, "AnimationSystem"@, 0);
    lemma_no_prefix_at(s, "AnimationSystem"@, 0);
    lemma_no_prefix_at(s, "AnimationSystem"@, 0);
    lemma_no_prefix_at(s, "AnimationSystem"@, 0);
    lemma_no_prefix_at(s, "AnimationSystem"@, 0);
    lemma_no_prefix_at(s, "AnimationSystem"@, 0);
    lemma_no_prefix_at(s, "AnimationSystem"@, 0);
    lemma_no_prefix_at(s, "AnimationSystem"@, 0);
    lemma_no_prefix_at(s, "MediaFolder"@, 0);
    lemma_no_prefix_at(s, "MediaContent"@, 0);
    lemma_no_prefix_at(s, "ModelFolder"@, 0);
    lemma_no_prefix_at(s, "ModelContent"@, 0);
    lemma_no_prefix_at(s, "ColorEffects"@, 0);
    lemma_no_prefix_at(s, "Color"@, 0);
    lemma_no_prefix_at(s, "Color"@, 0);
    lemma_no_prefix_at(s, "Color"@, 0);
    lemma_no_prefix_at(s, "Color"@, 0);
    lemma_no_prefix_at(s, "Color"@, 0);
    lemma_no_prefix_at(s, "ColorMacro"@, 0);
    lemma_no_prefix_at(s, "ColorMacro"@, 0);
    lemma_no_prefix_at(s, "Shutter"@, 0);
    lemma_no_prefix_at(s, "Shutter"@, 0);
    lemma_no_prefix_at(s, "Shutter"@, 0);
    lemma_no_prefix_at(s, "Shutter"@, 0);
    lemma_no_prefix_at(s, "Shutter"@, 0);
    lemma_no_prefix_at(s, "Shutter"@, 0);
    lemma_no_prefix_at(s, "Shutter"@, 0);
    lemma_no_prefix_at(s, "Shutter"@, 0);
    lemma_no_prefix_at(s, "Shutter"@, 0);
    lemma_no_prefix_at(s, "Shutter"@, 0);
    lemma_no_prefix_at(s, "Frost"@, 1);
    lemma_no_prefix_at(s, "Frost"@, 1);
    lemma_no_prefix_at(s, "Frost"@, 1);
    lemma_no_prefix_at(s, "Frost"@, 1);
    lemma_no_prefix_at(s, "Prism"@, 0);
    lemma_no_prefix_at(s, "Prism"@, 0);
    lemma_no_prefix_at(s, "Prism"@, 0);
    lemma_no_prefix_at(s, "Prism"@, 0);
    lemma_no_prefix_at(s, "Prism"@, 0);
    lemma_no_prefix_at(s, "Effects"@, 0);
    lemma_no_prefix_at(s, "Effects"@, 0);
    lemma_no_prefix_at(s, "Effects"@, 0);
    lemma_no_prefix_at(s, "Effects"@, 0);
    lemma_no_prefix_at(s, "Effects"@, 0);
    lemma_no_prefix_at(s, "Effects"@, 0);
    lemma_extract_n_of("Focus"@, n);
}

/// The name of `FocusAdjust` is read back as `FocusAdjust`.
proof fn lemma_numbered_name_focus_adjust(n: u8)
    ensures
        AttributeView::parse(AttributeView::FocusAdjust(n).name()) == AttributeView::FocusAdjust(n),
{
    let s = AttributeView::FocusAdjust(n).name();
    lemma_dec(n);
    reveal_strlit("Adjust");
    reveal_strlit("AnimationSystem");
    reveal_strlit("AnimationWheel");
    reveal_strlit("Color");
    reveal_strlit("ColorEffects");
    reveal_strlit("ColorMacro");
    reveal_strlit("Effects");
    reveal_strlit("Focus");
    reveal_strlit("Frost");
    reveal_strlit("Gobo");
    reveal_strlit("MediaContent");
    reveal_strlit("MediaFolder");
    reveal_strlit("ModelContent");
    reveal_strlit("ModelFolder");
    reveal_strlit("Prism");
    reveal_strlit("Shutter");
    assert(s[5] == dec(n)[0]);
    lemma_fixed_rejects_digit(s, 5);
    lemma_no_prefix_at(s, "Gobo"@, 0);
    lemma_no_prefix_at(s, "Gobo"@, 0);
    lemma_no_prefix_at(s, "Gobo"@, 0);
    lemma_no_prefix_at(s, "Gobo"@, 0);
    lemma_no_prefix_at(s, "Gobo"@, 0);
    lemma_no_prefix_at(s, "Gobo"@, 0);
    lemma_no_prefix_at(s, "Gobo"@, 0);
    lemma_no_prefix_at(s, "Gobo"@, 0);
    lemma_no_prefix_at(s, "Gobo"@, 0);
    lemma_no_prefix_at(s, "Gobo"@, 0);
    lemma_no_prefix_at(s, "Gobo"@, 0);
    lemma_no_prefix_at(s, "Gobo"@, 0);
    lemma_no_prefix_at(s, "AnimationWheel"@, 0);
    lemma_no_prefix_at(s, "AnimationWheel"@, 0);
    lemma_no_prefix_at(s, "AnimationWheel"@, 0);
    lemma_no_prefix_at(s, "AnimationWheel"@, 0);
    lemma_no_prefix_at(s, "AnimationWheel"@, 0);
    lemma_no_prefix_at(s, "AnimationWheel"@, 0);
    lemma_no_prefix_at(s, "AnimationWheel"@, 0);
    lemma_no_prefix_at(s, "AnimationWheel"@, 0);
    lemma_no_prefix_at(s, "AnimationWheel"@, 0);
    lemma_no_prefix_at(s, "AnimationWheel"@, 0);
    lemma_no_prefix_at(s, "AnimationSystem"@, 0);
    lemma_no_prefix_at(s, "AnimationSystem"@, 0);
    lemma_no_prefix_at(s, "AnimationSystem"@, 0);
    lemma_no_prefix_at(s, "AnimationSystem"@, 0);
    lemma_no_prefix_at(s, "AnimationSystem"@, 0);
    lemma_no_prefix_at(s, "AnimationSystem"@, 0);
    lemma_no_prefix_at(s, "AnimationSystem"@, 0);
    lemma_no_prefix_at(s, "AnimationSystem"@, 0);
    lemma_no_prefix_at(s, "AnimationSystem"@, 0);
    lemma_no_prefix_at(s, "AnimationSystem"@, 0);
    lemma_no_prefix_at(s, "AnimationSystem"@, 0);
    lemma_no_prefix_at(s, "MediaFolder"@, 0);
    lemma_no_prefix_at(s, "MediaContent"@, 0);
    lemma_no_prefix_at(s, "ModelFolder"@, 0);
    lemma_no_prefix_at(s, "ModelContent"@, 0);
    lemma_no_prefix_at(s, "ColorEffects"@, 0);
    lemma_no_prefix_at(s, "Color"@, 0);
    lemma_no_prefix_at(s, "Color"@, 0);
    lemma_no_prefix_at(s, "Color"@, 0);
    lemma_no_prefix_at(s, "Color"@, 0);
    lemma_no_prefix_at(s, "Color"@, 0);
    lemma_no_prefix_at(s, "ColorMacro"@, 0);
    lemma_no_prefix_at(s, "ColorMacro"@, 0);
    lemma_no_prefix_at(s, "Shutter"@, 0);
    lemma_no_prefix_at(s, "Shutter"@, 0);
    lemma_no_prefix_at(s, "Shutter"@, 0);
    lemma_no_prefix_at(s, "Shutter"@, 0);
    lemma_no_prefix_at(s, "Shutter"@, 0);
    lemma_no_prefix_at(s, "Shutter"@, 0);
    lemma_no_prefix_at(s, "Shutter"@, 0);
    lemma_no_prefix_at(s, "Shutter"@, 0);
    lemma_no_prefix_at(s, "Shutter"@, 0);
    lemma_no_prefix_at(s, "Shutter"@, 0);
    lemma_no_prefix_at(s, "Frost"@, 1);
    lemma_no_prefix_at(s, "Frost"@, 1);
    lemma_no_prefix_at(s, "Frost"@, 1);
    lemma_no_prefix_at(s, "Frost"@, 1);
    lemma_no_prefix_at(s, "Prism"@, 0);
    lemma_no_prefix_at(s, "Prism"@, 0);
    lemma_no_prefix_at(s, "Prism"@, 0);
    lemma_no_prefix_at(s, "Prism"@, 0);
    lemma_no_prefix_at(s, "Prism"@, 0);
    lemma_no_prefix_at(s, "Effects"@, 0);
    lemma_no_prefix_at(s, "Effects"@, 0);
    lemma_no_prefix_at(s, "Effects"@, 0);
    lemma_no_prefix_at(s, "Effects"@, 0);
    lemma_no_prefix_at(s, "Effects"@, 0);
    lemma_no_prefix_at(s, "Effects"@, 0);
    lemma_extract_n_then_letter("Focus"@, n, "Adjust"@);
    lemma_extract_n_suffix_of("Focus"@, n, "Adjust"@);
}

/// The name of `FocusDistance` is read back as `FocusDistance`.
proof fn lemma_numbered_name_focus_distance(n: u8)
    ensures
        AttributeView::parse(AttributeView::FocusDistance(n).name()) == AttributeView::FocusDistance(n),
{
    let s = AttributeView::FocusDistance(n).name();
    lemma_dec(n);
    reveal_strlit("Adjust");
    reveal_strlit("AnimationSystem");
    reveal_strlit("AnimationWheel");
    reveal_strlit("Color");
    reveal_strlit("ColorEffects");
    reveal_strlit("ColorMacro");
    reveal_strlit("Distance");
    reveal_strlit("Effects");
    reveal_strlit("Focus");
    reveal_strlit("Frost");
    reveal_strlit("Gobo");
    reveal_strlit("MediaContent");
    reveal_strlit("MediaFolder");
    reveal_strlit("ModelContent");
    reveal_strlit("ModelFolder");
    reveal_strlit("Prism");
    reveal_strlit("Shutter");
    assert(s[5] == dec(n)[0]);
    lemma_fixed_rejects_digit(s, 5);
    lemma_no_prefix_at(s, "Gobo"@, 0);
    lemma_no_prefix_at(s, "Gobo"@, 0);
    lemma_no_prefix_at(s, "Gobo"@, 0);
    lemma_no_prefix_at(s, "Gobo"@, 0);
    lemma_no_prefix_at(s, "Gobo"@, 0);
    lemma_no_prefix_at(s, "Gobo"@, 0);
    lemma_no_prefix_at(s, "Gobo"@, 0);
    lemma_no_prefix_at(s, "Gobo"@, 0);
    lemma_no_prefix_at(s, "Gobo"@, 0);
    lemma_no_prefix_at(s, "Gobo"@, 0);
    lemma_no_prefix_at(s, "Gobo"@, 0);
    lemma_no_prefix_at(s, "Gobo"@, 0);
    lemma_no_prefix_at(s, "AnimationWheel"@, 0);
    lemma_no_prefix_at(s, "AnimationWheel"@, 0);
    lemma_no_prefix_at(s, "AnimationWheel"@, 0);
    lemma_no_prefix_at(s, "AnimationWheel"@, 0);
    lemma_no_prefix_at(s, "AnimationWheel"@, 0);
    lemma_no_prefix_at(s, "AnimationWheel"@, 0);
    lemma_no_prefix_at(s, "AnimationWheel"@, 0);
    lemma_no_prefix_at(s, "AnimationWheel"@, 0);
    lemma_no_prefix_at(s, "AnimationWheel"@, 0);
    lemma_no_prefix_at(s, "AnimationWheel"@, 0);
    lemma_no_prefix_at(s, "AnimationSystem"@, 0);
    lemma_no_prefix_at(s, "AnimationSystem"@, 0);
    lemma_no_prefix_at(s, "AnimationSystem"@, 0);
    lemma_no_prefix_at(s, "AnimationSystem"@, 0);
    lemma_no_prefix_at(s, "AnimationSystem"@, 0);
    lemma_no_prefix_at(s, "AnimationSystem"@, 0);
    lemma_no_prefix_at(s, "AnimationSystem"@, 0);
    lemma_no_prefix_at(s, "AnimationSystem"@, 0);
    lemma_no_prefix_at(s, "AnimationSystem"@, 0);
    lemma_no_prefix_at(s, "AnimationSystem"@, 0);
    lemma_no_prefix_at(s, "AnimationSystem"@, 0);
    lemma_no_prefix_at(s, "MediaFolder"@, 0);
    lemma_no_prefix_at(s, "MediaContent"@, 0);
    lemma_no_prefix_at(s, "ModelFolder"@, 0);
    lemma_no_prefix_at(s, "ModelContent"@, 0);
    lemma_no_prefix_at(s, "ColorEffects"@, 0);
    lemma_no_prefix_at(s, "Color"@, 0);
    lemma_no_prefix_at(s, "Color"@, 0);
    lemma_no_prefix_at(s, "Color"@, 0);
    lemma_no_prefix_at(s, "Color"@, 0);
    lemma_no_prefix_at(s, "Color"@, 0);
    lemma_no_prefix_at(s, "ColorMacro"@, 0);
    lemma_no_prefix_at(s, "ColorMacro"@, 0);
    lemma_no_prefix_at(s, "Shutter"@, 0);
    lemma_no_prefix_at(s, "Shutter"@, 0);
    lemma_no_prefix_at(s, "Shutter"@, 0);
    lemma_no_prefix_at(s, "Shutter"@, 0);
    lemma_no_prefix_at(s, "Shutter"@, 0);
    lemma_no_prefix_at(s, "Shutter"@, 0);
    lemma_no_prefix_at(s, "Shutter"@, 0);
    lemma_no_prefix_at(s, "Shutter"@, 0);
    lemma_no_prefix_at(s, "Shutter"@, 0);
    lemma_no_prefix_at(s, "Shutter"@, 0);
    lemma_no_prefix_at(s, "Frost"@, 1);
    lemma_no_prefix_at(s, "Frost"@, 1);
    lemma_no_prefix_at(s, "Frost"@, 1);
    lemma_no_prefix_at(s, "Frost"@, 1);
    lemma_no_prefix_at(s, "Prism"@, 0);
    lemma_no_prefix_at(s, "Prism"@, 0);
    lemma_no_prefix_at(s, "Prism"@, 0);
    lemma_no_prefix_at(s, "Prism"@, 0);
    lemma_no_prefix_at(s, "Prism"@, 0);
    lemma_no_prefix_at(s, "Effects"@, 0);
    lemma_no_prefix_at(s, "Effects"@, 0);
    lemma_no_prefix_at(s, "Effects"@, 0);
    lemma_no_prefix_at(s, "Effects"@, 0);
    lemma_no_prefix_at(s, "Effects"@, 0);
    lemma_no_prefix_at(s, "Effects"@, 0);
    lemma_extract_n_then_letter("Focus"@, n, "Distance"@);
    lemma_no_suffix_at(s, "Focus"@, "Adjust"@, 0);
    lemma_extract_n_suffix_of("Focus"@, n, "Distance"@);
}

/// The name of `Control` is read back as `Control`.
proof fn lemma_numbered_name_control(n: u8)
    ensures
        AttributeView::parse(AttributeView::Control(n).name()) == AttributeView::Control(n),
{
    let s = AttributeView::Control(n).name();
    lemma_dec(n);
    reveal_strlit("AnimationSystem");
    reveal_strlit("AnimationWheel");
    reveal_strlit("Color");
    reveal_strlit("ColorEffects");
    reveal_strlit("ColorMacro");
    reveal_strlit("Control");
    reveal_strlit("Effects");
    reveal_strlit("Focus");
    reveal_strlit("Frost");
    reveal_strlit("Gobo");
    reveal_strlit("MediaContent");
    reveal_strlit("MediaFolder");
    reveal_strlit("ModelContent");
    reveal_strlit("ModelFolder");
    reveal_strlit("Prism");
    reveal_strlit("Shutter");
    assert(s[7] == dec(n)[0]);
    lemma_fixed_rejects_digit(s, 7);
    lemma_no_prefix_at(s, "Gobo"@, 0);
    lemma_no_prefix_at(s, "Gobo"@, 0);
    lemma_no_prefix_at(s, "Gobo"@, 0);
    lemma_no_prefix_at(s, "Gobo"@, 0);
    lemma_no_prefix_at(s, "Gobo"@, 0);
    lemma_no_prefix_at(s, "Gobo"@, 0);
    lemma_no_prefix_at(s, "Gobo"@, 0);
    lemma_no_prefix_at(s, "Gobo"@, 0);
    lemma_no_prefix_at(s, "Gobo"@, 0);
    lemma_no_prefix_at(s, "Gobo"@, 0);
    lemma_no_prefix_at(s, "Gobo"@, 0);
    lemma_no_prefix_at(s, "Gobo"@, 0);
    lemma_no_prefix_at(s, "AnimationWheel"@, 0);
    lemma_no_prefix_at(s, "AnimationWheel"@, 0);
    lemma_no_prefix_at(s, "AnimationWheel"@, 0);
    lemma_no_prefix_at(s, "AnimationWheel"@, 0);
    lemma_no_prefix_at(s, "AnimationWheel"@, 0);
    lemma_no_prefix_at(s, "AnimationWheel"@, 0);
    lemma_no_prefix_at(s, "AnimationWheel"@, 0);
    lemma_no_prefix_at(s, "AnimationWheel"@, 0);
    lemma_no_prefix_at(s, "AnimationWheel"@, 0);
    lemma_no_prefix_at(s, "AnimationWheel"@, 0);
    lemma_no_prefix_at(s, "AnimationSystem"@, 0);
    lemma_no_prefix_at(s, "AnimationSystem"@, 0);
    lemma_no_prefix_at(s, "AnimationSystem"@, 0);
    lemma_no_prefix_at(s, "AnimationSystem"@, 0);
    lemma_no_prefix_at(s, "AnimationSystem"@, 0);
    lemma_no_prefix_at(s, "AnimationSystem"@, 0);
    lemma_no_prefix_at(s, "AnimationSystem"@, 0);
    lemma_no_prefix_at(s, "AnimationSystem"@, 0);
    lemma_no_prefix_at(s, "AnimationSystem"@, 0);
    lemma_no_prefix_at(s, "AnimationSystem"@, 0);
    lemma_no_prefix_at(s, "AnimationSystem"@, 0);
    lemma_no_prefix_at(s, "MediaFolder"@, 0);
    lemma_no_prefix_at(s, "MediaContent"@, 0);
    lemma_no_prefix_at(s, "ModelFolder"@, 0);
    lemma_no_prefix_at(s, "ModelContent"@, 0);
    lemma_no_prefix_at(s, "ColorEffects"@, 2);
    lemma_no_prefix_at(s, "Color"@, 2);
    lemma_no_prefix_at(s, "Color"@, 2);
    lemma_no_prefix_at(s, "Color"@, 2);
    lemma_no_prefix_at(s, "Color"@, 2);
    lemma_no_prefix_at(s, "Color"@, 2);
    lemma_no_prefix_at(s, "ColorMacro"@, 2);
    lemma_no_prefix_at(s, "ColorMacro"@, 2);
    lemma_no_prefix_at(s, "Shutter"@, 0);
    lemma_no_prefix_at(s, "Shutter"@, 0);
    lemma_no_prefix_at(s, "Shutter"@, 0);
    lemma_no_prefix_at(s, "Shutter"@, 0);
    lemma_no_prefix_at(s, "Shutter"@, 0);
    lemma_no_prefix_at(s, "Shutter"@, 0);
    lemma_no_prefix_at(s, "Shutter"@, 0);
    lemma_no_prefix_at(s, "Shutter"@, 0);
    lemma_no_prefix_at(s, "Shutter"@, 0);
    lemma_no_prefix_at(s, "Shutter"@, 0);
    lemma_no_prefix_at(s, "Frost"@, 0);
    lemma_no_prefix_at(s, "Frost"@, 0);
    lemma_no_prefix_at(s, "Frost"@, 0);
    lemma_no_prefix_at(s, "Frost"@, 0);
    lemma_no_prefix_at(s, "Prism"@, 0);
    lemma_no_prefix_at(s, "Prism"@, 0);
    lemma_no_prefix_at(s, "Prism"@, 0);
    lemma_no_prefix_at(s, "Prism"@, 0);
    lemma_no_prefix_at(s, "Prism"@, 0);
    lemma_no_prefix_at(s, "Effects"@, 0);
    lemma_no_prefix_at(s, "Effects"@, 0);
    lemma_no_prefix_at(s, "Effects"@, 0);
    lemma_no_prefix_at(s, "Effects"@, 0);
    lemma_no_prefix_at(s, "Effects"@, 0);
    lemma_no_prefix_at(s, "Effects"@, 0);
    lemma_no_prefix_at(s, "Focus"@, 0);
    lemma_no_prefix_at(s, "Focus"@, 0);
    lemma_no_prefix_at(s, "Focus"@, 0);
    lemma_extract_n_of("Control"@, n);
}

/// The name of `GoboWheelMode` is read back as `GoboWheelMode`.
proof fn lemma_numbered_name_gobo_wheel_mode(n: u8)
    ensures
        AttributeView::parse(AttributeView::GoboWheelMode(n).name()) == AttributeView::GoboWheelMode(n),
{
    let s = AttributeView::GoboWheelMode(n).name();
    lemma_dec(n);
    reveal_strlit("AnimationSystem");
    reveal_strlit("AnimationWheel");
    reveal_strlit("Color");
    reveal_strlit("ColorEffects");
    reveal_strlit("ColorMacro");
    reveal_strlit("Control");
    reveal_strlit("Effects");
    reveal_strlit("Focus");
    reveal_strlit("Frost");
    reveal_strlit("Gobo");
    reveal_strlit("MediaContent");
    reveal_strlit("MediaFolder");
    reveal_strlit("ModelContent");
    reveal_strlit("ModelFolder");
    reveal_strlit("Pos");
    reveal_strlit("PosRotate");
    reveal_strlit("PosShake");
    reveal_strlit("Prism");
    reveal_strlit("SelectEffects");
    reveal_strlit("SelectShake");
    reveal_strlit("SelectSpin");
    reveal_strlit("Shutter");
    reveal_strlit("WheelAudio");
    reveal_strlit("WheelIndex");
    reveal_strlit("WheelMode");
    reveal_strlit("WheelRandom");
    reveal_strlit("WheelShake");
    reveal_strlit("WheelSpin");
    assert(s[4] == dec(n)[0]);
    lemma_fixed_rejects_digit(s, 4);
    lemma_extract_n_then_letter("Gobo"@, n, "WheelMode"@);
    lemma_no_suffix_at(s, "Gobo"@, "SelectSpin"@, 0);
    lemma_no_suffix_at(s, "Gobo"@, "SelectShake"@, 1);
    lemma_no_suffix_at(s, "Gobo"@, "SelectEffects"@, 3);
    lemma_no_suffix_at(s, "Gobo"@, "WheelIndex"@, 0);
    lemma_no_suffix_at(s, "Gobo"@, "WheelSpin"@, 5);
    lemma_no_suffix_at(s, "Gobo"@, "WheelShake"@, 0);
    lemma_no_suffix_at(s, "Gobo"@, "WheelRandom"@, 1);
    lemma_no_suffix_at(s, "Gobo"@, "WheelAudio"@, 0);
    lemma_no_suffix_at(s, "Gobo"@, "Pos"@, 0);
    lemma_no_suffix_at(s, "Gobo"@, "PosRotate"@, 0);
    lemma_no_suffix_at(s, "Gobo"@, "PosShake"@, 0);
    lemma_no_prefix_at(s, "AnimationWheel"@, 0);
    lemma_no_prefix_at(s, "AnimationWheel"@, 0);
    lemma_no_prefix_at(s, "AnimationWheel"@, 0);
    lemma_no_prefix_at(s, "AnimationWheel"@, 0);
    lemma_no_prefix_at(s, "AnimationWheel"@, 0);
    lemma_no_prefix_at(s, "AnimationWheel"@, 0);
    lemma_no_prefix_at(s, "AnimationWheel"@, 0);
    lemma_no_prefix_at(s, "AnimationWheel"@, 0);
    lemma_no_prefix_at(s, "AnimationWheel"@, 0);
    lemma_no_prefix_at(s, "AnimationWheel"@, 0);
    lemma_no_prefix_at(s, "AnimationSystem"@, 0);
    lemma_no_prefix_at(s, "AnimationSystem"@, 0);
    lemma_no_prefix_at(s, "AnimationSystem"@, 0);
    lemma_no_prefix_at(s, "AnimationSystem"@, 0);
    lemma_no_prefix_at(s, "AnimationSystem"@, 0);
    lemma_no_prefix_at(s, "AnimationSystem"@, 0);
    lemma_no_prefix_at(s, "AnimationSystem"@, 0);
    lemma_no_prefix_at(s, "AnimationSystem"@, 0);
    lemma_no_prefix_at(s, "AnimationSystem"@, 0);
    lemma_no_prefix_at(s, "AnimationSystem"@, 0);
    lemma_no_prefix_at(s, "AnimationSystem"@, 0);
    lemma_no_prefix_at(s, "MediaFolder"@, 0);
    lemma_no_prefix_at(s, "MediaContent"@, 0);
    lemma_no_prefix_at(s, "ModelFolder"@, 0);
    lemma_no_prefix_at(s, "ModelContent"@, 0);
    lemma_no_prefix_at(s, "ColorEffects"@, 0);
    lemma_no_prefix_at(s, "Color"@, 0);
    lemma_no_prefix_at(s, "Color"@, 0);
    lemma_no_prefix_at(s, "Color"@, 0);
    lemma_no_prefix_at(s, "Color"@, 0);
    lemma_no_prefix_at(s, "Color"@, 0);
    lemma_no_prefix_at(s, "ColorMacro"@, 0);
    lemma_no_prefix_at(s, "ColorMacro"@, 0);
    lemma_no_prefix_at(s, "Shutter"@, 0);
    lemma_no_prefix_at(s, "Shutter"@, 0);
    lemma_no_prefix_at(s, "Shutter"@, 0);
    lemma_no_prefix_at(s, "Shutter"@, 0);
    lemma_no_prefix_at(s, "Shutter"@, 0);
    lemma_no_prefix_at(s, "Shutter"@, 0);
    lemma_no_prefix_at(s, "Shutter"@, 0);
    lemma_no_prefix_at(s, "Shutter"@, 0);
    lemma_no_prefix_at(s, "Shutter"@, 0);
    lemma_no_prefix_at(s, "Shutter"@, 0);
    lemma_no_prefix_at(s, "Frost"@, 0);
    lemma_no_prefix_at(s, "Frost"@, 0);
    lemma_no_prefix_at(s, "Frost"@, 0);
    lemma_no_prefix_at(s, "Frost"@, 0);
    lemma_no_prefix_at(s, "Prism"@, 0);
    lemma_no_prefix_at(s, "Prism"@, 0);
    lemma_no_prefix_at(s, "Prism"@, 0);
    lemma_no_prefix_at(s, "Prism"@, 0);
    lemma_no_prefix_at(s, "Prism"@, 0);
    lemma_no_prefix_at(s, "Effects"@, 0);
    lemma_no_prefix_at(s, "Effects"@, 0);
    lemma_no_prefix_at(s, "Effects"@, 0);
    lemma_no_prefix_at(s, "Effects"@, 0);
    lemma_no_prefix_at(s, "Effects"@, 0);
    lemma_no_prefix_at(s, "Effects"@, 0);
    lemma_no_prefix_at(s, "Focus"@, 0);
    lemma_no_prefix_at(s, "Focus"@, 0);
    lemma_no_prefix_at(s, "Focus"@, 0);
    lemma_no_prefix_at(s, "Control"@, 0);
    lemma_extract_n_suffix_of("Gobo"@, n, "WheelMode"@);
}

/// The name of `AnimationWheelMode` is read back as `AnimationWheelMode`.
proof fn lemma_numbered_name_animation_wheel_mode(n: u8)
    ensures
        AttributeView::parse(AttributeView::AnimationWheelMode(n).name()) == AttributeView::AnimationWheelMode(n),
{
    let s = AttributeView::AnimationWheelMode(n).name();
    lemma_dec(n);
    reveal_strlit("AnimationSystem");
    reveal_strlit("AnimationWheel");
    reveal_strlit("Audio");
    reveal_strlit("Color");
    reveal_strlit("ColorEffects");
    reveal_strlit("ColorMacro");
    reveal_strlit("Control");
    reveal_strlit("Effects");
    reveal_strlit("Focus");
    reveal_strlit("Frost");
    reveal_strlit("Gobo");
    reveal_strlit("Macro");
    reveal_strlit("MediaContent");
    reveal_strlit("MediaFolder");
    reveal_strlit("Mode");
    reveal_strlit("ModelContent");
    reveal_strlit("ModelFolder");
    reveal_strlit("Pos");
    reveal_strlit("PosRotate");
    reveal_strlit("PosShake");
    reveal_strlit("Prism");
    reveal_strlit("Random");
    reveal_strlit("SelectEffects");
    reveal_strlit("SelectShake");
    reveal_strlit("SelectSpin");
    reveal_strlit("Shutter");
    assert(s[14] == dec(n)[0]);
    lemma_fixed_rejects_digit(s, 14);
    lemma_no_prefix_at(s, "Gobo"@, 0);
    lemma_no_prefix_at(s, "Gobo"@, 0);
    lemma_no_prefix_at(s, "Gobo"@, 0);
    lemma_no_prefix_at(s, "Gobo"@, 0);
    lemma_no_prefix_at(s, "Gobo"@, 0);
    lemma_no_prefix_at(s, "Gobo"@, 0);
    lemma_no_prefix_at(s, "Gobo"@, 0);
    lemma_no_prefix_at(s, "Gobo"@, 0);
    lemma_no_prefix_at(s, "Gobo"@, 0);
    lemma_no_prefix_at(s, "Gobo"@, 0);
    lemma_no_prefix_at(s, "Gobo"@, 0);
    lemma_no_prefix_at(s, "Gobo"@, 0);
    lemma_extract_n_then_letter("AnimationWheel"@, n, "Mode"@);
    lemma_no_suffix_at(s, "AnimationWheel"@, "Audio"@, 0);
    lemma_no_suffix_at(s, "AnimationWheel"@, "Macro"@, 0);
    lemma_no_suffix_at(s, "AnimationWheel"@, "Random"@, 1);
    lemma_no_suffix_at(s, "AnimationWheel"@, "SelectEffects"@, 8);
    lemma_no_suffix_at(s, "AnimationWheel"@, "SelectShake"@, 6);
    lemma_no_suffix_at(s, "AnimationWheel"@, "SelectSpin"@, 5);
    lemma_no_suffix_at(s, "AnimationWheel"@, "Pos"@, 0);
    lemma_no_suffix_at(s, "AnimationWheel"@, "PosRotate"@, 4);
    lemma_no_suffix_at(s, "AnimationWheel"@, "PosShake"@, 3);
    lemma_no_prefix_at(s, "AnimationSystem"@, 9);
    lemma_no_prefix_at(s, "AnimationSystem"@, 9);
    lemma_no_prefix_at(s, "AnimationSystem"@, 9);
    lemma_no_prefix_at(s, "AnimationSystem"@, 9);
    lemma_no_prefix_at(s, "AnimationSystem"@, 9);
    lemma_no_prefix_at(s, "AnimationSystem"@, 9);
    lemma_no_prefix_at(s, "AnimationSystem"@, 9);
    lemma_no_prefix_at(s, "AnimationSystem"@, 9);
    lemma_no_prefix_at(s, "AnimationSystem"@, 9);
    lemma_no_prefix_at(s, "AnimationSystem"@, 9);
    lemma_no_prefix_at(s, "AnimationSystem"@, 9);
    lemma_no_prefix_at(s, "MediaFolder"@, 0);
    lemma_no_prefix_at(s, "MediaContent"@, 0);
    lemma_no_prefix_at(s, "ModelFolder"@, 0);
    lemma_no_prefix_at(s, "ModelContent"@, 0);
    lemma_no_prefix_at(s, "ColorEffects"@, 0);
    lemma_no_prefix_at(s, "Color"@, 0);
    lemma_no_prefix_at(s, "Color"@, 0);
    lemma_no_prefix_at(s, "Color"@, 0);
    lemma_no_prefix_at(s, "Color"@, 0);
    lemma_no_prefix_at(s, "Color"@, 0);
    lemma_no_prefix_at(s, "ColorMacro"@, 0);
    lemma_no_prefix_at(s, "ColorMacro"@, 0);
    lemma_no_prefix_at(s, "Shutter"@, 0);
    lemma_no_prefix_at(s, "Shutter"@, 0);
    lemma_no_prefix_at(s, "Shutter"@, 0);
    lemma_no_prefix_at(s, "Shutter"@, 0);
    lemma_no_prefix_at(s, "Shutter"@, 0);
    lemma_no_prefix_at(s, "Shutter"@, 0);
    lemma_no_prefix_at(s, "Shutter"@, 0);
    lemma_no_prefix_at(s, "Shutter"@, 0);
    lemma_no_prefix_at(s, "Shutter"@, 0);
    lemma_no_prefix_at(s, "Shutter"@, 0);
    lemma_no_prefix_at(s, "Frost"@, 0);
    lemma_no_prefix_at(s, "Frost"@, 0);
    lemma_no_prefix_at(s, "Frost"@, 0);
    lemma_no_prefix_at(s, "Frost"@, 0);
    lemma_no_prefix_at(s, "Prism"@, 0);
    lemma_no_prefix_at(s, "Prism"@, 0);
    lemma_no_prefix_at(s, "Prism"@, 0);
    lemma_no_prefix_at(s, "Prism"@, 0);
    lemma_no_prefix_at(s, "Prism"@, 0);
    lemma_no_prefix_at(s, "Effects"@, 0);
    lemma_no_prefix_at(s, "Effects"@, 0);
    lemma_no_prefix_at(s, "Effects"@, 0);
    lemma_no_prefix_at(s, "Effects"@, 0);
    lemma_no_prefix_at(s, "Effects"@, 0);
    lemma_no_prefix_at(s, "Effects"@, 0);
    lemma_no_prefix_at(s, "Focus"@, 0);
    lemma_no_prefix_at(s, "Focus"@, 0);
    lemma_no_prefix_at(s, "Focus"@, 0);
    lemma_no_prefix_at(s, "Control"@, 0);
    lemma_no_prefix_at(s, "Gobo"@, 0);
    lemma_extract_n_suffix_of("AnimationWheel"@, n, "Mode"@);
}

/// The name of `ColorMode` is read back as `ColorMode`.
proof fn lemma_numbered_name_color_mode(n: u8)
    ensures
        AttributeView::parse(AttributeView::ColorMode(n).name()) == AttributeView::ColorMode(n),
{
    let s = AttributeView::ColorMode(n).name();
    lemma_dec(n);
    reveal_strlit("AnimationSystem");
    reveal_strlit("AnimationWheel");
    reveal_strlit("Color");
    reveal_strlit("ColorEffects");
    reveal_strlit("ColorMacro");
    reveal_strlit("Control");
    reveal_strlit("Effects");
    reveal_strlit("Focus");
    reveal_strlit("Frost");
    reveal_strlit("Gobo");
    reveal_strlit("MediaContent");
    reveal_strlit("MediaFolder");
    reveal_strlit("Mode");
    reveal_strlit("ModelContent");
    reveal_strlit("ModelFolder");
    reveal_strlit("Prism");
    reveal_strlit("Shutter");
    reveal_strlit("WheelAudio");
    reveal_strlit("WheelIndex");
    reveal_strlit("WheelRandom");
    reveal_strlit("WheelSpin");
    assert(s[5] == dec(n)[0]);
    lemma_fixed_rejects_digit(s, 5);
    lemma_no_prefix_at(s, "Gobo"@, 0);
    lemma_no_prefix_at(s, "Gobo"@, 0);
    lemma_no_prefix_at(s, "Gobo"@, 0);
    lemma_no_prefix_at(s, "Gobo"@, 0);
    lemma_no_prefix_at(s, "Gobo"@, 0);
    lemma_no_prefix_at(s, "Gobo"@, 0);
    lemma_no_prefix_at(s, "Gobo"@, 0);
    lemma_no_prefix_at(s, "Gobo"@, 0);
    lemma_no_prefix_at(s, "Gobo"@, 0);
    lemma_no_prefix_at(s, "Gobo"@, 0);
    lemma_no_prefix_at(s, "Gobo"@, 0);
    lemma_no_prefix_at(s, "Gobo"@, 0);
    lemma_no_prefix_at(s, "AnimationWheel"@, 0);
    lemma_no_prefix_at(s, "AnimationWheel"@, 0);
    lemma_no_prefix_at(s, "AnimationWheel"@, 0);
    lemma_no_prefix_at(s, "AnimationWheel"@, 0);
    lemma_no_prefix_at(s, "AnimationWheel"@, 0);
    lemma_no_prefix_at(s, "AnimationWheel"@, 0);
    lemma_no_prefix_at(s, "AnimationWheel"@, 0);
    lemma_no_prefix_at(s, "AnimationWheel"@, 0);
    lemma_no_prefix_at(s, "AnimationWheel"@, 0);
    lemma_no_prefix_at(s, "AnimationWheel"@, 0);
    lemma_no_prefix_at(s, "AnimationSystem"@, 0);
    lemma_no_prefix_at(s, "AnimationSystem"@, 0);
    lemma_no_prefix_at(s, "AnimationSystem"@, 0);
    lemma_no_prefix_at(s, "AnimationSystem"@, 0);
    lemma_no_prefix_at(s, "AnimationSystem"@, 0);
    lemma_no_prefix_at(s, "AnimationSystem"@, 0);
    lemma_no_prefix_at(s, "AnimationSystem"@, 0);
    lemma_no_prefix_at(s, "AnimationSystem"@, 0);
    lemma_no_prefix_at(s, "AnimationSystem"@, 0);
    lemma_no_prefix_at(s, "AnimationSystem"@, 0);
    lemma_no_prefix_at(s, "AnimationSystem"@, 0);
    lemma_no_prefix_at(s, "MediaFolder"@, 0);
    lemma_no_prefix_at(s, "MediaContent"@, 0);
    lemma_no_prefix_at(s, "ModelFolder"@, 0);
    lemma_no_prefix_at(s, "ModelContent"@, 0);
    lemma_no_prefix_at(s, "ColorEffects"@, 5);
    lemma_extract_n_then_letter("Color"@, n, "Mode"@);
    lemma_no_suffix_at(s, "Color"@, "WheelIndex"@, 5);
    lemma_no_suffix_at(s, "Color"@, "WheelSpin"@, 4);
    lemma_no_suffix_at(s, "Color"@, "WheelRandom"@, 6);
    lemma_no_suffix_at(s, "Color"@, "WheelAudio"@, 5);
    lemma_no_prefix_at(s, "ColorMacro"@, 5);
    lemma_no_prefix_at(s, "ColorMacro"@, 5);
    lemma_no_prefix_at(s, "Shutter"@, 0);
    lemma_no_prefix_at(s, "Shutter"@, 0);
    lemma_no_prefix_at(s, "Shutter"@, 0);
    lemma_no_prefix_at(s, "Shutter"@, 0);
    lemma_no_prefix_at(s, "Shutter"@, 0);
    lemma_no_prefix_at(s, "Shutter"@, 0);
    lemma_no_prefix_at(s, "Shutter"@, 0);
    lemma_no_prefix_at(s, "Shutter"@, 0);
    lemma_no_prefix_at(s, "Shutter"@, 0);
    lemma_no_prefix_at(s, "Shutter"@, 0);
    lemma_no_prefix_at(s, "Frost"@, 0);
    lemma_no_prefix_at(s, "Frost"@, 0);
    lemma_no_prefix_at(s, "Frost"@, 0);
    lemma_no_prefix_at(s, "Frost"@, 0);
    lemma_no_prefix_at(s, "Prism"@, 0);
    lemma_no_prefix_at(s, "Prism"@, 0);
    lemma_no_prefix_at(s, "Prism"@, 0);
    lemma_no_prefix_at(s, "Prism"@, 0);
    lemma_no_prefix_at(s, "Prism"@, 0);
    lemma_no_prefix_at(s, "Effects"@, 0);
    lemma_no_prefix_at(s, "Effects"@, 0);
    lemma_no_prefix_at(s, "Effects"@, 0);
    lemma_no_prefix_at(s, "Effects"@, 0);
    lemma_no_prefix_at(s, "Effects"@, 0);
    lemma_no_prefix_at(s, "Effects"@, 0);
    lemma_no_prefix_at(s, "Focus"@, 0);
    lemma_no_prefix_at(s, "Focus"@, 0);
    lemma_no_prefix_at(s, "Focus"@, 0);
    lemma_no_prefix_at(s, "Control"@, 2);
    lemma_no_prefix_at(s, "Gobo"@, 0);
    lemma_no_prefix_at(s, "AnimationWheel"@, 0);
    lemma_extract_n_suffix_of("Color"@, n, "Mode"@);
}

/// The name of `FanMode` is read back as `FanMode`.
proof fn lemma_numbered_name_fan_mode(n: u8)
    ensures
        AttributeView::parse(AttributeView::FanMode(n).name()) == AttributeView::FanMode(n),
{
    let s = AttributeView::FanMode(n).name();
    lemma_dec(n);
    reveal_strlit("AnimationSystem");
    reveal_strlit("AnimationWheel");
    reveal_strlit("Color");
    reveal_strlit("ColorEffects");
    reveal_strlit("ColorMacro");
    reveal_strlit("Control");
    reveal_strlit("Effects");
    reveal_strlit("Fan");
    reveal_strlit("Focus");
    reveal_strlit("Frost");
    reveal_strlit("Gobo");
    reveal_strlit("MediaContent");
    reveal_strlit("MediaFolder");
    reveal_strlit("Mode");
    reveal_strlit("ModelContent");
    reveal_strlit("ModelFolder");
    reveal_strlit("Prism");
    reveal_strlit("Shutter");
    assert(s[3] == dec(n)[0]);
    lemma_fixed_rejects_digit(s, 3);
    lemma_no_prefix_at(s, "Gobo"@, 0);
    lemma_no_prefix_at(s, "Gobo"@, 0);
    lemma_no_prefix_at(s, "Gobo"@, 0);
    lemma_no_prefix_at(s, "Gobo"@, 0);
    lemma_no_prefix_at(s, "Gobo"@, 0);
    lemma_no_prefix_at(s, "Gobo"@, 0);
    lemma_no_prefix_at(s, "Gobo"@, 0);
    lemma_no_prefix_at(s, "Gobo"@, 0);
    lemma_no_prefix_at(s, "Gobo"@, 0);
    lemma_no_prefix_at(s, "Gobo"@, 0);
    lemma_no_prefix_at(s, "Gobo"@, 0);
    lemma_no_prefix_at(s, "Gobo"@, 0);
    lemma_no_prefix_at(s, "AnimationWheel"@, 0);
    lemma_no_prefix_at(s, "AnimationWheel"@, 0);
    lemma_no_prefix_at(s, "AnimationWheel"@, 0);
    lemma_no_prefix_at(s, "AnimationWheel"@, 0);
    lemma_no_prefix_at(s, "AnimationWheel"@, 0);
    lemma_no_prefix_at(s, "AnimationWheel"@, 0);
    lemma_no_prefix_at(s, "AnimationWheel"@, 0);
    lemma_no_prefix_at(s, "AnimationWheel"@, 0);
    lemma_no_prefix_at(s, "AnimationWheel"@, 0);
    lemma_no_prefix_at(s, "AnimationWheel"@, 0);
    lemma_no_prefix_at(s, "AnimationSystem"@, 0);
    lemma_no_prefix_at(s, "AnimationSystem"@, 0);
    lemma_no_prefix_at(s, "AnimationSystem"@, 0);
    lemma_no_prefix_at(s, "AnimationSystem"@, 0);
    lemma_no_prefix_at(s, "AnimationSystem"@, 0);
    lemma_no_prefix_at(s, "AnimationSystem"@, 0);
    lemma_no_prefix_at(s, "AnimationSystem"@, 0);
    lemma_no_prefix_at(s, "AnimationSystem"@, 0);
    lemma_no_prefix_at(s, "AnimationSystem"@, 0);
    lemma_no_prefix_at(s, "AnimationSystem"@, 0);
    lemma_no_prefix_at(s, "AnimationSystem"@, 0);
    lemma_no_prefix_at(s, "MediaFolder"@, 0);
    lemma_no_prefix_at(s, "MediaContent"@, 0);
    lemma_no_prefix_at(s, "ModelFolder"@, 0);
    lemma_no_prefix_at(s, "ModelContent"@, 0);
    lemma_no_prefix_at(s, "ColorEffects"@, 0);
    lemma_no_prefix_at(s, "Color"@, 0);
    lemma_no_prefix_at(s, "Color"@, 0);
    lemma_no_prefix_at(s, "Color"@, 0);
    lemma_no_prefix_at(s, "Color"@, 0);
    lemma_no_prefix_at(s, "Color"@, 0);
    lemma_no_prefix_at(s, "ColorMacro"@, 0);
    lemma_no_prefix_at(s, "ColorMacro"@, 0);
    lemma_no_prefix_at(s, "Shutter"@, 0);
    lemma_no_prefix_at(s, "Shutter"@, 0);
    lemma_no_prefix_at(s, "Shutter"@, 0);
    lemma_no_prefix_at(s, "Shutter"@, 0);
    lemma_no_prefix_at(s, "Shutter"@, 0);
    lemma_no_prefix_at(s, "Shutter"@, 0);
    lemma_no_prefix_at(s, "Shutter"@, 0);
    lemma_no_prefix_at(s, "Shutter"@, 0);
    lemma_no_prefix_at(s, "Shutter"@, 0);
    lemma_no_prefix_at(s, "Shutter"@, 0);
    lemma_no_prefix_at(s, "Frost"@, 1);
    lemma_no_prefix_at(s, "Frost"@, 1);
    lemma_no_prefix_at(s, "Frost"@, 1);
    lemma_no_prefix_at(s, "Frost"@, 1);
    lemma_no_prefix_at(s, "Prism"@, 0);
    lemma_no_prefix_at(s, "Prism"@, 0);
    lemma_no_prefix_at(s, "Prism"@, 0);
    lemma_no_prefix_at(s, "Prism"@, 0);
    lemma_no_prefix_at(s, "Prism"@, 0);
    lemma_no_prefix_at(s, "Effects"@, 0);
    lemma_no_prefix_at(s, "Effects"@, 0);
    lemma_no_prefix_at(s, "Effects"@, 0);
    lemma_no_prefix_at(s, "Effects"@, 0);
    lemma_no_prefix_at(s, "Effects"@, 0);
    lemma_no_prefix_at(s, "Effects"@, 0);
    lemma_no_prefix_at(s, "Focus"@, 1);
    lemma_no_prefix_at(s, "Focus"@, 1);
    lemma_no_prefix_at(s, "Focus"@, 1);
    lemma_no_prefix_at(s, "Control"@, 0);
    lemma_no_prefix_at(s, "Gobo"@, 0);
    lemma_no_prefix_at(s, "AnimationWheel"@, 0);
    lemma_no_prefix_at(s, "Color"@, 0);
    lemma_extract_n_suffix_of("Fan"@, n, "Mode"@);
}

/// The name of `GoboWheelMSpeed` is read back as `GoboWheelMSpeed`.
proof fn lemma_numbered_name_gobo_wheel_m_speed(n: u8)
    ensures
        AttributeView::parse(AttributeView::GoboWheelMSpeed(n).name()) == AttributeView::GoboWheelMSpeed(n),
{
    let s = AttributeView::GoboWheelMSpeed(n).name();
    lemma_dec(n);
    reveal_strlit("AnimationSystem");
    reveal_strlit("AnimationWheel");
    reveal_strlit("Color");
    reveal_strlit("ColorEffects");
    reveal_strlit("ColorMacro");
    reveal_strlit("Control");
    reveal_strlit("Effects");
    reveal_strlit("Fan");
    reveal_strlit("Focus");
    reveal_strlit("Frost");
    reveal_strlit("Gobo");
    reveal_strlit("GoboWheel");
    reveal_strlit("MSpeed");
    reveal_strlit("MediaContent");
    reveal_strlit("MediaFolder");
    reveal_strlit("ModelContent");
    reveal_strlit("ModelFolder");
    reveal_strlit("Prism");
    reveal_strlit("Shutter");
    assert(s[9] == dec(n)[0]);
    lemma_fixed_rejects_digit(s, 9);
    lemma_letter_after(s, "Gobo"@);
    lemma_letter_after(s, "Gobo"@);
    lemma_letter_after(s, "Gobo"@);
    lemma_letter_after(s, "Gobo"@);
    lemma_letter_after(s, "Gobo"@);
    lemma_letter_after(s, "Gobo"@);
    lemma_letter_after(s, "Gobo"@);
    lemma_letter_after(s, "Gobo"@);
    lemma_letter_after(s, "Gobo"@);
    lemma_letter_after(s, "Gobo"@);
    lemma_letter_after(s, "Gobo"@);
    lemma_letter_after(s, "Gobo"@);
    lemma_no_prefix_at(s, "AnimationWheel"@, 0);
    lemma_no_prefix_at(s, "AnimationWheel"@, 0);
    lemma_no_prefix_at(s, "AnimationWheel"@, 0);
    lemma_no_prefix_at(s, "AnimationWheel"@, 0);
    lemma_no_prefix_at(s, "AnimationWheel"@, 0);
    lemma_no_prefix_at(s, "AnimationWheel"@, 0);
    lemma_no_prefix_at(s, "AnimationWheel"@, 0);
    lemma_no_prefix_at(s, "AnimationWheel"@, 0);
    lemma_no_prefix_at(s, "AnimationWheel"@, 0);
    lemma_no_prefix_at(s, "AnimationWheel"@, 0);
    lemma_no_prefix_at(s, "AnimationSystem"@, 0);
    lemma_no_prefix_at(s, "AnimationSystem"@, 0);
    lemma_no_prefix_at(s, "AnimationSystem"@, 0);
    lemma_no_prefix_at(s, "AnimationSystem"@, 0);
    lemma_no_prefix_at(s, "AnimationSystem"@, 0);
    lemma_no_prefix_at(s, "AnimationSystem"@, 0);
    lemma_no_prefix_at(s, "AnimationSystem"@, 0);
    lemma_no_prefix_at(s, "AnimationSystem"@, 0);
    lemma_no_prefix_at(s, "AnimationSystem"@, 0);
    lemma_no_prefix_at(s, "AnimationSystem"@, 0);
    lemma_no_prefix_at(s, "AnimationSystem"@, 0);
    lemma_no_prefix_at(s, "MediaFolder"@, 0);
    lemma_no_prefix_at(s, "MediaContent"@, 0);
    lemma_no_prefix_at(s, "ModelFolder"@, 0);
    lemma_no_prefix_at(s, "ModelContent"@, 0);
    lemma_no_prefix_at(s, "ColorEffects"@, 0);
    lemma_no_prefix_at(s, "Color"@, 0);
    lemma_no_prefix_at(s, "Color"@, 0);
    lemma_no_prefix_at(s, "Color"@, 0);
    lemma_no_prefix_at(s, "Color"@, 0);
    lemma_no_prefix_at(s, "Color"@, 0);
    lemma_no_prefix_at(s, "ColorMacro"@, 0);
    lemma_no_prefix_at(s, "ColorMacro"@, 0);
    lemma_no_prefix_at(s, "Shutter"@, 0);
    lemma_no_prefix_at(s, "Shutter"@, 0);
    lemma_no_prefix_at(s, "Shutter"@, 0);
    lemma_no_prefix_at(s, "Shutter"@, 0);
    lemma_no_prefix_at(s, "Shutter"@, 0);
    lemma_no_prefix_at(s, "Shutter"@, 0);
    lemma_no_prefix_at(s, "Shutter"@, 0);
    lemma_no_prefix_at(s, "Shutter"@, 0);
    lemma_no_prefix_at(s, "Shutter"@, 0);
    lemma_no_prefix_at(s, "Shutter"@, 0);
    lemma_no_prefix_at(s, "Frost"@, 0);
    lemma_no_prefix_at(s, "Frost"@, 0);
    lemma_no_prefix_at(s, "Frost"@, 0);
    lemma_no_prefix_at(s, "Frost"@, 0);
    lemma_no_prefix_at(s, "Prism"@, 0);
    lemma_no_prefix_at(s, "Prism"@, 0);
    lemma_no_prefix_at(s, "Prism"@, 0);
    lemma_no_prefix_at(s, "Prism"@, 0);
    lemma_no_prefix_at(s, "Prism"@, 0);
    lemma_no_prefix_at(s, "Effects"@, 0);
    lemma_no_prefix_at(s, "Effects"@, 0);
    lemma_no_prefix_at(s, "Effects"@, 0);
    lemma_no_prefix_at(s, "Effects"@, 0);
    lemma_no_prefix_at(s, "Effects"@, 0);
    lemma_no_prefix_at(s, "Effects"@, 0);
    lemma_no_prefix_at(s, "Focus"@, 0);
    lemma_no_prefix_at(s, "Focus"@, 0);
    lemma_no_prefix_at(s, "Focus"@, 0);
    lemma_no_prefix_at(s, "Control"@, 0);
    lemma_letter_after(s, "Gobo"@);
    lemma_no_prefix_at(s, "AnimationWheel"@, 0);
    lemma_no_prefix_at(s, "Color"@, 0);
    lemma_no_prefix_at(s, "Fan"@, 0);
    lemma_extract_n_suffix_of("GoboWheel"@, n, "MSpeed"@);
}

/// The name of `PrismMSpeed` is read back as `PrismMSpeed`.
proof fn lemma_numbered_name_prism_m_speed(n: u8)
    ensures
        AttributeView::parse(AttributeView::PrismMSpeed(n).name()) == AttributeView::PrismMSpeed(n),
{
    let s = AttributeView::PrismMSpeed(n).name();
    lemma_dec(n);
    reveal_strlit("AnimationSystem");
    reveal_strlit("AnimationWheel");
    reveal_strlit("Color");
    reveal_strlit("ColorEffects");
    reveal_strlit("ColorMacro");
    reveal_strlit("Control");
    reveal_strlit("Effects");
    reveal_strlit("Fan");
    reveal_strlit("Focus");
    reveal_strlit("Frost");
    reveal_strlit("Gobo");
    reveal_strlit("GoboWheel");
    reveal_strlit("MSpeed");
    reveal_strlit("Macro");
    reveal_strlit("MediaContent");
    reveal_strlit("MediaFolder");
    reveal_strlit("ModelContent");
    reveal_strlit("ModelFolder");
    reveal_strlit("Pos");
    reveal_strlit("PosRotate");
    reveal_strlit("Prism");
    reveal_strlit("SelectSpin");
    reveal_strlit("Shutter");
    assert(s[5] == dec(n)[0]);
    lemma_fixed_rejects_digit(s, 5);
    lemma_no_prefix_at(s, "Gobo"@, 0);
    lemma_no_prefix_at(s, "Gobo"@, 0);
    lemma_no_prefix_at(s, "Gobo"@, 0);
    lemma_no_prefix_at(s, "Gobo"@, 0);
    lemma_no_prefix_at(s, "Gobo"@, 0);
    lemma_no_prefix_at(s, "Gobo"@, 0);
    lemma_no_prefix_at(s, "Gobo"@, 0);
    lemma_no_prefix_at(s, "Gobo"@, 0);
    lemma_no_prefix_at(s, "Gobo"@, 0);
    lemma_no_prefix_at(s, "Gobo"@, 0);
    lemma_no_prefix_at(s, "Gobo"@, 0);
    lemma_no_prefix_at(s, "Gobo"@, 0);
    lemma_no_prefix_at(s, "AnimationWheel"@, 0);
    lemma_no_prefix_at(s, "AnimationWheel"@, 0);
    lemma_no_prefix_at(s, "AnimationWheel"@, 0);
    lemma_no_prefix_at(s, "AnimationWheel"@, 0);
    lemma_no_prefix_at(s, "AnimationWheel"@, 0);
    lemma_no_prefix_at(s, "AnimationWheel"@, 0);
    lemma_no_prefix_at(s, "AnimationWheel"@, 0);
    lemma_no_prefix_at(s, "AnimationWheel"@, 0);
    lemma_no_prefix_at(s, "AnimationWheel"@, 0);
    lemma_no_prefix_at(s, "AnimationWheel"@, 0);
    lemma_no_prefix_at(s, "AnimationSystem"@, 0);
    lemma_no_prefix_at(s, "AnimationSystem"@, 0);
    lemma_no_prefix_at(s, "AnimationSystem"@, 0);
    lemma_no_prefix_at(s, "AnimationSystem"@, 0);
    lemma_no_prefix_at(s, "AnimationSystem"@, 0);
    lemma_no_prefix_at(s, "AnimationSystem"@, 0);
    lemma_no_prefix_at(s, "AnimationSystem"@, 0);
    lemma_no_prefix_at(s, "AnimationSystem"@, 0);
    lemma_no_prefix_at(s, "AnimationSystem"@, 0);
    lemma_no_prefix_at(s, "AnimationSystem"@, 0);
    lemma_no_prefix_at(s, "AnimationSystem"@, 0);
    lemma_no_prefix_at(s, "MediaFolder"@, 0);
    lemma_no_prefix_at(s, "MediaContent"@, 0);
    lemma_no_prefix_at(s, "ModelFolder"@, 0);
    lemma_no_prefix_at(s, "ModelContent"@, 0);
    lemma_no_prefix_at(s, "ColorEffects"@, 0);
    lemma_no_prefix_at(s, "Color"@, 0);
    lemma_no_prefix_at(s, "Color"@, 0);
    lemma_no_prefix_at(s, "Color"@, 0);
    lemma_no_prefix_at(s, "Color"@, 0);
    lemma_no_prefix_at(s, "Color"@, 0);
    lemma_no_prefix_at(s, "ColorMacro"@, 0);
    lemma_no_prefix_at(s, "ColorMacro"@, 0);
    lemma_no_prefix_at(s, "Shutter"@, 0);
    lemma_no_prefix_at(s, "Shutter"@, 0);
    lemma_no_prefix_at(s, "Shutter"@, 0);
    lemma_no_prefix_at(s, "Shutter"@, 0);
    lemma_no_prefix_at(s, "Shutter"@, 0);
    lemma_no_prefix_at(s, "Shutter"@, 0);
    lemma_no_prefix_at(s, "Shutter"@, 0);
    lemma_no_prefix_at(s, "Shutter"@, 0);
    lemma_no_prefix_at(s, "Shutter"@, 0);
    lemma_no_prefix_at(s, "Shutter"@, 0);
    lemma_no_prefix_at(s, "Frost"@, 0);
    lemma_no_prefix_at(s, "Frost"@, 0);
    lemma_no_prefix_at(s, "Frost"@, 0);
    lemma_no_prefix_at(s, "Frost"@, 0);
    lemma_extract_n_then_letter("Prism"@, n, "MSpeed"@);
    lemma_no_suffix_at(s, "Prism"@, "SelectSpin"@, 3);
    lemma_no_suffix_at(s, "Prism"@, "Macro"@, 0);
    lemma_no_suffix_at(s, "Prism"@, "Pos"@, 0);
    lemma_no_suffix_at(s, "Prism"@, "PosRotate"@, 2);
    lemma_no_prefix_at(s, "Effects"@, 0);
    lemma_no_prefix_at(s, "Effects"@, 0);
    lemma_no_prefix_at(s, "Effects"@, 0);
    lemma_no_prefix_at(s, "Effects"@, 0);
    lemma_no_prefix_at(s, "Effects"@, 0);
    lemma_no_prefix_at(s, "Effects"@, 0);
    lemma_no_prefix_at(s, "Focus"@, 0);
    lemma_no_prefix_at(s, "Focus"@, 0);
    lemma_no_prefix_at(s, "Focus"@, 0);
    lemma_no_prefix_at(s, "Control"@, 0);
    lemma_no_prefix_at(s, "Gobo"@, 0);
    lemma_no_prefix_at(s, "AnimationWheel"@, 0);
    lemma_no_prefix_at(s, "Color"@, 0);
    lemma_no_prefix_at(s, "Fan"@, 0);
    lemma_no_prefix_at(s, "GoboWheel"@, 0);
    lemma_extract_n_suffix_of("Prism"@, n, "MSpeed"@);
}

/// The name of `FrostMSpeed` is read back as `FrostMSpeed`.
proof fn lemma_numbered_name_frost_m_speed(n: u8)
    ensures
        AttributeView::parse(AttributeView::FrostMSpeed(n).name()) == AttributeView::FrostMSpeed(n),
{
    let s = AttributeView::FrostMSpeed(n).name();
    lemma_dec(n);
    reveal_strlit("AnimationSystem");
    reveal_strlit("AnimationWheel");
    reveal_strlit("Color");
    reveal_strlit("ColorEffects");
    reveal_strlit("ColorMacro");
    reveal_strlit("Control");
    reveal_strlit("Effects");
    reveal_strlit("Fan");
    reveal_strlit("Focus");
    reveal_strlit("Frost");
    reveal_strlit("Gobo");
    reveal_strlit("GoboWheel");
    reveal_strlit("MSpeed");
    reveal_strlit("MediaContent");
    reveal_strlit("MediaFolder");
    reveal_strlit("ModelContent");
    reveal_strlit("ModelFolder");
    reveal_strlit("Prism");
    reveal_strlit("PulseClose");
    reveal_strlit("PulseOpen");
    reveal_strlit("Ramp");
    reveal_strlit("Shutter");
    assert(s[5] == dec(n)[0]);
    lemma_fixed_rejects_digit(s, 5);
    lemma_no_prefix_at(s, "Gobo"@, 0);
    lemma_no_prefix_at(s, "Gobo"@, 0);
    lemma_no_prefix_at(s, "Gobo"@, 0);
    lemma_no_prefix_at(s, "Gobo"@, 0);
    lemma_no_prefix_at(s, "Gobo"@, 0);
    lemma_no_prefix_at(s, "Gobo"@, 0);
    lemma_no_prefix_at(s, "Gobo"@, 0);
    lemma_no_prefix_at(s, "Gobo"@, 0);
    lemma_no_prefix_at(s, "Gobo"@, 0);
    lemma_no_prefix_at(s, "Gobo"@, 0);
    lemma_no_prefix_at(s, "Gobo"@, 0);
    lemma_no_prefix_at(s, "Gobo"@, 0);
    lemma_no_prefix_at(s, "AnimationWheel"@, 0);
    lemma_no_prefix_at(s, "AnimationWheel"@, 0);
    lemma_no_prefix_at(s, "AnimationWheel"@, 0);
    lemma_no_prefix_at(s, "AnimationWheel"@, 0);
    lemma_no_prefix_at(s, "AnimationWheel"@, 0);
    lemma_no_prefix_at(s, "AnimationWheel"@, 0);
    lemma_no_prefix_at(s, "AnimationWheel"@, 0);
    lemma_no_prefix_at(s, "AnimationWheel"@, 0);
    lemma_no_prefix_at(s, "AnimationWheel"@, 0);
    lemma_no_prefix_at(s, "AnimationWheel"@, 0);
    lemma_no_prefix_at(s, "AnimationSystem"@, 0);
    lemma_no_prefix_at(s, "AnimationSystem"@, 0);
    lemma_no_prefix_at(s, "AnimationSystem"@, 0);
    lemma_no_prefix_at(s, "AnimationSystem"@, 0);
    lemma_no_prefix_at(s, "AnimationSystem"@, 0);
    lemma_no_prefix_at(s, "AnimationSystem"@, 0);
    lemma_no_prefix_at(s, "AnimationSystem"@, 0);
    lemma_no_prefix_at(s, "AnimationSystem"@, 0);
    lemma_no_prefix_at(s, "AnimationSystem"@, 0);
    lemma_no_prefix_at(s, "AnimationSystem"@, 0);
    lemma_no_prefix_at(s, "AnimationSystem"@, 0);
    lemma_no_prefix_at(s, "MediaFolder"@, 0);
    lemma_no_prefix_at(s, "MediaContent"@, 0);
    lemma_no_prefix_at(s, "ModelFolder"@, 0);
    lemma_no_prefix_at(s, "ModelContent"@, 0);
    lemma_no_prefix_at(s, "ColorEffects"@, 0);
    lemma_no_prefix_at(s, "Color"@, 0);
    lemma_no_prefix_at(s, "Color"@, 0);
    lemma_no_prefix_at(s, "Color"@, 0);
    lemma_no_prefix_at(s, "Color"@, 0);
    lemma_no_prefix_at(s, "Color"@, 0);
    lemma_no_prefix_at(s, "ColorMacro"@, 0);
    lemma_no_prefix_at(s, "ColorMacro"@, 0);
    lemma_no_prefix_at(s, "Shutter"@, 0);
    lemma_no_prefix_at(s, "Shutter"@, 0);
    lemma_no_prefix_at(s, "Shutter"@, 0);
    lemma_no_prefix_at(s, "Shutter"@, 0);
    lemma_no_prefix_at(s, "Shutter"@, 0);
    lemma_no_prefix_at(s, "Shutter"@, 0);
    lemma_no_prefix_at(s, "Shutter"@, 0);
    lemma_no_prefix_at(s, "Shutter"@, 0);
    lemma_no_prefix_at(s, "Shutter"@, 0);
    lemma_no_prefix_at(s, "Shutter"@, 0);
    lemma_extract_n_then_letter("Frost"@, n, "MSpeed"@);
    lemma_no_suffix_at(s, "Frost"@, "PulseOpen"@, 2);
    lemma_no_suffix_at(s, "Frost"@, "PulseClose"@, 3);
    lemma_no_suffix_at(s, "Frost"@, "Ramp"@, 0);
    lemma_no_prefix_at(s, "Prism"@, 0);
    lemma_no_prefix_at(s, "Prism"@, 0);
    lemma_no_prefix_at(s, "Prism"@, 0);
    lemma_no_prefix_at(s, "Prism"@, 0);
    lemma_no_prefix_at(s, "Prism"@, 0);
    lemma_no_prefix_at(s, "Effects"@, 0);
    lemma_no_prefix_at(s, "Effects"@, 0);
    lemma_no_prefix_at(s, "Effects"@, 0);
    lemma_no_prefix_at(s, "Effects"@, 0);
    lemma_no_prefix_at(s, "Effects"@, 0);
    lemma_no_prefix_at(s, "Effects"@, 0);
    lemma_no_prefix_at(s, "Focus"@, 1);
    lemma_no_prefix_at(s, "Focus"@, 1);
    lemma_no_prefix_at(s, "Focus"@, 1);
    lemma_no_prefix_at(s, "Control"@, 0);
    lemma_no_prefix_at(s, "Gobo"@, 0);
    lemma_no_prefix_at(s, "AnimationWheel"@, 0);
    lemma_no_prefix_at(s, "Color"@, 0);
    lemma_no_prefix_at(s, "Fan"@, 1);
    lemma_no_prefix_at(s, "GoboWheel"@, 0);
    lemma_no_prefix_at(s, "Prism"@, 0);
    lemma_extract_n_suffix_of("Frost"@, n, "MSpeed"@);
}

/// The name of `Blower` is read back as `Blower`.
proof fn lemma_numbered_name_blower(n: u8)
    ensures
        AttributeView::parse(AttributeView::Blower(n).name()) == AttributeView::Blower(n),
{
    let s = AttributeView::Blower(n).name();
    lemma_dec(n);
    reveal_strlit("AnimationSystem");
    reveal_strlit("AnimationWheel");
    reveal_strlit("Blower");
    reveal_strlit("Color");
    reveal_strlit("ColorEffects");
    reveal_strlit("ColorMacro");
    reveal_strlit("Control");
    reveal_strlit("Effects");
    reveal_strlit("Fan");
    reveal_strlit("Focus");
    reveal_strlit("Frost");
    reveal_strlit("Gobo");
    reveal_strlit("GoboWheel");
    reveal_strlit("MediaContent");
    reveal_strlit("MediaFolder");
    reveal_strlit("ModelContent");
    reveal_strlit("ModelFolder");
    reveal_strlit("Prism");
    reveal_strlit("Shutter");
    assert(s[6] == dec(n)[0]);
    lemma_fixed_rejects_digit(s, 6);
    lemma_no_prefix_at(s, "Gobo"@, 0);
    lemma_no_prefix_at(s, "Gobo"@, 0);
    lemma_no_prefix_at(s, "Gobo"@, 0);
    lemma_no_prefix_at(s, "Gobo"@, 0);
    lemma_no_prefix_at(s, "Gobo"@, 0);
    lemma_no_prefix_at(s, "Gobo"@, 0);
    lemma_no_prefix_at(s, "Gobo"@, 0);
    lemma_no_prefix_at(s, "Gobo"@, 0);
    lemma_no_prefix_at(s, "Gobo"@, 0);
    lemma_no_prefix_at(s, "Gobo"@, 0);
    lemma_no_prefix_at(s, "Gobo"@, 0);
    lemma_no_prefix_at(s, "Gobo"@, 0);
    lemma_no_prefix_at(s, "AnimationWheel"@, 0);
    lemma_no_prefix_at(s, "AnimationWheel"@, 0);
    lemma_no_prefix_at(s, "AnimationWheel"@, 0);
    lemma_no_prefix_at(s, "AnimationWheel"@, 0);
    lemma_no_prefix_at(s, "AnimationWheel"@, 0);
    lemma_no_prefix_at(s, "AnimationWheel"@, 0);
    lemma_no_prefix_at(s, "AnimationWheel"@, 0);
    lemma_no_prefix_at(s, "AnimationWheel"@, 0);
    lemma_no_prefix_at(s, "AnimationWheel"@, 0);
    lemma_no_prefix_at(s, "AnimationWheel"@, 0);
    lemma_no_prefix_at(s, "AnimationSystem"@, 0);
    lemma_no_prefix_at(s, "AnimationSystem"@, 0);
    lemma_no_prefix_at(s, "AnimationSystem"@, 0);
    lemma_no_prefix_at(s, "AnimationSystem"@, 0);
    lemma_no_prefix_at(s, "AnimationSystem"@, 0);
    lemma_no_prefix_at(s, "AnimationSystem"@, 0);
    lemma_no_prefix_at(s, "AnimationSystem"@, 0);
    lemma_no_prefix_at(s, "AnimationSystem"@, 0);
    lemma_no_prefix_at(s, "AnimationSystem"@, 0);
    lemma_no_prefix_at(s, "AnimationSystem"@, 0);
    lemma_no_prefix_at(s, "AnimationSystem"@, 0);
    lemma_no_prefix_at(s, "MediaFolder"@, 0);
    lemma_no_prefix_at(s, "MediaContent"@, 0);
    lemma_no_prefix_at(s, "ModelFolder"@, 0);
    lemma_no_prefix_at(s, "ModelContent"@, 0);
    lemma_no_prefix_at(s, "ColorEffects"@, 0);
    lemma_no_prefix_at(s, "Color"@, 0);
    lemma_no_prefix_at(s, "Color"@, 0);
    lemma_no_prefix_at(s, "Color"@, 0);
    lemma_no_prefix_at(s, "Color"@, 0);
    lemma_no_prefix_at(s, "Color"@, 0);
    lemma_no_prefix_at(s, "ColorMacro"@, 0);
    lemma_no_prefix_at(s, "ColorMacro"@, 0);
    lemma_no_prefix_at(s, "Shutter"@, 0);
    lemma_no_prefix_at(s, "Shutter"@, 0);
    lemma_no_prefix_at(s, "Shutter"@, 0);
    lemma_no_prefix_at(s, "Shutter"@, 0);
    lemma_no_prefix_at(s, "Shutter"@, 0);
    lemma_no_prefix_at(s, "Shutter"@, 0);
    lemma_no_prefix_at(s, "Shutter"@, 0);
    lemma_no_prefix_at(s, "Shutter"@, 0);
    lemma_no_prefix_at(s, "Shutter"@, 0);
    lemma_no_prefix_at(s, "Shutter"@, 0);
    lemma_no_prefix_at(s, "Frost"@, 0);
    lemma_no_prefix_at(s, "Frost"@, 0);
    lemma_no_prefix_at(s, "Frost"@, 0);
    lemma_no_prefix_at(s, "Frost"@, 0);
    lemma_no_prefix_at(s, "Prism"@, 0);
    lemma_no_prefix_at(s, "Prism"@, 0);
    lemma_no_prefix_at(s, "Prism"@, 0);
    lemma_no_prefix_at(s, "Prism"@, 0);
    lemma_no_prefix_at(s, "Prism"@, 0);
    lemma_no_prefix_at(s, "Effects"@, 0);
    lemma_no_prefix_at(s, "Effects"@, 0);
    lemma_no_prefix_at(s, "Effects"@, 0);
    lemma_no_prefix_at(s, "Effects"@, 0);
    lemma_no_prefix_at(s, "Effects"@, 0);
    lemma_no_prefix_at(s, "Effects"@, 0);
    lemma_no_prefix_at(s, "Focus"@, 0);
    lemma_no_prefix_at(s, "Focus"@, 0);
    lemma_no_prefix_at(s, "Focus"@, 0);
    lemma_no_prefix_at(s, "Control"@, 0);
    lemma_no_prefix_at(s, "Gobo"@, 0);
    lemma_no_prefix_at(s, "AnimationWheel"@, 0);
    lemma_no_prefix_at(s, "Color"@, 0);
    lemma_no_prefix_at(s, "Fan"@, 0);
    lemma_no_prefix_at(s, "GoboWheel"@, 0);
    lemma_no_prefix_at(s, "Prism"@, 0);
    lemma_no_prefix_at(s, "Frost"@, 0);
    lemma_extract_n_of("Blower"@, n);
}

/// The name of `Fan` is read back as `Fan`.
proof fn lemma_numbered_name_fan(n: u8)
    ensures
        AttributeView::parse(AttributeView::Fan(n).name()) == AttributeView::Fan(n),
{
    let s = AttributeView::Fan(n).name();
    lemma_dec(n);
    reveal_strlit("AnimationSystem");
    reveal_strlit("AnimationWheel");
    reveal_strlit("Blower");
    reveal_strlit("Color");
    reveal_strlit("ColorEffects");
    reveal_strlit("ColorMacro");
    reveal_strlit("Control");
    reveal_strlit("Effects");
    reveal_strlit("Fan");
    reveal_strlit("Focus");
    reveal_strlit("Frost");
    reveal_strlit("Gobo");
    reveal_strlit("GoboWheel");
    reveal_strlit("MediaContent");
    reveal_strlit("MediaFolder");
    reveal_strlit("Mode");
    reveal_strlit("ModelContent");
    reveal_strlit("ModelFolder");
    reveal_strlit("Prism");
    reveal_strlit("Shutter");
    assert(s[3] == dec(n)[0]);
    lemma_fixed_rejects_digit(s, 3);
    lemma_no_prefix_at(s, "Gobo"@, 0);
    lemma_no_prefix_at(s, "Gobo"@, 0);
    lemma_no_prefix_at(s, "Gobo"@, 0);
    lemma_no_prefix_at(s, "Gobo"@, 0);
    lemma_no_prefix_at(s, "Gobo"@, 0);
    lemma_no_prefix_at(s, "Gobo"@, 0);
    lemma_no_prefix_at(s, "Gobo"@, 0);
    lemma_no_prefix_at(s, "Gobo"@, 0);
    lemma_no_prefix_at(s, "Gobo"@, 0);
    lemma_no_prefix_at(s, "Gobo"@, 0);
    lemma_no_prefix_at(s, "Gobo"@, 0);
    lemma_no_prefix_at(s, "Gobo"@, 0);
    lemma_no_prefix_at(s, "AnimationWheel"@, 0);
    lemma_no_prefix_at(s, "AnimationWheel"@, 0);
    lemma_no_prefix_at(s, "AnimationWheel"@, 0);
    lemma_no_prefix_at(s, "AnimationWheel"@, 0);
    lemma_no_prefix_at(s, "AnimationWheel"@, 0);
    lemma_no_prefix_at(s, "AnimationWheel"@, 0);
    lemma_no_prefix_at(s, "AnimationWheel"@, 0);
    lemma_no_prefix_at(s, "AnimationWheel"@, 0);
    lemma_no_prefix_at(s, "AnimationWheel"@, 0);
    lemma_no_prefix_at(s, "AnimationWheel"@, 0);
    lemma_no_prefix_at(s, "AnimationSystem"@, 0);
    lemma_no_prefix_at(s, "AnimationSystem"@, 0);
    lemma_no_prefix_at(s, "AnimationSystem"@, 0);
    lemma_no_prefix_at(s, "AnimationSystem"@, 0);
    lemma_no_prefix_at(s, "AnimationSystem"@, 0);
    lemma_no_prefix_at(s, "AnimationSystem"@, 0);
    lemma_no_prefix_at(s, "AnimationSystem"@, 0);
    lemma_no_prefix_at(s, "AnimationSystem"@, 0);
    lemma_no_prefix_at(s, "AnimationSystem"@, 0);
    lemma_no_prefix_at(s, "AnimationSystem"@, 0);
    lemma_no_prefix_at(s, "AnimationSystem"@, 0);
    lemma_no_prefix_at(s, "MediaFolder"@, 0);
    lemma_no_prefix_at(s, "MediaContent"@, 0);
    lemma_no_prefix_at(s, "ModelFolder"@, 0);
    lemma_no_prefix_at(s, "ModelContent"@, 0);
    lemma_no_prefix_at(s, "ColorEffects"@, 0);
    lemma_no_prefix_at(s, "Color"@, 0);
    lemma_no_prefix_at(s, "Color"@, 0);
    lemma_no_prefix_at(s, "Color"@, 0);
    lemma_no_prefix_at(s, "Color"@, 0);
    lemma_no_prefix_at(s, "Color"@, 0);
    lemma_no_prefix_at(s, "ColorMacro"@, 0);
    lemma_no_prefix_at(s, "ColorMacro"@, 0);
    lemma_no_prefix_at(s, "Shutter"@, 0);
    lemma_no_prefix_at(s, "Shutter"@, 0);
    lemma_no_prefix_at(s, "Shutter"@, 0);
    lemma_no_prefix_at(s, "Shutter"@, 0);
    lemma_no_prefix_at(s, "Shutter"@, 0);
    lemma_no_prefix_at(s, "Shutter"@, 0);
    lemma_no_prefix_at(s, "Shutter"@, 0);
    lemma_no_prefix_at(s, "Shutter"@, 0);
    lemma_no_prefix_at(s, "Shutter"@, 0);
    lemma_no_prefix_at(s, "Shutter"@, 0);
    lemma_no_prefix_at(s, "Frost"@, 1);
    lemma_no_prefix_at(s, "Frost"@, 1);
    lemma_no_prefix_at(s, "Frost"@, 1);
    lemma_no_prefix_at(s, "Frost"@, 1);
    lemma_no_prefix_at(s, "Prism"@, 0);
    lemma_no_prefix_at(s, "Prism"@, 0);
    lemma_no_prefix_at(s, "Prism"@, 0);
    lemma_no_prefix_at(s, "Prism"@, 0);
    lemma_no_prefix_at(s, "Prism"@, 0);
    lemma_no_prefix_at(s, "Effects"@, 0);
    lemma_no_prefix_at(s, "Effects"@, 0);
    lemma_no_prefix_at(s, "Effects"@, 0);
    lemma_no_prefix_at(s, "Effects"@, 0);
    lemma_no_prefix_at(s, "Effects"@, 0);
    lemma_no_prefix_at(s, "Effects"@, 0);
    lemma_no_prefix_at(s, "Focus"@, 1);
    lemma_no_prefix_at(s, "Focus"@, 1);
    lemma_no_prefix_at(s, "Focus"@, 1);
    lemma_no_prefix_at(s, "Control"@, 0);
    lemma_no_prefix_at(s, "Gobo"@, 0);
    lemma_no_prefix_at(s, "AnimationWheel"@, 0);
    lemma_no_prefix_at(s, "Color"@, 0);
    lemma_no_suffix_at(s, "Fan"@, "Mode"@, 3);
    lemma_no_prefix_at(s, "GoboWheel"@, 0);
    lemma_no_prefix_at(s, "Prism"@, 0);
    lemma_no_prefix_at(s, "Frost"@, 1);
    lemma_no_prefix_at(s, "Blower"@, 0);
    lemma_extract_n_of("Fan"@, n);
}

/// The name of `Fog` is read back as `Fog`.
proof fn lemma_numbered_name_fog(n: u8)
    ensures
        AttributeView::parse(AttributeView::Fog(n).name()) == AttributeView::Fog(n),
{
    let s = AttributeView::Fog(n).name();
    lemma_dec(n);
    reveal_strlit("AnimationSystem");
    reveal_strlit("AnimationWheel");
    reveal_strlit("Blower");
    reveal_strlit("Color");
    reveal_strlit("ColorEffects");
    reveal_strlit("ColorMacro");
    reveal_strlit("Control");
    reveal_strlit("Effects");
    reveal_strlit("Fan");
    reveal_strlit("Focus");
    reveal_strlit("Fog");
    reveal_strlit("Frost");
    reveal_strlit("Gobo");
    reveal_strlit("GoboWheel");
    reveal_strlit("MediaContent");
    reveal_strlit("MediaFolder");
    reveal_strlit("ModelContent");
    reveal_strlit("ModelFolder");
    reveal_strlit("Prism");
    reveal_strlit("Shutter");
    assert(s[3] == dec(n)[0]);
    lemma_fixed_rejects_digit(s, 3);
    lemma_no_prefix_at(s, "Gobo"@, 0);
    lemma_no_prefix_at(s, "Gobo"@, 0);
    lemma_no_prefix_at(s, "Gobo"@, 0);
    lemma_no_prefix_at(s, "Gobo"@, 0);
    lemma_no_prefix_at(s, "Gobo"@, 0);
    lemma_no_prefix_at(s, "Gobo"@, 0);
    lemma_no_prefix_at(s, "Gobo"@, 0);
    lemma_no_prefix_at(s, "Gobo"@, 0);
    lemma_no_prefix_at(s, "Gobo"@, 0);
    lemma_no_prefix_at(s, "Gobo"@, 0);
    lemma_no_prefix_at(s, "Gobo"@, 0);
    lemma_no_prefix_at(s, "Gobo"@, 0);
    lemma_no_prefix_at(s, "AnimationWheel"@, 0);
    lemma_no_prefix_at(s, "AnimationWheel"@, 0);
    lemma_no_prefix_at(s, "AnimationWheel"@, 0);
    lemma_no_prefix_at(s, "AnimationWheel"@, 0);
    lemma_no_prefix_at(s, "AnimationWheel"@, 0);
    lemma_no_prefix_at(s, "AnimationWheel"@, 0);
    lemma_no_prefix_at(s, "AnimationWheel"@, 0);
    lemma_no_prefix_at(s, "AnimationWheel"@, 0);
    lemma_no_prefix_at(s, "AnimationWheel"@, 0);
    lemma_no_prefix_at(s, "AnimationWheel"@, 0);
    lemma_no_prefix_at(s, "AnimationSystem"@, 0);
    lemma_no_prefix_at(s, "AnimationSystem"@, 0);
    lemma_no_prefix_at(s, "AnimationSystem"@, 0);
    lemma_no_prefix_at(s, "AnimationSystem"@, 0);
    lemma_no_prefix_at(s, "AnimationSystem"@, 0);
    lemma_no_prefix_at(s, "AnimationSystem"@, 0);
    lemma_no_prefix_at(s, "AnimationSystem"@, 0);
    lemma_no_prefix_at(s, "AnimationSystem"@, 0);
    lemma_no_prefix_at(s, "AnimationSystem"@, 0);
    lemma_no_prefix_at(s, "AnimationSystem"@, 0);
    lemma_no_prefix_at(s, "AnimationSystem"@, 0);
    lemma_no_prefix_at(s, "MediaFolder"@, 0);
    lemma_no_prefix_at(s, "MediaContent"@, 0);
    lemma_no_prefix_at(s, "ModelFolder"@, 0);
    lemma_no_prefix_at(s, "ModelContent"@, 0);
    lemma_no_prefix_at(s, "ColorEffects"@, 0);
    lemma_no_prefix_at(s, "Color"@, 0);
    lemma_no_prefix_at(s, "Color"@, 0);
    lemma_no_prefix_at(s, "Color"@, 0);
    lemma_no_prefix_at(s, "Color"@, 0);
    lemma_no_prefix_at(s, "Color"@, 0);
    lemma_no_prefix_at(s, "ColorMacro"@, 0);
    lemma_no_prefix_at(s, "ColorMacro"@, 0);
    lemma_no_prefix_at(s, "Shutter"@, 0);
    lemma_no_prefix_at(s, "Shutter"@, 0);
    lemma_no_prefix_at(s, "Shutter"@, 0);
    lemma_no_prefix_at(s, "Shutter"@, 0);
    lemma_no_prefix_at(s, "Shutter"@, 0);
    lemma_no_prefix_at(s, "Shutter"@, 0);
    lemma_no_prefix_at(s, "Shutter"@, 0);
    lemma_no_prefix_at(s, "Shutter"@, 0);
    lemma_no_prefix_at(s, "Shutter"@, 0);
    lemma_no_prefix_at(s, "Shutter"@, 0);
    lemma_no_prefix_at(s, "Frost"@, 1);
    lemma_no_prefix_at(s, "Frost"@, 1);
    lemma_no_prefix_at(s, "Frost"@, 1);
    lemma_no_prefix_at(s, "Frost"@, 1);
    lemma_no_prefix_at(s, "Prism"@, 0);
    lemma_no_prefix_at(s, "Prism"@, 0);
    lemma_no_prefix_at(s, "Prism"@, 0);
    lemma_no_prefix_at(s, "Prism"@, 0);
    lemma_no_prefix_at(s, "Prism"@, 0);
    lemma_no_prefix_at(s, "Effects"@, 0);
    lemma_no_prefix_at(s, "Effects"@, 0);
    lemma_no_prefix_at(s, "Effects"@, 0);
    lemma_no_prefix_at(s, "Effects"@, 0);
    lemma_no_prefix_at(s, "Effects"@, 0);
    lemma_no_prefix_at(s, "Effects"@, 0);
    lemma_no_prefix_at(s, "Focus"@, 2);
    lemma_no_prefix_at(s, "Focus"@, 2);
    lemma_no_prefix_at(s, "Focus"@, 2);
    lemma_no_prefix_at(s, "Control"@, 0);
    lemma_no_prefix_at(s, "Gobo"@, 0);
    lemma_no_prefix_at(s, "AnimationWheel"@, 0);
    lemma_no_prefix_at(s, "Color"@, 0);
    lemma_no_prefix_at(s, "Fan"@, 1);
    lemma_no_prefix_at(s, "GoboWheel"@, 0);
    lemma_no_prefix_at(s, "Prism"@, 0);
    lemma_no_prefix_at(s, "Frost"@, 1);
    lemma_no_prefix_at(s, "Blower"@, 0);
    lemma_no_prefix_at(s, "Fan"@, 1);
    lemma_extract_n_of("Fog"@, n);
}

/// The name of `Haze` is read back as `Haze`.
proof fn lemma_numbered_name_haze(n: u8)
    ensures
        AttributeView::parse(AttributeView::Haze(n).name()) == AttributeView::Haze(n),
{
    let s = AttributeView::Haze(n).name();
    lemma_dec(n);
    reveal_strlit("AnimationSystem");
    reveal_strlit("AnimationWheel");
    reveal_strlit("Blower");
    reveal_strlit("Color");
    reveal_strlit("ColorEffects");
    reveal_strlit("ColorMacro");
    reveal_strlit("Control");
    reveal_strlit("Effects");
    reveal_strlit("Fan");
    reveal_strlit("Focus");
    reveal_strlit("Fog");
    reveal_strlit("Frost");
    reveal_strlit("Gobo");
    reveal_strlit("GoboWheel");
    reveal_strlit("Haze");
    reveal_strlit("MediaContent");
    reveal_strlit("MediaFolder");
    reveal_strlit("ModelContent");
    reveal_strlit("ModelFolder");
    reveal_strlit("Prism");
    reveal_strlit("Shutter");
    assert(s[4] == dec(n)[0]);
    lemma_fixed_rejects_digit(s, 4);
    lemma_no_prefix_at(s, "Gobo"@, 0);
    lemma_no_prefix_at(s, "Gobo"@, 0);
    lemma_no_prefix_at(s, "Gobo"@, 0);
    lemma_no_prefix_at(s, "Gobo"@, 0);
    lemma_no_prefix_at(s, "Gobo"@, 0);
    lemma_no_prefix_at(s, "Gobo"@, 0);
    lemma_no_prefix_at(s, "Gobo"@, 0);
    lemma_no_prefix_at(s, "Gobo"@, 0);
    lemma_no_prefix_at(s, "Gobo"@, 0);
    lemma_no_prefix_at(s, "Gobo"@, 0);
    lemma_no_prefix_at(s, "Gobo"@, 0);
    lemma_no_prefix_at(s, "Gobo"@, 0);
    lemma_no_prefix_at(s, "AnimationWheel"@, 0);
    lemma_no_prefix_at(s, "AnimationWheel"@, 0);
    lemma_no_prefix_at(s, "AnimationWheel"@, 0);
    lemma_no_prefix_at(s, "AnimationWheel"@, 0);
    lemma_no_prefix_at(s, "AnimationWheel"@, 0);
    lemma_no_prefix_at(s, "AnimationWheel"@, 0);
    lemma_no_prefix_at(s, "AnimationWheel"@, 0);
    lemma_no_prefix_at(s, "AnimationWheel"@, 0);
    lemma_no_prefix_at(s, "AnimationWheel"@, 0);
    lemma_no_prefix_at(s, "AnimationWheel"@, 0);
    lemma_no_prefix_at(s, "AnimationSystem"@, 0);
    lemma_no_prefix_at(s, "AnimationSystem"@, 0);
    lemma_no_prefix_at(s, "AnimationSystem"@, 0);
    lemma_no_prefix_at(s, "AnimationSystem"@, 0);
    lemma_no_prefix_at(s, "AnimationSystem"@, 0);
    lemma_no_prefix_at(s, "AnimationSystem"@, 0);
    lemma_no_prefix_at(s, "AnimationSystem"@, 0);
    lemma_no_prefix_at(s, "AnimationSystem"@, 0);
    lemma_no_prefix_at(s, "AnimationSystem"@, 0);
    lemma_no_prefix_at(s, "AnimationSystem"@, 0);
    lemma_no_prefix_at(s, "AnimationSystem"@, 0);
    lemma_no_prefix_at(s, "MediaFolder"@, 0);
    lemma_no_prefix_at(s, "MediaContent"@, 0);
    lemma_no_prefix_at(s, "ModelFolder"@, 0);
    lemma_no_prefix_at(s, "ModelContent"@, 0);
    lemma_no_prefix_at(s, "ColorEffects"@, 0);
    lemma_no_prefix_at(s, "Color"@, 0);
    lemma_no_prefix_at(s, "Color"@, 0);
    lemma_no_prefix_at(s, "Color"@, 0);
    lemma_no_prefix_at(s, "Color"@, 0);
    lemma_no_prefix_at(s, "Color"@, 0);
    lemma_no_prefix_at(s, "ColorMacro"@, 0);
    lemma_no_prefix_at(s, "ColorMacro"@, 0);
    lemma_no_prefix_at(s, "Shutter"@, 0);
    lemma_no_prefix_at(s, "Shutter"@, 0);
    lemma_no_prefix_at(s, "Shutter"@, 0);
    lemma_no_prefix_at(s, "Shutter"@, 0);
    lemma_no_prefix_at(s, "Shutter"@, 0);
    lemma_no_prefix_at(s, "Shutter"@, 0);
    lemma_no_prefix_at(s, "Shutter"@, 0);
    lemma_no_prefix_at(s, "Shutter"@, 0);
    lemma_no_prefix_at(s, "Shutter"@, 0);
    lemma_no_prefix_at(s, "Shutter"@, 0);
    lemma_no_prefix_at(s, "Frost"@, 0);
    lemma_no_prefix_at(s, "Frost"@, 0);
    lemma_no_prefix_at(s, "Frost"@, 0);
    lemma_no_prefix_at(s, "Frost"@, 0);
    lemma_no_prefix_at(s, "Prism"@, 0);
    lemma_no_prefix_at(s, "Prism"@, 0);
    lemma_no_prefix_at(s, "Prism"@, 0);
    lemma_no_prefix_at(s, "Prism"@, 0);
    lemma_no_prefix_at(s, "Prism"@, 0);
    lemma_no_prefix_at(s, "Effects"@, 0);
    lemma_no_prefix_at(s, "Effects"@, 0);
    lemma_no_prefix_at(s, "Effects"@, 0);
    lemma_no_prefix_at(s, "Effects"@, 0);
    lemma_no_prefix_at(s, "Effects"@, 0);
    lemma_no_prefix_at(s, "Effects"@, 0);
    lemma_no_prefix_at(s, "Focus"@, 0);
    lemma_no_prefix_at(s, "Focus"@, 0);
    lemma_no_prefix_at(s, "Focus"@, 0);
    lemma_no_prefix_at(s, "Control"@, 0);
    lemma_no_prefix_at(s, "Gobo"@, 0);
    lemma_no_prefix_at(s, "AnimationWheel"@, 0);
    lemma_no_prefix_at(s, "Color"@, 0);
    lemma_no_prefix_at(s, "Fan"@, 0);
    lemma_no_prefix_at(s, "GoboWheel"@, 0);
    lemma_no_prefix_at(s, "Prism"@, 0);
    lemma_no_prefix_at(s, "Frost"@, 0);
    lemma_no_prefix_at(s, "Blower"@, 0);
    lemma_no_prefix_at(s, "Fan"@, 0);
    lemma_no_prefix_at(s, "Fog"@, 0);
    lemma_extract_n_of("Haze"@, n);
}

/// The name of `BladeA` is read back as `BladeA`.
proof fn lemma_numbered_name_blade_a(n: u8)
    ensures
        AttributeView::parse(AttributeView::BladeA(n).name()) == AttributeView::BladeA(n),
{
    let s = AttributeView::BladeA(n).name();
    lemma_dec(n);
    reveal_strlit("A");
    reveal_strlit("AnimationSystem");
    reveal_strlit("AnimationWheel");
    reveal_strlit("Blade");
    reveal_strlit("Blower");
    reveal_strlit("Color");
    reveal_strlit("ColorEffects");
    reveal_strlit("ColorMacro");
    reveal_strlit("Control");
    reveal_strlit("Effects");
    reveal_strlit("Fan");
    reveal_strlit("Focus");
    reveal_strlit("Fog");
    reveal_strlit("Frost");
    reveal_strlit("Gobo");
    reveal_strlit("GoboWheel");
    reveal_strlit("Haze");
    reveal_strlit("MediaContent");
    reveal_strlit("MediaFolder");
    reveal_strlit("ModelContent");
    reveal_strlit("ModelFolder");
    reveal_strlit("Prism");
    reveal_strlit("Shutter");
    assert(s[5] == dec(n)[0]);
    lemma_fixed_rejects_digit(s, 5);
    lemma_no_prefix_at(s, "Gobo"@, 0);
    lemma_no_prefix_at(s, "Gobo"@, 0);
    lemma_no_prefix_at(s, "Gobo"@, 0);
    lemma_no_prefix_at(s, "Gobo"@, 0);
    lemma_no_prefix_at(s, "Gobo"@, 0);
    lemma_no_prefix_at(s, "Gobo"@, 0);
    lemma_no_prefix_at(s, "Gobo"@, 0);
    lemma_no_prefix_at(s, "Gobo"@, 0);
    lemma_no_prefix_at(s, "Gobo"@, 0);
    lemma_no_prefix_at(s, "Gobo"@, 0);
    lemma_no_prefix_at(s, "Gobo"@, 0);
    lemma_no_prefix_at(s, "Gobo"@, 0);
    lemma_no_prefix_at(s, "AnimationWheel"@, 0);
    lemma_no_prefix_at(s, "AnimationWheel"@, 0);
    lemma_no_prefix_at(s, "AnimationWheel"@, 0);
    lemma_no_prefix_at(s, "AnimationWheel"@, 0);
    lemma_no_prefix_at(s, "AnimationWheel"@, 0);
    lemma_no_prefix_at(s, "AnimationWheel"@, 0);
    lemma_no_prefix_at(s, "AnimationWheel"@, 0);
    lemma_no_prefix_at(s, "AnimationWheel"@, 0);
    lemma_no_prefix_at(s, "AnimationWheel"@, 0);
    lemma_no_prefix_at(s, "AnimationWheel"@, 0);
    lemma_no_prefix_at(s, "AnimationSystem"@, 0);
    lemma_no_prefix_at(s, "AnimationSystem"@, 0);
    lemma_no_prefix_at(s, "AnimationSystem"@, 0);
    lemma_no_prefix_at(s, "AnimationSystem"@, 0);
    lemma_no_prefix_at(s, "AnimationSystem"@, 0);
    lemma_no_prefix_at(s, "AnimationSystem"@, 0);
    lemma_no_prefix_at(s, "AnimationSystem"@, 0);
    lemma_no_prefix_at(s, "AnimationSystem"@, 0);
    lemma_no_prefix_at(s, "AnimationSystem"@, 0);
    lemma_no_prefix_at(s, "AnimationSystem"@, 0);
    lemma_no_prefix_at(s, "AnimationSystem"@, 0);
    lemma_no_prefix_at(s, "MediaFolder"@, 0);
    lemma_no_prefix_at(s, "MediaContent"@, 0);
    lemma_no_prefix_at(s, "ModelFolder"@, 0);
    lemma_no_prefix_at(s, "ModelContent"@, 0);
    lemma_no_prefix_at(s, "ColorEffects"@, 0);
    lemma_no_prefix_at(s, "Color"@, 0);
    lemma_no_prefix_at(s, "Color"@, 0);
    lemma_no_prefix_at(s, "Color"@, 0);
    lemma_no_prefix_at(s, "Color"@, 0);
    lemma_no_prefix_at(s, "Color"@, 0);
    lemma_no_prefix_at(s, "ColorMacro"@, 0);
    lemma_no_prefix_at(s, "ColorMacro"@, 0);
    lemma_no_prefix_at(s, "Shutter"@, 0);
    lemma_no_prefix_at(s, "Shutter"@, 0);
    lemma_no_prefix_at(s, "Shutter"@, 0);
    lemma_no_prefix_at(s, "Shutter"@, 0);
    lemma_no_prefix_at(s, "Shutter"@, 0);
    lemma_no_prefix_at(s, "Shutter"@, 0);
    lemma_no_prefix_at(s, "Shutter"@, 0);
    lemma_no_prefix_at(s, "Shutter"@, 0);
    lemma_no_prefix_at(s, "Shutter"@, 0);
    lemma_no_prefix_at(s, "Shutter"@, 0);
    lemma_no_prefix_at(s, "Frost"@, 0);
    lemma_no_prefix_at(s, "Frost"@, 0);
    lemma_no_prefix_at(s, "Frost"@, 0);
    lemma_no_prefix_at(s, "Frost"@, 0);
    lemma_no_prefix_at(s, "Prism"@, 0);
    lemma_no_prefix_at(s, "Prism"@, 0);
    lemma_no_prefix_at(s, "Prism"@, 0);
    lemma_no_prefix_at(s, "Prism"@, 0);
    lemma_no_prefix_at(s, "Prism"@, 0);
    lemma_no_prefix_at(s, "Effects"@, 0);
    lemma_no_prefix_at(s, "Effects"@, 0);
    lemma_no_prefix_at(s, "Effects"@, 0);
    lemma_no_prefix_at(s, "Effects"@, 0);
    lemma_no_prefix_at(s, "Effects"@, 0);
    lemma_no_prefix_at(s, "Effects"@, 0);
    lemma_no_prefix_at(s, "Focus"@, 0);
    lemma_no_prefix_at(s, "Focus"@, 0);
    lemma_no_prefix_at(s, "Focus"@, 0);
    lemma_no_prefix_at(s, "Control"@, 0);
    lemma_no_prefix_at(s, "Gobo"@, 0);
    lemma_no_prefix_at(s, "AnimationWheel"@, 0);
    lemma_no_prefix_at(s, "Color"@, 0);
    lemma_no_prefix_at(s, "Fan"@, 0);
    lemma_no_prefix_at(s, "GoboWheel"@, 0);
    lemma_no_prefix_at(s, "Prism"@, 0);
    lemma_no_prefix_at(s, "Frost"@, 0);
    lemma_no_prefix_at(s, "Blower"@, 2);
    lemma_no_prefix_at(s, "Fan"@, 0);
    lemma_no_prefix_at(s, "Fog"@, 0);
    lemma_no_prefix_at(s, "Haze"@, 0);
    lemma_extract_n_suffix_of("Blade"@, n, "A"@);
}

/// The name of `BladeB` is read back as `BladeB`.
proof fn lemma_numbered_name_blade_b(n: u8)
    ensures
        AttributeView::parse(AttributeView::BladeB(n).name()) == AttributeView::BladeB(n),
{
    let s = AttributeView::BladeB(n).name();
    lemma_dec(n);
    reveal_strlit("A");
    reveal_strlit("AnimationSystem");
    reveal_strlit("AnimationWheel");
    reveal_strlit("B");
    reveal_strlit("Blade");
    reveal_strlit("Blower");
    reveal_strlit("Color");
    reveal_strlit("ColorEffects");
    reveal_strlit("ColorMacro");
    reveal_strlit("Control");
    reveal_strlit("Effects");
    reveal_strlit("Fan");
    reveal_strlit("Focus");
    reveal_strlit("Fog");
    reveal_strlit("Frost");
    reveal_strlit("Gobo");
    reveal_strlit("GoboWheel");
    reveal_strlit("Haze");
    reveal_strlit("MediaContent");
    reveal_strlit("MediaFolder");
    reveal_strlit("ModelContent");
    reveal_strlit("ModelFolder");
    reveal_strlit("Prism");
    reveal_strlit("Shutter");
    assert(s[5] == dec(n)[0]);
    lemma_fixed_rejects_digit(s, 5);
    lemma_no_prefix_at(s, "Gobo"@, 0);
    lemma_no_prefix_at(s, "Gobo"@, 0);
    lemma_no_prefix_at(s, "Gobo"@, 0);
    lemma_no_prefix_at(s, "Gobo"@, 0);
    lemma_no_prefix_at(s, "Gobo"@, 0);
    lemma_no_prefix_at(s, "Gobo"@, 0);
    lemma_no_prefix_at(s, "Gobo"@, 0);
    lemma_no_prefix_at(s, "Gobo"@, 0);
    lemma_no_prefix_at(s, "Gobo"@, 0);
    lemma_no_prefix_at(s, "Gobo"@, 0);
    lemma_no_prefix_at(s, "Gobo"@, 0);
    lemma_no_prefix_at(s, "Gobo"@, 0);
    lemma_no_prefix_at(s, "AnimationWheel"@, 0);
    lemma_no_prefix_at(s, "AnimationWheel"@, 0);
    lemma_no_prefix_at(s, "AnimationWheel"@, 0);
    lemma_no_prefix_at(s, "AnimationWheel"@, 0);
    lemma_no_prefix_at(s, "AnimationWheel"@, 0);
    lemma_no_prefix_at(s, "AnimationWheel"@, 0);
    lemma_no_prefix_at(s, "AnimationWheel"@, 0);
    lemma_no_prefix_at(s, "AnimationWheel"@, 0);
    lemma_no_prefix_at(s, "AnimationWheel"@, 0);
    lemma_no_prefix_at(s, "AnimationWheel"@, 0);
    lemma_no_prefix_at(s, "AnimationSystem"@, 0);
    lemma_no_prefix_at(s, "AnimationSystem"@, 0);
    lemma_no_prefix_at(s, "AnimationSystem"@, 0);
    lemma_no_prefix_at(s, "AnimationSystem"@, 0);
    lemma_no_prefix_at(s, "AnimationSystem"@, 0);
    lemma_no_prefix_at(s, "AnimationSystem"@, 0);
    lemma_no_prefix_at(s, "AnimationSystem"@, 0);
    lemma_no_prefix_at(s, "AnimationSystem"@, 0);
    lemma_no_prefix_at(s, "AnimationSystem"@, 0);
    lemma_no_prefix_at(s, "AnimationSystem"@, 0);
    lemma_no_prefix_at(s, "AnimationSystem"@, 0);
    lemma_no_prefix_at(s, "MediaFolder"@, 0);
    lemma_no_prefix_at(s, "MediaContent"@, 0);
    lemma_no_prefix_at(s, "ModelFolder"@, 0);
    lemma_no_prefix_at(s, "ModelContent"@, 0);
    lemma_no_prefix_at(s, "ColorEffects"@, 0);
    lemma_no_prefix_at(s, "Color"@, 0);
    lemma_no_prefix_at(s, "Color"@, 0);
    lemma_no_prefix_at(s, "Color"@, 0);
    lemma_no_prefix_at(s, "Color"@, 0);
    lemma_no_prefix_at(s, "Color"@, 0);
    lemma_no_prefix_at(s, "ColorMacro"@, 0);
    lemma_no_prefix_at(s, "ColorMacro"@, 0);
    lemma_no_prefix_at(s, "Shutter"@, 0);
    lemma_no_prefix_at(s, "Shutter"@, 0);
    lemma_no_prefix_at(s, "Shutter"@, 0);
    lemma_no_prefix_at(s, "Shutter"@, 0);
    lemma_no_prefix_at(s, "Shutter"@, 0);
    lemma_no_prefix_at(s, "Shutter"@, 0);
    lemma_no_prefix_at(s, "Shutter"@, 0);
    lemma_no_prefix_at(s, "Shutter"@, 0);
    lemma_no_prefix_at(s, "Shutter"@, 0);
    lemma_no_prefix_at(s, "Shutter"@, 0);
    lemma_no_prefix_at(s, "Frost"@, 0);
    lemma_no_prefix_at(s, "Frost"@, 0);
    lemma_no_prefix_at(s, "Frost"@, 0);
    lemma_no_prefix_at(s, "Frost"@, 0);
    lemma_no_prefix_at(s, "Prism"@, 0);
    lemma_no_prefix_at(s, "Prism"@, 0);
    lemma_no_prefix_at(s, "Prism"@, 0);
    lemma_no_prefix_at(s, "Prism"@, 0);
    lemma_no_prefix_at(s, "Prism"@, 0);
    lemma_no_prefix_at(s, "Effects"@, 0);
    lemma_no_prefix_at(s, "Effects"@, 0);
    lemma_no_prefix_at(s, "Effects"@, 0);
    lemma_no_prefix_at(s, "Effects"@, 0);
    lemma_no_prefix_at(s, "Effects"@, 0);
    lemma_no_prefix_at(s, "Effects"@, 0);
    lemma_no_prefix_at(s, "Focus"@, 0);
    lemma_no_prefix_at(s, "Focus"@, 0);
    lemma_no_prefix_at(s, "Focus"@, 0);
    lemma_no_prefix_at(s, "Control"@, 0);
    lemma_no_prefix_at(s, "Gobo"@, 0);
    lemma_no_prefix_at(s, "AnimationWheel"@, 0);
    lemma_no_prefix_at(s, "Color"@, 0);
    lemma_no_prefix_at(s, "Fan"@, 0);
    lemma_no_prefix_at(s, "GoboWheel"@, 0);
    lemma_no_prefix_at(s, "Prism"@, 0);
    lemma_no_prefix_at(s, "Frost"@, 0);
    lemma_no_prefix_at(s, "Blower"@, 2);
    lemma_no_prefix_at(s, "Fan"@, 0);
    lemma_no_prefix_at(s, "Fog"@, 0);
    lemma_no_prefix_at(s, "Haze"@, 0);
    lemma_no_suffix_at(s, "Blade"@, "A"@, 0);
    lemma_extract_n_suffix_of("Blade"@, n, "B"@);
}

/// The name of `BladeRot` is read back as `BladeRot`.
proof fn lemma_numbered_name_blade_rot(n: u8)
    ensures
        AttributeView::parse(AttributeView::BladeRot(n).name()) == AttributeView::BladeRot(n),
{
    let s = AttributeView::BladeRot(n).name();
    lemma_dec(n);
    reveal_strlit("A");
    reveal_strlit("AnimationSystem");
    reveal_strlit("AnimationWheel");
    reveal_strlit("B");
    reveal_strlit("Blade");
    reveal_strlit("Blower");
    reveal_strlit("Color");
    reveal_strlit("ColorEffects");
    reveal_strlit("ColorMacro");
    reveal_strlit("Control");
    reveal_strlit("Effects");
    reveal_strlit("Fan");
    reveal_strlit("Focus");
    reveal_strlit("Fog");
    reveal_strlit("Frost");
    reveal_strlit("Gobo");
    reveal_strlit("GoboWheel");
    reveal_strlit("Haze");
    reveal_strlit("MediaContent");
    reveal_strlit("MediaFolder");
    reveal_strlit("ModelContent");
    reveal_strlit("ModelFolder");
    reveal_strlit("Prism");
    reveal_strlit("Rot");
    reveal_strlit("Shutter");
    assert(s[5] == dec(n)[0]);
    lemma_fixed_rejects_digit(s, 5);
    lemma_no_prefix_at(s, "Gobo"@, 0);
    lemma_no_prefix_at(s, "Gobo"@, 0);
    lemma_no_prefix_at(s, "Gobo"@, 0);
    lemma_no_prefix_at(s, "Gobo"@, 0);
    lemma_no_prefix_at(s, "Gobo"@, 0);
    lemma_no_prefix_at(s, "Gobo"@, 0);
    lemma_no_prefix_at(s, "Gobo"@, 0);
    lemma_no_prefix_at(s, "Gobo"@, 0);
    lemma_no_prefix_at(s, "Gobo"@, 0);
    lemma_no_prefix_at(s, "Gobo"@, 0);
    lemma_no_prefix_at(s, "Gobo"@, 0);
    lemma_no_prefix_at(s, "Gobo"@, 0);
    lemma_no_prefix_at(s, "AnimationWheel"@, 0);
    lemma_no_prefix_at(s, "AnimationWheel"@, 0);
    lemma_no_prefix_at(s, "AnimationWheel"@, 0);
    lemma_no_prefix_at(s, "AnimationWheel"@, 0);
    lemma_no_prefix_at(s, "AnimationWheel"@, 0);
    lemma_no_prefix_at(s, "AnimationWheel"@, 0);
    lemma_no_prefix_at(s, "AnimationWheel"@, 0);
    lemma_no_prefix_at(s, "AnimationWheel"@, 0);
    lemma_no_prefix_at(s, "AnimationWheel"@, 0);
    lemma_no_prefix_at(s, "AnimationWheel"@, 0);
    lemma_no_prefix_at(s, "AnimationSystem"@, 0);
    lemma_no_prefix_at(s, "AnimationSystem"@, 0);
    lemma_no_prefix_at(s, "AnimationSystem"@, 0);
    lemma_no_prefix_at(s, "AnimationSystem"@, 0);
    lemma_no_prefix_at(s, "AnimationSystem"@, 0);
    lemma_no_prefix_at(s, "AnimationSystem"@, 0);
    lemma_no_prefix_at(s, "AnimationSystem"@, 0);
    lemma_no_prefix_at(s, "AnimationSystem"@, 0);
    lemma_no_prefix_at(s, "AnimationSystem"@, 0);
    lemma_no_prefix_at(s, "AnimationSystem"@, 0);
    lemma_no_prefix_at(s, "AnimationSystem"@, 0);
    lemma_no_prefix_at(s, "MediaFolder"@, 0);
    lemma_no_prefix_at(s, "MediaContent"@, 0);
    lemma_no_prefix_at(s, "ModelFolder"@, 0);
    lemma_no_prefix_at(s, "ModelContent"@, 0);
    lemma_no_prefix_at(s, "ColorEffects"@, 0);
    lemma_no_prefix_at(s, "Color"@, 0);
    lemma_no_prefix_at(s, "Color"@, 0);
    lemma_no_prefix_at(s, "Color"@, 0);
    lemma_no_prefix_at(s, "Color"@, 0);
    lemma_no_prefix_at(s, "Color"@, 0);
    lemma_no_prefix_at(s, "ColorMacro"@, 0);
    lemma_no_prefix_at(s, "ColorMacro"@, 0);
    lemma_no_prefix_at(s, "Shutter"@, 0);
    lemma_no_prefix_at(s, "Shutter"@, 0);
    lemma_no_prefix_at(s, "Shutter"@, 0);
    lemma_no_prefix_at(s, "Shutter"@, 0);
    lemma_no_prefix_at(s, "Shutter"@, 0);
    lemma_no_prefix_at(s, "Shutter"@, 0);
    lemma_no_prefix_at(s, "Shutter"@, 0);
    lemma_no_prefix_at(s, "Shutter"@, 0);
    lemma_no_prefix_at(s, "Shutter"@, 0);
    lemma_no_prefix_at(s, "Shutter"@, 0);
    lemma_no_prefix_at(s, "Frost"@, 0);
    lemma_no_prefix_at(s, "Frost"@, 0);
    lemma_no_prefix_at(s, "Frost"@, 0);
    lemma_no_prefix_at(s, "Frost"@, 0);
    lemma_no_prefix_at(s, "Prism"@, 0);
    lemma_no_prefix_at(s, "Prism"@, 0);
    lemma_no_prefix_at(s, "Prism"@, 0);
    lemma_no_prefix_at(s, "Prism"@, 0);
    lemma_no_prefix_at(s, "Prism"@, 0);
    lemma_no_prefix_at(s, "Effects"@, 0);
    lemma_no_prefix_at(s, "Effects"@, 0);
    lemma_no_prefix_at(s, "Effects"@, 0);
    lemma_no_prefix_at(s, "Effects"@, 0);
    lemma_no_prefix_at(s, "Effects"@, 0);
    lemma_no_prefix_at(s, "Effects"@, 0);
    lemma_no_prefix_at(s, "Focus"@, 0);
    lemma_no_prefix_at(s, "Focus"@, 0);
    lemma_no_prefix_at(s, "Focus"@, 0);
    lemma_no_prefix_at(s, "Control"@, 0);
    lemma_no_prefix_at(s, "Gobo"@, 0);
    lemma_no_prefix_at(s, "AnimationWheel"@, 0);
    lemma_no_prefix_at(s, "Color"@, 0);
    lemma_no_prefix_at(s, "Fan"@, 0);
    lemma_no_prefix_at(s, "GoboWheel"@, 0);
    lemma_no_prefix_at(s, "Prism"@, 0);
    lemma_no_prefix_at(s, "Frost"@, 0);
    lemma_no_prefix_at(s, "Blower"@, 2);
    lemma_no_prefix_at(s, "Fan"@, 0);
    lemma_no_prefix_at(s, "Fog"@, 0);
    lemma_no_prefix_at(s, "Haze"@, 0);
    lemma_no_suffix_at(s, "Blade"@, "A"@, 0);
    lemma_no_suffix_at(s, "Blade"@, "B"@, 0);
    lemma_extract_n_suffix_of("Blade"@, n, "Rot"@);
}

/// The name of `BladeSoftA` is read back as `BladeSoftA`.
proof fn lemma_numbered_name_blade_soft_a(n: u8)
    ensures
        AttributeView::parse(AttributeView::BladeSoftA(n).name()) == AttributeView::BladeSoftA(n),
{
    let s = AttributeView::BladeSoftA(n).name();
    lemma_dec(n);
    reveal_strlit("A");
    reveal_strlit("AnimationSystem");
    reveal_strlit("AnimationWheel");
    reveal_strlit("Blade");
    reveal_strlit("BladeSoft");
    reveal_strlit("Blower");
    reveal_strlit("Color");
    reveal_strlit("ColorEffects");
    reveal_strlit("ColorMacro");
    reveal_strlit("Control");
    reveal_strlit("Effects");
    reveal_strlit("Fan");
    reveal_strlit("Focus");
    reveal_strlit("Fog");
    reveal_strlit("Frost");
    reveal_strlit("Gobo");
    reveal_strlit("GoboWheel");
    reveal_strlit("Haze");
    reveal_strlit("MediaContent");
    reveal_strlit("MediaFolder");
    reveal_strlit("ModelContent");
    reveal_strlit("ModelFolder");
    reveal_strlit("Prism");
    reveal_strlit("Shutter");
    assert(s[9] == dec(n)[0]);
    lemma_fixed_rejects_digit(s, 9);
    lemma_no_prefix_at(s, "Gobo"@, 0);
    lemma_no_prefix_at(s, "Gobo"@, 0);
    lemma_no_prefix_at(s, "Gobo"@, 0);
    lemma_no_prefix_at(s, "Gobo"@, 0);
    lemma_no_prefix_at(s, "Gobo"@, 0);
    lemma_no_prefix_at(s, "Gobo"@, 0);
    lemma_no_prefix_at(s, "Gobo"@, 0);
    lemma_no_prefix_at(s, "Gobo"@, 0);
    lemma_no_prefix_at(s, "Gobo"@, 0);
    lemma_no_prefix_at(s, "Gobo"@, 0);
    lemma_no_prefix_at(s, "Gobo"@, 0);
    lemma_no_prefix_at(s, "Gobo"@, 0);
    lemma_no_prefix_at(s, "AnimationWheel"@, 0);
    lemma_no_prefix_at(s, "AnimationWheel"@, 0);
    lemma_no_prefix_at(s, "AnimationWheel"@, 0);
    lemma_no_prefix_at(s, "AnimationWheel"@, 0);
    lemma_no_prefix_at(s, "AnimationWheel"@, 0);
    lemma_no_prefix_at(s, "AnimationWheel"@, 0);
    lemma_no_prefix_at(s, "AnimationWheel"@, 0);
    lemma_no_prefix_at(s, "AnimationWheel"@, 0);
    lemma_no_prefix_at(s, "AnimationWheel"@, 0);
    lemma_no_prefix_at(s, "AnimationWheel"@, 0);
    lemma_no_prefix_at(s, "AnimationSystem"@, 0);
    lemma_no_prefix_at(s, "AnimationSystem"@, 0);
    lemma_no_prefix_at(s, "AnimationSystem"@, 0);
    lemma_no_prefix_at(s, "AnimationSystem"@, 0);
    lemma_no_prefix_at(s, "AnimationSystem"@, 0);
    lemma_no_prefix_at(s, "AnimationSystem"@, 0);
    lemma_no_prefix_at(s, "AnimationSystem"@, 0);
    lemma_no_prefix_at(s, "AnimationSystem"@, 0);
    lemma_no_prefix_at(s, "AnimationSystem"@, 0);
    lemma_no_prefix_at(s, "AnimationSystem"@, 0);
    lemma_no_prefix_at(s, "AnimationSystem"@, 0);
    lemma_no_prefix_at(s, "MediaFolder"@, 0);
    lemma_no_prefix_at(s, "MediaContent"@, 0);
    lemma_no_prefix_at(s, "ModelFolder"@, 0);
    lemma_no_prefix_at(s, "ModelContent"@, 0);
    lemma_no_prefix_at(s, "ColorEffects"@, 0);
    lemma_no_prefix_at(s, "Color"@, 0);
    lemma_no_prefix_at(s, "Color"@, 0);
    lemma_no_prefix_at(s, "Color"@, 0);
    lemma_no_prefix_at(s, "Color"@, 0);
    lemma_no_prefix_at(s, "Color"@, 0);
    lemma_no_prefix_at(s, "ColorMacro"@, 0);
    lemma_no_prefix_at(s, "ColorMacro"@, 0);
    lemma_no_prefix_at(s, "Shutter"@, 0);
    lemma_no_prefix_at(s, "Shutter"@, 0);
    lemma_no_prefix_at(s, "Shutter"@, 0);
    lemma_no_prefix_at(s, "Shutter"@, 0);
    lemma_no_prefix_at(s, "Shutter"@, 0);
    lemma_no_prefix_at(s, "Shutter"@, 0);
    lemma_no_prefix_at(s, "Shutter"@, 0);
    lemma_no_prefix_at(s, "Shutter"@, 0);
    lemma_no_prefix_at(s, "Shutter"@, 0);
    lemma_no_prefix_at(s, "Shutter"@, 0);
    lemma_no_prefix_at(s, "Frost"@, 0);
    lemma_no_prefix_at(s, "Frost"@, 0);
    lemma_no_prefix_at(s, "Frost"@, 0);
    lemma_no_prefix_at(s, "Frost"@, 0);
    lemma_no_prefix_at(s, "Prism"@, 0);
    lemma_no_prefix_at(s, "Prism"@, 0);
    lemma_no_prefix_at(s, "Prism"@, 0);
    lemma_no_prefix_at(s, "Prism"@, 0);
    lemma_no_prefix_at(s, "Prism"@, 0);
    lemma_no_prefix_at(s, "Effects"@, 0);
    lemma_no_prefix_at(s, "Effects"@, 0);
    lemma_no_prefix_at(s, "Effects"@, 0);
    lemma_no_prefix_at(s, "Effects"@, 0);
    lemma_no_prefix_at(s, "Effects"@, 0);
    lemma_no_prefix_at(s, "Effects"@, 0);
    lemma_no_prefix_at(s, "Focus"@, 0);
    lemma_no_prefix_at(s, "Focus"@, 0);
    lemma_no_prefix_at(s, "Focus"@, 0);
    lemma_no_prefix_at(s, "Control"@, 0);
    lemma_no_prefix_at(s, "Gobo"@, 0);
    lemma_no_prefix_at(s, "AnimationWheel"@, 0);
    lemma_no_prefix_at(s, "Color"@, 0);
    lemma_no_prefix_at(s, "Fan"@, 0);
    lemma_no_prefix_at(s, "GoboWheel"@, 0);
    lemma_no_prefix_at(s, "Prism"@, 0);
    lemma_no_prefix_at(s, "Frost"@, 0);
    lemma_no_prefix_at(s, "Blower"@, 2);
    lemma_no_prefix_at(s, "Fan"@, 0);
    lemma_no_prefix_at(s, "Fog"@, 0);
    lemma_no_prefix_at(s, "Haze"@, 0);
    lemma_letter_after(s, "Blade"@);
    lemma_letter_after(s, "Blade"@);
    lemma_letter_after(s, "Blade"@);
    lemma_extract_n_suffix_of("BladeSoft"@, n, "A"@);
}

/// The name of `BladeSoftB` is read back as `BladeSoftB`.
proof fn lemma_numbered_name_blade_soft_b(n: u8)
    ensures
        AttributeView::parse(AttributeView::BladeSoftB(n).name()) == AttributeView::BladeSoftB(n),
{
    let s = AttributeView::BladeSoftB(n).name();
    lemma_dec(n);
    reveal_strlit("A");
    reveal_strlit("AnimationSystem");
    reveal_strlit("AnimationWheel");
    reveal_strlit("B");
    reveal_strlit("Blade");
    reveal_strlit("BladeSoft");
    reveal_strlit("Blower");
    reveal_strlit("Color");
    reveal_strlit("ColorEffects");
    reveal_strlit("ColorMacro");
    reveal_strlit("Control");
    reveal_strlit("Effects");
    reveal_strlit("Fan");
    reveal_strlit("Focus");
    reveal_strlit("Fog");
    reveal_strlit("Frost");
    reveal_strlit("Gobo");
    reveal_strlit("GoboWheel");
    reveal_strlit("Haze");
    reveal_strlit("MediaContent");
    reveal_strlit("MediaFolder");
    reveal_strlit("ModelContent");
    reveal_strlit("ModelFolder");
    reveal_strlit("Prism");
    reveal_strlit("Shutter");
    assert(s[9] == dec(n)[0]);
    lemma_fixed_rejects_digit(s, 9);
    lemma_no_prefix_at(s, "Gobo"@, 0);
    lemma_no_prefix_at(s, "Gobo"@, 0);
    lemma_no_prefix_at(s, "Gobo"@, 0);
    lemma_no_prefix_at(s, "Gobo"@, 0);
    lemma_no_prefix_at(s, "Gobo"@, 0);
    lemma_no_prefix_at(s, "Gobo"@, 0);
    lemma_no_prefix_at(s, "Gobo"@, 0);
    lemma_no_prefix_at(s, "Gobo"@, 0);
    lemma_no_prefix_at(s, "Gobo"@, 0);
    lemma_no_prefix_at(s, "Gobo"@, 0);
    lemma_no_prefix_at(s, "Gobo"@, 0);
    lemma_no_prefix_at(s, "Gobo"@, 0);
    lemma_no_prefix_at(s, "AnimationWheel"@, 0);
    lemma_no_prefix_at(s, "AnimationWheel"@, 0);
    lemma_no_prefix_at(s, "AnimationWheel"@, 0);
    lemma_no_prefix_at(s, "AnimationWheel"@, 0);
    lemma_no_prefix_at(s, "AnimationWheel"@, 0);
    lemma_no_prefix_at(s, "AnimationWheel"@, 0);
    lemma_no_prefix_at(s, "AnimationWheel"@, 0);
    lemma_no_prefix_at(s, "AnimationWheel"@, 0);
    lemma_no_prefix_at(s, "AnimationWheel"@, 0);
    lemma_no_prefix_at(s, "AnimationWheel"@, 0);
    lemma_no_prefix_at(s, "AnimationSystem"@, 0);
    lemma_no_prefix_at(s, "AnimationSystem"@, 0);
    lemma_no_prefix_at(s, "AnimationSystem"@, 0);
    lemma_no_prefix_at(s, "AnimationSystem"@, 0);
    lemma_no_prefix_at(s, "AnimationSystem"@, 0);
    lemma_no_prefix_at(s, "AnimationSystem"@, 0);
    lemma_no_prefix_at(s, "AnimationSystem"@, 0);
    lemma_no_prefix_at(s, "AnimationSystem"@, 0);
    lemma_no_prefix_at(s, "AnimationSystem"@, 0);
    lemma_no_prefix_at(s, "AnimationSystem"@, 0);
    lemma_no_prefix_at(s, "AnimationSystem"@, 0);
    lemma_no_prefix_at(s, "MediaFolder"@, 0);
    lemma_no_prefix_at(s, "MediaContent"@, 0);
    lemma_no_prefix_at(s, "ModelFolder"@, 0);
    lemma_no_prefix_at(s, "ModelContent"@, 0);
    lemma_no_prefix_at(s, "ColorEffects"@, 0);
    lemma_no_prefix_at(s, "Color"@, 0);
    lemma_no_prefix_at(s, "Color"@, 0);
    lemma_no_prefix_at(s, "Color"@, 0);
    lemma_no_prefix_at(s, "Color"@, 0);
    lemma_no_prefix_at(s, "Color"@, 0);
    lemma_no_prefix_at(s, "ColorMacro"@, 0);
    lemma_no_prefix_at(s, "ColorMacro"@, 0);
    lemma_no_prefix_at(s, "Shutter"@, 0);
    lemma_no_prefix_at(s, "Shutter"@, 0);
    lemma_no_prefix_at(s, "Shutter"@, 0);
    lemma_no_prefix_at(s, "Shutter"@, 0);
    lemma_no_prefix_at(s, "Shutter"@, 0);
    lemma_no_prefix_at(s, "Shutter"@, 0);
    lemma_no_prefix_at(s, "Shutter"@, 0);
    lemma_no_prefix_at(s, "Shutter"@, 0);
    lemma_no_prefix_at(s, "Shutter"@, 0);
    lemma_no_prefix_at(s, "Shutter"@, 0);
    lemma_no_prefix_at(s, "Frost"@, 0);
    lemma_no_prefix_at(s, "Frost"@, 0);
    lemma_no_prefix_at(s, "Frost"@, 0);
    lemma_no_prefix_at(s, "Frost"@, 0);
    lemma_no_prefix_at(s, "Prism"@, 0);
    lemma_no_prefix_at(s, "Prism"@, 0);
    lemma_no_prefix_at(s, "Prism"@, 0);
    lemma_no_prefix_at(s, "Prism"@, 0);
    lemma_no_prefix_at(s, "Prism"@, 0);
    lemma_no_prefix_at(s, "Effects"@, 0);
    lemma_no_prefix_at(s, "Effects"@, 0);
    lemma_no_prefix_at(s, "Effects"@, 0);
    lemma_no_prefix_at(s, "Effects"@, 0);
    lemma_no_prefix_at(s, "Effects"@, 0);
    lemma_no_prefix_at(s, "Effects"@, 0);
    lemma_no_prefix_at(s, "Focus"@, 0);
    lemma_no_prefix_at(s, "Focus"@, 0);
    lemma_no_prefix_at(s, "Focus"@, 0);
    lemma_no_prefix_at(s, "Control"@, 0);
    lemma_no_prefix_at(s, "Gobo"@, 0);
    lemma_no_prefix_at(s, "AnimationWheel"@, 0);
    lemma_no_prefix_at(s, "Color"@, 0);
    lemma_no_prefix_at(s, "Fan"@, 0);
    lemma_no_prefix_at(s, "GoboWheel"@, 0);
    lemma_no_prefix_at(s, "Prism"@, 0);
    lemma_no_prefix_at(s, "Frost"@, 0);
    lemma_no_prefix_at(s, "Blower"@, 2);
    lemma_no_prefix_at(s, "Fan"@, 0);
    lemma_no_prefix_at(s, "Fog"@, 0);
    lemma_no_prefix_at(s, "Haze"@, 0);
    lemma_letter_after(s, "Blade"@);
    lemma_letter_after(s, "Blade"@);
    lemma_letter_after(s, "Blade"@);
    lemma_no_suffix_at(s, "BladeSoft"@, "A"@, 0);
    lemma_extract_n_suffix_of("BladeSoft"@, n, "B"@);
}

/// The name of `KeyStoneA` is read back as `KeyStoneA`.
proof fn lemma_numbered_name_key_stone_a(n: u8)
    ensures
        AttributeView::parse(AttributeView::KeyStoneA(n).name()) == AttributeView::KeyStoneA(n),
{
    let s = AttributeView::KeyStoneA(n).name();
    lemma_dec(n);
    reveal_strlit("A");
    reveal_strlit("AnimationSystem");
    reveal_strlit("AnimationWheel");
    reveal_strlit("Blade");
    reveal_strlit("BladeSoft");
    reveal_strlit("Blower");
    reveal_strlit("Color");
    reveal_strlit("ColorEffects");
    reveal_strlit("ColorMacro");
    reveal_strlit("Control");
    reveal_strlit("Effects");
    reveal_strlit("Fan");
    reveal_strlit("Focus");
    reveal_strlit("Fog");
    reveal_strlit("Frost");
    reveal_strlit("Gobo");
    reveal_strlit("GoboWheel");
    reveal_strlit("Haze");
    reveal_strlit("KeyStone");
    reveal_strlit("MediaContent");
    reveal_strlit("MediaFolder");
    reveal_strlit("ModelContent");
    reveal_strlit("ModelFolder");
    reveal_strlit("Prism");
    reveal_strlit("Shutter");
    assert(s[8] == dec(n)[0]);
    lemma_fixed_rejects_digit(s, 8);
    lemma_no_prefix_at(s, "Gobo"@, 0);
    lemma_no_prefix_at(s, "Gobo"@, 0);
    lemma_no_prefix_at(s, "Gobo"@, 0);
    lemma_no_prefix_at(s, "Gobo"@, 0);
    lemma_no_prefix_at(s, "Gobo"@, 0);
    lemma_no_prefix_at(s, "Gobo"@, 0);
    lemma_no_prefix_at(s, "Gobo"@, 0);
    lemma_no_prefix_at(s, "Gobo"@, 0);
    lemma_no_prefix_at(s, "Gobo"@, 0);
    lemma_no_prefix_at(s, "Gobo"@, 0);
    lemma_no_prefix_at(s, "Gobo"@, 0);
    lemma_no_prefix_at(s, "Gobo"@, 0);
    lemma_no_prefix_at(s, "AnimationWheel"@, 0);
    lemma_no_prefix_at(s, "AnimationWheel"@, 0);
    lemma_no_prefix_at(s, "AnimationWheel"@, 0);
    lemma_no_prefix_at(s, "AnimationWheel"@, 0);
    lemma_no_prefix_at(s, "AnimationWheel"@, 0);
    lemma_no_prefix_at(s, "AnimationWheel"@, 0);
    lemma_no_prefix_at(s, "AnimationWheel"@, 0);
    lemma_no_prefix_at(s, "AnimationWheel"@, 0);
    lemma_no_prefix_at(s, "AnimationWheel"@, 0);
    lemma_no_prefix_at(s, "AnimationWheel"@, 0);
    lemma_no_prefix_at(s, "AnimationSystem"@, 0);
    lemma_no_prefix_at(s, "AnimationSystem"@, 0);
    lemma_no_prefix_at(s, "AnimationSystem"@, 0);
    lemma_no_prefix_at(s, "AnimationSystem"@, 0);
    lemma_no_prefix_at(s, "AnimationSystem"@, 0);
    lemma_no_prefix_at(s, "AnimationSystem"@, 0);
    lemma_no_prefix_at(s, "AnimationSystem"@, 0);
    lemma_no_prefix_at(s, "AnimationSystem"@, 0);
    lemma_no_prefix_at(s, "AnimationSystem"@, 0);
    lemma_no_prefix_at(s, "AnimationSystem"@, 0);
    lemma_no_prefix_at(s, "AnimationSystem"@, 0);
    lemma_no_prefix_at(s, "MediaFolder"@, 0);
    lemma_no_prefix_at(s, "MediaContent"@, 0);
    lemma_no_prefix_at(s, "ModelFolder"@, 0);
    lemma_no_prefix_at(s, "ModelContent"@, 0);
    lemma_no_prefix_at(s, "ColorEffects"@, 0);
    lemma_no_prefix_at(s, "Color"@, 0);
    lemma_no_prefix_at(s, "Color"@, 0);
    lemma_no_prefix_at(s, "Color"@, 0);
    lemma_no_prefix_at(s, "Color"@, 0);
    lemma_no_prefix_at(s, "Color"@, 0);
    lemma_no_prefix_at(s, "ColorMacro"@, 0);
    lemma_no_prefix_at(s, "ColorMacro"@, 0);
    lemma_no_prefix_at(s, "Shutter"@, 0);
    lemma_no_prefix_at(s, "Shutter"@, 0);
    lemma_no_prefix_at(s, "Shutter"@, 0);
    lemma_no_prefix_at(s, "Shutter"@, 0);
    lemma_no_prefix_at(s, "Shutter"@, 0);
    lemma_no_prefix_at(s, "Shutter"@, 0);
    lemma_no_prefix_at(s, "Shutter"@, 0);
    lemma_no_prefix_at(s, "Shutter"@, 0);
    lemma_no_prefix_at(s, "Shutter"@, 0);
    lemma_no_prefix_at(s, "Shutter"@, 0);
    lemma_no_prefix_at(s, "Frost"@, 0);
    lemma_no_prefix_at(s, "Frost"@, 0);
    lemma_no_prefix_at(s, "Frost"@, 0);
    lemma_no_prefix_at(s, "Frost"@, 0);
    lemma_no_prefix_at(s, "Prism"@, 0);
    lemma_no_prefix_at(s, "Prism"@, 0);
    lemma_no_prefix_at(s, "Prism"@, 0);
    lemma_no_prefix_at(s, "Prism"@, 0);
    lemma_no_prefix_at(s, "Prism"@, 0);
    lemma_no_prefix_at(s, "Effects"@, 0);
    lemma_no_prefix_at(s, "Effects"@, 0);
    lemma_no_prefix_at(s, "Effects"@, 0);
    lemma_no_prefix_at(s, "Effects"@, 0);
    lemma_no_prefix_at(s, "Effects"@, 0);
    lemma_no_prefix_at(s, "Effects"@, 0);
    lemma_no_prefix_at(s, "Focus"@, 0);
    lemma_no_prefix_at(s, "Focus"@, 0);
    lemma_no_prefix_at(s, "Focus"@, 0);
    lemma_no_prefix_at(s, "Control"@, 0);
    lemma_no_prefix_at(s, "Gobo"@, 0);
    lemma_no_prefix_at(s, "AnimationWheel"@, 0);
    lemma_no_prefix_at(s, "Color"@, 0);
    lemma_no_prefix_at(s, "Fan"@, 0);
    lemma_no_prefix_at(s, "GoboWheel"@, 0);
    lemma_no_prefix_at(s, "Prism"@, 0);
    lemma_no_prefix_at(s, "Frost"@, 0);
    lemma_no_prefix_at(s, "Blower"@, 0);
    lemma_no_prefix_at(s, "Fan"@, 0);
    lemma_no_prefix_at(s, "Fog"@, 0);
    lemma_no_prefix_at(s, "Haze"@, 0);
    lemma_no_prefix_at(s, "Blade"@, 0);
    lemma_no_prefix_at(s, "Blade"@, 0);
    lemma_no_prefix_at(s, "Blade"@, 0);
    lemma_no_prefix_at(s, "BladeSoft"@, 0);
    lemma_no_prefix_at(s, "BladeSoft"@, 0);
    lemma_extract_n_suffix_of("KeyStone"@, n, "A"@);
}

/// The name of `KeyStoneB` is read back as `KeyStoneB`.
proof fn lemma_numbered_name_key_stone_b(n: u8)
    ensures
        AttributeView::parse(AttributeView::KeyStoneB(n).name()) == AttributeView::KeyStoneB(n),
{
    let s = AttributeView::KeyStoneB(n).name();
    lemma_dec(n);
    reveal_strlit("A");
    reveal_strlit("AnimationSystem");
    reveal_strlit("AnimationWheel");
    reveal_strlit("B");
    reveal_strlit("Blade");
    reveal_strlit("BladeSoft");
    reveal_strlit("Blower");
    reveal_strlit("Color");
    reveal_strlit("ColorEffects");
    reveal_strlit("ColorMacro");
    reveal_strlit("Control");
    reveal_strlit("Effects");
    reveal_strlit("Fan");
    reveal_strlit("Focus");
    reveal_strlit("Fog");
    reveal_strlit("Frost");
    reveal_strlit("Gobo");
    reveal_strlit("GoboWheel");
    reveal_strlit("Haze");
    reveal_strlit("KeyStone");
    reveal_strlit("MediaContent");
    reveal_strlit("MediaFolder");
    reveal_strlit("ModelContent");
    reveal_strlit("ModelFolder");
    reveal_strlit("Prism");
    reveal_strlit("Shutter");
    assert(s[8] == dec(n)[0]);
    lemma_fixed_rejects_digit(s, 8);
    lemma_no_prefix_at(s, "Gobo"@, 0);
    lemma_no_prefix_at(s, "Gobo"@, 0);
    lemma_no_prefix_at(s, "Gobo"@, 0);
    lemma_no_prefix_at(s, "Gobo"@, 0);
    lemma_no_prefix_at(s, "Gobo"@, 0);
    lemma_no_prefix_at(s, "Gobo"@, 0);
    lemma_no_prefix_at(s, "Gobo"@, 0);
    lemma_no_prefix_at(s, "Gobo"@, 0);
    lemma_no_prefix_at(s, "Gobo"@, 0);
    lemma_no_prefix_at(s, "Gobo"@, 0);
    lemma_no_prefix_at(s, "Gobo"@, 0);
    lemma_no_prefix_at(s, "Gobo"@, 0);
    lemma_no_prefix_at(s, "AnimationWheel"@, 0);
    lemma_no_prefix_at(s, "AnimationWheel"@, 0);
    lemma_no_prefix_at(s, "AnimationWheel"@, 0);
    lemma_no_prefix_at(s, "AnimationWheel"@, 0);
    lemma_no_prefix_at(s, "AnimationWheel"@, 0);
    lemma_no_prefix_at(s, "AnimationWheel"@, 0);
    lemma_no_prefix_at(s, "AnimationWheel"@, 0);
    lemma_no_prefix_at(s, "AnimationWheel"@, 0);
    lemma_no_prefix_at(s, "AnimationWheel"@, 0);
    lemma_no_prefix_at(s, "AnimationWheel"@, 0);
    lemma_no_prefix_at(s, "AnimationSystem"@, 0);
    lemma_no_prefix_at(s, "AnimationSystem"@, 0);
    lemma_no_prefix_at(s, "AnimationSystem"@, 0);
    lemma_no_prefix_at(s, "AnimationSystem"@, 0);
    lemma_no_prefix_at(s, "AnimationSystem"@, 0);
    lemma_no_prefix_at(s, "AnimationSystem"@, 0);
    lemma_no_prefix_at(s, "AnimationSystem"@, 0);
    lemma_no_prefix_at(s, "AnimationSystem"@, 0);
    lemma_no_prefix_at(s, "AnimationSystem"@, 0);
    lemma_no_prefix_at(s, "AnimationSystem"@, 0);
    lemma_no_prefix_at(s, "AnimationSystem"@, 0);
    lemma_no_prefix_at(s, "MediaFolder"@, 0);
    lemma_no_prefix_at(s, "MediaContent"@, 0);
    lemma_no_prefix_at(s, "ModelFolder"@, 0);
    lemma_no_prefix_at(s, "ModelContent"@, 0);
    lemma_no_prefix_at(s, "ColorEffects"@, 0);
    lemma_no_prefix_at(s, "Color"@, 0);
    lemma_no_prefix_at(s, "Color"@, 0);
    lemma_no_prefix_at(s, "Color"@, 0);
    lemma_no_prefix_at(s, "Color"@, 0);
    lemma_no_prefix_at(s, "Color"@, 0);
    lemma_no_prefix_at(s, "ColorMacro"@, 0);
    lemma_no_prefix_at(s, "ColorMacro"@, 0);
    lemma_no_prefix_at(s, "Shutter"@, 0);
    lemma_no_prefix_at(s, "Shutter"@, 0);
    lemma_no_prefix_at(s, "Shutter"@, 0);
    lemma_no_prefix_at(s, "Shutter"@, 0);
    lemma_no_prefix_at(s, "Shutter"@, 0);
    lemma_no_prefix_at(s, "Shutter"@, 0);
    lemma_no_prefix_at(s, "Shutter"@, 0);
    lemma_no_prefix_at(s, "Shutter"@, 0);
    lemma_no_prefix_at(s, "Shutter"@, 0);
    lemma_no_prefix_at(s, "Shutter"@, 0);
    lemma_no_prefix_at(s, "Frost"@, 0);
    lemma_no_prefix_at(s, "Frost"@, 0);
    lemma_no_prefix_at(s, "Frost"@, 0);
    lemma_no_prefix_at(s, "Frost"@, 0);
    lemma_no_prefix_at(s, "Prism"@, 0);
    lemma_no_prefix_at(s, "Prism"@, 0);
    lemma_no_prefix_at(s, "Prism"@, 0);
    lemma_no_prefix_at(s, "Prism"@, 0);
    lemma_no_prefix_at(s, "Prism"@, 0);
    lemma_no_prefix_at(s, "Effects"@, 0);
    lemma_no_prefix_at(s, "Effects"@, 0);
    lemma_no_prefix_at(s, "Effects"@, 0);
    lemma_no_prefix_at(s, "Effects"@, 0);
    lemma_no_prefix_at(s, "Effects"@, 0);
    lemma_no_prefix_at(s, "Effects"@, 0);
    lemma_no_prefix_at(s, "Focus"@, 0);
    lemma_no_prefix_at(s, "Focus"@, 0);
    lemma_no_prefix_at(s, "Focus"@, 0);
    lemma_no_prefix_at(s, "Control"@, 0);
    lemma_no_prefix_at(s, "Gobo"@, 0);
    lemma_no_prefix_at(s, "AnimationWheel"@, 0);
    lemma_no_prefix_at(s, "Color"@, 0);
    lemma_no_prefix_at(s, "Fan"@, 0);
    lemma_no_prefix_at(s, "GoboWheel"@, 0);
    lemma_no_prefix_at(s, "Prism"@, 0);
    lemma_no_prefix_at(s, "Frost"@, 0);
    lemma_no_prefix_at(s, "Blower"@, 0);
    lemma_no_prefix_at(s, "Fan"@, 0);
    lemma_no_prefix_at(s, "Fog"@, 0);
    lemma_no_prefix_at(s, "Haze"@, 0);
    lemma_no_prefix_at(s, "Blade"@, 0);
    lemma_no_prefix_at(s, "Blade"@, 0);
    lemma_no_prefix_at(s, "Blade"@, 0);
    lemma_no_prefix_at(s, "BladeSoft"@, 0);
    lemma_no_prefix_at(s, "BladeSoft"@, 0);
    lemma_no_suffix_at(s, "KeyStone"@, "A"@, 0);
    lemma_extract_n_suffix_of("KeyStone"@, n, "B"@);
}

/// The name of `VideoEffectType` is read back as `VideoEffectType`.
proof fn lemma_numbered_name_video_effect_type(n: u8)
    ensures
        AttributeView::parse(AttributeView::VideoEffectType(n).name()) == AttributeView::VideoEffectType(n),
{
    let s = AttributeView::VideoEffectType(n).name();
    lemma_dec(n);
    reveal_strlit("AnimationSystem");
    reveal_strlit("AnimationWheel");
    reveal_strlit("Blade");
    reveal_strlit("BladeSoft");
    reveal_strlit("Blower");
    reveal_strlit("Color");
    reveal_strlit("ColorEffects");
    reveal_strlit("ColorMacro");
    reveal_strlit("Control");
    reveal_strlit("Effects");
    reveal_strlit("Fan");
    reveal_strlit("Focus");
    reveal_strlit("Fog");
    reveal_strlit("Frost");
    reveal_strlit("Gobo");
    reveal_strlit("GoboWheel");
    reveal_strlit("Haze");
    reveal_strlit("KeyStone");
    reveal_strlit("MediaContent");
    reveal_strlit("MediaFolder");
    reveal_strlit("ModelContent");
    reveal_strlit("ModelFolder");
    reveal_strlit("Prism");
    reveal_strlit("Shutter");
    reveal_strlit("Type");
    reveal_strlit("VideoEffect");
    assert(s[11] == dec(n)[0]);
    lemma_fixed_rejects_digit(s, 11);
    lemma_no_prefix_at(s, "Gobo"@, 0);
    lemma_no_prefix_at(s, "Gobo"@, 0);
    lemma_no_prefix_at(s, "Gobo"@, 0);
    lemma_no_prefix_at(s, "Gobo"@, 0);
    lemma_no_prefix_at(s, "Gobo"@, 0);
    lemma_no_prefix_at(s, "Gobo"@, 0);
    lemma_no_prefix_at(s, "Gobo"@, 0);
    lemma_no_prefix_at(s, "Gobo"@, 0);
    lemma_no_prefix_at(s, "Gobo"@, 0);
    lemma_no_prefix_at(s, "Gobo"@, 0);
    lemma_no_prefix_at(s, "Gobo"@, 0);
    lemma_no_prefix_at(s, "Gobo"@, 0);
    lemma_no_prefix_at(s, "AnimationWheel"@, 0);
    lemma_no_prefix_at(s, "AnimationWheel"@, 0);
    lemma_no_prefix_at(s, "AnimationWheel"@, 0);
    lemma_no_prefix_at(s, "AnimationWheel"@, 0);
    lemma_no_prefix_at(s, "AnimationWheel"@, 0);
    lemma_no_prefix_at(s, "AnimationWheel"@, 0);
    lemma_no_prefix_at(s, "AnimationWheel"@, 0);
    lemma_no_prefix_at(s, "AnimationWheel"@, 0);
    lemma_no_prefix_at(s, "AnimationWheel"@, 0);
    lemma_no_prefix_at(s, "AnimationWheel"@, 0);
    lemma_no_prefix_at(s, "AnimationSystem"@, 0);
    lemma_no_prefix_at(s, "AnimationSystem"@, 0);
    lemma_no_prefix_at(s, "AnimationSystem"@, 0);
    lemma_no_prefix_at(s, "AnimationSystem"@, 0);
    lemma_no_prefix_at(s, "AnimationSystem"@, 0);
    lemma_no_prefix_at(s, "AnimationSystem"@, 0);
    lemma_no_prefix_at(s, "AnimationSystem"@, 0);
    lemma_no_prefix_at(s, "AnimationSystem"@, 0);
    lemma_no_prefix_at(s, "AnimationSystem"@, 0);
    lemma_no_prefix_at(s, "AnimationSystem"@, 0);
    lemma_no_prefix_at(s, "AnimationSystem"@, 0);
    lemma_no_prefix_at(s, "MediaFolder"@, 0);
    lemma_no_prefix_at(s, "MediaContent"@, 0);
    lemma_no_prefix_at(s, "ModelFolder"@, 0);
    lemma_no_prefix_at(s, "ModelContent"@, 0);
    lemma_no_prefix_at(s, "ColorEffects"@, 0);
    lemma_no_prefix_at(s, "Color"@, 0);
    lemma_no_prefix_at(s, "Color"@, 0);
    lemma_no_prefix_at(s, "Color"@, 0);
    lemma_no_prefix_at(s, "Color"@, 0);
    lemma_no_prefix_at(s, "Color"@, 0);
    lemma_no_prefix_at(s, "ColorMacro"@, 0);
    lemma_no_prefix_at(s, "ColorMacro"@, 0);
    lemma_no_prefix_at(s, "Shutter"@, 0);
    lemma_no_prefix_at(s, "Shutter"@, 0);
    lemma_no_prefix_at(s, "Shutter"@, 0);
    lemma_no_prefix_at(s, "Shutter"@, 0);
    lemma_no_prefix_at(s, "Shutter"@, 0);
    lemma_no_prefix_at(s, "Shutter"@, 0);
    lemma_no_prefix_at(s, "Shutter"@, 0);
    lemma_no_prefix_at(s, "Shutter"@, 0);
    lemma_no_prefix_at(s, "Shutter"@, 0);
    lemma_no_prefix_at(s, "Shutter"@, 0);
    lemma_no_prefix_at(s, "Frost"@, 0);
    lemma_no_prefix_at(s, "Frost"@, 0);
    lemma_no_prefix_at(s, "Frost"@, 0);
    lemma_no_prefix_at(s, "Frost"@, 0);
    lemma_no_prefix_at(s, "Prism"@, 0);
    lemma_no_prefix_at(s, "Prism"@, 0);
    lemma_no_prefix_at(s, "Prism"@, 0);
    lemma_no_prefix_at(s, "Prism"@, 0);
    lemma_no_prefix_at(s, "Prism"@, 0);
    lemma_no_prefix_at(s, "Effects"@, 0);
    lemma_no_prefix_at(s, "Effects"@, 0);
    lemma_no_prefix_at(s, "Effects"@, 0);
    lemma_no_prefix_at(s, "Effects"@, 0);
    lemma_no_prefix_at(s, "Effects"@, 0);
    lemma_no_prefix_at(s, "Effects"@, 0);
    lemma_no_prefix_at(s, "Focus"@, 0);
    lemma_no_prefix_at(s, "Focus"@, 0);
    lemma_no_prefix_at(s, "Focus"@, 0);
    lemma_no_prefix_at(s, "Control"@, 0);
    lemma_no_prefix_at(s, "Gobo"@, 0);
    lemma_no_prefix_at(s, "AnimationWheel"@, 0);
    lemma_no_prefix_at(s, "Color"@, 0);
    lemma_no_prefix_at(s, "Fan"@, 0);
    lemma_no_prefix_at(s, "GoboWheel"@, 0);
    lemma_no_prefix_at(s, "Prism"@, 0);
    lemma_no_prefix_at(s, "Frost"@, 0);
    lemma_no_prefix_at(s, "Blower"@, 0);
    lemma_no_prefix_at(s, "Fan"@, 0);
    lemma_no_prefix_at(s, "Fog"@, 0);
    lemma_no_prefix_at(s, "Haze"@, 0);
    lemma_no_prefix_at(s, "Blade"@, 0);
    lemma_no_prefix_at(s, "Blade"@, 0);
    lemma_no_prefix_at(s, "Blade"@, 0);
    lemma_no_prefix_at(s, "BladeSoft"@, 0);
    lemma_no_prefix_at(s, "BladeSoft"@, 0);
    lemma_no_prefix_at(s, "KeyStone"@, 0);
    lemma_no_prefix_at(s, "KeyStone"@, 0);
    lemma_extract_n_suffix_of("VideoEffect"@, n, "Type"@);
}

/// The name of `VideoEffectParameter` is read back as `VideoEffectParameter`.
proof fn lemma_numbered_name_video_effect_parameter(n: u8, m: u8)
    ensures
        AttributeView::parse(AttributeView::VideoEffectParameter(n, m).name()) == AttributeView::VideoEffectParameter(n, m),
{
    let s = AttributeView::VideoEffectParameter(n, m).name();
    lemma_dec(n);
    lemma_dec(m);
    reveal_strlit("AnimationSystem");
    reveal_strlit("AnimationWheel");
    reveal_strlit("Blade");
    reveal_strlit("BladeSoft");
    reveal_strlit("Blower");
    reveal_strlit("Color");
    reveal_strlit("ColorEffects");
    reveal_strlit("ColorMacro");
    reveal_strlit("Control");
    reveal_strlit("Effects");
    reveal_strlit("Fan");
    reveal_strlit("Focus");
    reveal_strlit("Fog");
    reveal_strlit("Frost");
    reveal_strlit("Gobo");
    reveal_strlit("GoboWheel");
    reveal_strlit("Haze");
    reveal_strlit("KeyStone");
    reveal_strlit("MediaContent");
    reveal_strlit("MediaFolder");
    reveal_strlit("ModelContent");
    reveal_strlit("ModelFolder");
    reveal_strlit("Parameter");
    reveal_strlit("Prism");
    reveal_strlit("Shutter");
    reveal_strlit("Type");
    reveal_strlit("VideoEffect");
    assert(s[11] == dec(n)[0]);
    lemma_fixed_rejects_digit(s, 11);
    lemma_no_prefix_at(s, "Gobo"@, 0);
    lemma_no_prefix_at(s, "Gobo"@, 0);
    lemma_no_prefix_at(s, "Gobo"@, 0);
    lemma_no_prefix_at(s, "Gobo"@, 0);
    lemma_no_prefix_at(s, "Gobo"@, 0);
    lemma_no_prefix_at(s, "Gobo"@, 0);
    lemma_no_prefix_at(s, "Gobo"@, 0);
    lemma_no_prefix_at(s, "Gobo"@, 0);
    lemma_no_prefix_at(s, "Gobo"@, 0);
    lemma_no_prefix_at(s, "Gobo"@, 0);
    lemma_no_prefix_at(s, "Gobo"@, 0);
    lemma_no_prefix_at(s, "Gobo"@, 0);
    lemma_no_prefix_at(s, "AnimationWheel"@, 0);
    lemma_no_prefix_at(s, "AnimationWheel"@, 0);
    lemma_no_prefix_at(s, "AnimationWheel"@, 0);
    lemma_no_prefix_at(s, "AnimationWheel"@, 0);
    lemma_no_prefix_at(s, "AnimationWheel"@, 0);
    lemma_no_prefix_at(s, "AnimationWheel"@, 0);
    lemma_no_prefix_at(s, "AnimationWheel"@, 0);
    lemma_no_prefix_at(s, "AnimationWheel"@, 0);
    lemma_no_prefix_at(s, "AnimationWheel"@, 0);
    lemma_no_prefix_at(s, "AnimationWheel"@, 0);
    lemma_no_prefix_at(s, "AnimationSystem"@, 0);
    lemma_no_prefix_at(s, "AnimationSystem"@, 0);
    lemma_no_prefix_at(s, "AnimationSystem"@, 0);
    lemma_no_prefix_at(s, "AnimationSystem"@, 0);
    lemma_no_prefix_at(s, "AnimationSystem"@, 0);
    lemma_no_prefix_at(s, "AnimationSystem"@, 0);
    lemma_no_prefix_at(s, "AnimationSystem"@, 0);
    lemma_no_prefix_at(s, "AnimationSystem"@, 0);
    lemma_no_prefix_at(s, "AnimationSystem"@, 0);
    lemma_no_prefix_at(s, "AnimationSystem"@, 0);
    lemma_no_prefix_at(s, "AnimationSystem"@, 0);
    lemma_no_prefix_at(s, "MediaFolder"@, 0);
    lemma_no_prefix_at(s, "MediaContent"@, 0);
    lemma_no_prefix_at(s, "ModelFolder"@, 0);
    lemma_no_prefix_at(s, "ModelContent"@, 0);
    lemma_no_prefix_at(s, "ColorEffects"@, 0);
    lemma_no_prefix_at(s, "Color"@, 0);
    lemma_no_prefix_at(s, "Color"@, 0);
    lemma_no_prefix_at(s, "Color"@, 0);
    lemma_no_prefix_at(s, "Color"@, 0);
    lemma_no_prefix_at(s, "Color"@, 0);
    lemma_no_prefix_at(s, "ColorMacro"@, 0);
    lemma_no_prefix_at(s, "ColorMacro"@, 0);
    lemma_no_prefix_at(s, "Shutter"@, 0);
    lemma_no_prefix_at(s, "Shutter"@, 0);
    lemma_no_prefix_at(s, "Shutter"@, 0);
    lemma_no_prefix_at(s, "Shutter"@, 0);
    lemma_no_prefix_at(s, "Shutter"@, 0);
    lemma_no_prefix_at(s, "Shutter"@, 0);
    lemma_no_prefix_at(s, "Shutter"@, 0);
    lemma_no_prefix_at(s, "Shutter"@, 0);
    lemma_no_prefix_at(s, "Shutter"@, 0);
    lemma_no_prefix_at(s, "Shutter"@, 0);
    lemma_no_prefix_at(s, "Frost"@, 0);
    lemma_no_prefix_at(s, "Frost"@, 0);
    lemma_no_prefix_at(s, "Frost"@, 0);
    lemma_no_prefix_at(s, "Frost"@, 0);
    lemma_no_prefix_at(s, "Prism"@, 0);
    lemma_no_prefix_at(s, "Prism"@, 0);
    lemma_no_prefix_at(s, "Prism"@, 0);
    lemma_no_prefix_at(s, "Prism"@, 0);
    lemma_no_prefix_at(s, "Prism"@, 0);
    lemma_no_prefix_at(s, "Effects"@, 0);
    lemma_no_prefix_at(s, "Effects"@, 0);
    lemma_no_prefix_at(s, "Effects"@, 0);
    lemma_no_prefix_at(s, "Effects"@, 0);
    lemma_no_prefix_at(s, "Effects"@, 0);
    lemma_no_prefix_at(s, "Effects"@, 0);
    lemma_no_prefix_at(s, "Focus"@, 0);
    lemma_no_prefix_at(s, "Focus"@, 0);
    lemma_no_prefix_at(s, "Focus"@, 0);
    lemma_no_prefix_at(s, "Control"@, 0);
    lemma_no_prefix_at(s, "Gobo"@, 0);
    lemma_no_prefix_at(s, "AnimationWheel"@, 0);
    lemma_no_prefix_at(s, "Color"@, 0);
    lemma_no_prefix_at(s, "Fan"@, 0);
    lemma_no_prefix_at(s, "GoboWheel"@, 0);
    lemma_no_prefix_at(s, "Prism"@, 0);
    lemma_no_prefix_at(s, "Frost"@, 0);
    lemma_no_prefix_at(s, "Blower"@, 0);
    lemma_no_prefix_at(s, "Fan"@, 0);
    lemma_no_prefix_at(s, "Fog"@, 0);
    lemma_no_prefix_at(s, "Haze"@, 0);
    lemma_no_prefix_at(s, "Blade"@, 0);
    lemma_no_prefix_at(s, "Blade"@, 0);
    lemma_no_prefix_at(s, "Blade"@, 0);
    lemma_no_prefix_at(s, "BladeSoft"@, 0);
    lemma_no_prefix_at(s, "BladeSoft"@, 0);
    lemma_no_prefix_at(s, "KeyStone"@, 0);
    lemma_no_prefix_at(s, "KeyStone"@, 0);
    lemma_no_suffix_at(s, "VideoEffect"@, "Type"@, 3);
    lemma_extract_n_m_of("VideoEffect"@, n, "Parameter"@, m);
}

/// The name of `VideoCamera` is read back as `VideoCamera`.
proof fn lemma_numbered_name_video_camera(n: u8)
    ensures
        AttributeView::parse(AttributeView::VideoCamera(n).name()) == AttributeView::VideoCamera(n),
{
    let s = AttributeView::VideoCamera(n).name();
    lemma_dec(n);
    reveal_strlit("AnimationSystem");
    reveal_strlit("AnimationWheel");
    reveal_strlit("Blade");
    reveal_strlit("BladeSoft");
    reveal_strlit("Blower");
    reveal_strlit("Color");
    reveal_strlit("ColorEffects");
    reveal_strlit("ColorMacro");
    reveal_strlit("Control");
    reveal_strlit("Effects");
    reveal_strlit("Fan");
    reveal_strlit("Focus");
    reveal_strlit("Fog");
    reveal_strlit("Frost");
    reveal_strlit("Gobo");
    reveal_strlit("GoboWheel");
    reveal_strlit("Haze");
    reveal_strlit("KeyStone");
    reveal_strlit("MediaContent");
    reveal_strlit("MediaFolder");
    reveal_strlit("ModelContent");
    reveal_strlit("ModelFolder");
    reveal_strlit("Prism");
    reveal_strlit("Shutter");
    reveal_strlit("VideoCamera");
    reveal_strlit("VideoEffect");
    assert(s[11] == dec(n)[0]);
    lemma_fixed_rejects_digit(s, 11);
    lemma_no_prefix_at(s, "Gobo"@, 0);
    lemma_no_prefix_at(s, "Gobo"@, 0);
    lemma_no_prefix_at(s, "Gobo"@, 0);
    lemma_no_prefix_at(s, "Gobo"@, 0);
    lemma_no_prefix_at(s, "Gobo"@, 0);
    lemma_no_prefix_at(s, "Gobo"@, 0);
    lemma_no_prefix_at(s, "Gobo"@, 0);
    lemma_no_prefix_at(s, "Gobo"@, 0);
    lemma_no_prefix_at(s, "Gobo"@, 0);
    lemma_no_prefix_at(s, "Gobo"@, 0);
    lemma_no_prefix_at(s, "Gobo"@, 0);
    lemma_no_prefix_at(s, "Gobo"@, 0);
    lemma_no_prefix_at(s, "AnimationWheel"@, 0);
    lemma_no_prefix_at(s, "AnimationWheel"@, 0);
    lemma_no_prefix_at(s, "AnimationWheel"@, 0);
    lemma_no_prefix_at(s, "AnimationWheel"@, 0);
    lemma_no_prefix_at(s, "AnimationWheel"@, 0);
    lemma_no_prefix_at(s, "AnimationWheel"@, 0);
    lemma_no_prefix_at(s, "AnimationWheel"@, 0);
    lemma_no_prefix_at(s, "AnimationWheel"@, 0);
    lemma_no_prefix_at(s, "AnimationWheel"@, 0);
    lemma_no_prefix_at(s, "AnimationWheel"@, 0);
    lemma_no_prefix_at(s, "AnimationSystem"@, 0);
    lemma_no_prefix_at(s, "AnimationSystem"@, 0);
    lemma_no_prefix_at(s, "AnimationSystem"@, 0);
    lemma_no_prefix_at(s, "AnimationSystem"@, 0);
    lemma_no_prefix_at(s, "AnimationSystem"@, 0);
    lemma_no_prefix_at(s, "AnimationSystem"@, 0);
    lemma_no_prefix_at(s, "AnimationSystem"@, 0);
    lemma_no_prefix_at(s, "AnimationSystem"@, 0);
    lemma_no_prefix_at(s, "AnimationSystem"@, 0);
    lemma_no_prefix_at(s, "AnimationSystem"@, 0);
    lemma_no_prefix_at(s, "AnimationSystem"@, 0);
    lemma_no_prefix_at(s, "MediaFolder"@, 0);
    lemma_no_prefix_at(s, "MediaContent"@, 0);
    lemma_no_prefix_at(s, "ModelFolder"@, 0);
    lemma_no_prefix_at(s, "ModelContent"@, 0);
    lemma_no_prefix_at(s, "ColorEffects"@, 0);
    lemma_no_prefix_at(s, "Color"@, 0);
    lemma_no_prefix_at(s, "Color"@, 0);
    lemma_no_prefix_at(s, "Color"@, 0);
    lemma_no_prefix_at(s, "Color"@, 0);
    lemma_no_prefix_at(s, "Color"@, 0);
    lemma_no_prefix_at(s, "ColorMacro"@, 0);
    lemma_no_prefix_at(s, "ColorMacro"@, 0);
    lemma_no_prefix_at(s, "Shutter"@, 0);
    lemma_no_prefix_at(s, "Shutter"@, 0);
    lemma_no_prefix_at(s, "Shutter"@, 0);
    lemma_no_prefix_at(s, "Shutter"@, 0);
    lemma_no_prefix_at(s, "Shutter"@, 0);
    lemma_no_prefix_at(s, "Shutter"@, 0);
    lemma_no_prefix_at(s, "Shutter"@, 0);
    lemma_no_prefix_at(s, "Shutter"@, 0);
    lemma_no_prefix_at(s, "Shutter"@, 0);
    lemma_no_prefix_at(s, "Shutter"@, 0);
    lemma_no_prefix_at(s, "Frost"@, 0);
    lemma_no_prefix_at(s, "Frost"@, 0);
    lemma_no_prefix_at(s, "Frost"@, 0);
    lemma_no_prefix_at(s, "Frost"@, 0);
    lemma_no_prefix_at(s, "Prism"@, 0);
    lemma_no_prefix_at(s, "Prism"@, 0);
    lemma_no_prefix_at(s, "Prism"@, 0);
    lemma_no_prefix_at(s, "Prism"@, 0);
    lemma_no_prefix_at(s, "Prism"@, 0);
    lemma_no_prefix_at(s, "Effects"@, 0);
    lemma_no_prefix_at(s, "Effects"@, 0);
    lemma_no_prefix_at(s, "Effects"@, 0);
    lemma_no_prefix_at(s, "Effects"@, 0);
    lemma_no_prefix_at(s, "Effects"@, 0);
    lemma_no_prefix_at(s, "Effects"@, 0);
    lemma_no_prefix_at(s, "Focus"@, 0);
    lemma_no_prefix_at(s, "Focus"@, 0);
    lemma_no_prefix_at(s, "Focus"@, 0);
    lemma_no_prefix_at(s, "Control"@, 0);
    lemma_no_prefix_at(s, "Gobo"@, 0);
    lemma_no_prefix_at(s, "AnimationWheel"@, 0);
    lemma_no_prefix_at(s, "Color"@, 0);
    lemma_no_prefix_at(s, "Fan"@, 0);
    lemma_no_prefix_at(s, "GoboWheel"@, 0);
    lemma_no_prefix_at(s, "Prism"@, 0);
    lemma_no_prefix_at(s, "Frost"@, 0);
    lemma_no_prefix_at(s, "Blower"@, 0);
    lemma_no_prefix_at(s, "Fan"@, 0);
    lemma_no_prefix_at(s, "Fog"@, 0);
    lemma_no_prefix_at(s, "Haze"@, 0);
    lemma_no_prefix_at(s, "Blade"@, 0);
    lemma_no_prefix_at(s, "Blade"@, 0);
    lemma_no_prefix_at(s, "Blade"@, 0);
    lemma_no_prefix_at(s, "BladeSoft"@, 0);
    lemma_no_prefix_at(s, "BladeSoft"@, 0);
    lemma_no_prefix_at(s, "KeyStone"@, 0);
    lemma_no_prefix_at(s, "KeyStone"@, 0);
    lemma_no_prefix_at(s, "VideoEffect"@, 5);
    lemma_no_prefix_at(s, "VideoEffect"@, 5);
    lemma_extract_n_of("VideoCamera"@, n);
}

/// The name of `VideoSoundVolume` is read back as `VideoSoundVolume`.
proof fn lemma_numbered_name_video_sound_volume(n: u8)
    ensures
        AttributeView::parse(AttributeView::VideoSoundVolume(n).name()) == AttributeView::VideoSoundVolume(n),
{
    let s = AttributeView::VideoSoundVolume(n).name();
    lemma_dec(n);
    reveal_strlit("AnimationSystem");
    reveal_strlit("AnimationWheel");
    reveal_strlit("Blade");
    reveal_strlit("BladeSoft");
    reveal_strlit("Blower");
    reveal_strlit("Color");
    reveal_strlit("ColorEffects");
    reveal_strlit("ColorMacro");
    reveal_strlit("Control");
    reveal_strlit("Effects");
    reveal_strlit("Fan");
    reveal_strlit("Focus");
    reveal_strlit("Fog");
    reveal_strlit("Frost");
    reveal_strlit("Gobo");
    reveal_strlit("GoboWheel");
    reveal_strlit("Haze");
    reveal_strlit("KeyStone");
    reveal_strlit("MediaContent");
    reveal_strlit("MediaFolder");
    reveal_strlit("ModelContent");
    reveal_strlit("ModelFolder");
    reveal_strlit("Prism");
    reveal_strlit("Shutter");
    reveal_strlit("VideoCamera");
    reveal_strlit("VideoEffect");
    reveal_strlit("VideoSoundVolume");
    assert(s[16] == dec(n)[0]);
    lemma_fixed_rejects_digit(s, 16);
    lemma_no_prefix_at(s, "Gobo"@, 0);
    lemma_no_prefix_at(s, "Gobo"@, 0);
    lemma_no_prefix_at(s, "Gobo"@, 0);
    lemma_no_prefix_at(s, "Gobo"@, 0);
    lemma_no_prefix_at(s, "Gobo"@, 0);
    lemma_no_prefix_at(s, "Gobo"@, 0);
    lemma_no_prefix_at(s, "Gobo"@, 0);
    lemma_no_prefix_at(s, "Gobo"@, 0);
    lemma_no_prefix_at(s, "Gobo"@, 0);
    lemma_no_prefix_at(s, "Gobo"@, 0);
    lemma_no_prefix_at(s, "Gobo"@, 0);
    lemma_no_prefix_at(s, "Gobo"@, 0);
    lemma_no_prefix_at(s, "AnimationWheel"@, 0);
    lemma_no_prefix_at(s, "AnimationWheel"@, 0);
    lemma_no_prefix_at(s, "AnimationWheel"@, 0);
    lemma_no_prefix_at(s, "AnimationWheel"@, 0);
    lemma_no_prefix_at(s, "AnimationWheel"@, 0);
    lemma_no_prefix_at(s, "AnimationWheel"@, 0);
    lemma_no_prefix_at(s, "AnimationWheel"@, 0);
    lemma_no_prefix_at(s, "AnimationWheel"@, 0);
    lemma_no_prefix_at(s, "AnimationWheel"@, 0);
    lemma_no_prefix_at(s, "AnimationWheel"@, 0);
    lemma_no_prefix_at(s, "AnimationSystem"@, 0);
    lemma_no_prefix_at(s, "AnimationSystem"@, 0);
    lemma_no_prefix_at(s, "AnimationSystem"@, 0);
    lemma_no_prefix_at(s, "AnimationSystem"@, 0);
    lemma_no_prefix_at(s, "AnimationSystem"@, 0);
    lemma_no_prefix_at(s, "AnimationSystem"@, 0);
    lemma_no_prefix_at(s, "AnimationSystem"@, 0);
    lemma_no_prefix_at(s, "AnimationSystem"@, 0);
    lemma_no_prefix_at(s, "AnimationSystem"@, 0);
    lemma_no_prefix_at(s, "AnimationSystem"@, 0);
    lemma_no_prefix_at(s, "AnimationSystem"@, 0);
    lemma_no_prefix_at(s, "MediaFolder"@, 0);
    lemma_no_prefix_at(s, "MediaContent"@, 0);
    lemma_no_prefix_at(s, "ModelFolder"@, 0);
    lemma_no_prefix_at(s, "ModelContent"@, 0);
    lemma_no_prefix_at(s, "ColorEffects"@, 0);
    lemma_no_prefix_at(s, "Color"@, 0);
    lemma_no_prefix_at(s, "Color"@, 0);
    lemma_no_prefix_at(s, "Color"@, 0);
    lemma_no_prefix_at(s, "Color"@, 0);
    lemma_no_prefix_at(s, "Color"@, 0);
    lemma_no_prefix_at(s, "ColorMacro"@, 0);
    lemma_no_prefix_at(s, "ColorMacro"@, 0);
    lemma_no_prefix_at(s, "Shutter"@, 0);
    lemma_no_prefix_at(s, "Shutter"@, 0);
    lemma_no_prefix_at(s, "Shutter"@, 0);
    lemma_no_prefix_at(s, "Shutter"@, 0);
    lemma_no_prefix_at(s, "Shutter"@, 0);
    lemma_no_prefix_at(s, "Shutter"@, 0);
    lemma_no_prefix_at(s, "Shutter"@, 0);
    lemma_no_prefix_at(s, "Shutter"@, 0);
    lemma_no_prefix_at(s, "Shutter"@, 0);
    lemma_no_prefix_at(s, "Shutter"@, 0);
    lemma_no_prefix_at(s, "Frost"@, 0);
    lemma_no_prefix_at(s, "Frost"@, 0);
    lemma_no_prefix_at(s, "Frost"@, 0);
    lemma_no_prefix_at(s, "Frost"@, 0);
    lemma_no_prefix_at(s, "Prism"@, 0);
    lemma_no_prefix_at(s, "Prism"@, 0);
    lemma_no_prefix_at(s, "Prism"@, 0);
    lemma_no_prefix_at(s, "Prism"@, 0);
    lemma_no_prefix_at(s, "Prism"@, 0);
    lemma_no_prefix_at(s, "Effects"@, 0);
    lemma_no_prefix_at(s, "Effects"@, 0);
    lemma_no_prefix_at(s, "Effects"@, 0);
    lemma_no_prefix_at(s, "Effects"@, 0);
    lemma_no_prefix_at(s, "Effects"@, 0);
    lemma_no_prefix_at(s, "Effects"@, 0);
    lemma_no_prefix_at(s, "Focus"@, 0);
    lemma_no_prefix_at(s, "Focus"@, 0);
    lemma_no_prefix_at(s, "Focus"@, 0);
    lemma_no_prefix_at(s, "Control"@, 0);
    lemma_no_prefix_at(s, "Gobo"@, 0);
    lemma_no_prefix_at(s, "AnimationWheel"@, 0);
    lemma_no_prefix_at(s, "Color"@, 0);
    lemma_no_prefix_at(s, "Fan"@, 0);
    lemma_no_prefix_at(s, "GoboWheel"@, 0);
    lemma_no_prefix_at(s, "Prism"@, 0);
    lemma_no_prefix_at(s, "Frost"@, 0);
    lemma_no_prefix_at(s, "Blower"@, 0);
    lemma_no_prefix_at(s, "Fan"@, 0);
    lemma_no_prefix_at(s, "Fog"@, 0);
    lemma_no_prefix_at(s, "Haze"@, 0);
    lemma_no_prefix_at(s, "Blade"@, 0);
    lemma_no_prefix_at(s, "Blade"@, 0);
    lemma_no_prefix_at(s, "Blade"@, 0);
    lemma_no_prefix_at(s, "BladeSoft"@, 0);
    lemma_no_prefix_at(s, "BladeSoft"@, 0);
    lemma_no_prefix_at(s, "KeyStone"@, 0);
    lemma_no_prefix_at(s, "KeyStone"@, 0);
    lemma_no_prefix_at(s, "VideoEffect"@, 5);
    lemma_no_prefix_at(s, "VideoEffect"@, 5);
    lemma_no_prefix_at(s, "VideoCamera"@, 5);
    lemma_extract_n_of("VideoSoundVolume"@, n);
}

/// Reading the name of an attribute gives the attribute back, for every
/// attribute that is not custom.
pub proof fn lemma_name_roundtrip(a: AttributeView)
    requires
        !(a is Custom),
    ensures
        AttributeView::parse(a.name()) == a,
{
    match a {
        AttributeView::Dimmer => lemma_fixed_names_0(a),
        AttributeView::Pan => lemma_fixed_names_0(a),
        AttributeView::Tilt => lemma_fixed_names_0(a),
        AttributeView::PanRotate => lemma_fixed_names_0(a),
        AttributeView::TiltRotate => lemma_fixed_names_0(a),
        AttributeView::PositionEffect => lemma_fixed_names_0(a),
        AttributeView::PositionEffectRate => lemma_fixed_names_0(a),
        AttributeView::PositionEffectFade => lemma_fixed_names_0(a),
        AttributeView::XyzX => lemma_fixed_names_0(a),
        AttributeView::XyzY => lemma_fixed_names_0(a),
        AttributeView::XyzZ => lemma_fixed_names_0(a),
        AttributeView::RotX => lemma_fixed_names_0(a),
        AttributeView::RotY => lemma_fixed_names_0(a),
        AttributeView::RotZ => lemma_fixed_names_0(a),
        AttributeView::ScaleX => lemma_fixed_names_0(a),
        AttributeView::ScaleY => lemma_fixed_names_0(a),
        AttributeView::ScaleZ => lemma_fixed_names_0(a),
        AttributeView::ScaleXYZ => lemma_fixed_names_0(a),
        AttributeView::Gobo(n) => lemma_numbered_name_gobo(n),
        AttributeView::GoboSelectSpin(n) => lemma_numbered_name_gobo_select_spin(n),
        AttributeView::GoboSelectShake(n) => lemma_numbered_name_gobo_select_shake(n),
        AttributeView::GoboSelectEffects(n) => lemma_numbered_name_gobo_select_effects(n),
        AttributeView::GoboWheelIndex(n) => lemma_numbered_name_gobo_wheel_index(n),
        AttributeView::GoboWheelSpin(n) => lemma_numbered_name_gobo_wheel_spin(n),
        AttributeView::GoboWheelShake(n) => lemma_numbered_name_gobo_wheel_shake(n),
        AttributeView::GoboWheelRandom(n) => lemma_numbered_name_gobo_wheel_random(n),
        AttributeView::GoboWheelAudio(n) => lemma_numbered_name_gobo_wheel_audio(n),
        AttributeView::GoboPos(n) => lemma_numbered_name_gobo_pos(n),
        AttributeView::GoboPosRotate(n) => lemma_numbered_name_gobo_pos_rotate(n),
        AttributeView::GoboPosShake(n) => lemma_numbered_name_gobo_pos_shake(n),
        AttributeView::AnimationWheel(n) => lemma_numbered_name_animation_wheel(n),
        AttributeView::AnimationWheelAudio(n) => lemma_numbered_name_animation_wheel_audio(n),
        AttributeView::AnimationWheelMacro(n) => lemma_numbered_name_animation_wheel_macro(n),
        AttributeView::AnimationWheelRandom(n) => lemma_numbered_name_animation_wheel_random(n),
        AttributeView::AnimationWheelSelectEffects(n) => lemma_numbered_name_animation_wheel_select_effects(n),
        AttributeView::AnimationWheelSelectShake(n) => lemma_numbered_name_animation_wheel_select_shake(n),
        AttributeView::AnimationWheelSelectSpin(n) => lemma_numbered_name_animation_wheel_select_spin(n),
        AttributeView::AnimationWheelPos(n) => lemma_numbered_name_animation_wheel_pos(n),
        AttributeView::AnimationWheelPosRotate(n) => lemma_numbered_name_animation_wheel_pos_rotate(n),
        AttributeView::AnimationWheelPosShake(n) => lemma_numbered_name_animation_wheel_pos_shake(n),
        AttributeView::AnimationSystem(n) => lemma_numbered_name_animation_system(n),
        AttributeView::AnimationSystemRamp(n) => lemma_numbered_name_animation_system_ramp(n),
        AttributeView::AnimationSystemShake(n) => lemma_numbered_name_animation_system_shake(n),
        AttributeView::AnimationSystemAudio(n) => lemma_numbered_name_animation_system_audio(n),
        AttributeView::AnimationSystemRandom(n) => lemma_numbered_name_animation_system_random(n),
        AttributeView::AnimationSystemPos(n) => lemma_numbered_name_animation_system_pos(n),
        AttributeView::AnimationSystemPosRotate(n) => lemma_numbered_name_animation_system_pos_rotate(n),
        AttributeView::AnimationSystemPosShake(n) => lemma_numbered_name_animation_system_pos_shake(n),
        AttributeView::AnimationSystemPosRandom(n) => lemma_numbered_name_animation_system_pos_random(n),
        AttributeView::AnimationSystemPosAudio(n) => lemma_numbered_name_animation_system_pos_audio(n),
        AttributeView::AnimationSystemMacro(n) => lemma_numbered_name_animation_system_macro(n),
        AttributeView::MediaFolder(n) => lemma_numbered_name_media_folder(n),
        AttributeView::MediaContent(n) => lemma_numbered_name_media_content(n),
        AttributeView::ModelFolder(n) => lemma_numbered_name_model_folder(n),
        AttributeView::ModelContent(n) => lemma_numbered_name_model_content(n),
        AttributeView::PlayMode => lemma_fixed_names_0(a),
        AttributeView::PlayBegin => lemma_fixed_names_0(a),
        AttributeView::PlayEnd => lemma_fixed_names_1(a),
        AttributeView::PlaySpeed => lemma_fixed_names_1(a),
        AttributeView::ColorEffects(n) => lemma_numbered_name_color_effects(n),
        AttributeView::Color(n) => lemma_numbered_name_color(n),
        AttributeView::ColorWheelIndex(n) => lemma_numbered_name_color_wheel_index(n),
        AttributeView::ColorWheelSpin(n) => lemma_numbered_name_color_wheel_spin(n),
        AttributeView::ColorWheelRandom(n) => lemma_numbered_name_color_wheel_random(n),
        AttributeView::ColorWheelAudio(n) => lemma_numbered_name_color_wheel_audio(n),
        AttributeView::ColorAddR => lemma_fixed_names_1(a),
        AttributeView::ColorAddG => lemma_fixed_names_1(a),
        AttributeView::ColorAddB => lemma_fixed_names_1(a),
        AttributeView::ColorAddC => lemma_fixed_names_1(a),
        AttributeView::ColorAddM => lemma_fixed_names_1(a),
        AttributeView::ColorAddY => lemma_fixed_names_1(a),
        AttributeView::ColorAddRY => lemma_fixed_names_1(a),
        AttributeView::ColorAddGY => lemma_fixed_names_1(a),
        AttributeView::ColorAddGC => lemma_fixed_names_1(a),
        AttributeView::ColorAddBC => lemma_fixed_names_1(a),
        AttributeView::ColorAddBM => lemma_fixed_names_1(a),
        AttributeView::ColorAddRM => lemma_fixed_names_1(a),
        AttributeView::ColorAddW => lemma_fixed_names_1(a),
        AttributeView::ColorAddWW => lemma_fixed_names_1(a),
        AttributeView::ColorAddCW => lemma_fixed_names_1(a),
        AttributeView::ColorAddUV => lemma_fixed_names_1(a),
        AttributeView::ColorSubR => lemma_fixed_names_1(a),
        AttributeView::ColorSubG => lemma_fixed_names_1(a),
        AttributeView::ColorSubB => lemma_fixed_names_2(a),
        AttributeView::ColorSubC => lemma_fixed_names_2(a),
        AttributeView::ColorSubM => lemma_fixed_names_2(a),
        AttributeView::ColorSubY => lemma_fixed_names_2(a),
        AttributeView::ColorMacro(n) => lemma_numbered_name_color_macro(n),
        AttributeView::ColorMacroRate(n) => lemma_numbered_name_color_macro_rate(n),
        AttributeView::Cto => lemma_fixed_names_2(a),
        AttributeView::Ctc => lemma_fixed_names_2(a),
        AttributeView::Ctb => lemma_fixed_names_2(a),
        AttributeView::Tint => lemma_fixed_names_2(a),
        AttributeView::HsbHue => lemma_fixed_names_2(a),
        AttributeView::HsbSaturation => lemma_fixed_names_2(a),
        AttributeView::HsbBrightness => lemma_fixed_names_2(a),
        AttributeView::HsbQuality => lemma_fixed_names_2(a),
        AttributeView::CieX => lemma_fixed_names_2(a),
        AttributeView::CieY => lemma_fixed_names_2(a),
        AttributeView::CieBrightness => lemma_fixed_names_2(a),
        AttributeView::ColorRgbRed => lemma_fixed_names_2(a),
        AttributeView::ColorRgbGreen => lemma_fixed_names_2(a),
        AttributeView::ColorRgbBlue => lemma_fixed_names_2(a),
        AttributeView::ColorRgbCyan => lemma_fixed_names_2(a),
        AttributeView::ColorRgbMagenta => lemma_fixed_names_2(a),
        AttributeView::ColorRgbYellow => lemma_fixed_names_3(a),
        AttributeView::ColorRgbQuality => lemma_fixed_names_3(a),
        AttributeView::VideoBoostR => lemma_fixed_names_3(a),
        AttributeView::VideoBoostG => lemma_fixed_names_3(a),
        AttributeView::VideoBoostB => lemma_fixed_names_3(a),
        AttributeView::VideoHueShift => lemma_fixed_names_3(a),
        AttributeView::VideoSaturation => lemma_fixed_names_3(a),
        AttributeView::VideoBrightness => lemma_fixed_names_3(a),
        AttributeView::VideoContrast => lemma_fixed_names_3(a),
        AttributeView::VideoKeyColorR => lemma_fixed_names_3(a),
        AttributeView::VideoKeyColorG => lemma_fixed_names_3(a),
        AttributeView::VideoKeyColorB => lemma_fixed_names_3(a),
        AttributeView::VideoKeyIntensity => lemma_fixed_names_3(a),
        AttributeView::VideoKeyTolerance => lemma_fixed_names_3(a),
        AttributeView::StrobeDuration => lemma_fixed_names_3(a),
        AttributeView::StrobeRate => lemma_fixed_names_3(a),
        AttributeView::StrobeFrequency => lemma_fixed_names_3(a),
        AttributeView::StrobeModeShutter => lemma_fixed_names_3(a),
        AttributeView::StrobeModeStrobe => lemma_fixed_names_3(a),
        AttributeView::StrobeModePulse => lemma_fixed_names_3(a),
        AttributeView::StrobeModePulseOpen => lemma_fixed_names_4(a),
        AttributeView::StrobeModePulseClose => lemma_fixed_names_4(a),
        AttributeView::StrobeModeRandom => lemma_fixed_names_4(a),
        AttributeView::StrobeModeRandomPulse => lemma_fixed_names_4(a),
        AttributeView::StrobeModeRandomPulseOpen => lemma_fixed_names_4(a),
        AttributeView::StrobeModeRandomPulseClose => lemma_fixed_names_4(a),
        AttributeView::StrobeModeEffect => lemma_fixed_names_4(a),
        AttributeView::Shutter(n) => lemma_numbered_name_shutter(n),
        AttributeView::ShutterStrobe(n) => lemma_numbered_name_shutter_strobe(n),
        AttributeView::ShutterStrobePulse(n) => lemma_numbered_name_shutter_strobe_pulse(n),
        AttributeView::ShutterStrobePulseClose(n) => lemma_numbered_name_shutter_strobe_pulse_close(n),
        AttributeView::ShutterStrobePulseOpen(n) => lemma_numbered_name_shutter_strobe_pulse_open(n),
        AttributeView::ShutterStrobeRandom(n) => lemma_numbered_name_shutter_strobe_random(n),
        AttributeView::ShutterStrobeRandomPulse(n) => lemma_numbered_name_shutter_strobe_random_pulse(n),
        AttributeView::ShutterStrobeRandomPulseClose(n) => lemma_numbered_name_shutter_strobe_random_pulse_close(n),
        AttributeView::ShutterStrobeRandomPulseOpen(n) => lemma_numbered_name_shutter_strobe_random_pulse_open(n),
        AttributeView::ShutterStrobeEffect(n) => lemma_numbered_name_shutter_strobe_effect(n),
        AttributeView::Iris => lemma_fixed_names_4(a),
        AttributeView::IrisStrobe => lemma_fixed_names_4(a),
        AttributeView::IrisStrobeRandom => lemma_fixed_names_4(a),
        AttributeView::IrisPulseClose => lemma_fixed_names_4(a),
        AttributeView::IrisPulseOpen => lemma_fixed_names_4(a),
        AttributeView::IrisRandomPulseClose => lemma_fixed_names_4(a),
        AttributeView::IrisRandomPulseOpen => lemma_fixed_names_4(a),
        AttributeView::Frost(n) => lemma_numbered_name_frost(n),
        AttributeView::FrostPulseOpen(n) => lemma_numbered_name_frost_pulse_open(n),
        AttributeView::FrostPulseClose(n) => lemma_numbered_name_frost_pulse_close(n),
        AttributeView::FrostRamp(n) => lemma_numbered_name_frost_ramp(n),
        AttributeView::Prism(n) => lemma_numbered_name_prism(n),
        AttributeView::PrismSelectSpin(n) => lemma_numbered_name_prism_select_spin(n),
        AttributeView::PrismMacro(n) => lemma_numbered_name_prism_macro(n),
        AttributeView::PrismPos(n) => lemma_numbered_name_prism_pos(n),
        AttributeView::PrismPosRotate(n) => lemma_numbered_name_prism_pos_rotate(n),
        AttributeView::Effects(n) => lemma_numbered_name_effects(n),
        AttributeView::EffectsRate(n) => lemma_numbered_name_effects_rate(n),
        AttributeView::EffectsFade(n) => lemma_numbered_name_effects_fade(n),
        AttributeView::EffectsAdjust(n, m) => lemma_numbered_name_effects_adjust(n, m),
        AttributeView::EffectsPos(n) => lemma_numbered_name_effects_pos(n),
        AttributeView::EffectsPosRotate(n) => lemma_numbered_name_effects_pos_rotate(n),
        AttributeView::EffectsSync => lemma_fixed_names_4(a),
        AttributeView::BeamShaper => lemma_fixed_names_4(a),
        AttributeView::BeamShaperMacro => lemma_fixed_names_4(a),
        AttributeView::BeamShaperPos => lemma_fixed_names_4(a),
        AttributeView::BeamShaperPosRotate => lemma_fixed_names_4(a),
        AttributeView::Zoom => lemma_fixed_names_4(a),
        AttributeView::ZoomModeSpot => lemma_fixed_names_5(a),
        AttributeView::ZoomModeBeam => lemma_fixed_names_5(a),
        AttributeView::DigitalZoom => lemma_fixed_names_5(a),
        AttributeView::Focus(n) => lemma_numbered_name_focus(n),
        AttributeView::FocusAdjust(n) => lemma_numbered_name_focus_adjust(n),
        AttributeView::FocusDistance(n) => lemma_numbered_name_focus_distance(n),
        AttributeView::Control(n) => lemma_numbered_name_control(n),
        AttributeView::DimmerMode => lemma_fixed_names_5(a),
        AttributeView::DimmerCurve => lemma_fixed_names_5(a),
        AttributeView::BlackoutMode => lemma_fixed_names_5(a),
        AttributeView::LedFrequency => lemma_fixed_names_5(a),
        AttributeView::LedZoneMode => lemma_fixed_names_5(a),
        AttributeView::PixelMode => lemma_fixed_names_5(a),
        AttributeView::PanMode => lemma_fixed_names_5(a),
        AttributeView::TiltMode => lemma_fixed_names_5(a),
        AttributeView::PanTiltMode => lemma_fixed_names_5(a),
        AttributeView::PositionModes => lemma_fixed_names_5(a),
        AttributeView::GoboWheelMode(n) => lemma_numbered_name_gobo_wheel_mode(n),
        AttributeView::GoboWheelShortcutMode => lemma_fixed_names_5(a),
        AttributeView::AnimationWheelMode(n) => lemma_numbered_name_animation_wheel_mode(n),
        AttributeView::AnimationWheelShortcutMode => lemma_fixed_names_5(a),
        AttributeView::ColorMode(n) => lemma_numbered_name_color_mode(n),
        AttributeView::ColorWheelShortcutMode => lemma_fixed_names_5(a),
        AttributeView::CyanMode => lemma_fixed_names_5(a),
        AttributeView::MagentaMode => lemma_fixed_names_5(a),
        AttributeView::YellowMode => lemma_fixed_names_5(a),
        AttributeView::ColorMixMode => lemma_fixed_names_5(a),
        AttributeView::ChromaticMode => lemma_fixed_names_6(a),
        AttributeView::ColorCalibrationMode => lemma_fixed_names_6(a),
        AttributeView::ColorConsistency => lemma_fixed_names_6(a),
        AttributeView::ColorControl => lemma_fixed_names_6(a),
        AttributeView::ColorModelMode => lemma_fixed_names_6(a),
        AttributeView::ColorSettingsReset => lemma_fixed_names_6(a),
        AttributeView::ColorUniformity => lemma_fixed_names_6(a),
        AttributeView::CriMode => lemma_fixed_names_6(a),
        AttributeView::CustomColor => lemma_fixed_names_6(a),
        AttributeView::UvStability => lemma_fixed_names_6(a),
        AttributeView::WavelengthCorrection => lemma_fixed_names_6(a),
        AttributeView::WhiteCount => lemma_fixed_names_6(a),
        AttributeView::StrobeMode => lemma_fixed_names_6(a),
        AttributeView::ZoomMode => lemma_fixed_names_6(a),
        AttributeView::FocusMode => lemma_fixed_names_6(a),
        AttributeView::IrisMode => lemma_fixed_names_6(a),
        AttributeView::FanMode(n) => lemma_numbered_name_fan_mode(n),
        AttributeView::FollowSpotMode => lemma_fixed_names_6(a),
        AttributeView::BeamEffectIndexRotateMode => lemma_fixed_names_6(a),
        AttributeView::IntensityMSpeed => lemma_fixed_names_6(a),
        AttributeView::PositionMSpeed => lemma_fixed_names_6(a),
        AttributeView::ColorMixMSpeed => lemma_fixed_names_7(a),
        AttributeView::ColorWheelSelectMSpeed => lemma_fixed_names_7(a),
        AttributeView::GoboWheelMSpeed(n) => lemma_numbered_name_gobo_wheel_m_speed(n),
        AttributeView::IrisMSpeed => lemma_fixed_names_7(a),
        AttributeView::PrismMSpeed(n) => lemma_numbered_name_prism_m_speed(n),
        AttributeView::FocusMSpeed => lemma_fixed_names_7(a),
        AttributeView::FrostMSpeed(n) => lemma_numbered_name_frost_m_speed(n),
        AttributeView::ZoomMSpeed => lemma_fixed_names_7(a),
        AttributeView::FrameMSpeed => lemma_fixed_names_7(a),
        AttributeView::GlobalMSpeed => lemma_fixed_names_7(a),
        AttributeView::ReflectorAdjust => lemma_fixed_names_7(a),
        AttributeView::FixtureGlobalReset => lemma_fixed_names_7(a),
        AttributeView::DimmerReset => lemma_fixed_names_7(a),
        AttributeView::ShutterReset => lemma_fixed_names_7(a),
        AttributeView::BeamReset => lemma_fixed_names_7(a),
        AttributeView::ColorMixReset => lemma_fixed_names_7(a),
        AttributeView::ColorWheelReset => lemma_fixed_names_7(a),
        AttributeView::FocusReset => lemma_fixed_names_7(a),
        AttributeView::FrameReset => lemma_fixed_names_7(a),
        AttributeView::GoboWheelReset => lemma_fixed_names_7(a),
        AttributeView::IntensityReset => lemma_fixed_names_7(a),
        AttributeView::IrisReset => lemma_fixed_names_7(a),
        AttributeView::PositionReset => lemma_fixed_names_7(a),
        AttributeView::PanReset => lemma_fixed_names_8(a),
        AttributeView::TiltReset => lemma_fixed_names_8(a),
        AttributeView::ZoomReset => lemma_fixed_names_8(a),
        AttributeView::CtbReset => lemma_fixed_names_8(a),
        AttributeView::CtoReset => lemma_fixed_names_8(a),
        AttributeView::CtcReset => lemma_fixed_names_8(a),
        AttributeView::AnimationSystemReset => lemma_fixed_names_8(a),
        AttributeView::FixtureCalibrationReset => lemma_fixed_names_8(a),
        AttributeView::Function => lemma_fixed_names_8(a),
        AttributeView::LampControl => lemma_fixed_names_8(a),
        AttributeView::DisplayIntensity => lemma_fixed_names_8(a),
        AttributeView::DmxInput => lemma_fixed_names_8(a),
        AttributeView::NoFeature => lemma_fixed_names_8(a),
        AttributeView::Blower(n) => lemma_numbered_name_blower(n),
        AttributeView::Fan(n) => lemma_numbered_name_fan(n),
        AttributeView::Fog(n) => lemma_numbered_name_fog(n),
        AttributeView::Haze(n) => lemma_numbered_name_haze(n),
        AttributeView::LampPowerMode => lemma_fixed_names_8(a),
        AttributeView::Fans => lemma_fixed_names_8(a),
        AttributeView::BladeA(n) => lemma_numbered_name_blade_a(n),
        AttributeView::BladeB(n) => lemma_numbered_name_blade_b(n),
        AttributeView::BladeRot(n) => lemma_numbered_name_blade_rot(n),
        AttributeView::ShaperRot => lemma_fixed_names_8(a),
        AttributeView::ShaperMacros => lemma_fixed_names_8(a),
        AttributeView::ShaperMacrosSpeed => lemma_fixed_names_8(a),
        AttributeView::BladeSoftA(n) => lemma_numbered_name_blade_soft_a(n),
        AttributeView::BladeSoftB(n) => lemma_numbered_name_blade_soft_b(n),
        AttributeView::KeyStoneA(n) => lemma_numbered_name_key_stone_a(n),
        AttributeView::KeyStoneB(n) => lemma_numbered_name_key_stone_b(n),
        AttributeView::Video => lemma_fixed_names_8(a),
        AttributeView::VideoEffectType(n) => lemma_numbered_name_video_effect_type(n),
        AttributeView::VideoEffectParameter(n, m) => lemma_numbered_name_video_effect_parameter(n, m),
        AttributeView::VideoCamera(n) => lemma_numbered_name_video_camera(n),
        AttributeView::VideoSoundVolume(n) => lemma_numbered_name_video_sound_volume(n),
        AttributeView::VideoBlendMode => lemma_fixed_names_8(a),
        AttributeView::InputSource => lemma_fixed_names_9(a),
        AttributeView::FieldOfView => lemma_fixed_names_9(a),
        AttributeView::Custom(_) => {},
    }
}

/// A custom attribute whose name is not a known name is read back from its
/// name.
pub proof fn lemma_custom_name_roundtrip(s: Seq<char>)
    requires
        parse_known(s) is None,
    ensures
        AttributeView::parse(AttributeView::Custom(s).name()) == AttributeView::Custom(s),
{
}

} // verus!
