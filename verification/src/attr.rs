//! GDTF attributes: their names, their feature groups, and how a name is
//! read back into an attribute.
//!
//! An attribute's name is what the GDTF files use (`Dimmer`, `Gobo1`,
//! `ColorAdd_R`, ...). [Attribute::from_str] reads any name: a known name
//! gives its attribute, anything else a custom attribute that keeps the
//! name. [Attribute::to_string] gives the name back.
use vstd::prelude::*;

use crate::text::{
    chars_of, dec, eq_lit, extract_attr_n, extract_attr_n_m, extract_attr_n_suffix, extract_n,
    extract_n_m, extract_n_suffix, push_u8,
};

verus! {

/// A GDTF attribute.
#[derive(Debug, Clone, Eq, Hash)]
pub enum Attribute {
    /// Controls the intensity of a fixture.
    Dimmer,
    /// Controls the fixture’s sideward movement (horizontal axis).
    Pan,
    /// Controls the fixture’s upward and the downward movement (vertical axis).
    Tilt,
    /// Controls the speed of the fixture’s continuous pan movement (horizontal
    /// axis).
    PanRotate,
    /// Controls the speed of the fixture’s continuous tilt movement (vertical
    /// axis).
    TiltRotate,
    /// Selects the predefined position effects that are built into the fixture.
    PositionEffect,
    /// Controls the speed of the predefined position effects that are built
    /// into the fixture.
    PositionEffectRate,
    /// Snaps or smooth fades with timing in running predefined position
    /// effects.
    PositionEffectFade,
    /// Defines a fixture’s x-coordinate within an XYZ coordinate system.
    XyzX,
    /// Defines a fixture’s y-coordinate within an XYZ coordinate system.
    XyzY,
    /// Defines a fixture‘s z-coordinate within an XYZ coordinate system.
    XyzZ,
    /// Defines rotation around X axis.
    RotX,
    /// Defines rotation around Y axis.
    RotY,
    /// Defines rotation around Z axis.
    RotZ,
    /// Scaling on X axis.
    ScaleX,
    /// Scaling on Y axis.
    ScaleY,
    /// Scaling on Y axis.
    ScaleZ,
    /// Unified scaling on all axis.
    ScaleXYZ,
    /// The fixture’s gobo wheel (n). This is the main attribute of gobo wheel’s
    /// (n) wheel control. Selects gobos in gobo wheel (n). A different channel
    /// function sets the angle of the indexed position in the selected gobo or
    /// the angular speed of its continuous rotation.
    Gobo(u8),
    /// Selects gobos whose rotation is continuous in gobo wheel (n) and
    /// controls the angular speed of the gobo’s spin within the same channel
    /// function.
    GoboSelectSpin(u8),
    /// Selects gobos which shake in gobo wheel (n) and controls the frequency
    /// of the gobo’s shake within the same channel function.
    GoboSelectShake(u8),
    /// Selects gobos which run effects in gobo wheel (n).
    GoboSelectEffects(u8),
    /// Controls angle of indexed rotation of gobo wheel (n).
    GoboWheelIndex(u8),
    /// Controls the speed and direction of continuous rotation of gobo wheel
    /// (n).
    GoboWheelSpin(u8),
    /// Controls frequency of the shake of gobo wheel (n).
    GoboWheelShake(u8),
    /// Controls speed of gobo wheel´s (n) random gobo slot selection.
    GoboWheelRandom(u8),
    /// Controls audio-controlled functionality of gobo wheel (n).
    GoboWheelAudio(u8),
    /// Controls angle of indexed rotation of gobos in gobo wheel (n). This is
    /// the main attribute of gobo wheel’s (n) wheel slot control.
    GoboPos(u8),
    /// Controls the speed and direction of continuous rotation of gobos in gobo
    /// wheel (n).
    GoboPosRotate(u8),
    /// Controls frequency of the shake of gobos in gobo wheel (n).
    GoboPosShake(u8),
    /// This is the main attribute of the animation wheel’s (n) wheel control.
    /// Selects slots in the animation wheel. A different channel function sets
    /// the angle of the indexed position in the selected slot or the angular
    /// speed of its continuous rotation. Is used for animation effects with
    /// multiple slots.
    AnimationWheel(u8),
    /// Controls audio-controlled functionality of animation wheel (n).
    AnimationWheelAudio(u8),
    /// Selects predefined effects in animation wheel (n).
    AnimationWheelMacro(u8),
    /// Controls frequency of animation wheel (n) random slot selection.
    AnimationWheelRandom(u8),
    /// Selects slots which run effects in animation wheel (n).
    AnimationWheelSelectEffects(u8),
    /// Selects slots which shake in animation wheel and controls the frequency
    /// of the slots shake within the same channel function.
    AnimationWheelSelectShake(u8),
    /// Selects slots whose rotation is continuous in animation wheel and
    /// controls the angular speed of the slot spin within the same channel
    /// function
    AnimationWheelSelectSpin(u8),
    /// Controls angle of indexed rotation of slots in animation wheel. This is
    /// the main attribute of animation wheel (n) wheel slot control.
    AnimationWheelPos(u8),
    /// Controls the speed and direction of continuous rotation of slots in
    /// animation wheel (n).
    AnimationWheelPosRotate(u8),
    /// Controls frequency of the shake of slots in animation wheel (n).
    AnimationWheelPosShake(u8),
    /// This is the main attribute of the animation system insertion control.
    /// Controls the insertion of the fixture’s animation system in the light
    /// output. Is used for animation effects where a disk is inserted into the
    /// light output.
    AnimationSystem(u8),
    /// Sets frequency of animation system (n) insertion ramp.
    AnimationSystemRamp(u8),
    /// Sets frequency of animation system (n) insertion shake.
    AnimationSystemShake(u8),
    /// Controls audio-controlled functionality of animation system (n)
    /// insertion.
    AnimationSystemAudio(u8),
    /// Controls frequency of animation system (n) random insertion.
    AnimationSystemRandom(u8),
    /// This is the main attribute of the animation system spinning control.
    /// Controls angle of indexed rotation of animation system (n) disk.
    AnimationSystemPos(u8),
    /// Controls the speed and direction of continuous rotation of animation
    /// system (n) disk.
    AnimationSystemPosRotate(u8),
    /// Controls frequency of the shake of animation system (n) disk.
    AnimationSystemPosShake(u8),
    /// Controls random speed of animation system (n) disk.
    AnimationSystemPosRandom(u8),
    /// Controls audio-controlled functionality of animation system (n) disk.
    AnimationSystemPosAudio(u8),
    /// Selects predefined effects in animation system (n).
    AnimationSystemMacro(u8),
    /// Selects folder that contains media content.
    MediaFolder(u8),
    /// Selects file with media content.
    MediaContent(u8),
    /// Selects folder that contains 3D model content. For example 3D meshes for
    /// mapping.
    ModelFolder(u8),
    /// Selects file with 3D model content.
    ModelContent(u8),
    /// Defines media playback mode.
    PlayMode,
    /// Defines starting point of media content playback.
    PlayBegin,
    /// Defines end point of media content playback.
    PlayEnd,
    /// Adjusts playback speed of media content.
    PlaySpeed,
    /// Selects predefined color effects built into the fixture.
    ColorEffects(u8),
    /// The fixture’s color wheel (n). Selects colors in color wheel (n). This
    /// is the main attribute of color wheel’s (n) wheel control.
    Color(u8),
    /// Controls angle of indexed rotation of color wheel (n)
    ColorWheelIndex(u8),
    /// Controls the speed and direction of continuous rotation of color wheel
    /// (n).
    ColorWheelSpin(u8),
    /// Controls frequency of color wheel´s (n) random color slot selection.
    ColorWheelRandom(u8),
    /// Controls audio-controlled functionality of color wheel (n).
    ColorWheelAudio(u8),
    /// Controls the intensity of the fixture’s red emitters for direct additive
    /// color mixing.
    ColorAddR,
    /// Controls the intensity of the fixture’s green emitters for direct
    /// additive color mixing
    ColorAddG,
    /// Controls the intensity of the fixture’s blue emitters for direct
    /// additive color mixing.
    ColorAddB,
    /// Controls the intensity of the fixture’s cyan emitters for direct
    /// additive color mixing.
    ColorAddC,
    /// Controls the intensity of the fixture’s magenta emitters for direct
    /// additive color mixing.
    ColorAddM,
    /// Controls the intensity of the fixture’s yellow emitters for direct
    /// additive color mixing.
    ColorAddY,
    /// Controls the intensity of the fixture’s amber emitters for direct
    /// additive color mixing.
    ColorAddRY,
    /// Controls the intensity of the fixture’s lime emitters for direct
    /// additive color mixing.
    ColorAddGY,
    /// Controls the intensity of the fixture’s blue-green emitters for direct
    /// additive color mixing.
    ColorAddGC,
    /// Controls the intensity of the fixture’s light-blue emitters for direct
    /// additive color mixing.
    ColorAddBC,
    /// Controls the intensity of the fixture’s purple emitters for direct
    /// additive color mixing.
    ColorAddBM,
    /// Controls the intensity of the fixture’s pink emitters for direct
    /// additive color mixing.
    ColorAddRM,
    /// Controls the intensity of the fixture’s white emitters for direct
    /// additive color mixing.
    ColorAddW,
    /// Controls the intensity of the fixture’s warm white emitters for direct
    /// additive color mixing.
    ColorAddWW,
    /// Controls the intensity of the fixture’s cool white emitters for direct
    /// additive color mixing.
    ColorAddCW,
    /// Controls the intensity of the fixture’s UV emitters for direct additive
    /// color mixing.
    ColorAddUV,
    /// Controls the insertion of the fixture’s red filter flag for direct
    /// subtractive color mixing.
    ColorSubR,
    /// Controls the insertion of the fixture’s green filter flag for direct
    /// subtractive color mixing.
    ColorSubG,
    /// Controls the insertion of the fixture’s blue filter flag for direct
    /// subtractive color mixing.
    ColorSubB,
    /// Controls the insertion of the fixture’s cyan filter flag for direct
    /// subtractive color mixing.
    ColorSubC,
    /// Controls the insertion of the fixture’s magenta filter flag for direct
    /// subtractive color mixing.
    ColorSubM,
    /// Controls the insertion of the fixture’s yellow filter flag for direct
    /// subtractive color mixing.
    ColorSubY,
    /// Selects predefined colors that are programed in the fixture’s firmware.
    ColorMacro(u8),
    /// Controls the time between Color Macro steps.
    ColorMacroRate(u8),
    /// Controls the fixture’s “Correct to orange” wheel or mixing system.
    Cto,
    /// Controls the fixture’s “Correct to color” wheel or mixing system.
    Ctc,
    /// Controls the fixture’s “Correct to blue” wheel or mixing system.
    Ctb,
    /// Controls the fixture’s “Correct green to magenta” wheel or mixing
    /// system.
    Tint,
    /// Controls the fixture’s color attribute regarding the hue.
    HsbHue,
    /// Controls the fixture’s color attribute regarding the saturation.
    HsbSaturation,
    /// Controls the fixture’s color attribute regarding the brightness.
    HsbBrightness,
    /// Controls the fixture’s color attribute regarding the quality.
    HsbQuality,
    /// Controls the fixture’s CIE 1931 color attribute regarding the
    /// chromaticity x.
    CieX,
    /// Controls the fixture’s CIE 1931 color attribute regarding the
    /// chromaticity y.
    CieY,
    /// Controls the fixture’s CIE 1931 color attribute regarding the brightness
    /// (Y).
    CieBrightness,
    /// Controls the fixture’s red attribute for indirect RGB color mixing.
    ColorRgbRed,
    /// Controls the fixture’s green attribute for indirect RGB color mixing.
    ColorRgbGreen,
    /// Controls the fixture’s blue attribute for indirect RGB color mixing.
    ColorRgbBlue,
    /// Controls the fixture’s cyan attribute for indirect CMY color mixing.
    ColorRgbCyan,
    /// Controls the fixture’s magenta attribute for indirect CMY color mixing.
    ColorRgbMagenta,
    /// Controls the fixture’s yellow attribute for indirect CMY color mixing.
    ColorRgbYellow,
    /// Controls the fixture’s quality attribute for indirect color mixing.
    ColorRgbQuality,
    /// Adjusts color boost red of content.
    VideoBoostR,
    /// Adjusts color boost green of content.
    VideoBoostG,
    /// Adjusts color boost blue of content.
    VideoBoostB,
    /// Adjusts color hue shift of content.
    VideoHueShift,
    /// Adjusts saturation of content.
    VideoSaturation,
    /// Adjusts brightness of content.
    VideoBrightness,
    /// Adjusts contrast of content.
    VideoContrast,
    /// Adjusts red color for color keying.
    VideoKeyColorR,
    /// Adjusts green color for color keying.
    VideoKeyColorG,
    /// Adjusts blue color for color keying.
    VideoKeyColorB,
    /// Adjusts intensity of color keying.
    VideoKeyIntensity,
    /// Adjusts tolerance of color keying.
    VideoKeyTolerance,
    /// Controls the length of a strobe flash.
    StrobeDuration,
    /// Controls the time between strobe flashes.
    StrobeRate,
    /// Controls the frequency of strobe flashes.
    StrobeFrequency,
    /// Strobe mode shutter. Use this attribute together with StrobeFrequency to
    /// define the type of the shutter / strobe.
    StrobeModeShutter,
    /// Strobe mode strobe. Use this attribute together with StrobeFrequency to
    /// define the type of the shutter / strobe.
    StrobeModeStrobe,
    /// Strobe mode pulse. Use this attribute together with StrobeFrequency to
    /// define the type of the shutter / strobe.
    StrobeModePulse,
    /// Strobe mode opening pulse. Use this attribute together with
    /// StrobeFrequency to define the type of the shutter / strobe.
    StrobeModePulseOpen,
    /// Strobe mode closing pulse. Use this attribute together with
    /// StrobeFrequency to define the type of the shutter / strobe.
    StrobeModePulseClose,
    /// Strobe mode random strobe. Use this attribute together with
    /// StrobeFrequency to define the type of the shutter / strobe.
    StrobeModeRandom,
    /// Strobe mode random pulse. Use this attribute together with
    /// StrobeFrequency to define the type of the shutter / strobe.
    StrobeModeRandomPulse,
    /// Strobe mode random opening pulse. Use this attribute together with
    /// StrobeFrequency to define the type of the shutter / strobe.
    StrobeModeRandomPulseOpen,
    /// Strobe mode random closing pulse. Use this attribute together with
    /// StrobeFrequency to define the type of the shutter / strobe.
    StrobeModeRandomPulseClose,
    /// Strobe mode random shutter effect feature. Use this attribute together
    /// with StrobeFrequency to define the type of the shutter / strobe.
    StrobeModeEffect,
    /// Controls the fixture´s mechanical or electronical shutter feature.
    Shutter(u8),
    /// Controls the frequency of the fixture´s mechanical or electronical
    /// strobe shutter feature.
    ShutterStrobe(u8),
    /// Controls the frequency of the fixture´s mechanical or electronical pulse
    /// shutter feature.
    ShutterStrobePulse(u8),
    /// Controls the frequency of the fixture´s mechanical or electronical
    /// closing pulse shutter feature. The pulse is described by a ramp
    /// function.
    ShutterStrobePulseClose(u8),
    /// Controls the frequency of the fixture´s mechanical or electronical
    /// opening pulse shutter feature. The pulse is described by a ramp
    /// function.
    ShutterStrobePulseOpen(u8),
    /// Controls the frequency of the fixture´s mechanical or electronical
    /// random strobe shutter feature.
    ShutterStrobeRandom(u8),
    /// Controls the frequency of the fixture´s mechanical or electronical
    /// random pulse shutter feature.
    ShutterStrobeRandomPulse(u8),
    /// Controls the frequency of the fixture´s mechanical or electronical
    /// random closing pulse shutter feature. The pulse is described by a ramp
    /// function.
    ShutterStrobeRandomPulseClose(u8),
    /// Controls the frequency of the fixture´s mechanical or electronical
    /// random opening pulse shutter feature. The pulse is described by a ramp
    /// function.
    ShutterStrobeRandomPulseOpen(u8),
    /// Controls the frequency of the fixture´s mechanical or electronical
    /// shutter effect feature.
    ShutterStrobeEffect(u8),
    /// Controls the diameter of the fixture’s beam.
    Iris,
    /// Sets frequency of the iris’s strobe feature.
    IrisStrobe,
    /// Sets frequency of the iris’s random movement.
    IrisStrobeRandom,
    /// Sets frequency of iris’s closing pulse.
    IrisPulseClose,
    /// Sets frequency of iris’s opening pulse.
    IrisPulseOpen,
    /// Sets frequency of iris’s random closing pulse.
    IrisRandomPulseClose,
    /// Sets frequency of iris’s random opening pulse.
    IrisRandomPulseOpen,
    /// The ability to soften the fixture’s spot light with a frosted lens.
    Frost(u8),
    /// Sets frequency of frost’s opening pulse
    FrostPulseOpen(u8),
    /// Sets frequency of frost’s closing pulse.
    FrostPulseClose(u8),
    /// Sets frequency of frost’s ramp.
    FrostRamp(u8),
    /// The fixture's prism wheel (n). Selects prisms in prism wheel (n). A
    /// different channel function sets the angle of the indexed position in the
    /// selected prism or the angular speed of its continuous rotation. This is
    /// the main attribute of prism wheel's (n) wheel control.
    Prism(u8),
    /// Selects prisms whose rotation is continuous in prism wheel (n) and
    /// controls the angular speed of the prism's spin within the same channel
    /// function.
    PrismSelectSpin(u8),
    /// Macro functions of prism wheel (n).
    PrismMacro(u8),
    /// Controls angle of indexed rotation of prisms in prism wheel (n). This is
    /// the main attribute of prism wheel's 1 wheel slot control.
    PrismPos(u8),
    /// Controls the speed and direction of continuous rotation of prisms in
    /// prism wheel (n).
    PrismPosRotate(u8),
    /// Generically predefined macros and effects of a fixture.
    Effects(u8),
    /// Frequency of running effects.
    EffectsRate(u8),
    /// Snapping or smooth look of running effects.
    EffectsFade(u8),
    /// Controls parameter (m) of effect (n).
    EffectsAdjust(u8, u8),
    /// Controls angle of indexed rotation of slot/effect in effect wheel/macro
    /// (n). This is the main attribute of effect wheel/macro (n) slot/effect
    /// control.
    EffectsPos(u8),
    /// Controls speed and direction of slot/effect in effect wheel (n).
    EffectsPosRotate(u8),
    /// Sets offset between running effects and effects 2.
    EffectsSync,
    /// Activates fixture's beam shaper.
    BeamShaper,
    /// Predefined presets for fixture's beam shaper positions.
    BeamShaperMacro,
    /// Indexing of fixture's beam shaper.
    BeamShaperPos,
    /// Continuous rotation of fixture's beam shaper.
    BeamShaperPosRotate,
    /// Controls the spread of the fixture's beam/spot.
    Zoom,
    /// Selects spot mode of zoom.
    ZoomModeSpot,
    /// Selects beam mode of zoom.
    ZoomModeBeam,
    /// Controls the image size within the defined projection. Used on digital
    /// projection based devices.
    DigitalZoom,
    /// Controls the sharpness of the fixture's spot light. Can blur or sharpen
    /// the edge of the spot.
    Focus(u8),
    /// Autofocuses functionality using presets.
    FocusAdjust(u8),
    /// Autofocuses functionality using distance.
    FocusDistance(u8),
    /// Controls the channel of a fixture.
    Control(u8),
    /// Selects different modes of intensity.
    DimmerMode,
    /// Selects different dimmer curves of the fixture.
    DimmerCurve,
    /// Close the light output under certain conditions (movement correction,
    /// gobo movement, etc.).
    BlackoutMode,
    /// Controls LED frequency.
    LedFrequency,
    /// Changes zones of LEDs.
    LedZoneMode,
    /// Controls behavior of LED pixels.
    PixelMode,
    /// Selects fixture's pan mode. Selects between a limited pan range (e.g.
    /// -270 to 270) or a continuous pan range.
    PanMode,
    /// Selects fixture's pan mode. Selects between a limited tilt range (e.g.
    /// -130 to 130) or a continuous tilt range.
    TiltMode,
    /// Selects fixture's pan/tilt mode. Selects between a limited pan/tilt
    /// range or a continuous pan/tilt range.
    PanTiltMode,
    /// Selects the fixture's position mode.
    PositionModes,
    /// Changes control between selecting, indexing, and rotating the gobos of
    /// gobo wheel (n).
    GoboWheelMode(u8),
    /// Defines whether the gobo wheel takes the shortest distance between two
    /// positions.
    GoboWheelShortcutMode,
    /// Changes control between selecting, indexing, and rotating the slots of
    /// animation wheel (n).
    AnimationWheelMode(u8),
    /// Defines whether the animation wheel takes the shortest distance between
    /// two positions.
    AnimationWheelShortcutMode,
    /// Changes control between selecting, continuous selection, half selection,
    /// random selection, color spinning, etc. in colors of color wheel (n).
    ColorMode(u8),
    /// Defines whether the color wheel takes the shortest distance between two
    /// colors.
    ColorWheelShortcutMode,
    /// Controls how Cyan is used within the fixture's cyan CMY-mixing feature.
    CyanMode,
    /// Controls how Cyan is used within the fixture's magenta CMY-mixing.
    MagentaMode,
    /// Controls how Cyan is used within the fixture's yellow CMY-mixing
    /// feature.
    YellowMode,
    /// Changes control between selecting continuous selection, half selection,
    /// random selection, color spinning, etc. in color mixing.
    ColorMixMode,
    /// Selects chromatic behavior of the device.
    ChromaticMode,
    /// Sets calibration mode (for example on/off).
    ColorCalibrationMode,
    /// Controls consistent behavior of color.
    ColorConsistency,
    /// Controls special color related functions.
    ColorControl,
    /// Controls color model (CMY/RGB/HSV…).
    ColorModelMode,
    /// Resets settings of color control channel.
    ColorSettingsReset,
    /// Controls behavior of color uniformity.
    ColorUniformity,
    /// Controls CRI settings of output.
    CriMode,
    /// Custom color related functions (save, recall..).
    CustomColor,
    /// Settings for UV stability color behavior.
    UvStability,
    /// Settings for Wavelength correction of colors.
    WavelengthCorrection,
    /// Controls if White LED is proportionally added to RGB.
    WhiteCount,
    /// Changes strobe style - strobe, pulse, random strobe, etc. - of the
    /// shutter attribute.
    StrobeMode,
    /// Changes modes of the fixture´s zoom.
    ZoomMode,
    /// Changes modes of the fixture's focus - manual or auto- focus.
    FocusMode,
    /// Changes modes of the fixture's iris - linear, strobe, pulse.
    IrisMode,
    /// Controls fan (n) mode.
    FanMode(u8),
    /// Selects follow spot control mode.
    FollowSpotMode,
    /// Changes mode to control either index or rotation of the beam effects.
    BeamEffectIndexRotateMode,
    /// Movement speed of the fixture's intensity.
    IntensityMSpeed,
    /// Movement speed of the fixture's pan/tilt.
    PositionMSpeed,
    /// Movement speed of the fixture's ColorMix presets.
    ColorMixMSpeed,
    /// Movement speed of the fixture's color wheel.
    ColorWheelSelectMSpeed,
    /// Movement speed of the fixture's gobo wheel (n).
    GoboWheelMSpeed(u8),
    /// Movement speed of the fixture's iris.
    IrisMSpeed,
    /// Movement speed of the fixture's prism wheel (n).
    PrismMSpeed(u8),
    /// Movement speed of the fixture's focus.
    FocusMSpeed,
    /// Movement speed of the fixture's frost (n).
    FrostMSpeed(u8),
    /// Movement speed of the fixture's zoom.
    ZoomMSpeed,
    /// Movement speed of the fixture's shapers.
    FrameMSpeed,
    /// General speed of fixture's features.
    GlobalMSpeed,
    /// Movement speed of the fixture's frost.
    ReflectorAdjust,
    /// Generally resets the entire fixture.
    FixtureGlobalReset,
    /// Resets the fixture's dimmer.
    DimmerReset,
    /// Resets the fixture's shutter.
    ShutterReset,
    /// Resets the fixture's beam features.
    BeamReset,
    /// Resets the fixture's color mixing system.
    ColorMixReset,
    /// Resets the fixture's color wheel.
    ColorWheelReset,
    /// Resets the fixture's focus.
    FocusReset,
    /// Resets the fixture's shapers.
    FrameReset,
    /// Resets the fixture's gobo wheel.
    GoboWheelReset,
    /// Resets the fixture's intensity.
    IntensityReset,
    /// Resets the fixture's iris.
    IrisReset,
    /// Resets the fixture's pan/tilt.
    PositionReset,
    /// Resets the fixture's pan.
    PanReset,
    /// Resets the fixture's tilt.
    TiltReset,
    /// Resets the fixture's zoom.
    ZoomReset,
    /// Resets the fixture's CTB.
    CtbReset,
    /// Resets the fixture's CTO.
    CtoReset,
    /// Resets the fixture's CTC.
    CtcReset,
    /// Resets the fixture's animation system features.
    AnimationSystemReset,
    /// Resets the fixture's calibration.
    FixtureCalibrationReset,
    /// Generally controls features of the fixture.
    Function,
    /// Controls the fixture's lamp on/lamp off feature.
    LampControl,
    /// Adjusts intensity of display.
    DisplayIntensity,
    /// Selects DMX Input.
    DmxInput,
    /// Ranges without a functionality.
    NoFeature,
    /// Fog or hazer's blower feature.
    Blower(u8),
    /// Fog or hazer's Fan feature.
    Fan(u8),
    /// Fog or hazer's Fog feature.
    Fog(u8),
    /// Fog or hazer's Haze feature.
    Haze(u8),
    /// Controls the energy consumption of the lamp.
    LampPowerMode,
    /// Controls a fixture or device fan.
    Fans,
    /// 1 of 2 shutters that shape the top/right/bottom/left of the beam.
    BladeA(u8),
    /// 2 of 2 shutters that shape the top/right/bottom/left of the beam.
    BladeB(u8),
    /// Rotates position of blade(n).
    BladeRot(u8),
    /// Rotates position of blade assembly.
    ShaperRot,
    /// Predefined presets for shaper positions.
    ShaperMacros,
    /// Speed of predefined effects on shapers.
    ShaperMacrosSpeed,
    /// 1 of 2 soft edge blades that shape the top/right/bottom/left of the
    /// beam.
    BladeSoftA(u8),
    /// 2 of 2 soft edge blades that shape the top/right/bottom/left of the
    /// beam.
    BladeSoftB(u8),
    /// 1 of 2 corners that shape the top/right/bottom/left of the beam.
    KeyStoneA(u8),
    /// 2 of 2 corners that shape the top/right/bottom/left of the beam.
    KeyStoneB(u8),
    /// Controls video features.
    Video,
    /// Selects dedicated effects which are used for media.
    VideoEffectType(u8),
    /// Controls parameter (m) of VideoEffect(n)Type.
    VideoEffectParameter(u8, u8),
    /// Selects the video camera(n).
    VideoCamera(u8),
    /// Adjusts sound volume.
    VideoSoundVolume(u8),
    /// Defines mode of video blending.
    VideoBlendMode,
    /// Defines media input source e.g. a camera input.
    InputSource,
    /// Defines field of view.
    FieldOfView,
    /// Any other non-standard attribute.
    Custom(String),
}

/// The model of an [Attribute]: the same variants, with the name of a
/// custom attribute as a sequence of characters.
pub enum AttributeView {
    Dimmer,
    Pan,
    Tilt,
    PanRotate,
    TiltRotate,
    PositionEffect,
    PositionEffectRate,
    PositionEffectFade,
    XyzX,
    XyzY,
    XyzZ,
    RotX,
    RotY,
    RotZ,
    ScaleX,
    ScaleY,
    ScaleZ,
    ScaleXYZ,
    Gobo(u8),
    GoboSelectSpin(u8),
    GoboSelectShake(u8),
    GoboSelectEffects(u8),
    GoboWheelIndex(u8),
    GoboWheelSpin(u8),
    GoboWheelShake(u8),
    GoboWheelRandom(u8),
    GoboWheelAudio(u8),
    GoboPos(u8),
    GoboPosRotate(u8),
    GoboPosShake(u8),
    AnimationWheel(u8),
    AnimationWheelAudio(u8),
    AnimationWheelMacro(u8),
    AnimationWheelRandom(u8),
    AnimationWheelSelectEffects(u8),
    AnimationWheelSelectShake(u8),
    AnimationWheelSelectSpin(u8),
    AnimationWheelPos(u8),
    AnimationWheelPosRotate(u8),
    AnimationWheelPosShake(u8),
    AnimationSystem(u8),
    AnimationSystemRamp(u8),
    AnimationSystemShake(u8),
    AnimationSystemAudio(u8),
    AnimationSystemRandom(u8),
    AnimationSystemPos(u8),
    AnimationSystemPosRotate(u8),
    AnimationSystemPosShake(u8),
    AnimationSystemPosRandom(u8),
    AnimationSystemPosAudio(u8),
    AnimationSystemMacro(u8),
    MediaFolder(u8),
    MediaContent(u8),
    ModelFolder(u8),
    ModelContent(u8),
    PlayMode,
    PlayBegin,
    PlayEnd,
    PlaySpeed,
    ColorEffects(u8),
    Color(u8),
    ColorWheelIndex(u8),
    ColorWheelSpin(u8),
    ColorWheelRandom(u8),
    ColorWheelAudio(u8),
    ColorAddR,
    ColorAddG,
    ColorAddB,
    ColorAddC,
    ColorAddM,
    ColorAddY,
    ColorAddRY,
    ColorAddGY,
    ColorAddGC,
    ColorAddBC,
    ColorAddBM,
    ColorAddRM,
    ColorAddW,
    ColorAddWW,
    ColorAddCW,
    ColorAddUV,
    ColorSubR,
    ColorSubG,
    ColorSubB,
    ColorSubC,
    ColorSubM,
    ColorSubY,
    ColorMacro(u8),
    ColorMacroRate(u8),
    Cto,
    Ctc,
    Ctb,
    Tint,
    HsbHue,
    HsbSaturation,
    HsbBrightness,
    HsbQuality,
    CieX,
    CieY,
    CieBrightness,
    ColorRgbRed,
    ColorRgbGreen,
    ColorRgbBlue,
    ColorRgbCyan,
    ColorRgbMagenta,
    ColorRgbYellow,
    ColorRgbQuality,
    VideoBoostR,
    VideoBoostG,
    VideoBoostB,
    VideoHueShift,
    VideoSaturation,
    VideoBrightness,
    VideoContrast,
    VideoKeyColorR,
    VideoKeyColorG,
    VideoKeyColorB,
    VideoKeyIntensity,
    VideoKeyTolerance,
    StrobeDuration,
    StrobeRate,
    StrobeFrequency,
    StrobeModeShutter,
    StrobeModeStrobe,
    StrobeModePulse,
    StrobeModePulseOpen,
    StrobeModePulseClose,
    StrobeModeRandom,
    StrobeModeRandomPulse,
    StrobeModeRandomPulseOpen,
    StrobeModeRandomPulseClose,
    StrobeModeEffect,
    Shutter(u8),
    ShutterStrobe(u8),
    ShutterStrobePulse(u8),
    ShutterStrobePulseClose(u8),
    ShutterStrobePulseOpen(u8),
    ShutterStrobeRandom(u8),
    ShutterStrobeRandomPulse(u8),
    ShutterStrobeRandomPulseClose(u8),
    ShutterStrobeRandomPulseOpen(u8),
    ShutterStrobeEffect(u8),
    Iris,
    IrisStrobe,
    IrisStrobeRandom,
    IrisPulseClose,
    IrisPulseOpen,
    IrisRandomPulseClose,
    IrisRandomPulseOpen,
    Frost(u8),
    FrostPulseOpen(u8),
    FrostPulseClose(u8),
    FrostRamp(u8),
    Prism(u8),
    PrismSelectSpin(u8),
    PrismMacro(u8),
    PrismPos(u8),
    PrismPosRotate(u8),
    Effects(u8),
    EffectsRate(u8),
    EffectsFade(u8),
    EffectsAdjust(u8, u8),
    EffectsPos(u8),
    EffectsPosRotate(u8),
    EffectsSync,
    BeamShaper,
    BeamShaperMacro,
    BeamShaperPos,
    BeamShaperPosRotate,
    Zoom,
    ZoomModeSpot,
    ZoomModeBeam,
    DigitalZoom,
    Focus(u8),
    FocusAdjust(u8),
    FocusDistance(u8),
    Control(u8),
    DimmerMode,
    DimmerCurve,
    BlackoutMode,
    LedFrequency,
    LedZoneMode,
    PixelMode,
    PanMode,
    TiltMode,
    PanTiltMode,
    PositionModes,
    GoboWheelMode(u8),
    GoboWheelShortcutMode,
    AnimationWheelMode(u8),
    AnimationWheelShortcutMode,
    ColorMode(u8),
    ColorWheelShortcutMode,
    CyanMode,
    MagentaMode,
    YellowMode,
    ColorMixMode,
    ChromaticMode,
    ColorCalibrationMode,
    ColorConsistency,
    ColorControl,
    ColorModelMode,
    ColorSettingsReset,
    ColorUniformity,
    CriMode,
    CustomColor,
    UvStability,
    WavelengthCorrection,
    WhiteCount,
    StrobeMode,
    ZoomMode,
    FocusMode,
    IrisMode,
    FanMode(u8),
    FollowSpotMode,
    BeamEffectIndexRotateMode,
    IntensityMSpeed,
    PositionMSpeed,
    ColorMixMSpeed,
    ColorWheelSelectMSpeed,
    GoboWheelMSpeed(u8),
    IrisMSpeed,
    PrismMSpeed(u8),
    FocusMSpeed,
    FrostMSpeed(u8),
    ZoomMSpeed,
    FrameMSpeed,
    GlobalMSpeed,
    ReflectorAdjust,
    FixtureGlobalReset,
    DimmerReset,
    ShutterReset,
    BeamReset,
    ColorMixReset,
    ColorWheelReset,
    FocusReset,
    FrameReset,
    GoboWheelReset,
    IntensityReset,
    IrisReset,
    PositionReset,
    PanReset,
    TiltReset,
    ZoomReset,
    CtbReset,
    CtoReset,
    CtcReset,
    AnimationSystemReset,
    FixtureCalibrationReset,
    Function,
    LampControl,
    DisplayIntensity,
    DmxInput,
    NoFeature,
    Blower(u8),
    Fan(u8),
    Fog(u8),
    Haze(u8),
    LampPowerMode,
    Fans,
    BladeA(u8),
    BladeB(u8),
    BladeRot(u8),
    ShaperRot,
    ShaperMacros,
    ShaperMacrosSpeed,
    BladeSoftA(u8),
    BladeSoftB(u8),
    KeyStoneA(u8),
    KeyStoneB(u8),
    Video,
    VideoEffectType(u8),
    VideoEffectParameter(u8, u8),
    VideoCamera(u8),
    VideoSoundVolume(u8),
    VideoBlendMode,
    InputSource,
    FieldOfView,
    Custom(Seq<char>),
}

/// Represents a group of features. For example, the 'Pan' and 'Tilt' attributes
/// both control the position of a fixture, and so their feature group is
/// 'Position'.
#[derive(Debug, Clone, Copy, PartialEq, Eq, Structural, Hash)]
pub enum FeatureGroup {
    /// Dimmer feature group.
    Dimmer,
    /// Position feature group.
    Position,
    /// Gobo feature group.
    Gobo,
    /// Color feature group.
    Color,
    /// Beam feature group.
    Beam,
    /// Focus feature group.
    Focus,
    /// Control feature group.
    Control,
    /// Shapers feature group.
    Shapers,
    /// Video feature group.
    Video,
}

impl View for Attribute {
    type V = AttributeView;

    open spec fn view(&self) -> AttributeView {
        match self {
            Attribute::Dimmer => AttributeView::Dimmer,
            Attribute::Pan => AttributeView::Pan,
            Attribute::Tilt => AttributeView::Tilt,
            Attribute::PanRotate => AttributeView::PanRotate,
            Attribute::TiltRotate => AttributeView::TiltRotate,
            Attribute::PositionEffect => AttributeView::PositionEffect,
            Attribute::PositionEffectRate => AttributeView::PositionEffectRate,
            Attribute::PositionEffectFade => AttributeView::PositionEffectFade,
            Attribute::XyzX => AttributeView::XyzX,
            Attribute::XyzY => AttributeView::XyzY,
            Attribute::XyzZ => AttributeView::XyzZ,
            Attribute::RotX => AttributeView::RotX,
            Attribute::RotY => AttributeView::RotY,
            Attribute::RotZ => AttributeView::RotZ,
            Attribute::ScaleX => AttributeView::ScaleX,
            Attribute::ScaleY => AttributeView::ScaleY,
            Attribute::ScaleZ => AttributeView::ScaleZ,
            Attribute::ScaleXYZ => AttributeView::ScaleXYZ,
            Attribute::Gobo(n) => AttributeView::Gobo(*n),
            Attribute::GoboSelectSpin(n) => AttributeView::GoboSelectSpin(*n),
            Attribute::GoboSelectShake(n) => AttributeView::GoboSelectShake(*n),
            Attribute::GoboSelectEffects(n) => AttributeView::GoboSelectEffects(*n),
            Attribute::GoboWheelIndex(n) => AttributeView::GoboWheelIndex(*n),
            Attribute::GoboWheelSpin(n) => AttributeView::GoboWheelSpin(*n),
            Attribute::GoboWheelShake(n) => AttributeView::GoboWheelShake(*n),
            Attribute::GoboWheelRandom(n) => AttributeView::GoboWheelRandom(*n),
            Attribute::GoboWheelAudio(n) => AttributeView::GoboWheelAudio(*n),
            Attribute::GoboPos(n) => AttributeView::GoboPos(*n),
            Attribute::GoboPosRotate(n) => AttributeView::GoboPosRotate(*n),
            Attribute::GoboPosShake(n) => AttributeView::GoboPosShake(*n),
            Attribute::AnimationWheel(n) => AttributeView::AnimationWheel(*n),
            Attribute::AnimationWheelAudio(n) => AttributeView::AnimationWheelAudio(*n),
            Attribute::AnimationWheelMacro(n) => AttributeView::AnimationWheelMacro(*n),
            Attribute::AnimationWheelRandom(n) => AttributeView::AnimationWheelRandom(*n),
            Attribute::AnimationWheelSelectEffects(n) => AttributeView::AnimationWheelSelectEffects(*n),
            Attribute::AnimationWheelSelectShake(n) => AttributeView::AnimationWheelSelectShake(*n),
            Attribute::AnimationWheelSelectSpin(n) => AttributeView::AnimationWheelSelectSpin(*n),
            Attribute::AnimationWheelPos(n) => AttributeView::AnimationWheelPos(*n),
            Attribute::AnimationWheelPosRotate(n) => AttributeView::AnimationWheelPosRotate(*n),
            Attribute::AnimationWheelPosShake(n) => AttributeView::AnimationWheelPosShake(*n),
            Attribute::AnimationSystem(n) => AttributeView::AnimationSystem(*n),
            Attribute::AnimationSystemRamp(n) => AttributeView::AnimationSystemRamp(*n),
            Attribute::AnimationSystemShake(n) => AttributeView::AnimationSystemShake(*n),
            Attribute::AnimationSystemAudio(n) => AttributeView::AnimationSystemAudio(*n),
            Attribute::AnimationSystemRandom(n) => AttributeView::AnimationSystemRandom(*n),
            Attribute::AnimationSystemPos(n) => AttributeView::AnimationSystemPos(*n),
            Attribute::AnimationSystemPosRotate(n) => AttributeView::AnimationSystemPosRotate(*n),
            Attribute::AnimationSystemPosShake(n) => AttributeView::AnimationSystemPosShake(*n),
            Attribute::AnimationSystemPosRandom(n) => AttributeView::AnimationSystemPosRandom(*n),
            Attribute::AnimationSystemPosAudio(n) => AttributeView::AnimationSystemPosAudio(*n),
            Attribute::AnimationSystemMacro(n) => AttributeView::AnimationSystemMacro(*n),
            Attribute::MediaFolder(n) => AttributeView::MediaFolder(*n),
            Attribute::MediaContent(n) => AttributeView::MediaContent(*n),
            Attribute::ModelFolder(n) => AttributeView::ModelFolder(*n),
            Attribute::ModelContent(n) => AttributeView::ModelContent(*n),
            Attribute::PlayMode => AttributeView::PlayMode,
            Attribute::PlayBegin => AttributeView::PlayBegin,
            Attribute::PlayEnd => AttributeView::PlayEnd,
            Attribute::PlaySpeed => AttributeView::PlaySpeed,
            Attribute::ColorEffects(n) => AttributeView::ColorEffects(*n),
            Attribute::Color(n) => AttributeView::Color(*n),
            Attribute::ColorWheelIndex(n) => AttributeView::ColorWheelIndex(*n),
            Attribute::ColorWheelSpin(n) => AttributeView::ColorWheelSpin(*n),
            Attribute::ColorWheelRandom(n) => AttributeView::ColorWheelRandom(*n),
            Attribute::ColorWheelAudio(n) => AttributeView::ColorWheelAudio(*n),
            Attribute::ColorAddR => AttributeView::ColorAddR,
            Attribute::ColorAddG => AttributeView::ColorAddG,
            Attribute::ColorAddB => AttributeView::ColorAddB,
            Attribute::ColorAddC => AttributeView::ColorAddC,
            Attribute::ColorAddM => AttributeView::ColorAddM,
            Attribute::ColorAddY => AttributeView::ColorAddY,
            Attribute::ColorAddRY => AttributeView::ColorAddRY,
            Attribute::ColorAddGY => AttributeView::ColorAddGY,
            Attribute::ColorAddGC => AttributeView::ColorAddGC,
            Attribute::ColorAddBC => AttributeView::ColorAddBC,
            Attribute::ColorAddBM => AttributeView::ColorAddBM,
            Attribute::ColorAddRM => AttributeView::ColorAddRM,
            Attribute::ColorAddW => AttributeView::ColorAddW,
            Attribute::ColorAddWW => AttributeView::ColorAddWW,
            Attribute::ColorAddCW => AttributeView::ColorAddCW,
            Attribute::ColorAddUV => AttributeView::ColorAddUV,
            Attribute::ColorSubR => AttributeView::ColorSubR,
            Attribute::ColorSubG => AttributeView::ColorSubG,
            Attribute::ColorSubB => AttributeView::ColorSubB,
            Attribute::ColorSubC => AttributeView::ColorSubC,
            Attribute::ColorSubM => AttributeView::ColorSubM,
            Attribute::ColorSubY => AttributeView::ColorSubY,
            Attribute::ColorMacro(n) => AttributeView::ColorMacro(*n),
            Attribute::ColorMacroRate(n) => AttributeView::ColorMacroRate(*n),
            Attribute::Cto => AttributeView::Cto,
            Attribute::Ctc => AttributeView::Ctc,
            Attribute::Ctb => AttributeView::Ctb,
            Attribute::Tint => AttributeView::Tint,
            Attribute::HsbHue => AttributeView::HsbHue,
            Attribute::HsbSaturation => AttributeView::HsbSaturation,
            Attribute::HsbBrightness => AttributeView::HsbBrightness,
            Attribute::HsbQuality => AttributeView::HsbQuality,
            Attribute::CieX => AttributeView::CieX,
            Attribute::CieY => AttributeView::CieY,
            Attribute::CieBrightness => AttributeView::CieBrightness,
            Attribute::ColorRgbRed => AttributeView::ColorRgbRed,
            Attribute::ColorRgbGreen => AttributeView::ColorRgbGreen,
            Attribute::ColorRgbBlue => AttributeView::ColorRgbBlue,
            Attribute::ColorRgbCyan => AttributeView::ColorRgbCyan,
            Attribute::ColorRgbMagenta => AttributeView::ColorRgbMagenta,
            Attribute::ColorRgbYellow => AttributeView::ColorRgbYellow,
            Attribute::ColorRgbQuality => AttributeView::ColorRgbQuality,
            Attribute::VideoBoostR => AttributeView::VideoBoostR,
            Attribute::VideoBoostG => AttributeView::VideoBoostG,
            Attribute::VideoBoostB => AttributeView::VideoBoostB,
            Attribute::VideoHueShift => AttributeView::VideoHueShift,
            Attribute::VideoSaturation => AttributeView::VideoSaturation,
            Attribute::VideoBrightness => AttributeView::VideoBrightness,
            Attribute::VideoContrast => AttributeView::VideoContrast,
            Attribute::VideoKeyColorR => AttributeView::VideoKeyColorR,
            Attribute::VideoKeyColorG => AttributeView::VideoKeyColorG,
            Attribute::VideoKeyColorB => AttributeView::VideoKeyColorB,
            Attribute::VideoKeyIntensity => AttributeView::VideoKeyIntensity,
            Attribute::VideoKeyTolerance => AttributeView::VideoKeyTolerance,
            Attribute::StrobeDuration => AttributeView::StrobeDuration,
            Attribute::StrobeRate => AttributeView::StrobeRate,
            Attribute::StrobeFrequency => AttributeView::StrobeFrequency,
            Attribute::StrobeModeShutter => AttributeView::StrobeModeShutter,
            Attribute::StrobeModeStrobe => AttributeView::StrobeModeStrobe,
            Attribute::StrobeModePulse => AttributeView::StrobeModePulse,
            Attribute::StrobeModePulseOpen => AttributeView::StrobeModePulseOpen,
            Attribute::StrobeModePulseClose => AttributeView::StrobeModePulseClose,
            Attribute::StrobeModeRandom => AttributeView::StrobeModeRandom,
            Attribute::StrobeModeRandomPulse => AttributeView::StrobeModeRandomPulse,
            Attribute::StrobeModeRandomPulseOpen => AttributeView::StrobeModeRandomPulseOpen,
            Attribute::StrobeModeRandomPulseClose => AttributeView::StrobeModeRandomPulseClose,
            Attribute::StrobeModeEffect => AttributeView::StrobeModeEffect,
            Attribute::Shutter(n) => AttributeView::Shutter(*n),
            Attribute::ShutterStrobe(n) => AttributeView::ShutterStrobe(*n),
            Attribute::ShutterStrobePulse(n) => AttributeView::ShutterStrobePulse(*n),
            Attribute::ShutterStrobePulseClose(n) => AttributeView::ShutterStrobePulseClose(*n),
            Attribute::ShutterStrobePulseOpen(n) => AttributeView::ShutterStrobePulseOpen(*n),
            Attribute::ShutterStrobeRandom(n) => AttributeView::ShutterStrobeRandom(*n),
            Attribute::ShutterStrobeRandomPulse(n) => AttributeView::ShutterStrobeRandomPulse(*n),
            Attribute::ShutterStrobeRandomPulseClose(n) => AttributeView::ShutterStrobeRandomPulseClose(*n),
            Attribute::ShutterStrobeRandomPulseOpen(n) => AttributeView::ShutterStrobeRandomPulseOpen(*n),
            Attribute::ShutterStrobeEffect(n) => AttributeView::ShutterStrobeEffect(*n),
            Attribute::Iris => AttributeView::Iris,
            Attribute::IrisStrobe => AttributeView::IrisStrobe,
            Attribute::IrisStrobeRandom => AttributeView::IrisStrobeRandom,
            Attribute::IrisPulseClose => AttributeView::IrisPulseClose,
            Attribute::IrisPulseOpen => AttributeView::IrisPulseOpen,
            Attribute::IrisRandomPulseClose => AttributeView::IrisRandomPulseClose,
            Attribute::IrisRandomPulseOpen => AttributeView::IrisRandomPulseOpen,
            Attribute::Frost(n) => AttributeView::Frost(*n),
            Attribute::FrostPulseOpen(n) => AttributeView::FrostPulseOpen(*n),
            Attribute::FrostPulseClose(n) => AttributeView::FrostPulseClose(*n),
            Attribute::FrostRamp(n) => AttributeView::FrostRamp(*n),
            Attribute::Prism(n) => AttributeView::Prism(*n),
            Attribute::PrismSelectSpin(n) => AttributeView::PrismSelectSpin(*n),
            Attribute::PrismMacro(n) => AttributeView::PrismMacro(*n),
            Attribute::PrismPos(n) => AttributeView::PrismPos(*n),
            Attribute::PrismPosRotate(n) => AttributeView::PrismPosRotate(*n),
            Attribute::Effects(n) => AttributeView::Effects(*n),
            Attribute::EffectsRate(n) => AttributeView::EffectsRate(*n),
            Attribute::EffectsFade(n) => AttributeView::EffectsFade(*n),
            Attribute::EffectsAdjust(n, m) => AttributeView::EffectsAdjust(*n, *m),
            Attribute::EffectsPos(n) => AttributeView::EffectsPos(*n),
            Attribute::EffectsPosRotate(n) => AttributeView::EffectsPosRotate(*n),
            Attribute::EffectsSync => AttributeView::EffectsSync,
            Attribute::BeamShaper => AttributeView::BeamShaper,
            Attribute::BeamShaperMacro => AttributeView::BeamShaperMacro,
            Attribute::BeamShaperPos => AttributeView::BeamShaperPos,
            Attribute::BeamShaperPosRotate => AttributeView::BeamShaperPosRotate,
            Attribute::Zoom => AttributeView::Zoom,
            Attribute::ZoomModeSpot => AttributeView::ZoomModeSpot,
            Attribute::ZoomModeBeam => AttributeView::ZoomModeBeam,
            Attribute::DigitalZoom => AttributeView::DigitalZoom,
            Attribute::Focus(n) => AttributeView::Focus(*n),
            Attribute::FocusAdjust(n) => AttributeView::FocusAdjust(*n),
            Attribute::FocusDistance(n) => AttributeView::FocusDistance(*n),
            Attribute::Control(n) => AttributeView::Control(*n),
            Attribute::DimmerMode => AttributeView::DimmerMode,
            Attribute::DimmerCurve => AttributeView::DimmerCurve,
            Attribute::BlackoutMode => AttributeView::BlackoutMode,
            Attribute::LedFrequency => AttributeView::LedFrequency,
            Attribute::LedZoneMode => AttributeView::LedZoneMode,
            Attribute::PixelMode => AttributeView::PixelMode,
            Attribute::PanMode => AttributeView::PanMode,
            Attribute::TiltMode => AttributeView::TiltMode,
            Attribute::PanTiltMode => AttributeView::PanTiltMode,
            Attribute::PositionModes => AttributeView::PositionModes,
            Attribute::GoboWheelMode(n) => AttributeView::GoboWheelMode(*n),
            Attribute::GoboWheelShortcutMode => AttributeView::GoboWheelShortcutMode,
            Attribute::AnimationWheelMode(n) => AttributeView::AnimationWheelMode(*n),
            Attribute::AnimationWheelShortcutMode => AttributeView::AnimationWheelShortcutMode,
            Attribute::ColorMode(n) => AttributeView::ColorMode(*n),
            Attribute::ColorWheelShortcutMode => AttributeView::ColorWheelShortcutMode,
            Attribute::CyanMode => AttributeView::CyanMode,
            Attribute::MagentaMode => AttributeView::MagentaMode,
            Attribute::YellowMode => AttributeView::YellowMode,
            Attribute::ColorMixMode => AttributeView::ColorMixMode,
            Attribute::ChromaticMode => AttributeView::ChromaticMode,
            Attribute::ColorCalibrationMode => AttributeView::ColorCalibrationMode,
            Attribute::ColorConsistency => AttributeView::ColorConsistency,
            Attribute::ColorControl => AttributeView::ColorControl,
            Attribute::ColorModelMode => AttributeView::ColorModelMode,
            Attribute::ColorSettingsReset => AttributeView::ColorSettingsReset,
            Attribute::ColorUniformity => AttributeView::ColorUniformity,
            Attribute::CriMode => AttributeView::CriMode,
            Attribute::CustomColor => AttributeView::CustomColor,
            Attribute::UvStability => AttributeView::UvStability,
            Attribute::WavelengthCorrection => AttributeView::WavelengthCorrection,
            Attribute::WhiteCount => AttributeView::WhiteCount,
            Attribute::StrobeMode => AttributeView::StrobeMode,
            Attribute::ZoomMode => AttributeView::ZoomMode,
            Attribute::FocusMode => AttributeView::FocusMode,
            Attribute::IrisMode => AttributeView::IrisMode,
            Attribute::FanMode(n) => AttributeView::FanMode(*n),
            Attribute::FollowSpotMode => AttributeView::FollowSpotMode,
            Attribute::BeamEffectIndexRotateMode => AttributeView::BeamEffectIndexRotateMode,
            Attribute::IntensityMSpeed => AttributeView::IntensityMSpeed,
            Attribute::PositionMSpeed => AttributeView::PositionMSpeed,
            Attribute::ColorMixMSpeed => AttributeView::ColorMixMSpeed,
            Attribute::ColorWheelSelectMSpeed => AttributeView::ColorWheelSelectMSpeed,
            Attribute::GoboWheelMSpeed(n) => AttributeView::GoboWheelMSpeed(*n),
            Attribute::IrisMSpeed => AttributeView::IrisMSpeed,
            Attribute::PrismMSpeed(n) => AttributeView::PrismMSpeed(*n),
            Attribute::FocusMSpeed => AttributeView::FocusMSpeed,
            Attribute::FrostMSpeed(n) => AttributeView::FrostMSpeed(*n),
            Attribute::ZoomMSpeed => AttributeView::ZoomMSpeed,
            Attribute::FrameMSpeed => AttributeView::FrameMSpeed,
            Attribute::GlobalMSpeed => AttributeView::GlobalMSpeed,
            Attribute::ReflectorAdjust => AttributeView::ReflectorAdjust,
            Attribute::FixtureGlobalReset => AttributeView::FixtureGlobalReset,
            Attribute::DimmerReset => AttributeView::DimmerReset,
            Attribute::ShutterReset => AttributeView::ShutterReset,
            Attribute::BeamReset => AttributeView::BeamReset,
            Attribute::ColorMixReset => AttributeView::ColorMixReset,
            Attribute::ColorWheelReset => AttributeView::ColorWheelReset,
            Attribute::FocusReset => AttributeView::FocusReset,
            Attribute::FrameReset => AttributeView::FrameReset,
            Attribute::GoboWheelReset => AttributeView::GoboWheelReset,
            Attribute::IntensityReset => AttributeView::IntensityReset,
            Attribute::IrisReset => AttributeView::IrisReset,
            Attribute::PositionReset => AttributeView::PositionReset,
            Attribute::PanReset => AttributeView::PanReset,
            Attribute::TiltReset => AttributeView::TiltReset,
            Attribute::ZoomReset => AttributeView::ZoomReset,
            Attribute::CtbReset => AttributeView::CtbReset,
            Attribute::CtoReset => AttributeView::CtoReset,
            Attribute::CtcReset => AttributeView::CtcReset,
            Attribute::AnimationSystemReset => AttributeView::AnimationSystemReset,
            Attribute::FixtureCalibrationReset => AttributeView::FixtureCalibrationReset,
            Attribute::Function => AttributeView::Function,
            Attribute::LampControl => AttributeView::LampControl,
            Attribute::DisplayIntensity => AttributeView::DisplayIntensity,
            Attribute::DmxInput => AttributeView::DmxInput,
            Attribute::NoFeature => AttributeView::NoFeature,
            Attribute::Blower(n) => AttributeView::Blower(*n),
            Attribute::Fan(n) => AttributeView::Fan(*n),
            Attribute::Fog(n) => AttributeView::Fog(*n),
            Attribute::Haze(n) => AttributeView::Haze(*n),
            Attribute::LampPowerMode => AttributeView::LampPowerMode,
            Attribute::Fans => AttributeView::Fans,
            Attribute::BladeA(n) => AttributeView::BladeA(*n),
            Attribute::BladeB(n) => AttributeView::BladeB(*n),
            Attribute::BladeRot(n) => AttributeView::BladeRot(*n),
            Attribute::ShaperRot => AttributeView::ShaperRot,
            Attribute::ShaperMacros => AttributeView::ShaperMacros,
            Attribute::ShaperMacrosSpeed => AttributeView::ShaperMacrosSpeed,
            Attribute::BladeSoftA(n) => AttributeView::BladeSoftA(*n),
            Attribute::BladeSoftB(n) => AttributeView::BladeSoftB(*n),
            Attribute::KeyStoneA(n) => AttributeView::KeyStoneA(*n),
            Attribute::KeyStoneB(n) => AttributeView::KeyStoneB(*n),
            Attribute::Video => AttributeView::Video,
            Attribute::VideoEffectType(n) => AttributeView::VideoEffectType(*n),
            Attribute::VideoEffectParameter(n, m) => AttributeView::VideoEffectParameter(*n, *m),
            Attribute::VideoCamera(n) => AttributeView::VideoCamera(*n),
            Attribute::VideoSoundVolume(n) => AttributeView::VideoSoundVolume(*n),
            Attribute::VideoBlendMode => AttributeView::VideoBlendMode,
            Attribute::InputSource => AttributeView::InputSource,
            Attribute::FieldOfView => AttributeView::FieldOfView,
            Attribute::Custom(s) => AttributeView::Custom(s@),
        }
    }
}

impl AttributeView {
    /// The name of the attribute, as GDTF writes it.
    pub open spec fn name(self) -> Seq<char> {
        match self {
            AttributeView::Dimmer => "Dimmer"@,
            AttributeView::Pan => "Pan"@,
            AttributeView::Tilt => "Tilt"@,
            AttributeView::PanRotate => "PanRotate"@,
            AttributeView::TiltRotate => "TiltRotate"@,
            AttributeView::PositionEffect => "PositionEffect"@,
            AttributeView::PositionEffectRate => "PositionEffectRate"@,
            AttributeView::PositionEffectFade => "PositionEffectFade"@,
            AttributeView::XyzX => "XYZ_X"@,
            AttributeView::XyzY => "XYZ_Y"@,
            AttributeView::XyzZ => "XYZ_Z"@,
            AttributeView::RotX => "Rot_X"@,
            AttributeView::RotY => "Rot_Y"@,
            AttributeView::RotZ => "Rot_Z"@,
            AttributeView::ScaleX => "Scale_X"@,
            AttributeView::ScaleY => "Scale_Y"@,
            AttributeView::ScaleZ => "Scale_Z"@,
            AttributeView::ScaleXYZ => "Scale_XYZ"@,
            AttributeView::Gobo(n) => "Gobo"@ + dec(n),
            AttributeView::GoboSelectSpin(n) => "Gobo"@ + dec(n) + "SelectSpin"@,
            AttributeView::GoboSelectShake(n) => "Gobo"@ + dec(n) + "SelectShake"@,
            AttributeView::GoboSelectEffects(n) => "Gobo"@ + dec(n) + "SelectEffects"@,
            AttributeView::GoboWheelIndex(n) => "Gobo"@ + dec(n) + "WheelIndex"@,
            AttributeView::GoboWheelSpin(n) => "Gobo"@ + dec(n) + "WheelSpin"@,
            AttributeView::GoboWheelShake(n) => "Gobo"@ + dec(n) + "WheelShake"@,
            AttributeView::GoboWheelRandom(n) => "Gobo"@ + dec(n) + "WheelRandom"@,
            AttributeView::GoboWheelAudio(n) => "Gobo"@ + dec(n) + "WheelAudio"@,
            AttributeView::GoboPos(n) => "Gobo"@ + dec(n) + "Pos"@,
            AttributeView::GoboPosRotate(n) => "Gobo"@ + dec(n) + "PosRotate"@,
            AttributeView::GoboPosShake(n) => "Gobo"@ + dec(n) + "PosShake"@,
            AttributeView::AnimationWheel(n) => "AnimationWheel"@ + dec(n),
            AttributeView::AnimationWheelAudio(n) => "AnimationWheel"@ + dec(n) + "Audio"@,
            AttributeView::AnimationWheelMacro(n) => "AnimationWheel"@ + dec(n) + "Macro"@,
            AttributeView::AnimationWheelRandom(n) => "AnimationWheel"@ + dec(n) + "Random"@,
            AttributeView::AnimationWheelSelectEffects(n) => "AnimationWheel"@ + dec(n) + "SelectEffects"@,
            AttributeView::AnimationWheelSelectShake(n) => "AnimationWheel"@ + dec(n) + "SelectShake"@,
            AttributeView::AnimationWheelSelectSpin(n) => "AnimationWheel"@ + dec(n) + "SelectSpin"@,
            AttributeView::AnimationWheelPos(n) => "AnimationWheel"@ + dec(n) + "Pos"@,
            AttributeView::AnimationWheelPosRotate(n) => "AnimationWheel"@ + dec(n) + "PosRotate"@,
            AttributeView::AnimationWheelPosShake(n) => "AnimationWheel"@ + dec(n) + "PosShake"@,
            AttributeView::AnimationSystem(n) => "AnimationSystem"@ + dec(n),
            AttributeView::AnimationSystemRamp(n) => "AnimationSystem"@ + dec(n) + "Ramp"@,
            AttributeView::AnimationSystemShake(n) => "AnimationSystem"@ + dec(n) + "Shake"@,
            AttributeView::AnimationSystemAudio(n) => "AnimationSystem"@ + dec(n) + "Audio"@,
            AttributeView::AnimationSystemRandom(n) => "AnimationSystem"@ + dec(n) + "Random"@,
            AttributeView::AnimationSystemPos(n) => "AnimationSystem"@ + dec(n) + "Pos"@,
            AttributeView::AnimationSystemPosRotate(n) => "AnimationSystem"@ + dec(n) + "PosRotate"@,
            AttributeView::AnimationSystemPosShake(n) => "AnimationSystem"@ + dec(n) + "PosShake"@,
            AttributeView::AnimationSystemPosRandom(n) => "AnimationSystem"@ + dec(n) + "PosRandom"@,
            AttributeView::AnimationSystemPosAudio(n) => "AnimationSystem"@ + dec(n) + "PosAudio"@,
            AttributeView::AnimationSystemMacro(n) => "AnimationSystem"@ + dec(n) + "Macro"@,
            AttributeView::MediaFolder(n) => "MediaFolder"@ + dec(n),
            AttributeView::MediaContent(n) => "MediaContent"@ + dec(n),
            AttributeView::ModelFolder(n) => "ModelFolder"@ + dec(n),
            AttributeView::ModelContent(n) => "ModelContent"@ + dec(n),
            AttributeView::PlayMode => "PlayMode"@,
            AttributeView::PlayBegin => "PlayBegin"@,
            AttributeView::PlayEnd => "PlayEnd"@,
            AttributeView::PlaySpeed => "PlaySpeed"@,
            AttributeView::ColorEffects(n) => "ColorEffects"@ + dec(n),
            AttributeView::Color(n) => "Color"@ + dec(n),
            AttributeView::ColorWheelIndex(n) => "Color"@ + dec(n) + "WheelIndex"@,
            AttributeView::ColorWheelSpin(n) => "Color"@ + dec(n) + "WheelSpin"@,
            AttributeView::ColorWheelRandom(n) => "Color"@ + dec(n) + "WheelRandom"@,
            AttributeView::ColorWheelAudio(n) => "Color"@ + dec(n) + "WheelAudio"@,
            AttributeView::ColorAddR => "ColorAdd_R"@,
            AttributeView::ColorAddG => "ColorAdd_G"@,
            AttributeView::ColorAddB => "ColorAdd_B"@,
            AttributeView::ColorAddC => "ColorAdd_C"@,
            AttributeView::ColorAddM => "ColorAdd_M"@,
            AttributeView::ColorAddY => "ColorAdd_Y"@,
            AttributeView::ColorAddRY => "ColorAdd_RY"@,
            AttributeView::ColorAddGY => "ColorAdd_GY"@,
            AttributeView::ColorAddGC => "ColorAdd_GC"@,
            AttributeView::ColorAddBC => "ColorAdd_BC"@,
            AttributeView::ColorAddBM => "ColorAdd_BM"@,
            AttributeView::ColorAddRM => "ColorAdd_RM"@,
            AttributeView::ColorAddW => "ColorAdd_W"@,
            AttributeView::ColorAddWW => "ColorAdd_WW"@,
            AttributeView::ColorAddCW => "ColorAdd_CW"@,
            AttributeView::ColorAddUV => "ColorAdd_UV"@,
            AttributeView::ColorSubR => "ColorSub_R"@,
            AttributeView::ColorSubG => "ColorSub_G"@,
            AttributeView::ColorSubB => "ColorSub_B"@,
            AttributeView::ColorSubC => "ColorSub_C"@,
            AttributeView::ColorSubM => "ColorSub_M"@,
            AttributeView::ColorSubY => "ColorSub_Y"@,
            AttributeView::ColorMacro(n) => "ColorMacro"@ + dec(n),
            AttributeView::ColorMacroRate(n) => "ColorMacro"@ + dec(n) + "Rate"@,
            AttributeView::Cto => "CTO"@,
            AttributeView::Ctc => "CTC"@,
            AttributeView::Ctb => "CTB"@,
            AttributeView::Tint => "Tint"@,
            AttributeView::HsbHue => "HSB_Hue"@,
            AttributeView::HsbSaturation => "HSB_Saturation"@,
            AttributeView::HsbBrightness => "HSB_Brightness"@,
            AttributeView::HsbQuality => "HSB_Quality"@,
            AttributeView::CieX => "CIE_X"@,
            AttributeView::CieY => "CIE_Y"@,
            AttributeView::CieBrightness => "CIE_Brightness"@,
            AttributeView::ColorRgbRed => "ColorRGB_Red"@,
            AttributeView::ColorRgbGreen => "ColorRGB_Green"@,
            AttributeView::ColorRgbBlue => "ColorRGB_Blue"@,
            AttributeView::ColorRgbCyan => "ColorRGB_Cyan"@,
            AttributeView::ColorRgbMagenta => "ColorRGB_Magenta"@,
            AttributeView::ColorRgbYellow => "ColorRGB_Yellow"@,
            AttributeView::ColorRgbQuality => "ColorRGB_Quality"@,
            AttributeView::VideoBoostR => "VideoBoost_R"@,
            AttributeView::VideoBoostG => "VideoBoost_G"@,
            AttributeView::VideoBoostB => "VideoBoost_B"@,
            AttributeView::VideoHueShift => "VideoHueShift"@,
            AttributeView::VideoSaturation => "VideoSaturation"@,
            AttributeView::VideoBrightness => "VideoBrightness"@,
            AttributeView::VideoContrast => "VideoContrast"@,
            AttributeView::VideoKeyColorR => "VideoKeyColor_R"@,
            AttributeView::VideoKeyColorG => "VideoKeyColor_G"@,
            AttributeView::VideoKeyColorB => "VideoKeyColor_B"@,
            AttributeView::VideoKeyIntensity => "VideoKeyIntensity"@,
            AttributeView::VideoKeyTolerance => "VideoKeyTolerance"@,
            AttributeView::StrobeDuration => "StrobeDuration"@,
            AttributeView::StrobeRate => "StrobeRate"@,
            AttributeView::StrobeFrequency => "StrobeFrequency"@,
            AttributeView::StrobeModeShutter => "StrobeModeShutter"@,
            AttributeView::StrobeModeStrobe => "StrobeModeStrobe"@,
            AttributeView::StrobeModePulse => "StrobeModePulse"@,
            AttributeView::StrobeModePulseOpen => "StrobeModePulseOpen"@,
            AttributeView::StrobeModePulseClose => "StrobeModePulseClose"@,
            AttributeView::StrobeModeRandom => "StrobeModeRandom"@,
            AttributeView::StrobeModeRandomPulse => "StrobeModeRandomPulse"@,
            AttributeView::StrobeModeRandomPulseOpen => "StrobeModeRandomPulseOpen"@,
            AttributeView::StrobeModeRandomPulseClose => "StrobeModeRandomPulseClose"@,
            AttributeView::StrobeModeEffect => "StrobeModeEffect"@,
            AttributeView::Shutter(n) => "Shutter"@ + dec(n),
            AttributeView::ShutterStrobe(n) => "Shutter"@ + dec(n) + "Strobe"@,
            AttributeView::ShutterStrobePulse(n) => "Shutter"@ + dec(n) + "StrobePulse"@,
            AttributeView::ShutterStrobePulseClose(n) => "Shutter"@ + dec(n) + "StrobePulseClose"@,
            AttributeView::ShutterStrobePulseOpen(n) => "Shutter"@ + dec(n) + "StrobePulseOpen"@,
            AttributeView::ShutterStrobeRandom(n) => "Shutter"@ + dec(n) + "StrobeRandom"@,
            AttributeView::ShutterStrobeRandomPulse(n) => "Shutter"@ + dec(n) + "StrobeRandomPulse"@,
            AttributeView::ShutterStrobeRandomPulseClose(n) => "Shutter"@ + dec(n) + "StrobeRandomPulseClose"@,
            AttributeView::ShutterStrobeRandomPulseOpen(n) => "Shutter"@ + dec(n) + "StrobeRandomPulseOpen"@,
            AttributeView::ShutterStrobeEffect(n) => "Shutter"@ + dec(n) + "StrobeEffect"@,
            AttributeView::Iris => "Iris"@,
            AttributeView::IrisStrobe => "IrisStrobe"@,
            AttributeView::IrisStrobeRandom => "IrisStrobeRandom"@,
            AttributeView::IrisPulseClose => "IrisPulseClose"@,
            AttributeView::IrisPulseOpen => "IrisPulseOpen"@,
            AttributeView::IrisRandomPulseClose => "IrisRandomPulseClose"@,
            AttributeView::IrisRandomPulseOpen => "IrisRandomPulseOpen"@,
            AttributeView::Frost(n) => "Frost"@ + dec(n),
            AttributeView::FrostPulseOpen(n) => "Frost"@ + dec(n) + "PulseOpen"@,
            AttributeView::FrostPulseClose(n) => "Frost"@ + dec(n) + "PulseClose"@,
            AttributeView::FrostRamp(n) => "Frost"@ + dec(n) + "Ramp"@,
            AttributeView::Prism(n) => "Prism"@ + dec(n),
            AttributeView::PrismSelectSpin(n) => "Prism"@ + dec(n) + "SelectSpin"@,
            AttributeView::PrismMacro(n) => "Prism"@ + dec(n) + "Macro"@,
            AttributeView::PrismPos(n) => "Prism"@ + dec(n) + "Pos"@,
            AttributeView::PrismPosRotate(n) => "Prism"@ + dec(n) + "PosRotate"@,
            AttributeView::Effects(n) => "Effects"@ + dec(n),
            AttributeView::EffectsRate(n) => "Effects"@ + dec(n) + "Rate"@,
            AttributeView::EffectsFade(n) => "Effects"@ + dec(n) + "Fade"@,
            AttributeView::EffectsAdjust(n, m) => "Effects"@ + dec(n) + "Adjust"@ + dec(m),
            AttributeView::EffectsPos(n) => "Effects"@ + dec(n) + "Pos"@,
            AttributeView::EffectsPosRotate(n) => "Effects"@ + dec(n) + "PosRotate"@,
            AttributeView::EffectsSync => "EffectsSync"@,
            AttributeView::BeamShaper => "BeamShaper"@,
            AttributeView::BeamShaperMacro => "BeamShaperMacro"@,
            AttributeView::BeamShaperPos => "BeamShaperPos"@,
            AttributeView::BeamShaperPosRotate => "BeamShaperPosRotate"@,
            AttributeView::Zoom => "Zoom"@,
            AttributeView::ZoomModeSpot => "ZoomModeSpot"@,
            AttributeView::ZoomModeBeam => "ZoomModeBeam"@,
            AttributeView::DigitalZoom => "DigitalZoom"@,
            AttributeView::Focus(n) => "Focus"@ + dec(n),
            AttributeView::FocusAdjust(n) => "Focus"@ + dec(n) + "Adjust"@,
            AttributeView::FocusDistance(n) => "Focus"@ + dec(n) + "Distance"@,
            AttributeView::Control(n) => "Control"@ + dec(n),
            AttributeView::DimmerMode => "DimmerMode"@,
            AttributeView::DimmerCurve => "DimmerCurve"@,
            AttributeView::BlackoutMode => "BlackoutMode"@,
            AttributeView::LedFrequency => "LEDFrequency"@,
            AttributeView::LedZoneMode => "LEDZoneMode"@,
            AttributeView::PixelMode => "PixelMode"@,
            AttributeView::PanMode => "PanMode"@,
            AttributeView::TiltMode => "TiltMode"@,
            AttributeView::PanTiltMode => "PanTiltMode"@,
            AttributeView::PositionModes => "PositionModes"@,
            AttributeView::GoboWheelMode(n) => "Gobo"@ + dec(n) + "WheelMode"@,
            AttributeView::GoboWheelShortcutMode => "GoboWheelShortcutMode"@,
            AttributeView::AnimationWheelMode(n) => "AnimationWheel"@ + dec(n) + "Mode"@,
            AttributeView::AnimationWheelShortcutMode => "AnimationWheelShortcutMode"@,
            AttributeView::ColorMode(n) => "Color"@ + dec(n) + "Mode"@,
            AttributeView::ColorWheelShortcutMode => "ColorWheelShortcutMode"@,
            AttributeView::CyanMode => "CyanMode"@,
            AttributeView::MagentaMode => "MagentaMode"@,
            AttributeView::YellowMode => "YellowMode"@,
            AttributeView::ColorMixMode => "ColorMixMode"@,
            AttributeView::ChromaticMode => "ChromaticMode"@,
            AttributeView::ColorCalibrationMode => "ColorCalibrationMode"@,
            AttributeView::ColorConsistency => "ColorConsistency"@,
            AttributeView::ColorControl => "ColorControl"@,
            AttributeView::ColorModelMode => "ColorModelMode"@,
            AttributeView::ColorSettingsReset => "ColorSettingsReset"@,
            AttributeView::ColorUniformity => "ColorUniformity"@,
            AttributeView::CriMode => "CRIMode"@,
            AttributeView::CustomColor => "CustomColor"@,
            AttributeView::UvStability => "UVStability"@,
            AttributeView::WavelengthCorrection => "WavelengthCorrection"@,
            AttributeView::WhiteCount => "WhiteCount"@,
            AttributeView::StrobeMode => "StrobeMode"@,
            AttributeView::ZoomMode => "ZoomMode"@,
            AttributeView::FocusMode => "FocusMode"@,
            AttributeView::IrisMode => "IrisMode"@,
            AttributeView::FanMode(n) => "Fan"@ + dec(n) + "Mode"@,
            AttributeView::FollowSpotMode => "FollowSpotMode"@,
            AttributeView::BeamEffectIndexRotateMode => "BeamEffectIndexRotateMode"@,
            AttributeView::IntensityMSpeed => "IntensityMSpeed"@,
            AttributeView::PositionMSpeed => "PositionMSpeed"@,
            AttributeView::ColorMixMSpeed => "ColorMixMSpeed"@,
            AttributeView::ColorWheelSelectMSpeed => "ColorWheelSelectMSpeed"@,
            AttributeView::GoboWheelMSpeed(n) => "GoboWheel"@ + dec(n) + "MSpeed"@,
            AttributeView::IrisMSpeed => "IrisMSpeed"@,
            AttributeView::PrismMSpeed(n) => "Prism"@ + dec(n) + "MSpeed"@,
            AttributeView::FocusMSpeed => "FocusMSpeed"@,
            AttributeView::FrostMSpeed(n) => "Frost"@ + dec(n) + "MSpeed"@,
            AttributeView::ZoomMSpeed => "ZoomMSpeed"@,
            AttributeView::FrameMSpeed => "FrameMSpeed"@,
            AttributeView::GlobalMSpeed => "GlobalMSpeed"@,
            AttributeView::ReflectorAdjust => "ReflectorAdjust"@,
            AttributeView::FixtureGlobalReset => "FixtureGlobalReset"@,
            AttributeView::DimmerReset => "DimmerReset"@,
            AttributeView::ShutterReset => "ShutterReset"@,
            AttributeView::BeamReset => "BeamReset"@,
            AttributeView::ColorMixReset => "ColorMixReset"@,
            AttributeView::ColorWheelReset => "ColorWheelReset"@,
            AttributeView::FocusReset => "FocusReset"@,
            AttributeView::FrameReset => "FrameReset"@,
            AttributeView::GoboWheelReset => "GoboWheelReset"@,
            AttributeView::IntensityReset => "IntensityReset"@,
            AttributeView::IrisReset => "IrisReset"@,
            AttributeView::PositionReset => "PositionReset"@,
            AttributeView::PanReset => "PanReset"@,
            AttributeView::TiltReset => "TiltReset"@,
            AttributeView::ZoomReset => "ZoomReset"@,
            AttributeView::CtbReset => "CTBReset"@,
            AttributeView::CtoReset => "CTOReset"@,
            AttributeView::CtcReset => "CTCReset"@,
            AttributeView::AnimationSystemReset => "AnimationSystemReset"@,
            AttributeView::FixtureCalibrationReset => "FixtureCalibrationReset"@,
            AttributeView::Function => "Function"@,
            AttributeView::LampControl => "LampControl"@,
            AttributeView::DisplayIntensity => "DisplayIntensity"@,
            AttributeView::DmxInput => "DMXInput"@,
            AttributeView::NoFeature => "NoFeature"@,
            AttributeView::Blower(n) => "Blower"@ + dec(n),
            AttributeView::Fan(n) => "Fan"@ + dec(n),
            AttributeView::Fog(n) => "Fog"@ + dec(n),
            AttributeView::Haze(n) => "Haze"@ + dec(n),
            AttributeView::LampPowerMode => "LampPowerMode"@,
            AttributeView::Fans => "Fans"@,
            AttributeView::BladeA(n) => "Blade"@ + dec(n) + "A"@,
            AttributeView::BladeB(n) => "Blade"@ + dec(n) + "B"@,
            AttributeView::BladeRot(n) => "Blade"@ + dec(n) + "Rot"@,
            AttributeView::ShaperRot => "ShaperRot"@,
            AttributeView::ShaperMacros => "ShaperMacros"@,
            AttributeView::ShaperMacrosSpeed => "ShaperMacrosSpeed"@,
            AttributeView::BladeSoftA(n) => "BladeSoft"@ + dec(n) + "A"@,
            AttributeView::BladeSoftB(n) => "BladeSoft"@ + dec(n) + "B"@,
            AttributeView::KeyStoneA(n) => "KeyStone"@ + dec(n) + "A"@,
            AttributeView::KeyStoneB(n) => "KeyStone"@ + dec(n) + "B"@,
            AttributeView::Video => "Video"@,
            AttributeView::VideoEffectType(n) => "VideoEffect"@ + dec(n) + "Type"@,
            AttributeView::VideoEffectParameter(n, m) => "VideoEffect"@ + dec(n) + "Parameter"@ + dec(m),
            AttributeView::VideoCamera(n) => "VideoCamera"@ + dec(n),
            AttributeView::VideoSoundVolume(n) => "VideoSoundVolume"@ + dec(n),
            AttributeView::VideoBlendMode => "VideoBlendMode"@,
            AttributeView::InputSource => "InputSource"@,
            AttributeView::FieldOfView => "FieldOfView"@,
            AttributeView::Custom(s) => s,
        }
    }

    /// The feature group of the attribute; a custom attribute has none.
    pub open spec fn feature_group(self) -> Option<FeatureGroup> {
        match self {
            AttributeView::Dimmer => Some(FeatureGroup::Dimmer),
            AttributeView::Pan
            | AttributeView::Tilt
            | AttributeView::PanRotate
            | AttributeView::TiltRotate
            | AttributeView::PositionEffect
            | AttributeView::PositionEffectRate
            | AttributeView::PositionEffectFade
            | AttributeView::XyzX
            | AttributeView::XyzY
            | AttributeView::XyzZ
            | AttributeView::RotX
            | AttributeView::RotY
            | AttributeView::RotZ
            | AttributeView::ScaleX
            | AttributeView::ScaleY
            | AttributeView::ScaleZ
            | AttributeView::ScaleXYZ => Some(FeatureGroup::Position),
            AttributeView::Gobo(_)
            | AttributeView::GoboSelectSpin(_)
            | AttributeView::GoboSelectShake(_)
            | AttributeView::GoboSelectEffects(_)
            | AttributeView::GoboWheelIndex(_)
            | AttributeView::GoboWheelSpin(_)
            | AttributeView::GoboWheelShake(_)
            | AttributeView::GoboWheelRandom(_)
            | AttributeView::GoboWheelAudio(_)
            | AttributeView::GoboPos(_)
            | AttributeView::GoboPosRotate(_)
            | AttributeView::GoboPosShake(_)
            | AttributeView::AnimationWheel(_)
            | AttributeView::AnimationWheelAudio(_)
            | AttributeView::AnimationWheelMacro(_)
            | AttributeView::AnimationWheelRandom(_)
            | AttributeView::AnimationWheelSelectEffects(_)
            | AttributeView::AnimationWheelSelectShake(_)
            | AttributeView::AnimationWheelSelectSpin(_)
            | AttributeView::AnimationWheelPos(_)
            | AttributeView::AnimationWheelPosRotate(_)
            | AttributeView::AnimationWheelPosShake(_)
            | AttributeView::AnimationSystem(_)
            | AttributeView::AnimationSystemRamp(_)
            | AttributeView::AnimationSystemShake(_)
            | AttributeView::AnimationSystemAudio(_)
            | AttributeView::AnimationSystemRandom(_)
            | AttributeView::AnimationSystemPos(_)
            | AttributeView::AnimationSystemPosRotate(_)
            | AttributeView::AnimationSystemPosShake(_)
            | AttributeView::AnimationSystemPosRandom(_)
            | AttributeView::AnimationSystemPosAudio(_)
            | AttributeView::AnimationSystemMacro(_)
            | AttributeView::MediaFolder(_)
            | AttributeView::MediaContent(_)
            | AttributeView::ModelFolder(_)
            | AttributeView::ModelContent(_)
            | AttributeView::PlayMode
            | AttributeView::PlayBegin
            | AttributeView::PlayEnd
            | AttributeView::PlaySpeed => Some(FeatureGroup::Gobo),
            AttributeView::ColorEffects(_)
            | AttributeView::Color(_)
            | AttributeView::ColorWheelIndex(_)
            | AttributeView::ColorWheelSpin(_)
            | AttributeView::ColorWheelRandom(_)
            | AttributeView::ColorWheelAudio(_)
            | AttributeView::ColorAddR
            | AttributeView::ColorAddG
            | AttributeView::ColorAddB
            | AttributeView::ColorAddC
            | AttributeView::ColorAddM
            | AttributeView::ColorAddY
            | AttributeView::ColorAddRY
            | AttributeView::ColorAddGY
            | AttributeView::ColorAddGC
            | AttributeView::ColorAddBC
            | AttributeView::ColorAddBM
            | AttributeView::ColorAddRM
            | AttributeView::ColorAddW
            | AttributeView::ColorAddWW
            | AttributeView::ColorAddCW
            | AttributeView::ColorAddUV
            | AttributeView::ColorSubR
            | AttributeView::ColorSubG
            | AttributeView::ColorSubB
            | AttributeView::ColorSubC
            | AttributeView::ColorSubM
            | AttributeView::ColorSubY
            | AttributeView::ColorMacro(_)
            | AttributeView::ColorMacroRate(_)
            | AttributeView::Cto
            | AttributeView::Ctc
            | AttributeView::Ctb
            | AttributeView::Tint
            | AttributeView::HsbHue
            | AttributeView::HsbSaturation
            | AttributeView::HsbBrightness
            | AttributeView::HsbQuality
            | AttributeView::CieX
            | AttributeView::CieY
            | AttributeView::CieBrightness
            | AttributeView::ColorRgbRed
            | AttributeView::ColorRgbGreen
            | AttributeView::ColorRgbBlue
            | AttributeView::ColorRgbCyan
            | AttributeView::ColorRgbMagenta
            | AttributeView::ColorRgbYellow
            | AttributeView::ColorRgbQuality
            | AttributeView::VideoBoostR
            | AttributeView::VideoBoostG
            | AttributeView::VideoBoostB
            | AttributeView::VideoHueShift
            | AttributeView::VideoSaturation
            | AttributeView::VideoBrightness
            | AttributeView::VideoContrast
            | AttributeView::VideoKeyColorR
            | AttributeView::VideoKeyColorG
            | AttributeView::VideoKeyColorB
            | AttributeView::VideoKeyIntensity
            | AttributeView::VideoKeyTolerance => Some(FeatureGroup::Color),
            AttributeView::StrobeDuration
            | AttributeView::StrobeRate
            | AttributeView::StrobeFrequency
            | AttributeView::StrobeModeShutter
            | AttributeView::StrobeModeStrobe
            | AttributeView::StrobeModePulse
            | AttributeView::StrobeModePulseOpen
            | AttributeView::StrobeModePulseClose
            | AttributeView::StrobeModeRandom
            | AttributeView::StrobeModeRandomPulse
            | AttributeView::StrobeModeRandomPulseOpen
            | AttributeView::StrobeModeRandomPulseClose
            | AttributeView::StrobeModeEffect
            | AttributeView::Shutter(_)
            | AttributeView::ShutterStrobe(_)
            | AttributeView::ShutterStrobePulse(_)
            | AttributeView::ShutterStrobePulseClose(_)
            | AttributeView::ShutterStrobePulseOpen(_)
            | AttributeView::ShutterStrobeRandom(_)
            | AttributeView::ShutterStrobeRandomPulse(_)
            | AttributeView::ShutterStrobeRandomPulseClose(_)
            | AttributeView::ShutterStrobeRandomPulseOpen(_)
            | AttributeView::ShutterStrobeEffect(_)
            | AttributeView::Iris
            | AttributeView::IrisStrobe
            | AttributeView::IrisStrobeRandom
            | AttributeView::IrisPulseClose
            | AttributeView::IrisPulseOpen
            | AttributeView::IrisRandomPulseClose
            | AttributeView::IrisRandomPulseOpen
            | AttributeView::Frost(_)
            | AttributeView::FrostPulseOpen(_)
            | AttributeView::FrostPulseClose(_)
            | AttributeView::FrostRamp(_)
            | AttributeView::Prism(_)
            | AttributeView::PrismSelectSpin(_)
            | AttributeView::PrismMacro(_)
            | AttributeView::PrismPos(_)
            | AttributeView::PrismPosRotate(_) => Some(FeatureGroup::Beam),
            AttributeView::Effects(_)
            | AttributeView::EffectsRate(_)
            | AttributeView::EffectsFade(_)
            | AttributeView::EffectsAdjust(_, _)
            | AttributeView::EffectsPos(_)
            | AttributeView::EffectsPosRotate(_)
            | AttributeView::EffectsSync
            | AttributeView::BeamShaper
            | AttributeView::BeamShaperMacro
            | AttributeView::BeamShaperPos
            | AttributeView::BeamShaperPosRotate
            | AttributeView::Zoom
            | AttributeView::ZoomModeSpot
            | AttributeView::ZoomModeBeam
            | AttributeView::DigitalZoom
            | AttributeView::Focus(_)
            | AttributeView::FocusAdjust(_)
            | AttributeView::FocusDistance(_) => Some(FeatureGroup::Focus),
            AttributeView::Control(_)
            | AttributeView::DimmerMode
            | AttributeView::DimmerCurve
            | AttributeView::BlackoutMode
            | AttributeView::LedFrequency
            | AttributeView::LedZoneMode
            | AttributeView::PixelMode
            | AttributeView::PanMode
            | AttributeView::TiltMode
            | AttributeView::PanTiltMode
            | AttributeView::PositionModes
            | AttributeView::GoboWheelMode(_)
            | AttributeView::GoboWheelShortcutMode
            | AttributeView::AnimationWheelMode(_)
            | AttributeView::AnimationWheelShortcutMode
            | AttributeView::ColorMode(_)
            | AttributeView::ColorWheelShortcutMode
            | AttributeView::CyanMode
            | AttributeView::MagentaMode
            | AttributeView::YellowMode
            | AttributeView::ColorMixMode
            | AttributeView::ChromaticMode
            | AttributeView::ColorCalibrationMode
            | AttributeView::ColorConsistency
            | AttributeView::ColorControl
            | AttributeView::ColorModelMode
            | AttributeView::ColorSettingsReset
            | AttributeView::ColorUniformity
            | AttributeView::CriMode
            | AttributeView::CustomColor
            | AttributeView::UvStability
            | AttributeView::WavelengthCorrection
            | AttributeView::WhiteCount
            | AttributeView::StrobeMode
            | AttributeView::ZoomMode
            | AttributeView::FocusMode
            | AttributeView::IrisMode
            | AttributeView::FanMode(_)
            | AttributeView::FollowSpotMode
            | AttributeView::BeamEffectIndexRotateMode
            | AttributeView::IntensityMSpeed
            | AttributeView::PositionMSpeed
            | AttributeView::ColorMixMSpeed
            | AttributeView::ColorWheelSelectMSpeed
            | AttributeView::GoboWheelMSpeed(_)
            | AttributeView::IrisMSpeed
            | AttributeView::PrismMSpeed(_)
            | AttributeView::FocusMSpeed
            | AttributeView::FrostMSpeed(_)
            | AttributeView::ZoomMSpeed
            | AttributeView::FrameMSpeed
            | AttributeView::GlobalMSpeed
            | AttributeView::ReflectorAdjust
            | AttributeView::FixtureGlobalReset
            | AttributeView::DimmerReset
            | AttributeView::ShutterReset
            | AttributeView::BeamReset
            | AttributeView::ColorMixReset
            | AttributeView::ColorWheelReset
            | AttributeView::FocusReset
            | AttributeView::FrameReset
            | AttributeView::GoboWheelReset
            | AttributeView::IntensityReset
            | AttributeView::IrisReset
            | AttributeView::PositionReset
            | AttributeView::PanReset
            | AttributeView::TiltReset
            | AttributeView::ZoomReset
            | AttributeView::CtbReset
            | AttributeView::CtoReset
            | AttributeView::CtcReset
            | AttributeView::AnimationSystemReset
            | AttributeView::FixtureCalibrationReset
            | AttributeView::Function
            | AttributeView::LampControl
            | AttributeView::DisplayIntensity
            | AttributeView::DmxInput
            | AttributeView::NoFeature
            | AttributeView::Blower(_)
            | AttributeView::Fan(_)
            | AttributeView::Fog(_)
            | AttributeView::Haze(_)
            | AttributeView::LampPowerMode
            | AttributeView::Fans => Some(FeatureGroup::Control),
            AttributeView::BladeA(_)
            | AttributeView::BladeB(_)
            | AttributeView::BladeRot(_)
            | AttributeView::ShaperRot
            | AttributeView::ShaperMacros
            | AttributeView::ShaperMacrosSpeed
            | AttributeView::BladeSoftA(_)
            | AttributeView::BladeSoftB(_)
            | AttributeView::KeyStoneA(_)
            | AttributeView::KeyStoneB(_) => Some(FeatureGroup::Shapers),
            AttributeView::Video
            | AttributeView::VideoEffectType(_)
            | AttributeView::VideoEffectParameter(_, _)
            | AttributeView::VideoCamera(_)
            | AttributeView::VideoSoundVolume(_)
            | AttributeView::VideoBlendMode
            | AttributeView::InputSource
            | AttributeView::FieldOfView => Some(FeatureGroup::Video),
            AttributeView::Custom(_) => None,
        }
    }

    /// The attribute that a name stands for: a known name gives its
    /// attribute, any other name a custom attribute with that name.
    pub open spec fn parse(s: Seq<char>) -> AttributeView {
        match parse_known(s) {
            Some(a) => a,
            None => AttributeView::Custom(s),
        }
    }
}

/// The attribute of a known name: one of the fixed names, or a numbered
/// name.
pub open spec fn parse_known(s: Seq<char>) -> Option<AttributeView> {
    match parse_fixed(s) {
        Some(a) => Some(a),
        None => parse_numbered(s),
    }
}

/// The attribute of one of the fixed names.
pub open spec fn parse_fixed(s: Seq<char>) -> Option<AttributeView> {
    if parse_fixed_0(s) is Some {
        parse_fixed_0(s)
    } else if parse_fixed_1(s) is Some {
        parse_fixed_1(s)
    } else if parse_fixed_2(s) is Some {
        parse_fixed_2(s)
    } else if parse_fixed_3(s) is Some {
        parse_fixed_3(s)
    } else if parse_fixed_4(s) is Some {
        parse_fixed_4(s)
    } else if parse_fixed_5(s) is Some {
        parse_fixed_5(s)
    } else if parse_fixed_6(s) is Some {
        parse_fixed_6(s)
    } else if parse_fixed_7(s) is Some {
        parse_fixed_7(s)
    } else if parse_fixed_8(s) is Some {
        parse_fixed_8(s)
    } else if parse_fixed_9(s) is Some {
        parse_fixed_9(s)
    } else {
        None
    }
}

/// The attribute of one of the fixed names, part 1 of the table.
pub open spec fn parse_fixed_0(s: Seq<char>) -> Option<AttributeView> {
    if s == "Dimmer"@ {
        Some(AttributeView::Dimmer)
    } else if s == "Pan"@ {
        Some(AttributeView::Pan)
    } else if s == "Tilt"@ {
        Some(AttributeView::Tilt)
    } else if s == "PanRotate"@ {
        Some(AttributeView::PanRotate)
    } else if s == "TiltRotate"@ {
        Some(AttributeView::TiltRotate)
    } else if s == "PositionEffect"@ {
        Some(AttributeView::PositionEffect)
    } else if s == "PositionEffectRate"@ {
        Some(AttributeView::PositionEffectRate)
    } else if s == "PositionEffectFade"@ {
        Some(AttributeView::PositionEffectFade)
    } else if s == "XYZ_X"@ {
        Some(AttributeView::XyzX)
    } else if s == "XYZ_Y"@ {
        Some(AttributeView::XyzY)
    } else if s == "XYZ_Z"@ {
        Some(AttributeView::XyzZ)
    } else if s == "Rot_X"@ {
        Some(AttributeView::RotX)
    } else if s == "Rot_Y"@ {
        Some(AttributeView::RotY)
    } else if s == "Rot_Z"@ {
        Some(AttributeView::RotZ)
    } else if s == "Scale_X"@ {
        Some(AttributeView::ScaleX)
    } else if s == "Scale_Y"@ {
        Some(AttributeView::ScaleY)
    } else if s == "Scale_Z"@ {
        Some(AttributeView::ScaleZ)
    } else if s == "Scale_XYZ"@ {
        Some(AttributeView::ScaleXYZ)
    } else if s == "PlayMode"@ {
        Some(AttributeView::PlayMode)
    } else if s == "PlayBegin"@ {
        Some(AttributeView::PlayBegin)
    } else {
        None
    }
}

/// The attribute of one of the fixed names, part 2 of the table.
pub open spec fn parse_fixed_1(s: Seq<char>) -> Option<AttributeView> {
    if s == "PlayEnd"@ {
        Some(AttributeView::PlayEnd)
    } else if s == "PlaySpeed"@ {
        Some(AttributeView::PlaySpeed)
    } else if s == "ColorAdd_R"@ {
        Some(AttributeView::ColorAddR)
    } else if s == "ColorAdd_G"@ {
        Some(AttributeView::ColorAddG)
    } else if s == "ColorAdd_B"@ {
        Some(AttributeView::ColorAddB)
    } else if s == "ColorAdd_C"@ {
        Some(AttributeView::ColorAddC)
    } else if s == "ColorAdd_M"@ {
        Some(AttributeView::ColorAddM)
    } else if s == "ColorAdd_Y"@ {
        Some(AttributeView::ColorAddY)
    } else if s == "ColorAdd_RY"@ {
        Some(AttributeView::ColorAddRY)
    } else if s == "ColorAdd_GY"@ {
        Some(AttributeView::ColorAddGY)
    } else if s == "ColorAdd_GC"@ {
        Some(AttributeView::ColorAddGC)
    } else if s == "ColorAdd_BC"@ {
        Some(AttributeView::ColorAddBC)
    } else if s == "ColorAdd_BM"@ {
        Some(AttributeView::ColorAddBM)
    } else if s == "ColorAdd_RM"@ {
        Some(AttributeView::ColorAddRM)
    } else if s == "ColorAdd_W"@ {
        Some(AttributeView::ColorAddW)
    } else if s == "ColorAdd_WW"@ {
        Some(AttributeView::ColorAddWW)
    } else if s == "ColorAdd_CW"@ {
        Some(AttributeView::ColorAddCW)
    } else if s == "ColorAdd_UV"@ {
        Some(AttributeView::ColorAddUV)
    } else if s == "ColorSub_R"@ {
        Some(AttributeView::ColorSubR)
    } else if s == "ColorSub_G"@ {
        Some(AttributeView::ColorSubG)
    } else {
        None
    }
}

/// The attribute of one of the fixed names, part 3 of the table.
pub open spec fn parse_fixed_2(s: Seq<char>) -> Option<AttributeView> {
    if s == "ColorSub_B"@ {
        Some(AttributeView::ColorSubB)
    } else if s == "ColorSub_C"@ {
        Some(AttributeView::ColorSubC)
    } else if s == "ColorSub_M"@ {
        Some(AttributeView::ColorSubM)
    } else if s == "ColorSub_Y"@ {
        Some(AttributeView::ColorSubY)
    } else if s == "CTO"@ {
        Some(AttributeView::Cto)
    } else if s == "CTC"@ {
        Some(AttributeView::Ctc)
    } else if s == "CTB"@ {
        Some(AttributeView::Ctb)
    } else if s == "Tint"@ {
        Some(AttributeView::Tint)
    } else if s == "HSB_Hue"@ {
        Some(AttributeView::HsbHue)
    } else if s == "HSB_Saturation"@ {
        Some(AttributeView::HsbSaturation)
    } else if s == "HSB_Brightness"@ {
        Some(AttributeView::HsbBrightness)
    } else if s == "HSB_Quality"@ {
        Some(AttributeView::HsbQuality)
    } else if s == "CIE_X"@ {
        Some(AttributeView::CieX)
    } else if s == "CIE_Y"@ {
        Some(AttributeView::CieY)
    } else if s == "CIE_Brightness"@ {
        Some(AttributeView::CieBrightness)
    } else if s == "ColorRGB_Red"@ {
        Some(AttributeView::ColorRgbRed)
    } else if s == "ColorRGB_Green"@ {
        Some(AttributeView::ColorRgbGreen)
    } else if s == "ColorRGB_Blue"@ {
        Some(AttributeView::ColorRgbBlue)
    } else if s == "ColorRGB_Cyan"@ {
        Some(AttributeView::ColorRgbCyan)
    } else if s == "ColorRGB_Magenta"@ {
        Some(AttributeView::ColorRgbMagenta)
    } else {
        None
    }
}

/// The attribute of one of the fixed names, part 4 of the table.
pub open spec fn parse_fixed_3(s: Seq<char>) -> Option<AttributeView> {
    if s == "ColorRGB_Yellow"@ {
        Some(AttributeView::ColorRgbYellow)
    } else if s == "ColorRGB_Quality"@ {
        Some(AttributeView::ColorRgbQuality)
    } else if s == "VideoBoost_R"@ {
        Some(AttributeView::VideoBoostR)
    } else if s == "VideoBoost_G"@ {
        Some(AttributeView::VideoBoostG)
    } else if s == "VideoBoost_B"@ {
        Some(AttributeView::VideoBoostB)
    } else if s == "VideoHueShift"@ {
        Some(AttributeView::VideoHueShift)
    } else if s == "VideoSaturation"@ {
        Some(AttributeView::VideoSaturation)
    } else if s == "VideoBrightness"@ {
        Some(AttributeView::VideoBrightness)
    } else if s == "VideoContrast"@ {
        Some(AttributeView::VideoContrast)
    } else if s == "VideoKeyColor_R"@ {
        Some(AttributeView::VideoKeyColorR)
    } else if s == "VideoKeyColor_G"@ {
        Some(AttributeView::VideoKeyColorG)
    } else if s == "VideoKeyColor_B"@ {
        Some(AttributeView::VideoKeyColorB)
    } else if s == "VideoKeyIntensity"@ {
        Some(AttributeView::VideoKeyIntensity)
    } else if s == "VideoKeyTolerance"@ {
        Some(AttributeView::VideoKeyTolerance)
    } else if s == "StrobeDuration"@ {
        Some(AttributeView::StrobeDuration)
    } else if s == "StrobeRate"@ {
        Some(AttributeView::StrobeRate)
    } else if s == "StrobeFrequency"@ {
        Some(AttributeView::StrobeFrequency)
    } else if s == "StrobeModeShutter"@ {
        Some(AttributeView::StrobeModeShutter)
    } else if s == "StrobeModeStrobe"@ {
        Some(AttributeView::StrobeModeStrobe)
    } else if s == "StrobeModePulse"@ {
        Some(AttributeView::StrobeModePulse)
    } else {
        None
    }
}

/// The attribute of one of the fixed names, part 5 of the table.
pub open spec fn parse_fixed_4(s: Seq<char>) -> Option<AttributeView> {
    if s == "StrobeModePulseOpen"@ {
        Some(AttributeView::StrobeModePulseOpen)
    } else if s == "StrobeModePulseClose"@ {
        Some(AttributeView::StrobeModePulseClose)
    } else if s == "StrobeModeRandom"@ {
        Some(AttributeView::StrobeModeRandom)
    } else if s == "StrobeModeRandomPulse"@ {
        Some(AttributeView::StrobeModeRandomPulse)
    } else if s == "StrobeModeRandomPulseOpen"@ {
        Some(AttributeView::StrobeModeRandomPulseOpen)
    } else if s == "StrobeModeRandomPulseClose"@ {
        Some(AttributeView::StrobeModeRandomPulseClose)
    } else if s == "StrobeModeEffect"@ {
        Some(AttributeView::StrobeModeEffect)
    } else if s == "Iris"@ {
        Some(AttributeView::Iris)
    } else if s == "IrisStrobe"@ {
        Some(AttributeView::IrisStrobe)
    } else if s == "IrisStrobeRandom"@ {
        Some(AttributeView::IrisStrobeRandom)
    } else if s == "IrisPulseClose"@ {
        Some(AttributeView::IrisPulseClose)
    } else if s == "IrisPulseOpen"@ {
        Some(AttributeView::IrisPulseOpen)
    } else if s == "IrisRandomPulseClose"@ {
        Some(AttributeView::IrisRandomPulseClose)
    } else if s == "IrisRandomPulseOpen"@ {
        Some(AttributeView::IrisRandomPulseOpen)
    } else if s == "EffectsSync"@ {
        Some(AttributeView::EffectsSync)
    } else if s == "BeamShaper"@ {
        Some(AttributeView::BeamShaper)
    } else if s == "BeamShaperMacro"@ {
        Some(AttributeView::BeamShaperMacro)
    } else if s == "BeamShaperPos"@ {
        Some(AttributeView::BeamShaperPos)
    } else if s == "BeamShaperPosRotate"@ {
        Some(AttributeView::BeamShaperPosRotate)
    } else if s == "Zoom"@ {
        Some(AttributeView::Zoom)
    } else {
        None
    }
}

/// The attribute of one of the fixed names, part 6 of the table.
pub open spec fn parse_fixed_5(s: Seq<char>) -> Option<AttributeView> {
    if s == "ZoomModeSpot"@ {
        Some(AttributeView::ZoomModeSpot)
    } else if s == "ZoomModeBeam"@ {
        Some(AttributeView::ZoomModeBeam)
    } else if s == "DigitalZoom"@ {
        Some(AttributeView::DigitalZoom)
    } else if s == "DimmerMode"@ {
        Some(AttributeView::DimmerMode)
    } else if s == "DimmerCurve"@ {
        Some(AttributeView::DimmerCurve)
    } else if s == "BlackoutMode"@ {
        Some(AttributeView::BlackoutMode)
    } else if s == "LEDFrequency"@ {
        Some(AttributeView::LedFrequency)
    } else if s == "LEDZoneMode"@ {
        Some(AttributeView::LedZoneMode)
    } else if s == "PixelMode"@ {
        Some(AttributeView::PixelMode)
    } else if s == "PanMode"@ {
        Some(AttributeView::PanMode)
    } else if s == "TiltMode"@ {
        Some(AttributeView::TiltMode)
    } else if s == "PanTiltMode"@ {
        Some(AttributeView::PanTiltMode)
    } else if s == "PositionModes"@ {
        Some(AttributeView::PositionModes)
    } else if s == "GoboWheelShortcutMode"@ {
        Some(AttributeView::GoboWheelShortcutMode)
    } else if s == "AnimationWheelShortcutMode"@ {
        Some(AttributeView::AnimationWheelShortcutMode)
    } else if s == "ColorWheelShortcutMode"@ {
        Some(AttributeView::ColorWheelShortcutMode)
    } else if s == "CyanMode"@ {
        Some(AttributeView::CyanMode)
    } else if s == "MagentaMode"@ {
        Some(AttributeView::MagentaMode)
    } else if s == "YellowMode"@ {
        Some(AttributeView::YellowMode)
    } else if s == "ColorMixMode"@ {
        Some(AttributeView::ColorMixMode)
    } else {
        None
    }
}

/// The attribute of one of the fixed names, part 7 of the table.
pub open spec fn parse_fixed_6(s: Seq<char>) -> Option<AttributeView> {
    if s == "ChromaticMode"@ {
        Some(AttributeView::ChromaticMode)
    } else if s == "ColorCalibrationMode"@ {
        Some(AttributeView::ColorCalibrationMode)
    } else if s == "ColorConsistency"@ {
        Some(AttributeView::ColorConsistency)
    } else if s == "ColorControl"@ {
        Some(AttributeView::ColorControl)
    } else if s == "ColorModelMode"@ {
        Some(AttributeView::ColorModelMode)
    } else if s == "ColorSettingsReset"@ {
        Some(AttributeView::ColorSettingsReset)
    } else if s == "ColorUniformity"@ {
        Some(AttributeView::ColorUniformity)
    } else if s == "CRIMode"@ {
        Some(AttributeView::CriMode)
    } else if s == "CustomColor"@ {
        Some(AttributeView::CustomColor)
    } else if s == "UVStability"@ {
        Some(AttributeView::UvStability)
    } else if s == "WavelengthCorrection"@ {
        Some(AttributeView::WavelengthCorrection)
    } else if s == "WhiteCount"@ {
        Some(AttributeView::WhiteCount)
    } else if s == "StrobeMode"@ {
        Some(AttributeView::StrobeMode)
    } else if s == "ZoomMode"@ {
        Some(AttributeView::ZoomMode)
    } else if s == "FocusMode"@ {
        Some(AttributeView::FocusMode)
    } else if s == "IrisMode"@ {
        Some(AttributeView::IrisMode)
    } else if s == "FollowSpotMode"@ {
        Some(AttributeView::FollowSpotMode)
    } else if s == "BeamEffectIndexRotateMode"@ {
        Some(AttributeView::BeamEffectIndexRotateMode)
    } else if s == "IntensityMSpeed"@ {
        Some(AttributeView::IntensityMSpeed)
    } else if s == "PositionMSpeed"@ {
        Some(AttributeView::PositionMSpeed)
    } else {
        None
    }
}

/// The attribute of one of the fixed names, part 8 of the table.
pub open spec fn parse_fixed_7(s: Seq<char>) -> Option<AttributeView> {
    if s == "ColorMixMSpeed"@ {
        Some(AttributeView::ColorMixMSpeed)
    } else if s == "ColorWheelSelectMSpeed"@ {
        Some(AttributeView::ColorWheelSelectMSpeed)
    } else if s == "IrisMSpeed"@ {
        Some(AttributeView::IrisMSpeed)
    } else if s == "FocusMSpeed"@ {
        Some(AttributeView::FocusMSpeed)
    } else if s == "ZoomMSpeed"@ {
        Some(AttributeView::ZoomMSpeed)
    } else if s == "FrameMSpeed"@ {
        Some(AttributeView::FrameMSpeed)
    } else if s == "GlobalMSpeed"@ {
        Some(AttributeView::GlobalMSpeed)
    } else if s == "ReflectorAdjust"@ {
        Some(AttributeView::ReflectorAdjust)
    } else if s == "FixtureGlobalReset"@ {
        Some(AttributeView::FixtureGlobalReset)
    } else if s == "DimmerReset"@ {
        Some(AttributeView::DimmerReset)
    } else if s == "ShutterReset"@ {
        Some(AttributeView::ShutterReset)
    } else if s == "BeamReset"@ {
        Some(AttributeView::BeamReset)
    } else if s == "ColorMixReset"@ {
        Some(AttributeView::ColorMixReset)
    } else if s == "ColorWheelReset"@ {
        Some(AttributeView::ColorWheelReset)
    } else if s == "FocusReset"@ {
        Some(AttributeView::FocusReset)
    } else if s == "FrameReset"@ {
        Some(AttributeView::FrameReset)
    } else if s == "GoboWheelReset"@ {
        Some(AttributeView::GoboWheelReset)
    } else if s == "IntensityReset"@ {
        Some(AttributeView::IntensityReset)
    } else if s == "IrisReset"@ {
        Some(AttributeView::IrisReset)
    } else if s == "PositionReset"@ {
        Some(AttributeView::PositionReset)
    } else {
        None
    }
}

/// The attribute of one of the fixed names, part 9 of the table.
pub open spec fn parse_fixed_8(s: Seq<char>) -> Option<AttributeView> {
    if s == "PanReset"@ {
        Some(AttributeView::PanReset)
    } else if s == "TiltReset"@ {
        Some(AttributeView::TiltReset)
    } else if s == "ZoomReset"@ {
        Some(AttributeView::ZoomReset)
    } else if s == "CTBReset"@ {
        Some(AttributeView::CtbReset)
    } else if s == "CTOReset"@ {
        Some(AttributeView::CtoReset)
    } else if s == "CTCReset"@ {
        Some(AttributeView::CtcReset)
    } else if s == "AnimationSystemReset"@ {
        Some(AttributeView::AnimationSystemReset)
    } else if s == "FixtureCalibrationReset"@ {
        Some(AttributeView::FixtureCalibrationReset)
    } else if s == "Function"@ {
        Some(AttributeView::Function)
    } else if s == "LampControl"@ {
        Some(AttributeView::LampControl)
    } else if s == "DisplayIntensity"@ {
        Some(AttributeView::DisplayIntensity)
    } else if s == "DMXInput"@ {
        Some(AttributeView::DmxInput)
    } else if s == "NoFeature"@ {
        Some(AttributeView::NoFeature)
    } else if s == "LampPowerMode"@ {
        Some(AttributeView::LampPowerMode)
    } else if s == "Fans"@ {
        Some(AttributeView::Fans)
    } else if s == "ShaperRot"@ {
        Some(AttributeView::ShaperRot)
    } else if s == "ShaperMacros"@ {
        Some(AttributeView::ShaperMacros)
    } else if s == "ShaperMacrosSpeed"@ {
        Some(AttributeView::ShaperMacrosSpeed)
    } else if s == "Video"@ {
        Some(AttributeView::Video)
    } else if s == "VideoBlendMode"@ {
        Some(AttributeView::VideoBlendMode)
    } else {
        None
    }
}

/// The attribute of one of the fixed names, part 10 of the table.
pub open spec fn parse_fixed_9(s: Seq<char>) -> Option<AttributeView> {
    if s == "InputSource"@ {
        Some(AttributeView::InputSource)
    } else if s == "FieldOfView"@ {
        Some(AttributeView::FieldOfView)
    } else {
        None
    }
}

/// The attribute of a numbered name, tried pattern by pattern in order.
pub open spec fn parse_numbered(s: Seq<char>) -> Option<AttributeView> {
    if parse_numbered_0(s) is Some {
        parse_numbered_0(s)
    } else if parse_numbered_1(s) is Some {
        parse_numbered_1(s)
    } else if parse_numbered_2(s) is Some {
        parse_numbered_2(s)
    } else if parse_numbered_3(s) is Some {
        parse_numbered_3(s)
    } else if parse_numbered_4(s) is Some {
        parse_numbered_4(s)
    } else {
        None
    }
}

/// The attribute of a numbered name, part 1 of the patterns.
pub open spec fn parse_numbered_0(s: Seq<char>) -> Option<AttributeView> {
    if extract_n(s, "Gobo"@) is Some {
        Some(AttributeView::Gobo(extract_n(s, "Gobo"@)->0))
    } else if extract_n_suffix(s, "Gobo"@, "SelectSpin"@) is Some {
        Some(AttributeView::GoboSelectSpin(extract_n_suffix(s, "Gobo"@, "SelectSpin"@)->0))
    } else if extract_n_suffix(s, "Gobo"@, "SelectShake"@) is Some {
        Some(AttributeView::GoboSelectShake(extract_n_suffix(s, "Gobo"@, "SelectShake"@)->0))
    } else if extract_n_suffix(s, "Gobo"@, "SelectEffects"@) is Some {
        Some(AttributeView::GoboSelectEffects(extract_n_suffix(s, "Gobo"@, "SelectEffects"@)->0))
    } else if extract_n_suffix(s, "Gobo"@, "WheelIndex"@) is Some {
        Some(AttributeView::GoboWheelIndex(extract_n_suffix(s, "Gobo"@, "WheelIndex"@)->0))
    } else if extract_n_suffix(s, "Gobo"@, "WheelSpin"@) is Some {
        Some(AttributeView::GoboWheelSpin(extract_n_suffix(s, "Gobo"@, "WheelSpin"@)->0))
    } else if extract_n_suffix(s, "Gobo"@, "WheelShake"@) is Some {
        Some(AttributeView::GoboWheelShake(extract_n_suffix(s, "Gobo"@, "WheelShake"@)->0))
    } else if extract_n_suffix(s, "Gobo"@, "WheelRandom"@) is Some {
        Some(AttributeView::GoboWheelRandom(extract_n_suffix(s, "Gobo"@, "WheelRandom"@)->0))
    } else if extract_n_suffix(s, "Gobo"@, "WheelAudio"@) is Some {
        Some(AttributeView::GoboWheelAudio(extract_n_suffix(s, "Gobo"@, "WheelAudio"@)->0))
    } else if extract_n_suffix(s, "Gobo"@, "Pos"@) is Some {
        Some(AttributeView::GoboPos(extract_n_suffix(s, "Gobo"@, "Pos"@)->0))
    } else if extract_n_suffix(s, "Gobo"@, "PosRotate"@) is Some {
        Some(AttributeView::GoboPosRotate(extract_n_suffix(s, "Gobo"@, "PosRotate"@)->0))
    } else if extract_n_suffix(s, "Gobo"@, "PosShake"@) is Some {
        Some(AttributeView::GoboPosShake(extract_n_suffix(s, "Gobo"@, "PosShake"@)->0))
    } else if extract_n(s, "AnimationWheel"@) is Some {
        Some(AttributeView::AnimationWheel(extract_n(s, "AnimationWheel"@)->0))
    } else if extract_n_suffix(s, "AnimationWheel"@, "Audio"@) is Some {
        Some(AttributeView::AnimationWheelAudio(extract_n_suffix(s, "AnimationWheel"@, "Audio"@)->0))
    } else if extract_n_suffix(s, "AnimationWheel"@, "Macro"@) is Some {
        Some(AttributeView::AnimationWheelMacro(extract_n_suffix(s, "AnimationWheel"@, "Macro"@)->0))
    } else if extract_n_suffix(s, "AnimationWheel"@, "Random"@) is Some {
        Some(AttributeView::AnimationWheelRandom(extract_n_suffix(s, "AnimationWheel"@, "Random"@)->0))
    } else if extract_n_suffix(s, "AnimationWheel"@, "SelectEffects"@) is Some {
        Some(AttributeView::AnimationWheelSelectEffects(extract_n_suffix(s, "AnimationWheel"@, "SelectEffects"@)->0))
    } else if extract_n_suffix(s, "AnimationWheel"@, "SelectShake"@) is Some {
        Some(AttributeView::AnimationWheelSelectShake(extract_n_suffix(s, "AnimationWheel"@, "SelectShake"@)->0))
    } else if extract_n_suffix(s, "AnimationWheel"@, "SelectSpin"@) is Some {
        Some(AttributeView::AnimationWheelSelectSpin(extract_n_suffix(s, "AnimationWheel"@, "SelectSpin"@)->0))
    } else if extract_n_suffix(s, "AnimationWheel"@, "Pos"@) is Some {
        Some(AttributeView::AnimationWheelPos(extract_n_suffix(s, "AnimationWheel"@, "Pos"@)->0))
    } else {
        None
    }
}

/// The attribute of a numbered name, part 2 of the patterns.
pub open spec fn parse_numbered_1(s: Seq<char>) -> Option<AttributeView> {
    if extract_n_suffix(s, "AnimationWheel"@, "PosRotate"@) is Some {
        Some(AttributeView::AnimationWheelPosRotate(extract_n_suffix(s, "AnimationWheel"@, "PosRotate"@)->0))
    } else if extract_n_suffix(s, "AnimationWheel"@, "PosShake"@) is Some {
        Some(AttributeView::AnimationWheelPosShake(extract_n_suffix(s, "AnimationWheel"@, "PosShake"@)->0))
    } else if extract_n(s, "AnimationSystem"@) is Some {
        Some(AttributeView::AnimationSystem(extract_n(s, "AnimationSystem"@)->0))
    } else if extract_n_suffix(s, "AnimationSystem"@, "Ramp"@) is Some {
        Some(AttributeView::AnimationSystemRamp(extract_n_suffix(s, "AnimationSystem"@, "Ramp"@)->0))
    } else if extract_n_suffix(s, "AnimationSystem"@, "Shake"@) is Some {
        Some(AttributeView::AnimationSystemShake(extract_n_suffix(s, "AnimationSystem"@, "Shake"@)->0))
    } else if extract_n_suffix(s, "AnimationSystem"@, "Audio"@) is Some {
        Some(AttributeView::AnimationSystemAudio(extract_n_suffix(s, "AnimationSystem"@, "Audio"@)->0))
    } else if extract_n_suffix(s, "AnimationSystem"@, "Random"@) is Some {
        Some(AttributeView::AnimationSystemRandom(extract_n_suffix(s, "AnimationSystem"@, "Random"@)->0))
    } else if extract_n_suffix(s, "AnimationSystem"@, "Pos"@) is Some {
        Some(AttributeView::AnimationSystemPos(extract_n_suffix(s, "AnimationSystem"@, "Pos"@)->0))
    } else if extract_n_suffix(s, "AnimationSystem"@, "PosRotate"@) is Some {
        Some(AttributeView::AnimationSystemPosRotate(extract_n_suffix(s, "AnimationSystem"@, "PosRotate"@)->0))
    } else if extract_n_suffix(s, "AnimationSystem"@, "PosShake"@) is Some {
        Some(AttributeView::AnimationSystemPosShake(extract_n_suffix(s, "AnimationSystem"@, "PosShake"@)->0))
    } else if extract_n_suffix(s, "AnimationSystem"@, "PosRandom"@) is Some {
        Some(AttributeView::AnimationSystemPosRandom(extract_n_suffix(s, "AnimationSystem"@, "PosRandom"@)->0))
    } else if extract_n_suffix(s, "AnimationSystem"@, "PosAudio"@) is Some {
        Some(AttributeView::AnimationSystemPosAudio(extract_n_suffix(s, "AnimationSystem"@, "PosAudio"@)->0))
    } else if extract_n_suffix(s, "AnimationSystem"@, "Macro"@) is Some {
        Some(AttributeView::AnimationSystemMacro(extract_n_suffix(s, "AnimationSystem"@, "Macro"@)->0))
    } else if extract_n(s, "MediaFolder"@) is Some {
        Some(AttributeView::MediaFolder(extract_n(s, "MediaFolder"@)->0))
    } else if extract_n(s, "MediaContent"@) is Some {
        Some(AttributeView::MediaContent(extract_n(s, "MediaContent"@)->0))
    } else if extract_n(s, "ModelFolder"@) is Some {
        Some(AttributeView::ModelFolder(extract_n(s, "ModelFolder"@)->0))
    } else if extract_n(s, "ModelContent"@) is Some {
        Some(AttributeView::ModelContent(extract_n(s, "ModelContent"@)->0))
    } else if extract_n(s, "ColorEffects"@) is Some {
        Some(AttributeView::ColorEffects(extract_n(s, "ColorEffects"@)->0))
    } else if extract_n(s, "Color"@) is Some {
        Some(AttributeView::Color(extract_n(s, "Color"@)->0))
    } else if extract_n_suffix(s, "Color"@, "WheelIndex"@) is Some {
        Some(AttributeView::ColorWheelIndex(extract_n_suffix(s, "Color"@, "WheelIndex"@)->0))
    } else {
        None
    }
}

/// The attribute of a numbered name, part 3 of the patterns.
pub open spec fn parse_numbered_2(s: Seq<char>) -> Option<AttributeView> {
    if extract_n_suffix(s, "Color"@, "WheelSpin"@) is Some {
        Some(AttributeView::ColorWheelSpin(extract_n_suffix(s, "Color"@, "WheelSpin"@)->0))
    } else if extract_n_suffix(s, "Color"@, "WheelRandom"@) is Some {
        Some(AttributeView::ColorWheelRandom(extract_n_suffix(s, "Color"@, "WheelRandom"@)->0))
    } else if extract_n_suffix(s, "Color"@, "WheelAudio"@) is Some {
        Some(AttributeView::ColorWheelAudio(extract_n_suffix(s, "Color"@, "WheelAudio"@)->0))
    } else if extract_n(s, "ColorMacro"@) is Some {
        Some(AttributeView::ColorMacro(extract_n(s, "ColorMacro"@)->0))
    } else if extract_n_suffix(s, "ColorMacro"@, "Rate"@) is Some {
        Some(AttributeView::ColorMacroRate(extract_n_suffix(s, "ColorMacro"@, "Rate"@)->0))
    } else if extract_n(s, "Shutter"@) is Some {
        Some(AttributeView::Shutter(extract_n(s, "Shutter"@)->0))
    } else if extract_n_suffix(s, "Shutter"@, "Strobe"@) is Some {
        Some(AttributeView::ShutterStrobe(extract_n_suffix(s, "Shutter"@, "Strobe"@)->0))
    } else if extract_n_suffix(s, "Shutter"@, "StrobePulse"@) is Some {
        Some(AttributeView::ShutterStrobePulse(extract_n_suffix(s, "Shutter"@, "StrobePulse"@)->0))
    } else if extract_n_suffix(s, "Shutter"@, "StrobePulseClose"@) is Some {
        Some(AttributeView::ShutterStrobePulseClose(extract_n_suffix(s, "Shutter"@, "StrobePulseClose"@)->0))
    } else if extract_n_suffix(s, "Shutter"@, "StrobePulseOpen"@) is Some {
        Some(AttributeView::ShutterStrobePulseOpen(extract_n_suffix(s, "Shutter"@, "StrobePulseOpen"@)->0))
    } else if extract_n_suffix(s, "Shutter"@, "StrobeRandom"@) is Some {
        Some(AttributeView::ShutterStrobeRandom(extract_n_suffix(s, "Shutter"@, "StrobeRandom"@)->0))
    } else if extract_n_suffix(s, "Shutter"@, "StrobeRandomPulse"@) is Some {
        Some(AttributeView::ShutterStrobeRandomPulse(extract_n_suffix(s, "Shutter"@, "StrobeRandomPulse"@)->0))
    } else if extract_n_suffix(s, "Shutter"@, "StrobeRandomPulseClose"@) is Some {
        Some(AttributeView::ShutterStrobeRandomPulseClose(extract_n_suffix(s, "Shutter"@, "StrobeRandomPulseClose"@)->0))
    } else if extract_n_suffix(s, "Shutter"@, "StrobeRandomPulseOpen"@) is Some {
        Some(AttributeView::ShutterStrobeRandomPulseOpen(extract_n_suffix(s, "Shutter"@, "StrobeRandomPulseOpen"@)->0))
    } else if extract_n_suffix(s, "Shutter"@, "StrobeEffect"@) is Some {
        Some(AttributeView::ShutterStrobeEffect(extract_n_suffix(s, "Shutter"@, "StrobeEffect"@)->0))
    } else if extract_n(s, "Frost"@) is Some {
        Some(AttributeView::Frost(extract_n(s, "Frost"@)->0))
    } else if extract_n_suffix(s, "Frost"@, "PulseOpen"@) is Some {
        Some(AttributeView::FrostPulseOpen(extract_n_suffix(s, "Frost"@, "PulseOpen"@)->0))
    } else if extract_n_suffix(s, "Frost"@, "PulseClose"@) is Some {
        Some(AttributeView::FrostPulseClose(extract_n_suffix(s, "Frost"@, "PulseClose"@)->0))
    } else if extract_n_suffix(s, "Frost"@, "Ramp"@) is Some {
        Some(AttributeView::FrostRamp(extract_n_suffix(s, "Frost"@, "Ramp"@)->0))
    } else if extract_n(s, "Prism"@) is Some {
        Some(AttributeView::Prism(extract_n(s, "Prism"@)->0))
    } else {
        None
    }
}

/// The attribute of a numbered name, part 4 of the patterns.
pub open spec fn parse_numbered_3(s: Seq<char>) -> Option<AttributeView> {
    if extract_n_suffix(s, "Prism"@, "SelectSpin"@) is Some {
        Some(AttributeView::PrismSelectSpin(extract_n_suffix(s, "Prism"@, "SelectSpin"@)->0))
    } else if extract_n_suffix(s, "Prism"@, "Macro"@) is Some {
        Some(AttributeView::PrismMacro(extract_n_suffix(s, "Prism"@, "Macro"@)->0))
    } else if extract_n_suffix(s, "Prism"@, "Pos"@) is Some {
        Some(AttributeView::PrismPos(extract_n_suffix(s, "Prism"@, "Pos"@)->0))
    } else if extract_n_suffix(s, "Prism"@, "PosRotate"@) is Some {
        Some(AttributeView::PrismPosRotate(extract_n_suffix(s, "Prism"@, "PosRotate"@)->0))
    } else if extract_n_m(s, "Effects"@, "Adjust"@) is Some {
        Some(AttributeView::EffectsAdjust((extract_n_m(s, "Effects"@, "Adjust"@)->0).0, (extract_n_m(s, "Effects"@, "Adjust"@)->0).1))
    } else if extract_n(s, "Effects"@) is Some {
        Some(AttributeView::Effects(extract_n(s, "Effects"@)->0))
    } else if extract_n_suffix(s, "Effects"@, "Rate"@) is Some {
        Some(AttributeView::EffectsRate(extract_n_suffix(s, "Effects"@, "Rate"@)->0))
    } else if extract_n_suffix(s, "Effects"@, "Fade"@) is Some {
        Some(AttributeView::EffectsFade(extract_n_suffix(s, "Effects"@, "Fade"@)->0))
    } else if extract_n_suffix(s, "Effects"@, "Pos"@) is Some {
        Some(AttributeView::EffectsPos(extract_n_suffix(s, "Effects"@, "Pos"@)->0))
    } else if extract_n_suffix(s, "Effects"@, "PosRotate"@) is Some {
        Some(AttributeView::EffectsPosRotate(extract_n_suffix(s, "Effects"@, "PosRotate"@)->0))
    } else if extract_n(s, "Focus"@) is Some {
        Some(AttributeView::Focus(extract_n(s, "Focus"@)->0))
    } else if extract_n_suffix(s, "Focus"@, "Adjust"@) is Some {
        Some(AttributeView::FocusAdjust(extract_n_suffix(s, "Focus"@, "Adjust"@)->0))
    } else if extract_n_suffix(s, "Focus"@, "Distance"@) is Some {
        Some(AttributeView::FocusDistance(extract_n_suffix(s, "Focus"@, "Distance"@)->0))
    } else if extract_n(s, "Control"@) is Some {
        Some(AttributeView::Control(extract_n(s, "Control"@)->0))
    } else if extract_n_suffix(s, "Gobo"@, "WheelMode"@) is Some {
        Some(AttributeView::GoboWheelMode(extract_n_suffix(s, "Gobo"@, "WheelMode"@)->0))
    } else if extract_n_suffix(s, "AnimationWheel"@, "Mode"@) is Some {
        Some(AttributeView::AnimationWheelMode(extract_n_suffix(s, "AnimationWheel"@, "Mode"@)->0))
    } else if extract_n_suffix(s, "Color"@, "Mode"@) is Some {
        Some(AttributeView::ColorMode(extract_n_suffix(s, "Color"@, "Mode"@)->0))
    } else if extract_n_suffix(s, "Fan"@, "Mode"@) is Some {
        Some(AttributeView::FanMode(extract_n_suffix(s, "Fan"@, "Mode"@)->0))
    } else if extract_n_suffix(s, "GoboWheel"@, "MSpeed"@) is Some {
        Some(AttributeView::GoboWheelMSpeed(extract_n_suffix(s, "GoboWheel"@, "MSpeed"@)->0))
    } else if extract_n_suffix(s, "Prism"@, "MSpeed"@) is Some {
        Some(AttributeView::PrismMSpeed(extract_n_suffix(s, "Prism"@, "MSpeed"@)->0))
    } else {
        None
    }
}

/// The attribute of a numbered name, part 5 of the patterns.
pub open spec fn parse_numbered_4(s: Seq<char>) -> Option<AttributeView> {
    if extract_n_suffix(s, "Frost"@, "MSpeed"@) is Some {
        Some(AttributeView::FrostMSpeed(extract_n_suffix(s, "Frost"@, "MSpeed"@)->0))
    } else if extract_n(s, "Blower"@) is Some {
        Some(AttributeView::Blower(extract_n(s, "Blower"@)->0))
    } else if extract_n(s, "Fan"@) is Some {
        Some(AttributeView::Fan(extract_n(s, "Fan"@)->0))
    } else if extract_n(s, "Fog"@) is Some {
        Some(AttributeView::Fog(extract_n(s, "Fog"@)->0))
    } else if extract_n(s, "Haze"@) is Some {
        Some(AttributeView::Haze(extract_n(s, "Haze"@)->0))
    } else if extract_n_suffix(s, "Blade"@, "A"@) is Some {
        Some(AttributeView::BladeA(extract_n_suffix(s, "Blade"@, "A"@)->0))
    } else if extract_n_suffix(s, "Blade"@, "B"@) is Some {
        Some(AttributeView::BladeB(extract_n_suffix(s, "Blade"@, "B"@)->0))
    } else if extract_n_suffix(s, "Blade"@, "Rot"@) is Some {
        Some(AttributeView::BladeRot(extract_n_suffix(s, "Blade"@, "Rot"@)->0))
    } else if extract_n_suffix(s, "BladeSoft"@, "A"@) is Some {
        Some(AttributeView::BladeSoftA(extract_n_suffix(s, "BladeSoft"@, "A"@)->0))
    } else if extract_n_suffix(s, "BladeSoft"@, "B"@) is Some {
        Some(AttributeView::BladeSoftB(extract_n_suffix(s, "BladeSoft"@, "B"@)->0))
    } else if extract_n_suffix(s, "KeyStone"@, "A"@) is Some {
        Some(AttributeView::KeyStoneA(extract_n_suffix(s, "KeyStone"@, "A"@)->0))
    } else if extract_n_suffix(s, "KeyStone"@, "B"@) is Some {
        Some(AttributeView::KeyStoneB(extract_n_suffix(s, "KeyStone"@, "B"@)->0))
    } else if extract_n_suffix(s, "VideoEffect"@, "Type"@) is Some {
        Some(AttributeView::VideoEffectType(extract_n_suffix(s, "VideoEffect"@, "Type"@)->0))
    } else if extract_n_m(s, "VideoEffect"@, "Parameter"@) is Some {
        Some(AttributeView::VideoEffectParameter((extract_n_m(s, "VideoEffect"@, "Parameter"@)->0).0, (extract_n_m(s, "VideoEffect"@, "Parameter"@)->0).1))
    } else if extract_n(s, "VideoCamera"@) is Some {
        Some(AttributeView::VideoCamera(extract_n(s, "VideoCamera"@)->0))
    } else if extract_n(s, "VideoSoundVolume"@) is Some {
        Some(AttributeView::VideoSoundVolume(extract_n(s, "VideoSoundVolume"@)->0))
    } else {
        None
    }
}

impl Attribute {
    /// Get this attribute's [FeatureGroup]. If it's a custom attribute, it will
    /// return `None`.
    pub fn feature_group(&self) -> (r: Option<FeatureGroup>)
        ensures
            r == self@.feature_group(),
    {
        match self {
            Attribute::Dimmer => Some(FeatureGroup::Dimmer),
            Attribute::Pan
            | Attribute::Tilt
            | Attribute::PanRotate
            | Attribute::TiltRotate
            | Attribute::PositionEffect
            | Attribute::PositionEffectRate
            | Attribute::PositionEffectFade
            | Attribute::XyzX
            | Attribute::XyzY
            | Attribute::XyzZ
            | Attribute::RotX
            | Attribute::RotY
            | Attribute::RotZ
            | Attribute::ScaleX
            | Attribute::ScaleY
            | Attribute::ScaleZ
            | Attribute::ScaleXYZ => Some(FeatureGroup::Position),
            Attribute::Gobo(_)
            | Attribute::GoboSelectSpin(_)
            | Attribute::GoboSelectShake(_)
            | Attribute::GoboSelectEffects(_)
            | Attribute::GoboWheelIndex(_)
            | Attribute::GoboWheelSpin(_)
            | Attribute::GoboWheelShake(_)
            | Attribute::GoboWheelRandom(_)
            | Attribute::GoboWheelAudio(_)
            | Attribute::GoboPos(_)
            | Attribute::GoboPosRotate(_)
            | Attribute::GoboPosShake(_)
            | Attribute::AnimationWheel(_)
            | Attribute::AnimationWheelAudio(_)
            | Attribute::AnimationWheelMacro(_)
            | Attribute::AnimationWheelRandom(_)
            | Attribute::AnimationWheelSelectEffects(_)
            | Attribute::AnimationWheelSelectShake(_)
            | Attribute::AnimationWheelSelectSpin(_)
            | Attribute::AnimationWheelPos(_)
            | Attribute::AnimationWheelPosRotate(_)
            | Attribute::AnimationWheelPosShake(_)
            | Attribute::AnimationSystem(_)
            | Attribute::AnimationSystemRamp(_)
            | Attribute::AnimationSystemShake(_)
            | Attribute::AnimationSystemAudio(_)
            | Attribute::AnimationSystemRandom(_)
            | Attribute::AnimationSystemPos(_)
            | Attribute::AnimationSystemPosRotate(_)
            | Attribute::AnimationSystemPosShake(_)
            | Attribute::AnimationSystemPosRandom(_)
            | Attribute::AnimationSystemPosAudio(_)
            | Attribute::AnimationSystemMacro(_)
            | Attribute::MediaFolder(_)
            | Attribute::MediaContent(_)
            | Attribute::ModelFolder(_)
            | Attribute::ModelContent(_)
            | Attribute::PlayMode
            | Attribute::PlayBegin
            | Attribute::PlayEnd
            | Attribute::PlaySpeed => Some(FeatureGroup::Gobo),
            Attribute::ColorEffects(_)
            | Attribute::Color(_)
            | Attribute::ColorWheelIndex(_)
            | Attribute::ColorWheelSpin(_)
            | Attribute::ColorWheelRandom(_)
            | Attribute::ColorWheelAudio(_)
            | Attribute::ColorAddR
            | Attribute::ColorAddG
            | Attribute::ColorAddB
            | Attribute::ColorAddC
            | Attribute::ColorAddM
            | Attribute::ColorAddY
            | Attribute::ColorAddRY
            | Attribute::ColorAddGY
            | Attribute::ColorAddGC
            | Attribute::ColorAddBC
            | Attribute::ColorAddBM
            | Attribute::ColorAddRM
            | Attribute::ColorAddW
            | Attribute::ColorAddWW
            | Attribute::ColorAddCW
            | Attribute::ColorAddUV
            | Attribute::ColorSubR
            | Attribute::ColorSubG
            | Attribute::ColorSubB
            | Attribute::ColorSubC
            | Attribute::ColorSubM
            | Attribute::ColorSubY
            | Attribute::ColorMacro(_)
            | Attribute::ColorMacroRate(_)
            | Attribute::Cto
            | Attribute::Ctc
            | Attribute::Ctb
            | Attribute::Tint
            | Attribute::HsbHue
            | Attribute::HsbSaturation
            | Attribute::HsbBrightness
            | Attribute::HsbQuality
            | Attribute::CieX
            | Attribute::CieY
            | Attribute::CieBrightness
            | Attribute::ColorRgbRed
            | Attribute::ColorRgbGreen
            | Attribute::ColorRgbBlue
            | Attribute::ColorRgbCyan
            | Attribute::ColorRgbMagenta
            | Attribute::ColorRgbYellow
            | Attribute::ColorRgbQuality
            | Attribute::VideoBoostR
            | Attribute::VideoBoostG
            | Attribute::VideoBoostB
            | Attribute::VideoHueShift
            | Attribute::VideoSaturation
            | Attribute::VideoBrightness
            | Attribute::VideoContrast
            | Attribute::VideoKeyColorR
            | Attribute::VideoKeyColorG
            | Attribute::VideoKeyColorB
            | Attribute::VideoKeyIntensity
            | Attribute::VideoKeyTolerance => Some(FeatureGroup::Color),
            Attribute::StrobeDuration
            | Attribute::StrobeRate
            | Attribute::StrobeFrequency
            | Attribute::StrobeModeShutter
            | Attribute::StrobeModeStrobe
            | Attribute::StrobeModePulse
            | Attribute::StrobeModePulseOpen
            | Attribute::StrobeModePulseClose
            | Attribute::StrobeModeRandom
            | Attribute::StrobeModeRandomPulse
            | Attribute::StrobeModeRandomPulseOpen
            | Attribute::StrobeModeRandomPulseClose
            | Attribute::StrobeModeEffect
            | Attribute::Shutter(_)
            | Attribute::ShutterStrobe(_)
            | Attribute::ShutterStrobePulse(_)
            | Attribute::ShutterStrobePulseClose(_)
            | Attribute::ShutterStrobePulseOpen(_)
            | Attribute::ShutterStrobeRandom(_)
            | Attribute::ShutterStrobeRandomPulse(_)
            | Attribute::ShutterStrobeRandomPulseClose(_)
            | Attribute::ShutterStrobeRandomPulseOpen(_)
            | Attribute::ShutterStrobeEffect(_)
            | Attribute::Iris
            | Attribute::IrisStrobe
            | Attribute::IrisStrobeRandom
            | Attribute::IrisPulseClose
            | Attribute::IrisPulseOpen
            | Attribute::IrisRandomPulseClose
            | Attribute::IrisRandomPulseOpen
            | Attribute::Frost(_)
            | Attribute::FrostPulseOpen(_)
            | Attribute::FrostPulseClose(_)
            | Attribute::FrostRamp(_)
            | Attribute::Prism(_)
            | Attribute::PrismSelectSpin(_)
            | Attribute::PrismMacro(_)
            | Attribute::PrismPos(_)
            | Attribute::PrismPosRotate(_) => Some(FeatureGroup::Beam),
            Attribute::Effects(_)
            | Attribute::EffectsRate(_)
            | Attribute::EffectsFade(_)
            | Attribute::EffectsAdjust(_, _)
            | Attribute::EffectsPos(_)
            | Attribute::EffectsPosRotate(_)
            | Attribute::EffectsSync
            | Attribute::BeamShaper
            | Attribute::BeamShaperMacro
            | Attribute::BeamShaperPos
            | Attribute::BeamShaperPosRotate
            | Attribute::Zoom
            | Attribute::ZoomModeSpot
            | Attribute::ZoomModeBeam
            | Attribute::DigitalZoom
            | Attribute::Focus(_)
            | Attribute::FocusAdjust(_)
            | Attribute::FocusDistance(_) => Some(FeatureGroup::Focus),
            Attribute::Control(_)
            | Attribute::DimmerMode
            | Attribute::DimmerCurve
            | Attribute::BlackoutMode
            | Attribute::LedFrequency
            | Attribute::LedZoneMode
            | Attribute::PixelMode
            | Attribute::PanMode
            | Attribute::TiltMode
            | Attribute::PanTiltMode
            | Attribute::PositionModes
            | Attribute::GoboWheelMode(_)
            | Attribute::GoboWheelShortcutMode
            | Attribute::AnimationWheelMode(_)
            | Attribute::AnimationWheelShortcutMode
            | Attribute::ColorMode(_)
            | Attribute::ColorWheelShortcutMode
            | Attribute::CyanMode
            | Attribute::MagentaMode
            | Attribute::YellowMode
            | Attribute::ColorMixMode
            | Attribute::ChromaticMode
            | Attribute::ColorCalibrationMode
            | Attribute::ColorConsistency
            | Attribute::ColorControl
            | Attribute::ColorModelMode
            | Attribute::ColorSettingsReset
            | Attribute::ColorUniformity
            | Attribute::CriMode
            | Attribute::CustomColor
            | Attribute::UvStability
            | Attribute::WavelengthCorrection
            | Attribute::WhiteCount
            | Attribute::StrobeMode
            | Attribute::ZoomMode
            | Attribute::FocusMode
            | Attribute::IrisMode
            | Attribute::FanMode(_)
            | Attribute::FollowSpotMode
            | Attribute::BeamEffectIndexRotateMode
            | Attribute::IntensityMSpeed
            | Attribute::PositionMSpeed
            | Attribute::ColorMixMSpeed
            | Attribute::ColorWheelSelectMSpeed
            | Attribute::GoboWheelMSpeed(_)
            | Attribute::IrisMSpeed
            | Attribute::PrismMSpeed(_)
            | Attribute::FocusMSpeed
            | Attribute::FrostMSpeed(_)
            | Attribute::ZoomMSpeed
            | Attribute::FrameMSpeed
            | Attribute::GlobalMSpeed
            | Attribute::ReflectorAdjust
            | Attribute::FixtureGlobalReset
            | Attribute::DimmerReset
            | Attribute::ShutterReset
            | Attribute::BeamReset
            | Attribute::ColorMixReset
            | Attribute::ColorWheelReset
            | Attribute::FocusReset
            | Attribute::FrameReset
            | Attribute::GoboWheelReset
            | Attribute::IntensityReset
            | Attribute::IrisReset
            | Attribute::PositionReset
            | Attribute::PanReset
            | Attribute::TiltReset
            | Attribute::ZoomReset
            | Attribute::CtbReset
            | Attribute::CtoReset
            | Attribute::CtcReset
            | Attribute::AnimationSystemReset
            | Attribute::FixtureCalibrationReset
            | Attribute::Function
            | Attribute::LampControl
            | Attribute::DisplayIntensity
            | Attribute::DmxInput
            | Attribute::NoFeature
            | Attribute::Blower(_)
            | Attribute::Fan(_)
            | Attribute::Fog(_)
            | Attribute::Haze(_)
            | Attribute::LampPowerMode
            | Attribute::Fans => Some(FeatureGroup::Control),
            Attribute::BladeA(_)
            | Attribute::BladeB(_)
            | Attribute::BladeRot(_)
            | Attribute::ShaperRot
            | Attribute::ShaperMacros
            | Attribute::ShaperMacrosSpeed
            | Attribute::BladeSoftA(_)
            | Attribute::BladeSoftB(_)
            | Attribute::KeyStoneA(_)
            | Attribute::KeyStoneB(_) => Some(FeatureGroup::Shapers),
            Attribute::Video
            | Attribute::VideoEffectType(_)
            | Attribute::VideoEffectParameter(_, _)
            | Attribute::VideoCamera(_)
            | Attribute::VideoSoundVolume(_)
            | Attribute::VideoBlendMode
            | Attribute::InputSource
            | Attribute::FieldOfView => Some(FeatureGroup::Video),
            Attribute::Custom(_) => None,
        }
    }

    /// The name of this attribute, as GDTF writes it.
    #[verifier::rlimit(100)]
    pub fn to_string(&self) -> (r: String)
        ensures
            r@ == self@.name(),
    {
        match self {
            Attribute::Dimmer => String::from_str("Dimmer"),
            Attribute::Pan => String::from_str("Pan"),
            Attribute::Tilt => String::from_str("Tilt"),
            Attribute::PanRotate => String::from_str("PanRotate"),
            Attribute::TiltRotate => String::from_str("TiltRotate"),
            Attribute::PositionEffect => String::from_str("PositionEffect"),
            Attribute::PositionEffectRate => String::from_str("PositionEffectRate"),
            Attribute::PositionEffectFade => String::from_str("PositionEffectFade"),
            Attribute::XyzX => String::from_str("XYZ_X"),
            Attribute::XyzY => String::from_str("XYZ_Y"),
            Attribute::XyzZ => String::from_str("XYZ_Z"),
            Attribute::RotX => String::from_str("Rot_X"),
            Attribute::RotY => String::from_str("Rot_Y"),
            Attribute::RotZ => String::from_str("Rot_Z"),
            Attribute::ScaleX => String::from_str("Scale_X"),
            Attribute::ScaleY => String::from_str("Scale_Y"),
            Attribute::ScaleZ => String::from_str("Scale_Z"),
            Attribute::ScaleXYZ => String::from_str("Scale_XYZ"),
            Attribute::Gobo(n) => numbered_name("Gobo", *n),
            Attribute::GoboSelectSpin(n) => numbered_name_suffix("Gobo", *n, "SelectSpin"),
            Attribute::GoboSelectShake(n) => numbered_name_suffix("Gobo", *n, "SelectShake"),
            Attribute::GoboSelectEffects(n) => numbered_name_suffix("Gobo", *n, "SelectEffects"),
            Attribute::GoboWheelIndex(n) => numbered_name_suffix("Gobo", *n, "WheelIndex"),
            Attribute::GoboWheelSpin(n) => numbered_name_suffix("Gobo", *n, "WheelSpin"),
            Attribute::GoboWheelShake(n) => numbered_name_suffix("Gobo", *n, "WheelShake"),
            Attribute::GoboWheelRandom(n) => numbered_name_suffix("Gobo", *n, "WheelRandom"),
            Attribute::GoboWheelAudio(n) => numbered_name_suffix("Gobo", *n, "WheelAudio"),
            Attribute::GoboPos(n) => numbered_name_suffix("Gobo", *n, "Pos"),
            Attribute::GoboPosRotate(n) => numbered_name_suffix("Gobo", *n, "PosRotate"),
            Attribute::GoboPosShake(n) => numbered_name_suffix("Gobo", *n, "PosShake"),
            Attribute::AnimationWheel(n) => numbered_name("AnimationWheel", *n),
            Attribute::AnimationWheelAudio(n) => numbered_name_suffix("AnimationWheel", *n, "Audio"),
            Attribute::AnimationWheelMacro(n) => numbered_name_suffix("AnimationWheel", *n, "Macro"),
            Attribute::AnimationWheelRandom(n) => numbered_name_suffix("AnimationWheel", *n, "Random"),
            Attribute::AnimationWheelSelectEffects(n) => numbered_name_suffix("AnimationWheel", *n, "SelectEffects"),
            Attribute::AnimationWheelSelectShake(n) => numbered_name_suffix("AnimationWheel", *n, "SelectShake"),
            Attribute::AnimationWheelSelectSpin(n) => numbered_name_suffix("AnimationWheel", *n, "SelectSpin"),
            Attribute::AnimationWheelPos(n) => numbered_name_suffix("AnimationWheel", *n, "Pos"),
            Attribute::AnimationWheelPosRotate(n) => numbered_name_suffix("AnimationWheel", *n, "PosRotate"),
            Attribute::AnimationWheelPosShake(n) => numbered_name_suffix("AnimationWheel", *n, "PosShake"),
            Attribute::AnimationSystem(n) => numbered_name("AnimationSystem", *n),
            Attribute::AnimationSystemRamp(n) => numbered_name_suffix("AnimationSystem", *n, "Ramp"),
            Attribute::AnimationSystemShake(n) => numbered_name_suffix("AnimationSystem", *n, "Shake"),
            Attribute::AnimationSystemAudio(n) => numbered_name_suffix("AnimationSystem", *n, "Audio"),
            Attribute::AnimationSystemRandom(n) => numbered_name_suffix("AnimationSystem", *n, "Random"),
            Attribute::AnimationSystemPos(n) => numbered_name_suffix("AnimationSystem", *n, "Pos"),
            Attribute::AnimationSystemPosRotate(n) => numbered_name_suffix("AnimationSystem", *n, "PosRotate"),
            Attribute::AnimationSystemPosShake(n) => numbered_name_suffix("AnimationSystem", *n, "PosShake"),
            Attribute::AnimationSystemPosRandom(n) => numbered_name_suffix("AnimationSystem", *n, "PosRandom"),
            Attribute::AnimationSystemPosAudio(n) => numbered_name_suffix("AnimationSystem", *n, "PosAudio"),
            Attribute::AnimationSystemMacro(n) => numbered_name_suffix("AnimationSystem", *n, "Macro"),
            Attribute::MediaFolder(n) => numbered_name("MediaFolder", *n),
            Attribute::MediaContent(n) => numbered_name("MediaContent", *n),
            Attribute::ModelFolder(n) => numbered_name("ModelFolder", *n),
            Attribute::ModelContent(n) => numbered_name("ModelContent", *n),
            Attribute::PlayMode => String::from_str("PlayMode"),
            Attribute::PlayBegin => String::from_str("PlayBegin"),
            Attribute::PlayEnd => String::from_str("PlayEnd"),
            Attribute::PlaySpeed => String::from_str("PlaySpeed"),
            Attribute::ColorEffects(n) => numbered_name("ColorEffects", *n),
            Attribute::Color(n) => numbered_name("Color", *n),
            Attribute::ColorWheelIndex(n) => numbered_name_suffix("Color", *n, "WheelIndex"),
            Attribute::ColorWheelSpin(n) => numbered_name_suffix("Color", *n, "WheelSpin"),
            Attribute::ColorWheelRandom(n) => numbered_name_suffix("Color", *n, "WheelRandom"),
            Attribute::ColorWheelAudio(n) => numbered_name_suffix("Color", *n, "WheelAudio"),
            Attribute::ColorAddR => String::from_str("ColorAdd_R"),
            Attribute::ColorAddG => String::from_str("ColorAdd_G"),
            Attribute::ColorAddB => String::from_str("ColorAdd_B"),
            Attribute::ColorAddC => String::from_str("ColorAdd_C"),
            Attribute::ColorAddM => String::from_str("ColorAdd_M"),
            Attribute::ColorAddY => String::from_str("ColorAdd_Y"),
            Attribute::ColorAddRY => String::from_str("ColorAdd_RY"),
            Attribute::ColorAddGY => String::from_str("ColorAdd_GY"),
            Attribute::ColorAddGC => String::from_str("ColorAdd_GC"),
            Attribute::ColorAddBC => String::from_str("ColorAdd_BC"),
            Attribute::ColorAddBM => String::from_str("ColorAdd_BM"),
            Attribute::ColorAddRM => String::from_str("ColorAdd_RM"),
            Attribute::ColorAddW => String::from_str("ColorAdd_W"),
            Attribute::ColorAddWW => String::from_str("ColorAdd_WW"),
            Attribute::ColorAddCW => String::from_str("ColorAdd_CW"),
            Attribute::ColorAddUV => String::from_str("ColorAdd_UV"),
            Attribute::ColorSubR => String::from_str("ColorSub_R"),
            Attribute::ColorSubG => String::from_str("ColorSub_G"),
            Attribute::ColorSubB => String::from_str("ColorSub_B"),
            Attribute::ColorSubC => String::from_str("ColorSub_C"),
            Attribute::ColorSubM => String::from_str("ColorSub_M"),
            Attribute::ColorSubY => String::from_str("ColorSub_Y"),
            Attribute::ColorMacro(n) => numbered_name("ColorMacro", *n),
            Attribute::ColorMacroRate(n) => numbered_name_suffix("ColorMacro", *n, "Rate"),
            Attribute::Cto => String::from_str("CTO"),
            Attribute::Ctc => String::from_str("CTC"),
            Attribute::Ctb => String::from_str("CTB"),
            Attribute::Tint => String::from_str("Tint"),
            Attribute::HsbHue => String::from_str("HSB_Hue"),
            Attribute::HsbSaturation => String::from_str("HSB_Saturation"),
            Attribute::HsbBrightness => String::from_str("HSB_Brightness"),
            Attribute::HsbQuality => String::from_str("HSB_Quality"),
            Attribute::CieX => String::from_str("CIE_X"),
            Attribute::CieY => String::from_str("CIE_Y"),
            Attribute::CieBrightness => String::from_str("CIE_Brightness"),
            Attribute::ColorRgbRed => String::from_str("ColorRGB_Red"),
            Attribute::ColorRgbGreen => String::from_str("ColorRGB_Green"),
            Attribute::ColorRgbBlue => String::from_str("ColorRGB_Blue"),
            Attribute::ColorRgbCyan => String::from_str("ColorRGB_Cyan"),
            Attribute::ColorRgbMagenta => String::from_str("ColorRGB_Magenta"),
            Attribute::ColorRgbYellow => String::from_str("ColorRGB_Yellow"),
            Attribute::ColorRgbQuality => String::from_str("ColorRGB_Quality"),
            Attribute::VideoBoostR => String::from_str("VideoBoost_R"),
            Attribute::VideoBoostG => String::from_str("VideoBoost_G"),
            Attribute::VideoBoostB => String::from_str("VideoBoost_B"),
            Attribute::VideoHueShift => String::from_str("VideoHueShift"),
            Attribute::VideoSaturation => String::from_str("VideoSaturation"),
            Attribute::VideoBrightness => String::from_str("VideoBrightness"),
            Attribute::VideoContrast => String::from_str("VideoContrast"),
            Attribute::VideoKeyColorR => String::from_str("VideoKeyColor_R"),
            Attribute::VideoKeyColorG => String::from_str("VideoKeyColor_G"),
            Attribute::VideoKeyColorB => String::from_str("VideoKeyColor_B"),
            Attribute::VideoKeyIntensity => String::from_str("VideoKeyIntensity"),
            Attribute::VideoKeyTolerance => String::from_str("VideoKeyTolerance"),
            Attribute::StrobeDuration => String::from_str("StrobeDuration"),
            Attribute::StrobeRate => String::from_str("StrobeRate"),
            Attribute::StrobeFrequency => String::from_str("StrobeFrequency"),
            Attribute::StrobeModeShutter => String::from_str("StrobeModeShutter"),
            Attribute::StrobeModeStrobe => String::from_str("StrobeModeStrobe"),
            Attribute::StrobeModePulse => String::from_str("StrobeModePulse"),
            Attribute::StrobeModePulseOpen => String::from_str("StrobeModePulseOpen"),
            Attribute::StrobeModePulseClose => String::from_str("StrobeModePulseClose"),
            Attribute::StrobeModeRandom => String::from_str("StrobeModeRandom"),
            Attribute::StrobeModeRandomPulse => String::from_str("StrobeModeRandomPulse"),
            Attribute::StrobeModeRandomPulseOpen => String::from_str("StrobeModeRandomPulseOpen"),
            Attribute::StrobeModeRandomPulseClose => String::from_str("StrobeModeRandomPulseClose"),
            Attribute::StrobeModeEffect => String::from_str("StrobeModeEffect"),
            Attribute::Shutter(n) => numbered_name("Shutter", *n),
            Attribute::ShutterStrobe(n) => numbered_name_suffix("Shutter", *n, "Strobe"),
            Attribute::ShutterStrobePulse(n) => numbered_name_suffix("Shutter", *n, "StrobePulse"),
            Attribute::ShutterStrobePulseClose(n) => numbered_name_suffix("Shutter", *n, "StrobePulseClose"),
            Attribute::ShutterStrobePulseOpen(n) => numbered_name_suffix("Shutter", *n, "StrobePulseOpen"),
            Attribute::ShutterStrobeRandom(n) => numbered_name_suffix("Shutter", *n, "StrobeRandom"),
            Attribute::ShutterStrobeRandomPulse(n) => numbered_name_suffix("Shutter", *n, "StrobeRandomPulse"),
            Attribute::ShutterStrobeRandomPulseClose(n) => numbered_name_suffix("Shutter", *n, "StrobeRandomPulseClose"),
            Attribute::ShutterStrobeRandomPulseOpen(n) => numbered_name_suffix("Shutter", *n, "StrobeRandomPulseOpen"),
            Attribute::ShutterStrobeEffect(n) => numbered_name_suffix("Shutter", *n, "StrobeEffect"),
            Attribute::Iris => String::from_str("Iris"),
            Attribute::IrisStrobe => String::from_str("IrisStrobe"),
            Attribute::IrisStrobeRandom => String::from_str("IrisStrobeRandom"),
            Attribute::IrisPulseClose => String::from_str("IrisPulseClose"),
            Attribute::IrisPulseOpen => String::from_str("IrisPulseOpen"),
            Attribute::IrisRandomPulseClose => String::from_str("IrisRandomPulseClose"),
            Attribute::IrisRandomPulseOpen => String::from_str("IrisRandomPulseOpen"),
            Attribute::Frost(n) => numbered_name("Frost", *n),
            Attribute::FrostPulseOpen(n) => numbered_name_suffix("Frost", *n, "PulseOpen"),
            Attribute::FrostPulseClose(n) => numbered_name_suffix("Frost", *n, "PulseClose"),
            Attribute::FrostRamp(n) => numbered_name_suffix("Frost", *n, "Ramp"),
            Attribute::Prism(n) => numbered_name("Prism", *n),
            Attribute::PrismSelectSpin(n) => numbered_name_suffix("Prism", *n, "SelectSpin"),
            Attribute::PrismMacro(n) => numbered_name_suffix("Prism", *n, "Macro"),
            Attribute::PrismPos(n) => numbered_name_suffix("Prism", *n, "Pos"),
            Attribute::PrismPosRotate(n) => numbered_name_suffix("Prism", *n, "PosRotate"),
            Attribute::Effects(n) => numbered_name("Effects", *n),
            Attribute::EffectsRate(n) => numbered_name_suffix("Effects", *n, "Rate"),
            Attribute::EffectsFade(n) => numbered_name_suffix("Effects", *n, "Fade"),
            Attribute::EffectsAdjust(n, m) => numbered_name_pair("Effects", *n, "Adjust", *m),
            Attribute::EffectsPos(n) => numbered_name_suffix("Effects", *n, "Pos"),
            Attribute::EffectsPosRotate(n) => numbered_name_suffix("Effects", *n, "PosRotate"),
            Attribute::EffectsSync => String::from_str("EffectsSync"),
            Attribute::BeamShaper => String::from_str("BeamShaper"),
            Attribute::BeamShaperMacro => String::from_str("BeamShaperMacro"),
            Attribute::BeamShaperPos => String::from_str("BeamShaperPos"),
            Attribute::BeamShaperPosRotate => String::from_str("BeamShaperPosRotate"),
            Attribute::Zoom => String::from_str("Zoom"),
            Attribute::ZoomModeSpot => String::from_str("ZoomModeSpot"),
            Attribute::ZoomModeBeam => String::from_str("ZoomModeBeam"),
            Attribute::DigitalZoom => String::from_str("DigitalZoom"),
            Attribute::Focus(n) => numbered_name("Focus", *n),
            Attribute::FocusAdjust(n) => numbered_name_suffix("Focus", *n, "Adjust"),
            Attribute::FocusDistance(n) => numbered_name_suffix("Focus", *n, "Distance"),
            Attribute::Control(n) => numbered_name("Control", *n),
            Attribute::DimmerMode => String::from_str("DimmerMode"),
            Attribute::DimmerCurve => String::from_str("DimmerCurve"),
            Attribute::BlackoutMode => String::from_str("BlackoutMode"),
            Attribute::LedFrequency => String::from_str("LEDFrequency"),
            Attribute::LedZoneMode => String::from_str("LEDZoneMode"),
            Attribute::PixelMode => String::from_str("PixelMode"),
            Attribute::PanMode => String::from_str("PanMode"),
            Attribute::TiltMode => String::from_str("TiltMode"),
            Attribute::PanTiltMode => String::from_str("PanTiltMode"),
            Attribute::PositionModes => String::from_str("PositionModes"),
            Attribute::GoboWheelMode(n) => numbered_name_suffix("Gobo", *n, "WheelMode"),
            Attribute::GoboWheelShortcutMode => String::from_str("GoboWheelShortcutMode"),
            Attribute::AnimationWheelMode(n) => numbered_name_suffix("AnimationWheel", *n, "Mode"),
            Attribute::AnimationWheelShortcutMode => String::from_str("AnimationWheelShortcutMode"),
            Attribute::ColorMode(n) => numbered_name_suffix("Color", *n, "Mode"),
            Attribute::ColorWheelShortcutMode => String::from_str("ColorWheelShortcutMode"),
            Attribute::CyanMode => String::from_str("CyanMode"),
            Attribute::MagentaMode => String::from_str("MagentaMode"),
            Attribute::YellowMode => String::from_str("YellowMode"),
            Attribute::ColorMixMode => String::from_str("ColorMixMode"),
            Attribute::ChromaticMode => String::from_str("ChromaticMode"),
            Attribute::ColorCalibrationMode => String::from_str("ColorCalibrationMode"),
            Attribute::ColorConsistency => String::from_str("ColorConsistency"),
            Attribute::ColorControl => String::from_str("ColorControl"),
            Attribute::ColorModelMode => String::from_str("ColorModelMode"),
            Attribute::ColorSettingsReset => String::from_str("ColorSettingsReset"),
            Attribute::ColorUniformity => String::from_str("ColorUniformity"),
            Attribute::CriMode => String::from_str("CRIMode"),
            Attribute::CustomColor => String::from_str("CustomColor"),
            Attribute::UvStability => String::from_str("UVStability"),
            Attribute::WavelengthCorrection => String::from_str("WavelengthCorrection"),
            Attribute::WhiteCount => String::from_str("WhiteCount"),
            Attribute::StrobeMode => String::from_str("StrobeMode"),
            Attribute::ZoomMode => String::from_str("ZoomMode"),
            Attribute::FocusMode => String::from_str("FocusMode"),
            Attribute::IrisMode => String::from_str("IrisMode"),
            Attribute::FanMode(n) => numbered_name_suffix("Fan", *n, "Mode"),
            Attribute::FollowSpotMode => String::from_str("FollowSpotMode"),
            Attribute::BeamEffectIndexRotateMode => String::from_str("BeamEffectIndexRotateMode"),
            Attribute::IntensityMSpeed => String::from_str("IntensityMSpeed"),
            Attribute::PositionMSpeed => String::from_str("PositionMSpeed"),
            Attribute::ColorMixMSpeed => String::from_str("ColorMixMSpeed"),
            Attribute::ColorWheelSelectMSpeed => String::from_str("ColorWheelSelectMSpeed"),
            Attribute::GoboWheelMSpeed(n) => numbered_name_suffix("GoboWheel", *n, "MSpeed"),
            Attribute::IrisMSpeed => String::from_str("IrisMSpeed"),
            Attribute::PrismMSpeed(n) => numbered_name_suffix("Prism", *n, "MSpeed"),
            Attribute::FocusMSpeed => String::from_str("FocusMSpeed"),
            Attribute::FrostMSpeed(n) => numbered_name_suffix("Frost", *n, "MSpeed"),
            Attribute::ZoomMSpeed => String::from_str("ZoomMSpeed"),
            Attribute::FrameMSpeed => String::from_str("FrameMSpeed"),
            Attribute::GlobalMSpeed => String::from_str("GlobalMSpeed"),
            Attribute::ReflectorAdjust => String::from_str("ReflectorAdjust"),
            Attribute::FixtureGlobalReset => String::from_str("FixtureGlobalReset"),
            Attribute::DimmerReset => String::from_str("DimmerReset"),
            Attribute::ShutterReset => String::from_str("ShutterReset"),
            Attribute::BeamReset => String::from_str("BeamReset"),
            Attribute::ColorMixReset => String::from_str("ColorMixReset"),
            Attribute::ColorWheelReset => String::from_str("ColorWheelReset"),
            Attribute::FocusReset => String::from_str("FocusReset"),
            Attribute::FrameReset => String::from_str("FrameReset"),
            Attribute::GoboWheelReset => String::from_str("GoboWheelReset"),
            Attribute::IntensityReset => String::from_str("IntensityReset"),
            Attribute::IrisReset => String::from_str("IrisReset"),
            Attribute::PositionReset => String::from_str("PositionReset"),
            Attribute::PanReset => String::from_str("PanReset"),
            Attribute::TiltReset => String::from_str("TiltReset"),
            Attribute::ZoomReset => String::from_str("ZoomReset"),
            Attribute::CtbReset => String::from_str("CTBReset"),
            Attribute::CtoReset => String::from_str("CTOReset"),
            Attribute::CtcReset => String::from_str("CTCReset"),
            Attribute::AnimationSystemReset => String::from_str("AnimationSystemReset"),
            Attribute::FixtureCalibrationReset => String::from_str("FixtureCalibrationReset"),
            Attribute::Function => String::from_str("Function"),
            Attribute::LampControl => String::from_str("LampControl"),
            Attribute::DisplayIntensity => String::from_str("DisplayIntensity"),
            Attribute::DmxInput => String::from_str("DMXInput"),
            Attribute::NoFeature => String::from_str("NoFeature"),
            Attribute::Blower(n) => numbered_name("Blower", *n),
            Attribute::Fan(n) => numbered_name("Fan", *n),
            Attribute::Fog(n) => numbered_name("Fog", *n),
            Attribute::Haze(n) => numbered_name("Haze", *n),
            Attribute::LampPowerMode => String::from_str("LampPowerMode"),
            Attribute::Fans => String::from_str("Fans"),
            Attribute::BladeA(n) => numbered_name_suffix("Blade", *n, "A"),
            Attribute::BladeB(n) => numbered_name_suffix("Blade", *n, "B"),
            Attribute::BladeRot(n) => numbered_name_suffix("Blade", *n, "Rot"),
            Attribute::ShaperRot => String::from_str("ShaperRot"),
            Attribute::ShaperMacros => String::from_str("ShaperMacros"),
            Attribute::ShaperMacrosSpeed => String::from_str("ShaperMacrosSpeed"),
            Attribute::BladeSoftA(n) => numbered_name_suffix("BladeSoft", *n, "A"),
            Attribute::BladeSoftB(n) => numbered_name_suffix("BladeSoft", *n, "B"),
            Attribute::KeyStoneA(n) => numbered_name_suffix("KeyStone", *n, "A"),
            Attribute::KeyStoneB(n) => numbered_name_suffix("KeyStone", *n, "B"),
            Attribute::Video => String::from_str("Video"),
            Attribute::VideoEffectType(n) => numbered_name_suffix("VideoEffect", *n, "Type"),
            Attribute::VideoEffectParameter(n, m) => numbered_name_pair("VideoEffect", *n, "Parameter", *m),
            Attribute::VideoCamera(n) => numbered_name("VideoCamera", *n),
            Attribute::VideoSoundVolume(n) => numbered_name("VideoSoundVolume", *n),
            Attribute::VideoBlendMode => String::from_str("VideoBlendMode"),
            Attribute::InputSource => String::from_str("InputSource"),
            Attribute::FieldOfView => String::from_str("FieldOfView"),
            Attribute::Custom(s) => s.clone(),
        }
    }

    /// Reads an attribute from its name. A name that is not known gives a
    /// custom attribute with that name, so this never fails.
    pub fn from_str(s: &str) -> (r: Result<Attribute, ()>)
        ensures
            r matches Ok(a) && a@ == AttributeView::parse(s@),
    {
        let v = chars_of(s);
        match parse_fixed_chars(v.as_slice()) {
            Some(a) => {
                return Ok(a);
            },
            None => {},
        }
        match parse_numbered_chars(v.as_slice()) {
            Some(a) => {
                return Ok(a);
            },
            None => {},
        }
        Ok(Attribute::Custom(String::from_str(s)))
    }

    /// A copy of this attribute.
    pub fn duplicate(&self) -> (r: Attribute)
        ensures
            r == *self,
    {
        match self {
            Attribute::Dimmer => Attribute::Dimmer,
            Attribute::Pan => Attribute::Pan,
            Attribute::Tilt => Attribute::Tilt,
            Attribute::PanRotate => Attribute::PanRotate,
            Attribute::TiltRotate => Attribute::TiltRotate,
            Attribute::PositionEffect => Attribute::PositionEffect,
            Attribute::PositionEffectRate => Attribute::PositionEffectRate,
            Attribute::PositionEffectFade => Attribute::PositionEffectFade,
            Attribute::XyzX => Attribute::XyzX,
            Attribute::XyzY => Attribute::XyzY,
            Attribute::XyzZ => Attribute::XyzZ,
            Attribute::RotX => Attribute::RotX,
            Attribute::RotY => Attribute::RotY,
            Attribute::RotZ => Attribute::RotZ,
            Attribute::ScaleX => Attribute::ScaleX,
            Attribute::ScaleY => Attribute::ScaleY,
            Attribute::ScaleZ => Attribute::ScaleZ,
            Attribute::ScaleXYZ => Attribute::ScaleXYZ,
            Attribute::Gobo(n) => Attribute::Gobo(*n),
            Attribute::GoboSelectSpin(n) => Attribute::GoboSelectSpin(*n),
            Attribute::GoboSelectShake(n) => Attribute::GoboSelectShake(*n),
            Attribute::GoboSelectEffects(n) => Attribute::GoboSelectEffects(*n),
            Attribute::GoboWheelIndex(n) => Attribute::GoboWheelIndex(*n),
            Attribute::GoboWheelSpin(n) => Attribute::GoboWheelSpin(*n),
            Attribute::GoboWheelShake(n) => Attribute::GoboWheelShake(*n),
            Attribute::GoboWheelRandom(n) => Attribute::GoboWheelRandom(*n),
            Attribute::GoboWheelAudio(n) => Attribute::GoboWheelAudio(*n),
            Attribute::GoboPos(n) => Attribute::GoboPos(*n),
            Attribute::GoboPosRotate(n) => Attribute::GoboPosRotate(*n),
            Attribute::GoboPosShake(n) => Attribute::GoboPosShake(*n),
            Attribute::AnimationWheel(n) => Attribute::AnimationWheel(*n),
            Attribute::AnimationWheelAudio(n) => Attribute::AnimationWheelAudio(*n),
            Attribute::AnimationWheelMacro(n) => Attribute::AnimationWheelMacro(*n),
            Attribute::AnimationWheelRandom(n) => Attribute::AnimationWheelRandom(*n),
            Attribute::AnimationWheelSelectEffects(n) => Attribute::AnimationWheelSelectEffects(*n),
            Attribute::AnimationWheelSelectShake(n) => Attribute::AnimationWheelSelectShake(*n),
            Attribute::AnimationWheelSelectSpin(n) => Attribute::AnimationWheelSelectSpin(*n),
            Attribute::AnimationWheelPos(n) => Attribute::AnimationWheelPos(*n),
            Attribute::AnimationWheelPosRotate(n) => Attribute::AnimationWheelPosRotate(*n),
            Attribute::AnimationWheelPosShake(n) => Attribute::AnimationWheelPosShake(*n),
            Attribute::AnimationSystem(n) => Attribute::AnimationSystem(*n),
            Attribute::AnimationSystemRamp(n) => Attribute::AnimationSystemRamp(*n),
            Attribute::AnimationSystemShake(n) => Attribute::AnimationSystemShake(*n),
            Attribute::AnimationSystemAudio(n) => Attribute::AnimationSystemAudio(*n),
            Attribute::AnimationSystemRandom(n) => Attribute::AnimationSystemRandom(*n),
            Attribute::AnimationSystemPos(n) => Attribute::AnimationSystemPos(*n),
            Attribute::AnimationSystemPosRotate(n) => Attribute::AnimationSystemPosRotate(*n),
            Attribute::AnimationSystemPosShake(n) => Attribute::AnimationSystemPosShake(*n),
            Attribute::AnimationSystemPosRandom(n) => Attribute::AnimationSystemPosRandom(*n),
            Attribute::AnimationSystemPosAudio(n) => Attribute::AnimationSystemPosAudio(*n),
            Attribute::AnimationSystemMacro(n) => Attribute::AnimationSystemMacro(*n),
            Attribute::MediaFolder(n) => Attribute::MediaFolder(*n),
            Attribute::MediaContent(n) => Attribute::MediaContent(*n),
            Attribute::ModelFolder(n) => Attribute::ModelFolder(*n),
            Attribute::ModelContent(n) => Attribute::ModelContent(*n),
            Attribute::PlayMode => Attribute::PlayMode,
            Attribute::PlayBegin => Attribute::PlayBegin,
            Attribute::PlayEnd => Attribute::PlayEnd,
            Attribute::PlaySpeed => Attribute::PlaySpeed,
            Attribute::ColorEffects(n) => Attribute::ColorEffects(*n),
            Attribute::Color(n) => Attribute::Color(*n),
            Attribute::ColorWheelIndex(n) => Attribute::ColorWheelIndex(*n),
            Attribute::ColorWheelSpin(n) => Attribute::ColorWheelSpin(*n),
            Attribute::ColorWheelRandom(n) => Attribute::ColorWheelRandom(*n),
            Attribute::ColorWheelAudio(n) => Attribute::ColorWheelAudio(*n),
            Attribute::ColorAddR => Attribute::ColorAddR,
            Attribute::ColorAddG => Attribute::ColorAddG,
            Attribute::ColorAddB => Attribute::ColorAddB,
            Attribute::ColorAddC => Attribute::ColorAddC,
            Attribute::ColorAddM => Attribute::ColorAddM,
            Attribute::ColorAddY => Attribute::ColorAddY,
            Attribute::ColorAddRY => Attribute::ColorAddRY,
            Attribute::ColorAddGY => Attribute::ColorAddGY,
            Attribute::ColorAddGC => Attribute::ColorAddGC,
            Attribute::ColorAddBC => Attribute::ColorAddBC,
            Attribute::ColorAddBM => Attribute::ColorAddBM,
            Attribute::ColorAddRM => Attribute::ColorAddRM,
            Attribute::ColorAddW => Attribute::ColorAddW,
            Attribute::ColorAddWW => Attribute::ColorAddWW,
            Attribute::ColorAddCW => Attribute::ColorAddCW,
            Attribute::ColorAddUV => Attribute::ColorAddUV,
            Attribute::ColorSubR => Attribute::ColorSubR,
            Attribute::ColorSubG => Attribute::ColorSubG,
            Attribute::ColorSubB => Attribute::ColorSubB,
            Attribute::ColorSubC => Attribute::ColorSubC,
            Attribute::ColorSubM => Attribute::ColorSubM,
            Attribute::ColorSubY => Attribute::ColorSubY,
            Attribute::ColorMacro(n) => Attribute::ColorMacro(*n),
            Attribute::ColorMacroRate(n) => Attribute::ColorMacroRate(*n),
            Attribute::Cto => Attribute::Cto,
            Attribute::Ctc => Attribute::Ctc,
            Attribute::Ctb => Attribute::Ctb,
            Attribute::Tint => Attribute::Tint,
            Attribute::HsbHue => Attribute::HsbHue,
            Attribute::HsbSaturation => Attribute::HsbSaturation,
            Attribute::HsbBrightness => Attribute::HsbBrightness,
            Attribute::HsbQuality => Attribute::HsbQuality,
            Attribute::CieX => Attribute::CieX,
            Attribute::CieY => Attribute::CieY,
            Attribute::CieBrightness => Attribute::CieBrightness,
            Attribute::ColorRgbRed => Attribute::ColorRgbRed,
            Attribute::ColorRgbGreen => Attribute::ColorRgbGreen,
            Attribute::ColorRgbBlue => Attribute::ColorRgbBlue,
            Attribute::ColorRgbCyan => Attribute::ColorRgbCyan,
            Attribute::ColorRgbMagenta => Attribute::ColorRgbMagenta,
            Attribute::ColorRgbYellow => Attribute::ColorRgbYellow,
            Attribute::ColorRgbQuality => Attribute::ColorRgbQuality,
            Attribute::VideoBoostR => Attribute::VideoBoostR,
            Attribute::VideoBoostG => Attribute::VideoBoostG,
            Attribute::VideoBoostB => Attribute::VideoBoostB,
            Attribute::VideoHueShift => Attribute::VideoHueShift,
            Attribute::VideoSaturation => Attribute::VideoSaturation,
            Attribute::VideoBrightness => Attribute::VideoBrightness,
            Attribute::VideoContrast => Attribute::VideoContrast,
            Attribute::VideoKeyColorR => Attribute::VideoKeyColorR,
            Attribute::VideoKeyColorG => Attribute::VideoKeyColorG,
            Attribute::VideoKeyColorB => Attribute::VideoKeyColorB,
            Attribute::VideoKeyIntensity => Attribute::VideoKeyIntensity,
            Attribute::VideoKeyTolerance => Attribute::VideoKeyTolerance,
            Attribute::StrobeDuration => Attribute::StrobeDuration,
            Attribute::StrobeRate => Attribute::StrobeRate,
            Attribute::StrobeFrequency => Attribute::StrobeFrequency,
            Attribute::StrobeModeShutter => Attribute::StrobeModeShutter,
            Attribute::StrobeModeStrobe => Attribute::StrobeModeStrobe,
            Attribute::StrobeModePulse => Attribute::StrobeModePulse,
            Attribute::StrobeModePulseOpen => Attribute::StrobeModePulseOpen,
            Attribute::StrobeModePulseClose => Attribute::StrobeModePulseClose,
            Attribute::StrobeModeRandom => Attribute::StrobeModeRandom,
            Attribute::StrobeModeRandomPulse => Attribute::StrobeModeRandomPulse,
            Attribute::StrobeModeRandomPulseOpen => Attribute::StrobeModeRandomPulseOpen,
            Attribute::StrobeModeRandomPulseClose => Attribute::StrobeModeRandomPulseClose,
            Attribute::StrobeModeEffect => Attribute::StrobeModeEffect,
            Attribute::Shutter(n) => Attribute::Shutter(*n),
            Attribute::ShutterStrobe(n) => Attribute::ShutterStrobe(*n),
            Attribute::ShutterStrobePulse(n) => Attribute::ShutterStrobePulse(*n),
            Attribute::ShutterStrobePulseClose(n) => Attribute::ShutterStrobePulseClose(*n),
            Attribute::ShutterStrobePulseOpen(n) => Attribute::ShutterStrobePulseOpen(*n),
            Attribute::ShutterStrobeRandom(n) => Attribute::ShutterStrobeRandom(*n),
            Attribute::ShutterStrobeRandomPulse(n) => Attribute::ShutterStrobeRandomPulse(*n),
            Attribute::ShutterStrobeRandomPulseClose(n) => Attribute::ShutterStrobeRandomPulseClose(*n),
            Attribute::ShutterStrobeRandomPulseOpen(n) => Attribute::ShutterStrobeRandomPulseOpen(*n),
            Attribute::ShutterStrobeEffect(n) => Attribute::ShutterStrobeEffect(*n),
            Attribute::Iris => Attribute::Iris,
            Attribute::IrisStrobe => Attribute::IrisStrobe,
            Attribute::IrisStrobeRandom => Attribute::IrisStrobeRandom,
            Attribute::IrisPulseClose => Attribute::IrisPulseClose,
            Attribute::IrisPulseOpen => Attribute::IrisPulseOpen,
            Attribute::IrisRandomPulseClose => Attribute::IrisRandomPulseClose,
            Attribute::IrisRandomPulseOpen => Attribute::IrisRandomPulseOpen,
            Attribute::Frost(n) => Attribute::Frost(*n),
            Attribute::FrostPulseOpen(n) => Attribute::FrostPulseOpen(*n),
            Attribute::FrostPulseClose(n) => Attribute::FrostPulseClose(*n),
            Attribute::FrostRamp(n) => Attribute::FrostRamp(*n),
            Attribute::Prism(n) => Attribute::Prism(*n),
            Attribute::PrismSelectSpin(n) => Attribute::PrismSelectSpin(*n),
            Attribute::PrismMacro(n) => Attribute::PrismMacro(*n),
            Attribute::PrismPos(n) => Attribute::PrismPos(*n),
            Attribute::PrismPosRotate(n) => Attribute::PrismPosRotate(*n),
            Attribute::Effects(n) => Attribute::Effects(*n),
            Attribute::EffectsRate(n) => Attribute::EffectsRate(*n),
            Attribute::EffectsFade(n) => Attribute::EffectsFade(*n),
            Attribute::EffectsAdjust(n, m) => Attribute::EffectsAdjust(*n, *m),
            Attribute::EffectsPos(n) => Attribute::EffectsPos(*n),
            Attribute::EffectsPosRotate(n) => Attribute::EffectsPosRotate(*n),
            Attribute::EffectsSync => Attribute::EffectsSync,
            Attribute::BeamShaper => Attribute::BeamShaper,
            Attribute::BeamShaperMacro => Attribute::BeamShaperMacro,
            Attribute::BeamShaperPos => Attribute::BeamShaperPos,
            Attribute::BeamShaperPosRotate => Attribute::BeamShaperPosRotate,
            Attribute::Zoom => Attribute::Zoom,
            Attribute::ZoomModeSpot => Attribute::ZoomModeSpot,
            Attribute::ZoomModeBeam => Attribute::ZoomModeBeam,
            Attribute::DigitalZoom => Attribute::DigitalZoom,
            Attribute::Focus(n) => Attribute::Focus(*n),
            Attribute::FocusAdjust(n) => Attribute::FocusAdjust(*n),
            Attribute::FocusDistance(n) => Attribute::FocusDistance(*n),
            Attribute::Control(n) => Attribute::Control(*n),
            Attribute::DimmerMode => Attribute::DimmerMode,
            Attribute::DimmerCurve => Attribute::DimmerCurve,
            Attribute::BlackoutMode => Attribute::BlackoutMode,
            Attribute::LedFrequency => Attribute::LedFrequency,
            Attribute::LedZoneMode => Attribute::LedZoneMode,
            Attribute::PixelMode => Attribute::PixelMode,
            Attribute::PanMode => Attribute::PanMode,
            Attribute::TiltMode => Attribute::TiltMode,
            Attribute::PanTiltMode => Attribute::PanTiltMode,
            Attribute::PositionModes => Attribute::PositionModes,
            Attribute::GoboWheelMode(n) => Attribute::GoboWheelMode(*n),
            Attribute::GoboWheelShortcutMode => Attribute::GoboWheelShortcutMode,
            Attribute::AnimationWheelMode(n) => Attribute::AnimationWheelMode(*n),
            Attribute::AnimationWheelShortcutMode => Attribute::AnimationWheelShortcutMode,
            Attribute::ColorMode(n) => Attribute::ColorMode(*n),
            Attribute::ColorWheelShortcutMode => Attribute::ColorWheelShortcutMode,
            Attribute::CyanMode => Attribute::CyanMode,
            Attribute::MagentaMode => Attribute::MagentaMode,
            Attribute::YellowMode => Attribute::YellowMode,
            Attribute::ColorMixMode => Attribute::ColorMixMode,
            Attribute::ChromaticMode => Attribute::ChromaticMode,
            Attribute::ColorCalibrationMode => Attribute::ColorCalibrationMode,
            Attribute::ColorConsistency => Attribute::ColorConsistency,
            Attribute::ColorControl => Attribute::ColorControl,
            Attribute::ColorModelMode => Attribute::ColorModelMode,
            Attribute::ColorSettingsReset => Attribute::ColorSettingsReset,
            Attribute::ColorUniformity => Attribute::ColorUniformity,
            Attribute::CriMode => Attribute::CriMode,
            Attribute::CustomColor => Attribute::CustomColor,
            Attribute::UvStability => Attribute::UvStability,
            Attribute::WavelengthCorrection => Attribute::WavelengthCorrection,
            Attribute::WhiteCount => Attribute::WhiteCount,
            Attribute::StrobeMode => Attribute::StrobeMode,
            Attribute::ZoomMode => Attribute::ZoomMode,
            Attribute::FocusMode => Attribute::FocusMode,
            Attribute::IrisMode => Attribute::IrisMode,
            Attribute::FanMode(n) => Attribute::FanMode(*n),
            Attribute::FollowSpotMode => Attribute::FollowSpotMode,
            Attribute::BeamEffectIndexRotateMode => Attribute::BeamEffectIndexRotateMode,
            Attribute::IntensityMSpeed => Attribute::IntensityMSpeed,
            Attribute::PositionMSpeed => Attribute::PositionMSpeed,
            Attribute::ColorMixMSpeed => Attribute::ColorMixMSpeed,
            Attribute::ColorWheelSelectMSpeed => Attribute::ColorWheelSelectMSpeed,
            Attribute::GoboWheelMSpeed(n) => Attribute::GoboWheelMSpeed(*n),
            Attribute::IrisMSpeed => Attribute::IrisMSpeed,
            Attribute::PrismMSpeed(n) => Attribute::PrismMSpeed(*n),
            Attribute::FocusMSpeed => Attribute::FocusMSpeed,
            Attribute::FrostMSpeed(n) => Attribute::FrostMSpeed(*n),
            Attribute::ZoomMSpeed => Attribute::ZoomMSpeed,
            Attribute::FrameMSpeed => Attribute::FrameMSpeed,
            Attribute::GlobalMSpeed => Attribute::GlobalMSpeed,
            Attribute::ReflectorAdjust => Attribute::ReflectorAdjust,
            Attribute::FixtureGlobalReset => Attribute::FixtureGlobalReset,
            Attribute::DimmerReset => Attribute::DimmerReset,
            Attribute::ShutterReset => Attribute::ShutterReset,
            Attribute::BeamReset => Attribute::BeamReset,
            Attribute::ColorMixReset => Attribute::ColorMixReset,
            Attribute::ColorWheelReset => Attribute::ColorWheelReset,
            Attribute::FocusReset => Attribute::FocusReset,
            Attribute::FrameReset => Attribute::FrameReset,
            Attribute::GoboWheelReset => Attribute::GoboWheelReset,
            Attribute::IntensityReset => Attribute::IntensityReset,
            Attribute::IrisReset => Attribute::IrisReset,
            Attribute::PositionReset => Attribute::PositionReset,
            Attribute::PanReset => Attribute::PanReset,
            Attribute::TiltReset => Attribute::TiltReset,
            Attribute::ZoomReset => Attribute::ZoomReset,
            Attribute::CtbReset => Attribute::CtbReset,
            Attribute::CtoReset => Attribute::CtoReset,
            Attribute::CtcReset => Attribute::CtcReset,
            Attribute::AnimationSystemReset => Attribute::AnimationSystemReset,
            Attribute::FixtureCalibrationReset => Attribute::FixtureCalibrationReset,
            Attribute::Function => Attribute::Function,
            Attribute::LampControl => Attribute::LampControl,
            Attribute::DisplayIntensity => Attribute::DisplayIntensity,
            Attribute::DmxInput => Attribute::DmxInput,
            Attribute::NoFeature => Attribute::NoFeature,
            Attribute::Blower(n) => Attribute::Blower(*n),
            Attribute::Fan(n) => Attribute::Fan(*n),
            Attribute::Fog(n) => Attribute::Fog(*n),
            Attribute::Haze(n) => Attribute::Haze(*n),
            Attribute::LampPowerMode => Attribute::LampPowerMode,
            Attribute::Fans => Attribute::Fans,
            Attribute::BladeA(n) => Attribute::BladeA(*n),
            Attribute::BladeB(n) => Attribute::BladeB(*n),
            Attribute::BladeRot(n) => Attribute::BladeRot(*n),
            Attribute::ShaperRot => Attribute::ShaperRot,
            Attribute::ShaperMacros => Attribute::ShaperMacros,
            Attribute::ShaperMacrosSpeed => Attribute::ShaperMacrosSpeed,
            Attribute::BladeSoftA(n) => Attribute::BladeSoftA(*n),
            Attribute::BladeSoftB(n) => Attribute::BladeSoftB(*n),
            Attribute::KeyStoneA(n) => Attribute::KeyStoneA(*n),
            Attribute::KeyStoneB(n) => Attribute::KeyStoneB(*n),
            Attribute::Video => Attribute::Video,
            Attribute::VideoEffectType(n) => Attribute::VideoEffectType(*n),
            Attribute::VideoEffectParameter(n, m) => Attribute::VideoEffectParameter(*n, *m),
            Attribute::VideoCamera(n) => Attribute::VideoCamera(*n),
            Attribute::VideoSoundVolume(n) => Attribute::VideoSoundVolume(*n),
            Attribute::VideoBlendMode => Attribute::VideoBlendMode,
            Attribute::InputSource => Attribute::InputSource,
            Attribute::FieldOfView => Attribute::FieldOfView,
            Attribute::Custom(s) => Attribute::Custom(s.clone()),
        }
    }

    /// Whether this is a custom attribute.
    pub fn is_custom(&self) -> (r: bool)
        ensures
            r == (self@ is Custom),
    {
        match self {
            Attribute::Custom(_) => true,
            _ => false,
        }
    }
}

/// Two attributes are equal when they are the same variant with the same
/// numbers, or custom attributes with the same name.
fn attribute_eq(a: &Attribute, b: &Attribute) -> (r: bool)
    ensures
        r == (a@ == b@),
{
    match (a, b) {
        (Attribute::Dimmer, Attribute::Dimmer) => true,
        (Attribute::Pan, Attribute::Pan) => true,
        (Attribute::Tilt, Attribute::Tilt) => true,
        (Attribute::PanRotate, Attribute::PanRotate) => true,
        (Attribute::TiltRotate, Attribute::TiltRotate) => true,
        (Attribute::PositionEffect, Attribute::PositionEffect) => true,
        (Attribute::PositionEffectRate, Attribute::PositionEffectRate) => true,
        (Attribute::PositionEffectFade, Attribute::PositionEffectFade) => true,
        (Attribute::XyzX, Attribute::XyzX) => true,
        (Attribute::XyzY, Attribute::XyzY) => true,
        (Attribute::XyzZ, Attribute::XyzZ) => true,
        (Attribute::RotX, Attribute::RotX) => true,
        (Attribute::RotY, Attribute::RotY) => true,
        (Attribute::RotZ, Attribute::RotZ) => true,
        (Attribute::ScaleX, Attribute::ScaleX) => true,
        (Attribute::ScaleY, Attribute::ScaleY) => true,
        (Attribute::ScaleZ, Attribute::ScaleZ) => true,
        (Attribute::ScaleXYZ, Attribute::ScaleXYZ) => true,
        (Attribute::Gobo(x), Attribute::Gobo(y)) => *x == *y,
        (Attribute::GoboSelectSpin(x), Attribute::GoboSelectSpin(y)) => *x == *y,
        (Attribute::GoboSelectShake(x), Attribute::GoboSelectShake(y)) => *x == *y,
        (Attribute::GoboSelectEffects(x), Attribute::GoboSelectEffects(y)) => *x == *y,
        (Attribute::GoboWheelIndex(x), Attribute::GoboWheelIndex(y)) => *x == *y,
        (Attribute::GoboWheelSpin(x), Attribute::GoboWheelSpin(y)) => *x == *y,
        (Attribute::GoboWheelShake(x), Attribute::GoboWheelShake(y)) => *x == *y,
        (Attribute::GoboWheelRandom(x), Attribute::GoboWheelRandom(y)) => *x == *y,
        (Attribute::GoboWheelAudio(x), Attribute::GoboWheelAudio(y)) => *x == *y,
        (Attribute::GoboPos(x), Attribute::GoboPos(y)) => *x == *y,
        (Attribute::GoboPosRotate(x), Attribute::GoboPosRotate(y)) => *x == *y,
        (Attribute::GoboPosShake(x), Attribute::GoboPosShake(y)) => *x == *y,
        (Attribute::AnimationWheel(x), Attribute::AnimationWheel(y)) => *x == *y,
        (Attribute::AnimationWheelAudio(x), Attribute::AnimationWheelAudio(y)) => *x == *y,
        (Attribute::AnimationWheelMacro(x), Attribute::AnimationWheelMacro(y)) => *x == *y,
        (Attribute::AnimationWheelRandom(x), Attribute::AnimationWheelRandom(y)) => *x == *y,
        (Attribute::AnimationWheelSelectEffects(x), Attribute::AnimationWheelSelectEffects(y)) => *x == *y,
        (Attribute::AnimationWheelSelectShake(x), Attribute::AnimationWheelSelectShake(y)) => *x == *y,
        (Attribute::AnimationWheelSelectSpin(x), Attribute::AnimationWheelSelectSpin(y)) => *x == *y,
        (Attribute::AnimationWheelPos(x), Attribute::AnimationWheelPos(y)) => *x == *y,
        (Attribute::AnimationWheelPosRotate(x), Attribute::AnimationWheelPosRotate(y)) => *x == *y,
        (Attribute::AnimationWheelPosShake(x), Attribute::AnimationWheelPosShake(y)) => *x == *y,
        (Attribute::AnimationSystem(x), Attribute::AnimationSystem(y)) => *x == *y,
        (Attribute::AnimationSystemRamp(x), Attribute::AnimationSystemRamp(y)) => *x == *y,
        (Attribute::AnimationSystemShake(x), Attribute::AnimationSystemShake(y)) => *x == *y,
        (Attribute::AnimationSystemAudio(x), Attribute::AnimationSystemAudio(y)) => *x == *y,
        (Attribute::AnimationSystemRandom(x), Attribute::AnimationSystemRandom(y)) => *x == *y,
        (Attribute::AnimationSystemPos(x), Attribute::AnimationSystemPos(y)) => *x == *y,
        (Attribute::AnimationSystemPosRotate(x), Attribute::AnimationSystemPosRotate(y)) => *x == *y,
        (Attribute::AnimationSystemPosShake(x), Attribute::AnimationSystemPosShake(y)) => *x == *y,
        (Attribute::AnimationSystemPosRandom(x), Attribute::AnimationSystemPosRandom(y)) => *x == *y,
        (Attribute::AnimationSystemPosAudio(x), Attribute::AnimationSystemPosAudio(y)) => *x == *y,
        (Attribute::AnimationSystemMacro(x), Attribute::AnimationSystemMacro(y)) => *x == *y,
        (Attribute::MediaFolder(x), Attribute::MediaFolder(y)) => *x == *y,
        (Attribute::MediaContent(x), Attribute::MediaContent(y)) => *x == *y,
        (Attribute::ModelFolder(x), Attribute::ModelFolder(y)) => *x == *y,
        (Attribute::ModelContent(x), Attribute::ModelContent(y)) => *x == *y,
        (Attribute::PlayMode, Attribute::PlayMode) => true,
        (Attribute::PlayBegin, Attribute::PlayBegin) => true,
        (Attribute::PlayEnd, Attribute::PlayEnd) => true,
        (Attribute::PlaySpeed, Attribute::PlaySpeed) => true,
        (Attribute::ColorEffects(x), Attribute::ColorEffects(y)) => *x == *y,
        (Attribute::Color(x), Attribute::Color(y)) => *x == *y,
        (Attribute::ColorWheelIndex(x), Attribute::ColorWheelIndex(y)) => *x == *y,
        (Attribute::ColorWheelSpin(x), Attribute::ColorWheelSpin(y)) => *x == *y,
        (Attribute::ColorWheelRandom(x), Attribute::ColorWheelRandom(y)) => *x == *y,
        (Attribute::ColorWheelAudio(x), Attribute::ColorWheelAudio(y)) => *x == *y,
        (Attribute::ColorAddR, Attribute::ColorAddR) => true,
        (Attribute::ColorAddG, Attribute::ColorAddG) => true,
        (Attribute::ColorAddB, Attribute::ColorAddB) => true,
        (Attribute::ColorAddC, Attribute::ColorAddC) => true,
        (Attribute::ColorAddM, Attribute::ColorAddM) => true,
        (Attribute::ColorAddY, Attribute::ColorAddY) => true,
        (Attribute::ColorAddRY, Attribute::ColorAddRY) => true,
        (Attribute::ColorAddGY, Attribute::ColorAddGY) => true,
        (Attribute::ColorAddGC, Attribute::ColorAddGC) => true,
        (Attribute::ColorAddBC, Attribute::ColorAddBC) => true,
        (Attribute::ColorAddBM, Attribute::ColorAddBM) => true,
        (Attribute::ColorAddRM, Attribute::ColorAddRM) => true,
        (Attribute::ColorAddW, Attribute::ColorAddW) => true,
        (Attribute::ColorAddWW, Attribute::ColorAddWW) => true,
        (Attribute::ColorAddCW, Attribute::ColorAddCW) => true,
        (Attribute::ColorAddUV, Attribute::ColorAddUV) => true,
        (Attribute::ColorSubR, Attribute::ColorSubR) => true,
        (Attribute::ColorSubG, Attribute::ColorSubG) => true,
        (Attribute::ColorSubB, Attribute::ColorSubB) => true,
        (Attribute::ColorSubC, Attribute::ColorSubC) => true,
        (Attribute::ColorSubM, Attribute::ColorSubM) => true,
        (Attribute::ColorSubY, Attribute::ColorSubY) => true,
        (Attribute::ColorMacro(x), Attribute::ColorMacro(y)) => *x == *y,
        (Attribute::ColorMacroRate(x), Attribute::ColorMacroRate(y)) => *x == *y,
        (Attribute::Cto, Attribute::Cto) => true,
        (Attribute::Ctc, Attribute::Ctc) => true,
        (Attribute::Ctb, Attribute::Ctb) => true,
        (Attribute::Tint, Attribute::Tint) => true,
        (Attribute::HsbHue, Attribute::HsbHue) => true,
        (Attribute::HsbSaturation, Attribute::HsbSaturation) => true,
        (Attribute::HsbBrightness, Attribute::HsbBrightness) => true,
        (Attribute::HsbQuality, Attribute::HsbQuality) => true,
        (Attribute::CieX, Attribute::CieX) => true,
        (Attribute::CieY, Attribute::CieY) => true,
        (Attribute::CieBrightness, Attribute::CieBrightness) => true,
        (Attribute::ColorRgbRed, Attribute::ColorRgbRed) => true,
        (Attribute::ColorRgbGreen, Attribute::ColorRgbGreen) => true,
        (Attribute::ColorRgbBlue, Attribute::ColorRgbBlue) => true,
        (Attribute::ColorRgbCyan, Attribute::ColorRgbCyan) => true,
        (Attribute::ColorRgbMagenta, Attribute::ColorRgbMagenta) => true,
        (Attribute::ColorRgbYellow, Attribute::ColorRgbYellow) => true,
        (Attribute::ColorRgbQuality, Attribute::ColorRgbQuality) => true,
        (Attribute::VideoBoostR, Attribute::VideoBoostR) => true,
        (Attribute::VideoBoostG, Attribute::VideoBoostG) => true,
        (Attribute::VideoBoostB, Attribute::VideoBoostB) => true,
        (Attribute::VideoHueShift, Attribute::VideoHueShift) => true,
        (Attribute::VideoSaturation, Attribute::VideoSaturation) => true,
        (Attribute::VideoBrightness, Attribute::VideoBrightness) => true,
        (Attribute::VideoContrast, Attribute::VideoContrast) => true,
        (Attribute::VideoKeyColorR, Attribute::VideoKeyColorR) => true,
        (Attribute::VideoKeyColorG, Attribute::VideoKeyColorG) => true,
        (Attribute::VideoKeyColorB, Attribute::VideoKeyColorB) => true,
        (Attribute::VideoKeyIntensity, Attribute::VideoKeyIntensity) => true,
        (Attribute::VideoKeyTolerance, Attribute::VideoKeyTolerance) => true,
        (Attribute::StrobeDuration, Attribute::StrobeDuration) => true,
        (Attribute::StrobeRate, Attribute::StrobeRate) => true,
        (Attribute::StrobeFrequency, Attribute::StrobeFrequency) => true,
        (Attribute::StrobeModeShutter, Attribute::StrobeModeShutter) => true,
        (Attribute::StrobeModeStrobe, Attribute::StrobeModeStrobe) => true,
        (Attribute::StrobeModePulse, Attribute::StrobeModePulse) => true,
        (Attribute::StrobeModePulseOpen, Attribute::StrobeModePulseOpen) => true,
        (Attribute::StrobeModePulseClose, Attribute::StrobeModePulseClose) => true,
        (Attribute::StrobeModeRandom, Attribute::StrobeModeRandom) => true,
        (Attribute::StrobeModeRandomPulse, Attribute::StrobeModeRandomPulse) => true,
        (Attribute::StrobeModeRandomPulseOpen, Attribute::StrobeModeRandomPulseOpen) => true,
        (Attribute::StrobeModeRandomPulseClose, Attribute::StrobeModeRandomPulseClose) => true,
        (Attribute::StrobeModeEffect, Attribute::StrobeModeEffect) => true,
        (Attribute::Shutter(x), Attribute::Shutter(y)) => *x == *y,
        (Attribute::ShutterStrobe(x), Attribute::ShutterStrobe(y)) => *x == *y,
        (Attribute::ShutterStrobePulse(x), Attribute::ShutterStrobePulse(y)) => *x == *y,
        (Attribute::ShutterStrobePulseClose(x), Attribute::ShutterStrobePulseClose(y)) => *x == *y,
        (Attribute::ShutterStrobePulseOpen(x), Attribute::ShutterStrobePulseOpen(y)) => *x == *y,
        (Attribute::ShutterStrobeRandom(x), Attribute::ShutterStrobeRandom(y)) => *x == *y,
        (Attribute::ShutterStrobeRandomPulse(x), Attribute::ShutterStrobeRandomPulse(y)) => *x == *y,
        (Attribute::ShutterStrobeRandomPulseClose(x), Attribute::ShutterStrobeRandomPulseClose(y)) => *x == *y,
        (Attribute::ShutterStrobeRandomPulseOpen(x), Attribute::ShutterStrobeRandomPulseOpen(y)) => *x == *y,
        (Attribute::ShutterStrobeEffect(x), Attribute::ShutterStrobeEffect(y)) => *x == *y,
        (Attribute::Iris, Attribute::Iris) => true,
        (Attribute::IrisStrobe, Attribute::IrisStrobe) => true,
        (Attribute::IrisStrobeRandom, Attribute::IrisStrobeRandom) => true,
        (Attribute::IrisPulseClose, Attribute::IrisPulseClose) => true,
        (Attribute::IrisPulseOpen, Attribute::IrisPulseOpen) => true,
        (Attribute::IrisRandomPulseClose, Attribute::IrisRandomPulseClose) => true,
        (Attribute::IrisRandomPulseOpen, Attribute::IrisRandomPulseOpen) => true,
        (Attribute::Frost(x), Attribute::Frost(y)) => *x == *y,
        (Attribute::FrostPulseOpen(x), Attribute::FrostPulseOpen(y)) => *x == *y,
        (Attribute::FrostPulseClose(x), Attribute::FrostPulseClose(y)) => *x == *y,
        (Attribute::FrostRamp(x), Attribute::FrostRamp(y)) => *x == *y,
        (Attribute::Prism(x), Attribute::Prism(y)) => *x == *y,
        (Attribute::PrismSelectSpin(x), Attribute::PrismSelectSpin(y)) => *x == *y,
        (Attribute::PrismMacro(x), Attribute::PrismMacro(y)) => *x == *y,
        (Attribute::PrismPos(x), Attribute::PrismPos(y)) => *x == *y,
        (Attribute::PrismPosRotate(x), Attribute::PrismPosRotate(y)) => *x == *y,
        (Attribute::Effects(x), Attribute::Effects(y)) => *x == *y,
        (Attribute::EffectsRate(x), Attribute::EffectsRate(y)) => *x == *y,
        (Attribute::EffectsFade(x), Attribute::EffectsFade(y)) => *x == *y,
        (Attribute::EffectsAdjust(x1, x2), Attribute::EffectsAdjust(y1, y2)) => *x1 == *y1 && *x2 == *y2,
        (Attribute::EffectsPos(x), Attribute::EffectsPos(y)) => *x == *y,
        (Attribute::EffectsPosRotate(x), Attribute::EffectsPosRotate(y)) => *x == *y,
        (Attribute::EffectsSync, Attribute::EffectsSync) => true,
        (Attribute::BeamShaper, Attribute::BeamShaper) => true,
        (Attribute::BeamShaperMacro, Attribute::BeamShaperMacro) => true,
        (Attribute::BeamShaperPos, Attribute::BeamShaperPos) => true,
        (Attribute::BeamShaperPosRotate, Attribute::BeamShaperPosRotate) => true,
        (Attribute::Zoom, Attribute::Zoom) => true,
        (Attribute::ZoomModeSpot, Attribute::ZoomModeSpot) => true,
        (Attribute::ZoomModeBeam, Attribute::ZoomModeBeam) => true,
        (Attribute::DigitalZoom, Attribute::DigitalZoom) => true,
        (Attribute::Focus(x), Attribute::Focus(y)) => *x == *y,
        (Attribute::FocusAdjust(x), Attribute::FocusAdjust(y)) => *x == *y,
        (Attribute::FocusDistance(x), Attribute::FocusDistance(y)) => *x == *y,
        (Attribute::Control(x), Attribute::Control(y)) => *x == *y,
        (Attribute::DimmerMode, Attribute::DimmerMode) => true,
        (Attribute::DimmerCurve, Attribute::DimmerCurve) => true,
        (Attribute::BlackoutMode, Attribute::BlackoutMode) => true,
        (Attribute::LedFrequency, Attribute::LedFrequency) => true,
        (Attribute::LedZoneMode, Attribute::LedZoneMode) => true,
        (Attribute::PixelMode, Attribute::PixelMode) => true,
        (Attribute::PanMode, Attribute::PanMode) => true,
        (Attribute::TiltMode, Attribute::TiltMode) => true,
        (Attribute::PanTiltMode, Attribute::PanTiltMode) => true,
        (Attribute::PositionModes, Attribute::PositionModes) => true,
        (Attribute::GoboWheelMode(x), Attribute::GoboWheelMode(y)) => *x == *y,
        (Attribute::GoboWheelShortcutMode, Attribute::GoboWheelShortcutMode) => true,
        (Attribute::AnimationWheelMode(x), Attribute::AnimationWheelMode(y)) => *x == *y,
        (Attribute::AnimationWheelShortcutMode, Attribute::AnimationWheelShortcutMode) => true,
        (Attribute::ColorMode(x), Attribute::ColorMode(y)) => *x == *y,
        (Attribute::ColorWheelShortcutMode, Attribute::ColorWheelShortcutMode) => true,
        (Attribute::CyanMode, Attribute::CyanMode) => true,
        (Attribute::MagentaMode, Attribute::MagentaMode) => true,
        (Attribute::YellowMode, Attribute::YellowMode) => true,
        (Attribute::ColorMixMode, Attribute::ColorMixMode) => true,
        (Attribute::ChromaticMode, Attribute::ChromaticMode) => true,
        (Attribute::ColorCalibrationMode, Attribute::ColorCalibrationMode) => true,
        (Attribute::ColorConsistency, Attribute::ColorConsistency) => true,
        (Attribute::ColorControl, Attribute::ColorControl) => true,
        (Attribute::ColorModelMode, Attribute::ColorModelMode) => true,
        (Attribute::ColorSettingsReset, Attribute::ColorSettingsReset) => true,
        (Attribute::ColorUniformity, Attribute::ColorUniformity) => true,
        (Attribute::CriMode, Attribute::CriMode) => true,
        (Attribute::CustomColor, Attribute::CustomColor) => true,
        (Attribute::UvStability, Attribute::UvStability) => true,
        (Attribute::WavelengthCorrection, Attribute::WavelengthCorrection) => true,
        (Attribute::WhiteCount, Attribute::WhiteCount) => true,
        (Attribute::StrobeMode, Attribute::StrobeMode) => true,
        (Attribute::ZoomMode, Attribute::ZoomMode) => true,
        (Attribute::FocusMode, Attribute::FocusMode) => true,
        (Attribute::IrisMode, Attribute::IrisMode) => true,
        (Attribute::FanMode(x), Attribute::FanMode(y)) => *x == *y,
        (Attribute::FollowSpotMode, Attribute::FollowSpotMode) => true,
        (Attribute::BeamEffectIndexRotateMode, Attribute::BeamEffectIndexRotateMode) => true,
        (Attribute::IntensityMSpeed, Attribute::IntensityMSpeed) => true,
        (Attribute::PositionMSpeed, Attribute::PositionMSpeed) => true,
        (Attribute::ColorMixMSpeed, Attribute::ColorMixMSpeed) => true,
        (Attribute::ColorWheelSelectMSpeed, Attribute::ColorWheelSelectMSpeed) => true,
        (Attribute::GoboWheelMSpeed(x), Attribute::GoboWheelMSpeed(y)) => *x == *y,
        (Attribute::IrisMSpeed, Attribute::IrisMSpeed) => true,
        (Attribute::PrismMSpeed(x), Attribute::PrismMSpeed(y)) => *x == *y,
        (Attribute::FocusMSpeed, Attribute::FocusMSpeed) => true,
        (Attribute::FrostMSpeed(x), Attribute::FrostMSpeed(y)) => *x == *y,
        (Attribute::ZoomMSpeed, Attribute::ZoomMSpeed) => true,
        (Attribute::FrameMSpeed, Attribute::FrameMSpeed) => true,
        (Attribute::GlobalMSpeed, Attribute::GlobalMSpeed) => true,
        (Attribute::ReflectorAdjust, Attribute::ReflectorAdjust) => true,
        (Attribute::FixtureGlobalReset, Attribute::FixtureGlobalReset) => true,
        (Attribute::DimmerReset, Attribute::DimmerReset) => true,
        (Attribute::ShutterReset, Attribute::ShutterReset) => true,
        (Attribute::BeamReset, Attribute::BeamReset) => true,
        (Attribute::ColorMixReset, Attribute::ColorMixReset) => true,
        (Attribute::ColorWheelReset, Attribute::ColorWheelReset) => true,
        (Attribute::FocusReset, Attribute::FocusReset) => true,
        (Attribute::FrameReset, Attribute::FrameReset) => true,
        (Attribute::GoboWheelReset, Attribute::GoboWheelReset) => true,
        (Attribute::IntensityReset, Attribute::IntensityReset) => true,
        (Attribute::IrisReset, Attribute::IrisReset) => true,
        (Attribute::PositionReset, Attribute::PositionReset) => true,
        (Attribute::PanReset, Attribute::PanReset) => true,
        (Attribute::TiltReset, Attribute::TiltReset) => true,
        (Attribute::ZoomReset, Attribute::ZoomReset) => true,
        (Attribute::CtbReset, Attribute::CtbReset) => true,
        (Attribute::CtoReset, Attribute::CtoReset) => true,
        (Attribute::CtcReset, Attribute::CtcReset) => true,
        (Attribute::AnimationSystemReset, Attribute::AnimationSystemReset) => true,
        (Attribute::FixtureCalibrationReset, Attribute::FixtureCalibrationReset) => true,
        (Attribute::Function, Attribute::Function) => true,
        (Attribute::LampControl, Attribute::LampControl) => true,
        (Attribute::DisplayIntensity, Attribute::DisplayIntensity) => true,
        (Attribute::DmxInput, Attribute::DmxInput) => true,
        (Attribute::NoFeature, Attribute::NoFeature) => true,
        (Attribute::Blower(x), Attribute::Blower(y)) => *x == *y,
        (Attribute::Fan(x), Attribute::Fan(y)) => *x == *y,
        (Attribute::Fog(x), Attribute::Fog(y)) => *x == *y,
        (Attribute::Haze(x), Attribute::Haze(y)) => *x == *y,
        (Attribute::LampPowerMode, Attribute::LampPowerMode) => true,
        (Attribute::Fans, Attribute::Fans) => true,
        (Attribute::BladeA(x), Attribute::BladeA(y)) => *x == *y,
        (Attribute::BladeB(x), Attribute::BladeB(y)) => *x == *y,
        (Attribute::BladeRot(x), Attribute::BladeRot(y)) => *x == *y,
        (Attribute::ShaperRot, Attribute::ShaperRot) => true,
        (Attribute::ShaperMacros, Attribute::ShaperMacros) => true,
        (Attribute::ShaperMacrosSpeed, Attribute::ShaperMacrosSpeed) => true,
        (Attribute::BladeSoftA(x), Attribute::BladeSoftA(y)) => *x == *y,
        (Attribute::BladeSoftB(x), Attribute::BladeSoftB(y)) => *x == *y,
        (Attribute::KeyStoneA(x), Attribute::KeyStoneA(y)) => *x == *y,
        (Attribute::KeyStoneB(x), Attribute::KeyStoneB(y)) => *x == *y,
        (Attribute::Video, Attribute::Video) => true,
        (Attribute::VideoEffectType(x), Attribute::VideoEffectType(y)) => *x == *y,
        (Attribute::VideoEffectParameter(x1, x2), Attribute::VideoEffectParameter(y1, y2)) => *x1 == *y1 && *x2 == *y2,
        (Attribute::VideoCamera(x), Attribute::VideoCamera(y)) => *x == *y,
        (Attribute::VideoSoundVolume(x), Attribute::VideoSoundVolume(y)) => *x == *y,
        (Attribute::VideoBlendMode, Attribute::VideoBlendMode) => true,
        (Attribute::InputSource, Attribute::InputSource) => true,
        (Attribute::FieldOfView, Attribute::FieldOfView) => true,
        (Attribute::Custom(x), Attribute::Custom(y)) => {
            let r = *x == *y;
            r
        },
        _ => false,
    }
}

impl PartialEq for Attribute {
    fn eq(&self, other: &Self) -> (r: bool) {
        attribute_eq(self, other)
    }
}

impl vstd::std_specs::cmp::PartialEqSpecImpl for Attribute {
    open spec fn obeys_eq_spec() -> bool {
        true
    }

    open spec fn eq_spec(&self, other: &Attribute) -> bool {
        self@ == other@
    }
}

/// The name `<p><n>`.
fn numbered_name(p: &str, n: u8) -> (r: String)
    ensures
        r@ == p@ + dec(n),
{
    let mut r = String::from_str(p);
    push_u8(&mut r, n);
    r
}

/// The name `<p><n><q>`.
fn numbered_name_suffix(p: &str, n: u8, q: &str) -> (r: String)
    ensures
        r@ == p@ + dec(n) + q@,
{
    let mut r = String::from_str(p);
    push_u8(&mut r, n);
    r.append(q);
    r
}

/// The name `<p><n><mid><m>`.
fn numbered_name_pair(p: &str, n: u8, mid: &str, m: u8) -> (r: String)
    ensures
        r@ == p@ + dec(n) + mid@ + dec(m),
{
    let mut r = String::from_str(p);
    push_u8(&mut r, n);
    r.append(mid);
    push_u8(&mut r, m);
    r
}

/// The attribute of one of the fixed names.
fn parse_fixed_chars(v: &[char]) -> (r: Option<Attribute>)
    ensures
        (match r {
            Some(a) => Some(a@),
            None => None,
        }) == parse_fixed(v@),
{
    let r = parse_fixed_chars_0(v);
    if r.is_some() {
        return r;
    }
    let r = parse_fixed_chars_1(v);
    if r.is_some() {
        return r;
    }
    let r = parse_fixed_chars_2(v);
    if r.is_some() {
        return r;
    }
    let r = parse_fixed_chars_3(v);
    if r.is_some() {
        return r;
    }
    let r = parse_fixed_chars_4(v);
    if r.is_some() {
        return r;
    }
    let r = parse_fixed_chars_5(v);
    if r.is_some() {
        return r;
    }
    let r = parse_fixed_chars_6(v);
    if r.is_some() {
        return r;
    }
    let r = parse_fixed_chars_7(v);
    if r.is_some() {
        return r;
    }
    let r = parse_fixed_chars_8(v);
    if r.is_some() {
        return r;
    }
    let r = parse_fixed_chars_9(v);
    if r.is_some() {
        return r;
    }
    None
}

fn parse_fixed_chars_0(v: &[char]) -> (r: Option<Attribute>)
    ensures
        (match r {
            Some(a) => Some(a@),
            None => None,
        }) == parse_fixed_0(v@),
{
    if eq_lit(v, "Dimmer") {
        Some(Attribute::Dimmer)
    } else if eq_lit(v, "Pan") {
        Some(Attribute::Pan)
    } else if eq_lit(v, "Tilt") {
        Some(Attribute::Tilt)
    } else if eq_lit(v, "PanRotate") {
        Some(Attribute::PanRotate)
    } else if eq_lit(v, "TiltRotate") {
        Some(Attribute::TiltRotate)
    } else if eq_lit(v, "PositionEffect") {
        Some(Attribute::PositionEffect)
    } else if eq_lit(v, "PositionEffectRate") {
        Some(Attribute::PositionEffectRate)
    } else if eq_lit(v, "PositionEffectFade") {
        Some(Attribute::PositionEffectFade)
    } else if eq_lit(v, "XYZ_X") {
        Some(Attribute::XyzX)
    } else if eq_lit(v, "XYZ_Y") {
        Some(Attribute::XyzY)
    } else if eq_lit(v, "XYZ_Z") {
        Some(Attribute::XyzZ)
    } else if eq_lit(v, "Rot_X") {
        Some(Attribute::RotX)
    } else if eq_lit(v, "Rot_Y") {
        Some(Attribute::RotY)
    } else if eq_lit(v, "Rot_Z") {
        Some(Attribute::RotZ)
    } else if eq_lit(v, "Scale_X") {
        Some(Attribute::ScaleX)
    } else if eq_lit(v, "Scale_Y") {
        Some(Attribute::ScaleY)
    } else if eq_lit(v, "Scale_Z") {
        Some(Attribute::ScaleZ)
    } else if eq_lit(v, "Scale_XYZ") {
        Some(Attribute::ScaleXYZ)
    } else if eq_lit(v, "PlayMode") {
        Some(Attribute::PlayMode)
    } else if eq_lit(v, "PlayBegin") {
        Some(Attribute::PlayBegin)
    } else {
        None
    }
}

fn parse_fixed_chars_1(v: &[char]) -> (r: Option<Attribute>)
    ensures
        (match r {
            Some(a) => Some(a@),
            None => None,
        }) == parse_fixed_1(v@),
{
    if eq_lit(v, "PlayEnd") {
        Some(Attribute::PlayEnd)
    } else if eq_lit(v, "PlaySpeed") {
        Some(Attribute::PlaySpeed)
    } else if eq_lit(v, "ColorAdd_R") {
        Some(Attribute::ColorAddR)
    } else if eq_lit(v, "ColorAdd_G") {
        Some(Attribute::ColorAddG)
    } else if eq_lit(v, "ColorAdd_B") {
        Some(Attribute::ColorAddB)
    } else if eq_lit(v, "ColorAdd_C") {
        Some(Attribute::ColorAddC)
    } else if eq_lit(v, "ColorAdd_M") {
        Some(Attribute::ColorAddM)
    } else if eq_lit(v, "ColorAdd_Y") {
        Some(Attribute::ColorAddY)
    } else if eq_lit(v, "ColorAdd_RY") {
        Some(Attribute::ColorAddRY)
    } else if eq_lit(v, "ColorAdd_GY") {
        Some(Attribute::ColorAddGY)
    } else if eq_lit(v, "ColorAdd_GC") {
        Some(Attribute::ColorAddGC)
    } else if eq_lit(v, "ColorAdd_BC") {
        Some(Attribute::ColorAddBC)
    } else if eq_lit(v, "ColorAdd_BM") {
        Some(Attribute::ColorAddBM)
    } else if eq_lit(v, "ColorAdd_RM") {
        Some(Attribute::ColorAddRM)
    } else if eq_lit(v, "ColorAdd_W") {
        Some(Attribute::ColorAddW)
    } else if eq_lit(v, "ColorAdd_WW") {
        Some(Attribute::ColorAddWW)
    } else if eq_lit(v, "ColorAdd_CW") {
        Some(Attribute::ColorAddCW)
    } else if eq_lit(v, "ColorAdd_UV") {
        Some(Attribute::ColorAddUV)
    } else if eq_lit(v, "ColorSub_R") {
        Some(Attribute::ColorSubR)
    } else if eq_lit(v, "ColorSub_G") {
        Some(Attribute::ColorSubG)
    } else {
        None
    }
}

fn parse_fixed_chars_2(v: &[char]) -> (r: Option<Attribute>)
    ensures
        (match r {
            Some(a) => Some(a@),
            None => None,
        }) == parse_fixed_2(v@),
{
    if eq_lit(v, "ColorSub_B") {
        Some(Attribute::ColorSubB)
    } else if eq_lit(v, "ColorSub_C") {
        Some(Attribute::ColorSubC)
    } else if eq_lit(v, "ColorSub_M") {
        Some(Attribute::ColorSubM)
    } else if eq_lit(v, "ColorSub_Y") {
        Some(Attribute::ColorSubY)
    } else if eq_lit(v, "CTO") {
        Some(Attribute::Cto)
    } else if eq_lit(v, "CTC") {
        Some(Attribute::Ctc)
    } else if eq_lit(v, "CTB") {
        Some(Attribute::Ctb)
    } else if eq_lit(v, "Tint") {
        Some(Attribute::Tint)
    } else if eq_lit(v, "HSB_Hue") {
        Some(Attribute::HsbHue)
    } else if eq_lit(v, "HSB_Saturation") {
        Some(Attribute::HsbSaturation)
    } else if eq_lit(v, "HSB_Brightness") {
        Some(Attribute::HsbBrightness)
    } else if eq_lit(v, "HSB_Quality") {
        Some(Attribute::HsbQuality)
    } else if eq_lit(v, "CIE_X") {
        Some(Attribute::CieX)
    } else if eq_lit(v, "CIE_Y") {
        Some(Attribute::CieY)
    } else if eq_lit(v, "CIE_Brightness") {
        Some(Attribute::CieBrightness)
    } else if eq_lit(v, "ColorRGB_Red") {
        Some(Attribute::ColorRgbRed)
    } else if eq_lit(v, "ColorRGB_Green") {
        Some(Attribute::ColorRgbGreen)
    } else if eq_lit(v, "ColorRGB_Blue") {
        Some(Attribute::ColorRgbBlue)
    } else if eq_lit(v, "ColorRGB_Cyan") {
        Some(Attribute::ColorRgbCyan)
    } else if eq_lit(v, "ColorRGB_Magenta") {
        Some(Attribute::ColorRgbMagenta)
    } else {
        None
    }
}

fn parse_fixed_chars_3(v: &[char]) -> (r: Option<Attribute>)
    ensures
        (match r {
            Some(a) => Some(a@),
            None => None,
        }) == parse_fixed_3(v@),
{
    if eq_lit(v, "ColorRGB_Yellow") {
        Some(Attribute::ColorRgbYellow)
    } else if eq_lit(v, "ColorRGB_Quality") {
        Some(Attribute::ColorRgbQuality)
    } else if eq_lit(v, "VideoBoost_R") {
        Some(Attribute::VideoBoostR)
    } else if eq_lit(v, "VideoBoost_G") {
        Some(Attribute::VideoBoostG)
    } else if eq_lit(v, "VideoBoost_B") {
        Some(Attribute::VideoBoostB)
    } else if eq_lit(v, "VideoHueShift") {
        Some(Attribute::VideoHueShift)
    } else if eq_lit(v, "VideoSaturation") {
        Some(Attribute::VideoSaturation)
    } else if eq_lit(v, "VideoBrightness") {
        Some(Attribute::VideoBrightness)
    } else if eq_lit(v, "VideoContrast") {
        Some(Attribute::VideoContrast)
    } else if eq_lit(v, "VideoKeyColor_R") {
        Some(Attribute::VideoKeyColorR)
    } else if eq_lit(v, "VideoKeyColor_G") {
        Some(Attribute::VideoKeyColorG)
    } else if eq_lit(v, "VideoKeyColor_B") {
        Some(Attribute::VideoKeyColorB)
    } else if eq_lit(v, "VideoKeyIntensity") {
        Some(Attribute::VideoKeyIntensity)
    } else if eq_lit(v, "VideoKeyTolerance") {
        Some(Attribute::VideoKeyTolerance)
    } else if eq_lit(v, "StrobeDuration") {
        Some(Attribute::StrobeDuration)
    } else if eq_lit(v, "StrobeRate") {
        Some(Attribute::StrobeRate)
    } else if eq_lit(v, "StrobeFrequency") {
        Some(Attribute::StrobeFrequency)
    } else if eq_lit(v, "StrobeModeShutter") {
        Some(Attribute::StrobeModeShutter)
    } else if eq_lit(v, "StrobeModeStrobe") {
        Some(Attribute::StrobeModeStrobe)
    } else if eq_lit(v, "StrobeModePulse") {
        Some(Attribute::StrobeModePulse)
    } else {
        None
    }
}

fn parse_fixed_chars_4(v: &[char]) -> (r: Option<Attribute>)
    ensures
        (match r {
            Some(a) => Some(a@),
            None => None,
        }) == parse_fixed_4(v@),
{
    if eq_lit(v, "StrobeModePulseOpen") {
        Some(Attribute::StrobeModePulseOpen)
    } else if eq_lit(v, "StrobeModePulseClose") {
        Some(Attribute::StrobeModePulseClose)
    } else if eq_lit(v, "StrobeModeRandom") {
        Some(Attribute::StrobeModeRandom)
    } else if eq_lit(v, "StrobeModeRandomPulse") {
        Some(Attribute::StrobeModeRandomPulse)
    } else if eq_lit(v, "StrobeModeRandomPulseOpen") {
        Some(Attribute::StrobeModeRandomPulseOpen)
    } else if eq_lit(v, "StrobeModeRandomPulseClose") {
        Some(Attribute::StrobeModeRandomPulseClose)
    } else if eq_lit(v, "StrobeModeEffect") {
        Some(Attribute::StrobeModeEffect)
    } else if eq_lit(v, "Iris") {
        Some(Attribute::Iris)
    } else if eq_lit(v, "IrisStrobe") {
        Some(Attribute::IrisStrobe)
    } else if eq_lit(v, "IrisStrobeRandom") {
        Some(Attribute::IrisStrobeRandom)
    } else if eq_lit(v, "IrisPulseClose") {
        Some(Attribute::IrisPulseClose)
    } else if eq_lit(v, "IrisPulseOpen") {
        Some(Attribute::IrisPulseOpen)
    } else if eq_lit(v, "IrisRandomPulseClose") {
        Some(Attribute::IrisRandomPulseClose)
    } else if eq_lit(v, "IrisRandomPulseOpen") {
        Some(Attribute::IrisRandomPulseOpen)
    } else if eq_lit(v, "EffectsSync") {
        Some(Attribute::EffectsSync)
    } else if eq_lit(v, "BeamShaper") {
        Some(Attribute::BeamShaper)
    } else if eq_lit(v, "BeamShaperMacro") {
        Some(Attribute::BeamShaperMacro)
    } else if eq_lit(v, "BeamShaperPos") {
        Some(Attribute::BeamShaperPos)
    } else if eq_lit(v, "BeamShaperPosRotate") {
        Some(Attribute::BeamShaperPosRotate)
    } else if eq_lit(v, "Zoom") {
        Some(Attribute::Zoom)
    } else {
        None
    }
}

fn parse_fixed_chars_5(v: &[char]) -> (r: Option<Attribute>)
    ensures
        (match r {
            Some(a) => Some(a@),
            None => None,
        }) == parse_fixed_5(v@),
{
    if eq_lit(v, "ZoomModeSpot") {
        Some(Attribute::ZoomModeSpot)
    } else if eq_lit(v, "ZoomModeBeam") {
        Some(Attribute::ZoomModeBeam)
    } else if eq_lit(v, "DigitalZoom") {
        Some(Attribute::DigitalZoom)
    } else if eq_lit(v, "DimmerMode") {
        Some(Attribute::DimmerMode)
    } else if eq_lit(v, "DimmerCurve") {
        Some(Attribute::DimmerCurve)
    } else if eq_lit(v, "BlackoutMode") {
        Some(Attribute::BlackoutMode)
    } else if eq_lit(v, "LEDFrequency") {
        Some(Attribute::LedFrequency)
    } else if eq_lit(v, "LEDZoneMode") {
        Some(Attribute::LedZoneMode)
    } else if eq_lit(v, "PixelMode") {
        Some(Attribute::PixelMode)
    } else if eq_lit(v, "PanMode") {
        Some(Attribute::PanMode)
    } else if eq_lit(v, "TiltMode") {
        Some(Attribute::TiltMode)
    } else if eq_lit(v, "PanTiltMode") {
        Some(Attribute::PanTiltMode)
    } else if eq_lit(v, "PositionModes") {
        Some(Attribute::PositionModes)
    } else if eq_lit(v, "GoboWheelShortcutMode") {
        Some(Attribute::GoboWheelShortcutMode)
    } else if eq_lit(v, "AnimationWheelShortcutMode") {
        Some(Attribute::AnimationWheelShortcutMode)
    } else if eq_lit(v, "ColorWheelShortcutMode") {
        Some(Attribute::ColorWheelShortcutMode)
    } else if eq_lit(v, "CyanMode") {
        Some(Attribute::CyanMode)
    } else if eq_lit(v, "MagentaMode") {
        Some(Attribute::MagentaMode)
    } else if eq_lit(v, "YellowMode") {
        Some(Attribute::YellowMode)
    } else if eq_lit(v, "ColorMixMode") {
        Some(Attribute::ColorMixMode)
    } else {
        None
    }
}

fn parse_fixed_chars_6(v: &[char]) -> (r: Option<Attribute>)
    ensures
        (match r {
            Some(a) => Some(a@),
            None => None,
        }) == parse_fixed_6(v@),
{
    if eq_lit(v, "ChromaticMode") {
        Some(Attribute::ChromaticMode)
    } else if eq_lit(v, "ColorCalibrationMode") {
        Some(Attribute::ColorCalibrationMode)
    } else if eq_lit(v, "ColorConsistency") {
        Some(Attribute::ColorConsistency)
    } else if eq_lit(v, "ColorControl") {
        Some(Attribute::ColorControl)
    } else if eq_lit(v, "ColorModelMode") {
        Some(Attribute::ColorModelMode)
    } else if eq_lit(v, "ColorSettingsReset") {
        Some(Attribute::ColorSettingsReset)
    } else if eq_lit(v, "ColorUniformity") {
        Some(Attribute::ColorUniformity)
    } else if eq_lit(v, "CRIMode") {
        Some(Attribute::CriMode)
    } else if eq_lit(v, "CustomColor") {
        Some(Attribute::CustomColor)
    } else if eq_lit(v, "UVStability") {
        Some(Attribute::UvStability)
    } else if eq_lit(v, "WavelengthCorrection") {
        Some(Attribute::WavelengthCorrection)
    } else if eq_lit(v, "WhiteCount") {
        Some(Attribute::WhiteCount)
    } else if eq_lit(v, "StrobeMode") {
        Some(Attribute::StrobeMode)
    } else if eq_lit(v, "ZoomMode") {
        Some(Attribute::ZoomMode)
    } else if eq_lit(v, "FocusMode") {
        Some(Attribute::FocusMode)
    } else if eq_lit(v, "IrisMode") {
        Some(Attribute::IrisMode)
    } else if eq_lit(v, "FollowSpotMode") {
        Some(Attribute::FollowSpotMode)
    } else if eq_lit(v, "BeamEffectIndexRotateMode") {
        Some(Attribute::BeamEffectIndexRotateMode)
    } else if eq_lit(v, "IntensityMSpeed") {
        Some(Attribute::IntensityMSpeed)
    } else if eq_lit(v, "PositionMSpeed") {
        Some(Attribute::PositionMSpeed)
    } else {
        None
    }
}

fn parse_fixed_chars_7(v: &[char]) -> (r: Option<Attribute>)
    ensures
        (match r {
            Some(a) => Some(a@),
            None => None,
        }) == parse_fixed_7(v@),
{
    if eq_lit(v, "ColorMixMSpeed") {
        Some(Attribute::ColorMixMSpeed)
    } else if eq_lit(v, "ColorWheelSelectMSpeed") {
        Some(Attribute::ColorWheelSelectMSpeed)
    } else if eq_lit(v, "IrisMSpeed") {
        Some(Attribute::IrisMSpeed)
    } else if eq_lit(v, "FocusMSpeed") {
        Some(Attribute::FocusMSpeed)
    } else if eq_lit(v, "ZoomMSpeed") {
        Some(Attribute::ZoomMSpeed)
    } else if eq_lit(v, "FrameMSpeed") {
        Some(Attribute::FrameMSpeed)
    } else if eq_lit(v, "GlobalMSpeed") {
        Some(Attribute::GlobalMSpeed)
    } else if eq_lit(v, "ReflectorAdjust") {
        Some(Attribute::ReflectorAdjust)
    } else if eq_lit(v, "FixtureGlobalReset") {
        Some(Attribute::FixtureGlobalReset)
    } else if eq_lit(v, "DimmerReset") {
        Some(Attribute::DimmerReset)
    } else if eq_lit(v, "ShutterReset") {
        Some(Attribute::ShutterReset)
    } else if eq_lit(v, "BeamReset") {
        Some(Attribute::BeamReset)
    } else if eq_lit(v, "ColorMixReset") {
        Some(Attribute::ColorMixReset)
    } else if eq_lit(v, "ColorWheelReset") {
        Some(Attribute::ColorWheelReset)
    } else if eq_lit(v, "FocusReset") {
        Some(Attribute::FocusReset)
    } else if eq_lit(v, "FrameReset") {
        Some(Attribute::FrameReset)
    } else if eq_lit(v, "GoboWheelReset") {
        Some(Attribute::GoboWheelReset)
    } else if eq_lit(v, "IntensityReset") {
        Some(Attribute::IntensityReset)
    } else if eq_lit(v, "IrisReset") {
        Some(Attribute::IrisReset)
    } else if eq_lit(v, "PositionReset") {
        Some(Attribute::PositionReset)
    } else {
        None
    }
}

fn parse_fixed_chars_8(v: &[char]) -> (r: Option<Attribute>)
    ensures
        (match r {
            Some(a) => Some(a@),
            None => None,
        }) == parse_fixed_8(v@),
{
    if eq_lit(v, "PanReset") {
        Some(Attribute::PanReset)
    } else if eq_lit(v, "TiltReset") {
        Some(Attribute::TiltReset)
    } else if eq_lit(v, "ZoomReset") {
        Some(Attribute::ZoomReset)
    } else if eq_lit(v, "CTBReset") {
        Some(Attribute::CtbReset)
    } else if eq_lit(v, "CTOReset") {
        Some(Attribute::CtoReset)
    } else if eq_lit(v, "CTCReset") {
        Some(Attribute::CtcReset)
    } else if eq_lit(v, "AnimationSystemReset") {
        Some(Attribute::AnimationSystemReset)
    } else if eq_lit(v, "FixtureCalibrationReset") {
        Some(Attribute::FixtureCalibrationReset)
    } else if eq_lit(v, "Function") {
        Some(Attribute::Function)
    } else if eq_lit(v, "LampControl") {
        Some(Attribute::LampControl)
    } else if eq_lit(v, "DisplayIntensity") {
        Some(Attribute::DisplayIntensity)
    } else if eq_lit(v, "DMXInput") {
        Some(Attribute::DmxInput)
    } else if eq_lit(v, "NoFeature") {
        Some(Attribute::NoFeature)
    } else if eq_lit(v, "LampPowerMode") {
        Some(Attribute::LampPowerMode)
    } else if eq_lit(v, "Fans") {
        Some(Attribute::Fans)
    } else if eq_lit(v, "ShaperRot") {
        Some(Attribute::ShaperRot)
    } else if eq_lit(v, "ShaperMacros") {
        Some(Attribute::ShaperMacros)
    } else if eq_lit(v, "ShaperMacrosSpeed") {
        Some(Attribute::ShaperMacrosSpeed)
    } else if eq_lit(v, "Video") {
        Some(Attribute::Video)
    } else if eq_lit(v, "VideoBlendMode") {
        Some(Attribute::VideoBlendMode)
    } else {
        None
    }
}

fn parse_fixed_chars_9(v: &[char]) -> (r: Option<Attribute>)
    ensures
        (match r {
            Some(a) => Some(a@),
            None => None,
        }) == parse_fixed_9(v@),
{
    if eq_lit(v, "InputSource") {
        Some(Attribute::InputSource)
    } else if eq_lit(v, "FieldOfView") {
        Some(Attribute::FieldOfView)
    } else {
        None
    }
}

/// The attribute of a numbered name.
fn parse_numbered_chars(v: &[char]) -> (r: Option<Attribute>)
    ensures
        (match r {
            Some(a) => Some(a@),
            None => None,
        }) == parse_numbered(v@),
{
    let r = parse_numbered_chars_0(v);
    if r.is_some() {
        return r;
    }
    let r = parse_numbered_chars_1(v);
    if r.is_some() {
        return r;
    }
    let r = parse_numbered_chars_2(v);
    if r.is_some() {
        return r;
    }
    let r = parse_numbered_chars_3(v);
    if r.is_some() {
        return r;
    }
    let r = parse_numbered_chars_4(v);
    if r.is_some() {
        return r;
    }
    None
}

fn parse_numbered_chars_0(v: &[char]) -> (r: Option<Attribute>)
    ensures
        (match r {
            Some(a) => Some(a@),
            None => None,
        }) == parse_numbered_0(v@),
{
    if let Some(n) = extract_attr_n(v, "Gobo") {
        Some(Attribute::Gobo(n))
    } else if let Some(n) = extract_attr_n_suffix(v, "Gobo", "SelectSpin") {
        Some(Attribute::GoboSelectSpin(n))
    } else if let Some(n) = extract_attr_n_suffix(v, "Gobo", "SelectShake") {
        Some(Attribute::GoboSelectShake(n))
    } else if let Some(n) = extract_attr_n_suffix(v, "Gobo", "SelectEffects") {
        Some(Attribute::GoboSelectEffects(n))
    } else if let Some(n) = extract_attr_n_suffix(v, "Gobo", "WheelIndex") {
        Some(Attribute::GoboWheelIndex(n))
    } else if let Some(n) = extract_attr_n_suffix(v, "Gobo", "WheelSpin") {
        Some(Attribute::GoboWheelSpin(n))
    } else if let Some(n) = extract_attr_n_suffix(v, "Gobo", "WheelShake") {
        Some(Attribute::GoboWheelShake(n))
    } else if let Some(n) = extract_attr_n_suffix(v, "Gobo", "WheelRandom") {
        Some(Attribute::GoboWheelRandom(n))
    } else if let Some(n) = extract_attr_n_suffix(v, "Gobo", "WheelAudio") {
        Some(Attribute::GoboWheelAudio(n))
    } else if let Some(n) = extract_attr_n_suffix(v, "Gobo", "Pos") {
        Some(Attribute::GoboPos(n))
    } else if let Some(n) = extract_attr_n_suffix(v, "Gobo", "PosRotate") {
        Some(Attribute::GoboPosRotate(n))
    } else if let Some(n) = extract_attr_n_suffix(v, "Gobo", "PosShake") {
        Some(Attribute::GoboPosShake(n))
    } else if let Some(n) = extract_attr_n(v, "AnimationWheel") {
        Some(Attribute::AnimationWheel(n))
    } else if let Some(n) = extract_attr_n_suffix(v, "AnimationWheel", "Audio") {
        Some(Attribute::AnimationWheelAudio(n))
    } else if let Some(n) = extract_attr_n_suffix(v, "AnimationWheel", "Macro") {
        Some(Attribute::AnimationWheelMacro(n))
    } else if let Some(n) = extract_attr_n_suffix(v, "AnimationWheel", "Random") {
        Some(Attribute::AnimationWheelRandom(n))
    } else if let Some(n) = extract_attr_n_suffix(v, "AnimationWheel", "SelectEffects") {
        Some(Attribute::AnimationWheelSelectEffects(n))
    } else if let Some(n) = extract_attr_n_suffix(v, "AnimationWheel", "SelectShake") {
        Some(Attribute::AnimationWheelSelectShake(n))
    } else if let Some(n) = extract_attr_n_suffix(v, "AnimationWheel", "SelectSpin") {
        Some(Attribute::AnimationWheelSelectSpin(n))
    } else if let Some(n) = extract_attr_n_suffix(v, "AnimationWheel", "Pos") {
        Some(Attribute::AnimationWheelPos(n))
    } else {
        None
    }
}

fn parse_numbered_chars_1(v: &[char]) -> (r: Option<Attribute>)
    ensures
        (match r {
            Some(a) => Some(a@),
            None => None,
        }) == parse_numbered_1(v@),
{
    if let Some(n) = extract_attr_n_suffix(v, "AnimationWheel", "PosRotate") {
        Some(Attribute::AnimationWheelPosRotate(n))
    } else if let Some(n) = extract_attr_n_suffix(v, "AnimationWheel", "PosShake") {
        Some(Attribute::AnimationWheelPosShake(n))
    } else if let Some(n) = extract_attr_n(v, "AnimationSystem") {
        Some(Attribute::AnimationSystem(n))
    } else if let Some(n) = extract_attr_n_suffix(v, "AnimationSystem", "Ramp") {
        Some(Attribute::AnimationSystemRamp(n))
    } else if let Some(n) = extract_attr_n_suffix(v, "AnimationSystem", "Shake") {
        Some(Attribute::AnimationSystemShake(n))
    } else if let Some(n) = extract_attr_n_suffix(v, "AnimationSystem", "Audio") {
        Some(Attribute::AnimationSystemAudio(n))
    } else if let Some(n) = extract_attr_n_suffix(v, "AnimationSystem", "Random") {
        Some(Attribute::AnimationSystemRandom(n))
    } else if let Some(n) = extract_attr_n_suffix(v, "AnimationSystem", "Pos") {
        Some(Attribute::AnimationSystemPos(n))
    } else if let Some(n) = extract_attr_n_suffix(v, "AnimationSystem", "PosRotate") {
        Some(Attribute::AnimationSystemPosRotate(n))
    } else if let Some(n) = extract_attr_n_suffix(v, "AnimationSystem", "PosShake") {
        Some(Attribute::AnimationSystemPosShake(n))
    } else if let Some(n) = extract_attr_n_suffix(v, "AnimationSystem", "PosRandom") {
        Some(Attribute::AnimationSystemPosRandom(n))
    } else if let Some(n) = extract_attr_n_suffix(v, "AnimationSystem", "PosAudio") {
        Some(Attribute::AnimationSystemPosAudio(n))
    } else if let Some(n) = extract_attr_n_suffix(v, "AnimationSystem", "Macro") {
        Some(Attribute::AnimationSystemMacro(n))
    } else if let Some(n) = extract_attr_n(v, "MediaFolder") {
        Some(Attribute::MediaFolder(n))
    } else if let Some(n) = extract_attr_n(v, "MediaContent") {
        Some(Attribute::MediaContent(n))
    } else if let Some(n) = extract_attr_n(v, "ModelFolder") {
        Some(Attribute::ModelFolder(n))
    } else if let Some(n) = extract_attr_n(v, "ModelContent") {
        Some(Attribute::ModelContent(n))
    } else if let Some(n) = extract_attr_n(v, "ColorEffects") {
        Some(Attribute::ColorEffects(n))
    } else if let Some(n) = extract_attr_n(v, "Color") {
        Some(Attribute::Color(n))
    } else if let Some(n) = extract_attr_n_suffix(v, "Color", "WheelIndex") {
        Some(Attribute::ColorWheelIndex(n))
    } else {
        None
    }
}

fn parse_numbered_chars_2(v: &[char]) -> (r: Option<Attribute>)
    ensures
        (match r {
            Some(a) => Some(a@),
            None => None,
        }) == parse_numbered_2(v@),
{
    if let Some(n) = extract_attr_n_suffix(v, "Color", "WheelSpin") {
        Some(Attribute::ColorWheelSpin(n))
    } else if let Some(n) = extract_attr_n_suffix(v, "Color", "WheelRandom") {
        Some(Attribute::ColorWheelRandom(n))
    } else if let Some(n) = extract_attr_n_suffix(v, "Color", "WheelAudio") {
        Some(Attribute::ColorWheelAudio(n))
    } else if let Some(n) = extract_attr_n(v, "ColorMacro") {
        Some(Attribute::ColorMacro(n))
    } else if let Some(n) = extract_attr_n_suffix(v, "ColorMacro", "Rate") {
        Some(Attribute::ColorMacroRate(n))
    } else if let Some(n) = extract_attr_n(v, "Shutter") {
        Some(Attribute::Shutter(n))
    } else if let Some(n) = extract_attr_n_suffix(v, "Shutter", "Strobe") {
        Some(Attribute::ShutterStrobe(n))
    } else if let Some(n) = extract_attr_n_suffix(v, "Shutter", "StrobePulse") {
        Some(Attribute::ShutterStrobePulse(n))
    } else if let Some(n) = extract_attr_n_suffix(v, "Shutter", "StrobePulseClose") {
        Some(Attribute::ShutterStrobePulseClose(n))
    } else if let Some(n) = extract_attr_n_suffix(v, "Shutter", "StrobePulseOpen") {
        Some(Attribute::ShutterStrobePulseOpen(n))
    } else if let Some(n) = extract_attr_n_suffix(v, "Shutter", "StrobeRandom") {
        Some(Attribute::ShutterStrobeRandom(n))
    } else if let Some(n) = extract_attr_n_suffix(v, "Shutter", "StrobeRandomPulse") {
        Some(Attribute::ShutterStrobeRandomPulse(n))
    } else if let Some(n) = extract_attr_n_suffix(v, "Shutter", "StrobeRandomPulseClose") {
        Some(Attribute::ShutterStrobeRandomPulseClose(n))
    } else if let Some(n) = extract_attr_n_suffix(v, "Shutter", "StrobeRandomPulseOpen") {
        Some(Attribute::ShutterStrobeRandomPulseOpen(n))
    } else if let Some(n) = extract_attr_n_suffix(v, "Shutter", "StrobeEffect") {
        Some(Attribute::ShutterStrobeEffect(n))
    } else if let Some(n) = extract_attr_n(v, "Frost") {
        Some(Attribute::Frost(n))
    } else if let Some(n) = extract_attr_n_suffix(v, "Frost", "PulseOpen") {
        Some(Attribute::FrostPulseOpen(n))
    } else if let Some(n) = extract_attr_n_suffix(v, "Frost", "PulseClose") {
        Some(Attribute::FrostPulseClose(n))
    } else if let Some(n) = extract_attr_n_suffix(v, "Frost", "Ramp") {
        Some(Attribute::FrostRamp(n))
    } else if let Some(n) = extract_attr_n(v, "Prism") {
        Some(Attribute::Prism(n))
    } else {
        None
    }
}

fn parse_numbered_chars_3(v: &[char]) -> (r: Option<Attribute>)
    ensures
        (match r {
            Some(a) => Some(a@),
            None => None,
        }) == parse_numbered_3(v@),
{
    if let Some(n) = extract_attr_n_suffix(v, "Prism", "SelectSpin") {
        Some(Attribute::PrismSelectSpin(n))
    } else if let Some(n) = extract_attr_n_suffix(v, "Prism", "Macro") {
        Some(Attribute::PrismMacro(n))
    } else if let Some(n) = extract_attr_n_suffix(v, "Prism", "Pos") {
        Some(Attribute::PrismPos(n))
    } else if let Some(n) = extract_attr_n_suffix(v, "Prism", "PosRotate") {
        Some(Attribute::PrismPosRotate(n))
    } else if let Some((n, m)) = extract_attr_n_m(v, "Effects", "Adjust") {
        Some(Attribute::EffectsAdjust(n, m))
    } else if let Some(n) = extract_attr_n(v, "Effects") {
        Some(Attribute::Effects(n))
    } else if let Some(n) = extract_attr_n_suffix(v, "Effects", "Rate") {
        Some(Attribute::EffectsRate(n))
    } else if let Some(n) = extract_attr_n_suffix(v, "Effects", "Fade") {
        Some(Attribute::EffectsFade(n))
    } else if let Some(n) = extract_attr_n_suffix(v, "Effects", "Pos") {
        Some(Attribute::EffectsPos(n))
    } else if let Some(n) = extract_attr_n_suffix(v, "Effects", "PosRotate") {
        Some(Attribute::EffectsPosRotate(n))
    } else if let Some(n) = extract_attr_n(v, "Focus") {
        Some(Attribute::Focus(n))
    } else if let Some(n) = extract_attr_n_suffix(v, "Focus", "Adjust") {
        Some(Attribute::FocusAdjust(n))
    } else if let Some(n) = extract_attr_n_suffix(v, "Focus", "Distance") {
        Some(Attribute::FocusDistance(n))
    } else if let Some(n) = extract_attr_n(v, "Control") {
        Some(Attribute::Control(n))
    } else if let Some(n) = extract_attr_n_suffix(v, "Gobo", "WheelMode") {
        Some(Attribute::GoboWheelMode(n))
    } else if let Some(n) = extract_attr_n_suffix(v, "AnimationWheel", "Mode") {
        Some(Attribute::AnimationWheelMode(n))
    } else if let Some(n) = extract_attr_n_suffix(v, "Color", "Mode") {
        Some(Attribute::ColorMode(n))
    } else if let Some(n) = extract_attr_n_suffix(v, "Fan", "Mode") {
        Some(Attribute::FanMode(n))
    } else if let Some(n) = extract_attr_n_suffix(v, "GoboWheel", "MSpeed") {
        Some(Attribute::GoboWheelMSpeed(n))
    } else if let Some(n) = extract_attr_n_suffix(v, "Prism", "MSpeed") {
        Some(Attribute::PrismMSpeed(n))
    } else {
        None
    }
}

fn parse_numbered_chars_4(v: &[char]) -> (r: Option<Attribute>)
    ensures
        (match r {
            Some(a) => Some(a@),
            None => None,
        }) == parse_numbered_4(v@),
{
    if let Some(n) = extract_attr_n_suffix(v, "Frost", "MSpeed") {
        Some(Attribute::FrostMSpeed(n))
    } else if let Some(n) = extract_attr_n(v, "Blower") {
        Some(Attribute::Blower(n))
    } else if let Some(n) = extract_attr_n(v, "Fan") {
        Some(Attribute::Fan(n))
    } else if let Some(n) = extract_attr_n(v, "Fog") {
        Some(Attribute::Fog(n))
    } else if let Some(n) = extract_attr_n(v, "Haze") {
        Some(Attribute::Haze(n))
    } else if let Some(n) = extract_attr_n_suffix(v, "Blade", "A") {
        Some(Attribute::BladeA(n))
    } else if let Some(n) = extract_attr_n_suffix(v, "Blade", "B") {
        Some(Attribute::BladeB(n))
    } else if let Some(n) = extract_attr_n_suffix(v, "Blade", "Rot") {
        Some(Attribute::BladeRot(n))
    } else if let Some(n) = extract_attr_n_suffix(v, "BladeSoft", "A") {
        Some(Attribute::BladeSoftA(n))
    } else if let Some(n) = extract_attr_n_suffix(v, "BladeSoft", "B") {
        Some(Attribute::BladeSoftB(n))
    } else if let Some(n) = extract_attr_n_suffix(v, "KeyStone", "A") {
        Some(Attribute::KeyStoneA(n))
    } else if let Some(n) = extract_attr_n_suffix(v, "KeyStone", "B") {
        Some(Attribute::KeyStoneB(n))
    } else if let Some(n) = extract_attr_n_suffix(v, "VideoEffect", "Type") {
        Some(Attribute::VideoEffectType(n))
    } else if let Some((n, m)) = extract_attr_n_m(v, "VideoEffect", "Parameter") {
        Some(Attribute::VideoEffectParameter(n, m))
    } else if let Some(n) = extract_attr_n(v, "VideoCamera") {
        Some(Attribute::VideoCamera(n))
    } else if let Some(n) = extract_attr_n(v, "VideoSoundVolume") {
        Some(Attribute::VideoSoundVolume(n))
    } else {
        None
    }
}


} // verus!
