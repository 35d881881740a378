//! Laws of the attribute catalogue beyond its names: which attributes
//! belong to each feature type, that pretty names tell attributes apart,
//! and that a pretty name shows the same numbers as the GDTF name.

use vstd::prelude::*;
use crate::attribute::{
    FixtureChannel3Attribute, FixtureChannel3FeatureType, attribute_feature_type,
    attribute_increment, attribute_pretty, attribute_text,
};
use crate::text::{decimal, is_digit, lemma_decimal_digits};

verus! {

/// Law: an attribute has a feature type exactly when it is not a custom
/// attribute.
pub proof fn law_feature_type_known(a: FixtureChannel3Attribute)
    ensures
        attribute_feature_type(a) is Some <==> !(a is Custom),
{
}

/// Law: the attributes of feature type `Dimmer` are exactly `Dimmer`.
pub proof fn law_feature_type_dimmer(a: FixtureChannel3Attribute)
    ensures
        attribute_feature_type(a) == Some(FixtureChannel3FeatureType::Dimmer) <==> (a is Dimmer),
{
}

/// Law: the attributes of feature type `PanTilt` are exactly `Pan`, `Tilt`,
/// `PanRotate`, `TiltRotate`, `PositionEffect`, `PositionEffectRate`,
/// `PositionEffectFade`.
pub proof fn law_feature_type_pan_tilt(a: FixtureChannel3Attribute)
    ensures
        attribute_feature_type(a) == Some(FixtureChannel3FeatureType::PanTilt) <==> (a is Pan || a is Tilt || a is PanRotate || a is TiltRotate || a is PositionEffect || a is PositionEffectRate || a is PositionEffectFade),
{
}

/// Law: the attributes of feature type `Xyz` are exactly `XyzX`, `XyzY`,
/// `XyzZ`.
pub proof fn law_feature_type_xyz(a: FixtureChannel3Attribute)
    ensures
        attribute_feature_type(a) == Some(FixtureChannel3FeatureType::Xyz) <==> (a is XyzX || a is XyzY || a is XyzZ),
{
}

/// Law: the attributes of feature type `Rotation` are exactly `RotX`, `RotY`,
/// `RotZ`.
pub proof fn law_feature_type_rotation(a: FixtureChannel3Attribute)
    ensures
        attribute_feature_type(a) == Some(FixtureChannel3FeatureType::Rotation) <==> (a is RotX || a is RotY || a is RotZ),
{
}

/// Law: the attributes of feature type `Scale` are exactly `ScaleX`, `ScaleY`,
/// `ScaleZ`, `ScaleXYZ`.
pub proof fn law_feature_type_scale(a: FixtureChannel3Attribute)
    ensures
        attribute_feature_type(a) == Some(FixtureChannel3FeatureType::Scale) <==> (a is ScaleX || a is ScaleY || a is ScaleZ || a is ScaleXYZ),
{
}

/// Law: the attributes of feature type `Gobo` are exactly those the
/// statement lists.
pub proof fn law_feature_type_gobo(a: FixtureChannel3Attribute)
    ensures
        attribute_feature_type(a) == Some(FixtureChannel3FeatureType::Gobo) <==> (a is Gobo || a is GoboSelectSpin || a is GoboSelectShake || a is GoboSelectEffects || a is GoboWheelIndex || a is GoboWheelSpin || a is GoboWheelShake || a is GoboWheelRandom || a is GoboWheelAudio || a is GoboPos || a is GoboPosRotate || a is GoboPosShake || a is AnimationWheel || a is AnimationWheelAudio || a is AnimationWheelMacro || a is AnimationWheelRandom || a is AnimationWheelSelectEffects || a is AnimationWheelSelectShake || a is AnimationWheelSelectSpin || a is AnimationWheelPos || a is AnimationWheelPosRotate || a is AnimationWheelPosShake || a is AnimationSystem || a is AnimationSystemRamp || a is AnimationSystemShake || a is AnimationSystemAudio || a is AnimationSystemRandom || a is AnimationSystemPos || a is AnimationSystemPosRotate || a is AnimationSystemPosShake || a is AnimationSystemPosRandom || a is AnimationSystemPosAudio || a is AnimationSystemMacro),
{
}

/// Law: the attributes of feature type `Media` are exactly `PlayMode`,
/// `MediaFolder`, `MediaContent`, `ModelFolder`, `ModelContent`, `PlayBegin`,
/// `PlayEnd`, `PlaySpeed`.
pub proof fn law_feature_type_media(a: FixtureChannel3Attribute)
    ensures
        attribute_feature_type(a) == Some(FixtureChannel3FeatureType::Media) <==> (a is PlayMode || a is MediaFolder || a is MediaContent || a is ModelFolder || a is ModelContent || a is PlayBegin || a is PlayEnd || a is PlaySpeed),
{
}

/// Law: the attributes of feature type `Color` are exactly those the
/// statement lists.
pub proof fn law_feature_type_color(a: FixtureChannel3Attribute)
    ensures
        attribute_feature_type(a) == Some(FixtureChannel3FeatureType::Color) <==> (a is ColorEffects || a is Color || a is ColorWheelIndex || a is ColorWheelSpin || a is ColorWheelRandom || a is ColorWheelAudio || a is Cto || a is Ctc || a is Ctb || a is Tint),
{
}

/// Law: the attributes of feature type `Rgb` are exactly those the
/// statement lists.
pub proof fn law_feature_type_rgb(a: FixtureChannel3Attribute)
    ensures
        attribute_feature_type(a) == Some(FixtureChannel3FeatureType::Rgb) <==> (a is ColorAddR || a is ColorAddG || a is ColorAddB || a is ColorAddC || a is ColorAddM || a is ColorAddY || a is ColorAddRY || a is ColorAddGY || a is ColorAddGC || a is ColorAddBC || a is ColorAddBM || a is ColorAddRM || a is ColorAddW || a is ColorAddWW || a is ColorAddCW || a is ColorAddUV || a is ColorSubR || a is ColorSubG || a is ColorSubB || a is ColorSubC || a is ColorSubM || a is ColorSubY || a is ColorMacro || a is ColorMacroRate),
{
}

/// Law: the attributes of feature type `Hsb` are exactly `HsbHue`,
/// `HsbSaturation`, `HsbBrightness`, `HsbQuality`.
pub proof fn law_feature_type_hsb(a: FixtureChannel3Attribute)
    ensures
        attribute_feature_type(a) == Some(FixtureChannel3FeatureType::Hsb) <==> (a is HsbHue || a is HsbSaturation || a is HsbBrightness || a is HsbQuality),
{
}

/// Law: the attributes of feature type `Cie` are exactly `CieX`, `CieY`,
/// `CieBrightness`.
pub proof fn law_feature_type_cie(a: FixtureChannel3Attribute)
    ensures
        attribute_feature_type(a) == Some(FixtureChannel3FeatureType::Cie) <==> (a is CieX || a is CieY || a is CieBrightness),
{
}

/// Law: the attributes of feature type `Indirect` are exactly `ColorRgbRed`,
/// `ColorRgbGreen`, `ColorRgbBlue`, `ColorRgbCyan`, `ColorRgbMagenta`,
/// `ColorRgbYellow`, `ColorRgbQuality`.
pub proof fn law_feature_type_indirect(a: FixtureChannel3Attribute)
    ensures
        attribute_feature_type(a) == Some(FixtureChannel3FeatureType::Indirect) <==> (a is ColorRgbRed || a is ColorRgbGreen || a is ColorRgbBlue || a is ColorRgbCyan || a is ColorRgbMagenta || a is ColorRgbYellow || a is ColorRgbQuality),
{
}

/// Law: the attributes of feature type `ColorCorrection` are exactly
/// `VideoBoostR`, `VideoBoostG`, `VideoBoostB`.
pub proof fn law_feature_type_color_correction(a: FixtureChannel3Attribute)
    ensures
        attribute_feature_type(a) == Some(FixtureChannel3FeatureType::ColorCorrection) <==> (a is VideoBoostR || a is VideoBoostG || a is VideoBoostB),
{
}

/// Law: the attributes of feature type `HsbcShift` are exactly `VideoHueShift`,
/// `VideoSaturation`, `VideoBrightness`, `VideoContrast`.
pub proof fn law_feature_type_hsbc_shift(a: FixtureChannel3Attribute)
    ensures
        attribute_feature_type(a) == Some(FixtureChannel3FeatureType::HsbcShift) <==> (a is VideoHueShift || a is VideoSaturation || a is VideoBrightness || a is VideoContrast),
{
}

/// Law: the attributes of feature type `ColorKey` are exactly `VideoKeyColorR`,
/// `VideoKeyColorG`, `VideoKeyColorB`, `VideoKeyIntensity`,
/// `VideoKeyTolerance`.
pub proof fn law_feature_type_color_key(a: FixtureChannel3Attribute)
    ensures
        attribute_feature_type(a) == Some(FixtureChannel3FeatureType::ColorKey) <==> (a is VideoKeyColorR || a is VideoKeyColorG || a is VideoKeyColorB || a is VideoKeyIntensity || a is VideoKeyTolerance),
{
}

/// Law: the attributes of feature type `Beam` are exactly those the
/// statement lists.
pub proof fn law_feature_type_beam(a: FixtureChannel3Attribute)
    ensures
        attribute_feature_type(a) == Some(FixtureChannel3FeatureType::Beam) <==> (a is StrobeDuration || a is StrobeRate || a is StrobeFrequency || a is StrobeModeShutter || a is StrobeModeStrobe || a is StrobeModePulse || a is StrobeModePulseOpen || a is StrobeModePulseClose || a is StrobeModeRandom || a is StrobeModeRandomPulse || a is StrobeModeRandomPulseOpen || a is StrobeModeRandomPulseClose || a is StrobeModeEffect || a is Shutter || a is ShutterStrobe || a is ShutterStrobePulse || a is ShutterStrobePulseClose || a is ShutterStrobePulseOpen || a is ShutterStrobeRandom || a is ShutterStrobeRandomPulse || a is ShutterStrobeRandomPulseClose || a is ShutterStrobeRandomPulseOpen || a is ShutterStrobeEffect || a is Iris || a is IrisStrobe || a is IrisStrobeRandom || a is IrisPulseClose || a is IrisPulseOpen || a is IrisRandomPulseClose || a is IrisRandomPulseOpen || a is Frost || a is FrostPulseOpen || a is FrostPulseClose || a is FrostRamp || a is Prism || a is PrismSelectSpin || a is PrismMacro || a is PrismPos || a is PrismPosRotate || a is Effects || a is EffectsRate || a is EffectsFade || a is EffectsAdjust || a is EffectsPos || a is EffectsPosRotate || a is EffectsSync || a is BeamShaper || a is BeamShaperMacro || a is BeamShaperPos || a is BeamShaperPosRotate),
{
}

/// Law: the attributes of feature type `Focus` are exactly `Zoom`,
/// `ZoomModeSpot`, `ZoomModeBeam`, `DigitalZoom`, `Focus`, `FocusAdjust`,
/// `FocusDistance`.
pub proof fn law_feature_type_focus(a: FixtureChannel3Attribute)
    ensures
        attribute_feature_type(a) == Some(FixtureChannel3FeatureType::Focus) <==> (a is Zoom || a is ZoomModeSpot || a is ZoomModeBeam || a is DigitalZoom || a is Focus || a is FocusAdjust || a is FocusDistance),
{
}

/// Law: the attributes of feature type `Control` are exactly those the
/// statement lists.
pub proof fn law_feature_type_control(a: FixtureChannel3Attribute)
    ensures
        attribute_feature_type(a) == Some(FixtureChannel3FeatureType::Control) <==> (a is Control || a is DimmerMode || a is DimmerCurve || a is BlackoutMode || a is LedFrequency || a is LedZoneMode || a is PixelMode || a is PanMode || a is TiltMode || a is PanTiltMode || a is PositionModes || a is GoboWheelMode || a is GoboWheelShortcutMode || a is AnimationWheelMode || a is AnimationWheelShortcutMode || a is ColorMode || a is ColorWheelShortcutMode || a is CyanMode || a is MagentaMode || a is YellowMode || a is ColorMixMode || a is ChromaticMode || a is ColorCalibrationMode || a is ColorConsistency || a is ColorControl || a is ColorModelMode || a is ColorSettingsReset || a is ColorUniformity || a is CriMode || a is CustomColor || a is UvStability || a is WavelengthCorrection || a is WhiteCount || a is StrobeMode || a is ZoomMode || a is FocusMode || a is IrisMode || a is FanMode || a is FollowSpotMode || a is BeamEffectIndexRotateMode || a is IntensityMSpeed || a is PositionMSpeed || a is ColorMixMSpeed || a is ColorWheelSelectMSpeed || a is GoboWheelMSpeed || a is IrisMSpeed || a is PrismMSpeed || a is FocusMSpeed || a is FrostMSpeed || a is ZoomMSpeed || a is FrameMSpeed || a is GlobalMSpeed || a is ReflectorAdjust || a is FixtureGlobalReset || a is DimmerReset || a is ShutterReset || a is BeamReset || a is ColorMixReset || a is ColorWheelReset || a is FocusReset || a is FrameReset || a is GoboWheelReset || a is IntensityReset || a is IrisReset || a is PositionReset || a is PanReset || a is TiltReset || a is ZoomReset || a is CtbReset || a is CtoReset || a is CtcReset || a is AnimationSystemReset || a is FixtureCalibrationReset || a is Function || a is LampControl || a is DisplayIntensity || a is DmxInput || a is NoFeature || a is Blower || a is Fan || a is Fog || a is Haze || a is LampPowerMode || a is Fans),
{
}

/// Law: the attributes of feature type `Shapers` are exactly those the
/// statement lists.
pub proof fn law_feature_type_shapers(a: FixtureChannel3Attribute)
    ensures
        attribute_feature_type(a) == Some(FixtureChannel3FeatureType::Shapers) <==> (a is BladeA || a is BladeB || a is BladeRot || a is ShaperRot || a is ShaperMacros || a is ShaperMacrosSpeed || a is BladeSoftA || a is BladeSoftB || a is KeyStoneA || a is KeyStoneB),
{
}

/// Law: the attributes of feature type `Video` are exactly `Video`,
/// `VideoEffectType`, `VideoEffectParameter`, `VideoCamera`, `FieldOfView`,
/// `InputSource`, `VideoBlendMode`, `VideoSoundVolume`.
pub proof fn law_feature_type_video(a: FixtureChannel3Attribute)
    ensures
        attribute_feature_type(a) == Some(FixtureChannel3FeatureType::Video) <==> (a is Video || a is VideoEffectType || a is VideoEffectParameter || a is VideoCamera || a is FieldOfView || a is InputSource || a is VideoBlendMode || a is VideoSoundVolume),
{
}

/// The attribute, among a part of the unnumbered ones, whose pretty name is
/// `s`.
#[verifier::opaque]
pub open spec fn pretty_lookup_0(s: Seq<char>) -> Option<FixtureChannel3Attribute> {
    if s == "Dimmer"@ {
        Some(FixtureChannel3Attribute::Dimmer)
    } else if s == "Pan"@ {
        Some(FixtureChannel3Attribute::Pan)
    } else if s == "Tilt"@ {
        Some(FixtureChannel3Attribute::Tilt)
    } else if s == "Pan Rotate"@ {
        Some(FixtureChannel3Attribute::PanRotate)
    } else if s == "Tilt Rotate"@ {
        Some(FixtureChannel3Attribute::TiltRotate)
    } else if s == "Position Effect"@ {
        Some(FixtureChannel3Attribute::PositionEffect)
    } else if s == "Position Effect Rate"@ {
        Some(FixtureChannel3Attribute::PositionEffectRate)
    } else if s == "Position Effect Fade"@ {
        Some(FixtureChannel3Attribute::PositionEffectFade)
    } else if s == "X"@ {
        Some(FixtureChannel3Attribute::XyzX)
    } else if s == "Y"@ {
        Some(FixtureChannel3Attribute::XyzY)
    } else if s == "Z"@ {
        Some(FixtureChannel3Attribute::XyzZ)
    } else if s == "Rotation X"@ {
        Some(FixtureChannel3Attribute::RotX)
    } else if s == "Rotation Y"@ {
        Some(FixtureChannel3Attribute::RotY)
    } else if s == "Rotation Z"@ {
        Some(FixtureChannel3Attribute::RotZ)
    } else if s == "Scale X"@ {
        Some(FixtureChannel3Attribute::ScaleX)
    } else if s == "Scale Y"@ {
        Some(FixtureChannel3Attribute::ScaleY)
    } else if s == "Scale Z"@ {
        Some(FixtureChannel3Attribute::ScaleZ)
    } else if s == "Scale XYZ"@ {
        Some(FixtureChannel3Attribute::ScaleXYZ)
    } else if s == "Play Mode"@ {
        Some(FixtureChannel3Attribute::PlayMode)
    } else if s == "Play Begin"@ {
        Some(FixtureChannel3Attribute::PlayBegin)
    } else if s == "Play End"@ {
        Some(FixtureChannel3Attribute::PlayEnd)
    } else if s == "Play Speed"@ {
        Some(FixtureChannel3Attribute::PlaySpeed)
    } else if s == "Red"@ {
        Some(FixtureChannel3Attribute::ColorAddR)
    } else if s == "Green"@ {
        Some(FixtureChannel3Attribute::ColorAddG)
    } else if s == "Blue"@ {
        Some(FixtureChannel3Attribute::ColorAddB)
    } else if s == "Cyan"@ {
        Some(FixtureChannel3Attribute::ColorAddC)
    } else if s == "Magenta"@ {
        Some(FixtureChannel3Attribute::ColorAddM)
    } else if s == "Yellow"@ {
        Some(FixtureChannel3Attribute::ColorAddY)
    } else if s == "Red-Yellow"@ {
        Some(FixtureChannel3Attribute::ColorAddRY)
    } else if s == "Green-Yellow"@ {
        Some(FixtureChannel3Attribute::ColorAddGY)
    } else if s == "Green-Cyan"@ {
        Some(FixtureChannel3Attribute::ColorAddGC)
    } else if s == "Blue-Cyan"@ {
        Some(FixtureChannel3Attribute::ColorAddBC)
    } else if s == "Blue-Magenta"@ {
        Some(FixtureChannel3Attribute::ColorAddBM)
    } else if s == "Red-Magenta"@ {
        Some(FixtureChannel3Attribute::ColorAddRM)
    } else if s == "White"@ {
        Some(FixtureChannel3Attribute::ColorAddW)
    } else if s == "Warm White"@ {
        Some(FixtureChannel3Attribute::ColorAddWW)
    } else if s == "Cool White"@ {
        Some(FixtureChannel3Attribute::ColorAddCW)
    } else if s == "UV"@ {
        Some(FixtureChannel3Attribute::ColorAddUV)
    } else if s == "Red-"@ {
        Some(FixtureChannel3Attribute::ColorSubR)
    } else if s == "Green-"@ {
        Some(FixtureChannel3Attribute::ColorSubG)
    } else if s == "Blue-"@ {
        Some(FixtureChannel3Attribute::ColorSubB)
    } else if s == "Cyan-"@ {
        Some(FixtureChannel3Attribute::ColorSubC)
    } else if s == "Magenta-"@ {
        Some(FixtureChannel3Attribute::ColorSubM)
    } else if s == "Yellow-"@ {
        Some(FixtureChannel3Attribute::ColorSubY)
    } else if s == "CTO"@ {
        Some(FixtureChannel3Attribute::Cto)
    } else if s == "CTC"@ {
        Some(FixtureChannel3Attribute::Ctc)
    } else {
        None
    }
}

/// The attribute, among a part of the unnumbered ones, whose pretty name is
/// `s`.
#[verifier::opaque]
pub open spec fn pretty_lookup_1(s: Seq<char>) -> Option<FixtureChannel3Attribute> {
    if s == "CTB"@ {
        Some(FixtureChannel3Attribute::Ctb)
    } else if s == "Tint"@ {
        Some(FixtureChannel3Attribute::Tint)
    } else if s == "HSB Hue"@ {
        Some(FixtureChannel3Attribute::HsbHue)
    } else if s == "HSB Saturation"@ {
        Some(FixtureChannel3Attribute::HsbSaturation)
    } else if s == "HSB Brightness"@ {
        Some(FixtureChannel3Attribute::HsbBrightness)
    } else if s == "HSB Quality"@ {
        Some(FixtureChannel3Attribute::HsbQuality)
    } else if s == "CIE X"@ {
        Some(FixtureChannel3Attribute::CieX)
    } else if s == "CIE Y"@ {
        Some(FixtureChannel3Attribute::CieY)
    } else if s == "CIE Brightness"@ {
        Some(FixtureChannel3Attribute::CieBrightness)
    } else if s == "RGB Red"@ {
        Some(FixtureChannel3Attribute::ColorRgbRed)
    } else if s == "RGB Green"@ {
        Some(FixtureChannel3Attribute::ColorRgbGreen)
    } else if s == "RGB Blue"@ {
        Some(FixtureChannel3Attribute::ColorRgbBlue)
    } else if s == "RGB Cyan"@ {
        Some(FixtureChannel3Attribute::ColorRgbCyan)
    } else if s == "RGB Magenta"@ {
        Some(FixtureChannel3Attribute::ColorRgbMagenta)
    } else if s == "RGB Yellow"@ {
        Some(FixtureChannel3Attribute::ColorRgbYellow)
    } else if s == "RGB Quality"@ {
        Some(FixtureChannel3Attribute::ColorRgbQuality)
    } else if s == "Video Boost Red"@ {
        Some(FixtureChannel3Attribute::VideoBoostR)
    } else if s == "Video Boost Green"@ {
        Some(FixtureChannel3Attribute::VideoBoostG)
    } else if s == "Video Boost Blue"@ {
        Some(FixtureChannel3Attribute::VideoBoostB)
    } else if s == "Video Hue Shift"@ {
        Some(FixtureChannel3Attribute::VideoHueShift)
    } else if s == "Video Saturation"@ {
        Some(FixtureChannel3Attribute::VideoSaturation)
    } else if s == "Video Brightness"@ {
        Some(FixtureChannel3Attribute::VideoBrightness)
    } else if s == "Video Contrast"@ {
        Some(FixtureChannel3Attribute::VideoContrast)
    } else if s == "Video Key Color Red"@ {
        Some(FixtureChannel3Attribute::VideoKeyColorR)
    } else if s == "Video Key Color Green"@ {
        Some(FixtureChannel3Attribute::VideoKeyColorG)
    } else if s == "Video Key Color Blue"@ {
        Some(FixtureChannel3Attribute::VideoKeyColorB)
    } else if s == "Video Key Intensity"@ {
        Some(FixtureChannel3Attribute::VideoKeyIntensity)
    } else if s == "Video Key Tolerance"@ {
        Some(FixtureChannel3Attribute::VideoKeyTolerance)
    } else if s == "Strobe Duration"@ {
        Some(FixtureChannel3Attribute::StrobeDuration)
    } else if s == "Strobe Rate"@ {
        Some(FixtureChannel3Attribute::StrobeRate)
    } else if s == "Strobe Frequency"@ {
        Some(FixtureChannel3Attribute::StrobeFrequency)
    } else if s == "Strobe Mode Shutter"@ {
        Some(FixtureChannel3Attribute::StrobeModeShutter)
    } else if s == "Strobe Mode Strobe"@ {
        Some(FixtureChannel3Attribute::StrobeModeStrobe)
    } else if s == "Strobe Mode Pulse"@ {
        Some(FixtureChannel3Attribute::StrobeModePulse)
    } else if s == "Strobe Mode Pulse Open"@ {
        Some(FixtureChannel3Attribute::StrobeModePulseOpen)
    } else if s == "Strobe Mode Pulse Close"@ {
        Some(FixtureChannel3Attribute::StrobeModePulseClose)
    } else if s == "Strobe Mode Random"@ {
        Some(FixtureChannel3Attribute::StrobeModeRandom)
    } else if s == "Strobe Mode Random Pulse"@ {
        Some(FixtureChannel3Attribute::StrobeModeRandomPulse)
    } else if s == "Strobe Mode Random Pulse Open"@ {
        Some(FixtureChannel3Attribute::StrobeModeRandomPulseOpen)
    } else if s == "Strobe Mode Random Pulse Close"@ {
        Some(FixtureChannel3Attribute::StrobeModeRandomPulseClose)
    } else if s == "Strobe Mode Effect"@ {
        Some(FixtureChannel3Attribute::StrobeModeEffect)
    } else if s == "Iris"@ {
        Some(FixtureChannel3Attribute::Iris)
    } else if s == "Iris Strobe"@ {
        Some(FixtureChannel3Attribute::IrisStrobe)
    } else if s == "Iris Strobe Random"@ {
        Some(FixtureChannel3Attribute::IrisStrobeRandom)
    } else if s == "Iris Pulse Close"@ {
        Some(FixtureChannel3Attribute::IrisPulseClose)
    } else if s == "Iris Pulse Open"@ {
        Some(FixtureChannel3Attribute::IrisPulseOpen)
    } else {
        None
    }
}

/// The attribute, among a part of the unnumbered ones, whose pretty name is
/// `s`.
#[verifier::opaque]
pub open spec fn pretty_lookup_2(s: Seq<char>) -> Option<FixtureChannel3Attribute> {
    if s == "Iris Random Pulse Close"@ {
        Some(FixtureChannel3Attribute::IrisRandomPulseClose)
    } else if s == "Iris Random Pulse Open"@ {
        Some(FixtureChannel3Attribute::IrisRandomPulseOpen)
    } else if s == "Effects Sync"@ {
        Some(FixtureChannel3Attribute::EffectsSync)
    } else if s == "Beam Shaper"@ {
        Some(FixtureChannel3Attribute::BeamShaper)
    } else if s == "Beam Shaper Macro"@ {
        Some(FixtureChannel3Attribute::BeamShaperMacro)
    } else if s == "Beam Shaper Position"@ {
        Some(FixtureChannel3Attribute::BeamShaperPos)
    } else if s == "Beam Shaper Position Rotate"@ {
        Some(FixtureChannel3Attribute::BeamShaperPosRotate)
    } else if s == "Zoom"@ {
        Some(FixtureChannel3Attribute::Zoom)
    } else if s == "Zoom Mode Spot"@ {
        Some(FixtureChannel3Attribute::ZoomModeSpot)
    } else if s == "Zoom Mode Beam"@ {
        Some(FixtureChannel3Attribute::ZoomModeBeam)
    } else if s == "Digital Zoom"@ {
        Some(FixtureChannel3Attribute::DigitalZoom)
    } else if s == "Dimmer Mode"@ {
        Some(FixtureChannel3Attribute::DimmerMode)
    } else if s == "Dimmer Curve"@ {
        Some(FixtureChannel3Attribute::DimmerCurve)
    } else if s == "Blackout Mode"@ {
        Some(FixtureChannel3Attribute::BlackoutMode)
    } else if s == "LED Frequency"@ {
        Some(FixtureChannel3Attribute::LedFrequency)
    } else if s == "LED Zone Mode"@ {
        Some(FixtureChannel3Attribute::LedZoneMode)
    } else if s == "Pixel Mode"@ {
        Some(FixtureChannel3Attribute::PixelMode)
    } else if s == "Pan Mode"@ {
        Some(FixtureChannel3Attribute::PanMode)
    } else if s == "Tilt Mode"@ {
        Some(FixtureChannel3Attribute::TiltMode)
    } else if s == "Pan Tilt Mode"@ {
        Some(FixtureChannel3Attribute::PanTiltMode)
    } else if s == "Position Modes"@ {
        Some(FixtureChannel3Attribute::PositionModes)
    } else if s == "Gobo Wheel Shortcut Mode"@ {
        Some(FixtureChannel3Attribute::GoboWheelShortcutMode)
    } else if s == "Animation Wheel Shortcut Mode"@ {
        Some(FixtureChannel3Attribute::AnimationWheelShortcutMode)
    } else if s == "Color Wheel Shortcut Mode"@ {
        Some(FixtureChannel3Attribute::ColorWheelShortcutMode)
    } else if s == "Cyan Mode"@ {
        Some(FixtureChannel3Attribute::CyanMode)
    } else if s == "Magenta Mode"@ {
        Some(FixtureChannel3Attribute::MagentaMode)
    } else if s == "Yellow Mode"@ {
        Some(FixtureChannel3Attribute::YellowMode)
    } else if s == "Color Mix Mode"@ {
        Some(FixtureChannel3Attribute::ColorMixMode)
    } else if s == "Chromatic Mode"@ {
        Some(FixtureChannel3Attribute::ChromaticMode)
    } else if s == "Color Calibration Mode"@ {
        Some(FixtureChannel3Attribute::ColorCalibrationMode)
    } else if s == "Color Consistency"@ {
        Some(FixtureChannel3Attribute::ColorConsistency)
    } else if s == "Color Control"@ {
        Some(FixtureChannel3Attribute::ColorControl)
    } else if s == "Color Model Mode"@ {
        Some(FixtureChannel3Attribute::ColorModelMode)
    } else if s == "Color Settings Reset"@ {
        Some(FixtureChannel3Attribute::ColorSettingsReset)
    } else if s == "Color Uniformity"@ {
        Some(FixtureChannel3Attribute::ColorUniformity)
    } else if s == "CRI Mode"@ {
        Some(FixtureChannel3Attribute::CriMode)
    } else if s == "Custom Color"@ {
        Some(FixtureChannel3Attribute::CustomColor)
    } else if s == "UV Stability"@ {
        Some(FixtureChannel3Attribute::UvStability)
    } else if s == "Wavelength Correction"@ {
        Some(FixtureChannel3Attribute::WavelengthCorrection)
    } else if s == "White Count"@ {
        Some(FixtureChannel3Attribute::WhiteCount)
    } else if s == "Strobe Mode"@ {
        Some(FixtureChannel3Attribute::StrobeMode)
    } else if s == "Zoom Mode"@ {
        Some(FixtureChannel3Attribute::ZoomMode)
    } else if s == "Focus Mode"@ {
        Some(FixtureChannel3Attribute::FocusMode)
    } else if s == "Iris Mode"@ {
        Some(FixtureChannel3Attribute::IrisMode)
    } else if s == "Follow Spot Mode"@ {
        Some(FixtureChannel3Attribute::FollowSpotMode)
    } else if s == "Beam Effect Index Rotate Mode"@ {
        Some(FixtureChannel3Attribute::BeamEffectIndexRotateMode)
    } else {
        None
    }
}

/// The attribute, among a part of the unnumbered ones, whose pretty name is
/// `s`.
#[verifier::opaque]
pub open spec fn pretty_lookup_3(s: Seq<char>) -> Option<FixtureChannel3Attribute> {
    if s == "Intensity MSpeed"@ {
        Some(FixtureChannel3Attribute::IntensityMSpeed)
    } else if s == "Position MSpeed"@ {
        Some(FixtureChannel3Attribute::PositionMSpeed)
    } else if s == "Color Mix MSpeed"@ {
        Some(FixtureChannel3Attribute::ColorMixMSpeed)
    } else if s == "Color Wheel Select MSpeed"@ {
        Some(FixtureChannel3Attribute::ColorWheelSelectMSpeed)
    } else if s == "Iris MSpeed"@ {
        Some(FixtureChannel3Attribute::IrisMSpeed)
    } else if s == "Focus MSpeed"@ {
        Some(FixtureChannel3Attribute::FocusMSpeed)
    } else if s == "Zoom MSpeed"@ {
        Some(FixtureChannel3Attribute::ZoomMSpeed)
    } else if s == "Frame MSpeed"@ {
        Some(FixtureChannel3Attribute::FrameMSpeed)
    } else if s == "Global MSpeed"@ {
        Some(FixtureChannel3Attribute::GlobalMSpeed)
    } else if s == "Reflector Adjust"@ {
        Some(FixtureChannel3Attribute::ReflectorAdjust)
    } else if s == "Fixture Global Reset"@ {
        Some(FixtureChannel3Attribute::FixtureGlobalReset)
    } else if s == "Dimmer Reset"@ {
        Some(FixtureChannel3Attribute::DimmerReset)
    } else if s == "Shutter Reset"@ {
        Some(FixtureChannel3Attribute::ShutterReset)
    } else if s == "Beam Reset"@ {
        Some(FixtureChannel3Attribute::BeamReset)
    } else if s == "Color Mix Reset"@ {
        Some(FixtureChannel3Attribute::ColorMixReset)
    } else if s == "Color Wheel Reset"@ {
        Some(FixtureChannel3Attribute::ColorWheelReset)
    } else if s == "Focus Reset"@ {
        Some(FixtureChannel3Attribute::FocusReset)
    } else if s == "Frame Reset"@ {
        Some(FixtureChannel3Attribute::FrameReset)
    } else if s == "Gobo Wheel Reset"@ {
        Some(FixtureChannel3Attribute::GoboWheelReset)
    } else if s == "Intensity Reset"@ {
        Some(FixtureChannel3Attribute::IntensityReset)
    } else if s == "Iris Reset"@ {
        Some(FixtureChannel3Attribute::IrisReset)
    } else if s == "Position Reset"@ {
        Some(FixtureChannel3Attribute::PositionReset)
    } else if s == "Pan Reset"@ {
        Some(FixtureChannel3Attribute::PanReset)
    } else if s == "Tilt Reset"@ {
        Some(FixtureChannel3Attribute::TiltReset)
    } else if s == "Zoom Reset"@ {
        Some(FixtureChannel3Attribute::ZoomReset)
    } else if s == "CTB Reset"@ {
        Some(FixtureChannel3Attribute::CtbReset)
    } else if s == "CTO Reset"@ {
        Some(FixtureChannel3Attribute::CtoReset)
    } else if s == "CTC Reset"@ {
        Some(FixtureChannel3Attribute::CtcReset)
    } else if s == "Animation System Reset"@ {
        Some(FixtureChannel3Attribute::AnimationSystemReset)
    } else if s == "Fixture Calibration Reset"@ {
        Some(FixtureChannel3Attribute::FixtureCalibrationReset)
    } else if s == "Function"@ {
        Some(FixtureChannel3Attribute::Function)
    } else if s == "Lamp Control"@ {
        Some(FixtureChannel3Attribute::LampControl)
    } else if s == "Display Intensity"@ {
        Some(FixtureChannel3Attribute::DisplayIntensity)
    } else if s == "DMX Input"@ {
        Some(FixtureChannel3Attribute::DmxInput)
    } else if s == "No Feature"@ {
        Some(FixtureChannel3Attribute::NoFeature)
    } else if s == "Lamp Power Mode"@ {
        Some(FixtureChannel3Attribute::LampPowerMode)
    } else if s == "Fans"@ {
        Some(FixtureChannel3Attribute::Fans)
    } else if s == "Shaper Rotation"@ {
        Some(FixtureChannel3Attribute::ShaperRot)
    } else if s == "Shaper Macros"@ {
        Some(FixtureChannel3Attribute::ShaperMacros)
    } else if s == "Shaper Macros Speed"@ {
        Some(FixtureChannel3Attribute::ShaperMacrosSpeed)
    } else if s == "Video"@ {
        Some(FixtureChannel3Attribute::Video)
    } else if s == "Video Blend Mode"@ {
        Some(FixtureChannel3Attribute::VideoBlendMode)
    } else if s == "Input Source"@ {
        Some(FixtureChannel3Attribute::InputSource)
    } else if s == "Field of View"@ {
        Some(FixtureChannel3Attribute::FieldOfView)
    } else {
        None
    }
}

/// The unnumbered attribute whose pretty name is `s`, if there is one.
pub open spec fn pretty_lookup(s: Seq<char>) -> Option<FixtureChannel3Attribute> {
    if pretty_lookup_0(s) is Some { pretty_lookup_0(s) } else { if pretty_lookup_1(s) is Some { pretty_lookup_1(s) } else { if pretty_lookup_2(s) is Some { pretty_lookup_2(s) } else { pretty_lookup_3(s) } } }
}

/// The lengths of the pretty names in part 0 of the lookup.
proof fn lemma_pretty_lengths_0()
    ensures
        "Dimmer"@.len() == 6,
        "Pan"@.len() == 3,
        "Tilt"@.len() == 4,
        "Pan Rotate"@.len() == 10,
        "Tilt Rotate"@.len() == 11,
        "Position Effect"@.len() == 15,
        "Position Effect Rate"@.len() == 20,
        "Position Effect Fade"@.len() == 20,
        "X"@.len() == 1,
        "Y"@.len() == 1,
        "Z"@.len() == 1,
        "Rotation X"@.len() == 10,
        "Rotation Y"@.len() == 10,
        "Rotation Z"@.len() == 10,
        "Scale X"@.len() == 7,
        "Scale Y"@.len() == 7,
        "Scale Z"@.len() == 7,
        "Scale XYZ"@.len() == 9,
        "Play Mode"@.len() == 9,
        "Play Begin"@.len() == 10,
        "Play End"@.len() == 8,
        "Play Speed"@.len() == 10,
        "Red"@.len() == 3,
        "Green"@.len() == 5,
        "Blue"@.len() == 4,
        "Cyan"@.len() == 4,
        "Magenta"@.len() == 7,
        "Yellow"@.len() == 6,
        "Red-Yellow"@.len() == 10,
        "Green-Yellow"@.len() == 12,
        "Green-Cyan"@.len() == 10,
        "Blue-Cyan"@.len() == 9,
        "Blue-Magenta"@.len() == 12,
        "Red-Magenta"@.len() == 11,
        "White"@.len() == 5,
        "Warm White"@.len() == 10,
        "Cool White"@.len() == 10,
        "UV"@.len() == 2,
        "Red-"@.len() == 4,
        "Green-"@.len() == 6,
        "Blue-"@.len() == 5,
        "Cyan-"@.len() == 5,
        "Magenta-"@.len() == 8,
        "Yellow-"@.len() == 7,
        "CTO"@.len() == 3,
        "CTC"@.len() == 3,
{
    reveal_strlit("Dimmer");
    reveal_strlit("Pan");
    reveal_strlit("Tilt");
    reveal_strlit("Pan Rotate");
    reveal_strlit("Tilt Rotate");
    reveal_strlit("Position Effect");
    reveal_strlit("Position Effect Rate");
    reveal_strlit("Position Effect Fade");
    reveal_strlit("X");
    reveal_strlit("Y");
    reveal_strlit("Z");
    reveal_strlit("Rotation X");
    reveal_strlit("Rotation Y");
    reveal_strlit("Rotation Z");
    reveal_strlit("Scale X");
    reveal_strlit("Scale Y");
    reveal_strlit("Scale Z");
    reveal_strlit("Scale XYZ");
    reveal_strlit("Play Mode");
    reveal_strlit("Play Begin");
    reveal_strlit("Play End");
    reveal_strlit("Play Speed");
    reveal_strlit("Red");
    reveal_strlit("Green");
    reveal_strlit("Blue");
    reveal_strlit("Cyan");
    reveal_strlit("Magenta");
    reveal_strlit("Yellow");
    reveal_strlit("Red-Yellow");
    reveal_strlit("Green-Yellow");
    reveal_strlit("Green-Cyan");
    reveal_strlit("Blue-Cyan");
    reveal_strlit("Blue-Magenta");
    reveal_strlit("Red-Magenta");
    reveal_strlit("White");
    reveal_strlit("Warm White");
    reveal_strlit("Cool White");
    reveal_strlit("UV");
    reveal_strlit("Red-");
    reveal_strlit("Green-");
    reveal_strlit("Blue-");
    reveal_strlit("Cyan-");
    reveal_strlit("Magenta-");
    reveal_strlit("Yellow-");
    reveal_strlit("CTO");
    reveal_strlit("CTC");
}

/// The lengths of the pretty names in part 1 of the lookup.
proof fn lemma_pretty_lengths_1()
    ensures
        "CTB"@.len() == 3,
        "Tint"@.len() == 4,
        "HSB Hue"@.len() == 7,
        "HSB Saturation"@.len() == 14,
        "HSB Brightness"@.len() == 14,
        "HSB Quality"@.len() == 11,
        "CIE X"@.len() == 5,
        "CIE Y"@.len() == 5,
        "CIE Brightness"@.len() == 14,
        "RGB Red"@.len() == 7,
        "RGB Green"@.len() == 9,
        "RGB Blue"@.len() == 8,
        "RGB Cyan"@.len() == 8,
        "RGB Magenta"@.len() == 11,
        "RGB Yellow"@.len() == 10,
        "RGB Quality"@.len() == 11,
        "Video Boost Red"@.len() == 15,
        "Video Boost Green"@.len() == 17,
        "Video Boost Blue"@.len() == 16,
        "Video Hue Shift"@.len() == 15,
        "Video Saturation"@.len() == 16,
        "Video Brightness"@.len() == 16,
        "Video Contrast"@.len() == 14,
        "Video Key Color Red"@.len() == 19,
        "Video Key Color Green"@.len() == 21,
        "Video Key Color Blue"@.len() == 20,
        "Video Key Intensity"@.len() == 19,
        "Video Key Tolerance"@.len() == 19,
        "Strobe Duration"@.len() == 15,
        "Strobe Rate"@.len() == 11,
        "Strobe Frequency"@.len() == 16,
        "Strobe Mode Shutter"@.len() == 19,
        "Strobe Mode Strobe"@.len() == 18,
        "Strobe Mode Pulse"@.len() == 17,
        "Strobe Mode Pulse Open"@.len() == 22,
        "Strobe Mode Pulse Close"@.len() == 23,
        "Strobe Mode Random"@.len() == 18,
        "Strobe Mode Random Pulse"@.len() == 24,
        "Strobe Mode Random Pulse Open"@.len() == 29,
        "Strobe Mode Random Pulse Close"@.len() == 30,
        "Strobe Mode Effect"@.len() == 18,
        "Iris"@.len() == 4,
        "Iris Strobe"@.len() == 11,
        "Iris Strobe Random"@.len() == 18,
        "Iris Pulse Close"@.len() == 16,
        "Iris Pulse Open"@.len() == 15,
{
    reveal_strlit("CTB");
    reveal_strlit("Tint");
    reveal_strlit("HSB Hue");
    reveal_strlit("HSB Saturation");
    reveal_strlit("HSB Brightness");
    reveal_strlit("HSB Quality");
    reveal_strlit("CIE X");
    reveal_strlit("CIE Y");
    reveal_strlit("CIE Brightness");
    reveal_strlit("RGB Red");
    reveal_strlit("RGB Green");
    reveal_strlit("RGB Blue");
    reveal_strlit("RGB Cyan");
    reveal_strlit("RGB Magenta");
    reveal_strlit("RGB Yellow");
    reveal_strlit("RGB Quality");
    reveal_strlit("Video Boost Red");
    reveal_strlit("Video Boost Green");
    reveal_strlit("Video Boost Blue");
    reveal_strlit("Video Hue Shift");
    reveal_strlit("Video Saturation");
    reveal_strlit("Video Brightness");
    reveal_strlit("Video Contrast");
    reveal_strlit("Video Key Color Red");
    reveal_strlit("Video Key Color Green");
    reveal_strlit("Video Key Color Blue");
    reveal_strlit("Video Key Intensity");
    reveal_strlit("Video Key Tolerance");
    reveal_strlit("Strobe Duration");
    reveal_strlit("Strobe Rate");
    reveal_strlit("Strobe Frequency");
    reveal_strlit("Strobe Mode Shutter");
    reveal_strlit("Strobe Mode Strobe");
    reveal_strlit("Strobe Mode Pulse");
    reveal_strlit("Strobe Mode Pulse Open");
    reveal_strlit("Strobe Mode Pulse Close");
    reveal_strlit("Strobe Mode Random");
    reveal_strlit("Strobe Mode Random Pulse");
    reveal_strlit("Strobe Mode Random Pulse Open");
    reveal_strlit("Strobe Mode Random Pulse Close");
    reveal_strlit("Strobe Mode Effect");
    reveal_strlit("Iris");
    reveal_strlit("Iris Strobe");
    reveal_strlit("Iris Strobe Random");
    reveal_strlit("Iris Pulse Close");
    reveal_strlit("Iris Pulse Open");
}

/// The lengths of the pretty names in part 2 of the lookup.
proof fn lemma_pretty_lengths_2()
    ensures
        "Iris Random Pulse Close"@.len() == 23,
        "Iris Random Pulse Open"@.len() == 22,
        "Effects Sync"@.len() == 12,
        "Beam Shaper"@.len() == 11,
        "Beam Shaper Macro"@.len() == 17,
        "Beam Shaper Position"@.len() == 20,
        "Beam Shaper Position Rotate"@.len() == 27,
        "Zoom"@.len() == 4,
        "Zoom Mode Spot"@.len() == 14,
        "Zoom Mode Beam"@.len() == 14,
        "Digital Zoom"@.len() == 12,
        "Dimmer Mode"@.len() == 11,
        "Dimmer Curve"@.len() == 12,
        "Blackout Mode"@.len() == 13,
        "LED Frequency"@.len() == 13,
        "LED Zone Mode"@.len() == 13,
        "Pixel Mode"@.len() == 10,
        "Pan Mode"@.len() == 8,
        "Tilt Mode"@.len() == 9,
        "Pan Tilt Mode"@.len() == 13,
        "Position Modes"@.len() == 14,
        "Gobo Wheel Shortcut Mode"@.len() == 24,
        "Animation Wheel Shortcut Mode"@.len() == 29,
        "Color Wheel Shortcut Mode"@.len() == 25,
        "Cyan Mode"@.len() == 9,
        "Magenta Mode"@.len() == 12,
        "Yellow Mode"@.len() == 11,
        "Color Mix Mode"@.len() == 14,
        "Chromatic Mode"@.len() == 14,
        "Color Calibration Mode"@.len() == 22,
        "Color Consistency"@.len() == 17,
        "Color Control"@.len() == 13,
        "Color Model Mode"@.len() == 16,
        "Color Settings Reset"@.len() == 20,
        "Color Uniformity"@.len() == 16,
        "CRI Mode"@.len() == 8,
        "Custom Color"@.len() == 12,
        "UV Stability"@.len() == 12,
        "Wavelength Correction"@.len() == 21,
        "White Count"@.len() == 11,
        "Strobe Mode"@.len() == 11,
        "Zoom Mode"@.len() == 9,
        "Focus Mode"@.len() == 10,
        "Iris Mode"@.len() == 9,
        "Follow Spot Mode"@.len() == 16,
        "Beam Effect Index Rotate Mode"@.len() == 29,
{
    reveal_strlit("Iris Random Pulse Close");
    reveal_strlit("Iris Random Pulse Open");
    reveal_strlit("Effects Sync");
    reveal_strlit("Beam Shaper");
    reveal_strlit("Beam Shaper Macro");
    reveal_strlit("Beam Shaper Position");
    reveal_strlit("Beam Shaper Position Rotate");
    reveal_strlit("Zoom");
    reveal_strlit("Zoom Mode Spot");
    reveal_strlit("Zoom Mode Beam");
    reveal_strlit("Digital Zoom");
    reveal_strlit("Dimmer Mode");
    reveal_strlit("Dimmer Curve");
    reveal_strlit("Blackout Mode");
    reveal_strlit("LED Frequency");
    reveal_strlit("LED Zone Mode");
    reveal_strlit("Pixel Mode");
    reveal_strlit("Pan Mode");
    reveal_strlit("Tilt Mode");
    reveal_strlit("Pan Tilt Mode");
    reveal_strlit("Position Modes");
    reveal_strlit("Gobo Wheel Shortcut Mode");
    reveal_strlit("Animation Wheel Shortcut Mode");
    reveal_strlit("Color Wheel Shortcut Mode");
    reveal_strlit("Cyan Mode");
    reveal_strlit("Magenta Mode");
    reveal_strlit("Yellow Mode");
    reveal_strlit("Color Mix Mode");
    reveal_strlit("Chromatic Mode");
    reveal_strlit("Color Calibration Mode");
    reveal_strlit("Color Consistency");
    reveal_strlit("Color Control");
    reveal_strlit("Color Model Mode");
    reveal_strlit("Color Settings Reset");
    reveal_strlit("Color Uniformity");
    reveal_strlit("CRI Mode");
    reveal_strlit("Custom Color");
    reveal_strlit("UV Stability");
    reveal_strlit("Wavelength Correction");
    reveal_strlit("White Count");
    reveal_strlit("Strobe Mode");
    reveal_strlit("Zoom Mode");
    reveal_strlit("Focus Mode");
    reveal_strlit("Iris Mode");
    reveal_strlit("Follow Spot Mode");
    reveal_strlit("Beam Effect Index Rotate Mode");
}

/// The lengths of the pretty names in part 3 of the lookup.
proof fn lemma_pretty_lengths_3()
    ensures
        "Intensity MSpeed"@.len() == 16,
        "Position MSpeed"@.len() == 15,
        "Color Mix MSpeed"@.len() == 16,
        "Color Wheel Select MSpeed"@.len() == 25,
        "Iris MSpeed"@.len() == 11,
        "Focus MSpeed"@.len() == 12,
        "Zoom MSpeed"@.len() == 11,
        "Frame MSpeed"@.len() == 12,
        "Global MSpeed"@.len() == 13,
        "Reflector Adjust"@.len() == 16,
        "Fixture Global Reset"@.len() == 20,
        "Dimmer Reset"@.len() == 12,
        "Shutter Reset"@.len() == 13,
        "Beam Reset"@.len() == 10,
        "Color Mix Reset"@.len() == 15,
        "Color Wheel Reset"@.len() == 17,
        "Focus Reset"@.len() == 11,
        "Frame Reset"@.len() == 11,
        "Gobo Wheel Reset"@.len() == 16,
        "Intensity Reset"@.len() == 15,
        "Iris Reset"@.len() == 10,
        "Position Reset"@.len() == 14,
        "Pan Reset"@.len() == 9,
        "Tilt Reset"@.len() == 10,
        "Zoom Reset"@.len() == 10,
        "CTB Reset"@.len() == 9,
        "CTO Reset"@.len() == 9,
        "CTC Reset"@.len() == 9,
        "Animation System Reset"@.len() == 22,
        "Fixture Calibration Reset"@.len() == 25,
        "Function"@.len() == 8,
        "Lamp Control"@.len() == 12,
        "Display Intensity"@.len() == 17,
        "DMX Input"@.len() == 9,
        "No Feature"@.len() == 10,
        "Lamp Power Mode"@.len() == 15,
        "Fans"@.len() == 4,
        "Shaper Rotation"@.len() == 15,
        "Shaper Macros"@.len() == 13,
        "Shaper Macros Speed"@.len() == 19,
        "Video"@.len() == 5,
        "Video Blend Mode"@.len() == 16,
        "Input Source"@.len() == 12,
        "Field of View"@.len() == 13,
{
    reveal_strlit("Intensity MSpeed");
    reveal_strlit("Position MSpeed");
    reveal_strlit("Color Mix MSpeed");
    reveal_strlit("Color Wheel Select MSpeed");
    reveal_strlit("Iris MSpeed");
    reveal_strlit("Focus MSpeed");
    reveal_strlit("Zoom MSpeed");
    reveal_strlit("Frame MSpeed");
    reveal_strlit("Global MSpeed");
    reveal_strlit("Reflector Adjust");
    reveal_strlit("Fixture Global Reset");
    reveal_strlit("Dimmer Reset");
    reveal_strlit("Shutter Reset");
    reveal_strlit("Beam Reset");
    reveal_strlit("Color Mix Reset");
    reveal_strlit("Color Wheel Reset");
    reveal_strlit("Focus Reset");
    reveal_strlit("Frame Reset");
    reveal_strlit("Gobo Wheel Reset");
    reveal_strlit("Intensity Reset");
    reveal_strlit("Iris Reset");
    reveal_strlit("Position Reset");
    reveal_strlit("Pan Reset");
    reveal_strlit("Tilt Reset");
    reveal_strlit("Zoom Reset");
    reveal_strlit("CTB Reset");
    reveal_strlit("CTO Reset");
    reveal_strlit("CTC Reset");
    reveal_strlit("Animation System Reset");
    reveal_strlit("Fixture Calibration Reset");
    reveal_strlit("Function");
    reveal_strlit("Lamp Control");
    reveal_strlit("Display Intensity");
    reveal_strlit("DMX Input");
    reveal_strlit("No Feature");
    reveal_strlit("Lamp Power Mode");
    reveal_strlit("Fans");
    reveal_strlit("Shaper Rotation");
    reveal_strlit("Shaper Macros");
    reveal_strlit("Shaper Macros Speed");
    reveal_strlit("Video");
    reveal_strlit("Video Blend Mode");
    reveal_strlit("Input Source");
    reveal_strlit("Field of View");
}

/// Each pretty name of part 0 is found in that part as its own attribute.
proof fn lemma_pretties_0_read()
    ensures
        pretty_lookup_0("Dimmer"@) == Some(FixtureChannel3Attribute::Dimmer),
        pretty_lookup_0("Pan"@) == Some(FixtureChannel3Attribute::Pan),
        pretty_lookup_0("Tilt"@) == Some(FixtureChannel3Attribute::Tilt),
        pretty_lookup_0("Pan Rotate"@) == Some(FixtureChannel3Attribute::PanRotate),
        pretty_lookup_0("Tilt Rotate"@) == Some(FixtureChannel3Attribute::TiltRotate),
        pretty_lookup_0("Position Effect"@) == Some(FixtureChannel3Attribute::PositionEffect),
        pretty_lookup_0("Position Effect Rate"@) == Some(FixtureChannel3Attribute::PositionEffectRate),
        pretty_lookup_0("Position Effect Fade"@) == Some(FixtureChannel3Attribute::PositionEffectFade),
        pretty_lookup_0("X"@) == Some(FixtureChannel3Attribute::XyzX),
        pretty_lookup_0("Y"@) == Some(FixtureChannel3Attribute::XyzY),
        pretty_lookup_0("Z"@) == Some(FixtureChannel3Attribute::XyzZ),
        pretty_lookup_0("Rotation X"@) == Some(FixtureChannel3Attribute::RotX),
        pretty_lookup_0("Rotation Y"@) == Some(FixtureChannel3Attribute::RotY),
        pretty_lookup_0("Rotation Z"@) == Some(FixtureChannel3Attribute::RotZ),
        pretty_lookup_0("Scale X"@) == Some(FixtureChannel3Attribute::ScaleX),
        pretty_lookup_0("Scale Y"@) == Some(FixtureChannel3Attribute::ScaleY),
        pretty_lookup_0("Scale Z"@) == Some(FixtureChannel3Attribute::ScaleZ),
        pretty_lookup_0("Scale XYZ"@) == Some(FixtureChannel3Attribute::ScaleXYZ),
        pretty_lookup_0("Play Mode"@) == Some(FixtureChannel3Attribute::PlayMode),
        pretty_lookup_0("Play Begin"@) == Some(FixtureChannel3Attribute::PlayBegin),
        pretty_lookup_0("Play End"@) == Some(FixtureChannel3Attribute::PlayEnd),
        pretty_lookup_0("Play Speed"@) == Some(FixtureChannel3Attribute::PlaySpeed),
        pretty_lookup_0("Red"@) == Some(FixtureChannel3Attribute::ColorAddR),
        pretty_lookup_0("Green"@) == Some(FixtureChannel3Attribute::ColorAddG),
        pretty_lookup_0("Blue"@) == Some(FixtureChannel3Attribute::ColorAddB),
        pretty_lookup_0("Cyan"@) == Some(FixtureChannel3Attribute::ColorAddC),
        pretty_lookup_0("Magenta"@) == Some(FixtureChannel3Attribute::ColorAddM),
        pretty_lookup_0("Yellow"@) == Some(FixtureChannel3Attribute::ColorAddY),
        pretty_lookup_0("Red-Yellow"@) == Some(FixtureChannel3Attribute::ColorAddRY),
        pretty_lookup_0("Green-Yellow"@) == Some(FixtureChannel3Attribute::ColorAddGY),
        pretty_lookup_0("Green-Cyan"@) == Some(FixtureChannel3Attribute::ColorAddGC),
        pretty_lookup_0("Blue-Cyan"@) == Some(FixtureChannel3Attribute::ColorAddBC),
        pretty_lookup_0("Blue-Magenta"@) == Some(FixtureChannel3Attribute::ColorAddBM),
        pretty_lookup_0("Red-Magenta"@) == Some(FixtureChannel3Attribute::ColorAddRM),
        pretty_lookup_0("White"@) == Some(FixtureChannel3Attribute::ColorAddW),
        pretty_lookup_0("Warm White"@) == Some(FixtureChannel3Attribute::ColorAddWW),
        pretty_lookup_0("Cool White"@) == Some(FixtureChannel3Attribute::ColorAddCW),
        pretty_lookup_0("UV"@) == Some(FixtureChannel3Attribute::ColorAddUV),
        pretty_lookup_0("Red-"@) == Some(FixtureChannel3Attribute::ColorSubR),
        pretty_lookup_0("Green-"@) == Some(FixtureChannel3Attribute::ColorSubG),
        pretty_lookup_0("Blue-"@) == Some(FixtureChannel3Attribute::ColorSubB),
        pretty_lookup_0("Cyan-"@) == Some(FixtureChannel3Attribute::ColorSubC),
        pretty_lookup_0("Magenta-"@) == Some(FixtureChannel3Attribute::ColorSubM),
        pretty_lookup_0("Yellow-"@) == Some(FixtureChannel3Attribute::ColorSubY),
        pretty_lookup_0("CTO"@) == Some(FixtureChannel3Attribute::Cto),
        pretty_lookup_0("CTC"@) == Some(FixtureChannel3Attribute::Ctc),
{
    reveal(pretty_lookup_0);
    lemma_pretty_lengths_0();
    reveal_strlit("Position Effect Fade");
    reveal_strlit("Position Effect Rate");
    assert("Position Effect Rate"@[16] != "Position Effect Fade"@[16]);
    reveal_strlit("Y");
    reveal_strlit("X");
    assert("X"@[0] != "Y"@[0]);
    reveal_strlit("Z");
    reveal_strlit("X");
    assert("X"@[0] != "Z"@[0]);
    reveal_strlit("Z");
    reveal_strlit("Y");
    assert("Y"@[0] != "Z"@[0]);
    reveal_strlit("Rotation X");
    reveal_strlit("Pan Rotate");
    assert("Pan Rotate"@[0] != "Rotation X"@[0]);
    reveal_strlit("Rotation Y");
    reveal_strlit("Pan Rotate");
    assert("Pan Rotate"@[0] != "Rotation Y"@[0]);
    reveal_strlit("Rotation Y");
    reveal_strlit("Rotation X");
    assert("Rotation X"@[9] != "Rotation Y"@[9]);
    reveal_strlit("Rotation Z");
    reveal_strlit("Pan Rotate");
    assert("Pan Rotate"@[0] != "Rotation Z"@[0]);
    reveal_strlit("Rotation Z");
    reveal_strlit("Rotation X");
    assert("Rotation X"@[9] != "Rotation Z"@[9]);
    reveal_strlit("Rotation Z");
    reveal_strlit("Rotation Y");
    assert("Rotation Y"@[9] != "Rotation Z"@[9]);
    reveal_strlit("Scale Y");
    reveal_strlit("Scale X");
    assert("Scale X"@[6] != "Scale Y"@[6]);
    reveal_strlit("Scale Z");
    reveal_strlit("Scale X");
    assert("Scale X"@[6] != "Scale Z"@[6]);
    reveal_strlit("Scale Z");
    reveal_strlit("Scale Y");
    assert("Scale Y"@[6] != "Scale Z"@[6]);
    reveal_strlit("Play Mode");
    reveal_strlit("Scale XYZ");
    assert("Scale XYZ"@[0] != "Play Mode"@[0]);
    reveal_strlit("Play Begin");
    reveal_strlit("Pan Rotate");
    assert("Pan Rotate"@[1] != "Play Begin"@[1]);
    reveal_strlit("Play Begin");
    reveal_strlit("Rotation X");
    assert("Rotation X"@[0] != "Play Begin"@[0]);
    reveal_strlit("Play Begin");
    reveal_strlit("Rotation Y");
    assert("Rotation Y"@[0] != "Play Begin"@[0]);
    reveal_strlit("Play Begin");
    reveal_strlit("Rotation Z");
    assert("Rotation Z"@[0] != "Play Begin"@[0]);
    reveal_strlit("Play Speed");
    reveal_strlit("Pan Rotate");
    assert("Pan Rotate"@[1] != "Play Speed"@[1]);
    reveal_strlit("Play Speed");
    reveal_strlit("Rotation X");
    assert("Rotation X"@[0] != "Play Speed"@[0]);
    reveal_strlit("Play Speed");
    reveal_strlit("Rotation Y");
    assert("Rotation Y"@[0] != "Play Speed"@[0]);
    reveal_strlit("Play Speed");
    reveal_strlit("Rotation Z");
    assert("Rotation Z"@[0] != "Play Speed"@[0]);
    reveal_strlit("Play Speed");
    reveal_strlit("Play Begin");
    assert("Play Begin"@[5] != "Play Speed"@[5]);
    reveal_strlit("Red");
    reveal_strlit("Pan");
    assert("Pan"@[0] != "Red"@[0]);
    reveal_strlit("Blue");
    reveal_strlit("Tilt");
    assert("Tilt"@[0] != "Blue"@[0]);
    reveal_strlit("Cyan");
    reveal_strlit("Tilt");
    assert("Tilt"@[0] != "Cyan"@[0]);
    reveal_strlit("Cyan");
    reveal_strlit("Blue");
    assert("Blue"@[0] != "Cyan"@[0]);
    reveal_strlit("Magenta");
    reveal_strlit("Scale X");
    assert("Scale X"@[0] != "Magenta"@[0]);
    reveal_strlit("Magenta");
    reveal_strlit("Scale Y");
    assert("Scale Y"@[0] != "Magenta"@[0]);
    reveal_strlit("Magenta");
    reveal_strlit("Scale Z");
    assert("Scale Z"@[0] != "Magenta"@[0]);
    reveal_strlit("Yellow");
    reveal_strlit("Dimmer");
    assert("Dimmer"@[0] != "Yellow"@[0]);
    reveal_strlit("Red-Yellow");
    reveal_strlit("Pan Rotate");
    assert("Pan Rotate"@[0] != "Red-Yellow"@[0]);
    reveal_strlit("Red-Yellow");
    reveal_strlit("Rotation X");
    assert("Rotation X"@[1] != "Red-Yellow"@[1]);
    reveal_strlit("Red-Yellow");
    reveal_strlit("Rotation Y");
    assert("Rotation Y"@[1] != "Red-Yellow"@[1]);
    reveal_strlit("Red-Yellow");
    reveal_strlit("Rotation Z");
    assert("Rotation Z"@[1] != "Red-Yellow"@[1]);
    reveal_strlit("Red-Yellow");
    reveal_strlit("Play Begin");
    assert("Play Begin"@[0] != "Red-Yellow"@[0]);
    reveal_strlit("Red-Yellow");
    reveal_strlit("Play Speed");
    assert("Play Speed"@[0] != "Red-Yellow"@[0]);
    reveal_strlit("Green-Cyan");
    reveal_strlit("Pan Rotate");
    assert("Pan Rotate"@[0] != "Green-Cyan"@[0]);
    reveal_strlit("Green-Cyan");
    reveal_strlit("Rotation X");
    assert("Rotation X"@[0] != "Green-Cyan"@[0]);
    reveal_strlit("Green-Cyan");
    reveal_strlit("Rotation Y");
    assert("Rotation Y"@[0] != "Green-Cyan"@[0]);
    reveal_strlit("Green-Cyan");
    reveal_strlit("Rotation Z");
    assert("Rotation Z"@[0] != "Green-Cyan"@[0]);
    reveal_strlit("Green-Cyan");
    reveal_strlit("Play Begin");
    assert("Play Begin"@[0] != "Green-Cyan"@[0]);
    reveal_strlit("Green-Cyan");
    reveal_strlit("Play Speed");
    assert("Play Speed"@[0] != "Green-Cyan"@[0]);
    reveal_strlit("Green-Cyan");
    reveal_strlit("Red-Yellow");
    assert("Red-Yellow"@[0] != "Green-Cyan"@[0]);
    reveal_strlit("Blue-Cyan");
    reveal_strlit("Scale XYZ");
    assert("Scale XYZ"@[0] != "Blue-Cyan"@[0]);
    reveal_strlit("Blue-Cyan");
    reveal_strlit("Play Mode");
    assert("Play Mode"@[0] != "Blue-Cyan"@[0]);
    reveal_strlit("Blue-Magenta");
    reveal_strlit("Green-Yellow");
    assert("Green-Yellow"@[0] != "Blue-Magenta"@[0]);
    reveal_strlit("Red-Magenta");
    reveal_strlit("Tilt Rotate");
    assert("Tilt Rotate"@[0] != "Red-Magenta"@[0]);
    reveal_strlit("White");
    reveal_strlit("Green");
    assert("Green"@[0] != "White"@[0]);
    reveal_strlit("Warm White");
    reveal_strlit("Pan Rotate");
    assert("Pan Rotate"@[0] != "Warm White"@[0]);
    reveal_strlit("Warm White");
    reveal_strlit("Rotation X");
    assert("Rotation X"@[0] != "Warm White"@[0]);
    reveal_strlit("Warm White");
    reveal_strlit("Rotation Y");
    assert("Rotation Y"@[0] != "Warm White"@[0]);
    reveal_strlit("Warm White");
    reveal_strlit("Rotation Z");
    assert("Rotation Z"@[0] != "Warm White"@[0]);
    reveal_strlit("Warm White");
    reveal_strlit("Play Begin");
    assert("Play Begin"@[0] != "Warm White"@[0]);
    reveal_strlit("Warm White");
    reveal_strlit("Play Speed");
    assert("Play Speed"@[0] != "Warm White"@[0]);
    reveal_strlit("Warm White");
    reveal_strlit("Red-Yellow");
    assert("Red-Yellow"@[0] != "Warm White"@[0]);
    reveal_strlit("Warm White");
    reveal_strlit("Green-Cyan");
    assert("Green-Cyan"@[0] != "Warm White"@[0]);
    reveal_strlit("Cool White");
    reveal_strlit("Pan Rotate");
    assert("Pan Rotate"@[0] != "Cool White"@[0]);
    reveal_strlit("Cool White");
    reveal_strlit("Rotation X");
    assert("Rotation X"@[0] != "Cool White"@[0]);
    reveal_strlit("Cool White");
    reveal_strlit("Rotation Y");
    assert("Rotation Y"@[0] != "Cool White"@[0]);
    reveal_strlit("Cool White");
    reveal_strlit("Rotation Z");
    assert("Rotation Z"@[0] != "Cool White"@[0]);
    reveal_strlit("Cool White");
    reveal_strlit("Play Begin");
    assert("Play Begin"@[0] != "Cool White"@[0]);
    reveal_strlit("Cool White");
    reveal_strlit("Play Speed");
    assert("Play Speed"@[0] != "Cool White"@[0]);
    reveal_strlit("Cool White");
    reveal_strlit("Red-Yellow");
    assert("Red-Yellow"@[0] != "Cool White"@[0]);
    reveal_strlit("Cool White");
    reveal_strlit("Green-Cyan");
    assert("Green-Cyan"@[0] != "Cool White"@[0]);
    reveal_strlit("Cool White");
    reveal_strlit("Warm White");
    assert("Warm White"@[0] != "Cool White"@[0]);
    reveal_strlit("Red-");
    reveal_strlit("Tilt");
    assert("Tilt"@[0] != "Red-"@[0]);
    reveal_strlit("Red-");
    reveal_strlit("Blue");
    assert("Blue"@[0] != "Red-"@[0]);
    reveal_strlit("Red-");
    reveal_strlit("Cyan");
    assert("Cyan"@[0] != "Red-"@[0]);
    reveal_strlit("Green-");
    reveal_strlit("Dimmer");
    assert("Dimmer"@[0] != "Green-"@[0]);
    reveal_strlit("Green-");
    reveal_strlit("Yellow");
    assert("Yellow"@[0] != "Green-"@[0]);
    reveal_strlit("Blue-");
    reveal_strlit("Green");
    assert("Green"@[0] != "Blue-"@[0]);
    reveal_strlit("Blue-");
    reveal_strlit("White");
    assert("White"@[0] != "Blue-"@[0]);
    reveal_strlit("Cyan-");
    reveal_strlit("Green");
    assert("Green"@[0] != "Cyan-"@[0]);
    reveal_strlit("Cyan-");
    reveal_strlit("White");
    assert("White"@[0] != "Cyan-"@[0]);
    reveal_strlit("Cyan-");
    reveal_strlit("Blue-");
    assert("Blue-"@[0] != "Cyan-"@[0]);
    reveal_strlit("Magenta-");
    reveal_strlit("Play End");
    assert("Play End"@[0] != "Magenta-"@[0]);
    reveal_strlit("Yellow-");
    reveal_strlit("Scale X");
    assert("Scale X"@[0] != "Yellow-"@[0]);
    reveal_strlit("Yellow-");
    reveal_strlit("Scale Y");
    assert("Scale Y"@[0] != "Yellow-"@[0]);
    reveal_strlit("Yellow-");
    reveal_strlit("Scale Z");
    assert("Scale Z"@[0] != "Yellow-"@[0]);
    reveal_strlit("Yellow-");
    reveal_strlit("Magenta");
    assert("Magenta"@[0] != "Yellow-"@[0]);
    reveal_strlit("CTO");
    reveal_strlit("Pan");
    assert("Pan"@[0] != "CTO"@[0]);
    reveal_strlit("CTO");
    reveal_strlit("Red");
    assert("Red"@[0] != "CTO"@[0]);
    reveal_strlit("CTC");
    reveal_strlit("Pan");
    assert("Pan"@[0] != "CTC"@[0]);
    reveal_strlit("CTC");
    reveal_strlit("Red");
    assert("Red"@[0] != "CTC"@[0]);
    reveal_strlit("CTC");
    reveal_strlit("CTO");
    assert("CTO"@[2] != "CTC"@[2]);
}

/// Each pretty name of part 1 is found in that part as its own attribute.
proof fn lemma_pretties_1_read()
    ensures
        pretty_lookup_1("CTB"@) == Some(FixtureChannel3Attribute::Ctb),
        pretty_lookup_1("Tint"@) == Some(FixtureChannel3Attribute::Tint),
        pretty_lookup_1("HSB Hue"@) == Some(FixtureChannel3Attribute::HsbHue),
        pretty_lookup_1("HSB Saturation"@) == Some(FixtureChannel3Attribute::HsbSaturation),
        pretty_lookup_1("HSB Brightness"@) == Some(FixtureChannel3Attribute::HsbBrightness),
        pretty_lookup_1("HSB Quality"@) == Some(FixtureChannel3Attribute::HsbQuality),
        pretty_lookup_1("CIE X"@) == Some(FixtureChannel3Attribute::CieX),
        pretty_lookup_1("CIE Y"@) == Some(FixtureChannel3Attribute::CieY),
        pretty_lookup_1("CIE Brightness"@) == Some(FixtureChannel3Attribute::CieBrightness),
        pretty_lookup_1("RGB Red"@) == Some(FixtureChannel3Attribute::ColorRgbRed),
        pretty_lookup_1("RGB Green"@) == Some(FixtureChannel3Attribute::ColorRgbGreen),
        pretty_lookup_1("RGB Blue"@) == Some(FixtureChannel3Attribute::ColorRgbBlue),
        pretty_lookup_1("RGB Cyan"@) == Some(FixtureChannel3Attribute::ColorRgbCyan),
        pretty_lookup_1("RGB Magenta"@) == Some(FixtureChannel3Attribute::ColorRgbMagenta),
        pretty_lookup_1("RGB Yellow"@) == Some(FixtureChannel3Attribute::ColorRgbYellow),
        pretty_lookup_1("RGB Quality"@) == Some(FixtureChannel3Attribute::ColorRgbQuality),
        pretty_lookup_1("Video Boost Red"@) == Some(FixtureChannel3Attribute::VideoBoostR),
        pretty_lookup_1("Video Boost Green"@) == Some(FixtureChannel3Attribute::VideoBoostG),
        pretty_lookup_1("Video Boost Blue"@) == Some(FixtureChannel3Attribute::VideoBoostB),
        pretty_lookup_1("Video Hue Shift"@) == Some(FixtureChannel3Attribute::VideoHueShift),
        pretty_lookup_1("Video Saturation"@) == Some(FixtureChannel3Attribute::VideoSaturation),
        pretty_lookup_1("Video Brightness"@) == Some(FixtureChannel3Attribute::VideoBrightness),
        pretty_lookup_1("Video Contrast"@) == Some(FixtureChannel3Attribute::VideoContrast),
        pretty_lookup_1("Video Key Color Red"@) == Some(FixtureChannel3Attribute::VideoKeyColorR),
        pretty_lookup_1("Video Key Color Green"@) == Some(FixtureChannel3Attribute::VideoKeyColorG),
        pretty_lookup_1("Video Key Color Blue"@) == Some(FixtureChannel3Attribute::VideoKeyColorB),
        pretty_lookup_1("Video Key Intensity"@) == Some(FixtureChannel3Attribute::VideoKeyIntensity),
        pretty_lookup_1("Video Key Tolerance"@) == Some(FixtureChannel3Attribute::VideoKeyTolerance),
        pretty_lookup_1("Strobe Duration"@) == Some(FixtureChannel3Attribute::StrobeDuration),
        pretty_lookup_1("Strobe Rate"@) == Some(FixtureChannel3Attribute::StrobeRate),
        pretty_lookup_1("Strobe Frequency"@) == Some(FixtureChannel3Attribute::StrobeFrequency),
        pretty_lookup_1("Strobe Mode Shutter"@) == Some(FixtureChannel3Attribute::StrobeModeShutter),
        pretty_lookup_1("Strobe Mode Strobe"@) == Some(FixtureChannel3Attribute::StrobeModeStrobe),
        pretty_lookup_1("Strobe Mode Pulse"@) == Some(FixtureChannel3Attribute::StrobeModePulse),
        pretty_lookup_1("Strobe Mode Pulse Open"@) == Some(FixtureChannel3Attribute::StrobeModePulseOpen),
        pretty_lookup_1("Strobe Mode Pulse Close"@) == Some(FixtureChannel3Attribute::StrobeModePulseClose),
        pretty_lookup_1("Strobe Mode Random"@) == Some(FixtureChannel3Attribute::StrobeModeRandom),
        pretty_lookup_1("Strobe Mode Random Pulse"@) == Some(FixtureChannel3Attribute::StrobeModeRandomPulse),
        pretty_lookup_1("Strobe Mode Random Pulse Open"@) == Some(FixtureChannel3Attribute::StrobeModeRandomPulseOpen),
        pretty_lookup_1("Strobe Mode Random Pulse Close"@) == Some(FixtureChannel3Attribute::StrobeModeRandomPulseClose),
        pretty_lookup_1("Strobe Mode Effect"@) == Some(FixtureChannel3Attribute::StrobeModeEffect),
        pretty_lookup_1("Iris"@) == Some(FixtureChannel3Attribute::Iris),
        pretty_lookup_1("Iris Strobe"@) == Some(FixtureChannel3Attribute::IrisStrobe),
        pretty_lookup_1("Iris Strobe Random"@) == Some(FixtureChannel3Attribute::IrisStrobeRandom),
        pretty_lookup_1("Iris Pulse Close"@) == Some(FixtureChannel3Attribute::IrisPulseClose),
        pretty_lookup_1("Iris Pulse Open"@) == Some(FixtureChannel3Attribute::IrisPulseOpen),
{
    reveal(pretty_lookup_1);
    lemma_pretty_lengths_1();
    reveal_strlit("HSB Brightness");
    reveal_strlit("HSB Saturation");
    assert("HSB Saturation"@[4] != "HSB Brightness"@[4]);
    reveal_strlit("CIE Y");
    reveal_strlit("CIE X");
    assert("CIE X"@[4] != "CIE Y"@[4]);
    reveal_strlit("CIE Brightness");
    reveal_strlit("HSB Saturation");
    assert("HSB Saturation"@[0] != "CIE Brightness"@[0]);
    reveal_strlit("CIE Brightness");
    reveal_strlit("HSB Brightness");
    assert("HSB Brightness"@[0] != "CIE Brightness"@[0]);
    reveal_strlit("RGB Red");
    reveal_strlit("HSB Hue");
    assert("HSB Hue"@[0] != "RGB Red"@[0]);
    reveal_strlit("RGB Cyan");
    reveal_strlit("RGB Blue");
    assert("RGB Blue"@[4] != "RGB Cyan"@[4]);
    reveal_strlit("RGB Magenta");
    reveal_strlit("HSB Quality");
    assert("HSB Quality"@[0] != "RGB Magenta"@[0]);
    reveal_strlit("RGB Quality");
    reveal_strlit("HSB Quality");
    assert("HSB Quality"@[0] != "RGB Quality"@[0]);
    reveal_strlit("RGB Quality");
    reveal_strlit("RGB Magenta");
    assert("RGB Magenta"@[4] != "RGB Quality"@[4]);
    reveal_strlit("Video Hue Shift");
    reveal_strlit("Video Boost Red");
    assert("Video Boost Red"@[6] != "Video Hue Shift"@[6]);
    reveal_strlit("Video Saturation");
    reveal_strlit("Video Boost Blue");
    assert("Video Boost Blue"@[6] != "Video Saturation"@[6]);
    reveal_strlit("Video Brightness");
    reveal_strlit("Video Boost Blue");
    assert("Video Boost Blue"@[7] != "Video Brightness"@[7]);
    reveal_strlit("Video Brightness");
    reveal_strlit("Video Saturation");
    assert("Video Saturation"@[6] != "Video Brightness"@[6]);
    reveal_strlit("Video Contrast");
    reveal_strlit("HSB Saturation");
    assert("HSB Saturation"@[0] != "Video Contrast"@[0]);
    reveal_strlit("Video Contrast");
    reveal_strlit("HSB Brightness");
    assert("HSB Brightness"@[0] != "Video Contrast"@[0]);
    reveal_strlit("Video Contrast");
    reveal_strlit("CIE Brightness");
    assert("CIE Brightness"@[0] != "Video Contrast"@[0]);
    reveal_strlit("Video Key Intensity");
    reveal_strlit("Video Key Color Red");
    assert("Video Key Color Red"@[10] != "Video Key Intensity"@[10]);
    reveal_strlit("Video Key Tolerance");
    reveal_strlit("Video Key Color Red");
    assert("Video Key Color Red"@[10] != "Video Key Tolerance"@[10]);
    reveal_strlit("Video Key Tolerance");
    reveal_strlit("Video Key Intensity");
    assert("Video Key Intensity"@[10] != "Video Key Tolerance"@[10]);
    reveal_strlit("Strobe Duration");
    reveal_strlit("Video Boost Red");
    assert("Video Boost Red"@[0] != "Strobe Duration"@[0]);
    reveal_strlit("Strobe Duration");
    reveal_strlit("Video Hue Shift");
    assert("Video Hue Shift"@[0] != "Strobe Duration"@[0]);
    reveal_strlit("Strobe Rate");
    reveal_strlit("HSB Quality");
    assert("HSB Quality"@[0] != "Strobe Rate"@[0]);
    reveal_strlit("Strobe Rate");
    reveal_strlit("RGB Magenta");
    assert("RGB Magenta"@[0] != "Strobe Rate"@[0]);
    reveal_strlit("Strobe Rate");
    reveal_strlit("RGB Quality");
    assert("RGB Quality"@[0] != "Strobe Rate"@[0]);
    reveal_strlit("Strobe Frequency");
    reveal_strlit("Video Boost Blue");
    assert("Video Boost Blue"@[0] != "Strobe Frequency"@[0]);
    reveal_strlit("Strobe Frequency");
    reveal_strlit("Video Saturation");
    assert("Video Saturation"@[0] != "Strobe Frequency"@[0]);
    reveal_strlit("Strobe Frequency");
    reveal_strlit("Video Brightness");
    assert("Video Brightness"@[0] != "Strobe Frequency"@[0]);
    reveal_strlit("Strobe Mode Shutter");
    reveal_strlit("Video Key Color Red");
    assert("Video Key Color Red"@[0] != "Strobe Mode Shutter"@[0]);
    reveal_strlit("Strobe Mode Shutter");
    reveal_strlit("Video Key Intensity");
    assert("Video Key Intensity"@[0] != "Strobe Mode Shutter"@[0]);
    reveal_strlit("Strobe Mode Shutter");
    reveal_strlit("Video Key Tolerance");
    assert("Video Key Tolerance"@[0] != "Strobe Mode Shutter"@[0]);
    reveal_strlit("Strobe Mode Pulse");
    reveal_strlit("Video Boost Green");
    assert("Video Boost Green"@[0] != "Strobe Mode Pulse"@[0]);
    reveal_strlit("Strobe Mode Random");
    reveal_strlit("Strobe Mode Strobe");
    assert("Strobe Mode Strobe"@[12] != "Strobe Mode Random"@[12]);
    reveal_strlit("Strobe Mode Effect");
    reveal_strlit("Strobe Mode Strobe");
    assert("Strobe Mode Strobe"@[12] != "Strobe Mode Effect"@[12]);
    reveal_strlit("Strobe Mode Effect");
    reveal_strlit("Strobe Mode Random");
    assert("Strobe Mode Random"@[12] != "Strobe Mode Effect"@[12]);
    reveal_strlit("Iris");
    reveal_strlit("Tint");
    assert("Tint"@[0] != "Iris"@[0]);
    reveal_strlit("Iris Strobe");
    reveal_strlit("HSB Quality");
    assert("HSB Quality"@[0] != "Iris Strobe"@[0]);
    reveal_strlit("Iris Strobe");
    reveal_strlit("RGB Magenta");
    assert("RGB Magenta"@[0] != "Iris Strobe"@[0]);
    reveal_strlit("Iris Strobe");
    reveal_strlit("RGB Quality");
    assert("RGB Quality"@[0] != "Iris Strobe"@[0]);
    reveal_strlit("Iris Strobe");
    reveal_strlit("Strobe Rate");
    assert("Strobe Rate"@[0] != "Iris Strobe"@[0]);
    reveal_strlit("Iris Strobe Random");
    reveal_strlit("Strobe Mode Strobe");
    assert("Strobe Mode Strobe"@[0] != "Iris Strobe Random"@[0]);
    reveal_strlit("Iris Strobe Random");
    reveal_strlit("Strobe Mode Random");
    assert("Strobe Mode Random"@[0] != "Iris Strobe Random"@[0]);
    reveal_strlit("Iris Strobe Random");
    reveal_strlit("Strobe Mode Effect");
    assert("Strobe Mode Effect"@[0] != "Iris Strobe Random"@[0]);
    reveal_strlit("Iris Pulse Close");
    reveal_strlit("Video Boost Blue");
    assert("Video Boost Blue"@[0] != "Iris Pulse Close"@[0]);
    reveal_strlit("Iris Pulse Close");
    reveal_strlit("Video Saturation");
    assert("Video Saturation"@[0] != "Iris Pulse Close"@[0]);
    reveal_strlit("Iris Pulse Close");
    reveal_strlit("Video Brightness");
    assert("Video Brightness"@[0] != "Iris Pulse Close"@[0]);
    reveal_strlit("Iris Pulse Close");
    reveal_strlit("Strobe Frequency");
    assert("Strobe Frequency"@[0] != "Iris Pulse Close"@[0]);
    reveal_strlit("Iris Pulse Open");
    reveal_strlit("Video Boost Red");
    assert("Video Boost Red"@[0] != "Iris Pulse Open"@[0]);
    reveal_strlit("Iris Pulse Open");
    reveal_strlit("Video Hue Shift");
    assert("Video Hue Shift"@[0] != "Iris Pulse Open"@[0]);
    reveal_strlit("Iris Pulse Open");
    reveal_strlit("Strobe Duration");
    assert("Strobe Duration"@[0] != "Iris Pulse Open"@[0]);
}

/// No pretty name of part 1 occurs in part 0.
proof fn lemma_pretties_1_not_in_0()
    ensures
        pretty_lookup_0("CTB"@) is None,
        pretty_lookup_0("Tint"@) is None,
        pretty_lookup_0("HSB Hue"@) is None,
        pretty_lookup_0("HSB Saturation"@) is None,
        pretty_lookup_0("HSB Brightness"@) is None,
        pretty_lookup_0("HSB Quality"@) is None,
        pretty_lookup_0("CIE X"@) is None,
        pretty_lookup_0("CIE Y"@) is None,
        pretty_lookup_0("CIE Brightness"@) is None,
        pretty_lookup_0("RGB Red"@) is None,
        pretty_lookup_0("RGB Green"@) is None,
        pretty_lookup_0("RGB Blue"@) is None,
        pretty_lookup_0("RGB Cyan"@) is None,
        pretty_lookup_0("RGB Magenta"@) is None,
        pretty_lookup_0("RGB Yellow"@) is None,
        pretty_lookup_0("RGB Quality"@) is None,
        pretty_lookup_0("Video Boost Red"@) is None,
        pretty_lookup_0("Video Boost Green"@) is None,
        pretty_lookup_0("Video Boost Blue"@) is None,
        pretty_lookup_0("Video Hue Shift"@) is None,
        pretty_lookup_0("Video Saturation"@) is None,
        pretty_lookup_0("Video Brightness"@) is None,
        pretty_lookup_0("Video Contrast"@) is None,
        pretty_lookup_0("Video Key Color Red"@) is None,
        pretty_lookup_0("Video Key Color Green"@) is None,
        pretty_lookup_0("Video Key Color Blue"@) is None,
        pretty_lookup_0("Video Key Intensity"@) is None,
        pretty_lookup_0("Video Key Tolerance"@) is None,
        pretty_lookup_0("Strobe Duration"@) is None,
        pretty_lookup_0("Strobe Rate"@) is None,
        pretty_lookup_0("Strobe Frequency"@) is None,
        pretty_lookup_0("Strobe Mode Shutter"@) is None,
        pretty_lookup_0("Strobe Mode Strobe"@) is None,
        pretty_lookup_0("Strobe Mode Pulse"@) is None,
        pretty_lookup_0("Strobe Mode Pulse Open"@) is None,
        pretty_lookup_0("Strobe Mode Pulse Close"@) is None,
        pretty_lookup_0("Strobe Mode Random"@) is None,
        pretty_lookup_0("Strobe Mode Random Pulse"@) is None,
        pretty_lookup_0("Strobe Mode Random Pulse Open"@) is None,
        pretty_lookup_0("Strobe Mode Random Pulse Close"@) is None,
        pretty_lookup_0("Strobe Mode Effect"@) is None,
        pretty_lookup_0("Iris"@) is None,
        pretty_lookup_0("Iris Strobe"@) is None,
        pretty_lookup_0("Iris Strobe Random"@) is None,
        pretty_lookup_0("Iris Pulse Close"@) is None,
        pretty_lookup_0("Iris Pulse Open"@) is None,
{
    reveal(pretty_lookup_0);
    lemma_pretty_lengths_0();
    lemma_pretty_lengths_1();
    reveal_strlit("CTB");
    reveal_strlit("Pan");
    assert("Pan"@[0] != "CTB"@[0]);
    reveal_strlit("CTB");
    reveal_strlit("Red");
    assert("Red"@[0] != "CTB"@[0]);
    reveal_strlit("CTB");
    reveal_strlit("CTO");
    assert("CTO"@[2] != "CTB"@[2]);
    reveal_strlit("CTB");
    reveal_strlit("CTC");
    assert("CTC"@[2] != "CTB"@[2]);
    reveal_strlit("Tint");
    reveal_strlit("Tilt");
    assert("Tilt"@[2] != "Tint"@[2]);
    reveal_strlit("Tint");
    reveal_strlit("Blue");
    assert("Blue"@[0] != "Tint"@[0]);
    reveal_strlit("Tint");
    reveal_strlit("Cyan");
    assert("Cyan"@[0] != "Tint"@[0]);
    reveal_strlit("Tint");
    reveal_strlit("Red-");
    assert("Red-"@[0] != "Tint"@[0]);
    reveal_strlit("HSB Hue");
    reveal_strlit("Scale X");
    assert("Scale X"@[0] != "HSB Hue"@[0]);
    reveal_strlit("HSB Hue");
    reveal_strlit("Scale Y");
    assert("Scale Y"@[0] != "HSB Hue"@[0]);
    reveal_strlit("HSB Hue");
    reveal_strlit("Scale Z");
    assert("Scale Z"@[0] != "HSB Hue"@[0]);
    reveal_strlit("HSB Hue");
    reveal_strlit("Magenta");
    assert("Magenta"@[0] != "HSB Hue"@[0]);
    reveal_strlit("HSB Hue");
    reveal_strlit("Yellow-");
    assert("Yellow-"@[0] != "HSB Hue"@[0]);
    reveal_strlit("HSB Quality");
    reveal_strlit("Tilt Rotate");
    assert("Tilt Rotate"@[0] != "HSB Quality"@[0]);
    reveal_strlit("HSB Quality");
    reveal_strlit("Red-Magenta");
    assert("Red-Magenta"@[0] != "HSB Quality"@[0]);
    reveal_strlit("CIE X");
    reveal_strlit("Green");
    assert("Green"@[0] != "CIE X"@[0]);
    reveal_strlit("CIE X");
    reveal_strlit("White");
    assert("White"@[0] != "CIE X"@[0]);
    reveal_strlit("CIE X");
    reveal_strlit("Blue-");
    assert("Blue-"@[0] != "CIE X"@[0]);
    reveal_strlit("CIE X");
    reveal_strlit("Cyan-");
    assert("Cyan-"@[1] != "CIE X"@[1]);
    reveal_strlit("CIE Y");
    reveal_strlit("Green");
    assert("Green"@[0] != "CIE Y"@[0]);
    reveal_strlit("CIE Y");
    reveal_strlit("White");
    assert("White"@[0] != "CIE Y"@[0]);
    reveal_strlit("CIE Y");
    reveal_strlit("Blue-");
    assert("Blue-"@[0] != "CIE Y"@[0]);
    reveal_strlit("CIE Y");
    reveal_strlit("Cyan-");
    assert("Cyan-"@[1] != "CIE Y"@[1]);
    reveal_strlit("RGB Red");
    reveal_strlit("Scale X");
    assert("Scale X"@[0] != "RGB Red"@[0]);
    reveal_strlit("RGB Red");
    reveal_strlit("Scale Y");
    assert("Scale Y"@[0] != "RGB Red"@[0]);
    reveal_strlit("RGB Red");
    reveal_strlit("Scale Z");
    assert("Scale Z"@[0] != "RGB Red"@[0]);
    reveal_strlit("RGB Red");
    reveal_strlit("Magenta");
    assert("Magenta"@[0] != "RGB Red"@[0]);
    reveal_strlit("RGB Red");
    reveal_strlit("Yellow-");
    assert("Yellow-"@[0] != "RGB Red"@[0]);
    reveal_strlit("RGB Green");
    reveal_strlit("Scale XYZ");
    assert("Scale XYZ"@[0] != "RGB Green"@[0]);
    reveal_strlit("RGB Green");
    reveal_strlit("Play Mode");
    assert("Play Mode"@[0] != "RGB Green"@[0]);
    reveal_strlit("RGB Green");
    reveal_strlit("Blue-Cyan");
    assert("Blue-Cyan"@[0] != "RGB Green"@[0]);
    reveal_strlit("RGB Blue");
    reveal_strlit("Play End");
    assert("Play End"@[0] != "RGB Blue"@[0]);
    reveal_strlit("RGB Blue");
    reveal_strlit("Magenta-");
    assert("Magenta-"@[0] != "RGB Blue"@[0]);
    reveal_strlit("RGB Cyan");
    reveal_strlit("Play End");
    assert("Play End"@[0] != "RGB Cyan"@[0]);
    reveal_strlit("RGB Cyan");
    reveal_strlit("Magenta-");
    assert("Magenta-"@[0] != "RGB Cyan"@[0]);
    reveal_strlit("RGB Magenta");
    reveal_strlit("Tilt Rotate");
    assert("Tilt Rotate"@[0] != "RGB Magenta"@[0]);
    reveal_strlit("RGB Magenta");
    reveal_strlit("Red-Magenta");
    assert("Red-Magenta"@[1] != "RGB Magenta"@[1]);
    reveal_strlit("RGB Yellow");
    reveal_strlit("Pan Rotate");
    assert("Pan Rotate"@[0] != "RGB Yellow"@[0]);
    reveal_strlit("RGB Yellow");
    reveal_strlit("Rotation X");
    assert("Rotation X"@[1] != "RGB Yellow"@[1]);
    reveal_strlit("RGB Yellow");
    reveal_strlit("Rotation Y");
    assert("Rotation Y"@[1] != "RGB Yellow"@[1]);
    reveal_strlit("RGB Yellow");
    reveal_strlit("Rotation Z");
    assert("Rotation Z"@[1] != "RGB Yellow"@[1]);
    reveal_strlit("RGB Yellow");
    reveal_strlit("Play Begin");
    assert("Play Begin"@[0] != "RGB Yellow"@[0]);
    reveal_strlit("RGB Yellow");
    reveal_strlit("Play Speed");
    assert("Play Speed"@[0] != "RGB Yellow"@[0]);
    reveal_strlit("RGB Yellow");
    reveal_strlit("Red-Yellow");
    assert("Red-Yellow"@[1] != "RGB Yellow"@[1]);
    reveal_strlit("RGB Yellow");
    reveal_strlit("Green-Cyan");
    assert("Green-Cyan"@[0] != "RGB Yellow"@[0]);
    reveal_strlit("RGB Yellow");
    reveal_strlit("Warm White");
    assert("Warm White"@[0] != "RGB Yellow"@[0]);
    reveal_strlit("RGB Yellow");
    reveal_strlit("Cool White");
    assert("Cool White"@[0] != "RGB Yellow"@[0]);
    reveal_strlit("RGB Quality");
    reveal_strlit("Tilt Rotate");
    assert("Tilt Rotate"@[0] != "RGB Quality"@[0]);
    reveal_strlit("RGB Quality");
    reveal_strlit("Red-Magenta");
    assert("Red-Magenta"@[1] != "RGB Quality"@[1]);
    reveal_strlit("Video Boost Red");
    reveal_strlit("Position Effect");
    assert("Position Effect"@[0] != "Video Boost Red"@[0]);
    reveal_strlit("Video Hue Shift");
    reveal_strlit("Position Effect");
    assert("Position Effect"@[0] != "Video Hue Shift"@[0]);
    reveal_strlit("Video Key Color Blue");
    reveal_strlit("Position Effect Rate");
    assert("Position Effect Rate"@[0] != "Video Key Color Blue"@[0]);
    reveal_strlit("Video Key Color Blue");
    reveal_strlit("Position Effect Fade");
    assert("Position Effect Fade"@[0] != "Video Key Color Blue"@[0]);
    reveal_strlit("Strobe Duration");
    reveal_strlit("Position Effect");
    assert("Position Effect"@[0] != "Strobe Duration"@[0]);
    reveal_strlit("Strobe Rate");
    reveal_strlit("Tilt Rotate");
    assert("Tilt Rotate"@[0] != "Strobe Rate"@[0]);
    reveal_strlit("Strobe Rate");
    reveal_strlit("Red-Magenta");
    assert("Red-Magenta"@[0] != "Strobe Rate"@[0]);
    reveal_strlit("Iris");
    reveal_strlit("Tilt");
    assert("Tilt"@[0] != "Iris"@[0]);
    reveal_strlit("Iris");
    reveal_strlit("Blue");
    assert("Blue"@[0] != "Iris"@[0]);
    reveal_strlit("Iris");
    reveal_strlit("Cyan");
    assert("Cyan"@[0] != "Iris"@[0]);
    reveal_strlit("Iris");
    reveal_strlit("Red-");
    assert("Red-"@[0] != "Iris"@[0]);
    reveal_strlit("Iris Strobe");
    reveal_strlit("Tilt Rotate");
    assert("Tilt Rotate"@[0] != "Iris Strobe"@[0]);
    reveal_strlit("Iris Strobe");
    reveal_strlit("Red-Magenta");
    assert("Red-Magenta"@[0] != "Iris Strobe"@[0]);
    reveal_strlit("Iris Pulse Open");
    reveal_strlit("Position Effect");
    assert("Position Effect"@[0] != "Iris Pulse Open"@[0]);
}

/// Each pretty name of part 2 is found in that part as its own attribute.
proof fn lemma_pretties_2_read()
    ensures
        pretty_lookup_2("Iris Random Pulse Close"@) == Some(FixtureChannel3Attribute::IrisRandomPulseClose),
        pretty_lookup_2("Iris Random Pulse Open"@) == Some(FixtureChannel3Attribute::IrisRandomPulseOpen),
        pretty_lookup_2("Effects Sync"@) == Some(FixtureChannel3Attribute::EffectsSync),
        pretty_lookup_2("Beam Shaper"@) == Some(FixtureChannel3Attribute::BeamShaper),
        pretty_lookup_2("Beam Shaper Macro"@) == Some(FixtureChannel3Attribute::BeamShaperMacro),
        pretty_lookup_2("Beam Shaper Position"@) == Some(FixtureChannel3Attribute::BeamShaperPos),
        pretty_lookup_2("Beam Shaper Position Rotate"@) == Some(FixtureChannel3Attribute::BeamShaperPosRotate),
        pretty_lookup_2("Zoom"@) == Some(FixtureChannel3Attribute::Zoom),
        pretty_lookup_2("Zoom Mode Spot"@) == Some(FixtureChannel3Attribute::ZoomModeSpot),
        pretty_lookup_2("Zoom Mode Beam"@) == Some(FixtureChannel3Attribute::ZoomModeBeam),
        pretty_lookup_2("Digital Zoom"@) == Some(FixtureChannel3Attribute::DigitalZoom),
        pretty_lookup_2("Dimmer Mode"@) == Some(FixtureChannel3Attribute::DimmerMode),
        pretty_lookup_2("Dimmer Curve"@) == Some(FixtureChannel3Attribute::DimmerCurve),
        pretty_lookup_2("Blackout Mode"@) == Some(FixtureChannel3Attribute::BlackoutMode),
        pretty_lookup_2("LED Frequency"@) == Some(FixtureChannel3Attribute::LedFrequency),
        pretty_lookup_2("LED Zone Mode"@) == Some(FixtureChannel3Attribute::LedZoneMode),
        pretty_lookup_2("Pixel Mode"@) == Some(FixtureChannel3Attribute::PixelMode),
        pretty_lookup_2("Pan Mode"@) == Some(FixtureChannel3Attribute::PanMode),
        pretty_lookup_2("Tilt Mode"@) == Some(FixtureChannel3Attribute::TiltMode),
        pretty_lookup_2("Pan Tilt Mode"@) == Some(FixtureChannel3Attribute::PanTiltMode),
        pretty_lookup_2("Position Modes"@) == Some(FixtureChannel3Attribute::PositionModes),
        pretty_lookup_2("Gobo Wheel Shortcut Mode"@) == Some(FixtureChannel3Attribute::GoboWheelShortcutMode),
        pretty_lookup_2("Animation Wheel Shortcut Mode"@) == Some(FixtureChannel3Attribute::AnimationWheelShortcutMode),
        pretty_lookup_2("Color Wheel Shortcut Mode"@) == Some(FixtureChannel3Attribute::ColorWheelShortcutMode),
        pretty_lookup_2("Cyan Mode"@) == Some(FixtureChannel3Attribute::CyanMode),
        pretty_lookup_2("Magenta Mode"@) == Some(FixtureChannel3Attribute::MagentaMode),
        pretty_lookup_2("Yellow Mode"@) == Some(FixtureChannel3Attribute::YellowMode),
        pretty_lookup_2("Color Mix Mode"@) == Some(FixtureChannel3Attribute::ColorMixMode),
        pretty_lookup_2("Chromatic Mode"@) == Some(FixtureChannel3Attribute::ChromaticMode),
        pretty_lookup_2("Color Calibration Mode"@) == Some(FixtureChannel3Attribute::ColorCalibrationMode),
        pretty_lookup_2("Color Consistency"@) == Some(FixtureChannel3Attribute::ColorConsistency),
        pretty_lookup_2("Color Control"@) == Some(FixtureChannel3Attribute::ColorControl),
        pretty_lookup_2("Color Model Mode"@) == Some(FixtureChannel3Attribute::ColorModelMode),
        pretty_lookup_2("Color Settings Reset"@) == Some(FixtureChannel3Attribute::ColorSettingsReset),
        pretty_lookup_2("Color Uniformity"@) == Some(FixtureChannel3Attribute::ColorUniformity),
        pretty_lookup_2("CRI Mode"@) == Some(FixtureChannel3Attribute::CriMode),
        pretty_lookup_2("Custom Color"@) == Some(FixtureChannel3Attribute::CustomColor),
        pretty_lookup_2("UV Stability"@) == Some(FixtureChannel3Attribute::UvStability),
        pretty_lookup_2("Wavelength Correction"@) == Some(FixtureChannel3Attribute::WavelengthCorrection),
        pretty_lookup_2("White Count"@) == Some(FixtureChannel3Attribute::WhiteCount),
        pretty_lookup_2("Strobe Mode"@) == Some(FixtureChannel3Attribute::StrobeMode),
        pretty_lookup_2("Zoom Mode"@) == Some(FixtureChannel3Attribute::ZoomMode),
        pretty_lookup_2("Focus Mode"@) == Some(FixtureChannel3Attribute::FocusMode),
        pretty_lookup_2("Iris Mode"@) == Some(FixtureChannel3Attribute::IrisMode),
        pretty_lookup_2("Follow Spot Mode"@) == Some(FixtureChannel3Attribute::FollowSpotMode),
        pretty_lookup_2("Beam Effect Index Rotate Mode"@) == Some(FixtureChannel3Attribute::BeamEffectIndexRotateMode),
{
    reveal(pretty_lookup_2);
    lemma_pretty_lengths_2();
    reveal_strlit("Zoom Mode Beam");
    reveal_strlit("Zoom Mode Spot");
    assert("Zoom Mode Spot"@[10] != "Zoom Mode Beam"@[10]);
    reveal_strlit("Digital Zoom");
    reveal_strlit("Effects Sync");
    assert("Effects Sync"@[0] != "Digital Zoom"@[0]);
    reveal_strlit("Dimmer Mode");
    reveal_strlit("Beam Shaper");
    assert("Beam Shaper"@[0] != "Dimmer Mode"@[0]);
    reveal_strlit("Dimmer Curve");
    reveal_strlit("Effects Sync");
    assert("Effects Sync"@[0] != "Dimmer Curve"@[0]);
    reveal_strlit("Dimmer Curve");
    reveal_strlit("Digital Zoom");
    assert("Digital Zoom"@[2] != "Dimmer Curve"@[2]);
    reveal_strlit("LED Frequency");
    reveal_strlit("Blackout Mode");
    assert("Blackout Mode"@[0] != "LED Frequency"@[0]);
    reveal_strlit("LED Zone Mode");
    reveal_strlit("Blackout Mode");
    assert("Blackout Mode"@[0] != "LED Zone Mode"@[0]);
    reveal_strlit("LED Zone Mode");
    reveal_strlit("LED Frequency");
    assert("LED Frequency"@[4] != "LED Zone Mode"@[4]);
    reveal_strlit("Pan Tilt Mode");
    reveal_strlit("Blackout Mode");
    assert("Blackout Mode"@[0] != "Pan Tilt Mode"@[0]);
    reveal_strlit("Pan Tilt Mode");
    reveal_strlit("LED Frequency");
    assert("LED Frequency"@[0] != "Pan Tilt Mode"@[0]);
    reveal_strlit("Pan Tilt Mode");
    reveal_strlit("LED Zone Mode");
    assert("LED Zone Mode"@[0] != "Pan Tilt Mode"@[0]);
    reveal_strlit("Position Modes");
    reveal_strlit("Zoom Mode Spot");
    assert("Zoom Mode Spot"@[0] != "Position Modes"@[0]);
    reveal_strlit("Position Modes");
    reveal_strlit("Zoom Mode Beam");
    assert("Zoom Mode Beam"@[0] != "Position Modes"@[0]);
    reveal_strlit("Cyan Mode");
    reveal_strlit("Tilt Mode");
    assert("Tilt Mode"@[0] != "Cyan Mode"@[0]);
    reveal_strlit("Magenta Mode");
    reveal_strlit("Effects Sync");
    assert("Effects Sync"@[0] != "Magenta Mode"@[0]);
    reveal_strlit("Magenta Mode");
    reveal_strlit("Digital Zoom");
    assert("Digital Zoom"@[0] != "Magenta Mode"@[0]);
    reveal_strlit("Magenta Mode");
    reveal_strlit("Dimmer Curve");
    assert("Dimmer Curve"@[0] != "Magenta Mode"@[0]);
    reveal_strlit("Yellow Mode");
    reveal_strlit("Beam Shaper");
    assert("Beam Shaper"@[0] != "Yellow Mode"@[0]);
    reveal_strlit("Yellow Mode");
    reveal_strlit("Dimmer Mode");
    assert("Dimmer Mode"@[0] != "Yellow Mode"@[0]);
    reveal_strlit("Color Mix Mode");
    reveal_strlit("Zoom Mode Spot");
    assert("Zoom Mode Spot"@[0] != "Color Mix Mode"@[0]);
    reveal_strlit("Color Mix Mode");
    reveal_strlit("Zoom Mode Beam");
    assert("Zoom Mode Beam"@[0] != "Color Mix Mode"@[0]);
    reveal_strlit("Color Mix Mode");
    reveal_strlit("Position Modes");
    assert("Position Modes"@[0] != "Color Mix Mode"@[0]);
    reveal_strlit("Chromatic Mode");
    reveal_strlit("Zoom Mode Spot");
    assert("Zoom Mode Spot"@[0] != "Chromatic Mode"@[0]);
    reveal_strlit("Chromatic Mode");
    reveal_strlit("Zoom Mode Beam");
    assert("Zoom Mode Beam"@[0] != "Chromatic Mode"@[0]);
    reveal_strlit("Chromatic Mode");
    reveal_strlit("Position Modes");
    assert("Position Modes"@[0] != "Chromatic Mode"@[0]);
    reveal_strlit("Chromatic Mode");
    reveal_strlit("Color Mix Mode");
    assert("Color Mix Mode"@[1] != "Chromatic Mode"@[1]);
    reveal_strlit("Color Calibration Mode");
    reveal_strlit("Iris Random Pulse Open");
    assert("Iris Random Pulse Open"@[0] != "Color Calibration Mode"@[0]);
    reveal_strlit("Color Consistency");
    reveal_strlit("Beam Shaper Macro");
    assert("Beam Shaper Macro"@[0] != "Color Consistency"@[0]);
    reveal_strlit("Color Control");
    reveal_strlit("Blackout Mode");
    assert("Blackout Mode"@[0] != "Color Control"@[0]);
    reveal_strlit("Color Control");
    reveal_strlit("LED Frequency");
    assert("LED Frequency"@[0] != "Color Control"@[0]);
    reveal_strlit("Color Control");
    reveal_strlit("LED Zone Mode");
    assert("LED Zone Mode"@[0] != "Color Control"@[0]);
    reveal_strlit("Color Control");
    reveal_strlit("Pan Tilt Mode");
    assert("Pan Tilt Mode"@[0] != "Color Control"@[0]);
    reveal_strlit("Color Settings Reset");
    reveal_strlit("Beam Shaper Position");
    assert("Beam Shaper Position"@[0] != "Color Settings Reset"@[0]);
    reveal_strlit("Color Uniformity");
    reveal_strlit("Color Model Mode");
    assert("Color Model Mode"@[6] != "Color Uniformity"@[6]);
    reveal_strlit("CRI Mode");
    reveal_strlit("Pan Mode");
    assert("Pan Mode"@[0] != "CRI Mode"@[0]);
    reveal_strlit("Custom Color");
    reveal_strlit("Effects Sync");
    assert("Effects Sync"@[0] != "Custom Color"@[0]);
    reveal_strlit("Custom Color");
    reveal_strlit("Digital Zoom");
    assert("Digital Zoom"@[0] != "Custom Color"@[0]);
    reveal_strlit("Custom Color");
    reveal_strlit("Dimmer Curve");
    assert("Dimmer Curve"@[0] != "Custom Color"@[0]);
    reveal_strlit("Custom Color");
    reveal_strlit("Magenta Mode");
    assert("Magenta Mode"@[0] != "Custom Color"@[0]);
    reveal_strlit("UV Stability");
    reveal_strlit("Effects Sync");
    assert("Effects Sync"@[0] != "UV Stability"@[0]);
    reveal_strlit("UV Stability");
    reveal_strlit("Digital Zoom");
    assert("Digital Zoom"@[0] != "UV Stability"@[0]);
    reveal_strlit("UV Stability");
    reveal_strlit("Dimmer Curve");
    assert("Dimmer Curve"@[0] != "UV Stability"@[0]);
    reveal_strlit("UV Stability");
    reveal_strlit("Magenta Mode");
    assert("Magenta Mode"@[0] != "UV Stability"@[0]);
    reveal_strlit("UV Stability");
    reveal_strlit("Custom Color");
    assert("Custom Color"@[0] != "UV Stability"@[0]);
    reveal_strlit("White Count");
    reveal_strlit("Beam Shaper");
    assert("Beam Shaper"@[0] != "White Count"@[0]);
    reveal_strlit("White Count");
    reveal_strlit("Dimmer Mode");
    assert("Dimmer Mode"@[0] != "White Count"@[0]);
    reveal_strlit("White Count");
    reveal_strlit("Yellow Mode");
    assert("Yellow Mode"@[0] != "White Count"@[0]);
    reveal_strlit("Strobe Mode");
    reveal_strlit("Beam Shaper");
    assert("Beam Shaper"@[0] != "Strobe Mode"@[0]);
    reveal_strlit("Strobe Mode");
    reveal_strlit("Dimmer Mode");
    assert("Dimmer Mode"@[0] != "Strobe Mode"@[0]);
    reveal_strlit("Strobe Mode");
    reveal_strlit("Yellow Mode");
    assert("Yellow Mode"@[0] != "Strobe Mode"@[0]);
    reveal_strlit("Strobe Mode");
    reveal_strlit("White Count");
    assert("White Count"@[0] != "Strobe Mode"@[0]);
    reveal_strlit("Zoom Mode");
    reveal_strlit("Tilt Mode");
    assert("Tilt Mode"@[0] != "Zoom Mode"@[0]);
    reveal_strlit("Zoom Mode");
    reveal_strlit("Cyan Mode");
    assert("Cyan Mode"@[0] != "Zoom Mode"@[0]);
    reveal_strlit("Focus Mode");
    reveal_strlit("Pixel Mode");
    assert("Pixel Mode"@[0] != "Focus Mode"@[0]);
    reveal_strlit("Iris Mode");
    reveal_strlit("Tilt Mode");
    assert("Tilt Mode"@[0] != "Iris Mode"@[0]);
    reveal_strlit("Iris Mode");
    reveal_strlit("Cyan Mode");
    assert("Cyan Mode"@[0] != "Iris Mode"@[0]);
    reveal_strlit("Iris Mode");
    reveal_strlit("Zoom Mode");
    assert("Zoom Mode"@[0] != "Iris Mode"@[0]);
    reveal_strlit("Follow Spot Mode");
    reveal_strlit("Color Model Mode");
    assert("Color Model Mode"@[0] != "Follow Spot Mode"@[0]);
    reveal_strlit("Follow Spot Mode");
    reveal_strlit("Color Uniformity");
    assert("Color Uniformity"@[0] != "Follow Spot Mode"@[0]);
    reveal_strlit("Beam Effect Index Rotate Mode");
    reveal_strlit("Animation Wheel Shortcut Mode");
    assert("Animation Wheel Shortcut Mode"@[0] != "Beam Effect Index Rotate Mode"@[0]);
}

/// No pretty name of part 2 occurs in part 0.
proof fn lemma_pretties_2_not_in_0()
    ensures
        pretty_lookup_0("Iris Random Pulse Close"@) is None,
        pretty_lookup_0("Iris Random Pulse Open"@) is None,
        pretty_lookup_0("Effects Sync"@) is None,
        pretty_lookup_0("Beam Shaper"@) is None,
        pretty_lookup_0("Beam Shaper Macro"@) is None,
        pretty_lookup_0("Beam Shaper Position"@) is None,
        pretty_lookup_0("Beam Shaper Position Rotate"@) is None,
        pretty_lookup_0("Zoom"@) is None,
        pretty_lookup_0("Zoom Mode Spot"@) is None,
        pretty_lookup_0("Zoom Mode Beam"@) is None,
        pretty_lookup_0("Digital Zoom"@) is None,
        pretty_lookup_0("Dimmer Mode"@) is None,
        pretty_lookup_0("Dimmer Curve"@) is None,
        pretty_lookup_0("Blackout Mode"@) is None,
        pretty_lookup_0("LED Frequency"@) is None,
        pretty_lookup_0("LED Zone Mode"@) is None,
        pretty_lookup_0("Pixel Mode"@) is None,
        pretty_lookup_0("Pan Mode"@) is None,
        pretty_lookup_0("Tilt Mode"@) is None,
        pretty_lookup_0("Pan Tilt Mode"@) is None,
        pretty_lookup_0("Position Modes"@) is None,
        pretty_lookup_0("Gobo Wheel Shortcut Mode"@) is None,
        pretty_lookup_0("Animation Wheel Shortcut Mode"@) is None,
        pretty_lookup_0("Color Wheel Shortcut Mode"@) is None,
        pretty_lookup_0("Cyan Mode"@) is None,
        pretty_lookup_0("Magenta Mode"@) is None,
        pretty_lookup_0("Yellow Mode"@) is None,
        pretty_lookup_0("Color Mix Mode"@) is None,
        pretty_lookup_0("Chromatic Mode"@) is None,
        pretty_lookup_0("Color Calibration Mode"@) is None,
        pretty_lookup_0("Color Consistency"@) is None,
        pretty_lookup_0("Color Control"@) is None,
        pretty_lookup_0("Color Model Mode"@) is None,
        pretty_lookup_0("Color Settings Reset"@) is None,
        pretty_lookup_0("Color Uniformity"@) is None,
        pretty_lookup_0("CRI Mode"@) is None,
        pretty_lookup_0("Custom Color"@) is None,
        pretty_lookup_0("UV Stability"@) is None,
        pretty_lookup_0("Wavelength Correction"@) is None,
        pretty_lookup_0("White Count"@) is None,
        pretty_lookup_0("Strobe Mode"@) is None,
        pretty_lookup_0("Zoom Mode"@) is None,
        pretty_lookup_0("Focus Mode"@) is None,
        pretty_lookup_0("Iris Mode"@) is None,
        pretty_lookup_0("Follow Spot Mode"@) is None,
        pretty_lookup_0("Beam Effect Index Rotate Mode"@) is None,
{
    reveal(pretty_lookup_0);
    lemma_pretty_lengths_0();
    lemma_pretty_lengths_2();
    reveal_strlit("Effects Sync");
    reveal_strlit("Green-Yellow");
    assert("Green-Yellow"@[0] != "Effects Sync"@[0]);
    reveal_strlit("Effects Sync");
    reveal_strlit("Blue-Magenta");
    assert("Blue-Magenta"@[0] != "Effects Sync"@[0]);
    reveal_strlit("Beam Shaper");
    reveal_strlit("Tilt Rotate");
    assert("Tilt Rotate"@[0] != "Beam Shaper"@[0]);
    reveal_strlit("Beam Shaper");
    reveal_strlit("Red-Magenta");
    assert("Red-Magenta"@[0] != "Beam Shaper"@[0]);
    reveal_strlit("Beam Shaper Position");
    reveal_strlit("Position Effect Rate");
    assert("Position Effect Rate"@[0] != "Beam Shaper Position"@[0]);
    reveal_strlit("Beam Shaper Position");
    reveal_strlit("Position Effect Fade");
    assert("Position Effect Fade"@[0] != "Beam Shaper Position"@[0]);
    reveal_strlit("Zoom");
    reveal_strlit("Tilt");
    assert("Tilt"@[0] != "Zoom"@[0]);
    reveal_strlit("Zoom");
    reveal_strlit("Blue");
    assert("Blue"@[0] != "Zoom"@[0]);
    reveal_strlit("Zoom");
    reveal_strlit("Cyan");
    assert("Cyan"@[0] != "Zoom"@[0]);
    reveal_strlit("Zoom");
    reveal_strlit("Red-");
    assert("Red-"@[0] != "Zoom"@[0]);
    reveal_strlit("Digital Zoom");
    reveal_strlit("Green-Yellow");
    assert("Green-Yellow"@[0] != "Digital Zoom"@[0]);
    reveal_strlit("Digital Zoom");
    reveal_strlit("Blue-Magenta");
    assert("Blue-Magenta"@[0] != "Digital Zoom"@[0]);
    reveal_strlit("Dimmer Mode");
    reveal_strlit("Tilt Rotate");
    assert("Tilt Rotate"@[0] != "Dimmer Mode"@[0]);
    reveal_strlit("Dimmer Mode");
    reveal_strlit("Red-Magenta");
    assert("Red-Magenta"@[0] != "Dimmer Mode"@[0]);
    reveal_strlit("Dimmer Curve");
    reveal_strlit("Green-Yellow");
    assert("Green-Yellow"@[0] != "Dimmer Curve"@[0]);
    reveal_strlit("Dimmer Curve");
    reveal_strlit("Blue-Magenta");
    assert("Blue-Magenta"@[0] != "Dimmer Curve"@[0]);
    reveal_strlit("Pixel Mode");
    reveal_strlit("Pan Rotate");
    assert("Pan Rotate"@[1] != "Pixel Mode"@[1]);
    reveal_strlit("Pixel Mode");
    reveal_strlit("Rotation X");
    assert("Rotation X"@[0] != "Pixel Mode"@[0]);
    reveal_strlit("Pixel Mode");
    reveal_strlit("Rotation Y");
    assert("Rotation Y"@[0] != "Pixel Mode"@[0]);
    reveal_strlit("Pixel Mode");
    reveal_strlit("Rotation Z");
    assert("Rotation Z"@[0] != "Pixel Mode"@[0]);
    reveal_strlit("Pixel Mode");
    reveal_strlit("Play Begin");
    assert("Play Begin"@[1] != "Pixel Mode"@[1]);
    reveal_strlit("Pixel Mode");
    reveal_strlit("Play Speed");
    assert("Play Speed"@[1] != "Pixel Mode"@[1]);
    reveal_strlit("Pixel Mode");
    reveal_strlit("Red-Yellow");
    assert("Red-Yellow"@[0] != "Pixel Mode"@[0]);
    reveal_strlit("Pixel Mode");
    reveal_strlit("Green-Cyan");
    assert("Green-Cyan"@[0] != "Pixel Mode"@[0]);
    reveal_strlit("Pixel Mode");
    reveal_strlit("Warm White");
    assert("Warm White"@[0] != "Pixel Mode"@[0]);
    reveal_strlit("Pixel Mode");
    reveal_strlit("Cool White");
    assert("Cool White"@[0] != "Pixel Mode"@[0]);
    reveal_strlit("Pan Mode");
    reveal_strlit("Play End");
    assert("Play End"@[1] != "Pan Mode"@[1]);
    reveal_strlit("Pan Mode");
    reveal_strlit("Magenta-");
    assert("Magenta-"@[0] != "Pan Mode"@[0]);
    reveal_strlit("Tilt Mode");
    reveal_strlit("Scale XYZ");
    assert("Scale XYZ"@[0] != "Tilt Mode"@[0]);
    reveal_strlit("Tilt Mode");
    reveal_strlit("Play Mode");
    assert("Play Mode"@[0] != "Tilt Mode"@[0]);
    reveal_strlit("Tilt Mode");
    reveal_strlit("Blue-Cyan");
    assert("Blue-Cyan"@[0] != "Tilt Mode"@[0]);
    reveal_strlit("Cyan Mode");
    reveal_strlit("Scale XYZ");
    assert("Scale XYZ"@[0] != "Cyan Mode"@[0]);
    reveal_strlit("Cyan Mode");
    reveal_strlit("Play Mode");
    assert("Play Mode"@[0] != "Cyan Mode"@[0]);
    reveal_strlit("Cyan Mode");
    reveal_strlit("Blue-Cyan");
    assert("Blue-Cyan"@[0] != "Cyan Mode"@[0]);
    reveal_strlit("Magenta Mode");
    reveal_strlit("Green-Yellow");
    assert("Green-Yellow"@[0] != "Magenta Mode"@[0]);
    reveal_strlit("Magenta Mode");
    reveal_strlit("Blue-Magenta");
    assert("Blue-Magenta"@[0] != "Magenta Mode"@[0]);
    reveal_strlit("Yellow Mode");
    reveal_strlit("Tilt Rotate");
    assert("Tilt Rotate"@[0] != "Yellow Mode"@[0]);
    reveal_strlit("Yellow Mode");
    reveal_strlit("Red-Magenta");
    assert("Red-Magenta"@[0] != "Yellow Mode"@[0]);
    reveal_strlit("Color Settings Reset");
    reveal_strlit("Position Effect Rate");
    assert("Position Effect Rate"@[0] != "Color Settings Reset"@[0]);
    reveal_strlit("Color Settings Reset");
    reveal_strlit("Position Effect Fade");
    assert("Position Effect Fade"@[0] != "Color Settings Reset"@[0]);
    reveal_strlit("CRI Mode");
    reveal_strlit("Play End");
    assert("Play End"@[0] != "CRI Mode"@[0]);
    reveal_strlit("CRI Mode");
    reveal_strlit("Magenta-");
    assert("Magenta-"@[0] != "CRI Mode"@[0]);
    reveal_strlit("Custom Color");
    reveal_strlit("Green-Yellow");
    assert("Green-Yellow"@[0] != "Custom Color"@[0]);
    reveal_strlit("Custom Color");
    reveal_strlit("Blue-Magenta");
    assert("Blue-Magenta"@[0] != "Custom Color"@[0]);
    reveal_strlit("UV Stability");
    reveal_strlit("Green-Yellow");
    assert("Green-Yellow"@[0] != "UV Stability"@[0]);
    reveal_strlit("UV Stability");
    reveal_strlit("Blue-Magenta");
    assert("Blue-Magenta"@[0] != "UV Stability"@[0]);
    reveal_strlit("White Count");
    reveal_strlit("Tilt Rotate");
    assert("Tilt Rotate"@[0] != "White Count"@[0]);
    reveal_strlit("White Count");
    reveal_strlit("Red-Magenta");
    assert("Red-Magenta"@[0] != "White Count"@[0]);
    reveal_strlit("Strobe Mode");
    reveal_strlit("Tilt Rotate");
    assert("Tilt Rotate"@[0] != "Strobe Mode"@[0]);
    reveal_strlit("Strobe Mode");
    reveal_strlit("Red-Magenta");
    assert("Red-Magenta"@[0] != "Strobe Mode"@[0]);
    reveal_strlit("Zoom Mode");
    reveal_strlit("Scale XYZ");
    assert("Scale XYZ"@[0] != "Zoom Mode"@[0]);
    reveal_strlit("Zoom Mode");
    reveal_strlit("Play Mode");
    assert("Play Mode"@[0] != "Zoom Mode"@[0]);
    reveal_strlit("Zoom Mode");
    reveal_strlit("Blue-Cyan");
    assert("Blue-Cyan"@[0] != "Zoom Mode"@[0]);
    reveal_strlit("Focus Mode");
    reveal_strlit("Pan Rotate");
    assert("Pan Rotate"@[0] != "Focus Mode"@[0]);
    reveal_strlit("Focus Mode");
    reveal_strlit("Rotation X");
    assert("Rotation X"@[0] != "Focus Mode"@[0]);
    reveal_strlit("Focus Mode");
    reveal_strlit("Rotation Y");
    assert("Rotation Y"@[0] != "Focus Mode"@[0]);
    reveal_strlit("Focus Mode");
    reveal_strlit("Rotation Z");
    assert("Rotation Z"@[0] != "Focus Mode"@[0]);
    reveal_strlit("Focus Mode");
    reveal_strlit("Play Begin");
    assert("Play Begin"@[0] != "Focus Mode"@[0]);
    reveal_strlit("Focus Mode");
    reveal_strlit("Play Speed");
    assert("Play Speed"@[0] != "Focus Mode"@[0]);
    reveal_strlit("Focus Mode");
    reveal_strlit("Red-Yellow");
    assert("Red-Yellow"@[0] != "Focus Mode"@[0]);
    reveal_strlit("Focus Mode");
    reveal_strlit("Green-Cyan");
    assert("Green-Cyan"@[0] != "Focus Mode"@[0]);
    reveal_strlit("Focus Mode");
    reveal_strlit("Warm White");
    assert("Warm White"@[0] != "Focus Mode"@[0]);
    reveal_strlit("Focus Mode");
    reveal_strlit("Cool White");
    assert("Cool White"@[0] != "Focus Mode"@[0]);
    reveal_strlit("Iris Mode");
    reveal_strlit("Scale XYZ");
    assert("Scale XYZ"@[0] != "Iris Mode"@[0]);
    reveal_strlit("Iris Mode");
    reveal_strlit("Play Mode");
    assert("Play Mode"@[0] != "Iris Mode"@[0]);
    reveal_strlit("Iris Mode");
    reveal_strlit("Blue-Cyan");
    assert("Blue-Cyan"@[0] != "Iris Mode"@[0]);
}

/// No pretty name of part 2 occurs in part 1.
proof fn lemma_pretties_2_not_in_1()
    ensures
        pretty_lookup_1("Iris Random Pulse Close"@) is None,
        pretty_lookup_1("Iris Random Pulse Open"@) is None,
        pretty_lookup_1("Effects Sync"@) is None,
        pretty_lookup_1("Beam Shaper"@) is None,
        pretty_lookup_1("Beam Shaper Macro"@) is None,
        pretty_lookup_1("Beam Shaper Position"@) is None,
        pretty_lookup_1("Beam Shaper Position Rotate"@) is None,
        pretty_lookup_1("Zoom"@) is None,
        pretty_lookup_1("Zoom Mode Spot"@) is None,
        pretty_lookup_1("Zoom Mode Beam"@) is None,
        pretty_lookup_1("Digital Zoom"@) is None,
        pretty_lookup_1("Dimmer Mode"@) is None,
        pretty_lookup_1("Dimmer Curve"@) is None,
        pretty_lookup_1("Blackout Mode"@) is None,
        pretty_lookup_1("LED Frequency"@) is None,
        pretty_lookup_1("LED Zone Mode"@) is None,
        pretty_lookup_1("Pixel Mode"@) is None,
        pretty_lookup_1("Pan Mode"@) is None,
        pretty_lookup_1("Tilt Mode"@) is None,
        pretty_lookup_1("Pan Tilt Mode"@) is None,
        pretty_lookup_1("Position Modes"@) is None,
        pretty_lookup_1("Gobo Wheel Shortcut Mode"@) is None,
        pretty_lookup_1("Animation Wheel Shortcut Mode"@) is None,
        pretty_lookup_1("Color Wheel Shortcut Mode"@) is None,
        pretty_lookup_1("Cyan Mode"@) is None,
        pretty_lookup_1("Magenta Mode"@) is None,
        pretty_lookup_1("Yellow Mode"@) is None,
        pretty_lookup_1("Color Mix Mode"@) is None,
        pretty_lookup_1("Chromatic Mode"@) is None,
        pretty_lookup_1("Color Calibration Mode"@) is None,
        pretty_lookup_1("Color Consistency"@) is None,
        pretty_lookup_1("Color Control"@) is None,
        pretty_lookup_1("Color Model Mode"@) is None,
        pretty_lookup_1("Color Settings Reset"@) is None,
        pretty_lookup_1("Color Uniformity"@) is None,
        pretty_lookup_1("CRI Mode"@) is None,
        pretty_lookup_1("Custom Color"@) is None,
        pretty_lookup_1("UV Stability"@) is None,
        pretty_lookup_1("Wavelength Correction"@) is None,
        pretty_lookup_1("White Count"@) is None,
        pretty_lookup_1("Strobe Mode"@) is None,
        pretty_lookup_1("Zoom Mode"@) is None,
        pretty_lookup_1("Focus Mode"@) is None,
        pretty_lookup_1("Iris Mode"@) is None,
        pretty_lookup_1("Follow Spot Mode"@) is None,
        pretty_lookup_1("Beam Effect Index Rotate Mode"@) is None,
{
    reveal(pretty_lookup_1);
    lemma_pretty_lengths_1();
    lemma_pretty_lengths_2();
    reveal_strlit("Iris Random Pulse Close");
    reveal_strlit("Strobe Mode Pulse Close");
    assert("Strobe Mode Pulse Close"@[0] != "Iris Random Pulse Close"@[0]);
    reveal_strlit("Iris Random Pulse Open");
    reveal_strlit("Strobe Mode Pulse Open");
    assert("Strobe Mode Pulse Open"@[0] != "Iris Random Pulse Open"@[0]);
    reveal_strlit("Beam Shaper");
    reveal_strlit("HSB Quality");
    assert("HSB Quality"@[0] != "Beam Shaper"@[0]);
    reveal_strlit("Beam Shaper");
    reveal_strlit("RGB Magenta");
    assert("RGB Magenta"@[0] != "Beam Shaper"@[0]);
    reveal_strlit("Beam Shaper");
    reveal_strlit("RGB Quality");
    assert("RGB Quality"@[0] != "Beam Shaper"@[0]);
    reveal_strlit("Beam Shaper");
    reveal_strlit("Strobe Rate");
    assert("Strobe Rate"@[0] != "Beam Shaper"@[0]);
    reveal_strlit("Beam Shaper");
    reveal_strlit("Iris Strobe");
    assert("Iris Strobe"@[0] != "Beam Shaper"@[0]);
    reveal_strlit("Beam Shaper Macro");
    reveal_strlit("Video Boost Green");
    assert("Video Boost Green"@[0] != "Beam Shaper Macro"@[0]);
    reveal_strlit("Beam Shaper Macro");
    reveal_strlit("Strobe Mode Pulse");
    assert("Strobe Mode Pulse"@[0] != "Beam Shaper Macro"@[0]);
    reveal_strlit("Beam Shaper Position");
    reveal_strlit("Video Key Color Blue");
    assert("Video Key Color Blue"@[0] != "Beam Shaper Position"@[0]);
    reveal_strlit("Zoom");
    reveal_strlit("Tint");
    assert("Tint"@[0] != "Zoom"@[0]);
    reveal_strlit("Zoom");
    reveal_strlit("Iris");
    assert("Iris"@[0] != "Zoom"@[0]);
    reveal_strlit("Zoom Mode Spot");
    reveal_strlit("HSB Saturation");
    assert("HSB Saturation"@[0] != "Zoom Mode Spot"@[0]);
    reveal_strlit("Zoom Mode Spot");
    reveal_strlit("HSB Brightness");
    assert("HSB Brightness"@[0] != "Zoom Mode Spot"@[0]);
    reveal_strlit("Zoom Mode Spot");
    reveal_strlit("CIE Brightness");
    assert("CIE Brightness"@[0] != "Zoom Mode Spot"@[0]);
    reveal_strlit("Zoom Mode Spot");
    reveal_strlit("Video Contrast");
    assert("Video Contrast"@[0] != "Zoom Mode Spot"@[0]);
    reveal_strlit("Zoom Mode Beam");
    reveal_strlit("HSB Saturation");
    assert("HSB Saturation"@[0] != "Zoom Mode Beam"@[0]);
    reveal_strlit("Zoom Mode Beam");
    reveal_strlit("HSB Brightness");
    assert("HSB Brightness"@[0] != "Zoom Mode Beam"@[0]);
    reveal_strlit("Zoom Mode Beam");
    reveal_strlit("CIE Brightness");
    assert("CIE Brightness"@[0] != "Zoom Mode Beam"@[0]);
    reveal_strlit("Zoom Mode Beam");
    reveal_strlit("Video Contrast");
    assert("Video Contrast"@[0] != "Zoom Mode Beam"@[0]);
    reveal_strlit("Dimmer Mode");
    reveal_strlit("HSB Quality");
    assert("HSB Quality"@[0] != "Dimmer Mode"@[0]);
    reveal_strlit("Dimmer Mode");
    reveal_strlit("RGB Magenta");
    assert("RGB Magenta"@[0] != "Dimmer Mode"@[0]);
    reveal_strlit("Dimmer Mode");
    reveal_strlit("RGB Quality");
    assert("RGB Quality"@[0] != "Dimmer Mode"@[0]);
    reveal_strlit("Dimmer Mode");
    reveal_strlit("Strobe Rate");
    assert("Strobe Rate"@[0] != "Dimmer Mode"@[0]);
    reveal_strlit("Dimmer Mode");
    reveal_strlit("Iris Strobe");
    assert("Iris Strobe"@[0] != "Dimmer Mode"@[0]);
    reveal_strlit("Pixel Mode");
    reveal_strlit("RGB Yellow");
    assert("RGB Yellow"@[0] != "Pixel Mode"@[0]);
    reveal_strlit("Pan Mode");
    reveal_strlit("RGB Blue");
    assert("RGB Blue"@[0] != "Pan Mode"@[0]);
    reveal_strlit("Pan Mode");
    reveal_strlit("RGB Cyan");
    assert("RGB Cyan"@[0] != "Pan Mode"@[0]);
    reveal_strlit("Tilt Mode");
    reveal_strlit("RGB Green");
    assert("RGB Green"@[0] != "Tilt Mode"@[0]);
    reveal_strlit("Position Modes");
    reveal_strlit("HSB Saturation");
    assert("HSB Saturation"@[0] != "Position Modes"@[0]);
    reveal_strlit("Position Modes");
    reveal_strlit("HSB Brightness");
    assert("HSB Brightness"@[0] != "Position Modes"@[0]);
    reveal_strlit("Position Modes");
    reveal_strlit("CIE Brightness");
    assert("CIE Brightness"@[0] != "Position Modes"@[0]);
    reveal_strlit("Position Modes");
    reveal_strlit("Video Contrast");
    assert("Video Contrast"@[0] != "Position Modes"@[0]);
    reveal_strlit("Gobo Wheel Shortcut Mode");
    reveal_strlit("Strobe Mode Random Pulse");
    assert("Strobe Mode Random Pulse"@[0] != "Gobo Wheel Shortcut Mode"@[0]);
    reveal_strlit("Animation Wheel Shortcut Mode");
    reveal_strlit("Strobe Mode Random Pulse Open");
    assert("Strobe Mode Random Pulse Open"@[0] != "Animation Wheel Shortcut Mode"@[0]);
    reveal_strlit("Cyan Mode");
    reveal_strlit("RGB Green");
    assert("RGB Green"@[0] != "Cyan Mode"@[0]);
    reveal_strlit("Yellow Mode");
    reveal_strlit("HSB Quality");
    assert("HSB Quality"@[0] != "Yellow Mode"@[0]);
    reveal_strlit("Yellow Mode");
    reveal_strlit("RGB Magenta");
    assert("RGB Magenta"@[0] != "Yellow Mode"@[0]);
    reveal_strlit("Yellow Mode");
    reveal_strlit("RGB Quality");
    assert("RGB Quality"@[0] != "Yellow Mode"@[0]);
    reveal_strlit("Yellow Mode");
    reveal_strlit("Strobe Rate");
    assert("Strobe Rate"@[0] != "Yellow Mode"@[0]);
    reveal_strlit("Yellow Mode");
    reveal_strlit("Iris Strobe");
    assert("Iris Strobe"@[0] != "Yellow Mode"@[0]);
    reveal_strlit("Color Mix Mode");
    reveal_strlit("HSB Saturation");
    assert("HSB Saturation"@[0] != "Color Mix Mode"@[0]);
    reveal_strlit("Color Mix Mode");
    reveal_strlit("HSB Brightness");
    assert("HSB Brightness"@[0] != "Color Mix Mode"@[0]);
    reveal_strlit("Color Mix Mode");
    reveal_strlit("CIE Brightness");
    assert("CIE Brightness"@[1] != "Color Mix Mode"@[1]);
    reveal_strlit("Color Mix Mode");
    reveal_strlit("Video Contrast");
    assert("Video Contrast"@[0] != "Color Mix Mode"@[0]);
    reveal_strlit("Chromatic Mode");
    reveal_strlit("HSB Saturation");
    assert("HSB Saturation"@[0] != "Chromatic Mode"@[0]);
    reveal_strlit("Chromatic Mode");
    reveal_strlit("HSB Brightness");
    assert("HSB Brightness"@[0] != "Chromatic Mode"@[0]);
    reveal_strlit("Chromatic Mode");
    reveal_strlit("CIE Brightness");
    assert("CIE Brightness"@[1] != "Chromatic Mode"@[1]);
    reveal_strlit("Chromatic Mode");
    reveal_strlit("Video Contrast");
    assert("Video Contrast"@[0] != "Chromatic Mode"@[0]);
    reveal_strlit("Color Calibration Mode");
    reveal_strlit("Strobe Mode Pulse Open");
    assert("Strobe Mode Pulse Open"@[0] != "Color Calibration Mode"@[0]);
    reveal_strlit("Color Consistency");
    reveal_strlit("Video Boost Green");
    assert("Video Boost Green"@[0] != "Color Consistency"@[0]);
    reveal_strlit("Color Consistency");
    reveal_strlit("Strobe Mode Pulse");
    assert("Strobe Mode Pulse"@[0] != "Color Consistency"@[0]);
    reveal_strlit("Color Model Mode");
    reveal_strlit("Video Boost Blue");
    assert("Video Boost Blue"@[0] != "Color Model Mode"@[0]);
    reveal_strlit("Color Model Mode");
    reveal_strlit("Video Saturation");
    assert("Video Saturation"@[0] != "Color Model Mode"@[0]);
    reveal_strlit("Color Model Mode");
    reveal_strlit("Video Brightness");
    assert("Video Brightness"@[0] != "Color Model Mode"@[0]);
    reveal_strlit("Color Model Mode");
    reveal_strlit("Strobe Frequency");
    assert("Strobe Frequency"@[0] != "Color Model Mode"@[0]);
    reveal_strlit("Color Model Mode");
    reveal_strlit("Iris Pulse Close");
    assert("Iris Pulse Close"@[0] != "Color Model Mode"@[0]);
    reveal_strlit("Color Settings Reset");
    reveal_strlit("Video Key Color Blue");
    assert("Video Key Color Blue"@[0] != "Color Settings Reset"@[0]);
    reveal_strlit("Color Uniformity");
    reveal_strlit("Video Boost Blue");
    assert("Video Boost Blue"@[0] != "Color Uniformity"@[0]);
    reveal_strlit("Color Uniformity");
    reveal_strlit("Video Saturation");
    assert("Video Saturation"@[0] != "Color Uniformity"@[0]);
    reveal_strlit("Color Uniformity");
    reveal_strlit("Video Brightness");
    assert("Video Brightness"@[0] != "Color Uniformity"@[0]);
    reveal_strlit("Color Uniformity");
    reveal_strlit("Strobe Frequency");
    assert("Strobe Frequency"@[0] != "Color Uniformity"@[0]);
    reveal_strlit("Color Uniformity");
    reveal_strlit("Iris Pulse Close");
    assert("Iris Pulse Close"@[0] != "Color Uniformity"@[0]);
    reveal_strlit("CRI Mode");
    reveal_strlit("RGB Blue");
    assert("RGB Blue"@[0] != "CRI Mode"@[0]);
    reveal_strlit("CRI Mode");
    reveal_strlit("RGB Cyan");
    assert("RGB Cyan"@[0] != "CRI Mode"@[0]);
    reveal_strlit("Wavelength Correction");
    reveal_strlit("Video Key Color Green");
    assert("Video Key Color Green"@[0] != "Wavelength Correction"@[0]);
    reveal_strlit("White Count");
    reveal_strlit("HSB Quality");
    assert("HSB Quality"@[0] != "White Count"@[0]);
    reveal_strlit("White Count");
    reveal_strlit("RGB Magenta");
    assert("RGB Magenta"@[0] != "White Count"@[0]);
    reveal_strlit("White Count");
    reveal_strlit("RGB Quality");
    assert("RGB Quality"@[0] != "White Count"@[0]);
    reveal_strlit("White Count");
    reveal_strlit("Strobe Rate");
    assert("Strobe Rate"@[0] != "White Count"@[0]);
    reveal_strlit("White Count");
    reveal_strlit("Iris Strobe");
    assert("Iris Strobe"@[0] != "White Count"@[0]);
    reveal_strlit("Strobe Mode");
    reveal_strlit("HSB Quality");
    assert("HSB Quality"@[0] != "Strobe Mode"@[0]);
    reveal_strlit("Strobe Mode");
    reveal_strlit("RGB Magenta");
    assert("RGB Magenta"@[0] != "Strobe Mode"@[0]);
    reveal_strlit("Strobe Mode");
    reveal_strlit("RGB Quality");
    assert("RGB Quality"@[0] != "Strobe Mode"@[0]);
    reveal_strlit("Strobe Mode");
    reveal_strlit("Strobe Rate");
    assert("Strobe Rate"@[7] != "Strobe Mode"@[7]);
    reveal_strlit("Strobe Mode");
    reveal_strlit("Iris Strobe");
    assert("Iris Strobe"@[0] != "Strobe Mode"@[0]);
    reveal_strlit("Zoom Mode");
    reveal_strlit("RGB Green");
    assert("RGB Green"@[0] != "Zoom Mode"@[0]);
    reveal_strlit("Focus Mode");
    reveal_strlit("RGB Yellow");
    assert("RGB Yellow"@[0] != "Focus Mode"@[0]);
    reveal_strlit("Iris Mode");
    reveal_strlit("RGB Green");
    assert("RGB Green"@[0] != "Iris Mode"@[0]);
    reveal_strlit("Follow Spot Mode");
    reveal_strlit("Video Boost Blue");
    assert("Video Boost Blue"@[0] != "Follow Spot Mode"@[0]);
    reveal_strlit("Follow Spot Mode");
    reveal_strlit("Video Saturation");
    assert("Video Saturation"@[0] != "Follow Spot Mode"@[0]);
    reveal_strlit("Follow Spot Mode");
    reveal_strlit("Video Brightness");
    assert("Video Brightness"@[0] != "Follow Spot Mode"@[0]);
    reveal_strlit("Follow Spot Mode");
    reveal_strlit("Strobe Frequency");
    assert("Strobe Frequency"@[0] != "Follow Spot Mode"@[0]);
    reveal_strlit("Follow Spot Mode");
    reveal_strlit("Iris Pulse Close");
    assert("Iris Pulse Close"@[0] != "Follow Spot Mode"@[0]);
    reveal_strlit("Beam Effect Index Rotate Mode");
    reveal_strlit("Strobe Mode Random Pulse Open");
    assert("Strobe Mode Random Pulse Open"@[0] != "Beam Effect Index Rotate Mode"@[0]);
}

/// Each pretty name of part 3 is found in that part as its own attribute.
proof fn lemma_pretties_3_read()
    ensures
        pretty_lookup_3("Intensity MSpeed"@) == Some(FixtureChannel3Attribute::IntensityMSpeed),
        pretty_lookup_3("Position MSpeed"@) == Some(FixtureChannel3Attribute::PositionMSpeed),
        pretty_lookup_3("Color Mix MSpeed"@) == Some(FixtureChannel3Attribute::ColorMixMSpeed),
        pretty_lookup_3("Color Wheel Select MSpeed"@) == Some(FixtureChannel3Attribute::ColorWheelSelectMSpeed),
        pretty_lookup_3("Iris MSpeed"@) == Some(FixtureChannel3Attribute::IrisMSpeed),
        pretty_lookup_3("Focus MSpeed"@) == Some(FixtureChannel3Attribute::FocusMSpeed),
        pretty_lookup_3("Zoom MSpeed"@) == Some(FixtureChannel3Attribute::ZoomMSpeed),
        pretty_lookup_3("Frame MSpeed"@) == Some(FixtureChannel3Attribute::FrameMSpeed),
        pretty_lookup_3("Global MSpeed"@) == Some(FixtureChannel3Attribute::GlobalMSpeed),
        pretty_lookup_3("Reflector Adjust"@) == Some(FixtureChannel3Attribute::ReflectorAdjust),
        pretty_lookup_3("Fixture Global Reset"@) == Some(FixtureChannel3Attribute::FixtureGlobalReset),
        pretty_lookup_3("Dimmer Reset"@) == Some(FixtureChannel3Attribute::DimmerReset),
        pretty_lookup_3("Shutter Reset"@) == Some(FixtureChannel3Attribute::ShutterReset),
        pretty_lookup_3("Beam Reset"@) == Some(FixtureChannel3Attribute::BeamReset),
        pretty_lookup_3("Color Mix Reset"@) == Some(FixtureChannel3Attribute::ColorMixReset),
        pretty_lookup_3("Color Wheel Reset"@) == Some(FixtureChannel3Attribute::ColorWheelReset),
        pretty_lookup_3("Focus Reset"@) == Some(FixtureChannel3Attribute::FocusReset),
        pretty_lookup_3("Frame Reset"@) == Some(FixtureChannel3Attribute::FrameReset),
        pretty_lookup_3("Gobo Wheel Reset"@) == Some(FixtureChannel3Attribute::GoboWheelReset),
        pretty_lookup_3("Intensity Reset"@) == Some(FixtureChannel3Attribute::IntensityReset),
        pretty_lookup_3("Iris Reset"@) == Some(FixtureChannel3Attribute::IrisReset),
        pretty_lookup_3("Position Reset"@) == Some(FixtureChannel3Attribute::PositionReset),
        pretty_lookup_3("Pan Reset"@) == Some(FixtureChannel3Attribute::PanReset),
        pretty_lookup_3("Tilt Reset"@) == Some(FixtureChannel3Attribute::TiltReset),
        pretty_lookup_3("Zoom Reset"@) == Some(FixtureChannel3Attribute::ZoomReset),
        pretty_lookup_3("CTB Reset"@) == Some(FixtureChannel3Attribute::CtbReset),
        pretty_lookup_3("CTO Reset"@) == Some(FixtureChannel3Attribute::CtoReset),
        pretty_lookup_3("CTC Reset"@) == Some(FixtureChannel3Attribute::CtcReset),
        pretty_lookup_3("Animation System Reset"@) == Some(FixtureChannel3Attribute::AnimationSystemReset),
        pretty_lookup_3("Fixture Calibration Reset"@) == Some(FixtureChannel3Attribute::FixtureCalibrationReset),
        pretty_lookup_3("Function"@) == Some(FixtureChannel3Attribute::Function),
        pretty_lookup_3("Lamp Control"@) == Some(FixtureChannel3Attribute::LampControl),
        pretty_lookup_3("Display Intensity"@) == Some(FixtureChannel3Attribute::DisplayIntensity),
        pretty_lookup_3("DMX Input"@) == Some(FixtureChannel3Attribute::DmxInput),
        pretty_lookup_3("No Feature"@) == Some(FixtureChannel3Attribute::NoFeature),
        pretty_lookup_3("Lamp Power Mode"@) == Some(FixtureChannel3Attribute::LampPowerMode),
        pretty_lookup_3("Fans"@) == Some(FixtureChannel3Attribute::Fans),
        pretty_lookup_3("Shaper Rotation"@) == Some(FixtureChannel3Attribute::ShaperRot),
        pretty_lookup_3("Shaper Macros"@) == Some(FixtureChannel3Attribute::ShaperMacros),
        pretty_lookup_3("Shaper Macros Speed"@) == Some(FixtureChannel3Attribute::ShaperMacrosSpeed),
        pretty_lookup_3("Video"@) == Some(FixtureChannel3Attribute::Video),
        pretty_lookup_3("Video Blend Mode"@) == Some(FixtureChannel3Attribute::VideoBlendMode),
        pretty_lookup_3("Input Source"@) == Some(FixtureChannel3Attribute::InputSource),
        pretty_lookup_3("Field of View"@) == Some(FixtureChannel3Attribute::FieldOfView),
{
    reveal(pretty_lookup_3);
    lemma_pretty_lengths_3();
    reveal_strlit("Color Mix MSpeed");
    reveal_strlit("Intensity MSpeed");
    assert("Intensity MSpeed"@[0] != "Color Mix MSpeed"@[0]);
    reveal_strlit("Zoom MSpeed");
    reveal_strlit("Iris MSpeed");
    assert("Iris MSpeed"@[0] != "Zoom MSpeed"@[0]);
    reveal_strlit("Frame MSpeed");
    reveal_strlit("Focus MSpeed");
    assert("Focus MSpeed"@[1] != "Frame MSpeed"@[1]);
    reveal_strlit("Reflector Adjust");
    reveal_strlit("Intensity MSpeed");
    assert("Intensity MSpeed"@[0] != "Reflector Adjust"@[0]);
    reveal_strlit("Reflector Adjust");
    reveal_strlit("Color Mix MSpeed");
    assert("Color Mix MSpeed"@[0] != "Reflector Adjust"@[0]);
    reveal_strlit("Dimmer Reset");
    reveal_strlit("Focus MSpeed");
    assert("Focus MSpeed"@[0] != "Dimmer Reset"@[0]);
    reveal_strlit("Dimmer Reset");
    reveal_strlit("Frame MSpeed");
    assert("Frame MSpeed"@[0] != "Dimmer Reset"@[0]);
    reveal_strlit("Shutter Reset");
    reveal_strlit("Global MSpeed");
    assert("Global MSpeed"@[0] != "Shutter Reset"@[0]);
    reveal_strlit("Color Mix Reset");
    reveal_strlit("Position MSpeed");
    assert("Position MSpeed"@[0] != "Color Mix Reset"@[0]);
    reveal_strlit("Focus Reset");
    reveal_strlit("Iris MSpeed");
    assert("Iris MSpeed"@[0] != "Focus Reset"@[0]);
    reveal_strlit("Focus Reset");
    reveal_strlit("Zoom MSpeed");
    assert("Zoom MSpeed"@[0] != "Focus Reset"@[0]);
    reveal_strlit("Frame Reset");
    reveal_strlit("Iris MSpeed");
    assert("Iris MSpeed"@[0] != "Frame Reset"@[0]);
    reveal_strlit("Frame Reset");
    reveal_strlit("Zoom MSpeed");
    assert("Zoom MSpeed"@[0] != "Frame Reset"@[0]);
    reveal_strlit("Frame Reset");
    reveal_strlit("Focus Reset");
    assert("Focus Reset"@[1] != "Frame Reset"@[1]);
    reveal_strlit("Gobo Wheel Reset");
    reveal_strlit("Intensity MSpeed");
    assert("Intensity MSpeed"@[0] != "Gobo Wheel Reset"@[0]);
    reveal_strlit("Gobo Wheel Reset");
    reveal_strlit("Color Mix MSpeed");
    assert("Color Mix MSpeed"@[0] != "Gobo Wheel Reset"@[0]);
    reveal_strlit("Gobo Wheel Reset");
    reveal_strlit("Reflector Adjust");
    assert("Reflector Adjust"@[0] != "Gobo Wheel Reset"@[0]);
    reveal_strlit("Intensity Reset");
    reveal_strlit("Position MSpeed");
    assert("Position MSpeed"@[0] != "Intensity Reset"@[0]);
    reveal_strlit("Intensity Reset");
    reveal_strlit("Color Mix Reset");
    assert("Color Mix Reset"@[0] != "Intensity Reset"@[0]);
    reveal_strlit("Iris Reset");
    reveal_strlit("Beam Reset");
    assert("Beam Reset"@[0] != "Iris Reset"@[0]);
    reveal_strlit("Tilt Reset");
    reveal_strlit("Beam Reset");
    assert("Beam Reset"@[0] != "Tilt Reset"@[0]);
    reveal_strlit("Tilt Reset");
    reveal_strlit("Iris Reset");
    assert("Iris Reset"@[0] != "Tilt Reset"@[0]);
    reveal_strlit("Zoom Reset");
    reveal_strlit("Beam Reset");
    assert("Beam Reset"@[0] != "Zoom Reset"@[0]);
    reveal_strlit("Zoom Reset");
    reveal_strlit("Iris Reset");
    assert("Iris Reset"@[0] != "Zoom Reset"@[0]);
    reveal_strlit("Zoom Reset");
    reveal_strlit("Tilt Reset");
    assert("Tilt Reset"@[0] != "Zoom Reset"@[0]);
    reveal_strlit("CTB Reset");
    reveal_strlit("Pan Reset");
    assert("Pan Reset"@[0] != "CTB Reset"@[0]);
    reveal_strlit("CTO Reset");
    reveal_strlit("Pan Reset");
    assert("Pan Reset"@[0] != "CTO Reset"@[0]);
    reveal_strlit("CTO Reset");
    reveal_strlit("CTB Reset");
    assert("CTB Reset"@[2] != "CTO Reset"@[2]);
    reveal_strlit("CTC Reset");
    reveal_strlit("Pan Reset");
    assert("Pan Reset"@[0] != "CTC Reset"@[0]);
    reveal_strlit("CTC Reset");
    reveal_strlit("CTB Reset");
    assert("CTB Reset"@[2] != "CTC Reset"@[2]);
    reveal_strlit("CTC Reset");
    reveal_strlit("CTO Reset");
    assert("CTO Reset"@[2] != "CTC Reset"@[2]);
    reveal_strlit("Fixture Calibration Reset");
    reveal_strlit("Color Wheel Select MSpeed");
    assert("Color Wheel Select MSpeed"@[0] != "Fixture Calibration Reset"@[0]);
    reveal_strlit("Lamp Control");
    reveal_strlit("Focus MSpeed");
    assert("Focus MSpeed"@[0] != "Lamp Control"@[0]);
    reveal_strlit("Lamp Control");
    reveal_strlit("Frame MSpeed");
    assert("Frame MSpeed"@[0] != "Lamp Control"@[0]);
    reveal_strlit("Lamp Control");
    reveal_strlit("Dimmer Reset");
    assert("Dimmer Reset"@[0] != "Lamp Control"@[0]);
    reveal_strlit("Display Intensity");
    reveal_strlit("Color Wheel Reset");
    assert("Color Wheel Reset"@[0] != "Display Intensity"@[0]);
    reveal_strlit("DMX Input");
    reveal_strlit("Pan Reset");
    assert("Pan Reset"@[0] != "DMX Input"@[0]);
    reveal_strlit("DMX Input");
    reveal_strlit("CTB Reset");
    assert("CTB Reset"@[0] != "DMX Input"@[0]);
    reveal_strlit("DMX Input");
    reveal_strlit("CTO Reset");
    assert("CTO Reset"@[0] != "DMX Input"@[0]);
    reveal_strlit("DMX Input");
    reveal_strlit("CTC Reset");
    assert("CTC Reset"@[0] != "DMX Input"@[0]);
    reveal_strlit("No Feature");
    reveal_strlit("Beam Reset");
    assert("Beam Reset"@[0] != "No Feature"@[0]);
    reveal_strlit("No Feature");
    reveal_strlit("Iris Reset");
    assert("Iris Reset"@[0] != "No Feature"@[0]);
    reveal_strlit("No Feature");
    reveal_strlit("Tilt Reset");
    assert("Tilt Reset"@[0] != "No Feature"@[0]);
    reveal_strlit("No Feature");
    reveal_strlit("Zoom Reset");
    assert("Zoom Reset"@[0] != "No Feature"@[0]);
    reveal_strlit("Lamp Power Mode");
    reveal_strlit("Position MSpeed");
    assert("Position MSpeed"@[0] != "Lamp Power Mode"@[0]);
    reveal_strlit("Lamp Power Mode");
    reveal_strlit("Color Mix Reset");
    assert("Color Mix Reset"@[0] != "Lamp Power Mode"@[0]);
    reveal_strlit("Lamp Power Mode");
    reveal_strlit("Intensity Reset");
    assert("Intensity Reset"@[0] != "Lamp Power Mode"@[0]);
    reveal_strlit("Shaper Rotation");
    reveal_strlit("Position MSpeed");
    assert("Position MSpeed"@[0] != "Shaper Rotation"@[0]);
    reveal_strlit("Shaper Rotation");
    reveal_strlit("Color Mix Reset");
    assert("Color Mix Reset"@[0] != "Shaper Rotation"@[0]);
    reveal_strlit("Shaper Rotation");
    reveal_strlit("Intensity Reset");
    assert("Intensity Reset"@[0] != "Shaper Rotation"@[0]);
    reveal_strlit("Shaper Rotation");
    reveal_strlit("Lamp Power Mode");
    assert("Lamp Power Mode"@[0] != "Shaper Rotation"@[0]);
    reveal_strlit("Shaper Macros");
    reveal_strlit("Global MSpeed");
    assert("Global MSpeed"@[0] != "Shaper Macros"@[0]);
    reveal_strlit("Shaper Macros");
    reveal_strlit("Shutter Reset");
    assert("Shutter Reset"@[2] != "Shaper Macros"@[2]);
    reveal_strlit("Video Blend Mode");
    reveal_strlit("Intensity MSpeed");
    assert("Intensity MSpeed"@[0] != "Video Blend Mode"@[0]);
    reveal_strlit("Video Blend Mode");
    reveal_strlit("Color Mix MSpeed");
    assert("Color Mix MSpeed"@[0] != "Video Blend Mode"@[0]);
    reveal_strlit("Video Blend Mode");
    reveal_strlit("Reflector Adjust");
    assert("Reflector Adjust"@[0] != "Video Blend Mode"@[0]);
    reveal_strlit("Video Blend Mode");
    reveal_strlit("Gobo Wheel Reset");
    assert("Gobo Wheel Reset"@[0] != "Video Blend Mode"@[0]);
    reveal_strlit("Input Source");
    reveal_strlit("Focus MSpeed");
    assert("Focus MSpeed"@[0] != "Input Source"@[0]);
    reveal_strlit("Input Source");
    reveal_strlit("Frame MSpeed");
    assert("Frame MSpeed"@[0] != "Input Source"@[0]);
    reveal_strlit("Input Source");
    reveal_strlit("Dimmer Reset");
    assert("Dimmer Reset"@[0] != "Input Source"@[0]);
    reveal_strlit("Input Source");
    reveal_strlit("Lamp Control");
    assert("Lamp Control"@[0] != "Input Source"@[0]);
    reveal_strlit("Field of View");
    reveal_strlit("Global MSpeed");
    assert("Global MSpeed"@[0] != "Field of View"@[0]);
    reveal_strlit("Field of View");
    reveal_strlit("Shutter Reset");
    assert("Shutter Reset"@[0] != "Field of View"@[0]);
    reveal_strlit("Field of View");
    reveal_strlit("Shaper Macros");
    assert("Shaper Macros"@[0] != "Field of View"@[0]);
}

/// No pretty name of part 3 occurs in part 0.
proof fn lemma_pretties_3_not_in_0()
    ensures
        pretty_lookup_0("Intensity MSpeed"@) is None,
        pretty_lookup_0("Position MSpeed"@) is None,
        pretty_lookup_0("Color Mix MSpeed"@) is None,
        pretty_lookup_0("Color Wheel Select MSpeed"@) is None,
        pretty_lookup_0("Iris MSpeed"@) is None,
        pretty_lookup_0("Focus MSpeed"@) is None,
        pretty_lookup_0("Zoom MSpeed"@) is None,
        pretty_lookup_0("Frame MSpeed"@) is None,
        pretty_lookup_0("Global MSpeed"@) is None,
        pretty_lookup_0("Reflector Adjust"@) is None,
        pretty_lookup_0("Fixture Global Reset"@) is None,
        pretty_lookup_0("Dimmer Reset"@) is None,
        pretty_lookup_0("Shutter Reset"@) is None,
        pretty_lookup_0("Beam Reset"@) is None,
        pretty_lookup_0("Color Mix Reset"@) is None,
        pretty_lookup_0("Color Wheel Reset"@) is None,
        pretty_lookup_0("Focus Reset"@) is None,
        pretty_lookup_0("Frame Reset"@) is None,
        pretty_lookup_0("Gobo Wheel Reset"@) is None,
        pretty_lookup_0("Intensity Reset"@) is None,
        pretty_lookup_0("Iris Reset"@) is None,
        pretty_lookup_0("Position Reset"@) is None,
        pretty_lookup_0("Pan Reset"@) is None,
        pretty_lookup_0("Tilt Reset"@) is None,
        pretty_lookup_0("Zoom Reset"@) is None,
        pretty_lookup_0("CTB Reset"@) is None,
        pretty_lookup_0("CTO Reset"@) is None,
        pretty_lookup_0("CTC Reset"@) is None,
        pretty_lookup_0("Animation System Reset"@) is None,
        pretty_lookup_0("Fixture Calibration Reset"@) is None,
        pretty_lookup_0("Function"@) is None,
        pretty_lookup_0("Lamp Control"@) is None,
        pretty_lookup_0("Display Intensity"@) is None,
        pretty_lookup_0("DMX Input"@) is None,
        pretty_lookup_0("No Feature"@) is None,
        pretty_lookup_0("Lamp Power Mode"@) is None,
        pretty_lookup_0("Fans"@) is None,
        pretty_lookup_0("Shaper Rotation"@) is None,
        pretty_lookup_0("Shaper Macros"@) is None,
        pretty_lookup_0("Shaper Macros Speed"@) is None,
        pretty_lookup_0("Video"@) is None,
        pretty_lookup_0("Video Blend Mode"@) is None,
        pretty_lookup_0("Input Source"@) is None,
        pretty_lookup_0("Field of View"@) is None,
{
    reveal(pretty_lookup_0);
    lemma_pretty_lengths_0();
    lemma_pretty_lengths_3();
    reveal_strlit("Position MSpeed");
    reveal_strlit("Position Effect");
    assert("Position Effect"@[9] != "Position MSpeed"@[9]);
    reveal_strlit("Iris MSpeed");
    reveal_strlit("Tilt Rotate");
    assert("Tilt Rotate"@[0] != "Iris MSpeed"@[0]);
    reveal_strlit("Iris MSpeed");
    reveal_strlit("Red-Magenta");
    assert("Red-Magenta"@[0] != "Iris MSpeed"@[0]);
    reveal_strlit("Focus MSpeed");
    reveal_strlit("Green-Yellow");
    assert("Green-Yellow"@[0] != "Focus MSpeed"@[0]);
    reveal_strlit("Focus MSpeed");
    reveal_strlit("Blue-Magenta");
    assert("Blue-Magenta"@[0] != "Focus MSpeed"@[0]);
    reveal_strlit("Zoom MSpeed");
    reveal_strlit("Tilt Rotate");
    assert("Tilt Rotate"@[0] != "Zoom MSpeed"@[0]);
    reveal_strlit("Zoom MSpeed");
    reveal_strlit("Red-Magenta");
    assert("Red-Magenta"@[0] != "Zoom MSpeed"@[0]);
    reveal_strlit("Frame MSpeed");
    reveal_strlit("Green-Yellow");
    assert("Green-Yellow"@[0] != "Frame MSpeed"@[0]);
    reveal_strlit("Frame MSpeed");
    reveal_strlit("Blue-Magenta");
    assert("Blue-Magenta"@[0] != "Frame MSpeed"@[0]);
    reveal_strlit("Fixture Global Reset");
    reveal_strlit("Position Effect Rate");
    assert("Position Effect Rate"@[0] != "Fixture Global Reset"@[0]);
    reveal_strlit("Fixture Global Reset");
    reveal_strlit("Position Effect Fade");
    assert("Position Effect Fade"@[0] != "Fixture Global Reset"@[0]);
    reveal_strlit("Dimmer Reset");
    reveal_strlit("Green-Yellow");
    assert("Green-Yellow"@[0] != "Dimmer Reset"@[0]);
    reveal_strlit("Dimmer Reset");
    reveal_strlit("Blue-Magenta");
    assert("Blue-Magenta"@[0] != "Dimmer Reset"@[0]);
    reveal_strlit("Beam Reset");
    reveal_strlit("Pan Rotate");
    assert("Pan Rotate"@[0] != "Beam Reset"@[0]);
    reveal_strlit("Beam Reset");
    reveal_strlit("Rotation X");
    assert("Rotation X"@[0] != "Beam Reset"@[0]);
    reveal_strlit("Beam Reset");
    reveal_strlit("Rotation Y");
    assert("Rotation Y"@[0] != "Beam Reset"@[0]);
    reveal_strlit("Beam Reset");
    reveal_strlit("Rotation Z");
    assert("Rotation Z"@[0] != "Beam Reset"@[0]);
    reveal_strlit("Beam Reset");
    reveal_strlit("Play Begin");
    assert("Play Begin"@[0] != "Beam Reset"@[0]);
    reveal_strlit("Beam Reset");
    reveal_strlit("Play Speed");
    assert("Play Speed"@[0] != "Beam Reset"@[0]);
    reveal_strlit("Beam Reset");
    reveal_strlit("Red-Yellow");
    assert("Red-Yellow"@[0] != "Beam Reset"@[0]);
    reveal_strlit("Beam Reset");
    reveal_strlit("Green-Cyan");
    assert("Green-Cyan"@[0] != "Beam Reset"@[0]);
    reveal_strlit("Beam Reset");
    reveal_strlit("Warm White");
    assert("Warm White"@[0] != "Beam Reset"@[0]);
    reveal_strlit("Beam Reset");
    reveal_strlit("Cool White");
    assert("Cool White"@[0] != "Beam Reset"@[0]);
    reveal_strlit("Color Mix Reset");
    reveal_strlit("Position Effect");
    assert("Position Effect"@[0] != "Color Mix Reset"@[0]);
    reveal_strlit("Focus Reset");
    reveal_strlit("Tilt Rotate");
    assert("Tilt Rotate"@[0] != "Focus Reset"@[0]);
    reveal_strlit("Focus Reset");
    reveal_strlit("Red-Magenta");
    assert("Red-Magenta"@[0] != "Focus Reset"@[0]);
    reveal_strlit("Frame Reset");
    reveal_strlit("Tilt Rotate");
    assert("Tilt Rotate"@[0] != "Frame Reset"@[0]);
    reveal_strlit("Frame Reset");
    reveal_strlit("Red-Magenta");
    assert("Red-Magenta"@[0] != "Frame Reset"@[0]);
    reveal_strlit("Intensity Reset");
    reveal_strlit("Position Effect");
    assert("Position Effect"@[0] != "Intensity Reset"@[0]);
    reveal_strlit("Iris Reset");
    reveal_strlit("Pan Rotate");
    assert("Pan Rotate"@[0] != "Iris Reset"@[0]);
    reveal_strlit("Iris Reset");
    reveal_strlit("Rotation X");
    assert("Rotation X"@[0] != "Iris Reset"@[0]);
    reveal_strlit("Iris Reset");
    reveal_strlit("Rotation Y");
    assert("Rotation Y"@[0] != "Iris Reset"@[0]);
    reveal_strlit("Iris Reset");
    reveal_strlit("Rotation Z");
    assert("Rotation Z"@[0] != "Iris Reset"@[0]);
    reveal_strlit("Iris Reset");
    reveal_strlit("Play Begin");
    assert("Play Begin"@[0] != "Iris Reset"@[0]);
    reveal_strlit("Iris Reset");
    reveal_strlit("Play Speed");
    assert("Play Speed"@[0] != "Iris Reset"@[0]);
    reveal_strlit("Iris Reset");
    reveal_strlit("Red-Yellow");
    assert("Red-Yellow"@[0] != "Iris Reset"@[0]);
    reveal_strlit("Iris Reset");
    reveal_strlit("Green-Cyan");
    assert("Green-Cyan"@[0] != "Iris Reset"@[0]);
    reveal_strlit("Iris Reset");
    reveal_strlit("Warm White");
    assert("Warm White"@[0] != "Iris Reset"@[0]);
    reveal_strlit("Iris Reset");
    reveal_strlit("Cool White");
    assert("Cool White"@[0] != "Iris Reset"@[0]);
    reveal_strlit("Pan Reset");
    reveal_strlit("Scale XYZ");
    assert("Scale XYZ"@[0] != "Pan Reset"@[0]);
    reveal_strlit("Pan Reset");
    reveal_strlit("Play Mode");
    assert("Play Mode"@[1] != "Pan Reset"@[1]);
    reveal_strlit("Pan Reset");
    reveal_strlit("Blue-Cyan");
    assert("Blue-Cyan"@[0] != "Pan Reset"@[0]);
    reveal_strlit("Tilt Reset");
    reveal_strlit("Pan Rotate");
    assert("Pan Rotate"@[0] != "Tilt Reset"@[0]);
    reveal_strlit("Tilt Reset");
    reveal_strlit("Rotation X");
    assert("Rotation X"@[0] != "Tilt Reset"@[0]);
    reveal_strlit("Tilt Reset");
    reveal_strlit("Rotation Y");
    assert("Rotation Y"@[0] != "Tilt Reset"@[0]);
    reveal_strlit("Tilt Reset");
    reveal_strlit("Rotation Z");
    assert("Rotation Z"@[0] != "Tilt Reset"@[0]);
    reveal_strlit("Tilt Reset");
    reveal_strlit("Play Begin");
    assert("Play Begin"@[0] != "Tilt Reset"@[0]);
    reveal_strlit("Tilt Reset");
    reveal_strlit("Play Speed");
    assert("Play Speed"@[0] != "Tilt Reset"@[0]);
    reveal_strlit("Tilt Reset");
    reveal_strlit("Red-Yellow");
    assert("Red-Yellow"@[0] != "Tilt Reset"@[0]);
    reveal_strlit("Tilt Reset");
    reveal_strlit("Green-Cyan");
    assert("Green-Cyan"@[0] != "Tilt Reset"@[0]);
    reveal_strlit("Tilt Reset");
    reveal_strlit("Warm White");
    assert("Warm White"@[0] != "Tilt Reset"@[0]);
    reveal_strlit("Tilt Reset");
    reveal_strlit("Cool White");
    assert("Cool White"@[0] != "Tilt Reset"@[0]);
    reveal_strlit("Zoom Reset");
    reveal_strlit("Pan Rotate");
    assert("Pan Rotate"@[0] != "Zoom Reset"@[0]);
    reveal_strlit("Zoom Reset");
    reveal_strlit("Rotation X");
    assert("Rotation X"@[0] != "Zoom Reset"@[0]);
    reveal_strlit("Zoom Reset");
    reveal_strlit("Rotation Y");
    assert("Rotation Y"@[0] != "Zoom Reset"@[0]);
    reveal_strlit("Zoom Reset");
    reveal_strlit("Rotation Z");
    assert("Rotation Z"@[0] != "Zoom Reset"@[0]);
    reveal_strlit("Zoom Reset");
    reveal_strlit("Play Begin");
    assert("Play Begin"@[0] != "Zoom Reset"@[0]);
    reveal_strlit("Zoom Reset");
    reveal_strlit("Play Speed");
    assert("Play Speed"@[0] != "Zoom Reset"@[0]);
    reveal_strlit("Zoom Reset");
    reveal_strlit("Red-Yellow");
    assert("Red-Yellow"@[0] != "Zoom Reset"@[0]);
    reveal_strlit("Zoom Reset");
    reveal_strlit("Green-Cyan");
    assert("Green-Cyan"@[0] != "Zoom Reset"@[0]);
    reveal_strlit("Zoom Reset");
    reveal_strlit("Warm White");
    assert("Warm White"@[0] != "Zoom Reset"@[0]);
    reveal_strlit("Zoom Reset");
    reveal_strlit("Cool White");
    assert("Cool White"@[0] != "Zoom Reset"@[0]);
    reveal_strlit("CTB Reset");
    reveal_strlit("Scale XYZ");
    assert("Scale XYZ"@[0] != "CTB Reset"@[0]);
    reveal_strlit("CTB Reset");
    reveal_strlit("Play Mode");
    assert("Play Mode"@[0] != "CTB Reset"@[0]);
    reveal_strlit("CTB Reset");
    reveal_strlit("Blue-Cyan");
    assert("Blue-Cyan"@[0] != "CTB Reset"@[0]);
    reveal_strlit("CTO Reset");
    reveal_strlit("Scale XYZ");
    assert("Scale XYZ"@[0] != "CTO Reset"@[0]);
    reveal_strlit("CTO Reset");
    reveal_strlit("Play Mode");
    assert("Play Mode"@[0] != "CTO Reset"@[0]);
    reveal_strlit("CTO Reset");
    reveal_strlit("Blue-Cyan");
    assert("Blue-Cyan"@[0] != "CTO Reset"@[0]);
    reveal_strlit("CTC Reset");
    reveal_strlit("Scale XYZ");
    assert("Scale XYZ"@[0] != "CTC Reset"@[0]);
    reveal_strlit("CTC Reset");
    reveal_strlit("Play Mode");
    assert("Play Mode"@[0] != "CTC Reset"@[0]);
    reveal_strlit("CTC Reset");
    reveal_strlit("Blue-Cyan");
    assert("Blue-Cyan"@[0] != "CTC Reset"@[0]);
    reveal_strlit("Function");
    reveal_strlit("Play End");
    assert("Play End"@[0] != "Function"@[0]);
    reveal_strlit("Function");
    reveal_strlit("Magenta-");
    assert("Magenta-"@[0] != "Function"@[0]);
    reveal_strlit("Lamp Control");
    reveal_strlit("Green-Yellow");
    assert("Green-Yellow"@[0] != "Lamp Control"@[0]);
    reveal_strlit("Lamp Control");
    reveal_strlit("Blue-Magenta");
    assert("Blue-Magenta"@[0] != "Lamp Control"@[0]);
    reveal_strlit("DMX Input");
    reveal_strlit("Scale XYZ");
    assert("Scale XYZ"@[0] != "DMX Input"@[0]);
    reveal_strlit("DMX Input");
    reveal_strlit("Play Mode");
    assert("Play Mode"@[0] != "DMX Input"@[0]);
    reveal_strlit("DMX Input");
    reveal_strlit("Blue-Cyan");
    assert("Blue-Cyan"@[0] != "DMX Input"@[0]);
    reveal_strlit("No Feature");
    reveal_strlit("Pan Rotate");
    assert("Pan Rotate"@[0] != "No Feature"@[0]);
    reveal_strlit("No Feature");
    reveal_strlit("Rotation X");
    assert("Rotation X"@[0] != "No Feature"@[0]);
    reveal_strlit("No Feature");
    reveal_strlit("Rotation Y");
    assert("Rotation Y"@[0] != "No Feature"@[0]);
    reveal_strlit("No Feature");
    reveal_strlit("Rotation Z");
    assert("Rotation Z"@[0] != "No Feature"@[0]);
    reveal_strlit("No Feature");
    reveal_strlit("Play Begin");
    assert("Play Begin"@[0] != "No Feature"@[0]);
    reveal_strlit("No Feature");
    reveal_strlit("Play Speed");
    assert("Play Speed"@[0] != "No Feature"@[0]);
    reveal_strlit("No Feature");
    reveal_strlit("Red-Yellow");
    assert("Red-Yellow"@[0] != "No Feature"@[0]);
    reveal_strlit("No Feature");
    reveal_strlit("Green-Cyan");
    assert("Green-Cyan"@[0] != "No Feature"@[0]);
    reveal_strlit("No Feature");
    reveal_strlit("Warm White");
    assert("Warm White"@[0] != "No Feature"@[0]);
    reveal_strlit("No Feature");
    reveal_strlit("Cool White");
    assert("Cool White"@[0] != "No Feature"@[0]);
    reveal_strlit("Lamp Power Mode");
    reveal_strlit("Position Effect");
    assert("Position Effect"@[0] != "Lamp Power Mode"@[0]);
    reveal_strlit("Fans");
    reveal_strlit("Tilt");
    assert("Tilt"@[0] != "Fans"@[0]);
    reveal_strlit("Fans");
    reveal_strlit("Blue");
    assert("Blue"@[0] != "Fans"@[0]);
    reveal_strlit("Fans");
    reveal_strlit("Cyan");
    assert("Cyan"@[0] != "Fans"@[0]);
    reveal_strlit("Fans");
    reveal_strlit("Red-");
    assert("Red-"@[0] != "Fans"@[0]);
    reveal_strlit("Shaper Rotation");
    reveal_strlit("Position Effect");
    assert("Position Effect"@[0] != "Shaper Rotation"@[0]);
    reveal_strlit("Video");
    reveal_strlit("Green");
    assert("Green"@[0] != "Video"@[0]);
    reveal_strlit("Video");
    reveal_strlit("White");
    assert("White"@[0] != "Video"@[0]);
    reveal_strlit("Video");
    reveal_strlit("Blue-");
    assert("Blue-"@[0] != "Video"@[0]);
    reveal_strlit("Video");
    reveal_strlit("Cyan-");
    assert("Cyan-"@[0] != "Video"@[0]);
    reveal_strlit("Input Source");
    reveal_strlit("Green-Yellow");
    assert("Green-Yellow"@[0] != "Input Source"@[0]);
    reveal_strlit("Input Source");
    reveal_strlit("Blue-Magenta");
    assert("Blue-Magenta"@[0] != "Input Source"@[0]);
}

/// No pretty name of part 3 occurs in part 1.
proof fn lemma_pretties_3_not_in_1()
    ensures
        pretty_lookup_1("Intensity MSpeed"@) is None,
        pretty_lookup_1("Position MSpeed"@) is None,
        pretty_lookup_1("Color Mix MSpeed"@) is None,
        pretty_lookup_1("Color Wheel Select MSpeed"@) is None,
        pretty_lookup_1("Iris MSpeed"@) is None,
        pretty_lookup_1("Focus MSpeed"@) is None,
        pretty_lookup_1("Zoom MSpeed"@) is None,
        pretty_lookup_1("Frame MSpeed"@) is None,
        pretty_lookup_1("Global MSpeed"@) is None,
        pretty_lookup_1("Reflector Adjust"@) is None,
        pretty_lookup_1("Fixture Global Reset"@) is None,
        pretty_lookup_1("Dimmer Reset"@) is None,
        pretty_lookup_1("Shutter Reset"@) is None,
        pretty_lookup_1("Beam Reset"@) is None,
        pretty_lookup_1("Color Mix Reset"@) is None,
        pretty_lookup_1("Color Wheel Reset"@) is None,
        pretty_lookup_1("Focus Reset"@) is None,
        pretty_lookup_1("Frame Reset"@) is None,
        pretty_lookup_1("Gobo Wheel Reset"@) is None,
        pretty_lookup_1("Intensity Reset"@) is None,
        pretty_lookup_1("Iris Reset"@) is None,
        pretty_lookup_1("Position Reset"@) is None,
        pretty_lookup_1("Pan Reset"@) is None,
        pretty_lookup_1("Tilt Reset"@) is None,
        pretty_lookup_1("Zoom Reset"@) is None,
        pretty_lookup_1("CTB Reset"@) is None,
        pretty_lookup_1("CTO Reset"@) is None,
        pretty_lookup_1("CTC Reset"@) is None,
        pretty_lookup_1("Animation System Reset"@) is None,
        pretty_lookup_1("Fixture Calibration Reset"@) is None,
        pretty_lookup_1("Function"@) is None,
        pretty_lookup_1("Lamp Control"@) is None,
        pretty_lookup_1("Display Intensity"@) is None,
        pretty_lookup_1("DMX Input"@) is None,
        pretty_lookup_1("No Feature"@) is None,
        pretty_lookup_1("Lamp Power Mode"@) is None,
        pretty_lookup_1("Fans"@) is None,
        pretty_lookup_1("Shaper Rotation"@) is None,
        pretty_lookup_1("Shaper Macros"@) is None,
        pretty_lookup_1("Shaper Macros Speed"@) is None,
        pretty_lookup_1("Video"@) is None,
        pretty_lookup_1("Video Blend Mode"@) is None,
        pretty_lookup_1("Input Source"@) is None,
        pretty_lookup_1("Field of View"@) is None,
{
    reveal(pretty_lookup_1);
    lemma_pretty_lengths_1();
    lemma_pretty_lengths_3();
    reveal_strlit("Intensity MSpeed");
    reveal_strlit("Video Boost Blue");
    assert("Video Boost Blue"@[0] != "Intensity MSpeed"@[0]);
    reveal_strlit("Intensity MSpeed");
    reveal_strlit("Video Saturation");
    assert("Video Saturation"@[0] != "Intensity MSpeed"@[0]);
    reveal_strlit("Intensity MSpeed");
    reveal_strlit("Video Brightness");
    assert("Video Brightness"@[0] != "Intensity MSpeed"@[0]);
    reveal_strlit("Intensity MSpeed");
    reveal_strlit("Strobe Frequency");
    assert("Strobe Frequency"@[0] != "Intensity MSpeed"@[0]);
    reveal_strlit("Intensity MSpeed");
    reveal_strlit("Iris Pulse Close");
    assert("Iris Pulse Close"@[1] != "Intensity MSpeed"@[1]);
    reveal_strlit("Position MSpeed");
    reveal_strlit("Video Boost Red");
    assert("Video Boost Red"@[0] != "Position MSpeed"@[0]);
    reveal_strlit("Position MSpeed");
    reveal_strlit("Video Hue Shift");
    assert("Video Hue Shift"@[0] != "Position MSpeed"@[0]);
    reveal_strlit("Position MSpeed");
    reveal_strlit("Strobe Duration");
    assert("Strobe Duration"@[0] != "Position MSpeed"@[0]);
    reveal_strlit("Position MSpeed");
    reveal_strlit("Iris Pulse Open");
    assert("Iris Pulse Open"@[0] != "Position MSpeed"@[0]);
    reveal_strlit("Color Mix MSpeed");
    reveal_strlit("Video Boost Blue");
    assert("Video Boost Blue"@[0] != "Color Mix MSpeed"@[0]);
    reveal_strlit("Color Mix MSpeed");
    reveal_strlit("Video Saturation");
    assert("Video Saturation"@[0] != "Color Mix MSpeed"@[0]);
    reveal_strlit("Color Mix MSpeed");
    reveal_strlit("Video Brightness");
    assert("Video Brightness"@[0] != "Color Mix MSpeed"@[0]);
    reveal_strlit("Color Mix MSpeed");
    reveal_strlit("Strobe Frequency");
    assert("Strobe Frequency"@[0] != "Color Mix MSpeed"@[0]);
    reveal_strlit("Color Mix MSpeed");
    reveal_strlit("Iris Pulse Close");
    assert("Iris Pulse Close"@[0] != "Color Mix MSpeed"@[0]);
    reveal_strlit("Iris MSpeed");
    reveal_strlit("HSB Quality");
    assert("HSB Quality"@[0] != "Iris MSpeed"@[0]);
    reveal_strlit("Iris MSpeed");
    reveal_strlit("RGB Magenta");
    assert("RGB Magenta"@[0] != "Iris MSpeed"@[0]);
    reveal_strlit("Iris MSpeed");
    reveal_strlit("RGB Quality");
    assert("RGB Quality"@[0] != "Iris MSpeed"@[0]);
    reveal_strlit("Iris MSpeed");
    reveal_strlit("Strobe Rate");
    assert("Strobe Rate"@[0] != "Iris MSpeed"@[0]);
    reveal_strlit("Iris MSpeed");
    reveal_strlit("Iris Strobe");
    assert("Iris Strobe"@[5] != "Iris MSpeed"@[5]);
    reveal_strlit("Zoom MSpeed");
    reveal_strlit("HSB Quality");
    assert("HSB Quality"@[0] != "Zoom MSpeed"@[0]);
    reveal_strlit("Zoom MSpeed");
    reveal_strlit("RGB Magenta");
    assert("RGB Magenta"@[0] != "Zoom MSpeed"@[0]);
    reveal_strlit("Zoom MSpeed");
    reveal_strlit("RGB Quality");
    assert("RGB Quality"@[0] != "Zoom MSpeed"@[0]);
    reveal_strlit("Zoom MSpeed");
    reveal_strlit("Strobe Rate");
    assert("Strobe Rate"@[0] != "Zoom MSpeed"@[0]);
    reveal_strlit("Zoom MSpeed");
    reveal_strlit("Iris Strobe");
    assert("Iris Strobe"@[0] != "Zoom MSpeed"@[0]);
    reveal_strlit("Reflector Adjust");
    reveal_strlit("Video Boost Blue");
    assert("Video Boost Blue"@[0] != "Reflector Adjust"@[0]);
    reveal_strlit("Reflector Adjust");
    reveal_strlit("Video Saturation");
    assert("Video Saturation"@[0] != "Reflector Adjust"@[0]);
    reveal_strlit("Reflector Adjust");
    reveal_strlit("Video Brightness");
    assert("Video Brightness"@[0] != "Reflector Adjust"@[0]);
    reveal_strlit("Reflector Adjust");
    reveal_strlit("Strobe Frequency");
    assert("Strobe Frequency"@[0] != "Reflector Adjust"@[0]);
    reveal_strlit("Reflector Adjust");
    reveal_strlit("Iris Pulse Close");
    assert("Iris Pulse Close"@[0] != "Reflector Adjust"@[0]);
    reveal_strlit("Fixture Global Reset");
    reveal_strlit("Video Key Color Blue");
    assert("Video Key Color Blue"@[0] != "Fixture Global Reset"@[0]);
    reveal_strlit("Beam Reset");
    reveal_strlit("RGB Yellow");
    assert("RGB Yellow"@[0] != "Beam Reset"@[0]);
    reveal_strlit("Color Mix Reset");
    reveal_strlit("Video Boost Red");
    assert("Video Boost Red"@[0] != "Color Mix Reset"@[0]);
    reveal_strlit("Color Mix Reset");
    reveal_strlit("Video Hue Shift");
    assert("Video Hue Shift"@[0] != "Color Mix Reset"@[0]);
    reveal_strlit("Color Mix Reset");
    reveal_strlit("Strobe Duration");
    assert("Strobe Duration"@[0] != "Color Mix Reset"@[0]);
    reveal_strlit("Color Mix Reset");
    reveal_strlit("Iris Pulse Open");
    assert("Iris Pulse Open"@[0] != "Color Mix Reset"@[0]);
    reveal_strlit("Color Wheel Reset");
    reveal_strlit("Video Boost Green");
    assert("Video Boost Green"@[0] != "Color Wheel Reset"@[0]);
    reveal_strlit("Color Wheel Reset");
    reveal_strlit("Strobe Mode Pulse");
    assert("Strobe Mode Pulse"@[0] != "Color Wheel Reset"@[0]);
    reveal_strlit("Focus Reset");
    reveal_strlit("HSB Quality");
    assert("HSB Quality"@[0] != "Focus Reset"@[0]);
    reveal_strlit("Focus Reset");
    reveal_strlit("RGB Magenta");
    assert("RGB Magenta"@[0] != "Focus Reset"@[0]);
    reveal_strlit("Focus Reset");
    reveal_strlit("RGB Quality");
    assert("RGB Quality"@[0] != "Focus Reset"@[0]);
    reveal_strlit("Focus Reset");
    reveal_strlit("Strobe Rate");
    assert("Strobe Rate"@[0] != "Focus Reset"@[0]);
    reveal_strlit("Focus Reset");
    reveal_strlit("Iris Strobe");
    assert("Iris Strobe"@[0] != "Focus Reset"@[0]);
    reveal_strlit("Frame Reset");
    reveal_strlit("HSB Quality");
    assert("HSB Quality"@[0] != "Frame Reset"@[0]);
    reveal_strlit("Frame Reset");
    reveal_strlit("RGB Magenta");
    assert("RGB Magenta"@[0] != "Frame Reset"@[0]);
    reveal_strlit("Frame Reset");
    reveal_strlit("RGB Quality");
    assert("RGB Quality"@[0] != "Frame Reset"@[0]);
    reveal_strlit("Frame Reset");
    reveal_strlit("Strobe Rate");
    assert("Strobe Rate"@[0] != "Frame Reset"@[0]);
    reveal_strlit("Frame Reset");
    reveal_strlit("Iris Strobe");
    assert("Iris Strobe"@[0] != "Frame Reset"@[0]);
    reveal_strlit("Gobo Wheel Reset");
    reveal_strlit("Video Boost Blue");
    assert("Video Boost Blue"@[0] != "Gobo Wheel Reset"@[0]);
    reveal_strlit("Gobo Wheel Reset");
    reveal_strlit("Video Saturation");
    assert("Video Saturation"@[0] != "Gobo Wheel Reset"@[0]);
    reveal_strlit("Gobo Wheel Reset");
    reveal_strlit("Video Brightness");
    assert("Video Brightness"@[0] != "Gobo Wheel Reset"@[0]);
    reveal_strlit("Gobo Wheel Reset");
    reveal_strlit("Strobe Frequency");
    assert("Strobe Frequency"@[0] != "Gobo Wheel Reset"@[0]);
    reveal_strlit("Gobo Wheel Reset");
    reveal_strlit("Iris Pulse Close");
    assert("Iris Pulse Close"@[0] != "Gobo Wheel Reset"@[0]);
    reveal_strlit("Intensity Reset");
    reveal_strlit("Video Boost Red");
    assert("Video Boost Red"@[0] != "Intensity Reset"@[0]);
    reveal_strlit("Intensity Reset");
    reveal_strlit("Video Hue Shift");
    assert("Video Hue Shift"@[0] != "Intensity Reset"@[0]);
    reveal_strlit("Intensity Reset");
    reveal_strlit("Strobe Duration");
    assert("Strobe Duration"@[0] != "Intensity Reset"@[0]);
    reveal_strlit("Intensity Reset");
    reveal_strlit("Iris Pulse Open");
    assert("Iris Pulse Open"@[1] != "Intensity Reset"@[1]);
    reveal_strlit("Iris Reset");
    reveal_strlit("RGB Yellow");
    assert("RGB Yellow"@[0] != "Iris Reset"@[0]);
    reveal_strlit("Position Reset");
    reveal_strlit("HSB Saturation");
    assert("HSB Saturation"@[0] != "Position Reset"@[0]);
    reveal_strlit("Position Reset");
    reveal_strlit("HSB Brightness");
    assert("HSB Brightness"@[0] != "Position Reset"@[0]);
    reveal_strlit("Position Reset");
    reveal_strlit("CIE Brightness");
    assert("CIE Brightness"@[0] != "Position Reset"@[0]);
    reveal_strlit("Position Reset");
    reveal_strlit("Video Contrast");
    assert("Video Contrast"@[0] != "Position Reset"@[0]);
    reveal_strlit("Pan Reset");
    reveal_strlit("RGB Green");
    assert("RGB Green"@[0] != "Pan Reset"@[0]);
    reveal_strlit("Tilt Reset");
    reveal_strlit("RGB Yellow");
    assert("RGB Yellow"@[0] != "Tilt Reset"@[0]);
    reveal_strlit("Zoom Reset");
    reveal_strlit("RGB Yellow");
    assert("RGB Yellow"@[0] != "Zoom Reset"@[0]);
    reveal_strlit("CTB Reset");
    reveal_strlit("RGB Green");
    assert("RGB Green"@[0] != "CTB Reset"@[0]);
    reveal_strlit("CTO Reset");
    reveal_strlit("RGB Green");
    assert("RGB Green"@[0] != "CTO Reset"@[0]);
    reveal_strlit("CTC Reset");
    reveal_strlit("RGB Green");
    assert("RGB Green"@[0] != "CTC Reset"@[0]);
    reveal_strlit("Animation System Reset");
    reveal_strlit("Strobe Mode Pulse Open");
    assert("Strobe Mode Pulse Open"@[0] != "Animation System Reset"@[0]);
    reveal_strlit("Function");
    reveal_strlit("RGB Blue");
    assert("RGB Blue"@[0] != "Function"@[0]);
    reveal_strlit("Function");
    reveal_strlit("RGB Cyan");
    assert("RGB Cyan"@[0] != "Function"@[0]);
    reveal_strlit("Display Intensity");
    reveal_strlit("Video Boost Green");
    assert("Video Boost Green"@[0] != "Display Intensity"@[0]);
    reveal_strlit("Display Intensity");
    reveal_strlit("Strobe Mode Pulse");
    assert("Strobe Mode Pulse"@[0] != "Display Intensity"@[0]);
    reveal_strlit("DMX Input");
    reveal_strlit("RGB Green");
    assert("RGB Green"@[0] != "DMX Input"@[0]);
    reveal_strlit("No Feature");
    reveal_strlit("RGB Yellow");
    assert("RGB Yellow"@[0] != "No Feature"@[0]);
    reveal_strlit("Lamp Power Mode");
    reveal_strlit("Video Boost Red");
    assert("Video Boost Red"@[0] != "Lamp Power Mode"@[0]);
    reveal_strlit("Lamp Power Mode");
    reveal_strlit("Video Hue Shift");
    assert("Video Hue Shift"@[0] != "Lamp Power Mode"@[0]);
    reveal_strlit("Lamp Power Mode");
    reveal_strlit("Strobe Duration");
    assert("Strobe Duration"@[0] != "Lamp Power Mode"@[0]);
    reveal_strlit("Lamp Power Mode");
    reveal_strlit("Iris Pulse Open");
    assert("Iris Pulse Open"@[0] != "Lamp Power Mode"@[0]);
    reveal_strlit("Fans");
    reveal_strlit("Tint");
    assert("Tint"@[0] != "Fans"@[0]);
    reveal_strlit("Fans");
    reveal_strlit("Iris");
    assert("Iris"@[0] != "Fans"@[0]);
    reveal_strlit("Shaper Rotation");
    reveal_strlit("Video Boost Red");
    assert("Video Boost Red"@[0] != "Shaper Rotation"@[0]);
    reveal_strlit("Shaper Rotation");
    reveal_strlit("Video Hue Shift");
    assert("Video Hue Shift"@[0] != "Shaper Rotation"@[0]);
    reveal_strlit("Shaper Rotation");
    reveal_strlit("Strobe Duration");
    assert("Strobe Duration"@[1] != "Shaper Rotation"@[1]);
    reveal_strlit("Shaper Rotation");
    reveal_strlit("Iris Pulse Open");
    assert("Iris Pulse Open"@[0] != "Shaper Rotation"@[0]);
    reveal_strlit("Shaper Macros Speed");
    reveal_strlit("Video Key Color Red");
    assert("Video Key Color Red"@[0] != "Shaper Macros Speed"@[0]);
    reveal_strlit("Shaper Macros Speed");
    reveal_strlit("Video Key Intensity");
    assert("Video Key Intensity"@[0] != "Shaper Macros Speed"@[0]);
    reveal_strlit("Shaper Macros Speed");
    reveal_strlit("Video Key Tolerance");
    assert("Video Key Tolerance"@[0] != "Shaper Macros Speed"@[0]);
    reveal_strlit("Shaper Macros Speed");
    reveal_strlit("Strobe Mode Shutter");
    assert("Strobe Mode Shutter"@[1] != "Shaper Macros Speed"@[1]);
    reveal_strlit("Video");
    reveal_strlit("CIE X");
    assert("CIE X"@[0] != "Video"@[0]);
    reveal_strlit("Video");
    reveal_strlit("CIE Y");
    assert("CIE Y"@[0] != "Video"@[0]);
    reveal_strlit("Video Blend Mode");
    reveal_strlit("Video Boost Blue");
    assert("Video Boost Blue"@[7] != "Video Blend Mode"@[7]);
    reveal_strlit("Video Blend Mode");
    reveal_strlit("Video Saturation");
    assert("Video Saturation"@[6] != "Video Blend Mode"@[6]);
    reveal_strlit("Video Blend Mode");
    reveal_strlit("Video Brightness");
    assert("Video Brightness"@[7] != "Video Blend Mode"@[7]);
    reveal_strlit("Video Blend Mode");
    reveal_strlit("Strobe Frequency");
    assert("Strobe Frequency"@[0] != "Video Blend Mode"@[0]);
    reveal_strlit("Video Blend Mode");
    reveal_strlit("Iris Pulse Close");
    assert("Iris Pulse Close"@[0] != "Video Blend Mode"@[0]);
}

/// No pretty name of part 3 occurs in part 2.
proof fn lemma_pretties_3_not_in_2()
    ensures
        pretty_lookup_2("Intensity MSpeed"@) is None,
        pretty_lookup_2("Position MSpeed"@) is None,
        pretty_lookup_2("Color Mix MSpeed"@) is None,
        pretty_lookup_2("Color Wheel Select MSpeed"@) is None,
        pretty_lookup_2("Iris MSpeed"@) is None,
        pretty_lookup_2("Focus MSpeed"@) is None,
        pretty_lookup_2("Zoom MSpeed"@) is None,
        pretty_lookup_2("Frame MSpeed"@) is None,
        pretty_lookup_2("Global MSpeed"@) is None,
        pretty_lookup_2("Reflector Adjust"@) is None,
        pretty_lookup_2("Fixture Global Reset"@) is None,
        pretty_lookup_2("Dimmer Reset"@) is None,
        pretty_lookup_2("Shutter Reset"@) is None,
        pretty_lookup_2("Beam Reset"@) is None,
        pretty_lookup_2("Color Mix Reset"@) is None,
        pretty_lookup_2("Color Wheel Reset"@) is None,
        pretty_lookup_2("Focus Reset"@) is None,
        pretty_lookup_2("Frame Reset"@) is None,
        pretty_lookup_2("Gobo Wheel Reset"@) is None,
        pretty_lookup_2("Intensity Reset"@) is None,
        pretty_lookup_2("Iris Reset"@) is None,
        pretty_lookup_2("Position Reset"@) is None,
        pretty_lookup_2("Pan Reset"@) is None,
        pretty_lookup_2("Tilt Reset"@) is None,
        pretty_lookup_2("Zoom Reset"@) is None,
        pretty_lookup_2("CTB Reset"@) is None,
        pretty_lookup_2("CTO Reset"@) is None,
        pretty_lookup_2("CTC Reset"@) is None,
        pretty_lookup_2("Animation System Reset"@) is None,
        pretty_lookup_2("Fixture Calibration Reset"@) is None,
        pretty_lookup_2("Function"@) is None,
        pretty_lookup_2("Lamp Control"@) is None,
        pretty_lookup_2("Display Intensity"@) is None,
        pretty_lookup_2("DMX Input"@) is None,
        pretty_lookup_2("No Feature"@) is None,
        pretty_lookup_2("Lamp Power Mode"@) is None,
        pretty_lookup_2("Fans"@) is None,
        pretty_lookup_2("Shaper Rotation"@) is None,
        pretty_lookup_2("Shaper Macros"@) is None,
        pretty_lookup_2("Shaper Macros Speed"@) is None,
        pretty_lookup_2("Video"@) is None,
        pretty_lookup_2("Video Blend Mode"@) is None,
        pretty_lookup_2("Input Source"@) is None,
        pretty_lookup_2("Field of View"@) is None,
{
    reveal(pretty_lookup_2);
    lemma_pretty_lengths_2();
    lemma_pretty_lengths_3();
    reveal_strlit("Intensity MSpeed");
    reveal_strlit("Color Model Mode");
    assert("Color Model Mode"@[0] != "Intensity MSpeed"@[0]);
    reveal_strlit("Intensity MSpeed");
    reveal_strlit("Color Uniformity");
    assert("Color Uniformity"@[0] != "Intensity MSpeed"@[0]);
    reveal_strlit("Intensity MSpeed");
    reveal_strlit("Follow Spot Mode");
    assert("Follow Spot Mode"@[0] != "Intensity MSpeed"@[0]);
    reveal_strlit("Color Mix MSpeed");
    reveal_strlit("Color Model Mode");
    assert("Color Model Mode"@[7] != "Color Mix MSpeed"@[7]);
    reveal_strlit("Color Mix MSpeed");
    reveal_strlit("Color Uniformity");
    assert("Color Uniformity"@[6] != "Color Mix MSpeed"@[6]);
    reveal_strlit("Color Mix MSpeed");
    reveal_strlit("Follow Spot Mode");
    assert("Follow Spot Mode"@[0] != "Color Mix MSpeed"@[0]);
    reveal_strlit("Color Wheel Select MSpeed");
    reveal_strlit("Color Wheel Shortcut Mode");
    assert("Color Wheel Shortcut Mode"@[13] != "Color Wheel Select MSpeed"@[13]);
    reveal_strlit("Iris MSpeed");
    reveal_strlit("Beam Shaper");
    assert("Beam Shaper"@[0] != "Iris MSpeed"@[0]);
    reveal_strlit("Iris MSpeed");
    reveal_strlit("Dimmer Mode");
    assert("Dimmer Mode"@[0] != "Iris MSpeed"@[0]);
    reveal_strlit("Iris MSpeed");
    reveal_strlit("Yellow Mode");
    assert("Yellow Mode"@[0] != "Iris MSpeed"@[0]);
    reveal_strlit("Iris MSpeed");
    reveal_strlit("White Count");
    assert("White Count"@[0] != "Iris MSpeed"@[0]);
    reveal_strlit("Iris MSpeed");
    reveal_strlit("Strobe Mode");
    assert("Strobe Mode"@[0] != "Iris MSpeed"@[0]);
    reveal_strlit("Focus MSpeed");
    reveal_strlit("Effects Sync");
    assert("Effects Sync"@[0] != "Focus MSpeed"@[0]);
    reveal_strlit("Focus MSpeed");
    reveal_strlit("Digital Zoom");
    assert("Digital Zoom"@[0] != "Focus MSpeed"@[0]);
    reveal_strlit("Focus MSpeed");
    reveal_strlit("Dimmer Curve");
    assert("Dimmer Curve"@[0] != "Focus MSpeed"@[0]);
    reveal_strlit("Focus MSpeed");
    reveal_strlit("Magenta Mode");
    assert("Magenta Mode"@[0] != "Focus MSpeed"@[0]);
    reveal_strlit("Focus MSpeed");
    reveal_strlit("Custom Color");
    assert("Custom Color"@[0] != "Focus MSpeed"@[0]);
    reveal_strlit("Focus MSpeed");
    reveal_strlit("UV Stability");
    assert("UV Stability"@[0] != "Focus MSpeed"@[0]);
    reveal_strlit("Zoom MSpeed");
    reveal_strlit("Beam Shaper");
    assert("Beam Shaper"@[0] != "Zoom MSpeed"@[0]);
    reveal_strlit("Zoom MSpeed");
    reveal_strlit("Dimmer Mode");
    assert("Dimmer Mode"@[0] != "Zoom MSpeed"@[0]);
    reveal_strlit("Zoom MSpeed");
    reveal_strlit("Yellow Mode");
    assert("Yellow Mode"@[0] != "Zoom MSpeed"@[0]);
    reveal_strlit("Zoom MSpeed");
    reveal_strlit("White Count");
    assert("White Count"@[0] != "Zoom MSpeed"@[0]);
    reveal_strlit("Zoom MSpeed");
    reveal_strlit("Strobe Mode");
    assert("Strobe Mode"@[0] != "Zoom MSpeed"@[0]);
    reveal_strlit("Frame MSpeed");
    reveal_strlit("Effects Sync");
    assert("Effects Sync"@[0] != "Frame MSpeed"@[0]);
    reveal_strlit("Frame MSpeed");
    reveal_strlit("Digital Zoom");
    assert("Digital Zoom"@[0] != "Frame MSpeed"@[0]);
    reveal_strlit("Frame MSpeed");
    reveal_strlit("Dimmer Curve");
    assert("Dimmer Curve"@[0] != "Frame MSpeed"@[0]);
    reveal_strlit("Frame MSpeed");
    reveal_strlit("Magenta Mode");
    assert("Magenta Mode"@[0] != "Frame MSpeed"@[0]);
    reveal_strlit("Frame MSpeed");
    reveal_strlit("Custom Color");
    assert("Custom Color"@[0] != "Frame MSpeed"@[0]);
    reveal_strlit("Frame MSpeed");
    reveal_strlit("UV Stability");
    assert("UV Stability"@[0] != "Frame MSpeed"@[0]);
    reveal_strlit("Global MSpeed");
    reveal_strlit("Blackout Mode");
    assert("Blackout Mode"@[0] != "Global MSpeed"@[0]);
    reveal_strlit("Global MSpeed");
    reveal_strlit("LED Frequency");
    assert("LED Frequency"@[0] != "Global MSpeed"@[0]);
    reveal_strlit("Global MSpeed");
    reveal_strlit("LED Zone Mode");
    assert("LED Zone Mode"@[0] != "Global MSpeed"@[0]);
    reveal_strlit("Global MSpeed");
    reveal_strlit("Pan Tilt Mode");
    assert("Pan Tilt Mode"@[0] != "Global MSpeed"@[0]);
    reveal_strlit("Global MSpeed");
    reveal_strlit("Color Control");
    assert("Color Control"@[0] != "Global MSpeed"@[0]);
    reveal_strlit("Reflector Adjust");
    reveal_strlit("Color Model Mode");
    assert("Color Model Mode"@[0] != "Reflector Adjust"@[0]);
    reveal_strlit("Reflector Adjust");
    reveal_strlit("Color Uniformity");
    assert("Color Uniformity"@[0] != "Reflector Adjust"@[0]);
    reveal_strlit("Reflector Adjust");
    reveal_strlit("Follow Spot Mode");
    assert("Follow Spot Mode"@[0] != "Reflector Adjust"@[0]);
    reveal_strlit("Fixture Global Reset");
    reveal_strlit("Beam Shaper Position");
    assert("Beam Shaper Position"@[0] != "Fixture Global Reset"@[0]);
    reveal_strlit("Fixture Global Reset");
    reveal_strlit("Color Settings Reset");
    assert("Color Settings Reset"@[0] != "Fixture Global Reset"@[0]);
    reveal_strlit("Dimmer Reset");
    reveal_strlit("Effects Sync");
    assert("Effects Sync"@[0] != "Dimmer Reset"@[0]);
    reveal_strlit("Dimmer Reset");
    reveal_strlit("Digital Zoom");
    assert("Digital Zoom"@[2] != "Dimmer Reset"@[2]);
    reveal_strlit("Dimmer Reset");
    reveal_strlit("Dimmer Curve");
    assert("Dimmer Curve"@[7] != "Dimmer Reset"@[7]);
    reveal_strlit("Dimmer Reset");
    reveal_strlit("Magenta Mode");
    assert("Magenta Mode"@[0] != "Dimmer Reset"@[0]);
    reveal_strlit("Dimmer Reset");
    reveal_strlit("Custom Color");
    assert("Custom Color"@[0] != "Dimmer Reset"@[0]);
    reveal_strlit("Dimmer Reset");
    reveal_strlit("UV Stability");
    assert("UV Stability"@[0] != "Dimmer Reset"@[0]);
    reveal_strlit("Shutter Reset");
    reveal_strlit("Blackout Mode");
    assert("Blackout Mode"@[0] != "Shutter Reset"@[0]);
    reveal_strlit("Shutter Reset");
    reveal_strlit("LED Frequency");
    assert("LED Frequency"@[0] != "Shutter Reset"@[0]);
    reveal_strlit("Shutter Reset");
    reveal_strlit("LED Zone Mode");
    assert("LED Zone Mode"@[0] != "Shutter Reset"@[0]);
    reveal_strlit("Shutter Reset");
    reveal_strlit("Pan Tilt Mode");
    assert("Pan Tilt Mode"@[0] != "Shutter Reset"@[0]);
    reveal_strlit("Shutter Reset");
    reveal_strlit("Color Control");
    assert("Color Control"@[0] != "Shutter Reset"@[0]);
    reveal_strlit("Beam Reset");
    reveal_strlit("Pixel Mode");
    assert("Pixel Mode"@[0] != "Beam Reset"@[0]);
    reveal_strlit("Beam Reset");
    reveal_strlit("Focus Mode");
    assert("Focus Mode"@[0] != "Beam Reset"@[0]);
    reveal_strlit("Color Wheel Reset");
    reveal_strlit("Beam Shaper Macro");
    assert("Beam Shaper Macro"@[0] != "Color Wheel Reset"@[0]);
    reveal_strlit("Color Wheel Reset");
    reveal_strlit("Color Consistency");
    assert("Color Consistency"@[6] != "Color Wheel Reset"@[6]);
    reveal_strlit("Focus Reset");
    reveal_strlit("Beam Shaper");
    assert("Beam Shaper"@[0] != "Focus Reset"@[0]);
    reveal_strlit("Focus Reset");
    reveal_strlit("Dimmer Mode");
    assert("Dimmer Mode"@[0] != "Focus Reset"@[0]);
    reveal_strlit("Focus Reset");
    reveal_strlit("Yellow Mode");
    assert("Yellow Mode"@[0] != "Focus Reset"@[0]);
    reveal_strlit("Focus Reset");
    reveal_strlit("White Count");
    assert("White Count"@[0] != "Focus Reset"@[0]);
    reveal_strlit("Focus Reset");
    reveal_strlit("Strobe Mode");
    assert("Strobe Mode"@[0] != "Focus Reset"@[0]);
    reveal_strlit("Frame Reset");
    reveal_strlit("Beam Shaper");
    assert("Beam Shaper"@[0] != "Frame Reset"@[0]);
    reveal_strlit("Frame Reset");
    reveal_strlit("Dimmer Mode");
    assert("Dimmer Mode"@[0] != "Frame Reset"@[0]);
    reveal_strlit("Frame Reset");
    reveal_strlit("Yellow Mode");
    assert("Yellow Mode"@[0] != "Frame Reset"@[0]);
    reveal_strlit("Frame Reset");
    reveal_strlit("White Count");
    assert("White Count"@[0] != "Frame Reset"@[0]);
    reveal_strlit("Frame Reset");
    reveal_strlit("Strobe Mode");
    assert("Strobe Mode"@[0] != "Frame Reset"@[0]);
    reveal_strlit("Gobo Wheel Reset");
    reveal_strlit("Color Model Mode");
    assert("Color Model Mode"@[0] != "Gobo Wheel Reset"@[0]);
    reveal_strlit("Gobo Wheel Reset");
    reveal_strlit("Color Uniformity");
    assert("Color Uniformity"@[0] != "Gobo Wheel Reset"@[0]);
    reveal_strlit("Gobo Wheel Reset");
    reveal_strlit("Follow Spot Mode");
    assert("Follow Spot Mode"@[0] != "Gobo Wheel Reset"@[0]);
    reveal_strlit("Iris Reset");
    reveal_strlit("Pixel Mode");
    assert("Pixel Mode"@[0] != "Iris Reset"@[0]);
    reveal_strlit("Iris Reset");
    reveal_strlit("Focus Mode");
    assert("Focus Mode"@[0] != "Iris Reset"@[0]);
    reveal_strlit("Position Reset");
    reveal_strlit("Zoom Mode Spot");
    assert("Zoom Mode Spot"@[0] != "Position Reset"@[0]);
    reveal_strlit("Position Reset");
    reveal_strlit("Zoom Mode Beam");
    assert("Zoom Mode Beam"@[0] != "Position Reset"@[0]);
    reveal_strlit("Position Reset");
    reveal_strlit("Position Modes");
    assert("Position Modes"@[9] != "Position Reset"@[9]);
    reveal_strlit("Position Reset");
    reveal_strlit("Color Mix Mode");
    assert("Color Mix Mode"@[0] != "Position Reset"@[0]);
    reveal_strlit("Position Reset");
    reveal_strlit("Chromatic Mode");
    assert("Chromatic Mode"@[0] != "Position Reset"@[0]);
    reveal_strlit("Pan Reset");
    reveal_strlit("Tilt Mode");
    assert("Tilt Mode"@[0] != "Pan Reset"@[0]);
    reveal_strlit("Pan Reset");
    reveal_strlit("Cyan Mode");
    assert("Cyan Mode"@[0] != "Pan Reset"@[0]);
    reveal_strlit("Pan Reset");
    reveal_strlit("Zoom Mode");
    assert("Zoom Mode"@[0] != "Pan Reset"@[0]);
    reveal_strlit("Pan Reset");
    reveal_strlit("Iris Mode");
    assert("Iris Mode"@[0] != "Pan Reset"@[0]);
    reveal_strlit("Tilt Reset");
    reveal_strlit("Pixel Mode");
    assert("Pixel Mode"@[0] != "Tilt Reset"@[0]);
    reveal_strlit("Tilt Reset");
    reveal_strlit("Focus Mode");
    assert("Focus Mode"@[0] != "Tilt Reset"@[0]);
    reveal_strlit("Zoom Reset");
    reveal_strlit("Pixel Mode");
    assert("Pixel Mode"@[0] != "Zoom Reset"@[0]);
    reveal_strlit("Zoom Reset");
    reveal_strlit("Focus Mode");
    assert("Focus Mode"@[0] != "Zoom Reset"@[0]);
    reveal_strlit("CTB Reset");
    reveal_strlit("Tilt Mode");
    assert("Tilt Mode"@[0] != "CTB Reset"@[0]);
    reveal_strlit("CTB Reset");
    reveal_strlit("Cyan Mode");
    assert("Cyan Mode"@[1] != "CTB Reset"@[1]);
    reveal_strlit("CTB Reset");
    reveal_strlit("Zoom Mode");
    assert("Zoom Mode"@[0] != "CTB Reset"@[0]);
    reveal_strlit("CTB Reset");
    reveal_strlit("Iris Mode");
    assert("Iris Mode"@[0] != "CTB Reset"@[0]);
    reveal_strlit("CTO Reset");
    reveal_strlit("Tilt Mode");
    assert("Tilt Mode"@[0] != "CTO Reset"@[0]);
    reveal_strlit("CTO Reset");
    reveal_strlit("Cyan Mode");
    assert("Cyan Mode"@[1] != "CTO Reset"@[1]);
    reveal_strlit("CTO Reset");
    reveal_strlit("Zoom Mode");
    assert("Zoom Mode"@[0] != "CTO Reset"@[0]);
    reveal_strlit("CTO Reset");
    reveal_strlit("Iris Mode");
    assert("Iris Mode"@[0] != "CTO Reset"@[0]);
    reveal_strlit("CTC Reset");
    reveal_strlit("Tilt Mode");
    assert("Tilt Mode"@[0] != "CTC Reset"@[0]);
    reveal_strlit("CTC Reset");
    reveal_strlit("Cyan Mode");
    assert("Cyan Mode"@[1] != "CTC Reset"@[1]);
    reveal_strlit("CTC Reset");
    reveal_strlit("Zoom Mode");
    assert("Zoom Mode"@[0] != "CTC Reset"@[0]);
    reveal_strlit("CTC Reset");
    reveal_strlit("Iris Mode");
    assert("Iris Mode"@[0] != "CTC Reset"@[0]);
    reveal_strlit("Animation System Reset");
    reveal_strlit("Iris Random Pulse Open");
    assert("Iris Random Pulse Open"@[0] != "Animation System Reset"@[0]);
    reveal_strlit("Animation System Reset");
    reveal_strlit("Color Calibration Mode");
    assert("Color Calibration Mode"@[0] != "Animation System Reset"@[0]);
    reveal_strlit("Fixture Calibration Reset");
    reveal_strlit("Color Wheel Shortcut Mode");
    assert("Color Wheel Shortcut Mode"@[0] != "Fixture Calibration Reset"@[0]);
    reveal_strlit("Function");
    reveal_strlit("Pan Mode");
    assert("Pan Mode"@[0] != "Function"@[0]);
    reveal_strlit("Function");
    reveal_strlit("CRI Mode");
    assert("CRI Mode"@[0] != "Function"@[0]);
    reveal_strlit("Lamp Control");
    reveal_strlit("Effects Sync");
    assert("Effects Sync"@[0] != "Lamp Control"@[0]);
    reveal_strlit("Lamp Control");
    reveal_strlit("Digital Zoom");
    assert("Digital Zoom"@[0] != "Lamp Control"@[0]);
    reveal_strlit("Lamp Control");
    reveal_strlit("Dimmer Curve");
    assert("Dimmer Curve"@[0] != "Lamp Control"@[0]);
    reveal_strlit("Lamp Control");
    reveal_strlit("Magenta Mode");
    assert("Magenta Mode"@[0] != "Lamp Control"@[0]);
    reveal_strlit("Lamp Control");
    reveal_strlit("Custom Color");
    assert("Custom Color"@[0] != "Lamp Control"@[0]);
    reveal_strlit("Lamp Control");
    reveal_strlit("UV Stability");
    assert("UV Stability"@[0] != "Lamp Control"@[0]);
    reveal_strlit("Display Intensity");
    reveal_strlit("Beam Shaper Macro");
    assert("Beam Shaper Macro"@[0] != "Display Intensity"@[0]);
    reveal_strlit("Display Intensity");
    reveal_strlit("Color Consistency");
    assert("Color Consistency"@[0] != "Display Intensity"@[0]);
    reveal_strlit("DMX Input");
    reveal_strlit("Tilt Mode");
    assert("Tilt Mode"@[0] != "DMX Input"@[0]);
    reveal_strlit("DMX Input");
    reveal_strlit("Cyan Mode");
    assert("Cyan Mode"@[0] != "DMX Input"@[0]);
    reveal_strlit("DMX Input");
    reveal_strlit("Zoom Mode");
    assert("Zoom Mode"@[0] != "DMX Input"@[0]);
    reveal_strlit("DMX Input");
    reveal_strlit("Iris Mode");
    assert("Iris Mode"@[0] != "DMX Input"@[0]);
    reveal_strlit("No Feature");
    reveal_strlit("Pixel Mode");
    assert("Pixel Mode"@[0] != "No Feature"@[0]);
    reveal_strlit("No Feature");
    reveal_strlit("Focus Mode");
    assert("Focus Mode"@[0] != "No Feature"@[0]);
    reveal_strlit("Fans");
    reveal_strlit("Zoom");
    assert("Zoom"@[0] != "Fans"@[0]);
    reveal_strlit("Shaper Macros");
    reveal_strlit("Blackout Mode");
    assert("Blackout Mode"@[0] != "Shaper Macros"@[0]);
    reveal_strlit("Shaper Macros");
    reveal_strlit("LED Frequency");
    assert("LED Frequency"@[0] != "Shaper Macros"@[0]);
    reveal_strlit("Shaper Macros");
    reveal_strlit("LED Zone Mode");
    assert("LED Zone Mode"@[0] != "Shaper Macros"@[0]);
    reveal_strlit("Shaper Macros");
    reveal_strlit("Pan Tilt Mode");
    assert("Pan Tilt Mode"@[0] != "Shaper Macros"@[0]);
    reveal_strlit("Shaper Macros");
    reveal_strlit("Color Control");
    assert("Color Control"@[0] != "Shaper Macros"@[0]);
    reveal_strlit("Video Blend Mode");
    reveal_strlit("Color Model Mode");
    assert("Color Model Mode"@[0] != "Video Blend Mode"@[0]);
    reveal_strlit("Video Blend Mode");
    reveal_strlit("Color Uniformity");
    assert("Color Uniformity"@[0] != "Video Blend Mode"@[0]);
    reveal_strlit("Video Blend Mode");
    reveal_strlit("Follow Spot Mode");
    assert("Follow Spot Mode"@[0] != "Video Blend Mode"@[0]);
    reveal_strlit("Input Source");
    reveal_strlit("Effects Sync");
    assert("Effects Sync"@[0] != "Input Source"@[0]);
    reveal_strlit("Input Source");
    reveal_strlit("Digital Zoom");
    assert("Digital Zoom"@[0] != "Input Source"@[0]);
    reveal_strlit("Input Source");
    reveal_strlit("Dimmer Curve");
    assert("Dimmer Curve"@[0] != "Input Source"@[0]);
    reveal_strlit("Input Source");
    reveal_strlit("Magenta Mode");
    assert("Magenta Mode"@[0] != "Input Source"@[0]);
    reveal_strlit("Input Source");
    reveal_strlit("Custom Color");
    assert("Custom Color"@[0] != "Input Source"@[0]);
    reveal_strlit("Input Source");
    reveal_strlit("UV Stability");
    assert("UV Stability"@[0] != "Input Source"@[0]);
    reveal_strlit("Field of View");
    reveal_strlit("Blackout Mode");
    assert("Blackout Mode"@[0] != "Field of View"@[0]);
    reveal_strlit("Field of View");
    reveal_strlit("LED Frequency");
    assert("LED Frequency"@[0] != "Field of View"@[0]);
    reveal_strlit("Field of View");
    reveal_strlit("LED Zone Mode");
    assert("LED Zone Mode"@[0] != "Field of View"@[0]);
    reveal_strlit("Field of View");
    reveal_strlit("Pan Tilt Mode");
    assert("Pan Tilt Mode"@[0] != "Field of View"@[0]);
    reveal_strlit("Field of View");
    reveal_strlit("Color Control");
    assert("Color Control"@[0] != "Field of View"@[0]);
}

/// The attributes of part 0 are found by their pretty names.
proof fn lemma_pretties_found_0()
    ensures
        pretty_lookup("Dimmer"@) == Some(FixtureChannel3Attribute::Dimmer),
        pretty_lookup("Pan"@) == Some(FixtureChannel3Attribute::Pan),
        pretty_lookup("Tilt"@) == Some(FixtureChannel3Attribute::Tilt),
        pretty_lookup("Pan Rotate"@) == Some(FixtureChannel3Attribute::PanRotate),
        pretty_lookup("Tilt Rotate"@) == Some(FixtureChannel3Attribute::TiltRotate),
        pretty_lookup("Position Effect"@) == Some(FixtureChannel3Attribute::PositionEffect),
        pretty_lookup("Position Effect Rate"@) == Some(FixtureChannel3Attribute::PositionEffectRate),
        pretty_lookup("Position Effect Fade"@) == Some(FixtureChannel3Attribute::PositionEffectFade),
        pretty_lookup("X"@) == Some(FixtureChannel3Attribute::XyzX),
        pretty_lookup("Y"@) == Some(FixtureChannel3Attribute::XyzY),
        pretty_lookup("Z"@) == Some(FixtureChannel3Attribute::XyzZ),
        pretty_lookup("Rotation X"@) == Some(FixtureChannel3Attribute::RotX),
        pretty_lookup("Rotation Y"@) == Some(FixtureChannel3Attribute::RotY),
        pretty_lookup("Rotation Z"@) == Some(FixtureChannel3Attribute::RotZ),
        pretty_lookup("Scale X"@) == Some(FixtureChannel3Attribute::ScaleX),
        pretty_lookup("Scale Y"@) == Some(FixtureChannel3Attribute::ScaleY),
        pretty_lookup("Scale Z"@) == Some(FixtureChannel3Attribute::ScaleZ),
        pretty_lookup("Scale XYZ"@) == Some(FixtureChannel3Attribute::ScaleXYZ),
        pretty_lookup("Play Mode"@) == Some(FixtureChannel3Attribute::PlayMode),
        pretty_lookup("Play Begin"@) == Some(FixtureChannel3Attribute::PlayBegin),
        pretty_lookup("Play End"@) == Some(FixtureChannel3Attribute::PlayEnd),
        pretty_lookup("Play Speed"@) == Some(FixtureChannel3Attribute::PlaySpeed),
        pretty_lookup("Red"@) == Some(FixtureChannel3Attribute::ColorAddR),
        pretty_lookup("Green"@) == Some(FixtureChannel3Attribute::ColorAddG),
        pretty_lookup("Blue"@) == Some(FixtureChannel3Attribute::ColorAddB),
        pretty_lookup("Cyan"@) == Some(FixtureChannel3Attribute::ColorAddC),
        pretty_lookup("Magenta"@) == Some(FixtureChannel3Attribute::ColorAddM),
        pretty_lookup("Yellow"@) == Some(FixtureChannel3Attribute::ColorAddY),
        pretty_lookup("Red-Yellow"@) == Some(FixtureChannel3Attribute::ColorAddRY),
        pretty_lookup("Green-Yellow"@) == Some(FixtureChannel3Attribute::ColorAddGY),
        pretty_lookup("Green-Cyan"@) == Some(FixtureChannel3Attribute::ColorAddGC),
        pretty_lookup("Blue-Cyan"@) == Some(FixtureChannel3Attribute::ColorAddBC),
        pretty_lookup("Blue-Magenta"@) == Some(FixtureChannel3Attribute::ColorAddBM),
        pretty_lookup("Red-Magenta"@) == Some(FixtureChannel3Attribute::ColorAddRM),
        pretty_lookup("White"@) == Some(FixtureChannel3Attribute::ColorAddW),
        pretty_lookup("Warm White"@) == Some(FixtureChannel3Attribute::ColorAddWW),
        pretty_lookup("Cool White"@) == Some(FixtureChannel3Attribute::ColorAddCW),
        pretty_lookup("UV"@) == Some(FixtureChannel3Attribute::ColorAddUV),
        pretty_lookup("Red-"@) == Some(FixtureChannel3Attribute::ColorSubR),
        pretty_lookup("Green-"@) == Some(FixtureChannel3Attribute::ColorSubG),
        pretty_lookup("Blue-"@) == Some(FixtureChannel3Attribute::ColorSubB),
        pretty_lookup("Cyan-"@) == Some(FixtureChannel3Attribute::ColorSubC),
        pretty_lookup("Magenta-"@) == Some(FixtureChannel3Attribute::ColorSubM),
        pretty_lookup("Yellow-"@) == Some(FixtureChannel3Attribute::ColorSubY),
        pretty_lookup("CTO"@) == Some(FixtureChannel3Attribute::Cto),
        pretty_lookup("CTC"@) == Some(FixtureChannel3Attribute::Ctc),
{
    lemma_pretties_0_read();
}

/// The attributes of part 0 are found again from their pretty names.
#[verifier::rlimit(100)]
proof fn lemma_pretty_reads_back_0(a: FixtureChannel3Attribute)
    requires
        a is Dimmer || a is Pan || a is Tilt || a is PanRotate || a is TiltRotate || a is PositionEffect || a is PositionEffectRate || a is PositionEffectFade || a is XyzX || a is XyzY || a is XyzZ || a is RotX || a is RotY || a is RotZ || a is ScaleX || a is ScaleY || a is ScaleZ || a is ScaleXYZ || a is PlayMode || a is PlayBegin || a is PlayEnd || a is PlaySpeed || a is ColorAddR || a is ColorAddG || a is ColorAddB || a is ColorAddC || a is ColorAddM || a is ColorAddY || a is ColorAddRY || a is ColorAddGY || a is ColorAddGC || a is ColorAddBC || a is ColorAddBM || a is ColorAddRM || a is ColorAddW || a is ColorAddWW || a is ColorAddCW || a is ColorAddUV || a is ColorSubR || a is ColorSubG || a is ColorSubB || a is ColorSubC || a is ColorSubM || a is ColorSubY || a is Cto || a is Ctc,
    ensures
        pretty_lookup(attribute_pretty(a)) == Some(a),
{
    lemma_pretties_found_0();
    match a {
        FixtureChannel3Attribute::Dimmer => assert(attribute_pretty(a) == "Dimmer"@),
        FixtureChannel3Attribute::Pan => assert(attribute_pretty(a) == "Pan"@),
        FixtureChannel3Attribute::Tilt => assert(attribute_pretty(a) == "Tilt"@),
        FixtureChannel3Attribute::PanRotate => assert(attribute_pretty(a) == "Pan Rotate"@),
        FixtureChannel3Attribute::TiltRotate => assert(attribute_pretty(a) == "Tilt Rotate"@),
        FixtureChannel3Attribute::PositionEffect => assert(attribute_pretty(a) == "Position Effect"@),
        FixtureChannel3Attribute::PositionEffectRate => assert(attribute_pretty(a) == "Position Effect Rate"@),
        FixtureChannel3Attribute::PositionEffectFade => assert(attribute_pretty(a) == "Position Effect Fade"@),
        FixtureChannel3Attribute::XyzX => assert(attribute_pretty(a) == "X"@),
        FixtureChannel3Attribute::XyzY => assert(attribute_pretty(a) == "Y"@),
        FixtureChannel3Attribute::XyzZ => assert(attribute_pretty(a) == "Z"@),
        FixtureChannel3Attribute::RotX => assert(attribute_pretty(a) == "Rotation X"@),
        FixtureChannel3Attribute::RotY => assert(attribute_pretty(a) == "Rotation Y"@),
        FixtureChannel3Attribute::RotZ => assert(attribute_pretty(a) == "Rotation Z"@),
        FixtureChannel3Attribute::ScaleX => assert(attribute_pretty(a) == "Scale X"@),
        FixtureChannel3Attribute::ScaleY => assert(attribute_pretty(a) == "Scale Y"@),
        FixtureChannel3Attribute::ScaleZ => assert(attribute_pretty(a) == "Scale Z"@),
        FixtureChannel3Attribute::ScaleXYZ => assert(attribute_pretty(a) == "Scale XYZ"@),
        FixtureChannel3Attribute::PlayMode => assert(attribute_pretty(a) == "Play Mode"@),
        FixtureChannel3Attribute::PlayBegin => assert(attribute_pretty(a) == "Play Begin"@),
        FixtureChannel3Attribute::PlayEnd => assert(attribute_pretty(a) == "Play End"@),
        FixtureChannel3Attribute::PlaySpeed => assert(attribute_pretty(a) == "Play Speed"@),
        FixtureChannel3Attribute::ColorAddR => assert(attribute_pretty(a) == "Red"@),
        FixtureChannel3Attribute::ColorAddG => assert(attribute_pretty(a) == "Green"@),
        FixtureChannel3Attribute::ColorAddB => assert(attribute_pretty(a) == "Blue"@),
        FixtureChannel3Attribute::ColorAddC => assert(attribute_pretty(a) == "Cyan"@),
        FixtureChannel3Attribute::ColorAddM => assert(attribute_pretty(a) == "Magenta"@),
        FixtureChannel3Attribute::ColorAddY => assert(attribute_pretty(a) == "Yellow"@),
        FixtureChannel3Attribute::ColorAddRY => assert(attribute_pretty(a) == "Red-Yellow"@),
        FixtureChannel3Attribute::ColorAddGY => assert(attribute_pretty(a) == "Green-Yellow"@),
        FixtureChannel3Attribute::ColorAddGC => assert(attribute_pretty(a) == "Green-Cyan"@),
        FixtureChannel3Attribute::ColorAddBC => assert(attribute_pretty(a) == "Blue-Cyan"@),
        FixtureChannel3Attribute::ColorAddBM => assert(attribute_pretty(a) == "Blue-Magenta"@),
        FixtureChannel3Attribute::ColorAddRM => assert(attribute_pretty(a) == "Red-Magenta"@),
        FixtureChannel3Attribute::ColorAddW => assert(attribute_pretty(a) == "White"@),
        FixtureChannel3Attribute::ColorAddWW => assert(attribute_pretty(a) == "Warm White"@),
        FixtureChannel3Attribute::ColorAddCW => assert(attribute_pretty(a) == "Cool White"@),
        FixtureChannel3Attribute::ColorAddUV => assert(attribute_pretty(a) == "UV"@),
        FixtureChannel3Attribute::ColorSubR => assert(attribute_pretty(a) == "Red-"@),
        FixtureChannel3Attribute::ColorSubG => assert(attribute_pretty(a) == "Green-"@),
        FixtureChannel3Attribute::ColorSubB => assert(attribute_pretty(a) == "Blue-"@),
        FixtureChannel3Attribute::ColorSubC => assert(attribute_pretty(a) == "Cyan-"@),
        FixtureChannel3Attribute::ColorSubM => assert(attribute_pretty(a) == "Magenta-"@),
        FixtureChannel3Attribute::ColorSubY => assert(attribute_pretty(a) == "Yellow-"@),
        FixtureChannel3Attribute::Cto => assert(attribute_pretty(a) == "CTO"@),
        FixtureChannel3Attribute::Ctc => assert(attribute_pretty(a) == "CTC"@),
        _ => {},
    }
}

/// The attributes of part 1 are found by their pretty names.
proof fn lemma_pretties_found_1()
    ensures
        pretty_lookup("CTB"@) == Some(FixtureChannel3Attribute::Ctb),
        pretty_lookup("Tint"@) == Some(FixtureChannel3Attribute::Tint),
        pretty_lookup("HSB Hue"@) == Some(FixtureChannel3Attribute::HsbHue),
        pretty_lookup("HSB Saturation"@) == Some(FixtureChannel3Attribute::HsbSaturation),
        pretty_lookup("HSB Brightness"@) == Some(FixtureChannel3Attribute::HsbBrightness),
        pretty_lookup("HSB Quality"@) == Some(FixtureChannel3Attribute::HsbQuality),
        pretty_lookup("CIE X"@) == Some(FixtureChannel3Attribute::CieX),
        pretty_lookup("CIE Y"@) == Some(FixtureChannel3Attribute::CieY),
        pretty_lookup("CIE Brightness"@) == Some(FixtureChannel3Attribute::CieBrightness),
        pretty_lookup("RGB Red"@) == Some(FixtureChannel3Attribute::ColorRgbRed),
        pretty_lookup("RGB Green"@) == Some(FixtureChannel3Attribute::ColorRgbGreen),
        pretty_lookup("RGB Blue"@) == Some(FixtureChannel3Attribute::ColorRgbBlue),
        pretty_lookup("RGB Cyan"@) == Some(FixtureChannel3Attribute::ColorRgbCyan),
        pretty_lookup("RGB Magenta"@) == Some(FixtureChannel3Attribute::ColorRgbMagenta),
        pretty_lookup("RGB Yellow"@) == Some(FixtureChannel3Attribute::ColorRgbYellow),
        pretty_lookup("RGB Quality"@) == Some(FixtureChannel3Attribute::ColorRgbQuality),
        pretty_lookup("Video Boost Red"@) == Some(FixtureChannel3Attribute::VideoBoostR),
        pretty_lookup("Video Boost Green"@) == Some(FixtureChannel3Attribute::VideoBoostG),
        pretty_lookup("Video Boost Blue"@) == Some(FixtureChannel3Attribute::VideoBoostB),
        pretty_lookup("Video Hue Shift"@) == Some(FixtureChannel3Attribute::VideoHueShift),
        pretty_lookup("Video Saturation"@) == Some(FixtureChannel3Attribute::VideoSaturation),
        pretty_lookup("Video Brightness"@) == Some(FixtureChannel3Attribute::VideoBrightness),
        pretty_lookup("Video Contrast"@) == Some(FixtureChannel3Attribute::VideoContrast),
        pretty_lookup("Video Key Color Red"@) == Some(FixtureChannel3Attribute::VideoKeyColorR),
        pretty_lookup("Video Key Color Green"@) == Some(FixtureChannel3Attribute::VideoKeyColorG),
        pretty_lookup("Video Key Color Blue"@) == Some(FixtureChannel3Attribute::VideoKeyColorB),
        pretty_lookup("Video Key Intensity"@) == Some(FixtureChannel3Attribute::VideoKeyIntensity),
        pretty_lookup("Video Key Tolerance"@) == Some(FixtureChannel3Attribute::VideoKeyTolerance),
        pretty_lookup("Strobe Duration"@) == Some(FixtureChannel3Attribute::StrobeDuration),
        pretty_lookup("Strobe Rate"@) == Some(FixtureChannel3Attribute::StrobeRate),
        pretty_lookup("Strobe Frequency"@) == Some(FixtureChannel3Attribute::StrobeFrequency),
        pretty_lookup("Strobe Mode Shutter"@) == Some(FixtureChannel3Attribute::StrobeModeShutter),
        pretty_lookup("Strobe Mode Strobe"@) == Some(FixtureChannel3Attribute::StrobeModeStrobe),
        pretty_lookup("Strobe Mode Pulse"@) == Some(FixtureChannel3Attribute::StrobeModePulse),
        pretty_lookup("Strobe Mode Pulse Open"@) == Some(FixtureChannel3Attribute::StrobeModePulseOpen),
        pretty_lookup("Strobe Mode Pulse Close"@) == Some(FixtureChannel3Attribute::StrobeModePulseClose),
        pretty_lookup("Strobe Mode Random"@) == Some(FixtureChannel3Attribute::StrobeModeRandom),
        pretty_lookup("Strobe Mode Random Pulse"@) == Some(FixtureChannel3Attribute::StrobeModeRandomPulse),
        pretty_lookup("Strobe Mode Random Pulse Open"@) == Some(FixtureChannel3Attribute::StrobeModeRandomPulseOpen),
        pretty_lookup("Strobe Mode Random Pulse Close"@) == Some(FixtureChannel3Attribute::StrobeModeRandomPulseClose),
        pretty_lookup("Strobe Mode Effect"@) == Some(FixtureChannel3Attribute::StrobeModeEffect),
        pretty_lookup("Iris"@) == Some(FixtureChannel3Attribute::Iris),
        pretty_lookup("Iris Strobe"@) == Some(FixtureChannel3Attribute::IrisStrobe),
        pretty_lookup("Iris Strobe Random"@) == Some(FixtureChannel3Attribute::IrisStrobeRandom),
        pretty_lookup("Iris Pulse Close"@) == Some(FixtureChannel3Attribute::IrisPulseClose),
        pretty_lookup("Iris Pulse Open"@) == Some(FixtureChannel3Attribute::IrisPulseOpen),
{
    lemma_pretties_1_not_in_0();
    lemma_pretties_1_read();
}

/// The attributes of part 1 are found again from their pretty names.
#[verifier::rlimit(100)]
proof fn lemma_pretty_reads_back_1(a: FixtureChannel3Attribute)
    requires
        a is Ctb || a is Tint || a is HsbHue || a is HsbSaturation || a is HsbBrightness || a is HsbQuality || a is CieX || a is CieY || a is CieBrightness || a is ColorRgbRed || a is ColorRgbGreen || a is ColorRgbBlue || a is ColorRgbCyan || a is ColorRgbMagenta || a is ColorRgbYellow || a is ColorRgbQuality || a is VideoBoostR || a is VideoBoostG || a is VideoBoostB || a is VideoHueShift || a is VideoSaturation || a is VideoBrightness || a is VideoContrast || a is VideoKeyColorR || a is VideoKeyColorG || a is VideoKeyColorB || a is VideoKeyIntensity || a is VideoKeyTolerance || a is StrobeDuration || a is StrobeRate || a is StrobeFrequency || a is StrobeModeShutter || a is StrobeModeStrobe || a is StrobeModePulse || a is StrobeModePulseOpen || a is StrobeModePulseClose || a is StrobeModeRandom || a is StrobeModeRandomPulse || a is StrobeModeRandomPulseOpen || a is StrobeModeRandomPulseClose || a is StrobeModeEffect || a is Iris || a is IrisStrobe || a is IrisStrobeRandom || a is IrisPulseClose || a is IrisPulseOpen,
    ensures
        pretty_lookup(attribute_pretty(a)) == Some(a),
{
    lemma_pretties_found_1();
    match a {
        FixtureChannel3Attribute::Ctb => assert(attribute_pretty(a) == "CTB"@),
        FixtureChannel3Attribute::Tint => assert(attribute_pretty(a) == "Tint"@),
        FixtureChannel3Attribute::HsbHue => assert(attribute_pretty(a) == "HSB Hue"@),
        FixtureChannel3Attribute::HsbSaturation => assert(attribute_pretty(a) == "HSB Saturation"@),
        FixtureChannel3Attribute::HsbBrightness => assert(attribute_pretty(a) == "HSB Brightness"@),
        FixtureChannel3Attribute::HsbQuality => assert(attribute_pretty(a) == "HSB Quality"@),
        FixtureChannel3Attribute::CieX => assert(attribute_pretty(a) == "CIE X"@),
        FixtureChannel3Attribute::CieY => assert(attribute_pretty(a) == "CIE Y"@),
        FixtureChannel3Attribute::CieBrightness => assert(attribute_pretty(a) == "CIE Brightness"@),
        FixtureChannel3Attribute::ColorRgbRed => assert(attribute_pretty(a) == "RGB Red"@),
        FixtureChannel3Attribute::ColorRgbGreen => assert(attribute_pretty(a) == "RGB Green"@),
        FixtureChannel3Attribute::ColorRgbBlue => assert(attribute_pretty(a) == "RGB Blue"@),
        FixtureChannel3Attribute::ColorRgbCyan => assert(attribute_pretty(a) == "RGB Cyan"@),
        FixtureChannel3Attribute::ColorRgbMagenta => assert(attribute_pretty(a) == "RGB Magenta"@),
        FixtureChannel3Attribute::ColorRgbYellow => assert(attribute_pretty(a) == "RGB Yellow"@),
        FixtureChannel3Attribute::ColorRgbQuality => assert(attribute_pretty(a) == "RGB Quality"@),
        FixtureChannel3Attribute::VideoBoostR => assert(attribute_pretty(a) == "Video Boost Red"@),
        FixtureChannel3Attribute::VideoBoostG => assert(attribute_pretty(a) == "Video Boost Green"@),
        FixtureChannel3Attribute::VideoBoostB => assert(attribute_pretty(a) == "Video Boost Blue"@),
        FixtureChannel3Attribute::VideoHueShift => assert(attribute_pretty(a) == "Video Hue Shift"@),
        FixtureChannel3Attribute::VideoSaturation => assert(attribute_pretty(a) == "Video Saturation"@),
        FixtureChannel3Attribute::VideoBrightness => assert(attribute_pretty(a) == "Video Brightness"@),
        FixtureChannel3Attribute::VideoContrast => assert(attribute_pretty(a) == "Video Contrast"@),
        FixtureChannel3Attribute::VideoKeyColorR => assert(attribute_pretty(a) == "Video Key Color Red"@),
        FixtureChannel3Attribute::VideoKeyColorG => assert(attribute_pretty(a) == "Video Key Color Green"@),
        FixtureChannel3Attribute::VideoKeyColorB => assert(attribute_pretty(a) == "Video Key Color Blue"@),
        FixtureChannel3Attribute::VideoKeyIntensity => assert(attribute_pretty(a) == "Video Key Intensity"@),
        FixtureChannel3Attribute::VideoKeyTolerance => assert(attribute_pretty(a) == "Video Key Tolerance"@),
        FixtureChannel3Attribute::StrobeDuration => assert(attribute_pretty(a) == "Strobe Duration"@),
        FixtureChannel3Attribute::StrobeRate => assert(attribute_pretty(a) == "Strobe Rate"@),
        FixtureChannel3Attribute::StrobeFrequency => assert(attribute_pretty(a) == "Strobe Frequency"@),
        FixtureChannel3Attribute::StrobeModeShutter => assert(attribute_pretty(a) == "Strobe Mode Shutter"@),
        FixtureChannel3Attribute::StrobeModeStrobe => assert(attribute_pretty(a) == "Strobe Mode Strobe"@),
        FixtureChannel3Attribute::StrobeModePulse => assert(attribute_pretty(a) == "Strobe Mode Pulse"@),
        FixtureChannel3Attribute::StrobeModePulseOpen => assert(attribute_pretty(a) == "Strobe Mode Pulse Open"@),
        FixtureChannel3Attribute::StrobeModePulseClose => assert(attribute_pretty(a) == "Strobe Mode Pulse Close"@),
        FixtureChannel3Attribute::StrobeModeRandom => assert(attribute_pretty(a) == "Strobe Mode Random"@),
        FixtureChannel3Attribute::StrobeModeRandomPulse => assert(attribute_pretty(a) == "Strobe Mode Random Pulse"@),
        FixtureChannel3Attribute::StrobeModeRandomPulseOpen => assert(attribute_pretty(a) == "Strobe Mode Random Pulse Open"@),
        FixtureChannel3Attribute::StrobeModeRandomPulseClose => assert(attribute_pretty(a) == "Strobe Mode Random Pulse Close"@),
        FixtureChannel3Attribute::StrobeModeEffect => assert(attribute_pretty(a) == "Strobe Mode Effect"@),
        FixtureChannel3Attribute::Iris => assert(attribute_pretty(a) == "Iris"@),
        FixtureChannel3Attribute::IrisStrobe => assert(attribute_pretty(a) == "Iris Strobe"@),
        FixtureChannel3Attribute::IrisStrobeRandom => assert(attribute_pretty(a) == "Iris Strobe Random"@),
        FixtureChannel3Attribute::IrisPulseClose => assert(attribute_pretty(a) == "Iris Pulse Close"@),
        FixtureChannel3Attribute::IrisPulseOpen => assert(attribute_pretty(a) == "Iris Pulse Open"@),
        _ => {},
    }
}

/// The attributes of part 2 are found by their pretty names.
proof fn lemma_pretties_found_2()
    ensures
        pretty_lookup("Iris Random Pulse Close"@) == Some(FixtureChannel3Attribute::IrisRandomPulseClose),
        pretty_lookup("Iris Random Pulse Open"@) == Some(FixtureChannel3Attribute::IrisRandomPulseOpen),
        pretty_lookup("Effects Sync"@) == Some(FixtureChannel3Attribute::EffectsSync),
        pretty_lookup("Beam Shaper"@) == Some(FixtureChannel3Attribute::BeamShaper),
        pretty_lookup("Beam Shaper Macro"@) == Some(FixtureChannel3Attribute::BeamShaperMacro),
        pretty_lookup("Beam Shaper Position"@) == Some(FixtureChannel3Attribute::BeamShaperPos),
        pretty_lookup("Beam Shaper Position Rotate"@) == Some(FixtureChannel3Attribute::BeamShaperPosRotate),
        pretty_lookup("Zoom"@) == Some(FixtureChannel3Attribute::Zoom),
        pretty_lookup("Zoom Mode Spot"@) == Some(FixtureChannel3Attribute::ZoomModeSpot),
        pretty_lookup("Zoom Mode Beam"@) == Some(FixtureChannel3Attribute::ZoomModeBeam),
        pretty_lookup("Digital Zoom"@) == Some(FixtureChannel3Attribute::DigitalZoom),
        pretty_lookup("Dimmer Mode"@) == Some(FixtureChannel3Attribute::DimmerMode),
        pretty_lookup("Dimmer Curve"@) == Some(FixtureChannel3Attribute::DimmerCurve),
        pretty_lookup("Blackout Mode"@) == Some(FixtureChannel3Attribute::BlackoutMode),
        pretty_lookup("LED Frequency"@) == Some(FixtureChannel3Attribute::LedFrequency),
        pretty_lookup("LED Zone Mode"@) == Some(FixtureChannel3Attribute::LedZoneMode),
        pretty_lookup("Pixel Mode"@) == Some(FixtureChannel3Attribute::PixelMode),
        pretty_lookup("Pan Mode"@) == Some(FixtureChannel3Attribute::PanMode),
        pretty_lookup("Tilt Mode"@) == Some(FixtureChannel3Attribute::TiltMode),
        pretty_lookup("Pan Tilt Mode"@) == Some(FixtureChannel3Attribute::PanTiltMode),
        pretty_lookup("Position Modes"@) == Some(FixtureChannel3Attribute::PositionModes),
        pretty_lookup("Gobo Wheel Shortcut Mode"@) == Some(FixtureChannel3Attribute::GoboWheelShortcutMode),
        pretty_lookup("Animation Wheel Shortcut Mode"@) == Some(FixtureChannel3Attribute::AnimationWheelShortcutMode),
        pretty_lookup("Color Wheel Shortcut Mode"@) == Some(FixtureChannel3Attribute::ColorWheelShortcutMode),
        pretty_lookup("Cyan Mode"@) == Some(FixtureChannel3Attribute::CyanMode),
        pretty_lookup("Magenta Mode"@) == Some(FixtureChannel3Attribute::MagentaMode),
        pretty_lookup("Yellow Mode"@) == Some(FixtureChannel3Attribute::YellowMode),
        pretty_lookup("Color Mix Mode"@) == Some(FixtureChannel3Attribute::ColorMixMode),
        pretty_lookup("Chromatic Mode"@) == Some(FixtureChannel3Attribute::ChromaticMode),
        pretty_lookup("Color Calibration Mode"@) == Some(FixtureChannel3Attribute::ColorCalibrationMode),
        pretty_lookup("Color Consistency"@) == Some(FixtureChannel3Attribute::ColorConsistency),
        pretty_lookup("Color Control"@) == Some(FixtureChannel3Attribute::ColorControl),
        pretty_lookup("Color Model Mode"@) == Some(FixtureChannel3Attribute::ColorModelMode),
        pretty_lookup("Color Settings Reset"@) == Some(FixtureChannel3Attribute::ColorSettingsReset),
        pretty_lookup("Color Uniformity"@) == Some(FixtureChannel3Attribute::ColorUniformity),
        pretty_lookup("CRI Mode"@) == Some(FixtureChannel3Attribute::CriMode),
        pretty_lookup("Custom Color"@) == Some(FixtureChannel3Attribute::CustomColor),
        pretty_lookup("UV Stability"@) == Some(FixtureChannel3Attribute::UvStability),
        pretty_lookup("Wavelength Correction"@) == Some(FixtureChannel3Attribute::WavelengthCorrection),
        pretty_lookup("White Count"@) == Some(FixtureChannel3Attribute::WhiteCount),
        pretty_lookup("Strobe Mode"@) == Some(FixtureChannel3Attribute::StrobeMode),
        pretty_lookup("Zoom Mode"@) == Some(FixtureChannel3Attribute::ZoomMode),
        pretty_lookup("Focus Mode"@) == Some(FixtureChannel3Attribute::FocusMode),
        pretty_lookup("Iris Mode"@) == Some(FixtureChannel3Attribute::IrisMode),
        pretty_lookup("Follow Spot Mode"@) == Some(FixtureChannel3Attribute::FollowSpotMode),
        pretty_lookup("Beam Effect Index Rotate Mode"@) == Some(FixtureChannel3Attribute::BeamEffectIndexRotateMode),
{
    lemma_pretties_2_not_in_0();
    lemma_pretties_2_not_in_1();
    lemma_pretties_2_read();
}

/// The attributes of part 2 are found again from their pretty names.
#[verifier::rlimit(100)]
proof fn lemma_pretty_reads_back_2(a: FixtureChannel3Attribute)
    requires
        a is IrisRandomPulseClose || a is IrisRandomPulseOpen || a is EffectsSync || a is BeamShaper || a is BeamShaperMacro || a is BeamShaperPos || a is BeamShaperPosRotate || a is Zoom || a is ZoomModeSpot || a is ZoomModeBeam || a is DigitalZoom || a is DimmerMode || a is DimmerCurve || a is BlackoutMode || a is LedFrequency || a is LedZoneMode || a is PixelMode || a is PanMode || a is TiltMode || a is PanTiltMode || a is PositionModes || a is GoboWheelShortcutMode || a is AnimationWheelShortcutMode || a is ColorWheelShortcutMode || a is CyanMode || a is MagentaMode || a is YellowMode || a is ColorMixMode || a is ChromaticMode || a is ColorCalibrationMode || a is ColorConsistency || a is ColorControl || a is ColorModelMode || a is ColorSettingsReset || a is ColorUniformity || a is CriMode || a is CustomColor || a is UvStability || a is WavelengthCorrection || a is WhiteCount || a is StrobeMode || a is ZoomMode || a is FocusMode || a is IrisMode || a is FollowSpotMode || a is BeamEffectIndexRotateMode,
    ensures
        pretty_lookup(attribute_pretty(a)) == Some(a),
{
    lemma_pretties_found_2();
    match a {
        FixtureChannel3Attribute::IrisRandomPulseClose => assert(attribute_pretty(a) == "Iris Random Pulse Close"@),
        FixtureChannel3Attribute::IrisRandomPulseOpen => assert(attribute_pretty(a) == "Iris Random Pulse Open"@),
        FixtureChannel3Attribute::EffectsSync => assert(attribute_pretty(a) == "Effects Sync"@),
        FixtureChannel3Attribute::BeamShaper => assert(attribute_pretty(a) == "Beam Shaper"@),
        FixtureChannel3Attribute::BeamShaperMacro => assert(attribute_pretty(a) == "Beam Shaper Macro"@),
        FixtureChannel3Attribute::BeamShaperPos => assert(attribute_pretty(a) == "Beam Shaper Position"@),
        FixtureChannel3Attribute::BeamShaperPosRotate => assert(attribute_pretty(a) == "Beam Shaper Position Rotate"@),
        FixtureChannel3Attribute::Zoom => assert(attribute_pretty(a) == "Zoom"@),
        FixtureChannel3Attribute::ZoomModeSpot => assert(attribute_pretty(a) == "Zoom Mode Spot"@),
        FixtureChannel3Attribute::ZoomModeBeam => assert(attribute_pretty(a) == "Zoom Mode Beam"@),
        FixtureChannel3Attribute::DigitalZoom => assert(attribute_pretty(a) == "Digital Zoom"@),
        FixtureChannel3Attribute::DimmerMode => assert(attribute_pretty(a) == "Dimmer Mode"@),
        FixtureChannel3Attribute::DimmerCurve => assert(attribute_pretty(a) == "Dimmer Curve"@),
        FixtureChannel3Attribute::BlackoutMode => assert(attribute_pretty(a) == "Blackout Mode"@),
        FixtureChannel3Attribute::LedFrequency => assert(attribute_pretty(a) == "LED Frequency"@),
        FixtureChannel3Attribute::LedZoneMode => assert(attribute_pretty(a) == "LED Zone Mode"@),
        FixtureChannel3Attribute::PixelMode => assert(attribute_pretty(a) == "Pixel Mode"@),
        FixtureChannel3Attribute::PanMode => assert(attribute_pretty(a) == "Pan Mode"@),
        FixtureChannel3Attribute::TiltMode => assert(attribute_pretty(a) == "Tilt Mode"@),
        FixtureChannel3Attribute::PanTiltMode => assert(attribute_pretty(a) == "Pan Tilt Mode"@),
        FixtureChannel3Attribute::PositionModes => assert(attribute_pretty(a) == "Position Modes"@),
        FixtureChannel3Attribute::GoboWheelShortcutMode => assert(attribute_pretty(a) == "Gobo Wheel Shortcut Mode"@),
        FixtureChannel3Attribute::AnimationWheelShortcutMode => assert(attribute_pretty(a) == "Animation Wheel Shortcut Mode"@),
        FixtureChannel3Attribute::ColorWheelShortcutMode => assert(attribute_pretty(a) == "Color Wheel Shortcut Mode"@),
        FixtureChannel3Attribute::CyanMode => assert(attribute_pretty(a) == "Cyan Mode"@),
        FixtureChannel3Attribute::MagentaMode => assert(attribute_pretty(a) == "Magenta Mode"@),
        FixtureChannel3Attribute::YellowMode => assert(attribute_pretty(a) == "Yellow Mode"@),
        FixtureChannel3Attribute::ColorMixMode => assert(attribute_pretty(a) == "Color Mix Mode"@),
        FixtureChannel3Attribute::ChromaticMode => assert(attribute_pretty(a) == "Chromatic Mode"@),
        FixtureChannel3Attribute::ColorCalibrationMode => assert(attribute_pretty(a) == "Color Calibration Mode"@),
        FixtureChannel3Attribute::ColorConsistency => assert(attribute_pretty(a) == "Color Consistency"@),
        FixtureChannel3Attribute::ColorControl => assert(attribute_pretty(a) == "Color Control"@),
        FixtureChannel3Attribute::ColorModelMode => assert(attribute_pretty(a) == "Color Model Mode"@),
        FixtureChannel3Attribute::ColorSettingsReset => assert(attribute_pretty(a) == "Color Settings Reset"@),
        FixtureChannel3Attribute::ColorUniformity => assert(attribute_pretty(a) == "Color Uniformity"@),
        FixtureChannel3Attribute::CriMode => assert(attribute_pretty(a) == "CRI Mode"@),
        FixtureChannel3Attribute::CustomColor => assert(attribute_pretty(a) == "Custom Color"@),
        FixtureChannel3Attribute::UvStability => assert(attribute_pretty(a) == "UV Stability"@),
        FixtureChannel3Attribute::WavelengthCorrection => assert(attribute_pretty(a) == "Wavelength Correction"@),
        FixtureChannel3Attribute::WhiteCount => assert(attribute_pretty(a) == "White Count"@),
        FixtureChannel3Attribute::StrobeMode => assert(attribute_pretty(a) == "Strobe Mode"@),
        FixtureChannel3Attribute::ZoomMode => assert(attribute_pretty(a) == "Zoom Mode"@),
        FixtureChannel3Attribute::FocusMode => assert(attribute_pretty(a) == "Focus Mode"@),
        FixtureChannel3Attribute::IrisMode => assert(attribute_pretty(a) == "Iris Mode"@),
        FixtureChannel3Attribute::FollowSpotMode => assert(attribute_pretty(a) == "Follow Spot Mode"@),
        FixtureChannel3Attribute::BeamEffectIndexRotateMode => assert(attribute_pretty(a) == "Beam Effect Index Rotate Mode"@),
        _ => {},
    }
}

/// The attributes of part 3 are found by their pretty names.
proof fn lemma_pretties_found_3()
    ensures
        pretty_lookup("Intensity MSpeed"@) == Some(FixtureChannel3Attribute::IntensityMSpeed),
        pretty_lookup("Position MSpeed"@) == Some(FixtureChannel3Attribute::PositionMSpeed),
        pretty_lookup("Color Mix MSpeed"@) == Some(FixtureChannel3Attribute::ColorMixMSpeed),
        pretty_lookup("Color Wheel Select MSpeed"@) == Some(FixtureChannel3Attribute::ColorWheelSelectMSpeed),
        pretty_lookup("Iris MSpeed"@) == Some(FixtureChannel3Attribute::IrisMSpeed),
        pretty_lookup("Focus MSpeed"@) == Some(FixtureChannel3Attribute::FocusMSpeed),
        pretty_lookup("Zoom MSpeed"@) == Some(FixtureChannel3Attribute::ZoomMSpeed),
        pretty_lookup("Frame MSpeed"@) == Some(FixtureChannel3Attribute::FrameMSpeed),
        pretty_lookup("Global MSpeed"@) == Some(FixtureChannel3Attribute::GlobalMSpeed),
        pretty_lookup("Reflector Adjust"@) == Some(FixtureChannel3Attribute::ReflectorAdjust),
        pretty_lookup("Fixture Global Reset"@) == Some(FixtureChannel3Attribute::FixtureGlobalReset),
        pretty_lookup("Dimmer Reset"@) == Some(FixtureChannel3Attribute::DimmerReset),
        pretty_lookup("Shutter Reset"@) == Some(FixtureChannel3Attribute::ShutterReset),
        pretty_lookup("Beam Reset"@) == Some(FixtureChannel3Attribute::BeamReset),
        pretty_lookup("Color Mix Reset"@) == Some(FixtureChannel3Attribute::ColorMixReset),
        pretty_lookup("Color Wheel Reset"@) == Some(FixtureChannel3Attribute::ColorWheelReset),
        pretty_lookup("Focus Reset"@) == Some(FixtureChannel3Attribute::FocusReset),
        pretty_lookup("Frame Reset"@) == Some(FixtureChannel3Attribute::FrameReset),
        pretty_lookup("Gobo Wheel Reset"@) == Some(FixtureChannel3Attribute::GoboWheelReset),
        pretty_lookup("Intensity Reset"@) == Some(FixtureChannel3Attribute::IntensityReset),
        pretty_lookup("Iris Reset"@) == Some(FixtureChannel3Attribute::IrisReset),
        pretty_lookup("Position Reset"@) == Some(FixtureChannel3Attribute::PositionReset),
        pretty_lookup("Pan Reset"@) == Some(FixtureChannel3Attribute::PanReset),
        pretty_lookup("Tilt Reset"@) == Some(FixtureChannel3Attribute::TiltReset),
        pretty_lookup("Zoom Reset"@) == Some(FixtureChannel3Attribute::ZoomReset),
        pretty_lookup("CTB Reset"@) == Some(FixtureChannel3Attribute::CtbReset),
        pretty_lookup("CTO Reset"@) == Some(FixtureChannel3Attribute::CtoReset),
        pretty_lookup("CTC Reset"@) == Some(FixtureChannel3Attribute::CtcReset),
        pretty_lookup("Animation System Reset"@) == Some(FixtureChannel3Attribute::AnimationSystemReset),
        pretty_lookup("Fixture Calibration Reset"@) == Some(FixtureChannel3Attribute::FixtureCalibrationReset),
        pretty_lookup("Function"@) == Some(FixtureChannel3Attribute::Function),
        pretty_lookup("Lamp Control"@) == Some(FixtureChannel3Attribute::LampControl),
        pretty_lookup("Display Intensity"@) == Some(FixtureChannel3Attribute::DisplayIntensity),
        pretty_lookup("DMX Input"@) == Some(FixtureChannel3Attribute::DmxInput),
        pretty_lookup("No Feature"@) == Some(FixtureChannel3Attribute::NoFeature),
        pretty_lookup("Lamp Power Mode"@) == Some(FixtureChannel3Attribute::LampPowerMode),
        pretty_lookup("Fans"@) == Some(FixtureChannel3Attribute::Fans),
        pretty_lookup("Shaper Rotation"@) == Some(FixtureChannel3Attribute::ShaperRot),
        pretty_lookup("Shaper Macros"@) == Some(FixtureChannel3Attribute::ShaperMacros),
        pretty_lookup("Shaper Macros Speed"@) == Some(FixtureChannel3Attribute::ShaperMacrosSpeed),
        pretty_lookup("Video"@) == Some(FixtureChannel3Attribute::Video),
        pretty_lookup("Video Blend Mode"@) == Some(FixtureChannel3Attribute::VideoBlendMode),
        pretty_lookup("Input Source"@) == Some(FixtureChannel3Attribute::InputSource),
        pretty_lookup("Field of View"@) == Some(FixtureChannel3Attribute::FieldOfView),
{
    lemma_pretties_3_not_in_0();
    lemma_pretties_3_not_in_1();
    lemma_pretties_3_not_in_2();
    lemma_pretties_3_read();
}

/// The attributes of part 3 are found again from their pretty names.
#[verifier::rlimit(100)]
proof fn lemma_pretty_reads_back_3(a: FixtureChannel3Attribute)
    requires
        a is IntensityMSpeed || a is PositionMSpeed || a is ColorMixMSpeed || a is ColorWheelSelectMSpeed || a is IrisMSpeed || a is FocusMSpeed || a is ZoomMSpeed || a is FrameMSpeed || a is GlobalMSpeed || a is ReflectorAdjust || a is FixtureGlobalReset || a is DimmerReset || a is ShutterReset || a is BeamReset || a is ColorMixReset || a is ColorWheelReset || a is FocusReset || a is FrameReset || a is GoboWheelReset || a is IntensityReset || a is IrisReset || a is PositionReset || a is PanReset || a is TiltReset || a is ZoomReset || a is CtbReset || a is CtoReset || a is CtcReset || a is AnimationSystemReset || a is FixtureCalibrationReset || a is Function || a is LampControl || a is DisplayIntensity || a is DmxInput || a is NoFeature || a is LampPowerMode || a is Fans || a is ShaperRot || a is ShaperMacros || a is ShaperMacrosSpeed || a is Video || a is VideoBlendMode || a is InputSource || a is FieldOfView,
    ensures
        pretty_lookup(attribute_pretty(a)) == Some(a),
{
    lemma_pretties_found_3();
    match a {
        FixtureChannel3Attribute::IntensityMSpeed => assert(attribute_pretty(a) == "Intensity MSpeed"@),
        FixtureChannel3Attribute::PositionMSpeed => assert(attribute_pretty(a) == "Position MSpeed"@),
        FixtureChannel3Attribute::ColorMixMSpeed => assert(attribute_pretty(a) == "Color Mix MSpeed"@),
        FixtureChannel3Attribute::ColorWheelSelectMSpeed => assert(attribute_pretty(a) == "Color Wheel Select MSpeed"@),
        FixtureChannel3Attribute::IrisMSpeed => assert(attribute_pretty(a) == "Iris MSpeed"@),
        FixtureChannel3Attribute::FocusMSpeed => assert(attribute_pretty(a) == "Focus MSpeed"@),
        FixtureChannel3Attribute::ZoomMSpeed => assert(attribute_pretty(a) == "Zoom MSpeed"@),
        FixtureChannel3Attribute::FrameMSpeed => assert(attribute_pretty(a) == "Frame MSpeed"@),
        FixtureChannel3Attribute::GlobalMSpeed => assert(attribute_pretty(a) == "Global MSpeed"@),
        FixtureChannel3Attribute::ReflectorAdjust => assert(attribute_pretty(a) == "Reflector Adjust"@),
        FixtureChannel3Attribute::FixtureGlobalReset => assert(attribute_pretty(a) == "Fixture Global Reset"@),
        FixtureChannel3Attribute::DimmerReset => assert(attribute_pretty(a) == "Dimmer Reset"@),
        FixtureChannel3Attribute::ShutterReset => assert(attribute_pretty(a) == "Shutter Reset"@),
        FixtureChannel3Attribute::BeamReset => assert(attribute_pretty(a) == "Beam Reset"@),
        FixtureChannel3Attribute::ColorMixReset => assert(attribute_pretty(a) == "Color Mix Reset"@),
        FixtureChannel3Attribute::ColorWheelReset => assert(attribute_pretty(a) == "Color Wheel Reset"@),
        FixtureChannel3Attribute::FocusReset => assert(attribute_pretty(a) == "Focus Reset"@),
        FixtureChannel3Attribute::FrameReset => assert(attribute_pretty(a) == "Frame Reset"@),
        FixtureChannel3Attribute::GoboWheelReset => assert(attribute_pretty(a) == "Gobo Wheel Reset"@),
        FixtureChannel3Attribute::IntensityReset => assert(attribute_pretty(a) == "Intensity Reset"@),
        FixtureChannel3Attribute::IrisReset => assert(attribute_pretty(a) == "Iris Reset"@),
        FixtureChannel3Attribute::PositionReset => assert(attribute_pretty(a) == "Position Reset"@),
        FixtureChannel3Attribute::PanReset => assert(attribute_pretty(a) == "Pan Reset"@),
        FixtureChannel3Attribute::TiltReset => assert(attribute_pretty(a) == "Tilt Reset"@),
        FixtureChannel3Attribute::ZoomReset => assert(attribute_pretty(a) == "Zoom Reset"@),
        FixtureChannel3Attribute::CtbReset => assert(attribute_pretty(a) == "CTB Reset"@),
        FixtureChannel3Attribute::CtoReset => assert(attribute_pretty(a) == "CTO Reset"@),
        FixtureChannel3Attribute::CtcReset => assert(attribute_pretty(a) == "CTC Reset"@),
        FixtureChannel3Attribute::AnimationSystemReset => assert(attribute_pretty(a) == "Animation System Reset"@),
        FixtureChannel3Attribute::FixtureCalibrationReset => assert(attribute_pretty(a) == "Fixture Calibration Reset"@),
        FixtureChannel3Attribute::Function => assert(attribute_pretty(a) == "Function"@),
        FixtureChannel3Attribute::LampControl => assert(attribute_pretty(a) == "Lamp Control"@),
        FixtureChannel3Attribute::DisplayIntensity => assert(attribute_pretty(a) == "Display Intensity"@),
        FixtureChannel3Attribute::DmxInput => assert(attribute_pretty(a) == "DMX Input"@),
        FixtureChannel3Attribute::NoFeature => assert(attribute_pretty(a) == "No Feature"@),
        FixtureChannel3Attribute::LampPowerMode => assert(attribute_pretty(a) == "Lamp Power Mode"@),
        FixtureChannel3Attribute::Fans => assert(attribute_pretty(a) == "Fans"@),
        FixtureChannel3Attribute::ShaperRot => assert(attribute_pretty(a) == "Shaper Rotation"@),
        FixtureChannel3Attribute::ShaperMacros => assert(attribute_pretty(a) == "Shaper Macros"@),
        FixtureChannel3Attribute::ShaperMacrosSpeed => assert(attribute_pretty(a) == "Shaper Macros Speed"@),
        FixtureChannel3Attribute::Video => assert(attribute_pretty(a) == "Video"@),
        FixtureChannel3Attribute::VideoBlendMode => assert(attribute_pretty(a) == "Video Blend Mode"@),
        FixtureChannel3Attribute::InputSource => assert(attribute_pretty(a) == "Input Source"@),
        FixtureChannel3Attribute::FieldOfView => assert(attribute_pretty(a) == "Field of View"@),
        _ => {},
    }
}

/// An attribute without a number is found again from its pretty name.
proof fn lemma_pretty_reads_back(a: FixtureChannel3Attribute)
    requires
        !(a is Custom),
        attribute_increment(a) is None,
    ensures
        pretty_lookup(attribute_pretty(a)) == Some(a),
{
    if a is Dimmer || a is Pan || a is Tilt || a is PanRotate || a is TiltRotate || a is PositionEffect || a is PositionEffectRate || a is PositionEffectFade || a is XyzX || a is XyzY || a is XyzZ || a is RotX || a is RotY || a is RotZ || a is ScaleX || a is ScaleY || a is ScaleZ || a is ScaleXYZ || a is PlayMode || a is PlayBegin || a is PlayEnd || a is PlaySpeed || a is ColorAddR || a is ColorAddG || a is ColorAddB || a is ColorAddC || a is ColorAddM || a is ColorAddY || a is ColorAddRY || a is ColorAddGY || a is ColorAddGC || a is ColorAddBC || a is ColorAddBM || a is ColorAddRM || a is ColorAddW || a is ColorAddWW || a is ColorAddCW || a is ColorAddUV || a is ColorSubR || a is ColorSubG || a is ColorSubB || a is ColorSubC || a is ColorSubM || a is ColorSubY || a is Cto || a is Ctc {
        lemma_pretty_reads_back_0(a);
    }
    if a is Ctb || a is Tint || a is HsbHue || a is HsbSaturation || a is HsbBrightness || a is HsbQuality || a is CieX || a is CieY || a is CieBrightness || a is ColorRgbRed || a is ColorRgbGreen || a is ColorRgbBlue || a is ColorRgbCyan || a is ColorRgbMagenta || a is ColorRgbYellow || a is ColorRgbQuality || a is VideoBoostR || a is VideoBoostG || a is VideoBoostB || a is VideoHueShift || a is VideoSaturation || a is VideoBrightness || a is VideoContrast || a is VideoKeyColorR || a is VideoKeyColorG || a is VideoKeyColorB || a is VideoKeyIntensity || a is VideoKeyTolerance || a is StrobeDuration || a is StrobeRate || a is StrobeFrequency || a is StrobeModeShutter || a is StrobeModeStrobe || a is StrobeModePulse || a is StrobeModePulseOpen || a is StrobeModePulseClose || a is StrobeModeRandom || a is StrobeModeRandomPulse || a is StrobeModeRandomPulseOpen || a is StrobeModeRandomPulseClose || a is StrobeModeEffect || a is Iris || a is IrisStrobe || a is IrisStrobeRandom || a is IrisPulseClose || a is IrisPulseOpen {
        lemma_pretty_reads_back_1(a);
    }
    if a is IrisRandomPulseClose || a is IrisRandomPulseOpen || a is EffectsSync || a is BeamShaper || a is BeamShaperMacro || a is BeamShaperPos || a is BeamShaperPosRotate || a is Zoom || a is ZoomModeSpot || a is ZoomModeBeam || a is DigitalZoom || a is DimmerMode || a is DimmerCurve || a is BlackoutMode || a is LedFrequency || a is LedZoneMode || a is PixelMode || a is PanMode || a is TiltMode || a is PanTiltMode || a is PositionModes || a is GoboWheelShortcutMode || a is AnimationWheelShortcutMode || a is ColorWheelShortcutMode || a is CyanMode || a is MagentaMode || a is YellowMode || a is ColorMixMode || a is ChromaticMode || a is ColorCalibrationMode || a is ColorConsistency || a is ColorControl || a is ColorModelMode || a is ColorSettingsReset || a is ColorUniformity || a is CriMode || a is CustomColor || a is UvStability || a is WavelengthCorrection || a is WhiteCount || a is StrobeMode || a is ZoomMode || a is FocusMode || a is IrisMode || a is FollowSpotMode || a is BeamEffectIndexRotateMode {
        lemma_pretty_reads_back_2(a);
    }
    if a is IntensityMSpeed || a is PositionMSpeed || a is ColorMixMSpeed || a is ColorWheelSelectMSpeed || a is IrisMSpeed || a is FocusMSpeed || a is ZoomMSpeed || a is FrameMSpeed || a is GlobalMSpeed || a is ReflectorAdjust || a is FixtureGlobalReset || a is DimmerReset || a is ShutterReset || a is BeamReset || a is ColorMixReset || a is ColorWheelReset || a is FocusReset || a is FrameReset || a is GoboWheelReset || a is IntensityReset || a is IrisReset || a is PositionReset || a is PanReset || a is TiltReset || a is ZoomReset || a is CtbReset || a is CtoReset || a is CtcReset || a is AnimationSystemReset || a is FixtureCalibrationReset || a is Function || a is LampControl || a is DisplayIntensity || a is DmxInput || a is NoFeature || a is LampPowerMode || a is Fans || a is ShaperRot || a is ShaperMacros || a is ShaperMacrosSpeed || a is Video || a is VideoBlendMode || a is InputSource || a is FieldOfView {
        lemma_pretty_reads_back_3(a);
    }
}

/// Law: no two distinct attributes without a number share a pretty name,
/// so the pretty name tells the attribute.
pub proof fn law_pretty_names_distinct(a: FixtureChannel3Attribute, b: FixtureChannel3Attribute)
    requires
        !(a is Custom),
        !(b is Custom),
        attribute_increment(a) is None,
        attribute_increment(b) is None,
        attribute_pretty(a) == attribute_pretty(b),
    ensures
        a == b,
{
    lemma_pretty_reads_back(a);
    lemma_pretty_reads_back(b);
}

/// The digits of `s`, in order.
pub open spec fn digits_of(s: Seq<char>) -> Seq<char> {
    s.filter(|c: char| is_digit(c))
}

/// `s` holds no digit.
pub open spec fn no_digits(s: Seq<char>) -> bool {
    forall|i: int| 0 <= i < s.len() ==> !is_digit(#[trigger] s[i])
}

proof fn lemma_digits_none(s: Seq<char>)
    requires
        no_digits(s),
    ensures
        digits_of(s) == Seq::<char>::empty(),
    decreases s.len(),
{
    reveal(Seq::filter);
    if s.len() > 0 {
        lemma_digits_none(s.drop_last());
        assert(!is_digit(s[s.len() - 1]));
    }
}

proof fn lemma_digits_all(s: Seq<char>)
    requires
        forall|i: int| 0 <= i < s.len() ==> is_digit(#[trigger] s[i]),
    ensures
        digits_of(s) == s,
    decreases s.len(),
{
    reveal(Seq::filter);
    if s.len() > 0 {
        lemma_digits_all(s.drop_last());
        assert(is_digit(s[s.len() - 1]));
        assert(s.drop_last().push(s.last()) =~= s);
    }
}

proof fn lemma_digits_add(a: Seq<char>, b: Seq<char>)
    ensures
        digits_of(a + b) == digits_of(a) + digits_of(b),
    decreases b.len(),
{
    reveal(Seq::filter);
    if b.len() == 0 {
        assert(a + b =~= a);
        assert(digits_of(a) + digits_of(b) =~= digits_of(a));
    } else {
        lemma_digits_add(a, b.drop_last());
        assert((a + b).drop_last() =~= a + b.drop_last());
        assert((a + b).last() == b.last());
        if is_digit(b.last()) {
            assert(digits_of(a) + digits_of(b.drop_last()).push(b.last()) =~= (digits_of(a)
                + digits_of(b.drop_last())).push(b.last()));
        }
    }
}

proof fn lemma_digits_gobo(n: u8)
    ensures
        digits_of(attribute_pretty(FixtureChannel3Attribute::Gobo(n))) == digits_of(attribute_text(FixtureChannel3Attribute::Gobo(n))),
{
    lemma_decimal_digits(n as nat);
    lemma_digits_all(decimal(n as nat));
    reveal_strlit("Gobo");
    lemma_digits_none("Gobo"@);
    reveal_strlit("Gobo ");
    lemma_digits_none("Gobo "@);
    lemma_digits_add("Gobo "@, decimal(n as nat));
    assert(digits_of("Gobo "@ + decimal(n as nat)) =~= decimal(n as nat));
    lemma_digits_add("Gobo"@, decimal(n as nat));
    assert(digits_of("Gobo"@ + decimal(n as nat)) =~= decimal(n as nat));
}

proof fn lemma_digits_gobo_select_spin(n: u8)
    ensures
        digits_of(attribute_pretty(FixtureChannel3Attribute::GoboSelectSpin(n))) == digits_of(attribute_text(FixtureChannel3Attribute::GoboSelectSpin(n))),
{
    lemma_decimal_digits(n as nat);
    lemma_digits_all(decimal(n as nat));
    reveal_strlit(" Select Spin");
    lemma_digits_none(" Select Spin"@);
    reveal_strlit("Gobo");
    lemma_digits_none("Gobo"@);
    reveal_strlit("Gobo ");
    lemma_digits_none("Gobo "@);
    reveal_strlit("SelectSpin");
    lemma_digits_none("SelectSpin"@);
    lemma_digits_add("Gobo "@, decimal(n as nat));
    lemma_digits_add("Gobo "@ + decimal(n as nat), " Select Spin"@);
    assert(digits_of("Gobo "@ + decimal(n as nat) + " Select Spin"@) =~= decimal(n as nat));
    lemma_digits_add("Gobo"@, decimal(n as nat));
    lemma_digits_add("Gobo"@ + decimal(n as nat), "SelectSpin"@);
    assert(digits_of("Gobo"@ + decimal(n as nat) + "SelectSpin"@) =~= decimal(n as nat));
}

proof fn lemma_digits_gobo_select_shake(n: u8)
    ensures
        digits_of(attribute_pretty(FixtureChannel3Attribute::GoboSelectShake(n))) == digits_of(attribute_text(FixtureChannel3Attribute::GoboSelectShake(n))),
{
    lemma_decimal_digits(n as nat);
    lemma_digits_all(decimal(n as nat));
    reveal_strlit(" Select Shake");
    lemma_digits_none(" Select Shake"@);
    reveal_strlit("Gobo");
    lemma_digits_none("Gobo"@);
    reveal_strlit("Gobo ");
    lemma_digits_none("Gobo "@);
    reveal_strlit("SelectShake");
    lemma_digits_none("SelectShake"@);
    lemma_digits_add("Gobo "@, decimal(n as nat));
    lemma_digits_add("Gobo "@ + decimal(n as nat), " Select Shake"@);
    assert(digits_of("Gobo "@ + decimal(n as nat) + " Select Shake"@) =~= decimal(n as nat));
    lemma_digits_add("Gobo"@, decimal(n as nat));
    lemma_digits_add("Gobo"@ + decimal(n as nat), "SelectShake"@);
    assert(digits_of("Gobo"@ + decimal(n as nat) + "SelectShake"@) =~= decimal(n as nat));
}

proof fn lemma_digits_gobo_select_effects(n: u8)
    ensures
        digits_of(attribute_pretty(FixtureChannel3Attribute::GoboSelectEffects(n))) == digits_of(attribute_text(FixtureChannel3Attribute::GoboSelectEffects(n))),
{
    lemma_decimal_digits(n as nat);
    lemma_digits_all(decimal(n as nat));
    reveal_strlit(" Select Effects");
    lemma_digits_none(" Select Effects"@);
    reveal_strlit("Gobo");
    lemma_digits_none("Gobo"@);
    reveal_strlit("Gobo ");
    lemma_digits_none("Gobo "@);
    reveal_strlit("SelectEffects");
    lemma_digits_none("SelectEffects"@);
    lemma_digits_add("Gobo "@, decimal(n as nat));
    lemma_digits_add("Gobo "@ + decimal(n as nat), " Select Effects"@);
    assert(digits_of("Gobo "@ + decimal(n as nat) + " Select Effects"@) =~= decimal(n as nat));
    lemma_digits_add("Gobo"@, decimal(n as nat));
    lemma_digits_add("Gobo"@ + decimal(n as nat), "SelectEffects"@);
    assert(digits_of("Gobo"@ + decimal(n as nat) + "SelectEffects"@) =~= decimal(n as nat));
}

proof fn lemma_digits_gobo_wheel_index(n: u8)
    ensures
        digits_of(attribute_pretty(FixtureChannel3Attribute::GoboWheelIndex(n))) == digits_of(attribute_text(FixtureChannel3Attribute::GoboWheelIndex(n))),
{
    lemma_decimal_digits(n as nat);
    lemma_digits_all(decimal(n as nat));
    reveal_strlit(" Wheel Index");
    lemma_digits_none(" Wheel Index"@);
    reveal_strlit("Gobo");
    lemma_digits_none("Gobo"@);
    reveal_strlit("Gobo ");
    lemma_digits_none("Gobo "@);
    reveal_strlit("WheelIndex");
    lemma_digits_none("WheelIndex"@);
    lemma_digits_add("Gobo "@, decimal(n as nat));
    lemma_digits_add("Gobo "@ + decimal(n as nat), " Wheel Index"@);
    assert(digits_of("Gobo "@ + decimal(n as nat) + " Wheel Index"@) =~= decimal(n as nat));
    lemma_digits_add("Gobo"@, decimal(n as nat));
    lemma_digits_add("Gobo"@ + decimal(n as nat), "WheelIndex"@);
    assert(digits_of("Gobo"@ + decimal(n as nat) + "WheelIndex"@) =~= decimal(n as nat));
}

proof fn lemma_digits_gobo_wheel_spin(n: u8)
    ensures
        digits_of(attribute_pretty(FixtureChannel3Attribute::GoboWheelSpin(n))) == digits_of(attribute_text(FixtureChannel3Attribute::GoboWheelSpin(n))),
{
    lemma_decimal_digits(n as nat);
    lemma_digits_all(decimal(n as nat));
    reveal_strlit(" Wheel Spin");
    lemma_digits_none(" Wheel Spin"@);
    reveal_strlit("Gobo");
    lemma_digits_none("Gobo"@);
    reveal_strlit("Gobo ");
    lemma_digits_none("Gobo "@);
    reveal_strlit("WheelSpin");
    lemma_digits_none("WheelSpin"@);
    lemma_digits_add("Gobo "@, decimal(n as nat));
    lemma_digits_add("Gobo "@ + decimal(n as nat), " Wheel Spin"@);
    assert(digits_of("Gobo "@ + decimal(n as nat) + " Wheel Spin"@) =~= decimal(n as nat));
    lemma_digits_add("Gobo"@, decimal(n as nat));
    lemma_digits_add("Gobo"@ + decimal(n as nat), "WheelSpin"@);
    assert(digits_of("Gobo"@ + decimal(n as nat) + "WheelSpin"@) =~= decimal(n as nat));
}

proof fn lemma_digits_gobo_wheel_shake(n: u8)
    ensures
        digits_of(attribute_pretty(FixtureChannel3Attribute::GoboWheelShake(n))) == digits_of(attribute_text(FixtureChannel3Attribute::GoboWheelShake(n))),
{
    lemma_decimal_digits(n as nat);
    lemma_digits_all(decimal(n as nat));
    reveal_strlit(" Wheel Shake");
    lemma_digits_none(" Wheel Shake"@);
    reveal_strlit("Gobo");
    lemma_digits_none("Gobo"@);
    reveal_strlit("Gobo ");
    lemma_digits_none("Gobo "@);
    reveal_strlit("WheelShake");
    lemma_digits_none("WheelShake"@);
    lemma_digits_add("Gobo "@, decimal(n as nat));
    lemma_digits_add("Gobo "@ + decimal(n as nat), " Wheel Shake"@);
    assert(digits_of("Gobo "@ + decimal(n as nat) + " Wheel Shake"@) =~= decimal(n as nat));
    lemma_digits_add("Gobo"@, decimal(n as nat));
    lemma_digits_add("Gobo"@ + decimal(n as nat), "WheelShake"@);
    assert(digits_of("Gobo"@ + decimal(n as nat) + "WheelShake"@) =~= decimal(n as nat));
}

proof fn lemma_digits_gobo_wheel_random(n: u8)
    ensures
        digits_of(attribute_pretty(FixtureChannel3Attribute::GoboWheelRandom(n))) == digits_of(attribute_text(FixtureChannel3Attribute::GoboWheelRandom(n))),
{
    lemma_decimal_digits(n as nat);
    lemma_digits_all(decimal(n as nat));
    reveal_strlit(" Wheel Random");
    lemma_digits_none(" Wheel Random"@);
    reveal_strlit("Gobo");
    lemma_digits_none("Gobo"@);
    reveal_strlit("Gobo ");
    lemma_digits_none("Gobo "@);
    reveal_strlit("WheelRandom");
    lemma_digits_none("WheelRandom"@);
    lemma_digits_add("Gobo "@, decimal(n as nat));
    lemma_digits_add("Gobo "@ + decimal(n as nat), " Wheel Random"@);
    assert(digits_of("Gobo "@ + decimal(n as nat) + " Wheel Random"@) =~= decimal(n as nat));
    lemma_digits_add("Gobo"@, decimal(n as nat));
    lemma_digits_add("Gobo"@ + decimal(n as nat), "WheelRandom"@);
    assert(digits_of("Gobo"@ + decimal(n as nat) + "WheelRandom"@) =~= decimal(n as nat));
}

proof fn lemma_digits_gobo_wheel_audio(n: u8)
    ensures
        digits_of(attribute_pretty(FixtureChannel3Attribute::GoboWheelAudio(n))) == digits_of(attribute_text(FixtureChannel3Attribute::GoboWheelAudio(n))),
{
    lemma_decimal_digits(n as nat);
    lemma_digits_all(decimal(n as nat));
    reveal_strlit(" Wheel Audio");
    lemma_digits_none(" Wheel Audio"@);
    reveal_strlit("Gobo");
    lemma_digits_none("Gobo"@);
    reveal_strlit("Gobo ");
    lemma_digits_none("Gobo "@);
    reveal_strlit("WheelAudio");
    lemma_digits_none("WheelAudio"@);
    lemma_digits_add("Gobo "@, decimal(n as nat));
    lemma_digits_add("Gobo "@ + decimal(n as nat), " Wheel Audio"@);
    assert(digits_of("Gobo "@ + decimal(n as nat) + " Wheel Audio"@) =~= decimal(n as nat));
    lemma_digits_add("Gobo"@, decimal(n as nat));
    lemma_digits_add("Gobo"@ + decimal(n as nat), "WheelAudio"@);
    assert(digits_of("Gobo"@ + decimal(n as nat) + "WheelAudio"@) =~= decimal(n as nat));
}

proof fn lemma_digits_gobo_pos(n: u8)
    ensures
        digits_of(attribute_pretty(FixtureChannel3Attribute::GoboPos(n))) == digits_of(attribute_text(FixtureChannel3Attribute::GoboPos(n))),
{
    lemma_decimal_digits(n as nat);
    lemma_digits_all(decimal(n as nat));
    reveal_strlit(" Position");
    lemma_digits_none(" Position"@);
    reveal_strlit("Gobo");
    lemma_digits_none("Gobo"@);
    reveal_strlit("Gobo ");
    lemma_digits_none("Gobo "@);
    reveal_strlit("Pos");
    lemma_digits_none("Pos"@);
    lemma_digits_add("Gobo "@, decimal(n as nat));
    lemma_digits_add("Gobo "@ + decimal(n as nat), " Position"@);
    assert(digits_of("Gobo "@ + decimal(n as nat) + " Position"@) =~= decimal(n as nat));
    lemma_digits_add("Gobo"@, decimal(n as nat));
    lemma_digits_add("Gobo"@ + decimal(n as nat), "Pos"@);
    assert(digits_of("Gobo"@ + decimal(n as nat) + "Pos"@) =~= decimal(n as nat));
}

proof fn lemma_digits_gobo_pos_rotate(n: u8)
    ensures
        digits_of(attribute_pretty(FixtureChannel3Attribute::GoboPosRotate(n))) == digits_of(attribute_text(FixtureChannel3Attribute::GoboPosRotate(n))),
{
    lemma_decimal_digits(n as nat);
    lemma_digits_all(decimal(n as nat));
    reveal_strlit(" Position Rotate");
    lemma_digits_none(" Position Rotate"@);
    reveal_strlit("Gobo");
    lemma_digits_none("Gobo"@);
    reveal_strlit("Gobo ");
    lemma_digits_none("Gobo "@);
    reveal_strlit("PosRotate");
    lemma_digits_none("PosRotate"@);
    lemma_digits_add("Gobo "@, decimal(n as nat));
    lemma_digits_add("Gobo "@ + decimal(n as nat), " Position Rotate"@);
    assert(digits_of("Gobo "@ + decimal(n as nat) + " Position Rotate"@) =~= decimal(n as nat));
    lemma_digits_add("Gobo"@, decimal(n as nat));
    lemma_digits_add("Gobo"@ + decimal(n as nat), "PosRotate"@);
    assert(digits_of("Gobo"@ + decimal(n as nat) + "PosRotate"@) =~= decimal(n as nat));
}

proof fn lemma_digits_gobo_pos_shake(n: u8)
    ensures
        digits_of(attribute_pretty(FixtureChannel3Attribute::GoboPosShake(n))) == digits_of(attribute_text(FixtureChannel3Attribute::GoboPosShake(n))),
{
    lemma_decimal_digits(n as nat);
    lemma_digits_all(decimal(n as nat));
    reveal_strlit(" Position Shake");
    lemma_digits_none(" Position Shake"@);
    reveal_strlit("Gobo");
    lemma_digits_none("Gobo"@);
    reveal_strlit("Gobo ");
    lemma_digits_none("Gobo "@);
    reveal_strlit("PosShake");
    lemma_digits_none("PosShake"@);
    lemma_digits_add("Gobo "@, decimal(n as nat));
    lemma_digits_add("Gobo "@ + decimal(n as nat), " Position Shake"@);
    assert(digits_of("Gobo "@ + decimal(n as nat) + " Position Shake"@) =~= decimal(n as nat));
    lemma_digits_add("Gobo"@, decimal(n as nat));
    lemma_digits_add("Gobo"@ + decimal(n as nat), "PosShake"@);
    assert(digits_of("Gobo"@ + decimal(n as nat) + "PosShake"@) =~= decimal(n as nat));
}

proof fn lemma_digits_animation_wheel(n: u8)
    ensures
        digits_of(attribute_pretty(FixtureChannel3Attribute::AnimationWheel(n))) == digits_of(attribute_text(FixtureChannel3Attribute::AnimationWheel(n))),
{
    lemma_decimal_digits(n as nat);
    lemma_digits_all(decimal(n as nat));
    reveal_strlit("Animation Wheel ");
    lemma_digits_none("Animation Wheel "@);
    reveal_strlit("AnimationWheel");
    lemma_digits_none("AnimationWheel"@);
    lemma_digits_add("Animation Wheel "@, decimal(n as nat));
    assert(digits_of("Animation Wheel "@ + decimal(n as nat)) =~= decimal(n as nat));
    lemma_digits_add("AnimationWheel"@, decimal(n as nat));
    assert(digits_of("AnimationWheel"@ + decimal(n as nat)) =~= decimal(n as nat));
}

proof fn lemma_digits_animation_wheel_audio(n: u8)
    ensures
        digits_of(attribute_pretty(FixtureChannel3Attribute::AnimationWheelAudio(n))) == digits_of(attribute_text(FixtureChannel3Attribute::AnimationWheelAudio(n))),
{
    lemma_decimal_digits(n as nat);
    lemma_digits_all(decimal(n as nat));
    reveal_strlit(" Audio");
    lemma_digits_none(" Audio"@);
    reveal_strlit("Animation Wheel ");
    lemma_digits_none("Animation Wheel "@);
    reveal_strlit("AnimationWheel");
    lemma_digits_none("AnimationWheel"@);
    reveal_strlit("Audio");
    lemma_digits_none("Audio"@);
    lemma_digits_add("Animation Wheel "@, decimal(n as nat));
    lemma_digits_add("Animation Wheel "@ + decimal(n as nat), " Audio"@);
    assert(digits_of("Animation Wheel "@ + decimal(n as nat) + " Audio"@) =~= decimal(n as nat));
    lemma_digits_add("AnimationWheel"@, decimal(n as nat));
    lemma_digits_add("AnimationWheel"@ + decimal(n as nat), "Audio"@);
    assert(digits_of("AnimationWheel"@ + decimal(n as nat) + "Audio"@) =~= decimal(n as nat));
}

proof fn lemma_digits_animation_wheel_macro(n: u8)
    ensures
        digits_of(attribute_pretty(FixtureChannel3Attribute::AnimationWheelMacro(n))) == digits_of(attribute_text(FixtureChannel3Attribute::AnimationWheelMacro(n))),
{
    lemma_decimal_digits(n as nat);
    lemma_digits_all(decimal(n as nat));
    reveal_strlit(" Macro");
    lemma_digits_none(" Macro"@);
    reveal_strlit("Animation Wheel ");
    lemma_digits_none("Animation Wheel "@);
    reveal_strlit("AnimationWheel");
    lemma_digits_none("AnimationWheel"@);
    reveal_strlit("Macro");
    lemma_digits_none("Macro"@);
    lemma_digits_add("Animation Wheel "@, decimal(n as nat));
    lemma_digits_add("Animation Wheel "@ + decimal(n as nat), " Macro"@);
    assert(digits_of("Animation Wheel "@ + decimal(n as nat) + " Macro"@) =~= decimal(n as nat));
    lemma_digits_add("AnimationWheel"@, decimal(n as nat));
    lemma_digits_add("AnimationWheel"@ + decimal(n as nat), "Macro"@);
    assert(digits_of("AnimationWheel"@ + decimal(n as nat) + "Macro"@) =~= decimal(n as nat));
}

proof fn lemma_digits_animation_wheel_random(n: u8)
    ensures
        digits_of(attribute_pretty(FixtureChannel3Attribute::AnimationWheelRandom(n))) == digits_of(attribute_text(FixtureChannel3Attribute::AnimationWheelRandom(n))),
{
    lemma_decimal_digits(n as nat);
    lemma_digits_all(decimal(n as nat));
    reveal_strlit(" Random");
    lemma_digits_none(" Random"@);
    reveal_strlit("Animation Wheel ");
    lemma_digits_none("Animation Wheel "@);
    reveal_strlit("AnimationWheel");
    lemma_digits_none("AnimationWheel"@);
    reveal_strlit("Random");
    lemma_digits_none("Random"@);
    lemma_digits_add("Animation Wheel "@, decimal(n as nat));
    lemma_digits_add("Animation Wheel "@ + decimal(n as nat), " Random"@);
    assert(digits_of("Animation Wheel "@ + decimal(n as nat) + " Random"@) =~= decimal(n as nat));
    lemma_digits_add("AnimationWheel"@, decimal(n as nat));
    lemma_digits_add("AnimationWheel"@ + decimal(n as nat), "Random"@);
    assert(digits_of("AnimationWheel"@ + decimal(n as nat) + "Random"@) =~= decimal(n as nat));
}

proof fn lemma_digits_animation_wheel_select_effects(n: u8)
    ensures
        digits_of(attribute_pretty(FixtureChannel3Attribute::AnimationWheelSelectEffects(n))) == digits_of(attribute_text(FixtureChannel3Attribute::AnimationWheelSelectEffects(n))),
{
    lemma_decimal_digits(n as nat);
    lemma_digits_all(decimal(n as nat));
    reveal_strlit(" Select Effects");
    lemma_digits_none(" Select Effects"@);
    reveal_strlit("Animation Wheel ");
    lemma_digits_none("Animation Wheel "@);
    reveal_strlit("AnimationWheel");
    lemma_digits_none("AnimationWheel"@);
    reveal_strlit("SelectEffects");
    lemma_digits_none("SelectEffects"@);
    lemma_digits_add("Animation Wheel "@, decimal(n as nat));
    lemma_digits_add("Animation Wheel "@ + decimal(n as nat), " Select Effects"@);
    assert(digits_of("Animation Wheel "@ + decimal(n as nat) + " Select Effects"@) =~= decimal(n as nat));
    lemma_digits_add("AnimationWheel"@, decimal(n as nat));
    lemma_digits_add("AnimationWheel"@ + decimal(n as nat), "SelectEffects"@);
    assert(digits_of("AnimationWheel"@ + decimal(n as nat) + "SelectEffects"@) =~= decimal(n as nat));
}

proof fn lemma_digits_animation_wheel_select_shake(n: u8)
    ensures
        digits_of(attribute_pretty(FixtureChannel3Attribute::AnimationWheelSelectShake(n))) == digits_of(attribute_text(FixtureChannel3Attribute::AnimationWheelSelectShake(n))),
{
    lemma_decimal_digits(n as nat);
    lemma_digits_all(decimal(n as nat));
    reveal_strlit(" Select Shake");
    lemma_digits_none(" Select Shake"@);
    reveal_strlit("Animation Wheel ");
    lemma_digits_none("Animation Wheel "@);
    reveal_strlit("AnimationWheel");
    lemma_digits_none("AnimationWheel"@);
    reveal_strlit("SelectShake");
    lemma_digits_none("SelectShake"@);
    lemma_digits_add("Animation Wheel "@, decimal(n as nat));
    lemma_digits_add("Animation Wheel "@ + decimal(n as nat), " Select Shake"@);
    assert(digits_of("Animation Wheel "@ + decimal(n as nat) + " Select Shake"@) =~= decimal(n as nat));
    lemma_digits_add("AnimationWheel"@, decimal(n as nat));
    lemma_digits_add("AnimationWheel"@ + decimal(n as nat), "SelectShake"@);
    assert(digits_of("AnimationWheel"@ + decimal(n as nat) + "SelectShake"@) =~= decimal(n as nat));
}

proof fn lemma_digits_animation_wheel_select_spin(n: u8)
    ensures
        digits_of(attribute_pretty(FixtureChannel3Attribute::AnimationWheelSelectSpin(n))) == digits_of(attribute_text(FixtureChannel3Attribute::AnimationWheelSelectSpin(n))),
{
    lemma_decimal_digits(n as nat);
    lemma_digits_all(decimal(n as nat));
    reveal_strlit(" Select Spin");
    lemma_digits_none(" Select Spin"@);
    reveal_strlit("Animation Wheel ");
    lemma_digits_none("Animation Wheel "@);
    reveal_strlit("AnimationWheel");
    lemma_digits_none("AnimationWheel"@);
    reveal_strlit("SelectSpin");
    lemma_digits_none("SelectSpin"@);
    lemma_digits_add("Animation Wheel "@, decimal(n as nat));
    lemma_digits_add("Animation Wheel "@ + decimal(n as nat), " Select Spin"@);
    assert(digits_of("Animation Wheel "@ + decimal(n as nat) + " Select Spin"@) =~= decimal(n as nat));
    lemma_digits_add("AnimationWheel"@, decimal(n as nat));
    lemma_digits_add("AnimationWheel"@ + decimal(n as nat), "SelectSpin"@);
    assert(digits_of("AnimationWheel"@ + decimal(n as nat) + "SelectSpin"@) =~= decimal(n as nat));
}

proof fn lemma_digits_animation_wheel_pos(n: u8)
    ensures
        digits_of(attribute_pretty(FixtureChannel3Attribute::AnimationWheelPos(n))) == digits_of(attribute_text(FixtureChannel3Attribute::AnimationWheelPos(n))),
{
    lemma_decimal_digits(n as nat);
    lemma_digits_all(decimal(n as nat));
    reveal_strlit(" Position");
    lemma_digits_none(" Position"@);
    reveal_strlit("Animation Wheel ");
    lemma_digits_none("Animation Wheel "@);
    reveal_strlit("AnimationWheel");
    lemma_digits_none("AnimationWheel"@);
    reveal_strlit("Pos");
    lemma_digits_none("Pos"@);
    lemma_digits_add("Animation Wheel "@, decimal(n as nat));
    lemma_digits_add("Animation Wheel "@ + decimal(n as nat), " Position"@);
    assert(digits_of("Animation Wheel "@ + decimal(n as nat) + " Position"@) =~= decimal(n as nat));
    lemma_digits_add("AnimationWheel"@, decimal(n as nat));
    lemma_digits_add("AnimationWheel"@ + decimal(n as nat), "Pos"@);
    assert(digits_of("AnimationWheel"@ + decimal(n as nat) + "Pos"@) =~= decimal(n as nat));
}

proof fn lemma_digits_animation_wheel_pos_rotate(n: u8)
    ensures
        digits_of(attribute_pretty(FixtureChannel3Attribute::AnimationWheelPosRotate(n))) == digits_of(attribute_text(FixtureChannel3Attribute::AnimationWheelPosRotate(n))),
{
    lemma_decimal_digits(n as nat);
    lemma_digits_all(decimal(n as nat));
    reveal_strlit(" Position Rotate");
    lemma_digits_none(" Position Rotate"@);
    reveal_strlit("Animation Wheel ");
    lemma_digits_none("Animation Wheel "@);
    reveal_strlit("AnimationWheel");
    lemma_digits_none("AnimationWheel"@);
    reveal_strlit("PosRotate");
    lemma_digits_none("PosRotate"@);
    lemma_digits_add("Animation Wheel "@, decimal(n as nat));
    lemma_digits_add("Animation Wheel "@ + decimal(n as nat), " Position Rotate"@);
    assert(digits_of("Animation Wheel "@ + decimal(n as nat) + " Position Rotate"@) =~= decimal(n as nat));
    lemma_digits_add("AnimationWheel"@, decimal(n as nat));
    lemma_digits_add("AnimationWheel"@ + decimal(n as nat), "PosRotate"@);
    assert(digits_of("AnimationWheel"@ + decimal(n as nat) + "PosRotate"@) =~= decimal(n as nat));
}

proof fn lemma_digits_animation_wheel_pos_shake(n: u8)
    ensures
        digits_of(attribute_pretty(FixtureChannel3Attribute::AnimationWheelPosShake(n))) == digits_of(attribute_text(FixtureChannel3Attribute::AnimationWheelPosShake(n))),
{
    lemma_decimal_digits(n as nat);
    lemma_digits_all(decimal(n as nat));
    reveal_strlit(" Position Shake");
    lemma_digits_none(" Position Shake"@);
    reveal_strlit("Animation Wheel ");
    lemma_digits_none("Animation Wheel "@);
    reveal_strlit("AnimationWheel");
    lemma_digits_none("AnimationWheel"@);
    reveal_strlit("PosShake");
    lemma_digits_none("PosShake"@);
    lemma_digits_add("Animation Wheel "@, decimal(n as nat));
    lemma_digits_add("Animation Wheel "@ + decimal(n as nat), " Position Shake"@);
    assert(digits_of("Animation Wheel "@ + decimal(n as nat) + " Position Shake"@) =~= decimal(n as nat));
    lemma_digits_add("AnimationWheel"@, decimal(n as nat));
    lemma_digits_add("AnimationWheel"@ + decimal(n as nat), "PosShake"@);
    assert(digits_of("AnimationWheel"@ + decimal(n as nat) + "PosShake"@) =~= decimal(n as nat));
}

proof fn lemma_digits_animation_system(n: u8)
    ensures
        digits_of(attribute_pretty(FixtureChannel3Attribute::AnimationSystem(n))) == digits_of(attribute_text(FixtureChannel3Attribute::AnimationSystem(n))),
{
    lemma_decimal_digits(n as nat);
    lemma_digits_all(decimal(n as nat));
    reveal_strlit("Animation System ");
    lemma_digits_none("Animation System "@);
    reveal_strlit("AnimationSystem");
    lemma_digits_none("AnimationSystem"@);
    lemma_digits_add("Animation System "@, decimal(n as nat));
    assert(digits_of("Animation System "@ + decimal(n as nat)) =~= decimal(n as nat));
    lemma_digits_add("AnimationSystem"@, decimal(n as nat));
    assert(digits_of("AnimationSystem"@ + decimal(n as nat)) =~= decimal(n as nat));
}

proof fn lemma_digits_animation_system_ramp(n: u8)
    ensures
        digits_of(attribute_pretty(FixtureChannel3Attribute::AnimationSystemRamp(n))) == digits_of(attribute_text(FixtureChannel3Attribute::AnimationSystemRamp(n))),
{
    lemma_decimal_digits(n as nat);
    lemma_digits_all(decimal(n as nat));
    reveal_strlit(" Ramp");
    lemma_digits_none(" Ramp"@);
    reveal_strlit("Animation System ");
    lemma_digits_none("Animation System "@);
    reveal_strlit("AnimationSystem");
    lemma_digits_none("AnimationSystem"@);
    reveal_strlit("Ramp");
    lemma_digits_none("Ramp"@);
    lemma_digits_add("Animation System "@, decimal(n as nat));
    lemma_digits_add("Animation System "@ + decimal(n as nat), " Ramp"@);
    assert(digits_of("Animation System "@ + decimal(n as nat) + " Ramp"@) =~= decimal(n as nat));
    lemma_digits_add("AnimationSystem"@, decimal(n as nat));
    lemma_digits_add("AnimationSystem"@ + decimal(n as nat), "Ramp"@);
    assert(digits_of("AnimationSystem"@ + decimal(n as nat) + "Ramp"@) =~= decimal(n as nat));
}

proof fn lemma_digits_animation_system_shake(n: u8)
    ensures
        digits_of(attribute_pretty(FixtureChannel3Attribute::AnimationSystemShake(n))) == digits_of(attribute_text(FixtureChannel3Attribute::AnimationSystemShake(n))),
{
    lemma_decimal_digits(n as nat);
    lemma_digits_all(decimal(n as nat));
    reveal_strlit(" Shake");
    lemma_digits_none(" Shake"@);
    reveal_strlit("Animation System ");
    lemma_digits_none("Animation System "@);
    reveal_strlit("AnimationSystem");
    lemma_digits_none("AnimationSystem"@);
    reveal_strlit("Shake");
    lemma_digits_none("Shake"@);
    lemma_digits_add("Animation System "@, decimal(n as nat));
    lemma_digits_add("Animation System "@ + decimal(n as nat), " Shake"@);
    assert(digits_of("Animation System "@ + decimal(n as nat) + " Shake"@) =~= decimal(n as nat));
    lemma_digits_add("AnimationSystem"@, decimal(n as nat));
    lemma_digits_add("AnimationSystem"@ + decimal(n as nat), "Shake"@);
    assert(digits_of("AnimationSystem"@ + decimal(n as nat) + "Shake"@) =~= decimal(n as nat));
}

proof fn lemma_digits_animation_system_audio(n: u8)
    ensures
        digits_of(attribute_pretty(FixtureChannel3Attribute::AnimationSystemAudio(n))) == digits_of(attribute_text(FixtureChannel3Attribute::AnimationSystemAudio(n))),
{
    lemma_decimal_digits(n as nat);
    lemma_digits_all(decimal(n as nat));
    reveal_strlit(" Audio");
    lemma_digits_none(" Audio"@);
    reveal_strlit("Animation System ");
    lemma_digits_none("Animation System "@);
    reveal_strlit("AnimationSystem");
    lemma_digits_none("AnimationSystem"@);
    reveal_strlit("Audio");
    lemma_digits_none("Audio"@);
    lemma_digits_add("Animation System "@, decimal(n as nat));
    lemma_digits_add("Animation System "@ + decimal(n as nat), " Audio"@);
    assert(digits_of("Animation System "@ + decimal(n as nat) + " Audio"@) =~= decimal(n as nat));
    lemma_digits_add("AnimationSystem"@, decimal(n as nat));
    lemma_digits_add("AnimationSystem"@ + decimal(n as nat), "Audio"@);
    assert(digits_of("AnimationSystem"@ + decimal(n as nat) + "Audio"@) =~= decimal(n as nat));
}

proof fn lemma_digits_animation_system_random(n: u8)
    ensures
        digits_of(attribute_pretty(FixtureChannel3Attribute::AnimationSystemRandom(n))) == digits_of(attribute_text(FixtureChannel3Attribute::AnimationSystemRandom(n))),
{
    lemma_decimal_digits(n as nat);
    lemma_digits_all(decimal(n as nat));
    reveal_strlit(" Random");
    lemma_digits_none(" Random"@);
    reveal_strlit("Animation System ");
    lemma_digits_none("Animation System "@);
    reveal_strlit("AnimationSystem");
    lemma_digits_none("AnimationSystem"@);
    reveal_strlit("Random");
    lemma_digits_none("Random"@);
    lemma_digits_add("Animation System "@, decimal(n as nat));
    lemma_digits_add("Animation System "@ + decimal(n as nat), " Random"@);
    assert(digits_of("Animation System "@ + decimal(n as nat) + " Random"@) =~= decimal(n as nat));
    lemma_digits_add("AnimationSystem"@, decimal(n as nat));
    lemma_digits_add("AnimationSystem"@ + decimal(n as nat), "Random"@);
    assert(digits_of("AnimationSystem"@ + decimal(n as nat) + "Random"@) =~= decimal(n as nat));
}

proof fn lemma_digits_animation_system_pos(n: u8)
    ensures
        digits_of(attribute_pretty(FixtureChannel3Attribute::AnimationSystemPos(n))) == digits_of(attribute_text(FixtureChannel3Attribute::AnimationSystemPos(n))),
{
    lemma_decimal_digits(n as nat);
    lemma_digits_all(decimal(n as nat));
    reveal_strlit(" Position");
    lemma_digits_none(" Position"@);
    reveal_strlit("Animation System ");
    lemma_digits_none("Animation System "@);
    reveal_strlit("AnimationSystem");
    lemma_digits_none("AnimationSystem"@);
    reveal_strlit("Pos");
    lemma_digits_none("Pos"@);
    lemma_digits_add("Animation System "@, decimal(n as nat));
    lemma_digits_add("Animation System "@ + decimal(n as nat), " Position"@);
    assert(digits_of("Animation System "@ + decimal(n as nat) + " Position"@) =~= decimal(n as nat));
    lemma_digits_add("AnimationSystem"@, decimal(n as nat));
    lemma_digits_add("AnimationSystem"@ + decimal(n as nat), "Pos"@);
    assert(digits_of("AnimationSystem"@ + decimal(n as nat) + "Pos"@) =~= decimal(n as nat));
}

proof fn lemma_digits_animation_system_pos_rotate(n: u8)
    ensures
        digits_of(attribute_pretty(FixtureChannel3Attribute::AnimationSystemPosRotate(n))) == digits_of(attribute_text(FixtureChannel3Attribute::AnimationSystemPosRotate(n))),
{
    lemma_decimal_digits(n as nat);
    lemma_digits_all(decimal(n as nat));
    reveal_strlit(" Position Rotate");
    lemma_digits_none(" Position Rotate"@);
    reveal_strlit("Animation System ");
    lemma_digits_none("Animation System "@);
    reveal_strlit("AnimationSystem");
    lemma_digits_none("AnimationSystem"@);
    reveal_strlit("PosRotate");
    lemma_digits_none("PosRotate"@);
    lemma_digits_add("Animation System "@, decimal(n as nat));
    lemma_digits_add("Animation System "@ + decimal(n as nat), " Position Rotate"@);
    assert(digits_of("Animation System "@ + decimal(n as nat) + " Position Rotate"@) =~= decimal(n as nat));
    lemma_digits_add("AnimationSystem"@, decimal(n as nat));
    lemma_digits_add("AnimationSystem"@ + decimal(n as nat), "PosRotate"@);
    assert(digits_of("AnimationSystem"@ + decimal(n as nat) + "PosRotate"@) =~= decimal(n as nat));
}

proof fn lemma_digits_animation_system_pos_shake(n: u8)
    ensures
        digits_of(attribute_pretty(FixtureChannel3Attribute::AnimationSystemPosShake(n))) == digits_of(attribute_text(FixtureChannel3Attribute::AnimationSystemPosShake(n))),
{
    lemma_decimal_digits(n as nat);
    lemma_digits_all(decimal(n as nat));
    reveal_strlit(" Position Shake");
    lemma_digits_none(" Position Shake"@);
    reveal_strlit("Animation System ");
    lemma_digits_none("Animation System "@);
    reveal_strlit("AnimationSystem");
    lemma_digits_none("AnimationSystem"@);
    reveal_strlit("PosShake");
    lemma_digits_none("PosShake"@);
    lemma_digits_add("Animation System "@, decimal(n as nat));
    lemma_digits_add("Animation System "@ + decimal(n as nat), " Position Shake"@);
    assert(digits_of("Animation System "@ + decimal(n as nat) + " Position Shake"@) =~= decimal(n as nat));
    lemma_digits_add("AnimationSystem"@, decimal(n as nat));
    lemma_digits_add("AnimationSystem"@ + decimal(n as nat), "PosShake"@);
    assert(digits_of("AnimationSystem"@ + decimal(n as nat) + "PosShake"@) =~= decimal(n as nat));
}

proof fn lemma_digits_animation_system_pos_random(n: u8)
    ensures
        digits_of(attribute_pretty(FixtureChannel3Attribute::AnimationSystemPosRandom(n))) == digits_of(attribute_text(FixtureChannel3Attribute::AnimationSystemPosRandom(n))),
{
    lemma_decimal_digits(n as nat);
    lemma_digits_all(decimal(n as nat));
    reveal_strlit(" Position Random");
    lemma_digits_none(" Position Random"@);
    reveal_strlit("Animation System ");
    lemma_digits_none("Animation System "@);
    reveal_strlit("AnimationSystem");
    lemma_digits_none("AnimationSystem"@);
    reveal_strlit("PosRandom");
    lemma_digits_none("PosRandom"@);
    lemma_digits_add("Animation System "@, decimal(n as nat));
    lemma_digits_add("Animation System "@ + decimal(n as nat), " Position Random"@);
    assert(digits_of("Animation System "@ + decimal(n as nat) + " Position Random"@) =~= decimal(n as nat));
    lemma_digits_add("AnimationSystem"@, decimal(n as nat));
    lemma_digits_add("AnimationSystem"@ + decimal(n as nat), "PosRandom"@);
    assert(digits_of("AnimationSystem"@ + decimal(n as nat) + "PosRandom"@) =~= decimal(n as nat));
}

proof fn lemma_digits_animation_system_pos_audio(n: u8)
    ensures
        digits_of(attribute_pretty(FixtureChannel3Attribute::AnimationSystemPosAudio(n))) == digits_of(attribute_text(FixtureChannel3Attribute::AnimationSystemPosAudio(n))),
{
    lemma_decimal_digits(n as nat);
    lemma_digits_all(decimal(n as nat));
    reveal_strlit(" Position Audio");
    lemma_digits_none(" Position Audio"@);
    reveal_strlit("Animation System ");
    lemma_digits_none("Animation System "@);
    reveal_strlit("AnimationSystem");
    lemma_digits_none("AnimationSystem"@);
    reveal_strlit("PosAudio");
    lemma_digits_none("PosAudio"@);
    lemma_digits_add("Animation System "@, decimal(n as nat));
    lemma_digits_add("Animation System "@ + decimal(n as nat), " Position Audio"@);
    assert(digits_of("Animation System "@ + decimal(n as nat) + " Position Audio"@) =~= decimal(n as nat));
    lemma_digits_add("AnimationSystem"@, decimal(n as nat));
    lemma_digits_add("AnimationSystem"@ + decimal(n as nat), "PosAudio"@);
    assert(digits_of("AnimationSystem"@ + decimal(n as nat) + "PosAudio"@) =~= decimal(n as nat));
}

proof fn lemma_digits_animation_system_macro(n: u8)
    ensures
        digits_of(attribute_pretty(FixtureChannel3Attribute::AnimationSystemMacro(n))) == digits_of(attribute_text(FixtureChannel3Attribute::AnimationSystemMacro(n))),
{
    lemma_decimal_digits(n as nat);
    lemma_digits_all(decimal(n as nat));
    reveal_strlit(" Macro");
    lemma_digits_none(" Macro"@);
    reveal_strlit("Animation System ");
    lemma_digits_none("Animation System "@);
    reveal_strlit("AnimationSystem");
    lemma_digits_none("AnimationSystem"@);
    reveal_strlit("Macro");
    lemma_digits_none("Macro"@);
    lemma_digits_add("Animation System "@, decimal(n as nat));
    lemma_digits_add("Animation System "@ + decimal(n as nat), " Macro"@);
    assert(digits_of("Animation System "@ + decimal(n as nat) + " Macro"@) =~= decimal(n as nat));
    lemma_digits_add("AnimationSystem"@, decimal(n as nat));
    lemma_digits_add("AnimationSystem"@ + decimal(n as nat), "Macro"@);
    assert(digits_of("AnimationSystem"@ + decimal(n as nat) + "Macro"@) =~= decimal(n as nat));
}

proof fn lemma_digits_media_folder(n: u8)
    ensures
        digits_of(attribute_pretty(FixtureChannel3Attribute::MediaFolder(n))) == digits_of(attribute_text(FixtureChannel3Attribute::MediaFolder(n))),
{
    lemma_decimal_digits(n as nat);
    lemma_digits_all(decimal(n as nat));
    reveal_strlit("Media Folder ");
    lemma_digits_none("Media Folder "@);
    reveal_strlit("MediaFolder");
    lemma_digits_none("MediaFolder"@);
    lemma_digits_add("Media Folder "@, decimal(n as nat));
    assert(digits_of("Media Folder "@ + decimal(n as nat)) =~= decimal(n as nat));
    lemma_digits_add("MediaFolder"@, decimal(n as nat));
    assert(digits_of("MediaFolder"@ + decimal(n as nat)) =~= decimal(n as nat));
}

proof fn lemma_digits_media_content(n: u8)
    ensures
        digits_of(attribute_pretty(FixtureChannel3Attribute::MediaContent(n))) == digits_of(attribute_text(FixtureChannel3Attribute::MediaContent(n))),
{
    lemma_decimal_digits(n as nat);
    lemma_digits_all(decimal(n as nat));
    reveal_strlit("Media Content ");
    lemma_digits_none("Media Content "@);
    reveal_strlit("MediaContent");
    lemma_digits_none("MediaContent"@);
    lemma_digits_add("Media Content "@, decimal(n as nat));
    assert(digits_of("Media Content "@ + decimal(n as nat)) =~= decimal(n as nat));
    lemma_digits_add("MediaContent"@, decimal(n as nat));
    assert(digits_of("MediaContent"@ + decimal(n as nat)) =~= decimal(n as nat));
}

proof fn lemma_digits_model_folder(n: u8)
    ensures
        digits_of(attribute_pretty(FixtureChannel3Attribute::ModelFolder(n))) == digits_of(attribute_text(FixtureChannel3Attribute::ModelFolder(n))),
{
    lemma_decimal_digits(n as nat);
    lemma_digits_all(decimal(n as nat));
    reveal_strlit("Model Folder ");
    lemma_digits_none("Model Folder "@);
    reveal_strlit("ModelFolder");
    lemma_digits_none("ModelFolder"@);
    lemma_digits_add("Model Folder "@, decimal(n as nat));
    assert(digits_of("Model Folder "@ + decimal(n as nat)) =~= decimal(n as nat));
    lemma_digits_add("ModelFolder"@, decimal(n as nat));
    assert(digits_of("ModelFolder"@ + decimal(n as nat)) =~= decimal(n as nat));
}

proof fn lemma_digits_model_content(n: u8)
    ensures
        digits_of(attribute_pretty(FixtureChannel3Attribute::ModelContent(n))) == digits_of(attribute_text(FixtureChannel3Attribute::ModelContent(n))),
{
    lemma_decimal_digits(n as nat);
    lemma_digits_all(decimal(n as nat));
    reveal_strlit("Model Content ");
    lemma_digits_none("Model Content "@);
    reveal_strlit("ModelContent");
    lemma_digits_none("ModelContent"@);
    lemma_digits_add("Model Content "@, decimal(n as nat));
    assert(digits_of("Model Content "@ + decimal(n as nat)) =~= decimal(n as nat));
    lemma_digits_add("ModelContent"@, decimal(n as nat));
    assert(digits_of("ModelContent"@ + decimal(n as nat)) =~= decimal(n as nat));
}

proof fn lemma_digits_color_effects(n: u8)
    ensures
        digits_of(attribute_pretty(FixtureChannel3Attribute::ColorEffects(n))) == digits_of(attribute_text(FixtureChannel3Attribute::ColorEffects(n))),
{
    lemma_decimal_digits(n as nat);
    lemma_digits_all(decimal(n as nat));
    reveal_strlit("Color Effects ");
    lemma_digits_none("Color Effects "@);
    reveal_strlit("ColorEffects");
    lemma_digits_none("ColorEffects"@);
    lemma_digits_add("Color Effects "@, decimal(n as nat));
    assert(digits_of("Color Effects "@ + decimal(n as nat)) =~= decimal(n as nat));
    lemma_digits_add("ColorEffects"@, decimal(n as nat));
    assert(digits_of("ColorEffects"@ + decimal(n as nat)) =~= decimal(n as nat));
}

proof fn lemma_digits_color(n: u8)
    ensures
        digits_of(attribute_pretty(FixtureChannel3Attribute::Color(n))) == digits_of(attribute_text(FixtureChannel3Attribute::Color(n))),
{
    lemma_decimal_digits(n as nat);
    lemma_digits_all(decimal(n as nat));
    reveal_strlit("Color");
    lemma_digits_none("Color"@);
    reveal_strlit("Color ");
    lemma_digits_none("Color "@);
    lemma_digits_add("Color "@, decimal(n as nat));
    assert(digits_of("Color "@ + decimal(n as nat)) =~= decimal(n as nat));
    lemma_digits_add("Color"@, decimal(n as nat));
    assert(digits_of("Color"@ + decimal(n as nat)) =~= decimal(n as nat));
}

proof fn lemma_digits_color_wheel_index(n: u8)
    ensures
        digits_of(attribute_pretty(FixtureChannel3Attribute::ColorWheelIndex(n))) == digits_of(attribute_text(FixtureChannel3Attribute::ColorWheelIndex(n))),
{
    lemma_decimal_digits(n as nat);
    lemma_digits_all(decimal(n as nat));
    reveal_strlit(" Index");
    lemma_digits_none(" Index"@);
    reveal_strlit("Color Wheel ");
    lemma_digits_none("Color Wheel "@);
    reveal_strlit("ColorWheel");
    lemma_digits_none("ColorWheel"@);
    reveal_strlit("Index");
    lemma_digits_none("Index"@);
    lemma_digits_add("Color Wheel "@, decimal(n as nat));
    lemma_digits_add("Color Wheel "@ + decimal(n as nat), " Index"@);
    assert(digits_of("Color Wheel "@ + decimal(n as nat) + " Index"@) =~= decimal(n as nat));
    lemma_digits_add("ColorWheel"@, decimal(n as nat));
    lemma_digits_add("ColorWheel"@ + decimal(n as nat), "Index"@);
    assert(digits_of("ColorWheel"@ + decimal(n as nat) + "Index"@) =~= decimal(n as nat));
}

proof fn lemma_digits_color_wheel_spin(n: u8)
    ensures
        digits_of(attribute_pretty(FixtureChannel3Attribute::ColorWheelSpin(n))) == digits_of(attribute_text(FixtureChannel3Attribute::ColorWheelSpin(n))),
{
    lemma_decimal_digits(n as nat);
    lemma_digits_all(decimal(n as nat));
    reveal_strlit(" Spin");
    lemma_digits_none(" Spin"@);
    reveal_strlit("Color Wheel ");
    lemma_digits_none("Color Wheel "@);
    reveal_strlit("ColorWheel");
    lemma_digits_none("ColorWheel"@);
    reveal_strlit("Spin");
    lemma_digits_none("Spin"@);
    lemma_digits_add("Color Wheel "@, decimal(n as nat));
    lemma_digits_add("Color Wheel "@ + decimal(n as nat), " Spin"@);
    assert(digits_of("Color Wheel "@ + decimal(n as nat) + " Spin"@) =~= decimal(n as nat));
    lemma_digits_add("ColorWheel"@, decimal(n as nat));
    lemma_digits_add("ColorWheel"@ + decimal(n as nat), "Spin"@);
    assert(digits_of("ColorWheel"@ + decimal(n as nat) + "Spin"@) =~= decimal(n as nat));
}

proof fn lemma_digits_color_wheel_random(n: u8)
    ensures
        digits_of(attribute_pretty(FixtureChannel3Attribute::ColorWheelRandom(n))) == digits_of(attribute_text(FixtureChannel3Attribute::ColorWheelRandom(n))),
{
    lemma_decimal_digits(n as nat);
    lemma_digits_all(decimal(n as nat));
    reveal_strlit(" Random");
    lemma_digits_none(" Random"@);
    reveal_strlit("Color Wheel ");
    lemma_digits_none("Color Wheel "@);
    reveal_strlit("ColorWheel");
    lemma_digits_none("ColorWheel"@);
    reveal_strlit("Random");
    lemma_digits_none("Random"@);
    lemma_digits_add("Color Wheel "@, decimal(n as nat));
    lemma_digits_add("Color Wheel "@ + decimal(n as nat), " Random"@);
    assert(digits_of("Color Wheel "@ + decimal(n as nat) + " Random"@) =~= decimal(n as nat));
    lemma_digits_add("ColorWheel"@, decimal(n as nat));
    lemma_digits_add("ColorWheel"@ + decimal(n as nat), "Random"@);
    assert(digits_of("ColorWheel"@ + decimal(n as nat) + "Random"@) =~= decimal(n as nat));
}

proof fn lemma_digits_color_wheel_audio(n: u8)
    ensures
        digits_of(attribute_pretty(FixtureChannel3Attribute::ColorWheelAudio(n))) == digits_of(attribute_text(FixtureChannel3Attribute::ColorWheelAudio(n))),
{
    lemma_decimal_digits(n as nat);
    lemma_digits_all(decimal(n as nat));
    reveal_strlit(" Audio");
    lemma_digits_none(" Audio"@);
    reveal_strlit("Audio");
    lemma_digits_none("Audio"@);
    reveal_strlit("Color Wheel ");
    lemma_digits_none("Color Wheel "@);
    reveal_strlit("ColorWheel");
    lemma_digits_none("ColorWheel"@);
    lemma_digits_add("Color Wheel "@, decimal(n as nat));
    lemma_digits_add("Color Wheel "@ + decimal(n as nat), " Audio"@);
    assert(digits_of("Color Wheel "@ + decimal(n as nat) + " Audio"@) =~= decimal(n as nat));
    lemma_digits_add("ColorWheel"@, decimal(n as nat));
    lemma_digits_add("ColorWheel"@ + decimal(n as nat), "Audio"@);
    assert(digits_of("ColorWheel"@ + decimal(n as nat) + "Audio"@) =~= decimal(n as nat));
}

proof fn lemma_digits_color_macro(n: u8)
    ensures
        digits_of(attribute_pretty(FixtureChannel3Attribute::ColorMacro(n))) == digits_of(attribute_text(FixtureChannel3Attribute::ColorMacro(n))),
{
    lemma_decimal_digits(n as nat);
    lemma_digits_all(decimal(n as nat));
    reveal_strlit("Color Macro ");
    lemma_digits_none("Color Macro "@);
    reveal_strlit("ColorMacro");
    lemma_digits_none("ColorMacro"@);
    lemma_digits_add("Color Macro "@, decimal(n as nat));
    assert(digits_of("Color Macro "@ + decimal(n as nat)) =~= decimal(n as nat));
    lemma_digits_add("ColorMacro"@, decimal(n as nat));
    assert(digits_of("ColorMacro"@ + decimal(n as nat)) =~= decimal(n as nat));
}

proof fn lemma_digits_color_macro_rate(n: u8)
    ensures
        digits_of(attribute_pretty(FixtureChannel3Attribute::ColorMacroRate(n))) == digits_of(attribute_text(FixtureChannel3Attribute::ColorMacroRate(n))),
{
    lemma_decimal_digits(n as nat);
    lemma_digits_all(decimal(n as nat));
    reveal_strlit("Color Macro Rate ");
    lemma_digits_none("Color Macro Rate "@);
    reveal_strlit("ColorMacroRate");
    lemma_digits_none("ColorMacroRate"@);
    lemma_digits_add("Color Macro Rate "@, decimal(n as nat));
    assert(digits_of("Color Macro Rate "@ + decimal(n as nat)) =~= decimal(n as nat));
    lemma_digits_add("ColorMacroRate"@, decimal(n as nat));
    assert(digits_of("ColorMacroRate"@ + decimal(n as nat)) =~= decimal(n as nat));
}

proof fn lemma_digits_shutter(n: u8)
    ensures
        digits_of(attribute_pretty(FixtureChannel3Attribute::Shutter(n))) == digits_of(attribute_text(FixtureChannel3Attribute::Shutter(n))),
{
    lemma_decimal_digits(n as nat);
    lemma_digits_all(decimal(n as nat));
    reveal_strlit("Shutter");
    lemma_digits_none("Shutter"@);
    reveal_strlit("Shutter ");
    lemma_digits_none("Shutter "@);
    lemma_digits_add("Shutter "@, decimal(n as nat));
    assert(digits_of("Shutter "@ + decimal(n as nat)) =~= decimal(n as nat));
    lemma_digits_add("Shutter"@, decimal(n as nat));
    assert(digits_of("Shutter"@ + decimal(n as nat)) =~= decimal(n as nat));
}

proof fn lemma_digits_shutter_strobe(n: u8)
    ensures
        digits_of(attribute_pretty(FixtureChannel3Attribute::ShutterStrobe(n))) == digits_of(attribute_text(FixtureChannel3Attribute::ShutterStrobe(n))),
{
    lemma_decimal_digits(n as nat);
    lemma_digits_all(decimal(n as nat));
    reveal_strlit(" Strobe");
    lemma_digits_none(" Strobe"@);
    reveal_strlit("Shutter");
    lemma_digits_none("Shutter"@);
    reveal_strlit("Shutter ");
    lemma_digits_none("Shutter "@);
    reveal_strlit("Strobe");
    lemma_digits_none("Strobe"@);
    lemma_digits_add("Shutter "@, decimal(n as nat));
    lemma_digits_add("Shutter "@ + decimal(n as nat), " Strobe"@);
    assert(digits_of("Shutter "@ + decimal(n as nat) + " Strobe"@) =~= decimal(n as nat));
    lemma_digits_add("Shutter"@, decimal(n as nat));
    lemma_digits_add("Shutter"@ + decimal(n as nat), "Strobe"@);
    assert(digits_of("Shutter"@ + decimal(n as nat) + "Strobe"@) =~= decimal(n as nat));
}

proof fn lemma_digits_shutter_strobe_pulse(n: u8)
    ensures
        digits_of(attribute_pretty(FixtureChannel3Attribute::ShutterStrobePulse(n))) == digits_of(attribute_text(FixtureChannel3Attribute::ShutterStrobePulse(n))),
{
    lemma_decimal_digits(n as nat);
    lemma_digits_all(decimal(n as nat));
    reveal_strlit(" Strobe Pulse");
    lemma_digits_none(" Strobe Pulse"@);
    reveal_strlit("Shutter");
    lemma_digits_none("Shutter"@);
    reveal_strlit("Shutter ");
    lemma_digits_none("Shutter "@);
    reveal_strlit("StrobePulse");
    lemma_digits_none("StrobePulse"@);
    lemma_digits_add("Shutter "@, decimal(n as nat));
    lemma_digits_add("Shutter "@ + decimal(n as nat), " Strobe Pulse"@);
    assert(digits_of("Shutter "@ + decimal(n as nat) + " Strobe Pulse"@) =~= decimal(n as nat));
    lemma_digits_add("Shutter"@, decimal(n as nat));
    lemma_digits_add("Shutter"@ + decimal(n as nat), "StrobePulse"@);
    assert(digits_of("Shutter"@ + decimal(n as nat) + "StrobePulse"@) =~= decimal(n as nat));
}

proof fn lemma_digits_shutter_strobe_pulse_close(n: u8)
    ensures
        digits_of(attribute_pretty(FixtureChannel3Attribute::ShutterStrobePulseClose(n))) == digits_of(attribute_text(FixtureChannel3Attribute::ShutterStrobePulseClose(n))),
{
    lemma_decimal_digits(n as nat);
    lemma_digits_all(decimal(n as nat));
    reveal_strlit(" Strobe Pulse Close");
    lemma_digits_none(" Strobe Pulse Close"@);
    reveal_strlit("Shutter");
    lemma_digits_none("Shutter"@);
    reveal_strlit("Shutter ");
    lemma_digits_none("Shutter "@);
    reveal_strlit("StrobePulseClose");
    lemma_digits_none("StrobePulseClose"@);
    lemma_digits_add("Shutter "@, decimal(n as nat));
    lemma_digits_add("Shutter "@ + decimal(n as nat), " Strobe Pulse Close"@);
    assert(digits_of("Shutter "@ + decimal(n as nat) + " Strobe Pulse Close"@) =~= decimal(n as nat));
    lemma_digits_add("Shutter"@, decimal(n as nat));
    lemma_digits_add("Shutter"@ + decimal(n as nat), "StrobePulseClose"@);
    assert(digits_of("Shutter"@ + decimal(n as nat) + "StrobePulseClose"@) =~= decimal(n as nat));
}

proof fn lemma_digits_shutter_strobe_pulse_open(n: u8)
    ensures
        digits_of(attribute_pretty(FixtureChannel3Attribute::ShutterStrobePulseOpen(n))) == digits_of(attribute_text(FixtureChannel3Attribute::ShutterStrobePulseOpen(n))),
{
    lemma_decimal_digits(n as nat);
    lemma_digits_all(decimal(n as nat));
    reveal_strlit(" Strobe Pulse Open");
    lemma_digits_none(" Strobe Pulse Open"@);
    reveal_strlit("Shutter");
    lemma_digits_none("Shutter"@);
    reveal_strlit("Shutter ");
    lemma_digits_none("Shutter "@);
    reveal_strlit("StrobePulseOpen");
    lemma_digits_none("StrobePulseOpen"@);
    lemma_digits_add("Shutter "@, decimal(n as nat));
    lemma_digits_add("Shutter "@ + decimal(n as nat), " Strobe Pulse Open"@);
    assert(digits_of("Shutter "@ + decimal(n as nat) + " Strobe Pulse Open"@) =~= decimal(n as nat));
    lemma_digits_add("Shutter"@, decimal(n as nat));
    lemma_digits_add("Shutter"@ + decimal(n as nat), "StrobePulseOpen"@);
    assert(digits_of("Shutter"@ + decimal(n as nat) + "StrobePulseOpen"@) =~= decimal(n as nat));
}

proof fn lemma_digits_shutter_strobe_random(n: u8)
    ensures
        digits_of(attribute_pretty(FixtureChannel3Attribute::ShutterStrobeRandom(n))) == digits_of(attribute_text(FixtureChannel3Attribute::ShutterStrobeRandom(n))),
{
    lemma_decimal_digits(n as nat);
    lemma_digits_all(decimal(n as nat));
    reveal_strlit(" Strobe Random");
    lemma_digits_none(" Strobe Random"@);
    reveal_strlit("Shutter");
    lemma_digits_none("Shutter"@);
    reveal_strlit("Shutter ");
    lemma_digits_none("Shutter "@);
    reveal_strlit("StrobeRandom");
    lemma_digits_none("StrobeRandom"@);
    lemma_digits_add("Shutter "@, decimal(n as nat));
    lemma_digits_add("Shutter "@ + decimal(n as nat), " Strobe Random"@);
    assert(digits_of("Shutter "@ + decimal(n as nat) + " Strobe Random"@) =~= decimal(n as nat));
    lemma_digits_add("Shutter"@, decimal(n as nat));
    lemma_digits_add("Shutter"@ + decimal(n as nat), "StrobeRandom"@);
    assert(digits_of("Shutter"@ + decimal(n as nat) + "StrobeRandom"@) =~= decimal(n as nat));
}

proof fn lemma_digits_shutter_strobe_random_pulse(n: u8)
    ensures
        digits_of(attribute_pretty(FixtureChannel3Attribute::ShutterStrobeRandomPulse(n))) == digits_of(attribute_text(FixtureChannel3Attribute::ShutterStrobeRandomPulse(n))),
{
    lemma_decimal_digits(n as nat);
    lemma_digits_all(decimal(n as nat));
    reveal_strlit(" Strobe Random Pulse");
    lemma_digits_none(" Strobe Random Pulse"@);
    reveal_strlit("Shutter");
    lemma_digits_none("Shutter"@);
    reveal_strlit("Shutter ");
    lemma_digits_none("Shutter "@);
    reveal_strlit("StrobeRandomPulse");
    lemma_digits_none("StrobeRandomPulse"@);
    lemma_digits_add("Shutter "@, decimal(n as nat));
    lemma_digits_add("Shutter "@ + decimal(n as nat), " Strobe Random Pulse"@);
    assert(digits_of("Shutter "@ + decimal(n as nat) + " Strobe Random Pulse"@) =~= decimal(n as nat));
    lemma_digits_add("Shutter"@, decimal(n as nat));
    lemma_digits_add("Shutter"@ + decimal(n as nat), "StrobeRandomPulse"@);
    assert(digits_of("Shutter"@ + decimal(n as nat) + "StrobeRandomPulse"@) =~= decimal(n as nat));
}

proof fn lemma_digits_shutter_strobe_random_pulse_close(n: u8)
    ensures
        digits_of(attribute_pretty(FixtureChannel3Attribute::ShutterStrobeRandomPulseClose(n))) == digits_of(attribute_text(FixtureChannel3Attribute::ShutterStrobeRandomPulseClose(n))),
{
    lemma_decimal_digits(n as nat);
    lemma_digits_all(decimal(n as nat));
    reveal_strlit(" Strobe Random Pulse Close");
    lemma_digits_none(" Strobe Random Pulse Close"@);
    reveal_strlit("Shutter");
    lemma_digits_none("Shutter"@);
    reveal_strlit("Shutter ");
    lemma_digits_none("Shutter "@);
    reveal_strlit("StrobeRandomPulseClose");
    lemma_digits_none("StrobeRandomPulseClose"@);
    lemma_digits_add("Shutter "@, decimal(n as nat));
    lemma_digits_add("Shutter "@ + decimal(n as nat), " Strobe Random Pulse Close"@);
    assert(digits_of("Shutter "@ + decimal(n as nat) + " Strobe Random Pulse Close"@) =~= decimal(n as nat));
    lemma_digits_add("Shutter"@, decimal(n as nat));
    lemma_digits_add("Shutter"@ + decimal(n as nat), "StrobeRandomPulseClose"@);
    assert(digits_of("Shutter"@ + decimal(n as nat) + "StrobeRandomPulseClose"@) =~= decimal(n as nat));
}

proof fn lemma_digits_shutter_strobe_random_pulse_open(n: u8)
    ensures
        digits_of(attribute_pretty(FixtureChannel3Attribute::ShutterStrobeRandomPulseOpen(n))) == digits_of(attribute_text(FixtureChannel3Attribute::ShutterStrobeRandomPulseOpen(n))),
{
    lemma_decimal_digits(n as nat);
    lemma_digits_all(decimal(n as nat));
    reveal_strlit(" Strobe Random Pulse Open");
    lemma_digits_none(" Strobe Random Pulse Open"@);
    reveal_strlit("Shutter");
    lemma_digits_none("Shutter"@);
    reveal_strlit("Shutter ");
    lemma_digits_none("Shutter "@);
    reveal_strlit("StrobeRandomPulseOpen");
    lemma_digits_none("StrobeRandomPulseOpen"@);
    lemma_digits_add("Shutter "@, decimal(n as nat));
    lemma_digits_add("Shutter "@ + decimal(n as nat), " Strobe Random Pulse Open"@);
    assert(digits_of("Shutter "@ + decimal(n as nat) + " Strobe Random Pulse Open"@) =~= decimal(n as nat));
    lemma_digits_add("Shutter"@, decimal(n as nat));
    lemma_digits_add("Shutter"@ + decimal(n as nat), "StrobeRandomPulseOpen"@);
    assert(digits_of("Shutter"@ + decimal(n as nat) + "StrobeRandomPulseOpen"@) =~= decimal(n as nat));
}

proof fn lemma_digits_shutter_strobe_effect(n: u8)
    ensures
        digits_of(attribute_pretty(FixtureChannel3Attribute::ShutterStrobeEffect(n))) == digits_of(attribute_text(FixtureChannel3Attribute::ShutterStrobeEffect(n))),
{
    lemma_decimal_digits(n as nat);
    lemma_digits_all(decimal(n as nat));
    reveal_strlit(" Strobe Effect");
    lemma_digits_none(" Strobe Effect"@);
    reveal_strlit("Shutter");
    lemma_digits_none("Shutter"@);
    reveal_strlit("Shutter ");
    lemma_digits_none("Shutter "@);
    reveal_strlit("StrobeEffect");
    lemma_digits_none("StrobeEffect"@);
    lemma_digits_add("Shutter "@, decimal(n as nat));
    lemma_digits_add("Shutter "@ + decimal(n as nat), " Strobe Effect"@);
    assert(digits_of("Shutter "@ + decimal(n as nat) + " Strobe Effect"@) =~= decimal(n as nat));
    lemma_digits_add("Shutter"@, decimal(n as nat));
    lemma_digits_add("Shutter"@ + decimal(n as nat), "StrobeEffect"@);
    assert(digits_of("Shutter"@ + decimal(n as nat) + "StrobeEffect"@) =~= decimal(n as nat));
}

proof fn lemma_digits_frost(n: u8)
    ensures
        digits_of(attribute_pretty(FixtureChannel3Attribute::Frost(n))) == digits_of(attribute_text(FixtureChannel3Attribute::Frost(n))),
{
    lemma_decimal_digits(n as nat);
    lemma_digits_all(decimal(n as nat));
    reveal_strlit("Frost");
    lemma_digits_none("Frost"@);
    reveal_strlit("Frost ");
    lemma_digits_none("Frost "@);
    lemma_digits_add("Frost "@, decimal(n as nat));
    assert(digits_of("Frost "@ + decimal(n as nat)) =~= decimal(n as nat));
    lemma_digits_add("Frost"@, decimal(n as nat));
    assert(digits_of("Frost"@ + decimal(n as nat)) =~= decimal(n as nat));
}

proof fn lemma_digits_frost_pulse_open(n: u8)
    ensures
        digits_of(attribute_pretty(FixtureChannel3Attribute::FrostPulseOpen(n))) == digits_of(attribute_text(FixtureChannel3Attribute::FrostPulseOpen(n))),
{
    lemma_decimal_digits(n as nat);
    lemma_digits_all(decimal(n as nat));
    reveal_strlit(" Pulse Open");
    lemma_digits_none(" Pulse Open"@);
    reveal_strlit("Frost");
    lemma_digits_none("Frost"@);
    reveal_strlit("Frost ");
    lemma_digits_none("Frost "@);
    reveal_strlit("PulseOpen");
    lemma_digits_none("PulseOpen"@);
    lemma_digits_add("Frost "@, decimal(n as nat));
    lemma_digits_add("Frost "@ + decimal(n as nat), " Pulse Open"@);
    assert(digits_of("Frost "@ + decimal(n as nat) + " Pulse Open"@) =~= decimal(n as nat));
    lemma_digits_add("Frost"@, decimal(n as nat));
    lemma_digits_add("Frost"@ + decimal(n as nat), "PulseOpen"@);
    assert(digits_of("Frost"@ + decimal(n as nat) + "PulseOpen"@) =~= decimal(n as nat));
}

proof fn lemma_digits_frost_pulse_close(n: u8)
    ensures
        digits_of(attribute_pretty(FixtureChannel3Attribute::FrostPulseClose(n))) == digits_of(attribute_text(FixtureChannel3Attribute::FrostPulseClose(n))),
{
    lemma_decimal_digits(n as nat);
    lemma_digits_all(decimal(n as nat));
    reveal_strlit(" Pulse Close");
    lemma_digits_none(" Pulse Close"@);
    reveal_strlit("Frost");
    lemma_digits_none("Frost"@);
    reveal_strlit("Frost ");
    lemma_digits_none("Frost "@);
    reveal_strlit("PulseClose");
    lemma_digits_none("PulseClose"@);
    lemma_digits_add("Frost "@, decimal(n as nat));
    lemma_digits_add("Frost "@ + decimal(n as nat), " Pulse Close"@);
    assert(digits_of("Frost "@ + decimal(n as nat) + " Pulse Close"@) =~= decimal(n as nat));
    lemma_digits_add("Frost"@, decimal(n as nat));
    lemma_digits_add("Frost"@ + decimal(n as nat), "PulseClose"@);
    assert(digits_of("Frost"@ + decimal(n as nat) + "PulseClose"@) =~= decimal(n as nat));
}

proof fn lemma_digits_frost_ramp(n: u8)
    ensures
        digits_of(attribute_pretty(FixtureChannel3Attribute::FrostRamp(n))) == digits_of(attribute_text(FixtureChannel3Attribute::FrostRamp(n))),
{
    lemma_decimal_digits(n as nat);
    lemma_digits_all(decimal(n as nat));
    reveal_strlit(" Ramp");
    lemma_digits_none(" Ramp"@);
    reveal_strlit("Frost");
    lemma_digits_none("Frost"@);
    reveal_strlit("Frost ");
    lemma_digits_none("Frost "@);
    reveal_strlit("Ramp");
    lemma_digits_none("Ramp"@);
    lemma_digits_add("Frost "@, decimal(n as nat));
    lemma_digits_add("Frost "@ + decimal(n as nat), " Ramp"@);
    assert(digits_of("Frost "@ + decimal(n as nat) + " Ramp"@) =~= decimal(n as nat));
    lemma_digits_add("Frost"@, decimal(n as nat));
    lemma_digits_add("Frost"@ + decimal(n as nat), "Ramp"@);
    assert(digits_of("Frost"@ + decimal(n as nat) + "Ramp"@) =~= decimal(n as nat));
}

proof fn lemma_digits_prism(n: u8)
    ensures
        digits_of(attribute_pretty(FixtureChannel3Attribute::Prism(n))) == digits_of(attribute_text(FixtureChannel3Attribute::Prism(n))),
{
    lemma_decimal_digits(n as nat);
    lemma_digits_all(decimal(n as nat));
    reveal_strlit("Prism");
    lemma_digits_none("Prism"@);
    reveal_strlit("Prism ");
    lemma_digits_none("Prism "@);
    lemma_digits_add("Prism "@, decimal(n as nat));
    assert(digits_of("Prism "@ + decimal(n as nat)) =~= decimal(n as nat));
    lemma_digits_add("Prism"@, decimal(n as nat));
    assert(digits_of("Prism"@ + decimal(n as nat)) =~= decimal(n as nat));
}

proof fn lemma_digits_prism_select_spin(n: u8)
    ensures
        digits_of(attribute_pretty(FixtureChannel3Attribute::PrismSelectSpin(n))) == digits_of(attribute_text(FixtureChannel3Attribute::PrismSelectSpin(n))),
{
    lemma_decimal_digits(n as nat);
    lemma_digits_all(decimal(n as nat));
    reveal_strlit(" Select Spin");
    lemma_digits_none(" Select Spin"@);
    reveal_strlit("Prism");
    lemma_digits_none("Prism"@);
    reveal_strlit("Prism ");
    lemma_digits_none("Prism "@);
    reveal_strlit("SelectSpin");
    lemma_digits_none("SelectSpin"@);
    lemma_digits_add("Prism "@, decimal(n as nat));
    lemma_digits_add("Prism "@ + decimal(n as nat), " Select Spin"@);
    assert(digits_of("Prism "@ + decimal(n as nat) + " Select Spin"@) =~= decimal(n as nat));
    lemma_digits_add("Prism"@, decimal(n as nat));
    lemma_digits_add("Prism"@ + decimal(n as nat), "SelectSpin"@);
    assert(digits_of("Prism"@ + decimal(n as nat) + "SelectSpin"@) =~= decimal(n as nat));
}

proof fn lemma_digits_prism_macro(n: u8)
    ensures
        digits_of(attribute_pretty(FixtureChannel3Attribute::PrismMacro(n))) == digits_of(attribute_text(FixtureChannel3Attribute::PrismMacro(n))),
{
    lemma_decimal_digits(n as nat);
    lemma_digits_all(decimal(n as nat));
    reveal_strlit(" Macro");
    lemma_digits_none(" Macro"@);
    reveal_strlit("Macro");
    lemma_digits_none("Macro"@);
    reveal_strlit("Prism");
    lemma_digits_none("Prism"@);
    reveal_strlit("Prism ");
    lemma_digits_none("Prism "@);
    lemma_digits_add("Prism "@, decimal(n as nat));
    lemma_digits_add("Prism "@ + decimal(n as nat), " Macro"@);
    assert(digits_of("Prism "@ + decimal(n as nat) + " Macro"@) =~= decimal(n as nat));
    lemma_digits_add("Prism"@, decimal(n as nat));
    lemma_digits_add("Prism"@ + decimal(n as nat), "Macro"@);
    assert(digits_of("Prism"@ + decimal(n as nat) + "Macro"@) =~= decimal(n as nat));
}

proof fn lemma_digits_prism_pos(n: u8)
    ensures
        digits_of(attribute_pretty(FixtureChannel3Attribute::PrismPos(n))) == digits_of(attribute_text(FixtureChannel3Attribute::PrismPos(n))),
{
    lemma_decimal_digits(n as nat);
    lemma_digits_all(decimal(n as nat));
    reveal_strlit(" Position");
    lemma_digits_none(" Position"@);
    reveal_strlit("Pos");
    lemma_digits_none("Pos"@);
    reveal_strlit("Prism");
    lemma_digits_none("Prism"@);
    reveal_strlit("Prism ");
    lemma_digits_none("Prism "@);
    lemma_digits_add("Prism "@, decimal(n as nat));
    lemma_digits_add("Prism "@ + decimal(n as nat), " Position"@);
    assert(digits_of("Prism "@ + decimal(n as nat) + " Position"@) =~= decimal(n as nat));
    lemma_digits_add("Prism"@, decimal(n as nat));
    lemma_digits_add("Prism"@ + decimal(n as nat), "Pos"@);
    assert(digits_of("Prism"@ + decimal(n as nat) + "Pos"@) =~= decimal(n as nat));
}

proof fn lemma_digits_prism_pos_rotate(n: u8)
    ensures
        digits_of(attribute_pretty(FixtureChannel3Attribute::PrismPosRotate(n))) == digits_of(attribute_text(FixtureChannel3Attribute::PrismPosRotate(n))),
{
    lemma_decimal_digits(n as nat);
    lemma_digits_all(decimal(n as nat));
    reveal_strlit(" Position Rotate");
    lemma_digits_none(" Position Rotate"@);
    reveal_strlit("PosRotate");
    lemma_digits_none("PosRotate"@);
    reveal_strlit("Prism");
    lemma_digits_none("Prism"@);
    reveal_strlit("Prism ");
    lemma_digits_none("Prism "@);
    lemma_digits_add("Prism "@, decimal(n as nat));
    lemma_digits_add("Prism "@ + decimal(n as nat), " Position Rotate"@);
    assert(digits_of("Prism "@ + decimal(n as nat) + " Position Rotate"@) =~= decimal(n as nat));
    lemma_digits_add("Prism"@, decimal(n as nat));
    lemma_digits_add("Prism"@ + decimal(n as nat), "PosRotate"@);
    assert(digits_of("Prism"@ + decimal(n as nat) + "PosRotate"@) =~= decimal(n as nat));
}

proof fn lemma_digits_effects(n: u8)
    ensures
        digits_of(attribute_pretty(FixtureChannel3Attribute::Effects(n))) == digits_of(attribute_text(FixtureChannel3Attribute::Effects(n))),
{
    lemma_decimal_digits(n as nat);
    lemma_digits_all(decimal(n as nat));
    reveal_strlit("Effects");
    lemma_digits_none("Effects"@);
    reveal_strlit("Effects ");
    lemma_digits_none("Effects "@);
    lemma_digits_add("Effects "@, decimal(n as nat));
    assert(digits_of("Effects "@ + decimal(n as nat)) =~= decimal(n as nat));
    lemma_digits_add("Effects"@, decimal(n as nat));
    assert(digits_of("Effects"@ + decimal(n as nat)) =~= decimal(n as nat));
}

proof fn lemma_digits_effects_rate(n: u8)
    ensures
        digits_of(attribute_pretty(FixtureChannel3Attribute::EffectsRate(n))) == digits_of(attribute_text(FixtureChannel3Attribute::EffectsRate(n))),
{
    lemma_decimal_digits(n as nat);
    lemma_digits_all(decimal(n as nat));
    reveal_strlit(" Rate");
    lemma_digits_none(" Rate"@);
    reveal_strlit("Effects");
    lemma_digits_none("Effects"@);
    reveal_strlit("Effects ");
    lemma_digits_none("Effects "@);
    reveal_strlit("Rate");
    lemma_digits_none("Rate"@);
    lemma_digits_add("Effects "@, decimal(n as nat));
    lemma_digits_add("Effects "@ + decimal(n as nat), " Rate"@);
    assert(digits_of("Effects "@ + decimal(n as nat) + " Rate"@) =~= decimal(n as nat));
    lemma_digits_add("Effects"@, decimal(n as nat));
    lemma_digits_add("Effects"@ + decimal(n as nat), "Rate"@);
    assert(digits_of("Effects"@ + decimal(n as nat) + "Rate"@) =~= decimal(n as nat));
}

proof fn lemma_digits_effects_fade(n: u8)
    ensures
        digits_of(attribute_pretty(FixtureChannel3Attribute::EffectsFade(n))) == digits_of(attribute_text(FixtureChannel3Attribute::EffectsFade(n))),
{
    lemma_decimal_digits(n as nat);
    lemma_digits_all(decimal(n as nat));
    reveal_strlit(" Fade");
    lemma_digits_none(" Fade"@);
    reveal_strlit("Effects");
    lemma_digits_none("Effects"@);
    reveal_strlit("Effects ");
    lemma_digits_none("Effects "@);
    reveal_strlit("Fade");
    lemma_digits_none("Fade"@);
    lemma_digits_add("Effects "@, decimal(n as nat));
    lemma_digits_add("Effects "@ + decimal(n as nat), " Fade"@);
    assert(digits_of("Effects "@ + decimal(n as nat) + " Fade"@) =~= decimal(n as nat));
    lemma_digits_add("Effects"@, decimal(n as nat));
    lemma_digits_add("Effects"@ + decimal(n as nat), "Fade"@);
    assert(digits_of("Effects"@ + decimal(n as nat) + "Fade"@) =~= decimal(n as nat));
}

proof fn lemma_digits_effects_adjust(n: u8, m: u8)
    ensures
        digits_of(attribute_pretty(FixtureChannel3Attribute::EffectsAdjust(n, m))) == digits_of(attribute_text(FixtureChannel3Attribute::EffectsAdjust(n, m))),
{
    lemma_decimal_digits(n as nat);
    lemma_digits_all(decimal(n as nat));
    lemma_decimal_digits(m as nat);
    lemma_digits_all(decimal(m as nat));
    reveal_strlit(" Adjust ");
    lemma_digits_none(" Adjust "@);
    reveal_strlit("Adjust");
    lemma_digits_none("Adjust"@);
    reveal_strlit("Effects");
    lemma_digits_none("Effects"@);
    reveal_strlit("Effects ");
    lemma_digits_none("Effects "@);
    lemma_digits_add("Effects "@, decimal(n as nat));
    lemma_digits_add("Effects "@ + decimal(n as nat), " Adjust "@);
    lemma_digits_add("Effects "@ + decimal(n as nat) + " Adjust "@, decimal(m as nat));
    assert(digits_of("Effects "@ + decimal(n as nat) + " Adjust "@ + decimal(m as nat)) =~= decimal(n as nat) + decimal(m as nat));
    lemma_digits_add("Effects"@, decimal(n as nat));
    lemma_digits_add("Effects"@ + decimal(n as nat), "Adjust"@);
    lemma_digits_add("Effects"@ + decimal(n as nat) + "Adjust"@, decimal(m as nat));
    assert(digits_of("Effects"@ + decimal(n as nat) + "Adjust"@ + decimal(m as nat)) =~= decimal(n as nat) + decimal(m as nat));
}

proof fn lemma_digits_effects_pos(n: u8)
    ensures
        digits_of(attribute_pretty(FixtureChannel3Attribute::EffectsPos(n))) == digits_of(attribute_text(FixtureChannel3Attribute::EffectsPos(n))),
{
    lemma_decimal_digits(n as nat);
    lemma_digits_all(decimal(n as nat));
    reveal_strlit(" Position");
    lemma_digits_none(" Position"@);
    reveal_strlit("Effects");
    lemma_digits_none("Effects"@);
    reveal_strlit("Effects ");
    lemma_digits_none("Effects "@);
    reveal_strlit("Pos");
    lemma_digits_none("Pos"@);
    lemma_digits_add("Effects "@, decimal(n as nat));
    lemma_digits_add("Effects "@ + decimal(n as nat), " Position"@);
    assert(digits_of("Effects "@ + decimal(n as nat) + " Position"@) =~= decimal(n as nat));
    lemma_digits_add("Effects"@, decimal(n as nat));
    lemma_digits_add("Effects"@ + decimal(n as nat), "Pos"@);
    assert(digits_of("Effects"@ + decimal(n as nat) + "Pos"@) =~= decimal(n as nat));
}

proof fn lemma_digits_effects_pos_rotate(n: u8)
    ensures
        digits_of(attribute_pretty(FixtureChannel3Attribute::EffectsPosRotate(n))) == digits_of(attribute_text(FixtureChannel3Attribute::EffectsPosRotate(n))),
{
    lemma_decimal_digits(n as nat);
    lemma_digits_all(decimal(n as nat));
    reveal_strlit(" Position Rotate");
    lemma_digits_none(" Position Rotate"@);
    reveal_strlit("Effects");
    lemma_digits_none("Effects"@);
    reveal_strlit("Effects ");
    lemma_digits_none("Effects "@);
    reveal_strlit("PosRotate");
    lemma_digits_none("PosRotate"@);
    lemma_digits_add("Effects "@, decimal(n as nat));
    lemma_digits_add("Effects "@ + decimal(n as nat), " Position Rotate"@);
    assert(digits_of("Effects "@ + decimal(n as nat) + " Position Rotate"@) =~= decimal(n as nat));
    lemma_digits_add("Effects"@, decimal(n as nat));
    lemma_digits_add("Effects"@ + decimal(n as nat), "PosRotate"@);
    assert(digits_of("Effects"@ + decimal(n as nat) + "PosRotate"@) =~= decimal(n as nat));
}

proof fn lemma_digits_focus(n: u8)
    ensures
        digits_of(attribute_pretty(FixtureChannel3Attribute::Focus(n))) == digits_of(attribute_text(FixtureChannel3Attribute::Focus(n))),
{
    lemma_decimal_digits(n as nat);
    lemma_digits_all(decimal(n as nat));
    reveal_strlit("Focus");
    lemma_digits_none("Focus"@);
    reveal_strlit("Focus ");
    lemma_digits_none("Focus "@);
    lemma_digits_add("Focus "@, decimal(n as nat));
    assert(digits_of("Focus "@ + decimal(n as nat)) =~= decimal(n as nat));
    lemma_digits_add("Focus"@, decimal(n as nat));
    assert(digits_of("Focus"@ + decimal(n as nat)) =~= decimal(n as nat));
}

proof fn lemma_digits_focus_adjust(n: u8)
    ensures
        digits_of(attribute_pretty(FixtureChannel3Attribute::FocusAdjust(n))) == digits_of(attribute_text(FixtureChannel3Attribute::FocusAdjust(n))),
{
    lemma_decimal_digits(n as nat);
    lemma_digits_all(decimal(n as nat));
    reveal_strlit(" Adjust");
    lemma_digits_none(" Adjust"@);
    reveal_strlit("Adjust");
    lemma_digits_none("Adjust"@);
    reveal_strlit("Focus");
    lemma_digits_none("Focus"@);
    reveal_strlit("Focus ");
    lemma_digits_none("Focus "@);
    lemma_digits_add("Focus "@, decimal(n as nat));
    lemma_digits_add("Focus "@ + decimal(n as nat), " Adjust"@);
    assert(digits_of("Focus "@ + decimal(n as nat) + " Adjust"@) =~= decimal(n as nat));
    lemma_digits_add("Focus"@, decimal(n as nat));
    lemma_digits_add("Focus"@ + decimal(n as nat), "Adjust"@);
    assert(digits_of("Focus"@ + decimal(n as nat) + "Adjust"@) =~= decimal(n as nat));
}

proof fn lemma_digits_focus_distance(n: u8)
    ensures
        digits_of(attribute_pretty(FixtureChannel3Attribute::FocusDistance(n))) == digits_of(attribute_text(FixtureChannel3Attribute::FocusDistance(n))),
{
    lemma_decimal_digits(n as nat);
    lemma_digits_all(decimal(n as nat));
    reveal_strlit(" Distance");
    lemma_digits_none(" Distance"@);
    reveal_strlit("Distance");
    lemma_digits_none("Distance"@);
    reveal_strlit("Focus");
    lemma_digits_none("Focus"@);
    reveal_strlit("Focus ");
    lemma_digits_none("Focus "@);
    lemma_digits_add("Focus "@, decimal(n as nat));
    lemma_digits_add("Focus "@ + decimal(n as nat), " Distance"@);
    assert(digits_of("Focus "@ + decimal(n as nat) + " Distance"@) =~= decimal(n as nat));
    lemma_digits_add("Focus"@, decimal(n as nat));
    lemma_digits_add("Focus"@ + decimal(n as nat), "Distance"@);
    assert(digits_of("Focus"@ + decimal(n as nat) + "Distance"@) =~= decimal(n as nat));
}

proof fn lemma_digits_control(n: u8)
    ensures
        digits_of(attribute_pretty(FixtureChannel3Attribute::Control(n))) == digits_of(attribute_text(FixtureChannel3Attribute::Control(n))),
{
    lemma_decimal_digits(n as nat);
    lemma_digits_all(decimal(n as nat));
    reveal_strlit("Control");
    lemma_digits_none("Control"@);
    reveal_strlit("Control ");
    lemma_digits_none("Control "@);
    lemma_digits_add("Control "@, decimal(n as nat));
    assert(digits_of("Control "@ + decimal(n as nat)) =~= decimal(n as nat));
    lemma_digits_add("Control"@, decimal(n as nat));
    assert(digits_of("Control"@ + decimal(n as nat)) =~= decimal(n as nat));
}

proof fn lemma_digits_gobo_wheel_mode(n: u8)
    ensures
        digits_of(attribute_pretty(FixtureChannel3Attribute::GoboWheelMode(n))) == digits_of(attribute_text(FixtureChannel3Attribute::GoboWheelMode(n))),
{
    lemma_decimal_digits(n as nat);
    lemma_digits_all(decimal(n as nat));
    reveal_strlit(" Wheel Mode");
    lemma_digits_none(" Wheel Mode"@);
    reveal_strlit("Gobo");
    lemma_digits_none("Gobo"@);
    reveal_strlit("Gobo ");
    lemma_digits_none("Gobo "@);
    reveal_strlit("WheelMode");
    lemma_digits_none("WheelMode"@);
    lemma_digits_add("Gobo "@, decimal(n as nat));
    lemma_digits_add("Gobo "@ + decimal(n as nat), " Wheel Mode"@);
    assert(digits_of("Gobo "@ + decimal(n as nat) + " Wheel Mode"@) =~= decimal(n as nat));
    lemma_digits_add("Gobo"@, decimal(n as nat));
    lemma_digits_add("Gobo"@ + decimal(n as nat), "WheelMode"@);
    assert(digits_of("Gobo"@ + decimal(n as nat) + "WheelMode"@) =~= decimal(n as nat));
}

proof fn lemma_digits_animation_wheel_mode(n: u8)
    ensures
        digits_of(attribute_pretty(FixtureChannel3Attribute::AnimationWheelMode(n))) == digits_of(attribute_text(FixtureChannel3Attribute::AnimationWheelMode(n))),
{
    lemma_decimal_digits(n as nat);
    lemma_digits_all(decimal(n as nat));
    reveal_strlit(" Wheel Mode");
    lemma_digits_none(" Wheel Mode"@);
    reveal_strlit("Animation");
    lemma_digits_none("Animation"@);
    reveal_strlit("Animation ");
    lemma_digits_none("Animation "@);
    reveal_strlit("WheelMode");
    lemma_digits_none("WheelMode"@);
    lemma_digits_add("Animation "@, decimal(n as nat));
    lemma_digits_add("Animation "@ + decimal(n as nat), " Wheel Mode"@);
    assert(digits_of("Animation "@ + decimal(n as nat) + " Wheel Mode"@) =~= decimal(n as nat));
    lemma_digits_add("Animation"@, decimal(n as nat));
    lemma_digits_add("Animation"@ + decimal(n as nat), "WheelMode"@);
    assert(digits_of("Animation"@ + decimal(n as nat) + "WheelMode"@) =~= decimal(n as nat));
}

proof fn lemma_digits_color_mode(n: u8)
    ensures
        digits_of(attribute_pretty(FixtureChannel3Attribute::ColorMode(n))) == digits_of(attribute_text(FixtureChannel3Attribute::ColorMode(n))),
{
    lemma_decimal_digits(n as nat);
    lemma_digits_all(decimal(n as nat));
    reveal_strlit(" Mode");
    lemma_digits_none(" Mode"@);
    reveal_strlit("Color");
    lemma_digits_none("Color"@);
    reveal_strlit("Color ");
    lemma_digits_none("Color "@);
    reveal_strlit("Mode");
    lemma_digits_none("Mode"@);
    lemma_digits_add("Color "@, decimal(n as nat));
    lemma_digits_add("Color "@ + decimal(n as nat), " Mode"@);
    assert(digits_of("Color "@ + decimal(n as nat) + " Mode"@) =~= decimal(n as nat));
    lemma_digits_add("Color"@, decimal(n as nat));
    lemma_digits_add("Color"@ + decimal(n as nat), "Mode"@);
    assert(digits_of("Color"@ + decimal(n as nat) + "Mode"@) =~= decimal(n as nat));
}

proof fn lemma_digits_fan_mode(n: u8)
    ensures
        digits_of(attribute_pretty(FixtureChannel3Attribute::FanMode(n))) == digits_of(attribute_text(FixtureChannel3Attribute::FanMode(n))),
{
    lemma_decimal_digits(n as nat);
    lemma_digits_all(decimal(n as nat));
    reveal_strlit(" Mode");
    lemma_digits_none(" Mode"@);
    reveal_strlit("Fan");
    lemma_digits_none("Fan"@);
    reveal_strlit("Fan ");
    lemma_digits_none("Fan "@);
    reveal_strlit("Mode");
    lemma_digits_none("Mode"@);
    lemma_digits_add("Fan "@, decimal(n as nat));
    lemma_digits_add("Fan "@ + decimal(n as nat), " Mode"@);
    assert(digits_of("Fan "@ + decimal(n as nat) + " Mode"@) =~= decimal(n as nat));
    lemma_digits_add("Fan"@, decimal(n as nat));
    lemma_digits_add("Fan"@ + decimal(n as nat), "Mode"@);
    assert(digits_of("Fan"@ + decimal(n as nat) + "Mode"@) =~= decimal(n as nat));
}

proof fn lemma_digits_gobo_wheel_m_speed(n: u8)
    ensures
        digits_of(attribute_pretty(FixtureChannel3Attribute::GoboWheelMSpeed(n))) == digits_of(attribute_text(FixtureChannel3Attribute::GoboWheelMSpeed(n))),
{
    lemma_decimal_digits(n as nat);
    lemma_digits_all(decimal(n as nat));
    reveal_strlit(" Wheel MSpeed");
    lemma_digits_none(" Wheel MSpeed"@);
    reveal_strlit("Gobo");
    lemma_digits_none("Gobo"@);
    reveal_strlit("Gobo ");
    lemma_digits_none("Gobo "@);
    reveal_strlit("WheelMSpeed");
    lemma_digits_none("WheelMSpeed"@);
    lemma_digits_add("Gobo "@, decimal(n as nat));
    lemma_digits_add("Gobo "@ + decimal(n as nat), " Wheel MSpeed"@);
    assert(digits_of("Gobo "@ + decimal(n as nat) + " Wheel MSpeed"@) =~= decimal(n as nat));
    lemma_digits_add("Gobo"@, decimal(n as nat));
    lemma_digits_add("Gobo"@ + decimal(n as nat), "WheelMSpeed"@);
    assert(digits_of("Gobo"@ + decimal(n as nat) + "WheelMSpeed"@) =~= decimal(n as nat));
}

proof fn lemma_digits_prism_m_speed(n: u8)
    ensures
        digits_of(attribute_pretty(FixtureChannel3Attribute::PrismMSpeed(n))) == digits_of(attribute_text(FixtureChannel3Attribute::PrismMSpeed(n))),
{
    lemma_decimal_digits(n as nat);
    lemma_digits_all(decimal(n as nat));
    reveal_strlit(" MSpeed");
    lemma_digits_none(" MSpeed"@);
    reveal_strlit("MSpeed");
    lemma_digits_none("MSpeed"@);
    reveal_strlit("Prism");
    lemma_digits_none("Prism"@);
    reveal_strlit("Prism ");
    lemma_digits_none("Prism "@);
    lemma_digits_add("Prism "@, decimal(n as nat));
    lemma_digits_add("Prism "@ + decimal(n as nat), " MSpeed"@);
    assert(digits_of("Prism "@ + decimal(n as nat) + " MSpeed"@) =~= decimal(n as nat));
    lemma_digits_add("Prism"@, decimal(n as nat));
    lemma_digits_add("Prism"@ + decimal(n as nat), "MSpeed"@);
    assert(digits_of("Prism"@ + decimal(n as nat) + "MSpeed"@) =~= decimal(n as nat));
}

proof fn lemma_digits_frost_m_speed(n: u8)
    ensures
        digits_of(attribute_pretty(FixtureChannel3Attribute::FrostMSpeed(n))) == digits_of(attribute_text(FixtureChannel3Attribute::FrostMSpeed(n))),
{
    lemma_decimal_digits(n as nat);
    lemma_digits_all(decimal(n as nat));
    reveal_strlit(" MSpeed");
    lemma_digits_none(" MSpeed"@);
    reveal_strlit("Frost");
    lemma_digits_none("Frost"@);
    reveal_strlit("Frost ");
    lemma_digits_none("Frost "@);
    reveal_strlit("MSpeed");
    lemma_digits_none("MSpeed"@);
    lemma_digits_add("Frost "@, decimal(n as nat));
    lemma_digits_add("Frost "@ + decimal(n as nat), " MSpeed"@);
    assert(digits_of("Frost "@ + decimal(n as nat) + " MSpeed"@) =~= decimal(n as nat));
    lemma_digits_add("Frost"@, decimal(n as nat));
    lemma_digits_add("Frost"@ + decimal(n as nat), "MSpeed"@);
    assert(digits_of("Frost"@ + decimal(n as nat) + "MSpeed"@) =~= decimal(n as nat));
}

proof fn lemma_digits_blower(n: u8)
    ensures
        digits_of(attribute_pretty(FixtureChannel3Attribute::Blower(n))) == digits_of(attribute_text(FixtureChannel3Attribute::Blower(n))),
{
    lemma_decimal_digits(n as nat);
    lemma_digits_all(decimal(n as nat));
    reveal_strlit("Blower");
    lemma_digits_none("Blower"@);
    reveal_strlit("Blower ");
    lemma_digits_none("Blower "@);
    lemma_digits_add("Blower "@, decimal(n as nat));
    assert(digits_of("Blower "@ + decimal(n as nat)) =~= decimal(n as nat));
    lemma_digits_add("Blower"@, decimal(n as nat));
    assert(digits_of("Blower"@ + decimal(n as nat)) =~= decimal(n as nat));
}

proof fn lemma_digits_fan(n: u8)
    ensures
        digits_of(attribute_pretty(FixtureChannel3Attribute::Fan(n))) == digits_of(attribute_text(FixtureChannel3Attribute::Fan(n))),
{
    lemma_decimal_digits(n as nat);
    lemma_digits_all(decimal(n as nat));
    reveal_strlit("Fan");
    lemma_digits_none("Fan"@);
    reveal_strlit("Fan ");
    lemma_digits_none("Fan "@);
    lemma_digits_add("Fan "@, decimal(n as nat));
    assert(digits_of("Fan "@ + decimal(n as nat)) =~= decimal(n as nat));
    lemma_digits_add("Fan"@, decimal(n as nat));
    assert(digits_of("Fan"@ + decimal(n as nat)) =~= decimal(n as nat));
}

proof fn lemma_digits_fog(n: u8)
    ensures
        digits_of(attribute_pretty(FixtureChannel3Attribute::Fog(n))) == digits_of(attribute_text(FixtureChannel3Attribute::Fog(n))),
{
    lemma_decimal_digits(n as nat);
    lemma_digits_all(decimal(n as nat));
    reveal_strlit("Fog");
    lemma_digits_none("Fog"@);
    reveal_strlit("Fog ");
    lemma_digits_none("Fog "@);
    lemma_digits_add("Fog "@, decimal(n as nat));
    assert(digits_of("Fog "@ + decimal(n as nat)) =~= decimal(n as nat));
    lemma_digits_add("Fog"@, decimal(n as nat));
    assert(digits_of("Fog"@ + decimal(n as nat)) =~= decimal(n as nat));
}

proof fn lemma_digits_haze(n: u8)
    ensures
        digits_of(attribute_pretty(FixtureChannel3Attribute::Haze(n))) == digits_of(attribute_text(FixtureChannel3Attribute::Haze(n))),
{
    lemma_decimal_digits(n as nat);
    lemma_digits_all(decimal(n as nat));
    reveal_strlit("Haze");
    lemma_digits_none("Haze"@);
    reveal_strlit("Haze ");
    lemma_digits_none("Haze "@);
    lemma_digits_add("Haze "@, decimal(n as nat));
    assert(digits_of("Haze "@ + decimal(n as nat)) =~= decimal(n as nat));
    lemma_digits_add("Haze"@, decimal(n as nat));
    assert(digits_of("Haze"@ + decimal(n as nat)) =~= decimal(n as nat));
}

proof fn lemma_digits_blade_a(n: u8)
    ensures
        digits_of(attribute_pretty(FixtureChannel3Attribute::BladeA(n))) == digits_of(attribute_text(FixtureChannel3Attribute::BladeA(n))),
{
    lemma_decimal_digits(n as nat);
    lemma_digits_all(decimal(n as nat));
    reveal_strlit(" A");
    lemma_digits_none(" A"@);
    reveal_strlit("A");
    lemma_digits_none("A"@);
    reveal_strlit("Blade");
    lemma_digits_none("Blade"@);
    reveal_strlit("Blade ");
    lemma_digits_none("Blade "@);
    lemma_digits_add("Blade "@, decimal(n as nat));
    lemma_digits_add("Blade "@ + decimal(n as nat), " A"@);
    assert(digits_of("Blade "@ + decimal(n as nat) + " A"@) =~= decimal(n as nat));
    lemma_digits_add("Blade"@, decimal(n as nat));
    lemma_digits_add("Blade"@ + decimal(n as nat), "A"@);
    assert(digits_of("Blade"@ + decimal(n as nat) + "A"@) =~= decimal(n as nat));
}

proof fn lemma_digits_blade_b(n: u8)
    ensures
        digits_of(attribute_pretty(FixtureChannel3Attribute::BladeB(n))) == digits_of(attribute_text(FixtureChannel3Attribute::BladeB(n))),
{
    lemma_decimal_digits(n as nat);
    lemma_digits_all(decimal(n as nat));
    reveal_strlit(" B");
    lemma_digits_none(" B"@);
    reveal_strlit("B");
    lemma_digits_none("B"@);
    reveal_strlit("Blade");
    lemma_digits_none("Blade"@);
    reveal_strlit("Blade ");
    lemma_digits_none("Blade "@);
    lemma_digits_add("Blade "@, decimal(n as nat));
    lemma_digits_add("Blade "@ + decimal(n as nat), " B"@);
    assert(digits_of("Blade "@ + decimal(n as nat) + " B"@) =~= decimal(n as nat));
    lemma_digits_add("Blade"@, decimal(n as nat));
    lemma_digits_add("Blade"@ + decimal(n as nat), "B"@);
    assert(digits_of("Blade"@ + decimal(n as nat) + "B"@) =~= decimal(n as nat));
}

proof fn lemma_digits_blade_rot(n: u8)
    ensures
        digits_of(attribute_pretty(FixtureChannel3Attribute::BladeRot(n))) == digits_of(attribute_text(FixtureChannel3Attribute::BladeRot(n))),
{
    lemma_decimal_digits(n as nat);
    lemma_digits_all(decimal(n as nat));
    reveal_strlit(" Rotation");
    lemma_digits_none(" Rotation"@);
    reveal_strlit("Blade");
    lemma_digits_none("Blade"@);
    reveal_strlit("Blade ");
    lemma_digits_none("Blade "@);
    reveal_strlit("Rot");
    lemma_digits_none("Rot"@);
    lemma_digits_add("Blade "@, decimal(n as nat));
    lemma_digits_add("Blade "@ + decimal(n as nat), " Rotation"@);
    assert(digits_of("Blade "@ + decimal(n as nat) + " Rotation"@) =~= decimal(n as nat));
    lemma_digits_add("Blade"@, decimal(n as nat));
    lemma_digits_add("Blade"@ + decimal(n as nat), "Rot"@);
    assert(digits_of("Blade"@ + decimal(n as nat) + "Rot"@) =~= decimal(n as nat));
}

proof fn lemma_digits_blade_soft_a(n: u8)
    ensures
        digits_of(attribute_pretty(FixtureChannel3Attribute::BladeSoftA(n))) == digits_of(attribute_text(FixtureChannel3Attribute::BladeSoftA(n))),
{
    lemma_decimal_digits(n as nat);
    lemma_digits_all(decimal(n as nat));
    reveal_strlit(" A");
    lemma_digits_none(" A"@);
    reveal_strlit("A");
    lemma_digits_none("A"@);
    reveal_strlit("Blade Soft ");
    lemma_digits_none("Blade Soft "@);
    reveal_strlit("BladeSoft");
    lemma_digits_none("BladeSoft"@);
    lemma_digits_add("Blade Soft "@, decimal(n as nat));
    lemma_digits_add("Blade Soft "@ + decimal(n as nat), " A"@);
    assert(digits_of("Blade Soft "@ + decimal(n as nat) + " A"@) =~= decimal(n as nat));
    lemma_digits_add("BladeSoft"@, decimal(n as nat));
    lemma_digits_add("BladeSoft"@ + decimal(n as nat), "A"@);
    assert(digits_of("BladeSoft"@ + decimal(n as nat) + "A"@) =~= decimal(n as nat));
}

proof fn lemma_digits_blade_soft_b(n: u8)
    ensures
        digits_of(attribute_pretty(FixtureChannel3Attribute::BladeSoftB(n))) == digits_of(attribute_text(FixtureChannel3Attribute::BladeSoftB(n))),
{
    lemma_decimal_digits(n as nat);
    lemma_digits_all(decimal(n as nat));
    reveal_strlit(" B");
    lemma_digits_none(" B"@);
    reveal_strlit("B");
    lemma_digits_none("B"@);
    reveal_strlit("Blade Soft ");
    lemma_digits_none("Blade Soft "@);
    reveal_strlit("BladeSoft");
    lemma_digits_none("BladeSoft"@);
    lemma_digits_add("Blade Soft "@, decimal(n as nat));
    lemma_digits_add("Blade Soft "@ + decimal(n as nat), " B"@);
    assert(digits_of("Blade Soft "@ + decimal(n as nat) + " B"@) =~= decimal(n as nat));
    lemma_digits_add("BladeSoft"@, decimal(n as nat));
    lemma_digits_add("BladeSoft"@ + decimal(n as nat), "B"@);
    assert(digits_of("BladeSoft"@ + decimal(n as nat) + "B"@) =~= decimal(n as nat));
}

proof fn lemma_digits_key_stone_a(n: u8)
    ensures
        digits_of(attribute_pretty(FixtureChannel3Attribute::KeyStoneA(n))) == digits_of(attribute_text(FixtureChannel3Attribute::KeyStoneA(n))),
{
    lemma_decimal_digits(n as nat);
    lemma_digits_all(decimal(n as nat));
    reveal_strlit(" A");
    lemma_digits_none(" A"@);
    reveal_strlit("A");
    lemma_digits_none("A"@);
    reveal_strlit("KeyStone");
    lemma_digits_none("KeyStone"@);
    reveal_strlit("Keystone ");
    lemma_digits_none("Keystone "@);
    lemma_digits_add("Keystone "@, decimal(n as nat));
    lemma_digits_add("Keystone "@ + decimal(n as nat), " A"@);
    assert(digits_of("Keystone "@ + decimal(n as nat) + " A"@) =~= decimal(n as nat));
    lemma_digits_add("KeyStone"@, decimal(n as nat));
    lemma_digits_add("KeyStone"@ + decimal(n as nat), "A"@);
    assert(digits_of("KeyStone"@ + decimal(n as nat) + "A"@) =~= decimal(n as nat));
}

proof fn lemma_digits_key_stone_b(n: u8)
    ensures
        digits_of(attribute_pretty(FixtureChannel3Attribute::KeyStoneB(n))) == digits_of(attribute_text(FixtureChannel3Attribute::KeyStoneB(n))),
{
    lemma_decimal_digits(n as nat);
    lemma_digits_all(decimal(n as nat));
    reveal_strlit(" B");
    lemma_digits_none(" B"@);
    reveal_strlit("B");
    lemma_digits_none("B"@);
    reveal_strlit("KeyStone");
    lemma_digits_none("KeyStone"@);
    reveal_strlit("Keystone ");
    lemma_digits_none("Keystone "@);
    lemma_digits_add("Keystone "@, decimal(n as nat));
    lemma_digits_add("Keystone "@ + decimal(n as nat), " B"@);
    assert(digits_of("Keystone "@ + decimal(n as nat) + " B"@) =~= decimal(n as nat));
    lemma_digits_add("KeyStone"@, decimal(n as nat));
    lemma_digits_add("KeyStone"@ + decimal(n as nat), "B"@);
    assert(digits_of("KeyStone"@ + decimal(n as nat) + "B"@) =~= decimal(n as nat));
}

proof fn lemma_digits_video_effect_type(n: u8)
    ensures
        digits_of(attribute_pretty(FixtureChannel3Attribute::VideoEffectType(n))) == digits_of(attribute_text(FixtureChannel3Attribute::VideoEffectType(n))),
{
    lemma_decimal_digits(n as nat);
    lemma_digits_all(decimal(n as nat));
    reveal_strlit(" Type");
    lemma_digits_none(" Type"@);
    reveal_strlit("Type");
    lemma_digits_none("Type"@);
    reveal_strlit("Video Effect ");
    lemma_digits_none("Video Effect "@);
    reveal_strlit("VideoEffect");
    lemma_digits_none("VideoEffect"@);
    lemma_digits_add("Video Effect "@, decimal(n as nat));
    lemma_digits_add("Video Effect "@ + decimal(n as nat), " Type"@);
    assert(digits_of("Video Effect "@ + decimal(n as nat) + " Type"@) =~= decimal(n as nat));
    lemma_digits_add("VideoEffect"@, decimal(n as nat));
    lemma_digits_add("VideoEffect"@ + decimal(n as nat), "Type"@);
    assert(digits_of("VideoEffect"@ + decimal(n as nat) + "Type"@) =~= decimal(n as nat));
}

proof fn lemma_digits_video_effect_parameter(n: u8, m: u8)
    ensures
        digits_of(attribute_pretty(FixtureChannel3Attribute::VideoEffectParameter(n, m))) == digits_of(attribute_text(FixtureChannel3Attribute::VideoEffectParameter(n, m))),
{
    lemma_decimal_digits(n as nat);
    lemma_digits_all(decimal(n as nat));
    lemma_decimal_digits(m as nat);
    lemma_digits_all(decimal(m as nat));
    reveal_strlit(" Parameter ");
    lemma_digits_none(" Parameter "@);
    reveal_strlit("Parameter");
    lemma_digits_none("Parameter"@);
    reveal_strlit("Video Effect ");
    lemma_digits_none("Video Effect "@);
    reveal_strlit("VideoEffect");
    lemma_digits_none("VideoEffect"@);
    lemma_digits_add("Video Effect "@, decimal(n as nat));
    lemma_digits_add("Video Effect "@ + decimal(n as nat), " Parameter "@);
    lemma_digits_add("Video Effect "@ + decimal(n as nat) + " Parameter "@, decimal(m as nat));
    assert(digits_of("Video Effect "@ + decimal(n as nat) + " Parameter "@ + decimal(m as nat)) =~= decimal(n as nat) + decimal(m as nat));
    lemma_digits_add("VideoEffect"@, decimal(n as nat));
    lemma_digits_add("VideoEffect"@ + decimal(n as nat), "Parameter"@);
    lemma_digits_add("VideoEffect"@ + decimal(n as nat) + "Parameter"@, decimal(m as nat));
    assert(digits_of("VideoEffect"@ + decimal(n as nat) + "Parameter"@ + decimal(m as nat)) =~= decimal(n as nat) + decimal(m as nat));
}

proof fn lemma_digits_video_camera(n: u8)
    ensures
        digits_of(attribute_pretty(FixtureChannel3Attribute::VideoCamera(n))) == digits_of(attribute_text(FixtureChannel3Attribute::VideoCamera(n))),
{
    lemma_decimal_digits(n as nat);
    lemma_digits_all(decimal(n as nat));
    reveal_strlit("Video Camera ");
    lemma_digits_none("Video Camera "@);
    reveal_strlit("VideoCamera");
    lemma_digits_none("VideoCamera"@);
    lemma_digits_add("Video Camera "@, decimal(n as nat));
    assert(digits_of("Video Camera "@ + decimal(n as nat)) =~= decimal(n as nat));
    lemma_digits_add("VideoCamera"@, decimal(n as nat));
    assert(digits_of("VideoCamera"@ + decimal(n as nat)) =~= decimal(n as nat));
}

proof fn lemma_digits_video_sound_volume(n: u8)
    ensures
        digits_of(attribute_pretty(FixtureChannel3Attribute::VideoSoundVolume(n))) == digits_of(attribute_text(FixtureChannel3Attribute::VideoSoundVolume(n))),
{
    lemma_decimal_digits(n as nat);
    lemma_digits_all(decimal(n as nat));
    reveal_strlit("Video Sound Volume ");
    lemma_digits_none("Video Sound Volume "@);
    reveal_strlit("VideoSoundVolume");
    lemma_digits_none("VideoSoundVolume"@);
    lemma_digits_add("Video Sound Volume "@, decimal(n as nat));
    assert(digits_of("Video Sound Volume "@ + decimal(n as nat)) =~= decimal(n as nat));
    lemma_digits_add("VideoSoundVolume"@, decimal(n as nat));
    assert(digits_of("VideoSoundVolume"@ + decimal(n as nat)) =~= decimal(n as nat));
}

/// The pretty and written names of part 0 of the unnumbered attributes
/// hold no digits.
#[verifier::rlimit(100)]
proof fn lemma_digits_units_0(a: FixtureChannel3Attribute)
    requires
        a is Dimmer || a is Pan || a is Tilt || a is PanRotate || a is TiltRotate || a is PositionEffect || a is PositionEffectRate || a is PositionEffectFade || a is XyzX || a is XyzY || a is XyzZ || a is RotX || a is RotY || a is RotZ || a is ScaleX || a is ScaleY || a is ScaleZ || a is ScaleXYZ || a is PlayMode || a is PlayBegin || a is PlayEnd || a is PlaySpeed || a is ColorAddR || a is ColorAddG || a is ColorAddB || a is ColorAddC || a is ColorAddM || a is ColorAddY || a is ColorAddRY || a is ColorAddGY || a is ColorAddGC || a is ColorAddBC || a is ColorAddBM || a is ColorAddRM || a is ColorAddW || a is ColorAddWW || a is ColorAddCW || a is ColorAddUV || a is ColorSubR || a is ColorSubG || a is ColorSubB || a is ColorSubC || a is ColorSubM || a is ColorSubY || a is Cto || a is Ctc,
    ensures
        digits_of(attribute_pretty(a)) == Seq::<char>::empty(),
        digits_of(attribute_text(a)) == Seq::<char>::empty(),
{
    match a {
        FixtureChannel3Attribute::Dimmer => {
            reveal_strlit("Dimmer");
            lemma_digits_none("Dimmer"@);
        },
        FixtureChannel3Attribute::Pan => {
            reveal_strlit("Pan");
            lemma_digits_none("Pan"@);
        },
        FixtureChannel3Attribute::Tilt => {
            reveal_strlit("Tilt");
            lemma_digits_none("Tilt"@);
        },
        FixtureChannel3Attribute::PanRotate => {
            reveal_strlit("Pan Rotate");
            lemma_digits_none("Pan Rotate"@);
            reveal_strlit("PanRotate");
            lemma_digits_none("PanRotate"@);
        },
        FixtureChannel3Attribute::TiltRotate => {
            reveal_strlit("Tilt Rotate");
            lemma_digits_none("Tilt Rotate"@);
            reveal_strlit("TiltRotate");
            lemma_digits_none("TiltRotate"@);
        },
        FixtureChannel3Attribute::PositionEffect => {
            reveal_strlit("Position Effect");
            lemma_digits_none("Position Effect"@);
            reveal_strlit("PositionEffect");
            lemma_digits_none("PositionEffect"@);
        },
        FixtureChannel3Attribute::PositionEffectRate => {
            reveal_strlit("Position Effect Rate");
            lemma_digits_none("Position Effect Rate"@);
            reveal_strlit("PositionEffectRate");
            lemma_digits_none("PositionEffectRate"@);
        },
        FixtureChannel3Attribute::PositionEffectFade => {
            reveal_strlit("Position Effect Fade");
            lemma_digits_none("Position Effect Fade"@);
            reveal_strlit("PositionEffectFade");
            lemma_digits_none("PositionEffectFade"@);
        },
        FixtureChannel3Attribute::XyzX => {
            reveal_strlit("X");
            lemma_digits_none("X"@);
            reveal_strlit("XYZ_X");
            lemma_digits_none("XYZ_X"@);
        },
        FixtureChannel3Attribute::XyzY => {
            reveal_strlit("XYZ_Y");
            lemma_digits_none("XYZ_Y"@);
            reveal_strlit("Y");
            lemma_digits_none("Y"@);
        },
        FixtureChannel3Attribute::XyzZ => {
            reveal_strlit("XYZ_Z");
            lemma_digits_none("XYZ_Z"@);
            reveal_strlit("Z");
            lemma_digits_none("Z"@);
        },
        FixtureChannel3Attribute::RotX => {
            reveal_strlit("Rot_X");
            lemma_digits_none("Rot_X"@);
            reveal_strlit("Rotation X");
            lemma_digits_none("Rotation X"@);
        },
        FixtureChannel3Attribute::RotY => {
            reveal_strlit("Rot_Y");
            lemma_digits_none("Rot_Y"@);
            reveal_strlit("Rotation Y");
            lemma_digits_none("Rotation Y"@);
        },
        FixtureChannel3Attribute::RotZ => {
            reveal_strlit("Rot_Z");
            lemma_digits_none("Rot_Z"@);
            reveal_strlit("Rotation Z");
            lemma_digits_none("Rotation Z"@);
        },
        FixtureChannel3Attribute::ScaleX => {
            reveal_strlit("Scale X");
            lemma_digits_none("Scale X"@);
            reveal_strlit("Scale_X");
            lemma_digits_none("Scale_X"@);
        },
        FixtureChannel3Attribute::ScaleY => {
            reveal_strlit("Scale Y");
            lemma_digits_none("Scale Y"@);
            reveal_strlit("Scale_Y");
            lemma_digits_none("Scale_Y"@);
        },
        FixtureChannel3Attribute::ScaleZ => {
            reveal_strlit("Scale Z");
            lemma_digits_none("Scale Z"@);
            reveal_strlit("Scale_Z");
            lemma_digits_none("Scale_Z"@);
        },
        FixtureChannel3Attribute::ScaleXYZ => {
            reveal_strlit("Scale XYZ");
            lemma_digits_none("Scale XYZ"@);
            reveal_strlit("Scale_XYZ");
            lemma_digits_none("Scale_XYZ"@);
        },
        FixtureChannel3Attribute::PlayMode => {
            reveal_strlit("Play Mode");
            lemma_digits_none("Play Mode"@);
            reveal_strlit("PlayMode");
            lemma_digits_none("PlayMode"@);
        },
        FixtureChannel3Attribute::PlayBegin => {
            reveal_strlit("Play Begin");
            lemma_digits_none("Play Begin"@);
            reveal_strlit("PlayBegin");
            lemma_digits_none("PlayBegin"@);
        },
        FixtureChannel3Attribute::PlayEnd => {
            reveal_strlit("Play End");
            lemma_digits_none("Play End"@);
            reveal_strlit("PlayEnd");
            lemma_digits_none("PlayEnd"@);
        },
        FixtureChannel3Attribute::PlaySpeed => {
            reveal_strlit("Play Speed");
            lemma_digits_none("Play Speed"@);
            reveal_strlit("PlaySpeed");
            lemma_digits_none("PlaySpeed"@);
        },
        FixtureChannel3Attribute::ColorAddR => {
            reveal_strlit("ColorAdd_R");
            lemma_digits_none("ColorAdd_R"@);
            reveal_strlit("Red");
            lemma_digits_none("Red"@);
        },
        FixtureChannel3Attribute::ColorAddG => {
            reveal_strlit("ColorAdd_G");
            lemma_digits_none("ColorAdd_G"@);
            reveal_strlit("Green");
            lemma_digits_none("Green"@);
        },
        FixtureChannel3Attribute::ColorAddB => {
            reveal_strlit("Blue");
            lemma_digits_none("Blue"@);
            reveal_strlit("ColorAdd_B");
            lemma_digits_none("ColorAdd_B"@);
        },
        FixtureChannel3Attribute::ColorAddC => {
            reveal_strlit("ColorAdd_C");
            lemma_digits_none("ColorAdd_C"@);
            reveal_strlit("Cyan");
            lemma_digits_none("Cyan"@);
        },
        FixtureChannel3Attribute::ColorAddM => {
            reveal_strlit("ColorAdd_M");
            lemma_digits_none("ColorAdd_M"@);
            reveal_strlit("Magenta");
            lemma_digits_none("Magenta"@);
        },
        FixtureChannel3Attribute::ColorAddY => {
            reveal_strlit("ColorAdd_Y");
            lemma_digits_none("ColorAdd_Y"@);
            reveal_strlit("Yellow");
            lemma_digits_none("Yellow"@);
        },
        FixtureChannel3Attribute::ColorAddRY => {
            reveal_strlit("ColorAdd_RY");
            lemma_digits_none("ColorAdd_RY"@);
            reveal_strlit("Red-Yellow");
            lemma_digits_none("Red-Yellow"@);
        },
        FixtureChannel3Attribute::ColorAddGY => {
            reveal_strlit("ColorAdd_GY");
            lemma_digits_none("ColorAdd_GY"@);
            reveal_strlit("Green-Yellow");
            lemma_digits_none("Green-Yellow"@);
        },
        FixtureChannel3Attribute::ColorAddGC => {
            reveal_strlit("ColorAdd_GC");
            lemma_digits_none("ColorAdd_GC"@);
            reveal_strlit("Green-Cyan");
            lemma_digits_none("Green-Cyan"@);
        },
        FixtureChannel3Attribute::ColorAddBC => {
            reveal_strlit("Blue-Cyan");
            lemma_digits_none("Blue-Cyan"@);
            reveal_strlit("ColorAdd_BC");
            lemma_digits_none("ColorAdd_BC"@);
        },
        FixtureChannel3Attribute::ColorAddBM => {
            reveal_strlit("Blue-Magenta");
            lemma_digits_none("Blue-Magenta"@);
            reveal_strlit("ColorAdd_BM");
            lemma_digits_none("ColorAdd_BM"@);
        },
        FixtureChannel3Attribute::ColorAddRM => {
            reveal_strlit("ColorAdd_RM");
            lemma_digits_none("ColorAdd_RM"@);
            reveal_strlit("Red-Magenta");
            lemma_digits_none("Red-Magenta"@);
        },
        FixtureChannel3Attribute::ColorAddW => {
            reveal_strlit("ColorAdd_W");
            lemma_digits_none("ColorAdd_W"@);
            reveal_strlit("White");
            lemma_digits_none("White"@);
        },
        FixtureChannel3Attribute::ColorAddWW => {
            reveal_strlit("ColorAdd_WW");
            lemma_digits_none("ColorAdd_WW"@);
            reveal_strlit("Warm White");
            lemma_digits_none("Warm White"@);
        },
        FixtureChannel3Attribute::ColorAddCW => {
            reveal_strlit("ColorAdd_CW");
            lemma_digits_none("ColorAdd_CW"@);
            reveal_strlit("Cool White");
            lemma_digits_none("Cool White"@);
        },
        FixtureChannel3Attribute::ColorAddUV => {
            reveal_strlit("ColorAdd_UV");
            lemma_digits_none("ColorAdd_UV"@);
            reveal_strlit("UV");
            lemma_digits_none("UV"@);
        },
        FixtureChannel3Attribute::ColorSubR => {
            reveal_strlit("ColorSub_R");
            lemma_digits_none("ColorSub_R"@);
            reveal_strlit("Red-");
            lemma_digits_none("Red-"@);
        },
        FixtureChannel3Attribute::ColorSubG => {
            reveal_strlit("ColorSub_G");
            lemma_digits_none("ColorSub_G"@);
            reveal_strlit("Green-");
            lemma_digits_none("Green-"@);
        },
        FixtureChannel3Attribute::ColorSubB => {
            reveal_strlit("Blue-");
            lemma_digits_none("Blue-"@);
            reveal_strlit("ColorSub_B");
            lemma_digits_none("ColorSub_B"@);
        },
        FixtureChannel3Attribute::ColorSubC => {
            reveal_strlit("ColorSub_C");
            lemma_digits_none("ColorSub_C"@);
            reveal_strlit("Cyan-");
            lemma_digits_none("Cyan-"@);
        },
        FixtureChannel3Attribute::ColorSubM => {
            reveal_strlit("ColorSub_M");
            lemma_digits_none("ColorSub_M"@);
            reveal_strlit("Magenta-");
            lemma_digits_none("Magenta-"@);
        },
        FixtureChannel3Attribute::ColorSubY => {
            reveal_strlit("ColorSub_Y");
            lemma_digits_none("ColorSub_Y"@);
            reveal_strlit("Yellow-");
            lemma_digits_none("Yellow-"@);
        },
        FixtureChannel3Attribute::Cto => {
            reveal_strlit("CTO");
            lemma_digits_none("CTO"@);
        },
        FixtureChannel3Attribute::Ctc => {
            reveal_strlit("CTC");
            lemma_digits_none("CTC"@);
        },
        _ => {},
    }
}

/// The pretty and written names of part 1 of the unnumbered attributes
/// hold no digits.
#[verifier::rlimit(100)]
proof fn lemma_digits_units_1(a: FixtureChannel3Attribute)
    requires
        a is Ctb || a is Tint || a is HsbHue || a is HsbSaturation || a is HsbBrightness || a is HsbQuality || a is CieX || a is CieY || a is CieBrightness || a is ColorRgbRed || a is ColorRgbGreen || a is ColorRgbBlue || a is ColorRgbCyan || a is ColorRgbMagenta || a is ColorRgbYellow || a is ColorRgbQuality || a is VideoBoostR || a is VideoBoostG || a is VideoBoostB || a is VideoHueShift || a is VideoSaturation || a is VideoBrightness || a is VideoContrast || a is VideoKeyColorR || a is VideoKeyColorG || a is VideoKeyColorB || a is VideoKeyIntensity || a is VideoKeyTolerance || a is StrobeDuration || a is StrobeRate || a is StrobeFrequency || a is StrobeModeShutter || a is StrobeModeStrobe || a is StrobeModePulse || a is StrobeModePulseOpen || a is StrobeModePulseClose || a is StrobeModeRandom || a is StrobeModeRandomPulse || a is StrobeModeRandomPulseOpen || a is StrobeModeRandomPulseClose || a is StrobeModeEffect || a is Iris || a is IrisStrobe || a is IrisStrobeRandom || a is IrisPulseClose || a is IrisPulseOpen,
    ensures
        digits_of(attribute_pretty(a)) == Seq::<char>::empty(),
        digits_of(attribute_text(a)) == Seq::<char>::empty(),
{
    match a {
        FixtureChannel3Attribute::Ctb => {
            reveal_strlit("CTB");
            lemma_digits_none("CTB"@);
        },
        FixtureChannel3Attribute::Tint => {
            reveal_strlit("Tint");
            lemma_digits_none("Tint"@);
        },
        FixtureChannel3Attribute::HsbHue => {
            reveal_strlit("HSB Hue");
            lemma_digits_none("HSB Hue"@);
            reveal_strlit("HSB_Hue");
            lemma_digits_none("HSB_Hue"@);
        },
        FixtureChannel3Attribute::HsbSaturation => {
            reveal_strlit("HSB Saturation");
            lemma_digits_none("HSB Saturation"@);
            reveal_strlit("HSB_Saturation");
            lemma_digits_none("HSB_Saturation"@);
        },
        FixtureChannel3Attribute::HsbBrightness => {
            reveal_strlit("HSB Brightness");
            lemma_digits_none("HSB Brightness"@);
            reveal_strlit("HSB_Brightness");
            lemma_digits_none("HSB_Brightness"@);
        },
        FixtureChannel3Attribute::HsbQuality => {
            reveal_strlit("HSB Quality");
            lemma_digits_none("HSB Quality"@);
            reveal_strlit("HSB_Quality");
            lemma_digits_none("HSB_Quality"@);
        },
        FixtureChannel3Attribute::CieX => {
            reveal_strlit("CIE X");
            lemma_digits_none("CIE X"@);
            reveal_strlit("CIE_X");
            lemma_digits_none("CIE_X"@);
        },
        FixtureChannel3Attribute::CieY => {
            reveal_strlit("CIE Y");
            lemma_digits_none("CIE Y"@);
            reveal_strlit("CIE_Y");
            lemma_digits_none("CIE_Y"@);
        },
        FixtureChannel3Attribute::CieBrightness => {
            reveal_strlit("CIE Brightness");
            lemma_digits_none("CIE Brightness"@);
            reveal_strlit("CIE_Brightness");
            lemma_digits_none("CIE_Brightness"@);
        },
        FixtureChannel3Attribute::ColorRgbRed => {
            reveal_strlit("ColorRGB_Red");
            lemma_digits_none("ColorRGB_Red"@);
            reveal_strlit("RGB Red");
            lemma_digits_none("RGB Red"@);
        },
        FixtureChannel3Attribute::ColorRgbGreen => {
            reveal_strlit("ColorRGB_Green");
            lemma_digits_none("ColorRGB_Green"@);
            reveal_strlit("RGB Green");
            lemma_digits_none("RGB Green"@);
        },
        FixtureChannel3Attribute::ColorRgbBlue => {
            reveal_strlit("ColorRGB_Blue");
            lemma_digits_none("ColorRGB_Blue"@);
            reveal_strlit("RGB Blue");
            lemma_digits_none("RGB Blue"@);
        },
        FixtureChannel3Attribute::ColorRgbCyan => {
            reveal_strlit("ColorRGB_Cyan");
            lemma_digits_none("ColorRGB_Cyan"@);
            reveal_strlit("RGB Cyan");
            lemma_digits_none("RGB Cyan"@);
        },
        FixtureChannel3Attribute::ColorRgbMagenta => {
            reveal_strlit("ColorRGB_Magenta");
            lemma_digits_none("ColorRGB_Magenta"@);
            reveal_strlit("RGB Magenta");
            lemma_digits_none("RGB Magenta"@);
        },
        FixtureChannel3Attribute::ColorRgbYellow => {
            reveal_strlit("ColorRGB_Yellow");
            lemma_digits_none("ColorRGB_Yellow"@);
            reveal_strlit("RGB Yellow");
            lemma_digits_none("RGB Yellow"@);
        },
        FixtureChannel3Attribute::ColorRgbQuality => {
            reveal_strlit("ColorRGB_Quality");
            lemma_digits_none("ColorRGB_Quality"@);
            reveal_strlit("RGB Quality");
            lemma_digits_none("RGB Quality"@);
        },
        FixtureChannel3Attribute::VideoBoostR => {
            reveal_strlit("Video Boost Red");
            lemma_digits_none("Video Boost Red"@);
            reveal_strlit("VideoBoost_R");
            lemma_digits_none("VideoBoost_R"@);
        },
        FixtureChannel3Attribute::VideoBoostG => {
            reveal_strlit("Video Boost Green");
            lemma_digits_none("Video Boost Green"@);
            reveal_strlit("VideoBoost_G");
            lemma_digits_none("VideoBoost_G"@);
        },
        FixtureChannel3Attribute::VideoBoostB => {
            reveal_strlit("Video Boost Blue");
            lemma_digits_none("Video Boost Blue"@);
            reveal_strlit("VideoBoost_B");
            lemma_digits_none("VideoBoost_B"@);
        },
        FixtureChannel3Attribute::VideoHueShift => {
            reveal_strlit("Video Hue Shift");
            lemma_digits_none("Video Hue Shift"@);
            reveal_strlit("VideoHueShift");
            lemma_digits_none("VideoHueShift"@);
        },
        FixtureChannel3Attribute::VideoSaturation => {
            reveal_strlit("Video Saturation");
            lemma_digits_none("Video Saturation"@);
            reveal_strlit("VideoSaturation");
            lemma_digits_none("VideoSaturation"@);
        },
        FixtureChannel3Attribute::VideoBrightness => {
            reveal_strlit("Video Brightness");
            lemma_digits_none("Video Brightness"@);
            reveal_strlit("VideoBrightness");
            lemma_digits_none("VideoBrightness"@);
        },
        FixtureChannel3Attribute::VideoContrast => {
            reveal_strlit("Video Contrast");
            lemma_digits_none("Video Contrast"@);
            reveal_strlit("VideoContrast");
            lemma_digits_none("VideoContrast"@);
        },
        FixtureChannel3Attribute::VideoKeyColorR => {
            reveal_strlit("Video Key Color Red");
            lemma_digits_none("Video Key Color Red"@);
            reveal_strlit("VideoKeyColor_R");
            lemma_digits_none("VideoKeyColor_R"@);
        },
        FixtureChannel3Attribute::VideoKeyColorG => {
            reveal_strlit("Video Key Color Green");
            lemma_digits_none("Video Key Color Green"@);
            reveal_strlit("VideoKeyColor_G");
            lemma_digits_none("VideoKeyColor_G"@);
        },
        FixtureChannel3Attribute::VideoKeyColorB => {
            reveal_strlit("Video Key Color Blue");
            lemma_digits_none("Video Key Color Blue"@);
            reveal_strlit("VideoKeyColor_B");
            lemma_digits_none("VideoKeyColor_B"@);
        },
        FixtureChannel3Attribute::VideoKeyIntensity => {
            reveal_strlit("Video Key Intensity");
            lemma_digits_none("Video Key Intensity"@);
            reveal_strlit("VideoKeyIntensity");
            lemma_digits_none("VideoKeyIntensity"@);
        },
        FixtureChannel3Attribute::VideoKeyTolerance => {
            reveal_strlit("Video Key Tolerance");
            lemma_digits_none("Video Key Tolerance"@);
            reveal_strlit("VideoKeyTolerance");
            lemma_digits_none("VideoKeyTolerance"@);
        },
        FixtureChannel3Attribute::StrobeDuration => {
            reveal_strlit("Strobe Duration");
            lemma_digits_none("Strobe Duration"@);
            reveal_strlit("StrobeDuration");
            lemma_digits_none("StrobeDuration"@);
        },
        FixtureChannel3Attribute::StrobeRate => {
            reveal_strlit("Strobe Rate");
            lemma_digits_none("Strobe Rate"@);
            reveal_strlit("StrobeRate");
            lemma_digits_none("StrobeRate"@);
        },
        FixtureChannel3Attribute::StrobeFrequency => {
            reveal_strlit("Strobe Frequency");
            lemma_digits_none("Strobe Frequency"@);
            reveal_strlit("StrobeFrequency");
            lemma_digits_none("StrobeFrequency"@);
        },
        FixtureChannel3Attribute::StrobeModeShutter => {
            reveal_strlit("Strobe Mode Shutter");
            lemma_digits_none("Strobe Mode Shutter"@);
            reveal_strlit("StrobeModeShutter");
            lemma_digits_none("StrobeModeShutter"@);
        },
        FixtureChannel3Attribute::StrobeModeStrobe => {
            reveal_strlit("Strobe Mode Strobe");
            lemma_digits_none("Strobe Mode Strobe"@);
            reveal_strlit("StrobeModeStrobe");
            lemma_digits_none("StrobeModeStrobe"@);
        },
        FixtureChannel3Attribute::StrobeModePulse => {
            reveal_strlit("Strobe Mode Pulse");
            lemma_digits_none("Strobe Mode Pulse"@);
            reveal_strlit("StrobeModePulse");
            lemma_digits_none("StrobeModePulse"@);
        },
        FixtureChannel3Attribute::StrobeModePulseOpen => {
            reveal_strlit("Strobe Mode Pulse Open");
            lemma_digits_none("Strobe Mode Pulse Open"@);
            reveal_strlit("StrobeModePulseOpen");
            lemma_digits_none("StrobeModePulseOpen"@);
        },
        FixtureChannel3Attribute::StrobeModePulseClose => {
            reveal_strlit("Strobe Mode Pulse Close");
            lemma_digits_none("Strobe Mode Pulse Close"@);
            reveal_strlit("StrobeModePulseClose");
            lemma_digits_none("StrobeModePulseClose"@);
        },
        FixtureChannel3Attribute::StrobeModeRandom => {
            reveal_strlit("Strobe Mode Random");
            lemma_digits_none("Strobe Mode Random"@);
            reveal_strlit("StrobeModeRandom");
            lemma_digits_none("StrobeModeRandom"@);
        },
        FixtureChannel3Attribute::StrobeModeRandomPulse => {
            reveal_strlit("Strobe Mode Random Pulse");
            lemma_digits_none("Strobe Mode Random Pulse"@);
            reveal_strlit("StrobeModeRandomPulse");
            lemma_digits_none("StrobeModeRandomPulse"@);
        },
        FixtureChannel3Attribute::StrobeModeRandomPulseOpen => {
            reveal_strlit("Strobe Mode Random Pulse Open");
            lemma_digits_none("Strobe Mode Random Pulse Open"@);
            reveal_strlit("StrobeModeRandomPulseOpen");
            lemma_digits_none("StrobeModeRandomPulseOpen"@);
        },
        FixtureChannel3Attribute::StrobeModeRandomPulseClose => {
            reveal_strlit("Strobe Mode Random Pulse Close");
            lemma_digits_none("Strobe Mode Random Pulse Close"@);
            reveal_strlit("StrobeModeRandomPulseClose");
            lemma_digits_none("StrobeModeRandomPulseClose"@);
        },
        FixtureChannel3Attribute::StrobeModeEffect => {
            reveal_strlit("Strobe Mode Effect");
            lemma_digits_none("Strobe Mode Effect"@);
            reveal_strlit("StrobeModeEffect");
            lemma_digits_none("StrobeModeEffect"@);
        },
        FixtureChannel3Attribute::Iris => {
            reveal_strlit("Iris");
            lemma_digits_none("Iris"@);
        },
        FixtureChannel3Attribute::IrisStrobe => {
            reveal_strlit("Iris Strobe");
            lemma_digits_none("Iris Strobe"@);
            reveal_strlit("IrisStrobe");
            lemma_digits_none("IrisStrobe"@);
        },
        FixtureChannel3Attribute::IrisStrobeRandom => {
            reveal_strlit("Iris Strobe Random");
            lemma_digits_none("Iris Strobe Random"@);
            reveal_strlit("IrisStrobeRandom");
            lemma_digits_none("IrisStrobeRandom"@);
        },
        FixtureChannel3Attribute::IrisPulseClose => {
            reveal_strlit("Iris Pulse Close");
            lemma_digits_none("Iris Pulse Close"@);
            reveal_strlit("IrisPulseClose");
            lemma_digits_none("IrisPulseClose"@);
        },
        FixtureChannel3Attribute::IrisPulseOpen => {
            reveal_strlit("Iris Pulse Open");
            lemma_digits_none("Iris Pulse Open"@);
            reveal_strlit("IrisPulseOpen");
            lemma_digits_none("IrisPulseOpen"@);
        },
        _ => {},
    }
}

/// The pretty and written names of part 2 of the unnumbered attributes
/// hold no digits.
#[verifier::rlimit(100)]
proof fn lemma_digits_units_2(a: FixtureChannel3Attribute)
    requires
        a is IrisRandomPulseClose || a is IrisRandomPulseOpen || a is EffectsSync || a is BeamShaper || a is BeamShaperMacro || a is BeamShaperPos || a is BeamShaperPosRotate || a is Zoom || a is ZoomModeSpot || a is ZoomModeBeam || a is DigitalZoom || a is DimmerMode || a is DimmerCurve || a is BlackoutMode || a is LedFrequency || a is LedZoneMode || a is PixelMode || a is PanMode || a is TiltMode || a is PanTiltMode || a is PositionModes || a is GoboWheelShortcutMode || a is AnimationWheelShortcutMode || a is ColorWheelShortcutMode || a is CyanMode || a is MagentaMode || a is YellowMode || a is ColorMixMode || a is ChromaticMode || a is ColorCalibrationMode || a is ColorConsistency || a is ColorControl || a is ColorModelMode || a is ColorSettingsReset || a is ColorUniformity || a is CriMode || a is CustomColor || a is UvStability || a is WavelengthCorrection || a is WhiteCount || a is StrobeMode || a is ZoomMode || a is FocusMode || a is IrisMode || a is FollowSpotMode || a is BeamEffectIndexRotateMode,
    ensures
        digits_of(attribute_pretty(a)) == Seq::<char>::empty(),
        digits_of(attribute_text(a)) == Seq::<char>::empty(),
{
    match a {
        FixtureChannel3Attribute::IrisRandomPulseClose => {
            reveal_strlit("Iris Random Pulse Close");
            lemma_digits_none("Iris Random Pulse Close"@);
            reveal_strlit("IrisRandomPulseClose");
            lemma_digits_none("IrisRandomPulseClose"@);
        },
        FixtureChannel3Attribute::IrisRandomPulseOpen => {
            reveal_strlit("Iris Random Pulse Open");
            lemma_digits_none("Iris Random Pulse Open"@);
            reveal_strlit("IrisRandomPulseOpen");
            lemma_digits_none("IrisRandomPulseOpen"@);
        },
        FixtureChannel3Attribute::EffectsSync => {
            reveal_strlit("Effects Sync");
            lemma_digits_none("Effects Sync"@);
            reveal_strlit("EffectsSync");
            lemma_digits_none("EffectsSync"@);
        },
        FixtureChannel3Attribute::BeamShaper => {
            reveal_strlit("Beam Shaper");
            lemma_digits_none("Beam Shaper"@);
            reveal_strlit("BeamShaper");
            lemma_digits_none("BeamShaper"@);
        },
        FixtureChannel3Attribute::BeamShaperMacro => {
            reveal_strlit("Beam Shaper Macro");
            lemma_digits_none("Beam Shaper Macro"@);
            reveal_strlit("BeamShaperMacro");
            lemma_digits_none("BeamShaperMacro"@);
        },
        FixtureChannel3Attribute::BeamShaperPos => {
            reveal_strlit("Beam Shaper Position");
            lemma_digits_none("Beam Shaper Position"@);
            reveal_strlit("BeamShaperPos");
            lemma_digits_none("BeamShaperPos"@);
        },
        FixtureChannel3Attribute::BeamShaperPosRotate => {
            reveal_strlit("Beam Shaper Position Rotate");
            lemma_digits_none("Beam Shaper Position Rotate"@);
            reveal_strlit("BeamShaperPosRotate");
            lemma_digits_none("BeamShaperPosRotate"@);
        },
        FixtureChannel3Attribute::Zoom => {
            reveal_strlit("Zoom");
            lemma_digits_none("Zoom"@);
        },
        FixtureChannel3Attribute::ZoomModeSpot => {
            reveal_strlit("Zoom Mode Spot");
            lemma_digits_none("Zoom Mode Spot"@);
            reveal_strlit("ZoomModeSpot");
            lemma_digits_none("ZoomModeSpot"@);
        },
        FixtureChannel3Attribute::ZoomModeBeam => {
            reveal_strlit("Zoom Mode Beam");
            lemma_digits_none("Zoom Mode Beam"@);
            reveal_strlit("ZoomModeBeam");
            lemma_digits_none("ZoomModeBeam"@);
        },
        FixtureChannel3Attribute::DigitalZoom => {
            reveal_strlit("Digital Zoom");
            lemma_digits_none("Digital Zoom"@);
            reveal_strlit("DigitalZoom");
            lemma_digits_none("DigitalZoom"@);
        },
        FixtureChannel3Attribute::DimmerMode => {
            reveal_strlit("Dimmer Mode");
            lemma_digits_none("Dimmer Mode"@);
            reveal_strlit("DimmerMode");
            lemma_digits_none("DimmerMode"@);
        },
        FixtureChannel3Attribute::DimmerCurve => {
            reveal_strlit("Dimmer Curve");
            lemma_digits_none("Dimmer Curve"@);
            reveal_strlit("DimmerCurve");
            lemma_digits_none("DimmerCurve"@);
        },
        FixtureChannel3Attribute::BlackoutMode => {
            reveal_strlit("Blackout Mode");
            lemma_digits_none("Blackout Mode"@);
            reveal_strlit("BlackoutMode");
            lemma_digits_none("BlackoutMode"@);
        },
        FixtureChannel3Attribute::LedFrequency => {
            reveal_strlit("LED Frequency");
            lemma_digits_none("LED Frequency"@);
            reveal_strlit("LedFrequency");
            lemma_digits_none("LedFrequency"@);
        },
        FixtureChannel3Attribute::LedZoneMode => {
            reveal_strlit("LED Zone Mode");
            lemma_digits_none("LED Zone Mode"@);
            reveal_strlit("LedZoneMode");
            lemma_digits_none("LedZoneMode"@);
        },
        FixtureChannel3Attribute::PixelMode => {
            reveal_strlit("Pixel Mode");
            lemma_digits_none("Pixel Mode"@);
            reveal_strlit("PixelMode");
            lemma_digits_none("PixelMode"@);
        },
        FixtureChannel3Attribute::PanMode => {
            reveal_strlit("Pan Mode");
            lemma_digits_none("Pan Mode"@);
            reveal_strlit("PanMode");
            lemma_digits_none("PanMode"@);
        },
        FixtureChannel3Attribute::TiltMode => {
            reveal_strlit("Tilt Mode");
            lemma_digits_none("Tilt Mode"@);
            reveal_strlit("TiltMode");
            lemma_digits_none("TiltMode"@);
        },
        FixtureChannel3Attribute::PanTiltMode => {
            reveal_strlit("Pan Tilt Mode");
            lemma_digits_none("Pan Tilt Mode"@);
            reveal_strlit("PanTiltMode");
            lemma_digits_none("PanTiltMode"@);
        },
        FixtureChannel3Attribute::PositionModes => {
            reveal_strlit("Position Modes");
            lemma_digits_none("Position Modes"@);
            reveal_strlit("PositionModes");
            lemma_digits_none("PositionModes"@);
        },
        FixtureChannel3Attribute::GoboWheelShortcutMode => {
            reveal_strlit("Gobo Wheel Shortcut Mode");
            lemma_digits_none("Gobo Wheel Shortcut Mode"@);
            reveal_strlit("GoboWheelShortcutMode");
            lemma_digits_none("GoboWheelShortcutMode"@);
        },
        FixtureChannel3Attribute::AnimationWheelShortcutMode => {
            reveal_strlit("Animation Wheel Shortcut Mode");
            lemma_digits_none("Animation Wheel Shortcut Mode"@);
            reveal_strlit("AnimationWheelShortcutMode");
            lemma_digits_none("AnimationWheelShortcutMode"@);
        },
        FixtureChannel3Attribute::ColorWheelShortcutMode => {
            reveal_strlit("Color Wheel Shortcut Mode");
            lemma_digits_none("Color Wheel Shortcut Mode"@);
            reveal_strlit("ColorWheelShortcutMode");
            lemma_digits_none("ColorWheelShortcutMode"@);
        },
        FixtureChannel3Attribute::CyanMode => {
            reveal_strlit("Cyan Mode");
            lemma_digits_none("Cyan Mode"@);
            reveal_strlit("CyanMode");
            lemma_digits_none("CyanMode"@);
        },
        FixtureChannel3Attribute::MagentaMode => {
            reveal_strlit("Magenta Mode");
            lemma_digits_none("Magenta Mode"@);
            reveal_strlit("MagentaMode");
            lemma_digits_none("MagentaMode"@);
        },
        FixtureChannel3Attribute::YellowMode => {
            reveal_strlit("Yellow Mode");
            lemma_digits_none("Yellow Mode"@);
            reveal_strlit("YellowMode");
            lemma_digits_none("YellowMode"@);
        },
        FixtureChannel3Attribute::ColorMixMode => {
            reveal_strlit("Color Mix Mode");
            lemma_digits_none("Color Mix Mode"@);
            reveal_strlit("ColorMixMode");
            lemma_digits_none("ColorMixMode"@);
        },
        FixtureChannel3Attribute::ChromaticMode => {
            reveal_strlit("Chromatic Mode");
            lemma_digits_none("Chromatic Mode"@);
            reveal_strlit("ChromaticMode");
            lemma_digits_none("ChromaticMode"@);
        },
        FixtureChannel3Attribute::ColorCalibrationMode => {
            reveal_strlit("Color Calibration Mode");
            lemma_digits_none("Color Calibration Mode"@);
            reveal_strlit("ColorCalibrationMode");
            lemma_digits_none("ColorCalibrationMode"@);
        },
        FixtureChannel3Attribute::ColorConsistency => {
            reveal_strlit("Color Consistency");
            lemma_digits_none("Color Consistency"@);
            reveal_strlit("ColorConsistency");
            lemma_digits_none("ColorConsistency"@);
        },
        FixtureChannel3Attribute::ColorControl => {
            reveal_strlit("Color Control");
            lemma_digits_none("Color Control"@);
            reveal_strlit("ColorControl");
            lemma_digits_none("ColorControl"@);
        },
        FixtureChannel3Attribute::ColorModelMode => {
            reveal_strlit("Color Model Mode");
            lemma_digits_none("Color Model Mode"@);
            reveal_strlit("ColorModelMode");
            lemma_digits_none("ColorModelMode"@);
        },
        FixtureChannel3Attribute::ColorSettingsReset => {
            reveal_strlit("Color Settings Reset");
            lemma_digits_none("Color Settings Reset"@);
            reveal_strlit("ColorSettingsReset");
            lemma_digits_none("ColorSettingsReset"@);
        },
        FixtureChannel3Attribute::ColorUniformity => {
            reveal_strlit("Color Uniformity");
            lemma_digits_none("Color Uniformity"@);
            reveal_strlit("ColorUniformity");
            lemma_digits_none("ColorUniformity"@);
        },
        FixtureChannel3Attribute::CriMode => {
            reveal_strlit("CRI Mode");
            lemma_digits_none("CRI Mode"@);
            reveal_strlit("CriMode");
            lemma_digits_none("CriMode"@);
        },
        FixtureChannel3Attribute::CustomColor => {
            reveal_strlit("Custom Color");
            lemma_digits_none("Custom Color"@);
            reveal_strlit("CustomColor");
            lemma_digits_none("CustomColor"@);
        },
        FixtureChannel3Attribute::UvStability => {
            reveal_strlit("UV Stability");
            lemma_digits_none("UV Stability"@);
            reveal_strlit("UvStability");
            lemma_digits_none("UvStability"@);
        },
        FixtureChannel3Attribute::WavelengthCorrection => {
            reveal_strlit("Wavelength Correction");
            lemma_digits_none("Wavelength Correction"@);
            reveal_strlit("WavelengthCorrection");
            lemma_digits_none("WavelengthCorrection"@);
        },
        FixtureChannel3Attribute::WhiteCount => {
            reveal_strlit("White Count");
            lemma_digits_none("White Count"@);
            reveal_strlit("WhiteCount");
            lemma_digits_none("WhiteCount"@);
        },
        FixtureChannel3Attribute::StrobeMode => {
            reveal_strlit("Strobe Mode");
            lemma_digits_none("Strobe Mode"@);
            reveal_strlit("StrobeMode");
            lemma_digits_none("StrobeMode"@);
        },
        FixtureChannel3Attribute::ZoomMode => {
            reveal_strlit("Zoom Mode");
            lemma_digits_none("Zoom Mode"@);
            reveal_strlit("ZoomMode");
            lemma_digits_none("ZoomMode"@);
        },
        FixtureChannel3Attribute::FocusMode => {
            reveal_strlit("Focus Mode");
            lemma_digits_none("Focus Mode"@);
            reveal_strlit("FocusMode");
            lemma_digits_none("FocusMode"@);
        },
        FixtureChannel3Attribute::IrisMode => {
            reveal_strlit("Iris Mode");
            lemma_digits_none("Iris Mode"@);
            reveal_strlit("IrisMode");
            lemma_digits_none("IrisMode"@);
        },
        FixtureChannel3Attribute::FollowSpotMode => {
            reveal_strlit("Follow Spot Mode");
            lemma_digits_none("Follow Spot Mode"@);
            reveal_strlit("FollowSpotMode");
            lemma_digits_none("FollowSpotMode"@);
        },
        FixtureChannel3Attribute::BeamEffectIndexRotateMode => {
            reveal_strlit("Beam Effect Index Rotate Mode");
            lemma_digits_none("Beam Effect Index Rotate Mode"@);
            reveal_strlit("BeamEffectIndexRotateMode");
            lemma_digits_none("BeamEffectIndexRotateMode"@);
        },
        _ => {},
    }
}

/// The pretty and written names of part 3 of the unnumbered attributes
/// hold no digits.
#[verifier::rlimit(100)]
proof fn lemma_digits_units_3(a: FixtureChannel3Attribute)
    requires
        a is IntensityMSpeed || a is PositionMSpeed || a is ColorMixMSpeed || a is ColorWheelSelectMSpeed || a is IrisMSpeed || a is FocusMSpeed || a is ZoomMSpeed || a is FrameMSpeed || a is GlobalMSpeed || a is ReflectorAdjust || a is FixtureGlobalReset || a is DimmerReset || a is ShutterReset || a is BeamReset || a is ColorMixReset || a is ColorWheelReset || a is FocusReset || a is FrameReset || a is GoboWheelReset || a is IntensityReset || a is IrisReset || a is PositionReset || a is PanReset || a is TiltReset || a is ZoomReset || a is CtbReset || a is CtoReset || a is CtcReset || a is AnimationSystemReset || a is FixtureCalibrationReset || a is Function || a is LampControl || a is DisplayIntensity || a is DmxInput || a is NoFeature || a is LampPowerMode || a is Fans || a is ShaperRot || a is ShaperMacros || a is ShaperMacrosSpeed || a is Video || a is VideoBlendMode || a is InputSource || a is FieldOfView,
    ensures
        digits_of(attribute_pretty(a)) == Seq::<char>::empty(),
        digits_of(attribute_text(a)) == Seq::<char>::empty(),
{
    match a {
        FixtureChannel3Attribute::IntensityMSpeed => {
            reveal_strlit("Intensity MSpeed");
            lemma_digits_none("Intensity MSpeed"@);
            reveal_strlit("IntensityMSpeed");
            lemma_digits_none("IntensityMSpeed"@);
        },
        FixtureChannel3Attribute::PositionMSpeed => {
            reveal_strlit("Position MSpeed");
            lemma_digits_none("Position MSpeed"@);
            reveal_strlit("PositionMSpeed");
            lemma_digits_none("PositionMSpeed"@);
        },
        FixtureChannel3Attribute::ColorMixMSpeed => {
            reveal_strlit("Color Mix MSpeed");
            lemma_digits_none("Color Mix MSpeed"@);
            reveal_strlit("ColorMixMSpeed");
            lemma_digits_none("ColorMixMSpeed"@);
        },
        FixtureChannel3Attribute::ColorWheelSelectMSpeed => {
            reveal_strlit("Color Wheel Select MSpeed");
            lemma_digits_none("Color Wheel Select MSpeed"@);
            reveal_strlit("ColorWheelSelectMSpeed");
            lemma_digits_none("ColorWheelSelectMSpeed"@);
        },
        FixtureChannel3Attribute::IrisMSpeed => {
            reveal_strlit("Iris MSpeed");
            lemma_digits_none("Iris MSpeed"@);
            reveal_strlit("IrisMSpeed");
            lemma_digits_none("IrisMSpeed"@);
        },
        FixtureChannel3Attribute::FocusMSpeed => {
            reveal_strlit("Focus MSpeed");
            lemma_digits_none("Focus MSpeed"@);
            reveal_strlit("FocusMSpeed");
            lemma_digits_none("FocusMSpeed"@);
        },
        FixtureChannel3Attribute::ZoomMSpeed => {
            reveal_strlit("Zoom MSpeed");
            lemma_digits_none("Zoom MSpeed"@);
            reveal_strlit("ZoomMSpeed");
            lemma_digits_none("ZoomMSpeed"@);
        },
        FixtureChannel3Attribute::FrameMSpeed => {
            reveal_strlit("Frame MSpeed");
            lemma_digits_none("Frame MSpeed"@);
            reveal_strlit("FrameMSpeed");
            lemma_digits_none("FrameMSpeed"@);
        },
        FixtureChannel3Attribute::GlobalMSpeed => {
            reveal_strlit("Global MSpeed");
            lemma_digits_none("Global MSpeed"@);
            reveal_strlit("GlobalMSpeed");
            lemma_digits_none("GlobalMSpeed"@);
        },
        FixtureChannel3Attribute::ReflectorAdjust => {
            reveal_strlit("Reflector Adjust");
            lemma_digits_none("Reflector Adjust"@);
            reveal_strlit("ReflectorAdjust");
            lemma_digits_none("ReflectorAdjust"@);
        },
        FixtureChannel3Attribute::FixtureGlobalReset => {
            reveal_strlit("Fixture Global Reset");
            lemma_digits_none("Fixture Global Reset"@);
            reveal_strlit("FixtureGlobalReset");
            lemma_digits_none("FixtureGlobalReset"@);
        },
        FixtureChannel3Attribute::DimmerReset => {
            reveal_strlit("Dimmer Reset");
            lemma_digits_none("Dimmer Reset"@);
            reveal_strlit("DimmerReset");
            lemma_digits_none("DimmerReset"@);
        },
        FixtureChannel3Attribute::ShutterReset => {
            reveal_strlit("Shutter Reset");
            lemma_digits_none("Shutter Reset"@);
            reveal_strlit("ShutterReset");
            lemma_digits_none("ShutterReset"@);
        },
        FixtureChannel3Attribute::BeamReset => {
            reveal_strlit("Beam Reset");
            lemma_digits_none("Beam Reset"@);
            reveal_strlit("BeamReset");
            lemma_digits_none("BeamReset"@);
        },
        FixtureChannel3Attribute::ColorMixReset => {
            reveal_strlit("Color Mix Reset");
            lemma_digits_none("Color Mix Reset"@);
            reveal_strlit("ColorMixReset");
            lemma_digits_none("ColorMixReset"@);
        },
        FixtureChannel3Attribute::ColorWheelReset => {
            reveal_strlit("Color Wheel Reset");
            lemma_digits_none("Color Wheel Reset"@);
            reveal_strlit("ColorWheelReset");
            lemma_digits_none("ColorWheelReset"@);
        },
        FixtureChannel3Attribute::FocusReset => {
            reveal_strlit("Focus Reset");
            lemma_digits_none("Focus Reset"@);
            reveal_strlit("FocusReset");
            lemma_digits_none("FocusReset"@);
        },
        FixtureChannel3Attribute::FrameReset => {
            reveal_strlit("Frame Reset");
            lemma_digits_none("Frame Reset"@);
            reveal_strlit("FrameReset");
            lemma_digits_none("FrameReset"@);
        },
        FixtureChannel3Attribute::GoboWheelReset => {
            reveal_strlit("Gobo Wheel Reset");
            lemma_digits_none("Gobo Wheel Reset"@);
            reveal_strlit("GoboWheelReset");
            lemma_digits_none("GoboWheelReset"@);
        },
        FixtureChannel3Attribute::IntensityReset => {
            reveal_strlit("Intensity Reset");
            lemma_digits_none("Intensity Reset"@);
            reveal_strlit("IntensityReset");
            lemma_digits_none("IntensityReset"@);
        },
        FixtureChannel3Attribute::IrisReset => {
            reveal_strlit("Iris Reset");
            lemma_digits_none("Iris Reset"@);
            reveal_strlit("IrisReset");
            lemma_digits_none("IrisReset"@);
        },
        FixtureChannel3Attribute::PositionReset => {
            reveal_strlit("Position Reset");
            lemma_digits_none("Position Reset"@);
            reveal_strlit("PositionReset");
            lemma_digits_none("PositionReset"@);
        },
        FixtureChannel3Attribute::PanReset => {
            reveal_strlit("Pan Reset");
            lemma_digits_none("Pan Reset"@);
            reveal_strlit("PanReset");
            lemma_digits_none("PanReset"@);
        },
        FixtureChannel3Attribute::TiltReset => {
            reveal_strlit("Tilt Reset");
            lemma_digits_none("Tilt Reset"@);
            reveal_strlit("TiltReset");
            lemma_digits_none("TiltReset"@);
        },
        FixtureChannel3Attribute::ZoomReset => {
            reveal_strlit("Zoom Reset");
            lemma_digits_none("Zoom Reset"@);
            reveal_strlit("ZoomReset");
            lemma_digits_none("ZoomReset"@);
        },
        FixtureChannel3Attribute::CtbReset => {
            reveal_strlit("CTB Reset");
            lemma_digits_none("CTB Reset"@);
            reveal_strlit("CTBReset");
            lemma_digits_none("CTBReset"@);
        },
        FixtureChannel3Attribute::CtoReset => {
            reveal_strlit("CTO Reset");
            lemma_digits_none("CTO Reset"@);
            reveal_strlit("CTOReset");
            lemma_digits_none("CTOReset"@);
        },
        FixtureChannel3Attribute::CtcReset => {
            reveal_strlit("CTC Reset");
            lemma_digits_none("CTC Reset"@);
            reveal_strlit("CTCReset");
            lemma_digits_none("CTCReset"@);
        },
        FixtureChannel3Attribute::AnimationSystemReset => {
            reveal_strlit("Animation System Reset");
            lemma_digits_none("Animation System Reset"@);
            reveal_strlit("AnimationSystemReset");
            lemma_digits_none("AnimationSystemReset"@);
        },
        FixtureChannel3Attribute::FixtureCalibrationReset => {
            reveal_strlit("Fixture Calibration Reset");
            lemma_digits_none("Fixture Calibration Reset"@);
            reveal_strlit("FixtureCalibrationReset");
            lemma_digits_none("FixtureCalibrationReset"@);
        },
        FixtureChannel3Attribute::Function => {
            reveal_strlit("Function");
            lemma_digits_none("Function"@);
        },
        FixtureChannel3Attribute::LampControl => {
            reveal_strlit("Lamp Control");
            lemma_digits_none("Lamp Control"@);
            reveal_strlit("LampControl");
            lemma_digits_none("LampControl"@);
        },
        FixtureChannel3Attribute::DisplayIntensity => {
            reveal_strlit("Display Intensity");
            lemma_digits_none("Display Intensity"@);
            reveal_strlit("DisplayIntensity");
            lemma_digits_none("DisplayIntensity"@);
        },
        FixtureChannel3Attribute::DmxInput => {
            reveal_strlit("DMX Input");
            lemma_digits_none("DMX Input"@);
            reveal_strlit("DMXInput");
            lemma_digits_none("DMXInput"@);
        },
        FixtureChannel3Attribute::NoFeature => {
            reveal_strlit("No Feature");
            lemma_digits_none("No Feature"@);
            reveal_strlit("NoFeature");
            lemma_digits_none("NoFeature"@);
        },
        FixtureChannel3Attribute::LampPowerMode => {
            reveal_strlit("Lamp Power Mode");
            lemma_digits_none("Lamp Power Mode"@);
            reveal_strlit("LampPowerMode");
            lemma_digits_none("LampPowerMode"@);
        },
        FixtureChannel3Attribute::Fans => {
            reveal_strlit("Fans");
            lemma_digits_none("Fans"@);
        },
        FixtureChannel3Attribute::ShaperRot => {
            reveal_strlit("Shaper Rotation");
            lemma_digits_none("Shaper Rotation"@);
            reveal_strlit("ShaperRot");
            lemma_digits_none("ShaperRot"@);
        },
        FixtureChannel3Attribute::ShaperMacros => {
            reveal_strlit("Shaper Macros");
            lemma_digits_none("Shaper Macros"@);
            reveal_strlit("ShaperMacros");
            lemma_digits_none("ShaperMacros"@);
        },
        FixtureChannel3Attribute::ShaperMacrosSpeed => {
            reveal_strlit("Shaper Macros Speed");
            lemma_digits_none("Shaper Macros Speed"@);
            reveal_strlit("ShaperMacrosSpeed");
            lemma_digits_none("ShaperMacrosSpeed"@);
        },
        FixtureChannel3Attribute::Video => {
            reveal_strlit("Video");
            lemma_digits_none("Video"@);
        },
        FixtureChannel3Attribute::VideoBlendMode => {
            reveal_strlit("Video Blend Mode");
            lemma_digits_none("Video Blend Mode"@);
            reveal_strlit("VideoBlendMode");
            lemma_digits_none("VideoBlendMode"@);
        },
        FixtureChannel3Attribute::InputSource => {
            reveal_strlit("Input Source");
            lemma_digits_none("Input Source"@);
            reveal_strlit("InputSource");
            lemma_digits_none("InputSource"@);
        },
        FixtureChannel3Attribute::FieldOfView => {
            reveal_strlit("Field of View");
            lemma_digits_none("Field of View"@);
            reveal_strlit("FieldOfView");
            lemma_digits_none("FieldOfView"@);
        },
        _ => {},
    }
}

/// Law: the pretty name of an attribute shows the same digits, in the same
/// order, as its GDTF name: none for an attribute without a number, and
/// the attribute's numbers for a numbered one.
pub proof fn law_pretty_name_shows_the_numbers(a: FixtureChannel3Attribute)
    ensures
        digits_of(attribute_pretty(a)) == digits_of(attribute_text(a)),
{
    match a {
        FixtureChannel3Attribute::Gobo(n) => lemma_digits_gobo(n),
        FixtureChannel3Attribute::GoboSelectSpin(n) => lemma_digits_gobo_select_spin(n),
        FixtureChannel3Attribute::GoboSelectShake(n) => lemma_digits_gobo_select_shake(n),
        FixtureChannel3Attribute::GoboSelectEffects(n) => lemma_digits_gobo_select_effects(n),
        FixtureChannel3Attribute::GoboWheelIndex(n) => lemma_digits_gobo_wheel_index(n),
        FixtureChannel3Attribute::GoboWheelSpin(n) => lemma_digits_gobo_wheel_spin(n),
        FixtureChannel3Attribute::GoboWheelShake(n) => lemma_digits_gobo_wheel_shake(n),
        FixtureChannel3Attribute::GoboWheelRandom(n) => lemma_digits_gobo_wheel_random(n),
        FixtureChannel3Attribute::GoboWheelAudio(n) => lemma_digits_gobo_wheel_audio(n),
        FixtureChannel3Attribute::GoboPos(n) => lemma_digits_gobo_pos(n),
        FixtureChannel3Attribute::GoboPosRotate(n) => lemma_digits_gobo_pos_rotate(n),
        FixtureChannel3Attribute::GoboPosShake(n) => lemma_digits_gobo_pos_shake(n),
        FixtureChannel3Attribute::AnimationWheel(n) => lemma_digits_animation_wheel(n),
        FixtureChannel3Attribute::AnimationWheelAudio(n) => lemma_digits_animation_wheel_audio(n),
        FixtureChannel3Attribute::AnimationWheelMacro(n) => lemma_digits_animation_wheel_macro(n),
        FixtureChannel3Attribute::AnimationWheelRandom(n) => lemma_digits_animation_wheel_random(n),
        FixtureChannel3Attribute::AnimationWheelSelectEffects(n) => lemma_digits_animation_wheel_select_effects(n),
        FixtureChannel3Attribute::AnimationWheelSelectShake(n) => lemma_digits_animation_wheel_select_shake(n),
        FixtureChannel3Attribute::AnimationWheelSelectSpin(n) => lemma_digits_animation_wheel_select_spin(n),
        FixtureChannel3Attribute::AnimationWheelPos(n) => lemma_digits_animation_wheel_pos(n),
        FixtureChannel3Attribute::AnimationWheelPosRotate(n) => lemma_digits_animation_wheel_pos_rotate(n),
        FixtureChannel3Attribute::AnimationWheelPosShake(n) => lemma_digits_animation_wheel_pos_shake(n),
        FixtureChannel3Attribute::AnimationSystem(n) => lemma_digits_animation_system(n),
        FixtureChannel3Attribute::AnimationSystemRamp(n) => lemma_digits_animation_system_ramp(n),
        FixtureChannel3Attribute::AnimationSystemShake(n) => lemma_digits_animation_system_shake(n),
        FixtureChannel3Attribute::AnimationSystemAudio(n) => lemma_digits_animation_system_audio(n),
        FixtureChannel3Attribute::AnimationSystemRandom(n) => lemma_digits_animation_system_random(n),
        FixtureChannel3Attribute::AnimationSystemPos(n) => lemma_digits_animation_system_pos(n),
        FixtureChannel3Attribute::AnimationSystemPosRotate(n) => lemma_digits_animation_system_pos_rotate(n),
        FixtureChannel3Attribute::AnimationSystemPosShake(n) => lemma_digits_animation_system_pos_shake(n),
        FixtureChannel3Attribute::AnimationSystemPosRandom(n) => lemma_digits_animation_system_pos_random(n),
        FixtureChannel3Attribute::AnimationSystemPosAudio(n) => lemma_digits_animation_system_pos_audio(n),
        FixtureChannel3Attribute::AnimationSystemMacro(n) => lemma_digits_animation_system_macro(n),
        FixtureChannel3Attribute::MediaFolder(n) => lemma_digits_media_folder(n),
        FixtureChannel3Attribute::MediaContent(n) => lemma_digits_media_content(n),
        FixtureChannel3Attribute::ModelFolder(n) => lemma_digits_model_folder(n),
        FixtureChannel3Attribute::ModelContent(n) => lemma_digits_model_content(n),
        FixtureChannel3Attribute::ColorEffects(n) => lemma_digits_color_effects(n),
        FixtureChannel3Attribute::Color(n) => lemma_digits_color(n),
        FixtureChannel3Attribute::ColorWheelIndex(n) => lemma_digits_color_wheel_index(n),
        FixtureChannel3Attribute::ColorWheelSpin(n) => lemma_digits_color_wheel_spin(n),
        FixtureChannel3Attribute::ColorWheelRandom(n) => lemma_digits_color_wheel_random(n),
        FixtureChannel3Attribute::ColorWheelAudio(n) => lemma_digits_color_wheel_audio(n),
        FixtureChannel3Attribute::ColorMacro(n) => lemma_digits_color_macro(n),
        FixtureChannel3Attribute::ColorMacroRate(n) => lemma_digits_color_macro_rate(n),
        FixtureChannel3Attribute::Shutter(n) => lemma_digits_shutter(n),
        FixtureChannel3Attribute::ShutterStrobe(n) => lemma_digits_shutter_strobe(n),
        FixtureChannel3Attribute::ShutterStrobePulse(n) => lemma_digits_shutter_strobe_pulse(n),
        FixtureChannel3Attribute::ShutterStrobePulseClose(n) => lemma_digits_shutter_strobe_pulse_close(n),
        FixtureChannel3Attribute::ShutterStrobePulseOpen(n) => lemma_digits_shutter_strobe_pulse_open(n),
        FixtureChannel3Attribute::ShutterStrobeRandom(n) => lemma_digits_shutter_strobe_random(n),
        FixtureChannel3Attribute::ShutterStrobeRandomPulse(n) => lemma_digits_shutter_strobe_random_pulse(n),
        FixtureChannel3Attribute::ShutterStrobeRandomPulseClose(n) => lemma_digits_shutter_strobe_random_pulse_close(n),
        FixtureChannel3Attribute::ShutterStrobeRandomPulseOpen(n) => lemma_digits_shutter_strobe_random_pulse_open(n),
        FixtureChannel3Attribute::ShutterStrobeEffect(n) => lemma_digits_shutter_strobe_effect(n),
        FixtureChannel3Attribute::Frost(n) => lemma_digits_frost(n),
        FixtureChannel3Attribute::FrostPulseOpen(n) => lemma_digits_frost_pulse_open(n),
        FixtureChannel3Attribute::FrostPulseClose(n) => lemma_digits_frost_pulse_close(n),
        FixtureChannel3Attribute::FrostRamp(n) => lemma_digits_frost_ramp(n),
        FixtureChannel3Attribute::Prism(n) => lemma_digits_prism(n),
        FixtureChannel3Attribute::PrismSelectSpin(n) => lemma_digits_prism_select_spin(n),
        FixtureChannel3Attribute::PrismMacro(n) => lemma_digits_prism_macro(n),
        FixtureChannel3Attribute::PrismPos(n) => lemma_digits_prism_pos(n),
        FixtureChannel3Attribute::PrismPosRotate(n) => lemma_digits_prism_pos_rotate(n),
        FixtureChannel3Attribute::Effects(n) => lemma_digits_effects(n),
        FixtureChannel3Attribute::EffectsRate(n) => lemma_digits_effects_rate(n),
        FixtureChannel3Attribute::EffectsFade(n) => lemma_digits_effects_fade(n),
        FixtureChannel3Attribute::EffectsAdjust(n, m) => lemma_digits_effects_adjust(n, m),
        FixtureChannel3Attribute::EffectsPos(n) => lemma_digits_effects_pos(n),
        FixtureChannel3Attribute::EffectsPosRotate(n) => lemma_digits_effects_pos_rotate(n),
        FixtureChannel3Attribute::Focus(n) => lemma_digits_focus(n),
        FixtureChannel3Attribute::FocusAdjust(n) => lemma_digits_focus_adjust(n),
        FixtureChannel3Attribute::FocusDistance(n) => lemma_digits_focus_distance(n),
        FixtureChannel3Attribute::Control(n) => lemma_digits_control(n),
        FixtureChannel3Attribute::GoboWheelMode(n) => lemma_digits_gobo_wheel_mode(n),
        FixtureChannel3Attribute::AnimationWheelMode(n) => lemma_digits_animation_wheel_mode(n),
        FixtureChannel3Attribute::ColorMode(n) => lemma_digits_color_mode(n),
        FixtureChannel3Attribute::FanMode(n) => lemma_digits_fan_mode(n),
        FixtureChannel3Attribute::GoboWheelMSpeed(n) => lemma_digits_gobo_wheel_m_speed(n),
        FixtureChannel3Attribute::PrismMSpeed(n) => lemma_digits_prism_m_speed(n),
        FixtureChannel3Attribute::FrostMSpeed(n) => lemma_digits_frost_m_speed(n),
        FixtureChannel3Attribute::Blower(n) => lemma_digits_blower(n),
        FixtureChannel3Attribute::Fan(n) => lemma_digits_fan(n),
        FixtureChannel3Attribute::Fog(n) => lemma_digits_fog(n),
        FixtureChannel3Attribute::Haze(n) => lemma_digits_haze(n),
        FixtureChannel3Attribute::BladeA(n) => lemma_digits_blade_a(n),
        FixtureChannel3Attribute::BladeB(n) => lemma_digits_blade_b(n),
        FixtureChannel3Attribute::BladeRot(n) => lemma_digits_blade_rot(n),
        FixtureChannel3Attribute::BladeSoftA(n) => lemma_digits_blade_soft_a(n),
        FixtureChannel3Attribute::BladeSoftB(n) => lemma_digits_blade_soft_b(n),
        FixtureChannel3Attribute::KeyStoneA(n) => lemma_digits_key_stone_a(n),
        FixtureChannel3Attribute::KeyStoneB(n) => lemma_digits_key_stone_b(n),
        FixtureChannel3Attribute::VideoEffectType(n) => lemma_digits_video_effect_type(n),
        FixtureChannel3Attribute::VideoEffectParameter(n, m) => lemma_digits_video_effect_parameter(n, m),
        FixtureChannel3Attribute::VideoCamera(n) => lemma_digits_video_camera(n),
        FixtureChannel3Attribute::VideoSoundVolume(n) => lemma_digits_video_sound_volume(n),
        FixtureChannel3Attribute::Custom(_) => {},
        _ => {
            if a is Dimmer || a is Pan || a is Tilt || a is PanRotate || a is TiltRotate || a is PositionEffect || a is PositionEffectRate || a is PositionEffectFade || a is XyzX || a is XyzY || a is XyzZ || a is RotX || a is RotY || a is RotZ || a is ScaleX || a is ScaleY || a is ScaleZ || a is ScaleXYZ || a is PlayMode || a is PlayBegin || a is PlayEnd || a is PlaySpeed || a is ColorAddR || a is ColorAddG || a is ColorAddB || a is ColorAddC || a is ColorAddM || a is ColorAddY || a is ColorAddRY || a is ColorAddGY || a is ColorAddGC || a is ColorAddBC || a is ColorAddBM || a is ColorAddRM || a is ColorAddW || a is ColorAddWW || a is ColorAddCW || a is ColorAddUV || a is ColorSubR || a is ColorSubG || a is ColorSubB || a is ColorSubC || a is ColorSubM || a is ColorSubY || a is Cto || a is Ctc {
                lemma_digits_units_0(a);
            }
            if a is Ctb || a is Tint || a is HsbHue || a is HsbSaturation || a is HsbBrightness || a is HsbQuality || a is CieX || a is CieY || a is CieBrightness || a is ColorRgbRed || a is ColorRgbGreen || a is ColorRgbBlue || a is ColorRgbCyan || a is ColorRgbMagenta || a is ColorRgbYellow || a is ColorRgbQuality || a is VideoBoostR || a is VideoBoostG || a is VideoBoostB || a is VideoHueShift || a is VideoSaturation || a is VideoBrightness || a is VideoContrast || a is VideoKeyColorR || a is VideoKeyColorG || a is VideoKeyColorB || a is VideoKeyIntensity || a is VideoKeyTolerance || a is StrobeDuration || a is StrobeRate || a is StrobeFrequency || a is StrobeModeShutter || a is StrobeModeStrobe || a is StrobeModePulse || a is StrobeModePulseOpen || a is StrobeModePulseClose || a is StrobeModeRandom || a is StrobeModeRandomPulse || a is StrobeModeRandomPulseOpen || a is StrobeModeRandomPulseClose || a is StrobeModeEffect || a is Iris || a is IrisStrobe || a is IrisStrobeRandom || a is IrisPulseClose || a is IrisPulseOpen {
                lemma_digits_units_1(a);
            }
            if a is IrisRandomPulseClose || a is IrisRandomPulseOpen || a is EffectsSync || a is BeamShaper || a is BeamShaperMacro || a is BeamShaperPos || a is BeamShaperPosRotate || a is Zoom || a is ZoomModeSpot || a is ZoomModeBeam || a is DigitalZoom || a is DimmerMode || a is DimmerCurve || a is BlackoutMode || a is LedFrequency || a is LedZoneMode || a is PixelMode || a is PanMode || a is TiltMode || a is PanTiltMode || a is PositionModes || a is GoboWheelShortcutMode || a is AnimationWheelShortcutMode || a is ColorWheelShortcutMode || a is CyanMode || a is MagentaMode || a is YellowMode || a is ColorMixMode || a is ChromaticMode || a is ColorCalibrationMode || a is ColorConsistency || a is ColorControl || a is ColorModelMode || a is ColorSettingsReset || a is ColorUniformity || a is CriMode || a is CustomColor || a is UvStability || a is WavelengthCorrection || a is WhiteCount || a is StrobeMode || a is ZoomMode || a is FocusMode || a is IrisMode || a is FollowSpotMode || a is BeamEffectIndexRotateMode {
                lemma_digits_units_2(a);
            }
            if a is IntensityMSpeed || a is PositionMSpeed || a is ColorMixMSpeed || a is ColorWheelSelectMSpeed || a is IrisMSpeed || a is FocusMSpeed || a is ZoomMSpeed || a is FrameMSpeed || a is GlobalMSpeed || a is ReflectorAdjust || a is FixtureGlobalReset || a is DimmerReset || a is ShutterReset || a is BeamReset || a is ColorMixReset || a is ColorWheelReset || a is FocusReset || a is FrameReset || a is GoboWheelReset || a is IntensityReset || a is IrisReset || a is PositionReset || a is PanReset || a is TiltReset || a is ZoomReset || a is CtbReset || a is CtoReset || a is CtcReset || a is AnimationSystemReset || a is FixtureCalibrationReset || a is Function || a is LampControl || a is DisplayIntensity || a is DmxInput || a is NoFeature || a is LampPowerMode || a is Fans || a is ShaperRot || a is ShaperMacros || a is ShaperMacrosSpeed || a is Video || a is VideoBlendMode || a is InputSource || a is FieldOfView {
                lemma_digits_units_3(a);
            }
        },
    }
}

/// The attributes whose pretty name spells out what the GDTF name
/// abbreviates (`Red` for `ColorAdd_R`, `Rotation X` for `Rot_X`,
/// `Position` for `Pos`).
pub open spec fn pretty_name_spelled_out(a: FixtureChannel3Attribute) -> bool {
    a is XyzX || a is XyzY || a is XyzZ || a is RotX || a is RotY || a is RotZ || a is ColorAddR || a is ColorAddG || a is ColorAddB || a is ColorAddC || a is ColorAddM || a is ColorAddY || a is ColorAddRY || a is ColorAddGY || a is ColorAddGC || a is ColorAddBC || a is ColorAddBM || a is ColorAddRM || a is ColorAddW || a is ColorAddWW || a is ColorAddCW || a is ColorAddUV || a is ColorSubR || a is ColorSubG || a is ColorSubB || a is ColorSubC || a is ColorSubM || a is ColorSubY || a is ColorRgbRed || a is ColorRgbGreen || a is ColorRgbBlue || a is ColorRgbCyan || a is ColorRgbMagenta || a is ColorRgbYellow || a is ColorRgbQuality || a is VideoBoostR || a is VideoBoostG || a is VideoBoostB || a is VideoKeyColorR || a is VideoKeyColorG || a is VideoKeyColorB || a is BeamShaperPos || a is BeamShaperPosRotate || a is ShaperRot || a is GoboPos || a is AnimationWheelPos || a is AnimationSystemPos || a is PrismPos || a is EffectsPos || a is BladeRot
}

/// Part 0 of the unnumbered attributes: pretty and GDTF names begin and
/// end alike.
#[verifier::rlimit(100)]
proof fn lemma_name_ends_0(a: FixtureChannel3Attribute)
    requires
        a is Dimmer || a is Pan || a is Tilt || a is PanRotate || a is TiltRotate || a is PositionEffect || a is PositionEffectRate || a is PositionEffectFade || a is ScaleX || a is ScaleY || a is ScaleZ || a is ScaleXYZ || a is PlayMode || a is PlayBegin || a is PlayEnd || a is PlaySpeed || a is Cto || a is Ctc || a is Ctb || a is Tint || a is HsbHue || a is HsbSaturation || a is HsbBrightness || a is HsbQuality || a is CieX || a is CieY || a is CieBrightness || a is VideoHueShift || a is VideoSaturation || a is VideoBrightness || a is VideoContrast || a is VideoKeyIntensity || a is VideoKeyTolerance || a is StrobeDuration || a is StrobeRate || a is StrobeFrequency || a is StrobeModeShutter || a is StrobeModeStrobe || a is StrobeModePulse || a is StrobeModePulseOpen || a is StrobeModePulseClose || a is StrobeModeRandom || a is StrobeModeRandomPulse || a is StrobeModeRandomPulseOpen || a is StrobeModeRandomPulseClose || a is StrobeModeEffect,
    ensures
        attribute_pretty(a).len() > 0,
        attribute_text(a).len() > 0,
        attribute_pretty(a)[0] == attribute_text(a)[0],
        attribute_pretty(a).last() == attribute_text(a).last(),
{
    match a {
        FixtureChannel3Attribute::Dimmer => {
            reveal_strlit("Dimmer");
        },
        FixtureChannel3Attribute::Pan => {
            reveal_strlit("Pan");
        },
        FixtureChannel3Attribute::Tilt => {
            reveal_strlit("Tilt");
        },
        FixtureChannel3Attribute::PanRotate => {
            reveal_strlit("Pan Rotate");
            reveal_strlit("PanRotate");
        },
        FixtureChannel3Attribute::TiltRotate => {
            reveal_strlit("Tilt Rotate");
            reveal_strlit("TiltRotate");
        },
        FixtureChannel3Attribute::PositionEffect => {
            reveal_strlit("Position Effect");
            reveal_strlit("PositionEffect");
        },
        FixtureChannel3Attribute::PositionEffectRate => {
            reveal_strlit("Position Effect Rate");
            reveal_strlit("PositionEffectRate");
        },
        FixtureChannel3Attribute::PositionEffectFade => {
            reveal_strlit("Position Effect Fade");
            reveal_strlit("PositionEffectFade");
        },
        FixtureChannel3Attribute::ScaleX => {
            reveal_strlit("Scale X");
            reveal_strlit("Scale_X");
        },
        FixtureChannel3Attribute::ScaleY => {
            reveal_strlit("Scale Y");
            reveal_strlit("Scale_Y");
        },
        FixtureChannel3Attribute::ScaleZ => {
            reveal_strlit("Scale Z");
            reveal_strlit("Scale_Z");
        },
        FixtureChannel3Attribute::ScaleXYZ => {
            reveal_strlit("Scale XYZ");
            reveal_strlit("Scale_XYZ");
        },
        FixtureChannel3Attribute::PlayMode => {
            reveal_strlit("Play Mode");
            reveal_strlit("PlayMode");
        },
        FixtureChannel3Attribute::PlayBegin => {
            reveal_strlit("Play Begin");
            reveal_strlit("PlayBegin");
        },
        FixtureChannel3Attribute::PlayEnd => {
            reveal_strlit("Play End");
            reveal_strlit("PlayEnd");
        },
        FixtureChannel3Attribute::PlaySpeed => {
            reveal_strlit("Play Speed");
            reveal_strlit("PlaySpeed");
        },
        FixtureChannel3Attribute::Cto => {
            reveal_strlit("CTO");
        },
        FixtureChannel3Attribute::Ctc => {
            reveal_strlit("CTC");
        },
        FixtureChannel3Attribute::Ctb => {
            reveal_strlit("CTB");
        },
        FixtureChannel3Attribute::Tint => {
            reveal_strlit("Tint");
        },
        FixtureChannel3Attribute::HsbHue => {
            reveal_strlit("HSB Hue");
            reveal_strlit("HSB_Hue");
        },
        FixtureChannel3Attribute::HsbSaturation => {
            reveal_strlit("HSB Saturation");
            reveal_strlit("HSB_Saturation");
        },
        FixtureChannel3Attribute::HsbBrightness => {
            reveal_strlit("HSB Brightness");
            reveal_strlit("HSB_Brightness");
        },
        FixtureChannel3Attribute::HsbQuality => {
            reveal_strlit("HSB Quality");
            reveal_strlit("HSB_Quality");
        },
        FixtureChannel3Attribute::CieX => {
            reveal_strlit("CIE X");
            reveal_strlit("CIE_X");
        },
        FixtureChannel3Attribute::CieY => {
            reveal_strlit("CIE Y");
            reveal_strlit("CIE_Y");
        },
        FixtureChannel3Attribute::CieBrightness => {
            reveal_strlit("CIE Brightness");
            reveal_strlit("CIE_Brightness");
        },
        FixtureChannel3Attribute::VideoHueShift => {
            reveal_strlit("Video Hue Shift");
            reveal_strlit("VideoHueShift");
        },
        FixtureChannel3Attribute::VideoSaturation => {
            reveal_strlit("Video Saturation");
            reveal_strlit("VideoSaturation");
        },
        FixtureChannel3Attribute::VideoBrightness => {
            reveal_strlit("Video Brightness");
            reveal_strlit("VideoBrightness");
        },
        FixtureChannel3Attribute::VideoContrast => {
            reveal_strlit("Video Contrast");
            reveal_strlit("VideoContrast");
        },
        FixtureChannel3Attribute::VideoKeyIntensity => {
            reveal_strlit("Video Key Intensity");
            reveal_strlit("VideoKeyIntensity");
        },
        FixtureChannel3Attribute::VideoKeyTolerance => {
            reveal_strlit("Video Key Tolerance");
            reveal_strlit("VideoKeyTolerance");
        },
        FixtureChannel3Attribute::StrobeDuration => {
            reveal_strlit("Strobe Duration");
            reveal_strlit("StrobeDuration");
        },
        FixtureChannel3Attribute::StrobeRate => {
            reveal_strlit("Strobe Rate");
            reveal_strlit("StrobeRate");
        },
        FixtureChannel3Attribute::StrobeFrequency => {
            reveal_strlit("Strobe Frequency");
            reveal_strlit("StrobeFrequency");
        },
        FixtureChannel3Attribute::StrobeModeShutter => {
            reveal_strlit("Strobe Mode Shutter");
            reveal_strlit("StrobeModeShutter");
        },
        FixtureChannel3Attribute::StrobeModeStrobe => {
            reveal_strlit("Strobe Mode Strobe");
            reveal_strlit("StrobeModeStrobe");
        },
        FixtureChannel3Attribute::StrobeModePulse => {
            reveal_strlit("Strobe Mode Pulse");
            reveal_strlit("StrobeModePulse");
        },
        FixtureChannel3Attribute::StrobeModePulseOpen => {
            reveal_strlit("Strobe Mode Pulse Open");
            reveal_strlit("StrobeModePulseOpen");
        },
        FixtureChannel3Attribute::StrobeModePulseClose => {
            reveal_strlit("Strobe Mode Pulse Close");
            reveal_strlit("StrobeModePulseClose");
        },
        FixtureChannel3Attribute::StrobeModeRandom => {
            reveal_strlit("Strobe Mode Random");
            reveal_strlit("StrobeModeRandom");
        },
        FixtureChannel3Attribute::StrobeModeRandomPulse => {
            reveal_strlit("Strobe Mode Random Pulse");
            reveal_strlit("StrobeModeRandomPulse");
        },
        FixtureChannel3Attribute::StrobeModeRandomPulseOpen => {
            reveal_strlit("Strobe Mode Random Pulse Open");
            reveal_strlit("StrobeModeRandomPulseOpen");
        },
        FixtureChannel3Attribute::StrobeModeRandomPulseClose => {
            reveal_strlit("Strobe Mode Random Pulse Close");
            reveal_strlit("StrobeModeRandomPulseClose");
        },
        FixtureChannel3Attribute::StrobeModeEffect => {
            reveal_strlit("Strobe Mode Effect");
            reveal_strlit("StrobeModeEffect");
        },
        _ => {},
    }
}

/// Part 1 of the unnumbered attributes: pretty and GDTF names begin and
/// end alike.
#[verifier::rlimit(100)]
proof fn lemma_name_ends_1(a: FixtureChannel3Attribute)
    requires
        a is Iris || a is IrisStrobe || a is IrisStrobeRandom || a is IrisPulseClose || a is IrisPulseOpen || a is IrisRandomPulseClose || a is IrisRandomPulseOpen || a is EffectsSync || a is BeamShaper || a is BeamShaperMacro || a is Zoom || a is ZoomModeSpot || a is ZoomModeBeam || a is DigitalZoom || a is DimmerMode || a is DimmerCurve || a is BlackoutMode || a is LedFrequency || a is LedZoneMode || a is PixelMode || a is PanMode || a is TiltMode || a is PanTiltMode || a is PositionModes || a is GoboWheelShortcutMode || a is AnimationWheelShortcutMode || a is ColorWheelShortcutMode || a is CyanMode || a is MagentaMode || a is YellowMode || a is ColorMixMode || a is ChromaticMode || a is ColorCalibrationMode || a is ColorConsistency || a is ColorControl || a is ColorModelMode || a is ColorSettingsReset || a is ColorUniformity || a is CriMode || a is CustomColor || a is UvStability || a is WavelengthCorrection || a is WhiteCount || a is StrobeMode || a is ZoomMode || a is FocusMode,
    ensures
        attribute_pretty(a).len() > 0,
        attribute_text(a).len() > 0,
        attribute_pretty(a)[0] == attribute_text(a)[0],
        attribute_pretty(a).last() == attribute_text(a).last(),
{
    match a {
        FixtureChannel3Attribute::Iris => {
            reveal_strlit("Iris");
        },
        FixtureChannel3Attribute::IrisStrobe => {
            reveal_strlit("Iris Strobe");
            reveal_strlit("IrisStrobe");
        },
        FixtureChannel3Attribute::IrisStrobeRandom => {
            reveal_strlit("Iris Strobe Random");
            reveal_strlit("IrisStrobeRandom");
        },
        FixtureChannel3Attribute::IrisPulseClose => {
            reveal_strlit("Iris Pulse Close");
            reveal_strlit("IrisPulseClose");
        },
        FixtureChannel3Attribute::IrisPulseOpen => {
            reveal_strlit("Iris Pulse Open");
            reveal_strlit("IrisPulseOpen");
        },
        FixtureChannel3Attribute::IrisRandomPulseClose => {
            reveal_strlit("Iris Random Pulse Close");
            reveal_strlit("IrisRandomPulseClose");
        },
        FixtureChannel3Attribute::IrisRandomPulseOpen => {
            reveal_strlit("Iris Random Pulse Open");
            reveal_strlit("IrisRandomPulseOpen");
        },
        FixtureChannel3Attribute::EffectsSync => {
            reveal_strlit("Effects Sync");
            reveal_strlit("EffectsSync");
        },
        FixtureChannel3Attribute::BeamShaper => {
            reveal_strlit("Beam Shaper");
            reveal_strlit("BeamShaper");
        },
        FixtureChannel3Attribute::BeamShaperMacro => {
            reveal_strlit("Beam Shaper Macro");
            reveal_strlit("BeamShaperMacro");
        },
        FixtureChannel3Attribute::Zoom => {
            reveal_strlit("Zoom");
        },
        FixtureChannel3Attribute::ZoomModeSpot => {
            reveal_strlit("Zoom Mode Spot");
            reveal_strlit("ZoomModeSpot");
        },
        FixtureChannel3Attribute::ZoomModeBeam => {
            reveal_strlit("Zoom Mode Beam");
            reveal_strlit("ZoomModeBeam");
        },
        FixtureChannel3Attribute::DigitalZoom => {
            reveal_strlit("Digital Zoom");
            reveal_strlit("DigitalZoom");
        },
        FixtureChannel3Attribute::DimmerMode => {
            reveal_strlit("Dimmer Mode");
            reveal_strlit("DimmerMode");
        },
        FixtureChannel3Attribute::DimmerCurve => {
            reveal_strlit("Dimmer Curve");
            reveal_strlit("DimmerCurve");
        },
        FixtureChannel3Attribute::BlackoutMode => {
            reveal_strlit("Blackout Mode");
            reveal_strlit("BlackoutMode");
        },
        FixtureChannel3Attribute::LedFrequency => {
            reveal_strlit("LED Frequency");
            reveal_strlit("LedFrequency");
        },
        FixtureChannel3Attribute::LedZoneMode => {
            reveal_strlit("LED Zone Mode");
            reveal_strlit("LedZoneMode");
        },
        FixtureChannel3Attribute::PixelMode => {
            reveal_strlit("Pixel Mode");
            reveal_strlit("PixelMode");
        },
        FixtureChannel3Attribute::PanMode => {
            reveal_strlit("Pan Mode");
            reveal_strlit("PanMode");
        },
        FixtureChannel3Attribute::TiltMode => {
            reveal_strlit("Tilt Mode");
            reveal_strlit("TiltMode");
        },
        FixtureChannel3Attribute::PanTiltMode => {
            reveal_strlit("Pan Tilt Mode");
            reveal_strlit("PanTiltMode");
        },
        FixtureChannel3Attribute::PositionModes => {
            reveal_strlit("Position Modes");
            reveal_strlit("PositionModes");
        },
        FixtureChannel3Attribute::GoboWheelShortcutMode => {
            reveal_strlit("Gobo Wheel Shortcut Mode");
            reveal_strlit("GoboWheelShortcutMode");
        },
        FixtureChannel3Attribute::AnimationWheelShortcutMode => {
            reveal_strlit("Animation Wheel Shortcut Mode");
            reveal_strlit("AnimationWheelShortcutMode");
        },
        FixtureChannel3Attribute::ColorWheelShortcutMode => {
            reveal_strlit("Color Wheel Shortcut Mode");
            reveal_strlit("ColorWheelShortcutMode");
        },
        FixtureChannel3Attribute::CyanMode => {
            reveal_strlit("Cyan Mode");
            reveal_strlit("CyanMode");
        },
        FixtureChannel3Attribute::MagentaMode => {
            reveal_strlit("Magenta Mode");
            reveal_strlit("MagentaMode");
        },
        FixtureChannel3Attribute::YellowMode => {
            reveal_strlit("Yellow Mode");
            reveal_strlit("YellowMode");
        },
        FixtureChannel3Attribute::ColorMixMode => {
            reveal_strlit("Color Mix Mode");
            reveal_strlit("ColorMixMode");
        },
        FixtureChannel3Attribute::ChromaticMode => {
            reveal_strlit("Chromatic Mode");
            reveal_strlit("ChromaticMode");
        },
        FixtureChannel3Attribute::ColorCalibrationMode => {
            reveal_strlit("Color Calibration Mode");
            reveal_strlit("ColorCalibrationMode");
        },
        FixtureChannel3Attribute::ColorConsistency => {
            reveal_strlit("Color Consistency");
            reveal_strlit("ColorConsistency");
        },
        FixtureChannel3Attribute::ColorControl => {
            reveal_strlit("Color Control");
            reveal_strlit("ColorControl");
        },
        FixtureChannel3Attribute::ColorModelMode => {
            reveal_strlit("Color Model Mode");
            reveal_strlit("ColorModelMode");
        },
        FixtureChannel3Attribute::ColorSettingsReset => {
            reveal_strlit("Color Settings Reset");
            reveal_strlit("ColorSettingsReset");
        },
        FixtureChannel3Attribute::ColorUniformity => {
            reveal_strlit("Color Uniformity");
            reveal_strlit("ColorUniformity");
        },
        FixtureChannel3Attribute::CriMode => {
            reveal_strlit("CRI Mode");
            reveal_strlit("CriMode");
        },
        FixtureChannel3Attribute::CustomColor => {
            reveal_strlit("Custom Color");
            reveal_strlit("CustomColor");
        },
        FixtureChannel3Attribute::UvStability => {
            reveal_strlit("UV Stability");
            reveal_strlit("UvStability");
        },
        FixtureChannel3Attribute::WavelengthCorrection => {
            reveal_strlit("Wavelength Correction");
            reveal_strlit("WavelengthCorrection");
        },
        FixtureChannel3Attribute::WhiteCount => {
            reveal_strlit("White Count");
            reveal_strlit("WhiteCount");
        },
        FixtureChannel3Attribute::StrobeMode => {
            reveal_strlit("Strobe Mode");
            reveal_strlit("StrobeMode");
        },
        FixtureChannel3Attribute::ZoomMode => {
            reveal_strlit("Zoom Mode");
            reveal_strlit("ZoomMode");
        },
        FixtureChannel3Attribute::FocusMode => {
            reveal_strlit("Focus Mode");
            reveal_strlit("FocusMode");
        },
        _ => {},
    }
}

/// Part 2 of the unnumbered attributes: pretty and GDTF names begin and
/// end alike.
#[verifier::rlimit(100)]
proof fn lemma_name_ends_2(a: FixtureChannel3Attribute)
    requires
        a is IrisMode || a is FollowSpotMode || a is BeamEffectIndexRotateMode || a is IntensityMSpeed || a is PositionMSpeed || a is ColorMixMSpeed || a is ColorWheelSelectMSpeed || a is IrisMSpeed || a is FocusMSpeed || a is ZoomMSpeed || a is FrameMSpeed || a is GlobalMSpeed || a is ReflectorAdjust || a is FixtureGlobalReset || a is DimmerReset || a is ShutterReset || a is BeamReset || a is ColorMixReset || a is ColorWheelReset || a is FocusReset || a is FrameReset || a is GoboWheelReset || a is IntensityReset || a is IrisReset || a is PositionReset || a is PanReset || a is TiltReset || a is ZoomReset || a is CtbReset || a is CtoReset || a is CtcReset || a is AnimationSystemReset || a is FixtureCalibrationReset || a is Function || a is LampControl || a is DisplayIntensity || a is DmxInput || a is NoFeature || a is LampPowerMode || a is Fans || a is ShaperMacros || a is ShaperMacrosSpeed || a is Video || a is VideoBlendMode || a is InputSource || a is FieldOfView,
    ensures
        attribute_pretty(a).len() > 0,
        attribute_text(a).len() > 0,
        attribute_pretty(a)[0] == attribute_text(a)[0],
        attribute_pretty(a).last() == attribute_text(a).last(),
{
    match a {
        FixtureChannel3Attribute::IrisMode => {
            reveal_strlit("Iris Mode");
            reveal_strlit("IrisMode");
        },
        FixtureChannel3Attribute::FollowSpotMode => {
            reveal_strlit("Follow Spot Mode");
            reveal_strlit("FollowSpotMode");
        },
        FixtureChannel3Attribute::BeamEffectIndexRotateMode => {
            reveal_strlit("Beam Effect Index Rotate Mode");
            reveal_strlit("BeamEffectIndexRotateMode");
        },
        FixtureChannel3Attribute::IntensityMSpeed => {
            reveal_strlit("Intensity MSpeed");
            reveal_strlit("IntensityMSpeed");
        },
        FixtureChannel3Attribute::PositionMSpeed => {
            reveal_strlit("Position MSpeed");
            reveal_strlit("PositionMSpeed");
        },
        FixtureChannel3Attribute::ColorMixMSpeed => {
            reveal_strlit("Color Mix MSpeed");
            reveal_strlit("ColorMixMSpeed");
        },
        FixtureChannel3Attribute::ColorWheelSelectMSpeed => {
            reveal_strlit("Color Wheel Select MSpeed");
            reveal_strlit("ColorWheelSelectMSpeed");
        },
        FixtureChannel3Attribute::IrisMSpeed => {
            reveal_strlit("Iris MSpeed");
            reveal_strlit("IrisMSpeed");
        },
        FixtureChannel3Attribute::FocusMSpeed => {
            reveal_strlit("Focus MSpeed");
            reveal_strlit("FocusMSpeed");
        },
        FixtureChannel3Attribute::ZoomMSpeed => {
            reveal_strlit("Zoom MSpeed");
            reveal_strlit("ZoomMSpeed");
        },
        FixtureChannel3Attribute::FrameMSpeed => {
            reveal_strlit("Frame MSpeed");
            reveal_strlit("FrameMSpeed");
        },
        FixtureChannel3Attribute::GlobalMSpeed => {
            reveal_strlit("Global MSpeed");
            reveal_strlit("GlobalMSpeed");
        },
        FixtureChannel3Attribute::ReflectorAdjust => {
            reveal_strlit("Reflector Adjust");
            reveal_strlit("ReflectorAdjust");
        },
        FixtureChannel3Attribute::FixtureGlobalReset => {
            reveal_strlit("Fixture Global Reset");
            reveal_strlit("FixtureGlobalReset");
        },
        FixtureChannel3Attribute::DimmerReset => {
            reveal_strlit("Dimmer Reset");
            reveal_strlit("DimmerReset");
        },
        FixtureChannel3Attribute::ShutterReset => {
            reveal_strlit("Shutter Reset");
            reveal_strlit("ShutterReset");
        },
        FixtureChannel3Attribute::BeamReset => {
            reveal_strlit("Beam Reset");
            reveal_strlit("BeamReset");
        },
        FixtureChannel3Attribute::ColorMixReset => {
            reveal_strlit("Color Mix Reset");
            reveal_strlit("ColorMixReset");
        },
        FixtureChannel3Attribute::ColorWheelReset => {
            reveal_strlit("Color Wheel Reset");
            reveal_strlit("ColorWheelReset");
        },
        FixtureChannel3Attribute::FocusReset => {
            reveal_strlit("Focus Reset");
            reveal_strlit("FocusReset");
        },
        FixtureChannel3Attribute::FrameReset => {
            reveal_strlit("Frame Reset");
            reveal_strlit("FrameReset");
        },
        FixtureChannel3Attribute::GoboWheelReset => {
            reveal_strlit("Gobo Wheel Reset");
            reveal_strlit("GoboWheelReset");
        },
        FixtureChannel3Attribute::IntensityReset => {
            reveal_strlit("Intensity Reset");
            reveal_strlit("IntensityReset");
        },
        FixtureChannel3Attribute::IrisReset => {
            reveal_strlit("Iris Reset");
            reveal_strlit("IrisReset");
        },
        FixtureChannel3Attribute::PositionReset => {
            reveal_strlit("Position Reset");
            reveal_strlit("PositionReset");
        },
        FixtureChannel3Attribute::PanReset => {
            reveal_strlit("Pan Reset");
            reveal_strlit("PanReset");
        },
        FixtureChannel3Attribute::TiltReset => {
            reveal_strlit("Tilt Reset");
            reveal_strlit("TiltReset");
        },
        FixtureChannel3Attribute::ZoomReset => {
            reveal_strlit("Zoom Reset");
            reveal_strlit("ZoomReset");
        },
        FixtureChannel3Attribute::CtbReset => {
            reveal_strlit("CTB Reset");
            reveal_strlit("CTBReset");
        },
        FixtureChannel3Attribute::CtoReset => {
            reveal_strlit("CTO Reset");
            reveal_strlit("CTOReset");
        },
        FixtureChannel3Attribute::CtcReset => {
            reveal_strlit("CTC Reset");
            reveal_strlit("CTCReset");
        },
        FixtureChannel3Attribute::AnimationSystemReset => {
            reveal_strlit("Animation System Reset");
            reveal_strlit("AnimationSystemReset");
        },
        FixtureChannel3Attribute::FixtureCalibrationReset => {
            reveal_strlit("Fixture Calibration Reset");
            reveal_strlit("FixtureCalibrationReset");
        },
        FixtureChannel3Attribute::Function => {
            reveal_strlit("Function");
        },
        FixtureChannel3Attribute::LampControl => {
            reveal_strlit("Lamp Control");
            reveal_strlit("LampControl");
        },
        FixtureChannel3Attribute::DisplayIntensity => {
            reveal_strlit("Display Intensity");
            reveal_strlit("DisplayIntensity");
        },
        FixtureChannel3Attribute::DmxInput => {
            reveal_strlit("DMX Input");
            reveal_strlit("DMXInput");
        },
        FixtureChannel3Attribute::NoFeature => {
            reveal_strlit("No Feature");
            reveal_strlit("NoFeature");
        },
        FixtureChannel3Attribute::LampPowerMode => {
            reveal_strlit("Lamp Power Mode");
            reveal_strlit("LampPowerMode");
        },
        FixtureChannel3Attribute::Fans => {
            reveal_strlit("Fans");
        },
        FixtureChannel3Attribute::ShaperMacros => {
            reveal_strlit("Shaper Macros");
            reveal_strlit("ShaperMacros");
        },
        FixtureChannel3Attribute::ShaperMacrosSpeed => {
            reveal_strlit("Shaper Macros Speed");
            reveal_strlit("ShaperMacrosSpeed");
        },
        FixtureChannel3Attribute::Video => {
            reveal_strlit("Video");
        },
        FixtureChannel3Attribute::VideoBlendMode => {
            reveal_strlit("Video Blend Mode");
            reveal_strlit("VideoBlendMode");
        },
        FixtureChannel3Attribute::InputSource => {
            reveal_strlit("Input Source");
            reveal_strlit("InputSource");
        },
        FixtureChannel3Attribute::FieldOfView => {
            reveal_strlit("Field of View");
            reveal_strlit("FieldOfView");
        },
        _ => {},
    }
}

proof fn lemma_name_ends_gobo(n: u8)
    ensures
        attribute_pretty(FixtureChannel3Attribute::Gobo(n)).len() > 0,
        attribute_text(FixtureChannel3Attribute::Gobo(n)).len() > 0,
        attribute_pretty(FixtureChannel3Attribute::Gobo(n))[0] == attribute_text(FixtureChannel3Attribute::Gobo(n))[0],
        attribute_pretty(FixtureChannel3Attribute::Gobo(n)).last() == attribute_text(FixtureChannel3Attribute::Gobo(n)).last(),
{
    lemma_decimal_digits(n as nat);
    reveal_strlit("Gobo");
    reveal_strlit("Gobo ");
    assert(("Gobo "@ + decimal(n as nat))[0] == "Gobo "@[0]);
    assert(("Gobo "@ + decimal(n as nat)).last() == decimal(n as nat).last());
    assert(("Gobo"@ + decimal(n as nat))[0] == "Gobo"@[0]);
    assert(("Gobo"@ + decimal(n as nat)).last() == decimal(n as nat).last());
}

proof fn lemma_name_ends_gobo_select_spin(n: u8)
    ensures
        attribute_pretty(FixtureChannel3Attribute::GoboSelectSpin(n)).len() > 0,
        attribute_text(FixtureChannel3Attribute::GoboSelectSpin(n)).len() > 0,
        attribute_pretty(FixtureChannel3Attribute::GoboSelectSpin(n))[0] == attribute_text(FixtureChannel3Attribute::GoboSelectSpin(n))[0],
        attribute_pretty(FixtureChannel3Attribute::GoboSelectSpin(n)).last() == attribute_text(FixtureChannel3Attribute::GoboSelectSpin(n)).last(),
{
    lemma_decimal_digits(n as nat);
    reveal_strlit(" Select Spin");
    reveal_strlit("Gobo");
    reveal_strlit("Gobo ");
    reveal_strlit("SelectSpin");
    assert(("Gobo "@ + decimal(n as nat) + " Select Spin"@)[0] == "Gobo "@[0]);
    assert(("Gobo "@ + decimal(n as nat) + " Select Spin"@).last() == " Select Spin"@.last());
    assert(("Gobo"@ + decimal(n as nat) + "SelectSpin"@)[0] == "Gobo"@[0]);
    assert(("Gobo"@ + decimal(n as nat) + "SelectSpin"@).last() == "SelectSpin"@.last());
}

proof fn lemma_name_ends_gobo_select_shake(n: u8)
    ensures
        attribute_pretty(FixtureChannel3Attribute::GoboSelectShake(n)).len() > 0,
        attribute_text(FixtureChannel3Attribute::GoboSelectShake(n)).len() > 0,
        attribute_pretty(FixtureChannel3Attribute::GoboSelectShake(n))[0] == attribute_text(FixtureChannel3Attribute::GoboSelectShake(n))[0],
        attribute_pretty(FixtureChannel3Attribute::GoboSelectShake(n)).last() == attribute_text(FixtureChannel3Attribute::GoboSelectShake(n)).last(),
{
    lemma_decimal_digits(n as nat);
    reveal_strlit(" Select Shake");
    reveal_strlit("Gobo");
    reveal_strlit("Gobo ");
    reveal_strlit("SelectShake");
    assert(("Gobo "@ + decimal(n as nat) + " Select Shake"@)[0] == "Gobo "@[0]);
    assert(("Gobo "@ + decimal(n as nat) + " Select Shake"@).last() == " Select Shake"@.last());
    assert(("Gobo"@ + decimal(n as nat) + "SelectShake"@)[0] == "Gobo"@[0]);
    assert(("Gobo"@ + decimal(n as nat) + "SelectShake"@).last() == "SelectShake"@.last());
}

proof fn lemma_name_ends_gobo_select_effects(n: u8)
    ensures
        attribute_pretty(FixtureChannel3Attribute::GoboSelectEffects(n)).len() > 0,
        attribute_text(FixtureChannel3Attribute::GoboSelectEffects(n)).len() > 0,
        attribute_pretty(FixtureChannel3Attribute::GoboSelectEffects(n))[0] == attribute_text(FixtureChannel3Attribute::GoboSelectEffects(n))[0],
        attribute_pretty(FixtureChannel3Attribute::GoboSelectEffects(n)).last() == attribute_text(FixtureChannel3Attribute::GoboSelectEffects(n)).last(),
{
    lemma_decimal_digits(n as nat);
    reveal_strlit(" Select Effects");
    reveal_strlit("Gobo");
    reveal_strlit("Gobo ");
    reveal_strlit("SelectEffects");
    assert(("Gobo "@ + decimal(n as nat) + " Select Effects"@)[0] == "Gobo "@[0]);
    assert(("Gobo "@ + decimal(n as nat) + " Select Effects"@).last() == " Select Effects"@.last());
    assert(("Gobo"@ + decimal(n as nat) + "SelectEffects"@)[0] == "Gobo"@[0]);
    assert(("Gobo"@ + decimal(n as nat) + "SelectEffects"@).last() == "SelectEffects"@.last());
}

proof fn lemma_name_ends_gobo_wheel_index(n: u8)
    ensures
        attribute_pretty(FixtureChannel3Attribute::GoboWheelIndex(n)).len() > 0,
        attribute_text(FixtureChannel3Attribute::GoboWheelIndex(n)).len() > 0,
        attribute_pretty(FixtureChannel3Attribute::GoboWheelIndex(n))[0] == attribute_text(FixtureChannel3Attribute::GoboWheelIndex(n))[0],
        attribute_pretty(FixtureChannel3Attribute::GoboWheelIndex(n)).last() == attribute_text(FixtureChannel3Attribute::GoboWheelIndex(n)).last(),
{
    lemma_decimal_digits(n as nat);
    reveal_strlit(" Wheel Index");
    reveal_strlit("Gobo");
    reveal_strlit("Gobo ");
    reveal_strlit("WheelIndex");
    assert(("Gobo "@ + decimal(n as nat) + " Wheel Index"@)[0] == "Gobo "@[0]);
    assert(("Gobo "@ + decimal(n as nat) + " Wheel Index"@).last() == " Wheel Index"@.last());
    assert(("Gobo"@ + decimal(n as nat) + "WheelIndex"@)[0] == "Gobo"@[0]);
    assert(("Gobo"@ + decimal(n as nat) + "WheelIndex"@).last() == "WheelIndex"@.last());
}

proof fn lemma_name_ends_gobo_wheel_spin(n: u8)
    ensures
        attribute_pretty(FixtureChannel3Attribute::GoboWheelSpin(n)).len() > 0,
        attribute_text(FixtureChannel3Attribute::GoboWheelSpin(n)).len() > 0,
        attribute_pretty(FixtureChannel3Attribute::GoboWheelSpin(n))[0] == attribute_text(FixtureChannel3Attribute::GoboWheelSpin(n))[0],
        attribute_pretty(FixtureChannel3Attribute::GoboWheelSpin(n)).last() == attribute_text(FixtureChannel3Attribute::GoboWheelSpin(n)).last(),
{
    lemma_decimal_digits(n as nat);
    reveal_strlit(" Wheel Spin");
    reveal_strlit("Gobo");
    reveal_strlit("Gobo ");
    reveal_strlit("WheelSpin");
    assert(("Gobo "@ + decimal(n as nat) + " Wheel Spin"@)[0] == "Gobo "@[0]);
    assert(("Gobo "@ + decimal(n as nat) + " Wheel Spin"@).last() == " Wheel Spin"@.last());
    assert(("Gobo"@ + decimal(n as nat) + "WheelSpin"@)[0] == "Gobo"@[0]);
    assert(("Gobo"@ + decimal(n as nat) + "WheelSpin"@).last() == "WheelSpin"@.last());
}

proof fn lemma_name_ends_gobo_wheel_shake(n: u8)
    ensures
        attribute_pretty(FixtureChannel3Attribute::GoboWheelShake(n)).len() > 0,
        attribute_text(FixtureChannel3Attribute::GoboWheelShake(n)).len() > 0,
        attribute_pretty(FixtureChannel3Attribute::GoboWheelShake(n))[0] == attribute_text(FixtureChannel3Attribute::GoboWheelShake(n))[0],
        attribute_pretty(FixtureChannel3Attribute::GoboWheelShake(n)).last() == attribute_text(FixtureChannel3Attribute::GoboWheelShake(n)).last(),
{
    lemma_decimal_digits(n as nat);
    reveal_strlit(" Wheel Shake");
    reveal_strlit("Gobo");
    reveal_strlit("Gobo ");
    reveal_strlit("WheelShake");
    assert(("Gobo "@ + decimal(n as nat) + " Wheel Shake"@)[0] == "Gobo "@[0]);
    assert(("Gobo "@ + decimal(n as nat) + " Wheel Shake"@).last() == " Wheel Shake"@.last());
    assert(("Gobo"@ + decimal(n as nat) + "WheelShake"@)[0] == "Gobo"@[0]);
    assert(("Gobo"@ + decimal(n as nat) + "WheelShake"@).last() == "WheelShake"@.last());
}

proof fn lemma_name_ends_gobo_wheel_random(n: u8)
    ensures
        attribute_pretty(FixtureChannel3Attribute::GoboWheelRandom(n)).len() > 0,
        attribute_text(FixtureChannel3Attribute::GoboWheelRandom(n)).len() > 0,
        attribute_pretty(FixtureChannel3Attribute::GoboWheelRandom(n))[0] == attribute_text(FixtureChannel3Attribute::GoboWheelRandom(n))[0],
        attribute_pretty(FixtureChannel3Attribute::GoboWheelRandom(n)).last() == attribute_text(FixtureChannel3Attribute::GoboWheelRandom(n)).last(),
{
    lemma_decimal_digits(n as nat);
    reveal_strlit(" Wheel Random");
    reveal_strlit("Gobo");
    reveal_strlit("Gobo ");
    reveal_strlit("WheelRandom");
    assert(("Gobo "@ + decimal(n as nat) + " Wheel Random"@)[0] == "Gobo "@[0]);
    assert(("Gobo "@ + decimal(n as nat) + " Wheel Random"@).last() == " Wheel Random"@.last());
    assert(("Gobo"@ + decimal(n as nat) + "WheelRandom"@)[0] == "Gobo"@[0]);
    assert(("Gobo"@ + decimal(n as nat) + "WheelRandom"@).last() == "WheelRandom"@.last());
}

proof fn lemma_name_ends_gobo_wheel_audio(n: u8)
    ensures
        attribute_pretty(FixtureChannel3Attribute::GoboWheelAudio(n)).len() > 0,
        attribute_text(FixtureChannel3Attribute::GoboWheelAudio(n)).len() > 0,
        attribute_pretty(FixtureChannel3Attribute::GoboWheelAudio(n))[0] == attribute_text(FixtureChannel3Attribute::GoboWheelAudio(n))[0],
        attribute_pretty(FixtureChannel3Attribute::GoboWheelAudio(n)).last() == attribute_text(FixtureChannel3Attribute::GoboWheelAudio(n)).last(),
{
    lemma_decimal_digits(n as nat);
    reveal_strlit(" Wheel Audio");
    reveal_strlit("Gobo");
    reveal_strlit("Gobo ");
    reveal_strlit("WheelAudio");
    assert(("Gobo "@ + decimal(n as nat) + " Wheel Audio"@)[0] == "Gobo "@[0]);
    assert(("Gobo "@ + decimal(n as nat) + " Wheel Audio"@).last() == " Wheel Audio"@.last());
    assert(("Gobo"@ + decimal(n as nat) + "WheelAudio"@)[0] == "Gobo"@[0]);
    assert(("Gobo"@ + decimal(n as nat) + "WheelAudio"@).last() == "WheelAudio"@.last());
}

proof fn lemma_name_ends_gobo_pos(n: u8)
    ensures
        attribute_pretty(FixtureChannel3Attribute::GoboPos(n)).len() > 0,
        attribute_text(FixtureChannel3Attribute::GoboPos(n)).len() > 0,
        attribute_pretty(FixtureChannel3Attribute::GoboPos(n))[0] == attribute_text(FixtureChannel3Attribute::GoboPos(n))[0],
{
    lemma_decimal_digits(n as nat);
    reveal_strlit(" Position");
    reveal_strlit("Gobo");
    reveal_strlit("Gobo ");
    reveal_strlit("Pos");
    assert(("Gobo "@ + decimal(n as nat) + " Position"@)[0] == "Gobo "@[0]);
    assert(("Gobo"@ + decimal(n as nat) + "Pos"@)[0] == "Gobo"@[0]);
}

proof fn lemma_name_ends_gobo_pos_rotate(n: u8)
    ensures
        attribute_pretty(FixtureChannel3Attribute::GoboPosRotate(n)).len() > 0,
        attribute_text(FixtureChannel3Attribute::GoboPosRotate(n)).len() > 0,
        attribute_pretty(FixtureChannel3Attribute::GoboPosRotate(n))[0] == attribute_text(FixtureChannel3Attribute::GoboPosRotate(n))[0],
        attribute_pretty(FixtureChannel3Attribute::GoboPosRotate(n)).last() == attribute_text(FixtureChannel3Attribute::GoboPosRotate(n)).last(),
{
    lemma_decimal_digits(n as nat);
    reveal_strlit(" Position Rotate");
    reveal_strlit("Gobo");
    reveal_strlit("Gobo ");
    reveal_strlit("PosRotate");
    assert(("Gobo "@ + decimal(n as nat) + " Position Rotate"@)[0] == "Gobo "@[0]);
    assert(("Gobo "@ + decimal(n as nat) + " Position Rotate"@).last() == " Position Rotate"@.last());
    assert(("Gobo"@ + decimal(n as nat) + "PosRotate"@)[0] == "Gobo"@[0]);
    assert(("Gobo"@ + decimal(n as nat) + "PosRotate"@).last() == "PosRotate"@.last());
}

proof fn lemma_name_ends_gobo_pos_shake(n: u8)
    ensures
        attribute_pretty(FixtureChannel3Attribute::GoboPosShake(n)).len() > 0,
        attribute_text(FixtureChannel3Attribute::GoboPosShake(n)).len() > 0,
        attribute_pretty(FixtureChannel3Attribute::GoboPosShake(n))[0] == attribute_text(FixtureChannel3Attribute::GoboPosShake(n))[0],
        attribute_pretty(FixtureChannel3Attribute::GoboPosShake(n)).last() == attribute_text(FixtureChannel3Attribute::GoboPosShake(n)).last(),
{
    lemma_decimal_digits(n as nat);
    reveal_strlit(" Position Shake");
    reveal_strlit("Gobo");
    reveal_strlit("Gobo ");
    reveal_strlit("PosShake");
    assert(("Gobo "@ + decimal(n as nat) + " Position Shake"@)[0] == "Gobo "@[0]);
    assert(("Gobo "@ + decimal(n as nat) + " Position Shake"@).last() == " Position Shake"@.last());
    assert(("Gobo"@ + decimal(n as nat) + "PosShake"@)[0] == "Gobo"@[0]);
    assert(("Gobo"@ + decimal(n as nat) + "PosShake"@).last() == "PosShake"@.last());
}

proof fn lemma_name_ends_animation_wheel(n: u8)
    ensures
        attribute_pretty(FixtureChannel3Attribute::AnimationWheel(n)).len() > 0,
        attribute_text(FixtureChannel3Attribute::AnimationWheel(n)).len() > 0,
        attribute_pretty(FixtureChannel3Attribute::AnimationWheel(n))[0] == attribute_text(FixtureChannel3Attribute::AnimationWheel(n))[0],
        attribute_pretty(FixtureChannel3Attribute::AnimationWheel(n)).last() == attribute_text(FixtureChannel3Attribute::AnimationWheel(n)).last(),
{
    lemma_decimal_digits(n as nat);
    reveal_strlit("Animation Wheel ");
    reveal_strlit("AnimationWheel");
    assert(("Animation Wheel "@ + decimal(n as nat))[0] == "Animation Wheel "@[0]);
    assert(("Animation Wheel "@ + decimal(n as nat)).last() == decimal(n as nat).last());
    assert(("AnimationWheel"@ + decimal(n as nat))[0] == "AnimationWheel"@[0]);
    assert(("AnimationWheel"@ + decimal(n as nat)).last() == decimal(n as nat).last());
}

proof fn lemma_name_ends_animation_wheel_audio(n: u8)
    ensures
        attribute_pretty(FixtureChannel3Attribute::AnimationWheelAudio(n)).len() > 0,
        attribute_text(FixtureChannel3Attribute::AnimationWheelAudio(n)).len() > 0,
        attribute_pretty(FixtureChannel3Attribute::AnimationWheelAudio(n))[0] == attribute_text(FixtureChannel3Attribute::AnimationWheelAudio(n))[0],
        attribute_pretty(FixtureChannel3Attribute::AnimationWheelAudio(n)).last() == attribute_text(FixtureChannel3Attribute::AnimationWheelAudio(n)).last(),
{
    lemma_decimal_digits(n as nat);
    reveal_strlit(" Audio");
    reveal_strlit("Animation Wheel ");
    reveal_strlit("AnimationWheel");
    reveal_strlit("Audio");
    assert(("Animation Wheel "@ + decimal(n as nat) + " Audio"@)[0] == "Animation Wheel "@[0]);
    assert(("Animation Wheel "@ + decimal(n as nat) + " Audio"@).last() == " Audio"@.last());
    assert(("AnimationWheel"@ + decimal(n as nat) + "Audio"@)[0] == "AnimationWheel"@[0]);
    assert(("AnimationWheel"@ + decimal(n as nat) + "Audio"@).last() == "Audio"@.last());
}

proof fn lemma_name_ends_animation_wheel_macro(n: u8)
    ensures
        attribute_pretty(FixtureChannel3Attribute::AnimationWheelMacro(n)).len() > 0,
        attribute_text(FixtureChannel3Attribute::AnimationWheelMacro(n)).len() > 0,
        attribute_pretty(FixtureChannel3Attribute::AnimationWheelMacro(n))[0] == attribute_text(FixtureChannel3Attribute::AnimationWheelMacro(n))[0],
        attribute_pretty(FixtureChannel3Attribute::AnimationWheelMacro(n)).last() == attribute_text(FixtureChannel3Attribute::AnimationWheelMacro(n)).last(),
{
    lemma_decimal_digits(n as nat);
    reveal_strlit(" Macro");
    reveal_strlit("Animation Wheel ");
    reveal_strlit("AnimationWheel");
    reveal_strlit("Macro");
    assert(("Animation Wheel "@ + decimal(n as nat) + " Macro"@)[0] == "Animation Wheel "@[0]);
    assert(("Animation Wheel "@ + decimal(n as nat) + " Macro"@).last() == " Macro"@.last());
    assert(("AnimationWheel"@ + decimal(n as nat) + "Macro"@)[0] == "AnimationWheel"@[0]);
    assert(("AnimationWheel"@ + decimal(n as nat) + "Macro"@).last() == "Macro"@.last());
}

proof fn lemma_name_ends_animation_wheel_random(n: u8)
    ensures
        attribute_pretty(FixtureChannel3Attribute::AnimationWheelRandom(n)).len() > 0,
        attribute_text(FixtureChannel3Attribute::AnimationWheelRandom(n)).len() > 0,
        attribute_pretty(FixtureChannel3Attribute::AnimationWheelRandom(n))[0] == attribute_text(FixtureChannel3Attribute::AnimationWheelRandom(n))[0],
        attribute_pretty(FixtureChannel3Attribute::AnimationWheelRandom(n)).last() == attribute_text(FixtureChannel3Attribute::AnimationWheelRandom(n)).last(),
{
    lemma_decimal_digits(n as nat);
    reveal_strlit(" Random");
    reveal_strlit("Animation Wheel ");
    reveal_strlit("AnimationWheel");
    reveal_strlit("Random");
    assert(("Animation Wheel "@ + decimal(n as nat) + " Random"@)[0] == "Animation Wheel "@[0]);
    assert(("Animation Wheel "@ + decimal(n as nat) + " Random"@).last() == " Random"@.last());
    assert(("AnimationWheel"@ + decimal(n as nat) + "Random"@)[0] == "AnimationWheel"@[0]);
    assert(("AnimationWheel"@ + decimal(n as nat) + "Random"@).last() == "Random"@.last());
}

proof fn lemma_name_ends_animation_wheel_select_effects(n: u8)
    ensures
        attribute_pretty(FixtureChannel3Attribute::AnimationWheelSelectEffects(n)).len() > 0,
        attribute_text(FixtureChannel3Attribute::AnimationWheelSelectEffects(n)).len() > 0,
        attribute_pretty(FixtureChannel3Attribute::AnimationWheelSelectEffects(n))[0] == attribute_text(FixtureChannel3Attribute::AnimationWheelSelectEffects(n))[0],
        attribute_pretty(FixtureChannel3Attribute::AnimationWheelSelectEffects(n)).last() == attribute_text(FixtureChannel3Attribute::AnimationWheelSelectEffects(n)).last(),
{
    lemma_decimal_digits(n as nat);
    reveal_strlit(" Select Effects");
    reveal_strlit("Animation Wheel ");
    reveal_strlit("AnimationWheel");
    reveal_strlit("SelectEffects");
    assert(("Animation Wheel "@ + decimal(n as nat) + " Select Effects"@)[0] == "Animation Wheel "@[0]);
    assert(("Animation Wheel "@ + decimal(n as nat) + " Select Effects"@).last() == " Select Effects"@.last());
    assert(("AnimationWheel"@ + decimal(n as nat) + "SelectEffects"@)[0] == "AnimationWheel"@[0]);
    assert(("AnimationWheel"@ + decimal(n as nat) + "SelectEffects"@).last() == "SelectEffects"@.last());
}

proof fn lemma_name_ends_animation_wheel_select_shake(n: u8)
    ensures
        attribute_pretty(FixtureChannel3Attribute::AnimationWheelSelectShake(n)).len() > 0,
        attribute_text(FixtureChannel3Attribute::AnimationWheelSelectShake(n)).len() > 0,
        attribute_pretty(FixtureChannel3Attribute::AnimationWheelSelectShake(n))[0] == attribute_text(FixtureChannel3Attribute::AnimationWheelSelectShake(n))[0],
        attribute_pretty(FixtureChannel3Attribute::AnimationWheelSelectShake(n)).last() == attribute_text(FixtureChannel3Attribute::AnimationWheelSelectShake(n)).last(),
{
    lemma_decimal_digits(n as nat);
    reveal_strlit(" Select Shake");
    reveal_strlit("Animation Wheel ");
    reveal_strlit("AnimationWheel");
    reveal_strlit("SelectShake");
    assert(("Animation Wheel "@ + decimal(n as nat) + " Select Shake"@)[0] == "Animation Wheel "@[0]);
    assert(("Animation Wheel "@ + decimal(n as nat) + " Select Shake"@).last() == " Select Shake"@.last());
    assert(("AnimationWheel"@ + decimal(n as nat) + "SelectShake"@)[0] == "AnimationWheel"@[0]);
    assert(("AnimationWheel"@ + decimal(n as nat) + "SelectShake"@).last() == "SelectShake"@.last());
}

proof fn lemma_name_ends_animation_wheel_select_spin(n: u8)
    ensures
        attribute_pretty(FixtureChannel3Attribute::AnimationWheelSelectSpin(n)).len() > 0,
        attribute_text(FixtureChannel3Attribute::AnimationWheelSelectSpin(n)).len() > 0,
        attribute_pretty(FixtureChannel3Attribute::AnimationWheelSelectSpin(n))[0] == attribute_text(FixtureChannel3Attribute::AnimationWheelSelectSpin(n))[0],
        attribute_pretty(FixtureChannel3Attribute::AnimationWheelSelectSpin(n)).last() == attribute_text(FixtureChannel3Attribute::AnimationWheelSelectSpin(n)).last(),
{
    lemma_decimal_digits(n as nat);
    reveal_strlit(" Select Spin");
    reveal_strlit("Animation Wheel ");
    reveal_strlit("AnimationWheel");
    reveal_strlit("SelectSpin");
    assert(("Animation Wheel "@ + decimal(n as nat) + " Select Spin"@)[0] == "Animation Wheel "@[0]);
    assert(("Animation Wheel "@ + decimal(n as nat) + " Select Spin"@).last() == " Select Spin"@.last());
    assert(("AnimationWheel"@ + decimal(n as nat) + "SelectSpin"@)[0] == "AnimationWheel"@[0]);
    assert(("AnimationWheel"@ + decimal(n as nat) + "SelectSpin"@).last() == "SelectSpin"@.last());
}

proof fn lemma_name_ends_animation_wheel_pos(n: u8)
    ensures
        attribute_pretty(FixtureChannel3Attribute::AnimationWheelPos(n)).len() > 0,
        attribute_text(FixtureChannel3Attribute::AnimationWheelPos(n)).len() > 0,
        attribute_pretty(FixtureChannel3Attribute::AnimationWheelPos(n))[0] == attribute_text(FixtureChannel3Attribute::AnimationWheelPos(n))[0],
{
    lemma_decimal_digits(n as nat);
    reveal_strlit(" Position");
    reveal_strlit("Animation Wheel ");
    reveal_strlit("AnimationWheel");
    reveal_strlit("Pos");
    assert(("Animation Wheel "@ + decimal(n as nat) + " Position"@)[0] == "Animation Wheel "@[0]);
    assert(("AnimationWheel"@ + decimal(n as nat) + "Pos"@)[0] == "AnimationWheel"@[0]);
}

proof fn lemma_name_ends_animation_wheel_pos_rotate(n: u8)
    ensures
        attribute_pretty(FixtureChannel3Attribute::AnimationWheelPosRotate(n)).len() > 0,
        attribute_text(FixtureChannel3Attribute::AnimationWheelPosRotate(n)).len() > 0,
        attribute_pretty(FixtureChannel3Attribute::AnimationWheelPosRotate(n))[0] == attribute_text(FixtureChannel3Attribute::AnimationWheelPosRotate(n))[0],
        attribute_pretty(FixtureChannel3Attribute::AnimationWheelPosRotate(n)).last() == attribute_text(FixtureChannel3Attribute::AnimationWheelPosRotate(n)).last(),
{
    lemma_decimal_digits(n as nat);
    reveal_strlit(" Position Rotate");
    reveal_strlit("Animation Wheel ");
    reveal_strlit("AnimationWheel");
    reveal_strlit("PosRotate");
    assert(("Animation Wheel "@ + decimal(n as nat) + " Position Rotate"@)[0] == "Animation Wheel "@[0]);
    assert(("Animation Wheel "@ + decimal(n as nat) + " Position Rotate"@).last() == " Position Rotate"@.last());
    assert(("AnimationWheel"@ + decimal(n as nat) + "PosRotate"@)[0] == "AnimationWheel"@[0]);
    assert(("AnimationWheel"@ + decimal(n as nat) + "PosRotate"@).last() == "PosRotate"@.last());
}

proof fn lemma_name_ends_animation_wheel_pos_shake(n: u8)
    ensures
        attribute_pretty(FixtureChannel3Attribute::AnimationWheelPosShake(n)).len() > 0,
        attribute_text(FixtureChannel3Attribute::AnimationWheelPosShake(n)).len() > 0,
        attribute_pretty(FixtureChannel3Attribute::AnimationWheelPosShake(n))[0] == attribute_text(FixtureChannel3Attribute::AnimationWheelPosShake(n))[0],
        attribute_pretty(FixtureChannel3Attribute::AnimationWheelPosShake(n)).last() == attribute_text(FixtureChannel3Attribute::AnimationWheelPosShake(n)).last(),
{
    lemma_decimal_digits(n as nat);
    reveal_strlit(" Position Shake");
    reveal_strlit("Animation Wheel ");
    reveal_strlit("AnimationWheel");
    reveal_strlit("PosShake");
    assert(("Animation Wheel "@ + decimal(n as nat) + " Position Shake"@)[0] == "Animation Wheel "@[0]);
    assert(("Animation Wheel "@ + decimal(n as nat) + " Position Shake"@).last() == " Position Shake"@.last());
    assert(("AnimationWheel"@ + decimal(n as nat) + "PosShake"@)[0] == "AnimationWheel"@[0]);
    assert(("AnimationWheel"@ + decimal(n as nat) + "PosShake"@).last() == "PosShake"@.last());
}

proof fn lemma_name_ends_animation_system(n: u8)
    ensures
        attribute_pretty(FixtureChannel3Attribute::AnimationSystem(n)).len() > 0,
        attribute_text(FixtureChannel3Attribute::AnimationSystem(n)).len() > 0,
        attribute_pretty(FixtureChannel3Attribute::AnimationSystem(n))[0] == attribute_text(FixtureChannel3Attribute::AnimationSystem(n))[0],
        attribute_pretty(FixtureChannel3Attribute::AnimationSystem(n)).last() == attribute_text(FixtureChannel3Attribute::AnimationSystem(n)).last(),
{
    lemma_decimal_digits(n as nat);
    reveal_strlit("Animation System ");
    reveal_strlit("AnimationSystem");
    assert(("Animation System "@ + decimal(n as nat))[0] == "Animation System "@[0]);
    assert(("Animation System "@ + decimal(n as nat)).last() == decimal(n as nat).last());
    assert(("AnimationSystem"@ + decimal(n as nat))[0] == "AnimationSystem"@[0]);
    assert(("AnimationSystem"@ + decimal(n as nat)).last() == decimal(n as nat).last());
}

proof fn lemma_name_ends_animation_system_ramp(n: u8)
    ensures
        attribute_pretty(FixtureChannel3Attribute::AnimationSystemRamp(n)).len() > 0,
        attribute_text(FixtureChannel3Attribute::AnimationSystemRamp(n)).len() > 0,
        attribute_pretty(FixtureChannel3Attribute::AnimationSystemRamp(n))[0] == attribute_text(FixtureChannel3Attribute::AnimationSystemRamp(n))[0],
        attribute_pretty(FixtureChannel3Attribute::AnimationSystemRamp(n)).last() == attribute_text(FixtureChannel3Attribute::AnimationSystemRamp(n)).last(),
{
    lemma_decimal_digits(n as nat);
    reveal_strlit(" Ramp");
    reveal_strlit("Animation System ");
    reveal_strlit("AnimationSystem");
    reveal_strlit("Ramp");
    assert(("Animation System "@ + decimal(n as nat) + " Ramp"@)[0] == "Animation System "@[0]);
    assert(("Animation System "@ + decimal(n as nat) + " Ramp"@).last() == " Ramp"@.last());
    assert(("AnimationSystem"@ + decimal(n as nat) + "Ramp"@)[0] == "AnimationSystem"@[0]);
    assert(("AnimationSystem"@ + decimal(n as nat) + "Ramp"@).last() == "Ramp"@.last());
}

proof fn lemma_name_ends_animation_system_shake(n: u8)
    ensures
        attribute_pretty(FixtureChannel3Attribute::AnimationSystemShake(n)).len() > 0,
        attribute_text(FixtureChannel3Attribute::AnimationSystemShake(n)).len() > 0,
        attribute_pretty(FixtureChannel3Attribute::AnimationSystemShake(n))[0] == attribute_text(FixtureChannel3Attribute::AnimationSystemShake(n))[0],
        attribute_pretty(FixtureChannel3Attribute::AnimationSystemShake(n)).last() == attribute_text(FixtureChannel3Attribute::AnimationSystemShake(n)).last(),
{
    lemma_decimal_digits(n as nat);
    reveal_strlit(" Shake");
    reveal_strlit("Animation System ");
    reveal_strlit("AnimationSystem");
    reveal_strlit("Shake");
    assert(("Animation System "@ + decimal(n as nat) + " Shake"@)[0] == "Animation System "@[0]);
    assert(("Animation System "@ + decimal(n as nat) + " Shake"@).last() == " Shake"@.last());
    assert(("AnimationSystem"@ + decimal(n as nat) + "Shake"@)[0] == "AnimationSystem"@[0]);
    assert(("AnimationSystem"@ + decimal(n as nat) + "Shake"@).last() == "Shake"@.last());
}

proof fn lemma_name_ends_animation_system_audio(n: u8)
    ensures
        attribute_pretty(FixtureChannel3Attribute::AnimationSystemAudio(n)).len() > 0,
        attribute_text(FixtureChannel3Attribute::AnimationSystemAudio(n)).len() > 0,
        attribute_pretty(FixtureChannel3Attribute::AnimationSystemAudio(n))[0] == attribute_text(FixtureChannel3Attribute::AnimationSystemAudio(n))[0],
        attribute_pretty(FixtureChannel3Attribute::AnimationSystemAudio(n)).last() == attribute_text(FixtureChannel3Attribute::AnimationSystemAudio(n)).last(),
{
    lemma_decimal_digits(n as nat);
    reveal_strlit(" Audio");
    reveal_strlit("Animation System ");
    reveal_strlit("AnimationSystem");
    reveal_strlit("Audio");
    assert(("Animation System "@ + decimal(n as nat) + " Audio"@)[0] == "Animation System "@[0]);
    assert(("Animation System "@ + decimal(n as nat) + " Audio"@).last() == " Audio"@.last());
    assert(("AnimationSystem"@ + decimal(n as nat) + "Audio"@)[0] == "AnimationSystem"@[0]);
    assert(("AnimationSystem"@ + decimal(n as nat) + "Audio"@).last() == "Audio"@.last());
}

proof fn lemma_name_ends_animation_system_random(n: u8)
    ensures
        attribute_pretty(FixtureChannel3Attribute::AnimationSystemRandom(n)).len() > 0,
        attribute_text(FixtureChannel3Attribute::AnimationSystemRandom(n)).len() > 0,
        attribute_pretty(FixtureChannel3Attribute::AnimationSystemRandom(n))[0] == attribute_text(FixtureChannel3Attribute::AnimationSystemRandom(n))[0],
        attribute_pretty(FixtureChannel3Attribute::AnimationSystemRandom(n)).last() == attribute_text(FixtureChannel3Attribute::AnimationSystemRandom(n)).last(),
{
    lemma_decimal_digits(n as nat);
    reveal_strlit(" Random");
    reveal_strlit("Animation System ");
    reveal_strlit("AnimationSystem");
    reveal_strlit("Random");
    assert(("Animation System "@ + decimal(n as nat) + " Random"@)[0] == "Animation System "@[0]);
    assert(("Animation System "@ + decimal(n as nat) + " Random"@).last() == " Random"@.last());
    assert(("AnimationSystem"@ + decimal(n as nat) + "Random"@)[0] == "AnimationSystem"@[0]);
    assert(("AnimationSystem"@ + decimal(n as nat) + "Random"@).last() == "Random"@.last());
}

proof fn lemma_name_ends_animation_system_pos(n: u8)
    ensures
        attribute_pretty(FixtureChannel3Attribute::AnimationSystemPos(n)).len() > 0,
        attribute_text(FixtureChannel3Attribute::AnimationSystemPos(n)).len() > 0,
        attribute_pretty(FixtureChannel3Attribute::AnimationSystemPos(n))[0] == attribute_text(FixtureChannel3Attribute::AnimationSystemPos(n))[0],
{
    lemma_decimal_digits(n as nat);
    reveal_strlit(" Position");
    reveal_strlit("Animation System ");
    reveal_strlit("AnimationSystem");
    reveal_strlit("Pos");
    assert(("Animation System "@ + decimal(n as nat) + " Position"@)[0] == "Animation System "@[0]);
    assert(("AnimationSystem"@ + decimal(n as nat) + "Pos"@)[0] == "AnimationSystem"@[0]);
}

proof fn lemma_name_ends_animation_system_pos_rotate(n: u8)
    ensures
        attribute_pretty(FixtureChannel3Attribute::AnimationSystemPosRotate(n)).len() > 0,
        attribute_text(FixtureChannel3Attribute::AnimationSystemPosRotate(n)).len() > 0,
        attribute_pretty(FixtureChannel3Attribute::AnimationSystemPosRotate(n))[0] == attribute_text(FixtureChannel3Attribute::AnimationSystemPosRotate(n))[0],
        attribute_pretty(FixtureChannel3Attribute::AnimationSystemPosRotate(n)).last() == attribute_text(FixtureChannel3Attribute::AnimationSystemPosRotate(n)).last(),
{
    lemma_decimal_digits(n as nat);
    reveal_strlit(" Position Rotate");
    reveal_strlit("Animation System ");
    reveal_strlit("AnimationSystem");
    reveal_strlit("PosRotate");
    assert(("Animation System "@ + decimal(n as nat) + " Position Rotate"@)[0] == "Animation System "@[0]);
    assert(("Animation System "@ + decimal(n as nat) + " Position Rotate"@).last() == " Position Rotate"@.last());
    assert(("AnimationSystem"@ + decimal(n as nat) + "PosRotate"@)[0] == "AnimationSystem"@[0]);
    assert(("AnimationSystem"@ + decimal(n as nat) + "PosRotate"@).last() == "PosRotate"@.last());
}

proof fn lemma_name_ends_animation_system_pos_shake(n: u8)
    ensures
        attribute_pretty(FixtureChannel3Attribute::AnimationSystemPosShake(n)).len() > 0,
        attribute_text(FixtureChannel3Attribute::AnimationSystemPosShake(n)).len() > 0,
        attribute_pretty(FixtureChannel3Attribute::AnimationSystemPosShake(n))[0] == attribute_text(FixtureChannel3Attribute::AnimationSystemPosShake(n))[0],
        attribute_pretty(FixtureChannel3Attribute::AnimationSystemPosShake(n)).last() == attribute_text(FixtureChannel3Attribute::AnimationSystemPosShake(n)).last(),
{
    lemma_decimal_digits(n as nat);
    reveal_strlit(" Position Shake");
    reveal_strlit("Animation System ");
    reveal_strlit("AnimationSystem");
    reveal_strlit("PosShake");
    assert(("Animation System "@ + decimal(n as nat) + " Position Shake"@)[0] == "Animation System "@[0]);
    assert(("Animation System "@ + decimal(n as nat) + " Position Shake"@).last() == " Position Shake"@.last());
    assert(("AnimationSystem"@ + decimal(n as nat) + "PosShake"@)[0] == "AnimationSystem"@[0]);
    assert(("AnimationSystem"@ + decimal(n as nat) + "PosShake"@).last() == "PosShake"@.last());
}

proof fn lemma_name_ends_animation_system_pos_random(n: u8)
    ensures
        attribute_pretty(FixtureChannel3Attribute::AnimationSystemPosRandom(n)).len() > 0,
        attribute_text(FixtureChannel3Attribute::AnimationSystemPosRandom(n)).len() > 0,
        attribute_pretty(FixtureChannel3Attribute::AnimationSystemPosRandom(n))[0] == attribute_text(FixtureChannel3Attribute::AnimationSystemPosRandom(n))[0],
        attribute_pretty(FixtureChannel3Attribute::AnimationSystemPosRandom(n)).last() == attribute_text(FixtureChannel3Attribute::AnimationSystemPosRandom(n)).last(),
{
    lemma_decimal_digits(n as nat);
    reveal_strlit(" Position Random");
    reveal_strlit("Animation System ");
    reveal_strlit("AnimationSystem");
    reveal_strlit("PosRandom");
    assert(("Animation System "@ + decimal(n as nat) + " Position Random"@)[0] == "Animation System "@[0]);
    assert(("Animation System "@ + decimal(n as nat) + " Position Random"@).last() == " Position Random"@.last());
    assert(("AnimationSystem"@ + decimal(n as nat) + "PosRandom"@)[0] == "AnimationSystem"@[0]);
    assert(("AnimationSystem"@ + decimal(n as nat) + "PosRandom"@).last() == "PosRandom"@.last());
}

proof fn lemma_name_ends_animation_system_pos_audio(n: u8)
    ensures
        attribute_pretty(FixtureChannel3Attribute::AnimationSystemPosAudio(n)).len() > 0,
        attribute_text(FixtureChannel3Attribute::AnimationSystemPosAudio(n)).len() > 0,
        attribute_pretty(FixtureChannel3Attribute::AnimationSystemPosAudio(n))[0] == attribute_text(FixtureChannel3Attribute::AnimationSystemPosAudio(n))[0],
        attribute_pretty(FixtureChannel3Attribute::AnimationSystemPosAudio(n)).last() == attribute_text(FixtureChannel3Attribute::AnimationSystemPosAudio(n)).last(),
{
    lemma_decimal_digits(n as nat);
    reveal_strlit(" Position Audio");
    reveal_strlit("Animation System ");
    reveal_strlit("AnimationSystem");
    reveal_strlit("PosAudio");
    assert(("Animation System "@ + decimal(n as nat) + " Position Audio"@)[0] == "Animation System "@[0]);
    assert(("Animation System "@ + decimal(n as nat) + " Position Audio"@).last() == " Position Audio"@.last());
    assert(("AnimationSystem"@ + decimal(n as nat) + "PosAudio"@)[0] == "AnimationSystem"@[0]);
    assert(("AnimationSystem"@ + decimal(n as nat) + "PosAudio"@).last() == "PosAudio"@.last());
}

proof fn lemma_name_ends_animation_system_macro(n: u8)
    ensures
        attribute_pretty(FixtureChannel3Attribute::AnimationSystemMacro(n)).len() > 0,
        attribute_text(FixtureChannel3Attribute::AnimationSystemMacro(n)).len() > 0,
        attribute_pretty(FixtureChannel3Attribute::AnimationSystemMacro(n))[0] == attribute_text(FixtureChannel3Attribute::AnimationSystemMacro(n))[0],
        attribute_pretty(FixtureChannel3Attribute::AnimationSystemMacro(n)).last() == attribute_text(FixtureChannel3Attribute::AnimationSystemMacro(n)).last(),
{
    lemma_decimal_digits(n as nat);
    reveal_strlit(" Macro");
    reveal_strlit("Animation System ");
    reveal_strlit("AnimationSystem");
    reveal_strlit("Macro");
    assert(("Animation System "@ + decimal(n as nat) + " Macro"@)[0] == "Animation System "@[0]);
    assert(("Animation System "@ + decimal(n as nat) + " Macro"@).last() == " Macro"@.last());
    assert(("AnimationSystem"@ + decimal(n as nat) + "Macro"@)[0] == "AnimationSystem"@[0]);
    assert(("AnimationSystem"@ + decimal(n as nat) + "Macro"@).last() == "Macro"@.last());
}

proof fn lemma_name_ends_media_folder(n: u8)
    ensures
        attribute_pretty(FixtureChannel3Attribute::MediaFolder(n)).len() > 0,
        attribute_text(FixtureChannel3Attribute::MediaFolder(n)).len() > 0,
        attribute_pretty(FixtureChannel3Attribute::MediaFolder(n))[0] == attribute_text(FixtureChannel3Attribute::MediaFolder(n))[0],
        attribute_pretty(FixtureChannel3Attribute::MediaFolder(n)).last() == attribute_text(FixtureChannel3Attribute::MediaFolder(n)).last(),
{
    lemma_decimal_digits(n as nat);
    reveal_strlit("Media Folder ");
    reveal_strlit("MediaFolder");
    assert(("Media Folder "@ + decimal(n as nat))[0] == "Media Folder "@[0]);
    assert(("Media Folder "@ + decimal(n as nat)).last() == decimal(n as nat).last());
    assert(("MediaFolder"@ + decimal(n as nat))[0] == "MediaFolder"@[0]);
    assert(("MediaFolder"@ + decimal(n as nat)).last() == decimal(n as nat).last());
}

proof fn lemma_name_ends_media_content(n: u8)
    ensures
        attribute_pretty(FixtureChannel3Attribute::MediaContent(n)).len() > 0,
        attribute_text(FixtureChannel3Attribute::MediaContent(n)).len() > 0,
        attribute_pretty(FixtureChannel3Attribute::MediaContent(n))[0] == attribute_text(FixtureChannel3Attribute::MediaContent(n))[0],
        attribute_pretty(FixtureChannel3Attribute::MediaContent(n)).last() == attribute_text(FixtureChannel3Attribute::MediaContent(n)).last(),
{
    lemma_decimal_digits(n as nat);
    reveal_strlit("Media Content ");
    reveal_strlit("MediaContent");
    assert(("Media Content "@ + decimal(n as nat))[0] == "Media Content "@[0]);
    assert(("Media Content "@ + decimal(n as nat)).last() == decimal(n as nat).last());
    assert(("MediaContent"@ + decimal(n as nat))[0] == "MediaContent"@[0]);
    assert(("MediaContent"@ + decimal(n as nat)).last() == decimal(n as nat).last());
}

proof fn lemma_name_ends_model_folder(n: u8)
    ensures
        attribute_pretty(FixtureChannel3Attribute::ModelFolder(n)).len() > 0,
        attribute_text(FixtureChannel3Attribute::ModelFolder(n)).len() > 0,
        attribute_pretty(FixtureChannel3Attribute::ModelFolder(n))[0] == attribute_text(FixtureChannel3Attribute::ModelFolder(n))[0],
        attribute_pretty(FixtureChannel3Attribute::ModelFolder(n)).last() == attribute_text(FixtureChannel3Attribute::ModelFolder(n)).last(),
{
    lemma_decimal_digits(n as nat);
    reveal_strlit("Model Folder ");
    reveal_strlit("ModelFolder");
    assert(("Model Folder "@ + decimal(n as nat))[0] == "Model Folder "@[0]);
    assert(("Model Folder "@ + decimal(n as nat)).last() == decimal(n as nat).last());
    assert(("ModelFolder"@ + decimal(n as nat))[0] == "ModelFolder"@[0]);
    assert(("ModelFolder"@ + decimal(n as nat)).last() == decimal(n as nat).last());
}

proof fn lemma_name_ends_model_content(n: u8)
    ensures
        attribute_pretty(FixtureChannel3Attribute::ModelContent(n)).len() > 0,
        attribute_text(FixtureChannel3Attribute::ModelContent(n)).len() > 0,
        attribute_pretty(FixtureChannel3Attribute::ModelContent(n))[0] == attribute_text(FixtureChannel3Attribute::ModelContent(n))[0],
        attribute_pretty(FixtureChannel3Attribute::ModelContent(n)).last() == attribute_text(FixtureChannel3Attribute::ModelContent(n)).last(),
{
    lemma_decimal_digits(n as nat);
    reveal_strlit("Model Content ");
    reveal_strlit("ModelContent");
    assert(("Model Content "@ + decimal(n as nat))[0] == "Model Content "@[0]);
    assert(("Model Content "@ + decimal(n as nat)).last() == decimal(n as nat).last());
    assert(("ModelContent"@ + decimal(n as nat))[0] == "ModelContent"@[0]);
    assert(("ModelContent"@ + decimal(n as nat)).last() == decimal(n as nat).last());
}

proof fn lemma_name_ends_color_effects(n: u8)
    ensures
        attribute_pretty(FixtureChannel3Attribute::ColorEffects(n)).len() > 0,
        attribute_text(FixtureChannel3Attribute::ColorEffects(n)).len() > 0,
        attribute_pretty(FixtureChannel3Attribute::ColorEffects(n))[0] == attribute_text(FixtureChannel3Attribute::ColorEffects(n))[0],
        attribute_pretty(FixtureChannel3Attribute::ColorEffects(n)).last() == attribute_text(FixtureChannel3Attribute::ColorEffects(n)).last(),
{
    lemma_decimal_digits(n as nat);
    reveal_strlit("Color Effects ");
    reveal_strlit("ColorEffects");
    assert(("Color Effects "@ + decimal(n as nat))[0] == "Color Effects "@[0]);
    assert(("Color Effects "@ + decimal(n as nat)).last() == decimal(n as nat).last());
    assert(("ColorEffects"@ + decimal(n as nat))[0] == "ColorEffects"@[0]);
    assert(("ColorEffects"@ + decimal(n as nat)).last() == decimal(n as nat).last());
}

proof fn lemma_name_ends_color(n: u8)
    ensures
        attribute_pretty(FixtureChannel3Attribute::Color(n)).len() > 0,
        attribute_text(FixtureChannel3Attribute::Color(n)).len() > 0,
        attribute_pretty(FixtureChannel3Attribute::Color(n))[0] == attribute_text(FixtureChannel3Attribute::Color(n))[0],
        attribute_pretty(FixtureChannel3Attribute::Color(n)).last() == attribute_text(FixtureChannel3Attribute::Color(n)).last(),
{
    lemma_decimal_digits(n as nat);
    reveal_strlit("Color");
    reveal_strlit("Color ");
    assert(("Color "@ + decimal(n as nat))[0] == "Color "@[0]);
    assert(("Color "@ + decimal(n as nat)).last() == decimal(n as nat).last());
    assert(("Color"@ + decimal(n as nat))[0] == "Color"@[0]);
    assert(("Color"@ + decimal(n as nat)).last() == decimal(n as nat).last());
}

proof fn lemma_name_ends_color_wheel_index(n: u8)
    ensures
        attribute_pretty(FixtureChannel3Attribute::ColorWheelIndex(n)).len() > 0,
        attribute_text(FixtureChannel3Attribute::ColorWheelIndex(n)).len() > 0,
        attribute_pretty(FixtureChannel3Attribute::ColorWheelIndex(n))[0] == attribute_text(FixtureChannel3Attribute::ColorWheelIndex(n))[0],
        attribute_pretty(FixtureChannel3Attribute::ColorWheelIndex(n)).last() == attribute_text(FixtureChannel3Attribute::ColorWheelIndex(n)).last(),
{
    lemma_decimal_digits(n as nat);
    reveal_strlit(" Index");
    reveal_strlit("Color Wheel ");
    reveal_strlit("ColorWheel");
    reveal_strlit("Index");
    assert(("Color Wheel "@ + decimal(n as nat) + " Index"@)[0] == "Color Wheel "@[0]);
    assert(("Color Wheel "@ + decimal(n as nat) + " Index"@).last() == " Index"@.last());
    assert(("ColorWheel"@ + decimal(n as nat) + "Index"@)[0] == "ColorWheel"@[0]);
    assert(("ColorWheel"@ + decimal(n as nat) + "Index"@).last() == "Index"@.last());
}

proof fn lemma_name_ends_color_wheel_spin(n: u8)
    ensures
        attribute_pretty(FixtureChannel3Attribute::ColorWheelSpin(n)).len() > 0,
        attribute_text(FixtureChannel3Attribute::ColorWheelSpin(n)).len() > 0,
        attribute_pretty(FixtureChannel3Attribute::ColorWheelSpin(n))[0] == attribute_text(FixtureChannel3Attribute::ColorWheelSpin(n))[0],
        attribute_pretty(FixtureChannel3Attribute::ColorWheelSpin(n)).last() == attribute_text(FixtureChannel3Attribute::ColorWheelSpin(n)).last(),
{
    lemma_decimal_digits(n as nat);
    reveal_strlit(" Spin");
    reveal_strlit("Color Wheel ");
    reveal_strlit("ColorWheel");
    reveal_strlit("Spin");
    assert(("Color Wheel "@ + decimal(n as nat) + " Spin"@)[0] == "Color Wheel "@[0]);
    assert(("Color Wheel "@ + decimal(n as nat) + " Spin"@).last() == " Spin"@.last());
    assert(("ColorWheel"@ + decimal(n as nat) + "Spin"@)[0] == "ColorWheel"@[0]);
    assert(("ColorWheel"@ + decimal(n as nat) + "Spin"@).last() == "Spin"@.last());
}

proof fn lemma_name_ends_color_wheel_random(n: u8)
    ensures
        attribute_pretty(FixtureChannel3Attribute::ColorWheelRandom(n)).len() > 0,
        attribute_text(FixtureChannel3Attribute::ColorWheelRandom(n)).len() > 0,
        attribute_pretty(FixtureChannel3Attribute::ColorWheelRandom(n))[0] == attribute_text(FixtureChannel3Attribute::ColorWheelRandom(n))[0],
        attribute_pretty(FixtureChannel3Attribute::ColorWheelRandom(n)).last() == attribute_text(FixtureChannel3Attribute::ColorWheelRandom(n)).last(),
{
    lemma_decimal_digits(n as nat);
    reveal_strlit(" Random");
    reveal_strlit("Color Wheel ");
    reveal_strlit("ColorWheel");
    reveal_strlit("Random");
    assert(("Color Wheel "@ + decimal(n as nat) + " Random"@)[0] == "Color Wheel "@[0]);
    assert(("Color Wheel "@ + decimal(n as nat) + " Random"@).last() == " Random"@.last());
    assert(("ColorWheel"@ + decimal(n as nat) + "Random"@)[0] == "ColorWheel"@[0]);
    assert(("ColorWheel"@ + decimal(n as nat) + "Random"@).last() == "Random"@.last());
}

proof fn lemma_name_ends_color_wheel_audio(n: u8)
    ensures
        attribute_pretty(FixtureChannel3Attribute::ColorWheelAudio(n)).len() > 0,
        attribute_text(FixtureChannel3Attribute::ColorWheelAudio(n)).len() > 0,
        attribute_pretty(FixtureChannel3Attribute::ColorWheelAudio(n))[0] == attribute_text(FixtureChannel3Attribute::ColorWheelAudio(n))[0],
        attribute_pretty(FixtureChannel3Attribute::ColorWheelAudio(n)).last() == attribute_text(FixtureChannel3Attribute::ColorWheelAudio(n)).last(),
{
    lemma_decimal_digits(n as nat);
    reveal_strlit(" Audio");
    reveal_strlit("Audio");
    reveal_strlit("Color Wheel ");
    reveal_strlit("ColorWheel");
    assert(("Color Wheel "@ + decimal(n as nat) + " Audio"@)[0] == "Color Wheel "@[0]);
    assert(("Color Wheel "@ + decimal(n as nat) + " Audio"@).last() == " Audio"@.last());
    assert(("ColorWheel"@ + decimal(n as nat) + "Audio"@)[0] == "ColorWheel"@[0]);
    assert(("ColorWheel"@ + decimal(n as nat) + "Audio"@).last() == "Audio"@.last());
}

proof fn lemma_name_ends_color_macro(n: u8)
    ensures
        attribute_pretty(FixtureChannel3Attribute::ColorMacro(n)).len() > 0,
        attribute_text(FixtureChannel3Attribute::ColorMacro(n)).len() > 0,
        attribute_pretty(FixtureChannel3Attribute::ColorMacro(n))[0] == attribute_text(FixtureChannel3Attribute::ColorMacro(n))[0],
        attribute_pretty(FixtureChannel3Attribute::ColorMacro(n)).last() == attribute_text(FixtureChannel3Attribute::ColorMacro(n)).last(),
{
    lemma_decimal_digits(n as nat);
    reveal_strlit("Color Macro ");
    reveal_strlit("ColorMacro");
    assert(("Color Macro "@ + decimal(n as nat))[0] == "Color Macro "@[0]);
    assert(("Color Macro "@ + decimal(n as nat)).last() == decimal(n as nat).last());
    assert(("ColorMacro"@ + decimal(n as nat))[0] == "ColorMacro"@[0]);
    assert(("ColorMacro"@ + decimal(n as nat)).last() == decimal(n as nat).last());
}

proof fn lemma_name_ends_color_macro_rate(n: u8)
    ensures
        attribute_pretty(FixtureChannel3Attribute::ColorMacroRate(n)).len() > 0,
        attribute_text(FixtureChannel3Attribute::ColorMacroRate(n)).len() > 0,
        attribute_pretty(FixtureChannel3Attribute::ColorMacroRate(n))[0] == attribute_text(FixtureChannel3Attribute::ColorMacroRate(n))[0],
        attribute_pretty(FixtureChannel3Attribute::ColorMacroRate(n)).last() == attribute_text(FixtureChannel3Attribute::ColorMacroRate(n)).last(),
{
    lemma_decimal_digits(n as nat);
    reveal_strlit("Color Macro Rate ");
    reveal_strlit("ColorMacroRate");
    assert(("Color Macro Rate "@ + decimal(n as nat))[0] == "Color Macro Rate "@[0]);
    assert(("Color Macro Rate "@ + decimal(n as nat)).last() == decimal(n as nat).last());
    assert(("ColorMacroRate"@ + decimal(n as nat))[0] == "ColorMacroRate"@[0]);
    assert(("ColorMacroRate"@ + decimal(n as nat)).last() == decimal(n as nat).last());
}

proof fn lemma_name_ends_shutter(n: u8)
    ensures
        attribute_pretty(FixtureChannel3Attribute::Shutter(n)).len() > 0,
        attribute_text(FixtureChannel3Attribute::Shutter(n)).len() > 0,
        attribute_pretty(FixtureChannel3Attribute::Shutter(n))[0] == attribute_text(FixtureChannel3Attribute::Shutter(n))[0],
        attribute_pretty(FixtureChannel3Attribute::Shutter(n)).last() == attribute_text(FixtureChannel3Attribute::Shutter(n)).last(),
{
    lemma_decimal_digits(n as nat);
    reveal_strlit("Shutter");
    reveal_strlit("Shutter ");
    assert(("Shutter "@ + decimal(n as nat))[0] == "Shutter "@[0]);
    assert(("Shutter "@ + decimal(n as nat)).last() == decimal(n as nat).last());
    assert(("Shutter"@ + decimal(n as nat))[0] == "Shutter"@[0]);
    assert(("Shutter"@ + decimal(n as nat)).last() == decimal(n as nat).last());
}

proof fn lemma_name_ends_shutter_strobe(n: u8)
    ensures
        attribute_pretty(FixtureChannel3Attribute::ShutterStrobe(n)).len() > 0,
        attribute_text(FixtureChannel3Attribute::ShutterStrobe(n)).len() > 0,
        attribute_pretty(FixtureChannel3Attribute::ShutterStrobe(n))[0] == attribute_text(FixtureChannel3Attribute::ShutterStrobe(n))[0],
        attribute_pretty(FixtureChannel3Attribute::ShutterStrobe(n)).last() == attribute_text(FixtureChannel3Attribute::ShutterStrobe(n)).last(),
{
    lemma_decimal_digits(n as nat);
    reveal_strlit(" Strobe");
    reveal_strlit("Shutter");
    reveal_strlit("Shutter ");
    reveal_strlit("Strobe");
    assert(("Shutter "@ + decimal(n as nat) + " Strobe"@)[0] == "Shutter "@[0]);
    assert(("Shutter "@ + decimal(n as nat) + " Strobe"@).last() == " Strobe"@.last());
    assert(("Shutter"@ + decimal(n as nat) + "Strobe"@)[0] == "Shutter"@[0]);
    assert(("Shutter"@ + decimal(n as nat) + "Strobe"@).last() == "Strobe"@.last());
}

proof fn lemma_name_ends_shutter_strobe_pulse(n: u8)
    ensures
        attribute_pretty(FixtureChannel3Attribute::ShutterStrobePulse(n)).len() > 0,
        attribute_text(FixtureChannel3Attribute::ShutterStrobePulse(n)).len() > 0,
        attribute_pretty(FixtureChannel3Attribute::ShutterStrobePulse(n))[0] == attribute_text(FixtureChannel3Attribute::ShutterStrobePulse(n))[0],
        attribute_pretty(FixtureChannel3Attribute::ShutterStrobePulse(n)).last() == attribute_text(FixtureChannel3Attribute::ShutterStrobePulse(n)).last(),
{
    lemma_decimal_digits(n as nat);
    reveal_strlit(" Strobe Pulse");
    reveal_strlit("Shutter");
    reveal_strlit("Shutter ");
    reveal_strlit("StrobePulse");
    assert(("Shutter "@ + decimal(n as nat) + " Strobe Pulse"@)[0] == "Shutter "@[0]);
    assert(("Shutter "@ + decimal(n as nat) + " Strobe Pulse"@).last() == " Strobe Pulse"@.last());
    assert(("Shutter"@ + decimal(n as nat) + "StrobePulse"@)[0] == "Shutter"@[0]);
    assert(("Shutter"@ + decimal(n as nat) + "StrobePulse"@).last() == "StrobePulse"@.last());
}

proof fn lemma_name_ends_shutter_strobe_pulse_close(n: u8)
    ensures
        attribute_pretty(FixtureChannel3Attribute::ShutterStrobePulseClose(n)).len() > 0,
        attribute_text(FixtureChannel3Attribute::ShutterStrobePulseClose(n)).len() > 0,
        attribute_pretty(FixtureChannel3Attribute::ShutterStrobePulseClose(n))[0] == attribute_text(FixtureChannel3Attribute::ShutterStrobePulseClose(n))[0],
        attribute_pretty(FixtureChannel3Attribute::ShutterStrobePulseClose(n)).last() == attribute_text(FixtureChannel3Attribute::ShutterStrobePulseClose(n)).last(),
{
    lemma_decimal_digits(n as nat);
    reveal_strlit(" Strobe Pulse Close");
    reveal_strlit("Shutter");
    reveal_strlit("Shutter ");
    reveal_strlit("StrobePulseClose");
    assert(("Shutter "@ + decimal(n as nat) + " Strobe Pulse Close"@)[0] == "Shutter "@[0]);
    assert(("Shutter "@ + decimal(n as nat) + " Strobe Pulse Close"@).last() == " Strobe Pulse Close"@.last());
    assert(("Shutter"@ + decimal(n as nat) + "StrobePulseClose"@)[0] == "Shutter"@[0]);
    assert(("Shutter"@ + decimal(n as nat) + "StrobePulseClose"@).last() == "StrobePulseClose"@.last());
}

proof fn lemma_name_ends_shutter_strobe_pulse_open(n: u8)
    ensures
        attribute_pretty(FixtureChannel3Attribute::ShutterStrobePulseOpen(n)).len() > 0,
        attribute_text(FixtureChannel3Attribute::ShutterStrobePulseOpen(n)).len() > 0,
        attribute_pretty(FixtureChannel3Attribute::ShutterStrobePulseOpen(n))[0] == attribute_text(FixtureChannel3Attribute::ShutterStrobePulseOpen(n))[0],
        attribute_pretty(FixtureChannel3Attribute::ShutterStrobePulseOpen(n)).last() == attribute_text(FixtureChannel3Attribute::ShutterStrobePulseOpen(n)).last(),
{
    lemma_decimal_digits(n as nat);
    reveal_strlit(" Strobe Pulse Open");
    reveal_strlit("Shutter");
    reveal_strlit("Shutter ");
    reveal_strlit("StrobePulseOpen");
    assert(("Shutter "@ + decimal(n as nat) + " Strobe Pulse Open"@)[0] == "Shutter "@[0]);
    assert(("Shutter "@ + decimal(n as nat) + " Strobe Pulse Open"@).last() == " Strobe Pulse Open"@.last());
    assert(("Shutter"@ + decimal(n as nat) + "StrobePulseOpen"@)[0] == "Shutter"@[0]);
    assert(("Shutter"@ + decimal(n as nat) + "StrobePulseOpen"@).last() == "StrobePulseOpen"@.last());
}

proof fn lemma_name_ends_shutter_strobe_random(n: u8)
    ensures
        attribute_pretty(FixtureChannel3Attribute::ShutterStrobeRandom(n)).len() > 0,
        attribute_text(FixtureChannel3Attribute::ShutterStrobeRandom(n)).len() > 0,
        attribute_pretty(FixtureChannel3Attribute::ShutterStrobeRandom(n))[0] == attribute_text(FixtureChannel3Attribute::ShutterStrobeRandom(n))[0],
        attribute_pretty(FixtureChannel3Attribute::ShutterStrobeRandom(n)).last() == attribute_text(FixtureChannel3Attribute::ShutterStrobeRandom(n)).last(),
{
    lemma_decimal_digits(n as nat);
    reveal_strlit(" Strobe Random");
    reveal_strlit("Shutter");
    reveal_strlit("Shutter ");
    reveal_strlit("StrobeRandom");
    assert(("Shutter "@ + decimal(n as nat) + " Strobe Random"@)[0] == "Shutter "@[0]);
    assert(("Shutter "@ + decimal(n as nat) + " Strobe Random"@).last() == " Strobe Random"@.last());
    assert(("Shutter"@ + decimal(n as nat) + "StrobeRandom"@)[0] == "Shutter"@[0]);
    assert(("Shutter"@ + decimal(n as nat) + "StrobeRandom"@).last() == "StrobeRandom"@.last());
}

proof fn lemma_name_ends_shutter_strobe_random_pulse(n: u8)
    ensures
        attribute_pretty(FixtureChannel3Attribute::ShutterStrobeRandomPulse(n)).len() > 0,
        attribute_text(FixtureChannel3Attribute::ShutterStrobeRandomPulse(n)).len() > 0,
        attribute_pretty(FixtureChannel3Attribute::ShutterStrobeRandomPulse(n))[0] == attribute_text(FixtureChannel3Attribute::ShutterStrobeRandomPulse(n))[0],
        attribute_pretty(FixtureChannel3Attribute::ShutterStrobeRandomPulse(n)).last() == attribute_text(FixtureChannel3Attribute::ShutterStrobeRandomPulse(n)).last(),
{
    lemma_decimal_digits(n as nat);
    reveal_strlit(" Strobe Random Pulse");
    reveal_strlit("Shutter");
    reveal_strlit("Shutter ");
    reveal_strlit("StrobeRandomPulse");
    assert(("Shutter "@ + decimal(n as nat) + " Strobe Random Pulse"@)[0] == "Shutter "@[0]);
    assert(("Shutter "@ + decimal(n as nat) + " Strobe Random Pulse"@).last() == " Strobe Random Pulse"@.last());
    assert(("Shutter"@ + decimal(n as nat) + "StrobeRandomPulse"@)[0] == "Shutter"@[0]);
    assert(("Shutter"@ + decimal(n as nat) + "StrobeRandomPulse"@).last() == "StrobeRandomPulse"@.last());
}

proof fn lemma_name_ends_shutter_strobe_random_pulse_close(n: u8)
    ensures
        attribute_pretty(FixtureChannel3Attribute::ShutterStrobeRandomPulseClose(n)).len() > 0,
        attribute_text(FixtureChannel3Attribute::ShutterStrobeRandomPulseClose(n)).len() > 0,
        attribute_pretty(FixtureChannel3Attribute::ShutterStrobeRandomPulseClose(n))[0] == attribute_text(FixtureChannel3Attribute::ShutterStrobeRandomPulseClose(n))[0],
        attribute_pretty(FixtureChannel3Attribute::ShutterStrobeRandomPulseClose(n)).last() == attribute_text(FixtureChannel3Attribute::ShutterStrobeRandomPulseClose(n)).last(),
{
    lemma_decimal_digits(n as nat);
    reveal_strlit(" Strobe Random Pulse Close");
    reveal_strlit("Shutter");
    reveal_strlit("Shutter ");
    reveal_strlit("StrobeRandomPulseClose");
    assert(("Shutter "@ + decimal(n as nat) + " Strobe Random Pulse Close"@)[0] == "Shutter "@[0]);
    assert(("Shutter "@ + decimal(n as nat) + " Strobe Random Pulse Close"@).last() == " Strobe Random Pulse Close"@.last());
    assert(("Shutter"@ + decimal(n as nat) + "StrobeRandomPulseClose"@)[0] == "Shutter"@[0]);
    assert(("Shutter"@ + decimal(n as nat) + "StrobeRandomPulseClose"@).last() == "StrobeRandomPulseClose"@.last());
}

proof fn lemma_name_ends_shutter_strobe_random_pulse_open(n: u8)
    ensures
        attribute_pretty(FixtureChannel3Attribute::ShutterStrobeRandomPulseOpen(n)).len() > 0,
        attribute_text(FixtureChannel3Attribute::ShutterStrobeRandomPulseOpen(n)).len() > 0,
        attribute_pretty(FixtureChannel3Attribute::ShutterStrobeRandomPulseOpen(n))[0] == attribute_text(FixtureChannel3Attribute::ShutterStrobeRandomPulseOpen(n))[0],
        attribute_pretty(FixtureChannel3Attribute::ShutterStrobeRandomPulseOpen(n)).last() == attribute_text(FixtureChannel3Attribute::ShutterStrobeRandomPulseOpen(n)).last(),
{
    lemma_decimal_digits(n as nat);
    reveal_strlit(" Strobe Random Pulse Open");
    reveal_strlit("Shutter");
    reveal_strlit("Shutter ");
    reveal_strlit("StrobeRandomPulseOpen");
    assert(("Shutter "@ + decimal(n as nat) + " Strobe Random Pulse Open"@)[0] == "Shutter "@[0]);
    assert(("Shutter "@ + decimal(n as nat) + " Strobe Random Pulse Open"@).last() == " Strobe Random Pulse Open"@.last());
    assert(("Shutter"@ + decimal(n as nat) + "StrobeRandomPulseOpen"@)[0] == "Shutter"@[0]);
    assert(("Shutter"@ + decimal(n as nat) + "StrobeRandomPulseOpen"@).last() == "StrobeRandomPulseOpen"@.last());
}

proof fn lemma_name_ends_shutter_strobe_effect(n: u8)
    ensures
        attribute_pretty(FixtureChannel3Attribute::ShutterStrobeEffect(n)).len() > 0,
        attribute_text(FixtureChannel3Attribute::ShutterStrobeEffect(n)).len() > 0,
        attribute_pretty(FixtureChannel3Attribute::ShutterStrobeEffect(n))[0] == attribute_text(FixtureChannel3Attribute::ShutterStrobeEffect(n))[0],
        attribute_pretty(FixtureChannel3Attribute::ShutterStrobeEffect(n)).last() == attribute_text(FixtureChannel3Attribute::ShutterStrobeEffect(n)).last(),
{
    lemma_decimal_digits(n as nat);
    reveal_strlit(" Strobe Effect");
    reveal_strlit("Shutter");
    reveal_strlit("Shutter ");
    reveal_strlit("StrobeEffect");
    assert(("Shutter "@ + decimal(n as nat) + " Strobe Effect"@)[0] == "Shutter "@[0]);
    assert(("Shutter "@ + decimal(n as nat) + " Strobe Effect"@).last() == " Strobe Effect"@.last());
    assert(("Shutter"@ + decimal(n as nat) + "StrobeEffect"@)[0] == "Shutter"@[0]);
    assert(("Shutter"@ + decimal(n as nat) + "StrobeEffect"@).last() == "StrobeEffect"@.last());
}

proof fn lemma_name_ends_frost(n: u8)
    ensures
        attribute_pretty(FixtureChannel3Attribute::Frost(n)).len() > 0,
        attribute_text(FixtureChannel3Attribute::Frost(n)).len() > 0,
        attribute_pretty(FixtureChannel3Attribute::Frost(n))[0] == attribute_text(FixtureChannel3Attribute::Frost(n))[0],
        attribute_pretty(FixtureChannel3Attribute::Frost(n)).last() == attribute_text(FixtureChannel3Attribute::Frost(n)).last(),
{
    lemma_decimal_digits(n as nat);
    reveal_strlit("Frost");
    reveal_strlit("Frost ");
    assert(("Frost "@ + decimal(n as nat))[0] == "Frost "@[0]);
    assert(("Frost "@ + decimal(n as nat)).last() == decimal(n as nat).last());
    assert(("Frost"@ + decimal(n as nat))[0] == "Frost"@[0]);
    assert(("Frost"@ + decimal(n as nat)).last() == decimal(n as nat).last());
}

proof fn lemma_name_ends_frost_pulse_open(n: u8)
    ensures
        attribute_pretty(FixtureChannel3Attribute::FrostPulseOpen(n)).len() > 0,
        attribute_text(FixtureChannel3Attribute::FrostPulseOpen(n)).len() > 0,
        attribute_pretty(FixtureChannel3Attribute::FrostPulseOpen(n))[0] == attribute_text(FixtureChannel3Attribute::FrostPulseOpen(n))[0],
        attribute_pretty(FixtureChannel3Attribute::FrostPulseOpen(n)).last() == attribute_text(FixtureChannel3Attribute::FrostPulseOpen(n)).last(),
{
    lemma_decimal_digits(n as nat);
    reveal_strlit(" Pulse Open");
    reveal_strlit("Frost");
    reveal_strlit("Frost ");
    reveal_strlit("PulseOpen");
    assert(("Frost "@ + decimal(n as nat) + " Pulse Open"@)[0] == "Frost "@[0]);
    assert(("Frost "@ + decimal(n as nat) + " Pulse Open"@).last() == " Pulse Open"@.last());
    assert(("Frost"@ + decimal(n as nat) + "PulseOpen"@)[0] == "Frost"@[0]);
    assert(("Frost"@ + decimal(n as nat) + "PulseOpen"@).last() == "PulseOpen"@.last());
}

proof fn lemma_name_ends_frost_pulse_close(n: u8)
    ensures
        attribute_pretty(FixtureChannel3Attribute::FrostPulseClose(n)).len() > 0,
        attribute_text(FixtureChannel3Attribute::FrostPulseClose(n)).len() > 0,
        attribute_pretty(FixtureChannel3Attribute::FrostPulseClose(n))[0] == attribute_text(FixtureChannel3Attribute::FrostPulseClose(n))[0],
        attribute_pretty(FixtureChannel3Attribute::FrostPulseClose(n)).last() == attribute_text(FixtureChannel3Attribute::FrostPulseClose(n)).last(),
{
    lemma_decimal_digits(n as nat);
    reveal_strlit(" Pulse Close");
    reveal_strlit("Frost");
    reveal_strlit("Frost ");
    reveal_strlit("PulseClose");
    assert(("Frost "@ + decimal(n as nat) + " Pulse Close"@)[0] == "Frost "@[0]);
    assert(("Frost "@ + decimal(n as nat) + " Pulse Close"@).last() == " Pulse Close"@.last());
    assert(("Frost"@ + decimal(n as nat) + "PulseClose"@)[0] == "Frost"@[0]);
    assert(("Frost"@ + decimal(n as nat) + "PulseClose"@).last() == "PulseClose"@.last());
}

proof fn lemma_name_ends_frost_ramp(n: u8)
    ensures
        attribute_pretty(FixtureChannel3Attribute::FrostRamp(n)).len() > 0,
        attribute_text(FixtureChannel3Attribute::FrostRamp(n)).len() > 0,
        attribute_pretty(FixtureChannel3Attribute::FrostRamp(n))[0] == attribute_text(FixtureChannel3Attribute::FrostRamp(n))[0],
        attribute_pretty(FixtureChannel3Attribute::FrostRamp(n)).last() == attribute_text(FixtureChannel3Attribute::FrostRamp(n)).last(),
{
    lemma_decimal_digits(n as nat);
    reveal_strlit(" Ramp");
    reveal_strlit("Frost");
    reveal_strlit("Frost ");
    reveal_strlit("Ramp");
    assert(("Frost "@ + decimal(n as nat) + " Ramp"@)[0] == "Frost "@[0]);
    assert(("Frost "@ + decimal(n as nat) + " Ramp"@).last() == " Ramp"@.last());
    assert(("Frost"@ + decimal(n as nat) + "Ramp"@)[0] == "Frost"@[0]);
    assert(("Frost"@ + decimal(n as nat) + "Ramp"@).last() == "Ramp"@.last());
}

proof fn lemma_name_ends_prism(n: u8)
    ensures
        attribute_pretty(FixtureChannel3Attribute::Prism(n)).len() > 0,
        attribute_text(FixtureChannel3Attribute::Prism(n)).len() > 0,
        attribute_pretty(FixtureChannel3Attribute::Prism(n))[0] == attribute_text(FixtureChannel3Attribute::Prism(n))[0],
        attribute_pretty(FixtureChannel3Attribute::Prism(n)).last() == attribute_text(FixtureChannel3Attribute::Prism(n)).last(),
{
    lemma_decimal_digits(n as nat);
    reveal_strlit("Prism");
    reveal_strlit("Prism ");
    assert(("Prism "@ + decimal(n as nat))[0] == "Prism "@[0]);
    assert(("Prism "@ + decimal(n as nat)).last() == decimal(n as nat).last());
    assert(("Prism"@ + decimal(n as nat))[0] == "Prism"@[0]);
    assert(("Prism"@ + decimal(n as nat)).last() == decimal(n as nat).last());
}

proof fn lemma_name_ends_prism_select_spin(n: u8)
    ensures
        attribute_pretty(FixtureChannel3Attribute::PrismSelectSpin(n)).len() > 0,
        attribute_text(FixtureChannel3Attribute::PrismSelectSpin(n)).len() > 0,
        attribute_pretty(FixtureChannel3Attribute::PrismSelectSpin(n))[0] == attribute_text(FixtureChannel3Attribute::PrismSelectSpin(n))[0],
        attribute_pretty(FixtureChannel3Attribute::PrismSelectSpin(n)).last() == attribute_text(FixtureChannel3Attribute::PrismSelectSpin(n)).last(),
{
    lemma_decimal_digits(n as nat);
    reveal_strlit(" Select Spin");
    reveal_strlit("Prism");
    reveal_strlit("Prism ");
    reveal_strlit("SelectSpin");
    assert(("Prism "@ + decimal(n as nat) + " Select Spin"@)[0] == "Prism "@[0]);
    assert(("Prism "@ + decimal(n as nat) + " Select Spin"@).last() == " Select Spin"@.last());
    assert(("Prism"@ + decimal(n as nat) + "SelectSpin"@)[0] == "Prism"@[0]);
    assert(("Prism"@ + decimal(n as nat) + "SelectSpin"@).last() == "SelectSpin"@.last());
}

proof fn lemma_name_ends_prism_macro(n: u8)
    ensures
        attribute_pretty(FixtureChannel3Attribute::PrismMacro(n)).len() > 0,
        attribute_text(FixtureChannel3Attribute::PrismMacro(n)).len() > 0,
        attribute_pretty(FixtureChannel3Attribute::PrismMacro(n))[0] == attribute_text(FixtureChannel3Attribute::PrismMacro(n))[0],
        attribute_pretty(FixtureChannel3Attribute::PrismMacro(n)).last() == attribute_text(FixtureChannel3Attribute::PrismMacro(n)).last(),
{
    lemma_decimal_digits(n as nat);
    reveal_strlit(" Macro");
    reveal_strlit("Macro");
    reveal_strlit("Prism");
    reveal_strlit("Prism ");
    assert(("Prism "@ + decimal(n as nat) + " Macro"@)[0] == "Prism "@[0]);
    assert(("Prism "@ + decimal(n as nat) + " Macro"@).last() == " Macro"@.last());
    assert(("Prism"@ + decimal(n as nat) + "Macro"@)[0] == "Prism"@[0]);
    assert(("Prism"@ + decimal(n as nat) + "Macro"@).last() == "Macro"@.last());
}

proof fn lemma_name_ends_prism_pos(n: u8)
    ensures
        attribute_pretty(FixtureChannel3Attribute::PrismPos(n)).len() > 0,
        attribute_text(FixtureChannel3Attribute::PrismPos(n)).len() > 0,
        attribute_pretty(FixtureChannel3Attribute::PrismPos(n))[0] == attribute_text(FixtureChannel3Attribute::PrismPos(n))[0],
{
    lemma_decimal_digits(n as nat);
    reveal_strlit(" Position");
    reveal_strlit("Pos");
    reveal_strlit("Prism");
    reveal_strlit("Prism ");
    assert(("Prism "@ + decimal(n as nat) + " Position"@)[0] == "Prism "@[0]);
    assert(("Prism"@ + decimal(n as nat) + "Pos"@)[0] == "Prism"@[0]);
}

proof fn lemma_name_ends_prism_pos_rotate(n: u8)
    ensures
        attribute_pretty(FixtureChannel3Attribute::PrismPosRotate(n)).len() > 0,
        attribute_text(FixtureChannel3Attribute::PrismPosRotate(n)).len() > 0,
        attribute_pretty(FixtureChannel3Attribute::PrismPosRotate(n))[0] == attribute_text(FixtureChannel3Attribute::PrismPosRotate(n))[0],
        attribute_pretty(FixtureChannel3Attribute::PrismPosRotate(n)).last() == attribute_text(FixtureChannel3Attribute::PrismPosRotate(n)).last(),
{
    lemma_decimal_digits(n as nat);
    reveal_strlit(" Position Rotate");
    reveal_strlit("PosRotate");
    reveal_strlit("Prism");
    reveal_strlit("Prism ");
    assert(("Prism "@ + decimal(n as nat) + " Position Rotate"@)[0] == "Prism "@[0]);
    assert(("Prism "@ + decimal(n as nat) + " Position Rotate"@).last() == " Position Rotate"@.last());
    assert(("Prism"@ + decimal(n as nat) + "PosRotate"@)[0] == "Prism"@[0]);
    assert(("Prism"@ + decimal(n as nat) + "PosRotate"@).last() == "PosRotate"@.last());
}

proof fn lemma_name_ends_effects(n: u8)
    ensures
        attribute_pretty(FixtureChannel3Attribute::Effects(n)).len() > 0,
        attribute_text(FixtureChannel3Attribute::Effects(n)).len() > 0,
        attribute_pretty(FixtureChannel3Attribute::Effects(n))[0] == attribute_text(FixtureChannel3Attribute::Effects(n))[0],
        attribute_pretty(FixtureChannel3Attribute::Effects(n)).last() == attribute_text(FixtureChannel3Attribute::Effects(n)).last(),
{
    lemma_decimal_digits(n as nat);
    reveal_strlit("Effects");
    reveal_strlit("Effects ");
    assert(("Effects "@ + decimal(n as nat))[0] == "Effects "@[0]);
    assert(("Effects "@ + decimal(n as nat)).last() == decimal(n as nat).last());
    assert(("Effects"@ + decimal(n as nat))[0] == "Effects"@[0]);
    assert(("Effects"@ + decimal(n as nat)).last() == decimal(n as nat).last());
}

proof fn lemma_name_ends_effects_rate(n: u8)
    ensures
        attribute_pretty(FixtureChannel3Attribute::EffectsRate(n)).len() > 0,
        attribute_text(FixtureChannel3Attribute::EffectsRate(n)).len() > 0,
        attribute_pretty(FixtureChannel3Attribute::EffectsRate(n))[0] == attribute_text(FixtureChannel3Attribute::EffectsRate(n))[0],
        attribute_pretty(FixtureChannel3Attribute::EffectsRate(n)).last() == attribute_text(FixtureChannel3Attribute::EffectsRate(n)).last(),
{
    lemma_decimal_digits(n as nat);
    reveal_strlit(" Rate");
    reveal_strlit("Effects");
    reveal_strlit("Effects ");
    reveal_strlit("Rate");
    assert(("Effects "@ + decimal(n as nat) + " Rate"@)[0] == "Effects "@[0]);
    assert(("Effects "@ + decimal(n as nat) + " Rate"@).last() == " Rate"@.last());
    assert(("Effects"@ + decimal(n as nat) + "Rate"@)[0] == "Effects"@[0]);
    assert(("Effects"@ + decimal(n as nat) + "Rate"@).last() == "Rate"@.last());
}

proof fn lemma_name_ends_effects_fade(n: u8)
    ensures
        attribute_pretty(FixtureChannel3Attribute::EffectsFade(n)).len() > 0,
        attribute_text(FixtureChannel3Attribute::EffectsFade(n)).len() > 0,
        attribute_pretty(FixtureChannel3Attribute::EffectsFade(n))[0] == attribute_text(FixtureChannel3Attribute::EffectsFade(n))[0],
        attribute_pretty(FixtureChannel3Attribute::EffectsFade(n)).last() == attribute_text(FixtureChannel3Attribute::EffectsFade(n)).last(),
{
    lemma_decimal_digits(n as nat);
    reveal_strlit(" Fade");
    reveal_strlit("Effects");
    reveal_strlit("Effects ");
    reveal_strlit("Fade");
    assert(("Effects "@ + decimal(n as nat) + " Fade"@)[0] == "Effects "@[0]);
    assert(("Effects "@ + decimal(n as nat) + " Fade"@).last() == " Fade"@.last());
    assert(("Effects"@ + decimal(n as nat) + "Fade"@)[0] == "Effects"@[0]);
    assert(("Effects"@ + decimal(n as nat) + "Fade"@).last() == "Fade"@.last());
}

proof fn lemma_name_ends_effects_adjust(n: u8, m: u8)
    ensures
        attribute_pretty(FixtureChannel3Attribute::EffectsAdjust(n, m)).len() > 0,
        attribute_text(FixtureChannel3Attribute::EffectsAdjust(n, m)).len() > 0,
        attribute_pretty(FixtureChannel3Attribute::EffectsAdjust(n, m))[0] == attribute_text(FixtureChannel3Attribute::EffectsAdjust(n, m))[0],
        attribute_pretty(FixtureChannel3Attribute::EffectsAdjust(n, m)).last() == attribute_text(FixtureChannel3Attribute::EffectsAdjust(n, m)).last(),
{
    lemma_decimal_digits(n as nat);
    lemma_decimal_digits(m as nat);
    reveal_strlit(" Adjust ");
    reveal_strlit("Adjust");
    reveal_strlit("Effects");
    reveal_strlit("Effects ");
    assert(("Effects "@ + decimal(n as nat) + " Adjust "@ + decimal(m as nat))[0] == "Effects "@[0]);
    assert(("Effects "@ + decimal(n as nat) + " Adjust "@ + decimal(m as nat)).last() == decimal(m as nat).last());
    assert(("Effects"@ + decimal(n as nat) + "Adjust"@ + decimal(m as nat))[0] == "Effects"@[0]);
    assert(("Effects"@ + decimal(n as nat) + "Adjust"@ + decimal(m as nat)).last() == decimal(m as nat).last());
}

proof fn lemma_name_ends_effects_pos(n: u8)
    ensures
        attribute_pretty(FixtureChannel3Attribute::EffectsPos(n)).len() > 0,
        attribute_text(FixtureChannel3Attribute::EffectsPos(n)).len() > 0,
        attribute_pretty(FixtureChannel3Attribute::EffectsPos(n))[0] == attribute_text(FixtureChannel3Attribute::EffectsPos(n))[0],
{
    lemma_decimal_digits(n as nat);
    reveal_strlit(" Position");
    reveal_strlit("Effects");
    reveal_strlit("Effects ");
    reveal_strlit("Pos");
    assert(("Effects "@ + decimal(n as nat) + " Position"@)[0] == "Effects "@[0]);
    assert(("Effects"@ + decimal(n as nat) + "Pos"@)[0] == "Effects"@[0]);
}

proof fn lemma_name_ends_effects_pos_rotate(n: u8)
    ensures
        attribute_pretty(FixtureChannel3Attribute::EffectsPosRotate(n)).len() > 0,
        attribute_text(FixtureChannel3Attribute::EffectsPosRotate(n)).len() > 0,
        attribute_pretty(FixtureChannel3Attribute::EffectsPosRotate(n))[0] == attribute_text(FixtureChannel3Attribute::EffectsPosRotate(n))[0],
        attribute_pretty(FixtureChannel3Attribute::EffectsPosRotate(n)).last() == attribute_text(FixtureChannel3Attribute::EffectsPosRotate(n)).last(),
{
    lemma_decimal_digits(n as nat);
    reveal_strlit(" Position Rotate");
    reveal_strlit("Effects");
    reveal_strlit("Effects ");
    reveal_strlit("PosRotate");
    assert(("Effects "@ + decimal(n as nat) + " Position Rotate"@)[0] == "Effects "@[0]);
    assert(("Effects "@ + decimal(n as nat) + " Position Rotate"@).last() == " Position Rotate"@.last());
    assert(("Effects"@ + decimal(n as nat) + "PosRotate"@)[0] == "Effects"@[0]);
    assert(("Effects"@ + decimal(n as nat) + "PosRotate"@).last() == "PosRotate"@.last());
}

proof fn lemma_name_ends_focus(n: u8)
    ensures
        attribute_pretty(FixtureChannel3Attribute::Focus(n)).len() > 0,
        attribute_text(FixtureChannel3Attribute::Focus(n)).len() > 0,
        attribute_pretty(FixtureChannel3Attribute::Focus(n))[0] == attribute_text(FixtureChannel3Attribute::Focus(n))[0],
        attribute_pretty(FixtureChannel3Attribute::Focus(n)).last() == attribute_text(FixtureChannel3Attribute::Focus(n)).last(),
{
    lemma_decimal_digits(n as nat);
    reveal_strlit("Focus");
    reveal_strlit("Focus ");
    assert(("Focus "@ + decimal(n as nat))[0] == "Focus "@[0]);
    assert(("Focus "@ + decimal(n as nat)).last() == decimal(n as nat).last());
    assert(("Focus"@ + decimal(n as nat))[0] == "Focus"@[0]);
    assert(("Focus"@ + decimal(n as nat)).last() == decimal(n as nat).last());
}

proof fn lemma_name_ends_focus_adjust(n: u8)
    ensures
        attribute_pretty(FixtureChannel3Attribute::FocusAdjust(n)).len() > 0,
        attribute_text(FixtureChannel3Attribute::FocusAdjust(n)).len() > 0,
        attribute_pretty(FixtureChannel3Attribute::FocusAdjust(n))[0] == attribute_text(FixtureChannel3Attribute::FocusAdjust(n))[0],
        attribute_pretty(FixtureChannel3Attribute::FocusAdjust(n)).last() == attribute_text(FixtureChannel3Attribute::FocusAdjust(n)).last(),
{
    lemma_decimal_digits(n as nat);
    reveal_strlit(" Adjust");
    reveal_strlit("Adjust");
    reveal_strlit("Focus");
    reveal_strlit("Focus ");
    assert(("Focus "@ + decimal(n as nat) + " Adjust"@)[0] == "Focus "@[0]);
    assert(("Focus "@ + decimal(n as nat) + " Adjust"@).last() == " Adjust"@.last());
    assert(("Focus"@ + decimal(n as nat) + "Adjust"@)[0] == "Focus"@[0]);
    assert(("Focus"@ + decimal(n as nat) + "Adjust"@).last() == "Adjust"@.last());
}

proof fn lemma_name_ends_focus_distance(n: u8)
    ensures
        attribute_pretty(FixtureChannel3Attribute::FocusDistance(n)).len() > 0,
        attribute_text(FixtureChannel3Attribute::FocusDistance(n)).len() > 0,
        attribute_pretty(FixtureChannel3Attribute::FocusDistance(n))[0] == attribute_text(FixtureChannel3Attribute::FocusDistance(n))[0],
        attribute_pretty(FixtureChannel3Attribute::FocusDistance(n)).last() == attribute_text(FixtureChannel3Attribute::FocusDistance(n)).last(),
{
    lemma_decimal_digits(n as nat);
    reveal_strlit(" Distance");
    reveal_strlit("Distance");
    reveal_strlit("Focus");
    reveal_strlit("Focus ");
    assert(("Focus "@ + decimal(n as nat) + " Distance"@)[0] == "Focus "@[0]);
    assert(("Focus "@ + decimal(n as nat) + " Distance"@).last() == " Distance"@.last());
    assert(("Focus"@ + decimal(n as nat) + "Distance"@)[0] == "Focus"@[0]);
    assert(("Focus"@ + decimal(n as nat) + "Distance"@).last() == "Distance"@.last());
}

proof fn lemma_name_ends_control(n: u8)
    ensures
        attribute_pretty(FixtureChannel3Attribute::Control(n)).len() > 0,
        attribute_text(FixtureChannel3Attribute::Control(n)).len() > 0,
        attribute_pretty(FixtureChannel3Attribute::Control(n))[0] == attribute_text(FixtureChannel3Attribute::Control(n))[0],
        attribute_pretty(FixtureChannel3Attribute::Control(n)).last() == attribute_text(FixtureChannel3Attribute::Control(n)).last(),
{
    lemma_decimal_digits(n as nat);
    reveal_strlit("Control");
    reveal_strlit("Control ");
    assert(("Control "@ + decimal(n as nat))[0] == "Control "@[0]);
    assert(("Control "@ + decimal(n as nat)).last() == decimal(n as nat).last());
    assert(("Control"@ + decimal(n as nat))[0] == "Control"@[0]);
    assert(("Control"@ + decimal(n as nat)).last() == decimal(n as nat).last());
}

proof fn lemma_name_ends_gobo_wheel_mode(n: u8)
    ensures
        attribute_pretty(FixtureChannel3Attribute::GoboWheelMode(n)).len() > 0,
        attribute_text(FixtureChannel3Attribute::GoboWheelMode(n)).len() > 0,
        attribute_pretty(FixtureChannel3Attribute::GoboWheelMode(n))[0] == attribute_text(FixtureChannel3Attribute::GoboWheelMode(n))[0],
        attribute_pretty(FixtureChannel3Attribute::GoboWheelMode(n)).last() == attribute_text(FixtureChannel3Attribute::GoboWheelMode(n)).last(),
{
    lemma_decimal_digits(n as nat);
    reveal_strlit(" Wheel Mode");
    reveal_strlit("Gobo");
    reveal_strlit("Gobo ");
    reveal_strlit("WheelMode");
    assert(("Gobo "@ + decimal(n as nat) + " Wheel Mode"@)[0] == "Gobo "@[0]);
    assert(("Gobo "@ + decimal(n as nat) + " Wheel Mode"@).last() == " Wheel Mode"@.last());
    assert(("Gobo"@ + decimal(n as nat) + "WheelMode"@)[0] == "Gobo"@[0]);
    assert(("Gobo"@ + decimal(n as nat) + "WheelMode"@).last() == "WheelMode"@.last());
}

proof fn lemma_name_ends_animation_wheel_mode(n: u8)
    ensures
        attribute_pretty(FixtureChannel3Attribute::AnimationWheelMode(n)).len() > 0,
        attribute_text(FixtureChannel3Attribute::AnimationWheelMode(n)).len() > 0,
        attribute_pretty(FixtureChannel3Attribute::AnimationWheelMode(n))[0] == attribute_text(FixtureChannel3Attribute::AnimationWheelMode(n))[0],
        attribute_pretty(FixtureChannel3Attribute::AnimationWheelMode(n)).last() == attribute_text(FixtureChannel3Attribute::AnimationWheelMode(n)).last(),
{
    lemma_decimal_digits(n as nat);
    reveal_strlit(" Wheel Mode");
    reveal_strlit("Animation");
    reveal_strlit("Animation ");
    reveal_strlit("WheelMode");
    assert(("Animation "@ + decimal(n as nat) + " Wheel Mode"@)[0] == "Animation "@[0]);
    assert(("Animation "@ + decimal(n as nat) + " Wheel Mode"@).last() == " Wheel Mode"@.last());
    assert(("Animation"@ + decimal(n as nat) + "WheelMode"@)[0] == "Animation"@[0]);
    assert(("Animation"@ + decimal(n as nat) + "WheelMode"@).last() == "WheelMode"@.last());
}

proof fn lemma_name_ends_color_mode(n: u8)
    ensures
        attribute_pretty(FixtureChannel3Attribute::ColorMode(n)).len() > 0,
        attribute_text(FixtureChannel3Attribute::ColorMode(n)).len() > 0,
        attribute_pretty(FixtureChannel3Attribute::ColorMode(n))[0] == attribute_text(FixtureChannel3Attribute::ColorMode(n))[0],
        attribute_pretty(FixtureChannel3Attribute::ColorMode(n)).last() == attribute_text(FixtureChannel3Attribute::ColorMode(n)).last(),
{
    lemma_decimal_digits(n as nat);
    reveal_strlit(" Mode");
    reveal_strlit("Color");
    reveal_strlit("Color ");
    reveal_strlit("Mode");
    assert(("Color "@ + decimal(n as nat) + " Mode"@)[0] == "Color "@[0]);
    assert(("Color "@ + decimal(n as nat) + " Mode"@).last() == " Mode"@.last());
    assert(("Color"@ + decimal(n as nat) + "Mode"@)[0] == "Color"@[0]);
    assert(("Color"@ + decimal(n as nat) + "Mode"@).last() == "Mode"@.last());
}

proof fn lemma_name_ends_fan_mode(n: u8)
    ensures
        attribute_pretty(FixtureChannel3Attribute::FanMode(n)).len() > 0,
        attribute_text(FixtureChannel3Attribute::FanMode(n)).len() > 0,
        attribute_pretty(FixtureChannel3Attribute::FanMode(n))[0] == attribute_text(FixtureChannel3Attribute::FanMode(n))[0],
        attribute_pretty(FixtureChannel3Attribute::FanMode(n)).last() == attribute_text(FixtureChannel3Attribute::FanMode(n)).last(),
{
    lemma_decimal_digits(n as nat);
    reveal_strlit(" Mode");
    reveal_strlit("Fan");
    reveal_strlit("Fan ");
    reveal_strlit("Mode");
    assert(("Fan "@ + decimal(n as nat) + " Mode"@)[0] == "Fan "@[0]);
    assert(("Fan "@ + decimal(n as nat) + " Mode"@).last() == " Mode"@.last());
    assert(("Fan"@ + decimal(n as nat) + "Mode"@)[0] == "Fan"@[0]);
    assert(("Fan"@ + decimal(n as nat) + "Mode"@).last() == "Mode"@.last());
}

proof fn lemma_name_ends_gobo_wheel_m_speed(n: u8)
    ensures
        attribute_pretty(FixtureChannel3Attribute::GoboWheelMSpeed(n)).len() > 0,
        attribute_text(FixtureChannel3Attribute::GoboWheelMSpeed(n)).len() > 0,
        attribute_pretty(FixtureChannel3Attribute::GoboWheelMSpeed(n))[0] == attribute_text(FixtureChannel3Attribute::GoboWheelMSpeed(n))[0],
        attribute_pretty(FixtureChannel3Attribute::GoboWheelMSpeed(n)).last() == attribute_text(FixtureChannel3Attribute::GoboWheelMSpeed(n)).last(),
{
    lemma_decimal_digits(n as nat);
    reveal_strlit(" Wheel MSpeed");
    reveal_strlit("Gobo");
    reveal_strlit("Gobo ");
    reveal_strlit("WheelMSpeed");
    assert(("Gobo "@ + decimal(n as nat) + " Wheel MSpeed"@)[0] == "Gobo "@[0]);
    assert(("Gobo "@ + decimal(n as nat) + " Wheel MSpeed"@).last() == " Wheel MSpeed"@.last());
    assert(("Gobo"@ + decimal(n as nat) + "WheelMSpeed"@)[0] == "Gobo"@[0]);
    assert(("Gobo"@ + decimal(n as nat) + "WheelMSpeed"@).last() == "WheelMSpeed"@.last());
}

proof fn lemma_name_ends_prism_m_speed(n: u8)
    ensures
        attribute_pretty(FixtureChannel3Attribute::PrismMSpeed(n)).len() > 0,
        attribute_text(FixtureChannel3Attribute::PrismMSpeed(n)).len() > 0,
        attribute_pretty(FixtureChannel3Attribute::PrismMSpeed(n))[0] == attribute_text(FixtureChannel3Attribute::PrismMSpeed(n))[0],
        attribute_pretty(FixtureChannel3Attribute::PrismMSpeed(n)).last() == attribute_text(FixtureChannel3Attribute::PrismMSpeed(n)).last(),
{
    lemma_decimal_digits(n as nat);
    reveal_strlit(" MSpeed");
    reveal_strlit("MSpeed");
    reveal_strlit("Prism");
    reveal_strlit("Prism ");
    assert(("Prism "@ + decimal(n as nat) + " MSpeed"@)[0] == "Prism "@[0]);
    assert(("Prism "@ + decimal(n as nat) + " MSpeed"@).last() == " MSpeed"@.last());
    assert(("Prism"@ + decimal(n as nat) + "MSpeed"@)[0] == "Prism"@[0]);
    assert(("Prism"@ + decimal(n as nat) + "MSpeed"@).last() == "MSpeed"@.last());
}

proof fn lemma_name_ends_frost_m_speed(n: u8)
    ensures
        attribute_pretty(FixtureChannel3Attribute::FrostMSpeed(n)).len() > 0,
        attribute_text(FixtureChannel3Attribute::FrostMSpeed(n)).len() > 0,
        attribute_pretty(FixtureChannel3Attribute::FrostMSpeed(n))[0] == attribute_text(FixtureChannel3Attribute::FrostMSpeed(n))[0],
        attribute_pretty(FixtureChannel3Attribute::FrostMSpeed(n)).last() == attribute_text(FixtureChannel3Attribute::FrostMSpeed(n)).last(),
{
    lemma_decimal_digits(n as nat);
    reveal_strlit(" MSpeed");
    reveal_strlit("Frost");
    reveal_strlit("Frost ");
    reveal_strlit("MSpeed");
    assert(("Frost "@ + decimal(n as nat) + " MSpeed"@)[0] == "Frost "@[0]);
    assert(("Frost "@ + decimal(n as nat) + " MSpeed"@).last() == " MSpeed"@.last());
    assert(("Frost"@ + decimal(n as nat) + "MSpeed"@)[0] == "Frost"@[0]);
    assert(("Frost"@ + decimal(n as nat) + "MSpeed"@).last() == "MSpeed"@.last());
}

proof fn lemma_name_ends_blower(n: u8)
    ensures
        attribute_pretty(FixtureChannel3Attribute::Blower(n)).len() > 0,
        attribute_text(FixtureChannel3Attribute::Blower(n)).len() > 0,
        attribute_pretty(FixtureChannel3Attribute::Blower(n))[0] == attribute_text(FixtureChannel3Attribute::Blower(n))[0],
        attribute_pretty(FixtureChannel3Attribute::Blower(n)).last() == attribute_text(FixtureChannel3Attribute::Blower(n)).last(),
{
    lemma_decimal_digits(n as nat);
    reveal_strlit("Blower");
    reveal_strlit("Blower ");
    assert(("Blower "@ + decimal(n as nat))[0] == "Blower "@[0]);
    assert(("Blower "@ + decimal(n as nat)).last() == decimal(n as nat).last());
    assert(("Blower"@ + decimal(n as nat))[0] == "Blower"@[0]);
    assert(("Blower"@ + decimal(n as nat)).last() == decimal(n as nat).last());
}

proof fn lemma_name_ends_fan(n: u8)
    ensures
        attribute_pretty(FixtureChannel3Attribute::Fan(n)).len() > 0,
        attribute_text(FixtureChannel3Attribute::Fan(n)).len() > 0,
        attribute_pretty(FixtureChannel3Attribute::Fan(n))[0] == attribute_text(FixtureChannel3Attribute::Fan(n))[0],
        attribute_pretty(FixtureChannel3Attribute::Fan(n)).last() == attribute_text(FixtureChannel3Attribute::Fan(n)).last(),
{
    lemma_decimal_digits(n as nat);
    reveal_strlit("Fan");
    reveal_strlit("Fan ");
    assert(("Fan "@ + decimal(n as nat))[0] == "Fan "@[0]);
    assert(("Fan "@ + decimal(n as nat)).last() == decimal(n as nat).last());
    assert(("Fan"@ + decimal(n as nat))[0] == "Fan"@[0]);
    assert(("Fan"@ + decimal(n as nat)).last() == decimal(n as nat).last());
}

proof fn lemma_name_ends_fog(n: u8)
    ensures
        attribute_pretty(FixtureChannel3Attribute::Fog(n)).len() > 0,
        attribute_text(FixtureChannel3Attribute::Fog(n)).len() > 0,
        attribute_pretty(FixtureChannel3Attribute::Fog(n))[0] == attribute_text(FixtureChannel3Attribute::Fog(n))[0],
        attribute_pretty(FixtureChannel3Attribute::Fog(n)).last() == attribute_text(FixtureChannel3Attribute::Fog(n)).last(),
{
    lemma_decimal_digits(n as nat);
    reveal_strlit("Fog");
    reveal_strlit("Fog ");
    assert(("Fog "@ + decimal(n as nat))[0] == "Fog "@[0]);
    assert(("Fog "@ + decimal(n as nat)).last() == decimal(n as nat).last());
    assert(("Fog"@ + decimal(n as nat))[0] == "Fog"@[0]);
    assert(("Fog"@ + decimal(n as nat)).last() == decimal(n as nat).last());
}

proof fn lemma_name_ends_haze(n: u8)
    ensures
        attribute_pretty(FixtureChannel3Attribute::Haze(n)).len() > 0,
        attribute_text(FixtureChannel3Attribute::Haze(n)).len() > 0,
        attribute_pretty(FixtureChannel3Attribute::Haze(n))[0] == attribute_text(FixtureChannel3Attribute::Haze(n))[0],
        attribute_pretty(FixtureChannel3Attribute::Haze(n)).last() == attribute_text(FixtureChannel3Attribute::Haze(n)).last(),
{
    lemma_decimal_digits(n as nat);
    reveal_strlit("Haze");
    reveal_strlit("Haze ");
    assert(("Haze "@ + decimal(n as nat))[0] == "Haze "@[0]);
    assert(("Haze "@ + decimal(n as nat)).last() == decimal(n as nat).last());
    assert(("Haze"@ + decimal(n as nat))[0] == "Haze"@[0]);
    assert(("Haze"@ + decimal(n as nat)).last() == decimal(n as nat).last());
}

proof fn lemma_name_ends_blade_a(n: u8)
    ensures
        attribute_pretty(FixtureChannel3Attribute::BladeA(n)).len() > 0,
        attribute_text(FixtureChannel3Attribute::BladeA(n)).len() > 0,
        attribute_pretty(FixtureChannel3Attribute::BladeA(n))[0] == attribute_text(FixtureChannel3Attribute::BladeA(n))[0],
        attribute_pretty(FixtureChannel3Attribute::BladeA(n)).last() == attribute_text(FixtureChannel3Attribute::BladeA(n)).last(),
{
    lemma_decimal_digits(n as nat);
    reveal_strlit(" A");
    reveal_strlit("A");
    reveal_strlit("Blade");
    reveal_strlit("Blade ");
    assert(("Blade "@ + decimal(n as nat) + " A"@)[0] == "Blade "@[0]);
    assert(("Blade "@ + decimal(n as nat) + " A"@).last() == " A"@.last());
    assert(("Blade"@ + decimal(n as nat) + "A"@)[0] == "Blade"@[0]);
    assert(("Blade"@ + decimal(n as nat) + "A"@).last() == "A"@.last());
}

proof fn lemma_name_ends_blade_b(n: u8)
    ensures
        attribute_pretty(FixtureChannel3Attribute::BladeB(n)).len() > 0,
        attribute_text(FixtureChannel3Attribute::BladeB(n)).len() > 0,
        attribute_pretty(FixtureChannel3Attribute::BladeB(n))[0] == attribute_text(FixtureChannel3Attribute::BladeB(n))[0],
        attribute_pretty(FixtureChannel3Attribute::BladeB(n)).last() == attribute_text(FixtureChannel3Attribute::BladeB(n)).last(),
{
    lemma_decimal_digits(n as nat);
    reveal_strlit(" B");
    reveal_strlit("B");
    reveal_strlit("Blade");
    reveal_strlit("Blade ");
    assert(("Blade "@ + decimal(n as nat) + " B"@)[0] == "Blade "@[0]);
    assert(("Blade "@ + decimal(n as nat) + " B"@).last() == " B"@.last());
    assert(("Blade"@ + decimal(n as nat) + "B"@)[0] == "Blade"@[0]);
    assert(("Blade"@ + decimal(n as nat) + "B"@).last() == "B"@.last());
}

proof fn lemma_name_ends_blade_rot(n: u8)
    ensures
        attribute_pretty(FixtureChannel3Attribute::BladeRot(n)).len() > 0,
        attribute_text(FixtureChannel3Attribute::BladeRot(n)).len() > 0,
        attribute_pretty(FixtureChannel3Attribute::BladeRot(n))[0] == attribute_text(FixtureChannel3Attribute::BladeRot(n))[0],
{
    lemma_decimal_digits(n as nat);
    reveal_strlit(" Rotation");
    reveal_strlit("Blade");
    reveal_strlit("Blade ");
    reveal_strlit("Rot");
    assert(("Blade "@ + decimal(n as nat) + " Rotation"@)[0] == "Blade "@[0]);
    assert(("Blade"@ + decimal(n as nat) + "Rot"@)[0] == "Blade"@[0]);
}

proof fn lemma_name_ends_blade_soft_a(n: u8)
    ensures
        attribute_pretty(FixtureChannel3Attribute::BladeSoftA(n)).len() > 0,
        attribute_text(FixtureChannel3Attribute::BladeSoftA(n)).len() > 0,
        attribute_pretty(FixtureChannel3Attribute::BladeSoftA(n))[0] == attribute_text(FixtureChannel3Attribute::BladeSoftA(n))[0],
        attribute_pretty(FixtureChannel3Attribute::BladeSoftA(n)).last() == attribute_text(FixtureChannel3Attribute::BladeSoftA(n)).last(),
{
    lemma_decimal_digits(n as nat);
    reveal_strlit(" A");
    reveal_strlit("A");
    reveal_strlit("Blade Soft ");
    reveal_strlit("BladeSoft");
    assert(("Blade Soft "@ + decimal(n as nat) + " A"@)[0] == "Blade Soft "@[0]);
    assert(("Blade Soft "@ + decimal(n as nat) + " A"@).last() == " A"@.last());
    assert(("BladeSoft"@ + decimal(n as nat) + "A"@)[0] == "BladeSoft"@[0]);
    assert(("BladeSoft"@ + decimal(n as nat) + "A"@).last() == "A"@.last());
}

proof fn lemma_name_ends_blade_soft_b(n: u8)
    ensures
        attribute_pretty(FixtureChannel3Attribute::BladeSoftB(n)).len() > 0,
        attribute_text(FixtureChannel3Attribute::BladeSoftB(n)).len() > 0,
        attribute_pretty(FixtureChannel3Attribute::BladeSoftB(n))[0] == attribute_text(FixtureChannel3Attribute::BladeSoftB(n))[0],
        attribute_pretty(FixtureChannel3Attribute::BladeSoftB(n)).last() == attribute_text(FixtureChannel3Attribute::BladeSoftB(n)).last(),
{
    lemma_decimal_digits(n as nat);
    reveal_strlit(" B");
    reveal_strlit("B");
    reveal_strlit("Blade Soft ");
    reveal_strlit("BladeSoft");
    assert(("Blade Soft "@ + decimal(n as nat) + " B"@)[0] == "Blade Soft "@[0]);
    assert(("Blade Soft "@ + decimal(n as nat) + " B"@).last() == " B"@.last());
    assert(("BladeSoft"@ + decimal(n as nat) + "B"@)[0] == "BladeSoft"@[0]);
    assert(("BladeSoft"@ + decimal(n as nat) + "B"@).last() == "B"@.last());
}

proof fn lemma_name_ends_key_stone_a(n: u8)
    ensures
        attribute_pretty(FixtureChannel3Attribute::KeyStoneA(n)).len() > 0,
        attribute_text(FixtureChannel3Attribute::KeyStoneA(n)).len() > 0,
        attribute_pretty(FixtureChannel3Attribute::KeyStoneA(n))[0] == attribute_text(FixtureChannel3Attribute::KeyStoneA(n))[0],
        attribute_pretty(FixtureChannel3Attribute::KeyStoneA(n)).last() == attribute_text(FixtureChannel3Attribute::KeyStoneA(n)).last(),
{
    lemma_decimal_digits(n as nat);
    reveal_strlit(" A");
    reveal_strlit("A");
    reveal_strlit("KeyStone");
    reveal_strlit("Keystone ");
    assert(("Keystone "@ + decimal(n as nat) + " A"@)[0] == "Keystone "@[0]);
    assert(("Keystone "@ + decimal(n as nat) + " A"@).last() == " A"@.last());
    assert(("KeyStone"@ + decimal(n as nat) + "A"@)[0] == "KeyStone"@[0]);
    assert(("KeyStone"@ + decimal(n as nat) + "A"@).last() == "A"@.last());
}

proof fn lemma_name_ends_key_stone_b(n: u8)
    ensures
        attribute_pretty(FixtureChannel3Attribute::KeyStoneB(n)).len() > 0,
        attribute_text(FixtureChannel3Attribute::KeyStoneB(n)).len() > 0,
        attribute_pretty(FixtureChannel3Attribute::KeyStoneB(n))[0] == attribute_text(FixtureChannel3Attribute::KeyStoneB(n))[0],
        attribute_pretty(FixtureChannel3Attribute::KeyStoneB(n)).last() == attribute_text(FixtureChannel3Attribute::KeyStoneB(n)).last(),
{
    lemma_decimal_digits(n as nat);
    reveal_strlit(" B");
    reveal_strlit("B");
    reveal_strlit("KeyStone");
    reveal_strlit("Keystone ");
    assert(("Keystone "@ + decimal(n as nat) + " B"@)[0] == "Keystone "@[0]);
    assert(("Keystone "@ + decimal(n as nat) + " B"@).last() == " B"@.last());
    assert(("KeyStone"@ + decimal(n as nat) + "B"@)[0] == "KeyStone"@[0]);
    assert(("KeyStone"@ + decimal(n as nat) + "B"@).last() == "B"@.last());
}

proof fn lemma_name_ends_video_effect_type(n: u8)
    ensures
        attribute_pretty(FixtureChannel3Attribute::VideoEffectType(n)).len() > 0,
        attribute_text(FixtureChannel3Attribute::VideoEffectType(n)).len() > 0,
        attribute_pretty(FixtureChannel3Attribute::VideoEffectType(n))[0] == attribute_text(FixtureChannel3Attribute::VideoEffectType(n))[0],
        attribute_pretty(FixtureChannel3Attribute::VideoEffectType(n)).last() == attribute_text(FixtureChannel3Attribute::VideoEffectType(n)).last(),
{
    lemma_decimal_digits(n as nat);
    reveal_strlit(" Type");
    reveal_strlit("Type");
    reveal_strlit("Video Effect ");
    reveal_strlit("VideoEffect");
    assert(("Video Effect "@ + decimal(n as nat) + " Type"@)[0] == "Video Effect "@[0]);
    assert(("Video Effect "@ + decimal(n as nat) + " Type"@).last() == " Type"@.last());
    assert(("VideoEffect"@ + decimal(n as nat) + "Type"@)[0] == "VideoEffect"@[0]);
    assert(("VideoEffect"@ + decimal(n as nat) + "Type"@).last() == "Type"@.last());
}

proof fn lemma_name_ends_video_effect_parameter(n: u8, m: u8)
    ensures
        attribute_pretty(FixtureChannel3Attribute::VideoEffectParameter(n, m)).len() > 0,
        attribute_text(FixtureChannel3Attribute::VideoEffectParameter(n, m)).len() > 0,
        attribute_pretty(FixtureChannel3Attribute::VideoEffectParameter(n, m))[0] == attribute_text(FixtureChannel3Attribute::VideoEffectParameter(n, m))[0],
        attribute_pretty(FixtureChannel3Attribute::VideoEffectParameter(n, m)).last() == attribute_text(FixtureChannel3Attribute::VideoEffectParameter(n, m)).last(),
{
    lemma_decimal_digits(n as nat);
    lemma_decimal_digits(m as nat);
    reveal_strlit(" Parameter ");
    reveal_strlit("Parameter");
    reveal_strlit("Video Effect ");
    reveal_strlit("VideoEffect");
    assert(("Video Effect "@ + decimal(n as nat) + " Parameter "@ + decimal(m as nat))[0] == "Video Effect "@[0]);
    assert(("Video Effect "@ + decimal(n as nat) + " Parameter "@ + decimal(m as nat)).last() == decimal(m as nat).last());
    assert(("VideoEffect"@ + decimal(n as nat) + "Parameter"@ + decimal(m as nat))[0] == "VideoEffect"@[0]);
    assert(("VideoEffect"@ + decimal(n as nat) + "Parameter"@ + decimal(m as nat)).last() == decimal(m as nat).last());
}

proof fn lemma_name_ends_video_camera(n: u8)
    ensures
        attribute_pretty(FixtureChannel3Attribute::VideoCamera(n)).len() > 0,
        attribute_text(FixtureChannel3Attribute::VideoCamera(n)).len() > 0,
        attribute_pretty(FixtureChannel3Attribute::VideoCamera(n))[0] == attribute_text(FixtureChannel3Attribute::VideoCamera(n))[0],
        attribute_pretty(FixtureChannel3Attribute::VideoCamera(n)).last() == attribute_text(FixtureChannel3Attribute::VideoCamera(n)).last(),
{
    lemma_decimal_digits(n as nat);
    reveal_strlit("Video Camera ");
    reveal_strlit("VideoCamera");
    assert(("Video Camera "@ + decimal(n as nat))[0] == "Video Camera "@[0]);
    assert(("Video Camera "@ + decimal(n as nat)).last() == decimal(n as nat).last());
    assert(("VideoCamera"@ + decimal(n as nat))[0] == "VideoCamera"@[0]);
    assert(("VideoCamera"@ + decimal(n as nat)).last() == decimal(n as nat).last());
}

proof fn lemma_name_ends_video_sound_volume(n: u8)
    ensures
        attribute_pretty(FixtureChannel3Attribute::VideoSoundVolume(n)).len() > 0,
        attribute_text(FixtureChannel3Attribute::VideoSoundVolume(n)).len() > 0,
        attribute_pretty(FixtureChannel3Attribute::VideoSoundVolume(n))[0] == attribute_text(FixtureChannel3Attribute::VideoSoundVolume(n))[0],
        attribute_pretty(FixtureChannel3Attribute::VideoSoundVolume(n)).last() == attribute_text(FixtureChannel3Attribute::VideoSoundVolume(n)).last(),
{
    lemma_decimal_digits(n as nat);
    reveal_strlit("Video Sound Volume ");
    reveal_strlit("VideoSoundVolume");
    assert(("Video Sound Volume "@ + decimal(n as nat))[0] == "Video Sound Volume "@[0]);
    assert(("Video Sound Volume "@ + decimal(n as nat)).last() == decimal(n as nat).last());
    assert(("VideoSoundVolume"@ + decimal(n as nat))[0] == "VideoSoundVolume"@[0]);
    assert(("VideoSoundVolume"@ + decimal(n as nat)).last() == decimal(n as nat).last());
}

/// The names of the attributes that spell out an abbreviation are not
/// empty.
proof fn lemma_spelled_out_names_not_empty(a: FixtureChannel3Attribute)
    requires
        a is XyzX || a is XyzY || a is XyzZ || a is RotX || a is RotY || a is RotZ || a is ColorAddR || a is ColorAddG || a is ColorAddB || a is ColorAddC || a is ColorAddM || a is ColorAddY || a is ColorAddRY || a is ColorAddGY || a is ColorAddGC || a is ColorAddBC || a is ColorAddBM || a is ColorAddRM || a is ColorAddW || a is ColorAddWW || a is ColorAddCW || a is ColorAddUV || a is ColorSubR || a is ColorSubG || a is ColorSubB || a is ColorSubC || a is ColorSubM || a is ColorSubY || a is ColorRgbRed || a is ColorRgbGreen || a is ColorRgbBlue || a is ColorRgbCyan || a is ColorRgbMagenta || a is ColorRgbYellow || a is ColorRgbQuality || a is VideoBoostR || a is VideoBoostG || a is VideoBoostB || a is VideoKeyColorR || a is VideoKeyColorG || a is VideoKeyColorB || a is BeamShaperPos || a is BeamShaperPosRotate || a is ShaperRot,
    ensures
        attribute_pretty(a).len() > 0,
        attribute_text(a).len() > 0,
{
    match a {
        FixtureChannel3Attribute::XyzX => {
            reveal_strlit("X");
            reveal_strlit("XYZ_X");
        },
        FixtureChannel3Attribute::XyzY => {
            reveal_strlit("XYZ_Y");
            reveal_strlit("Y");
        },
        FixtureChannel3Attribute::XyzZ => {
            reveal_strlit("XYZ_Z");
            reveal_strlit("Z");
        },
        FixtureChannel3Attribute::RotX => {
            reveal_strlit("Rot_X");
            reveal_strlit("Rotation X");
        },
        FixtureChannel3Attribute::RotY => {
            reveal_strlit("Rot_Y");
            reveal_strlit("Rotation Y");
        },
        FixtureChannel3Attribute::RotZ => {
            reveal_strlit("Rot_Z");
            reveal_strlit("Rotation Z");
        },
        FixtureChannel3Attribute::ColorAddR => {
            reveal_strlit("ColorAdd_R");
            reveal_strlit("Red");
        },
        FixtureChannel3Attribute::ColorAddG => {
            reveal_strlit("ColorAdd_G");
            reveal_strlit("Green");
        },
        FixtureChannel3Attribute::ColorAddB => {
            reveal_strlit("Blue");
            reveal_strlit("ColorAdd_B");
        },
        FixtureChannel3Attribute::ColorAddC => {
            reveal_strlit("ColorAdd_C");
            reveal_strlit("Cyan");
        },
        FixtureChannel3Attribute::ColorAddM => {
            reveal_strlit("ColorAdd_M");
            reveal_strlit("Magenta");
        },
        FixtureChannel3Attribute::ColorAddY => {
            reveal_strlit("ColorAdd_Y");
            reveal_strlit("Yellow");
        },
        FixtureChannel3Attribute::ColorAddRY => {
            reveal_strlit("ColorAdd_RY");
            reveal_strlit("Red-Yellow");
        },
        FixtureChannel3Attribute::ColorAddGY => {
            reveal_strlit("ColorAdd_GY");
            reveal_strlit("Green-Yellow");
        },
        FixtureChannel3Attribute::ColorAddGC => {
            reveal_strlit("ColorAdd_GC");
            reveal_strlit("Green-Cyan");
        },
        FixtureChannel3Attribute::ColorAddBC => {
            reveal_strlit("Blue-Cyan");
            reveal_strlit("ColorAdd_BC");
        },
        FixtureChannel3Attribute::ColorAddBM => {
            reveal_strlit("Blue-Magenta");
            reveal_strlit("ColorAdd_BM");
        },
        FixtureChannel3Attribute::ColorAddRM => {
            reveal_strlit("ColorAdd_RM");
            reveal_strlit("Red-Magenta");
        },
        FixtureChannel3Attribute::ColorAddW => {
            reveal_strlit("ColorAdd_W");
            reveal_strlit("White");
        },
        FixtureChannel3Attribute::ColorAddWW => {
            reveal_strlit("ColorAdd_WW");
            reveal_strlit("Warm White");
        },
        FixtureChannel3Attribute::ColorAddCW => {
            reveal_strlit("ColorAdd_CW");
            reveal_strlit("Cool White");
        },
        FixtureChannel3Attribute::ColorAddUV => {
            reveal_strlit("ColorAdd_UV");
            reveal_strlit("UV");
        },
        FixtureChannel3Attribute::ColorSubR => {
            reveal_strlit("ColorSub_R");
            reveal_strlit("Red-");
        },
        FixtureChannel3Attribute::ColorSubG => {
            reveal_strlit("ColorSub_G");
            reveal_strlit("Green-");
        },
        FixtureChannel3Attribute::ColorSubB => {
            reveal_strlit("Blue-");
            reveal_strlit("ColorSub_B");
        },
        FixtureChannel3Attribute::ColorSubC => {
            reveal_strlit("ColorSub_C");
            reveal_strlit("Cyan-");
        },
        FixtureChannel3Attribute::ColorSubM => {
            reveal_strlit("ColorSub_M");
            reveal_strlit("Magenta-");
        },
        FixtureChannel3Attribute::ColorSubY => {
            reveal_strlit("ColorSub_Y");
            reveal_strlit("Yellow-");
        },
        FixtureChannel3Attribute::ColorRgbRed => {
            reveal_strlit("ColorRGB_Red");
            reveal_strlit("RGB Red");
        },
        FixtureChannel3Attribute::ColorRgbGreen => {
            reveal_strlit("ColorRGB_Green");
            reveal_strlit("RGB Green");
        },
        FixtureChannel3Attribute::ColorRgbBlue => {
            reveal_strlit("ColorRGB_Blue");
            reveal_strlit("RGB Blue");
        },
        FixtureChannel3Attribute::ColorRgbCyan => {
            reveal_strlit("ColorRGB_Cyan");
            reveal_strlit("RGB Cyan");
        },
        FixtureChannel3Attribute::ColorRgbMagenta => {
            reveal_strlit("ColorRGB_Magenta");
            reveal_strlit("RGB Magenta");
        },
        FixtureChannel3Attribute::ColorRgbYellow => {
            reveal_strlit("ColorRGB_Yellow");
            reveal_strlit("RGB Yellow");
        },
        FixtureChannel3Attribute::ColorRgbQuality => {
            reveal_strlit("ColorRGB_Quality");
            reveal_strlit("RGB Quality");
        },
        FixtureChannel3Attribute::VideoBoostR => {
            reveal_strlit("Video Boost Red");
            reveal_strlit("VideoBoost_R");
        },
        FixtureChannel3Attribute::VideoBoostG => {
            reveal_strlit("Video Boost Green");
            reveal_strlit("VideoBoost_G");
        },
        FixtureChannel3Attribute::VideoBoostB => {
            reveal_strlit("Video Boost Blue");
            reveal_strlit("VideoBoost_B");
        },
        FixtureChannel3Attribute::VideoKeyColorR => {
            reveal_strlit("Video Key Color Red");
            reveal_strlit("VideoKeyColor_R");
        },
        FixtureChannel3Attribute::VideoKeyColorG => {
            reveal_strlit("Video Key Color Green");
            reveal_strlit("VideoKeyColor_G");
        },
        FixtureChannel3Attribute::VideoKeyColorB => {
            reveal_strlit("Video Key Color Blue");
            reveal_strlit("VideoKeyColor_B");
        },
        FixtureChannel3Attribute::BeamShaperPos => {
            reveal_strlit("Beam Shaper Position");
            reveal_strlit("BeamShaperPos");
        },
        FixtureChannel3Attribute::BeamShaperPosRotate => {
            reveal_strlit("Beam Shaper Position Rotate");
            reveal_strlit("BeamShaperPosRotate");
        },
        FixtureChannel3Attribute::ShaperRot => {
            reveal_strlit("Shaper Rotation");
            reveal_strlit("ShaperRot");
        },
        _ => {},
    }
}

/// Law: the pretty name of an attribute (other than a custom one) begins
/// with the same character as its GDTF name, and, unless the pretty name
/// spells out an abbreviation, ends with the same character too
/// (`Pan Rotate` and `PanRotate`, `Gobo 3 Select Spin` and `Gobo3SelectSpin`).
pub proof fn law_pretty_name_begins_and_ends_like_gdtf_name(a: FixtureChannel3Attribute)
    requires
        !(a is Custom),
    ensures
        attribute_pretty(a).len() > 0,
        attribute_text(a).len() > 0,
        !pretty_name_spelled_out(a) ==> attribute_pretty(a)[0] == attribute_text(a)[0],
        !pretty_name_spelled_out(a) ==> attribute_pretty(a).last() == attribute_text(a).last(),
{
    match a {
        FixtureChannel3Attribute::Gobo(n) => lemma_name_ends_gobo(n),
        FixtureChannel3Attribute::GoboSelectSpin(n) => lemma_name_ends_gobo_select_spin(n),
        FixtureChannel3Attribute::GoboSelectShake(n) => lemma_name_ends_gobo_select_shake(n),
        FixtureChannel3Attribute::GoboSelectEffects(n) => lemma_name_ends_gobo_select_effects(n),
        FixtureChannel3Attribute::GoboWheelIndex(n) => lemma_name_ends_gobo_wheel_index(n),
        FixtureChannel3Attribute::GoboWheelSpin(n) => lemma_name_ends_gobo_wheel_spin(n),
        FixtureChannel3Attribute::GoboWheelShake(n) => lemma_name_ends_gobo_wheel_shake(n),
        FixtureChannel3Attribute::GoboWheelRandom(n) => lemma_name_ends_gobo_wheel_random(n),
        FixtureChannel3Attribute::GoboWheelAudio(n) => lemma_name_ends_gobo_wheel_audio(n),
        FixtureChannel3Attribute::GoboPos(n) => lemma_name_ends_gobo_pos(n),
        FixtureChannel3Attribute::GoboPosRotate(n) => lemma_name_ends_gobo_pos_rotate(n),
        FixtureChannel3Attribute::GoboPosShake(n) => lemma_name_ends_gobo_pos_shake(n),
        FixtureChannel3Attribute::AnimationWheel(n) => lemma_name_ends_animation_wheel(n),
        FixtureChannel3Attribute::AnimationWheelAudio(n) => lemma_name_ends_animation_wheel_audio(n),
        FixtureChannel3Attribute::AnimationWheelMacro(n) => lemma_name_ends_animation_wheel_macro(n),
        FixtureChannel3Attribute::AnimationWheelRandom(n) => lemma_name_ends_animation_wheel_random(n),
        FixtureChannel3Attribute::AnimationWheelSelectEffects(n) => lemma_name_ends_animation_wheel_select_effects(n),
        FixtureChannel3Attribute::AnimationWheelSelectShake(n) => lemma_name_ends_animation_wheel_select_shake(n),
        FixtureChannel3Attribute::AnimationWheelSelectSpin(n) => lemma_name_ends_animation_wheel_select_spin(n),
        FixtureChannel3Attribute::AnimationWheelPos(n) => lemma_name_ends_animation_wheel_pos(n),
        FixtureChannel3Attribute::AnimationWheelPosRotate(n) => lemma_name_ends_animation_wheel_pos_rotate(n),
        FixtureChannel3Attribute::AnimationWheelPosShake(n) => lemma_name_ends_animation_wheel_pos_shake(n),
        FixtureChannel3Attribute::AnimationSystem(n) => lemma_name_ends_animation_system(n),
        FixtureChannel3Attribute::AnimationSystemRamp(n) => lemma_name_ends_animation_system_ramp(n),
        FixtureChannel3Attribute::AnimationSystemShake(n) => lemma_name_ends_animation_system_shake(n),
        FixtureChannel3Attribute::AnimationSystemAudio(n) => lemma_name_ends_animation_system_audio(n),
        FixtureChannel3Attribute::AnimationSystemRandom(n) => lemma_name_ends_animation_system_random(n),
        FixtureChannel3Attribute::AnimationSystemPos(n) => lemma_name_ends_animation_system_pos(n),
        FixtureChannel3Attribute::AnimationSystemPosRotate(n) => lemma_name_ends_animation_system_pos_rotate(n),
        FixtureChannel3Attribute::AnimationSystemPosShake(n) => lemma_name_ends_animation_system_pos_shake(n),
        FixtureChannel3Attribute::AnimationSystemPosRandom(n) => lemma_name_ends_animation_system_pos_random(n),
        FixtureChannel3Attribute::AnimationSystemPosAudio(n) => lemma_name_ends_animation_system_pos_audio(n),
        FixtureChannel3Attribute::AnimationSystemMacro(n) => lemma_name_ends_animation_system_macro(n),
        FixtureChannel3Attribute::MediaFolder(n) => lemma_name_ends_media_folder(n),
        FixtureChannel3Attribute::MediaContent(n) => lemma_name_ends_media_content(n),
        FixtureChannel3Attribute::ModelFolder(n) => lemma_name_ends_model_folder(n),
        FixtureChannel3Attribute::ModelContent(n) => lemma_name_ends_model_content(n),
        FixtureChannel3Attribute::ColorEffects(n) => lemma_name_ends_color_effects(n),
        FixtureChannel3Attribute::Color(n) => lemma_name_ends_color(n),
        FixtureChannel3Attribute::ColorWheelIndex(n) => lemma_name_ends_color_wheel_index(n),
        FixtureChannel3Attribute::ColorWheelSpin(n) => lemma_name_ends_color_wheel_spin(n),
        FixtureChannel3Attribute::ColorWheelRandom(n) => lemma_name_ends_color_wheel_random(n),
        FixtureChannel3Attribute::ColorWheelAudio(n) => lemma_name_ends_color_wheel_audio(n),
        FixtureChannel3Attribute::ColorMacro(n) => lemma_name_ends_color_macro(n),
        FixtureChannel3Attribute::ColorMacroRate(n) => lemma_name_ends_color_macro_rate(n),
        FixtureChannel3Attribute::Shutter(n) => lemma_name_ends_shutter(n),
        FixtureChannel3Attribute::ShutterStrobe(n) => lemma_name_ends_shutter_strobe(n),
        FixtureChannel3Attribute::ShutterStrobePulse(n) => lemma_name_ends_shutter_strobe_pulse(n),
        FixtureChannel3Attribute::ShutterStrobePulseClose(n) => lemma_name_ends_shutter_strobe_pulse_close(n),
        FixtureChannel3Attribute::ShutterStrobePulseOpen(n) => lemma_name_ends_shutter_strobe_pulse_open(n),
        FixtureChannel3Attribute::ShutterStrobeRandom(n) => lemma_name_ends_shutter_strobe_random(n),
        FixtureChannel3Attribute::ShutterStrobeRandomPulse(n) => lemma_name_ends_shutter_strobe_random_pulse(n),
        FixtureChannel3Attribute::ShutterStrobeRandomPulseClose(n) => lemma_name_ends_shutter_strobe_random_pulse_close(n),
        FixtureChannel3Attribute::ShutterStrobeRandomPulseOpen(n) => lemma_name_ends_shutter_strobe_random_pulse_open(n),
        FixtureChannel3Attribute::ShutterStrobeEffect(n) => lemma_name_ends_shutter_strobe_effect(n),
        FixtureChannel3Attribute::Frost(n) => lemma_name_ends_frost(n),
        FixtureChannel3Attribute::FrostPulseOpen(n) => lemma_name_ends_frost_pulse_open(n),
        FixtureChannel3Attribute::FrostPulseClose(n) => lemma_name_ends_frost_pulse_close(n),
        FixtureChannel3Attribute::FrostRamp(n) => lemma_name_ends_frost_ramp(n),
        FixtureChannel3Attribute::Prism(n) => lemma_name_ends_prism(n),
        FixtureChannel3Attribute::PrismSelectSpin(n) => lemma_name_ends_prism_select_spin(n),
        FixtureChannel3Attribute::PrismMacro(n) => lemma_name_ends_prism_macro(n),
        FixtureChannel3Attribute::PrismPos(n) => lemma_name_ends_prism_pos(n),
        FixtureChannel3Attribute::PrismPosRotate(n) => lemma_name_ends_prism_pos_rotate(n),
        FixtureChannel3Attribute::Effects(n) => lemma_name_ends_effects(n),
        FixtureChannel3Attribute::EffectsRate(n) => lemma_name_ends_effects_rate(n),
        FixtureChannel3Attribute::EffectsFade(n) => lemma_name_ends_effects_fade(n),
        FixtureChannel3Attribute::EffectsAdjust(n, m) => lemma_name_ends_effects_adjust(n, m),
        FixtureChannel3Attribute::EffectsPos(n) => lemma_name_ends_effects_pos(n),
        FixtureChannel3Attribute::EffectsPosRotate(n) => lemma_name_ends_effects_pos_rotate(n),
        FixtureChannel3Attribute::Focus(n) => lemma_name_ends_focus(n),
        FixtureChannel3Attribute::FocusAdjust(n) => lemma_name_ends_focus_adjust(n),
        FixtureChannel3Attribute::FocusDistance(n) => lemma_name_ends_focus_distance(n),
        FixtureChannel3Attribute::Control(n) => lemma_name_ends_control(n),
        FixtureChannel3Attribute::GoboWheelMode(n) => lemma_name_ends_gobo_wheel_mode(n),
        FixtureChannel3Attribute::AnimationWheelMode(n) => lemma_name_ends_animation_wheel_mode(n),
        FixtureChannel3Attribute::ColorMode(n) => lemma_name_ends_color_mode(n),
        FixtureChannel3Attribute::FanMode(n) => lemma_name_ends_fan_mode(n),
        FixtureChannel3Attribute::GoboWheelMSpeed(n) => lemma_name_ends_gobo_wheel_m_speed(n),
        FixtureChannel3Attribute::PrismMSpeed(n) => lemma_name_ends_prism_m_speed(n),
        FixtureChannel3Attribute::FrostMSpeed(n) => lemma_name_ends_frost_m_speed(n),
        FixtureChannel3Attribute::Blower(n) => lemma_name_ends_blower(n),
        FixtureChannel3Attribute::Fan(n) => lemma_name_ends_fan(n),
        FixtureChannel3Attribute::Fog(n) => lemma_name_ends_fog(n),
        FixtureChannel3Attribute::Haze(n) => lemma_name_ends_haze(n),
        FixtureChannel3Attribute::BladeA(n) => lemma_name_ends_blade_a(n),
        FixtureChannel3Attribute::BladeB(n) => lemma_name_ends_blade_b(n),
        FixtureChannel3Attribute::BladeRot(n) => lemma_name_ends_blade_rot(n),
        FixtureChannel3Attribute::BladeSoftA(n) => lemma_name_ends_blade_soft_a(n),
        FixtureChannel3Attribute::BladeSoftB(n) => lemma_name_ends_blade_soft_b(n),
        FixtureChannel3Attribute::KeyStoneA(n) => lemma_name_ends_key_stone_a(n),
        FixtureChannel3Attribute::KeyStoneB(n) => lemma_name_ends_key_stone_b(n),
        FixtureChannel3Attribute::VideoEffectType(n) => lemma_name_ends_video_effect_type(n),
        FixtureChannel3Attribute::VideoEffectParameter(n, m) => lemma_name_ends_video_effect_parameter(n, m),
        FixtureChannel3Attribute::VideoCamera(n) => lemma_name_ends_video_camera(n),
        FixtureChannel3Attribute::VideoSoundVolume(n) => lemma_name_ends_video_sound_volume(n),
        _ => {
            if a is Dimmer || a is Pan || a is Tilt || a is PanRotate || a is TiltRotate || a is PositionEffect || a is PositionEffectRate || a is PositionEffectFade || a is ScaleX || a is ScaleY || a is ScaleZ || a is ScaleXYZ || a is PlayMode || a is PlayBegin || a is PlayEnd || a is PlaySpeed || a is Cto || a is Ctc || a is Ctb || a is Tint || a is HsbHue || a is HsbSaturation || a is HsbBrightness || a is HsbQuality || a is CieX || a is CieY || a is CieBrightness || a is VideoHueShift || a is VideoSaturation || a is VideoBrightness || a is VideoContrast || a is VideoKeyIntensity || a is VideoKeyTolerance || a is StrobeDuration || a is StrobeRate || a is StrobeFrequency || a is StrobeModeShutter || a is StrobeModeStrobe || a is StrobeModePulse || a is StrobeModePulseOpen || a is StrobeModePulseClose || a is StrobeModeRandom || a is StrobeModeRandomPulse || a is StrobeModeRandomPulseOpen || a is StrobeModeRandomPulseClose || a is StrobeModeEffect {
                lemma_name_ends_0(a);
            }
            if a is Iris || a is IrisStrobe || a is IrisStrobeRandom || a is IrisPulseClose || a is IrisPulseOpen || a is IrisRandomPulseClose || a is IrisRandomPulseOpen || a is EffectsSync || a is BeamShaper || a is BeamShaperMacro || a is Zoom || a is ZoomModeSpot || a is ZoomModeBeam || a is DigitalZoom || a is DimmerMode || a is DimmerCurve || a is BlackoutMode || a is LedFrequency || a is LedZoneMode || a is PixelMode || a is PanMode || a is TiltMode || a is PanTiltMode || a is PositionModes || a is GoboWheelShortcutMode || a is AnimationWheelShortcutMode || a is ColorWheelShortcutMode || a is CyanMode || a is MagentaMode || a is YellowMode || a is ColorMixMode || a is ChromaticMode || a is ColorCalibrationMode || a is ColorConsistency || a is ColorControl || a is ColorModelMode || a is ColorSettingsReset || a is ColorUniformity || a is CriMode || a is CustomColor || a is UvStability || a is WavelengthCorrection || a is WhiteCount || a is StrobeMode || a is ZoomMode || a is FocusMode {
                lemma_name_ends_1(a);
            }
            if a is IrisMode || a is FollowSpotMode || a is BeamEffectIndexRotateMode || a is IntensityMSpeed || a is PositionMSpeed || a is ColorMixMSpeed || a is ColorWheelSelectMSpeed || a is IrisMSpeed || a is FocusMSpeed || a is ZoomMSpeed || a is FrameMSpeed || a is GlobalMSpeed || a is ReflectorAdjust || a is FixtureGlobalReset || a is DimmerReset || a is ShutterReset || a is BeamReset || a is ColorMixReset || a is ColorWheelReset || a is FocusReset || a is FrameReset || a is GoboWheelReset || a is IntensityReset || a is IrisReset || a is PositionReset || a is PanReset || a is TiltReset || a is ZoomReset || a is CtbReset || a is CtoReset || a is CtcReset || a is AnimationSystemReset || a is FixtureCalibrationReset || a is Function || a is LampControl || a is DisplayIntensity || a is DmxInput || a is NoFeature || a is LampPowerMode || a is Fans || a is ShaperMacros || a is ShaperMacrosSpeed || a is Video || a is VideoBlendMode || a is InputSource || a is FieldOfView {
                lemma_name_ends_2(a);
            }
            if pretty_name_spelled_out(a) {
                lemma_spelled_out_names_not_empty(a);
            }
        },
    }
}

} // verus!
