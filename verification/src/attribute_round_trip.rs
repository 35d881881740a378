//! Reading back what an attribute is written as.
//!
//! Every attribute but a custom one is written as a GDTF name
//! ([`attribute_text`]); reading that name ([`attribute_from_text`]) gives the
//! attribute back, except for the few attributes whose written name another
//! reading rule claims first. The proofs go name by name: a written name is
//! told apart from every name or numbering rule that comes before its own.

use vstd::prelude::*;
use crate::attribute::{
    FixtureChannel3Attribute, attribute_from_text, attribute_text, exact_attribute, exact_attribute_0,
    exact_attribute_1, exact_attribute_2, exact_attribute_3, extract_n, extract_n_m, extract_n_suffix,
    find_from, numbered_attribute_0, numbered_attribute_1, numbered_attribute_2,
};
use crate::text::{
    decimal, is_digit, lemma_decimal_digits, lemma_decimal_len_u8, lemma_parse_decimal,
    lemma_parse_nondigit,
};

verus! {

/// A name that differs from `p` at a position before the end of both does
/// not start with `p`, so no numbering rule with prefix `p` applies.
proof fn lemma_prefix_mismatch(s: Seq<char>, p: Seq<char>, i: int)
    requires
        0 <= i < p.len(),
        i < s.len(),
        s[i] != p[i],
    ensures
        extract_n(s, p) is None,
        forall|x: Seq<char>| #[trigger] extract_n_suffix(s, p, x) is None,
        forall|x: Seq<char>| #[trigger] extract_n_m(s, p, x) is None,
{
    assert(!p.is_prefix_of(s)) by {
        if p.is_prefix_of(s) {
            assert(s.subrange(0, p.len() as int)[i] == s[i]);
        }
    }
}

/// A name whose text after `p` holds a character that is not a digit (and
/// does not start with `+`) is not `p` and a number.
proof fn lemma_rest_not_number(s: Seq<char>, p: Seq<char>, i: int)
    requires
        0 <= i,
        p.len() + i < s.len(),
        !is_digit(s[p.len() + i]),
        i > 0 || s[p.len() as int] != '+',
    ensures
        extract_n(s, p) is None,
{
    if p.is_prefix_of(s) {
        let rest = s.subrange(p.len() as int, s.len() as int);
        assert(rest[i] == s[p.len() + i]);
        lemma_parse_nondigit(rest, i, 255);
    }
}

/// A name whose `j`-th character from the end differs from that of `x`
/// does not end with `x`.
proof fn lemma_suffix_mismatch(s: Seq<char>, p: Seq<char>, x: Seq<char>, j: int)
    requires
        0 <= j < x.len(),
        p.len() + j < s.len(),
        s[s.len() - 1 - j] != x[x.len() - 1 - j],
    ensures
        extract_n_suffix(s, p, x) is None,
{
    if p.is_prefix_of(s) {
        let rest = s.subrange(p.len() as int, s.len() as int);
        if x.is_suffix_of(rest) {
            let k = x.len() - 1 - j;
            assert(rest.subrange(rest.len() - x.len(), rest.len() as int)[k] == rest[rest.len() - 1 - j]);
        }
    }
}

/// A name whose text between `p` and the ending `x` holds a character that
/// is not a digit (and does not start with `+`) is not `p`, a number and
/// `x`.
proof fn lemma_middle_not_number(s: Seq<char>, p: Seq<char>, x: Seq<char>, i: int)
    requires
        0 <= i,
        p.len() + i + x.len() < s.len(),
        !is_digit(s[p.len() + i]),
        i > 0 || s[p.len() as int] != '+',
    ensures
        extract_n_suffix(s, p, x) is None,
{
    if p.is_prefix_of(s) {
        let rest = s.subrange(p.len() as int, s.len() as int);
        if x.is_suffix_of(rest) {
            let mid = rest.subrange(0, rest.len() - x.len());
            assert(mid[i] == s[p.len() + i]);
            lemma_parse_nondigit(mid, i, 255);
        }
    }
}

/// `a` followed by the digits of `n` reads as `n` by the rule with prefix `a`.
proof fn lemma_number_after(a: Seq<char>, n: u8)
    ensures
        extract_n(a + decimal(n as nat), a) == Some(n),
{
    let s = a + decimal(n as nat);
    assert(s.subrange(0, a.len() as int) =~= a);
    assert(s.subrange(a.len() as int, s.len() as int) =~= decimal(n as nat));
    lemma_parse_decimal(n as nat, 255);
}

/// `a`, the digits of `n` and `b` read as `n` by the rule with prefix `a`
/// and ending `b`.
proof fn lemma_number_between(a: Seq<char>, b: Seq<char>, n: u8)
    ensures
        extract_n_suffix(a + decimal(n as nat) + b, a, b) == Some(n),
{
    let d = decimal(n as nat);
    let s = a + d + b;
    assert(s.subrange(0, a.len() as int) =~= a);
    let rest = s.subrange(a.len() as int, s.len() as int);
    assert(rest =~= d + b);
    assert(rest.subrange(rest.len() - b.len(), rest.len() as int) =~= b);
    assert(rest.subrange(0, rest.len() - b.len()) =~= d);
    lemma_parse_decimal(n as nat, 255);
}

proof fn lemma_find_none(s: Seq<char>, m: Seq<char>, i: int)
    requires
        0 <= i,
        m.len() > 0,
        forall|k: int| i <= k < s.len() ==> s[k] != m[0],
    ensures
        find_from(s, m, i) is None,
    decreases s.len() + 1 - i,
{
    if i + m.len() <= s.len() {
        assert(s.subrange(i, i + m.len())[0] == s[i]);
        lemma_find_none(s, m, i + 1);
    }
}

proof fn lemma_find_first(s: Seq<char>, m: Seq<char>, i: int, q: int)
    requires
        0 <= i <= q,
        m.len() > 0,
        q + m.len() <= s.len(),
        s.subrange(q, q + m.len()) == m,
        forall|k: int| i <= k < q ==> s[k] != m[0],
    ensures
        find_from(s, m, i) == Some(q),
    decreases q - i,
{
    if i < q {
        assert(s.subrange(i, i + m.len())[0] == s[i]);
        lemma_find_first(s, m, i + 1, q);
    }
}

/// A name whose text after `p` never holds the first character of `m` is
/// not `p`, a number, `m` and a number.
proof fn lemma_no_middle(s: Seq<char>, p: Seq<char>, m: Seq<char>)
    requires
        m.len() > 0,
        forall|k: int| p.len() <= k < s.len() ==> s[k] != m[0],
    ensures
        extract_n_m(s, p, m) is None,
{
    if p.is_prefix_of(s) {
        let rest = s.subrange(p.len() as int, s.len() as int);
        assert forall|k: int| 0 <= k < rest.len() implies rest[k] != m[0] by {
            assert(rest[k] == s[p.len() + k]);
        }
        lemma_find_none(rest, m, 0);
    }
}

/// `a`, the digits of `n`, `b` and the digits of `m` read as `n` and `m` by
/// the rule with prefix `a` and middle `b`, when `b` starts with a
/// character that is not a digit.
proof fn lemma_numbers_around(a: Seq<char>, b: Seq<char>, n: u8, m: u8)
    requires
        b.len() > 0,
        !is_digit(b[0]),
    ensures
        extract_n_m(a + decimal(n as nat) + b + decimal(m as nat), a, b) == Some((n, m)),
{
    let d = decimal(n as nat);
    let e = decimal(m as nat);
    lemma_decimal_digits(n as nat);
    let s = a + d + b + e;
    assert(s.subrange(0, a.len() as int) =~= a);
    let rest = s.subrange(a.len() as int, s.len() as int);
    assert(rest =~= d + b + e);
    assert(rest.subrange(d.len() as int, (d.len() + b.len()) as int) =~= b);
    assert forall|k: int| 0 <= k < d.len() implies rest[k] != b[0] by {
        assert(rest[k] == d[k]);
        assert(is_digit(d[k]));
    }
    lemma_find_first(rest, b, 0, d.len() as int);
    assert(rest.subrange(0, d.len() as int) =~= d);
    assert(rest.subrange((d.len() + b.len()) as int, rest.len() as int) =~= e);
    lemma_parse_decimal(n as nat, 255);
    lemma_parse_decimal(m as nat, 255);
}

/// A standard attribute name reads as the attribute it names.
proof fn lemma_from_text_of_exact(s: Seq<char>)
    requires
        exact_attribute(s) is Some,
    ensures
        attribute_from_text(s) == exact_attribute(s),
{
}

/// The lengths of the names in part 0 of the name table.
proof fn lemma_name_lengths_0()
    ensures
        "Dimmer"@.len() == 6,
        "Pan"@.len() == 3,
        "Tilt"@.len() == 4,
        "PanRotate"@.len() == 9,
        "TiltRotate"@.len() == 10,
        "PositionEffect"@.len() == 14,
        "PositionEffectRate"@.len() == 18,
        "PositionEffectFade"@.len() == 18,
        "XYZ_X"@.len() == 5,
        "XYZ_Y"@.len() == 5,
        "XYZ_Z"@.len() == 5,
        "Rot_X"@.len() == 5,
        "Rot_Y"@.len() == 5,
        "Rot_Z"@.len() == 5,
        "Scale_X"@.len() == 7,
        "Scale_Y"@.len() == 7,
        "Scale_Z"@.len() == 7,
        "Scale_XYZ"@.len() == 9,
        "PlayMode"@.len() == 8,
        "PlayBegin"@.len() == 9,
        "PlayEnd"@.len() == 7,
        "PlaySpeed"@.len() == 9,
        "ColorAdd_R"@.len() == 10,
        "ColorAdd_G"@.len() == 10,
        "ColorAdd_B"@.len() == 10,
        "ColorAdd_C"@.len() == 10,
        "ColorAdd_M"@.len() == 10,
        "ColorAdd_Y"@.len() == 10,
        "ColorAdd_RY"@.len() == 11,
        "ColorAdd_GY"@.len() == 11,
        "ColorAdd_GC"@.len() == 11,
        "ColorAdd_BC"@.len() == 11,
        "ColorAdd_BM"@.len() == 11,
        "ColorAdd_RM"@.len() == 11,
        "ColorAdd_W"@.len() == 10,
        "ColorAdd_WW"@.len() == 11,
        "ColorAdd_CW"@.len() == 11,
        "ColorAdd_UV"@.len() == 11,
        "ColorSub_R"@.len() == 10,
        "ColorSub_G"@.len() == 10,
        "ColorSub_B"@.len() == 10,
        "ColorSub_C"@.len() == 10,
        "ColorSub_M"@.len() == 10,
        "ColorSub_Y"@.len() == 10,
        "CTO"@.len() == 3,
        "CTC"@.len() == 3,
{
    reveal_strlit("Dimmer");
    reveal_strlit("Pan");
    reveal_strlit("Tilt");
    reveal_strlit("PanRotate");
    reveal_strlit("TiltRotate");
    reveal_strlit("PositionEffect");
    reveal_strlit("PositionEffectRate");
    reveal_strlit("PositionEffectFade");
    reveal_strlit("XYZ_X");
    reveal_strlit("XYZ_Y");
    reveal_strlit("XYZ_Z");
    reveal_strlit("Rot_X");
    reveal_strlit("Rot_Y");
    reveal_strlit("Rot_Z");
    reveal_strlit("Scale_X");
    reveal_strlit("Scale_Y");
    reveal_strlit("Scale_Z");
    reveal_strlit("Scale_XYZ");
    reveal_strlit("PlayMode");
    reveal_strlit("PlayBegin");
    reveal_strlit("PlayEnd");
    reveal_strlit("PlaySpeed");
    reveal_strlit("ColorAdd_R");
    reveal_strlit("ColorAdd_G");
    reveal_strlit("ColorAdd_B");
    reveal_strlit("ColorAdd_C");
    reveal_strlit("ColorAdd_M");
    reveal_strlit("ColorAdd_Y");
    reveal_strlit("ColorAdd_RY");
    reveal_strlit("ColorAdd_GY");
    reveal_strlit("ColorAdd_GC");
    reveal_strlit("ColorAdd_BC");
    reveal_strlit("ColorAdd_BM");
    reveal_strlit("ColorAdd_RM");
    reveal_strlit("ColorAdd_W");
    reveal_strlit("ColorAdd_WW");
    reveal_strlit("ColorAdd_CW");
    reveal_strlit("ColorAdd_UV");
    reveal_strlit("ColorSub_R");
    reveal_strlit("ColorSub_G");
    reveal_strlit("ColorSub_B");
    reveal_strlit("ColorSub_C");
    reveal_strlit("ColorSub_M");
    reveal_strlit("ColorSub_Y");
    reveal_strlit("CTO");
    reveal_strlit("CTC");
}

/// The lengths of the names in part 1 of the name table.
proof fn lemma_name_lengths_1()
    ensures
        "CTB"@.len() == 3,
        "Tint"@.len() == 4,
        "HSB_Hue"@.len() == 7,
        "HSB_Saturation"@.len() == 14,
        "HSB_Brightness"@.len() == 14,
        "HSB_Quality"@.len() == 11,
        "CIE_X"@.len() == 5,
        "CIE_Y"@.len() == 5,
        "CIE_Brightness"@.len() == 14,
        "ColorRGB_Red"@.len() == 12,
        "ColorRGB_Green"@.len() == 14,
        "ColorRGB_Blue"@.len() == 13,
        "ColorRGB_Cyan"@.len() == 13,
        "ColorRGB_Magenta"@.len() == 16,
        "ColorRGB_Yellow"@.len() == 15,
        "ColorRGB_Quality"@.len() == 16,
        "VideoBoost_R"@.len() == 12,
        "VideoBoost_G"@.len() == 12,
        "VideoBoost_B"@.len() == 12,
        "VideoHueShift"@.len() == 13,
        "VideoSaturation"@.len() == 15,
        "VideoBrightness"@.len() == 15,
        "VideoContrast"@.len() == 13,
        "VideoKeyColor_R"@.len() == 15,
        "VideoKeyColor_G"@.len() == 15,
        "VideoKeyColor_B"@.len() == 15,
        "VideoKeyIntensity"@.len() == 17,
        "VideoKeyTolerance"@.len() == 17,
        "StrobeDuration"@.len() == 14,
        "StrobeRate"@.len() == 10,
        "StrobeFrequency"@.len() == 15,
        "StrobeModeShutter"@.len() == 17,
        "StrobeModeStrobe"@.len() == 16,
        "StrobeModePulse"@.len() == 15,
        "StrobeModePulseOpen"@.len() == 19,
        "StrobeModePulseClose"@.len() == 20,
        "StrobeModeRandom"@.len() == 16,
        "StrobeModeRandomPulse"@.len() == 21,
        "StrobeModeRandomPulseOpen"@.len() == 25,
        "StrobeModeRandomPulseClose"@.len() == 26,
        "StrobeModeEffect"@.len() == 16,
        "Iris"@.len() == 4,
        "IrisStrobe"@.len() == 10,
        "IrisStrobeRandom"@.len() == 16,
        "IrisPulseClose"@.len() == 14,
        "IrisPulseOpen"@.len() == 13,
{
    reveal_strlit("CTB");
    reveal_strlit("Tint");
    reveal_strlit("HSB_Hue");
    reveal_strlit("HSB_Saturation");
    reveal_strlit("HSB_Brightness");
    reveal_strlit("HSB_Quality");
    reveal_strlit("CIE_X");
    reveal_strlit("CIE_Y");
    reveal_strlit("CIE_Brightness");
    reveal_strlit("ColorRGB_Red");
    reveal_strlit("ColorRGB_Green");
    reveal_strlit("ColorRGB_Blue");
    reveal_strlit("ColorRGB_Cyan");
    reveal_strlit("ColorRGB_Magenta");
    reveal_strlit("ColorRGB_Yellow");
    reveal_strlit("ColorRGB_Quality");
    reveal_strlit("VideoBoost_R");
    reveal_strlit("VideoBoost_G");
    reveal_strlit("VideoBoost_B");
    reveal_strlit("VideoHueShift");
    reveal_strlit("VideoSaturation");
    reveal_strlit("VideoBrightness");
    reveal_strlit("VideoContrast");
    reveal_strlit("VideoKeyColor_R");
    reveal_strlit("VideoKeyColor_G");
    reveal_strlit("VideoKeyColor_B");
    reveal_strlit("VideoKeyIntensity");
    reveal_strlit("VideoKeyTolerance");
    reveal_strlit("StrobeDuration");
    reveal_strlit("StrobeRate");
    reveal_strlit("StrobeFrequency");
    reveal_strlit("StrobeModeShutter");
    reveal_strlit("StrobeModeStrobe");
    reveal_strlit("StrobeModePulse");
    reveal_strlit("StrobeModePulseOpen");
    reveal_strlit("StrobeModePulseClose");
    reveal_strlit("StrobeModeRandom");
    reveal_strlit("StrobeModeRandomPulse");
    reveal_strlit("StrobeModeRandomPulseOpen");
    reveal_strlit("StrobeModeRandomPulseClose");
    reveal_strlit("StrobeModeEffect");
    reveal_strlit("Iris");
    reveal_strlit("IrisStrobe");
    reveal_strlit("IrisStrobeRandom");
    reveal_strlit("IrisPulseClose");
    reveal_strlit("IrisPulseOpen");
}

/// The lengths of the names in part 2 of the name table.
proof fn lemma_name_lengths_2()
    ensures
        "IrisRandomPulseClose"@.len() == 20,
        "IrisRandomPulseOpen"@.len() == 19,
        "EffectsSync"@.len() == 11,
        "BeamShaper"@.len() == 10,
        "BeamShaperMacro"@.len() == 15,
        "BeamShaperPos"@.len() == 13,
        "BeamShaperPosRotate"@.len() == 19,
        "Zoom"@.len() == 4,
        "ZoomModeSpot"@.len() == 12,
        "ZoomModeBeam"@.len() == 12,
        "DigitalZoom"@.len() == 11,
        "DimmerMode"@.len() == 10,
        "DimmerCurve"@.len() == 11,
        "BlackoutMode"@.len() == 12,
        "LEDFrequency"@.len() == 12,
        "LEDZoneMode"@.len() == 11,
        "PixelMode"@.len() == 9,
        "PanMode"@.len() == 7,
        "TiltMode"@.len() == 8,
        "PanTiltMode"@.len() == 11,
        "PositionModes"@.len() == 13,
        "GoboWheelShortcutMode"@.len() == 21,
        "AnimationWheelShortcutMode"@.len() == 26,
        "ColorWheelShortcutMode"@.len() == 22,
        "CyanMode"@.len() == 8,
        "MagentaMode"@.len() == 11,
        "YellowMode"@.len() == 10,
        "ColorMixMode"@.len() == 12,
        "ChromaticMode"@.len() == 13,
        "ColorCalibrationMode"@.len() == 20,
        "ColorConsistency"@.len() == 16,
        "ColorControl"@.len() == 12,
        "ColorModelMode"@.len() == 14,
        "ColorSettingsReset"@.len() == 18,
        "ColorUniformity"@.len() == 15,
        "CRIMode"@.len() == 7,
        "CustomColor"@.len() == 11,
        "UVStability"@.len() == 11,
        "WavelengthCorrection"@.len() == 20,
        "WhiteCount"@.len() == 10,
        "StrobeMode"@.len() == 10,
        "ZoomMode"@.len() == 8,
        "FocusMode"@.len() == 9,
        "IrisMode"@.len() == 8,
        "FollowSpotMode"@.len() == 14,
        "BeamEffectIndexRotateMode"@.len() == 25,
{
    reveal_strlit("IrisRandomPulseClose");
    reveal_strlit("IrisRandomPulseOpen");
    reveal_strlit("EffectsSync");
    reveal_strlit("BeamShaper");
    reveal_strlit("BeamShaperMacro");
    reveal_strlit("BeamShaperPos");
    reveal_strlit("BeamShaperPosRotate");
    reveal_strlit("Zoom");
    reveal_strlit("ZoomModeSpot");
    reveal_strlit("ZoomModeBeam");
    reveal_strlit("DigitalZoom");
    reveal_strlit("DimmerMode");
    reveal_strlit("DimmerCurve");
    reveal_strlit("BlackoutMode");
    reveal_strlit("LEDFrequency");
    reveal_strlit("LEDZoneMode");
    reveal_strlit("PixelMode");
    reveal_strlit("PanMode");
    reveal_strlit("TiltMode");
    reveal_strlit("PanTiltMode");
    reveal_strlit("PositionModes");
    reveal_strlit("GoboWheelShortcutMode");
    reveal_strlit("AnimationWheelShortcutMode");
    reveal_strlit("ColorWheelShortcutMode");
    reveal_strlit("CyanMode");
    reveal_strlit("MagentaMode");
    reveal_strlit("YellowMode");
    reveal_strlit("ColorMixMode");
    reveal_strlit("ChromaticMode");
    reveal_strlit("ColorCalibrationMode");
    reveal_strlit("ColorConsistency");
    reveal_strlit("ColorControl");
    reveal_strlit("ColorModelMode");
    reveal_strlit("ColorSettingsReset");
    reveal_strlit("ColorUniformity");
    reveal_strlit("CRIMode");
    reveal_strlit("CustomColor");
    reveal_strlit("UVStability");
    reveal_strlit("WavelengthCorrection");
    reveal_strlit("WhiteCount");
    reveal_strlit("StrobeMode");
    reveal_strlit("ZoomMode");
    reveal_strlit("FocusMode");
    reveal_strlit("IrisMode");
    reveal_strlit("FollowSpotMode");
    reveal_strlit("BeamEffectIndexRotateMode");
}

/// The lengths of the names in part 3 of the name table.
proof fn lemma_name_lengths_3()
    ensures
        "IntensityMSpeed"@.len() == 15,
        "PositionMSpeed"@.len() == 14,
        "ColorMixMSpeed"@.len() == 14,
        "ColorWheelSelectMSpeed"@.len() == 22,
        "IrisMSpeed"@.len() == 10,
        "FocusMSpeed"@.len() == 11,
        "ZoomMSpeed"@.len() == 10,
        "FrameMSpeed"@.len() == 11,
        "GlobalMSpeed"@.len() == 12,
        "ReflectorAdjust"@.len() == 15,
        "FixtureGlobalReset"@.len() == 18,
        "DimmerReset"@.len() == 11,
        "ShutterReset"@.len() == 12,
        "BeamReset"@.len() == 9,
        "ColorMixReset"@.len() == 13,
        "ColorWheelReset"@.len() == 15,
        "FocusReset"@.len() == 10,
        "FrameReset"@.len() == 10,
        "GoboWheelReset"@.len() == 14,
        "IntensityReset"@.len() == 14,
        "IrisReset"@.len() == 9,
        "PositionReset"@.len() == 13,
        "PanReset"@.len() == 8,
        "TiltReset"@.len() == 9,
        "ZoomReset"@.len() == 9,
        "CTBReset"@.len() == 8,
        "CTOReset"@.len() == 8,
        "CTCReset"@.len() == 8,
        "AnimationSystemReset"@.len() == 20,
        "FixtureCalibrationReset"@.len() == 23,
        "Function"@.len() == 8,
        "LampControl"@.len() == 11,
        "DisplayIntensity"@.len() == 16,
        "DMXInput"@.len() == 8,
        "NoFeature"@.len() == 9,
        "LampPowerMode"@.len() == 13,
        "Fans"@.len() == 4,
        "ShaperRot"@.len() == 9,
        "ShaperMacros"@.len() == 12,
        "ShaperMacrosSpeed"@.len() == 17,
        "Video"@.len() == 5,
        "VideoBlendMode"@.len() == 14,
        "InputSource"@.len() == 11,
        "FieldOfView"@.len() == 11,
{
    reveal_strlit("IntensityMSpeed");
    reveal_strlit("PositionMSpeed");
    reveal_strlit("ColorMixMSpeed");
    reveal_strlit("ColorWheelSelectMSpeed");
    reveal_strlit("IrisMSpeed");
    reveal_strlit("FocusMSpeed");
    reveal_strlit("ZoomMSpeed");
    reveal_strlit("FrameMSpeed");
    reveal_strlit("GlobalMSpeed");
    reveal_strlit("ReflectorAdjust");
    reveal_strlit("FixtureGlobalReset");
    reveal_strlit("DimmerReset");
    reveal_strlit("ShutterReset");
    reveal_strlit("BeamReset");
    reveal_strlit("ColorMixReset");
    reveal_strlit("ColorWheelReset");
    reveal_strlit("FocusReset");
    reveal_strlit("FrameReset");
    reveal_strlit("GoboWheelReset");
    reveal_strlit("IntensityReset");
    reveal_strlit("IrisReset");
    reveal_strlit("PositionReset");
    reveal_strlit("PanReset");
    reveal_strlit("TiltReset");
    reveal_strlit("ZoomReset");
    reveal_strlit("CTBReset");
    reveal_strlit("CTOReset");
    reveal_strlit("CTCReset");
    reveal_strlit("AnimationSystemReset");
    reveal_strlit("FixtureCalibrationReset");
    reveal_strlit("Function");
    reveal_strlit("LampControl");
    reveal_strlit("DisplayIntensity");
    reveal_strlit("DMXInput");
    reveal_strlit("NoFeature");
    reveal_strlit("LampPowerMode");
    reveal_strlit("Fans");
    reveal_strlit("ShaperRot");
    reveal_strlit("ShaperMacros");
    reveal_strlit("ShaperMacrosSpeed");
    reveal_strlit("Video");
    reveal_strlit("VideoBlendMode");
    reveal_strlit("InputSource");
    reveal_strlit("FieldOfView");
}

/// No name in part 0 of the name table holds a digit.
proof fn lemma_names_without_digits_0()
    ensures
        forall|i: int| 0 <= i < "Dimmer"@.len() ==> !is_digit(#[trigger] "Dimmer"@[i]),
        forall|i: int| 0 <= i < "Pan"@.len() ==> !is_digit(#[trigger] "Pan"@[i]),
        forall|i: int| 0 <= i < "Tilt"@.len() ==> !is_digit(#[trigger] "Tilt"@[i]),
        forall|i: int| 0 <= i < "PanRotate"@.len() ==> !is_digit(#[trigger] "PanRotate"@[i]),
        forall|i: int| 0 <= i < "TiltRotate"@.len() ==> !is_digit(#[trigger] "TiltRotate"@[i]),
        forall|i: int| 0 <= i < "PositionEffect"@.len() ==> !is_digit(#[trigger] "PositionEffect"@[i]),
        forall|i: int| 0 <= i < "PositionEffectRate"@.len() ==> !is_digit(#[trigger] "PositionEffectRate"@[i]),
        forall|i: int| 0 <= i < "PositionEffectFade"@.len() ==> !is_digit(#[trigger] "PositionEffectFade"@[i]),
        forall|i: int| 0 <= i < "XYZ_X"@.len() ==> !is_digit(#[trigger] "XYZ_X"@[i]),
        forall|i: int| 0 <= i < "XYZ_Y"@.len() ==> !is_digit(#[trigger] "XYZ_Y"@[i]),
        forall|i: int| 0 <= i < "XYZ_Z"@.len() ==> !is_digit(#[trigger] "XYZ_Z"@[i]),
        forall|i: int| 0 <= i < "Rot_X"@.len() ==> !is_digit(#[trigger] "Rot_X"@[i]),
        forall|i: int| 0 <= i < "Rot_Y"@.len() ==> !is_digit(#[trigger] "Rot_Y"@[i]),
        forall|i: int| 0 <= i < "Rot_Z"@.len() ==> !is_digit(#[trigger] "Rot_Z"@[i]),
        forall|i: int| 0 <= i < "Scale_X"@.len() ==> !is_digit(#[trigger] "Scale_X"@[i]),
        forall|i: int| 0 <= i < "Scale_Y"@.len() ==> !is_digit(#[trigger] "Scale_Y"@[i]),
        forall|i: int| 0 <= i < "Scale_Z"@.len() ==> !is_digit(#[trigger] "Scale_Z"@[i]),
        forall|i: int| 0 <= i < "Scale_XYZ"@.len() ==> !is_digit(#[trigger] "Scale_XYZ"@[i]),
        forall|i: int| 0 <= i < "PlayMode"@.len() ==> !is_digit(#[trigger] "PlayMode"@[i]),
        forall|i: int| 0 <= i < "PlayBegin"@.len() ==> !is_digit(#[trigger] "PlayBegin"@[i]),
        forall|i: int| 0 <= i < "PlayEnd"@.len() ==> !is_digit(#[trigger] "PlayEnd"@[i]),
        forall|i: int| 0 <= i < "PlaySpeed"@.len() ==> !is_digit(#[trigger] "PlaySpeed"@[i]),
        forall|i: int| 0 <= i < "ColorAdd_R"@.len() ==> !is_digit(#[trigger] "ColorAdd_R"@[i]),
        forall|i: int| 0 <= i < "ColorAdd_G"@.len() ==> !is_digit(#[trigger] "ColorAdd_G"@[i]),
        forall|i: int| 0 <= i < "ColorAdd_B"@.len() ==> !is_digit(#[trigger] "ColorAdd_B"@[i]),
        forall|i: int| 0 <= i < "ColorAdd_C"@.len() ==> !is_digit(#[trigger] "ColorAdd_C"@[i]),
        forall|i: int| 0 <= i < "ColorAdd_M"@.len() ==> !is_digit(#[trigger] "ColorAdd_M"@[i]),
        forall|i: int| 0 <= i < "ColorAdd_Y"@.len() ==> !is_digit(#[trigger] "ColorAdd_Y"@[i]),
        forall|i: int| 0 <= i < "ColorAdd_RY"@.len() ==> !is_digit(#[trigger] "ColorAdd_RY"@[i]),
        forall|i: int| 0 <= i < "ColorAdd_GY"@.len() ==> !is_digit(#[trigger] "ColorAdd_GY"@[i]),
        forall|i: int| 0 <= i < "ColorAdd_GC"@.len() ==> !is_digit(#[trigger] "ColorAdd_GC"@[i]),
        forall|i: int| 0 <= i < "ColorAdd_BC"@.len() ==> !is_digit(#[trigger] "ColorAdd_BC"@[i]),
        forall|i: int| 0 <= i < "ColorAdd_BM"@.len() ==> !is_digit(#[trigger] "ColorAdd_BM"@[i]),
        forall|i: int| 0 <= i < "ColorAdd_RM"@.len() ==> !is_digit(#[trigger] "ColorAdd_RM"@[i]),
        forall|i: int| 0 <= i < "ColorAdd_W"@.len() ==> !is_digit(#[trigger] "ColorAdd_W"@[i]),
        forall|i: int| 0 <= i < "ColorAdd_WW"@.len() ==> !is_digit(#[trigger] "ColorAdd_WW"@[i]),
        forall|i: int| 0 <= i < "ColorAdd_CW"@.len() ==> !is_digit(#[trigger] "ColorAdd_CW"@[i]),
        forall|i: int| 0 <= i < "ColorAdd_UV"@.len() ==> !is_digit(#[trigger] "ColorAdd_UV"@[i]),
        forall|i: int| 0 <= i < "ColorSub_R"@.len() ==> !is_digit(#[trigger] "ColorSub_R"@[i]),
        forall|i: int| 0 <= i < "ColorSub_G"@.len() ==> !is_digit(#[trigger] "ColorSub_G"@[i]),
        forall|i: int| 0 <= i < "ColorSub_B"@.len() ==> !is_digit(#[trigger] "ColorSub_B"@[i]),
        forall|i: int| 0 <= i < "ColorSub_C"@.len() ==> !is_digit(#[trigger] "ColorSub_C"@[i]),
        forall|i: int| 0 <= i < "ColorSub_M"@.len() ==> !is_digit(#[trigger] "ColorSub_M"@[i]),
        forall|i: int| 0 <= i < "ColorSub_Y"@.len() ==> !is_digit(#[trigger] "ColorSub_Y"@[i]),
        forall|i: int| 0 <= i < "CTO"@.len() ==> !is_digit(#[trigger] "CTO"@[i]),
        forall|i: int| 0 <= i < "CTC"@.len() ==> !is_digit(#[trigger] "CTC"@[i]),
{
    reveal_strlit("Dimmer");
    reveal_strlit("Pan");
    reveal_strlit("Tilt");
    reveal_strlit("PanRotate");
    reveal_strlit("TiltRotate");
    reveal_strlit("PositionEffect");
    reveal_strlit("PositionEffectRate");
    reveal_strlit("PositionEffectFade");
    reveal_strlit("XYZ_X");
    reveal_strlit("XYZ_Y");
    reveal_strlit("XYZ_Z");
    reveal_strlit("Rot_X");
    reveal_strlit("Rot_Y");
    reveal_strlit("Rot_Z");
    reveal_strlit("Scale_X");
    reveal_strlit("Scale_Y");
    reveal_strlit("Scale_Z");
    reveal_strlit("Scale_XYZ");
    reveal_strlit("PlayMode");
    reveal_strlit("PlayBegin");
    reveal_strlit("PlayEnd");
    reveal_strlit("PlaySpeed");
    reveal_strlit("ColorAdd_R");
    reveal_strlit("ColorAdd_G");
    reveal_strlit("ColorAdd_B");
    reveal_strlit("ColorAdd_C");
    reveal_strlit("ColorAdd_M");
    reveal_strlit("ColorAdd_Y");
    reveal_strlit("ColorAdd_RY");
    reveal_strlit("ColorAdd_GY");
    reveal_strlit("ColorAdd_GC");
    reveal_strlit("ColorAdd_BC");
    reveal_strlit("ColorAdd_BM");
    reveal_strlit("ColorAdd_RM");
    reveal_strlit("ColorAdd_W");
    reveal_strlit("ColorAdd_WW");
    reveal_strlit("ColorAdd_CW");
    reveal_strlit("ColorAdd_UV");
    reveal_strlit("ColorSub_R");
    reveal_strlit("ColorSub_G");
    reveal_strlit("ColorSub_B");
    reveal_strlit("ColorSub_C");
    reveal_strlit("ColorSub_M");
    reveal_strlit("ColorSub_Y");
    reveal_strlit("CTO");
    reveal_strlit("CTC");
}

/// No name in part 1 of the name table holds a digit.
proof fn lemma_names_without_digits_1()
    ensures
        forall|i: int| 0 <= i < "CTB"@.len() ==> !is_digit(#[trigger] "CTB"@[i]),
        forall|i: int| 0 <= i < "Tint"@.len() ==> !is_digit(#[trigger] "Tint"@[i]),
        forall|i: int| 0 <= i < "HSB_Hue"@.len() ==> !is_digit(#[trigger] "HSB_Hue"@[i]),
        forall|i: int| 0 <= i < "HSB_Saturation"@.len() ==> !is_digit(#[trigger] "HSB_Saturation"@[i]),
        forall|i: int| 0 <= i < "HSB_Brightness"@.len() ==> !is_digit(#[trigger] "HSB_Brightness"@[i]),
        forall|i: int| 0 <= i < "HSB_Quality"@.len() ==> !is_digit(#[trigger] "HSB_Quality"@[i]),
        forall|i: int| 0 <= i < "CIE_X"@.len() ==> !is_digit(#[trigger] "CIE_X"@[i]),
        forall|i: int| 0 <= i < "CIE_Y"@.len() ==> !is_digit(#[trigger] "CIE_Y"@[i]),
        forall|i: int| 0 <= i < "CIE_Brightness"@.len() ==> !is_digit(#[trigger] "CIE_Brightness"@[i]),
        forall|i: int| 0 <= i < "ColorRGB_Red"@.len() ==> !is_digit(#[trigger] "ColorRGB_Red"@[i]),
        forall|i: int| 0 <= i < "ColorRGB_Green"@.len() ==> !is_digit(#[trigger] "ColorRGB_Green"@[i]),
        forall|i: int| 0 <= i < "ColorRGB_Blue"@.len() ==> !is_digit(#[trigger] "ColorRGB_Blue"@[i]),
        forall|i: int| 0 <= i < "ColorRGB_Cyan"@.len() ==> !is_digit(#[trigger] "ColorRGB_Cyan"@[i]),
        forall|i: int| 0 <= i < "ColorRGB_Magenta"@.len() ==> !is_digit(#[trigger] "ColorRGB_Magenta"@[i]),
        forall|i: int| 0 <= i < "ColorRGB_Yellow"@.len() ==> !is_digit(#[trigger] "ColorRGB_Yellow"@[i]),
        forall|i: int| 0 <= i < "ColorRGB_Quality"@.len() ==> !is_digit(#[trigger] "ColorRGB_Quality"@[i]),
        forall|i: int| 0 <= i < "VideoBoost_R"@.len() ==> !is_digit(#[trigger] "VideoBoost_R"@[i]),
        forall|i: int| 0 <= i < "VideoBoost_G"@.len() ==> !is_digit(#[trigger] "VideoBoost_G"@[i]),
        forall|i: int| 0 <= i < "VideoBoost_B"@.len() ==> !is_digit(#[trigger] "VideoBoost_B"@[i]),
        forall|i: int| 0 <= i < "VideoHueShift"@.len() ==> !is_digit(#[trigger] "VideoHueShift"@[i]),
        forall|i: int| 0 <= i < "VideoSaturation"@.len() ==> !is_digit(#[trigger] "VideoSaturation"@[i]),
        forall|i: int| 0 <= i < "VideoBrightness"@.len() ==> !is_digit(#[trigger] "VideoBrightness"@[i]),
        forall|i: int| 0 <= i < "VideoContrast"@.len() ==> !is_digit(#[trigger] "VideoContrast"@[i]),
        forall|i: int| 0 <= i < "VideoKeyColor_R"@.len() ==> !is_digit(#[trigger] "VideoKeyColor_R"@[i]),
        forall|i: int| 0 <= i < "VideoKeyColor_G"@.len() ==> !is_digit(#[trigger] "VideoKeyColor_G"@[i]),
        forall|i: int| 0 <= i < "VideoKeyColor_B"@.len() ==> !is_digit(#[trigger] "VideoKeyColor_B"@[i]),
        forall|i: int| 0 <= i < "VideoKeyIntensity"@.len() ==> !is_digit(#[trigger] "VideoKeyIntensity"@[i]),
        forall|i: int| 0 <= i < "VideoKeyTolerance"@.len() ==> !is_digit(#[trigger] "VideoKeyTolerance"@[i]),
        forall|i: int| 0 <= i < "StrobeDuration"@.len() ==> !is_digit(#[trigger] "StrobeDuration"@[i]),
        forall|i: int| 0 <= i < "StrobeRate"@.len() ==> !is_digit(#[trigger] "StrobeRate"@[i]),
        forall|i: int| 0 <= i < "StrobeFrequency"@.len() ==> !is_digit(#[trigger] "StrobeFrequency"@[i]),
        forall|i: int| 0 <= i < "StrobeModeShutter"@.len() ==> !is_digit(#[trigger] "StrobeModeShutter"@[i]),
        forall|i: int| 0 <= i < "StrobeModeStrobe"@.len() ==> !is_digit(#[trigger] "StrobeModeStrobe"@[i]),
        forall|i: int| 0 <= i < "StrobeModePulse"@.len() ==> !is_digit(#[trigger] "StrobeModePulse"@[i]),
        forall|i: int| 0 <= i < "StrobeModePulseOpen"@.len() ==> !is_digit(#[trigger] "StrobeModePulseOpen"@[i]),
        forall|i: int| 0 <= i < "StrobeModePulseClose"@.len() ==> !is_digit(#[trigger] "StrobeModePulseClose"@[i]),
        forall|i: int| 0 <= i < "StrobeModeRandom"@.len() ==> !is_digit(#[trigger] "StrobeModeRandom"@[i]),
        forall|i: int| 0 <= i < "StrobeModeRandomPulse"@.len() ==> !is_digit(#[trigger] "StrobeModeRandomPulse"@[i]),
        forall|i: int| 0 <= i < "StrobeModeRandomPulseOpen"@.len() ==> !is_digit(#[trigger] "StrobeModeRandomPulseOpen"@[i]),
        forall|i: int| 0 <= i < "StrobeModeRandomPulseClose"@.len() ==> !is_digit(#[trigger] "StrobeModeRandomPulseClose"@[i]),
        forall|i: int| 0 <= i < "StrobeModeEffect"@.len() ==> !is_digit(#[trigger] "StrobeModeEffect"@[i]),
        forall|i: int| 0 <= i < "Iris"@.len() ==> !is_digit(#[trigger] "Iris"@[i]),
        forall|i: int| 0 <= i < "IrisStrobe"@.len() ==> !is_digit(#[trigger] "IrisStrobe"@[i]),
        forall|i: int| 0 <= i < "IrisStrobeRandom"@.len() ==> !is_digit(#[trigger] "IrisStrobeRandom"@[i]),
        forall|i: int| 0 <= i < "IrisPulseClose"@.len() ==> !is_digit(#[trigger] "IrisPulseClose"@[i]),
        forall|i: int| 0 <= i < "IrisPulseOpen"@.len() ==> !is_digit(#[trigger] "IrisPulseOpen"@[i]),
{
    reveal_strlit("CTB");
    reveal_strlit("Tint");
    reveal_strlit("HSB_Hue");
    reveal_strlit("HSB_Saturation");
    reveal_strlit("HSB_Brightness");
    reveal_strlit("HSB_Quality");
    reveal_strlit("CIE_X");
    reveal_strlit("CIE_Y");
    reveal_strlit("CIE_Brightness");
    reveal_strlit("ColorRGB_Red");
    reveal_strlit("ColorRGB_Green");
    reveal_strlit("ColorRGB_Blue");
    reveal_strlit("ColorRGB_Cyan");
    reveal_strlit("ColorRGB_Magenta");
    reveal_strlit("ColorRGB_Yellow");
    reveal_strlit("ColorRGB_Quality");
    reveal_strlit("VideoBoost_R");
    reveal_strlit("VideoBoost_G");
    reveal_strlit("VideoBoost_B");
    reveal_strlit("VideoHueShift");
    reveal_strlit("VideoSaturation");
    reveal_strlit("VideoBrightness");
    reveal_strlit("VideoContrast");
    reveal_strlit("VideoKeyColor_R");
    reveal_strlit("VideoKeyColor_G");
    reveal_strlit("VideoKeyColor_B");
    reveal_strlit("VideoKeyIntensity");
    reveal_strlit("VideoKeyTolerance");
    reveal_strlit("StrobeDuration");
    reveal_strlit("StrobeRate");
    reveal_strlit("StrobeFrequency");
    reveal_strlit("StrobeModeShutter");
    reveal_strlit("StrobeModeStrobe");
    reveal_strlit("StrobeModePulse");
    reveal_strlit("StrobeModePulseOpen");
    reveal_strlit("StrobeModePulseClose");
    reveal_strlit("StrobeModeRandom");
    reveal_strlit("StrobeModeRandomPulse");
    reveal_strlit("StrobeModeRandomPulseOpen");
    reveal_strlit("StrobeModeRandomPulseClose");
    reveal_strlit("StrobeModeEffect");
    reveal_strlit("Iris");
    reveal_strlit("IrisStrobe");
    reveal_strlit("IrisStrobeRandom");
    reveal_strlit("IrisPulseClose");
    reveal_strlit("IrisPulseOpen");
}

/// No name in part 2 of the name table holds a digit.
proof fn lemma_names_without_digits_2()
    ensures
        forall|i: int| 0 <= i < "IrisRandomPulseClose"@.len() ==> !is_digit(#[trigger] "IrisRandomPulseClose"@[i]),
        forall|i: int| 0 <= i < "IrisRandomPulseOpen"@.len() ==> !is_digit(#[trigger] "IrisRandomPulseOpen"@[i]),
        forall|i: int| 0 <= i < "EffectsSync"@.len() ==> !is_digit(#[trigger] "EffectsSync"@[i]),
        forall|i: int| 0 <= i < "BeamShaper"@.len() ==> !is_digit(#[trigger] "BeamShaper"@[i]),
        forall|i: int| 0 <= i < "BeamShaperMacro"@.len() ==> !is_digit(#[trigger] "BeamShaperMacro"@[i]),
        forall|i: int| 0 <= i < "BeamShaperPos"@.len() ==> !is_digit(#[trigger] "BeamShaperPos"@[i]),
        forall|i: int| 0 <= i < "BeamShaperPosRotate"@.len() ==> !is_digit(#[trigger] "BeamShaperPosRotate"@[i]),
        forall|i: int| 0 <= i < "Zoom"@.len() ==> !is_digit(#[trigger] "Zoom"@[i]),
        forall|i: int| 0 <= i < "ZoomModeSpot"@.len() ==> !is_digit(#[trigger] "ZoomModeSpot"@[i]),
        forall|i: int| 0 <= i < "ZoomModeBeam"@.len() ==> !is_digit(#[trigger] "ZoomModeBeam"@[i]),
        forall|i: int| 0 <= i < "DigitalZoom"@.len() ==> !is_digit(#[trigger] "DigitalZoom"@[i]),
        forall|i: int| 0 <= i < "DimmerMode"@.len() ==> !is_digit(#[trigger] "DimmerMode"@[i]),
        forall|i: int| 0 <= i < "DimmerCurve"@.len() ==> !is_digit(#[trigger] "DimmerCurve"@[i]),
        forall|i: int| 0 <= i < "BlackoutMode"@.len() ==> !is_digit(#[trigger] "BlackoutMode"@[i]),
        forall|i: int| 0 <= i < "LEDFrequency"@.len() ==> !is_digit(#[trigger] "LEDFrequency"@[i]),
        forall|i: int| 0 <= i < "LEDZoneMode"@.len() ==> !is_digit(#[trigger] "LEDZoneMode"@[i]),
        forall|i: int| 0 <= i < "PixelMode"@.len() ==> !is_digit(#[trigger] "PixelMode"@[i]),
        forall|i: int| 0 <= i < "PanMode"@.len() ==> !is_digit(#[trigger] "PanMode"@[i]),
        forall|i: int| 0 <= i < "TiltMode"@.len() ==> !is_digit(#[trigger] "TiltMode"@[i]),
        forall|i: int| 0 <= i < "PanTiltMode"@.len() ==> !is_digit(#[trigger] "PanTiltMode"@[i]),
        forall|i: int| 0 <= i < "PositionModes"@.len() ==> !is_digit(#[trigger] "PositionModes"@[i]),
        forall|i: int| 0 <= i < "GoboWheelShortcutMode"@.len() ==> !is_digit(#[trigger] "GoboWheelShortcutMode"@[i]),
        forall|i: int| 0 <= i < "AnimationWheelShortcutMode"@.len() ==> !is_digit(#[trigger] "AnimationWheelShortcutMode"@[i]),
        forall|i: int| 0 <= i < "ColorWheelShortcutMode"@.len() ==> !is_digit(#[trigger] "ColorWheelShortcutMode"@[i]),
        forall|i: int| 0 <= i < "CyanMode"@.len() ==> !is_digit(#[trigger] "CyanMode"@[i]),
        forall|i: int| 0 <= i < "MagentaMode"@.len() ==> !is_digit(#[trigger] "MagentaMode"@[i]),
        forall|i: int| 0 <= i < "YellowMode"@.len() ==> !is_digit(#[trigger] "YellowMode"@[i]),
        forall|i: int| 0 <= i < "ColorMixMode"@.len() ==> !is_digit(#[trigger] "ColorMixMode"@[i]),
        forall|i: int| 0 <= i < "ChromaticMode"@.len() ==> !is_digit(#[trigger] "ChromaticMode"@[i]),
        forall|i: int| 0 <= i < "ColorCalibrationMode"@.len() ==> !is_digit(#[trigger] "ColorCalibrationMode"@[i]),
        forall|i: int| 0 <= i < "ColorConsistency"@.len() ==> !is_digit(#[trigger] "ColorConsistency"@[i]),
        forall|i: int| 0 <= i < "ColorControl"@.len() ==> !is_digit(#[trigger] "ColorControl"@[i]),
        forall|i: int| 0 <= i < "ColorModelMode"@.len() ==> !is_digit(#[trigger] "ColorModelMode"@[i]),
        forall|i: int| 0 <= i < "ColorSettingsReset"@.len() ==> !is_digit(#[trigger] "ColorSettingsReset"@[i]),
        forall|i: int| 0 <= i < "ColorUniformity"@.len() ==> !is_digit(#[trigger] "ColorUniformity"@[i]),
        forall|i: int| 0 <= i < "CRIMode"@.len() ==> !is_digit(#[trigger] "CRIMode"@[i]),
        forall|i: int| 0 <= i < "CustomColor"@.len() ==> !is_digit(#[trigger] "CustomColor"@[i]),
        forall|i: int| 0 <= i < "UVStability"@.len() ==> !is_digit(#[trigger] "UVStability"@[i]),
        forall|i: int| 0 <= i < "WavelengthCorrection"@.len() ==> !is_digit(#[trigger] "WavelengthCorrection"@[i]),
        forall|i: int| 0 <= i < "WhiteCount"@.len() ==> !is_digit(#[trigger] "WhiteCount"@[i]),
        forall|i: int| 0 <= i < "StrobeMode"@.len() ==> !is_digit(#[trigger] "StrobeMode"@[i]),
        forall|i: int| 0 <= i < "ZoomMode"@.len() ==> !is_digit(#[trigger] "ZoomMode"@[i]),
        forall|i: int| 0 <= i < "FocusMode"@.len() ==> !is_digit(#[trigger] "FocusMode"@[i]),
        forall|i: int| 0 <= i < "IrisMode"@.len() ==> !is_digit(#[trigger] "IrisMode"@[i]),
        forall|i: int| 0 <= i < "FollowSpotMode"@.len() ==> !is_digit(#[trigger] "FollowSpotMode"@[i]),
        forall|i: int| 0 <= i < "BeamEffectIndexRotateMode"@.len() ==> !is_digit(#[trigger] "BeamEffectIndexRotateMode"@[i]),
{
    reveal_strlit("IrisRandomPulseClose");
    reveal_strlit("IrisRandomPulseOpen");
    reveal_strlit("EffectsSync");
    reveal_strlit("BeamShaper");
    reveal_strlit("BeamShaperMacro");
    reveal_strlit("BeamShaperPos");
    reveal_strlit("BeamShaperPosRotate");
    reveal_strlit("Zoom");
    reveal_strlit("ZoomModeSpot");
    reveal_strlit("ZoomModeBeam");
    reveal_strlit("DigitalZoom");
    reveal_strlit("DimmerMode");
    reveal_strlit("DimmerCurve");
    reveal_strlit("BlackoutMode");
    reveal_strlit("LEDFrequency");
    reveal_strlit("LEDZoneMode");
    reveal_strlit("PixelMode");
    reveal_strlit("PanMode");
    reveal_strlit("TiltMode");
    reveal_strlit("PanTiltMode");
    reveal_strlit("PositionModes");
    reveal_strlit("GoboWheelShortcutMode");
    reveal_strlit("AnimationWheelShortcutMode");
    reveal_strlit("ColorWheelShortcutMode");
    reveal_strlit("CyanMode");
    reveal_strlit("MagentaMode");
    reveal_strlit("YellowMode");
    reveal_strlit("ColorMixMode");
    reveal_strlit("ChromaticMode");
    reveal_strlit("ColorCalibrationMode");
    reveal_strlit("ColorConsistency");
    reveal_strlit("ColorControl");
    reveal_strlit("ColorModelMode");
    reveal_strlit("ColorSettingsReset");
    reveal_strlit("ColorUniformity");
    reveal_strlit("CRIMode");
    reveal_strlit("CustomColor");
    reveal_strlit("UVStability");
    reveal_strlit("WavelengthCorrection");
    reveal_strlit("WhiteCount");
    reveal_strlit("StrobeMode");
    reveal_strlit("ZoomMode");
    reveal_strlit("FocusMode");
    reveal_strlit("IrisMode");
    reveal_strlit("FollowSpotMode");
    reveal_strlit("BeamEffectIndexRotateMode");
}

/// No name in part 3 of the name table holds a digit.
proof fn lemma_names_without_digits_3()
    ensures
        forall|i: int| 0 <= i < "IntensityMSpeed"@.len() ==> !is_digit(#[trigger] "IntensityMSpeed"@[i]),
        forall|i: int| 0 <= i < "PositionMSpeed"@.len() ==> !is_digit(#[trigger] "PositionMSpeed"@[i]),
        forall|i: int| 0 <= i < "ColorMixMSpeed"@.len() ==> !is_digit(#[trigger] "ColorMixMSpeed"@[i]),
        forall|i: int| 0 <= i < "ColorWheelSelectMSpeed"@.len() ==> !is_digit(#[trigger] "ColorWheelSelectMSpeed"@[i]),
        forall|i: int| 0 <= i < "IrisMSpeed"@.len() ==> !is_digit(#[trigger] "IrisMSpeed"@[i]),
        forall|i: int| 0 <= i < "FocusMSpeed"@.len() ==> !is_digit(#[trigger] "FocusMSpeed"@[i]),
        forall|i: int| 0 <= i < "ZoomMSpeed"@.len() ==> !is_digit(#[trigger] "ZoomMSpeed"@[i]),
        forall|i: int| 0 <= i < "FrameMSpeed"@.len() ==> !is_digit(#[trigger] "FrameMSpeed"@[i]),
        forall|i: int| 0 <= i < "GlobalMSpeed"@.len() ==> !is_digit(#[trigger] "GlobalMSpeed"@[i]),
        forall|i: int| 0 <= i < "ReflectorAdjust"@.len() ==> !is_digit(#[trigger] "ReflectorAdjust"@[i]),
        forall|i: int| 0 <= i < "FixtureGlobalReset"@.len() ==> !is_digit(#[trigger] "FixtureGlobalReset"@[i]),
        forall|i: int| 0 <= i < "DimmerReset"@.len() ==> !is_digit(#[trigger] "DimmerReset"@[i]),
        forall|i: int| 0 <= i < "ShutterReset"@.len() ==> !is_digit(#[trigger] "ShutterReset"@[i]),
        forall|i: int| 0 <= i < "BeamReset"@.len() ==> !is_digit(#[trigger] "BeamReset"@[i]),
        forall|i: int| 0 <= i < "ColorMixReset"@.len() ==> !is_digit(#[trigger] "ColorMixReset"@[i]),
        forall|i: int| 0 <= i < "ColorWheelReset"@.len() ==> !is_digit(#[trigger] "ColorWheelReset"@[i]),
        forall|i: int| 0 <= i < "FocusReset"@.len() ==> !is_digit(#[trigger] "FocusReset"@[i]),
        forall|i: int| 0 <= i < "FrameReset"@.len() ==> !is_digit(#[trigger] "FrameReset"@[i]),
        forall|i: int| 0 <= i < "GoboWheelReset"@.len() ==> !is_digit(#[trigger] "GoboWheelReset"@[i]),
        forall|i: int| 0 <= i < "IntensityReset"@.len() ==> !is_digit(#[trigger] "IntensityReset"@[i]),
        forall|i: int| 0 <= i < "IrisReset"@.len() ==> !is_digit(#[trigger] "IrisReset"@[i]),
        forall|i: int| 0 <= i < "PositionReset"@.len() ==> !is_digit(#[trigger] "PositionReset"@[i]),
        forall|i: int| 0 <= i < "PanReset"@.len() ==> !is_digit(#[trigger] "PanReset"@[i]),
        forall|i: int| 0 <= i < "TiltReset"@.len() ==> !is_digit(#[trigger] "TiltReset"@[i]),
        forall|i: int| 0 <= i < "ZoomReset"@.len() ==> !is_digit(#[trigger] "ZoomReset"@[i]),
        forall|i: int| 0 <= i < "CTBReset"@.len() ==> !is_digit(#[trigger] "CTBReset"@[i]),
        forall|i: int| 0 <= i < "CTOReset"@.len() ==> !is_digit(#[trigger] "CTOReset"@[i]),
        forall|i: int| 0 <= i < "CTCReset"@.len() ==> !is_digit(#[trigger] "CTCReset"@[i]),
        forall|i: int| 0 <= i < "AnimationSystemReset"@.len() ==> !is_digit(#[trigger] "AnimationSystemReset"@[i]),
        forall|i: int| 0 <= i < "FixtureCalibrationReset"@.len() ==> !is_digit(#[trigger] "FixtureCalibrationReset"@[i]),
        forall|i: int| 0 <= i < "Function"@.len() ==> !is_digit(#[trigger] "Function"@[i]),
        forall|i: int| 0 <= i < "LampControl"@.len() ==> !is_digit(#[trigger] "LampControl"@[i]),
        forall|i: int| 0 <= i < "DisplayIntensity"@.len() ==> !is_digit(#[trigger] "DisplayIntensity"@[i]),
        forall|i: int| 0 <= i < "DMXInput"@.len() ==> !is_digit(#[trigger] "DMXInput"@[i]),
        forall|i: int| 0 <= i < "NoFeature"@.len() ==> !is_digit(#[trigger] "NoFeature"@[i]),
        forall|i: int| 0 <= i < "LampPowerMode"@.len() ==> !is_digit(#[trigger] "LampPowerMode"@[i]),
        forall|i: int| 0 <= i < "Fans"@.len() ==> !is_digit(#[trigger] "Fans"@[i]),
        forall|i: int| 0 <= i < "ShaperRot"@.len() ==> !is_digit(#[trigger] "ShaperRot"@[i]),
        forall|i: int| 0 <= i < "ShaperMacros"@.len() ==> !is_digit(#[trigger] "ShaperMacros"@[i]),
        forall|i: int| 0 <= i < "ShaperMacrosSpeed"@.len() ==> !is_digit(#[trigger] "ShaperMacrosSpeed"@[i]),
        forall|i: int| 0 <= i < "Video"@.len() ==> !is_digit(#[trigger] "Video"@[i]),
        forall|i: int| 0 <= i < "VideoBlendMode"@.len() ==> !is_digit(#[trigger] "VideoBlendMode"@[i]),
        forall|i: int| 0 <= i < "InputSource"@.len() ==> !is_digit(#[trigger] "InputSource"@[i]),
        forall|i: int| 0 <= i < "FieldOfView"@.len() ==> !is_digit(#[trigger] "FieldOfView"@[i]),
{
    reveal_strlit("IntensityMSpeed");
    reveal_strlit("PositionMSpeed");
    reveal_strlit("ColorMixMSpeed");
    reveal_strlit("ColorWheelSelectMSpeed");
    reveal_strlit("IrisMSpeed");
    reveal_strlit("FocusMSpeed");
    reveal_strlit("ZoomMSpeed");
    reveal_strlit("FrameMSpeed");
    reveal_strlit("GlobalMSpeed");
    reveal_strlit("ReflectorAdjust");
    reveal_strlit("FixtureGlobalReset");
    reveal_strlit("DimmerReset");
    reveal_strlit("ShutterReset");
    reveal_strlit("BeamReset");
    reveal_strlit("ColorMixReset");
    reveal_strlit("ColorWheelReset");
    reveal_strlit("FocusReset");
    reveal_strlit("FrameReset");
    reveal_strlit("GoboWheelReset");
    reveal_strlit("IntensityReset");
    reveal_strlit("IrisReset");
    reveal_strlit("PositionReset");
    reveal_strlit("PanReset");
    reveal_strlit("TiltReset");
    reveal_strlit("ZoomReset");
    reveal_strlit("CTBReset");
    reveal_strlit("CTOReset");
    reveal_strlit("CTCReset");
    reveal_strlit("AnimationSystemReset");
    reveal_strlit("FixtureCalibrationReset");
    reveal_strlit("Function");
    reveal_strlit("LampControl");
    reveal_strlit("DisplayIntensity");
    reveal_strlit("DMXInput");
    reveal_strlit("NoFeature");
    reveal_strlit("LampPowerMode");
    reveal_strlit("Fans");
    reveal_strlit("ShaperRot");
    reveal_strlit("ShaperMacros");
    reveal_strlit("ShaperMacrosSpeed");
    reveal_strlit("Video");
    reveal_strlit("VideoBlendMode");
    reveal_strlit("InputSource");
    reveal_strlit("FieldOfView");
}

/// Text that holds a digit is no name of part 0 of the name table.
proof fn lemma_exact_0_none_with_digit(t: Seq<char>, k: int)
    requires
        0 <= k < t.len(),
        is_digit(t[k]),
    ensures
        exact_attribute_0(t) is None,
{
    reveal(exact_attribute_0);
    lemma_name_lengths_0();
    lemma_names_without_digits_0();
}

/// Text that holds a digit is no name of part 1 of the name table.
proof fn lemma_exact_1_none_with_digit(t: Seq<char>, k: int)
    requires
        0 <= k < t.len(),
        is_digit(t[k]),
    ensures
        exact_attribute_1(t) is None,
{
    reveal(exact_attribute_1);
    lemma_name_lengths_1();
    lemma_names_without_digits_1();
}

/// Text that holds a digit is no name of part 2 of the name table.
proof fn lemma_exact_2_none_with_digit(t: Seq<char>, k: int)
    requires
        0 <= k < t.len(),
        is_digit(t[k]),
    ensures
        exact_attribute_2(t) is None,
{
    reveal(exact_attribute_2);
    lemma_name_lengths_2();
    lemma_names_without_digits_2();
}

/// Text that holds a digit is no name of part 3 of the name table.
proof fn lemma_exact_3_none_with_digit(t: Seq<char>, k: int)
    requires
        0 <= k < t.len(),
        is_digit(t[k]),
    ensures
        exact_attribute_3(t) is None,
{
    reveal(exact_attribute_3);
    lemma_name_lengths_3();
    lemma_names_without_digits_3();
}

/// Text with a digit is no standard attribute name.
proof fn lemma_exact_none_with_digit(t: Seq<char>, k: int)
    requires
        0 <= k < t.len(),
        is_digit(t[k]),
    ensures
        exact_attribute(t) is None,
{
    lemma_exact_0_none_with_digit(t, k);
    lemma_exact_1_none_with_digit(t, k);
    lemma_exact_2_none_with_digit(t, k);
    lemma_exact_3_none_with_digit(t, k);
}

/// Each name in part 0 of the name table is found in that part as its own
/// attribute: every name before it in the part differs from it.
proof fn lemma_names_0_read()
    ensures
        exact_attribute_0("Dimmer"@) == Some(FixtureChannel3Attribute::Dimmer),
        exact_attribute_0("Pan"@) == Some(FixtureChannel3Attribute::Pan),
        exact_attribute_0("Tilt"@) == Some(FixtureChannel3Attribute::Tilt),
        exact_attribute_0("PanRotate"@) == Some(FixtureChannel3Attribute::PanRotate),
        exact_attribute_0("TiltRotate"@) == Some(FixtureChannel3Attribute::TiltRotate),
        exact_attribute_0("PositionEffect"@) == Some(FixtureChannel3Attribute::PositionEffect),
        exact_attribute_0("PositionEffectRate"@) == Some(FixtureChannel3Attribute::PositionEffectRate),
        exact_attribute_0("PositionEffectFade"@) == Some(FixtureChannel3Attribute::PositionEffectFade),
        exact_attribute_0("XYZ_X"@) == Some(FixtureChannel3Attribute::XyzX),
        exact_attribute_0("XYZ_Y"@) == Some(FixtureChannel3Attribute::XyzY),
        exact_attribute_0("XYZ_Z"@) == Some(FixtureChannel3Attribute::XyzZ),
        exact_attribute_0("Rot_X"@) == Some(FixtureChannel3Attribute::RotX),
        exact_attribute_0("Rot_Y"@) == Some(FixtureChannel3Attribute::RotY),
        exact_attribute_0("Rot_Z"@) == Some(FixtureChannel3Attribute::RotZ),
        exact_attribute_0("Scale_X"@) == Some(FixtureChannel3Attribute::ScaleX),
        exact_attribute_0("Scale_Y"@) == Some(FixtureChannel3Attribute::ScaleY),
        exact_attribute_0("Scale_Z"@) == Some(FixtureChannel3Attribute::ScaleZ),
        exact_attribute_0("Scale_XYZ"@) == Some(FixtureChannel3Attribute::ScaleXYZ),
        exact_attribute_0("PlayMode"@) == Some(FixtureChannel3Attribute::PlayMode),
        exact_attribute_0("PlayBegin"@) == Some(FixtureChannel3Attribute::PlayBegin),
        exact_attribute_0("PlayEnd"@) == Some(FixtureChannel3Attribute::PlayEnd),
        exact_attribute_0("PlaySpeed"@) == Some(FixtureChannel3Attribute::PlaySpeed),
        exact_attribute_0("ColorAdd_R"@) == Some(FixtureChannel3Attribute::ColorAddR),
        exact_attribute_0("ColorAdd_G"@) == Some(FixtureChannel3Attribute::ColorAddG),
        exact_attribute_0("ColorAdd_B"@) == Some(FixtureChannel3Attribute::ColorAddB),
        exact_attribute_0("ColorAdd_C"@) == Some(FixtureChannel3Attribute::ColorAddC),
        exact_attribute_0("ColorAdd_M"@) == Some(FixtureChannel3Attribute::ColorAddM),
        exact_attribute_0("ColorAdd_Y"@) == Some(FixtureChannel3Attribute::ColorAddY),
        exact_attribute_0("ColorAdd_RY"@) == Some(FixtureChannel3Attribute::ColorAddRY),
        exact_attribute_0("ColorAdd_GY"@) == Some(FixtureChannel3Attribute::ColorAddGY),
        exact_attribute_0("ColorAdd_GC"@) == Some(FixtureChannel3Attribute::ColorAddGC),
        exact_attribute_0("ColorAdd_BC"@) == Some(FixtureChannel3Attribute::ColorAddBC),
        exact_attribute_0("ColorAdd_BM"@) == Some(FixtureChannel3Attribute::ColorAddBM),
        exact_attribute_0("ColorAdd_RM"@) == Some(FixtureChannel3Attribute::ColorAddRM),
        exact_attribute_0("ColorAdd_W"@) == Some(FixtureChannel3Attribute::ColorAddW),
        exact_attribute_0("ColorAdd_WW"@) == Some(FixtureChannel3Attribute::ColorAddWW),
        exact_attribute_0("ColorAdd_CW"@) == Some(FixtureChannel3Attribute::ColorAddCW),
        exact_attribute_0("ColorAdd_UV"@) == Some(FixtureChannel3Attribute::ColorAddUV),
        exact_attribute_0("ColorSub_R"@) == Some(FixtureChannel3Attribute::ColorSubR),
        exact_attribute_0("ColorSub_G"@) == Some(FixtureChannel3Attribute::ColorSubG),
        exact_attribute_0("ColorSub_B"@) == Some(FixtureChannel3Attribute::ColorSubB),
        exact_attribute_0("ColorSub_C"@) == Some(FixtureChannel3Attribute::ColorSubC),
        exact_attribute_0("ColorSub_M"@) == Some(FixtureChannel3Attribute::ColorSubM),
        exact_attribute_0("ColorSub_Y"@) == Some(FixtureChannel3Attribute::ColorSubY),
        exact_attribute_0("CTO"@) == Some(FixtureChannel3Attribute::Cto),
        exact_attribute_0("CTC"@) == Some(FixtureChannel3Attribute::Ctc),
{
    reveal(exact_attribute_0);
    lemma_name_lengths_0();
    reveal_strlit("PositionEffectFade");
    reveal_strlit("PositionEffectRate");
    assert("PositionEffectRate"@[14] != "PositionEffectFade"@[14]);
    reveal_strlit("XYZ_Y");
    reveal_strlit("XYZ_X");
    assert("XYZ_X"@[4] != "XYZ_Y"@[4]);
    reveal_strlit("XYZ_Z");
    reveal_strlit("XYZ_X");
    assert("XYZ_X"@[4] != "XYZ_Z"@[4]);
    reveal_strlit("XYZ_Z");
    reveal_strlit("XYZ_Y");
    assert("XYZ_Y"@[4] != "XYZ_Z"@[4]);
    reveal_strlit("Rot_X");
    reveal_strlit("XYZ_X");
    assert("XYZ_X"@[0] != "Rot_X"@[0]);
    reveal_strlit("Rot_X");
    reveal_strlit("XYZ_Y");
    assert("XYZ_Y"@[0] != "Rot_X"@[0]);
    reveal_strlit("Rot_X");
    reveal_strlit("XYZ_Z");
    assert("XYZ_Z"@[0] != "Rot_X"@[0]);
    reveal_strlit("Rot_Y");
    reveal_strlit("XYZ_X");
    assert("XYZ_X"@[0] != "Rot_Y"@[0]);
    reveal_strlit("Rot_Y");
    reveal_strlit("XYZ_Y");
    assert("XYZ_Y"@[0] != "Rot_Y"@[0]);
    reveal_strlit("Rot_Y");
    reveal_strlit("XYZ_Z");
    assert("XYZ_Z"@[0] != "Rot_Y"@[0]);
    reveal_strlit("Rot_Y");
    reveal_strlit("Rot_X");
    assert("Rot_X"@[4] != "Rot_Y"@[4]);
    reveal_strlit("Rot_Z");
    reveal_strlit("XYZ_X");
    assert("XYZ_X"@[0] != "Rot_Z"@[0]);
    reveal_strlit("Rot_Z");
    reveal_strlit("XYZ_Y");
    assert("XYZ_Y"@[0] != "Rot_Z"@[0]);
    reveal_strlit("Rot_Z");
    reveal_strlit("XYZ_Z");
    assert("XYZ_Z"@[0] != "Rot_Z"@[0]);
    reveal_strlit("Rot_Z");
    reveal_strlit("Rot_X");
    assert("Rot_X"@[4] != "Rot_Z"@[4]);
    reveal_strlit("Rot_Z");
    reveal_strlit("Rot_Y");
    assert("Rot_Y"@[4] != "Rot_Z"@[4]);
    reveal_strlit("Scale_Y");
    reveal_strlit("Scale_X");
    assert("Scale_X"@[6] != "Scale_Y"@[6]);
    reveal_strlit("Scale_Z");
    reveal_strlit("Scale_X");
    assert("Scale_X"@[6] != "Scale_Z"@[6]);
    reveal_strlit("Scale_Z");
    reveal_strlit("Scale_Y");
    assert("Scale_Y"@[6] != "Scale_Z"@[6]);
    reveal_strlit("Scale_XYZ");
    reveal_strlit("PanRotate");
    assert("PanRotate"@[0] != "Scale_XYZ"@[0]);
    reveal_strlit("PlayBegin");
    reveal_strlit("PanRotate");
    assert("PanRotate"@[1] != "PlayBegin"@[1]);
    reveal_strlit("PlayBegin");
    reveal_strlit("Scale_XYZ");
    assert("Scale_XYZ"@[0] != "PlayBegin"@[0]);
    reveal_strlit("PlayEnd");
    reveal_strlit("Scale_X");
    assert("Scale_X"@[0] != "PlayEnd"@[0]);
    reveal_strlit("PlayEnd");
    reveal_strlit("Scale_Y");
    assert("Scale_Y"@[0] != "PlayEnd"@[0]);
    reveal_strlit("PlayEnd");
    reveal_strlit("Scale_Z");
    assert("Scale_Z"@[0] != "PlayEnd"@[0]);
    reveal_strlit("PlaySpeed");
    reveal_strlit("PanRotate");
    assert("PanRotate"@[1] != "PlaySpeed"@[1]);
    reveal_strlit("PlaySpeed");
    reveal_strlit("Scale_XYZ");
    assert("Scale_XYZ"@[0] != "PlaySpeed"@[0]);
    reveal_strlit("PlaySpeed");
    reveal_strlit("PlayBegin");
    assert("PlayBegin"@[4] != "PlaySpeed"@[4]);
    reveal_strlit("ColorAdd_R");
    reveal_strlit("TiltRotate");
    assert("TiltRotate"@[0] != "ColorAdd_R"@[0]);
    reveal_strlit("ColorAdd_G");
    reveal_strlit("TiltRotate");
    assert("TiltRotate"@[0] != "ColorAdd_G"@[0]);
    reveal_strlit("ColorAdd_G");
    reveal_strlit("ColorAdd_R");
    assert("ColorAdd_R"@[9] != "ColorAdd_G"@[9]);
    reveal_strlit("ColorAdd_B");
    reveal_strlit("TiltRotate");
    assert("TiltRotate"@[0] != "ColorAdd_B"@[0]);
    reveal_strlit("ColorAdd_B");
    reveal_strlit("ColorAdd_R");
    assert("ColorAdd_R"@[9] != "ColorAdd_B"@[9]);
    reveal_strlit("ColorAdd_B");
    reveal_strlit("ColorAdd_G");
    assert("ColorAdd_G"@[9] != "ColorAdd_B"@[9]);
    reveal_strlit("ColorAdd_C");
    reveal_strlit("TiltRotate");
    assert("TiltRotate"@[0] != "ColorAdd_C"@[0]);
    reveal_strlit("ColorAdd_C");
    reveal_strlit("ColorAdd_R");
    assert("ColorAdd_R"@[9] != "ColorAdd_C"@[9]);
    reveal_strlit("ColorAdd_C");
    reveal_strlit("ColorAdd_G");
    assert("ColorAdd_G"@[9] != "ColorAdd_C"@[9]);
    reveal_strlit("ColorAdd_C");
    reveal_strlit("ColorAdd_B");
    assert("ColorAdd_B"@[9] != "ColorAdd_C"@[9]);
    reveal_strlit("ColorAdd_M");
    reveal_strlit("TiltRotate");
    assert("TiltRotate"@[0] != "ColorAdd_M"@[0]);
    reveal_strlit("ColorAdd_M");
    reveal_strlit("ColorAdd_R");
    assert("ColorAdd_R"@[9] != "ColorAdd_M"@[9]);
    reveal_strlit("ColorAdd_M");
    reveal_strlit("ColorAdd_G");
    assert("ColorAdd_G"@[9] != "ColorAdd_M"@[9]);
    reveal_strlit("ColorAdd_M");
    reveal_strlit("ColorAdd_B");
    assert("ColorAdd_B"@[9] != "ColorAdd_M"@[9]);
    reveal_strlit("ColorAdd_M");
    reveal_strlit("ColorAdd_C");
    assert("ColorAdd_C"@[9] != "ColorAdd_M"@[9]);
    reveal_strlit("ColorAdd_Y");
    reveal_strlit("TiltRotate");
    assert("TiltRotate"@[0] != "ColorAdd_Y"@[0]);
    reveal_strlit("ColorAdd_Y");
    reveal_strlit("ColorAdd_R");
    assert("ColorAdd_R"@[9] != "ColorAdd_Y"@[9]);
    reveal_strlit("ColorAdd_Y");
    reveal_strlit("ColorAdd_G");
    assert("ColorAdd_G"@[9] != "ColorAdd_Y"@[9]);
    reveal_strlit("ColorAdd_Y");
    reveal_strlit("ColorAdd_B");
    assert("ColorAdd_B"@[9] != "ColorAdd_Y"@[9]);
    reveal_strlit("ColorAdd_Y");
    reveal_strlit("ColorAdd_C");
    assert("ColorAdd_C"@[9] != "ColorAdd_Y"@[9]);
    reveal_strlit("ColorAdd_Y");
    reveal_strlit("ColorAdd_M");
    assert("ColorAdd_M"@[9] != "ColorAdd_Y"@[9]);
    reveal_strlit("ColorAdd_GY");
    reveal_strlit("ColorAdd_RY");
    assert("ColorAdd_RY"@[9] != "ColorAdd_GY"@[9]);
    reveal_strlit("ColorAdd_GC");
    reveal_strlit("ColorAdd_RY");
    assert("ColorAdd_RY"@[9] != "ColorAdd_GC"@[9]);
    reveal_strlit("ColorAdd_GC");
    reveal_strlit("ColorAdd_GY");
    assert("ColorAdd_GY"@[10] != "ColorAdd_GC"@[10]);
    reveal_strlit("ColorAdd_BC");
    reveal_strlit("ColorAdd_RY");
    assert("ColorAdd_RY"@[9] != "ColorAdd_BC"@[9]);
    reveal_strlit("ColorAdd_BC");
    reveal_strlit("ColorAdd_GY");
    assert("ColorAdd_GY"@[9] != "ColorAdd_BC"@[9]);
    reveal_strlit("ColorAdd_BC");
    reveal_strlit("ColorAdd_GC");
    assert("ColorAdd_GC"@[9] != "ColorAdd_BC"@[9]);
    reveal_strlit("ColorAdd_BM");
    reveal_strlit("ColorAdd_RY");
    assert("ColorAdd_RY"@[9] != "ColorAdd_BM"@[9]);
    reveal_strlit("ColorAdd_BM");
    reveal_strlit("ColorAdd_GY");
    assert("ColorAdd_GY"@[9] != "ColorAdd_BM"@[9]);
    reveal_strlit("ColorAdd_BM");
    reveal_strlit("ColorAdd_GC");
    assert("ColorAdd_GC"@[9] != "ColorAdd_BM"@[9]);
    reveal_strlit("ColorAdd_BM");
    reveal_strlit("ColorAdd_BC");
    assert("ColorAdd_BC"@[10] != "ColorAdd_BM"@[10]);
    reveal_strlit("ColorAdd_RM");
    reveal_strlit("ColorAdd_RY");
    assert("ColorAdd_RY"@[10] != "ColorAdd_RM"@[10]);
    reveal_strlit("ColorAdd_RM");
    reveal_strlit("ColorAdd_GY");
    assert("ColorAdd_GY"@[9] != "ColorAdd_RM"@[9]);
    reveal_strlit("ColorAdd_RM");
    reveal_strlit("ColorAdd_GC");
    assert("ColorAdd_GC"@[9] != "ColorAdd_RM"@[9]);
    reveal_strlit("ColorAdd_RM");
    reveal_strlit("ColorAdd_BC");
    assert("ColorAdd_BC"@[9] != "ColorAdd_RM"@[9]);
    reveal_strlit("ColorAdd_RM");
    reveal_strlit("ColorAdd_BM");
    assert("ColorAdd_BM"@[9] != "ColorAdd_RM"@[9]);
    reveal_strlit("ColorAdd_W");
    reveal_strlit("TiltRotate");
    assert("TiltRotate"@[0] != "ColorAdd_W"@[0]);
    reveal_strlit("ColorAdd_W");
    reveal_strlit("ColorAdd_R");
    assert("ColorAdd_R"@[9] != "ColorAdd_W"@[9]);
    reveal_strlit("ColorAdd_W");
    reveal_strlit("ColorAdd_G");
    assert("ColorAdd_G"@[9] != "ColorAdd_W"@[9]);
    reveal_strlit("ColorAdd_W");
    reveal_strlit("ColorAdd_B");
    assert("ColorAdd_B"@[9] != "ColorAdd_W"@[9]);
    reveal_strlit("ColorAdd_W");
    reveal_strlit("ColorAdd_C");
    assert("ColorAdd_C"@[9] != "ColorAdd_W"@[9]);
    reveal_strlit("ColorAdd_W");
    reveal_strlit("ColorAdd_M");
    assert("ColorAdd_M"@[9] != "ColorAdd_W"@[9]);
    reveal_strlit("ColorAdd_W");
    reveal_strlit("ColorAdd_Y");
    assert("ColorAdd_Y"@[9] != "ColorAdd_W"@[9]);
    reveal_strlit("ColorAdd_WW");
    reveal_strlit("ColorAdd_RY");
    assert("ColorAdd_RY"@[9] != "ColorAdd_WW"@[9]);
    reveal_strlit("ColorAdd_WW");
    reveal_strlit("ColorAdd_GY");
    assert("ColorAdd_GY"@[9] != "ColorAdd_WW"@[9]);
    reveal_strlit("ColorAdd_WW");
    reveal_strlit("ColorAdd_GC");
    assert("ColorAdd_GC"@[9] != "ColorAdd_WW"@[9]);
    reveal_strlit("ColorAdd_WW");
    reveal_strlit("ColorAdd_BC");
    assert("ColorAdd_BC"@[9] != "ColorAdd_WW"@[9]);
    reveal_strlit("ColorAdd_WW");
    reveal_strlit("ColorAdd_BM");
    assert("ColorAdd_BM"@[9] != "ColorAdd_WW"@[9]);
    reveal_strlit("ColorAdd_WW");
    reveal_strlit("ColorAdd_RM");
    assert("ColorAdd_RM"@[9] != "ColorAdd_WW"@[9]);
    reveal_strlit("ColorAdd_CW");
    reveal_strlit("ColorAdd_RY");
    assert("ColorAdd_RY"@[9] != "ColorAdd_CW"@[9]);
    reveal_strlit("ColorAdd_CW");
    reveal_strlit("ColorAdd_GY");
    assert("ColorAdd_GY"@[9] != "ColorAdd_CW"@[9]);
    reveal_strlit("ColorAdd_CW");
    reveal_strlit("ColorAdd_GC");
    assert("ColorAdd_GC"@[9] != "ColorAdd_CW"@[9]);
    reveal_strlit("ColorAdd_CW");
    reveal_strlit("ColorAdd_BC");
    assert("ColorAdd_BC"@[9] != "ColorAdd_CW"@[9]);
    reveal_strlit("ColorAdd_CW");
    reveal_strlit("ColorAdd_BM");
    assert("ColorAdd_BM"@[9] != "ColorAdd_CW"@[9]);
    reveal_strlit("ColorAdd_CW");
    reveal_strlit("ColorAdd_RM");
    assert("ColorAdd_RM"@[9] != "ColorAdd_CW"@[9]);
    reveal_strlit("ColorAdd_CW");
    reveal_strlit("ColorAdd_WW");
    assert("ColorAdd_WW"@[9] != "ColorAdd_CW"@[9]);
    reveal_strlit("ColorAdd_UV");
    reveal_strlit("ColorAdd_RY");
    assert("ColorAdd_RY"@[9] != "ColorAdd_UV"@[9]);
    reveal_strlit("ColorAdd_UV");
    reveal_strlit("ColorAdd_GY");
    assert("ColorAdd_GY"@[9] != "ColorAdd_UV"@[9]);
    reveal_strlit("ColorAdd_UV");
    reveal_strlit("ColorAdd_GC");
    assert("ColorAdd_GC"@[9] != "ColorAdd_UV"@[9]);
    reveal_strlit("ColorAdd_UV");
    reveal_strlit("ColorAdd_BC");
    assert("ColorAdd_BC"@[9] != "ColorAdd_UV"@[9]);
    reveal_strlit("ColorAdd_UV");
    reveal_strlit("ColorAdd_BM");
    assert("ColorAdd_BM"@[9] != "ColorAdd_UV"@[9]);
    reveal_strlit("ColorAdd_UV");
    reveal_strlit("ColorAdd_RM");
    assert("ColorAdd_RM"@[9] != "ColorAdd_UV"@[9]);
    reveal_strlit("ColorAdd_UV");
    reveal_strlit("ColorAdd_WW");
    assert("ColorAdd_WW"@[9] != "ColorAdd_UV"@[9]);
    reveal_strlit("ColorAdd_UV");
    reveal_strlit("ColorAdd_CW");
    assert("ColorAdd_CW"@[9] != "ColorAdd_UV"@[9]);
    reveal_strlit("ColorSub_R");
    reveal_strlit("TiltRotate");
    assert("TiltRotate"@[0] != "ColorSub_R"@[0]);
    reveal_strlit("ColorSub_R");
    reveal_strlit("ColorAdd_R");
    assert("ColorAdd_R"@[5] != "ColorSub_R"@[5]);
    reveal_strlit("ColorSub_R");
    reveal_strlit("ColorAdd_G");
    assert("ColorAdd_G"@[5] != "ColorSub_R"@[5]);
    reveal_strlit("ColorSub_R");
    reveal_strlit("ColorAdd_B");
    assert("ColorAdd_B"@[5] != "ColorSub_R"@[5]);
    reveal_strlit("ColorSub_R");
    reveal_strlit("ColorAdd_C");
    assert("ColorAdd_C"@[5] != "ColorSub_R"@[5]);
    reveal_strlit("ColorSub_R");
    reveal_strlit("ColorAdd_M");
    assert("ColorAdd_M"@[5] != "ColorSub_R"@[5]);
    reveal_strlit("ColorSub_R");
    reveal_strlit("ColorAdd_Y");
    assert("ColorAdd_Y"@[5] != "ColorSub_R"@[5]);
    reveal_strlit("ColorSub_R");
    reveal_strlit("ColorAdd_W");
    assert("ColorAdd_W"@[5] != "ColorSub_R"@[5]);
    reveal_strlit("ColorSub_G");
    reveal_strlit("TiltRotate");
    assert("TiltRotate"@[0] != "ColorSub_G"@[0]);
    reveal_strlit("ColorSub_G");
    reveal_strlit("ColorAdd_R");
    assert("ColorAdd_R"@[5] != "ColorSub_G"@[5]);
    reveal_strlit("ColorSub_G");
    reveal_strlit("ColorAdd_G");
    assert("ColorAdd_G"@[5] != "ColorSub_G"@[5]);
    reveal_strlit("ColorSub_G");
    reveal_strlit("ColorAdd_B");
    assert("ColorAdd_B"@[5] != "ColorSub_G"@[5]);
    reveal_strlit("ColorSub_G");
    reveal_strlit("ColorAdd_C");
    assert("ColorAdd_C"@[5] != "ColorSub_G"@[5]);
    reveal_strlit("ColorSub_G");
    reveal_strlit("ColorAdd_M");
    assert("ColorAdd_M"@[5] != "ColorSub_G"@[5]);
    reveal_strlit("ColorSub_G");
    reveal_strlit("ColorAdd_Y");
    assert("ColorAdd_Y"@[5] != "ColorSub_G"@[5]);
    reveal_strlit("ColorSub_G");
    reveal_strlit("ColorAdd_W");
    assert("ColorAdd_W"@[5] != "ColorSub_G"@[5]);
    reveal_strlit("ColorSub_G");
    reveal_strlit("ColorSub_R");
    assert("ColorSub_R"@[9] != "ColorSub_G"@[9]);
    reveal_strlit("ColorSub_B");
    reveal_strlit("TiltRotate");
    assert("TiltRotate"@[0] != "ColorSub_B"@[0]);
    reveal_strlit("ColorSub_B");
    reveal_strlit("ColorAdd_R");
    assert("ColorAdd_R"@[5] != "ColorSub_B"@[5]);
    reveal_strlit("ColorSub_B");
    reveal_strlit("ColorAdd_G");
    assert("ColorAdd_G"@[5] != "ColorSub_B"@[5]);
    reveal_strlit("ColorSub_B");
    reveal_strlit("ColorAdd_B");
    assert("ColorAdd_B"@[5] != "ColorSub_B"@[5]);
    reveal_strlit("ColorSub_B");
    reveal_strlit("ColorAdd_C");
    assert("ColorAdd_C"@[5] != "ColorSub_B"@[5]);
    reveal_strlit("ColorSub_B");
    reveal_strlit("ColorAdd_M");
    assert("ColorAdd_M"@[5] != "ColorSub_B"@[5]);
    reveal_strlit("ColorSub_B");
    reveal_strlit("ColorAdd_Y");
    assert("ColorAdd_Y"@[5] != "ColorSub_B"@[5]);
    reveal_strlit("ColorSub_B");
    reveal_strlit("ColorAdd_W");
    assert("ColorAdd_W"@[5] != "ColorSub_B"@[5]);
    reveal_strlit("ColorSub_B");
    reveal_strlit("ColorSub_R");
    assert("ColorSub_R"@[9] != "ColorSub_B"@[9]);
    reveal_strlit("ColorSub_B");
    reveal_strlit("ColorSub_G");
    assert("ColorSub_G"@[9] != "ColorSub_B"@[9]);
    reveal_strlit("ColorSub_C");
    reveal_strlit("TiltRotate");
    assert("TiltRotate"@[0] != "ColorSub_C"@[0]);
    reveal_strlit("ColorSub_C");
    reveal_strlit("ColorAdd_R");
    assert("ColorAdd_R"@[5] != "ColorSub_C"@[5]);
    reveal_strlit("ColorSub_C");
    reveal_strlit("ColorAdd_G");
    assert("ColorAdd_G"@[5] != "ColorSub_C"@[5]);
    reveal_strlit("ColorSub_C");
    reveal_strlit("ColorAdd_B");
    assert("ColorAdd_B"@[5] != "ColorSub_C"@[5]);
    reveal_strlit("ColorSub_C");
    reveal_strlit("ColorAdd_C");
    assert("ColorAdd_C"@[5] != "ColorSub_C"@[5]);
    reveal_strlit("ColorSub_C");
    reveal_strlit("ColorAdd_M");
    assert("ColorAdd_M"@[5] != "ColorSub_C"@[5]);
    reveal_strlit("ColorSub_C");
    reveal_strlit("ColorAdd_Y");
    assert("ColorAdd_Y"@[5] != "ColorSub_C"@[5]);
    reveal_strlit("ColorSub_C");
    reveal_strlit("ColorAdd_W");
    assert("ColorAdd_W"@[5] != "ColorSub_C"@[5]);
    reveal_strlit("ColorSub_C");
    reveal_strlit("ColorSub_R");
    assert("ColorSub_R"@[9] != "ColorSub_C"@[9]);
    reveal_strlit("ColorSub_C");
    reveal_strlit("ColorSub_G");
    assert("ColorSub_G"@[9] != "ColorSub_C"@[9]);
    reveal_strlit("ColorSub_C");
    reveal_strlit("ColorSub_B");
    assert("ColorSub_B"@[9] != "ColorSub_C"@[9]);
    reveal_strlit("ColorSub_M");
    reveal_strlit("TiltRotate");
    assert("TiltRotate"@[0] != "ColorSub_M"@[0]);
    reveal_strlit("ColorSub_M");
    reveal_strlit("ColorAdd_R");
    assert("ColorAdd_R"@[5] != "ColorSub_M"@[5]);
    reveal_strlit("ColorSub_M");
    reveal_strlit("ColorAdd_G");
    assert("ColorAdd_G"@[5] != "ColorSub_M"@[5]);
    reveal_strlit("ColorSub_M");
    reveal_strlit("ColorAdd_B");
    assert("ColorAdd_B"@[5] != "ColorSub_M"@[5]);
    reveal_strlit("ColorSub_M");
    reveal_strlit("ColorAdd_C");
    assert("ColorAdd_C"@[5] != "ColorSub_M"@[5]);
    reveal_strlit("ColorSub_M");
    reveal_strlit("ColorAdd_M");
    assert("ColorAdd_M"@[5] != "ColorSub_M"@[5]);
    reveal_strlit("ColorSub_M");
    reveal_strlit("ColorAdd_Y");
    assert("ColorAdd_Y"@[5] != "ColorSub_M"@[5]);
    reveal_strlit("ColorSub_M");
    reveal_strlit("ColorAdd_W");
    assert("ColorAdd_W"@[5] != "ColorSub_M"@[5]);
    reveal_strlit("ColorSub_M");
    reveal_strlit("ColorSub_R");
    assert("ColorSub_R"@[9] != "ColorSub_M"@[9]);
    reveal_strlit("ColorSub_M");
    reveal_strlit("ColorSub_G");
    assert("ColorSub_G"@[9] != "ColorSub_M"@[9]);
    reveal_strlit("ColorSub_M");
    reveal_strlit("ColorSub_B");
    assert("ColorSub_B"@[9] != "ColorSub_M"@[9]);
    reveal_strlit("ColorSub_M");
    reveal_strlit("ColorSub_C");
    assert("ColorSub_C"@[9] != "ColorSub_M"@[9]);
    reveal_strlit("ColorSub_Y");
    reveal_strlit("TiltRotate");
    assert("TiltRotate"@[0] != "ColorSub_Y"@[0]);
    reveal_strlit("ColorSub_Y");
    reveal_strlit("ColorAdd_R");
    assert("ColorAdd_R"@[5] != "ColorSub_Y"@[5]);
    reveal_strlit("ColorSub_Y");
    reveal_strlit("ColorAdd_G");
    assert("ColorAdd_G"@[5] != "ColorSub_Y"@[5]);
    reveal_strlit("ColorSub_Y");
    reveal_strlit("ColorAdd_B");
    assert("ColorAdd_B"@[5] != "ColorSub_Y"@[5]);
    reveal_strlit("ColorSub_Y");
    reveal_strlit("ColorAdd_C");
    assert("ColorAdd_C"@[5] != "ColorSub_Y"@[5]);
    reveal_strlit("ColorSub_Y");
    reveal_strlit("ColorAdd_M");
    assert("ColorAdd_M"@[5] != "ColorSub_Y"@[5]);
    reveal_strlit("ColorSub_Y");
    reveal_strlit("ColorAdd_Y");
    assert("ColorAdd_Y"@[5] != "ColorSub_Y"@[5]);
    reveal_strlit("ColorSub_Y");
    reveal_strlit("ColorAdd_W");
    assert("ColorAdd_W"@[5] != "ColorSub_Y"@[5]);
    reveal_strlit("ColorSub_Y");
    reveal_strlit("ColorSub_R");
    assert("ColorSub_R"@[9] != "ColorSub_Y"@[9]);
    reveal_strlit("ColorSub_Y");
    reveal_strlit("ColorSub_G");
    assert("ColorSub_G"@[9] != "ColorSub_Y"@[9]);
    reveal_strlit("ColorSub_Y");
    reveal_strlit("ColorSub_B");
    assert("ColorSub_B"@[9] != "ColorSub_Y"@[9]);
    reveal_strlit("ColorSub_Y");
    reveal_strlit("ColorSub_C");
    assert("ColorSub_C"@[9] != "ColorSub_Y"@[9]);
    reveal_strlit("ColorSub_Y");
    reveal_strlit("ColorSub_M");
    assert("ColorSub_M"@[9] != "ColorSub_Y"@[9]);
    reveal_strlit("CTO");
    reveal_strlit("Pan");
    assert("Pan"@[0] != "CTO"@[0]);
    reveal_strlit("CTC");
    reveal_strlit("Pan");
    assert("Pan"@[0] != "CTC"@[0]);
    reveal_strlit("CTC");
    reveal_strlit("CTO");
    assert("CTO"@[2] != "CTC"@[2]);
}

/// Each name in part 1 of the name table is found in that part as its own
/// attribute: every name before it in the part differs from it.
proof fn lemma_names_1_read()
    ensures
        exact_attribute_1("CTB"@) == Some(FixtureChannel3Attribute::Ctb),
        exact_attribute_1("Tint"@) == Some(FixtureChannel3Attribute::Tint),
        exact_attribute_1("HSB_Hue"@) == Some(FixtureChannel3Attribute::HsbHue),
        exact_attribute_1("HSB_Saturation"@) == Some(FixtureChannel3Attribute::HsbSaturation),
        exact_attribute_1("HSB_Brightness"@) == Some(FixtureChannel3Attribute::HsbBrightness),
        exact_attribute_1("HSB_Quality"@) == Some(FixtureChannel3Attribute::HsbQuality),
        exact_attribute_1("CIE_X"@) == Some(FixtureChannel3Attribute::CieX),
        exact_attribute_1("CIE_Y"@) == Some(FixtureChannel3Attribute::CieY),
        exact_attribute_1("CIE_Brightness"@) == Some(FixtureChannel3Attribute::CieBrightness),
        exact_attribute_1("ColorRGB_Red"@) == Some(FixtureChannel3Attribute::ColorRgbRed),
        exact_attribute_1("ColorRGB_Green"@) == Some(FixtureChannel3Attribute::ColorRgbGreen),
        exact_attribute_1("ColorRGB_Blue"@) == Some(FixtureChannel3Attribute::ColorRgbBlue),
        exact_attribute_1("ColorRGB_Cyan"@) == Some(FixtureChannel3Attribute::ColorRgbCyan),
        exact_attribute_1("ColorRGB_Magenta"@) == Some(FixtureChannel3Attribute::ColorRgbMagenta),
        exact_attribute_1("ColorRGB_Yellow"@) == Some(FixtureChannel3Attribute::ColorRgbYellow),
        exact_attribute_1("ColorRGB_Quality"@) == Some(FixtureChannel3Attribute::ColorRgbQuality),
        exact_attribute_1("VideoBoost_R"@) == Some(FixtureChannel3Attribute::VideoBoostR),
        exact_attribute_1("VideoBoost_G"@) == Some(FixtureChannel3Attribute::VideoBoostG),
        exact_attribute_1("VideoBoost_B"@) == Some(FixtureChannel3Attribute::VideoBoostB),
        exact_attribute_1("VideoHueShift"@) == Some(FixtureChannel3Attribute::VideoHueShift),
        exact_attribute_1("VideoSaturation"@) == Some(FixtureChannel3Attribute::VideoSaturation),
        exact_attribute_1("VideoBrightness"@) == Some(FixtureChannel3Attribute::VideoBrightness),
        exact_attribute_1("VideoContrast"@) == Some(FixtureChannel3Attribute::VideoContrast),
        exact_attribute_1("VideoKeyColor_R"@) == Some(FixtureChannel3Attribute::VideoKeyColorR),
        exact_attribute_1("VideoKeyColor_G"@) == Some(FixtureChannel3Attribute::VideoKeyColorG),
        exact_attribute_1("VideoKeyColor_B"@) == Some(FixtureChannel3Attribute::VideoKeyColorB),
        exact_attribute_1("VideoKeyIntensity"@) == Some(FixtureChannel3Attribute::VideoKeyIntensity),
        exact_attribute_1("VideoKeyTolerance"@) == Some(FixtureChannel3Attribute::VideoKeyTolerance),
        exact_attribute_1("StrobeDuration"@) == Some(FixtureChannel3Attribute::StrobeDuration),
        exact_attribute_1("StrobeRate"@) == Some(FixtureChannel3Attribute::StrobeRate),
        exact_attribute_1("StrobeFrequency"@) == Some(FixtureChannel3Attribute::StrobeFrequency),
        exact_attribute_1("StrobeModeShutter"@) == Some(FixtureChannel3Attribute::StrobeModeShutter),
        exact_attribute_1("StrobeModeStrobe"@) == Some(FixtureChannel3Attribute::StrobeModeStrobe),
        exact_attribute_1("StrobeModePulse"@) == Some(FixtureChannel3Attribute::StrobeModePulse),
        exact_attribute_1("StrobeModePulseOpen"@) == Some(FixtureChannel3Attribute::StrobeModePulseOpen),
        exact_attribute_1("StrobeModePulseClose"@) == Some(FixtureChannel3Attribute::StrobeModePulseClose),
        exact_attribute_1("StrobeModeRandom"@) == Some(FixtureChannel3Attribute::StrobeModeRandom),
        exact_attribute_1("StrobeModeRandomPulse"@) == Some(FixtureChannel3Attribute::StrobeModeRandomPulse),
        exact_attribute_1("StrobeModeRandomPulseOpen"@) == Some(FixtureChannel3Attribute::StrobeModeRandomPulseOpen),
        exact_attribute_1("StrobeModeRandomPulseClose"@) == Some(FixtureChannel3Attribute::StrobeModeRandomPulseClose),
        exact_attribute_1("StrobeModeEffect"@) == Some(FixtureChannel3Attribute::StrobeModeEffect),
        exact_attribute_1("Iris"@) == Some(FixtureChannel3Attribute::Iris),
        exact_attribute_1("IrisStrobe"@) == Some(FixtureChannel3Attribute::IrisStrobe),
        exact_attribute_1("IrisStrobeRandom"@) == Some(FixtureChannel3Attribute::IrisStrobeRandom),
        exact_attribute_1("IrisPulseClose"@) == Some(FixtureChannel3Attribute::IrisPulseClose),
        exact_attribute_1("IrisPulseOpen"@) == Some(FixtureChannel3Attribute::IrisPulseOpen),
{
    reveal(exact_attribute_1);
    lemma_name_lengths_1();
    reveal_strlit("HSB_Brightness");
    reveal_strlit("HSB_Saturation");
    assert("HSB_Saturation"@[4] != "HSB_Brightness"@[4]);
    reveal_strlit("CIE_Y");
    reveal_strlit("CIE_X");
    assert("CIE_X"@[4] != "CIE_Y"@[4]);
    reveal_strlit("CIE_Brightness");
    reveal_strlit("HSB_Saturation");
    assert("HSB_Saturation"@[0] != "CIE_Brightness"@[0]);
    reveal_strlit("CIE_Brightness");
    reveal_strlit("HSB_Brightness");
    assert("HSB_Brightness"@[0] != "CIE_Brightness"@[0]);
    reveal_strlit("ColorRGB_Green");
    reveal_strlit("HSB_Saturation");
    assert("HSB_Saturation"@[0] != "ColorRGB_Green"@[0]);
    reveal_strlit("ColorRGB_Green");
    reveal_strlit("HSB_Brightness");
    assert("HSB_Brightness"@[0] != "ColorRGB_Green"@[0]);
    reveal_strlit("ColorRGB_Green");
    reveal_strlit("CIE_Brightness");
    assert("CIE_Brightness"@[1] != "ColorRGB_Green"@[1]);
    reveal_strlit("ColorRGB_Cyan");
    reveal_strlit("ColorRGB_Blue");
    assert("ColorRGB_Blue"@[9] != "ColorRGB_Cyan"@[9]);
    reveal_strlit("ColorRGB_Quality");
    reveal_strlit("ColorRGB_Magenta");
    assert("ColorRGB_Magenta"@[9] != "ColorRGB_Quality"@[9]);
    reveal_strlit("VideoBoost_R");
    reveal_strlit("ColorRGB_Red");
    assert("ColorRGB_Red"@[0] != "VideoBoost_R"@[0]);
    reveal_strlit("VideoBoost_G");
    reveal_strlit("ColorRGB_Red");
    assert("ColorRGB_Red"@[0] != "VideoBoost_G"@[0]);
    reveal_strlit("VideoBoost_G");
    reveal_strlit("VideoBoost_R");
    assert("VideoBoost_R"@[11] != "VideoBoost_G"@[11]);
    reveal_strlit("VideoBoost_B");
    reveal_strlit("ColorRGB_Red");
    assert("ColorRGB_Red"@[0] != "VideoBoost_B"@[0]);
    reveal_strlit("VideoBoost_B");
    reveal_strlit("VideoBoost_R");
    assert("VideoBoost_R"@[11] != "VideoBoost_B"@[11]);
    reveal_strlit("VideoBoost_B");
    reveal_strlit("VideoBoost_G");
    assert("VideoBoost_G"@[11] != "VideoBoost_B"@[11]);
    reveal_strlit("VideoHueShift");
    reveal_strlit("ColorRGB_Blue");
    assert("ColorRGB_Blue"@[0] != "VideoHueShift"@[0]);
    reveal_strlit("VideoHueShift");
    reveal_strlit("ColorRGB_Cyan");
    assert("ColorRGB_Cyan"@[0] != "VideoHueShift"@[0]);
    reveal_strlit("VideoSaturation");
    reveal_strlit("ColorRGB_Yellow");
    assert("ColorRGB_Yellow"@[0] != "VideoSaturation"@[0]);
    reveal_strlit("VideoBrightness");
    reveal_strlit("ColorRGB_Yellow");
    assert("ColorRGB_Yellow"@[0] != "VideoBrightness"@[0]);
    reveal_strlit("VideoBrightness");
    reveal_strlit("VideoSaturation");
    assert("VideoSaturation"@[5] != "VideoBrightness"@[5]);
    reveal_strlit("VideoContrast");
    reveal_strlit("ColorRGB_Blue");
    assert("ColorRGB_Blue"@[0] != "VideoContrast"@[0]);
    reveal_strlit("VideoContrast");
    reveal_strlit("ColorRGB_Cyan");
    assert("ColorRGB_Cyan"@[0] != "VideoContrast"@[0]);
    reveal_strlit("VideoContrast");
    reveal_strlit("VideoHueShift");
    assert("VideoHueShift"@[5] != "VideoContrast"@[5]);
    reveal_strlit("VideoKeyColor_R");
    reveal_strlit("ColorRGB_Yellow");
    assert("ColorRGB_Yellow"@[0] != "VideoKeyColor_R"@[0]);
    reveal_strlit("VideoKeyColor_R");
    reveal_strlit("VideoSaturation");
    assert("VideoSaturation"@[5] != "VideoKeyColor_R"@[5]);
    reveal_strlit("VideoKeyColor_R");
    reveal_strlit("VideoBrightness");
    assert("VideoBrightness"@[5] != "VideoKeyColor_R"@[5]);
    reveal_strlit("VideoKeyColor_G");
    reveal_strlit("ColorRGB_Yellow");
    assert("ColorRGB_Yellow"@[0] != "VideoKeyColor_G"@[0]);
    reveal_strlit("VideoKeyColor_G");
    reveal_strlit("VideoSaturation");
    assert("VideoSaturation"@[5] != "VideoKeyColor_G"@[5]);
    reveal_strlit("VideoKeyColor_G");
    reveal_strlit("VideoBrightness");
    assert("VideoBrightness"@[5] != "VideoKeyColor_G"@[5]);
    reveal_strlit("VideoKeyColor_G");
    reveal_strlit("VideoKeyColor_R");
    assert("VideoKeyColor_R"@[14] != "VideoKeyColor_G"@[14]);
    reveal_strlit("VideoKeyColor_B");
    reveal_strlit("ColorRGB_Yellow");
    assert("ColorRGB_Yellow"@[0] != "VideoKeyColor_B"@[0]);
    reveal_strlit("VideoKeyColor_B");
    reveal_strlit("VideoSaturation");
    assert("VideoSaturation"@[5] != "VideoKeyColor_B"@[5]);
    reveal_strlit("VideoKeyColor_B");
    reveal_strlit("VideoBrightness");
    assert("VideoBrightness"@[5] != "VideoKeyColor_B"@[5]);
    reveal_strlit("VideoKeyColor_B");
    reveal_strlit("VideoKeyColor_R");
    assert("VideoKeyColor_R"@[14] != "VideoKeyColor_B"@[14]);
    reveal_strlit("VideoKeyColor_B");
    reveal_strlit("VideoKeyColor_G");
    assert("VideoKeyColor_G"@[14] != "VideoKeyColor_B"@[14]);
    reveal_strlit("VideoKeyTolerance");
    reveal_strlit("VideoKeyIntensity");
    assert("VideoKeyIntensity"@[8] != "VideoKeyTolerance"@[8]);
    reveal_strlit("StrobeDuration");
    reveal_strlit("HSB_Saturation");
    assert("HSB_Saturation"@[0] != "StrobeDuration"@[0]);
    reveal_strlit("StrobeDuration");
    reveal_strlit("HSB_Brightness");
    assert("HSB_Brightness"@[0] != "StrobeDuration"@[0]);
    reveal_strlit("StrobeDuration");
    reveal_strlit("CIE_Brightness");
    assert("CIE_Brightness"@[0] != "StrobeDuration"@[0]);
    reveal_strlit("StrobeDuration");
    reveal_strlit("ColorRGB_Green");
    assert("ColorRGB_Green"@[0] != "StrobeDuration"@[0]);
    reveal_strlit("StrobeFrequency");
    reveal_strlit("ColorRGB_Yellow");
    assert("ColorRGB_Yellow"@[0] != "StrobeFrequency"@[0]);
    reveal_strlit("StrobeFrequency");
    reveal_strlit("VideoSaturation");
    assert("VideoSaturation"@[0] != "StrobeFrequency"@[0]);
    reveal_strlit("StrobeFrequency");
    reveal_strlit("VideoBrightness");
    assert("VideoBrightness"@[0] != "StrobeFrequency"@[0]);
    reveal_strlit("StrobeFrequency");
    reveal_strlit("VideoKeyColor_R");
    assert("VideoKeyColor_R"@[0] != "StrobeFrequency"@[0]);
    reveal_strlit("StrobeFrequency");
    reveal_strlit("VideoKeyColor_G");
    assert("VideoKeyColor_G"@[0] != "StrobeFrequency"@[0]);
    reveal_strlit("StrobeFrequency");
    reveal_strlit("VideoKeyColor_B");
    assert("VideoKeyColor_B"@[0] != "StrobeFrequency"@[0]);
    reveal_strlit("StrobeModeShutter");
    reveal_strlit("VideoKeyIntensity");
    assert("VideoKeyIntensity"@[0] != "StrobeModeShutter"@[0]);
    reveal_strlit("StrobeModeShutter");
    reveal_strlit("VideoKeyTolerance");
    assert("VideoKeyTolerance"@[0] != "StrobeModeShutter"@[0]);
    reveal_strlit("StrobeModeStrobe");
    reveal_strlit("ColorRGB_Magenta");
    assert("ColorRGB_Magenta"@[0] != "StrobeModeStrobe"@[0]);
    reveal_strlit("StrobeModeStrobe");
    reveal_strlit("ColorRGB_Quality");
    assert("ColorRGB_Quality"@[0] != "StrobeModeStrobe"@[0]);
    reveal_strlit("StrobeModePulse");
    reveal_strlit("ColorRGB_Yellow");
    assert("ColorRGB_Yellow"@[0] != "StrobeModePulse"@[0]);
    reveal_strlit("StrobeModePulse");
    reveal_strlit("VideoSaturation");
    assert("VideoSaturation"@[0] != "StrobeModePulse"@[0]);
    reveal_strlit("StrobeModePulse");
    reveal_strlit("VideoBrightness");
    assert("VideoBrightness"@[0] != "StrobeModePulse"@[0]);
    reveal_strlit("StrobeModePulse");
    reveal_strlit("VideoKeyColor_R");
    assert("VideoKeyColor_R"@[0] != "StrobeModePulse"@[0]);
    reveal_strlit("StrobeModePulse");
    reveal_strlit("VideoKeyColor_G");
    assert("VideoKeyColor_G"@[0] != "StrobeModePulse"@[0]);
    reveal_strlit("StrobeModePulse");
    reveal_strlit("VideoKeyColor_B");
    assert("VideoKeyColor_B"@[0] != "StrobeModePulse"@[0]);
    reveal_strlit("StrobeModePulse");
    reveal_strlit("StrobeFrequency");
    assert("StrobeFrequency"@[6] != "StrobeModePulse"@[6]);
    reveal_strlit("StrobeModeRandom");
    reveal_strlit("ColorRGB_Magenta");
    assert("ColorRGB_Magenta"@[0] != "StrobeModeRandom"@[0]);
    reveal_strlit("StrobeModeRandom");
    reveal_strlit("ColorRGB_Quality");
    assert("ColorRGB_Quality"@[0] != "StrobeModeRandom"@[0]);
    reveal_strlit("StrobeModeRandom");
    reveal_strlit("StrobeModeStrobe");
    assert("StrobeModeStrobe"@[10] != "StrobeModeRandom"@[10]);
    reveal_strlit("StrobeModeEffect");
    reveal_strlit("ColorRGB_Magenta");
    assert("ColorRGB_Magenta"@[0] != "StrobeModeEffect"@[0]);
    reveal_strlit("StrobeModeEffect");
    reveal_strlit("ColorRGB_Quality");
    assert("ColorRGB_Quality"@[0] != "StrobeModeEffect"@[0]);
    reveal_strlit("StrobeModeEffect");
    reveal_strlit("StrobeModeStrobe");
    assert("StrobeModeStrobe"@[10] != "StrobeModeEffect"@[10]);
    reveal_strlit("StrobeModeEffect");
    reveal_strlit("StrobeModeRandom");
    assert("StrobeModeRandom"@[10] != "StrobeModeEffect"@[10]);
    reveal_strlit("Iris");
    reveal_strlit("Tint");
    assert("Tint"@[0] != "Iris"@[0]);
    reveal_strlit("IrisStrobe");
    reveal_strlit("StrobeRate");
    assert("StrobeRate"@[0] != "IrisStrobe"@[0]);
    reveal_strlit("IrisStrobeRandom");
    reveal_strlit("ColorRGB_Magenta");
    assert("ColorRGB_Magenta"@[0] != "IrisStrobeRandom"@[0]);
    reveal_strlit("IrisStrobeRandom");
    reveal_strlit("ColorRGB_Quality");
    assert("ColorRGB_Quality"@[0] != "IrisStrobeRandom"@[0]);
    reveal_strlit("IrisStrobeRandom");
    reveal_strlit("StrobeModeStrobe");
    assert("StrobeModeStrobe"@[0] != "IrisStrobeRandom"@[0]);
    reveal_strlit("IrisStrobeRandom");
    reveal_strlit("StrobeModeRandom");
    assert("StrobeModeRandom"@[0] != "IrisStrobeRandom"@[0]);
    reveal_strlit("IrisStrobeRandom");
    reveal_strlit("StrobeModeEffect");
    assert("StrobeModeEffect"@[0] != "IrisStrobeRandom"@[0]);
    reveal_strlit("IrisPulseClose");
    reveal_strlit("HSB_Saturation");
    assert("HSB_Saturation"@[0] != "IrisPulseClose"@[0]);
    reveal_strlit("IrisPulseClose");
    reveal_strlit("HSB_Brightness");
    assert("HSB_Brightness"@[0] != "IrisPulseClose"@[0]);
    reveal_strlit("IrisPulseClose");
    reveal_strlit("CIE_Brightness");
    assert("CIE_Brightness"@[0] != "IrisPulseClose"@[0]);
    reveal_strlit("IrisPulseClose");
    reveal_strlit("ColorRGB_Green");
    assert("ColorRGB_Green"@[0] != "IrisPulseClose"@[0]);
    reveal_strlit("IrisPulseClose");
    reveal_strlit("StrobeDuration");
    assert("StrobeDuration"@[0] != "IrisPulseClose"@[0]);
    reveal_strlit("IrisPulseOpen");
    reveal_strlit("ColorRGB_Blue");
    assert("ColorRGB_Blue"@[0] != "IrisPulseOpen"@[0]);
    reveal_strlit("IrisPulseOpen");
    reveal_strlit("ColorRGB_Cyan");
    assert("ColorRGB_Cyan"@[0] != "IrisPulseOpen"@[0]);
    reveal_strlit("IrisPulseOpen");
    reveal_strlit("VideoHueShift");
    assert("VideoHueShift"@[0] != "IrisPulseOpen"@[0]);
    reveal_strlit("IrisPulseOpen");
    reveal_strlit("VideoContrast");
    assert("VideoContrast"@[0] != "IrisPulseOpen"@[0]);
}

/// No name of part 1 of the name table occurs in part 0.
proof fn lemma_names_1_not_in_0()
    ensures
        exact_attribute_0("CTB"@) is None,
        exact_attribute_0("Tint"@) is None,
        exact_attribute_0("HSB_Hue"@) is None,
        exact_attribute_0("HSB_Saturation"@) is None,
        exact_attribute_0("HSB_Brightness"@) is None,
        exact_attribute_0("HSB_Quality"@) is None,
        exact_attribute_0("CIE_X"@) is None,
        exact_attribute_0("CIE_Y"@) is None,
        exact_attribute_0("CIE_Brightness"@) is None,
        exact_attribute_0("ColorRGB_Red"@) is None,
        exact_attribute_0("ColorRGB_Green"@) is None,
        exact_attribute_0("ColorRGB_Blue"@) is None,
        exact_attribute_0("ColorRGB_Cyan"@) is None,
        exact_attribute_0("ColorRGB_Magenta"@) is None,
        exact_attribute_0("ColorRGB_Yellow"@) is None,
        exact_attribute_0("ColorRGB_Quality"@) is None,
        exact_attribute_0("VideoBoost_R"@) is None,
        exact_attribute_0("VideoBoost_G"@) is None,
        exact_attribute_0("VideoBoost_B"@) is None,
        exact_attribute_0("VideoHueShift"@) is None,
        exact_attribute_0("VideoSaturation"@) is None,
        exact_attribute_0("VideoBrightness"@) is None,
        exact_attribute_0("VideoContrast"@) is None,
        exact_attribute_0("VideoKeyColor_R"@) is None,
        exact_attribute_0("VideoKeyColor_G"@) is None,
        exact_attribute_0("VideoKeyColor_B"@) is None,
        exact_attribute_0("VideoKeyIntensity"@) is None,
        exact_attribute_0("VideoKeyTolerance"@) is None,
        exact_attribute_0("StrobeDuration"@) is None,
        exact_attribute_0("StrobeRate"@) is None,
        exact_attribute_0("StrobeFrequency"@) is None,
        exact_attribute_0("StrobeModeShutter"@) is None,
        exact_attribute_0("StrobeModeStrobe"@) is None,
        exact_attribute_0("StrobeModePulse"@) is None,
        exact_attribute_0("StrobeModePulseOpen"@) is None,
        exact_attribute_0("StrobeModePulseClose"@) is None,
        exact_attribute_0("StrobeModeRandom"@) is None,
        exact_attribute_0("StrobeModeRandomPulse"@) is None,
        exact_attribute_0("StrobeModeRandomPulseOpen"@) is None,
        exact_attribute_0("StrobeModeRandomPulseClose"@) is None,
        exact_attribute_0("StrobeModeEffect"@) is None,
        exact_attribute_0("Iris"@) is None,
        exact_attribute_0("IrisStrobe"@) is None,
        exact_attribute_0("IrisStrobeRandom"@) is None,
        exact_attribute_0("IrisPulseClose"@) is None,
        exact_attribute_0("IrisPulseOpen"@) is None,
{
    reveal(exact_attribute_0);
    lemma_name_lengths_0();
    lemma_name_lengths_1();
    reveal_strlit("CTB");
    reveal_strlit("Pan");
    assert("Pan"@[0] != "CTB"@[0]);
    reveal_strlit("CTB");
    reveal_strlit("CTO");
    assert("CTO"@[2] != "CTB"@[2]);
    reveal_strlit("CTB");
    reveal_strlit("CTC");
    assert("CTC"@[2] != "CTB"@[2]);
    reveal_strlit("Tint");
    reveal_strlit("Tilt");
    assert("Tilt"@[2] != "Tint"@[2]);
    reveal_strlit("HSB_Hue");
    reveal_strlit("Scale_X");
    assert("Scale_X"@[0] != "HSB_Hue"@[0]);
    reveal_strlit("HSB_Hue");
    reveal_strlit("Scale_Y");
    assert("Scale_Y"@[0] != "HSB_Hue"@[0]);
    reveal_strlit("HSB_Hue");
    reveal_strlit("Scale_Z");
    assert("Scale_Z"@[0] != "HSB_Hue"@[0]);
    reveal_strlit("HSB_Hue");
    reveal_strlit("PlayEnd");
    assert("PlayEnd"@[0] != "HSB_Hue"@[0]);
    reveal_strlit("HSB_Saturation");
    reveal_strlit("PositionEffect");
    assert("PositionEffect"@[0] != "HSB_Saturation"@[0]);
    reveal_strlit("HSB_Brightness");
    reveal_strlit("PositionEffect");
    assert("PositionEffect"@[0] != "HSB_Brightness"@[0]);
    reveal_strlit("HSB_Quality");
    reveal_strlit("ColorAdd_RY");
    assert("ColorAdd_RY"@[0] != "HSB_Quality"@[0]);
    reveal_strlit("HSB_Quality");
    reveal_strlit("ColorAdd_GY");
    assert("ColorAdd_GY"@[0] != "HSB_Quality"@[0]);
    reveal_strlit("HSB_Quality");
    reveal_strlit("ColorAdd_GC");
    assert("ColorAdd_GC"@[0] != "HSB_Quality"@[0]);
    reveal_strlit("HSB_Quality");
    reveal_strlit("ColorAdd_BC");
    assert("ColorAdd_BC"@[0] != "HSB_Quality"@[0]);
    reveal_strlit("HSB_Quality");
    reveal_strlit("ColorAdd_BM");
    assert("ColorAdd_BM"@[0] != "HSB_Quality"@[0]);
    reveal_strlit("HSB_Quality");
    reveal_strlit("ColorAdd_RM");
    assert("ColorAdd_RM"@[0] != "HSB_Quality"@[0]);
    reveal_strlit("HSB_Quality");
    reveal_strlit("ColorAdd_WW");
    assert("ColorAdd_WW"@[0] != "HSB_Quality"@[0]);
    reveal_strlit("HSB_Quality");
    reveal_strlit("ColorAdd_CW");
    assert("ColorAdd_CW"@[0] != "HSB_Quality"@[0]);
    reveal_strlit("HSB_Quality");
    reveal_strlit("ColorAdd_UV");
    assert("ColorAdd_UV"@[0] != "HSB_Quality"@[0]);
    reveal_strlit("CIE_X");
    reveal_strlit("XYZ_X");
    assert("XYZ_X"@[0] != "CIE_X"@[0]);
    reveal_strlit("CIE_X");
    reveal_strlit("XYZ_Y");
    assert("XYZ_Y"@[0] != "CIE_X"@[0]);
    reveal_strlit("CIE_X");
    reveal_strlit("XYZ_Z");
    assert("XYZ_Z"@[0] != "CIE_X"@[0]);
    reveal_strlit("CIE_X");
    reveal_strlit("Rot_X");
    assert("Rot_X"@[0] != "CIE_X"@[0]);
    reveal_strlit("CIE_X");
    reveal_strlit("Rot_Y");
    assert("Rot_Y"@[0] != "CIE_X"@[0]);
    reveal_strlit("CIE_X");
    reveal_strlit("Rot_Z");
    assert("Rot_Z"@[0] != "CIE_X"@[0]);
    reveal_strlit("CIE_Y");
    reveal_strlit("XYZ_X");
    assert("XYZ_X"@[0] != "CIE_Y"@[0]);
    reveal_strlit("CIE_Y");
    reveal_strlit("XYZ_Y");
    assert("XYZ_Y"@[0] != "CIE_Y"@[0]);
    reveal_strlit("CIE_Y");
    reveal_strlit("XYZ_Z");
    assert("XYZ_Z"@[0] != "CIE_Y"@[0]);
    reveal_strlit("CIE_Y");
    reveal_strlit("Rot_X");
    assert("Rot_X"@[0] != "CIE_Y"@[0]);
    reveal_strlit("CIE_Y");
    reveal_strlit("Rot_Y");
    assert("Rot_Y"@[0] != "CIE_Y"@[0]);
    reveal_strlit("CIE_Y");
    reveal_strlit("Rot_Z");
    assert("Rot_Z"@[0] != "CIE_Y"@[0]);
    reveal_strlit("CIE_Brightness");
    reveal_strlit("PositionEffect");
    assert("PositionEffect"@[0] != "CIE_Brightness"@[0]);
    reveal_strlit("ColorRGB_Green");
    reveal_strlit("PositionEffect");
    assert("PositionEffect"@[0] != "ColorRGB_Green"@[0]);
    reveal_strlit("StrobeDuration");
    reveal_strlit("PositionEffect");
    assert("PositionEffect"@[0] != "StrobeDuration"@[0]);
    reveal_strlit("StrobeRate");
    reveal_strlit("TiltRotate");
    assert("TiltRotate"@[0] != "StrobeRate"@[0]);
    reveal_strlit("StrobeRate");
    reveal_strlit("ColorAdd_R");
    assert("ColorAdd_R"@[0] != "StrobeRate"@[0]);
    reveal_strlit("StrobeRate");
    reveal_strlit("ColorAdd_G");
    assert("ColorAdd_G"@[0] != "StrobeRate"@[0]);
    reveal_strlit("StrobeRate");
    reveal_strlit("ColorAdd_B");
    assert("ColorAdd_B"@[0] != "StrobeRate"@[0]);
    reveal_strlit("StrobeRate");
    reveal_strlit("ColorAdd_C");
    assert("ColorAdd_C"@[0] != "StrobeRate"@[0]);
    reveal_strlit("StrobeRate");
    reveal_strlit("ColorAdd_M");
    assert("ColorAdd_M"@[0] != "StrobeRate"@[0]);
    reveal_strlit("StrobeRate");
    reveal_strlit("ColorAdd_Y");
    assert("ColorAdd_Y"@[0] != "StrobeRate"@[0]);
    reveal_strlit("StrobeRate");
    reveal_strlit("ColorAdd_W");
    assert("ColorAdd_W"@[0] != "StrobeRate"@[0]);
    reveal_strlit("StrobeRate");
    reveal_strlit("ColorSub_R");
    assert("ColorSub_R"@[0] != "StrobeRate"@[0]);
    reveal_strlit("StrobeRate");
    reveal_strlit("ColorSub_G");
    assert("ColorSub_G"@[0] != "StrobeRate"@[0]);
    reveal_strlit("StrobeRate");
    reveal_strlit("ColorSub_B");
    assert("ColorSub_B"@[0] != "StrobeRate"@[0]);
    reveal_strlit("StrobeRate");
    reveal_strlit("ColorSub_C");
    assert("ColorSub_C"@[0] != "StrobeRate"@[0]);
    reveal_strlit("StrobeRate");
    reveal_strlit("ColorSub_M");
    assert("ColorSub_M"@[0] != "StrobeRate"@[0]);
    reveal_strlit("StrobeRate");
    reveal_strlit("ColorSub_Y");
    assert("ColorSub_Y"@[0] != "StrobeRate"@[0]);
    reveal_strlit("Iris");
    reveal_strlit("Tilt");
    assert("Tilt"@[0] != "Iris"@[0]);
    reveal_strlit("IrisStrobe");
    reveal_strlit("TiltRotate");
    assert("TiltRotate"@[0] != "IrisStrobe"@[0]);
    reveal_strlit("IrisStrobe");
    reveal_strlit("ColorAdd_R");
    assert("ColorAdd_R"@[0] != "IrisStrobe"@[0]);
    reveal_strlit("IrisStrobe");
    reveal_strlit("ColorAdd_G");
    assert("ColorAdd_G"@[0] != "IrisStrobe"@[0]);
    reveal_strlit("IrisStrobe");
    reveal_strlit("ColorAdd_B");
    assert("ColorAdd_B"@[0] != "IrisStrobe"@[0]);
    reveal_strlit("IrisStrobe");
    reveal_strlit("ColorAdd_C");
    assert("ColorAdd_C"@[0] != "IrisStrobe"@[0]);
    reveal_strlit("IrisStrobe");
    reveal_strlit("ColorAdd_M");
    assert("ColorAdd_M"@[0] != "IrisStrobe"@[0]);
    reveal_strlit("IrisStrobe");
    reveal_strlit("ColorAdd_Y");
    assert("ColorAdd_Y"@[0] != "IrisStrobe"@[0]);
    reveal_strlit("IrisStrobe");
    reveal_strlit("ColorAdd_W");
    assert("ColorAdd_W"@[0] != "IrisStrobe"@[0]);
    reveal_strlit("IrisStrobe");
    reveal_strlit("ColorSub_R");
    assert("ColorSub_R"@[0] != "IrisStrobe"@[0]);
    reveal_strlit("IrisStrobe");
    reveal_strlit("ColorSub_G");
    assert("ColorSub_G"@[0] != "IrisStrobe"@[0]);
    reveal_strlit("IrisStrobe");
    reveal_strlit("ColorSub_B");
    assert("ColorSub_B"@[0] != "IrisStrobe"@[0]);
    reveal_strlit("IrisStrobe");
    reveal_strlit("ColorSub_C");
    assert("ColorSub_C"@[0] != "IrisStrobe"@[0]);
    reveal_strlit("IrisStrobe");
    reveal_strlit("ColorSub_M");
    assert("ColorSub_M"@[0] != "IrisStrobe"@[0]);
    reveal_strlit("IrisStrobe");
    reveal_strlit("ColorSub_Y");
    assert("ColorSub_Y"@[0] != "IrisStrobe"@[0]);
    reveal_strlit("IrisPulseClose");
    reveal_strlit("PositionEffect");
    assert("PositionEffect"@[0] != "IrisPulseClose"@[0]);
}

/// Each name in part 2 of the name table is found in that part as its own
/// attribute: every name before it in the part differs from it.
proof fn lemma_names_2_read()
    ensures
        exact_attribute_2("IrisRandomPulseClose"@) == Some(FixtureChannel3Attribute::IrisRandomPulseClose),
        exact_attribute_2("IrisRandomPulseOpen"@) == Some(FixtureChannel3Attribute::IrisRandomPulseOpen),
        exact_attribute_2("EffectsSync"@) == Some(FixtureChannel3Attribute::EffectsSync),
        exact_attribute_2("BeamShaper"@) == Some(FixtureChannel3Attribute::BeamShaper),
        exact_attribute_2("BeamShaperMacro"@) == Some(FixtureChannel3Attribute::BeamShaperMacro),
        exact_attribute_2("BeamShaperPos"@) == Some(FixtureChannel3Attribute::BeamShaperPos),
        exact_attribute_2("BeamShaperPosRotate"@) == Some(FixtureChannel3Attribute::BeamShaperPosRotate),
        exact_attribute_2("Zoom"@) == Some(FixtureChannel3Attribute::Zoom),
        exact_attribute_2("ZoomModeSpot"@) == Some(FixtureChannel3Attribute::ZoomModeSpot),
        exact_attribute_2("ZoomModeBeam"@) == Some(FixtureChannel3Attribute::ZoomModeBeam),
        exact_attribute_2("DigitalZoom"@) == Some(FixtureChannel3Attribute::DigitalZoom),
        exact_attribute_2("DimmerMode"@) == Some(FixtureChannel3Attribute::DimmerMode),
        exact_attribute_2("DimmerCurve"@) == Some(FixtureChannel3Attribute::DimmerCurve),
        exact_attribute_2("BlackoutMode"@) == Some(FixtureChannel3Attribute::BlackoutMode),
        exact_attribute_2("LEDFrequency"@) == Some(FixtureChannel3Attribute::LedFrequency),
        exact_attribute_2("LEDZoneMode"@) == Some(FixtureChannel3Attribute::LedZoneMode),
        exact_attribute_2("PixelMode"@) == Some(FixtureChannel3Attribute::PixelMode),
        exact_attribute_2("PanMode"@) == Some(FixtureChannel3Attribute::PanMode),
        exact_attribute_2("TiltMode"@) == Some(FixtureChannel3Attribute::TiltMode),
        exact_attribute_2("PanTiltMode"@) == Some(FixtureChannel3Attribute::PanTiltMode),
        exact_attribute_2("PositionModes"@) == Some(FixtureChannel3Attribute::PositionModes),
        exact_attribute_2("GoboWheelShortcutMode"@) == Some(FixtureChannel3Attribute::GoboWheelShortcutMode),
        exact_attribute_2("AnimationWheelShortcutMode"@) == Some(FixtureChannel3Attribute::AnimationWheelShortcutMode),
        exact_attribute_2("ColorWheelShortcutMode"@) == Some(FixtureChannel3Attribute::ColorWheelShortcutMode),
        exact_attribute_2("CyanMode"@) == Some(FixtureChannel3Attribute::CyanMode),
        exact_attribute_2("MagentaMode"@) == Some(FixtureChannel3Attribute::MagentaMode),
        exact_attribute_2("YellowMode"@) == Some(FixtureChannel3Attribute::YellowMode),
        exact_attribute_2("ColorMixMode"@) == Some(FixtureChannel3Attribute::ColorMixMode),
        exact_attribute_2("ChromaticMode"@) == Some(FixtureChannel3Attribute::ChromaticMode),
        exact_attribute_2("ColorCalibrationMode"@) == Some(FixtureChannel3Attribute::ColorCalibrationMode),
        exact_attribute_2("ColorConsistency"@) == Some(FixtureChannel3Attribute::ColorConsistency),
        exact_attribute_2("ColorControl"@) == Some(FixtureChannel3Attribute::ColorControl),
        exact_attribute_2("ColorModelMode"@) == Some(FixtureChannel3Attribute::ColorModelMode),
        exact_attribute_2("ColorSettingsReset"@) == Some(FixtureChannel3Attribute::ColorSettingsReset),
        exact_attribute_2("ColorUniformity"@) == Some(FixtureChannel3Attribute::ColorUniformity),
        exact_attribute_2("CRIMode"@) == Some(FixtureChannel3Attribute::CriMode),
        exact_attribute_2("CustomColor"@) == Some(FixtureChannel3Attribute::CustomColor),
        exact_attribute_2("UVStability"@) == Some(FixtureChannel3Attribute::UvStability),
        exact_attribute_2("WavelengthCorrection"@) == Some(FixtureChannel3Attribute::WavelengthCorrection),
        exact_attribute_2("WhiteCount"@) == Some(FixtureChannel3Attribute::WhiteCount),
        exact_attribute_2("StrobeMode"@) == Some(FixtureChannel3Attribute::StrobeMode),
        exact_attribute_2("ZoomMode"@) == Some(FixtureChannel3Attribute::ZoomMode),
        exact_attribute_2("FocusMode"@) == Some(FixtureChannel3Attribute::FocusMode),
        exact_attribute_2("IrisMode"@) == Some(FixtureChannel3Attribute::IrisMode),
        exact_attribute_2("FollowSpotMode"@) == Some(FixtureChannel3Attribute::FollowSpotMode),
        exact_attribute_2("BeamEffectIndexRotateMode"@) == Some(FixtureChannel3Attribute::BeamEffectIndexRotateMode),
{
    reveal(exact_attribute_2);
    lemma_name_lengths_2();
    reveal_strlit("BeamShaperPosRotate");
    reveal_strlit("IrisRandomPulseOpen");
    assert("IrisRandomPulseOpen"@[0] != "BeamShaperPosRotate"@[0]);
    reveal_strlit("ZoomModeBeam");
    reveal_strlit("ZoomModeSpot");
    assert("ZoomModeSpot"@[8] != "ZoomModeBeam"@[8]);
    reveal_strlit("DigitalZoom");
    reveal_strlit("EffectsSync");
    assert("EffectsSync"@[0] != "DigitalZoom"@[0]);
    reveal_strlit("DimmerMode");
    reveal_strlit("BeamShaper");
    assert("BeamShaper"@[0] != "DimmerMode"@[0]);
    reveal_strlit("DimmerCurve");
    reveal_strlit("EffectsSync");
    assert("EffectsSync"@[0] != "DimmerCurve"@[0]);
    reveal_strlit("DimmerCurve");
    reveal_strlit("DigitalZoom");
    assert("DigitalZoom"@[2] != "DimmerCurve"@[2]);
    reveal_strlit("BlackoutMode");
    reveal_strlit("ZoomModeSpot");
    assert("ZoomModeSpot"@[0] != "BlackoutMode"@[0]);
    reveal_strlit("BlackoutMode");
    reveal_strlit("ZoomModeBeam");
    assert("ZoomModeBeam"@[0] != "BlackoutMode"@[0]);
    reveal_strlit("LEDFrequency");
    reveal_strlit("ZoomModeSpot");
    assert("ZoomModeSpot"@[0] != "LEDFrequency"@[0]);
    reveal_strlit("LEDFrequency");
    reveal_strlit("ZoomModeBeam");
    assert("ZoomModeBeam"@[0] != "LEDFrequency"@[0]);
    reveal_strlit("LEDFrequency");
    reveal_strlit("BlackoutMode");
    assert("BlackoutMode"@[0] != "LEDFrequency"@[0]);
    reveal_strlit("LEDZoneMode");
    reveal_strlit("EffectsSync");
    assert("EffectsSync"@[0] != "LEDZoneMode"@[0]);
    reveal_strlit("LEDZoneMode");
    reveal_strlit("DigitalZoom");
    assert("DigitalZoom"@[0] != "LEDZoneMode"@[0]);
    reveal_strlit("LEDZoneMode");
    reveal_strlit("DimmerCurve");
    assert("DimmerCurve"@[0] != "LEDZoneMode"@[0]);
    reveal_strlit("PanTiltMode");
    reveal_strlit("EffectsSync");
    assert("EffectsSync"@[0] != "PanTiltMode"@[0]);
    reveal_strlit("PanTiltMode");
    reveal_strlit("DigitalZoom");
    assert("DigitalZoom"@[0] != "PanTiltMode"@[0]);
    reveal_strlit("PanTiltMode");
    reveal_strlit("DimmerCurve");
    assert("DimmerCurve"@[0] != "PanTiltMode"@[0]);
    reveal_strlit("PanTiltMode");
    reveal_strlit("LEDZoneMode");
    assert("LEDZoneMode"@[0] != "PanTiltMode"@[0]);
    reveal_strlit("PositionModes");
    reveal_strlit("BeamShaperPos");
    assert("BeamShaperPos"@[0] != "PositionModes"@[0]);
    reveal_strlit("CyanMode");
    reveal_strlit("TiltMode");
    assert("TiltMode"@[0] != "CyanMode"@[0]);
    reveal_strlit("MagentaMode");
    reveal_strlit("EffectsSync");
    assert("EffectsSync"@[0] != "MagentaMode"@[0]);
    reveal_strlit("MagentaMode");
    reveal_strlit("DigitalZoom");
    assert("DigitalZoom"@[0] != "MagentaMode"@[0]);
    reveal_strlit("MagentaMode");
    reveal_strlit("DimmerCurve");
    assert("DimmerCurve"@[0] != "MagentaMode"@[0]);
    reveal_strlit("MagentaMode");
    reveal_strlit("LEDZoneMode");
    assert("LEDZoneMode"@[0] != "MagentaMode"@[0]);
    reveal_strlit("MagentaMode");
    reveal_strlit("PanTiltMode");
    assert("PanTiltMode"@[0] != "MagentaMode"@[0]);
    reveal_strlit("YellowMode");
    reveal_strlit("BeamShaper");
    assert("BeamShaper"@[0] != "YellowMode"@[0]);
    reveal_strlit("YellowMode");
    reveal_strlit("DimmerMode");
    assert("DimmerMode"@[0] != "YellowMode"@[0]);
    reveal_strlit("ColorMixMode");
    reveal_strlit("ZoomModeSpot");
    assert("ZoomModeSpot"@[0] != "ColorMixMode"@[0]);
    reveal_strlit("ColorMixMode");
    reveal_strlit("ZoomModeBeam");
    assert("ZoomModeBeam"@[0] != "ColorMixMode"@[0]);
    reveal_strlit("ColorMixMode");
    reveal_strlit("BlackoutMode");
    assert("BlackoutMode"@[0] != "ColorMixMode"@[0]);
    reveal_strlit("ColorMixMode");
    reveal_strlit("LEDFrequency");
    assert("LEDFrequency"@[0] != "ColorMixMode"@[0]);
    reveal_strlit("ChromaticMode");
    reveal_strlit("BeamShaperPos");
    assert("BeamShaperPos"@[0] != "ChromaticMode"@[0]);
    reveal_strlit("ChromaticMode");
    reveal_strlit("PositionModes");
    assert("PositionModes"@[0] != "ChromaticMode"@[0]);
    reveal_strlit("ColorCalibrationMode");
    reveal_strlit("IrisRandomPulseClose");
    assert("IrisRandomPulseClose"@[0] != "ColorCalibrationMode"@[0]);
    reveal_strlit("ColorControl");
    reveal_strlit("ZoomModeSpot");
    assert("ZoomModeSpot"@[0] != "ColorControl"@[0]);
    reveal_strlit("ColorControl");
    reveal_strlit("ZoomModeBeam");
    assert("ZoomModeBeam"@[0] != "ColorControl"@[0]);
    reveal_strlit("ColorControl");
    reveal_strlit("BlackoutMode");
    assert("BlackoutMode"@[0] != "ColorControl"@[0]);
    reveal_strlit("ColorControl");
    reveal_strlit("LEDFrequency");
    assert("LEDFrequency"@[0] != "ColorControl"@[0]);
    reveal_strlit("ColorControl");
    reveal_strlit("ColorMixMode");
    assert("ColorMixMode"@[5] != "ColorControl"@[5]);
    reveal_strlit("ColorUniformity");
    reveal_strlit("BeamShaperMacro");
    assert("BeamShaperMacro"@[0] != "ColorUniformity"@[0]);
    reveal_strlit("CRIMode");
    reveal_strlit("PanMode");
    assert("PanMode"@[0] != "CRIMode"@[0]);
    reveal_strlit("CustomColor");
    reveal_strlit("EffectsSync");
    assert("EffectsSync"@[0] != "CustomColor"@[0]);
    reveal_strlit("CustomColor");
    reveal_strlit("DigitalZoom");
    assert("DigitalZoom"@[0] != "CustomColor"@[0]);
    reveal_strlit("CustomColor");
    reveal_strlit("DimmerCurve");
    assert("DimmerCurve"@[0] != "CustomColor"@[0]);
    reveal_strlit("CustomColor");
    reveal_strlit("LEDZoneMode");
    assert("LEDZoneMode"@[0] != "CustomColor"@[0]);
    reveal_strlit("CustomColor");
    reveal_strlit("PanTiltMode");
    assert("PanTiltMode"@[0] != "CustomColor"@[0]);
    reveal_strlit("CustomColor");
    reveal_strlit("MagentaMode");
    assert("MagentaMode"@[0] != "CustomColor"@[0]);
    reveal_strlit("UVStability");
    reveal_strlit("EffectsSync");
    assert("EffectsSync"@[0] != "UVStability"@[0]);
    reveal_strlit("UVStability");
    reveal_strlit("DigitalZoom");
    assert("DigitalZoom"@[0] != "UVStability"@[0]);
    reveal_strlit("UVStability");
    reveal_strlit("DimmerCurve");
    assert("DimmerCurve"@[0] != "UVStability"@[0]);
    reveal_strlit("UVStability");
    reveal_strlit("LEDZoneMode");
    assert("LEDZoneMode"@[0] != "UVStability"@[0]);
    reveal_strlit("UVStability");
    reveal_strlit("PanTiltMode");
    assert("PanTiltMode"@[0] != "UVStability"@[0]);
    reveal_strlit("UVStability");
    reveal_strlit("MagentaMode");
    assert("MagentaMode"@[0] != "UVStability"@[0]);
    reveal_strlit("UVStability");
    reveal_strlit("CustomColor");
    assert("CustomColor"@[0] != "UVStability"@[0]);
    reveal_strlit("WavelengthCorrection");
    reveal_strlit("IrisRandomPulseClose");
    assert("IrisRandomPulseClose"@[0] != "WavelengthCorrection"@[0]);
    reveal_strlit("WavelengthCorrection");
    reveal_strlit("ColorCalibrationMode");
    assert("ColorCalibrationMode"@[0] != "WavelengthCorrection"@[0]);
    reveal_strlit("WhiteCount");
    reveal_strlit("BeamShaper");
    assert("BeamShaper"@[0] != "WhiteCount"@[0]);
    reveal_strlit("WhiteCount");
    reveal_strlit("DimmerMode");
    assert("DimmerMode"@[0] != "WhiteCount"@[0]);
    reveal_strlit("WhiteCount");
    reveal_strlit("YellowMode");
    assert("YellowMode"@[0] != "WhiteCount"@[0]);
    reveal_strlit("StrobeMode");
    reveal_strlit("BeamShaper");
    assert("BeamShaper"@[0] != "StrobeMode"@[0]);
    reveal_strlit("StrobeMode");
    reveal_strlit("DimmerMode");
    assert("DimmerMode"@[0] != "StrobeMode"@[0]);
    reveal_strlit("StrobeMode");
    reveal_strlit("YellowMode");
    assert("YellowMode"@[0] != "StrobeMode"@[0]);
    reveal_strlit("StrobeMode");
    reveal_strlit("WhiteCount");
    assert("WhiteCount"@[0] != "StrobeMode"@[0]);
    reveal_strlit("ZoomMode");
    reveal_strlit("TiltMode");
    assert("TiltMode"@[0] != "ZoomMode"@[0]);
    reveal_strlit("ZoomMode");
    reveal_strlit("CyanMode");
    assert("CyanMode"@[0] != "ZoomMode"@[0]);
    reveal_strlit("FocusMode");
    reveal_strlit("PixelMode");
    assert("PixelMode"@[0] != "FocusMode"@[0]);
    reveal_strlit("IrisMode");
    reveal_strlit("TiltMode");
    assert("TiltMode"@[0] != "IrisMode"@[0]);
    reveal_strlit("IrisMode");
    reveal_strlit("CyanMode");
    assert("CyanMode"@[0] != "IrisMode"@[0]);
    reveal_strlit("IrisMode");
    reveal_strlit("ZoomMode");
    assert("ZoomMode"@[0] != "IrisMode"@[0]);
    reveal_strlit("FollowSpotMode");
    reveal_strlit("ColorModelMode");
    assert("ColorModelMode"@[0] != "FollowSpotMode"@[0]);
}

/// No name of part 2 of the name table occurs in part 0.
proof fn lemma_names_2_not_in_0()
    ensures
        exact_attribute_0("IrisRandomPulseClose"@) is None,
        exact_attribute_0("IrisRandomPulseOpen"@) is None,
        exact_attribute_0("EffectsSync"@) is None,
        exact_attribute_0("BeamShaper"@) is None,
        exact_attribute_0("BeamShaperMacro"@) is None,
        exact_attribute_0("BeamShaperPos"@) is None,
        exact_attribute_0("BeamShaperPosRotate"@) is None,
        exact_attribute_0("Zoom"@) is None,
        exact_attribute_0("ZoomModeSpot"@) is None,
        exact_attribute_0("ZoomModeBeam"@) is None,
        exact_attribute_0("DigitalZoom"@) is None,
        exact_attribute_0("DimmerMode"@) is None,
        exact_attribute_0("DimmerCurve"@) is None,
        exact_attribute_0("BlackoutMode"@) is None,
        exact_attribute_0("LEDFrequency"@) is None,
        exact_attribute_0("LEDZoneMode"@) is None,
        exact_attribute_0("PixelMode"@) is None,
        exact_attribute_0("PanMode"@) is None,
        exact_attribute_0("TiltMode"@) is None,
        exact_attribute_0("PanTiltMode"@) is None,
        exact_attribute_0("PositionModes"@) is None,
        exact_attribute_0("GoboWheelShortcutMode"@) is None,
        exact_attribute_0("AnimationWheelShortcutMode"@) is None,
        exact_attribute_0("ColorWheelShortcutMode"@) is None,
        exact_attribute_0("CyanMode"@) is None,
        exact_attribute_0("MagentaMode"@) is None,
        exact_attribute_0("YellowMode"@) is None,
        exact_attribute_0("ColorMixMode"@) is None,
        exact_attribute_0("ChromaticMode"@) is None,
        exact_attribute_0("ColorCalibrationMode"@) is None,
        exact_attribute_0("ColorConsistency"@) is None,
        exact_attribute_0("ColorControl"@) is None,
        exact_attribute_0("ColorModelMode"@) is None,
        exact_attribute_0("ColorSettingsReset"@) is None,
        exact_attribute_0("ColorUniformity"@) is None,
        exact_attribute_0("CRIMode"@) is None,
        exact_attribute_0("CustomColor"@) is None,
        exact_attribute_0("UVStability"@) is None,
        exact_attribute_0("WavelengthCorrection"@) is None,
        exact_attribute_0("WhiteCount"@) is None,
        exact_attribute_0("StrobeMode"@) is None,
        exact_attribute_0("ZoomMode"@) is None,
        exact_attribute_0("FocusMode"@) is None,
        exact_attribute_0("IrisMode"@) is None,
        exact_attribute_0("FollowSpotMode"@) is None,
        exact_attribute_0("BeamEffectIndexRotateMode"@) is None,
{
    reveal(exact_attribute_0);
    lemma_name_lengths_0();
    lemma_name_lengths_2();
    reveal_strlit("EffectsSync");
    reveal_strlit("ColorAdd_RY");
    assert("ColorAdd_RY"@[0] != "EffectsSync"@[0]);
    reveal_strlit("EffectsSync");
    reveal_strlit("ColorAdd_GY");
    assert("ColorAdd_GY"@[0] != "EffectsSync"@[0]);
    reveal_strlit("EffectsSync");
    reveal_strlit("ColorAdd_GC");
    assert("ColorAdd_GC"@[0] != "EffectsSync"@[0]);
    reveal_strlit("EffectsSync");
    reveal_strlit("ColorAdd_BC");
    assert("ColorAdd_BC"@[0] != "EffectsSync"@[0]);
    reveal_strlit("EffectsSync");
    reveal_strlit("ColorAdd_BM");
    assert("ColorAdd_BM"@[0] != "EffectsSync"@[0]);
    reveal_strlit("EffectsSync");
    reveal_strlit("ColorAdd_RM");
    assert("ColorAdd_RM"@[0] != "EffectsSync"@[0]);
    reveal_strlit("EffectsSync");
    reveal_strlit("ColorAdd_WW");
    assert("ColorAdd_WW"@[0] != "EffectsSync"@[0]);
    reveal_strlit("EffectsSync");
    reveal_strlit("ColorAdd_CW");
    assert("ColorAdd_CW"@[0] != "EffectsSync"@[0]);
    reveal_strlit("EffectsSync");
    reveal_strlit("ColorAdd_UV");
    assert("ColorAdd_UV"@[0] != "EffectsSync"@[0]);
    reveal_strlit("BeamShaper");
    reveal_strlit("TiltRotate");
    assert("TiltRotate"@[0] != "BeamShaper"@[0]);
    reveal_strlit("BeamShaper");
    reveal_strlit("ColorAdd_R");
    assert("ColorAdd_R"@[0] != "BeamShaper"@[0]);
    reveal_strlit("BeamShaper");
    reveal_strlit("ColorAdd_G");
    assert("ColorAdd_G"@[0] != "BeamShaper"@[0]);
    reveal_strlit("BeamShaper");
    reveal_strlit("ColorAdd_B");
    assert("ColorAdd_B"@[0] != "BeamShaper"@[0]);
    reveal_strlit("BeamShaper");
    reveal_strlit("ColorAdd_C");
    assert("ColorAdd_C"@[0] != "BeamShaper"@[0]);
    reveal_strlit("BeamShaper");
    reveal_strlit("ColorAdd_M");
    assert("ColorAdd_M"@[0] != "BeamShaper"@[0]);
    reveal_strlit("BeamShaper");
    reveal_strlit("ColorAdd_Y");
    assert("ColorAdd_Y"@[0] != "BeamShaper"@[0]);
    reveal_strlit("BeamShaper");
    reveal_strlit("ColorAdd_W");
    assert("ColorAdd_W"@[0] != "BeamShaper"@[0]);
    reveal_strlit("BeamShaper");
    reveal_strlit("ColorSub_R");
    assert("ColorSub_R"@[0] != "BeamShaper"@[0]);
    reveal_strlit("BeamShaper");
    reveal_strlit("ColorSub_G");
    assert("ColorSub_G"@[0] != "BeamShaper"@[0]);
    reveal_strlit("BeamShaper");
    reveal_strlit("ColorSub_B");
    assert("ColorSub_B"@[0] != "BeamShaper"@[0]);
    reveal_strlit("BeamShaper");
    reveal_strlit("ColorSub_C");
    assert("ColorSub_C"@[0] != "BeamShaper"@[0]);
    reveal_strlit("BeamShaper");
    reveal_strlit("ColorSub_M");
    assert("ColorSub_M"@[0] != "BeamShaper"@[0]);
    reveal_strlit("BeamShaper");
    reveal_strlit("ColorSub_Y");
    assert("ColorSub_Y"@[0] != "BeamShaper"@[0]);
    reveal_strlit("Zoom");
    reveal_strlit("Tilt");
    assert("Tilt"@[0] != "Zoom"@[0]);
    reveal_strlit("DigitalZoom");
    reveal_strlit("ColorAdd_RY");
    assert("ColorAdd_RY"@[0] != "DigitalZoom"@[0]);
    reveal_strlit("DigitalZoom");
    reveal_strlit("ColorAdd_GY");
    assert("ColorAdd_GY"@[0] != "DigitalZoom"@[0]);
    reveal_strlit("DigitalZoom");
    reveal_strlit("ColorAdd_GC");
    assert("ColorAdd_GC"@[0] != "DigitalZoom"@[0]);
    reveal_strlit("DigitalZoom");
    reveal_strlit("ColorAdd_BC");
    assert("ColorAdd_BC"@[0] != "DigitalZoom"@[0]);
    reveal_strlit("DigitalZoom");
    reveal_strlit("ColorAdd_BM");
    assert("ColorAdd_BM"@[0] != "DigitalZoom"@[0]);
    reveal_strlit("DigitalZoom");
    reveal_strlit("ColorAdd_RM");
    assert("ColorAdd_RM"@[0] != "DigitalZoom"@[0]);
    reveal_strlit("DigitalZoom");
    reveal_strlit("ColorAdd_WW");
    assert("ColorAdd_WW"@[0] != "DigitalZoom"@[0]);
    reveal_strlit("DigitalZoom");
    reveal_strlit("ColorAdd_CW");
    assert("ColorAdd_CW"@[0] != "DigitalZoom"@[0]);
    reveal_strlit("DigitalZoom");
    reveal_strlit("ColorAdd_UV");
    assert("ColorAdd_UV"@[0] != "DigitalZoom"@[0]);
    reveal_strlit("DimmerMode");
    reveal_strlit("TiltRotate");
    assert("TiltRotate"@[0] != "DimmerMode"@[0]);
    reveal_strlit("DimmerMode");
    reveal_strlit("ColorAdd_R");
    assert("ColorAdd_R"@[0] != "DimmerMode"@[0]);
    reveal_strlit("DimmerMode");
    reveal_strlit("ColorAdd_G");
    assert("ColorAdd_G"@[0] != "DimmerMode"@[0]);
    reveal_strlit("DimmerMode");
    reveal_strlit("ColorAdd_B");
    assert("ColorAdd_B"@[0] != "DimmerMode"@[0]);
    reveal_strlit("DimmerMode");
    reveal_strlit("ColorAdd_C");
    assert("ColorAdd_C"@[0] != "DimmerMode"@[0]);
    reveal_strlit("DimmerMode");
    reveal_strlit("ColorAdd_M");
    assert("ColorAdd_M"@[0] != "DimmerMode"@[0]);
    reveal_strlit("DimmerMode");
    reveal_strlit("ColorAdd_Y");
    assert("ColorAdd_Y"@[0] != "DimmerMode"@[0]);
    reveal_strlit("DimmerMode");
    reveal_strlit("ColorAdd_W");
    assert("ColorAdd_W"@[0] != "DimmerMode"@[0]);
    reveal_strlit("DimmerMode");
    reveal_strlit("ColorSub_R");
    assert("ColorSub_R"@[0] != "DimmerMode"@[0]);
    reveal_strlit("DimmerMode");
    reveal_strlit("ColorSub_G");
    assert("ColorSub_G"@[0] != "DimmerMode"@[0]);
    reveal_strlit("DimmerMode");
    reveal_strlit("ColorSub_B");
    assert("ColorSub_B"@[0] != "DimmerMode"@[0]);
    reveal_strlit("DimmerMode");
    reveal_strlit("ColorSub_C");
    assert("ColorSub_C"@[0] != "DimmerMode"@[0]);
    reveal_strlit("DimmerMode");
    reveal_strlit("ColorSub_M");
    assert("ColorSub_M"@[0] != "DimmerMode"@[0]);
    reveal_strlit("DimmerMode");
    reveal_strlit("ColorSub_Y");
    assert("ColorSub_Y"@[0] != "DimmerMode"@[0]);
    reveal_strlit("DimmerCurve");
    reveal_strlit("ColorAdd_RY");
    assert("ColorAdd_RY"@[0] != "DimmerCurve"@[0]);
    reveal_strlit("DimmerCurve");
    reveal_strlit("ColorAdd_GY");
    assert("ColorAdd_GY"@[0] != "DimmerCurve"@[0]);
    reveal_strlit("DimmerCurve");
    reveal_strlit("ColorAdd_GC");
    assert("ColorAdd_GC"@[0] != "DimmerCurve"@[0]);
    reveal_strlit("DimmerCurve");
    reveal_strlit("ColorAdd_BC");
    assert("ColorAdd_BC"@[0] != "DimmerCurve"@[0]);
    reveal_strlit("DimmerCurve");
    reveal_strlit("ColorAdd_BM");
    assert("ColorAdd_BM"@[0] != "DimmerCurve"@[0]);
    reveal_strlit("DimmerCurve");
    reveal_strlit("ColorAdd_RM");
    assert("ColorAdd_RM"@[0] != "DimmerCurve"@[0]);
    reveal_strlit("DimmerCurve");
    reveal_strlit("ColorAdd_WW");
    assert("ColorAdd_WW"@[0] != "DimmerCurve"@[0]);
    reveal_strlit("DimmerCurve");
    reveal_strlit("ColorAdd_CW");
    assert("ColorAdd_CW"@[0] != "DimmerCurve"@[0]);
    reveal_strlit("DimmerCurve");
    reveal_strlit("ColorAdd_UV");
    assert("ColorAdd_UV"@[0] != "DimmerCurve"@[0]);
    reveal_strlit("LEDZoneMode");
    reveal_strlit("ColorAdd_RY");
    assert("ColorAdd_RY"@[0] != "LEDZoneMode"@[0]);
    reveal_strlit("LEDZoneMode");
    reveal_strlit("ColorAdd_GY");
    assert("ColorAdd_GY"@[0] != "LEDZoneMode"@[0]);
    reveal_strlit("LEDZoneMode");
    reveal_strlit("ColorAdd_GC");
    assert("ColorAdd_GC"@[0] != "LEDZoneMode"@[0]);
    reveal_strlit("LEDZoneMode");
    reveal_strlit("ColorAdd_BC");
    assert("ColorAdd_BC"@[0] != "LEDZoneMode"@[0]);
    reveal_strlit("LEDZoneMode");
    reveal_strlit("ColorAdd_BM");
    assert("ColorAdd_BM"@[0] != "LEDZoneMode"@[0]);
    reveal_strlit("LEDZoneMode");
    reveal_strlit("ColorAdd_RM");
    assert("ColorAdd_RM"@[0] != "LEDZoneMode"@[0]);
    reveal_strlit("LEDZoneMode");
    reveal_strlit("ColorAdd_WW");
    assert("ColorAdd_WW"@[0] != "LEDZoneMode"@[0]);
    reveal_strlit("LEDZoneMode");
    reveal_strlit("ColorAdd_CW");
    assert("ColorAdd_CW"@[0] != "LEDZoneMode"@[0]);
    reveal_strlit("LEDZoneMode");
    reveal_strlit("ColorAdd_UV");
    assert("ColorAdd_UV"@[0] != "LEDZoneMode"@[0]);
    reveal_strlit("PixelMode");
    reveal_strlit("PanRotate");
    assert("PanRotate"@[1] != "PixelMode"@[1]);
    reveal_strlit("PixelMode");
    reveal_strlit("Scale_XYZ");
    assert("Scale_XYZ"@[0] != "PixelMode"@[0]);
    reveal_strlit("PixelMode");
    reveal_strlit("PlayBegin");
    assert("PlayBegin"@[1] != "PixelMode"@[1]);
    reveal_strlit("PixelMode");
    reveal_strlit("PlaySpeed");
    assert("PlaySpeed"@[1] != "PixelMode"@[1]);
    reveal_strlit("PanMode");
    reveal_strlit("Scale_X");
    assert("Scale_X"@[0] != "PanMode"@[0]);
    reveal_strlit("PanMode");
    reveal_strlit("Scale_Y");
    assert("Scale_Y"@[0] != "PanMode"@[0]);
    reveal_strlit("PanMode");
    reveal_strlit("Scale_Z");
    assert("Scale_Z"@[0] != "PanMode"@[0]);
    reveal_strlit("PanMode");
    reveal_strlit("PlayEnd");
    assert("PlayEnd"@[1] != "PanMode"@[1]);
    reveal_strlit("TiltMode");
    reveal_strlit("PlayMode");
    assert("PlayMode"@[0] != "TiltMode"@[0]);
    reveal_strlit("PanTiltMode");
    reveal_strlit("ColorAdd_RY");
    assert("ColorAdd_RY"@[0] != "PanTiltMode"@[0]);
    reveal_strlit("PanTiltMode");
    reveal_strlit("ColorAdd_GY");
    assert("ColorAdd_GY"@[0] != "PanTiltMode"@[0]);
    reveal_strlit("PanTiltMode");
    reveal_strlit("ColorAdd_GC");
    assert("ColorAdd_GC"@[0] != "PanTiltMode"@[0]);
    reveal_strlit("PanTiltMode");
    reveal_strlit("ColorAdd_BC");
    assert("ColorAdd_BC"@[0] != "PanTiltMode"@[0]);
    reveal_strlit("PanTiltMode");
    reveal_strlit("ColorAdd_BM");
    assert("ColorAdd_BM"@[0] != "PanTiltMode"@[0]);
    reveal_strlit("PanTiltMode");
    reveal_strlit("ColorAdd_RM");
    assert("ColorAdd_RM"@[0] != "PanTiltMode"@[0]);
    reveal_strlit("PanTiltMode");
    reveal_strlit("ColorAdd_WW");
    assert("ColorAdd_WW"@[0] != "PanTiltMode"@[0]);
    reveal_strlit("PanTiltMode");
    reveal_strlit("ColorAdd_CW");
    assert("ColorAdd_CW"@[0] != "PanTiltMode"@[0]);
    reveal_strlit("PanTiltMode");
    reveal_strlit("ColorAdd_UV");
    assert("ColorAdd_UV"@[0] != "PanTiltMode"@[0]);
    reveal_strlit("CyanMode");
    reveal_strlit("PlayMode");
    assert("PlayMode"@[0] != "CyanMode"@[0]);
    reveal_strlit("MagentaMode");
    reveal_strlit("ColorAdd_RY");
    assert("ColorAdd_RY"@[0] != "MagentaMode"@[0]);
    reveal_strlit("MagentaMode");
    reveal_strlit("ColorAdd_GY");
    assert("ColorAdd_GY"@[0] != "MagentaMode"@[0]);
    reveal_strlit("MagentaMode");
    reveal_strlit("ColorAdd_GC");
    assert("ColorAdd_GC"@[0] != "MagentaMode"@[0]);
    reveal_strlit("MagentaMode");
    reveal_strlit("ColorAdd_BC");
    assert("ColorAdd_BC"@[0] != "MagentaMode"@[0]);
    reveal_strlit("MagentaMode");
    reveal_strlit("ColorAdd_BM");
    assert("ColorAdd_BM"@[0] != "MagentaMode"@[0]);
    reveal_strlit("MagentaMode");
    reveal_strlit("ColorAdd_RM");
    assert("ColorAdd_RM"@[0] != "MagentaMode"@[0]);
    reveal_strlit("MagentaMode");
    reveal_strlit("ColorAdd_WW");
    assert("ColorAdd_WW"@[0] != "MagentaMode"@[0]);
    reveal_strlit("MagentaMode");
    reveal_strlit("ColorAdd_CW");
    assert("ColorAdd_CW"@[0] != "MagentaMode"@[0]);
    reveal_strlit("MagentaMode");
    reveal_strlit("ColorAdd_UV");
    assert("ColorAdd_UV"@[0] != "MagentaMode"@[0]);
    reveal_strlit("YellowMode");
    reveal_strlit("TiltRotate");
    assert("TiltRotate"@[0] != "YellowMode"@[0]);
    reveal_strlit("YellowMode");
    reveal_strlit("ColorAdd_R");
    assert("ColorAdd_R"@[0] != "YellowMode"@[0]);
    reveal_strlit("YellowMode");
    reveal_strlit("ColorAdd_G");
    assert("ColorAdd_G"@[0] != "YellowMode"@[0]);
    reveal_strlit("YellowMode");
    reveal_strlit("ColorAdd_B");
    assert("ColorAdd_B"@[0] != "YellowMode"@[0]);
    reveal_strlit("YellowMode");
    reveal_strlit("ColorAdd_C");
    assert("ColorAdd_C"@[0] != "YellowMode"@[0]);
    reveal_strlit("YellowMode");
    reveal_strlit("ColorAdd_M");
    assert("ColorAdd_M"@[0] != "YellowMode"@[0]);
    reveal_strlit("YellowMode");
    reveal_strlit("ColorAdd_Y");
    assert("ColorAdd_Y"@[0] != "YellowMode"@[0]);
    reveal_strlit("YellowMode");
    reveal_strlit("ColorAdd_W");
    assert("ColorAdd_W"@[0] != "YellowMode"@[0]);
    reveal_strlit("YellowMode");
    reveal_strlit("ColorSub_R");
    assert("ColorSub_R"@[0] != "YellowMode"@[0]);
    reveal_strlit("YellowMode");
    reveal_strlit("ColorSub_G");
    assert("ColorSub_G"@[0] != "YellowMode"@[0]);
    reveal_strlit("YellowMode");
    reveal_strlit("ColorSub_B");
    assert("ColorSub_B"@[0] != "YellowMode"@[0]);
    reveal_strlit("YellowMode");
    reveal_strlit("ColorSub_C");
    assert("ColorSub_C"@[0] != "YellowMode"@[0]);
    reveal_strlit("YellowMode");
    reveal_strlit("ColorSub_M");
    assert("ColorSub_M"@[0] != "YellowMode"@[0]);
    reveal_strlit("YellowMode");
    reveal_strlit("ColorSub_Y");
    assert("ColorSub_Y"@[0] != "YellowMode"@[0]);
    reveal_strlit("ColorModelMode");
    reveal_strlit("PositionEffect");
    assert("PositionEffect"@[0] != "ColorModelMode"@[0]);
    reveal_strlit("ColorSettingsReset");
    reveal_strlit("PositionEffectRate");
    assert("PositionEffectRate"@[0] != "ColorSettingsReset"@[0]);
    reveal_strlit("ColorSettingsReset");
    reveal_strlit("PositionEffectFade");
    assert("PositionEffectFade"@[0] != "ColorSettingsReset"@[0]);
    reveal_strlit("CRIMode");
    reveal_strlit("Scale_X");
    assert("Scale_X"@[0] != "CRIMode"@[0]);
    reveal_strlit("CRIMode");
    reveal_strlit("Scale_Y");
    assert("Scale_Y"@[0] != "CRIMode"@[0]);
    reveal_strlit("CRIMode");
    reveal_strlit("Scale_Z");
    assert("Scale_Z"@[0] != "CRIMode"@[0]);
    reveal_strlit("CRIMode");
    reveal_strlit("PlayEnd");
    assert("PlayEnd"@[0] != "CRIMode"@[0]);
    reveal_strlit("CustomColor");
    reveal_strlit("ColorAdd_RY");
    assert("ColorAdd_RY"@[1] != "CustomColor"@[1]);
    reveal_strlit("CustomColor");
    reveal_strlit("ColorAdd_GY");
    assert("ColorAdd_GY"@[1] != "CustomColor"@[1]);
    reveal_strlit("CustomColor");
    reveal_strlit("ColorAdd_GC");
    assert("ColorAdd_GC"@[1] != "CustomColor"@[1]);
    reveal_strlit("CustomColor");
    reveal_strlit("ColorAdd_BC");
    assert("ColorAdd_BC"@[1] != "CustomColor"@[1]);
    reveal_strlit("CustomColor");
    reveal_strlit("ColorAdd_BM");
    assert("ColorAdd_BM"@[1] != "CustomColor"@[1]);
    reveal_strlit("CustomColor");
    reveal_strlit("ColorAdd_RM");
    assert("ColorAdd_RM"@[1] != "CustomColor"@[1]);
    reveal_strlit("CustomColor");
    reveal_strlit("ColorAdd_WW");
    assert("ColorAdd_WW"@[1] != "CustomColor"@[1]);
    reveal_strlit("CustomColor");
    reveal_strlit("ColorAdd_CW");
    assert("ColorAdd_CW"@[1] != "CustomColor"@[1]);
    reveal_strlit("CustomColor");
    reveal_strlit("ColorAdd_UV");
    assert("ColorAdd_UV"@[1] != "CustomColor"@[1]);
    reveal_strlit("UVStability");
    reveal_strlit("ColorAdd_RY");
    assert("ColorAdd_RY"@[0] != "UVStability"@[0]);
    reveal_strlit("UVStability");
    reveal_strlit("ColorAdd_GY");
    assert("ColorAdd_GY"@[0] != "UVStability"@[0]);
    reveal_strlit("UVStability");
    reveal_strlit("ColorAdd_GC");
    assert("ColorAdd_GC"@[0] != "UVStability"@[0]);
    reveal_strlit("UVStability");
    reveal_strlit("ColorAdd_BC");
    assert("ColorAdd_BC"@[0] != "UVStability"@[0]);
    reveal_strlit("UVStability");
    reveal_strlit("ColorAdd_BM");
    assert("ColorAdd_BM"@[0] != "UVStability"@[0]);
    reveal_strlit("UVStability");
    reveal_strlit("ColorAdd_RM");
    assert("ColorAdd_RM"@[0] != "UVStability"@[0]);
    reveal_strlit("UVStability");
    reveal_strlit("ColorAdd_WW");
    assert("ColorAdd_WW"@[0] != "UVStability"@[0]);
    reveal_strlit("UVStability");
    reveal_strlit("ColorAdd_CW");
    assert("ColorAdd_CW"@[0] != "UVStability"@[0]);
    reveal_strlit("UVStability");
    reveal_strlit("ColorAdd_UV");
    assert("ColorAdd_UV"@[0] != "UVStability"@[0]);
    reveal_strlit("WhiteCount");
    reveal_strlit("TiltRotate");
    assert("TiltRotate"@[0] != "WhiteCount"@[0]);
    reveal_strlit("WhiteCount");
    reveal_strlit("ColorAdd_R");
    assert("ColorAdd_R"@[0] != "WhiteCount"@[0]);
    reveal_strlit("WhiteCount");
    reveal_strlit("ColorAdd_G");
    assert("ColorAdd_G"@[0] != "WhiteCount"@[0]);
    reveal_strlit("WhiteCount");
    reveal_strlit("ColorAdd_B");
    assert("ColorAdd_B"@[0] != "WhiteCount"@[0]);
    reveal_strlit("WhiteCount");
    reveal_strlit("ColorAdd_C");
    assert("ColorAdd_C"@[0] != "WhiteCount"@[0]);
    reveal_strlit("WhiteCount");
    reveal_strlit("ColorAdd_M");
    assert("ColorAdd_M"@[0] != "WhiteCount"@[0]);
    reveal_strlit("WhiteCount");
    reveal_strlit("ColorAdd_Y");
    assert("ColorAdd_Y"@[0] != "WhiteCount"@[0]);
    reveal_strlit("WhiteCount");
    reveal_strlit("ColorAdd_W");
    assert("ColorAdd_W"@[0] != "WhiteCount"@[0]);
    reveal_strlit("WhiteCount");
    reveal_strlit("ColorSub_R");
    assert("ColorSub_R"@[0] != "WhiteCount"@[0]);
    reveal_strlit("WhiteCount");
    reveal_strlit("ColorSub_G");
    assert("ColorSub_G"@[0] != "WhiteCount"@[0]);
    reveal_strlit("WhiteCount");
    reveal_strlit("ColorSub_B");
    assert("ColorSub_B"@[0] != "WhiteCount"@[0]);
    reveal_strlit("WhiteCount");
    reveal_strlit("ColorSub_C");
    assert("ColorSub_C"@[0] != "WhiteCount"@[0]);
    reveal_strlit("WhiteCount");
    reveal_strlit("ColorSub_M");
    assert("ColorSub_M"@[0] != "WhiteCount"@[0]);
    reveal_strlit("WhiteCount");
    reveal_strlit("ColorSub_Y");
    assert("ColorSub_Y"@[0] != "WhiteCount"@[0]);
    reveal_strlit("StrobeMode");
    reveal_strlit("TiltRotate");
    assert("TiltRotate"@[0] != "StrobeMode"@[0]);
    reveal_strlit("StrobeMode");
    reveal_strlit("ColorAdd_R");
    assert("ColorAdd_R"@[0] != "StrobeMode"@[0]);
    reveal_strlit("StrobeMode");
    reveal_strlit("ColorAdd_G");
    assert("ColorAdd_G"@[0] != "StrobeMode"@[0]);
    reveal_strlit("StrobeMode");
    reveal_strlit("ColorAdd_B");
    assert("ColorAdd_B"@[0] != "StrobeMode"@[0]);
    reveal_strlit("StrobeMode");
    reveal_strlit("ColorAdd_C");
    assert("ColorAdd_C"@[0] != "StrobeMode"@[0]);
    reveal_strlit("StrobeMode");
    reveal_strlit("ColorAdd_M");
    assert("ColorAdd_M"@[0] != "StrobeMode"@[0]);
    reveal_strlit("StrobeMode");
    reveal_strlit("ColorAdd_Y");
    assert("ColorAdd_Y"@[0] != "StrobeMode"@[0]);
    reveal_strlit("StrobeMode");
    reveal_strlit("ColorAdd_W");
    assert("ColorAdd_W"@[0] != "StrobeMode"@[0]);
    reveal_strlit("StrobeMode");
    reveal_strlit("ColorSub_R");
    assert("ColorSub_R"@[0] != "StrobeMode"@[0]);
    reveal_strlit("StrobeMode");
    reveal_strlit("ColorSub_G");
    assert("ColorSub_G"@[0] != "StrobeMode"@[0]);
    reveal_strlit("StrobeMode");
    reveal_strlit("ColorSub_B");
    assert("ColorSub_B"@[0] != "StrobeMode"@[0]);
    reveal_strlit("StrobeMode");
    reveal_strlit("ColorSub_C");
    assert("ColorSub_C"@[0] != "StrobeMode"@[0]);
    reveal_strlit("StrobeMode");
    reveal_strlit("ColorSub_M");
    assert("ColorSub_M"@[0] != "StrobeMode"@[0]);
    reveal_strlit("StrobeMode");
    reveal_strlit("ColorSub_Y");
    assert("ColorSub_Y"@[0] != "StrobeMode"@[0]);
    reveal_strlit("ZoomMode");
    reveal_strlit("PlayMode");
    assert("PlayMode"@[0] != "ZoomMode"@[0]);
    reveal_strlit("FocusMode");
    reveal_strlit("PanRotate");
    assert("PanRotate"@[0] != "FocusMode"@[0]);
    reveal_strlit("FocusMode");
    reveal_strlit("Scale_XYZ");
    assert("Scale_XYZ"@[0] != "FocusMode"@[0]);
    reveal_strlit("FocusMode");
    reveal_strlit("PlayBegin");
    assert("PlayBegin"@[0] != "FocusMode"@[0]);
    reveal_strlit("FocusMode");
    reveal_strlit("PlaySpeed");
    assert("PlaySpeed"@[0] != "FocusMode"@[0]);
    reveal_strlit("IrisMode");
    reveal_strlit("PlayMode");
    assert("PlayMode"@[0] != "IrisMode"@[0]);
    reveal_strlit("FollowSpotMode");
    reveal_strlit("PositionEffect");
    assert("PositionEffect"@[0] != "FollowSpotMode"@[0]);
}

/// No name of part 2 of the name table occurs in part 1.
proof fn lemma_names_2_not_in_1()
    ensures
        exact_attribute_1("IrisRandomPulseClose"@) is None,
        exact_attribute_1("IrisRandomPulseOpen"@) is None,
        exact_attribute_1("EffectsSync"@) is None,
        exact_attribute_1("BeamShaper"@) is None,
        exact_attribute_1("BeamShaperMacro"@) is None,
        exact_attribute_1("BeamShaperPos"@) is None,
        exact_attribute_1("BeamShaperPosRotate"@) is None,
        exact_attribute_1("Zoom"@) is None,
        exact_attribute_1("ZoomModeSpot"@) is None,
        exact_attribute_1("ZoomModeBeam"@) is None,
        exact_attribute_1("DigitalZoom"@) is None,
        exact_attribute_1("DimmerMode"@) is None,
        exact_attribute_1("DimmerCurve"@) is None,
        exact_attribute_1("BlackoutMode"@) is None,
        exact_attribute_1("LEDFrequency"@) is None,
        exact_attribute_1("LEDZoneMode"@) is None,
        exact_attribute_1("PixelMode"@) is None,
        exact_attribute_1("PanMode"@) is None,
        exact_attribute_1("TiltMode"@) is None,
        exact_attribute_1("PanTiltMode"@) is None,
        exact_attribute_1("PositionModes"@) is None,
        exact_attribute_1("GoboWheelShortcutMode"@) is None,
        exact_attribute_1("AnimationWheelShortcutMode"@) is None,
        exact_attribute_1("ColorWheelShortcutMode"@) is None,
        exact_attribute_1("CyanMode"@) is None,
        exact_attribute_1("MagentaMode"@) is None,
        exact_attribute_1("YellowMode"@) is None,
        exact_attribute_1("ColorMixMode"@) is None,
        exact_attribute_1("ChromaticMode"@) is None,
        exact_attribute_1("ColorCalibrationMode"@) is None,
        exact_attribute_1("ColorConsistency"@) is None,
        exact_attribute_1("ColorControl"@) is None,
        exact_attribute_1("ColorModelMode"@) is None,
        exact_attribute_1("ColorSettingsReset"@) is None,
        exact_attribute_1("ColorUniformity"@) is None,
        exact_attribute_1("CRIMode"@) is None,
        exact_attribute_1("CustomColor"@) is None,
        exact_attribute_1("UVStability"@) is None,
        exact_attribute_1("WavelengthCorrection"@) is None,
        exact_attribute_1("WhiteCount"@) is None,
        exact_attribute_1("StrobeMode"@) is None,
        exact_attribute_1("ZoomMode"@) is None,
        exact_attribute_1("FocusMode"@) is None,
        exact_attribute_1("IrisMode"@) is None,
        exact_attribute_1("FollowSpotMode"@) is None,
        exact_attribute_1("BeamEffectIndexRotateMode"@) is None,
{
    reveal(exact_attribute_1);
    lemma_name_lengths_1();
    lemma_name_lengths_2();
    reveal_strlit("IrisRandomPulseClose");
    reveal_strlit("StrobeModePulseClose");
    assert("StrobeModePulseClose"@[0] != "IrisRandomPulseClose"@[0]);
    reveal_strlit("IrisRandomPulseOpen");
    reveal_strlit("StrobeModePulseOpen");
    assert("StrobeModePulseOpen"@[0] != "IrisRandomPulseOpen"@[0]);
    reveal_strlit("EffectsSync");
    reveal_strlit("HSB_Quality");
    assert("HSB_Quality"@[0] != "EffectsSync"@[0]);
    reveal_strlit("BeamShaper");
    reveal_strlit("StrobeRate");
    assert("StrobeRate"@[0] != "BeamShaper"@[0]);
    reveal_strlit("BeamShaper");
    reveal_strlit("IrisStrobe");
    assert("IrisStrobe"@[0] != "BeamShaper"@[0]);
    reveal_strlit("BeamShaperMacro");
    reveal_strlit("ColorRGB_Yellow");
    assert("ColorRGB_Yellow"@[0] != "BeamShaperMacro"@[0]);
    reveal_strlit("BeamShaperMacro");
    reveal_strlit("VideoSaturation");
    assert("VideoSaturation"@[0] != "BeamShaperMacro"@[0]);
    reveal_strlit("BeamShaperMacro");
    reveal_strlit("VideoBrightness");
    assert("VideoBrightness"@[0] != "BeamShaperMacro"@[0]);
    reveal_strlit("BeamShaperMacro");
    reveal_strlit("VideoKeyColor_R");
    assert("VideoKeyColor_R"@[0] != "BeamShaperMacro"@[0]);
    reveal_strlit("BeamShaperMacro");
    reveal_strlit("VideoKeyColor_G");
    assert("VideoKeyColor_G"@[0] != "BeamShaperMacro"@[0]);
    reveal_strlit("BeamShaperMacro");
    reveal_strlit("VideoKeyColor_B");
    assert("VideoKeyColor_B"@[0] != "BeamShaperMacro"@[0]);
    reveal_strlit("BeamShaperMacro");
    reveal_strlit("StrobeFrequency");
    assert("StrobeFrequency"@[0] != "BeamShaperMacro"@[0]);
    reveal_strlit("BeamShaperMacro");
    reveal_strlit("StrobeModePulse");
    assert("StrobeModePulse"@[0] != "BeamShaperMacro"@[0]);
    reveal_strlit("BeamShaperPos");
    reveal_strlit("ColorRGB_Blue");
    assert("ColorRGB_Blue"@[0] != "BeamShaperPos"@[0]);
    reveal_strlit("BeamShaperPos");
    reveal_strlit("ColorRGB_Cyan");
    assert("ColorRGB_Cyan"@[0] != "BeamShaperPos"@[0]);
    reveal_strlit("BeamShaperPos");
    reveal_strlit("VideoHueShift");
    assert("VideoHueShift"@[0] != "BeamShaperPos"@[0]);
    reveal_strlit("BeamShaperPos");
    reveal_strlit("VideoContrast");
    assert("VideoContrast"@[0] != "BeamShaperPos"@[0]);
    reveal_strlit("BeamShaperPos");
    reveal_strlit("IrisPulseOpen");
    assert("IrisPulseOpen"@[0] != "BeamShaperPos"@[0]);
    reveal_strlit("BeamShaperPosRotate");
    reveal_strlit("StrobeModePulseOpen");
    assert("StrobeModePulseOpen"@[0] != "BeamShaperPosRotate"@[0]);
    reveal_strlit("Zoom");
    reveal_strlit("Tint");
    assert("Tint"@[0] != "Zoom"@[0]);
    reveal_strlit("Zoom");
    reveal_strlit("Iris");
    assert("Iris"@[0] != "Zoom"@[0]);
    reveal_strlit("ZoomModeSpot");
    reveal_strlit("ColorRGB_Red");
    assert("ColorRGB_Red"@[0] != "ZoomModeSpot"@[0]);
    reveal_strlit("ZoomModeSpot");
    reveal_strlit("VideoBoost_R");
    assert("VideoBoost_R"@[0] != "ZoomModeSpot"@[0]);
    reveal_strlit("ZoomModeSpot");
    reveal_strlit("VideoBoost_G");
    assert("VideoBoost_G"@[0] != "ZoomModeSpot"@[0]);
    reveal_strlit("ZoomModeSpot");
    reveal_strlit("VideoBoost_B");
    assert("VideoBoost_B"@[0] != "ZoomModeSpot"@[0]);
    reveal_strlit("ZoomModeBeam");
    reveal_strlit("ColorRGB_Red");
    assert("ColorRGB_Red"@[0] != "ZoomModeBeam"@[0]);
    reveal_strlit("ZoomModeBeam");
    reveal_strlit("VideoBoost_R");
    assert("VideoBoost_R"@[0] != "ZoomModeBeam"@[0]);
    reveal_strlit("ZoomModeBeam");
    reveal_strlit("VideoBoost_G");
    assert("VideoBoost_G"@[0] != "ZoomModeBeam"@[0]);
    reveal_strlit("ZoomModeBeam");
    reveal_strlit("VideoBoost_B");
    assert("VideoBoost_B"@[0] != "ZoomModeBeam"@[0]);
    reveal_strlit("DigitalZoom");
    reveal_strlit("HSB_Quality");
    assert("HSB_Quality"@[0] != "DigitalZoom"@[0]);
    reveal_strlit("DimmerMode");
    reveal_strlit("StrobeRate");
    assert("StrobeRate"@[0] != "DimmerMode"@[0]);
    reveal_strlit("DimmerMode");
    reveal_strlit("IrisStrobe");
    assert("IrisStrobe"@[0] != "DimmerMode"@[0]);
    reveal_strlit("DimmerCurve");
    reveal_strlit("HSB_Quality");
    assert("HSB_Quality"@[0] != "DimmerCurve"@[0]);
    reveal_strlit("BlackoutMode");
    reveal_strlit("ColorRGB_Red");
    assert("ColorRGB_Red"@[0] != "BlackoutMode"@[0]);
    reveal_strlit("BlackoutMode");
    reveal_strlit("VideoBoost_R");
    assert("VideoBoost_R"@[0] != "BlackoutMode"@[0]);
    reveal_strlit("BlackoutMode");
    reveal_strlit("VideoBoost_G");
    assert("VideoBoost_G"@[0] != "BlackoutMode"@[0]);
    reveal_strlit("BlackoutMode");
    reveal_strlit("VideoBoost_B");
    assert("VideoBoost_B"@[0] != "BlackoutMode"@[0]);
    reveal_strlit("LEDFrequency");
    reveal_strlit("ColorRGB_Red");
    assert("ColorRGB_Red"@[0] != "LEDFrequency"@[0]);
    reveal_strlit("LEDFrequency");
    reveal_strlit("VideoBoost_R");
    assert("VideoBoost_R"@[0] != "LEDFrequency"@[0]);
    reveal_strlit("LEDFrequency");
    reveal_strlit("VideoBoost_G");
    assert("VideoBoost_G"@[0] != "LEDFrequency"@[0]);
    reveal_strlit("LEDFrequency");
    reveal_strlit("VideoBoost_B");
    assert("VideoBoost_B"@[0] != "LEDFrequency"@[0]);
    reveal_strlit("LEDZoneMode");
    reveal_strlit("HSB_Quality");
    assert("HSB_Quality"@[0] != "LEDZoneMode"@[0]);
    reveal_strlit("PanMode");
    reveal_strlit("HSB_Hue");
    assert("HSB_Hue"@[0] != "PanMode"@[0]);
    reveal_strlit("PanTiltMode");
    reveal_strlit("HSB_Quality");
    assert("HSB_Quality"@[0] != "PanTiltMode"@[0]);
    reveal_strlit("PositionModes");
    reveal_strlit("ColorRGB_Blue");
    assert("ColorRGB_Blue"@[0] != "PositionModes"@[0]);
    reveal_strlit("PositionModes");
    reveal_strlit("ColorRGB_Cyan");
    assert("ColorRGB_Cyan"@[0] != "PositionModes"@[0]);
    reveal_strlit("PositionModes");
    reveal_strlit("VideoHueShift");
    assert("VideoHueShift"@[0] != "PositionModes"@[0]);
    reveal_strlit("PositionModes");
    reveal_strlit("VideoContrast");
    assert("VideoContrast"@[0] != "PositionModes"@[0]);
    reveal_strlit("PositionModes");
    reveal_strlit("IrisPulseOpen");
    assert("IrisPulseOpen"@[0] != "PositionModes"@[0]);
    reveal_strlit("GoboWheelShortcutMode");
    reveal_strlit("StrobeModeRandomPulse");
    assert("StrobeModeRandomPulse"@[0] != "GoboWheelShortcutMode"@[0]);
    reveal_strlit("AnimationWheelShortcutMode");
    reveal_strlit("StrobeModeRandomPulseClose");
    assert("StrobeModeRandomPulseClose"@[0] != "AnimationWheelShortcutMode"@[0]);
    reveal_strlit("MagentaMode");
    reveal_strlit("HSB_Quality");
    assert("HSB_Quality"@[0] != "MagentaMode"@[0]);
    reveal_strlit("YellowMode");
    reveal_strlit("StrobeRate");
    assert("StrobeRate"@[0] != "YellowMode"@[0]);
    reveal_strlit("YellowMode");
    reveal_strlit("IrisStrobe");
    assert("IrisStrobe"@[0] != "YellowMode"@[0]);
    reveal_strlit("ColorMixMode");
    reveal_strlit("ColorRGB_Red");
    assert("ColorRGB_Red"@[5] != "ColorMixMode"@[5]);
    reveal_strlit("ColorMixMode");
    reveal_strlit("VideoBoost_R");
    assert("VideoBoost_R"@[0] != "ColorMixMode"@[0]);
    reveal_strlit("ColorMixMode");
    reveal_strlit("VideoBoost_G");
    assert("VideoBoost_G"@[0] != "ColorMixMode"@[0]);
    reveal_strlit("ColorMixMode");
    reveal_strlit("VideoBoost_B");
    assert("VideoBoost_B"@[0] != "ColorMixMode"@[0]);
    reveal_strlit("ChromaticMode");
    reveal_strlit("ColorRGB_Blue");
    assert("ColorRGB_Blue"@[1] != "ChromaticMode"@[1]);
    reveal_strlit("ChromaticMode");
    reveal_strlit("ColorRGB_Cyan");
    assert("ColorRGB_Cyan"@[1] != "ChromaticMode"@[1]);
    reveal_strlit("ChromaticMode");
    reveal_strlit("VideoHueShift");
    assert("VideoHueShift"@[0] != "ChromaticMode"@[0]);
    reveal_strlit("ChromaticMode");
    reveal_strlit("VideoContrast");
    assert("VideoContrast"@[0] != "ChromaticMode"@[0]);
    reveal_strlit("ChromaticMode");
    reveal_strlit("IrisPulseOpen");
    assert("IrisPulseOpen"@[0] != "ChromaticMode"@[0]);
    reveal_strlit("ColorCalibrationMode");
    reveal_strlit("StrobeModePulseClose");
    assert("StrobeModePulseClose"@[0] != "ColorCalibrationMode"@[0]);
    reveal_strlit("ColorConsistency");
    reveal_strlit("ColorRGB_Magenta");
    assert("ColorRGB_Magenta"@[5] != "ColorConsistency"@[5]);
    reveal_strlit("ColorConsistency");
    reveal_strlit("ColorRGB_Quality");
    assert("ColorRGB_Quality"@[5] != "ColorConsistency"@[5]);
    reveal_strlit("ColorConsistency");
    reveal_strlit("StrobeModeStrobe");
    assert("StrobeModeStrobe"@[0] != "ColorConsistency"@[0]);
    reveal_strlit("ColorConsistency");
    reveal_strlit("StrobeModeRandom");
    assert("StrobeModeRandom"@[0] != "ColorConsistency"@[0]);
    reveal_strlit("ColorConsistency");
    reveal_strlit("StrobeModeEffect");
    assert("StrobeModeEffect"@[0] != "ColorConsistency"@[0]);
    reveal_strlit("ColorConsistency");
    reveal_strlit("IrisStrobeRandom");
    assert("IrisStrobeRandom"@[0] != "ColorConsistency"@[0]);
    reveal_strlit("ColorControl");
    reveal_strlit("ColorRGB_Red");
    assert("ColorRGB_Red"@[5] != "ColorControl"@[5]);
    reveal_strlit("ColorControl");
    reveal_strlit("VideoBoost_R");
    assert("VideoBoost_R"@[0] != "ColorControl"@[0]);
    reveal_strlit("ColorControl");
    reveal_strlit("VideoBoost_G");
    assert("VideoBoost_G"@[0] != "ColorControl"@[0]);
    reveal_strlit("ColorControl");
    reveal_strlit("VideoBoost_B");
    assert("VideoBoost_B"@[0] != "ColorControl"@[0]);
    reveal_strlit("ColorModelMode");
    reveal_strlit("HSB_Saturation");
    assert("HSB_Saturation"@[0] != "ColorModelMode"@[0]);
    reveal_strlit("ColorModelMode");
    reveal_strlit("HSB_Brightness");
    assert("HSB_Brightness"@[0] != "ColorModelMode"@[0]);
    reveal_strlit("ColorModelMode");
    reveal_strlit("CIE_Brightness");
    assert("CIE_Brightness"@[1] != "ColorModelMode"@[1]);
    reveal_strlit("ColorModelMode");
    reveal_strlit("ColorRGB_Green");
    assert("ColorRGB_Green"@[5] != "ColorModelMode"@[5]);
    reveal_strlit("ColorModelMode");
    reveal_strlit("StrobeDuration");
    assert("StrobeDuration"@[0] != "ColorModelMode"@[0]);
    reveal_strlit("ColorModelMode");
    reveal_strlit("IrisPulseClose");
    assert("IrisPulseClose"@[0] != "ColorModelMode"@[0]);
    reveal_strlit("ColorUniformity");
    reveal_strlit("ColorRGB_Yellow");
    assert("ColorRGB_Yellow"@[5] != "ColorUniformity"@[5]);
    reveal_strlit("ColorUniformity");
    reveal_strlit("VideoSaturation");
    assert("VideoSaturation"@[0] != "ColorUniformity"@[0]);
    reveal_strlit("ColorUniformity");
    reveal_strlit("VideoBrightness");
    assert("VideoBrightness"@[0] != "ColorUniformity"@[0]);
    reveal_strlit("ColorUniformity");
    reveal_strlit("VideoKeyColor_R");
    assert("VideoKeyColor_R"@[0] != "ColorUniformity"@[0]);
    reveal_strlit("ColorUniformity");
    reveal_strlit("VideoKeyColor_G");
    assert("VideoKeyColor_G"@[0] != "ColorUniformity"@[0]);
    reveal_strlit("ColorUniformity");
    reveal_strlit("VideoKeyColor_B");
    assert("VideoKeyColor_B"@[0] != "ColorUniformity"@[0]);
    reveal_strlit("ColorUniformity");
    reveal_strlit("StrobeFrequency");
    assert("StrobeFrequency"@[0] != "ColorUniformity"@[0]);
    reveal_strlit("ColorUniformity");
    reveal_strlit("StrobeModePulse");
    assert("StrobeModePulse"@[0] != "ColorUniformity"@[0]);
    reveal_strlit("CRIMode");
    reveal_strlit("HSB_Hue");
    assert("HSB_Hue"@[0] != "CRIMode"@[0]);
    reveal_strlit("CustomColor");
    reveal_strlit("HSB_Quality");
    assert("HSB_Quality"@[0] != "CustomColor"@[0]);
    reveal_strlit("UVStability");
    reveal_strlit("HSB_Quality");
    assert("HSB_Quality"@[0] != "UVStability"@[0]);
    reveal_strlit("WavelengthCorrection");
    reveal_strlit("StrobeModePulseClose");
    assert("StrobeModePulseClose"@[0] != "WavelengthCorrection"@[0]);
    reveal_strlit("WhiteCount");
    reveal_strlit("StrobeRate");
    assert("StrobeRate"@[0] != "WhiteCount"@[0]);
    reveal_strlit("WhiteCount");
    reveal_strlit("IrisStrobe");
    assert("IrisStrobe"@[0] != "WhiteCount"@[0]);
    reveal_strlit("StrobeMode");
    reveal_strlit("StrobeRate");
    assert("StrobeRate"@[6] != "StrobeMode"@[6]);
    reveal_strlit("StrobeMode");
    reveal_strlit("IrisStrobe");
    assert("IrisStrobe"@[0] != "StrobeMode"@[0]);
    reveal_strlit("FollowSpotMode");
    reveal_strlit("HSB_Saturation");
    assert("HSB_Saturation"@[0] != "FollowSpotMode"@[0]);
    reveal_strlit("FollowSpotMode");
    reveal_strlit("HSB_Brightness");
    assert("HSB_Brightness"@[0] != "FollowSpotMode"@[0]);
    reveal_strlit("FollowSpotMode");
    reveal_strlit("CIE_Brightness");
    assert("CIE_Brightness"@[0] != "FollowSpotMode"@[0]);
    reveal_strlit("FollowSpotMode");
    reveal_strlit("ColorRGB_Green");
    assert("ColorRGB_Green"@[0] != "FollowSpotMode"@[0]);
    reveal_strlit("FollowSpotMode");
    reveal_strlit("StrobeDuration");
    assert("StrobeDuration"@[0] != "FollowSpotMode"@[0]);
    reveal_strlit("FollowSpotMode");
    reveal_strlit("IrisPulseClose");
    assert("IrisPulseClose"@[0] != "FollowSpotMode"@[0]);
    reveal_strlit("BeamEffectIndexRotateMode");
    reveal_strlit("StrobeModeRandomPulseOpen");
    assert("StrobeModeRandomPulseOpen"@[0] != "BeamEffectIndexRotateMode"@[0]);
}

/// Each name in part 3 of the name table is found in that part as its own
/// attribute: every name before it in the part differs from it.
proof fn lemma_names_3_read()
    ensures
        exact_attribute_3("IntensityMSpeed"@) == Some(FixtureChannel3Attribute::IntensityMSpeed),
        exact_attribute_3("PositionMSpeed"@) == Some(FixtureChannel3Attribute::PositionMSpeed),
        exact_attribute_3("ColorMixMSpeed"@) == Some(FixtureChannel3Attribute::ColorMixMSpeed),
        exact_attribute_3("ColorWheelSelectMSpeed"@) == Some(FixtureChannel3Attribute::ColorWheelSelectMSpeed),
        exact_attribute_3("IrisMSpeed"@) == Some(FixtureChannel3Attribute::IrisMSpeed),
        exact_attribute_3("FocusMSpeed"@) == Some(FixtureChannel3Attribute::FocusMSpeed),
        exact_attribute_3("ZoomMSpeed"@) == Some(FixtureChannel3Attribute::ZoomMSpeed),
        exact_attribute_3("FrameMSpeed"@) == Some(FixtureChannel3Attribute::FrameMSpeed),
        exact_attribute_3("GlobalMSpeed"@) == Some(FixtureChannel3Attribute::GlobalMSpeed),
        exact_attribute_3("ReflectorAdjust"@) == Some(FixtureChannel3Attribute::ReflectorAdjust),
        exact_attribute_3("FixtureGlobalReset"@) == Some(FixtureChannel3Attribute::FixtureGlobalReset),
        exact_attribute_3("DimmerReset"@) == Some(FixtureChannel3Attribute::DimmerReset),
        exact_attribute_3("ShutterReset"@) == Some(FixtureChannel3Attribute::ShutterReset),
        exact_attribute_3("BeamReset"@) == Some(FixtureChannel3Attribute::BeamReset),
        exact_attribute_3("ColorMixReset"@) == Some(FixtureChannel3Attribute::ColorMixReset),
        exact_attribute_3("ColorWheelReset"@) == Some(FixtureChannel3Attribute::ColorWheelReset),
        exact_attribute_3("FocusReset"@) == Some(FixtureChannel3Attribute::FocusReset),
        exact_attribute_3("FrameReset"@) == Some(FixtureChannel3Attribute::FrameReset),
        exact_attribute_3("GoboWheelReset"@) == Some(FixtureChannel3Attribute::GoboWheelReset),
        exact_attribute_3("IntensityReset"@) == Some(FixtureChannel3Attribute::IntensityReset),
        exact_attribute_3("IrisReset"@) == Some(FixtureChannel3Attribute::IrisReset),
        exact_attribute_3("PositionReset"@) == Some(FixtureChannel3Attribute::PositionReset),
        exact_attribute_3("PanReset"@) == Some(FixtureChannel3Attribute::PanReset),
        exact_attribute_3("TiltReset"@) == Some(FixtureChannel3Attribute::TiltReset),
        exact_attribute_3("ZoomReset"@) == Some(FixtureChannel3Attribute::ZoomReset),
        exact_attribute_3("CTBReset"@) == Some(FixtureChannel3Attribute::CtbReset),
        exact_attribute_3("CTOReset"@) == Some(FixtureChannel3Attribute::CtoReset),
        exact_attribute_3("CTCReset"@) == Some(FixtureChannel3Attribute::CtcReset),
        exact_attribute_3("AnimationSystemReset"@) == Some(FixtureChannel3Attribute::AnimationSystemReset),
        exact_attribute_3("FixtureCalibrationReset"@) == Some(FixtureChannel3Attribute::FixtureCalibrationReset),
        exact_attribute_3("Function"@) == Some(FixtureChannel3Attribute::Function),
        exact_attribute_3("LampControl"@) == Some(FixtureChannel3Attribute::LampControl),
        exact_attribute_3("DisplayIntensity"@) == Some(FixtureChannel3Attribute::DisplayIntensity),
        exact_attribute_3("DMXInput"@) == Some(FixtureChannel3Attribute::DmxInput),
        exact_attribute_3("NoFeature"@) == Some(FixtureChannel3Attribute::NoFeature),
        exact_attribute_3("LampPowerMode"@) == Some(FixtureChannel3Attribute::LampPowerMode),
        exact_attribute_3("Fans"@) == Some(FixtureChannel3Attribute::Fans),
        exact_attribute_3("ShaperRot"@) == Some(FixtureChannel3Attribute::ShaperRot),
        exact_attribute_3("ShaperMacros"@) == Some(FixtureChannel3Attribute::ShaperMacros),
        exact_attribute_3("ShaperMacrosSpeed"@) == Some(FixtureChannel3Attribute::ShaperMacrosSpeed),
        exact_attribute_3("Video"@) == Some(FixtureChannel3Attribute::Video),
        exact_attribute_3("VideoBlendMode"@) == Some(FixtureChannel3Attribute::VideoBlendMode),
        exact_attribute_3("InputSource"@) == Some(FixtureChannel3Attribute::InputSource),
        exact_attribute_3("FieldOfView"@) == Some(FixtureChannel3Attribute::FieldOfView),
{
    reveal(exact_attribute_3);
    lemma_name_lengths_3();
    reveal_strlit("ColorMixMSpeed");
    reveal_strlit("PositionMSpeed");
    assert("PositionMSpeed"@[0] != "ColorMixMSpeed"@[0]);
    reveal_strlit("ZoomMSpeed");
    reveal_strlit("IrisMSpeed");
    assert("IrisMSpeed"@[0] != "ZoomMSpeed"@[0]);
    reveal_strlit("FrameMSpeed");
    reveal_strlit("FocusMSpeed");
    assert("FocusMSpeed"@[1] != "FrameMSpeed"@[1]);
    reveal_strlit("ReflectorAdjust");
    reveal_strlit("IntensityMSpeed");
    assert("IntensityMSpeed"@[0] != "ReflectorAdjust"@[0]);
    reveal_strlit("DimmerReset");
    reveal_strlit("FocusMSpeed");
    assert("FocusMSpeed"@[0] != "DimmerReset"@[0]);
    reveal_strlit("DimmerReset");
    reveal_strlit("FrameMSpeed");
    assert("FrameMSpeed"@[0] != "DimmerReset"@[0]);
    reveal_strlit("ShutterReset");
    reveal_strlit("GlobalMSpeed");
    assert("GlobalMSpeed"@[0] != "ShutterReset"@[0]);
    reveal_strlit("ColorWheelReset");
    reveal_strlit("IntensityMSpeed");
    assert("IntensityMSpeed"@[0] != "ColorWheelReset"@[0]);
    reveal_strlit("ColorWheelReset");
    reveal_strlit("ReflectorAdjust");
    assert("ReflectorAdjust"@[0] != "ColorWheelReset"@[0]);
    reveal_strlit("FocusReset");
    reveal_strlit("IrisMSpeed");
    assert("IrisMSpeed"@[0] != "FocusReset"@[0]);
    reveal_strlit("FocusReset");
    reveal_strlit("ZoomMSpeed");
    assert("ZoomMSpeed"@[0] != "FocusReset"@[0]);
    reveal_strlit("FrameReset");
    reveal_strlit("IrisMSpeed");
    assert("IrisMSpeed"@[0] != "FrameReset"@[0]);
    reveal_strlit("FrameReset");
    reveal_strlit("ZoomMSpeed");
    assert("ZoomMSpeed"@[0] != "FrameReset"@[0]);
    reveal_strlit("FrameReset");
    reveal_strlit("FocusReset");
    assert("FocusReset"@[1] != "FrameReset"@[1]);
    reveal_strlit("GoboWheelReset");
    reveal_strlit("PositionMSpeed");
    assert("PositionMSpeed"@[0] != "GoboWheelReset"@[0]);
    reveal_strlit("GoboWheelReset");
    reveal_strlit("ColorMixMSpeed");
    assert("ColorMixMSpeed"@[0] != "GoboWheelReset"@[0]);
    reveal_strlit("IntensityReset");
    reveal_strlit("PositionMSpeed");
    assert("PositionMSpeed"@[0] != "IntensityReset"@[0]);
    reveal_strlit("IntensityReset");
    reveal_strlit("ColorMixMSpeed");
    assert("ColorMixMSpeed"@[0] != "IntensityReset"@[0]);
    reveal_strlit("IntensityReset");
    reveal_strlit("GoboWheelReset");
    assert("GoboWheelReset"@[0] != "IntensityReset"@[0]);
    reveal_strlit("IrisReset");
    reveal_strlit("BeamReset");
    assert("BeamReset"@[0] != "IrisReset"@[0]);
    reveal_strlit("PositionReset");
    reveal_strlit("ColorMixReset");
    assert("ColorMixReset"@[0] != "PositionReset"@[0]);
    reveal_strlit("TiltReset");
    reveal_strlit("BeamReset");
    assert("BeamReset"@[0] != "TiltReset"@[0]);
    reveal_strlit("TiltReset");
    reveal_strlit("IrisReset");
    assert("IrisReset"@[0] != "TiltReset"@[0]);
    reveal_strlit("ZoomReset");
    reveal_strlit("BeamReset");
    assert("BeamReset"@[0] != "ZoomReset"@[0]);
    reveal_strlit("ZoomReset");
    reveal_strlit("IrisReset");
    assert("IrisReset"@[0] != "ZoomReset"@[0]);
    reveal_strlit("ZoomReset");
    reveal_strlit("TiltReset");
    assert("TiltReset"@[0] != "ZoomReset"@[0]);
    reveal_strlit("CTBReset");
    reveal_strlit("PanReset");
    assert("PanReset"@[0] != "CTBReset"@[0]);
    reveal_strlit("CTOReset");
    reveal_strlit("PanReset");
    assert("PanReset"@[0] != "CTOReset"@[0]);
    reveal_strlit("CTOReset");
    reveal_strlit("CTBReset");
    assert("CTBReset"@[2] != "CTOReset"@[2]);
    reveal_strlit("CTCReset");
    reveal_strlit("PanReset");
    assert("PanReset"@[0] != "CTCReset"@[0]);
    reveal_strlit("CTCReset");
    reveal_strlit("CTBReset");
    assert("CTBReset"@[2] != "CTCReset"@[2]);
    reveal_strlit("CTCReset");
    reveal_strlit("CTOReset");
    assert("CTOReset"@[2] != "CTCReset"@[2]);
    reveal_strlit("Function");
    reveal_strlit("PanReset");
    assert("PanReset"@[0] != "Function"@[0]);
    reveal_strlit("Function");
    reveal_strlit("CTBReset");
    assert("CTBReset"@[0] != "Function"@[0]);
    reveal_strlit("Function");
    reveal_strlit("CTOReset");
    assert("CTOReset"@[0] != "Function"@[0]);
    reveal_strlit("Function");
    reveal_strlit("CTCReset");
    assert("CTCReset"@[0] != "Function"@[0]);
    reveal_strlit("LampControl");
    reveal_strlit("FocusMSpeed");
    assert("FocusMSpeed"@[0] != "LampControl"@[0]);
    reveal_strlit("LampControl");
    reveal_strlit("FrameMSpeed");
    assert("FrameMSpeed"@[0] != "LampControl"@[0]);
    reveal_strlit("LampControl");
    reveal_strlit("DimmerReset");
    assert("DimmerReset"@[0] != "LampControl"@[0]);
    reveal_strlit("DMXInput");
    reveal_strlit("PanReset");
    assert("PanReset"@[0] != "DMXInput"@[0]);
    reveal_strlit("DMXInput");
    reveal_strlit("CTBReset");
    assert("CTBReset"@[0] != "DMXInput"@[0]);
    reveal_strlit("DMXInput");
    reveal_strlit("CTOReset");
    assert("CTOReset"@[0] != "DMXInput"@[0]);
    reveal_strlit("DMXInput");
    reveal_strlit("CTCReset");
    assert("CTCReset"@[0] != "DMXInput"@[0]);
    reveal_strlit("DMXInput");
    reveal_strlit("Function");
    assert("Function"@[0] != "DMXInput"@[0]);
    reveal_strlit("NoFeature");
    reveal_strlit("BeamReset");
    assert("BeamReset"@[0] != "NoFeature"@[0]);
    reveal_strlit("NoFeature");
    reveal_strlit("IrisReset");
    assert("IrisReset"@[0] != "NoFeature"@[0]);
    reveal_strlit("NoFeature");
    reveal_strlit("TiltReset");
    assert("TiltReset"@[0] != "NoFeature"@[0]);
    reveal_strlit("NoFeature");
    reveal_strlit("ZoomReset");
    assert("ZoomReset"@[0] != "NoFeature"@[0]);
    reveal_strlit("LampPowerMode");
    reveal_strlit("ColorMixReset");
    assert("ColorMixReset"@[0] != "LampPowerMode"@[0]);
    reveal_strlit("LampPowerMode");
    reveal_strlit("PositionReset");
    assert("PositionReset"@[0] != "LampPowerMode"@[0]);
    reveal_strlit("ShaperRot");
    reveal_strlit("BeamReset");
    assert("BeamReset"@[0] != "ShaperRot"@[0]);
    reveal_strlit("ShaperRot");
    reveal_strlit("IrisReset");
    assert("IrisReset"@[0] != "ShaperRot"@[0]);
    reveal_strlit("ShaperRot");
    reveal_strlit("TiltReset");
    assert("TiltReset"@[0] != "ShaperRot"@[0]);
    reveal_strlit("ShaperRot");
    reveal_strlit("ZoomReset");
    assert("ZoomReset"@[0] != "ShaperRot"@[0]);
    reveal_strlit("ShaperRot");
    reveal_strlit("NoFeature");
    assert("NoFeature"@[0] != "ShaperRot"@[0]);
    reveal_strlit("ShaperMacros");
    reveal_strlit("GlobalMSpeed");
    assert("GlobalMSpeed"@[0] != "ShaperMacros"@[0]);
    reveal_strlit("ShaperMacros");
    reveal_strlit("ShutterReset");
    assert("ShutterReset"@[2] != "ShaperMacros"@[2]);
    reveal_strlit("VideoBlendMode");
    reveal_strlit("PositionMSpeed");
    assert("PositionMSpeed"@[0] != "VideoBlendMode"@[0]);
    reveal_strlit("VideoBlendMode");
    reveal_strlit("ColorMixMSpeed");
    assert("ColorMixMSpeed"@[0] != "VideoBlendMode"@[0]);
    reveal_strlit("VideoBlendMode");
    reveal_strlit("GoboWheelReset");
    assert("GoboWheelReset"@[0] != "VideoBlendMode"@[0]);
    reveal_strlit("VideoBlendMode");
    reveal_strlit("IntensityReset");
    assert("IntensityReset"@[0] != "VideoBlendMode"@[0]);
    reveal_strlit("InputSource");
    reveal_strlit("FocusMSpeed");
    assert("FocusMSpeed"@[0] != "InputSource"@[0]);
    reveal_strlit("InputSource");
    reveal_strlit("FrameMSpeed");
    assert("FrameMSpeed"@[0] != "InputSource"@[0]);
    reveal_strlit("InputSource");
    reveal_strlit("DimmerReset");
    assert("DimmerReset"@[0] != "InputSource"@[0]);
    reveal_strlit("InputSource");
    reveal_strlit("LampControl");
    assert("LampControl"@[0] != "InputSource"@[0]);
    reveal_strlit("FieldOfView");
    reveal_strlit("FocusMSpeed");
    assert("FocusMSpeed"@[1] != "FieldOfView"@[1]);
    reveal_strlit("FieldOfView");
    reveal_strlit("FrameMSpeed");
    assert("FrameMSpeed"@[1] != "FieldOfView"@[1]);
    reveal_strlit("FieldOfView");
    reveal_strlit("DimmerReset");
    assert("DimmerReset"@[0] != "FieldOfView"@[0]);
    reveal_strlit("FieldOfView");
    reveal_strlit("LampControl");
    assert("LampControl"@[0] != "FieldOfView"@[0]);
    reveal_strlit("FieldOfView");
    reveal_strlit("InputSource");
    assert("InputSource"@[0] != "FieldOfView"@[0]);
}

/// No name of part 3 of the name table occurs in part 0.
proof fn lemma_names_3_not_in_0()
    ensures
        exact_attribute_0("IntensityMSpeed"@) is None,
        exact_attribute_0("PositionMSpeed"@) is None,
        exact_attribute_0("ColorMixMSpeed"@) is None,
        exact_attribute_0("ColorWheelSelectMSpeed"@) is None,
        exact_attribute_0("IrisMSpeed"@) is None,
        exact_attribute_0("FocusMSpeed"@) is None,
        exact_attribute_0("ZoomMSpeed"@) is None,
        exact_attribute_0("FrameMSpeed"@) is None,
        exact_attribute_0("GlobalMSpeed"@) is None,
        exact_attribute_0("ReflectorAdjust"@) is None,
        exact_attribute_0("FixtureGlobalReset"@) is None,
        exact_attribute_0("DimmerReset"@) is None,
        exact_attribute_0("ShutterReset"@) is None,
        exact_attribute_0("BeamReset"@) is None,
        exact_attribute_0("ColorMixReset"@) is None,
        exact_attribute_0("ColorWheelReset"@) is None,
        exact_attribute_0("FocusReset"@) is None,
        exact_attribute_0("FrameReset"@) is None,
        exact_attribute_0("GoboWheelReset"@) is None,
        exact_attribute_0("IntensityReset"@) is None,
        exact_attribute_0("IrisReset"@) is None,
        exact_attribute_0("PositionReset"@) is None,
        exact_attribute_0("PanReset"@) is None,
        exact_attribute_0("TiltReset"@) is None,
        exact_attribute_0("ZoomReset"@) is None,
        exact_attribute_0("CTBReset"@) is None,
        exact_attribute_0("CTOReset"@) is None,
        exact_attribute_0("CTCReset"@) is None,
        exact_attribute_0("AnimationSystemReset"@) is None,
        exact_attribute_0("FixtureCalibrationReset"@) is None,
        exact_attribute_0("Function"@) is None,
        exact_attribute_0("LampControl"@) is None,
        exact_attribute_0("DisplayIntensity"@) is None,
        exact_attribute_0("DMXInput"@) is None,
        exact_attribute_0("NoFeature"@) is None,
        exact_attribute_0("LampPowerMode"@) is None,
        exact_attribute_0("Fans"@) is None,
        exact_attribute_0("ShaperRot"@) is None,
        exact_attribute_0("ShaperMacros"@) is None,
        exact_attribute_0("ShaperMacrosSpeed"@) is None,
        exact_attribute_0("Video"@) is None,
        exact_attribute_0("VideoBlendMode"@) is None,
        exact_attribute_0("InputSource"@) is None,
        exact_attribute_0("FieldOfView"@) is None,
{
    reveal(exact_attribute_0);
    lemma_name_lengths_0();
    lemma_name_lengths_3();
    reveal_strlit("PositionMSpeed");
    reveal_strlit("PositionEffect");
    assert("PositionEffect"@[8] != "PositionMSpeed"@[8]);
    reveal_strlit("ColorMixMSpeed");
    reveal_strlit("PositionEffect");
    assert("PositionEffect"@[0] != "ColorMixMSpeed"@[0]);
    reveal_strlit("IrisMSpeed");
    reveal_strlit("TiltRotate");
    assert("TiltRotate"@[0] != "IrisMSpeed"@[0]);
    reveal_strlit("IrisMSpeed");
    reveal_strlit("ColorAdd_R");
    assert("ColorAdd_R"@[0] != "IrisMSpeed"@[0]);
    reveal_strlit("IrisMSpeed");
    reveal_strlit("ColorAdd_G");
    assert("ColorAdd_G"@[0] != "IrisMSpeed"@[0]);
    reveal_strlit("IrisMSpeed");
    reveal_strlit("ColorAdd_B");
    assert("ColorAdd_B"@[0] != "IrisMSpeed"@[0]);
    reveal_strlit("IrisMSpeed");
    reveal_strlit("ColorAdd_C");
    assert("ColorAdd_C"@[0] != "IrisMSpeed"@[0]);
    reveal_strlit("IrisMSpeed");
    reveal_strlit("ColorAdd_M");
    assert("ColorAdd_M"@[0] != "IrisMSpeed"@[0]);
    reveal_strlit("IrisMSpeed");
    reveal_strlit("ColorAdd_Y");
    assert("ColorAdd_Y"@[0] != "IrisMSpeed"@[0]);
    reveal_strlit("IrisMSpeed");
    reveal_strlit("ColorAdd_W");
    assert("ColorAdd_W"@[0] != "IrisMSpeed"@[0]);
    reveal_strlit("IrisMSpeed");
    reveal_strlit("ColorSub_R");
    assert("ColorSub_R"@[0] != "IrisMSpeed"@[0]);
    reveal_strlit("IrisMSpeed");
    reveal_strlit("ColorSub_G");
    assert("ColorSub_G"@[0] != "IrisMSpeed"@[0]);
    reveal_strlit("IrisMSpeed");
    reveal_strlit("ColorSub_B");
    assert("ColorSub_B"@[0] != "IrisMSpeed"@[0]);
    reveal_strlit("IrisMSpeed");
    reveal_strlit("ColorSub_C");
    assert("ColorSub_C"@[0] != "IrisMSpeed"@[0]);
    reveal_strlit("IrisMSpeed");
    reveal_strlit("ColorSub_M");
    assert("ColorSub_M"@[0] != "IrisMSpeed"@[0]);
    reveal_strlit("IrisMSpeed");
    reveal_strlit("ColorSub_Y");
    assert("ColorSub_Y"@[0] != "IrisMSpeed"@[0]);
    reveal_strlit("FocusMSpeed");
    reveal_strlit("ColorAdd_RY");
    assert("ColorAdd_RY"@[0] != "FocusMSpeed"@[0]);
    reveal_strlit("FocusMSpeed");
    reveal_strlit("ColorAdd_GY");
    assert("ColorAdd_GY"@[0] != "FocusMSpeed"@[0]);
    reveal_strlit("FocusMSpeed");
    reveal_strlit("ColorAdd_GC");
    assert("ColorAdd_GC"@[0] != "FocusMSpeed"@[0]);
    reveal_strlit("FocusMSpeed");
    reveal_strlit("ColorAdd_BC");
    assert("ColorAdd_BC"@[0] != "FocusMSpeed"@[0]);
    reveal_strlit("FocusMSpeed");
    reveal_strlit("ColorAdd_BM");
    assert("ColorAdd_BM"@[0] != "FocusMSpeed"@[0]);
    reveal_strlit("FocusMSpeed");
    reveal_strlit("ColorAdd_RM");
    assert("ColorAdd_RM"@[0] != "FocusMSpeed"@[0]);
    reveal_strlit("FocusMSpeed");
    reveal_strlit("ColorAdd_WW");
    assert("ColorAdd_WW"@[0] != "FocusMSpeed"@[0]);
    reveal_strlit("FocusMSpeed");
    reveal_strlit("ColorAdd_CW");
    assert("ColorAdd_CW"@[0] != "FocusMSpeed"@[0]);
    reveal_strlit("FocusMSpeed");
    reveal_strlit("ColorAdd_UV");
    assert("ColorAdd_UV"@[0] != "FocusMSpeed"@[0]);
    reveal_strlit("ZoomMSpeed");
    reveal_strlit("TiltRotate");
    assert("TiltRotate"@[0] != "ZoomMSpeed"@[0]);
    reveal_strlit("ZoomMSpeed");
    reveal_strlit("ColorAdd_R");
    assert("ColorAdd_R"@[0] != "ZoomMSpeed"@[0]);
    reveal_strlit("ZoomMSpeed");
    reveal_strlit("ColorAdd_G");
    assert("ColorAdd_G"@[0] != "ZoomMSpeed"@[0]);
    reveal_strlit("ZoomMSpeed");
    reveal_strlit("ColorAdd_B");
    assert("ColorAdd_B"@[0] != "ZoomMSpeed"@[0]);
    reveal_strlit("ZoomMSpeed");
    reveal_strlit("ColorAdd_C");
    assert("ColorAdd_C"@[0] != "ZoomMSpeed"@[0]);
    reveal_strlit("ZoomMSpeed");
    reveal_strlit("ColorAdd_M");
    assert("ColorAdd_M"@[0] != "ZoomMSpeed"@[0]);
    reveal_strlit("ZoomMSpeed");
    reveal_strlit("ColorAdd_Y");
    assert("ColorAdd_Y"@[0] != "ZoomMSpeed"@[0]);
    reveal_strlit("ZoomMSpeed");
    reveal_strlit("ColorAdd_W");
    assert("ColorAdd_W"@[0] != "ZoomMSpeed"@[0]);
    reveal_strlit("ZoomMSpeed");
    reveal_strlit("ColorSub_R");
    assert("ColorSub_R"@[0] != "ZoomMSpeed"@[0]);
    reveal_strlit("ZoomMSpeed");
    reveal_strlit("ColorSub_G");
    assert("ColorSub_G"@[0] != "ZoomMSpeed"@[0]);
    reveal_strlit("ZoomMSpeed");
    reveal_strlit("ColorSub_B");
    assert("ColorSub_B"@[0] != "ZoomMSpeed"@[0]);
    reveal_strlit("ZoomMSpeed");
    reveal_strlit("ColorSub_C");
    assert("ColorSub_C"@[0] != "ZoomMSpeed"@[0]);
    reveal_strlit("ZoomMSpeed");
    reveal_strlit("ColorSub_M");
    assert("ColorSub_M"@[0] != "ZoomMSpeed"@[0]);
    reveal_strlit("ZoomMSpeed");
    reveal_strlit("ColorSub_Y");
    assert("ColorSub_Y"@[0] != "ZoomMSpeed"@[0]);
    reveal_strlit("FrameMSpeed");
    reveal_strlit("ColorAdd_RY");
    assert("ColorAdd_RY"@[0] != "FrameMSpeed"@[0]);
    reveal_strlit("FrameMSpeed");
    reveal_strlit("ColorAdd_GY");
    assert("ColorAdd_GY"@[0] != "FrameMSpeed"@[0]);
    reveal_strlit("FrameMSpeed");
    reveal_strlit("ColorAdd_GC");
    assert("ColorAdd_GC"@[0] != "FrameMSpeed"@[0]);
    reveal_strlit("FrameMSpeed");
    reveal_strlit("ColorAdd_BC");
    assert("ColorAdd_BC"@[0] != "FrameMSpeed"@[0]);
    reveal_strlit("FrameMSpeed");
    reveal_strlit("ColorAdd_BM");
    assert("ColorAdd_BM"@[0] != "FrameMSpeed"@[0]);
    reveal_strlit("FrameMSpeed");
    reveal_strlit("ColorAdd_RM");
    assert("ColorAdd_RM"@[0] != "FrameMSpeed"@[0]);
    reveal_strlit("FrameMSpeed");
    reveal_strlit("ColorAdd_WW");
    assert("ColorAdd_WW"@[0] != "FrameMSpeed"@[0]);
    reveal_strlit("FrameMSpeed");
    reveal_strlit("ColorAdd_CW");
    assert("ColorAdd_CW"@[0] != "FrameMSpeed"@[0]);
    reveal_strlit("FrameMSpeed");
    reveal_strlit("ColorAdd_UV");
    assert("ColorAdd_UV"@[0] != "FrameMSpeed"@[0]);
    reveal_strlit("FixtureGlobalReset");
    reveal_strlit("PositionEffectRate");
    assert("PositionEffectRate"@[0] != "FixtureGlobalReset"@[0]);
    reveal_strlit("FixtureGlobalReset");
    reveal_strlit("PositionEffectFade");
    assert("PositionEffectFade"@[0] != "FixtureGlobalReset"@[0]);
    reveal_strlit("DimmerReset");
    reveal_strlit("ColorAdd_RY");
    assert("ColorAdd_RY"@[0] != "DimmerReset"@[0]);
    reveal_strlit("DimmerReset");
    reveal_strlit("ColorAdd_GY");
    assert("ColorAdd_GY"@[0] != "DimmerReset"@[0]);
    reveal_strlit("DimmerReset");
    reveal_strlit("ColorAdd_GC");
    assert("ColorAdd_GC"@[0] != "DimmerReset"@[0]);
    reveal_strlit("DimmerReset");
    reveal_strlit("ColorAdd_BC");
    assert("ColorAdd_BC"@[0] != "DimmerReset"@[0]);
    reveal_strlit("DimmerReset");
    reveal_strlit("ColorAdd_BM");
    assert("ColorAdd_BM"@[0] != "DimmerReset"@[0]);
    reveal_strlit("DimmerReset");
    reveal_strlit("ColorAdd_RM");
    assert("ColorAdd_RM"@[0] != "DimmerReset"@[0]);
    reveal_strlit("DimmerReset");
    reveal_strlit("ColorAdd_WW");
    assert("ColorAdd_WW"@[0] != "DimmerReset"@[0]);
    reveal_strlit("DimmerReset");
    reveal_strlit("ColorAdd_CW");
    assert("ColorAdd_CW"@[0] != "DimmerReset"@[0]);
    reveal_strlit("DimmerReset");
    reveal_strlit("ColorAdd_UV");
    assert("ColorAdd_UV"@[0] != "DimmerReset"@[0]);
    reveal_strlit("BeamReset");
    reveal_strlit("PanRotate");
    assert("PanRotate"@[0] != "BeamReset"@[0]);
    reveal_strlit("BeamReset");
    reveal_strlit("Scale_XYZ");
    assert("Scale_XYZ"@[0] != "BeamReset"@[0]);
    reveal_strlit("BeamReset");
    reveal_strlit("PlayBegin");
    assert("PlayBegin"@[0] != "BeamReset"@[0]);
    reveal_strlit("BeamReset");
    reveal_strlit("PlaySpeed");
    assert("PlaySpeed"@[0] != "BeamReset"@[0]);
    reveal_strlit("FocusReset");
    reveal_strlit("TiltRotate");
    assert("TiltRotate"@[0] != "FocusReset"@[0]);
    reveal_strlit("FocusReset");
    reveal_strlit("ColorAdd_R");
    assert("ColorAdd_R"@[0] != "FocusReset"@[0]);
    reveal_strlit("FocusReset");
    reveal_strlit("ColorAdd_G");
    assert("ColorAdd_G"@[0] != "FocusReset"@[0]);
    reveal_strlit("FocusReset");
    reveal_strlit("ColorAdd_B");
    assert("ColorAdd_B"@[0] != "FocusReset"@[0]);
    reveal_strlit("FocusReset");
    reveal_strlit("ColorAdd_C");
    assert("ColorAdd_C"@[0] != "FocusReset"@[0]);
    reveal_strlit("FocusReset");
    reveal_strlit("ColorAdd_M");
    assert("ColorAdd_M"@[0] != "FocusReset"@[0]);
    reveal_strlit("FocusReset");
    reveal_strlit("ColorAdd_Y");
    assert("ColorAdd_Y"@[0] != "FocusReset"@[0]);
    reveal_strlit("FocusReset");
    reveal_strlit("ColorAdd_W");
    assert("ColorAdd_W"@[0] != "FocusReset"@[0]);
    reveal_strlit("FocusReset");
    reveal_strlit("ColorSub_R");
    assert("ColorSub_R"@[0] != "FocusReset"@[0]);
    reveal_strlit("FocusReset");
    reveal_strlit("ColorSub_G");
    assert("ColorSub_G"@[0] != "FocusReset"@[0]);
    reveal_strlit("FocusReset");
    reveal_strlit("ColorSub_B");
    assert("ColorSub_B"@[0] != "FocusReset"@[0]);
    reveal_strlit("FocusReset");
    reveal_strlit("ColorSub_C");
    assert("ColorSub_C"@[0] != "FocusReset"@[0]);
    reveal_strlit("FocusReset");
    reveal_strlit("ColorSub_M");
    assert("ColorSub_M"@[0] != "FocusReset"@[0]);
    reveal_strlit("FocusReset");
    reveal_strlit("ColorSub_Y");
    assert("ColorSub_Y"@[0] != "FocusReset"@[0]);
    reveal_strlit("FrameReset");
    reveal_strlit("TiltRotate");
    assert("TiltRotate"@[0] != "FrameReset"@[0]);
    reveal_strlit("FrameReset");
    reveal_strlit("ColorAdd_R");
    assert("ColorAdd_R"@[0] != "FrameReset"@[0]);
    reveal_strlit("FrameReset");
    reveal_strlit("ColorAdd_G");
    assert("ColorAdd_G"@[0] != "FrameReset"@[0]);
    reveal_strlit("FrameReset");
    reveal_strlit("ColorAdd_B");
    assert("ColorAdd_B"@[0] != "FrameReset"@[0]);
    reveal_strlit("FrameReset");
    reveal_strlit("ColorAdd_C");
    assert("ColorAdd_C"@[0] != "FrameReset"@[0]);
    reveal_strlit("FrameReset");
    reveal_strlit("ColorAdd_M");
    assert("ColorAdd_M"@[0] != "FrameReset"@[0]);
    reveal_strlit("FrameReset");
    reveal_strlit("ColorAdd_Y");
    assert("ColorAdd_Y"@[0] != "FrameReset"@[0]);
    reveal_strlit("FrameReset");
    reveal_strlit("ColorAdd_W");
    assert("ColorAdd_W"@[0] != "FrameReset"@[0]);
    reveal_strlit("FrameReset");
    reveal_strlit("ColorSub_R");
    assert("ColorSub_R"@[0] != "FrameReset"@[0]);
    reveal_strlit("FrameReset");
    reveal_strlit("ColorSub_G");
    assert("ColorSub_G"@[0] != "FrameReset"@[0]);
    reveal_strlit("FrameReset");
    reveal_strlit("ColorSub_B");
    assert("ColorSub_B"@[0] != "FrameReset"@[0]);
    reveal_strlit("FrameReset");
    reveal_strlit("ColorSub_C");
    assert("ColorSub_C"@[0] != "FrameReset"@[0]);
    reveal_strlit("FrameReset");
    reveal_strlit("ColorSub_M");
    assert("ColorSub_M"@[0] != "FrameReset"@[0]);
    reveal_strlit("FrameReset");
    reveal_strlit("ColorSub_Y");
    assert("ColorSub_Y"@[0] != "FrameReset"@[0]);
    reveal_strlit("GoboWheelReset");
    reveal_strlit("PositionEffect");
    assert("PositionEffect"@[0] != "GoboWheelReset"@[0]);
    reveal_strlit("IntensityReset");
    reveal_strlit("PositionEffect");
    assert("PositionEffect"@[0] != "IntensityReset"@[0]);
    reveal_strlit("IrisReset");
    reveal_strlit("PanRotate");
    assert("PanRotate"@[0] != "IrisReset"@[0]);
    reveal_strlit("IrisReset");
    reveal_strlit("Scale_XYZ");
    assert("Scale_XYZ"@[0] != "IrisReset"@[0]);
    reveal_strlit("IrisReset");
    reveal_strlit("PlayBegin");
    assert("PlayBegin"@[0] != "IrisReset"@[0]);
    reveal_strlit("IrisReset");
    reveal_strlit("PlaySpeed");
    assert("PlaySpeed"@[0] != "IrisReset"@[0]);
    reveal_strlit("PanReset");
    reveal_strlit("PlayMode");
    assert("PlayMode"@[1] != "PanReset"@[1]);
    reveal_strlit("TiltReset");
    reveal_strlit("PanRotate");
    assert("PanRotate"@[0] != "TiltReset"@[0]);
    reveal_strlit("TiltReset");
    reveal_strlit("Scale_XYZ");
    assert("Scale_XYZ"@[0] != "TiltReset"@[0]);
    reveal_strlit("TiltReset");
    reveal_strlit("PlayBegin");
    assert("PlayBegin"@[0] != "TiltReset"@[0]);
    reveal_strlit("TiltReset");
    reveal_strlit("PlaySpeed");
    assert("PlaySpeed"@[0] != "TiltReset"@[0]);
    reveal_strlit("ZoomReset");
    reveal_strlit("PanRotate");
    assert("PanRotate"@[0] != "ZoomReset"@[0]);
    reveal_strlit("ZoomReset");
    reveal_strlit("Scale_XYZ");
    assert("Scale_XYZ"@[0] != "ZoomReset"@[0]);
    reveal_strlit("ZoomReset");
    reveal_strlit("PlayBegin");
    assert("PlayBegin"@[0] != "ZoomReset"@[0]);
    reveal_strlit("ZoomReset");
    reveal_strlit("PlaySpeed");
    assert("PlaySpeed"@[0] != "ZoomReset"@[0]);
    reveal_strlit("CTBReset");
    reveal_strlit("PlayMode");
    assert("PlayMode"@[0] != "CTBReset"@[0]);
    reveal_strlit("CTOReset");
    reveal_strlit("PlayMode");
    assert("PlayMode"@[0] != "CTOReset"@[0]);
    reveal_strlit("CTCReset");
    reveal_strlit("PlayMode");
    assert("PlayMode"@[0] != "CTCReset"@[0]);
    reveal_strlit("Function");
    reveal_strlit("PlayMode");
    assert("PlayMode"@[0] != "Function"@[0]);
    reveal_strlit("LampControl");
    reveal_strlit("ColorAdd_RY");
    assert("ColorAdd_RY"@[0] != "LampControl"@[0]);
    reveal_strlit("LampControl");
    reveal_strlit("ColorAdd_GY");
    assert("ColorAdd_GY"@[0] != "LampControl"@[0]);
    reveal_strlit("LampControl");
    reveal_strlit("ColorAdd_GC");
    assert("ColorAdd_GC"@[0] != "LampControl"@[0]);
    reveal_strlit("LampControl");
    reveal_strlit("ColorAdd_BC");
    assert("ColorAdd_BC"@[0] != "LampControl"@[0]);
    reveal_strlit("LampControl");
    reveal_strlit("ColorAdd_BM");
    assert("ColorAdd_BM"@[0] != "LampControl"@[0]);
    reveal_strlit("LampControl");
    reveal_strlit("ColorAdd_RM");
    assert("ColorAdd_RM"@[0] != "LampControl"@[0]);
    reveal_strlit("LampControl");
    reveal_strlit("ColorAdd_WW");
    assert("ColorAdd_WW"@[0] != "LampControl"@[0]);
    reveal_strlit("LampControl");
    reveal_strlit("ColorAdd_CW");
    assert("ColorAdd_CW"@[0] != "LampControl"@[0]);
    reveal_strlit("LampControl");
    reveal_strlit("ColorAdd_UV");
    assert("ColorAdd_UV"@[0] != "LampControl"@[0]);
    reveal_strlit("DMXInput");
    reveal_strlit("PlayMode");
    assert("PlayMode"@[0] != "DMXInput"@[0]);
    reveal_strlit("NoFeature");
    reveal_strlit("PanRotate");
    assert("PanRotate"@[0] != "NoFeature"@[0]);
    reveal_strlit("NoFeature");
    reveal_strlit("Scale_XYZ");
    assert("Scale_XYZ"@[0] != "NoFeature"@[0]);
    reveal_strlit("NoFeature");
    reveal_strlit("PlayBegin");
    assert("PlayBegin"@[0] != "NoFeature"@[0]);
    reveal_strlit("NoFeature");
    reveal_strlit("PlaySpeed");
    assert("PlaySpeed"@[0] != "NoFeature"@[0]);
    reveal_strlit("Fans");
    reveal_strlit("Tilt");
    assert("Tilt"@[0] != "Fans"@[0]);
    reveal_strlit("ShaperRot");
    reveal_strlit("PanRotate");
    assert("PanRotate"@[0] != "ShaperRot"@[0]);
    reveal_strlit("ShaperRot");
    reveal_strlit("Scale_XYZ");
    assert("Scale_XYZ"@[1] != "ShaperRot"@[1]);
    reveal_strlit("ShaperRot");
    reveal_strlit("PlayBegin");
    assert("PlayBegin"@[0] != "ShaperRot"@[0]);
    reveal_strlit("ShaperRot");
    reveal_strlit("PlaySpeed");
    assert("PlaySpeed"@[0] != "ShaperRot"@[0]);
    reveal_strlit("Video");
    reveal_strlit("XYZ_X");
    assert("XYZ_X"@[0] != "Video"@[0]);
    reveal_strlit("Video");
    reveal_strlit("XYZ_Y");
    assert("XYZ_Y"@[0] != "Video"@[0]);
    reveal_strlit("Video");
    reveal_strlit("XYZ_Z");
    assert("XYZ_Z"@[0] != "Video"@[0]);
    reveal_strlit("Video");
    reveal_strlit("Rot_X");
    assert("Rot_X"@[0] != "Video"@[0]);
    reveal_strlit("Video");
    reveal_strlit("Rot_Y");
    assert("Rot_Y"@[0] != "Video"@[0]);
    reveal_strlit("Video");
    reveal_strlit("Rot_Z");
    assert("Rot_Z"@[0] != "Video"@[0]);
    reveal_strlit("VideoBlendMode");
    reveal_strlit("PositionEffect");
    assert("PositionEffect"@[0] != "VideoBlendMode"@[0]);
    reveal_strlit("InputSource");
    reveal_strlit("ColorAdd_RY");
    assert("ColorAdd_RY"@[0] != "InputSource"@[0]);
    reveal_strlit("InputSource");
    reveal_strlit("ColorAdd_GY");
    assert("ColorAdd_GY"@[0] != "InputSource"@[0]);
    reveal_strlit("InputSource");
    reveal_strlit("ColorAdd_GC");
    assert("ColorAdd_GC"@[0] != "InputSource"@[0]);
    reveal_strlit("InputSource");
    reveal_strlit("ColorAdd_BC");
    assert("ColorAdd_BC"@[0] != "InputSource"@[0]);
    reveal_strlit("InputSource");
    reveal_strlit("ColorAdd_BM");
    assert("ColorAdd_BM"@[0] != "InputSource"@[0]);
    reveal_strlit("InputSource");
    reveal_strlit("ColorAdd_RM");
    assert("ColorAdd_RM"@[0] != "InputSource"@[0]);
    reveal_strlit("InputSource");
    reveal_strlit("ColorAdd_WW");
    assert("ColorAdd_WW"@[0] != "InputSource"@[0]);
    reveal_strlit("InputSource");
    reveal_strlit("ColorAdd_CW");
    assert("ColorAdd_CW"@[0] != "InputSource"@[0]);
    reveal_strlit("InputSource");
    reveal_strlit("ColorAdd_UV");
    assert("ColorAdd_UV"@[0] != "InputSource"@[0]);
    reveal_strlit("FieldOfView");
    reveal_strlit("ColorAdd_RY");
    assert("ColorAdd_RY"@[0] != "FieldOfView"@[0]);
    reveal_strlit("FieldOfView");
    reveal_strlit("ColorAdd_GY");
    assert("ColorAdd_GY"@[0] != "FieldOfView"@[0]);
    reveal_strlit("FieldOfView");
    reveal_strlit("ColorAdd_GC");
    assert("ColorAdd_GC"@[0] != "FieldOfView"@[0]);
    reveal_strlit("FieldOfView");
    reveal_strlit("ColorAdd_BC");
    assert("ColorAdd_BC"@[0] != "FieldOfView"@[0]);
    reveal_strlit("FieldOfView");
    reveal_strlit("ColorAdd_BM");
    assert("ColorAdd_BM"@[0] != "FieldOfView"@[0]);
    reveal_strlit("FieldOfView");
    reveal_strlit("ColorAdd_RM");
    assert("ColorAdd_RM"@[0] != "FieldOfView"@[0]);
    reveal_strlit("FieldOfView");
    reveal_strlit("ColorAdd_WW");
    assert("ColorAdd_WW"@[0] != "FieldOfView"@[0]);
    reveal_strlit("FieldOfView");
    reveal_strlit("ColorAdd_CW");
    assert("ColorAdd_CW"@[0] != "FieldOfView"@[0]);
    reveal_strlit("FieldOfView");
    reveal_strlit("ColorAdd_UV");
    assert("ColorAdd_UV"@[0] != "FieldOfView"@[0]);
}

/// No name of part 3 of the name table occurs in part 1.
proof fn lemma_names_3_not_in_1()
    ensures
        exact_attribute_1("IntensityMSpeed"@) is None,
        exact_attribute_1("PositionMSpeed"@) is None,
        exact_attribute_1("ColorMixMSpeed"@) is None,
        exact_attribute_1("ColorWheelSelectMSpeed"@) is None,
        exact_attribute_1("IrisMSpeed"@) is None,
        exact_attribute_1("FocusMSpeed"@) is None,
        exact_attribute_1("ZoomMSpeed"@) is None,
        exact_attribute_1("FrameMSpeed"@) is None,
        exact_attribute_1("GlobalMSpeed"@) is None,
        exact_attribute_1("ReflectorAdjust"@) is None,
        exact_attribute_1("FixtureGlobalReset"@) is None,
        exact_attribute_1("DimmerReset"@) is None,
        exact_attribute_1("ShutterReset"@) is None,
        exact_attribute_1("BeamReset"@) is None,
        exact_attribute_1("ColorMixReset"@) is None,
        exact_attribute_1("ColorWheelReset"@) is None,
        exact_attribute_1("FocusReset"@) is None,
        exact_attribute_1("FrameReset"@) is None,
        exact_attribute_1("GoboWheelReset"@) is None,
        exact_attribute_1("IntensityReset"@) is None,
        exact_attribute_1("IrisReset"@) is None,
        exact_attribute_1("PositionReset"@) is None,
        exact_attribute_1("PanReset"@) is None,
        exact_attribute_1("TiltReset"@) is None,
        exact_attribute_1("ZoomReset"@) is None,
        exact_attribute_1("CTBReset"@) is None,
        exact_attribute_1("CTOReset"@) is None,
        exact_attribute_1("CTCReset"@) is None,
        exact_attribute_1("AnimationSystemReset"@) is None,
        exact_attribute_1("FixtureCalibrationReset"@) is None,
        exact_attribute_1("Function"@) is None,
        exact_attribute_1("LampControl"@) is None,
        exact_attribute_1("DisplayIntensity"@) is None,
        exact_attribute_1("DMXInput"@) is None,
        exact_attribute_1("NoFeature"@) is None,
        exact_attribute_1("LampPowerMode"@) is None,
        exact_attribute_1("Fans"@) is None,
        exact_attribute_1("ShaperRot"@) is None,
        exact_attribute_1("ShaperMacros"@) is None,
        exact_attribute_1("ShaperMacrosSpeed"@) is None,
        exact_attribute_1("Video"@) is None,
        exact_attribute_1("VideoBlendMode"@) is None,
        exact_attribute_1("InputSource"@) is None,
        exact_attribute_1("FieldOfView"@) is None,
{
    reveal(exact_attribute_1);
    lemma_name_lengths_1();
    lemma_name_lengths_3();
    reveal_strlit("IntensityMSpeed");
    reveal_strlit("ColorRGB_Yellow");
    assert("ColorRGB_Yellow"@[0] != "IntensityMSpeed"@[0]);
    reveal_strlit("IntensityMSpeed");
    reveal_strlit("VideoSaturation");
    assert("VideoSaturation"@[0] != "IntensityMSpeed"@[0]);
    reveal_strlit("IntensityMSpeed");
    reveal_strlit("VideoBrightness");
    assert("VideoBrightness"@[0] != "IntensityMSpeed"@[0]);
    reveal_strlit("IntensityMSpeed");
    reveal_strlit("VideoKeyColor_R");
    assert("VideoKeyColor_R"@[0] != "IntensityMSpeed"@[0]);
    reveal_strlit("IntensityMSpeed");
    reveal_strlit("VideoKeyColor_G");
    assert("VideoKeyColor_G"@[0] != "IntensityMSpeed"@[0]);
    reveal_strlit("IntensityMSpeed");
    reveal_strlit("VideoKeyColor_B");
    assert("VideoKeyColor_B"@[0] != "IntensityMSpeed"@[0]);
    reveal_strlit("IntensityMSpeed");
    reveal_strlit("StrobeFrequency");
    assert("StrobeFrequency"@[0] != "IntensityMSpeed"@[0]);
    reveal_strlit("IntensityMSpeed");
    reveal_strlit("StrobeModePulse");
    assert("StrobeModePulse"@[0] != "IntensityMSpeed"@[0]);
    reveal_strlit("PositionMSpeed");
    reveal_strlit("HSB_Saturation");
    assert("HSB_Saturation"@[0] != "PositionMSpeed"@[0]);
    reveal_strlit("PositionMSpeed");
    reveal_strlit("HSB_Brightness");
    assert("HSB_Brightness"@[0] != "PositionMSpeed"@[0]);
    reveal_strlit("PositionMSpeed");
    reveal_strlit("CIE_Brightness");
    assert("CIE_Brightness"@[0] != "PositionMSpeed"@[0]);
    reveal_strlit("PositionMSpeed");
    reveal_strlit("ColorRGB_Green");
    assert("ColorRGB_Green"@[0] != "PositionMSpeed"@[0]);
    reveal_strlit("PositionMSpeed");
    reveal_strlit("StrobeDuration");
    assert("StrobeDuration"@[0] != "PositionMSpeed"@[0]);
    reveal_strlit("PositionMSpeed");
    reveal_strlit("IrisPulseClose");
    assert("IrisPulseClose"@[0] != "PositionMSpeed"@[0]);
    reveal_strlit("ColorMixMSpeed");
    reveal_strlit("HSB_Saturation");
    assert("HSB_Saturation"@[0] != "ColorMixMSpeed"@[0]);
    reveal_strlit("ColorMixMSpeed");
    reveal_strlit("HSB_Brightness");
    assert("HSB_Brightness"@[0] != "ColorMixMSpeed"@[0]);
    reveal_strlit("ColorMixMSpeed");
    reveal_strlit("CIE_Brightness");
    assert("CIE_Brightness"@[1] != "ColorMixMSpeed"@[1]);
    reveal_strlit("ColorMixMSpeed");
    reveal_strlit("ColorRGB_Green");
    assert("ColorRGB_Green"@[5] != "ColorMixMSpeed"@[5]);
    reveal_strlit("ColorMixMSpeed");
    reveal_strlit("StrobeDuration");
    assert("StrobeDuration"@[0] != "ColorMixMSpeed"@[0]);
    reveal_strlit("ColorMixMSpeed");
    reveal_strlit("IrisPulseClose");
    assert("IrisPulseClose"@[0] != "ColorMixMSpeed"@[0]);
    reveal_strlit("IrisMSpeed");
    reveal_strlit("StrobeRate");
    assert("StrobeRate"@[0] != "IrisMSpeed"@[0]);
    reveal_strlit("IrisMSpeed");
    reveal_strlit("IrisStrobe");
    assert("IrisStrobe"@[4] != "IrisMSpeed"@[4]);
    reveal_strlit("FocusMSpeed");
    reveal_strlit("HSB_Quality");
    assert("HSB_Quality"@[0] != "FocusMSpeed"@[0]);
    reveal_strlit("ZoomMSpeed");
    reveal_strlit("StrobeRate");
    assert("StrobeRate"@[0] != "ZoomMSpeed"@[0]);
    reveal_strlit("ZoomMSpeed");
    reveal_strlit("IrisStrobe");
    assert("IrisStrobe"@[0] != "ZoomMSpeed"@[0]);
    reveal_strlit("FrameMSpeed");
    reveal_strlit("HSB_Quality");
    assert("HSB_Quality"@[0] != "FrameMSpeed"@[0]);
    reveal_strlit("GlobalMSpeed");
    reveal_strlit("ColorRGB_Red");
    assert("ColorRGB_Red"@[0] != "GlobalMSpeed"@[0]);
    reveal_strlit("GlobalMSpeed");
    reveal_strlit("VideoBoost_R");
    assert("VideoBoost_R"@[0] != "GlobalMSpeed"@[0]);
    reveal_strlit("GlobalMSpeed");
    reveal_strlit("VideoBoost_G");
    assert("VideoBoost_G"@[0] != "GlobalMSpeed"@[0]);
    reveal_strlit("GlobalMSpeed");
    reveal_strlit("VideoBoost_B");
    assert("VideoBoost_B"@[0] != "GlobalMSpeed"@[0]);
    reveal_strlit("ReflectorAdjust");
    reveal_strlit("ColorRGB_Yellow");
    assert("ColorRGB_Yellow"@[0] != "ReflectorAdjust"@[0]);
    reveal_strlit("ReflectorAdjust");
    reveal_strlit("VideoSaturation");
    assert("VideoSaturation"@[0] != "ReflectorAdjust"@[0]);
    reveal_strlit("ReflectorAdjust");
    reveal_strlit("VideoBrightness");
    assert("VideoBrightness"@[0] != "ReflectorAdjust"@[0]);
    reveal_strlit("ReflectorAdjust");
    reveal_strlit("VideoKeyColor_R");
    assert("VideoKeyColor_R"@[0] != "ReflectorAdjust"@[0]);
    reveal_strlit("ReflectorAdjust");
    reveal_strlit("VideoKeyColor_G");
    assert("VideoKeyColor_G"@[0] != "ReflectorAdjust"@[0]);
    reveal_strlit("ReflectorAdjust");
    reveal_strlit("VideoKeyColor_B");
    assert("VideoKeyColor_B"@[0] != "ReflectorAdjust"@[0]);
    reveal_strlit("ReflectorAdjust");
    reveal_strlit("StrobeFrequency");
    assert("StrobeFrequency"@[0] != "ReflectorAdjust"@[0]);
    reveal_strlit("ReflectorAdjust");
    reveal_strlit("StrobeModePulse");
    assert("StrobeModePulse"@[0] != "ReflectorAdjust"@[0]);
    reveal_strlit("DimmerReset");
    reveal_strlit("HSB_Quality");
    assert("HSB_Quality"@[0] != "DimmerReset"@[0]);
    reveal_strlit("ShutterReset");
    reveal_strlit("ColorRGB_Red");
    assert("ColorRGB_Red"@[0] != "ShutterReset"@[0]);
    reveal_strlit("ShutterReset");
    reveal_strlit("VideoBoost_R");
    assert("VideoBoost_R"@[0] != "ShutterReset"@[0]);
    reveal_strlit("ShutterReset");
    reveal_strlit("VideoBoost_G");
    assert("VideoBoost_G"@[0] != "ShutterReset"@[0]);
    reveal_strlit("ShutterReset");
    reveal_strlit("VideoBoost_B");
    assert("VideoBoost_B"@[0] != "ShutterReset"@[0]);
    reveal_strlit("ColorMixReset");
    reveal_strlit("ColorRGB_Blue");
    assert("ColorRGB_Blue"@[5] != "ColorMixReset"@[5]);
    reveal_strlit("ColorMixReset");
    reveal_strlit("ColorRGB_Cyan");
    assert("ColorRGB_Cyan"@[5] != "ColorMixReset"@[5]);
    reveal_strlit("ColorMixReset");
    reveal_strlit("VideoHueShift");
    assert("VideoHueShift"@[0] != "ColorMixReset"@[0]);
    reveal_strlit("ColorMixReset");
    reveal_strlit("VideoContrast");
    assert("VideoContrast"@[0] != "ColorMixReset"@[0]);
    reveal_strlit("ColorMixReset");
    reveal_strlit("IrisPulseOpen");
    assert("IrisPulseOpen"@[0] != "ColorMixReset"@[0]);
    reveal_strlit("ColorWheelReset");
    reveal_strlit("ColorRGB_Yellow");
    assert("ColorRGB_Yellow"@[5] != "ColorWheelReset"@[5]);
    reveal_strlit("ColorWheelReset");
    reveal_strlit("VideoSaturation");
    assert("VideoSaturation"@[0] != "ColorWheelReset"@[0]);
    reveal_strlit("ColorWheelReset");
    reveal_strlit("VideoBrightness");
    assert("VideoBrightness"@[0] != "ColorWheelReset"@[0]);
    reveal_strlit("ColorWheelReset");
    reveal_strlit("VideoKeyColor_R");
    assert("VideoKeyColor_R"@[0] != "ColorWheelReset"@[0]);
    reveal_strlit("ColorWheelReset");
    reveal_strlit("VideoKeyColor_G");
    assert("VideoKeyColor_G"@[0] != "ColorWheelReset"@[0]);
    reveal_strlit("ColorWheelReset");
    reveal_strlit("VideoKeyColor_B");
    assert("VideoKeyColor_B"@[0] != "ColorWheelReset"@[0]);
    reveal_strlit("ColorWheelReset");
    reveal_strlit("StrobeFrequency");
    assert("StrobeFrequency"@[0] != "ColorWheelReset"@[0]);
    reveal_strlit("ColorWheelReset");
    reveal_strlit("StrobeModePulse");
    assert("StrobeModePulse"@[0] != "ColorWheelReset"@[0]);
    reveal_strlit("FocusReset");
    reveal_strlit("StrobeRate");
    assert("StrobeRate"@[0] != "FocusReset"@[0]);
    reveal_strlit("FocusReset");
    reveal_strlit("IrisStrobe");
    assert("IrisStrobe"@[0] != "FocusReset"@[0]);
    reveal_strlit("FrameReset");
    reveal_strlit("StrobeRate");
    assert("StrobeRate"@[0] != "FrameReset"@[0]);
    reveal_strlit("FrameReset");
    reveal_strlit("IrisStrobe");
    assert("IrisStrobe"@[0] != "FrameReset"@[0]);
    reveal_strlit("GoboWheelReset");
    reveal_strlit("HSB_Saturation");
    assert("HSB_Saturation"@[0] != "GoboWheelReset"@[0]);
    reveal_strlit("GoboWheelReset");
    reveal_strlit("HSB_Brightness");
    assert("HSB_Brightness"@[0] != "GoboWheelReset"@[0]);
    reveal_strlit("GoboWheelReset");
    reveal_strlit("CIE_Brightness");
    assert("CIE_Brightness"@[0] != "GoboWheelReset"@[0]);
    reveal_strlit("GoboWheelReset");
    reveal_strlit("ColorRGB_Green");
    assert("ColorRGB_Green"@[0] != "GoboWheelReset"@[0]);
    reveal_strlit("GoboWheelReset");
    reveal_strlit("StrobeDuration");
    assert("StrobeDuration"@[0] != "GoboWheelReset"@[0]);
    reveal_strlit("GoboWheelReset");
    reveal_strlit("IrisPulseClose");
    assert("IrisPulseClose"@[0] != "GoboWheelReset"@[0]);
    reveal_strlit("IntensityReset");
    reveal_strlit("HSB_Saturation");
    assert("HSB_Saturation"@[0] != "IntensityReset"@[0]);
    reveal_strlit("IntensityReset");
    reveal_strlit("HSB_Brightness");
    assert("HSB_Brightness"@[0] != "IntensityReset"@[0]);
    reveal_strlit("IntensityReset");
    reveal_strlit("CIE_Brightness");
    assert("CIE_Brightness"@[0] != "IntensityReset"@[0]);
    reveal_strlit("IntensityReset");
    reveal_strlit("ColorRGB_Green");
    assert("ColorRGB_Green"@[0] != "IntensityReset"@[0]);
    reveal_strlit("IntensityReset");
    reveal_strlit("StrobeDuration");
    assert("StrobeDuration"@[0] != "IntensityReset"@[0]);
    reveal_strlit("IntensityReset");
    reveal_strlit("IrisPulseClose");
    assert("IrisPulseClose"@[1] != "IntensityReset"@[1]);
    reveal_strlit("PositionReset");
    reveal_strlit("ColorRGB_Blue");
    assert("ColorRGB_Blue"@[0] != "PositionReset"@[0]);
    reveal_strlit("PositionReset");
    reveal_strlit("ColorRGB_Cyan");
    assert("ColorRGB_Cyan"@[0] != "PositionReset"@[0]);
    reveal_strlit("PositionReset");
    reveal_strlit("VideoHueShift");
    assert("VideoHueShift"@[0] != "PositionReset"@[0]);
    reveal_strlit("PositionReset");
    reveal_strlit("VideoContrast");
    assert("VideoContrast"@[0] != "PositionReset"@[0]);
    reveal_strlit("PositionReset");
    reveal_strlit("IrisPulseOpen");
    assert("IrisPulseOpen"@[0] != "PositionReset"@[0]);
    reveal_strlit("AnimationSystemReset");
    reveal_strlit("StrobeModePulseClose");
    assert("StrobeModePulseClose"@[0] != "AnimationSystemReset"@[0]);
    reveal_strlit("LampControl");
    reveal_strlit("HSB_Quality");
    assert("HSB_Quality"@[0] != "LampControl"@[0]);
    reveal_strlit("DisplayIntensity");
    reveal_strlit("ColorRGB_Magenta");
    assert("ColorRGB_Magenta"@[0] != "DisplayIntensity"@[0]);
    reveal_strlit("DisplayIntensity");
    reveal_strlit("ColorRGB_Quality");
    assert("ColorRGB_Quality"@[0] != "DisplayIntensity"@[0]);
    reveal_strlit("DisplayIntensity");
    reveal_strlit("StrobeModeStrobe");
    assert("StrobeModeStrobe"@[0] != "DisplayIntensity"@[0]);
    reveal_strlit("DisplayIntensity");
    reveal_strlit("StrobeModeRandom");
    assert("StrobeModeRandom"@[0] != "DisplayIntensity"@[0]);
    reveal_strlit("DisplayIntensity");
    reveal_strlit("StrobeModeEffect");
    assert("StrobeModeEffect"@[0] != "DisplayIntensity"@[0]);
    reveal_strlit("DisplayIntensity");
    reveal_strlit("IrisStrobeRandom");
    assert("IrisStrobeRandom"@[0] != "DisplayIntensity"@[0]);
    reveal_strlit("LampPowerMode");
    reveal_strlit("ColorRGB_Blue");
    assert("ColorRGB_Blue"@[0] != "LampPowerMode"@[0]);
    reveal_strlit("LampPowerMode");
    reveal_strlit("ColorRGB_Cyan");
    assert("ColorRGB_Cyan"@[0] != "LampPowerMode"@[0]);
    reveal_strlit("LampPowerMode");
    reveal_strlit("VideoHueShift");
    assert("VideoHueShift"@[0] != "LampPowerMode"@[0]);
    reveal_strlit("LampPowerMode");
    reveal_strlit("VideoContrast");
    assert("VideoContrast"@[0] != "LampPowerMode"@[0]);
    reveal_strlit("LampPowerMode");
    reveal_strlit("IrisPulseOpen");
    assert("IrisPulseOpen"@[0] != "LampPowerMode"@[0]);
    reveal_strlit("Fans");
    reveal_strlit("Tint");
    assert("Tint"@[0] != "Fans"@[0]);
    reveal_strlit("Fans");
    reveal_strlit("Iris");
    assert("Iris"@[0] != "Fans"@[0]);
    reveal_strlit("ShaperMacros");
    reveal_strlit("ColorRGB_Red");
    assert("ColorRGB_Red"@[0] != "ShaperMacros"@[0]);
    reveal_strlit("ShaperMacros");
    reveal_strlit("VideoBoost_R");
    assert("VideoBoost_R"@[0] != "ShaperMacros"@[0]);
    reveal_strlit("ShaperMacros");
    reveal_strlit("VideoBoost_G");
    assert("VideoBoost_G"@[0] != "ShaperMacros"@[0]);
    reveal_strlit("ShaperMacros");
    reveal_strlit("VideoBoost_B");
    assert("VideoBoost_B"@[0] != "ShaperMacros"@[0]);
    reveal_strlit("ShaperMacrosSpeed");
    reveal_strlit("VideoKeyIntensity");
    assert("VideoKeyIntensity"@[0] != "ShaperMacrosSpeed"@[0]);
    reveal_strlit("ShaperMacrosSpeed");
    reveal_strlit("VideoKeyTolerance");
    assert("VideoKeyTolerance"@[0] != "ShaperMacrosSpeed"@[0]);
    reveal_strlit("ShaperMacrosSpeed");
    reveal_strlit("StrobeModeShutter");
    assert("StrobeModeShutter"@[1] != "ShaperMacrosSpeed"@[1]);
    reveal_strlit("Video");
    reveal_strlit("CIE_X");
    assert("CIE_X"@[0] != "Video"@[0]);
    reveal_strlit("Video");
    reveal_strlit("CIE_Y");
    assert("CIE_Y"@[0] != "Video"@[0]);
    reveal_strlit("VideoBlendMode");
    reveal_strlit("HSB_Saturation");
    assert("HSB_Saturation"@[0] != "VideoBlendMode"@[0]);
    reveal_strlit("VideoBlendMode");
    reveal_strlit("HSB_Brightness");
    assert("HSB_Brightness"@[0] != "VideoBlendMode"@[0]);
    reveal_strlit("VideoBlendMode");
    reveal_strlit("CIE_Brightness");
    assert("CIE_Brightness"@[0] != "VideoBlendMode"@[0]);
    reveal_strlit("VideoBlendMode");
    reveal_strlit("ColorRGB_Green");
    assert("ColorRGB_Green"@[0] != "VideoBlendMode"@[0]);
    reveal_strlit("VideoBlendMode");
    reveal_strlit("StrobeDuration");
    assert("StrobeDuration"@[0] != "VideoBlendMode"@[0]);
    reveal_strlit("VideoBlendMode");
    reveal_strlit("IrisPulseClose");
    assert("IrisPulseClose"@[0] != "VideoBlendMode"@[0]);
    reveal_strlit("InputSource");
    reveal_strlit("HSB_Quality");
    assert("HSB_Quality"@[0] != "InputSource"@[0]);
    reveal_strlit("FieldOfView");
    reveal_strlit("HSB_Quality");
    assert("HSB_Quality"@[0] != "FieldOfView"@[0]);
}

/// No name of part 3 of the name table occurs in part 2.
proof fn lemma_names_3_not_in_2()
    ensures
        exact_attribute_2("IntensityMSpeed"@) is None,
        exact_attribute_2("PositionMSpeed"@) is None,
        exact_attribute_2("ColorMixMSpeed"@) is None,
        exact_attribute_2("ColorWheelSelectMSpeed"@) is None,
        exact_attribute_2("IrisMSpeed"@) is None,
        exact_attribute_2("FocusMSpeed"@) is None,
        exact_attribute_2("ZoomMSpeed"@) is None,
        exact_attribute_2("FrameMSpeed"@) is None,
        exact_attribute_2("GlobalMSpeed"@) is None,
        exact_attribute_2("ReflectorAdjust"@) is None,
        exact_attribute_2("FixtureGlobalReset"@) is None,
        exact_attribute_2("DimmerReset"@) is None,
        exact_attribute_2("ShutterReset"@) is None,
        exact_attribute_2("BeamReset"@) is None,
        exact_attribute_2("ColorMixReset"@) is None,
        exact_attribute_2("ColorWheelReset"@) is None,
        exact_attribute_2("FocusReset"@) is None,
        exact_attribute_2("FrameReset"@) is None,
        exact_attribute_2("GoboWheelReset"@) is None,
        exact_attribute_2("IntensityReset"@) is None,
        exact_attribute_2("IrisReset"@) is None,
        exact_attribute_2("PositionReset"@) is None,
        exact_attribute_2("PanReset"@) is None,
        exact_attribute_2("TiltReset"@) is None,
        exact_attribute_2("ZoomReset"@) is None,
        exact_attribute_2("CTBReset"@) is None,
        exact_attribute_2("CTOReset"@) is None,
        exact_attribute_2("CTCReset"@) is None,
        exact_attribute_2("AnimationSystemReset"@) is None,
        exact_attribute_2("FixtureCalibrationReset"@) is None,
        exact_attribute_2("Function"@) is None,
        exact_attribute_2("LampControl"@) is None,
        exact_attribute_2("DisplayIntensity"@) is None,
        exact_attribute_2("DMXInput"@) is None,
        exact_attribute_2("NoFeature"@) is None,
        exact_attribute_2("LampPowerMode"@) is None,
        exact_attribute_2("Fans"@) is None,
        exact_attribute_2("ShaperRot"@) is None,
        exact_attribute_2("ShaperMacros"@) is None,
        exact_attribute_2("ShaperMacrosSpeed"@) is None,
        exact_attribute_2("Video"@) is None,
        exact_attribute_2("VideoBlendMode"@) is None,
        exact_attribute_2("InputSource"@) is None,
        exact_attribute_2("FieldOfView"@) is None,
{
    reveal(exact_attribute_2);
    lemma_name_lengths_2();
    lemma_name_lengths_3();
    reveal_strlit("IntensityMSpeed");
    reveal_strlit("BeamShaperMacro");
    assert("BeamShaperMacro"@[0] != "IntensityMSpeed"@[0]);
    reveal_strlit("IntensityMSpeed");
    reveal_strlit("ColorUniformity");
    assert("ColorUniformity"@[0] != "IntensityMSpeed"@[0]);
    reveal_strlit("PositionMSpeed");
    reveal_strlit("ColorModelMode");
    assert("ColorModelMode"@[0] != "PositionMSpeed"@[0]);
    reveal_strlit("PositionMSpeed");
    reveal_strlit("FollowSpotMode");
    assert("FollowSpotMode"@[0] != "PositionMSpeed"@[0]);
    reveal_strlit("ColorMixMSpeed");
    reveal_strlit("ColorModelMode");
    assert("ColorModelMode"@[6] != "ColorMixMSpeed"@[6]);
    reveal_strlit("ColorMixMSpeed");
    reveal_strlit("FollowSpotMode");
    assert("FollowSpotMode"@[0] != "ColorMixMSpeed"@[0]);
    reveal_strlit("ColorWheelSelectMSpeed");
    reveal_strlit("ColorWheelShortcutMode");
    assert("ColorWheelShortcutMode"@[11] != "ColorWheelSelectMSpeed"@[11]);
    reveal_strlit("IrisMSpeed");
    reveal_strlit("BeamShaper");
    assert("BeamShaper"@[0] != "IrisMSpeed"@[0]);
    reveal_strlit("IrisMSpeed");
    reveal_strlit("DimmerMode");
    assert("DimmerMode"@[0] != "IrisMSpeed"@[0]);
    reveal_strlit("IrisMSpeed");
    reveal_strlit("YellowMode");
    assert("YellowMode"@[0] != "IrisMSpeed"@[0]);
    reveal_strlit("IrisMSpeed");
    reveal_strlit("WhiteCount");
    assert("WhiteCount"@[0] != "IrisMSpeed"@[0]);
    reveal_strlit("IrisMSpeed");
    reveal_strlit("StrobeMode");
    assert("StrobeMode"@[0] != "IrisMSpeed"@[0]);
    reveal_strlit("FocusMSpeed");
    reveal_strlit("EffectsSync");
    assert("EffectsSync"@[0] != "FocusMSpeed"@[0]);
    reveal_strlit("FocusMSpeed");
    reveal_strlit("DigitalZoom");
    assert("DigitalZoom"@[0] != "FocusMSpeed"@[0]);
    reveal_strlit("FocusMSpeed");
    reveal_strlit("DimmerCurve");
    assert("DimmerCurve"@[0] != "FocusMSpeed"@[0]);
    reveal_strlit("FocusMSpeed");
    reveal_strlit("LEDZoneMode");
    assert("LEDZoneMode"@[0] != "FocusMSpeed"@[0]);
    reveal_strlit("FocusMSpeed");
    reveal_strlit("PanTiltMode");
    assert("PanTiltMode"@[0] != "FocusMSpeed"@[0]);
    reveal_strlit("FocusMSpeed");
    reveal_strlit("MagentaMode");
    assert("MagentaMode"@[0] != "FocusMSpeed"@[0]);
    reveal_strlit("FocusMSpeed");
    reveal_strlit("CustomColor");
    assert("CustomColor"@[0] != "FocusMSpeed"@[0]);
    reveal_strlit("FocusMSpeed");
    reveal_strlit("UVStability");
    assert("UVStability"@[0] != "FocusMSpeed"@[0]);
    reveal_strlit("ZoomMSpeed");
    reveal_strlit("BeamShaper");
    assert("BeamShaper"@[0] != "ZoomMSpeed"@[0]);
    reveal_strlit("ZoomMSpeed");
    reveal_strlit("DimmerMode");
    assert("DimmerMode"@[0] != "ZoomMSpeed"@[0]);
    reveal_strlit("ZoomMSpeed");
    reveal_strlit("YellowMode");
    assert("YellowMode"@[0] != "ZoomMSpeed"@[0]);
    reveal_strlit("ZoomMSpeed");
    reveal_strlit("WhiteCount");
    assert("WhiteCount"@[0] != "ZoomMSpeed"@[0]);
    reveal_strlit("ZoomMSpeed");
    reveal_strlit("StrobeMode");
    assert("StrobeMode"@[0] != "ZoomMSpeed"@[0]);
    reveal_strlit("FrameMSpeed");
    reveal_strlit("EffectsSync");
    assert("EffectsSync"@[0] != "FrameMSpeed"@[0]);
    reveal_strlit("FrameMSpeed");
    reveal_strlit("DigitalZoom");
    assert("DigitalZoom"@[0] != "FrameMSpeed"@[0]);
    reveal_strlit("FrameMSpeed");
    reveal_strlit("DimmerCurve");
    assert("DimmerCurve"@[0] != "FrameMSpeed"@[0]);
    reveal_strlit("FrameMSpeed");
    reveal_strlit("LEDZoneMode");
    assert("LEDZoneMode"@[0] != "FrameMSpeed"@[0]);
    reveal_strlit("FrameMSpeed");
    reveal_strlit("PanTiltMode");
    assert("PanTiltMode"@[0] != "FrameMSpeed"@[0]);
    reveal_strlit("FrameMSpeed");
    reveal_strlit("MagentaMode");
    assert("MagentaMode"@[0] != "FrameMSpeed"@[0]);
    reveal_strlit("FrameMSpeed");
    reveal_strlit("CustomColor");
    assert("CustomColor"@[0] != "FrameMSpeed"@[0]);
    reveal_strlit("FrameMSpeed");
    reveal_strlit("UVStability");
    assert("UVStability"@[0] != "FrameMSpeed"@[0]);
    reveal_strlit("GlobalMSpeed");
    reveal_strlit("ZoomModeSpot");
    assert("ZoomModeSpot"@[0] != "GlobalMSpeed"@[0]);
    reveal_strlit("GlobalMSpeed");
    reveal_strlit("ZoomModeBeam");
    assert("ZoomModeBeam"@[0] != "GlobalMSpeed"@[0]);
    reveal_strlit("GlobalMSpeed");
    reveal_strlit("BlackoutMode");
    assert("BlackoutMode"@[0] != "GlobalMSpeed"@[0]);
    reveal_strlit("GlobalMSpeed");
    reveal_strlit("LEDFrequency");
    assert("LEDFrequency"@[0] != "GlobalMSpeed"@[0]);
    reveal_strlit("GlobalMSpeed");
    reveal_strlit("ColorMixMode");
    assert("ColorMixMode"@[0] != "GlobalMSpeed"@[0]);
    reveal_strlit("GlobalMSpeed");
    reveal_strlit("ColorControl");
    assert("ColorControl"@[0] != "GlobalMSpeed"@[0]);
    reveal_strlit("ReflectorAdjust");
    reveal_strlit("BeamShaperMacro");
    assert("BeamShaperMacro"@[0] != "ReflectorAdjust"@[0]);
    reveal_strlit("ReflectorAdjust");
    reveal_strlit("ColorUniformity");
    assert("ColorUniformity"@[0] != "ReflectorAdjust"@[0]);
    reveal_strlit("FixtureGlobalReset");
    reveal_strlit("ColorSettingsReset");
    assert("ColorSettingsReset"@[0] != "FixtureGlobalReset"@[0]);
    reveal_strlit("DimmerReset");
    reveal_strlit("EffectsSync");
    assert("EffectsSync"@[0] != "DimmerReset"@[0]);
    reveal_strlit("DimmerReset");
    reveal_strlit("DigitalZoom");
    assert("DigitalZoom"@[2] != "DimmerReset"@[2]);
    reveal_strlit("DimmerReset");
    reveal_strlit("DimmerCurve");
    assert("DimmerCurve"@[6] != "DimmerReset"@[6]);
    reveal_strlit("DimmerReset");
    reveal_strlit("LEDZoneMode");
    assert("LEDZoneMode"@[0] != "DimmerReset"@[0]);
    reveal_strlit("DimmerReset");
    reveal_strlit("PanTiltMode");
    assert("PanTiltMode"@[0] != "DimmerReset"@[0]);
    reveal_strlit("DimmerReset");
    reveal_strlit("MagentaMode");
    assert("MagentaMode"@[0] != "DimmerReset"@[0]);
    reveal_strlit("DimmerReset");
    reveal_strlit("CustomColor");
    assert("CustomColor"@[0] != "DimmerReset"@[0]);
    reveal_strlit("DimmerReset");
    reveal_strlit("UVStability");
    assert("UVStability"@[0] != "DimmerReset"@[0]);
    reveal_strlit("ShutterReset");
    reveal_strlit("ZoomModeSpot");
    assert("ZoomModeSpot"@[0] != "ShutterReset"@[0]);
    reveal_strlit("ShutterReset");
    reveal_strlit("ZoomModeBeam");
    assert("ZoomModeBeam"@[0] != "ShutterReset"@[0]);
    reveal_strlit("ShutterReset");
    reveal_strlit("BlackoutMode");
    assert("BlackoutMode"@[0] != "ShutterReset"@[0]);
    reveal_strlit("ShutterReset");
    reveal_strlit("LEDFrequency");
    assert("LEDFrequency"@[0] != "ShutterReset"@[0]);
    reveal_strlit("ShutterReset");
    reveal_strlit("ColorMixMode");
    assert("ColorMixMode"@[0] != "ShutterReset"@[0]);
    reveal_strlit("ShutterReset");
    reveal_strlit("ColorControl");
    assert("ColorControl"@[0] != "ShutterReset"@[0]);
    reveal_strlit("BeamReset");
    reveal_strlit("PixelMode");
    assert("PixelMode"@[0] != "BeamReset"@[0]);
    reveal_strlit("BeamReset");
    reveal_strlit("FocusMode");
    assert("FocusMode"@[0] != "BeamReset"@[0]);
    reveal_strlit("ColorMixReset");
    reveal_strlit("BeamShaperPos");
    assert("BeamShaperPos"@[0] != "ColorMixReset"@[0]);
    reveal_strlit("ColorMixReset");
    reveal_strlit("PositionModes");
    assert("PositionModes"@[0] != "ColorMixReset"@[0]);
    reveal_strlit("ColorMixReset");
    reveal_strlit("ChromaticMode");
    assert("ChromaticMode"@[1] != "ColorMixReset"@[1]);
    reveal_strlit("ColorWheelReset");
    reveal_strlit("BeamShaperMacro");
    assert("BeamShaperMacro"@[0] != "ColorWheelReset"@[0]);
    reveal_strlit("ColorWheelReset");
    reveal_strlit("ColorUniformity");
    assert("ColorUniformity"@[5] != "ColorWheelReset"@[5]);
    reveal_strlit("FocusReset");
    reveal_strlit("BeamShaper");
    assert("BeamShaper"@[0] != "FocusReset"@[0]);
    reveal_strlit("FocusReset");
    reveal_strlit("DimmerMode");
    assert("DimmerMode"@[0] != "FocusReset"@[0]);
    reveal_strlit("FocusReset");
    reveal_strlit("YellowMode");
    assert("YellowMode"@[0] != "FocusReset"@[0]);
    reveal_strlit("FocusReset");
    reveal_strlit("WhiteCount");
    assert("WhiteCount"@[0] != "FocusReset"@[0]);
    reveal_strlit("FocusReset");
    reveal_strlit("StrobeMode");
    assert("StrobeMode"@[0] != "FocusReset"@[0]);
    reveal_strlit("FrameReset");
    reveal_strlit("BeamShaper");
    assert("BeamShaper"@[0] != "FrameReset"@[0]);
    reveal_strlit("FrameReset");
    reveal_strlit("DimmerMode");
    assert("DimmerMode"@[0] != "FrameReset"@[0]);
    reveal_strlit("FrameReset");
    reveal_strlit("YellowMode");
    assert("YellowMode"@[0] != "FrameReset"@[0]);
    reveal_strlit("FrameReset");
    reveal_strlit("WhiteCount");
    assert("WhiteCount"@[0] != "FrameReset"@[0]);
    reveal_strlit("FrameReset");
    reveal_strlit("StrobeMode");
    assert("StrobeMode"@[0] != "FrameReset"@[0]);
    reveal_strlit("GoboWheelReset");
    reveal_strlit("ColorModelMode");
    assert("ColorModelMode"@[0] != "GoboWheelReset"@[0]);
    reveal_strlit("GoboWheelReset");
    reveal_strlit("FollowSpotMode");
    assert("FollowSpotMode"@[0] != "GoboWheelReset"@[0]);
    reveal_strlit("IntensityReset");
    reveal_strlit("ColorModelMode");
    assert("ColorModelMode"@[0] != "IntensityReset"@[0]);
    reveal_strlit("IntensityReset");
    reveal_strlit("FollowSpotMode");
    assert("FollowSpotMode"@[0] != "IntensityReset"@[0]);
    reveal_strlit("IrisReset");
    reveal_strlit("PixelMode");
    assert("PixelMode"@[0] != "IrisReset"@[0]);
    reveal_strlit("IrisReset");
    reveal_strlit("FocusMode");
    assert("FocusMode"@[0] != "IrisReset"@[0]);
    reveal_strlit("PositionReset");
    reveal_strlit("BeamShaperPos");
    assert("BeamShaperPos"@[0] != "PositionReset"@[0]);
    reveal_strlit("PositionReset");
    reveal_strlit("PositionModes");
    assert("PositionModes"@[8] != "PositionReset"@[8]);
    reveal_strlit("PositionReset");
    reveal_strlit("ChromaticMode");
    assert("ChromaticMode"@[0] != "PositionReset"@[0]);
    reveal_strlit("PanReset");
    reveal_strlit("TiltMode");
    assert("TiltMode"@[0] != "PanReset"@[0]);
    reveal_strlit("PanReset");
    reveal_strlit("CyanMode");
    assert("CyanMode"@[0] != "PanReset"@[0]);
    reveal_strlit("PanReset");
    reveal_strlit("ZoomMode");
    assert("ZoomMode"@[0] != "PanReset"@[0]);
    reveal_strlit("PanReset");
    reveal_strlit("IrisMode");
    assert("IrisMode"@[0] != "PanReset"@[0]);
    reveal_strlit("TiltReset");
    reveal_strlit("PixelMode");
    assert("PixelMode"@[0] != "TiltReset"@[0]);
    reveal_strlit("TiltReset");
    reveal_strlit("FocusMode");
    assert("FocusMode"@[0] != "TiltReset"@[0]);
    reveal_strlit("ZoomReset");
    reveal_strlit("PixelMode");
    assert("PixelMode"@[0] != "ZoomReset"@[0]);
    reveal_strlit("ZoomReset");
    reveal_strlit("FocusMode");
    assert("FocusMode"@[0] != "ZoomReset"@[0]);
    reveal_strlit("CTBReset");
    reveal_strlit("TiltMode");
    assert("TiltMode"@[0] != "CTBReset"@[0]);
    reveal_strlit("CTBReset");
    reveal_strlit("CyanMode");
    assert("CyanMode"@[1] != "CTBReset"@[1]);
    reveal_strlit("CTBReset");
    reveal_strlit("ZoomMode");
    assert("ZoomMode"@[0] != "CTBReset"@[0]);
    reveal_strlit("CTBReset");
    reveal_strlit("IrisMode");
    assert("IrisMode"@[0] != "CTBReset"@[0]);
    reveal_strlit("CTOReset");
    reveal_strlit("TiltMode");
    assert("TiltMode"@[0] != "CTOReset"@[0]);
    reveal_strlit("CTOReset");
    reveal_strlit("CyanMode");
    assert("CyanMode"@[1] != "CTOReset"@[1]);
    reveal_strlit("CTOReset");
    reveal_strlit("ZoomMode");
    assert("ZoomMode"@[0] != "CTOReset"@[0]);
    reveal_strlit("CTOReset");
    reveal_strlit("IrisMode");
    assert("IrisMode"@[0] != "CTOReset"@[0]);
    reveal_strlit("CTCReset");
    reveal_strlit("TiltMode");
    assert("TiltMode"@[0] != "CTCReset"@[0]);
    reveal_strlit("CTCReset");
    reveal_strlit("CyanMode");
    assert("CyanMode"@[1] != "CTCReset"@[1]);
    reveal_strlit("CTCReset");
    reveal_strlit("ZoomMode");
    assert("ZoomMode"@[0] != "CTCReset"@[0]);
    reveal_strlit("CTCReset");
    reveal_strlit("IrisMode");
    assert("IrisMode"@[0] != "CTCReset"@[0]);
    reveal_strlit("AnimationSystemReset");
    reveal_strlit("IrisRandomPulseClose");
    assert("IrisRandomPulseClose"@[0] != "AnimationSystemReset"@[0]);
    reveal_strlit("AnimationSystemReset");
    reveal_strlit("ColorCalibrationMode");
    assert("ColorCalibrationMode"@[0] != "AnimationSystemReset"@[0]);
    reveal_strlit("AnimationSystemReset");
    reveal_strlit("WavelengthCorrection");
    assert("WavelengthCorrection"@[0] != "AnimationSystemReset"@[0]);
    reveal_strlit("Function");
    reveal_strlit("TiltMode");
    assert("TiltMode"@[0] != "Function"@[0]);
    reveal_strlit("Function");
    reveal_strlit("CyanMode");
    assert("CyanMode"@[0] != "Function"@[0]);
    reveal_strlit("Function");
    reveal_strlit("ZoomMode");
    assert("ZoomMode"@[0] != "Function"@[0]);
    reveal_strlit("Function");
    reveal_strlit("IrisMode");
    assert("IrisMode"@[0] != "Function"@[0]);
    reveal_strlit("LampControl");
    reveal_strlit("EffectsSync");
    assert("EffectsSync"@[0] != "LampControl"@[0]);
    reveal_strlit("LampControl");
    reveal_strlit("DigitalZoom");
    assert("DigitalZoom"@[0] != "LampControl"@[0]);
    reveal_strlit("LampControl");
    reveal_strlit("DimmerCurve");
    assert("DimmerCurve"@[0] != "LampControl"@[0]);
    reveal_strlit("LampControl");
    reveal_strlit("LEDZoneMode");
    assert("LEDZoneMode"@[1] != "LampControl"@[1]);
    reveal_strlit("LampControl");
    reveal_strlit("PanTiltMode");
    assert("PanTiltMode"@[0] != "LampControl"@[0]);
    reveal_strlit("LampControl");
    reveal_strlit("MagentaMode");
    assert("MagentaMode"@[0] != "LampControl"@[0]);
    reveal_strlit("LampControl");
    reveal_strlit("CustomColor");
    assert("CustomColor"@[0] != "LampControl"@[0]);
    reveal_strlit("LampControl");
    reveal_strlit("UVStability");
    assert("UVStability"@[0] != "LampControl"@[0]);
    reveal_strlit("DisplayIntensity");
    reveal_strlit("ColorConsistency");
    assert("ColorConsistency"@[0] != "DisplayIntensity"@[0]);
    reveal_strlit("DMXInput");
    reveal_strlit("TiltMode");
    assert("TiltMode"@[0] != "DMXInput"@[0]);
    reveal_strlit("DMXInput");
    reveal_strlit("CyanMode");
    assert("CyanMode"@[0] != "DMXInput"@[0]);
    reveal_strlit("DMXInput");
    reveal_strlit("ZoomMode");
    assert("ZoomMode"@[0] != "DMXInput"@[0]);
    reveal_strlit("DMXInput");
    reveal_strlit("IrisMode");
    assert("IrisMode"@[0] != "DMXInput"@[0]);
    reveal_strlit("NoFeature");
    reveal_strlit("PixelMode");
    assert("PixelMode"@[0] != "NoFeature"@[0]);
    reveal_strlit("NoFeature");
    reveal_strlit("FocusMode");
    assert("FocusMode"@[0] != "NoFeature"@[0]);
    reveal_strlit("LampPowerMode");
    reveal_strlit("BeamShaperPos");
    assert("BeamShaperPos"@[0] != "LampPowerMode"@[0]);
    reveal_strlit("LampPowerMode");
    reveal_strlit("PositionModes");
    assert("PositionModes"@[0] != "LampPowerMode"@[0]);
    reveal_strlit("LampPowerMode");
    reveal_strlit("ChromaticMode");
    assert("ChromaticMode"@[0] != "LampPowerMode"@[0]);
    reveal_strlit("Fans");
    reveal_strlit("Zoom");
    assert("Zoom"@[0] != "Fans"@[0]);
    reveal_strlit("ShaperRot");
    reveal_strlit("PixelMode");
    assert("PixelMode"@[0] != "ShaperRot"@[0]);
    reveal_strlit("ShaperRot");
    reveal_strlit("FocusMode");
    assert("FocusMode"@[0] != "ShaperRot"@[0]);
    reveal_strlit("ShaperMacros");
    reveal_strlit("ZoomModeSpot");
    assert("ZoomModeSpot"@[0] != "ShaperMacros"@[0]);
    reveal_strlit("ShaperMacros");
    reveal_strlit("ZoomModeBeam");
    assert("ZoomModeBeam"@[0] != "ShaperMacros"@[0]);
    reveal_strlit("ShaperMacros");
    reveal_strlit("BlackoutMode");
    assert("BlackoutMode"@[0] != "ShaperMacros"@[0]);
    reveal_strlit("ShaperMacros");
    reveal_strlit("LEDFrequency");
    assert("LEDFrequency"@[0] != "ShaperMacros"@[0]);
    reveal_strlit("ShaperMacros");
    reveal_strlit("ColorMixMode");
    assert("ColorMixMode"@[0] != "ShaperMacros"@[0]);
    reveal_strlit("ShaperMacros");
    reveal_strlit("ColorControl");
    assert("ColorControl"@[0] != "ShaperMacros"@[0]);
    reveal_strlit("VideoBlendMode");
    reveal_strlit("ColorModelMode");
    assert("ColorModelMode"@[0] != "VideoBlendMode"@[0]);
    reveal_strlit("VideoBlendMode");
    reveal_strlit("FollowSpotMode");
    assert("FollowSpotMode"@[0] != "VideoBlendMode"@[0]);
    reveal_strlit("InputSource");
    reveal_strlit("EffectsSync");
    assert("EffectsSync"@[0] != "InputSource"@[0]);
    reveal_strlit("InputSource");
    reveal_strlit("DigitalZoom");
    assert("DigitalZoom"@[0] != "InputSource"@[0]);
    reveal_strlit("InputSource");
    reveal_strlit("DimmerCurve");
    assert("DimmerCurve"@[0] != "InputSource"@[0]);
    reveal_strlit("InputSource");
    reveal_strlit("LEDZoneMode");
    assert("LEDZoneMode"@[0] != "InputSource"@[0]);
    reveal_strlit("InputSource");
    reveal_strlit("PanTiltMode");
    assert("PanTiltMode"@[0] != "InputSource"@[0]);
    reveal_strlit("InputSource");
    reveal_strlit("MagentaMode");
    assert("MagentaMode"@[0] != "InputSource"@[0]);
    reveal_strlit("InputSource");
    reveal_strlit("CustomColor");
    assert("CustomColor"@[0] != "InputSource"@[0]);
    reveal_strlit("InputSource");
    reveal_strlit("UVStability");
    assert("UVStability"@[0] != "InputSource"@[0]);
    reveal_strlit("FieldOfView");
    reveal_strlit("EffectsSync");
    assert("EffectsSync"@[0] != "FieldOfView"@[0]);
    reveal_strlit("FieldOfView");
    reveal_strlit("DigitalZoom");
    assert("DigitalZoom"@[0] != "FieldOfView"@[0]);
    reveal_strlit("FieldOfView");
    reveal_strlit("DimmerCurve");
    assert("DimmerCurve"@[0] != "FieldOfView"@[0]);
    reveal_strlit("FieldOfView");
    reveal_strlit("LEDZoneMode");
    assert("LEDZoneMode"@[0] != "FieldOfView"@[0]);
    reveal_strlit("FieldOfView");
    reveal_strlit("PanTiltMode");
    assert("PanTiltMode"@[0] != "FieldOfView"@[0]);
    reveal_strlit("FieldOfView");
    reveal_strlit("MagentaMode");
    assert("MagentaMode"@[0] != "FieldOfView"@[0]);
    reveal_strlit("FieldOfView");
    reveal_strlit("CustomColor");
    assert("CustomColor"@[0] != "FieldOfView"@[0]);
    reveal_strlit("FieldOfView");
    reveal_strlit("UVStability");
    assert("UVStability"@[0] != "FieldOfView"@[0]);
}

/// The unnumbered attributes of part 0 of the name table are found by the
/// names they are written as.
proof fn lemma_units_exact_0()
    ensures
        exact_attribute("Dimmer"@) == Some(FixtureChannel3Attribute::Dimmer),
        exact_attribute("Pan"@) == Some(FixtureChannel3Attribute::Pan),
        exact_attribute("Tilt"@) == Some(FixtureChannel3Attribute::Tilt),
        exact_attribute("PanRotate"@) == Some(FixtureChannel3Attribute::PanRotate),
        exact_attribute("TiltRotate"@) == Some(FixtureChannel3Attribute::TiltRotate),
        exact_attribute("PositionEffect"@) == Some(FixtureChannel3Attribute::PositionEffect),
        exact_attribute("PositionEffectRate"@) == Some(FixtureChannel3Attribute::PositionEffectRate),
        exact_attribute("PositionEffectFade"@) == Some(FixtureChannel3Attribute::PositionEffectFade),
        exact_attribute("XYZ_X"@) == Some(FixtureChannel3Attribute::XyzX),
        exact_attribute("XYZ_Y"@) == Some(FixtureChannel3Attribute::XyzY),
        exact_attribute("XYZ_Z"@) == Some(FixtureChannel3Attribute::XyzZ),
        exact_attribute("Rot_X"@) == Some(FixtureChannel3Attribute::RotX),
        exact_attribute("Rot_Y"@) == Some(FixtureChannel3Attribute::RotY),
        exact_attribute("Rot_Z"@) == Some(FixtureChannel3Attribute::RotZ),
        exact_attribute("Scale_X"@) == Some(FixtureChannel3Attribute::ScaleX),
        exact_attribute("Scale_Y"@) == Some(FixtureChannel3Attribute::ScaleY),
        exact_attribute("Scale_Z"@) == Some(FixtureChannel3Attribute::ScaleZ),
        exact_attribute("Scale_XYZ"@) == Some(FixtureChannel3Attribute::ScaleXYZ),
        exact_attribute("PlayMode"@) == Some(FixtureChannel3Attribute::PlayMode),
        exact_attribute("PlayBegin"@) == Some(FixtureChannel3Attribute::PlayBegin),
        exact_attribute("PlayEnd"@) == Some(FixtureChannel3Attribute::PlayEnd),
        exact_attribute("PlaySpeed"@) == Some(FixtureChannel3Attribute::PlaySpeed),
        exact_attribute("ColorAdd_R"@) == Some(FixtureChannel3Attribute::ColorAddR),
        exact_attribute("ColorAdd_G"@) == Some(FixtureChannel3Attribute::ColorAddG),
        exact_attribute("ColorAdd_B"@) == Some(FixtureChannel3Attribute::ColorAddB),
        exact_attribute("ColorAdd_C"@) == Some(FixtureChannel3Attribute::ColorAddC),
        exact_attribute("ColorAdd_M"@) == Some(FixtureChannel3Attribute::ColorAddM),
        exact_attribute("ColorAdd_Y"@) == Some(FixtureChannel3Attribute::ColorAddY),
        exact_attribute("ColorAdd_RY"@) == Some(FixtureChannel3Attribute::ColorAddRY),
        exact_attribute("ColorAdd_GY"@) == Some(FixtureChannel3Attribute::ColorAddGY),
        exact_attribute("ColorAdd_GC"@) == Some(FixtureChannel3Attribute::ColorAddGC),
        exact_attribute("ColorAdd_BC"@) == Some(FixtureChannel3Attribute::ColorAddBC),
        exact_attribute("ColorAdd_BM"@) == Some(FixtureChannel3Attribute::ColorAddBM),
        exact_attribute("ColorAdd_RM"@) == Some(FixtureChannel3Attribute::ColorAddRM),
        exact_attribute("ColorAdd_W"@) == Some(FixtureChannel3Attribute::ColorAddW),
        exact_attribute("ColorAdd_WW"@) == Some(FixtureChannel3Attribute::ColorAddWW),
        exact_attribute("ColorAdd_CW"@) == Some(FixtureChannel3Attribute::ColorAddCW),
        exact_attribute("ColorAdd_UV"@) == Some(FixtureChannel3Attribute::ColorAddUV),
        exact_attribute("ColorSub_R"@) == Some(FixtureChannel3Attribute::ColorSubR),
        exact_attribute("ColorSub_G"@) == Some(FixtureChannel3Attribute::ColorSubG),
        exact_attribute("ColorSub_B"@) == Some(FixtureChannel3Attribute::ColorSubB),
        exact_attribute("ColorSub_C"@) == Some(FixtureChannel3Attribute::ColorSubC),
        exact_attribute("ColorSub_M"@) == Some(FixtureChannel3Attribute::ColorSubM),
        exact_attribute("ColorSub_Y"@) == Some(FixtureChannel3Attribute::ColorSubY),
        exact_attribute("CTO"@) == Some(FixtureChannel3Attribute::Cto),
        exact_attribute("CTC"@) == Some(FixtureChannel3Attribute::Ctc),
{
    lemma_names_0_read();
}

/// The unnumbered attributes of part 0 of the name table read back from
/// their written names.
#[verifier::rlimit(100)]
proof fn lemma_units_round_trip_0(a: FixtureChannel3Attribute)
    requires
        a is Dimmer || a is Pan || a is Tilt || a is PanRotate || a is TiltRotate || a is PositionEffect || a is PositionEffectRate || a is PositionEffectFade || a is XyzX || a is XyzY || a is XyzZ || a is RotX || a is RotY || a is RotZ || a is ScaleX || a is ScaleY || a is ScaleZ || a is ScaleXYZ || a is PlayMode || a is PlayBegin || a is PlayEnd || a is PlaySpeed || a is ColorAddR || a is ColorAddG || a is ColorAddB || a is ColorAddC || a is ColorAddM || a is ColorAddY || a is ColorAddRY || a is ColorAddGY || a is ColorAddGC || a is ColorAddBC || a is ColorAddBM || a is ColorAddRM || a is ColorAddW || a is ColorAddWW || a is ColorAddCW || a is ColorAddUV || a is ColorSubR || a is ColorSubG || a is ColorSubB || a is ColorSubC || a is ColorSubM || a is ColorSubY || a is Cto || a is Ctc,
    ensures
        attribute_from_text(attribute_text(a)) == Some(a),
{
    lemma_units_exact_0();
    match a {
        FixtureChannel3Attribute::Dimmer => lemma_from_text_of_exact("Dimmer"@),
        FixtureChannel3Attribute::Pan => lemma_from_text_of_exact("Pan"@),
        FixtureChannel3Attribute::Tilt => lemma_from_text_of_exact("Tilt"@),
        FixtureChannel3Attribute::PanRotate => lemma_from_text_of_exact("PanRotate"@),
        FixtureChannel3Attribute::TiltRotate => lemma_from_text_of_exact("TiltRotate"@),
        FixtureChannel3Attribute::PositionEffect => lemma_from_text_of_exact("PositionEffect"@),
        FixtureChannel3Attribute::PositionEffectRate => lemma_from_text_of_exact("PositionEffectRate"@),
        FixtureChannel3Attribute::PositionEffectFade => lemma_from_text_of_exact("PositionEffectFade"@),
        FixtureChannel3Attribute::XyzX => lemma_from_text_of_exact("XYZ_X"@),
        FixtureChannel3Attribute::XyzY => lemma_from_text_of_exact("XYZ_Y"@),
        FixtureChannel3Attribute::XyzZ => lemma_from_text_of_exact("XYZ_Z"@),
        FixtureChannel3Attribute::RotX => lemma_from_text_of_exact("Rot_X"@),
        FixtureChannel3Attribute::RotY => lemma_from_text_of_exact("Rot_Y"@),
        FixtureChannel3Attribute::RotZ => lemma_from_text_of_exact("Rot_Z"@),
        FixtureChannel3Attribute::ScaleX => lemma_from_text_of_exact("Scale_X"@),
        FixtureChannel3Attribute::ScaleY => lemma_from_text_of_exact("Scale_Y"@),
        FixtureChannel3Attribute::ScaleZ => lemma_from_text_of_exact("Scale_Z"@),
        FixtureChannel3Attribute::ScaleXYZ => lemma_from_text_of_exact("Scale_XYZ"@),
        FixtureChannel3Attribute::PlayMode => lemma_from_text_of_exact("PlayMode"@),
        FixtureChannel3Attribute::PlayBegin => lemma_from_text_of_exact("PlayBegin"@),
        FixtureChannel3Attribute::PlayEnd => lemma_from_text_of_exact("PlayEnd"@),
        FixtureChannel3Attribute::PlaySpeed => lemma_from_text_of_exact("PlaySpeed"@),
        FixtureChannel3Attribute::ColorAddR => lemma_from_text_of_exact("ColorAdd_R"@),
        FixtureChannel3Attribute::ColorAddG => lemma_from_text_of_exact("ColorAdd_G"@),
        FixtureChannel3Attribute::ColorAddB => lemma_from_text_of_exact("ColorAdd_B"@),
        FixtureChannel3Attribute::ColorAddC => lemma_from_text_of_exact("ColorAdd_C"@),
        FixtureChannel3Attribute::ColorAddM => lemma_from_text_of_exact("ColorAdd_M"@),
        FixtureChannel3Attribute::ColorAddY => lemma_from_text_of_exact("ColorAdd_Y"@),
        FixtureChannel3Attribute::ColorAddRY => lemma_from_text_of_exact("ColorAdd_RY"@),
        FixtureChannel3Attribute::ColorAddGY => lemma_from_text_of_exact("ColorAdd_GY"@),
        FixtureChannel3Attribute::ColorAddGC => lemma_from_text_of_exact("ColorAdd_GC"@),
        FixtureChannel3Attribute::ColorAddBC => lemma_from_text_of_exact("ColorAdd_BC"@),
        FixtureChannel3Attribute::ColorAddBM => lemma_from_text_of_exact("ColorAdd_BM"@),
        FixtureChannel3Attribute::ColorAddRM => lemma_from_text_of_exact("ColorAdd_RM"@),
        FixtureChannel3Attribute::ColorAddW => lemma_from_text_of_exact("ColorAdd_W"@),
        FixtureChannel3Attribute::ColorAddWW => lemma_from_text_of_exact("ColorAdd_WW"@),
        FixtureChannel3Attribute::ColorAddCW => lemma_from_text_of_exact("ColorAdd_CW"@),
        FixtureChannel3Attribute::ColorAddUV => lemma_from_text_of_exact("ColorAdd_UV"@),
        FixtureChannel3Attribute::ColorSubR => lemma_from_text_of_exact("ColorSub_R"@),
        FixtureChannel3Attribute::ColorSubG => lemma_from_text_of_exact("ColorSub_G"@),
        FixtureChannel3Attribute::ColorSubB => lemma_from_text_of_exact("ColorSub_B"@),
        FixtureChannel3Attribute::ColorSubC => lemma_from_text_of_exact("ColorSub_C"@),
        FixtureChannel3Attribute::ColorSubM => lemma_from_text_of_exact("ColorSub_M"@),
        FixtureChannel3Attribute::ColorSubY => lemma_from_text_of_exact("ColorSub_Y"@),
        FixtureChannel3Attribute::Cto => lemma_from_text_of_exact("CTO"@),
        FixtureChannel3Attribute::Ctc => lemma_from_text_of_exact("CTC"@),
        _ => {},
    }
}

/// The unnumbered attributes of part 1 of the name table are found by the
/// names they are written as.
proof fn lemma_units_exact_1()
    ensures
        exact_attribute("CTB"@) == Some(FixtureChannel3Attribute::Ctb),
        exact_attribute("Tint"@) == Some(FixtureChannel3Attribute::Tint),
        exact_attribute("HSB_Hue"@) == Some(FixtureChannel3Attribute::HsbHue),
        exact_attribute("HSB_Saturation"@) == Some(FixtureChannel3Attribute::HsbSaturation),
        exact_attribute("HSB_Brightness"@) == Some(FixtureChannel3Attribute::HsbBrightness),
        exact_attribute("HSB_Quality"@) == Some(FixtureChannel3Attribute::HsbQuality),
        exact_attribute("CIE_X"@) == Some(FixtureChannel3Attribute::CieX),
        exact_attribute("CIE_Y"@) == Some(FixtureChannel3Attribute::CieY),
        exact_attribute("CIE_Brightness"@) == Some(FixtureChannel3Attribute::CieBrightness),
        exact_attribute("ColorRGB_Red"@) == Some(FixtureChannel3Attribute::ColorRgbRed),
        exact_attribute("ColorRGB_Green"@) == Some(FixtureChannel3Attribute::ColorRgbGreen),
        exact_attribute("ColorRGB_Blue"@) == Some(FixtureChannel3Attribute::ColorRgbBlue),
        exact_attribute("ColorRGB_Cyan"@) == Some(FixtureChannel3Attribute::ColorRgbCyan),
        exact_attribute("ColorRGB_Magenta"@) == Some(FixtureChannel3Attribute::ColorRgbMagenta),
        exact_attribute("ColorRGB_Yellow"@) == Some(FixtureChannel3Attribute::ColorRgbYellow),
        exact_attribute("ColorRGB_Quality"@) == Some(FixtureChannel3Attribute::ColorRgbQuality),
        exact_attribute("VideoBoost_R"@) == Some(FixtureChannel3Attribute::VideoBoostR),
        exact_attribute("VideoBoost_G"@) == Some(FixtureChannel3Attribute::VideoBoostG),
        exact_attribute("VideoBoost_B"@) == Some(FixtureChannel3Attribute::VideoBoostB),
        exact_attribute("VideoHueShift"@) == Some(FixtureChannel3Attribute::VideoHueShift),
        exact_attribute("VideoSaturation"@) == Some(FixtureChannel3Attribute::VideoSaturation),
        exact_attribute("VideoBrightness"@) == Some(FixtureChannel3Attribute::VideoBrightness),
        exact_attribute("VideoContrast"@) == Some(FixtureChannel3Attribute::VideoContrast),
        exact_attribute("VideoKeyColor_R"@) == Some(FixtureChannel3Attribute::VideoKeyColorR),
        exact_attribute("VideoKeyColor_G"@) == Some(FixtureChannel3Attribute::VideoKeyColorG),
        exact_attribute("VideoKeyColor_B"@) == Some(FixtureChannel3Attribute::VideoKeyColorB),
        exact_attribute("VideoKeyIntensity"@) == Some(FixtureChannel3Attribute::VideoKeyIntensity),
        exact_attribute("VideoKeyTolerance"@) == Some(FixtureChannel3Attribute::VideoKeyTolerance),
        exact_attribute("StrobeDuration"@) == Some(FixtureChannel3Attribute::StrobeDuration),
        exact_attribute("StrobeRate"@) == Some(FixtureChannel3Attribute::StrobeRate),
        exact_attribute("StrobeFrequency"@) == Some(FixtureChannel3Attribute::StrobeFrequency),
        exact_attribute("StrobeModeShutter"@) == Some(FixtureChannel3Attribute::StrobeModeShutter),
        exact_attribute("StrobeModeStrobe"@) == Some(FixtureChannel3Attribute::StrobeModeStrobe),
        exact_attribute("StrobeModePulse"@) == Some(FixtureChannel3Attribute::StrobeModePulse),
        exact_attribute("StrobeModePulseOpen"@) == Some(FixtureChannel3Attribute::StrobeModePulseOpen),
        exact_attribute("StrobeModePulseClose"@) == Some(FixtureChannel3Attribute::StrobeModePulseClose),
        exact_attribute("StrobeModeRandom"@) == Some(FixtureChannel3Attribute::StrobeModeRandom),
        exact_attribute("StrobeModeRandomPulse"@) == Some(FixtureChannel3Attribute::StrobeModeRandomPulse),
        exact_attribute("StrobeModeRandomPulseOpen"@) == Some(FixtureChannel3Attribute::StrobeModeRandomPulseOpen),
        exact_attribute("StrobeModeRandomPulseClose"@) == Some(FixtureChannel3Attribute::StrobeModeRandomPulseClose),
        exact_attribute("StrobeModeEffect"@) == Some(FixtureChannel3Attribute::StrobeModeEffect),
        exact_attribute("Iris"@) == Some(FixtureChannel3Attribute::Iris),
        exact_attribute("IrisStrobe"@) == Some(FixtureChannel3Attribute::IrisStrobe),
        exact_attribute("IrisStrobeRandom"@) == Some(FixtureChannel3Attribute::IrisStrobeRandom),
        exact_attribute("IrisPulseClose"@) == Some(FixtureChannel3Attribute::IrisPulseClose),
        exact_attribute("IrisPulseOpen"@) == Some(FixtureChannel3Attribute::IrisPulseOpen),
{
    lemma_names_1_not_in_0();
    lemma_names_1_read();
}

/// The unnumbered attributes of part 1 of the name table read back from
/// their written names.
#[verifier::rlimit(100)]
proof fn lemma_units_round_trip_1(a: FixtureChannel3Attribute)
    requires
        a is Ctb || a is Tint || a is HsbHue || a is HsbSaturation || a is HsbBrightness || a is HsbQuality || a is CieX || a is CieY || a is CieBrightness || a is ColorRgbRed || a is ColorRgbGreen || a is ColorRgbBlue || a is ColorRgbCyan || a is ColorRgbMagenta || a is ColorRgbYellow || a is ColorRgbQuality || a is VideoBoostR || a is VideoBoostG || a is VideoBoostB || a is VideoHueShift || a is VideoSaturation || a is VideoBrightness || a is VideoContrast || a is VideoKeyColorR || a is VideoKeyColorG || a is VideoKeyColorB || a is VideoKeyIntensity || a is VideoKeyTolerance || a is StrobeDuration || a is StrobeRate || a is StrobeFrequency || a is StrobeModeShutter || a is StrobeModeStrobe || a is StrobeModePulse || a is StrobeModePulseOpen || a is StrobeModePulseClose || a is StrobeModeRandom || a is StrobeModeRandomPulse || a is StrobeModeRandomPulseOpen || a is StrobeModeRandomPulseClose || a is StrobeModeEffect || a is Iris || a is IrisStrobe || a is IrisStrobeRandom || a is IrisPulseClose || a is IrisPulseOpen,
    ensures
        attribute_from_text(attribute_text(a)) == Some(a),
{
    lemma_units_exact_1();
    match a {
        FixtureChannel3Attribute::Ctb => lemma_from_text_of_exact("CTB"@),
        FixtureChannel3Attribute::Tint => lemma_from_text_of_exact("Tint"@),
        FixtureChannel3Attribute::HsbHue => lemma_from_text_of_exact("HSB_Hue"@),
        FixtureChannel3Attribute::HsbSaturation => lemma_from_text_of_exact("HSB_Saturation"@),
        FixtureChannel3Attribute::HsbBrightness => lemma_from_text_of_exact("HSB_Brightness"@),
        FixtureChannel3Attribute::HsbQuality => lemma_from_text_of_exact("HSB_Quality"@),
        FixtureChannel3Attribute::CieX => lemma_from_text_of_exact("CIE_X"@),
        FixtureChannel3Attribute::CieY => lemma_from_text_of_exact("CIE_Y"@),
        FixtureChannel3Attribute::CieBrightness => lemma_from_text_of_exact("CIE_Brightness"@),
        FixtureChannel3Attribute::ColorRgbRed => lemma_from_text_of_exact("ColorRGB_Red"@),
        FixtureChannel3Attribute::ColorRgbGreen => lemma_from_text_of_exact("ColorRGB_Green"@),
        FixtureChannel3Attribute::ColorRgbBlue => lemma_from_text_of_exact("ColorRGB_Blue"@),
        FixtureChannel3Attribute::ColorRgbCyan => lemma_from_text_of_exact("ColorRGB_Cyan"@),
        FixtureChannel3Attribute::ColorRgbMagenta => lemma_from_text_of_exact("ColorRGB_Magenta"@),
        FixtureChannel3Attribute::ColorRgbYellow => lemma_from_text_of_exact("ColorRGB_Yellow"@),
        FixtureChannel3Attribute::ColorRgbQuality => lemma_from_text_of_exact("ColorRGB_Quality"@),
        FixtureChannel3Attribute::VideoBoostR => lemma_from_text_of_exact("VideoBoost_R"@),
        FixtureChannel3Attribute::VideoBoostG => lemma_from_text_of_exact("VideoBoost_G"@),
        FixtureChannel3Attribute::VideoBoostB => lemma_from_text_of_exact("VideoBoost_B"@),
        FixtureChannel3Attribute::VideoHueShift => lemma_from_text_of_exact("VideoHueShift"@),
        FixtureChannel3Attribute::VideoSaturation => lemma_from_text_of_exact("VideoSaturation"@),
        FixtureChannel3Attribute::VideoBrightness => lemma_from_text_of_exact("VideoBrightness"@),
        FixtureChannel3Attribute::VideoContrast => lemma_from_text_of_exact("VideoContrast"@),
        FixtureChannel3Attribute::VideoKeyColorR => lemma_from_text_of_exact("VideoKeyColor_R"@),
        FixtureChannel3Attribute::VideoKeyColorG => lemma_from_text_of_exact("VideoKeyColor_G"@),
        FixtureChannel3Attribute::VideoKeyColorB => lemma_from_text_of_exact("VideoKeyColor_B"@),
        FixtureChannel3Attribute::VideoKeyIntensity => lemma_from_text_of_exact("VideoKeyIntensity"@),
        FixtureChannel3Attribute::VideoKeyTolerance => lemma_from_text_of_exact("VideoKeyTolerance"@),
        FixtureChannel3Attribute::StrobeDuration => lemma_from_text_of_exact("StrobeDuration"@),
        FixtureChannel3Attribute::StrobeRate => lemma_from_text_of_exact("StrobeRate"@),
        FixtureChannel3Attribute::StrobeFrequency => lemma_from_text_of_exact("StrobeFrequency"@),
        FixtureChannel3Attribute::StrobeModeShutter => lemma_from_text_of_exact("StrobeModeShutter"@),
        FixtureChannel3Attribute::StrobeModeStrobe => lemma_from_text_of_exact("StrobeModeStrobe"@),
        FixtureChannel3Attribute::StrobeModePulse => lemma_from_text_of_exact("StrobeModePulse"@),
        FixtureChannel3Attribute::StrobeModePulseOpen => lemma_from_text_of_exact("StrobeModePulseOpen"@),
        FixtureChannel3Attribute::StrobeModePulseClose => lemma_from_text_of_exact("StrobeModePulseClose"@),
        FixtureChannel3Attribute::StrobeModeRandom => lemma_from_text_of_exact("StrobeModeRandom"@),
        FixtureChannel3Attribute::StrobeModeRandomPulse => lemma_from_text_of_exact("StrobeModeRandomPulse"@),
        FixtureChannel3Attribute::StrobeModeRandomPulseOpen => lemma_from_text_of_exact("StrobeModeRandomPulseOpen"@),
        FixtureChannel3Attribute::StrobeModeRandomPulseClose => lemma_from_text_of_exact("StrobeModeRandomPulseClose"@),
        FixtureChannel3Attribute::StrobeModeEffect => lemma_from_text_of_exact("StrobeModeEffect"@),
        FixtureChannel3Attribute::Iris => lemma_from_text_of_exact("Iris"@),
        FixtureChannel3Attribute::IrisStrobe => lemma_from_text_of_exact("IrisStrobe"@),
        FixtureChannel3Attribute::IrisStrobeRandom => lemma_from_text_of_exact("IrisStrobeRandom"@),
        FixtureChannel3Attribute::IrisPulseClose => lemma_from_text_of_exact("IrisPulseClose"@),
        FixtureChannel3Attribute::IrisPulseOpen => lemma_from_text_of_exact("IrisPulseOpen"@),
        _ => {},
    }
}

/// The unnumbered attributes of part 2 of the name table are found by the
/// names they are written as.
proof fn lemma_units_exact_2()
    ensures
        exact_attribute("IrisRandomPulseClose"@) == Some(FixtureChannel3Attribute::IrisRandomPulseClose),
        exact_attribute("IrisRandomPulseOpen"@) == Some(FixtureChannel3Attribute::IrisRandomPulseOpen),
        exact_attribute("EffectsSync"@) == Some(FixtureChannel3Attribute::EffectsSync),
        exact_attribute("BeamShaper"@) == Some(FixtureChannel3Attribute::BeamShaper),
        exact_attribute("BeamShaperMacro"@) == Some(FixtureChannel3Attribute::BeamShaperMacro),
        exact_attribute("BeamShaperPos"@) == Some(FixtureChannel3Attribute::BeamShaperPos),
        exact_attribute("BeamShaperPosRotate"@) == Some(FixtureChannel3Attribute::BeamShaperPosRotate),
        exact_attribute("Zoom"@) == Some(FixtureChannel3Attribute::Zoom),
        exact_attribute("ZoomModeSpot"@) == Some(FixtureChannel3Attribute::ZoomModeSpot),
        exact_attribute("ZoomModeBeam"@) == Some(FixtureChannel3Attribute::ZoomModeBeam),
        exact_attribute("DigitalZoom"@) == Some(FixtureChannel3Attribute::DigitalZoom),
        exact_attribute("DimmerMode"@) == Some(FixtureChannel3Attribute::DimmerMode),
        exact_attribute("DimmerCurve"@) == Some(FixtureChannel3Attribute::DimmerCurve),
        exact_attribute("BlackoutMode"@) == Some(FixtureChannel3Attribute::BlackoutMode),
        exact_attribute("PixelMode"@) == Some(FixtureChannel3Attribute::PixelMode),
        exact_attribute("PanMode"@) == Some(FixtureChannel3Attribute::PanMode),
        exact_attribute("TiltMode"@) == Some(FixtureChannel3Attribute::TiltMode),
        exact_attribute("PanTiltMode"@) == Some(FixtureChannel3Attribute::PanTiltMode),
        exact_attribute("PositionModes"@) == Some(FixtureChannel3Attribute::PositionModes),
        exact_attribute("GoboWheelShortcutMode"@) == Some(FixtureChannel3Attribute::GoboWheelShortcutMode),
        exact_attribute("AnimationWheelShortcutMode"@) == Some(FixtureChannel3Attribute::AnimationWheelShortcutMode),
        exact_attribute("ColorWheelShortcutMode"@) == Some(FixtureChannel3Attribute::ColorWheelShortcutMode),
        exact_attribute("CyanMode"@) == Some(FixtureChannel3Attribute::CyanMode),
        exact_attribute("MagentaMode"@) == Some(FixtureChannel3Attribute::MagentaMode),
        exact_attribute("YellowMode"@) == Some(FixtureChannel3Attribute::YellowMode),
        exact_attribute("ColorMixMode"@) == Some(FixtureChannel3Attribute::ColorMixMode),
        exact_attribute("ChromaticMode"@) == Some(FixtureChannel3Attribute::ChromaticMode),
        exact_attribute("ColorCalibrationMode"@) == Some(FixtureChannel3Attribute::ColorCalibrationMode),
        exact_attribute("ColorConsistency"@) == Some(FixtureChannel3Attribute::ColorConsistency),
        exact_attribute("ColorControl"@) == Some(FixtureChannel3Attribute::ColorControl),
        exact_attribute("ColorModelMode"@) == Some(FixtureChannel3Attribute::ColorModelMode),
        exact_attribute("ColorSettingsReset"@) == Some(FixtureChannel3Attribute::ColorSettingsReset),
        exact_attribute("ColorUniformity"@) == Some(FixtureChannel3Attribute::ColorUniformity),
        exact_attribute("CustomColor"@) == Some(FixtureChannel3Attribute::CustomColor),
        exact_attribute("WavelengthCorrection"@) == Some(FixtureChannel3Attribute::WavelengthCorrection),
        exact_attribute("WhiteCount"@) == Some(FixtureChannel3Attribute::WhiteCount),
        exact_attribute("StrobeMode"@) == Some(FixtureChannel3Attribute::StrobeMode),
        exact_attribute("ZoomMode"@) == Some(FixtureChannel3Attribute::ZoomMode),
        exact_attribute("FocusMode"@) == Some(FixtureChannel3Attribute::FocusMode),
        exact_attribute("IrisMode"@) == Some(FixtureChannel3Attribute::IrisMode),
        exact_attribute("FollowSpotMode"@) == Some(FixtureChannel3Attribute::FollowSpotMode),
        exact_attribute("BeamEffectIndexRotateMode"@) == Some(FixtureChannel3Attribute::BeamEffectIndexRotateMode),
{
    lemma_names_2_not_in_0();
    lemma_names_2_not_in_1();
    lemma_names_2_read();
}

/// The unnumbered attributes of part 2 of the name table read back from
/// their written names.
#[verifier::rlimit(100)]
proof fn lemma_units_round_trip_2(a: FixtureChannel3Attribute)
    requires
        a is IrisRandomPulseClose || a is IrisRandomPulseOpen || a is EffectsSync || a is BeamShaper || a is BeamShaperMacro || a is BeamShaperPos || a is BeamShaperPosRotate || a is Zoom || a is ZoomModeSpot || a is ZoomModeBeam || a is DigitalZoom || a is DimmerMode || a is DimmerCurve || a is BlackoutMode || a is PixelMode || a is PanMode || a is TiltMode || a is PanTiltMode || a is PositionModes || a is GoboWheelShortcutMode || a is AnimationWheelShortcutMode || a is ColorWheelShortcutMode || a is CyanMode || a is MagentaMode || a is YellowMode || a is ColorMixMode || a is ChromaticMode || a is ColorCalibrationMode || a is ColorConsistency || a is ColorControl || a is ColorModelMode || a is ColorSettingsReset || a is ColorUniformity || a is CustomColor || a is WavelengthCorrection || a is WhiteCount || a is StrobeMode || a is ZoomMode || a is FocusMode || a is IrisMode || a is FollowSpotMode || a is BeamEffectIndexRotateMode,
    ensures
        attribute_from_text(attribute_text(a)) == Some(a),
{
    lemma_units_exact_2();
    match a {
        FixtureChannel3Attribute::IrisRandomPulseClose => lemma_from_text_of_exact("IrisRandomPulseClose"@),
        FixtureChannel3Attribute::IrisRandomPulseOpen => lemma_from_text_of_exact("IrisRandomPulseOpen"@),
        FixtureChannel3Attribute::EffectsSync => lemma_from_text_of_exact("EffectsSync"@),
        FixtureChannel3Attribute::BeamShaper => lemma_from_text_of_exact("BeamShaper"@),
        FixtureChannel3Attribute::BeamShaperMacro => lemma_from_text_of_exact("BeamShaperMacro"@),
        FixtureChannel3Attribute::BeamShaperPos => lemma_from_text_of_exact("BeamShaperPos"@),
        FixtureChannel3Attribute::BeamShaperPosRotate => lemma_from_text_of_exact("BeamShaperPosRotate"@),
        FixtureChannel3Attribute::Zoom => lemma_from_text_of_exact("Zoom"@),
        FixtureChannel3Attribute::ZoomModeSpot => lemma_from_text_of_exact("ZoomModeSpot"@),
        FixtureChannel3Attribute::ZoomModeBeam => lemma_from_text_of_exact("ZoomModeBeam"@),
        FixtureChannel3Attribute::DigitalZoom => lemma_from_text_of_exact("DigitalZoom"@),
        FixtureChannel3Attribute::DimmerMode => lemma_from_text_of_exact("DimmerMode"@),
        FixtureChannel3Attribute::DimmerCurve => lemma_from_text_of_exact("DimmerCurve"@),
        FixtureChannel3Attribute::BlackoutMode => lemma_from_text_of_exact("BlackoutMode"@),
        FixtureChannel3Attribute::PixelMode => lemma_from_text_of_exact("PixelMode"@),
        FixtureChannel3Attribute::PanMode => lemma_from_text_of_exact("PanMode"@),
        FixtureChannel3Attribute::TiltMode => lemma_from_text_of_exact("TiltMode"@),
        FixtureChannel3Attribute::PanTiltMode => lemma_from_text_of_exact("PanTiltMode"@),
        FixtureChannel3Attribute::PositionModes => lemma_from_text_of_exact("PositionModes"@),
        FixtureChannel3Attribute::GoboWheelShortcutMode => lemma_from_text_of_exact("GoboWheelShortcutMode"@),
        FixtureChannel3Attribute::AnimationWheelShortcutMode => lemma_from_text_of_exact("AnimationWheelShortcutMode"@),
        FixtureChannel3Attribute::ColorWheelShortcutMode => lemma_from_text_of_exact("ColorWheelShortcutMode"@),
        FixtureChannel3Attribute::CyanMode => lemma_from_text_of_exact("CyanMode"@),
        FixtureChannel3Attribute::MagentaMode => lemma_from_text_of_exact("MagentaMode"@),
        FixtureChannel3Attribute::YellowMode => lemma_from_text_of_exact("YellowMode"@),
        FixtureChannel3Attribute::ColorMixMode => lemma_from_text_of_exact("ColorMixMode"@),
        FixtureChannel3Attribute::ChromaticMode => lemma_from_text_of_exact("ChromaticMode"@),
        FixtureChannel3Attribute::ColorCalibrationMode => lemma_from_text_of_exact("ColorCalibrationMode"@),
        FixtureChannel3Attribute::ColorConsistency => lemma_from_text_of_exact("ColorConsistency"@),
        FixtureChannel3Attribute::ColorControl => lemma_from_text_of_exact("ColorControl"@),
        FixtureChannel3Attribute::ColorModelMode => lemma_from_text_of_exact("ColorModelMode"@),
        FixtureChannel3Attribute::ColorSettingsReset => lemma_from_text_of_exact("ColorSettingsReset"@),
        FixtureChannel3Attribute::ColorUniformity => lemma_from_text_of_exact("ColorUniformity"@),
        FixtureChannel3Attribute::CustomColor => lemma_from_text_of_exact("CustomColor"@),
        FixtureChannel3Attribute::WavelengthCorrection => lemma_from_text_of_exact("WavelengthCorrection"@),
        FixtureChannel3Attribute::WhiteCount => lemma_from_text_of_exact("WhiteCount"@),
        FixtureChannel3Attribute::StrobeMode => lemma_from_text_of_exact("StrobeMode"@),
        FixtureChannel3Attribute::ZoomMode => lemma_from_text_of_exact("ZoomMode"@),
        FixtureChannel3Attribute::FocusMode => lemma_from_text_of_exact("FocusMode"@),
        FixtureChannel3Attribute::IrisMode => lemma_from_text_of_exact("IrisMode"@),
        FixtureChannel3Attribute::FollowSpotMode => lemma_from_text_of_exact("FollowSpotMode"@),
        FixtureChannel3Attribute::BeamEffectIndexRotateMode => lemma_from_text_of_exact("BeamEffectIndexRotateMode"@),
        _ => {},
    }
}

/// The unnumbered attributes of part 3 of the name table are found by the
/// names they are written as.
proof fn lemma_units_exact_3()
    ensures
        exact_attribute("IntensityMSpeed"@) == Some(FixtureChannel3Attribute::IntensityMSpeed),
        exact_attribute("PositionMSpeed"@) == Some(FixtureChannel3Attribute::PositionMSpeed),
        exact_attribute("ColorMixMSpeed"@) == Some(FixtureChannel3Attribute::ColorMixMSpeed),
        exact_attribute("ColorWheelSelectMSpeed"@) == Some(FixtureChannel3Attribute::ColorWheelSelectMSpeed),
        exact_attribute("IrisMSpeed"@) == Some(FixtureChannel3Attribute::IrisMSpeed),
        exact_attribute("FocusMSpeed"@) == Some(FixtureChannel3Attribute::FocusMSpeed),
        exact_attribute("ZoomMSpeed"@) == Some(FixtureChannel3Attribute::ZoomMSpeed),
        exact_attribute("FrameMSpeed"@) == Some(FixtureChannel3Attribute::FrameMSpeed),
        exact_attribute("GlobalMSpeed"@) == Some(FixtureChannel3Attribute::GlobalMSpeed),
        exact_attribute("ReflectorAdjust"@) == Some(FixtureChannel3Attribute::ReflectorAdjust),
        exact_attribute("FixtureGlobalReset"@) == Some(FixtureChannel3Attribute::FixtureGlobalReset),
        exact_attribute("DimmerReset"@) == Some(FixtureChannel3Attribute::DimmerReset),
        exact_attribute("ShutterReset"@) == Some(FixtureChannel3Attribute::ShutterReset),
        exact_attribute("BeamReset"@) == Some(FixtureChannel3Attribute::BeamReset),
        exact_attribute("ColorMixReset"@) == Some(FixtureChannel3Attribute::ColorMixReset),
        exact_attribute("ColorWheelReset"@) == Some(FixtureChannel3Attribute::ColorWheelReset),
        exact_attribute("FocusReset"@) == Some(FixtureChannel3Attribute::FocusReset),
        exact_attribute("FrameReset"@) == Some(FixtureChannel3Attribute::FrameReset),
        exact_attribute("GoboWheelReset"@) == Some(FixtureChannel3Attribute::GoboWheelReset),
        exact_attribute("IntensityReset"@) == Some(FixtureChannel3Attribute::IntensityReset),
        exact_attribute("IrisReset"@) == Some(FixtureChannel3Attribute::IrisReset),
        exact_attribute("PositionReset"@) == Some(FixtureChannel3Attribute::PositionReset),
        exact_attribute("PanReset"@) == Some(FixtureChannel3Attribute::PanReset),
        exact_attribute("TiltReset"@) == Some(FixtureChannel3Attribute::TiltReset),
        exact_attribute("ZoomReset"@) == Some(FixtureChannel3Attribute::ZoomReset),
        exact_attribute("CTBReset"@) == Some(FixtureChannel3Attribute::CtbReset),
        exact_attribute("CTOReset"@) == Some(FixtureChannel3Attribute::CtoReset),
        exact_attribute("CTCReset"@) == Some(FixtureChannel3Attribute::CtcReset),
        exact_attribute("AnimationSystemReset"@) == Some(FixtureChannel3Attribute::AnimationSystemReset),
        exact_attribute("FixtureCalibrationReset"@) == Some(FixtureChannel3Attribute::FixtureCalibrationReset),
        exact_attribute("Function"@) == Some(FixtureChannel3Attribute::Function),
        exact_attribute("LampControl"@) == Some(FixtureChannel3Attribute::LampControl),
        exact_attribute("DisplayIntensity"@) == Some(FixtureChannel3Attribute::DisplayIntensity),
        exact_attribute("DMXInput"@) == Some(FixtureChannel3Attribute::DmxInput),
        exact_attribute("NoFeature"@) == Some(FixtureChannel3Attribute::NoFeature),
        exact_attribute("LampPowerMode"@) == Some(FixtureChannel3Attribute::LampPowerMode),
        exact_attribute("Fans"@) == Some(FixtureChannel3Attribute::Fans),
        exact_attribute("ShaperRot"@) == Some(FixtureChannel3Attribute::ShaperRot),
        exact_attribute("ShaperMacros"@) == Some(FixtureChannel3Attribute::ShaperMacros),
        exact_attribute("ShaperMacrosSpeed"@) == Some(FixtureChannel3Attribute::ShaperMacrosSpeed),
        exact_attribute("Video"@) == Some(FixtureChannel3Attribute::Video),
        exact_attribute("VideoBlendMode"@) == Some(FixtureChannel3Attribute::VideoBlendMode),
        exact_attribute("InputSource"@) == Some(FixtureChannel3Attribute::InputSource),
        exact_attribute("FieldOfView"@) == Some(FixtureChannel3Attribute::FieldOfView),
{
    lemma_names_3_not_in_0();
    lemma_names_3_not_in_1();
    lemma_names_3_not_in_2();
    lemma_names_3_read();
}

/// The unnumbered attributes of part 3 of the name table read back from
/// their written names.
#[verifier::rlimit(100)]
proof fn lemma_units_round_trip_3(a: FixtureChannel3Attribute)
    requires
        a is IntensityMSpeed || a is PositionMSpeed || a is ColorMixMSpeed || a is ColorWheelSelectMSpeed || a is IrisMSpeed || a is FocusMSpeed || a is ZoomMSpeed || a is FrameMSpeed || a is GlobalMSpeed || a is ReflectorAdjust || a is FixtureGlobalReset || a is DimmerReset || a is ShutterReset || a is BeamReset || a is ColorMixReset || a is ColorWheelReset || a is FocusReset || a is FrameReset || a is GoboWheelReset || a is IntensityReset || a is IrisReset || a is PositionReset || a is PanReset || a is TiltReset || a is ZoomReset || a is CtbReset || a is CtoReset || a is CtcReset || a is AnimationSystemReset || a is FixtureCalibrationReset || a is Function || a is LampControl || a is DisplayIntensity || a is DmxInput || a is NoFeature || a is LampPowerMode || a is Fans || a is ShaperRot || a is ShaperMacros || a is ShaperMacrosSpeed || a is Video || a is VideoBlendMode || a is InputSource || a is FieldOfView,
    ensures
        attribute_from_text(attribute_text(a)) == Some(a),
{
    lemma_units_exact_3();
    match a {
        FixtureChannel3Attribute::IntensityMSpeed => lemma_from_text_of_exact("IntensityMSpeed"@),
        FixtureChannel3Attribute::PositionMSpeed => lemma_from_text_of_exact("PositionMSpeed"@),
        FixtureChannel3Attribute::ColorMixMSpeed => lemma_from_text_of_exact("ColorMixMSpeed"@),
        FixtureChannel3Attribute::ColorWheelSelectMSpeed => lemma_from_text_of_exact("ColorWheelSelectMSpeed"@),
        FixtureChannel3Attribute::IrisMSpeed => lemma_from_text_of_exact("IrisMSpeed"@),
        FixtureChannel3Attribute::FocusMSpeed => lemma_from_text_of_exact("FocusMSpeed"@),
        FixtureChannel3Attribute::ZoomMSpeed => lemma_from_text_of_exact("ZoomMSpeed"@),
        FixtureChannel3Attribute::FrameMSpeed => lemma_from_text_of_exact("FrameMSpeed"@),
        FixtureChannel3Attribute::GlobalMSpeed => lemma_from_text_of_exact("GlobalMSpeed"@),
        FixtureChannel3Attribute::ReflectorAdjust => lemma_from_text_of_exact("ReflectorAdjust"@),
        FixtureChannel3Attribute::FixtureGlobalReset => lemma_from_text_of_exact("FixtureGlobalReset"@),
        FixtureChannel3Attribute::DimmerReset => lemma_from_text_of_exact("DimmerReset"@),
        FixtureChannel3Attribute::ShutterReset => lemma_from_text_of_exact("ShutterReset"@),
        FixtureChannel3Attribute::BeamReset => lemma_from_text_of_exact("BeamReset"@),
        FixtureChannel3Attribute::ColorMixReset => lemma_from_text_of_exact("ColorMixReset"@),
        FixtureChannel3Attribute::ColorWheelReset => lemma_from_text_of_exact("ColorWheelReset"@),
        FixtureChannel3Attribute::FocusReset => lemma_from_text_of_exact("FocusReset"@),
        FixtureChannel3Attribute::FrameReset => lemma_from_text_of_exact("FrameReset"@),
        FixtureChannel3Attribute::GoboWheelReset => lemma_from_text_of_exact("GoboWheelReset"@),
        FixtureChannel3Attribute::IntensityReset => lemma_from_text_of_exact("IntensityReset"@),
        FixtureChannel3Attribute::IrisReset => lemma_from_text_of_exact("IrisReset"@),
        FixtureChannel3Attribute::PositionReset => lemma_from_text_of_exact("PositionReset"@),
        FixtureChannel3Attribute::PanReset => lemma_from_text_of_exact("PanReset"@),
        FixtureChannel3Attribute::TiltReset => lemma_from_text_of_exact("TiltReset"@),
        FixtureChannel3Attribute::ZoomReset => lemma_from_text_of_exact("ZoomReset"@),
        FixtureChannel3Attribute::CtbReset => lemma_from_text_of_exact("CTBReset"@),
        FixtureChannel3Attribute::CtoReset => lemma_from_text_of_exact("CTOReset"@),
        FixtureChannel3Attribute::CtcReset => lemma_from_text_of_exact("CTCReset"@),
        FixtureChannel3Attribute::AnimationSystemReset => lemma_from_text_of_exact("AnimationSystemReset"@),
        FixtureChannel3Attribute::FixtureCalibrationReset => lemma_from_text_of_exact("FixtureCalibrationReset"@),
        FixtureChannel3Attribute::Function => lemma_from_text_of_exact("Function"@),
        FixtureChannel3Attribute::LampControl => lemma_from_text_of_exact("LampControl"@),
        FixtureChannel3Attribute::DisplayIntensity => lemma_from_text_of_exact("DisplayIntensity"@),
        FixtureChannel3Attribute::DmxInput => lemma_from_text_of_exact("DMXInput"@),
        FixtureChannel3Attribute::NoFeature => lemma_from_text_of_exact("NoFeature"@),
        FixtureChannel3Attribute::LampPowerMode => lemma_from_text_of_exact("LampPowerMode"@),
        FixtureChannel3Attribute::Fans => lemma_from_text_of_exact("Fans"@),
        FixtureChannel3Attribute::ShaperRot => lemma_from_text_of_exact("ShaperRot"@),
        FixtureChannel3Attribute::ShaperMacros => lemma_from_text_of_exact("ShaperMacros"@),
        FixtureChannel3Attribute::ShaperMacrosSpeed => lemma_from_text_of_exact("ShaperMacrosSpeed"@),
        FixtureChannel3Attribute::Video => lemma_from_text_of_exact("Video"@),
        FixtureChannel3Attribute::VideoBlendMode => lemma_from_text_of_exact("VideoBlendMode"@),
        FixtureChannel3Attribute::InputSource => lemma_from_text_of_exact("InputSource"@),
        FixtureChannel3Attribute::FieldOfView => lemma_from_text_of_exact("FieldOfView"@),
        _ => {},
    }
}

/// An attribute of the numbered family `Gobo` reads back from its written
/// name: that text is no standard name, and every numbering rule before the
/// family's own rejects it.
proof fn text_reads_back_gobo(n: u8)
    ensures
        attribute_from_text(attribute_text(FixtureChannel3Attribute::Gobo(n))) == Some(FixtureChannel3Attribute::Gobo(n)),
{
    let d = decimal(n as nat);
    lemma_decimal_digits(n as nat);
    lemma_decimal_len_u8(n as nat);
    let t = attribute_text(FixtureChannel3Attribute::Gobo(n));
    reveal_strlit("Gobo");
    assert(t == "Gobo"@ + d);
    lemma_exact_none_with_digit(t, 4);
    reveal(numbered_attribute_0);
    lemma_number_after("Gobo"@, n);
}

/// An attribute of the numbered family `GoboSelectSpin` reads back from its written
/// name: that text is no standard name, and every numbering rule before the
/// family's own rejects it.
proof fn text_reads_back_gobo_select_spin(n: u8)
    ensures
        attribute_from_text(attribute_text(FixtureChannel3Attribute::GoboSelectSpin(n))) == Some(FixtureChannel3Attribute::GoboSelectSpin(n)),
{
    let d = decimal(n as nat);
    lemma_decimal_digits(n as nat);
    lemma_decimal_len_u8(n as nat);
    let t = attribute_text(FixtureChannel3Attribute::GoboSelectSpin(n));
    reveal_strlit("Gobo");
    reveal_strlit("SelectSpin");
    assert(t == "Gobo"@ + d + "SelectSpin"@);
    lemma_exact_none_with_digit(t, 4);
    reveal(numbered_attribute_0);
    reveal_strlit("Gobo");
    lemma_rest_not_number(t, "Gobo"@, d.len() as int);
    lemma_number_between("Gobo"@, "SelectSpin"@, n);
}

/// An attribute of the numbered family `GoboSelectShake` reads back from its written
/// name: that text is no standard name, and every numbering rule before the
/// family's own rejects it.
proof fn text_reads_back_gobo_select_shake(n: u8)
    ensures
        attribute_from_text(attribute_text(FixtureChannel3Attribute::GoboSelectShake(n))) == Some(FixtureChannel3Attribute::GoboSelectShake(n)),
{
    let d = decimal(n as nat);
    lemma_decimal_digits(n as nat);
    lemma_decimal_len_u8(n as nat);
    let t = attribute_text(FixtureChannel3Attribute::GoboSelectShake(n));
    reveal_strlit("Gobo");
    reveal_strlit("SelectShake");
    assert(t == "Gobo"@ + d + "SelectShake"@);
    lemma_exact_none_with_digit(t, 4);
    reveal(numbered_attribute_0);
    reveal_strlit("Gobo");
    lemma_rest_not_number(t, "Gobo"@, d.len() as int);
    reveal_strlit("Gobo");
    reveal_strlit("SelectSpin");
    lemma_suffix_mismatch(t, "Gobo"@, "SelectSpin"@, 0);
    lemma_number_between("Gobo"@, "SelectShake"@, n);
}

/// An attribute of the numbered family `GoboSelectEffects` reads back from its written
/// name: that text is no standard name, and every numbering rule before the
/// family's own rejects it.
proof fn text_reads_back_gobo_select_effects(n: u8)
    ensures
        attribute_from_text(attribute_text(FixtureChannel3Attribute::GoboSelectEffects(n))) == Some(FixtureChannel3Attribute::GoboSelectEffects(n)),
{
    let d = decimal(n as nat);
    lemma_decimal_digits(n as nat);
    lemma_decimal_len_u8(n as nat);
    let t = attribute_text(FixtureChannel3Attribute::GoboSelectEffects(n));
    reveal_strlit("Gobo");
    reveal_strlit("SelectEffects");
    assert(t == "Gobo"@ + d + "SelectEffects"@);
    lemma_exact_none_with_digit(t, 4);
    reveal(numbered_attribute_0);
    reveal_strlit("Gobo");
    lemma_rest_not_number(t, "Gobo"@, d.len() as int);
    reveal_strlit("Gobo");
    reveal_strlit("SelectSpin");
    lemma_suffix_mismatch(t, "Gobo"@, "SelectSpin"@, 0);
    reveal_strlit("Gobo");
    reveal_strlit("SelectShake");
    lemma_suffix_mismatch(t, "Gobo"@, "SelectShake"@, 0);
    lemma_number_between("Gobo"@, "SelectEffects"@, n);
}

/// An attribute of the numbered family `GoboWheelIndex` reads back from its written
/// name: that text is no standard name, and every numbering rule before the
/// family's own rejects it.
proof fn text_reads_back_gobo_wheel_index(n: u8)
    ensures
        attribute_from_text(attribute_text(FixtureChannel3Attribute::GoboWheelIndex(n))) == Some(FixtureChannel3Attribute::GoboWheelIndex(n)),
{
    let d = decimal(n as nat);
    lemma_decimal_digits(n as nat);
    lemma_decimal_len_u8(n as nat);
    let t = attribute_text(FixtureChannel3Attribute::GoboWheelIndex(n));
    reveal_strlit("Gobo");
    reveal_strlit("WheelIndex");
    assert(t == "Gobo"@ + d + "WheelIndex"@);
    lemma_exact_none_with_digit(t, 4);
    reveal(numbered_attribute_0);
    reveal_strlit("Gobo");
    lemma_rest_not_number(t, "Gobo"@, d.len() as int);
    reveal_strlit("Gobo");
    reveal_strlit("SelectSpin");
    lemma_suffix_mismatch(t, "Gobo"@, "SelectSpin"@, 0);
    reveal_strlit("Gobo");
    reveal_strlit("SelectShake");
    lemma_suffix_mismatch(t, "Gobo"@, "SelectShake"@, 0);
    reveal_strlit("Gobo");
    reveal_strlit("SelectEffects");
    lemma_suffix_mismatch(t, "Gobo"@, "SelectEffects"@, 0);
    lemma_number_between("Gobo"@, "WheelIndex"@, n);
}

/// An attribute of the numbered family `GoboWheelSpin` reads back from its written
/// name: that text is no standard name, and every numbering rule before the
/// family's own rejects it.
proof fn text_reads_back_gobo_wheel_spin(n: u8)
    ensures
        attribute_from_text(attribute_text(FixtureChannel3Attribute::GoboWheelSpin(n))) == Some(FixtureChannel3Attribute::GoboWheelSpin(n)),
{
    let d = decimal(n as nat);
    lemma_decimal_digits(n as nat);
    lemma_decimal_len_u8(n as nat);
    let t = attribute_text(FixtureChannel3Attribute::GoboWheelSpin(n));
    reveal_strlit("Gobo");
    reveal_strlit("WheelSpin");
    assert(t == "Gobo"@ + d + "WheelSpin"@);
    lemma_exact_none_with_digit(t, 4);
    reveal(numbered_attribute_0);
    reveal_strlit("Gobo");
    lemma_rest_not_number(t, "Gobo"@, d.len() as int);
    reveal_strlit("Gobo");
    reveal_strlit("SelectSpin");
    lemma_suffix_mismatch(t, "Gobo"@, "SelectSpin"@, 4);
    reveal_strlit("Gobo");
    reveal_strlit("SelectShake");
    lemma_suffix_mismatch(t, "Gobo"@, "SelectShake"@, 0);
    reveal_strlit("Gobo");
    reveal_strlit("SelectEffects");
    lemma_suffix_mismatch(t, "Gobo"@, "SelectEffects"@, 0);
    reveal_strlit("Gobo");
    reveal_strlit("WheelIndex");
    lemma_suffix_mismatch(t, "Gobo"@, "WheelIndex"@, 0);
    lemma_number_between("Gobo"@, "WheelSpin"@, n);
}

/// An attribute of the numbered family `GoboWheelShake` reads back from its written
/// name: that text is no standard name, and every numbering rule before the
/// family's own rejects it.
proof fn text_reads_back_gobo_wheel_shake(n: u8)
    ensures
        attribute_from_text(attribute_text(FixtureChannel3Attribute::GoboWheelShake(n))) == Some(FixtureChannel3Attribute::GoboWheelShake(n)),
{
    let d = decimal(n as nat);
    lemma_decimal_digits(n as nat);
    lemma_decimal_len_u8(n as nat);
    let t = attribute_text(FixtureChannel3Attribute::GoboWheelShake(n));
    reveal_strlit("Gobo");
    reveal_strlit("WheelShake");
    assert(t == "Gobo"@ + d + "WheelShake"@);
    lemma_exact_none_with_digit(t, 4);
    reveal(numbered_attribute_0);
    reveal_strlit("Gobo");
    lemma_rest_not_number(t, "Gobo"@, d.len() as int);
    reveal_strlit("Gobo");
    reveal_strlit("SelectSpin");
    lemma_suffix_mismatch(t, "Gobo"@, "SelectSpin"@, 0);
    reveal_strlit("Gobo");
    reveal_strlit("SelectShake");
    lemma_suffix_mismatch(t, "Gobo"@, "SelectShake"@, 5);
    reveal_strlit("Gobo");
    reveal_strlit("SelectEffects");
    lemma_suffix_mismatch(t, "Gobo"@, "SelectEffects"@, 0);
    reveal_strlit("Gobo");
    reveal_strlit("WheelIndex");
    lemma_suffix_mismatch(t, "Gobo"@, "WheelIndex"@, 0);
    reveal_strlit("Gobo");
    reveal_strlit("WheelSpin");
    lemma_suffix_mismatch(t, "Gobo"@, "WheelSpin"@, 0);
    lemma_number_between("Gobo"@, "WheelShake"@, n);
}

/// An attribute of the numbered family `GoboWheelRandom` reads back from its written
/// name: that text is no standard name, and every numbering rule before the
/// family's own rejects it.
proof fn text_reads_back_gobo_wheel_random(n: u8)
    ensures
        attribute_from_text(attribute_text(FixtureChannel3Attribute::GoboWheelRandom(n))) == Some(FixtureChannel3Attribute::GoboWheelRandom(n)),
{
    let d = decimal(n as nat);
    lemma_decimal_digits(n as nat);
    lemma_decimal_len_u8(n as nat);
    let t = attribute_text(FixtureChannel3Attribute::GoboWheelRandom(n));
    reveal_strlit("Gobo");
    reveal_strlit("WheelRandom");
    assert(t == "Gobo"@ + d + "WheelRandom"@);
    lemma_exact_none_with_digit(t, 4);
    reveal(numbered_attribute_0);
    reveal_strlit("Gobo");
    lemma_rest_not_number(t, "Gobo"@, d.len() as int);
    reveal_strlit("Gobo");
    reveal_strlit("SelectSpin");
    lemma_suffix_mismatch(t, "Gobo"@, "SelectSpin"@, 0);
    reveal_strlit("Gobo");
    reveal_strlit("SelectShake");
    lemma_suffix_mismatch(t, "Gobo"@, "SelectShake"@, 0);
    reveal_strlit("Gobo");
    reveal_strlit("SelectEffects");
    lemma_suffix_mismatch(t, "Gobo"@, "SelectEffects"@, 0);
    reveal_strlit("Gobo");
    reveal_strlit("WheelIndex");
    lemma_suffix_mismatch(t, "Gobo"@, "WheelIndex"@, 0);
    reveal_strlit("Gobo");
    reveal_strlit("WheelSpin");
    lemma_suffix_mismatch(t, "Gobo"@, "WheelSpin"@, 0);
    reveal_strlit("Gobo");
    reveal_strlit("WheelShake");
    lemma_suffix_mismatch(t, "Gobo"@, "WheelShake"@, 0);
    lemma_number_between("Gobo"@, "WheelRandom"@, n);
}

/// An attribute of the numbered family `GoboWheelAudio` reads back from its written
/// name: that text is no standard name, and every numbering rule before the
/// family's own rejects it.
proof fn text_reads_back_gobo_wheel_audio(n: u8)
    ensures
        attribute_from_text(attribute_text(FixtureChannel3Attribute::GoboWheelAudio(n))) == Some(FixtureChannel3Attribute::GoboWheelAudio(n)),
{
    let d = decimal(n as nat);
    lemma_decimal_digits(n as nat);
    lemma_decimal_len_u8(n as nat);
    let t = attribute_text(FixtureChannel3Attribute::GoboWheelAudio(n));
    reveal_strlit("Gobo");
    reveal_strlit("WheelAudio");
    assert(t == "Gobo"@ + d + "WheelAudio"@);
    lemma_exact_none_with_digit(t, 4);
    reveal(numbered_attribute_0);
    reveal_strlit("Gobo");
    lemma_rest_not_number(t, "Gobo"@, d.len() as int);
    reveal_strlit("Gobo");
    reveal_strlit("SelectSpin");
    lemma_suffix_mismatch(t, "Gobo"@, "SelectSpin"@, 0);
    reveal_strlit("Gobo");
    reveal_strlit("SelectShake");
    lemma_suffix_mismatch(t, "Gobo"@, "SelectShake"@, 0);
    reveal_strlit("Gobo");
    reveal_strlit("SelectEffects");
    lemma_suffix_mismatch(t, "Gobo"@, "SelectEffects"@, 0);
    reveal_strlit("Gobo");
    reveal_strlit("WheelIndex");
    lemma_suffix_mismatch(t, "Gobo"@, "WheelIndex"@, 0);
    reveal_strlit("Gobo");
    reveal_strlit("WheelSpin");
    lemma_suffix_mismatch(t, "Gobo"@, "WheelSpin"@, 0);
    reveal_strlit("Gobo");
    reveal_strlit("WheelShake");
    lemma_suffix_mismatch(t, "Gobo"@, "WheelShake"@, 0);
    reveal_strlit("Gobo");
    reveal_strlit("WheelRandom");
    lemma_suffix_mismatch(t, "Gobo"@, "WheelRandom"@, 0);
    lemma_number_between("Gobo"@, "WheelAudio"@, n);
}

/// An attribute of the numbered family `GoboPos` reads back from its written
/// name: that text is no standard name, and every numbering rule before the
/// family's own rejects it.
proof fn text_reads_back_gobo_pos(n: u8)
    ensures
        attribute_from_text(attribute_text(FixtureChannel3Attribute::GoboPos(n))) == Some(FixtureChannel3Attribute::GoboPos(n)),
{
    let d = decimal(n as nat);
    lemma_decimal_digits(n as nat);
    lemma_decimal_len_u8(n as nat);
    let t = attribute_text(FixtureChannel3Attribute::GoboPos(n));
    reveal_strlit("Gobo");
    reveal_strlit("Pos");
    assert(t == "Gobo"@ + d + "Pos"@);
    lemma_exact_none_with_digit(t, 4);
    reveal(numbered_attribute_0);
    reveal_strlit("Gobo");
    lemma_rest_not_number(t, "Gobo"@, d.len() as int);
    reveal_strlit("Gobo");
    reveal_strlit("SelectSpin");
    lemma_suffix_mismatch(t, "Gobo"@, "SelectSpin"@, 0);
    reveal_strlit("Gobo");
    reveal_strlit("SelectShake");
    lemma_suffix_mismatch(t, "Gobo"@, "SelectShake"@, 0);
    reveal_strlit("Gobo");
    reveal_strlit("SelectEffects");
    lemma_suffix_mismatch(t, "Gobo"@, "SelectEffects"@, 1);
    reveal_strlit("Gobo");
    reveal_strlit("WheelIndex");
    lemma_suffix_mismatch(t, "Gobo"@, "WheelIndex"@, 0);
    reveal_strlit("Gobo");
    reveal_strlit("WheelSpin");
    lemma_suffix_mismatch(t, "Gobo"@, "WheelSpin"@, 0);
    reveal_strlit("Gobo");
    reveal_strlit("WheelShake");
    lemma_suffix_mismatch(t, "Gobo"@, "WheelShake"@, 0);
    reveal_strlit("Gobo");
    reveal_strlit("WheelRandom");
    lemma_suffix_mismatch(t, "Gobo"@, "WheelRandom"@, 0);
    reveal_strlit("Gobo");
    reveal_strlit("WheelAudio");
    lemma_suffix_mismatch(t, "Gobo"@, "WheelAudio"@, 0);
    lemma_number_between("Gobo"@, "Pos"@, n);
}

/// An attribute of the numbered family `GoboPosRotate` reads back from its written
/// name: that text is no standard name, and every numbering rule before the
/// family's own rejects it.
proof fn text_reads_back_gobo_pos_rotate(n: u8)
    ensures
        attribute_from_text(attribute_text(FixtureChannel3Attribute::GoboPosRotate(n))) == Some(FixtureChannel3Attribute::GoboPosRotate(n)),
{
    let d = decimal(n as nat);
    lemma_decimal_digits(n as nat);
    lemma_decimal_len_u8(n as nat);
    let t = attribute_text(FixtureChannel3Attribute::GoboPosRotate(n));
    reveal_strlit("Gobo");
    reveal_strlit("PosRotate");
    assert(t == "Gobo"@ + d + "PosRotate"@);
    lemma_exact_none_with_digit(t, 4);
    reveal(numbered_attribute_0);
    reveal_strlit("Gobo");
    lemma_rest_not_number(t, "Gobo"@, d.len() as int);
    reveal_strlit("Gobo");
    reveal_strlit("SelectSpin");
    lemma_suffix_mismatch(t, "Gobo"@, "SelectSpin"@, 0);
    reveal_strlit("Gobo");
    reveal_strlit("SelectShake");
    lemma_suffix_mismatch(t, "Gobo"@, "SelectShake"@, 1);
    reveal_strlit("Gobo");
    reveal_strlit("SelectEffects");
    lemma_suffix_mismatch(t, "Gobo"@, "SelectEffects"@, 0);
    reveal_strlit("Gobo");
    reveal_strlit("WheelIndex");
    lemma_suffix_mismatch(t, "Gobo"@, "WheelIndex"@, 0);
    reveal_strlit("Gobo");
    reveal_strlit("WheelSpin");
    lemma_suffix_mismatch(t, "Gobo"@, "WheelSpin"@, 0);
    reveal_strlit("Gobo");
    reveal_strlit("WheelShake");
    lemma_suffix_mismatch(t, "Gobo"@, "WheelShake"@, 1);
    reveal_strlit("Gobo");
    reveal_strlit("WheelRandom");
    lemma_suffix_mismatch(t, "Gobo"@, "WheelRandom"@, 0);
    reveal_strlit("Gobo");
    reveal_strlit("WheelAudio");
    lemma_suffix_mismatch(t, "Gobo"@, "WheelAudio"@, 0);
    reveal_strlit("Gobo");
    reveal_strlit("Pos");
    lemma_suffix_mismatch(t, "Gobo"@, "Pos"@, 0);
    lemma_number_between("Gobo"@, "PosRotate"@, n);
}

/// An attribute of the numbered family `GoboPosShake` reads back from its written
/// name: that text is no standard name, and every numbering rule before the
/// family's own rejects it.
proof fn text_reads_back_gobo_pos_shake(n: u8)
    ensures
        attribute_from_text(attribute_text(FixtureChannel3Attribute::GoboPosShake(n))) == Some(FixtureChannel3Attribute::GoboPosShake(n)),
{
    let d = decimal(n as nat);
    lemma_decimal_digits(n as nat);
    lemma_decimal_len_u8(n as nat);
    let t = attribute_text(FixtureChannel3Attribute::GoboPosShake(n));
    reveal_strlit("Gobo");
    reveal_strlit("PosShake");
    assert(t == "Gobo"@ + d + "PosShake"@);
    lemma_exact_none_with_digit(t, 4);
    reveal(numbered_attribute_0);
    reveal_strlit("Gobo");
    lemma_rest_not_number(t, "Gobo"@, d.len() as int);
    reveal_strlit("Gobo");
    reveal_strlit("SelectSpin");
    lemma_suffix_mismatch(t, "Gobo"@, "SelectSpin"@, 0);
    reveal_strlit("Gobo");
    reveal_strlit("SelectShake");
    lemma_suffix_mismatch(t, "Gobo"@, "SelectShake"@, 5);
    reveal_strlit("Gobo");
    reveal_strlit("SelectEffects");
    lemma_suffix_mismatch(t, "Gobo"@, "SelectEffects"@, 0);
    reveal_strlit("Gobo");
    reveal_strlit("WheelIndex");
    lemma_suffix_mismatch(t, "Gobo"@, "WheelIndex"@, 0);
    reveal_strlit("Gobo");
    reveal_strlit("WheelSpin");
    lemma_suffix_mismatch(t, "Gobo"@, "WheelSpin"@, 0);
    reveal_strlit("Gobo");
    reveal_strlit("WheelShake");
    lemma_suffix_mismatch(t, "Gobo"@, "WheelShake"@, 5);
    reveal_strlit("Gobo");
    reveal_strlit("WheelRandom");
    lemma_suffix_mismatch(t, "Gobo"@, "WheelRandom"@, 0);
    reveal_strlit("Gobo");
    reveal_strlit("WheelAudio");
    lemma_suffix_mismatch(t, "Gobo"@, "WheelAudio"@, 0);
    reveal_strlit("Gobo");
    reveal_strlit("Pos");
    lemma_suffix_mismatch(t, "Gobo"@, "Pos"@, 0);
    reveal_strlit("Gobo");
    reveal_strlit("PosRotate");
    lemma_suffix_mismatch(t, "Gobo"@, "PosRotate"@, 1);
    lemma_number_between("Gobo"@, "PosShake"@, n);
}

/// An attribute of the numbered family `AnimationWheel` reads back from its written
/// name: that text is no standard name, and every numbering rule before the
/// family's own rejects it.
proof fn text_reads_back_animation_wheel(n: u8)
    ensures
        attribute_from_text(attribute_text(FixtureChannel3Attribute::AnimationWheel(n))) == Some(FixtureChannel3Attribute::AnimationWheel(n)),
{
    let d = decimal(n as nat);
    lemma_decimal_digits(n as nat);
    lemma_decimal_len_u8(n as nat);
    let t = attribute_text(FixtureChannel3Attribute::AnimationWheel(n));
    reveal_strlit("AnimationWheel");
    assert(t == "AnimationWheel"@ + d);
    lemma_exact_none_with_digit(t, 14);
    reveal(numbered_attribute_0);
    reveal_strlit("Gobo");
    lemma_prefix_mismatch(t, "Gobo"@, 0);
    reveal_strlit("Gobo");
    reveal_strlit("SelectSpin");
    lemma_prefix_mismatch(t, "Gobo"@, 0);
    reveal_strlit("Gobo");
    reveal_strlit("SelectShake");
    lemma_prefix_mismatch(t, "Gobo"@, 0);
    reveal_strlit("Gobo");
    reveal_strlit("SelectEffects");
    lemma_prefix_mismatch(t, "Gobo"@, 0);
    reveal_strlit("Gobo");
    reveal_strlit("WheelIndex");
    lemma_prefix_mismatch(t, "Gobo"@, 0);
    reveal_strlit("Gobo");
    reveal_strlit("WheelSpin");
    lemma_prefix_mismatch(t, "Gobo"@, 0);
    reveal_strlit("Gobo");
    reveal_strlit("WheelShake");
    lemma_prefix_mismatch(t, "Gobo"@, 0);
    reveal_strlit("Gobo");
    reveal_strlit("WheelRandom");
    lemma_prefix_mismatch(t, "Gobo"@, 0);
    reveal_strlit("Gobo");
    reveal_strlit("WheelAudio");
    lemma_prefix_mismatch(t, "Gobo"@, 0);
    reveal_strlit("Gobo");
    reveal_strlit("Pos");
    lemma_prefix_mismatch(t, "Gobo"@, 0);
    reveal_strlit("Gobo");
    reveal_strlit("PosRotate");
    lemma_prefix_mismatch(t, "Gobo"@, 0);
    reveal_strlit("Gobo");
    reveal_strlit("PosShake");
    lemma_prefix_mismatch(t, "Gobo"@, 0);
    lemma_number_after("AnimationWheel"@, n);
}

/// An attribute of the numbered family `AnimationWheelAudio` reads back from its written
/// name: that text is no standard name, and every numbering rule before the
/// family's own rejects it.
proof fn text_reads_back_animation_wheel_audio(n: u8)
    ensures
        attribute_from_text(attribute_text(FixtureChannel3Attribute::AnimationWheelAudio(n))) == Some(FixtureChannel3Attribute::AnimationWheelAudio(n)),
{
    let d = decimal(n as nat);
    lemma_decimal_digits(n as nat);
    lemma_decimal_len_u8(n as nat);
    let t = attribute_text(FixtureChannel3Attribute::AnimationWheelAudio(n));
    reveal_strlit("AnimationWheel");
    reveal_strlit("Audio");
    assert(t == "AnimationWheel"@ + d + "Audio"@);
    lemma_exact_none_with_digit(t, 14);
    reveal(numbered_attribute_0);
    reveal_strlit("Gobo");
    lemma_prefix_mismatch(t, "Gobo"@, 0);
    reveal_strlit("Gobo");
    reveal_strlit("SelectSpin");
    lemma_prefix_mismatch(t, "Gobo"@, 0);
    reveal_strlit("Gobo");
    reveal_strlit("SelectShake");
    lemma_prefix_mismatch(t, "Gobo"@, 0);
    reveal_strlit("Gobo");
    reveal_strlit("SelectEffects");
    lemma_prefix_mismatch(t, "Gobo"@, 0);
    reveal_strlit("Gobo");
    reveal_strlit("WheelIndex");
    lemma_prefix_mismatch(t, "Gobo"@, 0);
    reveal_strlit("Gobo");
    reveal_strlit("WheelSpin");
    lemma_prefix_mismatch(t, "Gobo"@, 0);
    reveal_strlit("Gobo");
    reveal_strlit("WheelShake");
    lemma_prefix_mismatch(t, "Gobo"@, 0);
    reveal_strlit("Gobo");
    reveal_strlit("WheelRandom");
    lemma_prefix_mismatch(t, "Gobo"@, 0);
    reveal_strlit("Gobo");
    reveal_strlit("WheelAudio");
    lemma_prefix_mismatch(t, "Gobo"@, 0);
    reveal_strlit("Gobo");
    reveal_strlit("Pos");
    lemma_prefix_mismatch(t, "Gobo"@, 0);
    reveal_strlit("Gobo");
    reveal_strlit("PosRotate");
    lemma_prefix_mismatch(t, "Gobo"@, 0);
    reveal_strlit("Gobo");
    reveal_strlit("PosShake");
    lemma_prefix_mismatch(t, "Gobo"@, 0);
    reveal_strlit("AnimationWheel");
    lemma_rest_not_number(t, "AnimationWheel"@, d.len() as int);
    lemma_number_between("AnimationWheel"@, "Audio"@, n);
}

/// An attribute of the numbered family `AnimationWheelMacro` reads back from its written
/// name: that text is no standard name, and every numbering rule before the
/// family's own rejects it.
proof fn text_reads_back_animation_wheel_macro(n: u8)
    ensures
        attribute_from_text(attribute_text(FixtureChannel3Attribute::AnimationWheelMacro(n))) == Some(FixtureChannel3Attribute::AnimationWheelMacro(n)),
{
    let d = decimal(n as nat);
    lemma_decimal_digits(n as nat);
    lemma_decimal_len_u8(n as nat);
    let t = attribute_text(FixtureChannel3Attribute::AnimationWheelMacro(n));
    reveal_strlit("AnimationWheel");
    reveal_strlit("Macro");
    assert(t == "AnimationWheel"@ + d + "Macro"@);
    lemma_exact_none_with_digit(t, 14);
    reveal(numbered_attribute_0);
    reveal_strlit("Gobo");
    lemma_prefix_mismatch(t, "Gobo"@, 0);
    reveal_strlit("Gobo");
    reveal_strlit("SelectSpin");
    lemma_prefix_mismatch(t, "Gobo"@, 0);
    reveal_strlit("Gobo");
    reveal_strlit("SelectShake");
    lemma_prefix_mismatch(t, "Gobo"@, 0);
    reveal_strlit("Gobo");
    reveal_strlit("SelectEffects");
    lemma_prefix_mismatch(t, "Gobo"@, 0);
    reveal_strlit("Gobo");
    reveal_strlit("WheelIndex");
    lemma_prefix_mismatch(t, "Gobo"@, 0);
    reveal_strlit("Gobo");
    reveal_strlit("WheelSpin");
    lemma_prefix_mismatch(t, "Gobo"@, 0);
    reveal_strlit("Gobo");
    reveal_strlit("WheelShake");
    lemma_prefix_mismatch(t, "Gobo"@, 0);
    reveal_strlit("Gobo");
    reveal_strlit("WheelRandom");
    lemma_prefix_mismatch(t, "Gobo"@, 0);
    reveal_strlit("Gobo");
    reveal_strlit("WheelAudio");
    lemma_prefix_mismatch(t, "Gobo"@, 0);
    reveal_strlit("Gobo");
    reveal_strlit("Pos");
    lemma_prefix_mismatch(t, "Gobo"@, 0);
    reveal_strlit("Gobo");
    reveal_strlit("PosRotate");
    lemma_prefix_mismatch(t, "Gobo"@, 0);
    reveal_strlit("Gobo");
    reveal_strlit("PosShake");
    lemma_prefix_mismatch(t, "Gobo"@, 0);
    reveal_strlit("AnimationWheel");
    lemma_rest_not_number(t, "AnimationWheel"@, d.len() as int);
    reveal_strlit("AnimationWheel");
    reveal_strlit("Audio");
    lemma_suffix_mismatch(t, "AnimationWheel"@, "Audio"@, 1);
    lemma_number_between("AnimationWheel"@, "Macro"@, n);
}

/// An attribute of the numbered family `AnimationWheelRandom` reads back from its written
/// name: that text is no standard name, and every numbering rule before the
/// family's own rejects it.
proof fn text_reads_back_animation_wheel_random(n: u8)
    ensures
        attribute_from_text(attribute_text(FixtureChannel3Attribute::AnimationWheelRandom(n))) == Some(FixtureChannel3Attribute::AnimationWheelRandom(n)),
{
    let d = decimal(n as nat);
    lemma_decimal_digits(n as nat);
    lemma_decimal_len_u8(n as nat);
    let t = attribute_text(FixtureChannel3Attribute::AnimationWheelRandom(n));
    reveal_strlit("AnimationWheel");
    reveal_strlit("Random");
    assert(t == "AnimationWheel"@ + d + "Random"@);
    lemma_exact_none_with_digit(t, 14);
    reveal(numbered_attribute_0);
    reveal_strlit("Gobo");
    lemma_prefix_mismatch(t, "Gobo"@, 0);
    reveal_strlit("Gobo");
    reveal_strlit("SelectSpin");
    lemma_prefix_mismatch(t, "Gobo"@, 0);
    reveal_strlit("Gobo");
    reveal_strlit("SelectShake");
    lemma_prefix_mismatch(t, "Gobo"@, 0);
    reveal_strlit("Gobo");
    reveal_strlit("SelectEffects");
    lemma_prefix_mismatch(t, "Gobo"@, 0);
    reveal_strlit("Gobo");
    reveal_strlit("WheelIndex");
    lemma_prefix_mismatch(t, "Gobo"@, 0);
    reveal_strlit("Gobo");
    reveal_strlit("WheelSpin");
    lemma_prefix_mismatch(t, "Gobo"@, 0);
    reveal_strlit("Gobo");
    reveal_strlit("WheelShake");
    lemma_prefix_mismatch(t, "Gobo"@, 0);
    reveal_strlit("Gobo");
    reveal_strlit("WheelRandom");
    lemma_prefix_mismatch(t, "Gobo"@, 0);
    reveal_strlit("Gobo");
    reveal_strlit("WheelAudio");
    lemma_prefix_mismatch(t, "Gobo"@, 0);
    reveal_strlit("Gobo");
    reveal_strlit("Pos");
    lemma_prefix_mismatch(t, "Gobo"@, 0);
    reveal_strlit("Gobo");
    reveal_strlit("PosRotate");
    lemma_prefix_mismatch(t, "Gobo"@, 0);
    reveal_strlit("Gobo");
    reveal_strlit("PosShake");
    lemma_prefix_mismatch(t, "Gobo"@, 0);
    reveal_strlit("AnimationWheel");
    lemma_rest_not_number(t, "AnimationWheel"@, d.len() as int);
    reveal_strlit("AnimationWheel");
    reveal_strlit("Audio");
    lemma_suffix_mismatch(t, "AnimationWheel"@, "Audio"@, 0);
    reveal_strlit("AnimationWheel");
    reveal_strlit("Macro");
    lemma_suffix_mismatch(t, "AnimationWheel"@, "Macro"@, 0);
    lemma_number_between("AnimationWheel"@, "Random"@, n);
}

/// An attribute of the numbered family `AnimationWheelSelectEffects` reads back from its written
/// name: that text is no standard name, and every numbering rule before the
/// family's own rejects it.
proof fn text_reads_back_animation_wheel_select_effects(n: u8)
    ensures
        attribute_from_text(attribute_text(FixtureChannel3Attribute::AnimationWheelSelectEffects(n))) == Some(FixtureChannel3Attribute::AnimationWheelSelectEffects(n)),
{
    let d = decimal(n as nat);
    lemma_decimal_digits(n as nat);
    lemma_decimal_len_u8(n as nat);
    let t = attribute_text(FixtureChannel3Attribute::AnimationWheelSelectEffects(n));
    reveal_strlit("AnimationWheel");
    reveal_strlit("SelectEffects");
    assert(t == "AnimationWheel"@ + d + "SelectEffects"@);
    lemma_exact_none_with_digit(t, 14);
    reveal(numbered_attribute_0);
    reveal_strlit("Gobo");
    lemma_prefix_mismatch(t, "Gobo"@, 0);
    reveal_strlit("Gobo");
    reveal_strlit("SelectSpin");
    lemma_prefix_mismatch(t, "Gobo"@, 0);
    reveal_strlit("Gobo");
    reveal_strlit("SelectShake");
    lemma_prefix_mismatch(t, "Gobo"@, 0);
    reveal_strlit("Gobo");
    reveal_strlit("SelectEffects");
    lemma_prefix_mismatch(t, "Gobo"@, 0);
    reveal_strlit("Gobo");
    reveal_strlit("WheelIndex");
    lemma_prefix_mismatch(t, "Gobo"@, 0);
    reveal_strlit("Gobo");
    reveal_strlit("WheelSpin");
    lemma_prefix_mismatch(t, "Gobo"@, 0);
    reveal_strlit("Gobo");
    reveal_strlit("WheelShake");
    lemma_prefix_mismatch(t, "Gobo"@, 0);
    reveal_strlit("Gobo");
    reveal_strlit("WheelRandom");
    lemma_prefix_mismatch(t, "Gobo"@, 0);
    reveal_strlit("Gobo");
    reveal_strlit("WheelAudio");
    lemma_prefix_mismatch(t, "Gobo"@, 0);
    reveal_strlit("Gobo");
    reveal_strlit("Pos");
    lemma_prefix_mismatch(t, "Gobo"@, 0);
    reveal_strlit("Gobo");
    reveal_strlit("PosRotate");
    lemma_prefix_mismatch(t, "Gobo"@, 0);
    reveal_strlit("Gobo");
    reveal_strlit("PosShake");
    lemma_prefix_mismatch(t, "Gobo"@, 0);
    reveal_strlit("AnimationWheel");
    lemma_rest_not_number(t, "AnimationWheel"@, d.len() as int);
    reveal_strlit("AnimationWheel");
    reveal_strlit("Audio");
    lemma_suffix_mismatch(t, "AnimationWheel"@, "Audio"@, 0);
    reveal_strlit("AnimationWheel");
    reveal_strlit("Macro");
    lemma_suffix_mismatch(t, "AnimationWheel"@, "Macro"@, 0);
    reveal_strlit("AnimationWheel");
    reveal_strlit("Random");
    lemma_suffix_mismatch(t, "AnimationWheel"@, "Random"@, 0);
    lemma_number_between("AnimationWheel"@, "SelectEffects"@, n);
}

/// An attribute of the numbered family `AnimationWheelSelectShake` reads back from its written
/// name: that text is no standard name, and every numbering rule before the
/// family's own rejects it.
proof fn text_reads_back_animation_wheel_select_shake(n: u8)
    ensures
        attribute_from_text(attribute_text(FixtureChannel3Attribute::AnimationWheelSelectShake(n))) == Some(FixtureChannel3Attribute::AnimationWheelSelectShake(n)),
{
    let d = decimal(n as nat);
    lemma_decimal_digits(n as nat);
    lemma_decimal_len_u8(n as nat);
    let t = attribute_text(FixtureChannel3Attribute::AnimationWheelSelectShake(n));
    reveal_strlit("AnimationWheel");
    reveal_strlit("SelectShake");
    assert(t == "AnimationWheel"@ + d + "SelectShake"@);
    lemma_exact_none_with_digit(t, 14);
    reveal(numbered_attribute_0);
    reveal_strlit("Gobo");
    lemma_prefix_mismatch(t, "Gobo"@, 0);
    reveal_strlit("Gobo");
    reveal_strlit("SelectSpin");
    lemma_prefix_mismatch(t, "Gobo"@, 0);
    reveal_strlit("Gobo");
    reveal_strlit("SelectShake");
    lemma_prefix_mismatch(t, "Gobo"@, 0);
    reveal_strlit("Gobo");
    reveal_strlit("SelectEffects");
    lemma_prefix_mismatch(t, "Gobo"@, 0);
    reveal_strlit("Gobo");
    reveal_strlit("WheelIndex");
    lemma_prefix_mismatch(t, "Gobo"@, 0);
    reveal_strlit("Gobo");
    reveal_strlit("WheelSpin");
    lemma_prefix_mismatch(t, "Gobo"@, 0);
    reveal_strlit("Gobo");
    reveal_strlit("WheelShake");
    lemma_prefix_mismatch(t, "Gobo"@, 0);
    reveal_strlit("Gobo");
    reveal_strlit("WheelRandom");
    lemma_prefix_mismatch(t, "Gobo"@, 0);
    reveal_strlit("Gobo");
    reveal_strlit("WheelAudio");
    lemma_prefix_mismatch(t, "Gobo"@, 0);
    reveal_strlit("Gobo");
    reveal_strlit("Pos");
    lemma_prefix_mismatch(t, "Gobo"@, 0);
    reveal_strlit("Gobo");
    reveal_strlit("PosRotate");
    lemma_prefix_mismatch(t, "Gobo"@, 0);
    reveal_strlit("Gobo");
    reveal_strlit("PosShake");
    lemma_prefix_mismatch(t, "Gobo"@, 0);
    reveal_strlit("AnimationWheel");
    lemma_rest_not_number(t, "AnimationWheel"@, d.len() as int);
    reveal_strlit("AnimationWheel");
    reveal_strlit("Audio");
    lemma_suffix_mismatch(t, "AnimationWheel"@, "Audio"@, 0);
    reveal_strlit("AnimationWheel");
    reveal_strlit("Macro");
    lemma_suffix_mismatch(t, "AnimationWheel"@, "Macro"@, 0);
    reveal_strlit("AnimationWheel");
    reveal_strlit("Random");
    lemma_suffix_mismatch(t, "AnimationWheel"@, "Random"@, 0);
    reveal_strlit("AnimationWheel");
    reveal_strlit("SelectEffects");
    lemma_suffix_mismatch(t, "AnimationWheel"@, "SelectEffects"@, 0);
    lemma_number_between("AnimationWheel"@, "SelectShake"@, n);
}

/// An attribute of the numbered family `AnimationWheelSelectSpin` reads back from its written
/// name: that text is no standard name, and every numbering rule before the
/// family's own rejects it.
proof fn text_reads_back_animation_wheel_select_spin(n: u8)
    ensures
        attribute_from_text(attribute_text(FixtureChannel3Attribute::AnimationWheelSelectSpin(n))) == Some(FixtureChannel3Attribute::AnimationWheelSelectSpin(n)),
{
    let d = decimal(n as nat);
    lemma_decimal_digits(n as nat);
    lemma_decimal_len_u8(n as nat);
    let t = attribute_text(FixtureChannel3Attribute::AnimationWheelSelectSpin(n));
    reveal_strlit("AnimationWheel");
    reveal_strlit("SelectSpin");
    assert(t == "AnimationWheel"@ + d + "SelectSpin"@);
    lemma_exact_none_with_digit(t, 14);
    reveal(numbered_attribute_0);
    reveal_strlit("Gobo");
    lemma_prefix_mismatch(t, "Gobo"@, 0);
    reveal_strlit("Gobo");
    reveal_strlit("SelectSpin");
    lemma_prefix_mismatch(t, "Gobo"@, 0);
    reveal_strlit("Gobo");
    reveal_strlit("SelectShake");
    lemma_prefix_mismatch(t, "Gobo"@, 0);
    reveal_strlit("Gobo");
    reveal_strlit("SelectEffects");
    lemma_prefix_mismatch(t, "Gobo"@, 0);
    reveal_strlit("Gobo");
    reveal_strlit("WheelIndex");
    lemma_prefix_mismatch(t, "Gobo"@, 0);
    reveal_strlit("Gobo");
    reveal_strlit("WheelSpin");
    lemma_prefix_mismatch(t, "Gobo"@, 0);
    reveal_strlit("Gobo");
    reveal_strlit("WheelShake");
    lemma_prefix_mismatch(t, "Gobo"@, 0);
    reveal_strlit("Gobo");
    reveal_strlit("WheelRandom");
    lemma_prefix_mismatch(t, "Gobo"@, 0);
    reveal_strlit("Gobo");
    reveal_strlit("WheelAudio");
    lemma_prefix_mismatch(t, "Gobo"@, 0);
    reveal_strlit("Gobo");
    reveal_strlit("Pos");
    lemma_prefix_mismatch(t, "Gobo"@, 0);
    reveal_strlit("Gobo");
    reveal_strlit("PosRotate");
    lemma_prefix_mismatch(t, "Gobo"@, 0);
    reveal_strlit("Gobo");
    reveal_strlit("PosShake");
    lemma_prefix_mismatch(t, "Gobo"@, 0);
    reveal_strlit("AnimationWheel");
    lemma_rest_not_number(t, "AnimationWheel"@, d.len() as int);
    reveal_strlit("AnimationWheel");
    reveal_strlit("Audio");
    lemma_suffix_mismatch(t, "AnimationWheel"@, "Audio"@, 0);
    reveal_strlit("AnimationWheel");
    reveal_strlit("Macro");
    lemma_suffix_mismatch(t, "AnimationWheel"@, "Macro"@, 0);
    reveal_strlit("AnimationWheel");
    reveal_strlit("Random");
    lemma_suffix_mismatch(t, "AnimationWheel"@, "Random"@, 0);
    reveal_strlit("AnimationWheel");
    reveal_strlit("SelectEffects");
    lemma_suffix_mismatch(t, "AnimationWheel"@, "SelectEffects"@, 0);
    reveal_strlit("AnimationWheel");
    reveal_strlit("SelectShake");
    lemma_suffix_mismatch(t, "AnimationWheel"@, "SelectShake"@, 0);
    lemma_number_between("AnimationWheel"@, "SelectSpin"@, n);
}

/// An attribute of the numbered family `AnimationWheelPos` reads back from its written
/// name: that text is no standard name, and every numbering rule before the
/// family's own rejects it.
proof fn text_reads_back_animation_wheel_pos(n: u8)
    ensures
        attribute_from_text(attribute_text(FixtureChannel3Attribute::AnimationWheelPos(n))) == Some(FixtureChannel3Attribute::AnimationWheelPos(n)),
{
    let d = decimal(n as nat);
    lemma_decimal_digits(n as nat);
    lemma_decimal_len_u8(n as nat);
    let t = attribute_text(FixtureChannel3Attribute::AnimationWheelPos(n));
    reveal_strlit("AnimationWheel");
    reveal_strlit("Pos");
    assert(t == "AnimationWheel"@ + d + "Pos"@);
    lemma_exact_none_with_digit(t, 14);
    reveal(numbered_attribute_0);
    reveal_strlit("Gobo");
    lemma_prefix_mismatch(t, "Gobo"@, 0);
    reveal_strlit("Gobo");
    reveal_strlit("SelectSpin");
    lemma_prefix_mismatch(t, "Gobo"@, 0);
    reveal_strlit("Gobo");
    reveal_strlit("SelectShake");
    lemma_prefix_mismatch(t, "Gobo"@, 0);
    reveal_strlit("Gobo");
    reveal_strlit("SelectEffects");
    lemma_prefix_mismatch(t, "Gobo"@, 0);
    reveal_strlit("Gobo");
    reveal_strlit("WheelIndex");
    lemma_prefix_mismatch(t, "Gobo"@, 0);
    reveal_strlit("Gobo");
    reveal_strlit("WheelSpin");
    lemma_prefix_mismatch(t, "Gobo"@, 0);
    reveal_strlit("Gobo");
    reveal_strlit("WheelShake");
    lemma_prefix_mismatch(t, "Gobo"@, 0);
    reveal_strlit("Gobo");
    reveal_strlit("WheelRandom");
    lemma_prefix_mismatch(t, "Gobo"@, 0);
    reveal_strlit("Gobo");
    reveal_strlit("WheelAudio");
    lemma_prefix_mismatch(t, "Gobo"@, 0);
    reveal_strlit("Gobo");
    reveal_strlit("Pos");
    lemma_prefix_mismatch(t, "Gobo"@, 0);
    reveal_strlit("Gobo");
    reveal_strlit("PosRotate");
    lemma_prefix_mismatch(t, "Gobo"@, 0);
    reveal_strlit("Gobo");
    reveal_strlit("PosShake");
    lemma_prefix_mismatch(t, "Gobo"@, 0);
    reveal_strlit("AnimationWheel");
    lemma_rest_not_number(t, "AnimationWheel"@, d.len() as int);
    reveal_strlit("AnimationWheel");
    reveal_strlit("Audio");
    lemma_suffix_mismatch(t, "AnimationWheel"@, "Audio"@, 0);
    reveal_strlit("AnimationWheel");
    reveal_strlit("Macro");
    lemma_suffix_mismatch(t, "AnimationWheel"@, "Macro"@, 0);
    reveal_strlit("AnimationWheel");
    reveal_strlit("Random");
    lemma_suffix_mismatch(t, "AnimationWheel"@, "Random"@, 0);
    reveal_strlit("AnimationWheel");
    reveal_strlit("SelectEffects");
    lemma_suffix_mismatch(t, "AnimationWheel"@, "SelectEffects"@, 1);
    reveal_strlit("AnimationWheel");
    reveal_strlit("SelectShake");
    lemma_suffix_mismatch(t, "AnimationWheel"@, "SelectShake"@, 0);
    reveal_strlit("AnimationWheel");
    reveal_strlit("SelectSpin");
    lemma_suffix_mismatch(t, "AnimationWheel"@, "SelectSpin"@, 0);
    lemma_number_between("AnimationWheel"@, "Pos"@, n);
}

/// An attribute of the numbered family `AnimationWheelPosRotate` reads back from its written
/// name: that text is no standard name, and every numbering rule before the
/// family's own rejects it.
proof fn text_reads_back_animation_wheel_pos_rotate(n: u8)
    ensures
        attribute_from_text(attribute_text(FixtureChannel3Attribute::AnimationWheelPosRotate(n))) == Some(FixtureChannel3Attribute::AnimationWheelPosRotate(n)),
{
    let d = decimal(n as nat);
    lemma_decimal_digits(n as nat);
    lemma_decimal_len_u8(n as nat);
    let t = attribute_text(FixtureChannel3Attribute::AnimationWheelPosRotate(n));
    reveal_strlit("AnimationWheel");
    reveal_strlit("PosRotate");
    assert(t == "AnimationWheel"@ + d + "PosRotate"@);
    lemma_exact_none_with_digit(t, 14);
    reveal(numbered_attribute_0);
    reveal_strlit("Gobo");
    lemma_prefix_mismatch(t, "Gobo"@, 0);
    reveal_strlit("Gobo");
    reveal_strlit("SelectSpin");
    lemma_prefix_mismatch(t, "Gobo"@, 0);
    reveal_strlit("Gobo");
    reveal_strlit("SelectShake");
    lemma_prefix_mismatch(t, "Gobo"@, 0);
    reveal_strlit("Gobo");
    reveal_strlit("SelectEffects");
    lemma_prefix_mismatch(t, "Gobo"@, 0);
    reveal_strlit("Gobo");
    reveal_strlit("WheelIndex");
    lemma_prefix_mismatch(t, "Gobo"@, 0);
    reveal_strlit("Gobo");
    reveal_strlit("WheelSpin");
    lemma_prefix_mismatch(t, "Gobo"@, 0);
    reveal_strlit("Gobo");
    reveal_strlit("WheelShake");
    lemma_prefix_mismatch(t, "Gobo"@, 0);
    reveal_strlit("Gobo");
    reveal_strlit("WheelRandom");
    lemma_prefix_mismatch(t, "Gobo"@, 0);
    reveal_strlit("Gobo");
    reveal_strlit("WheelAudio");
    lemma_prefix_mismatch(t, "Gobo"@, 0);
    reveal_strlit("Gobo");
    reveal_strlit("Pos");
    lemma_prefix_mismatch(t, "Gobo"@, 0);
    reveal_strlit("Gobo");
    reveal_strlit("PosRotate");
    lemma_prefix_mismatch(t, "Gobo"@, 0);
    reveal_strlit("Gobo");
    reveal_strlit("PosShake");
    lemma_prefix_mismatch(t, "Gobo"@, 0);
    reveal_strlit("AnimationWheel");
    lemma_rest_not_number(t, "AnimationWheel"@, d.len() as int);
    reveal_strlit("AnimationWheel");
    reveal_strlit("Audio");
    lemma_suffix_mismatch(t, "AnimationWheel"@, "Audio"@, 0);
    reveal_strlit("AnimationWheel");
    reveal_strlit("Macro");
    lemma_suffix_mismatch(t, "AnimationWheel"@, "Macro"@, 0);
    reveal_strlit("AnimationWheel");
    reveal_strlit("Random");
    lemma_suffix_mismatch(t, "AnimationWheel"@, "Random"@, 0);
    reveal_strlit("AnimationWheel");
    reveal_strlit("SelectEffects");
    lemma_suffix_mismatch(t, "AnimationWheel"@, "SelectEffects"@, 0);
    reveal_strlit("AnimationWheel");
    reveal_strlit("SelectShake");
    lemma_suffix_mismatch(t, "AnimationWheel"@, "SelectShake"@, 1);
    reveal_strlit("AnimationWheel");
    reveal_strlit("SelectSpin");
    lemma_suffix_mismatch(t, "AnimationWheel"@, "SelectSpin"@, 0);
    reveal_strlit("AnimationWheel");
    reveal_strlit("Pos");
    lemma_suffix_mismatch(t, "AnimationWheel"@, "Pos"@, 0);
    lemma_number_between("AnimationWheel"@, "PosRotate"@, n);
}

/// An attribute of the numbered family `AnimationWheelPosShake` reads back from its written
/// name: that text is no standard name, and every numbering rule before the
/// family's own rejects it.
proof fn text_reads_back_animation_wheel_pos_shake(n: u8)
    ensures
        attribute_from_text(attribute_text(FixtureChannel3Attribute::AnimationWheelPosShake(n))) == Some(FixtureChannel3Attribute::AnimationWheelPosShake(n)),
{
    let d = decimal(n as nat);
    lemma_decimal_digits(n as nat);
    lemma_decimal_len_u8(n as nat);
    let t = attribute_text(FixtureChannel3Attribute::AnimationWheelPosShake(n));
    reveal_strlit("AnimationWheel");
    reveal_strlit("PosShake");
    assert(t == "AnimationWheel"@ + d + "PosShake"@);
    lemma_exact_none_with_digit(t, 14);
    reveal(numbered_attribute_0);
    reveal_strlit("Gobo");
    lemma_prefix_mismatch(t, "Gobo"@, 0);
    reveal_strlit("Gobo");
    reveal_strlit("SelectSpin");
    lemma_prefix_mismatch(t, "Gobo"@, 0);
    reveal_strlit("Gobo");
    reveal_strlit("SelectShake");
    lemma_prefix_mismatch(t, "Gobo"@, 0);
    reveal_strlit("Gobo");
    reveal_strlit("SelectEffects");
    lemma_prefix_mismatch(t, "Gobo"@, 0);
    reveal_strlit("Gobo");
    reveal_strlit("WheelIndex");
    lemma_prefix_mismatch(t, "Gobo"@, 0);
    reveal_strlit("Gobo");
    reveal_strlit("WheelSpin");
    lemma_prefix_mismatch(t, "Gobo"@, 0);
    reveal_strlit("Gobo");
    reveal_strlit("WheelShake");
    lemma_prefix_mismatch(t, "Gobo"@, 0);
    reveal_strlit("Gobo");
    reveal_strlit("WheelRandom");
    lemma_prefix_mismatch(t, "Gobo"@, 0);
    reveal_strlit("Gobo");
    reveal_strlit("WheelAudio");
    lemma_prefix_mismatch(t, "Gobo"@, 0);
    reveal_strlit("Gobo");
    reveal_strlit("Pos");
    lemma_prefix_mismatch(t, "Gobo"@, 0);
    reveal_strlit("Gobo");
    reveal_strlit("PosRotate");
    lemma_prefix_mismatch(t, "Gobo"@, 0);
    reveal_strlit("Gobo");
    reveal_strlit("PosShake");
    lemma_prefix_mismatch(t, "Gobo"@, 0);
    reveal_strlit("AnimationWheel");
    lemma_rest_not_number(t, "AnimationWheel"@, d.len() as int);
    reveal_strlit("AnimationWheel");
    reveal_strlit("Audio");
    lemma_suffix_mismatch(t, "AnimationWheel"@, "Audio"@, 0);
    reveal_strlit("AnimationWheel");
    reveal_strlit("Macro");
    lemma_suffix_mismatch(t, "AnimationWheel"@, "Macro"@, 0);
    reveal_strlit("AnimationWheel");
    reveal_strlit("Random");
    lemma_suffix_mismatch(t, "AnimationWheel"@, "Random"@, 0);
    reveal_strlit("AnimationWheel");
    reveal_strlit("SelectEffects");
    lemma_suffix_mismatch(t, "AnimationWheel"@, "SelectEffects"@, 0);
    reveal_strlit("AnimationWheel");
    reveal_strlit("SelectShake");
    lemma_suffix_mismatch(t, "AnimationWheel"@, "SelectShake"@, 5);
    reveal_strlit("AnimationWheel");
    reveal_strlit("SelectSpin");
    lemma_suffix_mismatch(t, "AnimationWheel"@, "SelectSpin"@, 0);
    reveal_strlit("AnimationWheel");
    reveal_strlit("Pos");
    lemma_suffix_mismatch(t, "AnimationWheel"@, "Pos"@, 0);
    reveal_strlit("AnimationWheel");
    reveal_strlit("PosRotate");
    lemma_suffix_mismatch(t, "AnimationWheel"@, "PosRotate"@, 1);
    lemma_number_between("AnimationWheel"@, "PosShake"@, n);
}

/// An attribute of the numbered family `AnimationSystem` reads back from its written
/// name: that text is no standard name, and every numbering rule before the
/// family's own rejects it.
proof fn text_reads_back_animation_system(n: u8)
    ensures
        attribute_from_text(attribute_text(FixtureChannel3Attribute::AnimationSystem(n))) == Some(FixtureChannel3Attribute::AnimationSystem(n)),
{
    let d = decimal(n as nat);
    lemma_decimal_digits(n as nat);
    lemma_decimal_len_u8(n as nat);
    let t = attribute_text(FixtureChannel3Attribute::AnimationSystem(n));
    reveal_strlit("AnimationSystem");
    assert(t == "AnimationSystem"@ + d);
    lemma_exact_none_with_digit(t, 15);
    reveal(numbered_attribute_0);
    reveal_strlit("Gobo");
    lemma_prefix_mismatch(t, "Gobo"@, 0);
    reveal_strlit("Gobo");
    reveal_strlit("SelectSpin");
    lemma_prefix_mismatch(t, "Gobo"@, 0);
    reveal_strlit("Gobo");
    reveal_strlit("SelectShake");
    lemma_prefix_mismatch(t, "Gobo"@, 0);
    reveal_strlit("Gobo");
    reveal_strlit("SelectEffects");
    lemma_prefix_mismatch(t, "Gobo"@, 0);
    reveal_strlit("Gobo");
    reveal_strlit("WheelIndex");
    lemma_prefix_mismatch(t, "Gobo"@, 0);
    reveal_strlit("Gobo");
    reveal_strlit("WheelSpin");
    lemma_prefix_mismatch(t, "Gobo"@, 0);
    reveal_strlit("Gobo");
    reveal_strlit("WheelShake");
    lemma_prefix_mismatch(t, "Gobo"@, 0);
    reveal_strlit("Gobo");
    reveal_strlit("WheelRandom");
    lemma_prefix_mismatch(t, "Gobo"@, 0);
    reveal_strlit("Gobo");
    reveal_strlit("WheelAudio");
    lemma_prefix_mismatch(t, "Gobo"@, 0);
    reveal_strlit("Gobo");
    reveal_strlit("Pos");
    lemma_prefix_mismatch(t, "Gobo"@, 0);
    reveal_strlit("Gobo");
    reveal_strlit("PosRotate");
    lemma_prefix_mismatch(t, "Gobo"@, 0);
    reveal_strlit("Gobo");
    reveal_strlit("PosShake");
    lemma_prefix_mismatch(t, "Gobo"@, 0);
    reveal_strlit("AnimationWheel");
    lemma_prefix_mismatch(t, "AnimationWheel"@, 9);
    reveal_strlit("AnimationWheel");
    reveal_strlit("Audio");
    lemma_prefix_mismatch(t, "AnimationWheel"@, 9);
    reveal_strlit("AnimationWheel");
    reveal_strlit("Macro");
    lemma_prefix_mismatch(t, "AnimationWheel"@, 9);
    reveal_strlit("AnimationWheel");
    reveal_strlit("Random");
    lemma_prefix_mismatch(t, "AnimationWheel"@, 9);
    reveal_strlit("AnimationWheel");
    reveal_strlit("SelectEffects");
    lemma_prefix_mismatch(t, "AnimationWheel"@, 9);
    reveal_strlit("AnimationWheel");
    reveal_strlit("SelectShake");
    lemma_prefix_mismatch(t, "AnimationWheel"@, 9);
    reveal_strlit("AnimationWheel");
    reveal_strlit("SelectSpin");
    lemma_prefix_mismatch(t, "AnimationWheel"@, 9);
    reveal_strlit("AnimationWheel");
    reveal_strlit("Pos");
    lemma_prefix_mismatch(t, "AnimationWheel"@, 9);
    reveal_strlit("AnimationWheel");
    reveal_strlit("PosRotate");
    lemma_prefix_mismatch(t, "AnimationWheel"@, 9);
    reveal_strlit("AnimationWheel");
    reveal_strlit("PosShake");
    lemma_prefix_mismatch(t, "AnimationWheel"@, 9);
    lemma_number_after("AnimationSystem"@, n);
}

/// An attribute of the numbered family `AnimationSystemRamp` reads back from its written
/// name: that text is no standard name, and every numbering rule before the
/// family's own rejects it.
proof fn text_reads_back_animation_system_ramp(n: u8)
    ensures
        attribute_from_text(attribute_text(FixtureChannel3Attribute::AnimationSystemRamp(n))) == Some(FixtureChannel3Attribute::AnimationSystemRamp(n)),
{
    let d = decimal(n as nat);
    lemma_decimal_digits(n as nat);
    lemma_decimal_len_u8(n as nat);
    let t = attribute_text(FixtureChannel3Attribute::AnimationSystemRamp(n));
    reveal_strlit("AnimationSystem");
    reveal_strlit("Ramp");
    assert(t == "AnimationSystem"@ + d + "Ramp"@);
    lemma_exact_none_with_digit(t, 15);
    reveal(numbered_attribute_0);
    reveal_strlit("Gobo");
    lemma_prefix_mismatch(t, "Gobo"@, 0);
    reveal_strlit("Gobo");
    reveal_strlit("SelectSpin");
    lemma_prefix_mismatch(t, "Gobo"@, 0);
    reveal_strlit("Gobo");
    reveal_strlit("SelectShake");
    lemma_prefix_mismatch(t, "Gobo"@, 0);
    reveal_strlit("Gobo");
    reveal_strlit("SelectEffects");
    lemma_prefix_mismatch(t, "Gobo"@, 0);
    reveal_strlit("Gobo");
    reveal_strlit("WheelIndex");
    lemma_prefix_mismatch(t, "Gobo"@, 0);
    reveal_strlit("Gobo");
    reveal_strlit("WheelSpin");
    lemma_prefix_mismatch(t, "Gobo"@, 0);
    reveal_strlit("Gobo");
    reveal_strlit("WheelShake");
    lemma_prefix_mismatch(t, "Gobo"@, 0);
    reveal_strlit("Gobo");
    reveal_strlit("WheelRandom");
    lemma_prefix_mismatch(t, "Gobo"@, 0);
    reveal_strlit("Gobo");
    reveal_strlit("WheelAudio");
    lemma_prefix_mismatch(t, "Gobo"@, 0);
    reveal_strlit("Gobo");
    reveal_strlit("Pos");
    lemma_prefix_mismatch(t, "Gobo"@, 0);
    reveal_strlit("Gobo");
    reveal_strlit("PosRotate");
    lemma_prefix_mismatch(t, "Gobo"@, 0);
    reveal_strlit("Gobo");
    reveal_strlit("PosShake");
    lemma_prefix_mismatch(t, "Gobo"@, 0);
    reveal_strlit("AnimationWheel");
    lemma_prefix_mismatch(t, "AnimationWheel"@, 9);
    reveal_strlit("AnimationWheel");
    reveal_strlit("Audio");
    lemma_prefix_mismatch(t, "AnimationWheel"@, 9);
    reveal_strlit("AnimationWheel");
    reveal_strlit("Macro");
    lemma_prefix_mismatch(t, "AnimationWheel"@, 9);
    reveal_strlit("AnimationWheel");
    reveal_strlit("Random");
    lemma_prefix_mismatch(t, "AnimationWheel"@, 9);
    reveal_strlit("AnimationWheel");
    reveal_strlit("SelectEffects");
    lemma_prefix_mismatch(t, "AnimationWheel"@, 9);
    reveal_strlit("AnimationWheel");
    reveal_strlit("SelectShake");
    lemma_prefix_mismatch(t, "AnimationWheel"@, 9);
    reveal_strlit("AnimationWheel");
    reveal_strlit("SelectSpin");
    lemma_prefix_mismatch(t, "AnimationWheel"@, 9);
    reveal_strlit("AnimationWheel");
    reveal_strlit("Pos");
    lemma_prefix_mismatch(t, "AnimationWheel"@, 9);
    reveal_strlit("AnimationWheel");
    reveal_strlit("PosRotate");
    lemma_prefix_mismatch(t, "AnimationWheel"@, 9);
    reveal_strlit("AnimationWheel");
    reveal_strlit("PosShake");
    lemma_prefix_mismatch(t, "AnimationWheel"@, 9);
    reveal_strlit("AnimationSystem");
    lemma_rest_not_number(t, "AnimationSystem"@, d.len() as int);
    lemma_number_between("AnimationSystem"@, "Ramp"@, n);
}

/// An attribute of the numbered family `AnimationSystemShake` reads back from its written
/// name: that text is no standard name, and every numbering rule before the
/// family's own rejects it.
proof fn text_reads_back_animation_system_shake(n: u8)
    ensures
        attribute_from_text(attribute_text(FixtureChannel3Attribute::AnimationSystemShake(n))) == Some(FixtureChannel3Attribute::AnimationSystemShake(n)),
{
    let d = decimal(n as nat);
    lemma_decimal_digits(n as nat);
    lemma_decimal_len_u8(n as nat);
    let t = attribute_text(FixtureChannel3Attribute::AnimationSystemShake(n));
    reveal_strlit("AnimationSystem");
    reveal_strlit("Shake");
    assert(t == "AnimationSystem"@ + d + "Shake"@);
    lemma_exact_none_with_digit(t, 15);
    reveal(numbered_attribute_0);
    reveal_strlit("Gobo");
    lemma_prefix_mismatch(t, "Gobo"@, 0);
    reveal_strlit("Gobo");
    reveal_strlit("SelectSpin");
    lemma_prefix_mismatch(t, "Gobo"@, 0);
    reveal_strlit("Gobo");
    reveal_strlit("SelectShake");
    lemma_prefix_mismatch(t, "Gobo"@, 0);
    reveal_strlit("Gobo");
    reveal_strlit("SelectEffects");
    lemma_prefix_mismatch(t, "Gobo"@, 0);
    reveal_strlit("Gobo");
    reveal_strlit("WheelIndex");
    lemma_prefix_mismatch(t, "Gobo"@, 0);
    reveal_strlit("Gobo");
    reveal_strlit("WheelSpin");
    lemma_prefix_mismatch(t, "Gobo"@, 0);
    reveal_strlit("Gobo");
    reveal_strlit("WheelShake");
    lemma_prefix_mismatch(t, "Gobo"@, 0);
    reveal_strlit("Gobo");
    reveal_strlit("WheelRandom");
    lemma_prefix_mismatch(t, "Gobo"@, 0);
    reveal_strlit("Gobo");
    reveal_strlit("WheelAudio");
    lemma_prefix_mismatch(t, "Gobo"@, 0);
    reveal_strlit("Gobo");
    reveal_strlit("Pos");
    lemma_prefix_mismatch(t, "Gobo"@, 0);
    reveal_strlit("Gobo");
    reveal_strlit("PosRotate");
    lemma_prefix_mismatch(t, "Gobo"@, 0);
    reveal_strlit("Gobo");
    reveal_strlit("PosShake");
    lemma_prefix_mismatch(t, "Gobo"@, 0);
    reveal_strlit("AnimationWheel");
    lemma_prefix_mismatch(t, "AnimationWheel"@, 9);
    reveal_strlit("AnimationWheel");
    reveal_strlit("Audio");
    lemma_prefix_mismatch(t, "AnimationWheel"@, 9);
    reveal_strlit("AnimationWheel");
    reveal_strlit("Macro");
    lemma_prefix_mismatch(t, "AnimationWheel"@, 9);
    reveal_strlit("AnimationWheel");
    reveal_strlit("Random");
    lemma_prefix_mismatch(t, "AnimationWheel"@, 9);
    reveal_strlit("AnimationWheel");
    reveal_strlit("SelectEffects");
    lemma_prefix_mismatch(t, "AnimationWheel"@, 9);
    reveal_strlit("AnimationWheel");
    reveal_strlit("SelectShake");
    lemma_prefix_mismatch(t, "AnimationWheel"@, 9);
    reveal_strlit("AnimationWheel");
    reveal_strlit("SelectSpin");
    lemma_prefix_mismatch(t, "AnimationWheel"@, 9);
    reveal_strlit("AnimationWheel");
    reveal_strlit("Pos");
    lemma_prefix_mismatch(t, "AnimationWheel"@, 9);
    reveal_strlit("AnimationWheel");
    reveal_strlit("PosRotate");
    lemma_prefix_mismatch(t, "AnimationWheel"@, 9);
    reveal_strlit("AnimationWheel");
    reveal_strlit("PosShake");
    lemma_prefix_mismatch(t, "AnimationWheel"@, 9);
    reveal_strlit("AnimationSystem");
    lemma_rest_not_number(t, "AnimationSystem"@, d.len() as int);
    reveal_strlit("AnimationSystem");
    reveal_strlit("Ramp");
    lemma_suffix_mismatch(t, "AnimationSystem"@, "Ramp"@, 0);
    lemma_number_between("AnimationSystem"@, "Shake"@, n);
}

/// An attribute of the numbered family `AnimationSystemAudio` reads back from its written
/// name: that text is no standard name, and every numbering rule before the
/// family's own rejects it.
proof fn text_reads_back_animation_system_audio(n: u8)
    ensures
        attribute_from_text(attribute_text(FixtureChannel3Attribute::AnimationSystemAudio(n))) == Some(FixtureChannel3Attribute::AnimationSystemAudio(n)),
{
    let d = decimal(n as nat);
    lemma_decimal_digits(n as nat);
    lemma_decimal_len_u8(n as nat);
    let t = attribute_text(FixtureChannel3Attribute::AnimationSystemAudio(n));
    reveal_strlit("AnimationSystem");
    reveal_strlit("Audio");
    assert(t == "AnimationSystem"@ + d + "Audio"@);
    lemma_exact_none_with_digit(t, 15);
    reveal(numbered_attribute_0);
    reveal_strlit("Gobo");
    lemma_prefix_mismatch(t, "Gobo"@, 0);
    reveal_strlit("Gobo");
    reveal_strlit("SelectSpin");
    lemma_prefix_mismatch(t, "Gobo"@, 0);
    reveal_strlit("Gobo");
    reveal_strlit("SelectShake");
    lemma_prefix_mismatch(t, "Gobo"@, 0);
    reveal_strlit("Gobo");
    reveal_strlit("SelectEffects");
    lemma_prefix_mismatch(t, "Gobo"@, 0);
    reveal_strlit("Gobo");
    reveal_strlit("WheelIndex");
    lemma_prefix_mismatch(t, "Gobo"@, 0);
    reveal_strlit("Gobo");
    reveal_strlit("WheelSpin");
    lemma_prefix_mismatch(t, "Gobo"@, 0);
    reveal_strlit("Gobo");
    reveal_strlit("WheelShake");
    lemma_prefix_mismatch(t, "Gobo"@, 0);
    reveal_strlit("Gobo");
    reveal_strlit("WheelRandom");
    lemma_prefix_mismatch(t, "Gobo"@, 0);
    reveal_strlit("Gobo");
    reveal_strlit("WheelAudio");
    lemma_prefix_mismatch(t, "Gobo"@, 0);
    reveal_strlit("Gobo");
    reveal_strlit("Pos");
    lemma_prefix_mismatch(t, "Gobo"@, 0);
    reveal_strlit("Gobo");
    reveal_strlit("PosRotate");
    lemma_prefix_mismatch(t, "Gobo"@, 0);
    reveal_strlit("Gobo");
    reveal_strlit("PosShake");
    lemma_prefix_mismatch(t, "Gobo"@, 0);
    reveal_strlit("AnimationWheel");
    lemma_prefix_mismatch(t, "AnimationWheel"@, 9);
    reveal_strlit("AnimationWheel");
    reveal_strlit("Audio");
    lemma_prefix_mismatch(t, "AnimationWheel"@, 9);
    reveal_strlit("AnimationWheel");
    reveal_strlit("Macro");
    lemma_prefix_mismatch(t, "AnimationWheel"@, 9);
    reveal_strlit("AnimationWheel");
    reveal_strlit("Random");
    lemma_prefix_mismatch(t, "AnimationWheel"@, 9);
    reveal_strlit("AnimationWheel");
    reveal_strlit("SelectEffects");
    lemma_prefix_mismatch(t, "AnimationWheel"@, 9);
    reveal_strlit("AnimationWheel");
    reveal_strlit("SelectShake");
    lemma_prefix_mismatch(t, "AnimationWheel"@, 9);
    reveal_strlit("AnimationWheel");
    reveal_strlit("SelectSpin");
    lemma_prefix_mismatch(t, "AnimationWheel"@, 9);
    reveal_strlit("AnimationWheel");
    reveal_strlit("Pos");
    lemma_prefix_mismatch(t, "AnimationWheel"@, 9);
    reveal_strlit("AnimationWheel");
    reveal_strlit("PosRotate");
    lemma_prefix_mismatch(t, "AnimationWheel"@, 9);
    reveal_strlit("AnimationWheel");
    reveal_strlit("PosShake");
    lemma_prefix_mismatch(t, "AnimationWheel"@, 9);
    reveal_strlit("AnimationSystem");
    lemma_rest_not_number(t, "AnimationSystem"@, d.len() as int);
    reveal_strlit("AnimationSystem");
    reveal_strlit("Ramp");
    lemma_suffix_mismatch(t, "AnimationSystem"@, "Ramp"@, 0);
    reveal_strlit("AnimationSystem");
    reveal_strlit("Shake");
    lemma_suffix_mismatch(t, "AnimationSystem"@, "Shake"@, 0);
    lemma_number_between("AnimationSystem"@, "Audio"@, n);
}

/// An attribute of the numbered family `AnimationSystemRandom` reads back from its written
/// name: that text is no standard name, and every numbering rule before the
/// family's own rejects it.
proof fn text_reads_back_animation_system_random(n: u8)
    ensures
        attribute_from_text(attribute_text(FixtureChannel3Attribute::AnimationSystemRandom(n))) == Some(FixtureChannel3Attribute::AnimationSystemRandom(n)),
{
    let d = decimal(n as nat);
    lemma_decimal_digits(n as nat);
    lemma_decimal_len_u8(n as nat);
    let t = attribute_text(FixtureChannel3Attribute::AnimationSystemRandom(n));
    reveal_strlit("AnimationSystem");
    reveal_strlit("Random");
    assert(t == "AnimationSystem"@ + d + "Random"@);
    lemma_exact_none_with_digit(t, 15);
    reveal(numbered_attribute_0);
    reveal_strlit("Gobo");
    lemma_prefix_mismatch(t, "Gobo"@, 0);
    reveal_strlit("Gobo");
    reveal_strlit("SelectSpin");
    lemma_prefix_mismatch(t, "Gobo"@, 0);
    reveal_strlit("Gobo");
    reveal_strlit("SelectShake");
    lemma_prefix_mismatch(t, "Gobo"@, 0);
    reveal_strlit("Gobo");
    reveal_strlit("SelectEffects");
    lemma_prefix_mismatch(t, "Gobo"@, 0);
    reveal_strlit("Gobo");
    reveal_strlit("WheelIndex");
    lemma_prefix_mismatch(t, "Gobo"@, 0);
    reveal_strlit("Gobo");
    reveal_strlit("WheelSpin");
    lemma_prefix_mismatch(t, "Gobo"@, 0);
    reveal_strlit("Gobo");
    reveal_strlit("WheelShake");
    lemma_prefix_mismatch(t, "Gobo"@, 0);
    reveal_strlit("Gobo");
    reveal_strlit("WheelRandom");
    lemma_prefix_mismatch(t, "Gobo"@, 0);
    reveal_strlit("Gobo");
    reveal_strlit("WheelAudio");
    lemma_prefix_mismatch(t, "Gobo"@, 0);
    reveal_strlit("Gobo");
    reveal_strlit("Pos");
    lemma_prefix_mismatch(t, "Gobo"@, 0);
    reveal_strlit("Gobo");
    reveal_strlit("PosRotate");
    lemma_prefix_mismatch(t, "Gobo"@, 0);
    reveal_strlit("Gobo");
    reveal_strlit("PosShake");
    lemma_prefix_mismatch(t, "Gobo"@, 0);
    reveal_strlit("AnimationWheel");
    lemma_prefix_mismatch(t, "AnimationWheel"@, 9);
    reveal_strlit("AnimationWheel");
    reveal_strlit("Audio");
    lemma_prefix_mismatch(t, "AnimationWheel"@, 9);
    reveal_strlit("AnimationWheel");
    reveal_strlit("Macro");
    lemma_prefix_mismatch(t, "AnimationWheel"@, 9);
    reveal_strlit("AnimationWheel");
    reveal_strlit("Random");
    lemma_prefix_mismatch(t, "AnimationWheel"@, 9);
    reveal_strlit("AnimationWheel");
    reveal_strlit("SelectEffects");
    lemma_prefix_mismatch(t, "AnimationWheel"@, 9);
    reveal_strlit("AnimationWheel");
    reveal_strlit("SelectShake");
    lemma_prefix_mismatch(t, "AnimationWheel"@, 9);
    reveal_strlit("AnimationWheel");
    reveal_strlit("SelectSpin");
    lemma_prefix_mismatch(t, "AnimationWheel"@, 9);
    reveal_strlit("AnimationWheel");
    reveal_strlit("Pos");
    lemma_prefix_mismatch(t, "AnimationWheel"@, 9);
    reveal_strlit("AnimationWheel");
    reveal_strlit("PosRotate");
    lemma_prefix_mismatch(t, "AnimationWheel"@, 9);
    reveal_strlit("AnimationWheel");
    reveal_strlit("PosShake");
    lemma_prefix_mismatch(t, "AnimationWheel"@, 9);
    reveal_strlit("AnimationSystem");
    lemma_rest_not_number(t, "AnimationSystem"@, d.len() as int);
    reveal_strlit("AnimationSystem");
    reveal_strlit("Ramp");
    lemma_suffix_mismatch(t, "AnimationSystem"@, "Ramp"@, 0);
    reveal_strlit("AnimationSystem");
    reveal_strlit("Shake");
    lemma_suffix_mismatch(t, "AnimationSystem"@, "Shake"@, 0);
    reveal_strlit("AnimationSystem");
    reveal_strlit("Audio");
    lemma_suffix_mismatch(t, "AnimationSystem"@, "Audio"@, 0);
    lemma_number_between("AnimationSystem"@, "Random"@, n);
}

/// An attribute of the numbered family `AnimationSystemPos` reads back from its written
/// name: that text is no standard name, and every numbering rule before the
/// family's own rejects it.
proof fn text_reads_back_animation_system_pos(n: u8)
    ensures
        attribute_from_text(attribute_text(FixtureChannel3Attribute::AnimationSystemPos(n))) == Some(FixtureChannel3Attribute::AnimationSystemPos(n)),
{
    let d = decimal(n as nat);
    lemma_decimal_digits(n as nat);
    lemma_decimal_len_u8(n as nat);
    let t = attribute_text(FixtureChannel3Attribute::AnimationSystemPos(n));
    reveal_strlit("AnimationSystem");
    reveal_strlit("Pos");
    assert(t == "AnimationSystem"@ + d + "Pos"@);
    lemma_exact_none_with_digit(t, 15);
    reveal(numbered_attribute_0);
    reveal_strlit("Gobo");
    lemma_prefix_mismatch(t, "Gobo"@, 0);
    reveal_strlit("Gobo");
    reveal_strlit("SelectSpin");
    lemma_prefix_mismatch(t, "Gobo"@, 0);
    reveal_strlit("Gobo");
    reveal_strlit("SelectShake");
    lemma_prefix_mismatch(t, "Gobo"@, 0);
    reveal_strlit("Gobo");
    reveal_strlit("SelectEffects");
    lemma_prefix_mismatch(t, "Gobo"@, 0);
    reveal_strlit("Gobo");
    reveal_strlit("WheelIndex");
    lemma_prefix_mismatch(t, "Gobo"@, 0);
    reveal_strlit("Gobo");
    reveal_strlit("WheelSpin");
    lemma_prefix_mismatch(t, "Gobo"@, 0);
    reveal_strlit("Gobo");
    reveal_strlit("WheelShake");
    lemma_prefix_mismatch(t, "Gobo"@, 0);
    reveal_strlit("Gobo");
    reveal_strlit("WheelRandom");
    lemma_prefix_mismatch(t, "Gobo"@, 0);
    reveal_strlit("Gobo");
    reveal_strlit("WheelAudio");
    lemma_prefix_mismatch(t, "Gobo"@, 0);
    reveal_strlit("Gobo");
    reveal_strlit("Pos");
    lemma_prefix_mismatch(t, "Gobo"@, 0);
    reveal_strlit("Gobo");
    reveal_strlit("PosRotate");
    lemma_prefix_mismatch(t, "Gobo"@, 0);
    reveal_strlit("Gobo");
    reveal_strlit("PosShake");
    lemma_prefix_mismatch(t, "Gobo"@, 0);
    reveal_strlit("AnimationWheel");
    lemma_prefix_mismatch(t, "AnimationWheel"@, 9);
    reveal_strlit("AnimationWheel");
    reveal_strlit("Audio");
    lemma_prefix_mismatch(t, "AnimationWheel"@, 9);
    reveal_strlit("AnimationWheel");
    reveal_strlit("Macro");
    lemma_prefix_mismatch(t, "AnimationWheel"@, 9);
    reveal_strlit("AnimationWheel");
    reveal_strlit("Random");
    lemma_prefix_mismatch(t, "AnimationWheel"@, 9);
    reveal_strlit("AnimationWheel");
    reveal_strlit("SelectEffects");
    lemma_prefix_mismatch(t, "AnimationWheel"@, 9);
    reveal_strlit("AnimationWheel");
    reveal_strlit("SelectShake");
    lemma_prefix_mismatch(t, "AnimationWheel"@, 9);
    reveal_strlit("AnimationWheel");
    reveal_strlit("SelectSpin");
    lemma_prefix_mismatch(t, "AnimationWheel"@, 9);
    reveal_strlit("AnimationWheel");
    reveal_strlit("Pos");
    lemma_prefix_mismatch(t, "AnimationWheel"@, 9);
    reveal_strlit("AnimationWheel");
    reveal_strlit("PosRotate");
    lemma_prefix_mismatch(t, "AnimationWheel"@, 9);
    reveal_strlit("AnimationWheel");
    reveal_strlit("PosShake");
    lemma_prefix_mismatch(t, "AnimationWheel"@, 9);
    reveal_strlit("AnimationSystem");
    lemma_rest_not_number(t, "AnimationSystem"@, d.len() as int);
    reveal_strlit("AnimationSystem");
    reveal_strlit("Ramp");
    lemma_suffix_mismatch(t, "AnimationSystem"@, "Ramp"@, 0);
    reveal_strlit("AnimationSystem");
    reveal_strlit("Shake");
    lemma_suffix_mismatch(t, "AnimationSystem"@, "Shake"@, 0);
    reveal_strlit("AnimationSystem");
    reveal_strlit("Audio");
    lemma_suffix_mismatch(t, "AnimationSystem"@, "Audio"@, 0);
    reveal_strlit("AnimationSystem");
    reveal_strlit("Random");
    lemma_suffix_mismatch(t, "AnimationSystem"@, "Random"@, 0);
    lemma_number_between("AnimationSystem"@, "Pos"@, n);
}

/// An attribute of the numbered family `AnimationSystemPosRotate` reads back from its written
/// name: that text is no standard name, and every numbering rule before the
/// family's own rejects it.
proof fn text_reads_back_animation_system_pos_rotate(n: u8)
    ensures
        attribute_from_text(attribute_text(FixtureChannel3Attribute::AnimationSystemPosRotate(n))) == Some(FixtureChannel3Attribute::AnimationSystemPosRotate(n)),
{
    let d = decimal(n as nat);
    lemma_decimal_digits(n as nat);
    lemma_decimal_len_u8(n as nat);
    let t = attribute_text(FixtureChannel3Attribute::AnimationSystemPosRotate(n));
    reveal_strlit("AnimationSystem");
    reveal_strlit("PosRotate");
    assert(t == "AnimationSystem"@ + d + "PosRotate"@);
    lemma_exact_none_with_digit(t, 15);
    reveal(numbered_attribute_0);
    reveal_strlit("Gobo");
    lemma_prefix_mismatch(t, "Gobo"@, 0);
    reveal_strlit("Gobo");
    reveal_strlit("SelectSpin");
    lemma_prefix_mismatch(t, "Gobo"@, 0);
    reveal_strlit("Gobo");
    reveal_strlit("SelectShake");
    lemma_prefix_mismatch(t, "Gobo"@, 0);
    reveal_strlit("Gobo");
    reveal_strlit("SelectEffects");
    lemma_prefix_mismatch(t, "Gobo"@, 0);
    reveal_strlit("Gobo");
    reveal_strlit("WheelIndex");
    lemma_prefix_mismatch(t, "Gobo"@, 0);
    reveal_strlit("Gobo");
    reveal_strlit("WheelSpin");
    lemma_prefix_mismatch(t, "Gobo"@, 0);
    reveal_strlit("Gobo");
    reveal_strlit("WheelShake");
    lemma_prefix_mismatch(t, "Gobo"@, 0);
    reveal_strlit("Gobo");
    reveal_strlit("WheelRandom");
    lemma_prefix_mismatch(t, "Gobo"@, 0);
    reveal_strlit("Gobo");
    reveal_strlit("WheelAudio");
    lemma_prefix_mismatch(t, "Gobo"@, 0);
    reveal_strlit("Gobo");
    reveal_strlit("Pos");
    lemma_prefix_mismatch(t, "Gobo"@, 0);
    reveal_strlit("Gobo");
    reveal_strlit("PosRotate");
    lemma_prefix_mismatch(t, "Gobo"@, 0);
    reveal_strlit("Gobo");
    reveal_strlit("PosShake");
    lemma_prefix_mismatch(t, "Gobo"@, 0);
    reveal_strlit("AnimationWheel");
    lemma_prefix_mismatch(t, "AnimationWheel"@, 9);
    reveal_strlit("AnimationWheel");
    reveal_strlit("Audio");
    lemma_prefix_mismatch(t, "AnimationWheel"@, 9);
    reveal_strlit("AnimationWheel");
    reveal_strlit("Macro");
    lemma_prefix_mismatch(t, "AnimationWheel"@, 9);
    reveal_strlit("AnimationWheel");
    reveal_strlit("Random");
    lemma_prefix_mismatch(t, "AnimationWheel"@, 9);
    reveal_strlit("AnimationWheel");
    reveal_strlit("SelectEffects");
    lemma_prefix_mismatch(t, "AnimationWheel"@, 9);
    reveal_strlit("AnimationWheel");
    reveal_strlit("SelectShake");
    lemma_prefix_mismatch(t, "AnimationWheel"@, 9);
    reveal_strlit("AnimationWheel");
    reveal_strlit("SelectSpin");
    lemma_prefix_mismatch(t, "AnimationWheel"@, 9);
    reveal_strlit("AnimationWheel");
    reveal_strlit("Pos");
    lemma_prefix_mismatch(t, "AnimationWheel"@, 9);
    reveal_strlit("AnimationWheel");
    reveal_strlit("PosRotate");
    lemma_prefix_mismatch(t, "AnimationWheel"@, 9);
    reveal_strlit("AnimationWheel");
    reveal_strlit("PosShake");
    lemma_prefix_mismatch(t, "AnimationWheel"@, 9);
    reveal_strlit("AnimationSystem");
    lemma_rest_not_number(t, "AnimationSystem"@, d.len() as int);
    reveal_strlit("AnimationSystem");
    reveal_strlit("Ramp");
    lemma_suffix_mismatch(t, "AnimationSystem"@, "Ramp"@, 0);
    reveal_strlit("AnimationSystem");
    reveal_strlit("Shake");
    lemma_suffix_mismatch(t, "AnimationSystem"@, "Shake"@, 1);
    reveal_strlit("AnimationSystem");
    reveal_strlit("Audio");
    lemma_suffix_mismatch(t, "AnimationSystem"@, "Audio"@, 0);
    reveal_strlit("AnimationSystem");
    reveal_strlit("Random");
    lemma_suffix_mismatch(t, "AnimationSystem"@, "Random"@, 0);
    reveal_strlit("AnimationSystem");
    reveal_strlit("Pos");
    lemma_suffix_mismatch(t, "AnimationSystem"@, "Pos"@, 0);
    lemma_number_between("AnimationSystem"@, "PosRotate"@, n);
}

/// An attribute of the numbered family `AnimationSystemPosShake` reads back from its written
/// name: that text is no standard name, and every numbering rule before the
/// family's own rejects it.
proof fn text_reads_back_animation_system_pos_shake(n: u8)
    ensures
        attribute_from_text(attribute_text(FixtureChannel3Attribute::AnimationSystemPosShake(n))) == Some(FixtureChannel3Attribute::AnimationSystemPosShake(n)),
{
    let d = decimal(n as nat);
    lemma_decimal_digits(n as nat);
    lemma_decimal_len_u8(n as nat);
    let t = attribute_text(FixtureChannel3Attribute::AnimationSystemPosShake(n));
    reveal_strlit("AnimationSystem");
    reveal_strlit("PosShake");
    assert(t == "AnimationSystem"@ + d + "PosShake"@);
    lemma_exact_none_with_digit(t, 15);
    reveal(numbered_attribute_0);
    reveal_strlit("Gobo");
    lemma_prefix_mismatch(t, "Gobo"@, 0);
    reveal_strlit("Gobo");
    reveal_strlit("SelectSpin");
    lemma_prefix_mismatch(t, "Gobo"@, 0);
    reveal_strlit("Gobo");
    reveal_strlit("SelectShake");
    lemma_prefix_mismatch(t, "Gobo"@, 0);
    reveal_strlit("Gobo");
    reveal_strlit("SelectEffects");
    lemma_prefix_mismatch(t, "Gobo"@, 0);
    reveal_strlit("Gobo");
    reveal_strlit("WheelIndex");
    lemma_prefix_mismatch(t, "Gobo"@, 0);
    reveal_strlit("Gobo");
    reveal_strlit("WheelSpin");
    lemma_prefix_mismatch(t, "Gobo"@, 0);
    reveal_strlit("Gobo");
    reveal_strlit("WheelShake");
    lemma_prefix_mismatch(t, "Gobo"@, 0);
    reveal_strlit("Gobo");
    reveal_strlit("WheelRandom");
    lemma_prefix_mismatch(t, "Gobo"@, 0);
    reveal_strlit("Gobo");
    reveal_strlit("WheelAudio");
    lemma_prefix_mismatch(t, "Gobo"@, 0);
    reveal_strlit("Gobo");
    reveal_strlit("Pos");
    lemma_prefix_mismatch(t, "Gobo"@, 0);
    reveal_strlit("Gobo");
    reveal_strlit("PosRotate");
    lemma_prefix_mismatch(t, "Gobo"@, 0);
    reveal_strlit("Gobo");
    reveal_strlit("PosShake");
    lemma_prefix_mismatch(t, "Gobo"@, 0);
    reveal_strlit("AnimationWheel");
    lemma_prefix_mismatch(t, "AnimationWheel"@, 9);
    reveal_strlit("AnimationWheel");
    reveal_strlit("Audio");
    lemma_prefix_mismatch(t, "AnimationWheel"@, 9);
    reveal_strlit("AnimationWheel");
    reveal_strlit("Macro");
    lemma_prefix_mismatch(t, "AnimationWheel"@, 9);
    reveal_strlit("AnimationWheel");
    reveal_strlit("Random");
    lemma_prefix_mismatch(t, "AnimationWheel"@, 9);
    reveal_strlit("AnimationWheel");
    reveal_strlit("SelectEffects");
    lemma_prefix_mismatch(t, "AnimationWheel"@, 9);
    reveal_strlit("AnimationWheel");
    reveal_strlit("SelectShake");
    lemma_prefix_mismatch(t, "AnimationWheel"@, 9);
    reveal_strlit("AnimationWheel");
    reveal_strlit("SelectSpin");
    lemma_prefix_mismatch(t, "AnimationWheel"@, 9);
    reveal_strlit("AnimationWheel");
    reveal_strlit("Pos");
    lemma_prefix_mismatch(t, "AnimationWheel"@, 9);
    reveal_strlit("AnimationWheel");
    reveal_strlit("PosRotate");
    lemma_prefix_mismatch(t, "AnimationWheel"@, 9);
    reveal_strlit("AnimationWheel");
    reveal_strlit("PosShake");
    lemma_prefix_mismatch(t, "AnimationWheel"@, 9);
    reveal_strlit("AnimationSystem");
    lemma_rest_not_number(t, "AnimationSystem"@, d.len() as int);
    reveal_strlit("AnimationSystem");
    reveal_strlit("Ramp");
    lemma_suffix_mismatch(t, "AnimationSystem"@, "Ramp"@, 0);
    reveal_strlit("AnimationSystem");
    reveal_strlit("Shake");
    lemma_middle_not_number(t, "AnimationSystem"@, "Shake"@, d.len() as int);
    reveal_strlit("AnimationSystem");
    reveal_strlit("Audio");
    lemma_suffix_mismatch(t, "AnimationSystem"@, "Audio"@, 0);
    reveal_strlit("AnimationSystem");
    reveal_strlit("Random");
    lemma_suffix_mismatch(t, "AnimationSystem"@, "Random"@, 0);
    reveal_strlit("AnimationSystem");
    reveal_strlit("Pos");
    lemma_suffix_mismatch(t, "AnimationSystem"@, "Pos"@, 0);
    reveal_strlit("AnimationSystem");
    reveal_strlit("PosRotate");
    lemma_suffix_mismatch(t, "AnimationSystem"@, "PosRotate"@, 1);
    lemma_number_between("AnimationSystem"@, "PosShake"@, n);
}

/// An attribute of the numbered family `AnimationSystemPosRandom` reads back from its written
/// name: that text is no standard name, and every numbering rule before the
/// family's own rejects it.
proof fn text_reads_back_animation_system_pos_random(n: u8)
    ensures
        attribute_from_text(attribute_text(FixtureChannel3Attribute::AnimationSystemPosRandom(n))) == Some(FixtureChannel3Attribute::AnimationSystemPosRandom(n)),
{
    let d = decimal(n as nat);
    lemma_decimal_digits(n as nat);
    lemma_decimal_len_u8(n as nat);
    let t = attribute_text(FixtureChannel3Attribute::AnimationSystemPosRandom(n));
    reveal_strlit("AnimationSystem");
    reveal_strlit("PosRandom");
    assert(t == "AnimationSystem"@ + d + "PosRandom"@);
    lemma_exact_none_with_digit(t, 15);
    reveal(numbered_attribute_0);
    reveal_strlit("Gobo");
    lemma_prefix_mismatch(t, "Gobo"@, 0);
    reveal_strlit("Gobo");
    reveal_strlit("SelectSpin");
    lemma_prefix_mismatch(t, "Gobo"@, 0);
    reveal_strlit("Gobo");
    reveal_strlit("SelectShake");
    lemma_prefix_mismatch(t, "Gobo"@, 0);
    reveal_strlit("Gobo");
    reveal_strlit("SelectEffects");
    lemma_prefix_mismatch(t, "Gobo"@, 0);
    reveal_strlit("Gobo");
    reveal_strlit("WheelIndex");
    lemma_prefix_mismatch(t, "Gobo"@, 0);
    reveal_strlit("Gobo");
    reveal_strlit("WheelSpin");
    lemma_prefix_mismatch(t, "Gobo"@, 0);
    reveal_strlit("Gobo");
    reveal_strlit("WheelShake");
    lemma_prefix_mismatch(t, "Gobo"@, 0);
    reveal_strlit("Gobo");
    reveal_strlit("WheelRandom");
    lemma_prefix_mismatch(t, "Gobo"@, 0);
    reveal_strlit("Gobo");
    reveal_strlit("WheelAudio");
    lemma_prefix_mismatch(t, "Gobo"@, 0);
    reveal_strlit("Gobo");
    reveal_strlit("Pos");
    lemma_prefix_mismatch(t, "Gobo"@, 0);
    reveal_strlit("Gobo");
    reveal_strlit("PosRotate");
    lemma_prefix_mismatch(t, "Gobo"@, 0);
    reveal_strlit("Gobo");
    reveal_strlit("PosShake");
    lemma_prefix_mismatch(t, "Gobo"@, 0);
    reveal_strlit("AnimationWheel");
    lemma_prefix_mismatch(t, "AnimationWheel"@, 9);
    reveal_strlit("AnimationWheel");
    reveal_strlit("Audio");
    lemma_prefix_mismatch(t, "AnimationWheel"@, 9);
    reveal_strlit("AnimationWheel");
    reveal_strlit("Macro");
    lemma_prefix_mismatch(t, "AnimationWheel"@, 9);
    reveal_strlit("AnimationWheel");
    reveal_strlit("Random");
    lemma_prefix_mismatch(t, "AnimationWheel"@, 9);
    reveal_strlit("AnimationWheel");
    reveal_strlit("SelectEffects");
    lemma_prefix_mismatch(t, "AnimationWheel"@, 9);
    reveal_strlit("AnimationWheel");
    reveal_strlit("SelectShake");
    lemma_prefix_mismatch(t, "AnimationWheel"@, 9);
    reveal_strlit("AnimationWheel");
    reveal_strlit("SelectSpin");
    lemma_prefix_mismatch(t, "AnimationWheel"@, 9);
    reveal_strlit("AnimationWheel");
    reveal_strlit("Pos");
    lemma_prefix_mismatch(t, "AnimationWheel"@, 9);
    reveal_strlit("AnimationWheel");
    reveal_strlit("PosRotate");
    lemma_prefix_mismatch(t, "AnimationWheel"@, 9);
    reveal_strlit("AnimationWheel");
    reveal_strlit("PosShake");
    lemma_prefix_mismatch(t, "AnimationWheel"@, 9);
    reveal_strlit("AnimationSystem");
    lemma_rest_not_number(t, "AnimationSystem"@, d.len() as int);
    reveal_strlit("AnimationSystem");
    reveal_strlit("Ramp");
    lemma_suffix_mismatch(t, "AnimationSystem"@, "Ramp"@, 0);
    reveal_strlit("AnimationSystem");
    reveal_strlit("Shake");
    lemma_suffix_mismatch(t, "AnimationSystem"@, "Shake"@, 0);
    reveal_strlit("AnimationSystem");
    reveal_strlit("Audio");
    lemma_suffix_mismatch(t, "AnimationSystem"@, "Audio"@, 0);
    reveal_strlit("AnimationSystem");
    reveal_strlit("Random");
    lemma_middle_not_number(t, "AnimationSystem"@, "Random"@, d.len() as int);
    reveal_strlit("AnimationSystem");
    reveal_strlit("Pos");
    lemma_suffix_mismatch(t, "AnimationSystem"@, "Pos"@, 0);
    reveal_strlit("AnimationSystem");
    reveal_strlit("PosRotate");
    lemma_suffix_mismatch(t, "AnimationSystem"@, "PosRotate"@, 0);
    reveal_strlit("AnimationSystem");
    reveal_strlit("PosShake");
    lemma_suffix_mismatch(t, "AnimationSystem"@, "PosShake"@, 0);
    lemma_number_between("AnimationSystem"@, "PosRandom"@, n);
}

/// An attribute of the numbered family `AnimationSystemPosAudio` reads back from its written
/// name: that text is no standard name, and every numbering rule before the
/// family's own rejects it.
proof fn text_reads_back_animation_system_pos_audio(n: u8)
    ensures
        attribute_from_text(attribute_text(FixtureChannel3Attribute::AnimationSystemPosAudio(n))) == Some(FixtureChannel3Attribute::AnimationSystemPosAudio(n)),
{
    let d = decimal(n as nat);
    lemma_decimal_digits(n as nat);
    lemma_decimal_len_u8(n as nat);
    let t = attribute_text(FixtureChannel3Attribute::AnimationSystemPosAudio(n));
    reveal_strlit("AnimationSystem");
    reveal_strlit("PosAudio");
    assert(t == "AnimationSystem"@ + d + "PosAudio"@);
    lemma_exact_none_with_digit(t, 15);
    reveal(numbered_attribute_0);
    reveal_strlit("Gobo");
    lemma_prefix_mismatch(t, "Gobo"@, 0);
    reveal_strlit("Gobo");
    reveal_strlit("SelectSpin");
    lemma_prefix_mismatch(t, "Gobo"@, 0);
    reveal_strlit("Gobo");
    reveal_strlit("SelectShake");
    lemma_prefix_mismatch(t, "Gobo"@, 0);
    reveal_strlit("Gobo");
    reveal_strlit("SelectEffects");
    lemma_prefix_mismatch(t, "Gobo"@, 0);
    reveal_strlit("Gobo");
    reveal_strlit("WheelIndex");
    lemma_prefix_mismatch(t, "Gobo"@, 0);
    reveal_strlit("Gobo");
    reveal_strlit("WheelSpin");
    lemma_prefix_mismatch(t, "Gobo"@, 0);
    reveal_strlit("Gobo");
    reveal_strlit("WheelShake");
    lemma_prefix_mismatch(t, "Gobo"@, 0);
    reveal_strlit("Gobo");
    reveal_strlit("WheelRandom");
    lemma_prefix_mismatch(t, "Gobo"@, 0);
    reveal_strlit("Gobo");
    reveal_strlit("WheelAudio");
    lemma_prefix_mismatch(t, "Gobo"@, 0);
    reveal_strlit("Gobo");
    reveal_strlit("Pos");
    lemma_prefix_mismatch(t, "Gobo"@, 0);
    reveal_strlit("Gobo");
    reveal_strlit("PosRotate");
    lemma_prefix_mismatch(t, "Gobo"@, 0);
    reveal_strlit("Gobo");
    reveal_strlit("PosShake");
    lemma_prefix_mismatch(t, "Gobo"@, 0);
    reveal_strlit("AnimationWheel");
    lemma_prefix_mismatch(t, "AnimationWheel"@, 9);
    reveal_strlit("AnimationWheel");
    reveal_strlit("Audio");
    lemma_prefix_mismatch(t, "AnimationWheel"@, 9);
    reveal_strlit("AnimationWheel");
    reveal_strlit("Macro");
    lemma_prefix_mismatch(t, "AnimationWheel"@, 9);
    reveal_strlit("AnimationWheel");
    reveal_strlit("Random");
    lemma_prefix_mismatch(t, "AnimationWheel"@, 9);
    reveal_strlit("AnimationWheel");
    reveal_strlit("SelectEffects");
    lemma_prefix_mismatch(t, "AnimationWheel"@, 9);
    reveal_strlit("AnimationWheel");
    reveal_strlit("SelectShake");
    lemma_prefix_mismatch(t, "AnimationWheel"@, 9);
    reveal_strlit("AnimationWheel");
    reveal_strlit("SelectSpin");
    lemma_prefix_mismatch(t, "AnimationWheel"@, 9);
    reveal_strlit("AnimationWheel");
    reveal_strlit("Pos");
    lemma_prefix_mismatch(t, "AnimationWheel"@, 9);
    reveal_strlit("AnimationWheel");
    reveal_strlit("PosRotate");
    lemma_prefix_mismatch(t, "AnimationWheel"@, 9);
    reveal_strlit("AnimationWheel");
    reveal_strlit("PosShake");
    lemma_prefix_mismatch(t, "AnimationWheel"@, 9);
    reveal_strlit("AnimationSystem");
    lemma_rest_not_number(t, "AnimationSystem"@, d.len() as int);
    reveal_strlit("AnimationSystem");
    reveal_strlit("Ramp");
    lemma_suffix_mismatch(t, "AnimationSystem"@, "Ramp"@, 0);
    reveal_strlit("AnimationSystem");
    reveal_strlit("Shake");
    lemma_suffix_mismatch(t, "AnimationSystem"@, "Shake"@, 0);
    reveal_strlit("AnimationSystem");
    reveal_strlit("Audio");
    lemma_middle_not_number(t, "AnimationSystem"@, "Audio"@, d.len() as int);
    reveal_strlit("AnimationSystem");
    reveal_strlit("Random");
    lemma_suffix_mismatch(t, "AnimationSystem"@, "Random"@, 0);
    reveal_strlit("AnimationSystem");
    reveal_strlit("Pos");
    lemma_suffix_mismatch(t, "AnimationSystem"@, "Pos"@, 0);
    reveal_strlit("AnimationSystem");
    reveal_strlit("PosRotate");
    lemma_suffix_mismatch(t, "AnimationSystem"@, "PosRotate"@, 0);
    reveal_strlit("AnimationSystem");
    reveal_strlit("PosShake");
    lemma_suffix_mismatch(t, "AnimationSystem"@, "PosShake"@, 0);
    reveal_strlit("AnimationSystem");
    reveal_strlit("PosRandom");
    lemma_suffix_mismatch(t, "AnimationSystem"@, "PosRandom"@, 0);
    lemma_number_between("AnimationSystem"@, "PosAudio"@, n);
}

/// An attribute of the numbered family `AnimationSystemMacro` reads back from its written
/// name: that text is no standard name, and every numbering rule before the
/// family's own rejects it.
proof fn text_reads_back_animation_system_macro(n: u8)
    ensures
        attribute_from_text(attribute_text(FixtureChannel3Attribute::AnimationSystemMacro(n))) == Some(FixtureChannel3Attribute::AnimationSystemMacro(n)),
{
    let d = decimal(n as nat);
    lemma_decimal_digits(n as nat);
    lemma_decimal_len_u8(n as nat);
    let t = attribute_text(FixtureChannel3Attribute::AnimationSystemMacro(n));
    reveal_strlit("AnimationSystem");
    reveal_strlit("Macro");
    assert(t == "AnimationSystem"@ + d + "Macro"@);
    lemma_exact_none_with_digit(t, 15);
    reveal(numbered_attribute_1);
    assert(numbered_attribute_0(t) is None) by {
        reveal(numbered_attribute_0);
        reveal_strlit("Gobo");
        lemma_prefix_mismatch(t, "Gobo"@, 0);
        reveal_strlit("Gobo");
        reveal_strlit("SelectSpin");
        lemma_prefix_mismatch(t, "Gobo"@, 0);
        reveal_strlit("Gobo");
        reveal_strlit("SelectShake");
        lemma_prefix_mismatch(t, "Gobo"@, 0);
        reveal_strlit("Gobo");
        reveal_strlit("SelectEffects");
        lemma_prefix_mismatch(t, "Gobo"@, 0);
        reveal_strlit("Gobo");
        reveal_strlit("WheelIndex");
        lemma_prefix_mismatch(t, "Gobo"@, 0);
        reveal_strlit("Gobo");
        reveal_strlit("WheelSpin");
        lemma_prefix_mismatch(t, "Gobo"@, 0);
        reveal_strlit("Gobo");
        reveal_strlit("WheelShake");
        lemma_prefix_mismatch(t, "Gobo"@, 0);
        reveal_strlit("Gobo");
        reveal_strlit("WheelRandom");
        lemma_prefix_mismatch(t, "Gobo"@, 0);
        reveal_strlit("Gobo");
        reveal_strlit("WheelAudio");
        lemma_prefix_mismatch(t, "Gobo"@, 0);
        reveal_strlit("Gobo");
        reveal_strlit("Pos");
        lemma_prefix_mismatch(t, "Gobo"@, 0);
        reveal_strlit("Gobo");
        reveal_strlit("PosRotate");
        lemma_prefix_mismatch(t, "Gobo"@, 0);
        reveal_strlit("Gobo");
        reveal_strlit("PosShake");
        lemma_prefix_mismatch(t, "Gobo"@, 0);
        reveal_strlit("AnimationWheel");
        lemma_prefix_mismatch(t, "AnimationWheel"@, 9);
        reveal_strlit("AnimationWheel");
        reveal_strlit("Audio");
        lemma_prefix_mismatch(t, "AnimationWheel"@, 9);
        reveal_strlit("AnimationWheel");
        reveal_strlit("Macro");
        lemma_prefix_mismatch(t, "AnimationWheel"@, 9);
        reveal_strlit("AnimationWheel");
        reveal_strlit("Random");
        lemma_prefix_mismatch(t, "AnimationWheel"@, 9);
        reveal_strlit("AnimationWheel");
        reveal_strlit("SelectEffects");
        lemma_prefix_mismatch(t, "AnimationWheel"@, 9);
        reveal_strlit("AnimationWheel");
        reveal_strlit("SelectShake");
        lemma_prefix_mismatch(t, "AnimationWheel"@, 9);
        reveal_strlit("AnimationWheel");
        reveal_strlit("SelectSpin");
        lemma_prefix_mismatch(t, "AnimationWheel"@, 9);
        reveal_strlit("AnimationWheel");
        reveal_strlit("Pos");
        lemma_prefix_mismatch(t, "AnimationWheel"@, 9);
        reveal_strlit("AnimationWheel");
        reveal_strlit("PosRotate");
        lemma_prefix_mismatch(t, "AnimationWheel"@, 9);
        reveal_strlit("AnimationWheel");
        reveal_strlit("PosShake");
        lemma_prefix_mismatch(t, "AnimationWheel"@, 9);
        reveal_strlit("AnimationSystem");
        lemma_rest_not_number(t, "AnimationSystem"@, d.len() as int);
        reveal_strlit("AnimationSystem");
        reveal_strlit("Ramp");
        lemma_suffix_mismatch(t, "AnimationSystem"@, "Ramp"@, 0);
        reveal_strlit("AnimationSystem");
        reveal_strlit("Shake");
        lemma_suffix_mismatch(t, "AnimationSystem"@, "Shake"@, 0);
        reveal_strlit("AnimationSystem");
        reveal_strlit("Audio");
        lemma_suffix_mismatch(t, "AnimationSystem"@, "Audio"@, 1);
        reveal_strlit("AnimationSystem");
        reveal_strlit("Random");
        lemma_suffix_mismatch(t, "AnimationSystem"@, "Random"@, 0);
        reveal_strlit("AnimationSystem");
        reveal_strlit("Pos");
        lemma_suffix_mismatch(t, "AnimationSystem"@, "Pos"@, 0);
        reveal_strlit("AnimationSystem");
        reveal_strlit("PosRotate");
        lemma_suffix_mismatch(t, "AnimationSystem"@, "PosRotate"@, 0);
        reveal_strlit("AnimationSystem");
        reveal_strlit("PosShake");
        lemma_suffix_mismatch(t, "AnimationSystem"@, "PosShake"@, 0);
        reveal_strlit("AnimationSystem");
        reveal_strlit("PosRandom");
        lemma_suffix_mismatch(t, "AnimationSystem"@, "PosRandom"@, 0);
        reveal_strlit("AnimationSystem");
        reveal_strlit("PosAudio");
        lemma_suffix_mismatch(t, "AnimationSystem"@, "PosAudio"@, 1);
    }
    lemma_number_between("AnimationSystem"@, "Macro"@, n);
}

/// An attribute of the numbered family `MediaFolder` reads back from its written
/// name: that text is no standard name, and every numbering rule before the
/// family's own rejects it.
proof fn text_reads_back_media_folder(n: u8)
    ensures
        attribute_from_text(attribute_text(FixtureChannel3Attribute::MediaFolder(n))) == Some(FixtureChannel3Attribute::MediaFolder(n)),
{
    let d = decimal(n as nat);
    lemma_decimal_digits(n as nat);
    lemma_decimal_len_u8(n as nat);
    let t = attribute_text(FixtureChannel3Attribute::MediaFolder(n));
    reveal_strlit("MediaFolder");
    assert(t == "MediaFolder"@ + d);
    lemma_exact_none_with_digit(t, 11);
    reveal(numbered_attribute_1);
    assert(numbered_attribute_0(t) is None) by {
        reveal(numbered_attribute_0);
        reveal_strlit("Gobo");
        lemma_prefix_mismatch(t, "Gobo"@, 0);
        reveal_strlit("Gobo");
        reveal_strlit("SelectSpin");
        lemma_prefix_mismatch(t, "Gobo"@, 0);
        reveal_strlit("Gobo");
        reveal_strlit("SelectShake");
        lemma_prefix_mismatch(t, "Gobo"@, 0);
        reveal_strlit("Gobo");
        reveal_strlit("SelectEffects");
        lemma_prefix_mismatch(t, "Gobo"@, 0);
        reveal_strlit("Gobo");
        reveal_strlit("WheelIndex");
        lemma_prefix_mismatch(t, "Gobo"@, 0);
        reveal_strlit("Gobo");
        reveal_strlit("WheelSpin");
        lemma_prefix_mismatch(t, "Gobo"@, 0);
        reveal_strlit("Gobo");
        reveal_strlit("WheelShake");
        lemma_prefix_mismatch(t, "Gobo"@, 0);
        reveal_strlit("Gobo");
        reveal_strlit("WheelRandom");
        lemma_prefix_mismatch(t, "Gobo"@, 0);
        reveal_strlit("Gobo");
        reveal_strlit("WheelAudio");
        lemma_prefix_mismatch(t, "Gobo"@, 0);
        reveal_strlit("Gobo");
        reveal_strlit("Pos");
        lemma_prefix_mismatch(t, "Gobo"@, 0);
        reveal_strlit("Gobo");
        reveal_strlit("PosRotate");
        lemma_prefix_mismatch(t, "Gobo"@, 0);
        reveal_strlit("Gobo");
        reveal_strlit("PosShake");
        lemma_prefix_mismatch(t, "Gobo"@, 0);
        reveal_strlit("AnimationWheel");
        lemma_prefix_mismatch(t, "AnimationWheel"@, 0);
        reveal_strlit("AnimationWheel");
        reveal_strlit("Audio");
        lemma_prefix_mismatch(t, "AnimationWheel"@, 0);
        reveal_strlit("AnimationWheel");
        reveal_strlit("Macro");
        lemma_prefix_mismatch(t, "AnimationWheel"@, 0);
        reveal_strlit("AnimationWheel");
        reveal_strlit("Random");
        lemma_prefix_mismatch(t, "AnimationWheel"@, 0);
        reveal_strlit("AnimationWheel");
        reveal_strlit("SelectEffects");
        lemma_prefix_mismatch(t, "AnimationWheel"@, 0);
        reveal_strlit("AnimationWheel");
        reveal_strlit("SelectShake");
        lemma_prefix_mismatch(t, "AnimationWheel"@, 0);
        reveal_strlit("AnimationWheel");
        reveal_strlit("SelectSpin");
        lemma_prefix_mismatch(t, "AnimationWheel"@, 0);
        reveal_strlit("AnimationWheel");
        reveal_strlit("Pos");
        lemma_prefix_mismatch(t, "AnimationWheel"@, 0);
        reveal_strlit("AnimationWheel");
        reveal_strlit("PosRotate");
        lemma_prefix_mismatch(t, "AnimationWheel"@, 0);
        reveal_strlit("AnimationWheel");
        reveal_strlit("PosShake");
        lemma_prefix_mismatch(t, "AnimationWheel"@, 0);
        reveal_strlit("AnimationSystem");
        lemma_prefix_mismatch(t, "AnimationSystem"@, 0);
        reveal_strlit("AnimationSystem");
        reveal_strlit("Ramp");
        lemma_prefix_mismatch(t, "AnimationSystem"@, 0);
        reveal_strlit("AnimationSystem");
        reveal_strlit("Shake");
        lemma_prefix_mismatch(t, "AnimationSystem"@, 0);
        reveal_strlit("AnimationSystem");
        reveal_strlit("Audio");
        lemma_prefix_mismatch(t, "AnimationSystem"@, 0);
        reveal_strlit("AnimationSystem");
        reveal_strlit("Random");
        lemma_prefix_mismatch(t, "AnimationSystem"@, 0);
        reveal_strlit("AnimationSystem");
        reveal_strlit("Pos");
        lemma_prefix_mismatch(t, "AnimationSystem"@, 0);
        reveal_strlit("AnimationSystem");
        reveal_strlit("PosRotate");
        lemma_prefix_mismatch(t, "AnimationSystem"@, 0);
        reveal_strlit("AnimationSystem");
        reveal_strlit("PosShake");
        lemma_prefix_mismatch(t, "AnimationSystem"@, 0);
        reveal_strlit("AnimationSystem");
        reveal_strlit("PosRandom");
        lemma_prefix_mismatch(t, "AnimationSystem"@, 0);
        reveal_strlit("AnimationSystem");
        reveal_strlit("PosAudio");
        lemma_prefix_mismatch(t, "AnimationSystem"@, 0);
    }
    reveal_strlit("AnimationSystem");
    reveal_strlit("Macro");
    lemma_prefix_mismatch(t, "AnimationSystem"@, 0);
    lemma_number_after("MediaFolder"@, n);
}

/// An attribute of the numbered family `MediaContent` reads back from its written
/// name: that text is no standard name, and every numbering rule before the
/// family's own rejects it.
proof fn text_reads_back_media_content(n: u8)
    ensures
        attribute_from_text(attribute_text(FixtureChannel3Attribute::MediaContent(n))) == Some(FixtureChannel3Attribute::MediaContent(n)),
{
    let d = decimal(n as nat);
    lemma_decimal_digits(n as nat);
    lemma_decimal_len_u8(n as nat);
    let t = attribute_text(FixtureChannel3Attribute::MediaContent(n));
    reveal_strlit("MediaContent");
    assert(t == "MediaContent"@ + d);
    lemma_exact_none_with_digit(t, 12);
    reveal(numbered_attribute_1);
    assert(numbered_attribute_0(t) is None) by {
        reveal(numbered_attribute_0);
        reveal_strlit("Gobo");
        lemma_prefix_mismatch(t, "Gobo"@, 0);
        reveal_strlit("Gobo");
        reveal_strlit("SelectSpin");
        lemma_prefix_mismatch(t, "Gobo"@, 0);
        reveal_strlit("Gobo");
        reveal_strlit("SelectShake");
        lemma_prefix_mismatch(t, "Gobo"@, 0);
        reveal_strlit("Gobo");
        reveal_strlit("SelectEffects");
        lemma_prefix_mismatch(t, "Gobo"@, 0);
        reveal_strlit("Gobo");
        reveal_strlit("WheelIndex");
        lemma_prefix_mismatch(t, "Gobo"@, 0);
        reveal_strlit("Gobo");
        reveal_strlit("WheelSpin");
        lemma_prefix_mismatch(t, "Gobo"@, 0);
        reveal_strlit("Gobo");
        reveal_strlit("WheelShake");
        lemma_prefix_mismatch(t, "Gobo"@, 0);
        reveal_strlit("Gobo");
        reveal_strlit("WheelRandom");
        lemma_prefix_mismatch(t, "Gobo"@, 0);
        reveal_strlit("Gobo");
        reveal_strlit("WheelAudio");
        lemma_prefix_mismatch(t, "Gobo"@, 0);
        reveal_strlit("Gobo");
        reveal_strlit("Pos");
        lemma_prefix_mismatch(t, "Gobo"@, 0);
        reveal_strlit("Gobo");
        reveal_strlit("PosRotate");
        lemma_prefix_mismatch(t, "Gobo"@, 0);
        reveal_strlit("Gobo");
        reveal_strlit("PosShake");
        lemma_prefix_mismatch(t, "Gobo"@, 0);
        reveal_strlit("AnimationWheel");
        lemma_prefix_mismatch(t, "AnimationWheel"@, 0);
        reveal_strlit("AnimationWheel");
        reveal_strlit("Audio");
        lemma_prefix_mismatch(t, "AnimationWheel"@, 0);
        reveal_strlit("AnimationWheel");
        reveal_strlit("Macro");
        lemma_prefix_mismatch(t, "AnimationWheel"@, 0);
        reveal_strlit("AnimationWheel");
        reveal_strlit("Random");
        lemma_prefix_mismatch(t, "AnimationWheel"@, 0);
        reveal_strlit("AnimationWheel");
        reveal_strlit("SelectEffects");
        lemma_prefix_mismatch(t, "AnimationWheel"@, 0);
        reveal_strlit("AnimationWheel");
        reveal_strlit("SelectShake");
        lemma_prefix_mismatch(t, "AnimationWheel"@, 0);
        reveal_strlit("AnimationWheel");
        reveal_strlit("SelectSpin");
        lemma_prefix_mismatch(t, "AnimationWheel"@, 0);
        reveal_strlit("AnimationWheel");
        reveal_strlit("Pos");
        lemma_prefix_mismatch(t, "AnimationWheel"@, 0);
        reveal_strlit("AnimationWheel");
        reveal_strlit("PosRotate");
        lemma_prefix_mismatch(t, "AnimationWheel"@, 0);
        reveal_strlit("AnimationWheel");
        reveal_strlit("PosShake");
        lemma_prefix_mismatch(t, "AnimationWheel"@, 0);
        reveal_strlit("AnimationSystem");
        lemma_prefix_mismatch(t, "AnimationSystem"@, 0);
        reveal_strlit("AnimationSystem");
        reveal_strlit("Ramp");
        lemma_prefix_mismatch(t, "AnimationSystem"@, 0);
        reveal_strlit("AnimationSystem");
        reveal_strlit("Shake");
        lemma_prefix_mismatch(t, "AnimationSystem"@, 0);
        reveal_strlit("AnimationSystem");
        reveal_strlit("Audio");
        lemma_prefix_mismatch(t, "AnimationSystem"@, 0);
        reveal_strlit("AnimationSystem");
        reveal_strlit("Random");
        lemma_prefix_mismatch(t, "AnimationSystem"@, 0);
        reveal_strlit("AnimationSystem");
        reveal_strlit("Pos");
        lemma_prefix_mismatch(t, "AnimationSystem"@, 0);
        reveal_strlit("AnimationSystem");
        reveal_strlit("PosRotate");
        lemma_prefix_mismatch(t, "AnimationSystem"@, 0);
        reveal_strlit("AnimationSystem");
        reveal_strlit("PosShake");
        lemma_prefix_mismatch(t, "AnimationSystem"@, 0);
        reveal_strlit("AnimationSystem");
        reveal_strlit("PosRandom");
        lemma_prefix_mismatch(t, "AnimationSystem"@, 0);
        reveal_strlit("AnimationSystem");
        reveal_strlit("PosAudio");
        lemma_prefix_mismatch(t, "AnimationSystem"@, 0);
    }
    reveal_strlit("AnimationSystem");
    reveal_strlit("Macro");
    lemma_prefix_mismatch(t, "AnimationSystem"@, 0);
    reveal_strlit("MediaFolder");
    lemma_prefix_mismatch(t, "MediaFolder"@, 5);
    lemma_number_after("MediaContent"@, n);
}

/// An attribute of the numbered family `ModelFolder` reads back from its written
/// name: that text is no standard name, and every numbering rule before the
/// family's own rejects it.
proof fn text_reads_back_model_folder(n: u8)
    ensures
        attribute_from_text(attribute_text(FixtureChannel3Attribute::ModelFolder(n))) == Some(FixtureChannel3Attribute::ModelFolder(n)),
{
    let d = decimal(n as nat);
    lemma_decimal_digits(n as nat);
    lemma_decimal_len_u8(n as nat);
    let t = attribute_text(FixtureChannel3Attribute::ModelFolder(n));
    reveal_strlit("ModelFolder");
    assert(t == "ModelFolder"@ + d);
    lemma_exact_none_with_digit(t, 11);
    reveal(numbered_attribute_1);
    assert(numbered_attribute_0(t) is None) by {
        reveal(numbered_attribute_0);
        reveal_strlit("Gobo");
        lemma_prefix_mismatch(t, "Gobo"@, 0);
        reveal_strlit("Gobo");
        reveal_strlit("SelectSpin");
        lemma_prefix_mismatch(t, "Gobo"@, 0);
        reveal_strlit("Gobo");
        reveal_strlit("SelectShake");
        lemma_prefix_mismatch(t, "Gobo"@, 0);
        reveal_strlit("Gobo");
        reveal_strlit("SelectEffects");
        lemma_prefix_mismatch(t, "Gobo"@, 0);
        reveal_strlit("Gobo");
        reveal_strlit("WheelIndex");
        lemma_prefix_mismatch(t, "Gobo"@, 0);
        reveal_strlit("Gobo");
        reveal_strlit("WheelSpin");
        lemma_prefix_mismatch(t, "Gobo"@, 0);
        reveal_strlit("Gobo");
        reveal_strlit("WheelShake");
        lemma_prefix_mismatch(t, "Gobo"@, 0);
        reveal_strlit("Gobo");
        reveal_strlit("WheelRandom");
        lemma_prefix_mismatch(t, "Gobo"@, 0);
        reveal_strlit("Gobo");
        reveal_strlit("WheelAudio");
        lemma_prefix_mismatch(t, "Gobo"@, 0);
        reveal_strlit("Gobo");
        reveal_strlit("Pos");
        lemma_prefix_mismatch(t, "Gobo"@, 0);
        reveal_strlit("Gobo");
        reveal_strlit("PosRotate");
        lemma_prefix_mismatch(t, "Gobo"@, 0);
        reveal_strlit("Gobo");
        reveal_strlit("PosShake");
        lemma_prefix_mismatch(t, "Gobo"@, 0);
        reveal_strlit("AnimationWheel");
        lemma_prefix_mismatch(t, "AnimationWheel"@, 0);
        reveal_strlit("AnimationWheel");
        reveal_strlit("Audio");
        lemma_prefix_mismatch(t, "AnimationWheel"@, 0);
        reveal_strlit("AnimationWheel");
        reveal_strlit("Macro");
        lemma_prefix_mismatch(t, "AnimationWheel"@, 0);
        reveal_strlit("AnimationWheel");
        reveal_strlit("Random");
        lemma_prefix_mismatch(t, "AnimationWheel"@, 0);
        reveal_strlit("AnimationWheel");
        reveal_strlit("SelectEffects");
        lemma_prefix_mismatch(t, "AnimationWheel"@, 0);
        reveal_strlit("AnimationWheel");
        reveal_strlit("SelectShake");
        lemma_prefix_mismatch(t, "AnimationWheel"@, 0);
        reveal_strlit("AnimationWheel");
        reveal_strlit("SelectSpin");
        lemma_prefix_mismatch(t, "AnimationWheel"@, 0);
        reveal_strlit("AnimationWheel");
        reveal_strlit("Pos");
        lemma_prefix_mismatch(t, "AnimationWheel"@, 0);
        reveal_strlit("AnimationWheel");
        reveal_strlit("PosRotate");
        lemma_prefix_mismatch(t, "AnimationWheel"@, 0);
        reveal_strlit("AnimationWheel");
        reveal_strlit("PosShake");
        lemma_prefix_mismatch(t, "AnimationWheel"@, 0);
        reveal_strlit("AnimationSystem");
        lemma_prefix_mismatch(t, "AnimationSystem"@, 0);
        reveal_strlit("AnimationSystem");
        reveal_strlit("Ramp");
        lemma_prefix_mismatch(t, "AnimationSystem"@, 0);
        reveal_strlit("AnimationSystem");
        reveal_strlit("Shake");
        lemma_prefix_mismatch(t, "AnimationSystem"@, 0);
        reveal_strlit("AnimationSystem");
        reveal_strlit("Audio");
        lemma_prefix_mismatch(t, "AnimationSystem"@, 0);
        reveal_strlit("AnimationSystem");
        reveal_strlit("Random");
        lemma_prefix_mismatch(t, "AnimationSystem"@, 0);
        reveal_strlit("AnimationSystem");
        reveal_strlit("Pos");
        lemma_prefix_mismatch(t, "AnimationSystem"@, 0);
        reveal_strlit("AnimationSystem");
        reveal_strlit("PosRotate");
        lemma_prefix_mismatch(t, "AnimationSystem"@, 0);
        reveal_strlit("AnimationSystem");
        reveal_strlit("PosShake");
        lemma_prefix_mismatch(t, "AnimationSystem"@, 0);
        reveal_strlit("AnimationSystem");
        reveal_strlit("PosRandom");
        lemma_prefix_mismatch(t, "AnimationSystem"@, 0);
        reveal_strlit("AnimationSystem");
        reveal_strlit("PosAudio");
        lemma_prefix_mismatch(t, "AnimationSystem"@, 0);
    }
    reveal_strlit("AnimationSystem");
    reveal_strlit("Macro");
    lemma_prefix_mismatch(t, "AnimationSystem"@, 0);
    reveal_strlit("MediaFolder");
    lemma_prefix_mismatch(t, "MediaFolder"@, 1);
    reveal_strlit("MediaContent");
    lemma_prefix_mismatch(t, "MediaContent"@, 1);
    lemma_number_after("ModelFolder"@, n);
}

/// An attribute of the numbered family `ModelContent` reads back from its written
/// name: that text is no standard name, and every numbering rule before the
/// family's own rejects it.
proof fn text_reads_back_model_content(n: u8)
    ensures
        attribute_from_text(attribute_text(FixtureChannel3Attribute::ModelContent(n))) == Some(FixtureChannel3Attribute::ModelContent(n)),
{
    let d = decimal(n as nat);
    lemma_decimal_digits(n as nat);
    lemma_decimal_len_u8(n as nat);
    let t = attribute_text(FixtureChannel3Attribute::ModelContent(n));
    reveal_strlit("ModelContent");
    assert(t == "ModelContent"@ + d);
    lemma_exact_none_with_digit(t, 12);
    reveal(numbered_attribute_1);
    assert(numbered_attribute_0(t) is None) by {
        reveal(numbered_attribute_0);
        reveal_strlit("Gobo");
        lemma_prefix_mismatch(t, "Gobo"@, 0);
        reveal_strlit("Gobo");
        reveal_strlit("SelectSpin");
        lemma_prefix_mismatch(t, "Gobo"@, 0);
        reveal_strlit("Gobo");
        reveal_strlit("SelectShake");
        lemma_prefix_mismatch(t, "Gobo"@, 0);
        reveal_strlit("Gobo");
        reveal_strlit("SelectEffects");
        lemma_prefix_mismatch(t, "Gobo"@, 0);
        reveal_strlit("Gobo");
        reveal_strlit("WheelIndex");
        lemma_prefix_mismatch(t, "Gobo"@, 0);
        reveal_strlit("Gobo");
        reveal_strlit("WheelSpin");
        lemma_prefix_mismatch(t, "Gobo"@, 0);
        reveal_strlit("Gobo");
        reveal_strlit("WheelShake");
        lemma_prefix_mismatch(t, "Gobo"@, 0);
        reveal_strlit("Gobo");
        reveal_strlit("WheelRandom");
        lemma_prefix_mismatch(t, "Gobo"@, 0);
        reveal_strlit("Gobo");
        reveal_strlit("WheelAudio");
        lemma_prefix_mismatch(t, "Gobo"@, 0);
        reveal_strlit("Gobo");
        reveal_strlit("Pos");
        lemma_prefix_mismatch(t, "Gobo"@, 0);
        reveal_strlit("Gobo");
        reveal_strlit("PosRotate");
        lemma_prefix_mismatch(t, "Gobo"@, 0);
        reveal_strlit("Gobo");
        reveal_strlit("PosShake");
        lemma_prefix_mismatch(t, "Gobo"@, 0);
        reveal_strlit("AnimationWheel");
        lemma_prefix_mismatch(t, "AnimationWheel"@, 0);
        reveal_strlit("AnimationWheel");
        reveal_strlit("Audio");
        lemma_prefix_mismatch(t, "AnimationWheel"@, 0);
        reveal_strlit("AnimationWheel");
        reveal_strlit("Macro");
        lemma_prefix_mismatch(t, "AnimationWheel"@, 0);
        reveal_strlit("AnimationWheel");
        reveal_strlit("Random");
        lemma_prefix_mismatch(t, "AnimationWheel"@, 0);
        reveal_strlit("AnimationWheel");
        reveal_strlit("SelectEffects");
        lemma_prefix_mismatch(t, "AnimationWheel"@, 0);
        reveal_strlit("AnimationWheel");
        reveal_strlit("SelectShake");
        lemma_prefix_mismatch(t, "AnimationWheel"@, 0);
        reveal_strlit("AnimationWheel");
        reveal_strlit("SelectSpin");
        lemma_prefix_mismatch(t, "AnimationWheel"@, 0);
        reveal_strlit("AnimationWheel");
        reveal_strlit("Pos");
        lemma_prefix_mismatch(t, "AnimationWheel"@, 0);
        reveal_strlit("AnimationWheel");
        reveal_strlit("PosRotate");
        lemma_prefix_mismatch(t, "AnimationWheel"@, 0);
        reveal_strlit("AnimationWheel");
        reveal_strlit("PosShake");
        lemma_prefix_mismatch(t, "AnimationWheel"@, 0);
        reveal_strlit("AnimationSystem");
        lemma_prefix_mismatch(t, "AnimationSystem"@, 0);
        reveal_strlit("AnimationSystem");
        reveal_strlit("Ramp");
        lemma_prefix_mismatch(t, "AnimationSystem"@, 0);
        reveal_strlit("AnimationSystem");
        reveal_strlit("Shake");
        lemma_prefix_mismatch(t, "AnimationSystem"@, 0);
        reveal_strlit("AnimationSystem");
        reveal_strlit("Audio");
        lemma_prefix_mismatch(t, "AnimationSystem"@, 0);
        reveal_strlit("AnimationSystem");
        reveal_strlit("Random");
        lemma_prefix_mismatch(t, "AnimationSystem"@, 0);
        reveal_strlit("AnimationSystem");
        reveal_strlit("Pos");
        lemma_prefix_mismatch(t, "AnimationSystem"@, 0);
        reveal_strlit("AnimationSystem");
        reveal_strlit("PosRotate");
        lemma_prefix_mismatch(t, "AnimationSystem"@, 0);
        reveal_strlit("AnimationSystem");
        reveal_strlit("PosShake");
        lemma_prefix_mismatch(t, "AnimationSystem"@, 0);
        reveal_strlit("AnimationSystem");
        reveal_strlit("PosRandom");
        lemma_prefix_mismatch(t, "AnimationSystem"@, 0);
        reveal_strlit("AnimationSystem");
        reveal_strlit("PosAudio");
        lemma_prefix_mismatch(t, "AnimationSystem"@, 0);
    }
    reveal_strlit("AnimationSystem");
    reveal_strlit("Macro");
    lemma_prefix_mismatch(t, "AnimationSystem"@, 0);
    reveal_strlit("MediaFolder");
    lemma_prefix_mismatch(t, "MediaFolder"@, 1);
    reveal_strlit("MediaContent");
    lemma_prefix_mismatch(t, "MediaContent"@, 1);
    reveal_strlit("ModelFolder");
    lemma_prefix_mismatch(t, "ModelFolder"@, 5);
    lemma_number_after("ModelContent"@, n);
}

/// An attribute of the numbered family `ColorEffects` reads back from its written
/// name: that text is no standard name, and every numbering rule before the
/// family's own rejects it.
proof fn text_reads_back_color_effects(n: u8)
    ensures
        attribute_from_text(attribute_text(FixtureChannel3Attribute::ColorEffects(n))) == Some(FixtureChannel3Attribute::ColorEffects(n)),
{
    let d = decimal(n as nat);
    lemma_decimal_digits(n as nat);
    lemma_decimal_len_u8(n as nat);
    let t = attribute_text(FixtureChannel3Attribute::ColorEffects(n));
    reveal_strlit("ColorEffects");
    assert(t == "ColorEffects"@ + d);
    lemma_exact_none_with_digit(t, 12);
    reveal(numbered_attribute_1);
    assert(numbered_attribute_0(t) is None) by {
        reveal(numbered_attribute_0);
        reveal_strlit("Gobo");
        lemma_prefix_mismatch(t, "Gobo"@, 0);
        reveal_strlit("Gobo");
        reveal_strlit("SelectSpin");
        lemma_prefix_mismatch(t, "Gobo"@, 0);
        reveal_strlit("Gobo");
        reveal_strlit("SelectShake");
        lemma_prefix_mismatch(t, "Gobo"@, 0);
        reveal_strlit("Gobo");
        reveal_strlit("SelectEffects");
        lemma_prefix_mismatch(t, "Gobo"@, 0);
        reveal_strlit("Gobo");
        reveal_strlit("WheelIndex");
        lemma_prefix_mismatch(t, "Gobo"@, 0);
        reveal_strlit("Gobo");
        reveal_strlit("WheelSpin");
        lemma_prefix_mismatch(t, "Gobo"@, 0);
        reveal_strlit("Gobo");
        reveal_strlit("WheelShake");
        lemma_prefix_mismatch(t, "Gobo"@, 0);
        reveal_strlit("Gobo");
        reveal_strlit("WheelRandom");
        lemma_prefix_mismatch(t, "Gobo"@, 0);
        reveal_strlit("Gobo");
        reveal_strlit("WheelAudio");
        lemma_prefix_mismatch(t, "Gobo"@, 0);
        reveal_strlit("Gobo");
        reveal_strlit("Pos");
        lemma_prefix_mismatch(t, "Gobo"@, 0);
        reveal_strlit("Gobo");
        reveal_strlit("PosRotate");
        lemma_prefix_mismatch(t, "Gobo"@, 0);
        reveal_strlit("Gobo");
        reveal_strlit("PosShake");
        lemma_prefix_mismatch(t, "Gobo"@, 0);
        reveal_strlit("AnimationWheel");
        lemma_prefix_mismatch(t, "AnimationWheel"@, 0);
        reveal_strlit("AnimationWheel");
        reveal_strlit("Audio");
        lemma_prefix_mismatch(t, "AnimationWheel"@, 0);
        reveal_strlit("AnimationWheel");
        reveal_strlit("Macro");
        lemma_prefix_mismatch(t, "AnimationWheel"@, 0);
        reveal_strlit("AnimationWheel");
        reveal_strlit("Random");
        lemma_prefix_mismatch(t, "AnimationWheel"@, 0);
        reveal_strlit("AnimationWheel");
        reveal_strlit("SelectEffects");
        lemma_prefix_mismatch(t, "AnimationWheel"@, 0);
        reveal_strlit("AnimationWheel");
        reveal_strlit("SelectShake");
        lemma_prefix_mismatch(t, "AnimationWheel"@, 0);
        reveal_strlit("AnimationWheel");
        reveal_strlit("SelectSpin");
        lemma_prefix_mismatch(t, "AnimationWheel"@, 0);
        reveal_strlit("AnimationWheel");
        reveal_strlit("Pos");
        lemma_prefix_mismatch(t, "AnimationWheel"@, 0);
        reveal_strlit("AnimationWheel");
        reveal_strlit("PosRotate");
        lemma_prefix_mismatch(t, "AnimationWheel"@, 0);
        reveal_strlit("AnimationWheel");
        reveal_strlit("PosShake");
        lemma_prefix_mismatch(t, "AnimationWheel"@, 0);
        reveal_strlit("AnimationSystem");
        lemma_prefix_mismatch(t, "AnimationSystem"@, 0);
        reveal_strlit("AnimationSystem");
        reveal_strlit("Ramp");
        lemma_prefix_mismatch(t, "AnimationSystem"@, 0);
        reveal_strlit("AnimationSystem");
        reveal_strlit("Shake");
        lemma_prefix_mismatch(t, "AnimationSystem"@, 0);
        reveal_strlit("AnimationSystem");
        reveal_strlit("Audio");
        lemma_prefix_mismatch(t, "AnimationSystem"@, 0);
        reveal_strlit("AnimationSystem");
        reveal_strlit("Random");
        lemma_prefix_mismatch(t, "AnimationSystem"@, 0);
        reveal_strlit("AnimationSystem");
        reveal_strlit("Pos");
        lemma_prefix_mismatch(t, "AnimationSystem"@, 0);
        reveal_strlit("AnimationSystem");
        reveal_strlit("PosRotate");
        lemma_prefix_mismatch(t, "AnimationSystem"@, 0);
        reveal_strlit("AnimationSystem");
        reveal_strlit("PosShake");
        lemma_prefix_mismatch(t, "AnimationSystem"@, 0);
        reveal_strlit("AnimationSystem");
        reveal_strlit("PosRandom");
        lemma_prefix_mismatch(t, "AnimationSystem"@, 0);
        reveal_strlit("AnimationSystem");
        reveal_strlit("PosAudio");
        lemma_prefix_mismatch(t, "AnimationSystem"@, 0);
    }
    reveal_strlit("AnimationSystem");
    reveal_strlit("Macro");
    lemma_prefix_mismatch(t, "AnimationSystem"@, 0);
    reveal_strlit("MediaFolder");
    lemma_prefix_mismatch(t, "MediaFolder"@, 0);
    reveal_strlit("MediaContent");
    lemma_prefix_mismatch(t, "MediaContent"@, 0);
    reveal_strlit("ModelFolder");
    lemma_prefix_mismatch(t, "ModelFolder"@, 0);
    reveal_strlit("ModelContent");
    lemma_prefix_mismatch(t, "ModelContent"@, 0);
    lemma_number_after("ColorEffects"@, n);
}

/// An attribute of the numbered family `Color` reads back from its written
/// name: that text is no standard name, and every numbering rule before the
/// family's own rejects it.
proof fn text_reads_back_color(n: u8)
    ensures
        attribute_from_text(attribute_text(FixtureChannel3Attribute::Color(n))) == Some(FixtureChannel3Attribute::Color(n)),
{
    let d = decimal(n as nat);
    lemma_decimal_digits(n as nat);
    lemma_decimal_len_u8(n as nat);
    let t = attribute_text(FixtureChannel3Attribute::Color(n));
    reveal_strlit("Color");
    assert(t == "Color"@ + d);
    lemma_exact_none_with_digit(t, 5);
    reveal(numbered_attribute_1);
    assert(numbered_attribute_0(t) is None) by {
        reveal(numbered_attribute_0);
        reveal_strlit("Gobo");
        lemma_prefix_mismatch(t, "Gobo"@, 0);
        reveal_strlit("Gobo");
        reveal_strlit("SelectSpin");
        lemma_prefix_mismatch(t, "Gobo"@, 0);
        reveal_strlit("Gobo");
        reveal_strlit("SelectShake");
        lemma_prefix_mismatch(t, "Gobo"@, 0);
        reveal_strlit("Gobo");
        reveal_strlit("SelectEffects");
        lemma_prefix_mismatch(t, "Gobo"@, 0);
        reveal_strlit("Gobo");
        reveal_strlit("WheelIndex");
        lemma_prefix_mismatch(t, "Gobo"@, 0);
        reveal_strlit("Gobo");
        reveal_strlit("WheelSpin");
        lemma_prefix_mismatch(t, "Gobo"@, 0);
        reveal_strlit("Gobo");
        reveal_strlit("WheelShake");
        lemma_prefix_mismatch(t, "Gobo"@, 0);
        reveal_strlit("Gobo");
        reveal_strlit("WheelRandom");
        lemma_prefix_mismatch(t, "Gobo"@, 0);
        reveal_strlit("Gobo");
        reveal_strlit("WheelAudio");
        lemma_prefix_mismatch(t, "Gobo"@, 0);
        reveal_strlit("Gobo");
        reveal_strlit("Pos");
        lemma_prefix_mismatch(t, "Gobo"@, 0);
        reveal_strlit("Gobo");
        reveal_strlit("PosRotate");
        lemma_prefix_mismatch(t, "Gobo"@, 0);
        reveal_strlit("Gobo");
        reveal_strlit("PosShake");
        lemma_prefix_mismatch(t, "Gobo"@, 0);
        reveal_strlit("AnimationWheel");
        lemma_prefix_mismatch(t, "AnimationWheel"@, 0);
        reveal_strlit("AnimationWheel");
        reveal_strlit("Audio");
        lemma_prefix_mismatch(t, "AnimationWheel"@, 0);
        reveal_strlit("AnimationWheel");
        reveal_strlit("Macro");
        lemma_prefix_mismatch(t, "AnimationWheel"@, 0);
        reveal_strlit("AnimationWheel");
        reveal_strlit("Random");
        lemma_prefix_mismatch(t, "AnimationWheel"@, 0);
        reveal_strlit("AnimationWheel");
        reveal_strlit("SelectEffects");
        lemma_prefix_mismatch(t, "AnimationWheel"@, 0);
        reveal_strlit("AnimationWheel");
        reveal_strlit("SelectShake");
        lemma_prefix_mismatch(t, "AnimationWheel"@, 0);
        reveal_strlit("AnimationWheel");
        reveal_strlit("SelectSpin");
        lemma_prefix_mismatch(t, "AnimationWheel"@, 0);
        reveal_strlit("AnimationWheel");
        reveal_strlit("Pos");
        lemma_prefix_mismatch(t, "AnimationWheel"@, 0);
        reveal_strlit("AnimationWheel");
        reveal_strlit("PosRotate");
        lemma_prefix_mismatch(t, "AnimationWheel"@, 0);
        reveal_strlit("AnimationWheel");
        reveal_strlit("PosShake");
        lemma_prefix_mismatch(t, "AnimationWheel"@, 0);
        reveal_strlit("AnimationSystem");
        lemma_prefix_mismatch(t, "AnimationSystem"@, 0);
        reveal_strlit("AnimationSystem");
        reveal_strlit("Ramp");
        lemma_prefix_mismatch(t, "AnimationSystem"@, 0);
        reveal_strlit("AnimationSystem");
        reveal_strlit("Shake");
        lemma_prefix_mismatch(t, "AnimationSystem"@, 0);
        reveal_strlit("AnimationSystem");
        reveal_strlit("Audio");
        lemma_prefix_mismatch(t, "AnimationSystem"@, 0);
        reveal_strlit("AnimationSystem");
        reveal_strlit("Random");
        lemma_prefix_mismatch(t, "AnimationSystem"@, 0);
        reveal_strlit("AnimationSystem");
        reveal_strlit("Pos");
        lemma_prefix_mismatch(t, "AnimationSystem"@, 0);
        reveal_strlit("AnimationSystem");
        reveal_strlit("PosRotate");
        lemma_prefix_mismatch(t, "AnimationSystem"@, 0);
        reveal_strlit("AnimationSystem");
        reveal_strlit("PosShake");
        lemma_prefix_mismatch(t, "AnimationSystem"@, 0);
        reveal_strlit("AnimationSystem");
        reveal_strlit("PosRandom");
        lemma_prefix_mismatch(t, "AnimationSystem"@, 0);
        reveal_strlit("AnimationSystem");
        reveal_strlit("PosAudio");
        lemma_prefix_mismatch(t, "AnimationSystem"@, 0);
    }
    reveal_strlit("AnimationSystem");
    reveal_strlit("Macro");
    lemma_prefix_mismatch(t, "AnimationSystem"@, 0);
    reveal_strlit("MediaFolder");
    lemma_prefix_mismatch(t, "MediaFolder"@, 0);
    reveal_strlit("MediaContent");
    lemma_prefix_mismatch(t, "MediaContent"@, 0);
    reveal_strlit("ModelFolder");
    lemma_prefix_mismatch(t, "ModelFolder"@, 0);
    reveal_strlit("ModelContent");
    lemma_prefix_mismatch(t, "ModelContent"@, 0);
    reveal_strlit("ColorEffects");
    lemma_prefix_mismatch(t, "ColorEffects"@, 5);
    lemma_number_after("Color"@, n);
}

/// An attribute of the numbered family `ColorMacro` reads back from its written
/// name: that text is no standard name, and every numbering rule before the
/// family's own rejects it.
proof fn text_reads_back_color_macro(n: u8)
    ensures
        attribute_from_text(attribute_text(FixtureChannel3Attribute::ColorMacro(n))) == Some(FixtureChannel3Attribute::ColorMacro(n)),
{
    let d = decimal(n as nat);
    lemma_decimal_digits(n as nat);
    lemma_decimal_len_u8(n as nat);
    let t = attribute_text(FixtureChannel3Attribute::ColorMacro(n));
    reveal_strlit("ColorMacro");
    assert(t == "ColorMacro"@ + d);
    lemma_exact_none_with_digit(t, 10);
    reveal(numbered_attribute_1);
    assert(numbered_attribute_0(t) is None) by {
        reveal(numbered_attribute_0);
        reveal_strlit("Gobo");
        lemma_prefix_mismatch(t, "Gobo"@, 0);
        reveal_strlit("Gobo");
        reveal_strlit("SelectSpin");
        lemma_prefix_mismatch(t, "Gobo"@, 0);
        reveal_strlit("Gobo");
        reveal_strlit("SelectShake");
        lemma_prefix_mismatch(t, "Gobo"@, 0);
        reveal_strlit("Gobo");
        reveal_strlit("SelectEffects");
        lemma_prefix_mismatch(t, "Gobo"@, 0);
        reveal_strlit("Gobo");
        reveal_strlit("WheelIndex");
        lemma_prefix_mismatch(t, "Gobo"@, 0);
        reveal_strlit("Gobo");
        reveal_strlit("WheelSpin");
        lemma_prefix_mismatch(t, "Gobo"@, 0);
        reveal_strlit("Gobo");
        reveal_strlit("WheelShake");
        lemma_prefix_mismatch(t, "Gobo"@, 0);
        reveal_strlit("Gobo");
        reveal_strlit("WheelRandom");
        lemma_prefix_mismatch(t, "Gobo"@, 0);
        reveal_strlit("Gobo");
        reveal_strlit("WheelAudio");
        lemma_prefix_mismatch(t, "Gobo"@, 0);
        reveal_strlit("Gobo");
        reveal_strlit("Pos");
        lemma_prefix_mismatch(t, "Gobo"@, 0);
        reveal_strlit("Gobo");
        reveal_strlit("PosRotate");
        lemma_prefix_mismatch(t, "Gobo"@, 0);
        reveal_strlit("Gobo");
        reveal_strlit("PosShake");
        lemma_prefix_mismatch(t, "Gobo"@, 0);
        reveal_strlit("AnimationWheel");
        lemma_prefix_mismatch(t, "AnimationWheel"@, 0);
        reveal_strlit("AnimationWheel");
        reveal_strlit("Audio");
        lemma_prefix_mismatch(t, "AnimationWheel"@, 0);
        reveal_strlit("AnimationWheel");
        reveal_strlit("Macro");
        lemma_prefix_mismatch(t, "AnimationWheel"@, 0);
        reveal_strlit("AnimationWheel");
        reveal_strlit("Random");
        lemma_prefix_mismatch(t, "AnimationWheel"@, 0);
        reveal_strlit("AnimationWheel");
        reveal_strlit("SelectEffects");
        lemma_prefix_mismatch(t, "AnimationWheel"@, 0);
        reveal_strlit("AnimationWheel");
        reveal_strlit("SelectShake");
        lemma_prefix_mismatch(t, "AnimationWheel"@, 0);
        reveal_strlit("AnimationWheel");
        reveal_strlit("SelectSpin");
        lemma_prefix_mismatch(t, "AnimationWheel"@, 0);
        reveal_strlit("AnimationWheel");
        reveal_strlit("Pos");
        lemma_prefix_mismatch(t, "AnimationWheel"@, 0);
        reveal_strlit("AnimationWheel");
        reveal_strlit("PosRotate");
        lemma_prefix_mismatch(t, "AnimationWheel"@, 0);
        reveal_strlit("AnimationWheel");
        reveal_strlit("PosShake");
        lemma_prefix_mismatch(t, "AnimationWheel"@, 0);
        reveal_strlit("AnimationSystem");
        lemma_prefix_mismatch(t, "AnimationSystem"@, 0);
        reveal_strlit("AnimationSystem");
        reveal_strlit("Ramp");
        lemma_prefix_mismatch(t, "AnimationSystem"@, 0);
        reveal_strlit("AnimationSystem");
        reveal_strlit("Shake");
        lemma_prefix_mismatch(t, "AnimationSystem"@, 0);
        reveal_strlit("AnimationSystem");
        reveal_strlit("Audio");
        lemma_prefix_mismatch(t, "AnimationSystem"@, 0);
        reveal_strlit("AnimationSystem");
        reveal_strlit("Random");
        lemma_prefix_mismatch(t, "AnimationSystem"@, 0);
        reveal_strlit("AnimationSystem");
        reveal_strlit("Pos");
        lemma_prefix_mismatch(t, "AnimationSystem"@, 0);
        reveal_strlit("AnimationSystem");
        reveal_strlit("PosRotate");
        lemma_prefix_mismatch(t, "AnimationSystem"@, 0);
        reveal_strlit("AnimationSystem");
        reveal_strlit("PosShake");
        lemma_prefix_mismatch(t, "AnimationSystem"@, 0);
        reveal_strlit("AnimationSystem");
        reveal_strlit("PosRandom");
        lemma_prefix_mismatch(t, "AnimationSystem"@, 0);
        reveal_strlit("AnimationSystem");
        reveal_strlit("PosAudio");
        lemma_prefix_mismatch(t, "AnimationSystem"@, 0);
    }
    reveal_strlit("AnimationSystem");
    reveal_strlit("Macro");
    lemma_prefix_mismatch(t, "AnimationSystem"@, 0);
    reveal_strlit("MediaFolder");
    lemma_prefix_mismatch(t, "MediaFolder"@, 0);
    reveal_strlit("MediaContent");
    lemma_prefix_mismatch(t, "MediaContent"@, 0);
    reveal_strlit("ModelFolder");
    lemma_prefix_mismatch(t, "ModelFolder"@, 0);
    reveal_strlit("ModelContent");
    lemma_prefix_mismatch(t, "ModelContent"@, 0);
    reveal_strlit("ColorEffects");
    lemma_prefix_mismatch(t, "ColorEffects"@, 5);
    reveal_strlit("Color");
    lemma_rest_not_number(t, "Color"@, 0);
    reveal_strlit("Color");
    reveal_strlit("WheelIndex");
    lemma_suffix_mismatch(t, "Color"@, "WheelIndex"@, 0);
    reveal_strlit("Color");
    reveal_strlit("WheelSpin");
    lemma_suffix_mismatch(t, "Color"@, "WheelSpin"@, 0);
    reveal_strlit("Color");
    reveal_strlit("WheelRandom");
    lemma_suffix_mismatch(t, "Color"@, "WheelRandom"@, 0);
    reveal_strlit("Color");
    reveal_strlit("WheelAudio");
    lemma_suffix_mismatch(t, "Color"@, "WheelAudio"@, 0);
    lemma_number_after("ColorMacro"@, n);
}

/// An attribute of the numbered family `Shutter` reads back from its written
/// name: that text is no standard name, and every numbering rule before the
/// family's own rejects it.
proof fn text_reads_back_shutter(n: u8)
    ensures
        attribute_from_text(attribute_text(FixtureChannel3Attribute::Shutter(n))) == Some(FixtureChannel3Attribute::Shutter(n)),
{
    let d = decimal(n as nat);
    lemma_decimal_digits(n as nat);
    lemma_decimal_len_u8(n as nat);
    let t = attribute_text(FixtureChannel3Attribute::Shutter(n));
    reveal_strlit("Shutter");
    assert(t == "Shutter"@ + d);
    lemma_exact_none_with_digit(t, 7);
    reveal(numbered_attribute_1);
    assert(numbered_attribute_0(t) is None) by {
        reveal(numbered_attribute_0);
        reveal_strlit("Gobo");
        lemma_prefix_mismatch(t, "Gobo"@, 0);
        reveal_strlit("Gobo");
        reveal_strlit("SelectSpin");
        lemma_prefix_mismatch(t, "Gobo"@, 0);
        reveal_strlit("Gobo");
        reveal_strlit("SelectShake");
        lemma_prefix_mismatch(t, "Gobo"@, 0);
        reveal_strlit("Gobo");
        reveal_strlit("SelectEffects");
        lemma_prefix_mismatch(t, "Gobo"@, 0);
        reveal_strlit("Gobo");
        reveal_strlit("WheelIndex");
        lemma_prefix_mismatch(t, "Gobo"@, 0);
        reveal_strlit("Gobo");
        reveal_strlit("WheelSpin");
        lemma_prefix_mismatch(t, "Gobo"@, 0);
        reveal_strlit("Gobo");
        reveal_strlit("WheelShake");
        lemma_prefix_mismatch(t, "Gobo"@, 0);
        reveal_strlit("Gobo");
        reveal_strlit("WheelRandom");
        lemma_prefix_mismatch(t, "Gobo"@, 0);
        reveal_strlit("Gobo");
        reveal_strlit("WheelAudio");
        lemma_prefix_mismatch(t, "Gobo"@, 0);
        reveal_strlit("Gobo");
        reveal_strlit("Pos");
        lemma_prefix_mismatch(t, "Gobo"@, 0);
        reveal_strlit("Gobo");
        reveal_strlit("PosRotate");
        lemma_prefix_mismatch(t, "Gobo"@, 0);
        reveal_strlit("Gobo");
        reveal_strlit("PosShake");
        lemma_prefix_mismatch(t, "Gobo"@, 0);
        reveal_strlit("AnimationWheel");
        lemma_prefix_mismatch(t, "AnimationWheel"@, 0);
        reveal_strlit("AnimationWheel");
        reveal_strlit("Audio");
        lemma_prefix_mismatch(t, "AnimationWheel"@, 0);
        reveal_strlit("AnimationWheel");
        reveal_strlit("Macro");
        lemma_prefix_mismatch(t, "AnimationWheel"@, 0);
        reveal_strlit("AnimationWheel");
        reveal_strlit("Random");
        lemma_prefix_mismatch(t, "AnimationWheel"@, 0);
        reveal_strlit("AnimationWheel");
        reveal_strlit("SelectEffects");
        lemma_prefix_mismatch(t, "AnimationWheel"@, 0);
        reveal_strlit("AnimationWheel");
        reveal_strlit("SelectShake");
        lemma_prefix_mismatch(t, "AnimationWheel"@, 0);
        reveal_strlit("AnimationWheel");
        reveal_strlit("SelectSpin");
        lemma_prefix_mismatch(t, "AnimationWheel"@, 0);
        reveal_strlit("AnimationWheel");
        reveal_strlit("Pos");
        lemma_prefix_mismatch(t, "AnimationWheel"@, 0);
        reveal_strlit("AnimationWheel");
        reveal_strlit("PosRotate");
        lemma_prefix_mismatch(t, "AnimationWheel"@, 0);
        reveal_strlit("AnimationWheel");
        reveal_strlit("PosShake");
        lemma_prefix_mismatch(t, "AnimationWheel"@, 0);
        reveal_strlit("AnimationSystem");
        lemma_prefix_mismatch(t, "AnimationSystem"@, 0);
        reveal_strlit("AnimationSystem");
        reveal_strlit("Ramp");
        lemma_prefix_mismatch(t, "AnimationSystem"@, 0);
        reveal_strlit("AnimationSystem");
        reveal_strlit("Shake");
        lemma_prefix_mismatch(t, "AnimationSystem"@, 0);
        reveal_strlit("AnimationSystem");
        reveal_strlit("Audio");
        lemma_prefix_mismatch(t, "AnimationSystem"@, 0);
        reveal_strlit("AnimationSystem");
        reveal_strlit("Random");
        lemma_prefix_mismatch(t, "AnimationSystem"@, 0);
        reveal_strlit("AnimationSystem");
        reveal_strlit("Pos");
        lemma_prefix_mismatch(t, "AnimationSystem"@, 0);
        reveal_strlit("AnimationSystem");
        reveal_strlit("PosRotate");
        lemma_prefix_mismatch(t, "AnimationSystem"@, 0);
        reveal_strlit("AnimationSystem");
        reveal_strlit("PosShake");
        lemma_prefix_mismatch(t, "AnimationSystem"@, 0);
        reveal_strlit("AnimationSystem");
        reveal_strlit("PosRandom");
        lemma_prefix_mismatch(t, "AnimationSystem"@, 0);
        reveal_strlit("AnimationSystem");
        reveal_strlit("PosAudio");
        lemma_prefix_mismatch(t, "AnimationSystem"@, 0);
    }
    reveal_strlit("AnimationSystem");
    reveal_strlit("Macro");
    lemma_prefix_mismatch(t, "AnimationSystem"@, 0);
    reveal_strlit("MediaFolder");
    lemma_prefix_mismatch(t, "MediaFolder"@, 0);
    reveal_strlit("MediaContent");
    lemma_prefix_mismatch(t, "MediaContent"@, 0);
    reveal_strlit("ModelFolder");
    lemma_prefix_mismatch(t, "ModelFolder"@, 0);
    reveal_strlit("ModelContent");
    lemma_prefix_mismatch(t, "ModelContent"@, 0);
    reveal_strlit("ColorEffects");
    lemma_prefix_mismatch(t, "ColorEffects"@, 0);
    reveal_strlit("Color");
    lemma_prefix_mismatch(t, "Color"@, 0);
    reveal_strlit("Color");
    reveal_strlit("WheelIndex");
    lemma_prefix_mismatch(t, "Color"@, 0);
    reveal_strlit("Color");
    reveal_strlit("WheelSpin");
    lemma_prefix_mismatch(t, "Color"@, 0);
    reveal_strlit("Color");
    reveal_strlit("WheelRandom");
    lemma_prefix_mismatch(t, "Color"@, 0);
    reveal_strlit("Color");
    reveal_strlit("WheelAudio");
    lemma_prefix_mismatch(t, "Color"@, 0);
    reveal_strlit("ColorMacro");
    lemma_prefix_mismatch(t, "ColorMacro"@, 0);
    reveal_strlit("ColorMacro");
    reveal_strlit("Rate");
    lemma_prefix_mismatch(t, "ColorMacro"@, 0);
    lemma_number_after("Shutter"@, n);
}

/// An attribute of the numbered family `ShutterStrobe` reads back from its written
/// name: that text is no standard name, and every numbering rule before the
/// family's own rejects it.
proof fn text_reads_back_shutter_strobe(n: u8)
    ensures
        attribute_from_text(attribute_text(FixtureChannel3Attribute::ShutterStrobe(n))) == Some(FixtureChannel3Attribute::ShutterStrobe(n)),
{
    let d = decimal(n as nat);
    lemma_decimal_digits(n as nat);
    lemma_decimal_len_u8(n as nat);
    let t = attribute_text(FixtureChannel3Attribute::ShutterStrobe(n));
    reveal_strlit("Shutter");
    reveal_strlit("Strobe");
    assert(t == "Shutter"@ + d + "Strobe"@);
    lemma_exact_none_with_digit(t, 7);
    reveal(numbered_attribute_1);
    assert(numbered_attribute_0(t) is None) by {
        reveal(numbered_attribute_0);
        reveal_strlit("Gobo");
        lemma_prefix_mismatch(t, "Gobo"@, 0);
        reveal_strlit("Gobo");
        reveal_strlit("SelectSpin");
        lemma_prefix_mismatch(t, "Gobo"@, 0);
        reveal_strlit("Gobo");
        reveal_strlit("SelectShake");
        lemma_prefix_mismatch(t, "Gobo"@, 0);
        reveal_strlit("Gobo");
        reveal_strlit("SelectEffects");
        lemma_prefix_mismatch(t, "Gobo"@, 0);
        reveal_strlit("Gobo");
        reveal_strlit("WheelIndex");
        lemma_prefix_mismatch(t, "Gobo"@, 0);
        reveal_strlit("Gobo");
        reveal_strlit("WheelSpin");
        lemma_prefix_mismatch(t, "Gobo"@, 0);
        reveal_strlit("Gobo");
        reveal_strlit("WheelShake");
        lemma_prefix_mismatch(t, "Gobo"@, 0);
        reveal_strlit("Gobo");
        reveal_strlit("WheelRandom");
        lemma_prefix_mismatch(t, "Gobo"@, 0);
        reveal_strlit("Gobo");
        reveal_strlit("WheelAudio");
        lemma_prefix_mismatch(t, "Gobo"@, 0);
        reveal_strlit("Gobo");
        reveal_strlit("Pos");
        lemma_prefix_mismatch(t, "Gobo"@, 0);
        reveal_strlit("Gobo");
        reveal_strlit("PosRotate");
        lemma_prefix_mismatch(t, "Gobo"@, 0);
        reveal_strlit("Gobo");
        reveal_strlit("PosShake");
        lemma_prefix_mismatch(t, "Gobo"@, 0);
        reveal_strlit("AnimationWheel");
        lemma_prefix_mismatch(t, "AnimationWheel"@, 0);
        reveal_strlit("AnimationWheel");
        reveal_strlit("Audio");
        lemma_prefix_mismatch(t, "AnimationWheel"@, 0);
        reveal_strlit("AnimationWheel");
        reveal_strlit("Macro");
        lemma_prefix_mismatch(t, "AnimationWheel"@, 0);
        reveal_strlit("AnimationWheel");
        reveal_strlit("Random");
        lemma_prefix_mismatch(t, "AnimationWheel"@, 0);
        reveal_strlit("AnimationWheel");
        reveal_strlit("SelectEffects");
        lemma_prefix_mismatch(t, "AnimationWheel"@, 0);
        reveal_strlit("AnimationWheel");
        reveal_strlit("SelectShake");
        lemma_prefix_mismatch(t, "AnimationWheel"@, 0);
        reveal_strlit("AnimationWheel");
        reveal_strlit("SelectSpin");
        lemma_prefix_mismatch(t, "AnimationWheel"@, 0);
        reveal_strlit("AnimationWheel");
        reveal_strlit("Pos");
        lemma_prefix_mismatch(t, "AnimationWheel"@, 0);
        reveal_strlit("AnimationWheel");
        reveal_strlit("PosRotate");
        lemma_prefix_mismatch(t, "AnimationWheel"@, 0);
        reveal_strlit("AnimationWheel");
        reveal_strlit("PosShake");
        lemma_prefix_mismatch(t, "AnimationWheel"@, 0);
        reveal_strlit("AnimationSystem");
        lemma_prefix_mismatch(t, "AnimationSystem"@, 0);
        reveal_strlit("AnimationSystem");
        reveal_strlit("Ramp");
        lemma_prefix_mismatch(t, "AnimationSystem"@, 0);
        reveal_strlit("AnimationSystem");
        reveal_strlit("Shake");
        lemma_prefix_mismatch(t, "AnimationSystem"@, 0);
        reveal_strlit("AnimationSystem");
        reveal_strlit("Audio");
        lemma_prefix_mismatch(t, "AnimationSystem"@, 0);
        reveal_strlit("AnimationSystem");
        reveal_strlit("Random");
        lemma_prefix_mismatch(t, "AnimationSystem"@, 0);
        reveal_strlit("AnimationSystem");
        reveal_strlit("Pos");
        lemma_prefix_mismatch(t, "AnimationSystem"@, 0);
        reveal_strlit("AnimationSystem");
        reveal_strlit("PosRotate");
        lemma_prefix_mismatch(t, "AnimationSystem"@, 0);
        reveal_strlit("AnimationSystem");
        reveal_strlit("PosShake");
        lemma_prefix_mismatch(t, "AnimationSystem"@, 0);
        reveal_strlit("AnimationSystem");
        reveal_strlit("PosRandom");
        lemma_prefix_mismatch(t, "AnimationSystem"@, 0);
        reveal_strlit("AnimationSystem");
        reveal_strlit("PosAudio");
        lemma_prefix_mismatch(t, "AnimationSystem"@, 0);
    }
    reveal_strlit("AnimationSystem");
    reveal_strlit("Macro");
    lemma_prefix_mismatch(t, "AnimationSystem"@, 0);
    reveal_strlit("MediaFolder");
    lemma_prefix_mismatch(t, "MediaFolder"@, 0);
    reveal_strlit("MediaContent");
    lemma_prefix_mismatch(t, "MediaContent"@, 0);
    reveal_strlit("ModelFolder");
    lemma_prefix_mismatch(t, "ModelFolder"@, 0);
    reveal_strlit("ModelContent");
    lemma_prefix_mismatch(t, "ModelContent"@, 0);
    reveal_strlit("ColorEffects");
    lemma_prefix_mismatch(t, "ColorEffects"@, 0);
    reveal_strlit("Color");
    lemma_prefix_mismatch(t, "Color"@, 0);
    reveal_strlit("Color");
    reveal_strlit("WheelIndex");
    lemma_prefix_mismatch(t, "Color"@, 0);
    reveal_strlit("Color");
    reveal_strlit("WheelSpin");
    lemma_prefix_mismatch(t, "Color"@, 0);
    reveal_strlit("Color");
    reveal_strlit("WheelRandom");
    lemma_prefix_mismatch(t, "Color"@, 0);
    reveal_strlit("Color");
    reveal_strlit("WheelAudio");
    lemma_prefix_mismatch(t, "Color"@, 0);
    reveal_strlit("ColorMacro");
    lemma_prefix_mismatch(t, "ColorMacro"@, 0);
    reveal_strlit("ColorMacro");
    reveal_strlit("Rate");
    lemma_prefix_mismatch(t, "ColorMacro"@, 0);
    reveal_strlit("Shutter");
    lemma_rest_not_number(t, "Shutter"@, d.len() as int);
    lemma_number_between("Shutter"@, "Strobe"@, n);
}

/// An attribute of the numbered family `ShutterStrobePulse` reads back from its written
/// name: that text is no standard name, and every numbering rule before the
/// family's own rejects it.
proof fn text_reads_back_shutter_strobe_pulse(n: u8)
    ensures
        attribute_from_text(attribute_text(FixtureChannel3Attribute::ShutterStrobePulse(n))) == Some(FixtureChannel3Attribute::ShutterStrobePulse(n)),
{
    let d = decimal(n as nat);
    lemma_decimal_digits(n as nat);
    lemma_decimal_len_u8(n as nat);
    let t = attribute_text(FixtureChannel3Attribute::ShutterStrobePulse(n));
    reveal_strlit("Shutter");
    reveal_strlit("StrobePulse");
    assert(t == "Shutter"@ + d + "StrobePulse"@);
    lemma_exact_none_with_digit(t, 7);
    reveal(numbered_attribute_1);
    assert(numbered_attribute_0(t) is None) by {
        reveal(numbered_attribute_0);
        reveal_strlit("Gobo");
        lemma_prefix_mismatch(t, "Gobo"@, 0);
        reveal_strlit("Gobo");
        reveal_strlit("SelectSpin");
        lemma_prefix_mismatch(t, "Gobo"@, 0);
        reveal_strlit("Gobo");
        reveal_strlit("SelectShake");
        lemma_prefix_mismatch(t, "Gobo"@, 0);
        reveal_strlit("Gobo");
        reveal_strlit("SelectEffects");
        lemma_prefix_mismatch(t, "Gobo"@, 0);
        reveal_strlit("Gobo");
        reveal_strlit("WheelIndex");
        lemma_prefix_mismatch(t, "Gobo"@, 0);
        reveal_strlit("Gobo");
        reveal_strlit("WheelSpin");
        lemma_prefix_mismatch(t, "Gobo"@, 0);
        reveal_strlit("Gobo");
        reveal_strlit("WheelShake");
        lemma_prefix_mismatch(t, "Gobo"@, 0);
        reveal_strlit("Gobo");
        reveal_strlit("WheelRandom");
        lemma_prefix_mismatch(t, "Gobo"@, 0);
        reveal_strlit("Gobo");
        reveal_strlit("WheelAudio");
        lemma_prefix_mismatch(t, "Gobo"@, 0);
        reveal_strlit("Gobo");
        reveal_strlit("Pos");
        lemma_prefix_mismatch(t, "Gobo"@, 0);
        reveal_strlit("Gobo");
        reveal_strlit("PosRotate");
        lemma_prefix_mismatch(t, "Gobo"@, 0);
        reveal_strlit("Gobo");
        reveal_strlit("PosShake");
        lemma_prefix_mismatch(t, "Gobo"@, 0);
        reveal_strlit("AnimationWheel");
        lemma_prefix_mismatch(t, "AnimationWheel"@, 0);
        reveal_strlit("AnimationWheel");
        reveal_strlit("Audio");
        lemma_prefix_mismatch(t, "AnimationWheel"@, 0);
        reveal_strlit("AnimationWheel");
        reveal_strlit("Macro");
        lemma_prefix_mismatch(t, "AnimationWheel"@, 0);
        reveal_strlit("AnimationWheel");
        reveal_strlit("Random");
        lemma_prefix_mismatch(t, "AnimationWheel"@, 0);
        reveal_strlit("AnimationWheel");
        reveal_strlit("SelectEffects");
        lemma_prefix_mismatch(t, "AnimationWheel"@, 0);
        reveal_strlit("AnimationWheel");
        reveal_strlit("SelectShake");
        lemma_prefix_mismatch(t, "AnimationWheel"@, 0);
        reveal_strlit("AnimationWheel");
        reveal_strlit("SelectSpin");
        lemma_prefix_mismatch(t, "AnimationWheel"@, 0);
        reveal_strlit("AnimationWheel");
        reveal_strlit("Pos");
        lemma_prefix_mismatch(t, "AnimationWheel"@, 0);
        reveal_strlit("AnimationWheel");
        reveal_strlit("PosRotate");
        lemma_prefix_mismatch(t, "AnimationWheel"@, 0);
        reveal_strlit("AnimationWheel");
        reveal_strlit("PosShake");
        lemma_prefix_mismatch(t, "AnimationWheel"@, 0);
        reveal_strlit("AnimationSystem");
        lemma_prefix_mismatch(t, "AnimationSystem"@, 0);
        reveal_strlit("AnimationSystem");
        reveal_strlit("Ramp");
        lemma_prefix_mismatch(t, "AnimationSystem"@, 0);
        reveal_strlit("AnimationSystem");
        reveal_strlit("Shake");
        lemma_prefix_mismatch(t, "AnimationSystem"@, 0);
        reveal_strlit("AnimationSystem");
        reveal_strlit("Audio");
        lemma_prefix_mismatch(t, "AnimationSystem"@, 0);
        reveal_strlit("AnimationSystem");
        reveal_strlit("Random");
        lemma_prefix_mismatch(t, "AnimationSystem"@, 0);
        reveal_strlit("AnimationSystem");
        reveal_strlit("Pos");
        lemma_prefix_mismatch(t, "AnimationSystem"@, 0);
        reveal_strlit("AnimationSystem");
        reveal_strlit("PosRotate");
        lemma_prefix_mismatch(t, "AnimationSystem"@, 0);
        reveal_strlit("AnimationSystem");
        reveal_strlit("PosShake");
        lemma_prefix_mismatch(t, "AnimationSystem"@, 0);
        reveal_strlit("AnimationSystem");
        reveal_strlit("PosRandom");
        lemma_prefix_mismatch(t, "AnimationSystem"@, 0);
        reveal_strlit("AnimationSystem");
        reveal_strlit("PosAudio");
        lemma_prefix_mismatch(t, "AnimationSystem"@, 0);
    }
    reveal_strlit("AnimationSystem");
    reveal_strlit("Macro");
    lemma_prefix_mismatch(t, "AnimationSystem"@, 0);
    reveal_strlit("MediaFolder");
    lemma_prefix_mismatch(t, "MediaFolder"@, 0);
    reveal_strlit("MediaContent");
    lemma_prefix_mismatch(t, "MediaContent"@, 0);
    reveal_strlit("ModelFolder");
    lemma_prefix_mismatch(t, "ModelFolder"@, 0);
    reveal_strlit("ModelContent");
    lemma_prefix_mismatch(t, "ModelContent"@, 0);
    reveal_strlit("ColorEffects");
    lemma_prefix_mismatch(t, "ColorEffects"@, 0);
    reveal_strlit("Color");
    lemma_prefix_mismatch(t, "Color"@, 0);
    reveal_strlit("Color");
    reveal_strlit("WheelIndex");
    lemma_prefix_mismatch(t, "Color"@, 0);
    reveal_strlit("Color");
    reveal_strlit("WheelSpin");
    lemma_prefix_mismatch(t, "Color"@, 0);
    reveal_strlit("Color");
    reveal_strlit("WheelRandom");
    lemma_prefix_mismatch(t, "Color"@, 0);
    reveal_strlit("Color");
    reveal_strlit("WheelAudio");
    lemma_prefix_mismatch(t, "Color"@, 0);
    reveal_strlit("ColorMacro");
    lemma_prefix_mismatch(t, "ColorMacro"@, 0);
    reveal_strlit("ColorMacro");
    reveal_strlit("Rate");
    lemma_prefix_mismatch(t, "ColorMacro"@, 0);
    reveal_strlit("Shutter");
    lemma_rest_not_number(t, "Shutter"@, d.len() as int);
    reveal_strlit("Shutter");
    reveal_strlit("Strobe");
    lemma_suffix_mismatch(t, "Shutter"@, "Strobe"@, 1);
    lemma_number_between("Shutter"@, "StrobePulse"@, n);
}

/// An attribute of the numbered family `ShutterStrobePulseClose` reads back from its written
/// name: that text is no standard name, and every numbering rule before the
/// family's own rejects it.
proof fn text_reads_back_shutter_strobe_pulse_close(n: u8)
    ensures
        attribute_from_text(attribute_text(FixtureChannel3Attribute::ShutterStrobePulseClose(n))) == Some(FixtureChannel3Attribute::ShutterStrobePulseClose(n)),
{
    let d = decimal(n as nat);
    lemma_decimal_digits(n as nat);
    lemma_decimal_len_u8(n as nat);
    let t = attribute_text(FixtureChannel3Attribute::ShutterStrobePulseClose(n));
    reveal_strlit("Shutter");
    reveal_strlit("StrobePulseClose");
    assert(t == "Shutter"@ + d + "StrobePulseClose"@);
    lemma_exact_none_with_digit(t, 7);
    reveal(numbered_attribute_1);
    assert(numbered_attribute_0(t) is None) by {
        reveal(numbered_attribute_0);
        reveal_strlit("Gobo");
        lemma_prefix_mismatch(t, "Gobo"@, 0);
        reveal_strlit("Gobo");
        reveal_strlit("SelectSpin");
        lemma_prefix_mismatch(t, "Gobo"@, 0);
        reveal_strlit("Gobo");
        reveal_strlit("SelectShake");
        lemma_prefix_mismatch(t, "Gobo"@, 0);
        reveal_strlit("Gobo");
        reveal_strlit("SelectEffects");
        lemma_prefix_mismatch(t, "Gobo"@, 0);
        reveal_strlit("Gobo");
        reveal_strlit("WheelIndex");
        lemma_prefix_mismatch(t, "Gobo"@, 0);
        reveal_strlit("Gobo");
        reveal_strlit("WheelSpin");
        lemma_prefix_mismatch(t, "Gobo"@, 0);
        reveal_strlit("Gobo");
        reveal_strlit("WheelShake");
        lemma_prefix_mismatch(t, "Gobo"@, 0);
        reveal_strlit("Gobo");
        reveal_strlit("WheelRandom");
        lemma_prefix_mismatch(t, "Gobo"@, 0);
        reveal_strlit("Gobo");
        reveal_strlit("WheelAudio");
        lemma_prefix_mismatch(t, "Gobo"@, 0);
        reveal_strlit("Gobo");
        reveal_strlit("Pos");
        lemma_prefix_mismatch(t, "Gobo"@, 0);
        reveal_strlit("Gobo");
        reveal_strlit("PosRotate");
        lemma_prefix_mismatch(t, "Gobo"@, 0);
        reveal_strlit("Gobo");
        reveal_strlit("PosShake");
        lemma_prefix_mismatch(t, "Gobo"@, 0);
        reveal_strlit("AnimationWheel");
        lemma_prefix_mismatch(t, "AnimationWheel"@, 0);
        reveal_strlit("AnimationWheel");
        reveal_strlit("Audio");
        lemma_prefix_mismatch(t, "AnimationWheel"@, 0);
        reveal_strlit("AnimationWheel");
        reveal_strlit("Macro");
        lemma_prefix_mismatch(t, "AnimationWheel"@, 0);
        reveal_strlit("AnimationWheel");
        reveal_strlit("Random");
        lemma_prefix_mismatch(t, "AnimationWheel"@, 0);
        reveal_strlit("AnimationWheel");
        reveal_strlit("SelectEffects");
        lemma_prefix_mismatch(t, "AnimationWheel"@, 0);
        reveal_strlit("AnimationWheel");
        reveal_strlit("SelectShake");
        lemma_prefix_mismatch(t, "AnimationWheel"@, 0);
        reveal_strlit("AnimationWheel");
        reveal_strlit("SelectSpin");
        lemma_prefix_mismatch(t, "AnimationWheel"@, 0);
        reveal_strlit("AnimationWheel");
        reveal_strlit("Pos");
        lemma_prefix_mismatch(t, "AnimationWheel"@, 0);
        reveal_strlit("AnimationWheel");
        reveal_strlit("PosRotate");
        lemma_prefix_mismatch(t, "AnimationWheel"@, 0);
        reveal_strlit("AnimationWheel");
        reveal_strlit("PosShake");
        lemma_prefix_mismatch(t, "AnimationWheel"@, 0);
        reveal_strlit("AnimationSystem");
        lemma_prefix_mismatch(t, "AnimationSystem"@, 0);
        reveal_strlit("AnimationSystem");
        reveal_strlit("Ramp");
        lemma_prefix_mismatch(t, "AnimationSystem"@, 0);
        reveal_strlit("AnimationSystem");
        reveal_strlit("Shake");
        lemma_prefix_mismatch(t, "AnimationSystem"@, 0);
        reveal_strlit("AnimationSystem");
        reveal_strlit("Audio");
        lemma_prefix_mismatch(t, "AnimationSystem"@, 0);
        reveal_strlit("AnimationSystem");
        reveal_strlit("Random");
        lemma_prefix_mismatch(t, "AnimationSystem"@, 0);
        reveal_strlit("AnimationSystem");
        reveal_strlit("Pos");
        lemma_prefix_mismatch(t, "AnimationSystem"@, 0);
        reveal_strlit("AnimationSystem");
        reveal_strlit("PosRotate");
        lemma_prefix_mismatch(t, "AnimationSystem"@, 0);
        reveal_strlit("AnimationSystem");
        reveal_strlit("PosShake");
        lemma_prefix_mismatch(t, "AnimationSystem"@, 0);
        reveal_strlit("AnimationSystem");
        reveal_strlit("PosRandom");
        lemma_prefix_mismatch(t, "AnimationSystem"@, 0);
        reveal_strlit("AnimationSystem");
        reveal_strlit("PosAudio");
        lemma_prefix_mismatch(t, "AnimationSystem"@, 0);
    }
    reveal_strlit("AnimationSystem");
    reveal_strlit("Macro");
    lemma_prefix_mismatch(t, "AnimationSystem"@, 0);
    reveal_strlit("MediaFolder");
    lemma_prefix_mismatch(t, "MediaFolder"@, 0);
    reveal_strlit("MediaContent");
    lemma_prefix_mismatch(t, "MediaContent"@, 0);
    reveal_strlit("ModelFolder");
    lemma_prefix_mismatch(t, "ModelFolder"@, 0);
    reveal_strlit("ModelContent");
    lemma_prefix_mismatch(t, "ModelContent"@, 0);
    reveal_strlit("ColorEffects");
    lemma_prefix_mismatch(t, "ColorEffects"@, 0);
    reveal_strlit("Color");
    lemma_prefix_mismatch(t, "Color"@, 0);
    reveal_strlit("Color");
    reveal_strlit("WheelIndex");
    lemma_prefix_mismatch(t, "Color"@, 0);
    reveal_strlit("Color");
    reveal_strlit("WheelSpin");
    lemma_prefix_mismatch(t, "Color"@, 0);
    reveal_strlit("Color");
    reveal_strlit("WheelRandom");
    lemma_prefix_mismatch(t, "Color"@, 0);
    reveal_strlit("Color");
    reveal_strlit("WheelAudio");
    lemma_prefix_mismatch(t, "Color"@, 0);
    reveal_strlit("ColorMacro");
    lemma_prefix_mismatch(t, "ColorMacro"@, 0);
    reveal_strlit("ColorMacro");
    reveal_strlit("Rate");
    lemma_prefix_mismatch(t, "ColorMacro"@, 0);
    reveal_strlit("Shutter");
    lemma_rest_not_number(t, "Shutter"@, d.len() as int);
    reveal_strlit("Shutter");
    reveal_strlit("Strobe");
    lemma_suffix_mismatch(t, "Shutter"@, "Strobe"@, 1);
    reveal_strlit("Shutter");
    reveal_strlit("StrobePulse");
    lemma_suffix_mismatch(t, "Shutter"@, "StrobePulse"@, 2);
    lemma_number_between("Shutter"@, "StrobePulseClose"@, n);
}

/// An attribute of the numbered family `ShutterStrobePulseOpen` reads back from its written
/// name: that text is no standard name, and every numbering rule before the
/// family's own rejects it.
proof fn text_reads_back_shutter_strobe_pulse_open(n: u8)
    ensures
        attribute_from_text(attribute_text(FixtureChannel3Attribute::ShutterStrobePulseOpen(n))) == Some(FixtureChannel3Attribute::ShutterStrobePulseOpen(n)),
{
    let d = decimal(n as nat);
    lemma_decimal_digits(n as nat);
    lemma_decimal_len_u8(n as nat);
    let t = attribute_text(FixtureChannel3Attribute::ShutterStrobePulseOpen(n));
    reveal_strlit("Shutter");
    reveal_strlit("StrobePulseOpen");
    assert(t == "Shutter"@ + d + "StrobePulseOpen"@);
    lemma_exact_none_with_digit(t, 7);
    reveal(numbered_attribute_1);
    assert(numbered_attribute_0(t) is None) by {
        reveal(numbered_attribute_0);
        reveal_strlit("Gobo");
        lemma_prefix_mismatch(t, "Gobo"@, 0);
        reveal_strlit("Gobo");
        reveal_strlit("SelectSpin");
        lemma_prefix_mismatch(t, "Gobo"@, 0);
        reveal_strlit("Gobo");
        reveal_strlit("SelectShake");
        lemma_prefix_mismatch(t, "Gobo"@, 0);
        reveal_strlit("Gobo");
        reveal_strlit("SelectEffects");
        lemma_prefix_mismatch(t, "Gobo"@, 0);
        reveal_strlit("Gobo");
        reveal_strlit("WheelIndex");
        lemma_prefix_mismatch(t, "Gobo"@, 0);
        reveal_strlit("Gobo");
        reveal_strlit("WheelSpin");
        lemma_prefix_mismatch(t, "Gobo"@, 0);
        reveal_strlit("Gobo");
        reveal_strlit("WheelShake");
        lemma_prefix_mismatch(t, "Gobo"@, 0);
        reveal_strlit("Gobo");
        reveal_strlit("WheelRandom");
        lemma_prefix_mismatch(t, "Gobo"@, 0);
        reveal_strlit("Gobo");
        reveal_strlit("WheelAudio");
        lemma_prefix_mismatch(t, "Gobo"@, 0);
        reveal_strlit("Gobo");
        reveal_strlit("Pos");
        lemma_prefix_mismatch(t, "Gobo"@, 0);
        reveal_strlit("Gobo");
        reveal_strlit("PosRotate");
        lemma_prefix_mismatch(t, "Gobo"@, 0);
        reveal_strlit("Gobo");
        reveal_strlit("PosShake");
        lemma_prefix_mismatch(t, "Gobo"@, 0);
        reveal_strlit("AnimationWheel");
        lemma_prefix_mismatch(t, "AnimationWheel"@, 0);
        reveal_strlit("AnimationWheel");
        reveal_strlit("Audio");
        lemma_prefix_mismatch(t, "AnimationWheel"@, 0);
        reveal_strlit("AnimationWheel");
        reveal_strlit("Macro");
        lemma_prefix_mismatch(t, "AnimationWheel"@, 0);
        reveal_strlit("AnimationWheel");
        reveal_strlit("Random");
        lemma_prefix_mismatch(t, "AnimationWheel"@, 0);
        reveal_strlit("AnimationWheel");
        reveal_strlit("SelectEffects");
        lemma_prefix_mismatch(t, "AnimationWheel"@, 0);
        reveal_strlit("AnimationWheel");
        reveal_strlit("SelectShake");
        lemma_prefix_mismatch(t, "AnimationWheel"@, 0);
        reveal_strlit("AnimationWheel");
        reveal_strlit("SelectSpin");
        lemma_prefix_mismatch(t, "AnimationWheel"@, 0);
        reveal_strlit("AnimationWheel");
        reveal_strlit("Pos");
        lemma_prefix_mismatch(t, "AnimationWheel"@, 0);
        reveal_strlit("AnimationWheel");
        reveal_strlit("PosRotate");
        lemma_prefix_mismatch(t, "AnimationWheel"@, 0);
        reveal_strlit("AnimationWheel");
        reveal_strlit("PosShake");
        lemma_prefix_mismatch(t, "AnimationWheel"@, 0);
        reveal_strlit("AnimationSystem");
        lemma_prefix_mismatch(t, "AnimationSystem"@, 0);
        reveal_strlit("AnimationSystem");
        reveal_strlit("Ramp");
        lemma_prefix_mismatch(t, "AnimationSystem"@, 0);
        reveal_strlit("AnimationSystem");
        reveal_strlit("Shake");
        lemma_prefix_mismatch(t, "AnimationSystem"@, 0);
        reveal_strlit("AnimationSystem");
        reveal_strlit("Audio");
        lemma_prefix_mismatch(t, "AnimationSystem"@, 0);
        reveal_strlit("AnimationSystem");
        reveal_strlit("Random");
        lemma_prefix_mismatch(t, "AnimationSystem"@, 0);
        reveal_strlit("AnimationSystem");
        reveal_strlit("Pos");
        lemma_prefix_mismatch(t, "AnimationSystem"@, 0);
        reveal_strlit("AnimationSystem");
        reveal_strlit("PosRotate");
        lemma_prefix_mismatch(t, "AnimationSystem"@, 0);
        reveal_strlit("AnimationSystem");
        reveal_strlit("PosShake");
        lemma_prefix_mismatch(t, "AnimationSystem"@, 0);
        reveal_strlit("AnimationSystem");
        reveal_strlit("PosRandom");
        lemma_prefix_mismatch(t, "AnimationSystem"@, 0);
        reveal_strlit("AnimationSystem");
        reveal_strlit("PosAudio");
        lemma_prefix_mismatch(t, "AnimationSystem"@, 0);
    }
    reveal_strlit("AnimationSystem");
    reveal_strlit("Macro");
    lemma_prefix_mismatch(t, "AnimationSystem"@, 0);
    reveal_strlit("MediaFolder");
    lemma_prefix_mismatch(t, "MediaFolder"@, 0);
    reveal_strlit("MediaContent");
    lemma_prefix_mismatch(t, "MediaContent"@, 0);
    reveal_strlit("ModelFolder");
    lemma_prefix_mismatch(t, "ModelFolder"@, 0);
    reveal_strlit("ModelContent");
    lemma_prefix_mismatch(t, "ModelContent"@, 0);
    reveal_strlit("ColorEffects");
    lemma_prefix_mismatch(t, "ColorEffects"@, 0);
    reveal_strlit("Color");
    lemma_prefix_mismatch(t, "Color"@, 0);
    reveal_strlit("Color");
    reveal_strlit("WheelIndex");
    lemma_prefix_mismatch(t, "Color"@, 0);
    reveal_strlit("Color");
    reveal_strlit("WheelSpin");
    lemma_prefix_mismatch(t, "Color"@, 0);
    reveal_strlit("Color");
    reveal_strlit("WheelRandom");
    lemma_prefix_mismatch(t, "Color"@, 0);
    reveal_strlit("Color");
    reveal_strlit("WheelAudio");
    lemma_prefix_mismatch(t, "Color"@, 0);
    reveal_strlit("ColorMacro");
    lemma_prefix_mismatch(t, "ColorMacro"@, 0);
    reveal_strlit("ColorMacro");
    reveal_strlit("Rate");
    lemma_prefix_mismatch(t, "ColorMacro"@, 0);
    reveal_strlit("Shutter");
    lemma_rest_not_number(t, "Shutter"@, d.len() as int);
    reveal_strlit("Shutter");
    reveal_strlit("Strobe");
    lemma_suffix_mismatch(t, "Shutter"@, "Strobe"@, 0);
    reveal_strlit("Shutter");
    reveal_strlit("StrobePulse");
    lemma_suffix_mismatch(t, "Shutter"@, "StrobePulse"@, 0);
    reveal_strlit("Shutter");
    reveal_strlit("StrobePulseClose");
    lemma_suffix_mismatch(t, "Shutter"@, "StrobePulseClose"@, 0);
    lemma_number_between("Shutter"@, "StrobePulseOpen"@, n);
}

/// An attribute of the numbered family `ShutterStrobeRandom` reads back from its written
/// name: that text is no standard name, and every numbering rule before the
/// family's own rejects it.
proof fn text_reads_back_shutter_strobe_random(n: u8)
    ensures
        attribute_from_text(attribute_text(FixtureChannel3Attribute::ShutterStrobeRandom(n))) == Some(FixtureChannel3Attribute::ShutterStrobeRandom(n)),
{
    let d = decimal(n as nat);
    lemma_decimal_digits(n as nat);
    lemma_decimal_len_u8(n as nat);
    let t = attribute_text(FixtureChannel3Attribute::ShutterStrobeRandom(n));
    reveal_strlit("Shutter");
    reveal_strlit("StrobeRandom");
    assert(t == "Shutter"@ + d + "StrobeRandom"@);
    lemma_exact_none_with_digit(t, 7);
    reveal(numbered_attribute_1);
    assert(numbered_attribute_0(t) is None) by {
        reveal(numbered_attribute_0);
        reveal_strlit("Gobo");
        lemma_prefix_mismatch(t, "Gobo"@, 0);
        reveal_strlit("Gobo");
        reveal_strlit("SelectSpin");
        lemma_prefix_mismatch(t, "Gobo"@, 0);
        reveal_strlit("Gobo");
        reveal_strlit("SelectShake");
        lemma_prefix_mismatch(t, "Gobo"@, 0);
        reveal_strlit("Gobo");
        reveal_strlit("SelectEffects");
        lemma_prefix_mismatch(t, "Gobo"@, 0);
        reveal_strlit("Gobo");
        reveal_strlit("WheelIndex");
        lemma_prefix_mismatch(t, "Gobo"@, 0);
        reveal_strlit("Gobo");
        reveal_strlit("WheelSpin");
        lemma_prefix_mismatch(t, "Gobo"@, 0);
        reveal_strlit("Gobo");
        reveal_strlit("WheelShake");
        lemma_prefix_mismatch(t, "Gobo"@, 0);
        reveal_strlit("Gobo");
        reveal_strlit("WheelRandom");
        lemma_prefix_mismatch(t, "Gobo"@, 0);
        reveal_strlit("Gobo");
        reveal_strlit("WheelAudio");
        lemma_prefix_mismatch(t, "Gobo"@, 0);
        reveal_strlit("Gobo");
        reveal_strlit("Pos");
        lemma_prefix_mismatch(t, "Gobo"@, 0);
        reveal_strlit("Gobo");
        reveal_strlit("PosRotate");
        lemma_prefix_mismatch(t, "Gobo"@, 0);
        reveal_strlit("Gobo");
        reveal_strlit("PosShake");
        lemma_prefix_mismatch(t, "Gobo"@, 0);
        reveal_strlit("AnimationWheel");
        lemma_prefix_mismatch(t, "AnimationWheel"@, 0);
        reveal_strlit("AnimationWheel");
        reveal_strlit("Audio");
        lemma_prefix_mismatch(t, "AnimationWheel"@, 0);
        reveal_strlit("AnimationWheel");
        reveal_strlit("Macro");
        lemma_prefix_mismatch(t, "AnimationWheel"@, 0);
        reveal_strlit("AnimationWheel");
        reveal_strlit("Random");
        lemma_prefix_mismatch(t, "AnimationWheel"@, 0);
        reveal_strlit("AnimationWheel");
        reveal_strlit("SelectEffects");
        lemma_prefix_mismatch(t, "AnimationWheel"@, 0);
        reveal_strlit("AnimationWheel");
        reveal_strlit("SelectShake");
        lemma_prefix_mismatch(t, "AnimationWheel"@, 0);
        reveal_strlit("AnimationWheel");
        reveal_strlit("SelectSpin");
        lemma_prefix_mismatch(t, "AnimationWheel"@, 0);
        reveal_strlit("AnimationWheel");
        reveal_strlit("Pos");
        lemma_prefix_mismatch(t, "AnimationWheel"@, 0);
        reveal_strlit("AnimationWheel");
        reveal_strlit("PosRotate");
        lemma_prefix_mismatch(t, "AnimationWheel"@, 0);
        reveal_strlit("AnimationWheel");
        reveal_strlit("PosShake");
        lemma_prefix_mismatch(t, "AnimationWheel"@, 0);
        reveal_strlit("AnimationSystem");
        lemma_prefix_mismatch(t, "AnimationSystem"@, 0);
        reveal_strlit("AnimationSystem");
        reveal_strlit("Ramp");
        lemma_prefix_mismatch(t, "AnimationSystem"@, 0);
        reveal_strlit("AnimationSystem");
        reveal_strlit("Shake");
        lemma_prefix_mismatch(t, "AnimationSystem"@, 0);
        reveal_strlit("AnimationSystem");
        reveal_strlit("Audio");
        lemma_prefix_mismatch(t, "AnimationSystem"@, 0);
        reveal_strlit("AnimationSystem");
        reveal_strlit("Random");
        lemma_prefix_mismatch(t, "AnimationSystem"@, 0);
        reveal_strlit("AnimationSystem");
        reveal_strlit("Pos");
        lemma_prefix_mismatch(t, "AnimationSystem"@, 0);
        reveal_strlit("AnimationSystem");
        reveal_strlit("PosRotate");
        lemma_prefix_mismatch(t, "AnimationSystem"@, 0);
        reveal_strlit("AnimationSystem");
        reveal_strlit("PosShake");
        lemma_prefix_mismatch(t, "AnimationSystem"@, 0);
        reveal_strlit("AnimationSystem");
        reveal_strlit("PosRandom");
        lemma_prefix_mismatch(t, "AnimationSystem"@, 0);
        reveal_strlit("AnimationSystem");
        reveal_strlit("PosAudio");
        lemma_prefix_mismatch(t, "AnimationSystem"@, 0);
    }
    reveal_strlit("AnimationSystem");
    reveal_strlit("Macro");
    lemma_prefix_mismatch(t, "AnimationSystem"@, 0);
    reveal_strlit("MediaFolder");
    lemma_prefix_mismatch(t, "MediaFolder"@, 0);
    reveal_strlit("MediaContent");
    lemma_prefix_mismatch(t, "MediaContent"@, 0);
    reveal_strlit("ModelFolder");
    lemma_prefix_mismatch(t, "ModelFolder"@, 0);
    reveal_strlit("ModelContent");
    lemma_prefix_mismatch(t, "ModelContent"@, 0);
    reveal_strlit("ColorEffects");
    lemma_prefix_mismatch(t, "ColorEffects"@, 0);
    reveal_strlit("Color");
    lemma_prefix_mismatch(t, "Color"@, 0);
    reveal_strlit("Color");
    reveal_strlit("WheelIndex");
    lemma_prefix_mismatch(t, "Color"@, 0);
    reveal_strlit("Color");
    reveal_strlit("WheelSpin");
    lemma_prefix_mismatch(t, "Color"@, 0);
    reveal_strlit("Color");
    reveal_strlit("WheelRandom");
    lemma_prefix_mismatch(t, "Color"@, 0);
    reveal_strlit("Color");
    reveal_strlit("WheelAudio");
    lemma_prefix_mismatch(t, "Color"@, 0);
    reveal_strlit("ColorMacro");
    lemma_prefix_mismatch(t, "ColorMacro"@, 0);
    reveal_strlit("ColorMacro");
    reveal_strlit("Rate");
    lemma_prefix_mismatch(t, "ColorMacro"@, 0);
    reveal_strlit("Shutter");
    lemma_rest_not_number(t, "Shutter"@, d.len() as int);
    reveal_strlit("Shutter");
    reveal_strlit("Strobe");
    lemma_suffix_mismatch(t, "Shutter"@, "Strobe"@, 0);
    reveal_strlit("Shutter");
    reveal_strlit("StrobePulse");
    lemma_suffix_mismatch(t, "Shutter"@, "StrobePulse"@, 0);
    reveal_strlit("Shutter");
    reveal_strlit("StrobePulseClose");
    lemma_suffix_mismatch(t, "Shutter"@, "StrobePulseClose"@, 0);
    reveal_strlit("Shutter");
    reveal_strlit("StrobePulseOpen");
    lemma_suffix_mismatch(t, "Shutter"@, "StrobePulseOpen"@, 0);
    lemma_number_between("Shutter"@, "StrobeRandom"@, n);
}

/// An attribute of the numbered family `ShutterStrobeRandomPulse` reads back from its written
/// name: that text is no standard name, and every numbering rule before the
/// family's own rejects it.
proof fn text_reads_back_shutter_strobe_random_pulse(n: u8)
    ensures
        attribute_from_text(attribute_text(FixtureChannel3Attribute::ShutterStrobeRandomPulse(n))) == Some(FixtureChannel3Attribute::ShutterStrobeRandomPulse(n)),
{
    let d = decimal(n as nat);
    lemma_decimal_digits(n as nat);
    lemma_decimal_len_u8(n as nat);
    let t = attribute_text(FixtureChannel3Attribute::ShutterStrobeRandomPulse(n));
    reveal_strlit("Shutter");
    reveal_strlit("StrobeRandomPulse");
    assert(t == "Shutter"@ + d + "StrobeRandomPulse"@);
    lemma_exact_none_with_digit(t, 7);
    reveal(numbered_attribute_1);
    assert(numbered_attribute_0(t) is None) by {
        reveal(numbered_attribute_0);
        reveal_strlit("Gobo");
        lemma_prefix_mismatch(t, "Gobo"@, 0);
        reveal_strlit("Gobo");
        reveal_strlit("SelectSpin");
        lemma_prefix_mismatch(t, "Gobo"@, 0);
        reveal_strlit("Gobo");
        reveal_strlit("SelectShake");
        lemma_prefix_mismatch(t, "Gobo"@, 0);
        reveal_strlit("Gobo");
        reveal_strlit("SelectEffects");
        lemma_prefix_mismatch(t, "Gobo"@, 0);
        reveal_strlit("Gobo");
        reveal_strlit("WheelIndex");
        lemma_prefix_mismatch(t, "Gobo"@, 0);
        reveal_strlit("Gobo");
        reveal_strlit("WheelSpin");
        lemma_prefix_mismatch(t, "Gobo"@, 0);
        reveal_strlit("Gobo");
        reveal_strlit("WheelShake");
        lemma_prefix_mismatch(t, "Gobo"@, 0);
        reveal_strlit("Gobo");
        reveal_strlit("WheelRandom");
        lemma_prefix_mismatch(t, "Gobo"@, 0);
        reveal_strlit("Gobo");
        reveal_strlit("WheelAudio");
        lemma_prefix_mismatch(t, "Gobo"@, 0);
        reveal_strlit("Gobo");
        reveal_strlit("Pos");
        lemma_prefix_mismatch(t, "Gobo"@, 0);
        reveal_strlit("Gobo");
        reveal_strlit("PosRotate");
        lemma_prefix_mismatch(t, "Gobo"@, 0);
        reveal_strlit("Gobo");
        reveal_strlit("PosShake");
        lemma_prefix_mismatch(t, "Gobo"@, 0);
        reveal_strlit("AnimationWheel");
        lemma_prefix_mismatch(t, "AnimationWheel"@, 0);
        reveal_strlit("AnimationWheel");
        reveal_strlit("Audio");
        lemma_prefix_mismatch(t, "AnimationWheel"@, 0);
        reveal_strlit("AnimationWheel");
        reveal_strlit("Macro");
        lemma_prefix_mismatch(t, "AnimationWheel"@, 0);
        reveal_strlit("AnimationWheel");
        reveal_strlit("Random");
        lemma_prefix_mismatch(t, "AnimationWheel"@, 0);
        reveal_strlit("AnimationWheel");
        reveal_strlit("SelectEffects");
        lemma_prefix_mismatch(t, "AnimationWheel"@, 0);
        reveal_strlit("AnimationWheel");
        reveal_strlit("SelectShake");
        lemma_prefix_mismatch(t, "AnimationWheel"@, 0);
        reveal_strlit("AnimationWheel");
        reveal_strlit("SelectSpin");
        lemma_prefix_mismatch(t, "AnimationWheel"@, 0);
        reveal_strlit("AnimationWheel");
        reveal_strlit("Pos");
        lemma_prefix_mismatch(t, "AnimationWheel"@, 0);
        reveal_strlit("AnimationWheel");
        reveal_strlit("PosRotate");
        lemma_prefix_mismatch(t, "AnimationWheel"@, 0);
        reveal_strlit("AnimationWheel");
        reveal_strlit("PosShake");
        lemma_prefix_mismatch(t, "AnimationWheel"@, 0);
        reveal_strlit("AnimationSystem");
        lemma_prefix_mismatch(t, "AnimationSystem"@, 0);
        reveal_strlit("AnimationSystem");
        reveal_strlit("Ramp");
        lemma_prefix_mismatch(t, "AnimationSystem"@, 0);
        reveal_strlit("AnimationSystem");
        reveal_strlit("Shake");
        lemma_prefix_mismatch(t, "AnimationSystem"@, 0);
        reveal_strlit("AnimationSystem");
        reveal_strlit("Audio");
        lemma_prefix_mismatch(t, "AnimationSystem"@, 0);
        reveal_strlit("AnimationSystem");
        reveal_strlit("Random");
        lemma_prefix_mismatch(t, "AnimationSystem"@, 0);
        reveal_strlit("AnimationSystem");
        reveal_strlit("Pos");
        lemma_prefix_mismatch(t, "AnimationSystem"@, 0);
        reveal_strlit("AnimationSystem");
        reveal_strlit("PosRotate");
        lemma_prefix_mismatch(t, "AnimationSystem"@, 0);
        reveal_strlit("AnimationSystem");
        reveal_strlit("PosShake");
        lemma_prefix_mismatch(t, "AnimationSystem"@, 0);
        reveal_strlit("AnimationSystem");
        reveal_strlit("PosRandom");
        lemma_prefix_mismatch(t, "AnimationSystem"@, 0);
        reveal_strlit("AnimationSystem");
        reveal_strlit("PosAudio");
        lemma_prefix_mismatch(t, "AnimationSystem"@, 0);
    }
    reveal_strlit("AnimationSystem");
    reveal_strlit("Macro");
    lemma_prefix_mismatch(t, "AnimationSystem"@, 0);
    reveal_strlit("MediaFolder");
    lemma_prefix_mismatch(t, "MediaFolder"@, 0);
    reveal_strlit("MediaContent");
    lemma_prefix_mismatch(t, "MediaContent"@, 0);
    reveal_strlit("ModelFolder");
    lemma_prefix_mismatch(t, "ModelFolder"@, 0);
    reveal_strlit("ModelContent");
    lemma_prefix_mismatch(t, "ModelContent"@, 0);
    reveal_strlit("ColorEffects");
    lemma_prefix_mismatch(t, "ColorEffects"@, 0);
    reveal_strlit("Color");
    lemma_prefix_mismatch(t, "Color"@, 0);
    reveal_strlit("Color");
    reveal_strlit("WheelIndex");
    lemma_prefix_mismatch(t, "Color"@, 0);
    reveal_strlit("Color");
    reveal_strlit("WheelSpin");
    lemma_prefix_mismatch(t, "Color"@, 0);
    reveal_strlit("Color");
    reveal_strlit("WheelRandom");
    lemma_prefix_mismatch(t, "Color"@, 0);
    reveal_strlit("Color");
    reveal_strlit("WheelAudio");
    lemma_prefix_mismatch(t, "Color"@, 0);
    reveal_strlit("ColorMacro");
    lemma_prefix_mismatch(t, "ColorMacro"@, 0);
    reveal_strlit("ColorMacro");
    reveal_strlit("Rate");
    lemma_prefix_mismatch(t, "ColorMacro"@, 0);
    reveal_strlit("Shutter");
    lemma_rest_not_number(t, "Shutter"@, d.len() as int);
    reveal_strlit("Shutter");
    reveal_strlit("Strobe");
    lemma_suffix_mismatch(t, "Shutter"@, "Strobe"@, 1);
    reveal_strlit("Shutter");
    reveal_strlit("StrobePulse");
    lemma_suffix_mismatch(t, "Shutter"@, "StrobePulse"@, 5);
    reveal_strlit("Shutter");
    reveal_strlit("StrobePulseClose");
    lemma_suffix_mismatch(t, "Shutter"@, "StrobePulseClose"@, 2);
    reveal_strlit("Shutter");
    reveal_strlit("StrobePulseOpen");
    lemma_suffix_mismatch(t, "Shutter"@, "StrobePulseOpen"@, 0);
    reveal_strlit("Shutter");
    reveal_strlit("StrobeRandom");
    lemma_suffix_mismatch(t, "Shutter"@, "StrobeRandom"@, 0);
    lemma_number_between("Shutter"@, "StrobeRandomPulse"@, n);
}

/// An attribute of the numbered family `ShutterStrobeRandomPulseClose` reads back from its written
/// name: that text is no standard name, and every numbering rule before the
/// family's own rejects it.
proof fn text_reads_back_shutter_strobe_random_pulse_close(n: u8)
    ensures
        attribute_from_text(attribute_text(FixtureChannel3Attribute::ShutterStrobeRandomPulseClose(n))) == Some(FixtureChannel3Attribute::ShutterStrobeRandomPulseClose(n)),
{
    let d = decimal(n as nat);
    lemma_decimal_digits(n as nat);
    lemma_decimal_len_u8(n as nat);
    let t = attribute_text(FixtureChannel3Attribute::ShutterStrobeRandomPulseClose(n));
    reveal_strlit("Shutter");
    reveal_strlit("StrobeRandomPulseClose");
    assert(t == "Shutter"@ + d + "StrobeRandomPulseClose"@);
    lemma_exact_none_with_digit(t, 7);
    reveal(numbered_attribute_1);
    assert(numbered_attribute_0(t) is None) by {
        reveal(numbered_attribute_0);
        reveal_strlit("Gobo");
        lemma_prefix_mismatch(t, "Gobo"@, 0);
        reveal_strlit("Gobo");
        reveal_strlit("SelectSpin");
        lemma_prefix_mismatch(t, "Gobo"@, 0);
        reveal_strlit("Gobo");
        reveal_strlit("SelectShake");
        lemma_prefix_mismatch(t, "Gobo"@, 0);
        reveal_strlit("Gobo");
        reveal_strlit("SelectEffects");
        lemma_prefix_mismatch(t, "Gobo"@, 0);
        reveal_strlit("Gobo");
        reveal_strlit("WheelIndex");
        lemma_prefix_mismatch(t, "Gobo"@, 0);
        reveal_strlit("Gobo");
        reveal_strlit("WheelSpin");
        lemma_prefix_mismatch(t, "Gobo"@, 0);
        reveal_strlit("Gobo");
        reveal_strlit("WheelShake");
        lemma_prefix_mismatch(t, "Gobo"@, 0);
        reveal_strlit("Gobo");
        reveal_strlit("WheelRandom");
        lemma_prefix_mismatch(t, "Gobo"@, 0);
        reveal_strlit("Gobo");
        reveal_strlit("WheelAudio");
        lemma_prefix_mismatch(t, "Gobo"@, 0);
        reveal_strlit("Gobo");
        reveal_strlit("Pos");
        lemma_prefix_mismatch(t, "Gobo"@, 0);
        reveal_strlit("Gobo");
        reveal_strlit("PosRotate");
        lemma_prefix_mismatch(t, "Gobo"@, 0);
        reveal_strlit("Gobo");
        reveal_strlit("PosShake");
        lemma_prefix_mismatch(t, "Gobo"@, 0);
        reveal_strlit("AnimationWheel");
        lemma_prefix_mismatch(t, "AnimationWheel"@, 0);
        reveal_strlit("AnimationWheel");
        reveal_strlit("Audio");
        lemma_prefix_mismatch(t, "AnimationWheel"@, 0);
        reveal_strlit("AnimationWheel");
        reveal_strlit("Macro");
        lemma_prefix_mismatch(t, "AnimationWheel"@, 0);
        reveal_strlit("AnimationWheel");
        reveal_strlit("Random");
        lemma_prefix_mismatch(t, "AnimationWheel"@, 0);
        reveal_strlit("AnimationWheel");
        reveal_strlit("SelectEffects");
        lemma_prefix_mismatch(t, "AnimationWheel"@, 0);
        reveal_strlit("AnimationWheel");
        reveal_strlit("SelectShake");
        lemma_prefix_mismatch(t, "AnimationWheel"@, 0);
        reveal_strlit("AnimationWheel");
        reveal_strlit("SelectSpin");
        lemma_prefix_mismatch(t, "AnimationWheel"@, 0);
        reveal_strlit("AnimationWheel");
        reveal_strlit("Pos");
        lemma_prefix_mismatch(t, "AnimationWheel"@, 0);
        reveal_strlit("AnimationWheel");
        reveal_strlit("PosRotate");
        lemma_prefix_mismatch(t, "AnimationWheel"@, 0);
        reveal_strlit("AnimationWheel");
        reveal_strlit("PosShake");
        lemma_prefix_mismatch(t, "AnimationWheel"@, 0);
        reveal_strlit("AnimationSystem");
        lemma_prefix_mismatch(t, "AnimationSystem"@, 0);
        reveal_strlit("AnimationSystem");
        reveal_strlit("Ramp");
        lemma_prefix_mismatch(t, "AnimationSystem"@, 0);
        reveal_strlit("AnimationSystem");
        reveal_strlit("Shake");
        lemma_prefix_mismatch(t, "AnimationSystem"@, 0);
        reveal_strlit("AnimationSystem");
        reveal_strlit("Audio");
        lemma_prefix_mismatch(t, "AnimationSystem"@, 0);
        reveal_strlit("AnimationSystem");
        reveal_strlit("Random");
        lemma_prefix_mismatch(t, "AnimationSystem"@, 0);
        reveal_strlit("AnimationSystem");
        reveal_strlit("Pos");
        lemma_prefix_mismatch(t, "AnimationSystem"@, 0);
        reveal_strlit("AnimationSystem");
        reveal_strlit("PosRotate");
        lemma_prefix_mismatch(t, "AnimationSystem"@, 0);
        reveal_strlit("AnimationSystem");
        reveal_strlit("PosShake");
        lemma_prefix_mismatch(t, "AnimationSystem"@, 0);
        reveal_strlit("AnimationSystem");
        reveal_strlit("PosRandom");
        lemma_prefix_mismatch(t, "AnimationSystem"@, 0);
        reveal_strlit("AnimationSystem");
        reveal_strlit("PosAudio");
        lemma_prefix_mismatch(t, "AnimationSystem"@, 0);
    }
    reveal_strlit("AnimationSystem");
    reveal_strlit("Macro");
    lemma_prefix_mismatch(t, "AnimationSystem"@, 0);
    reveal_strlit("MediaFolder");
    lemma_prefix_mismatch(t, "MediaFolder"@, 0);
    reveal_strlit("MediaContent");
    lemma_prefix_mismatch(t, "MediaContent"@, 0);
    reveal_strlit("ModelFolder");
    lemma_prefix_mismatch(t, "ModelFolder"@, 0);
    reveal_strlit("ModelContent");
    lemma_prefix_mismatch(t, "ModelContent"@, 0);
    reveal_strlit("ColorEffects");
    lemma_prefix_mismatch(t, "ColorEffects"@, 0);
    reveal_strlit("Color");
    lemma_prefix_mismatch(t, "Color"@, 0);
    reveal_strlit("Color");
    reveal_strlit("WheelIndex");
    lemma_prefix_mismatch(t, "Color"@, 0);
    reveal_strlit("Color");
    reveal_strlit("WheelSpin");
    lemma_prefix_mismatch(t, "Color"@, 0);
    reveal_strlit("Color");
    reveal_strlit("WheelRandom");
    lemma_prefix_mismatch(t, "Color"@, 0);
    reveal_strlit("Color");
    reveal_strlit("WheelAudio");
    lemma_prefix_mismatch(t, "Color"@, 0);
    reveal_strlit("ColorMacro");
    lemma_prefix_mismatch(t, "ColorMacro"@, 0);
    reveal_strlit("ColorMacro");
    reveal_strlit("Rate");
    lemma_prefix_mismatch(t, "ColorMacro"@, 0);
    reveal_strlit("Shutter");
    lemma_rest_not_number(t, "Shutter"@, d.len() as int);
    reveal_strlit("Shutter");
    reveal_strlit("Strobe");
    lemma_suffix_mismatch(t, "Shutter"@, "Strobe"@, 1);
    reveal_strlit("Shutter");
    reveal_strlit("StrobePulse");
    lemma_suffix_mismatch(t, "Shutter"@, "StrobePulse"@, 2);
    reveal_strlit("Shutter");
    reveal_strlit("StrobePulseClose");
    lemma_suffix_mismatch(t, "Shutter"@, "StrobePulseClose"@, 10);
    reveal_strlit("Shutter");
    reveal_strlit("StrobePulseOpen");
    lemma_suffix_mismatch(t, "Shutter"@, "StrobePulseOpen"@, 0);
    reveal_strlit("Shutter");
    reveal_strlit("StrobeRandom");
    lemma_suffix_mismatch(t, "Shutter"@, "StrobeRandom"@, 0);
    reveal_strlit("Shutter");
    reveal_strlit("StrobeRandomPulse");
    lemma_suffix_mismatch(t, "Shutter"@, "StrobeRandomPulse"@, 2);
    lemma_number_between("Shutter"@, "StrobeRandomPulseClose"@, n);
}

/// An attribute of the numbered family `ShutterStrobeRandomPulseOpen` reads back from its written
/// name: that text is no standard name, and every numbering rule before the
/// family's own rejects it.
proof fn text_reads_back_shutter_strobe_random_pulse_open(n: u8)
    ensures
        attribute_from_text(attribute_text(FixtureChannel3Attribute::ShutterStrobeRandomPulseOpen(n))) == Some(FixtureChannel3Attribute::ShutterStrobeRandomPulseOpen(n)),
{
    let d = decimal(n as nat);
    lemma_decimal_digits(n as nat);
    lemma_decimal_len_u8(n as nat);
    let t = attribute_text(FixtureChannel3Attribute::ShutterStrobeRandomPulseOpen(n));
    reveal_strlit("Shutter");
    reveal_strlit("StrobeRandomPulseOpen");
    assert(t == "Shutter"@ + d + "StrobeRandomPulseOpen"@);
    lemma_exact_none_with_digit(t, 7);
    reveal(numbered_attribute_1);
    assert(numbered_attribute_0(t) is None) by {
        reveal(numbered_attribute_0);
        reveal_strlit("Gobo");
        lemma_prefix_mismatch(t, "Gobo"@, 0);
        reveal_strlit("Gobo");
        reveal_strlit("SelectSpin");
        lemma_prefix_mismatch(t, "Gobo"@, 0);
        reveal_strlit("Gobo");
        reveal_strlit("SelectShake");
        lemma_prefix_mismatch(t, "Gobo"@, 0);
        reveal_strlit("Gobo");
        reveal_strlit("SelectEffects");
        lemma_prefix_mismatch(t, "Gobo"@, 0);
        reveal_strlit("Gobo");
        reveal_strlit("WheelIndex");
        lemma_prefix_mismatch(t, "Gobo"@, 0);
        reveal_strlit("Gobo");
        reveal_strlit("WheelSpin");
        lemma_prefix_mismatch(t, "Gobo"@, 0);
        reveal_strlit("Gobo");
        reveal_strlit("WheelShake");
        lemma_prefix_mismatch(t, "Gobo"@, 0);
        reveal_strlit("Gobo");
        reveal_strlit("WheelRandom");
        lemma_prefix_mismatch(t, "Gobo"@, 0);
        reveal_strlit("Gobo");
        reveal_strlit("WheelAudio");
        lemma_prefix_mismatch(t, "Gobo"@, 0);
        reveal_strlit("Gobo");
        reveal_strlit("Pos");
        lemma_prefix_mismatch(t, "Gobo"@, 0);
        reveal_strlit("Gobo");
        reveal_strlit("PosRotate");
        lemma_prefix_mismatch(t, "Gobo"@, 0);
        reveal_strlit("Gobo");
        reveal_strlit("PosShake");
        lemma_prefix_mismatch(t, "Gobo"@, 0);
        reveal_strlit("AnimationWheel");
        lemma_prefix_mismatch(t, "AnimationWheel"@, 0);
        reveal_strlit("AnimationWheel");
        reveal_strlit("Audio");
        lemma_prefix_mismatch(t, "AnimationWheel"@, 0);
        reveal_strlit("AnimationWheel");
        reveal_strlit("Macro");
        lemma_prefix_mismatch(t, "AnimationWheel"@, 0);
        reveal_strlit("AnimationWheel");
        reveal_strlit("Random");
        lemma_prefix_mismatch(t, "AnimationWheel"@, 0);
        reveal_strlit("AnimationWheel");
        reveal_strlit("SelectEffects");
        lemma_prefix_mismatch(t, "AnimationWheel"@, 0);
        reveal_strlit("AnimationWheel");
        reveal_strlit("SelectShake");
        lemma_prefix_mismatch(t, "AnimationWheel"@, 0);
        reveal_strlit("AnimationWheel");
        reveal_strlit("SelectSpin");
        lemma_prefix_mismatch(t, "AnimationWheel"@, 0);
        reveal_strlit("AnimationWheel");
        reveal_strlit("Pos");
        lemma_prefix_mismatch(t, "AnimationWheel"@, 0);
        reveal_strlit("AnimationWheel");
        reveal_strlit("PosRotate");
        lemma_prefix_mismatch(t, "AnimationWheel"@, 0);
        reveal_strlit("AnimationWheel");
        reveal_strlit("PosShake");
        lemma_prefix_mismatch(t, "AnimationWheel"@, 0);
        reveal_strlit("AnimationSystem");
        lemma_prefix_mismatch(t, "AnimationSystem"@, 0);
        reveal_strlit("AnimationSystem");
        reveal_strlit("Ramp");
        lemma_prefix_mismatch(t, "AnimationSystem"@, 0);
        reveal_strlit("AnimationSystem");
        reveal_strlit("Shake");
        lemma_prefix_mismatch(t, "AnimationSystem"@, 0);
        reveal_strlit("AnimationSystem");
        reveal_strlit("Audio");
        lemma_prefix_mismatch(t, "AnimationSystem"@, 0);
        reveal_strlit("AnimationSystem");
        reveal_strlit("Random");
        lemma_prefix_mismatch(t, "AnimationSystem"@, 0);
        reveal_strlit("AnimationSystem");
        reveal_strlit("Pos");
        lemma_prefix_mismatch(t, "AnimationSystem"@, 0);
        reveal_strlit("AnimationSystem");
        reveal_strlit("PosRotate");
        lemma_prefix_mismatch(t, "AnimationSystem"@, 0);
        reveal_strlit("AnimationSystem");
        reveal_strlit("PosShake");
        lemma_prefix_mismatch(t, "AnimationSystem"@, 0);
        reveal_strlit("AnimationSystem");
        reveal_strlit("PosRandom");
        lemma_prefix_mismatch(t, "AnimationSystem"@, 0);
        reveal_strlit("AnimationSystem");
        reveal_strlit("PosAudio");
        lemma_prefix_mismatch(t, "AnimationSystem"@, 0);
    }
    reveal_strlit("AnimationSystem");
    reveal_strlit("Macro");
    lemma_prefix_mismatch(t, "AnimationSystem"@, 0);
    reveal_strlit("MediaFolder");
    lemma_prefix_mismatch(t, "MediaFolder"@, 0);
    reveal_strlit("MediaContent");
    lemma_prefix_mismatch(t, "MediaContent"@, 0);
    reveal_strlit("ModelFolder");
    lemma_prefix_mismatch(t, "ModelFolder"@, 0);
    reveal_strlit("ModelContent");
    lemma_prefix_mismatch(t, "ModelContent"@, 0);
    reveal_strlit("ColorEffects");
    lemma_prefix_mismatch(t, "ColorEffects"@, 0);
    reveal_strlit("Color");
    lemma_prefix_mismatch(t, "Color"@, 0);
    reveal_strlit("Color");
    reveal_strlit("WheelIndex");
    lemma_prefix_mismatch(t, "Color"@, 0);
    reveal_strlit("Color");
    reveal_strlit("WheelSpin");
    lemma_prefix_mismatch(t, "Color"@, 0);
    reveal_strlit("Color");
    reveal_strlit("WheelRandom");
    lemma_prefix_mismatch(t, "Color"@, 0);
    reveal_strlit("Color");
    reveal_strlit("WheelAudio");
    lemma_prefix_mismatch(t, "Color"@, 0);
    reveal_strlit("ColorMacro");
    lemma_prefix_mismatch(t, "ColorMacro"@, 0);
    reveal_strlit("ColorMacro");
    reveal_strlit("Rate");
    lemma_prefix_mismatch(t, "ColorMacro"@, 0);
    reveal_strlit("Shutter");
    lemma_rest_not_number(t, "Shutter"@, d.len() as int);
    reveal_strlit("Shutter");
    reveal_strlit("Strobe");
    lemma_suffix_mismatch(t, "Shutter"@, "Strobe"@, 0);
    reveal_strlit("Shutter");
    reveal_strlit("StrobePulse");
    lemma_suffix_mismatch(t, "Shutter"@, "StrobePulse"@, 0);
    reveal_strlit("Shutter");
    reveal_strlit("StrobePulseClose");
    lemma_suffix_mismatch(t, "Shutter"@, "StrobePulseClose"@, 0);
    reveal_strlit("Shutter");
    reveal_strlit("StrobePulseOpen");
    lemma_suffix_mismatch(t, "Shutter"@, "StrobePulseOpen"@, 9);
    reveal_strlit("Shutter");
    reveal_strlit("StrobeRandom");
    lemma_suffix_mismatch(t, "Shutter"@, "StrobeRandom"@, 0);
    reveal_strlit("Shutter");
    reveal_strlit("StrobeRandomPulse");
    lemma_suffix_mismatch(t, "Shutter"@, "StrobeRandomPulse"@, 0);
    reveal_strlit("Shutter");
    reveal_strlit("StrobeRandomPulseClose");
    lemma_suffix_mismatch(t, "Shutter"@, "StrobeRandomPulseClose"@, 0);
    lemma_number_between("Shutter"@, "StrobeRandomPulseOpen"@, n);
}

/// An attribute of the numbered family `ShutterStrobeEffect` reads back from its written
/// name: that text is no standard name, and every numbering rule before the
/// family's own rejects it.
proof fn text_reads_back_shutter_strobe_effect(n: u8)
    ensures
        attribute_from_text(attribute_text(FixtureChannel3Attribute::ShutterStrobeEffect(n))) == Some(FixtureChannel3Attribute::ShutterStrobeEffect(n)),
{
    let d = decimal(n as nat);
    lemma_decimal_digits(n as nat);
    lemma_decimal_len_u8(n as nat);
    let t = attribute_text(FixtureChannel3Attribute::ShutterStrobeEffect(n));
    reveal_strlit("Shutter");
    reveal_strlit("StrobeEffect");
    assert(t == "Shutter"@ + d + "StrobeEffect"@);
    lemma_exact_none_with_digit(t, 7);
    reveal(numbered_attribute_1);
    assert(numbered_attribute_0(t) is None) by {
        reveal(numbered_attribute_0);
        reveal_strlit("Gobo");
        lemma_prefix_mismatch(t, "Gobo"@, 0);
        reveal_strlit("Gobo");
        reveal_strlit("SelectSpin");
        lemma_prefix_mismatch(t, "Gobo"@, 0);
        reveal_strlit("Gobo");
        reveal_strlit("SelectShake");
        lemma_prefix_mismatch(t, "Gobo"@, 0);
        reveal_strlit("Gobo");
        reveal_strlit("SelectEffects");
        lemma_prefix_mismatch(t, "Gobo"@, 0);
        reveal_strlit("Gobo");
        reveal_strlit("WheelIndex");
        lemma_prefix_mismatch(t, "Gobo"@, 0);
        reveal_strlit("Gobo");
        reveal_strlit("WheelSpin");
        lemma_prefix_mismatch(t, "Gobo"@, 0);
        reveal_strlit("Gobo");
        reveal_strlit("WheelShake");
        lemma_prefix_mismatch(t, "Gobo"@, 0);
        reveal_strlit("Gobo");
        reveal_strlit("WheelRandom");
        lemma_prefix_mismatch(t, "Gobo"@, 0);
        reveal_strlit("Gobo");
        reveal_strlit("WheelAudio");
        lemma_prefix_mismatch(t, "Gobo"@, 0);
        reveal_strlit("Gobo");
        reveal_strlit("Pos");
        lemma_prefix_mismatch(t, "Gobo"@, 0);
        reveal_strlit("Gobo");
        reveal_strlit("PosRotate");
        lemma_prefix_mismatch(t, "Gobo"@, 0);
        reveal_strlit("Gobo");
        reveal_strlit("PosShake");
        lemma_prefix_mismatch(t, "Gobo"@, 0);
        reveal_strlit("AnimationWheel");
        lemma_prefix_mismatch(t, "AnimationWheel"@, 0);
        reveal_strlit("AnimationWheel");
        reveal_strlit("Audio");
        lemma_prefix_mismatch(t, "AnimationWheel"@, 0);
        reveal_strlit("AnimationWheel");
        reveal_strlit("Macro");
        lemma_prefix_mismatch(t, "AnimationWheel"@, 0);
        reveal_strlit("AnimationWheel");
        reveal_strlit("Random");
        lemma_prefix_mismatch(t, "AnimationWheel"@, 0);
        reveal_strlit("AnimationWheel");
        reveal_strlit("SelectEffects");
        lemma_prefix_mismatch(t, "AnimationWheel"@, 0);
        reveal_strlit("AnimationWheel");
        reveal_strlit("SelectShake");
        lemma_prefix_mismatch(t, "AnimationWheel"@, 0);
        reveal_strlit("AnimationWheel");
        reveal_strlit("SelectSpin");
        lemma_prefix_mismatch(t, "AnimationWheel"@, 0);
        reveal_strlit("AnimationWheel");
        reveal_strlit("Pos");
        lemma_prefix_mismatch(t, "AnimationWheel"@, 0);
        reveal_strlit("AnimationWheel");
        reveal_strlit("PosRotate");
        lemma_prefix_mismatch(t, "AnimationWheel"@, 0);
        reveal_strlit("AnimationWheel");
        reveal_strlit("PosShake");
        lemma_prefix_mismatch(t, "AnimationWheel"@, 0);
        reveal_strlit("AnimationSystem");
        lemma_prefix_mismatch(t, "AnimationSystem"@, 0);
        reveal_strlit("AnimationSystem");
        reveal_strlit("Ramp");
        lemma_prefix_mismatch(t, "AnimationSystem"@, 0);
        reveal_strlit("AnimationSystem");
        reveal_strlit("Shake");
        lemma_prefix_mismatch(t, "AnimationSystem"@, 0);
        reveal_strlit("AnimationSystem");
        reveal_strlit("Audio");
        lemma_prefix_mismatch(t, "AnimationSystem"@, 0);
        reveal_strlit("AnimationSystem");
        reveal_strlit("Random");
        lemma_prefix_mismatch(t, "AnimationSystem"@, 0);
        reveal_strlit("AnimationSystem");
        reveal_strlit("Pos");
        lemma_prefix_mismatch(t, "AnimationSystem"@, 0);
        reveal_strlit("AnimationSystem");
        reveal_strlit("PosRotate");
        lemma_prefix_mismatch(t, "AnimationSystem"@, 0);
        reveal_strlit("AnimationSystem");
        reveal_strlit("PosShake");
        lemma_prefix_mismatch(t, "AnimationSystem"@, 0);
        reveal_strlit("AnimationSystem");
        reveal_strlit("PosRandom");
        lemma_prefix_mismatch(t, "AnimationSystem"@, 0);
        reveal_strlit("AnimationSystem");
        reveal_strlit("PosAudio");
        lemma_prefix_mismatch(t, "AnimationSystem"@, 0);
    }
    reveal_strlit("AnimationSystem");
    reveal_strlit("Macro");
    lemma_prefix_mismatch(t, "AnimationSystem"@, 0);
    reveal_strlit("MediaFolder");
    lemma_prefix_mismatch(t, "MediaFolder"@, 0);
    reveal_strlit("MediaContent");
    lemma_prefix_mismatch(t, "MediaContent"@, 0);
    reveal_strlit("ModelFolder");
    lemma_prefix_mismatch(t, "ModelFolder"@, 0);
    reveal_strlit("ModelContent");
    lemma_prefix_mismatch(t, "ModelContent"@, 0);
    reveal_strlit("ColorEffects");
    lemma_prefix_mismatch(t, "ColorEffects"@, 0);
    reveal_strlit("Color");
    lemma_prefix_mismatch(t, "Color"@, 0);
    reveal_strlit("Color");
    reveal_strlit("WheelIndex");
    lemma_prefix_mismatch(t, "Color"@, 0);
    reveal_strlit("Color");
    reveal_strlit("WheelSpin");
    lemma_prefix_mismatch(t, "Color"@, 0);
    reveal_strlit("Color");
    reveal_strlit("WheelRandom");
    lemma_prefix_mismatch(t, "Color"@, 0);
    reveal_strlit("Color");
    reveal_strlit("WheelAudio");
    lemma_prefix_mismatch(t, "Color"@, 0);
    reveal_strlit("ColorMacro");
    lemma_prefix_mismatch(t, "ColorMacro"@, 0);
    reveal_strlit("ColorMacro");
    reveal_strlit("Rate");
    lemma_prefix_mismatch(t, "ColorMacro"@, 0);
    reveal_strlit("Shutter");
    lemma_rest_not_number(t, "Shutter"@, d.len() as int);
    reveal_strlit("Shutter");
    reveal_strlit("Strobe");
    lemma_suffix_mismatch(t, "Shutter"@, "Strobe"@, 0);
    reveal_strlit("Shutter");
    reveal_strlit("StrobePulse");
    lemma_suffix_mismatch(t, "Shutter"@, "StrobePulse"@, 0);
    reveal_strlit("Shutter");
    reveal_strlit("StrobePulseClose");
    lemma_suffix_mismatch(t, "Shutter"@, "StrobePulseClose"@, 0);
    reveal_strlit("Shutter");
    reveal_strlit("StrobePulseOpen");
    lemma_suffix_mismatch(t, "Shutter"@, "StrobePulseOpen"@, 0);
    reveal_strlit("Shutter");
    reveal_strlit("StrobeRandom");
    lemma_suffix_mismatch(t, "Shutter"@, "StrobeRandom"@, 0);
    reveal_strlit("Shutter");
    reveal_strlit("StrobeRandomPulse");
    lemma_suffix_mismatch(t, "Shutter"@, "StrobeRandomPulse"@, 0);
    reveal_strlit("Shutter");
    reveal_strlit("StrobeRandomPulseClose");
    lemma_suffix_mismatch(t, "Shutter"@, "StrobeRandomPulseClose"@, 0);
    reveal_strlit("Shutter");
    reveal_strlit("StrobeRandomPulseOpen");
    lemma_suffix_mismatch(t, "Shutter"@, "StrobeRandomPulseOpen"@, 0);
    lemma_number_between("Shutter"@, "StrobeEffect"@, n);
}

/// An attribute of the numbered family `Frost` reads back from its written
/// name: that text is no standard name, and every numbering rule before the
/// family's own rejects it.
proof fn text_reads_back_frost(n: u8)
    ensures
        attribute_from_text(attribute_text(FixtureChannel3Attribute::Frost(n))) == Some(FixtureChannel3Attribute::Frost(n)),
{
    let d = decimal(n as nat);
    lemma_decimal_digits(n as nat);
    lemma_decimal_len_u8(n as nat);
    let t = attribute_text(FixtureChannel3Attribute::Frost(n));
    reveal_strlit("Frost");
    assert(t == "Frost"@ + d);
    lemma_exact_none_with_digit(t, 5);
    reveal(numbered_attribute_1);
    assert(numbered_attribute_0(t) is None) by {
        reveal(numbered_attribute_0);
        reveal_strlit("Gobo");
        lemma_prefix_mismatch(t, "Gobo"@, 0);
        reveal_strlit("Gobo");
        reveal_strlit("SelectSpin");
        lemma_prefix_mismatch(t, "Gobo"@, 0);
        reveal_strlit("Gobo");
        reveal_strlit("SelectShake");
        lemma_prefix_mismatch(t, "Gobo"@, 0);
        reveal_strlit("Gobo");
        reveal_strlit("SelectEffects");
        lemma_prefix_mismatch(t, "Gobo"@, 0);
        reveal_strlit("Gobo");
        reveal_strlit("WheelIndex");
        lemma_prefix_mismatch(t, "Gobo"@, 0);
        reveal_strlit("Gobo");
        reveal_strlit("WheelSpin");
        lemma_prefix_mismatch(t, "Gobo"@, 0);
        reveal_strlit("Gobo");
        reveal_strlit("WheelShake");
        lemma_prefix_mismatch(t, "Gobo"@, 0);
        reveal_strlit("Gobo");
        reveal_strlit("WheelRandom");
        lemma_prefix_mismatch(t, "Gobo"@, 0);
        reveal_strlit("Gobo");
        reveal_strlit("WheelAudio");
        lemma_prefix_mismatch(t, "Gobo"@, 0);
        reveal_strlit("Gobo");
        reveal_strlit("Pos");
        lemma_prefix_mismatch(t, "Gobo"@, 0);
        reveal_strlit("Gobo");
        reveal_strlit("PosRotate");
        lemma_prefix_mismatch(t, "Gobo"@, 0);
        reveal_strlit("Gobo");
        reveal_strlit("PosShake");
        lemma_prefix_mismatch(t, "Gobo"@, 0);
        reveal_strlit("AnimationWheel");
        lemma_prefix_mismatch(t, "AnimationWheel"@, 0);
        reveal_strlit("AnimationWheel");
        reveal_strlit("Audio");
        lemma_prefix_mismatch(t, "AnimationWheel"@, 0);
        reveal_strlit("AnimationWheel");
        reveal_strlit("Macro");
        lemma_prefix_mismatch(t, "AnimationWheel"@, 0);
        reveal_strlit("AnimationWheel");
        reveal_strlit("Random");
        lemma_prefix_mismatch(t, "AnimationWheel"@, 0);
        reveal_strlit("AnimationWheel");
        reveal_strlit("SelectEffects");
        lemma_prefix_mismatch(t, "AnimationWheel"@, 0);
        reveal_strlit("AnimationWheel");
        reveal_strlit("SelectShake");
        lemma_prefix_mismatch(t, "AnimationWheel"@, 0);
        reveal_strlit("AnimationWheel");
        reveal_strlit("SelectSpin");
        lemma_prefix_mismatch(t, "AnimationWheel"@, 0);
        reveal_strlit("AnimationWheel");
        reveal_strlit("Pos");
        lemma_prefix_mismatch(t, "AnimationWheel"@, 0);
        reveal_strlit("AnimationWheel");
        reveal_strlit("PosRotate");
        lemma_prefix_mismatch(t, "AnimationWheel"@, 0);
        reveal_strlit("AnimationWheel");
        reveal_strlit("PosShake");
        lemma_prefix_mismatch(t, "AnimationWheel"@, 0);
        reveal_strlit("AnimationSystem");
        lemma_prefix_mismatch(t, "AnimationSystem"@, 0);
        reveal_strlit("AnimationSystem");
        reveal_strlit("Ramp");
        lemma_prefix_mismatch(t, "AnimationSystem"@, 0);
        reveal_strlit("AnimationSystem");
        reveal_strlit("Shake");
        lemma_prefix_mismatch(t, "AnimationSystem"@, 0);
        reveal_strlit("AnimationSystem");
        reveal_strlit("Audio");
        lemma_prefix_mismatch(t, "AnimationSystem"@, 0);
        reveal_strlit("AnimationSystem");
        reveal_strlit("Random");
        lemma_prefix_mismatch(t, "AnimationSystem"@, 0);
        reveal_strlit("AnimationSystem");
        reveal_strlit("Pos");
        lemma_prefix_mismatch(t, "AnimationSystem"@, 0);
        reveal_strlit("AnimationSystem");
        reveal_strlit("PosRotate");
        lemma_prefix_mismatch(t, "AnimationSystem"@, 0);
        reveal_strlit("AnimationSystem");
        reveal_strlit("PosShake");
        lemma_prefix_mismatch(t, "AnimationSystem"@, 0);
        reveal_strlit("AnimationSystem");
        reveal_strlit("PosRandom");
        lemma_prefix_mismatch(t, "AnimationSystem"@, 0);
        reveal_strlit("AnimationSystem");
        reveal_strlit("PosAudio");
        lemma_prefix_mismatch(t, "AnimationSystem"@, 0);
    }
    reveal_strlit("AnimationSystem");
    reveal_strlit("Macro");
    lemma_prefix_mismatch(t, "AnimationSystem"@, 0);
    reveal_strlit("MediaFolder");
    lemma_prefix_mismatch(t, "MediaFolder"@, 0);
    reveal_strlit("MediaContent");
    lemma_prefix_mismatch(t, "MediaContent"@, 0);
    reveal_strlit("ModelFolder");
    lemma_prefix_mismatch(t, "ModelFolder"@, 0);
    reveal_strlit("ModelContent");
    lemma_prefix_mismatch(t, "ModelContent"@, 0);
    reveal_strlit("ColorEffects");
    lemma_prefix_mismatch(t, "ColorEffects"@, 0);
    reveal_strlit("Color");
    lemma_prefix_mismatch(t, "Color"@, 0);
    reveal_strlit("Color");
    reveal_strlit("WheelIndex");
    lemma_prefix_mismatch(t, "Color"@, 0);
    reveal_strlit("Color");
    reveal_strlit("WheelSpin");
    lemma_prefix_mismatch(t, "Color"@, 0);
    reveal_strlit("Color");
    reveal_strlit("WheelRandom");
    lemma_prefix_mismatch(t, "Color"@, 0);
    reveal_strlit("Color");
    reveal_strlit("WheelAudio");
    lemma_prefix_mismatch(t, "Color"@, 0);
    reveal_strlit("ColorMacro");
    lemma_prefix_mismatch(t, "ColorMacro"@, 0);
    reveal_strlit("ColorMacro");
    reveal_strlit("Rate");
    lemma_prefix_mismatch(t, "ColorMacro"@, 0);
    reveal_strlit("Shutter");
    lemma_prefix_mismatch(t, "Shutter"@, 0);
    reveal_strlit("Shutter");
    reveal_strlit("Strobe");
    lemma_prefix_mismatch(t, "Shutter"@, 0);
    reveal_strlit("Shutter");
    reveal_strlit("StrobePulse");
    lemma_prefix_mismatch(t, "Shutter"@, 0);
    reveal_strlit("Shutter");
    reveal_strlit("StrobePulseClose");
    lemma_prefix_mismatch(t, "Shutter"@, 0);
    reveal_strlit("Shutter");
    reveal_strlit("StrobePulseOpen");
    lemma_prefix_mismatch(t, "Shutter"@, 0);
    reveal_strlit("Shutter");
    reveal_strlit("StrobeRandom");
    lemma_prefix_mismatch(t, "Shutter"@, 0);
    reveal_strlit("Shutter");
    reveal_strlit("StrobeRandomPulse");
    lemma_prefix_mismatch(t, "Shutter"@, 0);
    reveal_strlit("Shutter");
    reveal_strlit("StrobeRandomPulseClose");
    lemma_prefix_mismatch(t, "Shutter"@, 0);
    reveal_strlit("Shutter");
    reveal_strlit("StrobeRandomPulseOpen");
    lemma_prefix_mismatch(t, "Shutter"@, 0);
    reveal_strlit("Shutter");
    reveal_strlit("StrobeEffect");
    lemma_prefix_mismatch(t, "Shutter"@, 0);
    lemma_number_after("Frost"@, n);
}

/// An attribute of the numbered family `FrostPulseOpen` reads back from its written
/// name: that text is no standard name, and every numbering rule before the
/// family's own rejects it.
proof fn text_reads_back_frost_pulse_open(n: u8)
    ensures
        attribute_from_text(attribute_text(FixtureChannel3Attribute::FrostPulseOpen(n))) == Some(FixtureChannel3Attribute::FrostPulseOpen(n)),
{
    let d = decimal(n as nat);
    lemma_decimal_digits(n as nat);
    lemma_decimal_len_u8(n as nat);
    let t = attribute_text(FixtureChannel3Attribute::FrostPulseOpen(n));
    reveal_strlit("Frost");
    reveal_strlit("PulseOpen");
    assert(t == "Frost"@ + d + "PulseOpen"@);
    lemma_exact_none_with_digit(t, 5);
    reveal(numbered_attribute_1);
    assert(numbered_attribute_0(t) is None) by {
        reveal(numbered_attribute_0);
        reveal_strlit("Gobo");
        lemma_prefix_mismatch(t, "Gobo"@, 0);
        reveal_strlit("Gobo");
        reveal_strlit("SelectSpin");
        lemma_prefix_mismatch(t, "Gobo"@, 0);
        reveal_strlit("Gobo");
        reveal_strlit("SelectShake");
        lemma_prefix_mismatch(t, "Gobo"@, 0);
        reveal_strlit("Gobo");
        reveal_strlit("SelectEffects");
        lemma_prefix_mismatch(t, "Gobo"@, 0);
        reveal_strlit("Gobo");
        reveal_strlit("WheelIndex");
        lemma_prefix_mismatch(t, "Gobo"@, 0);
        reveal_strlit("Gobo");
        reveal_strlit("WheelSpin");
        lemma_prefix_mismatch(t, "Gobo"@, 0);
        reveal_strlit("Gobo");
        reveal_strlit("WheelShake");
        lemma_prefix_mismatch(t, "Gobo"@, 0);
        reveal_strlit("Gobo");
        reveal_strlit("WheelRandom");
        lemma_prefix_mismatch(t, "Gobo"@, 0);
        reveal_strlit("Gobo");
        reveal_strlit("WheelAudio");
        lemma_prefix_mismatch(t, "Gobo"@, 0);
        reveal_strlit("Gobo");
        reveal_strlit("Pos");
        lemma_prefix_mismatch(t, "Gobo"@, 0);
        reveal_strlit("Gobo");
        reveal_strlit("PosRotate");
        lemma_prefix_mismatch(t, "Gobo"@, 0);
        reveal_strlit("Gobo");
        reveal_strlit("PosShake");
        lemma_prefix_mismatch(t, "Gobo"@, 0);
        reveal_strlit("AnimationWheel");
        lemma_prefix_mismatch(t, "AnimationWheel"@, 0);
        reveal_strlit("AnimationWheel");
        reveal_strlit("Audio");
        lemma_prefix_mismatch(t, "AnimationWheel"@, 0);
        reveal_strlit("AnimationWheel");
        reveal_strlit("Macro");
        lemma_prefix_mismatch(t, "AnimationWheel"@, 0);
        reveal_strlit("AnimationWheel");
        reveal_strlit("Random");
        lemma_prefix_mismatch(t, "AnimationWheel"@, 0);
        reveal_strlit("AnimationWheel");
        reveal_strlit("SelectEffects");
        lemma_prefix_mismatch(t, "AnimationWheel"@, 0);
        reveal_strlit("AnimationWheel");
        reveal_strlit("SelectShake");
        lemma_prefix_mismatch(t, "AnimationWheel"@, 0);
        reveal_strlit("AnimationWheel");
        reveal_strlit("SelectSpin");
        lemma_prefix_mismatch(t, "AnimationWheel"@, 0);
        reveal_strlit("AnimationWheel");
        reveal_strlit("Pos");
        lemma_prefix_mismatch(t, "AnimationWheel"@, 0);
        reveal_strlit("AnimationWheel");
        reveal_strlit("PosRotate");
        lemma_prefix_mismatch(t, "AnimationWheel"@, 0);
        reveal_strlit("AnimationWheel");
        reveal_strlit("PosShake");
        lemma_prefix_mismatch(t, "AnimationWheel"@, 0);
        reveal_strlit("AnimationSystem");
        lemma_prefix_mismatch(t, "AnimationSystem"@, 0);
        reveal_strlit("AnimationSystem");
        reveal_strlit("Ramp");
        lemma_prefix_mismatch(t, "AnimationSystem"@, 0);
        reveal_strlit("AnimationSystem");
        reveal_strlit("Shake");
        lemma_prefix_mismatch(t, "AnimationSystem"@, 0);
        reveal_strlit("AnimationSystem");
        reveal_strlit("Audio");
        lemma_prefix_mismatch(t, "AnimationSystem"@, 0);
        reveal_strlit("AnimationSystem");
        reveal_strlit("Random");
        lemma_prefix_mismatch(t, "AnimationSystem"@, 0);
        reveal_strlit("AnimationSystem");
        reveal_strlit("Pos");
        lemma_prefix_mismatch(t, "AnimationSystem"@, 0);
        reveal_strlit("AnimationSystem");
        reveal_strlit("PosRotate");
        lemma_prefix_mismatch(t, "AnimationSystem"@, 0);
        reveal_strlit("AnimationSystem");
        reveal_strlit("PosShake");
        lemma_prefix_mismatch(t, "AnimationSystem"@, 0);
        reveal_strlit("AnimationSystem");
        reveal_strlit("PosRandom");
        lemma_prefix_mismatch(t, "AnimationSystem"@, 0);
        reveal_strlit("AnimationSystem");
        reveal_strlit("PosAudio");
        lemma_prefix_mismatch(t, "AnimationSystem"@, 0);
    }
    reveal_strlit("AnimationSystem");
    reveal_strlit("Macro");
    lemma_prefix_mismatch(t, "AnimationSystem"@, 0);
    reveal_strlit("MediaFolder");
    lemma_prefix_mismatch(t, "MediaFolder"@, 0);
    reveal_strlit("MediaContent");
    lemma_prefix_mismatch(t, "MediaContent"@, 0);
    reveal_strlit("ModelFolder");
    lemma_prefix_mismatch(t, "ModelFolder"@, 0);
    reveal_strlit("ModelContent");
    lemma_prefix_mismatch(t, "ModelContent"@, 0);
    reveal_strlit("ColorEffects");
    lemma_prefix_mismatch(t, "ColorEffects"@, 0);
    reveal_strlit("Color");
    lemma_prefix_mismatch(t, "Color"@, 0);
    reveal_strlit("Color");
    reveal_strlit("WheelIndex");
    lemma_prefix_mismatch(t, "Color"@, 0);
    reveal_strlit("Color");
    reveal_strlit("WheelSpin");
    lemma_prefix_mismatch(t, "Color"@, 0);
    reveal_strlit("Color");
    reveal_strlit("WheelRandom");
    lemma_prefix_mismatch(t, "Color"@, 0);
    reveal_strlit("Color");
    reveal_strlit("WheelAudio");
    lemma_prefix_mismatch(t, "Color"@, 0);
    reveal_strlit("ColorMacro");
    lemma_prefix_mismatch(t, "ColorMacro"@, 0);
    reveal_strlit("ColorMacro");
    reveal_strlit("Rate");
    lemma_prefix_mismatch(t, "ColorMacro"@, 0);
    reveal_strlit("Shutter");
    lemma_prefix_mismatch(t, "Shutter"@, 0);
    reveal_strlit("Shutter");
    reveal_strlit("Strobe");
    lemma_prefix_mismatch(t, "Shutter"@, 0);
    reveal_strlit("Shutter");
    reveal_strlit("StrobePulse");
    lemma_prefix_mismatch(t, "Shutter"@, 0);
    reveal_strlit("Shutter");
    reveal_strlit("StrobePulseClose");
    lemma_prefix_mismatch(t, "Shutter"@, 0);
    reveal_strlit("Shutter");
    reveal_strlit("StrobePulseOpen");
    lemma_prefix_mismatch(t, "Shutter"@, 0);
    reveal_strlit("Shutter");
    reveal_strlit("StrobeRandom");
    lemma_prefix_mismatch(t, "Shutter"@, 0);
    reveal_strlit("Shutter");
    reveal_strlit("StrobeRandomPulse");
    lemma_prefix_mismatch(t, "Shutter"@, 0);
    reveal_strlit("Shutter");
    reveal_strlit("StrobeRandomPulseClose");
    lemma_prefix_mismatch(t, "Shutter"@, 0);
    reveal_strlit("Shutter");
    reveal_strlit("StrobeRandomPulseOpen");
    lemma_prefix_mismatch(t, "Shutter"@, 0);
    reveal_strlit("Shutter");
    reveal_strlit("StrobeEffect");
    lemma_prefix_mismatch(t, "Shutter"@, 0);
    reveal_strlit("Frost");
    lemma_rest_not_number(t, "Frost"@, d.len() as int);
    lemma_number_between("Frost"@, "PulseOpen"@, n);
}

/// An attribute of the numbered family `FrostPulseClose` reads back from its written
/// name: that text is no standard name, and every numbering rule before the
/// family's own rejects it.
proof fn text_reads_back_frost_pulse_close(n: u8)
    ensures
        attribute_from_text(attribute_text(FixtureChannel3Attribute::FrostPulseClose(n))) == Some(FixtureChannel3Attribute::FrostPulseClose(n)),
{
    let d = decimal(n as nat);
    lemma_decimal_digits(n as nat);
    lemma_decimal_len_u8(n as nat);
    let t = attribute_text(FixtureChannel3Attribute::FrostPulseClose(n));
    reveal_strlit("Frost");
    reveal_strlit("PulseClose");
    assert(t == "Frost"@ + d + "PulseClose"@);
    lemma_exact_none_with_digit(t, 5);
    reveal(numbered_attribute_1);
    assert(numbered_attribute_0(t) is None) by {
        reveal(numbered_attribute_0);
        reveal_strlit("Gobo");
        lemma_prefix_mismatch(t, "Gobo"@, 0);
        reveal_strlit("Gobo");
        reveal_strlit("SelectSpin");
        lemma_prefix_mismatch(t, "Gobo"@, 0);
        reveal_strlit("Gobo");
        reveal_strlit("SelectShake");
        lemma_prefix_mismatch(t, "Gobo"@, 0);
        reveal_strlit("Gobo");
        reveal_strlit("SelectEffects");
        lemma_prefix_mismatch(t, "Gobo"@, 0);
        reveal_strlit("Gobo");
        reveal_strlit("WheelIndex");
        lemma_prefix_mismatch(t, "Gobo"@, 0);
        reveal_strlit("Gobo");
        reveal_strlit("WheelSpin");
        lemma_prefix_mismatch(t, "Gobo"@, 0);
        reveal_strlit("Gobo");
        reveal_strlit("WheelShake");
        lemma_prefix_mismatch(t, "Gobo"@, 0);
        reveal_strlit("Gobo");
        reveal_strlit("WheelRandom");
        lemma_prefix_mismatch(t, "Gobo"@, 0);
        reveal_strlit("Gobo");
        reveal_strlit("WheelAudio");
        lemma_prefix_mismatch(t, "Gobo"@, 0);
        reveal_strlit("Gobo");
        reveal_strlit("Pos");
        lemma_prefix_mismatch(t, "Gobo"@, 0);
        reveal_strlit("Gobo");
        reveal_strlit("PosRotate");
        lemma_prefix_mismatch(t, "Gobo"@, 0);
        reveal_strlit("Gobo");
        reveal_strlit("PosShake");
        lemma_prefix_mismatch(t, "Gobo"@, 0);
        reveal_strlit("AnimationWheel");
        lemma_prefix_mismatch(t, "AnimationWheel"@, 0);
        reveal_strlit("AnimationWheel");
        reveal_strlit("Audio");
        lemma_prefix_mismatch(t, "AnimationWheel"@, 0);
        reveal_strlit("AnimationWheel");
        reveal_strlit("Macro");
        lemma_prefix_mismatch(t, "AnimationWheel"@, 0);
        reveal_strlit("AnimationWheel");
        reveal_strlit("Random");
        lemma_prefix_mismatch(t, "AnimationWheel"@, 0);
        reveal_strlit("AnimationWheel");
        reveal_strlit("SelectEffects");
        lemma_prefix_mismatch(t, "AnimationWheel"@, 0);
        reveal_strlit("AnimationWheel");
        reveal_strlit("SelectShake");
        lemma_prefix_mismatch(t, "AnimationWheel"@, 0);
        reveal_strlit("AnimationWheel");
        reveal_strlit("SelectSpin");
        lemma_prefix_mismatch(t, "AnimationWheel"@, 0);
        reveal_strlit("AnimationWheel");
        reveal_strlit("Pos");
        lemma_prefix_mismatch(t, "AnimationWheel"@, 0);
        reveal_strlit("AnimationWheel");
        reveal_strlit("PosRotate");
        lemma_prefix_mismatch(t, "AnimationWheel"@, 0);
        reveal_strlit("AnimationWheel");
        reveal_strlit("PosShake");
        lemma_prefix_mismatch(t, "AnimationWheel"@, 0);
        reveal_strlit("AnimationSystem");
        lemma_prefix_mismatch(t, "AnimationSystem"@, 0);
        reveal_strlit("AnimationSystem");
        reveal_strlit("Ramp");
        lemma_prefix_mismatch(t, "AnimationSystem"@, 0);
        reveal_strlit("AnimationSystem");
        reveal_strlit("Shake");
        lemma_prefix_mismatch(t, "AnimationSystem"@, 0);
        reveal_strlit("AnimationSystem");
        reveal_strlit("Audio");
        lemma_prefix_mismatch(t, "AnimationSystem"@, 0);
        reveal_strlit("AnimationSystem");
        reveal_strlit("Random");
        lemma_prefix_mismatch(t, "AnimationSystem"@, 0);
        reveal_strlit("AnimationSystem");
        reveal_strlit("Pos");
        lemma_prefix_mismatch(t, "AnimationSystem"@, 0);
        reveal_strlit("AnimationSystem");
        reveal_strlit("PosRotate");
        lemma_prefix_mismatch(t, "AnimationSystem"@, 0);
        reveal_strlit("AnimationSystem");
        reveal_strlit("PosShake");
        lemma_prefix_mismatch(t, "AnimationSystem"@, 0);
        reveal_strlit("AnimationSystem");
        reveal_strlit("PosRandom");
        lemma_prefix_mismatch(t, "AnimationSystem"@, 0);
        reveal_strlit("AnimationSystem");
        reveal_strlit("PosAudio");
        lemma_prefix_mismatch(t, "AnimationSystem"@, 0);
    }
    reveal_strlit("AnimationSystem");
    reveal_strlit("Macro");
    lemma_prefix_mismatch(t, "AnimationSystem"@, 0);
    reveal_strlit("MediaFolder");
    lemma_prefix_mismatch(t, "MediaFolder"@, 0);
    reveal_strlit("MediaContent");
    lemma_prefix_mismatch(t, "MediaContent"@, 0);
    reveal_strlit("ModelFolder");
    lemma_prefix_mismatch(t, "ModelFolder"@, 0);
    reveal_strlit("ModelContent");
    lemma_prefix_mismatch(t, "ModelContent"@, 0);
    reveal_strlit("ColorEffects");
    lemma_prefix_mismatch(t, "ColorEffects"@, 0);
    reveal_strlit("Color");
    lemma_prefix_mismatch(t, "Color"@, 0);
    reveal_strlit("Color");
    reveal_strlit("WheelIndex");
    lemma_prefix_mismatch(t, "Color"@, 0);
    reveal_strlit("Color");
    reveal_strlit("WheelSpin");
    lemma_prefix_mismatch(t, "Color"@, 0);
    reveal_strlit("Color");
    reveal_strlit("WheelRandom");
    lemma_prefix_mismatch(t, "Color"@, 0);
    reveal_strlit("Color");
    reveal_strlit("WheelAudio");
    lemma_prefix_mismatch(t, "Color"@, 0);
    reveal_strlit("ColorMacro");
    lemma_prefix_mismatch(t, "ColorMacro"@, 0);
    reveal_strlit("ColorMacro");
    reveal_strlit("Rate");
    lemma_prefix_mismatch(t, "ColorMacro"@, 0);
    reveal_strlit("Shutter");
    lemma_prefix_mismatch(t, "Shutter"@, 0);
    reveal_strlit("Shutter");
    reveal_strlit("Strobe");
    lemma_prefix_mismatch(t, "Shutter"@, 0);
    reveal_strlit("Shutter");
    reveal_strlit("StrobePulse");
    lemma_prefix_mismatch(t, "Shutter"@, 0);
    reveal_strlit("Shutter");
    reveal_strlit("StrobePulseClose");
    lemma_prefix_mismatch(t, "Shutter"@, 0);
    reveal_strlit("Shutter");
    reveal_strlit("StrobePulseOpen");
    lemma_prefix_mismatch(t, "Shutter"@, 0);
    reveal_strlit("Shutter");
    reveal_strlit("StrobeRandom");
    lemma_prefix_mismatch(t, "Shutter"@, 0);
    reveal_strlit("Shutter");
    reveal_strlit("StrobeRandomPulse");
    lemma_prefix_mismatch(t, "Shutter"@, 0);
    reveal_strlit("Shutter");
    reveal_strlit("StrobeRandomPulseClose");
    lemma_prefix_mismatch(t, "Shutter"@, 0);
    reveal_strlit("Shutter");
    reveal_strlit("StrobeRandomPulseOpen");
    lemma_prefix_mismatch(t, "Shutter"@, 0);
    reveal_strlit("Shutter");
    reveal_strlit("StrobeEffect");
    lemma_prefix_mismatch(t, "Shutter"@, 0);
    reveal_strlit("Frost");
    lemma_rest_not_number(t, "Frost"@, d.len() as int);
    reveal_strlit("Frost");
    reveal_strlit("PulseOpen");
    lemma_suffix_mismatch(t, "Frost"@, "PulseOpen"@, 0);
    lemma_number_between("Frost"@, "PulseClose"@, n);
}

/// An attribute of the numbered family `FrostRamp` reads back from its written
/// name: that text is no standard name, and every numbering rule before the
/// family's own rejects it.
proof fn text_reads_back_frost_ramp(n: u8)
    ensures
        attribute_from_text(attribute_text(FixtureChannel3Attribute::FrostRamp(n))) == Some(FixtureChannel3Attribute::FrostRamp(n)),
{
    let d = decimal(n as nat);
    lemma_decimal_digits(n as nat);
    lemma_decimal_len_u8(n as nat);
    let t = attribute_text(FixtureChannel3Attribute::FrostRamp(n));
    reveal_strlit("Frost");
    reveal_strlit("Ramp");
    assert(t == "Frost"@ + d + "Ramp"@);
    lemma_exact_none_with_digit(t, 5);
    reveal(numbered_attribute_1);
    assert(numbered_attribute_0(t) is None) by {
        reveal(numbered_attribute_0);
        reveal_strlit("Gobo");
        lemma_prefix_mismatch(t, "Gobo"@, 0);
        reveal_strlit("Gobo");
        reveal_strlit("SelectSpin");
        lemma_prefix_mismatch(t, "Gobo"@, 0);
        reveal_strlit("Gobo");
        reveal_strlit("SelectShake");
        lemma_prefix_mismatch(t, "Gobo"@, 0);
        reveal_strlit("Gobo");
        reveal_strlit("SelectEffects");
        lemma_prefix_mismatch(t, "Gobo"@, 0);
        reveal_strlit("Gobo");
        reveal_strlit("WheelIndex");
        lemma_prefix_mismatch(t, "Gobo"@, 0);
        reveal_strlit("Gobo");
        reveal_strlit("WheelSpin");
        lemma_prefix_mismatch(t, "Gobo"@, 0);
        reveal_strlit("Gobo");
        reveal_strlit("WheelShake");
        lemma_prefix_mismatch(t, "Gobo"@, 0);
        reveal_strlit("Gobo");
        reveal_strlit("WheelRandom");
        lemma_prefix_mismatch(t, "Gobo"@, 0);
        reveal_strlit("Gobo");
        reveal_strlit("WheelAudio");
        lemma_prefix_mismatch(t, "Gobo"@, 0);
        reveal_strlit("Gobo");
        reveal_strlit("Pos");
        lemma_prefix_mismatch(t, "Gobo"@, 0);
        reveal_strlit("Gobo");
        reveal_strlit("PosRotate");
        lemma_prefix_mismatch(t, "Gobo"@, 0);
        reveal_strlit("Gobo");
        reveal_strlit("PosShake");
        lemma_prefix_mismatch(t, "Gobo"@, 0);
        reveal_strlit("AnimationWheel");
        lemma_prefix_mismatch(t, "AnimationWheel"@, 0);
        reveal_strlit("AnimationWheel");
        reveal_strlit("Audio");
        lemma_prefix_mismatch(t, "AnimationWheel"@, 0);
        reveal_strlit("AnimationWheel");
        reveal_strlit("Macro");
        lemma_prefix_mismatch(t, "AnimationWheel"@, 0);
        reveal_strlit("AnimationWheel");
        reveal_strlit("Random");
        lemma_prefix_mismatch(t, "AnimationWheel"@, 0);
        reveal_strlit("AnimationWheel");
        reveal_strlit("SelectEffects");
        lemma_prefix_mismatch(t, "AnimationWheel"@, 0);
        reveal_strlit("AnimationWheel");
        reveal_strlit("SelectShake");
        lemma_prefix_mismatch(t, "AnimationWheel"@, 0);
        reveal_strlit("AnimationWheel");
        reveal_strlit("SelectSpin");
        lemma_prefix_mismatch(t, "AnimationWheel"@, 0);
        reveal_strlit("AnimationWheel");
        reveal_strlit("Pos");
        lemma_prefix_mismatch(t, "AnimationWheel"@, 0);
        reveal_strlit("AnimationWheel");
        reveal_strlit("PosRotate");
        lemma_prefix_mismatch(t, "AnimationWheel"@, 0);
        reveal_strlit("AnimationWheel");
        reveal_strlit("PosShake");
        lemma_prefix_mismatch(t, "AnimationWheel"@, 0);
        reveal_strlit("AnimationSystem");
        lemma_prefix_mismatch(t, "AnimationSystem"@, 0);
        reveal_strlit("AnimationSystem");
        reveal_strlit("Ramp");
        lemma_prefix_mismatch(t, "AnimationSystem"@, 0);
        reveal_strlit("AnimationSystem");
        reveal_strlit("Shake");
        lemma_prefix_mismatch(t, "AnimationSystem"@, 0);
        reveal_strlit("AnimationSystem");
        reveal_strlit("Audio");
        lemma_prefix_mismatch(t, "AnimationSystem"@, 0);
        reveal_strlit("AnimationSystem");
        reveal_strlit("Random");
        lemma_prefix_mismatch(t, "AnimationSystem"@, 0);
        reveal_strlit("AnimationSystem");
        reveal_strlit("Pos");
        lemma_prefix_mismatch(t, "AnimationSystem"@, 0);
        reveal_strlit("AnimationSystem");
        reveal_strlit("PosRotate");
        lemma_prefix_mismatch(t, "AnimationSystem"@, 0);
        reveal_strlit("AnimationSystem");
        reveal_strlit("PosShake");
        lemma_prefix_mismatch(t, "AnimationSystem"@, 0);
        reveal_strlit("AnimationSystem");
        reveal_strlit("PosRandom");
        lemma_prefix_mismatch(t, "AnimationSystem"@, 0);
        reveal_strlit("AnimationSystem");
        reveal_strlit("PosAudio");
        lemma_prefix_mismatch(t, "AnimationSystem"@, 0);
    }
    reveal_strlit("AnimationSystem");
    reveal_strlit("Macro");
    lemma_prefix_mismatch(t, "AnimationSystem"@, 0);
    reveal_strlit("MediaFolder");
    lemma_prefix_mismatch(t, "MediaFolder"@, 0);
    reveal_strlit("MediaContent");
    lemma_prefix_mismatch(t, "MediaContent"@, 0);
    reveal_strlit("ModelFolder");
    lemma_prefix_mismatch(t, "ModelFolder"@, 0);
    reveal_strlit("ModelContent");
    lemma_prefix_mismatch(t, "ModelContent"@, 0);
    reveal_strlit("ColorEffects");
    lemma_prefix_mismatch(t, "ColorEffects"@, 0);
    reveal_strlit("Color");
    lemma_prefix_mismatch(t, "Color"@, 0);
    reveal_strlit("Color");
    reveal_strlit("WheelIndex");
    lemma_prefix_mismatch(t, "Color"@, 0);
    reveal_strlit("Color");
    reveal_strlit("WheelSpin");
    lemma_prefix_mismatch(t, "Color"@, 0);
    reveal_strlit("Color");
    reveal_strlit("WheelRandom");
    lemma_prefix_mismatch(t, "Color"@, 0);
    reveal_strlit("Color");
    reveal_strlit("WheelAudio");
    lemma_prefix_mismatch(t, "Color"@, 0);
    reveal_strlit("ColorMacro");
    lemma_prefix_mismatch(t, "ColorMacro"@, 0);
    reveal_strlit("ColorMacro");
    reveal_strlit("Rate");
    lemma_prefix_mismatch(t, "ColorMacro"@, 0);
    reveal_strlit("Shutter");
    lemma_prefix_mismatch(t, "Shutter"@, 0);
    reveal_strlit("Shutter");
    reveal_strlit("Strobe");
    lemma_prefix_mismatch(t, "Shutter"@, 0);
    reveal_strlit("Shutter");
    reveal_strlit("StrobePulse");
    lemma_prefix_mismatch(t, "Shutter"@, 0);
    reveal_strlit("Shutter");
    reveal_strlit("StrobePulseClose");
    lemma_prefix_mismatch(t, "Shutter"@, 0);
    reveal_strlit("Shutter");
    reveal_strlit("StrobePulseOpen");
    lemma_prefix_mismatch(t, "Shutter"@, 0);
    reveal_strlit("Shutter");
    reveal_strlit("StrobeRandom");
    lemma_prefix_mismatch(t, "Shutter"@, 0);
    reveal_strlit("Shutter");
    reveal_strlit("StrobeRandomPulse");
    lemma_prefix_mismatch(t, "Shutter"@, 0);
    reveal_strlit("Shutter");
    reveal_strlit("StrobeRandomPulseClose");
    lemma_prefix_mismatch(t, "Shutter"@, 0);
    reveal_strlit("Shutter");
    reveal_strlit("StrobeRandomPulseOpen");
    lemma_prefix_mismatch(t, "Shutter"@, 0);
    reveal_strlit("Shutter");
    reveal_strlit("StrobeEffect");
    lemma_prefix_mismatch(t, "Shutter"@, 0);
    reveal_strlit("Frost");
    lemma_rest_not_number(t, "Frost"@, d.len() as int);
    reveal_strlit("Frost");
    reveal_strlit("PulseOpen");
    lemma_suffix_mismatch(t, "Frost"@, "PulseOpen"@, 0);
    reveal_strlit("Frost");
    reveal_strlit("PulseClose");
    lemma_suffix_mismatch(t, "Frost"@, "PulseClose"@, 0);
    lemma_number_between("Frost"@, "Ramp"@, n);
}

/// An attribute of the numbered family `Prism` reads back from its written
/// name: that text is no standard name, and every numbering rule before the
/// family's own rejects it.
proof fn text_reads_back_prism(n: u8)
    ensures
        attribute_from_text(attribute_text(FixtureChannel3Attribute::Prism(n))) == Some(FixtureChannel3Attribute::Prism(n)),
{
    let d = decimal(n as nat);
    lemma_decimal_digits(n as nat);
    lemma_decimal_len_u8(n as nat);
    let t = attribute_text(FixtureChannel3Attribute::Prism(n));
    reveal_strlit("Prism");
    assert(t == "Prism"@ + d);
    lemma_exact_none_with_digit(t, 5);
    reveal(numbered_attribute_1);
    assert(numbered_attribute_0(t) is None) by {
        reveal(numbered_attribute_0);
        reveal_strlit("Gobo");
        lemma_prefix_mismatch(t, "Gobo"@, 0);
        reveal_strlit("Gobo");
        reveal_strlit("SelectSpin");
        lemma_prefix_mismatch(t, "Gobo"@, 0);
        reveal_strlit("Gobo");
        reveal_strlit("SelectShake");
        lemma_prefix_mismatch(t, "Gobo"@, 0);
        reveal_strlit("Gobo");
        reveal_strlit("SelectEffects");
        lemma_prefix_mismatch(t, "Gobo"@, 0);
        reveal_strlit("Gobo");
        reveal_strlit("WheelIndex");
        lemma_prefix_mismatch(t, "Gobo"@, 0);
        reveal_strlit("Gobo");
        reveal_strlit("WheelSpin");
        lemma_prefix_mismatch(t, "Gobo"@, 0);
        reveal_strlit("Gobo");
        reveal_strlit("WheelShake");
        lemma_prefix_mismatch(t, "Gobo"@, 0);
        reveal_strlit("Gobo");
        reveal_strlit("WheelRandom");
        lemma_prefix_mismatch(t, "Gobo"@, 0);
        reveal_strlit("Gobo");
        reveal_strlit("WheelAudio");
        lemma_prefix_mismatch(t, "Gobo"@, 0);
        reveal_strlit("Gobo");
        reveal_strlit("Pos");
        lemma_prefix_mismatch(t, "Gobo"@, 0);
        reveal_strlit("Gobo");
        reveal_strlit("PosRotate");
        lemma_prefix_mismatch(t, "Gobo"@, 0);
        reveal_strlit("Gobo");
        reveal_strlit("PosShake");
        lemma_prefix_mismatch(t, "Gobo"@, 0);
        reveal_strlit("AnimationWheel");
        lemma_prefix_mismatch(t, "AnimationWheel"@, 0);
        reveal_strlit("AnimationWheel");
        reveal_strlit("Audio");
        lemma_prefix_mismatch(t, "AnimationWheel"@, 0);
        reveal_strlit("AnimationWheel");
        reveal_strlit("Macro");
        lemma_prefix_mismatch(t, "AnimationWheel"@, 0);
        reveal_strlit("AnimationWheel");
        reveal_strlit("Random");
        lemma_prefix_mismatch(t, "AnimationWheel"@, 0);
        reveal_strlit("AnimationWheel");
        reveal_strlit("SelectEffects");
        lemma_prefix_mismatch(t, "AnimationWheel"@, 0);
        reveal_strlit("AnimationWheel");
        reveal_strlit("SelectShake");
        lemma_prefix_mismatch(t, "AnimationWheel"@, 0);
        reveal_strlit("AnimationWheel");
        reveal_strlit("SelectSpin");
        lemma_prefix_mismatch(t, "AnimationWheel"@, 0);
        reveal_strlit("AnimationWheel");
        reveal_strlit("Pos");
        lemma_prefix_mismatch(t, "AnimationWheel"@, 0);
        reveal_strlit("AnimationWheel");
        reveal_strlit("PosRotate");
        lemma_prefix_mismatch(t, "AnimationWheel"@, 0);
        reveal_strlit("AnimationWheel");
        reveal_strlit("PosShake");
        lemma_prefix_mismatch(t, "AnimationWheel"@, 0);
        reveal_strlit("AnimationSystem");
        lemma_prefix_mismatch(t, "AnimationSystem"@, 0);
        reveal_strlit("AnimationSystem");
        reveal_strlit("Ramp");
        lemma_prefix_mismatch(t, "AnimationSystem"@, 0);
        reveal_strlit("AnimationSystem");
        reveal_strlit("Shake");
        lemma_prefix_mismatch(t, "AnimationSystem"@, 0);
        reveal_strlit("AnimationSystem");
        reveal_strlit("Audio");
        lemma_prefix_mismatch(t, "AnimationSystem"@, 0);
        reveal_strlit("AnimationSystem");
        reveal_strlit("Random");
        lemma_prefix_mismatch(t, "AnimationSystem"@, 0);
        reveal_strlit("AnimationSystem");
        reveal_strlit("Pos");
        lemma_prefix_mismatch(t, "AnimationSystem"@, 0);
        reveal_strlit("AnimationSystem");
        reveal_strlit("PosRotate");
        lemma_prefix_mismatch(t, "AnimationSystem"@, 0);
        reveal_strlit("AnimationSystem");
        reveal_strlit("PosShake");
        lemma_prefix_mismatch(t, "AnimationSystem"@, 0);
        reveal_strlit("AnimationSystem");
        reveal_strlit("PosRandom");
        lemma_prefix_mismatch(t, "AnimationSystem"@, 0);
        reveal_strlit("AnimationSystem");
        reveal_strlit("PosAudio");
        lemma_prefix_mismatch(t, "AnimationSystem"@, 0);
    }
    reveal_strlit("AnimationSystem");
    reveal_strlit("Macro");
    lemma_prefix_mismatch(t, "AnimationSystem"@, 0);
    reveal_strlit("MediaFolder");
    lemma_prefix_mismatch(t, "MediaFolder"@, 0);
    reveal_strlit("MediaContent");
    lemma_prefix_mismatch(t, "MediaContent"@, 0);
    reveal_strlit("ModelFolder");
    lemma_prefix_mismatch(t, "ModelFolder"@, 0);
    reveal_strlit("ModelContent");
    lemma_prefix_mismatch(t, "ModelContent"@, 0);
    reveal_strlit("ColorEffects");
    lemma_prefix_mismatch(t, "ColorEffects"@, 0);
    reveal_strlit("Color");
    lemma_prefix_mismatch(t, "Color"@, 0);
    reveal_strlit("Color");
    reveal_strlit("WheelIndex");
    lemma_prefix_mismatch(t, "Color"@, 0);
    reveal_strlit("Color");
    reveal_strlit("WheelSpin");
    lemma_prefix_mismatch(t, "Color"@, 0);
    reveal_strlit("Color");
    reveal_strlit("WheelRandom");
    lemma_prefix_mismatch(t, "Color"@, 0);
    reveal_strlit("Color");
    reveal_strlit("WheelAudio");
    lemma_prefix_mismatch(t, "Color"@, 0);
    reveal_strlit("ColorMacro");
    lemma_prefix_mismatch(t, "ColorMacro"@, 0);
    reveal_strlit("ColorMacro");
    reveal_strlit("Rate");
    lemma_prefix_mismatch(t, "ColorMacro"@, 0);
    reveal_strlit("Shutter");
    lemma_prefix_mismatch(t, "Shutter"@, 0);
    reveal_strlit("Shutter");
    reveal_strlit("Strobe");
    lemma_prefix_mismatch(t, "Shutter"@, 0);
    reveal_strlit("Shutter");
    reveal_strlit("StrobePulse");
    lemma_prefix_mismatch(t, "Shutter"@, 0);
    reveal_strlit("Shutter");
    reveal_strlit("StrobePulseClose");
    lemma_prefix_mismatch(t, "Shutter"@, 0);
    reveal_strlit("Shutter");
    reveal_strlit("StrobePulseOpen");
    lemma_prefix_mismatch(t, "Shutter"@, 0);
    reveal_strlit("Shutter");
    reveal_strlit("StrobeRandom");
    lemma_prefix_mismatch(t, "Shutter"@, 0);
    reveal_strlit("Shutter");
    reveal_strlit("StrobeRandomPulse");
    lemma_prefix_mismatch(t, "Shutter"@, 0);
    reveal_strlit("Shutter");
    reveal_strlit("StrobeRandomPulseClose");
    lemma_prefix_mismatch(t, "Shutter"@, 0);
    reveal_strlit("Shutter");
    reveal_strlit("StrobeRandomPulseOpen");
    lemma_prefix_mismatch(t, "Shutter"@, 0);
    reveal_strlit("Shutter");
    reveal_strlit("StrobeEffect");
    lemma_prefix_mismatch(t, "Shutter"@, 0);
    reveal_strlit("Frost");
    lemma_prefix_mismatch(t, "Frost"@, 0);
    reveal_strlit("Frost");
    reveal_strlit("PulseOpen");
    lemma_prefix_mismatch(t, "Frost"@, 0);
    reveal_strlit("Frost");
    reveal_strlit("PulseClose");
    lemma_prefix_mismatch(t, "Frost"@, 0);
    reveal_strlit("Frost");
    reveal_strlit("Ramp");
    lemma_prefix_mismatch(t, "Frost"@, 0);
    lemma_number_after("Prism"@, n);
}

/// An attribute of the numbered family `PrismSelectSpin` reads back from its written
/// name: that text is no standard name, and every numbering rule before the
/// family's own rejects it.
proof fn text_reads_back_prism_select_spin(n: u8)
    ensures
        attribute_from_text(attribute_text(FixtureChannel3Attribute::PrismSelectSpin(n))) == Some(FixtureChannel3Attribute::PrismSelectSpin(n)),
{
    let d = decimal(n as nat);
    lemma_decimal_digits(n as nat);
    lemma_decimal_len_u8(n as nat);
    let t = attribute_text(FixtureChannel3Attribute::PrismSelectSpin(n));
    reveal_strlit("Prism");
    reveal_strlit("SelectSpin");
    assert(t == "Prism"@ + d + "SelectSpin"@);
    lemma_exact_none_with_digit(t, 5);
    reveal(numbered_attribute_1);
    assert(numbered_attribute_0(t) is None) by {
        reveal(numbered_attribute_0);
        reveal_strlit("Gobo");
        lemma_prefix_mismatch(t, "Gobo"@, 0);
        reveal_strlit("Gobo");
        reveal_strlit("SelectSpin");
        lemma_prefix_mismatch(t, "Gobo"@, 0);
        reveal_strlit("Gobo");
        reveal_strlit("SelectShake");
        lemma_prefix_mismatch(t, "Gobo"@, 0);
        reveal_strlit("Gobo");
        reveal_strlit("SelectEffects");
        lemma_prefix_mismatch(t, "Gobo"@, 0);
        reveal_strlit("Gobo");
        reveal_strlit("WheelIndex");
        lemma_prefix_mismatch(t, "Gobo"@, 0);
        reveal_strlit("Gobo");
        reveal_strlit("WheelSpin");
        lemma_prefix_mismatch(t, "Gobo"@, 0);
        reveal_strlit("Gobo");
        reveal_strlit("WheelShake");
        lemma_prefix_mismatch(t, "Gobo"@, 0);
        reveal_strlit("Gobo");
        reveal_strlit("WheelRandom");
        lemma_prefix_mismatch(t, "Gobo"@, 0);
        reveal_strlit("Gobo");
        reveal_strlit("WheelAudio");
        lemma_prefix_mismatch(t, "Gobo"@, 0);
        reveal_strlit("Gobo");
        reveal_strlit("Pos");
        lemma_prefix_mismatch(t, "Gobo"@, 0);
        reveal_strlit("Gobo");
        reveal_strlit("PosRotate");
        lemma_prefix_mismatch(t, "Gobo"@, 0);
        reveal_strlit("Gobo");
        reveal_strlit("PosShake");
        lemma_prefix_mismatch(t, "Gobo"@, 0);
        reveal_strlit("AnimationWheel");
        lemma_prefix_mismatch(t, "AnimationWheel"@, 0);
        reveal_strlit("AnimationWheel");
        reveal_strlit("Audio");
        lemma_prefix_mismatch(t, "AnimationWheel"@, 0);
        reveal_strlit("AnimationWheel");
        reveal_strlit("Macro");
        lemma_prefix_mismatch(t, "AnimationWheel"@, 0);
        reveal_strlit("AnimationWheel");
        reveal_strlit("Random");
        lemma_prefix_mismatch(t, "AnimationWheel"@, 0);
        reveal_strlit("AnimationWheel");
        reveal_strlit("SelectEffects");
        lemma_prefix_mismatch(t, "AnimationWheel"@, 0);
        reveal_strlit("AnimationWheel");
        reveal_strlit("SelectShake");
        lemma_prefix_mismatch(t, "AnimationWheel"@, 0);
        reveal_strlit("AnimationWheel");
        reveal_strlit("SelectSpin");
        lemma_prefix_mismatch(t, "AnimationWheel"@, 0);
        reveal_strlit("AnimationWheel");
        reveal_strlit("Pos");
        lemma_prefix_mismatch(t, "AnimationWheel"@, 0);
        reveal_strlit("AnimationWheel");
        reveal_strlit("PosRotate");
        lemma_prefix_mismatch(t, "AnimationWheel"@, 0);
        reveal_strlit("AnimationWheel");
        reveal_strlit("PosShake");
        lemma_prefix_mismatch(t, "AnimationWheel"@, 0);
        reveal_strlit("AnimationSystem");
        lemma_prefix_mismatch(t, "AnimationSystem"@, 0);
        reveal_strlit("AnimationSystem");
        reveal_strlit("Ramp");
        lemma_prefix_mismatch(t, "AnimationSystem"@, 0);
        reveal_strlit("AnimationSystem");
        reveal_strlit("Shake");
        lemma_prefix_mismatch(t, "AnimationSystem"@, 0);
        reveal_strlit("AnimationSystem");
        reveal_strlit("Audio");
        lemma_prefix_mismatch(t, "AnimationSystem"@, 0);
        reveal_strlit("AnimationSystem");
        reveal_strlit("Random");
        lemma_prefix_mismatch(t, "AnimationSystem"@, 0);
        reveal_strlit("AnimationSystem");
        reveal_strlit("Pos");
        lemma_prefix_mismatch(t, "AnimationSystem"@, 0);
        reveal_strlit("AnimationSystem");
        reveal_strlit("PosRotate");
        lemma_prefix_mismatch(t, "AnimationSystem"@, 0);
        reveal_strlit("AnimationSystem");
        reveal_strlit("PosShake");
        lemma_prefix_mismatch(t, "AnimationSystem"@, 0);
        reveal_strlit("AnimationSystem");
        reveal_strlit("PosRandom");
        lemma_prefix_mismatch(t, "AnimationSystem"@, 0);
        reveal_strlit("AnimationSystem");
        reveal_strlit("PosAudio");
        lemma_prefix_mismatch(t, "AnimationSystem"@, 0);
    }
    reveal_strlit("AnimationSystem");
    reveal_strlit("Macro");
    lemma_prefix_mismatch(t, "AnimationSystem"@, 0);
    reveal_strlit("MediaFolder");
    lemma_prefix_mismatch(t, "MediaFolder"@, 0);
    reveal_strlit("MediaContent");
    lemma_prefix_mismatch(t, "MediaContent"@, 0);
    reveal_strlit("ModelFolder");
    lemma_prefix_mismatch(t, "ModelFolder"@, 0);
    reveal_strlit("ModelContent");
    lemma_prefix_mismatch(t, "ModelContent"@, 0);
    reveal_strlit("ColorEffects");
    lemma_prefix_mismatch(t, "ColorEffects"@, 0);
    reveal_strlit("Color");
    lemma_prefix_mismatch(t, "Color"@, 0);
    reveal_strlit("Color");
    reveal_strlit("WheelIndex");
    lemma_prefix_mismatch(t, "Color"@, 0);
    reveal_strlit("Color");
    reveal_strlit("WheelSpin");
    lemma_prefix_mismatch(t, "Color"@, 0);
    reveal_strlit("Color");
    reveal_strlit("WheelRandom");
    lemma_prefix_mismatch(t, "Color"@, 0);
    reveal_strlit("Color");
    reveal_strlit("WheelAudio");
    lemma_prefix_mismatch(t, "Color"@, 0);
    reveal_strlit("ColorMacro");
    lemma_prefix_mismatch(t, "ColorMacro"@, 0);
    reveal_strlit("ColorMacro");
    reveal_strlit("Rate");
    lemma_prefix_mismatch(t, "ColorMacro"@, 0);
    reveal_strlit("Shutter");
    lemma_prefix_mismatch(t, "Shutter"@, 0);
    reveal_strlit("Shutter");
    reveal_strlit("Strobe");
    lemma_prefix_mismatch(t, "Shutter"@, 0);
    reveal_strlit("Shutter");
    reveal_strlit("StrobePulse");
    lemma_prefix_mismatch(t, "Shutter"@, 0);
    reveal_strlit("Shutter");
    reveal_strlit("StrobePulseClose");
    lemma_prefix_mismatch(t, "Shutter"@, 0);
    reveal_strlit("Shutter");
    reveal_strlit("StrobePulseOpen");
    lemma_prefix_mismatch(t, "Shutter"@, 0);
    reveal_strlit("Shutter");
    reveal_strlit("StrobeRandom");
    lemma_prefix_mismatch(t, "Shutter"@, 0);
    reveal_strlit("Shutter");
    reveal_strlit("StrobeRandomPulse");
    lemma_prefix_mismatch(t, "Shutter"@, 0);
    reveal_strlit("Shutter");
    reveal_strlit("StrobeRandomPulseClose");
    lemma_prefix_mismatch(t, "Shutter"@, 0);
    reveal_strlit("Shutter");
    reveal_strlit("StrobeRandomPulseOpen");
    lemma_prefix_mismatch(t, "Shutter"@, 0);
    reveal_strlit("Shutter");
    reveal_strlit("StrobeEffect");
    lemma_prefix_mismatch(t, "Shutter"@, 0);
    reveal_strlit("Frost");
    lemma_prefix_mismatch(t, "Frost"@, 0);
    reveal_strlit("Frost");
    reveal_strlit("PulseOpen");
    lemma_prefix_mismatch(t, "Frost"@, 0);
    reveal_strlit("Frost");
    reveal_strlit("PulseClose");
    lemma_prefix_mismatch(t, "Frost"@, 0);
    reveal_strlit("Frost");
    reveal_strlit("Ramp");
    lemma_prefix_mismatch(t, "Frost"@, 0);
    reveal_strlit("Prism");
    lemma_rest_not_number(t, "Prism"@, d.len() as int);
    lemma_number_between("Prism"@, "SelectSpin"@, n);
}

/// An attribute of the numbered family `PrismMacro` reads back from its written
/// name: that text is no standard name, and every numbering rule before the
/// family's own rejects it.
proof fn text_reads_back_prism_macro(n: u8)
    ensures
        attribute_from_text(attribute_text(FixtureChannel3Attribute::PrismMacro(n))) == Some(FixtureChannel3Attribute::PrismMacro(n)),
{
    let d = decimal(n as nat);
    lemma_decimal_digits(n as nat);
    lemma_decimal_len_u8(n as nat);
    let t = attribute_text(FixtureChannel3Attribute::PrismMacro(n));
    reveal_strlit("Prism");
    reveal_strlit("Macro");
    assert(t == "Prism"@ + d + "Macro"@);
    lemma_exact_none_with_digit(t, 5);
    reveal(numbered_attribute_1);
    assert(numbered_attribute_0(t) is None) by {
        reveal(numbered_attribute_0);
        reveal_strlit("Gobo");
        lemma_prefix_mismatch(t, "Gobo"@, 0);
        reveal_strlit("Gobo");
        reveal_strlit("SelectSpin");
        lemma_prefix_mismatch(t, "Gobo"@, 0);
        reveal_strlit("Gobo");
        reveal_strlit("SelectShake");
        lemma_prefix_mismatch(t, "Gobo"@, 0);
        reveal_strlit("Gobo");
        reveal_strlit("SelectEffects");
        lemma_prefix_mismatch(t, "Gobo"@, 0);
        reveal_strlit("Gobo");
        reveal_strlit("WheelIndex");
        lemma_prefix_mismatch(t, "Gobo"@, 0);
        reveal_strlit("Gobo");
        reveal_strlit("WheelSpin");
        lemma_prefix_mismatch(t, "Gobo"@, 0);
        reveal_strlit("Gobo");
        reveal_strlit("WheelShake");
        lemma_prefix_mismatch(t, "Gobo"@, 0);
        reveal_strlit("Gobo");
        reveal_strlit("WheelRandom");
        lemma_prefix_mismatch(t, "Gobo"@, 0);
        reveal_strlit("Gobo");
        reveal_strlit("WheelAudio");
        lemma_prefix_mismatch(t, "Gobo"@, 0);
        reveal_strlit("Gobo");
        reveal_strlit("Pos");
        lemma_prefix_mismatch(t, "Gobo"@, 0);
        reveal_strlit("Gobo");
        reveal_strlit("PosRotate");
        lemma_prefix_mismatch(t, "Gobo"@, 0);
        reveal_strlit("Gobo");
        reveal_strlit("PosShake");
        lemma_prefix_mismatch(t, "Gobo"@, 0);
        reveal_strlit("AnimationWheel");
        lemma_prefix_mismatch(t, "AnimationWheel"@, 0);
        reveal_strlit("AnimationWheel");
        reveal_strlit("Audio");
        lemma_prefix_mismatch(t, "AnimationWheel"@, 0);
        reveal_strlit("AnimationWheel");
        reveal_strlit("Macro");
        lemma_prefix_mismatch(t, "AnimationWheel"@, 0);
        reveal_strlit("AnimationWheel");
        reveal_strlit("Random");
        lemma_prefix_mismatch(t, "AnimationWheel"@, 0);
        reveal_strlit("AnimationWheel");
        reveal_strlit("SelectEffects");
        lemma_prefix_mismatch(t, "AnimationWheel"@, 0);
        reveal_strlit("AnimationWheel");
        reveal_strlit("SelectShake");
        lemma_prefix_mismatch(t, "AnimationWheel"@, 0);
        reveal_strlit("AnimationWheel");
        reveal_strlit("SelectSpin");
        lemma_prefix_mismatch(t, "AnimationWheel"@, 0);
        reveal_strlit("AnimationWheel");
        reveal_strlit("Pos");
        lemma_prefix_mismatch(t, "AnimationWheel"@, 0);
        reveal_strlit("AnimationWheel");
        reveal_strlit("PosRotate");
        lemma_prefix_mismatch(t, "AnimationWheel"@, 0);
        reveal_strlit("AnimationWheel");
        reveal_strlit("PosShake");
        lemma_prefix_mismatch(t, "AnimationWheel"@, 0);
        reveal_strlit("AnimationSystem");
        lemma_prefix_mismatch(t, "AnimationSystem"@, 0);
        reveal_strlit("AnimationSystem");
        reveal_strlit("Ramp");
        lemma_prefix_mismatch(t, "AnimationSystem"@, 0);
        reveal_strlit("AnimationSystem");
        reveal_strlit("Shake");
        lemma_prefix_mismatch(t, "AnimationSystem"@, 0);
        reveal_strlit("AnimationSystem");
        reveal_strlit("Audio");
        lemma_prefix_mismatch(t, "AnimationSystem"@, 0);
        reveal_strlit("AnimationSystem");
        reveal_strlit("Random");
        lemma_prefix_mismatch(t, "AnimationSystem"@, 0);
        reveal_strlit("AnimationSystem");
        reveal_strlit("Pos");
        lemma_prefix_mismatch(t, "AnimationSystem"@, 0);
        reveal_strlit("AnimationSystem");
        reveal_strlit("PosRotate");
        lemma_prefix_mismatch(t, "AnimationSystem"@, 0);
        reveal_strlit("AnimationSystem");
        reveal_strlit("PosShake");
        lemma_prefix_mismatch(t, "AnimationSystem"@, 0);
        reveal_strlit("AnimationSystem");
        reveal_strlit("PosRandom");
        lemma_prefix_mismatch(t, "AnimationSystem"@, 0);
        reveal_strlit("AnimationSystem");
        reveal_strlit("PosAudio");
        lemma_prefix_mismatch(t, "AnimationSystem"@, 0);
    }
    reveal_strlit("AnimationSystem");
    reveal_strlit("Macro");
    lemma_prefix_mismatch(t, "AnimationSystem"@, 0);
    reveal_strlit("MediaFolder");
    lemma_prefix_mismatch(t, "MediaFolder"@, 0);
    reveal_strlit("MediaContent");
    lemma_prefix_mismatch(t, "MediaContent"@, 0);
    reveal_strlit("ModelFolder");
    lemma_prefix_mismatch(t, "ModelFolder"@, 0);
    reveal_strlit("ModelContent");
    lemma_prefix_mismatch(t, "ModelContent"@, 0);
    reveal_strlit("ColorEffects");
    lemma_prefix_mismatch(t, "ColorEffects"@, 0);
    reveal_strlit("Color");
    lemma_prefix_mismatch(t, "Color"@, 0);
    reveal_strlit("Color");
    reveal_strlit("WheelIndex");
    lemma_prefix_mismatch(t, "Color"@, 0);
    reveal_strlit("Color");
    reveal_strlit("WheelSpin");
    lemma_prefix_mismatch(t, "Color"@, 0);
    reveal_strlit("Color");
    reveal_strlit("WheelRandom");
    lemma_prefix_mismatch(t, "Color"@, 0);
    reveal_strlit("Color");
    reveal_strlit("WheelAudio");
    lemma_prefix_mismatch(t, "Color"@, 0);
    reveal_strlit("ColorMacro");
    lemma_prefix_mismatch(t, "ColorMacro"@, 0);
    reveal_strlit("ColorMacro");
    reveal_strlit("Rate");
    lemma_prefix_mismatch(t, "ColorMacro"@, 0);
    reveal_strlit("Shutter");
    lemma_prefix_mismatch(t, "Shutter"@, 0);
    reveal_strlit("Shutter");
    reveal_strlit("Strobe");
    lemma_prefix_mismatch(t, "Shutter"@, 0);
    reveal_strlit("Shutter");
    reveal_strlit("StrobePulse");
    lemma_prefix_mismatch(t, "Shutter"@, 0);
    reveal_strlit("Shutter");
    reveal_strlit("StrobePulseClose");
    lemma_prefix_mismatch(t, "Shutter"@, 0);
    reveal_strlit("Shutter");
    reveal_strlit("StrobePulseOpen");
    lemma_prefix_mismatch(t, "Shutter"@, 0);
    reveal_strlit("Shutter");
    reveal_strlit("StrobeRandom");
    lemma_prefix_mismatch(t, "Shutter"@, 0);
    reveal_strlit("Shutter");
    reveal_strlit("StrobeRandomPulse");
    lemma_prefix_mismatch(t, "Shutter"@, 0);
    reveal_strlit("Shutter");
    reveal_strlit("StrobeRandomPulseClose");
    lemma_prefix_mismatch(t, "Shutter"@, 0);
    reveal_strlit("Shutter");
    reveal_strlit("StrobeRandomPulseOpen");
    lemma_prefix_mismatch(t, "Shutter"@, 0);
    reveal_strlit("Shutter");
    reveal_strlit("StrobeEffect");
    lemma_prefix_mismatch(t, "Shutter"@, 0);
    reveal_strlit("Frost");
    lemma_prefix_mismatch(t, "Frost"@, 0);
    reveal_strlit("Frost");
    reveal_strlit("PulseOpen");
    lemma_prefix_mismatch(t, "Frost"@, 0);
    reveal_strlit("Frost");
    reveal_strlit("PulseClose");
    lemma_prefix_mismatch(t, "Frost"@, 0);
    reveal_strlit("Frost");
    reveal_strlit("Ramp");
    lemma_prefix_mismatch(t, "Frost"@, 0);
    reveal_strlit("Prism");
    lemma_rest_not_number(t, "Prism"@, d.len() as int);
    reveal_strlit("Prism");
    reveal_strlit("SelectSpin");
    lemma_suffix_mismatch(t, "Prism"@, "SelectSpin"@, 0);
    lemma_number_between("Prism"@, "Macro"@, n);
}

/// An attribute of the numbered family `PrismPos` reads back from its written
/// name: that text is no standard name, and every numbering rule before the
/// family's own rejects it.
proof fn text_reads_back_prism_pos(n: u8)
    ensures
        attribute_from_text(attribute_text(FixtureChannel3Attribute::PrismPos(n))) == Some(FixtureChannel3Attribute::PrismPos(n)),
{
    let d = decimal(n as nat);
    lemma_decimal_digits(n as nat);
    lemma_decimal_len_u8(n as nat);
    let t = attribute_text(FixtureChannel3Attribute::PrismPos(n));
    reveal_strlit("Prism");
    reveal_strlit("Pos");
    assert(t == "Prism"@ + d + "Pos"@);
    lemma_exact_none_with_digit(t, 5);
    reveal(numbered_attribute_1);
    assert(numbered_attribute_0(t) is None) by {
        reveal(numbered_attribute_0);
        reveal_strlit("Gobo");
        lemma_prefix_mismatch(t, "Gobo"@, 0);
        reveal_strlit("Gobo");
        reveal_strlit("SelectSpin");
        lemma_prefix_mismatch(t, "Gobo"@, 0);
        reveal_strlit("Gobo");
        reveal_strlit("SelectShake");
        lemma_prefix_mismatch(t, "Gobo"@, 0);
        reveal_strlit("Gobo");
        reveal_strlit("SelectEffects");
        lemma_prefix_mismatch(t, "Gobo"@, 0);
        reveal_strlit("Gobo");
        reveal_strlit("WheelIndex");
        lemma_prefix_mismatch(t, "Gobo"@, 0);
        reveal_strlit("Gobo");
        reveal_strlit("WheelSpin");
        lemma_prefix_mismatch(t, "Gobo"@, 0);
        reveal_strlit("Gobo");
        reveal_strlit("WheelShake");
        lemma_prefix_mismatch(t, "Gobo"@, 0);
        reveal_strlit("Gobo");
        reveal_strlit("WheelRandom");
        lemma_prefix_mismatch(t, "Gobo"@, 0);
        reveal_strlit("Gobo");
        reveal_strlit("WheelAudio");
        lemma_prefix_mismatch(t, "Gobo"@, 0);
        reveal_strlit("Gobo");
        reveal_strlit("Pos");
        lemma_prefix_mismatch(t, "Gobo"@, 0);
        reveal_strlit("Gobo");
        reveal_strlit("PosRotate");
        lemma_prefix_mismatch(t, "Gobo"@, 0);
        reveal_strlit("Gobo");
        reveal_strlit("PosShake");
        lemma_prefix_mismatch(t, "Gobo"@, 0);
        reveal_strlit("AnimationWheel");
        lemma_prefix_mismatch(t, "AnimationWheel"@, 0);
        reveal_strlit("AnimationWheel");
        reveal_strlit("Audio");
        lemma_prefix_mismatch(t, "AnimationWheel"@, 0);
        reveal_strlit("AnimationWheel");
        reveal_strlit("Macro");
        lemma_prefix_mismatch(t, "AnimationWheel"@, 0);
        reveal_strlit("AnimationWheel");
        reveal_strlit("Random");
        lemma_prefix_mismatch(t, "AnimationWheel"@, 0);
        reveal_strlit("AnimationWheel");
        reveal_strlit("SelectEffects");
        lemma_prefix_mismatch(t, "AnimationWheel"@, 0);
        reveal_strlit("AnimationWheel");
        reveal_strlit("SelectShake");
        lemma_prefix_mismatch(t, "AnimationWheel"@, 0);
        reveal_strlit("AnimationWheel");
        reveal_strlit("SelectSpin");
        lemma_prefix_mismatch(t, "AnimationWheel"@, 0);
        reveal_strlit("AnimationWheel");
        reveal_strlit("Pos");
        lemma_prefix_mismatch(t, "AnimationWheel"@, 0);
        reveal_strlit("AnimationWheel");
        reveal_strlit("PosRotate");
        lemma_prefix_mismatch(t, "AnimationWheel"@, 0);
        reveal_strlit("AnimationWheel");
        reveal_strlit("PosShake");
        lemma_prefix_mismatch(t, "AnimationWheel"@, 0);
        reveal_strlit("AnimationSystem");
        lemma_prefix_mismatch(t, "AnimationSystem"@, 0);
        reveal_strlit("AnimationSystem");
        reveal_strlit("Ramp");
        lemma_prefix_mismatch(t, "AnimationSystem"@, 0);
        reveal_strlit("AnimationSystem");
        reveal_strlit("Shake");
        lemma_prefix_mismatch(t, "AnimationSystem"@, 0);
        reveal_strlit("AnimationSystem");
        reveal_strlit("Audio");
        lemma_prefix_mismatch(t, "AnimationSystem"@, 0);
        reveal_strlit("AnimationSystem");
        reveal_strlit("Random");
        lemma_prefix_mismatch(t, "AnimationSystem"@, 0);
        reveal_strlit("AnimationSystem");
        reveal_strlit("Pos");
        lemma_prefix_mismatch(t, "AnimationSystem"@, 0);
        reveal_strlit("AnimationSystem");
        reveal_strlit("PosRotate");
        lemma_prefix_mismatch(t, "AnimationSystem"@, 0);
        reveal_strlit("AnimationSystem");
        reveal_strlit("PosShake");
        lemma_prefix_mismatch(t, "AnimationSystem"@, 0);
        reveal_strlit("AnimationSystem");
        reveal_strlit("PosRandom");
        lemma_prefix_mismatch(t, "AnimationSystem"@, 0);
        reveal_strlit("AnimationSystem");
        reveal_strlit("PosAudio");
        lemma_prefix_mismatch(t, "AnimationSystem"@, 0);
    }
    reveal_strlit("AnimationSystem");
    reveal_strlit("Macro");
    lemma_prefix_mismatch(t, "AnimationSystem"@, 0);
    reveal_strlit("MediaFolder");
    lemma_prefix_mismatch(t, "MediaFolder"@, 0);
    reveal_strlit("MediaContent");
    lemma_prefix_mismatch(t, "MediaContent"@, 0);
    reveal_strlit("ModelFolder");
    lemma_prefix_mismatch(t, "ModelFolder"@, 0);
    reveal_strlit("ModelContent");
    lemma_prefix_mismatch(t, "ModelContent"@, 0);
    reveal_strlit("ColorEffects");
    lemma_prefix_mismatch(t, "ColorEffects"@, 0);
    reveal_strlit("Color");
    lemma_prefix_mismatch(t, "Color"@, 0);
    reveal_strlit("Color");
    reveal_strlit("WheelIndex");
    lemma_prefix_mismatch(t, "Color"@, 0);
    reveal_strlit("Color");
    reveal_strlit("WheelSpin");
    lemma_prefix_mismatch(t, "Color"@, 0);
    reveal_strlit("Color");
    reveal_strlit("WheelRandom");
    lemma_prefix_mismatch(t, "Color"@, 0);
    reveal_strlit("Color");
    reveal_strlit("WheelAudio");
    lemma_prefix_mismatch(t, "Color"@, 0);
    reveal_strlit("ColorMacro");
    lemma_prefix_mismatch(t, "ColorMacro"@, 0);
    reveal_strlit("ColorMacro");
    reveal_strlit("Rate");
    lemma_prefix_mismatch(t, "ColorMacro"@, 0);
    reveal_strlit("Shutter");
    lemma_prefix_mismatch(t, "Shutter"@, 0);
    reveal_strlit("Shutter");
    reveal_strlit("Strobe");
    lemma_prefix_mismatch(t, "Shutter"@, 0);
    reveal_strlit("Shutter");
    reveal_strlit("StrobePulse");
    lemma_prefix_mismatch(t, "Shutter"@, 0);
    reveal_strlit("Shutter");
    reveal_strlit("StrobePulseClose");
    lemma_prefix_mismatch(t, "Shutter"@, 0);
    reveal_strlit("Shutter");
    reveal_strlit("StrobePulseOpen");
    lemma_prefix_mismatch(t, "Shutter"@, 0);
    reveal_strlit("Shutter");
    reveal_strlit("StrobeRandom");
    lemma_prefix_mismatch(t, "Shutter"@, 0);
    reveal_strlit("Shutter");
    reveal_strlit("StrobeRandomPulse");
    lemma_prefix_mismatch(t, "Shutter"@, 0);
    reveal_strlit("Shutter");
    reveal_strlit("StrobeRandomPulseClose");
    lemma_prefix_mismatch(t, "Shutter"@, 0);
    reveal_strlit("Shutter");
    reveal_strlit("StrobeRandomPulseOpen");
    lemma_prefix_mismatch(t, "Shutter"@, 0);
    reveal_strlit("Shutter");
    reveal_strlit("StrobeEffect");
    lemma_prefix_mismatch(t, "Shutter"@, 0);
    reveal_strlit("Frost");
    lemma_prefix_mismatch(t, "Frost"@, 0);
    reveal_strlit("Frost");
    reveal_strlit("PulseOpen");
    lemma_prefix_mismatch(t, "Frost"@, 0);
    reveal_strlit("Frost");
    reveal_strlit("PulseClose");
    lemma_prefix_mismatch(t, "Frost"@, 0);
    reveal_strlit("Frost");
    reveal_strlit("Ramp");
    lemma_prefix_mismatch(t, "Frost"@, 0);
    reveal_strlit("Prism");
    lemma_rest_not_number(t, "Prism"@, d.len() as int);
    reveal_strlit("Prism");
    reveal_strlit("SelectSpin");
    lemma_suffix_mismatch(t, "Prism"@, "SelectSpin"@, 0);
    reveal_strlit("Prism");
    reveal_strlit("Macro");
    lemma_suffix_mismatch(t, "Prism"@, "Macro"@, 0);
    lemma_number_between("Prism"@, "Pos"@, n);
}

/// An attribute of the numbered family `PrismPosRotate` reads back from its written
/// name: that text is no standard name, and every numbering rule before the
/// family's own rejects it.
proof fn text_reads_back_prism_pos_rotate(n: u8)
    ensures
        attribute_from_text(attribute_text(FixtureChannel3Attribute::PrismPosRotate(n))) == Some(FixtureChannel3Attribute::PrismPosRotate(n)),
{
    let d = decimal(n as nat);
    lemma_decimal_digits(n as nat);
    lemma_decimal_len_u8(n as nat);
    let t = attribute_text(FixtureChannel3Attribute::PrismPosRotate(n));
    reveal_strlit("Prism");
    reveal_strlit("PosRotate");
    assert(t == "Prism"@ + d + "PosRotate"@);
    lemma_exact_none_with_digit(t, 5);
    reveal(numbered_attribute_1);
    assert(numbered_attribute_0(t) is None) by {
        reveal(numbered_attribute_0);
        reveal_strlit("Gobo");
        lemma_prefix_mismatch(t, "Gobo"@, 0);
        reveal_strlit("Gobo");
        reveal_strlit("SelectSpin");
        lemma_prefix_mismatch(t, "Gobo"@, 0);
        reveal_strlit("Gobo");
        reveal_strlit("SelectShake");
        lemma_prefix_mismatch(t, "Gobo"@, 0);
        reveal_strlit("Gobo");
        reveal_strlit("SelectEffects");
        lemma_prefix_mismatch(t, "Gobo"@, 0);
        reveal_strlit("Gobo");
        reveal_strlit("WheelIndex");
        lemma_prefix_mismatch(t, "Gobo"@, 0);
        reveal_strlit("Gobo");
        reveal_strlit("WheelSpin");
        lemma_prefix_mismatch(t, "Gobo"@, 0);
        reveal_strlit("Gobo");
        reveal_strlit("WheelShake");
        lemma_prefix_mismatch(t, "Gobo"@, 0);
        reveal_strlit("Gobo");
        reveal_strlit("WheelRandom");
        lemma_prefix_mismatch(t, "Gobo"@, 0);
        reveal_strlit("Gobo");
        reveal_strlit("WheelAudio");
        lemma_prefix_mismatch(t, "Gobo"@, 0);
        reveal_strlit("Gobo");
        reveal_strlit("Pos");
        lemma_prefix_mismatch(t, "Gobo"@, 0);
        reveal_strlit("Gobo");
        reveal_strlit("PosRotate");
        lemma_prefix_mismatch(t, "Gobo"@, 0);
        reveal_strlit("Gobo");
        reveal_strlit("PosShake");
        lemma_prefix_mismatch(t, "Gobo"@, 0);
        reveal_strlit("AnimationWheel");
        lemma_prefix_mismatch(t, "AnimationWheel"@, 0);
        reveal_strlit("AnimationWheel");
        reveal_strlit("Audio");
        lemma_prefix_mismatch(t, "AnimationWheel"@, 0);
        reveal_strlit("AnimationWheel");
        reveal_strlit("Macro");
        lemma_prefix_mismatch(t, "AnimationWheel"@, 0);
        reveal_strlit("AnimationWheel");
        reveal_strlit("Random");
        lemma_prefix_mismatch(t, "AnimationWheel"@, 0);
        reveal_strlit("AnimationWheel");
        reveal_strlit("SelectEffects");
        lemma_prefix_mismatch(t, "AnimationWheel"@, 0);
        reveal_strlit("AnimationWheel");
        reveal_strlit("SelectShake");
        lemma_prefix_mismatch(t, "AnimationWheel"@, 0);
        reveal_strlit("AnimationWheel");
        reveal_strlit("SelectSpin");
        lemma_prefix_mismatch(t, "AnimationWheel"@, 0);
        reveal_strlit("AnimationWheel");
        reveal_strlit("Pos");
        lemma_prefix_mismatch(t, "AnimationWheel"@, 0);
        reveal_strlit("AnimationWheel");
        reveal_strlit("PosRotate");
        lemma_prefix_mismatch(t, "AnimationWheel"@, 0);
        reveal_strlit("AnimationWheel");
        reveal_strlit("PosShake");
        lemma_prefix_mismatch(t, "AnimationWheel"@, 0);
        reveal_strlit("AnimationSystem");
        lemma_prefix_mismatch(t, "AnimationSystem"@, 0);
        reveal_strlit("AnimationSystem");
        reveal_strlit("Ramp");
        lemma_prefix_mismatch(t, "AnimationSystem"@, 0);
        reveal_strlit("AnimationSystem");
        reveal_strlit("Shake");
        lemma_prefix_mismatch(t, "AnimationSystem"@, 0);
        reveal_strlit("AnimationSystem");
        reveal_strlit("Audio");
        lemma_prefix_mismatch(t, "AnimationSystem"@, 0);
        reveal_strlit("AnimationSystem");
        reveal_strlit("Random");
        lemma_prefix_mismatch(t, "AnimationSystem"@, 0);
        reveal_strlit("AnimationSystem");
        reveal_strlit("Pos");
        lemma_prefix_mismatch(t, "AnimationSystem"@, 0);
        reveal_strlit("AnimationSystem");
        reveal_strlit("PosRotate");
        lemma_prefix_mismatch(t, "AnimationSystem"@, 0);
        reveal_strlit("AnimationSystem");
        reveal_strlit("PosShake");
        lemma_prefix_mismatch(t, "AnimationSystem"@, 0);
        reveal_strlit("AnimationSystem");
        reveal_strlit("PosRandom");
        lemma_prefix_mismatch(t, "AnimationSystem"@, 0);
        reveal_strlit("AnimationSystem");
        reveal_strlit("PosAudio");
        lemma_prefix_mismatch(t, "AnimationSystem"@, 0);
    }
    reveal_strlit("AnimationSystem");
    reveal_strlit("Macro");
    lemma_prefix_mismatch(t, "AnimationSystem"@, 0);
    reveal_strlit("MediaFolder");
    lemma_prefix_mismatch(t, "MediaFolder"@, 0);
    reveal_strlit("MediaContent");
    lemma_prefix_mismatch(t, "MediaContent"@, 0);
    reveal_strlit("ModelFolder");
    lemma_prefix_mismatch(t, "ModelFolder"@, 0);
    reveal_strlit("ModelContent");
    lemma_prefix_mismatch(t, "ModelContent"@, 0);
    reveal_strlit("ColorEffects");
    lemma_prefix_mismatch(t, "ColorEffects"@, 0);
    reveal_strlit("Color");
    lemma_prefix_mismatch(t, "Color"@, 0);
    reveal_strlit("Color");
    reveal_strlit("WheelIndex");
    lemma_prefix_mismatch(t, "Color"@, 0);
    reveal_strlit("Color");
    reveal_strlit("WheelSpin");
    lemma_prefix_mismatch(t, "Color"@, 0);
    reveal_strlit("Color");
    reveal_strlit("WheelRandom");
    lemma_prefix_mismatch(t, "Color"@, 0);
    reveal_strlit("Color");
    reveal_strlit("WheelAudio");
    lemma_prefix_mismatch(t, "Color"@, 0);
    reveal_strlit("ColorMacro");
    lemma_prefix_mismatch(t, "ColorMacro"@, 0);
    reveal_strlit("ColorMacro");
    reveal_strlit("Rate");
    lemma_prefix_mismatch(t, "ColorMacro"@, 0);
    reveal_strlit("Shutter");
    lemma_prefix_mismatch(t, "Shutter"@, 0);
    reveal_strlit("Shutter");
    reveal_strlit("Strobe");
    lemma_prefix_mismatch(t, "Shutter"@, 0);
    reveal_strlit("Shutter");
    reveal_strlit("StrobePulse");
    lemma_prefix_mismatch(t, "Shutter"@, 0);
    reveal_strlit("Shutter");
    reveal_strlit("StrobePulseClose");
    lemma_prefix_mismatch(t, "Shutter"@, 0);
    reveal_strlit("Shutter");
    reveal_strlit("StrobePulseOpen");
    lemma_prefix_mismatch(t, "Shutter"@, 0);
    reveal_strlit("Shutter");
    reveal_strlit("StrobeRandom");
    lemma_prefix_mismatch(t, "Shutter"@, 0);
    reveal_strlit("Shutter");
    reveal_strlit("StrobeRandomPulse");
    lemma_prefix_mismatch(t, "Shutter"@, 0);
    reveal_strlit("Shutter");
    reveal_strlit("StrobeRandomPulseClose");
    lemma_prefix_mismatch(t, "Shutter"@, 0);
    reveal_strlit("Shutter");
    reveal_strlit("StrobeRandomPulseOpen");
    lemma_prefix_mismatch(t, "Shutter"@, 0);
    reveal_strlit("Shutter");
    reveal_strlit("StrobeEffect");
    lemma_prefix_mismatch(t, "Shutter"@, 0);
    reveal_strlit("Frost");
    lemma_prefix_mismatch(t, "Frost"@, 0);
    reveal_strlit("Frost");
    reveal_strlit("PulseOpen");
    lemma_prefix_mismatch(t, "Frost"@, 0);
    reveal_strlit("Frost");
    reveal_strlit("PulseClose");
    lemma_prefix_mismatch(t, "Frost"@, 0);
    reveal_strlit("Frost");
    reveal_strlit("Ramp");
    lemma_prefix_mismatch(t, "Frost"@, 0);
    reveal_strlit("Prism");
    lemma_rest_not_number(t, "Prism"@, d.len() as int);
    reveal_strlit("Prism");
    reveal_strlit("SelectSpin");
    lemma_suffix_mismatch(t, "Prism"@, "SelectSpin"@, 0);
    reveal_strlit("Prism");
    reveal_strlit("Macro");
    lemma_suffix_mismatch(t, "Prism"@, "Macro"@, 0);
    reveal_strlit("Prism");
    reveal_strlit("Pos");
    lemma_suffix_mismatch(t, "Prism"@, "Pos"@, 0);
    lemma_number_between("Prism"@, "PosRotate"@, n);
}

/// An attribute of the numbered family `Effects` reads back from its written
/// name: that text is no standard name, and every numbering rule before the
/// family's own rejects it.
proof fn text_reads_back_effects(n: u8)
    ensures
        attribute_from_text(attribute_text(FixtureChannel3Attribute::Effects(n))) == Some(FixtureChannel3Attribute::Effects(n)),
{
    let d = decimal(n as nat);
    lemma_decimal_digits(n as nat);
    lemma_decimal_len_u8(n as nat);
    let t = attribute_text(FixtureChannel3Attribute::Effects(n));
    reveal_strlit("Effects");
    assert(t == "Effects"@ + d);
    lemma_exact_none_with_digit(t, 7);
    reveal(numbered_attribute_2);
    assert(numbered_attribute_0(t) is None) by {
        reveal(numbered_attribute_0);
        reveal_strlit("Gobo");
        lemma_prefix_mismatch(t, "Gobo"@, 0);
        reveal_strlit("Gobo");
        reveal_strlit("SelectSpin");
        lemma_prefix_mismatch(t, "Gobo"@, 0);
        reveal_strlit("Gobo");
        reveal_strlit("SelectShake");
        lemma_prefix_mismatch(t, "Gobo"@, 0);
        reveal_strlit("Gobo");
        reveal_strlit("SelectEffects");
        lemma_prefix_mismatch(t, "Gobo"@, 0);
        reveal_strlit("Gobo");
        reveal_strlit("WheelIndex");
        lemma_prefix_mismatch(t, "Gobo"@, 0);
        reveal_strlit("Gobo");
        reveal_strlit("WheelSpin");
        lemma_prefix_mismatch(t, "Gobo"@, 0);
        reveal_strlit("Gobo");
        reveal_strlit("WheelShake");
        lemma_prefix_mismatch(t, "Gobo"@, 0);
        reveal_strlit("Gobo");
        reveal_strlit("WheelRandom");
        lemma_prefix_mismatch(t, "Gobo"@, 0);
        reveal_strlit("Gobo");
        reveal_strlit("WheelAudio");
        lemma_prefix_mismatch(t, "Gobo"@, 0);
        reveal_strlit("Gobo");
        reveal_strlit("Pos");
        lemma_prefix_mismatch(t, "Gobo"@, 0);
        reveal_strlit("Gobo");
        reveal_strlit("PosRotate");
        lemma_prefix_mismatch(t, "Gobo"@, 0);
        reveal_strlit("Gobo");
        reveal_strlit("PosShake");
        lemma_prefix_mismatch(t, "Gobo"@, 0);
        reveal_strlit("AnimationWheel");
        lemma_prefix_mismatch(t, "AnimationWheel"@, 0);
        reveal_strlit("AnimationWheel");
        reveal_strlit("Audio");
        lemma_prefix_mismatch(t, "AnimationWheel"@, 0);
        reveal_strlit("AnimationWheel");
        reveal_strlit("Macro");
        lemma_prefix_mismatch(t, "AnimationWheel"@, 0);
        reveal_strlit("AnimationWheel");
        reveal_strlit("Random");
        lemma_prefix_mismatch(t, "AnimationWheel"@, 0);
        reveal_strlit("AnimationWheel");
        reveal_strlit("SelectEffects");
        lemma_prefix_mismatch(t, "AnimationWheel"@, 0);
        reveal_strlit("AnimationWheel");
        reveal_strlit("SelectShake");
        lemma_prefix_mismatch(t, "AnimationWheel"@, 0);
        reveal_strlit("AnimationWheel");
        reveal_strlit("SelectSpin");
        lemma_prefix_mismatch(t, "AnimationWheel"@, 0);
        reveal_strlit("AnimationWheel");
        reveal_strlit("Pos");
        lemma_prefix_mismatch(t, "AnimationWheel"@, 0);
        reveal_strlit("AnimationWheel");
        reveal_strlit("PosRotate");
        lemma_prefix_mismatch(t, "AnimationWheel"@, 0);
        reveal_strlit("AnimationWheel");
        reveal_strlit("PosShake");
        lemma_prefix_mismatch(t, "AnimationWheel"@, 0);
        reveal_strlit("AnimationSystem");
        lemma_prefix_mismatch(t, "AnimationSystem"@, 0);
        reveal_strlit("AnimationSystem");
        reveal_strlit("Ramp");
        lemma_prefix_mismatch(t, "AnimationSystem"@, 0);
        reveal_strlit("AnimationSystem");
        reveal_strlit("Shake");
        lemma_prefix_mismatch(t, "AnimationSystem"@, 0);
        reveal_strlit("AnimationSystem");
        reveal_strlit("Audio");
        lemma_prefix_mismatch(t, "AnimationSystem"@, 0);
        reveal_strlit("AnimationSystem");
        reveal_strlit("Random");
        lemma_prefix_mismatch(t, "AnimationSystem"@, 0);
        reveal_strlit("AnimationSystem");
        reveal_strlit("Pos");
        lemma_prefix_mismatch(t, "AnimationSystem"@, 0);
        reveal_strlit("AnimationSystem");
        reveal_strlit("PosRotate");
        lemma_prefix_mismatch(t, "AnimationSystem"@, 0);
        reveal_strlit("AnimationSystem");
        reveal_strlit("PosShake");
        lemma_prefix_mismatch(t, "AnimationSystem"@, 0);
        reveal_strlit("AnimationSystem");
        reveal_strlit("PosRandom");
        lemma_prefix_mismatch(t, "AnimationSystem"@, 0);
        reveal_strlit("AnimationSystem");
        reveal_strlit("PosAudio");
        lemma_prefix_mismatch(t, "AnimationSystem"@, 0);
    }
    assert(numbered_attribute_1(t) is None) by {
        reveal(numbered_attribute_1);
        reveal_strlit("AnimationSystem");
        reveal_strlit("Macro");
        lemma_prefix_mismatch(t, "AnimationSystem"@, 0);
        reveal_strlit("MediaFolder");
        lemma_prefix_mismatch(t, "MediaFolder"@, 0);
        reveal_strlit("MediaContent");
        lemma_prefix_mismatch(t, "MediaContent"@, 0);
        reveal_strlit("ModelFolder");
        lemma_prefix_mismatch(t, "ModelFolder"@, 0);
        reveal_strlit("ModelContent");
        lemma_prefix_mismatch(t, "ModelContent"@, 0);
        reveal_strlit("ColorEffects");
        lemma_prefix_mismatch(t, "ColorEffects"@, 0);
        reveal_strlit("Color");
        lemma_prefix_mismatch(t, "Color"@, 0);
        reveal_strlit("Color");
        reveal_strlit("WheelIndex");
        lemma_prefix_mismatch(t, "Color"@, 0);
        reveal_strlit("Color");
        reveal_strlit("WheelSpin");
        lemma_prefix_mismatch(t, "Color"@, 0);
        reveal_strlit("Color");
        reveal_strlit("WheelRandom");
        lemma_prefix_mismatch(t, "Color"@, 0);
        reveal_strlit("Color");
        reveal_strlit("WheelAudio");
        lemma_prefix_mismatch(t, "Color"@, 0);
        reveal_strlit("ColorMacro");
        lemma_prefix_mismatch(t, "ColorMacro"@, 0);
        reveal_strlit("ColorMacro");
        reveal_strlit("Rate");
        lemma_prefix_mismatch(t, "ColorMacro"@, 0);
        reveal_strlit("Shutter");
        lemma_prefix_mismatch(t, "Shutter"@, 0);
        reveal_strlit("Shutter");
        reveal_strlit("Strobe");
        lemma_prefix_mismatch(t, "Shutter"@, 0);
        reveal_strlit("Shutter");
        reveal_strlit("StrobePulse");
        lemma_prefix_mismatch(t, "Shutter"@, 0);
        reveal_strlit("Shutter");
        reveal_strlit("StrobePulseClose");
        lemma_prefix_mismatch(t, "Shutter"@, 0);
        reveal_strlit("Shutter");
        reveal_strlit("StrobePulseOpen");
        lemma_prefix_mismatch(t, "Shutter"@, 0);
        reveal_strlit("Shutter");
        reveal_strlit("StrobeRandom");
        lemma_prefix_mismatch(t, "Shutter"@, 0);
        reveal_strlit("Shutter");
        reveal_strlit("StrobeRandomPulse");
        lemma_prefix_mismatch(t, "Shutter"@, 0);
        reveal_strlit("Shutter");
        reveal_strlit("StrobeRandomPulseClose");
        lemma_prefix_mismatch(t, "Shutter"@, 0);
        reveal_strlit("Shutter");
        reveal_strlit("StrobeRandomPulseOpen");
        lemma_prefix_mismatch(t, "Shutter"@, 0);
        reveal_strlit("Shutter");
        reveal_strlit("StrobeEffect");
        lemma_prefix_mismatch(t, "Shutter"@, 0);
        reveal_strlit("Frost");
        lemma_prefix_mismatch(t, "Frost"@, 0);
        reveal_strlit("Frost");
        reveal_strlit("PulseOpen");
        lemma_prefix_mismatch(t, "Frost"@, 0);
        reveal_strlit("Frost");
        reveal_strlit("PulseClose");
        lemma_prefix_mismatch(t, "Frost"@, 0);
        reveal_strlit("Frost");
        reveal_strlit("Ramp");
        lemma_prefix_mismatch(t, "Frost"@, 0);
        reveal_strlit("Prism");
        lemma_prefix_mismatch(t, "Prism"@, 0);
        reveal_strlit("Prism");
        reveal_strlit("SelectSpin");
        lemma_prefix_mismatch(t, "Prism"@, 0);
        reveal_strlit("Prism");
        reveal_strlit("Macro");
        lemma_prefix_mismatch(t, "Prism"@, 0);
        reveal_strlit("Prism");
        reveal_strlit("Pos");
        lemma_prefix_mismatch(t, "Prism"@, 0);
        reveal_strlit("Prism");
        reveal_strlit("PosRotate");
        lemma_prefix_mismatch(t, "Prism"@, 0);
    }
    reveal_strlit("Effects");
    reveal_strlit("Adjust");
    assert forall|i: int| 7 <= i < t.len() implies t[i] != "Adjust"@[0] by {
        if i < 7 + d.len() {
            assert(is_digit(d[i - 7]));
        }
    }
    lemma_no_middle(t, "Effects"@, "Adjust"@);
    lemma_number_after("Effects"@, n);
}

/// An attribute of the numbered family `EffectsRate` reads back from its written
/// name: that text is no standard name, and every numbering rule before the
/// family's own rejects it.
proof fn text_reads_back_effects_rate(n: u8)
    ensures
        attribute_from_text(attribute_text(FixtureChannel3Attribute::EffectsRate(n))) == Some(FixtureChannel3Attribute::EffectsRate(n)),
{
    let d = decimal(n as nat);
    lemma_decimal_digits(n as nat);
    lemma_decimal_len_u8(n as nat);
    let t = attribute_text(FixtureChannel3Attribute::EffectsRate(n));
    reveal_strlit("Effects");
    reveal_strlit("Rate");
    assert(t == "Effects"@ + d + "Rate"@);
    lemma_exact_none_with_digit(t, 7);
    reveal(numbered_attribute_2);
    assert(numbered_attribute_0(t) is None) by {
        reveal(numbered_attribute_0);
        reveal_strlit("Gobo");
        lemma_prefix_mismatch(t, "Gobo"@, 0);
        reveal_strlit("Gobo");
        reveal_strlit("SelectSpin");
        lemma_prefix_mismatch(t, "Gobo"@, 0);
        reveal_strlit("Gobo");
        reveal_strlit("SelectShake");
        lemma_prefix_mismatch(t, "Gobo"@, 0);
        reveal_strlit("Gobo");
        reveal_strlit("SelectEffects");
        lemma_prefix_mismatch(t, "Gobo"@, 0);
        reveal_strlit("Gobo");
        reveal_strlit("WheelIndex");
        lemma_prefix_mismatch(t, "Gobo"@, 0);
        reveal_strlit("Gobo");
        reveal_strlit("WheelSpin");
        lemma_prefix_mismatch(t, "Gobo"@, 0);
        reveal_strlit("Gobo");
        reveal_strlit("WheelShake");
        lemma_prefix_mismatch(t, "Gobo"@, 0);
        reveal_strlit("Gobo");
        reveal_strlit("WheelRandom");
        lemma_prefix_mismatch(t, "Gobo"@, 0);
        reveal_strlit("Gobo");
        reveal_strlit("WheelAudio");
        lemma_prefix_mismatch(t, "Gobo"@, 0);
        reveal_strlit("Gobo");
        reveal_strlit("Pos");
        lemma_prefix_mismatch(t, "Gobo"@, 0);
        reveal_strlit("Gobo");
        reveal_strlit("PosRotate");
        lemma_prefix_mismatch(t, "Gobo"@, 0);
        reveal_strlit("Gobo");
        reveal_strlit("PosShake");
        lemma_prefix_mismatch(t, "Gobo"@, 0);
        reveal_strlit("AnimationWheel");
        lemma_prefix_mismatch(t, "AnimationWheel"@, 0);
        reveal_strlit("AnimationWheel");
        reveal_strlit("Audio");
        lemma_prefix_mismatch(t, "AnimationWheel"@, 0);
        reveal_strlit("AnimationWheel");
        reveal_strlit("Macro");
        lemma_prefix_mismatch(t, "AnimationWheel"@, 0);
        reveal_strlit("AnimationWheel");
        reveal_strlit("Random");
        lemma_prefix_mismatch(t, "AnimationWheel"@, 0);
        reveal_strlit("AnimationWheel");
        reveal_strlit("SelectEffects");
        lemma_prefix_mismatch(t, "AnimationWheel"@, 0);
        reveal_strlit("AnimationWheel");
        reveal_strlit("SelectShake");
        lemma_prefix_mismatch(t, "AnimationWheel"@, 0);
        reveal_strlit("AnimationWheel");
        reveal_strlit("SelectSpin");
        lemma_prefix_mismatch(t, "AnimationWheel"@, 0);
        reveal_strlit("AnimationWheel");
        reveal_strlit("Pos");
        lemma_prefix_mismatch(t, "AnimationWheel"@, 0);
        reveal_strlit("AnimationWheel");
        reveal_strlit("PosRotate");
        lemma_prefix_mismatch(t, "AnimationWheel"@, 0);
        reveal_strlit("AnimationWheel");
        reveal_strlit("PosShake");
        lemma_prefix_mismatch(t, "AnimationWheel"@, 0);
        reveal_strlit("AnimationSystem");
        lemma_prefix_mismatch(t, "AnimationSystem"@, 0);
        reveal_strlit("AnimationSystem");
        reveal_strlit("Ramp");
        lemma_prefix_mismatch(t, "AnimationSystem"@, 0);
        reveal_strlit("AnimationSystem");
        reveal_strlit("Shake");
        lemma_prefix_mismatch(t, "AnimationSystem"@, 0);
        reveal_strlit("AnimationSystem");
        reveal_strlit("Audio");
        lemma_prefix_mismatch(t, "AnimationSystem"@, 0);
        reveal_strlit("AnimationSystem");
        reveal_strlit("Random");
        lemma_prefix_mismatch(t, "AnimationSystem"@, 0);
        reveal_strlit("AnimationSystem");
        reveal_strlit("Pos");
        lemma_prefix_mismatch(t, "AnimationSystem"@, 0);
        reveal_strlit("AnimationSystem");
        reveal_strlit("PosRotate");
        lemma_prefix_mismatch(t, "AnimationSystem"@, 0);
        reveal_strlit("AnimationSystem");
        reveal_strlit("PosShake");
        lemma_prefix_mismatch(t, "AnimationSystem"@, 0);
        reveal_strlit("AnimationSystem");
        reveal_strlit("PosRandom");
        lemma_prefix_mismatch(t, "AnimationSystem"@, 0);
        reveal_strlit("AnimationSystem");
        reveal_strlit("PosAudio");
        lemma_prefix_mismatch(t, "AnimationSystem"@, 0);
    }
    assert(numbered_attribute_1(t) is None) by {
        reveal(numbered_attribute_1);
        reveal_strlit("AnimationSystem");
        reveal_strlit("Macro");
        lemma_prefix_mismatch(t, "AnimationSystem"@, 0);
        reveal_strlit("MediaFolder");
        lemma_prefix_mismatch(t, "MediaFolder"@, 0);
        reveal_strlit("MediaContent");
        lemma_prefix_mismatch(t, "MediaContent"@, 0);
        reveal_strlit("ModelFolder");
        lemma_prefix_mismatch(t, "ModelFolder"@, 0);
        reveal_strlit("ModelContent");
        lemma_prefix_mismatch(t, "ModelContent"@, 0);
        reveal_strlit("ColorEffects");
        lemma_prefix_mismatch(t, "ColorEffects"@, 0);
        reveal_strlit("Color");
        lemma_prefix_mismatch(t, "Color"@, 0);
        reveal_strlit("Color");
        reveal_strlit("WheelIndex");
        lemma_prefix_mismatch(t, "Color"@, 0);
        reveal_strlit("Color");
        reveal_strlit("WheelSpin");
        lemma_prefix_mismatch(t, "Color"@, 0);
        reveal_strlit("Color");
        reveal_strlit("WheelRandom");
        lemma_prefix_mismatch(t, "Color"@, 0);
        reveal_strlit("Color");
        reveal_strlit("WheelAudio");
        lemma_prefix_mismatch(t, "Color"@, 0);
        reveal_strlit("ColorMacro");
        lemma_prefix_mismatch(t, "ColorMacro"@, 0);
        reveal_strlit("ColorMacro");
        reveal_strlit("Rate");
        lemma_prefix_mismatch(t, "ColorMacro"@, 0);
        reveal_strlit("Shutter");
        lemma_prefix_mismatch(t, "Shutter"@, 0);
        reveal_strlit("Shutter");
        reveal_strlit("Strobe");
        lemma_prefix_mismatch(t, "Shutter"@, 0);
        reveal_strlit("Shutter");
        reveal_strlit("StrobePulse");
        lemma_prefix_mismatch(t, "Shutter"@, 0);
        reveal_strlit("Shutter");
        reveal_strlit("StrobePulseClose");
        lemma_prefix_mismatch(t, "Shutter"@, 0);
        reveal_strlit("Shutter");
        reveal_strlit("StrobePulseOpen");
        lemma_prefix_mismatch(t, "Shutter"@, 0);
        reveal_strlit("Shutter");
        reveal_strlit("StrobeRandom");
        lemma_prefix_mismatch(t, "Shutter"@, 0);
        reveal_strlit("Shutter");
        reveal_strlit("StrobeRandomPulse");
        lemma_prefix_mismatch(t, "Shutter"@, 0);
        reveal_strlit("Shutter");
        reveal_strlit("StrobeRandomPulseClose");
        lemma_prefix_mismatch(t, "Shutter"@, 0);
        reveal_strlit("Shutter");
        reveal_strlit("StrobeRandomPulseOpen");
        lemma_prefix_mismatch(t, "Shutter"@, 0);
        reveal_strlit("Shutter");
        reveal_strlit("StrobeEffect");
        lemma_prefix_mismatch(t, "Shutter"@, 0);
        reveal_strlit("Frost");
        lemma_prefix_mismatch(t, "Frost"@, 0);
        reveal_strlit("Frost");
        reveal_strlit("PulseOpen");
        lemma_prefix_mismatch(t, "Frost"@, 0);
        reveal_strlit("Frost");
        reveal_strlit("PulseClose");
        lemma_prefix_mismatch(t, "Frost"@, 0);
        reveal_strlit("Frost");
        reveal_strlit("Ramp");
        lemma_prefix_mismatch(t, "Frost"@, 0);
        reveal_strlit("Prism");
        lemma_prefix_mismatch(t, "Prism"@, 0);
        reveal_strlit("Prism");
        reveal_strlit("SelectSpin");
        lemma_prefix_mismatch(t, "Prism"@, 0);
        reveal_strlit("Prism");
        reveal_strlit("Macro");
        lemma_prefix_mismatch(t, "Prism"@, 0);
        reveal_strlit("Prism");
        reveal_strlit("Pos");
        lemma_prefix_mismatch(t, "Prism"@, 0);
        reveal_strlit("Prism");
        reveal_strlit("PosRotate");
        lemma_prefix_mismatch(t, "Prism"@, 0);
    }
    reveal_strlit("Effects");
    reveal_strlit("Adjust");
    assert forall|i: int| 7 <= i < t.len() implies t[i] != "Adjust"@[0] by {
        if i < 7 + d.len() {
            assert(is_digit(d[i - 7]));
        }
    }
    lemma_no_middle(t, "Effects"@, "Adjust"@);
    reveal_strlit("Effects");
    lemma_rest_not_number(t, "Effects"@, d.len() as int);
    lemma_number_between("Effects"@, "Rate"@, n);
}

/// An attribute of the numbered family `EffectsFade` reads back from its written
/// name: that text is no standard name, and every numbering rule before the
/// family's own rejects it.
proof fn text_reads_back_effects_fade(n: u8)
    ensures
        attribute_from_text(attribute_text(FixtureChannel3Attribute::EffectsFade(n))) == Some(FixtureChannel3Attribute::EffectsFade(n)),
{
    let d = decimal(n as nat);
    lemma_decimal_digits(n as nat);
    lemma_decimal_len_u8(n as nat);
    let t = attribute_text(FixtureChannel3Attribute::EffectsFade(n));
    reveal_strlit("Effects");
    reveal_strlit("Fade");
    assert(t == "Effects"@ + d + "Fade"@);
    lemma_exact_none_with_digit(t, 7);
    reveal(numbered_attribute_2);
    assert(numbered_attribute_0(t) is None) by {
        reveal(numbered_attribute_0);
        reveal_strlit("Gobo");
        lemma_prefix_mismatch(t, "Gobo"@, 0);
        reveal_strlit("Gobo");
        reveal_strlit("SelectSpin");
        lemma_prefix_mismatch(t, "Gobo"@, 0);
        reveal_strlit("Gobo");
        reveal_strlit("SelectShake");
        lemma_prefix_mismatch(t, "Gobo"@, 0);
        reveal_strlit("Gobo");
        reveal_strlit("SelectEffects");
        lemma_prefix_mismatch(t, "Gobo"@, 0);
        reveal_strlit("Gobo");
        reveal_strlit("WheelIndex");
        lemma_prefix_mismatch(t, "Gobo"@, 0);
        reveal_strlit("Gobo");
        reveal_strlit("WheelSpin");
        lemma_prefix_mismatch(t, "Gobo"@, 0);
        reveal_strlit("Gobo");
        reveal_strlit("WheelShake");
        lemma_prefix_mismatch(t, "Gobo"@, 0);
        reveal_strlit("Gobo");
        reveal_strlit("WheelRandom");
        lemma_prefix_mismatch(t, "Gobo"@, 0);
        reveal_strlit("Gobo");
        reveal_strlit("WheelAudio");
        lemma_prefix_mismatch(t, "Gobo"@, 0);
        reveal_strlit("Gobo");
        reveal_strlit("Pos");
        lemma_prefix_mismatch(t, "Gobo"@, 0);
        reveal_strlit("Gobo");
        reveal_strlit("PosRotate");
        lemma_prefix_mismatch(t, "Gobo"@, 0);
        reveal_strlit("Gobo");
        reveal_strlit("PosShake");
        lemma_prefix_mismatch(t, "Gobo"@, 0);
        reveal_strlit("AnimationWheel");
        lemma_prefix_mismatch(t, "AnimationWheel"@, 0);
        reveal_strlit("AnimationWheel");
        reveal_strlit("Audio");
        lemma_prefix_mismatch(t, "AnimationWheel"@, 0);
        reveal_strlit("AnimationWheel");
        reveal_strlit("Macro");
        lemma_prefix_mismatch(t, "AnimationWheel"@, 0);
        reveal_strlit("AnimationWheel");
        reveal_strlit("Random");
        lemma_prefix_mismatch(t, "AnimationWheel"@, 0);
        reveal_strlit("AnimationWheel");
        reveal_strlit("SelectEffects");
        lemma_prefix_mismatch(t, "AnimationWheel"@, 0);
        reveal_strlit("AnimationWheel");
        reveal_strlit("SelectShake");
        lemma_prefix_mismatch(t, "AnimationWheel"@, 0);
        reveal_strlit("AnimationWheel");
        reveal_strlit("SelectSpin");
        lemma_prefix_mismatch(t, "AnimationWheel"@, 0);
        reveal_strlit("AnimationWheel");
        reveal_strlit("Pos");
        lemma_prefix_mismatch(t, "AnimationWheel"@, 0);
        reveal_strlit("AnimationWheel");
        reveal_strlit("PosRotate");
        lemma_prefix_mismatch(t, "AnimationWheel"@, 0);
        reveal_strlit("AnimationWheel");
        reveal_strlit("PosShake");
        lemma_prefix_mismatch(t, "AnimationWheel"@, 0);
        reveal_strlit("AnimationSystem");
        lemma_prefix_mismatch(t, "AnimationSystem"@, 0);
        reveal_strlit("AnimationSystem");
        reveal_strlit("Ramp");
        lemma_prefix_mismatch(t, "AnimationSystem"@, 0);
        reveal_strlit("AnimationSystem");
        reveal_strlit("Shake");
        lemma_prefix_mismatch(t, "AnimationSystem"@, 0);
        reveal_strlit("AnimationSystem");
        reveal_strlit("Audio");
        lemma_prefix_mismatch(t, "AnimationSystem"@, 0);
        reveal_strlit("AnimationSystem");
        reveal_strlit("Random");
        lemma_prefix_mismatch(t, "AnimationSystem"@, 0);
        reveal_strlit("AnimationSystem");
        reveal_strlit("Pos");
        lemma_prefix_mismatch(t, "AnimationSystem"@, 0);
        reveal_strlit("AnimationSystem");
        reveal_strlit("PosRotate");
        lemma_prefix_mismatch(t, "AnimationSystem"@, 0);
        reveal_strlit("AnimationSystem");
        reveal_strlit("PosShake");
        lemma_prefix_mismatch(t, "AnimationSystem"@, 0);
        reveal_strlit("AnimationSystem");
        reveal_strlit("PosRandom");
        lemma_prefix_mismatch(t, "AnimationSystem"@, 0);
        reveal_strlit("AnimationSystem");
        reveal_strlit("PosAudio");
        lemma_prefix_mismatch(t, "AnimationSystem"@, 0);
    }
    assert(numbered_attribute_1(t) is None) by {
        reveal(numbered_attribute_1);
        reveal_strlit("AnimationSystem");
        reveal_strlit("Macro");
        lemma_prefix_mismatch(t, "AnimationSystem"@, 0);
        reveal_strlit("MediaFolder");
        lemma_prefix_mismatch(t, "MediaFolder"@, 0);
        reveal_strlit("MediaContent");
        lemma_prefix_mismatch(t, "MediaContent"@, 0);
        reveal_strlit("ModelFolder");
        lemma_prefix_mismatch(t, "ModelFolder"@, 0);
        reveal_strlit("ModelContent");
        lemma_prefix_mismatch(t, "ModelContent"@, 0);
        reveal_strlit("ColorEffects");
        lemma_prefix_mismatch(t, "ColorEffects"@, 0);
        reveal_strlit("Color");
        lemma_prefix_mismatch(t, "Color"@, 0);
        reveal_strlit("Color");
        reveal_strlit("WheelIndex");
        lemma_prefix_mismatch(t, "Color"@, 0);
        reveal_strlit("Color");
        reveal_strlit("WheelSpin");
        lemma_prefix_mismatch(t, "Color"@, 0);
        reveal_strlit("Color");
        reveal_strlit("WheelRandom");
        lemma_prefix_mismatch(t, "Color"@, 0);
        reveal_strlit("Color");
        reveal_strlit("WheelAudio");
        lemma_prefix_mismatch(t, "Color"@, 0);
        reveal_strlit("ColorMacro");
        lemma_prefix_mismatch(t, "ColorMacro"@, 0);
        reveal_strlit("ColorMacro");
        reveal_strlit("Rate");
        lemma_prefix_mismatch(t, "ColorMacro"@, 0);
        reveal_strlit("Shutter");
        lemma_prefix_mismatch(t, "Shutter"@, 0);
        reveal_strlit("Shutter");
        reveal_strlit("Strobe");
        lemma_prefix_mismatch(t, "Shutter"@, 0);
        reveal_strlit("Shutter");
        reveal_strlit("StrobePulse");
        lemma_prefix_mismatch(t, "Shutter"@, 0);
        reveal_strlit("Shutter");
        reveal_strlit("StrobePulseClose");
        lemma_prefix_mismatch(t, "Shutter"@, 0);
        reveal_strlit("Shutter");
        reveal_strlit("StrobePulseOpen");
        lemma_prefix_mismatch(t, "Shutter"@, 0);
        reveal_strlit("Shutter");
        reveal_strlit("StrobeRandom");
        lemma_prefix_mismatch(t, "Shutter"@, 0);
        reveal_strlit("Shutter");
        reveal_strlit("StrobeRandomPulse");
        lemma_prefix_mismatch(t, "Shutter"@, 0);
        reveal_strlit("Shutter");
        reveal_strlit("StrobeRandomPulseClose");
        lemma_prefix_mismatch(t, "Shutter"@, 0);
        reveal_strlit("Shutter");
        reveal_strlit("StrobeRandomPulseOpen");
        lemma_prefix_mismatch(t, "Shutter"@, 0);
        reveal_strlit("Shutter");
        reveal_strlit("StrobeEffect");
        lemma_prefix_mismatch(t, "Shutter"@, 0);
        reveal_strlit("Frost");
        lemma_prefix_mismatch(t, "Frost"@, 0);
        reveal_strlit("Frost");
        reveal_strlit("PulseOpen");
        lemma_prefix_mismatch(t, "Frost"@, 0);
        reveal_strlit("Frost");
        reveal_strlit("PulseClose");
        lemma_prefix_mismatch(t, "Frost"@, 0);
        reveal_strlit("Frost");
        reveal_strlit("Ramp");
        lemma_prefix_mismatch(t, "Frost"@, 0);
        reveal_strlit("Prism");
        lemma_prefix_mismatch(t, "Prism"@, 0);
        reveal_strlit("Prism");
        reveal_strlit("SelectSpin");
        lemma_prefix_mismatch(t, "Prism"@, 0);
        reveal_strlit("Prism");
        reveal_strlit("Macro");
        lemma_prefix_mismatch(t, "Prism"@, 0);
        reveal_strlit("Prism");
        reveal_strlit("Pos");
        lemma_prefix_mismatch(t, "Prism"@, 0);
        reveal_strlit("Prism");
        reveal_strlit("PosRotate");
        lemma_prefix_mismatch(t, "Prism"@, 0);
    }
    reveal_strlit("Effects");
    reveal_strlit("Adjust");
    assert forall|i: int| 7 <= i < t.len() implies t[i] != "Adjust"@[0] by {
        if i < 7 + d.len() {
            assert(is_digit(d[i - 7]));
        }
    }
    lemma_no_middle(t, "Effects"@, "Adjust"@);
    reveal_strlit("Effects");
    lemma_rest_not_number(t, "Effects"@, d.len() as int);
    reveal_strlit("Effects");
    reveal_strlit("Rate");
    lemma_suffix_mismatch(t, "Effects"@, "Rate"@, 1);
    lemma_number_between("Effects"@, "Fade"@, n);
}

/// An attribute of the numbered family `EffectsAdjust` reads back from its written
/// name: that text is no standard name, and every numbering rule before the
/// family's own rejects it.
proof fn text_reads_back_effects_adjust(n: u8, m: u8)
    ensures
        attribute_from_text(attribute_text(FixtureChannel3Attribute::EffectsAdjust(n, m))) == Some(FixtureChannel3Attribute::EffectsAdjust(n, m)),
{
    let d = decimal(n as nat);
    let e = decimal(m as nat);
    lemma_decimal_digits(n as nat);
    lemma_decimal_digits(m as nat);
    lemma_decimal_len_u8(n as nat);
    lemma_decimal_len_u8(m as nat);
    let t = attribute_text(FixtureChannel3Attribute::EffectsAdjust(n, m));
    reveal_strlit("Effects");
    reveal_strlit("Adjust");
    assert(t == "Effects"@ + d + "Adjust"@ + e);
    lemma_exact_none_with_digit(t, 7);
    reveal(numbered_attribute_2);
    assert(numbered_attribute_0(t) is None) by {
        reveal(numbered_attribute_0);
        reveal_strlit("Gobo");
        lemma_prefix_mismatch(t, "Gobo"@, 0);
        reveal_strlit("Gobo");
        reveal_strlit("SelectSpin");
        lemma_prefix_mismatch(t, "Gobo"@, 0);
        reveal_strlit("Gobo");
        reveal_strlit("SelectShake");
        lemma_prefix_mismatch(t, "Gobo"@, 0);
        reveal_strlit("Gobo");
        reveal_strlit("SelectEffects");
        lemma_prefix_mismatch(t, "Gobo"@, 0);
        reveal_strlit("Gobo");
        reveal_strlit("WheelIndex");
        lemma_prefix_mismatch(t, "Gobo"@, 0);
        reveal_strlit("Gobo");
        reveal_strlit("WheelSpin");
        lemma_prefix_mismatch(t, "Gobo"@, 0);
        reveal_strlit("Gobo");
        reveal_strlit("WheelShake");
        lemma_prefix_mismatch(t, "Gobo"@, 0);
        reveal_strlit("Gobo");
        reveal_strlit("WheelRandom");
        lemma_prefix_mismatch(t, "Gobo"@, 0);
        reveal_strlit("Gobo");
        reveal_strlit("WheelAudio");
        lemma_prefix_mismatch(t, "Gobo"@, 0);
        reveal_strlit("Gobo");
        reveal_strlit("Pos");
        lemma_prefix_mismatch(t, "Gobo"@, 0);
        reveal_strlit("Gobo");
        reveal_strlit("PosRotate");
        lemma_prefix_mismatch(t, "Gobo"@, 0);
        reveal_strlit("Gobo");
        reveal_strlit("PosShake");
        lemma_prefix_mismatch(t, "Gobo"@, 0);
        reveal_strlit("AnimationWheel");
        lemma_prefix_mismatch(t, "AnimationWheel"@, 0);
        reveal_strlit("AnimationWheel");
        reveal_strlit("Audio");
        lemma_prefix_mismatch(t, "AnimationWheel"@, 0);
        reveal_strlit("AnimationWheel");
        reveal_strlit("Macro");
        lemma_prefix_mismatch(t, "AnimationWheel"@, 0);
        reveal_strlit("AnimationWheel");
        reveal_strlit("Random");
        lemma_prefix_mismatch(t, "AnimationWheel"@, 0);
        reveal_strlit("AnimationWheel");
        reveal_strlit("SelectEffects");
        lemma_prefix_mismatch(t, "AnimationWheel"@, 0);
        reveal_strlit("AnimationWheel");
        reveal_strlit("SelectShake");
        lemma_prefix_mismatch(t, "AnimationWheel"@, 0);
        reveal_strlit("AnimationWheel");
        reveal_strlit("SelectSpin");
        lemma_prefix_mismatch(t, "AnimationWheel"@, 0);
        reveal_strlit("AnimationWheel");
        reveal_strlit("Pos");
        lemma_prefix_mismatch(t, "AnimationWheel"@, 0);
        reveal_strlit("AnimationWheel");
        reveal_strlit("PosRotate");
        lemma_prefix_mismatch(t, "AnimationWheel"@, 0);
        reveal_strlit("AnimationWheel");
        reveal_strlit("PosShake");
        lemma_prefix_mismatch(t, "AnimationWheel"@, 0);
        reveal_strlit("AnimationSystem");
        lemma_prefix_mismatch(t, "AnimationSystem"@, 0);
        reveal_strlit("AnimationSystem");
        reveal_strlit("Ramp");
        lemma_prefix_mismatch(t, "AnimationSystem"@, 0);
        reveal_strlit("AnimationSystem");
        reveal_strlit("Shake");
        lemma_prefix_mismatch(t, "AnimationSystem"@, 0);
        reveal_strlit("AnimationSystem");
        reveal_strlit("Audio");
        lemma_prefix_mismatch(t, "AnimationSystem"@, 0);
        reveal_strlit("AnimationSystem");
        reveal_strlit("Random");
        lemma_prefix_mismatch(t, "AnimationSystem"@, 0);
        reveal_strlit("AnimationSystem");
        reveal_strlit("Pos");
        lemma_prefix_mismatch(t, "AnimationSystem"@, 0);
        reveal_strlit("AnimationSystem");
        reveal_strlit("PosRotate");
        lemma_prefix_mismatch(t, "AnimationSystem"@, 0);
        reveal_strlit("AnimationSystem");
        reveal_strlit("PosShake");
        lemma_prefix_mismatch(t, "AnimationSystem"@, 0);
        reveal_strlit("AnimationSystem");
        reveal_strlit("PosRandom");
        lemma_prefix_mismatch(t, "AnimationSystem"@, 0);
        reveal_strlit("AnimationSystem");
        reveal_strlit("PosAudio");
        lemma_prefix_mismatch(t, "AnimationSystem"@, 0);
    }
    assert(numbered_attribute_1(t) is None) by {
        reveal(numbered_attribute_1);
        reveal_strlit("AnimationSystem");
        reveal_strlit("Macro");
        lemma_prefix_mismatch(t, "AnimationSystem"@, 0);
        reveal_strlit("MediaFolder");
        lemma_prefix_mismatch(t, "MediaFolder"@, 0);
        reveal_strlit("MediaContent");
        lemma_prefix_mismatch(t, "MediaContent"@, 0);
        reveal_strlit("ModelFolder");
        lemma_prefix_mismatch(t, "ModelFolder"@, 0);
        reveal_strlit("ModelContent");
        lemma_prefix_mismatch(t, "ModelContent"@, 0);
        reveal_strlit("ColorEffects");
        lemma_prefix_mismatch(t, "ColorEffects"@, 0);
        reveal_strlit("Color");
        lemma_prefix_mismatch(t, "Color"@, 0);
        reveal_strlit("Color");
        reveal_strlit("WheelIndex");
        lemma_prefix_mismatch(t, "Color"@, 0);
        reveal_strlit("Color");
        reveal_strlit("WheelSpin");
        lemma_prefix_mismatch(t, "Color"@, 0);
        reveal_strlit("Color");
        reveal_strlit("WheelRandom");
        lemma_prefix_mismatch(t, "Color"@, 0);
        reveal_strlit("Color");
        reveal_strlit("WheelAudio");
        lemma_prefix_mismatch(t, "Color"@, 0);
        reveal_strlit("ColorMacro");
        lemma_prefix_mismatch(t, "ColorMacro"@, 0);
        reveal_strlit("ColorMacro");
        reveal_strlit("Rate");
        lemma_prefix_mismatch(t, "ColorMacro"@, 0);
        reveal_strlit("Shutter");
        lemma_prefix_mismatch(t, "Shutter"@, 0);
        reveal_strlit("Shutter");
        reveal_strlit("Strobe");
        lemma_prefix_mismatch(t, "Shutter"@, 0);
        reveal_strlit("Shutter");
        reveal_strlit("StrobePulse");
        lemma_prefix_mismatch(t, "Shutter"@, 0);
        reveal_strlit("Shutter");
        reveal_strlit("StrobePulseClose");
        lemma_prefix_mismatch(t, "Shutter"@, 0);
        reveal_strlit("Shutter");
        reveal_strlit("StrobePulseOpen");
        lemma_prefix_mismatch(t, "Shutter"@, 0);
        reveal_strlit("Shutter");
        reveal_strlit("StrobeRandom");
        lemma_prefix_mismatch(t, "Shutter"@, 0);
        reveal_strlit("Shutter");
        reveal_strlit("StrobeRandomPulse");
        lemma_prefix_mismatch(t, "Shutter"@, 0);
        reveal_strlit("Shutter");
        reveal_strlit("StrobeRandomPulseClose");
        lemma_prefix_mismatch(t, "Shutter"@, 0);
        reveal_strlit("Shutter");
        reveal_strlit("StrobeRandomPulseOpen");
        lemma_prefix_mismatch(t, "Shutter"@, 0);
        reveal_strlit("Shutter");
        reveal_strlit("StrobeEffect");
        lemma_prefix_mismatch(t, "Shutter"@, 0);
        reveal_strlit("Frost");
        lemma_prefix_mismatch(t, "Frost"@, 0);
        reveal_strlit("Frost");
        reveal_strlit("PulseOpen");
        lemma_prefix_mismatch(t, "Frost"@, 0);
        reveal_strlit("Frost");
        reveal_strlit("PulseClose");
        lemma_prefix_mismatch(t, "Frost"@, 0);
        reveal_strlit("Frost");
        reveal_strlit("Ramp");
        lemma_prefix_mismatch(t, "Frost"@, 0);
        reveal_strlit("Prism");
        lemma_prefix_mismatch(t, "Prism"@, 0);
        reveal_strlit("Prism");
        reveal_strlit("SelectSpin");
        lemma_prefix_mismatch(t, "Prism"@, 0);
        reveal_strlit("Prism");
        reveal_strlit("Macro");
        lemma_prefix_mismatch(t, "Prism"@, 0);
        reveal_strlit("Prism");
        reveal_strlit("Pos");
        lemma_prefix_mismatch(t, "Prism"@, 0);
        reveal_strlit("Prism");
        reveal_strlit("PosRotate");
        lemma_prefix_mismatch(t, "Prism"@, 0);
    }
    lemma_numbers_around("Effects"@, "Adjust"@, n, m);
}

/// An attribute of the numbered family `EffectsPos` reads back from its written
/// name: that text is no standard name, and every numbering rule before the
/// family's own rejects it.
proof fn text_reads_back_effects_pos(n: u8)
    ensures
        attribute_from_text(attribute_text(FixtureChannel3Attribute::EffectsPos(n))) == Some(FixtureChannel3Attribute::EffectsPos(n)),
{
    let d = decimal(n as nat);
    lemma_decimal_digits(n as nat);
    lemma_decimal_len_u8(n as nat);
    let t = attribute_text(FixtureChannel3Attribute::EffectsPos(n));
    reveal_strlit("Effects");
    reveal_strlit("Pos");
    assert(t == "Effects"@ + d + "Pos"@);
    lemma_exact_none_with_digit(t, 7);
    reveal(numbered_attribute_2);
    assert(numbered_attribute_0(t) is None) by {
        reveal(numbered_attribute_0);
        reveal_strlit("Gobo");
        lemma_prefix_mismatch(t, "Gobo"@, 0);
        reveal_strlit("Gobo");
        reveal_strlit("SelectSpin");
        lemma_prefix_mismatch(t, "Gobo"@, 0);
        reveal_strlit("Gobo");
        reveal_strlit("SelectShake");
        lemma_prefix_mismatch(t, "Gobo"@, 0);
        reveal_strlit("Gobo");
        reveal_strlit("SelectEffects");
        lemma_prefix_mismatch(t, "Gobo"@, 0);
        reveal_strlit("Gobo");
        reveal_strlit("WheelIndex");
        lemma_prefix_mismatch(t, "Gobo"@, 0);
        reveal_strlit("Gobo");
        reveal_strlit("WheelSpin");
        lemma_prefix_mismatch(t, "Gobo"@, 0);
        reveal_strlit("Gobo");
        reveal_strlit("WheelShake");
        lemma_prefix_mismatch(t, "Gobo"@, 0);
        reveal_strlit("Gobo");
        reveal_strlit("WheelRandom");
        lemma_prefix_mismatch(t, "Gobo"@, 0);
        reveal_strlit("Gobo");
        reveal_strlit("WheelAudio");
        lemma_prefix_mismatch(t, "Gobo"@, 0);
        reveal_strlit("Gobo");
        reveal_strlit("Pos");
        lemma_prefix_mismatch(t, "Gobo"@, 0);
        reveal_strlit("Gobo");
        reveal_strlit("PosRotate");
        lemma_prefix_mismatch(t, "Gobo"@, 0);
        reveal_strlit("Gobo");
        reveal_strlit("PosShake");
        lemma_prefix_mismatch(t, "Gobo"@, 0);
        reveal_strlit("AnimationWheel");
        lemma_prefix_mismatch(t, "AnimationWheel"@, 0);
        reveal_strlit("AnimationWheel");
        reveal_strlit("Audio");
        lemma_prefix_mismatch(t, "AnimationWheel"@, 0);
        reveal_strlit("AnimationWheel");
        reveal_strlit("Macro");
        lemma_prefix_mismatch(t, "AnimationWheel"@, 0);
        reveal_strlit("AnimationWheel");
        reveal_strlit("Random");
        lemma_prefix_mismatch(t, "AnimationWheel"@, 0);
        reveal_strlit("AnimationWheel");
        reveal_strlit("SelectEffects");
        lemma_prefix_mismatch(t, "AnimationWheel"@, 0);
        reveal_strlit("AnimationWheel");
        reveal_strlit("SelectShake");
        lemma_prefix_mismatch(t, "AnimationWheel"@, 0);
        reveal_strlit("AnimationWheel");
        reveal_strlit("SelectSpin");
        lemma_prefix_mismatch(t, "AnimationWheel"@, 0);
        reveal_strlit("AnimationWheel");
        reveal_strlit("Pos");
        lemma_prefix_mismatch(t, "AnimationWheel"@, 0);
        reveal_strlit("AnimationWheel");
        reveal_strlit("PosRotate");
        lemma_prefix_mismatch(t, "AnimationWheel"@, 0);
        reveal_strlit("AnimationWheel");
        reveal_strlit("PosShake");
        lemma_prefix_mismatch(t, "AnimationWheel"@, 0);
        reveal_strlit("AnimationSystem");
        lemma_prefix_mismatch(t, "AnimationSystem"@, 0);
        reveal_strlit("AnimationSystem");
        reveal_strlit("Ramp");
        lemma_prefix_mismatch(t, "AnimationSystem"@, 0);
        reveal_strlit("AnimationSystem");
        reveal_strlit("Shake");
        lemma_prefix_mismatch(t, "AnimationSystem"@, 0);
        reveal_strlit("AnimationSystem");
        reveal_strlit("Audio");
        lemma_prefix_mismatch(t, "AnimationSystem"@, 0);
        reveal_strlit("AnimationSystem");
        reveal_strlit("Random");
        lemma_prefix_mismatch(t, "AnimationSystem"@, 0);
        reveal_strlit("AnimationSystem");
        reveal_strlit("Pos");
        lemma_prefix_mismatch(t, "AnimationSystem"@, 0);
        reveal_strlit("AnimationSystem");
        reveal_strlit("PosRotate");
        lemma_prefix_mismatch(t, "AnimationSystem"@, 0);
        reveal_strlit("AnimationSystem");
        reveal_strlit("PosShake");
        lemma_prefix_mismatch(t, "AnimationSystem"@, 0);
        reveal_strlit("AnimationSystem");
        reveal_strlit("PosRandom");
        lemma_prefix_mismatch(t, "AnimationSystem"@, 0);
        reveal_strlit("AnimationSystem");
        reveal_strlit("PosAudio");
        lemma_prefix_mismatch(t, "AnimationSystem"@, 0);
    }
    assert(numbered_attribute_1(t) is None) by {
        reveal(numbered_attribute_1);
        reveal_strlit("AnimationSystem");
        reveal_strlit("Macro");
        lemma_prefix_mismatch(t, "AnimationSystem"@, 0);
        reveal_strlit("MediaFolder");
        lemma_prefix_mismatch(t, "MediaFolder"@, 0);
        reveal_strlit("MediaContent");
        lemma_prefix_mismatch(t, "MediaContent"@, 0);
        reveal_strlit("ModelFolder");
        lemma_prefix_mismatch(t, "ModelFolder"@, 0);
        reveal_strlit("ModelContent");
        lemma_prefix_mismatch(t, "ModelContent"@, 0);
        reveal_strlit("ColorEffects");
        lemma_prefix_mismatch(t, "ColorEffects"@, 0);
        reveal_strlit("Color");
        lemma_prefix_mismatch(t, "Color"@, 0);
        reveal_strlit("Color");
        reveal_strlit("WheelIndex");
        lemma_prefix_mismatch(t, "Color"@, 0);
        reveal_strlit("Color");
        reveal_strlit("WheelSpin");
        lemma_prefix_mismatch(t, "Color"@, 0);
        reveal_strlit("Color");
        reveal_strlit("WheelRandom");
        lemma_prefix_mismatch(t, "Color"@, 0);
        reveal_strlit("Color");
        reveal_strlit("WheelAudio");
        lemma_prefix_mismatch(t, "Color"@, 0);
        reveal_strlit("ColorMacro");
        lemma_prefix_mismatch(t, "ColorMacro"@, 0);
        reveal_strlit("ColorMacro");
        reveal_strlit("Rate");
        lemma_prefix_mismatch(t, "ColorMacro"@, 0);
        reveal_strlit("Shutter");
        lemma_prefix_mismatch(t, "Shutter"@, 0);
        reveal_strlit("Shutter");
        reveal_strlit("Strobe");
        lemma_prefix_mismatch(t, "Shutter"@, 0);
        reveal_strlit("Shutter");
        reveal_strlit("StrobePulse");
        lemma_prefix_mismatch(t, "Shutter"@, 0);
        reveal_strlit("Shutter");
        reveal_strlit("StrobePulseClose");
        lemma_prefix_mismatch(t, "Shutter"@, 0);
        reveal_strlit("Shutter");
        reveal_strlit("StrobePulseOpen");
        lemma_prefix_mismatch(t, "Shutter"@, 0);
        reveal_strlit("Shutter");
        reveal_strlit("StrobeRandom");
        lemma_prefix_mismatch(t, "Shutter"@, 0);
        reveal_strlit("Shutter");
        reveal_strlit("StrobeRandomPulse");
        lemma_prefix_mismatch(t, "Shutter"@, 0);
        reveal_strlit("Shutter");
        reveal_strlit("StrobeRandomPulseClose");
        lemma_prefix_mismatch(t, "Shutter"@, 0);
        reveal_strlit("Shutter");
        reveal_strlit("StrobeRandomPulseOpen");
        lemma_prefix_mismatch(t, "Shutter"@, 0);
        reveal_strlit("Shutter");
        reveal_strlit("StrobeEffect");
        lemma_prefix_mismatch(t, "Shutter"@, 0);
        reveal_strlit("Frost");
        lemma_prefix_mismatch(t, "Frost"@, 0);
        reveal_strlit("Frost");
        reveal_strlit("PulseOpen");
        lemma_prefix_mismatch(t, "Frost"@, 0);
        reveal_strlit("Frost");
        reveal_strlit("PulseClose");
        lemma_prefix_mismatch(t, "Frost"@, 0);
        reveal_strlit("Frost");
        reveal_strlit("Ramp");
        lemma_prefix_mismatch(t, "Frost"@, 0);
        reveal_strlit("Prism");
        lemma_prefix_mismatch(t, "Prism"@, 0);
        reveal_strlit("Prism");
        reveal_strlit("SelectSpin");
        lemma_prefix_mismatch(t, "Prism"@, 0);
        reveal_strlit("Prism");
        reveal_strlit("Macro");
        lemma_prefix_mismatch(t, "Prism"@, 0);
        reveal_strlit("Prism");
        reveal_strlit("Pos");
        lemma_prefix_mismatch(t, "Prism"@, 0);
        reveal_strlit("Prism");
        reveal_strlit("PosRotate");
        lemma_prefix_mismatch(t, "Prism"@, 0);
    }
    reveal_strlit("Effects");
    reveal_strlit("Adjust");
    assert forall|i: int| 7 <= i < t.len() implies t[i] != "Adjust"@[0] by {
        if i < 7 + d.len() {
            assert(is_digit(d[i - 7]));
        }
    }
    lemma_no_middle(t, "Effects"@, "Adjust"@);
    reveal_strlit("Effects");
    lemma_rest_not_number(t, "Effects"@, d.len() as int);
    reveal_strlit("Effects");
    reveal_strlit("Rate");
    lemma_suffix_mismatch(t, "Effects"@, "Rate"@, 0);
    reveal_strlit("Effects");
    reveal_strlit("Fade");
    lemma_suffix_mismatch(t, "Effects"@, "Fade"@, 0);
    lemma_number_between("Effects"@, "Pos"@, n);
}

/// An attribute of the numbered family `EffectsPosRotate` reads back from its written
/// name: that text is no standard name, and every numbering rule before the
/// family's own rejects it.
proof fn text_reads_back_effects_pos_rotate(n: u8)
    ensures
        attribute_from_text(attribute_text(FixtureChannel3Attribute::EffectsPosRotate(n))) == Some(FixtureChannel3Attribute::EffectsPosRotate(n)),
{
    let d = decimal(n as nat);
    lemma_decimal_digits(n as nat);
    lemma_decimal_len_u8(n as nat);
    let t = attribute_text(FixtureChannel3Attribute::EffectsPosRotate(n));
    reveal_strlit("Effects");
    reveal_strlit("PosRotate");
    assert(t == "Effects"@ + d + "PosRotate"@);
    lemma_exact_none_with_digit(t, 7);
    reveal(numbered_attribute_2);
    assert(numbered_attribute_0(t) is None) by {
        reveal(numbered_attribute_0);
        reveal_strlit("Gobo");
        lemma_prefix_mismatch(t, "Gobo"@, 0);
        reveal_strlit("Gobo");
        reveal_strlit("SelectSpin");
        lemma_prefix_mismatch(t, "Gobo"@, 0);
        reveal_strlit("Gobo");
        reveal_strlit("SelectShake");
        lemma_prefix_mismatch(t, "Gobo"@, 0);
        reveal_strlit("Gobo");
        reveal_strlit("SelectEffects");
        lemma_prefix_mismatch(t, "Gobo"@, 0);
        reveal_strlit("Gobo");
        reveal_strlit("WheelIndex");
        lemma_prefix_mismatch(t, "Gobo"@, 0);
        reveal_strlit("Gobo");
        reveal_strlit("WheelSpin");
        lemma_prefix_mismatch(t, "Gobo"@, 0);
        reveal_strlit("Gobo");
        reveal_strlit("WheelShake");
        lemma_prefix_mismatch(t, "Gobo"@, 0);
        reveal_strlit("Gobo");
        reveal_strlit("WheelRandom");
        lemma_prefix_mismatch(t, "Gobo"@, 0);
        reveal_strlit("Gobo");
        reveal_strlit("WheelAudio");
        lemma_prefix_mismatch(t, "Gobo"@, 0);
        reveal_strlit("Gobo");
        reveal_strlit("Pos");
        lemma_prefix_mismatch(t, "Gobo"@, 0);
        reveal_strlit("Gobo");
        reveal_strlit("PosRotate");
        lemma_prefix_mismatch(t, "Gobo"@, 0);
        reveal_strlit("Gobo");
        reveal_strlit("PosShake");
        lemma_prefix_mismatch(t, "Gobo"@, 0);
        reveal_strlit("AnimationWheel");
        lemma_prefix_mismatch(t, "AnimationWheel"@, 0);
        reveal_strlit("AnimationWheel");
        reveal_strlit("Audio");
        lemma_prefix_mismatch(t, "AnimationWheel"@, 0);
        reveal_strlit("AnimationWheel");
        reveal_strlit("Macro");
        lemma_prefix_mismatch(t, "AnimationWheel"@, 0);
        reveal_strlit("AnimationWheel");
        reveal_strlit("Random");
        lemma_prefix_mismatch(t, "AnimationWheel"@, 0);
        reveal_strlit("AnimationWheel");
        reveal_strlit("SelectEffects");
        lemma_prefix_mismatch(t, "AnimationWheel"@, 0);
        reveal_strlit("AnimationWheel");
        reveal_strlit("SelectShake");
        lemma_prefix_mismatch(t, "AnimationWheel"@, 0);
        reveal_strlit("AnimationWheel");
        reveal_strlit("SelectSpin");
        lemma_prefix_mismatch(t, "AnimationWheel"@, 0);
        reveal_strlit("AnimationWheel");
        reveal_strlit("Pos");
        lemma_prefix_mismatch(t, "AnimationWheel"@, 0);
        reveal_strlit("AnimationWheel");
        reveal_strlit("PosRotate");
        lemma_prefix_mismatch(t, "AnimationWheel"@, 0);
        reveal_strlit("AnimationWheel");
        reveal_strlit("PosShake");
        lemma_prefix_mismatch(t, "AnimationWheel"@, 0);
        reveal_strlit("AnimationSystem");
        lemma_prefix_mismatch(t, "AnimationSystem"@, 0);
        reveal_strlit("AnimationSystem");
        reveal_strlit("Ramp");
        lemma_prefix_mismatch(t, "AnimationSystem"@, 0);
        reveal_strlit("AnimationSystem");
        reveal_strlit("Shake");
        lemma_prefix_mismatch(t, "AnimationSystem"@, 0);
        reveal_strlit("AnimationSystem");
        reveal_strlit("Audio");
        lemma_prefix_mismatch(t, "AnimationSystem"@, 0);
        reveal_strlit("AnimationSystem");
        reveal_strlit("Random");
        lemma_prefix_mismatch(t, "AnimationSystem"@, 0);
        reveal_strlit("AnimationSystem");
        reveal_strlit("Pos");
        lemma_prefix_mismatch(t, "AnimationSystem"@, 0);
        reveal_strlit("AnimationSystem");
        reveal_strlit("PosRotate");
        lemma_prefix_mismatch(t, "AnimationSystem"@, 0);
        reveal_strlit("AnimationSystem");
        reveal_strlit("PosShake");
        lemma_prefix_mismatch(t, "AnimationSystem"@, 0);
        reveal_strlit("AnimationSystem");
        reveal_strlit("PosRandom");
        lemma_prefix_mismatch(t, "AnimationSystem"@, 0);
        reveal_strlit("AnimationSystem");
        reveal_strlit("PosAudio");
        lemma_prefix_mismatch(t, "AnimationSystem"@, 0);
    }
    assert(numbered_attribute_1(t) is None) by {
        reveal(numbered_attribute_1);
        reveal_strlit("AnimationSystem");
        reveal_strlit("Macro");
        lemma_prefix_mismatch(t, "AnimationSystem"@, 0);
        reveal_strlit("MediaFolder");
        lemma_prefix_mismatch(t, "MediaFolder"@, 0);
        reveal_strlit("MediaContent");
        lemma_prefix_mismatch(t, "MediaContent"@, 0);
        reveal_strlit("ModelFolder");
        lemma_prefix_mismatch(t, "ModelFolder"@, 0);
        reveal_strlit("ModelContent");
        lemma_prefix_mismatch(t, "ModelContent"@, 0);
        reveal_strlit("ColorEffects");
        lemma_prefix_mismatch(t, "ColorEffects"@, 0);
        reveal_strlit("Color");
        lemma_prefix_mismatch(t, "Color"@, 0);
        reveal_strlit("Color");
        reveal_strlit("WheelIndex");
        lemma_prefix_mismatch(t, "Color"@, 0);
        reveal_strlit("Color");
        reveal_strlit("WheelSpin");
        lemma_prefix_mismatch(t, "Color"@, 0);
        reveal_strlit("Color");
        reveal_strlit("WheelRandom");
        lemma_prefix_mismatch(t, "Color"@, 0);
        reveal_strlit("Color");
        reveal_strlit("WheelAudio");
        lemma_prefix_mismatch(t, "Color"@, 0);
        reveal_strlit("ColorMacro");
        lemma_prefix_mismatch(t, "ColorMacro"@, 0);
        reveal_strlit("ColorMacro");
        reveal_strlit("Rate");
        lemma_prefix_mismatch(t, "ColorMacro"@, 0);
        reveal_strlit("Shutter");
        lemma_prefix_mismatch(t, "Shutter"@, 0);
        reveal_strlit("Shutter");
        reveal_strlit("Strobe");
        lemma_prefix_mismatch(t, "Shutter"@, 0);
        reveal_strlit("Shutter");
        reveal_strlit("StrobePulse");
        lemma_prefix_mismatch(t, "Shutter"@, 0);
        reveal_strlit("Shutter");
        reveal_strlit("StrobePulseClose");
        lemma_prefix_mismatch(t, "Shutter"@, 0);
        reveal_strlit("Shutter");
        reveal_strlit("StrobePulseOpen");
        lemma_prefix_mismatch(t, "Shutter"@, 0);
        reveal_strlit("Shutter");
        reveal_strlit("StrobeRandom");
        lemma_prefix_mismatch(t, "Shutter"@, 0);
        reveal_strlit("Shutter");
        reveal_strlit("StrobeRandomPulse");
        lemma_prefix_mismatch(t, "Shutter"@, 0);
        reveal_strlit("Shutter");
        reveal_strlit("StrobeRandomPulseClose");
        lemma_prefix_mismatch(t, "Shutter"@, 0);
        reveal_strlit("Shutter");
        reveal_strlit("StrobeRandomPulseOpen");
        lemma_prefix_mismatch(t, "Shutter"@, 0);
        reveal_strlit("Shutter");
        reveal_strlit("StrobeEffect");
        lemma_prefix_mismatch(t, "Shutter"@, 0);
        reveal_strlit("Frost");
        lemma_prefix_mismatch(t, "Frost"@, 0);
        reveal_strlit("Frost");
        reveal_strlit("PulseOpen");
        lemma_prefix_mismatch(t, "Frost"@, 0);
        reveal_strlit("Frost");
        reveal_strlit("PulseClose");
        lemma_prefix_mismatch(t, "Frost"@, 0);
        reveal_strlit("Frost");
        reveal_strlit("Ramp");
        lemma_prefix_mismatch(t, "Frost"@, 0);
        reveal_strlit("Prism");
        lemma_prefix_mismatch(t, "Prism"@, 0);
        reveal_strlit("Prism");
        reveal_strlit("SelectSpin");
        lemma_prefix_mismatch(t, "Prism"@, 0);
        reveal_strlit("Prism");
        reveal_strlit("Macro");
        lemma_prefix_mismatch(t, "Prism"@, 0);
        reveal_strlit("Prism");
        reveal_strlit("Pos");
        lemma_prefix_mismatch(t, "Prism"@, 0);
        reveal_strlit("Prism");
        reveal_strlit("PosRotate");
        lemma_prefix_mismatch(t, "Prism"@, 0);
    }
    reveal_strlit("Effects");
    reveal_strlit("Adjust");
    assert forall|i: int| 7 <= i < t.len() implies t[i] != "Adjust"@[0] by {
        if i < 7 + d.len() {
            assert(is_digit(d[i - 7]));
        }
    }
    lemma_no_middle(t, "Effects"@, "Adjust"@);
    reveal_strlit("Effects");
    lemma_rest_not_number(t, "Effects"@, d.len() as int);
    reveal_strlit("Effects");
    reveal_strlit("Rate");
    lemma_suffix_mismatch(t, "Effects"@, "Rate"@, 3);
    reveal_strlit("Effects");
    reveal_strlit("Fade");
    lemma_suffix_mismatch(t, "Effects"@, "Fade"@, 1);
    reveal_strlit("Effects");
    reveal_strlit("Pos");
    lemma_suffix_mismatch(t, "Effects"@, "Pos"@, 0);
    lemma_number_between("Effects"@, "PosRotate"@, n);
}

/// An attribute of the numbered family `Focus` reads back from its written
/// name: that text is no standard name, and every numbering rule before the
/// family's own rejects it.
proof fn text_reads_back_focus(n: u8)
    ensures
        attribute_from_text(attribute_text(FixtureChannel3Attribute::Focus(n))) == Some(FixtureChannel3Attribute::Focus(n)),
{
    let d = decimal(n as nat);
    lemma_decimal_digits(n as nat);
    lemma_decimal_len_u8(n as nat);
    let t = attribute_text(FixtureChannel3Attribute::Focus(n));
    reveal_strlit("Focus");
    assert(t == "Focus"@ + d);
    lemma_exact_none_with_digit(t, 5);
    reveal(numbered_attribute_2);
    assert(numbered_attribute_0(t) is None) by {
        reveal(numbered_attribute_0);
        reveal_strlit("Gobo");
        lemma_prefix_mismatch(t, "Gobo"@, 0);
        reveal_strlit("Gobo");
        reveal_strlit("SelectSpin");
        lemma_prefix_mismatch(t, "Gobo"@, 0);
        reveal_strlit("Gobo");
        reveal_strlit("SelectShake");
        lemma_prefix_mismatch(t, "Gobo"@, 0);
        reveal_strlit("Gobo");
        reveal_strlit("SelectEffects");
        lemma_prefix_mismatch(t, "Gobo"@, 0);
        reveal_strlit("Gobo");
        reveal_strlit("WheelIndex");
        lemma_prefix_mismatch(t, "Gobo"@, 0);
        reveal_strlit("Gobo");
        reveal_strlit("WheelSpin");
        lemma_prefix_mismatch(t, "Gobo"@, 0);
        reveal_strlit("Gobo");
        reveal_strlit("WheelShake");
        lemma_prefix_mismatch(t, "Gobo"@, 0);
        reveal_strlit("Gobo");
        reveal_strlit("WheelRandom");
        lemma_prefix_mismatch(t, "Gobo"@, 0);
        reveal_strlit("Gobo");
        reveal_strlit("WheelAudio");
        lemma_prefix_mismatch(t, "Gobo"@, 0);
        reveal_strlit("Gobo");
        reveal_strlit("Pos");
        lemma_prefix_mismatch(t, "Gobo"@, 0);
        reveal_strlit("Gobo");
        reveal_strlit("PosRotate");
        lemma_prefix_mismatch(t, "Gobo"@, 0);
        reveal_strlit("Gobo");
        reveal_strlit("PosShake");
        lemma_prefix_mismatch(t, "Gobo"@, 0);
        reveal_strlit("AnimationWheel");
        lemma_prefix_mismatch(t, "AnimationWheel"@, 0);
        reveal_strlit("AnimationWheel");
        reveal_strlit("Audio");
        lemma_prefix_mismatch(t, "AnimationWheel"@, 0);
        reveal_strlit("AnimationWheel");
        reveal_strlit("Macro");
        lemma_prefix_mismatch(t, "AnimationWheel"@, 0);
        reveal_strlit("AnimationWheel");
        reveal_strlit("Random");
        lemma_prefix_mismatch(t, "AnimationWheel"@, 0);
        reveal_strlit("AnimationWheel");
        reveal_strlit("SelectEffects");
        lemma_prefix_mismatch(t, "AnimationWheel"@, 0);
        reveal_strlit("AnimationWheel");
        reveal_strlit("SelectShake");
        lemma_prefix_mismatch(t, "AnimationWheel"@, 0);
        reveal_strlit("AnimationWheel");
        reveal_strlit("SelectSpin");
        lemma_prefix_mismatch(t, "AnimationWheel"@, 0);
        reveal_strlit("AnimationWheel");
        reveal_strlit("Pos");
        lemma_prefix_mismatch(t, "AnimationWheel"@, 0);
        reveal_strlit("AnimationWheel");
        reveal_strlit("PosRotate");
        lemma_prefix_mismatch(t, "AnimationWheel"@, 0);
        reveal_strlit("AnimationWheel");
        reveal_strlit("PosShake");
        lemma_prefix_mismatch(t, "AnimationWheel"@, 0);
        reveal_strlit("AnimationSystem");
        lemma_prefix_mismatch(t, "AnimationSystem"@, 0);
        reveal_strlit("AnimationSystem");
        reveal_strlit("Ramp");
        lemma_prefix_mismatch(t, "AnimationSystem"@, 0);
        reveal_strlit("AnimationSystem");
        reveal_strlit("Shake");
        lemma_prefix_mismatch(t, "AnimationSystem"@, 0);
        reveal_strlit("AnimationSystem");
        reveal_strlit("Audio");
        lemma_prefix_mismatch(t, "AnimationSystem"@, 0);
        reveal_strlit("AnimationSystem");
        reveal_strlit("Random");
        lemma_prefix_mismatch(t, "AnimationSystem"@, 0);
        reveal_strlit("AnimationSystem");
        reveal_strlit("Pos");
        lemma_prefix_mismatch(t, "AnimationSystem"@, 0);
        reveal_strlit("AnimationSystem");
        reveal_strlit("PosRotate");
        lemma_prefix_mismatch(t, "AnimationSystem"@, 0);
        reveal_strlit("AnimationSystem");
        reveal_strlit("PosShake");
        lemma_prefix_mismatch(t, "AnimationSystem"@, 0);
        reveal_strlit("AnimationSystem");
        reveal_strlit("PosRandom");
        lemma_prefix_mismatch(t, "AnimationSystem"@, 0);
        reveal_strlit("AnimationSystem");
        reveal_strlit("PosAudio");
        lemma_prefix_mismatch(t, "AnimationSystem"@, 0);
    }
    assert(numbered_attribute_1(t) is None) by {
        reveal(numbered_attribute_1);
        reveal_strlit("AnimationSystem");
        reveal_strlit("Macro");
        lemma_prefix_mismatch(t, "AnimationSystem"@, 0);
        reveal_strlit("MediaFolder");
        lemma_prefix_mismatch(t, "MediaFolder"@, 0);
        reveal_strlit("MediaContent");
        lemma_prefix_mismatch(t, "MediaContent"@, 0);
        reveal_strlit("ModelFolder");
        lemma_prefix_mismatch(t, "ModelFolder"@, 0);
        reveal_strlit("ModelContent");
        lemma_prefix_mismatch(t, "ModelContent"@, 0);
        reveal_strlit("ColorEffects");
        lemma_prefix_mismatch(t, "ColorEffects"@, 0);
        reveal_strlit("Color");
        lemma_prefix_mismatch(t, "Color"@, 0);
        reveal_strlit("Color");
        reveal_strlit("WheelIndex");
        lemma_prefix_mismatch(t, "Color"@, 0);
        reveal_strlit("Color");
        reveal_strlit("WheelSpin");
        lemma_prefix_mismatch(t, "Color"@, 0);
        reveal_strlit("Color");
        reveal_strlit("WheelRandom");
        lemma_prefix_mismatch(t, "Color"@, 0);
        reveal_strlit("Color");
        reveal_strlit("WheelAudio");
        lemma_prefix_mismatch(t, "Color"@, 0);
        reveal_strlit("ColorMacro");
        lemma_prefix_mismatch(t, "ColorMacro"@, 0);
        reveal_strlit("ColorMacro");
        reveal_strlit("Rate");
        lemma_prefix_mismatch(t, "ColorMacro"@, 0);
        reveal_strlit("Shutter");
        lemma_prefix_mismatch(t, "Shutter"@, 0);
        reveal_strlit("Shutter");
        reveal_strlit("Strobe");
        lemma_prefix_mismatch(t, "Shutter"@, 0);
        reveal_strlit("Shutter");
        reveal_strlit("StrobePulse");
        lemma_prefix_mismatch(t, "Shutter"@, 0);
        reveal_strlit("Shutter");
        reveal_strlit("StrobePulseClose");
        lemma_prefix_mismatch(t, "Shutter"@, 0);
        reveal_strlit("Shutter");
        reveal_strlit("StrobePulseOpen");
        lemma_prefix_mismatch(t, "Shutter"@, 0);
        reveal_strlit("Shutter");
        reveal_strlit("StrobeRandom");
        lemma_prefix_mismatch(t, "Shutter"@, 0);
        reveal_strlit("Shutter");
        reveal_strlit("StrobeRandomPulse");
        lemma_prefix_mismatch(t, "Shutter"@, 0);
        reveal_strlit("Shutter");
        reveal_strlit("StrobeRandomPulseClose");
        lemma_prefix_mismatch(t, "Shutter"@, 0);
        reveal_strlit("Shutter");
        reveal_strlit("StrobeRandomPulseOpen");
        lemma_prefix_mismatch(t, "Shutter"@, 0);
        reveal_strlit("Shutter");
        reveal_strlit("StrobeEffect");
        lemma_prefix_mismatch(t, "Shutter"@, 0);
        reveal_strlit("Frost");
        lemma_prefix_mismatch(t, "Frost"@, 1);
        reveal_strlit("Frost");
        reveal_strlit("PulseOpen");
        lemma_prefix_mismatch(t, "Frost"@, 1);
        reveal_strlit("Frost");
        reveal_strlit("PulseClose");
        lemma_prefix_mismatch(t, "Frost"@, 1);
        reveal_strlit("Frost");
        reveal_strlit("Ramp");
        lemma_prefix_mismatch(t, "Frost"@, 1);
        reveal_strlit("Prism");
        lemma_prefix_mismatch(t, "Prism"@, 0);
        reveal_strlit("Prism");
        reveal_strlit("SelectSpin");
        lemma_prefix_mismatch(t, "Prism"@, 0);
        reveal_strlit("Prism");
        reveal_strlit("Macro");
        lemma_prefix_mismatch(t, "Prism"@, 0);
        reveal_strlit("Prism");
        reveal_strlit("Pos");
        lemma_prefix_mismatch(t, "Prism"@, 0);
        reveal_strlit("Prism");
        reveal_strlit("PosRotate");
        lemma_prefix_mismatch(t, "Prism"@, 0);
    }
    reveal_strlit("Effects");
    reveal_strlit("Adjust");
    lemma_prefix_mismatch(t, "Effects"@, 0);
    reveal_strlit("Effects");
    lemma_prefix_mismatch(t, "Effects"@, 0);
    reveal_strlit("Effects");
    reveal_strlit("Rate");
    lemma_prefix_mismatch(t, "Effects"@, 0);
    reveal_strlit("Effects");
    reveal_strlit("Fade");
    lemma_prefix_mismatch(t, "Effects"@, 0);
    reveal_strlit("Effects");
    reveal_strlit("Pos");
    lemma_prefix_mismatch(t, "Effects"@, 0);
    reveal_strlit("Effects");
    reveal_strlit("PosRotate");
    lemma_prefix_mismatch(t, "Effects"@, 0);
    lemma_number_after("Focus"@, n);
}

/// An attribute of the numbered family `FocusAdjust` reads back from its written
/// name: that text is no standard name, and every numbering rule before the
/// family's own rejects it.
proof fn text_reads_back_focus_adjust(n: u8)
    ensures
        attribute_from_text(attribute_text(FixtureChannel3Attribute::FocusAdjust(n))) == Some(FixtureChannel3Attribute::FocusAdjust(n)),
{
    let d = decimal(n as nat);
    lemma_decimal_digits(n as nat);
    lemma_decimal_len_u8(n as nat);
    let t = attribute_text(FixtureChannel3Attribute::FocusAdjust(n));
    reveal_strlit("Focus");
    reveal_strlit("Adjust");
    assert(t == "Focus"@ + d + "Adjust"@);
    lemma_exact_none_with_digit(t, 5);
    reveal(numbered_attribute_2);
    assert(numbered_attribute_0(t) is None) by {
        reveal(numbered_attribute_0);
        reveal_strlit("Gobo");
        lemma_prefix_mismatch(t, "Gobo"@, 0);
        reveal_strlit("Gobo");
        reveal_strlit("SelectSpin");
        lemma_prefix_mismatch(t, "Gobo"@, 0);
        reveal_strlit("Gobo");
        reveal_strlit("SelectShake");
        lemma_prefix_mismatch(t, "Gobo"@, 0);
        reveal_strlit("Gobo");
        reveal_strlit("SelectEffects");
        lemma_prefix_mismatch(t, "Gobo"@, 0);
        reveal_strlit("Gobo");
        reveal_strlit("WheelIndex");
        lemma_prefix_mismatch(t, "Gobo"@, 0);
        reveal_strlit("Gobo");
        reveal_strlit("WheelSpin");
        lemma_prefix_mismatch(t, "Gobo"@, 0);
        reveal_strlit("Gobo");
        reveal_strlit("WheelShake");
        lemma_prefix_mismatch(t, "Gobo"@, 0);
        reveal_strlit("Gobo");
        reveal_strlit("WheelRandom");
        lemma_prefix_mismatch(t, "Gobo"@, 0);
        reveal_strlit("Gobo");
        reveal_strlit("WheelAudio");
        lemma_prefix_mismatch(t, "Gobo"@, 0);
        reveal_strlit("Gobo");
        reveal_strlit("Pos");
        lemma_prefix_mismatch(t, "Gobo"@, 0);
        reveal_strlit("Gobo");
        reveal_strlit("PosRotate");
        lemma_prefix_mismatch(t, "Gobo"@, 0);
        reveal_strlit("Gobo");
        reveal_strlit("PosShake");
        lemma_prefix_mismatch(t, "Gobo"@, 0);
        reveal_strlit("AnimationWheel");
        lemma_prefix_mismatch(t, "AnimationWheel"@, 0);
        reveal_strlit("AnimationWheel");
        reveal_strlit("Audio");
        lemma_prefix_mismatch(t, "AnimationWheel"@, 0);
        reveal_strlit("AnimationWheel");
        reveal_strlit("Macro");
        lemma_prefix_mismatch(t, "AnimationWheel"@, 0);
        reveal_strlit("AnimationWheel");
        reveal_strlit("Random");
        lemma_prefix_mismatch(t, "AnimationWheel"@, 0);
        reveal_strlit("AnimationWheel");
        reveal_strlit("SelectEffects");
        lemma_prefix_mismatch(t, "AnimationWheel"@, 0);
        reveal_strlit("AnimationWheel");
        reveal_strlit("SelectShake");
        lemma_prefix_mismatch(t, "AnimationWheel"@, 0);
        reveal_strlit("AnimationWheel");
        reveal_strlit("SelectSpin");
        lemma_prefix_mismatch(t, "AnimationWheel"@, 0);
        reveal_strlit("AnimationWheel");
        reveal_strlit("Pos");
        lemma_prefix_mismatch(t, "AnimationWheel"@, 0);
        reveal_strlit("AnimationWheel");
        reveal_strlit("PosRotate");
        lemma_prefix_mismatch(t, "AnimationWheel"@, 0);
        reveal_strlit("AnimationWheel");
        reveal_strlit("PosShake");
        lemma_prefix_mismatch(t, "AnimationWheel"@, 0);
        reveal_strlit("AnimationSystem");
        lemma_prefix_mismatch(t, "AnimationSystem"@, 0);
        reveal_strlit("AnimationSystem");
        reveal_strlit("Ramp");
        lemma_prefix_mismatch(t, "AnimationSystem"@, 0);
        reveal_strlit("AnimationSystem");
        reveal_strlit("Shake");
        lemma_prefix_mismatch(t, "AnimationSystem"@, 0);
        reveal_strlit("AnimationSystem");
        reveal_strlit("Audio");
        lemma_prefix_mismatch(t, "AnimationSystem"@, 0);
        reveal_strlit("AnimationSystem");
        reveal_strlit("Random");
        lemma_prefix_mismatch(t, "AnimationSystem"@, 0);
        reveal_strlit("AnimationSystem");
        reveal_strlit("Pos");
        lemma_prefix_mismatch(t, "AnimationSystem"@, 0);
        reveal_strlit("AnimationSystem");
        reveal_strlit("PosRotate");
        lemma_prefix_mismatch(t, "AnimationSystem"@, 0);
        reveal_strlit("AnimationSystem");
        reveal_strlit("PosShake");
        lemma_prefix_mismatch(t, "AnimationSystem"@, 0);
        reveal_strlit("AnimationSystem");
        reveal_strlit("PosRandom");
        lemma_prefix_mismatch(t, "AnimationSystem"@, 0);
        reveal_strlit("AnimationSystem");
        reveal_strlit("PosAudio");
        lemma_prefix_mismatch(t, "AnimationSystem"@, 0);
    }
    assert(numbered_attribute_1(t) is None) by {
        reveal(numbered_attribute_1);
        reveal_strlit("AnimationSystem");
        reveal_strlit("Macro");
        lemma_prefix_mismatch(t, "AnimationSystem"@, 0);
        reveal_strlit("MediaFolder");
        lemma_prefix_mismatch(t, "MediaFolder"@, 0);
        reveal_strlit("MediaContent");
        lemma_prefix_mismatch(t, "MediaContent"@, 0);
        reveal_strlit("ModelFolder");
        lemma_prefix_mismatch(t, "ModelFolder"@, 0);
        reveal_strlit("ModelContent");
        lemma_prefix_mismatch(t, "ModelContent"@, 0);
        reveal_strlit("ColorEffects");
        lemma_prefix_mismatch(t, "ColorEffects"@, 0);
        reveal_strlit("Color");
        lemma_prefix_mismatch(t, "Color"@, 0);
        reveal_strlit("Color");
        reveal_strlit("WheelIndex");
        lemma_prefix_mismatch(t, "Color"@, 0);
        reveal_strlit("Color");
        reveal_strlit("WheelSpin");
        lemma_prefix_mismatch(t, "Color"@, 0);
        reveal_strlit("Color");
        reveal_strlit("WheelRandom");
        lemma_prefix_mismatch(t, "Color"@, 0);
        reveal_strlit("Color");
        reveal_strlit("WheelAudio");
        lemma_prefix_mismatch(t, "Color"@, 0);
        reveal_strlit("ColorMacro");
        lemma_prefix_mismatch(t, "ColorMacro"@, 0);
        reveal_strlit("ColorMacro");
        reveal_strlit("Rate");
        lemma_prefix_mismatch(t, "ColorMacro"@, 0);
        reveal_strlit("Shutter");
        lemma_prefix_mismatch(t, "Shutter"@, 0);
        reveal_strlit("Shutter");
        reveal_strlit("Strobe");
        lemma_prefix_mismatch(t, "Shutter"@, 0);
        reveal_strlit("Shutter");
        reveal_strlit("StrobePulse");
        lemma_prefix_mismatch(t, "Shutter"@, 0);
        reveal_strlit("Shutter");
        reveal_strlit("StrobePulseClose");
        lemma_prefix_mismatch(t, "Shutter"@, 0);
        reveal_strlit("Shutter");
        reveal_strlit("StrobePulseOpen");
        lemma_prefix_mismatch(t, "Shutter"@, 0);
        reveal_strlit("Shutter");
        reveal_strlit("StrobeRandom");
        lemma_prefix_mismatch(t, "Shutter"@, 0);
        reveal_strlit("Shutter");
        reveal_strlit("StrobeRandomPulse");
        lemma_prefix_mismatch(t, "Shutter"@, 0);
        reveal_strlit("Shutter");
        reveal_strlit("StrobeRandomPulseClose");
        lemma_prefix_mismatch(t, "Shutter"@, 0);
        reveal_strlit("Shutter");
        reveal_strlit("StrobeRandomPulseOpen");
        lemma_prefix_mismatch(t, "Shutter"@, 0);
        reveal_strlit("Shutter");
        reveal_strlit("StrobeEffect");
        lemma_prefix_mismatch(t, "Shutter"@, 0);
        reveal_strlit("Frost");
        lemma_prefix_mismatch(t, "Frost"@, 1);
        reveal_strlit("Frost");
        reveal_strlit("PulseOpen");
        lemma_prefix_mismatch(t, "Frost"@, 1);
        reveal_strlit("Frost");
        reveal_strlit("PulseClose");
        lemma_prefix_mismatch(t, "Frost"@, 1);
        reveal_strlit("Frost");
        reveal_strlit("Ramp");
        lemma_prefix_mismatch(t, "Frost"@, 1);
        reveal_strlit("Prism");
        lemma_prefix_mismatch(t, "Prism"@, 0);
        reveal_strlit("Prism");
        reveal_strlit("SelectSpin");
        lemma_prefix_mismatch(t, "Prism"@, 0);
        reveal_strlit("Prism");
        reveal_strlit("Macro");
        lemma_prefix_mismatch(t, "Prism"@, 0);
        reveal_strlit("Prism");
        reveal_strlit("Pos");
        lemma_prefix_mismatch(t, "Prism"@, 0);
        reveal_strlit("Prism");
        reveal_strlit("PosRotate");
        lemma_prefix_mismatch(t, "Prism"@, 0);
    }
    reveal_strlit("Effects");
    reveal_strlit("Adjust");
    lemma_prefix_mismatch(t, "Effects"@, 0);
    reveal_strlit("Effects");
    lemma_prefix_mismatch(t, "Effects"@, 0);
    reveal_strlit("Effects");
    reveal_strlit("Rate");
    lemma_prefix_mismatch(t, "Effects"@, 0);
    reveal_strlit("Effects");
    reveal_strlit("Fade");
    lemma_prefix_mismatch(t, "Effects"@, 0);
    reveal_strlit("Effects");
    reveal_strlit("Pos");
    lemma_prefix_mismatch(t, "Effects"@, 0);
    reveal_strlit("Effects");
    reveal_strlit("PosRotate");
    lemma_prefix_mismatch(t, "Effects"@, 0);
    reveal_strlit("Focus");
    lemma_rest_not_number(t, "Focus"@, d.len() as int);
    lemma_number_between("Focus"@, "Adjust"@, n);
}

/// An attribute of the numbered family `FocusDistance` reads back from its written
/// name: that text is no standard name, and every numbering rule before the
/// family's own rejects it.
proof fn text_reads_back_focus_distance(n: u8)
    ensures
        attribute_from_text(attribute_text(FixtureChannel3Attribute::FocusDistance(n))) == Some(FixtureChannel3Attribute::FocusDistance(n)),
{
    let d = decimal(n as nat);
    lemma_decimal_digits(n as nat);
    lemma_decimal_len_u8(n as nat);
    let t = attribute_text(FixtureChannel3Attribute::FocusDistance(n));
    reveal_strlit("Focus");
    reveal_strlit("Distance");
    assert(t == "Focus"@ + d + "Distance"@);
    lemma_exact_none_with_digit(t, 5);
    reveal(numbered_attribute_2);
    assert(numbered_attribute_0(t) is None) by {
        reveal(numbered_attribute_0);
        reveal_strlit("Gobo");
        lemma_prefix_mismatch(t, "Gobo"@, 0);
        reveal_strlit("Gobo");
        reveal_strlit("SelectSpin");
        lemma_prefix_mismatch(t, "Gobo"@, 0);
        reveal_strlit("Gobo");
        reveal_strlit("SelectShake");
        lemma_prefix_mismatch(t, "Gobo"@, 0);
        reveal_strlit("Gobo");
        reveal_strlit("SelectEffects");
        lemma_prefix_mismatch(t, "Gobo"@, 0);
        reveal_strlit("Gobo");
        reveal_strlit("WheelIndex");
        lemma_prefix_mismatch(t, "Gobo"@, 0);
        reveal_strlit("Gobo");
        reveal_strlit("WheelSpin");
        lemma_prefix_mismatch(t, "Gobo"@, 0);
        reveal_strlit("Gobo");
        reveal_strlit("WheelShake");
        lemma_prefix_mismatch(t, "Gobo"@, 0);
        reveal_strlit("Gobo");
        reveal_strlit("WheelRandom");
        lemma_prefix_mismatch(t, "Gobo"@, 0);
        reveal_strlit("Gobo");
        reveal_strlit("WheelAudio");
        lemma_prefix_mismatch(t, "Gobo"@, 0);
        reveal_strlit("Gobo");
        reveal_strlit("Pos");
        lemma_prefix_mismatch(t, "Gobo"@, 0);
        reveal_strlit("Gobo");
        reveal_strlit("PosRotate");
        lemma_prefix_mismatch(t, "Gobo"@, 0);
        reveal_strlit("Gobo");
        reveal_strlit("PosShake");
        lemma_prefix_mismatch(t, "Gobo"@, 0);
        reveal_strlit("AnimationWheel");
        lemma_prefix_mismatch(t, "AnimationWheel"@, 0);
        reveal_strlit("AnimationWheel");
        reveal_strlit("Audio");
        lemma_prefix_mismatch(t, "AnimationWheel"@, 0);
        reveal_strlit("AnimationWheel");
        reveal_strlit("Macro");
        lemma_prefix_mismatch(t, "AnimationWheel"@, 0);
        reveal_strlit("AnimationWheel");
        reveal_strlit("Random");
        lemma_prefix_mismatch(t, "AnimationWheel"@, 0);
        reveal_strlit("AnimationWheel");
        reveal_strlit("SelectEffects");
        lemma_prefix_mismatch(t, "AnimationWheel"@, 0);
        reveal_strlit("AnimationWheel");
        reveal_strlit("SelectShake");
        lemma_prefix_mismatch(t, "AnimationWheel"@, 0);
        reveal_strlit("AnimationWheel");
        reveal_strlit("SelectSpin");
        lemma_prefix_mismatch(t, "AnimationWheel"@, 0);
        reveal_strlit("AnimationWheel");
        reveal_strlit("Pos");
        lemma_prefix_mismatch(t, "AnimationWheel"@, 0);
        reveal_strlit("AnimationWheel");
        reveal_strlit("PosRotate");
        lemma_prefix_mismatch(t, "AnimationWheel"@, 0);
        reveal_strlit("AnimationWheel");
        reveal_strlit("PosShake");
        lemma_prefix_mismatch(t, "AnimationWheel"@, 0);
        reveal_strlit("AnimationSystem");
        lemma_prefix_mismatch(t, "AnimationSystem"@, 0);
        reveal_strlit("AnimationSystem");
        reveal_strlit("Ramp");
        lemma_prefix_mismatch(t, "AnimationSystem"@, 0);
        reveal_strlit("AnimationSystem");
        reveal_strlit("Shake");
        lemma_prefix_mismatch(t, "AnimationSystem"@, 0);
        reveal_strlit("AnimationSystem");
        reveal_strlit("Audio");
        lemma_prefix_mismatch(t, "AnimationSystem"@, 0);
        reveal_strlit("AnimationSystem");
        reveal_strlit("Random");
        lemma_prefix_mismatch(t, "AnimationSystem"@, 0);
        reveal_strlit("AnimationSystem");
        reveal_strlit("Pos");
        lemma_prefix_mismatch(t, "AnimationSystem"@, 0);
        reveal_strlit("AnimationSystem");
        reveal_strlit("PosRotate");
        lemma_prefix_mismatch(t, "AnimationSystem"@, 0);
        reveal_strlit("AnimationSystem");
        reveal_strlit("PosShake");
        lemma_prefix_mismatch(t, "AnimationSystem"@, 0);
        reveal_strlit("AnimationSystem");
        reveal_strlit("PosRandom");
        lemma_prefix_mismatch(t, "AnimationSystem"@, 0);
        reveal_strlit("AnimationSystem");
        reveal_strlit("PosAudio");
        lemma_prefix_mismatch(t, "AnimationSystem"@, 0);
    }
    assert(numbered_attribute_1(t) is None) by {
        reveal(numbered_attribute_1);
        reveal_strlit("AnimationSystem");
        reveal_strlit("Macro");
        lemma_prefix_mismatch(t, "AnimationSystem"@, 0);
        reveal_strlit("MediaFolder");
        lemma_prefix_mismatch(t, "MediaFolder"@, 0);
        reveal_strlit("MediaContent");
        lemma_prefix_mismatch(t, "MediaContent"@, 0);
        reveal_strlit("ModelFolder");
        lemma_prefix_mismatch(t, "ModelFolder"@, 0);
        reveal_strlit("ModelContent");
        lemma_prefix_mismatch(t, "ModelContent"@, 0);
        reveal_strlit("ColorEffects");
        lemma_prefix_mismatch(t, "ColorEffects"@, 0);
        reveal_strlit("Color");
        lemma_prefix_mismatch(t, "Color"@, 0);
        reveal_strlit("Color");
        reveal_strlit("WheelIndex");
        lemma_prefix_mismatch(t, "Color"@, 0);
        reveal_strlit("Color");
        reveal_strlit("WheelSpin");
        lemma_prefix_mismatch(t, "Color"@, 0);
        reveal_strlit("Color");
        reveal_strlit("WheelRandom");
        lemma_prefix_mismatch(t, "Color"@, 0);
        reveal_strlit("Color");
        reveal_strlit("WheelAudio");
        lemma_prefix_mismatch(t, "Color"@, 0);
        reveal_strlit("ColorMacro");
        lemma_prefix_mismatch(t, "ColorMacro"@, 0);
        reveal_strlit("ColorMacro");
        reveal_strlit("Rate");
        lemma_prefix_mismatch(t, "ColorMacro"@, 0);
        reveal_strlit("Shutter");
        lemma_prefix_mismatch(t, "Shutter"@, 0);
        reveal_strlit("Shutter");
        reveal_strlit("Strobe");
        lemma_prefix_mismatch(t, "Shutter"@, 0);
        reveal_strlit("Shutter");
        reveal_strlit("StrobePulse");
        lemma_prefix_mismatch(t, "Shutter"@, 0);
        reveal_strlit("Shutter");
        reveal_strlit("StrobePulseClose");
        lemma_prefix_mismatch(t, "Shutter"@, 0);
        reveal_strlit("Shutter");
        reveal_strlit("StrobePulseOpen");
        lemma_prefix_mismatch(t, "Shutter"@, 0);
        reveal_strlit("Shutter");
        reveal_strlit("StrobeRandom");
        lemma_prefix_mismatch(t, "Shutter"@, 0);
        reveal_strlit("Shutter");
        reveal_strlit("StrobeRandomPulse");
        lemma_prefix_mismatch(t, "Shutter"@, 0);
        reveal_strlit("Shutter");
        reveal_strlit("StrobeRandomPulseClose");
        lemma_prefix_mismatch(t, "Shutter"@, 0);
        reveal_strlit("Shutter");
        reveal_strlit("StrobeRandomPulseOpen");
        lemma_prefix_mismatch(t, "Shutter"@, 0);
        reveal_strlit("Shutter");
        reveal_strlit("StrobeEffect");
        lemma_prefix_mismatch(t, "Shutter"@, 0);
        reveal_strlit("Frost");
        lemma_prefix_mismatch(t, "Frost"@, 1);
        reveal_strlit("Frost");
        reveal_strlit("PulseOpen");
        lemma_prefix_mismatch(t, "Frost"@, 1);
        reveal_strlit("Frost");
        reveal_strlit("PulseClose");
        lemma_prefix_mismatch(t, "Frost"@, 1);
        reveal_strlit("Frost");
        reveal_strlit("Ramp");
        lemma_prefix_mismatch(t, "Frost"@, 1);
        reveal_strlit("Prism");
        lemma_prefix_mismatch(t, "Prism"@, 0);
        reveal_strlit("Prism");
        reveal_strlit("SelectSpin");
        lemma_prefix_mismatch(t, "Prism"@, 0);
        reveal_strlit("Prism");
        reveal_strlit("Macro");
        lemma_prefix_mismatch(t, "Prism"@, 0);
        reveal_strlit("Prism");
        reveal_strlit("Pos");
        lemma_prefix_mismatch(t, "Prism"@, 0);
        reveal_strlit("Prism");
        reveal_strlit("PosRotate");
        lemma_prefix_mismatch(t, "Prism"@, 0);
    }
    reveal_strlit("Effects");
    reveal_strlit("Adjust");
    lemma_prefix_mismatch(t, "Effects"@, 0);
    reveal_strlit("Effects");
    lemma_prefix_mismatch(t, "Effects"@, 0);
    reveal_strlit("Effects");
    reveal_strlit("Rate");
    lemma_prefix_mismatch(t, "Effects"@, 0);
    reveal_strlit("Effects");
    reveal_strlit("Fade");
    lemma_prefix_mismatch(t, "Effects"@, 0);
    reveal_strlit("Effects");
    reveal_strlit("Pos");
    lemma_prefix_mismatch(t, "Effects"@, 0);
    reveal_strlit("Effects");
    reveal_strlit("PosRotate");
    lemma_prefix_mismatch(t, "Effects"@, 0);
    reveal_strlit("Focus");
    lemma_rest_not_number(t, "Focus"@, d.len() as int);
    reveal_strlit("Focus");
    reveal_strlit("Adjust");
    lemma_suffix_mismatch(t, "Focus"@, "Adjust"@, 0);
    lemma_number_between("Focus"@, "Distance"@, n);
}

/// An attribute of the numbered family `Control` reads back from its written
/// name: that text is no standard name, and every numbering rule before the
/// family's own rejects it.
proof fn text_reads_back_control(n: u8)
    ensures
        attribute_from_text(attribute_text(FixtureChannel3Attribute::Control(n))) == Some(FixtureChannel3Attribute::Control(n)),
{
    let d = decimal(n as nat);
    lemma_decimal_digits(n as nat);
    lemma_decimal_len_u8(n as nat);
    let t = attribute_text(FixtureChannel3Attribute::Control(n));
    reveal_strlit("Control");
    assert(t == "Control"@ + d);
    lemma_exact_none_with_digit(t, 7);
    reveal(numbered_attribute_2);
    assert(numbered_attribute_0(t) is None) by {
        reveal(numbered_attribute_0);
        reveal_strlit("Gobo");
        lemma_prefix_mismatch(t, "Gobo"@, 0);
        reveal_strlit("Gobo");
        reveal_strlit("SelectSpin");
        lemma_prefix_mismatch(t, "Gobo"@, 0);
        reveal_strlit("Gobo");
        reveal_strlit("SelectShake");
        lemma_prefix_mismatch(t, "Gobo"@, 0);
        reveal_strlit("Gobo");
        reveal_strlit("SelectEffects");
        lemma_prefix_mismatch(t, "Gobo"@, 0);
        reveal_strlit("Gobo");
        reveal_strlit("WheelIndex");
        lemma_prefix_mismatch(t, "Gobo"@, 0);
        reveal_strlit("Gobo");
        reveal_strlit("WheelSpin");
        lemma_prefix_mismatch(t, "Gobo"@, 0);
        reveal_strlit("Gobo");
        reveal_strlit("WheelShake");
        lemma_prefix_mismatch(t, "Gobo"@, 0);
        reveal_strlit("Gobo");
        reveal_strlit("WheelRandom");
        lemma_prefix_mismatch(t, "Gobo"@, 0);
        reveal_strlit("Gobo");
        reveal_strlit("WheelAudio");
        lemma_prefix_mismatch(t, "Gobo"@, 0);
        reveal_strlit("Gobo");
        reveal_strlit("Pos");
        lemma_prefix_mismatch(t, "Gobo"@, 0);
        reveal_strlit("Gobo");
        reveal_strlit("PosRotate");
        lemma_prefix_mismatch(t, "Gobo"@, 0);
        reveal_strlit("Gobo");
        reveal_strlit("PosShake");
        lemma_prefix_mismatch(t, "Gobo"@, 0);
        reveal_strlit("AnimationWheel");
        lemma_prefix_mismatch(t, "AnimationWheel"@, 0);
        reveal_strlit("AnimationWheel");
        reveal_strlit("Audio");
        lemma_prefix_mismatch(t, "AnimationWheel"@, 0);
        reveal_strlit("AnimationWheel");
        reveal_strlit("Macro");
        lemma_prefix_mismatch(t, "AnimationWheel"@, 0);
        reveal_strlit("AnimationWheel");
        reveal_strlit("Random");
        lemma_prefix_mismatch(t, "AnimationWheel"@, 0);
        reveal_strlit("AnimationWheel");
        reveal_strlit("SelectEffects");
        lemma_prefix_mismatch(t, "AnimationWheel"@, 0);
        reveal_strlit("AnimationWheel");
        reveal_strlit("SelectShake");
        lemma_prefix_mismatch(t, "AnimationWheel"@, 0);
        reveal_strlit("AnimationWheel");
        reveal_strlit("SelectSpin");
        lemma_prefix_mismatch(t, "AnimationWheel"@, 0);
        reveal_strlit("AnimationWheel");
        reveal_strlit("Pos");
        lemma_prefix_mismatch(t, "AnimationWheel"@, 0);
        reveal_strlit("AnimationWheel");
        reveal_strlit("PosRotate");
        lemma_prefix_mismatch(t, "AnimationWheel"@, 0);
        reveal_strlit("AnimationWheel");
        reveal_strlit("PosShake");
        lemma_prefix_mismatch(t, "AnimationWheel"@, 0);
        reveal_strlit("AnimationSystem");
        lemma_prefix_mismatch(t, "AnimationSystem"@, 0);
        reveal_strlit("AnimationSystem");
        reveal_strlit("Ramp");
        lemma_prefix_mismatch(t, "AnimationSystem"@, 0);
        reveal_strlit("AnimationSystem");
        reveal_strlit("Shake");
        lemma_prefix_mismatch(t, "AnimationSystem"@, 0);
        reveal_strlit("AnimationSystem");
        reveal_strlit("Audio");
        lemma_prefix_mismatch(t, "AnimationSystem"@, 0);
        reveal_strlit("AnimationSystem");
        reveal_strlit("Random");
        lemma_prefix_mismatch(t, "AnimationSystem"@, 0);
        reveal_strlit("AnimationSystem");
        reveal_strlit("Pos");
        lemma_prefix_mismatch(t, "AnimationSystem"@, 0);
        reveal_strlit("AnimationSystem");
        reveal_strlit("PosRotate");
        lemma_prefix_mismatch(t, "AnimationSystem"@, 0);
        reveal_strlit("AnimationSystem");
        reveal_strlit("PosShake");
        lemma_prefix_mismatch(t, "AnimationSystem"@, 0);
        reveal_strlit("AnimationSystem");
        reveal_strlit("PosRandom");
        lemma_prefix_mismatch(t, "AnimationSystem"@, 0);
        reveal_strlit("AnimationSystem");
        reveal_strlit("PosAudio");
        lemma_prefix_mismatch(t, "AnimationSystem"@, 0);
    }
    assert(numbered_attribute_1(t) is None) by {
        reveal(numbered_attribute_1);
        reveal_strlit("AnimationSystem");
        reveal_strlit("Macro");
        lemma_prefix_mismatch(t, "AnimationSystem"@, 0);
        reveal_strlit("MediaFolder");
        lemma_prefix_mismatch(t, "MediaFolder"@, 0);
        reveal_strlit("MediaContent");
        lemma_prefix_mismatch(t, "MediaContent"@, 0);
        reveal_strlit("ModelFolder");
        lemma_prefix_mismatch(t, "ModelFolder"@, 0);
        reveal_strlit("ModelContent");
        lemma_prefix_mismatch(t, "ModelContent"@, 0);
        reveal_strlit("ColorEffects");
        lemma_prefix_mismatch(t, "ColorEffects"@, 2);
        reveal_strlit("Color");
        lemma_prefix_mismatch(t, "Color"@, 2);
        reveal_strlit("Color");
        reveal_strlit("WheelIndex");
        lemma_prefix_mismatch(t, "Color"@, 2);
        reveal_strlit("Color");
        reveal_strlit("WheelSpin");
        lemma_prefix_mismatch(t, "Color"@, 2);
        reveal_strlit("Color");
        reveal_strlit("WheelRandom");
        lemma_prefix_mismatch(t, "Color"@, 2);
        reveal_strlit("Color");
        reveal_strlit("WheelAudio");
        lemma_prefix_mismatch(t, "Color"@, 2);
        reveal_strlit("ColorMacro");
        lemma_prefix_mismatch(t, "ColorMacro"@, 2);
        reveal_strlit("ColorMacro");
        reveal_strlit("Rate");
        lemma_prefix_mismatch(t, "ColorMacro"@, 2);
        reveal_strlit("Shutter");
        lemma_prefix_mismatch(t, "Shutter"@, 0);
        reveal_strlit("Shutter");
        reveal_strlit("Strobe");
        lemma_prefix_mismatch(t, "Shutter"@, 0);
        reveal_strlit("Shutter");
        reveal_strlit("StrobePulse");
        lemma_prefix_mismatch(t, "Shutter"@, 0);
        reveal_strlit("Shutter");
        reveal_strlit("StrobePulseClose");
        lemma_prefix_mismatch(t, "Shutter"@, 0);
        reveal_strlit("Shutter");
        reveal_strlit("StrobePulseOpen");
        lemma_prefix_mismatch(t, "Shutter"@, 0);
        reveal_strlit("Shutter");
        reveal_strlit("StrobeRandom");
        lemma_prefix_mismatch(t, "Shutter"@, 0);
        reveal_strlit("Shutter");
        reveal_strlit("StrobeRandomPulse");
        lemma_prefix_mismatch(t, "Shutter"@, 0);
        reveal_strlit("Shutter");
        reveal_strlit("StrobeRandomPulseClose");
        lemma_prefix_mismatch(t, "Shutter"@, 0);
        reveal_strlit("Shutter");
        reveal_strlit("StrobeRandomPulseOpen");
        lemma_prefix_mismatch(t, "Shutter"@, 0);
        reveal_strlit("Shutter");
        reveal_strlit("StrobeEffect");
        lemma_prefix_mismatch(t, "Shutter"@, 0);
        reveal_strlit("Frost");
        lemma_prefix_mismatch(t, "Frost"@, 0);
        reveal_strlit("Frost");
        reveal_strlit("PulseOpen");
        lemma_prefix_mismatch(t, "Frost"@, 0);
        reveal_strlit("Frost");
        reveal_strlit("PulseClose");
        lemma_prefix_mismatch(t, "Frost"@, 0);
        reveal_strlit("Frost");
        reveal_strlit("Ramp");
        lemma_prefix_mismatch(t, "Frost"@, 0);
        reveal_strlit("Prism");
        lemma_prefix_mismatch(t, "Prism"@, 0);
        reveal_strlit("Prism");
        reveal_strlit("SelectSpin");
        lemma_prefix_mismatch(t, "Prism"@, 0);
        reveal_strlit("Prism");
        reveal_strlit("Macro");
        lemma_prefix_mismatch(t, "Prism"@, 0);
        reveal_strlit("Prism");
        reveal_strlit("Pos");
        lemma_prefix_mismatch(t, "Prism"@, 0);
        reveal_strlit("Prism");
        reveal_strlit("PosRotate");
        lemma_prefix_mismatch(t, "Prism"@, 0);
    }
    reveal_strlit("Effects");
    reveal_strlit("Adjust");
    lemma_prefix_mismatch(t, "Effects"@, 0);
    reveal_strlit("Effects");
    lemma_prefix_mismatch(t, "Effects"@, 0);
    reveal_strlit("Effects");
    reveal_strlit("Rate");
    lemma_prefix_mismatch(t, "Effects"@, 0);
    reveal_strlit("Effects");
    reveal_strlit("Fade");
    lemma_prefix_mismatch(t, "Effects"@, 0);
    reveal_strlit("Effects");
    reveal_strlit("Pos");
    lemma_prefix_mismatch(t, "Effects"@, 0);
    reveal_strlit("Effects");
    reveal_strlit("PosRotate");
    lemma_prefix_mismatch(t, "Effects"@, 0);
    reveal_strlit("Focus");
    lemma_prefix_mismatch(t, "Focus"@, 0);
    reveal_strlit("Focus");
    reveal_strlit("Adjust");
    lemma_prefix_mismatch(t, "Focus"@, 0);
    reveal_strlit("Focus");
    reveal_strlit("Distance");
    lemma_prefix_mismatch(t, "Focus"@, 0);
    lemma_number_after("Control"@, n);
}

/// An attribute of the numbered family `GoboWheelMode` reads back from its written
/// name: that text is no standard name, and every numbering rule before the
/// family's own rejects it.
proof fn text_reads_back_gobo_wheel_mode(n: u8)
    ensures
        attribute_from_text(attribute_text(FixtureChannel3Attribute::GoboWheelMode(n))) == Some(FixtureChannel3Attribute::GoboWheelMode(n)),
{
    let d = decimal(n as nat);
    lemma_decimal_digits(n as nat);
    lemma_decimal_len_u8(n as nat);
    let t = attribute_text(FixtureChannel3Attribute::GoboWheelMode(n));
    reveal_strlit("Gobo");
    reveal_strlit("WheelMode");
    assert(t == "Gobo"@ + d + "WheelMode"@);
    lemma_exact_none_with_digit(t, 4);
    reveal(numbered_attribute_2);
    assert(numbered_attribute_0(t) is None) by {
        reveal(numbered_attribute_0);
        reveal_strlit("Gobo");
        lemma_rest_not_number(t, "Gobo"@, d.len() as int);
        reveal_strlit("Gobo");
        reveal_strlit("SelectSpin");
        lemma_suffix_mismatch(t, "Gobo"@, "SelectSpin"@, 0);
        reveal_strlit("Gobo");
        reveal_strlit("SelectShake");
        lemma_suffix_mismatch(t, "Gobo"@, "SelectShake"@, 1);
        reveal_strlit("Gobo");
        reveal_strlit("SelectEffects");
        lemma_suffix_mismatch(t, "Gobo"@, "SelectEffects"@, 0);
        reveal_strlit("Gobo");
        reveal_strlit("WheelIndex");
        lemma_suffix_mismatch(t, "Gobo"@, "WheelIndex"@, 0);
        reveal_strlit("Gobo");
        reveal_strlit("WheelSpin");
        lemma_suffix_mismatch(t, "Gobo"@, "WheelSpin"@, 0);
        reveal_strlit("Gobo");
        reveal_strlit("WheelShake");
        lemma_suffix_mismatch(t, "Gobo"@, "WheelShake"@, 1);
        reveal_strlit("Gobo");
        reveal_strlit("WheelRandom");
        lemma_suffix_mismatch(t, "Gobo"@, "WheelRandom"@, 0);
        reveal_strlit("Gobo");
        reveal_strlit("WheelAudio");
        lemma_suffix_mismatch(t, "Gobo"@, "WheelAudio"@, 0);
        reveal_strlit("Gobo");
        reveal_strlit("Pos");
        lemma_suffix_mismatch(t, "Gobo"@, "Pos"@, 0);
        reveal_strlit("Gobo");
        reveal_strlit("PosRotate");
        lemma_suffix_mismatch(t, "Gobo"@, "PosRotate"@, 1);
        reveal_strlit("Gobo");
        reveal_strlit("PosShake");
        lemma_suffix_mismatch(t, "Gobo"@, "PosShake"@, 1);
        reveal_strlit("AnimationWheel");
        lemma_prefix_mismatch(t, "AnimationWheel"@, 0);
        reveal_strlit("AnimationWheel");
        reveal_strlit("Audio");
        lemma_prefix_mismatch(t, "AnimationWheel"@, 0);
        reveal_strlit("AnimationWheel");
        reveal_strlit("Macro");
        lemma_prefix_mismatch(t, "AnimationWheel"@, 0);
        reveal_strlit("AnimationWheel");
        reveal_strlit("Random");
        lemma_prefix_mismatch(t, "AnimationWheel"@, 0);
        reveal_strlit("AnimationWheel");
        reveal_strlit("SelectEffects");
        lemma_prefix_mismatch(t, "AnimationWheel"@, 0);
        reveal_strlit("AnimationWheel");
        reveal_strlit("SelectShake");
        lemma_prefix_mismatch(t, "AnimationWheel"@, 0);
        reveal_strlit("AnimationWheel");
        reveal_strlit("SelectSpin");
        lemma_prefix_mismatch(t, "AnimationWheel"@, 0);
        reveal_strlit("AnimationWheel");
        reveal_strlit("Pos");
        lemma_prefix_mismatch(t, "AnimationWheel"@, 0);
        reveal_strlit("AnimationWheel");
        reveal_strlit("PosRotate");
        lemma_prefix_mismatch(t, "AnimationWheel"@, 0);
        reveal_strlit("AnimationWheel");
        reveal_strlit("PosShake");
        lemma_prefix_mismatch(t, "AnimationWheel"@, 0);
        reveal_strlit("AnimationSystem");
        lemma_prefix_mismatch(t, "AnimationSystem"@, 0);
        reveal_strlit("AnimationSystem");
        reveal_strlit("Ramp");
        lemma_prefix_mismatch(t, "AnimationSystem"@, 0);
        reveal_strlit("AnimationSystem");
        reveal_strlit("Shake");
        lemma_prefix_mismatch(t, "AnimationSystem"@, 0);
        reveal_strlit("AnimationSystem");
        reveal_strlit("Audio");
        lemma_prefix_mismatch(t, "AnimationSystem"@, 0);
        reveal_strlit("AnimationSystem");
        reveal_strlit("Random");
        lemma_prefix_mismatch(t, "AnimationSystem"@, 0);
        reveal_strlit("AnimationSystem");
        reveal_strlit("Pos");
        lemma_prefix_mismatch(t, "AnimationSystem"@, 0);
        reveal_strlit("AnimationSystem");
        reveal_strlit("PosRotate");
        lemma_prefix_mismatch(t, "AnimationSystem"@, 0);
        reveal_strlit("AnimationSystem");
        reveal_strlit("PosShake");
        lemma_prefix_mismatch(t, "AnimationSystem"@, 0);
        reveal_strlit("AnimationSystem");
        reveal_strlit("PosRandom");
        lemma_prefix_mismatch(t, "AnimationSystem"@, 0);
        reveal_strlit("AnimationSystem");
        reveal_strlit("PosAudio");
        lemma_prefix_mismatch(t, "AnimationSystem"@, 0);
    }
    assert(numbered_attribute_1(t) is None) by {
        reveal(numbered_attribute_1);
        reveal_strlit("AnimationSystem");
        reveal_strlit("Macro");
        lemma_prefix_mismatch(t, "AnimationSystem"@, 0);
        reveal_strlit("MediaFolder");
        lemma_prefix_mismatch(t, "MediaFolder"@, 0);
        reveal_strlit("MediaContent");
        lemma_prefix_mismatch(t, "MediaContent"@, 0);
        reveal_strlit("ModelFolder");
        lemma_prefix_mismatch(t, "ModelFolder"@, 0);
        reveal_strlit("ModelContent");
        lemma_prefix_mismatch(t, "ModelContent"@, 0);
        reveal_strlit("ColorEffects");
        lemma_prefix_mismatch(t, "ColorEffects"@, 0);
        reveal_strlit("Color");
        lemma_prefix_mismatch(t, "Color"@, 0);
        reveal_strlit("Color");
        reveal_strlit("WheelIndex");
        lemma_prefix_mismatch(t, "Color"@, 0);
        reveal_strlit("Color");
        reveal_strlit("WheelSpin");
        lemma_prefix_mismatch(t, "Color"@, 0);
        reveal_strlit("Color");
        reveal_strlit("WheelRandom");
        lemma_prefix_mismatch(t, "Color"@, 0);
        reveal_strlit("Color");
        reveal_strlit("WheelAudio");
        lemma_prefix_mismatch(t, "Color"@, 0);
        reveal_strlit("ColorMacro");
        lemma_prefix_mismatch(t, "ColorMacro"@, 0);
        reveal_strlit("ColorMacro");
        reveal_strlit("Rate");
        lemma_prefix_mismatch(t, "ColorMacro"@, 0);
        reveal_strlit("Shutter");
        lemma_prefix_mismatch(t, "Shutter"@, 0);
        reveal_strlit("Shutter");
        reveal_strlit("Strobe");
        lemma_prefix_mismatch(t, "Shutter"@, 0);
        reveal_strlit("Shutter");
        reveal_strlit("StrobePulse");
        lemma_prefix_mismatch(t, "Shutter"@, 0);
        reveal_strlit("Shutter");
        reveal_strlit("StrobePulseClose");
        lemma_prefix_mismatch(t, "Shutter"@, 0);
        reveal_strlit("Shutter");
        reveal_strlit("StrobePulseOpen");
        lemma_prefix_mismatch(t, "Shutter"@, 0);
        reveal_strlit("Shutter");
        reveal_strlit("StrobeRandom");
        lemma_prefix_mismatch(t, "Shutter"@, 0);
        reveal_strlit("Shutter");
        reveal_strlit("StrobeRandomPulse");
        lemma_prefix_mismatch(t, "Shutter"@, 0);
        reveal_strlit("Shutter");
        reveal_strlit("StrobeRandomPulseClose");
        lemma_prefix_mismatch(t, "Shutter"@, 0);
        reveal_strlit("Shutter");
        reveal_strlit("StrobeRandomPulseOpen");
        lemma_prefix_mismatch(t, "Shutter"@, 0);
        reveal_strlit("Shutter");
        reveal_strlit("StrobeEffect");
        lemma_prefix_mismatch(t, "Shutter"@, 0);
        reveal_strlit("Frost");
        lemma_prefix_mismatch(t, "Frost"@, 0);
        reveal_strlit("Frost");
        reveal_strlit("PulseOpen");
        lemma_prefix_mismatch(t, "Frost"@, 0);
        reveal_strlit("Frost");
        reveal_strlit("PulseClose");
        lemma_prefix_mismatch(t, "Frost"@, 0);
        reveal_strlit("Frost");
        reveal_strlit("Ramp");
        lemma_prefix_mismatch(t, "Frost"@, 0);
        reveal_strlit("Prism");
        lemma_prefix_mismatch(t, "Prism"@, 0);
        reveal_strlit("Prism");
        reveal_strlit("SelectSpin");
        lemma_prefix_mismatch(t, "Prism"@, 0);
        reveal_strlit("Prism");
        reveal_strlit("Macro");
        lemma_prefix_mismatch(t, "Prism"@, 0);
        reveal_strlit("Prism");
        reveal_strlit("Pos");
        lemma_prefix_mismatch(t, "Prism"@, 0);
        reveal_strlit("Prism");
        reveal_strlit("PosRotate");
        lemma_prefix_mismatch(t, "Prism"@, 0);
    }
    reveal_strlit("Effects");
    reveal_strlit("Adjust");
    lemma_prefix_mismatch(t, "Effects"@, 0);
    reveal_strlit("Effects");
    lemma_prefix_mismatch(t, "Effects"@, 0);
    reveal_strlit("Effects");
    reveal_strlit("Rate");
    lemma_prefix_mismatch(t, "Effects"@, 0);
    reveal_strlit("Effects");
    reveal_strlit("Fade");
    lemma_prefix_mismatch(t, "Effects"@, 0);
    reveal_strlit("Effects");
    reveal_strlit("Pos");
    lemma_prefix_mismatch(t, "Effects"@, 0);
    reveal_strlit("Effects");
    reveal_strlit("PosRotate");
    lemma_prefix_mismatch(t, "Effects"@, 0);
    reveal_strlit("Focus");
    lemma_prefix_mismatch(t, "Focus"@, 0);
    reveal_strlit("Focus");
    reveal_strlit("Adjust");
    lemma_prefix_mismatch(t, "Focus"@, 0);
    reveal_strlit("Focus");
    reveal_strlit("Distance");
    lemma_prefix_mismatch(t, "Focus"@, 0);
    reveal_strlit("Control");
    lemma_prefix_mismatch(t, "Control"@, 0);
    lemma_number_between("Gobo"@, "WheelMode"@, n);
}

/// An attribute of the numbered family `ColorMode` reads back from its written
/// name: that text is no standard name, and every numbering rule before the
/// family's own rejects it.
proof fn text_reads_back_color_mode(n: u8)
    ensures
        attribute_from_text(attribute_text(FixtureChannel3Attribute::ColorMode(n))) == Some(FixtureChannel3Attribute::ColorMode(n)),
{
    let d = decimal(n as nat);
    lemma_decimal_digits(n as nat);
    lemma_decimal_len_u8(n as nat);
    let t = attribute_text(FixtureChannel3Attribute::ColorMode(n));
    reveal_strlit("Color");
    reveal_strlit("Mode");
    assert(t == "Color"@ + d + "Mode"@);
    lemma_exact_none_with_digit(t, 5);
    reveal(numbered_attribute_2);
    assert(numbered_attribute_0(t) is None) by {
        reveal(numbered_attribute_0);
        reveal_strlit("Gobo");
        lemma_prefix_mismatch(t, "Gobo"@, 0);
        reveal_strlit("Gobo");
        reveal_strlit("SelectSpin");
        lemma_prefix_mismatch(t, "Gobo"@, 0);
        reveal_strlit("Gobo");
        reveal_strlit("SelectShake");
        lemma_prefix_mismatch(t, "Gobo"@, 0);
        reveal_strlit("Gobo");
        reveal_strlit("SelectEffects");
        lemma_prefix_mismatch(t, "Gobo"@, 0);
        reveal_strlit("Gobo");
        reveal_strlit("WheelIndex");
        lemma_prefix_mismatch(t, "Gobo"@, 0);
        reveal_strlit("Gobo");
        reveal_strlit("WheelSpin");
        lemma_prefix_mismatch(t, "Gobo"@, 0);
        reveal_strlit("Gobo");
        reveal_strlit("WheelShake");
        lemma_prefix_mismatch(t, "Gobo"@, 0);
        reveal_strlit("Gobo");
        reveal_strlit("WheelRandom");
        lemma_prefix_mismatch(t, "Gobo"@, 0);
        reveal_strlit("Gobo");
        reveal_strlit("WheelAudio");
        lemma_prefix_mismatch(t, "Gobo"@, 0);
        reveal_strlit("Gobo");
        reveal_strlit("Pos");
        lemma_prefix_mismatch(t, "Gobo"@, 0);
        reveal_strlit("Gobo");
        reveal_strlit("PosRotate");
        lemma_prefix_mismatch(t, "Gobo"@, 0);
        reveal_strlit("Gobo");
        reveal_strlit("PosShake");
        lemma_prefix_mismatch(t, "Gobo"@, 0);
        reveal_strlit("AnimationWheel");
        lemma_prefix_mismatch(t, "AnimationWheel"@, 0);
        reveal_strlit("AnimationWheel");
        reveal_strlit("Audio");
        lemma_prefix_mismatch(t, "AnimationWheel"@, 0);
        reveal_strlit("AnimationWheel");
        reveal_strlit("Macro");
        lemma_prefix_mismatch(t, "AnimationWheel"@, 0);
        reveal_strlit("AnimationWheel");
        reveal_strlit("Random");
        lemma_prefix_mismatch(t, "AnimationWheel"@, 0);
        reveal_strlit("AnimationWheel");
        reveal_strlit("SelectEffects");
        lemma_prefix_mismatch(t, "AnimationWheel"@, 0);
        reveal_strlit("AnimationWheel");
        reveal_strlit("SelectShake");
        lemma_prefix_mismatch(t, "AnimationWheel"@, 0);
        reveal_strlit("AnimationWheel");
        reveal_strlit("SelectSpin");
        lemma_prefix_mismatch(t, "AnimationWheel"@, 0);
        reveal_strlit("AnimationWheel");
        reveal_strlit("Pos");
        lemma_prefix_mismatch(t, "AnimationWheel"@, 0);
        reveal_strlit("AnimationWheel");
        reveal_strlit("PosRotate");
        lemma_prefix_mismatch(t, "AnimationWheel"@, 0);
        reveal_strlit("AnimationWheel");
        reveal_strlit("PosShake");
        lemma_prefix_mismatch(t, "AnimationWheel"@, 0);
        reveal_strlit("AnimationSystem");
        lemma_prefix_mismatch(t, "AnimationSystem"@, 0);
        reveal_strlit("AnimationSystem");
        reveal_strlit("Ramp");
        lemma_prefix_mismatch(t, "AnimationSystem"@, 0);
        reveal_strlit("AnimationSystem");
        reveal_strlit("Shake");
        lemma_prefix_mismatch(t, "AnimationSystem"@, 0);
        reveal_strlit("AnimationSystem");
        reveal_strlit("Audio");
        lemma_prefix_mismatch(t, "AnimationSystem"@, 0);
        reveal_strlit("AnimationSystem");
        reveal_strlit("Random");
        lemma_prefix_mismatch(t, "AnimationSystem"@, 0);
        reveal_strlit("AnimationSystem");
        reveal_strlit("Pos");
        lemma_prefix_mismatch(t, "AnimationSystem"@, 0);
        reveal_strlit("AnimationSystem");
        reveal_strlit("PosRotate");
        lemma_prefix_mismatch(t, "AnimationSystem"@, 0);
        reveal_strlit("AnimationSystem");
        reveal_strlit("PosShake");
        lemma_prefix_mismatch(t, "AnimationSystem"@, 0);
        reveal_strlit("AnimationSystem");
        reveal_strlit("PosRandom");
        lemma_prefix_mismatch(t, "AnimationSystem"@, 0);
        reveal_strlit("AnimationSystem");
        reveal_strlit("PosAudio");
        lemma_prefix_mismatch(t, "AnimationSystem"@, 0);
    }
    assert(numbered_attribute_1(t) is None) by {
        reveal(numbered_attribute_1);
        reveal_strlit("AnimationSystem");
        reveal_strlit("Macro");
        lemma_prefix_mismatch(t, "AnimationSystem"@, 0);
        reveal_strlit("MediaFolder");
        lemma_prefix_mismatch(t, "MediaFolder"@, 0);
        reveal_strlit("MediaContent");
        lemma_prefix_mismatch(t, "MediaContent"@, 0);
        reveal_strlit("ModelFolder");
        lemma_prefix_mismatch(t, "ModelFolder"@, 0);
        reveal_strlit("ModelContent");
        lemma_prefix_mismatch(t, "ModelContent"@, 0);
        reveal_strlit("ColorEffects");
        lemma_prefix_mismatch(t, "ColorEffects"@, 5);
        reveal_strlit("Color");
        lemma_rest_not_number(t, "Color"@, d.len() as int);
        reveal_strlit("Color");
        reveal_strlit("WheelIndex");
        lemma_suffix_mismatch(t, "Color"@, "WheelIndex"@, 0);
        reveal_strlit("Color");
        reveal_strlit("WheelSpin");
        lemma_suffix_mismatch(t, "Color"@, "WheelSpin"@, 0);
        reveal_strlit("Color");
        reveal_strlit("WheelRandom");
        lemma_suffix_mismatch(t, "Color"@, "WheelRandom"@, 0);
        reveal_strlit("Color");
        reveal_strlit("WheelAudio");
        lemma_suffix_mismatch(t, "Color"@, "WheelAudio"@, 0);
        reveal_strlit("ColorMacro");
        lemma_prefix_mismatch(t, "ColorMacro"@, 5);
        reveal_strlit("ColorMacro");
        reveal_strlit("Rate");
        lemma_prefix_mismatch(t, "ColorMacro"@, 5);
        reveal_strlit("Shutter");
        lemma_prefix_mismatch(t, "Shutter"@, 0);
        reveal_strlit("Shutter");
        reveal_strlit("Strobe");
        lemma_prefix_mismatch(t, "Shutter"@, 0);
        reveal_strlit("Shutter");
        reveal_strlit("StrobePulse");
        lemma_prefix_mismatch(t, "Shutter"@, 0);
        reveal_strlit("Shutter");
        reveal_strlit("StrobePulseClose");
        lemma_prefix_mismatch(t, "Shutter"@, 0);
        reveal_strlit("Shutter");
        reveal_strlit("StrobePulseOpen");
        lemma_prefix_mismatch(t, "Shutter"@, 0);
        reveal_strlit("Shutter");
        reveal_strlit("StrobeRandom");
        lemma_prefix_mismatch(t, "Shutter"@, 0);
        reveal_strlit("Shutter");
        reveal_strlit("StrobeRandomPulse");
        lemma_prefix_mismatch(t, "Shutter"@, 0);
        reveal_strlit("Shutter");
        reveal_strlit("StrobeRandomPulseClose");
        lemma_prefix_mismatch(t, "Shutter"@, 0);
        reveal_strlit("Shutter");
        reveal_strlit("StrobeRandomPulseOpen");
        lemma_prefix_mismatch(t, "Shutter"@, 0);
        reveal_strlit("Shutter");
        reveal_strlit("StrobeEffect");
        lemma_prefix_mismatch(t, "Shutter"@, 0);
        reveal_strlit("Frost");
        lemma_prefix_mismatch(t, "Frost"@, 0);
        reveal_strlit("Frost");
        reveal_strlit("PulseOpen");
        lemma_prefix_mismatch(t, "Frost"@, 0);
        reveal_strlit("Frost");
        reveal_strlit("PulseClose");
        lemma_prefix_mismatch(t, "Frost"@, 0);
        reveal_strlit("Frost");
        reveal_strlit("Ramp");
        lemma_prefix_mismatch(t, "Frost"@, 0);
        reveal_strlit("Prism");
        lemma_prefix_mismatch(t, "Prism"@, 0);
        reveal_strlit("Prism");
        reveal_strlit("SelectSpin");
        lemma_prefix_mismatch(t, "Prism"@, 0);
        reveal_strlit("Prism");
        reveal_strlit("Macro");
        lemma_prefix_mismatch(t, "Prism"@, 0);
        reveal_strlit("Prism");
        reveal_strlit("Pos");
        lemma_prefix_mismatch(t, "Prism"@, 0);
        reveal_strlit("Prism");
        reveal_strlit("PosRotate");
        lemma_prefix_mismatch(t, "Prism"@, 0);
    }
    reveal_strlit("Effects");
    reveal_strlit("Adjust");
    lemma_prefix_mismatch(t, "Effects"@, 0);
    reveal_strlit("Effects");
    lemma_prefix_mismatch(t, "Effects"@, 0);
    reveal_strlit("Effects");
    reveal_strlit("Rate");
    lemma_prefix_mismatch(t, "Effects"@, 0);
    reveal_strlit("Effects");
    reveal_strlit("Fade");
    lemma_prefix_mismatch(t, "Effects"@, 0);
    reveal_strlit("Effects");
    reveal_strlit("Pos");
    lemma_prefix_mismatch(t, "Effects"@, 0);
    reveal_strlit("Effects");
    reveal_strlit("PosRotate");
    lemma_prefix_mismatch(t, "Effects"@, 0);
    reveal_strlit("Focus");
    lemma_prefix_mismatch(t, "Focus"@, 0);
    reveal_strlit("Focus");
    reveal_strlit("Adjust");
    lemma_prefix_mismatch(t, "Focus"@, 0);
    reveal_strlit("Focus");
    reveal_strlit("Distance");
    lemma_prefix_mismatch(t, "Focus"@, 0);
    reveal_strlit("Control");
    lemma_prefix_mismatch(t, "Control"@, 2);
    reveal_strlit("Gobo");
    reveal_strlit("WheelMode");
    lemma_prefix_mismatch(t, "Gobo"@, 0);
    reveal_strlit("AnimationWheel");
    reveal_strlit("Mode");
    lemma_prefix_mismatch(t, "AnimationWheel"@, 0);
    lemma_number_between("Color"@, "Mode"@, n);
}

/// An attribute of the numbered family `FanMode` reads back from its written
/// name: that text is no standard name, and every numbering rule before the
/// family's own rejects it.
proof fn text_reads_back_fan_mode(n: u8)
    ensures
        attribute_from_text(attribute_text(FixtureChannel3Attribute::FanMode(n))) == Some(FixtureChannel3Attribute::FanMode(n)),
{
    let d = decimal(n as nat);
    lemma_decimal_digits(n as nat);
    lemma_decimal_len_u8(n as nat);
    let t = attribute_text(FixtureChannel3Attribute::FanMode(n));
    reveal_strlit("Fan");
    reveal_strlit("Mode");
    assert(t == "Fan"@ + d + "Mode"@);
    lemma_exact_none_with_digit(t, 3);
    reveal(numbered_attribute_2);
    assert(numbered_attribute_0(t) is None) by {
        reveal(numbered_attribute_0);
        reveal_strlit("Gobo");
        lemma_prefix_mismatch(t, "Gobo"@, 0);
        reveal_strlit("Gobo");
        reveal_strlit("SelectSpin");
        lemma_prefix_mismatch(t, "Gobo"@, 0);
        reveal_strlit("Gobo");
        reveal_strlit("SelectShake");
        lemma_prefix_mismatch(t, "Gobo"@, 0);
        reveal_strlit("Gobo");
        reveal_strlit("SelectEffects");
        lemma_prefix_mismatch(t, "Gobo"@, 0);
        reveal_strlit("Gobo");
        reveal_strlit("WheelIndex");
        lemma_prefix_mismatch(t, "Gobo"@, 0);
        reveal_strlit("Gobo");
        reveal_strlit("WheelSpin");
        lemma_prefix_mismatch(t, "Gobo"@, 0);
        reveal_strlit("Gobo");
        reveal_strlit("WheelShake");
        lemma_prefix_mismatch(t, "Gobo"@, 0);
        reveal_strlit("Gobo");
        reveal_strlit("WheelRandom");
        lemma_prefix_mismatch(t, "Gobo"@, 0);
        reveal_strlit("Gobo");
        reveal_strlit("WheelAudio");
        lemma_prefix_mismatch(t, "Gobo"@, 0);
        reveal_strlit("Gobo");
        reveal_strlit("Pos");
        lemma_prefix_mismatch(t, "Gobo"@, 0);
        reveal_strlit("Gobo");
        reveal_strlit("PosRotate");
        lemma_prefix_mismatch(t, "Gobo"@, 0);
        reveal_strlit("Gobo");
        reveal_strlit("PosShake");
        lemma_prefix_mismatch(t, "Gobo"@, 0);
        reveal_strlit("AnimationWheel");
        lemma_prefix_mismatch(t, "AnimationWheel"@, 0);
        reveal_strlit("AnimationWheel");
        reveal_strlit("Audio");
        lemma_prefix_mismatch(t, "AnimationWheel"@, 0);
        reveal_strlit("AnimationWheel");
        reveal_strlit("Macro");
        lemma_prefix_mismatch(t, "AnimationWheel"@, 0);
        reveal_strlit("AnimationWheel");
        reveal_strlit("Random");
        lemma_prefix_mismatch(t, "AnimationWheel"@, 0);
        reveal_strlit("AnimationWheel");
        reveal_strlit("SelectEffects");
        lemma_prefix_mismatch(t, "AnimationWheel"@, 0);
        reveal_strlit("AnimationWheel");
        reveal_strlit("SelectShake");
        lemma_prefix_mismatch(t, "AnimationWheel"@, 0);
        reveal_strlit("AnimationWheel");
        reveal_strlit("SelectSpin");
        lemma_prefix_mismatch(t, "AnimationWheel"@, 0);
        reveal_strlit("AnimationWheel");
        reveal_strlit("Pos");
        lemma_prefix_mismatch(t, "AnimationWheel"@, 0);
        reveal_strlit("AnimationWheel");
        reveal_strlit("PosRotate");
        lemma_prefix_mismatch(t, "AnimationWheel"@, 0);
        reveal_strlit("AnimationWheel");
        reveal_strlit("PosShake");
        lemma_prefix_mismatch(t, "AnimationWheel"@, 0);
        reveal_strlit("AnimationSystem");
        lemma_prefix_mismatch(t, "AnimationSystem"@, 0);
        reveal_strlit("AnimationSystem");
        reveal_strlit("Ramp");
        lemma_prefix_mismatch(t, "AnimationSystem"@, 0);
        reveal_strlit("AnimationSystem");
        reveal_strlit("Shake");
        lemma_prefix_mismatch(t, "AnimationSystem"@, 0);
        reveal_strlit("AnimationSystem");
        reveal_strlit("Audio");
        lemma_prefix_mismatch(t, "AnimationSystem"@, 0);
        reveal_strlit("AnimationSystem");
        reveal_strlit("Random");
        lemma_prefix_mismatch(t, "AnimationSystem"@, 0);
        reveal_strlit("AnimationSystem");
        reveal_strlit("Pos");
        lemma_prefix_mismatch(t, "AnimationSystem"@, 0);
        reveal_strlit("AnimationSystem");
        reveal_strlit("PosRotate");
        lemma_prefix_mismatch(t, "AnimationSystem"@, 0);
        reveal_strlit("AnimationSystem");
        reveal_strlit("PosShake");
        lemma_prefix_mismatch(t, "AnimationSystem"@, 0);
        reveal_strlit("AnimationSystem");
        reveal_strlit("PosRandom");
        lemma_prefix_mismatch(t, "AnimationSystem"@, 0);
        reveal_strlit("AnimationSystem");
        reveal_strlit("PosAudio");
        lemma_prefix_mismatch(t, "AnimationSystem"@, 0);
    }
    assert(numbered_attribute_1(t) is None) by {
        reveal(numbered_attribute_1);
        reveal_strlit("AnimationSystem");
        reveal_strlit("Macro");
        lemma_prefix_mismatch(t, "AnimationSystem"@, 0);
        reveal_strlit("MediaFolder");
        lemma_prefix_mismatch(t, "MediaFolder"@, 0);
        reveal_strlit("MediaContent");
        lemma_prefix_mismatch(t, "MediaContent"@, 0);
        reveal_strlit("ModelFolder");
        lemma_prefix_mismatch(t, "ModelFolder"@, 0);
        reveal_strlit("ModelContent");
        lemma_prefix_mismatch(t, "ModelContent"@, 0);
        reveal_strlit("ColorEffects");
        lemma_prefix_mismatch(t, "ColorEffects"@, 0);
        reveal_strlit("Color");
        lemma_prefix_mismatch(t, "Color"@, 0);
        reveal_strlit("Color");
        reveal_strlit("WheelIndex");
        lemma_prefix_mismatch(t, "Color"@, 0);
        reveal_strlit("Color");
        reveal_strlit("WheelSpin");
        lemma_prefix_mismatch(t, "Color"@, 0);
        reveal_strlit("Color");
        reveal_strlit("WheelRandom");
        lemma_prefix_mismatch(t, "Color"@, 0);
        reveal_strlit("Color");
        reveal_strlit("WheelAudio");
        lemma_prefix_mismatch(t, "Color"@, 0);
        reveal_strlit("ColorMacro");
        lemma_prefix_mismatch(t, "ColorMacro"@, 0);
        reveal_strlit("ColorMacro");
        reveal_strlit("Rate");
        lemma_prefix_mismatch(t, "ColorMacro"@, 0);
        reveal_strlit("Shutter");
        lemma_prefix_mismatch(t, "Shutter"@, 0);
        reveal_strlit("Shutter");
        reveal_strlit("Strobe");
        lemma_prefix_mismatch(t, "Shutter"@, 0);
        reveal_strlit("Shutter");
        reveal_strlit("StrobePulse");
        lemma_prefix_mismatch(t, "Shutter"@, 0);
        reveal_strlit("Shutter");
        reveal_strlit("StrobePulseClose");
        lemma_prefix_mismatch(t, "Shutter"@, 0);
        reveal_strlit("Shutter");
        reveal_strlit("StrobePulseOpen");
        lemma_prefix_mismatch(t, "Shutter"@, 0);
        reveal_strlit("Shutter");
        reveal_strlit("StrobeRandom");
        lemma_prefix_mismatch(t, "Shutter"@, 0);
        reveal_strlit("Shutter");
        reveal_strlit("StrobeRandomPulse");
        lemma_prefix_mismatch(t, "Shutter"@, 0);
        reveal_strlit("Shutter");
        reveal_strlit("StrobeRandomPulseClose");
        lemma_prefix_mismatch(t, "Shutter"@, 0);
        reveal_strlit("Shutter");
        reveal_strlit("StrobeRandomPulseOpen");
        lemma_prefix_mismatch(t, "Shutter"@, 0);
        reveal_strlit("Shutter");
        reveal_strlit("StrobeEffect");
        lemma_prefix_mismatch(t, "Shutter"@, 0);
        reveal_strlit("Frost");
        lemma_prefix_mismatch(t, "Frost"@, 1);
        reveal_strlit("Frost");
        reveal_strlit("PulseOpen");
        lemma_prefix_mismatch(t, "Frost"@, 1);
        reveal_strlit("Frost");
        reveal_strlit("PulseClose");
        lemma_prefix_mismatch(t, "Frost"@, 1);
        reveal_strlit("Frost");
        reveal_strlit("Ramp");
        lemma_prefix_mismatch(t, "Frost"@, 1);
        reveal_strlit("Prism");
        lemma_prefix_mismatch(t, "Prism"@, 0);
        reveal_strlit("Prism");
        reveal_strlit("SelectSpin");
        lemma_prefix_mismatch(t, "Prism"@, 0);
        reveal_strlit("Prism");
        reveal_strlit("Macro");
        lemma_prefix_mismatch(t, "Prism"@, 0);
        reveal_strlit("Prism");
        reveal_strlit("Pos");
        lemma_prefix_mismatch(t, "Prism"@, 0);
        reveal_strlit("Prism");
        reveal_strlit("PosRotate");
        lemma_prefix_mismatch(t, "Prism"@, 0);
    }
    reveal_strlit("Effects");
    reveal_strlit("Adjust");
    lemma_prefix_mismatch(t, "Effects"@, 0);
    reveal_strlit("Effects");
    lemma_prefix_mismatch(t, "Effects"@, 0);
    reveal_strlit("Effects");
    reveal_strlit("Rate");
    lemma_prefix_mismatch(t, "Effects"@, 0);
    reveal_strlit("Effects");
    reveal_strlit("Fade");
    lemma_prefix_mismatch(t, "Effects"@, 0);
    reveal_strlit("Effects");
    reveal_strlit("Pos");
    lemma_prefix_mismatch(t, "Effects"@, 0);
    reveal_strlit("Effects");
    reveal_strlit("PosRotate");
    lemma_prefix_mismatch(t, "Effects"@, 0);
    reveal_strlit("Focus");
    lemma_prefix_mismatch(t, "Focus"@, 1);
    reveal_strlit("Focus");
    reveal_strlit("Adjust");
    lemma_prefix_mismatch(t, "Focus"@, 1);
    reveal_strlit("Focus");
    reveal_strlit("Distance");
    lemma_prefix_mismatch(t, "Focus"@, 1);
    reveal_strlit("Control");
    lemma_prefix_mismatch(t, "Control"@, 0);
    reveal_strlit("Gobo");
    reveal_strlit("WheelMode");
    lemma_prefix_mismatch(t, "Gobo"@, 0);
    reveal_strlit("AnimationWheel");
    reveal_strlit("Mode");
    lemma_prefix_mismatch(t, "AnimationWheel"@, 0);
    reveal_strlit("Color");
    reveal_strlit("Mode");
    lemma_prefix_mismatch(t, "Color"@, 0);
    lemma_number_between("Fan"@, "Mode"@, n);
}

/// An attribute of the numbered family `PrismMSpeed` reads back from its written
/// name: that text is no standard name, and every numbering rule before the
/// family's own rejects it.
proof fn text_reads_back_prism_m_speed(n: u8)
    ensures
        attribute_from_text(attribute_text(FixtureChannel3Attribute::PrismMSpeed(n))) == Some(FixtureChannel3Attribute::PrismMSpeed(n)),
{
    let d = decimal(n as nat);
    lemma_decimal_digits(n as nat);
    lemma_decimal_len_u8(n as nat);
    let t = attribute_text(FixtureChannel3Attribute::PrismMSpeed(n));
    reveal_strlit("Prism");
    reveal_strlit("MSpeed");
    assert(t == "Prism"@ + d + "MSpeed"@);
    lemma_exact_none_with_digit(t, 5);
    reveal(numbered_attribute_2);
    assert(numbered_attribute_0(t) is None) by {
        reveal(numbered_attribute_0);
        reveal_strlit("Gobo");
        lemma_prefix_mismatch(t, "Gobo"@, 0);
        reveal_strlit("Gobo");
        reveal_strlit("SelectSpin");
        lemma_prefix_mismatch(t, "Gobo"@, 0);
        reveal_strlit("Gobo");
        reveal_strlit("SelectShake");
        lemma_prefix_mismatch(t, "Gobo"@, 0);
        reveal_strlit("Gobo");
        reveal_strlit("SelectEffects");
        lemma_prefix_mismatch(t, "Gobo"@, 0);
        reveal_strlit("Gobo");
        reveal_strlit("WheelIndex");
        lemma_prefix_mismatch(t, "Gobo"@, 0);
        reveal_strlit("Gobo");
        reveal_strlit("WheelSpin");
        lemma_prefix_mismatch(t, "Gobo"@, 0);
        reveal_strlit("Gobo");
        reveal_strlit("WheelShake");
        lemma_prefix_mismatch(t, "Gobo"@, 0);
        reveal_strlit("Gobo");
        reveal_strlit("WheelRandom");
        lemma_prefix_mismatch(t, "Gobo"@, 0);
        reveal_strlit("Gobo");
        reveal_strlit("WheelAudio");
        lemma_prefix_mismatch(t, "Gobo"@, 0);
        reveal_strlit("Gobo");
        reveal_strlit("Pos");
        lemma_prefix_mismatch(t, "Gobo"@, 0);
        reveal_strlit("Gobo");
        reveal_strlit("PosRotate");
        lemma_prefix_mismatch(t, "Gobo"@, 0);
        reveal_strlit("Gobo");
        reveal_strlit("PosShake");
        lemma_prefix_mismatch(t, "Gobo"@, 0);
        reveal_strlit("AnimationWheel");
        lemma_prefix_mismatch(t, "AnimationWheel"@, 0);
        reveal_strlit("AnimationWheel");
        reveal_strlit("Audio");
        lemma_prefix_mismatch(t, "AnimationWheel"@, 0);
        reveal_strlit("AnimationWheel");
        reveal_strlit("Macro");
        lemma_prefix_mismatch(t, "AnimationWheel"@, 0);
        reveal_strlit("AnimationWheel");
        reveal_strlit("Random");
        lemma_prefix_mismatch(t, "AnimationWheel"@, 0);
        reveal_strlit("AnimationWheel");
        reveal_strlit("SelectEffects");
        lemma_prefix_mismatch(t, "AnimationWheel"@, 0);
        reveal_strlit("AnimationWheel");
        reveal_strlit("SelectShake");
        lemma_prefix_mismatch(t, "AnimationWheel"@, 0);
        reveal_strlit("AnimationWheel");
        reveal_strlit("SelectSpin");
        lemma_prefix_mismatch(t, "AnimationWheel"@, 0);
        reveal_strlit("AnimationWheel");
        reveal_strlit("Pos");
        lemma_prefix_mismatch(t, "AnimationWheel"@, 0);
        reveal_strlit("AnimationWheel");
        reveal_strlit("PosRotate");
        lemma_prefix_mismatch(t, "AnimationWheel"@, 0);
        reveal_strlit("AnimationWheel");
        reveal_strlit("PosShake");
        lemma_prefix_mismatch(t, "AnimationWheel"@, 0);
        reveal_strlit("AnimationSystem");
        lemma_prefix_mismatch(t, "AnimationSystem"@, 0);
        reveal_strlit("AnimationSystem");
        reveal_strlit("Ramp");
        lemma_prefix_mismatch(t, "AnimationSystem"@, 0);
        reveal_strlit("AnimationSystem");
        reveal_strlit("Shake");
        lemma_prefix_mismatch(t, "AnimationSystem"@, 0);
        reveal_strlit("AnimationSystem");
        reveal_strlit("Audio");
        lemma_prefix_mismatch(t, "AnimationSystem"@, 0);
        reveal_strlit("AnimationSystem");
        reveal_strlit("Random");
        lemma_prefix_mismatch(t, "AnimationSystem"@, 0);
        reveal_strlit("AnimationSystem");
        reveal_strlit("Pos");
        lemma_prefix_mismatch(t, "AnimationSystem"@, 0);
        reveal_strlit("AnimationSystem");
        reveal_strlit("PosRotate");
        lemma_prefix_mismatch(t, "AnimationSystem"@, 0);
        reveal_strlit("AnimationSystem");
        reveal_strlit("PosShake");
        lemma_prefix_mismatch(t, "AnimationSystem"@, 0);
        reveal_strlit("AnimationSystem");
        reveal_strlit("PosRandom");
        lemma_prefix_mismatch(t, "AnimationSystem"@, 0);
        reveal_strlit("AnimationSystem");
        reveal_strlit("PosAudio");
        lemma_prefix_mismatch(t, "AnimationSystem"@, 0);
    }
    assert(numbered_attribute_1(t) is None) by {
        reveal(numbered_attribute_1);
        reveal_strlit("AnimationSystem");
        reveal_strlit("Macro");
        lemma_prefix_mismatch(t, "AnimationSystem"@, 0);
        reveal_strlit("MediaFolder");
        lemma_prefix_mismatch(t, "MediaFolder"@, 0);
        reveal_strlit("MediaContent");
        lemma_prefix_mismatch(t, "MediaContent"@, 0);
        reveal_strlit("ModelFolder");
        lemma_prefix_mismatch(t, "ModelFolder"@, 0);
        reveal_strlit("ModelContent");
        lemma_prefix_mismatch(t, "ModelContent"@, 0);
        reveal_strlit("ColorEffects");
        lemma_prefix_mismatch(t, "ColorEffects"@, 0);
        reveal_strlit("Color");
        lemma_prefix_mismatch(t, "Color"@, 0);
        reveal_strlit("Color");
        reveal_strlit("WheelIndex");
        lemma_prefix_mismatch(t, "Color"@, 0);
        reveal_strlit("Color");
        reveal_strlit("WheelSpin");
        lemma_prefix_mismatch(t, "Color"@, 0);
        reveal_strlit("Color");
        reveal_strlit("WheelRandom");
        lemma_prefix_mismatch(t, "Color"@, 0);
        reveal_strlit("Color");
        reveal_strlit("WheelAudio");
        lemma_prefix_mismatch(t, "Color"@, 0);
        reveal_strlit("ColorMacro");
        lemma_prefix_mismatch(t, "ColorMacro"@, 0);
        reveal_strlit("ColorMacro");
        reveal_strlit("Rate");
        lemma_prefix_mismatch(t, "ColorMacro"@, 0);
        reveal_strlit("Shutter");
        lemma_prefix_mismatch(t, "Shutter"@, 0);
        reveal_strlit("Shutter");
        reveal_strlit("Strobe");
        lemma_prefix_mismatch(t, "Shutter"@, 0);
        reveal_strlit("Shutter");
        reveal_strlit("StrobePulse");
        lemma_prefix_mismatch(t, "Shutter"@, 0);
        reveal_strlit("Shutter");
        reveal_strlit("StrobePulseClose");
        lemma_prefix_mismatch(t, "Shutter"@, 0);
        reveal_strlit("Shutter");
        reveal_strlit("StrobePulseOpen");
        lemma_prefix_mismatch(t, "Shutter"@, 0);
        reveal_strlit("Shutter");
        reveal_strlit("StrobeRandom");
        lemma_prefix_mismatch(t, "Shutter"@, 0);
        reveal_strlit("Shutter");
        reveal_strlit("StrobeRandomPulse");
        lemma_prefix_mismatch(t, "Shutter"@, 0);
        reveal_strlit("Shutter");
        reveal_strlit("StrobeRandomPulseClose");
        lemma_prefix_mismatch(t, "Shutter"@, 0);
        reveal_strlit("Shutter");
        reveal_strlit("StrobeRandomPulseOpen");
        lemma_prefix_mismatch(t, "Shutter"@, 0);
        reveal_strlit("Shutter");
        reveal_strlit("StrobeEffect");
        lemma_prefix_mismatch(t, "Shutter"@, 0);
        reveal_strlit("Frost");
        lemma_prefix_mismatch(t, "Frost"@, 0);
        reveal_strlit("Frost");
        reveal_strlit("PulseOpen");
        lemma_prefix_mismatch(t, "Frost"@, 0);
        reveal_strlit("Frost");
        reveal_strlit("PulseClose");
        lemma_prefix_mismatch(t, "Frost"@, 0);
        reveal_strlit("Frost");
        reveal_strlit("Ramp");
        lemma_prefix_mismatch(t, "Frost"@, 0);
        reveal_strlit("Prism");
        lemma_rest_not_number(t, "Prism"@, d.len() as int);
        reveal_strlit("Prism");
        reveal_strlit("SelectSpin");
        lemma_suffix_mismatch(t, "Prism"@, "SelectSpin"@, 0);
        reveal_strlit("Prism");
        reveal_strlit("Macro");
        lemma_suffix_mismatch(t, "Prism"@, "Macro"@, 0);
        reveal_strlit("Prism");
        reveal_strlit("Pos");
        lemma_suffix_mismatch(t, "Prism"@, "Pos"@, 0);
        reveal_strlit("Prism");
        reveal_strlit("PosRotate");
        lemma_suffix_mismatch(t, "Prism"@, "PosRotate"@, 0);
    }
    reveal_strlit("Effects");
    reveal_strlit("Adjust");
    lemma_prefix_mismatch(t, "Effects"@, 0);
    reveal_strlit("Effects");
    lemma_prefix_mismatch(t, "Effects"@, 0);
    reveal_strlit("Effects");
    reveal_strlit("Rate");
    lemma_prefix_mismatch(t, "Effects"@, 0);
    reveal_strlit("Effects");
    reveal_strlit("Fade");
    lemma_prefix_mismatch(t, "Effects"@, 0);
    reveal_strlit("Effects");
    reveal_strlit("Pos");
    lemma_prefix_mismatch(t, "Effects"@, 0);
    reveal_strlit("Effects");
    reveal_strlit("PosRotate");
    lemma_prefix_mismatch(t, "Effects"@, 0);
    reveal_strlit("Focus");
    lemma_prefix_mismatch(t, "Focus"@, 0);
    reveal_strlit("Focus");
    reveal_strlit("Adjust");
    lemma_prefix_mismatch(t, "Focus"@, 0);
    reveal_strlit("Focus");
    reveal_strlit("Distance");
    lemma_prefix_mismatch(t, "Focus"@, 0);
    reveal_strlit("Control");
    lemma_prefix_mismatch(t, "Control"@, 0);
    reveal_strlit("Gobo");
    reveal_strlit("WheelMode");
    lemma_prefix_mismatch(t, "Gobo"@, 0);
    reveal_strlit("AnimationWheel");
    reveal_strlit("Mode");
    lemma_prefix_mismatch(t, "AnimationWheel"@, 0);
    reveal_strlit("Color");
    reveal_strlit("Mode");
    lemma_prefix_mismatch(t, "Color"@, 0);
    reveal_strlit("Fan");
    reveal_strlit("Mode");
    lemma_prefix_mismatch(t, "Fan"@, 0);
    reveal_strlit("GoboWheel");
    reveal_strlit("MSpeed");
    lemma_prefix_mismatch(t, "GoboWheel"@, 0);
    lemma_number_between("Prism"@, "MSpeed"@, n);
}

/// An attribute of the numbered family `FrostMSpeed` reads back from its written
/// name: that text is no standard name, and every numbering rule before the
/// family's own rejects it.
proof fn text_reads_back_frost_m_speed(n: u8)
    ensures
        attribute_from_text(attribute_text(FixtureChannel3Attribute::FrostMSpeed(n))) == Some(FixtureChannel3Attribute::FrostMSpeed(n)),
{
    let d = decimal(n as nat);
    lemma_decimal_digits(n as nat);
    lemma_decimal_len_u8(n as nat);
    let t = attribute_text(FixtureChannel3Attribute::FrostMSpeed(n));
    reveal_strlit("Frost");
    reveal_strlit("MSpeed");
    assert(t == "Frost"@ + d + "MSpeed"@);
    lemma_exact_none_with_digit(t, 5);
    reveal(numbered_attribute_2);
    assert(numbered_attribute_0(t) is None) by {
        reveal(numbered_attribute_0);
        reveal_strlit("Gobo");
        lemma_prefix_mismatch(t, "Gobo"@, 0);
        reveal_strlit("Gobo");
        reveal_strlit("SelectSpin");
        lemma_prefix_mismatch(t, "Gobo"@, 0);
        reveal_strlit("Gobo");
        reveal_strlit("SelectShake");
        lemma_prefix_mismatch(t, "Gobo"@, 0);
        reveal_strlit("Gobo");
        reveal_strlit("SelectEffects");
        lemma_prefix_mismatch(t, "Gobo"@, 0);
        reveal_strlit("Gobo");
        reveal_strlit("WheelIndex");
        lemma_prefix_mismatch(t, "Gobo"@, 0);
        reveal_strlit("Gobo");
        reveal_strlit("WheelSpin");
        lemma_prefix_mismatch(t, "Gobo"@, 0);
        reveal_strlit("Gobo");
        reveal_strlit("WheelShake");
        lemma_prefix_mismatch(t, "Gobo"@, 0);
        reveal_strlit("Gobo");
        reveal_strlit("WheelRandom");
        lemma_prefix_mismatch(t, "Gobo"@, 0);
        reveal_strlit("Gobo");
        reveal_strlit("WheelAudio");
        lemma_prefix_mismatch(t, "Gobo"@, 0);
        reveal_strlit("Gobo");
        reveal_strlit("Pos");
        lemma_prefix_mismatch(t, "Gobo"@, 0);
        reveal_strlit("Gobo");
        reveal_strlit("PosRotate");
        lemma_prefix_mismatch(t, "Gobo"@, 0);
        reveal_strlit("Gobo");
        reveal_strlit("PosShake");
        lemma_prefix_mismatch(t, "Gobo"@, 0);
        reveal_strlit("AnimationWheel");
        lemma_prefix_mismatch(t, "AnimationWheel"@, 0);
        reveal_strlit("AnimationWheel");
        reveal_strlit("Audio");
        lemma_prefix_mismatch(t, "AnimationWheel"@, 0);
        reveal_strlit("AnimationWheel");
        reveal_strlit("Macro");
        lemma_prefix_mismatch(t, "AnimationWheel"@, 0);
        reveal_strlit("AnimationWheel");
        reveal_strlit("Random");
        lemma_prefix_mismatch(t, "AnimationWheel"@, 0);
        reveal_strlit("AnimationWheel");
        reveal_strlit("SelectEffects");
        lemma_prefix_mismatch(t, "AnimationWheel"@, 0);
        reveal_strlit("AnimationWheel");
        reveal_strlit("SelectShake");
        lemma_prefix_mismatch(t, "AnimationWheel"@, 0);
        reveal_strlit("AnimationWheel");
        reveal_strlit("SelectSpin");
        lemma_prefix_mismatch(t, "AnimationWheel"@, 0);
        reveal_strlit("AnimationWheel");
        reveal_strlit("Pos");
        lemma_prefix_mismatch(t, "AnimationWheel"@, 0);
        reveal_strlit("AnimationWheel");
        reveal_strlit("PosRotate");
        lemma_prefix_mismatch(t, "AnimationWheel"@, 0);
        reveal_strlit("AnimationWheel");
        reveal_strlit("PosShake");
        lemma_prefix_mismatch(t, "AnimationWheel"@, 0);
        reveal_strlit("AnimationSystem");
        lemma_prefix_mismatch(t, "AnimationSystem"@, 0);
        reveal_strlit("AnimationSystem");
        reveal_strlit("Ramp");
        lemma_prefix_mismatch(t, "AnimationSystem"@, 0);
        reveal_strlit("AnimationSystem");
        reveal_strlit("Shake");
        lemma_prefix_mismatch(t, "AnimationSystem"@, 0);
        reveal_strlit("AnimationSystem");
        reveal_strlit("Audio");
        lemma_prefix_mismatch(t, "AnimationSystem"@, 0);
        reveal_strlit("AnimationSystem");
        reveal_strlit("Random");
        lemma_prefix_mismatch(t, "AnimationSystem"@, 0);
        reveal_strlit("AnimationSystem");
        reveal_strlit("Pos");
        lemma_prefix_mismatch(t, "AnimationSystem"@, 0);
        reveal_strlit("AnimationSystem");
        reveal_strlit("PosRotate");
        lemma_prefix_mismatch(t, "AnimationSystem"@, 0);
        reveal_strlit("AnimationSystem");
        reveal_strlit("PosShake");
        lemma_prefix_mismatch(t, "AnimationSystem"@, 0);
        reveal_strlit("AnimationSystem");
        reveal_strlit("PosRandom");
        lemma_prefix_mismatch(t, "AnimationSystem"@, 0);
        reveal_strlit("AnimationSystem");
        reveal_strlit("PosAudio");
        lemma_prefix_mismatch(t, "AnimationSystem"@, 0);
    }
    assert(numbered_attribute_1(t) is None) by {
        reveal(numbered_attribute_1);
        reveal_strlit("AnimationSystem");
        reveal_strlit("Macro");
        lemma_prefix_mismatch(t, "AnimationSystem"@, 0);
        reveal_strlit("MediaFolder");
        lemma_prefix_mismatch(t, "MediaFolder"@, 0);
        reveal_strlit("MediaContent");
        lemma_prefix_mismatch(t, "MediaContent"@, 0);
        reveal_strlit("ModelFolder");
        lemma_prefix_mismatch(t, "ModelFolder"@, 0);
        reveal_strlit("ModelContent");
        lemma_prefix_mismatch(t, "ModelContent"@, 0);
        reveal_strlit("ColorEffects");
        lemma_prefix_mismatch(t, "ColorEffects"@, 0);
        reveal_strlit("Color");
        lemma_prefix_mismatch(t, "Color"@, 0);
        reveal_strlit("Color");
        reveal_strlit("WheelIndex");
        lemma_prefix_mismatch(t, "Color"@, 0);
        reveal_strlit("Color");
        reveal_strlit("WheelSpin");
        lemma_prefix_mismatch(t, "Color"@, 0);
        reveal_strlit("Color");
        reveal_strlit("WheelRandom");
        lemma_prefix_mismatch(t, "Color"@, 0);
        reveal_strlit("Color");
        reveal_strlit("WheelAudio");
        lemma_prefix_mismatch(t, "Color"@, 0);
        reveal_strlit("ColorMacro");
        lemma_prefix_mismatch(t, "ColorMacro"@, 0);
        reveal_strlit("ColorMacro");
        reveal_strlit("Rate");
        lemma_prefix_mismatch(t, "ColorMacro"@, 0);
        reveal_strlit("Shutter");
        lemma_prefix_mismatch(t, "Shutter"@, 0);
        reveal_strlit("Shutter");
        reveal_strlit("Strobe");
        lemma_prefix_mismatch(t, "Shutter"@, 0);
        reveal_strlit("Shutter");
        reveal_strlit("StrobePulse");
        lemma_prefix_mismatch(t, "Shutter"@, 0);
        reveal_strlit("Shutter");
        reveal_strlit("StrobePulseClose");
        lemma_prefix_mismatch(t, "Shutter"@, 0);
        reveal_strlit("Shutter");
        reveal_strlit("StrobePulseOpen");
        lemma_prefix_mismatch(t, "Shutter"@, 0);
        reveal_strlit("Shutter");
        reveal_strlit("StrobeRandom");
        lemma_prefix_mismatch(t, "Shutter"@, 0);
        reveal_strlit("Shutter");
        reveal_strlit("StrobeRandomPulse");
        lemma_prefix_mismatch(t, "Shutter"@, 0);
        reveal_strlit("Shutter");
        reveal_strlit("StrobeRandomPulseClose");
        lemma_prefix_mismatch(t, "Shutter"@, 0);
        reveal_strlit("Shutter");
        reveal_strlit("StrobeRandomPulseOpen");
        lemma_prefix_mismatch(t, "Shutter"@, 0);
        reveal_strlit("Shutter");
        reveal_strlit("StrobeEffect");
        lemma_prefix_mismatch(t, "Shutter"@, 0);
        reveal_strlit("Frost");
        lemma_rest_not_number(t, "Frost"@, d.len() as int);
        reveal_strlit("Frost");
        reveal_strlit("PulseOpen");
        lemma_suffix_mismatch(t, "Frost"@, "PulseOpen"@, 0);
        reveal_strlit("Frost");
        reveal_strlit("PulseClose");
        lemma_suffix_mismatch(t, "Frost"@, "PulseClose"@, 0);
        reveal_strlit("Frost");
        reveal_strlit("Ramp");
        lemma_suffix_mismatch(t, "Frost"@, "Ramp"@, 0);
        reveal_strlit("Prism");
        lemma_prefix_mismatch(t, "Prism"@, 0);
        reveal_strlit("Prism");
        reveal_strlit("SelectSpin");
        lemma_prefix_mismatch(t, "Prism"@, 0);
        reveal_strlit("Prism");
        reveal_strlit("Macro");
        lemma_prefix_mismatch(t, "Prism"@, 0);
        reveal_strlit("Prism");
        reveal_strlit("Pos");
        lemma_prefix_mismatch(t, "Prism"@, 0);
        reveal_strlit("Prism");
        reveal_strlit("PosRotate");
        lemma_prefix_mismatch(t, "Prism"@, 0);
    }
    reveal_strlit("Effects");
    reveal_strlit("Adjust");
    lemma_prefix_mismatch(t, "Effects"@, 0);
    reveal_strlit("Effects");
    lemma_prefix_mismatch(t, "Effects"@, 0);
    reveal_strlit("Effects");
    reveal_strlit("Rate");
    lemma_prefix_mismatch(t, "Effects"@, 0);
    reveal_strlit("Effects");
    reveal_strlit("Fade");
    lemma_prefix_mismatch(t, "Effects"@, 0);
    reveal_strlit("Effects");
    reveal_strlit("Pos");
    lemma_prefix_mismatch(t, "Effects"@, 0);
    reveal_strlit("Effects");
    reveal_strlit("PosRotate");
    lemma_prefix_mismatch(t, "Effects"@, 0);
    reveal_strlit("Focus");
    lemma_prefix_mismatch(t, "Focus"@, 1);
    reveal_strlit("Focus");
    reveal_strlit("Adjust");
    lemma_prefix_mismatch(t, "Focus"@, 1);
    reveal_strlit("Focus");
    reveal_strlit("Distance");
    lemma_prefix_mismatch(t, "Focus"@, 1);
    reveal_strlit("Control");
    lemma_prefix_mismatch(t, "Control"@, 0);
    reveal_strlit("Gobo");
    reveal_strlit("WheelMode");
    lemma_prefix_mismatch(t, "Gobo"@, 0);
    reveal_strlit("AnimationWheel");
    reveal_strlit("Mode");
    lemma_prefix_mismatch(t, "AnimationWheel"@, 0);
    reveal_strlit("Color");
    reveal_strlit("Mode");
    lemma_prefix_mismatch(t, "Color"@, 0);
    reveal_strlit("Fan");
    reveal_strlit("Mode");
    lemma_prefix_mismatch(t, "Fan"@, 1);
    reveal_strlit("GoboWheel");
    reveal_strlit("MSpeed");
    lemma_prefix_mismatch(t, "GoboWheel"@, 0);
    reveal_strlit("Prism");
    reveal_strlit("MSpeed");
    lemma_prefix_mismatch(t, "Prism"@, 0);
    lemma_number_between("Frost"@, "MSpeed"@, n);
}

/// An attribute of the numbered family `Blower` reads back from its written
/// name: that text is no standard name, and every numbering rule before the
/// family's own rejects it.
proof fn text_reads_back_blower(n: u8)
    ensures
        attribute_from_text(attribute_text(FixtureChannel3Attribute::Blower(n))) == Some(FixtureChannel3Attribute::Blower(n)),
{
    let d = decimal(n as nat);
    lemma_decimal_digits(n as nat);
    lemma_decimal_len_u8(n as nat);
    let t = attribute_text(FixtureChannel3Attribute::Blower(n));
    reveal_strlit("Blower");
    assert(t == "Blower"@ + d);
    lemma_exact_none_with_digit(t, 6);
    reveal(numbered_attribute_2);
    assert(numbered_attribute_0(t) is None) by {
        reveal(numbered_attribute_0);
        reveal_strlit("Gobo");
        lemma_prefix_mismatch(t, "Gobo"@, 0);
        reveal_strlit("Gobo");
        reveal_strlit("SelectSpin");
        lemma_prefix_mismatch(t, "Gobo"@, 0);
        reveal_strlit("Gobo");
        reveal_strlit("SelectShake");
        lemma_prefix_mismatch(t, "Gobo"@, 0);
        reveal_strlit("Gobo");
        reveal_strlit("SelectEffects");
        lemma_prefix_mismatch(t, "Gobo"@, 0);
        reveal_strlit("Gobo");
        reveal_strlit("WheelIndex");
        lemma_prefix_mismatch(t, "Gobo"@, 0);
        reveal_strlit("Gobo");
        reveal_strlit("WheelSpin");
        lemma_prefix_mismatch(t, "Gobo"@, 0);
        reveal_strlit("Gobo");
        reveal_strlit("WheelShake");
        lemma_prefix_mismatch(t, "Gobo"@, 0);
        reveal_strlit("Gobo");
        reveal_strlit("WheelRandom");
        lemma_prefix_mismatch(t, "Gobo"@, 0);
        reveal_strlit("Gobo");
        reveal_strlit("WheelAudio");
        lemma_prefix_mismatch(t, "Gobo"@, 0);
        reveal_strlit("Gobo");
        reveal_strlit("Pos");
        lemma_prefix_mismatch(t, "Gobo"@, 0);
        reveal_strlit("Gobo");
        reveal_strlit("PosRotate");
        lemma_prefix_mismatch(t, "Gobo"@, 0);
        reveal_strlit("Gobo");
        reveal_strlit("PosShake");
        lemma_prefix_mismatch(t, "Gobo"@, 0);
        reveal_strlit("AnimationWheel");
        lemma_prefix_mismatch(t, "AnimationWheel"@, 0);
        reveal_strlit("AnimationWheel");
        reveal_strlit("Audio");
        lemma_prefix_mismatch(t, "AnimationWheel"@, 0);
        reveal_strlit("AnimationWheel");
        reveal_strlit("Macro");
        lemma_prefix_mismatch(t, "AnimationWheel"@, 0);
        reveal_strlit("AnimationWheel");
        reveal_strlit("Random");
        lemma_prefix_mismatch(t, "AnimationWheel"@, 0);
        reveal_strlit("AnimationWheel");
        reveal_strlit("SelectEffects");
        lemma_prefix_mismatch(t, "AnimationWheel"@, 0);
        reveal_strlit("AnimationWheel");
        reveal_strlit("SelectShake");
        lemma_prefix_mismatch(t, "AnimationWheel"@, 0);
        reveal_strlit("AnimationWheel");
        reveal_strlit("SelectSpin");
        lemma_prefix_mismatch(t, "AnimationWheel"@, 0);
        reveal_strlit("AnimationWheel");
        reveal_strlit("Pos");
        lemma_prefix_mismatch(t, "AnimationWheel"@, 0);
        reveal_strlit("AnimationWheel");
        reveal_strlit("PosRotate");
        lemma_prefix_mismatch(t, "AnimationWheel"@, 0);
        reveal_strlit("AnimationWheel");
        reveal_strlit("PosShake");
        lemma_prefix_mismatch(t, "AnimationWheel"@, 0);
        reveal_strlit("AnimationSystem");
        lemma_prefix_mismatch(t, "AnimationSystem"@, 0);
        reveal_strlit("AnimationSystem");
        reveal_strlit("Ramp");
        lemma_prefix_mismatch(t, "AnimationSystem"@, 0);
        reveal_strlit("AnimationSystem");
        reveal_strlit("Shake");
        lemma_prefix_mismatch(t, "AnimationSystem"@, 0);
        reveal_strlit("AnimationSystem");
        reveal_strlit("Audio");
        lemma_prefix_mismatch(t, "AnimationSystem"@, 0);
        reveal_strlit("AnimationSystem");
        reveal_strlit("Random");
        lemma_prefix_mismatch(t, "AnimationSystem"@, 0);
        reveal_strlit("AnimationSystem");
        reveal_strlit("Pos");
        lemma_prefix_mismatch(t, "AnimationSystem"@, 0);
        reveal_strlit("AnimationSystem");
        reveal_strlit("PosRotate");
        lemma_prefix_mismatch(t, "AnimationSystem"@, 0);
        reveal_strlit("AnimationSystem");
        reveal_strlit("PosShake");
        lemma_prefix_mismatch(t, "AnimationSystem"@, 0);
        reveal_strlit("AnimationSystem");
        reveal_strlit("PosRandom");
        lemma_prefix_mismatch(t, "AnimationSystem"@, 0);
        reveal_strlit("AnimationSystem");
        reveal_strlit("PosAudio");
        lemma_prefix_mismatch(t, "AnimationSystem"@, 0);
    }
    assert(numbered_attribute_1(t) is None) by {
        reveal(numbered_attribute_1);
        reveal_strlit("AnimationSystem");
        reveal_strlit("Macro");
        lemma_prefix_mismatch(t, "AnimationSystem"@, 0);
        reveal_strlit("MediaFolder");
        lemma_prefix_mismatch(t, "MediaFolder"@, 0);
        reveal_strlit("MediaContent");
        lemma_prefix_mismatch(t, "MediaContent"@, 0);
        reveal_strlit("ModelFolder");
        lemma_prefix_mismatch(t, "ModelFolder"@, 0);
        reveal_strlit("ModelContent");
        lemma_prefix_mismatch(t, "ModelContent"@, 0);
        reveal_strlit("ColorEffects");
        lemma_prefix_mismatch(t, "ColorEffects"@, 0);
        reveal_strlit("Color");
        lemma_prefix_mismatch(t, "Color"@, 0);
        reveal_strlit("Color");
        reveal_strlit("WheelIndex");
        lemma_prefix_mismatch(t, "Color"@, 0);
        reveal_strlit("Color");
        reveal_strlit("WheelSpin");
        lemma_prefix_mismatch(t, "Color"@, 0);
        reveal_strlit("Color");
        reveal_strlit("WheelRandom");
        lemma_prefix_mismatch(t, "Color"@, 0);
        reveal_strlit("Color");
        reveal_strlit("WheelAudio");
        lemma_prefix_mismatch(t, "Color"@, 0);
        reveal_strlit("ColorMacro");
        lemma_prefix_mismatch(t, "ColorMacro"@, 0);
        reveal_strlit("ColorMacro");
        reveal_strlit("Rate");
        lemma_prefix_mismatch(t, "ColorMacro"@, 0);
        reveal_strlit("Shutter");
        lemma_prefix_mismatch(t, "Shutter"@, 0);
        reveal_strlit("Shutter");
        reveal_strlit("Strobe");
        lemma_prefix_mismatch(t, "Shutter"@, 0);
        reveal_strlit("Shutter");
        reveal_strlit("StrobePulse");
        lemma_prefix_mismatch(t, "Shutter"@, 0);
        reveal_strlit("Shutter");
        reveal_strlit("StrobePulseClose");
        lemma_prefix_mismatch(t, "Shutter"@, 0);
        reveal_strlit("Shutter");
        reveal_strlit("StrobePulseOpen");
        lemma_prefix_mismatch(t, "Shutter"@, 0);
        reveal_strlit("Shutter");
        reveal_strlit("StrobeRandom");
        lemma_prefix_mismatch(t, "Shutter"@, 0);
        reveal_strlit("Shutter");
        reveal_strlit("StrobeRandomPulse");
        lemma_prefix_mismatch(t, "Shutter"@, 0);
        reveal_strlit("Shutter");
        reveal_strlit("StrobeRandomPulseClose");
        lemma_prefix_mismatch(t, "Shutter"@, 0);
        reveal_strlit("Shutter");
        reveal_strlit("StrobeRandomPulseOpen");
        lemma_prefix_mismatch(t, "Shutter"@, 0);
        reveal_strlit("Shutter");
        reveal_strlit("StrobeEffect");
        lemma_prefix_mismatch(t, "Shutter"@, 0);
        reveal_strlit("Frost");
        lemma_prefix_mismatch(t, "Frost"@, 0);
        reveal_strlit("Frost");
        reveal_strlit("PulseOpen");
        lemma_prefix_mismatch(t, "Frost"@, 0);
        reveal_strlit("Frost");
        reveal_strlit("PulseClose");
        lemma_prefix_mismatch(t, "Frost"@, 0);
        reveal_strlit("Frost");
        reveal_strlit("Ramp");
        lemma_prefix_mismatch(t, "Frost"@, 0);
        reveal_strlit("Prism");
        lemma_prefix_mismatch(t, "Prism"@, 0);
        reveal_strlit("Prism");
        reveal_strlit("SelectSpin");
        lemma_prefix_mismatch(t, "Prism"@, 0);
        reveal_strlit("Prism");
        reveal_strlit("Macro");
        lemma_prefix_mismatch(t, "Prism"@, 0);
        reveal_strlit("Prism");
        reveal_strlit("Pos");
        lemma_prefix_mismatch(t, "Prism"@, 0);
        reveal_strlit("Prism");
        reveal_strlit("PosRotate");
        lemma_prefix_mismatch(t, "Prism"@, 0);
    }
    reveal_strlit("Effects");
    reveal_strlit("Adjust");
    lemma_prefix_mismatch(t, "Effects"@, 0);
    reveal_strlit("Effects");
    lemma_prefix_mismatch(t, "Effects"@, 0);
    reveal_strlit("Effects");
    reveal_strlit("Rate");
    lemma_prefix_mismatch(t, "Effects"@, 0);
    reveal_strlit("Effects");
    reveal_strlit("Fade");
    lemma_prefix_mismatch(t, "Effects"@, 0);
    reveal_strlit("Effects");
    reveal_strlit("Pos");
    lemma_prefix_mismatch(t, "Effects"@, 0);
    reveal_strlit("Effects");
    reveal_strlit("PosRotate");
    lemma_prefix_mismatch(t, "Effects"@, 0);
    reveal_strlit("Focus");
    lemma_prefix_mismatch(t, "Focus"@, 0);
    reveal_strlit("Focus");
    reveal_strlit("Adjust");
    lemma_prefix_mismatch(t, "Focus"@, 0);
    reveal_strlit("Focus");
    reveal_strlit("Distance");
    lemma_prefix_mismatch(t, "Focus"@, 0);
    reveal_strlit("Control");
    lemma_prefix_mismatch(t, "Control"@, 0);
    reveal_strlit("Gobo");
    reveal_strlit("WheelMode");
    lemma_prefix_mismatch(t, "Gobo"@, 0);
    reveal_strlit("AnimationWheel");
    reveal_strlit("Mode");
    lemma_prefix_mismatch(t, "AnimationWheel"@, 0);
    reveal_strlit("Color");
    reveal_strlit("Mode");
    lemma_prefix_mismatch(t, "Color"@, 0);
    reveal_strlit("Fan");
    reveal_strlit("Mode");
    lemma_prefix_mismatch(t, "Fan"@, 0);
    reveal_strlit("GoboWheel");
    reveal_strlit("MSpeed");
    lemma_prefix_mismatch(t, "GoboWheel"@, 0);
    reveal_strlit("Prism");
    reveal_strlit("MSpeed");
    lemma_prefix_mismatch(t, "Prism"@, 0);
    reveal_strlit("Frost");
    reveal_strlit("MSpeed");
    lemma_prefix_mismatch(t, "Frost"@, 0);
    lemma_number_after("Blower"@, n);
}

/// An attribute of the numbered family `Fan` reads back from its written
/// name: that text is no standard name, and every numbering rule before the
/// family's own rejects it.
proof fn text_reads_back_fan(n: u8)
    ensures
        attribute_from_text(attribute_text(FixtureChannel3Attribute::Fan(n))) == Some(FixtureChannel3Attribute::Fan(n)),
{
    let d = decimal(n as nat);
    lemma_decimal_digits(n as nat);
    lemma_decimal_len_u8(n as nat);
    let t = attribute_text(FixtureChannel3Attribute::Fan(n));
    reveal_strlit("Fan");
    assert(t == "Fan"@ + d);
    lemma_exact_none_with_digit(t, 3);
    reveal(numbered_attribute_2);
    assert(numbered_attribute_0(t) is None) by {
        reveal(numbered_attribute_0);
        reveal_strlit("Gobo");
        lemma_prefix_mismatch(t, "Gobo"@, 0);
        reveal_strlit("Gobo");
        reveal_strlit("SelectSpin");
        lemma_prefix_mismatch(t, "Gobo"@, 0);
        reveal_strlit("Gobo");
        reveal_strlit("SelectShake");
        lemma_prefix_mismatch(t, "Gobo"@, 0);
        reveal_strlit("Gobo");
        reveal_strlit("SelectEffects");
        lemma_prefix_mismatch(t, "Gobo"@, 0);
        reveal_strlit("Gobo");
        reveal_strlit("WheelIndex");
        lemma_prefix_mismatch(t, "Gobo"@, 0);
        reveal_strlit("Gobo");
        reveal_strlit("WheelSpin");
        lemma_prefix_mismatch(t, "Gobo"@, 0);
        reveal_strlit("Gobo");
        reveal_strlit("WheelShake");
        lemma_prefix_mismatch(t, "Gobo"@, 0);
        reveal_strlit("Gobo");
        reveal_strlit("WheelRandom");
        lemma_prefix_mismatch(t, "Gobo"@, 0);
        reveal_strlit("Gobo");
        reveal_strlit("WheelAudio");
        lemma_prefix_mismatch(t, "Gobo"@, 0);
        reveal_strlit("Gobo");
        reveal_strlit("Pos");
        lemma_prefix_mismatch(t, "Gobo"@, 0);
        reveal_strlit("Gobo");
        reveal_strlit("PosRotate");
        lemma_prefix_mismatch(t, "Gobo"@, 0);
        reveal_strlit("Gobo");
        reveal_strlit("PosShake");
        lemma_prefix_mismatch(t, "Gobo"@, 0);
        reveal_strlit("AnimationWheel");
        lemma_prefix_mismatch(t, "AnimationWheel"@, 0);
        reveal_strlit("AnimationWheel");
        reveal_strlit("Audio");
        lemma_prefix_mismatch(t, "AnimationWheel"@, 0);
        reveal_strlit("AnimationWheel");
        reveal_strlit("Macro");
        lemma_prefix_mismatch(t, "AnimationWheel"@, 0);
        reveal_strlit("AnimationWheel");
        reveal_strlit("Random");
        lemma_prefix_mismatch(t, "AnimationWheel"@, 0);
        reveal_strlit("AnimationWheel");
        reveal_strlit("SelectEffects");
        lemma_prefix_mismatch(t, "AnimationWheel"@, 0);
        reveal_strlit("AnimationWheel");
        reveal_strlit("SelectShake");
        lemma_prefix_mismatch(t, "AnimationWheel"@, 0);
        reveal_strlit("AnimationWheel");
        reveal_strlit("SelectSpin");
        lemma_prefix_mismatch(t, "AnimationWheel"@, 0);
        reveal_strlit("AnimationWheel");
        reveal_strlit("Pos");
        lemma_prefix_mismatch(t, "AnimationWheel"@, 0);
        reveal_strlit("AnimationWheel");
        reveal_strlit("PosRotate");
        lemma_prefix_mismatch(t, "AnimationWheel"@, 0);
        reveal_strlit("AnimationWheel");
        reveal_strlit("PosShake");
        lemma_prefix_mismatch(t, "AnimationWheel"@, 0);
        reveal_strlit("AnimationSystem");
        lemma_prefix_mismatch(t, "AnimationSystem"@, 0);
        reveal_strlit("AnimationSystem");
        reveal_strlit("Ramp");
        lemma_prefix_mismatch(t, "AnimationSystem"@, 0);
        reveal_strlit("AnimationSystem");
        reveal_strlit("Shake");
        lemma_prefix_mismatch(t, "AnimationSystem"@, 0);
        reveal_strlit("AnimationSystem");
        reveal_strlit("Audio");
        lemma_prefix_mismatch(t, "AnimationSystem"@, 0);
        reveal_strlit("AnimationSystem");
        reveal_strlit("Random");
        lemma_prefix_mismatch(t, "AnimationSystem"@, 0);
        reveal_strlit("AnimationSystem");
        reveal_strlit("Pos");
        lemma_prefix_mismatch(t, "AnimationSystem"@, 0);
        reveal_strlit("AnimationSystem");
        reveal_strlit("PosRotate");
        lemma_prefix_mismatch(t, "AnimationSystem"@, 0);
        reveal_strlit("AnimationSystem");
        reveal_strlit("PosShake");
        lemma_prefix_mismatch(t, "AnimationSystem"@, 0);
        reveal_strlit("AnimationSystem");
        reveal_strlit("PosRandom");
        lemma_prefix_mismatch(t, "AnimationSystem"@, 0);
        reveal_strlit("AnimationSystem");
        reveal_strlit("PosAudio");
        lemma_prefix_mismatch(t, "AnimationSystem"@, 0);
    }
    assert(numbered_attribute_1(t) is None) by {
        reveal(numbered_attribute_1);
        reveal_strlit("AnimationSystem");
        reveal_strlit("Macro");
        lemma_prefix_mismatch(t, "AnimationSystem"@, 0);
        reveal_strlit("MediaFolder");
        lemma_prefix_mismatch(t, "MediaFolder"@, 0);
        reveal_strlit("MediaContent");
        lemma_prefix_mismatch(t, "MediaContent"@, 0);
        reveal_strlit("ModelFolder");
        lemma_prefix_mismatch(t, "ModelFolder"@, 0);
        reveal_strlit("ModelContent");
        lemma_prefix_mismatch(t, "ModelContent"@, 0);
        reveal_strlit("ColorEffects");
        lemma_prefix_mismatch(t, "ColorEffects"@, 0);
        reveal_strlit("Color");
        lemma_prefix_mismatch(t, "Color"@, 0);
        reveal_strlit("Color");
        reveal_strlit("WheelIndex");
        lemma_prefix_mismatch(t, "Color"@, 0);
        reveal_strlit("Color");
        reveal_strlit("WheelSpin");
        lemma_prefix_mismatch(t, "Color"@, 0);
        reveal_strlit("Color");
        reveal_strlit("WheelRandom");
        lemma_prefix_mismatch(t, "Color"@, 0);
        reveal_strlit("Color");
        reveal_strlit("WheelAudio");
        lemma_prefix_mismatch(t, "Color"@, 0);
        reveal_strlit("ColorMacro");
        lemma_prefix_mismatch(t, "ColorMacro"@, 0);
        reveal_strlit("ColorMacro");
        reveal_strlit("Rate");
        lemma_prefix_mismatch(t, "ColorMacro"@, 0);
        reveal_strlit("Shutter");
        lemma_prefix_mismatch(t, "Shutter"@, 0);
        reveal_strlit("Shutter");
        reveal_strlit("Strobe");
        lemma_prefix_mismatch(t, "Shutter"@, 0);
        reveal_strlit("Shutter");
        reveal_strlit("StrobePulse");
        lemma_prefix_mismatch(t, "Shutter"@, 0);
        reveal_strlit("Shutter");
        reveal_strlit("StrobePulseClose");
        lemma_prefix_mismatch(t, "Shutter"@, 0);
        reveal_strlit("Shutter");
        reveal_strlit("StrobePulseOpen");
        lemma_prefix_mismatch(t, "Shutter"@, 0);
        reveal_strlit("Shutter");
        reveal_strlit("StrobeRandom");
        lemma_prefix_mismatch(t, "Shutter"@, 0);
        reveal_strlit("Shutter");
        reveal_strlit("StrobeRandomPulse");
        lemma_prefix_mismatch(t, "Shutter"@, 0);
        reveal_strlit("Shutter");
        reveal_strlit("StrobeRandomPulseClose");
        lemma_prefix_mismatch(t, "Shutter"@, 0);
        reveal_strlit("Shutter");
        reveal_strlit("StrobeRandomPulseOpen");
        lemma_prefix_mismatch(t, "Shutter"@, 0);
        reveal_strlit("Shutter");
        reveal_strlit("StrobeEffect");
        lemma_prefix_mismatch(t, "Shutter"@, 0);
        reveal_strlit("Frost");
        lemma_prefix_mismatch(t, "Frost"@, 1);
        reveal_strlit("Frost");
        reveal_strlit("PulseOpen");
        lemma_prefix_mismatch(t, "Frost"@, 1);
        reveal_strlit("Frost");
        reveal_strlit("PulseClose");
        lemma_prefix_mismatch(t, "Frost"@, 1);
        reveal_strlit("Frost");
        reveal_strlit("Ramp");
        lemma_prefix_mismatch(t, "Frost"@, 1);
        reveal_strlit("Prism");
        lemma_prefix_mismatch(t, "Prism"@, 0);
        reveal_strlit("Prism");
        reveal_strlit("SelectSpin");
        lemma_prefix_mismatch(t, "Prism"@, 0);
        reveal_strlit("Prism");
        reveal_strlit("Macro");
        lemma_prefix_mismatch(t, "Prism"@, 0);
        reveal_strlit("Prism");
        reveal_strlit("Pos");
        lemma_prefix_mismatch(t, "Prism"@, 0);
        reveal_strlit("Prism");
        reveal_strlit("PosRotate");
        lemma_prefix_mismatch(t, "Prism"@, 0);
    }
    reveal_strlit("Effects");
    reveal_strlit("Adjust");
    lemma_prefix_mismatch(t, "Effects"@, 0);
    reveal_strlit("Effects");
    lemma_prefix_mismatch(t, "Effects"@, 0);
    reveal_strlit("Effects");
    reveal_strlit("Rate");
    lemma_prefix_mismatch(t, "Effects"@, 0);
    reveal_strlit("Effects");
    reveal_strlit("Fade");
    lemma_prefix_mismatch(t, "Effects"@, 0);
    reveal_strlit("Effects");
    reveal_strlit("Pos");
    lemma_prefix_mismatch(t, "Effects"@, 0);
    reveal_strlit("Effects");
    reveal_strlit("PosRotate");
    lemma_prefix_mismatch(t, "Effects"@, 0);
    reveal_strlit("Focus");
    lemma_prefix_mismatch(t, "Focus"@, 1);
    reveal_strlit("Focus");
    reveal_strlit("Adjust");
    lemma_prefix_mismatch(t, "Focus"@, 1);
    reveal_strlit("Focus");
    reveal_strlit("Distance");
    lemma_prefix_mismatch(t, "Focus"@, 1);
    reveal_strlit("Control");
    lemma_prefix_mismatch(t, "Control"@, 0);
    reveal_strlit("Gobo");
    reveal_strlit("WheelMode");
    lemma_prefix_mismatch(t, "Gobo"@, 0);
    reveal_strlit("AnimationWheel");
    reveal_strlit("Mode");
    lemma_prefix_mismatch(t, "AnimationWheel"@, 0);
    reveal_strlit("Color");
    reveal_strlit("Mode");
    lemma_prefix_mismatch(t, "Color"@, 0);
    reveal_strlit("Fan");
    reveal_strlit("Mode");
    lemma_suffix_mismatch(t, "Fan"@, "Mode"@, 0);
    reveal_strlit("GoboWheel");
    reveal_strlit("MSpeed");
    lemma_prefix_mismatch(t, "GoboWheel"@, 0);
    reveal_strlit("Prism");
    reveal_strlit("MSpeed");
    lemma_prefix_mismatch(t, "Prism"@, 0);
    reveal_strlit("Frost");
    reveal_strlit("MSpeed");
    lemma_prefix_mismatch(t, "Frost"@, 1);
    reveal_strlit("Blower");
    lemma_prefix_mismatch(t, "Blower"@, 0);
    lemma_number_after("Fan"@, n);
}

/// An attribute of the numbered family `Fog` reads back from its written
/// name: that text is no standard name, and every numbering rule before the
/// family's own rejects it.
proof fn text_reads_back_fog(n: u8)
    ensures
        attribute_from_text(attribute_text(FixtureChannel3Attribute::Fog(n))) == Some(FixtureChannel3Attribute::Fog(n)),
{
    let d = decimal(n as nat);
    lemma_decimal_digits(n as nat);
    lemma_decimal_len_u8(n as nat);
    let t = attribute_text(FixtureChannel3Attribute::Fog(n));
    reveal_strlit("Fog");
    assert(t == "Fog"@ + d);
    lemma_exact_none_with_digit(t, 3);
    reveal(numbered_attribute_2);
    assert(numbered_attribute_0(t) is None) by {
        reveal(numbered_attribute_0);
        reveal_strlit("Gobo");
        lemma_prefix_mismatch(t, "Gobo"@, 0);
        reveal_strlit("Gobo");
        reveal_strlit("SelectSpin");
        lemma_prefix_mismatch(t, "Gobo"@, 0);
        reveal_strlit("Gobo");
        reveal_strlit("SelectShake");
        lemma_prefix_mismatch(t, "Gobo"@, 0);
        reveal_strlit("Gobo");
        reveal_strlit("SelectEffects");
        lemma_prefix_mismatch(t, "Gobo"@, 0);
        reveal_strlit("Gobo");
        reveal_strlit("WheelIndex");
        lemma_prefix_mismatch(t, "Gobo"@, 0);
        reveal_strlit("Gobo");
        reveal_strlit("WheelSpin");
        lemma_prefix_mismatch(t, "Gobo"@, 0);
        reveal_strlit("Gobo");
        reveal_strlit("WheelShake");
        lemma_prefix_mismatch(t, "Gobo"@, 0);
        reveal_strlit("Gobo");
        reveal_strlit("WheelRandom");
        lemma_prefix_mismatch(t, "Gobo"@, 0);
        reveal_strlit("Gobo");
        reveal_strlit("WheelAudio");
        lemma_prefix_mismatch(t, "Gobo"@, 0);
        reveal_strlit("Gobo");
        reveal_strlit("Pos");
        lemma_prefix_mismatch(t, "Gobo"@, 0);
        reveal_strlit("Gobo");
        reveal_strlit("PosRotate");
        lemma_prefix_mismatch(t, "Gobo"@, 0);
        reveal_strlit("Gobo");
        reveal_strlit("PosShake");
        lemma_prefix_mismatch(t, "Gobo"@, 0);
        reveal_strlit("AnimationWheel");
        lemma_prefix_mismatch(t, "AnimationWheel"@, 0);
        reveal_strlit("AnimationWheel");
        reveal_strlit("Audio");
        lemma_prefix_mismatch(t, "AnimationWheel"@, 0);
        reveal_strlit("AnimationWheel");
        reveal_strlit("Macro");
        lemma_prefix_mismatch(t, "AnimationWheel"@, 0);
        reveal_strlit("AnimationWheel");
        reveal_strlit("Random");
        lemma_prefix_mismatch(t, "AnimationWheel"@, 0);
        reveal_strlit("AnimationWheel");
        reveal_strlit("SelectEffects");
        lemma_prefix_mismatch(t, "AnimationWheel"@, 0);
        reveal_strlit("AnimationWheel");
        reveal_strlit("SelectShake");
        lemma_prefix_mismatch(t, "AnimationWheel"@, 0);
        reveal_strlit("AnimationWheel");
        reveal_strlit("SelectSpin");
        lemma_prefix_mismatch(t, "AnimationWheel"@, 0);
        reveal_strlit("AnimationWheel");
        reveal_strlit("Pos");
        lemma_prefix_mismatch(t, "AnimationWheel"@, 0);
        reveal_strlit("AnimationWheel");
        reveal_strlit("PosRotate");
        lemma_prefix_mismatch(t, "AnimationWheel"@, 0);
        reveal_strlit("AnimationWheel");
        reveal_strlit("PosShake");
        lemma_prefix_mismatch(t, "AnimationWheel"@, 0);
        reveal_strlit("AnimationSystem");
        lemma_prefix_mismatch(t, "AnimationSystem"@, 0);
        reveal_strlit("AnimationSystem");
        reveal_strlit("Ramp");
        lemma_prefix_mismatch(t, "AnimationSystem"@, 0);
        reveal_strlit("AnimationSystem");
        reveal_strlit("Shake");
        lemma_prefix_mismatch(t, "AnimationSystem"@, 0);
        reveal_strlit("AnimationSystem");
        reveal_strlit("Audio");
        lemma_prefix_mismatch(t, "AnimationSystem"@, 0);
        reveal_strlit("AnimationSystem");
        reveal_strlit("Random");
        lemma_prefix_mismatch(t, "AnimationSystem"@, 0);
        reveal_strlit("AnimationSystem");
        reveal_strlit("Pos");
        lemma_prefix_mismatch(t, "AnimationSystem"@, 0);
        reveal_strlit("AnimationSystem");
        reveal_strlit("PosRotate");
        lemma_prefix_mismatch(t, "AnimationSystem"@, 0);
        reveal_strlit("AnimationSystem");
        reveal_strlit("PosShake");
        lemma_prefix_mismatch(t, "AnimationSystem"@, 0);
        reveal_strlit("AnimationSystem");
        reveal_strlit("PosRandom");
        lemma_prefix_mismatch(t, "AnimationSystem"@, 0);
        reveal_strlit("AnimationSystem");
        reveal_strlit("PosAudio");
        lemma_prefix_mismatch(t, "AnimationSystem"@, 0);
    }
    assert(numbered_attribute_1(t) is None) by {
        reveal(numbered_attribute_1);
        reveal_strlit("AnimationSystem");
        reveal_strlit("Macro");
        lemma_prefix_mismatch(t, "AnimationSystem"@, 0);
        reveal_strlit("MediaFolder");
        lemma_prefix_mismatch(t, "MediaFolder"@, 0);
        reveal_strlit("MediaContent");
        lemma_prefix_mismatch(t, "MediaContent"@, 0);
        reveal_strlit("ModelFolder");
        lemma_prefix_mismatch(t, "ModelFolder"@, 0);
        reveal_strlit("ModelContent");
        lemma_prefix_mismatch(t, "ModelContent"@, 0);
        reveal_strlit("ColorEffects");
        lemma_prefix_mismatch(t, "ColorEffects"@, 0);
        reveal_strlit("Color");
        lemma_prefix_mismatch(t, "Color"@, 0);
        reveal_strlit("Color");
        reveal_strlit("WheelIndex");
        lemma_prefix_mismatch(t, "Color"@, 0);
        reveal_strlit("Color");
        reveal_strlit("WheelSpin");
        lemma_prefix_mismatch(t, "Color"@, 0);
        reveal_strlit("Color");
        reveal_strlit("WheelRandom");
        lemma_prefix_mismatch(t, "Color"@, 0);
        reveal_strlit("Color");
        reveal_strlit("WheelAudio");
        lemma_prefix_mismatch(t, "Color"@, 0);
        reveal_strlit("ColorMacro");
        lemma_prefix_mismatch(t, "ColorMacro"@, 0);
        reveal_strlit("ColorMacro");
        reveal_strlit("Rate");
        lemma_prefix_mismatch(t, "ColorMacro"@, 0);
        reveal_strlit("Shutter");
        lemma_prefix_mismatch(t, "Shutter"@, 0);
        reveal_strlit("Shutter");
        reveal_strlit("Strobe");
        lemma_prefix_mismatch(t, "Shutter"@, 0);
        reveal_strlit("Shutter");
        reveal_strlit("StrobePulse");
        lemma_prefix_mismatch(t, "Shutter"@, 0);
        reveal_strlit("Shutter");
        reveal_strlit("StrobePulseClose");
        lemma_prefix_mismatch(t, "Shutter"@, 0);
        reveal_strlit("Shutter");
        reveal_strlit("StrobePulseOpen");
        lemma_prefix_mismatch(t, "Shutter"@, 0);
        reveal_strlit("Shutter");
        reveal_strlit("StrobeRandom");
        lemma_prefix_mismatch(t, "Shutter"@, 0);
        reveal_strlit("Shutter");
        reveal_strlit("StrobeRandomPulse");
        lemma_prefix_mismatch(t, "Shutter"@, 0);
        reveal_strlit("Shutter");
        reveal_strlit("StrobeRandomPulseClose");
        lemma_prefix_mismatch(t, "Shutter"@, 0);
        reveal_strlit("Shutter");
        reveal_strlit("StrobeRandomPulseOpen");
        lemma_prefix_mismatch(t, "Shutter"@, 0);
        reveal_strlit("Shutter");
        reveal_strlit("StrobeEffect");
        lemma_prefix_mismatch(t, "Shutter"@, 0);
        reveal_strlit("Frost");
        lemma_prefix_mismatch(t, "Frost"@, 1);
        reveal_strlit("Frost");
        reveal_strlit("PulseOpen");
        lemma_prefix_mismatch(t, "Frost"@, 1);
        reveal_strlit("Frost");
        reveal_strlit("PulseClose");
        lemma_prefix_mismatch(t, "Frost"@, 1);
        reveal_strlit("Frost");
        reveal_strlit("Ramp");
        lemma_prefix_mismatch(t, "Frost"@, 1);
        reveal_strlit("Prism");
        lemma_prefix_mismatch(t, "Prism"@, 0);
        reveal_strlit("Prism");
        reveal_strlit("SelectSpin");
        lemma_prefix_mismatch(t, "Prism"@, 0);
        reveal_strlit("Prism");
        reveal_strlit("Macro");
        lemma_prefix_mismatch(t, "Prism"@, 0);
        reveal_strlit("Prism");
        reveal_strlit("Pos");
        lemma_prefix_mismatch(t, "Prism"@, 0);
        reveal_strlit("Prism");
        reveal_strlit("PosRotate");
        lemma_prefix_mismatch(t, "Prism"@, 0);
    }
    reveal_strlit("Effects");
    reveal_strlit("Adjust");
    lemma_prefix_mismatch(t, "Effects"@, 0);
    reveal_strlit("Effects");
    lemma_prefix_mismatch(t, "Effects"@, 0);
    reveal_strlit("Effects");
    reveal_strlit("Rate");
    lemma_prefix_mismatch(t, "Effects"@, 0);
    reveal_strlit("Effects");
    reveal_strlit("Fade");
    lemma_prefix_mismatch(t, "Effects"@, 0);
    reveal_strlit("Effects");
    reveal_strlit("Pos");
    lemma_prefix_mismatch(t, "Effects"@, 0);
    reveal_strlit("Effects");
    reveal_strlit("PosRotate");
    lemma_prefix_mismatch(t, "Effects"@, 0);
    reveal_strlit("Focus");
    lemma_prefix_mismatch(t, "Focus"@, 2);
    reveal_strlit("Focus");
    reveal_strlit("Adjust");
    lemma_prefix_mismatch(t, "Focus"@, 2);
    reveal_strlit("Focus");
    reveal_strlit("Distance");
    lemma_prefix_mismatch(t, "Focus"@, 2);
    reveal_strlit("Control");
    lemma_prefix_mismatch(t, "Control"@, 0);
    reveal_strlit("Gobo");
    reveal_strlit("WheelMode");
    lemma_prefix_mismatch(t, "Gobo"@, 0);
    reveal_strlit("AnimationWheel");
    reveal_strlit("Mode");
    lemma_prefix_mismatch(t, "AnimationWheel"@, 0);
    reveal_strlit("Color");
    reveal_strlit("Mode");
    lemma_prefix_mismatch(t, "Color"@, 0);
    reveal_strlit("Fan");
    reveal_strlit("Mode");
    lemma_prefix_mismatch(t, "Fan"@, 1);
    reveal_strlit("GoboWheel");
    reveal_strlit("MSpeed");
    lemma_prefix_mismatch(t, "GoboWheel"@, 0);
    reveal_strlit("Prism");
    reveal_strlit("MSpeed");
    lemma_prefix_mismatch(t, "Prism"@, 0);
    reveal_strlit("Frost");
    reveal_strlit("MSpeed");
    lemma_prefix_mismatch(t, "Frost"@, 1);
    reveal_strlit("Blower");
    lemma_prefix_mismatch(t, "Blower"@, 0);
    reveal_strlit("Fan");
    lemma_prefix_mismatch(t, "Fan"@, 1);
    lemma_number_after("Fog"@, n);
}

/// An attribute of the numbered family `Haze` reads back from its written
/// name: that text is no standard name, and every numbering rule before the
/// family's own rejects it.
proof fn text_reads_back_haze(n: u8)
    ensures
        attribute_from_text(attribute_text(FixtureChannel3Attribute::Haze(n))) == Some(FixtureChannel3Attribute::Haze(n)),
{
    let d = decimal(n as nat);
    lemma_decimal_digits(n as nat);
    lemma_decimal_len_u8(n as nat);
    let t = attribute_text(FixtureChannel3Attribute::Haze(n));
    reveal_strlit("Haze");
    assert(t == "Haze"@ + d);
    lemma_exact_none_with_digit(t, 4);
    reveal(numbered_attribute_2);
    assert(numbered_attribute_0(t) is None) by {
        reveal(numbered_attribute_0);
        reveal_strlit("Gobo");
        lemma_prefix_mismatch(t, "Gobo"@, 0);
        reveal_strlit("Gobo");
        reveal_strlit("SelectSpin");
        lemma_prefix_mismatch(t, "Gobo"@, 0);
        reveal_strlit("Gobo");
        reveal_strlit("SelectShake");
        lemma_prefix_mismatch(t, "Gobo"@, 0);
        reveal_strlit("Gobo");
        reveal_strlit("SelectEffects");
        lemma_prefix_mismatch(t, "Gobo"@, 0);
        reveal_strlit("Gobo");
        reveal_strlit("WheelIndex");
        lemma_prefix_mismatch(t, "Gobo"@, 0);
        reveal_strlit("Gobo");
        reveal_strlit("WheelSpin");
        lemma_prefix_mismatch(t, "Gobo"@, 0);
        reveal_strlit("Gobo");
        reveal_strlit("WheelShake");
        lemma_prefix_mismatch(t, "Gobo"@, 0);
        reveal_strlit("Gobo");
        reveal_strlit("WheelRandom");
        lemma_prefix_mismatch(t, "Gobo"@, 0);
        reveal_strlit("Gobo");
        reveal_strlit("WheelAudio");
        lemma_prefix_mismatch(t, "Gobo"@, 0);
        reveal_strlit("Gobo");
        reveal_strlit("Pos");
        lemma_prefix_mismatch(t, "Gobo"@, 0);
        reveal_strlit("Gobo");
        reveal_strlit("PosRotate");
        lemma_prefix_mismatch(t, "Gobo"@, 0);
        reveal_strlit("Gobo");
        reveal_strlit("PosShake");
        lemma_prefix_mismatch(t, "Gobo"@, 0);
        reveal_strlit("AnimationWheel");
        lemma_prefix_mismatch(t, "AnimationWheel"@, 0);
        reveal_strlit("AnimationWheel");
        reveal_strlit("Audio");
        lemma_prefix_mismatch(t, "AnimationWheel"@, 0);
        reveal_strlit("AnimationWheel");
        reveal_strlit("Macro");
        lemma_prefix_mismatch(t, "AnimationWheel"@, 0);
        reveal_strlit("AnimationWheel");
        reveal_strlit("Random");
        lemma_prefix_mismatch(t, "AnimationWheel"@, 0);
        reveal_strlit("AnimationWheel");
        reveal_strlit("SelectEffects");
        lemma_prefix_mismatch(t, "AnimationWheel"@, 0);
        reveal_strlit("AnimationWheel");
        reveal_strlit("SelectShake");
        lemma_prefix_mismatch(t, "AnimationWheel"@, 0);
        reveal_strlit("AnimationWheel");
        reveal_strlit("SelectSpin");
        lemma_prefix_mismatch(t, "AnimationWheel"@, 0);
        reveal_strlit("AnimationWheel");
        reveal_strlit("Pos");
        lemma_prefix_mismatch(t, "AnimationWheel"@, 0);
        reveal_strlit("AnimationWheel");
        reveal_strlit("PosRotate");
        lemma_prefix_mismatch(t, "AnimationWheel"@, 0);
        reveal_strlit("AnimationWheel");
        reveal_strlit("PosShake");
        lemma_prefix_mismatch(t, "AnimationWheel"@, 0);
        reveal_strlit("AnimationSystem");
        lemma_prefix_mismatch(t, "AnimationSystem"@, 0);
        reveal_strlit("AnimationSystem");
        reveal_strlit("Ramp");
        lemma_prefix_mismatch(t, "AnimationSystem"@, 0);
        reveal_strlit("AnimationSystem");
        reveal_strlit("Shake");
        lemma_prefix_mismatch(t, "AnimationSystem"@, 0);
        reveal_strlit("AnimationSystem");
        reveal_strlit("Audio");
        lemma_prefix_mismatch(t, "AnimationSystem"@, 0);
        reveal_strlit("AnimationSystem");
        reveal_strlit("Random");
        lemma_prefix_mismatch(t, "AnimationSystem"@, 0);
        reveal_strlit("AnimationSystem");
        reveal_strlit("Pos");
        lemma_prefix_mismatch(t, "AnimationSystem"@, 0);
        reveal_strlit("AnimationSystem");
        reveal_strlit("PosRotate");
        lemma_prefix_mismatch(t, "AnimationSystem"@, 0);
        reveal_strlit("AnimationSystem");
        reveal_strlit("PosShake");
        lemma_prefix_mismatch(t, "AnimationSystem"@, 0);
        reveal_strlit("AnimationSystem");
        reveal_strlit("PosRandom");
        lemma_prefix_mismatch(t, "AnimationSystem"@, 0);
        reveal_strlit("AnimationSystem");
        reveal_strlit("PosAudio");
        lemma_prefix_mismatch(t, "AnimationSystem"@, 0);
    }
    assert(numbered_attribute_1(t) is None) by {
        reveal(numbered_attribute_1);
        reveal_strlit("AnimationSystem");
        reveal_strlit("Macro");
        lemma_prefix_mismatch(t, "AnimationSystem"@, 0);
        reveal_strlit("MediaFolder");
        lemma_prefix_mismatch(t, "MediaFolder"@, 0);
        reveal_strlit("MediaContent");
        lemma_prefix_mismatch(t, "MediaContent"@, 0);
        reveal_strlit("ModelFolder");
        lemma_prefix_mismatch(t, "ModelFolder"@, 0);
        reveal_strlit("ModelContent");
        lemma_prefix_mismatch(t, "ModelContent"@, 0);
        reveal_strlit("ColorEffects");
        lemma_prefix_mismatch(t, "ColorEffects"@, 0);
        reveal_strlit("Color");
        lemma_prefix_mismatch(t, "Color"@, 0);
        reveal_strlit("Color");
        reveal_strlit("WheelIndex");
        lemma_prefix_mismatch(t, "Color"@, 0);
        reveal_strlit("Color");
        reveal_strlit("WheelSpin");
        lemma_prefix_mismatch(t, "Color"@, 0);
        reveal_strlit("Color");
        reveal_strlit("WheelRandom");
        lemma_prefix_mismatch(t, "Color"@, 0);
        reveal_strlit("Color");
        reveal_strlit("WheelAudio");
        lemma_prefix_mismatch(t, "Color"@, 0);
        reveal_strlit("ColorMacro");
        lemma_prefix_mismatch(t, "ColorMacro"@, 0);
        reveal_strlit("ColorMacro");
        reveal_strlit("Rate");
        lemma_prefix_mismatch(t, "ColorMacro"@, 0);
        reveal_strlit("Shutter");
        lemma_prefix_mismatch(t, "Shutter"@, 0);
        reveal_strlit("Shutter");
        reveal_strlit("Strobe");
        lemma_prefix_mismatch(t, "Shutter"@, 0);
        reveal_strlit("Shutter");
        reveal_strlit("StrobePulse");
        lemma_prefix_mismatch(t, "Shutter"@, 0);
        reveal_strlit("Shutter");
        reveal_strlit("StrobePulseClose");
        lemma_prefix_mismatch(t, "Shutter"@, 0);
        reveal_strlit("Shutter");
        reveal_strlit("StrobePulseOpen");
        lemma_prefix_mismatch(t, "Shutter"@, 0);
        reveal_strlit("Shutter");
        reveal_strlit("StrobeRandom");
        lemma_prefix_mismatch(t, "Shutter"@, 0);
        reveal_strlit("Shutter");
        reveal_strlit("StrobeRandomPulse");
        lemma_prefix_mismatch(t, "Shutter"@, 0);
        reveal_strlit("Shutter");
        reveal_strlit("StrobeRandomPulseClose");
        lemma_prefix_mismatch(t, "Shutter"@, 0);
        reveal_strlit("Shutter");
        reveal_strlit("StrobeRandomPulseOpen");
        lemma_prefix_mismatch(t, "Shutter"@, 0);
        reveal_strlit("Shutter");
        reveal_strlit("StrobeEffect");
        lemma_prefix_mismatch(t, "Shutter"@, 0);
        reveal_strlit("Frost");
        lemma_prefix_mismatch(t, "Frost"@, 0);
        reveal_strlit("Frost");
        reveal_strlit("PulseOpen");
        lemma_prefix_mismatch(t, "Frost"@, 0);
        reveal_strlit("Frost");
        reveal_strlit("PulseClose");
        lemma_prefix_mismatch(t, "Frost"@, 0);
        reveal_strlit("Frost");
        reveal_strlit("Ramp");
        lemma_prefix_mismatch(t, "Frost"@, 0);
        reveal_strlit("Prism");
        lemma_prefix_mismatch(t, "Prism"@, 0);
        reveal_strlit("Prism");
        reveal_strlit("SelectSpin");
        lemma_prefix_mismatch(t, "Prism"@, 0);
        reveal_strlit("Prism");
        reveal_strlit("Macro");
        lemma_prefix_mismatch(t, "Prism"@, 0);
        reveal_strlit("Prism");
        reveal_strlit("Pos");
        lemma_prefix_mismatch(t, "Prism"@, 0);
        reveal_strlit("Prism");
        reveal_strlit("PosRotate");
        lemma_prefix_mismatch(t, "Prism"@, 0);
    }
    reveal_strlit("Effects");
    reveal_strlit("Adjust");
    lemma_prefix_mismatch(t, "Effects"@, 0);
    reveal_strlit("Effects");
    lemma_prefix_mismatch(t, "Effects"@, 0);
    reveal_strlit("Effects");
    reveal_strlit("Rate");
    lemma_prefix_mismatch(t, "Effects"@, 0);
    reveal_strlit("Effects");
    reveal_strlit("Fade");
    lemma_prefix_mismatch(t, "Effects"@, 0);
    reveal_strlit("Effects");
    reveal_strlit("Pos");
    lemma_prefix_mismatch(t, "Effects"@, 0);
    reveal_strlit("Effects");
    reveal_strlit("PosRotate");
    lemma_prefix_mismatch(t, "Effects"@, 0);
    reveal_strlit("Focus");
    lemma_prefix_mismatch(t, "Focus"@, 0);
    reveal_strlit("Focus");
    reveal_strlit("Adjust");
    lemma_prefix_mismatch(t, "Focus"@, 0);
    reveal_strlit("Focus");
    reveal_strlit("Distance");
    lemma_prefix_mismatch(t, "Focus"@, 0);
    reveal_strlit("Control");
    lemma_prefix_mismatch(t, "Control"@, 0);
    reveal_strlit("Gobo");
    reveal_strlit("WheelMode");
    lemma_prefix_mismatch(t, "Gobo"@, 0);
    reveal_strlit("AnimationWheel");
    reveal_strlit("Mode");
    lemma_prefix_mismatch(t, "AnimationWheel"@, 0);
    reveal_strlit("Color");
    reveal_strlit("Mode");
    lemma_prefix_mismatch(t, "Color"@, 0);
    reveal_strlit("Fan");
    reveal_strlit("Mode");
    lemma_prefix_mismatch(t, "Fan"@, 0);
    reveal_strlit("GoboWheel");
    reveal_strlit("MSpeed");
    lemma_prefix_mismatch(t, "GoboWheel"@, 0);
    reveal_strlit("Prism");
    reveal_strlit("MSpeed");
    lemma_prefix_mismatch(t, "Prism"@, 0);
    reveal_strlit("Frost");
    reveal_strlit("MSpeed");
    lemma_prefix_mismatch(t, "Frost"@, 0);
    reveal_strlit("Blower");
    lemma_prefix_mismatch(t, "Blower"@, 0);
    reveal_strlit("Fan");
    lemma_prefix_mismatch(t, "Fan"@, 0);
    reveal_strlit("Fog");
    lemma_prefix_mismatch(t, "Fog"@, 0);
    lemma_number_after("Haze"@, n);
}

/// An attribute of the numbered family `BladeA` reads back from its written
/// name: that text is no standard name, and every numbering rule before the
/// family's own rejects it.
proof fn text_reads_back_blade_a(n: u8)
    ensures
        attribute_from_text(attribute_text(FixtureChannel3Attribute::BladeA(n))) == Some(FixtureChannel3Attribute::BladeA(n)),
{
    let d = decimal(n as nat);
    lemma_decimal_digits(n as nat);
    lemma_decimal_len_u8(n as nat);
    let t = attribute_text(FixtureChannel3Attribute::BladeA(n));
    reveal_strlit("Blade");
    reveal_strlit("A");
    assert(t == "Blade"@ + d + "A"@);
    lemma_exact_none_with_digit(t, 5);
    reveal(numbered_attribute_2);
    assert(numbered_attribute_0(t) is None) by {
        reveal(numbered_attribute_0);
        reveal_strlit("Gobo");
        lemma_prefix_mismatch(t, "Gobo"@, 0);
        reveal_strlit("Gobo");
        reveal_strlit("SelectSpin");
        lemma_prefix_mismatch(t, "Gobo"@, 0);
        reveal_strlit("Gobo");
        reveal_strlit("SelectShake");
        lemma_prefix_mismatch(t, "Gobo"@, 0);
        reveal_strlit("Gobo");
        reveal_strlit("SelectEffects");
        lemma_prefix_mismatch(t, "Gobo"@, 0);
        reveal_strlit("Gobo");
        reveal_strlit("WheelIndex");
        lemma_prefix_mismatch(t, "Gobo"@, 0);
        reveal_strlit("Gobo");
        reveal_strlit("WheelSpin");
        lemma_prefix_mismatch(t, "Gobo"@, 0);
        reveal_strlit("Gobo");
        reveal_strlit("WheelShake");
        lemma_prefix_mismatch(t, "Gobo"@, 0);
        reveal_strlit("Gobo");
        reveal_strlit("WheelRandom");
        lemma_prefix_mismatch(t, "Gobo"@, 0);
        reveal_strlit("Gobo");
        reveal_strlit("WheelAudio");
        lemma_prefix_mismatch(t, "Gobo"@, 0);
        reveal_strlit("Gobo");
        reveal_strlit("Pos");
        lemma_prefix_mismatch(t, "Gobo"@, 0);
        reveal_strlit("Gobo");
        reveal_strlit("PosRotate");
        lemma_prefix_mismatch(t, "Gobo"@, 0);
        reveal_strlit("Gobo");
        reveal_strlit("PosShake");
        lemma_prefix_mismatch(t, "Gobo"@, 0);
        reveal_strlit("AnimationWheel");
        lemma_prefix_mismatch(t, "AnimationWheel"@, 0);
        reveal_strlit("AnimationWheel");
        reveal_strlit("Audio");
        lemma_prefix_mismatch(t, "AnimationWheel"@, 0);
        reveal_strlit("AnimationWheel");
        reveal_strlit("Macro");
        lemma_prefix_mismatch(t, "AnimationWheel"@, 0);
        reveal_strlit("AnimationWheel");
        reveal_strlit("Random");
        lemma_prefix_mismatch(t, "AnimationWheel"@, 0);
        reveal_strlit("AnimationWheel");
        reveal_strlit("SelectEffects");
        lemma_prefix_mismatch(t, "AnimationWheel"@, 0);
        reveal_strlit("AnimationWheel");
        reveal_strlit("SelectShake");
        lemma_prefix_mismatch(t, "AnimationWheel"@, 0);
        reveal_strlit("AnimationWheel");
        reveal_strlit("SelectSpin");
        lemma_prefix_mismatch(t, "AnimationWheel"@, 0);
        reveal_strlit("AnimationWheel");
        reveal_strlit("Pos");
        lemma_prefix_mismatch(t, "AnimationWheel"@, 0);
        reveal_strlit("AnimationWheel");
        reveal_strlit("PosRotate");
        lemma_prefix_mismatch(t, "AnimationWheel"@, 0);
        reveal_strlit("AnimationWheel");
        reveal_strlit("PosShake");
        lemma_prefix_mismatch(t, "AnimationWheel"@, 0);
        reveal_strlit("AnimationSystem");
        lemma_prefix_mismatch(t, "AnimationSystem"@, 0);
        reveal_strlit("AnimationSystem");
        reveal_strlit("Ramp");
        lemma_prefix_mismatch(t, "AnimationSystem"@, 0);
        reveal_strlit("AnimationSystem");
        reveal_strlit("Shake");
        lemma_prefix_mismatch(t, "AnimationSystem"@, 0);
        reveal_strlit("AnimationSystem");
        reveal_strlit("Audio");
        lemma_prefix_mismatch(t, "AnimationSystem"@, 0);
        reveal_strlit("AnimationSystem");
        reveal_strlit("Random");
        lemma_prefix_mismatch(t, "AnimationSystem"@, 0);
        reveal_strlit("AnimationSystem");
        reveal_strlit("Pos");
        lemma_prefix_mismatch(t, "AnimationSystem"@, 0);
        reveal_strlit("AnimationSystem");
        reveal_strlit("PosRotate");
        lemma_prefix_mismatch(t, "AnimationSystem"@, 0);
        reveal_strlit("AnimationSystem");
        reveal_strlit("PosShake");
        lemma_prefix_mismatch(t, "AnimationSystem"@, 0);
        reveal_strlit("AnimationSystem");
        reveal_strlit("PosRandom");
        lemma_prefix_mismatch(t, "AnimationSystem"@, 0);
        reveal_strlit("AnimationSystem");
        reveal_strlit("PosAudio");
        lemma_prefix_mismatch(t, "AnimationSystem"@, 0);
    }
    assert(numbered_attribute_1(t) is None) by {
        reveal(numbered_attribute_1);
        reveal_strlit("AnimationSystem");
        reveal_strlit("Macro");
        lemma_prefix_mismatch(t, "AnimationSystem"@, 0);
        reveal_strlit("MediaFolder");
        lemma_prefix_mismatch(t, "MediaFolder"@, 0);
        reveal_strlit("MediaContent");
        lemma_prefix_mismatch(t, "MediaContent"@, 0);
        reveal_strlit("ModelFolder");
        lemma_prefix_mismatch(t, "ModelFolder"@, 0);
        reveal_strlit("ModelContent");
        lemma_prefix_mismatch(t, "ModelContent"@, 0);
        reveal_strlit("ColorEffects");
        lemma_prefix_mismatch(t, "ColorEffects"@, 0);
        reveal_strlit("Color");
        lemma_prefix_mismatch(t, "Color"@, 0);
        reveal_strlit("Color");
        reveal_strlit("WheelIndex");
        lemma_prefix_mismatch(t, "Color"@, 0);
        reveal_strlit("Color");
        reveal_strlit("WheelSpin");
        lemma_prefix_mismatch(t, "Color"@, 0);
        reveal_strlit("Color");
        reveal_strlit("WheelRandom");
        lemma_prefix_mismatch(t, "Color"@, 0);
        reveal_strlit("Color");
        reveal_strlit("WheelAudio");
        lemma_prefix_mismatch(t, "Color"@, 0);
        reveal_strlit("ColorMacro");
        lemma_prefix_mismatch(t, "ColorMacro"@, 0);
        reveal_strlit("ColorMacro");
        reveal_strlit("Rate");
        lemma_prefix_mismatch(t, "ColorMacro"@, 0);
        reveal_strlit("Shutter");
        lemma_prefix_mismatch(t, "Shutter"@, 0);
        reveal_strlit("Shutter");
        reveal_strlit("Strobe");
        lemma_prefix_mismatch(t, "Shutter"@, 0);
        reveal_strlit("Shutter");
        reveal_strlit("StrobePulse");
        lemma_prefix_mismatch(t, "Shutter"@, 0);
        reveal_strlit("Shutter");
        reveal_strlit("StrobePulseClose");
        lemma_prefix_mismatch(t, "Shutter"@, 0);
        reveal_strlit("Shutter");
        reveal_strlit("StrobePulseOpen");
        lemma_prefix_mismatch(t, "Shutter"@, 0);
        reveal_strlit("Shutter");
        reveal_strlit("StrobeRandom");
        lemma_prefix_mismatch(t, "Shutter"@, 0);
        reveal_strlit("Shutter");
        reveal_strlit("StrobeRandomPulse");
        lemma_prefix_mismatch(t, "Shutter"@, 0);
        reveal_strlit("Shutter");
        reveal_strlit("StrobeRandomPulseClose");
        lemma_prefix_mismatch(t, "Shutter"@, 0);
        reveal_strlit("Shutter");
        reveal_strlit("StrobeRandomPulseOpen");
        lemma_prefix_mismatch(t, "Shutter"@, 0);
        reveal_strlit("Shutter");
        reveal_strlit("StrobeEffect");
        lemma_prefix_mismatch(t, "Shutter"@, 0);
        reveal_strlit("Frost");
        lemma_prefix_mismatch(t, "Frost"@, 0);
        reveal_strlit("Frost");
        reveal_strlit("PulseOpen");
        lemma_prefix_mismatch(t, "Frost"@, 0);
        reveal_strlit("Frost");
        reveal_strlit("PulseClose");
        lemma_prefix_mismatch(t, "Frost"@, 0);
        reveal_strlit("Frost");
        reveal_strlit("Ramp");
        lemma_prefix_mismatch(t, "Frost"@, 0);
        reveal_strlit("Prism");
        lemma_prefix_mismatch(t, "Prism"@, 0);
        reveal_strlit("Prism");
        reveal_strlit("SelectSpin");
        lemma_prefix_mismatch(t, "Prism"@, 0);
        reveal_strlit("Prism");
        reveal_strlit("Macro");
        lemma_prefix_mismatch(t, "Prism"@, 0);
        reveal_strlit("Prism");
        reveal_strlit("Pos");
        lemma_prefix_mismatch(t, "Prism"@, 0);
        reveal_strlit("Prism");
        reveal_strlit("PosRotate");
        lemma_prefix_mismatch(t, "Prism"@, 0);
    }
    reveal_strlit("Effects");
    reveal_strlit("Adjust");
    lemma_prefix_mismatch(t, "Effects"@, 0);
    reveal_strlit("Effects");
    lemma_prefix_mismatch(t, "Effects"@, 0);
    reveal_strlit("Effects");
    reveal_strlit("Rate");
    lemma_prefix_mismatch(t, "Effects"@, 0);
    reveal_strlit("Effects");
    reveal_strlit("Fade");
    lemma_prefix_mismatch(t, "Effects"@, 0);
    reveal_strlit("Effects");
    reveal_strlit("Pos");
    lemma_prefix_mismatch(t, "Effects"@, 0);
    reveal_strlit("Effects");
    reveal_strlit("PosRotate");
    lemma_prefix_mismatch(t, "Effects"@, 0);
    reveal_strlit("Focus");
    lemma_prefix_mismatch(t, "Focus"@, 0);
    reveal_strlit("Focus");
    reveal_strlit("Adjust");
    lemma_prefix_mismatch(t, "Focus"@, 0);
    reveal_strlit("Focus");
    reveal_strlit("Distance");
    lemma_prefix_mismatch(t, "Focus"@, 0);
    reveal_strlit("Control");
    lemma_prefix_mismatch(t, "Control"@, 0);
    reveal_strlit("Gobo");
    reveal_strlit("WheelMode");
    lemma_prefix_mismatch(t, "Gobo"@, 0);
    reveal_strlit("AnimationWheel");
    reveal_strlit("Mode");
    lemma_prefix_mismatch(t, "AnimationWheel"@, 0);
    reveal_strlit("Color");
    reveal_strlit("Mode");
    lemma_prefix_mismatch(t, "Color"@, 0);
    reveal_strlit("Fan");
    reveal_strlit("Mode");
    lemma_prefix_mismatch(t, "Fan"@, 0);
    reveal_strlit("GoboWheel");
    reveal_strlit("MSpeed");
    lemma_prefix_mismatch(t, "GoboWheel"@, 0);
    reveal_strlit("Prism");
    reveal_strlit("MSpeed");
    lemma_prefix_mismatch(t, "Prism"@, 0);
    reveal_strlit("Frost");
    reveal_strlit("MSpeed");
    lemma_prefix_mismatch(t, "Frost"@, 0);
    reveal_strlit("Blower");
    lemma_prefix_mismatch(t, "Blower"@, 2);
    reveal_strlit("Fan");
    lemma_prefix_mismatch(t, "Fan"@, 0);
    reveal_strlit("Fog");
    lemma_prefix_mismatch(t, "Fog"@, 0);
    reveal_strlit("Haze");
    lemma_prefix_mismatch(t, "Haze"@, 0);
    lemma_number_between("Blade"@, "A"@, n);
}

/// An attribute of the numbered family `BladeB` reads back from its written
/// name: that text is no standard name, and every numbering rule before the
/// family's own rejects it.
proof fn text_reads_back_blade_b(n: u8)
    ensures
        attribute_from_text(attribute_text(FixtureChannel3Attribute::BladeB(n))) == Some(FixtureChannel3Attribute::BladeB(n)),
{
    let d = decimal(n as nat);
    lemma_decimal_digits(n as nat);
    lemma_decimal_len_u8(n as nat);
    let t = attribute_text(FixtureChannel3Attribute::BladeB(n));
    reveal_strlit("Blade");
    reveal_strlit("B");
    assert(t == "Blade"@ + d + "B"@);
    lemma_exact_none_with_digit(t, 5);
    reveal(numbered_attribute_2);
    assert(numbered_attribute_0(t) is None) by {
        reveal(numbered_attribute_0);
        reveal_strlit("Gobo");
        lemma_prefix_mismatch(t, "Gobo"@, 0);
        reveal_strlit("Gobo");
        reveal_strlit("SelectSpin");
        lemma_prefix_mismatch(t, "Gobo"@, 0);
        reveal_strlit("Gobo");
        reveal_strlit("SelectShake");
        lemma_prefix_mismatch(t, "Gobo"@, 0);
        reveal_strlit("Gobo");
        reveal_strlit("SelectEffects");
        lemma_prefix_mismatch(t, "Gobo"@, 0);
        reveal_strlit("Gobo");
        reveal_strlit("WheelIndex");
        lemma_prefix_mismatch(t, "Gobo"@, 0);
        reveal_strlit("Gobo");
        reveal_strlit("WheelSpin");
        lemma_prefix_mismatch(t, "Gobo"@, 0);
        reveal_strlit("Gobo");
        reveal_strlit("WheelShake");
        lemma_prefix_mismatch(t, "Gobo"@, 0);
        reveal_strlit("Gobo");
        reveal_strlit("WheelRandom");
        lemma_prefix_mismatch(t, "Gobo"@, 0);
        reveal_strlit("Gobo");
        reveal_strlit("WheelAudio");
        lemma_prefix_mismatch(t, "Gobo"@, 0);
        reveal_strlit("Gobo");
        reveal_strlit("Pos");
        lemma_prefix_mismatch(t, "Gobo"@, 0);
        reveal_strlit("Gobo");
        reveal_strlit("PosRotate");
        lemma_prefix_mismatch(t, "Gobo"@, 0);
        reveal_strlit("Gobo");
        reveal_strlit("PosShake");
        lemma_prefix_mismatch(t, "Gobo"@, 0);
        reveal_strlit("AnimationWheel");
        lemma_prefix_mismatch(t, "AnimationWheel"@, 0);
        reveal_strlit("AnimationWheel");
        reveal_strlit("Audio");
        lemma_prefix_mismatch(t, "AnimationWheel"@, 0);
        reveal_strlit("AnimationWheel");
        reveal_strlit("Macro");
        lemma_prefix_mismatch(t, "AnimationWheel"@, 0);
        reveal_strlit("AnimationWheel");
        reveal_strlit("Random");
        lemma_prefix_mismatch(t, "AnimationWheel"@, 0);
        reveal_strlit("AnimationWheel");
        reveal_strlit("SelectEffects");
        lemma_prefix_mismatch(t, "AnimationWheel"@, 0);
        reveal_strlit("AnimationWheel");
        reveal_strlit("SelectShake");
        lemma_prefix_mismatch(t, "AnimationWheel"@, 0);
        reveal_strlit("AnimationWheel");
        reveal_strlit("SelectSpin");
        lemma_prefix_mismatch(t, "AnimationWheel"@, 0);
        reveal_strlit("AnimationWheel");
        reveal_strlit("Pos");
        lemma_prefix_mismatch(t, "AnimationWheel"@, 0);
        reveal_strlit("AnimationWheel");
        reveal_strlit("PosRotate");
        lemma_prefix_mismatch(t, "AnimationWheel"@, 0);
        reveal_strlit("AnimationWheel");
        reveal_strlit("PosShake");
        lemma_prefix_mismatch(t, "AnimationWheel"@, 0);
        reveal_strlit("AnimationSystem");
        lemma_prefix_mismatch(t, "AnimationSystem"@, 0);
        reveal_strlit("AnimationSystem");
        reveal_strlit("Ramp");
        lemma_prefix_mismatch(t, "AnimationSystem"@, 0);
        reveal_strlit("AnimationSystem");
        reveal_strlit("Shake");
        lemma_prefix_mismatch(t, "AnimationSystem"@, 0);
        reveal_strlit("AnimationSystem");
        reveal_strlit("Audio");
        lemma_prefix_mismatch(t, "AnimationSystem"@, 0);
        reveal_strlit("AnimationSystem");
        reveal_strlit("Random");
        lemma_prefix_mismatch(t, "AnimationSystem"@, 0);
        reveal_strlit("AnimationSystem");
        reveal_strlit("Pos");
        lemma_prefix_mismatch(t, "AnimationSystem"@, 0);
        reveal_strlit("AnimationSystem");
        reveal_strlit("PosRotate");
        lemma_prefix_mismatch(t, "AnimationSystem"@, 0);
        reveal_strlit("AnimationSystem");
        reveal_strlit("PosShake");
        lemma_prefix_mismatch(t, "AnimationSystem"@, 0);
        reveal_strlit("AnimationSystem");
        reveal_strlit("PosRandom");
        lemma_prefix_mismatch(t, "AnimationSystem"@, 0);
        reveal_strlit("AnimationSystem");
        reveal_strlit("PosAudio");
        lemma_prefix_mismatch(t, "AnimationSystem"@, 0);
    }
    assert(numbered_attribute_1(t) is None) by {
        reveal(numbered_attribute_1);
        reveal_strlit("AnimationSystem");
        reveal_strlit("Macro");
        lemma_prefix_mismatch(t, "AnimationSystem"@, 0);
        reveal_strlit("MediaFolder");
        lemma_prefix_mismatch(t, "MediaFolder"@, 0);
        reveal_strlit("MediaContent");
        lemma_prefix_mismatch(t, "MediaContent"@, 0);
        reveal_strlit("ModelFolder");
        lemma_prefix_mismatch(t, "ModelFolder"@, 0);
        reveal_strlit("ModelContent");
        lemma_prefix_mismatch(t, "ModelContent"@, 0);
        reveal_strlit("ColorEffects");
        lemma_prefix_mismatch(t, "ColorEffects"@, 0);
        reveal_strlit("Color");
        lemma_prefix_mismatch(t, "Color"@, 0);
        reveal_strlit("Color");
        reveal_strlit("WheelIndex");
        lemma_prefix_mismatch(t, "Color"@, 0);
        reveal_strlit("Color");
        reveal_strlit("WheelSpin");
        lemma_prefix_mismatch(t, "Color"@, 0);
        reveal_strlit("Color");
        reveal_strlit("WheelRandom");
        lemma_prefix_mismatch(t, "Color"@, 0);
        reveal_strlit("Color");
        reveal_strlit("WheelAudio");
        lemma_prefix_mismatch(t, "Color"@, 0);
        reveal_strlit("ColorMacro");
        lemma_prefix_mismatch(t, "ColorMacro"@, 0);
        reveal_strlit("ColorMacro");
        reveal_strlit("Rate");
        lemma_prefix_mismatch(t, "ColorMacro"@, 0);
        reveal_strlit("Shutter");
        lemma_prefix_mismatch(t, "Shutter"@, 0);
        reveal_strlit("Shutter");
        reveal_strlit("Strobe");
        lemma_prefix_mismatch(t, "Shutter"@, 0);
        reveal_strlit("Shutter");
        reveal_strlit("StrobePulse");
        lemma_prefix_mismatch(t, "Shutter"@, 0);
        reveal_strlit("Shutter");
        reveal_strlit("StrobePulseClose");
        lemma_prefix_mismatch(t, "Shutter"@, 0);
        reveal_strlit("Shutter");
        reveal_strlit("StrobePulseOpen");
        lemma_prefix_mismatch(t, "Shutter"@, 0);
        reveal_strlit("Shutter");
        reveal_strlit("StrobeRandom");
        lemma_prefix_mismatch(t, "Shutter"@, 0);
        reveal_strlit("Shutter");
        reveal_strlit("StrobeRandomPulse");
        lemma_prefix_mismatch(t, "Shutter"@, 0);
        reveal_strlit("Shutter");
        reveal_strlit("StrobeRandomPulseClose");
        lemma_prefix_mismatch(t, "Shutter"@, 0);
        reveal_strlit("Shutter");
        reveal_strlit("StrobeRandomPulseOpen");
        lemma_prefix_mismatch(t, "Shutter"@, 0);
        reveal_strlit("Shutter");
        reveal_strlit("StrobeEffect");
        lemma_prefix_mismatch(t, "Shutter"@, 0);
        reveal_strlit("Frost");
        lemma_prefix_mismatch(t, "Frost"@, 0);
        reveal_strlit("Frost");
        reveal_strlit("PulseOpen");
        lemma_prefix_mismatch(t, "Frost"@, 0);
        reveal_strlit("Frost");
        reveal_strlit("PulseClose");
        lemma_prefix_mismatch(t, "Frost"@, 0);
        reveal_strlit("Frost");
        reveal_strlit("Ramp");
        lemma_prefix_mismatch(t, "Frost"@, 0);
        reveal_strlit("Prism");
        lemma_prefix_mismatch(t, "Prism"@, 0);
        reveal_strlit("Prism");
        reveal_strlit("SelectSpin");
        lemma_prefix_mismatch(t, "Prism"@, 0);
        reveal_strlit("Prism");
        reveal_strlit("Macro");
        lemma_prefix_mismatch(t, "Prism"@, 0);
        reveal_strlit("Prism");
        reveal_strlit("Pos");
        lemma_prefix_mismatch(t, "Prism"@, 0);
        reveal_strlit("Prism");
        reveal_strlit("PosRotate");
        lemma_prefix_mismatch(t, "Prism"@, 0);
    }
    reveal_strlit("Effects");
    reveal_strlit("Adjust");
    lemma_prefix_mismatch(t, "Effects"@, 0);
    reveal_strlit("Effects");
    lemma_prefix_mismatch(t, "Effects"@, 0);
    reveal_strlit("Effects");
    reveal_strlit("Rate");
    lemma_prefix_mismatch(t, "Effects"@, 0);
    reveal_strlit("Effects");
    reveal_strlit("Fade");
    lemma_prefix_mismatch(t, "Effects"@, 0);
    reveal_strlit("Effects");
    reveal_strlit("Pos");
    lemma_prefix_mismatch(t, "Effects"@, 0);
    reveal_strlit("Effects");
    reveal_strlit("PosRotate");
    lemma_prefix_mismatch(t, "Effects"@, 0);
    reveal_strlit("Focus");
    lemma_prefix_mismatch(t, "Focus"@, 0);
    reveal_strlit("Focus");
    reveal_strlit("Adjust");
    lemma_prefix_mismatch(t, "Focus"@, 0);
    reveal_strlit("Focus");
    reveal_strlit("Distance");
    lemma_prefix_mismatch(t, "Focus"@, 0);
    reveal_strlit("Control");
    lemma_prefix_mismatch(t, "Control"@, 0);
    reveal_strlit("Gobo");
    reveal_strlit("WheelMode");
    lemma_prefix_mismatch(t, "Gobo"@, 0);
    reveal_strlit("AnimationWheel");
    reveal_strlit("Mode");
    lemma_prefix_mismatch(t, "AnimationWheel"@, 0);
    reveal_strlit("Color");
    reveal_strlit("Mode");
    lemma_prefix_mismatch(t, "Color"@, 0);
    reveal_strlit("Fan");
    reveal_strlit("Mode");
    lemma_prefix_mismatch(t, "Fan"@, 0);
    reveal_strlit("GoboWheel");
    reveal_strlit("MSpeed");
    lemma_prefix_mismatch(t, "GoboWheel"@, 0);
    reveal_strlit("Prism");
    reveal_strlit("MSpeed");
    lemma_prefix_mismatch(t, "Prism"@, 0);
    reveal_strlit("Frost");
    reveal_strlit("MSpeed");
    lemma_prefix_mismatch(t, "Frost"@, 0);
    reveal_strlit("Blower");
    lemma_prefix_mismatch(t, "Blower"@, 2);
    reveal_strlit("Fan");
    lemma_prefix_mismatch(t, "Fan"@, 0);
    reveal_strlit("Fog");
    lemma_prefix_mismatch(t, "Fog"@, 0);
    reveal_strlit("Haze");
    lemma_prefix_mismatch(t, "Haze"@, 0);
    reveal_strlit("Blade");
    reveal_strlit("A");
    lemma_suffix_mismatch(t, "Blade"@, "A"@, 0);
    lemma_number_between("Blade"@, "B"@, n);
}

/// An attribute of the numbered family `BladeRot` reads back from its written
/// name: that text is no standard name, and every numbering rule before the
/// family's own rejects it.
proof fn text_reads_back_blade_rot(n: u8)
    ensures
        attribute_from_text(attribute_text(FixtureChannel3Attribute::BladeRot(n))) == Some(FixtureChannel3Attribute::BladeRot(n)),
{
    let d = decimal(n as nat);
    lemma_decimal_digits(n as nat);
    lemma_decimal_len_u8(n as nat);
    let t = attribute_text(FixtureChannel3Attribute::BladeRot(n));
    reveal_strlit("Blade");
    reveal_strlit("Rot");
    assert(t == "Blade"@ + d + "Rot"@);
    lemma_exact_none_with_digit(t, 5);
    reveal(numbered_attribute_2);
    assert(numbered_attribute_0(t) is None) by {
        reveal(numbered_attribute_0);
        reveal_strlit("Gobo");
        lemma_prefix_mismatch(t, "Gobo"@, 0);
        reveal_strlit("Gobo");
        reveal_strlit("SelectSpin");
        lemma_prefix_mismatch(t, "Gobo"@, 0);
        reveal_strlit("Gobo");
        reveal_strlit("SelectShake");
        lemma_prefix_mismatch(t, "Gobo"@, 0);
        reveal_strlit("Gobo");
        reveal_strlit("SelectEffects");
        lemma_prefix_mismatch(t, "Gobo"@, 0);
        reveal_strlit("Gobo");
        reveal_strlit("WheelIndex");
        lemma_prefix_mismatch(t, "Gobo"@, 0);
        reveal_strlit("Gobo");
        reveal_strlit("WheelSpin");
        lemma_prefix_mismatch(t, "Gobo"@, 0);
        reveal_strlit("Gobo");
        reveal_strlit("WheelShake");
        lemma_prefix_mismatch(t, "Gobo"@, 0);
        reveal_strlit("Gobo");
        reveal_strlit("WheelRandom");
        lemma_prefix_mismatch(t, "Gobo"@, 0);
        reveal_strlit("Gobo");
        reveal_strlit("WheelAudio");
        lemma_prefix_mismatch(t, "Gobo"@, 0);
        reveal_strlit("Gobo");
        reveal_strlit("Pos");
        lemma_prefix_mismatch(t, "Gobo"@, 0);
        reveal_strlit("Gobo");
        reveal_strlit("PosRotate");
        lemma_prefix_mismatch(t, "Gobo"@, 0);
        reveal_strlit("Gobo");
        reveal_strlit("PosShake");
        lemma_prefix_mismatch(t, "Gobo"@, 0);
        reveal_strlit("AnimationWheel");
        lemma_prefix_mismatch(t, "AnimationWheel"@, 0);
        reveal_strlit("AnimationWheel");
        reveal_strlit("Audio");
        lemma_prefix_mismatch(t, "AnimationWheel"@, 0);
        reveal_strlit("AnimationWheel");
        reveal_strlit("Macro");
        lemma_prefix_mismatch(t, "AnimationWheel"@, 0);
        reveal_strlit("AnimationWheel");
        reveal_strlit("Random");
        lemma_prefix_mismatch(t, "AnimationWheel"@, 0);
        reveal_strlit("AnimationWheel");
        reveal_strlit("SelectEffects");
        lemma_prefix_mismatch(t, "AnimationWheel"@, 0);
        reveal_strlit("AnimationWheel");
        reveal_strlit("SelectShake");
        lemma_prefix_mismatch(t, "AnimationWheel"@, 0);
        reveal_strlit("AnimationWheel");
        reveal_strlit("SelectSpin");
        lemma_prefix_mismatch(t, "AnimationWheel"@, 0);
        reveal_strlit("AnimationWheel");
        reveal_strlit("Pos");
        lemma_prefix_mismatch(t, "AnimationWheel"@, 0);
        reveal_strlit("AnimationWheel");
        reveal_strlit("PosRotate");
        lemma_prefix_mismatch(t, "AnimationWheel"@, 0);
        reveal_strlit("AnimationWheel");
        reveal_strlit("PosShake");
        lemma_prefix_mismatch(t, "AnimationWheel"@, 0);
        reveal_strlit("AnimationSystem");
        lemma_prefix_mismatch(t, "AnimationSystem"@, 0);
        reveal_strlit("AnimationSystem");
        reveal_strlit("Ramp");
        lemma_prefix_mismatch(t, "AnimationSystem"@, 0);
        reveal_strlit("AnimationSystem");
        reveal_strlit("Shake");
        lemma_prefix_mismatch(t, "AnimationSystem"@, 0);
        reveal_strlit("AnimationSystem");
        reveal_strlit("Audio");
        lemma_prefix_mismatch(t, "AnimationSystem"@, 0);
        reveal_strlit("AnimationSystem");
        reveal_strlit("Random");
        lemma_prefix_mismatch(t, "AnimationSystem"@, 0);
        reveal_strlit("AnimationSystem");
        reveal_strlit("Pos");
        lemma_prefix_mismatch(t, "AnimationSystem"@, 0);
        reveal_strlit("AnimationSystem");
        reveal_strlit("PosRotate");
        lemma_prefix_mismatch(t, "AnimationSystem"@, 0);
        reveal_strlit("AnimationSystem");
        reveal_strlit("PosShake");
        lemma_prefix_mismatch(t, "AnimationSystem"@, 0);
        reveal_strlit("AnimationSystem");
        reveal_strlit("PosRandom");
        lemma_prefix_mismatch(t, "AnimationSystem"@, 0);
        reveal_strlit("AnimationSystem");
        reveal_strlit("PosAudio");
        lemma_prefix_mismatch(t, "AnimationSystem"@, 0);
    }
    assert(numbered_attribute_1(t) is None) by {
        reveal(numbered_attribute_1);
        reveal_strlit("AnimationSystem");
        reveal_strlit("Macro");
        lemma_prefix_mismatch(t, "AnimationSystem"@, 0);
        reveal_strlit("MediaFolder");
        lemma_prefix_mismatch(t, "MediaFolder"@, 0);
        reveal_strlit("MediaContent");
        lemma_prefix_mismatch(t, "MediaContent"@, 0);
        reveal_strlit("ModelFolder");
        lemma_prefix_mismatch(t, "ModelFolder"@, 0);
        reveal_strlit("ModelContent");
        lemma_prefix_mismatch(t, "ModelContent"@, 0);
        reveal_strlit("ColorEffects");
        lemma_prefix_mismatch(t, "ColorEffects"@, 0);
        reveal_strlit("Color");
        lemma_prefix_mismatch(t, "Color"@, 0);
        reveal_strlit("Color");
        reveal_strlit("WheelIndex");
        lemma_prefix_mismatch(t, "Color"@, 0);
        reveal_strlit("Color");
        reveal_strlit("WheelSpin");
        lemma_prefix_mismatch(t, "Color"@, 0);
        reveal_strlit("Color");
        reveal_strlit("WheelRandom");
        lemma_prefix_mismatch(t, "Color"@, 0);
        reveal_strlit("Color");
        reveal_strlit("WheelAudio");
        lemma_prefix_mismatch(t, "Color"@, 0);
        reveal_strlit("ColorMacro");
        lemma_prefix_mismatch(t, "ColorMacro"@, 0);
        reveal_strlit("ColorMacro");
        reveal_strlit("Rate");
        lemma_prefix_mismatch(t, "ColorMacro"@, 0);
        reveal_strlit("Shutter");
        lemma_prefix_mismatch(t, "Shutter"@, 0);
        reveal_strlit("Shutter");
        reveal_strlit("Strobe");
        lemma_prefix_mismatch(t, "Shutter"@, 0);
        reveal_strlit("Shutter");
        reveal_strlit("StrobePulse");
        lemma_prefix_mismatch(t, "Shutter"@, 0);
        reveal_strlit("Shutter");
        reveal_strlit("StrobePulseClose");
        lemma_prefix_mismatch(t, "Shutter"@, 0);
        reveal_strlit("Shutter");
        reveal_strlit("StrobePulseOpen");
        lemma_prefix_mismatch(t, "Shutter"@, 0);
        reveal_strlit("Shutter");
        reveal_strlit("StrobeRandom");
        lemma_prefix_mismatch(t, "Shutter"@, 0);
        reveal_strlit("Shutter");
        reveal_strlit("StrobeRandomPulse");
        lemma_prefix_mismatch(t, "Shutter"@, 0);
        reveal_strlit("Shutter");
        reveal_strlit("StrobeRandomPulseClose");
        lemma_prefix_mismatch(t, "Shutter"@, 0);
        reveal_strlit("Shutter");
        reveal_strlit("StrobeRandomPulseOpen");
        lemma_prefix_mismatch(t, "Shutter"@, 0);
        reveal_strlit("Shutter");
        reveal_strlit("StrobeEffect");
        lemma_prefix_mismatch(t, "Shutter"@, 0);
        reveal_strlit("Frost");
        lemma_prefix_mismatch(t, "Frost"@, 0);
        reveal_strlit("Frost");
        reveal_strlit("PulseOpen");
        lemma_prefix_mismatch(t, "Frost"@, 0);
        reveal_strlit("Frost");
        reveal_strlit("PulseClose");
        lemma_prefix_mismatch(t, "Frost"@, 0);
        reveal_strlit("Frost");
        reveal_strlit("Ramp");
        lemma_prefix_mismatch(t, "Frost"@, 0);
        reveal_strlit("Prism");
        lemma_prefix_mismatch(t, "Prism"@, 0);
        reveal_strlit("Prism");
        reveal_strlit("SelectSpin");
        lemma_prefix_mismatch(t, "Prism"@, 0);
        reveal_strlit("Prism");
        reveal_strlit("Macro");
        lemma_prefix_mismatch(t, "Prism"@, 0);
        reveal_strlit("Prism");
        reveal_strlit("Pos");
        lemma_prefix_mismatch(t, "Prism"@, 0);
        reveal_strlit("Prism");
        reveal_strlit("PosRotate");
        lemma_prefix_mismatch(t, "Prism"@, 0);
    }
    reveal_strlit("Effects");
    reveal_strlit("Adjust");
    lemma_prefix_mismatch(t, "Effects"@, 0);
    reveal_strlit("Effects");
    lemma_prefix_mismatch(t, "Effects"@, 0);
    reveal_strlit("Effects");
    reveal_strlit("Rate");
    lemma_prefix_mismatch(t, "Effects"@, 0);
    reveal_strlit("Effects");
    reveal_strlit("Fade");
    lemma_prefix_mismatch(t, "Effects"@, 0);
    reveal_strlit("Effects");
    reveal_strlit("Pos");
    lemma_prefix_mismatch(t, "Effects"@, 0);
    reveal_strlit("Effects");
    reveal_strlit("PosRotate");
    lemma_prefix_mismatch(t, "Effects"@, 0);
    reveal_strlit("Focus");
    lemma_prefix_mismatch(t, "Focus"@, 0);
    reveal_strlit("Focus");
    reveal_strlit("Adjust");
    lemma_prefix_mismatch(t, "Focus"@, 0);
    reveal_strlit("Focus");
    reveal_strlit("Distance");
    lemma_prefix_mismatch(t, "Focus"@, 0);
    reveal_strlit("Control");
    lemma_prefix_mismatch(t, "Control"@, 0);
    reveal_strlit("Gobo");
    reveal_strlit("WheelMode");
    lemma_prefix_mismatch(t, "Gobo"@, 0);
    reveal_strlit("AnimationWheel");
    reveal_strlit("Mode");
    lemma_prefix_mismatch(t, "AnimationWheel"@, 0);
    reveal_strlit("Color");
    reveal_strlit("Mode");
    lemma_prefix_mismatch(t, "Color"@, 0);
    reveal_strlit("Fan");
    reveal_strlit("Mode");
    lemma_prefix_mismatch(t, "Fan"@, 0);
    reveal_strlit("GoboWheel");
    reveal_strlit("MSpeed");
    lemma_prefix_mismatch(t, "GoboWheel"@, 0);
    reveal_strlit("Prism");
    reveal_strlit("MSpeed");
    lemma_prefix_mismatch(t, "Prism"@, 0);
    reveal_strlit("Frost");
    reveal_strlit("MSpeed");
    lemma_prefix_mismatch(t, "Frost"@, 0);
    reveal_strlit("Blower");
    lemma_prefix_mismatch(t, "Blower"@, 2);
    reveal_strlit("Fan");
    lemma_prefix_mismatch(t, "Fan"@, 0);
    reveal_strlit("Fog");
    lemma_prefix_mismatch(t, "Fog"@, 0);
    reveal_strlit("Haze");
    lemma_prefix_mismatch(t, "Haze"@, 0);
    reveal_strlit("Blade");
    reveal_strlit("A");
    lemma_suffix_mismatch(t, "Blade"@, "A"@, 0);
    reveal_strlit("Blade");
    reveal_strlit("B");
    lemma_suffix_mismatch(t, "Blade"@, "B"@, 0);
    lemma_number_between("Blade"@, "Rot"@, n);
}

/// An attribute of the numbered family `BladeSoftA` reads back from its written
/// name: that text is no standard name, and every numbering rule before the
/// family's own rejects it.
proof fn text_reads_back_blade_soft_a(n: u8)
    ensures
        attribute_from_text(attribute_text(FixtureChannel3Attribute::BladeSoftA(n))) == Some(FixtureChannel3Attribute::BladeSoftA(n)),
{
    let d = decimal(n as nat);
    lemma_decimal_digits(n as nat);
    lemma_decimal_len_u8(n as nat);
    let t = attribute_text(FixtureChannel3Attribute::BladeSoftA(n));
    reveal_strlit("BladeSoft");
    reveal_strlit("A");
    assert(t == "BladeSoft"@ + d + "A"@);
    lemma_exact_none_with_digit(t, 9);
    reveal(numbered_attribute_2);
    assert(numbered_attribute_0(t) is None) by {
        reveal(numbered_attribute_0);
        reveal_strlit("Gobo");
        lemma_prefix_mismatch(t, "Gobo"@, 0);
        reveal_strlit("Gobo");
        reveal_strlit("SelectSpin");
        lemma_prefix_mismatch(t, "Gobo"@, 0);
        reveal_strlit("Gobo");
        reveal_strlit("SelectShake");
        lemma_prefix_mismatch(t, "Gobo"@, 0);
        reveal_strlit("Gobo");
        reveal_strlit("SelectEffects");
        lemma_prefix_mismatch(t, "Gobo"@, 0);
        reveal_strlit("Gobo");
        reveal_strlit("WheelIndex");
        lemma_prefix_mismatch(t, "Gobo"@, 0);
        reveal_strlit("Gobo");
        reveal_strlit("WheelSpin");
        lemma_prefix_mismatch(t, "Gobo"@, 0);
        reveal_strlit("Gobo");
        reveal_strlit("WheelShake");
        lemma_prefix_mismatch(t, "Gobo"@, 0);
        reveal_strlit("Gobo");
        reveal_strlit("WheelRandom");
        lemma_prefix_mismatch(t, "Gobo"@, 0);
        reveal_strlit("Gobo");
        reveal_strlit("WheelAudio");
        lemma_prefix_mismatch(t, "Gobo"@, 0);
        reveal_strlit("Gobo");
        reveal_strlit("Pos");
        lemma_prefix_mismatch(t, "Gobo"@, 0);
        reveal_strlit("Gobo");
        reveal_strlit("PosRotate");
        lemma_prefix_mismatch(t, "Gobo"@, 0);
        reveal_strlit("Gobo");
        reveal_strlit("PosShake");
        lemma_prefix_mismatch(t, "Gobo"@, 0);
        reveal_strlit("AnimationWheel");
        lemma_prefix_mismatch(t, "AnimationWheel"@, 0);
        reveal_strlit("AnimationWheel");
        reveal_strlit("Audio");
        lemma_prefix_mismatch(t, "AnimationWheel"@, 0);
        reveal_strlit("AnimationWheel");
        reveal_strlit("Macro");
        lemma_prefix_mismatch(t, "AnimationWheel"@, 0);
        reveal_strlit("AnimationWheel");
        reveal_strlit("Random");
        lemma_prefix_mismatch(t, "AnimationWheel"@, 0);
        reveal_strlit("AnimationWheel");
        reveal_strlit("SelectEffects");
        lemma_prefix_mismatch(t, "AnimationWheel"@, 0);
        reveal_strlit("AnimationWheel");
        reveal_strlit("SelectShake");
        lemma_prefix_mismatch(t, "AnimationWheel"@, 0);
        reveal_strlit("AnimationWheel");
        reveal_strlit("SelectSpin");
        lemma_prefix_mismatch(t, "AnimationWheel"@, 0);
        reveal_strlit("AnimationWheel");
        reveal_strlit("Pos");
        lemma_prefix_mismatch(t, "AnimationWheel"@, 0);
        reveal_strlit("AnimationWheel");
        reveal_strlit("PosRotate");
        lemma_prefix_mismatch(t, "AnimationWheel"@, 0);
        reveal_strlit("AnimationWheel");
        reveal_strlit("PosShake");
        lemma_prefix_mismatch(t, "AnimationWheel"@, 0);
        reveal_strlit("AnimationSystem");
        lemma_prefix_mismatch(t, "AnimationSystem"@, 0);
        reveal_strlit("AnimationSystem");
        reveal_strlit("Ramp");
        lemma_prefix_mismatch(t, "AnimationSystem"@, 0);
        reveal_strlit("AnimationSystem");
        reveal_strlit("Shake");
        lemma_prefix_mismatch(t, "AnimationSystem"@, 0);
        reveal_strlit("AnimationSystem");
        reveal_strlit("Audio");
        lemma_prefix_mismatch(t, "AnimationSystem"@, 0);
        reveal_strlit("AnimationSystem");
        reveal_strlit("Random");
        lemma_prefix_mismatch(t, "AnimationSystem"@, 0);
        reveal_strlit("AnimationSystem");
        reveal_strlit("Pos");
        lemma_prefix_mismatch(t, "AnimationSystem"@, 0);
        reveal_strlit("AnimationSystem");
        reveal_strlit("PosRotate");
        lemma_prefix_mismatch(t, "AnimationSystem"@, 0);
        reveal_strlit("AnimationSystem");
        reveal_strlit("PosShake");
        lemma_prefix_mismatch(t, "AnimationSystem"@, 0);
        reveal_strlit("AnimationSystem");
        reveal_strlit("PosRandom");
        lemma_prefix_mismatch(t, "AnimationSystem"@, 0);
        reveal_strlit("AnimationSystem");
        reveal_strlit("PosAudio");
        lemma_prefix_mismatch(t, "AnimationSystem"@, 0);
    }
    assert(numbered_attribute_1(t) is None) by {
        reveal(numbered_attribute_1);
        reveal_strlit("AnimationSystem");
        reveal_strlit("Macro");
        lemma_prefix_mismatch(t, "AnimationSystem"@, 0);
        reveal_strlit("MediaFolder");
        lemma_prefix_mismatch(t, "MediaFolder"@, 0);
        reveal_strlit("MediaContent");
        lemma_prefix_mismatch(t, "MediaContent"@, 0);
        reveal_strlit("ModelFolder");
        lemma_prefix_mismatch(t, "ModelFolder"@, 0);
        reveal_strlit("ModelContent");
        lemma_prefix_mismatch(t, "ModelContent"@, 0);
        reveal_strlit("ColorEffects");
        lemma_prefix_mismatch(t, "ColorEffects"@, 0);
        reveal_strlit("Color");
        lemma_prefix_mismatch(t, "Color"@, 0);
        reveal_strlit("Color");
        reveal_strlit("WheelIndex");
        lemma_prefix_mismatch(t, "Color"@, 0);
        reveal_strlit("Color");
        reveal_strlit("WheelSpin");
        lemma_prefix_mismatch(t, "Color"@, 0);
        reveal_strlit("Color");
        reveal_strlit("WheelRandom");
        lemma_prefix_mismatch(t, "Color"@, 0);
        reveal_strlit("Color");
        reveal_strlit("WheelAudio");
        lemma_prefix_mismatch(t, "Color"@, 0);
        reveal_strlit("ColorMacro");
        lemma_prefix_mismatch(t, "ColorMacro"@, 0);
        reveal_strlit("ColorMacro");
        reveal_strlit("Rate");
        lemma_prefix_mismatch(t, "ColorMacro"@, 0);
        reveal_strlit("Shutter");
        lemma_prefix_mismatch(t, "Shutter"@, 0);
        reveal_strlit("Shutter");
        reveal_strlit("Strobe");
        lemma_prefix_mismatch(t, "Shutter"@, 0);
        reveal_strlit("Shutter");
        reveal_strlit("StrobePulse");
        lemma_prefix_mismatch(t, "Shutter"@, 0);
        reveal_strlit("Shutter");
        reveal_strlit("StrobePulseClose");
        lemma_prefix_mismatch(t, "Shutter"@, 0);
        reveal_strlit("Shutter");
        reveal_strlit("StrobePulseOpen");
        lemma_prefix_mismatch(t, "Shutter"@, 0);
        reveal_strlit("Shutter");
        reveal_strlit("StrobeRandom");
        lemma_prefix_mismatch(t, "Shutter"@, 0);
        reveal_strlit("Shutter");
        reveal_strlit("StrobeRandomPulse");
        lemma_prefix_mismatch(t, "Shutter"@, 0);
        reveal_strlit("Shutter");
        reveal_strlit("StrobeRandomPulseClose");
        lemma_prefix_mismatch(t, "Shutter"@, 0);
        reveal_strlit("Shutter");
        reveal_strlit("StrobeRandomPulseOpen");
        lemma_prefix_mismatch(t, "Shutter"@, 0);
        reveal_strlit("Shutter");
        reveal_strlit("StrobeEffect");
        lemma_prefix_mismatch(t, "Shutter"@, 0);
        reveal_strlit("Frost");
        lemma_prefix_mismatch(t, "Frost"@, 0);
        reveal_strlit("Frost");
        reveal_strlit("PulseOpen");
        lemma_prefix_mismatch(t, "Frost"@, 0);
        reveal_strlit("Frost");
        reveal_strlit("PulseClose");
        lemma_prefix_mismatch(t, "Frost"@, 0);
        reveal_strlit("Frost");
        reveal_strlit("Ramp");
        lemma_prefix_mismatch(t, "Frost"@, 0);
        reveal_strlit("Prism");
        lemma_prefix_mismatch(t, "Prism"@, 0);
        reveal_strlit("Prism");
        reveal_strlit("SelectSpin");
        lemma_prefix_mismatch(t, "Prism"@, 0);
        reveal_strlit("Prism");
        reveal_strlit("Macro");
        lemma_prefix_mismatch(t, "Prism"@, 0);
        reveal_strlit("Prism");
        reveal_strlit("Pos");
        lemma_prefix_mismatch(t, "Prism"@, 0);
        reveal_strlit("Prism");
        reveal_strlit("PosRotate");
        lemma_prefix_mismatch(t, "Prism"@, 0);
    }
    reveal_strlit("Effects");
    reveal_strlit("Adjust");
    lemma_prefix_mismatch(t, "Effects"@, 0);
    reveal_strlit("Effects");
    lemma_prefix_mismatch(t, "Effects"@, 0);
    reveal_strlit("Effects");
    reveal_strlit("Rate");
    lemma_prefix_mismatch(t, "Effects"@, 0);
    reveal_strlit("Effects");
    reveal_strlit("Fade");
    lemma_prefix_mismatch(t, "Effects"@, 0);
    reveal_strlit("Effects");
    reveal_strlit("Pos");
    lemma_prefix_mismatch(t, "Effects"@, 0);
    reveal_strlit("Effects");
    reveal_strlit("PosRotate");
    lemma_prefix_mismatch(t, "Effects"@, 0);
    reveal_strlit("Focus");
    lemma_prefix_mismatch(t, "Focus"@, 0);
    reveal_strlit("Focus");
    reveal_strlit("Adjust");
    lemma_prefix_mismatch(t, "Focus"@, 0);
    reveal_strlit("Focus");
    reveal_strlit("Distance");
    lemma_prefix_mismatch(t, "Focus"@, 0);
    reveal_strlit("Control");
    lemma_prefix_mismatch(t, "Control"@, 0);
    reveal_strlit("Gobo");
    reveal_strlit("WheelMode");
    lemma_prefix_mismatch(t, "Gobo"@, 0);
    reveal_strlit("AnimationWheel");
    reveal_strlit("Mode");
    lemma_prefix_mismatch(t, "AnimationWheel"@, 0);
    reveal_strlit("Color");
    reveal_strlit("Mode");
    lemma_prefix_mismatch(t, "Color"@, 0);
    reveal_strlit("Fan");
    reveal_strlit("Mode");
    lemma_prefix_mismatch(t, "Fan"@, 0);
    reveal_strlit("GoboWheel");
    reveal_strlit("MSpeed");
    lemma_prefix_mismatch(t, "GoboWheel"@, 0);
    reveal_strlit("Prism");
    reveal_strlit("MSpeed");
    lemma_prefix_mismatch(t, "Prism"@, 0);
    reveal_strlit("Frost");
    reveal_strlit("MSpeed");
    lemma_prefix_mismatch(t, "Frost"@, 0);
    reveal_strlit("Blower");
    lemma_prefix_mismatch(t, "Blower"@, 2);
    reveal_strlit("Fan");
    lemma_prefix_mismatch(t, "Fan"@, 0);
    reveal_strlit("Fog");
    lemma_prefix_mismatch(t, "Fog"@, 0);
    reveal_strlit("Haze");
    lemma_prefix_mismatch(t, "Haze"@, 0);
    reveal_strlit("Blade");
    reveal_strlit("A");
    lemma_middle_not_number(t, "Blade"@, "A"@, 0);
    reveal_strlit("Blade");
    reveal_strlit("B");
    lemma_suffix_mismatch(t, "Blade"@, "B"@, 0);
    reveal_strlit("Blade");
    reveal_strlit("Rot");
    lemma_suffix_mismatch(t, "Blade"@, "Rot"@, 0);
    lemma_number_between("BladeSoft"@, "A"@, n);
}

/// An attribute of the numbered family `BladeSoftB` reads back from its written
/// name: that text is no standard name, and every numbering rule before the
/// family's own rejects it.
proof fn text_reads_back_blade_soft_b(n: u8)
    ensures
        attribute_from_text(attribute_text(FixtureChannel3Attribute::BladeSoftB(n))) == Some(FixtureChannel3Attribute::BladeSoftB(n)),
{
    let d = decimal(n as nat);
    lemma_decimal_digits(n as nat);
    lemma_decimal_len_u8(n as nat);
    let t = attribute_text(FixtureChannel3Attribute::BladeSoftB(n));
    reveal_strlit("BladeSoft");
    reveal_strlit("B");
    assert(t == "BladeSoft"@ + d + "B"@);
    lemma_exact_none_with_digit(t, 9);
    reveal(numbered_attribute_2);
    assert(numbered_attribute_0(t) is None) by {
        reveal(numbered_attribute_0);
        reveal_strlit("Gobo");
        lemma_prefix_mismatch(t, "Gobo"@, 0);
        reveal_strlit("Gobo");
        reveal_strlit("SelectSpin");
        lemma_prefix_mismatch(t, "Gobo"@, 0);
        reveal_strlit("Gobo");
        reveal_strlit("SelectShake");
        lemma_prefix_mismatch(t, "Gobo"@, 0);
        reveal_strlit("Gobo");
        reveal_strlit("SelectEffects");
        lemma_prefix_mismatch(t, "Gobo"@, 0);
        reveal_strlit("Gobo");
        reveal_strlit("WheelIndex");
        lemma_prefix_mismatch(t, "Gobo"@, 0);
        reveal_strlit("Gobo");
        reveal_strlit("WheelSpin");
        lemma_prefix_mismatch(t, "Gobo"@, 0);
        reveal_strlit("Gobo");
        reveal_strlit("WheelShake");
        lemma_prefix_mismatch(t, "Gobo"@, 0);
        reveal_strlit("Gobo");
        reveal_strlit("WheelRandom");
        lemma_prefix_mismatch(t, "Gobo"@, 0);
        reveal_strlit("Gobo");
        reveal_strlit("WheelAudio");
        lemma_prefix_mismatch(t, "Gobo"@, 0);
        reveal_strlit("Gobo");
        reveal_strlit("Pos");
        lemma_prefix_mismatch(t, "Gobo"@, 0);
        reveal_strlit("Gobo");
        reveal_strlit("PosRotate");
        lemma_prefix_mismatch(t, "Gobo"@, 0);
        reveal_strlit("Gobo");
        reveal_strlit("PosShake");
        lemma_prefix_mismatch(t, "Gobo"@, 0);
        reveal_strlit("AnimationWheel");
        lemma_prefix_mismatch(t, "AnimationWheel"@, 0);
        reveal_strlit("AnimationWheel");
        reveal_strlit("Audio");
        lemma_prefix_mismatch(t, "AnimationWheel"@, 0);
        reveal_strlit("AnimationWheel");
        reveal_strlit("Macro");
        lemma_prefix_mismatch(t, "AnimationWheel"@, 0);
        reveal_strlit("AnimationWheel");
        reveal_strlit("Random");
        lemma_prefix_mismatch(t, "AnimationWheel"@, 0);
        reveal_strlit("AnimationWheel");
        reveal_strlit("SelectEffects");
        lemma_prefix_mismatch(t, "AnimationWheel"@, 0);
        reveal_strlit("AnimationWheel");
        reveal_strlit("SelectShake");
        lemma_prefix_mismatch(t, "AnimationWheel"@, 0);
        reveal_strlit("AnimationWheel");
        reveal_strlit("SelectSpin");
        lemma_prefix_mismatch(t, "AnimationWheel"@, 0);
        reveal_strlit("AnimationWheel");
        reveal_strlit("Pos");
        lemma_prefix_mismatch(t, "AnimationWheel"@, 0);
        reveal_strlit("AnimationWheel");
        reveal_strlit("PosRotate");
        lemma_prefix_mismatch(t, "AnimationWheel"@, 0);
        reveal_strlit("AnimationWheel");
        reveal_strlit("PosShake");
        lemma_prefix_mismatch(t, "AnimationWheel"@, 0);
        reveal_strlit("AnimationSystem");
        lemma_prefix_mismatch(t, "AnimationSystem"@, 0);
        reveal_strlit("AnimationSystem");
        reveal_strlit("Ramp");
        lemma_prefix_mismatch(t, "AnimationSystem"@, 0);
        reveal_strlit("AnimationSystem");
        reveal_strlit("Shake");
        lemma_prefix_mismatch(t, "AnimationSystem"@, 0);
        reveal_strlit("AnimationSystem");
        reveal_strlit("Audio");
        lemma_prefix_mismatch(t, "AnimationSystem"@, 0);
        reveal_strlit("AnimationSystem");
        reveal_strlit("Random");
        lemma_prefix_mismatch(t, "AnimationSystem"@, 0);
        reveal_strlit("AnimationSystem");
        reveal_strlit("Pos");
        lemma_prefix_mismatch(t, "AnimationSystem"@, 0);
        reveal_strlit("AnimationSystem");
        reveal_strlit("PosRotate");
        lemma_prefix_mismatch(t, "AnimationSystem"@, 0);
        reveal_strlit("AnimationSystem");
        reveal_strlit("PosShake");
        lemma_prefix_mismatch(t, "AnimationSystem"@, 0);
        reveal_strlit("AnimationSystem");
        reveal_strlit("PosRandom");
        lemma_prefix_mismatch(t, "AnimationSystem"@, 0);
        reveal_strlit("AnimationSystem");
        reveal_strlit("PosAudio");
        lemma_prefix_mismatch(t, "AnimationSystem"@, 0);
    }
    assert(numbered_attribute_1(t) is None) by {
        reveal(numbered_attribute_1);
        reveal_strlit("AnimationSystem");
        reveal_strlit("Macro");
        lemma_prefix_mismatch(t, "AnimationSystem"@, 0);
        reveal_strlit("MediaFolder");
        lemma_prefix_mismatch(t, "MediaFolder"@, 0);
        reveal_strlit("MediaContent");
        lemma_prefix_mismatch(t, "MediaContent"@, 0);
        reveal_strlit("ModelFolder");
        lemma_prefix_mismatch(t, "ModelFolder"@, 0);
        reveal_strlit("ModelContent");
        lemma_prefix_mismatch(t, "ModelContent"@, 0);
        reveal_strlit("ColorEffects");
        lemma_prefix_mismatch(t, "ColorEffects"@, 0);
        reveal_strlit("Color");
        lemma_prefix_mismatch(t, "Color"@, 0);
        reveal_strlit("Color");
        reveal_strlit("WheelIndex");
        lemma_prefix_mismatch(t, "Color"@, 0);
        reveal_strlit("Color");
        reveal_strlit("WheelSpin");
        lemma_prefix_mismatch(t, "Color"@, 0);
        reveal_strlit("Color");
        reveal_strlit("WheelRandom");
        lemma_prefix_mismatch(t, "Color"@, 0);
        reveal_strlit("Color");
        reveal_strlit("WheelAudio");
        lemma_prefix_mismatch(t, "Color"@, 0);
        reveal_strlit("ColorMacro");
        lemma_prefix_mismatch(t, "ColorMacro"@, 0);
        reveal_strlit("ColorMacro");
        reveal_strlit("Rate");
        lemma_prefix_mismatch(t, "ColorMacro"@, 0);
        reveal_strlit("Shutter");
        lemma_prefix_mismatch(t, "Shutter"@, 0);
        reveal_strlit("Shutter");
        reveal_strlit("Strobe");
        lemma_prefix_mismatch(t, "Shutter"@, 0);
        reveal_strlit("Shutter");
        reveal_strlit("StrobePulse");
        lemma_prefix_mismatch(t, "Shutter"@, 0);
        reveal_strlit("Shutter");
        reveal_strlit("StrobePulseClose");
        lemma_prefix_mismatch(t, "Shutter"@, 0);
        reveal_strlit("Shutter");
        reveal_strlit("StrobePulseOpen");
        lemma_prefix_mismatch(t, "Shutter"@, 0);
        reveal_strlit("Shutter");
        reveal_strlit("StrobeRandom");
        lemma_prefix_mismatch(t, "Shutter"@, 0);
        reveal_strlit("Shutter");
        reveal_strlit("StrobeRandomPulse");
        lemma_prefix_mismatch(t, "Shutter"@, 0);
        reveal_strlit("Shutter");
        reveal_strlit("StrobeRandomPulseClose");
        lemma_prefix_mismatch(t, "Shutter"@, 0);
        reveal_strlit("Shutter");
        reveal_strlit("StrobeRandomPulseOpen");
        lemma_prefix_mismatch(t, "Shutter"@, 0);
        reveal_strlit("Shutter");
        reveal_strlit("StrobeEffect");
        lemma_prefix_mismatch(t, "Shutter"@, 0);
        reveal_strlit("Frost");
        lemma_prefix_mismatch(t, "Frost"@, 0);
        reveal_strlit("Frost");
        reveal_strlit("PulseOpen");
        lemma_prefix_mismatch(t, "Frost"@, 0);
        reveal_strlit("Frost");
        reveal_strlit("PulseClose");
        lemma_prefix_mismatch(t, "Frost"@, 0);
        reveal_strlit("Frost");
        reveal_strlit("Ramp");
        lemma_prefix_mismatch(t, "Frost"@, 0);
        reveal_strlit("Prism");
        lemma_prefix_mismatch(t, "Prism"@, 0);
        reveal_strlit("Prism");
        reveal_strlit("SelectSpin");
        lemma_prefix_mismatch(t, "Prism"@, 0);
        reveal_strlit("Prism");
        reveal_strlit("Macro");
        lemma_prefix_mismatch(t, "Prism"@, 0);
        reveal_strlit("Prism");
        reveal_strlit("Pos");
        lemma_prefix_mismatch(t, "Prism"@, 0);
        reveal_strlit("Prism");
        reveal_strlit("PosRotate");
        lemma_prefix_mismatch(t, "Prism"@, 0);
    }
    reveal_strlit("Effects");
    reveal_strlit("Adjust");
    lemma_prefix_mismatch(t, "Effects"@, 0);
    reveal_strlit("Effects");
    lemma_prefix_mismatch(t, "Effects"@, 0);
    reveal_strlit("Effects");
    reveal_strlit("Rate");
    lemma_prefix_mismatch(t, "Effects"@, 0);
    reveal_strlit("Effects");
    reveal_strlit("Fade");
    lemma_prefix_mismatch(t, "Effects"@, 0);
    reveal_strlit("Effects");
    reveal_strlit("Pos");
    lemma_prefix_mismatch(t, "Effects"@, 0);
    reveal_strlit("Effects");
    reveal_strlit("PosRotate");
    lemma_prefix_mismatch(t, "Effects"@, 0);
    reveal_strlit("Focus");
    lemma_prefix_mismatch(t, "Focus"@, 0);
    reveal_strlit("Focus");
    reveal_strlit("Adjust");
    lemma_prefix_mismatch(t, "Focus"@, 0);
    reveal_strlit("Focus");
    reveal_strlit("Distance");
    lemma_prefix_mismatch(t, "Focus"@, 0);
    reveal_strlit("Control");
    lemma_prefix_mismatch(t, "Control"@, 0);
    reveal_strlit("Gobo");
    reveal_strlit("WheelMode");
    lemma_prefix_mismatch(t, "Gobo"@, 0);
    reveal_strlit("AnimationWheel");
    reveal_strlit("Mode");
    lemma_prefix_mismatch(t, "AnimationWheel"@, 0);
    reveal_strlit("Color");
    reveal_strlit("Mode");
    lemma_prefix_mismatch(t, "Color"@, 0);
    reveal_strlit("Fan");
    reveal_strlit("Mode");
    lemma_prefix_mismatch(t, "Fan"@, 0);
    reveal_strlit("GoboWheel");
    reveal_strlit("MSpeed");
    lemma_prefix_mismatch(t, "GoboWheel"@, 0);
    reveal_strlit("Prism");
    reveal_strlit("MSpeed");
    lemma_prefix_mismatch(t, "Prism"@, 0);
    reveal_strlit("Frost");
    reveal_strlit("MSpeed");
    lemma_prefix_mismatch(t, "Frost"@, 0);
    reveal_strlit("Blower");
    lemma_prefix_mismatch(t, "Blower"@, 2);
    reveal_strlit("Fan");
    lemma_prefix_mismatch(t, "Fan"@, 0);
    reveal_strlit("Fog");
    lemma_prefix_mismatch(t, "Fog"@, 0);
    reveal_strlit("Haze");
    lemma_prefix_mismatch(t, "Haze"@, 0);
    reveal_strlit("Blade");
    reveal_strlit("A");
    lemma_suffix_mismatch(t, "Blade"@, "A"@, 0);
    reveal_strlit("Blade");
    reveal_strlit("B");
    lemma_middle_not_number(t, "Blade"@, "B"@, 0);
    reveal_strlit("Blade");
    reveal_strlit("Rot");
    lemma_suffix_mismatch(t, "Blade"@, "Rot"@, 0);
    reveal_strlit("BladeSoft");
    reveal_strlit("A");
    lemma_suffix_mismatch(t, "BladeSoft"@, "A"@, 0);
    lemma_number_between("BladeSoft"@, "B"@, n);
}

/// An attribute of the numbered family `KeyStoneA` reads back from its written
/// name: that text is no standard name, and every numbering rule before the
/// family's own rejects it.
proof fn text_reads_back_key_stone_a(n: u8)
    ensures
        attribute_from_text(attribute_text(FixtureChannel3Attribute::KeyStoneA(n))) == Some(FixtureChannel3Attribute::KeyStoneA(n)),
{
    let d = decimal(n as nat);
    lemma_decimal_digits(n as nat);
    lemma_decimal_len_u8(n as nat);
    let t = attribute_text(FixtureChannel3Attribute::KeyStoneA(n));
    reveal_strlit("KeyStone");
    reveal_strlit("A");
    assert(t == "KeyStone"@ + d + "A"@);
    lemma_exact_none_with_digit(t, 8);
    reveal(numbered_attribute_2);
    assert(numbered_attribute_0(t) is None) by {
        reveal(numbered_attribute_0);
        reveal_strlit("Gobo");
        lemma_prefix_mismatch(t, "Gobo"@, 0);
        reveal_strlit("Gobo");
        reveal_strlit("SelectSpin");
        lemma_prefix_mismatch(t, "Gobo"@, 0);
        reveal_strlit("Gobo");
        reveal_strlit("SelectShake");
        lemma_prefix_mismatch(t, "Gobo"@, 0);
        reveal_strlit("Gobo");
        reveal_strlit("SelectEffects");
        lemma_prefix_mismatch(t, "Gobo"@, 0);
        reveal_strlit("Gobo");
        reveal_strlit("WheelIndex");
        lemma_prefix_mismatch(t, "Gobo"@, 0);
        reveal_strlit("Gobo");
        reveal_strlit("WheelSpin");
        lemma_prefix_mismatch(t, "Gobo"@, 0);
        reveal_strlit("Gobo");
        reveal_strlit("WheelShake");
        lemma_prefix_mismatch(t, "Gobo"@, 0);
        reveal_strlit("Gobo");
        reveal_strlit("WheelRandom");
        lemma_prefix_mismatch(t, "Gobo"@, 0);
        reveal_strlit("Gobo");
        reveal_strlit("WheelAudio");
        lemma_prefix_mismatch(t, "Gobo"@, 0);
        reveal_strlit("Gobo");
        reveal_strlit("Pos");
        lemma_prefix_mismatch(t, "Gobo"@, 0);
        reveal_strlit("Gobo");
        reveal_strlit("PosRotate");
        lemma_prefix_mismatch(t, "Gobo"@, 0);
        reveal_strlit("Gobo");
        reveal_strlit("PosShake");
        lemma_prefix_mismatch(t, "Gobo"@, 0);
        reveal_strlit("AnimationWheel");
        lemma_prefix_mismatch(t, "AnimationWheel"@, 0);
        reveal_strlit("AnimationWheel");
        reveal_strlit("Audio");
        lemma_prefix_mismatch(t, "AnimationWheel"@, 0);
        reveal_strlit("AnimationWheel");
        reveal_strlit("Macro");
        lemma_prefix_mismatch(t, "AnimationWheel"@, 0);
        reveal_strlit("AnimationWheel");
        reveal_strlit("Random");
        lemma_prefix_mismatch(t, "AnimationWheel"@, 0);
        reveal_strlit("AnimationWheel");
        reveal_strlit("SelectEffects");
        lemma_prefix_mismatch(t, "AnimationWheel"@, 0);
        reveal_strlit("AnimationWheel");
        reveal_strlit("SelectShake");
        lemma_prefix_mismatch(t, "AnimationWheel"@, 0);
        reveal_strlit("AnimationWheel");
        reveal_strlit("SelectSpin");
        lemma_prefix_mismatch(t, "AnimationWheel"@, 0);
        reveal_strlit("AnimationWheel");
        reveal_strlit("Pos");
        lemma_prefix_mismatch(t, "AnimationWheel"@, 0);
        reveal_strlit("AnimationWheel");
        reveal_strlit("PosRotate");
        lemma_prefix_mismatch(t, "AnimationWheel"@, 0);
        reveal_strlit("AnimationWheel");
        reveal_strlit("PosShake");
        lemma_prefix_mismatch(t, "AnimationWheel"@, 0);
        reveal_strlit("AnimationSystem");
        lemma_prefix_mismatch(t, "AnimationSystem"@, 0);
        reveal_strlit("AnimationSystem");
        reveal_strlit("Ramp");
        lemma_prefix_mismatch(t, "AnimationSystem"@, 0);
        reveal_strlit("AnimationSystem");
        reveal_strlit("Shake");
        lemma_prefix_mismatch(t, "AnimationSystem"@, 0);
        reveal_strlit("AnimationSystem");
        reveal_strlit("Audio");
        lemma_prefix_mismatch(t, "AnimationSystem"@, 0);
        reveal_strlit("AnimationSystem");
        reveal_strlit("Random");
        lemma_prefix_mismatch(t, "AnimationSystem"@, 0);
        reveal_strlit("AnimationSystem");
        reveal_strlit("Pos");
        lemma_prefix_mismatch(t, "AnimationSystem"@, 0);
        reveal_strlit("AnimationSystem");
        reveal_strlit("PosRotate");
        lemma_prefix_mismatch(t, "AnimationSystem"@, 0);
        reveal_strlit("AnimationSystem");
        reveal_strlit("PosShake");
        lemma_prefix_mismatch(t, "AnimationSystem"@, 0);
        reveal_strlit("AnimationSystem");
        reveal_strlit("PosRandom");
        lemma_prefix_mismatch(t, "AnimationSystem"@, 0);
        reveal_strlit("AnimationSystem");
        reveal_strlit("PosAudio");
        lemma_prefix_mismatch(t, "AnimationSystem"@, 0);
    }
    assert(numbered_attribute_1(t) is None) by {
        reveal(numbered_attribute_1);
        reveal_strlit("AnimationSystem");
        reveal_strlit("Macro");
        lemma_prefix_mismatch(t, "AnimationSystem"@, 0);
        reveal_strlit("MediaFolder");
        lemma_prefix_mismatch(t, "MediaFolder"@, 0);
        reveal_strlit("MediaContent");
        lemma_prefix_mismatch(t, "MediaContent"@, 0);
        reveal_strlit("ModelFolder");
        lemma_prefix_mismatch(t, "ModelFolder"@, 0);
        reveal_strlit("ModelContent");
        lemma_prefix_mismatch(t, "ModelContent"@, 0);
        reveal_strlit("ColorEffects");
        lemma_prefix_mismatch(t, "ColorEffects"@, 0);
        reveal_strlit("Color");
        lemma_prefix_mismatch(t, "Color"@, 0);
        reveal_strlit("Color");
        reveal_strlit("WheelIndex");
        lemma_prefix_mismatch(t, "Color"@, 0);
        reveal_strlit("Color");
        reveal_strlit("WheelSpin");
        lemma_prefix_mismatch(t, "Color"@, 0);
        reveal_strlit("Color");
        reveal_strlit("WheelRandom");
        lemma_prefix_mismatch(t, "Color"@, 0);
        reveal_strlit("Color");
        reveal_strlit("WheelAudio");
        lemma_prefix_mismatch(t, "Color"@, 0);
        reveal_strlit("ColorMacro");
        lemma_prefix_mismatch(t, "ColorMacro"@, 0);
        reveal_strlit("ColorMacro");
        reveal_strlit("Rate");
        lemma_prefix_mismatch(t, "ColorMacro"@, 0);
        reveal_strlit("Shutter");
        lemma_prefix_mismatch(t, "Shutter"@, 0);
        reveal_strlit("Shutter");
        reveal_strlit("Strobe");
        lemma_prefix_mismatch(t, "Shutter"@, 0);
        reveal_strlit("Shutter");
        reveal_strlit("StrobePulse");
        lemma_prefix_mismatch(t, "Shutter"@, 0);
        reveal_strlit("Shutter");
        reveal_strlit("StrobePulseClose");
        lemma_prefix_mismatch(t, "Shutter"@, 0);
        reveal_strlit("Shutter");
        reveal_strlit("StrobePulseOpen");
        lemma_prefix_mismatch(t, "Shutter"@, 0);
        reveal_strlit("Shutter");
        reveal_strlit("StrobeRandom");
        lemma_prefix_mismatch(t, "Shutter"@, 0);
        reveal_strlit("Shutter");
        reveal_strlit("StrobeRandomPulse");
        lemma_prefix_mismatch(t, "Shutter"@, 0);
        reveal_strlit("Shutter");
        reveal_strlit("StrobeRandomPulseClose");
        lemma_prefix_mismatch(t, "Shutter"@, 0);
        reveal_strlit("Shutter");
        reveal_strlit("StrobeRandomPulseOpen");
        lemma_prefix_mismatch(t, "Shutter"@, 0);
        reveal_strlit("Shutter");
        reveal_strlit("StrobeEffect");
        lemma_prefix_mismatch(t, "Shutter"@, 0);
        reveal_strlit("Frost");
        lemma_prefix_mismatch(t, "Frost"@, 0);
        reveal_strlit("Frost");
        reveal_strlit("PulseOpen");
        lemma_prefix_mismatch(t, "Frost"@, 0);
        reveal_strlit("Frost");
        reveal_strlit("PulseClose");
        lemma_prefix_mismatch(t, "Frost"@, 0);
        reveal_strlit("Frost");
        reveal_strlit("Ramp");
        lemma_prefix_mismatch(t, "Frost"@, 0);
        reveal_strlit("Prism");
        lemma_prefix_mismatch(t, "Prism"@, 0);
        reveal_strlit("Prism");
        reveal_strlit("SelectSpin");
        lemma_prefix_mismatch(t, "Prism"@, 0);
        reveal_strlit("Prism");
        reveal_strlit("Macro");
        lemma_prefix_mismatch(t, "Prism"@, 0);
        reveal_strlit("Prism");
        reveal_strlit("Pos");
        lemma_prefix_mismatch(t, "Prism"@, 0);
        reveal_strlit("Prism");
        reveal_strlit("PosRotate");
        lemma_prefix_mismatch(t, "Prism"@, 0);
    }
    reveal_strlit("Effects");
    reveal_strlit("Adjust");
    lemma_prefix_mismatch(t, "Effects"@, 0);
    reveal_strlit("Effects");
    lemma_prefix_mismatch(t, "Effects"@, 0);
    reveal_strlit("Effects");
    reveal_strlit("Rate");
    lemma_prefix_mismatch(t, "Effects"@, 0);
    reveal_strlit("Effects");
    reveal_strlit("Fade");
    lemma_prefix_mismatch(t, "Effects"@, 0);
    reveal_strlit("Effects");
    reveal_strlit("Pos");
    lemma_prefix_mismatch(t, "Effects"@, 0);
    reveal_strlit("Effects");
    reveal_strlit("PosRotate");
    lemma_prefix_mismatch(t, "Effects"@, 0);
    reveal_strlit("Focus");
    lemma_prefix_mismatch(t, "Focus"@, 0);
    reveal_strlit("Focus");
    reveal_strlit("Adjust");
    lemma_prefix_mismatch(t, "Focus"@, 0);
    reveal_strlit("Focus");
    reveal_strlit("Distance");
    lemma_prefix_mismatch(t, "Focus"@, 0);
    reveal_strlit("Control");
    lemma_prefix_mismatch(t, "Control"@, 0);
    reveal_strlit("Gobo");
    reveal_strlit("WheelMode");
    lemma_prefix_mismatch(t, "Gobo"@, 0);
    reveal_strlit("AnimationWheel");
    reveal_strlit("Mode");
    lemma_prefix_mismatch(t, "AnimationWheel"@, 0);
    reveal_strlit("Color");
    reveal_strlit("Mode");
    lemma_prefix_mismatch(t, "Color"@, 0);
    reveal_strlit("Fan");
    reveal_strlit("Mode");
    lemma_prefix_mismatch(t, "Fan"@, 0);
    reveal_strlit("GoboWheel");
    reveal_strlit("MSpeed");
    lemma_prefix_mismatch(t, "GoboWheel"@, 0);
    reveal_strlit("Prism");
    reveal_strlit("MSpeed");
    lemma_prefix_mismatch(t, "Prism"@, 0);
    reveal_strlit("Frost");
    reveal_strlit("MSpeed");
    lemma_prefix_mismatch(t, "Frost"@, 0);
    reveal_strlit("Blower");
    lemma_prefix_mismatch(t, "Blower"@, 0);
    reveal_strlit("Fan");
    lemma_prefix_mismatch(t, "Fan"@, 0);
    reveal_strlit("Fog");
    lemma_prefix_mismatch(t, "Fog"@, 0);
    reveal_strlit("Haze");
    lemma_prefix_mismatch(t, "Haze"@, 0);
    reveal_strlit("Blade");
    reveal_strlit("A");
    lemma_prefix_mismatch(t, "Blade"@, 0);
    reveal_strlit("Blade");
    reveal_strlit("B");
    lemma_prefix_mismatch(t, "Blade"@, 0);
    reveal_strlit("Blade");
    reveal_strlit("Rot");
    lemma_prefix_mismatch(t, "Blade"@, 0);
    reveal_strlit("BladeSoft");
    reveal_strlit("A");
    lemma_prefix_mismatch(t, "BladeSoft"@, 0);
    reveal_strlit("BladeSoft");
    reveal_strlit("B");
    lemma_prefix_mismatch(t, "BladeSoft"@, 0);
    lemma_number_between("KeyStone"@, "A"@, n);
}

/// An attribute of the numbered family `KeyStoneB` reads back from its written
/// name: that text is no standard name, and every numbering rule before the
/// family's own rejects it.
proof fn text_reads_back_key_stone_b(n: u8)
    ensures
        attribute_from_text(attribute_text(FixtureChannel3Attribute::KeyStoneB(n))) == Some(FixtureChannel3Attribute::KeyStoneB(n)),
{
    let d = decimal(n as nat);
    lemma_decimal_digits(n as nat);
    lemma_decimal_len_u8(n as nat);
    let t = attribute_text(FixtureChannel3Attribute::KeyStoneB(n));
    reveal_strlit("KeyStone");
    reveal_strlit("B");
    assert(t == "KeyStone"@ + d + "B"@);
    lemma_exact_none_with_digit(t, 8);
    reveal(numbered_attribute_2);
    assert(numbered_attribute_0(t) is None) by {
        reveal(numbered_attribute_0);
        reveal_strlit("Gobo");
        lemma_prefix_mismatch(t, "Gobo"@, 0);
        reveal_strlit("Gobo");
        reveal_strlit("SelectSpin");
        lemma_prefix_mismatch(t, "Gobo"@, 0);
        reveal_strlit("Gobo");
        reveal_strlit("SelectShake");
        lemma_prefix_mismatch(t, "Gobo"@, 0);
        reveal_strlit("Gobo");
        reveal_strlit("SelectEffects");
        lemma_prefix_mismatch(t, "Gobo"@, 0);
        reveal_strlit("Gobo");
        reveal_strlit("WheelIndex");
        lemma_prefix_mismatch(t, "Gobo"@, 0);
        reveal_strlit("Gobo");
        reveal_strlit("WheelSpin");
        lemma_prefix_mismatch(t, "Gobo"@, 0);
        reveal_strlit("Gobo");
        reveal_strlit("WheelShake");
        lemma_prefix_mismatch(t, "Gobo"@, 0);
        reveal_strlit("Gobo");
        reveal_strlit("WheelRandom");
        lemma_prefix_mismatch(t, "Gobo"@, 0);
        reveal_strlit("Gobo");
        reveal_strlit("WheelAudio");
        lemma_prefix_mismatch(t, "Gobo"@, 0);
        reveal_strlit("Gobo");
        reveal_strlit("Pos");
        lemma_prefix_mismatch(t, "Gobo"@, 0);
        reveal_strlit("Gobo");
        reveal_strlit("PosRotate");
        lemma_prefix_mismatch(t, "Gobo"@, 0);
        reveal_strlit("Gobo");
        reveal_strlit("PosShake");
        lemma_prefix_mismatch(t, "Gobo"@, 0);
        reveal_strlit("AnimationWheel");
        lemma_prefix_mismatch(t, "AnimationWheel"@, 0);
        reveal_strlit("AnimationWheel");
        reveal_strlit("Audio");
        lemma_prefix_mismatch(t, "AnimationWheel"@, 0);
        reveal_strlit("AnimationWheel");
        reveal_strlit("Macro");
        lemma_prefix_mismatch(t, "AnimationWheel"@, 0);
        reveal_strlit("AnimationWheel");
        reveal_strlit("Random");
        lemma_prefix_mismatch(t, "AnimationWheel"@, 0);
        reveal_strlit("AnimationWheel");
        reveal_strlit("SelectEffects");
        lemma_prefix_mismatch(t, "AnimationWheel"@, 0);
        reveal_strlit("AnimationWheel");
        reveal_strlit("SelectShake");
        lemma_prefix_mismatch(t, "AnimationWheel"@, 0);
        reveal_strlit("AnimationWheel");
        reveal_strlit("SelectSpin");
        lemma_prefix_mismatch(t, "AnimationWheel"@, 0);
        reveal_strlit("AnimationWheel");
        reveal_strlit("Pos");
        lemma_prefix_mismatch(t, "AnimationWheel"@, 0);
        reveal_strlit("AnimationWheel");
        reveal_strlit("PosRotate");
        lemma_prefix_mismatch(t, "AnimationWheel"@, 0);
        reveal_strlit("AnimationWheel");
        reveal_strlit("PosShake");
        lemma_prefix_mismatch(t, "AnimationWheel"@, 0);
        reveal_strlit("AnimationSystem");
        lemma_prefix_mismatch(t, "AnimationSystem"@, 0);
        reveal_strlit("AnimationSystem");
        reveal_strlit("Ramp");
        lemma_prefix_mismatch(t, "AnimationSystem"@, 0);
        reveal_strlit("AnimationSystem");
        reveal_strlit("Shake");
        lemma_prefix_mismatch(t, "AnimationSystem"@, 0);
        reveal_strlit("AnimationSystem");
        reveal_strlit("Audio");
        lemma_prefix_mismatch(t, "AnimationSystem"@, 0);
        reveal_strlit("AnimationSystem");
        reveal_strlit("Random");
        lemma_prefix_mismatch(t, "AnimationSystem"@, 0);
        reveal_strlit("AnimationSystem");
        reveal_strlit("Pos");
        lemma_prefix_mismatch(t, "AnimationSystem"@, 0);
        reveal_strlit("AnimationSystem");
        reveal_strlit("PosRotate");
        lemma_prefix_mismatch(t, "AnimationSystem"@, 0);
        reveal_strlit("AnimationSystem");
        reveal_strlit("PosShake");
        lemma_prefix_mismatch(t, "AnimationSystem"@, 0);
        reveal_strlit("AnimationSystem");
        reveal_strlit("PosRandom");
        lemma_prefix_mismatch(t, "AnimationSystem"@, 0);
        reveal_strlit("AnimationSystem");
        reveal_strlit("PosAudio");
        lemma_prefix_mismatch(t, "AnimationSystem"@, 0);
    }
    assert(numbered_attribute_1(t) is None) by {
        reveal(numbered_attribute_1);
        reveal_strlit("AnimationSystem");
        reveal_strlit("Macro");
        lemma_prefix_mismatch(t, "AnimationSystem"@, 0);
        reveal_strlit("MediaFolder");
        lemma_prefix_mismatch(t, "MediaFolder"@, 0);
        reveal_strlit("MediaContent");
        lemma_prefix_mismatch(t, "MediaContent"@, 0);
        reveal_strlit("ModelFolder");
        lemma_prefix_mismatch(t, "ModelFolder"@, 0);
        reveal_strlit("ModelContent");
        lemma_prefix_mismatch(t, "ModelContent"@, 0);
        reveal_strlit("ColorEffects");
        lemma_prefix_mismatch(t, "ColorEffects"@, 0);
        reveal_strlit("Color");
        lemma_prefix_mismatch(t, "Color"@, 0);
        reveal_strlit("Color");
        reveal_strlit("WheelIndex");
        lemma_prefix_mismatch(t, "Color"@, 0);
        reveal_strlit("Color");
        reveal_strlit("WheelSpin");
        lemma_prefix_mismatch(t, "Color"@, 0);
        reveal_strlit("Color");
        reveal_strlit("WheelRandom");
        lemma_prefix_mismatch(t, "Color"@, 0);
        reveal_strlit("Color");
        reveal_strlit("WheelAudio");
        lemma_prefix_mismatch(t, "Color"@, 0);
        reveal_strlit("ColorMacro");
        lemma_prefix_mismatch(t, "ColorMacro"@, 0);
        reveal_strlit("ColorMacro");
        reveal_strlit("Rate");
        lemma_prefix_mismatch(t, "ColorMacro"@, 0);
        reveal_strlit("Shutter");
        lemma_prefix_mismatch(t, "Shutter"@, 0);
        reveal_strlit("Shutter");
        reveal_strlit("Strobe");
        lemma_prefix_mismatch(t, "Shutter"@, 0);
        reveal_strlit("Shutter");
        reveal_strlit("StrobePulse");
        lemma_prefix_mismatch(t, "Shutter"@, 0);
        reveal_strlit("Shutter");
        reveal_strlit("StrobePulseClose");
        lemma_prefix_mismatch(t, "Shutter"@, 0);
        reveal_strlit("Shutter");
        reveal_strlit("StrobePulseOpen");
        lemma_prefix_mismatch(t, "Shutter"@, 0);
        reveal_strlit("Shutter");
        reveal_strlit("StrobeRandom");
        lemma_prefix_mismatch(t, "Shutter"@, 0);
        reveal_strlit("Shutter");
        reveal_strlit("StrobeRandomPulse");
        lemma_prefix_mismatch(t, "Shutter"@, 0);
        reveal_strlit("Shutter");
        reveal_strlit("StrobeRandomPulseClose");
        lemma_prefix_mismatch(t, "Shutter"@, 0);
        reveal_strlit("Shutter");
        reveal_strlit("StrobeRandomPulseOpen");
        lemma_prefix_mismatch(t, "Shutter"@, 0);
        reveal_strlit("Shutter");
        reveal_strlit("StrobeEffect");
        lemma_prefix_mismatch(t, "Shutter"@, 0);
        reveal_strlit("Frost");
        lemma_prefix_mismatch(t, "Frost"@, 0);
        reveal_strlit("Frost");
        reveal_strlit("PulseOpen");
        lemma_prefix_mismatch(t, "Frost"@, 0);
        reveal_strlit("Frost");
        reveal_strlit("PulseClose");
        lemma_prefix_mismatch(t, "Frost"@, 0);
        reveal_strlit("Frost");
        reveal_strlit("Ramp");
        lemma_prefix_mismatch(t, "Frost"@, 0);
        reveal_strlit("Prism");
        lemma_prefix_mismatch(t, "Prism"@, 0);
        reveal_strlit("Prism");
        reveal_strlit("SelectSpin");
        lemma_prefix_mismatch(t, "Prism"@, 0);
        reveal_strlit("Prism");
        reveal_strlit("Macro");
        lemma_prefix_mismatch(t, "Prism"@, 0);
        reveal_strlit("Prism");
        reveal_strlit("Pos");
        lemma_prefix_mismatch(t, "Prism"@, 0);
        reveal_strlit("Prism");
        reveal_strlit("PosRotate");
        lemma_prefix_mismatch(t, "Prism"@, 0);
    }
    reveal_strlit("Effects");
    reveal_strlit("Adjust");
    lemma_prefix_mismatch(t, "Effects"@, 0);
    reveal_strlit("Effects");
    lemma_prefix_mismatch(t, "Effects"@, 0);
    reveal_strlit("Effects");
    reveal_strlit("Rate");
    lemma_prefix_mismatch(t, "Effects"@, 0);
    reveal_strlit("Effects");
    reveal_strlit("Fade");
    lemma_prefix_mismatch(t, "Effects"@, 0);
    reveal_strlit("Effects");
    reveal_strlit("Pos");
    lemma_prefix_mismatch(t, "Effects"@, 0);
    reveal_strlit("Effects");
    reveal_strlit("PosRotate");
    lemma_prefix_mismatch(t, "Effects"@, 0);
    reveal_strlit("Focus");
    lemma_prefix_mismatch(t, "Focus"@, 0);
    reveal_strlit("Focus");
    reveal_strlit("Adjust");
    lemma_prefix_mismatch(t, "Focus"@, 0);
    reveal_strlit("Focus");
    reveal_strlit("Distance");
    lemma_prefix_mismatch(t, "Focus"@, 0);
    reveal_strlit("Control");
    lemma_prefix_mismatch(t, "Control"@, 0);
    reveal_strlit("Gobo");
    reveal_strlit("WheelMode");
    lemma_prefix_mismatch(t, "Gobo"@, 0);
    reveal_strlit("AnimationWheel");
    reveal_strlit("Mode");
    lemma_prefix_mismatch(t, "AnimationWheel"@, 0);
    reveal_strlit("Color");
    reveal_strlit("Mode");
    lemma_prefix_mismatch(t, "Color"@, 0);
    reveal_strlit("Fan");
    reveal_strlit("Mode");
    lemma_prefix_mismatch(t, "Fan"@, 0);
    reveal_strlit("GoboWheel");
    reveal_strlit("MSpeed");
    lemma_prefix_mismatch(t, "GoboWheel"@, 0);
    reveal_strlit("Prism");
    reveal_strlit("MSpeed");
    lemma_prefix_mismatch(t, "Prism"@, 0);
    reveal_strlit("Frost");
    reveal_strlit("MSpeed");
    lemma_prefix_mismatch(t, "Frost"@, 0);
    reveal_strlit("Blower");
    lemma_prefix_mismatch(t, "Blower"@, 0);
    reveal_strlit("Fan");
    lemma_prefix_mismatch(t, "Fan"@, 0);
    reveal_strlit("Fog");
    lemma_prefix_mismatch(t, "Fog"@, 0);
    reveal_strlit("Haze");
    lemma_prefix_mismatch(t, "Haze"@, 0);
    reveal_strlit("Blade");
    reveal_strlit("A");
    lemma_prefix_mismatch(t, "Blade"@, 0);
    reveal_strlit("Blade");
    reveal_strlit("B");
    lemma_prefix_mismatch(t, "Blade"@, 0);
    reveal_strlit("Blade");
    reveal_strlit("Rot");
    lemma_prefix_mismatch(t, "Blade"@, 0);
    reveal_strlit("BladeSoft");
    reveal_strlit("A");
    lemma_prefix_mismatch(t, "BladeSoft"@, 0);
    reveal_strlit("BladeSoft");
    reveal_strlit("B");
    lemma_prefix_mismatch(t, "BladeSoft"@, 0);
    reveal_strlit("KeyStone");
    reveal_strlit("A");
    lemma_suffix_mismatch(t, "KeyStone"@, "A"@, 0);
    lemma_number_between("KeyStone"@, "B"@, n);
}

/// An attribute of the numbered family `VideoEffectType` reads back from its written
/// name: that text is no standard name, and every numbering rule before the
/// family's own rejects it.
proof fn text_reads_back_video_effect_type(n: u8)
    ensures
        attribute_from_text(attribute_text(FixtureChannel3Attribute::VideoEffectType(n))) == Some(FixtureChannel3Attribute::VideoEffectType(n)),
{
    let d = decimal(n as nat);
    lemma_decimal_digits(n as nat);
    lemma_decimal_len_u8(n as nat);
    let t = attribute_text(FixtureChannel3Attribute::VideoEffectType(n));
    reveal_strlit("VideoEffect");
    reveal_strlit("Type");
    assert(t == "VideoEffect"@ + d + "Type"@);
    lemma_exact_none_with_digit(t, 11);
    reveal(numbered_attribute_2);
    assert(numbered_attribute_0(t) is None) by {
        reveal(numbered_attribute_0);
        reveal_strlit("Gobo");
        lemma_prefix_mismatch(t, "Gobo"@, 0);
        reveal_strlit("Gobo");
        reveal_strlit("SelectSpin");
        lemma_prefix_mismatch(t, "Gobo"@, 0);
        reveal_strlit("Gobo");
        reveal_strlit("SelectShake");
        lemma_prefix_mismatch(t, "Gobo"@, 0);
        reveal_strlit("Gobo");
        reveal_strlit("SelectEffects");
        lemma_prefix_mismatch(t, "Gobo"@, 0);
        reveal_strlit("Gobo");
        reveal_strlit("WheelIndex");
        lemma_prefix_mismatch(t, "Gobo"@, 0);
        reveal_strlit("Gobo");
        reveal_strlit("WheelSpin");
        lemma_prefix_mismatch(t, "Gobo"@, 0);
        reveal_strlit("Gobo");
        reveal_strlit("WheelShake");
        lemma_prefix_mismatch(t, "Gobo"@, 0);
        reveal_strlit("Gobo");
        reveal_strlit("WheelRandom");
        lemma_prefix_mismatch(t, "Gobo"@, 0);
        reveal_strlit("Gobo");
        reveal_strlit("WheelAudio");
        lemma_prefix_mismatch(t, "Gobo"@, 0);
        reveal_strlit("Gobo");
        reveal_strlit("Pos");
        lemma_prefix_mismatch(t, "Gobo"@, 0);
        reveal_strlit("Gobo");
        reveal_strlit("PosRotate");
        lemma_prefix_mismatch(t, "Gobo"@, 0);
        reveal_strlit("Gobo");
        reveal_strlit("PosShake");
        lemma_prefix_mismatch(t, "Gobo"@, 0);
        reveal_strlit("AnimationWheel");
        lemma_prefix_mismatch(t, "AnimationWheel"@, 0);
        reveal_strlit("AnimationWheel");
        reveal_strlit("Audio");
        lemma_prefix_mismatch(t, "AnimationWheel"@, 0);
        reveal_strlit("AnimationWheel");
        reveal_strlit("Macro");
        lemma_prefix_mismatch(t, "AnimationWheel"@, 0);
        reveal_strlit("AnimationWheel");
        reveal_strlit("Random");
        lemma_prefix_mismatch(t, "AnimationWheel"@, 0);
        reveal_strlit("AnimationWheel");
        reveal_strlit("SelectEffects");
        lemma_prefix_mismatch(t, "AnimationWheel"@, 0);
        reveal_strlit("AnimationWheel");
        reveal_strlit("SelectShake");
        lemma_prefix_mismatch(t, "AnimationWheel"@, 0);
        reveal_strlit("AnimationWheel");
        reveal_strlit("SelectSpin");
        lemma_prefix_mismatch(t, "AnimationWheel"@, 0);
        reveal_strlit("AnimationWheel");
        reveal_strlit("Pos");
        lemma_prefix_mismatch(t, "AnimationWheel"@, 0);
        reveal_strlit("AnimationWheel");
        reveal_strlit("PosRotate");
        lemma_prefix_mismatch(t, "AnimationWheel"@, 0);
        reveal_strlit("AnimationWheel");
        reveal_strlit("PosShake");
        lemma_prefix_mismatch(t, "AnimationWheel"@, 0);
        reveal_strlit("AnimationSystem");
        lemma_prefix_mismatch(t, "AnimationSystem"@, 0);
        reveal_strlit("AnimationSystem");
        reveal_strlit("Ramp");
        lemma_prefix_mismatch(t, "AnimationSystem"@, 0);
        reveal_strlit("AnimationSystem");
        reveal_strlit("Shake");
        lemma_prefix_mismatch(t, "AnimationSystem"@, 0);
        reveal_strlit("AnimationSystem");
        reveal_strlit("Audio");
        lemma_prefix_mismatch(t, "AnimationSystem"@, 0);
        reveal_strlit("AnimationSystem");
        reveal_strlit("Random");
        lemma_prefix_mismatch(t, "AnimationSystem"@, 0);
        reveal_strlit("AnimationSystem");
        reveal_strlit("Pos");
        lemma_prefix_mismatch(t, "AnimationSystem"@, 0);
        reveal_strlit("AnimationSystem");
        reveal_strlit("PosRotate");
        lemma_prefix_mismatch(t, "AnimationSystem"@, 0);
        reveal_strlit("AnimationSystem");
        reveal_strlit("PosShake");
        lemma_prefix_mismatch(t, "AnimationSystem"@, 0);
        reveal_strlit("AnimationSystem");
        reveal_strlit("PosRandom");
        lemma_prefix_mismatch(t, "AnimationSystem"@, 0);
        reveal_strlit("AnimationSystem");
        reveal_strlit("PosAudio");
        lemma_prefix_mismatch(t, "AnimationSystem"@, 0);
    }
    assert(numbered_attribute_1(t) is None) by {
        reveal(numbered_attribute_1);
        reveal_strlit("AnimationSystem");
        reveal_strlit("Macro");
        lemma_prefix_mismatch(t, "AnimationSystem"@, 0);
        reveal_strlit("MediaFolder");
        lemma_prefix_mismatch(t, "MediaFolder"@, 0);
        reveal_strlit("MediaContent");
        lemma_prefix_mismatch(t, "MediaContent"@, 0);
        reveal_strlit("ModelFolder");
        lemma_prefix_mismatch(t, "ModelFolder"@, 0);
        reveal_strlit("ModelContent");
        lemma_prefix_mismatch(t, "ModelContent"@, 0);
        reveal_strlit("ColorEffects");
        lemma_prefix_mismatch(t, "ColorEffects"@, 0);
        reveal_strlit("Color");
        lemma_prefix_mismatch(t, "Color"@, 0);
        reveal_strlit("Color");
        reveal_strlit("WheelIndex");
        lemma_prefix_mismatch(t, "Color"@, 0);
        reveal_strlit("Color");
        reveal_strlit("WheelSpin");
        lemma_prefix_mismatch(t, "Color"@, 0);
        reveal_strlit("Color");
        reveal_strlit("WheelRandom");
        lemma_prefix_mismatch(t, "Color"@, 0);
        reveal_strlit("Color");
        reveal_strlit("WheelAudio");
        lemma_prefix_mismatch(t, "Color"@, 0);
        reveal_strlit("ColorMacro");
        lemma_prefix_mismatch(t, "ColorMacro"@, 0);
        reveal_strlit("ColorMacro");
        reveal_strlit("Rate");
        lemma_prefix_mismatch(t, "ColorMacro"@, 0);
        reveal_strlit("Shutter");
        lemma_prefix_mismatch(t, "Shutter"@, 0);
        reveal_strlit("Shutter");
        reveal_strlit("Strobe");
        lemma_prefix_mismatch(t, "Shutter"@, 0);
        reveal_strlit("Shutter");
        reveal_strlit("StrobePulse");
        lemma_prefix_mismatch(t, "Shutter"@, 0);
        reveal_strlit("Shutter");
        reveal_strlit("StrobePulseClose");
        lemma_prefix_mismatch(t, "Shutter"@, 0);
        reveal_strlit("Shutter");
        reveal_strlit("StrobePulseOpen");
        lemma_prefix_mismatch(t, "Shutter"@, 0);
        reveal_strlit("Shutter");
        reveal_strlit("StrobeRandom");
        lemma_prefix_mismatch(t, "Shutter"@, 0);
        reveal_strlit("Shutter");
        reveal_strlit("StrobeRandomPulse");
        lemma_prefix_mismatch(t, "Shutter"@, 0);
        reveal_strlit("Shutter");
        reveal_strlit("StrobeRandomPulseClose");
        lemma_prefix_mismatch(t, "Shutter"@, 0);
        reveal_strlit("Shutter");
        reveal_strlit("StrobeRandomPulseOpen");
        lemma_prefix_mismatch(t, "Shutter"@, 0);
        reveal_strlit("Shutter");
        reveal_strlit("StrobeEffect");
        lemma_prefix_mismatch(t, "Shutter"@, 0);
        reveal_strlit("Frost");
        lemma_prefix_mismatch(t, "Frost"@, 0);
        reveal_strlit("Frost");
        reveal_strlit("PulseOpen");
        lemma_prefix_mismatch(t, "Frost"@, 0);
        reveal_strlit("Frost");
        reveal_strlit("PulseClose");
        lemma_prefix_mismatch(t, "Frost"@, 0);
        reveal_strlit("Frost");
        reveal_strlit("Ramp");
        lemma_prefix_mismatch(t, "Frost"@, 0);
        reveal_strlit("Prism");
        lemma_prefix_mismatch(t, "Prism"@, 0);
        reveal_strlit("Prism");
        reveal_strlit("SelectSpin");
        lemma_prefix_mismatch(t, "Prism"@, 0);
        reveal_strlit("Prism");
        reveal_strlit("Macro");
        lemma_prefix_mismatch(t, "Prism"@, 0);
        reveal_strlit("Prism");
        reveal_strlit("Pos");
        lemma_prefix_mismatch(t, "Prism"@, 0);
        reveal_strlit("Prism");
        reveal_strlit("PosRotate");
        lemma_prefix_mismatch(t, "Prism"@, 0);
    }
    reveal_strlit("Effects");
    reveal_strlit("Adjust");
    lemma_prefix_mismatch(t, "Effects"@, 0);
    reveal_strlit("Effects");
    lemma_prefix_mismatch(t, "Effects"@, 0);
    reveal_strlit("Effects");
    reveal_strlit("Rate");
    lemma_prefix_mismatch(t, "Effects"@, 0);
    reveal_strlit("Effects");
    reveal_strlit("Fade");
    lemma_prefix_mismatch(t, "Effects"@, 0);
    reveal_strlit("Effects");
    reveal_strlit("Pos");
    lemma_prefix_mismatch(t, "Effects"@, 0);
    reveal_strlit("Effects");
    reveal_strlit("PosRotate");
    lemma_prefix_mismatch(t, "Effects"@, 0);
    reveal_strlit("Focus");
    lemma_prefix_mismatch(t, "Focus"@, 0);
    reveal_strlit("Focus");
    reveal_strlit("Adjust");
    lemma_prefix_mismatch(t, "Focus"@, 0);
    reveal_strlit("Focus");
    reveal_strlit("Distance");
    lemma_prefix_mismatch(t, "Focus"@, 0);
    reveal_strlit("Control");
    lemma_prefix_mismatch(t, "Control"@, 0);
    reveal_strlit("Gobo");
    reveal_strlit("WheelMode");
    lemma_prefix_mismatch(t, "Gobo"@, 0);
    reveal_strlit("AnimationWheel");
    reveal_strlit("Mode");
    lemma_prefix_mismatch(t, "AnimationWheel"@, 0);
    reveal_strlit("Color");
    reveal_strlit("Mode");
    lemma_prefix_mismatch(t, "Color"@, 0);
    reveal_strlit("Fan");
    reveal_strlit("Mode");
    lemma_prefix_mismatch(t, "Fan"@, 0);
    reveal_strlit("GoboWheel");
    reveal_strlit("MSpeed");
    lemma_prefix_mismatch(t, "GoboWheel"@, 0);
    reveal_strlit("Prism");
    reveal_strlit("MSpeed");
    lemma_prefix_mismatch(t, "Prism"@, 0);
    reveal_strlit("Frost");
    reveal_strlit("MSpeed");
    lemma_prefix_mismatch(t, "Frost"@, 0);
    reveal_strlit("Blower");
    lemma_prefix_mismatch(t, "Blower"@, 0);
    reveal_strlit("Fan");
    lemma_prefix_mismatch(t, "Fan"@, 0);
    reveal_strlit("Fog");
    lemma_prefix_mismatch(t, "Fog"@, 0);
    reveal_strlit("Haze");
    lemma_prefix_mismatch(t, "Haze"@, 0);
    reveal_strlit("Blade");
    reveal_strlit("A");
    lemma_prefix_mismatch(t, "Blade"@, 0);
    reveal_strlit("Blade");
    reveal_strlit("B");
    lemma_prefix_mismatch(t, "Blade"@, 0);
    reveal_strlit("Blade");
    reveal_strlit("Rot");
    lemma_prefix_mismatch(t, "Blade"@, 0);
    reveal_strlit("BladeSoft");
    reveal_strlit("A");
    lemma_prefix_mismatch(t, "BladeSoft"@, 0);
    reveal_strlit("BladeSoft");
    reveal_strlit("B");
    lemma_prefix_mismatch(t, "BladeSoft"@, 0);
    reveal_strlit("KeyStone");
    reveal_strlit("A");
    lemma_prefix_mismatch(t, "KeyStone"@, 0);
    reveal_strlit("KeyStone");
    reveal_strlit("B");
    lemma_prefix_mismatch(t, "KeyStone"@, 0);
    lemma_number_between("VideoEffect"@, "Type"@, n);
}

/// An attribute of the numbered family `VideoEffectParameter` reads back from its written
/// name: that text is no standard name, and every numbering rule before the
/// family's own rejects it.
proof fn text_reads_back_video_effect_parameter(n: u8, m: u8)
    ensures
        attribute_from_text(attribute_text(FixtureChannel3Attribute::VideoEffectParameter(n, m))) == Some(FixtureChannel3Attribute::VideoEffectParameter(n, m)),
{
    let d = decimal(n as nat);
    let e = decimal(m as nat);
    lemma_decimal_digits(n as nat);
    lemma_decimal_digits(m as nat);
    lemma_decimal_len_u8(n as nat);
    lemma_decimal_len_u8(m as nat);
    let t = attribute_text(FixtureChannel3Attribute::VideoEffectParameter(n, m));
    reveal_strlit("VideoEffect");
    reveal_strlit("Parameter");
    assert(t == "VideoEffect"@ + d + "Parameter"@ + e);
    lemma_exact_none_with_digit(t, 11);
    reveal(numbered_attribute_2);
    assert(numbered_attribute_0(t) is None) by {
        reveal(numbered_attribute_0);
        reveal_strlit("Gobo");
        lemma_prefix_mismatch(t, "Gobo"@, 0);
        reveal_strlit("Gobo");
        reveal_strlit("SelectSpin");
        lemma_prefix_mismatch(t, "Gobo"@, 0);
        reveal_strlit("Gobo");
        reveal_strlit("SelectShake");
        lemma_prefix_mismatch(t, "Gobo"@, 0);
        reveal_strlit("Gobo");
        reveal_strlit("SelectEffects");
        lemma_prefix_mismatch(t, "Gobo"@, 0);
        reveal_strlit("Gobo");
        reveal_strlit("WheelIndex");
        lemma_prefix_mismatch(t, "Gobo"@, 0);
        reveal_strlit("Gobo");
        reveal_strlit("WheelSpin");
        lemma_prefix_mismatch(t, "Gobo"@, 0);
        reveal_strlit("Gobo");
        reveal_strlit("WheelShake");
        lemma_prefix_mismatch(t, "Gobo"@, 0);
        reveal_strlit("Gobo");
        reveal_strlit("WheelRandom");
        lemma_prefix_mismatch(t, "Gobo"@, 0);
        reveal_strlit("Gobo");
        reveal_strlit("WheelAudio");
        lemma_prefix_mismatch(t, "Gobo"@, 0);
        reveal_strlit("Gobo");
        reveal_strlit("Pos");
        lemma_prefix_mismatch(t, "Gobo"@, 0);
        reveal_strlit("Gobo");
        reveal_strlit("PosRotate");
        lemma_prefix_mismatch(t, "Gobo"@, 0);
        reveal_strlit("Gobo");
        reveal_strlit("PosShake");
        lemma_prefix_mismatch(t, "Gobo"@, 0);
        reveal_strlit("AnimationWheel");
        lemma_prefix_mismatch(t, "AnimationWheel"@, 0);
        reveal_strlit("AnimationWheel");
        reveal_strlit("Audio");
        lemma_prefix_mismatch(t, "AnimationWheel"@, 0);
        reveal_strlit("AnimationWheel");
        reveal_strlit("Macro");
        lemma_prefix_mismatch(t, "AnimationWheel"@, 0);
        reveal_strlit("AnimationWheel");
        reveal_strlit("Random");
        lemma_prefix_mismatch(t, "AnimationWheel"@, 0);
        reveal_strlit("AnimationWheel");
        reveal_strlit("SelectEffects");
        lemma_prefix_mismatch(t, "AnimationWheel"@, 0);
        reveal_strlit("AnimationWheel");
        reveal_strlit("SelectShake");
        lemma_prefix_mismatch(t, "AnimationWheel"@, 0);
        reveal_strlit("AnimationWheel");
        reveal_strlit("SelectSpin");
        lemma_prefix_mismatch(t, "AnimationWheel"@, 0);
        reveal_strlit("AnimationWheel");
        reveal_strlit("Pos");
        lemma_prefix_mismatch(t, "AnimationWheel"@, 0);
        reveal_strlit("AnimationWheel");
        reveal_strlit("PosRotate");
        lemma_prefix_mismatch(t, "AnimationWheel"@, 0);
        reveal_strlit("AnimationWheel");
        reveal_strlit("PosShake");
        lemma_prefix_mismatch(t, "AnimationWheel"@, 0);
        reveal_strlit("AnimationSystem");
        lemma_prefix_mismatch(t, "AnimationSystem"@, 0);
        reveal_strlit("AnimationSystem");
        reveal_strlit("Ramp");
        lemma_prefix_mismatch(t, "AnimationSystem"@, 0);
        reveal_strlit("AnimationSystem");
        reveal_strlit("Shake");
        lemma_prefix_mismatch(t, "AnimationSystem"@, 0);
        reveal_strlit("AnimationSystem");
        reveal_strlit("Audio");
        lemma_prefix_mismatch(t, "AnimationSystem"@, 0);
        reveal_strlit("AnimationSystem");
        reveal_strlit("Random");
        lemma_prefix_mismatch(t, "AnimationSystem"@, 0);
        reveal_strlit("AnimationSystem");
        reveal_strlit("Pos");
        lemma_prefix_mismatch(t, "AnimationSystem"@, 0);
        reveal_strlit("AnimationSystem");
        reveal_strlit("PosRotate");
        lemma_prefix_mismatch(t, "AnimationSystem"@, 0);
        reveal_strlit("AnimationSystem");
        reveal_strlit("PosShake");
        lemma_prefix_mismatch(t, "AnimationSystem"@, 0);
        reveal_strlit("AnimationSystem");
        reveal_strlit("PosRandom");
        lemma_prefix_mismatch(t, "AnimationSystem"@, 0);
        reveal_strlit("AnimationSystem");
        reveal_strlit("PosAudio");
        lemma_prefix_mismatch(t, "AnimationSystem"@, 0);
    }
    assert(numbered_attribute_1(t) is None) by {
        reveal(numbered_attribute_1);
        reveal_strlit("AnimationSystem");
        reveal_strlit("Macro");
        lemma_prefix_mismatch(t, "AnimationSystem"@, 0);
        reveal_strlit("MediaFolder");
        lemma_prefix_mismatch(t, "MediaFolder"@, 0);
        reveal_strlit("MediaContent");
        lemma_prefix_mismatch(t, "MediaContent"@, 0);
        reveal_strlit("ModelFolder");
        lemma_prefix_mismatch(t, "ModelFolder"@, 0);
        reveal_strlit("ModelContent");
        lemma_prefix_mismatch(t, "ModelContent"@, 0);
        reveal_strlit("ColorEffects");
        lemma_prefix_mismatch(t, "ColorEffects"@, 0);
        reveal_strlit("Color");
        lemma_prefix_mismatch(t, "Color"@, 0);
        reveal_strlit("Color");
        reveal_strlit("WheelIndex");
        lemma_prefix_mismatch(t, "Color"@, 0);
        reveal_strlit("Color");
        reveal_strlit("WheelSpin");
        lemma_prefix_mismatch(t, "Color"@, 0);
        reveal_strlit("Color");
        reveal_strlit("WheelRandom");
        lemma_prefix_mismatch(t, "Color"@, 0);
        reveal_strlit("Color");
        reveal_strlit("WheelAudio");
        lemma_prefix_mismatch(t, "Color"@, 0);
        reveal_strlit("ColorMacro");
        lemma_prefix_mismatch(t, "ColorMacro"@, 0);
        reveal_strlit("ColorMacro");
        reveal_strlit("Rate");
        lemma_prefix_mismatch(t, "ColorMacro"@, 0);
        reveal_strlit("Shutter");
        lemma_prefix_mismatch(t, "Shutter"@, 0);
        reveal_strlit("Shutter");
        reveal_strlit("Strobe");
        lemma_prefix_mismatch(t, "Shutter"@, 0);
        reveal_strlit("Shutter");
        reveal_strlit("StrobePulse");
        lemma_prefix_mismatch(t, "Shutter"@, 0);
        reveal_strlit("Shutter");
        reveal_strlit("StrobePulseClose");
        lemma_prefix_mismatch(t, "Shutter"@, 0);
        reveal_strlit("Shutter");
        reveal_strlit("StrobePulseOpen");
        lemma_prefix_mismatch(t, "Shutter"@, 0);
        reveal_strlit("Shutter");
        reveal_strlit("StrobeRandom");
        lemma_prefix_mismatch(t, "Shutter"@, 0);
        reveal_strlit("Shutter");
        reveal_strlit("StrobeRandomPulse");
        lemma_prefix_mismatch(t, "Shutter"@, 0);
        reveal_strlit("Shutter");
        reveal_strlit("StrobeRandomPulseClose");
        lemma_prefix_mismatch(t, "Shutter"@, 0);
        reveal_strlit("Shutter");
        reveal_strlit("StrobeRandomPulseOpen");
        lemma_prefix_mismatch(t, "Shutter"@, 0);
        reveal_strlit("Shutter");
        reveal_strlit("StrobeEffect");
        lemma_prefix_mismatch(t, "Shutter"@, 0);
        reveal_strlit("Frost");
        lemma_prefix_mismatch(t, "Frost"@, 0);
        reveal_strlit("Frost");
        reveal_strlit("PulseOpen");
        lemma_prefix_mismatch(t, "Frost"@, 0);
        reveal_strlit("Frost");
        reveal_strlit("PulseClose");
        lemma_prefix_mismatch(t, "Frost"@, 0);
        reveal_strlit("Frost");
        reveal_strlit("Ramp");
        lemma_prefix_mismatch(t, "Frost"@, 0);
        reveal_strlit("Prism");
        lemma_prefix_mismatch(t, "Prism"@, 0);
        reveal_strlit("Prism");
        reveal_strlit("SelectSpin");
        lemma_prefix_mismatch(t, "Prism"@, 0);
        reveal_strlit("Prism");
        reveal_strlit("Macro");
        lemma_prefix_mismatch(t, "Prism"@, 0);
        reveal_strlit("Prism");
        reveal_strlit("Pos");
        lemma_prefix_mismatch(t, "Prism"@, 0);
        reveal_strlit("Prism");
        reveal_strlit("PosRotate");
        lemma_prefix_mismatch(t, "Prism"@, 0);
    }
    reveal_strlit("Effects");
    reveal_strlit("Adjust");
    lemma_prefix_mismatch(t, "Effects"@, 0);
    reveal_strlit("Effects");
    lemma_prefix_mismatch(t, "Effects"@, 0);
    reveal_strlit("Effects");
    reveal_strlit("Rate");
    lemma_prefix_mismatch(t, "Effects"@, 0);
    reveal_strlit("Effects");
    reveal_strlit("Fade");
    lemma_prefix_mismatch(t, "Effects"@, 0);
    reveal_strlit("Effects");
    reveal_strlit("Pos");
    lemma_prefix_mismatch(t, "Effects"@, 0);
    reveal_strlit("Effects");
    reveal_strlit("PosRotate");
    lemma_prefix_mismatch(t, "Effects"@, 0);
    reveal_strlit("Focus");
    lemma_prefix_mismatch(t, "Focus"@, 0);
    reveal_strlit("Focus");
    reveal_strlit("Adjust");
    lemma_prefix_mismatch(t, "Focus"@, 0);
    reveal_strlit("Focus");
    reveal_strlit("Distance");
    lemma_prefix_mismatch(t, "Focus"@, 0);
    reveal_strlit("Control");
    lemma_prefix_mismatch(t, "Control"@, 0);
    reveal_strlit("Gobo");
    reveal_strlit("WheelMode");
    lemma_prefix_mismatch(t, "Gobo"@, 0);
    reveal_strlit("AnimationWheel");
    reveal_strlit("Mode");
    lemma_prefix_mismatch(t, "AnimationWheel"@, 0);
    reveal_strlit("Color");
    reveal_strlit("Mode");
    lemma_prefix_mismatch(t, "Color"@, 0);
    reveal_strlit("Fan");
    reveal_strlit("Mode");
    lemma_prefix_mismatch(t, "Fan"@, 0);
    reveal_strlit("GoboWheel");
    reveal_strlit("MSpeed");
    lemma_prefix_mismatch(t, "GoboWheel"@, 0);
    reveal_strlit("Prism");
    reveal_strlit("MSpeed");
    lemma_prefix_mismatch(t, "Prism"@, 0);
    reveal_strlit("Frost");
    reveal_strlit("MSpeed");
    lemma_prefix_mismatch(t, "Frost"@, 0);
    reveal_strlit("Blower");
    lemma_prefix_mismatch(t, "Blower"@, 0);
    reveal_strlit("Fan");
    lemma_prefix_mismatch(t, "Fan"@, 0);
    reveal_strlit("Fog");
    lemma_prefix_mismatch(t, "Fog"@, 0);
    reveal_strlit("Haze");
    lemma_prefix_mismatch(t, "Haze"@, 0);
    reveal_strlit("Blade");
    reveal_strlit("A");
    lemma_prefix_mismatch(t, "Blade"@, 0);
    reveal_strlit("Blade");
    reveal_strlit("B");
    lemma_prefix_mismatch(t, "Blade"@, 0);
    reveal_strlit("Blade");
    reveal_strlit("Rot");
    lemma_prefix_mismatch(t, "Blade"@, 0);
    reveal_strlit("BladeSoft");
    reveal_strlit("A");
    lemma_prefix_mismatch(t, "BladeSoft"@, 0);
    reveal_strlit("BladeSoft");
    reveal_strlit("B");
    lemma_prefix_mismatch(t, "BladeSoft"@, 0);
    reveal_strlit("KeyStone");
    reveal_strlit("A");
    lemma_prefix_mismatch(t, "KeyStone"@, 0);
    reveal_strlit("KeyStone");
    reveal_strlit("B");
    lemma_prefix_mismatch(t, "KeyStone"@, 0);
    reveal_strlit("VideoEffect");
    reveal_strlit("Type");
    lemma_suffix_mismatch(t, "VideoEffect"@, "Type"@, 0);
    lemma_numbers_around("VideoEffect"@, "Parameter"@, n, m);
}

/// An attribute of the numbered family `VideoCamera` reads back from its written
/// name: that text is no standard name, and every numbering rule before the
/// family's own rejects it.
proof fn text_reads_back_video_camera(n: u8)
    ensures
        attribute_from_text(attribute_text(FixtureChannel3Attribute::VideoCamera(n))) == Some(FixtureChannel3Attribute::VideoCamera(n)),
{
    let d = decimal(n as nat);
    lemma_decimal_digits(n as nat);
    lemma_decimal_len_u8(n as nat);
    let t = attribute_text(FixtureChannel3Attribute::VideoCamera(n));
    reveal_strlit("VideoCamera");
    assert(t == "VideoCamera"@ + d);
    lemma_exact_none_with_digit(t, 11);
    reveal(numbered_attribute_2);
    assert(numbered_attribute_0(t) is None) by {
        reveal(numbered_attribute_0);
        reveal_strlit("Gobo");
        lemma_prefix_mismatch(t, "Gobo"@, 0);
        reveal_strlit("Gobo");
        reveal_strlit("SelectSpin");
        lemma_prefix_mismatch(t, "Gobo"@, 0);
        reveal_strlit("Gobo");
        reveal_strlit("SelectShake");
        lemma_prefix_mismatch(t, "Gobo"@, 0);
        reveal_strlit("Gobo");
        reveal_strlit("SelectEffects");
        lemma_prefix_mismatch(t, "Gobo"@, 0);
        reveal_strlit("Gobo");
        reveal_strlit("WheelIndex");
        lemma_prefix_mismatch(t, "Gobo"@, 0);
        reveal_strlit("Gobo");
        reveal_strlit("WheelSpin");
        lemma_prefix_mismatch(t, "Gobo"@, 0);
        reveal_strlit("Gobo");
        reveal_strlit("WheelShake");
        lemma_prefix_mismatch(t, "Gobo"@, 0);
        reveal_strlit("Gobo");
        reveal_strlit("WheelRandom");
        lemma_prefix_mismatch(t, "Gobo"@, 0);
        reveal_strlit("Gobo");
        reveal_strlit("WheelAudio");
        lemma_prefix_mismatch(t, "Gobo"@, 0);
        reveal_strlit("Gobo");
        reveal_strlit("Pos");
        lemma_prefix_mismatch(t, "Gobo"@, 0);
        reveal_strlit("Gobo");
        reveal_strlit("PosRotate");
        lemma_prefix_mismatch(t, "Gobo"@, 0);
        reveal_strlit("Gobo");
        reveal_strlit("PosShake");
        lemma_prefix_mismatch(t, "Gobo"@, 0);
        reveal_strlit("AnimationWheel");
        lemma_prefix_mismatch(t, "AnimationWheel"@, 0);
        reveal_strlit("AnimationWheel");
        reveal_strlit("Audio");
        lemma_prefix_mismatch(t, "AnimationWheel"@, 0);
        reveal_strlit("AnimationWheel");
        reveal_strlit("Macro");
        lemma_prefix_mismatch(t, "AnimationWheel"@, 0);
        reveal_strlit("AnimationWheel");
        reveal_strlit("Random");
        lemma_prefix_mismatch(t, "AnimationWheel"@, 0);
        reveal_strlit("AnimationWheel");
        reveal_strlit("SelectEffects");
        lemma_prefix_mismatch(t, "AnimationWheel"@, 0);
        reveal_strlit("AnimationWheel");
        reveal_strlit("SelectShake");
        lemma_prefix_mismatch(t, "AnimationWheel"@, 0);
        reveal_strlit("AnimationWheel");
        reveal_strlit("SelectSpin");
        lemma_prefix_mismatch(t, "AnimationWheel"@, 0);
        reveal_strlit("AnimationWheel");
        reveal_strlit("Pos");
        lemma_prefix_mismatch(t, "AnimationWheel"@, 0);
        reveal_strlit("AnimationWheel");
        reveal_strlit("PosRotate");
        lemma_prefix_mismatch(t, "AnimationWheel"@, 0);
        reveal_strlit("AnimationWheel");
        reveal_strlit("PosShake");
        lemma_prefix_mismatch(t, "AnimationWheel"@, 0);
        reveal_strlit("AnimationSystem");
        lemma_prefix_mismatch(t, "AnimationSystem"@, 0);
        reveal_strlit("AnimationSystem");
        reveal_strlit("Ramp");
        lemma_prefix_mismatch(t, "AnimationSystem"@, 0);
        reveal_strlit("AnimationSystem");
        reveal_strlit("Shake");
        lemma_prefix_mismatch(t, "AnimationSystem"@, 0);
        reveal_strlit("AnimationSystem");
        reveal_strlit("Audio");
        lemma_prefix_mismatch(t, "AnimationSystem"@, 0);
        reveal_strlit("AnimationSystem");
        reveal_strlit("Random");
        lemma_prefix_mismatch(t, "AnimationSystem"@, 0);
        reveal_strlit("AnimationSystem");
        reveal_strlit("Pos");
        lemma_prefix_mismatch(t, "AnimationSystem"@, 0);
        reveal_strlit("AnimationSystem");
        reveal_strlit("PosRotate");
        lemma_prefix_mismatch(t, "AnimationSystem"@, 0);
        reveal_strlit("AnimationSystem");
        reveal_strlit("PosShake");
        lemma_prefix_mismatch(t, "AnimationSystem"@, 0);
        reveal_strlit("AnimationSystem");
        reveal_strlit("PosRandom");
        lemma_prefix_mismatch(t, "AnimationSystem"@, 0);
        reveal_strlit("AnimationSystem");
        reveal_strlit("PosAudio");
        lemma_prefix_mismatch(t, "AnimationSystem"@, 0);
    }
    assert(numbered_attribute_1(t) is None) by {
        reveal(numbered_attribute_1);
        reveal_strlit("AnimationSystem");
        reveal_strlit("Macro");
        lemma_prefix_mismatch(t, "AnimationSystem"@, 0);
        reveal_strlit("MediaFolder");
        lemma_prefix_mismatch(t, "MediaFolder"@, 0);
        reveal_strlit("MediaContent");
        lemma_prefix_mismatch(t, "MediaContent"@, 0);
        reveal_strlit("ModelFolder");
        lemma_prefix_mismatch(t, "ModelFolder"@, 0);
        reveal_strlit("ModelContent");
        lemma_prefix_mismatch(t, "ModelContent"@, 0);
        reveal_strlit("ColorEffects");
        lemma_prefix_mismatch(t, "ColorEffects"@, 0);
        reveal_strlit("Color");
        lemma_prefix_mismatch(t, "Color"@, 0);
        reveal_strlit("Color");
        reveal_strlit("WheelIndex");
        lemma_prefix_mismatch(t, "Color"@, 0);
        reveal_strlit("Color");
        reveal_strlit("WheelSpin");
        lemma_prefix_mismatch(t, "Color"@, 0);
        reveal_strlit("Color");
        reveal_strlit("WheelRandom");
        lemma_prefix_mismatch(t, "Color"@, 0);
        reveal_strlit("Color");
        reveal_strlit("WheelAudio");
        lemma_prefix_mismatch(t, "Color"@, 0);
        reveal_strlit("ColorMacro");
        lemma_prefix_mismatch(t, "ColorMacro"@, 0);
        reveal_strlit("ColorMacro");
        reveal_strlit("Rate");
        lemma_prefix_mismatch(t, "ColorMacro"@, 0);
        reveal_strlit("Shutter");
        lemma_prefix_mismatch(t, "Shutter"@, 0);
        reveal_strlit("Shutter");
        reveal_strlit("Strobe");
        lemma_prefix_mismatch(t, "Shutter"@, 0);
        reveal_strlit("Shutter");
        reveal_strlit("StrobePulse");
        lemma_prefix_mismatch(t, "Shutter"@, 0);
        reveal_strlit("Shutter");
        reveal_strlit("StrobePulseClose");
        lemma_prefix_mismatch(t, "Shutter"@, 0);
        reveal_strlit("Shutter");
        reveal_strlit("StrobePulseOpen");
        lemma_prefix_mismatch(t, "Shutter"@, 0);
        reveal_strlit("Shutter");
        reveal_strlit("StrobeRandom");
        lemma_prefix_mismatch(t, "Shutter"@, 0);
        reveal_strlit("Shutter");
        reveal_strlit("StrobeRandomPulse");
        lemma_prefix_mismatch(t, "Shutter"@, 0);
        reveal_strlit("Shutter");
        reveal_strlit("StrobeRandomPulseClose");
        lemma_prefix_mismatch(t, "Shutter"@, 0);
        reveal_strlit("Shutter");
        reveal_strlit("StrobeRandomPulseOpen");
        lemma_prefix_mismatch(t, "Shutter"@, 0);
        reveal_strlit("Shutter");
        reveal_strlit("StrobeEffect");
        lemma_prefix_mismatch(t, "Shutter"@, 0);
        reveal_strlit("Frost");
        lemma_prefix_mismatch(t, "Frost"@, 0);
        reveal_strlit("Frost");
        reveal_strlit("PulseOpen");
        lemma_prefix_mismatch(t, "Frost"@, 0);
        reveal_strlit("Frost");
        reveal_strlit("PulseClose");
        lemma_prefix_mismatch(t, "Frost"@, 0);
        reveal_strlit("Frost");
        reveal_strlit("Ramp");
        lemma_prefix_mismatch(t, "Frost"@, 0);
        reveal_strlit("Prism");
        lemma_prefix_mismatch(t, "Prism"@, 0);
        reveal_strlit("Prism");
        reveal_strlit("SelectSpin");
        lemma_prefix_mismatch(t, "Prism"@, 0);
        reveal_strlit("Prism");
        reveal_strlit("Macro");
        lemma_prefix_mismatch(t, "Prism"@, 0);
        reveal_strlit("Prism");
        reveal_strlit("Pos");
        lemma_prefix_mismatch(t, "Prism"@, 0);
        reveal_strlit("Prism");
        reveal_strlit("PosRotate");
        lemma_prefix_mismatch(t, "Prism"@, 0);
    }
    reveal_strlit("Effects");
    reveal_strlit("Adjust");
    lemma_prefix_mismatch(t, "Effects"@, 0);
    reveal_strlit("Effects");
    lemma_prefix_mismatch(t, "Effects"@, 0);
    reveal_strlit("Effects");
    reveal_strlit("Rate");
    lemma_prefix_mismatch(t, "Effects"@, 0);
    reveal_strlit("Effects");
    reveal_strlit("Fade");
    lemma_prefix_mismatch(t, "Effects"@, 0);
    reveal_strlit("Effects");
    reveal_strlit("Pos");
    lemma_prefix_mismatch(t, "Effects"@, 0);
    reveal_strlit("Effects");
    reveal_strlit("PosRotate");
    lemma_prefix_mismatch(t, "Effects"@, 0);
    reveal_strlit("Focus");
    lemma_prefix_mismatch(t, "Focus"@, 0);
    reveal_strlit("Focus");
    reveal_strlit("Adjust");
    lemma_prefix_mismatch(t, "Focus"@, 0);
    reveal_strlit("Focus");
    reveal_strlit("Distance");
    lemma_prefix_mismatch(t, "Focus"@, 0);
    reveal_strlit("Control");
    lemma_prefix_mismatch(t, "Control"@, 0);
    reveal_strlit("Gobo");
    reveal_strlit("WheelMode");
    lemma_prefix_mismatch(t, "Gobo"@, 0);
    reveal_strlit("AnimationWheel");
    reveal_strlit("Mode");
    lemma_prefix_mismatch(t, "AnimationWheel"@, 0);
    reveal_strlit("Color");
    reveal_strlit("Mode");
    lemma_prefix_mismatch(t, "Color"@, 0);
    reveal_strlit("Fan");
    reveal_strlit("Mode");
    lemma_prefix_mismatch(t, "Fan"@, 0);
    reveal_strlit("GoboWheel");
    reveal_strlit("MSpeed");
    lemma_prefix_mismatch(t, "GoboWheel"@, 0);
    reveal_strlit("Prism");
    reveal_strlit("MSpeed");
    lemma_prefix_mismatch(t, "Prism"@, 0);
    reveal_strlit("Frost");
    reveal_strlit("MSpeed");
    lemma_prefix_mismatch(t, "Frost"@, 0);
    reveal_strlit("Blower");
    lemma_prefix_mismatch(t, "Blower"@, 0);
    reveal_strlit("Fan");
    lemma_prefix_mismatch(t, "Fan"@, 0);
    reveal_strlit("Fog");
    lemma_prefix_mismatch(t, "Fog"@, 0);
    reveal_strlit("Haze");
    lemma_prefix_mismatch(t, "Haze"@, 0);
    reveal_strlit("Blade");
    reveal_strlit("A");
    lemma_prefix_mismatch(t, "Blade"@, 0);
    reveal_strlit("Blade");
    reveal_strlit("B");
    lemma_prefix_mismatch(t, "Blade"@, 0);
    reveal_strlit("Blade");
    reveal_strlit("Rot");
    lemma_prefix_mismatch(t, "Blade"@, 0);
    reveal_strlit("BladeSoft");
    reveal_strlit("A");
    lemma_prefix_mismatch(t, "BladeSoft"@, 0);
    reveal_strlit("BladeSoft");
    reveal_strlit("B");
    lemma_prefix_mismatch(t, "BladeSoft"@, 0);
    reveal_strlit("KeyStone");
    reveal_strlit("A");
    lemma_prefix_mismatch(t, "KeyStone"@, 0);
    reveal_strlit("KeyStone");
    reveal_strlit("B");
    lemma_prefix_mismatch(t, "KeyStone"@, 0);
    reveal_strlit("VideoEffect");
    reveal_strlit("Type");
    lemma_prefix_mismatch(t, "VideoEffect"@, 5);
    reveal_strlit("VideoEffect");
    reveal_strlit("Parameter");
    lemma_prefix_mismatch(t, "VideoEffect"@, 5);
    lemma_number_after("VideoCamera"@, n);
}

/// An attribute of the numbered family `VideoSoundVolume` reads back from its written
/// name: that text is no standard name, and every numbering rule before the
/// family's own rejects it.
proof fn text_reads_back_video_sound_volume(n: u8)
    ensures
        attribute_from_text(attribute_text(FixtureChannel3Attribute::VideoSoundVolume(n))) == Some(FixtureChannel3Attribute::VideoSoundVolume(n)),
{
    let d = decimal(n as nat);
    lemma_decimal_digits(n as nat);
    lemma_decimal_len_u8(n as nat);
    let t = attribute_text(FixtureChannel3Attribute::VideoSoundVolume(n));
    reveal_strlit("VideoSoundVolume");
    assert(t == "VideoSoundVolume"@ + d);
    lemma_exact_none_with_digit(t, 16);
    reveal(numbered_attribute_2);
    assert(numbered_attribute_0(t) is None) by {
        reveal(numbered_attribute_0);
        reveal_strlit("Gobo");
        lemma_prefix_mismatch(t, "Gobo"@, 0);
        reveal_strlit("Gobo");
        reveal_strlit("SelectSpin");
        lemma_prefix_mismatch(t, "Gobo"@, 0);
        reveal_strlit("Gobo");
        reveal_strlit("SelectShake");
        lemma_prefix_mismatch(t, "Gobo"@, 0);
        reveal_strlit("Gobo");
        reveal_strlit("SelectEffects");
        lemma_prefix_mismatch(t, "Gobo"@, 0);
        reveal_strlit("Gobo");
        reveal_strlit("WheelIndex");
        lemma_prefix_mismatch(t, "Gobo"@, 0);
        reveal_strlit("Gobo");
        reveal_strlit("WheelSpin");
        lemma_prefix_mismatch(t, "Gobo"@, 0);
        reveal_strlit("Gobo");
        reveal_strlit("WheelShake");
        lemma_prefix_mismatch(t, "Gobo"@, 0);
        reveal_strlit("Gobo");
        reveal_strlit("WheelRandom");
        lemma_prefix_mismatch(t, "Gobo"@, 0);
        reveal_strlit("Gobo");
        reveal_strlit("WheelAudio");
        lemma_prefix_mismatch(t, "Gobo"@, 0);
        reveal_strlit("Gobo");
        reveal_strlit("Pos");
        lemma_prefix_mismatch(t, "Gobo"@, 0);
        reveal_strlit("Gobo");
        reveal_strlit("PosRotate");
        lemma_prefix_mismatch(t, "Gobo"@, 0);
        reveal_strlit("Gobo");
        reveal_strlit("PosShake");
        lemma_prefix_mismatch(t, "Gobo"@, 0);
        reveal_strlit("AnimationWheel");
        lemma_prefix_mismatch(t, "AnimationWheel"@, 0);
        reveal_strlit("AnimationWheel");
        reveal_strlit("Audio");
        lemma_prefix_mismatch(t, "AnimationWheel"@, 0);
        reveal_strlit("AnimationWheel");
        reveal_strlit("Macro");
        lemma_prefix_mismatch(t, "AnimationWheel"@, 0);
        reveal_strlit("AnimationWheel");
        reveal_strlit("Random");
        lemma_prefix_mismatch(t, "AnimationWheel"@, 0);
        reveal_strlit("AnimationWheel");
        reveal_strlit("SelectEffects");
        lemma_prefix_mismatch(t, "AnimationWheel"@, 0);
        reveal_strlit("AnimationWheel");
        reveal_strlit("SelectShake");
        lemma_prefix_mismatch(t, "AnimationWheel"@, 0);
        reveal_strlit("AnimationWheel");
        reveal_strlit("SelectSpin");
        lemma_prefix_mismatch(t, "AnimationWheel"@, 0);
        reveal_strlit("AnimationWheel");
        reveal_strlit("Pos");
        lemma_prefix_mismatch(t, "AnimationWheel"@, 0);
        reveal_strlit("AnimationWheel");
        reveal_strlit("PosRotate");
        lemma_prefix_mismatch(t, "AnimationWheel"@, 0);
        reveal_strlit("AnimationWheel");
        reveal_strlit("PosShake");
        lemma_prefix_mismatch(t, "AnimationWheel"@, 0);
        reveal_strlit("AnimationSystem");
        lemma_prefix_mismatch(t, "AnimationSystem"@, 0);
        reveal_strlit("AnimationSystem");
        reveal_strlit("Ramp");
        lemma_prefix_mismatch(t, "AnimationSystem"@, 0);
        reveal_strlit("AnimationSystem");
        reveal_strlit("Shake");
        lemma_prefix_mismatch(t, "AnimationSystem"@, 0);
        reveal_strlit("AnimationSystem");
        reveal_strlit("Audio");
        lemma_prefix_mismatch(t, "AnimationSystem"@, 0);
        reveal_strlit("AnimationSystem");
        reveal_strlit("Random");
        lemma_prefix_mismatch(t, "AnimationSystem"@, 0);
        reveal_strlit("AnimationSystem");
        reveal_strlit("Pos");
        lemma_prefix_mismatch(t, "AnimationSystem"@, 0);
        reveal_strlit("AnimationSystem");
        reveal_strlit("PosRotate");
        lemma_prefix_mismatch(t, "AnimationSystem"@, 0);
        reveal_strlit("AnimationSystem");
        reveal_strlit("PosShake");
        lemma_prefix_mismatch(t, "AnimationSystem"@, 0);
        reveal_strlit("AnimationSystem");
        reveal_strlit("PosRandom");
        lemma_prefix_mismatch(t, "AnimationSystem"@, 0);
        reveal_strlit("AnimationSystem");
        reveal_strlit("PosAudio");
        lemma_prefix_mismatch(t, "AnimationSystem"@, 0);
    }
    assert(numbered_attribute_1(t) is None) by {
        reveal(numbered_attribute_1);
        reveal_strlit("AnimationSystem");
        reveal_strlit("Macro");
        lemma_prefix_mismatch(t, "AnimationSystem"@, 0);
        reveal_strlit("MediaFolder");
        lemma_prefix_mismatch(t, "MediaFolder"@, 0);
        reveal_strlit("MediaContent");
        lemma_prefix_mismatch(t, "MediaContent"@, 0);
        reveal_strlit("ModelFolder");
        lemma_prefix_mismatch(t, "ModelFolder"@, 0);
        reveal_strlit("ModelContent");
        lemma_prefix_mismatch(t, "ModelContent"@, 0);
        reveal_strlit("ColorEffects");
        lemma_prefix_mismatch(t, "ColorEffects"@, 0);
        reveal_strlit("Color");
        lemma_prefix_mismatch(t, "Color"@, 0);
        reveal_strlit("Color");
        reveal_strlit("WheelIndex");
        lemma_prefix_mismatch(t, "Color"@, 0);
        reveal_strlit("Color");
        reveal_strlit("WheelSpin");
        lemma_prefix_mismatch(t, "Color"@, 0);
        reveal_strlit("Color");
        reveal_strlit("WheelRandom");
        lemma_prefix_mismatch(t, "Color"@, 0);
        reveal_strlit("Color");
        reveal_strlit("WheelAudio");
        lemma_prefix_mismatch(t, "Color"@, 0);
        reveal_strlit("ColorMacro");
        lemma_prefix_mismatch(t, "ColorMacro"@, 0);
        reveal_strlit("ColorMacro");
        reveal_strlit("Rate");
        lemma_prefix_mismatch(t, "ColorMacro"@, 0);
        reveal_strlit("Shutter");
        lemma_prefix_mismatch(t, "Shutter"@, 0);
        reveal_strlit("Shutter");
        reveal_strlit("Strobe");
        lemma_prefix_mismatch(t, "Shutter"@, 0);
        reveal_strlit("Shutter");
        reveal_strlit("StrobePulse");
        lemma_prefix_mismatch(t, "Shutter"@, 0);
        reveal_strlit("Shutter");
        reveal_strlit("StrobePulseClose");
        lemma_prefix_mismatch(t, "Shutter"@, 0);
        reveal_strlit("Shutter");
        reveal_strlit("StrobePulseOpen");
        lemma_prefix_mismatch(t, "Shutter"@, 0);
        reveal_strlit("Shutter");
        reveal_strlit("StrobeRandom");
        lemma_prefix_mismatch(t, "Shutter"@, 0);
        reveal_strlit("Shutter");
        reveal_strlit("StrobeRandomPulse");
        lemma_prefix_mismatch(t, "Shutter"@, 0);
        reveal_strlit("Shutter");
        reveal_strlit("StrobeRandomPulseClose");
        lemma_prefix_mismatch(t, "Shutter"@, 0);
        reveal_strlit("Shutter");
        reveal_strlit("StrobeRandomPulseOpen");
        lemma_prefix_mismatch(t, "Shutter"@, 0);
        reveal_strlit("Shutter");
        reveal_strlit("StrobeEffect");
        lemma_prefix_mismatch(t, "Shutter"@, 0);
        reveal_strlit("Frost");
        lemma_prefix_mismatch(t, "Frost"@, 0);
        reveal_strlit("Frost");
        reveal_strlit("PulseOpen");
        lemma_prefix_mismatch(t, "Frost"@, 0);
        reveal_strlit("Frost");
        reveal_strlit("PulseClose");
        lemma_prefix_mismatch(t, "Frost"@, 0);
        reveal_strlit("Frost");
        reveal_strlit("Ramp");
        lemma_prefix_mismatch(t, "Frost"@, 0);
        reveal_strlit("Prism");
        lemma_prefix_mismatch(t, "Prism"@, 0);
        reveal_strlit("Prism");
        reveal_strlit("SelectSpin");
        lemma_prefix_mismatch(t, "Prism"@, 0);
        reveal_strlit("Prism");
        reveal_strlit("Macro");
        lemma_prefix_mismatch(t, "Prism"@, 0);
        reveal_strlit("Prism");
        reveal_strlit("Pos");
        lemma_prefix_mismatch(t, "Prism"@, 0);
        reveal_strlit("Prism");
        reveal_strlit("PosRotate");
        lemma_prefix_mismatch(t, "Prism"@, 0);
    }
    reveal_strlit("Effects");
    reveal_strlit("Adjust");
    lemma_prefix_mismatch(t, "Effects"@, 0);
    reveal_strlit("Effects");
    lemma_prefix_mismatch(t, "Effects"@, 0);
    reveal_strlit("Effects");
    reveal_strlit("Rate");
    lemma_prefix_mismatch(t, "Effects"@, 0);
    reveal_strlit("Effects");
    reveal_strlit("Fade");
    lemma_prefix_mismatch(t, "Effects"@, 0);
    reveal_strlit("Effects");
    reveal_strlit("Pos");
    lemma_prefix_mismatch(t, "Effects"@, 0);
    reveal_strlit("Effects");
    reveal_strlit("PosRotate");
    lemma_prefix_mismatch(t, "Effects"@, 0);
    reveal_strlit("Focus");
    lemma_prefix_mismatch(t, "Focus"@, 0);
    reveal_strlit("Focus");
    reveal_strlit("Adjust");
    lemma_prefix_mismatch(t, "Focus"@, 0);
    reveal_strlit("Focus");
    reveal_strlit("Distance");
    lemma_prefix_mismatch(t, "Focus"@, 0);
    reveal_strlit("Control");
    lemma_prefix_mismatch(t, "Control"@, 0);
    reveal_strlit("Gobo");
    reveal_strlit("WheelMode");
    lemma_prefix_mismatch(t, "Gobo"@, 0);
    reveal_strlit("AnimationWheel");
    reveal_strlit("Mode");
    lemma_prefix_mismatch(t, "AnimationWheel"@, 0);
    reveal_strlit("Color");
    reveal_strlit("Mode");
    lemma_prefix_mismatch(t, "Color"@, 0);
    reveal_strlit("Fan");
    reveal_strlit("Mode");
    lemma_prefix_mismatch(t, "Fan"@, 0);
    reveal_strlit("GoboWheel");
    reveal_strlit("MSpeed");
    lemma_prefix_mismatch(t, "GoboWheel"@, 0);
    reveal_strlit("Prism");
    reveal_strlit("MSpeed");
    lemma_prefix_mismatch(t, "Prism"@, 0);
    reveal_strlit("Frost");
    reveal_strlit("MSpeed");
    lemma_prefix_mismatch(t, "Frost"@, 0);
    reveal_strlit("Blower");
    lemma_prefix_mismatch(t, "Blower"@, 0);
    reveal_strlit("Fan");
    lemma_prefix_mismatch(t, "Fan"@, 0);
    reveal_strlit("Fog");
    lemma_prefix_mismatch(t, "Fog"@, 0);
    reveal_strlit("Haze");
    lemma_prefix_mismatch(t, "Haze"@, 0);
    reveal_strlit("Blade");
    reveal_strlit("A");
    lemma_prefix_mismatch(t, "Blade"@, 0);
    reveal_strlit("Blade");
    reveal_strlit("B");
    lemma_prefix_mismatch(t, "Blade"@, 0);
    reveal_strlit("Blade");
    reveal_strlit("Rot");
    lemma_prefix_mismatch(t, "Blade"@, 0);
    reveal_strlit("BladeSoft");
    reveal_strlit("A");
    lemma_prefix_mismatch(t, "BladeSoft"@, 0);
    reveal_strlit("BladeSoft");
    reveal_strlit("B");
    lemma_prefix_mismatch(t, "BladeSoft"@, 0);
    reveal_strlit("KeyStone");
    reveal_strlit("A");
    lemma_prefix_mismatch(t, "KeyStone"@, 0);
    reveal_strlit("KeyStone");
    reveal_strlit("B");
    lemma_prefix_mismatch(t, "KeyStone"@, 0);
    reveal_strlit("VideoEffect");
    reveal_strlit("Type");
    lemma_prefix_mismatch(t, "VideoEffect"@, 5);
    reveal_strlit("VideoEffect");
    reveal_strlit("Parameter");
    lemma_prefix_mismatch(t, "VideoEffect"@, 5);
    reveal_strlit("VideoCamera");
    lemma_prefix_mismatch(t, "VideoCamera"@, 5);
    lemma_number_after("VideoSoundVolume"@, n);
}

/// The attributes whose written name reads back as another attribute, because
/// a reading rule that comes earlier claims the name first.
pub open spec fn text_read_as_other(a: FixtureChannel3Attribute) -> bool {
    a is LedFrequency || a is LedZoneMode || a is CriMode || a is UvStability || a is ColorWheelIndex || a is ColorWheelSpin || a is ColorWheelRandom || a is ColorWheelAudio || a is ColorMacroRate || a is AnimationWheelMode || a is GoboWheelMSpeed
}

/// Law: reading back what an attribute is written as gives the attribute
/// again, for every attribute but a custom one and those of
/// [`text_read_as_other`].
pub proof fn law_attribute_text_round_trip(a: FixtureChannel3Attribute)
    requires
        !(a is Custom),
        !text_read_as_other(a),
    ensures
        attribute_from_text(attribute_text(a)) == Some(a),
{
    match a {
        FixtureChannel3Attribute::Gobo(n) => text_reads_back_gobo(n),
        FixtureChannel3Attribute::GoboSelectSpin(n) => text_reads_back_gobo_select_spin(n),
        FixtureChannel3Attribute::GoboSelectShake(n) => text_reads_back_gobo_select_shake(n),
        FixtureChannel3Attribute::GoboSelectEffects(n) => text_reads_back_gobo_select_effects(n),
        FixtureChannel3Attribute::GoboWheelIndex(n) => text_reads_back_gobo_wheel_index(n),
        FixtureChannel3Attribute::GoboWheelSpin(n) => text_reads_back_gobo_wheel_spin(n),
        FixtureChannel3Attribute::GoboWheelShake(n) => text_reads_back_gobo_wheel_shake(n),
        FixtureChannel3Attribute::GoboWheelRandom(n) => text_reads_back_gobo_wheel_random(n),
        FixtureChannel3Attribute::GoboWheelAudio(n) => text_reads_back_gobo_wheel_audio(n),
        FixtureChannel3Attribute::GoboPos(n) => text_reads_back_gobo_pos(n),
        FixtureChannel3Attribute::GoboPosRotate(n) => text_reads_back_gobo_pos_rotate(n),
        FixtureChannel3Attribute::GoboPosShake(n) => text_reads_back_gobo_pos_shake(n),
        FixtureChannel3Attribute::AnimationWheel(n) => text_reads_back_animation_wheel(n),
        FixtureChannel3Attribute::AnimationWheelAudio(n) => text_reads_back_animation_wheel_audio(n),
        FixtureChannel3Attribute::AnimationWheelMacro(n) => text_reads_back_animation_wheel_macro(n),
        FixtureChannel3Attribute::AnimationWheelRandom(n) => text_reads_back_animation_wheel_random(n),
        FixtureChannel3Attribute::AnimationWheelSelectEffects(n) => text_reads_back_animation_wheel_select_effects(n),
        FixtureChannel3Attribute::AnimationWheelSelectShake(n) => text_reads_back_animation_wheel_select_shake(n),
        FixtureChannel3Attribute::AnimationWheelSelectSpin(n) => text_reads_back_animation_wheel_select_spin(n),
        FixtureChannel3Attribute::AnimationWheelPos(n) => text_reads_back_animation_wheel_pos(n),
        FixtureChannel3Attribute::AnimationWheelPosRotate(n) => text_reads_back_animation_wheel_pos_rotate(n),
        FixtureChannel3Attribute::AnimationWheelPosShake(n) => text_reads_back_animation_wheel_pos_shake(n),
        FixtureChannel3Attribute::AnimationSystem(n) => text_reads_back_animation_system(n),
        FixtureChannel3Attribute::AnimationSystemRamp(n) => text_reads_back_animation_system_ramp(n),
        FixtureChannel3Attribute::AnimationSystemShake(n) => text_reads_back_animation_system_shake(n),
        FixtureChannel3Attribute::AnimationSystemAudio(n) => text_reads_back_animation_system_audio(n),
        FixtureChannel3Attribute::AnimationSystemRandom(n) => text_reads_back_animation_system_random(n),
        FixtureChannel3Attribute::AnimationSystemPos(n) => text_reads_back_animation_system_pos(n),
        FixtureChannel3Attribute::AnimationSystemPosRotate(n) => text_reads_back_animation_system_pos_rotate(n),
        FixtureChannel3Attribute::AnimationSystemPosShake(n) => text_reads_back_animation_system_pos_shake(n),
        FixtureChannel3Attribute::AnimationSystemPosRandom(n) => text_reads_back_animation_system_pos_random(n),
        FixtureChannel3Attribute::AnimationSystemPosAudio(n) => text_reads_back_animation_system_pos_audio(n),
        FixtureChannel3Attribute::AnimationSystemMacro(n) => text_reads_back_animation_system_macro(n),
        FixtureChannel3Attribute::MediaFolder(n) => text_reads_back_media_folder(n),
        FixtureChannel3Attribute::MediaContent(n) => text_reads_back_media_content(n),
        FixtureChannel3Attribute::ModelFolder(n) => text_reads_back_model_folder(n),
        FixtureChannel3Attribute::ModelContent(n) => text_reads_back_model_content(n),
        FixtureChannel3Attribute::ColorEffects(n) => text_reads_back_color_effects(n),
        FixtureChannel3Attribute::Color(n) => text_reads_back_color(n),
        FixtureChannel3Attribute::ColorMacro(n) => text_reads_back_color_macro(n),
        FixtureChannel3Attribute::Shutter(n) => text_reads_back_shutter(n),
        FixtureChannel3Attribute::ShutterStrobe(n) => text_reads_back_shutter_strobe(n),
        FixtureChannel3Attribute::ShutterStrobePulse(n) => text_reads_back_shutter_strobe_pulse(n),
        FixtureChannel3Attribute::ShutterStrobePulseClose(n) => text_reads_back_shutter_strobe_pulse_close(n),
        FixtureChannel3Attribute::ShutterStrobePulseOpen(n) => text_reads_back_shutter_strobe_pulse_open(n),
        FixtureChannel3Attribute::ShutterStrobeRandom(n) => text_reads_back_shutter_strobe_random(n),
        FixtureChannel3Attribute::ShutterStrobeRandomPulse(n) => text_reads_back_shutter_strobe_random_pulse(n),
        FixtureChannel3Attribute::ShutterStrobeRandomPulseClose(n) => text_reads_back_shutter_strobe_random_pulse_close(n),
        FixtureChannel3Attribute::ShutterStrobeRandomPulseOpen(n) => text_reads_back_shutter_strobe_random_pulse_open(n),
        FixtureChannel3Attribute::ShutterStrobeEffect(n) => text_reads_back_shutter_strobe_effect(n),
        FixtureChannel3Attribute::Frost(n) => text_reads_back_frost(n),
        FixtureChannel3Attribute::FrostPulseOpen(n) => text_reads_back_frost_pulse_open(n),
        FixtureChannel3Attribute::FrostPulseClose(n) => text_reads_back_frost_pulse_close(n),
        FixtureChannel3Attribute::FrostRamp(n) => text_reads_back_frost_ramp(n),
        FixtureChannel3Attribute::Prism(n) => text_reads_back_prism(n),
        FixtureChannel3Attribute::PrismSelectSpin(n) => text_reads_back_prism_select_spin(n),
        FixtureChannel3Attribute::PrismMacro(n) => text_reads_back_prism_macro(n),
        FixtureChannel3Attribute::PrismPos(n) => text_reads_back_prism_pos(n),
        FixtureChannel3Attribute::PrismPosRotate(n) => text_reads_back_prism_pos_rotate(n),
        FixtureChannel3Attribute::Effects(n) => text_reads_back_effects(n),
        FixtureChannel3Attribute::EffectsRate(n) => text_reads_back_effects_rate(n),
        FixtureChannel3Attribute::EffectsFade(n) => text_reads_back_effects_fade(n),
        FixtureChannel3Attribute::EffectsAdjust(n, m) => text_reads_back_effects_adjust(n, m),
        FixtureChannel3Attribute::EffectsPos(n) => text_reads_back_effects_pos(n),
        FixtureChannel3Attribute::EffectsPosRotate(n) => text_reads_back_effects_pos_rotate(n),
        FixtureChannel3Attribute::Focus(n) => text_reads_back_focus(n),
        FixtureChannel3Attribute::FocusAdjust(n) => text_reads_back_focus_adjust(n),
        FixtureChannel3Attribute::FocusDistance(n) => text_reads_back_focus_distance(n),
        FixtureChannel3Attribute::Control(n) => text_reads_back_control(n),
        FixtureChannel3Attribute::GoboWheelMode(n) => text_reads_back_gobo_wheel_mode(n),
        FixtureChannel3Attribute::ColorMode(n) => text_reads_back_color_mode(n),
        FixtureChannel3Attribute::FanMode(n) => text_reads_back_fan_mode(n),
        FixtureChannel3Attribute::PrismMSpeed(n) => text_reads_back_prism_m_speed(n),
        FixtureChannel3Attribute::FrostMSpeed(n) => text_reads_back_frost_m_speed(n),
        FixtureChannel3Attribute::Blower(n) => text_reads_back_blower(n),
        FixtureChannel3Attribute::Fan(n) => text_reads_back_fan(n),
        FixtureChannel3Attribute::Fog(n) => text_reads_back_fog(n),
        FixtureChannel3Attribute::Haze(n) => text_reads_back_haze(n),
        FixtureChannel3Attribute::BladeA(n) => text_reads_back_blade_a(n),
        FixtureChannel3Attribute::BladeB(n) => text_reads_back_blade_b(n),
        FixtureChannel3Attribute::BladeRot(n) => text_reads_back_blade_rot(n),
        FixtureChannel3Attribute::BladeSoftA(n) => text_reads_back_blade_soft_a(n),
        FixtureChannel3Attribute::BladeSoftB(n) => text_reads_back_blade_soft_b(n),
        FixtureChannel3Attribute::KeyStoneA(n) => text_reads_back_key_stone_a(n),
        FixtureChannel3Attribute::KeyStoneB(n) => text_reads_back_key_stone_b(n),
        FixtureChannel3Attribute::VideoEffectType(n) => text_reads_back_video_effect_type(n),
        FixtureChannel3Attribute::VideoEffectParameter(n, m) => text_reads_back_video_effect_parameter(n, m),
        FixtureChannel3Attribute::VideoCamera(n) => text_reads_back_video_camera(n),
        FixtureChannel3Attribute::VideoSoundVolume(n) => text_reads_back_video_sound_volume(n),
        _ => {
            if a is Dimmer || a is Pan || a is Tilt || a is PanRotate || a is TiltRotate || a is PositionEffect || a is PositionEffectRate || a is PositionEffectFade || a is XyzX || a is XyzY || a is XyzZ || a is RotX || a is RotY || a is RotZ || a is ScaleX || a is ScaleY || a is ScaleZ || a is ScaleXYZ || a is PlayMode || a is PlayBegin || a is PlayEnd || a is PlaySpeed || a is ColorAddR || a is ColorAddG || a is ColorAddB || a is ColorAddC || a is ColorAddM || a is ColorAddY || a is ColorAddRY || a is ColorAddGY || a is ColorAddGC || a is ColorAddBC || a is ColorAddBM || a is ColorAddRM || a is ColorAddW || a is ColorAddWW || a is ColorAddCW || a is ColorAddUV || a is ColorSubR || a is ColorSubG || a is ColorSubB || a is ColorSubC || a is ColorSubM || a is ColorSubY || a is Cto || a is Ctc {
                lemma_units_round_trip_0(a);
            }
            if a is Ctb || a is Tint || a is HsbHue || a is HsbSaturation || a is HsbBrightness || a is HsbQuality || a is CieX || a is CieY || a is CieBrightness || a is ColorRgbRed || a is ColorRgbGreen || a is ColorRgbBlue || a is ColorRgbCyan || a is ColorRgbMagenta || a is ColorRgbYellow || a is ColorRgbQuality || a is VideoBoostR || a is VideoBoostG || a is VideoBoostB || a is VideoHueShift || a is VideoSaturation || a is VideoBrightness || a is VideoContrast || a is VideoKeyColorR || a is VideoKeyColorG || a is VideoKeyColorB || a is VideoKeyIntensity || a is VideoKeyTolerance || a is StrobeDuration || a is StrobeRate || a is StrobeFrequency || a is StrobeModeShutter || a is StrobeModeStrobe || a is StrobeModePulse || a is StrobeModePulseOpen || a is StrobeModePulseClose || a is StrobeModeRandom || a is StrobeModeRandomPulse || a is StrobeModeRandomPulseOpen || a is StrobeModeRandomPulseClose || a is StrobeModeEffect || a is Iris || a is IrisStrobe || a is IrisStrobeRandom || a is IrisPulseClose || a is IrisPulseOpen {
                lemma_units_round_trip_1(a);
            }
            if a is IrisRandomPulseClose || a is IrisRandomPulseOpen || a is EffectsSync || a is BeamShaper || a is BeamShaperMacro || a is BeamShaperPos || a is BeamShaperPosRotate || a is Zoom || a is ZoomModeSpot || a is ZoomModeBeam || a is DigitalZoom || a is DimmerMode || a is DimmerCurve || a is BlackoutMode || a is PixelMode || a is PanMode || a is TiltMode || a is PanTiltMode || a is PositionModes || a is GoboWheelShortcutMode || a is AnimationWheelShortcutMode || a is ColorWheelShortcutMode || a is CyanMode || a is MagentaMode || a is YellowMode || a is ColorMixMode || a is ChromaticMode || a is ColorCalibrationMode || a is ColorConsistency || a is ColorControl || a is ColorModelMode || a is ColorSettingsReset || a is ColorUniformity || a is CustomColor || a is WavelengthCorrection || a is WhiteCount || a is StrobeMode || a is ZoomMode || a is FocusMode || a is IrisMode || a is FollowSpotMode || a is BeamEffectIndexRotateMode {
                lemma_units_round_trip_2(a);
            }
            if a is IntensityMSpeed || a is PositionMSpeed || a is ColorMixMSpeed || a is ColorWheelSelectMSpeed || a is IrisMSpeed || a is FocusMSpeed || a is ZoomMSpeed || a is FrameMSpeed || a is GlobalMSpeed || a is ReflectorAdjust || a is FixtureGlobalReset || a is DimmerReset || a is ShutterReset || a is BeamReset || a is ColorMixReset || a is ColorWheelReset || a is FocusReset || a is FrameReset || a is GoboWheelReset || a is IntensityReset || a is IrisReset || a is PositionReset || a is PanReset || a is TiltReset || a is ZoomReset || a is CtbReset || a is CtoReset || a is CtcReset || a is AnimationSystemReset || a is FixtureCalibrationReset || a is Function || a is LampControl || a is DisplayIntensity || a is DmxInput || a is NoFeature || a is LampPowerMode || a is Fans || a is ShaperRot || a is ShaperMacros || a is ShaperMacrosSpeed || a is Video || a is VideoBlendMode || a is InputSource || a is FieldOfView {
                lemma_units_round_trip_3(a);
            }
        },
    }
}

} // verus!
