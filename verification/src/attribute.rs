//! GDTF attributes: the catalogue of fixture attributes (pan, tilt, colour
//! mixing, gobo wheels, ...), their names, pretty names and feature types,
//! and the reading of attribute names.

use vstd::prelude::*;
use crate::text::{chars_eq, chars_of, decimal, matches_at, parse_unsigned, parse_unsigned_chars, push_decimal};

verus! {

/// The kind of feature an attribute controls.
#[derive(Debug, Clone, Copy, PartialEq, Eq, Structural, PartialOrd, Ord, Hash)]
pub enum FixtureChannel3FeatureType {
    Dimmer,
    PanTilt,
    Xyz,
    Rotation,
    Scale,
    Gobo,
    Media,
    Color,
    Rgb,
    Hsb,
    Cie,
    Indirect,
    ColorCorrection,
    HsbcShift,
    ColorKey,
    Beam,
    Focus,
    Control,
    Shapers,
    Video,
}

/// The name of a non-standard attribute.
#[derive(Debug, Clone, PartialEq, Eq, PartialOrd, Ord, Hash)]
pub struct CustomName(pub String);

impl View for CustomName {
    type V = Seq<char>;

    closed spec fn view(&self) -> Seq<char> {
        self.0@
    }
}

impl CustomName {
    /// A custom attribute name holding `s`.
    pub fn new(s: String) -> (res: CustomName)
        ensures
            res@ == s@,
    {
        CustomName(s)
    }

    /// The name as a string.
    pub fn to_string(&self) -> (res: String)
        ensures
            res@ == self@,
    {
        self.0.clone()
    }

    /// A copy of the name.
    pub fn duplicate(&self) -> (res: CustomName)
        ensures
            res == *self,
    {
        CustomName(self.0.clone())
    }
}

/// `t` read as an 8-bit unsigned number, if it is one.
pub open spec fn parse_u8_text(t: Seq<char>) -> Option<u8> {
    match parse_unsigned(t, 255) {
        Ok(v) => Some(v as u8),
        Err(_) => None,
    }
}

/// The number after `prefix` in `s`, when `s` is `prefix` followed by a number.
pub open spec fn extract_n(s: Seq<char>, prefix: Seq<char>) -> Option<u8> {
    if prefix.is_prefix_of(s) {
        parse_u8_text(s.subrange(prefix.len() as int, s.len() as int))
    } else {
        None
    }
}

/// The number between `prefix` and `suffix` in `s`, when `s` is `prefix`,
/// a number and `suffix`.
pub open spec fn extract_n_suffix(s: Seq<char>, prefix: Seq<char>, suffix: Seq<char>) -> Option<u8> {
    if prefix.is_prefix_of(s) {
        let rest = s.subrange(prefix.len() as int, s.len() as int);
        if suffix.is_suffix_of(rest) {
            parse_u8_text(rest.subrange(0, rest.len() - suffix.len()))
        } else {
            None
        }
    } else {
        None
    }
}

/// The first position at or after `i` where `pat` occurs in `s`.
pub open spec fn find_from(s: Seq<char>, pat: Seq<char>, i: int) -> Option<int>
    decreases s.len() + 1 - i,
{
    if i < 0 || i + pat.len() > s.len() {
        None
    } else if s.subrange(i, i + pat.len()) == pat {
        Some(i)
    } else {
        find_from(s, pat, i + 1)
    }
}

/// The numbers `n` and `m` when `s` is `prefix`, `n`, the first occurrence
/// of `middle` after the prefix, and `m`.
pub open spec fn extract_n_m(s: Seq<char>, prefix: Seq<char>, middle: Seq<char>) -> Option<(u8, u8)> {
    if prefix.is_prefix_of(s) {
        let rest = s.subrange(prefix.len() as int, s.len() as int);
        match find_from(rest, middle, 0) {
            None => None,
            Some(p) => match parse_u8_text(rest.subrange(0, p)) {
                None => None,
                Some(n) => match parse_u8_text(rest.subrange(p + middle.len(), rest.len() as int)) {
                    None => None,
                    Some(m) => Some((n, m)),
                },
            },
        }
    } else {
        None
    }
}

fn u8_of(cs: &[char], lo: usize, hi: usize) -> (res: Option<u8>)
    requires
        lo <= hi <= cs@.len(),
    ensures
        res == parse_u8_text(cs@.subrange(lo as int, hi as int)),
{
    match parse_unsigned_chars(cs, lo, hi, 255) {
        Ok(v) => Some(v as u8),
        Err(_) => None,
    }
}

fn extract_n_exec(cs: &[char], prefix: &str) -> (res: Option<u8>)
    ensures
        res == extract_n(cs@, prefix@),
{
    let p = chars_of(prefix);
    if !matches_at(cs, 0, p.as_slice()) {
        return None;
    }
    u8_of(cs, p.len(), cs.len())
}

fn extract_n_suffix_exec(cs: &[char], prefix: &str, suffix: &str) -> (res: Option<u8>)
    ensures
        res == extract_n_suffix(cs@, prefix@, suffix@),
{
    let p = chars_of(prefix);
    let q = chars_of(suffix);
    if !matches_at(cs, 0, p.as_slice()) {
        return None;
    }
    let ghost rest = cs@.subrange(p@.len() as int, cs@.len() as int);
    if q.len() > cs.len() - p.len() {
        return None;
    }
    let at = cs.len() - q.len();
    assert(rest.subrange(rest.len() - q@.len(), rest.len() as int) =~= cs@.subrange(
        at as int,
        cs@.len() as int,
    ));
    if !matches_at(cs, at, q.as_slice()) {
        return None;
    }
    assert(rest.subrange(0, rest.len() - q@.len()) =~= cs@.subrange(p@.len() as int, at as int));
    u8_of(cs, p.len(), at)
}

fn extract_n_m_exec(cs: &[char], prefix: &str, middle: &str) -> (res: Option<(u8, u8)>)
    ensures
        res == extract_n_m(cs@, prefix@, middle@),
{
    let p = chars_of(prefix);
    let mid = chars_of(middle);
    if !matches_at(cs, 0, p.as_slice()) {
        return None;
    }
    let ghost rest = cs@.subrange(p@.len() as int, cs@.len() as int);
    let lo = p.len();
    let mut q = lo;
    while q <= cs.len() && mid.len() <= cs.len() - q && !matches_at(cs, q, mid.as_slice())
        invariant
            lo == p@.len(),
            lo <= cs@.len(),
            lo <= q,
            q <= cs@.len() + 1,
            rest == cs@.subrange(lo as int, cs@.len() as int),
            find_from(rest, mid@, 0) == find_from(rest, mid@, q - lo),
        decreases cs@.len() + 1 - q,
    {
        assert(rest.subrange(q - lo, q - lo + mid@.len()) =~= cs@.subrange(
            q as int,
            q + mid@.len(),
        ));
        assert(mid@.len() >= 1) by {
            if mid@.len() == 0 {
                assert(cs@.subrange(q as int, q as int) =~= mid@);
            }
        }
        q = q + 1;
    }
    if !(q <= cs.len() && mid.len() <= cs.len() - q) {
        return None;
    }
    assert(rest.subrange(q - lo, q - lo + mid@.len()) =~= cs@.subrange(q as int, q + mid@.len()));
    assert(find_from(rest, mid@, q - lo) == Some(q - lo));
    assert(rest.subrange(0, q - lo) =~= cs@.subrange(lo as int, q as int));
    assert(rest.subrange(q - lo + mid@.len(), rest.len() as int) =~= cs@.subrange(
        q + mid@.len(),
        cs@.len() as int,
    ));
    let n = match u8_of(cs, lo, q) {
        Some(n) => n,
        None => return None,
    };
    let m = match u8_of(cs, q + mid.len(), cs.len()) {
        Some(m) => m,
        None => return None,
    };
    Some((n, m))
}

/// A GDTF attribute.
#[derive(Debug, Clone, PartialEq, Eq, PartialOrd, Ord, Hash)]
pub enum FixtureChannel3Attribute {
    /// Controls the intensity of a fixture.
    Dimmer,

    /// Controls the fixture’s sideward movement (horizontal axis).
    Pan,
    /// Controls the fixture’s upward and the downward movement (vertical axis).
    Tilt,
    /// Controls the speed of the fixture’s continuous pan movement (horizontal
    /// axis).
    PanRotate,
    /// Controls the speed of the fixture’s continuous tilt movement (vertical
    /// axis).
    TiltRotate,
    /// Selects the predefined position effects that are built into the fixture.
    PositionEffect,
    /// Controls the speed of the predefined position effects that are built
    /// into the fixture.
    PositionEffectRate,
    /// Snaps or smooth fades with timing in running predefined position
    /// effects.
    PositionEffectFade,
    /// Defines a fixture’s x-coordinate within an XYZ coordinate system.
    XyzX,
    /// Defines a fixture’s y-coordinate within an XYZ coordinate system.
    XyzY,
    /// Defines a fixture‘s z-coordinate within an XYZ coordinate system.
    XyzZ,
    /// Defines rotation around X axis.
    RotX,
    /// Defines rotation around Y axis.
    RotY,
    /// Defines rotation around Z axis.
    RotZ,
    /// Scaling on X axis.
    ScaleX,
    /// Scaling on Y axis.
    ScaleY,
    /// Scaling on Y axis.
    ScaleZ,
    /// Unified scaling on all axis.
    ScaleXYZ,

    /// The fixture’s gobo wheel (n). This is the main attribute of gobo wheel’s
    /// (n) wheel control. Selects gobos in gobo wheel (n). A different channel
    /// function sets the angle of the indexed position in the selected gobo or
    /// the angular speed of its continuous rotation.
    Gobo(u8),
    /// Selects gobos whose rotation is continuous in gobo wheel (n) and
    /// controls the angular speed of the gobo’s spin within the same channel
    /// function.
    GoboSelectSpin(u8),
    /// Selects gobos which shake in gobo wheel (n) and controls the frequency
    /// of the gobo’s shake within the same channel function.
    GoboSelectShake(u8),
    /// Selects gobos which run effects in gobo wheel (n).
    GoboSelectEffects(u8),
    /// Controls angle of indexed rotation of gobo wheel (n).
    GoboWheelIndex(u8),
    /// Controls the speed and direction of continuous rotation of gobo wheel
    /// (n).
    GoboWheelSpin(u8),
    /// Controls frequency of the shake of gobo wheel (n).
    GoboWheelShake(u8),
    /// Controls speed of gobo wheel´s (n) random gobo slot selection.
    GoboWheelRandom(u8),
    /// Controls audio-controlled functionality of gobo wheel (n).
    GoboWheelAudio(u8),
    /// Controls angle of indexed rotation of gobos in gobo wheel (n). This is
    /// the main attribute of gobo wheel’s (n) wheel slot control.
    GoboPos(u8),
    /// Controls the speed and direction of continuous rotation of gobos in gobo
    /// wheel (n).
    GoboPosRotate(u8),
    /// Controls frequency of the shake of gobos in gobo wheel (n).
    GoboPosShake(u8),
    /// This is the main attribute of the animation wheel’s (n) wheel control.
    /// Selects slots in the animation wheel. A different channel function sets
    /// the angle of the indexed position in the selected slot or the angular
    /// speed of its continuous rotation. Is used for animation effects with
    /// multiple slots.
    AnimationWheel(u8),
    /// Controls audio-controlled functionality of animation wheel (n).
    AnimationWheelAudio(u8),
    /// Selects predefined effects in animation wheel (n).
    AnimationWheelMacro(u8),
    /// Controls frequency of animation wheel (n) random slot selection.
    AnimationWheelRandom(u8),
    /// Selects slots which run effects in animation wheel (n).
    AnimationWheelSelectEffects(u8),
    /// Selects slots which shake in animation wheel and controls the frequency
    /// of the slots shake within the same channel function.
    AnimationWheelSelectShake(u8),
    /// Selects slots whose rotation is continuous in animation wheel and
    /// controls the angular speed of the slot spin within the same channel
    /// function
    AnimationWheelSelectSpin(u8),
    /// Controls angle of indexed rotation of slots in animation wheel. This is
    /// the main attribute of animation wheel (n) wheel slot control.
    AnimationWheelPos(u8),
    /// Controls the speed and direction of continuous rotation of slots in
    /// animation wheel (n).
    AnimationWheelPosRotate(u8),
    /// Controls frequency of the shake of slots in animation wheel (n).
    AnimationWheelPosShake(u8),
    /// This is the main attribute of the animation system insertion control.
    /// Controls the insertion of the fixture’s animation system in the light
    /// output. Is used for animation effects where a disk is inserted into the
    /// light output.
    AnimationSystem(u8),
    /// Sets frequency of animation system (n) insertion ramp.
    AnimationSystemRamp(u8),
    /// Sets frequency of animation system (n) insertion shake.
    AnimationSystemShake(u8),
    /// Controls audio-controlled functionality of animation system (n)
    /// insertion.
    AnimationSystemAudio(u8),
    /// Controls frequency of animation system (n) random insertion.
    AnimationSystemRandom(u8),
    /// This is the main attribute of the animation system spinning control.
    /// Controls angle of indexed rotation of animation system (n) disk.
    AnimationSystemPos(u8),
    /// Controls the speed and direction of continuous rotation of animation
    /// system (n) disk.
    AnimationSystemPosRotate(u8),
    /// Controls frequency of the shake of animation system (n) disk.
    AnimationSystemPosShake(u8),
    /// Controls random speed of animation system (n) disk.
    AnimationSystemPosRandom(u8),
    /// Controls audio-controlled functionality of animation system (n) disk.
    AnimationSystemPosAudio(u8),
    /// Selects predefined effects in animation system (n).
    AnimationSystemMacro(u8),
    /// Selects folder that contains media content.
    MediaFolder(u8),
    /// Selects file with media content.
    MediaContent(u8),
    /// Selects folder that contains 3D model content. For example 3D meshes for
    /// mapping.
    ModelFolder(u8),
    /// Selects file with 3D model content.
    ModelContent(u8),
    /// Defines media playback mode.
    PlayMode,
    /// Defines starting point of media content playback.
    PlayBegin,
    /// Defines end point of media content playback.
    PlayEnd,
    /// Adjusts playback speed of media content.
    PlaySpeed,

    /// Selects predefined color effects built into the fixture.
    ColorEffects(u8),
    /// The fixture’s color wheel (n). Selects colors in color wheel (n). This
    /// is the main attribute of color wheel’s (n) wheel control.
    Color(u8),
    /// Controls angle of indexed rotation of color wheel (n)
    ColorWheelIndex(u8),
    /// Controls the speed and direction of continuous rotation of color wheel
    /// (n).
    ColorWheelSpin(u8),
    /// Controls frequency of color wheel´s (n) random color slot selection.
    ColorWheelRandom(u8),
    /// Controls audio-controlled functionality of color wheel (n).
    ColorWheelAudio(u8),
    /// Controls the intensity of the fixture’s red emitters for direct additive
    /// color mixing.
    ColorAddR,
    /// Controls the intensity of the fixture’s green emitters for direct
    /// additive color mixing
    ColorAddG,
    /// Controls the intensity of the fixture’s blue emitters for direct
    /// additive color mixing.
    ColorAddB,
    /// Controls the intensity of the fixture’s cyan emitters for direct
    /// additive color mixing.
    ColorAddC,
    /// Controls the intensity of the fixture’s magenta emitters for direct
    /// additive color mixing.
    ColorAddM,
    /// Controls the intensity of the fixture’s yellow emitters for direct
    /// additive color mixing.
    ColorAddY,
    /// Controls the intensity of the fixture’s amber emitters for direct
    /// additive color mixing.
    ColorAddRY,
    /// Controls the intensity of the fixture’s lime emitters for direct
    /// additive color mixing.
    ColorAddGY,
    /// Controls the intensity of the fixture’s blue-green emitters for direct
    /// additive color mixing.
    ColorAddGC,
    /// Controls the intensity of the fixture’s light-blue emitters for direct
    /// additive color mixing.
    ColorAddBC,
    /// Controls the intensity of the fixture’s purple emitters for direct
    /// additive color mixing.
    ColorAddBM,
    /// Controls the intensity of the fixture’s pink emitters for direct
    /// additive color mixing.
    ColorAddRM,
    /// Controls the intensity of the fixture’s white emitters for direct
    /// additive color mixing.
    ColorAddW,
    /// Controls the intensity of the fixture’s warm white emitters for direct
    /// additive color mixing.
    ColorAddWW,
    /// Controls the intensity of the fixture’s cool white emitters for direct
    /// additive color mixing.
    ColorAddCW,
    /// Controls the intensity of the fixture’s UV emitters for direct additive
    /// color mixing.
    ColorAddUV,
    /// Controls the insertion of the fixture’s red filter flag for direct
    /// subtractive color mixing.
    ColorSubR,
    /// Controls the insertion of the fixture’s green filter flag for direct
    /// subtractive color mixing.
    ColorSubG,
    /// Controls the insertion of the fixture’s blue filter flag for direct
    /// subtractive color mixing.
    ColorSubB,
    /// Controls the insertion of the fixture’s cyan filter flag for direct
    /// subtractive color mixing.
    ColorSubC,
    /// Controls the insertion of the fixture’s magenta filter flag for direct
    /// subtractive color mixing.
    ColorSubM,
    /// Controls the insertion of the fixture’s yellow filter flag for direct
    /// subtractive color mixing.
    ColorSubY,
    /// Selects predefined colors that are programed in the fixture’s firmware.
    ColorMacro(u8),
    /// Controls the time between Color Macro steps.
    ColorMacroRate(u8),
    /// Controls the fixture’s “Correct to orange” wheel or mixing system.
    Cto,
    /// Controls the fixture’s “Correct to color” wheel or mixing system.
    Ctc,
    /// Controls the fixture’s “Correct to blue” wheel or mixing system.
    Ctb,
    /// Controls the fixture’s “Correct green to magenta” wheel or mixing
    /// system.
    Tint,
    /// Controls the fixture’s color attribute regarding the hue.
    HsbHue,
    /// Controls the fixture’s color attribute regarding the saturation.
    HsbSaturation,
    /// Controls the fixture’s color attribute regarding the brightness.
    HsbBrightness,
    /// Controls the fixture’s color attribute regarding the quality.
    HsbQuality,
    /// Controls the fixture’s CIE 1931 color attribute regarding the
    /// chromaticity x.
    CieX,
    /// Controls the fixture’s CIE 1931 color attribute regarding the
    /// chromaticity y.
    CieY,
    /// Controls the fixture’s CIE 1931 color attribute regarding the brightness
    /// (Y).
    CieBrightness,
    /// Controls the fixture’s red attribute for indirect RGB color mixing.
    ColorRgbRed,
    /// Controls the fixture’s green attribute for indirect RGB color mixing.
    ColorRgbGreen,
    /// Controls the fixture’s blue attribute for indirect RGB color mixing.
    ColorRgbBlue,
    /// Controls the fixture’s cyan attribute for indirect CMY color mixing.
    ColorRgbCyan,
    /// Controls the fixture’s magenta attribute for indirect CMY color mixing.
    ColorRgbMagenta,
    /// Controls the fixture’s yellow attribute for indirect CMY color mixing.
    ColorRgbYellow,
    /// Controls the fixture’s quality attribute for indirect color mixing.
    ColorRgbQuality,
    /// Adjusts color boost red of content.
    VideoBoostR,
    /// Adjusts color boost green of content.
    VideoBoostG,
    /// Adjusts color boost blue of content.
    VideoBoostB,
    /// Adjusts color hue shift of content.
    VideoHueShift,
    /// Adjusts saturation of content.
    VideoSaturation,
    /// Adjusts brightness of content.
    VideoBrightness,
    /// Adjusts contrast of content.
    VideoContrast,
    /// Adjusts red color for color keying.
    VideoKeyColorR,
    /// Adjusts green color for color keying.
    VideoKeyColorG,
    /// Adjusts blue color for color keying.
    VideoKeyColorB,
    /// Adjusts intensity of color keying.
    VideoKeyIntensity,
    /// Adjusts tolerance of color keying.
    VideoKeyTolerance,

    /// Controls the length of a strobe flash.
    StrobeDuration,
    /// Controls the time between strobe flashes.
    StrobeRate,
    /// Controls the frequency of strobe flashes.
    StrobeFrequency,
    /// Strobe mode shutter. Use this attribute together with StrobeFrequency to
    /// define the type of the shutter / strobe.
    StrobeModeShutter,
    /// Strobe mode strobe. Use this attribute together with StrobeFrequency to
    /// define the type of the shutter / strobe.
    StrobeModeStrobe,
    /// Strobe mode pulse. Use this attribute together with StrobeFrequency to
    /// define the type of the shutter / strobe.
    StrobeModePulse,
    /// Strobe mode opening pulse. Use this attribute together with
    /// StrobeFrequency to define the type of the shutter / strobe.
    StrobeModePulseOpen,
    /// Strobe mode closing pulse. Use this attribute together with
    /// StrobeFrequency to define the type of the shutter / strobe.
    StrobeModePulseClose,
    /// Strobe mode random strobe. Use this attribute together with
    /// StrobeFrequency to define the type of the shutter / strobe.
    StrobeModeRandom,
    /// Strobe mode random pulse. Use this attribute together with
    /// StrobeFrequency to define the type of the shutter / strobe.
    StrobeModeRandomPulse,
    /// Strobe mode random opening pulse. Use this attribute together with
    /// StrobeFrequency to define the type of the shutter / strobe.
    StrobeModeRandomPulseOpen,
    /// Strobe mode random closing pulse. Use this attribute together with
    /// StrobeFrequency to define the type of the shutter / strobe.
    StrobeModeRandomPulseClose,
    /// Strobe mode random shutter effect feature. Use this attribute together
    /// with StrobeFrequency to define the type of the shutter / strobe.
    StrobeModeEffect,
    /// Controls the fixture´s mechanical or electronical shutter feature.
    Shutter(u8),
    /// Controls the frequency of the fixture´s mechanical or electronical
    /// strobe shutter feature.
    ShutterStrobe(u8),
    /// Controls the frequency of the fixture´s mechanical or electronical pulse
    /// shutter feature.
    ShutterStrobePulse(u8),
    /// Controls the frequency of the fixture´s mechanical or electronical
    /// closing pulse shutter feature. The pulse is described by a ramp
    /// function.
    ShutterStrobePulseClose(u8),
    /// Controls the frequency of the fixture´s mechanical or electronical
    /// opening pulse shutter feature. The pulse is described by a ramp
    /// function.
    ShutterStrobePulseOpen(u8),
    /// Controls the frequency of the fixture´s mechanical or electronical
    /// random strobe shutter feature.
    ShutterStrobeRandom(u8),
    /// Controls the frequency of the fixture´s mechanical or electronical
    /// random pulse shutter feature.
    ShutterStrobeRandomPulse(u8),
    /// Controls the frequency of the fixture´s mechanical or electronical
    /// random closing pulse shutter feature. The pulse is described by a ramp
    /// function.
    ShutterStrobeRandomPulseClose(u8),
    /// Controls the frequency of the fixture´s mechanical or electronical
    /// random opening pulse shutter feature. The pulse is described by a ramp
    /// function.
    ShutterStrobeRandomPulseOpen(u8),
    /// Controls the frequency of the fixture´s mechanical or electronical
    /// shutter effect feature.
    ShutterStrobeEffect(u8),
    /// Controls the diameter of the fixture’s beam.
    Iris,
    /// Sets frequency of the iris’s strobe feature.
    IrisStrobe,
    /// Sets frequency of the iris’s random movement.
    IrisStrobeRandom,
    /// Sets frequency of iris’s closing pulse.
    IrisPulseClose,
    /// Sets frequency of iris’s opening pulse.
    IrisPulseOpen,
    /// Sets frequency of iris’s random closing pulse.
    IrisRandomPulseClose,
    /// Sets frequency of iris’s random opening pulse.
    IrisRandomPulseOpen,
    /// The ability to soften the fixture’s spot light with a frosted lens.
    Frost(u8),
    /// Sets frequency of frost’s opening pulse
    FrostPulseOpen(u8),
    /// Sets frequency of frost’s closing pulse.
    FrostPulseClose(u8),
    /// Sets frequency of frost’s ramp.
    FrostRamp(u8),
    /// The fixture's prism wheel (n). Selects prisms in prism wheel (n). A
    /// different channel function sets the angle of the indexed position in the
    /// selected prism or the angular speed of its continuous rotation. This is
    /// the main attribute of prism wheel's (n) wheel control.
    Prism(u8),
    /// Selects prisms whose rotation is continuous in prism wheel (n) and
    /// controls the angular speed of the prism's spin within the same channel
    /// function.
    PrismSelectSpin(u8),
    /// Macro functions of prism wheel (n).
    PrismMacro(u8),
    /// Controls angle of indexed rotation of prisms in prism wheel (n). This is
    /// the main attribute of prism wheel's 1 wheel slot control.
    PrismPos(u8),
    /// Controls the speed and direction of continuous rotation of prisms in
    /// prism wheel (n).
    PrismPosRotate(u8),

    /// Generically predefined macros and effects of a fixture.
    Effects(u8),
    /// Frequency of running effects.
    EffectsRate(u8),
    /// Snapping or smooth look of running effects.
    EffectsFade(u8),
    /// Controls parameter (m) of effect (n).
    EffectsAdjust(u8, u8),
    /// Controls angle of indexed rotation of slot/effect in effect wheel/macro
    /// (n). This is the main attribute of effect wheel/macro (n) slot/effect
    /// control.
    EffectsPos(u8),
    /// Controls speed and direction of slot/effect in effect wheel (n).
    EffectsPosRotate(u8),
    /// Sets offset between running effects and effects 2.
    EffectsSync,
    /// Activates fixture's beam shaper.
    BeamShaper,
    /// Predefined presets for fixture's beam shaper positions.
    BeamShaperMacro,
    /// Indexing of fixture's beam shaper.
    BeamShaperPos,
    /// Continuous rotation of fixture's beam shaper.
    BeamShaperPosRotate,
    /// Controls the spread of the fixture's beam/spot.
    Zoom,
    /// Selects spot mode of zoom.
    ZoomModeSpot,
    /// Selects beam mode of zoom.
    ZoomModeBeam,
    /// Controls the image size within the defined projection. Used on digital
    /// projection based devices.
    DigitalZoom,
    /// Controls the sharpness of the fixture's spot light. Can blur or sharpen
    /// the edge of the spot.
    Focus(u8),
    /// Autofocuses functionality using presets.
    FocusAdjust(u8),
    /// Autofocuses functionality using distance.
    FocusDistance(u8),

    /// Controls the channel of a fixture.
    Control(u8),
    /// Selects different modes of intensity.
    DimmerMode,
    /// Selects different dimmer curves of the fixture.
    DimmerCurve,
    /// Close the light output under certain conditions (movement correction,
    /// gobo movement, etc.).
    BlackoutMode,
    /// Controls LED frequency.
    LedFrequency,
    /// Changes zones of LEDs.
    LedZoneMode,
    /// Controls behavior of LED pixels.
    PixelMode,
    /// Selects fixture's pan mode. Selects between a limited pan range (e.g.
    /// -270 to 270) or a continuous pan range.
    PanMode,
    /// Selects fixture's pan mode. Selects between a limited tilt range (e.g.
    /// -130 to 130) or a continuous tilt range.
    TiltMode,
    /// Selects fixture's pan/tilt mode. Selects between a limited pan/tilt
    /// range or a continuous pan/tilt range.
    PanTiltMode,
    /// Selects the fixture's position mode.
    PositionModes,
    /// Changes control between selecting, indexing, and rotating the gobos of
    /// gobo wheel (n).
    GoboWheelMode(u8),
    /// Defines whether the gobo wheel takes the shortest distance between two
    /// positions.
    GoboWheelShortcutMode,
    /// Changes control between selecting, indexing, and rotating the slots of
    /// animation wheel (n).
    AnimationWheelMode(u8),
    /// Defines whether the animation wheel takes the shortest distance between
    /// two positions.
    AnimationWheelShortcutMode,
    /// Changes control between selecting, continuous selection, half selection,
    /// random selection, color spinning, etc. in colors of color wheel (n).
    ColorMode(u8),
    /// Defines whether the color wheel takes the shortest distance between two
    /// colors.
    ColorWheelShortcutMode,
    /// Controls how Cyan is used within the fixture's cyan CMY-mixing feature.
    CyanMode,
    /// Controls how Cyan is used within the fixture's magenta CMY-mixing.
    MagentaMode,
    /// Controls how Cyan is used within the fixture's yellow CMY-mixing
    /// feature.
    YellowMode,
    /// Changes control between selecting continuous selection, half selection,
    /// random selection, color spinning, etc. in color mixing.
    ColorMixMode,
    /// Selects chromatic behavior of the device.
    ChromaticMode,
    /// Sets calibration mode (for example on/off).
    ColorCalibrationMode,
    /// Controls consistent behavior of color.
    ColorConsistency,
    /// Controls special color related functions.
    ColorControl,
    /// Controls color model (CMY/RGB/HSV…).
    ColorModelMode,
    /// Resets settings of color control channel.
    ColorSettingsReset,
    /// Controls behavior of color uniformity.
    ColorUniformity,
    /// Controls CRI settings of output.
    CriMode,
    /// Custom color related functions (save, recall..).
    CustomColor,
    /// Settings for UV stability color behavior.
    UvStability,
    /// Settings for Wavelength correction of colors.
    WavelengthCorrection,
    /// Controls if White LED is proportionally added to RGB.
    WhiteCount,
    /// Changes strobe style - strobe, pulse, random strobe, etc. - of the
    /// shutter attribute.
    StrobeMode,
    /// Changes modes of the fixture´s zoom.
    ZoomMode,
    /// Changes modes of the fixture's focus - manual or auto- focus.
    FocusMode,
    /// Changes modes of the fixture's iris - linear, strobe, pulse.
    IrisMode,
    /// Controls fan (n) mode.
    FanMode(u8),
    /// Selects follow spot control mode.
    FollowSpotMode,
    /// Changes mode to control either index or rotation of the beam effects.
    BeamEffectIndexRotateMode,
    /// Movement speed of the fixture's intensity.
    IntensityMSpeed,
    /// Movement speed of the fixture's pan/tilt.
    PositionMSpeed,
    /// Movement speed of the fixture's ColorMix presets.
    ColorMixMSpeed,
    /// Movement speed of the fixture's color wheel.
    ColorWheelSelectMSpeed,
    /// Movement speed of the fixture's gobo wheel (n).
    GoboWheelMSpeed(u8),
    /// Movement speed of the fixture's iris.
    IrisMSpeed,
    /// Movement speed of the fixture's prism wheel (n).
    PrismMSpeed(u8),
    /// Movement speed of the fixture's focus.
    FocusMSpeed,
    /// Movement speed of the fixture's frost (n).
    FrostMSpeed(u8),
    /// Movement speed of the fixture's zoom.
    ZoomMSpeed,
    /// Movement speed of the fixture's shapers.
    FrameMSpeed,
    /// General speed of fixture's features.
    GlobalMSpeed,
    /// Movement speed of the fixture's frost.
    ReflectorAdjust,
    /// Generally resets the entire fixture.
    FixtureGlobalReset,
    /// Resets the fixture's dimmer.
    DimmerReset,
    /// Resets the fixture's shutter.
    ShutterReset,
    /// Resets the fixture's beam features.
    BeamReset,
    /// Resets the fixture's color mixing system.
    ColorMixReset,
    /// Resets the fixture's color wheel.
    ColorWheelReset,
    /// Resets the fixture's focus.
    FocusReset,
    /// Resets the fixture's shapers.
    FrameReset,
    /// Resets the fixture's gobo wheel.
    GoboWheelReset,
    /// Resets the fixture's intensity.
    IntensityReset,
    /// Resets the fixture's iris.
    IrisReset,
    /// Resets the fixture's pan/tilt.
    PositionReset,
    /// Resets the fixture's pan.
    PanReset,
    /// Resets the fixture's tilt.
    TiltReset,
    /// Resets the fixture's zoom.
    ZoomReset,
    /// Resets the fixture's CTB.
    CtbReset,
    /// Resets the fixture's CTO.
    CtoReset,
    /// Resets the fixture's CTC.
    CtcReset,
    /// Resets the fixture's animation system features.
    AnimationSystemReset,
    /// Resets the fixture's calibration.
    FixtureCalibrationReset,
    /// Generally controls features of the fixture.
    Function,
    /// Controls the fixture's lamp on/lamp off feature.
    LampControl,
    /// Adjusts intensity of display.
    DisplayIntensity,
    /// Selects DMX Input.
    DmxInput,
    /// Ranges without a functionality.
    NoFeature,
    /// Fog or hazer's blower feature.
    Blower(u8),
    /// Fog or hazer's Fan feature.
    Fan(u8),
    /// Fog or hazer's Fog feature.
    Fog(u8),
    /// Fog or hazer's Haze feature.
    Haze(u8),
    /// Controls the energy consumption of the lamp.
    LampPowerMode,
    /// Controls a fixture or device fan.
    Fans,

    /// 1 of 2 shutters that shape the top/right/bottom/left of the beam.
    BladeA(u8),
    /// 2 of 2 shutters that shape the top/right/bottom/left of the beam.
    BladeB(u8),
    /// Rotates position of blade(n).
    BladeRot(u8),
    /// Rotates position of blade assembly.
    ShaperRot,
    /// Predefined presets for shaper positions.
    ShaperMacros,
    /// Speed of predefined effects on shapers.
    ShaperMacrosSpeed,
    /// 1 of 2 soft edge blades that shape the top/right/bottom/left of the
    /// beam.
    BladeSoftA(u8),
    /// 2 of 2 soft edge blades that shape the top/right/bottom/left of the
    /// beam.
    BladeSoftB(u8),
    /// 1 of 2 corners that shape the top/right/bottom/left of the beam.
    KeyStoneA(u8),
    /// 2 of 2 corners that shape the top/right/bottom/left of the beam.
    KeyStoneB(u8),

    /// Controls video features.
    Video,
    /// Selects dedicated effects which are used for media.
    VideoEffectType(u8),
    /// Controls parameter (m) of VideoEffect(n)Type.
    VideoEffectParameter(u8, u8),
    /// Selects the video camera(n).
    VideoCamera(u8),
    /// Adjusts sound volume.
    VideoSoundVolume(u8),
    /// Defines mode of video blending.
    VideoBlendMode,
    /// Defines media input source e.g. a camera input.
    InputSource,
    /// Defines field of view.
    FieldOfView,

    /// Any other non-standard attribute.
    Custom(CustomName),
}

/// The pretty name of an attribute, as shown to users.
pub open spec fn attribute_pretty(a: FixtureChannel3Attribute) -> Seq<char> {
    match a {
        FixtureChannel3Attribute::Dimmer => "Dimmer"@,
        FixtureChannel3Attribute::Pan => "Pan"@,
        FixtureChannel3Attribute::Tilt => "Tilt"@,
        FixtureChannel3Attribute::PanRotate => "Pan Rotate"@,
        FixtureChannel3Attribute::TiltRotate => "Tilt Rotate"@,
        FixtureChannel3Attribute::PositionEffect => "Position Effect"@,
        FixtureChannel3Attribute::PositionEffectRate => "Position Effect Rate"@,
        FixtureChannel3Attribute::PositionEffectFade => "Position Effect Fade"@,
        FixtureChannel3Attribute::XyzX => "X"@,
        FixtureChannel3Attribute::XyzY => "Y"@,
        FixtureChannel3Attribute::XyzZ => "Z"@,
        FixtureChannel3Attribute::RotX => "Rotation X"@,
        FixtureChannel3Attribute::RotY => "Rotation Y"@,
        FixtureChannel3Attribute::RotZ => "Rotation Z"@,
        FixtureChannel3Attribute::ScaleX => "Scale X"@,
        FixtureChannel3Attribute::ScaleY => "Scale Y"@,
        FixtureChannel3Attribute::ScaleZ => "Scale Z"@,
        FixtureChannel3Attribute::ScaleXYZ => "Scale XYZ"@,
        FixtureChannel3Attribute::Gobo(n) => "Gobo "@ + decimal(n as nat),
        FixtureChannel3Attribute::GoboSelectSpin(n) => "Gobo "@ + decimal(n as nat) + " Select Spin"@,
        FixtureChannel3Attribute::GoboSelectShake(n) => "Gobo "@ + decimal(n as nat) + " Select Shake"@,
        FixtureChannel3Attribute::GoboSelectEffects(n) => "Gobo "@ + decimal(n as nat) + " Select Effects"@,
        FixtureChannel3Attribute::GoboWheelIndex(n) => "Gobo "@ + decimal(n as nat) + " Wheel Index"@,
        FixtureChannel3Attribute::GoboWheelSpin(n) => "Gobo "@ + decimal(n as nat) + " Wheel Spin"@,
        FixtureChannel3Attribute::GoboWheelShake(n) => "Gobo "@ + decimal(n as nat) + " Wheel Shake"@,
        FixtureChannel3Attribute::GoboWheelRandom(n) => "Gobo "@ + decimal(n as nat) + " Wheel Random"@,
        FixtureChannel3Attribute::GoboWheelAudio(n) => "Gobo "@ + decimal(n as nat) + " Wheel Audio"@,
        FixtureChannel3Attribute::GoboPos(n) => "Gobo "@ + decimal(n as nat) + " Position"@,
        FixtureChannel3Attribute::GoboPosRotate(n) => "Gobo "@ + decimal(n as nat) + " Position Rotate"@,
        FixtureChannel3Attribute::GoboPosShake(n) => "Gobo "@ + decimal(n as nat) + " Position Shake"@,
        FixtureChannel3Attribute::AnimationWheel(n) => "Animation Wheel "@ + decimal(n as nat),
        FixtureChannel3Attribute::AnimationWheelAudio(n) => "Animation Wheel "@ + decimal(n as nat) + " Audio"@,
        FixtureChannel3Attribute::AnimationWheelMacro(n) => "Animation Wheel "@ + decimal(n as nat) + " Macro"@,
        FixtureChannel3Attribute::AnimationWheelRandom(n) => "Animation Wheel "@ + decimal(n as nat) + " Random"@,
        FixtureChannel3Attribute::AnimationWheelSelectEffects(n) => "Animation Wheel "@ + decimal(n as nat) + " Select Effects"@,
        FixtureChannel3Attribute::AnimationWheelSelectShake(n) => "Animation Wheel "@ + decimal(n as nat) + " Select Shake"@,
        FixtureChannel3Attribute::AnimationWheelSelectSpin(n) => "Animation Wheel "@ + decimal(n as nat) + " Select Spin"@,
        FixtureChannel3Attribute::AnimationWheelPos(n) => "Animation Wheel "@ + decimal(n as nat) + " Position"@,
        FixtureChannel3Attribute::AnimationWheelPosRotate(n) => "Animation Wheel "@ + decimal(n as nat) + " Position Rotate"@,
        FixtureChannel3Attribute::AnimationWheelPosShake(n) => "Animation Wheel "@ + decimal(n as nat) + " Position Shake"@,
        FixtureChannel3Attribute::AnimationSystem(n) => "Animation System "@ + decimal(n as nat),
        FixtureChannel3Attribute::AnimationSystemRamp(n) => "Animation System "@ + decimal(n as nat) + " Ramp"@,
        FixtureChannel3Attribute::AnimationSystemShake(n) => "Animation System "@ + decimal(n as nat) + " Shake"@,
        FixtureChannel3Attribute::AnimationSystemAudio(n) => "Animation System "@ + decimal(n as nat) + " Audio"@,
        FixtureChannel3Attribute::AnimationSystemRandom(n) => "Animation System "@ + decimal(n as nat) + " Random"@,
        FixtureChannel3Attribute::AnimationSystemPos(n) => "Animation System "@ + decimal(n as nat) + " Position"@,
        FixtureChannel3Attribute::AnimationSystemPosRotate(n) => "Animation System "@ + decimal(n as nat) + " Position Rotate"@,
        FixtureChannel3Attribute::AnimationSystemPosShake(n) => "Animation System "@ + decimal(n as nat) + " Position Shake"@,
        FixtureChannel3Attribute::AnimationSystemPosRandom(n) => "Animation System "@ + decimal(n as nat) + " Position Random"@,
        FixtureChannel3Attribute::AnimationSystemPosAudio(n) => "Animation System "@ + decimal(n as nat) + " Position Audio"@,
        FixtureChannel3Attribute::AnimationSystemMacro(n) => "Animation System "@ + decimal(n as nat) + " Macro"@,
        FixtureChannel3Attribute::MediaFolder(n) => "Media Folder "@ + decimal(n as nat),
        FixtureChannel3Attribute::MediaContent(n) => "Media Content "@ + decimal(n as nat),
        FixtureChannel3Attribute::ModelFolder(n) => "Model Folder "@ + decimal(n as nat),
        FixtureChannel3Attribute::ModelContent(n) => "Model Content "@ + decimal(n as nat),
        FixtureChannel3Attribute::PlayMode => "Play Mode"@,
        FixtureChannel3Attribute::PlayBegin => "Play Begin"@,
        FixtureChannel3Attribute::PlayEnd => "Play End"@,
        FixtureChannel3Attribute::PlaySpeed => "Play Speed"@,
        FixtureChannel3Attribute::ColorEffects(n) => "Color Effects "@ + decimal(n as nat),
        FixtureChannel3Attribute::Color(n) => "Color "@ + decimal(n as nat),
        FixtureChannel3Attribute::ColorWheelIndex(n) => "Color Wheel "@ + decimal(n as nat) + " Index"@,
        FixtureChannel3Attribute::ColorWheelSpin(n) => "Color Wheel "@ + decimal(n as nat) + " Spin"@,
        FixtureChannel3Attribute::ColorWheelRandom(n) => "Color Wheel "@ + decimal(n as nat) + " Random"@,
        FixtureChannel3Attribute::ColorWheelAudio(n) => "Color Wheel "@ + decimal(n as nat) + " Audio"@,
        FixtureChannel3Attribute::ColorAddR => "Red"@,
        FixtureChannel3Attribute::ColorAddG => "Green"@,
        FixtureChannel3Attribute::ColorAddB => "Blue"@,
        FixtureChannel3Attribute::ColorAddC => "Cyan"@,
        FixtureChannel3Attribute::ColorAddM => "Magenta"@,
        FixtureChannel3Attribute::ColorAddY => "Yellow"@,
        FixtureChannel3Attribute::ColorAddRY => "Red-Yellow"@,
        FixtureChannel3Attribute::ColorAddGY => "Green-Yellow"@,
        FixtureChannel3Attribute::ColorAddGC => "Green-Cyan"@,
        FixtureChannel3Attribute::ColorAddBC => "Blue-Cyan"@,
        FixtureChannel3Attribute::ColorAddBM => "Blue-Magenta"@,
        FixtureChannel3Attribute::ColorAddRM => "Red-Magenta"@,
        FixtureChannel3Attribute::ColorAddW => "White"@,
        FixtureChannel3Attribute::ColorAddWW => "Warm White"@,
        FixtureChannel3Attribute::ColorAddCW => "Cool White"@,
        FixtureChannel3Attribute::ColorAddUV => "UV"@,
        FixtureChannel3Attribute::ColorSubR => "Red-"@,
        FixtureChannel3Attribute::ColorSubG => "Green-"@,
        FixtureChannel3Attribute::ColorSubB => "Blue-"@,
        FixtureChannel3Attribute::ColorSubC => "Cyan-"@,
        FixtureChannel3Attribute::ColorSubM => "Magenta-"@,
        FixtureChannel3Attribute::ColorSubY => "Yellow-"@,
        FixtureChannel3Attribute::ColorMacro(n) => "Color Macro "@ + decimal(n as nat),
        FixtureChannel3Attribute::ColorMacroRate(n) => "Color Macro Rate "@ + decimal(n as nat),
        FixtureChannel3Attribute::Cto => "CTO"@,
        FixtureChannel3Attribute::Ctc => "CTC"@,
        FixtureChannel3Attribute::Ctb => "CTB"@,
        FixtureChannel3Attribute::Tint => "Tint"@,
        FixtureChannel3Attribute::HsbHue => "HSB Hue"@,
        FixtureChannel3Attribute::HsbSaturation => "HSB Saturation"@,
        FixtureChannel3Attribute::HsbBrightness => "HSB Brightness"@,
        FixtureChannel3Attribute::HsbQuality => "HSB Quality"@,
        FixtureChannel3Attribute::CieX => "CIE X"@,
        FixtureChannel3Attribute::CieY => "CIE Y"@,
        FixtureChannel3Attribute::CieBrightness => "CIE Brightness"@,
        FixtureChannel3Attribute::ColorRgbRed => "RGB Red"@,
        FixtureChannel3Attribute::ColorRgbGreen => "RGB Green"@,
        FixtureChannel3Attribute::ColorRgbBlue => "RGB Blue"@,
        FixtureChannel3Attribute::ColorRgbCyan => "RGB Cyan"@,
        FixtureChannel3Attribute::ColorRgbMagenta => "RGB Magenta"@,
        FixtureChannel3Attribute::ColorRgbYellow => "RGB Yellow"@,
        FixtureChannel3Attribute::ColorRgbQuality => "RGB Quality"@,
        FixtureChannel3Attribute::VideoBoostR => "Video Boost Red"@,
        FixtureChannel3Attribute::VideoBoostG => "Video Boost Green"@,
        FixtureChannel3Attribute::VideoBoostB => "Video Boost Blue"@,
        FixtureChannel3Attribute::VideoHueShift => "Video Hue Shift"@,
        FixtureChannel3Attribute::VideoSaturation => "Video Saturation"@,
        FixtureChannel3Attribute::VideoBrightness => "Video Brightness"@,
        FixtureChannel3Attribute::VideoContrast => "Video Contrast"@,
        FixtureChannel3Attribute::VideoKeyColorR => "Video Key Color Red"@,
        FixtureChannel3Attribute::VideoKeyColorG => "Video Key Color Green"@,
        FixtureChannel3Attribute::VideoKeyColorB => "Video Key Color Blue"@,
        FixtureChannel3Attribute::VideoKeyIntensity => "Video Key Intensity"@,
        FixtureChannel3Attribute::VideoKeyTolerance => "Video Key Tolerance"@,
        FixtureChannel3Attribute::StrobeDuration => "Strobe Duration"@,
        FixtureChannel3Attribute::StrobeRate => "Strobe Rate"@,
        FixtureChannel3Attribute::StrobeFrequency => "Strobe Frequency"@,
        FixtureChannel3Attribute::StrobeModeShutter => "Strobe Mode Shutter"@,
        FixtureChannel3Attribute::StrobeModeStrobe => "Strobe Mode Strobe"@,
        FixtureChannel3Attribute::StrobeModePulse => "Strobe Mode Pulse"@,
        FixtureChannel3Attribute::StrobeModePulseOpen => "Strobe Mode Pulse Open"@,
        FixtureChannel3Attribute::StrobeModePulseClose => "Strobe Mode Pulse Close"@,
        FixtureChannel3Attribute::StrobeModeRandom => "Strobe Mode Random"@,
        FixtureChannel3Attribute::StrobeModeRandomPulse => "Strobe Mode Random Pulse"@,
        FixtureChannel3Attribute::StrobeModeRandomPulseOpen => "Strobe Mode Random Pulse Open"@,
        FixtureChannel3Attribute::StrobeModeRandomPulseClose => "Strobe Mode Random Pulse Close"@,
        FixtureChannel3Attribute::StrobeModeEffect => "Strobe Mode Effect"@,
        FixtureChannel3Attribute::Shutter(n) => "Shutter "@ + decimal(n as nat),
        FixtureChannel3Attribute::ShutterStrobe(n) => "Shutter "@ + decimal(n as nat) + " Strobe"@,
        FixtureChannel3Attribute::ShutterStrobePulse(n) => "Shutter "@ + decimal(n as nat) + " Strobe Pulse"@,
        FixtureChannel3Attribute::ShutterStrobePulseClose(n) => "Shutter "@ + decimal(n as nat) + " Strobe Pulse Close"@,
        FixtureChannel3Attribute::ShutterStrobePulseOpen(n) => "Shutter "@ + decimal(n as nat) + " Strobe Pulse Open"@,
        FixtureChannel3Attribute::ShutterStrobeRandom(n) => "Shutter "@ + decimal(n as nat) + " Strobe Random"@,
        FixtureChannel3Attribute::ShutterStrobeRandomPulse(n) => "Shutter "@ + decimal(n as nat) + " Strobe Random Pulse"@,
        FixtureChannel3Attribute::ShutterStrobeRandomPulseClose(n) => "Shutter "@ + decimal(n as nat) + " Strobe Random Pulse Close"@,
        FixtureChannel3Attribute::ShutterStrobeRandomPulseOpen(n) => "Shutter "@ + decimal(n as nat) + " Strobe Random Pulse Open"@,
        FixtureChannel3Attribute::ShutterStrobeEffect(n) => "Shutter "@ + decimal(n as nat) + " Strobe Effect"@,
        FixtureChannel3Attribute::Iris => "Iris"@,
        FixtureChannel3Attribute::IrisStrobe => "Iris Strobe"@,
        FixtureChannel3Attribute::IrisStrobeRandom => "Iris Strobe Random"@,
        FixtureChannel3Attribute::IrisPulseClose => "Iris Pulse Close"@,
        FixtureChannel3Attribute::IrisPulseOpen => "Iris Pulse Open"@,
        FixtureChannel3Attribute::IrisRandomPulseClose => "Iris Random Pulse Close"@,
        FixtureChannel3Attribute::IrisRandomPulseOpen => "Iris Random Pulse Open"@,
        FixtureChannel3Attribute::Frost(n) => "Frost "@ + decimal(n as nat),
        FixtureChannel3Attribute::FrostPulseOpen(n) => "Frost "@ + decimal(n as nat) + " Pulse Open"@,
        FixtureChannel3Attribute::FrostPulseClose(n) => "Frost "@ + decimal(n as nat) + " Pulse Close"@,
        FixtureChannel3Attribute::FrostRamp(n) => "Frost "@ + decimal(n as nat) + " Ramp"@,
        FixtureChannel3Attribute::Prism(n) => "Prism "@ + decimal(n as nat),
        FixtureChannel3Attribute::PrismSelectSpin(n) => "Prism "@ + decimal(n as nat) + " Select Spin"@,
        FixtureChannel3Attribute::PrismMacro(n) => "Prism "@ + decimal(n as nat) + " Macro"@,
        FixtureChannel3Attribute::PrismPos(n) => "Prism "@ + decimal(n as nat) + " Position"@,
        FixtureChannel3Attribute::PrismPosRotate(n) => "Prism "@ + decimal(n as nat) + " Position Rotate"@,
        FixtureChannel3Attribute::Effects(n) => "Effects "@ + decimal(n as nat),
        FixtureChannel3Attribute::EffectsRate(n) => "Effects "@ + decimal(n as nat) + " Rate"@,
        FixtureChannel3Attribute::EffectsFade(n) => "Effects "@ + decimal(n as nat) + " Fade"@,
        FixtureChannel3Attribute::EffectsAdjust(n, m) => "Effects "@ + decimal(n as nat) + " Adjust "@ + decimal(m as nat),
        FixtureChannel3Attribute::EffectsPos(n) => "Effects "@ + decimal(n as nat) + " Position"@,
        FixtureChannel3Attribute::EffectsPosRotate(n) => "Effects "@ + decimal(n as nat) + " Position Rotate"@,
        FixtureChannel3Attribute::EffectsSync => "Effects Sync"@,
        FixtureChannel3Attribute::BeamShaper => "Beam Shaper"@,
        FixtureChannel3Attribute::BeamShaperMacro => "Beam Shaper Macro"@,
        FixtureChannel3Attribute::BeamShaperPos => "Beam Shaper Position"@,
        FixtureChannel3Attribute::BeamShaperPosRotate => "Beam Shaper Position Rotate"@,
        FixtureChannel3Attribute::Zoom => "Zoom"@,
        FixtureChannel3Attribute::ZoomModeSpot => "Zoom Mode Spot"@,
        FixtureChannel3Attribute::ZoomModeBeam => "Zoom Mode Beam"@,
        FixtureChannel3Attribute::DigitalZoom => "Digital Zoom"@,
        FixtureChannel3Attribute::Focus(n) => "Focus "@ + decimal(n as nat),
        FixtureChannel3Attribute::FocusAdjust(n) => "Focus "@ + decimal(n as nat) + " Adjust"@,
        FixtureChannel3Attribute::FocusDistance(n) => "Focus "@ + decimal(n as nat) + " Distance"@,
        FixtureChannel3Attribute::Control(n) => "Control "@ + decimal(n as nat),
        FixtureChannel3Attribute::DimmerMode => "Dimmer Mode"@,
        FixtureChannel3Attribute::DimmerCurve => "Dimmer Curve"@,
        FixtureChannel3Attribute::BlackoutMode => "Blackout Mode"@,
        FixtureChannel3Attribute::LedFrequency => "LED Frequency"@,
        FixtureChannel3Attribute::LedZoneMode => "LED Zone Mode"@,
        FixtureChannel3Attribute::PixelMode => "Pixel Mode"@,
        FixtureChannel3Attribute::PanMode => "Pan Mode"@,
        FixtureChannel3Attribute::TiltMode => "Tilt Mode"@,
        FixtureChannel3Attribute::PanTiltMode => "Pan Tilt Mode"@,
        FixtureChannel3Attribute::PositionModes => "Position Modes"@,
        FixtureChannel3Attribute::GoboWheelMode(n) => "Gobo "@ + decimal(n as nat) + " Wheel Mode"@,
        FixtureChannel3Attribute::GoboWheelShortcutMode => "Gobo Wheel Shortcut Mode"@,
        FixtureChannel3Attribute::AnimationWheelMode(n) => "Animation "@ + decimal(n as nat) + " Wheel Mode"@,
        FixtureChannel3Attribute::AnimationWheelShortcutMode => "Animation Wheel Shortcut Mode"@,
        FixtureChannel3Attribute::ColorMode(n) => "Color "@ + decimal(n as nat) + " Mode"@,
        FixtureChannel3Attribute::ColorWheelShortcutMode => "Color Wheel Shortcut Mode"@,
        FixtureChannel3Attribute::CyanMode => "Cyan Mode"@,
        FixtureChannel3Attribute::MagentaMode => "Magenta Mode"@,
        FixtureChannel3Attribute::YellowMode => "Yellow Mode"@,
        FixtureChannel3Attribute::ColorMixMode => "Color Mix Mode"@,
        FixtureChannel3Attribute::ChromaticMode => "Chromatic Mode"@,
        FixtureChannel3Attribute::ColorCalibrationMode => "Color Calibration Mode"@,
        FixtureChannel3Attribute::ColorConsistency => "Color Consistency"@,
        FixtureChannel3Attribute::ColorControl => "Color Control"@,
        FixtureChannel3Attribute::ColorModelMode => "Color Model Mode"@,
        FixtureChannel3Attribute::ColorSettingsReset => "Color Settings Reset"@,
        FixtureChannel3Attribute::ColorUniformity => "Color Uniformity"@,
        FixtureChannel3Attribute::CriMode => "CRI Mode"@,
        FixtureChannel3Attribute::CustomColor => "Custom Color"@,
        FixtureChannel3Attribute::UvStability => "UV Stability"@,
        FixtureChannel3Attribute::WavelengthCorrection => "Wavelength Correction"@,
        FixtureChannel3Attribute::WhiteCount => "White Count"@,
        FixtureChannel3Attribute::StrobeMode => "Strobe Mode"@,
        FixtureChannel3Attribute::ZoomMode => "Zoom Mode"@,
        FixtureChannel3Attribute::FocusMode => "Focus Mode"@,
        FixtureChannel3Attribute::IrisMode => "Iris Mode"@,
        FixtureChannel3Attribute::FanMode(n) => "Fan "@ + decimal(n as nat) + " Mode"@,
        FixtureChannel3Attribute::FollowSpotMode => "Follow Spot Mode"@,
        FixtureChannel3Attribute::BeamEffectIndexRotateMode => "Beam Effect Index Rotate Mode"@,
        FixtureChannel3Attribute::IntensityMSpeed => "Intensity MSpeed"@,
        FixtureChannel3Attribute::PositionMSpeed => "Position MSpeed"@,
        FixtureChannel3Attribute::ColorMixMSpeed => "Color Mix MSpeed"@,
        FixtureChannel3Attribute::ColorWheelSelectMSpeed => "Color Wheel Select MSpeed"@,
        FixtureChannel3Attribute::GoboWheelMSpeed(n) => "Gobo "@ + decimal(n as nat) + " Wheel MSpeed"@,
        FixtureChannel3Attribute::IrisMSpeed => "Iris MSpeed"@,
        FixtureChannel3Attribute::PrismMSpeed(n) => "Prism "@ + decimal(n as nat) + " MSpeed"@,
        FixtureChannel3Attribute::FocusMSpeed => "Focus MSpeed"@,
        FixtureChannel3Attribute::FrostMSpeed(n) => "Frost "@ + decimal(n as nat) + " MSpeed"@,
        FixtureChannel3Attribute::ZoomMSpeed => "Zoom MSpeed"@,
        FixtureChannel3Attribute::FrameMSpeed => "Frame MSpeed"@,
        FixtureChannel3Attribute::GlobalMSpeed => "Global MSpeed"@,
        FixtureChannel3Attribute::ReflectorAdjust => "Reflector Adjust"@,
        FixtureChannel3Attribute::FixtureGlobalReset => "Fixture Global Reset"@,
        FixtureChannel3Attribute::DimmerReset => "Dimmer Reset"@,
        FixtureChannel3Attribute::ShutterReset => "Shutter Reset"@,
        FixtureChannel3Attribute::BeamReset => "Beam Reset"@,
        FixtureChannel3Attribute::ColorMixReset => "Color Mix Reset"@,
        FixtureChannel3Attribute::ColorWheelReset => "Color Wheel Reset"@,
        FixtureChannel3Attribute::FocusReset => "Focus Reset"@,
        FixtureChannel3Attribute::FrameReset => "Frame Reset"@,
        FixtureChannel3Attribute::GoboWheelReset => "Gobo Wheel Reset"@,
        FixtureChannel3Attribute::IntensityReset => "Intensity Reset"@,
        FixtureChannel3Attribute::IrisReset => "Iris Reset"@,
        FixtureChannel3Attribute::PositionReset => "Position Reset"@,
        FixtureChannel3Attribute::PanReset => "Pan Reset"@,
        FixtureChannel3Attribute::TiltReset => "Tilt Reset"@,
        FixtureChannel3Attribute::ZoomReset => "Zoom Reset"@,
        FixtureChannel3Attribute::CtbReset => "CTB Reset"@,
        FixtureChannel3Attribute::CtoReset => "CTO Reset"@,
        FixtureChannel3Attribute::CtcReset => "CTC Reset"@,
        FixtureChannel3Attribute::AnimationSystemReset => "Animation System Reset"@,
        FixtureChannel3Attribute::FixtureCalibrationReset => "Fixture Calibration Reset"@,
        FixtureChannel3Attribute::Function => "Function"@,
        FixtureChannel3Attribute::LampControl => "Lamp Control"@,
        FixtureChannel3Attribute::DisplayIntensity => "Display Intensity"@,
        FixtureChannel3Attribute::DmxInput => "DMX Input"@,
        FixtureChannel3Attribute::NoFeature => "No Feature"@,
        FixtureChannel3Attribute::Blower(n) => "Blower "@ + decimal(n as nat),
        FixtureChannel3Attribute::Fan(n) => "Fan "@ + decimal(n as nat),
        FixtureChannel3Attribute::Fog(n) => "Fog "@ + decimal(n as nat),
        FixtureChannel3Attribute::Haze(n) => "Haze "@ + decimal(n as nat),
        FixtureChannel3Attribute::LampPowerMode => "Lamp Power Mode"@,
        FixtureChannel3Attribute::Fans => "Fans"@,
        FixtureChannel3Attribute::BladeA(n) => "Blade "@ + decimal(n as nat) + " A"@,
        FixtureChannel3Attribute::BladeB(n) => "Blade "@ + decimal(n as nat) + " B"@,
        FixtureChannel3Attribute::BladeRot(n) => "Blade "@ + decimal(n as nat) + " Rotation"@,
        FixtureChannel3Attribute::ShaperRot => "Shaper Rotation"@,
        FixtureChannel3Attribute::ShaperMacros => "Shaper Macros"@,
        FixtureChannel3Attribute::ShaperMacrosSpeed => "Shaper Macros Speed"@,
        FixtureChannel3Attribute::BladeSoftA(n) => "Blade Soft "@ + decimal(n as nat) + " A"@,
        FixtureChannel3Attribute::BladeSoftB(n) => "Blade Soft "@ + decimal(n as nat) + " B"@,
        FixtureChannel3Attribute::KeyStoneA(n) => "Keystone "@ + decimal(n as nat) + " A"@,
        FixtureChannel3Attribute::KeyStoneB(n) => "Keystone "@ + decimal(n as nat) + " B"@,
        FixtureChannel3Attribute::Video => "Video"@,
        FixtureChannel3Attribute::VideoEffectType(n) => "Video Effect "@ + decimal(n as nat) + " Type"@,
        FixtureChannel3Attribute::VideoEffectParameter(n, m) => "Video Effect "@ + decimal(n as nat) + " Parameter "@ + decimal(m as nat),
        FixtureChannel3Attribute::VideoCamera(n) => "Video Camera "@ + decimal(n as nat),
        FixtureChannel3Attribute::VideoSoundVolume(n) => "Video Sound Volume "@ + decimal(n as nat),
        FixtureChannel3Attribute::VideoBlendMode => "Video Blend Mode"@,
        FixtureChannel3Attribute::InputSource => "Input Source"@,
        FixtureChannel3Attribute::FieldOfView => "Field of View"@,
        FixtureChannel3Attribute::Custom(name) => name@,
    }
}

/// The GDTF name of an attribute (its text form).
pub open spec fn attribute_text(a: FixtureChannel3Attribute) -> Seq<char> {
    match a {
        FixtureChannel3Attribute::Dimmer => "Dimmer"@,
        FixtureChannel3Attribute::Pan => "Pan"@,
        FixtureChannel3Attribute::Tilt => "Tilt"@,
        FixtureChannel3Attribute::PanRotate => "PanRotate"@,
        FixtureChannel3Attribute::TiltRotate => "TiltRotate"@,
        FixtureChannel3Attribute::PositionEffect => "PositionEffect"@,
        FixtureChannel3Attribute::PositionEffectRate => "PositionEffectRate"@,
        FixtureChannel3Attribute::PositionEffectFade => "PositionEffectFade"@,
        FixtureChannel3Attribute::XyzX => "XYZ_X"@,
        FixtureChannel3Attribute::XyzY => "XYZ_Y"@,
        FixtureChannel3Attribute::XyzZ => "XYZ_Z"@,
        FixtureChannel3Attribute::RotX => "Rot_X"@,
        FixtureChannel3Attribute::RotY => "Rot_Y"@,
        FixtureChannel3Attribute::RotZ => "Rot_Z"@,
        FixtureChannel3Attribute::ScaleX => "Scale_X"@,
        FixtureChannel3Attribute::ScaleY => "Scale_Y"@,
        FixtureChannel3Attribute::ScaleZ => "Scale_Z"@,
        FixtureChannel3Attribute::ScaleXYZ => "Scale_XYZ"@,
        FixtureChannel3Attribute::Gobo(n) => "Gobo"@ + decimal(n as nat),
        FixtureChannel3Attribute::GoboSelectSpin(n) => "Gobo"@ + decimal(n as nat) + "SelectSpin"@,
        FixtureChannel3Attribute::GoboSelectShake(n) => "Gobo"@ + decimal(n as nat) + "SelectShake"@,
        FixtureChannel3Attribute::GoboSelectEffects(n) => "Gobo"@ + decimal(n as nat) + "SelectEffects"@,
        FixtureChannel3Attribute::GoboWheelIndex(n) => "Gobo"@ + decimal(n as nat) + "WheelIndex"@,
        FixtureChannel3Attribute::GoboWheelSpin(n) => "Gobo"@ + decimal(n as nat) + "WheelSpin"@,
        FixtureChannel3Attribute::GoboWheelShake(n) => "Gobo"@ + decimal(n as nat) + "WheelShake"@,
        FixtureChannel3Attribute::GoboWheelRandom(n) => "Gobo"@ + decimal(n as nat) + "WheelRandom"@,
        FixtureChannel3Attribute::GoboWheelAudio(n) => "Gobo"@ + decimal(n as nat) + "WheelAudio"@,
        FixtureChannel3Attribute::GoboPos(n) => "Gobo"@ + decimal(n as nat) + "Pos"@,
        FixtureChannel3Attribute::GoboPosRotate(n) => "Gobo"@ + decimal(n as nat) + "PosRotate"@,
        FixtureChannel3Attribute::GoboPosShake(n) => "Gobo"@ + decimal(n as nat) + "PosShake"@,
        FixtureChannel3Attribute::AnimationWheel(n) => "AnimationWheel"@ + decimal(n as nat),
        FixtureChannel3Attribute::AnimationWheelAudio(n) => "AnimationWheel"@ + decimal(n as nat) + "Audio"@,
        FixtureChannel3Attribute::AnimationWheelMacro(n) => "AnimationWheel"@ + decimal(n as nat) + "Macro"@,
        FixtureChannel3Attribute::AnimationWheelRandom(n) => "AnimationWheel"@ + decimal(n as nat) + "Random"@,
        FixtureChannel3Attribute::AnimationWheelSelectEffects(n) => "AnimationWheel"@ + decimal(n as nat) + "SelectEffects"@,
        FixtureChannel3Attribute::AnimationWheelSelectShake(n) => "AnimationWheel"@ + decimal(n as nat) + "SelectShake"@,
        FixtureChannel3Attribute::AnimationWheelSelectSpin(n) => "AnimationWheel"@ + decimal(n as nat) + "SelectSpin"@,
        FixtureChannel3Attribute::AnimationWheelPos(n) => "AnimationWheel"@ + decimal(n as nat) + "Pos"@,
        FixtureChannel3Attribute::AnimationWheelPosRotate(n) => "AnimationWheel"@ + decimal(n as nat) + "PosRotate"@,
        FixtureChannel3Attribute::AnimationWheelPosShake(n) => "AnimationWheel"@ + decimal(n as nat) + "PosShake"@,
        FixtureChannel3Attribute::AnimationSystem(n) => "AnimationSystem"@ + decimal(n as nat),
        FixtureChannel3Attribute::AnimationSystemRamp(n) => "AnimationSystem"@ + decimal(n as nat) + "Ramp"@,
        FixtureChannel3Attribute::AnimationSystemShake(n) => "AnimationSystem"@ + decimal(n as nat) + "Shake"@,
        FixtureChannel3Attribute::AnimationSystemAudio(n) => "AnimationSystem"@ + decimal(n as nat) + "Audio"@,
        FixtureChannel3Attribute::AnimationSystemRandom(n) => "AnimationSystem"@ + decimal(n as nat) + "Random"@,
        FixtureChannel3Attribute::AnimationSystemPos(n) => "AnimationSystem"@ + decimal(n as nat) + "Pos"@,
        FixtureChannel3Attribute::AnimationSystemPosRotate(n) => "AnimationSystem"@ + decimal(n as nat) + "PosRotate"@,
        FixtureChannel3Attribute::AnimationSystemPosShake(n) => "AnimationSystem"@ + decimal(n as nat) + "PosShake"@,
        FixtureChannel3Attribute::AnimationSystemPosRandom(n) => "AnimationSystem"@ + decimal(n as nat) + "PosRandom"@,
        FixtureChannel3Attribute::AnimationSystemPosAudio(n) => "AnimationSystem"@ + decimal(n as nat) + "PosAudio"@,
        FixtureChannel3Attribute::AnimationSystemMacro(n) => "AnimationSystem"@ + decimal(n as nat) + "Macro"@,
        FixtureChannel3Attribute::MediaFolder(n) => "MediaFolder"@ + decimal(n as nat),
        FixtureChannel3Attribute::MediaContent(n) => "MediaContent"@ + decimal(n as nat),
        FixtureChannel3Attribute::ModelFolder(n) => "ModelFolder"@ + decimal(n as nat),
        FixtureChannel3Attribute::ModelContent(n) => "ModelContent"@ + decimal(n as nat),
        FixtureChannel3Attribute::PlayMode => "PlayMode"@,
        FixtureChannel3Attribute::PlayBegin => "PlayBegin"@,
        FixtureChannel3Attribute::PlayEnd => "PlayEnd"@,
        FixtureChannel3Attribute::PlaySpeed => "PlaySpeed"@,
        FixtureChannel3Attribute::ColorEffects(n) => "ColorEffects"@ + decimal(n as nat),
        FixtureChannel3Attribute::Color(n) => "Color"@ + decimal(n as nat),
        FixtureChannel3Attribute::ColorWheelIndex(n) => "ColorWheel"@ + decimal(n as nat) + "Index"@,
        FixtureChannel3Attribute::ColorWheelSpin(n) => "ColorWheel"@ + decimal(n as nat) + "Spin"@,
        FixtureChannel3Attribute::ColorWheelRandom(n) => "ColorWheel"@ + decimal(n as nat) + "Random"@,
        FixtureChannel3Attribute::ColorWheelAudio(n) => "ColorWheel"@ + decimal(n as nat) + "Audio"@,
        FixtureChannel3Attribute::ColorAddR => "ColorAdd_R"@,
        FixtureChannel3Attribute::ColorAddG => "ColorAdd_G"@,
        FixtureChannel3Attribute::ColorAddB => "ColorAdd_B"@,
        FixtureChannel3Attribute::ColorAddC => "ColorAdd_C"@,
        FixtureChannel3Attribute::ColorAddM => "ColorAdd_M"@,
        FixtureChannel3Attribute::ColorAddY => "ColorAdd_Y"@,
        FixtureChannel3Attribute::ColorAddRY => "ColorAdd_RY"@,
        FixtureChannel3Attribute::ColorAddGY => "ColorAdd_GY"@,
        FixtureChannel3Attribute::ColorAddGC => "ColorAdd_GC"@,
        FixtureChannel3Attribute::ColorAddBC => "ColorAdd_BC"@,
        FixtureChannel3Attribute::ColorAddBM => "ColorAdd_BM"@,
        FixtureChannel3Attribute::ColorAddRM => "ColorAdd_RM"@,
        FixtureChannel3Attribute::ColorAddW => "ColorAdd_W"@,
        FixtureChannel3Attribute::ColorAddWW => "ColorAdd_WW"@,
        FixtureChannel3Attribute::ColorAddCW => "ColorAdd_CW"@,
        FixtureChannel3Attribute::ColorAddUV => "ColorAdd_UV"@,
        FixtureChannel3Attribute::ColorSubR => "ColorSub_R"@,
        FixtureChannel3Attribute::ColorSubG => "ColorSub_G"@,
        FixtureChannel3Attribute::ColorSubB => "ColorSub_B"@,
        FixtureChannel3Attribute::ColorSubC => "ColorSub_C"@,
        FixtureChannel3Attribute::ColorSubM => "ColorSub_M"@,
        FixtureChannel3Attribute::ColorSubY => "ColorSub_Y"@,
        FixtureChannel3Attribute::ColorMacro(n) => "ColorMacro"@ + decimal(n as nat),
        FixtureChannel3Attribute::ColorMacroRate(n) => "ColorMacroRate"@ + decimal(n as nat),
        FixtureChannel3Attribute::Cto => "CTO"@,
        FixtureChannel3Attribute::Ctc => "CTC"@,
        FixtureChannel3Attribute::Ctb => "CTB"@,
        FixtureChannel3Attribute::Tint => "Tint"@,
        FixtureChannel3Attribute::HsbHue => "HSB_Hue"@,
        FixtureChannel3Attribute::HsbSaturation => "HSB_Saturation"@,
        FixtureChannel3Attribute::HsbBrightness => "HSB_Brightness"@,
        FixtureChannel3Attribute::HsbQuality => "HSB_Quality"@,
        FixtureChannel3Attribute::CieX => "CIE_X"@,
        FixtureChannel3Attribute::CieY => "CIE_Y"@,
        FixtureChannel3Attribute::CieBrightness => "CIE_Brightness"@,
        FixtureChannel3Attribute::ColorRgbRed => "ColorRGB_Red"@,
        FixtureChannel3Attribute::ColorRgbGreen => "ColorRGB_Green"@,
        FixtureChannel3Attribute::ColorRgbBlue => "ColorRGB_Blue"@,
        FixtureChannel3Attribute::ColorRgbCyan => "ColorRGB_Cyan"@,
        FixtureChannel3Attribute::ColorRgbMagenta => "ColorRGB_Magenta"@,
        FixtureChannel3Attribute::ColorRgbYellow => "ColorRGB_Yellow"@,
        FixtureChannel3Attribute::ColorRgbQuality => "ColorRGB_Quality"@,
        FixtureChannel3Attribute::VideoBoostR => "VideoBoost_R"@,
        FixtureChannel3Attribute::VideoBoostG => "VideoBoost_G"@,
        FixtureChannel3Attribute::VideoBoostB => "VideoBoost_B"@,
        FixtureChannel3Attribute::VideoHueShift => "VideoHueShift"@,
        FixtureChannel3Attribute::VideoSaturation => "VideoSaturation"@,
        FixtureChannel3Attribute::VideoBrightness => "VideoBrightness"@,
        FixtureChannel3Attribute::VideoContrast => "VideoContrast"@,
        FixtureChannel3Attribute::VideoKeyColorR => "VideoKeyColor_R"@,
        FixtureChannel3Attribute::VideoKeyColorG => "VideoKeyColor_G"@,
        FixtureChannel3Attribute::VideoKeyColorB => "VideoKeyColor_B"@,
        FixtureChannel3Attribute::VideoKeyIntensity => "VideoKeyIntensity"@,
        FixtureChannel3Attribute::VideoKeyTolerance => "VideoKeyTolerance"@,
        FixtureChannel3Attribute::StrobeDuration => "StrobeDuration"@,
        FixtureChannel3Attribute::StrobeRate => "StrobeRate"@,
        FixtureChannel3Attribute::StrobeFrequency => "StrobeFrequency"@,
        FixtureChannel3Attribute::StrobeModeShutter => "StrobeModeShutter"@,
        FixtureChannel3Attribute::StrobeModeStrobe => "StrobeModeStrobe"@,
        FixtureChannel3Attribute::StrobeModePulse => "StrobeModePulse"@,
        FixtureChannel3Attribute::StrobeModePulseOpen => "StrobeModePulseOpen"@,
        FixtureChannel3Attribute::StrobeModePulseClose => "StrobeModePulseClose"@,
        FixtureChannel3Attribute::StrobeModeRandom => "StrobeModeRandom"@,
        FixtureChannel3Attribute::StrobeModeRandomPulse => "StrobeModeRandomPulse"@,
        FixtureChannel3Attribute::StrobeModeRandomPulseOpen => "StrobeModeRandomPulseOpen"@,
        FixtureChannel3Attribute::StrobeModeRandomPulseClose => "StrobeModeRandomPulseClose"@,
        FixtureChannel3Attribute::StrobeModeEffect => "StrobeModeEffect"@,
        FixtureChannel3Attribute::Shutter(n) => "Shutter"@ + decimal(n as nat),
        FixtureChannel3Attribute::ShutterStrobe(n) => "Shutter"@ + decimal(n as nat) + "Strobe"@,
        FixtureChannel3Attribute::ShutterStrobePulse(n) => "Shutter"@ + decimal(n as nat) + "StrobePulse"@,
        FixtureChannel3Attribute::ShutterStrobePulseClose(n) => "Shutter"@ + decimal(n as nat) + "StrobePulseClose"@,
        FixtureChannel3Attribute::ShutterStrobePulseOpen(n) => "Shutter"@ + decimal(n as nat) + "StrobePulseOpen"@,
        FixtureChannel3Attribute::ShutterStrobeRandom(n) => "Shutter"@ + decimal(n as nat) + "StrobeRandom"@,
        FixtureChannel3Attribute::ShutterStrobeRandomPulse(n) => "Shutter"@ + decimal(n as nat) + "StrobeRandomPulse"@,
        FixtureChannel3Attribute::ShutterStrobeRandomPulseClose(n) => "Shutter"@ + decimal(n as nat) + "StrobeRandomPulseClose"@,
        FixtureChannel3Attribute::ShutterStrobeRandomPulseOpen(n) => "Shutter"@ + decimal(n as nat) + "StrobeRandomPulseOpen"@,
        FixtureChannel3Attribute::ShutterStrobeEffect(n) => "Shutter"@ + decimal(n as nat) + "StrobeEffect"@,
        FixtureChannel3Attribute::Iris => "Iris"@,
        FixtureChannel3Attribute::IrisStrobe => "IrisStrobe"@,
        FixtureChannel3Attribute::IrisStrobeRandom => "IrisStrobeRandom"@,
        FixtureChannel3Attribute::IrisPulseClose => "IrisPulseClose"@,
        FixtureChannel3Attribute::IrisPulseOpen => "IrisPulseOpen"@,
        FixtureChannel3Attribute::IrisRandomPulseClose => "IrisRandomPulseClose"@,
        FixtureChannel3Attribute::IrisRandomPulseOpen => "IrisRandomPulseOpen"@,
        FixtureChannel3Attribute::Frost(n) => "Frost"@ + decimal(n as nat),
        FixtureChannel3Attribute::FrostPulseOpen(n) => "Frost"@ + decimal(n as nat) + "PulseOpen"@,
        FixtureChannel3Attribute::FrostPulseClose(n) => "Frost"@ + decimal(n as nat) + "PulseClose"@,
        FixtureChannel3Attribute::FrostRamp(n) => "Frost"@ + decimal(n as nat) + "Ramp"@,
        FixtureChannel3Attribute::Prism(n) => "Prism"@ + decimal(n as nat),
        FixtureChannel3Attribute::PrismSelectSpin(n) => "Prism"@ + decimal(n as nat) + "SelectSpin"@,
        FixtureChannel3Attribute::PrismMacro(n) => "Prism"@ + decimal(n as nat) + "Macro"@,
        FixtureChannel3Attribute::PrismPos(n) => "Prism"@ + decimal(n as nat) + "Pos"@,
        FixtureChannel3Attribute::PrismPosRotate(n) => "Prism"@ + decimal(n as nat) + "PosRotate"@,
        FixtureChannel3Attribute::Effects(n) => "Effects"@ + decimal(n as nat),
        FixtureChannel3Attribute::EffectsRate(n) => "Effects"@ + decimal(n as nat) + "Rate"@,
        FixtureChannel3Attribute::EffectsFade(n) => "Effects"@ + decimal(n as nat) + "Fade"@,
        FixtureChannel3Attribute::EffectsAdjust(n, m) => "Effects"@ + decimal(n as nat) + "Adjust"@ + decimal(m as nat),
        FixtureChannel3Attribute::EffectsPos(n) => "Effects"@ + decimal(n as nat) + "Pos"@,
        FixtureChannel3Attribute::EffectsPosRotate(n) => "Effects"@ + decimal(n as nat) + "PosRotate"@,
        FixtureChannel3Attribute::EffectsSync => "EffectsSync"@,
        FixtureChannel3Attribute::BeamShaper => "BeamShaper"@,
        FixtureChannel3Attribute::BeamShaperMacro => "BeamShaperMacro"@,
        FixtureChannel3Attribute::BeamShaperPos => "BeamShaperPos"@,
        FixtureChannel3Attribute::BeamShaperPosRotate => "BeamShaperPosRotate"@,
        FixtureChannel3Attribute::Zoom => "Zoom"@,
        FixtureChannel3Attribute::ZoomModeSpot => "ZoomModeSpot"@,
        FixtureChannel3Attribute::ZoomModeBeam => "ZoomModeBeam"@,
        FixtureChannel3Attribute::DigitalZoom => "DigitalZoom"@,
        FixtureChannel3Attribute::Focus(n) => "Focus"@ + decimal(n as nat),
        FixtureChannel3Attribute::FocusAdjust(n) => "Focus"@ + decimal(n as nat) + "Adjust"@,
        FixtureChannel3Attribute::FocusDistance(n) => "Focus"@ + decimal(n as nat) + "Distance"@,
        FixtureChannel3Attribute::Control(n) => "Control"@ + decimal(n as nat),
        FixtureChannel3Attribute::DimmerMode => "DimmerMode"@,
        FixtureChannel3Attribute::DimmerCurve => "DimmerCurve"@,
        FixtureChannel3Attribute::BlackoutMode => "BlackoutMode"@,
        FixtureChannel3Attribute::LedFrequency => "LedFrequency"@,
        FixtureChannel3Attribute::LedZoneMode => "LedZoneMode"@,
        FixtureChannel3Attribute::PixelMode => "PixelMode"@,
        FixtureChannel3Attribute::PanMode => "PanMode"@,
        FixtureChannel3Attribute::TiltMode => "TiltMode"@,
        FixtureChannel3Attribute::PanTiltMode => "PanTiltMode"@,
        FixtureChannel3Attribute::PositionModes => "PositionModes"@,
        FixtureChannel3Attribute::GoboWheelMode(n) => "Gobo"@ + decimal(n as nat) + "WheelMode"@,
        FixtureChannel3Attribute::GoboWheelShortcutMode => "GoboWheelShortcutMode"@,
        FixtureChannel3Attribute::AnimationWheelMode(n) => "Animation"@ + decimal(n as nat) + "WheelMode"@,
        FixtureChannel3Attribute::AnimationWheelShortcutMode => "AnimationWheelShortcutMode"@,
        FixtureChannel3Attribute::ColorMode(n) => "Color"@ + decimal(n as nat) + "Mode"@,
        FixtureChannel3Attribute::ColorWheelShortcutMode => "ColorWheelShortcutMode"@,
        FixtureChannel3Attribute::CyanMode => "CyanMode"@,
        FixtureChannel3Attribute::MagentaMode => "MagentaMode"@,
        FixtureChannel3Attribute::YellowMode => "YellowMode"@,
        FixtureChannel3Attribute::ColorMixMode => "ColorMixMode"@,
        FixtureChannel3Attribute::ChromaticMode => "ChromaticMode"@,
        FixtureChannel3Attribute::ColorCalibrationMode => "ColorCalibrationMode"@,
        FixtureChannel3Attribute::ColorConsistency => "ColorConsistency"@,
        FixtureChannel3Attribute::ColorControl => "ColorControl"@,
        FixtureChannel3Attribute::ColorModelMode => "ColorModelMode"@,
        FixtureChannel3Attribute::ColorSettingsReset => "ColorSettingsReset"@,
        FixtureChannel3Attribute::ColorUniformity => "ColorUniformity"@,
        FixtureChannel3Attribute::CriMode => "CriMode"@,
        FixtureChannel3Attribute::CustomColor => "CustomColor"@,
        FixtureChannel3Attribute::UvStability => "UvStability"@,
        FixtureChannel3Attribute::WavelengthCorrection => "WavelengthCorrection"@,
        FixtureChannel3Attribute::WhiteCount => "WhiteCount"@,
        FixtureChannel3Attribute::StrobeMode => "StrobeMode"@,
        FixtureChannel3Attribute::ZoomMode => "ZoomMode"@,
        FixtureChannel3Attribute::FocusMode => "FocusMode"@,
        FixtureChannel3Attribute::IrisMode => "IrisMode"@,
        FixtureChannel3Attribute::FanMode(n) => "Fan"@ + decimal(n as nat) + "Mode"@,
        FixtureChannel3Attribute::FollowSpotMode => "FollowSpotMode"@,
        FixtureChannel3Attribute::BeamEffectIndexRotateMode => "BeamEffectIndexRotateMode"@,
        FixtureChannel3Attribute::IntensityMSpeed => "IntensityMSpeed"@,
        FixtureChannel3Attribute::PositionMSpeed => "PositionMSpeed"@,
        FixtureChannel3Attribute::ColorMixMSpeed => "ColorMixMSpeed"@,
        FixtureChannel3Attribute::ColorWheelSelectMSpeed => "ColorWheelSelectMSpeed"@,
        FixtureChannel3Attribute::GoboWheelMSpeed(n) => "Gobo"@ + decimal(n as nat) + "WheelMSpeed"@,
        FixtureChannel3Attribute::IrisMSpeed => "IrisMSpeed"@,
        FixtureChannel3Attribute::PrismMSpeed(n) => "Prism"@ + decimal(n as nat) + "MSpeed"@,
        FixtureChannel3Attribute::FocusMSpeed => "FocusMSpeed"@,
        FixtureChannel3Attribute::FrostMSpeed(n) => "Frost"@ + decimal(n as nat) + "MSpeed"@,
        FixtureChannel3Attribute::ZoomMSpeed => "ZoomMSpeed"@,
        FixtureChannel3Attribute::FrameMSpeed => "FrameMSpeed"@,
        FixtureChannel3Attribute::GlobalMSpeed => "GlobalMSpeed"@,
        FixtureChannel3Attribute::ReflectorAdjust => "ReflectorAdjust"@,
        FixtureChannel3Attribute::FixtureGlobalReset => "FixtureGlobalReset"@,
        FixtureChannel3Attribute::DimmerReset => "DimmerReset"@,
        FixtureChannel3Attribute::ShutterReset => "ShutterReset"@,
        FixtureChannel3Attribute::BeamReset => "BeamReset"@,
        FixtureChannel3Attribute::ColorMixReset => "ColorMixReset"@,
        FixtureChannel3Attribute::ColorWheelReset => "ColorWheelReset"@,
        FixtureChannel3Attribute::FocusReset => "FocusReset"@,
        FixtureChannel3Attribute::FrameReset => "FrameReset"@,
        FixtureChannel3Attribute::GoboWheelReset => "GoboWheelReset"@,
        FixtureChannel3Attribute::IntensityReset => "IntensityReset"@,
        FixtureChannel3Attribute::IrisReset => "IrisReset"@,
        FixtureChannel3Attribute::PositionReset => "PositionReset"@,
        FixtureChannel3Attribute::PanReset => "PanReset"@,
        FixtureChannel3Attribute::TiltReset => "TiltReset"@,
        FixtureChannel3Attribute::ZoomReset => "ZoomReset"@,
        FixtureChannel3Attribute::CtbReset => "CTBReset"@,
        FixtureChannel3Attribute::CtoReset => "CTOReset"@,
        FixtureChannel3Attribute::CtcReset => "CTCReset"@,
        FixtureChannel3Attribute::AnimationSystemReset => "AnimationSystemReset"@,
        FixtureChannel3Attribute::FixtureCalibrationReset => "FixtureCalibrationReset"@,
        FixtureChannel3Attribute::Function => "Function"@,
        FixtureChannel3Attribute::LampControl => "LampControl"@,
        FixtureChannel3Attribute::DisplayIntensity => "DisplayIntensity"@,
        FixtureChannel3Attribute::DmxInput => "DMXInput"@,
        FixtureChannel3Attribute::NoFeature => "NoFeature"@,
        FixtureChannel3Attribute::Blower(n) => "Blower"@ + decimal(n as nat),
        FixtureChannel3Attribute::Fan(n) => "Fan"@ + decimal(n as nat),
        FixtureChannel3Attribute::Fog(n) => "Fog"@ + decimal(n as nat),
        FixtureChannel3Attribute::Haze(n) => "Haze"@ + decimal(n as nat),
        FixtureChannel3Attribute::LampPowerMode => "LampPowerMode"@,
        FixtureChannel3Attribute::Fans => "Fans"@,
        FixtureChannel3Attribute::BladeA(n) => "Blade"@ + decimal(n as nat) + "A"@,
        FixtureChannel3Attribute::BladeB(n) => "Blade"@ + decimal(n as nat) + "B"@,
        FixtureChannel3Attribute::BladeRot(n) => "Blade"@ + decimal(n as nat) + "Rot"@,
        FixtureChannel3Attribute::ShaperRot => "ShaperRot"@,
        FixtureChannel3Attribute::ShaperMacros => "ShaperMacros"@,
        FixtureChannel3Attribute::ShaperMacrosSpeed => "ShaperMacrosSpeed"@,
        FixtureChannel3Attribute::BladeSoftA(n) => "BladeSoft"@ + decimal(n as nat) + "A"@,
        FixtureChannel3Attribute::BladeSoftB(n) => "BladeSoft"@ + decimal(n as nat) + "B"@,
        FixtureChannel3Attribute::KeyStoneA(n) => "KeyStone"@ + decimal(n as nat) + "A"@,
        FixtureChannel3Attribute::KeyStoneB(n) => "KeyStone"@ + decimal(n as nat) + "B"@,
        FixtureChannel3Attribute::Video => "Video"@,
        FixtureChannel3Attribute::VideoEffectType(n) => "VideoEffect"@ + decimal(n as nat) + "Type"@,
        FixtureChannel3Attribute::VideoEffectParameter(n, m) => "VideoEffect"@ + decimal(n as nat) + "Parameter"@ + decimal(m as nat),
        FixtureChannel3Attribute::VideoCamera(n) => "VideoCamera"@ + decimal(n as nat),
        FixtureChannel3Attribute::VideoSoundVolume(n) => "VideoSoundVolume"@ + decimal(n as nat),
        FixtureChannel3Attribute::VideoBlendMode => "VideoBlendMode"@,
        FixtureChannel3Attribute::InputSource => "InputSource"@,
        FixtureChannel3Attribute::FieldOfView => "FieldOfView"@,
        FixtureChannel3Attribute::Custom(name) => name@,
    }
}

/// The feature type an attribute belongs to; custom attributes have none.
pub open spec fn attribute_feature_type(a: FixtureChannel3Attribute) -> Option<FixtureChannel3FeatureType> {
    match a {
        FixtureChannel3Attribute::Dimmer => Some(FixtureChannel3FeatureType::Dimmer),
        FixtureChannel3Attribute::Pan | FixtureChannel3Attribute::Tilt | FixtureChannel3Attribute::PanRotate | FixtureChannel3Attribute::TiltRotate | FixtureChannel3Attribute::PositionEffect | FixtureChannel3Attribute::PositionEffectRate | FixtureChannel3Attribute::PositionEffectFade => Some(FixtureChannel3FeatureType::PanTilt),
        FixtureChannel3Attribute::XyzX | FixtureChannel3Attribute::XyzY | FixtureChannel3Attribute::XyzZ => Some(FixtureChannel3FeatureType::Xyz),
        FixtureChannel3Attribute::RotX | FixtureChannel3Attribute::RotY | FixtureChannel3Attribute::RotZ => Some(FixtureChannel3FeatureType::Rotation),
        FixtureChannel3Attribute::ScaleX | FixtureChannel3Attribute::ScaleY | FixtureChannel3Attribute::ScaleZ | FixtureChannel3Attribute::ScaleXYZ => Some(FixtureChannel3FeatureType::Scale),
        FixtureChannel3Attribute::Gobo(_) | FixtureChannel3Attribute::GoboSelectSpin(_) | FixtureChannel3Attribute::GoboSelectShake(_) | FixtureChannel3Attribute::GoboSelectEffects(_) | FixtureChannel3Attribute::GoboWheelIndex(_) | FixtureChannel3Attribute::GoboWheelSpin(_) | FixtureChannel3Attribute::GoboWheelShake(_) | FixtureChannel3Attribute::GoboWheelRandom(_) | FixtureChannel3Attribute::GoboWheelAudio(_) | FixtureChannel3Attribute::GoboPos(_) | FixtureChannel3Attribute::GoboPosRotate(_) | FixtureChannel3Attribute::GoboPosShake(_) | FixtureChannel3Attribute::AnimationWheel(_) | FixtureChannel3Attribute::AnimationWheelAudio(_) | FixtureChannel3Attribute::AnimationWheelMacro(_) | FixtureChannel3Attribute::AnimationWheelRandom(_) | FixtureChannel3Attribute::AnimationWheelSelectEffects(_) | FixtureChannel3Attribute::AnimationWheelSelectShake(_) | FixtureChannel3Attribute::AnimationWheelSelectSpin(_) | FixtureChannel3Attribute::AnimationWheelPos(_) | FixtureChannel3Attribute::AnimationWheelPosRotate(_) | FixtureChannel3Attribute::AnimationWheelPosShake(_) | FixtureChannel3Attribute::AnimationSystem(_) | FixtureChannel3Attribute::AnimationSystemRamp(_) | FixtureChannel3Attribute::AnimationSystemShake(_) | FixtureChannel3Attribute::AnimationSystemAudio(_) | FixtureChannel3Attribute::AnimationSystemRandom(_) | FixtureChannel3Attribute::AnimationSystemPos(_) | FixtureChannel3Attribute::AnimationSystemPosRotate(_) | FixtureChannel3Attribute::AnimationSystemPosShake(_) | FixtureChannel3Attribute::AnimationSystemPosRandom(_) | FixtureChannel3Attribute::AnimationSystemPosAudio(_) | FixtureChannel3Attribute::AnimationSystemMacro(_) => Some(FixtureChannel3FeatureType::Gobo),
        FixtureChannel3Attribute::PlayMode | FixtureChannel3Attribute::MediaFolder(_) | FixtureChannel3Attribute::MediaContent(_) | FixtureChannel3Attribute::ModelFolder(_) | FixtureChannel3Attribute::ModelContent(_) | FixtureChannel3Attribute::PlayBegin | FixtureChannel3Attribute::PlayEnd | FixtureChannel3Attribute::PlaySpeed => Some(FixtureChannel3FeatureType::Media),
        FixtureChannel3Attribute::ColorEffects(_) | FixtureChannel3Attribute::Color(_) | FixtureChannel3Attribute::ColorWheelIndex(_) | FixtureChannel3Attribute::ColorWheelSpin(_) | FixtureChannel3Attribute::ColorWheelRandom(_) | FixtureChannel3Attribute::ColorWheelAudio(_) | FixtureChannel3Attribute::Cto | FixtureChannel3Attribute::Ctc | FixtureChannel3Attribute::Ctb | FixtureChannel3Attribute::Tint => Some(FixtureChannel3FeatureType::Color),
        FixtureChannel3Attribute::ColorAddR | FixtureChannel3Attribute::ColorAddG | FixtureChannel3Attribute::ColorAddB | FixtureChannel3Attribute::ColorAddC | FixtureChannel3Attribute::ColorAddM | FixtureChannel3Attribute::ColorAddY | FixtureChannel3Attribute::ColorAddRY | FixtureChannel3Attribute::ColorAddGY | FixtureChannel3Attribute::ColorAddGC | FixtureChannel3Attribute::ColorAddBC | FixtureChannel3Attribute::ColorAddBM | FixtureChannel3Attribute::ColorAddRM | FixtureChannel3Attribute::ColorAddW | FixtureChannel3Attribute::ColorAddWW | FixtureChannel3Attribute::ColorAddCW | FixtureChannel3Attribute::ColorAddUV | FixtureChannel3Attribute::ColorSubR | FixtureChannel3Attribute::ColorSubG | FixtureChannel3Attribute::ColorSubB | FixtureChannel3Attribute::ColorSubC | FixtureChannel3Attribute::ColorSubM | FixtureChannel3Attribute::ColorSubY | FixtureChannel3Attribute::ColorMacro(_) | FixtureChannel3Attribute::ColorMacroRate(_) => Some(FixtureChannel3FeatureType::Rgb),
        FixtureChannel3Attribute::HsbHue | FixtureChannel3Attribute::HsbSaturation | FixtureChannel3Attribute::HsbBrightness | FixtureChannel3Attribute::HsbQuality => Some(FixtureChannel3FeatureType::Hsb),
        FixtureChannel3Attribute::CieX | FixtureChannel3Attribute::CieY | FixtureChannel3Attribute::CieBrightness => Some(FixtureChannel3FeatureType::Cie),
        FixtureChannel3Attribute::ColorRgbRed | FixtureChannel3Attribute::ColorRgbGreen | FixtureChannel3Attribute::ColorRgbBlue | FixtureChannel3Attribute::ColorRgbCyan | FixtureChannel3Attribute::ColorRgbMagenta | FixtureChannel3Attribute::ColorRgbYellow | FixtureChannel3Attribute::ColorRgbQuality => Some(FixtureChannel3FeatureType::Indirect),
        FixtureChannel3Attribute::VideoBoostR | FixtureChannel3Attribute::VideoBoostG | FixtureChannel3Attribute::VideoBoostB => Some(FixtureChannel3FeatureType::ColorCorrection),
        FixtureChannel3Attribute::VideoHueShift | FixtureChannel3Attribute::VideoSaturation | FixtureChannel3Attribute::VideoBrightness | FixtureChannel3Attribute::VideoContrast => Some(FixtureChannel3FeatureType::HsbcShift),
        FixtureChannel3Attribute::VideoKeyColorR | FixtureChannel3Attribute::VideoKeyColorG | FixtureChannel3Attribute::VideoKeyColorB | FixtureChannel3Attribute::VideoKeyIntensity | FixtureChannel3Attribute::VideoKeyTolerance => Some(FixtureChannel3FeatureType::ColorKey),
        FixtureChannel3Attribute::StrobeDuration | FixtureChannel3Attribute::StrobeRate | FixtureChannel3Attribute::StrobeFrequency | FixtureChannel3Attribute::StrobeModeShutter | FixtureChannel3Attribute::StrobeModeStrobe | FixtureChannel3Attribute::StrobeModePulse | FixtureChannel3Attribute::StrobeModePulseOpen | FixtureChannel3Attribute::StrobeModePulseClose | FixtureChannel3Attribute::StrobeModeRandom | FixtureChannel3Attribute::StrobeModeRandomPulse | FixtureChannel3Attribute::StrobeModeRandomPulseOpen | FixtureChannel3Attribute::StrobeModeRandomPulseClose | FixtureChannel3Attribute::StrobeModeEffect | FixtureChannel3Attribute::Shutter(_) | FixtureChannel3Attribute::ShutterStrobe(_) | FixtureChannel3Attribute::ShutterStrobePulse(_) | FixtureChannel3Attribute::ShutterStrobePulseClose(_) | FixtureChannel3Attribute::ShutterStrobePulseOpen(_) | FixtureChannel3Attribute::ShutterStrobeRandom(_) | FixtureChannel3Attribute::ShutterStrobeRandomPulse(_) | FixtureChannel3Attribute::ShutterStrobeRandomPulseClose(_) | FixtureChannel3Attribute::ShutterStrobeRandomPulseOpen(_) | FixtureChannel3Attribute::ShutterStrobeEffect(_) | FixtureChannel3Attribute::Iris | FixtureChannel3Attribute::IrisStrobe | FixtureChannel3Attribute::IrisStrobeRandom | FixtureChannel3Attribute::IrisPulseClose | FixtureChannel3Attribute::IrisPulseOpen | FixtureChannel3Attribute::IrisRandomPulseClose | FixtureChannel3Attribute::IrisRandomPulseOpen | FixtureChannel3Attribute::Frost(_) | FixtureChannel3Attribute::FrostPulseOpen(_) | FixtureChannel3Attribute::FrostPulseClose(_) | FixtureChannel3Attribute::FrostRamp(_) | FixtureChannel3Attribute::Prism(_) | FixtureChannel3Attribute::PrismSelectSpin(_) | FixtureChannel3Attribute::PrismMacro(_) | FixtureChannel3Attribute::PrismPos(_) | FixtureChannel3Attribute::PrismPosRotate(_) | FixtureChannel3Attribute::Effects(_) | FixtureChannel3Attribute::EffectsRate(_) | FixtureChannel3Attribute::EffectsFade(_) | FixtureChannel3Attribute::EffectsAdjust(_, _) | FixtureChannel3Attribute::EffectsPos(_) | FixtureChannel3Attribute::EffectsPosRotate(_) | FixtureChannel3Attribute::EffectsSync | FixtureChannel3Attribute::BeamShaper | FixtureChannel3Attribute::BeamShaperMacro | FixtureChannel3Attribute::BeamShaperPos | FixtureChannel3Attribute::BeamShaperPosRotate => Some(FixtureChannel3FeatureType::Beam),
        FixtureChannel3Attribute::Zoom | FixtureChannel3Attribute::ZoomModeSpot | FixtureChannel3Attribute::ZoomModeBeam | FixtureChannel3Attribute::DigitalZoom | FixtureChannel3Attribute::Focus(_) | FixtureChannel3Attribute::FocusAdjust(_) | FixtureChannel3Attribute::FocusDistance(_) => Some(FixtureChannel3FeatureType::Focus),
        FixtureChannel3Attribute::Control(_) | FixtureChannel3Attribute::DimmerMode | FixtureChannel3Attribute::DimmerCurve | FixtureChannel3Attribute::BlackoutMode | FixtureChannel3Attribute::LedFrequency | FixtureChannel3Attribute::LedZoneMode | FixtureChannel3Attribute::PixelMode | FixtureChannel3Attribute::PanMode | FixtureChannel3Attribute::TiltMode | FixtureChannel3Attribute::PanTiltMode | FixtureChannel3Attribute::PositionModes | FixtureChannel3Attribute::GoboWheelMode(_) | FixtureChannel3Attribute::GoboWheelShortcutMode | FixtureChannel3Attribute::AnimationWheelMode(_) | FixtureChannel3Attribute::AnimationWheelShortcutMode | FixtureChannel3Attribute::ColorMode(_) | FixtureChannel3Attribute::ColorWheelShortcutMode | FixtureChannel3Attribute::CyanMode | FixtureChannel3Attribute::MagentaMode | FixtureChannel3Attribute::YellowMode | FixtureChannel3Attribute::ColorMixMode | FixtureChannel3Attribute::ChromaticMode | FixtureChannel3Attribute::ColorCalibrationMode | FixtureChannel3Attribute::ColorConsistency | FixtureChannel3Attribute::ColorControl | FixtureChannel3Attribute::ColorModelMode | FixtureChannel3Attribute::ColorSettingsReset | FixtureChannel3Attribute::ColorUniformity | FixtureChannel3Attribute::CriMode | FixtureChannel3Attribute::CustomColor | FixtureChannel3Attribute::UvStability | FixtureChannel3Attribute::WavelengthCorrection | FixtureChannel3Attribute::WhiteCount | FixtureChannel3Attribute::StrobeMode | FixtureChannel3Attribute::ZoomMode | FixtureChannel3Attribute::FocusMode | FixtureChannel3Attribute::IrisMode | FixtureChannel3Attribute::FanMode(_) | FixtureChannel3Attribute::FollowSpotMode | FixtureChannel3Attribute::BeamEffectIndexRotateMode | FixtureChannel3Attribute::IntensityMSpeed | FixtureChannel3Attribute::PositionMSpeed | FixtureChannel3Attribute::ColorMixMSpeed | FixtureChannel3Attribute::ColorWheelSelectMSpeed | FixtureChannel3Attribute::GoboWheelMSpeed(_) | FixtureChannel3Attribute::IrisMSpeed | FixtureChannel3Attribute::PrismMSpeed(_) | FixtureChannel3Attribute::FocusMSpeed | FixtureChannel3Attribute::FrostMSpeed(_) | FixtureChannel3Attribute::ZoomMSpeed | FixtureChannel3Attribute::FrameMSpeed | FixtureChannel3Attribute::GlobalMSpeed | FixtureChannel3Attribute::ReflectorAdjust | FixtureChannel3Attribute::FixtureGlobalReset | FixtureChannel3Attribute::DimmerReset | FixtureChannel3Attribute::ShutterReset | FixtureChannel3Attribute::BeamReset | FixtureChannel3Attribute::ColorMixReset | FixtureChannel3Attribute::ColorWheelReset | FixtureChannel3Attribute::FocusReset | FixtureChannel3Attribute::FrameReset | FixtureChannel3Attribute::GoboWheelReset | FixtureChannel3Attribute::IntensityReset | FixtureChannel3Attribute::IrisReset | FixtureChannel3Attribute::PositionReset | FixtureChannel3Attribute::PanReset | FixtureChannel3Attribute::TiltReset | FixtureChannel3Attribute::ZoomReset | FixtureChannel3Attribute::CtbReset | FixtureChannel3Attribute::CtoReset | FixtureChannel3Attribute::CtcReset | FixtureChannel3Attribute::AnimationSystemReset | FixtureChannel3Attribute::FixtureCalibrationReset | FixtureChannel3Attribute::Function | FixtureChannel3Attribute::LampControl | FixtureChannel3Attribute::DisplayIntensity | FixtureChannel3Attribute::DmxInput | FixtureChannel3Attribute::NoFeature | FixtureChannel3Attribute::Blower(_) | FixtureChannel3Attribute::Fan(_) | FixtureChannel3Attribute::Fog(_) | FixtureChannel3Attribute::Haze(_) | FixtureChannel3Attribute::LampPowerMode | FixtureChannel3Attribute::Fans => Some(FixtureChannel3FeatureType::Control),
        FixtureChannel3Attribute::BladeA(_) | FixtureChannel3Attribute::BladeB(_) | FixtureChannel3Attribute::BladeRot(_) | FixtureChannel3Attribute::ShaperRot | FixtureChannel3Attribute::ShaperMacros | FixtureChannel3Attribute::ShaperMacrosSpeed | FixtureChannel3Attribute::BladeSoftA(_) | FixtureChannel3Attribute::BladeSoftB(_) | FixtureChannel3Attribute::KeyStoneA(_) | FixtureChannel3Attribute::KeyStoneB(_) => Some(FixtureChannel3FeatureType::Shapers),
        FixtureChannel3Attribute::Video | FixtureChannel3Attribute::VideoEffectType(_) | FixtureChannel3Attribute::VideoEffectParameter(_, _) | FixtureChannel3Attribute::VideoCamera(_) | FixtureChannel3Attribute::FieldOfView | FixtureChannel3Attribute::InputSource | FixtureChannel3Attribute::VideoBlendMode | FixtureChannel3Attribute::VideoSoundVolume(_) => Some(FixtureChannel3FeatureType::Video),
        FixtureChannel3Attribute::Custom(_) => None,
    }
}

/// The attribute with its last number one higher; attributes without a
/// number have no successor.
pub open spec fn attribute_increment(a: FixtureChannel3Attribute) -> Option<FixtureChannel3Attribute> {
    match a {
        FixtureChannel3Attribute::Gobo(n) => Some(FixtureChannel3Attribute::Gobo((n + 1) as u8)),
        FixtureChannel3Attribute::GoboSelectSpin(n) => Some(FixtureChannel3Attribute::GoboSelectSpin((n + 1) as u8)),
        FixtureChannel3Attribute::GoboSelectShake(n) => Some(FixtureChannel3Attribute::GoboSelectShake((n + 1) as u8)),
        FixtureChannel3Attribute::GoboSelectEffects(n) => Some(FixtureChannel3Attribute::GoboSelectEffects((n + 1) as u8)),
        FixtureChannel3Attribute::GoboWheelIndex(n) => Some(FixtureChannel3Attribute::GoboWheelIndex((n + 1) as u8)),
        FixtureChannel3Attribute::GoboWheelSpin(n) => Some(FixtureChannel3Attribute::GoboWheelSpin((n + 1) as u8)),
        FixtureChannel3Attribute::GoboWheelShake(n) => Some(FixtureChannel3Attribute::GoboWheelShake((n + 1) as u8)),
        FixtureChannel3Attribute::GoboWheelRandom(n) => Some(FixtureChannel3Attribute::GoboWheelRandom((n + 1) as u8)),
        FixtureChannel3Attribute::GoboWheelAudio(n) => Some(FixtureChannel3Attribute::GoboWheelAudio((n + 1) as u8)),
        FixtureChannel3Attribute::GoboPos(n) => Some(FixtureChannel3Attribute::GoboPos((n + 1) as u8)),
        FixtureChannel3Attribute::GoboPosRotate(n) => Some(FixtureChannel3Attribute::GoboPosRotate((n + 1) as u8)),
        FixtureChannel3Attribute::GoboPosShake(n) => Some(FixtureChannel3Attribute::GoboPosShake((n + 1) as u8)),
        FixtureChannel3Attribute::AnimationWheel(n) => Some(FixtureChannel3Attribute::AnimationWheel((n + 1) as u8)),
        FixtureChannel3Attribute::AnimationWheelAudio(n) => Some(FixtureChannel3Attribute::AnimationWheelAudio((n + 1) as u8)),
        FixtureChannel3Attribute::AnimationWheelMacro(n) => Some(FixtureChannel3Attribute::AnimationWheelMacro((n + 1) as u8)),
        FixtureChannel3Attribute::AnimationWheelRandom(n) => Some(FixtureChannel3Attribute::AnimationWheelRandom((n + 1) as u8)),
        FixtureChannel3Attribute::AnimationWheelSelectEffects(n) => Some(FixtureChannel3Attribute::AnimationWheelSelectEffects((n + 1) as u8)),
        FixtureChannel3Attribute::AnimationWheelSelectShake(n) => Some(FixtureChannel3Attribute::AnimationWheelSelectShake((n + 1) as u8)),
        FixtureChannel3Attribute::AnimationWheelSelectSpin(n) => Some(FixtureChannel3Attribute::AnimationWheelSelectSpin((n + 1) as u8)),
        FixtureChannel3Attribute::AnimationWheelPos(n) => Some(FixtureChannel3Attribute::AnimationWheelPos((n + 1) as u8)),
        FixtureChannel3Attribute::AnimationWheelPosRotate(n) => Some(FixtureChannel3Attribute::AnimationWheelPosRotate((n + 1) as u8)),
        FixtureChannel3Attribute::AnimationWheelPosShake(n) => Some(FixtureChannel3Attribute::AnimationWheelPosShake((n + 1) as u8)),
        FixtureChannel3Attribute::AnimationSystem(n) => Some(FixtureChannel3Attribute::AnimationSystem((n + 1) as u8)),
        FixtureChannel3Attribute::AnimationSystemRamp(n) => Some(FixtureChannel3Attribute::AnimationSystemRamp((n + 1) as u8)),
        FixtureChannel3Attribute::AnimationSystemShake(n) => Some(FixtureChannel3Attribute::AnimationSystemShake((n + 1) as u8)),
        FixtureChannel3Attribute::AnimationSystemAudio(n) => Some(FixtureChannel3Attribute::AnimationSystemAudio((n + 1) as u8)),
        FixtureChannel3Attribute::AnimationSystemRandom(n) => Some(FixtureChannel3Attribute::AnimationSystemRandom((n + 1) as u8)),
        FixtureChannel3Attribute::AnimationSystemPos(n) => Some(FixtureChannel3Attribute::AnimationSystemPos((n + 1) as u8)),
        FixtureChannel3Attribute::AnimationSystemPosRotate(n) => Some(FixtureChannel3Attribute::AnimationSystemPosRotate((n + 1) as u8)),
        FixtureChannel3Attribute::AnimationSystemPosShake(n) => Some(FixtureChannel3Attribute::AnimationSystemPosShake((n + 1) as u8)),
        FixtureChannel3Attribute::AnimationSystemPosRandom(n) => Some(FixtureChannel3Attribute::AnimationSystemPosRandom((n + 1) as u8)),
        FixtureChannel3Attribute::AnimationSystemPosAudio(n) => Some(FixtureChannel3Attribute::AnimationSystemPosAudio((n + 1) as u8)),
        FixtureChannel3Attribute::AnimationSystemMacro(n) => Some(FixtureChannel3Attribute::AnimationSystemMacro((n + 1) as u8)),
        FixtureChannel3Attribute::MediaFolder(n) => Some(FixtureChannel3Attribute::MediaFolder((n + 1) as u8)),
        FixtureChannel3Attribute::MediaContent(n) => Some(FixtureChannel3Attribute::MediaContent((n + 1) as u8)),
        FixtureChannel3Attribute::ModelFolder(n) => Some(FixtureChannel3Attribute::ModelFolder((n + 1) as u8)),
        FixtureChannel3Attribute::ModelContent(n) => Some(FixtureChannel3Attribute::ModelContent((n + 1) as u8)),
        FixtureChannel3Attribute::ColorEffects(n) => Some(FixtureChannel3Attribute::ColorEffects((n + 1) as u8)),
        FixtureChannel3Attribute::Color(n) => Some(FixtureChannel3Attribute::Color((n + 1) as u8)),
        FixtureChannel3Attribute::ColorWheelIndex(n) => Some(FixtureChannel3Attribute::ColorWheelIndex((n + 1) as u8)),
        FixtureChannel3Attribute::ColorWheelSpin(n) => Some(FixtureChannel3Attribute::ColorWheelSpin((n + 1) as u8)),
        FixtureChannel3Attribute::ColorWheelRandom(n) => Some(FixtureChannel3Attribute::ColorWheelRandom((n + 1) as u8)),
        FixtureChannel3Attribute::ColorWheelAudio(n) => Some(FixtureChannel3Attribute::ColorWheelAudio((n + 1) as u8)),
        FixtureChannel3Attribute::ColorMacro(n) => Some(FixtureChannel3Attribute::ColorMacro((n + 1) as u8)),
        FixtureChannel3Attribute::ColorMacroRate(n) => Some(FixtureChannel3Attribute::ColorMacroRate((n + 1) as u8)),
        FixtureChannel3Attribute::Shutter(n) => Some(FixtureChannel3Attribute::Shutter((n + 1) as u8)),
        FixtureChannel3Attribute::ShutterStrobe(n) => Some(FixtureChannel3Attribute::ShutterStrobe((n + 1) as u8)),
        FixtureChannel3Attribute::ShutterStrobePulse(n) => Some(FixtureChannel3Attribute::ShutterStrobePulse((n + 1) as u8)),
        FixtureChannel3Attribute::ShutterStrobePulseClose(n) => Some(FixtureChannel3Attribute::ShutterStrobePulseClose((n + 1) as u8)),
        FixtureChannel3Attribute::ShutterStrobePulseOpen(n) => Some(FixtureChannel3Attribute::ShutterStrobePulseOpen((n + 1) as u8)),
        FixtureChannel3Attribute::ShutterStrobeRandom(n) => Some(FixtureChannel3Attribute::ShutterStrobeRandom((n + 1) as u8)),
        FixtureChannel3Attribute::ShutterStrobeRandomPulse(n) => Some(FixtureChannel3Attribute::ShutterStrobeRandomPulse((n + 1) as u8)),
        FixtureChannel3Attribute::ShutterStrobeRandomPulseClose(n) => Some(FixtureChannel3Attribute::ShutterStrobeRandomPulseClose((n + 1) as u8)),
        FixtureChannel3Attribute::ShutterStrobeRandomPulseOpen(n) => Some(FixtureChannel3Attribute::ShutterStrobeRandomPulseOpen((n + 1) as u8)),
        FixtureChannel3Attribute::ShutterStrobeEffect(n) => Some(FixtureChannel3Attribute::ShutterStrobeEffect((n + 1) as u8)),
        FixtureChannel3Attribute::Frost(n) => Some(FixtureChannel3Attribute::Frost((n + 1) as u8)),
        FixtureChannel3Attribute::FrostPulseOpen(n) => Some(FixtureChannel3Attribute::FrostPulseOpen((n + 1) as u8)),
        FixtureChannel3Attribute::FrostPulseClose(n) => Some(FixtureChannel3Attribute::FrostPulseClose((n + 1) as u8)),
        FixtureChannel3Attribute::FrostRamp(n) => Some(FixtureChannel3Attribute::FrostRamp((n + 1) as u8)),
        FixtureChannel3Attribute::Prism(n) => Some(FixtureChannel3Attribute::Prism((n + 1) as u8)),
        FixtureChannel3Attribute::PrismSelectSpin(n) => Some(FixtureChannel3Attribute::PrismSelectSpin((n + 1) as u8)),
        FixtureChannel3Attribute::PrismMacro(n) => Some(FixtureChannel3Attribute::PrismMacro((n + 1) as u8)),
        FixtureChannel3Attribute::PrismPos(n) => Some(FixtureChannel3Attribute::PrismPos((n + 1) as u8)),
        FixtureChannel3Attribute::PrismPosRotate(n) => Some(FixtureChannel3Attribute::PrismPosRotate((n + 1) as u8)),
        FixtureChannel3Attribute::Effects(n) => Some(FixtureChannel3Attribute::Effects((n + 1) as u8)),
        FixtureChannel3Attribute::EffectsRate(n) => Some(FixtureChannel3Attribute::EffectsRate((n + 1) as u8)),
        FixtureChannel3Attribute::EffectsFade(n) => Some(FixtureChannel3Attribute::EffectsFade((n + 1) as u8)),
        FixtureChannel3Attribute::EffectsAdjust(n, m) => Some(FixtureChannel3Attribute::EffectsAdjust(n, (m + 1) as u8)),
        FixtureChannel3Attribute::EffectsPos(n) => Some(FixtureChannel3Attribute::EffectsPos((n + 1) as u8)),
        FixtureChannel3Attribute::EffectsPosRotate(n) => Some(FixtureChannel3Attribute::EffectsPosRotate((n + 1) as u8)),
        FixtureChannel3Attribute::Focus(n) => Some(FixtureChannel3Attribute::Focus((n + 1) as u8)),
        FixtureChannel3Attribute::FocusAdjust(n) => Some(FixtureChannel3Attribute::FocusAdjust((n + 1) as u8)),
        FixtureChannel3Attribute::FocusDistance(n) => Some(FixtureChannel3Attribute::FocusDistance((n + 1) as u8)),
        FixtureChannel3Attribute::Control(n) => Some(FixtureChannel3Attribute::Control((n + 1) as u8)),
        FixtureChannel3Attribute::GoboWheelMode(n) => Some(FixtureChannel3Attribute::GoboWheelMode((n + 1) as u8)),
        FixtureChannel3Attribute::AnimationWheelMode(n) => Some(FixtureChannel3Attribute::AnimationWheelMode((n + 1) as u8)),
        FixtureChannel3Attribute::ColorMode(n) => Some(FixtureChannel3Attribute::ColorMode((n + 1) as u8)),
        FixtureChannel3Attribute::FanMode(n) => Some(FixtureChannel3Attribute::FanMode((n + 1) as u8)),
        FixtureChannel3Attribute::GoboWheelMSpeed(n) => Some(FixtureChannel3Attribute::GoboWheelMSpeed((n + 1) as u8)),
        FixtureChannel3Attribute::PrismMSpeed(n) => Some(FixtureChannel3Attribute::PrismMSpeed((n + 1) as u8)),
        FixtureChannel3Attribute::FrostMSpeed(n) => Some(FixtureChannel3Attribute::FrostMSpeed((n + 1) as u8)),
        FixtureChannel3Attribute::Blower(n) => Some(FixtureChannel3Attribute::Blower((n + 1) as u8)),
        FixtureChannel3Attribute::Fan(n) => Some(FixtureChannel3Attribute::Fan((n + 1) as u8)),
        FixtureChannel3Attribute::Fog(n) => Some(FixtureChannel3Attribute::Fog((n + 1) as u8)),
        FixtureChannel3Attribute::Haze(n) => Some(FixtureChannel3Attribute::Haze((n + 1) as u8)),
        FixtureChannel3Attribute::BladeA(n) => Some(FixtureChannel3Attribute::BladeA((n + 1) as u8)),
        FixtureChannel3Attribute::BladeB(n) => Some(FixtureChannel3Attribute::BladeB((n + 1) as u8)),
        FixtureChannel3Attribute::BladeRot(n) => Some(FixtureChannel3Attribute::BladeRot((n + 1) as u8)),
        FixtureChannel3Attribute::BladeSoftA(n) => Some(FixtureChannel3Attribute::BladeSoftA((n + 1) as u8)),
        FixtureChannel3Attribute::BladeSoftB(n) => Some(FixtureChannel3Attribute::BladeSoftB((n + 1) as u8)),
        FixtureChannel3Attribute::KeyStoneA(n) => Some(FixtureChannel3Attribute::KeyStoneA((n + 1) as u8)),
        FixtureChannel3Attribute::KeyStoneB(n) => Some(FixtureChannel3Attribute::KeyStoneB((n + 1) as u8)),
        FixtureChannel3Attribute::VideoEffectType(n) => Some(FixtureChannel3Attribute::VideoEffectType((n + 1) as u8)),
        FixtureChannel3Attribute::VideoEffectParameter(n, m) => Some(FixtureChannel3Attribute::VideoEffectParameter(n, (m + 1) as u8)),
        FixtureChannel3Attribute::VideoCamera(n) => Some(FixtureChannel3Attribute::VideoCamera((n + 1) as u8)),
        FixtureChannel3Attribute::VideoSoundVolume(n) => Some(FixtureChannel3Attribute::VideoSoundVolume((n + 1) as u8)),
        _ => None,
    }
}

/// The last number of a numbered attribute is below 255, so that it can be
/// incremented.
pub open spec fn attribute_increment_fits(a: FixtureChannel3Attribute) -> bool {
    match a {
        FixtureChannel3Attribute::Gobo(n) | FixtureChannel3Attribute::GoboSelectSpin(n) | FixtureChannel3Attribute::GoboSelectShake(n) | FixtureChannel3Attribute::GoboSelectEffects(n) | FixtureChannel3Attribute::GoboWheelIndex(n) | FixtureChannel3Attribute::GoboWheelSpin(n) | FixtureChannel3Attribute::GoboWheelShake(n) | FixtureChannel3Attribute::GoboWheelRandom(n) | FixtureChannel3Attribute::GoboWheelAudio(n) | FixtureChannel3Attribute::GoboPos(n) | FixtureChannel3Attribute::GoboPosRotate(n) | FixtureChannel3Attribute::GoboPosShake(n) | FixtureChannel3Attribute::AnimationWheel(n) | FixtureChannel3Attribute::AnimationWheelAudio(n) | FixtureChannel3Attribute::AnimationWheelMacro(n) | FixtureChannel3Attribute::AnimationWheelRandom(n) | FixtureChannel3Attribute::AnimationWheelSelectEffects(n) | FixtureChannel3Attribute::AnimationWheelSelectShake(n) | FixtureChannel3Attribute::AnimationWheelSelectSpin(n) | FixtureChannel3Attribute::AnimationWheelPos(n) | FixtureChannel3Attribute::AnimationWheelPosRotate(n) | FixtureChannel3Attribute::AnimationWheelPosShake(n) | FixtureChannel3Attribute::AnimationSystem(n) | FixtureChannel3Attribute::AnimationSystemRamp(n) | FixtureChannel3Attribute::AnimationSystemShake(n) | FixtureChannel3Attribute::AnimationSystemAudio(n) | FixtureChannel3Attribute::AnimationSystemRandom(n) | FixtureChannel3Attribute::AnimationSystemPos(n) | FixtureChannel3Attribute::AnimationSystemPosRotate(n) | FixtureChannel3Attribute::AnimationSystemPosShake(n) | FixtureChannel3Attribute::AnimationSystemPosRandom(n) | FixtureChannel3Attribute::AnimationSystemPosAudio(n) | FixtureChannel3Attribute::AnimationSystemMacro(n) | FixtureChannel3Attribute::MediaFolder(n) | FixtureChannel3Attribute::MediaContent(n) | FixtureChannel3Attribute::ModelFolder(n) | FixtureChannel3Attribute::ModelContent(n) | FixtureChannel3Attribute::ColorEffects(n) | FixtureChannel3Attribute::Color(n) | FixtureChannel3Attribute::ColorWheelIndex(n) | FixtureChannel3Attribute::ColorWheelSpin(n) | FixtureChannel3Attribute::ColorWheelRandom(n) | FixtureChannel3Attribute::ColorWheelAudio(n) | FixtureChannel3Attribute::ColorMacro(n) | FixtureChannel3Attribute::ColorMacroRate(n) | FixtureChannel3Attribute::Shutter(n) | FixtureChannel3Attribute::ShutterStrobe(n) | FixtureChannel3Attribute::ShutterStrobePulse(n) | FixtureChannel3Attribute::ShutterStrobePulseClose(n) | FixtureChannel3Attribute::ShutterStrobePulseOpen(n) | FixtureChannel3Attribute::ShutterStrobeRandom(n) | FixtureChannel3Attribute::ShutterStrobeRandomPulse(n) | FixtureChannel3Attribute::ShutterStrobeRandomPulseClose(n) | FixtureChannel3Attribute::ShutterStrobeRandomPulseOpen(n) | FixtureChannel3Attribute::ShutterStrobeEffect(n) | FixtureChannel3Attribute::Frost(n) | FixtureChannel3Attribute::FrostPulseOpen(n) | FixtureChannel3Attribute::FrostPulseClose(n) | FixtureChannel3Attribute::FrostRamp(n) | FixtureChannel3Attribute::Prism(n) | FixtureChannel3Attribute::PrismSelectSpin(n) | FixtureChannel3Attribute::PrismMacro(n) | FixtureChannel3Attribute::PrismPos(n) | FixtureChannel3Attribute::PrismPosRotate(n) | FixtureChannel3Attribute::Effects(n) | FixtureChannel3Attribute::EffectsRate(n) | FixtureChannel3Attribute::EffectsFade(n) | FixtureChannel3Attribute::EffectsPos(n) | FixtureChannel3Attribute::EffectsPosRotate(n) | FixtureChannel3Attribute::Focus(n) | FixtureChannel3Attribute::FocusAdjust(n) | FixtureChannel3Attribute::FocusDistance(n) | FixtureChannel3Attribute::Control(n) | FixtureChannel3Attribute::GoboWheelMode(n) | FixtureChannel3Attribute::AnimationWheelMode(n) | FixtureChannel3Attribute::ColorMode(n) | FixtureChannel3Attribute::FanMode(n) | FixtureChannel3Attribute::GoboWheelMSpeed(n) | FixtureChannel3Attribute::PrismMSpeed(n) | FixtureChannel3Attribute::FrostMSpeed(n) | FixtureChannel3Attribute::Blower(n) | FixtureChannel3Attribute::Fan(n) | FixtureChannel3Attribute::Fog(n) | FixtureChannel3Attribute::Haze(n) | FixtureChannel3Attribute::BladeA(n) | FixtureChannel3Attribute::BladeB(n) | FixtureChannel3Attribute::BladeRot(n) | FixtureChannel3Attribute::BladeSoftA(n) | FixtureChannel3Attribute::BladeSoftB(n) | FixtureChannel3Attribute::KeyStoneA(n) | FixtureChannel3Attribute::KeyStoneB(n) | FixtureChannel3Attribute::VideoEffectType(n) | FixtureChannel3Attribute::VideoCamera(n) | FixtureChannel3Attribute::VideoSoundVolume(n) => n < 255,
        FixtureChannel3Attribute::EffectsAdjust(_, m) | FixtureChannel3Attribute::VideoEffectParameter(_, m) => m < 255,
        _ => true,
    }
}

/// The attribute whose GDTF name is exactly `s`, among a part of the named attributes.
#[verifier::opaque]
pub open spec fn exact_attribute_0(s: Seq<char>) -> Option<FixtureChannel3Attribute> {
    if s == "Dimmer"@ {
        Some(FixtureChannel3Attribute::Dimmer)
    } else if s == "Pan"@ {
        Some(FixtureChannel3Attribute::Pan)
    } else if s == "Tilt"@ {
        Some(FixtureChannel3Attribute::Tilt)
    } else if s == "PanRotate"@ {
        Some(FixtureChannel3Attribute::PanRotate)
    } else if s == "TiltRotate"@ {
        Some(FixtureChannel3Attribute::TiltRotate)
    } else if s == "PositionEffect"@ {
        Some(FixtureChannel3Attribute::PositionEffect)
    } else if s == "PositionEffectRate"@ {
        Some(FixtureChannel3Attribute::PositionEffectRate)
    } else if s == "PositionEffectFade"@ {
        Some(FixtureChannel3Attribute::PositionEffectFade)
    } else if s == "XYZ_X"@ {
        Some(FixtureChannel3Attribute::XyzX)
    } else if s == "XYZ_Y"@ {
        Some(FixtureChannel3Attribute::XyzY)
    } else if s == "XYZ_Z"@ {
        Some(FixtureChannel3Attribute::XyzZ)
    } else if s == "Rot_X"@ {
        Some(FixtureChannel3Attribute::RotX)
    } else if s == "Rot_Y"@ {
        Some(FixtureChannel3Attribute::RotY)
    } else if s == "Rot_Z"@ {
        Some(FixtureChannel3Attribute::RotZ)
    } else if s == "Scale_X"@ {
        Some(FixtureChannel3Attribute::ScaleX)
    } else if s == "Scale_Y"@ {
        Some(FixtureChannel3Attribute::ScaleY)
    } else if s == "Scale_Z"@ {
        Some(FixtureChannel3Attribute::ScaleZ)
    } else if s == "Scale_XYZ"@ {
        Some(FixtureChannel3Attribute::ScaleXYZ)
    } else if s == "PlayMode"@ {
        Some(FixtureChannel3Attribute::PlayMode)
    } else if s == "PlayBegin"@ {
        Some(FixtureChannel3Attribute::PlayBegin)
    } else if s == "PlayEnd"@ {
        Some(FixtureChannel3Attribute::PlayEnd)
    } else if s == "PlaySpeed"@ {
        Some(FixtureChannel3Attribute::PlaySpeed)
    } else if s == "ColorAdd_R"@ {
        Some(FixtureChannel3Attribute::ColorAddR)
    } else if s == "ColorAdd_G"@ {
        Some(FixtureChannel3Attribute::ColorAddG)
    } else if s == "ColorAdd_B"@ {
        Some(FixtureChannel3Attribute::ColorAddB)
    } else if s == "ColorAdd_C"@ {
        Some(FixtureChannel3Attribute::ColorAddC)
    } else if s == "ColorAdd_M"@ {
        Some(FixtureChannel3Attribute::ColorAddM)
    } else if s == "ColorAdd_Y"@ {
        Some(FixtureChannel3Attribute::ColorAddY)
    } else if s == "ColorAdd_RY"@ {
        Some(FixtureChannel3Attribute::ColorAddRY)
    } else if s == "ColorAdd_GY"@ {
        Some(FixtureChannel3Attribute::ColorAddGY)
    } else if s == "ColorAdd_GC"@ {
        Some(FixtureChannel3Attribute::ColorAddGC)
    } else if s == "ColorAdd_BC"@ {
        Some(FixtureChannel3Attribute::ColorAddBC)
    } else if s == "ColorAdd_BM"@ {
        Some(FixtureChannel3Attribute::ColorAddBM)
    } else if s == "ColorAdd_RM"@ {
        Some(FixtureChannel3Attribute::ColorAddRM)
    } else if s == "ColorAdd_W"@ {
        Some(FixtureChannel3Attribute::ColorAddW)
    } else if s == "ColorAdd_WW"@ {
        Some(FixtureChannel3Attribute::ColorAddWW)
    } else if s == "ColorAdd_CW"@ {
        Some(FixtureChannel3Attribute::ColorAddCW)
    } else if s == "ColorAdd_UV"@ {
        Some(FixtureChannel3Attribute::ColorAddUV)
    } else if s == "ColorSub_R"@ {
        Some(FixtureChannel3Attribute::ColorSubR)
    } else if s == "ColorSub_G"@ {
        Some(FixtureChannel3Attribute::ColorSubG)
    } else if s == "ColorSub_B"@ {
        Some(FixtureChannel3Attribute::ColorSubB)
    } else if s == "ColorSub_C"@ {
        Some(FixtureChannel3Attribute::ColorSubC)
    } else if s == "ColorSub_M"@ {
        Some(FixtureChannel3Attribute::ColorSubM)
    } else if s == "ColorSub_Y"@ {
        Some(FixtureChannel3Attribute::ColorSubY)
    } else if s == "CTO"@ {
        Some(FixtureChannel3Attribute::Cto)
    } else if s == "CTC"@ {
        Some(FixtureChannel3Attribute::Ctc)
    } else {
        None
    }
}

/// The attribute whose GDTF name is exactly `s`, among a part of the named attributes.
#[verifier::opaque]
pub open spec fn exact_attribute_1(s: Seq<char>) -> Option<FixtureChannel3Attribute> {
    if s == "CTB"@ {
        Some(FixtureChannel3Attribute::Ctb)
    } else if s == "Tint"@ {
        Some(FixtureChannel3Attribute::Tint)
    } else if s == "HSB_Hue"@ {
        Some(FixtureChannel3Attribute::HsbHue)
    } else if s == "HSB_Saturation"@ {
        Some(FixtureChannel3Attribute::HsbSaturation)
    } else if s == "HSB_Brightness"@ {
        Some(FixtureChannel3Attribute::HsbBrightness)
    } else if s == "HSB_Quality"@ {
        Some(FixtureChannel3Attribute::HsbQuality)
    } else if s == "CIE_X"@ {
        Some(FixtureChannel3Attribute::CieX)
    } else if s == "CIE_Y"@ {
        Some(FixtureChannel3Attribute::CieY)
    } else if s == "CIE_Brightness"@ {
        Some(FixtureChannel3Attribute::CieBrightness)
    } else if s == "ColorRGB_Red"@ {
        Some(FixtureChannel3Attribute::ColorRgbRed)
    } else if s == "ColorRGB_Green"@ {
        Some(FixtureChannel3Attribute::ColorRgbGreen)
    } else if s == "ColorRGB_Blue"@ {
        Some(FixtureChannel3Attribute::ColorRgbBlue)
    } else if s == "ColorRGB_Cyan"@ {
        Some(FixtureChannel3Attribute::ColorRgbCyan)
    } else if s == "ColorRGB_Magenta"@ {
        Some(FixtureChannel3Attribute::ColorRgbMagenta)
    } else if s == "ColorRGB_Yellow"@ {
        Some(FixtureChannel3Attribute::ColorRgbYellow)
    } else if s == "ColorRGB_Quality"@ {
        Some(FixtureChannel3Attribute::ColorRgbQuality)
    } else if s == "VideoBoost_R"@ {
        Some(FixtureChannel3Attribute::VideoBoostR)
    } else if s == "VideoBoost_G"@ {
        Some(FixtureChannel3Attribute::VideoBoostG)
    } else if s == "VideoBoost_B"@ {
        Some(FixtureChannel3Attribute::VideoBoostB)
    } else if s == "VideoHueShift"@ {
        Some(FixtureChannel3Attribute::VideoHueShift)
    } else if s == "VideoSaturation"@ {
        Some(FixtureChannel3Attribute::VideoSaturation)
    } else if s == "VideoBrightness"@ {
        Some(FixtureChannel3Attribute::VideoBrightness)
    } else if s == "VideoContrast"@ {
        Some(FixtureChannel3Attribute::VideoContrast)
    } else if s == "VideoKeyColor_R"@ {
        Some(FixtureChannel3Attribute::VideoKeyColorR)
    } else if s == "VideoKeyColor_G"@ {
        Some(FixtureChannel3Attribute::VideoKeyColorG)
    } else if s == "VideoKeyColor_B"@ {
        Some(FixtureChannel3Attribute::VideoKeyColorB)
    } else if s == "VideoKeyIntensity"@ {
        Some(FixtureChannel3Attribute::VideoKeyIntensity)
    } else if s == "VideoKeyTolerance"@ {
        Some(FixtureChannel3Attribute::VideoKeyTolerance)
    } else if s == "StrobeDuration"@ {
        Some(FixtureChannel3Attribute::StrobeDuration)
    } else if s == "StrobeRate"@ {
        Some(FixtureChannel3Attribute::StrobeRate)
    } else if s == "StrobeFrequency"@ {
        Some(FixtureChannel3Attribute::StrobeFrequency)
    } else if s == "StrobeModeShutter"@ {
        Some(FixtureChannel3Attribute::StrobeModeShutter)
    } else if s == "StrobeModeStrobe"@ {
        Some(FixtureChannel3Attribute::StrobeModeStrobe)
    } else if s == "StrobeModePulse"@ {
        Some(FixtureChannel3Attribute::StrobeModePulse)
    } else if s == "StrobeModePulseOpen"@ {
        Some(FixtureChannel3Attribute::StrobeModePulseOpen)
    } else if s == "StrobeModePulseClose"@ {
        Some(FixtureChannel3Attribute::StrobeModePulseClose)
    } else if s == "StrobeModeRandom"@ {
        Some(FixtureChannel3Attribute::StrobeModeRandom)
    } else if s == "StrobeModeRandomPulse"@ {
        Some(FixtureChannel3Attribute::StrobeModeRandomPulse)
    } else if s == "StrobeModeRandomPulseOpen"@ {
        Some(FixtureChannel3Attribute::StrobeModeRandomPulseOpen)
    } else if s == "StrobeModeRandomPulseClose"@ {
        Some(FixtureChannel3Attribute::StrobeModeRandomPulseClose)
    } else if s == "StrobeModeEffect"@ {
        Some(FixtureChannel3Attribute::StrobeModeEffect)
    } else if s == "Iris"@ {
        Some(FixtureChannel3Attribute::Iris)
    } else if s == "IrisStrobe"@ {
        Some(FixtureChannel3Attribute::IrisStrobe)
    } else if s == "IrisStrobeRandom"@ {
        Some(FixtureChannel3Attribute::IrisStrobeRandom)
    } else if s == "IrisPulseClose"@ {
        Some(FixtureChannel3Attribute::IrisPulseClose)
    } else if s == "IrisPulseOpen"@ {
        Some(FixtureChannel3Attribute::IrisPulseOpen)
    } else {
        None
    }
}

/// The attribute whose GDTF name is exactly `s`, among a part of the named attributes.
#[verifier::opaque]
pub open spec fn exact_attribute_2(s: Seq<char>) -> Option<FixtureChannel3Attribute> {
    if s == "IrisRandomPulseClose"@ {
        Some(FixtureChannel3Attribute::IrisRandomPulseClose)
    } else if s == "IrisRandomPulseOpen"@ {
        Some(FixtureChannel3Attribute::IrisRandomPulseOpen)
    } else if s == "EffectsSync"@ {
        Some(FixtureChannel3Attribute::EffectsSync)
    } else if s == "BeamShaper"@ {
        Some(FixtureChannel3Attribute::BeamShaper)
    } else if s == "BeamShaperMacro"@ {
        Some(FixtureChannel3Attribute::BeamShaperMacro)
    } else if s == "BeamShaperPos"@ {
        Some(FixtureChannel3Attribute::BeamShaperPos)
    } else if s == "BeamShaperPosRotate"@ {
        Some(FixtureChannel3Attribute::BeamShaperPosRotate)
    } else if s == "Zoom"@ {
        Some(FixtureChannel3Attribute::Zoom)
    } else if s == "ZoomModeSpot"@ {
        Some(FixtureChannel3Attribute::ZoomModeSpot)
    } else if s == "ZoomModeBeam"@ {
        Some(FixtureChannel3Attribute::ZoomModeBeam)
    } else if s == "DigitalZoom"@ {
        Some(FixtureChannel3Attribute::DigitalZoom)
    } else if s == "DimmerMode"@ {
        Some(FixtureChannel3Attribute::DimmerMode)
    } else if s == "DimmerCurve"@ {
        Some(FixtureChannel3Attribute::DimmerCurve)
    } else if s == "BlackoutMode"@ {
        Some(FixtureChannel3Attribute::BlackoutMode)
    } else if s == "LEDFrequency"@ {
        Some(FixtureChannel3Attribute::LedFrequency)
    } else if s == "LEDZoneMode"@ {
        Some(FixtureChannel3Attribute::LedZoneMode)
    } else if s == "PixelMode"@ {
        Some(FixtureChannel3Attribute::PixelMode)
    } else if s == "PanMode"@ {
        Some(FixtureChannel3Attribute::PanMode)
    } else if s == "TiltMode"@ {
        Some(FixtureChannel3Attribute::TiltMode)
    } else if s == "PanTiltMode"@ {
        Some(FixtureChannel3Attribute::PanTiltMode)
    } else if s == "PositionModes"@ {
        Some(FixtureChannel3Attribute::PositionModes)
    } else if s == "GoboWheelShortcutMode"@ {
        Some(FixtureChannel3Attribute::GoboWheelShortcutMode)
    } else if s == "AnimationWheelShortcutMode"@ {
        Some(FixtureChannel3Attribute::AnimationWheelShortcutMode)
    } else if s == "ColorWheelShortcutMode"@ {
        Some(FixtureChannel3Attribute::ColorWheelShortcutMode)
    } else if s == "CyanMode"@ {
        Some(FixtureChannel3Attribute::CyanMode)
    } else if s == "MagentaMode"@ {
        Some(FixtureChannel3Attribute::MagentaMode)
    } else if s == "YellowMode"@ {
        Some(FixtureChannel3Attribute::YellowMode)
    } else if s == "ColorMixMode"@ {
        Some(FixtureChannel3Attribute::ColorMixMode)
    } else if s == "ChromaticMode"@ {
        Some(FixtureChannel3Attribute::ChromaticMode)
    } else if s == "ColorCalibrationMode"@ {
        Some(FixtureChannel3Attribute::ColorCalibrationMode)
    } else if s == "ColorConsistency"@ {
        Some(FixtureChannel3Attribute::ColorConsistency)
    } else if s == "ColorControl"@ {
        Some(FixtureChannel3Attribute::ColorControl)
    } else if s == "ColorModelMode"@ {
        Some(FixtureChannel3Attribute::ColorModelMode)
    } else if s == "ColorSettingsReset"@ {
        Some(FixtureChannel3Attribute::ColorSettingsReset)
    } else if s == "ColorUniformity"@ {
        Some(FixtureChannel3Attribute::ColorUniformity)
    } else if s == "CRIMode"@ {
        Some(FixtureChannel3Attribute::CriMode)
    } else if s == "CustomColor"@ {
        Some(FixtureChannel3Attribute::CustomColor)
    } else if s == "UVStability"@ {
        Some(FixtureChannel3Attribute::UvStability)
    } else if s == "WavelengthCorrection"@ {
        Some(FixtureChannel3Attribute::WavelengthCorrection)
    } else if s == "WhiteCount"@ {
        Some(FixtureChannel3Attribute::WhiteCount)
    } else if s == "StrobeMode"@ {
        Some(FixtureChannel3Attribute::StrobeMode)
    } else if s == "ZoomMode"@ {
        Some(FixtureChannel3Attribute::ZoomMode)
    } else if s == "FocusMode"@ {
        Some(FixtureChannel3Attribute::FocusMode)
    } else if s == "IrisMode"@ {
        Some(FixtureChannel3Attribute::IrisMode)
    } else if s == "FollowSpotMode"@ {
        Some(FixtureChannel3Attribute::FollowSpotMode)
    } else if s == "BeamEffectIndexRotateMode"@ {
        Some(FixtureChannel3Attribute::BeamEffectIndexRotateMode)
    } else {
        None
    }
}

/// The attribute whose GDTF name is exactly `s`, among a part of the named attributes.
#[verifier::opaque]
pub open spec fn exact_attribute_3(s: Seq<char>) -> Option<FixtureChannel3Attribute> {
    if s == "IntensityMSpeed"@ {
        Some(FixtureChannel3Attribute::IntensityMSpeed)
    } else if s == "PositionMSpeed"@ {
        Some(FixtureChannel3Attribute::PositionMSpeed)
    } else if s == "ColorMixMSpeed"@ {
        Some(FixtureChannel3Attribute::ColorMixMSpeed)
    } else if s == "ColorWheelSelectMSpeed"@ {
        Some(FixtureChannel3Attribute::ColorWheelSelectMSpeed)
    } else if s == "IrisMSpeed"@ {
        Some(FixtureChannel3Attribute::IrisMSpeed)
    } else if s == "FocusMSpeed"@ {
        Some(FixtureChannel3Attribute::FocusMSpeed)
    } else if s == "ZoomMSpeed"@ {
        Some(FixtureChannel3Attribute::ZoomMSpeed)
    } else if s == "FrameMSpeed"@ {
        Some(FixtureChannel3Attribute::FrameMSpeed)
    } else if s == "GlobalMSpeed"@ {
        Some(FixtureChannel3Attribute::GlobalMSpeed)
    } else if s == "ReflectorAdjust"@ {
        Some(FixtureChannel3Attribute::ReflectorAdjust)
    } else if s == "FixtureGlobalReset"@ {
        Some(FixtureChannel3Attribute::FixtureGlobalReset)
    } else if s == "DimmerReset"@ {
        Some(FixtureChannel3Attribute::DimmerReset)
    } else if s == "ShutterReset"@ {
        Some(FixtureChannel3Attribute::ShutterReset)
    } else if s == "BeamReset"@ {
        Some(FixtureChannel3Attribute::BeamReset)
    } else if s == "ColorMixReset"@ {
        Some(FixtureChannel3Attribute::ColorMixReset)
    } else if s == "ColorWheelReset"@ {
        Some(FixtureChannel3Attribute::ColorWheelReset)
    } else if s == "FocusReset"@ {
        Some(FixtureChannel3Attribute::FocusReset)
    } else if s == "FrameReset"@ {
        Some(FixtureChannel3Attribute::FrameReset)
    } else if s == "GoboWheelReset"@ {
        Some(FixtureChannel3Attribute::GoboWheelReset)
    } else if s == "IntensityReset"@ {
        Some(FixtureChannel3Attribute::IntensityReset)
    } else if s == "IrisReset"@ {
        Some(FixtureChannel3Attribute::IrisReset)
    } else if s == "PositionReset"@ {
        Some(FixtureChannel3Attribute::PositionReset)
    } else if s == "PanReset"@ {
        Some(FixtureChannel3Attribute::PanReset)
    } else if s == "TiltReset"@ {
        Some(FixtureChannel3Attribute::TiltReset)
    } else if s == "ZoomReset"@ {
        Some(FixtureChannel3Attribute::ZoomReset)
    } else if s == "CTBReset"@ {
        Some(FixtureChannel3Attribute::CtbReset)
    } else if s == "CTOReset"@ {
        Some(FixtureChannel3Attribute::CtoReset)
    } else if s == "CTCReset"@ {
        Some(FixtureChannel3Attribute::CtcReset)
    } else if s == "AnimationSystemReset"@ {
        Some(FixtureChannel3Attribute::AnimationSystemReset)
    } else if s == "FixtureCalibrationReset"@ {
        Some(FixtureChannel3Attribute::FixtureCalibrationReset)
    } else if s == "Function"@ {
        Some(FixtureChannel3Attribute::Function)
    } else if s == "LampControl"@ {
        Some(FixtureChannel3Attribute::LampControl)
    } else if s == "DisplayIntensity"@ {
        Some(FixtureChannel3Attribute::DisplayIntensity)
    } else if s == "DMXInput"@ {
        Some(FixtureChannel3Attribute::DmxInput)
    } else if s == "NoFeature"@ {
        Some(FixtureChannel3Attribute::NoFeature)
    } else if s == "LampPowerMode"@ {
        Some(FixtureChannel3Attribute::LampPowerMode)
    } else if s == "Fans"@ {
        Some(FixtureChannel3Attribute::Fans)
    } else if s == "ShaperRot"@ {
        Some(FixtureChannel3Attribute::ShaperRot)
    } else if s == "ShaperMacros"@ {
        Some(FixtureChannel3Attribute::ShaperMacros)
    } else if s == "ShaperMacrosSpeed"@ {
        Some(FixtureChannel3Attribute::ShaperMacrosSpeed)
    } else if s == "Video"@ {
        Some(FixtureChannel3Attribute::Video)
    } else if s == "VideoBlendMode"@ {
        Some(FixtureChannel3Attribute::VideoBlendMode)
    } else if s == "InputSource"@ {
        Some(FixtureChannel3Attribute::InputSource)
    } else if s == "FieldOfView"@ {
        Some(FixtureChannel3Attribute::FieldOfView)
    } else {
        None
    }
}

/// The attribute whose GDTF name is exactly `s`, if there is one.
pub open spec fn exact_attribute(s: Seq<char>) -> Option<FixtureChannel3Attribute> {
    if exact_attribute_0(s) is Some { exact_attribute_0(s) } else { if exact_attribute_1(s) is Some { exact_attribute_1(s) } else { if exact_attribute_2(s) is Some { exact_attribute_2(s) } else { exact_attribute_3(s) } } }
}

/// The numbered attribute that `s` names by one of a part of the numbering rules.
#[verifier::opaque]
pub open spec fn numbered_attribute_0(s: Seq<char>) -> Option<FixtureChannel3Attribute> {
    if extract_n(s, "Gobo"@) is Some {
        Some(FixtureChannel3Attribute::Gobo(extract_n(s, "Gobo"@)->Some_0))
    } else if extract_n_suffix(s, "Gobo"@, "SelectSpin"@) is Some {
        Some(FixtureChannel3Attribute::GoboSelectSpin(extract_n_suffix(s, "Gobo"@, "SelectSpin"@)->Some_0))
    } else if extract_n_suffix(s, "Gobo"@, "SelectShake"@) is Some {
        Some(FixtureChannel3Attribute::GoboSelectShake(extract_n_suffix(s, "Gobo"@, "SelectShake"@)->Some_0))
    } else if extract_n_suffix(s, "Gobo"@, "SelectEffects"@) is Some {
        Some(FixtureChannel3Attribute::GoboSelectEffects(extract_n_suffix(s, "Gobo"@, "SelectEffects"@)->Some_0))
    } else if extract_n_suffix(s, "Gobo"@, "WheelIndex"@) is Some {
        Some(FixtureChannel3Attribute::GoboWheelIndex(extract_n_suffix(s, "Gobo"@, "WheelIndex"@)->Some_0))
    } else if extract_n_suffix(s, "Gobo"@, "WheelSpin"@) is Some {
        Some(FixtureChannel3Attribute::GoboWheelSpin(extract_n_suffix(s, "Gobo"@, "WheelSpin"@)->Some_0))
    } else if extract_n_suffix(s, "Gobo"@, "WheelShake"@) is Some {
        Some(FixtureChannel3Attribute::GoboWheelShake(extract_n_suffix(s, "Gobo"@, "WheelShake"@)->Some_0))
    } else if extract_n_suffix(s, "Gobo"@, "WheelRandom"@) is Some {
        Some(FixtureChannel3Attribute::GoboWheelRandom(extract_n_suffix(s, "Gobo"@, "WheelRandom"@)->Some_0))
    } else if extract_n_suffix(s, "Gobo"@, "WheelAudio"@) is Some {
        Some(FixtureChannel3Attribute::GoboWheelAudio(extract_n_suffix(s, "Gobo"@, "WheelAudio"@)->Some_0))
    } else if extract_n_suffix(s, "Gobo"@, "Pos"@) is Some {
        Some(FixtureChannel3Attribute::GoboPos(extract_n_suffix(s, "Gobo"@, "Pos"@)->Some_0))
    } else if extract_n_suffix(s, "Gobo"@, "PosRotate"@) is Some {
        Some(FixtureChannel3Attribute::GoboPosRotate(extract_n_suffix(s, "Gobo"@, "PosRotate"@)->Some_0))
    } else if extract_n_suffix(s, "Gobo"@, "PosShake"@) is Some {
        Some(FixtureChannel3Attribute::GoboPosShake(extract_n_suffix(s, "Gobo"@, "PosShake"@)->Some_0))
    } else if extract_n(s, "AnimationWheel"@) is Some {
        Some(FixtureChannel3Attribute::AnimationWheel(extract_n(s, "AnimationWheel"@)->Some_0))
    } else if extract_n_suffix(s, "AnimationWheel"@, "Audio"@) is Some {
        Some(FixtureChannel3Attribute::AnimationWheelAudio(extract_n_suffix(s, "AnimationWheel"@, "Audio"@)->Some_0))
    } else if extract_n_suffix(s, "AnimationWheel"@, "Macro"@) is Some {
        Some(FixtureChannel3Attribute::AnimationWheelMacro(extract_n_suffix(s, "AnimationWheel"@, "Macro"@)->Some_0))
    } else if extract_n_suffix(s, "AnimationWheel"@, "Random"@) is Some {
        Some(FixtureChannel3Attribute::AnimationWheelRandom(extract_n_suffix(s, "AnimationWheel"@, "Random"@)->Some_0))
    } else if extract_n_suffix(s, "AnimationWheel"@, "SelectEffects"@) is Some {
        Some(FixtureChannel3Attribute::AnimationWheelSelectEffects(extract_n_suffix(s, "AnimationWheel"@, "SelectEffects"@)->Some_0))
    } else if extract_n_suffix(s, "AnimationWheel"@, "SelectShake"@) is Some {
        Some(FixtureChannel3Attribute::AnimationWheelSelectShake(extract_n_suffix(s, "AnimationWheel"@, "SelectShake"@)->Some_0))
    } else if extract_n_suffix(s, "AnimationWheel"@, "SelectSpin"@) is Some {
        Some(FixtureChannel3Attribute::AnimationWheelSelectSpin(extract_n_suffix(s, "AnimationWheel"@, "SelectSpin"@)->Some_0))
    } else if extract_n_suffix(s, "AnimationWheel"@, "Pos"@) is Some {
        Some(FixtureChannel3Attribute::AnimationWheelPos(extract_n_suffix(s, "AnimationWheel"@, "Pos"@)->Some_0))
    } else if extract_n_suffix(s, "AnimationWheel"@, "PosRotate"@) is Some {
        Some(FixtureChannel3Attribute::AnimationWheelPosRotate(extract_n_suffix(s, "AnimationWheel"@, "PosRotate"@)->Some_0))
    } else if extract_n_suffix(s, "AnimationWheel"@, "PosShake"@) is Some {
        Some(FixtureChannel3Attribute::AnimationWheelPosShake(extract_n_suffix(s, "AnimationWheel"@, "PosShake"@)->Some_0))
    } else if extract_n(s, "AnimationSystem"@) is Some {
        Some(FixtureChannel3Attribute::AnimationSystem(extract_n(s, "AnimationSystem"@)->Some_0))
    } else if extract_n_suffix(s, "AnimationSystem"@, "Ramp"@) is Some {
        Some(FixtureChannel3Attribute::AnimationSystemRamp(extract_n_suffix(s, "AnimationSystem"@, "Ramp"@)->Some_0))
    } else if extract_n_suffix(s, "AnimationSystem"@, "Shake"@) is Some {
        Some(FixtureChannel3Attribute::AnimationSystemShake(extract_n_suffix(s, "AnimationSystem"@, "Shake"@)->Some_0))
    } else if extract_n_suffix(s, "AnimationSystem"@, "Audio"@) is Some {
        Some(FixtureChannel3Attribute::AnimationSystemAudio(extract_n_suffix(s, "AnimationSystem"@, "Audio"@)->Some_0))
    } else if extract_n_suffix(s, "AnimationSystem"@, "Random"@) is Some {
        Some(FixtureChannel3Attribute::AnimationSystemRandom(extract_n_suffix(s, "AnimationSystem"@, "Random"@)->Some_0))
    } else if extract_n_suffix(s, "AnimationSystem"@, "Pos"@) is Some {
        Some(FixtureChannel3Attribute::AnimationSystemPos(extract_n_suffix(s, "AnimationSystem"@, "Pos"@)->Some_0))
    } else if extract_n_suffix(s, "AnimationSystem"@, "PosRotate"@) is Some {
        Some(FixtureChannel3Attribute::AnimationSystemPosRotate(extract_n_suffix(s, "AnimationSystem"@, "PosRotate"@)->Some_0))
    } else if extract_n_suffix(s, "AnimationSystem"@, "PosShake"@) is Some {
        Some(FixtureChannel3Attribute::AnimationSystemPosShake(extract_n_suffix(s, "AnimationSystem"@, "PosShake"@)->Some_0))
    } else if extract_n_suffix(s, "AnimationSystem"@, "PosRandom"@) is Some {
        Some(FixtureChannel3Attribute::AnimationSystemPosRandom(extract_n_suffix(s, "AnimationSystem"@, "PosRandom"@)->Some_0))
    } else if extract_n_suffix(s, "AnimationSystem"@, "PosAudio"@) is Some {
        Some(FixtureChannel3Attribute::AnimationSystemPosAudio(extract_n_suffix(s, "AnimationSystem"@, "PosAudio"@)->Some_0))
    } else {
        None
    }
}

/// The numbered attribute that `s` names by one of a part of the numbering rules.
#[verifier::opaque]
pub open spec fn numbered_attribute_1(s: Seq<char>) -> Option<FixtureChannel3Attribute> {
    if extract_n_suffix(s, "AnimationSystem"@, "Macro"@) is Some {
        Some(FixtureChannel3Attribute::AnimationSystemMacro(extract_n_suffix(s, "AnimationSystem"@, "Macro"@)->Some_0))
    } else if extract_n(s, "MediaFolder"@) is Some {
        Some(FixtureChannel3Attribute::MediaFolder(extract_n(s, "MediaFolder"@)->Some_0))
    } else if extract_n(s, "MediaContent"@) is Some {
        Some(FixtureChannel3Attribute::MediaContent(extract_n(s, "MediaContent"@)->Some_0))
    } else if extract_n(s, "ModelFolder"@) is Some {
        Some(FixtureChannel3Attribute::ModelFolder(extract_n(s, "ModelFolder"@)->Some_0))
    } else if extract_n(s, "ModelContent"@) is Some {
        Some(FixtureChannel3Attribute::ModelContent(extract_n(s, "ModelContent"@)->Some_0))
    } else if extract_n(s, "ColorEffects"@) is Some {
        Some(FixtureChannel3Attribute::ColorEffects(extract_n(s, "ColorEffects"@)->Some_0))
    } else if extract_n(s, "Color"@) is Some {
        Some(FixtureChannel3Attribute::Color(extract_n(s, "Color"@)->Some_0))
    } else if extract_n_suffix(s, "Color"@, "WheelIndex"@) is Some {
        Some(FixtureChannel3Attribute::ColorWheelIndex(extract_n_suffix(s, "Color"@, "WheelIndex"@)->Some_0))
    } else if extract_n_suffix(s, "Color"@, "WheelSpin"@) is Some {
        Some(FixtureChannel3Attribute::ColorWheelSpin(extract_n_suffix(s, "Color"@, "WheelSpin"@)->Some_0))
    } else if extract_n_suffix(s, "Color"@, "WheelRandom"@) is Some {
        Some(FixtureChannel3Attribute::ColorWheelRandom(extract_n_suffix(s, "Color"@, "WheelRandom"@)->Some_0))
    } else if extract_n_suffix(s, "Color"@, "WheelAudio"@) is Some {
        Some(FixtureChannel3Attribute::ColorWheelAudio(extract_n_suffix(s, "Color"@, "WheelAudio"@)->Some_0))
    } else if extract_n(s, "ColorMacro"@) is Some {
        Some(FixtureChannel3Attribute::ColorMacro(extract_n(s, "ColorMacro"@)->Some_0))
    } else if extract_n_suffix(s, "ColorMacro"@, "Rate"@) is Some {
        Some(FixtureChannel3Attribute::ColorMacroRate(extract_n_suffix(s, "ColorMacro"@, "Rate"@)->Some_0))
    } else if extract_n(s, "Shutter"@) is Some {
        Some(FixtureChannel3Attribute::Shutter(extract_n(s, "Shutter"@)->Some_0))
    } else if extract_n_suffix(s, "Shutter"@, "Strobe"@) is Some {
        Some(FixtureChannel3Attribute::ShutterStrobe(extract_n_suffix(s, "Shutter"@, "Strobe"@)->Some_0))
    } else if extract_n_suffix(s, "Shutter"@, "StrobePulse"@) is Some {
        Some(FixtureChannel3Attribute::ShutterStrobePulse(extract_n_suffix(s, "Shutter"@, "StrobePulse"@)->Some_0))
    } else if extract_n_suffix(s, "Shutter"@, "StrobePulseClose"@) is Some {
        Some(FixtureChannel3Attribute::ShutterStrobePulseClose(extract_n_suffix(s, "Shutter"@, "StrobePulseClose"@)->Some_0))
    } else if extract_n_suffix(s, "Shutter"@, "StrobePulseOpen"@) is Some {
        Some(FixtureChannel3Attribute::ShutterStrobePulseOpen(extract_n_suffix(s, "Shutter"@, "StrobePulseOpen"@)->Some_0))
    } else if extract_n_suffix(s, "Shutter"@, "StrobeRandom"@) is Some {
        Some(FixtureChannel3Attribute::ShutterStrobeRandom(extract_n_suffix(s, "Shutter"@, "StrobeRandom"@)->Some_0))
    } else if extract_n_suffix(s, "Shutter"@, "StrobeRandomPulse"@) is Some {
        Some(FixtureChannel3Attribute::ShutterStrobeRandomPulse(extract_n_suffix(s, "Shutter"@, "StrobeRandomPulse"@)->Some_0))
    } else if extract_n_suffix(s, "Shutter"@, "StrobeRandomPulseClose"@) is Some {
        Some(FixtureChannel3Attribute::ShutterStrobeRandomPulseClose(extract_n_suffix(s, "Shutter"@, "StrobeRandomPulseClose"@)->Some_0))
    } else if extract_n_suffix(s, "Shutter"@, "StrobeRandomPulseOpen"@) is Some {
        Some(FixtureChannel3Attribute::ShutterStrobeRandomPulseOpen(extract_n_suffix(s, "Shutter"@, "StrobeRandomPulseOpen"@)->Some_0))
    } else if extract_n_suffix(s, "Shutter"@, "StrobeEffect"@) is Some {
        Some(FixtureChannel3Attribute::ShutterStrobeEffect(extract_n_suffix(s, "Shutter"@, "StrobeEffect"@)->Some_0))
    } else if extract_n(s, "Frost"@) is Some {
        Some(FixtureChannel3Attribute::Frost(extract_n(s, "Frost"@)->Some_0))
    } else if extract_n_suffix(s, "Frost"@, "PulseOpen"@) is Some {
        Some(FixtureChannel3Attribute::FrostPulseOpen(extract_n_suffix(s, "Frost"@, "PulseOpen"@)->Some_0))
    } else if extract_n_suffix(s, "Frost"@, "PulseClose"@) is Some {
        Some(FixtureChannel3Attribute::FrostPulseClose(extract_n_suffix(s, "Frost"@, "PulseClose"@)->Some_0))
    } else if extract_n_suffix(s, "Frost"@, "Ramp"@) is Some {
        Some(FixtureChannel3Attribute::FrostRamp(extract_n_suffix(s, "Frost"@, "Ramp"@)->Some_0))
    } else if extract_n(s, "Prism"@) is Some {
        Some(FixtureChannel3Attribute::Prism(extract_n(s, "Prism"@)->Some_0))
    } else if extract_n_suffix(s, "Prism"@, "SelectSpin"@) is Some {
        Some(FixtureChannel3Attribute::PrismSelectSpin(extract_n_suffix(s, "Prism"@, "SelectSpin"@)->Some_0))
    } else if extract_n_suffix(s, "Prism"@, "Macro"@) is Some {
        Some(FixtureChannel3Attribute::PrismMacro(extract_n_suffix(s, "Prism"@, "Macro"@)->Some_0))
    } else if extract_n_suffix(s, "Prism"@, "Pos"@) is Some {
        Some(FixtureChannel3Attribute::PrismPos(extract_n_suffix(s, "Prism"@, "Pos"@)->Some_0))
    } else if extract_n_suffix(s, "Prism"@, "PosRotate"@) is Some {
        Some(FixtureChannel3Attribute::PrismPosRotate(extract_n_suffix(s, "Prism"@, "PosRotate"@)->Some_0))
    } else {
        None
    }
}

/// The numbered attribute that `s` names by one of a part of the numbering rules.
#[verifier::opaque]
pub open spec fn numbered_attribute_2(s: Seq<char>) -> Option<FixtureChannel3Attribute> {
    if extract_n_m(s, "Effects"@, "Adjust"@) is Some {
        Some(FixtureChannel3Attribute::EffectsAdjust(extract_n_m(s, "Effects"@, "Adjust"@)->Some_0.0, extract_n_m(s, "Effects"@, "Adjust"@)->Some_0.1))
    } else if extract_n(s, "Effects"@) is Some {
        Some(FixtureChannel3Attribute::Effects(extract_n(s, "Effects"@)->Some_0))
    } else if extract_n_suffix(s, "Effects"@, "Rate"@) is Some {
        Some(FixtureChannel3Attribute::EffectsRate(extract_n_suffix(s, "Effects"@, "Rate"@)->Some_0))
    } else if extract_n_suffix(s, "Effects"@, "Fade"@) is Some {
        Some(FixtureChannel3Attribute::EffectsFade(extract_n_suffix(s, "Effects"@, "Fade"@)->Some_0))
    } else if extract_n_suffix(s, "Effects"@, "Pos"@) is Some {
        Some(FixtureChannel3Attribute::EffectsPos(extract_n_suffix(s, "Effects"@, "Pos"@)->Some_0))
    } else if extract_n_suffix(s, "Effects"@, "PosRotate"@) is Some {
        Some(FixtureChannel3Attribute::EffectsPosRotate(extract_n_suffix(s, "Effects"@, "PosRotate"@)->Some_0))
    } else if extract_n(s, "Focus"@) is Some {
        Some(FixtureChannel3Attribute::Focus(extract_n(s, "Focus"@)->Some_0))
    } else if extract_n_suffix(s, "Focus"@, "Adjust"@) is Some {
        Some(FixtureChannel3Attribute::FocusAdjust(extract_n_suffix(s, "Focus"@, "Adjust"@)->Some_0))
    } else if extract_n_suffix(s, "Focus"@, "Distance"@) is Some {
        Some(FixtureChannel3Attribute::FocusDistance(extract_n_suffix(s, "Focus"@, "Distance"@)->Some_0))
    } else if extract_n(s, "Control"@) is Some {
        Some(FixtureChannel3Attribute::Control(extract_n(s, "Control"@)->Some_0))
    } else if extract_n_suffix(s, "Gobo"@, "WheelMode"@) is Some {
        Some(FixtureChannel3Attribute::GoboWheelMode(extract_n_suffix(s, "Gobo"@, "WheelMode"@)->Some_0))
    } else if extract_n_suffix(s, "AnimationWheel"@, "Mode"@) is Some {
        Some(FixtureChannel3Attribute::AnimationWheelMode(extract_n_suffix(s, "AnimationWheel"@, "Mode"@)->Some_0))
    } else if extract_n_suffix(s, "Color"@, "Mode"@) is Some {
        Some(FixtureChannel3Attribute::ColorMode(extract_n_suffix(s, "Color"@, "Mode"@)->Some_0))
    } else if extract_n_suffix(s, "Fan"@, "Mode"@) is Some {
        Some(FixtureChannel3Attribute::FanMode(extract_n_suffix(s, "Fan"@, "Mode"@)->Some_0))
    } else if extract_n_suffix(s, "GoboWheel"@, "MSpeed"@) is Some {
        Some(FixtureChannel3Attribute::GoboWheelMSpeed(extract_n_suffix(s, "GoboWheel"@, "MSpeed"@)->Some_0))
    } else if extract_n_suffix(s, "Prism"@, "MSpeed"@) is Some {
        Some(FixtureChannel3Attribute::PrismMSpeed(extract_n_suffix(s, "Prism"@, "MSpeed"@)->Some_0))
    } else if extract_n_suffix(s, "Frost"@, "MSpeed"@) is Some {
        Some(FixtureChannel3Attribute::FrostMSpeed(extract_n_suffix(s, "Frost"@, "MSpeed"@)->Some_0))
    } else if extract_n(s, "Blower"@) is Some {
        Some(FixtureChannel3Attribute::Blower(extract_n(s, "Blower"@)->Some_0))
    } else if extract_n(s, "Fan"@) is Some {
        Some(FixtureChannel3Attribute::Fan(extract_n(s, "Fan"@)->Some_0))
    } else if extract_n(s, "Fog"@) is Some {
        Some(FixtureChannel3Attribute::Fog(extract_n(s, "Fog"@)->Some_0))
    } else if extract_n(s, "Haze"@) is Some {
        Some(FixtureChannel3Attribute::Haze(extract_n(s, "Haze"@)->Some_0))
    } else if extract_n_suffix(s, "Blade"@, "A"@) is Some {
        Some(FixtureChannel3Attribute::BladeA(extract_n_suffix(s, "Blade"@, "A"@)->Some_0))
    } else if extract_n_suffix(s, "Blade"@, "B"@) is Some {
        Some(FixtureChannel3Attribute::BladeB(extract_n_suffix(s, "Blade"@, "B"@)->Some_0))
    } else if extract_n_suffix(s, "Blade"@, "Rot"@) is Some {
        Some(FixtureChannel3Attribute::BladeRot(extract_n_suffix(s, "Blade"@, "Rot"@)->Some_0))
    } else if extract_n_suffix(s, "BladeSoft"@, "A"@) is Some {
        Some(FixtureChannel3Attribute::BladeSoftA(extract_n_suffix(s, "BladeSoft"@, "A"@)->Some_0))
    } else if extract_n_suffix(s, "BladeSoft"@, "B"@) is Some {
        Some(FixtureChannel3Attribute::BladeSoftB(extract_n_suffix(s, "BladeSoft"@, "B"@)->Some_0))
    } else if extract_n_suffix(s, "KeyStone"@, "A"@) is Some {
        Some(FixtureChannel3Attribute::KeyStoneA(extract_n_suffix(s, "KeyStone"@, "A"@)->Some_0))
    } else if extract_n_suffix(s, "KeyStone"@, "B"@) is Some {
        Some(FixtureChannel3Attribute::KeyStoneB(extract_n_suffix(s, "KeyStone"@, "B"@)->Some_0))
    } else if extract_n_suffix(s, "VideoEffect"@, "Type"@) is Some {
        Some(FixtureChannel3Attribute::VideoEffectType(extract_n_suffix(s, "VideoEffect"@, "Type"@)->Some_0))
    } else if extract_n_m(s, "VideoEffect"@, "Parameter"@) is Some {
        Some(FixtureChannel3Attribute::VideoEffectParameter(extract_n_m(s, "VideoEffect"@, "Parameter"@)->Some_0.0, extract_n_m(s, "VideoEffect"@, "Parameter"@)->Some_0.1))
    } else if extract_n(s, "VideoCamera"@) is Some {
        Some(FixtureChannel3Attribute::VideoCamera(extract_n(s, "VideoCamera"@)->Some_0))
    } else if extract_n(s, "VideoSoundVolume"@) is Some {
        Some(FixtureChannel3Attribute::VideoSoundVolume(extract_n(s, "VideoSoundVolume"@)->Some_0))
    } else {
        None
    }
}

/// The numbered attribute that `s` names, by the first numbering rule that applies.
pub open spec fn numbered_attribute(s: Seq<char>) -> Option<FixtureChannel3Attribute> {
    if numbered_attribute_0(s) is Some { numbered_attribute_0(s) } else { if numbered_attribute_1(s) is Some { numbered_attribute_1(s) } else { numbered_attribute_2(s) } }
}

impl FixtureChannel3Attribute {
    /// A copy of the attribute.
    pub fn duplicate(&self) -> (res: Self)
        ensures
            res == *self,
    {
        match self {
            FixtureChannel3Attribute::Dimmer => FixtureChannel3Attribute::Dimmer,
            FixtureChannel3Attribute::Pan => FixtureChannel3Attribute::Pan,
            FixtureChannel3Attribute::Tilt => FixtureChannel3Attribute::Tilt,
            FixtureChannel3Attribute::PanRotate => FixtureChannel3Attribute::PanRotate,
            FixtureChannel3Attribute::TiltRotate => FixtureChannel3Attribute::TiltRotate,
            FixtureChannel3Attribute::PositionEffect => FixtureChannel3Attribute::PositionEffect,
            FixtureChannel3Attribute::PositionEffectRate => FixtureChannel3Attribute::PositionEffectRate,
            FixtureChannel3Attribute::PositionEffectFade => FixtureChannel3Attribute::PositionEffectFade,
            FixtureChannel3Attribute::XyzX => FixtureChannel3Attribute::XyzX,
            FixtureChannel3Attribute::XyzY => FixtureChannel3Attribute::XyzY,
            FixtureChannel3Attribute::XyzZ => FixtureChannel3Attribute::XyzZ,
            FixtureChannel3Attribute::RotX => FixtureChannel3Attribute::RotX,
            FixtureChannel3Attribute::RotY => FixtureChannel3Attribute::RotY,
            FixtureChannel3Attribute::RotZ => FixtureChannel3Attribute::RotZ,
            FixtureChannel3Attribute::ScaleX => FixtureChannel3Attribute::ScaleX,
            FixtureChannel3Attribute::ScaleY => FixtureChannel3Attribute::ScaleY,
            FixtureChannel3Attribute::ScaleZ => FixtureChannel3Attribute::ScaleZ,
            FixtureChannel3Attribute::ScaleXYZ => FixtureChannel3Attribute::ScaleXYZ,
            FixtureChannel3Attribute::Gobo(n) => FixtureChannel3Attribute::Gobo(*n),
            FixtureChannel3Attribute::GoboSelectSpin(n) => FixtureChannel3Attribute::GoboSelectSpin(*n),
            FixtureChannel3Attribute::GoboSelectShake(n) => FixtureChannel3Attribute::GoboSelectShake(*n),
            FixtureChannel3Attribute::GoboSelectEffects(n) => FixtureChannel3Attribute::GoboSelectEffects(*n),
            FixtureChannel3Attribute::GoboWheelIndex(n) => FixtureChannel3Attribute::GoboWheelIndex(*n),
            FixtureChannel3Attribute::GoboWheelSpin(n) => FixtureChannel3Attribute::GoboWheelSpin(*n),
            FixtureChannel3Attribute::GoboWheelShake(n) => FixtureChannel3Attribute::GoboWheelShake(*n),
            FixtureChannel3Attribute::GoboWheelRandom(n) => FixtureChannel3Attribute::GoboWheelRandom(*n),
            FixtureChannel3Attribute::GoboWheelAudio(n) => FixtureChannel3Attribute::GoboWheelAudio(*n),
            FixtureChannel3Attribute::GoboPos(n) => FixtureChannel3Attribute::GoboPos(*n),
            FixtureChannel3Attribute::GoboPosRotate(n) => FixtureChannel3Attribute::GoboPosRotate(*n),
            FixtureChannel3Attribute::GoboPosShake(n) => FixtureChannel3Attribute::GoboPosShake(*n),
            FixtureChannel3Attribute::AnimationWheel(n) => FixtureChannel3Attribute::AnimationWheel(*n),
            FixtureChannel3Attribute::AnimationWheelAudio(n) => FixtureChannel3Attribute::AnimationWheelAudio(*n),
            FixtureChannel3Attribute::AnimationWheelMacro(n) => FixtureChannel3Attribute::AnimationWheelMacro(*n),
            FixtureChannel3Attribute::AnimationWheelRandom(n) => FixtureChannel3Attribute::AnimationWheelRandom(*n),
            FixtureChannel3Attribute::AnimationWheelSelectEffects(n) => FixtureChannel3Attribute::AnimationWheelSelectEffects(*n),
            FixtureChannel3Attribute::AnimationWheelSelectShake(n) => FixtureChannel3Attribute::AnimationWheelSelectShake(*n),
            FixtureChannel3Attribute::AnimationWheelSelectSpin(n) => FixtureChannel3Attribute::AnimationWheelSelectSpin(*n),
            FixtureChannel3Attribute::AnimationWheelPos(n) => FixtureChannel3Attribute::AnimationWheelPos(*n),
            FixtureChannel3Attribute::AnimationWheelPosRotate(n) => FixtureChannel3Attribute::AnimationWheelPosRotate(*n),
            FixtureChannel3Attribute::AnimationWheelPosShake(n) => FixtureChannel3Attribute::AnimationWheelPosShake(*n),
            FixtureChannel3Attribute::AnimationSystem(n) => FixtureChannel3Attribute::AnimationSystem(*n),
            FixtureChannel3Attribute::AnimationSystemRamp(n) => FixtureChannel3Attribute::AnimationSystemRamp(*n),
            FixtureChannel3Attribute::AnimationSystemShake(n) => FixtureChannel3Attribute::AnimationSystemShake(*n),
            FixtureChannel3Attribute::AnimationSystemAudio(n) => FixtureChannel3Attribute::AnimationSystemAudio(*n),
            FixtureChannel3Attribute::AnimationSystemRandom(n) => FixtureChannel3Attribute::AnimationSystemRandom(*n),
            FixtureChannel3Attribute::AnimationSystemPos(n) => FixtureChannel3Attribute::AnimationSystemPos(*n),
            FixtureChannel3Attribute::AnimationSystemPosRotate(n) => FixtureChannel3Attribute::AnimationSystemPosRotate(*n),
            FixtureChannel3Attribute::AnimationSystemPosShake(n) => FixtureChannel3Attribute::AnimationSystemPosShake(*n),
            FixtureChannel3Attribute::AnimationSystemPosRandom(n) => FixtureChannel3Attribute::AnimationSystemPosRandom(*n),
            FixtureChannel3Attribute::AnimationSystemPosAudio(n) => FixtureChannel3Attribute::AnimationSystemPosAudio(*n),
            FixtureChannel3Attribute::AnimationSystemMacro(n) => FixtureChannel3Attribute::AnimationSystemMacro(*n),
            FixtureChannel3Attribute::MediaFolder(n) => FixtureChannel3Attribute::MediaFolder(*n),
            FixtureChannel3Attribute::MediaContent(n) => FixtureChannel3Attribute::MediaContent(*n),
            FixtureChannel3Attribute::ModelFolder(n) => FixtureChannel3Attribute::ModelFolder(*n),
            FixtureChannel3Attribute::ModelContent(n) => FixtureChannel3Attribute::ModelContent(*n),
            FixtureChannel3Attribute::PlayMode => FixtureChannel3Attribute::PlayMode,
            FixtureChannel3Attribute::PlayBegin => FixtureChannel3Attribute::PlayBegin,
            FixtureChannel3Attribute::PlayEnd => FixtureChannel3Attribute::PlayEnd,
            FixtureChannel3Attribute::PlaySpeed => FixtureChannel3Attribute::PlaySpeed,
            FixtureChannel3Attribute::ColorEffects(n) => FixtureChannel3Attribute::ColorEffects(*n),
            FixtureChannel3Attribute::Color(n) => FixtureChannel3Attribute::Color(*n),
            FixtureChannel3Attribute::ColorWheelIndex(n) => FixtureChannel3Attribute::ColorWheelIndex(*n),
            FixtureChannel3Attribute::ColorWheelSpin(n) => FixtureChannel3Attribute::ColorWheelSpin(*n),
            FixtureChannel3Attribute::ColorWheelRandom(n) => FixtureChannel3Attribute::ColorWheelRandom(*n),
            FixtureChannel3Attribute::ColorWheelAudio(n) => FixtureChannel3Attribute::ColorWheelAudio(*n),
            FixtureChannel3Attribute::ColorAddR => FixtureChannel3Attribute::ColorAddR,
            FixtureChannel3Attribute::ColorAddG => FixtureChannel3Attribute::ColorAddG,
            FixtureChannel3Attribute::ColorAddB => FixtureChannel3Attribute::ColorAddB,
            FixtureChannel3Attribute::ColorAddC => FixtureChannel3Attribute::ColorAddC,
            FixtureChannel3Attribute::ColorAddM => FixtureChannel3Attribute::ColorAddM,
            FixtureChannel3Attribute::ColorAddY => FixtureChannel3Attribute::ColorAddY,
            FixtureChannel3Attribute::ColorAddRY => FixtureChannel3Attribute::ColorAddRY,
            FixtureChannel3Attribute::ColorAddGY => FixtureChannel3Attribute::ColorAddGY,
            FixtureChannel3Attribute::ColorAddGC => FixtureChannel3Attribute::ColorAddGC,
            FixtureChannel3Attribute::ColorAddBC => FixtureChannel3Attribute::ColorAddBC,
            FixtureChannel3Attribute::ColorAddBM => FixtureChannel3Attribute::ColorAddBM,
            FixtureChannel3Attribute::ColorAddRM => FixtureChannel3Attribute::ColorAddRM,
            FixtureChannel3Attribute::ColorAddW => FixtureChannel3Attribute::ColorAddW,
            FixtureChannel3Attribute::ColorAddWW => FixtureChannel3Attribute::ColorAddWW,
            FixtureChannel3Attribute::ColorAddCW => FixtureChannel3Attribute::ColorAddCW,
            FixtureChannel3Attribute::ColorAddUV => FixtureChannel3Attribute::ColorAddUV,
            FixtureChannel3Attribute::ColorSubR => FixtureChannel3Attribute::ColorSubR,
            FixtureChannel3Attribute::ColorSubG => FixtureChannel3Attribute::ColorSubG,
            FixtureChannel3Attribute::ColorSubB => FixtureChannel3Attribute::ColorSubB,
            FixtureChannel3Attribute::ColorSubC => FixtureChannel3Attribute::ColorSubC,
            FixtureChannel3Attribute::ColorSubM => FixtureChannel3Attribute::ColorSubM,
            FixtureChannel3Attribute::ColorSubY => FixtureChannel3Attribute::ColorSubY,
            FixtureChannel3Attribute::ColorMacro(n) => FixtureChannel3Attribute::ColorMacro(*n),
            FixtureChannel3Attribute::ColorMacroRate(n) => FixtureChannel3Attribute::ColorMacroRate(*n),
            FixtureChannel3Attribute::Cto => FixtureChannel3Attribute::Cto,
            FixtureChannel3Attribute::Ctc => FixtureChannel3Attribute::Ctc,
            FixtureChannel3Attribute::Ctb => FixtureChannel3Attribute::Ctb,
            FixtureChannel3Attribute::Tint => FixtureChannel3Attribute::Tint,
            FixtureChannel3Attribute::HsbHue => FixtureChannel3Attribute::HsbHue,
            FixtureChannel3Attribute::HsbSaturation => FixtureChannel3Attribute::HsbSaturation,
            FixtureChannel3Attribute::HsbBrightness => FixtureChannel3Attribute::HsbBrightness,
            FixtureChannel3Attribute::HsbQuality => FixtureChannel3Attribute::HsbQuality,
            FixtureChannel3Attribute::CieX => FixtureChannel3Attribute::CieX,
            FixtureChannel3Attribute::CieY => FixtureChannel3Attribute::CieY,
            FixtureChannel3Attribute::CieBrightness => FixtureChannel3Attribute::CieBrightness,
            FixtureChannel3Attribute::ColorRgbRed => FixtureChannel3Attribute::ColorRgbRed,
            FixtureChannel3Attribute::ColorRgbGreen => FixtureChannel3Attribute::ColorRgbGreen,
            FixtureChannel3Attribute::ColorRgbBlue => FixtureChannel3Attribute::ColorRgbBlue,
            FixtureChannel3Attribute::ColorRgbCyan => FixtureChannel3Attribute::ColorRgbCyan,
            FixtureChannel3Attribute::ColorRgbMagenta => FixtureChannel3Attribute::ColorRgbMagenta,
            FixtureChannel3Attribute::ColorRgbYellow => FixtureChannel3Attribute::ColorRgbYellow,
            FixtureChannel3Attribute::ColorRgbQuality => FixtureChannel3Attribute::ColorRgbQuality,
            FixtureChannel3Attribute::VideoBoostR => FixtureChannel3Attribute::VideoBoostR,
            FixtureChannel3Attribute::VideoBoostG => FixtureChannel3Attribute::VideoBoostG,
            FixtureChannel3Attribute::VideoBoostB => FixtureChannel3Attribute::VideoBoostB,
            FixtureChannel3Attribute::VideoHueShift => FixtureChannel3Attribute::VideoHueShift,
            FixtureChannel3Attribute::VideoSaturation => FixtureChannel3Attribute::VideoSaturation,
            FixtureChannel3Attribute::VideoBrightness => FixtureChannel3Attribute::VideoBrightness,
            FixtureChannel3Attribute::VideoContrast => FixtureChannel3Attribute::VideoContrast,
            FixtureChannel3Attribute::VideoKeyColorR => FixtureChannel3Attribute::VideoKeyColorR,
            FixtureChannel3Attribute::VideoKeyColorG => FixtureChannel3Attribute::VideoKeyColorG,
            FixtureChannel3Attribute::VideoKeyColorB => FixtureChannel3Attribute::VideoKeyColorB,
            FixtureChannel3Attribute::VideoKeyIntensity => FixtureChannel3Attribute::VideoKeyIntensity,
            FixtureChannel3Attribute::VideoKeyTolerance => FixtureChannel3Attribute::VideoKeyTolerance,
            FixtureChannel3Attribute::StrobeDuration => FixtureChannel3Attribute::StrobeDuration,
            FixtureChannel3Attribute::StrobeRate => FixtureChannel3Attribute::StrobeRate,
            FixtureChannel3Attribute::StrobeFrequency => FixtureChannel3Attribute::StrobeFrequency,
            FixtureChannel3Attribute::StrobeModeShutter => FixtureChannel3Attribute::StrobeModeShutter,
            FixtureChannel3Attribute::StrobeModeStrobe => FixtureChannel3Attribute::StrobeModeStrobe,
            FixtureChannel3Attribute::StrobeModePulse => FixtureChannel3Attribute::StrobeModePulse,
            FixtureChannel3Attribute::StrobeModePulseOpen => FixtureChannel3Attribute::StrobeModePulseOpen,
            FixtureChannel3Attribute::StrobeModePulseClose => FixtureChannel3Attribute::StrobeModePulseClose,
            FixtureChannel3Attribute::StrobeModeRandom => FixtureChannel3Attribute::StrobeModeRandom,
            FixtureChannel3Attribute::StrobeModeRandomPulse => FixtureChannel3Attribute::StrobeModeRandomPulse,
            FixtureChannel3Attribute::StrobeModeRandomPulseOpen => FixtureChannel3Attribute::StrobeModeRandomPulseOpen,
            FixtureChannel3Attribute::StrobeModeRandomPulseClose => FixtureChannel3Attribute::StrobeModeRandomPulseClose,
            FixtureChannel3Attribute::StrobeModeEffect => FixtureChannel3Attribute::StrobeModeEffect,
            FixtureChannel3Attribute::Shutter(n) => FixtureChannel3Attribute::Shutter(*n),
            FixtureChannel3Attribute::ShutterStrobe(n) => FixtureChannel3Attribute::ShutterStrobe(*n),
            FixtureChannel3Attribute::ShutterStrobePulse(n) => FixtureChannel3Attribute::ShutterStrobePulse(*n),
            FixtureChannel3Attribute::ShutterStrobePulseClose(n) => FixtureChannel3Attribute::ShutterStrobePulseClose(*n),
            FixtureChannel3Attribute::ShutterStrobePulseOpen(n) => FixtureChannel3Attribute::ShutterStrobePulseOpen(*n),
            FixtureChannel3Attribute::ShutterStrobeRandom(n) => FixtureChannel3Attribute::ShutterStrobeRandom(*n),
            FixtureChannel3Attribute::ShutterStrobeRandomPulse(n) => FixtureChannel3Attribute::ShutterStrobeRandomPulse(*n),
            FixtureChannel3Attribute::ShutterStrobeRandomPulseClose(n) => FixtureChannel3Attribute::ShutterStrobeRandomPulseClose(*n),
            FixtureChannel3Attribute::ShutterStrobeRandomPulseOpen(n) => FixtureChannel3Attribute::ShutterStrobeRandomPulseOpen(*n),
            FixtureChannel3Attribute::ShutterStrobeEffect(n) => FixtureChannel3Attribute::ShutterStrobeEffect(*n),
            FixtureChannel3Attribute::Iris => FixtureChannel3Attribute::Iris,
            FixtureChannel3Attribute::IrisStrobe => FixtureChannel3Attribute::IrisStrobe,
            FixtureChannel3Attribute::IrisStrobeRandom => FixtureChannel3Attribute::IrisStrobeRandom,
            FixtureChannel3Attribute::IrisPulseClose => FixtureChannel3Attribute::IrisPulseClose,
            FixtureChannel3Attribute::IrisPulseOpen => FixtureChannel3Attribute::IrisPulseOpen,
            FixtureChannel3Attribute::IrisRandomPulseClose => FixtureChannel3Attribute::IrisRandomPulseClose,
            FixtureChannel3Attribute::IrisRandomPulseOpen => FixtureChannel3Attribute::IrisRandomPulseOpen,
            FixtureChannel3Attribute::Frost(n) => FixtureChannel3Attribute::Frost(*n),
            FixtureChannel3Attribute::FrostPulseOpen(n) => FixtureChannel3Attribute::FrostPulseOpen(*n),
            FixtureChannel3Attribute::FrostPulseClose(n) => FixtureChannel3Attribute::FrostPulseClose(*n),
            FixtureChannel3Attribute::FrostRamp(n) => FixtureChannel3Attribute::FrostRamp(*n),
            FixtureChannel3Attribute::Prism(n) => FixtureChannel3Attribute::Prism(*n),
            FixtureChannel3Attribute::PrismSelectSpin(n) => FixtureChannel3Attribute::PrismSelectSpin(*n),
            FixtureChannel3Attribute::PrismMacro(n) => FixtureChannel3Attribute::PrismMacro(*n),
            FixtureChannel3Attribute::PrismPos(n) => FixtureChannel3Attribute::PrismPos(*n),
            FixtureChannel3Attribute::PrismPosRotate(n) => FixtureChannel3Attribute::PrismPosRotate(*n),
            FixtureChannel3Attribute::Effects(n) => FixtureChannel3Attribute::Effects(*n),
            FixtureChannel3Attribute::EffectsRate(n) => FixtureChannel3Attribute::EffectsRate(*n),
            FixtureChannel3Attribute::EffectsFade(n) => FixtureChannel3Attribute::EffectsFade(*n),
            FixtureChannel3Attribute::EffectsAdjust(n, m) => FixtureChannel3Attribute::EffectsAdjust(*n, *m),
            FixtureChannel3Attribute::EffectsPos(n) => FixtureChannel3Attribute::EffectsPos(*n),
            FixtureChannel3Attribute::EffectsPosRotate(n) => FixtureChannel3Attribute::EffectsPosRotate(*n),
            FixtureChannel3Attribute::EffectsSync => FixtureChannel3Attribute::EffectsSync,
            FixtureChannel3Attribute::BeamShaper => FixtureChannel3Attribute::BeamShaper,
            FixtureChannel3Attribute::BeamShaperMacro => FixtureChannel3Attribute::BeamShaperMacro,
            FixtureChannel3Attribute::BeamShaperPos => FixtureChannel3Attribute::BeamShaperPos,
            FixtureChannel3Attribute::BeamShaperPosRotate => FixtureChannel3Attribute::BeamShaperPosRotate,
            FixtureChannel3Attribute::Zoom => FixtureChannel3Attribute::Zoom,
            FixtureChannel3Attribute::ZoomModeSpot => FixtureChannel3Attribute::ZoomModeSpot,
            FixtureChannel3Attribute::ZoomModeBeam => FixtureChannel3Attribute::ZoomModeBeam,
            FixtureChannel3Attribute::DigitalZoom => FixtureChannel3Attribute::DigitalZoom,
            FixtureChannel3Attribute::Focus(n) => FixtureChannel3Attribute::Focus(*n),
            FixtureChannel3Attribute::FocusAdjust(n) => FixtureChannel3Attribute::FocusAdjust(*n),
            FixtureChannel3Attribute::FocusDistance(n) => FixtureChannel3Attribute::FocusDistance(*n),
            FixtureChannel3Attribute::Control(n) => FixtureChannel3Attribute::Control(*n),
            FixtureChannel3Attribute::DimmerMode => FixtureChannel3Attribute::DimmerMode,
            FixtureChannel3Attribute::DimmerCurve => FixtureChannel3Attribute::DimmerCurve,
            FixtureChannel3Attribute::BlackoutMode => FixtureChannel3Attribute::BlackoutMode,
            FixtureChannel3Attribute::LedFrequency => FixtureChannel3Attribute::LedFrequency,
            FixtureChannel3Attribute::LedZoneMode => FixtureChannel3Attribute::LedZoneMode,
            FixtureChannel3Attribute::PixelMode => FixtureChannel3Attribute::PixelMode,
            FixtureChannel3Attribute::PanMode => FixtureChannel3Attribute::PanMode,
            FixtureChannel3Attribute::TiltMode => FixtureChannel3Attribute::TiltMode,
            FixtureChannel3Attribute::PanTiltMode => FixtureChannel3Attribute::PanTiltMode,
            FixtureChannel3Attribute::PositionModes => FixtureChannel3Attribute::PositionModes,
            FixtureChannel3Attribute::GoboWheelMode(n) => FixtureChannel3Attribute::GoboWheelMode(*n),
            FixtureChannel3Attribute::GoboWheelShortcutMode => FixtureChannel3Attribute::GoboWheelShortcutMode,
            FixtureChannel3Attribute::AnimationWheelMode(n) => FixtureChannel3Attribute::AnimationWheelMode(*n),
            FixtureChannel3Attribute::AnimationWheelShortcutMode => FixtureChannel3Attribute::AnimationWheelShortcutMode,
            FixtureChannel3Attribute::ColorMode(n) => FixtureChannel3Attribute::ColorMode(*n),
            FixtureChannel3Attribute::ColorWheelShortcutMode => FixtureChannel3Attribute::ColorWheelShortcutMode,
            FixtureChannel3Attribute::CyanMode => FixtureChannel3Attribute::CyanMode,
            FixtureChannel3Attribute::MagentaMode => FixtureChannel3Attribute::MagentaMode,
            FixtureChannel3Attribute::YellowMode => FixtureChannel3Attribute::YellowMode,
            FixtureChannel3Attribute::ColorMixMode => FixtureChannel3Attribute::ColorMixMode,
            FixtureChannel3Attribute::ChromaticMode => FixtureChannel3Attribute::ChromaticMode,
            FixtureChannel3Attribute::ColorCalibrationMode => FixtureChannel3Attribute::ColorCalibrationMode,
            FixtureChannel3Attribute::ColorConsistency => FixtureChannel3Attribute::ColorConsistency,
            FixtureChannel3Attribute::ColorControl => FixtureChannel3Attribute::ColorControl,
            FixtureChannel3Attribute::ColorModelMode => FixtureChannel3Attribute::ColorModelMode,
            FixtureChannel3Attribute::ColorSettingsReset => FixtureChannel3Attribute::ColorSettingsReset,
            FixtureChannel3Attribute::ColorUniformity => FixtureChannel3Attribute::ColorUniformity,
            FixtureChannel3Attribute::CriMode => FixtureChannel3Attribute::CriMode,
            FixtureChannel3Attribute::CustomColor => FixtureChannel3Attribute::CustomColor,
            FixtureChannel3Attribute::UvStability => FixtureChannel3Attribute::UvStability,
            FixtureChannel3Attribute::WavelengthCorrection => FixtureChannel3Attribute::WavelengthCorrection,
            FixtureChannel3Attribute::WhiteCount => FixtureChannel3Attribute::WhiteCount,
            FixtureChannel3Attribute::StrobeMode => FixtureChannel3Attribute::StrobeMode,
            FixtureChannel3Attribute::ZoomMode => FixtureChannel3Attribute::ZoomMode,
            FixtureChannel3Attribute::FocusMode => FixtureChannel3Attribute::FocusMode,
            FixtureChannel3Attribute::IrisMode => FixtureChannel3Attribute::IrisMode,
            FixtureChannel3Attribute::FanMode(n) => FixtureChannel3Attribute::FanMode(*n),
            FixtureChannel3Attribute::FollowSpotMode => FixtureChannel3Attribute::FollowSpotMode,
            FixtureChannel3Attribute::BeamEffectIndexRotateMode => FixtureChannel3Attribute::BeamEffectIndexRotateMode,
            FixtureChannel3Attribute::IntensityMSpeed => FixtureChannel3Attribute::IntensityMSpeed,
            FixtureChannel3Attribute::PositionMSpeed => FixtureChannel3Attribute::PositionMSpeed,
            FixtureChannel3Attribute::ColorMixMSpeed => FixtureChannel3Attribute::ColorMixMSpeed,
            FixtureChannel3Attribute::ColorWheelSelectMSpeed => FixtureChannel3Attribute::ColorWheelSelectMSpeed,
            FixtureChannel3Attribute::GoboWheelMSpeed(n) => FixtureChannel3Attribute::GoboWheelMSpeed(*n),
            FixtureChannel3Attribute::IrisMSpeed => FixtureChannel3Attribute::IrisMSpeed,
            FixtureChannel3Attribute::PrismMSpeed(n) => FixtureChannel3Attribute::PrismMSpeed(*n),
            FixtureChannel3Attribute::FocusMSpeed => FixtureChannel3Attribute::FocusMSpeed,
            FixtureChannel3Attribute::FrostMSpeed(n) => FixtureChannel3Attribute::FrostMSpeed(*n),
            FixtureChannel3Attribute::ZoomMSpeed => FixtureChannel3Attribute::ZoomMSpeed,
            FixtureChannel3Attribute::FrameMSpeed => FixtureChannel3Attribute::FrameMSpeed,
            FixtureChannel3Attribute::GlobalMSpeed => FixtureChannel3Attribute::GlobalMSpeed,
            FixtureChannel3Attribute::ReflectorAdjust => FixtureChannel3Attribute::ReflectorAdjust,
            FixtureChannel3Attribute::FixtureGlobalReset => FixtureChannel3Attribute::FixtureGlobalReset,
            FixtureChannel3Attribute::DimmerReset => FixtureChannel3Attribute::DimmerReset,
            FixtureChannel3Attribute::ShutterReset => FixtureChannel3Attribute::ShutterReset,
            FixtureChannel3Attribute::BeamReset => FixtureChannel3Attribute::BeamReset,
            FixtureChannel3Attribute::ColorMixReset => FixtureChannel3Attribute::ColorMixReset,
            FixtureChannel3Attribute::ColorWheelReset => FixtureChannel3Attribute::ColorWheelReset,
            FixtureChannel3Attribute::FocusReset => FixtureChannel3Attribute::FocusReset,
            FixtureChannel3Attribute::FrameReset => FixtureChannel3Attribute::FrameReset,
            FixtureChannel3Attribute::GoboWheelReset => FixtureChannel3Attribute::GoboWheelReset,
            FixtureChannel3Attribute::IntensityReset => FixtureChannel3Attribute::IntensityReset,
            FixtureChannel3Attribute::IrisReset => FixtureChannel3Attribute::IrisReset,
            FixtureChannel3Attribute::PositionReset => FixtureChannel3Attribute::PositionReset,
            FixtureChannel3Attribute::PanReset => FixtureChannel3Attribute::PanReset,
            FixtureChannel3Attribute::TiltReset => FixtureChannel3Attribute::TiltReset,
            FixtureChannel3Attribute::ZoomReset => FixtureChannel3Attribute::ZoomReset,
            FixtureChannel3Attribute::CtbReset => FixtureChannel3Attribute::CtbReset,
            FixtureChannel3Attribute::CtoReset => FixtureChannel3Attribute::CtoReset,
            FixtureChannel3Attribute::CtcReset => FixtureChannel3Attribute::CtcReset,
            FixtureChannel3Attribute::AnimationSystemReset => FixtureChannel3Attribute::AnimationSystemReset,
            FixtureChannel3Attribute::FixtureCalibrationReset => FixtureChannel3Attribute::FixtureCalibrationReset,
            FixtureChannel3Attribute::Function => FixtureChannel3Attribute::Function,
            FixtureChannel3Attribute::LampControl => FixtureChannel3Attribute::LampControl,
            FixtureChannel3Attribute::DisplayIntensity => FixtureChannel3Attribute::DisplayIntensity,
            FixtureChannel3Attribute::DmxInput => FixtureChannel3Attribute::DmxInput,
            FixtureChannel3Attribute::NoFeature => FixtureChannel3Attribute::NoFeature,
            FixtureChannel3Attribute::Blower(n) => FixtureChannel3Attribute::Blower(*n),
            FixtureChannel3Attribute::Fan(n) => FixtureChannel3Attribute::Fan(*n),
            FixtureChannel3Attribute::Fog(n) => FixtureChannel3Attribute::Fog(*n),
            FixtureChannel3Attribute::Haze(n) => FixtureChannel3Attribute::Haze(*n),
            FixtureChannel3Attribute::LampPowerMode => FixtureChannel3Attribute::LampPowerMode,
            FixtureChannel3Attribute::Fans => FixtureChannel3Attribute::Fans,
            FixtureChannel3Attribute::BladeA(n) => FixtureChannel3Attribute::BladeA(*n),
            FixtureChannel3Attribute::BladeB(n) => FixtureChannel3Attribute::BladeB(*n),
            FixtureChannel3Attribute::BladeRot(n) => FixtureChannel3Attribute::BladeRot(*n),
            FixtureChannel3Attribute::ShaperRot => FixtureChannel3Attribute::ShaperRot,
            FixtureChannel3Attribute::ShaperMacros => FixtureChannel3Attribute::ShaperMacros,
            FixtureChannel3Attribute::ShaperMacrosSpeed => FixtureChannel3Attribute::ShaperMacrosSpeed,
            FixtureChannel3Attribute::BladeSoftA(n) => FixtureChannel3Attribute::BladeSoftA(*n),
            FixtureChannel3Attribute::BladeSoftB(n) => FixtureChannel3Attribute::BladeSoftB(*n),
            FixtureChannel3Attribute::KeyStoneA(n) => FixtureChannel3Attribute::KeyStoneA(*n),
            FixtureChannel3Attribute::KeyStoneB(n) => FixtureChannel3Attribute::KeyStoneB(*n),
            FixtureChannel3Attribute::Video => FixtureChannel3Attribute::Video,
            FixtureChannel3Attribute::VideoEffectType(n) => FixtureChannel3Attribute::VideoEffectType(*n),
            FixtureChannel3Attribute::VideoEffectParameter(n, m) => FixtureChannel3Attribute::VideoEffectParameter(*n, *m),
            FixtureChannel3Attribute::VideoCamera(n) => FixtureChannel3Attribute::VideoCamera(*n),
            FixtureChannel3Attribute::VideoSoundVolume(n) => FixtureChannel3Attribute::VideoSoundVolume(*n),
            FixtureChannel3Attribute::VideoBlendMode => FixtureChannel3Attribute::VideoBlendMode,
            FixtureChannel3Attribute::InputSource => FixtureChannel3Attribute::InputSource,
            FixtureChannel3Attribute::FieldOfView => FixtureChannel3Attribute::FieldOfView,
            FixtureChannel3Attribute::Custom(name) => FixtureChannel3Attribute::Custom(name.duplicate()),
        }
    }

    /// Increments the attribute's number: for attributes with one number `n`,
    /// `n` goes up by one; for attributes with numbers `n` and `m`, `m` does.
    /// Attributes without a number give `None`.
    pub fn try_increment(&self) -> (res: Option<Self>)
        requires
            attribute_increment_fits(*self),
        ensures
            res == attribute_increment(*self),
    {
        match self {
            FixtureChannel3Attribute::Gobo(n) => Some(FixtureChannel3Attribute::Gobo(*n + 1)),
            FixtureChannel3Attribute::GoboSelectSpin(n) => Some(FixtureChannel3Attribute::GoboSelectSpin(*n + 1)),
            FixtureChannel3Attribute::GoboSelectShake(n) => Some(FixtureChannel3Attribute::GoboSelectShake(*n + 1)),
            FixtureChannel3Attribute::GoboSelectEffects(n) => Some(FixtureChannel3Attribute::GoboSelectEffects(*n + 1)),
            FixtureChannel3Attribute::GoboWheelIndex(n) => Some(FixtureChannel3Attribute::GoboWheelIndex(*n + 1)),
            FixtureChannel3Attribute::GoboWheelSpin(n) => Some(FixtureChannel3Attribute::GoboWheelSpin(*n + 1)),
            FixtureChannel3Attribute::GoboWheelShake(n) => Some(FixtureChannel3Attribute::GoboWheelShake(*n + 1)),
            FixtureChannel3Attribute::GoboWheelRandom(n) => Some(FixtureChannel3Attribute::GoboWheelRandom(*n + 1)),
            FixtureChannel3Attribute::GoboWheelAudio(n) => Some(FixtureChannel3Attribute::GoboWheelAudio(*n + 1)),
            FixtureChannel3Attribute::GoboPos(n) => Some(FixtureChannel3Attribute::GoboPos(*n + 1)),
            FixtureChannel3Attribute::GoboPosRotate(n) => Some(FixtureChannel3Attribute::GoboPosRotate(*n + 1)),
            FixtureChannel3Attribute::GoboPosShake(n) => Some(FixtureChannel3Attribute::GoboPosShake(*n + 1)),
            FixtureChannel3Attribute::AnimationWheel(n) => Some(FixtureChannel3Attribute::AnimationWheel(*n + 1)),
            FixtureChannel3Attribute::AnimationWheelAudio(n) => Some(FixtureChannel3Attribute::AnimationWheelAudio(*n + 1)),
            FixtureChannel3Attribute::AnimationWheelMacro(n) => Some(FixtureChannel3Attribute::AnimationWheelMacro(*n + 1)),
            FixtureChannel3Attribute::AnimationWheelRandom(n) => Some(FixtureChannel3Attribute::AnimationWheelRandom(*n + 1)),
            FixtureChannel3Attribute::AnimationWheelSelectEffects(n) => Some(FixtureChannel3Attribute::AnimationWheelSelectEffects(*n + 1)),
            FixtureChannel3Attribute::AnimationWheelSelectShake(n) => Some(FixtureChannel3Attribute::AnimationWheelSelectShake(*n + 1)),
            FixtureChannel3Attribute::AnimationWheelSelectSpin(n) => Some(FixtureChannel3Attribute::AnimationWheelSelectSpin(*n + 1)),
            FixtureChannel3Attribute::AnimationWheelPos(n) => Some(FixtureChannel3Attribute::AnimationWheelPos(*n + 1)),
            FixtureChannel3Attribute::AnimationWheelPosRotate(n) => Some(FixtureChannel3Attribute::AnimationWheelPosRotate(*n + 1)),
            FixtureChannel3Attribute::AnimationWheelPosShake(n) => Some(FixtureChannel3Attribute::AnimationWheelPosShake(*n + 1)),
            FixtureChannel3Attribute::AnimationSystem(n) => Some(FixtureChannel3Attribute::AnimationSystem(*n + 1)),
            FixtureChannel3Attribute::AnimationSystemRamp(n) => Some(FixtureChannel3Attribute::AnimationSystemRamp(*n + 1)),
            FixtureChannel3Attribute::AnimationSystemShake(n) => Some(FixtureChannel3Attribute::AnimationSystemShake(*n + 1)),
            FixtureChannel3Attribute::AnimationSystemAudio(n) => Some(FixtureChannel3Attribute::AnimationSystemAudio(*n + 1)),
            FixtureChannel3Attribute::AnimationSystemRandom(n) => Some(FixtureChannel3Attribute::AnimationSystemRandom(*n + 1)),
            FixtureChannel3Attribute::AnimationSystemPos(n) => Some(FixtureChannel3Attribute::AnimationSystemPos(*n + 1)),
            FixtureChannel3Attribute::AnimationSystemPosRotate(n) => Some(FixtureChannel3Attribute::AnimationSystemPosRotate(*n + 1)),
            FixtureChannel3Attribute::AnimationSystemPosShake(n) => Some(FixtureChannel3Attribute::AnimationSystemPosShake(*n + 1)),
            FixtureChannel3Attribute::AnimationSystemPosRandom(n) => Some(FixtureChannel3Attribute::AnimationSystemPosRandom(*n + 1)),
            FixtureChannel3Attribute::AnimationSystemPosAudio(n) => Some(FixtureChannel3Attribute::AnimationSystemPosAudio(*n + 1)),
            FixtureChannel3Attribute::AnimationSystemMacro(n) => Some(FixtureChannel3Attribute::AnimationSystemMacro(*n + 1)),
            FixtureChannel3Attribute::MediaFolder(n) => Some(FixtureChannel3Attribute::MediaFolder(*n + 1)),
            FixtureChannel3Attribute::MediaContent(n) => Some(FixtureChannel3Attribute::MediaContent(*n + 1)),
            FixtureChannel3Attribute::ModelFolder(n) => Some(FixtureChannel3Attribute::ModelFolder(*n + 1)),
            FixtureChannel3Attribute::ModelContent(n) => Some(FixtureChannel3Attribute::ModelContent(*n + 1)),
            FixtureChannel3Attribute::ColorEffects(n) => Some(FixtureChannel3Attribute::ColorEffects(*n + 1)),
            FixtureChannel3Attribute::Color(n) => Some(FixtureChannel3Attribute::Color(*n + 1)),
            FixtureChannel3Attribute::ColorWheelIndex(n) => Some(FixtureChannel3Attribute::ColorWheelIndex(*n + 1)),
            FixtureChannel3Attribute::ColorWheelSpin(n) => Some(FixtureChannel3Attribute::ColorWheelSpin(*n + 1)),
            FixtureChannel3Attribute::ColorWheelRandom(n) => Some(FixtureChannel3Attribute::ColorWheelRandom(*n + 1)),
            FixtureChannel3Attribute::ColorWheelAudio(n) => Some(FixtureChannel3Attribute::ColorWheelAudio(*n + 1)),
            FixtureChannel3Attribute::ColorMacro(n) => Some(FixtureChannel3Attribute::ColorMacro(*n + 1)),
            FixtureChannel3Attribute::ColorMacroRate(n) => Some(FixtureChannel3Attribute::ColorMacroRate(*n + 1)),
            FixtureChannel3Attribute::Shutter(n) => Some(FixtureChannel3Attribute::Shutter(*n + 1)),
            FixtureChannel3Attribute::ShutterStrobe(n) => Some(FixtureChannel3Attribute::ShutterStrobe(*n + 1)),
            FixtureChannel3Attribute::ShutterStrobePulse(n) => Some(FixtureChannel3Attribute::ShutterStrobePulse(*n + 1)),
            FixtureChannel3Attribute::ShutterStrobePulseClose(n) => Some(FixtureChannel3Attribute::ShutterStrobePulseClose(*n + 1)),
            FixtureChannel3Attribute::ShutterStrobePulseOpen(n) => Some(FixtureChannel3Attribute::ShutterStrobePulseOpen(*n + 1)),
            FixtureChannel3Attribute::ShutterStrobeRandom(n) => Some(FixtureChannel3Attribute::ShutterStrobeRandom(*n + 1)),
            FixtureChannel3Attribute::ShutterStrobeRandomPulse(n) => Some(FixtureChannel3Attribute::ShutterStrobeRandomPulse(*n + 1)),
            FixtureChannel3Attribute::ShutterStrobeRandomPulseClose(n) => Some(FixtureChannel3Attribute::ShutterStrobeRandomPulseClose(*n + 1)),
            FixtureChannel3Attribute::ShutterStrobeRandomPulseOpen(n) => Some(FixtureChannel3Attribute::ShutterStrobeRandomPulseOpen(*n + 1)),
            FixtureChannel3Attribute::ShutterStrobeEffect(n) => Some(FixtureChannel3Attribute::ShutterStrobeEffect(*n + 1)),
            FixtureChannel3Attribute::Frost(n) => Some(FixtureChannel3Attribute::Frost(*n + 1)),
            FixtureChannel3Attribute::FrostPulseOpen(n) => Some(FixtureChannel3Attribute::FrostPulseOpen(*n + 1)),
            FixtureChannel3Attribute::FrostPulseClose(n) => Some(FixtureChannel3Attribute::FrostPulseClose(*n + 1)),
            FixtureChannel3Attribute::FrostRamp(n) => Some(FixtureChannel3Attribute::FrostRamp(*n + 1)),
            FixtureChannel3Attribute::Prism(n) => Some(FixtureChannel3Attribute::Prism(*n + 1)),
            FixtureChannel3Attribute::PrismSelectSpin(n) => Some(FixtureChannel3Attribute::PrismSelectSpin(*n + 1)),
            FixtureChannel3Attribute::PrismMacro(n) => Some(FixtureChannel3Attribute::PrismMacro(*n + 1)),
            FixtureChannel3Attribute::PrismPos(n) => Some(FixtureChannel3Attribute::PrismPos(*n + 1)),
            FixtureChannel3Attribute::PrismPosRotate(n) => Some(FixtureChannel3Attribute::PrismPosRotate(*n + 1)),
            FixtureChannel3Attribute::Effects(n) => Some(FixtureChannel3Attribute::Effects(*n + 1)),
            FixtureChannel3Attribute::EffectsRate(n) => Some(FixtureChannel3Attribute::EffectsRate(*n + 1)),
            FixtureChannel3Attribute::EffectsFade(n) => Some(FixtureChannel3Attribute::EffectsFade(*n + 1)),
            FixtureChannel3Attribute::EffectsAdjust(n, m) => Some(FixtureChannel3Attribute::EffectsAdjust(*n, *m + 1)),
            FixtureChannel3Attribute::EffectsPos(n) => Some(FixtureChannel3Attribute::EffectsPos(*n + 1)),
            FixtureChannel3Attribute::EffectsPosRotate(n) => Some(FixtureChannel3Attribute::EffectsPosRotate(*n + 1)),
            FixtureChannel3Attribute::Focus(n) => Some(FixtureChannel3Attribute::Focus(*n + 1)),
            FixtureChannel3Attribute::FocusAdjust(n) => Some(FixtureChannel3Attribute::FocusAdjust(*n + 1)),
            FixtureChannel3Attribute::FocusDistance(n) => Some(FixtureChannel3Attribute::FocusDistance(*n + 1)),
            FixtureChannel3Attribute::Control(n) => Some(FixtureChannel3Attribute::Control(*n + 1)),
            FixtureChannel3Attribute::GoboWheelMode(n) => Some(FixtureChannel3Attribute::GoboWheelMode(*n + 1)),
            FixtureChannel3Attribute::AnimationWheelMode(n) => Some(FixtureChannel3Attribute::AnimationWheelMode(*n + 1)),
            FixtureChannel3Attribute::ColorMode(n) => Some(FixtureChannel3Attribute::ColorMode(*n + 1)),
            FixtureChannel3Attribute::FanMode(n) => Some(FixtureChannel3Attribute::FanMode(*n + 1)),
            FixtureChannel3Attribute::GoboWheelMSpeed(n) => Some(FixtureChannel3Attribute::GoboWheelMSpeed(*n + 1)),
            FixtureChannel3Attribute::PrismMSpeed(n) => Some(FixtureChannel3Attribute::PrismMSpeed(*n + 1)),
            FixtureChannel3Attribute::FrostMSpeed(n) => Some(FixtureChannel3Attribute::FrostMSpeed(*n + 1)),
            FixtureChannel3Attribute::Blower(n) => Some(FixtureChannel3Attribute::Blower(*n + 1)),
            FixtureChannel3Attribute::Fan(n) => Some(FixtureChannel3Attribute::Fan(*n + 1)),
            FixtureChannel3Attribute::Fog(n) => Some(FixtureChannel3Attribute::Fog(*n + 1)),
            FixtureChannel3Attribute::Haze(n) => Some(FixtureChannel3Attribute::Haze(*n + 1)),
            FixtureChannel3Attribute::BladeA(n) => Some(FixtureChannel3Attribute::BladeA(*n + 1)),
            FixtureChannel3Attribute::BladeB(n) => Some(FixtureChannel3Attribute::BladeB(*n + 1)),
            FixtureChannel3Attribute::BladeRot(n) => Some(FixtureChannel3Attribute::BladeRot(*n + 1)),
            FixtureChannel3Attribute::BladeSoftA(n) => Some(FixtureChannel3Attribute::BladeSoftA(*n + 1)),
            FixtureChannel3Attribute::BladeSoftB(n) => Some(FixtureChannel3Attribute::BladeSoftB(*n + 1)),
            FixtureChannel3Attribute::KeyStoneA(n) => Some(FixtureChannel3Attribute::KeyStoneA(*n + 1)),
            FixtureChannel3Attribute::KeyStoneB(n) => Some(FixtureChannel3Attribute::KeyStoneB(*n + 1)),
            FixtureChannel3Attribute::VideoEffectType(n) => Some(FixtureChannel3Attribute::VideoEffectType(*n + 1)),
            FixtureChannel3Attribute::VideoEffectParameter(n, m) => Some(FixtureChannel3Attribute::VideoEffectParameter(*n, *m + 1)),
            FixtureChannel3Attribute::VideoCamera(n) => Some(FixtureChannel3Attribute::VideoCamera(*n + 1)),
            FixtureChannel3Attribute::VideoSoundVolume(n) => Some(FixtureChannel3Attribute::VideoSoundVolume(*n + 1)),
            _ => None,
        }
    }

    /// The pretty name of the attribute, as shown to users.
    pub fn pretty(&self) -> (res: String)
        ensures
            res@ == attribute_pretty(*self),
    {
        proof {
            broadcast use vstd::seq_lib::group_seq_properties;
        }
        match self {
            FixtureChannel3Attribute::Dimmer => {
                let mut s = String::new();
                s.append("Dimmer");
                s
            },
            FixtureChannel3Attribute::Pan => {
                let mut s = String::new();
                s.append("Pan");
                s
            },
            FixtureChannel3Attribute::Tilt => {
                let mut s = String::new();
                s.append("Tilt");
                s
            },
            FixtureChannel3Attribute::PanRotate => {
                let mut s = String::new();
                s.append("Pan Rotate");
                s
            },
            FixtureChannel3Attribute::TiltRotate => {
                let mut s = String::new();
                s.append("Tilt Rotate");
                s
            },
            FixtureChannel3Attribute::PositionEffect => {
                let mut s = String::new();
                s.append("Position Effect");
                s
            },
            FixtureChannel3Attribute::PositionEffectRate => {
                let mut s = String::new();
                s.append("Position Effect Rate");
                s
            },
            FixtureChannel3Attribute::PositionEffectFade => {
                let mut s = String::new();
                s.append("Position Effect Fade");
                s
            },
            FixtureChannel3Attribute::XyzX => {
                let mut s = String::new();
                s.append("X");
                s
            },
            FixtureChannel3Attribute::XyzY => {
                let mut s = String::new();
                s.append("Y");
                s
            },
            FixtureChannel3Attribute::XyzZ => {
                let mut s = String::new();
                s.append("Z");
                s
            },
            FixtureChannel3Attribute::RotX => {
                let mut s = String::new();
                s.append("Rotation X");
                s
            },
            FixtureChannel3Attribute::RotY => {
                let mut s = String::new();
                s.append("Rotation Y");
                s
            },
            FixtureChannel3Attribute::RotZ => {
                let mut s = String::new();
                s.append("Rotation Z");
                s
            },
            FixtureChannel3Attribute::ScaleX => {
                let mut s = String::new();
                s.append("Scale X");
                s
            },
            FixtureChannel3Attribute::ScaleY => {
                let mut s = String::new();
                s.append("Scale Y");
                s
            },
            FixtureChannel3Attribute::ScaleZ => {
                let mut s = String::new();
                s.append("Scale Z");
                s
            },
            FixtureChannel3Attribute::ScaleXYZ => {
                let mut s = String::new();
                s.append("Scale XYZ");
                s
            },
            FixtureChannel3Attribute::Gobo(n) => {
                let mut s = String::new();
                s.append("Gobo ");
                push_decimal(&mut s, *n as u64);
                s
            },
            FixtureChannel3Attribute::GoboSelectSpin(n) => {
                let mut s = String::new();
                s.append("Gobo ");
                push_decimal(&mut s, *n as u64);
                s.append(" Select Spin");
                s
            },
            FixtureChannel3Attribute::GoboSelectShake(n) => {
                let mut s = String::new();
                s.append("Gobo ");
                push_decimal(&mut s, *n as u64);
                s.append(" Select Shake");
                s
            },
            FixtureChannel3Attribute::GoboSelectEffects(n) => {
                let mut s = String::new();
                s.append("Gobo ");
                push_decimal(&mut s, *n as u64);
                s.append(" Select Effects");
                s
            },
            FixtureChannel3Attribute::GoboWheelIndex(n) => {
                let mut s = String::new();
                s.append("Gobo ");
                push_decimal(&mut s, *n as u64);
                s.append(" Wheel Index");
                s
            },
            FixtureChannel3Attribute::GoboWheelSpin(n) => {
                let mut s = String::new();
                s.append("Gobo ");
                push_decimal(&mut s, *n as u64);
                s.append(" Wheel Spin");
                s
            },
            FixtureChannel3Attribute::GoboWheelShake(n) => {
                let mut s = String::new();
                s.append("Gobo ");
                push_decimal(&mut s, *n as u64);
                s.append(" Wheel Shake");
                s
            },
            FixtureChannel3Attribute::GoboWheelRandom(n) => {
                let mut s = String::new();
                s.append("Gobo ");
                push_decimal(&mut s, *n as u64);
                s.append(" Wheel Random");
                s
            },
            FixtureChannel3Attribute::GoboWheelAudio(n) => {
                let mut s = String::new();
                s.append("Gobo ");
                push_decimal(&mut s, *n as u64);
                s.append(" Wheel Audio");
                s
            },
            FixtureChannel3Attribute::GoboPos(n) => {
                let mut s = String::new();
                s.append("Gobo ");
                push_decimal(&mut s, *n as u64);
                s.append(" Position");
                s
            },
            FixtureChannel3Attribute::GoboPosRotate(n) => {
                let mut s = String::new();
                s.append("Gobo ");
                push_decimal(&mut s, *n as u64);
                s.append(" Position Rotate");
                s
            },
            FixtureChannel3Attribute::GoboPosShake(n) => {
                let mut s = String::new();
                s.append("Gobo ");
                push_decimal(&mut s, *n as u64);
                s.append(" Position Shake");
                s
            },
            FixtureChannel3Attribute::AnimationWheel(n) => {
                let mut s = String::new();
                s.append("Animation Wheel ");
                push_decimal(&mut s, *n as u64);
                s
            },
            FixtureChannel3Attribute::AnimationWheelAudio(n) => {
                let mut s = String::new();
                s.append("Animation Wheel ");
                push_decimal(&mut s, *n as u64);
                s.append(" Audio");
                s
            },
            FixtureChannel3Attribute::AnimationWheelMacro(n) => {
                let mut s = String::new();
                s.append("Animation Wheel ");
                push_decimal(&mut s, *n as u64);
                s.append(" Macro");
                s
            },
            FixtureChannel3Attribute::AnimationWheelRandom(n) => {
                let mut s = String::new();
                s.append("Animation Wheel ");
                push_decimal(&mut s, *n as u64);
                s.append(" Random");
                s
            },
            FixtureChannel3Attribute::AnimationWheelSelectEffects(n) => {
                let mut s = String::new();
                s.append("Animation Wheel ");
                push_decimal(&mut s, *n as u64);
                s.append(" Select Effects");
                s
            },
            FixtureChannel3Attribute::AnimationWheelSelectShake(n) => {
                let mut s = String::new();
                s.append("Animation Wheel ");
                push_decimal(&mut s, *n as u64);
                s.append(" Select Shake");
                s
            },
            FixtureChannel3Attribute::AnimationWheelSelectSpin(n) => {
                let mut s = String::new();
                s.append("Animation Wheel ");
                push_decimal(&mut s, *n as u64);
                s.append(" Select Spin");
                s
            },
            FixtureChannel3Attribute::AnimationWheelPos(n) => {
                let mut s = String::new();
                s.append("Animation Wheel ");
                push_decimal(&mut s, *n as u64);
                s.append(" Position");
                s
            },
            FixtureChannel3Attribute::AnimationWheelPosRotate(n) => {
                let mut s = String::new();
                s.append("Animation Wheel ");
                push_decimal(&mut s, *n as u64);
                s.append(" Position Rotate");
                s
            },
            FixtureChannel3Attribute::AnimationWheelPosShake(n) => {
                let mut s = String::new();
                s.append("Animation Wheel ");
                push_decimal(&mut s, *n as u64);
                s.append(" Position Shake");
                s
            },
            FixtureChannel3Attribute::AnimationSystem(n) => {
                let mut s = String::new();
                s.append("Animation System ");
                push_decimal(&mut s, *n as u64);
                s
            },
            FixtureChannel3Attribute::AnimationSystemRamp(n) => {
                let mut s = String::new();
                s.append("Animation System ");
                push_decimal(&mut s, *n as u64);
                s.append(" Ramp");
                s
            },
            FixtureChannel3Attribute::AnimationSystemShake(n) => {
                let mut s = String::new();
                s.append("Animation System ");
                push_decimal(&mut s, *n as u64);
                s.append(" Shake");
                s
            },
            FixtureChannel3Attribute::AnimationSystemAudio(n) => {
                let mut s = String::new();
                s.append("Animation System ");
                push_decimal(&mut s, *n as u64);
                s.append(" Audio");
                s
            },
            FixtureChannel3Attribute::AnimationSystemRandom(n) => {
                let mut s = String::new();
                s.append("Animation System ");
                push_decimal(&mut s, *n as u64);
                s.append(" Random");
                s
            },
            FixtureChannel3Attribute::AnimationSystemPos(n) => {
                let mut s = String::new();
                s.append("Animation System ");
                push_decimal(&mut s, *n as u64);
                s.append(" Position");
                s
            },
            FixtureChannel3Attribute::AnimationSystemPosRotate(n) => {
                let mut s = String::new();
                s.append("Animation System ");
                push_decimal(&mut s, *n as u64);
                s.append(" Position Rotate");
                s
            },
            FixtureChannel3Attribute::AnimationSystemPosShake(n) => {
                let mut s = String::new();
                s.append("Animation System ");
                push_decimal(&mut s, *n as u64);
                s.append(" Position Shake");
                s
            },
            FixtureChannel3Attribute::AnimationSystemPosRandom(n) => {
                let mut s = String::new();
                s.append("Animation System ");
                push_decimal(&mut s, *n as u64);
                s.append(" Position Random");
                s
            },
            FixtureChannel3Attribute::AnimationSystemPosAudio(n) => {
                let mut s = String::new();
                s.append("Animation System ");
                push_decimal(&mut s, *n as u64);
                s.append(" Position Audio");
                s
            },
            FixtureChannel3Attribute::AnimationSystemMacro(n) => {
                let mut s = String::new();
                s.append("Animation System ");
                push_decimal(&mut s, *n as u64);
                s.append(" Macro");
                s
            },
            FixtureChannel3Attribute::MediaFolder(n) => {
                let mut s = String::new();
                s.append("Media Folder ");
                push_decimal(&mut s, *n as u64);
                s
            },
            FixtureChannel3Attribute::MediaContent(n) => {
                let mut s = String::new();
                s.append("Media Content ");
                push_decimal(&mut s, *n as u64);
                s
            },
            FixtureChannel3Attribute::ModelFolder(n) => {
                let mut s = String::new();
                s.append("Model Folder ");
                push_decimal(&mut s, *n as u64);
                s
            },
            FixtureChannel3Attribute::ModelContent(n) => {
                let mut s = String::new();
                s.append("Model Content ");
                push_decimal(&mut s, *n as u64);
                s
            },
            FixtureChannel3Attribute::PlayMode => {
                let mut s = String::new();
                s.append("Play Mode");
                s
            },
            FixtureChannel3Attribute::PlayBegin => {
                let mut s = String::new();
                s.append("Play Begin");
                s
            },
            FixtureChannel3Attribute::PlayEnd => {
                let mut s = String::new();
                s.append("Play End");
                s
            },
            FixtureChannel3Attribute::PlaySpeed => {
                let mut s = String::new();
                s.append("Play Speed");
                s
            },
            FixtureChannel3Attribute::ColorEffects(n) => {
                let mut s = String::new();
                s.append("Color Effects ");
                push_decimal(&mut s, *n as u64);
                s
            },
            FixtureChannel3Attribute::Color(n) => {
                let mut s = String::new();
                s.append("Color ");
                push_decimal(&mut s, *n as u64);
                s
            },
            FixtureChannel3Attribute::ColorWheelIndex(n) => {
                let mut s = String::new();
                s.append("Color Wheel ");
                push_decimal(&mut s, *n as u64);
                s.append(" Index");
                s
            },
            FixtureChannel3Attribute::ColorWheelSpin(n) => {
                let mut s = String::new();
                s.append("Color Wheel ");
                push_decimal(&mut s, *n as u64);
                s.append(" Spin");
                s
            },
            FixtureChannel3Attribute::ColorWheelRandom(n) => {
                let mut s = String::new();
                s.append("Color Wheel ");
                push_decimal(&mut s, *n as u64);
                s.append(" Random");
                s
            },
            FixtureChannel3Attribute::ColorWheelAudio(n) => {
                let mut s = String::new();
                s.append("Color Wheel ");
                push_decimal(&mut s, *n as u64);
                s.append(" Audio");
                s
            },
            FixtureChannel3Attribute::ColorAddR => {
                let mut s = String::new();
                s.append("Red");
                s
            },
            FixtureChannel3Attribute::ColorAddG => {
                let mut s = String::new();
                s.append("Green");
                s
            },
            FixtureChannel3Attribute::ColorAddB => {
                let mut s = String::new();
                s.append("Blue");
                s
            },
            FixtureChannel3Attribute::ColorAddC => {
                let mut s = String::new();
                s.append("Cyan");
                s
            },
            FixtureChannel3Attribute::ColorAddM => {
                let mut s = String::new();
                s.append("Magenta");
                s
            },
            FixtureChannel3Attribute::ColorAddY => {
                let mut s = String::new();
                s.append("Yellow");
                s
            },
            FixtureChannel3Attribute::ColorAddRY => {
                let mut s = String::new();
                s.append("Red-Yellow");
                s
            },
            FixtureChannel3Attribute::ColorAddGY => {
                let mut s = String::new();
                s.append("Green-Yellow");
                s
            },
            FixtureChannel3Attribute::ColorAddGC => {
                let mut s = String::new();
                s.append("Green-Cyan");
                s
            },
            FixtureChannel3Attribute::ColorAddBC => {
                let mut s = String::new();
                s.append("Blue-Cyan");
                s
            },
            FixtureChannel3Attribute::ColorAddBM => {
                let mut s = String::new();
                s.append("Blue-Magenta");
                s
            },
            FixtureChannel3Attribute::ColorAddRM => {
                let mut s = String::new();
                s.append("Red-Magenta");
                s
            },
            FixtureChannel3Attribute::ColorAddW => {
                let mut s = String::new();
                s.append("White");
                s
            },
            FixtureChannel3Attribute::ColorAddWW => {
                let mut s = String::new();
                s.append("Warm White");
                s
            },
            FixtureChannel3Attribute::ColorAddCW => {
                let mut s = String::new();
                s.append("Cool White");
                s
            },
            FixtureChannel3Attribute::ColorAddUV => {
                let mut s = String::new();
                s.append("UV");
                s
            },
            FixtureChannel3Attribute::ColorSubR => {
                let mut s = String::new();
                s.append("Red-");
                s
            },
            FixtureChannel3Attribute::ColorSubG => {
                let mut s = String::new();
                s.append("Green-");
                s
            },
            FixtureChannel3Attribute::ColorSubB => {
                let mut s = String::new();
                s.append("Blue-");
                s
            },
            FixtureChannel3Attribute::ColorSubC => {
                let mut s = String::new();
                s.append("Cyan-");
                s
            },
            FixtureChannel3Attribute::ColorSubM => {
                let mut s = String::new();
                s.append("Magenta-");
                s
            },
            FixtureChannel3Attribute::ColorSubY => {
                let mut s = String::new();
                s.append("Yellow-");
                s
            },
            FixtureChannel3Attribute::ColorMacro(n) => {
                let mut s = String::new();
                s.append("Color Macro ");
                push_decimal(&mut s, *n as u64);
                s
            },
            FixtureChannel3Attribute::ColorMacroRate(n) => {
                let mut s = String::new();
                s.append("Color Macro Rate ");
                push_decimal(&mut s, *n as u64);
                s
            },
            FixtureChannel3Attribute::Cto => {
                let mut s = String::new();
                s.append("CTO");
                s
            },
            FixtureChannel3Attribute::Ctc => {
                let mut s = String::new();
                s.append("CTC");
                s
            },
            FixtureChannel3Attribute::Ctb => {
                let mut s = String::new();
                s.append("CTB");
                s
            },
            FixtureChannel3Attribute::Tint => {
                let mut s = String::new();
                s.append("Tint");
                s
            },
            FixtureChannel3Attribute::HsbHue => {
                let mut s = String::new();
                s.append("HSB Hue");
                s
            },
            FixtureChannel3Attribute::HsbSaturation => {
                let mut s = String::new();
                s.append("HSB Saturation");
                s
            },
            FixtureChannel3Attribute::HsbBrightness => {
                let mut s = String::new();
                s.append("HSB Brightness");
                s
            },
            FixtureChannel3Attribute::HsbQuality => {
                let mut s = String::new();
                s.append("HSB Quality");
                s
            },
            FixtureChannel3Attribute::CieX => {
                let mut s = String::new();
                s.append("CIE X");
                s
            },
            FixtureChannel3Attribute::CieY => {
                let mut s = String::new();
                s.append("CIE Y");
                s
            },
            FixtureChannel3Attribute::CieBrightness => {
                let mut s = String::new();
                s.append("CIE Brightness");
                s
            },
            FixtureChannel3Attribute::ColorRgbRed => {
                let mut s = String::new();
                s.append("RGB Red");
                s
            },
            FixtureChannel3Attribute::ColorRgbGreen => {
                let mut s = String::new();
                s.append("RGB Green");
                s
            },
            FixtureChannel3Attribute::ColorRgbBlue => {
                let mut s = String::new();
                s.append("RGB Blue");
                s
            },
            FixtureChannel3Attribute::ColorRgbCyan => {
                let mut s = String::new();
                s.append("RGB Cyan");
                s
            },
            FixtureChannel3Attribute::ColorRgbMagenta => {
                let mut s = String::new();
                s.append("RGB Magenta");
                s
            },
            FixtureChannel3Attribute::ColorRgbYellow => {
                let mut s = String::new();
                s.append("RGB Yellow");
                s
            },
            FixtureChannel3Attribute::ColorRgbQuality => {
                let mut s = String::new();
                s.append("RGB Quality");
                s
            },
            FixtureChannel3Attribute::VideoBoostR => {
                let mut s = String::new();
                s.append("Video Boost Red");
                s
            },
            FixtureChannel3Attribute::VideoBoostG => {
                let mut s = String::new();
                s.append("Video Boost Green");
                s
            },
            FixtureChannel3Attribute::VideoBoostB => {
                let mut s = String::new();
                s.append("Video Boost Blue");
                s
            },
            FixtureChannel3Attribute::VideoHueShift => {
                let mut s = String::new();
                s.append("Video Hue Shift");
                s
            },
            FixtureChannel3Attribute::VideoSaturation => {
                let mut s = String::new();
                s.append("Video Saturation");
                s
            },
            FixtureChannel3Attribute::VideoBrightness => {
                let mut s = String::new();
                s.append("Video Brightness");
                s
            },
            FixtureChannel3Attribute::VideoContrast => {
                let mut s = String::new();
                s.append("Video Contrast");
                s
            },
            FixtureChannel3Attribute::VideoKeyColorR => {
                let mut s = String::new();
                s.append("Video Key Color Red");
                s
            },
            FixtureChannel3Attribute::VideoKeyColorG => {
                let mut s = String::new();
                s.append("Video Key Color Green");
                s
            },
            FixtureChannel3Attribute::VideoKeyColorB => {
                let mut s = String::new();
                s.append("Video Key Color Blue");
                s
            },
            FixtureChannel3Attribute::VideoKeyIntensity => {
                let mut s = String::new();
                s.append("Video Key Intensity");
                s
            },
            FixtureChannel3Attribute::VideoKeyTolerance => {
                let mut s = String::new();
                s.append("Video Key Tolerance");
                s
            },
            FixtureChannel3Attribute::StrobeDuration => {
                let mut s = String::new();
                s.append("Strobe Duration");
                s
            },
            FixtureChannel3Attribute::StrobeRate => {
                let mut s = String::new();
                s.append("Strobe Rate");
                s
            },
            FixtureChannel3Attribute::StrobeFrequency => {
                let mut s = String::new();
                s.append("Strobe Frequency");
                s
            },
            FixtureChannel3Attribute::StrobeModeShutter => {
                let mut s = String::new();
                s.append("Strobe Mode Shutter");
                s
            },
            FixtureChannel3Attribute::StrobeModeStrobe => {
                let mut s = String::new();
                s.append("Strobe Mode Strobe");
                s
            },
            FixtureChannel3Attribute::StrobeModePulse => {
                let mut s = String::new();
                s.append("Strobe Mode Pulse");
                s
            },
            FixtureChannel3Attribute::StrobeModePulseOpen => {
                let mut s = String::new();
                s.append("Strobe Mode Pulse Open");
                s
            },
            FixtureChannel3Attribute::StrobeModePulseClose => {
                let mut s = String::new();
                s.append("Strobe Mode Pulse Close");
                s
            },
            FixtureChannel3Attribute::StrobeModeRandom => {
                let mut s = String::new();
                s.append("Strobe Mode Random");
                s
            },
            FixtureChannel3Attribute::StrobeModeRandomPulse => {
                let mut s = String::new();
                s.append("Strobe Mode Random Pulse");
                s
            },
            FixtureChannel3Attribute::StrobeModeRandomPulseOpen => {
                let mut s = String::new();
                s.append("Strobe Mode Random Pulse Open");
                s
            },
            FixtureChannel3Attribute::StrobeModeRandomPulseClose => {
                let mut s = String::new();
                s.append("Strobe Mode Random Pulse Close");
                s
            },
            FixtureChannel3Attribute::StrobeModeEffect => {
                let mut s = String::new();
                s.append("Strobe Mode Effect");
                s
            },
            FixtureChannel3Attribute::Shutter(n) => {
                let mut s = String::new();
                s.append("Shutter ");
                push_decimal(&mut s, *n as u64);
                s
            },
            FixtureChannel3Attribute::ShutterStrobe(n) => {
                let mut s = String::new();
                s.append("Shutter ");
                push_decimal(&mut s, *n as u64);
                s.append(" Strobe");
                s
            },
            FixtureChannel3Attribute::ShutterStrobePulse(n) => {
                let mut s = String::new();
                s.append("Shutter ");
                push_decimal(&mut s, *n as u64);
                s.append(" Strobe Pulse");
                s
            },
            FixtureChannel3Attribute::ShutterStrobePulseClose(n) => {
                let mut s = String::new();
                s.append("Shutter ");
                push_decimal(&mut s, *n as u64);
                s.append(" Strobe Pulse Close");
                s
            },
            FixtureChannel3Attribute::ShutterStrobePulseOpen(n) => {
                let mut s = String::new();
                s.append("Shutter ");
                push_decimal(&mut s, *n as u64);
                s.append(" Strobe Pulse Open");
                s
            },
            FixtureChannel3Attribute::ShutterStrobeRandom(n) => {
                let mut s = String::new();
                s.append("Shutter ");
                push_decimal(&mut s, *n as u64);
                s.append(" Strobe Random");
                s
            },
            FixtureChannel3Attribute::ShutterStrobeRandomPulse(n) => {
                let mut s = String::new();
                s.append("Shutter ");
                push_decimal(&mut s, *n as u64);
                s.append(" Strobe Random Pulse");
                s
            },
            FixtureChannel3Attribute::ShutterStrobeRandomPulseClose(n) => {
                let mut s = String::new();
                s.append("Shutter ");
                push_decimal(&mut s, *n as u64);
                s.append(" Strobe Random Pulse Close");
                s
            },
            FixtureChannel3Attribute::ShutterStrobeRandomPulseOpen(n) => {
                let mut s = String::new();
                s.append("Shutter ");
                push_decimal(&mut s, *n as u64);
                s.append(" Strobe Random Pulse Open");
                s
            },
            FixtureChannel3Attribute::ShutterStrobeEffect(n) => {
                let mut s = String::new();
                s.append("Shutter ");
                push_decimal(&mut s, *n as u64);
                s.append(" Strobe Effect");
                s
            },
            FixtureChannel3Attribute::Iris => {
                let mut s = String::new();
                s.append("Iris");
                s
            },
            FixtureChannel3Attribute::IrisStrobe => {
                let mut s = String::new();
                s.append("Iris Strobe");
                s
            },
            FixtureChannel3Attribute::IrisStrobeRandom => {
                let mut s = String::new();
                s.append("Iris Strobe Random");
                s
            },
            FixtureChannel3Attribute::IrisPulseClose => {
                let mut s = String::new();
                s.append("Iris Pulse Close");
                s
            },
            FixtureChannel3Attribute::IrisPulseOpen => {
                let mut s = String::new();
                s.append("Iris Pulse Open");
                s
            },
            FixtureChannel3Attribute::IrisRandomPulseClose => {
                let mut s = String::new();
                s.append("Iris Random Pulse Close");
                s
            },
            FixtureChannel3Attribute::IrisRandomPulseOpen => {
                let mut s = String::new();
                s.append("Iris Random Pulse Open");
                s
            },
            FixtureChannel3Attribute::Frost(n) => {
                let mut s = String::new();
                s.append("Frost ");
                push_decimal(&mut s, *n as u64);
                s
            },
            FixtureChannel3Attribute::FrostPulseOpen(n) => {
                let mut s = String::new();
                s.append("Frost ");
                push_decimal(&mut s, *n as u64);
                s.append(" Pulse Open");
                s
            },
            FixtureChannel3Attribute::FrostPulseClose(n) => {
                let mut s = String::new();
                s.append("Frost ");
                push_decimal(&mut s, *n as u64);
                s.append(" Pulse Close");
                s
            },
            FixtureChannel3Attribute::FrostRamp(n) => {
                let mut s = String::new();
                s.append("Frost ");
                push_decimal(&mut s, *n as u64);
                s.append(" Ramp");
                s
            },
            FixtureChannel3Attribute::Prism(n) => {
                let mut s = String::new();
                s.append("Prism ");
                push_decimal(&mut s, *n as u64);
                s
            },
            FixtureChannel3Attribute::PrismSelectSpin(n) => {
                let mut s = String::new();
                s.append("Prism ");
                push_decimal(&mut s, *n as u64);
                s.append(" Select Spin");
                s
            },
            FixtureChannel3Attribute::PrismMacro(n) => {
                let mut s = String::new();
                s.append("Prism ");
                push_decimal(&mut s, *n as u64);
                s.append(" Macro");
                s
            },
            FixtureChannel3Attribute::PrismPos(n) => {
                let mut s = String::new();
                s.append("Prism ");
                push_decimal(&mut s, *n as u64);
                s.append(" Position");
                s
            },
            FixtureChannel3Attribute::PrismPosRotate(n) => {
                let mut s = String::new();
                s.append("Prism ");
                push_decimal(&mut s, *n as u64);
                s.append(" Position Rotate");
                s
            },
            FixtureChannel3Attribute::Effects(n) => {
                let mut s = String::new();
                s.append("Effects ");
                push_decimal(&mut s, *n as u64);
                s
            },
            FixtureChannel3Attribute::EffectsRate(n) => {
                let mut s = String::new();
                s.append("Effects ");
                push_decimal(&mut s, *n as u64);
                s.append(" Rate");
                s
            },
            FixtureChannel3Attribute::EffectsFade(n) => {
                let mut s = String::new();
                s.append("Effects ");
                push_decimal(&mut s, *n as u64);
                s.append(" Fade");
                s
            },
            FixtureChannel3Attribute::EffectsAdjust(n, m) => {
                let mut s = String::new();
                s.append("Effects ");
                push_decimal(&mut s, *n as u64);
                s.append(" Adjust ");
                push_decimal(&mut s, *m as u64);
                s
            },
            FixtureChannel3Attribute::EffectsPos(n) => {
                let mut s = String::new();
                s.append("Effects ");
                push_decimal(&mut s, *n as u64);
                s.append(" Position");
                s
            },
            FixtureChannel3Attribute::EffectsPosRotate(n) => {
                let mut s = String::new();
                s.append("Effects ");
                push_decimal(&mut s, *n as u64);
                s.append(" Position Rotate");
                s
            },
            FixtureChannel3Attribute::EffectsSync => {
                let mut s = String::new();
                s.append("Effects Sync");
                s
            },
            FixtureChannel3Attribute::BeamShaper => {
                let mut s = String::new();
                s.append("Beam Shaper");
                s
            },
            FixtureChannel3Attribute::BeamShaperMacro => {
                let mut s = String::new();
                s.append("Beam Shaper Macro");
                s
            },
            FixtureChannel3Attribute::BeamShaperPos => {
                let mut s = String::new();
                s.append("Beam Shaper Position");
                s
            },
            FixtureChannel3Attribute::BeamShaperPosRotate => {
                let mut s = String::new();
                s.append("Beam Shaper Position Rotate");
                s
            },
            FixtureChannel3Attribute::Zoom => {
                let mut s = String::new();
                s.append("Zoom");
                s
            },
            FixtureChannel3Attribute::ZoomModeSpot => {
                let mut s = String::new();
                s.append("Zoom Mode Spot");
                s
            },
            FixtureChannel3Attribute::ZoomModeBeam => {
                let mut s = String::new();
                s.append("Zoom Mode Beam");
                s
            },
            FixtureChannel3Attribute::DigitalZoom => {
                let mut s = String::new();
                s.append("Digital Zoom");
                s
            },
            FixtureChannel3Attribute::Focus(n) => {
                let mut s = String::new();
                s.append("Focus ");
                push_decimal(&mut s, *n as u64);
                s
            },
            FixtureChannel3Attribute::FocusAdjust(n) => {
                let mut s = String::new();
                s.append("Focus ");
                push_decimal(&mut s, *n as u64);
                s.append(" Adjust");
                s
            },
            FixtureChannel3Attribute::FocusDistance(n) => {
                let mut s = String::new();
                s.append("Focus ");
                push_decimal(&mut s, *n as u64);
                s.append(" Distance");
                s
            },
            FixtureChannel3Attribute::Control(n) => {
                let mut s = String::new();
                s.append("Control ");
                push_decimal(&mut s, *n as u64);
                s
            },
            FixtureChannel3Attribute::DimmerMode => {
                let mut s = String::new();
                s.append("Dimmer Mode");
                s
            },
            FixtureChannel3Attribute::DimmerCurve => {
                let mut s = String::new();
                s.append("Dimmer Curve");
                s
            },
            FixtureChannel3Attribute::BlackoutMode => {
                let mut s = String::new();
                s.append("Blackout Mode");
                s
            },
            FixtureChannel3Attribute::LedFrequency => {
                let mut s = String::new();
                s.append("LED Frequency");
                s
            },
            FixtureChannel3Attribute::LedZoneMode => {
                let mut s = String::new();
                s.append("LED Zone Mode");
                s
            },
            FixtureChannel3Attribute::PixelMode => {
                let mut s = String::new();
                s.append("Pixel Mode");
                s
            },
            FixtureChannel3Attribute::PanMode => {
                let mut s = String::new();
                s.append("Pan Mode");
                s
            },
            FixtureChannel3Attribute::TiltMode => {
                let mut s = String::new();
                s.append("Tilt Mode");
                s
            },
            FixtureChannel3Attribute::PanTiltMode => {
                let mut s = String::new();
                s.append("Pan Tilt Mode");
                s
            },
            FixtureChannel3Attribute::PositionModes => {
                let mut s = String::new();
                s.append("Position Modes");
                s
            },
            FixtureChannel3Attribute::GoboWheelMode(n) => {
                let mut s = String::new();
                s.append("Gobo ");
                push_decimal(&mut s, *n as u64);
                s.append(" Wheel Mode");
                s
            },
            FixtureChannel3Attribute::GoboWheelShortcutMode => {
                let mut s = String::new();
                s.append("Gobo Wheel Shortcut Mode");
                s
            },
            FixtureChannel3Attribute::AnimationWheelMode(n) => {
                let mut s = String::new();
                s.append("Animation ");
                push_decimal(&mut s, *n as u64);
                s.append(" Wheel Mode");
                s
            },
            FixtureChannel3Attribute::AnimationWheelShortcutMode => {
                let mut s = String::new();
                s.append("Animation Wheel Shortcut Mode");
                s
            },
            FixtureChannel3Attribute::ColorMode(n) => {
                let mut s = String::new();
                s.append("Color ");
                push_decimal(&mut s, *n as u64);
                s.append(" Mode");
                s
            },
            FixtureChannel3Attribute::ColorWheelShortcutMode => {
                let mut s = String::new();
                s.append("Color Wheel Shortcut Mode");
                s
            },
            FixtureChannel3Attribute::CyanMode => {
                let mut s = String::new();
                s.append("Cyan Mode");
                s
            },
            FixtureChannel3Attribute::MagentaMode => {
                let mut s = String::new();
                s.append("Magenta Mode");
                s
            },
            FixtureChannel3Attribute::YellowMode => {
                let mut s = String::new();
                s.append("Yellow Mode");
                s
            },
            FixtureChannel3Attribute::ColorMixMode => {
                let mut s = String::new();
                s.append("Color Mix Mode");
                s
            },
            FixtureChannel3Attribute::ChromaticMode => {
                let mut s = String::new();
                s.append("Chromatic Mode");
                s
            },
            FixtureChannel3Attribute::ColorCalibrationMode => {
                let mut s = String::new();
                s.append("Color Calibration Mode");
                s
            },
            FixtureChannel3Attribute::ColorConsistency => {
                let mut s = String::new();
                s.append("Color Consistency");
                s
            },
            FixtureChannel3Attribute::ColorControl => {
                let mut s = String::new();
                s.append("Color Control");
                s
            },
            FixtureChannel3Attribute::ColorModelMode => {
                let mut s = String::new();
                s.append("Color Model Mode");
                s
            },
            FixtureChannel3Attribute::ColorSettingsReset => {
                let mut s = String::new();
                s.append("Color Settings Reset");
                s
            },
            FixtureChannel3Attribute::ColorUniformity => {
                let mut s = String::new();
                s.append("Color Uniformity");
                s
            },
            FixtureChannel3Attribute::CriMode => {
                let mut s = String::new();
                s.append("CRI Mode");
                s
            },
            FixtureChannel3Attribute::CustomColor => {
                let mut s = String::new();
                s.append("Custom Color");
                s
            },
            FixtureChannel3Attribute::UvStability => {
                let mut s = String::new();
                s.append("UV Stability");
                s
            },
            FixtureChannel3Attribute::WavelengthCorrection => {
                let mut s = String::new();
                s.append("Wavelength Correction");
                s
            },
            FixtureChannel3Attribute::WhiteCount => {
                let mut s = String::new();
                s.append("White Count");
                s
            },
            FixtureChannel3Attribute::StrobeMode => {
                let mut s = String::new();
                s.append("Strobe Mode");
                s
            },
            FixtureChannel3Attribute::ZoomMode => {
                let mut s = String::new();
                s.append("Zoom Mode");
                s
            },
            FixtureChannel3Attribute::FocusMode => {
                let mut s = String::new();
                s.append("Focus Mode");
                s
            },
            FixtureChannel3Attribute::IrisMode => {
                let mut s = String::new();
                s.append("Iris Mode");
                s
            },
            FixtureChannel3Attribute::FanMode(n) => {
                let mut s = String::new();
                s.append("Fan ");
                push_decimal(&mut s, *n as u64);
                s.append(" Mode");
                s
            },
            FixtureChannel3Attribute::FollowSpotMode => {
                let mut s = String::new();
                s.append("Follow Spot Mode");
                s
            },
            FixtureChannel3Attribute::BeamEffectIndexRotateMode => {
                let mut s = String::new();
                s.append("Beam Effect Index Rotate Mode");
                s
            },
            FixtureChannel3Attribute::IntensityMSpeed => {
                let mut s = String::new();
                s.append("Intensity MSpeed");
                s
            },
            FixtureChannel3Attribute::PositionMSpeed => {
                let mut s = String::new();
                s.append("Position MSpeed");
                s
            },
            FixtureChannel3Attribute::ColorMixMSpeed => {
                let mut s = String::new();
                s.append("Color Mix MSpeed");
                s
            },
            FixtureChannel3Attribute::ColorWheelSelectMSpeed => {
                let mut s = String::new();
                s.append("Color Wheel Select MSpeed");
                s
            },
            FixtureChannel3Attribute::GoboWheelMSpeed(n) => {
                let mut s = String::new();
                s.append("Gobo ");
                push_decimal(&mut s, *n as u64);
                s.append(" Wheel MSpeed");
                s
            },
            FixtureChannel3Attribute::IrisMSpeed => {
                let mut s = String::new();
                s.append("Iris MSpeed");
                s
            },
            FixtureChannel3Attribute::PrismMSpeed(n) => {
                let mut s = String::new();
                s.append("Prism ");
                push_decimal(&mut s, *n as u64);
                s.append(" MSpeed");
                s
            },
            FixtureChannel3Attribute::FocusMSpeed => {
                let mut s = String::new();
                s.append("Focus MSpeed");
                s
            },
            FixtureChannel3Attribute::FrostMSpeed(n) => {
                let mut s = String::new();
                s.append("Frost ");
                push_decimal(&mut s, *n as u64);
                s.append(" MSpeed");
                s
            },
            FixtureChannel3Attribute::ZoomMSpeed => {
                let mut s = String::new();
                s.append("Zoom MSpeed");
                s
            },
            FixtureChannel3Attribute::FrameMSpeed => {
                let mut s = String::new();
                s.append("Frame MSpeed");
                s
            },
            FixtureChannel3Attribute::GlobalMSpeed => {
                let mut s = String::new();
                s.append("Global MSpeed");
                s
            },
            FixtureChannel3Attribute::ReflectorAdjust => {
                let mut s = String::new();
                s.append("Reflector Adjust");
                s
            },
            FixtureChannel3Attribute::FixtureGlobalReset => {
                let mut s = String::new();
                s.append("Fixture Global Reset");
                s
            },
            FixtureChannel3Attribute::DimmerReset => {
                let mut s = String::new();
                s.append("Dimmer Reset");
                s
            },
            FixtureChannel3Attribute::ShutterReset => {
                let mut s = String::new();
                s.append("Shutter Reset");
                s
            },
            FixtureChannel3Attribute::BeamReset => {
                let mut s = String::new();
                s.append("Beam Reset");
                s
            },
            FixtureChannel3Attribute::ColorMixReset => {
                let mut s = String::new();
                s.append("Color Mix Reset");
                s
            },
            FixtureChannel3Attribute::ColorWheelReset => {
                let mut s = String::new();
                s.append("Color Wheel Reset");
                s
            },
            FixtureChannel3Attribute::FocusReset => {
                let mut s = String::new();
                s.append("Focus Reset");
                s
            },
            FixtureChannel3Attribute::FrameReset => {
                let mut s = String::new();
                s.append("Frame Reset");
                s
            },
            FixtureChannel3Attribute::GoboWheelReset => {
                let mut s = String::new();
                s.append("Gobo Wheel Reset");
                s
            },
            FixtureChannel3Attribute::IntensityReset => {
                let mut s = String::new();
                s.append("Intensity Reset");
                s
            },
            FixtureChannel3Attribute::IrisReset => {
                let mut s = String::new();
                s.append("Iris Reset");
                s
            },
            FixtureChannel3Attribute::PositionReset => {
                let mut s = String::new();
                s.append("Position Reset");
                s
            },
            FixtureChannel3Attribute::PanReset => {
                let mut s = String::new();
                s.append("Pan Reset");
                s
            },
            FixtureChannel3Attribute::TiltReset => {
                let mut s = String::new();
                s.append("Tilt Reset");
                s
            },
            FixtureChannel3Attribute::ZoomReset => {
                let mut s = String::new();
                s.append("Zoom Reset");
                s
            },
            FixtureChannel3Attribute::CtbReset => {
                let mut s = String::new();
                s.append("CTB Reset");
                s
            },
            FixtureChannel3Attribute::CtoReset => {
                let mut s = String::new();
                s.append("CTO Reset");
                s
            },
            FixtureChannel3Attribute::CtcReset => {
                let mut s = String::new();
                s.append("CTC Reset");
                s
            },
            FixtureChannel3Attribute::AnimationSystemReset => {
                let mut s = String::new();
                s.append("Animation System Reset");
                s
            },
            FixtureChannel3Attribute::FixtureCalibrationReset => {
                let mut s = String::new();
                s.append("Fixture Calibration Reset");
                s
            },
            FixtureChannel3Attribute::Function => {
                let mut s = String::new();
                s.append("Function");
                s
            },
            FixtureChannel3Attribute::LampControl => {
                let mut s = String::new();
                s.append("Lamp Control");
                s
            },
            FixtureChannel3Attribute::DisplayIntensity => {
                let mut s = String::new();
                s.append("Display Intensity");
                s
            },
            FixtureChannel3Attribute::DmxInput => {
                let mut s = String::new();
                s.append("DMX Input");
                s
            },
            FixtureChannel3Attribute::NoFeature => {
                let mut s = String::new();
                s.append("No Feature");
                s
            },
            FixtureChannel3Attribute::Blower(n) => {
                let mut s = String::new();
                s.append("Blower ");
                push_decimal(&mut s, *n as u64);
                s
            },
            FixtureChannel3Attribute::Fan(n) => {
                let mut s = String::new();
                s.append("Fan ");
                push_decimal(&mut s, *n as u64);
                s
            },
            FixtureChannel3Attribute::Fog(n) => {
                let mut s = String::new();
                s.append("Fog ");
                push_decimal(&mut s, *n as u64);
                s
            },
            FixtureChannel3Attribute::Haze(n) => {
                let mut s = String::new();
                s.append("Haze ");
                push_decimal(&mut s, *n as u64);
                s
            },
            FixtureChannel3Attribute::LampPowerMode => {
                let mut s = String::new();
                s.append("Lamp Power Mode");
                s
            },
            FixtureChannel3Attribute::Fans => {
                let mut s = String::new();
                s.append("Fans");
                s
            },
            FixtureChannel3Attribute::BladeA(n) => {
                let mut s = String::new();
                s.append("Blade ");
                push_decimal(&mut s, *n as u64);
                s.append(" A");
                s
            },
            FixtureChannel3Attribute::BladeB(n) => {
                let mut s = String::new();
                s.append("Blade ");
                push_decimal(&mut s, *n as u64);
                s.append(" B");
                s
            },
            FixtureChannel3Attribute::BladeRot(n) => {
                let mut s = String::new();
                s.append("Blade ");
                push_decimal(&mut s, *n as u64);
                s.append(" Rotation");
                s
            },
            FixtureChannel3Attribute::ShaperRot => {
                let mut s = String::new();
                s.append("Shaper Rotation");
                s
            },
            FixtureChannel3Attribute::ShaperMacros => {
                let mut s = String::new();
                s.append("Shaper Macros");
                s
            },
            FixtureChannel3Attribute::ShaperMacrosSpeed => {
                let mut s = String::new();
                s.append("Shaper Macros Speed");
                s
            },
            FixtureChannel3Attribute::BladeSoftA(n) => {
                let mut s = String::new();
                s.append("Blade Soft ");
                push_decimal(&mut s, *n as u64);
                s.append(" A");
                s
            },
            FixtureChannel3Attribute::BladeSoftB(n) => {
                let mut s = String::new();
                s.append("Blade Soft ");
                push_decimal(&mut s, *n as u64);
                s.append(" B");
                s
            },
            FixtureChannel3Attribute::KeyStoneA(n) => {
                let mut s = String::new();
                s.append("Keystone ");
                push_decimal(&mut s, *n as u64);
                s.append(" A");
                s
            },
            FixtureChannel3Attribute::KeyStoneB(n) => {
                let mut s = String::new();
                s.append("Keystone ");
                push_decimal(&mut s, *n as u64);
                s.append(" B");
                s
            },
            FixtureChannel3Attribute::Video => {
                let mut s = String::new();
                s.append("Video");
                s
            },
            FixtureChannel3Attribute::VideoEffectType(n) => {
                let mut s = String::new();
                s.append("Video Effect ");
                push_decimal(&mut s, *n as u64);
                s.append(" Type");
                s
            },
            FixtureChannel3Attribute::VideoEffectParameter(n, m) => {
                let mut s = String::new();
                s.append("Video Effect ");
                push_decimal(&mut s, *n as u64);
                s.append(" Parameter ");
                push_decimal(&mut s, *m as u64);
                s
            },
            FixtureChannel3Attribute::VideoCamera(n) => {
                let mut s = String::new();
                s.append("Video Camera ");
                push_decimal(&mut s, *n as u64);
                s
            },
            FixtureChannel3Attribute::VideoSoundVolume(n) => {
                let mut s = String::new();
                s.append("Video Sound Volume ");
                push_decimal(&mut s, *n as u64);
                s
            },
            FixtureChannel3Attribute::VideoBlendMode => {
                let mut s = String::new();
                s.append("Video Blend Mode");
                s
            },
            FixtureChannel3Attribute::InputSource => {
                let mut s = String::new();
                s.append("Input Source");
                s
            },
            FixtureChannel3Attribute::FieldOfView => {
                let mut s = String::new();
                s.append("Field of View");
                s
            },
            FixtureChannel3Attribute::Custom(name) => name.to_string(),
        }
    }

    /// The GDTF name of the attribute (its text form).
    pub fn to_string(&self) -> (res: String)
        ensures
            res@ == attribute_text(*self),
    {
        proof {
            broadcast use vstd::seq_lib::group_seq_properties;
        }
        match self {
            FixtureChannel3Attribute::Dimmer => {
                let mut s = String::new();
                s.append("Dimmer");
                s
            },
            FixtureChannel3Attribute::Pan => {
                let mut s = String::new();
                s.append("Pan");
                s
            },
            FixtureChannel3Attribute::Tilt => {
                let mut s = String::new();
                s.append("Tilt");
                s
            },
            FixtureChannel3Attribute::PanRotate => {
                let mut s = String::new();
                s.append("PanRotate");
                s
            },
            FixtureChannel3Attribute::TiltRotate => {
                let mut s = String::new();
                s.append("TiltRotate");
                s
            },
            FixtureChannel3Attribute::PositionEffect => {
                let mut s = String::new();
                s.append("PositionEffect");
                s
            },
            FixtureChannel3Attribute::PositionEffectRate => {
                let mut s = String::new();
                s.append("PositionEffectRate");
                s
            },
            FixtureChannel3Attribute::PositionEffectFade => {
                let mut s = String::new();
                s.append("PositionEffectFade");
                s
            },
            FixtureChannel3Attribute::XyzX => {
                let mut s = String::new();
                s.append("XYZ_X");
                s
            },
            FixtureChannel3Attribute::XyzY => {
                let mut s = String::new();
                s.append("XYZ_Y");
                s
            },
            FixtureChannel3Attribute::XyzZ => {
                let mut s = String::new();
                s.append("XYZ_Z");
                s
            },
            FixtureChannel3Attribute::RotX => {
                let mut s = String::new();
                s.append("Rot_X");
                s
            },
            FixtureChannel3Attribute::RotY => {
                let mut s = String::new();
                s.append("Rot_Y");
                s
            },
            FixtureChannel3Attribute::RotZ => {
                let mut s = String::new();
                s.append("Rot_Z");
                s
            },
            FixtureChannel3Attribute::ScaleX => {
                let mut s = String::new();
                s.append("Scale_X");
                s
            },
            FixtureChannel3Attribute::ScaleY => {
                let mut s = String::new();
                s.append("Scale_Y");
                s
            },
            FixtureChannel3Attribute::ScaleZ => {
                let mut s = String::new();
                s.append("Scale_Z");
                s
            },
            FixtureChannel3Attribute::ScaleXYZ => {
                let mut s = String::new();
                s.append("Scale_XYZ");
                s
            },
            FixtureChannel3Attribute::Gobo(n) => {
                let mut s = String::new();
                s.append("Gobo");
                push_decimal(&mut s, *n as u64);
                s
            },
            FixtureChannel3Attribute::GoboSelectSpin(n) => {
                let mut s = String::new();
                s.append("Gobo");
                push_decimal(&mut s, *n as u64);
                s.append("SelectSpin");
                s
            },
            FixtureChannel3Attribute::GoboSelectShake(n) => {
                let mut s = String::new();
                s.append("Gobo");
                push_decimal(&mut s, *n as u64);
                s.append("SelectShake");
                s
            },
            FixtureChannel3Attribute::GoboSelectEffects(n) => {
                let mut s = String::new();
                s.append("Gobo");
                push_decimal(&mut s, *n as u64);
                s.append("SelectEffects");
                s
            },
            FixtureChannel3Attribute::GoboWheelIndex(n) => {
                let mut s = String::new();
                s.append("Gobo");
                push_decimal(&mut s, *n as u64);
                s.append("WheelIndex");
                s
            },
            FixtureChannel3Attribute::GoboWheelSpin(n) => {
                let mut s = String::new();
                s.append("Gobo");
                push_decimal(&mut s, *n as u64);
                s.append("WheelSpin");
                s
            },
            FixtureChannel3Attribute::GoboWheelShake(n) => {
                let mut s = String::new();
                s.append("Gobo");
                push_decimal(&mut s, *n as u64);
                s.append("WheelShake");
                s
            },
            FixtureChannel3Attribute::GoboWheelRandom(n) => {
                let mut s = String::new();
                s.append("Gobo");
                push_decimal(&mut s, *n as u64);
                s.append("WheelRandom");
                s
            },
            FixtureChannel3Attribute::GoboWheelAudio(n) => {
                let mut s = String::new();
                s.append("Gobo");
                push_decimal(&mut s, *n as u64);
                s.append("WheelAudio");
                s
            },
            FixtureChannel3Attribute::GoboPos(n) => {
                let mut s = String::new();
                s.append("Gobo");
                push_decimal(&mut s, *n as u64);
                s.append("Pos");
                s
            },
            FixtureChannel3Attribute::GoboPosRotate(n) => {
                let mut s = String::new();
                s.append("Gobo");
                push_decimal(&mut s, *n as u64);
                s.append("PosRotate");
                s
            },
            FixtureChannel3Attribute::GoboPosShake(n) => {
                let mut s = String::new();
                s.append("Gobo");
                push_decimal(&mut s, *n as u64);
                s.append("PosShake");
                s
            },
            FixtureChannel3Attribute::AnimationWheel(n) => {
                let mut s = String::new();
                s.append("AnimationWheel");
                push_decimal(&mut s, *n as u64);
                s
            },
            FixtureChannel3Attribute::AnimationWheelAudio(n) => {
                let mut s = String::new();
                s.append("AnimationWheel");
                push_decimal(&mut s, *n as u64);
                s.append("Audio");
                s
            },
            FixtureChannel3Attribute::AnimationWheelMacro(n) => {
                let mut s = String::new();
                s.append("AnimationWheel");
                push_decimal(&mut s, *n as u64);
                s.append("Macro");
                s
            },
            FixtureChannel3Attribute::AnimationWheelRandom(n) => {
                let mut s = String::new();
                s.append("AnimationWheel");
                push_decimal(&mut s, *n as u64);
                s.append("Random");
                s
            },
            FixtureChannel3Attribute::AnimationWheelSelectEffects(n) => {
                let mut s = String::new();
                s.append("AnimationWheel");
                push_decimal(&mut s, *n as u64);
                s.append("SelectEffects");
                s
            },
            FixtureChannel3Attribute::AnimationWheelSelectShake(n) => {
                let mut s = String::new();
                s.append("AnimationWheel");
                push_decimal(&mut s, *n as u64);
                s.append("SelectShake");
                s
            },
            FixtureChannel3Attribute::AnimationWheelSelectSpin(n) => {
                let mut s = String::new();
                s.append("AnimationWheel");
                push_decimal(&mut s, *n as u64);
                s.append("SelectSpin");
                s
            },
            FixtureChannel3Attribute::AnimationWheelPos(n) => {
                let mut s = String::new();
                s.append("AnimationWheel");
                push_decimal(&mut s, *n as u64);
                s.append("Pos");
                s
            },
            FixtureChannel3Attribute::AnimationWheelPosRotate(n) => {
                let mut s = String::new();
                s.append("AnimationWheel");
                push_decimal(&mut s, *n as u64);
                s.append("PosRotate");
                s
            },
            FixtureChannel3Attribute::AnimationWheelPosShake(n) => {
                let mut s = String::new();
                s.append("AnimationWheel");
                push_decimal(&mut s, *n as u64);
                s.append("PosShake");
                s
            },
            FixtureChannel3Attribute::AnimationSystem(n) => {
                let mut s = String::new();
                s.append("AnimationSystem");
                push_decimal(&mut s, *n as u64);
                s
            },
            FixtureChannel3Attribute::AnimationSystemRamp(n) => {
                let mut s = String::new();
                s.append("AnimationSystem");
                push_decimal(&mut s, *n as u64);
                s.append("Ramp");
                s
            },
            FixtureChannel3Attribute::AnimationSystemShake(n) => {
                let mut s = String::new();
                s.append("AnimationSystem");
                push_decimal(&mut s, *n as u64);
                s.append("Shake");
                s
            },
            FixtureChannel3Attribute::AnimationSystemAudio(n) => {
                let mut s = String::new();
                s.append("AnimationSystem");
                push_decimal(&mut s, *n as u64);
                s.append("Audio");
                s
            },
            FixtureChannel3Attribute::AnimationSystemRandom(n) => {
                let mut s = String::new();
                s.append("AnimationSystem");
                push_decimal(&mut s, *n as u64);
                s.append("Random");
                s
            },
            FixtureChannel3Attribute::AnimationSystemPos(n) => {
                let mut s = String::new();
                s.append("AnimationSystem");
                push_decimal(&mut s, *n as u64);
                s.append("Pos");
                s
            },
            FixtureChannel3Attribute::AnimationSystemPosRotate(n) => {
                let mut s = String::new();
                s.append("AnimationSystem");
                push_decimal(&mut s, *n as u64);
                s.append("PosRotate");
                s
            },
            FixtureChannel3Attribute::AnimationSystemPosShake(n) => {
                let mut s = String::new();
                s.append("AnimationSystem");
                push_decimal(&mut s, *n as u64);
                s.append("PosShake");
                s
            },
            FixtureChannel3Attribute::AnimationSystemPosRandom(n) => {
                let mut s = String::new();
                s.append("AnimationSystem");
                push_decimal(&mut s, *n as u64);
                s.append("PosRandom");
                s
            },
            FixtureChannel3Attribute::AnimationSystemPosAudio(n) => {
                let mut s = String::new();
                s.append("AnimationSystem");
                push_decimal(&mut s, *n as u64);
                s.append("PosAudio");
                s
            },
            FixtureChannel3Attribute::AnimationSystemMacro(n) => {
                let mut s = String::new();
                s.append("AnimationSystem");
                push_decimal(&mut s, *n as u64);
                s.append("Macro");
                s
            },
            FixtureChannel3Attribute::MediaFolder(n) => {
                let mut s = String::new();
                s.append("MediaFolder");
                push_decimal(&mut s, *n as u64);
                s
            },
            FixtureChannel3Attribute::MediaContent(n) => {
                let mut s = String::new();
                s.append("MediaContent");
                push_decimal(&mut s, *n as u64);
                s
            },
            FixtureChannel3Attribute::ModelFolder(n) => {
                let mut s = String::new();
                s.append("ModelFolder");
                push_decimal(&mut s, *n as u64);
                s
            },
            FixtureChannel3Attribute::ModelContent(n) => {
                let mut s = String::new();
                s.append("ModelContent");
                push_decimal(&mut s, *n as u64);
                s
            },
            FixtureChannel3Attribute::PlayMode => {
                let mut s = String::new();
                s.append("PlayMode");
                s
            },
            FixtureChannel3Attribute::PlayBegin => {
                let mut s = String::new();
                s.append("PlayBegin");
                s
            },
            FixtureChannel3Attribute::PlayEnd => {
                let mut s = String::new();
                s.append("PlayEnd");
                s
            },
            FixtureChannel3Attribute::PlaySpeed => {
                let mut s = String::new();
                s.append("PlaySpeed");
                s
            },
            FixtureChannel3Attribute::ColorEffects(n) => {
                let mut s = String::new();
                s.append("ColorEffects");
                push_decimal(&mut s, *n as u64);
                s
            },
            FixtureChannel3Attribute::Color(n) => {
                let mut s = String::new();
                s.append("Color");
                push_decimal(&mut s, *n as u64);
                s
            },
            FixtureChannel3Attribute::ColorWheelIndex(n) => {
                let mut s = String::new();
                s.append("ColorWheel");
                push_decimal(&mut s, *n as u64);
                s.append("Index");
                s
            },
            FixtureChannel3Attribute::ColorWheelSpin(n) => {
                let mut s = String::new();
                s.append("ColorWheel");
                push_decimal(&mut s, *n as u64);
                s.append("Spin");
                s
            },
            FixtureChannel3Attribute::ColorWheelRandom(n) => {
                let mut s = String::new();
                s.append("ColorWheel");
                push_decimal(&mut s, *n as u64);
                s.append("Random");
                s
            },
            FixtureChannel3Attribute::ColorWheelAudio(n) => {
                let mut s = String::new();
                s.append("ColorWheel");
                push_decimal(&mut s, *n as u64);
                s.append("Audio");
                s
            },
            FixtureChannel3Attribute::ColorAddR => {
                let mut s = String::new();
                s.append("ColorAdd_R");
                s
            },
            FixtureChannel3Attribute::ColorAddG => {
                let mut s = String::new();
                s.append("ColorAdd_G");
                s
            },
            FixtureChannel3Attribute::ColorAddB => {
                let mut s = String::new();
                s.append("ColorAdd_B");
                s
            },
            FixtureChannel3Attribute::ColorAddC => {
                let mut s = String::new();
                s.append("ColorAdd_C");
                s
            },
            FixtureChannel3Attribute::ColorAddM => {
                let mut s = String::new();
                s.append("ColorAdd_M");
                s
            },
            FixtureChannel3Attribute::ColorAddY => {
                let mut s = String::new();
                s.append("ColorAdd_Y");
                s
            },
            FixtureChannel3Attribute::ColorAddRY => {
                let mut s = String::new();
                s.append("ColorAdd_RY");
                s
            },
            FixtureChannel3Attribute::ColorAddGY => {
                let mut s = String::new();
                s.append("ColorAdd_GY");
                s
            },
            FixtureChannel3Attribute::ColorAddGC => {
                let mut s = String::new();
                s.append("ColorAdd_GC");
                s
            },
            FixtureChannel3Attribute::ColorAddBC => {
                let mut s = String::new();
                s.append("ColorAdd_BC");
                s
            },
            FixtureChannel3Attribute::ColorAddBM => {
                let mut s = String::new();
                s.append("ColorAdd_BM");
                s
            },
            FixtureChannel3Attribute::ColorAddRM => {
                let mut s = String::new();
                s.append("ColorAdd_RM");
                s
            },
            FixtureChannel3Attribute::ColorAddW => {
                let mut s = String::new();
                s.append("ColorAdd_W");
                s
            },
            FixtureChannel3Attribute::ColorAddWW => {
                let mut s = String::new();
                s.append("ColorAdd_WW");
                s
            },
            FixtureChannel3Attribute::ColorAddCW => {
                let mut s = String::new();
                s.append("ColorAdd_CW");
                s
            },
            FixtureChannel3Attribute::ColorAddUV => {
                let mut s = String::new();
                s.append("ColorAdd_UV");
                s
            },
            FixtureChannel3Attribute::ColorSubR => {
                let mut s = String::new();
                s.append("ColorSub_R");
                s
            },
            FixtureChannel3Attribute::ColorSubG => {
                let mut s = String::new();
                s.append("ColorSub_G");
                s
            },
            FixtureChannel3Attribute::ColorSubB => {
                let mut s = String::new();
                s.append("ColorSub_B");
                s
            },
            FixtureChannel3Attribute::ColorSubC => {
                let mut s = String::new();
                s.append("ColorSub_C");
                s
            },
            FixtureChannel3Attribute::ColorSubM => {
                let mut s = String::new();
                s.append("ColorSub_M");
                s
            },
            FixtureChannel3Attribute::ColorSubY => {
                let mut s = String::new();
                s.append("ColorSub_Y");
                s
            },
            FixtureChannel3Attribute::ColorMacro(n) => {
                let mut s = String::new();
                s.append("ColorMacro");
                push_decimal(&mut s, *n as u64);
                s
            },
            FixtureChannel3Attribute::ColorMacroRate(n) => {
                let mut s = String::new();
                s.append("ColorMacroRate");
                push_decimal(&mut s, *n as u64);
                s
            },
            FixtureChannel3Attribute::Cto => {
                let mut s = String::new();
                s.append("CTO");
                s
            },
            FixtureChannel3Attribute::Ctc => {
                let mut s = String::new();
                s.append("CTC");
                s
            },
            FixtureChannel3Attribute::Ctb => {
                let mut s = String::new();
                s.append("CTB");
                s
            },
            FixtureChannel3Attribute::Tint => {
                let mut s = String::new();
                s.append("Tint");
                s
            },
            FixtureChannel3Attribute::HsbHue => {
                let mut s = String::new();
                s.append("HSB_Hue");
                s
            },
            FixtureChannel3Attribute::HsbSaturation => {
                let mut s = String::new();
                s.append("HSB_Saturation");
                s
            },
            FixtureChannel3Attribute::HsbBrightness => {
                let mut s = String::new();
                s.append("HSB_Brightness");
                s
            },
            FixtureChannel3Attribute::HsbQuality => {
                let mut s = String::new();
                s.append("HSB_Quality");
                s
            },
            FixtureChannel3Attribute::CieX => {
                let mut s = String::new();
                s.append("CIE_X");
                s
            },
            FixtureChannel3Attribute::CieY => {
                let mut s = String::new();
                s.append("CIE_Y");
                s
            },
            FixtureChannel3Attribute::CieBrightness => {
                let mut s = String::new();
                s.append("CIE_Brightness");
                s
            },
            FixtureChannel3Attribute::ColorRgbRed => {
                let mut s = String::new();
                s.append("ColorRGB_Red");
                s
            },
            FixtureChannel3Attribute::ColorRgbGreen => {
                let mut s = String::new();
                s.append("ColorRGB_Green");
                s
            },
            FixtureChannel3Attribute::ColorRgbBlue => {
                let mut s = String::new();
                s.append("ColorRGB_Blue");
                s
            },
            FixtureChannel3Attribute::ColorRgbCyan => {
                let mut s = String::new();
                s.append("ColorRGB_Cyan");
                s
            },
            FixtureChannel3Attribute::ColorRgbMagenta => {
                let mut s = String::new();
                s.append("ColorRGB_Magenta");
                s
            },
            FixtureChannel3Attribute::ColorRgbYellow => {
                let mut s = String::new();
                s.append("ColorRGB_Yellow");
                s
            },
            FixtureChannel3Attribute::ColorRgbQuality => {
                let mut s = String::new();
                s.append("ColorRGB_Quality");
                s
            },
            FixtureChannel3Attribute::VideoBoostR => {
                let mut s = String::new();
                s.append("VideoBoost_R");
                s
            },
            FixtureChannel3Attribute::VideoBoostG => {
                let mut s = String::new();
                s.append("VideoBoost_G");
                s
            },
            FixtureChannel3Attribute::VideoBoostB => {
                let mut s = String::new();
                s.append("VideoBoost_B");
                s
            },
            FixtureChannel3Attribute::VideoHueShift => {
                let mut s = String::new();
                s.append("VideoHueShift");
                s
            },
            FixtureChannel3Attribute::VideoSaturation => {
                let mut s = String::new();
                s.append("VideoSaturation");
                s
            },
            FixtureChannel3Attribute::VideoBrightness => {
                let mut s = String::new();
                s.append("VideoBrightness");
                s
            },
            FixtureChannel3Attribute::VideoContrast => {
                let mut s = String::new();
                s.append("VideoContrast");
                s
            },
            FixtureChannel3Attribute::VideoKeyColorR => {
                let mut s = String::new();
                s.append("VideoKeyColor_R");
                s
            },
            FixtureChannel3Attribute::VideoKeyColorG => {
                let mut s = String::new();
                s.append("VideoKeyColor_G");
                s
            },
            FixtureChannel3Attribute::VideoKeyColorB => {
                let mut s = String::new();
                s.append("VideoKeyColor_B");
                s
            },
            FixtureChannel3Attribute::VideoKeyIntensity => {
                let mut s = String::new();
                s.append("VideoKeyIntensity");
                s
            },
            FixtureChannel3Attribute::VideoKeyTolerance => {
                let mut s = String::new();
                s.append("VideoKeyTolerance");
                s
            },
            FixtureChannel3Attribute::StrobeDuration => {
                let mut s = String::new();
                s.append("StrobeDuration");
                s
            },
            FixtureChannel3Attribute::StrobeRate => {
                let mut s = String::new();
                s.append("StrobeRate");
                s
            },
            FixtureChannel3Attribute::StrobeFrequency => {
                let mut s = String::new();
                s.append("StrobeFrequency");
                s
            },
            FixtureChannel3Attribute::StrobeModeShutter => {
                let mut s = String::new();
                s.append("StrobeModeShutter");
                s
            },
            FixtureChannel3Attribute::StrobeModeStrobe => {
                let mut s = String::new();
                s.append("StrobeModeStrobe");
                s
            },
            FixtureChannel3Attribute::StrobeModePulse => {
                let mut s = String::new();
                s.append("StrobeModePulse");
                s
            },
            FixtureChannel3Attribute::StrobeModePulseOpen => {
                let mut s = String::new();
                s.append("StrobeModePulseOpen");
                s
            },
            FixtureChannel3Attribute::StrobeModePulseClose => {
                let mut s = String::new();
                s.append("StrobeModePulseClose");
                s
            },
            FixtureChannel3Attribute::StrobeModeRandom => {
                let mut s = String::new();
                s.append("StrobeModeRandom");
                s
            },
            FixtureChannel3Attribute::StrobeModeRandomPulse => {
                let mut s = String::new();
                s.append("StrobeModeRandomPulse");
                s
            },
            FixtureChannel3Attribute::StrobeModeRandomPulseOpen => {
                let mut s = String::new();
                s.append("StrobeModeRandomPulseOpen");
                s
            },
            FixtureChannel3Attribute::StrobeModeRandomPulseClose => {
                let mut s = String::new();
                s.append("StrobeModeRandomPulseClose");
                s
            },
            FixtureChannel3Attribute::StrobeModeEffect => {
                let mut s = String::new();
                s.append("StrobeModeEffect");
                s
            },
            FixtureChannel3Attribute::Shutter(n) => {
                let mut s = String::new();
                s.append("Shutter");
                push_decimal(&mut s, *n as u64);
                s
            },
            FixtureChannel3Attribute::ShutterStrobe(n) => {
                let mut s = String::new();
                s.append("Shutter");
                push_decimal(&mut s, *n as u64);
                s.append("Strobe");
                s
            },
            FixtureChannel3Attribute::ShutterStrobePulse(n) => {
                let mut s = String::new();
                s.append("Shutter");
                push_decimal(&mut s, *n as u64);
                s.append("StrobePulse");
                s
            },
            FixtureChannel3Attribute::ShutterStrobePulseClose(n) => {
                let mut s = String::new();
                s.append("Shutter");
                push_decimal(&mut s, *n as u64);
                s.append("StrobePulseClose");
                s
            },
            FixtureChannel3Attribute::ShutterStrobePulseOpen(n) => {
                let mut s = String::new();
                s.append("Shutter");
                push_decimal(&mut s, *n as u64);
                s.append("StrobePulseOpen");
                s
            },
            FixtureChannel3Attribute::ShutterStrobeRandom(n) => {
                let mut s = String::new();
                s.append("Shutter");
                push_decimal(&mut s, *n as u64);
                s.append("StrobeRandom");
                s
            },
            FixtureChannel3Attribute::ShutterStrobeRandomPulse(n) => {
                let mut s = String::new();
                s.append("Shutter");
                push_decimal(&mut s, *n as u64);
                s.append("StrobeRandomPulse");
                s
            },
            FixtureChannel3Attribute::ShutterStrobeRandomPulseClose(n) => {
                let mut s = String::new();
                s.append("Shutter");
                push_decimal(&mut s, *n as u64);
                s.append("StrobeRandomPulseClose");
                s
            },
            FixtureChannel3Attribute::ShutterStrobeRandomPulseOpen(n) => {
                let mut s = String::new();
                s.append("Shutter");
                push_decimal(&mut s, *n as u64);
                s.append("StrobeRandomPulseOpen");
                s
            },
            FixtureChannel3Attribute::ShutterStrobeEffect(n) => {
                let mut s = String::new();
                s.append("Shutter");
                push_decimal(&mut s, *n as u64);
                s.append("StrobeEffect");
                s
            },
            FixtureChannel3Attribute::Iris => {
                let mut s = String::new();
                s.append("Iris");
                s
            },
            FixtureChannel3Attribute::IrisStrobe => {
                let mut s = String::new();
                s.append("IrisStrobe");
                s
            },
            FixtureChannel3Attribute::IrisStrobeRandom => {
                let mut s = String::new();
                s.append("IrisStrobeRandom");
                s
            },
            FixtureChannel3Attribute::IrisPulseClose => {
                let mut s = String::new();
                s.append("IrisPulseClose");
                s
            },
            FixtureChannel3Attribute::IrisPulseOpen => {
                let mut s = String::new();
                s.append("IrisPulseOpen");
                s
            },
            FixtureChannel3Attribute::IrisRandomPulseClose => {
                let mut s = String::new();
                s.append("IrisRandomPulseClose");
                s
            },
            FixtureChannel3Attribute::IrisRandomPulseOpen => {
                let mut s = String::new();
                s.append("IrisRandomPulseOpen");
                s
            },
            FixtureChannel3Attribute::Frost(n) => {
                let mut s = String::new();
                s.append("Frost");
                push_decimal(&mut s, *n as u64);
                s
            },
            FixtureChannel3Attribute::FrostPulseOpen(n) => {
                let mut s = String::new();
                s.append("Frost");
                push_decimal(&mut s, *n as u64);
                s.append("PulseOpen");
                s
            },
            FixtureChannel3Attribute::FrostPulseClose(n) => {
                let mut s = String::new();
                s.append("Frost");
                push_decimal(&mut s, *n as u64);
                s.append("PulseClose");
                s
            },
            FixtureChannel3Attribute::FrostRamp(n) => {
                let mut s = String::new();
                s.append("Frost");
                push_decimal(&mut s, *n as u64);
                s.append("Ramp");
                s
            },
            FixtureChannel3Attribute::Prism(n) => {
                let mut s = String::new();
                s.append("Prism");
                push_decimal(&mut s, *n as u64);
                s
            },
            FixtureChannel3Attribute::PrismSelectSpin(n) => {
                let mut s = String::new();
                s.append("Prism");
                push_decimal(&mut s, *n as u64);
                s.append("SelectSpin");
                s
            },
            FixtureChannel3Attribute::PrismMacro(n) => {
                let mut s = String::new();
                s.append("Prism");
                push_decimal(&mut s, *n as u64);
                s.append("Macro");
                s
            },
            FixtureChannel3Attribute::PrismPos(n) => {
                let mut s = String::new();
                s.append("Prism");
                push_decimal(&mut s, *n as u64);
                s.append("Pos");
                s
            },
            FixtureChannel3Attribute::PrismPosRotate(n) => {
                let mut s = String::new();
                s.append("Prism");
                push_decimal(&mut s, *n as u64);
                s.append("PosRotate");
                s
            },
            FixtureChannel3Attribute::Effects(n) => {
                let mut s = String::new();
                s.append("Effects");
                push_decimal(&mut s, *n as u64);
                s
            },
            FixtureChannel3Attribute::EffectsRate(n) => {
                let mut s = String::new();
                s.append("Effects");
                push_decimal(&mut s, *n as u64);
                s.append("Rate");
                s
            },
            FixtureChannel3Attribute::EffectsFade(n) => {
                let mut s = String::new();
                s.append("Effects");
                push_decimal(&mut s, *n as u64);
                s.append("Fade");
                s
            },
            FixtureChannel3Attribute::EffectsAdjust(n, m) => {
                let mut s = String::new();
                s.append("Effects");
                push_decimal(&mut s, *n as u64);
                s.append("Adjust");
                push_decimal(&mut s, *m as u64);
                s
            },
            FixtureChannel3Attribute::EffectsPos(n) => {
                let mut s = String::new();
                s.append("Effects");
                push_decimal(&mut s, *n as u64);
                s.append("Pos");
                s
            },
            FixtureChannel3Attribute::EffectsPosRotate(n) => {
                let mut s = String::new();
                s.append("Effects");
                push_decimal(&mut s, *n as u64);
                s.append("PosRotate");
                s
            },
            FixtureChannel3Attribute::EffectsSync => {
                let mut s = String::new();
                s.append("EffectsSync");
                s
            },
            FixtureChannel3Attribute::BeamShaper => {
                let mut s = String::new();
                s.append("BeamShaper");
                s
            },
            FixtureChannel3Attribute::BeamShaperMacro => {
                let mut s = String::new();
                s.append("BeamShaperMacro");
                s
            },
            FixtureChannel3Attribute::BeamShaperPos => {
                let mut s = String::new();
                s.append("BeamShaperPos");
                s
            },
            FixtureChannel3Attribute::BeamShaperPosRotate => {
                let mut s = String::new();
                s.append("BeamShaperPosRotate");
                s
            },
            FixtureChannel3Attribute::Zoom => {
                let mut s = String::new();
                s.append("Zoom");
                s
            },
            FixtureChannel3Attribute::ZoomModeSpot => {
                let mut s = String::new();
                s.append("ZoomModeSpot");
                s
            },
            FixtureChannel3Attribute::ZoomModeBeam => {
                let mut s = String::new();
                s.append("ZoomModeBeam");
                s
            },
            FixtureChannel3Attribute::DigitalZoom => {
                let mut s = String::new();
                s.append("DigitalZoom");
                s
            },
            FixtureChannel3Attribute::Focus(n) => {
                let mut s = String::new();
                s.append("Focus");
                push_decimal(&mut s, *n as u64);
                s
            },
            FixtureChannel3Attribute::FocusAdjust(n) => {
                let mut s = String::new();
                s.append("Focus");
                push_decimal(&mut s, *n as u64);
                s.append("Adjust");
                s
            },
            FixtureChannel3Attribute::FocusDistance(n) => {
                let mut s = String::new();
                s.append("Focus");
                push_decimal(&mut s, *n as u64);
                s.append("Distance");
                s
            },
            FixtureChannel3Attribute::Control(n) => {
                let mut s = String::new();
                s.append("Control");
                push_decimal(&mut s, *n as u64);
                s
            },
            FixtureChannel3Attribute::DimmerMode => {
                let mut s = String::new();
                s.append("DimmerMode");
                s
            },
            FixtureChannel3Attribute::DimmerCurve => {
                let mut s = String::new();
                s.append("DimmerCurve");
                s
            },
            FixtureChannel3Attribute::BlackoutMode => {
                let mut s = String::new();
                s.append("BlackoutMode");
                s
            },
            FixtureChannel3Attribute::LedFrequency => {
                let mut s = String::new();
                s.append("LedFrequency");
                s
            },
            FixtureChannel3Attribute::LedZoneMode => {
                let mut s = String::new();
                s.append("LedZoneMode");
                s
            },
            FixtureChannel3Attribute::PixelMode => {
                let mut s = String::new();
                s.append("PixelMode");
                s
            },
            FixtureChannel3Attribute::PanMode => {
                let mut s = String::new();
                s.append("PanMode");
                s
            },
            FixtureChannel3Attribute::TiltMode => {
                let mut s = String::new();
                s.append("TiltMode");
                s
            },
            FixtureChannel3Attribute::PanTiltMode => {
                let mut s = String::new();
                s.append("PanTiltMode");
                s
            },
            FixtureChannel3Attribute::PositionModes => {
                let mut s = String::new();
                s.append("PositionModes");
                s
            },
            FixtureChannel3Attribute::GoboWheelMode(n) => {
                let mut s = String::new();
                s.append("Gobo");
                push_decimal(&mut s, *n as u64);
                s.append("WheelMode");
                s
            },
            FixtureChannel3Attribute::GoboWheelShortcutMode => {
                let mut s = String::new();
                s.append("GoboWheelShortcutMode");
                s
            },
            FixtureChannel3Attribute::AnimationWheelMode(n) => {
                let mut s = String::new();
                s.append("Animation");
                push_decimal(&mut s, *n as u64);
                s.append("WheelMode");
                s
            },
            FixtureChannel3Attribute::AnimationWheelShortcutMode => {
                let mut s = String::new();
                s.append("AnimationWheelShortcutMode");
                s
            },
            FixtureChannel3Attribute::ColorMode(n) => {
                let mut s = String::new();
                s.append("Color");
                push_decimal(&mut s, *n as u64);
                s.append("Mode");
                s
            },
            FixtureChannel3Attribute::ColorWheelShortcutMode => {
                let mut s = String::new();
                s.append("ColorWheelShortcutMode");
                s
            },
            FixtureChannel3Attribute::CyanMode => {
                let mut s = String::new();
                s.append("CyanMode");
                s
            },
            FixtureChannel3Attribute::MagentaMode => {
                let mut s = String::new();
                s.append("MagentaMode");
                s
            },
            FixtureChannel3Attribute::YellowMode => {
                let mut s = String::new();
                s.append("YellowMode");
                s
            },
            FixtureChannel3Attribute::ColorMixMode => {
                let mut s = String::new();
                s.append("ColorMixMode");
                s
            },
            FixtureChannel3Attribute::ChromaticMode => {
                let mut s = String::new();
                s.append("ChromaticMode");
                s
            },
            FixtureChannel3Attribute::ColorCalibrationMode => {
                let mut s = String::new();
                s.append("ColorCalibrationMode");
                s
            },
            FixtureChannel3Attribute::ColorConsistency => {
                let mut s = String::new();
                s.append("ColorConsistency");
                s
            },
            FixtureChannel3Attribute::ColorControl => {
                let mut s = String::new();
                s.append("ColorControl");
                s
            },
            FixtureChannel3Attribute::ColorModelMode => {
                let mut s = String::new();
                s.append("ColorModelMode");
                s
            },
            FixtureChannel3Attribute::ColorSettingsReset => {
                let mut s = String::new();
                s.append("ColorSettingsReset");
                s
            },
            FixtureChannel3Attribute::ColorUniformity => {
                let mut s = String::new();
                s.append("ColorUniformity");
                s
            },
            FixtureChannel3Attribute::CriMode => {
                let mut s = String::new();
                s.append("CriMode");
                s
            },
            FixtureChannel3Attribute::CustomColor => {
                let mut s = String::new();
                s.append("CustomColor");
                s
            },
            FixtureChannel3Attribute::UvStability => {
                let mut s = String::new();
                s.append("UvStability");
                s
            },
            FixtureChannel3Attribute::WavelengthCorrection => {
                let mut s = String::new();
                s.append("WavelengthCorrection");
                s
            },
            FixtureChannel3Attribute::WhiteCount => {
                let mut s = String::new();
                s.append("WhiteCount");
                s
            },
            FixtureChannel3Attribute::StrobeMode => {
                let mut s = String::new();
                s.append("StrobeMode");
                s
            },
            FixtureChannel3Attribute::ZoomMode => {
                let mut s = String::new();
                s.append("ZoomMode");
                s
            },
            FixtureChannel3Attribute::FocusMode => {
                let mut s = String::new();
                s.append("FocusMode");
                s
            },
            FixtureChannel3Attribute::IrisMode => {
                let mut s = String::new();
                s.append("IrisMode");
                s
            },
            FixtureChannel3Attribute::FanMode(n) => {
                let mut s = String::new();
                s.append("Fan");
                push_decimal(&mut s, *n as u64);
                s.append("Mode");
                s
            },
            FixtureChannel3Attribute::FollowSpotMode => {
                let mut s = String::new();
                s.append("FollowSpotMode");
                s
            },
            FixtureChannel3Attribute::BeamEffectIndexRotateMode => {
                let mut s = String::new();
                s.append("BeamEffectIndexRotateMode");
                s
            },
            FixtureChannel3Attribute::IntensityMSpeed => {
                let mut s = String::new();
                s.append("IntensityMSpeed");
                s
            },
            FixtureChannel3Attribute::PositionMSpeed => {
                let mut s = String::new();
                s.append("PositionMSpeed");
                s
            },
            FixtureChannel3Attribute::ColorMixMSpeed => {
                let mut s = String::new();
                s.append("ColorMixMSpeed");
                s
            },
            FixtureChannel3Attribute::ColorWheelSelectMSpeed => {
                let mut s = String::new();
                s.append("ColorWheelSelectMSpeed");
                s
            },
            FixtureChannel3Attribute::GoboWheelMSpeed(n) => {
                let mut s = String::new();
                s.append("Gobo");
                push_decimal(&mut s, *n as u64);
                s.append("WheelMSpeed");
                s
            },
            FixtureChannel3Attribute::IrisMSpeed => {
                let mut s = String::new();
                s.append("IrisMSpeed");
                s
            },
            FixtureChannel3Attribute::PrismMSpeed(n) => {
                let mut s = String::new();
                s.append("Prism");
                push_decimal(&mut s, *n as u64);
                s.append("MSpeed");
                s
            },
            FixtureChannel3Attribute::FocusMSpeed => {
                let mut s = String::new();
                s.append("FocusMSpeed");
                s
            },
            FixtureChannel3Attribute::FrostMSpeed(n) => {
                let mut s = String::new();
                s.append("Frost");
                push_decimal(&mut s, *n as u64);
                s.append("MSpeed");
                s
            },
            FixtureChannel3Attribute::ZoomMSpeed => {
                let mut s = String::new();
                s.append("ZoomMSpeed");
                s
            },
            FixtureChannel3Attribute::FrameMSpeed => {
                let mut s = String::new();
                s.append("FrameMSpeed");
                s
            },
            FixtureChannel3Attribute::GlobalMSpeed => {
                let mut s = String::new();
                s.append("GlobalMSpeed");
                s
            },
            FixtureChannel3Attribute::ReflectorAdjust => {
                let mut s = String::new();
                s.append("ReflectorAdjust");
                s
            },
            FixtureChannel3Attribute::FixtureGlobalReset => {
                let mut s = String::new();
                s.append("FixtureGlobalReset");
                s
            },
            FixtureChannel3Attribute::DimmerReset => {
                let mut s = String::new();
                s.append("DimmerReset");
                s
            },
            FixtureChannel3Attribute::ShutterReset => {
                let mut s = String::new();
                s.append("ShutterReset");
                s
            },
            FixtureChannel3Attribute::BeamReset => {
                let mut s = String::new();
                s.append("BeamReset");
                s
            },
            FixtureChannel3Attribute::ColorMixReset => {
                let mut s = String::new();
                s.append("ColorMixReset");
                s
            },
            FixtureChannel3Attribute::ColorWheelReset => {
                let mut s = String::new();
                s.append("ColorWheelReset");
                s
            },
            FixtureChannel3Attribute::FocusReset => {
                let mut s = String::new();
                s.append("FocusReset");
                s
            },
            FixtureChannel3Attribute::FrameReset => {
                let mut s = String::new();
                s.append("FrameReset");
                s
            },
            FixtureChannel3Attribute::GoboWheelReset => {
                let mut s = String::new();
                s.append("GoboWheelReset");
                s
            },
            FixtureChannel3Attribute::IntensityReset => {
                let mut s = String::new();
                s.append("IntensityReset");
                s
            },
            FixtureChannel3Attribute::IrisReset => {
                let mut s = String::new();
                s.append("IrisReset");
                s
            },
            FixtureChannel3Attribute::PositionReset => {
                let mut s = String::new();
                s.append("PositionReset");
                s
            },
            FixtureChannel3Attribute::PanReset => {
                let mut s = String::new();
                s.append("PanReset");
                s
            },
            FixtureChannel3Attribute::TiltReset => {
                let mut s = String::new();
                s.append("TiltReset");
                s
            },
            FixtureChannel3Attribute::ZoomReset => {
                let mut s = String::new();
                s.append("ZoomReset");
                s
            },
            FixtureChannel3Attribute::CtbReset => {
                let mut s = String::new();
                s.append("CTBReset");
                s
            },
            FixtureChannel3Attribute::CtoReset => {
                let mut s = String::new();
                s.append("CTOReset");
                s
            },
            FixtureChannel3Attribute::CtcReset => {
                let mut s = String::new();
                s.append("CTCReset");
                s
            },
            FixtureChannel3Attribute::AnimationSystemReset => {
                let mut s = String::new();
                s.append("AnimationSystemReset");
                s
            },
            FixtureChannel3Attribute::FixtureCalibrationReset => {
                let mut s = String::new();
                s.append("FixtureCalibrationReset");
                s
            },
            FixtureChannel3Attribute::Function => {
                let mut s = String::new();
                s.append("Function");
                s
            },
            FixtureChannel3Attribute::LampControl => {
                let mut s = String::new();
                s.append("LampControl");
                s
            },
            FixtureChannel3Attribute::DisplayIntensity => {
                let mut s = String::new();
                s.append("DisplayIntensity");
                s
            },
            FixtureChannel3Attribute::DmxInput => {
                let mut s = String::new();
                s.append("DMXInput");
                s
            },
            FixtureChannel3Attribute::NoFeature => {
                let mut s = String::new();
                s.append("NoFeature");
                s
            },
            FixtureChannel3Attribute::Blower(n) => {
                let mut s = String::new();
                s.append("Blower");
                push_decimal(&mut s, *n as u64);
                s
            },
            FixtureChannel3Attribute::Fan(n) => {
                let mut s = String::new();
                s.append("Fan");
                push_decimal(&mut s, *n as u64);
                s
            },
            FixtureChannel3Attribute::Fog(n) => {
                let mut s = String::new();
                s.append("Fog");
                push_decimal(&mut s, *n as u64);
                s
            },
            FixtureChannel3Attribute::Haze(n) => {
                let mut s = String::new();
                s.append("Haze");
                push_decimal(&mut s, *n as u64);
                s
            },
            FixtureChannel3Attribute::LampPowerMode => {
                let mut s = String::new();
                s.append("LampPowerMode");
                s
            },
            FixtureChannel3Attribute::Fans => {
                let mut s = String::new();
                s.append("Fans");
                s
            },
            FixtureChannel3Attribute::BladeA(n) => {
                let mut s = String::new();
                s.append("Blade");
                push_decimal(&mut s, *n as u64);
                s.append("A");
                s
            },
            FixtureChannel3Attribute::BladeB(n) => {
                let mut s = String::new();
                s.append("Blade");
                push_decimal(&mut s, *n as u64);
                s.append("B");
                s
            },
            FixtureChannel3Attribute::BladeRot(n) => {
                let mut s = String::new();
                s.append("Blade");
                push_decimal(&mut s, *n as u64);
                s.append("Rot");
                s
            },
            FixtureChannel3Attribute::ShaperRot => {
                let mut s = String::new();
                s.append("ShaperRot");
                s
            },
            FixtureChannel3Attribute::ShaperMacros => {
                let mut s = String::new();
                s.append("ShaperMacros");
                s
            },
            FixtureChannel3Attribute::ShaperMacrosSpeed => {
                let mut s = String::new();
                s.append("ShaperMacrosSpeed");
                s
            },
            FixtureChannel3Attribute::BladeSoftA(n) => {
                let mut s = String::new();
                s.append("BladeSoft");
                push_decimal(&mut s, *n as u64);
                s.append("A");
                s
            },
            FixtureChannel3Attribute::BladeSoftB(n) => {
                let mut s = String::new();
                s.append("BladeSoft");
                push_decimal(&mut s, *n as u64);
                s.append("B");
                s
            },
            FixtureChannel3Attribute::KeyStoneA(n) => {
                let mut s = String::new();
                s.append("KeyStone");
                push_decimal(&mut s, *n as u64);
                s.append("A");
                s
            },
            FixtureChannel3Attribute::KeyStoneB(n) => {
                let mut s = String::new();
                s.append("KeyStone");
                push_decimal(&mut s, *n as u64);
                s.append("B");
                s
            },
            FixtureChannel3Attribute::Video => {
                let mut s = String::new();
                s.append("Video");
                s
            },
            FixtureChannel3Attribute::VideoEffectType(n) => {
                let mut s = String::new();
                s.append("VideoEffect");
                push_decimal(&mut s, *n as u64);
                s.append("Type");
                s
            },
            FixtureChannel3Attribute::VideoEffectParameter(n, m) => {
                let mut s = String::new();
                s.append("VideoEffect");
                push_decimal(&mut s, *n as u64);
                s.append("Parameter");
                push_decimal(&mut s, *m as u64);
                s
            },
            FixtureChannel3Attribute::VideoCamera(n) => {
                let mut s = String::new();
                s.append("VideoCamera");
                push_decimal(&mut s, *n as u64);
                s
            },
            FixtureChannel3Attribute::VideoSoundVolume(n) => {
                let mut s = String::new();
                s.append("VideoSoundVolume");
                push_decimal(&mut s, *n as u64);
                s
            },
            FixtureChannel3Attribute::VideoBlendMode => {
                let mut s = String::new();
                s.append("VideoBlendMode");
                s
            },
            FixtureChannel3Attribute::InputSource => {
                let mut s = String::new();
                s.append("InputSource");
                s
            },
            FixtureChannel3Attribute::FieldOfView => {
                let mut s = String::new();
                s.append("FieldOfView");
                s
            },
            FixtureChannel3Attribute::Custom(name) => name.to_string(),
        }
    }

    /// The feature type the attribute belongs to; custom attributes have none.
    pub fn feature_type(&self) -> (res: Option<FixtureChannel3FeatureType>)
        ensures
            res == attribute_feature_type(*self),
    {
        match self {
            FixtureChannel3Attribute::Dimmer => Some(FixtureChannel3FeatureType::Dimmer),
            FixtureChannel3Attribute::Pan | FixtureChannel3Attribute::Tilt | FixtureChannel3Attribute::PanRotate | FixtureChannel3Attribute::TiltRotate | FixtureChannel3Attribute::PositionEffect | FixtureChannel3Attribute::PositionEffectRate | FixtureChannel3Attribute::PositionEffectFade => Some(FixtureChannel3FeatureType::PanTilt),
            FixtureChannel3Attribute::XyzX | FixtureChannel3Attribute::XyzY | FixtureChannel3Attribute::XyzZ => Some(FixtureChannel3FeatureType::Xyz),
            FixtureChannel3Attribute::RotX | FixtureChannel3Attribute::RotY | FixtureChannel3Attribute::RotZ => Some(FixtureChannel3FeatureType::Rotation),
            FixtureChannel3Attribute::ScaleX | FixtureChannel3Attribute::ScaleY | FixtureChannel3Attribute::ScaleZ | FixtureChannel3Attribute::ScaleXYZ => Some(FixtureChannel3FeatureType::Scale),
            FixtureChannel3Attribute::Gobo(_) | FixtureChannel3Attribute::GoboSelectSpin(_) | FixtureChannel3Attribute::GoboSelectShake(_) | FixtureChannel3Attribute::GoboSelectEffects(_) | FixtureChannel3Attribute::GoboWheelIndex(_) | FixtureChannel3Attribute::GoboWheelSpin(_) | FixtureChannel3Attribute::GoboWheelShake(_) | FixtureChannel3Attribute::GoboWheelRandom(_) | FixtureChannel3Attribute::GoboWheelAudio(_) | FixtureChannel3Attribute::GoboPos(_) | FixtureChannel3Attribute::GoboPosRotate(_) | FixtureChannel3Attribute::GoboPosShake(_) | FixtureChannel3Attribute::AnimationWheel(_) | FixtureChannel3Attribute::AnimationWheelAudio(_) | FixtureChannel3Attribute::AnimationWheelMacro(_) | FixtureChannel3Attribute::AnimationWheelRandom(_) | FixtureChannel3Attribute::AnimationWheelSelectEffects(_) | FixtureChannel3Attribute::AnimationWheelSelectShake(_) | FixtureChannel3Attribute::AnimationWheelSelectSpin(_) | FixtureChannel3Attribute::AnimationWheelPos(_) | FixtureChannel3Attribute::AnimationWheelPosRotate(_) | FixtureChannel3Attribute::AnimationWheelPosShake(_) | FixtureChannel3Attribute::AnimationSystem(_) | FixtureChannel3Attribute::AnimationSystemRamp(_) | FixtureChannel3Attribute::AnimationSystemShake(_) | FixtureChannel3Attribute::AnimationSystemAudio(_) | FixtureChannel3Attribute::AnimationSystemRandom(_) | FixtureChannel3Attribute::AnimationSystemPos(_) | FixtureChannel3Attribute::AnimationSystemPosRotate(_) | FixtureChannel3Attribute::AnimationSystemPosShake(_) | FixtureChannel3Attribute::AnimationSystemPosRandom(_) | FixtureChannel3Attribute::AnimationSystemPosAudio(_) | FixtureChannel3Attribute::AnimationSystemMacro(_) => Some(FixtureChannel3FeatureType::Gobo),
            FixtureChannel3Attribute::PlayMode | FixtureChannel3Attribute::MediaFolder(_) | FixtureChannel3Attribute::MediaContent(_) | FixtureChannel3Attribute::ModelFolder(_) | FixtureChannel3Attribute::ModelContent(_) | FixtureChannel3Attribute::PlayBegin | FixtureChannel3Attribute::PlayEnd | FixtureChannel3Attribute::PlaySpeed => Some(FixtureChannel3FeatureType::Media),
            FixtureChannel3Attribute::ColorEffects(_) | FixtureChannel3Attribute::Color(_) | FixtureChannel3Attribute::ColorWheelIndex(_) | FixtureChannel3Attribute::ColorWheelSpin(_) | FixtureChannel3Attribute::ColorWheelRandom(_) | FixtureChannel3Attribute::ColorWheelAudio(_) | FixtureChannel3Attribute::Cto | FixtureChannel3Attribute::Ctc | FixtureChannel3Attribute::Ctb | FixtureChannel3Attribute::Tint => Some(FixtureChannel3FeatureType::Color),
            FixtureChannel3Attribute::ColorAddR | FixtureChannel3Attribute::ColorAddG | FixtureChannel3Attribute::ColorAddB | FixtureChannel3Attribute::ColorAddC | FixtureChannel3Attribute::ColorAddM | FixtureChannel3Attribute::ColorAddY | FixtureChannel3Attribute::ColorAddRY | FixtureChannel3Attribute::ColorAddGY | FixtureChannel3Attribute::ColorAddGC | FixtureChannel3Attribute::ColorAddBC | FixtureChannel3Attribute::ColorAddBM | FixtureChannel3Attribute::ColorAddRM | FixtureChannel3Attribute::ColorAddW | FixtureChannel3Attribute::ColorAddWW | FixtureChannel3Attribute::ColorAddCW | FixtureChannel3Attribute::ColorAddUV | FixtureChannel3Attribute::ColorSubR | FixtureChannel3Attribute::ColorSubG | FixtureChannel3Attribute::ColorSubB | FixtureChannel3Attribute::ColorSubC | FixtureChannel3Attribute::ColorSubM | FixtureChannel3Attribute::ColorSubY | FixtureChannel3Attribute::ColorMacro(_) | FixtureChannel3Attribute::ColorMacroRate(_) => Some(FixtureChannel3FeatureType::Rgb),
            FixtureChannel3Attribute::HsbHue | FixtureChannel3Attribute::HsbSaturation | FixtureChannel3Attribute::HsbBrightness | FixtureChannel3Attribute::HsbQuality => Some(FixtureChannel3FeatureType::Hsb),
            FixtureChannel3Attribute::CieX | FixtureChannel3Attribute::CieY | FixtureChannel3Attribute::CieBrightness => Some(FixtureChannel3FeatureType::Cie),
            FixtureChannel3Attribute::ColorRgbRed | FixtureChannel3Attribute::ColorRgbGreen | FixtureChannel3Attribute::ColorRgbBlue | FixtureChannel3Attribute::ColorRgbCyan | FixtureChannel3Attribute::ColorRgbMagenta | FixtureChannel3Attribute::ColorRgbYellow | FixtureChannel3Attribute::ColorRgbQuality => Some(FixtureChannel3FeatureType::Indirect),
            FixtureChannel3Attribute::VideoBoostR | FixtureChannel3Attribute::VideoBoostG | FixtureChannel3Attribute::VideoBoostB => Some(FixtureChannel3FeatureType::ColorCorrection),
            FixtureChannel3Attribute::VideoHueShift | FixtureChannel3Attribute::VideoSaturation | FixtureChannel3Attribute::VideoBrightness | FixtureChannel3Attribute::VideoContrast => Some(FixtureChannel3FeatureType::HsbcShift),
            FixtureChannel3Attribute::VideoKeyColorR | FixtureChannel3Attribute::VideoKeyColorG | FixtureChannel3Attribute::VideoKeyColorB | FixtureChannel3Attribute::VideoKeyIntensity | FixtureChannel3Attribute::VideoKeyTolerance => Some(FixtureChannel3FeatureType::ColorKey),
            FixtureChannel3Attribute::StrobeDuration | FixtureChannel3Attribute::StrobeRate | FixtureChannel3Attribute::StrobeFrequency | FixtureChannel3Attribute::StrobeModeShutter | FixtureChannel3Attribute::StrobeModeStrobe | FixtureChannel3Attribute::StrobeModePulse | FixtureChannel3Attribute::StrobeModePulseOpen | FixtureChannel3Attribute::StrobeModePulseClose | FixtureChannel3Attribute::StrobeModeRandom | FixtureChannel3Attribute::StrobeModeRandomPulse | FixtureChannel3Attribute::StrobeModeRandomPulseOpen | FixtureChannel3Attribute::StrobeModeRandomPulseClose | FixtureChannel3Attribute::StrobeModeEffect | FixtureChannel3Attribute::Shutter(_) | FixtureChannel3Attribute::ShutterStrobe(_) | FixtureChannel3Attribute::ShutterStrobePulse(_) | FixtureChannel3Attribute::ShutterStrobePulseClose(_) | FixtureChannel3Attribute::ShutterStrobePulseOpen(_) | FixtureChannel3Attribute::ShutterStrobeRandom(_) | FixtureChannel3Attribute::ShutterStrobeRandomPulse(_) | FixtureChannel3Attribute::ShutterStrobeRandomPulseClose(_) | FixtureChannel3Attribute::ShutterStrobeRandomPulseOpen(_) | FixtureChannel3Attribute::ShutterStrobeEffect(_) | FixtureChannel3Attribute::Iris | FixtureChannel3Attribute::IrisStrobe | FixtureChannel3Attribute::IrisStrobeRandom | FixtureChannel3Attribute::IrisPulseClose | FixtureChannel3Attribute::IrisPulseOpen | FixtureChannel3Attribute::IrisRandomPulseClose | FixtureChannel3Attribute::IrisRandomPulseOpen | FixtureChannel3Attribute::Frost(_) | FixtureChannel3Attribute::FrostPulseOpen(_) | FixtureChannel3Attribute::FrostPulseClose(_) | FixtureChannel3Attribute::FrostRamp(_) | FixtureChannel3Attribute::Prism(_) | FixtureChannel3Attribute::PrismSelectSpin(_) | FixtureChannel3Attribute::PrismMacro(_) | FixtureChannel3Attribute::PrismPos(_) | FixtureChannel3Attribute::PrismPosRotate(_) | FixtureChannel3Attribute::Effects(_) | FixtureChannel3Attribute::EffectsRate(_) | FixtureChannel3Attribute::EffectsFade(_) | FixtureChannel3Attribute::EffectsAdjust(_, _) | FixtureChannel3Attribute::EffectsPos(_) | FixtureChannel3Attribute::EffectsPosRotate(_) | FixtureChannel3Attribute::EffectsSync | FixtureChannel3Attribute::BeamShaper | FixtureChannel3Attribute::BeamShaperMacro | FixtureChannel3Attribute::BeamShaperPos | FixtureChannel3Attribute::BeamShaperPosRotate => Some(FixtureChannel3FeatureType::Beam),
            FixtureChannel3Attribute::Zoom | FixtureChannel3Attribute::ZoomModeSpot | FixtureChannel3Attribute::ZoomModeBeam | FixtureChannel3Attribute::DigitalZoom | FixtureChannel3Attribute::Focus(_) | FixtureChannel3Attribute::FocusAdjust(_) | FixtureChannel3Attribute::FocusDistance(_) => Some(FixtureChannel3FeatureType::Focus),
            FixtureChannel3Attribute::Control(_) | FixtureChannel3Attribute::DimmerMode | FixtureChannel3Attribute::DimmerCurve | FixtureChannel3Attribute::BlackoutMode | FixtureChannel3Attribute::LedFrequency | FixtureChannel3Attribute::LedZoneMode | FixtureChannel3Attribute::PixelMode | FixtureChannel3Attribute::PanMode | FixtureChannel3Attribute::TiltMode | FixtureChannel3Attribute::PanTiltMode | FixtureChannel3Attribute::PositionModes | FixtureChannel3Attribute::GoboWheelMode(_) | FixtureChannel3Attribute::GoboWheelShortcutMode | FixtureChannel3Attribute::AnimationWheelMode(_) | FixtureChannel3Attribute::AnimationWheelShortcutMode | FixtureChannel3Attribute::ColorMode(_) | FixtureChannel3Attribute::ColorWheelShortcutMode | FixtureChannel3Attribute::CyanMode | FixtureChannel3Attribute::MagentaMode | FixtureChannel3Attribute::YellowMode | FixtureChannel3Attribute::ColorMixMode | FixtureChannel3Attribute::ChromaticMode | FixtureChannel3Attribute::ColorCalibrationMode | FixtureChannel3Attribute::ColorConsistency | FixtureChannel3Attribute::ColorControl | FixtureChannel3Attribute::ColorModelMode | FixtureChannel3Attribute::ColorSettingsReset | FixtureChannel3Attribute::ColorUniformity | FixtureChannel3Attribute::CriMode | FixtureChannel3Attribute::CustomColor | FixtureChannel3Attribute::UvStability | FixtureChannel3Attribute::WavelengthCorrection | FixtureChannel3Attribute::WhiteCount | FixtureChannel3Attribute::StrobeMode | FixtureChannel3Attribute::ZoomMode | FixtureChannel3Attribute::FocusMode | FixtureChannel3Attribute::IrisMode | FixtureChannel3Attribute::FanMode(_) | FixtureChannel3Attribute::FollowSpotMode | FixtureChannel3Attribute::BeamEffectIndexRotateMode | FixtureChannel3Attribute::IntensityMSpeed | FixtureChannel3Attribute::PositionMSpeed | FixtureChannel3Attribute::ColorMixMSpeed | FixtureChannel3Attribute::ColorWheelSelectMSpeed | FixtureChannel3Attribute::GoboWheelMSpeed(_) | FixtureChannel3Attribute::IrisMSpeed | FixtureChannel3Attribute::PrismMSpeed(_) | FixtureChannel3Attribute::FocusMSpeed | FixtureChannel3Attribute::FrostMSpeed(_) | FixtureChannel3Attribute::ZoomMSpeed | FixtureChannel3Attribute::FrameMSpeed | FixtureChannel3Attribute::GlobalMSpeed | FixtureChannel3Attribute::ReflectorAdjust | FixtureChannel3Attribute::FixtureGlobalReset | FixtureChannel3Attribute::DimmerReset | FixtureChannel3Attribute::ShutterReset | FixtureChannel3Attribute::BeamReset | FixtureChannel3Attribute::ColorMixReset | FixtureChannel3Attribute::ColorWheelReset | FixtureChannel3Attribute::FocusReset | FixtureChannel3Attribute::FrameReset | FixtureChannel3Attribute::GoboWheelReset | FixtureChannel3Attribute::IntensityReset | FixtureChannel3Attribute::IrisReset | FixtureChannel3Attribute::PositionReset | FixtureChannel3Attribute::PanReset | FixtureChannel3Attribute::TiltReset | FixtureChannel3Attribute::ZoomReset | FixtureChannel3Attribute::CtbReset | FixtureChannel3Attribute::CtoReset | FixtureChannel3Attribute::CtcReset | FixtureChannel3Attribute::AnimationSystemReset | FixtureChannel3Attribute::FixtureCalibrationReset | FixtureChannel3Attribute::Function | FixtureChannel3Attribute::LampControl | FixtureChannel3Attribute::DisplayIntensity | FixtureChannel3Attribute::DmxInput | FixtureChannel3Attribute::NoFeature | FixtureChannel3Attribute::Blower(_) | FixtureChannel3Attribute::Fan(_) | FixtureChannel3Attribute::Fog(_) | FixtureChannel3Attribute::Haze(_) | FixtureChannel3Attribute::LampPowerMode | FixtureChannel3Attribute::Fans => Some(FixtureChannel3FeatureType::Control),
            FixtureChannel3Attribute::BladeA(_) | FixtureChannel3Attribute::BladeB(_) | FixtureChannel3Attribute::BladeRot(_) | FixtureChannel3Attribute::ShaperRot | FixtureChannel3Attribute::ShaperMacros | FixtureChannel3Attribute::ShaperMacrosSpeed | FixtureChannel3Attribute::BladeSoftA(_) | FixtureChannel3Attribute::BladeSoftB(_) | FixtureChannel3Attribute::KeyStoneA(_) | FixtureChannel3Attribute::KeyStoneB(_) => Some(FixtureChannel3FeatureType::Shapers),
            FixtureChannel3Attribute::Video | FixtureChannel3Attribute::VideoEffectType(_) | FixtureChannel3Attribute::VideoEffectParameter(_, _) | FixtureChannel3Attribute::VideoCamera(_) | FixtureChannel3Attribute::FieldOfView | FixtureChannel3Attribute::InputSource | FixtureChannel3Attribute::VideoBlendMode | FixtureChannel3Attribute::VideoSoundVolume(_) => Some(FixtureChannel3FeatureType::Video),
            FixtureChannel3Attribute::Custom(_) => None,
        }
    }
}

fn exact_attribute_0_exec(cs: &[char]) -> (res: Option<FixtureChannel3Attribute>)
    ensures
        res == exact_attribute_0(cs@),
{
    proof {
        reveal(exact_attribute_0);
    }
    if chars_eq(cs, "Dimmer") {
        Some(FixtureChannel3Attribute::Dimmer)
    } else if chars_eq(cs, "Pan") {
        Some(FixtureChannel3Attribute::Pan)
    } else if chars_eq(cs, "Tilt") {
        Some(FixtureChannel3Attribute::Tilt)
    } else if chars_eq(cs, "PanRotate") {
        Some(FixtureChannel3Attribute::PanRotate)
    } else if chars_eq(cs, "TiltRotate") {
        Some(FixtureChannel3Attribute::TiltRotate)
    } else if chars_eq(cs, "PositionEffect") {
        Some(FixtureChannel3Attribute::PositionEffect)
    } else if chars_eq(cs, "PositionEffectRate") {
        Some(FixtureChannel3Attribute::PositionEffectRate)
    } else if chars_eq(cs, "PositionEffectFade") {
        Some(FixtureChannel3Attribute::PositionEffectFade)
    } else if chars_eq(cs, "XYZ_X") {
        Some(FixtureChannel3Attribute::XyzX)
    } else if chars_eq(cs, "XYZ_Y") {
        Some(FixtureChannel3Attribute::XyzY)
    } else if chars_eq(cs, "XYZ_Z") {
        Some(FixtureChannel3Attribute::XyzZ)
    } else if chars_eq(cs, "Rot_X") {
        Some(FixtureChannel3Attribute::RotX)
    } else if chars_eq(cs, "Rot_Y") {
        Some(FixtureChannel3Attribute::RotY)
    } else if chars_eq(cs, "Rot_Z") {
        Some(FixtureChannel3Attribute::RotZ)
    } else if chars_eq(cs, "Scale_X") {
        Some(FixtureChannel3Attribute::ScaleX)
    } else if chars_eq(cs, "Scale_Y") {
        Some(FixtureChannel3Attribute::ScaleY)
    } else if chars_eq(cs, "Scale_Z") {
        Some(FixtureChannel3Attribute::ScaleZ)
    } else if chars_eq(cs, "Scale_XYZ") {
        Some(FixtureChannel3Attribute::ScaleXYZ)
    } else if chars_eq(cs, "PlayMode") {
        Some(FixtureChannel3Attribute::PlayMode)
    } else if chars_eq(cs, "PlayBegin") {
        Some(FixtureChannel3Attribute::PlayBegin)
    } else if chars_eq(cs, "PlayEnd") {
        Some(FixtureChannel3Attribute::PlayEnd)
    } else if chars_eq(cs, "PlaySpeed") {
        Some(FixtureChannel3Attribute::PlaySpeed)
    } else if chars_eq(cs, "ColorAdd_R") {
        Some(FixtureChannel3Attribute::ColorAddR)
    } else if chars_eq(cs, "ColorAdd_G") {
        Some(FixtureChannel3Attribute::ColorAddG)
    } else if chars_eq(cs, "ColorAdd_B") {
        Some(FixtureChannel3Attribute::ColorAddB)
    } else if chars_eq(cs, "ColorAdd_C") {
        Some(FixtureChannel3Attribute::ColorAddC)
    } else if chars_eq(cs, "ColorAdd_M") {
        Some(FixtureChannel3Attribute::ColorAddM)
    } else if chars_eq(cs, "ColorAdd_Y") {
        Some(FixtureChannel3Attribute::ColorAddY)
    } else if chars_eq(cs, "ColorAdd_RY") {
        Some(FixtureChannel3Attribute::ColorAddRY)
    } else if chars_eq(cs, "ColorAdd_GY") {
        Some(FixtureChannel3Attribute::ColorAddGY)
    } else if chars_eq(cs, "ColorAdd_GC") {
        Some(FixtureChannel3Attribute::ColorAddGC)
    } else if chars_eq(cs, "ColorAdd_BC") {
        Some(FixtureChannel3Attribute::ColorAddBC)
    } else if chars_eq(cs, "ColorAdd_BM") {
        Some(FixtureChannel3Attribute::ColorAddBM)
    } else if chars_eq(cs, "ColorAdd_RM") {
        Some(FixtureChannel3Attribute::ColorAddRM)
    } else if chars_eq(cs, "ColorAdd_W") {
        Some(FixtureChannel3Attribute::ColorAddW)
    } else if chars_eq(cs, "ColorAdd_WW") {
        Some(FixtureChannel3Attribute::ColorAddWW)
    } else if chars_eq(cs, "ColorAdd_CW") {
        Some(FixtureChannel3Attribute::ColorAddCW)
    } else if chars_eq(cs, "ColorAdd_UV") {
        Some(FixtureChannel3Attribute::ColorAddUV)
    } else if chars_eq(cs, "ColorSub_R") {
        Some(FixtureChannel3Attribute::ColorSubR)
    } else if chars_eq(cs, "ColorSub_G") {
        Some(FixtureChannel3Attribute::ColorSubG)
    } else if chars_eq(cs, "ColorSub_B") {
        Some(FixtureChannel3Attribute::ColorSubB)
    } else if chars_eq(cs, "ColorSub_C") {
        Some(FixtureChannel3Attribute::ColorSubC)
    } else if chars_eq(cs, "ColorSub_M") {
        Some(FixtureChannel3Attribute::ColorSubM)
    } else if chars_eq(cs, "ColorSub_Y") {
        Some(FixtureChannel3Attribute::ColorSubY)
    } else if chars_eq(cs, "CTO") {
        Some(FixtureChannel3Attribute::Cto)
    } else if chars_eq(cs, "CTC") {
        Some(FixtureChannel3Attribute::Ctc)
    } else {
        None
    }
}

fn exact_attribute_1_exec(cs: &[char]) -> (res: Option<FixtureChannel3Attribute>)
    ensures
        res == exact_attribute_1(cs@),
{
    proof {
        reveal(exact_attribute_1);
    }
    if chars_eq(cs, "CTB") {
        Some(FixtureChannel3Attribute::Ctb)
    } else if chars_eq(cs, "Tint") {
        Some(FixtureChannel3Attribute::Tint)
    } else if chars_eq(cs, "HSB_Hue") {
        Some(FixtureChannel3Attribute::HsbHue)
    } else if chars_eq(cs, "HSB_Saturation") {
        Some(FixtureChannel3Attribute::HsbSaturation)
    } else if chars_eq(cs, "HSB_Brightness") {
        Some(FixtureChannel3Attribute::HsbBrightness)
    } else if chars_eq(cs, "HSB_Quality") {
        Some(FixtureChannel3Attribute::HsbQuality)
    } else if chars_eq(cs, "CIE_X") {
        Some(FixtureChannel3Attribute::CieX)
    } else if chars_eq(cs, "CIE_Y") {
        Some(FixtureChannel3Attribute::CieY)
    } else if chars_eq(cs, "CIE_Brightness") {
        Some(FixtureChannel3Attribute::CieBrightness)
    } else if chars_eq(cs, "ColorRGB_Red") {
        Some(FixtureChannel3Attribute::ColorRgbRed)
    } else if chars_eq(cs, "ColorRGB_Green") {
        Some(FixtureChannel3Attribute::ColorRgbGreen)
    } else if chars_eq(cs, "ColorRGB_Blue") {
        Some(FixtureChannel3Attribute::ColorRgbBlue)
    } else if chars_eq(cs, "ColorRGB_Cyan") {
        Some(FixtureChannel3Attribute::ColorRgbCyan)
    } else if chars_eq(cs, "ColorRGB_Magenta") {
        Some(FixtureChannel3Attribute::ColorRgbMagenta)
    } else if chars_eq(cs, "ColorRGB_Yellow") {
        Some(FixtureChannel3Attribute::ColorRgbYellow)
    } else if chars_eq(cs, "ColorRGB_Quality") {
        Some(FixtureChannel3Attribute::ColorRgbQuality)
    } else if chars_eq(cs, "VideoBoost_R") {
        Some(FixtureChannel3Attribute::VideoBoostR)
    } else if chars_eq(cs, "VideoBoost_G") {
        Some(FixtureChannel3Attribute::VideoBoostG)
    } else if chars_eq(cs, "VideoBoost_B") {
        Some(FixtureChannel3Attribute::VideoBoostB)
    } else if chars_eq(cs, "VideoHueShift") {
        Some(FixtureChannel3Attribute::VideoHueShift)
    } else if chars_eq(cs, "VideoSaturation") {
        Some(FixtureChannel3Attribute::VideoSaturation)
    } else if chars_eq(cs, "VideoBrightness") {
        Some(FixtureChannel3Attribute::VideoBrightness)
    } else if chars_eq(cs, "VideoContrast") {
        Some(FixtureChannel3Attribute::VideoContrast)
    } else if chars_eq(cs, "VideoKeyColor_R") {
        Some(FixtureChannel3Attribute::VideoKeyColorR)
    } else if chars_eq(cs, "VideoKeyColor_G") {
        Some(FixtureChannel3Attribute::VideoKeyColorG)
    } else if chars_eq(cs, "VideoKeyColor_B") {
        Some(FixtureChannel3Attribute::VideoKeyColorB)
    } else if chars_eq(cs, "VideoKeyIntensity") {
        Some(FixtureChannel3Attribute::VideoKeyIntensity)
    } else if chars_eq(cs, "VideoKeyTolerance") {
        Some(FixtureChannel3Attribute::VideoKeyTolerance)
    } else if chars_eq(cs, "StrobeDuration") {
        Some(FixtureChannel3Attribute::StrobeDuration)
    } else if chars_eq(cs, "StrobeRate") {
        Some(FixtureChannel3Attribute::StrobeRate)
    } else if chars_eq(cs, "StrobeFrequency") {
        Some(FixtureChannel3Attribute::StrobeFrequency)
    } else if chars_eq(cs, "StrobeModeShutter") {
        Some(FixtureChannel3Attribute::StrobeModeShutter)
    } else if chars_eq(cs, "StrobeModeStrobe") {
        Some(FixtureChannel3Attribute::StrobeModeStrobe)
    } else if chars_eq(cs, "StrobeModePulse") {
        Some(FixtureChannel3Attribute::StrobeModePulse)
    } else if chars_eq(cs, "StrobeModePulseOpen") {
        Some(FixtureChannel3Attribute::StrobeModePulseOpen)
    } else if chars_eq(cs, "StrobeModePulseClose") {
        Some(FixtureChannel3Attribute::StrobeModePulseClose)
    } else if chars_eq(cs, "StrobeModeRandom") {
        Some(FixtureChannel3Attribute::StrobeModeRandom)
    } else if chars_eq(cs, "StrobeModeRandomPulse") {
        Some(FixtureChannel3Attribute::StrobeModeRandomPulse)
    } else if chars_eq(cs, "StrobeModeRandomPulseOpen") {
        Some(FixtureChannel3Attribute::StrobeModeRandomPulseOpen)
    } else if chars_eq(cs, "StrobeModeRandomPulseClose") {
        Some(FixtureChannel3Attribute::StrobeModeRandomPulseClose)
    } else if chars_eq(cs, "StrobeModeEffect") {
        Some(FixtureChannel3Attribute::StrobeModeEffect)
    } else if chars_eq(cs, "Iris") {
        Some(FixtureChannel3Attribute::Iris)
    } else if chars_eq(cs, "IrisStrobe") {
        Some(FixtureChannel3Attribute::IrisStrobe)
    } else if chars_eq(cs, "IrisStrobeRandom") {
        Some(FixtureChannel3Attribute::IrisStrobeRandom)
    } else if chars_eq(cs, "IrisPulseClose") {
        Some(FixtureChannel3Attribute::IrisPulseClose)
    } else if chars_eq(cs, "IrisPulseOpen") {
        Some(FixtureChannel3Attribute::IrisPulseOpen)
    } else {
        None
    }
}

fn exact_attribute_2_exec(cs: &[char]) -> (res: Option<FixtureChannel3Attribute>)
    ensures
        res == exact_attribute_2(cs@),
{
    proof {
        reveal(exact_attribute_2);
    }
    if chars_eq(cs, "IrisRandomPulseClose") {
        Some(FixtureChannel3Attribute::IrisRandomPulseClose)
    } else if chars_eq(cs, "IrisRandomPulseOpen") {
        Some(FixtureChannel3Attribute::IrisRandomPulseOpen)
    } else if chars_eq(cs, "EffectsSync") {
        Some(FixtureChannel3Attribute::EffectsSync)
    } else if chars_eq(cs, "BeamShaper") {
        Some(FixtureChannel3Attribute::BeamShaper)
    } else if chars_eq(cs, "BeamShaperMacro") {
        Some(FixtureChannel3Attribute::BeamShaperMacro)
    } else if chars_eq(cs, "BeamShaperPos") {
        Some(FixtureChannel3Attribute::BeamShaperPos)
    } else if chars_eq(cs, "BeamShaperPosRotate") {
        Some(FixtureChannel3Attribute::BeamShaperPosRotate)
    } else if chars_eq(cs, "Zoom") {
        Some(FixtureChannel3Attribute::Zoom)
    } else if chars_eq(cs, "ZoomModeSpot") {
        Some(FixtureChannel3Attribute::ZoomModeSpot)
    } else if chars_eq(cs, "ZoomModeBeam") {
        Some(FixtureChannel3Attribute::ZoomModeBeam)
    } else if chars_eq(cs, "DigitalZoom") {
        Some(FixtureChannel3Attribute::DigitalZoom)
    } else if chars_eq(cs, "DimmerMode") {
        Some(FixtureChannel3Attribute::DimmerMode)
    } else if chars_eq(cs, "DimmerCurve") {
        Some(FixtureChannel3Attribute::DimmerCurve)
    } else if chars_eq(cs, "BlackoutMode") {
        Some(FixtureChannel3Attribute::BlackoutMode)
    } else if chars_eq(cs, "LEDFrequency") {
        Some(FixtureChannel3Attribute::LedFrequency)
    } else if chars_eq(cs, "LEDZoneMode") {
        Some(FixtureChannel3Attribute::LedZoneMode)
    } else if chars_eq(cs, "PixelMode") {
        Some(FixtureChannel3Attribute::PixelMode)
    } else if chars_eq(cs, "PanMode") {
        Some(FixtureChannel3Attribute::PanMode)
    } else if chars_eq(cs, "TiltMode") {
        Some(FixtureChannel3Attribute::TiltMode)
    } else if chars_eq(cs, "PanTiltMode") {
        Some(FixtureChannel3Attribute::PanTiltMode)
    } else if chars_eq(cs, "PositionModes") {
        Some(FixtureChannel3Attribute::PositionModes)
    } else if chars_eq(cs, "GoboWheelShortcutMode") {
        Some(FixtureChannel3Attribute::GoboWheelShortcutMode)
    } else if chars_eq(cs, "AnimationWheelShortcutMode") {
        Some(FixtureChannel3Attribute::AnimationWheelShortcutMode)
    } else if chars_eq(cs, "ColorWheelShortcutMode") {
        Some(FixtureChannel3Attribute::ColorWheelShortcutMode)
    } else if chars_eq(cs, "CyanMode") {
        Some(FixtureChannel3Attribute::CyanMode)
    } else if chars_eq(cs, "MagentaMode") {
        Some(FixtureChannel3Attribute::MagentaMode)
    } else if chars_eq(cs, "YellowMode") {
        Some(FixtureChannel3Attribute::YellowMode)
    } else if chars_eq(cs, "ColorMixMode") {
        Some(FixtureChannel3Attribute::ColorMixMode)
    } else if chars_eq(cs, "ChromaticMode") {
        Some(FixtureChannel3Attribute::ChromaticMode)
    } else if chars_eq(cs, "ColorCalibrationMode") {
        Some(FixtureChannel3Attribute::ColorCalibrationMode)
    } else if chars_eq(cs, "ColorConsistency") {
        Some(FixtureChannel3Attribute::ColorConsistency)
    } else if chars_eq(cs, "ColorControl") {
        Some(FixtureChannel3Attribute::ColorControl)
    } else if chars_eq(cs, "ColorModelMode") {
        Some(FixtureChannel3Attribute::ColorModelMode)
    } else if chars_eq(cs, "ColorSettingsReset") {
        Some(FixtureChannel3Attribute::ColorSettingsReset)
    } else if chars_eq(cs, "ColorUniformity") {
        Some(FixtureChannel3Attribute::ColorUniformity)
    } else if chars_eq(cs, "CRIMode") {
        Some(FixtureChannel3Attribute::CriMode)
    } else if chars_eq(cs, "CustomColor") {
        Some(FixtureChannel3Attribute::CustomColor)
    } else if chars_eq(cs, "UVStability") {
        Some(FixtureChannel3Attribute::UvStability)
    } else if chars_eq(cs, "WavelengthCorrection") {
        Some(FixtureChannel3Attribute::WavelengthCorrection)
    } else if chars_eq(cs, "WhiteCount") {
        Some(FixtureChannel3Attribute::WhiteCount)
    } else if chars_eq(cs, "StrobeMode") {
        Some(FixtureChannel3Attribute::StrobeMode)
    } else if chars_eq(cs, "ZoomMode") {
        Some(FixtureChannel3Attribute::ZoomMode)
    } else if chars_eq(cs, "FocusMode") {
        Some(FixtureChannel3Attribute::FocusMode)
    } else if chars_eq(cs, "IrisMode") {
        Some(FixtureChannel3Attribute::IrisMode)
    } else if chars_eq(cs, "FollowSpotMode") {
        Some(FixtureChannel3Attribute::FollowSpotMode)
    } else if chars_eq(cs, "BeamEffectIndexRotateMode") {
        Some(FixtureChannel3Attribute::BeamEffectIndexRotateMode)
    } else {
        None
    }
}

fn exact_attribute_3_exec(cs: &[char]) -> (res: Option<FixtureChannel3Attribute>)
    ensures
        res == exact_attribute_3(cs@),
{
    proof {
        reveal(exact_attribute_3);
    }
    if chars_eq(cs, "IntensityMSpeed") {
        Some(FixtureChannel3Attribute::IntensityMSpeed)
    } else if chars_eq(cs, "PositionMSpeed") {
        Some(FixtureChannel3Attribute::PositionMSpeed)
    } else if chars_eq(cs, "ColorMixMSpeed") {
        Some(FixtureChannel3Attribute::ColorMixMSpeed)
    } else if chars_eq(cs, "ColorWheelSelectMSpeed") {
        Some(FixtureChannel3Attribute::ColorWheelSelectMSpeed)
    } else if chars_eq(cs, "IrisMSpeed") {
        Some(FixtureChannel3Attribute::IrisMSpeed)
    } else if chars_eq(cs, "FocusMSpeed") {
        Some(FixtureChannel3Attribute::FocusMSpeed)
    } else if chars_eq(cs, "ZoomMSpeed") {
        Some(FixtureChannel3Attribute::ZoomMSpeed)
    } else if chars_eq(cs, "FrameMSpeed") {
        Some(FixtureChannel3Attribute::FrameMSpeed)
    } else if chars_eq(cs, "GlobalMSpeed") {
        Some(FixtureChannel3Attribute::GlobalMSpeed)
    } else if chars_eq(cs, "ReflectorAdjust") {
        Some(FixtureChannel3Attribute::ReflectorAdjust)
    } else if chars_eq(cs, "FixtureGlobalReset") {
        Some(FixtureChannel3Attribute::FixtureGlobalReset)
    } else if chars_eq(cs, "DimmerReset") {
        Some(FixtureChannel3Attribute::DimmerReset)
    } else if chars_eq(cs, "ShutterReset") {
        Some(FixtureChannel3Attribute::ShutterReset)
    } else if chars_eq(cs, "BeamReset") {
        Some(FixtureChannel3Attribute::BeamReset)
    } else if chars_eq(cs, "ColorMixReset") {
        Some(FixtureChannel3Attribute::ColorMixReset)
    } else if chars_eq(cs, "ColorWheelReset") {
        Some(FixtureChannel3Attribute::ColorWheelReset)
    } else if chars_eq(cs, "FocusReset") {
        Some(FixtureChannel3Attribute::FocusReset)
    } else if chars_eq(cs, "FrameReset") {
        Some(FixtureChannel3Attribute::FrameReset)
    } else if chars_eq(cs, "GoboWheelReset") {
        Some(FixtureChannel3Attribute::GoboWheelReset)
    } else if chars_eq(cs, "IntensityReset") {
        Some(FixtureChannel3Attribute::IntensityReset)
    } else if chars_eq(cs, "IrisReset") {
        Some(FixtureChannel3Attribute::IrisReset)
    } else if chars_eq(cs, "PositionReset") {
        Some(FixtureChannel3Attribute::PositionReset)
    } else if chars_eq(cs, "PanReset") {
        Some(FixtureChannel3Attribute::PanReset)
    } else if chars_eq(cs, "TiltReset") {
        Some(FixtureChannel3Attribute::TiltReset)
    } else if chars_eq(cs, "ZoomReset") {
        Some(FixtureChannel3Attribute::ZoomReset)
    } else if chars_eq(cs, "CTBReset") {
        Some(FixtureChannel3Attribute::CtbReset)
    } else if chars_eq(cs, "CTOReset") {
        Some(FixtureChannel3Attribute::CtoReset)
    } else if chars_eq(cs, "CTCReset") {
        Some(FixtureChannel3Attribute::CtcReset)
    } else if chars_eq(cs, "AnimationSystemReset") {
        Some(FixtureChannel3Attribute::AnimationSystemReset)
    } else if chars_eq(cs, "FixtureCalibrationReset") {
        Some(FixtureChannel3Attribute::FixtureCalibrationReset)
    } else if chars_eq(cs, "Function") {
        Some(FixtureChannel3Attribute::Function)
    } else if chars_eq(cs, "LampControl") {
        Some(FixtureChannel3Attribute::LampControl)
    } else if chars_eq(cs, "DisplayIntensity") {
        Some(FixtureChannel3Attribute::DisplayIntensity)
    } else if chars_eq(cs, "DMXInput") {
        Some(FixtureChannel3Attribute::DmxInput)
    } else if chars_eq(cs, "NoFeature") {
        Some(FixtureChannel3Attribute::NoFeature)
    } else if chars_eq(cs, "LampPowerMode") {
        Some(FixtureChannel3Attribute::LampPowerMode)
    } else if chars_eq(cs, "Fans") {
        Some(FixtureChannel3Attribute::Fans)
    } else if chars_eq(cs, "ShaperRot") {
        Some(FixtureChannel3Attribute::ShaperRot)
    } else if chars_eq(cs, "ShaperMacros") {
        Some(FixtureChannel3Attribute::ShaperMacros)
    } else if chars_eq(cs, "ShaperMacrosSpeed") {
        Some(FixtureChannel3Attribute::ShaperMacrosSpeed)
    } else if chars_eq(cs, "Video") {
        Some(FixtureChannel3Attribute::Video)
    } else if chars_eq(cs, "VideoBlendMode") {
        Some(FixtureChannel3Attribute::VideoBlendMode)
    } else if chars_eq(cs, "InputSource") {
        Some(FixtureChannel3Attribute::InputSource)
    } else if chars_eq(cs, "FieldOfView") {
        Some(FixtureChannel3Attribute::FieldOfView)
    } else {
        None
    }
}

fn exact_attribute_exec(cs: &[char]) -> (res: Option<FixtureChannel3Attribute>)
    ensures
        res == exact_attribute(cs@),
{
    let r = exact_attribute_0_exec(cs);
    if r.is_some() {
        return r;
    }
    let r = exact_attribute_1_exec(cs);
    if r.is_some() {
        return r;
    }
    let r = exact_attribute_2_exec(cs);
    if r.is_some() {
        return r;
    }
    exact_attribute_3_exec(cs)
}

fn numbered_attribute_0_exec(cs: &[char]) -> (res: Option<FixtureChannel3Attribute>)
    ensures
        res == numbered_attribute_0(cs@),
{
    proof {
        reveal(numbered_attribute_0);
    }
    if let Some(n) = extract_n_exec(cs, "Gobo") {
        return Some(FixtureChannel3Attribute::Gobo(n));
    }
    if let Some(n) = extract_n_suffix_exec(cs, "Gobo", "SelectSpin") {
        return Some(FixtureChannel3Attribute::GoboSelectSpin(n));
    }
    if let Some(n) = extract_n_suffix_exec(cs, "Gobo", "SelectShake") {
        return Some(FixtureChannel3Attribute::GoboSelectShake(n));
    }
    if let Some(n) = extract_n_suffix_exec(cs, "Gobo", "SelectEffects") {
        return Some(FixtureChannel3Attribute::GoboSelectEffects(n));
    }
    if let Some(n) = extract_n_suffix_exec(cs, "Gobo", "WheelIndex") {
        return Some(FixtureChannel3Attribute::GoboWheelIndex(n));
    }
    if let Some(n) = extract_n_suffix_exec(cs, "Gobo", "WheelSpin") {
        return Some(FixtureChannel3Attribute::GoboWheelSpin(n));
    }
    if let Some(n) = extract_n_suffix_exec(cs, "Gobo", "WheelShake") {
        return Some(FixtureChannel3Attribute::GoboWheelShake(n));
    }
    if let Some(n) = extract_n_suffix_exec(cs, "Gobo", "WheelRandom") {
        return Some(FixtureChannel3Attribute::GoboWheelRandom(n));
    }
    if let Some(n) = extract_n_suffix_exec(cs, "Gobo", "WheelAudio") {
        return Some(FixtureChannel3Attribute::GoboWheelAudio(n));
    }
    if let Some(n) = extract_n_suffix_exec(cs, "Gobo", "Pos") {
        return Some(FixtureChannel3Attribute::GoboPos(n));
    }
    if let Some(n) = extract_n_suffix_exec(cs, "Gobo", "PosRotate") {
        return Some(FixtureChannel3Attribute::GoboPosRotate(n));
    }
    if let Some(n) = extract_n_suffix_exec(cs, "Gobo", "PosShake") {
        return Some(FixtureChannel3Attribute::GoboPosShake(n));
    }
    if let Some(n) = extract_n_exec(cs, "AnimationWheel") {
        return Some(FixtureChannel3Attribute::AnimationWheel(n));
    }
    if let Some(n) = extract_n_suffix_exec(cs, "AnimationWheel", "Audio") {
        return Some(FixtureChannel3Attribute::AnimationWheelAudio(n));
    }
    if let Some(n) = extract_n_suffix_exec(cs, "AnimationWheel", "Macro") {
        return Some(FixtureChannel3Attribute::AnimationWheelMacro(n));
    }
    if let Some(n) = extract_n_suffix_exec(cs, "AnimationWheel", "Random") {
        return Some(FixtureChannel3Attribute::AnimationWheelRandom(n));
    }
    if let Some(n) = extract_n_suffix_exec(cs, "AnimationWheel", "SelectEffects") {
        return Some(FixtureChannel3Attribute::AnimationWheelSelectEffects(n));
    }
    if let Some(n) = extract_n_suffix_exec(cs, "AnimationWheel", "SelectShake") {
        return Some(FixtureChannel3Attribute::AnimationWheelSelectShake(n));
    }
    if let Some(n) = extract_n_suffix_exec(cs, "AnimationWheel", "SelectSpin") {
        return Some(FixtureChannel3Attribute::AnimationWheelSelectSpin(n));
    }
    if let Some(n) = extract_n_suffix_exec(cs, "AnimationWheel", "Pos") {
        return Some(FixtureChannel3Attribute::AnimationWheelPos(n));
    }
    if let Some(n) = extract_n_suffix_exec(cs, "AnimationWheel", "PosRotate") {
        return Some(FixtureChannel3Attribute::AnimationWheelPosRotate(n));
    }
    if let Some(n) = extract_n_suffix_exec(cs, "AnimationWheel", "PosShake") {
        return Some(FixtureChannel3Attribute::AnimationWheelPosShake(n));
    }
    if let Some(n) = extract_n_exec(cs, "AnimationSystem") {
        return Some(FixtureChannel3Attribute::AnimationSystem(n));
    }
    if let Some(n) = extract_n_suffix_exec(cs, "AnimationSystem", "Ramp") {
        return Some(FixtureChannel3Attribute::AnimationSystemRamp(n));
    }
    if let Some(n) = extract_n_suffix_exec(cs, "AnimationSystem", "Shake") {
        return Some(FixtureChannel3Attribute::AnimationSystemShake(n));
    }
    if let Some(n) = extract_n_suffix_exec(cs, "AnimationSystem", "Audio") {
        return Some(FixtureChannel3Attribute::AnimationSystemAudio(n));
    }
    if let Some(n) = extract_n_suffix_exec(cs, "AnimationSystem", "Random") {
        return Some(FixtureChannel3Attribute::AnimationSystemRandom(n));
    }
    if let Some(n) = extract_n_suffix_exec(cs, "AnimationSystem", "Pos") {
        return Some(FixtureChannel3Attribute::AnimationSystemPos(n));
    }
    if let Some(n) = extract_n_suffix_exec(cs, "AnimationSystem", "PosRotate") {
        return Some(FixtureChannel3Attribute::AnimationSystemPosRotate(n));
    }
    if let Some(n) = extract_n_suffix_exec(cs, "AnimationSystem", "PosShake") {
        return Some(FixtureChannel3Attribute::AnimationSystemPosShake(n));
    }
    if let Some(n) = extract_n_suffix_exec(cs, "AnimationSystem", "PosRandom") {
        return Some(FixtureChannel3Attribute::AnimationSystemPosRandom(n));
    }
    if let Some(n) = extract_n_suffix_exec(cs, "AnimationSystem", "PosAudio") {
        return Some(FixtureChannel3Attribute::AnimationSystemPosAudio(n));
    }
    None
}

fn numbered_attribute_1_exec(cs: &[char]) -> (res: Option<FixtureChannel3Attribute>)
    ensures
        res == numbered_attribute_1(cs@),
{
    proof {
        reveal(numbered_attribute_1);
    }
    if let Some(n) = extract_n_suffix_exec(cs, "AnimationSystem", "Macro") {
        return Some(FixtureChannel3Attribute::AnimationSystemMacro(n));
    }
    if let Some(n) = extract_n_exec(cs, "MediaFolder") {
        return Some(FixtureChannel3Attribute::MediaFolder(n));
    }
    if let Some(n) = extract_n_exec(cs, "MediaContent") {
        return Some(FixtureChannel3Attribute::MediaContent(n));
    }
    if let Some(n) = extract_n_exec(cs, "ModelFolder") {
        return Some(FixtureChannel3Attribute::ModelFolder(n));
    }
    if let Some(n) = extract_n_exec(cs, "ModelContent") {
        return Some(FixtureChannel3Attribute::ModelContent(n));
    }
    if let Some(n) = extract_n_exec(cs, "ColorEffects") {
        return Some(FixtureChannel3Attribute::ColorEffects(n));
    }
    if let Some(n) = extract_n_exec(cs, "Color") {
        return Some(FixtureChannel3Attribute::Color(n));
    }
    if let Some(n) = extract_n_suffix_exec(cs, "Color", "WheelIndex") {
        return Some(FixtureChannel3Attribute::ColorWheelIndex(n));
    }
    if let Some(n) = extract_n_suffix_exec(cs, "Color", "WheelSpin") {
        return Some(FixtureChannel3Attribute::ColorWheelSpin(n));
    }
    if let Some(n) = extract_n_suffix_exec(cs, "Color", "WheelRandom") {
        return Some(FixtureChannel3Attribute::ColorWheelRandom(n));
    }
    if let Some(n) = extract_n_suffix_exec(cs, "Color", "WheelAudio") {
        return Some(FixtureChannel3Attribute::ColorWheelAudio(n));
    }
    if let Some(n) = extract_n_exec(cs, "ColorMacro") {
        return Some(FixtureChannel3Attribute::ColorMacro(n));
    }
    if let Some(n) = extract_n_suffix_exec(cs, "ColorMacro", "Rate") {
        return Some(FixtureChannel3Attribute::ColorMacroRate(n));
    }
    if let Some(n) = extract_n_exec(cs, "Shutter") {
        return Some(FixtureChannel3Attribute::Shutter(n));
    }
    if let Some(n) = extract_n_suffix_exec(cs, "Shutter", "Strobe") {
        return Some(FixtureChannel3Attribute::ShutterStrobe(n));
    }
    if let Some(n) = extract_n_suffix_exec(cs, "Shutter", "StrobePulse") {
        return Some(FixtureChannel3Attribute::ShutterStrobePulse(n));
    }
    if let Some(n) = extract_n_suffix_exec(cs, "Shutter", "StrobePulseClose") {
        return Some(FixtureChannel3Attribute::ShutterStrobePulseClose(n));
    }
    if let Some(n) = extract_n_suffix_exec(cs, "Shutter", "StrobePulseOpen") {
        return Some(FixtureChannel3Attribute::ShutterStrobePulseOpen(n));
    }
    if let Some(n) = extract_n_suffix_exec(cs, "Shutter", "StrobeRandom") {
        return Some(FixtureChannel3Attribute::ShutterStrobeRandom(n));
    }
    if let Some(n) = extract_n_suffix_exec(cs, "Shutter", "StrobeRandomPulse") {
        return Some(FixtureChannel3Attribute::ShutterStrobeRandomPulse(n));
    }
    if let Some(n) = extract_n_suffix_exec(cs, "Shutter", "StrobeRandomPulseClose") {
        return Some(FixtureChannel3Attribute::ShutterStrobeRandomPulseClose(n));
    }
    if let Some(n) = extract_n_suffix_exec(cs, "Shutter", "StrobeRandomPulseOpen") {
        return Some(FixtureChannel3Attribute::ShutterStrobeRandomPulseOpen(n));
    }
    if let Some(n) = extract_n_suffix_exec(cs, "Shutter", "StrobeEffect") {
        return Some(FixtureChannel3Attribute::ShutterStrobeEffect(n));
    }
    if let Some(n) = extract_n_exec(cs, "Frost") {
        return Some(FixtureChannel3Attribute::Frost(n));
    }
    if let Some(n) = extract_n_suffix_exec(cs, "Frost", "PulseOpen") {
        return Some(FixtureChannel3Attribute::FrostPulseOpen(n));
    }
    if let Some(n) = extract_n_suffix_exec(cs, "Frost", "PulseClose") {
        return Some(FixtureChannel3Attribute::FrostPulseClose(n));
    }
    if let Some(n) = extract_n_suffix_exec(cs, "Frost", "Ramp") {
        return Some(FixtureChannel3Attribute::FrostRamp(n));
    }
    if let Some(n) = extract_n_exec(cs, "Prism") {
        return Some(FixtureChannel3Attribute::Prism(n));
    }
    if let Some(n) = extract_n_suffix_exec(cs, "Prism", "SelectSpin") {
        return Some(FixtureChannel3Attribute::PrismSelectSpin(n));
    }
    if let Some(n) = extract_n_suffix_exec(cs, "Prism", "Macro") {
        return Some(FixtureChannel3Attribute::PrismMacro(n));
    }
    if let Some(n) = extract_n_suffix_exec(cs, "Prism", "Pos") {
        return Some(FixtureChannel3Attribute::PrismPos(n));
    }
    if let Some(n) = extract_n_suffix_exec(cs, "Prism", "PosRotate") {
        return Some(FixtureChannel3Attribute::PrismPosRotate(n));
    }
    None
}

fn numbered_attribute_2_exec(cs: &[char]) -> (res: Option<FixtureChannel3Attribute>)
    ensures
        res == numbered_attribute_2(cs@),
{
    proof {
        reveal(numbered_attribute_2);
    }
    if let Some((n, m)) = extract_n_m_exec(cs, "Effects", "Adjust") {
        return Some(FixtureChannel3Attribute::EffectsAdjust(n, m));
    }
    if let Some(n) = extract_n_exec(cs, "Effects") {
        return Some(FixtureChannel3Attribute::Effects(n));
    }
    if let Some(n) = extract_n_suffix_exec(cs, "Effects", "Rate") {
        return Some(FixtureChannel3Attribute::EffectsRate(n));
    }
    if let Some(n) = extract_n_suffix_exec(cs, "Effects", "Fade") {
        return Some(FixtureChannel3Attribute::EffectsFade(n));
    }
    if let Some(n) = extract_n_suffix_exec(cs, "Effects", "Pos") {
        return Some(FixtureChannel3Attribute::EffectsPos(n));
    }
    if let Some(n) = extract_n_suffix_exec(cs, "Effects", "PosRotate") {
        return Some(FixtureChannel3Attribute::EffectsPosRotate(n));
    }
    if let Some(n) = extract_n_exec(cs, "Focus") {
        return Some(FixtureChannel3Attribute::Focus(n));
    }
    if let Some(n) = extract_n_suffix_exec(cs, "Focus", "Adjust") {
        return Some(FixtureChannel3Attribute::FocusAdjust(n));
    }
    if let Some(n) = extract_n_suffix_exec(cs, "Focus", "Distance") {
        return Some(FixtureChannel3Attribute::FocusDistance(n));
    }
    if let Some(n) = extract_n_exec(cs, "Control") {
        return Some(FixtureChannel3Attribute::Control(n));
    }
    if let Some(n) = extract_n_suffix_exec(cs, "Gobo", "WheelMode") {
        return Some(FixtureChannel3Attribute::GoboWheelMode(n));
    }
    if let Some(n) = extract_n_suffix_exec(cs, "AnimationWheel", "Mode") {
        return Some(FixtureChannel3Attribute::AnimationWheelMode(n));
    }
    if let Some(n) = extract_n_suffix_exec(cs, "Color", "Mode") {
        return Some(FixtureChannel3Attribute::ColorMode(n));
    }
    if let Some(n) = extract_n_suffix_exec(cs, "Fan", "Mode") {
        return Some(FixtureChannel3Attribute::FanMode(n));
    }
    if let Some(n) = extract_n_suffix_exec(cs, "GoboWheel", "MSpeed") {
        return Some(FixtureChannel3Attribute::GoboWheelMSpeed(n));
    }
    if let Some(n) = extract_n_suffix_exec(cs, "Prism", "MSpeed") {
        return Some(FixtureChannel3Attribute::PrismMSpeed(n));
    }
    if let Some(n) = extract_n_suffix_exec(cs, "Frost", "MSpeed") {
        return Some(FixtureChannel3Attribute::FrostMSpeed(n));
    }
    if let Some(n) = extract_n_exec(cs, "Blower") {
        return Some(FixtureChannel3Attribute::Blower(n));
    }
    if let Some(n) = extract_n_exec(cs, "Fan") {
        return Some(FixtureChannel3Attribute::Fan(n));
    }
    if let Some(n) = extract_n_exec(cs, "Fog") {
        return Some(FixtureChannel3Attribute::Fog(n));
    }
    if let Some(n) = extract_n_exec(cs, "Haze") {
        return Some(FixtureChannel3Attribute::Haze(n));
    }
    if let Some(n) = extract_n_suffix_exec(cs, "Blade", "A") {
        return Some(FixtureChannel3Attribute::BladeA(n));
    }
    if let Some(n) = extract_n_suffix_exec(cs, "Blade", "B") {
        return Some(FixtureChannel3Attribute::BladeB(n));
    }
    if let Some(n) = extract_n_suffix_exec(cs, "Blade", "Rot") {
        return Some(FixtureChannel3Attribute::BladeRot(n));
    }
    if let Some(n) = extract_n_suffix_exec(cs, "BladeSoft", "A") {
        return Some(FixtureChannel3Attribute::BladeSoftA(n));
    }
    if let Some(n) = extract_n_suffix_exec(cs, "BladeSoft", "B") {
        return Some(FixtureChannel3Attribute::BladeSoftB(n));
    }
    if let Some(n) = extract_n_suffix_exec(cs, "KeyStone", "A") {
        return Some(FixtureChannel3Attribute::KeyStoneA(n));
    }
    if let Some(n) = extract_n_suffix_exec(cs, "KeyStone", "B") {
        return Some(FixtureChannel3Attribute::KeyStoneB(n));
    }
    if let Some(n) = extract_n_suffix_exec(cs, "VideoEffect", "Type") {
        return Some(FixtureChannel3Attribute::VideoEffectType(n));
    }
    if let Some((n, m)) = extract_n_m_exec(cs, "VideoEffect", "Parameter") {
        return Some(FixtureChannel3Attribute::VideoEffectParameter(n, m));
    }
    if let Some(n) = extract_n_exec(cs, "VideoCamera") {
        return Some(FixtureChannel3Attribute::VideoCamera(n));
    }
    if let Some(n) = extract_n_exec(cs, "VideoSoundVolume") {
        return Some(FixtureChannel3Attribute::VideoSoundVolume(n));
    }
    None
}

fn numbered_attribute_exec(cs: &[char]) -> (res: Option<FixtureChannel3Attribute>)
    ensures
        res == numbered_attribute(cs@),
{
    let r = numbered_attribute_0_exec(cs);
    if r.is_some() {
        return r;
    }
    let r = numbered_attribute_1_exec(cs);
    if r.is_some() {
        return r;
    }
    numbered_attribute_2_exec(cs)
}
/// What reading an attribute from its GDTF name `s` gives: a named attribute
/// when `s` is exactly its name, else a numbered attribute by the first
/// numbering rule that applies, else `None` (a custom attribute named `s`).
pub open spec fn attribute_from_text(s: Seq<char>) -> Option<FixtureChannel3Attribute> {
    if exact_attribute(s) is Some {
        exact_attribute(s)
    } else {
        numbered_attribute(s)
    }
}

/// The attribute named by the string `s`: a standard or numbered attribute
/// when `s` names one, else a custom attribute holding `s`.
pub open spec fn attribute_of_string(s: String) -> FixtureChannel3Attribute {
    match attribute_from_text(s@) {
        Some(a) => a,
        None => FixtureChannel3Attribute::Custom(CustomName(s)),
    }
}

impl FixtureChannel3Attribute {
    /// Reads an attribute from its GDTF name held in a string; as
    /// [`FixtureChannel3Attribute::from_str`], a custom attribute keeps a copy
    /// of the string.
    pub fn from_string(s: &String) -> (res: FixtureChannel3Attribute)
        ensures
            res == attribute_of_string(*s),
    {
        let cs = chars_of(s.as_str());
        if let Some(a) = exact_attribute_exec(cs.as_slice()) {
            return a;
        }
        if let Some(a) = numbered_attribute_exec(cs.as_slice()) {
            return a;
        }
        FixtureChannel3Attribute::Custom(CustomName(s.clone()))
    }

    /// Reads an attribute from its GDTF name. Names that are neither a
    /// standard attribute nor a numbered one become custom attributes, so
    /// reading never fails.
    pub fn from_str(s: &str) -> (res: Result<FixtureChannel3Attribute, ()>)
        ensures
            res is Ok,
            match attribute_from_text(s@) {
                Some(a) => res == Ok::<FixtureChannel3Attribute, ()>(a),
                None => res matches Ok(FixtureChannel3Attribute::Custom(name)) && name@ == s@,
            },
    {
        let cs = chars_of(s);
        if let Some(a) = exact_attribute_exec(cs.as_slice()) {
            return Ok(a);
        }
        if let Some(a) = numbered_attribute_exec(cs.as_slice()) {
            return Ok(a);
        }
        Ok(FixtureChannel3Attribute::Custom(CustomName::new(s.to_owned())))
    }
}

/// Law: a name that is neither a standard nor a numbered attribute reads as a
/// custom attribute, and that attribute's text is the name again.
#[verifier::spinoff_prover]
pub proof fn law_custom_attribute_text_round_trip(s: String)
    requires
        attribute_from_text(s@) is None,
    ensures
        attribute_of_string(s) is Custom,
        attribute_text(attribute_of_string(s)) == s@,
{
    custom_of_unnamed(s, attribute_from_text(s@));
}

proof fn custom_of_unnamed(s: String, named: Option<FixtureChannel3Attribute>)
    requires
        named is None,
        named == attribute_from_text(s@),
    ensures
        attribute_of_string(s) == FixtureChannel3Attribute::Custom(CustomName(s)),
{
}

/// Law: incrementing an attribute's number keeps the feature type it
/// belongs to.
pub proof fn law_increment_keeps_feature_type(a: FixtureChannel3Attribute)
    ensures
        attribute_increment(a) matches Some(b) ==> attribute_feature_type(b) == attribute_feature_type(a),
{
}

/// The attributes whose standard name is read differently from how it is
/// written.
pub open spec fn name_read_differently(a: FixtureChannel3Attribute) -> bool {
    a is LedFrequency || a is LedZoneMode || a is CriMode || a is UvStability
}

/// Law: a standard (unnumbered) attribute name reads as the attribute, and
/// that attribute is written as the same name again, except for the
/// attributes whose name is read differently from how it is written.
#[verifier::spinoff_prover]
#[verifier::rlimit(50)]
pub proof fn law_standard_name_round_trip(s: Seq<char>)
    requires
        exact_attribute(s) is Some,
        !name_read_differently(exact_attribute(s)->Some_0),
    ensures
        attribute_from_text(s) == exact_attribute(s),
        attribute_text(exact_attribute(s)->Some_0) == s,
{
    reveal(exact_attribute_0);
    reveal(exact_attribute_1);
    reveal(exact_attribute_2);
    reveal(exact_attribute_3);
}

} // verus!
