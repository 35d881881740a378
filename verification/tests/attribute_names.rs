//! Reading attributes from their GDTF names.

use demex_core::attribute::FixtureChannel3Attribute;

#[test]
fn custom() {
    let attribute = FixtureChannel3Attribute::from_str("CustomAttribute").unwrap();
    let found = attribute.to_string();
    assert_eq!(found.as_str(), "CustomAttribute");
}

#[test]
fn dimmer() {
    assert_eq!(FixtureChannel3Attribute::from_str("Dimmer").unwrap(), FixtureChannel3Attribute::Dimmer);
}

#[test]
fn pan() {
    assert_eq!(FixtureChannel3Attribute::from_str("Pan").unwrap(), FixtureChannel3Attribute::Pan);
}

#[test]
fn tilt() {
    assert_eq!(FixtureChannel3Attribute::from_str("Tilt").unwrap(), FixtureChannel3Attribute::Tilt);
}

#[test]
fn pan_rotate() {
    assert_eq!(FixtureChannel3Attribute::from_str("PanRotate").unwrap(), FixtureChannel3Attribute::PanRotate);
}

#[test]
fn tilt_rotate() {
    assert_eq!(FixtureChannel3Attribute::from_str("TiltRotate").unwrap(), FixtureChannel3Attribute::TiltRotate);
}

#[test]
fn position_effect() {
    assert_eq!(FixtureChannel3Attribute::from_str("PositionEffect").unwrap(), FixtureChannel3Attribute::PositionEffect);
}

#[test]
fn position_effect_rate() {
    assert_eq!(FixtureChannel3Attribute::from_str("PositionEffectRate").unwrap(), FixtureChannel3Attribute::PositionEffectRate);
}

#[test]
fn position_effect_fade() {
    assert_eq!(FixtureChannel3Attribute::from_str("PositionEffectFade").unwrap(), FixtureChannel3Attribute::PositionEffectFade);
}

#[test]
fn xyz_x() {
    assert_eq!(FixtureChannel3Attribute::from_str("XYZ_X").unwrap(), FixtureChannel3Attribute::XyzX);
}

#[test]
fn xyz_y() {
    assert_eq!(FixtureChannel3Attribute::from_str("XYZ_Y").unwrap(), FixtureChannel3Attribute::XyzY);
}

#[test]
fn xyz_z() {
    assert_eq!(FixtureChannel3Attribute::from_str("XYZ_Z").unwrap(), FixtureChannel3Attribute::XyzZ);
}

#[test]
fn rot_x() {
    assert_eq!(FixtureChannel3Attribute::from_str("Rot_X").unwrap(), FixtureChannel3Attribute::RotX);
}

#[test]
fn rot_y() {
    assert_eq!(FixtureChannel3Attribute::from_str("Rot_Y").unwrap(), FixtureChannel3Attribute::RotY);
}

#[test]
fn rot_z() {
    assert_eq!(FixtureChannel3Attribute::from_str("Rot_Z").unwrap(), FixtureChannel3Attribute::RotZ);
}

#[test]
fn scale_x() {
    assert_eq!(FixtureChannel3Attribute::from_str("Scale_X").unwrap(), FixtureChannel3Attribute::ScaleX);
}

#[test]
fn scale_y() {
    assert_eq!(FixtureChannel3Attribute::from_str("Scale_Y").unwrap(), FixtureChannel3Attribute::ScaleY);
}

#[test]
fn scale_z() {
    assert_eq!(FixtureChannel3Attribute::from_str("Scale_Z").unwrap(), FixtureChannel3Attribute::ScaleZ);
}

#[test]
fn scale_xyz() {
    assert_eq!(FixtureChannel3Attribute::from_str("Scale_XYZ").unwrap(), FixtureChannel3Attribute::ScaleXYZ);
}

#[test]
fn gobo_n() {
    assert_eq!(FixtureChannel3Attribute::from_str("Gobo1").unwrap(), FixtureChannel3Attribute::Gobo(1));
}

#[test]
fn gobo_n_select_spin() {
    assert_eq!(FixtureChannel3Attribute::from_str("Gobo1SelectSpin").unwrap(), FixtureChannel3Attribute::GoboSelectSpin(1));
}

#[test]
fn gobo_n_select_shake() {
    assert_eq!(FixtureChannel3Attribute::from_str("Gobo1SelectShake").unwrap(), FixtureChannel3Attribute::GoboSelectShake(1));
}

#[test]
fn gobo_n_select_effects() {
    assert_eq!(FixtureChannel3Attribute::from_str("Gobo1SelectEffects").unwrap(), FixtureChannel3Attribute::GoboSelectEffects(1));
}

#[test]
fn gobo_n_wheel_index() {
    assert_eq!(FixtureChannel3Attribute::from_str("Gobo1WheelIndex").unwrap(), FixtureChannel3Attribute::GoboWheelIndex(1));
}

#[test]
fn gobo_n_wheel_spin() {
    assert_eq!(FixtureChannel3Attribute::from_str("Gobo1WheelSpin").unwrap(), FixtureChannel3Attribute::GoboWheelSpin(1));
}

#[test]
fn gobo_n_wheel_shake() {
    assert_eq!(FixtureChannel3Attribute::from_str("Gobo1WheelShake").unwrap(), FixtureChannel3Attribute::GoboWheelShake(1));
}

#[test]
fn gobo_n_wheel_random() {
    assert_eq!(FixtureChannel3Attribute::from_str("Gobo1WheelRandom").unwrap(), FixtureChannel3Attribute::GoboWheelRandom(1));
}

#[test]
fn gobo_n_wheel_audio() {
    assert_eq!(FixtureChannel3Attribute::from_str("Gobo1WheelAudio").unwrap(), FixtureChannel3Attribute::GoboWheelAudio(1));
}

#[test]
fn gobo_n_pos() {
    assert_eq!(FixtureChannel3Attribute::from_str("Gobo1Pos").unwrap(), FixtureChannel3Attribute::GoboPos(1));
}

#[test]
fn gobo_n_pos_rotate() {
    assert_eq!(FixtureChannel3Attribute::from_str("Gobo1PosRotate").unwrap(), FixtureChannel3Attribute::GoboPosRotate(1));
}

#[test]
fn gobo_n_pos_shake() {
    assert_eq!(FixtureChannel3Attribute::from_str("Gobo1PosShake").unwrap(), FixtureChannel3Attribute::GoboPosShake(1));
}

#[test]
fn animation_wheel_n() {
    assert_eq!(FixtureChannel3Attribute::from_str("AnimationWheel1").unwrap(), FixtureChannel3Attribute::AnimationWheel(1));
}

#[test]
fn animation_wheel_n_audio() {
    assert_eq!(FixtureChannel3Attribute::from_str("AnimationWheel1Audio").unwrap(), FixtureChannel3Attribute::AnimationWheelAudio(1));
}

#[test]
fn animation_wheel_n_macro() {
    assert_eq!(FixtureChannel3Attribute::from_str("AnimationWheel1Macro").unwrap(), FixtureChannel3Attribute::AnimationWheelMacro(1));
}

#[test]
fn animation_wheel_n_random() {
    assert_eq!(FixtureChannel3Attribute::from_str("AnimationWheel1Random").unwrap(), FixtureChannel3Attribute::AnimationWheelRandom(1));
}

#[test]
fn animation_wheel_n_select_effects() {
    assert_eq!(FixtureChannel3Attribute::from_str("AnimationWheel1SelectEffects").unwrap(), FixtureChannel3Attribute::AnimationWheelSelectEffects(1));
}

#[test]
fn animation_wheel_n_select_shake() {
    assert_eq!(FixtureChannel3Attribute::from_str("AnimationWheel1SelectShake").unwrap(), FixtureChannel3Attribute::AnimationWheelSelectShake(1));
}

#[test]
fn animation_wheel_n_select_spin() {
    assert_eq!(FixtureChannel3Attribute::from_str("AnimationWheel1SelectSpin").unwrap(), FixtureChannel3Attribute::AnimationWheelSelectSpin(1));
}

#[test]
fn animation_wheel_n_pos() {
    assert_eq!(FixtureChannel3Attribute::from_str("AnimationWheel1Pos").unwrap(), FixtureChannel3Attribute::AnimationWheelPos(1));
}

#[test]
fn animation_wheel_n_pos_rotate() {
    assert_eq!(FixtureChannel3Attribute::from_str("AnimationWheel1PosRotate").unwrap(), FixtureChannel3Attribute::AnimationWheelPosRotate(1));
}

#[test]
fn animation_wheel_n_pos_shake() {
    assert_eq!(FixtureChannel3Attribute::from_str("AnimationWheel1PosShake").unwrap(), FixtureChannel3Attribute::AnimationWheelPosShake(1));
}

#[test]
fn animation_system_n() {
    assert_eq!(FixtureChannel3Attribute::from_str("AnimationSystem1").unwrap(), FixtureChannel3Attribute::AnimationSystem(1));
}

#[test]
fn animation_system_n_ramp() {
    assert_eq!(FixtureChannel3Attribute::from_str("AnimationSystem1Ramp").unwrap(), FixtureChannel3Attribute::AnimationSystemRamp(1));
}

#[test]
fn animation_system_n_shake() {
    assert_eq!(FixtureChannel3Attribute::from_str("AnimationSystem1Shake").unwrap(), FixtureChannel3Attribute::AnimationSystemShake(1));
}

#[test]
fn animation_system_n_audio() {
    assert_eq!(FixtureChannel3Attribute::from_str("AnimationSystem1Audio").unwrap(), FixtureChannel3Attribute::AnimationSystemAudio(1));
}

#[test]
fn animation_system_n_random() {
    assert_eq!(FixtureChannel3Attribute::from_str("AnimationSystem1Random").unwrap(), FixtureChannel3Attribute::AnimationSystemRandom(1));
}

#[test]
fn animation_system_n_pos() {
    assert_eq!(FixtureChannel3Attribute::from_str("AnimationSystem1Pos").unwrap(), FixtureChannel3Attribute::AnimationSystemPos(1));
}

#[test]
fn animation_system_n_pos_rotate() {
    assert_eq!(FixtureChannel3Attribute::from_str("AnimationSystem1PosRotate").unwrap(), FixtureChannel3Attribute::AnimationSystemPosRotate(1));
}

#[test]
fn animation_system_n_pos_shake() {
    assert_eq!(FixtureChannel3Attribute::from_str("AnimationSystem1PosShake").unwrap(), FixtureChannel3Attribute::AnimationSystemPosShake(1));
}

#[test]
fn animation_system_n_pos_random() {
    assert_eq!(FixtureChannel3Attribute::from_str("AnimationSystem1PosRandom").unwrap(), FixtureChannel3Attribute::AnimationSystemPosRandom(1));
}

#[test]
fn animation_system_n_pos_audio() {
    assert_eq!(FixtureChannel3Attribute::from_str("AnimationSystem1PosAudio").unwrap(), FixtureChannel3Attribute::AnimationSystemPosAudio(1));
}

#[test]
fn animation_system_n_macro() {
    assert_eq!(FixtureChannel3Attribute::from_str("AnimationSystem1Macro").unwrap(), FixtureChannel3Attribute::AnimationSystemMacro(1));
}

#[test]
fn media_folder_n() {
    assert_eq!(FixtureChannel3Attribute::from_str("MediaFolder1").unwrap(), FixtureChannel3Attribute::MediaFolder(1));
}

#[test]
fn media_content_n() {
    assert_eq!(FixtureChannel3Attribute::from_str("MediaContent1").unwrap(), FixtureChannel3Attribute::MediaContent(1));
}

#[test]
fn model_folder_n() {
    assert_eq!(FixtureChannel3Attribute::from_str("ModelFolder1").unwrap(), FixtureChannel3Attribute::ModelFolder(1));
}

#[test]
fn model_content_n() {
    assert_eq!(FixtureChannel3Attribute::from_str("ModelContent1").unwrap(), FixtureChannel3Attribute::ModelContent(1));
}

#[test]
fn play_mode() {
    assert_eq!(FixtureChannel3Attribute::from_str("PlayMode").unwrap(), FixtureChannel3Attribute::PlayMode);
}

#[test]
fn play_begin() {
    assert_eq!(FixtureChannel3Attribute::from_str("PlayBegin").unwrap(), FixtureChannel3Attribute::PlayBegin);
}

#[test]
fn play_end() {
    assert_eq!(FixtureChannel3Attribute::from_str("PlayEnd").unwrap(), FixtureChannel3Attribute::PlayEnd);
}

#[test]
fn play_speed() {
    assert_eq!(FixtureChannel3Attribute::from_str("PlaySpeed").unwrap(), FixtureChannel3Attribute::PlaySpeed);
}

#[test]
fn color_effects_n() {
    assert_eq!(FixtureChannel3Attribute::from_str("ColorEffects1").unwrap(), FixtureChannel3Attribute::ColorEffects(1));
}

#[test]
fn color_n() {
    assert_eq!(FixtureChannel3Attribute::from_str("Color1").unwrap(), FixtureChannel3Attribute::Color(1));
}

#[test]
fn color_n_wheel_index() {
    assert_eq!(FixtureChannel3Attribute::from_str("Color1WheelIndex").unwrap(), FixtureChannel3Attribute::ColorWheelIndex(1));
}

#[test]
fn color_n_wheel_spin() {
    assert_eq!(FixtureChannel3Attribute::from_str("Color1WheelSpin").unwrap(), FixtureChannel3Attribute::ColorWheelSpin(1));
}

#[test]
fn color_n_wheel_random() {
    assert_eq!(FixtureChannel3Attribute::from_str("Color1WheelRandom").unwrap(), FixtureChannel3Attribute::ColorWheelRandom(1));
}

#[test]
fn color_n_wheel_audio() {
    assert_eq!(FixtureChannel3Attribute::from_str("Color1WheelAudio").unwrap(), FixtureChannel3Attribute::ColorWheelAudio(1));
}

#[test]
fn color_add_r() {
    assert_eq!(FixtureChannel3Attribute::from_str("ColorAdd_R").unwrap(), FixtureChannel3Attribute::ColorAddR);
}

#[test]
fn color_add_g() {
    assert_eq!(FixtureChannel3Attribute::from_str("ColorAdd_G").unwrap(), FixtureChannel3Attribute::ColorAddG);
}

#[test]
fn color_add_b() {
    assert_eq!(FixtureChannel3Attribute::from_str("ColorAdd_B").unwrap(), FixtureChannel3Attribute::ColorAddB);
}

#[test]
fn color_add_c() {
    assert_eq!(FixtureChannel3Attribute::from_str("ColorAdd_C").unwrap(), FixtureChannel3Attribute::ColorAddC);
}

#[test]
fn color_add_m() {
    assert_eq!(FixtureChannel3Attribute::from_str("ColorAdd_M").unwrap(), FixtureChannel3Attribute::ColorAddM);
}

#[test]
fn color_add_y() {
    assert_eq!(FixtureChannel3Attribute::from_str("ColorAdd_Y").unwrap(), FixtureChannel3Attribute::ColorAddY);
}

#[test]
fn color_add_ry() {
    assert_eq!(FixtureChannel3Attribute::from_str("ColorAdd_RY").unwrap(), FixtureChannel3Attribute::ColorAddRY);
}

#[test]
fn color_add_gy() {
    assert_eq!(FixtureChannel3Attribute::from_str("ColorAdd_GY").unwrap(), FixtureChannel3Attribute::ColorAddGY);
}

#[test]
fn color_add_gc() {
    assert_eq!(FixtureChannel3Attribute::from_str("ColorAdd_GC").unwrap(), FixtureChannel3Attribute::ColorAddGC);
}

#[test]
fn color_add_bc() {
    assert_eq!(FixtureChannel3Attribute::from_str("ColorAdd_BC").unwrap(), FixtureChannel3Attribute::ColorAddBC);
}

#[test]
fn color_add_bm() {
    assert_eq!(FixtureChannel3Attribute::from_str("ColorAdd_BM").unwrap(), FixtureChannel3Attribute::ColorAddBM);
}

#[test]
fn color_add_rm() {
    assert_eq!(FixtureChannel3Attribute::from_str("ColorAdd_RM").unwrap(), FixtureChannel3Attribute::ColorAddRM);
}

#[test]
fn color_add_w() {
    assert_eq!(FixtureChannel3Attribute::from_str("ColorAdd_W").unwrap(), FixtureChannel3Attribute::ColorAddW);
}

#[test]
fn color_add_ww() {
    assert_eq!(FixtureChannel3Attribute::from_str("ColorAdd_WW").unwrap(), FixtureChannel3Attribute::ColorAddWW);
}

#[test]
fn color_add_cw() {
    assert_eq!(FixtureChannel3Attribute::from_str("ColorAdd_CW").unwrap(), FixtureChannel3Attribute::ColorAddCW);
}

#[test]
fn color_add_uv() {
    assert_eq!(FixtureChannel3Attribute::from_str("ColorAdd_UV").unwrap(), FixtureChannel3Attribute::ColorAddUV);
}

#[test]
fn color_sub_r() {
    assert_eq!(FixtureChannel3Attribute::from_str("ColorSub_R").unwrap(), FixtureChannel3Attribute::ColorSubR);
}

#[test]
fn color_sub_g() {
    assert_eq!(FixtureChannel3Attribute::from_str("ColorSub_G").unwrap(), FixtureChannel3Attribute::ColorSubG);
}

#[test]
fn color_sub_b() {
    assert_eq!(FixtureChannel3Attribute::from_str("ColorSub_B").unwrap(), FixtureChannel3Attribute::ColorSubB);
}

#[test]
fn color_sub_c() {
    assert_eq!(FixtureChannel3Attribute::from_str("ColorSub_C").unwrap(), FixtureChannel3Attribute::ColorSubC);
}

#[test]
fn color_sub_m() {
    assert_eq!(FixtureChannel3Attribute::from_str("ColorSub_M").unwrap(), FixtureChannel3Attribute::ColorSubM);
}

#[test]
fn color_sub_y() {
    assert_eq!(FixtureChannel3Attribute::from_str("ColorSub_Y").unwrap(), FixtureChannel3Attribute::ColorSubY);
}

#[test]
fn color_macro_n() {
    assert_eq!(FixtureChannel3Attribute::from_str("ColorMacro1").unwrap(), FixtureChannel3Attribute::ColorMacro(1));
}

#[test]
fn color_macro_n_rate() {
    assert_eq!(FixtureChannel3Attribute::from_str("ColorMacro1Rate").unwrap(), FixtureChannel3Attribute::ColorMacroRate(1));
}

#[test]
fn cto() {
    assert_eq!(FixtureChannel3Attribute::from_str("CTO").unwrap(), FixtureChannel3Attribute::Cto);
}

#[test]
fn ctc() {
    assert_eq!(FixtureChannel3Attribute::from_str("CTC").unwrap(), FixtureChannel3Attribute::Ctc);
}

#[test]
fn ctb() {
    assert_eq!(FixtureChannel3Attribute::from_str("CTB").unwrap(), FixtureChannel3Attribute::Ctb);
}

#[test]
fn tint() {
    assert_eq!(FixtureChannel3Attribute::from_str("Tint").unwrap(), FixtureChannel3Attribute::Tint);
}

#[test]
fn hsb_hue() {
    assert_eq!(FixtureChannel3Attribute::from_str("HSB_Hue").unwrap(), FixtureChannel3Attribute::HsbHue);
}

#[test]
fn hsb_saturation() {
    assert_eq!(FixtureChannel3Attribute::from_str("HSB_Saturation").unwrap(), FixtureChannel3Attribute::HsbSaturation);
}

#[test]
fn hsb_brightness() {
    assert_eq!(FixtureChannel3Attribute::from_str("HSB_Brightness").unwrap(), FixtureChannel3Attribute::HsbBrightness);
}

#[test]
fn hsb_quality() {
    assert_eq!(FixtureChannel3Attribute::from_str("HSB_Quality").unwrap(), FixtureChannel3Attribute::HsbQuality);
}

#[test]
fn cie_x() {
    assert_eq!(FixtureChannel3Attribute::from_str("CIE_X").unwrap(), FixtureChannel3Attribute::CieX);
}

#[test]
fn cie_y() {
    assert_eq!(FixtureChannel3Attribute::from_str("CIE_Y").unwrap(), FixtureChannel3Attribute::CieY);
}

#[test]
fn cie_brightness() {
    assert_eq!(FixtureChannel3Attribute::from_str("CIE_Brightness").unwrap(), FixtureChannel3Attribute::CieBrightness);
}

#[test]
fn color_rgb_red() {
    assert_eq!(FixtureChannel3Attribute::from_str("ColorRGB_Red").unwrap(), FixtureChannel3Attribute::ColorRgbRed);
}

#[test]
fn color_rgb_green() {
    assert_eq!(FixtureChannel3Attribute::from_str("ColorRGB_Green").unwrap(), FixtureChannel3Attribute::ColorRgbGreen);
}

#[test]
fn color_rgb_blue() {
    assert_eq!(FixtureChannel3Attribute::from_str("ColorRGB_Blue").unwrap(), FixtureChannel3Attribute::ColorRgbBlue);
}

#[test]
fn color_rgb_cyan() {
    assert_eq!(FixtureChannel3Attribute::from_str("ColorRGB_Cyan").unwrap(), FixtureChannel3Attribute::ColorRgbCyan);
}

#[test]
fn color_rgb_magenta() {
    assert_eq!(FixtureChannel3Attribute::from_str("ColorRGB_Magenta").unwrap(), FixtureChannel3Attribute::ColorRgbMagenta);
}

#[test]
fn color_rgb_yellow() {
    assert_eq!(FixtureChannel3Attribute::from_str("ColorRGB_Yellow").unwrap(), FixtureChannel3Attribute::ColorRgbYellow);
}

#[test]
fn color_rgb_quality() {
    assert_eq!(FixtureChannel3Attribute::from_str("ColorRGB_Quality").unwrap(), FixtureChannel3Attribute::ColorRgbQuality);
}

#[test]
fn video_boost_r() {
    assert_eq!(FixtureChannel3Attribute::from_str("VideoBoost_R").unwrap(), FixtureChannel3Attribute::VideoBoostR);
}

#[test]
fn video_boost_g() {
    assert_eq!(FixtureChannel3Attribute::from_str("VideoBoost_G").unwrap(), FixtureChannel3Attribute::VideoBoostG);
}

#[test]
fn video_boost_b() {
    assert_eq!(FixtureChannel3Attribute::from_str("VideoBoost_B").unwrap(), FixtureChannel3Attribute::VideoBoostB);
}

#[test]
fn video_hue_shift() {
    assert_eq!(FixtureChannel3Attribute::from_str("VideoHueShift").unwrap(), FixtureChannel3Attribute::VideoHueShift);
}

#[test]
fn video_saturation() {
    assert_eq!(FixtureChannel3Attribute::from_str("VideoSaturation").unwrap(), FixtureChannel3Attribute::VideoSaturation);
}

#[test]
fn video_brightness() {
    assert_eq!(FixtureChannel3Attribute::from_str("VideoBrightness").unwrap(), FixtureChannel3Attribute::VideoBrightness);
}

#[test]
fn video_contrast() {
    assert_eq!(FixtureChannel3Attribute::from_str("VideoContrast").unwrap(), FixtureChannel3Attribute::VideoContrast);
}

#[test]
fn video_key_color_r() {
    assert_eq!(FixtureChannel3Attribute::from_str("VideoKeyColor_R").unwrap(), FixtureChannel3Attribute::VideoKeyColorR);
}

#[test]
fn video_key_color_g() {
    assert_eq!(FixtureChannel3Attribute::from_str("VideoKeyColor_G").unwrap(), FixtureChannel3Attribute::VideoKeyColorG);
}

#[test]
fn video_key_color_b() {
    assert_eq!(FixtureChannel3Attribute::from_str("VideoKeyColor_B").unwrap(), FixtureChannel3Attribute::VideoKeyColorB);
}

#[test]
fn video_key_intensity() {
    assert_eq!(FixtureChannel3Attribute::from_str("VideoKeyIntensity").unwrap(), FixtureChannel3Attribute::VideoKeyIntensity);
}

#[test]
fn video_key_tolerance() {
    assert_eq!(FixtureChannel3Attribute::from_str("VideoKeyTolerance").unwrap(), FixtureChannel3Attribute::VideoKeyTolerance);
}

#[test]
fn strobe_duration() {
    assert_eq!(FixtureChannel3Attribute::from_str("StrobeDuration").unwrap(), FixtureChannel3Attribute::StrobeDuration);
}

#[test]
fn strobe_rate() {
    assert_eq!(FixtureChannel3Attribute::from_str("StrobeRate").unwrap(), FixtureChannel3Attribute::StrobeRate);
}

#[test]
fn strobe_frequency() {
    assert_eq!(FixtureChannel3Attribute::from_str("StrobeFrequency").unwrap(), FixtureChannel3Attribute::StrobeFrequency);
}

#[test]
fn strobe_mode_shutter() {
    assert_eq!(FixtureChannel3Attribute::from_str("StrobeModeShutter").unwrap(), FixtureChannel3Attribute::StrobeModeShutter);
}

#[test]
fn strobe_mode_strobe() {
    assert_eq!(FixtureChannel3Attribute::from_str("StrobeModeStrobe").unwrap(), FixtureChannel3Attribute::StrobeModeStrobe);
}

#[test]
fn strobe_mode_pulse() {
    assert_eq!(FixtureChannel3Attribute::from_str("StrobeModePulse").unwrap(), FixtureChannel3Attribute::StrobeModePulse);
}

#[test]
fn strobe_mode_pulse_open() {
    assert_eq!(FixtureChannel3Attribute::from_str("StrobeModePulseOpen").unwrap(), FixtureChannel3Attribute::StrobeModePulseOpen);
}

#[test]
fn strobe_mode_pulse_close() {
    assert_eq!(FixtureChannel3Attribute::from_str("StrobeModePulseClose").unwrap(), FixtureChannel3Attribute::StrobeModePulseClose);
}

#[test]
fn strobe_mode_random() {
    assert_eq!(FixtureChannel3Attribute::from_str("StrobeModeRandom").unwrap(), FixtureChannel3Attribute::StrobeModeRandom);
}

#[test]
fn strobe_mode_random_pulse() {
    assert_eq!(FixtureChannel3Attribute::from_str("StrobeModeRandomPulse").unwrap(), FixtureChannel3Attribute::StrobeModeRandomPulse);
}

#[test]
fn strobe_mode_random_pulse_open() {
    assert_eq!(FixtureChannel3Attribute::from_str("StrobeModeRandomPulseOpen").unwrap(), FixtureChannel3Attribute::StrobeModeRandomPulseOpen);
}

#[test]
fn strobe_mode_random_pulse_close() {
    assert_eq!(FixtureChannel3Attribute::from_str("StrobeModeRandomPulseClose").unwrap(), FixtureChannel3Attribute::StrobeModeRandomPulseClose);
}

#[test]
fn strobe_mode_effect() {
    assert_eq!(FixtureChannel3Attribute::from_str("StrobeModeEffect").unwrap(), FixtureChannel3Attribute::StrobeModeEffect);
}

#[test]
fn shutter_n() {
    assert_eq!(FixtureChannel3Attribute::from_str("Shutter1").unwrap(), FixtureChannel3Attribute::Shutter(1));
}

#[test]
fn shutter_n_strobe() {
    assert_eq!(FixtureChannel3Attribute::from_str("Shutter1Strobe").unwrap(), FixtureChannel3Attribute::ShutterStrobe(1));
}

#[test]
fn shutter_n_strobe_pulse() {
    assert_eq!(FixtureChannel3Attribute::from_str("Shutter1StrobePulse").unwrap(), FixtureChannel3Attribute::ShutterStrobePulse(1));
}

#[test]
fn shutter_n_strobe_pulse_close() {
    assert_eq!(FixtureChannel3Attribute::from_str("Shutter1StrobePulseClose").unwrap(), FixtureChannel3Attribute::ShutterStrobePulseClose(1));
}

#[test]
fn shutter_n_strobe_pulse_open() {
    assert_eq!(FixtureChannel3Attribute::from_str("Shutter1StrobePulseOpen").unwrap(), FixtureChannel3Attribute::ShutterStrobePulseOpen(1));
}

#[test]
fn shutter_n_strobe_random() {
    assert_eq!(FixtureChannel3Attribute::from_str("Shutter1StrobeRandom").unwrap(), FixtureChannel3Attribute::ShutterStrobeRandom(1));
}

#[test]
fn shutter_n_strobe_random_pulse() {
    assert_eq!(FixtureChannel3Attribute::from_str("Shutter1StrobeRandomPulse").unwrap(), FixtureChannel3Attribute::ShutterStrobeRandomPulse(1));
}

#[test]
fn shutter_n_strobe_random_pulse_close() {
    assert_eq!(FixtureChannel3Attribute::from_str("Shutter1StrobeRandomPulseClose").unwrap(), FixtureChannel3Attribute::ShutterStrobeRandomPulseClose(1));
}

#[test]
fn shutter_n_strobe_random_pulse_open() {
    assert_eq!(FixtureChannel3Attribute::from_str("Shutter1StrobeRandomPulseOpen").unwrap(), FixtureChannel3Attribute::ShutterStrobeRandomPulseOpen(1));
}

#[test]
fn shutter_n_strobe_effect() {
    assert_eq!(FixtureChannel3Attribute::from_str("Shutter1StrobeEffect").unwrap(), FixtureChannel3Attribute::ShutterStrobeEffect(1));
}

#[test]
fn iris() {
    assert_eq!(FixtureChannel3Attribute::from_str("Iris").unwrap(), FixtureChannel3Attribute::Iris);
}

#[test]
fn iris_strobe() {
    assert_eq!(FixtureChannel3Attribute::from_str("IrisStrobe").unwrap(), FixtureChannel3Attribute::IrisStrobe);
}

#[test]
fn iris_strobe_random() {
    assert_eq!(FixtureChannel3Attribute::from_str("IrisStrobeRandom").unwrap(), FixtureChannel3Attribute::IrisStrobeRandom);
}

#[test]
fn iris_pulse_close() {
    assert_eq!(FixtureChannel3Attribute::from_str("IrisPulseClose").unwrap(), FixtureChannel3Attribute::IrisPulseClose);
}

#[test]
fn iris_pulse_open() {
    assert_eq!(FixtureChannel3Attribute::from_str("IrisPulseOpen").unwrap(), FixtureChannel3Attribute::IrisPulseOpen);
}

#[test]
fn iris_random_pulse_close() {
    assert_eq!(FixtureChannel3Attribute::from_str("IrisRandomPulseClose").unwrap(), FixtureChannel3Attribute::IrisRandomPulseClose);
}

#[test]
fn iris_random_pulse_open() {
    assert_eq!(FixtureChannel3Attribute::from_str("IrisRandomPulseOpen").unwrap(), FixtureChannel3Attribute::IrisRandomPulseOpen);
}

#[test]
fn frost_n() {
    assert_eq!(FixtureChannel3Attribute::from_str("Frost1").unwrap(), FixtureChannel3Attribute::Frost(1));
}

#[test]
fn frost_n_pulse_open() {
    assert_eq!(FixtureChannel3Attribute::from_str("Frost1PulseOpen").unwrap(), FixtureChannel3Attribute::FrostPulseOpen(1));
}

#[test]
fn frost_n_pulse_close() {
    assert_eq!(FixtureChannel3Attribute::from_str("Frost1PulseClose").unwrap(), FixtureChannel3Attribute::FrostPulseClose(1));
}

#[test]
fn frost_n_ramp() {
    assert_eq!(FixtureChannel3Attribute::from_str("Frost1Ramp").unwrap(), FixtureChannel3Attribute::FrostRamp(1));
}

#[test]
fn prism_n() {
    assert_eq!(FixtureChannel3Attribute::from_str("Prism1").unwrap(), FixtureChannel3Attribute::Prism(1));
}

#[test]
fn prism_n_select_spin() {
    assert_eq!(FixtureChannel3Attribute::from_str("Prism1SelectSpin").unwrap(), FixtureChannel3Attribute::PrismSelectSpin(1));
}

#[test]
fn prism_n_macro() {
    assert_eq!(FixtureChannel3Attribute::from_str("Prism1Macro").unwrap(), FixtureChannel3Attribute::PrismMacro(1));
}

#[test]
fn prism_n_pos() {
    assert_eq!(FixtureChannel3Attribute::from_str("Prism1Pos").unwrap(), FixtureChannel3Attribute::PrismPos(1));
}

#[test]
fn prism_n_pos_rotate() {
    assert_eq!(FixtureChannel3Attribute::from_str("Prism1PosRotate").unwrap(), FixtureChannel3Attribute::PrismPosRotate(1));
}

#[test]
fn effects_n() {
    assert_eq!(FixtureChannel3Attribute::from_str("Effects1").unwrap(), FixtureChannel3Attribute::Effects(1));
}

#[test]
fn effects_n_rate() {
    assert_eq!(FixtureChannel3Attribute::from_str("Effects1Rate").unwrap(), FixtureChannel3Attribute::EffectsRate(1));
}

#[test]
fn effects_n_fade() {
    assert_eq!(FixtureChannel3Attribute::from_str("Effects1Fade").unwrap(), FixtureChannel3Attribute::EffectsFade(1));
}

#[test]
fn effects_n_adjust_m() {
    assert_eq!(FixtureChannel3Attribute::from_str("Effects1Adjust2").unwrap(), FixtureChannel3Attribute::EffectsAdjust(1, 2));
}

#[test]
fn effects_n_pos() {
    assert_eq!(FixtureChannel3Attribute::from_str("Effects1Pos").unwrap(), FixtureChannel3Attribute::EffectsPos(1));
}

#[test]
fn effects_n_pos_rotate() {
    assert_eq!(FixtureChannel3Attribute::from_str("Effects1PosRotate").unwrap(), FixtureChannel3Attribute::EffectsPosRotate(1));
}

#[test]
fn effects_sync() {
    assert_eq!(FixtureChannel3Attribute::from_str("EffectsSync").unwrap(), FixtureChannel3Attribute::EffectsSync);
}

#[test]
fn beam_shaper() {
    assert_eq!(FixtureChannel3Attribute::from_str("BeamShaper").unwrap(), FixtureChannel3Attribute::BeamShaper);
}

#[test]
fn beam_shaper_macro() {
    assert_eq!(FixtureChannel3Attribute::from_str("BeamShaperMacro").unwrap(), FixtureChannel3Attribute::BeamShaperMacro);
}

#[test]
fn beam_shaper_pos() {
    assert_eq!(FixtureChannel3Attribute::from_str("BeamShaperPos").unwrap(), FixtureChannel3Attribute::BeamShaperPos);
}

#[test]
fn beam_shaper_pos_rotate() {
    assert_eq!(FixtureChannel3Attribute::from_str("BeamShaperPosRotate").unwrap(), FixtureChannel3Attribute::BeamShaperPosRotate);
}

#[test]
fn zoom() {
    assert_eq!(FixtureChannel3Attribute::from_str("Zoom").unwrap(), FixtureChannel3Attribute::Zoom);
}

#[test]
fn zoom_mode_spot() {
    assert_eq!(FixtureChannel3Attribute::from_str("ZoomModeSpot").unwrap(), FixtureChannel3Attribute::ZoomModeSpot);
}

#[test]
fn zoom_mode_beam() {
    assert_eq!(FixtureChannel3Attribute::from_str("ZoomModeBeam").unwrap(), FixtureChannel3Attribute::ZoomModeBeam);
}

#[test]
fn digital_zoom() {
    assert_eq!(FixtureChannel3Attribute::from_str("DigitalZoom").unwrap(), FixtureChannel3Attribute::DigitalZoom);
}

#[test]
fn focus_n() {
    assert_eq!(FixtureChannel3Attribute::from_str("Focus1").unwrap(), FixtureChannel3Attribute::Focus(1));
}

#[test]
fn focus_n_adjust() {
    assert_eq!(FixtureChannel3Attribute::from_str("Focus1Adjust").unwrap(), FixtureChannel3Attribute::FocusAdjust(1));
}

#[test]
fn focus_n_distance() {
    assert_eq!(FixtureChannel3Attribute::from_str("Focus1Distance").unwrap(), FixtureChannel3Attribute::FocusDistance(1));
}

#[test]
fn control_n() {
    assert_eq!(FixtureChannel3Attribute::from_str("Control1").unwrap(), FixtureChannel3Attribute::Control(1));
}

#[test]
fn dimmer_mode() {
    assert_eq!(FixtureChannel3Attribute::from_str("DimmerMode").unwrap(), FixtureChannel3Attribute::DimmerMode);
}

#[test]
fn dimmer_curve() {
    assert_eq!(FixtureChannel3Attribute::from_str("DimmerCurve").unwrap(), FixtureChannel3Attribute::DimmerCurve);
}

#[test]
fn blackout_mode() {
    assert_eq!(FixtureChannel3Attribute::from_str("BlackoutMode").unwrap(), FixtureChannel3Attribute::BlackoutMode);
}

#[test]
fn led_frequency() {
    assert_eq!(FixtureChannel3Attribute::from_str("LEDFrequency").unwrap(), FixtureChannel3Attribute::LedFrequency);
}

#[test]
fn led_zone_mode() {
    assert_eq!(FixtureChannel3Attribute::from_str("LEDZoneMode").unwrap(), FixtureChannel3Attribute::LedZoneMode);
}

#[test]
fn pixel_mode() {
    assert_eq!(FixtureChannel3Attribute::from_str("PixelMode").unwrap(), FixtureChannel3Attribute::PixelMode);
}

#[test]
fn pan_mode() {
    assert_eq!(FixtureChannel3Attribute::from_str("PanMode").unwrap(), FixtureChannel3Attribute::PanMode);
}

#[test]
fn tilt_mode() {
    assert_eq!(FixtureChannel3Attribute::from_str("TiltMode").unwrap(), FixtureChannel3Attribute::TiltMode);
}

#[test]
fn pan_tilt_mode() {
    assert_eq!(FixtureChannel3Attribute::from_str("PanTiltMode").unwrap(), FixtureChannel3Attribute::PanTiltMode);
}

#[test]
fn position_modes() {
    assert_eq!(FixtureChannel3Attribute::from_str("PositionModes").unwrap(), FixtureChannel3Attribute::PositionModes);
}

#[test]
fn gobo_n_wheel_mode() {
    assert_eq!(FixtureChannel3Attribute::from_str("Gobo1WheelMode").unwrap(), FixtureChannel3Attribute::GoboWheelMode(1));
}

#[test]
fn gobo_wheel_shortcut_mode() {
    assert_eq!(FixtureChannel3Attribute::from_str("GoboWheelShortcutMode").unwrap(), FixtureChannel3Attribute::GoboWheelShortcutMode);
}

#[test]
fn animation_wheel_n_mode() {
    assert_eq!(FixtureChannel3Attribute::from_str("AnimationWheel1Mode").unwrap(), FixtureChannel3Attribute::AnimationWheelMode(1));
}

#[test]
fn animation_wheel_shortcut_mode() {
    assert_eq!(FixtureChannel3Attribute::from_str("AnimationWheelShortcutMode").unwrap(), FixtureChannel3Attribute::AnimationWheelShortcutMode);
}

#[test]
fn color_n_mode() {
    assert_eq!(FixtureChannel3Attribute::from_str("Color1Mode").unwrap(), FixtureChannel3Attribute::ColorMode(1));
}

#[test]
fn color_wheel_shortcut_mode() {
    assert_eq!(FixtureChannel3Attribute::from_str("ColorWheelShortcutMode").unwrap(), FixtureChannel3Attribute::ColorWheelShortcutMode);
}

#[test]
fn cyan_mode() {
    assert_eq!(FixtureChannel3Attribute::from_str("CyanMode").unwrap(), FixtureChannel3Attribute::CyanMode);
}

#[test]
fn magenta_mode() {
    assert_eq!(FixtureChannel3Attribute::from_str("MagentaMode").unwrap(), FixtureChannel3Attribute::MagentaMode);
}

#[test]
fn yellow_mode() {
    assert_eq!(FixtureChannel3Attribute::from_str("YellowMode").unwrap(), FixtureChannel3Attribute::YellowMode);
}

#[test]
fn color_mix_mode() {
    assert_eq!(FixtureChannel3Attribute::from_str("ColorMixMode").unwrap(), FixtureChannel3Attribute::ColorMixMode);
}

#[test]
fn chromatic_mode() {
    assert_eq!(FixtureChannel3Attribute::from_str("ChromaticMode").unwrap(), FixtureChannel3Attribute::ChromaticMode);
}

#[test]
fn color_calibration_mode() {
    assert_eq!(FixtureChannel3Attribute::from_str("ColorCalibrationMode").unwrap(), FixtureChannel3Attribute::ColorCalibrationMode);
}

#[test]
fn color_consistency() {
    assert_eq!(FixtureChannel3Attribute::from_str("ColorConsistency").unwrap(), FixtureChannel3Attribute::ColorConsistency);
}

#[test]
fn color_control() {
    assert_eq!(FixtureChannel3Attribute::from_str("ColorControl").unwrap(), FixtureChannel3Attribute::ColorControl);
}

#[test]
fn color_model_mode() {
    assert_eq!(FixtureChannel3Attribute::from_str("ColorModelMode").unwrap(), FixtureChannel3Attribute::ColorModelMode);
}

#[test]
fn color_settings_reset() {
    assert_eq!(FixtureChannel3Attribute::from_str("ColorSettingsReset").unwrap(), FixtureChannel3Attribute::ColorSettingsReset);
}

#[test]
fn color_uniformity() {
    assert_eq!(FixtureChannel3Attribute::from_str("ColorUniformity").unwrap(), FixtureChannel3Attribute::ColorUniformity);
}

#[test]
fn cri_mode() {
    assert_eq!(FixtureChannel3Attribute::from_str("CRIMode").unwrap(), FixtureChannel3Attribute::CriMode);
}

#[test]
fn custom_color() {
    assert_eq!(FixtureChannel3Attribute::from_str("CustomColor").unwrap(), FixtureChannel3Attribute::CustomColor);
}

#[test]
fn uv_stability() {
    assert_eq!(FixtureChannel3Attribute::from_str("UVStability").unwrap(), FixtureChannel3Attribute::UvStability);
}

#[test]
fn wavelength_correction() {
    assert_eq!(FixtureChannel3Attribute::from_str("WavelengthCorrection").unwrap(), FixtureChannel3Attribute::WavelengthCorrection);
}

#[test]
fn white_count() {
    assert_eq!(FixtureChannel3Attribute::from_str("WhiteCount").unwrap(), FixtureChannel3Attribute::WhiteCount);
}

#[test]
fn strobe_mode() {
    assert_eq!(FixtureChannel3Attribute::from_str("StrobeMode").unwrap(), FixtureChannel3Attribute::StrobeMode);
}

#[test]
fn zoom_mode() {
    assert_eq!(FixtureChannel3Attribute::from_str("ZoomMode").unwrap(), FixtureChannel3Attribute::ZoomMode);
}

#[test]
fn focus_mode() {
    assert_eq!(FixtureChannel3Attribute::from_str("FocusMode").unwrap(), FixtureChannel3Attribute::FocusMode);
}

#[test]
fn iris_mode() {
    assert_eq!(FixtureChannel3Attribute::from_str("IrisMode").unwrap(), FixtureChannel3Attribute::IrisMode);
}

#[test]
fn fan_n_mode() {
    assert_eq!(FixtureChannel3Attribute::from_str("Fan1Mode").unwrap(), FixtureChannel3Attribute::FanMode(1));
}

#[test]
fn follow_spot_mode() {
    assert_eq!(FixtureChannel3Attribute::from_str("FollowSpotMode").unwrap(), FixtureChannel3Attribute::FollowSpotMode);
}

#[test]
fn beam_effect_index_rotate_mode() {
    assert_eq!(FixtureChannel3Attribute::from_str("BeamEffectIndexRotateMode").unwrap(), FixtureChannel3Attribute::BeamEffectIndexRotateMode);
}

#[test]
fn intensity_m_speed() {
    assert_eq!(FixtureChannel3Attribute::from_str("IntensityMSpeed").unwrap(), FixtureChannel3Attribute::IntensityMSpeed);
}

#[test]
fn position_m_speed() {
    assert_eq!(FixtureChannel3Attribute::from_str("PositionMSpeed").unwrap(), FixtureChannel3Attribute::PositionMSpeed);
}

#[test]
fn color_mix_m_speed() {
    assert_eq!(FixtureChannel3Attribute::from_str("ColorMixMSpeed").unwrap(), FixtureChannel3Attribute::ColorMixMSpeed);
}

#[test]
fn color_wheel_select_m_speed() {
    assert_eq!(FixtureChannel3Attribute::from_str("ColorWheelSelectMSpeed").unwrap(), FixtureChannel3Attribute::ColorWheelSelectMSpeed);
}

#[test]
fn gobo_wheel_n_m_speed() {
    assert_eq!(FixtureChannel3Attribute::from_str("GoboWheel1MSpeed").unwrap(), FixtureChannel3Attribute::GoboWheelMSpeed(1));
}

#[test]
fn iris_m_speed() {
    assert_eq!(FixtureChannel3Attribute::from_str("IrisMSpeed").unwrap(), FixtureChannel3Attribute::IrisMSpeed);
}

#[test]
fn prism_n_m_speed() {
    assert_eq!(FixtureChannel3Attribute::from_str("Prism1MSpeed").unwrap(), FixtureChannel3Attribute::PrismMSpeed(1));
}

#[test]
fn focus_m_speed() {
    assert_eq!(FixtureChannel3Attribute::from_str("FocusMSpeed").unwrap(), FixtureChannel3Attribute::FocusMSpeed);
}

#[test]
fn frost_n_m_speed() {
    assert_eq!(FixtureChannel3Attribute::from_str("Frost1MSpeed").unwrap(), FixtureChannel3Attribute::FrostMSpeed(1));
}

#[test]
fn zoom_m_speed() {
    assert_eq!(FixtureChannel3Attribute::from_str("ZoomMSpeed").unwrap(), FixtureChannel3Attribute::ZoomMSpeed);
}

#[test]
fn frame_m_speed() {
    assert_eq!(FixtureChannel3Attribute::from_str("FrameMSpeed").unwrap(), FixtureChannel3Attribute::FrameMSpeed);
}

#[test]
fn global_m_speed() {
    assert_eq!(FixtureChannel3Attribute::from_str("GlobalMSpeed").unwrap(), FixtureChannel3Attribute::GlobalMSpeed);
}

#[test]
fn reflector_adjust() {
    assert_eq!(FixtureChannel3Attribute::from_str("ReflectorAdjust").unwrap(), FixtureChannel3Attribute::ReflectorAdjust);
}

#[test]
fn fixture_global_reset() {
    assert_eq!(FixtureChannel3Attribute::from_str("FixtureGlobalReset").unwrap(), FixtureChannel3Attribute::FixtureGlobalReset);
}

#[test]
fn dimmer_reset() {
    assert_eq!(FixtureChannel3Attribute::from_str("DimmerReset").unwrap(), FixtureChannel3Attribute::DimmerReset);
}

#[test]
fn shutter_reset() {
    assert_eq!(FixtureChannel3Attribute::from_str("ShutterReset").unwrap(), FixtureChannel3Attribute::ShutterReset);
}

#[test]
fn beam_reset() {
    assert_eq!(FixtureChannel3Attribute::from_str("BeamReset").unwrap(), FixtureChannel3Attribute::BeamReset);
}

#[test]
fn color_mix_reset() {
    assert_eq!(FixtureChannel3Attribute::from_str("ColorMixReset").unwrap(), FixtureChannel3Attribute::ColorMixReset);
}

#[test]
fn color_wheel_reset() {
    assert_eq!(FixtureChannel3Attribute::from_str("ColorWheelReset").unwrap(), FixtureChannel3Attribute::ColorWheelReset);
}

#[test]
fn focus_reset() {
    assert_eq!(FixtureChannel3Attribute::from_str("FocusReset").unwrap(), FixtureChannel3Attribute::FocusReset);
}

#[test]
fn frame_reset() {
    assert_eq!(FixtureChannel3Attribute::from_str("FrameReset").unwrap(), FixtureChannel3Attribute::FrameReset);
}

#[test]
fn gobo_wheel_reset() {
    assert_eq!(FixtureChannel3Attribute::from_str("GoboWheelReset").unwrap(), FixtureChannel3Attribute::GoboWheelReset);
}

#[test]
fn intensity_reset() {
    assert_eq!(FixtureChannel3Attribute::from_str("IntensityReset").unwrap(), FixtureChannel3Attribute::IntensityReset);
}

#[test]
fn iris_reset() {
    assert_eq!(FixtureChannel3Attribute::from_str("IrisReset").unwrap(), FixtureChannel3Attribute::IrisReset);
}

#[test]
fn position_reset() {
    assert_eq!(FixtureChannel3Attribute::from_str("PositionReset").unwrap(), FixtureChannel3Attribute::PositionReset);
}

#[test]
fn pan_reset() {
    assert_eq!(FixtureChannel3Attribute::from_str("PanReset").unwrap(), FixtureChannel3Attribute::PanReset);
}

#[test]
fn tilt_reset() {
    assert_eq!(FixtureChannel3Attribute::from_str("TiltReset").unwrap(), FixtureChannel3Attribute::TiltReset);
}

#[test]
fn zoom_reset() {
    assert_eq!(FixtureChannel3Attribute::from_str("ZoomReset").unwrap(), FixtureChannel3Attribute::ZoomReset);
}

#[test]
fn ctb_reset() {
    assert_eq!(FixtureChannel3Attribute::from_str("CTBReset").unwrap(), FixtureChannel3Attribute::CtbReset);
}

#[test]
fn cto_reset() {
    assert_eq!(FixtureChannel3Attribute::from_str("CTOReset").unwrap(), FixtureChannel3Attribute::CtoReset);
}

#[test]
fn ctc_reset() {
    assert_eq!(FixtureChannel3Attribute::from_str("CTCReset").unwrap(), FixtureChannel3Attribute::CtcReset);
}

#[test]
fn animation_system_reset() {
    assert_eq!(FixtureChannel3Attribute::from_str("AnimationSystemReset").unwrap(), FixtureChannel3Attribute::AnimationSystemReset);
}

#[test]
fn fixture_calibration_reset() {
    assert_eq!(FixtureChannel3Attribute::from_str("FixtureCalibrationReset").unwrap(), FixtureChannel3Attribute::FixtureCalibrationReset);
}

#[test]
fn function() {
    assert_eq!(FixtureChannel3Attribute::from_str("Function").unwrap(), FixtureChannel3Attribute::Function);
}

#[test]
fn lamp_control() {
    assert_eq!(FixtureChannel3Attribute::from_str("LampControl").unwrap(), FixtureChannel3Attribute::LampControl);
}

#[test]
fn display_intensity() {
    assert_eq!(FixtureChannel3Attribute::from_str("DisplayIntensity").unwrap(), FixtureChannel3Attribute::DisplayIntensity);
}

#[test]
fn dmx_input() {
    assert_eq!(FixtureChannel3Attribute::from_str("DMXInput").unwrap(), FixtureChannel3Attribute::DmxInput);
}

#[test]
fn no_feature() {
    assert_eq!(FixtureChannel3Attribute::from_str("NoFeature").unwrap(), FixtureChannel3Attribute::NoFeature);
}

#[test]
fn blower_n() {
    assert_eq!(FixtureChannel3Attribute::from_str("Blower1").unwrap(), FixtureChannel3Attribute::Blower(1));
}

#[test]
fn fan_n() {
    assert_eq!(FixtureChannel3Attribute::from_str("Fan1").unwrap(), FixtureChannel3Attribute::Fan(1));
}

#[test]
fn fog_n() {
    assert_eq!(FixtureChannel3Attribute::from_str("Fog1").unwrap(), FixtureChannel3Attribute::Fog(1));
}

#[test]
fn haze_n() {
    assert_eq!(FixtureChannel3Attribute::from_str("Haze1").unwrap(), FixtureChannel3Attribute::Haze(1));
}

#[test]
fn lamp_power_mode() {
    assert_eq!(FixtureChannel3Attribute::from_str("LampPowerMode").unwrap(), FixtureChannel3Attribute::LampPowerMode);
}

#[test]
fn fans() {
    assert_eq!(FixtureChannel3Attribute::from_str("Fans").unwrap(), FixtureChannel3Attribute::Fans);
}

#[test]
fn blade_n_a() {
    assert_eq!(FixtureChannel3Attribute::from_str("Blade1A").unwrap(), FixtureChannel3Attribute::BladeA(1));
}

#[test]
fn blade_n_b() {
    assert_eq!(FixtureChannel3Attribute::from_str("Blade1B").unwrap(), FixtureChannel3Attribute::BladeB(1));
}

#[test]
fn blade_n_rot() {
    assert_eq!(FixtureChannel3Attribute::from_str("Blade1Rot").unwrap(), FixtureChannel3Attribute::BladeRot(1));
}

#[test]
fn shaper_rot() {
    assert_eq!(FixtureChannel3Attribute::from_str("ShaperRot").unwrap(), FixtureChannel3Attribute::ShaperRot);
}

#[test]
fn shaper_macros() {
    assert_eq!(FixtureChannel3Attribute::from_str("ShaperMacros").unwrap(), FixtureChannel3Attribute::ShaperMacros);
}

#[test]
fn shaper_macros_speed() {
    assert_eq!(FixtureChannel3Attribute::from_str("ShaperMacrosSpeed").unwrap(), FixtureChannel3Attribute::ShaperMacrosSpeed);
}

#[test]
fn blade_soft_n_a() {
    assert_eq!(FixtureChannel3Attribute::from_str("BladeSoft1A").unwrap(), FixtureChannel3Attribute::BladeSoftA(1));
}

#[test]
fn blade_soft_n_b() {
    assert_eq!(FixtureChannel3Attribute::from_str("BladeSoft1B").unwrap(), FixtureChannel3Attribute::BladeSoftB(1));
}

#[test]
fn key_stone_n_a() {
    assert_eq!(FixtureChannel3Attribute::from_str("KeyStone1A").unwrap(), FixtureChannel3Attribute::KeyStoneA(1));
}

#[test]
fn key_stone_n_b() {
    assert_eq!(FixtureChannel3Attribute::from_str("KeyStone1B").unwrap(), FixtureChannel3Attribute::KeyStoneB(1));
}

#[test]
fn video() {
    assert_eq!(FixtureChannel3Attribute::from_str("Video").unwrap(), FixtureChannel3Attribute::Video);
}

#[test]
fn video_effect_n_type() {
    assert_eq!(FixtureChannel3Attribute::from_str("VideoEffect1Type").unwrap(), FixtureChannel3Attribute::VideoEffectType(1));
}

#[test]
fn video_effect_n_parameter_m() {
    assert_eq!(FixtureChannel3Attribute::from_str("VideoEffect1Parameter2").unwrap(), FixtureChannel3Attribute::VideoEffectParameter(1, 2));
}

#[test]
fn video_camera_n() {
    assert_eq!(FixtureChannel3Attribute::from_str("VideoCamera1").unwrap(), FixtureChannel3Attribute::VideoCamera(1));
}

#[test]
fn video_sound_volume_n() {
    assert_eq!(FixtureChannel3Attribute::from_str("VideoSoundVolume1").unwrap(), FixtureChannel3Attribute::VideoSoundVolume(1));
}

#[test]
fn video_blend_mode() {
    assert_eq!(FixtureChannel3Attribute::from_str("VideoBlendMode").unwrap(), FixtureChannel3Attribute::VideoBlendMode);
}

#[test]
fn input_source() {
    assert_eq!(FixtureChannel3Attribute::from_str("InputSource").unwrap(), FixtureChannel3Attribute::InputSource);
}

#[test]
fn field_of_view() {
    assert_eq!(FixtureChannel3Attribute::from_str("FieldOfView").unwrap(), FixtureChannel3Attribute::FieldOfView);
}
