//! Names, pretty names, feature types and numbering of attributes.

use demex_core::attribute::{CustomName, FixtureChannel3Attribute, FixtureChannel3FeatureType};

#[test]
fn text_of_numbered_attributes() {
    assert_eq!(FixtureChannel3Attribute::Gobo(3).to_string(), "Gobo3");
    assert_eq!(FixtureChannel3Attribute::GoboWheelSpin(12).to_string(), "Gobo12WheelSpin");
    assert_eq!(FixtureChannel3Attribute::EffectsAdjust(3, 4).to_string(), "Effects3Adjust4");
    assert_eq!(FixtureChannel3Attribute::XyzX.to_string(), "XYZ_X");
    assert_eq!(FixtureChannel3Attribute::Dimmer.to_string(), "Dimmer");
}

#[test]
fn text_round_trip_of_numbered_attribute() {
    for a in [
        FixtureChannel3Attribute::Gobo(255),
        FixtureChannel3Attribute::EffectsAdjust(3, 4),
        FixtureChannel3Attribute::VideoEffectParameter(1, 200),
        FixtureChannel3Attribute::Shutter(0),
        FixtureChannel3Attribute::ColorAddRY,
    ] {
        let text = a.to_string();
        assert_eq!(FixtureChannel3Attribute::from_str(&text).unwrap(), a);
    }
}

#[test]
fn number_too_large_reads_as_custom() {
    let a = FixtureChannel3Attribute::from_str("Gobo256").unwrap();
    assert!(matches!(&a, FixtureChannel3Attribute::Custom(_)));
    assert_eq!(a.to_string(), "Gobo256");
}

#[test]
fn custom_from_string() {
    let name = String::from("MyOwnChannel");
    let a = FixtureChannel3Attribute::from_string(&name);
    assert_eq!(a, FixtureChannel3Attribute::Custom(CustomName::new(name.clone())));
    assert_eq!(a.to_string(), "MyOwnChannel");
    assert_eq!(a.pretty(), "MyOwnChannel");
    assert_eq!(a.feature_type(), None);
}

#[test]
fn pretty_names() {
    assert_eq!(FixtureChannel3Attribute::XyzX.pretty(), "X");
    assert_eq!(FixtureChannel3Attribute::PanRotate.pretty(), "Pan Rotate");
    assert_eq!(FixtureChannel3Attribute::Gobo(2).pretty(), "Gobo 2");
    assert_eq!(FixtureChannel3Attribute::ColorWheelIndex(1).pretty(), "Color Wheel 1 Index");
    assert_eq!(FixtureChannel3Attribute::EffectsAdjust(3, 4).pretty(), "Effects 3 Adjust 4");
}

#[test]
fn feature_types() {
    assert_eq!(FixtureChannel3Attribute::Dimmer.feature_type(), Some(FixtureChannel3FeatureType::Dimmer));
    assert_eq!(FixtureChannel3Attribute::Tilt.feature_type(), Some(FixtureChannel3FeatureType::PanTilt));
    assert_eq!(
        FixtureChannel3Attribute::ColorWheelIndex(2).feature_type(),
        Some(FixtureChannel3FeatureType::Color)
    );
    assert_eq!(
        FixtureChannel3Attribute::EffectsAdjust(1, 1).feature_type(),
        Some(FixtureChannel3FeatureType::Beam)
    );
    assert_eq!(FixtureChannel3Attribute::Fans.feature_type(), Some(FixtureChannel3FeatureType::Control));
}

#[test]
fn increments() {
    assert_eq!(FixtureChannel3Attribute::Gobo(1).try_increment(), Some(FixtureChannel3Attribute::Gobo(2)));
    assert_eq!(
        FixtureChannel3Attribute::EffectsAdjust(1, 2).try_increment(),
        Some(FixtureChannel3Attribute::EffectsAdjust(1, 3))
    );
    assert_eq!(FixtureChannel3Attribute::Dimmer.try_increment(), None);
    // the incremented attribute keeps its feature type
    let a = FixtureChannel3Attribute::PrismPos(4);
    assert_eq!(a.try_increment().unwrap().feature_type(), a.feature_type());
}

#[test]
fn color_wheel_index_text_does_not_read_back() {
    // the name written for this attribute is not the one that is read
    let a = FixtureChannel3Attribute::ColorWheelIndex(1);
    let text = a.to_string();
    assert_eq!(text, "ColorWheel1Index");
    assert_ne!(FixtureChannel3Attribute::from_str(&text).unwrap(), a);
    assert_eq!(
        FixtureChannel3Attribute::from_str("Color1WheelIndex").unwrap(),
        FixtureChannel3Attribute::ColorWheelIndex(1)
    );
}

#[test]
fn standard_names_read_and_write_back() {
    for name in ["Dimmer", "XYZ_X", "ColorAdd_RY", "Rot_Z", "ShaperMacrosSpeed", "FieldOfView"] {
        assert_eq!(FixtureChannel3Attribute::from_str(name).unwrap().to_string(), name);
    }
    // these four names are written differently from how they are read
    assert_eq!(FixtureChannel3Attribute::from_str("LEDFrequency").unwrap().to_string(), "LedFrequency");
    assert_eq!(FixtureChannel3Attribute::from_str("UVStability").unwrap().to_string(), "UvStability");
}

#[test]
fn written_names_read_back() {
    for a in [
        FixtureChannel3Attribute::Pan,
        FixtureChannel3Attribute::CtbReset,
        FixtureChannel3Attribute::FieldOfView,
        FixtureChannel3Attribute::GoboSelectSpin(7),
        FixtureChannel3Attribute::GoboWheelSpin(12),
        FixtureChannel3Attribute::EffectsAdjust(0, 255),
        FixtureChannel3Attribute::Gobo(0),
    ] {
        let text = a.to_string();
        assert_eq!(FixtureChannel3Attribute::from_str(&text).unwrap(), a);
    }
}
