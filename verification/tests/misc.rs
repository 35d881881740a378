//! Small value types: channel widths, effect settings, errors, objects and
//! selections.

use demex_core::channel::{max_value, FixtureChannelValue2PresetState};
use demex_core::queue::ActionQueue;
use demex_core::command::{
    Action, ActionIssuer, ActionRunResult, ExpectedParseSlice, CueIdx, EmptyObjectSetKeyType, FixtureChannel3FeatureGroup, FixturePresetId,
    HomeableObject, Object, ObjectError, ObjectRange, SelectionOrSelector, SetFixturePresetArgs,
    Token, ValueOrRange,
};
use demex_core::effect::{EffectSpeedScale, EffectSpeedSyncMode, WaveType};
use demex_core::fixture::{FixtureError, FixtureId, FixturePath};
use demex_core::text::IntErrorKind;
use demex_core::gdtf::DemexGdtfError;
use demex_core::selection::{FixtureSelection, FixtureSelectionWithGroup};

#[test]
fn max_values_by_width() {
    assert_eq!(max_value(1), 255);
    assert_eq!(max_value(2), 65535);
    assert_eq!(max_value(4), u32::MAX as u64);
    assert_eq!(max_value(8), u64::MAX);
    assert_eq!(max_value(3), 0);
}

#[test]
fn effect_defaults() {
    assert!(matches!(EffectSpeedScale::default(), EffectSpeedScale::One));
    assert_eq!(EffectSpeedSyncMode::default(), EffectSpeedSyncMode::NoSync);
    assert_eq!(WaveType::default(), WaveType::Triangle);
    assert!(!EffectSpeedSyncMode::NoSync.is_synced());
    assert!(EffectSpeedSyncMode::SyncBeat.is_synced());
    assert!(EffectSpeedSyncMode::SyncBeatFrac.is_synced());
}

#[test]
fn gdtf_error_messages() {
    assert_eq!(
        DemexGdtfError::UnnamedAttribute.to_string(),
        "An attribute in a fixture type definition is unnamed"
    );
    assert_eq!(
        DemexGdtfError::UnnamedFeatureGroup.to_string(),
        "A feature group in a fixture type definition is unnamed"
    );
}

#[test]
fn feature_groups() {
    assert_eq!(FixtureChannel3FeatureGroup::try_from_id(1), Ok(FixtureChannel3FeatureGroup::Dimmer));
    assert_eq!(FixtureChannel3FeatureGroup::try_from_id(0), Err(()));
    assert_eq!(FixtureChannel3FeatureGroup::from_str("Color"), Ok(FixtureChannel3FeatureGroup::Color));
    assert_eq!(FixtureChannel3FeatureGroup::from_str("color"), Err(()));
}

#[test]
fn object_ranges() {
    let single = ObjectRange::single(Object::Macro(3));
    assert!(single.is_single());
    assert!(matches!(single.as_tuple(), (Object::Macro(3), Object::Macro(3))));
    let range = ObjectRange::new(Object::cue(1, CueIdx(1, 0)), Object::cue(1, CueIdx(2, 0))).unwrap();
    assert!(!range.is_single());
    assert!(matches!(
        ObjectRange::new(Object::cue(1, CueIdx(1, 0)), Object::cue(2, CueIdx(2, 0))),
        Err(ObjectError::ObjectVariantMismatch(_, _))
    ));
    assert!(Object::Sequence(1).rangable_with(&Object::Sequence(9)));
    assert!(!Object::Sequence(1).rangable_with(&Object::Macro(1)));
    assert!(HomeableObject::Executor(1).rangable_with(&HomeableObject::Executor(2)));
    assert!(!HomeableObject::Programmer.rangable_with(&HomeableObject::Programmer));
}

#[test]
fn default_actions() {
    assert!(matches!(
        Object::Preset(FixturePresetId { feature_group: FixtureChannel3FeatureGroup::Beam, preset_id: 2 })
            .default_action(),
        Some(Action::Edit(Object::Preset(_)))
    ));
}

#[test]
fn values_and_ranges() {
    assert_eq!(ValueOrRange::Single(4u32).as_pair(), (4, 4));
    assert_eq!(ValueOrRange::Thru(1u32, 9).as_pair(), (1, 9));
}

#[test]
fn preset_on_current_selection() {
    let id = FixturePresetId { feature_group: FixtureChannel3FeatureGroup::Dimmer, preset_id: 5 };
    let args = SetFixturePresetArgs::current(id);
    assert!(matches!(args.selection_or_selector, SelectionOrSelector::Current));
    assert_eq!(args.preset_id, ValueOrRange::Single(id));
}

#[test]
fn selections() {
    let p = FixturePath::new(FixtureId::new(2).unwrap());
    let sel = FixtureSelection::new(vec![p]);
    assert_eq!(sel.fixtures().len(), 1);
    let with_group = FixtureSelectionWithGroup::with_group(sel.duplicate(), Some(4));
    assert_eq!(with_group.group_id(), Some(4));
    assert_eq!(with_group.selection().fixtures()[0].to_string(), "2");
    let state = FixtureChannelValue2PresetState::now(sel);
    assert!(state.started().is_some());
    let state = state.with_started(None);
    assert!(state.started().is_none());
    assert_eq!(state.selection().fixtures().len(), 1);
}

#[test]
fn results_and_keys() {
    assert!(matches!(ActionRunResult::new(), ActionRunResult::Default));
    assert!(EmptyObjectSetKeyType::from_str("anything").is_err());
}

#[test]
fn token_copies() {
    let t = Token::String("a".to_owned());
    assert_eq!(t.duplicate(), t);
    assert!(Token::KeywordThru.is(&Token::KeywordThru));
    assert!(!Token::KeywordThru.is(&Token::KeywordTo));
}

#[test]
fn fixture_error_messages() {
    let p = FixturePath::pair(FixtureId::new(1).unwrap(), FixtureId::new(12).unwrap());
    assert_eq!(FixtureError::NotFound(p).to_string(), "Fixture with path 1.12 not found");
    assert_eq!(
        FixtureError::FixtureIdParseError(IntErrorKind::InvalidDigit).to_string(),
        "Fixture ID parse error: invalid digit found in string"
    );
    assert_eq!(
        FixtureError::FixtureTypeModeNotFound("Spot".to_owned(), 3).to_string(),
        "Fixture type mode Spot for type 3 not found"
    );
    assert_eq!(
        FixtureError::GdtfChannelFunctionMismatch(2, 7).to_string(),
        "GDTF channel function idx mismatch: 2 != 7"
    );
    assert_eq!(
        FixtureError::GdtfAttributeNotFound(demex_core::attribute::FixtureChannel3Attribute::Gobo(2))
            .to_string(),
        "GDTF attribute Gobo2 not found"
    );
    assert_eq!(
        FixtureError::GdtfFixtureTypeNotFound(0x0123_4567_89ab_cdef_0011_2233_4455_6677).to_string(),
        "GDTF fixture type with id 01234567-89ab-cdef-0011-223344556677 not found"
    );
    assert_eq!(
        FixtureError::GdtfFixtureTypeNotFound(5).to_string(),
        "GDTF fixture type with id 00000000-0000-0000-0000-000000000005 not found"
    );
}

#[test]
fn int_error_messages() {
    // the messages of the standard library's own integer parse errors
    assert_eq!(IntErrorKind::Empty.to_string(), "".parse::<u32>().unwrap_err().to_string());
    assert_eq!(IntErrorKind::InvalidDigit.to_string(), "x".parse::<u32>().unwrap_err().to_string());
    assert_eq!(
        IntErrorKind::PosOverflow.to_string(),
        "4294967296".parse::<u32>().unwrap_err().to_string()
    );
}

#[test]
fn action_queue_is_first_in_first_out() {
    let mut queue = ActionQueue::new();
    assert!(queue.is_empty());
    let t = std::time::Instant::now();
    queue.enqueue_at(Action::ClearAll, t, ActionIssuer::Command);
    queue.enqueue_now(Action::Save, ActionIssuer::Ui);
    assert!(!queue.is_empty());
    let first = queue.dequeue().unwrap();
    assert!(matches!(first.action, Action::ClearAll));
    assert_eq!(first.issued_at, t);
    assert_eq!(first.issuer, ActionIssuer::Command);
    let second = queue.dequeue().unwrap();
    assert!(matches!(second.action, Action::Save));
    assert_eq!(second.issuer, ActionIssuer::Ui);
    assert!(queue.dequeue().is_none());
    assert!(queue.is_empty());
}

#[test]
fn values_from_plain_values() {
    let v: ValueOrRange<u32> = 3.into();
    assert_eq!(v, ValueOrRange::Single(3));
    let r: ValueOrRange<u32> = (1, 4).into();
    assert_eq!(r, ValueOrRange::Thru(1, 4));
}

#[test]
fn expected_slice_names() {
    assert_eq!(ExpectedParseSlice::FaderId { is_unassign: true }.to_string(), "FaderId");
    assert_eq!(ExpectedParseSlice::FixtureAttribute.to_string(), "FixtureAttribute");
}

#[test]
fn rangable_is_symmetric() {
    let pairs = [
        (Object::Sequence(1), Object::Macro(2)),
        (Object::cue(1, CueIdx(1, 0)), Object::cue(1, CueIdx(3, 0))),
        (Object::HomeableObject(HomeableObject::Executor(1)), Object::Sequence(1)),
    ];
    for (a, b) in pairs.iter() {
        assert_eq!(a.rangable_with(b), b.rangable_with(a));
    }
}

#[test]
fn tokens_with_values_compare_by_value() {
    assert!(Token::Integer(4).is(&Token::Integer(4)));
    assert!(!Token::Integer(4).is(&Token::Integer(5)));
    assert!(Token::String("a".to_owned()).is(&Token::String("a".to_owned())));
    assert!(!Token::String("a".to_owned()).is(&Token::String("b".to_owned())));
    assert!(!Token::Integer(4).is(&Token::String("4".to_owned())));
}

#[test]
fn action_queue_interleaved_calls_keep_order() {
    let mut queue = ActionQueue::default();
    let t = std::time::Instant::now();
    queue.enqueue_at(Action::ClearAll, t, ActionIssuer::Command);
    queue.enqueue_at(Action::Save, t, ActionIssuer::Ui);
    assert!(matches!(queue.dequeue().unwrap().action, Action::ClearAll));
    queue.enqueue_at(Action::Lock, t, ActionIssuer::Macro);
    assert!(matches!(queue.dequeue().unwrap().action, Action::Save));
    assert!(matches!(queue.dequeue().unwrap().action, Action::Lock));
    assert!(queue.dequeue().is_none());
    queue.enqueue_at(Action::Unhighlight, t, ActionIssuer::Ui);
    assert!(matches!(queue.dequeue().unwrap().action, Action::Unhighlight));
}
