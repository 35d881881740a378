//! Parsing commands from tokens.

use demex_core::attribute::{FixtureChannel3Attribute, FixtureChannel3FeatureType};
use demex_core::command::{
    Action, AssignButtonArgsMode, AtomicFixtureSelector, CueIdx, F32Bits,
    FixtureChannel3FeatureGroup, FixtureSelector, HomeableObject, Object, ObjectError,
    ParseError, RecordChannelTypeSelector, SetAttributeValue, Token, UpdateMode,
    UpdateSequenceCueArgsId, ValueOrRange,
};
use demex_core::parser::Parser2;

fn parse(tokens: &[Token]) -> Result<Action, ParseError> {
    let mut parser = Parser2::new(tokens);
    parser.parse()
}

fn s(text: &str) -> Token {
    Token::String(text.to_owned())
}

fn decimal(a: u32, b: u32) -> Token {
    Token::FloatingPoint(F32Bits(0), a, b)
}

#[test]
pub fn test_parser_basic() {
    // the tokens of `create sequence fader "My funny sequence"`
    let tokens = vec![
        Token::KeywordCreate,
        Token::KeywordSequence,
        Token::KeywordFader,
        s("My funny sequence"),
        Token::Eof,
    ];
    let action = parse(&tokens);
    match action {
        Err(ParseError::UnexpectedVariant(variants)) => {
            assert_eq!(variants.len(), 2);
            assert_eq!(variants[0].0, "function");
            assert!(matches!(
                &variants[0].1,
                ParseError::UnexpectedTokenAlternatives(Token::KeywordFader, alts)
                    if alts == &vec!["integer", "\"next\""]
            ));
            assert_eq!(variants[1].0, "object");
            assert!(matches!(
                &variants[1].1,
                ParseError::UnexpectedToken(Token::KeywordCreate, msg) if msg == "Expected object"
            ));
        },
        other => panic!("unexpected result {:?}", other),
    }
}

#[test]
fn set_range_to_full() {
    let tokens = vec![
        Token::Integer(1),
        Token::KeywordThru,
        Token::Integer(5),
        Token::KeywordIntens,
        Token::KeywordFull,
        Token::Eof,
    ];
    match parse(&tokens).unwrap() {
        Action::SetAttributeValue(args) => {
            assert!(matches!(
                args.fixture_selector,
                FixtureSelector::Atomic(AtomicFixtureSelector::FixtureRange(a, b))
                    if a.as_u32() == 1 && b.as_u32() == 5
            ));
            assert_eq!(args.attribute, FixtureChannel3Attribute::Dimmer);
            assert_eq!(
                args.attribute_value,
                Some(SetAttributeValue::Absolute(ValueOrRange::Single(F32Bits(F32Bits::FULL))))
            );
        },
        other => panic!("unexpected action {:?}", other),
    }
}

#[test]
fn set_selected_attribute_by_name() {
    let tokens = vec![s("Pan"), decimal(0, 5), Token::KeywordThru, Token::KeywordHalf, Token::Eof];
    match parse(&tokens).unwrap() {
        Action::SetAttributeValue(args) => {
            assert!(matches!(
                args.fixture_selector,
                FixtureSelector::Atomic(AtomicFixtureSelector::CurrentFixturesSelected)
            ));
            assert_eq!(args.attribute, FixtureChannel3Attribute::Pan);
            assert_eq!(
                args.attribute_value,
                Some(SetAttributeValue::Absolute(ValueOrRange::Thru(
                    F32Bits(0),
                    F32Bits(F32Bits::HALF)
                )))
            );
        },
        other => panic!("unexpected action {:?}", other),
    }
}

#[test]
fn home_without_object_homes_all() {
    assert!(matches!(parse(&[Token::KeywordHome, Token::Eof]).unwrap(), Action::HomeAll));
    assert!(matches!(
        parse(&[Token::KeywordHome, Token::KeywordExecutor, Token::Integer(3), Token::Eof]).unwrap(),
        Action::Home(HomeableObject::Executor(3))
    ));
}

#[test]
fn record_preset_for_selector() {
    let tokens = vec![
        Token::KeywordRecord,
        Token::KeywordPreset,
        decimal(1, 2),
        Token::KeywordFor,
        Token::Integer(1),
        Token::Plus,
        Token::Integer(2),
        Token::KeywordAs,
        s("x"),
        Token::Eof,
    ];
    match parse(&tokens).unwrap() {
        Action::RecordPreset(args) => {
            assert_eq!(args.id.feature_group, FixtureChannel3FeatureGroup::Dimmer);
            assert_eq!(args.id.preset_id, 2);
            assert!(matches!(
                args.fixture_selector,
                FixtureSelector::Additive(AtomicFixtureSelector::SingleFixture(a), rest)
                    if a.as_u32() == 1 && matches!(
                        *rest,
                        FixtureSelector::Atomic(AtomicFixtureSelector::SingleFixture(b)) if b.as_u32() == 2
                    )
            ));
            assert_eq!(args.name.as_deref(), Some("x"));
            assert!(!args.should_next);
        },
        other => panic!("unexpected action {:?}", other),
    }
}

#[test]
fn trailing_token_is_refused() {
    let tokens = vec![Token::Integer(1), Token::Integer(2), Token::Eof];
    assert!(matches!(
        parse(&tokens),
        Err(ParseError::UnexpectedToken(Token::Integer(2), msg)) if msg == "Expected EOF"
    ));
}

#[test]
fn selector_alone_selects() {
    let tokens = vec![Token::Integer(7), Token::Eof];
    assert!(matches!(
        parse(&tokens).unwrap(),
        Action::FixtureSelector(FixtureSelector::Atomic(AtomicFixtureSelector::SingleFixture(a)))
            if a.as_u32() == 7
    ));
}

#[test]
fn object_alone_is_edited() {
    let tokens = vec![Token::KeywordSequence, Token::Integer(3), Token::Eof];
    assert!(matches!(parse(&tokens).unwrap(), Action::Edit(Object::Sequence(3))));
}

#[test]
fn create_macro_holds_a_command() {
    let tokens = vec![
        Token::KeywordCreate,
        Token::KeywordMacro,
        Token::Integer(4),
        Token::KeywordWith,
        Token::KeywordClear,
        Token::KeywordAs,
        s("m"),
        Token::Eof,
    ];
    match parse(&tokens).unwrap() {
        Action::CreateMacro(args) => {
            assert_eq!(args.id, Some(4));
            assert!(matches!(*args.action, Action::ClearAll));
            assert_eq!(args.name.as_deref(), Some("m"));
        },
        other => panic!("unexpected action {:?}", other),
    }
}

#[test]
fn assign_executor_go_to_button() {
    let tokens = vec![
        Token::KeywordAssign,
        Token::KeywordExecutor,
        Token::Integer(1),
        Token::KeywordGo,
        Token::KeywordTo,
        decimal(0, 3),
        Token::Eof,
    ];
    match parse(&tokens).unwrap() {
        Action::AssignButton(args) => {
            assert!(matches!(args.mode, AssignButtonArgsMode::ExecutorGo(1)));
            assert_eq!(args.device_idx, 0);
            assert_eq!(args.button_id, 3);
        },
        other => panic!("unexpected action {:?}", other),
    }
}

#[test]
fn delete_range_of_mixed_objects_is_refused() {
    let tokens = vec![
        Token::KeywordDelete,
        Token::KeywordSequence,
        Token::Integer(1),
        Token::KeywordThru,
        Token::KeywordMacro,
        Token::Integer(2),
        Token::KeywordReally,
        Token::Eof,
    ];
    match parse(&tokens) {
        Err(ParseError::UnexpectedVariant(variants)) => {
            assert!(matches!(
                &variants[0].1,
                ParseError::ObjectError(ObjectError::ObjectVariantMismatch(
                    Object::Sequence(1),
                    Object::Macro(2)
                ))
            ));
        },
        other => panic!("unexpected result {:?}", other),
    }
}

#[test]
fn delete_sequence_range() {
    let tokens = vec![
        Token::KeywordDelete,
        Token::KeywordSequence,
        Token::Integer(1),
        Token::KeywordThru,
        Token::KeywordSequence,
        Token::Integer(4),
        Token::KeywordReally,
        Token::Eof,
    ];
    match parse(&tokens).unwrap() {
        Action::Delete(args) => {
            assert!(matches!(args.object_range.from(), Object::Sequence(1)));
            assert!(matches!(args.object_range.to(), Object::Sequence(4)));
            assert!(!args.object_range.is_single());
        },
        other => panic!("unexpected action {:?}", other),
    }
}

#[test]
fn update_sequence_cue_with_mode() {
    let tokens = vec![
        Token::KeywordUpdate,
        Token::KeywordSequence,
        Token::Integer(2),
        Token::KeywordCue,
        decimal(1, 5),
        Token::KeywordFor,
        Token::KeywordFixturesSelected,
        Token::KeywordOverride,
        Token::Eof,
    ];
    match parse(&tokens).unwrap() {
        Action::UpdateSequenceCue(args) => {
            assert_eq!(args.id, UpdateSequenceCueArgsId::SequenceId(2));
            assert_eq!(args.cue_idx, CueIdx(1, 5));
            assert!(matches!(args.channel_type_selector, RecordChannelTypeSelector::Active));
            assert_eq!(args.update_mode, UpdateMode::Override);
        },
        other => panic!("unexpected action {:?}", other),
    }
}

#[test]
fn cue_index_out_of_range() {
    let tokens = vec![
        Token::KeywordRecall,
        Token::KeywordSequence,
        Token::Integer(1),
        Token::KeywordCue,
        Token::Integer(70000),
        Token::Eof,
    ];
    match parse(&tokens) {
        Err(ParseError::UnexpectedVariant(variants)) => {
            assert!(matches!(variants[0].1, ParseError::TryFromIntError));
        },
        other => panic!("unexpected result {:?}", other),
    }
}

#[test]
fn record_cue_with_feature_list() {
    let tokens = vec![
        Token::KeywordRecord,
        Token::KeywordSequence,
        Token::Integer(1),
        Token::KeywordCue,
        Token::KeywordNext,
        Token::KeywordFor,
        Token::KeywordFixturesSelected,
        Token::KeywordWith,
        Token::ParenOpen,
        Token::KeywordIntens,
        Token::Comma,
        Token::KeywordIntens,
        Token::ParenClose,
        Token::Eof,
    ];
    match parse(&tokens).unwrap() {
        Action::RecordSequenceCue(args) => {
            assert_eq!(args.sequence_id, 1);
            assert_eq!(args.cue_idx, None);
            match args.channel_type_selector {
                RecordChannelTypeSelector::Features(list) => {
                    assert_eq!(
                        list.to_vec(),
                        vec![FixtureChannel3FeatureType::Dimmer, FixtureChannel3FeatureType::Dimmer]
                    );
                },
                other => panic!("unexpected selector {:?}", other),
            }
        },
        other => panic!("unexpected action {:?}", other),
    }
}

#[test]
fn selector_with_modulus() {
    let tokens = vec![
        Token::ParenOpen,
        Token::Integer(1),
        Token::Minus,
        Token::Integer(2),
        Token::ParenClose,
        Token::Percent,
        Token::Exclamation,
        Token::Integer(3),
        Token::Eof,
    ];
    let mut parser = Parser2::new(&tokens);
    match parser.parse_fixture_selector().unwrap() {
        FixtureSelector::Modulus(AtomicFixtureSelector::SelectorGroup(inner), 3, true) => {
            assert!(matches!(*inner, FixtureSelector::Subtractive(_, _)));
        },
        other => panic!("unexpected selector {:?}", other),
    }
}

#[test]
fn end_of_input() {
    assert!(matches!(parse(&[]), Err(ParseError::UnexpectedVariant(_))));
    let mut parser = Parser2::new(&[]);
    assert!(matches!(parser.parse_fixture_selector(), Err(ParseError::UnexpectedEndOfInput)));
}

#[test]
fn zero_fixture_id_is_refused() {
    let tokens = vec![Token::Integer(0), Token::Eof];
    let mut parser = Parser2::new(&tokens);
    assert!(matches!(
        parser.parse_fixture_selector(),
        Err(ParseError::UnexpectedToken(Token::Integer(0), msg)) if msg == "FixtureID"
    ));
}
