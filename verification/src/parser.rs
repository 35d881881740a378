//! The command parser: a recursive-descent parser over tokens.
//!
//! Each parse function has a specification `sp_*` that states, for a token
//! sequence and a position, the value parsed and the position after it, or
//! the error. A parse that fails at some alternative is retried at the same
//! position with the next alternative, as the command language asks.

use vstd::prelude::*;
use crate::attribute::{FixtureChannel3Attribute, FixtureChannel3FeatureType, attribute_of_string};
use crate::command::{
    Action, AssignButtonArgs, AssignButtonArgsMode, AssignFaderArgs, AssignFaderArgsMode,
    AtomicFixtureSelector, ConfigTypeActionData, CreateEffectPresetArgs, CreateExecutorArgs,
    CreateMacroArgs, CreateSequenceArgs, CueIdx, DeleteArgs, ExpectedParseSlice, F32Bits,
    FeatureTypeList, FixtureChannel3FeatureGroup, FixturePresetId, FixtureSelector,
    HomeableObject, MoveArgs, Object, ObjectError, ObjectRange, ObjectSetPropertyArgs,
    ParseError, ParseErrorView, RecallEffectKeyframeArgs, RecallSequenceCueArgs,
    RecordChannelTypeSelector, RecordGroupArgs, RecordPresetArgs, RecordSequenceCueArgs,
    RecordSequenceCueShorthandArgs, RecordSequenceCueShorthandArgsId, RenameObjectArgs,
    SelectionOrSelector, SetAttributeValue, SetAttributeValueArgs, SetFixturePresetArgs, Token,
    UpdateMode, UpdatePresetArgs, UpdatePresetGlobalArgs, UpdateSequenceCueArgs,
    UpdateSequenceCueArgsId, ValueOrRange, object_default_action, feature_group_of_id, feature_group_of_name, object_rangable,
    spec_object_range, variant_views,
};
use crate::fixture::{FixtureId, FixturePath, spec_fixture_id, spec_pair};

verus! {

broadcast use {crate::fixture::lemma_spec_fixture_id, crate::fixture::lemma_spec_pair};

/// The result of parsing at a position: the value with the position after
/// it, or the error with the position at which the parser stands after it.
pub type ParseOutcome<T> = Result<(T, int), (ParseErrorView, int)>;

/// The parse result `res`, with the parser at `pos` afterwards, is the
/// outcome `out`: the value and the position after it, or the error and
/// the position at which the parser stands after it.
pub open spec fn outcome<T>(res: Result<T, ParseError>, out: ParseOutcome<T>, pos: int) -> bool {
    match out {
        Ok((v, q)) => res == Ok::<T, ParseError>(v) && pos == q,
        Err((e, q)) => res is Err && res->Err_0@ == e && pos == q,
    }
}

/// The token at position `p`, or the end-of-input error.
pub open spec fn sp_tok(ts: Seq<Token>, p: int) -> Result<Token, (ParseErrorView, int)> {
    if 0 <= p < ts.len() {
        Ok(ts[p])
    } else {
        Err((ParseErrorView::UnexpectedEndOfInput, p))
    }
}

/// An `UnexpectedToken` error.
pub open spec fn unexpected(t: Token, msg: Seq<char>) -> ParseErrorView {
    ParseErrorView::UnexpectedToken(t, msg)
}

/// An integer.
pub open spec fn sp_integer(ts: Seq<Token>, p: int) -> ParseOutcome<u32> {
    match sp_tok(ts, p) {
        Err(e) => Err(e),
        Ok(Token::Integer(v)) => Ok((v, p + 1)),
        Ok(t) => Err((unexpected(t, "Expected integer"@), p)),
    }
}

/// A fixture id, from an integer token that is not zero.
pub open spec fn fixture_id_or(t: Token, v: u32) -> Result<FixtureId, ParseErrorView> {
    if v == 0 {
        Err(unexpected(t, "FixtureID"@))
    } else {
        Ok(spec_fixture_id(v))
    }
}

/// An atomic fixture selector: `~`, a fixture id or id range, a fixture
/// path (`a.b`) or path range, a parenthesised selector, or a group.
pub open spec fn sp_atomic(ts: Seq<Token>, p: int) -> ParseOutcome<AtomicFixtureSelector>
    decreases ts.len() - p, 0int,
{
    if p < 0 || p >= ts.len() {
        Err((ParseErrorView::UnexpectedEndOfInput, p))
    } else {
        match ts[p] {
            Token::KeywordFixturesSelected => Ok(
                (AtomicFixtureSelector::CurrentFixturesSelected, p + 1),
            ),
            Token::FloatingPoint(_, a, b) => if a == 0 || b == 0 {
                Err((unexpected(ts[p], "FixtureID"@), p))
            } else {
                let from_path = spec_pair(a, b);
                match sp_tok(ts, p + 1) {
                    Err(e) => Err(e),
                    Ok(Token::KeywordThru) => match sp_tok(ts, p + 2) {
                        Err(e) => Err(e),
                        Ok(Token::Integer(f2)) => match fixture_id_or(ts[p + 2], f2) {
                            Err(e) => Err((e, p + 2)),
                            Ok(to) => Ok((AtomicFixtureSelector::FixturePathRange(from_path, to), p + 3)),
                        },
                        Ok(t) => Err((unexpected(t, "Expected integer"@), p + 2)),
                    },
                    Ok(_) => Ok((AtomicFixtureSelector::SingleFixturePath(from_path), p + 1)),
                }
            },
            Token::Integer(f1) => match fixture_id_or(ts[p], f1) {
                Err(e) => Err((e, p)),
                Ok(from) => match sp_tok(ts, p + 1) {
                    Err(e) => Err(e),
                    Ok(Token::KeywordThru) => match sp_tok(ts, p + 2) {
                        Err(e) => Err(e),
                        Ok(Token::Integer(f2)) => match fixture_id_or(ts[p + 2], f2) {
                            Err(e) => Err((e, p + 2)),
                            Ok(to) => Ok((AtomicFixtureSelector::FixtureRange(from, to), p + 3)),
                        },
                        Ok(t) => Err((unexpected(t, "Expected integer"@), p + 2)),
                    },
                    Ok(_) => Ok((AtomicFixtureSelector::SingleFixture(from), p + 1)),
                },
            },
            Token::ParenOpen => match sp_selector(ts, p + 1) {
                Err(e) => Err(e),
                Ok((fs, q)) => match sp_tok(ts, q) {
                    Err(e) => Err(e),
                    Ok(Token::ParenClose) => Ok(
                        (AtomicFixtureSelector::SelectorGroup(Box::new(fs)), q + 1),
                    ),
                    Ok(t) => Err((unexpected(t, "Expected closing parenthesis"@), q)),
                },
            },
            Token::KeywordGroup => match sp_tok(ts, p + 1) {
                Err(e) => Err(e),
                Ok(Token::Integer(group_id)) => Ok(
                    (AtomicFixtureSelector::FixtureGroup(group_id), p + 2),
                ),
                Ok(t) => Err((unexpected(t, "Expected integer"@), p + 1)),
            },
            t => Err((
                ParseErrorView::UnexpectedTokenAlternatives(
                    t,
                    seq!["\"~\"", "integer", "\"(\"", "\"group\""],
                ),
                p,
            )),
        }
    }
}

/// A fixture selector: an atomic selector, optionally followed by `+` or
/// `-` and a further selector, or by `%`, an optional `!` and a divisor.
pub open spec fn sp_selector(ts: Seq<Token>, p: int) -> ParseOutcome<FixtureSelector>
    decreases ts.len() - p, 1int,
{
    if p < 0 || p > ts.len() {
        Err((ParseErrorView::UnexpectedEndOfInput, p))
    } else {
        match sp_atomic(ts, p) {
            Err(e) => Err(e),
            Ok((a, q)) => if q <= p || q > ts.len() {
                Err((ParseErrorView::UnexpectedEndOfInput, q))
            } else {
                match sp_tok(ts, q) {
                    Err(e) => Err(e),
                    Ok(Token::Plus) => match sp_selector(ts, q + 1) {
                        Err(e) => Err(e),
                        Ok((rest, r)) => Ok((FixtureSelector::Additive(a, Box::new(rest)), r)),
                    },
                    Ok(Token::Minus) => match sp_selector(ts, q + 1) {
                        Err(e) => Err(e),
                        Ok((rest, r)) => Ok((FixtureSelector::Subtractive(a, Box::new(rest)), r)),
                    },
                    Ok(Token::Percent) => match sp_tok(ts, q + 1) {
                        Err(e) => Err(e),
                        Ok(t1) => {
                            let inverted = t1 is Exclamation;
                            let r = if inverted {
                                q + 2
                            } else {
                                q + 1
                            };
                            match sp_tok(ts, r) {
                                Err(e) => Err(e),
                                Ok(Token::Integer(d)) => Ok(
                                    (FixtureSelector::Modulus(a, d, inverted), r + 1),
                                ),
                                Ok(t) => Err((
                                    ParseErrorView::UnexpectedTokenAlternatives(
                                        t,
                                        seq!["integer", "\"!\""],
                                    ),
                                    r,
                                )),
                            }
                        },
                    },
                    Ok(_) => Ok((FixtureSelector::Atomic(a), q)),
                }
            },
        }
    }
}

/// The word or sign `expected` (a token without a value); `msg` is the error
/// text when another token stands there.
pub open spec fn sp_expect(ts: Seq<Token>, p: int, expected: Token, msg: Seq<char>) -> ParseOutcome<()> {
    match sp_tok(ts, p) {
        Err(e) => Err(e),
        Ok(t) => if t == expected {
            Ok(((), p + 1))
        } else {
            Err((unexpected(t, msg), p))
        },
    }
}

/// A homeable object: a fixture selector, an executor (not followed by
/// `cue`), or the programmer.
pub open spec fn sp_homeable(ts: Seq<Token>, p: int) -> ParseOutcome<HomeableObject> {
    match sp_selector(ts, p) {
        Ok((fs, q)) => Ok((HomeableObject::FixtureSelector(fs), q)),
        Err(_) => match sp_tok(ts, p) {
            Err(e) => Err(e),
            Ok(Token::KeywordExecutor) => match sp_integer(ts, p + 1) {
                Err(e) => Err(e),
                Ok((executor_id, q)) => match sp_tok(ts, q) {
                    Err(e) => Err(e),
                    Ok(Token::KeywordCue) => Err((unexpected(ts[q], "Expected not 'cue'"@), q)),
                    Ok(_) => Ok((HomeableObject::Executor(executor_id), q)),
                },
            },
            Ok(Token::KeywordProgrammer) => Ok((HomeableObject::Programmer, p + 1)),
            Ok(t) => Err((unexpected(t, "Expected homeable object"@), p)),
        },
    }
}

/// A cue index: an integer `a` (cue `a.0`) or a decimal `a.b`, each part
/// fitting 16 bits.
pub open spec fn sp_cue_idx(ts: Seq<Token>, p: int) -> ParseOutcome<CueIdx> {
    match sp_tok(ts, p) {
        Err(e) => Err(e),
        Ok(Token::Integer(v)) => if v > 0xffff {
            Err((ParseErrorView::TryFromIntError, p + 1))
        } else {
            Ok((CueIdx(v as u16, 0), p + 1))
        },
        Ok(Token::FloatingPoint(_, major, minor)) => if major > 0xffff || minor > 0xffff {
            Err((ParseErrorView::TryFromIntError, p + 1))
        } else {
            Ok((CueIdx(major as u16, minor as u16), p + 1))
        },
        Ok(t) => Err((
            ParseErrorView::UnexpectedTokenAlternatives(
                t,
                seq!["cue index (a / a.b)", "\"next\""],
            ),
            p,
        )),
    }
}

/// A preset id: a feature group name and a number, or `group.preset`.
pub open spec fn sp_preset_id(ts: Seq<Token>, p: int) -> ParseOutcome<FixturePresetId> {
    match sp_tok(ts, p) {
        Err(e) => Err(e),
        Ok(Token::String(name)) => match feature_group_of_name(name@) {
            None => Err((ParseErrorView::UnexpectedArgs("Expected feature group name"@), p)),
            Some(g) => match sp_integer(ts, p + 1) {
                Err(e) => Err(e),
                Ok((id, q)) => Ok((FixturePresetId { feature_group: g, preset_id: id }, q)),
            },
        },
        Ok(Token::FloatingPoint(_, group_id, preset_id)) => match feature_group_of_id(group_id) {
            None => Err((ParseErrorView::UnexpectedArgs("Expected feature group id"@), p + 1)),
            Some(g) => Ok((FixturePresetId { feature_group: g, preset_id }, p + 1)),
        },
        Ok(t) => Err((unexpected(t, "Expected preset id (feature_group_id.preset_id)"@), p)),
    }
}

/// An object: a homeable object, a sequence or one of its cues, an
/// executor's cue, a preset, or a macro.
pub open spec fn sp_object(ts: Seq<Token>, p: int) -> ParseOutcome<Object> {
    match sp_homeable(ts, p) {
        Ok((h, q)) => Ok((Object::HomeableObject(h), q)),
        Err(_) => match sp_tok(ts, p) {
            Err(e) => Err(e),
            Ok(Token::KeywordSequence) => match sp_integer(ts, p + 1) {
                Err(e) => Err(e),
                Ok((sequence_id, q)) => match sp_tok(ts, q) {
                    Err(e) => Err(e),
                    Ok(Token::KeywordCue) => match sp_cue_idx(ts, q + 1) {
                        Err(e) => Err(e),
                        Ok((cue_idx, r)) => Ok((Object::SequenceCue(sequence_id, cue_idx), r)),
                    },
                    Ok(_) => Ok((Object::Sequence(sequence_id), q)),
                },
            },
            Ok(Token::KeywordExecutor) => match sp_integer(ts, p + 1) {
                Err(e) => Err(e),
                Ok((executor_id, q)) => match sp_expect(ts, q, Token::KeywordCue, "Expected cue"@) {
                    Err(e) => Err(e),
                    Ok((_, q1)) => match sp_cue_idx(ts, q1) {
                        Err(e) => Err(e),
                        Ok((cue_idx, r)) => Ok((Object::ExecutorCue(executor_id, cue_idx), r)),
                    },
                },
            },
            Ok(Token::KeywordPreset) => match sp_preset_id(ts, p + 1) {
                Err(e) => Err(e),
                Ok((preset_id, q)) => Ok((Object::Preset(preset_id), q)),
            },
            Ok(Token::KeywordMacro) => match sp_integer(ts, p + 1) {
                Err(e) => Err(e),
                Ok((macro_id, q)) => Ok((Object::Macro(macro_id), q)),
            },
            Ok(t) => Err((unexpected(t, "Expected object"@), p)),
        },
    }
}

/// An object, or a range of two objects joined by `thru`.
pub open spec fn sp_object_or_range(ts: Seq<Token>, p: int) -> ParseOutcome<ObjectRange> {
    match sp_object(ts, p) {
        Err(e) => Err(e),
        Ok((from, q)) => match sp_tok(ts, q) {
            Err(e) => Err(e),
            Ok(Token::KeywordThru) => match sp_object(ts, q + 1) {
                Err(e) => Err(e),
                Ok((to, r)) => if object_rangable(from, to) {
                    Ok((spec_object_range(from, to), r))
                } else {
                    Err((ParseErrorView::ObjectError(ObjectError::ObjectVariantMismatch(from, to)), r))
                },
            },
            Ok(_) => Ok((spec_object_range(from, from), q)),
        },
    }
}

/// The arguments of `home`: a homeable object, or nothing (home all).
pub open spec fn sp_home_function(ts: Seq<Token>, p: int) -> ParseOutcome<Action> {
    match sp_homeable(ts, p) {
        Ok((o, q)) => Ok((Action::Home(o), q)),
        Err(_) => Ok((Action::HomeAll, p)),
    }
}

/// An attribute: `intens` (the dimmer) or an attribute name.
pub open spec fn sp_attribute(ts: Seq<Token>, p: int) -> ParseOutcome<FixtureChannel3Attribute> {
    match sp_tok(ts, p) {
        Err(e) => Err(e),
        Ok(Token::KeywordIntens) => Ok((FixtureChannel3Attribute::Dimmer, p + 1)),
        Ok(Token::String(s)) => Ok((attribute_of_string(s), p + 1)),
        Ok(t) => Err((
            ParseErrorView::UnexpectedTokenAlternatives(t, seq!["\"intens\"", "String"]),
            p,
        )),
    }
}

/// A feature type: `intens` (the dimmer).
pub open spec fn sp_feature_type(ts: Seq<Token>, p: int) -> ParseOutcome<FixtureChannel3FeatureType> {
    match sp_tok(ts, p) {
        Err(e) => Err(e),
        Ok(Token::KeywordIntens) => Ok((FixtureChannel3FeatureType::Dimmer, p + 1)),
        Ok(t) => Err((ParseErrorView::UnexpectedTokenAlternatives(t, seq!["\"intens\""]), p)),
    }
}

/// The feature types of a list after its `(`: feature types separated by
/// commas, up to the closing `)`.
pub open spec fn sp_feature_items(ts: Seq<Token>, p: int) -> ParseOutcome<FeatureTypeList>
    decreases ts.len() - p,
{
    if p < 0 || p >= ts.len() {
        Err((ParseErrorView::UnexpectedEndOfInput, p))
    } else {
        match sp_feature_type(ts, p) {
            Err(e) => Err(e),
            Ok((ft, q)) => match sp_tok(ts, q) {
                Err(e) => Err(e),
                Ok(Token::ParenClose) => Ok(
                    (FeatureTypeList::Cons(ft, Box::new(FeatureTypeList::Empty)), q + 1),
                ),
                Ok(Token::Comma) => match sp_feature_items(ts, q + 1) {
                    Err(e) => Err(e),
                    Ok((rest, r)) => Ok((FeatureTypeList::Cons(ft, Box::new(rest)), r)),
                },
                Ok(t) => Err((unexpected(t, "Expected ,"@), q)),
            },
        }
    }
}

/// A parenthesised, comma-separated list of feature types.
pub open spec fn sp_feature_type_list(ts: Seq<Token>, p: int) -> ParseOutcome<FeatureTypeList> {
    match sp_expect(ts, p, Token::ParenOpen, "Expected ("@) {
        Err(e) => Err(e),
        Ok((_, q)) => match sp_tok(ts, q) {
            Err(e) => Err(e),
            Ok(Token::ParenClose) => Ok((FeatureTypeList::Empty, q + 1)),
            Ok(_) => sp_feature_items(ts, q),
        },
    }
}

/// `preset` and a preset id.
pub open spec fn sp_specific_preset(ts: Seq<Token>, p: int) -> ParseOutcome<FixturePresetId> {
    match sp_expect(ts, p, Token::KeywordPreset, "Expected \"preset\""@) {
        Err(e) => Err(e),
        Ok((_, q)) => sp_preset_id(ts, q),
    }
}

/// A preset, or a range of two presets joined by `thru`.
pub open spec fn sp_specific_preset_or_range(ts: Seq<Token>, p: int) -> ParseOutcome<
    ValueOrRange<FixturePresetId>,
> {
    match sp_specific_preset(ts, p) {
        Err(e) => Err(e),
        Ok((a, q)) => match sp_tok(ts, q) {
            Err(e) => Err(e),
            Ok(Token::KeywordThru) => match sp_specific_preset(ts, q + 1) {
                Err(e) => Err(e),
                Ok((b, r)) => Ok((ValueOrRange::Thru(a, b), r)),
            },
            Ok(_) => Ok((ValueOrRange::Single(a), q)),
        },
    }
}

/// A channel value: `full` (1.0), `half` (0.5), `out` (0.0) or a decimal.
pub open spec fn sp_discrete_value(ts: Seq<Token>, p: int) -> ParseOutcome<F32Bits> {
    match sp_tok(ts, p) {
        Err(e) => Err(e),
        Ok(Token::KeywordFull) => Ok((F32Bits(F32Bits::FULL), p + 1)),
        Ok(Token::KeywordHalf) => Ok((F32Bits(F32Bits::HALF), p + 1)),
        Ok(Token::KeywordOut) => Ok((F32Bits(F32Bits::OUT), p + 1)),
        Ok(Token::FloatingPoint(v, _, _)) => Ok((v, p + 1)),
        Ok(t) => Err((
            ParseErrorView::UnexpectedTokenAlternatives(
                t,
                seq!["\"full\"", "\"half\"", "\"out\"", "floating point value"],
            ),
            p,
        )),
    }
}

/// `home` (no value), a channel value, or a range of two values.
pub open spec fn sp_channel_value_single(ts: Seq<Token>, p: int) -> ParseOutcome<
    Option<ValueOrRange<F32Bits>>,
> {
    match sp_tok(ts, p) {
        Err(e) => Err(e),
        Ok(Token::KeywordHome) => Ok((None, p + 1)),
        Ok(_) => match sp_discrete_value(ts, p) {
            Err(e) => Err(e),
            Ok((a, q)) => match sp_tok(ts, q) {
                Err(e) => Err(e),
                Ok(Token::KeywordThru) => match sp_discrete_value(ts, q + 1) {
                    Err(e) => Err(e),
                    Ok((b, r)) => Ok((Some(ValueOrRange::Thru(a, b)), r)),
                },
                Ok(_) => Ok((Some(ValueOrRange::Single(a)), q)),
            },
        },
    }
}

/// An absolute set value for an optional value.
pub open spec fn absolute(v: Option<ValueOrRange<F32Bits>>) -> Option<SetAttributeValue> {
    match v {
        Some(x) => Some(SetAttributeValue::Absolute(x)),
        None => None,
    }
}

/// Setting an attribute of the selected fixtures: an attribute and a value.
pub open spec fn sp_currently_selected_set(ts: Seq<Token>, p: int) -> ParseOutcome<Action> {
    match sp_attribute(ts, p) {
        Err(e) => Err(e),
        Ok((attribute, q)) => match sp_channel_value_single(ts, q) {
            Err(e) => Err(e),
            Ok((v, r)) => Ok(
                (
                    Action::SetAttributeValue(
                        SetAttributeValueArgs {
                            fixture_selector: FixtureSelector::Atomic(
                                AtomicFixtureSelector::CurrentFixturesSelected,
                            ),
                            attribute,
                            attribute_value: absolute(v),
                        },
                    ),
                    r,
                ),
            ),
        },
    }
}

/// What follows a fixture selector: a preset (or preset range) to apply, or
/// an attribute and a value to set.
pub open spec fn sp_set_function(ts: Seq<Token>, p: int, fs: FixtureSelector) -> ParseOutcome<Action> {
    match sp_specific_preset_or_range(ts, p) {
        Ok((preset_id, q)) => Ok(
            (
                Action::SetFixturePreset(
                    SetFixturePresetArgs {
                        selection_or_selector: SelectionOrSelector::Selector(fs),
                        preset_id,
                    },
                ),
                q,
            ),
        ),
        Err((e1, _)) => match sp_attribute(ts, p) {
            Err(e) => Err(e),
            Ok((attribute, q)) => match sp_channel_value_single(ts, q) {
                Ok((v, r)) => Ok(
                    (
                        Action::SetAttributeValue(
                            SetAttributeValueArgs {
                                fixture_selector: fs,
                                attribute,
                                attribute_value: absolute(v),
                            },
                        ),
                        r,
                    ),
                ),
                Err((e2, _)) => Err((
                    ParseErrorView::UnexpectedVariant(
                        seq![
                            ("\"preset\" <channel_type> <id>"@, e1),
                            ("discrete channel value"@, e2),
                        ],
                    ),
                    q,
                )),
            },
        },
    }
}

/// A string.
pub open spec fn sp_string(ts: Seq<Token>, p: int) -> ParseOutcome<String> {
    match sp_tok(ts, p) {
        Err(e) => Err(e),
        Ok(Token::String(name)) => Ok((name, p + 1)),
        Ok(t) => Err((unexpected(t, "Expected string"@), p)),
    }
}

/// A string if one stands at `p`.
pub open spec fn sp_optional_string(ts: Seq<Token>, p: int) -> ParseOutcome<Option<String>> {
    match sp_tok(ts, p) {
        Err(e) => Err(e),
        Ok(Token::String(name)) => Ok((Some(name), p + 1)),
        Ok(_) => Ok((None, p)),
    }
}

/// `as` and a name.
pub open spec fn sp_as(ts: Seq<Token>, p: int) -> ParseOutcome<String> {
    match sp_expect(ts, p, Token::KeywordAs, "Expected \"as\""@) {
        Err(e) => Err(e),
        Ok((_, q)) => sp_string(ts, q),
    }
}

/// An optional `as` and a name.
pub open spec fn sp_optional_as(ts: Seq<Token>, p: int) -> (Option<String>, int) {
    match sp_as(ts, p) {
        Ok((name, q)) => (Some(name), q),
        Err(_) => (None, p),
    }
}

/// A decimal's value.
pub open spec fn sp_float(ts: Seq<Token>, p: int) -> ParseOutcome<F32Bits> {
    match sp_tok(ts, p) {
        Err(e) => Err(e),
        Ok(Token::FloatingPoint(f, _, _)) => Ok((f, p + 1)),
        Ok(t) => Err((unexpected(t, "Expected float"@), p)),
    }
}

/// A decimal's integer and fraction digits.
pub open spec fn sp_float_individual(ts: Seq<Token>, p: int) -> ParseOutcome<(u32, u32)> {
    match sp_tok(ts, p) {
        Err(e) => Err(e),
        Ok(Token::FloatingPoint(_, n, frac)) => Ok(((n, frac), p + 1)),
        Ok(t) => Err((unexpected(t, "Expected float"@), p)),
    }
}

/// An input button id: device and button, written as a decimal.
pub open spec fn sp_button_id(ts: Seq<Token>, p: int, is_unassign: bool) -> ParseOutcome<(u32, u32)> {
    match sp_float_individual(ts, p) {
        Ok(x) => Ok(x),
        Err((e, q)) => Err((
            ParseErrorView::Expected(
                Box::new(e),
                seq![ExpectedParseSlice::ButtonId { is_unassign }],
            ),
            q,
        )),
    }
}

/// An input fader id: device and fader, written as a decimal.
pub open spec fn sp_fader_id(ts: Seq<Token>, p: int, is_unassign: bool) -> ParseOutcome<(u32, u32)> {
    match sp_float_individual(ts, p) {
        Ok(x) => Ok(x),
        Err((e, q)) => Err((
            ParseErrorView::Expected(
                Box::new(e),
                seq![ExpectedParseSlice::FaderId { is_unassign }],
            ),
            q,
        )),
    }
}

/// An integer, or a range of two integers joined by `thru`.
pub open spec fn sp_integer_or_range(ts: Seq<Token>, p: int) -> ParseOutcome<(u32, u32)> {
    match sp_integer(ts, p) {
        Err(e) => Err(e),
        Ok((start, q)) => match sp_tok(ts, q) {
            Err(e) => Err(e),
            Ok(Token::KeywordThru) => match sp_integer(ts, q + 1) {
                Err(e) => Err(e),
                Ok((end, r)) => Ok(((start, end), r)),
            },
            Ok(_) => Ok(((start, start), q)),
        },
    }
}

/// An integer, or `next` (no number).
pub open spec fn sp_integer_or_next(ts: Seq<Token>, p: int) -> ParseOutcome<Option<u32>> {
    match sp_tok(ts, p) {
        Err(e) => Err(e),
        Ok(Token::Integer(v)) => Ok((Some(v), p + 1)),
        Ok(Token::KeywordNext) => Ok((None, p + 1)),
        Ok(t) => Err((ParseErrorView::UnexpectedTokenAlternatives(t, seq!["integer", "\"next\""]), p)),
    }
}

/// A cue index, or `next` (no index).
pub open spec fn sp_cue_idx_or_next(ts: Seq<Token>, p: int) -> ParseOutcome<Option<CueIdx>> {
    match sp_cue_idx(ts, p) {
        Ok((c, q)) => Ok((Some(c), q)),
        Err(_) => match sp_tok(ts, p) {
            Err(e) => Err(e),
            Ok(Token::KeywordNext) => Ok((None, p + 1)),
            Ok(t) => Err((
                ParseErrorView::UnexpectedTokenAlternatives(
                    t,
                    seq!["cue index (a / a.b)", "\"next\""],
                ),
                p,
            )),
        },
    }
}

/// `merge` or `override`.
pub open spec fn sp_update_mode(ts: Seq<Token>, p: int) -> ParseOutcome<UpdateMode> {
    match sp_tok(ts, p) {
        Err(e) => Err(e),
        Ok(Token::KeywordMerge) => Ok((UpdateMode::Merge, p + 1)),
        Ok(Token::KeywordOverride) => Ok((UpdateMode::Override, p + 1)),
        Ok(t) => Err((
            ParseErrorView::UnexpectedTokenAlternatives(t, seq!["\"merge\"", "\"override\""]),
            p,
        )),
    }
}

/// The update mode if one stands at `p`, else merge.
pub open spec fn sp_optional_update_mode(ts: Seq<Token>, p: int) -> (UpdateMode, int) {
    match sp_update_mode(ts, p) {
        Ok((m, q)) => (m, q),
        Err(_) => (UpdateMode::Merge, p),
    }
}

/// `all`, `active`, or a list of feature types.
pub open spec fn sp_record_channel_type_selector(ts: Seq<Token>, p: int) -> ParseOutcome<
    RecordChannelTypeSelector,
> {
    match sp_tok(ts, p) {
        Err(e) => Err(e),
        Ok(Token::KeywordAll) => Ok((RecordChannelTypeSelector::All, p + 1)),
        Ok(Token::KeywordActive) => Ok((RecordChannelTypeSelector::Active, p + 1)),
        Ok(_) => match sp_feature_type_list(ts, p) {
            Err(e) => Err(e),
            Ok((l, q)) => Ok((RecordChannelTypeSelector::Features(l), q)),
        },
    }
}

/// An optional `with` clause naming the channels to take (active ones when
/// there is none).
pub open spec fn sp_with_channel_types(ts: Seq<Token>, p: int) -> ParseOutcome<
    RecordChannelTypeSelector,
> {
    match sp_tok(ts, p) {
        Err(e) => Err(e),
        Ok(Token::KeywordWith) => sp_record_channel_type_selector(ts, p + 1),
        Ok(_) => Ok((RecordChannelTypeSelector::Active, p)),
    }
}


/// After `executor` and its number in `record`: `next` (the next cue, an
/// older form), `cue` and a cue index or `next`, or nothing (the next cue).
pub open spec fn sp_record_executor_cue(ts: Seq<Token>, p: int) -> ParseOutcome<Option<CueIdx>> {
    match sp_tok(ts, p) {
        Err(e) => Err(e),
        Ok(Token::KeywordNext) => Ok((None, p + 1)),
        Ok(Token::KeywordCue) => sp_cue_idx_or_next(ts, p + 1),
        Ok(_) => Ok((None, p)),
    }
}

/// The arguments of `record`: a preset, a group, a sequence cue, or an
/// executor's cue, each `for` a fixture selector.
pub open spec fn sp_record(ts: Seq<Token>, p: int) -> ParseOutcome<Action> {
    match sp_tok(ts, p) {
        Err(e) => Err(e),
        Ok(Token::KeywordPreset) => match sp_preset_id(ts, p + 1) {
            Err(e) => Err(e),
            Ok((id, q)) => match sp_expect(ts, q, Token::KeywordFor, "Expected \"for\""@) {
                Err(e) => Err(e),
                Ok((_, q1)) => match sp_selector(ts, q1) {
                    Err(e) => Err(e),
                    Ok((fixture_selector, q2)) => {
                        let (name, q3) = sp_optional_as(ts, q2);
                        match sp_tok(ts, q3) {
                            Err(e) => Err(e),
                            Ok(Token::KeywordNext) => Ok(
                                (
                                    Action::RecordPreset(
                                        RecordPresetArgs { id, fixture_selector, name, should_next: true },
                                    ),
                                    q3 + 1,
                                ),
                            ),
                            Ok(_) => Ok(
                                (
                                    Action::RecordPreset(
                                        RecordPresetArgs { id, fixture_selector, name, should_next: false },
                                    ),
                                    q3,
                                ),
                            ),
                        }
                    },
                },
            },
        },
        Ok(Token::KeywordGroup) => match sp_integer_or_next(ts, p + 1) {
            Err(e) => Err(e),
            Ok((id, q)) => match sp_expect(ts, q, Token::KeywordFor, "Expected \"for\""@) {
                Err(e) => Err(e),
                Ok((_, q1)) => match sp_selector(ts, q1) {
                    Err(e) => Err(e),
                    Ok((fixture_selector, q2)) => {
                        let (name, q3) = sp_optional_as(ts, q2);
                        Ok((Action::RecordGroup2(RecordGroupArgs { id, fixture_selector, name }), q3))
                    },
                },
            },
        },
        Ok(Token::KeywordSequence) => match sp_integer(ts, p + 1) {
            Err(e) => Err(e),
            Ok((sequence_id, q)) => match sp_expect(ts, q, Token::KeywordCue, "Expected \"cue\""@) {
                Err(e) => Err(e),
                Ok((_, q1)) => match sp_cue_idx_or_next(ts, q1) {
                    Err(e) => Err(e),
                    Ok((cue_idx, q2)) => match sp_expect(
                        ts,
                        q2,
                        Token::KeywordFor,
                        "Expected \"for\""@,
                    ) {
                        Err(e) => Err(e),
                        Ok((_, q3)) => match sp_selector(ts, q3) {
                            Err(e) => Err(e),
                            Ok((fixture_selector, q4)) => match sp_with_channel_types(ts, q4) {
                                Err(e) => Err(e),
                                Ok((channel_type_selector, q5)) => Ok(
                                    (
                                        Action::RecordSequenceCue(
                                            RecordSequenceCueArgs {
                                                sequence_id,
                                                cue_idx,
                                                fixture_selector,
                                                channel_type_selector,
                                            },
                                        ),
                                        q5,
                                    ),
                                ),
                            },
                        },
                    },
                },
            },
        },
        Ok(Token::KeywordExecutor) => match sp_integer(ts, p + 1) {
            Err(e) => Err(e),
            Ok((id, q)) => match sp_record_executor_cue(ts, q) {
                Err(e) => Err(e),
                Ok((cue_idx, q1)) => match sp_expect(ts, q1, Token::KeywordFor, "Expected \"for\""@) {
                    Err(e) => Err(e),
                    Ok((_, q2)) => match sp_selector(ts, q2) {
                        Err(e) => Err(e),
                        Ok((fixture_selector, q3)) => match sp_with_channel_types(ts, q3) {
                            Err(e) => Err(e),
                            Ok((channel_type_selector, q4)) => {
                                let (sequence_name, q5) = sp_optional_as(ts, q4);
                                Ok(
                                    (
                                        Action::RecordSequenceCueShorthand(
                                            RecordSequenceCueShorthandArgs {
                                                id: RecordSequenceCueShorthandArgsId::ExecutorId(id),
                                                cue_idx,
                                                fixture_selector,
                                                channel_type_selector,
                                                sequence_name,
                                            },
                                        ),
                                        q5,
                                    ),
                                )
                            },
                        },
                    },
                },
            },
        },
        Ok(t) => Err((
            ParseErrorView::UnexpectedTokenAlternatives(
                t,
                seq!["\"preset\"", "\"group\"", "\"sequence\"", "\"executor\""],
            ),
            p,
        )),
    }
}

/// The arguments of `rename`: an object, `to` and the new name.
pub open spec fn sp_rename(ts: Seq<Token>, p: int) -> ParseOutcome<Action> {
    match sp_object(ts, p) {
        Err(e) => Err(e),
        Ok((object, q)) => match sp_expect(ts, q, Token::KeywordTo, "Expected \"to\""@) {
            Err(e) => Err(e),
            Ok((_, q1)) => match sp_string(ts, q1) {
                Err(e) => Err(e),
                Ok((new_name, q2)) => Ok((Action::Rename(RenameObjectArgs { object, new_name }), q2)),
            },
        },
    }
}

/// The arguments of `create`: a sequence, an executor for a sequence, a
/// macro holding a command, or an effect preset.
pub open spec fn sp_create(ts: Seq<Token>, p: int) -> ParseOutcome<Action>
    decreases ts.len() - p, 1int,
{
    if p < 0 || p >= ts.len() {
        Err((ParseErrorView::UnexpectedEndOfInput, p))
    } else {
        match ts[p] {
            Token::KeywordSequence => match sp_integer_or_next(ts, p + 1) {
                Err(e) => Err(e),
                Ok((id, q)) => {
                    let (name, q1) = sp_optional_as(ts, q);
                    Ok((Action::CreateSequence(CreateSequenceArgs { id, name }), q1))
                },
            },
            Token::KeywordExecutor => match sp_integer_or_next(ts, p + 1) {
                Err(e) => Err(e),
                Ok((id, q)) => match sp_expect(ts, q, Token::KeywordFor, "Expected \"for\""@) {
                    Err(e) => Err(e),
                    Ok((_, q1)) => match sp_expect(
                        ts,
                        q1,
                        Token::KeywordSequence,
                        "Expected \"sequence\""@,
                    ) {
                        Err(e) => Err(e),
                        Ok((_, q2)) => match sp_integer(ts, q2) {
                            Err(e) => Err(e),
                            Ok((sequence_id, q3)) => Ok(
                                (Action::CreateExecutor(CreateExecutorArgs { id, sequence_id }), q3),
                            ),
                        },
                    },
                },
            },
            Token::KeywordMacro => match sp_integer_or_next(ts, p + 1) {
                Err(e) => Err(e),
                Ok((id, q)) => match sp_expect(ts, q, Token::KeywordWith, "Expected \"with\""@) {
                    Err(e) => Err(e),
                    Ok((_, q1)) => match sp_command(ts, q1) {
                        Err(e) => Err(e),
                        Ok((action, q2)) => {
                            let (name, q3) = sp_optional_as(ts, q2);
                            Ok(
                                (
                                    Action::CreateMacro(
                                        CreateMacroArgs { id, action: Box::new(action), name },
                                    ),
                                    q3,
                                ),
                            )
                        },
                    },
                },
            },
            Token::KeywordPreset => match sp_float_individual(ts, p + 1) {
                Err(e) => Err(e),
                Ok(((feature_group_id, preset_id), q)) => {
                    let (name, q1) = sp_optional_as(ts, q);
                    match feature_group_of_id(feature_group_id) {
                        None => Err((ParseErrorView::UnexpectedArgs("Expected feature group id"@), q1)),
                        Some(feature_group) => Ok(
                            (
                                Action::CreateEffectPreset(
                                    CreateEffectPresetArgs {
                                        id: FixturePresetId { feature_group, preset_id },
                                        name,
                                    },
                                ),
                                q1,
                            ),
                        ),
                    }
                },
            },
            t => Err((
                ParseErrorView::UnexpectedTokenAlternatives(
                    t,
                    seq!["\"sequence\"", "\"executor\"", "\"macro\"", "\"fader\""],
                ),
                p,
            )),
        }
    }
}

/// The id an update of a sequence cue names: a sequence or an executor.
pub open spec fn cue_args_id(keyword: Token, id: u32) -> UpdateSequenceCueArgsId {
    if keyword is KeywordSequence {
        UpdateSequenceCueArgsId::SequenceId(id)
    } else {
        UpdateSequenceCueArgsId::ExecutorId(id)
    }
}

/// After a preset id in `update`: `keyframe` and a number, or nothing.
pub open spec fn sp_keyframe(ts: Seq<Token>, p: int) -> ParseOutcome<Option<u32>> {
    match sp_tok(ts, p) {
        Err(e) => Err(e),
        Ok(Token::KeywordKeyframe) => match sp_integer(ts, p + 1) {
            Err(e) => Err(e),
            Ok((k, q)) => Ok((Some(k), q)),
        },
        Ok(_) => Ok((None, p)),
    }
}

/// The arguments of `update`: a preset (globally, or a keyframe of it, for
/// a fixture selector), or a cue of a sequence or an executor.
pub open spec fn sp_update(ts: Seq<Token>, p: int) -> ParseOutcome<Action> {
    match sp_tok(ts, p) {
        Err(e) => Err(e),
        Ok(Token::KeywordPreset) => match sp_preset_id(ts, p + 1) {
            Err(e) => Err(e),
            Ok((id, q)) => match sp_tok(ts, q) {
                Err(e) => Err(e),
                Ok(Token::KeywordGlobal) => Ok(
                    (Action::UpdatePresetGlobal(UpdatePresetGlobalArgs { id }), q + 1),
                ),
                Ok(_) => match sp_keyframe(ts, q) {
                    Err(e) => Err(e),
                    Ok((keyframe_idx, q1)) => match sp_expect(
                        ts,
                        q1,
                        Token::KeywordFor,
                        "Expected \"for\""@,
                    ) {
                        Err(e) => Err(e),
                        Ok((_, q2)) => match sp_selector(ts, q2) {
                            Err(e) => Err(e),
                            Ok((fixture_selector, q3)) => {
                                let (update_mode, q4) = sp_optional_update_mode(ts, q3);
                                Ok(
                                    (
                                        Action::UpdatePreset(
                                            UpdatePresetArgs {
                                                id,
                                                keyframe_idx,
                                                fixture_selector,
                                                update_mode,
                                            },
                                        ),
                                        q4,
                                    ),
                                )
                            },
                        },
                    },
                },
            },
        },
        Ok(Token::KeywordSequence) => sp_update_cue(ts, p),
        Ok(Token::KeywordExecutor) => sp_update_cue(ts, p),
        Ok(t) => Err((ParseErrorView::UnexpectedTokenAlternatives(t, seq!["\"preset\"", "\"sequence\""]), p)),
    }
}

/// An update of a cue: `sequence` or `executor` at `p`, its number, `cue`,
/// a cue index, `for`, a fixture selector, the channels and the mode.
pub open spec fn sp_update_cue(ts: Seq<Token>, p: int) -> ParseOutcome<Action> {
    match sp_integer(ts, p + 1) {
        Err(e) => Err(e),
        Ok((id, q)) => match sp_expect(ts, q, Token::KeywordCue, "Expected \"cue\""@) {
            Err(e) => Err(e),
            Ok((_, q1)) => match sp_cue_idx(ts, q1) {
                Err(e) => Err(e),
                Ok((cue_idx, q2)) => match sp_expect(ts, q2, Token::KeywordFor, "Expected \"for\""@) {
                    Err(e) => Err(e),
                    Ok((_, q3)) => match sp_selector(ts, q3) {
                        Err(e) => Err(e),
                        Ok((fixture_selector, q4)) => match sp_with_channel_types(ts, q4) {
                            Err(e) => Err(e),
                            Ok((channel_type_selector, q5)) => {
                                let (update_mode, q6) = sp_optional_update_mode(ts, q5);
                                Ok(
                                    (
                                        Action::UpdateSequenceCue(
                                            UpdateSequenceCueArgs {
                                                id: cue_args_id(ts[p], id),
                                                cue_idx,
                                                fixture_selector,
                                                channel_type_selector,
                                                update_mode,
                                            },
                                        ),
                                        q6,
                                    ),
                                )
                            },
                        },
                    },
                },
            },
        },
    }
}

/// The arguments of `delete`: an object or object range, then `really`.
pub open spec fn sp_delete(ts: Seq<Token>, p: int) -> ParseOutcome<Action> {
    match sp_object_or_range(ts, p) {
        Err(e) => Err(e),
        Ok((object_range, q)) => match sp_expect(ts, q, Token::KeywordReally, "Expected \"really\""@) {
            Err(e) => Err(e),
            Ok((_, q1)) => Ok((Action::Delete(DeleteArgs { object_range }), q1)),
        },
    }
}

/// The arguments of `move`: a preset, `to` and the target preset.
pub open spec fn sp_move(ts: Seq<Token>, p: int) -> ParseOutcome<Action> {
    match sp_specific_preset(ts, p) {
        Err(e) => Err(e),
        Ok((preset_to_move, q)) => match sp_expect(ts, q, Token::KeywordTo, "Expected \"to\""@) {
            Err(e) => Err(e),
            Ok((_, q1)) => match sp_specific_preset(ts, q1) {
                Err(e) => Err(e),
                Ok((target_preset, q2)) => Ok(
                    (Action::Move(MoveArgs { preset_to_move, target_preset }), q2),
                ),
            },
        },
    }
}

/// The arguments of `set`: the grand master or a group master and a value,
/// or an object with a property's key and value.
pub open spec fn sp_set_property(ts: Seq<Token>, p: int) -> ParseOutcome<Action> {
    match sp_tok(ts, p) {
        Err(e) => Err(e),
        Ok(Token::KeywordMaster) => match sp_tok(ts, p + 1) {
            Err(e) => Err(e),
            Ok(Token::KeywordGrand) => match sp_float(ts, p + 2) {
                Err(e) => Err(e),
                Ok((value, q)) => Ok((Action::GrandmasterSetValue(value), q)),
            },
            Ok(Token::KeywordGroup) => match sp_integer(ts, p + 2) {
                Err(e) => Err(e),
                Ok((group_id, q)) => match sp_float(ts, q) {
                    Err(e) => Err(e),
                    Ok((value, q1)) => Ok((Action::GroupmasterSetValue(group_id, value), q1)),
                },
            },
            Ok(t) => Err((ParseErrorView::UnexpectedTokenAlternatives(t, seq!["\"grand\"", "\"group\""]), p + 1)),
        },
        Ok(_) => match sp_object(ts, p) {
            Err(e) => Err(e),
            Ok((object, q)) => match sp_string(ts, q) {
                Err(e) => Err(e),
                Ok((key, q1)) => match sp_string(ts, q1) {
                    Err(e) => Err(e),
                    Ok((value, q2)) => Ok(
                        (Action::ObjectSetProperty(ObjectSetPropertyArgs { object, key, value }), q2),
                    ),
                },
            },
        },
    }
}

/// The arguments of `config`: `output` or `patch`.
pub open spec fn sp_config(ts: Seq<Token>, p: int) -> ParseOutcome<Action> {
    match sp_tok(ts, p) {
        Err(e) => Err(e),
        Ok(Token::KeywordOutput) => Ok((Action::Config(ConfigTypeActionData::Output), p + 1)),
        Ok(Token::KeywordPatch) => Ok((Action::Config(ConfigTypeActionData::Patch), p + 1)),
        Ok(t) => Err((ParseErrorView::UnexpectedTokenAlternatives(t, seq!["\"output\"", "\"patch\""]), p)),
    }
}

/// After `executor` and its number in `assign`, when no `fader` follows:
/// what the button does (`go`, `stop`, or `flash` with an optional `stomp`).
pub open spec fn sp_executor_button_mode(ts: Seq<Token>, p: int, executor_id: u32) -> ParseOutcome<
    AssignButtonArgsMode,
> {
    match sp_tok(ts, p) {
        Err(e) => Err(e),
        Ok(Token::KeywordGo) => Ok((AssignButtonArgsMode::ExecutorGo(executor_id), p + 1)),
        Ok(Token::KeywordStop) => Ok((AssignButtonArgsMode::ExecutorStop(executor_id), p + 1)),
        Ok(Token::KeywordFlash) => match sp_tok(ts, p + 1) {
            Err(e) => Err(e),
            Ok(Token::KeywordStomp) => Ok(
                (AssignButtonArgsMode::ExecutorFlash { id: executor_id, stomp: true }, p + 2),
            ),
            Ok(_) => Ok((AssignButtonArgsMode::ExecutorFlash { id: executor_id, stomp: false }, p + 1)),
        },
        Ok(t) => Err((
            ParseErrorView::UnexpectedTokenAlternatives(t, seq!["\"go\"", "\"stop\"", "\"flash\""]),
            p,
        )),
    }
}

/// `to` and an input button id; the button is assigned `mode`.
pub open spec fn sp_to_button(ts: Seq<Token>, p: int, mode: AssignButtonArgsMode) -> ParseOutcome<
    Action,
> {
    match sp_expect(ts, p, Token::KeywordTo, "Expected \"to\""@) {
        Err(e) => Err(e),
        Ok((_, q)) => match sp_button_id(ts, q, false) {
            Err(e) => Err(e),
            Ok(((device_idx, button_id), q1)) => Ok(
                (
                    Action::AssignButton(
                        AssignButtonArgs { mode, device_idx: device_idx as usize, button_id },
                    ),
                    q1,
                ),
            ),
        },
    }
}

/// `to` and an input fader id; the fader is assigned `mode`.
pub open spec fn sp_to_fader(ts: Seq<Token>, p: int, mode: AssignFaderArgsMode) -> ParseOutcome<
    Action,
> {
    match sp_expect(ts, p, Token::KeywordTo, "Expected \"to\""@) {
        Err(e) => Err(e),
        Ok((_, q)) => match sp_fader_id(ts, q, false) {
            Err(e) => Err(e),
            Ok(((device_idx, input_fader_id), q1)) => Ok(
                (
                    Action::AssignFader(
                        AssignFaderArgs { mode, device_idx: device_idx as usize, input_fader_id },
                    ),
                    q1,
                ),
            ),
        },
    }
}

/// After a preset range in `assign`: `with` and a fixture selector, or
/// nothing.
pub open spec fn sp_optional_with_selector(ts: Seq<Token>, p: int) -> ParseOutcome<
    Option<FixtureSelector>,
> {
    match sp_tok(ts, p) {
        Err(e) => Err(e),
        Ok(Token::KeywordWith) => match sp_selector(ts, p + 1) {
            Err(e) => Err(e),
            Ok((fs, q)) => Ok((Some(fs), q)),
        },
        Ok(_) => Ok((None, p)),
    }
}

/// After `master` in `assign`: `grand`, or `group` and a number.
pub open spec fn sp_master_fader_mode(ts: Seq<Token>, p: int) -> ParseOutcome<AssignFaderArgsMode> {
    match sp_tok(ts, p) {
        Err(e) => Err(e),
        Ok(Token::KeywordGrand) => Ok((AssignFaderArgsMode::Grandmaster, p + 1)),
        Ok(Token::KeywordGroup) => match sp_integer(ts, p + 1) {
            Err(e) => Err(e),
            Ok((group_id, q)) => Ok((AssignFaderArgsMode::Groupmaster(group_id), q)),
        },
        Ok(t) => Err((ParseErrorView::UnexpectedTokenAlternatives(t, seq!["\"grand\"", "\"group\""]), p)),
    }
}

/// The arguments of `assign`: what an input button or fader is given (a
/// fixture selector, an executor, presets, a macro, a master or a speed
/// master), `to`, and the button or fader.
pub open spec fn sp_assign(ts: Seq<Token>, p: int) -> ParseOutcome<Action>
    decreases ts.len() - p, 1int,
{
    if p < 0 || p >= ts.len() {
        Err((ParseErrorView::UnexpectedEndOfInput, p))
    } else {
        match sp_selector(ts, p) {
            Ok((fs, q)) => sp_to_button(ts, q, AssignButtonArgsMode::FixtureSelector(fs)),
            Err(_) => match ts[p] {
                Token::KeywordExecutor => match sp_integer(ts, p + 1) {
                    Err(e) => Err(e),
                    Ok((executor_id, q)) => match sp_tok(ts, q) {
                        Err(e) => Err(e),
                        Ok(Token::KeywordFader) => sp_to_fader(
                            ts,
                            q + 1,
                            AssignFaderArgsMode::Executor(executor_id),
                        ),
                        Ok(_) => match sp_executor_button_mode(ts, q, executor_id) {
                            Err(e) => Err(e),
                            Ok((mode, q1)) => sp_to_button(ts, q1, mode),
                        },
                    },
                },
                Token::KeywordPreset => match sp_specific_preset_or_range(ts, p) {
                    Err(e) => Err(e),
                    Ok((preset_id_range, q)) => match sp_optional_with_selector(ts, q) {
                        Err(e) => Err(e),
                        Ok((fixture_selector, q1)) => sp_to_button(
                            ts,
                            q1,
                            AssignButtonArgsMode::SelectivePreset { preset_id_range, fixture_selector },
                        ),
                    },
                },
                Token::KeywordMacro => match sp_command(ts, p + 1) {
                    Err(e) => Err(e),
                    Ok((command, q)) => sp_to_button(
                        ts,
                        q,
                        AssignButtonArgsMode::Macro(Box::new(command)),
                    ),
                },
                Token::KeywordMaster => match sp_master_fader_mode(ts, p + 1) {
                    Err(e) => Err(e),
                    Ok((mode, q)) => sp_to_fader(ts, q, mode),
                },
                Token::KeywordSpeedmaster => match sp_integer(ts, p + 1) {
                    Err(e) => Err(e),
                    Ok((speed_master_id, q)) => match sp_tok(ts, q) {
                        Err(e) => Err(e),
                        Ok(Token::KeywordFader) => sp_to_fader(
                            ts,
                            q + 1,
                            AssignFaderArgsMode::Speedmaster(speed_master_id),
                        ),
                        Ok(Token::KeywordTap) => sp_to_button(
                            ts,
                            q + 1,
                            AssignButtonArgsMode::SpeedmasterTap(speed_master_id),
                        ),
                        Ok(t) => Err((
                            ParseErrorView::UnexpectedTokenAlternatives(t, seq!["\"fader\"", "\"tap\""]),
                            q,
                        )),
                    },
                },
                t => Err((
                    ParseErrorView::UnexpectedTokenAlternatives(
                        t,
                        seq![
                            "\"executor\"",
                            "\"fader\"",
                            "\"preset\"",
                            "\"macro\"",
                            "\"tokens\"",
                            "\"grandmaster\"",
                            "\"speedmaster\"",
                            "fixture selector",
                        ],
                    ),
                    p,
                )),
            },
        }
    }
}

/// The arguments of `unassign`: an input button or fader.
pub open spec fn sp_unassign(ts: Seq<Token>, p: int) -> ParseOutcome<Action> {
    match sp_tok(ts, p) {
        Err(e) => Err(e),
        Ok(Token::KeywordButton) => match sp_button_id(ts, p + 1, true) {
            Err(e) => Err(e),
            Ok(((device_idx, button_id), q)) => Ok(
                (Action::UnassignInputButton { device_idx: device_idx as usize, button_id }, q),
            ),
        },
        Ok(Token::KeywordFader) => match sp_fader_id(ts, p + 1, true) {
            Err(e) => Err(e),
            Ok(((device_idx, fader_id), q)) => Ok(
                (Action::UnassignInputFader { device_idx: device_idx as usize, fader_id }, q),
            ),
        },
        Ok(t) => Err((ParseErrorView::UnexpectedTokenAlternatives(t, seq!["\"button\"", "\"fader\""]), p)),
    }
}

/// The arguments of `recall`: a cue of a sequence, or a keyframe of a preset.
pub open spec fn sp_recall(ts: Seq<Token>, p: int) -> ParseOutcome<Action> {
    match sp_tok(ts, p) {
        Err(e) => Err(e),
        Ok(Token::KeywordSequence) => match sp_integer(ts, p + 1) {
            Err(e) => Err(e),
            Ok((sequence_id, q)) => match sp_expect(ts, q, Token::KeywordCue, "Expected \"cue\""@) {
                Err(e) => Err(e),
                Ok((_, q1)) => match sp_cue_idx(ts, q1) {
                    Err(e) => Err(e),
                    Ok((cue_idx, q2)) => Ok(
                        (Action::RecallSequenceCue(RecallSequenceCueArgs { sequence_id, cue_idx }), q2),
                    ),
                },
            },
        },
        Ok(Token::KeywordPreset) => match sp_preset_id(ts, p + 1) {
            Err(e) => Err(e),
            Ok((preset_id, q)) => match sp_expect(
                ts,
                q,
                Token::KeywordKeyframe,
                "Expected \"keyframe\""@,
            ) {
                Err(e) => Err(e),
                Ok((_, q1)) => match sp_integer(ts, q1) {
                    Err(e) => Err(e),
                    Ok((keyframe_idx, q2)) => Ok(
                        (
                            Action::RecallEffectKeyframe(
                                RecallEffectKeyframeArgs { preset_id, keyframe_idx },
                            ),
                            q2,
                        ),
                    ),
                },
            },
        },
        Ok(t) => Err((ParseErrorView::UnexpectedTokenAlternatives(t, seq!["\"sequence\"", "\"preset\""]), p)),
    }
}

/// The arguments of `highlight`: a fixture selector, or nothing.
pub open spec fn sp_highlight(ts: Seq<Token>, p: int) -> ParseOutcome<Action> {
    match sp_selector(ts, p) {
        Ok((fs, q)) => Ok((Action::Highlight(Some(fs)), q)),
        Err(_) => Ok((Action::Highlight(None), p)),
    }
}

/// A function: a keyword and its arguments, setting an attribute of the
/// selected fixtures, or a fixture selector and what to set on it.
pub open spec fn sp_function(ts: Seq<Token>, p: int) -> ParseOutcome<Action>
    decreases ts.len() - p, 2int,
{
    if p < 0 || p >= ts.len() {
        Err((ParseErrorView::UnexpectedEndOfInput, p))
    } else {
        match ts[p] {
            Token::KeywordHome => sp_home_function(ts, p + 1),
            Token::KeywordRecord => sp_record(ts, p + 1),
            Token::KeywordCreate => sp_create(ts, p + 1),
            Token::KeywordRename => sp_rename(ts, p + 1),
            Token::KeywordUpdate => sp_update(ts, p + 1),
            Token::KeywordDelete => sp_delete(ts, p + 1),
            Token::KeywordMove => sp_move(ts, p + 1),
            Token::KeywordSet => sp_set_property(ts, p + 1),
            Token::KeywordAssign => sp_assign(ts, p + 1),
            Token::KeywordUnassign => sp_unassign(ts, p + 1),
            Token::KeywordClear => Ok((Action::ClearAll, p + 1)),
            Token::KeywordNuzul => Ok((Action::Nuzul, p + 1)),
            Token::KeywordSueud => Ok((Action::Sueud, p + 1)),
            Token::KeywordGrandEtc => Ok((Action::GrandEtc, p + 1)),
            Token::KeywordSave => Ok((Action::Save, p + 1)),
            Token::KeywordConfig => sp_config(ts, p + 1),
            Token::KeywordRecall => sp_recall(ts, p + 1),
            Token::KeywordLock => Ok((Action::Lock, p + 1)),
            Token::KeywordTest => match sp_string(ts, p + 1) {
                Err(e) => Err(e),
                Ok((test_action, q)) => Ok((Action::Test(test_action), q)),
            },
            Token::KeywordHighlight => sp_highlight(ts, p + 1),
            Token::KeywordUnhighlight => Ok((Action::Unhighlight, p + 1)),
            t => match sp_currently_selected_set(ts, p) {
                Ok(x) => Ok(x),
                Err(_) => match sp_selector(ts, p) {
                    Ok((fs, q)) => sp_set_function(ts, q, fs),
                    Err(_) => Err((
                        ParseErrorView::UnexpectedTokenAlternatives(
                            t,
                            seq![
                                "\"home\"",
                                "\"record\"",
                                "\"create\"",
                                "\"rename\"",
                                "\"update\"",
                                "\"delete\"",
                                "\"clear\"",
                                "\"save\"",
                                "fixture selector",
                            ],
                        ),
                        p,
                    )),
                },
            },
        }
    }
}

/// A command: a function, or else an object standing for its default
/// action.
pub open spec fn sp_command(ts: Seq<Token>, p: int) -> ParseOutcome<Action>
    decreases ts.len() - p, 3int,
{
    if p < 0 || p > ts.len() {
        Err((ParseErrorView::UnexpectedEndOfInput, p))
    } else {
        match sp_function(ts, p) {
            Ok(x) => Ok(x),
            Err((e1, _)) => match sp_object(ts, p) {
                Ok((o, q)) => Ok((object_default_action(o), q)),
                Err((e2, _)) => Err((ParseErrorView::UnexpectedVariant(seq![("function"@, e1), ("object"@, e2)]), p)),
            },
        }
    }
}

/// A whole command line: a command, after which at most one token (the end
/// marker) remains.
pub open spec fn sp_parse(ts: Seq<Token>, p: int) -> Result<Action, ParseErrorView> {
    match sp_command(ts, p) {
        Err((e, _)) => Err(e),
        Ok((action, q)) => if q + 1 < ts.len() {
            Err(unexpected(ts[q], "Expected EOF"@))
        } else {
            Ok(action)
        },
    }
}

/// A successful parse at `p` ends after `p` and within the tokens.
pub open spec fn advances<T>(out: ParseOutcome<T>, ts: Seq<Token>, p: int) -> bool {
    out matches Ok((_, q)) ==> p < q <= ts.len()
}

proof fn lemma_selector_advances_both(ts: Seq<Token>, p: int)
    ensures
        advances(sp_atomic(ts, p), ts, p),
        advances(sp_selector(ts, p), ts, p),
    decreases ts.len() - p,
{
    if 0 <= p < ts.len() {
        if ts[p] is ParenOpen {
            lemma_selector_advances_both(ts, p + 1);
        }
        if let Ok((_, q)) = sp_atomic(ts, p) {
            if q + 1 <= ts.len() {
                lemma_selector_advances_both(ts, q + 1);
            }
        }
    }
}

/// A fixture selector that parses ends after where it starts, within the
/// tokens.
pub broadcast proof fn lemma_selector_advances(ts: Seq<Token>, p: int)
    ensures
        advances(#[trigger] sp_selector(ts, p), ts, p),
{
    lemma_selector_advances_both(ts, p);
}

/// A list of feature types that parses ends after where it starts, within
/// the tokens.
pub broadcast proof fn lemma_feature_items_advance(ts: Seq<Token>, p: int)
    ensures
        advances(#[trigger] sp_feature_items(ts, p), ts, p),
    decreases ts.len() - p,
{
    if 0 <= p < ts.len() {
        if let Ok((_, q)) = sp_feature_type(ts, p) {
            if q + 1 <= ts.len() {
                lemma_feature_items_advance(ts, q + 1);
            }
        }
    }
}

/// A successful parse at `p`, with `p` within the tokens, ends at or after
/// `p` and within the tokens.
pub open spec fn stays_within<T>(out: ParseOutcome<T>, ts: Seq<Token>, p: int) -> bool {
    0 <= p <= ts.len() ==> (out matches Ok((_, q)) ==> p <= q <= ts.len())
}

proof fn lemma_objects_advance(ts: Seq<Token>, p: int)
    ensures
        advances(sp_homeable(ts, p), ts, p),
        advances(sp_object(ts, p), ts, p),
        advances(sp_object_or_range(ts, p), ts, p),
        advances(sp_specific_preset_or_range(ts, p), ts, p),
        advances(sp_attribute(ts, p), ts, p),
        advances(sp_channel_value_single(ts, p), ts, p),
{
    broadcast use lemma_selector_advances;

}

proof fn lemma_optional_parts_stay(ts: Seq<Token>, p: int)
    ensures
        stays_within(sp_home_function(ts, p), ts, p),
        stays_within(sp_highlight(ts, p), ts, p),
        0 <= p <= ts.len() ==> p <= sp_optional_as(ts, p).1 <= ts.len(),
        0 <= p <= ts.len() ==> p <= sp_optional_update_mode(ts, p).1 <= ts.len(),
        stays_within(sp_with_channel_types(ts, p), ts, p),
{
    broadcast use lemma_selector_advances, lemma_feature_items_advance;

}

proof fn lemma_record_advances(ts: Seq<Token>, p: int)
    ensures
        advances(sp_record(ts, p), ts, p),
{
    broadcast use lemma_selector_advances, lemma_feature_items_advance;

    lemma_optional_parts_stay(ts, p);
    if let Ok((_, q)) = sp_selector(ts, p) {
        lemma_optional_parts_stay(ts, q);
    }
    assert(advances(sp_record(ts, p), ts, p)) by {
        if 0 <= p < ts.len() {
            match ts[p] {
                Token::KeywordPreset => {
                    if let Ok((_, q)) = sp_preset_id(ts, p + 1) {
                        if let Ok((_, q1)) = sp_expect(ts, q, Token::KeywordFor, "Expected \"for\""@) {
                            if let Ok((_, q2)) = sp_selector(ts, q1) {
                                lemma_optional_parts_stay(ts, q2);
                            }
                        }
                    }
                },
                Token::KeywordGroup => {
                    if let Ok((_, q)) = sp_integer_or_next(ts, p + 1) {
                        if let Ok((_, q1)) = sp_expect(ts, q, Token::KeywordFor, "Expected \"for\""@) {
                            if let Ok((_, q2)) = sp_selector(ts, q1) {
                                lemma_optional_parts_stay(ts, q2);
                            }
                        }
                    }
                },
                Token::KeywordSequence => {
                    if let Ok((_, q)) = sp_integer(ts, p + 1) {
                        if let Ok((_, q1)) = sp_expect(ts, q, Token::KeywordCue, "Expected \"cue\""@) {
                            if let Ok((_, q2)) = sp_cue_idx_or_next(ts, q1) {
                                if let Ok((_, q3)) = sp_expect(ts, q2, Token::KeywordFor, "Expected \"for\""@) {
                                    if let Ok((_, q4)) = sp_selector(ts, q3) {
                                        lemma_optional_parts_stay(ts, q4);
                                    }
                                }
                            }
                        }
                    }
                },
                Token::KeywordExecutor => {
                    if let Ok((_, q)) = sp_integer(ts, p + 1) {
                        if let Ok((_, q1)) = sp_record_executor_cue(ts, q) {
                            if let Ok((_, q2)) = sp_expect(ts, q1, Token::KeywordFor, "Expected \"for\""@) {
                                if let Ok((_, q3)) = sp_selector(ts, q2) {
                                    lemma_optional_parts_stay(ts, q3);
                                    if let Ok((_, q4)) = sp_with_channel_types(ts, q3) {
                                        lemma_optional_parts_stay(ts, q4);
                                    }
                                }
                            }
                        }
                    }
                },
                _ => {},
            }
        }
    }
}

proof fn lemma_update_advances(ts: Seq<Token>, p: int)
    ensures
        advances(sp_update(ts, p), ts, p),
{
    broadcast use lemma_selector_advances, lemma_feature_items_advance;

    if 0 <= p < ts.len() {
        if ts[p] is KeywordPreset {
            if let Ok((_, q)) = sp_preset_id(ts, p + 1) {
                if let Ok((_, q1)) = sp_keyframe(ts, q) {
                    if let Ok((_, q2)) = sp_expect(ts, q1, Token::KeywordFor, "Expected \"for\""@) {
                        if let Ok((_, q3)) = sp_selector(ts, q2) {
                            lemma_optional_parts_stay(ts, q3);
                        }
                    }
                }
            }
        } else {
            if let Ok((_, q)) = sp_integer(ts, p + 1) {
                if let Ok((_, q1)) = sp_expect(ts, q, Token::KeywordCue, "Expected \"cue\""@) {
                    if let Ok((_, q2)) = sp_cue_idx(ts, q1) {
                        if let Ok((_, q3)) = sp_expect(ts, q2, Token::KeywordFor, "Expected \"for\""@) {
                            if let Ok((_, q4)) = sp_selector(ts, q3) {
                                lemma_optional_parts_stay(ts, q4);
                                if let Ok((_, q5)) = sp_with_channel_types(ts, q4) {
                                    lemma_optional_parts_stay(ts, q5);
                                }
                            }
                        }
                    }
                }
            }
        }
    }
}

proof fn lemma_functions_advance(ts: Seq<Token>, p: int, fs: FixtureSelector)
    ensures
        advances(sp_rename(ts, p), ts, p),
        advances(sp_delete(ts, p), ts, p),
        advances(sp_move(ts, p), ts, p),
        advances(sp_set_property(ts, p), ts, p),
        advances(sp_config(ts, p), ts, p),
        advances(sp_unassign(ts, p), ts, p),
        advances(sp_recall(ts, p), ts, p),
        advances(sp_currently_selected_set(ts, p), ts, p),
        advances(sp_set_function(ts, p, fs), ts, p),
{
    lemma_objects_advance(ts, p);
    if let Ok((_, q)) = sp_attribute(ts, p) {
        lemma_objects_advance(ts, q);
    }
}

/// Every parse of the command group that succeeds ends after where it
/// starts, within the tokens.
#[verifier::rlimit(50)]
proof fn lemma_command_advances_all(ts: Seq<Token>, p: int)
    ensures
        advances(sp_command(ts, p), ts, p),
        advances(sp_function(ts, p), ts, p),
        advances(sp_create(ts, p), ts, p),
        advances(sp_assign(ts, p), ts, p),
    decreases ts.len() - p,
{
    broadcast use lemma_selector_advances;

    lemma_objects_advance(ts, p);
    if 0 <= p < ts.len() {
        lemma_command_advances_all(ts, p + 1);
        lemma_record_advances(ts, p + 1);
        lemma_update_advances(ts, p + 1);
        lemma_optional_parts_stay(ts, p + 1);
        if let Ok((fs, q)) = sp_selector(ts, p) {
            lemma_functions_advance(ts, q, fs);
        }
        lemma_functions_advance(ts, p + 1, FixtureSelector::Atomic(AtomicFixtureSelector::CurrentFixturesSelected));
        lemma_functions_advance(ts, p, FixtureSelector::Atomic(AtomicFixtureSelector::CurrentFixturesSelected));
        assert(advances(sp_create(ts, p), ts, p)) by {
            if let Ok((_, q)) = sp_integer_or_next(ts, p + 1) {
                lemma_optional_parts_stay(ts, q);
                if let Ok((_, q1)) = sp_expect(ts, q, Token::KeywordWith, "Expected \"with\""@) {
                    if q1 <= ts.len() {
                        lemma_command_advances_all(ts, q1);
                        if let Ok((_, q2)) = sp_command(ts, q1) {
                            lemma_optional_parts_stay(ts, q2);
                        }
                    }
                }
            }
            if let Ok((_, q)) = sp_float_individual(ts, p + 1) {
                lemma_optional_parts_stay(ts, q);
            }
        }
        assert(advances(sp_assign(ts, p), ts, p)) by {
            if let Ok((_, q)) = sp_specific_preset_or_range(ts, p) {
                lemma_optional_parts_stay(ts, q);
            }
        }
    }
}

/// Law: a command that parses ends after where it starts and within the
/// tokens, so a parse always makes progress and never reads past the end.
pub proof fn law_command_advances(ts: Seq<Token>, p: int)
    ensures
        sp_command(ts, p) matches Ok((_, q)) ==> p < q <= ts.len(),
{
    lemma_command_advances_all(ts, p);
}

/// Law: `move`, a preset, `to` and a preset moves the preset read first to
/// the preset read after `to`, ending where the second preset ends.
pub proof fn law_move_reads_source_then_target(ts: Seq<Token>, p: int)
    requires
        0 <= p < ts.len(),
        ts[p] is KeywordMove,
    ensures
        sp_specific_preset(ts, p + 1) matches Ok((a, q)) ==> (
            0 <= q < ts.len() && ts[q] is KeywordTo ==> (
                sp_specific_preset(ts, q + 1) matches Ok((b, r)) ==> sp_function(ts, p) == Ok::<
                    (Action, int),
                    (ParseErrorView, int),
                >((Action::Move(MoveArgs { preset_to_move: a, target_preset: b }), r))
            )
        ),
{
}

/// Law: on the tokens `move preset g1.i1 to preset g2.i2`, followed by the
/// end marker, the command moves preset `i1` of feature group `g1` to
/// preset `i2` of feature group `g2`.
pub proof fn law_move_presets_in_order(ts: Seq<Token>, x: F32Bits, g1: u32, i1: u32, y: F32Bits, g2: u32, i2: u32)
    requires
        ts.len() == 7,
        ts[0] is KeywordMove,
        ts[1] is KeywordPreset,
        ts[2] == Token::FloatingPoint(x, g1, i1),
        ts[3] is KeywordTo,
        ts[4] is KeywordPreset,
        ts[5] == Token::FloatingPoint(y, g2, i2),
        feature_group_of_id(g1) is Some,
        feature_group_of_id(g2) is Some,
    ensures
        sp_parse(ts, 0) == Ok::<Action, ParseErrorView>(
            Action::Move(
                MoveArgs {
                    preset_to_move: FixturePresetId {
                        feature_group: feature_group_of_id(g1)->Some_0,
                        preset_id: i1,
                    },
                    target_preset: FixturePresetId {
                        feature_group: feature_group_of_id(g2)->Some_0,
                        preset_id: i2,
                    },
                },
            ),
        ),
{
    law_move_reads_source_then_target(ts, 0);
}

/// Law: a decimal `a.b` (both parts non-zero) read as an atomic fixture
/// selector is the fixture path with the ids `a` then `b` (root `a`,
/// sub-fixture `b`), and, followed by `thru` and a fixture id `c`, the range
/// from that path to `c`; read as a fixture selector not followed by `+`,
/// `-` or `%`, it is that path alone.
pub proof fn law_selector_decimal_is_path(ts: Seq<Token>, p: int, x: F32Bits, a: u32, b: u32)
    requires
        0 <= p,
        p + 1 < ts.len(),
        ts[p] == Token::FloatingPoint(x, a, b),
        a != 0,
        b != 0,
    ensures
        !(ts[p + 1] is KeywordThru) ==> (sp_atomic(ts, p) matches Ok(
            (AtomicFixtureSelector::SingleFixturePath(fp), q),
        ) && fp@ == seq![a, b] && q == p + 1),
        (ts[p + 1] is KeywordThru && p + 2 < ts.len() && ts[p + 2] is Integer && ts[p + 2]->Integer_0
            != 0) ==> (sp_atomic(ts, p) matches Ok((AtomicFixtureSelector::FixturePathRange(fp, to), q))
            && fp@ == seq![a, b] && to@ == ts[p + 2]->Integer_0 && q == p + 3),
        (!(ts[p + 1] is KeywordThru) && !(ts[p + 1] is Plus) && !(ts[p + 1] is Minus) && !(ts[p
            + 1] is Percent)) ==> (sp_selector(ts, p) matches Ok(
            (FixtureSelector::Atomic(AtomicFixtureSelector::SingleFixturePath(fp)), q),
        ) && fp@ == seq![a, b] && q == p + 1),
{
}

/// Law: an integer `a` (not zero) read as an atomic fixture selector is the
/// fixture `a` when no `thru` follows, and the range from fixture `a` to
/// fixture `c` when `thru` and a fixture id `c` follow.
pub proof fn law_selector_integer_is_fixture(ts: Seq<Token>, p: int, a: u32)
    requires
        0 <= p,
        p + 1 < ts.len(),
        ts[p] == Token::Integer(a),
        a != 0,
    ensures
        !(ts[p + 1] is KeywordThru) ==> (sp_atomic(ts, p) matches Ok(
            (AtomicFixtureSelector::SingleFixture(id), q),
        ) && id@ == a && q == p + 1),
        (ts[p + 1] is KeywordThru && p + 2 < ts.len() && ts[p + 2] is Integer && ts[p + 2]->Integer_0
            != 0) ==> (sp_atomic(ts, p) matches Ok((AtomicFixtureSelector::FixtureRange(from, to), q))
            && from@ == a && to@ == ts[p + 2]->Integer_0 && q == p + 3),
{
}

/// Law: `group` and a number read as an atomic fixture selector is that
/// group.
pub proof fn law_selector_group(ts: Seq<Token>, p: int, g: u32)
    requires
        0 <= p,
        p + 1 < ts.len(),
        ts[p] is KeywordGroup,
        ts[p + 1] == Token::Integer(g),
    ensures
        sp_atomic(ts, p) == Ok::<(AtomicFixtureSelector, int), (ParseErrorView, int)>(
            (AtomicFixtureSelector::FixtureGroup(g), p + 2),
        ),
{
}

/// Law: a fixture selector joins its first atomic selector with the
/// selector after `+` (adding) or `-` (taking away), in that order: the
/// atomic selector read first is the left operand.
pub proof fn law_selector_joins_in_order(ts: Seq<Token>, p: int)
    requires
        0 <= p <= ts.len(),
    ensures
        sp_atomic(ts, p) matches Ok((a, q)) ==> (
            0 <= q < ts.len() && ts[q] is Plus ==> (
                sp_selector(ts, q + 1) matches Ok((rest, r)) ==> sp_selector(ts, p) == Ok::<
                    (FixtureSelector, int),
                    (ParseErrorView, int),
                >((FixtureSelector::Additive(a, Box::new(rest)), r))
            )
        ),
        sp_atomic(ts, p) matches Ok((a, q)) ==> (
            0 <= q < ts.len() && ts[q] is Minus ==> (
                sp_selector(ts, q + 1) matches Ok((rest, r)) ==> sp_selector(ts, p) == Ok::<
                    (FixtureSelector, int),
                    (ParseErrorView, int),
                >((FixtureSelector::Subtractive(a, Box::new(rest)), r))
            )
        ),
{
    lemma_selector_advances_both(ts, p);
}

/// A parser over a sequence of tokens.
pub struct Parser2<'a> {
    tokens: &'a [Token],
    current_token_idx: usize,
}

impl<'a> Parser2<'a> {
    /// The tokens being parsed.
    pub closed spec fn token_seq(&self) -> Seq<Token> {
        self.tokens@
    }

    /// The position of the next token to read.
    pub closed spec fn pos(&self) -> int {
        self.current_token_idx as int
    }

    /// The position is within the tokens (or just past them).
    pub open spec fn wf(&self) -> bool {
        0 <= self.pos() <= self.token_seq().len()
    }

    /// A parser at the start of `tokens`.
    pub fn new(tokens: &'a [Token]) -> (res: Parser2<'a>)
        ensures
            res.token_seq() == tokens@,
            res.pos() == 0,
            res.wf(),
    {
        Parser2 { tokens, current_token_idx: 0 }
    }

    fn current_token(&self) -> (res: Result<&'a Token, ParseError>)
        ensures
            match sp_tok(self.token_seq(), self.pos()) {
                Ok(t) => res matches Ok(r) && *r == t,
                Err((e, _)) => res matches Err(x) && x@ == e,
            },
    {
        if !self.has_current_token() {
            Err(ParseError::UnexpectedEndOfInput)
        } else {
            Ok(&self.tokens[self.current_token_idx])
        }
    }

    fn has_current_token(&self) -> (res: bool)
        ensures
            res == (self.pos() < self.token_seq().len()),
    {
        self.current_token_idx < self.tokens.len()
    }

    fn has_next_token(&self) -> (res: bool)
        ensures
            res == (self.pos() + 1 < self.token_seq().len()),
    {
        self.current_token_idx < self.tokens.len() && self.current_token_idx + 1 < self.tokens.len()
    }

    fn advance(&mut self)
        requires
            old(self).pos() < old(self).token_seq().len(),
        ensures
            final(self).token_seq() == old(self).token_seq(),
            final(self).pos() == old(self).pos() + 1,
    {
        let len = self.tokens.len();
        assert(self.current_token_idx < len);
        self.current_token_idx = self.current_token_idx + 1;
    }

    fn reset_to(&mut self, idx: usize)
        requires
            idx <= old(self).token_seq().len(),
        ensures
            final(self).token_seq() == old(self).token_seq(),
            final(self).pos() == idx,
    {
        self.current_token_idx = idx;
    }

    fn mark(&self) -> (res: usize)
        ensures
            res == self.pos(),
    {
        self.current_token_idx
    }

    fn parse_atomic_fixture_selector(&mut self) -> (res: Result<AtomicFixtureSelector, ParseError>)
        requires
            old(self).wf(),
        ensures
            final(self).wf(),
            final(self).token_seq() == old(self).token_seq(),
            outcome(res, sp_atomic(old(self).token_seq(), old(self).pos()), final(self).pos()),
            res is Ok ==> final(self).pos() > old(self).pos(),
        decreases old(self).token_seq().len() - old(self).pos(), 0int,
    {
        let t = match self.current_token() {
            Err(e) => return Err(e),
            Ok(t) => t,
        };
        match t {
            Token::KeywordFixturesSelected => {
                self.advance();
                Ok(AtomicFixtureSelector::CurrentFixturesSelected)
            },
            Token::FloatingPoint(_, a, b) => {
                let a = match FixtureId::new(*a) {
                    Ok(a) => a,
                    Err(_) => return Err(unexpected_token(t, "FixtureID")),
                };
                let b = match FixtureId::new(*b) {
                    Ok(b) => b,
                    Err(_) => return Err(unexpected_token(t, "FixtureID")),
                };
                let from_path = FixturePath::pair(a, b);
                self.advance();
                let t2 = match self.current_token() {
                    Err(e) => return Err(e),
                    Ok(t2) => t2,
                };
                match t2 {
                    Token::KeywordThru => {
                        self.advance();
                        let t3 = match self.current_token() {
                            Err(e) => return Err(e),
                            Ok(t3) => t3,
                        };
                        match t3 {
                            Token::Integer(f2) => {
                                let to = match FixtureId::new(*f2) {
                                    Ok(to) => to,
                                    Err(_) => return Err(unexpected_token(t3, "FixtureID")),
                                };
                                self.advance();
                                Ok(AtomicFixtureSelector::FixturePathRange(from_path, to))
                            },
                            _ => Err(unexpected_token(t3, "Expected integer")),
                        }
                    },
                    _ => Ok(AtomicFixtureSelector::SingleFixturePath(from_path)),
                }
            },
            Token::Integer(f1) => {
                let from = match FixtureId::new(*f1) {
                    Ok(from) => from,
                    Err(_) => return Err(unexpected_token(t, "FixtureID")),
                };
                self.advance();
                let t2 = match self.current_token() {
                    Err(e) => return Err(e),
                    Ok(t2) => t2,
                };
                match t2 {
                    Token::KeywordThru => {
                        self.advance();
                        let t3 = match self.current_token() {
                            Err(e) => return Err(e),
                            Ok(t3) => t3,
                        };
                        match t3 {
                            Token::Integer(f2) => {
                                let to = match FixtureId::new(*f2) {
                                    Ok(to) => to,
                                    Err(_) => return Err(unexpected_token(t3, "FixtureID")),
                                };
                                self.advance();
                                Ok(AtomicFixtureSelector::FixtureRange(from, to))
                            },
                            _ => Err(unexpected_token(t3, "Expected integer")),
                        }
                    },
                    _ => Ok(AtomicFixtureSelector::SingleFixture(from)),
                }
            },
            Token::ParenOpen => {
                self.advance();
                let fixture_selector = match self.parse_fixture_selector() {
                    Err(e) => return Err(e),
                    Ok(fs) => fs,
                };
                let t2 = match self.current_token() {
                    Err(e) => return Err(e),
                    Ok(t2) => t2,
                };
                match t2 {
                    Token::ParenClose => {
                        self.advance();
                        Ok(AtomicFixtureSelector::SelectorGroup(Box::new(fixture_selector)))
                    },
                    _ => Err(unexpected_token(t2, "Expected closing parenthesis")),
                }
            },
            Token::KeywordGroup => {
                self.advance();
                let t2 = match self.current_token() {
                    Err(e) => return Err(e),
                    Ok(t2) => t2,
                };
                match t2 {
                    Token::Integer(group_id) => {
                        self.advance();
                        Ok(AtomicFixtureSelector::FixtureGroup(*group_id))
                    },
                    _ => Err(unexpected_token(t2, "Expected integer")),
                }
            },
            _ => Err(alternatives(t, vec!["\"~\"", "integer", "\"(\"", "\"group\""])),
        }
    }

    /// Parses a fixture selector.
    pub fn parse_fixture_selector(&mut self) -> (res: Result<FixtureSelector, ParseError>)
        requires
            old(self).wf(),
        ensures
            final(self).wf(),
            final(self).token_seq() == old(self).token_seq(),
            outcome(res, sp_selector(old(self).token_seq(), old(self).pos()), final(self).pos()),
            res is Ok ==> final(self).pos() > old(self).pos(),
        decreases old(self).token_seq().len() - old(self).pos(), 1int,
    {
        let atomic_selector = match self.parse_atomic_fixture_selector() {
            Err(e) => return Err(e),
            Ok(a) => a,
        };
        let t = match self.current_token() {
            Err(e) => return Err(e),
            Ok(t) => t,
        };
        match t {
            Token::Plus => {
                self.advance();
                let next_selector = match self.parse_fixture_selector() {
                    Err(e) => return Err(e),
                    Ok(n) => n,
                };
                Ok(FixtureSelector::Additive(atomic_selector, Box::new(next_selector)))
            },
            Token::Minus => {
                self.advance();
                let next_selector = match self.parse_fixture_selector() {
                    Err(e) => return Err(e),
                    Ok(n) => n,
                };
                Ok(FixtureSelector::Subtractive(atomic_selector, Box::new(next_selector)))
            },
            Token::Percent => {
                self.advance();
                let t1 = match self.current_token() {
                    Err(e) => return Err(e),
                    Ok(t1) => t1,
                };
                let inverted = match t1 {
                    Token::Exclamation => true,
                    _ => false,
                };
                if inverted {
                    self.advance();
                }
                let t2 = match self.current_token() {
                    Err(e) => return Err(e),
                    Ok(t2) => t2,
                };
                match t2 {
                    Token::Integer(d) => {
                        self.advance();
                        Ok(FixtureSelector::Modulus(atomic_selector, *d, inverted))
                    },
                    _ => Err(alternatives(t2, vec!["integer", "\"!\""])),
                }
            },
            _ => Ok(FixtureSelector::Atomic(atomic_selector)),
        }
    }
    /// Reads the word or sign `expected` (a token without a value); `msg`
    /// is the error text when another token stands there.
    fn expect(&mut self, expected: Token, msg: &str) -> (res: Result<(), ParseError>)
        requires
            old(self).wf(),
            !(expected is Integer),
            !(expected is FloatingPoint),
            !(expected is String),
        ensures
            final(self).wf(),
            final(self).token_seq() == old(self).token_seq(),
            outcome(res, sp_expect(old(self).token_seq(), old(self).pos(), expected, msg@), final(self).pos()),
    {
        let t = self.current_token()?;
        if t.is(&expected) {
            self.advance();
            Ok(())
        } else {
            Err(unexpected_token(t, msg))
        }
    }

    fn parse_integer(&mut self) -> (res: Result<u32, ParseError>)
        requires
            old(self).wf(),
        ensures
            final(self).wf(),
            final(self).token_seq() == old(self).token_seq(),
            outcome(res, sp_integer(old(self).token_seq(), old(self).pos()), final(self).pos()),
    {
        let t = self.current_token()?;
        match t {
            Token::Integer(value) => {
                self.advance();
                Ok(*value)
            },
            _ => Err(unexpected_token(t, "Expected integer")),
        }
    }

    fn parse_homeable_object(&mut self) -> (res: Result<HomeableObject, ParseError>)
        requires
            old(self).wf(),
        ensures
            final(self).wf(),
            final(self).token_seq() == old(self).token_seq(),
            outcome(res, sp_homeable(old(self).token_seq(), old(self).pos()), final(self).pos()),
    {
        let start = self.mark();
        match self.parse_fixture_selector() {
            Ok(fixture_selector) => return Ok(HomeableObject::FixtureSelector(fixture_selector)),
            Err(_) => self.reset_to(start),
        }
        let t = self.current_token()?;
        match t {
            Token::KeywordExecutor => {
                self.advance();
                let executor_id = self.parse_integer()?;
                let t2 = self.current_token()?;
                match t2 {
                    Token::KeywordCue => Err(unexpected_token(t2, "Expected not 'cue'")),
                    _ => Ok(HomeableObject::Executor(executor_id)),
                }
            },
            Token::KeywordProgrammer => {
                self.advance();
                Ok(HomeableObject::Programmer)
            },
            _ => Err(unexpected_token(t, "Expected homeable object")),
        }
    }

    fn parse_discrete_cue_idx(&mut self) -> (res: Result<CueIdx, ParseError>)
        requires
            old(self).wf(),
        ensures
            final(self).wf(),
            final(self).token_seq() == old(self).token_seq(),
            outcome(res, sp_cue_idx(old(self).token_seq(), old(self).pos()), final(self).pos()),
    {
        let t = self.current_token()?;
        match t {
            Token::Integer(value) => {
                self.advance();
                if *value > 0xffff {
                    return Err(ParseError::TryFromIntError);
                }
                Ok(CueIdx(*value as u16, 0))
            },
            Token::FloatingPoint(_, major, minor) => {
                self.advance();
                if *major > 0xffff || *minor > 0xffff {
                    return Err(ParseError::TryFromIntError);
                }
                Ok(CueIdx(*major as u16, *minor as u16))
            },
            _ => Err(alternatives(t, vec!["cue index (a / a.b)", "\"next\""])),
        }
    }

    fn parse_preset_id(&mut self) -> (res: Result<FixturePresetId, ParseError>)
        requires
            old(self).wf(),
        ensures
            final(self).wf(),
            final(self).token_seq() == old(self).token_seq(),
            outcome(res, sp_preset_id(old(self).token_seq(), old(self).pos()), final(self).pos()),
    {
        let t = self.current_token()?;
        match t {
            Token::String(feature_group_name) => {
                let feature_group = match FixtureChannel3FeatureGroup::from_str(
                    feature_group_name.as_str(),
                ) {
                    Ok(g) => g,
                    Err(_) => return Err(
                        ParseError::UnexpectedArgs("Expected feature group name".to_owned()),
                    ),
                };
                self.advance();
                let preset_id = self.parse_integer()?;
                Ok(FixturePresetId { feature_group, preset_id })
            },
            Token::FloatingPoint(_, feature_group_id, preset_id) => {
                self.advance();
                let feature_group = match FixtureChannel3FeatureGroup::try_from_id(*feature_group_id) {
                    Ok(g) => g,
                    Err(_) => return Err(
                        ParseError::UnexpectedArgs("Expected feature group id".to_owned()),
                    ),
                };
                Ok(FixturePresetId { feature_group, preset_id: *preset_id })
            },
            _ => Err(unexpected_token(t, "Expected preset id (feature_group_id.preset_id)")),
        }
    }

    fn parse_object(&mut self) -> (res: Result<Object, ParseError>)
        requires
            old(self).wf(),
        ensures
            final(self).wf(),
            final(self).token_seq() == old(self).token_seq(),
            outcome(res, sp_object(old(self).token_seq(), old(self).pos()), final(self).pos()),
    {
        let start = self.mark();
        match self.parse_homeable_object() {
            Ok(object) => return Ok(Object::HomeableObject(object)),
            Err(_) => self.reset_to(start),
        }
        let t = self.current_token()?;
        match t {
            Token::KeywordSequence => {
                self.advance();
                let sequence_id = self.parse_integer()?;
                let t2 = self.current_token()?;
                match t2 {
                    Token::KeywordCue => {
                        self.advance();
                        let cue_idx = self.parse_discrete_cue_idx()?;
                        Ok(Object::SequenceCue(sequence_id, cue_idx))
                    },
                    _ => Ok(Object::Sequence(sequence_id)),
                }
            },
            Token::KeywordExecutor => {
                self.advance();
                let executor_id = self.parse_integer()?;
                self.expect(Token::KeywordCue, "Expected cue")?;
                let cue_idx = self.parse_discrete_cue_idx()?;
                Ok(Object::ExecutorCue(executor_id, cue_idx))
            },
            Token::KeywordPreset => {
                self.advance();
                let preset_id = self.parse_preset_id()?;
                Ok(Object::Preset(preset_id))
            },
            Token::KeywordMacro => {
                self.advance();
                let macro_id = self.parse_integer()?;
                Ok(Object::Macro(macro_id))
            },
            _ => Err(unexpected_token(t, "Expected object")),
        }
    }

    fn parse_object_or_range(&mut self) -> (res: Result<ObjectRange, ParseError>)
        requires
            old(self).wf(),
        ensures
            final(self).wf(),
            final(self).token_seq() == old(self).token_seq(),
            outcome(res, sp_object_or_range(old(self).token_seq(), old(self).pos()), final(self).pos()),
    {
        let from_object = self.parse_object()?;
        let t = self.current_token()?;
        match t {
            Token::KeywordThru => {
                self.advance();
                let to_object = self.parse_object()?;
                match ObjectRange::new(from_object, to_object) {
                    Ok(r) => Ok(r),
                    Err(e) => Err(ParseError::ObjectError(e)),
                }
            },
            _ => Ok(ObjectRange::single(from_object)),
        }
    }

    fn parse_home_function(&mut self) -> (res: Result<Action, ParseError>)
        requires
            old(self).wf(),
        ensures
            final(self).wf(),
            final(self).token_seq() == old(self).token_seq(),
            outcome(res, sp_home_function(old(self).token_seq(), old(self).pos()), final(self).pos()),
    {
        let start = self.mark();
        match self.parse_homeable_object() {
            Ok(object) => Ok(Action::Home(object)),
            Err(_) => {
                self.reset_to(start);
                Ok(Action::HomeAll)
            },
        }
    }

    fn parse_attribute(&mut self) -> (res: Result<FixtureChannel3Attribute, ParseError>)
        requires
            old(self).wf(),
        ensures
            final(self).wf(),
            final(self).token_seq() == old(self).token_seq(),
            outcome(res, sp_attribute(old(self).token_seq(), old(self).pos()), final(self).pos()),
    {
        let t = self.current_token()?;
        match t {
            Token::KeywordIntens => {
                self.advance();
                Ok(FixtureChannel3Attribute::Dimmer)
            },
            Token::String(string) => {
                let attribute = FixtureChannel3Attribute::from_string(string);
                self.advance();
                Ok(attribute)
            },
            _ => Err(alternatives(t, vec!["\"intens\"", "String"])),
        }
    }

    fn parse_discrete_feature_type(&mut self) -> (res: Result<FixtureChannel3FeatureType, ParseError>)
        requires
            old(self).wf(),
        ensures
            final(self).wf(),
            final(self).token_seq() == old(self).token_seq(),
            outcome(res, sp_feature_type(old(self).token_seq(), old(self).pos()), final(self).pos()),
    {
        let t = self.current_token()?;
        match t {
            Token::KeywordIntens => {
                self.advance();
                Ok(FixtureChannel3FeatureType::Dimmer)
            },
            _ => {
                let mut alts: Vec<&'static str> = Vec::new();
                alts.push("\"intens\"");
                assert(alts@ == seq!["\"intens\""]);
                Err(alternatives(t, alts))
            },
        }
    }

    fn parse_feature_type(&mut self) -> (res: Result<FixtureChannel3FeatureType, ParseError>)
        requires
            old(self).wf(),
        ensures
            final(self).wf(),
            final(self).token_seq() == old(self).token_seq(),
            outcome(res, sp_feature_type(old(self).token_seq(), old(self).pos()), final(self).pos()),
    {
        self.parse_discrete_feature_type()
    }

    fn parse_feature_items(&mut self) -> (res: Result<FeatureTypeList, ParseError>)
        requires
            old(self).wf(),
        ensures
            final(self).wf(),
            final(self).token_seq() == old(self).token_seq(),
            outcome(res, sp_feature_items(old(self).token_seq(), old(self).pos()), final(self).pos()),
        decreases old(self).token_seq().len() - old(self).pos(),
    {
        if !self.has_current_token() {
            return Err(ParseError::UnexpectedEndOfInput);
        }
        let channel_type = self.parse_feature_type()?;
        let t = self.current_token()?;
        match t {
            Token::ParenClose => {
                self.advance();
                Ok(FeatureTypeList::Cons(channel_type, Box::new(FeatureTypeList::Empty)))
            },
            Token::Comma => {
                self.advance();
                let rest = self.parse_feature_items()?;
                Ok(FeatureTypeList::Cons(channel_type, Box::new(rest)))
            },
            _ => Err(unexpected_token(t, "Expected ,")),
        }
    }

    fn parse_feature_type_list(&mut self) -> (res: Result<FeatureTypeList, ParseError>)
        requires
            old(self).wf(),
        ensures
            final(self).wf(),
            final(self).token_seq() == old(self).token_seq(),
            outcome(res, sp_feature_type_list(old(self).token_seq(), old(self).pos()), final(self).pos()),
    {
        self.expect(Token::ParenOpen, "Expected (")?;
        let t = self.current_token()?;
        match t {
            Token::ParenClose => {
                self.advance();
                Ok(FeatureTypeList::Empty)
            },
            _ => self.parse_feature_items(),
        }
    }
    fn parse_specific_preset(&mut self) -> (res: Result<FixturePresetId, ParseError>)
        requires
            old(self).wf(),
        ensures
            final(self).wf(),
            final(self).token_seq() == old(self).token_seq(),
            outcome(res, sp_specific_preset(old(self).token_seq(), old(self).pos()), final(self).pos()),
    {
        self.expect(Token::KeywordPreset, "Expected \"preset\"")?;
        self.parse_preset_id()
    }

    fn parse_specific_preset_or_range(&mut self) -> (res: Result<
        ValueOrRange<FixturePresetId>,
        ParseError,
    >)
        requires
            old(self).wf(),
        ensures
            final(self).wf(),
            final(self).token_seq() == old(self).token_seq(),
            outcome(
                res,
                sp_specific_preset_or_range(old(self).token_seq(), old(self).pos()),
                final(self).pos(),
            ),
    {
        let preset_id = self.parse_specific_preset()?;
        let t = self.current_token()?;
        match t {
            Token::KeywordThru => {
                self.advance();
                let end_preset_id = self.parse_specific_preset()?;
                Ok(ValueOrRange::Thru(preset_id, end_preset_id))
            },
            _ => Ok(ValueOrRange::Single(preset_id)),
        }
    }

    fn parse_discrete_channel_value_single(&mut self) -> (res: Result<F32Bits, ParseError>)
        requires
            old(self).wf(),
        ensures
            final(self).wf(),
            final(self).token_seq() == old(self).token_seq(),
            outcome(res, sp_discrete_value(old(self).token_seq(), old(self).pos()), final(self).pos()),
    {
        let t = self.current_token()?;
        match t {
            Token::KeywordFull => {
                self.advance();
                Ok(F32Bits(F32Bits::FULL))
            },
            Token::KeywordHalf => {
                self.advance();
                Ok(F32Bits(F32Bits::HALF))
            },
            Token::KeywordOut => {
                self.advance();
                Ok(F32Bits(F32Bits::OUT))
            },
            Token::FloatingPoint(value, _, _) => {
                self.advance();
                Ok(*value)
            },
            _ => Err(
                alternatives(t, vec!["\"full\"", "\"half\"", "\"out\"", "floating point value"]),
            ),
        }
    }

    fn parse_channel_value_single(&mut self) -> (res: Result<
        Option<ValueOrRange<F32Bits>>,
        ParseError,
    >)
        requires
            old(self).wf(),
        ensures
            final(self).wf(),
            final(self).token_seq() == old(self).token_seq(),
            outcome(
                res,
                sp_channel_value_single(old(self).token_seq(), old(self).pos()),
                final(self).pos(),
            ),
    {
        let t = self.current_token()?;
        if let Token::KeywordHome = t {
            self.advance();
            return Ok(None);
        }
        let value_a = self.parse_discrete_channel_value_single()?;
        let t2 = self.current_token()?;
        match t2 {
            Token::KeywordThru => {
                self.advance();
                let value_b = self.parse_discrete_channel_value_single()?;
                Ok(Some(ValueOrRange::Thru(value_a, value_b)))
            },
            _ => Ok(Some(ValueOrRange::Single(value_a))),
        }
    }

    fn parse_currently_selected_set_function(&mut self) -> (res: Result<Action, ParseError>)
        requires
            old(self).wf(),
        ensures
            final(self).wf(),
            final(self).token_seq() == old(self).token_seq(),
            outcome(
                res,
                sp_currently_selected_set(old(self).token_seq(), old(self).pos()),
                final(self).pos(),
            ),
    {
        let attribute = self.parse_attribute()?;
        let feature_value = self.parse_channel_value_single()?;
        let attribute_value = match feature_value {
            Some(v) => Some(SetAttributeValue::Absolute(v)),
            None => None,
        };
        Ok(
            Action::SetAttributeValue(
                SetAttributeValueArgs {
                    fixture_selector: FixtureSelector::current_fixtures_selected(),
                    attribute,
                    attribute_value,
                },
            ),
        )
    }

    fn parse_set_function(&mut self, fixture_selector: FixtureSelector) -> (res: Result<
        Action,
        ParseError,
    >)
        requires
            old(self).wf(),
        ensures
            final(self).wf(),
            final(self).token_seq() == old(self).token_seq(),
            outcome(
                res,
                sp_set_function(old(self).token_seq(), old(self).pos(), fixture_selector),
                final(self).pos(),
            ),
    {
        let start = self.mark();
        let preset = self.parse_specific_preset_or_range();
        let preset_err = match preset {
            Ok(preset_id) => {
                return Ok(
                    Action::SetFixturePreset(
                        SetFixturePresetArgs {
                            selection_or_selector: SelectionOrSelector::Selector(fixture_selector),
                            preset_id,
                        },
                    ),
                );
            },
            Err(e) => {
                self.reset_to(start);
                e
            },
        };
        let attribute = self.parse_attribute()?;
        let start2 = self.mark();
        match self.parse_channel_value_single() {
            Ok(feature_value) => {
                let attribute_value = match feature_value {
                    Some(v) => Some(SetAttributeValue::Absolute(v)),
                    None => None,
                };
                Ok(
                    Action::SetAttributeValue(
                        SetAttributeValueArgs { fixture_selector, attribute, attribute_value },
                    ),
                )
            },
            Err(value_err) => {
                self.reset_to(start2);
                Err(
                    variant_error(
                        "\"preset\" <channel_type> <id>",
                        preset_err,
                        "discrete channel value",
                        value_err,
                    ),
                )
            },
        }
    }

    fn parse_string(&mut self) -> (res: Result<String, ParseError>)
        requires
            old(self).wf(),
        ensures
            final(self).wf(),
            final(self).token_seq() == old(self).token_seq(),
            outcome(res, sp_string(old(self).token_seq(), old(self).pos()), final(self).pos()),
    {
        let t = self.current_token()?;
        match t {
            Token::String(name) => {
                self.advance();
                Ok(name.clone())
            },
            _ => Err(unexpected_token(t, "Expected string")),
        }
    }

    fn parse_optional_string(&mut self) -> (res: Result<Option<String>, ParseError>)
        requires
            old(self).wf(),
        ensures
            final(self).wf(),
            final(self).token_seq() == old(self).token_seq(),
            outcome(res, sp_optional_string(old(self).token_seq(), old(self).pos()), final(self).pos()),
    {
        let t = self.current_token()?;
        match t {
            Token::String(name) => {
                self.advance();
                Ok(Some(name.clone()))
            },
            _ => Ok(None),
        }
    }

    fn parse_as(&mut self) -> (res: Result<String, ParseError>)
        requires
            old(self).wf(),
        ensures
            final(self).wf(),
            final(self).token_seq() == old(self).token_seq(),
            outcome(res, sp_as(old(self).token_seq(), old(self).pos()), final(self).pos()),
    {
        self.expect(Token::KeywordAs, "Expected \"as\"")?;
        self.parse_string()
    }

    /// `as` and a name, if they stand at the position; nothing is read
    /// otherwise.
    fn parse_optional_as(&mut self) -> (res: Option<String>)
        requires
            old(self).wf(),
        ensures
            final(self).wf(),
            final(self).token_seq() == old(self).token_seq(),
            (res, final(self).pos()) == sp_optional_as(old(self).token_seq(), old(self).pos()),
    {
        let start = self.mark();
        match self.parse_as() {
            Ok(name) => Some(name),
            Err(_) => {
                self.reset_to(start);
                None
            },
        }
    }

    fn parse_float(&mut self) -> (res: Result<F32Bits, ParseError>)
        requires
            old(self).wf(),
        ensures
            final(self).wf(),
            final(self).token_seq() == old(self).token_seq(),
            outcome(res, sp_float(old(self).token_seq(), old(self).pos()), final(self).pos()),
    {
        let t = self.current_token()?;
        match t {
            Token::FloatingPoint(f, _, _) => {
                self.advance();
                Ok(*f)
            },
            _ => Err(unexpected_token(t, "Expected float")),
        }
    }

    fn parse_float_individual(&mut self) -> (res: Result<(u32, u32), ParseError>)
        requires
            old(self).wf(),
        ensures
            final(self).wf(),
            final(self).token_seq() == old(self).token_seq(),
            outcome(res, sp_float_individual(old(self).token_seq(), old(self).pos()), final(self).pos()),
    {
        let t = self.current_token()?;
        match t {
            Token::FloatingPoint(_, n, frac) => {
                self.advance();
                Ok((*n, *frac))
            },
            _ => Err(unexpected_token(t, "Expected float")),
        }
    }

    fn parse_button_id(&mut self, is_unassign: bool) -> (res: Result<(u32, u32), ParseError>)
        requires
            old(self).wf(),
        ensures
            final(self).wf(),
            final(self).token_seq() == old(self).token_seq(),
            outcome(
                res,
                sp_button_id(old(self).token_seq(), old(self).pos(), is_unassign),
                final(self).pos(),
            ),
    {
        match self.parse_float_individual() {
            Ok(x) => Ok(x),
            Err(err) => {
                let mut expected: Vec<ExpectedParseSlice> = Vec::new();
                expected.push(ExpectedParseSlice::ButtonId { is_unassign });
                Err(ParseError::Expected(Box::new(err), expected))
            },
        }
    }

    fn parse_fader_id(&mut self, is_unassign: bool) -> (res: Result<(u32, u32), ParseError>)
        requires
            old(self).wf(),
        ensures
            final(self).wf(),
            final(self).token_seq() == old(self).token_seq(),
            outcome(
                res,
                sp_fader_id(old(self).token_seq(), old(self).pos(), is_unassign),
                final(self).pos(),
            ),
    {
        match self.parse_float_individual() {
            Ok(x) => Ok(x),
            Err(err) => {
                let mut expected: Vec<ExpectedParseSlice> = Vec::new();
                expected.push(ExpectedParseSlice::FaderId { is_unassign });
                Err(ParseError::Expected(Box::new(err), expected))
            },
        }
    }

    fn parse_integer_or_range(&mut self) -> (res: Result<(u32, u32), ParseError>)
        requires
            old(self).wf(),
        ensures
            final(self).wf(),
            final(self).token_seq() == old(self).token_seq(),
            outcome(res, sp_integer_or_range(old(self).token_seq(), old(self).pos()), final(self).pos()),
    {
        let start = self.parse_integer()?;
        let t = self.current_token()?;
        match t {
            Token::KeywordThru => {
                self.advance();
                let end = self.parse_integer()?;
                Ok((start, end))
            },
            _ => Ok((start, start)),
        }
    }

    fn parse_integer_or_next(&mut self) -> (res: Result<Option<u32>, ParseError>)
        requires
            old(self).wf(),
        ensures
            final(self).wf(),
            final(self).token_seq() == old(self).token_seq(),
            outcome(res, sp_integer_or_next(old(self).token_seq(), old(self).pos()), final(self).pos()),
    {
        let t = self.current_token()?;
        match t {
            Token::Integer(value) => {
                self.advance();
                Ok(Some(*value))
            },
            Token::KeywordNext => {
                self.advance();
                Ok(None)
            },
            _ => Err(alternatives(t, vec!["integer", "\"next\""])),
        }
    }

    fn parse_cue_idx_or_next(&mut self) -> (res: Result<Option<CueIdx>, ParseError>)
        requires
            old(self).wf(),
        ensures
            final(self).wf(),
            final(self).token_seq() == old(self).token_seq(),
            outcome(res, sp_cue_idx_or_next(old(self).token_seq(), old(self).pos()), final(self).pos()),
    {
        let start = self.mark();
        match self.parse_discrete_cue_idx() {
            Ok(c) => return Ok(Some(c)),
            Err(_) => self.reset_to(start),
        }
        let t = self.current_token()?;
        match t {
            Token::KeywordNext => {
                self.advance();
                Ok(None)
            },
            _ => Err(alternatives(t, vec!["cue index (a / a.b)", "\"next\""])),
        }
    }

    fn parse_update_mode(&mut self) -> (res: Result<UpdateMode, ParseError>)
        requires
            old(self).wf(),
        ensures
            final(self).wf(),
            final(self).token_seq() == old(self).token_seq(),
            outcome(res, sp_update_mode(old(self).token_seq(), old(self).pos()), final(self).pos()),
    {
        let t = self.current_token()?;
        match t {
            Token::KeywordMerge => {
                self.advance();
                Ok(UpdateMode::Merge)
            },
            Token::KeywordOverride => {
                self.advance();
                Ok(UpdateMode::Override)
            },
            _ => Err(alternatives(t, vec!["\"merge\"", "\"override\""])),
        }
    }

    /// The update mode if one stands at the position, else merge (nothing
    /// is read then).
    fn parse_optional_update_mode(&mut self) -> (res: UpdateMode)
        requires
            old(self).wf(),
        ensures
            final(self).wf(),
            final(self).token_seq() == old(self).token_seq(),
            (res, final(self).pos()) == sp_optional_update_mode(old(self).token_seq(), old(self).pos()),
    {
        let start = self.mark();
        match self.parse_update_mode() {
            Ok(m) => m,
            Err(_) => {
                self.reset_to(start);
                UpdateMode::Merge
            },
        }
    }

    fn parse_record_channel_type_selector(&mut self) -> (res: Result<
        RecordChannelTypeSelector,
        ParseError,
    >)
        requires
            old(self).wf(),
        ensures
            final(self).wf(),
            final(self).token_seq() == old(self).token_seq(),
            outcome(
                res,
                sp_record_channel_type_selector(old(self).token_seq(), old(self).pos()),
                final(self).pos(),
            ),
    {
        let t = self.current_token()?;
        match t {
            Token::KeywordAll => {
                self.advance();
                Ok(RecordChannelTypeSelector::All)
            },
            Token::KeywordActive => {
                self.advance();
                Ok(RecordChannelTypeSelector::Active)
            },
            _ => Ok(RecordChannelTypeSelector::Features(self.parse_feature_type_list()?)),
        }
    }

    /// An optional `with` clause naming the channels to take.
    fn parse_with_channel_types(&mut self) -> (res: Result<RecordChannelTypeSelector, ParseError>)
        requires
            old(self).wf(),
        ensures
            final(self).wf(),
            final(self).token_seq() == old(self).token_seq(),
            outcome(
                res,
                sp_with_channel_types(old(self).token_seq(), old(self).pos()),
                final(self).pos(),
            ),
    {
        let t = self.current_token()?;
        match t {
            Token::KeywordWith => {
                self.advance();
                self.parse_record_channel_type_selector()
            },
            _ => Ok(RecordChannelTypeSelector::Active),
        }
    }
    #[verifier::rlimit(40)]
    fn parse_record_function(&mut self) -> (res: Result<Action, ParseError>)
        requires
            old(self).wf(),
        ensures
            final(self).wf(),
            final(self).token_seq() == old(self).token_seq(),
            outcome(res, sp_record(old(self).token_seq(), old(self).pos()), final(self).pos()),
    {
        let t = self.current_token()?;
        match t {
            Token::KeywordPreset => {
                self.advance();
                let id = self.parse_preset_id()?;
                self.expect(Token::KeywordFor, "Expected \"for\"")?;
                let fixture_selector = self.parse_fixture_selector()?;
                let name = self.parse_optional_as();
                let t2 = self.current_token()?;
                let should_next = match t2 {
                    Token::KeywordNext => {
                        self.advance();
                        true
                    },
                    _ => false,
                };
                Ok(Action::RecordPreset(RecordPresetArgs { id, fixture_selector, name, should_next }))
            },
            Token::KeywordGroup => {
                self.advance();
                let id = self.parse_integer_or_next()?;
                self.expect(Token::KeywordFor, "Expected \"for\"")?;
                let fixture_selector = self.parse_fixture_selector()?;
                let name = self.parse_optional_as();
                Ok(Action::RecordGroup2(RecordGroupArgs { id, fixture_selector, name }))
            },
            Token::KeywordSequence => {
                self.advance();
                let sequence_id = self.parse_integer()?;
                self.expect(Token::KeywordCue, "Expected \"cue\"")?;
                let cue_idx = self.parse_cue_idx_or_next()?;
                self.expect(Token::KeywordFor, "Expected \"for\"")?;
                let fixture_selector = self.parse_fixture_selector()?;
                let channel_type_selector = self.parse_with_channel_types()?;
                Ok(
                    Action::RecordSequenceCue(
                        RecordSequenceCueArgs {
                            sequence_id,
                            cue_idx,
                            fixture_selector,
                            channel_type_selector,
                        },
                    ),
                )
            },
            Token::KeywordExecutor => {
                self.advance();
                let id = self.parse_integer()?;
                let t2 = self.current_token()?;
                let cue_idx = match t2 {
                    Token::KeywordNext => {
                        self.advance();
                        None
                    },
                    Token::KeywordCue => {
                        self.advance();
                        self.parse_cue_idx_or_next()?
                    },
                    _ => None,
                };
                self.expect(Token::KeywordFor, "Expected \"for\"")?;
                let fixture_selector = self.parse_fixture_selector()?;
                let channel_type_selector = self.parse_with_channel_types()?;
                let sequence_name = self.parse_optional_as();
                Ok(
                    Action::RecordSequenceCueShorthand(
                        RecordSequenceCueShorthandArgs {
                            id: RecordSequenceCueShorthandArgsId::ExecutorId(id),
                            cue_idx,
                            fixture_selector,
                            channel_type_selector,
                            sequence_name,
                        },
                    ),
                )
            },
            _ => Err(
                alternatives(t, vec!["\"preset\"", "\"group\"", "\"sequence\"", "\"executor\""]),
            ),
        }
    }

    fn parse_rename_function(&mut self) -> (res: Result<Action, ParseError>)
        requires
            old(self).wf(),
        ensures
            final(self).wf(),
            final(self).token_seq() == old(self).token_seq(),
            outcome(res, sp_rename(old(self).token_seq(), old(self).pos()), final(self).pos()),
    {
        let object = self.parse_object()?;
        self.expect(Token::KeywordTo, "Expected \"to\"")?;
        let new_name = self.parse_string()?;
        Ok(Action::Rename(RenameObjectArgs { object, new_name }))
    }

    fn parse_create_function(&mut self) -> (res: Result<Action, ParseError>)
        requires
            old(self).wf(),
        ensures
            final(self).wf(),
            final(self).token_seq() == old(self).token_seq(),
            outcome(res, sp_create(old(self).token_seq(), old(self).pos()), final(self).pos()),
        decreases old(self).token_seq().len() - old(self).pos(), 1int,
    {
        let t = self.current_token()?;
        match t {
            Token::KeywordSequence => {
                self.advance();
                let id = self.parse_integer_or_next()?;
                let name = self.parse_optional_as();
                Ok(Action::CreateSequence(CreateSequenceArgs { id, name }))
            },
            Token::KeywordExecutor => {
                self.advance();
                let id = self.parse_integer_or_next()?;
                self.expect(Token::KeywordFor, "Expected \"for\"")?;
                self.expect(Token::KeywordSequence, "Expected \"sequence\"")?;
                let sequence_id = self.parse_integer()?;
                Ok(Action::CreateExecutor(CreateExecutorArgs { id, sequence_id }))
            },
            Token::KeywordMacro => {
                self.advance();
                let id = self.parse_integer_or_next()?;
                self.expect(Token::KeywordWith, "Expected \"with\"")?;
                let macro_action = self.parse_command()?;
                let name = self.parse_optional_as();
                Ok(Action::CreateMacro(CreateMacroArgs { id, action: Box::new(macro_action), name }))
            },
            Token::KeywordPreset => {
                self.advance();
                let (feature_group_id, preset_id) = self.parse_float_individual()?;
                let name = self.parse_optional_as();
                let feature_group = match FixtureChannel3FeatureGroup::try_from_id(feature_group_id) {
                    Ok(g) => g,
                    Err(_) => return Err(
                        ParseError::UnexpectedArgs("Expected feature group id".to_owned()),
                    ),
                };
                Ok(
                    Action::CreateEffectPreset(
                        CreateEffectPresetArgs {
                            id: FixturePresetId { feature_group, preset_id },
                            name,
                        },
                    ),
                )
            },
            _ => Err(
                alternatives(t, vec!["\"sequence\"", "\"executor\"", "\"macro\"", "\"fader\""]),
            ),
        }
    }

    #[verifier::rlimit(40)]
    fn parse_update_function(&mut self) -> (res: Result<Action, ParseError>)
        requires
            old(self).wf(),
        ensures
            final(self).wf(),
            final(self).token_seq() == old(self).token_seq(),
            outcome(res, sp_update(old(self).token_seq(), old(self).pos()), final(self).pos()),
    {
        let t = self.current_token()?;
        match t {
            Token::KeywordPreset => {
                self.advance();
                let id = self.parse_preset_id()?;
                let t2 = self.current_token()?;
                if let Token::KeywordGlobal = t2 {
                    self.advance();
                    return Ok(Action::UpdatePresetGlobal(UpdatePresetGlobalArgs { id }));
                }
                let keyframe_idx = match t2 {
                    Token::KeywordKeyframe => {
                        self.advance();
                        let keyframe_idx = self.parse_integer()?;
                        Some(keyframe_idx)
                    },
                    _ => None,
                };
                self.expect(Token::KeywordFor, "Expected \"for\"")?;
                let fixture_selector = self.parse_fixture_selector()?;
                let update_mode = self.parse_optional_update_mode();
                Ok(
                    Action::UpdatePreset(
                        UpdatePresetArgs { id, keyframe_idx, fixture_selector, update_mode },
                    ),
                )
            },
            Token::KeywordSequence | Token::KeywordExecutor => {
                let id_type_keyword = t.duplicate();
                self.advance();
                let id = self.parse_integer()?;
                self.expect(Token::KeywordCue, "Expected \"cue\"")?;
                let cue_idx = self.parse_discrete_cue_idx()?;
                self.expect(Token::KeywordFor, "Expected \"for\"")?;
                let fixture_selector = self.parse_fixture_selector()?;
                let channel_type_selector = self.parse_with_channel_types()?;
                let update_mode = self.parse_optional_update_mode();
                let id = UpdateSequenceCueArgsId::try_from_token(id_type_keyword, id)?;
                Ok(
                    Action::UpdateSequenceCue(
                        UpdateSequenceCueArgs {
                            id,
                            cue_idx,
                            fixture_selector,
                            channel_type_selector,
                            update_mode,
                        },
                    ),
                )
            },
            _ => Err(alternatives(t, vec!["\"preset\"", "\"sequence\""])),
        }
    }

    fn parse_delete_function(&mut self) -> (res: Result<Action, ParseError>)
        requires
            old(self).wf(),
        ensures
            final(self).wf(),
            final(self).token_seq() == old(self).token_seq(),
            outcome(res, sp_delete(old(self).token_seq(), old(self).pos()), final(self).pos()),
    {
        let object_range = self.parse_object_or_range()?;
        self.expect(Token::KeywordReally, "Expected \"really\"")?;
        Ok(Action::Delete(DeleteArgs { object_range }))
    }

    fn parse_move_function(&mut self) -> (res: Result<Action, ParseError>)
        requires
            old(self).wf(),
        ensures
            final(self).wf(),
            final(self).token_seq() == old(self).token_seq(),
            outcome(res, sp_move(old(self).token_seq(), old(self).pos()), final(self).pos()),
    {
        let preset_to_move = self.parse_specific_preset()?;
        self.expect(Token::KeywordTo, "Expected \"to\"")?;
        let target_preset = self.parse_specific_preset()?;
        Ok(Action::Move(MoveArgs { preset_to_move, target_preset }))
    }

    fn parse_set_property_function(&mut self) -> (res: Result<Action, ParseError>)
        requires
            old(self).wf(),
        ensures
            final(self).wf(),
            final(self).token_seq() == old(self).token_seq(),
            outcome(res, sp_set_property(old(self).token_seq(), old(self).pos()), final(self).pos()),
    {
        let t = self.current_token()?;
        if let Token::KeywordMaster = t {
            self.advance();
            let t2 = self.current_token()?;
            return match t2 {
                Token::KeywordGrand => {
                    self.advance();
                    let value = self.parse_float()?;
                    Ok(Action::GrandmasterSetValue(value))
                },
                Token::KeywordGroup => {
                    self.advance();
                    let group_id = self.parse_integer()?;
                    let value = self.parse_float()?;
                    Ok(Action::GroupmasterSetValue(group_id, value))
                },
                _ => Err(alternatives(t2, vec!["\"grand\"", "\"group\""])),
            };
        }
        let object = self.parse_object()?;
        let key = self.parse_string()?;
        let value = self.parse_string()?;
        Ok(Action::ObjectSetProperty(ObjectSetPropertyArgs { object, key, value }))
    }

    fn parse_config_function(&mut self) -> (res: Result<Action, ParseError>)
        requires
            old(self).wf(),
        ensures
            final(self).wf(),
            final(self).token_seq() == old(self).token_seq(),
            outcome(res, sp_config(old(self).token_seq(), old(self).pos()), final(self).pos()),
    {
        let t = self.current_token()?;
        match t {
            Token::KeywordOutput => {
                self.advance();
                Ok(Action::Config(ConfigTypeActionData::Output))
            },
            Token::KeywordPatch => {
                self.advance();
                Ok(Action::Config(ConfigTypeActionData::Patch))
            },
            _ => Err(alternatives(t, vec!["\"output\"", "\"patch\""])),
        }
    }
    #[verifier::rlimit(40)]
    fn parse_assign_function(&mut self) -> (res: Result<Action, ParseError>)
        requires
            old(self).wf(),
        ensures
            final(self).wf(),
            final(self).token_seq() == old(self).token_seq(),
            outcome(res, sp_assign(old(self).token_seq(), old(self).pos()), final(self).pos()),
        decreases old(self).token_seq().len() - old(self).pos(), 1int,
    {
        if !self.has_current_token() {
            return Err(ParseError::UnexpectedEndOfInput);
        }
        let start = self.mark();
        match self.parse_fixture_selector() {
            Ok(fixture_selector) => {
                self.expect(Token::KeywordTo, "Expected \"to\"")?;
                let (device_idx, button_id) = self.parse_button_id(false)?;
                return Ok(
                    Action::AssignButton(
                        AssignButtonArgs {
                            mode: AssignButtonArgsMode::FixtureSelector(fixture_selector),
                            device_idx: device_idx as usize,
                            button_id,
                        },
                    ),
                );
            },
            Err(_) => self.reset_to(start),
        }
        let t = self.current_token()?;
        match t {
            Token::KeywordExecutor => {
                self.advance();
                let executor_id = self.parse_integer()?;
                let t2 = self.current_token()?;
                if let Token::KeywordFader = t2 {
                    self.advance();
                    self.expect(Token::KeywordTo, "Expected \"to\"")?;
                    let (device_idx, input_fader_id) = self.parse_fader_id(false)?;
                    Ok(
                        Action::AssignFader(
                            AssignFaderArgs {
                                mode: AssignFaderArgsMode::Executor(executor_id),
                                device_idx: device_idx as usize,
                                input_fader_id,
                            },
                        ),
                    )
                } else {
                    let mode = match t2 {
                        Token::KeywordGo => {
                            self.advance();
                            AssignButtonArgsMode::ExecutorGo(executor_id)
                        },
                        Token::KeywordStop => {
                            self.advance();
                            AssignButtonArgsMode::ExecutorStop(executor_id)
                        },
                        Token::KeywordFlash => {
                            self.advance();
                            let t3 = self.current_token()?;
                            let stomp = match t3 {
                                Token::KeywordStomp => {
                                    self.advance();
                                    true
                                },
                                _ => false,
                            };
                            AssignButtonArgsMode::ExecutorFlash { id: executor_id, stomp }
                        },
                        _ => return Err(alternatives(t2, vec!["\"go\"", "\"stop\"", "\"flash\""])),
                    };
                    self.expect(Token::KeywordTo, "Expected \"to\"")?;
                    let (device_idx, button_id) = self.parse_button_id(false)?;
                    Ok(
                        Action::AssignButton(
                            AssignButtonArgs { mode, device_idx: device_idx as usize, button_id },
                        ),
                    )
                }
            },
            Token::KeywordPreset => {
                // the preset range reads the `preset` keyword itself
                let preset_id = self.parse_specific_preset_or_range()?;
                let t2 = self.current_token()?;
                let fixture_selector = match t2 {
                    Token::KeywordWith => {
                        self.advance();
                        Some(self.parse_fixture_selector()?)
                    },
                    _ => None,
                };
                self.expect(Token::KeywordTo, "Expected \"to\"")?;
                let (device_idx, button_id) = self.parse_button_id(false)?;
                Ok(
                    Action::AssignButton(
                        AssignButtonArgs {
                            mode: AssignButtonArgsMode::SelectivePreset {
                                preset_id_range: preset_id,
                                fixture_selector,
                            },
                            device_idx: device_idx as usize,
                            button_id,
                        },
                    ),
                )
            },
            Token::KeywordMacro => {
                self.advance();
                let command = self.parse_command()?;
                self.expect(Token::KeywordTo, "Expected \"to\"")?;
                let (device_idx, button_id) = self.parse_button_id(false)?;
                Ok(
                    Action::AssignButton(
                        AssignButtonArgs {
                            mode: AssignButtonArgsMode::Macro(Box::new(command)),
                            device_idx: device_idx as usize,
                            button_id,
                        },
                    ),
                )
            },
            Token::KeywordMaster => {
                self.advance();
                let t2 = self.current_token()?;
                let fader_type = match t2 {
                    Token::KeywordGrand => {
                        self.advance();
                        AssignFaderArgsMode::Grandmaster
                    },
                    Token::KeywordGroup => {
                        self.advance();
                        let group_id = self.parse_integer()?;
                        AssignFaderArgsMode::Groupmaster(group_id)
                    },
                    _ => return Err(alternatives(t2, vec!["\"grand\"", "\"group\""])),
                };
                self.expect(Token::KeywordTo, "Expected \"to\"")?;
                let (device_idx, input_fader_id) = self.parse_fader_id(false)?;
                Ok(
                    Action::AssignFader(
                        AssignFaderArgs {
                            mode: fader_type,
                            device_idx: device_idx as usize,
                            input_fader_id,
                        },
                    ),
                )
            },
            Token::KeywordSpeedmaster => {
                self.advance();
                let speed_master_id = self.parse_integer()?;
                let t2 = self.current_token()?;
                match t2 {
                    Token::KeywordFader => {
                        self.advance();
                        self.expect(Token::KeywordTo, "Expected \"to\"")?;
                        let (device_idx, input_fader_id) = self.parse_fader_id(false)?;
                        Ok(
                            Action::AssignFader(
                                AssignFaderArgs {
                                    mode: AssignFaderArgsMode::Speedmaster(speed_master_id),
                                    device_idx: device_idx as usize,
                                    input_fader_id,
                                },
                            ),
                        )
                    },
                    Token::KeywordTap => {
                        self.advance();
                        self.expect(Token::KeywordTo, "Expected \"to\"")?;
                        let (device_idx, button_id) = self.parse_button_id(false)?;
                        Ok(
                            Action::AssignButton(
                                AssignButtonArgs {
                                    mode: AssignButtonArgsMode::SpeedmasterTap(speed_master_id),
                                    device_idx: device_idx as usize,
                                    button_id,
                                },
                            ),
                        )
                    },
                    _ => Err(alternatives(t2, vec!["\"fader\"", "\"tap\""])),
                }
            },
            _ => Err(
                alternatives(
                    t,
                    vec![
                        "\"executor\"",
                        "\"fader\"",
                        "\"preset\"",
                        "\"macro\"",
                        "\"tokens\"",
                        "\"grandmaster\"",
                        "\"speedmaster\"",
                        "fixture selector",
                    ],
                ),
            ),
        }
    }

    fn parse_unassign_function(&mut self) -> (res: Result<Action, ParseError>)
        requires
            old(self).wf(),
        ensures
            final(self).wf(),
            final(self).token_seq() == old(self).token_seq(),
            outcome(res, sp_unassign(old(self).token_seq(), old(self).pos()), final(self).pos()),
    {
        let t = self.current_token()?;
        match t {
            Token::KeywordButton => {
                self.advance();
                let (device_idx, button_id) = self.parse_button_id(true)?;
                Ok(Action::UnassignInputButton { device_idx: device_idx as usize, button_id })
            },
            Token::KeywordFader => {
                self.advance();
                let (device_idx, fader_id) = self.parse_fader_id(true)?;
                Ok(Action::UnassignInputFader { device_idx: device_idx as usize, fader_id })
            },
            _ => Err(alternatives(t, vec!["\"button\"", "\"fader\""])),
        }
    }

    fn parse_recall_function(&mut self) -> (res: Result<Action, ParseError>)
        requires
            old(self).wf(),
        ensures
            final(self).wf(),
            final(self).token_seq() == old(self).token_seq(),
            outcome(res, sp_recall(old(self).token_seq(), old(self).pos()), final(self).pos()),
    {
        let t = self.current_token()?;
        match t {
            Token::KeywordSequence => {
                self.advance();
                let sequence_id = self.parse_integer()?;
                self.expect(Token::KeywordCue, "Expected \"cue\"")?;
                let cue_idx = self.parse_discrete_cue_idx()?;
                Ok(Action::RecallSequenceCue(RecallSequenceCueArgs { sequence_id, cue_idx }))
            },
            Token::KeywordPreset => {
                self.advance();
                let preset_id = self.parse_preset_id()?;
                self.expect(Token::KeywordKeyframe, "Expected \"keyframe\"")?;
                let keyframe_idx = self.parse_integer()?;
                Ok(Action::RecallEffectKeyframe(RecallEffectKeyframeArgs { preset_id, keyframe_idx }))
            },
            _ => Err(alternatives(t, vec!["\"sequence\"", "\"preset\""])),
        }
    }

    fn parse_highlight_function(&mut self) -> (res: Result<Action, ParseError>)
        requires
            old(self).wf(),
        ensures
            final(self).wf(),
            final(self).token_seq() == old(self).token_seq(),
            outcome(res, sp_highlight(old(self).token_seq(), old(self).pos()), final(self).pos()),
    {
        let start = self.mark();
        match self.parse_fixture_selector() {
            Ok(fs) => Ok(Action::Highlight(Some(fs))),
            Err(_) => {
                self.reset_to(start);
                Ok(Action::Highlight(None))
            },
        }
    }

    #[verifier::rlimit(40)]
    fn parse_function(&mut self) -> (res: Result<Action, ParseError>)
        requires
            old(self).wf(),
        ensures
            final(self).wf(),
            final(self).token_seq() == old(self).token_seq(),
            outcome(res, sp_function(old(self).token_seq(), old(self).pos()), final(self).pos()),
        decreases old(self).token_seq().len() - old(self).pos(), 2int,
    {
        let t = self.current_token()?;
        match t {
            Token::KeywordHome => {
                self.advance();
                self.parse_home_function()
            },
            Token::KeywordRecord => {
                self.advance();
                self.parse_record_function()
            },
            Token::KeywordCreate => {
                self.advance();
                self.parse_create_function()
            },
            Token::KeywordRename => {
                self.advance();
                self.parse_rename_function()
            },
            Token::KeywordUpdate => {
                self.advance();
                self.parse_update_function()
            },
            Token::KeywordDelete => {
                self.advance();
                self.parse_delete_function()
            },
            Token::KeywordMove => {
                self.advance();
                self.parse_move_function()
            },
            Token::KeywordSet => {
                self.advance();
                self.parse_set_property_function()
            },
            Token::KeywordAssign => {
                self.advance();
                self.parse_assign_function()
            },
            Token::KeywordUnassign => {
                self.advance();
                self.parse_unassign_function()
            },
            Token::KeywordClear => {
                self.advance();
                Ok(Action::ClearAll)
            },
            Token::KeywordNuzul => {
                self.advance();
                Ok(Action::Nuzul)
            },
            Token::KeywordSueud => {
                self.advance();
                Ok(Action::Sueud)
            },
            Token::KeywordGrandEtc => {
                self.advance();
                Ok(Action::GrandEtc)
            },
            Token::KeywordSave => {
                self.advance();
                Ok(Action::Save)
            },
            Token::KeywordConfig => {
                self.advance();
                self.parse_config_function()
            },
            Token::KeywordRecall => {
                self.advance();
                self.parse_recall_function()
            },
            Token::KeywordLock => {
                self.advance();
                Ok(Action::Lock)
            },
            Token::KeywordTest => {
                self.advance();
                let test_action = self.parse_string()?;
                Ok(Action::Test(test_action))
            },
            Token::KeywordHighlight => {
                self.advance();
                self.parse_highlight_function()
            },
            Token::KeywordUnhighlight => {
                self.advance();
                Ok(Action::Unhighlight)
            },
            _ => {
                let start = self.mark();
                match self.parse_currently_selected_set_function() {
                    Ok(f) => return Ok(f),
                    Err(_) => self.reset_to(start),
                }
                match self.parse_fixture_selector() {
                    Ok(fixture_selector) => return self.parse_set_function(fixture_selector),
                    Err(_) => self.reset_to(start),
                }
                Err(
                    alternatives(
                        t,
                        vec![
                            "\"home\"",
                            "\"record\"",
                            "\"create\"",
                            "\"rename\"",
                            "\"update\"",
                            "\"delete\"",
                            "\"clear\"",
                            "\"save\"",
                            "fixture selector",
                        ],
                    ),
                )
            },
        }
    }

    fn parse_command(&mut self) -> (res: Result<Action, ParseError>)
        requires
            old(self).wf(),
        ensures
            final(self).wf(),
            final(self).token_seq() == old(self).token_seq(),
            outcome(res, sp_command(old(self).token_seq(), old(self).pos()), final(self).pos()),
        decreases old(self).token_seq().len() - old(self).pos(), 3int,
    {
        let start = self.mark();
        let function_err = match self.parse_function() {
            Ok(function) => return Ok(function),
            Err(e) => {
                self.reset_to(start);
                e
            },
        };
        match self.parse_object() {
            Ok(object) => {
                let action = object.duplicate().default_action();
                match action {
                    Some(a) => Ok(a),
                    None => Err(ParseError::NoDefaultActionForObject(object)),
                }
            },
            Err(object_err) => {
                self.reset_to(start);
                Err(variant_error("function", function_err, "object", object_err))
            },
        }
    }

    /// Parses a whole command line: a command, after which at most the end
    /// marker may remain.
    pub fn parse(&mut self) -> (res: Result<Action, ParseError>)
        requires
            old(self).wf(),
        ensures
            final(self).wf(),
            final(self).token_seq() == old(self).token_seq(),
            match sp_parse(old(self).token_seq(), old(self).pos()) {
                Ok(a) => res == Ok::<Action, ParseError>(a),
                Err(e) => res matches Err(x) && x@ == e,
            },
    {
        let cmd = self.parse_command()?;
        if self.has_next_token() {
            let t = self.current_token()?;
            return Err(unexpected_token(t, "Expected EOF"));
        }
        Ok(cmd)
    }
}

/// An `UnexpectedToken` error for a copy of `t`.
fn unexpected_token(t: &Token, msg: &str) -> (res: ParseError)
    ensures
        res@ == unexpected(*t, msg@),
{
    ParseError::UnexpectedToken(t.duplicate(), msg.to_owned())
}

/// An `UnexpectedTokenAlternatives` error for a copy of `t`.
fn alternatives(t: &Token, alts: Vec<&'static str>) -> (res: ParseError)
    ensures
        res@ == ParseErrorView::UnexpectedTokenAlternatives(*t, alts@),
{
    ParseError::UnexpectedTokenAlternatives(t.duplicate(), alts)
}

/// An `UnexpectedVariant` error for two alternatives that both failed.
fn variant_error(n1: &str, e1: ParseError, n2: &str, e2: ParseError) -> (res: ParseError)
    ensures
        res@ == ParseErrorView::UnexpectedVariant(seq![(n1@, e1@), (n2@, e2@)]),
{
    let mut variants: Vec<(String, ParseError)> = Vec::new();
    variants.push((n1.to_owned(), e1));
    variants.push((n2.to_owned(), e2));
    proof {
        reveal_with_fuel(variant_views, 3);
        assert(variants@.drop_last().drop_last() =~= Seq::<(String, ParseError)>::empty());
        assert(variants@.drop_last() =~= seq![variants@[0]]);
        assert(variant_views(variants@) =~= seq![(n1@, e1@), (n2@, e2@)]);
    }
    ParseError::UnexpectedVariant(variants)
}

} // verus!
