//! The command language's tokens and syntax tree: fixture selectors,
//! objects, actions and their arguments, and parse errors.

use vstd::prelude::*;
use crate::attribute::{FixtureChannel3Attribute, FixtureChannel3FeatureType};
use crate::fixture::{FixtureId, FixturePath};
use crate::selection::{FixtureSelection, FixtureSelectionWithGroup};
use crate::text::{chars_eq, chars_of};

verus! {

/// An `f32` carried as its IEEE-754 bit pattern.
#[derive(Debug, Clone, Copy, PartialEq, Eq, Structural, Hash)]
pub struct F32Bits(pub u32);

impl F32Bits {
    /// The bits of `1.0`.
    pub const FULL: u32 = 0x3f80_0000;
    /// The bits of `0.5`.
    pub const HALF: u32 = 0x3f00_0000;
    /// The bits of `0.0`.
    pub const OUT: u32 = 0;
}

/// A token of the command language.
#[derive(Debug, Clone, PartialEq, Eq)]
pub enum Token {
    /// An unsigned integer literal.
    Integer(u32),
    /// A decimal literal: its value, and its integer and fraction digits.
    FloatingPoint(F32Bits, u32, u32),
    /// A quoted string or a bare word.
    String(String),
    /// The end of the input, which ends every token sequence.
    Eof,
    Comma,
    Exclamation,
    KeywordActive,
    KeywordAll,
    KeywordAs,
    KeywordAssign,
    KeywordButton,
    KeywordClear,
    KeywordConfig,
    KeywordCreate,
    KeywordCue,
    KeywordDelete,
    KeywordExecutor,
    KeywordFader,
    KeywordFixturesSelected,
    KeywordFlash,
    KeywordFor,
    KeywordFull,
    KeywordGlobal,
    KeywordGo,
    KeywordGrand,
    KeywordGrandEtc,
    KeywordGroup,
    KeywordHalf,
    KeywordHighlight,
    KeywordHome,
    KeywordIntens,
    KeywordKeyframe,
    KeywordLock,
    KeywordMacro,
    KeywordMaster,
    KeywordMerge,
    KeywordMove,
    KeywordNext,
    KeywordNuzul,
    KeywordOut,
    KeywordOutput,
    KeywordOverride,
    KeywordPatch,
    KeywordPreset,
    KeywordProgrammer,
    KeywordReally,
    KeywordRecall,
    KeywordRecord,
    KeywordRename,
    KeywordSave,
    KeywordSequence,
    KeywordSet,
    KeywordSpeedmaster,
    KeywordStomp,
    KeywordStop,
    KeywordSueud,
    KeywordTap,
    KeywordTest,
    KeywordThru,
    KeywordTo,
    KeywordUnassign,
    KeywordUnhighlight,
    KeywordUpdate,
    KeywordWith,
    Minus,
    ParenClose,
    ParenOpen,
    Percent,
    Plus,
}

/// Two tokens are the same: the same word or sign, or the same kind of
/// literal holding the same value (strings compared by their characters).
pub open spec fn same_token(a: Token, b: Token) -> bool {
    match (a, b) {
        (Token::String(x), Token::String(y)) => x@ == y@,
        _ => a == b,
    }
}

impl Token {
    /// The token is the same as `other`: the same word or sign, or a literal
    /// of the same kind with the same value.
    pub fn is(&self, other: &Token) -> (res: bool)
        ensures
            res == same_token(*self, *other),
    {
        match (self, other) {
            (Token::Integer(a), Token::Integer(b)) => *a == *b,
            (Token::FloatingPoint(a, b, c), Token::FloatingPoint(x, y, z)) => a.0 == x.0 && *b == *y && *c == *z,
            (Token::String(a), Token::String(b)) => *a == *b,
            (Token::Eof, Token::Eof) => true,
            (Token::Comma, Token::Comma) => true,
            (Token::KeywordActive, Token::KeywordActive) => true,
            (Token::KeywordAll, Token::KeywordAll) => true,
            (Token::KeywordAs, Token::KeywordAs) => true,
            (Token::KeywordAssign, Token::KeywordAssign) => true,
            (Token::KeywordButton, Token::KeywordButton) => true,
            (Token::KeywordClear, Token::KeywordClear) => true,
            (Token::KeywordConfig, Token::KeywordConfig) => true,
            (Token::KeywordCreate, Token::KeywordCreate) => true,
            (Token::KeywordCue, Token::KeywordCue) => true,
            (Token::KeywordDelete, Token::KeywordDelete) => true,
            (Token::KeywordExecutor, Token::KeywordExecutor) => true,
            (Token::KeywordFader, Token::KeywordFader) => true,
            (Token::KeywordFixturesSelected, Token::KeywordFixturesSelected) => true,
            (Token::KeywordFlash, Token::KeywordFlash) => true,
            (Token::KeywordFor, Token::KeywordFor) => true,
            (Token::KeywordFull, Token::KeywordFull) => true,
            (Token::KeywordGlobal, Token::KeywordGlobal) => true,
            (Token::KeywordGo, Token::KeywordGo) => true,
            (Token::KeywordGrand, Token::KeywordGrand) => true,
            (Token::KeywordGrandEtc, Token::KeywordGrandEtc) => true,
            (Token::KeywordGroup, Token::KeywordGroup) => true,
            (Token::KeywordHalf, Token::KeywordHalf) => true,
            (Token::KeywordHighlight, Token::KeywordHighlight) => true,
            (Token::KeywordHome, Token::KeywordHome) => true,
            (Token::KeywordIntens, Token::KeywordIntens) => true,
            (Token::KeywordKeyframe, Token::KeywordKeyframe) => true,
            (Token::KeywordLock, Token::KeywordLock) => true,
            (Token::KeywordMacro, Token::KeywordMacro) => true,
            (Token::KeywordMaster, Token::KeywordMaster) => true,
            (Token::KeywordMerge, Token::KeywordMerge) => true,
            (Token::KeywordMove, Token::KeywordMove) => true,
            (Token::KeywordNext, Token::KeywordNext) => true,
            (Token::KeywordNuzul, Token::KeywordNuzul) => true,
            (Token::KeywordOut, Token::KeywordOut) => true,
            (Token::KeywordOutput, Token::KeywordOutput) => true,
            (Token::KeywordOverride, Token::KeywordOverride) => true,
            (Token::KeywordPatch, Token::KeywordPatch) => true,
            (Token::KeywordPreset, Token::KeywordPreset) => true,
            (Token::KeywordProgrammer, Token::KeywordProgrammer) => true,
            (Token::KeywordReally, Token::KeywordReally) => true,
            (Token::KeywordRecall, Token::KeywordRecall) => true,
            (Token::KeywordRecord, Token::KeywordRecord) => true,
            (Token::KeywordRename, Token::KeywordRename) => true,
            (Token::KeywordSave, Token::KeywordSave) => true,
            (Token::KeywordSequence, Token::KeywordSequence) => true,
            (Token::KeywordSet, Token::KeywordSet) => true,
            (Token::KeywordSpeedmaster, Token::KeywordSpeedmaster) => true,
            (Token::KeywordStomp, Token::KeywordStomp) => true,
            (Token::KeywordStop, Token::KeywordStop) => true,
            (Token::KeywordSueud, Token::KeywordSueud) => true,
            (Token::KeywordTap, Token::KeywordTap) => true,
            (Token::KeywordTest, Token::KeywordTest) => true,
            (Token::KeywordThru, Token::KeywordThru) => true,
            (Token::KeywordTo, Token::KeywordTo) => true,
            (Token::KeywordUnassign, Token::KeywordUnassign) => true,
            (Token::KeywordUnhighlight, Token::KeywordUnhighlight) => true,
            (Token::KeywordUpdate, Token::KeywordUpdate) => true,
            (Token::KeywordWith, Token::KeywordWith) => true,
            (Token::Exclamation, Token::Exclamation) => true,
            (Token::Minus, Token::Minus) => true,
            (Token::ParenClose, Token::ParenClose) => true,
            (Token::ParenOpen, Token::ParenOpen) => true,
            (Token::Percent, Token::Percent) => true,
            (Token::Plus, Token::Plus) => true,
            _ => false,
        }
    }

    /// A copy of the token.
    pub fn duplicate(&self) -> (res: Token)
        ensures
            res == *self,
    {
        match self {
            Token::Integer(v) => Token::Integer(*v),
            Token::FloatingPoint(f, a, b) => Token::FloatingPoint(*f, *a, *b),
            Token::String(s) => Token::String(s.clone()),
            Token::Eof => Token::Eof,
            Token::Comma => Token::Comma,
            Token::Exclamation => Token::Exclamation,
            Token::KeywordActive => Token::KeywordActive,
            Token::KeywordAll => Token::KeywordAll,
            Token::KeywordAs => Token::KeywordAs,
            Token::KeywordAssign => Token::KeywordAssign,
            Token::KeywordButton => Token::KeywordButton,
            Token::KeywordClear => Token::KeywordClear,
            Token::KeywordConfig => Token::KeywordConfig,
            Token::KeywordCreate => Token::KeywordCreate,
            Token::KeywordCue => Token::KeywordCue,
            Token::KeywordDelete => Token::KeywordDelete,
            Token::KeywordExecutor => Token::KeywordExecutor,
            Token::KeywordFader => Token::KeywordFader,
            Token::KeywordFixturesSelected => Token::KeywordFixturesSelected,
            Token::KeywordFlash => Token::KeywordFlash,
            Token::KeywordFor => Token::KeywordFor,
            Token::KeywordFull => Token::KeywordFull,
            Token::KeywordGlobal => Token::KeywordGlobal,
            Token::KeywordGo => Token::KeywordGo,
            Token::KeywordGrand => Token::KeywordGrand,
            Token::KeywordGrandEtc => Token::KeywordGrandEtc,
            Token::KeywordGroup => Token::KeywordGroup,
            Token::KeywordHalf => Token::KeywordHalf,
            Token::KeywordHighlight => Token::KeywordHighlight,
            Token::KeywordHome => Token::KeywordHome,
            Token::KeywordIntens => Token::KeywordIntens,
            Token::KeywordKeyframe => Token::KeywordKeyframe,
            Token::KeywordLock => Token::KeywordLock,
            Token::KeywordMacro => Token::KeywordMacro,
            Token::KeywordMaster => Token::KeywordMaster,
            Token::KeywordMerge => Token::KeywordMerge,
            Token::KeywordMove => Token::KeywordMove,
            Token::KeywordNext => Token::KeywordNext,
            Token::KeywordNuzul => Token::KeywordNuzul,
            Token::KeywordOut => Token::KeywordOut,
            Token::KeywordOutput => Token::KeywordOutput,
            Token::KeywordOverride => Token::KeywordOverride,
            Token::KeywordPatch => Token::KeywordPatch,
            Token::KeywordPreset => Token::KeywordPreset,
            Token::KeywordProgrammer => Token::KeywordProgrammer,
            Token::KeywordReally => Token::KeywordReally,
            Token::KeywordRecall => Token::KeywordRecall,
            Token::KeywordRecord => Token::KeywordRecord,
            Token::KeywordRename => Token::KeywordRename,
            Token::KeywordSave => Token::KeywordSave,
            Token::KeywordSequence => Token::KeywordSequence,
            Token::KeywordSet => Token::KeywordSet,
            Token::KeywordSpeedmaster => Token::KeywordSpeedmaster,
            Token::KeywordStomp => Token::KeywordStomp,
            Token::KeywordStop => Token::KeywordStop,
            Token::KeywordSueud => Token::KeywordSueud,
            Token::KeywordTap => Token::KeywordTap,
            Token::KeywordTest => Token::KeywordTest,
            Token::KeywordThru => Token::KeywordThru,
            Token::KeywordTo => Token::KeywordTo,
            Token::KeywordUnassign => Token::KeywordUnassign,
            Token::KeywordUnhighlight => Token::KeywordUnhighlight,
            Token::KeywordUpdate => Token::KeywordUpdate,
            Token::KeywordWith => Token::KeywordWith,
            Token::Minus => Token::Minus,
            Token::ParenClose => Token::ParenClose,
            Token::ParenOpen => Token::ParenOpen,
            Token::Percent => Token::Percent,
            Token::Plus => Token::Plus,
        }
    }
}

/// A part of a fixture selection that stands on its own.
#[derive(Debug)]
pub enum AtomicFixtureSelector {
    /// The fixtures that are currently selected (`~`).
    CurrentFixturesSelected,
    SingleFixture(FixtureId),
    /// The fixtures from the first id through the second.
    FixtureRange(FixtureId, FixtureId),
    SingleFixturePath(FixturePath),
    /// The sub-fixtures of a path's parent, from the path through the id.
    FixturePathRange(FixturePath, FixtureId),
    /// A parenthesised selector.
    SelectorGroup(Box<FixtureSelector>),
    /// The fixtures of a group.
    FixtureGroup(u32),
}

/// A fixture selection expression.
#[derive(Debug)]
pub enum FixtureSelector {
    Atomic(AtomicFixtureSelector),
    /// The fixtures of the first part and of the rest.
    Additive(AtomicFixtureSelector, Box<FixtureSelector>),
    /// The fixtures of the first part without those of the rest.
    Subtractive(AtomicFixtureSelector, Box<FixtureSelector>),
    /// Every `n`-th fixture of the part (or all others, when inverted).
    Modulus(AtomicFixtureSelector, u32, bool),
}

impl FixtureSelector {
    /// The selector of the currently selected fixtures.
    pub fn current_fixtures_selected() -> (res: FixtureSelector)
        ensures
            res == FixtureSelector::Atomic(AtomicFixtureSelector::CurrentFixturesSelected),
    {
        FixtureSelector::Atomic(AtomicFixtureSelector::CurrentFixturesSelected)
    }
}

/// The index of a cue in a sequence: major and minor number (`3` is `(3, 0)`,
/// `3.5` is `(3, 5)`).
#[derive(Debug, Clone, Copy, PartialEq, Eq, Structural, PartialOrd, Ord, Hash)]
pub struct CueIdx(pub u16, pub u16);

/// The feature groups that presets are recorded for.
#[derive(Debug, Clone, Copy, PartialEq, Eq, Structural, PartialOrd, Ord, Hash)]
pub enum FixtureChannel3FeatureGroup {
    Dimmer,
    Position,
    Gobo,
    Color,
    Beam,
    Focus,
    Control,
    Shapers,
    Video,
}

/// The feature group with the given number (groups are numbered from 1).
pub open spec fn feature_group_of_id(id: u32) -> Option<FixtureChannel3FeatureGroup> {
    if id == 1 {
        Some(FixtureChannel3FeatureGroup::Dimmer)
    } else if id == 2 {
        Some(FixtureChannel3FeatureGroup::Position)
    } else if id == 3 {
        Some(FixtureChannel3FeatureGroup::Gobo)
    } else if id == 4 {
        Some(FixtureChannel3FeatureGroup::Color)
    } else if id == 5 {
        Some(FixtureChannel3FeatureGroup::Beam)
    } else if id == 6 {
        Some(FixtureChannel3FeatureGroup::Focus)
    } else if id == 7 {
        Some(FixtureChannel3FeatureGroup::Control)
    } else if id == 8 {
        Some(FixtureChannel3FeatureGroup::Shapers)
    } else if id == 9 {
        Some(FixtureChannel3FeatureGroup::Video)
    } else {
        None
    }
}

/// The feature group with the given name.
pub open spec fn feature_group_of_name(s: Seq<char>) -> Option<FixtureChannel3FeatureGroup> {
    if s == "Dimmer"@ {
        Some(FixtureChannel3FeatureGroup::Dimmer)
    } else if s == "Position"@ {
        Some(FixtureChannel3FeatureGroup::Position)
    } else if s == "Gobo"@ {
        Some(FixtureChannel3FeatureGroup::Gobo)
    } else if s == "Color"@ {
        Some(FixtureChannel3FeatureGroup::Color)
    } else if s == "Beam"@ {
        Some(FixtureChannel3FeatureGroup::Beam)
    } else if s == "Focus"@ {
        Some(FixtureChannel3FeatureGroup::Focus)
    } else if s == "Control"@ {
        Some(FixtureChannel3FeatureGroup::Control)
    } else if s == "Shapers"@ {
        Some(FixtureChannel3FeatureGroup::Shapers)
    } else if s == "Video"@ {
        Some(FixtureChannel3FeatureGroup::Video)
    } else {
        None
    }
}

impl FixtureChannel3FeatureGroup {
    /// The feature group with the given number.
    pub fn try_from_id(id: u32) -> (res: Result<FixtureChannel3FeatureGroup, ()>)
        ensures
            match feature_group_of_id(id) {
                Some(g) => res == Ok::<FixtureChannel3FeatureGroup, ()>(g),
                None => res is Err,
            },
    {
        match id {
            1 => Ok(FixtureChannel3FeatureGroup::Dimmer),
            2 => Ok(FixtureChannel3FeatureGroup::Position),
            3 => Ok(FixtureChannel3FeatureGroup::Gobo),
            4 => Ok(FixtureChannel3FeatureGroup::Color),
            5 => Ok(FixtureChannel3FeatureGroup::Beam),
            6 => Ok(FixtureChannel3FeatureGroup::Focus),
            7 => Ok(FixtureChannel3FeatureGroup::Control),
            8 => Ok(FixtureChannel3FeatureGroup::Shapers),
            9 => Ok(FixtureChannel3FeatureGroup::Video),
            _ => Err(()),
        }
    }

    /// The feature group with the given name.
    pub fn from_str(s: &str) -> (res: Result<FixtureChannel3FeatureGroup, ()>)
        ensures
            match feature_group_of_name(s@) {
                Some(g) => res == Ok::<FixtureChannel3FeatureGroup, ()>(g),
                None => res is Err,
            },
    {
        let cs = chars_of(s);
        if chars_eq(cs.as_slice(), "Dimmer") {
            Ok(FixtureChannel3FeatureGroup::Dimmer)
        } else if chars_eq(cs.as_slice(), "Position") {
            Ok(FixtureChannel3FeatureGroup::Position)
        } else if chars_eq(cs.as_slice(), "Gobo") {
            Ok(FixtureChannel3FeatureGroup::Gobo)
        } else if chars_eq(cs.as_slice(), "Color") {
            Ok(FixtureChannel3FeatureGroup::Color)
        } else if chars_eq(cs.as_slice(), "Beam") {
            Ok(FixtureChannel3FeatureGroup::Beam)
        } else if chars_eq(cs.as_slice(), "Focus") {
            Ok(FixtureChannel3FeatureGroup::Focus)
        } else if chars_eq(cs.as_slice(), "Control") {
            Ok(FixtureChannel3FeatureGroup::Control)
        } else if chars_eq(cs.as_slice(), "Shapers") {
            Ok(FixtureChannel3FeatureGroup::Shapers)
        } else if chars_eq(cs.as_slice(), "Video") {
            Ok(FixtureChannel3FeatureGroup::Video)
        } else {
            Err(())
        }
    }
}

/// The id of a preset: its feature group and its number in the group.
#[derive(Debug, Clone, Copy, PartialEq, Eq, Structural, PartialOrd, Ord, Hash)]
pub struct FixturePresetId {
    pub feature_group: FixtureChannel3FeatureGroup,
    pub preset_id: u32,
}

/// An object that can be homed.
#[derive(Debug)]
pub enum HomeableObject {
    CurrentFixtureSelection,
    FixtureSelector(FixtureSelector),
    Group(u32),
    Executor(u32),
    Programmer,
}

/// An object that commands act on.
#[derive(Debug)]
pub enum Object {
    HomeableObject(HomeableObject),
    Sequence(u32),
    SequenceCue(u32, CueIdx),
    ExecutorCue(u32, CueIdx),
    Preset(FixturePresetId),
    Macro(u32),
}

/// Errors about objects.
#[derive(Debug)]
pub enum ObjectError {
    /// A range's two ends are objects of different kinds.
    ObjectVariantMismatch(Object, Object),
    ObjectSetKeyInvalid(String),
    ObjectSetValueInvalid(String, String),
    ObjectNotPresent,
}

/// A single value or an inclusive range of values.
#[derive(Debug, Copy, Clone, PartialEq, Eq, Structural)]
pub enum ValueOrRange<T> {
    Single(T),
    Thru(T, T),
}

impl<T: Copy> ValueOrRange<T> {
    /// The range's ends; a single value is both ends.
    pub fn as_pair(self) -> (res: (T, T))
        ensures
            res == match self {
                ValueOrRange::Single(v) => (v, v),
                ValueOrRange::Thru(a, b) => (a, b),
            },
    {
        match self {
            ValueOrRange::Single(v) => (v, v),
            ValueOrRange::Thru(a, b) => (a, b),
        }
    }
}

impl<T> From<T> for ValueOrRange<T> {
    fn from(value: T) -> (res: ValueOrRange<T>) {
        ValueOrRange::Single(value)
    }
}

impl<T> vstd::std_specs::convert::FromSpecImpl<T> for ValueOrRange<T> {
    open spec fn obeys_from_spec() -> bool {
        true
    }

    open spec fn from_spec(v: T) -> ValueOrRange<T> {
        ValueOrRange::Single(v)
    }
}

impl<T> From<(T, T)> for ValueOrRange<T> {
    fn from(value: (T, T)) -> (res: ValueOrRange<T>) {
        ValueOrRange::Thru(value.0, value.1)
    }
}

impl<T> vstd::std_specs::convert::FromSpecImpl<(T, T)> for ValueOrRange<T> {
    open spec fn obeys_from_spec() -> bool {
        true
    }

    open spec fn from_spec(v: (T, T)) -> ValueOrRange<T> {
        ValueOrRange::Thru(v.0, v.1)
    }
}

/// What a `config` command opens.
#[derive(Debug, Copy, Clone, PartialEq, Eq, Structural, Hash)]
pub enum ConfigTypeActionData {
    Output,
    Patch,
    Ui,
}

/// Who issued an action.
#[derive(Debug, Copy, Clone, PartialEq, Eq, Structural, Hash)]
pub enum ActionIssuer {
    Command,
    Macro,
    Ui,
    InputDevice,
}

/// What an input button does when pressed.
#[derive(Debug)]
pub enum AssignButtonArgsMode {
    ExecutorGo(u32),
    ExecutorStop(u32),
    ExecutorFlash { id: u32, stomp: bool },
    FixtureSelector(FixtureSelector),
    SelectivePreset {
        preset_id_range: ValueOrRange<FixturePresetId>,
        fixture_selector: Option<FixtureSelector>,
    },
    Macro(Box<Action>),
    SpeedmasterTap(u32),
}

#[derive(Debug)]
pub struct AssignButtonArgs {
    pub mode: AssignButtonArgsMode,
    pub device_idx: usize,
    pub button_id: u32,
}

/// What an input fader controls.
#[derive(Debug, Copy, Clone, PartialEq, Eq, Structural)]
pub enum AssignFaderArgsMode {
    Executor(u32),
    Grandmaster,
    Groupmaster(u32),
    Speedmaster(u32),
}

#[derive(Debug)]
pub struct AssignFaderArgs {
    pub mode: AssignFaderArgsMode,
    pub device_idx: usize,
    pub input_fader_id: u32,
}

#[derive(Debug)]
pub struct CreateSequenceArgs {
    pub id: Option<u32>,
    pub name: Option<String>,
}

#[derive(Debug)]
pub struct CreateExecutorArgs {
    pub id: Option<u32>,
    pub sequence_id: u32,
}

#[derive(Debug)]
pub struct CreateMacroArgs {
    pub id: Option<u32>,
    pub action: Box<Action>,
    pub name: Option<String>,
}

#[derive(Debug)]
pub struct CreateEffectPresetArgs {
    pub id: FixturePresetId,
    pub name: Option<String>,
}

#[derive(Debug)]
pub struct DeleteArgs {
    pub object_range: ObjectRange,
}

#[derive(Debug)]
pub struct ExecutorGoArgs {
    pub executor_id: u32,
}

#[derive(Debug)]
pub struct ExecutorStopArgs {
    pub executor_id: u32,
}

#[derive(Debug)]
pub struct ExecutorStompArgs {
    pub executor_id: u32,
    pub stomped: bool,
}

#[derive(Debug)]
pub struct MoveArgs {
    pub preset_to_move: FixturePresetId,
    pub target_preset: FixturePresetId,
}

#[derive(Debug)]
pub struct RecallSequenceCueArgs {
    pub sequence_id: u32,
    pub cue_idx: CueIdx,
}

#[derive(Debug)]
pub struct RecallEffectKeyframeArgs {
    pub preset_id: FixturePresetId,
    pub keyframe_idx: u32,
}

/// A list of feature types.
#[derive(Debug)]
pub enum FeatureTypeList {
    Empty,
    Cons(FixtureChannel3FeatureType, Box<FeatureTypeList>),
}

/// The feature types of a list, first to last.
pub open spec fn feature_types_of(l: FeatureTypeList) -> Seq<FixtureChannel3FeatureType>
    decreases l,
{
    match l {
        FeatureTypeList::Empty => Seq::empty(),
        FeatureTypeList::Cons(f, rest) => seq![f] + feature_types_of(*rest),
    }
}

impl FeatureTypeList {
    /// The feature types as a vector, first to last.
    pub fn to_vec(&self) -> (res: Vec<FixtureChannel3FeatureType>)
        ensures
            res@ == feature_types_of(*self),
        decreases self,
    {
        match self {
            FeatureTypeList::Empty => Vec::new(),
            FeatureTypeList::Cons(f, rest) => {
                let mut v = Vec::new();
                v.push(*f);
                let mut tail = rest.to_vec();
                v.append(&mut tail);
                v
            },
        }
    }
}

/// Which channels a recording takes.
#[derive(Debug)]
pub enum RecordChannelTypeSelector {
    All,
    Active,
    Features(FeatureTypeList),
}

#[derive(Debug)]
pub struct RecordPresetArgs {
    pub id: FixturePresetId,
    pub fixture_selector: FixtureSelector,
    pub name: Option<String>,
    /// Record the next keyframe of an existing preset.
    pub should_next: bool,
}

#[derive(Debug)]
pub struct RecordGroupArgs {
    pub id: Option<u32>,
    pub fixture_selector: FixtureSelector,
    pub name: Option<String>,
}

#[derive(Debug)]
pub struct RecordSequenceCueArgs {
    pub sequence_id: u32,
    pub cue_idx: Option<CueIdx>,
    pub fixture_selector: FixtureSelector,
    pub channel_type_selector: RecordChannelTypeSelector,
}

#[derive(Debug, Copy, Clone, PartialEq, Eq, Structural)]
pub enum RecordSequenceCueShorthandArgsId {
    ExecutorId(u32),
}

#[derive(Debug)]
pub struct RecordSequenceCueShorthandArgs {
    pub id: RecordSequenceCueShorthandArgsId,
    pub cue_idx: Option<CueIdx>,
    pub fixture_selector: FixtureSelector,
    pub channel_type_selector: RecordChannelTypeSelector,
    pub sequence_name: Option<String>,
}

#[derive(Debug)]
pub struct RenameObjectArgs {
    pub object: Object,
    pub new_name: String,
}

/// A value to set an attribute to: absolute, or relative to the current one.
#[derive(Debug, Copy, Clone, PartialEq, Eq, Structural)]
pub enum SetAttributeValue {
    Absolute(ValueOrRange<F32Bits>),
    RelativChange(ValueOrRange<F32Bits>),
}

impl SetAttributeValue {
    /// The value and whether it is relative.
    pub fn value_and_relative(self) -> (res: (ValueOrRange<F32Bits>, bool))
        ensures
            res == match self {
                SetAttributeValue::Absolute(v) => (v, false),
                SetAttributeValue::RelativChange(v) => (v, true),
            },
    {
        match self {
            SetAttributeValue::Absolute(v) => (v, false),
            SetAttributeValue::RelativChange(v) => (v, true),
        }
    }
}

#[derive(Debug)]
pub struct SetAttributeValueArgs {
    pub fixture_selector: FixtureSelector,
    pub attribute: FixtureChannel3Attribute,
    /// `None` homes the attribute.
    pub attribute_value: Option<SetAttributeValue>,
}

#[derive(Debug)]
pub struct SetAttributeChannelSetArgs {
    pub fixture_selector: FixtureSelector,
    pub attribute: FixtureChannel3Attribute,
    pub channel_set: String,
}

/// Where a preset is applied: to a selector's fixtures or to the current selection.
#[derive(Debug)]
pub enum SelectionOrSelector {
    Selection(FixtureSelection),
    Selector(FixtureSelector),
    Current,
}

#[derive(Debug)]
pub struct SetFixturePresetArgs {
    pub selection_or_selector: SelectionOrSelector,
    pub preset_id: ValueOrRange<FixturePresetId>,
}

impl SetFixturePresetArgs {
    /// Applies a single preset to the current selection.
    pub fn current(preset_id: FixturePresetId) -> (res: SetFixturePresetArgs)
        ensures
            res == (SetFixturePresetArgs {
                selection_or_selector: SelectionOrSelector::Current,
                preset_id: ValueOrRange::Single(preset_id),
            }),
    {
        SetFixturePresetArgs {
            selection_or_selector: SelectionOrSelector::Current,
            preset_id: ValueOrRange::Single(preset_id),
        }
    }
}

#[derive(Debug)]
pub struct ObjectSetPropertyArgs {
    pub object: Object,
    pub key: String,
    pub value: String,
}

#[derive(Debug)]
pub struct SpeedMasterTapArgs {
    pub speedmaster_id: u32,
}

/// How an update combines with what was recorded.
#[derive(Debug, Copy, Clone, PartialEq, Eq, Structural)]
pub enum UpdateMode {
    Merge,
    Override,
}

#[derive(Debug)]
pub struct UpdatePresetArgs {
    pub id: FixturePresetId,
    pub keyframe_idx: Option<u32>,
    pub fixture_selector: FixtureSelector,
    pub update_mode: UpdateMode,
}

#[derive(Debug)]
pub struct UpdatePresetGlobalArgs {
    pub id: FixturePresetId,
}

#[derive(Debug, Copy, Clone, PartialEq, Eq, Structural)]
pub enum UpdateSequenceCueArgsId {
    SequenceId(u32),
    ExecutorId(u32),
}

#[derive(Debug)]
pub struct UpdateSequenceCueArgs {
    pub id: UpdateSequenceCueArgsId,
    pub cue_idx: CueIdx,
    pub fixture_selector: FixtureSelector,
    pub channel_type_selector: RecordChannelTypeSelector,
    pub update_mode: UpdateMode,
}

/// A command of the console.
#[derive(Debug)]
pub enum Action {
    SetAttributeValue(SetAttributeValueArgs),
    SetAttributeChannlSet(SetAttributeChannelSetArgs),
    SetFixturePreset(SetFixturePresetArgs),
    ObjectSetProperty(ObjectSetPropertyArgs),
    Home(HomeableObject),
    HomeAll,
    RecordPreset(RecordPresetArgs),
    RecordGroup2(RecordGroupArgs),
    RecordSequenceCue(RecordSequenceCueArgs),
    RecordSequenceCueShorthand(RecordSequenceCueShorthandArgs),
    Rename(RenameObjectArgs),
    CreateSequence(CreateSequenceArgs),
    CreateExecutor(CreateExecutorArgs),
    CreateMacro(CreateMacroArgs),
    CreateEffectPreset(CreateEffectPresetArgs),
    UpdatePreset(UpdatePresetArgs),
    UpdatePresetGlobal(UpdatePresetGlobalArgs),
    UpdateSequenceCue(UpdateSequenceCueArgs),
    RecallSequenceCue(RecallSequenceCueArgs),
    RecallEffectKeyframe(RecallEffectKeyframeArgs),
    Delete(DeleteArgs),
    Move(MoveArgs),
    Edit(Object),
    AssignButton(AssignButtonArgs),
    AssignFader(AssignFaderArgs),
    UnassignInputButton { device_idx: usize, button_id: u32 },
    UnassignInputFader { device_idx: usize, fader_id: u32 },
    FixtureSelector(FixtureSelector),
    Highlight(Option<FixtureSelector>),
    Unhighlight,
    ClearAll,
    Save,
    Test(String),
    Config(ConfigTypeActionData),
    Nuzul,
    Sueud,
    GrandEtc,
    AddFixturesToSelection(Vec<FixturePath>),
    SetFixtureSelectionWing(usize),
    ExecutorStomp(ExecutorStompArgs),
    ExecutorGo(ExecutorGoArgs),
    ExecutorStop(ExecutorStopArgs),
    ExecutorSetFaderValue(u32, F32Bits),
    SpeedMasterSetBpm(u32, F32Bits),
    SpeedMasterTap(SpeedMasterTapArgs),
    GrandmasterSetValue(F32Bits),
    GroupmasterSetValue(u32, F32Bits),
    RunMacro(u32),
    Lock,
    MatteoLutz,
}

/// A range of objects of one kind.
#[derive(Debug)]
pub struct ObjectRange {
    from: Object,
    to: Object,
}


/// What a parse can expect at a position, reported with errors.
#[derive(Debug, Copy, Clone, PartialEq, Eq, Structural, Hash)]
pub enum ExpectedParseSlice {
    FaderId { is_unassign: bool },
    ButtonId { is_unassign: bool },
    FixtureAttribute,
}

/// The name of what was expected.
pub open spec fn expected_slice_text(e: ExpectedParseSlice) -> Seq<char> {
    match e {
        ExpectedParseSlice::FaderId { .. } => "FaderId"@,
        ExpectedParseSlice::ButtonId { .. } => "ButtonId"@,
        ExpectedParseSlice::FixtureAttribute => "FixtureAttribute"@,
    }
}

impl ExpectedParseSlice {
    /// The name of what was expected.
    pub fn to_string(&self) -> (res: String)
        ensures
            res@ == expected_slice_text(*self),
    {
        match self {
            ExpectedParseSlice::FaderId { .. } => "FaderId".to_owned(),
            ExpectedParseSlice::ButtonId { .. } => "ButtonId".to_owned(),
            ExpectedParseSlice::FixtureAttribute => "FixtureAttribute".to_owned(),
        }
    }
}

/// Why a command could not be parsed.
#[derive(Debug)]
pub enum ParseError {
    UnexpectedEndOfInput,
    /// A token that does not fit, with what was expected.
    UnexpectedToken(Token, String),
    /// A token that does not fit, with the alternatives that would have.
    UnexpectedTokenAlternatives(Token, Vec<&'static str>),
    UnexpectedArgs(String),
    /// Every variant failed: each variant's name and its error.
    UnexpectedVariant(Vec<(String, ParseError)>),
    Expected(Box<ParseError>, Vec<ExpectedParseSlice>),
    ObjectError(ObjectError),
    /// A number does not fit the type it is read into.
    TryFromIntError,
    NoDefaultActionForObject(Object),
}

/// A parse error with its texts as character sequences.
pub enum ParseErrorView {
    UnexpectedEndOfInput,
    UnexpectedToken(Token, Seq<char>),
    UnexpectedTokenAlternatives(Token, Seq<&'static str>),
    UnexpectedArgs(Seq<char>),
    UnexpectedVariant(Seq<(Seq<char>, ParseErrorView)>),
    Expected(Box<ParseErrorView>, Seq<ExpectedParseSlice>),
    ObjectError(ObjectError),
    TryFromIntError,
    NoDefaultActionForObject(Object),
}

/// The view of a parse error.
pub open spec fn error_view(e: ParseError) -> ParseErrorView
    decreases e,
{
    match e {
        ParseError::UnexpectedEndOfInput => ParseErrorView::UnexpectedEndOfInput,
        ParseError::UnexpectedToken(t, s) => ParseErrorView::UnexpectedToken(t, s@),
        ParseError::UnexpectedTokenAlternatives(t, v) => ParseErrorView::UnexpectedTokenAlternatives(
            t,
            v@,
        ),
        ParseError::UnexpectedArgs(s) => ParseErrorView::UnexpectedArgs(s@),
        ParseError::UnexpectedVariant(v) => ParseErrorView::UnexpectedVariant(variant_views(v@)),
        ParseError::Expected(b, v) => ParseErrorView::Expected(Box::new(error_view(*b)), v@),
        ParseError::ObjectError(o) => ParseErrorView::ObjectError(o),
        ParseError::TryFromIntError => ParseErrorView::TryFromIntError,
        ParseError::NoDefaultActionForObject(o) => ParseErrorView::NoDefaultActionForObject(o),
    }
}

/// The views of the variants of an `UnexpectedVariant` error.
pub open spec fn variant_views(s: Seq<(String, ParseError)>) -> Seq<(Seq<char>, ParseErrorView)>
    decreases s,
{
    if s.len() == 0 {
        Seq::empty()
    } else {
        variant_views(s.drop_last()).push((s.last().0@, error_view(s.last().1)))
    }
}

impl View for ParseError {
    type V = ParseErrorView;

    open spec fn view(&self) -> ParseErrorView {
        error_view(*self)
    }
}

/// Objects of these kinds can form a range.
pub open spec fn homeable_rangable(a: HomeableObject, b: HomeableObject) -> bool {
    ||| a is FixtureSelector && b is FixtureSelector
    ||| a is Executor && b is Executor
}

/// Objects of these kinds can form a range: both fixture selectors, both
/// executors, both sequences, both presets, both macros, or cues of the
/// same sequence.
pub open spec fn object_rangable(a: Object, b: Object) -> bool {
    match (a, b) {
        (Object::HomeableObject(x), Object::HomeableObject(y)) => homeable_rangable(x, y),
        (Object::Sequence(_), Object::Sequence(_)) => true,
        (Object::SequenceCue(s1, _), Object::SequenceCue(s2, _)) => s1 == s2,
        (Object::Preset(_), Object::Preset(_)) => true,
        (Object::Macro(_), Object::Macro(_)) => true,
        _ => false,
    }
}

/// The action a homeable object stands for on its own: a fixture selector
/// selects, anything else is edited.
pub open spec fn homeable_default_action(o: HomeableObject) -> Action {
    match o {
        HomeableObject::FixtureSelector(fs) => Action::FixtureSelector(fs),
        _ => Action::Edit(Object::HomeableObject(o)),
    }
}

/// The action an object stands for on its own.
pub open spec fn object_default_action(o: Object) -> Action {
    match o {
        Object::HomeableObject(h) => homeable_default_action(h),
        _ => Action::Edit(o),
    }
}

impl AtomicFixtureSelector {
    /// A copy of the selector.
    pub fn duplicate(&self) -> (res: AtomicFixtureSelector)
        ensures
            res == *self,
        decreases self,
    {
        match self {
            AtomicFixtureSelector::CurrentFixturesSelected => AtomicFixtureSelector::CurrentFixturesSelected,
            AtomicFixtureSelector::SingleFixture(id) => AtomicFixtureSelector::SingleFixture(*id),
            AtomicFixtureSelector::FixtureRange(a, b) => AtomicFixtureSelector::FixtureRange(*a, *b),
            AtomicFixtureSelector::SingleFixturePath(p) => AtomicFixtureSelector::SingleFixturePath(*p),
            AtomicFixtureSelector::FixturePathRange(p, id) => AtomicFixtureSelector::FixturePathRange(
                *p,
                *id,
            ),
            AtomicFixtureSelector::SelectorGroup(b) => AtomicFixtureSelector::SelectorGroup(
                Box::new(b.duplicate()),
            ),
            AtomicFixtureSelector::FixtureGroup(g) => AtomicFixtureSelector::FixtureGroup(*g),
        }
    }

    /// The selectors are equal.
    pub fn same(&self, other: &AtomicFixtureSelector) -> (res: bool)
        ensures
            res == (*self == *other),
        decreases self,
    {
        match (self, other) {
            (
                AtomicFixtureSelector::CurrentFixturesSelected,
                AtomicFixtureSelector::CurrentFixturesSelected,
            ) => true,
            (AtomicFixtureSelector::SingleFixture(a), AtomicFixtureSelector::SingleFixture(b)) => a
                == b,
            (
                AtomicFixtureSelector::FixtureRange(a1, a2),
                AtomicFixtureSelector::FixtureRange(b1, b2),
            ) => a1 == b1 && a2 == b2,
            (
                AtomicFixtureSelector::SingleFixturePath(a),
                AtomicFixtureSelector::SingleFixturePath(b),
            ) => a.same(b),
            (
                AtomicFixtureSelector::FixturePathRange(a, x),
                AtomicFixtureSelector::FixturePathRange(b, y),
            ) => a.same(b) && x == y,
            (AtomicFixtureSelector::SelectorGroup(a), AtomicFixtureSelector::SelectorGroup(b)) => a.same(b),
            (AtomicFixtureSelector::FixtureGroup(a), AtomicFixtureSelector::FixtureGroup(b)) => a
                == b,
            _ => false,
        }
    }
}

impl FixtureSelector {
    /// A copy of the selector.
    pub fn duplicate(&self) -> (res: FixtureSelector)
        ensures
            res == *self,
        decreases self,
    {
        match self {
            FixtureSelector::Atomic(a) => FixtureSelector::Atomic(a.duplicate()),
            FixtureSelector::Additive(a, b) => FixtureSelector::Additive(
                a.duplicate(),
                Box::new(b.duplicate()),
            ),
            FixtureSelector::Subtractive(a, b) => FixtureSelector::Subtractive(
                a.duplicate(),
                Box::new(b.duplicate()),
            ),
            FixtureSelector::Modulus(a, d, inv) => FixtureSelector::Modulus(a.duplicate(), *d, *inv),
        }
    }

    /// The selectors are equal.
    pub fn same(&self, other: &FixtureSelector) -> (res: bool)
        ensures
            res == (*self == *other),
        decreases self,
    {
        match (self, other) {
            (FixtureSelector::Atomic(a), FixtureSelector::Atomic(b)) => a.same(b),
            (FixtureSelector::Additive(a1, a2), FixtureSelector::Additive(b1, b2)) => a1.same(b1)
                && a2.same(b2),
            (FixtureSelector::Subtractive(a1, a2), FixtureSelector::Subtractive(b1, b2)) => a1.same(
                b1,
            ) && a2.same(b2),
            (FixtureSelector::Modulus(a, d, i), FixtureSelector::Modulus(b, e, j)) => a.same(b) && *d
                == *e && *i == *j,
            _ => false,
        }
    }
}

impl HomeableObject {
    /// A copy of the object.
    pub fn duplicate(&self) -> (res: HomeableObject)
        ensures
            res == *self,
    {
        match self {
            HomeableObject::CurrentFixtureSelection => HomeableObject::CurrentFixtureSelection,
            HomeableObject::FixtureSelector(fs) => HomeableObject::FixtureSelector(fs.duplicate()),
            HomeableObject::Group(g) => HomeableObject::Group(*g),
            HomeableObject::Executor(e) => HomeableObject::Executor(*e),
            HomeableObject::Programmer => HomeableObject::Programmer,
        }
    }

    /// The objects are equal.
    pub fn same(&self, other: &HomeableObject) -> (res: bool)
        ensures
            res == (*self == *other),
    {
        match (self, other) {
            (HomeableObject::CurrentFixtureSelection, HomeableObject::CurrentFixtureSelection) => true,
            (HomeableObject::FixtureSelector(a), HomeableObject::FixtureSelector(b)) => a.same(b),
            (HomeableObject::Group(a), HomeableObject::Group(b)) => *a == *b,
            (HomeableObject::Executor(a), HomeableObject::Executor(b)) => *a == *b,
            (HomeableObject::Programmer, HomeableObject::Programmer) => true,
            _ => false,
        }
    }

    /// Both objects are fixture selectors, or both are executors.
    pub fn rangable_with(&self, other: &HomeableObject) -> (res: bool)
        ensures
            res == homeable_rangable(*self, *other),
    {
        match (self, other) {
            (HomeableObject::FixtureSelector(_), HomeableObject::FixtureSelector(_)) => true,
            (HomeableObject::Executor(_), HomeableObject::Executor(_)) => true,
            _ => false,
        }
    }

    /// The action the object stands for on its own.
    pub fn default_action(self) -> (res: Option<Action>)
        ensures
            res == Some(homeable_default_action(self)),
    {
        match self {
            HomeableObject::FixtureSelector(fixture_selector) => Some(
                Action::FixtureSelector(fixture_selector),
            ),
            _ => Some(Action::Edit(Object::HomeableObject(self))),
        }
    }
}

impl Object {
    /// The cue `cue_idx` of sequence `seq`.
    pub fn cue(seq: u32, cue_idx: CueIdx) -> (res: Object)
        ensures
            res == Object::SequenceCue(seq, cue_idx),
    {
        Object::SequenceCue(seq, cue_idx)
    }

    /// A copy of the object.
    pub fn duplicate(&self) -> (res: Object)
        ensures
            res == *self,
    {
        match self {
            Object::HomeableObject(h) => Object::HomeableObject(h.duplicate()),
            Object::Sequence(s) => Object::Sequence(*s),
            Object::SequenceCue(s, c) => Object::SequenceCue(*s, *c),
            Object::ExecutorCue(e, c) => Object::ExecutorCue(*e, *c),
            Object::Preset(p) => Object::Preset(*p),
            Object::Macro(m) => Object::Macro(*m),
        }
    }

    /// The objects are equal.
    pub fn same(&self, other: &Object) -> (res: bool)
        ensures
            res == (*self == *other),
    {
        match (self, other) {
            (Object::HomeableObject(a), Object::HomeableObject(b)) => a.same(b),
            (Object::Sequence(a), Object::Sequence(b)) => *a == *b,
            (Object::SequenceCue(a, x), Object::SequenceCue(b, y)) => *a == *b && *x == *y,
            (Object::ExecutorCue(a, x), Object::ExecutorCue(b, y)) => *a == *b && *x == *y,
            (Object::Preset(a), Object::Preset(b)) => *a == *b,
            (Object::Macro(a), Object::Macro(b)) => *a == *b,
            _ => false,
        }
    }

    /// The two objects can form a range.
    pub fn rangable_with(&self, other: &Object) -> (res: bool)
        ensures
            res == object_rangable(*self, *other),
    {
        match (self, other) {
            (Object::HomeableObject(a), Object::HomeableObject(b)) => a.rangable_with(b),
            (Object::Sequence(_), Object::Sequence(_)) => true,
            (Object::SequenceCue(a, _), Object::SequenceCue(b, _)) => *a == *b,
            (Object::Preset(_), Object::Preset(_)) => true,
            (Object::Macro(_), Object::Macro(_)) => true,
            _ => false,
        }
    }

    /// The action the object stands for on its own.
    pub fn default_action(self) -> (res: Option<Action>)
        ensures
            res == Some(object_default_action(self)),
    {
        match self {
            Object::HomeableObject(homeable_object) => homeable_object.default_action(),
            _ => Some(Action::Edit(self)),
        }
    }
}

/// The range from `from` through `to`.
pub closed spec fn spec_object_range(from: Object, to: Object) -> ObjectRange {
    ObjectRange { from, to }
}

impl ObjectRange {
    /// The ends of the range built from `from` and `to` are `from` and `to`.
    pub broadcast proof fn lemma_spec_object_range(from: Object, to: Object)
        ensures
            #![trigger spec_object_range(from, to)]
            spec_object_range(from, to).first() == from,
            spec_object_range(from, to).last() == to,
    {
    }

    /// The first object of the range.
    pub closed spec fn first(&self) -> Object {
        self.from
    }

    /// The last object of the range.
    pub closed spec fn last(&self) -> Object {
        self.to
    }

    /// The range from `from` through `to`; the objects must be of kinds that
    /// can form a range.
    pub fn new(from: Object, to: Object) -> (res: Result<ObjectRange, ObjectError>)
        ensures
            object_rangable(from, to) ==> res == Ok::<ObjectRange, ObjectError>(
                spec_object_range(from, to),
            ),
            !object_rangable(from, to) ==> res == Err::<ObjectRange, ObjectError>(
                ObjectError::ObjectVariantMismatch(from, to),
            ),
    {
        if from.rangable_with(&to) {
            Ok(ObjectRange { from, to })
        } else {
            Err(ObjectError::ObjectVariantMismatch(from, to))
        }
    }

    /// The range holding just `object`.
    pub fn single(object: Object) -> (res: ObjectRange)
        ensures
            res == spec_object_range(object, object),
    {
        ObjectRange { from: object.duplicate(), to: object }
    }

    /// The first object.
    pub fn from(&self) -> (res: &Object)
        ensures
            *res == self.first(),
    {
        &self.from
    }

    /// The last object.
    pub fn to(&self) -> (res: &Object)
        ensures
            *res == self.last(),
    {
        &self.to
    }

    /// The range holds one object.
    pub fn is_single(&self) -> (res: bool)
        ensures
            res == (self.first() == self.last()),
    {
        self.from.same(&self.to)
    }

    /// The first and the last object.
    pub fn as_tuple(&self) -> (res: (&Object, &Object))
        ensures
            *res.0 == self.first(),
            *res.1 == self.last(),
    {
        (&self.from, &self.to)
    }
}

impl UpdateSequenceCueArgsId {
    /// The id named by a `sequence` or `executor` keyword and a number.
    pub fn try_from_token(token: Token, id: u32) -> (res: Result<UpdateSequenceCueArgsId, ParseError>)
        ensures
            match token {
                Token::KeywordSequence => res == Ok::<UpdateSequenceCueArgsId, ParseError>(
                    UpdateSequenceCueArgsId::SequenceId(id),
                ),
                Token::KeywordExecutor => res == Ok::<UpdateSequenceCueArgsId, ParseError>(
                    UpdateSequenceCueArgsId::ExecutorId(id),
                ),
                _ => res matches Err(e) && e@ == ParseErrorView::UnexpectedArgs(
                    "Expected 'sequence', 'executor'"@,
                ),
            },
    {
        match token {
            Token::KeywordSequence => Ok(UpdateSequenceCueArgsId::SequenceId(id)),
            Token::KeywordExecutor => Ok(UpdateSequenceCueArgsId::ExecutorId(id)),
            _ => Err(ParseError::UnexpectedArgs("Expected 'sequence', 'executor'".to_owned())),
        }
    }
}

impl RecordSequenceCueShorthandArgsId {
    /// The id named by an `executor` keyword and a number.
    pub fn try_from_token(token: Token, id: u32) -> (res: Result<
        RecordSequenceCueShorthandArgsId,
        ParseError,
    >)
        ensures
            match token {
                Token::KeywordExecutor => res == Ok::<RecordSequenceCueShorthandArgsId, ParseError>(
                    RecordSequenceCueShorthandArgsId::ExecutorId(id),
                ),
                _ => res matches Err(e) && e@ == ParseErrorView::UnexpectedArgs(
                    "Expected 'executor'"@,
                ),
            },
    {
        match token {
            Token::KeywordExecutor => Ok(RecordSequenceCueShorthandArgsId::ExecutorId(id)),
            _ => Err(ParseError::UnexpectedArgs("Expected 'executor'".to_owned())),
        }
    }
}

/// What running an action reports back.
#[derive(Debug)]
pub enum ActionRunResult {
    Default,
    Info(String),
    InfoWithLink(String, String),
    Warn(String),
    UpdateFixtureSelection(Option<FixtureSelectionWithGroup>),
    UpdateHighlight(Option<FixtureSelectionWithGroup>),
    GroupFixturesChanges(u32),
    GroupAdded(u32),
    GroupsRemoved(Vec<u32>),
    Lock,
    Save,
}

impl ActionRunResult {
    /// The plain result of an action that reports nothing.
    pub fn new() -> (res: ActionRunResult)
        ensures
            res is Default,
    {
        ActionRunResult::Default
    }
}

impl Default for ActionRunResult {
    fn default() -> (res: ActionRunResult)
        ensures
            res is Default,
    {
        ActionRunResult::Default
    }
}

/// The key type of objects that have no settable properties: no text is
/// such a key.
#[derive(Debug)]
pub struct EmptyObjectSetKeyType {}

impl EmptyObjectSetKeyType {
    /// Reading a key always fails.
    pub fn from_str(s: &str) -> (res: Result<EmptyObjectSetKeyType, ()>)
        ensures
            res is Err,
    {
        Err(())
    }
}

/// Law: whether two objects can form a range does not depend on their
/// order.
pub proof fn law_rangable_symmetric(a: Object, b: Object)
    ensures
        object_rangable(a, b) == object_rangable(b, a),
{
}

/// Law: the range of a single object starts and ends at that object, and a
/// range built from two ends keeps them.
pub proof fn law_object_range_ends(from: Object, to: Object)
    ensures
        spec_object_range(from, from).first() == spec_object_range(from, from).last(),
        spec_object_range(from, to).first() == from,
        spec_object_range(from, to).last() == to,
{
    ObjectRange::lemma_spec_object_range(from, from);
    ObjectRange::lemma_spec_object_range(from, to);
}

} // verus!
