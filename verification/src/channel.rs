//! Channel values: the largest value of a DMX channel of a given width, and
//! the state kept while a preset is applied.

use vstd::prelude::*;
use crate::clock::{Instant, now};
use crate::selection::FixtureSelection;

verus! {

/// The largest value of a channel `bytes` bytes wide: 255, 65535, `u32::MAX`
/// or `u64::MAX` for 1, 2, 4 or 8 bytes, and 0 for any other width.
pub open spec fn spec_max_value(bytes: u8) -> u64 {
    if bytes == 1 {
        0xff
    } else if bytes == 2 {
        0xffff
    } else if bytes == 4 {
        0xffff_ffff
    } else if bytes == 8 {
        0xffff_ffff_ffff_ffff
    } else {
        0
    }
}

/// The largest value of a channel `bytes` bytes wide.
pub fn max_value(bytes: u8) -> (res: u64)
    ensures
        res == spec_max_value(bytes),
{
    match bytes {
        1 => u8::MAX as u64,
        2 => u16::MAX as u64,
        4 => u32::MAX as u64,
        8 => u64::MAX,
        _ => 0,
    }
}

/// What a preset value remembers while it is applied: when it started, and
/// the selection it was applied to.
#[derive(Debug)]
pub struct FixtureChannelValue2PresetState {
    started: Option<Instant>,
    with_selection: FixtureSelection,
}

impl FixtureChannelValue2PresetState {
    /// When the preset started, if that is known.
    pub closed spec fn spec_started(&self) -> Option<Instant> {
        self.started
    }

    /// The selection the preset was applied to.
    pub closed spec fn spec_selection(&self) -> FixtureSelection {
        self.with_selection
    }

    /// The state of a preset that started at `started` on `with_selection`.
    pub fn new(started: Instant, with_selection: FixtureSelection) -> (res: FixtureChannelValue2PresetState)
        ensures
            res.spec_started() == Some(started),
            res.spec_selection() == with_selection,
    {
        FixtureChannelValue2PresetState { started: Some(started), with_selection }
    }

    /// The state of a preset that starts now on `selection`.
    pub fn now(selection: FixtureSelection) -> (res: FixtureChannelValue2PresetState)
        ensures
            res.spec_started() is Some,
            res.spec_selection() == selection,
    {
        FixtureChannelValue2PresetState { started: Some(now()), with_selection: selection }
    }

    /// When the preset started, if that is known.
    pub fn started(&self) -> (res: Option<Instant>)
        ensures
            res == self.spec_started(),
    {
        self.started
    }

    /// The state with its start replaced by `started`.
    pub fn with_started(self, started: Option<Instant>) -> (res: FixtureChannelValue2PresetState)
        ensures
            res.spec_started() == started,
            res.spec_selection() == self.spec_selection(),
    {
        let mut s = self;
        s.started = started;
        s
    }

    /// The selection the preset was applied to.
    pub fn selection(&self) -> (res: &FixtureSelection)
        ensures
            *res == self.spec_selection(),
    {
        &self.with_selection
    }
}

} // verus!
