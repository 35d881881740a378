//! A selection of fixtures, and the selection events of the console.

use vstd::prelude::*;
use crate::command::CueIdx;
use crate::fixture::FixturePath;
use crate::clock::Instant;
use crate::attribute::FixtureChannel3Attribute;

verus! {

/// The selected fixtures, in the order in which they were selected.
#[derive(Debug)]
pub struct FixtureSelection {
    fixtures: Vec<FixturePath>,
}

impl FixtureSelection {
    /// The selected fixtures, first to last.
    pub closed spec fn spec_fixtures(&self) -> Seq<FixturePath> {
        self.fixtures@
    }

    /// The selection of `fixtures`, in their order.
    pub fn new(fixtures: Vec<FixturePath>) -> (res: FixtureSelection)
        ensures
            res.spec_fixtures() == fixtures@,
    {
        FixtureSelection { fixtures }
    }

    /// The selected fixtures, first to last.
    pub fn fixtures(&self) -> (res: &[FixturePath])
        ensures
            res@ == self.spec_fixtures(),
    {
        self.fixtures.as_slice()
    }

    /// A copy of the selection.
    pub fn duplicate(&self) -> (res: FixtureSelection)
        ensures
            res.spec_fixtures() == self.spec_fixtures(),
    {
        let mut fixtures: Vec<FixturePath> = Vec::new();
        let mut i: usize = 0;
        while i < self.fixtures.len()
            invariant
                i <= self.fixtures@.len(),
                fixtures@ == self.fixtures@.subrange(0, i as int),
            decreases self.fixtures@.len() - i,
        {
            fixtures.push(self.fixtures[i]);
            i = i + 1;
            assert(fixtures@ =~= self.fixtures@.subrange(0, i as int));
        }
        assert(self.fixtures@.subrange(0, i as int) =~= self.fixtures@);
        FixtureSelection { fixtures }
    }
}

/// A selection together with the group it was taken from, if any.
#[derive(Debug)]
pub struct FixtureSelectionWithGroup {
    selection: FixtureSelection,
    group_id: Option<u32>,
}

impl FixtureSelectionWithGroup {
    /// The selection.
    pub closed spec fn spec_selection(&self) -> FixtureSelection {
        self.selection
    }

    /// The group the selection was taken from.
    pub closed spec fn spec_group_id(&self) -> Option<u32> {
        self.group_id
    }

    /// The selection `selection`, taken from the group `group_id` if that
    /// is given.
    pub fn with_group(selection: FixtureSelection, group_id: Option<u32>) -> (res: FixtureSelectionWithGroup)
        ensures
            res.spec_selection() == selection,
            res.spec_group_id() == group_id,
    {
        FixtureSelectionWithGroup { selection, group_id }
    }

    /// The selection, taken from no group.
    pub fn from_selection(selection: FixtureSelection) -> (res: FixtureSelectionWithGroup)
        ensures
            res.spec_selection() == selection,
            res.spec_group_id() == None::<u32>,
    {
        FixtureSelectionWithGroup { selection, group_id: None }
    }

    /// The selection.
    pub fn selection(&self) -> (res: &FixtureSelection)
        ensures
            *res == self.spec_selection(),
    {
        &self.selection
    }

    /// The group the selection was taken from, if any.
    pub fn group_id(&self) -> (res: Option<u32>)
        ensures
            res == self.spec_group_id(),
    {
        self.group_id
    }
}

/// A change of an executor's cues.
#[derive(Debug, Clone, Copy)]
pub enum DemexExecutorUpdateEvent {
    /// The cue became active at the given instant.
    CueActivate(CueIdx, Instant),
    CueDeactivate(CueIdx),
}

/// What the engine shares with its frontends: the selected fixtures, the
/// attributes shown on encoders, and the highlighted fixtures.
#[derive(Debug)]
pub struct DemexEngineState {
    pub fixture_selection: Option<FixtureSelection>,
    pub visible_encoder_attributes: Vec<FixtureChannel3Attribute>,
    pub highlight: Option<FixtureSelection>,
}

impl Default for DemexEngineState {
    fn default() -> (res: DemexEngineState)
        ensures
            res.fixture_selection is None,
            res.visible_encoder_attributes@ == Seq::<FixtureChannel3Attribute>::empty(),
            res.highlight is None,
    {
        DemexEngineState {
            fixture_selection: None,
            visible_encoder_attributes: Vec::new(),
            highlight: None,
        }
    }
}

} // verus!
