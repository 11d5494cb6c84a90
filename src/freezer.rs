//! Freezing and thawing the processes of a cgroup.
use vstd::prelude::*;
use crate::plan::{CgroupFile, FileValue, FileWrite, WritePlan};

verus! {

/// The two states of the freezer; no other is reachable.
#[derive(Debug, Clone, Copy, PartialEq, Eq, Structural)]
pub enum FreezerState {
    Frozen,
    Thawed,
}

impl FreezerState {
    /// The value of `cgroup.freeze` for this state.
    pub open spec fn spec_file_value(self) -> FileValue {
        match self {
            FreezerState::Frozen => FileValue::Number(1),
            FreezerState::Thawed => FileValue::Number(0),
        }
    }

    /// The state after `requested` was asked for in this state: every
    /// request succeeds, and asking for the current state changes nothing.
    pub open spec fn spec_next(self, requested: FreezerState) -> FreezerState {
        requested
    }
}

/// The freezer of one cgroup, with the state it was last brought to.
pub struct Freezer {
    state: FreezerState,
}

impl Freezer {
    pub closed spec fn view(&self) -> FreezerState {
        self.state
    }

    /// A freezer in the given state.
    pub fn new(state: FreezerState) -> (r: Freezer)
        ensures
            r@ == state,
    {
        Freezer { state }
    }

    /// The current state.
    pub fn state(&self) -> (r: FreezerState)
        ensures
            r == self@,
    {
        self.state
    }

    /// Brings the freezer to `requested` and returns whether that changed
    /// its state.
    pub fn request(&mut self, requested: FreezerState) -> (changed: bool)
        ensures
            final(self)@ == old(self)@.spec_next(requested),
            changed == (old(self)@ != requested),
    {
        let changed = self.state != requested;
        self.state = requested;
        changed
    }

    /// Freezes the processes.
    pub fn freeze(&mut self) -> (changed: bool)
        ensures
            final(self)@ == old(self)@.spec_next(FreezerState::Frozen),
            changed == (old(self)@ != FreezerState::Frozen),
    {
        self.request(FreezerState::Frozen)
    }

    /// Thaws the processes.
    pub fn thaw(&mut self) -> (changed: bool)
        ensures
            final(self)@ == old(self)@.spec_next(FreezerState::Thawed),
            changed == (old(self)@ != FreezerState::Thawed),
    {
        self.request(FreezerState::Thawed)
    }

    /// Appends the write that brings a cgroup to `state` to `plan`.
    pub fn apply_files(state: FreezerState, plan: &mut WritePlan)
        ensures
            final(plan)@ == old(plan)@.push(FileWrite { file: CgroupFile::CgroupFreeze, value: state.spec_file_value() }),
    {
        let value = match state {
            FreezerState::Frozen => FileValue::Number(1),
            FreezerState::Thawed => FileValue::Number(0),
        };
        plan.push(CgroupFile::CgroupFreeze, value);
    }
}

/// Freezing and then thawing returns to the thawed state, and a request for
/// the state the freezer is already in keeps it there, from either state.
pub proof fn lemma_freezer_transitions(s: FreezerState)
    ensures
        s.spec_next(FreezerState::Frozen) == FreezerState::Frozen,
        s.spec_next(FreezerState::Frozen).spec_next(FreezerState::Thawed) == FreezerState::Thawed,
        s.spec_next(s) == s,
        s.spec_next(FreezerState::Frozen).spec_next(FreezerState::Frozen) == FreezerState::Frozen,
{
}

} // verus!
