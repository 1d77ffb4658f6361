use vstd::prelude::*;

verus! {

/// Which level of the control line leaves a solenoid at rest.
#[derive(Debug, Clone, Copy, PartialEq, Eq, Structural)]
pub enum LinePull {
    /// Open at rest: the line idles HIGH and LOW actuates.
    NormallyOpen,
    /// Closed at rest: the line idles LOW and HIGH actuates.
    NormallyClosed,
}

/// Control-line level that puts a valve of this pull in the requested state.
pub open spec fn level_for(pull: LinePull, enable: bool) -> bool {
    match pull {
        LinePull::NormallyClosed => enable,
        LinePull::NormallyOpen => !enable,
    }
}

/// Whether a valve of this pull is actuated at this control-line level.
pub open spec fn actuated_at(pull: LinePull, level: bool) -> bool {
    match pull {
        LinePull::NormallyClosed => level,
        LinePull::NormallyOpen => !level,
    }
}

/// Driving the level for a state and reading it back gives that state.
pub proof fn lemma_level_round_trip(pull: LinePull, enable: bool)
    ensures
        actuated_at(pull, level_for(pull, enable)) == enable,
{
}

/// A solenoid valve: its pull and the level last driven on its control line.
#[derive(Debug, Clone, Copy, PartialEq, Eq, Structural)]
pub struct SolenoidValve {
    pub line_pull: LinePull,
    pub current_level: bool,
}

impl SolenoidValve {
    /// A valve at rest: the control line at its idle level.
    pub fn new(line_pull: LinePull) -> (r: Self)
        ensures
            r.line_pull == line_pull,
            r.current_level == level_for(line_pull, false),
            !actuated_at(r.line_pull, r.current_level),
    {
        let level = match line_pull {
            LinePull::NormallyOpen => true,
            LinePull::NormallyClosed => false,
        };
        SolenoidValve { line_pull, current_level: level }
    }

    /// The control-line level that puts this valve in the requested state.
    pub fn control_level(&self, enable: bool) -> (r: bool)
        ensures
            r == level_for(self.line_pull, enable),
    {
        match self.line_pull {
            LinePull::NormallyClosed => enable,
            LinePull::NormallyOpen => !enable,
        }
    }

    /// Records that the control line was driven to put the valve in the requested state;
    /// returns the level driven.
    pub fn actuate(&mut self, enable: bool) -> (level: bool)
        ensures
            level == level_for(old(self).line_pull, enable),
            final(self).current_level == level,
            final(self).line_pull == old(self).line_pull,
            actuated_at(final(self).line_pull, final(self).current_level) == enable,
    {
        let level = self.control_level(enable);
        self.current_level = level;
        level
    }

    /// Whether the valve is actuated, from the level last driven.
    pub fn is_actuated(&self) -> (r: bool)
        ensures
            r == actuated_at(self.line_pull, self.current_level),
    {
        match self.line_pull {
            LinePull::NormallyClosed => self.current_level,
            LinePull::NormallyOpen => !self.current_level,
        }
    }
}

} // verus!
