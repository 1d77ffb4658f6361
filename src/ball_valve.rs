use vstd::prelude::*;

verus! {

/// Time to hold ON_OFF high so the valve completes its travel.
pub const VALVE_ACTUATION_MS: u64 = 3000;

/// One step of driving a ball valve.
#[derive(Debug, Clone, Copy, PartialEq, Eq, Structural)]
pub enum BvStep {
    /// Drive the signal (direction) line.
    Signal(bool),
    /// Drive the ON_OFF (power) line.
    OnOff(bool),
    /// Wait this many milliseconds.
    Wait(u64),
}

/// Refusals of the ball valve.
#[derive(Debug, Clone, Copy, PartialEq, Eq, Structural)]
pub enum BvError {
    /// The signal line may change only while ON_OFF is LOW.
    SignalWhileOn,
}

/// Whether a run of steps, starting with ON_OFF at `on`, writes the signal line only
/// while ON_OFF is LOW.
pub open spec fn interlock_kept(on: bool, steps: Seq<BvStep>) -> bool
    decreases steps.len(),
{
    if steps.len() == 0 {
        true
    } else {
        match steps[0] {
            BvStep::Signal(_) => !on && interlock_kept(on, steps.drop_first()),
            BvStep::OnOff(h) => interlock_kept(h, steps.drop_first()),
            BvStep::Wait(_) => interlock_kept(on, steps.drop_first()),
        }
    }
}

/// The full travel to a position: signal, power on, wait, power off.
pub open spec fn sequence_steps(target: bool) -> Seq<BvStep> {
    seq![
        BvStep::Signal(target),
        BvStep::OnOff(true),
        BvStep::Wait(VALVE_ACTUATION_MS),
        BvStep::OnOff(false),
    ]
}

/// A ball valve: the levels last driven on its two lines.
pub struct BallValve {
    pub name: String,
    pub on_off: bool,
    pub signal: bool,
}

impl BallValve {
    /// A valve with both lines LOW.
    pub fn new(name: String) -> (r: Self)
        ensures
            r.name == name,
            !r.on_off,
            !r.signal,
    {
        BallValve { name, on_off: false, signal: false }
    }

    fn sequence(&mut self, target: bool) -> (r: Result<Vec<BvStep>, BvError>)
        ensures
            r is Ok <==> !old(self).on_off,
            r matches Ok(steps) ==> {
                &&& steps@ == sequence_steps(target)
                &&& final(self).signal == target
                &&& !final(self).on_off
            },
            r is Err ==> final(self).signal == old(self).signal && final(self).on_off
                == old(self).on_off,
            final(self).name == old(self).name,
    {
        if self.on_off {
            return Err(BvError::SignalWhileOn);
        }
        self.signal = target;
        self.on_off = false;
        let steps = vec![
            BvStep::Signal(target),
            BvStep::OnOff(true),
            BvStep::Wait(VALVE_ACTUATION_MS),
            BvStep::OnOff(false),
        ];
        proof {
            assert(steps@ =~= sequence_steps(target));
        }
        Ok(steps)
    }

    /// Plans the opening travel: signal HIGH, ON_OFF HIGH, wait, ON_OFF LOW. Refused while
    /// ON_OFF is HIGH, since the signal may not change then.
    pub fn open_sequence(&mut self) -> (r: Result<Vec<BvStep>, BvError>)
        ensures
            r is Ok <==> !old(self).on_off,
            r matches Ok(steps) ==> steps@ == sequence_steps(true) && final(self).signal
                && !final(self).on_off,
            r is Err ==> final(self).signal == old(self).signal && final(self).on_off
                == old(self).on_off,
            final(self).name == old(self).name,
    {
        self.sequence(true)
    }

    /// Plans the closing travel: signal LOW, ON_OFF HIGH, wait, ON_OFF LOW. Refused while
    /// ON_OFF is HIGH.
    pub fn close_sequence(&mut self) -> (r: Result<Vec<BvStep>, BvError>)
        ensures
            r is Ok <==> !old(self).on_off,
            r matches Ok(steps) ==> steps@ == sequence_steps(false) && !final(self).signal
                && !final(self).on_off,
            r is Err ==> final(self).signal == old(self).signal && final(self).on_off
                == old(self).on_off,
            final(self).name == old(self).name,
    {
        self.sequence(false)
    }

    /// Sets the signal line, which is allowed only while ON_OFF is LOW.
    pub fn set_signal_safe(&mut self, high: bool) -> (r: Result<(), BvError>)
        ensures
            r is Ok <==> !old(self).on_off,
            r is Ok ==> final(self).signal == high,
            r is Err ==> final(self).signal == old(self).signal,
            final(self).on_off == old(self).on_off,
            final(self).name == old(self).name,
    {
        if self.on_off {
            return Err(BvError::SignalWhileOn);
        }
        self.signal = high;
        Ok(())
    }

    /// Sets the ON_OFF line.
    pub fn set_on_off(&mut self, high: bool)
        ensures
            final(self).on_off == high,
            final(self).signal == old(self).signal,
            final(self).name == old(self).name,
    {
        self.on_off = high;
    }
}

/// The travel sequences, run from a valve whose ON_OFF is LOW (the only state from which
/// they are planned), write the signal only while ON_OFF is LOW and leave ON_OFF LOW.
pub proof fn lemma_sequence_keeps_interlock(target: bool)
    ensures
        interlock_kept(false, sequence_steps(target)),
{
    let s = sequence_steps(target);
    reveal_with_fuel(interlock_kept, 5);
    assert(s.drop_first().drop_first().drop_first().drop_first() =~= Seq::<BvStep>::empty());
    assert(s.drop_first()[0] == BvStep::OnOff(true));
    assert(s.drop_first().drop_first()[0] == BvStep::Wait(VALVE_ACTUATION_MS));
    assert(s.drop_first().drop_first().drop_first()[0] == BvStep::OnOff(false));
}

} // verus!
