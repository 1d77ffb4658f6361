use vstd::prelude::*;

verus! {

/// Health of a sensor as the flight software sees it.
#[derive(Debug, Clone, Copy, PartialEq, Eq, Structural)]
pub enum SensorState {
    /// Not read yet since boot.
    OFF,
    /// The last read succeeded.
    VALID,
    /// A read failed; this latches for the rest of the flight.
    INVALID,
}

/// The modes of the flight state machine.
#[derive(Debug, Clone, Copy, PartialEq, Eq, Structural)]
pub enum FlightMode {
    Startup,
    Standby,
    Ascent,
    Coast,
    DrogueDeployed,
    MainDeployed,
    Fault,
}

impl FlightMode {
    /// The number that stands for a mode on the radio and in the scratchpad.
    pub open spec fn code(self) -> u32 {
        match self {
            FlightMode::Startup => 0,
            FlightMode::Standby => 1,
            FlightMode::Ascent => 2,
            FlightMode::Coast => 3,
            FlightMode::DrogueDeployed => 4,
            FlightMode::MainDeployed => 5,
            FlightMode::Fault => 6,
        }
    }

    /// Decodes a stored mode number; anything out of range reads as `Fault`.
    pub fn from_u32(raw: u32) -> (r: Self)
        ensures
            raw <= 6 ==> r.code() == raw,
            raw > 6 ==> r == FlightMode::Fault,
    {
        match raw {
            0 => FlightMode::Startup,
            1 => FlightMode::Standby,
            2 => FlightMode::Ascent,
            3 => FlightMode::Coast,
            4 => FlightMode::DrogueDeployed,
            5 => FlightMode::MainDeployed,
            _ => FlightMode::Fault,
        }
    }

    /// The mode's number, as `from_u32` reads it back.
    pub fn to_u32(&self) -> (r: u32)
        ensures
            r == self.code(),
    {
        match self {
            FlightMode::Startup => 0,
            FlightMode::Standby => 1,
            FlightMode::Ascent => 2,
            FlightMode::Coast => 3,
            FlightMode::DrogueDeployed => 4,
            FlightMode::MainDeployed => 5,
            FlightMode::Fault => 6,
        }
    }

    /// The mode's name for logs.
    pub open spec fn name_spec(self) -> Seq<char> {
        match self {
            FlightMode::Startup => "Startup"@,
            FlightMode::Standby => "Standby"@,
            FlightMode::Ascent => "Ascent"@,
            FlightMode::Coast => "Coast"@,
            FlightMode::DrogueDeployed => "DrogueDeployed"@,
            FlightMode::MainDeployed => "MainDeployed"@,
            FlightMode::Fault => "Fault"@,
        }
    }

    /// The mode's name for logs.
    pub fn name(&self) -> (r: &'static str)
        ensures
            r@ == self.name_spec(),
    {
        match self {
            FlightMode::Startup => "Startup",
            FlightMode::Standby => "Standby",
            FlightMode::Ascent => "Ascent",
            FlightMode::Coast => "Coast",
            FlightMode::DrogueDeployed => "DrogueDeployed",
            FlightMode::MainDeployed => "MainDeployed",
            FlightMode::Fault => "Fault",
        }
    }
}

/// Every mode number decodes back to the mode that wrote it.
pub proof fn lemma_mode_code_round_trip(m: FlightMode)
    ensures
        m.code() <= 6,
        forall|n: FlightMode| n.code() == m.code() ==> n == m,
{
}

} // verus!
