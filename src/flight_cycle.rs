use vstd::prelude::*;
use crate::flight_loop::{falling, CycleOutput, FlightLoop, FlightLoopModel};
use crate::flight_state::FlightState;
use crate::packet::Packet;
use crate::state::{FlightMode, SensorState};

verus! {

/// Once the vehicle has left `Startup`, an altimeter that is not `VALID` leaves `Fault` as
/// the only next mode, from every mode up to `MainDeployed`.
pub proof fn lemma_altimeter_gate(s: FlightLoopModel)
    requires
        s.flight_state.flight_mode != FlightMode::Startup,
        s.flight_state.flight_mode != FlightMode::Fault,
        s.flight_state.altimeter_state != SensorState::VALID,
    ensures
        s.after_transitions().flight_state.flight_mode == FlightMode::Fault,
        !s.after_transitions().alt_armed,
{
}

/// `DrogueDeployed` is entered only from `Coast`, on an update whose descent filter holds
/// three window sums that are all filled and strictly falling: the two kept from the two
/// updates before and the sum just taken. The newest is the window sum after the push.
pub proof fn lemma_apogee_only_on_falling_means(s: FlightLoopModel)
    requires
        s.flight_state.flight_mode != FlightMode::DrogueDeployed,
        s.after_transitions().flight_state.flight_mode == FlightMode::DrogueDeployed,
    ensures
        s.flight_state.flight_mode == FlightMode::Coast,
        s.altimeter_valid(),
        falling(
            s.after_transitions().filtered2,
            s.after_transitions().filtered1,
            s.after_transitions().filtered0,
        ),
        s.after_transitions().filtered2 == s.filtered1,
        s.after_transitions().filtered1 == s.filtered0,
        s.after_transitions().filtered0 == Some(s.after_transitions().alt_sum),
{
}

/// The window keeps its ten slots and its running sum equals their sum after every
/// evaluation, whatever the mode and inputs.
pub proof fn lemma_window_sum_kept(s: FlightLoopModel)
    requires
        s.wf(),
    ensures
        s.after_transitions().wf(),
        s.after_transitions().alt_buffer.len() == s.alt_buffer.len(),
{
    crate::flight_loop::lemma_model_step_wf(s);
}

impl FlightLoop {
    /// Sets the altitude that the next evaluation reads, in millimetres.
    pub fn set_altitude(&mut self, altitude_mm: i32)
        requires
            old(self).wf(),
        ensures
            final(self).wf(),
            final(self).flight_state.altitude_mm == altitude_mm,
            final(self)@ == (FlightLoopModel {
                flight_state: final(self).flight_state,
                ..old(self)@
            }),
            final(self).flight_state.packet == old(self).flight_state.packet,
            final(self).flight_state.flight_mode == old(self).flight_state.flight_mode,
    {
        self.flight_state.altitude_mm = altitude_mm;
    }

    /// Records the key switch in both the flight state and the loop's copy.
    pub fn set_key_switch(&mut self, armed: bool)
        requires
            old(self).wf(),
        ensures
            final(self).wf(),
            final(self)@ == (FlightLoopModel {
                flight_state: FlightState { key_armed: armed, ..old(self)@.flight_state },
                key_armed: armed,
                ..old(self)@
            }),
    {
        self.flight_state.key_armed = armed;
        self.key_armed = armed;
    }

    /// Records whether the umbilical is connected, in both places.
    pub fn set_umbilical(&mut self, connected: bool)
        requires
            old(self).wf(),
        ensures
            final(self).wf(),
            final(self)@ == (FlightLoopModel {
                flight_state: FlightState { umbilical_connected: connected, ..old(self)@.flight_state },
                umbilical_state: connected,
                ..old(self)@
            }),
    {
        self.flight_state.umbilical_connected = connected;
        self.umbilical_state = connected;
    }

    /// Records whether the launch command has been received.
    pub fn set_launch_command(&mut self, launch: bool)
        requires
            old(self).wf(),
        ensures
            final(self).wf(),
            final(self)@ == (FlightLoopModel {
                umbilical_launch: launch,
                ..old(self)@
            }),
    {
        self.umbilical_launch = launch;
    }

    /// Sets the altimeter health that the next evaluation reads.
    pub fn set_altimeter_state(&mut self, state: SensorState)
        requires
            old(self).wf(),
        ensures
            final(self).wf(),
            final(self)@ == (FlightLoopModel {
                flight_state: FlightState { altimeter_state: state, ..old(self)@.flight_state },
                ..old(self)@
            }),
    {
        self.flight_state.altimeter_state = state;
    }

    /// Sets the packet pressure (IEEE-754 bits of pascals).
    pub fn set_pressure(&mut self, pressure: u32)
        requires
            old(self).wf(),
        ensures
            final(self).wf(),
            final(self)@ == (FlightLoopModel {
                flight_state: FlightState { packet: Packet { pressure: pressure, ..old(self)@.flight_state.packet }, ..old(self)@.flight_state },
                ..old(self)@
            }),
    {
        self.flight_state.packet.pressure = pressure;
    }

    /// Sets the airbrake latch.
    pub fn set_airbrakes(&mut self, armed: bool)
        requires
            old(self).wf(),
        ensures
            final(self).wf(),
            final(self)@ == (FlightLoopModel {
                airbrakes_init: armed,
                ..old(self)@
            }),
    {
        self.airbrakes_init = armed;
    }

    /// Sets the camera latch.
    pub fn set_cameras_deployed(&mut self, deployed: bool)
        requires
            old(self).wf(),
        ensures
            final(self).wf(),
            final(self)@ == (FlightLoopModel {
                camera_deployed: deployed,
                ..old(self)@
            }),
    {
        self.camera_deployed = deployed;
    }

    /// Records whether the MAV is open.
    pub fn set_mav_open(&mut self, open: bool)
        requires
            old(self).wf(),
        ensures
            final(self).wf(),
            final(self)@ == (FlightLoopModel {
                mav_open: open,
                ..old(self)@
            }),
    {
        self.mav_open = open;
    }

    /// Records whether the SV is open.
    pub fn set_sv_open(&mut self, open: bool)
        requires
            old(self).wf(),
        ensures
            final(self).wf(),
            final(self)@ == (FlightLoopModel {
                sv_open: open,
                ..old(self)@
            }),
    {
        self.sv_open = open;
    }

    /// One evaluation without hardware: copies the key switch and umbilical from the
    /// flight state, then evaluates the current mode.
    pub fn simulate_cycle(&mut self) -> (r: Option<u32>)
        requires
            old(self).wf(),
        ensures
            final(self).wf(),
            final(self)@ == old(self)@.synced().after_transitions(),
            r == old(self)@.synced().fallback_record(),
    {
        self.key_armed = self.flight_state.key_armed;
        self.umbilical_state = self.flight_state.umbilical_connected;
        self.check_transitions()
    }

    /// One full cycle after the sensors have been read into the flight state: counts the
    /// cycle, evaluates the mode, stamps the packet with the new mode and builds the radio
    /// frame and the scratchpad records.
    pub fn execute(&mut self) -> (r: CycleOutput)
        requires
            old(self).wf(),
        ensures
            final(self).wf(),
            ({
                let m = old(self)@.synced().after_transitions();
                final(self)@ == (FlightLoopModel {
                    flight_state: FlightState {
                        cycle_count: ((old(self).flight_state.cycle_count + 1) % 0x1_0000_0000) as u32,
                        packet: Packet {
                            flight_mode: m.flight_state.flight_mode.code(),
                            ..m.flight_state.packet
                        },
                        ..m.flight_state
                    },
                    ..m
                })
            }),
            r.frame@ == final(self).flight_state.packet.frame(),
            r.frame@.len() == 72,
            r.mode_record == final(self).flight_state.flight_mode.code(),
            r.altitude_record == old(self)@.synced().fallback_record(),
    {
        let count = self.flight_state.cycle_count.wrapping_add(1);
        let altitude_record = self.simulate_cycle();
        self.flight_state.cycle_count = count;
        let mode = self.flight_state.flight_mode.to_u32();
        self.flight_state.packet.flight_mode = mode;
        let frame = self.flight_state.packet.radio_frame();
        CycleOutput { frame, mode_record: mode, altitude_record }
    }
}

} // verus!
