use vstd::prelude::*;
use crate::ball_valve::{sequence_steps, BallValve, BvStep};
use crate::command::{Command, CommandResponse};
use crate::mav::{angle_for_pulse, pulse_for_angle, Mav, CLOSE_0_US, NEUTRAL_US, OPEN_90_US};
use crate::session::ClientSession;
use crate::solenoid_valve::{actuated_at, level_for, LinePull, SolenoidValve};

verus! {

/// Number of solenoid valves.
pub const SV_COUNT: usize = 5;

/// Index of the solenoid valve whose reported actuation is inverted (SV5, wired to a
/// normally-open device outside the station).
pub const INVERTED_REPORT_SV: usize = 4;

/// One write that the hardware driver performs, in order.
#[derive(Debug, Clone, Copy, PartialEq, Eq, Structural)]
pub enum HwAction {
    /// Drive the control line of solenoid valve `index` (0 is SV1).
    SetSolenoid { index: usize, level: bool },
    /// Write a MAV pulse width in microseconds.
    SetMavPulse { us: u32 },
    /// One step of the ball valve.
    BallValve(BvStep),
    /// Fire both igniters for three seconds, in a task of its own.
    Ignite,
}

/// Line levels read just before a command is handled.
#[derive(Debug, Clone, Copy)]
pub struct HardwareInputs {
    /// Continuity of igniter 1 and igniter 2.
    pub igniter_continuity: [bool; 2],
    /// Continuity of SV1 to SV5.
    pub sv_continuity: [bool; 5],
}

/// The state of the fill-station hardware as last driven.
pub struct Hardware {
    pub svs: Vec<SolenoidValve>,
    pub mav: Mav,
    pub bv: BallValve,
}

/// The index of the solenoid valve a name designates: "sv1" to "sv5", in any case.
pub open spec fn valve_index_of(name: Seq<u8>) -> Option<int> {
    if name.len() == 3 && (name[0] == 115 || name[0] == 83) && (name[1] == 118 || name[1] == 86)
        && 49 <= name[2] <= 53 {
        Some(name[2] - 49)
    } else {
        None
    }
}

/// Looks up a solenoid valve by name, ignoring case.
pub fn valve_index(name: &str) -> (r: Option<usize>)
    ensures
        r matches Some(i) ==> valve_index_of(vstd::utf8::encode_utf8(name@)) == Some(i as int),
        r is None ==> valve_index_of(vstd::utf8::encode_utf8(name@)) is None,
{
    let b = name.as_bytes();
    if b.len() != 3 {
        return None;
    }
    let s = b[0] == 115 || b[0] == 83;
    let v = b[1] == 118 || b[1] == 86;
    let d = 49 <= b[2] && b[2] <= 53;
    if s && v && d {
        Some((b[2] - 49) as usize)
    } else {
        None
    }
}

/// What a command asks of the valves and lines, with the reply.
pub struct Dispatch {
    pub response: CommandResponse,
    pub actions: Vec<HwAction>,
}

impl Hardware {
    pub open spec fn wf(&self) -> bool {
        self.svs@.len() == SV_COUNT
    }

    /// Valves at rest with the given pulls, the MAV neutral, the ball valve's lines LOW.
    pub fn new(pulls: [LinePull; 5], mav_name: String, bv_name: String) -> (r: Self)
        ensures
            r.wf(),
            forall|i: int| 0 <= i < 5 ==> #[trigger] r.svs@[i] == (SolenoidValve {
                line_pull: pulls@[i],
                current_level: level_for(pulls@[i], false),
            }),
            r.mav.pulse_us == NEUTRAL_US,
            !r.bv.on_off && !r.bv.signal,
    {
        let mut svs: Vec<SolenoidValve> = Vec::new();
        let mut i: usize = 0;
        while i < 5
            invariant
                i <= 5,
                svs@.len() == i,
                forall|j: int| 0 <= j < i ==> #[trigger] svs@[j] == (SolenoidValve {
                    line_pull: pulls@[j],
                    current_level: level_for(pulls@[j], false),
                }),
            decreases 5 - i,
        {
            svs.push(SolenoidValve::new(pulls[i]));
            i = i + 1;
        }
        Hardware { svs, mav: Mav::new(mav_name), bv: BallValve::new(bv_name) }
    }

    /// The reply to a valve-state query for valve `i`.
    pub open spec fn valve_state(&self, i: int, inputs: HardwareInputs) -> CommandResponse {
        let sv = self.svs@[i];
        let actuated = actuated_at(sv.line_pull, sv.current_level);
        CommandResponse::ValveState {
            actuated: if i == INVERTED_REPORT_SV { !actuated } else { actuated },
            continuity: inputs.sv_continuity@[i],
        }
    }

    /// Drives solenoid `i` to the requested state and records it.
    fn actuate_valve(&mut self, i: usize, enable: bool) -> (r: Dispatch)
        requires
            old(self).wf(),
            i < SV_COUNT,
        ensures
            final(self).wf(),
            r.response is Success,
            r.actions@ == seq![
                (HwAction::SetSolenoid {
                    index: i,
                    level: level_for(old(self).svs@[i as int].line_pull, enable),
                }),
            ],
            final(self).svs@ == old(self).svs@.update(
                i as int,
                (SolenoidValve {
                    current_level: level_for(old(self).svs@[i as int].line_pull, enable),
                    ..old(self).svs@[i as int]
                }),
            ),
            final(self).mav == old(self).mav,
            final(self).bv == old(self).bv,
    {
        let mut sv = self.svs[i];
        let level = sv.actuate(enable);
        self.svs.set(i, sv);
        Dispatch {
            response: CommandResponse::Success,
            actions: vec![HwAction::SetSolenoid { index: i, level }],
        }
    }

    /// The emergency shutdown: releases SV1 to SV5, each to the level its pull gives, then
    /// closes the MAV.
    pub fn emergency_shutdown(&mut self) -> (actions: Vec<HwAction>)
        requires
            old(self).wf(),
        ensures
            final(self).wf(),
            actions@.len() == SV_COUNT + 1,
            forall|i: int| 0 <= i < SV_COUNT ==> #[trigger] actions@[i] == (HwAction::SetSolenoid {
                index: i as usize,
                level: level_for(old(self).svs@[i].line_pull, false),
            }),
            actions@[SV_COUNT as int] == (HwAction::SetMavPulse { us: CLOSE_0_US }),
            forall|i: int| 0 <= i < SV_COUNT ==> !actuated_at(
                #[trigger] final(self).svs@[i].line_pull,
                final(self).svs@[i].current_level,
            ),
            forall|i: int| 0 <= i < SV_COUNT ==> #[trigger] final(self).svs@[i].line_pull
                == old(self).svs@[i].line_pull,
            final(self).mav.pulse_us == CLOSE_0_US,
            final(self).bv == old(self).bv,
    {
        let mut actions: Vec<HwAction> = Vec::new();
        let mut i: usize = 0;
        while i < SV_COUNT
            invariant
                i <= SV_COUNT,
                self.wf(),
                actions@.len() == i,
                forall|j: int| 0 <= j < i ==> #[trigger] actions@[j] == (HwAction::SetSolenoid {
                    index: j as usize,
                    level: level_for(old(self).svs@[j].line_pull, false),
                }),
                forall|j: int| 0 <= j < SV_COUNT ==> #[trigger] self.svs@[j].line_pull
                    == old(self).svs@[j].line_pull,
                forall|j: int| 0 <= j < i ==> !actuated_at(
                    #[trigger] self.svs@[j].line_pull,
                    self.svs@[j].current_level,
                ),
                self.mav == old(self).mav,
                self.bv == old(self).bv,
            decreases SV_COUNT - i,
        {
            let mut sv = self.svs[i];
            let level = sv.actuate(false);
            self.svs.set(i, sv);
            actions.push(HwAction::SetSolenoid { index: i, level });
            i = i + 1;
        }
        self.mav.close();
        actions.push(HwAction::SetMavPulse { us: CLOSE_0_US });
        actions
    }
}

/// The reply and hardware writes for a command, as `execute_command` gives them.
pub open spec fn command_result(
    hw: &Hardware,
    session: ClientSession,
    cmd: Command,
    inputs: HardwareInputs,
) -> (CommandResponse, Seq<HwAction>) {
    match cmd {
        Command::Ignite => (CommandResponse::Success, seq![HwAction::Ignite]),
        Command::StartAdcStream => (CommandResponse::Success, seq![]),
        Command::StopAdcStream => (CommandResponse::Success, seq![]),
        Command::ActuateValve { valve, state } => match valve_index_of(
            vstd::utf8::encode_utf8(valve@),
        ) {
            Some(i) => (
                CommandResponse::Success,
                seq![
                    HwAction::SetSolenoid {
                        index: i as usize,
                        level: level_for(hw.svs@[i].line_pull, state),
                    },
                ],
            ),
            None => (CommandResponse::Error, seq![]),
        },
        Command::GetValveState { valve } => match valve_index_of(vstd::utf8::encode_utf8(valve@)) {
            Some(i) => (hw.valve_state(i, inputs), seq![]),
            None => (CommandResponse::Error, seq![]),
        },
        Command::GetIgniterContinuity { id } => if id == 1 || id == 2 {
            (
                CommandResponse::IgniterContinuity {
                    id,
                    continuity: inputs.igniter_continuity@[id - 1],
                },
                seq![],
            )
        } else {
            (CommandResponse::Error, seq![])
        },
        Command::SetMavAngle { angle_cdeg } => (
            CommandResponse::Success,
            seq![HwAction::SetMavPulse { us: pulse_for_angle(angle_cdeg as int) as u32 }],
        ),
        Command::MavOpen => (CommandResponse::Success, seq![HwAction::SetMavPulse { us: OPEN_90_US }]),
        Command::MavClose => (CommandResponse::Success, seq![HwAction::SetMavPulse { us: CLOSE_0_US }]),
        Command::MavNeutral => (CommandResponse::Success, seq![HwAction::SetMavPulse { us: NEUTRAL_US }]),
        Command::GetMavState => (
            CommandResponse::MavState {
                angle_cdeg: angle_for_pulse(hw.mav.pulse_us as int) as u32,
                pulse_width_us: hw.mav.pulse_us,
            },
            seq![],
        ),
        Command::BvOpen => if hw.bv.on_off {
            (CommandResponse::Error, seq![])
        } else {
            (CommandResponse::Success, sequence_steps(true).map_values(|s| HwAction::BallValve(s)))
        },
        Command::BvClose => if hw.bv.on_off {
            (CommandResponse::Error, seq![])
        } else {
            (CommandResponse::Success, sequence_steps(false).map_values(|s| HwAction::BallValve(s)))
        },
        Command::BvSignal { high } => if hw.bv.on_off {
            (CommandResponse::Error, seq![])
        } else {
            (CommandResponse::Success, seq![HwAction::BallValve(BvStep::Signal(high))])
        },
        Command::BvOnOff { high } => (
            CommandResponse::Success,
            seq![HwAction::BallValve(BvStep::OnOff(high))],
        ),
        Command::Heartbeat => (CommandResponse::Success, seq![]),
    }
}

fn wrap_steps(steps: Vec<BvStep>) -> (r: Vec<HwAction>)
    ensures
        r@ == steps@.map_values(|s| HwAction::BallValve(s)),
{
    let mut out: Vec<HwAction> = Vec::new();
    let mut i: usize = 0;
    while i < steps.len()
        invariant
            i <= steps@.len(),
            out@ == steps@.subrange(0, i as int).map_values(|s| HwAction::BallValve(s)),
        decreases steps@.len() - i,
    {
        out.push(HwAction::BallValve(steps[i]));
        i = i + 1;
        proof {
            assert(out@ =~= steps@.subrange(0, i as int).map_values(|s| HwAction::BallValve(s)));
        }
    }
    assert(steps@.subrange(0, steps@.len() as int) =~= steps@);
    out
}

/// Handles one command for a client: updates the hardware state and the session, and says
/// which writes the driver must perform, in order, and what to reply. The reply and writes
/// are `command_result` of the state before the call.
pub fn execute_command(
    hw: &mut Hardware,
    session: &mut ClientSession,
    cmd: &Command,
    inputs: &HardwareInputs,
) -> (r: Dispatch)
    requires
        old(hw).wf(),
    ensures
        final(hw).wf(),
        (r.response, r.actions@) == command_result(old(hw), *old(session), *cmd, *inputs),
        final(session).streaming == match *cmd {
            Command::StartAdcStream => true,
            Command::StopAdcStream => false,
            _ => old(session).streaming,
        },
        final(session).last_sent_ts == old(session).last_sent_ts,
        final(session).last_heartbeat_ms == old(session).last_heartbeat_ms,
        final(hw).svs@ == match *cmd {
            Command::ActuateValve { valve, state } => match valve_index_of(
                vstd::utf8::encode_utf8(valve@),
            ) {
                Some(i) => old(hw).svs@.update(
                    i,
                    (SolenoidValve {
                        current_level: level_for(old(hw).svs@[i].line_pull, state),
                        ..old(hw).svs@[i]
                    }),
                ),
                None => old(hw).svs@,
            },
            _ => old(hw).svs@,
        },
        final(hw).mav.pulse_us == match *cmd {
            Command::SetMavAngle { angle_cdeg } => pulse_for_angle(angle_cdeg as int) as u32,
            Command::MavOpen => OPEN_90_US,
            Command::MavClose => CLOSE_0_US,
            Command::MavNeutral => NEUTRAL_US,
            _ => old(hw).mav.pulse_us,
        },
        final(hw).bv.on_off == match *cmd {
            Command::BvOnOff { high } => high,
            _ => old(hw).bv.on_off,
        },
        final(hw).bv.signal == match *cmd {
            Command::BvOpen => if old(hw).bv.on_off { old(hw).bv.signal } else { true },
            Command::BvClose => if old(hw).bv.on_off { old(hw).bv.signal } else { false },
            Command::BvSignal { high } => if old(hw).bv.on_off { old(hw).bv.signal } else { high },
            _ => old(hw).bv.signal,
        },
{
    let none: Vec<HwAction> = Vec::new();
    match cmd {
        Command::Ignite => Dispatch { response: CommandResponse::Success, actions: vec![HwAction::Ignite] },
        Command::StartAdcStream => {
            session.streaming = true;
            Dispatch { response: CommandResponse::Success, actions: none }
        },
        Command::StopAdcStream => {
            session.streaming = false;
            Dispatch { response: CommandResponse::Success, actions: none }
        },
        Command::ActuateValve { valve, state } => match valve_index(valve.as_str()) {
            Some(i) => hw.actuate_valve(i, *state),
            None => Dispatch { response: CommandResponse::Error, actions: none },
        },
        Command::GetValveState { valve } => match valve_index(valve.as_str()) {
            Some(i) => {
                let actuated = hw.svs[i].is_actuated();
                let reported = if i == INVERTED_REPORT_SV { !actuated } else { actuated };
                Dispatch {
                    response: CommandResponse::ValveState {
                        actuated: reported,
                        continuity: inputs.sv_continuity[i],
                    },
                    actions: none,
                }
            },
            None => Dispatch { response: CommandResponse::Error, actions: none },
        },
        Command::GetIgniterContinuity { id } => {
            if *id == 1 || *id == 2 {
                let continuity = inputs.igniter_continuity[(*id - 1) as usize];
                Dispatch {
                    response: CommandResponse::IgniterContinuity { id: *id, continuity },
                    actions: none,
                }
            } else {
                Dispatch { response: CommandResponse::Error, actions: none }
            }
        },
        Command::SetMavAngle { angle_cdeg } => {
            hw.mav.set_angle(*angle_cdeg);
            let us = hw.mav.get_pulse_width_us();
            Dispatch {
                response: CommandResponse::Success,
                actions: vec![HwAction::SetMavPulse { us }],
            }
        },
        Command::MavOpen => {
            hw.mav.open();
            Dispatch {
                response: CommandResponse::Success,
                actions: vec![HwAction::SetMavPulse { us: OPEN_90_US }],
            }
        },
        Command::MavClose => {
            hw.mav.close();
            Dispatch {
                response: CommandResponse::Success,
                actions: vec![HwAction::SetMavPulse { us: CLOSE_0_US }],
            }
        },
        Command::MavNeutral => {
            hw.mav.neutral();
            Dispatch {
                response: CommandResponse::Success,
                actions: vec![HwAction::SetMavPulse { us: NEUTRAL_US }],
            }
        },
        Command::GetMavState => {
            let angle = hw.mav.get_angle();
            let us = hw.mav.get_pulse_width_us();
            Dispatch {
                response: CommandResponse::MavState { angle_cdeg: angle, pulse_width_us: us },
                actions: none,
            }
        },
        Command::BvOpen => match hw.bv.open_sequence() {
            Ok(steps) => Dispatch { response: CommandResponse::Success, actions: wrap_steps(steps) },
            Err(_) => Dispatch { response: CommandResponse::Error, actions: none },
        },
        Command::BvClose => match hw.bv.close_sequence() {
            Ok(steps) => Dispatch { response: CommandResponse::Success, actions: wrap_steps(steps) },
            Err(_) => Dispatch { response: CommandResponse::Error, actions: none },
        },
        Command::BvSignal { high } => match hw.bv.set_signal_safe(*high) {
            Ok(()) => Dispatch {
                response: CommandResponse::Success,
                actions: vec![HwAction::BallValve(BvStep::Signal(*high))],
            },
            Err(_) => Dispatch { response: CommandResponse::Error, actions: none },
        },
        Command::BvOnOff { high } => {
            hw.bv.set_on_off(*high);
            Dispatch {
                response: CommandResponse::Success,
                actions: vec![HwAction::BallValve(BvStep::OnOff(*high))],
            }
        },
        Command::Heartbeat => Dispatch { response: CommandResponse::Success, actions: none },
    }
}

} // verus!
