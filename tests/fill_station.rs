use rocketry_control::adc_monitor::{channel_reading, AdcMonitor, TickStep, MAX_ATTEMPTS};
use rocketry_control::ball_valve::{BallValve, BvError, BvStep};
use rocketry_control::command::{AdcReadings, Command, CommandResponse};
use rocketry_control::csv_logger::{csv_row, should_sync, CSV_HEADER};
use rocketry_control::hardware::{execute_command, valve_index, Hardware, HardwareInputs, HwAction};
use rocketry_control::mav::{angle_to_pulse, pulse_to_angle, Mav, CLOSE_0_US, MAX_US, MIN_US, OPEN_90_US};
use rocketry_control::safety::SafetyMonitor;
use rocketry_control::session::ClientSession;
use rocketry_control::solenoid_valve::{LinePull, SolenoidValve};

fn station() -> Hardware {
    Hardware::new(
        [
            LinePull::NormallyClosed,
            LinePull::NormallyClosed,
            LinePull::NormallyOpen,
            LinePull::NormallyClosed,
            LinePull::NormallyOpen,
        ],
        "MAV".to_string(),
        "BV".to_string(),
    )
}

fn inputs() -> HardwareInputs {
    HardwareInputs { igniter_continuity: [true, false], sv_continuity: [true, false, true, false, true] }
}

#[test]
fn ignite_replies_success_and_fires_both_igniters() {
    let mut hw = station();
    let mut s = ClientSession::new(0);
    let d = execute_command(&mut hw, &mut s, &Command::Ignite, &inputs());
    assert!(matches!(d.response, CommandResponse::Success));
    assert_eq!(d.actions, vec![HwAction::Ignite]);
}

#[test]
fn ball_valve_interlock_refuses_signal_while_on() {
    let mut hw = station();
    let mut s = ClientSession::new(0);
    let d = execute_command(&mut hw, &mut s, &Command::BvOnOff { high: true }, &inputs());
    assert!(matches!(d.response, CommandResponse::Success));
    let d = execute_command(&mut hw, &mut s, &Command::BvSignal { high: false }, &inputs());
    assert!(matches!(d.response, CommandResponse::Error));
    assert!(d.actions.is_empty());
    let d = execute_command(&mut hw, &mut s, &Command::BvOnOff { high: false }, &inputs());
    assert!(matches!(d.response, CommandResponse::Success));
    let d = execute_command(&mut hw, &mut s, &Command::BvSignal { high: false }, &inputs());
    assert!(matches!(d.response, CommandResponse::Success));
    assert_eq!(d.actions, vec![HwAction::BallValve(BvStep::Signal(false))]);
}

#[test]
fn ball_valve_sequences() {
    let mut bv = BallValve::new("BV".to_string());
    let steps = bv.open_sequence().unwrap();
    assert_eq!(
        steps,
        vec![BvStep::Signal(true), BvStep::OnOff(true), BvStep::Wait(3000), BvStep::OnOff(false)]
    );
    assert!(bv.signal && !bv.on_off);
    bv.set_on_off(true);
    assert_eq!(bv.close_sequence(), Err(BvError::SignalWhileOn));
    assert_eq!(bv.set_signal_safe(false), Err(BvError::SignalWhileOn));
    assert!(bv.signal);
}

#[test]
fn valve_lookup_ignores_case() {
    assert_eq!(valve_index("sv1"), Some(0));
    assert_eq!(valve_index("SV5"), Some(4));
    assert_eq!(valve_index("sV3"), Some(2));
    assert_eq!(valve_index("sv6"), None);
    assert_eq!(valve_index("sv10"), None);
    assert_eq!(valve_index("mav"), None);
}

#[test]
fn actuate_and_query_valves() {
    let mut hw = station();
    let mut s = ClientSession::new(0);
    let cmd = Command::ActuateValve { valve: "SV3".to_string(), state: true };
    let d = execute_command(&mut hw, &mut s, &cmd, &inputs());
    assert!(matches!(d.response, CommandResponse::Success));
    // SV3 is normally open: actuating drives its line LOW
    assert_eq!(d.actions, vec![HwAction::SetSolenoid { index: 2, level: false }]);
    let d = execute_command(&mut hw, &mut s, &Command::GetValveState { valve: "sv3".to_string() }, &inputs());
    assert!(matches!(d.response, CommandResponse::ValveState { actuated: true, continuity: true }));
    // SV5 reports its actuation inverted
    let d = execute_command(&mut hw, &mut s, &Command::GetValveState { valve: "sv5".to_string() }, &inputs());
    assert!(matches!(d.response, CommandResponse::ValveState { actuated: true, continuity: true }));
    let d = execute_command(&mut hw, &mut s, &Command::GetValveState { valve: "sv9".to_string() }, &inputs());
    assert!(matches!(d.response, CommandResponse::Error));
}

#[test]
fn igniter_continuity_by_id() {
    let mut hw = station();
    let mut s = ClientSession::new(0);
    let d = execute_command(&mut hw, &mut s, &Command::GetIgniterContinuity { id: 1 }, &inputs());
    assert!(matches!(d.response, CommandResponse::IgniterContinuity { id: 1, continuity: true }));
    let d = execute_command(&mut hw, &mut s, &Command::GetIgniterContinuity { id: 2 }, &inputs());
    assert!(matches!(d.response, CommandResponse::IgniterContinuity { id: 2, continuity: false }));
    let d = execute_command(&mut hw, &mut s, &Command::GetIgniterContinuity { id: 3 }, &inputs());
    assert!(matches!(d.response, CommandResponse::Error));
}

#[test]
fn mav_commands_and_state() {
    let mut hw = station();
    let mut s = ClientSession::new(0);
    let d = execute_command(&mut hw, &mut s, &Command::SetMavAngle { angle_cdeg: 4500 }, &inputs());
    assert_eq!(d.actions, vec![HwAction::SetMavPulse { us: 1422 }]);
    let d = execute_command(&mut hw, &mut s, &Command::GetMavState, &inputs());
    assert!(matches!(d.response, CommandResponse::MavState { angle_cdeg: 4500, pulse_width_us: 1422 }));
    let d = execute_command(&mut hw, &mut s, &Command::MavOpen, &inputs());
    assert_eq!(d.actions, vec![HwAction::SetMavPulse { us: OPEN_90_US }]);
    let d = execute_command(&mut hw, &mut s, &Command::GetMavState, &inputs());
    assert!(matches!(d.response, CommandResponse::MavState { angle_cdeg: 9000, pulse_width_us: 922 }));
}

#[test]
fn mav_rejects_out_of_range_pulses() {
    let mut mav = Mav::new("MAV".to_string());
    assert!(mav.set_pulse_width_us(1500));
    assert!(!mav.set_pulse_width_us(MIN_US - 1));
    assert_eq!(mav.get_pulse_width_us(), 1500);
    assert!(!mav.set_pulse_width_us(MAX_US + 1));
    assert_eq!(mav.get_pulse_width_us(), 1500);
    assert!(mav.set_pulse_width_us(MAX_US));
}

#[test]
fn mav_angle_map_clamps() {
    assert_eq!(angle_to_pulse(0), CLOSE_0_US);
    assert_eq!(angle_to_pulse(-500), CLOSE_0_US);
    assert_eq!(angle_to_pulse(9000), OPEN_90_US);
    assert_eq!(angle_to_pulse(20000), MIN_US);
    assert_eq!(pulse_to_angle(2000), 0);
    assert_eq!(pulse_to_angle(800), 9000);
    assert_eq!(pulse_to_angle(1422), 4500);
}

#[test]
fn streaming_toggles_and_sends_new_snapshots_once() {
    let mut hw = station();
    let mut s = ClientSession::new(0);
    let d = execute_command(&mut hw, &mut s, &Command::StartAdcStream, &inputs());
    assert!(matches!(d.response, CommandResponse::Success));
    assert!(s.streaming);
    let mut r = AdcReadings::empty();
    assert!(s.on_timer(&r).is_none());
    r.timestamp_ms = 100;
    assert!(matches!(s.on_timer(&r), Some(CommandResponse::AdcData { timestamp_ms: 100, .. })));
    assert!(s.on_timer(&r).is_none());
    execute_command(&mut hw, &mut s, &Command::StopAdcStream, &inputs());
    r.timestamp_ms = 200;
    assert!(s.on_timer(&r).is_none());
}

#[test]
fn heartbeat_timeout_expires_client() {
    let mut s = ClientSession::new(1000);
    assert!(!s.expired(16_000));
    assert!(s.expired(16_001));
    s.heard_from(16_000);
    assert!(!s.expired(16_001));
}

#[test]
fn deadman_fires_once_and_makes_plant_safe() {
    let mut hw = station();
    let mut s = ClientSession::new(0);
    execute_command(&mut hw, &mut s, &Command::ActuateValve { valve: "sv1".to_string(), state: true }, &inputs());
    execute_command(&mut hw, &mut s, &Command::ActuateValve { valve: "sv3".to_string(), state: true }, &inputs());
    let mut m = SafetyMonitor::new();
    assert!(!m.poll(0, 1));
    let mut fired = 0;
    let mut t = 500;
    while t <= 40_000 {
        if m.poll(t, 0) {
            fired += 1;
            assert_eq!(t, 15_500 + 500);
            let actions = hw.emergency_shutdown();
            assert_eq!(
                actions,
                vec![
                    HwAction::SetSolenoid { index: 0, level: false },
                    HwAction::SetSolenoid { index: 1, level: false },
                    HwAction::SetSolenoid { index: 2, level: true },
                    HwAction::SetSolenoid { index: 3, level: false },
                    HwAction::SetSolenoid { index: 4, level: true },
                    HwAction::SetMavPulse { us: CLOSE_0_US },
                ]
            );
        }
        t += 500;
    }
    assert_eq!(fired, 1);
    for sv in hw.svs.iter() {
        assert!(!sv.is_actuated());
    }
    assert_eq!(hw.mav.get_pulse_width_us(), CLOSE_0_US);
    // a client reconnecting re-arms the timer
    assert!(!m.poll(41_000, 1));
    assert!(!m.safety_triggered && m.disconnected_since.is_none());
}

fn ok_reads() -> [i16; 8] {
    [100, 200, -5, 0, 2047, -2048, 7, 8]
}

#[test]
fn adc_retry_four_errors_then_success() {
    let mut mon = AdcMonitor::new();
    let last = AdcReadings::empty();
    let mut published = Vec::new();
    for attempt in 0..5 {
        let reads = if attempt < 4 { None } else { Some(ok_reads()) };
        match mon.on_attempt(1_000, reads, &last) {
            TickStep::Retry { delay_ms } => assert_eq!(delay_ms, 10),
            TickStep::Publish(r) => published.push(r),
        }
    }
    assert_eq!(published.len(), 1);
    assert!(published[0].valid);
    assert_eq!(published[0].timestamp_ms, 1_000);
    assert_eq!(published[0].adc1[0].raw, 100);
    assert_eq!(published[0].adc2[3].raw, 8);
    assert_eq!(mon.failures, 0);
}

#[test]
fn adc_retry_five_errors_invalidates() {
    let mut mon = AdcMonitor::new();
    let mut last = AdcReadings::empty();
    last.adc1[0] = channel_reading(0, 0, 55);
    let mut published = Vec::new();
    for _ in 0..MAX_ATTEMPTS {
        if let TickStep::Publish(r) = mon.on_attempt(2_000, None, &last) {
            published.push(r);
        }
    }
    assert_eq!(published.len(), 1);
    assert!(!published[0].valid);
    assert_eq!(published[0].timestamp_ms, 2_000);
    assert_eq!(published[0].adc1[0].raw, 55);
}

#[test]
fn channel_scaling_is_exact() {
    let r = channel_reading(0, 0, 100);
    assert_eq!(r.voltage_uv, 200_000);
    assert_eq!(r.scaled_micro, Some(100 * 909_754 + 5_089_260));
    let r = channel_reading(1, 1, -10);
    assert_eq!(r.scaled_micro, Some(-10 * 1_696_610 + 75_378_820));
    let r = channel_reading(1, 2, 1);
    assert_eq!(r.scaled_micro, Some(1_221_240 + 5_370_520));
}

#[test]
fn csv_row_formats_every_field() {
    let mut hw = station();
    let mut s = ClientSession::new(0);
    execute_command(&mut hw, &mut s, &Command::SetMavAngle { angle_cdeg: 4500 }, &inputs());
    execute_command(&mut hw, &mut s, &Command::ActuateValve { valve: "sv1".to_string(), state: true }, &inputs());
    let mut adc = AdcReadings::empty();
    adc.timestamp_ms = 1234;
    adc.valid = true;
    adc.adc1[0] = channel_reading(0, 0, 100);
    adc.adc1[1] = channel_reading(0, 1, -3);
    let row = csv_row(7, &adc, &hw, [true, false], [true, false, true, false, true]);
    let text = String::from_utf8(row).unwrap();
    assert_eq!(
        text,
        "7,1234,45.00,1422,true,false,true,true,false,false,false,true,false,false,true,true,\
100,96.0647,-3,1.7068,0,N/A,0,N/A,0,N/A,0,N/A,0,N/A,0,N/A\n"
    );
    adc.valid = false;
    let row = String::from_utf8(csv_row(8, &adc, &hw, [false, false], [false; 5])).unwrap();
    assert!(row.ends_with(",N/A,N/A,N/A,N/A,N/A,N/A,N/A,N/A,N/A,N/A,N/A,N/A,N/A,N/A,N/A,N/A\n"));
    assert_eq!(row.split(',').count(), 32);
    assert_eq!(CSV_HEADER.split(',').count(), 32);
    assert!(should_sync(100) && !should_sync(101));
}

#[test]
fn solenoid_levels_follow_pull() {
    let mut nc = SolenoidValve::new(LinePull::NormallyClosed);
    let mut no = SolenoidValve::new(LinePull::NormallyOpen);
    assert!(!nc.current_level && no.current_level);
    assert!(nc.actuate(true));
    assert!(!no.actuate(true));
    assert!(nc.is_actuated() && no.is_actuated());
}
