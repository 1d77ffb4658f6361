use rocketry_control::flight_loop::{FlightLoop, ALT_WINDOW, FRAM_ALTITUDE_ADDR, FRAM_MODE_ADDR};
use rocketry_control::flight_state::{
    AltimeterReading, FlightState, GpsFix, ImuSample, MagSample, SensorReadings,
};
use rocketry_control::packet::{Packet, FRAME_LEN, SYNC_WORD};
use rocketry_control::state::{FlightMode, SensorState};

const ALT_SAMPLE_INTERVAL: u32 = 10;

fn cycles(fl: &mut FlightLoop, n: u32) {
    for _ in 0..n {
        fl.simulate_cycle();
    }
}

#[test]
fn simulate_flight_s1() {
    let mut fl = FlightLoop::new(FlightState::new());
    assert_eq!(fl.flight_state.flight_mode, FlightMode::Startup);

    fl.set_altimeter_state(SensorState::VALID);
    fl.set_altitude(0);
    fl.set_pressure(101325.0f32.to_bits());
    fl.simulate_cycle();
    assert_eq!(fl.flight_state.flight_mode, FlightMode::Startup);
    assert_eq!(fl.flight_state.reference_pressure, 101325.0f32.to_bits());

    fl.set_key_switch(true);
    fl.simulate_cycle();
    assert_eq!(fl.flight_state.flight_mode, FlightMode::Standby);
    assert!(fl.alt_armed);

    fl.set_umbilical(true);
    fl.simulate_cycle();
    assert_eq!(fl.flight_state.flight_mode, FlightMode::Standby);

    fl.set_launch_command(true);
    fl.simulate_cycle();
    assert_eq!(fl.flight_state.flight_mode, FlightMode::Ascent);
    assert!(fl.mav_open && fl.sv_open);

    fl.set_umbilical(false);
    let altitudes_mm: [i32; 20] = [
        0, 100_000, 189_000, 311_000, 420_000, 732_000, 864_100, 1_029_400, 1_413_900,
        1_692_100, 1_999_900, 2_209_900, 2_509_900, 2_900_900, 2_618_800, 2_163_100, 1_300_000,
        949_000, 400_000, 0,
    ];
    let mut mav_close_simulated = false;
    let mut coast_at = None;
    let mut drogue_at = None;
    let mut main_at = None;
    for &alt in altitudes_mm.iter() {
        fl.set_altitude(alt);
        cycles(&mut fl, ALT_SAMPLE_INTERVAL + 1);
        let mode = fl.flight_state.flight_mode;
        if mode == FlightMode::Ascent && !mav_close_simulated {
            fl.set_mav_open(false);
            fl.set_sv_open(false);
            mav_close_simulated = true;
            fl.simulate_cycle();
            if fl.flight_state.flight_mode == FlightMode::Coast {
                coast_at.get_or_insert(alt);
                fl.set_airbrakes(true);
            }
        }
        if mode == FlightMode::Coast {
            fl.set_cameras_deployed(true);
            fl.set_airbrakes(false);
            fl.simulate_cycle();
        }
        if mode == FlightMode::DrogueDeployed {
            drogue_at.get_or_insert(alt);
            assert!(fl.camera_deployed && !fl.airbrakes_init && fl.drogue_deployed);
            fl.simulate_cycle();
        }
        if mode == FlightMode::MainDeployed {
            main_at.get_or_insert(alt);
        }
        let sum: i64 = fl.alt_buffer.iter().map(|&a| a as i64).sum();
        assert_eq!(fl.alt_sum, sum);
    }
    assert_eq!(coast_at, Some(0));
    assert_eq!(drogue_at, Some(2_618_800));
    assert_eq!(main_at, Some(400_000));
    assert!(fl.main_chutes_deployed);
    assert!(fl.blims_armed);
    assert_eq!(fl.flight_state.flight_mode, FlightMode::MainDeployed);
}

fn in_ascent() -> FlightLoop {
    let mut fl = FlightLoop::new(FlightState::new());
    fl.set_altimeter_state(SensorState::VALID);
    fl.set_key_switch(true);
    fl.simulate_cycle();
    fl.set_launch_command(true);
    fl.simulate_cycle();
    assert_eq!(fl.flight_state.flight_mode, FlightMode::Ascent);
    fl
}

#[test]
fn sensor_drop_in_ascent_faults() {
    let mut fl = in_ascent();
    assert!(fl.alt_armed);
    fl.set_altimeter_state(SensorState::INVALID);
    fl.simulate_cycle();
    assert_eq!(fl.flight_state.flight_mode, FlightMode::Fault);
    assert!(!fl.alt_armed);
    // Fault is terminal
    fl.set_altimeter_state(SensorState::VALID);
    fl.simulate_cycle();
    assert_eq!(fl.flight_state.flight_mode, FlightMode::Fault);
}

#[test]
fn invalid_altimeter_wins_over_every_other_guard() {
    // Standby with the launch command pending still faults
    let mut fl = FlightLoop::new(FlightState::new());
    fl.set_altimeter_state(SensorState::VALID);
    fl.set_key_switch(true);
    fl.simulate_cycle();
    fl.set_launch_command(true);
    fl.set_altimeter_state(SensorState::OFF);
    fl.simulate_cycle();
    assert_eq!(fl.flight_state.flight_mode, FlightMode::Fault);

    // Ascent with the MAV closed still faults
    let mut fl = in_ascent();
    fl.set_mav_open(false);
    fl.set_altimeter_state(SensorState::INVALID);
    fl.simulate_cycle();
    assert_eq!(fl.flight_state.flight_mode, FlightMode::Fault);
}

#[test]
fn startup_faults_only_when_armed_with_a_failed_altimeter() {
    let mut fl = FlightLoop::new(FlightState::new());
    fl.set_altimeter_state(SensorState::INVALID);
    fl.simulate_cycle();
    assert_eq!(fl.flight_state.flight_mode, FlightMode::Startup);
    fl.set_key_switch(true);
    fl.simulate_cycle();
    assert_eq!(fl.flight_state.flight_mode, FlightMode::Fault);
}

#[test]
fn standby_returns_to_startup_when_key_is_removed() {
    let mut fl = FlightLoop::new(FlightState::new());
    fl.set_altimeter_state(SensorState::VALID);
    fl.set_altitude(1234);
    fl.set_key_switch(true);
    fl.simulate_cycle();
    assert_eq!(fl.flight_state.flight_mode, FlightMode::Standby);
    assert_eq!(fl.flight_state.arming_altitude_mm, 1234);
    fl.set_key_switch(false);
    fl.simulate_cycle();
    assert_eq!(fl.flight_state.flight_mode, FlightMode::Startup);
}

#[test]
fn ascent_logs_altitude_to_scratchpad_without_sd_card() {
    let mut fl = in_ascent();
    fl.flight_state.packet.altitude = 812.5f32.to_bits();
    assert_eq!(fl.simulate_cycle(), Some(812.5f32.to_bits()));
    fl.flight_state.sd_logging_enabled = true;
    assert_eq!(fl.simulate_cycle(), None);
}

#[test]
fn ring_buffer_sum_tracks_slots() {
    let mut fl = in_ascent();
    fl.set_mav_open(false);
    fl.simulate_cycle();
    assert_eq!(fl.flight_state.flight_mode, FlightMode::Coast);
    let pushes = [5, -7, 1_000_000, 3, 3, 3, -2_000_000, 42, 9, 8, 7, 6, 5];
    for &a in pushes.iter() {
        fl.set_altitude(a);
        fl.simulate_cycle();
        assert_eq!(fl.alt_buffer.len(), ALT_WINDOW);
        let sum: i64 = fl.alt_buffer.iter().map(|&x| x as i64).sum();
        assert_eq!(fl.alt_sum, sum);
    }
}

#[test]
fn apogee_needs_three_falling_window_sums() {
    let mut fl = in_ascent();
    fl.set_mav_open(false);
    fl.simulate_cycle();
    // two falling sums are not enough
    fl.set_altitude(-10);
    fl.simulate_cycle();
    fl.set_altitude(-20);
    fl.simulate_cycle();
    assert_eq!(fl.flight_state.flight_mode, FlightMode::Coast);
    // the third falling sum deploys the drogue
    fl.set_altitude(-30);
    fl.simulate_cycle();
    assert_eq!(fl.flight_state.flight_mode, FlightMode::DrogueDeployed);
    assert!(fl.drogue_deployed && fl.camera_deployed);
}

#[test]
fn execute_frames_the_packet_and_records_the_mode() {
    let mut fl = FlightLoop::new(FlightState::new());
    fl.flight_state.apply_altimeter(Some(AltimeterReading {
        pressure: 101000.0f32.to_bits(),
        temp: 21.5f32.to_bits(),
        altitude: 3.25f32.to_bits(),
        altitude_mm: 3250,
    }));
    assert_eq!(fl.flight_state.altimeter_state, SensorState::VALID);
    fl.set_key_switch(true);
    let out = fl.execute();
    assert_eq!(fl.flight_state.flight_mode, FlightMode::Standby);
    assert_eq!(fl.flight_state.cycle_count, 1);
    assert_eq!(out.frame.len(), 72);
    assert_eq!(out.mode_record, 1);
    assert_eq!(out.altitude_record, None);
    assert_eq!(&out.frame[0..4], &SYNC_WORD.to_le_bytes());
    assert_eq!(&out.frame[4..8], &1u32.to_le_bytes());
    assert_eq!(&out.frame[8..12], &101000.0f32.to_le_bytes());
    assert_eq!(&out.frame[16..20], &3.25f32.to_le_bytes());
    assert_eq!(FRAM_MODE_ADDR, 0);
    assert_eq!(FRAM_ALTITUDE_ADDR, 100);
}

#[test]
fn altimeter_failure_latches() {
    let mut fs = FlightState::new();
    assert_eq!(fs.altimeter_state, SensorState::OFF);
    fs.apply_altimeter(None);
    assert_eq!(fs.altimeter_state, SensorState::INVALID);
    fs.apply_altimeter(Some(AltimeterReading { pressure: 1, temp: 2, altitude: 3, altitude_mm: 4 }));
    assert_eq!(fs.altimeter_state, SensorState::INVALID);
    assert_eq!(fs.altitude_mm, 4);
}

#[test]
fn radio_frame_is_72_bytes() {
    let mut p = Packet::init_empty();
    p.gyro_z = 0xDEADBEEF;
    p.num_satellites = 9;
    let frame = p.radio_frame();
    assert_eq!(frame.len(), FRAME_LEN);
    assert_eq!(frame.len(), 4 + 68);
    assert_eq!(&frame[0..4], &[0x67, 0x59, 0x5D, 0x3E]);
    assert_eq!(&frame[28..32], &[9, 0, 0, 0]);
    assert_eq!(&frame[68..72], &[0xEF, 0xBE, 0xAD, 0xDE]);
}

#[test]
fn flight_mode_numbers_round_trip() {
    for raw in 0..7u32 {
        assert_eq!(FlightMode::from_u32(raw).to_u32(), raw);
    }
    assert_eq!(FlightMode::from_u32(99), FlightMode::Fault);
    assert_eq!(FlightMode::DrogueDeployed.name(), "DrogueDeployed");
}

#[test]
fn transition_cycles_through_modes() {
    let mut fs = FlightState::new();
    fs.transition();
    assert_eq!(fs.flight_mode, FlightMode::Standby);
    assert_eq!(fs.flight_mode_name(), "Standby");
    for _ in 0..6 {
        fs.transition();
    }
    assert_eq!(fs.flight_mode, FlightMode::Startup);
}

#[test]
fn read_sensors_stores_successful_reads_only() {
    let mut fs = FlightState::new();
    fs.flight_mode = FlightMode::Coast;
    fs.read_sensors(SensorReadings {
        altimeter: Some(AltimeterReading { pressure: 10, temp: 11, altitude: 12, altitude_mm: 13 }),
        gps: Some(GpsFix { latitude: 20, longitude: 21, num_satellites: 7, timestamp: 23 }),
        imu: None,
        mag: Some(MagSample { mag_x: 30, mag_y: 31, mag_z: 32 }),
    });
    assert_eq!(fs.packet.flight_mode, 3);
    assert_eq!((fs.packet.pressure, fs.packet.temp, fs.packet.altitude), (10, 11, 12));
    assert_eq!((fs.packet.latitude, fs.packet.num_satellites), (20, 7));
    assert_eq!((fs.packet.mag_x, fs.packet.mag_z), (30, 32));
    assert_eq!(fs.packet.accel_z, 0);
    assert_eq!(fs.altimeter_state, SensorState::VALID);
    assert_eq!(fs.altitude_mm, 13);

    fs.read_sensors(SensorReadings {
        altimeter: None,
        gps: None,
        imu: Some(ImuSample { accel_x: 1, accel_y: 2, accel_z: 3, gyro_x: 4, gyro_y: 5, gyro_z: 6 }),
        mag: None,
    });
    assert_eq!(fs.altimeter_state, SensorState::INVALID);
    assert_eq!(fs.packet.pressure, 10);
    assert_eq!((fs.packet.accel_z, fs.packet.gyro_z), (3, 6));
    let frame = fs.transmit();
    assert_eq!(frame.len(), 72);
    assert_eq!(&frame[4..8], &3u32.to_le_bytes());
}
