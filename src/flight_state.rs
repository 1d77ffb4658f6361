use vstd::prelude::*;
use crate::packet::Packet;
use crate::state::{FlightMode, SensorState};

verus! {

/// One successful barometer read.
#[derive(Debug, Clone, Copy, PartialEq, Eq, Structural)]
pub struct AltimeterReading {
    /// Pressure, as IEEE-754 single-precision bits of pascals.
    pub pressure: u32,
    /// Temperature, as IEEE-754 single-precision bits of degrees Celsius.
    pub temp: u32,
    /// Altitude, as IEEE-754 single-precision bits of metres.
    pub altitude: u32,
    /// The same altitude in whole millimetres, which the state machine compares.
    pub altitude_mm: i32,
}

/// One GPS fix: position as IEEE-754 bits of degrees, time of day as bits of seconds.
#[derive(Debug, Clone, Copy, PartialEq, Eq, Structural)]
pub struct GpsFix {
    pub latitude: u32,
    pub longitude: u32,
    pub num_satellites: u32,
    pub timestamp: u32,
}

/// One IMU sample: acceleration (m/s²) and angular rate (°/s), as IEEE-754 bits.
#[derive(Debug, Clone, Copy, PartialEq, Eq, Structural)]
pub struct ImuSample {
    pub accel_x: u32,
    pub accel_y: u32,
    pub accel_z: u32,
    pub gyro_x: u32,
    pub gyro_y: u32,
    pub gyro_z: u32,
}

/// One magnetometer sample in microtesla, as IEEE-754 bits.
#[derive(Debug, Clone, Copy, PartialEq, Eq, Structural)]
pub struct MagSample {
    pub mag_x: u32,
    pub mag_y: u32,
    pub mag_z: u32,
}

/// The outcome of reading every sensor once; `None` where the read failed.
#[derive(Debug, Clone, Copy, PartialEq, Eq, Structural)]
pub struct SensorReadings {
    pub altimeter: Option<AltimeterReading>,
    pub gps: Option<GpsFix>,
    pub imu: Option<ImuSample>,
    pub mag: Option<MagSample>,
}

/// The packet after the successful reads among `r` are stored in `p`.
pub open spec fn packet_after_reads(p: Packet, r: SensorReadings) -> Packet {
    let p1 = match r.altimeter {
        Some(a) => Packet { pressure: a.pressure, temp: a.temp, altitude: a.altitude, ..p },
        None => p,
    };
    let p2 = match r.gps {
        Some(g) => Packet {
            latitude: g.latitude,
            longitude: g.longitude,
            num_satellites: g.num_satellites,
            timestamp: g.timestamp,
            ..p1
        },
        None => p1,
    };
    let p3 = match r.imu {
        Some(i) => Packet {
            accel_x: i.accel_x,
            accel_y: i.accel_y,
            accel_z: i.accel_z,
            gyro_x: i.gyro_x,
            gyro_y: i.gyro_y,
            gyro_z: i.gyro_z,
            ..p2
        },
        None => p2,
    };
    match r.mag {
        Some(m) => Packet { mag_x: m.mag_x, mag_y: m.mag_y, mag_z: m.mag_z, ..p3 },
        None => p3,
    }
}

/// What the flight computer knows about itself between cycles.
///
/// The device handles live with the program that drives the hardware; this record holds
/// the values that the state machine reads and writes.
#[derive(Debug, Clone, Copy)]
pub struct FlightState {
    pub packet: Packet,
    pub flight_mode: FlightMode,
    pub cycle_count: u32,
    pub key_armed: bool,
    pub umbilical_connected: bool,
    pub altimeter_state: SensorState,
    /// Latest barometric altitude in millimetres.
    pub altitude_mm: i32,
    /// Pressure latched before launch (IEEE-754 bits of pascals).
    pub reference_pressure: u32,
    /// Altitude latched when the key switch armed the vehicle, in millimetres.
    pub arming_altitude_mm: i32,
    pub sd_logging_enabled: bool,
}

impl FlightState {
    /// Power-on state: `Startup`, altimeter not read, an empty packet, no SD card logging.
    pub fn new() -> (r: Self)
        ensures
            r.flight_mode == FlightMode::Startup,
            r.altimeter_state == SensorState::OFF,
            r.cycle_count == 0,
            !r.key_armed,
            !r.umbilical_connected,
            !r.sd_logging_enabled,
            r.altitude_mm == 0,
            r.reference_pressure == 0,
            r.arming_altitude_mm == 0,
            r.packet == Packet::zeroed(),
    {
        FlightState {
            packet: Packet::init_empty(),
            flight_mode: FlightMode::Startup,
            cycle_count: 0,
            key_armed: false,
            umbilical_connected: false,
            altimeter_state: SensorState::OFF,
            altitude_mm: 0,
            reference_pressure: 0,
            arming_altitude_mm: 0,
            sd_logging_enabled: false,
        }
    }

    /// Latest altitude in millimetres.
    pub fn read_altimeter(&self) -> (r: i32)
        ensures
            r == self.altitude_mm,
    {
        self.altitude_mm
    }

    /// Latest pressure (IEEE-754 bits of pascals).
    pub fn read_barometer(&self) -> (r: u32)
        ensures
            r == self.packet.pressure,
    {
        self.packet.pressure
    }

    /// Takes in the outcome of one barometer read.
    ///
    /// A success stores the values in the packet and makes the altimeter `VALID` unless it
    /// has already failed; a failure makes it `INVALID`, and it stays so for the flight.
    pub fn apply_altimeter(&mut self, reading: Option<AltimeterReading>)
        ensures
            final(self).altimeter_state == match reading {
                Some(_) => if old(self).altimeter_state == SensorState::INVALID {
                    SensorState::INVALID
                } else {
                    SensorState::VALID
                },
                None => SensorState::INVALID,
            },
            reading matches Some(r) ==> {
                &&& final(self).packet == (Packet {
                    pressure: r.pressure,
                    temp: r.temp,
                    altitude: r.altitude,
                    ..old(self).packet
                })
                &&& final(self).altitude_mm == r.altitude_mm
            },
            reading is None ==> final(self).packet == old(self).packet && final(self).altitude_mm
                == old(self).altitude_mm,
            final(self).flight_mode == old(self).flight_mode,
            final(self).cycle_count == old(self).cycle_count,
            final(self).key_armed == old(self).key_armed,
            final(self).umbilical_connected == old(self).umbilical_connected,
            final(self).reference_pressure == old(self).reference_pressure,
            final(self).arming_altitude_mm == old(self).arming_altitude_mm,
            final(self).sd_logging_enabled == old(self).sd_logging_enabled,
    {
        match reading {
            Some(r) => {
                self.packet.pressure = r.pressure;
                self.packet.temp = r.temp;
                self.packet.altitude = r.altitude;
                self.altitude_mm = r.altitude_mm;
                if self.altimeter_state != SensorState::INVALID {
                    self.altimeter_state = SensorState::VALID;
                }
            },
            None => {
                self.altimeter_state = SensorState::INVALID;
            },
        }
    }

    /// Takes in one round of sensor reads: stamps the packet with the current mode, stores
    /// every successful read in the packet, and updates the altimeter health as
    /// `apply_altimeter` does. A failed read leaves its fields as they were.
    pub fn read_sensors(&mut self, readings: SensorReadings)
        ensures
            final(self).packet == packet_after_reads(
                Packet { flight_mode: old(self).flight_mode.code(), ..old(self).packet },
                readings,
            ),
            final(self).altimeter_state == match readings.altimeter {
                Some(_) => if old(self).altimeter_state == SensorState::INVALID {
                    SensorState::INVALID
                } else {
                    SensorState::VALID
                },
                None => SensorState::INVALID,
            },
            final(self).altitude_mm == match readings.altimeter {
                Some(a) => a.altitude_mm,
                None => old(self).altitude_mm,
            },
            final(self).flight_mode == old(self).flight_mode,
            final(self).cycle_count == old(self).cycle_count,
            final(self).key_armed == old(self).key_armed,
            final(self).umbilical_connected == old(self).umbilical_connected,
            final(self).reference_pressure == old(self).reference_pressure,
            final(self).arming_altitude_mm == old(self).arming_altitude_mm,
            final(self).sd_logging_enabled == old(self).sd_logging_enabled,
    {
        self.packet.flight_mode = self.flight_mode.to_u32();
        self.apply_altimeter(readings.altimeter);
        if let Some(g) = readings.gps {
            self.packet.latitude = g.latitude;
            self.packet.longitude = g.longitude;
            self.packet.num_satellites = g.num_satellites;
            self.packet.timestamp = g.timestamp;
        }
        if let Some(i) = readings.imu {
            self.packet.accel_x = i.accel_x;
            self.packet.accel_y = i.accel_y;
            self.packet.accel_z = i.accel_z;
            self.packet.gyro_x = i.gyro_x;
            self.packet.gyro_y = i.gyro_y;
            self.packet.gyro_z = i.gyro_z;
        }
        if let Some(m) = readings.mag {
            self.packet.mag_x = m.mag_x;
            self.packet.mag_y = m.mag_y;
            self.packet.mag_z = m.mag_z;
        }
    }

    /// The radio frame of the current packet.
    pub fn transmit(&self) -> (r: Vec<u8>)
        ensures
            r@ == self.packet.frame(),
            r@.len() == 72,
    {
        self.packet.radio_frame()
    }

    /// Steps through the modes in their order of flight, wrapping from `Fault` to `Startup`.
    pub fn transition(&mut self)
        ensures
            final(self).flight_mode == (match old(self).flight_mode {
                FlightMode::Startup => FlightMode::Standby,
                FlightMode::Standby => FlightMode::Ascent,
                FlightMode::Ascent => FlightMode::Coast,
                FlightMode::Coast => FlightMode::DrogueDeployed,
                FlightMode::DrogueDeployed => FlightMode::MainDeployed,
                FlightMode::MainDeployed => FlightMode::Fault,
                FlightMode::Fault => FlightMode::Startup,
            }),
            *final(self) == (FlightState { flight_mode: final(self).flight_mode, ..*old(self) }),
    {
        self.flight_mode = match self.flight_mode {
            FlightMode::Startup => FlightMode::Standby,
            FlightMode::Standby => FlightMode::Ascent,
            FlightMode::Ascent => FlightMode::Coast,
            FlightMode::Coast => FlightMode::DrogueDeployed,
            FlightMode::DrogueDeployed => FlightMode::MainDeployed,
            FlightMode::MainDeployed => FlightMode::Fault,
            FlightMode::Fault => FlightMode::Startup,
        };
    }

    /// The current mode's name for logs.
    pub fn flight_mode_name(&self) -> (r: &'static str)
        ensures
            r@ == self.flight_mode.name_spec(),
    {
        self.flight_mode.name()
    }
}

} // verus!
