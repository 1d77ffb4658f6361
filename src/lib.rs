//! Control cores of a two-station rocketry system, verified with Verus.
//!
//! Flight computer: the flight state machine with its altitude window and descent filter
//! (`flight_loop`, `flight_cycle`), the flight record (`flight_state`), the telemetry packet
//! and radio frame (`packet`), the scratchpad framing (`fram`) and the sensor byte
//! decoders (`sensors`).
//!
//! Fill station: the ADS1015 converter (`ads1015`), the ADC monitor's scaling and retries
//! (`adc_monitor`), the solenoid, servo and ball valves (`solenoid_valve`, `mav`,
//! `ball_valve`), the command dispatcher over the hardware state (`command`, `hardware`),
//! the per-client session (`session`), the dead-man timer (`safety`) and the CSV log line
//! (`csv_logger`, `text`).
//!
//! Real values that the hardware reports as floats are held as integers in fixed units
//! (millimetres, microvolts, millionths, hundredths of a degree) or, in the telemetry
//! packet, as their IEEE-754 bit patterns.

pub mod adc_monitor;
pub mod ads1015;
pub mod ball_valve;
pub mod bytes;
pub mod command;
pub mod csv_logger;
pub mod flight_cycle;
pub mod flight_loop;
pub mod flight_state;
pub mod fram;
pub mod hardware;
pub mod mav;
pub mod packet;
pub mod safety;
pub mod sensors;
pub mod session;
pub mod solenoid_valve;
pub mod state;
pub mod text;
