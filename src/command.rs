use vstd::prelude::*;

verus! {

/// Commands a websocket client can send to the fill station.
#[derive(Debug, Clone)]
pub enum Command {
    /// Fire both igniters for three seconds.
    Ignite,
    /// Start streaming ADC readings to this client.
    StartAdcStream,
    /// Stop streaming ADC readings to this client.
    StopAdcStream,
    /// Actuate (`state` true) or release a solenoid valve named "sv1" to "sv5".
    ActuateValve { valve: String, state: bool },
    /// Report a solenoid valve's actuation and continuity.
    GetValveState { valve: String },
    /// Report an igniter's continuity; `id` is 1 or 2.
    GetIgniterContinuity { id: u32 },
    /// Move the MAV to an angle in hundredths of a degree.
    SetMavAngle { angle_cdeg: i32 },
    MavOpen,
    MavClose,
    MavNeutral,
    GetMavState,
    /// Run the ball valve's opening travel.
    BvOpen,
    /// Run the ball valve's closing travel.
    BvClose,
    /// Drive the ball valve's signal line.
    BvSignal { high: bool },
    /// Drive the ball valve's ON_OFF line.
    BvOnOff { high: bool },
    /// Liveness beacon.
    Heartbeat,
}

/// One ADC channel: the raw 12-bit count, its voltage and, where the channel has a sensor
/// calibration, the calibrated value.
#[derive(Debug, Clone, Copy, PartialEq, Eq, Structural)]
pub struct ChannelReading {
    pub raw: i16,
    /// Voltage in microvolts.
    pub voltage_uv: i32,
    /// Calibrated value in millionths of its unit (psi or pounds).
    pub scaled_micro: Option<i64>,
}

impl ChannelReading {
    /// A channel read as zero with no calibration.
    pub fn zero() -> (r: Self)
        ensures
            r.raw == 0 && r.voltage_uv == 0 && r.scaled_micro is None,
    {
        ChannelReading { raw: 0, voltage_uv: 0, scaled_micro: None }
    }
}

/// The latest ADC snapshot that the monitor publishes.
#[derive(Debug, Clone, Copy)]
pub struct AdcReadings {
    pub timestamp_ms: u64,
    /// False when the last tick could not read all channels; the channel values are stale.
    pub valid: bool,
    pub adc1: [ChannelReading; 4],
    pub adc2: [ChannelReading; 4],
}

impl AdcReadings {
    /// No reading yet: time zero, not valid, every channel zero.
    pub fn empty() -> (r: Self)
        ensures
            r.timestamp_ms == 0,
            !r.valid,
    {
        AdcReadings {
            timestamp_ms: 0,
            valid: false,
            adc1: [ChannelReading::zero(); 4],
            adc2: [ChannelReading::zero(); 4],
        }
    }
}

/// Replies to commands.
#[derive(Debug, Clone, Copy)]
pub enum CommandResponse {
    Success,
    Error,
    AdcData {
        timestamp_ms: u64,
        valid: bool,
        adc1: [ChannelReading; 4],
        adc2: [ChannelReading; 4],
    },
    IgniterContinuity { id: u32, continuity: bool },
    ValveState { actuated: bool, continuity: bool },
    /// Angle in hundredths of a degree and pulse width in microseconds.
    MavState { angle_cdeg: u32, pulse_width_us: u32 },
}

} // verus!
