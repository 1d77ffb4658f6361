use vstd::prelude::*;
use crate::bytes::{le_word, le_words, push_le_word};

verus! {

/// Word that precedes every radio frame, sent least significant byte first.
pub const SYNC_WORD: u32 = 0x3E5D5967;

/// Bytes of telemetry after the sync word.
pub const PAYLOAD_LEN: usize = 68;

/// Bytes of a whole radio frame: sync word and payload.
pub const FRAME_LEN: usize = 72;

/// One telemetry snapshot.
///
/// Every real-valued field holds the IEEE-754 single-precision bit pattern of its value,
/// which is what goes on the wire; the counting fields hold plain integers.
#[derive(Debug, Clone, Copy, PartialEq, Eq, Structural)]
pub struct Packet {
    pub flight_mode: u32,
    /// Pressure in pascals.
    pub pressure: u32,
    /// Temperature in degrees Celsius.
    pub temp: u32,
    /// Barometric altitude in metres.
    pub altitude: u32,
    /// Latitude in degrees.
    pub latitude: u32,
    /// Longitude in degrees.
    pub longitude: u32,
    pub num_satellites: u32,
    /// GPS time of day in seconds.
    pub timestamp: u32,
    /// Magnetic field in microtesla.
    pub mag_x: u32,
    pub mag_y: u32,
    pub mag_z: u32,
    /// Acceleration in m/s².
    pub accel_x: u32,
    pub accel_y: u32,
    pub accel_z: u32,
    /// Angular rate in degrees per second.
    pub gyro_x: u32,
    pub gyro_y: u32,
    pub gyro_z: u32,
}

impl Packet {
    /// The packet's seventeen words in wire order.
    pub open spec fn words(self) -> Seq<u32> {
        seq![
            self.flight_mode,
            self.pressure,
            self.temp,
            self.altitude,
            self.latitude,
            self.longitude,
            self.num_satellites,
            self.timestamp,
            self.mag_x,
            self.mag_y,
            self.mag_z,
            self.accel_x,
            self.accel_y,
            self.accel_z,
            self.gyro_x,
            self.gyro_y,
            self.gyro_z,
        ]
    }

    /// The radio frame of this packet: sync word, then every word little-endian.
    pub open spec fn frame(self) -> Seq<u8> {
        le_word(SYNC_WORD) + le_words(self.words())
    }

    /// The packet whose every word is zero (every real value +0.0).
    pub open spec fn zeroed() -> Packet {
        Packet {
            flight_mode: 0,
            pressure: 0,
            temp: 0,
            altitude: 0,
            latitude: 0,
            longitude: 0,
            num_satellites: 0,
            timestamp: 0,
            mag_x: 0,
            mag_y: 0,
            mag_z: 0,
            accel_x: 0,
            accel_y: 0,
            accel_z: 0,
            gyro_x: 0,
            gyro_y: 0,
            gyro_z: 0,
        }
    }

    /// A packet of zeros (every real value +0.0).
    pub fn init_empty() -> (r: Self)
        ensures
            r == Packet::zeroed(),
    {
        Packet {
            flight_mode: 0,
            pressure: 0,
            temp: 0,
            altitude: 0,
            latitude: 0,
            longitude: 0,
            num_satellites: 0,
            timestamp: 0,
            mag_x: 0,
            mag_y: 0,
            mag_z: 0,
            accel_x: 0,
            accel_y: 0,
            accel_z: 0,
            gyro_x: 0,
            gyro_y: 0,
            gyro_z: 0,
        }
    }

    /// Builds the radio frame: the sync word, then the 68-byte payload.
    pub fn radio_frame(&self) -> (r: Vec<u8>)
        ensures
            r@ == self.frame(),
            r@.len() == FRAME_LEN,
    {
        let ws: [u32; 17] = [
            self.flight_mode,
            self.pressure,
            self.temp,
            self.altitude,
            self.latitude,
            self.longitude,
            self.num_satellites,
            self.timestamp,
            self.mag_x,
            self.mag_y,
            self.mag_z,
            self.accel_x,
            self.accel_y,
            self.accel_z,
            self.gyro_x,
            self.gyro_y,
            self.gyro_z,
        ];
        assert(ws@ =~= self.words());
        let mut out: Vec<u8> = Vec::new();
        push_le_word(&mut out, SYNC_WORD);
        let mut i: usize = 0;
        while i < 17
            invariant
                i <= 17,
                ws@ == self.words(),
                out@ == le_word(SYNC_WORD) + le_words(ws@.subrange(0, i as int)),
                out@.len() == 4 + 4 * i,
            decreases 17 - i,
        {
            proof {
                assert(ws@.subrange(0, i + 1).drop_last() =~= ws@.subrange(0, i as int));
            }
            push_le_word(&mut out, ws[i]);
            i = i + 1;
        }
        assert(ws@.subrange(0, 17) =~= ws@);
        out
    }
}

/// Every radio frame is the four sync bytes followed by exactly 68 payload bytes.
pub proof fn lemma_frame_length(p: Packet)
    ensures
        p.frame().len() == FRAME_LEN,
        p.frame().subrange(0, 4) == le_word(SYNC_WORD),
        p.frame().len() - 4 == PAYLOAD_LEN,
{
    lemma_le_words_len(p.words());
    assert(p.frame().subrange(0, 4) =~= le_word(SYNC_WORD));
}

/// Each word takes four bytes.
pub proof fn lemma_le_words_len(ws: Seq<u32>)
    ensures
        le_words(ws).len() == 4 * ws.len(),
    decreases ws.len(),
{
    if ws.len() > 0 {
        lemma_le_words_len(ws.drop_last());
    }
}

} // verus!
