use vstd::prelude::*;

verus! {

/// Configuration bit that starts a single conversion (and reads 1 once it is done).
pub const OS_SINGLE: u16 = 0x8000;

/// Configuration bit for single-shot mode.
pub const MODE_SINGLE: u16 = 0x0100;

/// Configuration bits that disable the comparator.
pub const COMP_QUE_DISABLE: u16 = 0x0003;

/// Input multiplexer setting.
#[derive(Debug, Clone, Copy, PartialEq, Eq, Structural)]
pub enum Channel {
    /// Single-ended input on AIN0
    Ain0,
    /// Single-ended input on AIN1
    Ain1,
    /// Single-ended input on AIN2
    Ain2,
    /// Single-ended input on AIN3
    Ain3,
    /// Differential input: AIN0 - AIN1
    Diff0_1,
    /// Differential input: AIN0 - AIN3
    Diff0_3,
    /// Differential input: AIN1 - AIN3
    Diff1_3,
    /// Differential input: AIN2 - AIN3
    Diff2_3,
}

impl Channel {
    /// The three multiplexer bits of the channel.
    pub open spec fn mux(self) -> nat {
        match self {
            Channel::Ain0 => 4,
            Channel::Ain1 => 5,
            Channel::Ain2 => 6,
            Channel::Ain3 => 7,
            Channel::Diff0_1 => 0,
            Channel::Diff0_3 => 1,
            Channel::Diff1_3 => 2,
            Channel::Diff2_3 => 3,
        }
    }

    /// The three multiplexer bits of the channel.
    pub fn mux_bits(&self) -> (r: u16)
        ensures
            r == self.mux(),
    {
        match self {
            Channel::Ain0 => 4,
            Channel::Ain1 => 5,
            Channel::Ain2 => 6,
            Channel::Ain3 => 7,
            Channel::Diff0_1 => 0,
            Channel::Diff0_3 => 1,
            Channel::Diff1_3 => 2,
            Channel::Diff2_3 => 3,
        }
    }
}

/// Programmable gain setting.
#[derive(Debug, Clone, Copy, PartialEq, Eq, Structural)]
pub enum Gain {
    /// ±6.144 V range (2/3x gain)
    TwoThirds,
    /// ±4.096 V range (1x gain)
    One,
    /// ±2.048 V range (2x gain)
    Two,
    /// ±1.024 V range (4x gain)
    Four,
    /// ±0.512 V range (8x gain)
    Eight,
    /// ±0.256 V range (16x gain)
    Sixteen,
}

impl Gain {
    /// The three gain bits.
    pub open spec fn pga(self) -> nat {
        match self {
            Gain::TwoThirds => 0,
            Gain::One => 1,
            Gain::Two => 2,
            Gain::Four => 3,
            Gain::Eight => 4,
            Gain::Sixteen => 5,
        }
    }

    /// Full-scale range in millivolts.
    pub open spec fn range_mv(self) -> nat {
        match self {
            Gain::TwoThirds => 6144,
            Gain::One => 4096,
            Gain::Two => 2048,
            Gain::Four => 1024,
            Gain::Eight => 512,
            Gain::Sixteen => 256,
        }
    }

    /// The three gain bits.
    pub fn pga_bits(&self) -> (r: u16)
        ensures
            r == self.pga(),
    {
        match self {
            Gain::TwoThirds => 0,
            Gain::One => 1,
            Gain::Two => 2,
            Gain::Four => 3,
            Gain::Eight => 4,
            Gain::Sixteen => 5,
        }
    }

    /// The voltage range of this gain, in millivolts (6144 is ±6.144 V).
    pub fn voltage_range(&self) -> (r: u32)
        ensures
            r == self.range_mv(),
    {
        match self {
            Gain::TwoThirds => 6144,
            Gain::One => 4096,
            Gain::Two => 2048,
            Gain::Four => 1024,
            Gain::Eight => 512,
            Gain::Sixteen => 256,
        }
    }

    /// Size of one step of the 12-bit result, in microvolts: the range over 2048.
    pub fn lsb_size(&self) -> (r: u32)
        ensures
            r * 2048 == self.range_mv() * 1000,
    {
        match self {
            Gain::TwoThirds => 3000,
            Gain::One => 2000,
            Gain::Two => 1000,
            Gain::Four => 500,
            Gain::Eight => 250,
            Gain::Sixteen => 125,
        }
    }
}

/// Sample rate setting of the ADS1015 converter.
#[derive(Debug, Clone, Copy, PartialEq, Eq)]
pub enum DataRate {
    /// 128 samples per second
    Sps128,
    /// 250 samples per second
    Sps250,
    /// 490 samples per second
    Sps490,
    /// 920 samples per second
    Sps920,
    /// 1600 samples per second (default)
    Sps1600,
    /// 2400 samples per second
    Sps2400,
    /// 3300 samples per second (maximum)
    Sps3300,
}

impl DataRate {
    /// The three data-rate bits.
    pub open spec fn dr(self) -> nat {
        match self {
            DataRate::Sps128 => 0,
            DataRate::Sps250 => 1,
            DataRate::Sps490 => 2,
            DataRate::Sps920 => 3,
            DataRate::Sps1600 => 4,
            DataRate::Sps2400 => 5,
            DataRate::Sps3300 => 6,
        }
    }

    /// The three data-rate bits.
    pub fn dr_bits(&self) -> (r: u16)
        ensures
            r == self.dr(),
    {
        match self {
            DataRate::Sps128 => 0,
            DataRate::Sps250 => 1,
            DataRate::Sps490 => 2,
            DataRate::Sps920 => 3,
            DataRate::Sps1600 => 4,
            DataRate::Sps2400 => 5,
            DataRate::Sps3300 => 6,
        }
    }

    /// Samples per second.
    pub open spec fn sps(self) -> nat {
        match self {
            DataRate::Sps128 => 128,
            DataRate::Sps250 => 250,
            DataRate::Sps490 => 490,
            DataRate::Sps920 => 920,
            DataRate::Sps1600 => 1600,
            DataRate::Sps2400 => 2400,
            DataRate::Sps3300 => 3300,
        }
    }

    /// Conversion time in whole milliseconds, as the device settles.
    pub fn conversion_time_ms(&self) -> (r: u64)
        ensures
            r == match *self {
                DataRate::Sps128 => 8u64,
                DataRate::Sps250 => 4,
                DataRate::Sps490 => 3,
                DataRate::Sps920 => 2,
                _ => 1,
            },
    {
        match self {
            DataRate::Sps128 => 8,
            DataRate::Sps250 => 4,
            DataRate::Sps490 => 3,
            DataRate::Sps920 => 2,
            DataRate::Sps1600 => 1,
            DataRate::Sps2400 => 1,
            DataRate::Sps3300 => 1,
        }
    }

    /// Conversion time in microseconds, for the finer waits of the faster rates.
    pub fn conversion_time_us(&self) -> (r: u64)
        ensures
            r == match *self {
                DataRate::Sps128 => 8000u64,
                DataRate::Sps250 => 4000,
                DataRate::Sps490 => 2041,
                DataRate::Sps920 => 1087,
                DataRate::Sps1600 => 625,
                DataRate::Sps2400 => 417,
                DataRate::Sps3300 => 303,
            },
    {
        match self {
            DataRate::Sps128 => 8000,
            DataRate::Sps250 => 4000,
            DataRate::Sps490 => 2041,
            DataRate::Sps920 => 1087,
            DataRate::Sps1600 => 625,
            DataRate::Sps2400 => 417,
            DataRate::Sps3300 => 303,
        }
    }
}

/// Configuration word that starts one single-shot conversion.
pub open spec fn config_spec(channel: Channel, gain: Gain, rate: DataRate) -> int {
    OS_SINGLE + channel.mux() * 4096 + gain.pga() * 512 + MODE_SINGLE + rate.dr() * 32
        + COMP_QUE_DISABLE
}

/// The two bytes of a 16-bit word exchanged.
pub open spec fn swap_spec(w: u16) -> int {
    (w % 256) * 256 + w / 256
}

/// The 12-bit two's-complement result held in the top bits of a big-endian conversion word.
pub open spec fn raw_of_word(be_word: int) -> int {
    let v = be_word / 16;
    if v >= 2048 {
        v - 4096
    } else {
        v
    }
}

/// Exchanges the two bytes of a word: the bus carries the device's big-endian words
/// least significant byte first.
pub fn swap_bytes(w: u16) -> (r: u16)
    ensures
        r == swap_spec(w),
{
    (w % 256) * 256 + w / 256
}

/// The configuration word for one conversion on `channel` (the fields never overlap, so
/// the sum is their bitwise or).
pub fn config_word(channel: Channel, gain: Gain, rate: DataRate) -> (r: u16)
    ensures
        r == config_spec(channel, gain, rate),
{
    OS_SINGLE + channel.mux_bits() * 4096 + gain.pga_bits() * 512 + MODE_SINGLE + rate.dr_bits()
        * 32 + COMP_QUE_DISABLE
}

/// The signed 12-bit result in a conversion-register word as read from the bus.
pub fn raw_from_bus_word(bus_word: u16) -> (r: i16)
    ensures
        r == raw_of_word(swap_spec(bus_word)),
        -2048 <= r < 2048,
{
    let v: u16 = swap_bytes(bus_word) / 16;
    if v >= 2048 {
        (v as i16) - 4096
    } else {
        v as i16
    }
}

/// Whether a configuration word read from the bus shows the conversion finished.
pub fn is_ready(bus_word: u16) -> (r: bool)
    ensures
        r == (swap_spec(bus_word) >= 32768),
{
    swap_bytes(bus_word) >= OS_SINGLE
}

/// Integer division rounding toward zero.
pub open spec fn div_toward_zero(a: int, n: int) -> int {
    if a >= 0 {
        a / n
    } else {
        -((-a) / n)
    }
}

/// Sum of a run of raw samples.
pub open spec fn raw_sum(s: Seq<i16>) -> int
    decreases s.len(),
{
    if s.len() == 0 {
        0
    } else {
        raw_sum(s.drop_last()) + s.last()
    }
}

/// The mean of raw samples, rounded toward zero; zero when there are none.
pub fn average_raw(samples: &Vec<i16>) -> (r: i16)
    requires
        samples@.len() <= 0x1_0000,
    ensures
        samples@.len() == 0 ==> r == 0,
        samples@.len() > 0 ==> r == div_toward_zero(raw_sum(samples@), samples@.len() as int),
{
    let n = samples.len();
    if n == 0 {
        return 0;
    }
    let mut sum: i64 = 0;
    let mut i: usize = 0;
    while i < n
        invariant
            n == samples@.len(),
            n <= 0x1_0000,
            i <= n,
            sum == raw_sum(samples@.subrange(0, i as int)),
            -32768 * i <= sum <= 32767 * i,
        decreases n - i,
    {
        proof {
            assert(samples@.subrange(0, i + 1).drop_last() =~= samples@.subrange(0, i as int));
        }
        sum = sum + samples[i] as i64;
        i = i + 1;
    }
    assert(samples@.subrange(0, n as int) =~= samples@);
    let count = n as i64;
    let q: i64 = if sum >= 0 {
        sum / count
    } else {
        -((-sum) / count)
    };
    proof {
        assert(-32768 * n <= sum <= 32767 * n);
        if sum >= 0 {
            assert(sum / count <= 32767) by (nonlinear_arith)
                requires sum <= 32767 * count, count > 0, sum >= 0;
        } else {
            let m: int = -(sum as int);
            assert(m / (count as int) <= 32768) by (nonlinear_arith)
                requires m <= 32768 * count, count > 0, m > 0;
        }
    }
    q as i16
}

} // verus!
