use vstd::prelude::*;
use crate::ads1015::Gain;
use crate::command::{AdcReadings, ChannelReading};

verus! {

/// Attempts at reading all channels within one tick.
pub const MAX_ATTEMPTS: u32 = 5;

/// Wait between attempts.
pub const RETRY_DELAY_MS: u64 = 10;

/// Period of the monitor (10 Hz).
pub const TICK_MS: u64 = 100;

/// Gain used for every channel (±4.096 V).
pub const MONITOR_GAIN: Gain = Gain::One;

/// Microvolts per count at `MONITOR_GAIN`.
pub const MONITOR_LSB_UV: i32 = 2000;

/// Calibration of the 1500 psi transducer: scale and offset in millionths.
pub const PT1500_SCALE: i64 = 909_754;
pub const PT1500_OFFSET: i64 = 5_089_260;

/// Calibration of the 2000 psi transducers.
pub const PT2000_SCALE: i64 = 1_221_240;
pub const PT2000_OFFSET: i64 = 5_370_520;

/// Calibration of the load cell.
pub const LOADCELL_SCALE: i64 = 1_696_610;
pub const LOADCELL_OFFSET: i64 = 75_378_820;

/// Calibration `(scale, offset)` in millionths for channel `ch` of ADC `adc` (0 or 1):
/// ADC1 channel 0 is the 1500 psi transducer, ADC2 channel 1 the load cell, every other
/// channel a 2000 psi transducer.
pub open spec fn calibration(adc: int, ch: int) -> (int, int) {
    if adc == 0 && ch == 0 {
        (PT1500_SCALE as int, PT1500_OFFSET as int)
    } else if adc == 1 && ch == 1 {
        (LOADCELL_SCALE as int, LOADCELL_OFFSET as int)
    } else {
        (PT2000_SCALE as int, PT2000_OFFSET as int)
    }
}

/// The reading of one channel from its raw count.
pub open spec fn reading_of(adc: int, ch: int, raw: i16) -> ChannelReading {
    let (scale, offset) = calibration(adc, ch);
    ChannelReading {
        raw,
        voltage_uv: (raw * MONITOR_LSB_UV) as i32,
        scaled_micro: Some((raw * scale + offset) as i64),
    }
}

/// A channel reading from its raw count: voltage and calibrated value.
pub fn channel_reading(adc: usize, ch: usize, raw: i16) -> (r: ChannelReading)
    requires
        -2048 <= raw < 2048,
    ensures
        r == reading_of(adc as int, ch as int, raw),
{
    let (scale, offset) = if adc == 0 && ch == 0 {
        (PT1500_SCALE, PT1500_OFFSET)
    } else if adc == 1 && ch == 1 {
        (LOADCELL_SCALE, LOADCELL_OFFSET)
    } else {
        (PT2000_SCALE, PT2000_OFFSET)
    };
    ChannelReading {
        raw,
        voltage_uv: (raw as i32) * MONITOR_LSB_UV,
        scaled_micro: Some((raw as i64) * scale + offset),
    }
}

/// What to do after one attempt.
#[derive(Debug, Clone, Copy)]
pub enum TickStep {
    /// Try again after this many milliseconds.
    Retry { delay_ms: u64 },
    /// The tick is over: store this snapshot.
    Publish(AdcReadings),
}

/// Outcome of a tick that started with `failures` failed attempts, given the successes
/// of the attempts that follow: `Some(valid)` once the tick ends, `None` while it goes on.
pub open spec fn tick_outcome(failures: nat, attempts: Seq<bool>) -> Option<bool>
    decreases attempts.len(),
{
    if attempts.len() == 0 {
        None
    } else if attempts[0] {
        Some(true)
    } else if failures + 1 >= MAX_ATTEMPTS {
        Some(false)
    } else {
        tick_outcome(failures + 1, attempts.drop_first())
    }
}

/// The retry state of the ADC monitor within one tick.
pub struct AdcMonitor {
    /// Failed attempts so far in this tick.
    pub failures: u32,
}

impl AdcMonitor {
    pub fn new() -> (r: Self)
        ensures
            r.failures == 0,
    {
        AdcMonitor { failures: 0 }
    }

    /// Takes in one attempt: the eight raw counts (ADC1 channels 0–3, then ADC2 channels
    /// 0–3) when every read succeeded, `None` when one failed. A success publishes a valid
    /// snapshot; a failure retries after `RETRY_DELAY_MS` until `MAX_ATTEMPTS` attempts have
    /// failed, and then publishes the previous values marked invalid. Either way a published
    /// snapshot carries `now_ms`.
    pub fn on_attempt(&mut self, now_ms: u64, reads: Option<[i16; 8]>, last: &AdcReadings) -> (r:
        TickStep)
        requires
            old(self).failures < MAX_ATTEMPTS,
            reads matches Some(raws) ==> forall|i: int| 0 <= i < 8 ==> -2048 <= #[trigger] raws@[i]
                < 2048,
        ensures
            final(self).failures < MAX_ATTEMPTS,
            (r is Publish) == tick_outcome(old(self).failures as nat, seq![reads is Some]) is Some,
            r matches TickStep::Publish(snap) ==> tick_outcome(
                old(self).failures as nat,
                seq![reads is Some],
            ) == Some(snap.valid),
            r is Retry ==> final(self).failures == old(self).failures + 1,
            reads matches Some(raws) ==> {
                &&& final(self).failures == 0
                &&& r matches TickStep::Publish(snap)
                &&& snap.timestamp_ms == now_ms
                &&& snap.valid
                &&& forall|i: int| 0 <= i < 4 ==> #[trigger] snap.adc1@[i] == reading_of(0, i, raws@[i])
                &&& forall|i: int| 0 <= i < 4 ==> #[trigger] snap.adc2@[i] == reading_of(1, i, raws@[i + 4])
            },
            reads is None && old(self).failures + 1 < MAX_ATTEMPTS ==> {
                &&& final(self).failures == old(self).failures + 1
                &&& r == TickStep::Retry { delay_ms: RETRY_DELAY_MS }
            },
            reads is None && old(self).failures + 1 >= MAX_ATTEMPTS ==> {
                &&& final(self).failures == 0
                &&& r == TickStep::Publish(AdcReadings { timestamp_ms: now_ms, valid: false, ..*last })
            },
    {
        proof {
            let attempts = seq![reads is Some];
            assert(attempts[0] == (reads is Some));
            assert(attempts.drop_first() =~= Seq::<bool>::empty());
            assert(tick_outcome((old(self).failures + 1) as nat, attempts.drop_first()) is None);
        }
        match reads {
            Some(raws) => {
                self.failures = 0;
                let adc1 = [
                    channel_reading(0, 0, raws[0]),
                    channel_reading(0, 1, raws[1]),
                    channel_reading(0, 2, raws[2]),
                    channel_reading(0, 3, raws[3]),
                ];
                let adc2 = [
                    channel_reading(1, 0, raws[4]),
                    channel_reading(1, 1, raws[5]),
                    channel_reading(1, 2, raws[6]),
                    channel_reading(1, 3, raws[7]),
                ];
                TickStep::Publish(AdcReadings { timestamp_ms: now_ms, valid: true, adc1, adc2 })
            },
            None => {
                if self.failures + 1 < MAX_ATTEMPTS {
                    self.failures = self.failures + 1;
                    TickStep::Retry { delay_ms: RETRY_DELAY_MS }
                } else {
                    self.failures = 0;
                    TickStep::Publish(
                        AdcReadings {
                            timestamp_ms: now_ms,
                            valid: false,
                            adc1: last.adc1,
                            adc2: last.adc2,
                        },
                    )
                }
            },
        }
    }
}

/// Within one tick the snapshot is valid exactly when one of the first `MAX_ATTEMPTS`
/// attempts read every channel; it is invalid exactly when all of them failed.
pub proof fn lemma_tick_validity(failures: nat, attempts: Seq<bool>)
    requires
        failures < MAX_ATTEMPTS,
        attempts.len() >= MAX_ATTEMPTS - failures,
    ensures
        tick_outcome(failures, attempts) == Some(true) <==> exists|i: int|
            0 <= i < MAX_ATTEMPTS - failures && #[trigger] attempts[i],
        tick_outcome(failures, attempts) == Some(false) <==> forall|i: int|
            0 <= i < MAX_ATTEMPTS - failures ==> !#[trigger] attempts[i],
    decreases attempts.len(),
{
    if !attempts[0] && failures + 1 < MAX_ATTEMPTS {
        lemma_tick_validity(failures + 1, attempts.drop_first());
        let rest = attempts.drop_first();
        if exists|i: int| 0 <= i < MAX_ATTEMPTS - failures && #[trigger] attempts[i] {
            let i = choose|i: int| 0 <= i < MAX_ATTEMPTS - failures && #[trigger] attempts[i];
            assert(rest[i - 1]);
        }
        if exists|i: int| 0 <= i < MAX_ATTEMPTS - (failures + 1) && #[trigger] rest[i] {
            let i = choose|i: int| 0 <= i < MAX_ATTEMPTS - (failures + 1) && #[trigger] rest[i];
            assert(attempts[i + 1]);
        }
    }
}

} // verus!
