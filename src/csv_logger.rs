use vstd::prelude::*;
use crate::command::{AdcReadings, ChannelReading};
use crate::hardware::{Hardware, INVERTED_REPORT_SV, SV_COUNT};
use crate::mav::{angle_for_pulse, pulse_to_angle};
use crate::solenoid_valve::actuated_at;
use crate::text::{
    bool_text, dec_digits, hundredths_text, int_text, micro_text_4, push_bool, push_decimal,
    push_hundredths, push_int, push_micro_4,
};

verus! {

/// Samples between two flushes of the log file to disk (about ten seconds).
pub const FSYNC_EVERY: u64 = 100;

/// Period of the logger (10 Hz).
pub const LOG_PERIOD_MS: u64 = 100;

/// The first line of every log file.
pub const CSV_HEADER: &'static str = "Loop,Timestamp_ms,MAV_Angle,MAV_Pulse_US,Igniter1_Active,Igniter2_Active,SV1_Actuated,SV1_Cont,SV2_Actuated,SV2_Cont,SV3_Actuated,SV3_Cont,SV4_Actuated,SV4_Cont,SV5_Actuated,SV5_Cont,ADC1_0_Raw,ADC1_0_Scaled,ADC1_1_Raw,ADC1_1_Scaled,ADC1_2_Raw,ADC1_2_Scaled,ADC1_3_Raw,ADC1_3_Scaled,ADC2_0_Raw,ADC2_0_Scaled,ADC2_1_Raw,ADC2_1_Scaled,ADC2_2_Raw,ADC2_2_Scaled,ADC2_3_Raw,ADC2_3_Scaled\n";

/// `N/A`, written for a value that is not available.
pub open spec fn na_text() -> Seq<u8> {
    seq![78u8, 47, 65]
}

/// Fields separated by commas.
pub open spec fn join_fields(fs: Seq<Seq<u8>>) -> Seq<u8>
    decreases fs.len(),
{
    if fs.len() == 0 {
        seq![]
    } else if fs.len() == 1 {
        fs[0]
    } else {
        join_fields(fs.drop_last()) + seq![44u8] + fs.last()
    }
}

/// The calibrated value of a channel with four decimals, or `N/A` without calibration.
pub open spec fn scaled_field(r: ChannelReading) -> Seq<u8> {
    match r.scaled_micro {
        Some(v) => micro_text_4(v as int),
        None => na_text(),
    }
}

/// The actuation that the log reports for solenoid `i` (SV5 inverted).
pub open spec fn reported_actuation(hw: &Hardware, i: int) -> bool {
    let a = actuated_at(hw.svs@[i].line_pull, hw.svs@[i].current_level);
    if i == INVERTED_REPORT_SV {
        !a
    } else {
        a
    }
}

/// Channel `i` of the eight, ADC1 first.
pub open spec fn channel(adc: AdcReadings, i: int) -> ChannelReading {
    if i < 4 {
        adc.adc1@[i]
    } else {
        adc.adc2@[i - 4]
    }
}

/// The sixteen ADC fields: raw and calibrated value of each channel, all `N/A` when the
/// snapshot is not valid.
pub open spec fn adc_fields(adc: AdcReadings) -> Seq<Seq<u8>> {
    Seq::new(
        16,
        |k: int|
            if !adc.valid {
                na_text()
            } else if k % 2 == 0 {
                int_text(channel(adc, k / 2).raw as int)
            } else {
                scaled_field(channel(adc, k / 2))
            },
    )
}

/// The ten solenoid fields: reported actuation and continuity of SV1 to SV5.
pub open spec fn sv_fields(hw: &Hardware, sv_continuity: Seq<bool>) -> Seq<Seq<u8>> {
    Seq::new(
        10,
        |k: int|
            if k % 2 == 0 {
                bool_text(reported_actuation(hw, k / 2))
            } else {
                bool_text(sv_continuity[k / 2])
            },
    )
}

/// The first six fields: loop count, snapshot time, MAV angle and pulse, igniters.
pub open spec fn head_fields(
    loop_count: u64,
    adc: AdcReadings,
    hw: &Hardware,
    igniting: Seq<bool>,
) -> Seq<Seq<u8>> {
    seq![
        dec_digits(loop_count as nat),
        dec_digits(adc.timestamp_ms as nat),
        hundredths_text(angle_for_pulse(hw.mav.pulse_us as int) as nat),
        dec_digits(hw.mav.pulse_us as nat),
        bool_text(igniting[0]),
        bool_text(igniting[1]),
    ]
}

/// One log line: the 32 fields of the header, comma separated, then a newline.
pub open spec fn csv_line(
    loop_count: u64,
    adc: AdcReadings,
    hw: &Hardware,
    igniting: Seq<bool>,
    sv_continuity: Seq<bool>,
) -> Seq<u8> {
    join_fields(
        head_fields(loop_count, adc, hw, igniting) + sv_fields(hw, sv_continuity) + adc_fields(
            adc,
        ),
    ) + seq![10u8]
}

/// Appends one field, after a comma unless it is the first.
fn push_field(out: &mut Vec<u8>, fields: Ghost<Seq<Seq<u8>>>, first: bool, field: &Vec<u8>)
    requires
        old(out)@ == join_fields(fields@),
        first == (fields@.len() == 0),
    ensures
        final(out)@ == join_fields(fields@.push(field@)),
{
    let ghost all = fields@.push(field@);
    assert(all.drop_last() =~= fields@);
    if first {
        assert(old(out)@ =~= seq![]);
    } else {
        out.push(44);
    }
    let mut i: usize = 0;
    let ghost base = out@;
    while i < field.len()
        invariant
            i <= field@.len(),
            out@ == base + field@.subrange(0, i as int),
        decreases field@.len() - i,
    {
        out.push(field[i]);
        i = i + 1;
        assert(out@ =~= base + field@.subrange(0, i as int));
    }
    assert(field@.subrange(0, field@.len() as int) =~= field@);
    assert(final(out)@ =~= join_fields(all));
}

fn decimal_field(n: u64) -> (r: Vec<u8>)
    ensures
        r@ == dec_digits(n as nat),
{
    let mut v: Vec<u8> = Vec::new();
    push_decimal(&mut v, n);
    assert(v@ =~= dec_digits(n as nat));
    v
}

fn bool_field(b: bool) -> (r: Vec<u8>)
    ensures
        r@ == bool_text(b),
{
    let mut v: Vec<u8> = Vec::new();
    push_bool(&mut v, b);
    assert(v@ =~= bool_text(b));
    v
}

fn na_field() -> (r: Vec<u8>)
    ensures
        r@ == na_text(),
{
    let v: Vec<u8> = vec![78, 47, 65];
    assert(v@ =~= na_text());
    v
}

fn channel_fields(r: ChannelReading) -> (f: (Vec<u8>, Vec<u8>))
    ensures
        f.0@ == int_text(r.raw as int),
        f.1@ == scaled_field(r),
{
    let mut raw: Vec<u8> = Vec::new();
    push_int(&mut raw, r.raw as i64);
    assert(raw@ =~= int_text(r.raw as int));
    let scaled = match r.scaled_micro {
        Some(v) => {
            let mut s: Vec<u8> = Vec::new();
            push_micro_4(&mut s, v);
            assert(s@ =~= micro_text_4(v as int));
            s
        },
        None => na_field(),
    };
    (raw, scaled)
}

/// Builds one log line from the loop count, the ADC snapshot, the hardware state, the
/// igniter lines and the solenoid continuity lines.
pub fn csv_row(
    loop_count: u64,
    adc: &AdcReadings,
    hw: &Hardware,
    igniting: [bool; 2],
    sv_continuity: [bool; 5],
) -> (r: Vec<u8>)
    requires
        hw.wf(),
    ensures
        r@ == csv_line(loop_count, *adc, hw, igniting@, sv_continuity@),
{
    let ghost head = head_fields(loop_count, *adc, hw, igniting@);
    let ghost svf = sv_fields(hw, sv_continuity@);
    let ghost adf = adc_fields(*adc);
    let mut out: Vec<u8> = Vec::new();
    let ghost mut done: Seq<Seq<u8>> = seq![];
    let f = decimal_field(loop_count);
    push_field(&mut out, Ghost(done), true, &f);
    proof { done = done.push(f@); }
    let f = decimal_field(adc.timestamp_ms);
    push_field(&mut out, Ghost(done), false, &f);
    proof { done = done.push(f@); }
    let mut f: Vec<u8> = Vec::new();
    push_hundredths(&mut f, pulse_to_angle(hw.mav.pulse_us));
    assert(f@ =~= hundredths_text(angle_for_pulse(hw.mav.pulse_us as int) as nat));
    push_field(&mut out, Ghost(done), false, &f);
    proof { done = done.push(f@); }
    let f = decimal_field(hw.mav.pulse_us as u64);
    push_field(&mut out, Ghost(done), false, &f);
    proof { done = done.push(f@); }
    let f = bool_field(igniting[0]);
    push_field(&mut out, Ghost(done), false, &f);
    proof { done = done.push(f@); }
    let f = bool_field(igniting[1]);
    push_field(&mut out, Ghost(done), false, &f);
    proof {
        done = done.push(f@);
        assert(done =~= head);
    }
    let mut i: usize = 0;
    while i < SV_COUNT
        invariant
            hw.wf(),
            i <= SV_COUNT,
            svf == sv_fields(hw, sv_continuity@),
            out@ == join_fields(done),
            done =~= head + svf.subrange(0, 2 * i as int),
            done.len() == 6 + 2 * i,
        decreases SV_COUNT - i,
    {
        let a = hw.svs[i].is_actuated();
        let reported = if i == INVERTED_REPORT_SV { !a } else { a };
        let f = bool_field(reported);
        push_field(&mut out, Ghost(done), false, &f);
        proof {
            done = done.push(f@);
        }
        let f = bool_field(sv_continuity[i]);
        push_field(&mut out, Ghost(done), false, &f);
        proof {
            done = done.push(f@);
        }
        i = i + 1;
        proof {
            assert(done =~= head + svf.subrange(0, 2 * i as int));
        }
    }
    let mut k: usize = 0;
    while k < 8
        invariant
            k <= 8,
            adf == adc_fields(*adc),
            out@ == join_fields(done),
            done =~= head + svf + adf.subrange(0, 2 * k as int),
            done.len() == 16 + 2 * k,
        decreases 8 - k,
    {
        let ch = if k < 4 { adc.adc1[k] } else { adc.adc2[k - 4] };
        assert(ch == channel(*adc, k as int));
        if adc.valid {
            let (raw, scaled) = channel_fields(ch);
            push_field(&mut out, Ghost(done), false, &raw);
            proof {
                done = done.push(raw@);
            }
            push_field(&mut out, Ghost(done), false, &scaled);
            proof {
                done = done.push(scaled@);
            }
        } else {
            let f = na_field();
            push_field(&mut out, Ghost(done), false, &f);
            proof {
                done = done.push(f@);
            }
            let f = na_field();
            push_field(&mut out, Ghost(done), false, &f);
            proof {
                done = done.push(f@);
            }
        }
        k = k + 1;
        proof {
            assert(done =~= head + svf + adf.subrange(0, 2 * k as int));
        }
    }
    proof {
        assert(adf.subrange(0, 16) =~= adf);
        assert(done =~= head + svf + adf);
    }
    out.push(10);
    out
}

/// Whether the file is flushed to disk after writing line `loop_count`.
pub fn should_sync(loop_count: u64) -> (r: bool)
    ensures
        r == (loop_count % FSYNC_EVERY == 0),
{
    loop_count % FSYNC_EVERY == 0
}

} // verus!
