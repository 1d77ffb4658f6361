use vstd::prelude::*;

verus! {

/// PWM frequency of the servo.
pub const FREQUENCY_HZ: u32 = 330;

/// PWM period in nanoseconds.
pub const PERIOD_NS: u32 = 3_030_303;

/// Pulse width at rest. Other builds of this valve used 1500 or 1520 µs; 1300 µs is the
/// default here.
pub const NEUTRAL_US: u32 = 1300;

/// Pulse width of the open position (90 degrees).
pub const OPEN_90_US: u32 = 922;

/// Pulse width of the closed position (0 degrees).
pub const CLOSE_0_US: u32 = 1922;

/// Longest pulse the servo accepts.
pub const MAX_US: u32 = 2200;

/// Shortest pulse the servo accepts.
pub const MIN_US: u32 = 800;

/// The angle at which the pulse reaches `MIN_US`, in hundredths of a degree.
pub const MAX_ANGLE_CDEG: i32 = 10098;

/// Pulse for an angle in hundredths of a degree: the angle is clamped to
/// `[0, MAX_ANGLE_CDEG]`, then mapped linearly from `CLOSE_0_US` at 0 to `OPEN_90_US` at
/// 90 degrees, rounded down.
pub open spec fn pulse_for_angle(angle_cdeg: int) -> int {
    let a = if angle_cdeg < 0 {
        0
    } else if angle_cdeg > MAX_ANGLE_CDEG {
        MAX_ANGLE_CDEG as int
    } else {
        angle_cdeg
    };
    (CLOSE_0_US * 9000 - a * (CLOSE_0_US - OPEN_90_US)) / 9000
}

/// Angle in hundredths of a degree for a pulse: the inverse of the map, clamped to
/// `[0, 9000]`.
pub open spec fn angle_for_pulse(us: int) -> int {
    if us >= CLOSE_0_US {
        0
    } else if (CLOSE_0_US - us) * 9 > 9000 {
        9000
    } else {
        (CLOSE_0_US - us) * 9
    }
}

/// Whether the servo accepts a pulse width.
pub open spec fn in_range(us: int) -> bool {
    MIN_US <= us <= MAX_US
}

/// The pulse held after `asked` is requested while `before` is held: the request when the
/// servo accepts it, else `before`.
pub open spec fn pulse_after(before: u32, asked: u32) -> u32 {
    if in_range(asked as int) {
        asked
    } else {
        before
    }
}

/// The pulse width for an angle in hundredths of a degree.
pub fn angle_to_pulse(angle_cdeg: i32) -> (us: u32)
    ensures
        us == pulse_for_angle(angle_cdeg as int),
        MIN_US <= us <= CLOSE_0_US,
{
    let a: i32 = if angle_cdeg < 0 {
        0
    } else if angle_cdeg > MAX_ANGLE_CDEG {
        MAX_ANGLE_CDEG
    } else {
        angle_cdeg
    };
    let num: u32 = CLOSE_0_US * 9000 - (a as u32) * (CLOSE_0_US - OPEN_90_US);
    num / 9000
}

/// The angle, in hundredths of a degree, that a pulse width stands for.
pub fn pulse_to_angle(us: u32) -> (angle_cdeg: u32)
    ensures
        angle_cdeg == angle_for_pulse(us as int),
        angle_cdeg <= 9000,
{
    if us >= CLOSE_0_US {
        0
    } else if (CLOSE_0_US - us) * 9 > 9000 {
        9000
    } else {
        (CLOSE_0_US - us) * 9
    }
}

/// The duty cycle in nanoseconds that produces a pulse width.
pub fn duty_ns(us: u32) -> (ns: u32)
    requires
        in_range(us as int),
    ensures
        ns == us * 1000,
{
    us * 1000
}

/// The pulse width in microseconds of a duty cycle read back in nanoseconds.
pub fn pulse_from_duty_ns(ns: u32) -> (us: u32)
    ensures
        us == ns / 1000,
{
    ns / 1000
}

/// The mechanically actuated valve: a servo, and the pulse width last written to it.
pub struct Mav {
    pub name: String,
    pub pulse_us: u32,
}

impl Mav {
    /// A valve at the neutral position.
    pub fn new(name: String) -> (r: Self)
        ensures
            r.name == name,
            r.pulse_us == NEUTRAL_US,
    {
        Mav { name, pulse_us: NEUTRAL_US }
    }

    /// Writes a pulse width if the servo accepts it; a width out of range is refused and
    /// the previous one stays. Returns whether it was written.
    pub fn set_pulse_width_us(&mut self, us: u32) -> (written: bool)
        ensures
            written == in_range(us as int),
            final(self).pulse_us == pulse_after(old(self).pulse_us, us),
            final(self).name == old(self).name,
    {
        if us < MIN_US || us > MAX_US {
            return false;
        }
        self.pulse_us = us;
        true
    }

    /// Moves to the open position.
    pub fn open(&mut self) -> (written: bool)
        ensures
            written,
            final(self).pulse_us == OPEN_90_US,
            final(self).name == old(self).name,
    {
        self.set_pulse_width_us(OPEN_90_US)
    }

    /// Moves to the closed position.
    pub fn close(&mut self) -> (written: bool)
        ensures
            written,
            final(self).pulse_us == CLOSE_0_US,
            final(self).name == old(self).name,
    {
        self.set_pulse_width_us(CLOSE_0_US)
    }

    /// Moves to the neutral position.
    pub fn neutral(&mut self) -> (written: bool)
        ensures
            written,
            final(self).pulse_us == NEUTRAL_US,
            final(self).name == old(self).name,
    {
        self.set_pulse_width_us(NEUTRAL_US)
    }

    /// Moves to an angle in hundredths of a degree, clamped as `pulse_for_angle` says.
    pub fn set_angle(&mut self, angle_cdeg: i32) -> (written: bool)
        ensures
            written,
            final(self).pulse_us == pulse_for_angle(angle_cdeg as int),
            final(self).name == old(self).name,
    {
        let us = angle_to_pulse(angle_cdeg);
        self.set_pulse_width_us(us)
    }

    /// The pulse width last written.
    pub fn get_pulse_width_us(&self) -> (us: u32)
        ensures
            us == self.pulse_us,
    {
        self.pulse_us
    }

    /// The angle of the last pulse written, in hundredths of a degree.
    pub fn get_angle(&self) -> (angle_cdeg: u32)
        ensures
            angle_cdeg == angle_for_pulse(self.pulse_us as int),
    {
        pulse_to_angle(self.pulse_us)
    }
}

/// Whatever pulse is requested, the pulse the valve holds afterwards is within
/// `[MIN_US, MAX_US]` or is the pulse it held before.
pub proof fn lemma_pulse_clamped(before: u32, asked: u32)
    ensures
        in_range(pulse_after(before, asked) as int) || pulse_after(before, asked) == before,
{
}

} // verus!
