use vstd::prelude::*;
use crate::flight_state::FlightState;
use crate::state::{FlightMode, SensorState};

verus! {

/// Number of altitudes the running mean covers.
pub const ALT_WINDOW: usize = 10;

/// Altitude above which the altimeter arms during ascent, in millimetres (100 m).
pub const ARMING_ALTITUDE_MM: i32 = 100_000;

/// Altitude below which the main chutes open, in millimetres (500 m).
pub const MAIN_DEPLOY_ALTITUDE_MM: i32 = 500_000;

/// Cycles to wait after the drogue before the main chutes may open (1 s at 10 Hz).
pub const MAIN_DEPLOY_WAIT_CYCLES: u32 = 10;

/// Cycles of logging under the main chutes before logging shuts down (60 s at 10 Hz).
pub const MAIN_LOG_END_CYCLES: u32 = 600;

/// Scratchpad address of the latest flight mode.
pub const FRAM_MODE_ADDR: u32 = 0;

/// Scratchpad address of the latest altitude (IEEE-754 bits).
pub const FRAM_ALTITUDE_ADDR: u32 = 100;

/// Sum of a sequence of altitudes.
#[verifier::opaque]
pub open spec fn seq_sum(s: Seq<i32>) -> int
    decreases s.len(),
{
    if s.len() == 0 {
        0
    } else {
        seq_sum(s.drop_last()) + s.last()
    }
}

/// Apogee test on the three latest window sums, oldest first: all present and strictly falling.
pub open spec fn falling(oldest: Option<int>, middle: Option<int>, newest: Option<int>) -> bool {
    &&& oldest matches Some(a)
    &&& middle matches Some(b)
    &&& newest matches Some(c)
    &&& a > b && b > c
}

/// The state machine's state, with the altitude window as a sequence.
///
/// The descent filter holds window sums: each is ten times a 10-sample mean, so comparing
/// sums compares the means exactly. `None` is the sentinel of a slot not yet filled.
pub struct FlightLoopModel {
    pub flight_state: FlightState,
    pub key_armed: bool,
    pub alt_armed: bool,
    pub umbilical_state: bool,
    pub umbilical_launch: bool,
    pub mav_open: bool,
    pub sv_open: bool,
    pub camera_deployed: bool,
    pub alt_sum: int,
    pub airbrakes_init: bool,
    pub drogue_deployed: bool,
    pub main_chutes_deployed: bool,
    pub blims_armed: bool,
    pub log_armed: bool,
    pub alt_buffer: Seq<i32>,
    pub alt_index: int,
    /// Newest window sum.
    pub filtered0: Option<int>,
    pub filtered1: Option<int>,
    /// Oldest window sum.
    pub filtered2: Option<int>,
    pub main_cycle_count: int,
    pub log_cycle_count: int,
}

impl FlightLoopModel {
    /// The state with `mode` as flight mode.
    pub open spec fn with_mode(self, mode: FlightMode) -> FlightLoopModel {
        FlightLoopModel { flight_state: FlightState { flight_mode: mode, ..self.flight_state }, ..self }
    }

    /// Altimeter lost: `Fault`, altimeter disarmed.
    pub open spec fn faulted(self) -> FlightLoopModel {
        FlightLoopModel { alt_armed: false, ..self.with_mode(FlightMode::Fault) }
    }

    pub open spec fn altimeter_valid(self) -> bool {
        self.flight_state.altimeter_state == SensorState::VALID
    }

    /// Window sum after the current altitude replaces the oldest slot.
    pub open spec fn pushed_sum(self) -> int {
        self.alt_sum - self.alt_buffer[self.alt_index] + self.flight_state.altitude_mm
    }

    pub open spec fn startup_step(self) -> FlightLoopModel {
        let fs = self.flight_state;
        let valid = self.altimeter_valid();
        let arm = self.key_armed && valid;
        let fail = self.key_armed && fs.altimeter_state == SensorState::INVALID;
        FlightLoopModel {
            alt_armed: if arm { true } else if fail { false } else { self.alt_armed },
            flight_state: FlightState {
                reference_pressure: if valid { fs.packet.pressure } else { fs.reference_pressure },
                arming_altitude_mm: if arm { fs.altitude_mm } else { fs.arming_altitude_mm },
                flight_mode: if arm {
                    FlightMode::Standby
                } else if fail {
                    FlightMode::Fault
                } else {
                    fs.flight_mode
                },
                ..fs
            },
            ..self
        }
    }

    pub open spec fn standby_step(self) -> FlightLoopModel {
        let fs = self.flight_state;
        let launch = self.umbilical_launch;
        FlightLoopModel {
            mav_open: launch || self.mav_open,
            sv_open: launch || self.sv_open,
            alt_armed: launch || self.alt_armed,
            flight_state: FlightState {
                reference_pressure: if launch { fs.packet.pressure } else { fs.reference_pressure },
                flight_mode: if launch {
                    FlightMode::Ascent
                } else if !self.key_armed {
                    FlightMode::Startup
                } else {
                    fs.flight_mode
                },
                ..fs
            },
            ..self
        }
    }

    pub open spec fn ascent_step(self) -> FlightLoopModel {
        let fs = self.flight_state;
        FlightLoopModel {
            alt_armed: self.alt_armed || fs.altitude_mm > ARMING_ALTITUDE_MM,
            flight_state: FlightState {
                flight_mode: if !self.mav_open { FlightMode::Coast } else { fs.flight_mode },
                ..fs
            },
            ..self
        }
    }

    /// Apogee: the filter after this push holds three window sums, strictly falling.
    pub open spec fn apogee(self) -> bool {
        self.alt_armed && falling(self.filtered1, self.filtered0, Some(self.pushed_sum()))
    }

    pub open spec fn coast_step(self) -> FlightLoopModel {
        let fs = self.flight_state;
        let push = self.alt_armed;
        let apogee = self.apogee();
        FlightLoopModel {
            alt_buffer: if push {
                self.alt_buffer.update(self.alt_index, fs.altitude_mm)
            } else {
                self.alt_buffer
            },
            alt_index: if push { (self.alt_index + 1) % (ALT_WINDOW as int) } else { self.alt_index },
            alt_sum: if push { self.pushed_sum() } else { self.alt_sum },
            filtered2: if push { self.filtered1 } else { self.filtered2 },
            filtered1: if push { self.filtered0 } else { self.filtered1 },
            filtered0: if push { Some(self.pushed_sum()) } else { self.filtered0 },
            camera_deployed: apogee || self.camera_deployed,
            airbrakes_init: !apogee && self.airbrakes_init,
            drogue_deployed: apogee || self.drogue_deployed,
            flight_state: FlightState {
                flight_mode: if apogee { FlightMode::DrogueDeployed } else { fs.flight_mode },
                ..fs
            },
            ..self
        }
    }

    pub open spec fn drogue_step(self) -> FlightLoopModel {
        let fs = self.flight_state;
        let waiting = self.main_cycle_count <= MAIN_DEPLOY_WAIT_CYCLES;
        let deploy = !waiting && fs.altitude_mm < MAIN_DEPLOY_ALTITUDE_MM;
        FlightLoopModel {
            main_cycle_count: if waiting { self.main_cycle_count + 1 } else { self.main_cycle_count },
            main_chutes_deployed: deploy || self.main_chutes_deployed,
            flight_state: FlightState {
                flight_mode: if deploy { FlightMode::MainDeployed } else { fs.flight_mode },
                ..fs
            },
            ..self
        }
    }

    pub open spec fn main_step(self) -> FlightLoopModel {
        let counted = if self.log_cycle_count < MAIN_LOG_END_CYCLES {
            self.log_cycle_count + 1
        } else {
            self.log_cycle_count
        };
        let done = counted == MAIN_LOG_END_CYCLES;
        FlightLoopModel {
            log_cycle_count: if done { counted + 1 } else { counted },
            log_armed: !done && self.log_armed,
            blims_armed: true,
            ..self
        }
    }

    /// One evaluation of the guards and side effects of the current mode.
    pub open spec fn after_transitions(self) -> FlightLoopModel {
        match self.flight_state.flight_mode {
            FlightMode::Startup => self.startup_step(),
            FlightMode::Fault => self,
            _ => if !self.altimeter_valid() {
                self.faulted()
            } else {
                match self.flight_state.flight_mode {
                    FlightMode::Standby => self.standby_step(),
                    FlightMode::Ascent => self.ascent_step(),
                    FlightMode::Coast => self.coast_step(),
                    FlightMode::DrogueDeployed => self.drogue_step(),
                    _ => self.main_step(),
                }
            },
        }
    }

    /// Altitude bits that the cycle writes to the scratchpad when the SD card is not logging.
    pub open spec fn fallback_record(self) -> Option<u32> {
        if self.flight_state.flight_mode == FlightMode::Ascent && self.altimeter_valid()
            && !self.flight_state.sd_logging_enabled {
            Some(self.flight_state.packet.altitude)
        } else {
            None
        }
    }

    /// Local copies of the key switch and umbilical taken from the flight state.
    pub open spec fn synced(self) -> FlightLoopModel {
        FlightLoopModel {
            key_armed: self.flight_state.key_armed,
            umbilical_state: self.flight_state.umbilical_connected,
            ..self
        }
    }
}

/// What one full cycle hands to the radio and the scratchpad.
pub struct CycleOutput {
    /// The radio frame: sync word then payload.
    pub frame: Vec<u8>,
    /// Flight mode to store at `FRAM_MODE_ADDR`.
    pub mode_record: u32,
    /// Altitude bits to store at `FRAM_ALTITUDE_ADDR`, when the fallback log is due.
    pub altitude_record: Option<u32>,
}

/// The flight state machine with its filters and side-effect latches.
pub struct FlightLoop {
    pub flight_state: FlightState,
    pub key_armed: bool,
    pub alt_armed: bool,
    pub umbilical_state: bool,
    pub umbilical_launch: bool,
    pub mav_open: bool,
    pub sv_open: bool,
    pub camera_deployed: bool,
    /// Sum of the altitude window, in millimetres.
    pub alt_sum: i64,
    pub airbrakes_init: bool,
    pub drogue_deployed: bool,
    pub main_chutes_deployed: bool,
    pub blims_armed: bool,
    pub log_armed: bool,
    /// The last `ALT_WINDOW` altitudes in millimetres, as a ring.
    pub alt_buffer: Vec<i32>,
    /// Slot that the next altitude overwrites.
    pub alt_index: usize,
    /// Newest window sum of the descent filter; `None` until filled.
    pub filtered_alt0: Option<i64>,
    pub filtered_alt1: Option<i64>,
    /// Oldest window sum of the descent filter.
    pub filtered_alt2: Option<i64>,
    pub main_cycle_count: u32,
    pub log_cycle_count: u32,
}

pub open spec fn opt_int(o: Option<i64>) -> Option<int> {
    match o {
        Some(v) => Some(v as int),
        None => None,
    }
}

impl View for FlightLoop {
    type V = FlightLoopModel;

    open spec fn view(&self) -> FlightLoopModel {
        FlightLoopModel {
            flight_state: self.flight_state,
            key_armed: self.key_armed,
            alt_armed: self.alt_armed,
            umbilical_state: self.umbilical_state,
            umbilical_launch: self.umbilical_launch,
            mav_open: self.mav_open,
            sv_open: self.sv_open,
            camera_deployed: self.camera_deployed,
            alt_sum: self.alt_sum as int,
            airbrakes_init: self.airbrakes_init,
            drogue_deployed: self.drogue_deployed,
            main_chutes_deployed: self.main_chutes_deployed,
            blims_armed: self.blims_armed,
            log_armed: self.log_armed,
            alt_buffer: self.alt_buffer@,
            alt_index: self.alt_index as int,
            filtered0: opt_int(self.filtered_alt0),
            filtered1: opt_int(self.filtered_alt1),
            filtered2: opt_int(self.filtered_alt2),
            main_cycle_count: self.main_cycle_count as int,
            log_cycle_count: self.log_cycle_count as int,
        }
    }
}

impl FlightLoopModel {
    /// The window has its ten slots, the running sum is their sum, and the counters stay
    /// within one past their limits.
    pub open spec fn wf(self) -> bool {
        &&& self.alt_buffer.len() == ALT_WINDOW
        &&& 0 <= self.alt_index < ALT_WINDOW
        &&& self.alt_sum == seq_sum(self.alt_buffer)
        &&& 0 <= self.main_cycle_count <= MAIN_DEPLOY_WAIT_CYCLES + 1
        &&& 0 <= self.log_cycle_count <= MAIN_LOG_END_CYCLES + 1
    }
}

/// Every evaluation keeps the window well formed.
pub proof fn lemma_model_step_wf(s: FlightLoopModel)
    requires
        s.wf(),
    ensures
        s.after_transitions().wf(),
{
    if s.flight_state.flight_mode == FlightMode::Coast && s.altimeter_valid() && s.alt_armed {
        reveal(seq_sum);
        lemma_sum_update(s.alt_buffer, s.alt_index, s.flight_state.altitude_mm);
    }
}

/// Replacing one element changes the sum by the difference.
pub proof fn lemma_sum_update(s: Seq<i32>, i: int, v: i32)
    requires
        0 <= i < s.len(),
    ensures
        seq_sum(s.update(i, v)) == seq_sum(s) - s[i] + v,
    decreases s.len(),
{
    reveal(seq_sum);
    let u = s.update(i, v);
    if i == s.len() - 1 {
        assert(u.drop_last() =~= s.drop_last());
    } else {
        assert(u.drop_last() =~= s.drop_last().update(i, v));
        lemma_sum_update(s.drop_last(), i, v);
    }
}

/// A sum of `i32` values stays within the element range times the length.
pub proof fn lemma_sum_bounds(s: Seq<i32>)
    ensures
        -2147483648 * s.len() <= seq_sum(s) <= 2147483647 * s.len(),
    decreases s.len(),
{
    reveal(seq_sum);
    if s.len() > 0 {
        lemma_sum_bounds(s.drop_last());
    }
}

/// A window of zeros sums to zero.
proof fn lemma_sum_zeros(s: Seq<i32>)
    requires
        forall|i: int| 0 <= i < s.len() ==> s[i] == 0,
    ensures
        seq_sum(s) == 0,
    decreases s.len(),
{
    reveal(seq_sum);
    if s.len() > 0 {
        lemma_sum_zeros(s.drop_last());
    }
}

impl FlightLoop {
    /// The window has its ten slots, the running sum is their sum, and the counters stay
    /// within one past their limits.
    pub open spec fn wf(&self) -> bool {
        &&& self.alt_buffer@.len() == ALT_WINDOW
        &&& self.alt_index < ALT_WINDOW
        &&& self.alt_sum == seq_sum(self.alt_buffer@)
        &&& self.main_cycle_count <= MAIN_DEPLOY_WAIT_CYCLES + 1
        &&& self.log_cycle_count <= MAIN_LOG_END_CYCLES + 1
    }

    /// A state machine around `flight_state`: every latch clear, the window all zeros,
    /// the descent filter unfilled and the counters at zero.
    pub fn new(flight_state: FlightState) -> (r: Self)
        ensures
            r.wf(),
            r.flight_state == flight_state,
            r.alt_buffer@ == Seq::new(ALT_WINDOW as nat, |i: int| 0i32),
            r.alt_sum == 0,
            r.alt_index == 0,
            r.filtered_alt0 is None && r.filtered_alt1 is None && r.filtered_alt2 is None,
            r.main_cycle_count == 0 && r.log_cycle_count == 0,
            !r.key_armed && !r.alt_armed && !r.umbilical_state && !r.umbilical_launch,
            !r.mav_open && !r.sv_open && !r.camera_deployed && !r.airbrakes_init,
            !r.drogue_deployed && !r.main_chutes_deployed && !r.blims_armed && !r.log_armed,
    {
        let alt_buffer: Vec<i32> = vec![0i32; ALT_WINDOW];
        proof {
            assert(alt_buffer@ =~= Seq::new(ALT_WINDOW as nat, |i: int| 0i32));
            lemma_sum_zeros(alt_buffer@);
        }
        FlightLoop {
            flight_state,
            key_armed: false,
            alt_armed: false,
            umbilical_state: false,
            umbilical_launch: false,
            mav_open: false,
            sv_open: false,
            camera_deployed: false,
            alt_sum: 0,
            airbrakes_init: false,
            drogue_deployed: false,
            main_chutes_deployed: false,
            blims_armed: false,
            log_armed: false,
            alt_buffer,
            alt_index: 0,
            filtered_alt0: None,
            filtered_alt1: None,
            filtered_alt2: None,
            main_cycle_count: 0,
            log_cycle_count: 0,
        }
    }

    /// Adds the current altitude to the window and shifts the descent filter; also says
    /// whether the filter now shows apogee.
    #[verifier::spinoff_prover]
    fn push_altitude(self) -> (r: (Self, bool))
        requires
            self.wf(),
            self.alt_armed,
        ensures
            r.0.wf(),
            r.1 == self@.apogee(),
            r.0@ == (FlightLoopModel {
                alt_buffer: self@.alt_buffer.update(self@.alt_index, self.flight_state.altitude_mm),
                alt_index: (self@.alt_index + 1) % (ALT_WINDOW as int),
                alt_sum: self@.pushed_sum(),
                filtered2: self@.filtered1,
                filtered1: self@.filtered0,
                filtered0: Some(self@.pushed_sum()),
                ..self@
            }),
    {
        let mut s = self;
        let idx = s.alt_index;
        let alt = s.flight_state.altitude_mm;
        proof {
            reveal(seq_sum);
            lemma_sum_update(s.alt_buffer@, idx as int, alt);
            lemma_sum_bounds(s.alt_buffer@.update(idx as int, alt));
        }
        let new_sum: i64 = s.alt_sum - s.alt_buffer[idx] as i64 + alt as i64;
        let next_index: usize = if idx + 1 >= ALT_WINDOW { 0 } else { idx + 1 };
        let apogee = match (s.filtered_alt1, s.filtered_alt0) {
            (Some(a), Some(b)) => a > b && b > new_sum,
            _ => false,
        };
        let f1 = s.filtered_alt0;
        let f2 = s.filtered_alt1;
        s.alt_buffer.set(idx, alt);
        s.alt_sum = new_sum;
        s.alt_index = next_index;
        s.filtered_alt2 = f2;
        s.filtered_alt1 = f1;
        s.filtered_alt0 = Some(new_sum);
        (s, apogee)
    }

    #[verifier::spinoff_prover]
    #[verifier::rlimit(100)]
    fn startup_step(self) -> (r: Self)
        requires
            self.wf(),
        ensures
            r.wf(),
            r@ == self@.startup_step(),
    {
        let mut s = self;
        let valid = s.flight_state.altimeter_state == SensorState::VALID;
        let arm = s.key_armed && valid;
        let fail = s.key_armed && s.flight_state.altimeter_state == SensorState::INVALID;
        let reference = if valid {
            s.flight_state.read_barometer()
        } else {
            s.flight_state.reference_pressure
        };
        let arming_altitude = if arm {
            s.flight_state.read_altimeter()
        } else {
            s.flight_state.arming_altitude_mm
        };
        let mode = if arm {
            FlightMode::Standby
        } else if fail {
            FlightMode::Fault
        } else {
            s.flight_state.flight_mode
        };
        let armed = if arm {
            true
        } else if fail {
            false
        } else {
            s.alt_armed
        };
        s.alt_armed = armed;
        s.flight_state.reference_pressure = reference;
        s.flight_state.arming_altitude_mm = arming_altitude;
        s.flight_state.flight_mode = mode;
        s
    }

    #[verifier::spinoff_prover]
    fn standby_step(self) -> (r: Self)
        requires
            self.wf(),
        ensures
            r.wf(),
            r@ == self@.standby_step(),
    {
        let mut s = self;
        let launch = s.umbilical_launch;
        let reference = if launch {
            s.flight_state.read_barometer()
        } else {
            s.flight_state.reference_pressure
        };
        let mode = if launch {
            FlightMode::Ascent
        } else if !s.key_armed {
            FlightMode::Startup
        } else {
            s.flight_state.flight_mode
        };
        let mav = launch || s.mav_open;
        let sv = launch || s.sv_open;
        let armed = launch || s.alt_armed;
        s.mav_open = mav;
        s.sv_open = sv;
        s.alt_armed = armed;
        s.flight_state.reference_pressure = reference;
        s.flight_state.flight_mode = mode;
        s
    }

    #[verifier::spinoff_prover]
    fn ascent_step(self) -> (r: Self)
        requires
            self.wf(),
        ensures
            r.wf(),
            r@ == self@.ascent_step(),
    {
        let mut s = self;
        let armed = s.alt_armed || s.flight_state.read_altimeter() > ARMING_ALTITUDE_MM;
        let mode = if !s.mav_open { FlightMode::Coast } else { s.flight_state.flight_mode };
        s.alt_armed = armed;
        s.flight_state.flight_mode = mode;
        s
    }

    #[verifier::spinoff_prover]
    #[verifier::rlimit(100)]
    fn coast_step(self) -> (r: Self)
        requires
            self.wf(),
        ensures
            r.wf(),
            r@ == self@.coast_step(),
    {
        if self.alt_armed {
            let (mut s, apogee) = self.push_altitude();
            let camera = apogee || s.camera_deployed;
            let airbrakes = !apogee && s.airbrakes_init;
            let drogue = apogee || s.drogue_deployed;
            let mode = if apogee {
                FlightMode::DrogueDeployed
            } else {
                s.flight_state.flight_mode
            };
            s.camera_deployed = camera;
            s.airbrakes_init = airbrakes;
            s.drogue_deployed = drogue;
            s.flight_state.flight_mode = mode;
            s
        } else {
            self
        }
    }

    #[verifier::spinoff_prover]
    #[verifier::rlimit(100)]
    fn drogue_step(self) -> (r: Self)
        requires
            self.wf(),
        ensures
            r.wf(),
            r@ == self@.drogue_step(),
    {
        let mut s = self;
        let waiting = s.main_cycle_count <= MAIN_DEPLOY_WAIT_CYCLES;
        let deploy = !waiting && s.flight_state.read_altimeter() < MAIN_DEPLOY_ALTITUDE_MM;
        let count = if waiting { s.main_cycle_count + 1 } else { s.main_cycle_count };
        let chutes = deploy || s.main_chutes_deployed;
        let mode = if deploy { FlightMode::MainDeployed } else { s.flight_state.flight_mode };
        s.main_cycle_count = count;
        s.main_chutes_deployed = chutes;
        s.flight_state.flight_mode = mode;
        s
    }

    #[verifier::spinoff_prover]
    fn main_step(self) -> (r: Self)
        requires
            self.wf(),
        ensures
            r.wf(),
            r@ == self@.main_step(),
    {
        let mut s = self;
        let mut count = s.log_cycle_count;
        if count < MAIN_LOG_END_CYCLES {
            count = count + 1;
        }
        let done = count == MAIN_LOG_END_CYCLES;
        if done {
            count = count + 1;
        }
        let logging = !done && s.log_armed;
        s.log_cycle_count = count;
        s.log_armed = logging;
        s.blims_armed = true;
        s
    }

    /// The state machine after one evaluation of its current mode.
    #[verifier::spinoff_prover]
    fn transitions(self) -> (r: Self)
        requires
            self.wf(),
        ensures
            r.wf(),
            r@ == self@.after_transitions(),
    {
        match self.flight_state.flight_mode {
            FlightMode::Startup => self.startup_step(),
            FlightMode::Fault => self,
            _ => {
                if self.flight_state.altimeter_state != SensorState::VALID {
                    let mut s = self;
                    s.alt_armed = false;
                    s.flight_state.flight_mode = FlightMode::Fault;
                    s
                } else {
                    match self.flight_state.flight_mode {
                        FlightMode::Standby => self.standby_step(),
                        FlightMode::Ascent => self.ascent_step(),
                        FlightMode::Coast => self.coast_step(),
                        FlightMode::DrogueDeployed => self.drogue_step(),
                        _ => self.main_step(),
                    }
                }
            },
        }
    }

    /// A state machine that holds nothing, to stand in while the real one is stepped.
    fn vacant() -> Self {
        FlightLoop {
            flight_state: FlightState::new(),
            key_armed: false,
            alt_armed: false,
            umbilical_state: false,
            umbilical_launch: false,
            mav_open: false,
            sv_open: false,
            camera_deployed: false,
            alt_sum: 0,
            airbrakes_init: false,
            drogue_deployed: false,
            main_chutes_deployed: false,
            blims_armed: false,
            log_armed: false,
            alt_buffer: Vec::new(),
            alt_index: 0,
            filtered_alt0: None,
            filtered_alt1: None,
            filtered_alt2: None,
            main_cycle_count: 0,
            log_cycle_count: 0,
        }
    }

    /// Evaluates the current mode's guards once and applies the transition and its side
    /// effects; returns the altitude bits due in the scratchpad, if any.
    pub fn check_transitions(&mut self) -> (r: Option<u32>)
        requires
            old(self).wf(),
        ensures
            final(self).wf(),
            final(self)@ == old(self)@.after_transitions(),
            r == old(self)@.fallback_record(),
    {
        let record = if self.flight_state.flight_mode == FlightMode::Ascent
            && self.flight_state.altimeter_state == SensorState::VALID
            && !self.flight_state.sd_logging_enabled {
            Some(self.flight_state.packet.altitude)
        } else {
            None
        };
        let mut current = FlightLoop::vacant();
        core::mem::swap(self, &mut current);
        *self = current.transitions();
        record
    }
}

} // verus!
