use vstd::prelude::*;

verus! {

/// Time with no client connected after which the plant is made safe.
pub const DEADMAN_TIMEOUT_MS: u64 = 15_000;

/// Period at which the monitor looks at the client count.
pub const SAFETY_POLL_MS: u64 = 500;

/// The dead-man timer.
#[derive(Debug, Clone, Copy, PartialEq, Eq, Structural)]
pub struct SafetyMonitor {
    /// When the count was first seen at zero, in this run of zeros.
    pub disconnected_since: Option<u64>,
    /// Whether the emergency shutdown has fired in this run of zeros.
    pub safety_triggered: bool,
}

/// Milliseconds from `since` to `now`, zero if the clock reads earlier.
pub open spec fn elapsed(since: u64, now: u64) -> int {
    if now >= since {
        now - since
    } else {
        0
    }
}

impl SafetyMonitor {
    /// Whether a poll at `now_ms` seeing `active_clients` fires the shutdown.
    pub open spec fn fires(self, now_ms: u64, active_clients: u32) -> bool {
        let since = match self.disconnected_since {
            Some(s) => s,
            None => now_ms,
        };
        active_clients == 0 && !self.safety_triggered && elapsed(since, now_ms)
            > DEADMAN_TIMEOUT_MS
    }

    /// The monitor after a poll at `now_ms` seeing `active_clients`.
    pub open spec fn polled(self, now_ms: u64, active_clients: u32) -> SafetyMonitor {
        if active_clients > 0 {
            SafetyMonitor { disconnected_since: None, safety_triggered: false }
        } else {
            SafetyMonitor {
                disconnected_since: Some(
                    match self.disconnected_since {
                        Some(s) => s,
                        None => now_ms,
                    },
                ),
                safety_triggered: self.safety_triggered || self.fires(now_ms, active_clients),
            }
        }
    }

    /// A monitor that has seen nothing yet.
    pub fn new() -> (r: Self)
        ensures
            r.disconnected_since is None,
            !r.safety_triggered,
    {
        SafetyMonitor { disconnected_since: None, safety_triggered: false }
    }

    /// One look at the active-client count. Clients present clear the timer and the latch;
    /// no client starts the timer on first sight, and once more than `DEADMAN_TIMEOUT_MS`
    /// have passed returns true, once, for the caller to run the emergency shutdown.
    pub fn poll(&mut self, now_ms: u64, active_clients: u32) -> (fire: bool)
        ensures
            fire == old(self).fires(now_ms, active_clients),
            *final(self) == old(self).polled(now_ms, active_clients),
    {
        if active_clients > 0 {
            self.disconnected_since = None;
            self.safety_triggered = false;
            return false;
        }
        let since = match self.disconnected_since {
            Some(s) => s,
            None => now_ms,
        };
        self.disconnected_since = Some(since);
        let waited: u64 = if now_ms >= since { now_ms - since } else { 0 };
        if waited > DEADMAN_TIMEOUT_MS && !self.safety_triggered {
            self.safety_triggered = true;
            true
        } else {
            false
        }
    }
}

/// How many times the shutdown fires over polls at `times`, all seeing no client.
pub open spec fn fire_count(m: SafetyMonitor, times: Seq<u64>) -> nat
    decreases times.len(),
{
    if times.len() == 0 {
        0
    } else {
        (if m.fires(times[0], 0) { 1nat } else { 0nat }) + fire_count(
            m.polled(times[0], 0),
            times.drop_first(),
        )
    }
}

/// Once fired, the shutdown does not fire again while no client connects.
pub proof fn lemma_fires_at_most_once(m: SafetyMonitor, times: Seq<u64>)
    ensures
        m.safety_triggered ==> fire_count(m, times) == 0,
        fire_count(m, times) <= 1,
    decreases times.len(),
{
    if times.len() > 0 {
        lemma_fires_at_most_once(m.polled(times[0], 0), times.drop_first());
    }
}

/// While no client is connected, polls whose clock does not run backwards fire the
/// shutdown exactly once when the last of them comes more than `DEADMAN_TIMEOUT_MS` after
/// the zero count was first seen, provided it had not fired already.
pub proof fn lemma_deadman_fires_once(m: SafetyMonitor, times: Seq<u64>)
    requires
        times.len() > 0,
        !m.safety_triggered,
        forall|i: int, j: int| 0 <= i <= j < times.len() ==> times[i] <= times[j],
        m.disconnected_since matches Some(s) ==> s <= times[0],
        ({
            let start = match m.disconnected_since {
                Some(s) => s,
                None => times[0],
            };
            times.last() - start > DEADMAN_TIMEOUT_MS
        }),
    ensures
        fire_count(m, times) == 1,
    decreases times.len(),
{
    let n = m.polled(times[0], 0);
    if m.fires(times[0], 0) {
        lemma_fires_at_most_once(n, times.drop_first());
    } else {
        let rest = times.drop_first();
        assert(rest.len() > 0);
        assert(rest.last() == times.last());
        lemma_deadman_fires_once(n, rest);
    }
}

} // verus!
