//! The wellness monitor producer: two independent sub-timers.
//!
//! The blink sub-timer checks a detection predicate every `check_interval`
//! seconds and keeps a count of seconds since the last confirmed blink; when
//! that count reaches the threshold it emits one alert and starts over. The
//! posture sub-timer checks its predicate on a short fixed interval and emits
//! an alert exactly on a positive reading. A disabled sub-timer is inert: it
//! never fires and never advances, and cannot block its sibling.

use vstd::prelude::*;
use vstd::arithmetic::div_mod::lemma_fundamental_div_mod;
use vstd::arithmetic::div_mod::lemma_fundamental_div_mod_converse;
use crate::clock::tick_time;
use crate::config::BlinkDetectionConfig;
use crate::config::PostureDetectionConfig;
use crate::config::Sensitivity;
use crate::event::DetectionEvent;

verus! {

/// The posture sub-timer's fixed check period, in seconds.
pub const POSTURE_CHECK_INTERVAL_SECONDS: u64 = 2;

/// Timer state of the blink sub-loop: its two configured periods and the
/// seconds elapsed since the last confirmed blink (or since the last alert).
#[derive(Clone, Copy, Debug, PartialEq, Eq, Structural)]
pub struct BlinkMonitor {
    pub check_interval_seconds: u64,
    pub threshold_seconds: u64,
    pub elapsed_seconds: u64,
}

/// What one blink check does: a confirmed blink resets the elapsed counter;
/// otherwise the counter advances by one check interval, and on reaching the
/// threshold the monitor emits one alert and starts the count over.
pub open spec fn blink_step(b: BlinkMonitor, blink_observed: bool) -> (BlinkMonitor, Option<
    DetectionEvent,
>) {
    if blink_observed {
        (BlinkMonitor { elapsed_seconds: 0, ..b }, None)
    } else if b.elapsed_seconds + b.check_interval_seconds >= b.threshold_seconds {
        (BlinkMonitor { elapsed_seconds: 0, ..b }, Some(DetectionEvent::BlinkReminder))
    } else {
        (
            BlinkMonitor {
                elapsed_seconds: (b.elapsed_seconds + b.check_interval_seconds) as u64,
                ..b
            },
            None,
        )
    }
}

impl BlinkMonitor {
    /// Both periods are positive, the elapsed count is still short of the
    /// threshold, and one more check interval cannot overflow the counter.
    pub open spec fn wf(self) -> bool {
        &&& self.check_interval_seconds > 0
        &&& self.threshold_seconds > 0
        &&& self.elapsed_seconds < self.threshold_seconds
        &&& self.threshold_seconds + self.check_interval_seconds <= u64::MAX
    }

    /// How many checks make up one threshold window.
    pub open spec fn threshold_checks(self) -> nat {
        (self.threshold_seconds as nat) / (self.check_interval_seconds as nat)
    }

    /// A fresh monitor: nothing elapsed yet.
    pub fn new(cfg: &BlinkDetectionConfig) -> (m: BlinkMonitor)
        requires
            cfg.check_interval_seconds > 0,
            cfg.threshold_seconds > 0,
            cfg.threshold_seconds + cfg.check_interval_seconds <= u64::MAX,
        ensures
            m.wf(),
            m.check_interval_seconds == cfg.check_interval_seconds,
            m.threshold_seconds == cfg.threshold_seconds,
            m.elapsed_seconds == 0,
    {
        BlinkMonitor {
            check_interval_seconds: cfg.check_interval_seconds,
            threshold_seconds: cfg.threshold_seconds,
            elapsed_seconds: 0,
        }
    }

    /// One check of the blink predicate.
    pub fn on_check(&mut self, blink_observed: bool) -> (r: Option<DetectionEvent>)
        requires
            old(self).wf(),
        ensures
            final(self).wf(),
            (*final(self), r) == blink_step(*old(self), blink_observed),
    {
        if blink_observed {
            self.elapsed_seconds = 0;
            None
        } else if self.elapsed_seconds + self.check_interval_seconds >= self.threshold_seconds {
            self.elapsed_seconds = 0;
            Some(DetectionEvent::BlinkReminder)
        } else {
            self.elapsed_seconds = self.elapsed_seconds + self.check_interval_seconds;
            None
        }
    }
}

/// The outcome of a run of blink checks: which checks raised an alert, and
/// how many alerts there were in all.
pub struct BlinkRun {
    pub pattern: Vec<bool>,
    pub alerts: u64,
}

impl BlinkMonitor {
    /// Run `n` checks of a predicate that never confirms a blink, starting
    /// from a fresh counter, with the threshold a whole multiple of the check
    /// interval. Exactly every `threshold_checks()`-th check raises an alert
    /// — one alert per threshold window, not one per check — so `n` checks
    /// raise `n / threshold_checks()` alerts in all.
    pub fn run_unobserved_checks(&mut self, n: usize) -> (run: BlinkRun)
        requires
            old(self).wf(),
            old(self).elapsed_seconds == 0,
            old(self).threshold_seconds % old(self).check_interval_seconds == 0,
        ensures
            final(self).wf(),
            final(self).check_interval_seconds == old(self).check_interval_seconds,
            final(self).threshold_seconds == old(self).threshold_seconds,
            run.pattern@.len() == n,
            forall|j: int|
                0 <= j < n ==> run.pattern@[j] == ((j + 1) % (old(self).threshold_checks() as int)
                    == 0),
            run.alerts as nat == (n as nat) / old(self).threshold_checks(),
    {
        let ghost c: int = old(self).check_interval_seconds as int;
        let ghost t: int = old(self).threshold_seconds as int;
        let ghost m: int = t / c;
        proof {
            lemma_fundamental_div_mod(t, c);
            assert(t == c * m);
            assert(m >= 1) by (nonlinear_arith)
                requires
                    c > 0,
                    t > 0,
                    t == c * m,
            ;
            assert(m == old(self).threshold_checks() as int);
        }
        let mut pattern: Vec<bool> = Vec::new();
        let mut alerts: u64 = 0;
        let mut i: usize = 0;
        let ghost mut s: int = 0;
        while i < n
            invariant
                self.wf(),
                self.check_interval_seconds == old(self).check_interval_seconds,
                self.threshold_seconds == old(self).threshold_seconds,
                c == old(self).check_interval_seconds as int,
                t == old(self).threshold_seconds as int,
                t == c * m,
                m >= 1,
                i <= n,
                0 <= s < m,
                self.elapsed_seconds as int == s * c,
                i as int == alerts as int * m + s,
                alerts as int <= i as int,
                pattern@.len() == i,
                forall|j: int| 0 <= j < i ==> pattern@[j] == ((j + 1) % m == 0),
            decreases n - i,
        {
            let ghost q: int = alerts as int;
            let ghost pre: BlinkMonitor = *self;
            let r = self.on_check(false);
            let emitted = match r {
                Some(_) => true,
                None => false,
            };
            proof {
                assert(emitted == (pre.elapsed_seconds + pre.check_interval_seconds
                    >= pre.threshold_seconds));
                assert((s * c + c >= t) == (s + 1 >= m)) by (nonlinear_arith)
                    requires
                        c > 0,
                        t == c * m,
                ;
                assert(emitted == (s + 1 >= m));
                assert(s * c + c == (s + 1) * c) by (nonlinear_arith);
            }
            pattern.push(emitted);
            if emitted {
                alerts = alerts + 1;
            }
            proof {
                if emitted {
                    assert(s == m - 1);
                    assert((q + 1) * m == q * m + m) by (nonlinear_arith);
                    lemma_fundamental_div_mod_converse(i as int + 1, m, q + 1, 0);
                    s = 0;
                } else {
                    assert(s + 1 < m);
                    lemma_fundamental_div_mod_converse(i as int + 1, m, q, s + 1);
                    s = s + 1;
                }
            }
            i = i + 1;
        }
        proof {
            lemma_fundamental_div_mod_converse(n as int, m, alerts as int, s);
        }
        BlinkRun { pattern, alerts }
    }
}

/// In every window of `m` consecutive checks of a never-confirming
/// predicate, exactly one check raises the alert: the last one of the
/// window. Together with `run_unobserved_checks` this says the alert comes
/// exactly once per threshold span, not once per check.
pub proof fn lemma_one_alert_per_window(m: int, w: int, j: int)
    requires
        m >= 1,
        w >= 0,
        w * m <= j < (w + 1) * m,
    ensures
        ((j + 1) % m == 0) == (j == w * m + (m - 1)),
{
    assert((w + 1) * m == w * m + m) by (nonlinear_arith);
    if j == w * m + (m - 1) {
        lemma_fundamental_div_mod_converse(j + 1, m, w + 1, 0);
    } else {
        let s = j - w * m;
        lemma_fundamental_div_mod_converse(j + 1, m, w, s + 1);
    }
}

/// An alerting check falls on a whole multiple of the threshold span: with
/// checks every `c` seconds and `m` checks per window, the check at index
/// `j` runs at `tick_time(c, j)` seconds, and when it alerts that time is
/// `(j + 1) / m` whole thresholds (`m * c` seconds each) into the run.
pub proof fn lemma_alert_time_is_threshold_multiple(c: nat, m: nat, j: nat)
    requires
        c > 0,
        m >= 1,
        ((j + 1) as int) % (m as int) == 0,
    ensures
        tick_time(c, j) as int == (((j + 1) as int) / (m as int)) * ((m * c) as int),
{
    lemma_fundamental_div_mod((j + 1) as int, m as int);
    let a = ((j + 1) as int) / (m as int);
    assert(c as int * (m as int * a) == a * (m as int * c as int)) by (nonlinear_arith);
}

/// What one posture check does: an alert exactly on a positive (bad-posture)
/// reading, nothing otherwise. The sub-timer keeps no state of its own.
pub open spec fn posture_step(bad_posture: bool) -> Option<DetectionEvent> {
    if bad_posture {
        Some(DetectionEvent::PostureReminder)
    } else {
        None
    }
}

/// Evaluate one posture check.
pub fn posture_check(bad_posture: bool) -> (r: Option<DetectionEvent>)
    ensures
        r == posture_step(bad_posture),
{
    if bad_posture {
        Some(DetectionEvent::PostureReminder)
    } else {
        None
    }
}

/// One readiness of the monitor's merge: a sub-timer's tick together with the
/// predicate reading taken at that tick.
#[derive(Clone, Copy, Debug, PartialEq, Eq, Structural)]
pub enum MonitorTick {
    BlinkCheck(bool),
    PostureCheck(bool),
}

/// The wellness monitor: enablement flags frozen from the configuration, and
/// the per-sub-timer bookkeeping. The sensitivity setting rides along for a
/// real posture detector to consume.
#[derive(Clone, Copy, Debug, PartialEq, Eq, Structural)]
pub struct WellnessMonitor {
    pub blink_enabled: bool,
    pub posture_enabled: bool,
    pub blink: BlinkMonitor,
    pub sensitivity: Sensitivity,
}

/// What one tick of the merged monitor does. A tick of a disabled sub-timer
/// is inert: the state does not move and nothing is emitted — disablement
/// degrades to "never ready", not to a terminated or busy-spinning loop.
pub open spec fn monitor_step(m: WellnessMonitor, tick: MonitorTick) -> (WellnessMonitor, Option<
    DetectionEvent,
>) {
    match tick {
        MonitorTick::BlinkCheck(observed) => if !m.blink_enabled {
            (m, None)
        } else {
            let (b, r) = blink_step(m.blink, observed);
            (WellnessMonitor { blink: b, ..m }, r)
        },
        MonitorTick::PostureCheck(bad) => if !m.posture_enabled {
            (m, None)
        } else {
            (m, posture_step(bad))
        },
    }
}

impl WellnessMonitor {
    /// The blink bookkeeping is well formed.
    pub open spec fn wf(self) -> bool {
        self.blink.wf()
    }

    /// Build the monitor from the two sub-timer configurations.
    pub fn new(blink_cfg: &BlinkDetectionConfig, posture_cfg: &PostureDetectionConfig) -> (m:
        WellnessMonitor)
        requires
            blink_cfg.check_interval_seconds > 0,
            blink_cfg.threshold_seconds > 0,
            blink_cfg.threshold_seconds + blink_cfg.check_interval_seconds <= u64::MAX,
        ensures
            m.wf(),
            m.blink_enabled == blink_cfg.enabled,
            m.posture_enabled == posture_cfg.enabled,
            m.blink.check_interval_seconds == blink_cfg.check_interval_seconds,
            m.blink.threshold_seconds == blink_cfg.threshold_seconds,
            m.blink.elapsed_seconds == 0,
            m.sensitivity == posture_cfg.sensitivity,
    {
        WellnessMonitor {
            blink_enabled: blink_cfg.enabled,
            posture_enabled: posture_cfg.enabled,
            blink: BlinkMonitor::new(blink_cfg),
            sensitivity: posture_cfg.sensitivity,
        }
    }

    /// React to one tick of either sub-timer.
    pub fn on_tick(&mut self, tick: MonitorTick) -> (r: Option<DetectionEvent>)
        requires
            old(self).wf(),
        ensures
            final(self).wf(),
            (*final(self), r) == monitor_step(*old(self), tick),
    {
        match tick {
            MonitorTick::BlinkCheck(observed) => {
                if !self.blink_enabled {
                    None
                } else {
                    self.blink.on_check(observed)
                }
            }
            MonitorTick::PostureCheck(bad) => {
                if !self.posture_enabled {
                    None
                } else {
                    posture_check(bad)
                }
            }
        }
    }
}

/// The monitor's whole emission stream over a schedule of ticks.
pub open spec fn monitor_stream(m: WellnessMonitor, schedule: Seq<MonitorTick>) -> Seq<
    DetectionEvent,
>
    decreases schedule.len(),
{
    if schedule.len() == 0 {
        Seq::empty()
    } else {
        let (m2, r) = monitor_step(m, schedule[0]);
        let head: Seq<DetectionEvent> = match r {
            Some(e) => seq![e],
            None => Seq::empty(),
        };
        head + monitor_stream(m2, schedule.drop_first())
    }
}

/// With the blink sub-timer disabled, no schedule of any length makes the
/// monitor emit a blink alert.
pub proof fn lemma_disabled_blink_is_silent(m: WellnessMonitor, schedule: Seq<MonitorTick>)
    requires
        !m.blink_enabled,
    ensures
        forall|i: int|
            0 <= i < monitor_stream(m, schedule).len() ==> monitor_stream(m, schedule)[i]
                != DetectionEvent::BlinkReminder,
    decreases schedule.len(),
{
    if schedule.len() > 0 {
        let (m2, r) = monitor_step(m, schedule[0]);
        lemma_disabled_blink_is_silent(m2, schedule.drop_first());
    }
}

/// With the posture sub-timer disabled, no schedule of any length makes the
/// monitor emit a posture alert.
pub proof fn lemma_disabled_posture_is_silent(m: WellnessMonitor, schedule: Seq<MonitorTick>)
    requires
        !m.posture_enabled,
    ensures
        forall|i: int|
            0 <= i < monitor_stream(m, schedule).len() ==> monitor_stream(m, schedule)[i]
                != DetectionEvent::PostureReminder,
    decreases schedule.len(),
{
    if schedule.len() > 0 {
        let (m2, r) = monitor_step(m, schedule[0]);
        lemma_disabled_posture_is_silent(m2, schedule.drop_first());
    }
}

} // verus!
