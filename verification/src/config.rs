//! Immutable configuration snapshot.
//!
//! The snapshot is built once at startup and handed by value to each producer
//! task; nothing mutates it after the coordinator starts. Persistence of the
//! snapshot (a config file in a per-user directory) is a collaborator concern
//! and stays outside the verified core.

use vstd::prelude::*;

verus! {

/// Detection sensitivity for the posture monitor: a tri-level setting that a
/// concrete detector maps to its own parameter.
#[derive(Clone, Copy, Debug, PartialEq, Eq, Structural)]
pub enum Sensitivity {
    Low,
    Medium,
    High,
}

/// Settings for the periodic rest reminder producer.
#[derive(Clone, Copy, Debug, PartialEq, Eq, Structural)]
pub struct ReminderConfig {
    pub enabled: bool,
    pub interval_minutes: u64,
}

/// Settings for the blink-check sub-timer of the wellness monitor.
#[derive(Clone, Copy, Debug, PartialEq, Eq, Structural)]
pub struct BlinkDetectionConfig {
    pub enabled: bool,
    pub check_interval_seconds: u64,
    pub threshold_seconds: u64,
}

/// Settings for the posture-check sub-timer of the wellness monitor.
#[derive(Clone, Copy, Debug, PartialEq, Eq, Structural)]
pub struct PostureDetectionConfig {
    pub enabled: bool,
    pub sensitivity: Sensitivity,
}

/// The whole configuration snapshot.
#[derive(Clone, Copy, Debug, PartialEq, Eq, Structural)]
pub struct Config {
    pub reminder: ReminderConfig,
    pub blink_detection: BlinkDetectionConfig,
    pub posture_detection: PostureDetectionConfig,
}

impl Config {
    /// A snapshot is well formed when every interval that can drive a timer
    /// is positive: a zero period would make a producer fire continuously.
    pub open spec fn well_formed(self) -> bool {
        &&& self.reminder.interval_minutes > 0
        &&& self.blink_detection.check_interval_seconds > 0
        &&& self.blink_detection.threshold_seconds > 0
    }

    /// The rest period in seconds, as the rest producer's clock uses it.
    pub fn rest_period_seconds(&self) -> (r: u64)
        requires
            self.reminder.interval_minutes <= u64::MAX / 60,
        ensures
            r == self.reminder.interval_minutes * 60,
    {
        self.reminder.interval_minutes * 60
    }
}

impl Default for Config {
    /// The out-of-the-box snapshot: rest reminders every 20 minutes, both
    /// detection sub-timers off, posture sensitivity in the middle.
    fn default() -> (c: Config)
        ensures
            c.reminder.enabled,
            c.reminder.interval_minutes == 20,
            !c.blink_detection.enabled,
            c.blink_detection.check_interval_seconds == 5,
            c.blink_detection.threshold_seconds == 30,
            !c.posture_detection.enabled,
            c.posture_detection.sensitivity == Sensitivity::Medium,
            c.well_formed(),
    {
        Config {
            reminder: ReminderConfig { enabled: true, interval_minutes: 20 },
            blink_detection: BlinkDetectionConfig {
                enabled: false,
                check_interval_seconds: 5,
                threshold_seconds: 30,
            },
            posture_detection: PostureDetectionConfig {
                enabled: false,
                sensitivity: Sensitivity::Medium,
            },
        }
    }
}

/// The textual name of a sensitivity level, as the config file spells it.
pub fn sensitivity_label(s: Sensitivity) -> (r: &'static str)
    ensures
        s == Sensitivity::Low ==> r@ == "low"@,
        s == Sensitivity::Medium ==> r@ == "medium"@,
        s == Sensitivity::High ==> r@ == "high"@,
{
    match s {
        Sensitivity::Low => "low",
        Sensitivity::Medium => "medium",
        Sensitivity::High => "high",
    }
}

} // verus!
