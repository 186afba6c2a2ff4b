//! The event vocabulary: a closed set of value-typed, payload-free tags.
//!
//! Each producer speaks its own small enum; the coordinator merges them.

use vstd::prelude::*;

verus! {

/// Emitted by the rest reminder producer, one per elapsed rest period.
#[derive(Clone, Copy, Debug, PartialEq, Eq, Structural)]
pub enum ReminderEvent {
    TimeToRest,
}

/// Emitted by the wellness monitor when a sub-timer's check comes back
/// positive (blink overdue, or bad posture observed).
#[derive(Clone, Copy, Debug, PartialEq, Eq, Structural)]
pub enum DetectionEvent {
    BlinkReminder,
    PostureReminder,
}

/// Delivered by the user-interface event source (tray icon / menu).
#[derive(Clone, Copy, Debug, PartialEq, Eq, Structural)]
pub enum TrayEvent {
    ShowWindow,
    Quit,
}

} // verus!
