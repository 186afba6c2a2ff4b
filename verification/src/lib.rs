//! Core of a background health-reminder agent.
//!
//! Independently clocked producers (a rest timer and a wellness monitor with
//! blink and posture sub-timers) feed typed events through bounded channels
//! into a single coordinator, which dispatches one handler at a time. This
//! crate holds the verified coordination logic: the configuration snapshot,
//! the event vocabulary, the channel discipline, the producer state machines,
//! and the coordinator's merge-and-dispatch state machine. Platform work
//! (timers, notification surface, statistics store, tray) lives outside.

mod channel;
mod clock;
mod config;
mod coordinator;
mod event;
mod monitor;
mod rest;

pub use channel::EventQueue;
pub use clock::next_deadline;
pub use clock::tick_time;
pub use clock::lemma_tick_spacing;
pub use clock::lemma_ticks_within_duration;
pub use clock::lemma_tick_order;
pub use rest::rest_tick_output;
pub use rest::rest_stream;
pub use rest::lemma_disabled_rest_is_silent;
pub use rest::lemma_enabled_rest_is_periodic;
pub use rest::run_rest_ticks;
pub use monitor::POSTURE_CHECK_INTERVAL_SECONDS;
pub use monitor::BlinkMonitor;
pub use monitor::BlinkRun;
pub use monitor::MonitorTick;
pub use monitor::WellnessMonitor;
pub use monitor::blink_step;
pub use monitor::posture_step;
pub use monitor::posture_check;
pub use monitor::monitor_step;
pub use monitor::monitor_stream;
pub use monitor::lemma_one_alert_per_window;
pub use monitor::lemma_alert_time_is_threshold_multiple;
pub use monitor::lemma_disabled_blink_is_silent;
pub use monitor::lemma_disabled_posture_is_silent;
pub use coordinator::CoordinatorState;
pub use coordinator::AlertKind;
pub use coordinator::Input;
pub use coordinator::Action;
pub use coordinator::RecordKind;
pub use coordinator::RecordAction;
pub use coordinator::StatsRecord;
pub use coordinator::Coordinator;
pub use coordinator::TraceOp;
pub use coordinator::RunOutcome;
pub use coordinator::RunLog;
pub use coordinator::action_of;
pub use coordinator::record_for;
pub use coordinator::stats_record_for;
pub use coordinator::record_kind_label;
pub use coordinator::record_action_label;
pub use coordinator::state_after;
pub use coordinator::dispatches_of;
pub use coordinator::quit_in;
pub use coordinator::trace_of;
pub use coordinator::begin_count;
pub use coordinator::end_count;
pub use coordinator::in_flight;
pub use coordinator::lemma_serialized_dispatch;
pub use coordinator::lemma_quit_is_final;
pub use event::ReminderEvent;
pub use event::DetectionEvent;
pub use event::TrayEvent;
pub use config::Config;
pub use config::ReminderConfig;
pub use config::BlinkDetectionConfig;
pub use config::PostureDetectionConfig;
pub use config::Sensitivity;
pub use config::sensitivity_label;
