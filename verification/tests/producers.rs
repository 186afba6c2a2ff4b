use blinko::BlinkMonitor;
use blinko::Config;
use blinko::DetectionEvent;
use blinko::EventQueue;
use blinko::MonitorTick;
use blinko::ReminderConfig;
use blinko::ReminderEvent;
use blinko::Sensitivity;
use blinko::WellnessMonitor;
use blinko::next_deadline;
use blinko::posture_check;
use blinko::run_rest_ticks;
use blinko::sensitivity_label;
use blinko::BlinkDetectionConfig;
use blinko::PostureDetectionConfig;

#[test]
fn default_config_values() {
    let c = Config::default();
    assert!(c.reminder.enabled);
    assert_eq!(c.reminder.interval_minutes, 20);
    assert!(!c.blink_detection.enabled);
    assert_eq!(c.blink_detection.check_interval_seconds, 5);
    assert_eq!(c.blink_detection.threshold_seconds, 30);
    assert!(!c.posture_detection.enabled);
    assert_eq!(c.posture_detection.sensitivity, Sensitivity::Medium);
}

#[test]
fn rest_period_in_seconds() {
    let c = Config::default();
    assert_eq!(c.rest_period_seconds(), 20 * 60);
}

#[test]
fn sensitivity_labels() {
    assert_eq!(sensitivity_label(Sensitivity::Low), "low");
    assert_eq!(sensitivity_label(Sensitivity::Medium), "medium");
    assert_eq!(sensitivity_label(Sensitivity::High), "high");
}

#[test]
fn queue_keeps_fifo_order() {
    let mut q: EventQueue<u64> = EventQueue::new(8);
    assert!(q.send(1));
    assert!(q.send(2));
    assert!(q.send(3));
    assert_eq!(q.recv(), Some(1));
    assert_eq!(q.recv(), Some(2));
    assert_eq!(q.recv(), Some(3));
    assert_eq!(q.recv(), None);
}

#[test]
fn queue_refuses_beyond_capacity() {
    let mut q: EventQueue<u64> = EventQueue::new(2);
    assert!(q.send(10));
    assert!(q.send(20));
    assert!(!q.send(30));
    assert_eq!(q.len(), 2);
    assert_eq!(q.recv(), Some(10));
    assert!(q.send(30));
    assert_eq!(q.recv(), Some(20));
    assert_eq!(q.recv(), Some(30));
}

#[test]
fn queue_drain_is_exactly_once_in_order() {
    let mut q: EventQueue<u64> = EventQueue::new(4);
    q.send(7);
    q.send(8);
    q.send(9);
    let all = q.drain();
    assert_eq!(all, vec![7, 8, 9]);
    assert_eq!(q.len(), 0);
    assert_eq!(q.recv(), None);
}

#[test]
fn disabled_rest_producer_emits_nothing() {
    let cfg = ReminderConfig { enabled: false, interval_minutes: 1 };
    let mut q: EventQueue<ReminderEvent> = EventQueue::new(32);
    run_rest_ticks(&cfg, 100, &mut q);
    assert_eq!(q.len(), 0);
}

#[test]
fn enabled_rest_producer_emits_one_event_per_tick() {
    let cfg = ReminderConfig { enabled: true, interval_minutes: 20 };
    let mut q: EventQueue<ReminderEvent> = EventQueue::new(32);
    run_rest_ticks(&cfg, 5, &mut q);
    assert_eq!(q.len(), 5);
    for _ in 0..5 {
        assert_eq!(q.recv(), Some(ReminderEvent::TimeToRest));
    }
    assert_eq!(q.recv(), None);
}

#[test]
fn rest_producer_drops_events_beyond_capacity() {
    let cfg = ReminderConfig { enabled: true, interval_minutes: 20 };
    let mut q: EventQueue<ReminderEvent> = EventQueue::new(3);
    run_rest_ticks(&cfg, 5, &mut q);
    assert_eq!(q.len(), 3);
    assert_eq!(q.drain(), vec![ReminderEvent::TimeToRest; 3]);
}

#[test]
fn deadline_is_anchored_to_schedule() {
    // The next deadline extends the previous *scheduled* time, so handler
    // latency never shifts the schedule.
    let d1 = next_deadline(0, 1200);
    let d2 = next_deadline(d1, 1200);
    let d3 = next_deadline(d2, 1200);
    assert_eq!((d1, d2, d3), (1200, 2400, 3600));
}

#[test]
fn blink_threshold_accumulates_across_checks() {
    // Check every 5 s, threshold 30 s: one alert per six checks, not one
    // per check.
    let cfg = BlinkDetectionConfig {
        enabled: true,
        check_interval_seconds: 5,
        threshold_seconds: 30,
    };
    let mut m = BlinkMonitor::new(&cfg);
    let run = m.run_unobserved_checks(12);
    assert_eq!(run.alerts, 2);
    assert_eq!(run.pattern.len(), 12);
    for (i, fired) in run.pattern.iter().enumerate() {
        assert_eq!(*fired, (i + 1) % 6 == 0, "check {}", i);
    }
}

#[test]
fn blink_alert_count_rounds_down() {
    let cfg = BlinkDetectionConfig {
        enabled: true,
        check_interval_seconds: 5,
        threshold_seconds: 30,
    };
    let mut m = BlinkMonitor::new(&cfg);
    let run = m.run_unobserved_checks(17);
    assert_eq!(run.alerts, 2);
}

#[test]
fn observed_blink_resets_the_counter() {
    let cfg = BlinkDetectionConfig {
        enabled: true,
        check_interval_seconds: 5,
        threshold_seconds: 10,
    };
    let mut m = BlinkMonitor::new(&cfg);
    assert_eq!(m.on_check(false), None);
    assert_eq!(m.on_check(true), None);
    assert_eq!(m.on_check(false), None);
    assert_eq!(m.on_check(false), Some(DetectionEvent::BlinkReminder));
}

#[test]
fn posture_alert_only_on_positive_reading() {
    assert_eq!(posture_check(false), None);
    assert_eq!(posture_check(true), Some(DetectionEvent::PostureReminder));
}

#[test]
fn disabled_sub_timer_is_inert() {
    let blink_cfg = BlinkDetectionConfig {
        enabled: false,
        check_interval_seconds: 5,
        threshold_seconds: 30,
    };
    let posture_cfg = PostureDetectionConfig { enabled: false, sensitivity: Sensitivity::High };
    let mut m = WellnessMonitor::new(&blink_cfg, &posture_cfg);
    let before = m;
    for _ in 0..50 {
        assert_eq!(m.on_tick(MonitorTick::BlinkCheck(false)), None);
        assert_eq!(m.on_tick(MonitorTick::PostureCheck(true)), None);
    }
    assert_eq!(m, before);
}

#[test]
fn enabled_sub_timers_do_not_block_each_other() {
    let blink_cfg = BlinkDetectionConfig {
        enabled: true,
        check_interval_seconds: 5,
        threshold_seconds: 10,
    };
    let posture_cfg = PostureDetectionConfig { enabled: true, sensitivity: Sensitivity::Medium };
    let mut m = WellnessMonitor::new(&blink_cfg, &posture_cfg);
    // Posture readiness between blink checks neither delays nor advances the
    // blink bookkeeping.
    assert_eq!(m.on_tick(MonitorTick::BlinkCheck(false)), None);
    assert_eq!(m.on_tick(MonitorTick::PostureCheck(true)), Some(DetectionEvent::PostureReminder));
    assert_eq!(m.on_tick(MonitorTick::PostureCheck(false)), None);
    assert_eq!(
        m.on_tick(MonitorTick::BlinkCheck(false)),
        Some(DetectionEvent::BlinkReminder)
    );
}
