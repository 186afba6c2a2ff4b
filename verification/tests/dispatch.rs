use blinko::Action;
use blinko::AlertKind;
use blinko::Coordinator;
use blinko::CoordinatorState;
use blinko::DetectionEvent;
use blinko::Input;
use blinko::RecordAction;
use blinko::RecordKind;
use blinko::ReminderEvent;
use blinko::RunOutcome;
use blinko::StatsRecord;
use blinko::TraceOp;
use blinko::TrayEvent;
use blinko::EventQueue;
use blinko::ReminderConfig;
use blinko::record_action_label;
use blinko::run_rest_ticks;
use blinko::record_kind_label;
use blinko::stats_record_for;

#[test]
fn routing_of_each_input() {
    let mut c = Coordinator::new();
    assert_eq!(
        c.step(Input::Reminder(Some(ReminderEvent::TimeToRest))),
        Action::Dispatch(AlertKind::Rest)
    );
    c.handler_done();
    assert_eq!(
        c.step(Input::Detection(Some(DetectionEvent::BlinkReminder))),
        Action::Dispatch(AlertKind::Blink)
    );
    c.handler_done();
    assert_eq!(
        c.step(Input::Detection(Some(DetectionEvent::PostureReminder))),
        Action::Dispatch(AlertKind::Posture)
    );
    c.handler_done();
    assert_eq!(c.step(Input::Tray(TrayEvent::ShowWindow)), Action::ShowEyeWindow);
    assert_eq!(c.step(Input::Tray(TrayEvent::Quit)), Action::Quit);
    assert_eq!(c.state, CoordinatorState::ShuttingDown);
}

#[test]
fn closed_channel_is_inert_not_fatal() {
    let mut c = Coordinator::new();
    assert_eq!(c.step(Input::Reminder(None)), Action::Ignore);
    assert!(!c.reminder_open);
    assert_eq!(c.state, CoordinatorState::Running);
    assert_eq!(c.step(Input::Detection(None)), Action::Ignore);
    assert!(!c.detection_open);
    assert_eq!(c.state, CoordinatorState::Running);
    // The loop still dispatches from the remaining live source.
    assert_eq!(
        c.step(Input::Detection(Some(DetectionEvent::BlinkReminder))),
        Action::Dispatch(AlertKind::Blink)
    );
}

#[test]
fn dispatch_state_waits_for_handler_completion() {
    let mut c = Coordinator::new();
    c.step(Input::Reminder(Some(ReminderEvent::TimeToRest)));
    assert_eq!(c.state, CoordinatorState::Dispatching);
    c.handler_done();
    assert_eq!(c.state, CoordinatorState::Running);
}

#[test]
fn graceful_quit_dispatches_only_events_before_quit() {
    let mut c = Coordinator::new();
    let inputs = vec![
        Input::Reminder(Some(ReminderEvent::TimeToRest)),
        Input::Detection(Some(DetectionEvent::BlinkReminder)),
        Input::Tray(TrayEvent::Quit),
        Input::Detection(Some(DetectionEvent::PostureReminder)),
    ];
    let log = c.run(&inputs);
    assert_eq!(log.dispatches, vec![AlertKind::Rest, AlertKind::Blink]);
    assert_eq!(log.outcome, RunOutcome::QuitRequested);
    assert_eq!(c.state, CoordinatorState::ShuttingDown);
    assert_eq!(
        log.trace,
        vec![
            TraceOp::HandlerBegin(AlertKind::Rest),
            TraceOp::HandlerEnd,
            TraceOp::HandlerBegin(AlertKind::Blink),
            TraceOp::HandlerEnd,
        ]
    );
}

#[test]
fn only_closed_sources_plus_quit_terminates_promptly() {
    let mut c = Coordinator::new();
    let inputs = vec![
        Input::Reminder(None),
        Input::Detection(None),
        Input::Tray(TrayEvent::Quit),
    ];
    let log = c.run(&inputs);
    assert_eq!(log.dispatches.len(), 0);
    assert_eq!(log.records.len(), 0);
    assert_eq!(log.outcome, RunOutcome::QuitRequested);
}

#[test]
fn statistics_round_trip_one_record_per_dispatch() {
    let mut c = Coordinator::new();
    let inputs = vec![
        Input::Detection(Some(DetectionEvent::PostureReminder)),
        Input::Reminder(Some(ReminderEvent::TimeToRest)),
        Input::Tray(TrayEvent::ShowWindow),
        Input::Detection(Some(DetectionEvent::BlinkReminder)),
    ];
    let log = c.run(&inputs);
    assert_eq!(log.dispatches.len(), 3);
    assert_eq!(log.records.len(), log.dispatches.len());
    for (kind, record) in log.dispatches.iter().zip(log.records.iter()) {
        assert_eq!(*record, stats_record_for(*kind));
    }
    assert_eq!(
        log.records[0],
        StatsRecord { kind: RecordKind::Posture, action: RecordAction::Alert }
    );
    assert_eq!(
        log.records[1],
        StatsRecord { kind: RecordKind::Timer, action: RecordAction::Reminder }
    );
    assert_eq!(
        log.records[2],
        StatsRecord { kind: RecordKind::Blink, action: RecordAction::Alert }
    );
}

#[test]
fn statistics_labels_match_the_store_schema() {
    assert_eq!(record_kind_label(RecordKind::Timer), "timer");
    assert_eq!(record_kind_label(RecordKind::Blink), "blink");
    assert_eq!(record_kind_label(RecordKind::Posture), "posture");
    assert_eq!(record_action_label(RecordAction::Reminder), "reminder");
    assert_eq!(record_action_label(RecordAction::Alert), "alert");
}

#[test]
fn handler_invocations_never_overlap() {
    let mut c = Coordinator::new();
    let inputs = vec![
        Input::Reminder(Some(ReminderEvent::TimeToRest)),
        Input::Reminder(Some(ReminderEvent::TimeToRest)),
        Input::Detection(Some(DetectionEvent::BlinkReminder)),
        Input::Detection(Some(DetectionEvent::PostureReminder)),
    ];
    let log = c.run(&inputs);
    let mut in_flight: i64 = 0;
    for op in log.trace.iter() {
        match op {
            TraceOp::HandlerBegin(_) => {
                in_flight += 1;
                assert_eq!(in_flight, 1, "a handler began while another was in flight");
            }
            TraceOp::HandlerEnd => {
                in_flight -= 1;
                assert_eq!(in_flight, 0);
            }
        }
    }
    assert_eq!(in_flight, 0, "a handler was left in flight at the end of the run");
}

#[test]
fn rest_events_flow_from_producer_to_handlers() {
    let cfg = ReminderConfig { enabled: true, interval_minutes: 20 };
    let mut q: EventQueue<ReminderEvent> = EventQueue::new(32);
    run_rest_ticks(&cfg, 3, &mut q);

    let mut inputs: Vec<Input> = Vec::new();
    for event in q.drain() {
        inputs.push(Input::Reminder(Some(event)));
    }
    inputs.push(Input::Tray(TrayEvent::Quit));

    let mut c = Coordinator::new();
    let log = c.run(&inputs);
    assert_eq!(log.dispatches, vec![AlertKind::Rest; 3]);
    assert_eq!(log.records.len(), 3);
    for record in log.records.iter() {
        assert_eq!(record.kind, RecordKind::Timer);
        assert_eq!(record.action, RecordAction::Reminder);
    }
    assert_eq!(log.outcome, RunOutcome::QuitRequested);
}

#[test]
fn run_without_quit_leaves_coordinator_ready() {
    let mut c = Coordinator::new();
    let first = vec![Input::Reminder(Some(ReminderEvent::TimeToRest))];
    let log1 = c.run(&first);
    assert_eq!(log1.outcome, RunOutcome::InputsExhausted);
    assert_eq!(c.state, CoordinatorState::Running);
    let second = vec![Input::Tray(TrayEvent::Quit)];
    let log2 = c.run(&second);
    assert_eq!(log2.outcome, RunOutcome::QuitRequested);
}
