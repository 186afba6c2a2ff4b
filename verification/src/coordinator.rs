//! The event coordinator: the single consumer that merges producer and
//! user-interface events and drives handlers one at a time.
//!
//! On each iteration the coordinator takes whichever source is ready first
//! (tie-break across sources is arbitrary and deliberately unspecified),
//! classifies the value, dispatches to exactly one handler, and awaits that
//! handler's completion before merging again. It leaves the loop only on an
//! explicit quit request; a closed producer channel is noted and the source
//! is treated as inert from then on, mirroring the disabled-producer
//! contract.

use vstd::prelude::*;
use crate::event::ReminderEvent;
use crate::event::DetectionEvent;
use crate::event::TrayEvent;

verus! {

/// The coordinator's control state. `Dispatching` means a handler is in
/// flight; no new event is consumed until it completes.
#[derive(Clone, Copy, Debug, PartialEq, Eq, Structural)]
pub enum CoordinatorState {
    Running,
    Dispatching,
    ShuttingDown,
}

/// The alert kinds a handler can be asked to present.
#[derive(Clone, Copy, Debug, PartialEq, Eq, Structural)]
pub enum AlertKind {
    Rest,
    Blink,
    Posture,
}

/// One value obtained from the merge: an event from a source, or `None` for
/// a source whose channel has closed.
#[derive(Clone, Copy, Debug, PartialEq, Eq, Structural)]
pub enum Input {
    Reminder(Option<ReminderEvent>),
    Detection(Option<DetectionEvent>),
    Tray(TrayEvent),
}

/// What the coordinator decides to do with one input.
#[derive(Clone, Copy, Debug, PartialEq, Eq, Structural)]
pub enum Action {
    /// Present the alert, then record one statistics entry; awaited.
    Dispatch(AlertKind),
    /// Show the on-screen indicator; no statistics entry.
    ShowEyeWindow,
    /// Nothing to do: a closed channel was noted and is inert from now on.
    Ignore,
    /// Explicit quit: stop dispatching and shut down.
    Quit,
}

/// The event-kind column of a statistics entry.
#[derive(Clone, Copy, Debug, PartialEq, Eq, Structural)]
pub enum RecordKind {
    Timer,
    Blink,
    Posture,
}

/// The action column of a statistics entry.
#[derive(Clone, Copy, Debug, PartialEq, Eq, Structural)]
pub enum RecordAction {
    Reminder,
    Alert,
}

/// One statistics-sink call: the pair recorded for a dispatched alert.
#[derive(Clone, Copy, Debug, PartialEq, Eq, Structural)]
pub struct StatsRecord {
    pub kind: RecordKind,
    pub action: RecordAction,
}

/// How the coordinator classifies each input. This is the whole routing
/// table of the merge loop.
pub open spec fn action_of(input: Input) -> Action {
    match input {
        Input::Reminder(Some(ReminderEvent::TimeToRest)) => Action::Dispatch(AlertKind::Rest),
        Input::Reminder(None) => Action::Ignore,
        Input::Detection(Some(DetectionEvent::BlinkReminder)) => Action::Dispatch(AlertKind::Blink),
        Input::Detection(Some(DetectionEvent::PostureReminder)) => Action::Dispatch(
            AlertKind::Posture,
        ),
        Input::Detection(None) => Action::Ignore,
        Input::Tray(TrayEvent::ShowWindow) => Action::ShowEyeWindow,
        Input::Tray(TrayEvent::Quit) => Action::Quit,
    }
}

/// The one statistics entry that belongs to a dispatched alert.
pub open spec fn record_for(kind: AlertKind) -> StatsRecord {
    match kind {
        AlertKind::Rest => StatsRecord { kind: RecordKind::Timer, action: RecordAction::Reminder },
        AlertKind::Blink => StatsRecord { kind: RecordKind::Blink, action: RecordAction::Alert },
        AlertKind::Posture => StatsRecord {
            kind: RecordKind::Posture,
            action: RecordAction::Alert,
        },
    }
}

/// Build the statistics entry for a dispatched alert.
pub fn stats_record_for(kind: AlertKind) -> (r: StatsRecord)
    ensures
        r == record_for(kind),
{
    match kind {
        AlertKind::Rest => StatsRecord { kind: RecordKind::Timer, action: RecordAction::Reminder },
        AlertKind::Blink => StatsRecord { kind: RecordKind::Blink, action: RecordAction::Alert },
        AlertKind::Posture => StatsRecord {
            kind: RecordKind::Posture,
            action: RecordAction::Alert,
        },
    }
}

/// The event-kind column as the statistics store spells it.
pub fn record_kind_label(kind: RecordKind) -> (r: &'static str)
    ensures
        kind == RecordKind::Timer ==> r@ == "timer"@,
        kind == RecordKind::Blink ==> r@ == "blink"@,
        kind == RecordKind::Posture ==> r@ == "posture"@,
{
    match kind {
        RecordKind::Timer => "timer",
        RecordKind::Blink => "blink",
        RecordKind::Posture => "posture",
    }
}

/// The action column as the statistics store spells it.
pub fn record_action_label(action: RecordAction) -> (r: &'static str)
    ensures
        action == RecordAction::Reminder ==> r@ == "reminder"@,
        action == RecordAction::Alert ==> r@ == "alert"@,
{
    match action {
        RecordAction::Reminder => "reminder",
        RecordAction::Alert => "alert",
    }
}

/// What `state` becomes once an action is taken (from `Running`).
pub open spec fn state_after(action: Action) -> CoordinatorState {
    match action {
        Action::Dispatch(_) => CoordinatorState::Dispatching,
        Action::Quit => CoordinatorState::ShuttingDown,
        _ => CoordinatorState::Running,
    }
}

/// The coordinator: its control state and which producer channels are still
/// open (a closed one is inert, not fatal).
#[derive(Clone, Copy, Debug, PartialEq, Eq, Structural)]
pub struct Coordinator {
    pub state: CoordinatorState,
    pub reminder_open: bool,
    pub detection_open: bool,
}

impl Coordinator {
    /// A coordinator ready to merge, with both producer channels open.
    pub fn new() -> (c: Coordinator)
        ensures
            c.state == CoordinatorState::Running,
            c.reminder_open,
            c.detection_open,
    {
        Coordinator {
            state: CoordinatorState::Running,
            reminder_open: true,
            detection_open: true,
        }
    }

    /// Consume one merged input. Only legal while no handler is in flight
    /// and no quit has been seen; a `Dispatch` action moves the coordinator
    /// to `Dispatching` until `handler_done` is called, which is how
    /// dispatch stays serialized.
    pub fn step(&mut self, input: Input) -> (action: Action)
        requires
            old(self).state == CoordinatorState::Running,
        ensures
            action == action_of(input),
            final(self).state == state_after(action),
            final(self).reminder_open == (old(self).reminder_open && input != Input::Reminder(
                None,
            )),
            final(self).detection_open == (old(self).detection_open && input != Input::Detection(
                None,
            )),
    {
        match input {
            Input::Reminder(Some(ReminderEvent::TimeToRest)) => {
                self.state = CoordinatorState::Dispatching;
                Action::Dispatch(AlertKind::Rest)
            }
            Input::Reminder(None) => {
                self.reminder_open = false;
                Action::Ignore
            }
            Input::Detection(Some(DetectionEvent::BlinkReminder)) => {
                self.state = CoordinatorState::Dispatching;
                Action::Dispatch(AlertKind::Blink)
            }
            Input::Detection(Some(DetectionEvent::PostureReminder)) => {
                self.state = CoordinatorState::Dispatching;
                Action::Dispatch(AlertKind::Posture)
            }
            Input::Detection(None) => {
                self.detection_open = false;
                Action::Ignore
            }
            Input::Tray(TrayEvent::ShowWindow) => Action::ShowEyeWindow,
            Input::Tray(TrayEvent::Quit) => {
                self.state = CoordinatorState::ShuttingDown;
                Action::Quit
            }
        }
    }

    /// The in-flight handler has completed; merging may resume.
    pub fn handler_done(&mut self)
        requires
            old(self).state == CoordinatorState::Dispatching,
        ensures
            final(self).state == CoordinatorState::Running,
            final(self).reminder_open == old(self).reminder_open,
            final(self).detection_open == old(self).detection_open,
    {
        self.state = CoordinatorState::Running;
    }
}

/// The alerts the coordinator dispatches for a sequence of merged inputs:
/// every alert event, in arrival order, up to but not beyond the first quit.
pub open spec fn dispatches_of(inputs: Seq<Input>) -> Seq<AlertKind>
    decreases inputs.len(),
{
    if inputs.len() == 0 {
        Seq::empty()
    } else {
        match action_of(inputs[0]) {
            Action::Quit => Seq::empty(),
            Action::Dispatch(k) => seq![k] + dispatches_of(inputs.drop_first()),
            _ => dispatches_of(inputs.drop_first()),
        }
    }
}

/// Whether a quit request occurs anywhere in the inputs.
pub open spec fn quit_in(inputs: Seq<Input>) -> bool
    decreases inputs.len(),
{
    if inputs.len() == 0 {
        false
    } else {
        action_of(inputs[0]) == Action::Quit || quit_in(inputs.drop_first())
    }
}

/// One entry of the handler trace: a handler invocation starting, or the
/// awaited invocation completing.
#[derive(Clone, Copy, Debug, PartialEq, Eq, Structural)]
pub enum TraceOp {
    HandlerBegin(AlertKind),
    HandlerEnd,
}

/// The handler trace a dispatch sequence produces: each dispatch is one
/// begin immediately bracketed by its completion.
pub open spec fn trace_of(dispatches: Seq<AlertKind>) -> Seq<TraceOp>
    decreases dispatches.len(),
{
    if dispatches.len() == 0 {
        Seq::empty()
    } else {
        seq![TraceOp::HandlerBegin(dispatches[0]), TraceOp::HandlerEnd] + trace_of(
            dispatches.drop_first(),
        )
    }
}

/// How many handler invocations a trace starts.
pub open spec fn begin_count(trace: Seq<TraceOp>) -> int
    decreases trace.len(),
{
    if trace.len() == 0 {
        0
    } else {
        (match trace[0] {
            TraceOp::HandlerBegin(_) => 1int,
            TraceOp::HandlerEnd => 0int,
        }) + begin_count(trace.drop_first())
    }
}

/// How many handler invocations a trace completes.
pub open spec fn end_count(trace: Seq<TraceOp>) -> int
    decreases trace.len(),
{
    if trace.len() == 0 {
        0
    } else {
        (match trace[0] {
            TraceOp::HandlerEnd => 1int,
            TraceOp::HandlerBegin(_) => 0int,
        }) + end_count(trace.drop_first())
    }
}

/// How many handlers are in flight after a trace: started and not completed.
pub open spec fn in_flight(trace: Seq<TraceOp>) -> int {
    begin_count(trace) - end_count(trace)
}

/// Counting distributes over trace concatenation.
proof fn lemma_count_concat(a: Seq<TraceOp>, b: Seq<TraceOp>)
    ensures
        begin_count(a + b) == begin_count(a) + begin_count(b),
        end_count(a + b) == end_count(a) + end_count(b),
    decreases a.len(),
{
    if a.len() == 0 {
        assert(a + b =~= b);
    } else {
        assert((a + b).drop_first() =~= a.drop_first() + b);
        lemma_count_concat(a.drop_first(), b);
    }
}

/// Appending one dispatch appends one begin/end bracket to the trace.
proof fn lemma_trace_of_push(dispatches: Seq<AlertKind>, kind: AlertKind)
    ensures
        trace_of(dispatches.push(kind)) == trace_of(dispatches) + seq![
            TraceOp::HandlerBegin(kind),
            TraceOp::HandlerEnd,
        ],
    decreases dispatches.len(),
{
    let bk = seq![TraceOp::HandlerBegin(kind), TraceOp::HandlerEnd];
    if dispatches.len() == 0 {
        assert(dispatches.push(kind).drop_first() =~= Seq::<AlertKind>::empty());
        assert(trace_of(dispatches.push(kind)) == bk + trace_of(Seq::<AlertKind>::empty()));
        assert(bk + Seq::<TraceOp>::empty() =~= bk);
        assert(Seq::<TraceOp>::empty() + bk =~= bk);
    } else {
        let b0 = seq![TraceOp::HandlerBegin(dispatches[0]), TraceOp::HandlerEnd];
        assert(dispatches.push(kind).drop_first() =~= dispatches.drop_first().push(kind));
        lemma_trace_of_push(dispatches.drop_first(), kind);
        assert(dispatches.push(kind)[0] == dispatches[0]);
        assert(trace_of(dispatches.push(kind)) == b0 + trace_of(
            dispatches.drop_first().push(kind),
        ));
        assert(trace_of(dispatches.push(kind)) == b0 + (trace_of(dispatches.drop_first()) + bk));
        assert(b0 + (trace_of(dispatches.drop_first()) + bk) =~= (b0 + trace_of(
            dispatches.drop_first(),
        )) + bk);
        assert(trace_of(dispatches) == b0 + trace_of(dispatches.drop_first()));
    }
}

/// Dispatch is serialized: along the handler trace of any dispatch sequence,
/// at most one handler is ever in flight, and by the end of the trace every
/// handler that began has completed — no two handler invocations overlap,
/// and none is abandoned mid-execution.
pub proof fn lemma_serialized_dispatch(dispatches: Seq<AlertKind>, p: int)
    requires
        0 <= p <= trace_of(dispatches).len(),
    ensures
        0 <= in_flight(trace_of(dispatches).take(p)) <= 1,
        in_flight(trace_of(dispatches)) == 0,
    decreases dispatches.len(),
{
    let t = trace_of(dispatches);
    if dispatches.len() == 0 {
        assert(t.take(p) =~= Seq::<TraceOp>::empty());
    } else {
        let bracket = seq![TraceOp::HandlerBegin(dispatches[0]), TraceOp::HandlerEnd];
        let rest = trace_of(dispatches.drop_first());
        reveal_with_fuel(begin_count, 3);
        reveal_with_fuel(end_count, 3);
        assert(bracket.drop_first() =~= seq![TraceOp::HandlerEnd]);
        assert(bracket.drop_first().drop_first() =~= Seq::<TraceOp>::empty());
        assert(begin_count(bracket) == 1);
        assert(end_count(bracket) == 1);
        lemma_count_concat(bracket, rest);
        lemma_serialized_dispatch(dispatches.drop_first(), 0);
        if p == 0 {
            assert(t.take(p) =~= Seq::<TraceOp>::empty());
        } else if p == 1 {
            let b1 = seq![TraceOp::HandlerBegin(dispatches[0])];
            assert(t.take(p) =~= b1);
            assert(b1.drop_first() =~= Seq::<TraceOp>::empty());
            assert(in_flight(b1) == 1);
        } else {
            assert(t.take(p) =~= bracket + rest.take(p - 2));
            lemma_count_concat(bracket, rest.take(p - 2));
            lemma_serialized_dispatch(dispatches.drop_first(), p - 2);
        }
    }
}

/// A quit request is final: once the inputs contain a quit, whatever arrives
/// after it changes nothing about what is dispatched.
pub proof fn lemma_quit_is_final(inputs: Seq<Input>, more: Seq<Input>)
    requires
        quit_in(inputs),
    ensures
        dispatches_of(inputs + more) == dispatches_of(inputs),
    decreases inputs.len(),
{
    if action_of(inputs[0]) == Action::Quit {
        assert(dispatches_of(inputs + more) =~= dispatches_of(inputs));
    } else {
        assert((inputs + more).drop_first() =~= inputs.drop_first() + more);
        lemma_quit_is_final(inputs.drop_first(), more);
        assert(dispatches_of(inputs + more) =~= dispatches_of(inputs));
    }
}

/// How a coordinator run ended: on an explicit quit request, or because the
/// supplied inputs ran out.
#[derive(Clone, Copy, Debug, PartialEq, Eq, Structural)]
pub enum RunOutcome {
    QuitRequested,
    InputsExhausted,
}

/// Everything one coordinator run did: the alerts dispatched in order, the
/// statistics entry recorded for each, the handler trace, and how the run
/// ended.
pub struct RunLog {
    pub dispatches: Vec<AlertKind>,
    pub records: Vec<StatsRecord>,
    pub trace: Vec<TraceOp>,
    pub outcome: RunOutcome,
}

impl Coordinator {
    /// Merge and dispatch a sequence of inputs: exactly the alert events up
    /// to the first quit are dispatched, in order; each dispatch records
    /// exactly one matching statistics entry inside its handler bracket; and
    /// the run reports a quit outcome exactly when a quit was seen, leaving
    /// the coordinator shut down in that case and ready to merge otherwise.
    pub fn run(&mut self, inputs: &Vec<Input>) -> (log: RunLog)
        requires
            old(self).state == CoordinatorState::Running,
        ensures
            log.dispatches@ == dispatches_of(inputs@),
            log.records@.len() == log.dispatches@.len(),
            forall|j: int|
                0 <= j < log.records@.len() ==> log.records@[j] == record_for(log.dispatches@[j]),
            log.trace@ == trace_of(dispatches_of(inputs@)),
            (log.outcome == RunOutcome::QuitRequested) == quit_in(inputs@),
            final(self).state == (if quit_in(inputs@) {
                CoordinatorState::ShuttingDown
            } else {
                CoordinatorState::Running
            }),
    {
        let mut dispatches: Vec<AlertKind> = Vec::new();
        let mut records: Vec<StatsRecord> = Vec::new();
        let mut trace: Vec<TraceOp> = Vec::new();
        let mut saw_quit = false;
        let mut i: usize = 0;
        proof {
            assert(inputs@.skip(0) =~= inputs@);
            assert(dispatches@ + dispatches_of(inputs@) =~= dispatches_of(inputs@));
        }
        while i < inputs.len()
            invariant_except_break
                self.state == CoordinatorState::Running,
                i <= inputs@.len(),
                dispatches_of(inputs@) == dispatches@ + dispatches_of(inputs@.skip(i as int)),
                quit_in(inputs@) == quit_in(inputs@.skip(i as int)),
                records@.len() == dispatches@.len(),
                forall|j: int|
                    0 <= j < records@.len() ==> records@[j] == record_for(dispatches@[j]),
                trace@ == trace_of(dispatches@),
                !saw_quit,
            ensures
                dispatches@ == dispatches_of(inputs@),
                saw_quit == quit_in(inputs@),
                records@.len() == dispatches@.len(),
                forall|j: int|
                    0 <= j < records@.len() ==> records@[j] == record_for(dispatches@[j]),
                trace@ == trace_of(dispatches@),
                self.state == (if saw_quit {
                    CoordinatorState::ShuttingDown
                } else {
                    CoordinatorState::Running
                }),
            decreases inputs@.len() - i,
        {
            let input = inputs[i];
            proof {
                assert(inputs@.skip(i as int)[0] == input);
                assert(inputs@.skip(i as int).drop_first() =~= inputs@.skip(i as int + 1));
            }
            let action = self.step(input);
            match action {
                Action::Dispatch(kind) => {
                    let ghost pre_dispatches: Seq<AlertKind> = dispatches@;
                    let ghost pre_trace: Seq<TraceOp> = trace@;
                    trace.push(TraceOp::HandlerBegin(kind));
                    records.push(stats_record_for(kind));
                    self.handler_done();
                    trace.push(TraceOp::HandlerEnd);
                    dispatches.push(kind);
                    proof {
                        lemma_trace_of_push(pre_dispatches, kind);
                        assert(trace@ =~= pre_trace + seq![
                            TraceOp::HandlerBegin(kind),
                            TraceOp::HandlerEnd,
                        ]);
                        assert(dispatches@ + dispatches_of(inputs@.skip(i as int + 1))
                            =~= pre_dispatches + dispatches_of(inputs@.skip(i as int)));
                    }
                }
                Action::Quit => {
                    saw_quit = true;
                    proof {
                        assert(dispatches_of(inputs@.skip(i as int)) =~= Seq::<AlertKind>::empty());
                        assert(dispatches@ =~= dispatches@ + dispatches_of(
                            inputs@.skip(i as int),
                        ));
                    }
                    break ;
                }
                Action::ShowEyeWindow => {}
                Action::Ignore => {}
            }
            i = i + 1;
        }
        proof {
            if !saw_quit {
                assert(inputs@.skip(inputs@.len() as int) =~= Seq::<Input>::empty());
            }
        }
        let outcome = if saw_quit {
            RunOutcome::QuitRequested
        } else {
            RunOutcome::InputsExhausted
        };
        RunLog { dispatches, records, trace, outcome }
    }
}

} // verus!
