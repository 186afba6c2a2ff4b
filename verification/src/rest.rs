//! The rest reminder producer.
//!
//! A disabled producer is a no-op from the first instant: it emits nothing,
//! ever. An enabled one emits exactly one `TimeToRest` per clock tick, into a
//! bounded queue with fire-and-forget sends.

use vstd::prelude::*;
use vstd::math::min;
use crate::config::ReminderConfig;
use crate::event::ReminderEvent;
use crate::channel::EventQueue;

verus! {

/// What one tick of the rest timer emits: one `TimeToRest` when the producer
/// is enabled, nothing when it is disabled. (A disabled producer's timer
/// never runs at all; modelling the tick as silent gives the same stream.)
pub open spec fn rest_tick_output(cfg: ReminderConfig) -> Seq<ReminderEvent> {
    if cfg.enabled {
        seq![ReminderEvent::TimeToRest]
    } else {
        Seq::empty()
    }
}

/// The whole event stream of the producer over `ticks` clock ticks.
pub open spec fn rest_stream(cfg: ReminderConfig, ticks: nat) -> Seq<ReminderEvent>
    decreases ticks,
{
    if ticks == 0 {
        Seq::empty()
    } else {
        rest_stream(cfg, (ticks - 1) as nat) + rest_tick_output(cfg)
    }
}

/// A disabled rest producer emits zero events over any finite run.
pub proof fn lemma_disabled_rest_is_silent(cfg: ReminderConfig, ticks: nat)
    requires
        !cfg.enabled,
    ensures
        rest_stream(cfg, ticks).len() == 0,
    decreases ticks,
{
    if ticks > 0 {
        lemma_disabled_rest_is_silent(cfg, (ticks - 1) as nat);
    }
}

/// An enabled rest producer emits exactly one `TimeToRest` per tick: over a
/// run that spans `k` periods it emits `k` events, and every one of them is
/// `TimeToRest`.
pub proof fn lemma_enabled_rest_is_periodic(cfg: ReminderConfig, ticks: nat)
    requires
        cfg.enabled,
    ensures
        rest_stream(cfg, ticks).len() == ticks,
        forall|i: int| 0 <= i < ticks ==> rest_stream(cfg, ticks)[i] == ReminderEvent::TimeToRest,
    decreases ticks,
{
    if ticks > 0 {
        lemma_enabled_rest_is_periodic(cfg, (ticks - 1) as nat);
    }
}

/// Run the producer for `ticks` ticks against a queue, sending each emitted
/// event fire-and-forget: once the queue is full, further events of the run
/// are refused and dropped, as the producer never blocks on a slow consumer
/// beyond the queue's bound. The queue gains exactly the first emitted
/// events for which it had room, in emission order; a disabled producer
/// leaves it untouched.
pub fn run_rest_ticks(cfg: &ReminderConfig, ticks: usize, queue: &mut EventQueue<ReminderEvent>)
    requires
        old(queue).wf(),
    ensures
        final(queue).wf(),
        final(queue).capacity() == old(queue).capacity(),
        !cfg.enabled ==> final(queue)@ == old(queue)@,
        cfg.enabled ==> final(queue)@ == old(queue)@ + rest_stream(
            *cfg,
            min(ticks as int, old(queue).capacity() - old(queue)@.len()) as nat,
        ),
{
    if !cfg.enabled {
        return ;
    }
    let ghost room: int = old(queue).capacity() - old(queue)@.len();
    let mut i: usize = 0;
    proof {
        old(queue).lemma_wf_len();
        assert(old(queue)@ + rest_stream(*cfg, min(0, room) as nat) =~= old(queue)@);
    }
    while i < ticks
        invariant
            cfg.enabled,
            i <= ticks,
            queue.wf(),
            queue.capacity() == old(queue).capacity(),
            room == old(queue).capacity() - old(queue)@.len(),
            queue@ == old(queue)@ + rest_stream(*cfg, min(i as int, room) as nat),
        decreases ticks - i,
    {
        let ghost sent: int = min(i as int, room);
        proof {
            lemma_enabled_rest_is_periodic(*cfg, sent as nat);
        }
        let accepted = queue.send(ReminderEvent::TimeToRest);
        proof {
            if accepted {
                assert(sent < room);
                assert(min(i as int + 1, room) == sent + 1);
                assert(queue@ =~= old(queue)@ + rest_stream(*cfg, (sent + 1) as nat));
            } else {
                assert(sent == room);
                assert(min(i as int + 1, room) == sent);
            }
        }
        i = i + 1;
    }
}

} // verus!
