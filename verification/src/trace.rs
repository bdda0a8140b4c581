//! Laws of the bridge over whole event histories.
//!
//! The embedding program serializes every mutation of the bridge state under
//! one lock, so a run of the system is a sequence of deliveries and watchdog
//! ticks applied one after the other. `run_spec` folds such a sequence over
//! the transition model of [`crate::state`] and collects the emitted frames;
//! the lemmas here state what holds of every such history: the emitted
//! timestamps are strictly paced with no gaps or repeats, the sink format
//! never changes after startup, the state invariant is preserved, a switch
//! event fires exactly once per transition, an idle gap hands the output to
//! the fallback generator, and a short gap conceals by repetition.

use crate::frame::{OutputView, SampleView};
use crate::source::SourceKind;
use crate::state::{deliver_spec, tick_spec, StateView};
use crate::FRAME_DURATION_NS;
use crate::IDLE_THRESHOLD_NS;
use crate::JITTER_THRESHOLD_NS;
use vstd::prelude::*;

verus! {

/// One serialized operation on the bridge state: a listener delivering a
/// decoded frame, or a watchdog tick with the frame pulled from the
/// fallback generator.
pub ghost enum BridgeEvent {
    Deliver { source: SourceKind, sample: SampleView, now_ns: int },
    Tick { now_ns: int, fallback: Option<SampleView> },
}

/// The state after one event, and the frame it emitted, if any.
pub open spec fn step_spec(s: StateView, e: BridgeEvent) -> (StateView, Option<OutputView>) {
    match e {
        BridgeEvent::Deliver { source, sample, now_ns } => {
            let stepped = deliver_spec(s, source, sample, now_ns);
            (stepped.0, stepped.1)
        },
        BridgeEvent::Tick { now_ns, fallback } => tick_spec(s, now_ns, fallback),
    }
}

/// The state after a sequence of events, and all frames emitted along the
/// way, in emission order.
pub open spec fn run_spec(s: StateView, events: Seq<BridgeEvent>) -> (StateView, Seq<OutputView>)
    decreases events.len(),
{
    if events.len() == 0 {
        (s, Seq::<OutputView>::empty())
    } else {
        let first = step_spec(s, events[0]);
        let rest = run_spec(first.0, events.drop_first());
        (
            rest.0,
            match first.1 {
                Some(o) => seq![o] + rest.1,
                None => rest.1,
            },
        )
    }
}

/// One step emits at most one frame; when it does, the frame's presentation
/// time is the timestamp counter before the step, its duration is one frame
/// interval, its format is the locked sink format, and the counter advances
/// by exactly that interval; when it does not, the counter stands still.
/// The sink format never changes, and the state invariant is preserved.
pub proof fn lemma_step_paced(s: StateView, e: BridgeEvent)
    ensures
        match step_spec(s, e).1 {
            Some(o) => o.pts_ns == s.timestamp_ns && o.duration_ns == FRAME_DURATION_NS && o.format
                == s.sink_format && step_spec(s, e).0.timestamp_ns == s.timestamp_ns
                + FRAME_DURATION_NS,
            None => step_spec(s, e).0.timestamp_ns == s.timestamp_ns,
        },
        step_spec(s, e).0.sink_format == s.sink_format,
        s.wf() ==> step_spec(s, e).0.wf(),
{
}

/// Monotone pacing: over any event history, the i-th emitted frame is
/// stamped exactly i frame intervals past the starting counter, every frame
/// lasts one interval, and the counter ends exactly one interval per
/// emission further on. Presentation times therefore strictly increase by
/// 33,333,333 ns per emission, with no gaps and no repeats, whatever mix of
/// sources and fallback produced the frames.
pub proof fn lemma_run_output_paced(s: StateView, events: Seq<BridgeEvent>)
    ensures
        run_spec(s, events).0.timestamp_ns == s.timestamp_ns + run_spec(s, events).1.len()
            * FRAME_DURATION_NS,
        forall|i: int|
            0 <= i < run_spec(s, events).1.len() ==> (#[trigger] run_spec(s, events).1[i]).pts_ns
                == s.timestamp_ns + i * FRAME_DURATION_NS,
        forall|i: int|
            0 <= i < run_spec(s, events).1.len() ==> (#[trigger] run_spec(s, events).1[i]).duration_ns
                == FRAME_DURATION_NS,
    decreases events.len(),
{
    if events.len() == 0 {
    } else {
        let first = step_spec(s, events[0]);
        let rest = run_spec(first.0, events.drop_first());
        lemma_step_paced(s, events[0]);
        lemma_run_output_paced(first.0, events.drop_first());
        match first.1 {
            Some(o) => {
                assert forall|i: int| 0 <= i < run_spec(s, events).1.len() implies (
                #[trigger] run_spec(s, events).1[i]).pts_ns == s.timestamp_ns + i
                    * FRAME_DURATION_NS by {
                    if i == 0 {
                    } else {
                        assert(run_spec(s, events).1[i] == rest.1[i - 1]);
                        assert(rest.1[i - 1].pts_ns == first.0.timestamp_ns + (i - 1)
                            * FRAME_DURATION_NS);
                    }
                }
            },
            None => {
            },
        }
    }
}

/// Strict monotonicity, spelled out: of any two frames emitted over one
/// history, the later one carries the strictly larger presentation time,
/// and consecutive frames differ by exactly one frame interval.
pub proof fn lemma_run_output_monotonic(
    s: StateView,
    events: Seq<BridgeEvent>,
    i: int,
    j: int,
)
    requires
        0 <= i < j < run_spec(s, events).1.len(),
    ensures
        run_spec(s, events).1[i].pts_ns < run_spec(s, events).1[j].pts_ns,
        j == i + 1 ==> run_spec(s, events).1[j].pts_ns == run_spec(s, events).1[i].pts_ns
            + FRAME_DURATION_NS,
{
    lemma_run_output_paced(s, events);
    assert(i * FRAME_DURATION_NS < j * FRAME_DURATION_NS) by (nonlinear_arith)
        requires
            i < j,
    ;
    assert((i + 1) * FRAME_DURATION_NS == i * FRAME_DURATION_NS + FRAME_DURATION_NS)
        by (nonlinear_arith);
}

/// Caps lockdown: the sink format fixed at startup survives any event
/// history unchanged, and every emitted frame carries exactly that format,
/// whatever format metadata the incoming samples reported.
pub proof fn lemma_caps_locked(s: StateView, events: Seq<BridgeEvent>)
    ensures
        run_spec(s, events).0.sink_format == s.sink_format,
        forall|i: int|
            0 <= i < run_spec(s, events).1.len() ==> (#[trigger] run_spec(s, events).1[i]).format
                == s.sink_format,
    decreases events.len(),
{
    if events.len() == 0 {
    } else {
        let first = step_spec(s, events[0]);
        lemma_step_paced(s, events[0]);
        lemma_caps_locked(first.0, events.drop_first());
    }
}

/// State consistency under any history: from a well-formed state, the state
/// after every prefix of the history is well-formed again — a source is
/// active exactly while a sample is held, after every single operation.
pub proof fn lemma_wf_preserved(s: StateView, events: Seq<BridgeEvent>, k: int)
    requires
        s.wf(),
        0 <= k <= events.len(),
    ensures
        run_spec(s, events.take(k)).0.wf(),
    decreases k,
{
    if k == 0 {
        assert(events.take(0) =~= Seq::<BridgeEvent>::empty());
    } else {
        let first = step_spec(s, events[0]);
        lemma_step_paced(s, events[0]);
        lemma_wf_preserved(first.0, events.drop_first(), k - 1);
        assert(events.take(k).drop_first() =~= events.drop_first().take(k - 1));
    }
}

/// Switchover correctness: a delivery makes the delivering source the
/// active one, and reports a switch exactly when that source was not
/// already active — so a second delivery from the same source, whatever
/// frame and time it brings, reports no switch. The switch event is
/// observable once per transition, not once per frame.
pub proof fn lemma_switch_exactly_once(
    s: StateView,
    source: SourceKind,
    first_sample: SampleView,
    first_now: int,
    second_sample: SampleView,
    second_now: int,
)
    ensures
        deliver_spec(s, source, first_sample, first_now).2 == (s.active_codec != Some(source)),
        deliver_spec(s, source, first_sample, first_now).0.active_codec == Some(source),
        !deliver_spec(
            deliver_spec(s, source, first_sample, first_now).0,
            source,
            second_sample,
            second_now,
        ).2,
{
}

/// Last writer wins: when two sources deliver back to back — the
/// serialization order under the lock is the only order there is, even for
/// deliveries at the same wall-clock instant — exactly the later delivery
/// owns the state: its source is active and its sample is held, and the
/// state stays consistent either way the race resolves.
pub proof fn lemma_last_writer_wins(
    s: StateView,
    first_source: SourceKind,
    first_sample: SampleView,
    second_source: SourceKind,
    second_sample: SampleView,
    now_ns: int,
)
    ensures
        deliver_spec(
            deliver_spec(s, first_source, first_sample, now_ns).0,
            second_source,
            second_sample,
            now_ns,
        ).0.active_codec == Some(second_source),
        deliver_spec(
            deliver_spec(s, first_source, first_sample, now_ns).0,
            second_source,
            second_sample,
            now_ns,
        ).0.last_sample == Some(second_sample),
        deliver_spec(
            deliver_spec(s, first_source, first_sample, now_ns).0,
            second_source,
            second_sample,
            now_ns,
        ).0.wf(),
{
}

/// Idle fallback timing: at a tick whose gap since the last delivery
/// exceeds the idle threshold, the active source and held sample are
/// cleared, and the emitted frame — owed whenever the fallback pull
/// succeeded with a buffer — carries the fallback generator's payload.
pub proof fn lemma_idle_fallback(s: StateView, now_ns: int, fallback: SampleView)
    requires
        s.wf(),
        now_ns - s.last_update_ns > IDLE_THRESHOLD_NS,
        fallback.buffer is Some,
    ensures
        tick_spec(s, now_ns, Some(fallback)).0.active_codec is None,
        tick_spec(s, now_ns, Some(fallback)).0.last_sample is None,
        tick_spec(s, now_ns, Some(fallback)).1 is Some,
        tick_spec(s, now_ns, Some(fallback)).1.unwrap().payload == fallback.buffer.unwrap(),
{
}

/// Jitter concealment: at a tick whose gap lies strictly between the jitter
/// and idle thresholds while a source is active, the held sample is
/// re-emitted — the output repeats the last received payload, the fallback
/// pattern does not appear, and the held sample, active source and arrival
/// time all stay as they were.
pub proof fn lemma_jitter_concealment(
    s: StateView,
    now_ns: int,
    fallback: Option<SampleView>,
)
    requires
        s.wf(),
        JITTER_THRESHOLD_NS < now_ns - s.last_update_ns <= IDLE_THRESHOLD_NS,
        s.active_codec is Some,
        s.last_sample.unwrap().buffer is Some,
    ensures
        tick_spec(s, now_ns, fallback).1 is Some,
        tick_spec(s, now_ns, fallback).1.unwrap().payload == s.last_sample.unwrap().buffer.unwrap(),
        tick_spec(s, now_ns, fallback).0.last_sample == s.last_sample,
        tick_spec(s, now_ns, fallback).0.active_codec == s.active_codec,
        tick_spec(s, now_ns, fallback).0.last_update_ns == s.last_update_ns,
{
}

/// A quiet tick: with a gap at or below the jitter threshold, a tick
/// changes nothing and emits nothing — the listeners are already pacing
/// the output themselves.
pub proof fn lemma_active_tick_quiet(s: StateView, now_ns: int, fallback: Option<SampleView>)
    requires
        now_ns - s.last_update_ns <= JITTER_THRESHOLD_NS,
    ensures
        tick_spec(s, now_ns, fallback).0 == s,
        tick_spec(s, now_ns, fallback).1 is None,
{
}

} // verus!
