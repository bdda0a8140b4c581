//! The shared bridge state and its transitions.
//!
//! `BridgeState` is the single piece of state shared by all source listener
//! threads and the watchdog. The embedding program keeps it behind one
//! mutual-exclusion lock and calls exactly one transition per critical
//! section, so the transitions here describe every serialized mutation:
//! a listener delivering a decoded frame, and a watchdog tick driving the
//! concealment and fallback policy.
//!
//! Each transition is specified against a pure model (`deliver_spec`,
//! `tick_spec`, `emit_spec`) over [`StateView`].

use crate::frame::{
    clone_bytes, opt_output_view, opt_sample_view, FrameFormat, FrameSample, OutputFrame,
    OutputView, SampleView,
};
use crate::source::SourceKind;
use crate::FRAME_DURATION_NS;
use crate::IDLE_THRESHOLD_NS;
use crate::JITTER_THRESHOLD_NS;
use vstd::prelude::*;

verus! {

/// Mathematical model of the bridge state.
pub ghost struct StateView {
    pub last_sample: Option<SampleView>,
    pub last_update_ns: int,
    pub timestamp_ns: int,
    pub active_codec: Option<SourceKind>,
    pub sink_format: FrameFormat,
}

impl StateView {
    /// The bridge invariant: a source is active exactly while a last sample
    /// is held. Every transition preserves it.
    pub open spec fn wf(self) -> bool {
        self.active_codec is Some <==> self.last_sample is Some
    }
}

/// Stamping one sample for output: if the sample carries a buffer, the
/// output frame copies its payload, takes the current timestamp counter as
/// presentation time, one fixed frame interval as duration, and the locked
/// sink format — never the format the sample itself reports — and the
/// counter advances by that same interval. A sample without a buffer emits
/// nothing and leaves the counter untouched.
pub open spec fn emit_spec(s: StateView, sample: SampleView) -> (StateView, Option<OutputView>) {
    match sample.buffer {
        Some(bytes) => (
            StateView { timestamp_ns: s.timestamp_ns + FRAME_DURATION_NS, ..s },
            Some(
                OutputView {
                    pts_ns: s.timestamp_ns,
                    duration_ns: FRAME_DURATION_NS as int,
                    format: s.sink_format,
                    payload: bytes,
                },
            ),
        ),
        None => (s, None),
    }
}

/// A listener delivering a decoded frame: the delivering source becomes the
/// active one (last writer wins, no priority, no debounce), the sample and
/// its arrival time overwrite the held ones, and the sample is emitted.
/// The third component reports whether this delivery was a switchover.
pub open spec fn deliver_spec(s: StateView, source: SourceKind, sample: SampleView, now_ns: int) -> (
    StateView,
    Option<OutputView>,
    bool,
) {
    let switched = s.active_codec != Some(source);
    let updated = StateView {
        last_sample: Some(sample),
        last_update_ns: now_ns,
        active_codec: Some(source),
        ..s
    };
    let emitted = emit_spec(updated, sample);
    (emitted.0, emitted.1, switched)
}

/// One watchdog tick at time `now_ns`, with the frame pulled from the
/// fallback generator (if the pull succeeded). With a gap over the idle
/// threshold, the held sample and active source are cleared — the only
/// reset path, which lets a different source win the next switchover — and
/// the fallback frame is emitted. With a gap in the concealment window and
/// a source active, the held sample is re-emitted. Otherwise nothing
/// changes: the listeners are emitting on their own.
pub open spec fn tick_spec(s: StateView, now_ns: int, fallback: Option<SampleView>) -> (
    StateView,
    Option<OutputView>,
) {
    let elapsed = now_ns - s.last_update_ns;
    if elapsed > IDLE_THRESHOLD_NS {
        let cleared = if s.last_sample is Some {
            StateView { last_sample: None, active_codec: None, ..s }
        } else {
            s
        };
        match fallback {
            Some(f) => emit_spec(cleared, f),
            None => (cleared, None),
        }
    } else if elapsed > JITTER_THRESHOLD_NS {
        match s.last_sample {
            Some(held) => if s.active_codec is Some {
                emit_spec(s, held)
            } else {
                (s, None)
            },
            None => (s, None),
        }
    } else {
        (s, None)
    }
}

/// The shared bridge state: the last received frame, its arrival time, the
/// identity of the currently active source, and the monotonically advancing
/// output-timestamp counter, together with the output format locked at
/// startup. Times are nanoseconds on one monotonic clock.
pub struct BridgeState {
    pub last_sample: Option<FrameSample>,
    pub last_update_ns: u64,
    pub timestamp_ns: u64,
    pub active_codec: Option<SourceKind>,
    pub sink_format: FrameFormat,
}

impl View for BridgeState {
    type V = StateView;

    open spec fn view(&self) -> StateView {
        StateView {
            last_sample: opt_sample_view(self.last_sample),
            last_update_ns: self.last_update_ns as int,
            timestamp_ns: self.timestamp_ns as int,
            active_codec: self.active_codec,
            sink_format: self.sink_format,
        }
    }
}

impl BridgeState {
    /// Creates the bridge state at startup: no sample held, no source
    /// active, the timestamp counter at zero, and the output format locked
    /// to `sink_format` for the life of the state.
    pub fn new(now_ns: u64, sink_format: FrameFormat) -> (s: Self)
        ensures
            s@ == (StateView {
                last_sample: None,
                last_update_ns: now_ns as int,
                timestamp_ns: 0,
                active_codec: None,
                sink_format,
            }),
            s@.wf(),
    {
        BridgeState {
            last_sample: None,
            last_update_ns: now_ns,
            timestamp_ns: 0,
            active_codec: None,
            sink_format,
        }
    }

    /// Stamps one sample for the persistent sink, as `emit_spec` describes:
    /// the returned frame (if the sample has a buffer) copies the payload
    /// and carries the current counter as presentation time, one frame
    /// interval as duration, and the locked sink format, and the counter
    /// advances by exactly that interval. This is the only path that
    /// produces output frames; the caller pushes the result to the sink.
    pub fn push_sample_to_appsrc(&mut self, sample: &FrameSample) -> (out: Option<OutputFrame>)
        requires
            old(self).timestamp_ns + FRAME_DURATION_NS <= u64::MAX,
        ensures
            final(self)@ == emit_spec(old(self)@, sample@).0,
            opt_output_view(out) == emit_spec(old(self)@, sample@).1,
    {
        match &sample.buffer {
            Some(buf) => {
                let payload = clone_bytes(buf);
                let out = OutputFrame {
                    pts_ns: self.timestamp_ns,
                    duration_ns: FRAME_DURATION_NS,
                    format: self.sink_format,
                    payload,
                };
                self.timestamp_ns = self.timestamp_ns + FRAME_DURATION_NS;
                Some(out)
            },
            None => None,
        }
    }

    /// A listener delivering a decoded frame, as `deliver_spec` describes:
    /// the delivering source becomes active, the sample and arrival time
    /// overwrite the held ones, and the stamped output frame is returned
    /// for the caller to push. The boolean reports a switchover, true
    /// exactly when the delivering source was not already the active one.
    pub fn deliver_frame(&mut self, source: SourceKind, sample: FrameSample, now_ns: u64) -> (r: (
        Option<OutputFrame>,
        bool,
    ))
        requires
            old(self).timestamp_ns + FRAME_DURATION_NS <= u64::MAX,
        ensures
            final(self)@ == deliver_spec(old(self)@, source, sample@, now_ns as int).0,
            opt_output_view(r.0) == deliver_spec(old(self)@, source, sample@, now_ns as int).1,
            r.1 == deliver_spec(old(self)@, source, sample@, now_ns as int).2,
            final(self)@.wf(),
    {
        let switched = match self.active_codec {
            Some(active) => active != source,
            None => true,
        };
        self.active_codec = Some(source);
        self.last_update_ns = now_ns;
        let out = self.push_sample_to_appsrc(&sample);
        self.last_sample = Some(sample);
        (out, switched)
    }

    /// One watchdog tick, as `tick_spec` describes. The caller hands in the
    /// frame pulled from the fallback generator, or `None` when the pull
    /// failed, in which case an idle tick emits nothing. The returned frame,
    /// if any, is for the caller to push.
    pub fn watchdog_tick(&mut self, now_ns: u64, fallback: Option<FrameSample>) -> (out: Option<
        OutputFrame,
    >)
        requires
            now_ns >= old(self).last_update_ns,
            old(self).timestamp_ns + FRAME_DURATION_NS <= u64::MAX,
        ensures
            final(self)@ == tick_spec(old(self)@, now_ns as int, opt_sample_view(fallback)).0,
            opt_output_view(out) == tick_spec(
                old(self)@,
                now_ns as int,
                opt_sample_view(fallback),
            ).1,
            old(self)@.wf() ==> final(self)@.wf(),
    {
        let elapsed = now_ns - self.last_update_ns;
        if elapsed > IDLE_THRESHOLD_NS {
            if self.last_sample.is_some() {
                self.last_sample = None;
                self.active_codec = None;
            }
            match fallback {
                Some(f) => self.push_sample_to_appsrc(&f),
                None => None,
            }
        } else if elapsed > JITTER_THRESHOLD_NS {
            match self.last_sample.take() {
                Some(held) => {
                    let out = if self.active_codec.is_some() {
                        self.push_sample_to_appsrc(&held)
                    } else {
                        None
                    };
                    self.last_sample = Some(held);
                    out
                },
                None => None,
            }
        } else {
            None
        }
    }
}

} // verus!
