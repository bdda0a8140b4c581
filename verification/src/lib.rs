//! Stream arbitration and keep-alive engine for a virtual capture device.
//!
//! Several independent, unreliable network producers feed decoded frames to
//! one shared [`state::BridgeState`]. A watchdog inspects the staleness of
//! that state and conceals short dropouts by repeating the last frame, or
//! falls back to a synthetic pattern during prolonged silence. Every emitted
//! frame is re-stamped on a fixed cadence with a format locked at startup,
//! so downstream always sees a strictly paced, never-renegotiated stream.

use vstd::prelude::*;

pub mod frame;
pub mod pipeline;
pub mod source;
pub mod state;
pub mod strutil;
pub mod trace;

verus! {

/// Fixed output cadence: one frame every 1/30 s, in nanoseconds.
pub const FRAME_DURATION_NS: u64 = 33_333_333;

/// A gap longer than this (200 ms) puts the watchdog into its concealment
/// window, where the last received frame is repeated.
pub const JITTER_THRESHOLD_NS: u64 = 200_000_000;

/// A gap longer than this (500 ms) marks the stream idle: the bridge state
/// is cleared and the synthetic fallback pattern takes over.
pub const IDLE_THRESHOLD_NS: u64 = 500_000_000;

/// Period of the watchdog ticker, in milliseconds.
pub const WATCHDOG_PERIOD_MS: u64 = 33;

/// Width of the locked output format, in pixels.
pub const OUTPUT_WIDTH: u32 = 1920;

/// Height of the locked output format, in pixels.
pub const OUTPUT_HEIGHT: u32 = 1080;

} // verus!
