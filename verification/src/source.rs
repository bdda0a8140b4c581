//! Source listener identities and the restart policy of their loops.
//!
//! Each listener owns a restart loop around an external decode pipeline:
//! construct the pipeline, stream until a terminal error or end-of-stream,
//! tear it down, wait a bounded delay, reconstruct. The delays here are the
//! decisions of those loops; the blocking waits themselves happen outside
//! the library.

use vstd::prelude::*;

verus! {

/// Identity of one source listener. The two codec-specific listeners accept
/// pushed network streams; the MJPEG and RTSP listeners pull from a URL.
#[derive(Clone, Copy, Debug, PartialEq, Eq, Structural)]
pub enum SourceKind {
    H264,
    H265,
    Mjpeg,
    Rtsp,
}

/// What ended one round of a listener's restart loop: the pipeline could not
/// be constructed at all, or it ran and then hit a terminal error or
/// end-of-stream.
#[derive(Clone, Copy, Debug, PartialEq, Eq, Structural)]
pub enum ListenerEvent {
    LaunchFailed,
    Disconnected,
}

/// The delay, in milliseconds, before a listener reconstructs its pipeline.
pub open spec fn restart_delay_spec(kind: SourceKind, event: ListenerEvent) -> int {
    match event {
        ListenerEvent::LaunchFailed => match kind {
            SourceKind::H264 | SourceKind::H265 => 1010,
            SourceKind::Mjpeg | SourceKind::Rtsp => 2000,
        },
        ListenerEvent::Disconnected => 500,
    }
}

/// How long a listener waits before reconstructing its pipeline. After a
/// terminal error or end-of-stream the stream is rebuilt after half a
/// second, inside the policy's bounded window of hundreds of milliseconds
/// to one second — prompt enough to recover, slow enough not to hammer the
/// transport. A failed construction backs off for about a second on the
/// network listeners and two on the pull listeners. Recovery is purely
/// local: no event here is fatal.
pub fn restart_delay_ms(kind: SourceKind, event: ListenerEvent) -> (d: u64)
    ensures
        d == restart_delay_spec(kind, event),
        event == ListenerEvent::Disconnected ==> 100 <= d <= 1000,
{
    match event {
        ListenerEvent::LaunchFailed => match kind {
            SourceKind::H264 | SourceKind::H265 => 1010,
            SourceKind::Mjpeg | SourceKind::Rtsp => 2000,
        },
        ListenerEvent::Disconnected => 500,
    }
}

/// The codec label of a source, as it appears in pipeline descriptions.
pub open spec fn codec_name_spec(kind: SourceKind) -> Seq<char> {
    match kind {
        SourceKind::H264 => "h264"@,
        SourceKind::H265 => "h265"@,
        SourceKind::Mjpeg => "mjpeg"@,
        SourceKind::Rtsp => "rtsp"@,
    }
}

/// Returns the codec label of a source.
pub fn codec_name(kind: SourceKind) -> (s: &'static str)
    ensures
        s@ == codec_name_spec(kind),
{
    match kind {
        SourceKind::H264 => "h264",
        SourceKind::H265 => "h265",
        SourceKind::Mjpeg => "mjpeg",
        SourceKind::Rtsp => "rtsp",
    }
}

/// The label of an optional active source: the codec label, or `"none"`
/// while no source is active.
pub open spec fn active_name_spec(active: Option<SourceKind>) -> Seq<char> {
    match active {
        Some(kind) => codec_name_spec(kind),
        None => "none"@,
    }
}

/// Returns the label of an optional active source.
pub fn active_name(active: Option<SourceKind>) -> (s: &'static str)
    ensures
        s@ == active_name_spec(active),
{
    match active {
        Some(kind) => codec_name(kind),
        None => "none",
    }
}

} // verus!
