use v4l2_bridge::frame::{FrameFormat, FrameSample, PixelFormat};
use v4l2_bridge::source::SourceKind;
use v4l2_bridge::state::BridgeState;
use v4l2_bridge::{FRAME_DURATION_NS, IDLE_THRESHOLD_NS, JITTER_THRESHOLD_NS};

const MS: u64 = 1_000_000;

fn fmt() -> FrameFormat {
    FrameFormat { pixel_format: PixelFormat::I420, width: 1920, height: 1080 }
}

fn sample(bytes: &[u8]) -> FrameSample {
    FrameSample { buffer: Some(bytes.to_vec()), format: fmt() }
}

#[test]
fn test_deliver_stamps_and_advances() {
    let mut s = BridgeState::new(0, fmt());
    assert_eq!(s.timestamp_ns, 0);
    let (out, switched) = s.deliver_frame(SourceKind::H264, sample(&[1, 2, 3]), 10 * MS);
    assert!(switched);
    let out = out.unwrap();
    assert_eq!(out.pts_ns, 0);
    assert_eq!(out.duration_ns, FRAME_DURATION_NS);
    assert_eq!(out.payload, vec![1, 2, 3]);
    assert_eq!(s.timestamp_ns, FRAME_DURATION_NS);
    assert_eq!(s.active_codec, Some(SourceKind::H264));
    assert_eq!(s.last_update_ns, 10 * MS);
}

#[test]
fn test_switch_event_once_per_transition() {
    let mut s = BridgeState::new(0, fmt());
    let (_, sw1) = s.deliver_frame(SourceKind::H264, sample(&[1]), 10 * MS);
    let (_, sw2) = s.deliver_frame(SourceKind::H264, sample(&[2]), 40 * MS);
    let (_, sw3) = s.deliver_frame(SourceKind::H265, sample(&[3]), 70 * MS);
    let (_, sw4) = s.deliver_frame(SourceKind::H265, sample(&[4]), 100 * MS);
    assert!(sw1);
    assert!(!sw2);
    assert!(sw3);
    assert!(!sw4);
    assert_eq!(s.active_codec, Some(SourceKind::H265));
}

#[test]
fn test_output_timestamps_strictly_paced() {
    let mut s = BridgeState::new(0, fmt());
    let mut pts = Vec::new();
    for i in 0..5u64 {
        let src = if i % 2 == 0 { SourceKind::H264 } else { SourceKind::Mjpeg };
        let (out, _) = s.deliver_frame(src, sample(&[i as u8]), i * 30 * MS);
        pts.push(out.unwrap().pts_ns);
    }
    // a concealment tick and a fallback tick keep the same cadence
    let out = s.watchdog_tick(4 * 30 * MS + 250 * MS, None).unwrap();
    pts.push(out.pts_ns);
    let out = s.watchdog_tick(4 * 30 * MS + 800 * MS, Some(sample(&[9]))).unwrap();
    pts.push(out.pts_ns);
    for (i, p) in pts.iter().enumerate() {
        assert_eq!(*p, i as u64 * FRAME_DURATION_NS);
    }
}

#[test]
fn test_bufferless_sample_emits_nothing() {
    let mut s = BridgeState::new(0, fmt());
    let empty = FrameSample { buffer: None, format: fmt() };
    let (out, switched) = s.deliver_frame(SourceKind::Rtsp, empty, 5 * MS);
    assert!(switched);
    assert!(out.is_none());
    assert_eq!(s.timestamp_ns, 0);
    assert_eq!(s.active_codec, Some(SourceKind::Rtsp));
}

#[test]
fn test_quiet_tick_within_jitter_threshold() {
    let mut s = BridgeState::new(0, fmt());
    s.deliver_frame(SourceKind::H264, sample(&[5]), 100 * MS);
    let out = s.watchdog_tick(100 * MS + JITTER_THRESHOLD_NS, Some(sample(&[9])));
    assert!(out.is_none());
    assert_eq!(s.active_codec, Some(SourceKind::H264));
    assert_eq!(s.timestamp_ns, FRAME_DURATION_NS);
}

#[test]
fn test_jitter_tick_repeats_last_sample() {
    let mut s = BridgeState::new(0, fmt());
    s.deliver_frame(SourceKind::H264, sample(&[4, 4]), 100 * MS);
    let out = s.watchdog_tick(100 * MS + JITTER_THRESHOLD_NS + MS, Some(sample(&[9])));
    let out = out.unwrap();
    // the last received payload, not the fallback pattern
    assert_eq!(out.payload, vec![4, 4]);
    assert_eq!(out.pts_ns, FRAME_DURATION_NS);
    assert_eq!(s.active_codec, Some(SourceKind::H264));
    assert_eq!(s.last_update_ns, 100 * MS);
}

#[test]
fn test_idle_tick_clears_and_emits_fallback() {
    let mut s = BridgeState::new(0, fmt());
    s.deliver_frame(SourceKind::H265, sample(&[4]), 100 * MS);
    let out = s.watchdog_tick(100 * MS + IDLE_THRESHOLD_NS + MS, Some(sample(&[8, 8])));
    let out = out.unwrap();
    assert_eq!(out.payload, vec![8, 8]);
    assert_eq!(s.active_codec, None);
    assert!(s.last_sample.is_none());
}

#[test]
fn test_idle_tick_with_failed_fallback_pull() {
    let mut s = BridgeState::new(0, fmt());
    s.deliver_frame(SourceKind::H265, sample(&[4]), 100 * MS);
    let ts_before = s.timestamp_ns;
    let out = s.watchdog_tick(100 * MS + IDLE_THRESHOLD_NS + MS, None);
    assert!(out.is_none());
    assert_eq!(s.active_codec, None);
    assert!(s.last_sample.is_none());
    assert_eq!(s.timestamp_ns, ts_before);
}

#[test]
fn test_caps_locked_against_sample_format() {
    let sink_format = fmt();
    let mut s = BridgeState::new(0, sink_format);
    let odd_format = FrameFormat { pixel_format: PixelFormat::Yuy2, width: 640, height: 480 };
    let odd_sample = FrameSample { buffer: Some(vec![1]), format: odd_format };
    let (out, _) = s.deliver_frame(SourceKind::Mjpeg, odd_sample, 10 * MS);
    // the emitted frame carries the locked sink format, not the sample's
    assert_eq!(out.unwrap().format, sink_format);
    assert_eq!(s.sink_format, sink_format);
}

#[test]
fn test_scenario_stream_stall_fallback_switchover() {
    let mut s = BridgeState::new(0, fmt());
    // source A streams a frame every 30 ms for 2 s
    let mut emitted: u64 = 0;
    let mut last_arrival: u64 = 0;
    for i in 0..67u64 {
        let t = i * 30 * MS;
        let (out, switched) = s.deliver_frame(SourceKind::H264, sample(&[1]), t);
        assert_eq!(switched, i == 0);
        assert!(out.is_some());
        emitted += 1;
        last_arrival = t;
    }
    assert_eq!(s.active_codec, Some(SourceKind::H264));
    // A stops; 250 ms later the watchdog repeats A's last frame
    let out = s.watchdog_tick(last_arrival + 250 * MS, Some(sample(&[9]))).unwrap();
    assert_eq!(out.payload, vec![1]);
    assert_eq!(out.pts_ns, emitted * FRAME_DURATION_NS);
    emitted += 1;
    assert_eq!(s.active_codec, Some(SourceKind::H264));
    // past the 500 ms mark the state resets and the fallback pattern appears
    let out = s.watchdog_tick(last_arrival + 550 * MS, Some(sample(&[9]))).unwrap();
    assert_eq!(out.payload, vec![9]);
    assert_eq!(out.pts_ns, emitted * FRAME_DURATION_NS);
    emitted += 1;
    assert_eq!(s.active_codec, None);
    // source B delivers at 600 ms and wins immediately
    let (out, switched) = s.deliver_frame(SourceKind::H265, sample(&[2]), last_arrival + 600 * MS);
    assert!(switched);
    assert_eq!(out.unwrap().pts_ns, emitted * FRAME_DURATION_NS);
    assert_eq!(s.active_codec, Some(SourceKind::H265));
}
