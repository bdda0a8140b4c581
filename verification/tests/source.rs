use v4l2_bridge::source::{active_name, codec_name, restart_delay_ms, ListenerEvent, SourceKind};

#[test]
fn test_codec_names() {
    assert_eq!(codec_name(SourceKind::H264), "h264");
    assert_eq!(codec_name(SourceKind::H265), "h265");
    assert_eq!(codec_name(SourceKind::Mjpeg), "mjpeg");
    assert_eq!(codec_name(SourceKind::Rtsp), "rtsp");
}

#[test]
fn test_active_name_of_idle_state() {
    assert_eq!(active_name(None), "none");
    assert_eq!(active_name(Some(SourceKind::H264)), "h264");
}

#[test]
fn test_restart_delays() {
    assert_eq!(restart_delay_ms(SourceKind::H264, ListenerEvent::LaunchFailed), 1010);
    assert_eq!(restart_delay_ms(SourceKind::H265, ListenerEvent::LaunchFailed), 1010);
    assert_eq!(restart_delay_ms(SourceKind::Mjpeg, ListenerEvent::LaunchFailed), 2000);
    assert_eq!(restart_delay_ms(SourceKind::Rtsp, ListenerEvent::LaunchFailed), 2000);
    assert_eq!(restart_delay_ms(SourceKind::H264, ListenerEvent::Disconnected), 500);
    assert_eq!(restart_delay_ms(SourceKind::H265, ListenerEvent::Disconnected), 500);
    assert_eq!(restart_delay_ms(SourceKind::Mjpeg, ListenerEvent::Disconnected), 500);
    assert_eq!(restart_delay_ms(SourceKind::Rtsp, ListenerEvent::Disconnected), 500);
}

#[test]
fn test_terminal_restart_delay_bounded() {
    for kind in [SourceKind::H264, SourceKind::H265, SourceKind::Mjpeg, SourceKind::Rtsp] {
        let d = restart_delay_ms(kind, ListenerEvent::Disconnected);
        assert!((100..=1000).contains(&d));
    }
}
