use v4l2_bridge::pipeline::{
    make_mjpeg_pipeline_str, make_rtsp_pipeline_str, make_saver_pipeline_str,
    make_sink_pipeline_str, make_source_pipeline_str,
};

#[test]
fn test_sink_pipeline_gen() {
    let s = make_sink_pipeline_str("/dev/video20");
    assert!(s.contains("/dev/video20"));
    assert!(s.contains("v4l2sink"));
}

#[test]
fn test_source_pipeline_gen() {
    let h264 = make_source_pipeline_str(5000, "h264");
    assert!(h264.contains("5000"));
    assert!(h264.contains("h264parse"));
    assert!(h264.contains("videoflip method=clockwise"));

    let h265 = make_source_pipeline_str(5001, "h265");
    assert!(h265.contains("5001"));
    assert!(h265.contains("h265parse"));
    assert!(h264.contains("videoflip method=clockwise"));
}

#[test]
fn test_rtsp_pipeline_gen() {
    let url = "rtsp://10.0.0.6:8554/live.sdp";
    let s = make_rtsp_pipeline_str(url);
    assert!(s.contains(url));
    assert!(s.contains("rtspsrc"));
    assert!(s.contains("videoflip method=clockwise"));
}

#[test]
fn test_sink_pipeline_exact() {
    let s = make_sink_pipeline_str("/dev/video10");
    assert_eq!(
        s,
        "appsrc name=mysrc is-live=true format=time min-latency=0 caps=\"video/x-raw,format=I420,width=1920,height=1080,framerate=30/1,pixel-aspect-ratio=1/1\" ! videoconvert ! videoscale ! video/x-raw,format=YUY2,width=1920,height=1080 ! v4l2sink device=/dev/video10 sync=false"
    );
}

#[test]
fn test_saver_pipeline_exact() {
    assert_eq!(
        make_saver_pipeline_str(),
        "videotestsrc pattern=smpte ! videoscale ! video/x-raw,format=I420,width=1920,height=1080 ! appsink name=saver sync=false drop=true max-buffers=1"
    );
}

#[test]
fn test_source_pipeline_exact() {
    let s = make_source_pipeline_str(5000, "h264");
    assert_eq!(
        s,
        "srtsrc uri=srt://:5000?mode=listener&latency=20&poll-timeout=100 ! tsdemux ! h264parse ! avdec_h264 max-threads=4 ! videoflip method=clockwise ! videoconvert ! video/x-raw,pixel-aspect-ratio=1/1 ! videoscale add-borders=true ! video/x-raw,format=I420,width=1920,height=1080,pixel-aspect-ratio=1/1 ! appsink name=mysink sync=false drop=true max-buffers=1"
    );
}

#[test]
fn test_source_pipeline_h265_decoder() {
    let s = make_source_pipeline_str(5001, "h265");
    assert!(s.contains("h265parse ! avdec_h265"));
    assert!(!s.contains("h264parse"));
    // any label other than "h264" selects the H.265 pair
    let other = make_source_pipeline_str(4000, "mjpeg");
    assert!(other.contains("h265parse ! avdec_h265"));
}

#[test]
fn test_source_pipeline_port_digits() {
    assert!(make_source_pipeline_str(0, "h264").contains("srt://:0?mode=listener"));
    assert!(make_source_pipeline_str(65535, "h264").contains("srt://:65535?mode=listener"));
    assert!(make_source_pipeline_str(7, "h264").contains("srt://:7?mode=listener"));
}

#[test]
fn test_mjpeg_pipeline_gen() {
    let url = "http://192.168.1.5:8080/";
    let s = make_mjpeg_pipeline_str(url);
    assert!(s.starts_with("souphttpsrc location=http://192.168.1.5:8080/ is-live=true"));
    assert!(s.contains("multipartdemux ! jpegdec"));
    assert!(s.ends_with("appsink name=mysink sync=false drop=true max-buffers=1"));
}
