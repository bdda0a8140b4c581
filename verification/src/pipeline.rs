//! Builders for the declarative pipeline descriptions handed to the
//! external media engine: the persistent output sink, the synthetic
//! fallback generator, and one description per source listener. Each
//! builder's contract pins the exact text produced.

use crate::strutil::{append_dec_u16, dec_str, str_equal};
use vstd::prelude::*;
use vstd::string::StringExecFns;

verus! {

/// The description of the persistent sink pipeline for the given output
/// device: a live application source whose capabilities are fixed once
/// ("caps lockdown"), converted and scaled into the device.
pub open spec fn sink_pipeline_spec(device: Seq<char>) -> Seq<char> {
    "appsrc name=mysrc is-live=true format=time min-latency=0 caps=\"video/x-raw,format=I420,width=1920,height=1080,framerate=30/1,pixel-aspect-ratio=1/1\" ! videoconvert ! videoscale ! video/x-raw,format=YUY2,width=1920,height=1080 ! v4l2sink device="@
        + device + " sync=false"@
}

/// Builds the persistent sink pipeline description for `device`.
pub fn make_sink_pipeline_str(device: &str) -> (r: String)
    ensures
        r@ == sink_pipeline_spec(device@),
{
    let mut s = String::from_str(
        "appsrc name=mysrc is-live=true format=time min-latency=0 caps=\"video/x-raw,format=I420,width=1920,height=1080,framerate=30/1,pixel-aspect-ratio=1/1\" ! videoconvert ! videoscale ! video/x-raw,format=YUY2,width=1920,height=1080 ! v4l2sink device=",
    );
    s.append(device);
    s.append(" sync=false");
    s
}

/// The description of the fallback generator pipeline: a free-running test
/// pattern scaled to the locked output format, pollable on demand.
pub open spec fn saver_pipeline_spec() -> Seq<char> {
    "videotestsrc pattern=smpte ! videoscale ! video/x-raw,format=I420,width=1920,height=1080 ! appsink name=saver sync=false drop=true max-buffers=1"@
}

/// Builds the fallback generator pipeline description.
pub fn make_saver_pipeline_str() -> (r: String)
    ensures
        r@ == saver_pipeline_spec(),
{
    String::from_str(
        "videotestsrc pattern=smpte ! videoscale ! video/x-raw,format=I420,width=1920,height=1080 ! appsink name=saver sync=false drop=true max-buffers=1",
    )
}

/// The description of a codec-specific network listener pipeline on the
/// given port: the parser and decoder pair is chosen by the codec label,
/// H.265 for `"h265"` and H.264 for any other label.
pub open spec fn source_pipeline_spec(port: u16, codec: Seq<char>) -> Seq<char> {
    "srtsrc uri=srt://:"@ + dec_str(port as nat)
        + "?mode=listener&latency=20&poll-timeout=100 ! tsdemux ! "@ + (if codec == "h264"@ {
        "h264parse ! avdec_h264"@
    } else {
        "h265parse ! avdec_h265"@
    })
        + " max-threads=4 ! videoflip method=clockwise ! videoconvert ! video/x-raw,pixel-aspect-ratio=1/1 ! videoscale add-borders=true ! video/x-raw,format=I420,width=1920,height=1080,pixel-aspect-ratio=1/1 ! appsink name=mysink sync=false drop=true max-buffers=1"@
}

/// Builds the listener pipeline description for one network source.
pub fn make_source_pipeline_str(port: u16, codec: &str) -> (r: String)
    ensures
        r@ == source_pipeline_spec(port, codec@),
{
    let mut s = String::from_str("srtsrc uri=srt://:");
    append_dec_u16(&mut s, port);
    s.append("?mode=listener&latency=20&poll-timeout=100 ! tsdemux ! ");
    if str_equal(codec, "h264") {
        s.append("h264parse ! avdec_h264");
    } else {
        s.append("h265parse ! avdec_h265");
    }
    s.append(
        " max-threads=4 ! videoflip method=clockwise ! videoconvert ! video/x-raw,pixel-aspect-ratio=1/1 ! videoscale add-borders=true ! video/x-raw,format=I420,width=1920,height=1080,pixel-aspect-ratio=1/1 ! appsink name=mysink sync=false drop=true max-buffers=1",
    );
    s
}

/// The description of the HTTP-pull listener pipeline for the given URL.
pub open spec fn mjpeg_pipeline_spec(url: Seq<char>) -> Seq<char> {
    "souphttpsrc location="@ + url
        + " is-live=true do-timestamp=true keep-alive=true ! multipartdemux ! jpegdec ! videoconvert ! video/x-raw,pixel-aspect-ratio=1/1 ! videoscale add-borders=true ! video/x-raw,format=I420,width=1920,height=1080,pixel-aspect-ratio=1/1 ! appsink name=mysink sync=false drop=true max-buffers=1"@
}

/// Builds the HTTP-pull listener pipeline description for `url`.
pub fn make_mjpeg_pipeline_str(url: &str) -> (r: String)
    ensures
        r@ == mjpeg_pipeline_spec(url@),
{
    let mut s = String::from_str("souphttpsrc location=");
    s.append(url);
    s.append(
        " is-live=true do-timestamp=true keep-alive=true ! multipartdemux ! jpegdec ! videoconvert ! video/x-raw,pixel-aspect-ratio=1/1 ! videoscale add-borders=true ! video/x-raw,format=I420,width=1920,height=1080,pixel-aspect-ratio=1/1 ! appsink name=mysink sync=false drop=true max-buffers=1",
    );
    s
}

/// The description of the RTSP-pull listener pipeline for the given URL.
pub open spec fn rtsp_pipeline_spec(url: Seq<char>) -> Seq<char> {
    "rtspsrc location="@ + url
        + " latency=20 ! rtph264depay ! h264parse ! avdec_h264 ! videoflip method=clockwise ! videoconvert ! video/x-raw,pixel-aspect-ratio=1/1 ! videoscale add-borders=true ! video/x-raw,format=I420,width=1920,height=1080,pixel-aspect-ratio=1/1 ! appsink name=mysink sync=false drop=true max-buffers=1"@
}

/// Builds the RTSP-pull listener pipeline description for `url`.
pub fn make_rtsp_pipeline_str(url: &str) -> (r: String)
    ensures
        r@ == rtsp_pipeline_spec(url@),
{
    let mut s = String::from_str("rtspsrc location=");
    s.append(url);
    s.append(
        " latency=20 ! rtph264depay ! h264parse ! avdec_h264 ! videoflip method=clockwise ! videoconvert ! video/x-raw,pixel-aspect-ratio=1/1 ! videoscale add-borders=true ! video/x-raw,format=I420,width=1920,height=1080,pixel-aspect-ratio=1/1 ! appsink name=mysink sync=false drop=true max-buffers=1",
    );
    s
}

} // verus!
