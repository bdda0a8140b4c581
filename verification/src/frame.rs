//! Frame samples and output buffers, modelled as plain values.
//!
//! A frame sample is what a source listener hands to the bridge: the decoded
//! payload bytes (if the sample carries a buffer at all) together with the
//! format metadata the producer reports. An output frame is what the bridge
//! hands to the persistent sink: a fresh copy of the payload stamped with a
//! presentation time, a fixed duration, and the locked output format.

use vstd::prelude::*;

verus! {

/// Pixel layout of a raw video frame.
#[derive(Clone, Copy, Debug, PartialEq, Eq, Structural)]
pub enum PixelFormat {
    I420,
    Yuy2,
}

/// Format descriptor carried alongside a frame buffer: pixel layout and
/// dimensions.
#[derive(Clone, Copy, Debug, PartialEq, Eq, Structural)]
pub struct FrameFormat {
    pub pixel_format: PixelFormat,
    pub width: u32,
    pub height: u32,
}

/// Mathematical model of a frame sample: the payload bytes, if the sample
/// carries a buffer, and the format metadata attached to it.
pub ghost struct SampleView {
    pub buffer: Option<Seq<u8>>,
    pub format: FrameFormat,
}

/// One decoded frame as handed to the bridge. A sample may lack a buffer,
/// in which case the bridge records it but emits nothing for it.
pub struct FrameSample {
    pub buffer: Option<Vec<u8>>,
    pub format: FrameFormat,
}

impl View for FrameSample {
    type V = SampleView;

    open spec fn view(&self) -> SampleView {
        SampleView {
            buffer: match self.buffer {
                Some(b) => Some(b@),
                None => None,
            },
            format: self.format,
        }
    }
}

/// The view of an optional sample, for contracts over `Option<FrameSample>`.
pub open spec fn opt_sample_view(s: Option<FrameSample>) -> Option<SampleView> {
    match s {
        Some(f) => Some(f@),
        None => None,
    }
}

/// Mathematical model of an emitted output frame.
pub ghost struct OutputView {
    pub pts_ns: int,
    pub duration_ns: int,
    pub format: FrameFormat,
    pub payload: Seq<u8>,
}

/// One buffer as pushed to the persistent sink: a copy of a sample's payload
/// stamped with a presentation time, a duration of one frame interval, and
/// the output format locked at startup.
pub struct OutputFrame {
    pub pts_ns: u64,
    pub duration_ns: u64,
    pub format: FrameFormat,
    pub payload: Vec<u8>,
}

impl View for OutputFrame {
    type V = OutputView;

    open spec fn view(&self) -> OutputView {
        OutputView {
            pts_ns: self.pts_ns as int,
            duration_ns: self.duration_ns as int,
            format: self.format,
            payload: self.payload@,
        }
    }
}

/// The view of an optional output frame, for contracts over
/// `Option<OutputFrame>`.
pub open spec fn opt_output_view(o: Option<OutputFrame>) -> Option<OutputView> {
    match o {
        Some(f) => Some(f@),
        None => None,
    }
}

/// Copies a payload byte for byte.
pub(crate) fn clone_bytes(v: &Vec<u8>) -> (r: Vec<u8>)
    ensures
        r@ == v@,
{
    let r = v.clone();
    proof {
        assert forall|i: int| 0 <= i < v@.len() implies r@[i] == v@[i] by {
            assert(cloned::<u8>(v@[i], r@[i]));
        }
        assert(r@ =~= v@);
    }
    r
}

} // verus!
