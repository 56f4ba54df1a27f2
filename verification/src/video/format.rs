//! Picture sizes, pixel formats, codecs and encoded frames.
use crate::text::owned;
use vstd::prelude::*;

verus! {

/// The size of a picture.
#[derive(Debug, Clone, Copy, PartialEq, Eq, Structural)]
pub struct Resolution {
    pub width: u32,
    pub height: u32,
}

impl Resolution {
    /// A size.
    pub fn new(width: u32, height: u32) -> (r: Self)
        ensures
            r == (Resolution { width, height }),
    {
        Resolution { width, height }
    }

    /// 1920 by 1080.
    pub fn hd1080() -> (r: Self)
        ensures
            r == (Resolution { width: 1920, height: 1080 }),
    {
        Resolution { width: 1920, height: 1080 }
    }

    /// 1280 by 720.
    pub fn hd720() -> (r: Self)
        ensures
            r == (Resolution { width: 1280, height: 720 }),
    {
        Resolution { width: 1280, height: 720 }
    }
}

/// How a capture device lays out its pixels.
#[derive(Debug, Clone, Copy, PartialEq, Eq, Structural)]
pub enum PixelFormat {
    Mjpeg,
    Nv12,
}

/// What a video encoder produces.
#[derive(Debug, Clone, Copy, PartialEq, Eq, Structural)]
pub enum VideoEncoderType {
    H264,
    H265,
    VP8,
    VP9,
}

/// The codec that a client is served with.
#[derive(Debug, Clone, Copy, PartialEq, Eq, Structural)]
pub enum VideoCodecType {
    H264,
    H265,
    VP8,
    VP9,
}

/// One frame as an encoder produced it.
#[derive(Debug, Clone)]
pub struct EncodedVideoFrame {
    pub data: Vec<u8>,
    pub pts_ms: i64,
    pub is_keyframe: bool,
    pub sequence: u64,
    /// How long the frame lasts, in nanoseconds.
    pub duration_ns: u128,
    pub codec: VideoEncoderType,
}

/// The name of a codec.
pub open spec fn codec_name(codec: VideoCodecType) -> Seq<char> {
    match codec {
        VideoCodecType::H264 => "h264"@,
        VideoCodecType::H265 => "h265"@,
        VideoCodecType::VP8 => "vp8"@,
        VideoCodecType::VP9 => "vp9"@,
    }
}

/// The name of a codec.
pub fn codec_to_string(codec: VideoCodecType) -> (r: String)
    ensures
        r@ == codec_name(codec),
{
    match codec {
        VideoCodecType::H264 => owned("h264"),
        VideoCodecType::H265 => owned("h265"),
        VideoCodecType::VP8 => owned("vp8"),
        VideoCodecType::VP9 => owned("vp9"),
    }
}

/// Every codec has its own name.
pub proof fn every_codec_has_its_name(codec: VideoCodecType, r: String)
    requires
        call_ensures(codec_to_string, (codec,), r),
    ensures
        codec == VideoCodecType::H264 ==> r@ == "h264"@,
        codec == VideoCodecType::H265 ==> r@ == "h265"@,
        codec == VideoCodecType::VP8 ==> r@ == "vp8"@,
        codec == VideoCodecType::VP9 ==> r@ == "vp9"@,
{
}

/// A size has the width and the height that it was made of.
pub proof fn a_size_is_what_it_was_made_of(width: u32, height: u32, r: Resolution)
    ensures
        call_ensures(Resolution::new, (width, height), r) ==> r.width == width && r.height == height,
        call_ensures(Resolution::hd1080, (), r) ==> r.width == 1920 && r.height == 1080,
        call_ensures(Resolution::hd720, (), r) ==> r.width == 1280 && r.height == 720,
{
}

} // verus!
