//! The values that the encoder library trades in.
use vstd::prelude::*;

verus! {

/// What the encoder produces.
#[derive(Debug, Clone, Copy, PartialEq, Eq, Structural)]
pub enum VlCodecId {
    Unset,
    Vp8,
    H261,
    H263,
    H264,
    H265,
}

impl VlCodecId {
    /// The library's number for a codec.
    pub open spec fn number(self) -> i32 {
        match self {
            VlCodecId::Unset => 0,
            VlCodecId::Vp8 => 1,
            VlCodecId::H261 => 2,
            VlCodecId::H263 => 3,
            VlCodecId::H264 => 4,
            VlCodecId::H265 => 5,
        }
    }

    /// The library's number for the codec.
    pub fn code(self) -> (r: i32)
        ensures
            r == self.number(),
    {
        match self {
            VlCodecId::Unset => 0,
            VlCodecId::Vp8 => 1,
            VlCodecId::H261 => 2,
            VlCodecId::H263 => 3,
            VlCodecId::H264 => 4,
            VlCodecId::H265 => 5,
        }
    }
}

/// The layout of the pictures that the encoder is given.
#[derive(Debug, Clone, Copy, PartialEq, Eq, Structural)]
pub enum VlImgFormat {
    Unset,
    Nv12,
    Nv21,
    Yuv420p,
    Yv12,
    Rgb888,
    Rgba8888,
    P010,
}

impl VlImgFormat {
    /// The library's number for a layout.
    pub open spec fn number(self) -> i32 {
        match self {
            VlImgFormat::Unset => 0,
            VlImgFormat::Nv12 => 1,
            VlImgFormat::Nv21 => 2,
            VlImgFormat::Yuv420p => 3,
            VlImgFormat::Yv12 => 4,
            VlImgFormat::Rgb888 => 5,
            VlImgFormat::Rgba8888 => 6,
            VlImgFormat::P010 => 7,
        }
    }

    /// The library's number for the layout.
    pub fn code(self) -> (r: i32)
        ensures
            r == self.number(),
    {
        match self {
            VlImgFormat::Unset => 0,
            VlImgFormat::Nv12 => 1,
            VlImgFormat::Nv21 => 2,
            VlImgFormat::Yuv420p => 3,
            VlImgFormat::Yv12 => 4,
            VlImgFormat::Rgb888 => 5,
            VlImgFormat::Rgba8888 => 6,
            VlImgFormat::P010 => 7,
        }
    }
}

/// The kind of frame that is asked for.
#[derive(Debug, Clone, Copy, PartialEq, Eq, Structural)]
pub enum VlFrameType {
    Unset,
    Auto,
    Idr,
    I,
    P,
    B,
    DroppableP,
}

impl VlFrameType {
    /// The library's number for a kind.
    pub open spec fn number(self) -> i32 {
        match self {
            VlFrameType::Unset => 0,
            VlFrameType::Auto => 1,
            VlFrameType::Idr => 2,
            VlFrameType::I => 3,
            VlFrameType::P => 4,
            VlFrameType::B => 5,
            VlFrameType::DroppableP => 6,
        }
    }

    /// The library's number for the kind.
    pub fn code(self) -> (r: i32)
        ensures
            r == self.number(),
    {
        match self {
            VlFrameType::Unset => 0,
            VlFrameType::Auto => 1,
            VlFrameType::Idr => 2,
            VlFrameType::I => 3,
            VlFrameType::P => 4,
            VlFrameType::B => 5,
            VlFrameType::DroppableP => 6,
        }
    }
}

/// Where the encoder finds a picture.
#[derive(Debug, Clone, Copy, PartialEq, Eq, Structural)]
pub enum VlBufferType {
    Vmalloc,
    Canvas,
    Physical,
    Dma,
}

impl VlBufferType {
    /// The library's number for a place.
    pub open spec fn number(self) -> i32 {
        match self {
            VlBufferType::Vmalloc => 0,
            VlBufferType::Canvas => 1,
            VlBufferType::Physical => 2,
            VlBufferType::Dma => 3,
        }
    }

    /// The library's number for the place.
    pub fn code(self) -> (r: i32)
        ensures
            r == self.number(),
    {
        match self {
            VlBufferType::Vmalloc => 0,
            VlBufferType::Canvas => 1,
            VlBufferType::Physical => 2,
            VlBufferType::Dma => 3,
        }
    }
}

/// How the encoder reduces noise.
#[derive(Debug, Clone, Copy, PartialEq, Eq, Structural)]
pub enum NrModeType {
    Disable,
    Spatial,
    Temporal,
    Both,
}

impl NrModeType {
    /// The library's number for a mode.
    pub open spec fn number(self) -> i32 {
        match self {
            NrModeType::Disable => 0,
            NrModeType::Spatial => 1,
            NrModeType::Temporal => 2,
            NrModeType::Both => 3,
        }
    }

    /// The library's number for the mode.
    pub fn code(self) -> (r: i32)
        ensures
            r == self.number(),
    {
        match self {
            NrModeType::Disable => 0,
            NrModeType::Spatial => 1,
            NrModeType::Temporal => 2,
            NrModeType::Both => 3,
        }
    }
}

/// What the encoder reports of a frame.
#[derive(Debug, Clone, Copy, PartialEq, Eq)]
pub struct EncodingMetadata {
    pub encoded_data_length_in_bytes: i32,
    pub is_key_frame: bool,
    pub timestamp_us: i32,
    pub is_valid: bool,
    pub frame_type: i32,
    pub err_cod: i32,
    pub input_frame_num: i32,
}

pub const ENABLE_ROI_FEATURE: i32 = 0x1;

pub const ENABLE_PARA_UPDATE: i32 = 0x2;

pub const ENABLE_LONG_TERM_REF: i32 = 0x80;

/// The library's numbers tell values apart, and count from zero in the library's order.
pub proof fn numbers_tell_values_apart()
    ensures
        VlCodecId::Unset.number() == 0 && VlCodecId::Vp8.number() == 1 && VlCodecId::H261.number()
            == 2 && VlCodecId::H263.number() == 3 && VlCodecId::H264.number() == 4
            && VlCodecId::H265.number() == 5,
        VlImgFormat::Unset.number() == 0 && VlImgFormat::Nv12.number() == 1
            && VlImgFormat::Nv21.number() == 2 && VlImgFormat::Yuv420p.number() == 3
            && VlImgFormat::Yv12.number() == 4 && VlImgFormat::Rgb888.number() == 5
            && VlImgFormat::Rgba8888.number() == 6 && VlImgFormat::P010.number() == 7,
        VlFrameType::Unset.number() == 0 && VlFrameType::Auto.number() == 1
            && VlFrameType::Idr.number() == 2 && VlFrameType::I.number() == 3
            && VlFrameType::P.number() == 4 && VlFrameType::B.number() == 5
            && VlFrameType::DroppableP.number() == 6,
        VlBufferType::Vmalloc.number() == 0 && VlBufferType::Canvas.number() == 1
            && VlBufferType::Physical.number() == 2 && VlBufferType::Dma.number() == 3,
        NrModeType::Disable.number() == 0 && NrModeType::Spatial.number() == 1
            && NrModeType::Temporal.number() == 2 && NrModeType::Both.number() == 3,
{
}

/// The features of the encoder are single bits, and no two are the same.
pub proof fn features_are_single_bits()
    ensures
        ENABLE_ROI_FEATURE == 1,
        ENABLE_PARA_UPDATE == 2,
        ENABLE_LONG_TERM_REF == 128,
{
}

} // verus!
