//! The values that the capture library trades in.
use vstd::prelude::*;

verus! {

/// The layout of captured pictures.
#[derive(Debug, Clone, Copy, PartialEq, Eq, Structural)]
pub enum VfmcapOutputFmt {
    Raw,
    Nv12,
    Nv21,
    P010,
    Nv12Afbc,
    A2b10g10r10Afbc,
    Vyuy10bit,
}

impl VfmcapOutputFmt {
    /// The library's number for a layout.
    pub open spec fn number(self) -> i32 {
        match self {
            VfmcapOutputFmt::Raw => 0,
            VfmcapOutputFmt::Nv12 => 1,
            VfmcapOutputFmt::Nv21 => 2,
            VfmcapOutputFmt::P010 => 3,
            VfmcapOutputFmt::Nv12Afbc => 4,
            VfmcapOutputFmt::A2b10g10r10Afbc => 5,
            VfmcapOutputFmt::Vyuy10bit => 6,
        }
    }

    /// The library's number for the layout.
    pub fn code(self) -> (r: i32)
        ensures
            r == self.number(),
    {
        match self {
            VfmcapOutputFmt::Raw => 0,
            VfmcapOutputFmt::Nv12 => 1,
            VfmcapOutputFmt::Nv21 => 2,
            VfmcapOutputFmt::P010 => 3,
            VfmcapOutputFmt::Nv12Afbc => 4,
            VfmcapOutputFmt::A2b10g10r10Afbc => 5,
            VfmcapOutputFmt::Vyuy10bit => 6,
        }
    }
}

/// What the library does to colours.
#[derive(Debug, Clone, Copy, PartialEq, Eq, Structural)]
pub enum VfmcapColorMode {
    Passthrough,
    Hdr10ToSdr,
    HlgToSdr,
}

impl VfmcapColorMode {
    /// The library's number for a mode.
    pub open spec fn number(self) -> i32 {
        match self {
            VfmcapColorMode::Passthrough => 0,
            VfmcapColorMode::Hdr10ToSdr => 1,
            VfmcapColorMode::HlgToSdr => 2,
        }
    }

    /// The library's number for the mode.
    pub fn code(self) -> (r: i32)
        ensures
            r == self.number(),
    {
        match self {
            VfmcapColorMode::Passthrough => 0,
            VfmcapColorMode::Hdr10ToSdr => 1,
            VfmcapColorMode::HlgToSdr => 2,
        }
    }
}

/// What a capture is opened with. Zero stands for the source's own size or rate.
#[derive(Debug, Clone, Copy, PartialEq, Eq)]
pub struct VfmcapConfig {
    pub output_format: VfmcapOutputFmt,
    pub target_width: u32,
    pub target_height: u32,
    pub target_fps: u32,
    pub color_mode: VfmcapColorMode,
}

/// A frame as the library hands it out.
#[derive(Debug, Clone, Copy, PartialEq, Eq)]
pub struct VfmcapFrame {
    pub dmabuf_fd: i32,
    pub dmabuf_fd2: i32,
    pub index: u32,
    pub width: u32,
    pub height: u32,
    pub bytesperline: u32,
    pub size: u32,
    pub pixelformat: u32,
    pub bitdepth: u32,
    pub sequence: u32,
    pub timestamp_us: u64,
    pub signal_type: u32,
    pub drm_modifier: u64,
    pub is_repeated: u32,
}

/// What is known of the source.
#[derive(Debug, Clone, Copy, PartialEq, Eq)]
pub struct VfmcapSignalInfo {
    pub width: u32,
    pub height: u32,
    pub fps: u32,
    pub pixelformat: u32,
    pub signal_type: u32,
    pub hdr_status: u32,
    pub is_interlaced: u32,
    pub status: u32,
    pub bitdepth: u32,
}

pub const VFMCAP_OK: i32 = 0;

pub const VFMCAP_ERR_OPEN: i32 = -1;

pub const VFMCAP_ERR_IOCTL: i32 = -2;

pub const VFMCAP_ERR_TIMEOUT: i32 = -3;

pub const VFMCAP_ERR_NOSIG: i32 = -4;

pub const VFMCAP_ERR_VULKAN: i32 = -5;

pub const VFMCAP_ERR_NOMEM: i32 = -6;

pub const VFMCAP_ERR_INVAL: i32 = -7;

pub const VFMCAP_ERR_STATE: i32 = -8;

pub const VFMCAP_RECONFIGURED: i32 = 1;

pub const VFMCAP_EVENT_SOURCE_CHANGE: i32 = 1;

pub const VFMCAP_EVENT_NOSIG: i32 = 2;

pub const VFMCAP_EVENT_TIMEOUT: i32 = 0;

pub const VFMCAP_EVENT_ERROR: i32 = -1;

pub const VFMCAP_SIG_STABLE: u32 = 0;

pub const VFMCAP_SIG_NOSIG: u32 = 1;

pub const VFMCAP_SIG_NOTSUP: u32 = 2;

/// The colour mode that brings a source down to standard range.
pub open spec fn mode_for_hdr(hdr_status: u32) -> VfmcapColorMode {
    if hdr_status == 1 || hdr_status == 3 {
        VfmcapColorMode::Hdr10ToSdr
    } else if hdr_status == 2 {
        VfmcapColorMode::HlgToSdr
    } else {
        VfmcapColorMode::Passthrough
    }
}

/// Picks the colour mode for a source: HDR10 and HDR10+ are mapped, HLG is mapped, anything else
/// is passed through.
pub fn detect_hdr_color_mode(hdr_status: u32) -> (r: VfmcapColorMode)
    ensures
        r == mode_for_hdr(hdr_status),
{
    match hdr_status {
        1 | 3 => VfmcapColorMode::Hdr10ToSdr,
        2 => VfmcapColorMode::HlgToSdr,
        _ => VfmcapColorMode::Passthrough,
    }
}

/// A source of standard range is passed through; HDR10, with or without its extension, and HLG
/// are each brought down by their own mapping.
pub proof fn every_range_has_its_mapping(hdr_status: u32)
    ensures
        mode_for_hdr(hdr_status) == VfmcapColorMode::Hdr10ToSdr <==> hdr_status == 1 || hdr_status
            == 3,
        mode_for_hdr(hdr_status) == VfmcapColorMode::HlgToSdr <==> hdr_status == 2,
{
}

/// The library's numbers tell layouts and modes apart, and count from zero.
pub proof fn numbers_tell_values_apart(
    a: VfmcapOutputFmt,
    b: VfmcapOutputFmt,
    c: VfmcapColorMode,
    d: VfmcapColorMode,
)
    ensures
        a.number() == b.number() ==> a == b,
        c.number() == d.number() ==> c == d,
        VfmcapOutputFmt::Raw.number() == 0 && VfmcapOutputFmt::Nv12.number() == 1
            && VfmcapOutputFmt::Nv21.number() == 2 && VfmcapOutputFmt::P010.number() == 3
            && VfmcapOutputFmt::Nv12Afbc.number() == 4 && VfmcapOutputFmt::A2b10g10r10Afbc.number()
            == 5 && VfmcapOutputFmt::Vyuy10bit.number() == 6,
        VfmcapColorMode::Passthrough.number() == 0 && VfmcapColorMode::Hdr10ToSdr.number() == 1
            && VfmcapColorMode::HlgToSdr.number() == 2,
{
}

/// What the library returns: zero for success, one for a change of the source, and failures below
/// zero.
pub proof fn the_numbers_of_the_library()
    ensures
        VFMCAP_OK == 0 && VFMCAP_RECONFIGURED == 1,
        VFMCAP_ERR_OPEN == -1 && VFMCAP_ERR_IOCTL == -2 && VFMCAP_ERR_TIMEOUT == -3
            && VFMCAP_ERR_NOSIG == -4 && VFMCAP_ERR_VULKAN == -5 && VFMCAP_ERR_NOMEM == -6
            && VFMCAP_ERR_INVAL == -7 && VFMCAP_ERR_STATE == -8,
        VFMCAP_EVENT_SOURCE_CHANGE == 1 && VFMCAP_EVENT_NOSIG == 2 && VFMCAP_EVENT_TIMEOUT == 0
            && VFMCAP_EVENT_ERROR == -1,
        VFMCAP_SIG_STABLE == 0 && VFMCAP_SIG_NOSIG == 1 && VFMCAP_SIG_NOTSUP == 2,
{
}

} // verus!
