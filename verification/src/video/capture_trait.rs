//! Captured frames and the streams that they come from.
use crate::video::format::{PixelFormat, Resolution};
use vstd::prelude::*;

verus! {

/// What is known of a frame that was copied to memory.
#[derive(Debug, Clone, Copy, PartialEq, Eq)]
pub struct CaptureMeta {
    pub bytes_used: usize,
    pub sequence: u64,
}

/// A frame that stays in the device's memory.
#[derive(Debug, Clone, Copy, PartialEq, Eq)]
pub struct DmaBufFrame {
    pub index: u32,
    pub dmabuf_fd: i32,
    pub dmabuf_fd2: i32,
    pub width: u32,
    pub height: u32,
    pub bytesperline: u32,
    pub size: u32,
    pub format: u32,
    pub sequence: u32,
    pub timestamp_us: u64,
}

/// A captured frame.
#[derive(Debug)]
pub enum FrameData {
    Mapped { data: Vec<u8>, meta: CaptureMeta },
    DmaBuf(DmaBufFrame),
}

/// A captured frame, with the geometry that it has.
#[derive(Debug)]
pub struct CaptureResult {
    pub frame: FrameData,
    pub resolution: Resolution,
    pub format: PixelFormat,
    /// Whether the source has changed.
    pub reconfigured: bool,
}

/// Why no frame came.
#[derive(Debug)]
pub enum CaptureError {
    TimedOut,
    NotConnected,
    Other(String),
}

/// A stream of captured frames.
pub trait CaptureStream: Send {
    /// Waits for the next frame.
    fn next_frame(&mut self) -> Result<CaptureResult, CaptureError>;

    /// The size of the frames.
    fn resolution(&self) -> Resolution;

    /// The layout of the frames.
    fn format(&self) -> PixelFormat;

    /// Gives a frame back to the device.
    fn release_frame(&mut self, frame: &FrameData);
}

} // verus!
