//! Capturing from the HDMI input.
use crate::ffi::vfmcap::{
    detect_hdr_color_mode, mode_for_hdr, VfmcapColorMode, VfmcapConfig, VfmcapFrame,
    VfmcapOutputFmt, VfmcapSignalInfo, VFMCAP_ERR_NOSIG, VFMCAP_ERR_TIMEOUT, VFMCAP_OK,
    VFMCAP_RECONFIGURED,
};
use crate::text::{append_signed, owned, signed_decimal};
use crate::types::AppError;
use crate::video::capture_trait::{CaptureError, CaptureResult, DmaBufFrame, FrameData};
use crate::video::format::{PixelFormat, Resolution};
use vstd::prelude::*;
use vstd::string::StringExecFns;

verus! {

/// How long a capture waits for a frame, in milliseconds.
pub const ACQUIRE_TIMEOUT_MS: i32 = 2000;

/// A frame, as the capture describes it.
#[derive(Debug, Clone, Copy, PartialEq, Eq)]
pub struct VfmcapFrameData {
    pub dmabuf_fd: i32,
    pub dmabuf_fd2: i32,
    pub index: u32,
    pub width: u32,
    pub height: u32,
    pub bytesperline: u32,
    pub size: u32,
    pub pixelformat: u32,
    pub bitdepth: u32,
    pub sequence: u32,
    pub timestamp_us: u64,
    pub signal_type: u32,
    pub drm_modifier: u64,
    pub is_repeated: bool,
}

/// A frame's description, as the capture library's frame gives it.
pub open spec fn described(f: VfmcapFrame) -> VfmcapFrameData {
    VfmcapFrameData {
        dmabuf_fd: f.dmabuf_fd,
        dmabuf_fd2: f.dmabuf_fd2,
        index: f.index,
        width: f.width,
        height: f.height,
        bytesperline: f.bytesperline,
        size: f.size,
        pixelformat: f.pixelformat,
        bitdepth: f.bitdepth,
        sequence: f.sequence,
        timestamp_us: f.timestamp_us,
        signal_type: f.signal_type,
        drm_modifier: f.drm_modifier,
        is_repeated: f.is_repeated != 0,
    }
}

/// Describes a frame.
pub fn frame_to_data(f: &VfmcapFrame) -> (r: VfmcapFrameData)
    ensures
        r == described(*f),
{
    VfmcapFrameData {
        dmabuf_fd: f.dmabuf_fd,
        dmabuf_fd2: f.dmabuf_fd2,
        index: f.index,
        width: f.width,
        height: f.height,
        bytesperline: f.bytesperline,
        size: f.size,
        pixelformat: f.pixelformat,
        bitdepth: f.bitdepth,
        sequence: f.sequence,
        timestamp_us: f.timestamp_us,
        signal_type: f.signal_type,
        drm_modifier: f.drm_modifier,
        is_repeated: f.is_repeated != 0,
    }
}

/// What a wait for a frame ends in.
#[derive(Debug, Clone, Copy, PartialEq, Eq)]
pub enum AcquireResult {
    Frame(VfmcapFrame),
    Reconfigured(VfmcapFrame),
    Timeout,
    NoSignal,
}

// ---------------------------------------------------------------- the library's stream

/// A stream of the capture library: whether it has started, and what the library last
/// complained of.
#[derive(Debug)]
pub struct VfmcapStream {
    pub started: bool,
    pub error: Option<String>,
}

/// The text of a failed call.
pub open spec fn failure_text(call: Seq<char>, rc: i32, error: Seq<char>) -> Seq<char> {
    call + " failed (rc="@ + signed_decimal(rc as int) + "): "@ + error
}

fn failure(call: &str, rc: i32, error: &str) -> (r: AppError)
    ensures
        r matches AppError::VideoError(m) && m@ == failure_text(call@, rc, error@),
{
    let mut text = owned(call);
    text.append(" failed (rc=");
    append_signed(&mut text, rc as i64);
    text.append("): ");
    text.append(error);
    AppError::VideoError(text)
}

impl VfmcapStream {
    /// A stream that was opened and has not started.
    pub fn new() -> (r: Self)
        ensures
            !r.started,
            r.error is None,
    {
        VfmcapStream { started: false, error: None }
    }

    /// What the library last complained of, as text.
    pub open spec fn error_text(self) -> Seq<char> {
        match self.error {
            Some(text) => text@,
            None => "(unknown)"@,
        }
    }

    /// What the library last complained of.
    pub fn last_error(&self) -> (r: String)
        ensures
            r@ == self.error_text(),
    {
        match &self.error {
            Some(text) => text.clone(),
            None => owned("(unknown)"),
        }
    }

    /// Whether the library is to be asked to start.
    pub fn needs_start(&self) -> (r: bool)
        ensures
            r == !self.started,
    {
        !self.started
    }

    /// Takes up what the library answered to the request to start.
    pub fn start(&mut self, rc: i32) -> (r: Result<(), AppError>)
        ensures
            final(self).error == old(self).error,
            final(self).started == (old(self).started || rc == VFMCAP_OK),
            r is Ok <==> rc == VFMCAP_OK,
            r matches Err(e) ==> (e matches AppError::VideoError(m) && m@ == failure_text(
                "vfmcap_start"@,
                rc,
                old(self).error_text(),
            )),
    {
        if rc == VFMCAP_OK {
            self.started = true;
            Ok(())
        } else {
            let error = self.last_error();
            Err(failure("vfmcap_start", rc, error.as_str()))
        }
    }

    /// Marks the stream as stopped; gives whether the library is to be asked to stop.
    pub fn stop(&mut self) -> (r: bool)
        ensures
            r == old(self).started,
            !final(self).started,
            final(self).error == old(self).error,
    {
        let was = self.started;
        self.started = false;
        was
    }

    /// Takes up what the library answered to the request for a frame.
    pub fn acquire_frame(&self, rc: i32, frame: VfmcapFrame) -> (r: Result<AcquireResult, AppError>)
        ensures
            if rc == VFMCAP_OK {
                r matches Ok(a) && a == AcquireResult::Frame(frame)
            } else if rc == VFMCAP_RECONFIGURED {
                r matches Ok(a) && a == AcquireResult::Reconfigured(frame)
            } else if rc == VFMCAP_ERR_TIMEOUT {
                r matches Ok(a) && a == AcquireResult::Timeout
            } else if rc == VFMCAP_ERR_NOSIG {
                r matches Ok(a) && a == AcquireResult::NoSignal
            } else {
                r matches Err(e) && (e matches AppError::VideoError(m) && m@ == failure_text(
                    "vfmcap_acquire_frame"@,
                    rc,
                    self.error_text(),
                ))
            },
    {
        if rc == VFMCAP_OK {
            Ok(AcquireResult::Frame(frame))
        } else if rc == VFMCAP_RECONFIGURED {
            Ok(AcquireResult::Reconfigured(frame))
        } else if rc == VFMCAP_ERR_TIMEOUT {
            Ok(AcquireResult::Timeout)
        } else if rc == VFMCAP_ERR_NOSIG {
            Ok(AcquireResult::NoSignal)
        } else {
            let error = self.last_error();
            Err(failure("vfmcap_acquire_frame", rc, error.as_str()))
        }
    }

    /// Takes up what the library answered to the question about the source.
    pub fn signal_info(&self, rc: i32, info: VfmcapSignalInfo) -> (r: Result<
        VfmcapSignalInfo,
        AppError,
    >)
        ensures
            if rc == VFMCAP_OK {
                r matches Ok(i) && i == info
            } else {
                r matches Err(e) && (e matches AppError::VideoError(m) && m@ == failure_text(
                    "vfmcap_get_signal_info"@,
                    rc,
                    self.error_text(),
                ))
            },
    {
        if rc == VFMCAP_OK {
            Ok(info)
        } else {
            let error = self.last_error();
            Err(failure("vfmcap_get_signal_info", rc, error.as_str()))
        }
    }
}

// ---------------------------------------------------------------- the capture

/// A capture from the HDMI input. It holds at most one frame of the device.
#[derive(Debug)]
pub struct AmlVfmcapCaptureStream {
    pub pending_index: Option<u32>,
    pub resolution: Resolution,
    pub format: PixelFormat,
    pub num_buffers: u32,
}

/// The colour mode that a capture is opened anew with: one that was opened without mapping gets
/// the mapping that its source needs.
pub open spec fn reopen_mode(
    output_format: VfmcapOutputFmt,
    color_mode: VfmcapColorMode,
    signal: Option<VfmcapSignalInfo>,
) -> Option<VfmcapColorMode> {
    if output_format == VfmcapOutputFmt::Nv12 && color_mode == VfmcapColorMode::Passthrough
        && signal is Some && mode_for_hdr(signal->0.hdr_status) != VfmcapColorMode::Passthrough {
        Some(mode_for_hdr(signal->0.hdr_status))
    } else {
        None
    }
}

/// Tells with which configuration a capture is to be opened anew, if it is.
pub fn reopen_config(config: &VfmcapConfig, signal: Option<VfmcapSignalInfo>) -> (r: Option<
    VfmcapConfig,
>)
    ensures
        match reopen_mode(config.output_format, config.color_mode, signal) {
            Some(mode) => r matches Some(c) && c == (VfmcapConfig { color_mode: mode, ..*config }),
            None => r is None,
        },
{
    if config.output_format == VfmcapOutputFmt::Nv12 && config.color_mode
        == VfmcapColorMode::Passthrough {
        if let Some(info) = signal {
            let mode = detect_hdr_color_mode(info.hdr_status);
            if mode != VfmcapColorMode::Passthrough {
                return Some(
                    VfmcapConfig {
                        output_format: config.output_format,
                        target_width: config.target_width,
                        target_height: config.target_height,
                        target_fps: config.target_fps,
                        color_mode: mode,
                    },
                );
            }
        }
    }
    None
}

/// The size of a capture's frames: the one that was asked for, or the source's, or a usual one
/// where the source is unknown.
pub open spec fn opened_resolution(
    width: u32,
    height: u32,
    signal: Option<VfmcapSignalInfo>,
) -> Resolution {
    if width > 0 && height > 0 {
        Resolution { width, height }
    } else {
        match signal {
            Some(info) => Resolution { width: info.width, height: info.height },
            None => Resolution { width: 1920, height: 1080 },
        }
    }
}

/// Whether a result reports a frame.
pub open spec fn reports_frame(r: CaptureResult, frame: VfmcapFrame, reconfigured: bool) -> bool {
    &&& r.frame matches FrameData::DmaBuf(dma) && dma == (DmaBufFrame {
        index: frame.index,
        dmabuf_fd: frame.dmabuf_fd,
        dmabuf_fd2: frame.dmabuf_fd2,
        width: frame.width,
        height: frame.height,
        bytesperline: frame.bytesperline,
        size: frame.size,
        format: frame.pixelformat,
        sequence: frame.sequence,
        timestamp_us: frame.timestamp_us,
    })
    &&& r.resolution == (Resolution { width: frame.width, height: frame.height })
    &&& r.format == PixelFormat::Nv12
    &&& r.reconfigured == reconfigured
}

impl AmlVfmcapCaptureStream {
    /// A capture that was opened.
    pub fn opened(
        target_width: u32,
        target_height: u32,
        signal: Option<VfmcapSignalInfo>,
        num_buffers: u32,
    ) -> (r: Self)
        ensures
            r.pending_index is None,
            r.resolution == opened_resolution(target_width, target_height, signal),
            r.format == PixelFormat::Nv12,
            r.num_buffers == num_buffers,
    {
        let resolution = if target_width > 0 && target_height > 0 {
            Resolution::new(target_width, target_height)
        } else {
            match signal {
                Some(info) => Resolution::new(info.width, info.height),
                None => Resolution::new(1920, 1080),
            }
        };
        AmlVfmcapCaptureStream {
            pending_index: None,
            resolution,
            format: PixelFormat::Nv12,
            num_buffers,
        }
    }

    /// Makes ready for the next frame; gives the frame that is to go back to the device first.
    pub fn begin_next_frame(&mut self) -> (r: Option<u32>)
        ensures
            r == old(self).pending_index,
            *final(self) == (AmlVfmcapCaptureStream { pending_index: None, ..*old(self) }),
    {
        self.pending_index.take()
    }

    /// Takes up what the wait for a frame ended in. A frame is held until it is released.
    pub fn next_frame(&mut self, acquired: Result<AcquireResult, String>) -> (r: Result<
        CaptureResult,
        CaptureError,
    >)
        requires
            old(self).pending_index is None,
        ensures
            match acquired {
                Ok(AcquireResult::Frame(frame)) => {
                    &&& r matches Ok(c) && reports_frame(c, frame, false)
                    &&& *final(self) == (AmlVfmcapCaptureStream {
                        pending_index: Some(frame.index),
                        resolution: Resolution { width: frame.width, height: frame.height },
                        ..*old(self)
                    })
                },
                Ok(AcquireResult::Reconfigured(frame)) => {
                    &&& r matches Ok(c) && reports_frame(c, frame, true)
                    &&& *final(self) == (AmlVfmcapCaptureStream {
                        pending_index: Some(frame.index),
                        resolution: Resolution { width: frame.width, height: frame.height },
                        ..*old(self)
                    })
                },
                Ok(AcquireResult::Timeout) => r matches Err(e) && e is TimedOut && *final(self)
                    == *old(self),
                Ok(AcquireResult::NoSignal) => r matches Err(e) && e is NotConnected
                    && *final(self) == *old(self),
                Err(text) => r matches Err(CaptureError::Other(t)) && t == text && *final(self)
                    == *old(self),
            },
    {
        let (frame, reconfigured) = match acquired {
            Ok(AcquireResult::Frame(frame)) => (frame, false),
            Ok(AcquireResult::Reconfigured(frame)) => (frame, true),
            Ok(AcquireResult::Timeout) => {
                return Err(CaptureError::TimedOut);
            },
            Ok(AcquireResult::NoSignal) => {
                return Err(CaptureError::NotConnected);
            },
            Err(text) => {
                return Err(CaptureError::Other(text));
            },
        };
        let data = frame_to_data(&frame);
        let resolution = Resolution::new(data.width, data.height);
        self.resolution = resolution;
        self.pending_index = Some(data.index);
        Ok(
            CaptureResult {
                frame: FrameData::DmaBuf(
                    DmaBufFrame {
                        index: data.index,
                        dmabuf_fd: data.dmabuf_fd,
                        dmabuf_fd2: data.dmabuf_fd2,
                        width: data.width,
                        height: data.height,
                        bytesperline: data.bytesperline,
                        size: data.size,
                        format: data.pixelformat,
                        sequence: data.sequence,
                        timestamp_us: data.timestamp_us,
                    },
                ),
                resolution,
                format: PixelFormat::Nv12,
                reconfigured,
            },
        )
    }

    /// Lets go of the frame that is held, where the frame given back is one of the device's;
    /// gives the one that is to go back to the device.
    pub fn release_frame(&mut self, frame: &FrameData) -> (r: Option<u32>)
        ensures
            match *frame {
                FrameData::DmaBuf(_) => r == old(self).pending_index && *final(self) == (
                AmlVfmcapCaptureStream { pending_index: None, ..*old(self) }),
                FrameData::Mapped { .. } => r is None && *final(self) == *old(self),
            },
    {
        match frame {
            FrameData::DmaBuf(_) => self.pending_index.take(),
            FrameData::Mapped { .. } => None,
        }
    }

    /// The size of the frames.
    pub fn resolution(&self) -> (r: Resolution)
        ensures
            r == self.resolution,
    {
        self.resolution
    }

    /// The layout of the frames.
    pub fn format(&self) -> (r: PixelFormat)
        ensures
            r == self.format,
    {
        self.format
    }
}

/// The number of device frames that a capture holds.
pub open spec fn held(s: AmlVfmcapCaptureStream) -> nat {
    if s.pending_index is Some {
        1
    } else {
        0
    }
}

/// A capture never holds more than one frame of the device: before every wait the frame of the
/// wait before goes back, so that as many frames go back as came, but for the one that is held.
pub proof fn every_frame_goes_back(
    start: AmlVfmcapCaptureStream,
    cleared: AmlVfmcapCaptureStream,
    given_back: Option<u32>,
    after: AmlVfmcapCaptureStream,
    frame: Option<VfmcapFrame>,
)
    requires
        given_back == start.pending_index,
        cleared == (AmlVfmcapCaptureStream { pending_index: None, ..start }),
        match frame {
            Some(f) => after.pending_index == Some(f.index),
            None => after == cleared,
        },
    ensures
        held(after) <= 1,
        held(start) + (if frame is Some {
            1nat
        } else {
            0nat
        }) == held(after) + (if given_back is Some {
            1nat
        } else {
            0nat
        }),
{
}

/// A captured frame is the device's own, field by field: its buffers, its geometry, its number
/// and its time; the size of the capture is the frame's, and the layout is NV12.
pub proof fn a_captured_frame_is_the_devices(
    r: CaptureResult,
    frame: VfmcapFrame,
    reconfigured: bool,
)
    requires
        reports_frame(r, frame, reconfigured),
    ensures
        r.frame matches FrameData::DmaBuf(dma) && {
            &&& dma.index == frame.index
            &&& dma.dmabuf_fd == frame.dmabuf_fd
            &&& dma.dmabuf_fd2 == frame.dmabuf_fd2
            &&& dma.width == frame.width
            &&& dma.height == frame.height
            &&& dma.bytesperline == frame.bytesperline
            &&& dma.size == frame.size
            &&& dma.format == frame.pixelformat
            &&& dma.sequence == frame.sequence
            &&& dma.timestamp_us == frame.timestamp_us
        },
        r.resolution.width == frame.width && r.resolution.height == frame.height,
        r.format == PixelFormat::Nv12,
        r.reconfigured <==> reconfigured,
{
}

/// A frame's description has every field of the library's frame, under its own name; a frame is
/// a repetition where the library's mark is not zero.
pub proof fn a_description_has_every_field(f: VfmcapFrame)
    ensures
        ({
            let d = described(f);
            &&& d.dmabuf_fd == f.dmabuf_fd && d.dmabuf_fd2 == f.dmabuf_fd2 && d.index == f.index
            &&& d.width == f.width && d.height == f.height && d.bytesperline == f.bytesperline
            &&& d.size == f.size && d.pixelformat == f.pixelformat && d.bitdepth == f.bitdepth
            &&& d.sequence == f.sequence && d.timestamp_us == f.timestamp_us
            &&& d.signal_type == f.signal_type && d.drm_modifier == f.drm_modifier
            &&& d.is_repeated <==> f.is_repeated != 0
        }),
{
}

/// A capture is opened anew only where it was opened in NV12 without mapping and its source is of
/// high range, and then with the mapping that this range needs and otherwise as it was; opening it
/// so is enough: it is not opened a third time.
pub proof fn a_capture_is_opened_anew_once(
    config: VfmcapConfig,
    signal: Option<VfmcapSignalInfo>,
    r: Option<VfmcapConfig>,
)
    requires
        call_ensures(reopen_config, (&config, signal), r),
    ensures
        r is Some <==> config.output_format == VfmcapOutputFmt::Nv12 && config.color_mode
            == VfmcapColorMode::Passthrough && signal is Some && 1 <= signal->0.hdr_status <= 3,
        r matches Some(c) ==> {
            &&& c.target_width == config.target_width && c.target_height == config.target_height
            &&& c.target_fps == config.target_fps && c.output_format == config.output_format
            &&& signal->0.hdr_status == 2 ==> c.color_mode == VfmcapColorMode::HlgToSdr
            &&& signal->0.hdr_status != 2 ==> c.color_mode == VfmcapColorMode::Hdr10ToSdr
            &&& reopen_mode(c.output_format, c.color_mode, signal) is None
        },
{
}

/// The size of a capture is the one that was asked for, where both sides were; or else the
/// source's, or 1920 by 1080 where the source is unknown.
pub proof fn the_size_of_a_capture(width: u32, height: u32, signal: Option<VfmcapSignalInfo>)
    ensures
        ({
            let size = opened_resolution(width, height, signal);
            &&& width > 0 && height > 0 ==> size.width == width && size.height == height
            &&& (width == 0 || height == 0) && signal is Some ==> size.width == signal->0.width
                && size.height == signal->0.height
            &&& (width == 0 || height == 0) && signal is None ==> size.width == 1920 && size.height
                == 1080
        }),
{
}

/// What the library answers to the request for a frame, by its number: zero is a frame, one a
/// frame of a changed source, minus three a wait that ran out, minus four no signal; any other is
/// a failure.
pub proof fn what_the_library_answers(
    s: VfmcapStream,
    rc: i32,
    frame: VfmcapFrame,
    r: Result<AcquireResult, AppError>,
    info: VfmcapSignalInfo,
    q: Result<VfmcapSignalInfo, AppError>,
)
    ensures
        call_ensures(VfmcapStream::acquire_frame, (&s, rc, frame), r) ==> {
            &&& r == Ok::<AcquireResult, AppError>(AcquireResult::Frame(frame)) <==> rc == 0
            &&& r == Ok::<AcquireResult, AppError>(AcquireResult::Reconfigured(frame)) <==> rc == 1
            &&& r == Ok::<AcquireResult, AppError>(AcquireResult::Timeout) <==> rc == -3
            &&& r == Ok::<AcquireResult, AppError>(AcquireResult::NoSignal) <==> rc == -4
            &&& r is Err <==> rc != 0 && rc != 1 && rc != -3 && rc != -4
        },
        call_ensures(VfmcapStream::signal_info, (&s, rc, info), q) ==> (q is Ok <==> rc == 0) && (
        q matches Ok(i) ==> i == info),
{
}

/// A failed call is told by its name, by what it returned and by what the library complained of.
pub proof fn a_failure_tells_the_call(call: Seq<char>, rc: i32, error: Seq<char>)
    ensures
        failure_text(call, rc, error) == call + " failed (rc="@ + signed_decimal(rc as int) + "): "@
            + error,
        call.is_prefix_of(failure_text(call, rc, error)),
        error.is_suffix_of(failure_text(call, rc, error)),
        ACQUIRE_TIMEOUT_MS == 2000,
{
    let a = " failed (rc="@;
    let b = signed_decimal(rc as int);
    let c = "): "@;
    assert(failure_text(call, rc, error) =~= call + (a + b + c + error));
    assert(failure_text(call, rc, error) =~= (call + a + b + c) + error);
}

/// What the library complained of is told in its own words, or as unknown.
pub proof fn a_complaint_is_told(s: VfmcapStream)
    ensures
        s.error is Some ==> s.error_text() == s.error->0@,
        s.error is None ==> s.error_text() == "(unknown)"@,
{
}

} // verus!
