//! The pipeline from the HDMI input to encoded frames.
//!
//! Two threads work side by side: one captures frames and queues them, the other encodes them
//! and reports which frames it is done with. The first keeps a list of the frames that it queued.
//! A frame leaves the list when it is reported, or when the pipeline stops, and the capture is
//! then told to release it. The capture holds one frame of the device at a time and gives it back
//! before it waits for the next one, whether it was reported or not.
use crate::ffi::multienc::VlCodecId;
use crate::ffi::vfmcap::{VfmcapColorMode, VfmcapConfig, VfmcapOutputFmt};
use crate::text::owned;
use crate::types::AppError;
use crate::video::capture_trait::{CaptureError, CaptureResult, DmaBufFrame, FrameData};
use crate::video::encoder::aml_venc::{AmlEncodedFrame, AmlVencEncoder, EncoderRequest};
use crate::video::format::{EncodedVideoFrame, Resolution, VideoEncoderType};
use std::collections::HashMap;
use vstd::prelude::*;

verus! {

/// How many timeouts in a row stop the pipeline.
pub const CAPTURE_TIMEOUT_STOP_THRESHOLD: u32 = 60;

/// How many frames the device keeps in turn.
pub const VFMCAP_BUFFER_COUNT: u32 = 12;

/// How many frames may wait to be encoded.
pub const ENCODE_QUEUE_LEN: usize = 8;

/// How a pipeline is set up. A limit of zero is none.
#[derive(Debug, Clone)]
pub struct AmlPipelineConfig {
    pub max_width: u32,
    pub max_height: u32,
    pub max_fps: u32,
    pub color_mode: VfmcapColorMode,
    pub output_codec: VideoEncoderType,
    pub bitrate_kbps: u32,
    pub gop: i32,
    pub gop_pattern: i32,
    pub rc_mode: i32,
    pub device: String,
}

/// Whether a setup is the default one.
pub open spec fn is_default_config(c: AmlPipelineConfig) -> bool {
    &&& c.max_width == 3840
    &&& c.max_height == 2160
    &&& c.max_fps == 240
    &&& c.color_mode == VfmcapColorMode::Passthrough
    &&& c.output_codec == VideoEncoderType::H265
    &&& c.bitrate_kbps == 8000
    &&& c.gop == 30
    &&& c.gop_pattern == 5
    &&& c.rc_mode == 1
    &&& c.device@ == "/dev/video_cap"@
}

impl Default for AmlPipelineConfig {
    fn default() -> (r: Self)
        ensures
            is_default_config(r),
    {
        AmlPipelineConfig {
            max_width: 3840,
            max_height: 2160,
            max_fps: 240,
            color_mode: VfmcapColorMode::Passthrough,
            output_codec: VideoEncoderType::H265,
            bitrate_kbps: 8000,
            gop: 30,
            gop_pattern: 5,
            rc_mode: 1,
            device: owned("/dev/video_cap"),
        }
    }
}

// ---------------------------------------------------------------- setting up

/// The capture at the source's own size and rate.
pub fn native_capture(config: &AmlPipelineConfig) -> (r: VfmcapConfig)
    ensures
        r == (VfmcapConfig {
            output_format: VfmcapOutputFmt::Nv12,
            target_width: 0,
            target_height: 0,
            target_fps: 0,
            color_mode: config.color_mode,
        }),
{
    VfmcapConfig {
        output_format: VfmcapOutputFmt::Nv12,
        target_width: 0,
        target_height: 0,
        target_fps: 0,
        color_mode: config.color_mode,
    }
}

/// Whether a source is larger than the limits.
pub open spec fn exceeds_limits(config: AmlPipelineConfig, native: Resolution) -> bool {
    config.max_width > 0 && config.max_height > 0 && (native.width > config.max_width
        || native.height > config.max_height)
}

/// The capture within the limits, where the source is larger.
pub fn limited_capture(config: &AmlPipelineConfig, native: Resolution) -> (r: Option<VfmcapConfig>)
    ensures
        r is Some <==> exceeds_limits(*config, native),
        r matches Some(c) ==> c == (VfmcapConfig {
            output_format: VfmcapOutputFmt::Nv12,
            target_width: config.max_width,
            target_height: config.max_height,
            target_fps: config.max_fps,
            color_mode: config.color_mode,
        }),
{
    if config.max_width > 0 && config.max_height > 0 && (native.width > config.max_width
        || native.height > config.max_height) {
        Some(
            VfmcapConfig {
                output_format: VfmcapOutputFmt::Nv12,
                target_width: config.max_width,
                target_height: config.max_height,
                target_fps: config.max_fps,
                color_mode: config.color_mode,
            },
        )
    } else {
        None
    }
}

/// The frame rate: the source's within the limit, or the limit where the source has none, or a
/// usual one.
pub open spec fn pipeline_fps(signal_fps: Option<u32>, max_fps: u32) -> u32 {
    match signal_fps {
        Some(fps) => if fps > 0 {
            if max_fps > 0 && max_fps < fps {
                max_fps
            } else {
                fps
            }
        } else if max_fps > 0 {
            max_fps
        } else {
            30
        },
        None => if max_fps > 0 {
            max_fps
        } else {
            30
        },
    }
}

/// Picks the frame rate, which is never zero.
pub fn choose_fps(signal_fps: Option<u32>, max_fps: u32) -> (r: u32)
    ensures
        r == pipeline_fps(signal_fps, max_fps),
        r >= 1,
{
    match signal_fps {
        Some(fps) => if fps > 0 {
            return if max_fps > 0 && max_fps < fps {
                max_fps
            } else {
                fps
            };
        },
        None => {},
    }
    if max_fps > 0 {
        max_fps
    } else {
        30
    }
}

/// What the encoder of a pipeline is asked to do; only two codecs can be had.
pub fn create_encoder(config: &AmlPipelineConfig, width: i32, height: i32, fps: i32) -> (r: Result<
    EncoderRequest,
    AppError,
>)
    ensures
        match config.output_codec {
            VideoEncoderType::H265 => r matches Ok(q) && q == (EncoderRequest {
                codec: VlCodecId::H265,
                width,
                height,
                fps,
                bitrate_kbps: config.bitrate_kbps as i32,
                gop: config.gop,
                gop_pattern: config.gop_pattern,
                rc_mode: config.rc_mode,
            }),
            VideoEncoderType::H264 => r matches Ok(q) && q == (EncoderRequest {
                codec: VlCodecId::H264,
                width,
                height,
                fps,
                bitrate_kbps: config.bitrate_kbps as i32,
                gop: config.gop,
                gop_pattern: config.gop_pattern,
                rc_mode: config.rc_mode,
            }),
            _ => r matches Err(AppError::VideoError(m)) && m@
                == "AML pipeline only supports H264/H265"@,
        },
{
    let bitrate_kbps: i32 = config.bitrate_kbps as i32;
    match config.output_codec {
        VideoEncoderType::H265 => Ok(
            AmlVencEncoder::new_h265(
                width,
                height,
                fps,
                bitrate_kbps,
                config.gop,
                config.gop_pattern,
                config.rc_mode,
            ),
        ),
        VideoEncoderType::H264 => Ok(
            AmlVencEncoder::new_h264(
                width,
                height,
                fps,
                bitrate_kbps,
                config.gop,
                config.gop_pattern,
                config.rc_mode,
            ),
        ),
        _ => Err(AppError::video("AML pipeline only supports H264/H265")),
    }
}

/// The frame that carries the headers of a stream, before all others.
pub fn header_frame(header: Vec<u8>, codec: VideoEncoderType) -> (r: EncodedVideoFrame)
    ensures
        r == (EncodedVideoFrame {
            data: header,
            pts_ms: 0,
            is_keyframe: true,
            sequence: 0,
            duration_ns: 0,
            codec,
        }),
{
    EncodedVideoFrame {
        data: header,
        pts_ms: 0,
        is_keyframe: true,
        sequence: 0,
        duration_ns: 0,
        codec,
    }
}

/// How far the setup of a pipeline has come: what was asked of the caller last.
#[derive(Debug, Clone, Copy, PartialEq, Eq, Structural)]
pub enum SetupPhase {
    Begun,
    OpeningNative,
    OpeningLimited,
    AskingSignal,
    OpeningEncoder,
    AskingHeader,
    Ready,
    Failed,
}

/// The setup of a pipeline.
#[derive(Debug)]
pub struct PipelineSetup {
    pub phase: SetupPhase,
    /// The size of the frames, once a capture is open.
    pub resolution: Resolution,
    /// The frame rate, once the source was asked.
    pub fps: u32,
}

/// What the caller is to do next.
#[derive(Debug)]
pub enum SetupAction {
    /// Open a capture, in place of one that is open.
    OpenCapture(VfmcapConfig),
    /// Report the frame rate of the source.
    AskSignal,
    /// Open an encoder.
    OpenEncoder(EncoderRequest),
    /// Report the headers of the stream.
    AskHeader,
    /// Send this frame to the subscribers and start capturing.
    BroadcastAndRun(EncodedVideoFrame),
    /// Start capturing.
    Run,
    /// Mark the pipeline as stopped.
    Stop,
}

/// What the caller reports.
#[derive(Debug)]
pub enum SetupReport {
    Begin,
    /// A capture is open, with frames of this size.
    Opened(Resolution),
    /// The frame rate of the source, where it is known.
    Signal(Option<u32>),
    /// An encoder is open.
    EncoderOpened,
    /// The headers of the stream.
    Header(Vec<u8>),
    Failed,
}

/// The setup before anything was done.
pub fn begin_setup() -> (r: PipelineSetup)
    ensures
        r == (PipelineSetup {
            phase: SetupPhase::Begun,
            resolution: Resolution { width: 0, height: 0 },
            fps: 0,
        }),
{
    PipelineSetup { phase: SetupPhase::Begun, resolution: Resolution::new(0, 0), fps: 0 }
}

/// What a report leads to: the setup after it, and what the caller is to do. A source larger
/// than the limits is opened anew within them. A failure stops the pipeline, except that the
/// headers can be done without.
pub open spec fn setup_step(
    config: AmlPipelineConfig,
    before: PipelineSetup,
    report: SetupReport,
    after: PipelineSetup,
    action: SetupAction,
) -> bool {
    let failed = action is Stop && after == (PipelineSetup { phase: SetupPhase::Failed, ..before });
    match before.phase {
        SetupPhase::Begun => {
            &&& after == (PipelineSetup { phase: SetupPhase::OpeningNative, ..before })
            &&& action == SetupAction::OpenCapture(
                VfmcapConfig {
                    output_format: VfmcapOutputFmt::Nv12,
                    target_width: 0,
                    target_height: 0,
                    target_fps: 0,
                    color_mode: config.color_mode,
                },
            )
        },
        SetupPhase::OpeningNative => match report {
            SetupReport::Opened(size) => if exceeds_limits(config, size) {
                &&& after == (PipelineSetup {
                    phase: SetupPhase::OpeningLimited,
                    resolution: size,
                    ..before
                })
                &&& action == SetupAction::OpenCapture(
                    VfmcapConfig {
                        output_format: VfmcapOutputFmt::Nv12,
                        target_width: config.max_width,
                        target_height: config.max_height,
                        target_fps: config.max_fps,
                        color_mode: config.color_mode,
                    },
                )
            } else {
                &&& after == (PipelineSetup {
                    phase: SetupPhase::AskingSignal,
                    resolution: size,
                    ..before
                })
                &&& action is AskSignal
            },
            _ => failed,
        },
        SetupPhase::OpeningLimited => match report {
            SetupReport::Opened(size) => {
                &&& after == (PipelineSetup {
                    phase: SetupPhase::AskingSignal,
                    resolution: size,
                    ..before
                })
                &&& action is AskSignal
            },
            _ => failed,
        },
        SetupPhase::AskingSignal => {
            let fps = pipeline_fps(
                match report {
                    SetupReport::Signal(rate) => rate,
                    _ => None,
                },
                config.max_fps,
            );
            match config.output_codec {
                VideoEncoderType::H264 | VideoEncoderType::H265 => {
                    &&& after == (PipelineSetup { phase: SetupPhase::OpeningEncoder, fps, ..before })
                    &&& action == SetupAction::OpenEncoder(
                        EncoderRequest {
                            codec: if config.output_codec == VideoEncoderType::H265 {
                                VlCodecId::H265
                            } else {
                                VlCodecId::H264
                            },
                            width: before.resolution.width as i32,
                            height: before.resolution.height as i32,
                            fps: fps as i32,
                            bitrate_kbps: config.bitrate_kbps as i32,
                            gop: config.gop,
                            gop_pattern: config.gop_pattern,
                            rc_mode: config.rc_mode,
                        },
                    )
                },
                _ => action is Stop && after == (PipelineSetup {
                    phase: SetupPhase::Failed,
                    fps,
                    ..before
                }),
            }
        },
        SetupPhase::OpeningEncoder => match report {
            SetupReport::EncoderOpened => {
                &&& after == (PipelineSetup { phase: SetupPhase::AskingHeader, ..before })
                &&& action is AskHeader
            },
            _ => failed,
        },
        SetupPhase::AskingHeader => {
            &&& after == (PipelineSetup { phase: SetupPhase::Ready, ..before })
            &&& match report {
                SetupReport::Header(data) => action == SetupAction::BroadcastAndRun(
                    EncodedVideoFrame {
                        data,
                        pts_ms: 0,
                        is_keyframe: true,
                        sequence: 0,
                        duration_ns: 0,
                        codec: config.output_codec,
                    },
                ),
                _ => action is Run,
            }
        },
        SetupPhase::Ready => after == before && action is Run,
        SetupPhase::Failed => after == before && action is Stop,
    }
}

impl PipelineSetup {
    /// Takes up a report; gives what the caller is to do next.
    pub fn advance(&mut self, config: &AmlPipelineConfig, report: SetupReport) -> (r: SetupAction)
        ensures
            setup_step(*config, *old(self), report, *final(self), r),
    {
        match self.phase {
            SetupPhase::Begun => {
                self.phase = SetupPhase::OpeningNative;
                SetupAction::OpenCapture(native_capture(config))
            },
            SetupPhase::OpeningNative => match report {
                SetupReport::Opened(size) => {
                    self.resolution = size;
                    match limited_capture(config, size) {
                        Some(limited) => {
                            self.phase = SetupPhase::OpeningLimited;
                            SetupAction::OpenCapture(limited)
                        },
                        None => {
                            self.phase = SetupPhase::AskingSignal;
                            SetupAction::AskSignal
                        },
                    }
                },
                _ => {
                    self.phase = SetupPhase::Failed;
                    SetupAction::Stop
                },
            },
            SetupPhase::OpeningLimited => match report {
                SetupReport::Opened(size) => {
                    self.resolution = size;
                    self.phase = SetupPhase::AskingSignal;
                    SetupAction::AskSignal
                },
                _ => {
                    self.phase = SetupPhase::Failed;
                    SetupAction::Stop
                },
            },
            SetupPhase::AskingSignal => {
                let signal_fps: Option<u32> = match report {
                    SetupReport::Signal(rate) => rate,
                    _ => None,
                };
                self.fps = choose_fps(signal_fps, config.max_fps);
                let width: i32 = self.resolution.width as i32;
                let height: i32 = self.resolution.height as i32;
                let fps: i32 = self.fps as i32;
                match create_encoder(config, width, height, fps) {
                    Ok(request) => {
                        self.phase = SetupPhase::OpeningEncoder;
                        SetupAction::OpenEncoder(request)
                    },
                    Err(_) => {
                        self.phase = SetupPhase::Failed;
                        SetupAction::Stop
                    },
                }
            },
            SetupPhase::OpeningEncoder => match report {
                SetupReport::EncoderOpened => {
                    self.phase = SetupPhase::AskingHeader;
                    SetupAction::AskHeader
                },
                _ => {
                    self.phase = SetupPhase::Failed;
                    SetupAction::Stop
                },
            },
            SetupPhase::AskingHeader => {
                self.phase = SetupPhase::Ready;
                match report {
                    SetupReport::Header(data) => SetupAction::BroadcastAndRun(
                        header_frame(data, config.output_codec),
                    ),
                    _ => SetupAction::Run,
                }
            },
            SetupPhase::Ready => SetupAction::Run,
            SetupPhase::Failed => SetupAction::Stop,
        }
    }
}

// ---------------------------------------------------------------- capturing

/// A frame for the encoder.
#[derive(Debug, Clone, Copy, PartialEq, Eq)]
pub struct EncodeTask {
    pub index: u32,
    pub dmabuf_fd: i32,
    pub dmabuf_fd2: i32,
    pub width: u32,
    pub height: u32,
    pub bytesperline: u32,
    pub size: u32,
    pub format: u32,
}

/// The encoder's task for a frame.
pub open spec fn task_of(dma: DmaBufFrame) -> EncodeTask {
    EncodeTask {
        index: dma.index,
        dmabuf_fd: dma.dmabuf_fd,
        dmabuf_fd2: dma.dmabuf_fd2,
        width: dma.width,
        height: dma.height,
        bytesperline: dma.bytesperline,
        size: dma.size,
        format: dma.format,
    }
}

/// Every frame stands under its own index.
pub open spec fn by_own_index(frames: Map<u32, DmaBufFrame>) -> bool {
    forall|k: u32| #[trigger] frames.contains_key(k) ==> frames[k].index == k
}

/// No two frames have the same index.
pub open spec fn distinct_indices(frames: Seq<DmaBufFrame>) -> bool {
    forall|i: int, j: int|
        0 <= i < j < frames.len() ==> (#[trigger] frames[i]).index != (#[trigger] frames[j]).index
}

/// The state of the capturing thread.
#[derive(Debug)]
pub struct CaptureLoop {
    pub consecutive_timeouts: u32,
    pub frame_count: u64,
    pub fps_frame_count: u64,
    /// The frames that are with the encoder, each under its index.
    pub pending: HashMap<u32, DmaBufFrame>,
}

/// What follows a wait for a frame.
#[derive(Debug)]
pub enum CaptureStep {
    /// Go on.
    Continue,
    /// Go on after a pause of so many milliseconds.
    Pause(u64),
    /// Hand the frame to the encoder.
    Queue(EncodeTask),
    /// Pause so many milliseconds, give the frame back and go on.
    ReleaseAfter(u64, FrameData),
    /// Give the frame back and stop: the source has changed.
    ReleaseAndStop(FrameData),
    /// Stop: no frame comes.
    Stop,
}

impl CaptureLoop {
    /// Whether the state is one that the thread can be in.
    pub open spec fn wf(self) -> bool {
        &&& self.consecutive_timeouts < CAPTURE_TIMEOUT_STOP_THRESHOLD
        &&& by_own_index(self.pending@)
    }

    /// The frames that are with the encoder.
    pub open spec fn with_encoder(self) -> Map<u32, DmaBufFrame> {
        self.pending@
    }

    /// The state at the start.
    pub fn new() -> (r: Self)
        ensures
            r.wf(),
            r.consecutive_timeouts == 0,
            r.frame_count == 0,
            r.fps_frame_count == 0,
            r.with_encoder() == Map::<u32, DmaBufFrame>::empty(),
    {
        CaptureLoop {
            consecutive_timeouts: 0,
            frame_count: 0,
            fps_frame_count: 0,
            pending: HashMap::new(),
        }
    }

    /// The encoder is done with a frame: gives the frame that the capture is to release, if the
    /// frame was still with the encoder.
    pub fn frame_done(&mut self, index: u32) -> (r: Option<DmaBufFrame>)
        requires
            old(self).wf(),
        ensures
            final(self).wf(),
            final(self).with_encoder() == old(self).with_encoder().remove(index),
            match r {
                Some(dma) => old(self).with_encoder().contains_key(index) && dma == old(
                    self,
                ).with_encoder()[index],
                None => !old(self).with_encoder().contains_key(index),
            },
            final(self).consecutive_timeouts == old(self).consecutive_timeouts,
            final(self).frame_count == old(self).frame_count,
            final(self).fps_frame_count == old(self).fps_frame_count,
    {
        broadcast use vstd::std_specs::hash::group_hash_axioms;

        self.pending.remove(&index)
    }

    /// Puts a frame with the encoder, in place of one of the same index.
    fn keep(&mut self, dma: DmaBufFrame)
        requires
            old(self).wf(),
        ensures
            final(self).wf(),
            final(self).with_encoder() == old(self).with_encoder().insert(dma.index, dma),
            final(self).consecutive_timeouts == old(self).consecutive_timeouts,
            final(self).frame_count == old(self).frame_count,
            final(self).fps_frame_count == old(self).fps_frame_count,
    {
        broadcast use vstd::std_specs::hash::group_hash_axioms;

        let _ = self.pending.insert(dma.index, dma);
    }

    /// Takes up what the wait for a frame ended in.
    pub fn captured(&mut self, result: Result<CaptureResult, CaptureError>, has_subscribers: bool)
        -> (r: CaptureStep)
        requires
            old(self).wf(),
        ensures
            capture_step(*old(self), result, has_subscribers, r, *final(self)),
            !(r is Stop) ==> final(self).wf(),
            by_own_index(final(self).pending@),
    {
        let captured = match result {
            Ok(captured) => captured,
            Err(e) => {
                return match e {
                    CaptureError::TimedOut => {
                        self.consecutive_timeouts = self.consecutive_timeouts + 1;
                        if self.consecutive_timeouts >= CAPTURE_TIMEOUT_STOP_THRESHOLD {
                            CaptureStep::Stop
                        } else {
                            CaptureStep::Continue
                        }
                    },
                    CaptureError::NotConnected => CaptureStep::Pause(100),
                    CaptureError::Other(_) => CaptureStep::Continue,
                };
            },
        };
        self.consecutive_timeouts = 0;
        if captured.reconfigured {
            return CaptureStep::ReleaseAndStop(captured.frame);
        }
        if !has_subscribers {
            return CaptureStep::ReleaseAfter(33, captured.frame);
        }
        match captured.frame {
            FrameData::DmaBuf(dma) => {
                self.keep(dma);
                CaptureStep::Queue(
                    EncodeTask {
                        index: dma.index,
                        dmabuf_fd: dma.dmabuf_fd,
                        dmabuf_fd2: dma.dmabuf_fd2,
                        width: dma.width,
                        height: dma.height,
                        bytesperline: dma.bytesperline,
                        size: dma.size,
                        format: dma.format,
                    },
                )
            },
            FrameData::Mapped { .. } => CaptureStep::Continue,
        }
    }

    /// The encoder has taken the frame into its queue.
    pub fn queued(&mut self)
        requires
            old(self).wf(),
        ensures
            final(self).wf(),
            *final(self) == (CaptureLoop {
                frame_count: one_more(old(self).frame_count),
                fps_frame_count: one_more(old(self).fps_frame_count),
                ..*old(self)
            }),
    {
        self.frame_count = self.frame_count.saturating_add(1);
        self.fps_frame_count = self.fps_frame_count.saturating_add(1);
    }

    /// The frames since the rate was last measured; counting starts anew.
    pub fn take_fps_count(&mut self) -> (r: u64)
        requires
            old(self).wf(),
        ensures
            final(self).wf(),
            r == old(self).fps_frame_count,
            *final(self) == (CaptureLoop { fps_frame_count: 0, ..*old(self) }),
    {
        let n: u64 = self.fps_frame_count;
        self.fps_frame_count = 0;
        n
    }

    /// The pipeline has stopped: gives every frame that was not reported, once, for the capture to
    /// release.
    pub fn finish(&mut self) -> (r: Vec<DmaBufFrame>)
        requires
            by_own_index(old(self).pending@),
        ensures
            distinct_indices(r@),
            r@.to_set() == old(self).with_encoder().values(),
            final(self).with_encoder() == Map::<u32, DmaBufFrame>::empty(),
            *final(self) == (CaptureLoop { pending: final(self).pending, ..*old(self) }),
    {
        broadcast use vstd::std_specs::hash::group_hash_axioms;

        let mut out: Vec<DmaBufFrame> = Vec::new();
        let ghost frames = self.pending@;
        let ghost mut order: Seq<u32> = Seq::empty();
        for index in it: self.pending.keys()
            invariant
                self.pending@ == frames,
                by_own_index(frames),
                it.seq().unref().to_set() == frames.dom(),
                it.seq().no_duplicates(),
                order == it.seq().unref().take(it.index()),
                it.index() == it.seq().len() ==> order == it.seq().unref(),
                out@.len() == order.len(),
                forall|i: int|
                    0 <= i < out@.len() ==> frames.contains_key(order[i]) && (
                    #[trigger] out@[i]) == frames[order[i]],
        {
            proof {
                order = order.push(*index);
                assert(order == it.seq().unref().take(it.index() + 1));
                assert(it.seq().unref().to_set().contains(*index));
            }
            if let Some(dma) = self.pending.get(index) {
                out.push(*dma);
            }
        }
        proof {
            assert(order.to_set() == frames.dom());
            assert forall|k: u32| #[trigger] frames.contains_key(k) implies out@.contains(
                frames[k],
            ) by {
                assert(order.to_set().contains(k));
                let i = choose|i: int| 0 <= i < order.len() && order[i] == k;
                assert(out@[i] == frames[k]);
            }
            assert(out@.to_set() =~= frames.values());
        }
        self.pending.clear();
        out
    }
}

/// One more, up to the greatest number.
pub open spec fn one_more(n: u64) -> u64 {
    if n == u64::MAX {
        n
    } else {
        (n + 1) as u64
    }
}

/// What a wait for a frame leads to. A frame that comes ends a row of timeouts. One that shows
/// that the source has changed stops the pipeline. Without a subscriber frames go back at once.
/// Only frames in the device's memory are encoded.
pub open spec fn capture_step(
    before: CaptureLoop,
    result: Result<CaptureResult, CaptureError>,
    has_subscribers: bool,
    step: CaptureStep,
    after: CaptureLoop,
) -> bool {
    &&& after.frame_count == before.frame_count
    &&& after.fps_frame_count == before.fps_frame_count
    &&& match result {
        Err(CaptureError::TimedOut) => {
            &&& after.pending == before.pending
            &&& after.consecutive_timeouts == before.consecutive_timeouts + 1
            &&& if after.consecutive_timeouts >= CAPTURE_TIMEOUT_STOP_THRESHOLD {
                step is Stop
            } else {
                step is Continue
            }
        },
        Err(CaptureError::NotConnected) => after == before && step == CaptureStep::Pause(100),
        Err(CaptureError::Other(_)) => after == before && step is Continue,
        Ok(c) => {
            &&& after.consecutive_timeouts == 0
            &&& if c.reconfigured {
                after.pending == before.pending && step == CaptureStep::ReleaseAndStop(c.frame)
            } else if !has_subscribers {
                after.pending == before.pending && step == CaptureStep::ReleaseAfter(33, c.frame)
            } else {
                match c.frame {
                    FrameData::DmaBuf(dma) => {
                        &&& after.with_encoder() == before.with_encoder().insert(dma.index, dma)
                        &&& step == CaptureStep::Queue(task_of(dma))
                    },
                    FrameData::Mapped { .. } => after.pending == before.pending
                        && step is Continue,
                }
            }
        },
    }
}

// ---------------------------------------------------------------- encoding

/// How many planes a frame's picture has.
pub fn task_planes(task: &EncodeTask) -> (r: u32)
    ensures
        r == (if task.dmabuf_fd2 >= 0 {
            2u32
        } else {
            1u32
        }),
{
    if task.dmabuf_fd2 >= 0 {
        2
    } else {
        1
    }
}

/// Division that rounds toward zero.
pub open spec fn toward_zero(n: int, d: int) -> int
    recommends
        d > 0,
{
    if n >= 0 {
        n / d
    } else {
        -((-n) / d)
    }
}

/// A frame that came out of the encoder, as it goes to the subscribers.
pub open spec fn is_published(
    r: EncodedVideoFrame,
    encoded: AmlEncodedFrame,
    sequence: u64,
    fps: u32,
    codec: VideoEncoderType,
) -> bool {
    &&& r.data == encoded.data
    &&& r.pts_ms == toward_zero(encoded.pts_us as int, 1000)
    &&& r.is_keyframe == encoded.is_keyframe
    &&& r.sequence == sequence
    &&& r.duration_ns == 1000int / (fps as int) * 1_000_000
    &&& r.codec == codec
}

/// What becomes of a frame that came out of the encoder.
pub open spec fn publishes(
    encoded: AmlEncodedFrame,
    before: u64,
    after: u64,
    fps: u32,
    codec: VideoEncoderType,
    r: Option<EncodedVideoFrame>,
) -> bool {
    &&& r is None <==> encoded.is_delay
    &&& match r {
        None => after == before,
        Some(frame) => after == one_more(before) && is_published(
            frame,
            encoded,
            after,
            fps,
            codec,
        ),
    }
}

/// Takes up a frame that came out of the encoder: numbers it and dates it. The encoder may hold
/// a frame back; then nothing is published and nothing is counted.
pub fn publish_encoded(
    encoded: AmlEncodedFrame,
    sequence: &mut u64,
    fps: u32,
    codec: VideoEncoderType,
) -> (r: Option<EncodedVideoFrame>)
    requires
        fps > 0,
    ensures
        r is None <==> encoded.is_delay,
        match r {
            None => *final(sequence) == *old(sequence),
            Some(frame) => *final(sequence) == one_more(*old(sequence)) && is_published(
                frame,
                encoded,
                *final(sequence),
                fps,
                codec,
            ),
        },
        publishes(encoded, *old(sequence), *final(sequence), fps, codec, r),
{
    if encoded.is_delay {
        return None;
    }
    *sequence = sequence.saturating_add(1);
    let us: i64 = encoded.pts_us as i64;
    let pts_ms: i64 = if us >= 0 {
        us / 1000
    } else {
        -((-us) / 1000)
    };
    Some(
        EncodedVideoFrame {
            data: encoded.data,
            pts_ms,
            is_keyframe: encoded.is_keyframe,
            sequence: *sequence,
            duration_ns: (1000 / fps as u128) * 1_000_000,
            codec,
        },
    )
}

/// What the wait for a frame to encode ended in.
#[derive(Debug, Clone, Copy, PartialEq, Eq)]
pub enum QueueEvent {
    Task(EncodeTask),
    Timeout,
    Disconnected,
}

/// What the encoding thread does next.
#[derive(Debug, Clone, Copy, PartialEq, Eq)]
pub enum EncodeTurn {
    /// Wait again.
    WaitAgain,
    /// Encode the frame, with so many planes, and report it as done.
    Encode(EncodeTask, u32),
    /// Report the frame and all that wait as done, and stop.
    ReportAllAndStop(EncodeTask),
    /// Stop.
    Stop,
}

/// What the encoding thread does next: no frame is encoded once the pipeline has stopped or the
/// capture has ended, and every frame that was taken is reported.
pub open spec fn encode_turn_of(running: bool, active: bool, event: QueueEvent) -> EncodeTurn {
    match event {
        QueueEvent::Timeout => EncodeTurn::WaitAgain,
        QueueEvent::Disconnected => EncodeTurn::Stop,
        QueueEvent::Task(task) => if running && active {
            EncodeTurn::Encode(
                task,
                if task.dmabuf_fd2 >= 0 {
                    2
                } else {
                    1
                },
            )
        } else {
            EncodeTurn::ReportAllAndStop(task)
        },
    }
}

/// Decides what the encoding thread does next.
pub fn encode_turn(running: bool, active: bool, event: QueueEvent) -> (r: EncodeTurn)
    ensures
        r == encode_turn_of(running, active, event),
{
    match event {
        QueueEvent::Timeout => EncodeTurn::WaitAgain,
        QueueEvent::Disconnected => EncodeTurn::Stop,
        QueueEvent::Task(task) => if running && active {
            EncodeTurn::Encode(task, task_planes(&task))
        } else {
            EncodeTurn::ReportAllAndStop(task)
        },
    }
}

// ---------------------------------------------------------------- the pipeline's state

/// The state that both threads share.
#[derive(Debug)]
pub struct AmlPipeline {
    pub config: AmlPipelineConfig,
    pub running: bool,
    pub thread_done: bool,
    pub sequence: u64,
    pub keyframe_requested: bool,
}

impl AmlPipeline {
    /// A pipeline that has not started.
    pub fn new(config: AmlPipelineConfig) -> (r: Self)
        ensures
            r == (AmlPipeline {
                config,
                running: false,
                thread_done: false,
                sequence: 0,
                keyframe_requested: false,
            }),
    {
        AmlPipeline {
            config,
            running: false,
            thread_done: false,
            sequence: 0,
            keyframe_requested: false,
        }
    }

    /// Whether the pipeline runs.
    pub fn is_running(&self) -> (r: bool)
        ensures
            r == self.running,
    {
        self.running
    }

    /// Asks for a key frame.
    pub fn request_keyframe(&mut self)
        ensures
            *final(self) == (AmlPipeline { keyframe_requested: true, ..*old(self) }),
    {
        self.keyframe_requested = true;
    }

    /// Whether a key frame was asked for; a request is served once.
    pub fn take_keyframe_request(&mut self) -> (r: bool)
        ensures
            r == old(self).keyframe_requested,
            *final(self) == (AmlPipeline { keyframe_requested: false, ..*old(self) }),
    {
        let asked = self.keyframe_requested;
        self.keyframe_requested = false;
        asked
    }

    /// Starts the pipeline; gives whether its threads are to be started, which they are not
    /// where it runs already.
    pub fn start(&mut self) -> (r: bool)
        ensures
            r == !old(self).running,
            *final(self) == (if old(self).running {
                *old(self)
            } else {
                AmlPipeline { running: true, sequence: 0, thread_done: false, ..*old(self) }
            }),
    {
        if self.running {
            return false;
        }
        self.running = true;
        self.sequence = 0;
        self.thread_done = false;
        true
    }

    /// Stops the pipeline.
    pub fn stop(&mut self)
        ensures
            *final(self) == (AmlPipeline { running: false, ..*old(self) }),
    {
        self.running = false;
    }

    /// The capturing thread has ended.
    pub fn thread_ended(&mut self)
        ensures
            *final(self) == (AmlPipeline { running: false, thread_done: true, ..*old(self) }),
    {
        self.running = false;
        self.thread_done = true;
    }
}

// ---------------------------------------------------------------- laws

/// A pipeline that is set up captures within its limits or at the source's own size, at a rate
/// that is not zero, and an encoder for another codec than the two is never opened.
pub proof fn setup_keeps_to_the_config(
    config: AmlPipelineConfig,
    before: PipelineSetup,
    report: SetupReport,
    after: PipelineSetup,
    action: SetupAction,
)
    requires
        setup_step(config, before, report, after, action),
    ensures
        action matches SetupAction::OpenEncoder(q) ==> after.fps >= 1 && (config.output_codec
            == VideoEncoderType::H264 || config.output_codec == VideoEncoderType::H265),
        action matches SetupAction::OpenCapture(c) ==> c.color_mode == config.color_mode && (
        c.target_width == 0 && c.target_height == 0 || c.target_width == config.max_width
            && c.target_height == config.max_height),
        report is Failed && (before.phase == SetupPhase::OpeningNative || before.phase
            == SetupPhase::OpeningLimited || before.phase == SetupPhase::OpeningEncoder)
            ==> action is Stop,
{
}

/// A frame that the encoder reports done is released for the report once and not twice: it is no
/// longer with the encoder, and reporting it again releases nothing. No other frame is touched.
pub proof fn a_report_releases_a_frame_once(out: Map<u32, DmaBufFrame>, index: u32)
    ensures
        !out.remove(index).contains_key(index),
        forall|k: u32| k != index && #[trigger] out.contains_key(k) ==> out.remove(index).contains_key(k)
            && out.remove(index)[k] == out[k],
{
}

/// A frame that comes is never lost: it is with the encoder, or it is given back, unless it was
/// copied to memory, which no device frame is. The encoder's task names the frame's own buffers
/// and geometry, and the frame is kept under its own index.
pub proof fn no_device_frame_is_lost(
    before: CaptureLoop,
    captured: CaptureResult,
    has_subscribers: bool,
    step: CaptureStep,
    after: CaptureLoop,
)
    requires
        capture_step(before, Ok(captured), has_subscribers, step, after),
        captured.frame is DmaBuf,
    ensures
        ({
            ||| step matches CaptureStep::Queue(task) && after.with_encoder().contains_key(task.index)
                && after.with_encoder()[task.index] == captured.frame->DmaBuf_0 && {
                let dma = captured.frame->DmaBuf_0;
                &&& task.index == dma.index
                &&& task.dmabuf_fd == dma.dmabuf_fd
                &&& task.dmabuf_fd2 == dma.dmabuf_fd2
                &&& task.width == dma.width
                &&& task.height == dma.height
                &&& task.bytesperline == dma.bytesperline
                &&& task.size == dma.size
                &&& task.format == dma.format
            }
            ||| step matches CaptureStep::ReleaseAfter(_, frame) && frame == captured.frame
            ||| step matches CaptureStep::ReleaseAndStop(frame) && frame == captured.frame
        }),
{
}

/// The pipeline gives up only after a full row of timeouts: a single frame starts the count
/// anew.
pub proof fn a_frame_ends_a_row_of_timeouts(
    before: CaptureLoop,
    captured: CaptureResult,
    has_subscribers: bool,
    step: CaptureStep,
    after: CaptureLoop,
)
    requires
        capture_step(before, Ok(captured), has_subscribers, step, after),
    ensures
        after.consecutive_timeouts == 0,
        !(step is Stop),
{
}

/// The codec that an encoder is opened for is the one of the pipeline's settings, at the size
/// and the rate that were found and with the rates of the settings; there is no encoder for
/// another codec.
pub proof fn an_encoder_is_opened_as_configured(
    config: AmlPipelineConfig,
    width: i32,
    height: i32,
    fps: i32,
    r: Result<EncoderRequest, AppError>,
)
    requires
        call_ensures(create_encoder, (&config, width, height, fps), r),
    ensures
        r is Ok <==> config.output_codec == VideoEncoderType::H264 || config.output_codec
            == VideoEncoderType::H265,
        r matches Ok(q) ==> {
            &&& q.codec == VlCodecId::H265 <==> config.output_codec == VideoEncoderType::H265
            &&& q.codec == VlCodecId::H264 <==> config.output_codec == VideoEncoderType::H264
            &&& q.width == width && q.height == height && q.fps == fps
            &&& config.bitrate_kbps <= i32::MAX ==> q.bitrate_kbps == config.bitrate_kbps
            &&& q.gop == config.gop && q.gop_pattern == config.gop_pattern && q.rc_mode
                == config.rc_mode
        },
{
}

/// The rate is the source's where it has one, but never above a limit that is set; a source
/// without a rate gets the limit, and 30 where there is none.
pub proof fn the_rate_is_the_sources_within_the_limit(signal_fps: Option<u32>, max_fps: u32)
    ensures
        ({
            let fps = pipeline_fps(signal_fps, max_fps);
            let known = signal_fps is Some && signal_fps->0 > 0;
            &&& fps > 0
            &&& max_fps > 0 ==> fps <= max_fps
            &&& known ==> fps <= signal_fps->0
            &&& known && (max_fps == 0 || signal_fps->0 <= max_fps) ==> fps == signal_fps->0
            &&& known && max_fps > 0 && signal_fps->0 > max_fps ==> fps == max_fps
            &&& !known && max_fps > 0 ==> fps == max_fps
            &&& !known && max_fps == 0 ==> fps == 30
        }),
{
}

/// A whole setup, for a source that the limits do not touch: the capture is opened at the
/// source's own size and rate, and the encoder for the size that the capture reports and for the
/// source's rate; the headers go to the subscribers first, as a key frame.
pub proof fn setup_at_the_sources_size(
    config: AmlPipelineConfig,
    s: Seq<PipelineSetup>,
    a: Seq<SetupAction>,
    size: Resolution,
    rate: Option<u32>,
    header: Vec<u8>,
)
    requires
        s.len() == 6,
        a.len() == 5,
        s[0].phase == SetupPhase::Begun,
        setup_step(config, s[0], SetupReport::Begin, s[1], a[0]),
        setup_step(config, s[1], SetupReport::Opened(size), s[2], a[1]),
        setup_step(config, s[2], SetupReport::Signal(rate), s[3], a[2]),
        setup_step(config, s[3], SetupReport::EncoderOpened, s[4], a[3]),
        setup_step(config, s[4], SetupReport::Header(header), s[5], a[4]),
        config.max_width == 0 || config.max_height == 0 || (size.width <= config.max_width
            && size.height <= config.max_height),
        config.output_codec == VideoEncoderType::H264 || config.output_codec
            == VideoEncoderType::H265,
        size.width <= i32::MAX && size.height <= i32::MAX,
        rate matches Some(n) ==> n <= i32::MAX,
        config.max_fps <= i32::MAX,
    ensures
        a[0] matches SetupAction::OpenCapture(c) && c.output_format == VfmcapOutputFmt::Nv12
            && c.target_width == 0 && c.target_height == 0 && c.target_fps == 0 && c.color_mode
            == config.color_mode,
        a[1] is AskSignal,
        a[2] matches SetupAction::OpenEncoder(q) && q.width == size.width && q.height
            == size.height && q.fps == s[5].fps && (q.codec == VlCodecId::H265
            <==> config.output_codec == VideoEncoderType::H265) && (q.codec == VlCodecId::H264
            <==> config.output_codec == VideoEncoderType::H264) && q.gop == config.gop
            && q.gop_pattern == config.gop_pattern && q.rc_mode == config.rc_mode && (
        config.bitrate_kbps <= i32::MAX ==> q.bitrate_kbps == config.bitrate_kbps),
        a[3] is AskHeader,
        a[4] matches SetupAction::BroadcastAndRun(frame) && frame.data == header
            && frame.is_keyframe && frame.codec == config.output_codec && frame.pts_ms == 0
            && frame.sequence == 0 && frame.duration_ns == 0,
        s[5].phase == SetupPhase::Ready,
        s[5].resolution == size,
        s[5].fps >= 1,
        rate is Some && rate->0 > 0 && (config.max_fps == 0 || rate->0 <= config.max_fps)
            ==> s[5].fps == rate->0,
        config.max_fps > 0 ==> s[5].fps <= config.max_fps,
{
}

/// A whole setup, for a source that is larger than the limits in either direction: the capture
/// is opened anew at the limits, in place of the first one, and the encoder for the size that the
/// second one reports.
pub proof fn setup_within_the_limits(
    config: AmlPipelineConfig,
    s: Seq<PipelineSetup>,
    a: Seq<SetupAction>,
    native: Resolution,
    size: Resolution,
    rate: Option<u32>,
)
    requires
        s.len() == 5,
        a.len() == 4,
        s[0].phase == SetupPhase::Begun,
        setup_step(config, s[0], SetupReport::Begin, s[1], a[0]),
        setup_step(config, s[1], SetupReport::Opened(native), s[2], a[1]),
        setup_step(config, s[2], SetupReport::Opened(size), s[3], a[2]),
        setup_step(config, s[3], SetupReport::Signal(rate), s[4], a[3]),
        config.max_width > 0 && config.max_height > 0,
        native.width > config.max_width || native.height > config.max_height,
        config.output_codec == VideoEncoderType::H264 || config.output_codec
            == VideoEncoderType::H265,
        size.width <= i32::MAX && size.height <= i32::MAX,
    ensures
        a[1] matches SetupAction::OpenCapture(c) && c.output_format == VfmcapOutputFmt::Nv12
            && c.target_width == config.max_width && c.target_height == config.max_height
            && c.target_fps == config.max_fps && c.color_mode == config.color_mode,
        a[2] is AskSignal,
        a[3] matches SetupAction::OpenEncoder(q) && q.width == size.width && q.height
            == size.height,
        s[4].resolution == size,
        s[4].phase == SetupPhase::OpeningEncoder,
{
}

/// A step of the setup that fails ends the pipeline for good, except that the headers of the
/// stream can be done without; nothing is done out of turn.
pub proof fn a_failed_setup_stays_failed(
    config: AmlPipelineConfig,
    before: PipelineSetup,
    report: SetupReport,
    after: PipelineSetup,
    action: SetupAction,
)
    requires
        setup_step(config, before, report, after, action),
    ensures
        before.phase == SetupPhase::Failed ==> after == before && action is Stop,
        before.phase == SetupPhase::Ready ==> after == before && action is Run,
        after.phase == SetupPhase::Failed <==> action is Stop,
        before.phase == SetupPhase::AskingHeader ==> after.phase == SetupPhase::Ready && (action is
            Run || action is BroadcastAndRun),
        before.phase == SetupPhase::AskingHeader && !(report is Header) ==> action is Run,
        (before.phase == SetupPhase::OpeningNative || before.phase == SetupPhase::OpeningLimited)
            && !(report is Opened) ==> action is Stop,
        before.phase == SetupPhase::OpeningEncoder && !(report is EncoderOpened) ==> action is Stop,
        action is BroadcastAndRun ==> before.phase == SetupPhase::AskingHeader,
        action is OpenEncoder ==> before.phase == SetupPhase::AskingSignal,
        action is OpenCapture ==> before.phase == SetupPhase::Begun || before.phase
            == SetupPhase::OpeningNative,
{
}

/// Sixty waits in a row without a frame end the capture, and no fewer do; a lost signal is waited
/// out for a tenth of a second, and other failures are passed over. None of this touches the
/// frames that are with the encoder.
pub proof fn waits_without_a_frame(
    before: CaptureLoop,
    error: CaptureError,
    has_subscribers: bool,
    step: CaptureStep,
    after: CaptureLoop,
)
    requires
        before.wf(),
        capture_step(before, Err(error), has_subscribers, step, after),
    ensures
        after.with_encoder() == before.with_encoder(),
        after.frame_count == before.frame_count,
        after.fps_frame_count == before.fps_frame_count,
        error is TimedOut ==> after.consecutive_timeouts == before.consecutive_timeouts + 1 && (
        step is Stop <==> before.consecutive_timeouts == 59) && (step is Continue
            <==> before.consecutive_timeouts < 59),
        error is NotConnected ==> (step matches CaptureStep::Pause(ms) && ms == 100)
            && after.consecutive_timeouts == before.consecutive_timeouts,
        error is Other ==> step is Continue && after.consecutive_timeouts
            == before.consecutive_timeouts,
{
}

/// What is done with a frame: one that shows a new source goes back and ends the capture, whoever
/// watches; while nobody watches a frame goes back after 33 milliseconds; a frame in the device's
/// memory is queued while someone watches, and adds nothing to the encoder's frames but itself.
pub proof fn a_frame_is_queued_or_released(
    before: CaptureLoop,
    c: CaptureResult,
    has_subscribers: bool,
    step: CaptureStep,
    after: CaptureLoop,
)
    requires
        capture_step(before, Ok(c), has_subscribers, step, after),
    ensures
        step is ReleaseAndStop <==> c.reconfigured,
        step is ReleaseAfter <==> !c.reconfigured && !has_subscribers,
        step is Queue <==> !c.reconfigured && has_subscribers && c.frame is DmaBuf,
        step is Continue <==> !c.reconfigured && has_subscribers && c.frame is Mapped,
        step matches CaptureStep::ReleaseAndStop(frame) ==> frame == c.frame,
        step matches CaptureStep::ReleaseAfter(ms, frame) ==> ms == 33 && frame == c.frame,
        !(step is Queue) ==> after.with_encoder() == before.with_encoder(),
        step matches CaptureStep::Queue(task) ==> forall|k: u32|
            k != task.index ==> (#[trigger] after.with_encoder().contains_key(k)
                <==> before.with_encoder().contains_key(k)),
        step matches CaptureStep::Queue(task) ==> forall|k: u32|
            k != task.index && before.with_encoder().contains_key(k)
                ==> #[trigger] after.with_encoder()[k] == before.with_encoder()[k],
        after.frame_count == before.frame_count && after.fps_frame_count == before.fps_frame_count,
{
}

/// A frame is encoded while the pipeline runs and the capture goes on, with one plane or with two
/// where it has a second buffer; once either has ended, every frame is only reported as done. No
/// frame is ever dropped without a report.
pub proof fn every_task_is_encoded_or_reported(running: bool, active: bool, task: EncodeTask)
    ensures
        encode_turn_of(running, active, QueueEvent::Task(task)) is Encode <==> running && active,
        encode_turn_of(running, active, QueueEvent::Task(task)) is ReportAllAndStop <==> !(running
            && active),
        encode_turn_of(running, active, QueueEvent::Task(task)) matches EncodeTurn::Encode(t, planes)
            ==> t == task && (planes == 2 <==> task.dmabuf_fd2 >= 0) && (planes == 1
            <==> task.dmabuf_fd2 < 0),
        encode_turn_of(running, active, QueueEvent::Task(task)) matches EncodeTurn::ReportAllAndStop(
            t,
        ) ==> t == task,
        encode_turn_of(running, active, QueueEvent::Timeout) is WaitAgain,
        encode_turn_of(running, active, QueueEvent::Disconnected) is Stop,
{
}

/// A published frame is the encoder's own: its bytes, its kind, its time in whole milliseconds
/// toward zero, the next number, and as long as one of so many frames that a second holds, in
/// whole milliseconds. A frame that the encoder holds back takes no number.
pub proof fn a_published_frame_is_the_encoders(
    encoded: AmlEncodedFrame,
    before: u64,
    after: u64,
    fps: u32,
    codec: VideoEncoderType,
    r: Option<EncodedVideoFrame>,
)
    requires
        publishes(encoded, before, after, fps, codec, r),
        fps > 0,
    ensures
        r is Some <==> !encoded.is_delay,
        r is None ==> after == before,
        r matches Some(frame) ==> {
            &&& frame.data == encoded.data
            &&& frame.is_keyframe == encoded.is_keyframe
            &&& frame.codec == codec
            &&& frame.sequence == after
            &&& before < u64::MAX ==> after == before + 1
            &&& -1000 < encoded.pts_us - frame.pts_ms * 1000 < 1000
            &&& encoded.pts_us >= 0 ==> frame.pts_ms >= 0 && frame.pts_ms * 1000 <= encoded.pts_us
            &&& encoded.pts_us < 0 ==> frame.pts_ms <= 0 && frame.pts_ms * 1000 >= encoded.pts_us
            &&& frame.duration_ns % 1_000_000 == 0
            &&& frame.duration_ns * fps <= 1_000_000_000
            &&& (frame.duration_ns + 1_000_000) * fps > 1_000_000_000
        },
{
    if r is Some {
        let ms = 1000int / (fps as int);
        vstd::arithmetic::div_mod::lemma_fundamental_div_mod(1000, fps as int);
        let duration = r->0.duration_ns as int;
        assert(duration == ms * 1_000_000);
        assert(duration * fps <= 1_000_000_000 && (duration + 1_000_000) * fps > 1_000_000_000)
            by (nonlinear_arith)
            requires
                duration == ms * 1_000_000,
                1000 == fps * ms + 1000int % (fps as int),
                0 <= 1000int % (fps as int) < fps,
                fps > 0,
        ;
    }
}

/// The default setup: H.265 with 8000 kilobits, a key frame every 30 frames, and up to 3840 by
/// 2160 at 240 frames, from the HDMI input.
pub proof fn the_default_setup(c: AmlPipelineConfig)
    requires
        is_default_config(c),
    ensures
        c.max_width == 3840 && c.max_height == 2160 && c.max_fps == 240,
        c.output_codec == VideoEncoderType::H265 && c.bitrate_kbps == 8000,
        c.gop == 30 && c.gop_pattern == 5 && c.rc_mode == 1,
        c.color_mode == VfmcapColorMode::Passthrough,
        c.device@ == "/dev/video_cap"@,
{
}

/// The limits of the pipeline: twelve buffers of the device, eight tasks that wait for the
/// encoder, and sixty waits in a row that may run out. Fewer tasks wait than there are buffers.
pub proof fn the_limits_of_the_pipeline()
    ensures
        VFMCAP_BUFFER_COUNT == 12,
        ENCODE_QUEUE_LEN == 8,
        CAPTURE_TIMEOUT_STOP_THRESHOLD == 60,
        ENCODE_QUEUE_LEN < VFMCAP_BUFFER_COUNT,
{
}

/// Two frames that are with the encoder are never the same buffer.
pub proof fn no_buffer_is_out_twice(frames: Seq<DmaBufFrame>, i: int, j: int)
    requires
        distinct_indices(frames),
        0 <= i < frames.len(),
        0 <= j < frames.len(),
        frames[i].index == frames[j].index,
    ensures
        i == j,
{
}

/// A frame that is with the encoder is found under its own index.
pub proof fn a_frame_is_found_under_its_index(frames: Map<u32, DmaBufFrame>, index: u32)
    requires
        by_own_index(frames),
        frames.contains_key(index),
    ensures
        frames[index].index == index,
{
}

} // verus!
