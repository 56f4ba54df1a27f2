//! The pipeline that all viewers share.
use crate::video::aml_pipeline::{is_default_config, AmlPipelineConfig};
use crate::video::format::{PixelFormat, Resolution, VideoEncoderType};
use vstd::prelude::*;

verus! {

/// How much of the line the video may take.
#[derive(Debug, Clone, Copy, PartialEq, Eq, Structural)]
pub enum BitratePreset {
    /// As much as suits most uses.
    Balanced,
    /// So many kilobits per second.
    Kbps(u32),
}

/// What is done about sources of high dynamic range.
#[derive(Debug, Clone, Copy, PartialEq, Eq, Structural)]
#[non_exhaustive]
pub enum HdrMode {
    /// What the source needs.
    Auto,
}

/// How the shared pipeline is set up.
#[derive(Debug, Clone)]
pub struct SharedVideoPipelineConfig {
    pub resolution: Resolution,
    pub input_format: PixelFormat,
    pub output_codec: VideoEncoderType,
    pub bitrate_preset: BitratePreset,
    pub fps: u32,
    pub hdr_mode: HdrMode,
    pub encoder_backend: Option<String>,
}

impl Default for SharedVideoPipelineConfig {
    fn default() -> (r: Self)
        ensures
            r == (SharedVideoPipelineConfig {
                resolution: Resolution { width: 1280, height: 720 },
                input_format: PixelFormat::Nv12,
                output_codec: VideoEncoderType::H264,
                bitrate_preset: BitratePreset::Balanced,
                fps: 30,
                hdr_mode: HdrMode::Auto,
                encoder_backend: None,
            }),
    {
        SharedVideoPipelineConfig {
            resolution: Resolution::hd720(),
            input_format: PixelFormat::Nv12,
            output_codec: VideoEncoderType::H264,
            bitrate_preset: BitratePreset::Balanced,
            fps: 30,
            hdr_mode: HdrMode::Auto,
            encoder_backend: None,
        }
    }
}

/// A change of the pipeline's state, as it is reported.
#[derive(Debug, Clone, Copy, PartialEq, Eq)]
pub struct PipelineStateNotification {
    pub state: &'static str,
    pub reason: Option<&'static str>,
    pub next_retry_ms: Option<u64>,
}

/// The pipeline that all viewers share.
#[derive(Debug)]
pub struct SharedVideoPipeline {
    pub config: SharedVideoPipelineConfig,
    pub running: bool,
    pub pending_reconnect: bool,
}

/// Why the pipeline does not start.
#[derive(Debug, Clone, Copy, PartialEq, Eq, Structural)]
pub enum StartRefusal {
    UnsupportedCodec(VideoEncoderType),
}

/// The bit rate that a preset stands for, given what the balanced one is.
pub open spec fn preset_kbps(preset: BitratePreset, balanced: u32) -> u32 {
    match preset {
        BitratePreset::Balanced => balanced,
        BitratePreset::Kbps(n) => n,
    }
}

/// Whether the pipeline can produce a codec.
pub open spec fn supported(codec: VideoEncoderType) -> bool {
    codec == VideoEncoderType::H264 || codec == VideoEncoderType::H265
}

impl SharedVideoPipeline {
    /// A pipeline that has not started.
    pub fn new(config: SharedVideoPipelineConfig) -> (r: Self)
        ensures
            r == (SharedVideoPipeline { config, running: false, pending_reconnect: false }),
    {
        SharedVideoPipeline { config, running: false, pending_reconnect: false }
    }

    /// Whether the pipeline runs.
    pub fn is_running(&self) -> (r: bool)
        ensures
            r == self.running,
    {
        self.running
    }

    /// Takes up a request to start on a device. `Ok(None)` says that the pipeline runs already;
    /// otherwise the pipeline behind is to be started with the setup that comes back. The
    /// geometry counts as changed from here on.
    pub fn start_with_device(&mut self, device: String, balanced_kbps: u32) -> (r: Result<
        Option<AmlPipelineConfig>,
        StartRefusal,
    >)
        ensures
            answers_start(*old(self), *final(self), device@, balanced_kbps, r),
            *final(self) == (SharedVideoPipeline {
                pending_reconnect: old(self).pending_reconnect || !old(self).running,
                ..*old(self)
            }),
            if old(self).running {
                r matches Ok(None)
            } else if !supported(old(self).config.output_codec) {
                r == Err::<Option<AmlPipelineConfig>, StartRefusal>(
                    StartRefusal::UnsupportedCodec(old(self).config.output_codec),
                )
            } else {
                r matches Ok(Some(c)) && c.max_width == old(self).config.resolution.width
                    && c.max_height == old(self).config.resolution.height && c.max_fps == old(
                    self,
                ).config.fps && c.output_codec == old(self).config.output_codec && c.bitrate_kbps
                    == preset_kbps(old(self).config.bitrate_preset, balanced_kbps) && c.device
                    == device && exists|d: AmlPipelineConfig|
                    is_default_config(d) && #[trigger] keeps_defaults(c, d)
            },
    {
        if self.running {
            return Ok(None);
        }
        self.pending_reconnect = true;
        let output_codec = match self.config.output_codec {
            VideoEncoderType::H264 => VideoEncoderType::H264,
            VideoEncoderType::H265 => VideoEncoderType::H265,
            other => {
                return Err(StartRefusal::UnsupportedCodec(other));
            },
        };
        let base = AmlPipelineConfig::default();
        let bitrate_kbps: u32 = match self.config.bitrate_preset {
            BitratePreset::Balanced => balanced_kbps,
            BitratePreset::Kbps(n) => n,
        };
        let config = AmlPipelineConfig {
            max_width: self.config.resolution.width,
            max_height: self.config.resolution.height,
            max_fps: self.config.fps,
            color_mode: base.color_mode,
            output_codec,
            bitrate_kbps,
            gop: base.gop,
            gop_pattern: base.gop_pattern,
            rc_mode: base.rc_mode,
            device,
        };
        assert(keeps_defaults(config, base));
        Ok(Some(config))
    }

    /// The pipeline behind has started.
    pub fn mark_running(&mut self)
        ensures
            *final(self) == (SharedVideoPipeline { running: true, ..*old(self) }),
    {
        self.running = true;
    }

    /// The pipeline behind is to be stopped.
    pub fn stop(&mut self)
        ensures
            *final(self) == (SharedVideoPipeline { running: false, ..*old(self) }),
    {
        self.running = false;
    }

    /// Why the device was lost: this pipeline never loses it.
    pub fn take_device_lost_reason(&self) -> (r: Option<String>)
        ensures
            r is None,
    {
        None
    }

    /// The geometry, once after every start.
    pub fn take_pending_sync_geometry(&mut self) -> (r: Option<(Resolution, PixelFormat)>)
        ensures
            gives_geometry(*old(self), *final(self), r),
            r == (if old(self).pending_reconnect {
                Some((old(self).config.resolution, old(self).config.input_format))
            } else {
                None
            }),
            *final(self) == (SharedVideoPipeline { pending_reconnect: false, ..*old(self) }),
    {
        if self.pending_reconnect {
            self.pending_reconnect = false;
            Some((self.config.resolution, self.config.input_format))
        } else {
            None
        }
    }
}

/// Whether a setup has from the default one what a shared pipeline does not set.
pub open spec fn keeps_defaults(c: AmlPipelineConfig, d: AmlPipelineConfig) -> bool {
    &&& c.color_mode == d.color_mode
    &&& c.gop == d.gop
    &&& c.gop_pattern == d.gop_pattern
    &&& c.rc_mode == d.rc_mode
}

/// What a request to start does and is answered.
pub open spec fn answers_start(
    before: SharedVideoPipeline,
    after: SharedVideoPipeline,
    device: Seq<char>,
    balanced_kbps: u32,
    r: Result<Option<AmlPipelineConfig>, StartRefusal>,
) -> bool {
    &&& after == (SharedVideoPipeline {
        pending_reconnect: before.pending_reconnect || !before.running,
        ..before
    })
    &&& match r {
        Ok(None) => before.running,
        Err(StartRefusal::UnsupportedCodec(codec)) => !before.running && codec
            == before.config.output_codec && !supported(codec),
        Ok(Some(c)) => {
            &&& !before.running && supported(before.config.output_codec)
            &&& c.max_width == before.config.resolution.width
            &&& c.max_height == before.config.resolution.height
            &&& c.max_fps == before.config.fps
            &&& c.output_codec == before.config.output_codec
            &&& c.bitrate_kbps == preset_kbps(before.config.bitrate_preset, balanced_kbps)
            &&& c.device@ == device
        },
    }
}

/// What taking the geometry does and gives.
pub open spec fn gives_geometry(
    before: SharedVideoPipeline,
    after: SharedVideoPipeline,
    r: Option<(Resolution, PixelFormat)>,
) -> bool {
    &&& after == (SharedVideoPipeline { pending_reconnect: false, ..before })
    &&& r == (if before.pending_reconnect {
        Some((before.config.resolution, before.config.input_format))
    } else {
        None
    })
}

/// A pipeline that does not run starts with its own setup: the size and the frame rate as limits,
/// its codec, and the bit rate that was set, or the balanced one. Only H.264 and H.265 are
/// produced. One that runs is not started a second time.
pub proof fn a_pipeline_starts_with_its_setup(
    before: SharedVideoPipeline,
    after: SharedVideoPipeline,
    device: Seq<char>,
    balanced_kbps: u32,
    r: Result<Option<AmlPipelineConfig>, StartRefusal>,
)
    requires
        answers_start(before, after, device, balanced_kbps, r),
    ensures
        before.running <==> (r is Ok && r->Ok_0 is None),
        r is Err <==> !before.running && (before.config.output_codec == VideoEncoderType::VP8
            || before.config.output_codec == VideoEncoderType::VP9),
        r matches Ok(Some(c)) ==> {
            &&& c.max_width == before.config.resolution.width && c.max_height
                == before.config.resolution.height && c.max_fps == before.config.fps
            &&& c.output_codec == before.config.output_codec
            &&& before.config.bitrate_preset == BitratePreset::Balanced ==> c.bitrate_kbps
                == balanced_kbps
            &&& before.config.bitrate_preset is Kbps ==> c.bitrate_kbps
                == before.config.bitrate_preset->Kbps_0
            &&& c.device@ == device
        },
        after.config == before.config && after.running == before.running,
{
}

/// After a start the geometry is told once: the pipeline's size and layout, and then nothing.
pub proof fn geometry_is_told_once(
    before: SharedVideoPipeline,
    asked: SharedVideoPipeline,
    told: SharedVideoPipeline,
    later: SharedVideoPipeline,
    device: Seq<char>,
    balanced_kbps: u32,
    r: Result<Option<AmlPipelineConfig>, StartRefusal>,
    first: Option<(Resolution, PixelFormat)>,
    second: Option<(Resolution, PixelFormat)>,
)
    requires
        !before.running,
        answers_start(before, asked, device, balanced_kbps, r),
        gives_geometry(asked, told, first),
        gives_geometry(told, later, second),
    ensures
        first == Some((before.config.resolution, before.config.input_format)),
        second is None,
        told.config == before.config && told.running == before.running,
{
}

/// What a shared pipeline does not set is what every pipeline has by default: a key frame every 30
/// frames, the pattern and the rate control of the encoder's defaults, no mapping of colors.
pub proof fn what_is_not_set_is_the_default(c: AmlPipelineConfig, d: AmlPipelineConfig)
    requires
        is_default_config(d),
        keeps_defaults(c, d),
    ensures
        c.gop == 30,
        c.gop_pattern == 5,
        c.rc_mode == 1,
        c.color_mode == crate::ffi::vfmcap::VfmcapColorMode::Passthrough,
{
}

} // verus!
