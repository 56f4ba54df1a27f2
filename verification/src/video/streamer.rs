//! The capture that the streaming modes share.
use crate::events::SystemEvent;
use crate::ffi::vfmcap::{VfmcapSignalInfo, VFMCAP_OK};
use crate::text::owned;
use crate::types::AppError;
use crate::video::device::{find_best_device, first_at_path, position_at_path, VideoDeviceInfo};
use crate::video::format::{PixelFormat, Resolution};
use vstd::prelude::*;

verus! {

/// How the capture is set up.
#[derive(Debug, Clone)]
pub struct StreamerConfig {
    pub device_path: Option<String>,
    pub resolution: Resolution,
    pub format: PixelFormat,
    pub fps: u32,
    pub jpeg_quality: u8,
}

impl Default for StreamerConfig {
    fn default() -> (r: Self)
        ensures
            r == (StreamerConfig {
                device_path: None,
                resolution: Resolution { width: 1920, height: 1080 },
                format: PixelFormat::Nv12,
                fps: 30,
                jpeg_quality: 80,
            }),
    {
        StreamerConfig {
            device_path: None,
            resolution: Resolution::hd1080(),
            format: PixelFormat::Nv12,
            fps: 30,
            jpeg_quality: 80,
        }
    }
}

/// How the capture is doing.
#[derive(Debug, Clone, Copy, PartialEq, Eq, Structural)]
pub enum StreamerState {
    Uninitialized,
    Ready,
    Streaming,
    NoSignal,
    Error,
    DeviceLost,
    Recovering,
}

/// The name of a state.
pub open spec fn state_text(state: StreamerState) -> Seq<char> {
    match state {
        StreamerState::Uninitialized => "uninitialized"@,
        StreamerState::Ready => "ready"@,
        StreamerState::Streaming => "streaming"@,
        StreamerState::NoSignal => "no_signal"@,
        StreamerState::Error => "error"@,
        StreamerState::DeviceLost => "device_lost"@,
        StreamerState::Recovering => "recovering"@,
    }
}

/// The name of a state.
pub fn state_name(state: StreamerState) -> (r: String)
    ensures
        r@ == state_text(state),
{
    match state {
        StreamerState::Uninitialized => owned("uninitialized"),
        StreamerState::Ready => owned("ready"),
        StreamerState::Streaming => owned("streaming"),
        StreamerState::NoSignal => owned("no_signal"),
        StreamerState::Error => owned("error"),
        StreamerState::DeviceLost => owned("device_lost"),
        StreamerState::Recovering => owned("recovering"),
    }
}

/// The capture that the streaming modes share.
#[derive(Debug)]
pub struct Streamer {
    pub config: StreamerConfig,
    pub current_device: Option<VideoDeviceInfo>,
    pub state: StreamerState,
    pub config_changing: bool,
    pub mjpeg_online: bool,
}

/// Numbers about the capture.
#[derive(Debug, Clone)]
pub struct StreamerStats {
    pub state: StreamerState,
    pub device: Option<String>,
    pub format: PixelFormat,
    pub resolution: Resolution,
    pub clients: u64,
    pub target_fps: u32,
}

/// The size of the source, as the capture library reports it; nothing where it reports none.
pub fn signal_resolution(rc: i32, info: &VfmcapSignalInfo) -> (r: Option<Resolution>)
    ensures
        r == (if rc == VFMCAP_OK && info.width > 0 && info.height > 0 {
            Some(Resolution { width: info.width, height: info.height })
        } else {
            None
        }),
{
    if rc == VFMCAP_OK && info.width > 0 && info.height > 0 {
        Some(Resolution::new(info.width, info.height))
    } else {
        None
    }
}

/// Whether an event reports the state of a capture.
pub open spec fn reports_state(event: SystemEvent, s: Streamer) -> bool {
    event matches SystemEvent::StreamStateChanged { state, device } && state@ == state_text(
        s.state,
    ) && match (device, s.current_device) {
        (Some(path), Some(d)) => path@ == d.path@,
        (None, None) => true,
        _ => false,
    }
}

/// Whether a capture was set up on a device, with the usual geometry.
pub open spec fn initialized_on(before: Streamer, after: Streamer, device: VideoDeviceInfo) -> bool {
    &&& after.config.device_path matches Some(path) && path@ == device.path@
    &&& after.config == (StreamerConfig {
        device_path: after.config.device_path,
        format: PixelFormat::Nv12,
        resolution: Resolution { width: 1920, height: 1080 },
        ..before.config
    })
    &&& after == (Streamer {
        config: after.config,
        current_device: Some(device),
        state: StreamerState::Ready,
        ..before
    })
}

impl Streamer {
    /// A capture with a setup, on no device yet.
    pub fn with_config(config: StreamerConfig) -> (r: Self)
        ensures
            r == (Streamer {
                config,
                current_device: None,
                state: StreamerState::Uninitialized,
                config_changing: false,
                mjpeg_online: false,
            }),
    {
        Streamer {
            config,
            current_device: None,
            state: StreamerState::Uninitialized,
            config_changing: false,
            mjpeg_online: false,
        }
    }

    /// A capture with the default setup, on no device yet.
    pub fn new() -> (r: Self)
        ensures
            r.current_device is None,
            r.state == StreamerState::Uninitialized,
            !r.config_changing,
            !r.mjpeg_online,
            r.config.device_path is None,
            r.config.resolution == (Resolution { width: 1920, height: 1080 }),
            r.config.format == PixelFormat::Nv12,
            r.config.fps == 30,
            r.config.jpeg_quality == 80,
    {
        Self::with_config(StreamerConfig::default())
    }

    fn state_event(&self) -> (r: SystemEvent)
        ensures
            reports_state(r, *self),
    {
        SystemEvent::StreamStateChanged {
            state: state_name(self.state),
            device: match &self.current_device {
                Some(d) => Some(d.path.clone()),
                None => None,
            },
        }
    }

    /// Sets the capture up on a device, with a geometry. Where there is no such device the
    /// capture goes on counting as being changed.
    pub fn apply_video_config(
        &mut self,
        devices: Vec<VideoDeviceInfo>,
        device_path: &str,
        format: PixelFormat,
        resolution: Resolution,
        fps: u32,
    ) -> (r: Result<SystemEvent, AppError>)
        ensures
            r is Ok ==> is_applied(
                *old(self),
                *final(self),
                devices@,
                device_path@,
                format,
                resolution,
                fps,
            ),
            r is Ok <==> first_at_path(devices@, device_path@) < devices@.len(),
            match r {
                Err(e) => {
                    &&& e matches AppError::VideoError(m) && m@ == "Video device not found"@
                    &&& *final(self) == (Streamer { config_changing: true, ..*old(self) })
                },
                Ok(event) => {
                    let device = devices@[first_at_path(devices@, device_path@) as int];
                    &&& event matches SystemEvent::StreamConfigApplied {
                        device: path,
                        resolution: size,
                        format: layout,
                        fps: rate,
                    } && path@ == device_path@ && size == resolution && layout == format && rate
                        == fps
                    &&& final(self).config.device_path matches Some(path) && path@ == device_path@
                    &&& final(self).config == (StreamerConfig {
                        device_path: final(self).config.device_path,
                        format,
                        resolution,
                        fps,
                        ..old(self).config
                    })
                    &&& *final(self) == (Streamer {
                        config: final(self).config,
                        current_device: Some(device),
                        state: StreamerState::Ready,
                        config_changing: false,
                        ..*old(self)
                    })
                },
            },
    {
        let i: usize = position_at_path(&devices, device_path);
        if i >= devices.len() {
            self.config_changing = true;
            return Err(AppError::video("Video device not found"));
        }
        let mut devices = devices;
        let device = devices.remove(i);
        self.config.device_path = Some(device.path.clone());
        self.config.format = format;
        self.config.resolution = resolution;
        self.config.fps = fps;
        self.current_device = Some(device);
        self.state = StreamerState::Ready;
        self.config_changing = false;
        Ok(SystemEvent::StreamConfigApplied { device: owned(device_path), resolution, format, fps })
    }

    /// Sets the capture up on the first device there is.
    pub fn init_auto(&mut self, devices: Vec<VideoDeviceInfo>) -> (r: Result<SystemEvent, AppError>)
        ensures
            r is Ok <==> devices@.len() > 0,
            match r {
                Err(e) => {
                    &&& e matches AppError::VideoError(m) && m@
                        == "No AML capture device available"@
                    &&& *final(self) == *old(self)
                },
                Ok(event) => {
                    &&& initialized_on(*old(self), *final(self), devices@[0])
                    &&& reports_state(event, *final(self))
                },
            },
    {
        let device = match find_best_device(devices) {
            Ok(device) => device,
            Err(e) => {
                return Err(e);
            },
        };
        self.config.device_path = Some(device.path.clone());
        self.config.format = PixelFormat::Nv12;
        self.config.resolution = Resolution::hd1080();
        self.current_device = Some(device);
        self.state = StreamerState::Ready;
        Ok(self.state_event())
    }

    /// Starts streaming; sets the capture up first where it is not.
    pub fn start(&mut self, devices: Vec<VideoDeviceInfo>) -> (r: Result<
        Vec<SystemEvent>,
        AppError,
    >)
        ensures
            r is Ok ==> is_started(*old(self), *final(self), devices@, r->Ok_0@),
            r is Ok <==> old(self).state != StreamerState::Uninitialized || devices@.len() > 0,
            match r {
                Err(e) => {
                    &&& e matches AppError::VideoError(m) && m@
                        == "No AML capture device available"@
                    &&& *final(self) == *old(self)
                },
                Ok(events) => {
                    &&& final(self).state == StreamerState::Streaming
                    &&& final(self).mjpeg_online
                    &&& events@.len() > 0
                    &&& reports_state(events@.last(), *final(self))
                    &&& if old(self).state != StreamerState::Uninitialized {
                        events@.len() == 1 && *final(self) == (Streamer {
                            state: StreamerState::Streaming,
                            mjpeg_online: true,
                            ..*old(self)
                        })
                    } else {
                        let ready = Streamer {
                            state: StreamerState::Ready,
                            mjpeg_online: old(self).mjpeg_online,
                            ..*final(self)
                        };
                        &&& events@.len() == 2
                        &&& initialized_on(*old(self), ready, devices@[0])
                        &&& reports_state(events@[0], ready)
                    }
                },
            },
    {
        let mut events: Vec<SystemEvent> = Vec::new();
        if self.state == StreamerState::Uninitialized {
            match self.init_auto(devices) {
                Ok(event) => events.push(event),
                Err(e) => {
                    return Err(e);
                },
            }
        }
        self.mjpeg_online = true;
        self.state = StreamerState::Streaming;
        events.push(self.state_event());
        Ok(events)
    }

    /// Stops streaming; the capture stays set up.
    pub fn stop(&mut self) -> (r: SystemEvent)
        ensures
            is_stopped(*old(self), *final(self), r),
            *final(self) == (Streamer {
                state: StreamerState::Ready,
                mjpeg_online: false,
                ..*old(self)
            }),
            reports_state(r, *final(self)),
    {
        self.mjpeg_online = false;
        self.state = StreamerState::Ready;
        self.state_event()
    }

    /// Whether the capture streams.
    pub fn is_streaming(&self) -> (r: bool)
        ensures
            r == (self.state == StreamerState::Streaming),
    {
        self.state == StreamerState::Streaming
    }

    /// Whether the setup is being changed.
    pub fn is_config_changing(&self) -> (r: bool)
        ensures
            r == self.config_changing,
    {
        self.config_changing
    }

    /// The device that is captured.
    pub fn current_device(&self) -> (r: Option<&VideoDeviceInfo>)
        ensures
            match self.current_device {
                Some(device) => r == Some(&device),
                None => r is None,
            },
    {
        match &self.current_device {
            Some(device) => Some(device),
            None => None,
        }
    }

    /// The format, the size and the rate that the capture is set up with.
    pub fn current_video_config(&self) -> (r: (PixelFormat, Resolution, u32))
        ensures
            r == (self.config.format, self.config.resolution, self.config.fps),
    {
        (self.config.format, self.config.resolution, self.config.fps)
    }

    /// What the capture is set up with: the device, the size, the format, the rate and the
    /// quality of single pictures.
    pub fn current_capture_config(&self) -> (r: (Option<String>, Resolution, PixelFormat, u32, u8))
        ensures
            match self.config.device_path {
                Some(path) => r.0 matches Some(p) && p@ == path@,
                None => r.0 is None,
            },
            r.1 == self.config.resolution,
            r.2 == self.config.format,
            r.3 == self.config.fps,
            r.4 == self.config.jpeg_quality,
    {
        let path = match &self.config.device_path {
            Some(path) => Some(path.clone()),
            None => None,
        };
        (
            path,
            self.config.resolution,
            self.config.format,
            self.config.fps,
            self.config.jpeg_quality,
        )
    }

    /// Numbers about the capture. The size is the source's where that is known: the one that is
    /// set up may be a limit.
    pub fn stats(&self, signal: Option<Resolution>, clients: u64) -> (r: StreamerStats)
        ensures
            r.state == self.state,
            match (r.device, self.current_device) {
                (Some(name), Some(d)) => name@ == d.name@,
                (None, None) => true,
                _ => false,
            },
            r.format == self.config.format,
            r.resolution == (match signal {
                Some(size) => size,
                None => self.config.resolution,
            }),
            r.clients == clients,
            r.target_fps == self.config.fps,
    {
        StreamerStats {
            state: self.state,
            device: match &self.current_device {
                Some(d) => Some(d.name.clone()),
                None => None,
            },
            format: self.config.format,
            resolution: match signal {
                Some(size) => size,
                None => self.config.resolution,
            },
            clients,
            target_fps: self.config.fps,
        }
    }
}

/// Stopping and starting again leads back to the same capture.
pub proof fn stop_and_start_again(before: Streamer, stopped: Streamer, started: Streamer)
    requires
        before.state == StreamerState::Streaming,
        before.mjpeg_online,
        stopped == (Streamer { state: StreamerState::Ready, mjpeg_online: false, ..before }),
        started == (Streamer { state: StreamerState::Streaming, mjpeg_online: true, ..stopped }),
    ensures
        started == before,
{
}

/// A report of the capture's state names the state, and the device by its path.
pub proof fn a_report_names_the_state(event: SystemEvent, s: Streamer)
    requires
        reports_state(event, s),
    ensures
        event matches SystemEvent::StreamStateChanged { state, device } && {
            &&& s.state == StreamerState::Uninitialized ==> state@ == "uninitialized"@
            &&& s.state == StreamerState::Ready ==> state@ == "ready"@
            &&& s.state == StreamerState::Streaming ==> state@ == "streaming"@
            &&& s.state == StreamerState::NoSignal ==> state@ == "no_signal"@
            &&& s.state == StreamerState::Error ==> state@ == "error"@
            &&& s.state == StreamerState::DeviceLost ==> state@ == "device_lost"@
            &&& s.state == StreamerState::Recovering ==> state@ == "recovering"@
            &&& device is Some <==> s.current_device is Some
            &&& device is Some ==> device->0@ == s.current_device->0.path@
        },
{
}

/// A capture that was set up stands on the device that it was given, ready, in NV12 at 1920 by
/// 1080; its frame rate, its quality and who watches stay.
pub proof fn a_capture_stands_on_its_device(
    before: Streamer,
    after: Streamer,
    device: VideoDeviceInfo,
)
    requires
        initialized_on(before, after, device),
    ensures
        after.current_device == Some(device),
        after.config.device_path is Some && after.config.device_path->0@ == device.path@,
        after.state == StreamerState::Ready,
        after.config.format == PixelFormat::Nv12,
        after.config.resolution.width == 1920 && after.config.resolution.height == 1080,
        after.config.fps == before.config.fps,
        after.config.jpeg_quality == before.config.jpeg_quality,
        after.mjpeg_online == before.mjpeg_online,
        after.config_changing == before.config_changing,
{
}

/// What is told of a capture is what it is set up with; the size is the source's, where that is
/// known.
pub proof fn what_is_told_of_a_capture(
    s: Streamer,
    signal: Option<Resolution>,
    clients: u64,
    stats: StreamerStats,
    video: (PixelFormat, Resolution, u32),
    capture: (Option<String>, Resolution, PixelFormat, u32, u8),
    streaming: bool,
    changing: bool,
)
    ensures
        call_ensures(Streamer::stats, (&s, signal, clients), stats) ==> {
            &&& stats.state == s.state && stats.format == s.config.format && stats.clients == clients
                && stats.target_fps == s.config.fps
            &&& signal is Some ==> stats.resolution == signal->0
            &&& signal is None ==> stats.resolution == s.config.resolution
            &&& stats.device is Some <==> s.current_device is Some
            &&& stats.device is Some ==> stats.device->0@ == s.current_device->0.name@
        },
        call_ensures(Streamer::current_video_config, (&s,), video) ==> video.0 == s.config.format
            && video.1 == s.config.resolution && video.2 == s.config.fps,
        call_ensures(Streamer::current_capture_config, (&s,), capture) ==> {
            &&& capture.1 == s.config.resolution && capture.2 == s.config.format && capture.3
                == s.config.fps && capture.4 == s.config.jpeg_quality
            &&& capture.0 is Some <==> s.config.device_path is Some
            &&& capture.0 is Some ==> capture.0->0@ == s.config.device_path->0@
        },
        call_ensures(Streamer::is_streaming, (&s,), streaming) ==> (streaming <==> s.state
            == StreamerState::Streaming),
        call_ensures(Streamer::is_config_changing, (&s,), changing) ==> (changing
            <==> s.config_changing),
{
}

/// The size of a source is told only where the library reports one, and then as it reports it.
pub proof fn the_size_of_a_source(rc: i32, info: VfmcapSignalInfo, r: Option<Resolution>)
    requires
        call_ensures(signal_resolution, (rc, &info), r),
    ensures
        r is Some <==> rc == 0 && info.width > 0 && info.height > 0,
        r is Some ==> r->0.width == info.width && r->0.height == info.height,
{
}

/// What stopping does.
pub open spec fn is_stopped(before: Streamer, after: Streamer, event: SystemEvent) -> bool {
    &&& after == (Streamer { state: StreamerState::Ready, mjpeg_online: false, ..before })
    &&& reports_state(event, after)
}

/// What starting does to a capture.
pub open spec fn is_started(
    before: Streamer,
    after: Streamer,
    devices: Seq<VideoDeviceInfo>,
    events: Seq<SystemEvent>,
) -> bool {
    &&& after.state == StreamerState::Streaming && after.mjpeg_online
    &&& events.len() > 0 && reports_state(events.last(), after)
    &&& before.state != StreamerState::Uninitialized ==> events.len() == 1 && after == (Streamer {
        state: StreamerState::Streaming,
        mjpeg_online: true,
        ..before
    })
    &&& before.state == StreamerState::Uninitialized ==> events.len() == 2 && devices.len() > 0
        && initialized_on(
        before,
        Streamer {
            state: StreamerState::Ready,
            mjpeg_online: before.mjpeg_online,
            ..after
        },
        devices[0],
    )
}

/// What setting a capture up on a device does.
pub open spec fn is_applied(
    before: Streamer,
    after: Streamer,
    devices: Seq<VideoDeviceInfo>,
    device_path: Seq<char>,
    format: PixelFormat,
    resolution: Resolution,
    fps: u32,
) -> bool {
    let i = first_at_path(devices, device_path) as int;
    &&& 0 <= i < devices.len()
    &&& after.config.device_path is Some && after.config.device_path->0@ == device_path
    &&& after.config == (StreamerConfig {
        device_path: after.config.device_path,
        format,
        resolution,
        fps,
        ..before.config
    })
    &&& after == (Streamer {
        config: after.config,
        current_device: Some(devices[i]),
        state: StreamerState::Ready,
        config_changing: false,
        ..before
    })
}

/// A capture that streams is online and says so; once stopped it is ready, offline, and says so.
/// Neither changes its setup or its device, so that starting again leads back.
pub proof fn starting_and_stopping_change_nothing_else(
    before: Streamer,
    stopped: Streamer,
    again: Streamer,
    devices: Seq<VideoDeviceInfo>,
    event: SystemEvent,
    events: Seq<SystemEvent>,
)
    requires
        is_stopped(before, stopped, event),
        is_started(stopped, again, devices, events),
    ensures
        stopped.state == StreamerState::Ready && !stopped.mjpeg_online,
        stopped.config == before.config && stopped.current_device == before.current_device
            && stopped.config_changing == before.config_changing,
        again.state == StreamerState::Streaming && again.mjpeg_online,
        again.config == before.config && again.current_device == before.current_device
            && again.config_changing == before.config_changing,
        before.state == StreamerState::Streaming && before.mjpeg_online ==> again == before,
        event is StreamStateChanged && event->StreamStateChanged_state@ == "ready"@,
        events.len() == 1,
        events[0] is StreamStateChanged && events[0]->StreamStateChanged_state@ == "streaming"@,
{
}

/// A capture that was never set up is set up on the first device when it starts.
pub proof fn the_first_start_takes_the_first_device(
    before: Streamer,
    after: Streamer,
    devices: Seq<VideoDeviceInfo>,
    events: Seq<SystemEvent>,
)
    requires
        before.state == StreamerState::Uninitialized,
        is_started(before, after, devices, events),
    ensures
        devices.len() > 0,
        after.current_device == Some(devices[0]),
        after.config.device_path is Some && after.config.device_path->0@ == devices[0].path@,
        after.config.resolution.width == 1920 && after.config.resolution.height == 1080,
        after.config.fps == before.config.fps,
        events.len() == 2,
{
}

/// A capture that is set up anew stands on a device of the path that was asked for, in the
/// layout, the size and the rate that were asked for, ready and no longer changing.
pub proof fn a_capture_is_set_up_as_asked(
    before: Streamer,
    after: Streamer,
    devices: Seq<VideoDeviceInfo>,
    device_path: Seq<char>,
    format: PixelFormat,
    resolution: Resolution,
    fps: u32,
)
    requires
        is_applied(before, after, devices, device_path, format, resolution, fps),
    ensures
        after.current_device is Some && after.current_device->0.path@ == device_path,
        devices.contains(after.current_device->0),
        after.config.device_path is Some && after.config.device_path->0@ == device_path,
        after.config.format == format && after.config.resolution == resolution && after.config.fps
            == fps,
        after.config.jpeg_quality == before.config.jpeg_quality,
        after.state == StreamerState::Ready && !after.config_changing,
        after.mjpeg_online == before.mjpeg_online,
{
    crate::video::device::lemma_first_at_path(devices, device_path);
    assert(devices.contains(devices[first_at_path(devices, device_path) as int]));
}

} // verus!
