//! The streaming modes, of which one is active at a time.
//!
//! Pictures go out either one by one, as MJPEG, or as an encoded stream to browsers, over WebRTC.
//! A switch from one to the other stops the old mode, makes the new one current, starts it and
//! remembers it. Each step is decided here and carried out by the caller, who reports back.
use crate::events::SystemEvent;
use crate::text::{lower, owned, same, str_chars, to_lower};
use crate::video::format::{
    codec_name, codec_to_string, PixelFormat, Resolution, VideoCodecType,
};
use crate::video::streamer::StreamerState;
use uuid::Uuid;
use vstd::prelude::*;

verus! {

/// A streaming mode.
#[derive(Debug, Clone, Copy, PartialEq, Eq, Structural)]
pub enum StreamMode {
    Mjpeg,
    WebRTC,
}

/// How the manager is set up.
#[derive(Debug, Clone)]
pub struct StreamManagerConfig {
    pub mode: StreamMode,
    pub device: Option<String>,
    pub format: PixelFormat,
    pub resolution: Resolution,
    pub fps: u32,
}

impl Default for StreamManagerConfig {
    fn default() -> (r: Self)
        ensures
            r == (StreamManagerConfig {
                mode: StreamMode::WebRTC,
                device: None,
                format: PixelFormat::Nv12,
                resolution: Resolution { width: 1920, height: 1080 },
                fps: 30,
            }),
    {
        StreamManagerConfig {
            mode: StreamMode::WebRTC,
            device: None,
            format: PixelFormat::Nv12,
            resolution: Resolution::hd1080(),
            fps: 30,
        }
    }
}

/// What became of a request to switch the mode.
#[derive(Debug, Clone)]
pub struct ModeSwitchTransaction {
    /// Whether the request started a switch.
    pub accepted: bool,
    /// Whether a switch is under way.
    pub switching: bool,
    /// The number of the switch that is under way.
    pub transition_id: Option<String>,
}

/// The name of a mode; that of WebRTC is the name of its codec.
pub open spec fn mode_text(mode: StreamMode, codec: VideoCodecType) -> Seq<char> {
    match mode {
        StreamMode::Mjpeg => "mjpeg"@,
        StreamMode::WebRTC => codec_name(codec),
    }
}

/// The name of a mode.
pub fn mode_to_string(mode: StreamMode, codec: VideoCodecType) -> (r: String)
    ensures
        r@ == mode_text(mode, codec),
{
    match mode {
        StreamMode::Mjpeg => owned("mjpeg"),
        StreamMode::WebRTC => codec_to_string(codec),
    }
}

/// Whether a device is the HDMI receiver of one family of boards, whose format must not be
/// changed: its driver or its card says so.
pub open spec fn is_rk_hdmirx(driver: Seq<char>, card: Seq<char>) -> bool {
    lower(driver) == "rk_hdmirx"@ || lower(card) == "rk_hdmirx"@
}

/// Whether a device is that HDMI receiver.
pub fn is_rk_hdmirx_driver(driver: &str, card: &str) -> (r: bool)
    ensures
        r == is_rk_hdmirx(driver@, card@),
{
    let wanted = str_chars("rk_hdmirx");
    let driver_chars = str_chars(driver);
    let card_chars = str_chars(card);
    same(to_lower(driver_chars.as_slice()).as_slice(), wanted.as_slice()) || same(
        to_lower(card_chars.as_slice()).as_slice(),
        wanted.as_slice(),
    )
}

/// Whether a text has the form of a random UUID: 36 characters, with hyphens at four places and
/// lower-case hexadecimal digits elsewhere, of which one tells the version and one the variant.
pub open spec fn is_uuid_text(s: Seq<char>) -> bool {
    &&& s.len() == 36
    &&& forall|i: int|
        0 <= i < 36 ==> if i == 8 || i == 13 || i == 18 || i == 23 {
            #[trigger] s[i] == '-'
        } else {
            '0' <= s[i] <= '9' || 'a' <= s[i] <= 'f'
        }
    &&& s[14] == '4'
    &&& s[19] == '8' || s[19] == '9' || s[19] == 'a' || s[19] == 'b'
}

/// Calls `uuid::Uuid::new_v4` and writes the number with `to_string`: lower-case digits in five
/// groups, with the digits of the version and of the variant in their places. The rest is drawn
/// at random.
#[verifier::external_body]
fn random_uuid() -> (r: String)
    ensures
        is_uuid_text(r@),
{
    Uuid::new_v4().to_string()
}

// ---------------------------------------------------------------- the manager

/// The manager of the streaming modes.
#[derive(Debug)]
pub struct VideoStreamManager {
    pub mode: StreamMode,
    pub switching: bool,
    pub transition_id: Option<String>,
}

/// A switch that has begun.
#[derive(Debug)]
pub struct ModeSwitch {
    pub from: StreamMode,
    pub to: StreamMode,
    pub transition_id: String,
    pub codec: VideoCodecType,
    pub phase: SwitchPhase,
}

/// How far a switch has come: what was asked of the caller last.
#[derive(Debug, Clone, Copy, PartialEq, Eq, Structural)]
pub enum SwitchPhase {
    Begun,
    Announcing,
    StoppingOld,
    AskingDevice,
    ApplyingFormat,
    StartingMjpeg,
    AskingState,
    Initializing,
    Syncing,
    AskingCodec,
    AnnouncingReady,
    Persisting,
    Over,
}

/// What the caller is to do next.
#[derive(Debug)]
pub enum SwitchAction {
    /// Publish the event.
    Publish(SystemEvent),
    /// Take the MJPEG viewers offline and stop the capture; a failure does not matter.
    StopMjpeg,
    /// Close all browser sessions and release the device.
    CloseWebrtc,
    /// Report the current device.
    AskDevice,
    /// Set the capture up for MJPEG, with the geometry that it has; a failure does not matter.
    ApplyMjpegFormat,
    /// Start the capture for MJPEG.
    StartMjpeg,
    /// Report the state of the capture.
    AskState,
    /// Set the capture up.
    InitCapture,
    /// Tell the browsers' side about the capture.
    SyncCapture,
    /// Report the codec and whether it is encoded in hardware.
    AskCodec,
    /// Remember the mode; a failure does not matter.
    Persist(StreamMode),
    /// Nothing more: the switch has succeeded.
    Finish,
    /// Nothing more: the switch has failed. The new mode stays current.
    GiveUp,
}

/// What a device offers, as far as a switch depends on it.
#[derive(Debug)]
pub struct DeviceView {
    pub driver: String,
    pub card: String,
    pub formats: Vec<PixelFormat>,
    pub current_format: PixelFormat,
}

/// What the caller reports.
#[derive(Debug)]
pub enum SwitchReport {
    Done,
    Failed,
    Device(Option<DeviceView>),
    State(StreamerState),
    Codec(VideoCodecType, bool),
}

/// Whether the capture is to be set up for MJPEG before it starts.
pub open spec fn wants_mjpeg_format(d: DeviceView) -> bool {
    &&& !is_rk_hdmirx(d.driver@, d.card@)
    &&& d.current_format != PixelFormat::Mjpeg
    &&& d.formats@.contains(PixelFormat::Mjpeg)
}

/// Decides whether the capture is to be set up for MJPEG.
pub fn needs_mjpeg_format(d: &DeviceView) -> (r: bool)
    ensures
        r == wants_mjpeg_format(*d),
{
    if is_rk_hdmirx_driver(d.driver.as_str(), d.card.as_str()) || d.current_format
        == PixelFormat::Mjpeg {
        return false;
    }
    let mut i: usize = 0;
    while i < d.formats.len()
        invariant
            i <= d.formats@.len(),
            !is_rk_hdmirx(d.driver@, d.card@),
            d.current_format != PixelFormat::Mjpeg,
            forall|j: int| 0 <= j < i ==> d.formats@[j] != PixelFormat::Mjpeg,
        decreases d.formats.len() - i,
    {
        if d.formats[i] == PixelFormat::Mjpeg {
            assert(d.formats@[i as int] == PixelFormat::Mjpeg);
            return true;
        }
        i = i + 1;
    }
    false
}

/// The phase that follows a report.
pub open spec fn next_phase(s: ModeSwitch, report: SwitchReport) -> SwitchPhase {
    match s.phase {
        SwitchPhase::Begun => SwitchPhase::Announcing,
        SwitchPhase::Announcing => SwitchPhase::StoppingOld,
        SwitchPhase::StoppingOld => match s.to {
            StreamMode::Mjpeg => SwitchPhase::AskingDevice,
            StreamMode::WebRTC => SwitchPhase::AskingState,
        },
        SwitchPhase::AskingDevice => match report {
            SwitchReport::Device(Some(d)) => if wants_mjpeg_format(d) {
                SwitchPhase::ApplyingFormat
            } else {
                SwitchPhase::StartingMjpeg
            },
            _ => SwitchPhase::StartingMjpeg,
        },
        SwitchPhase::ApplyingFormat => SwitchPhase::StartingMjpeg,
        SwitchPhase::StartingMjpeg => if report is Failed {
            SwitchPhase::Over
        } else {
            SwitchPhase::Persisting
        },
        SwitchPhase::AskingState => if report == SwitchReport::State(StreamerState::Uninitialized) {
            SwitchPhase::Initializing
        } else {
            SwitchPhase::Syncing
        },
        SwitchPhase::Initializing => if report is Failed {
            SwitchPhase::Over
        } else {
            SwitchPhase::Syncing
        },
        SwitchPhase::Syncing => SwitchPhase::AskingCodec,
        SwitchPhase::AskingCodec => if report is Codec {
            SwitchPhase::AnnouncingReady
        } else {
            SwitchPhase::AskingCodec
        },
        SwitchPhase::AnnouncingReady => SwitchPhase::Persisting,
        SwitchPhase::Persisting => SwitchPhase::Over,
        SwitchPhase::Over => SwitchPhase::Over,
    }
}

/// The codec that the change of the mode is announced with: the one that is reported as current
/// when the switch runs, or else the one of the request.
pub open spec fn codec_at_start(s: ModeSwitch, report: SwitchReport) -> VideoCodecType {
    match report {
        SwitchReport::Codec(codec, _) => codec,
        _ => s.codec,
    }
}

/// Whether an event says that the mode changes.
pub open spec fn announces_change(
    event: SystemEvent,
    s: ModeSwitch,
    codec: VideoCodecType,
) -> bool {
    event matches SystemEvent::StreamModeChanged { transition_id, mode, previous_mode } && (
    transition_id matches Some(id) && id@ == s.transition_id@) && mode@ == mode_text(s.to, codec)
        && previous_mode@ == mode_text(s.from, codec)
}

/// Whether an event says that browsers can be served.
pub open spec fn announces_ready(
    event: SystemEvent,
    transition_id: Option<Seq<char>>,
    codec: VideoCodecType,
    hardware: bool,
) -> bool {
    event matches SystemEvent::WebRTCReady { transition_id: id, codec: name, hardware: hw } && name@
        == codec_name(codec) && hw == hardware && match (id, transition_id) {
        (Some(a), Some(b)) => a@ == b,
        (None, None) => true,
        _ => false,
    }
}

/// What the caller is asked to do as a switch enters a phase.
pub open spec fn asks(
    s: ModeSwitch,
    report: SwitchReport,
    phase: SwitchPhase,
    action: SwitchAction,
) -> bool {
    match phase {
        SwitchPhase::Begun => false,
        SwitchPhase::Announcing => action matches SwitchAction::Publish(event) && announces_change(
            event,
            s,
            codec_at_start(s, report),
        ),
        SwitchPhase::StoppingOld => action == (match s.from {
            StreamMode::Mjpeg => SwitchAction::StopMjpeg,
            StreamMode::WebRTC => SwitchAction::CloseWebrtc,
        }),
        SwitchPhase::AskingDevice => action is AskDevice,
        SwitchPhase::ApplyingFormat => action is ApplyMjpegFormat,
        SwitchPhase::StartingMjpeg => action is StartMjpeg,
        SwitchPhase::AskingState => action is AskState,
        SwitchPhase::Initializing => action is InitCapture,
        SwitchPhase::Syncing => action is SyncCapture,
        SwitchPhase::AskingCodec => action is AskCodec,
        SwitchPhase::AnnouncingReady => report matches SwitchReport::Codec(codec, hardware)
            && action matches SwitchAction::Publish(event) && announces_ready(
            event,
            Some(s.transition_id@),
            codec,
            hardware,
        ),
        SwitchPhase::Persisting => action == SwitchAction::Persist(s.to),
        SwitchPhase::Over => if s.phase == SwitchPhase::StartingMjpeg || s.phase
            == SwitchPhase::Initializing {
            action is GiveUp
        } else {
            action is Finish
        },
    }
}

/// The current mode after a report: the new one from the moment that the old one has stopped.
pub open spec fn next_mode(s: ModeSwitch, mode: StreamMode) -> StreamMode {
    if s.phase == SwitchPhase::StoppingOld {
        s.to
    } else {
        mode
    }
}

/// What a report leads to: the switch after it, and what the caller is to do.
pub open spec fn takes_step(
    before: ModeSwitch,
    report: SwitchReport,
    after: ModeSwitch,
    action: SwitchAction,
) -> bool {
    &&& after == (ModeSwitch { phase: next_phase(before, report), ..before })
    &&& asks(before, report, after.phase, action)
}

impl ModeSwitch {
    /// Takes up a report; gives what the caller is to do next. The first report is the codec that
    /// is current as the switch begins to run.
    pub fn advance(&mut self, manager: &mut VideoStreamManager, report: &SwitchReport) -> (r:
        SwitchAction)
        ensures
            *final(self) == (ModeSwitch { phase: next_phase(*old(self), *report), ..*old(self) }),
            *final(manager) == (VideoStreamManager {
                mode: next_mode(*old(self), old(manager).mode),
                ..*old(manager)
            }),
            asks(*old(self), *report, final(self).phase, r),
            takes_step(*old(self), *report, *final(self), r),
    {
        match self.phase {
            SwitchPhase::Begun => {
                self.phase = SwitchPhase::Announcing;
                let codec = match report {
                    SwitchReport::Codec(codec, _) => *codec,
                    _ => self.codec,
                };
                SwitchAction::Publish(
                    SystemEvent::StreamModeChanged {
                        transition_id: Some(self.transition_id.clone()),
                        mode: mode_to_string(self.to, codec),
                        previous_mode: mode_to_string(self.from, codec),
                    },
                )
            },
            SwitchPhase::Announcing => {
                self.phase = SwitchPhase::StoppingOld;
                match self.from {
                    StreamMode::Mjpeg => SwitchAction::StopMjpeg,
                    StreamMode::WebRTC => SwitchAction::CloseWebrtc,
                }
            },
            SwitchPhase::StoppingOld => {
                manager.mode = self.to;
                match self.to {
                    StreamMode::Mjpeg => {
                        self.phase = SwitchPhase::AskingDevice;
                        SwitchAction::AskDevice
                    },
                    StreamMode::WebRTC => {
                        self.phase = SwitchPhase::AskingState;
                        SwitchAction::AskState
                    },
                }
            },
            SwitchPhase::AskingDevice => {
                let apply = match report {
                    SwitchReport::Device(Some(d)) => needs_mjpeg_format(d),
                    _ => false,
                };
                if apply {
                    self.phase = SwitchPhase::ApplyingFormat;
                    SwitchAction::ApplyMjpegFormat
                } else {
                    self.phase = SwitchPhase::StartingMjpeg;
                    SwitchAction::StartMjpeg
                }
            },
            SwitchPhase::ApplyingFormat => {
                self.phase = SwitchPhase::StartingMjpeg;
                SwitchAction::StartMjpeg
            },
            SwitchPhase::StartingMjpeg => match report {
                SwitchReport::Failed => {
                    self.phase = SwitchPhase::Over;
                    SwitchAction::GiveUp
                },
                _ => {
                    self.phase = SwitchPhase::Persisting;
                    SwitchAction::Persist(self.to)
                },
            },
            SwitchPhase::AskingState => match report {
                SwitchReport::State(StreamerState::Uninitialized) => {
                    self.phase = SwitchPhase::Initializing;
                    SwitchAction::InitCapture
                },
                _ => {
                    self.phase = SwitchPhase::Syncing;
                    SwitchAction::SyncCapture
                },
            },
            SwitchPhase::Initializing => match report {
                SwitchReport::Failed => {
                    self.phase = SwitchPhase::Over;
                    SwitchAction::GiveUp
                },
                _ => {
                    self.phase = SwitchPhase::Syncing;
                    SwitchAction::SyncCapture
                },
            },
            SwitchPhase::Syncing => {
                self.phase = SwitchPhase::AskingCodec;
                SwitchAction::AskCodec
            },
            SwitchPhase::AskingCodec => match report {
                SwitchReport::Codec(codec, hardware) => {
                    self.phase = SwitchPhase::AnnouncingReady;
                    SwitchAction::Publish(
                        SystemEvent::WebRTCReady {
                            transition_id: Some(self.transition_id.clone()),
                            codec: codec_to_string(*codec),
                            hardware: *hardware,
                        },
                    )
                },
                _ => SwitchAction::AskCodec,
            },
            SwitchPhase::AnnouncingReady => {
                self.phase = SwitchPhase::Persisting;
                SwitchAction::Persist(self.to)
            },
            SwitchPhase::Persisting => {
                self.phase = SwitchPhase::Over;
                SwitchAction::Finish
            },
            SwitchPhase::Over => SwitchAction::Finish,
        }
    }
}

/// What follows a request to switch the mode.
#[derive(Debug)]
pub enum SwitchStart {
    /// The mode is current already; where it is WebRTC, the capture is to be kept running.
    Current { ensure_capture: bool },
    /// Another switch is under way.
    Busy,
    /// The event is to be published and the switch to be run.
    Started(SystemEvent, ModeSwitch),
}

impl VideoStreamManager {
    /// Whether the state is one that the manager can be in: a switch has a number while it is
    /// under way.
    pub open spec fn wf(self) -> bool {
        self.switching == (self.transition_id is Some)
    }

    /// A manager that starts out with MJPEG.
    pub fn new() -> (r: Self)
        ensures
            r.wf(),
            r == (VideoStreamManager {
                mode: StreamMode::Mjpeg,
                switching: false,
                transition_id: None,
            }),
    {
        VideoStreamManager { mode: StreamMode::Mjpeg, switching: false, transition_id: None }
    }

    /// Whether a switch is under way.
    pub fn is_switching(&self) -> (r: bool)
        ensures
            r == self.switching,
    {
        self.switching
    }

    /// The number of the switch that is under way.
    pub fn current_transition_id(&self) -> (r: Option<String>)
        ensures
            match (r, self.transition_id) {
                (Some(a), Some(b)) => a@ == b@,
                (None, None) => true,
                _ => false,
            },
    {
        match &self.transition_id {
            Some(id) => Some(id.clone()),
            None => None,
        }
    }

    /// The current mode.
    pub fn current_mode(&self) -> (r: StreamMode)
        ensures
            r == self.mode,
    {
        self.mode
    }

    /// Whether MJPEG is the current mode.
    pub fn is_mjpeg_enabled(&self) -> (r: bool)
        ensures
            r == (self.mode == StreamMode::Mjpeg),
    {
        self.mode == StreamMode::Mjpeg
    }

    /// Whether WebRTC is the current mode.
    pub fn is_webrtc_enabled(&self) -> (r: bool)
        ensures
            r == (self.mode == StreamMode::WebRTC),
    {
        self.mode == StreamMode::WebRTC
    }

    /// Sets the mode at the start; gives whether the capture is to be set up.
    pub fn init_with_mode(&mut self, mode: StreamMode, state: StreamerState) -> (r: bool)
        ensures
            *final(self) == (VideoStreamManager { mode, ..*old(self) }),
            r == (state == StreamerState::Uninitialized),
    {
        self.mode = mode;
        state == StreamerState::Uninitialized
    }

    /// Takes up a request to switch the mode, with a number for the switch. A request for the
    /// current mode starts nothing; the answer still tells of a switch that is under way.
    pub fn begin_switch(
        &mut self,
        new_mode: StreamMode,
        transition_id: String,
        codec: VideoCodecType,
    ) -> (r: (ModeSwitchTransaction, SwitchStart))
        requires
            old(self).wf(),
        ensures
            final(self).wf(),
            r.0.switching == final(self).switching,
            if old(self).mode == new_mode {
                &&& *final(self) == *old(self)
                &&& !r.0.accepted && r.0.switching == old(self).switching
                &&& old(self).switching ==> (r.0.transition_id matches Some(id) && id@ == old(
                    self,
                ).transition_id->0@)
                &&& !old(self).switching ==> r.0.transition_id is None
                &&& r.1 matches SwitchStart::Current { ensure_capture } && ensure_capture == (
                new_mode == StreamMode::WebRTC)
            } else if old(self).switching {
                &&& *final(self) == *old(self)
                &&& !r.0.accepted && r.0.switching
                &&& r.0.transition_id matches Some(id) && id@ == old(self).transition_id->0@
                &&& r.1 is Busy
            } else {
                &&& *final(self) == (VideoStreamManager {
                    switching: true,
                    transition_id: final(self).transition_id,
                    ..*old(self)
                })
                &&& final(self).transition_id matches Some(id) && id@ == transition_id@
                &&& r.0.accepted && r.0.switching
                &&& r.0.transition_id matches Some(id) && id@ == transition_id@
                &&& r.1 matches SwitchStart::Started(event, run) && starts_switch(
                    event,
                    run,
                    old(self).mode,
                    new_mode,
                    transition_id@,
                    codec,
                )
            },
            answers_request(
                *old(self),
                new_mode,
                transition_id@,
                codec,
                *final(self),
                r.0,
                r.1,
            ),
    {
        if self.mode == new_mode {
            let id = self.current_transition_id();
            return (
                ModeSwitchTransaction {
                    accepted: false,
                    switching: self.switching,
                    transition_id: id,
                },
                SwitchStart::Current { ensure_capture: new_mode == StreamMode::WebRTC },
            );
        }
        if self.switching {
            let id = self.current_transition_id();
            return (
                ModeSwitchTransaction { accepted: false, switching: true, transition_id: id },
                SwitchStart::Busy,
            );
        }
        self.switching = true;
        self.transition_id = Some(transition_id.clone());
        let event = SystemEvent::StreamModeSwitching {
            transition_id: transition_id.clone(),
            to_mode: mode_to_string(new_mode, codec),
            from_mode: mode_to_string(self.mode, codec),
        };
        let run = ModeSwitch {
            from: self.mode,
            to: new_mode,
            transition_id: transition_id.clone(),
            codec,
            phase: SwitchPhase::Begun,
        };
        (
            ModeSwitchTransaction {
                accepted: true,
                switching: true,
                transition_id: Some(transition_id),
            },
            SwitchStart::Started(event, run),
        )
    }

    /// Takes up a request to switch the mode, with a fresh number for the switch.
    pub fn switch_mode_transaction(&mut self, new_mode: StreamMode, codec: VideoCodecType) -> (r: (
        ModeSwitchTransaction,
        SwitchStart,
    ))
        requires
            old(self).wf(),
        ensures
            final(self).wf(),
            final(self).mode == old(self).mode,
            r.0.switching == final(self).switching,
            if old(self).mode == new_mode {
                &&& *final(self) == *old(self)
                &&& !r.0.accepted && r.0.switching == old(self).switching
                &&& old(self).switching ==> (r.0.transition_id matches Some(id) && id@ == old(
                    self,
                ).transition_id->0@)
                &&& !old(self).switching ==> r.0.transition_id is None
                &&& r.1 matches SwitchStart::Current { ensure_capture } && ensure_capture == (
                new_mode == StreamMode::WebRTC)
            } else if old(self).switching {
                &&& *final(self) == *old(self)
                &&& !r.0.accepted && r.0.switching
                &&& r.0.transition_id matches Some(id) && id@ == old(self).transition_id->0@
                &&& r.1 is Busy
            } else {
                &&& r.0.accepted && r.0.switching && final(self).switching
                &&& r.0.transition_id matches Some(id) && is_uuid_text(id@) && (final(self).transition_id matches Some(own) && own@ == id@) && (
                r.1 matches SwitchStart::Started(event, run) && starts_switch(
                    event,
                    run,
                    old(self).mode,
                    new_mode,
                    id@,
                    codec,
                ))
            },
            exists|id: Seq<char>|
                is_uuid_text(id) && #[trigger] answers_request(
                    *old(self),
                    new_mode,
                    id,
                    codec,
                    *final(self),
                    r.0,
                    r.1,
                ),
    {
        let transition_id = random_uuid();
        self.begin_switch(new_mode, transition_id, codec)
    }

    /// The event that says that a switch has come to its end, in success or in failure. It names
    /// the mode that is current now, and is published while the switch still counts as under
    /// way.
    pub fn ready_event(&self, run: &ModeSwitch, codec: VideoCodecType) -> (r: SystemEvent)
        ensures
            r matches SystemEvent::StreamModeReady { transition_id, mode } && transition_id@
                == run.transition_id@ && mode@ == mode_text(self.mode, codec),
    {
        SystemEvent::StreamModeReady {
            transition_id: run.transition_id.clone(),
            mode: mode_to_string(self.mode, codec),
        }
    }

    /// The end of the switch has been announced: another may begin.
    pub fn finish_switch(&mut self)
        ensures
            final(self).wf(),
            *final(self) == (VideoStreamManager {
                switching: false,
                transition_id: None,
                ..*old(self)
            }),
    {
        self.transition_id = None;
        self.switching = false;
    }
}

/// What a request to switch the mode leads to: the manager after it, what the caller is told, and
/// what is to be done. The number is that of the switch, where one starts.
pub open spec fn answers_request(
    before: VideoStreamManager,
    new_mode: StreamMode,
    id: Seq<char>,
    codec: VideoCodecType,
    after: VideoStreamManager,
    told: ModeSwitchTransaction,
    start: SwitchStart,
) -> bool {
    &&& after.mode == before.mode
    &&& told.switching == after.switching
    &&& if before.mode == new_mode {
        &&& after == before
        &&& !told.accepted && told.switching == before.switching
        &&& before.switching ==> (told.transition_id matches Some(own) && own@
            == before.transition_id->0@)
        &&& !before.switching ==> told.transition_id is None
        &&& start matches SwitchStart::Current { ensure_capture } && ensure_capture == (new_mode
            == StreamMode::WebRTC)
    } else if before.switching {
        &&& after == before
        &&& !told.accepted && told.switching
        &&& told.transition_id matches Some(own) && own@ == before.transition_id->0@
        &&& start is Busy
    } else {
        &&& after == (VideoStreamManager {
            switching: true,
            transition_id: after.transition_id,
            ..before
        })
        &&& after.transition_id matches Some(own) && own@ == id
        &&& told.accepted && told.switching
        &&& told.transition_id matches Some(own) && own@ == id
        &&& start matches SwitchStart::Started(event, run) && starts_switch(
            event,
            run,
            before.mode,
            new_mode,
            id,
            codec,
        )
    }
}

/// Whether a switch begins as it should.
pub open spec fn starts_switch(
    event: SystemEvent,
    run: ModeSwitch,
    from: StreamMode,
    to: StreamMode,
    id: Seq<char>,
    codec: VideoCodecType,
) -> bool {
    &&& event matches SystemEvent::StreamModeSwitching { transition_id, to_mode, from_mode }
        && transition_id@ == id && to_mode@ == mode_text(to, codec) && from_mode@ == mode_text(
        from,
        codec,
    )
    &&& run.from == from
    &&& run.to == to
    &&& run.transition_id@ == id
    &&& run.codec == codec
    &&& run.phase == SwitchPhase::Begun
}

// ---------------------------------------------------------------- setting the capture up

/// What the capture is set up with.
#[derive(Debug)]
pub struct CaptureConfig {
    pub device_path: Option<String>,
    pub resolution: Resolution,
    pub format: PixelFormat,
    pub fps: u32,
    pub jpeg_quality: u8,
}

/// What the caller is to do about a new setup.
#[derive(Debug, Clone, Copy, PartialEq, Eq, Structural)]
pub enum ApplyAction {
    /// Tell the browsers' side the geometry.
    UpdateWebrtc(Resolution, PixelFormat, u32),
    /// Start the current mode; a failure does not matter.
    Start,
    /// Tell the browsers' side the capture's device, with this picture quality.
    SetCaptureDevice(u8),
    /// Announce that browsers can be served.
    AnnounceWebrtc,
}

/// What comes before a new setup of the capture.
pub fn before_apply(mode: StreamMode, format: PixelFormat, resolution: Resolution, fps: u32) -> (r:
    Vec<ApplyAction>)
    ensures
        r@ == (if mode == StreamMode::WebRTC {
            seq![ApplyAction::UpdateWebrtc(resolution, format, fps)]
        } else {
            Seq::empty()
        }),
{
    let mut actions: Vec<ApplyAction> = Vec::new();
    if mode == StreamMode::WebRTC {
        actions.push(ApplyAction::UpdateWebrtc(resolution, format, fps));
    }
    actions
}

/// What follows a new setup of the capture: MJPEG is started; the browsers' side learns the
/// geometry where the capture took another than was asked for, learns the device where there is
/// one, and is announced.
pub open spec fn follow_ups(
    mode: StreamMode,
    format: PixelFormat,
    resolution: Resolution,
    fps: u32,
    actual: CaptureConfig,
) -> Seq<ApplyAction> {
    if mode != StreamMode::WebRTC {
        seq![ApplyAction::Start]
    } else {
        (if actual.format != format || actual.resolution != resolution || actual.fps != fps {
            seq![ApplyAction::UpdateWebrtc(actual.resolution, actual.format, actual.fps)]
        } else {
            Seq::empty()
        }) + (if actual.device_path is Some {
            seq![ApplyAction::SetCaptureDevice(actual.jpeg_quality)]
        } else {
            Seq::empty()
        }) + seq![ApplyAction::AnnounceWebrtc]
    }
}

/// Tells what follows a new setup of the capture.
pub fn after_apply(
    mode: StreamMode,
    format: PixelFormat,
    resolution: Resolution,
    fps: u32,
    actual: &CaptureConfig,
) -> (r: Vec<ApplyAction>)
    ensures
        r@ == follow_ups(mode, format, resolution, fps, *actual),
{
    let mut actions: Vec<ApplyAction> = Vec::new();
    if mode != StreamMode::WebRTC {
        actions.push(ApplyAction::Start);
        return actions;
    }
    if actual.format != format || actual.resolution != resolution || actual.fps != fps {
        actions.push(
            ApplyAction::UpdateWebrtc(actual.resolution, actual.format, actual.fps),
        );
    }
    if actual.device_path.is_some() {
        actions.push(ApplyAction::SetCaptureDevice(actual.jpeg_quality));
    }
    actions.push(ApplyAction::AnnounceWebrtc);
    actions
}

/// The event that says that browsers can be served.
pub fn webrtc_ready(transition_id: Option<String>, codec: VideoCodecType, hardware: bool) -> (r:
    SystemEvent)
    ensures
        announces_ready(
            r,
            match transition_id {
                Some(id) => Some(id@),
                None => None,
            },
            codec,
            hardware,
        ),
{
    SystemEvent::WebRTCReady { transition_id, codec: codec_to_string(codec), hardware }
}

/// The events that tell of a change of the codec, in order.
pub fn codec_switch_events(transition_id: &str, new_codec: &str, previous: &str, hardware: bool)
    -> (r: Vec<SystemEvent>)
    ensures
        r@.len() == 3,
        r@[0] matches SystemEvent::StreamModeChanged { transition_id: id, mode, previous_mode }
            && (id matches Some(i) && i@ == transition_id@) && mode@ == new_codec@
            && previous_mode@ == previous@,
        r@[1] matches SystemEvent::WebRTCReady { transition_id: id, codec, hardware: hw } && (
        id matches Some(i) && i@ == transition_id@) && codec@ == new_codec@ && hw == hardware,
        r@[2] matches SystemEvent::StreamModeReady { transition_id: id, mode } && id@
            == transition_id@ && mode@ == new_codec@,
{
    let mut events: Vec<SystemEvent> = Vec::new();
    events.push(
        SystemEvent::StreamModeChanged {
            transition_id: Some(owned(transition_id)),
            mode: owned(new_codec),
            previous_mode: owned(previous),
        },
    );
    events.push(
        SystemEvent::WebRTCReady {
            transition_id: Some(owned(transition_id)),
            codec: owned(new_codec),
            hardware,
        },
    );
    events.push(
        SystemEvent::StreamModeReady {
            transition_id: owned(transition_id),
            mode: owned(new_codec),
        },
    );
    events
}

/// What starting the current mode takes.
#[derive(Debug, Clone, Copy, PartialEq, Eq, Structural)]
pub enum ModeStart {
    /// Start the capture for MJPEG.
    StartMjpeg,
    /// Set the capture up, then tell the browsers' side about it.
    InitAndSync,
    /// Tell the browsers' side about the capture.
    Sync,
}

/// Tells what starting the current mode takes.
pub fn plan_mode_start(mode: StreamMode, state: StreamerState) -> (r: ModeStart)
    ensures
        r == (match mode {
            StreamMode::Mjpeg => ModeStart::StartMjpeg,
            StreamMode::WebRTC => if state == StreamerState::Uninitialized {
                ModeStart::InitAndSync
            } else {
                ModeStart::Sync
            },
        }),
{
    match mode {
        StreamMode::Mjpeg => ModeStart::StartMjpeg,
        StreamMode::WebRTC => if state == StreamerState::Uninitialized {
            ModeStart::InitAndSync
        } else {
            ModeStart::Sync
        },
    }
}

/// Whether browser sessions are to be closed before the capture stops.
pub fn closes_sessions_on_stop(mode: StreamMode) -> (r: bool)
    ensures
        r == (mode == StreamMode::WebRTC),
{
    mode == StreamMode::WebRTC
}

/// What is told of the video.
#[derive(Debug)]
pub struct VideoStatus {
    pub available: bool,
    pub device: Option<String>,
    pub format: PixelFormat,
    pub resolution: Resolution,
    pub fps: u32,
    pub online: bool,
    pub stream_mode: String,
    pub config_changing: bool,
    pub error: Option<String>,
}

/// Tells of the video.
pub fn get_video_info(
    state: StreamerState,
    mode: StreamMode,
    codec: VideoCodecType,
    actual: CaptureConfig,
    config_changing: bool,
) -> (r: VideoStatus)
    ensures
        r.available == (state != StreamerState::Uninitialized),
        r.device == actual.device_path,
        r.format == actual.format,
        r.resolution == actual.resolution,
        r.fps == actual.fps,
        r.online == (state == StreamerState::Streaming),
        r.stream_mode@ == mode_text(mode, codec),
        r.config_changing == config_changing,
        match state {
            StreamerState::Error => r.error matches Some(m) && m@ == "Video stream error"@,
            StreamerState::NoSignal => r.error matches Some(m) && m@ == "No video signal"@,
            _ => r.error is None,
        },
{
    VideoStatus {
        available: state != StreamerState::Uninitialized,
        device: actual.device_path,
        format: actual.format,
        resolution: actual.resolution,
        fps: actual.fps,
        online: state == StreamerState::Streaming,
        stream_mode: mode_to_string(mode, codec),
        config_changing,
        error: match state {
            StreamerState::Error => Some(owned("Video stream error")),
            StreamerState::NoSignal => Some(owned("No video signal")),
            _ => None,
        },
    }
}

// ---------------------------------------------------------------- laws

/// How far along a phase is.
pub open spec fn phase_rank(phase: SwitchPhase) -> int {
    match phase {
        SwitchPhase::Begun => 0,
        SwitchPhase::Announcing => 1,
        SwitchPhase::StoppingOld => 2,
        SwitchPhase::AskingDevice => 3,
        SwitchPhase::ApplyingFormat => 4,
        SwitchPhase::StartingMjpeg => 5,
        SwitchPhase::AskingState => 3,
        SwitchPhase::Initializing => 4,
        SwitchPhase::Syncing => 5,
        SwitchPhase::AskingCodec => 6,
        SwitchPhase::AnnouncingReady => 7,
        SwitchPhase::Persisting => 8,
        SwitchPhase::Over => 9,
    }
}

/// Every report takes a switch further, so that it ends; only a question for the codec that was
/// not answered is asked again.
pub proof fn every_report_takes_the_switch_further(s: ModeSwitch, report: SwitchReport)
    requires
        s.phase != SwitchPhase::Over,
        s.phase == SwitchPhase::AskingCodec ==> report is Codec,
    ensures
        phase_rank(next_phase(s, report)) > phase_rank(s.phase),
        phase_rank(next_phase(s, report)) <= phase_rank(SwitchPhase::Over),
{
}

/// Only one mode is active: nothing of the new mode is started before the old one was told to
/// stop and has reported, and from that moment on the new mode is the current one.
pub proof fn old_mode_stops_before_the_new_one_starts(
    s: ModeSwitch,
    report: SwitchReport,
    action: SwitchAction,
    mode: StreamMode,
)
    requires
        asks(s, report, next_phase(s, report), action),
    ensures
        action is StartMjpeg || action is InitCapture || action is SyncCapture || action is
            ApplyMjpegFormat ==> phase_rank(s.phase) > phase_rank(SwitchPhase::StoppingOld),
        action is StartMjpeg || action is ApplyMjpegFormat ==> s.phase == SwitchPhase::AskingDevice
            || s.phase == SwitchPhase::ApplyingFormat,
        next_mode(s, mode) != mode ==> s.phase == SwitchPhase::StoppingOld && next_mode(s, mode)
            == s.to,
{
}

/// A switch that fails is not remembered: the mode is stored only on the way to success.
pub proof fn a_failed_switch_is_not_remembered(
    s: ModeSwitch,
    report: SwitchReport,
    action: SwitchAction,
)
    requires
        asks(s, report, next_phase(s, report), action),
    ensures
        action is GiveUp ==> next_phase(s, report) == SwitchPhase::Over && report is Failed,
        action is Persist ==> next_phase(s, report) == SwitchPhase::Persisting,
        s.phase == SwitchPhase::Persisting ==> action is Finish,
{
}

/// A run of a switch: where it stands after each report, what was reported, and what was asked.
/// It goes no further once it is over.
pub open spec fn is_run(
    s: Seq<ModeSwitch>,
    reports: Seq<SwitchReport>,
    actions: Seq<SwitchAction>,
) -> bool {
    &&& s.len() == actions.len() + 1
    &&& reports.len() == actions.len()
    &&& s[0].phase == SwitchPhase::Begun
    &&& s[0].from != s[0].to
    &&& forall|i: int|
        0 <= i < actions.len() ==> s[i].phase != SwitchPhase::Over && #[trigger] takes_step(
            s[i],
            reports[i],
            s[i + 1],
            actions[i],
        )
}

/// Whether an action was given before a place of a run.
pub open spec fn given_before(
    actions: Seq<SwitchAction>,
    n: int,
    wanted: spec_fn(SwitchAction) -> bool,
) -> bool {
    exists|i: int| 0 <= i < n && i < actions.len() && wanted(#[trigger] actions[i])
}

proof fn lemma_run(
    s: Seq<ModeSwitch>,
    reports: Seq<SwitchReport>,
    actions: Seq<SwitchAction>,
    n: int,
)
    requires
        is_run(s, reports, actions),
        0 <= n <= actions.len(),
    ensures
        s[n].from == s[0].from && s[n].to == s[0].to && s[n].transition_id == s[0].transition_id
            && s[n].codec == s[0].codec,
        n == 0 <==> s[n].phase == SwitchPhase::Begun,
        n == 1 <==> s[n].phase == SwitchPhase::Announcing,
        n == 2 <==> s[n].phase == SwitchPhase::StoppingOld,
        s[0].to == StreamMode::WebRTC ==> s[n].phase != SwitchPhase::AskingDevice && s[n].phase
            != SwitchPhase::ApplyingFormat && s[n].phase != SwitchPhase::StartingMjpeg,
        s[0].to == StreamMode::Mjpeg ==> s[n].phase != SwitchPhase::AskingState && s[n].phase
            != SwitchPhase::Initializing && s[n].phase != SwitchPhase::Syncing && s[n].phase
            != SwitchPhase::AskingCodec && s[n].phase != SwitchPhase::AnnouncingReady,
        s[0].to == StreamMode::WebRTC && (s[n].phase == SwitchPhase::Syncing || s[n].phase
            == SwitchPhase::AskingCodec || s[n].phase == SwitchPhase::AnnouncingReady || s[n].phase
            == SwitchPhase::Persisting) ==> given_before(
            actions,
            n,
            |a: SwitchAction| a is SyncCapture,
        ),
        s[0].to == StreamMode::WebRTC && (s[n].phase == SwitchPhase::AnnouncingReady || s[n].phase
            == SwitchPhase::Persisting) ==> given_before(
            actions,
            n,
            |a: SwitchAction| a matches SwitchAction::Publish(e) && e is WebRTCReady,
        ),
        s[0].to == StreamMode::Mjpeg && (s[n].phase == SwitchPhase::StartingMjpeg || s[n].phase
            == SwitchPhase::Persisting) ==> given_before(
            actions,
            n,
            |a: SwitchAction| a is StartMjpeg,
        ),
        s[n].phase == SwitchPhase::Persisting ==> given_before(
            actions,
            n,
            |a: SwitchAction| a == SwitchAction::Persist(s[0].to),
        ),
        s[n].phase == SwitchPhase::Over ==> n == actions.len(),
    decreases n,
{
    if n > 0 {
        lemma_run(s, reports, actions, n - 1);
        assert(takes_step(s[n - 1], reports[n - 1], s[n - 1 + 1], actions[n - 1]));
        let last = actions[n - 1];
        let synced = |a: SwitchAction| a is SyncCapture;
        let ready = |a: SwitchAction| a matches SwitchAction::Publish(e) && e is WebRTCReady;
        let started = |a: SwitchAction| a is StartMjpeg;
        let kept = |a: SwitchAction| a == SwitchAction::Persist(s[0].to);
        assert(synced(last) ==> given_before(actions, n, synced));
        assert(ready(last) ==> given_before(actions, n, ready));
        assert(started(last) ==> given_before(actions, n, started));
        assert(kept(last) ==> given_before(actions, n, kept));
        assert(given_before(actions, n - 1, synced) ==> given_before(actions, n, synced));
        assert(given_before(actions, n - 1, ready) ==> given_before(actions, n, ready));
        assert(given_before(actions, n - 1, started) ==> given_before(actions, n, started));
        assert(given_before(actions, n - 1, kept) ==> given_before(actions, n, kept));
        if n < actions.len() {
            assert(takes_step(s[n], reports[n], s[n + 1], actions[n]));
        }
    }
}

/// Browsers are served from a capture that their side knows of: on every run of a switch to
/// WebRTC, whatever was reported, the capture is synced before the codec is asked for, before
/// browsers are told that they can be served, before the mode is remembered and before the switch
/// succeeds; and they are told before the mode is remembered. A switch goes on from the question
/// for the capture's state by setting the capture up, where it is not, or by syncing it.
pub proof fn a_switch_to_webrtc_syncs_the_capture_first(
    s: Seq<ModeSwitch>,
    reports: Seq<SwitchReport>,
    actions: Seq<SwitchAction>,
    n: int,
)
    requires
        is_run(s, reports, actions),
        s[0].to == StreamMode::WebRTC,
        0 <= n < actions.len(),
    ensures
        actions[n] is AskCodec || actions[n] is Persist || actions[n] is Finish || (
        actions[n] matches SwitchAction::Publish(e) && e is WebRTCReady) ==> given_before(
            actions,
            n,
            |a: SwitchAction| a is SyncCapture,
        ),
        actions[n] is Persist || actions[n] is Finish ==> given_before(
            actions,
            n,
            |a: SwitchAction| a matches SwitchAction::Publish(e) && e is WebRTCReady,
        ),
        actions[n] is AskState && n + 1 < actions.len() ==> (if reports[n + 1]
            == SwitchReport::State(StreamerState::Uninitialized) {
            actions[n + 1] is InitCapture
        } else {
            actions[n + 1] is SyncCapture
        }),
        actions[n] is InitCapture && n + 1 < actions.len() ==> (if reports[n + 1] is Failed {
            actions[n + 1] is GiveUp
        } else {
            actions[n + 1] is SyncCapture
        }),
        actions[n] is SyncCapture && n + 1 < actions.len() ==> actions[n + 1] is AskCodec,
        !(actions[n] is StartMjpeg) && !(actions[n] is ApplyMjpegFormat) && !(actions[n] is
            AskDevice),
{
    lemma_run(s, reports, actions, n);
    assert(takes_step(s[n], reports[n], s[n + 1], actions[n]));
    if n + 1 < actions.len() {
        assert(takes_step(s[n + 1], reports[n + 1], s[n + 1 + 1], actions[n + 1]));
    }
}

/// On every run of a switch to MJPEG the capture is started before the mode is remembered and
/// before the switch succeeds; the capture's format is changed only for a device that says so, and
/// only before the start. Nothing of the other mode is started.
pub proof fn a_switch_to_mjpeg_starts_the_capture(
    s: Seq<ModeSwitch>,
    reports: Seq<SwitchReport>,
    actions: Seq<SwitchAction>,
    n: int,
)
    requires
        is_run(s, reports, actions),
        s[0].to == StreamMode::Mjpeg,
        0 <= n < actions.len(),
    ensures
        actions[n] is Persist || actions[n] is Finish ==> given_before(
            actions,
            n,
            |a: SwitchAction| a is StartMjpeg,
        ),
        actions[n] is AskDevice && n + 1 < actions.len() ==> (if reports[n
            + 1] matches SwitchReport::Device(Some(d)) && d.current_format != PixelFormat::Mjpeg
            && d.formats@.contains(PixelFormat::Mjpeg) && !is_rk_hdmirx(d.driver@, d.card@) {
            actions[n + 1] is ApplyMjpegFormat
        } else {
            actions[n + 1] is StartMjpeg
        }),
        actions[n] is ApplyMjpegFormat && n + 1 < actions.len() ==> actions[n + 1] is StartMjpeg,
        actions[n] is StartMjpeg && n + 1 < actions.len() ==> (if reports[n + 1] is Failed {
            actions[n + 1] is GiveUp
        } else {
            actions[n + 1] is Persist
        }),
        !(actions[n] is InitCapture) && !(actions[n] is SyncCapture) && !(actions[n] is AskState)
            && !(actions[n] is AskCodec),
{
    lemma_run(s, reports, actions, n);
    assert(takes_step(s[n], reports[n], s[n + 1], actions[n]));
    if n + 1 < actions.len() {
        assert(takes_step(s[n + 1], reports[n + 1], s[n + 1 + 1], actions[n + 1]));
    }
}

/// Every run begins alike: the change is announced under the switch's number, with the names of
/// both modes; then the old mode is stopped, each mode in its own way; and only then comes the
/// first question about the new one. A run that succeeds ends after the mode was remembered, and
/// the mode that is remembered is the new one.
pub proof fn every_switch_stops_the_old_mode_first(
    s: Seq<ModeSwitch>,
    reports: Seq<SwitchReport>,
    actions: Seq<SwitchAction>,
    n: int,
)
    requires
        is_run(s, reports, actions),
        0 <= n < actions.len(),
    ensures
        n == 0 ==> (actions[n] matches SwitchAction::Publish(e)
            && e matches SystemEvent::StreamModeChanged { transition_id, mode, previous_mode } && (
        transition_id matches Some(id) && id@ == s[0].transition_id@) && (s[0].to
            == StreamMode::Mjpeg ==> mode@ == "mjpeg"@) && (s[0].from == StreamMode::Mjpeg
            ==> previous_mode@ == "mjpeg"@) && (reports[0] matches SwitchReport::Codec(codec, _)
            ==> (s[0].to == StreamMode::WebRTC ==> mode@ == codec_name(codec)) && (s[0].from
            == StreamMode::WebRTC ==> previous_mode@ == codec_name(codec)))),
        n == 1 ==> (s[0].from == StreamMode::Mjpeg <==> actions[n] is StopMjpeg) && (s[0].from
            == StreamMode::WebRTC <==> actions[n] is CloseWebrtc),
        n == 2 ==> (s[0].to == StreamMode::Mjpeg <==> actions[n] is AskDevice) && (s[0].to
            == StreamMode::WebRTC <==> actions[n] is AskState),
        actions[n] is StopMjpeg || actions[n] is CloseWebrtc ==> n == 1,
        actions[n] matches SwitchAction::Persist(mode) ==> mode == s[0].to,
        actions[n] is Finish ==> given_before(
            actions,
            n,
            |a: SwitchAction| a == SwitchAction::Persist(s[0].to),
        ),
        actions[n] is Finish || actions[n] is GiveUp ==> n == actions.len() - 1,
        actions[n] is GiveUp ==> reports[n] is Failed && !given_before(
            actions,
            n,
            |a: SwitchAction| a is Persist,
        ),
{
    lemma_run(s, reports, actions, n);
    lemma_run(s, reports, actions, n + 1);
    assert(takes_step(s[n], reports[n], s[n + 1], actions[n]));
    if actions[n] is GiveUp && given_before(actions, n, |a: SwitchAction| a is Persist) {
        let i = choose|i: int| 0 <= i < n && i < actions.len() && actions[i] is Persist;
        lemma_run(s, reports, actions, i + 1);
        assert(takes_step(s[i], reports[i], s[i + 1], actions[i]));
        assert(s[i + 1].phase == SwitchPhase::Persisting);
        assert(takes_step(s[i + 1], reports[i + 1], s[i + 1 + 1], actions[i + 1]));
        lemma_run(s, reports, actions, i + 2);
        assert(s[i + 2].phase == SwitchPhase::Over);
    }
}

/// The old mode stays current until it has stopped, and the new one is current from then on,
/// whatever becomes of the switch.
pub proof fn the_mode_changes_once_the_old_one_has_stopped(
    s: Seq<ModeSwitch>,
    reports: Seq<SwitchReport>,
    actions: Seq<SwitchAction>,
    modes: Seq<StreamMode>,
    n: int,
)
    requires
        is_run(s, reports, actions),
        modes.len() == s.len(),
        modes[0] == s[0].from,
        forall|i: int|
            0 <= i < actions.len() ==> modes[i + 1] == #[trigger] next_mode(s[i], modes[i]),
        0 <= n <= actions.len(),
    ensures
        n <= 2 ==> modes[n] == s[0].from,
        n > 2 ==> modes[n] == s[0].to,
    decreases n,
{
    if n > 0 {
        the_mode_changes_once_the_old_one_has_stopped(s, reports, actions, modes, n - 1);
        lemma_run(s, reports, actions, n - 1);
        assert(modes[n - 1 + 1] == next_mode(s[n - 1], modes[n - 1]));
    }
}

/// Only one switch runs at a time: a request starts one exactly where it asks for another mode
/// while none is under way. The answer tells whether one is under way, and names it; a request
/// that starts none changes nothing.
pub proof fn one_switch_at_a_time(
    before: VideoStreamManager,
    new_mode: StreamMode,
    id: Seq<char>,
    codec: VideoCodecType,
    after: VideoStreamManager,
    told: ModeSwitchTransaction,
    start: SwitchStart,
)
    requires
        before.wf(),
        answers_request(before, new_mode, id, codec, after, told, start),
    ensures
        told.accepted <==> new_mode != before.mode && !before.switching,
        start is Started <==> told.accepted,
        start is Busy <==> new_mode != before.mode && before.switching,
        start is Current <==> new_mode == before.mode,
        start matches SwitchStart::Current { ensure_capture } ==> (ensure_capture <==> new_mode
            == StreamMode::WebRTC),
        told.switching <==> before.switching || told.accepted,
        told.switching <==> told.transition_id is Some,
        before.switching ==> told.transition_id->0@ == before.transition_id->0@,
        !told.accepted ==> after == before,
        told.accepted ==> after.switching && after.transition_id is Some && after.transition_id->0@
            == id && told.transition_id->0@ == id,
        after.mode == before.mode,
        after.wf(),
        start matches SwitchStart::Started(event, run) ==> run.from == before.mode && run.to
            == new_mode && run.from != run.to && run.transition_id@ == id && run.phase
            == SwitchPhase::Begun && event is StreamModeSwitching,
        start matches SwitchStart::Started(
            SystemEvent::StreamModeSwitching { transition_id, to_mode, from_mode },
            run,
        ) ==> transition_id@ == id && (new_mode == StreamMode::Mjpeg ==> to_mode@ == "mjpeg"@
            && from_mode@ == codec_name(codec)) && (new_mode == StreamMode::WebRTC ==> to_mode@
            == codec_name(codec) && from_mode@ == "mjpeg"@),
{
}

/// After a new setup of the capture MJPEG is started, and nothing else is done. Browsers are
/// told last that they can be served; before that their side learns the geometry exactly where
/// the capture took another than was asked for, and the device exactly where there is one.
pub proof fn what_follows_a_new_setup(
    mode: StreamMode,
    format: PixelFormat,
    resolution: Resolution,
    fps: u32,
    actual: CaptureConfig,
)
    ensures
        ({
            let steps = follow_ups(mode, format, resolution, fps, actual);
            let taken = actual.format == format && actual.resolution == resolution && actual.fps
                == fps;
            &&& mode == StreamMode::Mjpeg ==> steps == seq![ApplyAction::Start]
            &&& mode == StreamMode::WebRTC ==> {
                &&& steps.len() > 0 && steps.last() == ApplyAction::AnnounceWebrtc
                &&& !steps.contains(ApplyAction::Start)
                &&& !taken <==> steps[0] == ApplyAction::UpdateWebrtc(
                    actual.resolution,
                    actual.format,
                    actual.fps,
                )
                &&& actual.device_path is Some <==> steps.len() > 1 && steps[steps.len() - 2]
                    == ApplyAction::SetCaptureDevice(actual.jpeg_quality)
                &&& steps.len() == 1 + (if taken {
                    0int
                } else {
                    1int
                }) + (if actual.device_path is Some {
                    1int
                } else {
                    0int
                })
            }
        }),
{
}

/// The small decisions about modes: starting MJPEG starts the capture, starting WebRTC sets it up
/// where it is not; sessions of browsers are closed where there can be some; a mode that is taken
/// up at the start changes nothing but the mode; and browsers are told of the codec's name.
pub proof fn modes_are_told_apart(
    mode: StreamMode,
    state: StreamerState,
    plan: ModeStart,
    closes: bool,
    format: PixelFormat,
    resolution: Resolution,
    fps: u32,
    steps: Vec<ApplyAction>,
)
    ensures
        call_ensures(plan_mode_start, (mode, state), plan) ==> (plan == ModeStart::StartMjpeg
            <==> mode == StreamMode::Mjpeg) && (plan == ModeStart::InitAndSync <==> mode
            == StreamMode::WebRTC && state == StreamerState::Uninitialized) && (plan
            == ModeStart::Sync <==> mode == StreamMode::WebRTC && state
            != StreamerState::Uninitialized),
        call_ensures(closes_sessions_on_stop, (mode,), closes) ==> (closes <==> mode
            == StreamMode::WebRTC),
        call_ensures(before_apply, (mode, format, resolution, fps), steps) ==> (mode
            == StreamMode::Mjpeg ==> steps@.len() == 0) && (mode == StreamMode::WebRTC ==> steps@
            == seq![ApplyAction::UpdateWebrtc(resolution, format, fps)]),
{
}

/// What is told of the video is what the capture is set up with, under the name of the mode; an
/// error is told exactly where the capture has failed or has no signal.
pub proof fn what_is_told_of_the_video(
    state: StreamerState,
    mode: StreamMode,
    codec: VideoCodecType,
    actual: CaptureConfig,
    config_changing: bool,
    r: VideoStatus,
)
    requires
        call_ensures(get_video_info, (state, mode, codec, actual, config_changing), r),
    ensures
        r.available <==> state != StreamerState::Uninitialized,
        r.online <==> state == StreamerState::Streaming,
        r.error is Some <==> state == StreamerState::Error || state == StreamerState::NoSignal,
        state == StreamerState::Error ==> r.error->0@ == "Video stream error"@,
        state == StreamerState::NoSignal ==> r.error->0@ == "No video signal"@,
        r.device == actual.device_path && r.format == actual.format && r.resolution
            == actual.resolution && r.fps == actual.fps && r.config_changing == config_changing,
        mode == StreamMode::Mjpeg ==> r.stream_mode@ == "mjpeg"@,
        mode == StreamMode::WebRTC ==> r.stream_mode@ == codec_name(codec),
{
}

/// A change of the codec is told in three events under one number: the change from the old name
/// to the new one, that browsers can be served with the new one, and that the change is over.
pub proof fn a_codec_change_is_told_in_three_events(
    id: &str,
    new_codec: &str,
    previous: &str,
    hardware: bool,
    r: Vec<SystemEvent>,
)
    requires
        call_ensures(codec_switch_events, (id, new_codec, previous, hardware), r),
    ensures
        r@.len() == 3,
        r@[0] is StreamModeChanged && r@[1] is WebRTCReady && r@[2] is StreamModeReady,
        r@[0] matches SystemEvent::StreamModeChanged { transition_id, mode, previous_mode } ==> (
        transition_id matches Some(t) && t@ == id@) && mode@ == new_codec@ && previous_mode@
            == previous@,
        r@[1] matches SystemEvent::WebRTCReady { transition_id, codec, hardware: hw } ==> (
        transition_id matches Some(t) && t@ == id@) && codec@ == new_codec@ && hw == hardware,
        r@[2] matches SystemEvent::StreamModeReady { transition_id, mode } ==> transition_id@ == id@
            && mode@ == new_codec@,
{
}

/// The receiver of that family is known by its driver or by its card, whatever the case, and by
/// nothing else.
pub proof fn the_receiver_is_known_by_its_name(driver: Seq<char>, card: Seq<char>)
    ensures
        lower(driver) == "rk_hdmirx"@ ==> is_rk_hdmirx(driver, card),
        lower(card) == "rk_hdmirx"@ ==> is_rk_hdmirx(driver, card),
        lower(driver) != "rk_hdmirx"@ && lower(card) != "rk_hdmirx"@ ==> !is_rk_hdmirx(driver, card),
{
}

} // verus!
