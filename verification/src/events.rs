//! What the services report to the rest of the system.
use crate::video::format::{PixelFormat, Resolution};
use vstd::prelude::*;

verus! {

/// An event.
#[allow(inconsistent_fields)]
#[derive(Debug, Clone)]
pub enum SystemEvent {
    /// The state of the capture has changed.
    StreamStateChanged { state: String, device: Option<String> },
    /// A capture was configured.
    StreamConfigApplied { device: String, resolution: Resolution, format: PixelFormat, fps: u32 },
    /// A switch of the streaming mode begins.
    StreamModeSwitching { transition_id: String, to_mode: String, from_mode: String },
    /// The streaming mode changes.
    StreamModeChanged { transition_id: Option<String>, mode: String, previous_mode: String },
    /// A switch of the streaming mode is over.
    StreamModeReady { transition_id: String, mode: String },
    /// Browsers can be served.
    WebRTCReady { transition_id: Option<String>, codec: String, hardware: bool },
}

} // verus!
