//! Settings and errors that the modules share.
use crate::text::owned;
use vstd::prelude::*;

verus! {

/// Why a request was refused.
#[derive(Debug, Clone, PartialEq, Eq)]
pub enum AppError {
    /// The request is malformed.
    BadRequest(String),
    /// What the request names does not exist.
    NotFound(String),
    /// Something inside failed.
    Internal(String),
    /// Capture or encoding failed.
    VideoError(String),
    /// The audio system failed.
    AudioError(String),
    /// A browser's stream failed.
    WebRtcError(String),
    /// Input or output failed.
    Io(String),
}

impl AppError {
    /// A refusal of a malformed request.
    pub fn bad_request(message: &str) -> (r: Self)
        ensures
            r matches AppError::BadRequest(m) && m@ == message@,
    {
        AppError::BadRequest(owned(message))
    }

    /// A refusal of a request for what does not exist.
    pub fn not_found(message: &str) -> (r: Self)
        ensures
            r matches AppError::NotFound(m) && m@ == message@,
    {
        AppError::NotFound(owned(message))
    }

    /// A failure of capture or encoding.
    pub fn video(message: &str) -> (r: Self)
        ensures
            r matches AppError::VideoError(m) && m@ == message@,
    {
        AppError::VideoError(owned(message))
    }
}

/// The codec that the streaming services offer.
#[derive(Debug, Clone, Copy, PartialEq, Eq, Structural)]
pub enum RtspCodec {
    H264,
    H265,
}

/// Settings of the streaming services.
#[derive(Debug, Clone, Copy)]
pub struct RtspConfig {
    pub codec: RtspCodec,
}

/// Settings of the game streaming host.
#[derive(Debug, Clone)]
pub struct SunshineConfig {
    pub enabled: bool,
    pub bind: String,
    pub http_port: u16,
    pub https_port: u16,
    pub hostname: String,
    pub unique_id: String,
    pub app_id: u32,
    pub app_title: String,
}

} // verus!
