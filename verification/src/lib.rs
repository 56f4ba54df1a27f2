//! The verified core of One-KVM, a KVM-over-IP host for Amlogic boxes.
//!
//! - `sunshine` pairs with Moonlight clients and streams to them: HTTP replies, the pairing
//!   protocol, RTSP, the control and video streams, discovery.
//! - `video` captures, encodes and switches between the streaming modes.
//! - `webrtc` prepares encoded video for browsers.
//! - `audio` and `otg` choose capture endpoints and describe USB functions.
//! - `ffi` holds the plain values that the C libraries exchange, `web` what the web interface
//!   shows, `events` what it is told.
//! - `bytes`, `text` and `text_map` are the primitives that the parsers are stated over.
pub mod audio;
pub mod bytes;
pub mod events;
pub mod ffi;
pub mod otg;
pub mod sunshine;
pub mod text;
pub mod text_map;
pub mod types;
pub mod video;
pub mod web;
pub mod webrtc;
