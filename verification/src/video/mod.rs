pub mod aml_pipeline;
pub mod capture_trait;
pub mod device;
pub mod encoder;
pub mod format;
pub mod shared_video_pipeline;
pub mod stream_manager;
pub mod streamer;
pub mod vfmcap_capture;
