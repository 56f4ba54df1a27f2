pub mod hdr;
pub mod video_track;
