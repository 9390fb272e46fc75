//! Hardware H.264 encoding through an FFmpeg subprocess.

pub mod pipe;
