//! Capture, input and encoding decisions of the aim-coach client, with
//! machine-checked contracts.

pub mod audit;
pub mod capture;
pub mod ffmpeg;
pub mod input;
pub mod sidecar;
pub mod text;
pub mod win;
