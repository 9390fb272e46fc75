//! Screen capture: game display-mode detection and frame accounting.

pub mod detector;
pub mod dxgi;
