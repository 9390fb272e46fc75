//! Mouse input.

pub mod raw_input;
