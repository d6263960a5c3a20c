//! Scene configuration and the frame sink's byte and file-name logic.

pub mod config;
pub mod sink;

pub use config::{H264Preset, Output};
