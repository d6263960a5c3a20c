//! Encoding rendered frames into a video through an FFmpeg child process.

pub mod ffmpeg;

pub use ffmpeg::FfmpegStream;
