//! Animation scheduling.

pub mod timeline;

pub use timeline::Timeline;
