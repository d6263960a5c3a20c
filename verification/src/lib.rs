//! rotorlab: the integer, byte and text logic of a math-animation engine.

pub mod animation;
pub mod encode;
pub mod error;
pub mod render;
pub mod scene;
pub mod text;

pub use error::{EncodeError, RenderError, RotorlabError};
