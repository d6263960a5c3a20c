//! Error types for the rotorlab engine, and the text each error displays.

use vstd::prelude::*;
use vstd::string::StringExecFns;
use vstd::std_specs::convert::FromSpecImpl;
use crate::text::{push_signed_decimal, signed_decimal};

verus! {

/// A Vulkan status code (`VkResult`).
#[verifier::external_type_specification]
#[verifier::external_body]
pub struct ExVkResult(ash::vk::Result);

/// An I/O error from the standard library.
#[verifier::external_type_specification]
#[verifier::external_body]
pub struct ExIoError(std::io::Error);

/// An error from the `image` crate (encoding, format conversion, file save).
#[verifier::external_type_specification]
#[verifier::external_body]
pub struct ExImageError(image::ImageError);

/// Top-level error from any rotorlab operation.
#[derive(Debug)]
pub enum RotorlabError {
    /// Render-side failure (Vulkan, shader compilation, framebuffer readback).
    Render(RenderError),
    /// Encode-side failure (FFmpeg child process, IO).
    Encode(EncodeError),
}

/// Errors from the render module.
#[derive(Debug)]
pub enum RenderError {
    /// A Vulkan API call returned a non-success result.
    Vulkan(ash::vk::Result),
    /// Shader compilation or linking failed.
    Shader(String),
    /// Memory allocation failed.
    OutOfMemory(String),
    /// No suitable physical device was found.
    NoPhysicalDevice,
    /// Image / buffer mapping failed.
    Mapping(String),
}

/// Errors from the encode module.
#[derive(Debug)]
pub enum EncodeError {
    /// IO error talking to the FFmpeg child process.
    Io(std::io::Error),
    /// FFmpeg exited non-zero: exit status and the tail of its log.
    FfmpegExit(i32, String),
    /// FFmpeg binary not found on PATH.
    FfmpegNotFound,
    /// Image encoding failure (PNG save, format conversion).
    Image(image::ImageError),
}

/// `prefix` is the beginning of `s`.
pub open spec fn starts_with(s: Seq<char>, prefix: Seq<char>) -> bool {
    prefix.len() <= s.len() && s.take(prefix.len() as int) == prefix
}

/// The text that `Debug` writes for a Vulkan status code: its name
/// (`ERROR_OUT_OF_HOST_MEMORY`, ...) or, for an unknown code, the number.
pub uninterp spec fn vk_result_debug(r: ash::vk::Result) -> Seq<char>;

/// `format!("{:?}", r)` with `<ash::vk::Result as Debug>::fmt`: the status
/// code's name from `ash`'s table (named by `vk_result_debug`).
#[verifier::external_body]
fn vk_result_text(r: &ash::vk::Result) -> (s: String)
    ensures
        s@ == vk_result_debug(*r),
{
    format!("{:?}", r)
}

/// `format!("{}", e)` with `<std::io::Error as Display>::fmt`.
///
/// Nothing is stated of the text: for an operating-system error it is the
/// system's message for the error code, which differs between machines.
#[verifier::external_body]
fn io_error_text(e: &std::io::Error) -> String {
    format!("{}", e)
}

/// `format!("{}", e)` with `<image::ImageError as Display>::fmt`.
///
/// Nothing is stated of the text: an image error can wrap an I/O error,
/// whose text is the operating system's message and differs between
/// machines.
#[verifier::external_body]
fn image_error_text(e: &image::ImageError) -> String {
    format!("{}", e)
}

/// `m` is the message that `e` displays.
pub open spec fn render_error_shows(e: RenderError, m: Seq<char>) -> bool {
    match e {
        RenderError::Vulkan(r) => m == "Vulkan call failed: "@ + vk_result_debug(r),
        RenderError::Shader(s) => m == "shader compilation failed: "@ + s@,
        RenderError::OutOfMemory(s) => m == "out of memory: "@ + s@,
        RenderError::NoPhysicalDevice => m == "no suitable Vulkan physical device found"@,
        RenderError::Mapping(s) => m == "memory mapping failed: "@ + s@,
    }
}

/// `m` is the message that `e` displays (for an I/O or image error, its
/// fixed beginning: the rest is the wrapped error's own text).
pub open spec fn encode_error_shows(e: EncodeError, m: Seq<char>) -> bool {
    match e {
        EncodeError::Io(_) => starts_with(m, "io: "@),
        EncodeError::FfmpegExit(code, log) => m == "ffmpeg exited with status "@
            + signed_decimal(code as int) + ": "@ + log@,
        EncodeError::FfmpegNotFound => m == "ffmpeg binary not found on PATH"@,
        EncodeError::Image(_) => starts_with(m, "image encoding error: "@),
    }
}

impl RenderError {
    /// The message this error displays.
    pub fn message(&self) -> (m: String)
        ensures
            render_error_shows(*self, m@),
    {
        match self {
            RenderError::Vulkan(r) => {
                let mut m = String::from_str("Vulkan call failed: ");
                let t = vk_result_text(r);
                m.append(t.as_str());
                proof {
                    assert(m@.take("Vulkan call failed: "@.len() as int) == "Vulkan call failed: "@);
                }
                m
            },
            RenderError::Shader(s) => String::from_str("shader compilation failed: ").concat(s.as_str()),
            RenderError::OutOfMemory(s) => String::from_str("out of memory: ").concat(s.as_str()),
            RenderError::NoPhysicalDevice => String::from_str("no suitable Vulkan physical device found"),
            RenderError::Mapping(s) => String::from_str("memory mapping failed: ").concat(s.as_str()),
        }
    }
}

impl EncodeError {
    /// The message this error displays.
    pub fn message(&self) -> (m: String)
        ensures
            encode_error_shows(*self, m@),
    {
        match self {
            EncodeError::Io(e) => {
                let mut m = String::from_str("io: ");
                let t = io_error_text(e);
                m.append(t.as_str());
                proof {
                    assert(m@.take("io: "@.len() as int) == "io: "@);
                }
                m
            },
            EncodeError::FfmpegExit(code, log) => {
                let mut m = String::from_str("ffmpeg exited with status ");
                push_signed_decimal(&mut m, *code as i64);
                m.append(": ");
                m.append(log.as_str());
                m
            },
            EncodeError::FfmpegNotFound => String::from_str("ffmpeg binary not found on PATH"),
            EncodeError::Image(e) => {
                let mut m = String::from_str("image encoding error: ");
                let t = image_error_text(e);
                m.append(t.as_str());
                proof {
                    assert(m@.take("image encoding error: "@.len() as int)
                        == "image encoding error: "@);
                }
                m
            },
        }
    }
}

impl RotorlabError {
    /// The message this error displays: the inner error's message behind a
    /// prefix naming the side it came from.
    pub fn message(&self) -> (m: String)
        ensures
            match self {
                RotorlabError::Render(e) => starts_with(m@, "render error: "@) && render_error_shows(
                    *e,
                    m@.skip("render error: "@.len() as int),
                ),
                RotorlabError::Encode(e) => starts_with(m@, "encode error: "@) && encode_error_shows(
                    *e,
                    m@.skip("encode error: "@.len() as int),
                ),
            },
    {
        match self {
            RotorlabError::Render(e) => {
                let mut m = String::from_str("render error: ");
                let inner = e.message();
                m.append(inner.as_str());
                proof {
                    assert(m@.take("render error: "@.len() as int) == "render error: "@);
                    assert(m@.skip("render error: "@.len() as int) == inner@);
                }
                m
            },
            RotorlabError::Encode(e) => {
                let mut m = String::from_str("encode error: ");
                let inner = e.message();
                m.append(inner.as_str());
                proof {
                    assert(m@.take("encode error: "@.len() as int) == "encode error: "@);
                    assert(m@.skip("encode error: "@.len() as int) == inner@);
                }
                m
            },
        }
    }
}

impl From<ash::vk::Result> for RenderError {
    fn from(r: ash::vk::Result) -> (e: Self) {
        RenderError::Vulkan(r)
    }
}

impl FromSpecImpl<ash::vk::Result> for RenderError {
    open spec fn obeys_from_spec() -> bool {
        true
    }

    open spec fn from_spec(r: ash::vk::Result) -> Self {
        RenderError::Vulkan(r)
    }
}

impl From<RenderError> for RotorlabError {
    fn from(e: RenderError) -> (r: Self) {
        RotorlabError::Render(e)
    }
}

impl FromSpecImpl<RenderError> for RotorlabError {
    open spec fn obeys_from_spec() -> bool {
        true
    }

    open spec fn from_spec(e: RenderError) -> Self {
        RotorlabError::Render(e)
    }
}

impl From<EncodeError> for RotorlabError {
    fn from(e: EncodeError) -> (r: Self) {
        RotorlabError::Encode(e)
    }
}

impl FromSpecImpl<EncodeError> for RotorlabError {
    open spec fn obeys_from_spec() -> bool {
        true
    }

    open spec fn from_spec(e: EncodeError) -> Self {
        RotorlabError::Encode(e)
    }
}

impl From<std::io::Error> for EncodeError {
    fn from(e: std::io::Error) -> (r: Self) {
        EncodeError::Io(e)
    }
}

impl FromSpecImpl<std::io::Error> for EncodeError {
    open spec fn obeys_from_spec() -> bool {
        true
    }

    open spec fn from_spec(e: std::io::Error) -> Self {
        EncodeError::Io(e)
    }
}

impl From<image::ImageError> for EncodeError {
    fn from(e: image::ImageError) -> (r: Self) {
        EncodeError::Image(e)
    }
}

impl FromSpecImpl<image::ImageError> for EncodeError {
    open spec fn obeys_from_spec() -> bool {
        true
    }

    open spec fn from_spec(e: image::ImageError) -> Self {
        EncodeError::Image(e)
    }
}

} // verus!
