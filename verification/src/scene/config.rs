//! Scene configuration: the x264 preset names and the output sink choice.

use vstd::prelude::*;

verus! {

/// x264 `-preset` mapping for the `Output::Mp4` encoder.
#[derive(Copy, Clone, Debug, PartialEq, Eq, Structural)]
pub enum H264Preset {
    /// Fastest encode, largest output.
    Ultrafast,
    /// Roughly 8x faster than `Medium`.
    Veryfast,
    /// Roughly 2x faster than `Medium`.
    Fast,
    /// x264's default preset.
    Medium,
    /// Slower than `Medium`, smaller output. Engine default.
    Slow,
    /// Substantially slower.
    Veryslow,
}

/// The literal x264 preset name of each variant.
pub open spec fn preset_name(p: H264Preset) -> Seq<char> {
    match p {
        H264Preset::Ultrafast => "ultrafast"@,
        H264Preset::Veryfast => "veryfast"@,
        H264Preset::Fast => "fast"@,
        H264Preset::Medium => "medium"@,
        H264Preset::Slow => "slow"@,
        H264Preset::Veryslow => "veryslow"@,
    }
}

impl H264Preset {
    /// The preset name exactly as x264 expects it on its `-preset` argument.
    pub fn as_str(&self) -> (s: &'static str)
        ensures
            s@ == preset_name(*self),
    {
        match self {
            H264Preset::Ultrafast => "ultrafast",
            H264Preset::Veryfast => "veryfast",
            H264Preset::Fast => "fast",
            H264Preset::Medium => "medium",
            H264Preset::Slow => "slow",
            H264Preset::Veryslow => "veryslow",
        }
    }
}

/// A filesystem path.
#[verifier::external_type_specification]
#[verifier::external_body]
pub struct ExPathBuf(std::path::PathBuf);

/// `<PathBuf as Clone>::clone`: the copy holds the same path. The derived
/// `Clone` of [`Output`] calls it.
pub assume_specification[ <std::path::PathBuf as Clone>::clone ](p: &std::path::PathBuf) -> (r:
    std::path::PathBuf)
    ensures
        r == *p,
;

/// Where rendered frames go.
#[derive(Clone, Debug)]
pub enum Output {
    /// Single `.mp4` file produced by piping BGRA frames into a child
    /// `ffmpeg` process.
    Mp4 {
        /// Path to the output `.mp4` file.
        path: std::path::PathBuf,
        /// x264 constant rate factor. Lower = higher quality.
        crf: u32,
        /// x264 speed/efficiency preset.
        preset: H264Preset,
    },
    /// Directory of zero-padded `frame_NNNNNN.png` files, one per frame.
    PngSequence {
        /// Directory to write into.
        dir: std::path::PathBuf,
    },
}

} // verus!
