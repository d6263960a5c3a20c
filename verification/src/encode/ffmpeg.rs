//! The FFmpeg encoder's logic: its command line, the per-frame size check,
//! the frame count, and the error reported when FFmpeg fails.

use vstd::prelude::*;
use vstd::string::StringExecFns;
use crate::error::EncodeError;
use crate::scene::config::{H264Preset, preset_name};
use crate::scene::sink::{io_error_other, io_error_other_spec};
use crate::render::render_target::{bgra_bytes, frame_byte_len};
use crate::text::{
    decimal, decimal_string, digits_value, lemma_decimal_is_digits, lemma_decimal_value, log_tail,
    log_tail_string, push_decimal,
};

verus! {

/// The arguments handed to `ffmpeg` to encode a raw BGRA stream of the given
/// size and rate into an H.264 `.mp4` at `output_path`.
pub open spec fn ffmpeg_args_spec(
    output_path: Seq<char>,
    width: u32,
    height: u32,
    fps: u32,
    crf: u32,
    preset: Seq<char>,
) -> Seq<Seq<char>> {
    seq![
        "-y"@,
        "-f"@,
        "rawvideo"@,
        "-pix_fmt"@,
        "bgra"@,
        "-s"@,
        decimal(width as nat) + "x"@ + decimal(height as nat),
        "-r"@,
        decimal(fps as nat),
        "-i"@,
        "-"@,
        "-c:v"@,
        "libx264"@,
        "-preset"@,
        preset,
        "-crf"@,
        decimal(crf as nat),
        "-pix_fmt"@,
        "yuv420p"@,
        output_path,
    ]
}

/// The frame-size argument after `-s` is the width in decimal digits, an
/// `'x'`, and the height in decimal digits: the digits before the only `'x'`
/// read back as the width and those after it as the height.
pub proof fn lemma_ffmpeg_size_argument(
    output_path: Seq<char>,
    width: u32,
    height: u32,
    fps: u32,
    crf: u32,
    preset: Seq<char>,
)
    ensures
        ({
            let args = ffmpeg_args_spec(output_path, width, height, fps, crf, preset);
            let s = args[6];
            let k = decimal(width as nat).len() as int;
            &&& args[5] == "-s"@
            &&& 0 < k < s.len()
            &&& s[k] == 'x'
            &&& forall|j: int| 0 <= j < s.len() && j != k ==> 48 <= #[trigger] (s[j] as int) <= 57
            &&& digits_value(s.take(k)) == width
            &&& digits_value(s.skip(k + 1)) == height
        }),
{
    reveal_strlit("x");
    let args = ffmpeg_args_spec(output_path, width, height, fps, crf, preset);
    let dw = decimal(width as nat);
    let dh = decimal(height as nat);
    let s = dw + "x"@ + dh;
    assert(args[6] == s);
    let k = dw.len() as int;
    lemma_decimal_is_digits(width as nat);
    lemma_decimal_is_digits(height as nat);
    lemma_decimal_value(width as nat);
    lemma_decimal_value(height as nat);
    assert(s.take(k) =~= dw);
    assert(s.skip(k + 1) =~= dh);
    assert forall|j: int| 0 <= j < s.len() && j != k implies 48 <= #[trigger] (s[j] as int) <= 57 by {
        if j < k {
            assert(s[j] == dw[j]);
        } else {
            assert(s[j] == dh[j - k - 1]);
        }
    }
}

/// The views of a vector of strings.
pub open spec fn string_views(v: Seq<String>) -> Seq<Seq<char>> {
    v.map_values(|s: String| s@)
}

/// The FFmpeg command line (without the program name) for a given output
/// file, frame size, frame rate, x264 quality and x264 preset.
pub fn ffmpeg_args(
    output_path: &str,
    width: u32,
    height: u32,
    fps: u32,
    crf: u32,
    preset: &str,
) -> (args: Vec<String>)
    ensures
        string_views(args@) == ffmpeg_args_spec(output_path@, width, height, fps, crf, preset@),
{
    let mut size = decimal_string(width as u64);
    size.append("x");
    push_decimal(&mut size, height as u64);
    let args: Vec<String> = vec![
        String::from_str("-y"),
        String::from_str("-f"),
        String::from_str("rawvideo"),
        String::from_str("-pix_fmt"),
        String::from_str("bgra"),
        String::from_str("-s"),
        size,
        String::from_str("-r"),
        decimal_string(fps as u64),
        String::from_str("-i"),
        String::from_str("-"),
        String::from_str("-c:v"),
        String::from_str("libx264"),
        String::from_str("-preset"),
        String::from_str(preset),
        String::from_str("-crf"),
        decimal_string(crf as u64),
        String::from_str("-pix_fmt"),
        String::from_str("yuv420p"),
        String::from_str(output_path),
    ];
    proof {
        assert(string_views(args@) =~= ffmpeg_args_spec(
            output_path@,
            width,
            height,
            fps,
            crf,
            preset@,
        ));
    }
    args
}

/// The x264 constant rate factor of the default encode: 18, visually
/// lossless.
pub const DEFAULT_CRF: u32 = 18;

/// The FFmpeg command line of the default encode: x264 at CRF 18 with the
/// `slow` preset.
pub fn default_ffmpeg_args(output_path: &str, width: u32, height: u32, fps: u32) -> (args: Vec<
    String,
>)
    ensures
        string_views(args@) == ffmpeg_args_spec(
            output_path@,
            width,
            height,
            fps,
            DEFAULT_CRF,
            preset_name(H264Preset::Slow),
        ),
        preset_name(H264Preset::Slow) == "slow"@,
{
    proof {
        reveal_strlit("slow");
    }
    ffmpeg_args(output_path, width, height, fps, DEFAULT_CRF, H264Preset::Slow.as_str())
}

/// The message of the error returned when a submitted frame does not have
/// the stream's frame size.
pub open spec fn frame_mismatch_message(got: nat, expected: nat) -> Seq<char> {
    "frame size mismatch: got "@ + decimal(got) + " bytes, expected "@ + decimal(expected)
}

/// The tail of FFmpeg's log kept in the error reported when it fails: its
/// last eight lines, newest first.
pub open spec fn exit_log(stderr_text: Seq<char>) -> Seq<char> {
    log_tail(stderr_text, 8)
}

/// The bookkeeping of one FFmpeg encode: the fixed frame size and rate, and
/// the number of frames piped so far.
pub struct FfmpegStream {
    width: u32,
    height: u32,
    fps: u32,
    frames_written: u64,
}

impl FfmpegStream {
    /// The frame width in pixels.
    pub closed spec fn spec_width(&self) -> u32 {
        self.width
    }

    /// The frame height in pixels.
    pub closed spec fn spec_height(&self) -> u32 {
        self.height
    }

    /// The frame rate.
    pub closed spec fn spec_fps(&self) -> u32 {
        self.fps
    }

    /// The number of frames piped so far.
    pub closed spec fn spec_frames_written(&self) -> u64 {
        self.frames_written
    }

    /// A stream of `width` x `height` BGRA frames at `fps`, with no frame
    /// written yet.
    pub fn new(width: u32, height: u32, fps: u32) -> (s: Self)
        ensures
            s.spec_width() == width,
            s.spec_height() == height,
            s.spec_fps() == fps,
            s.spec_frames_written() == 0,
    {
        FfmpegStream { width, height, fps, frames_written: 0 }
    }

    /// The frame width in pixels.
    pub fn width(&self) -> (w: u32)
        ensures
            w == self.spec_width(),
    {
        self.width
    }

    /// The frame height in pixels.
    pub fn height(&self) -> (h: u32)
        ensures
            h == self.spec_height(),
    {
        self.height
    }

    /// The frame rate.
    pub fn fps(&self) -> (f: u32)
        ensures
            f == self.spec_fps(),
    {
        self.fps
    }

    /// The number of frames piped so far.
    pub fn frames_written(&self) -> (n: u64)
        ensures
            n == self.spec_frames_written(),
    {
        self.frames_written
    }

    /// Accept or refuse a frame of `len` bytes before it is piped: it must
    /// hold exactly `4 * width * height` bytes.
    pub fn check_frame(&self, len: usize) -> (r: Result<(), EncodeError>)
        requires
            bgra_bytes(self.spec_width(), self.spec_height()) <= usize::MAX,
        ensures
            r is Ok <==> len == bgra_bytes(self.spec_width(), self.spec_height()),
            r matches Err(e) ==> e == EncodeError::Io(
                io_error_other_spec(
                    frame_mismatch_message(
                        len as nat,
                        bgra_bytes(self.spec_width(), self.spec_height()) as nat,
                    ),
                ),
            ),
    {
        let expected = frame_byte_len(self.width, self.height);
        if len != expected {
            let mut m = String::from_str("frame size mismatch: got ");
            push_decimal(&mut m, len as u64);
            m.append(" bytes, expected ");
            push_decimal(&mut m, expected as u64);
            return Err(EncodeError::Io(io_error_other(m)));
        }
        Ok(())
    }

    /// Count one more frame, after it was piped.
    pub fn record_frame(&mut self)
        requires
            old(self).spec_frames_written() < u64::MAX,
        ensures
            final(self).spec_frames_written() == old(self).spec_frames_written() + 1,
            final(self).spec_width() == old(self).spec_width(),
            final(self).spec_height() == old(self).spec_height(),
            final(self).spec_fps() == old(self).spec_fps(),
    {
        self.frames_written = self.frames_written + 1;
    }
}

/// The error reported when FFmpeg exits unsuccessfully: its exit code (`-1`
/// when it was killed by a signal) and the tail of its log.
pub fn exit_error(code: Option<i32>, stderr_text: &str) -> (e: EncodeError)
    ensures
        e matches EncodeError::FfmpegExit(status, log) && status == (match code {
            Some(c) => c,
            None => -1i32,
        }) && log@ == exit_log(stderr_text@),
{
    let status = match code {
        Some(c) => c,
        None => -1i32,
    };
    EncodeError::FfmpegExit(status, log_tail_string(stderr_text, 8))
}

/// Whether the I/O error `e` is of kind `NotFound`: its stored kind, or for
/// an operating-system error the kind that the program's fixed error-code
/// table gives its code.
pub uninterp spec fn io_error_not_found(e: std::io::Error) -> bool;

/// `e.kind() == std::io::ErrorKind::NotFound`: claims only that the answer
/// depends on the error alone (named by `io_error_not_found`); which codes
/// map to `NotFound` is the platform's table and is not stated.
#[verifier::external_body]
fn is_not_found(e: &std::io::Error) -> (b: bool)
    ensures
        b == io_error_not_found(*e),
{
    e.kind() == std::io::ErrorKind::NotFound
}

/// The error reported when spawning FFmpeg failed with `e`:
/// `FfmpegNotFound` when the failure was a missing binary, the I/O error
/// itself otherwise.
pub fn spawn_failure(binary_missing: bool, e: std::io::Error) -> (r: EncodeError)
    ensures
        r == (if binary_missing {
            EncodeError::FfmpegNotFound
        } else {
            EncodeError::Io(e)
        }),
{
    if binary_missing {
        EncodeError::FfmpegNotFound
    } else {
        EncodeError::Io(e)
    }
}

/// The error reported when spawning FFmpeg fails with `e`, telling a missing
/// binary (an error of kind `NotFound`) from other I/O failures.
pub fn spawn_error(e: std::io::Error) -> (r: EncodeError)
    ensures
        r == (if io_error_not_found(e) {
            EncodeError::FfmpegNotFound
        } else {
            EncodeError::Io(e)
        }),
{
    let missing = is_not_found(&e);
    spawn_failure(missing, e)
}

} // verus!
