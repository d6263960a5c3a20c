use rotorlab::encode::ffmpeg::{
    DEFAULT_CRF, FfmpegStream, default_ffmpeg_args, exit_error, ffmpeg_args, spawn_error,
};
use rotorlab::scene::config::{H264Preset, Output};
use rotorlab::EncodeError;

#[test]
fn ffmpeg_command_line_matches_x264_slow_crf18() {
    let args = ffmpeg_args("/tmp/out.mp4", 320, 180, 30, 18, H264Preset::Slow.as_str());
    let expected = [
        "-y", "-f", "rawvideo", "-pix_fmt", "bgra", "-s", "320x180", "-r", "30", "-i", "-",
        "-c:v", "libx264", "-preset", "slow", "-crf", "18", "-pix_fmt", "yuv420p",
        "/tmp/out.mp4",
    ];
    assert_eq!(args, expected);
}

#[test]
fn default_encode_is_x264_slow_crf18() {
    assert_eq!(DEFAULT_CRF, 18);
    let args = default_ffmpeg_args("/tmp/out.mp4", 320, 180, 30);
    assert_eq!(args, ffmpeg_args("/tmp/out.mp4", 320, 180, 30, 18, "slow"));
    assert_eq!(args[14], "slow");
    assert_eq!(args[16], "18");
}

#[test]
fn ffmpeg_command_line_carries_preset_and_crf() {
    let args = ffmpeg_args("a.mp4", 64, 36, 60, 23, H264Preset::Ultrafast.as_str());
    assert_eq!(args[6], "64x36");
    assert_eq!(args[8], "60");
    assert_eq!(args[14], "ultrafast");
    assert_eq!(args[16], "23");
}

#[test]
fn stream_counts_frames_and_checks_size() {
    let mut s = FfmpegStream::new(320, 180, 30);
    assert_eq!(s.frames_written(), 0);
    assert!(s.check_frame(320 * 180 * 4).is_ok());
    s.record_frame();
    s.record_frame();
    assert_eq!(s.frames_written(), 2);
    assert_eq!((s.width(), s.height(), s.fps()), (320, 180, 30));
}

#[test]
fn stream_rejects_wrong_frame_size() {
    let s = FfmpegStream::new(2, 2, 30);
    match s.check_frame(15) {
        Err(EncodeError::Io(e)) => {
            assert_eq!(e.to_string(), "frame size mismatch: got 15 bytes, expected 16")
        }
        other => panic!("expected io error, got {other:?}"),
    }
}

#[test]
fn exit_error_keeps_last_eight_lines_newest_first() {
    let log = "l1\nl2\nl3\nl4\nl5\nl6\nl7\nl8\nl9\nl10\n";
    match exit_error(Some(1), log) {
        EncodeError::FfmpegExit(code, tail) => {
            assert_eq!(code, 1);
            assert_eq!(tail, "l10\nl9\nl8\nl7\nl6\nl5\nl4\nl3");
        }
        other => panic!("unexpected {other:?}"),
    }
    match exit_error(None, "") {
        EncodeError::FfmpegExit(code, tail) => {
            assert_eq!(code, -1);
            assert_eq!(tail, "");
        }
        other => panic!("unexpected {other:?}"),
    }
}

#[test]
fn spawn_error_maps_missing_binary() {
    let nf = std::io::Error::new(std::io::ErrorKind::NotFound, "no ffmpeg");
    assert!(matches!(spawn_error(nf), EncodeError::FfmpegNotFound));
    let other = std::io::Error::new(std::io::ErrorKind::PermissionDenied, "denied");
    assert!(matches!(spawn_error(other), EncodeError::Io(_)));
}

#[test]
fn output_variants_hold_their_settings() {
    let o = Output::Mp4 {
        path: std::path::PathBuf::from("out.mp4"),
        crf: 18,
        preset: H264Preset::Slow,
    };
    match o.clone() {
        Output::Mp4 { path, crf, preset } => {
            assert_eq!(path, std::path::PathBuf::from("out.mp4"));
            assert_eq!(crf, 18);
            assert_eq!(preset, H264Preset::Slow);
        }
        Output::PngSequence { .. } => panic!("wrong variant"),
    }
}
