//! The frames that the rotor demo's visual regression harness inspects
//! (indices 60, 600, 900, 1500 and 1740 of a 60 fps, 30 second render).
//!
//! The demo itself is rendered on the GPU, outside the library. What the
//! library owns of each captured frame is the PNG sequence sink: the frame's
//! file name in the sequence and the RGBA image built from the BGRA
//! readback. Each test writes its frame through that sink, at the harness's
//! smoke resolution, and applies the harness's checks to the file: it exists
//! under `frame_NNNNNN.png`, is a non-empty PNG, decodes, and has the
//! configured dimensions. It also checks that the decoded pixels are the
//! readback with blue and red exchanged.

use rotorlab::scene::sink::{bgra_to_rgba, frame_file_name, rgba_frame_image};
use std::path::{Path, PathBuf};

/// Resolution the harness renders at outside its full-resolution mode.
const SMOKE_RESOLUTION: (u32, u32) = (320, 180);

/// A BGRA readback standing in for the GPU's: every byte depends on the
/// frame index and its position, so a wrong channel order shows.
fn readback(frame_index: u32, resolution: (u32, u32)) -> Vec<u8> {
    let (w, h) = resolution;
    (0..(w as usize) * (h as usize) * 4)
        .map(|i| ((i as u32).wrapping_mul(31).wrapping_add(frame_index) % 251) as u8)
        .collect()
}

/// Write frame `frame_index` into `dir` through the library's PNG sink and
/// return the path it was written to.
fn write_frame(dir: &Path, frame_index: u32, resolution: (u32, u32), bgra: &[u8]) -> PathBuf {
    let (w, h) = resolution;
    let img = rgba_frame_image(w, h, bgra).expect("readback has the frame's size");
    let path = dir.join(frame_file_name(frame_index as u64));
    img.image.save(&path).expect("png save");
    path
}

/// The harness's checks on one captured PNG: it exists, is non-empty,
/// decodes, and has the expected dimensions.
fn check_frame(path: &Path, frame_index: u32, expected_resolution: (u32, u32), bgra: &[u8]) {
    assert!(path.exists(), "frame {frame_index}: missing PNG at {}", path.display());
    let size = path.metadata().expect("frame metadata").len();
    assert!(size > 0, "frame {frame_index}: zero-byte PNG at {}", path.display());
    let img = image::open(path).expect("PNG decode");
    assert_eq!((img.width(), img.height()), expected_resolution, "frame {frame_index}");
    assert_eq!(img.to_rgba8().into_raw(), bgra_to_rgba(bgra), "frame {frame_index}");
}

fn check_single_frame(frame_index: u32) {
    let dir = tempfile::tempdir().expect("tempdir");
    let bgra = readback(frame_index, SMOKE_RESOLUTION);
    let written = write_frame(dir.path(), frame_index, SMOKE_RESOLUTION, &bgra);
    let frame_path = dir.path().join(format!("frame_{frame_index:06}.png"));
    assert_eq!(written, frame_path);
    check_frame(&frame_path, frame_index, SMOKE_RESOLUTION, &bgra);
}

#[test]
fn frame_60_initial_layout() {
    check_single_frame(60);
}

#[test]
fn frame_600_quarter_z_rotation() {
    check_single_frame(600);
}

#[test]
fn frame_900_half_z_rotation() {
    check_single_frame(900);
}

#[test]
fn frame_1500_oblique_rotation_midpoint() {
    check_single_frame(1500);
}

#[test]
fn frame_1740_pre_fadeout() {
    check_single_frame(1740);
}
