use rotorlab::scene::sink::{bgra_to_rgba, frame_file_name, rgba_frame_image};
use rotorlab::EncodeError;

#[test]
fn bgra_to_rgba_swaps_blue_and_red() {
    let bgra = [1u8, 2, 3, 4, 10, 20, 30, 40];
    assert_eq!(bgra_to_rgba(&bgra), vec![3, 2, 1, 4, 30, 20, 10, 40]);
}

#[test]
fn bgra_to_rgba_zeroes_a_trailing_partial_pixel() {
    let bgra = [1u8, 2, 3, 4, 5, 6];
    assert_eq!(bgra_to_rgba(&bgra), vec![3, 2, 1, 4, 0, 0]);
    assert_eq!(bgra_to_rgba(&[]), Vec::<u8>::new());
}

#[test]
fn bgra_to_rgba_twice_is_identity_on_whole_pixels() {
    let bgra: Vec<u8> = (0..64u8).collect();
    assert_eq!(bgra_to_rgba(&bgra_to_rgba(&bgra)), bgra);
}

#[test]
fn frame_file_names_are_zero_padded() {
    assert_eq!(frame_file_name(0), "frame_000000.png");
    assert_eq!(frame_file_name(42), "frame_000042.png");
    assert_eq!(frame_file_name(1740), "frame_001740.png");
    assert_eq!(frame_file_name(1234567), "frame_1234567.png");
    assert_eq!(frame_file_name(42), format!("frame_{:06}.png", 42));
}

#[test]
fn rgba_frame_image_builds_image_of_frame() {
    let bgra = vec![0u8, 0, 255, 255, 255, 0, 0, 255];
    let img = rgba_frame_image(2, 1, &bgra).expect("fits");
    assert_eq!(img.image.dimensions(), (2, 1));
    assert_eq!(img.image.as_raw(), &vec![255u8, 0, 0, 255, 0, 0, 255, 255]);
}

#[test]
fn rgba_frame_image_rejects_short_buffer() {
    let bgra = vec![0u8; 7];
    match rgba_frame_image(2, 1, &bgra) {
        Err(EncodeError::Io(e)) => assert_eq!(e.to_string(), "rgba buffer size mismatch"),
        _ => panic!("expected an io error"),
    }
}
