use rotorlab::render::device::select_graphics_queue;
use rotorlab::render::memory::find_memory_type;
use rotorlab::render::pipeline::spirv_words;
use rotorlab::render::pipelines::point::{
    POINT_INSTANCE_BYTES, PointUpload, instance_buffer_bytes, plan_point_upload,
};
use rotorlab::render::render_target::{bgra_bytes_fit_usize, frame_byte_len, staging_buffer_bytes};
use rotorlab::RenderError;

const DEVICE_LOCAL: u32 = 0x1;
const HOST_VISIBLE: u32 = 0x2;
const HOST_COHERENT: u32 = 0x4;

#[test]
fn memory_type_is_first_allowed_type_with_all_flags() {
    let flags = [DEVICE_LOCAL, HOST_VISIBLE, HOST_VISIBLE | HOST_COHERENT, HOST_VISIBLE | HOST_COHERENT];
    assert_eq!(find_memory_type(&flags, 0b1111, DEVICE_LOCAL), Some(0));
    assert_eq!(find_memory_type(&flags, 0b1111, HOST_VISIBLE | HOST_COHERENT), Some(2));
    assert_eq!(find_memory_type(&flags, 0b1000, HOST_VISIBLE | HOST_COHERENT), Some(3));
    assert_eq!(find_memory_type(&flags, 0b0001, HOST_VISIBLE), None);
    assert_eq!(find_memory_type(&[], 0xffff_ffff, 0), None);
}

#[test]
fn memory_type_with_no_required_flags_takes_first_allowed() {
    let flags = [0u32; 32];
    assert_eq!(find_memory_type(&flags, 1 << 31, 0), Some(31));
}

#[test]
fn graphics_queue_is_first_device_with_graphics_family() {
    let devices = vec![vec![0b100u32, 0b010], vec![0b110, 0b111, 0b001], vec![0b001]];
    assert_eq!(select_graphics_queue(&devices).unwrap(), (1, 1));
}

#[test]
fn no_graphics_queue_is_no_physical_device() {
    assert!(matches!(
        select_graphics_queue(&vec![]),
        Err(RenderError::NoPhysicalDevice)
    ));
    assert!(matches!(
        select_graphics_queue(&vec![vec![0b10u32], vec![]]),
        Err(RenderError::NoPhysicalDevice)
    ));
}

#[test]
fn spirv_words_are_little_endian() {
    let bytes = [0x03u8, 0x02, 0x23, 0x07, 0x01, 0x00, 0x00, 0x00];
    assert_eq!(spirv_words(&bytes), vec![0x0723_0203, 1]);
    assert_eq!(spirv_words(&[]), Vec::<u32>::new());
    let all: Vec<u8> = vec![0xff; 4];
    assert_eq!(spirv_words(&all), vec![u32::MAX]);
}

#[test]
fn point_instance_buffer_is_never_empty() {
    assert_eq!(POINT_INSTANCE_BYTES, 48);
    assert_eq!(instance_buffer_bytes(0), 1);
    assert_eq!(instance_buffer_bytes(16), 768);
    assert_eq!(instance_buffer_bytes(u32::MAX), 48 * u32::MAX as u64);
}

#[test]
fn point_instance_buffer_upload_within_capacity() {
    // Two instances into a buffer of capacity four: the new length is two.
    let plan = plan_point_upload(2, 4).expect("upload");
    assert_eq!(plan, PointUpload::Copy { bytes: 96, len: 2 });
    assert_eq!(plan_point_upload(4, 4).unwrap(), PointUpload::Copy { bytes: 192, len: 4 });
    assert_eq!(plan_point_upload(0, 0).unwrap(), PointUpload::Empty);
}

#[test]
fn point_instance_buffer_upload_overflow_errors() {
    // Two instances into a buffer of capacity one.
    assert!(plan_point_upload(2, 1).is_err());
    match plan_point_upload(2, 1) {
        Err(RenderError::OutOfMemory(m)) => {
            assert_eq!(m, "point instance upload of 2 exceeds capacity 1")
        }
        other => panic!("expected OutOfMemory, got {other:?}"),
    }
}

#[test]
fn readback_sizes_are_four_bytes_per_pixel() {
    assert_eq!(staging_buffer_bytes(1920, 1080), 1920 * 1080 * 4);
    assert_eq!(frame_byte_len(320, 180), 320 * 180 * 4);
    assert_eq!(staging_buffer_bytes(0, 7), 0);
    assert!(bgra_bytes_fit_usize(1920, 1080));
}
