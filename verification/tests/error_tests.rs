use rotorlab::error::{EncodeError, RenderError, RotorlabError};

#[test]
fn render_error_displays() {
    let e = RenderError::NoPhysicalDevice;
    assert!(e.message().contains("physical device"));
}

#[test]
fn render_into_rotorlab() {
    let r: RotorlabError = RenderError::NoPhysicalDevice.into();
    assert!(matches!(r, RotorlabError::Render(_)));
}

#[test]
fn vk_result_into_render() {
    let r: RenderError = ash::vk::Result::ERROR_OUT_OF_HOST_MEMORY.into();
    assert!(matches!(r, RenderError::Vulkan(_)));
}

#[test]
fn vulkan_error_message_names_the_status() {
    let e = RenderError::Vulkan(ash::vk::Result::ERROR_OUT_OF_HOST_MEMORY);
    assert_eq!(e.message(), "Vulkan call failed: ERROR_OUT_OF_HOST_MEMORY");
}

#[test]
fn string_carrying_render_errors_display_their_payload() {
    assert_eq!(
        RenderError::Shader("bad spv".to_string()).message(),
        "shader compilation failed: bad spv"
    );
    assert_eq!(
        RenderError::OutOfMemory("heap".to_string()).message(),
        "out of memory: heap"
    );
    assert_eq!(
        RenderError::Mapping("map".to_string()).message(),
        "memory mapping failed: map"
    );
    assert_eq!(
        RenderError::NoPhysicalDevice.message(),
        "no suitable Vulkan physical device found"
    );
}

#[test]
fn encode_error_messages() {
    assert_eq!(
        EncodeError::FfmpegExit(-1, "last line".to_string()).message(),
        "ffmpeg exited with status -1: last line"
    );
    assert_eq!(
        EncodeError::FfmpegExit(234, String::new()).message(),
        "ffmpeg exited with status 234: "
    );
    assert_eq!(
        EncodeError::FfmpegNotFound.message(),
        "ffmpeg binary not found on PATH"
    );
    let io = EncodeError::Io(std::io::Error::other("pipe closed"));
    assert_eq!(io.message(), "io: pipe closed");
}

#[test]
fn encode_into_rotorlab_prefixes_message() {
    let r: RotorlabError = EncodeError::FfmpegNotFound.into();
    assert!(matches!(r, RotorlabError::Encode(EncodeError::FfmpegNotFound)));
    assert_eq!(r.message(), "encode error: ffmpeg binary not found on PATH");
    let r: RotorlabError = RenderError::NoPhysicalDevice.into();
    assert_eq!(
        r.message(),
        "render error: no suitable Vulkan physical device found"
    );
}

#[test]
fn io_error_into_encode_error() {
    let e: EncodeError = std::io::Error::other("x").into();
    assert!(matches!(e, EncodeError::Io(_)));
}
