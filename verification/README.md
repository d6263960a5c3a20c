# rotorlab

A math-animation engine that renders scenes headlessly with Vulkan and
writes them as an H.264 `.mp4` (through an `ffmpeg` child process) or as a
sequence of `frame_NNNNNN.png` files.

## Layout

- `src/` is the verified library (Verus). It holds the engine's integer,
  byte and text logic with contracts:
  - `text`: decimal numbers, zero padding, and the tail of a multi-line log;
  - `scene::config`: x264 preset names and the output choice;
  - `scene::sink`: BGRA to RGBA conversion, the frame image, frame file names;
  - `encode::ffmpeg`: the FFmpeg command line, the per-frame size check, the
    frame count and the errors reported when FFmpeg fails;
  - `render`: memory-type and queue-family selection, SPIR-V words, readback
    and instance-buffer sizes, upload planning, and the pipeline cache;
  - `error`: the error types and the messages they display.
- `app/` is ordinary Rust around the library: Vulkan objects and command
  recording, the FFmpeg process and its pipes, file output, the
  floating-point geometry, camera and animation code, and error types with
  `thiserror` derives.
- `tests/` exercises the library from outside.

Compiled SPIR-V shaders are read at run time from the directory named by
`ROTORLAB_SHADER_DIR` (default: `shaders`).
