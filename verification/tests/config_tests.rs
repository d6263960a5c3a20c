use rotorlab::scene::config::H264Preset;

#[test]
fn h264_preset_strings_match_x264() {
    assert_eq!(H264Preset::Ultrafast.as_str(), "ultrafast");
    assert_eq!(H264Preset::Veryfast.as_str(), "veryfast");
    assert_eq!(H264Preset::Fast.as_str(), "fast");
    assert_eq!(H264Preset::Medium.as_str(), "medium");
    assert_eq!(H264Preset::Slow.as_str(), "slow");
    assert_eq!(H264Preset::Veryslow.as_str(), "veryslow");
}
