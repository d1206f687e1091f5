use bluelady_tools::format::{get_video_formats, VideoFormats};

#[test]
fn format_policy_table() {
    assert_eq!(get_video_formats(Some("audio")), VideoFormats::AudioOnly);
    assert_eq!(get_video_formats(Some("video")), VideoFormats::VideoOnly);
    assert_eq!(get_video_formats(None), VideoFormats::VideoAndAudio);
    assert_eq!(get_video_formats(Some("bogus")), VideoFormats::VideoAndAudio);
}

#[test]
fn format_policy_is_exact_about_the_hint() {
    assert_eq!(get_video_formats(Some("")), VideoFormats::VideoAndAudio);
    assert_eq!(get_video_formats(Some("Audio")), VideoFormats::VideoAndAudio);
    assert_eq!(get_video_formats(Some("audio ")), VideoFormats::VideoAndAudio);
    assert_eq!(get_video_formats(Some("videos")), VideoFormats::VideoAndAudio);
    assert_eq!(get_video_formats(Some("vide")), VideoFormats::VideoAndAudio);
}
