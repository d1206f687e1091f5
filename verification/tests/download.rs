use bluelady_tools::classify::VideoType;
use bluelady_tools::download::{
    build_download_args, build_output_components, output_template, FILE_TEMPLATE,
};
use bluelady_tools::format::VideoFormats;
use bluelady_tools::paths::join_path;
use std::path::{Path, PathBuf};

#[test]
fn args_for_plain_video() {
    assert_eq!(
        build_download_args(
            VideoFormats::VideoAndAudio,
            VideoType::Video,
            "ff",
            "out/%(title)s.%(ext)s",
            false,
            false,
            "https://www.youtube.com/watch?v=1"
        ),
        vec![
            "--format",
            "bestvideo+bestaudio/mp4",
            "--output",
            "out/%(title)s.%(ext)s",
            "--progress",
            "--newline",
            "--verbose",
            "https://www.youtube.com/watch?v=1",
        ]
    );
}

#[test]
fn args_for_audio_only() {
    assert_eq!(
        build_download_args(VideoFormats::AudioOnly, VideoType::Video, "ff", "o", true, true, "u"),
        vec![
            "--extract-audio",
            "--audio-format",
            "mp3",
            "--ffmpeg-location",
            "ff",
            "--output",
            "o",
            "--write-thumbnail",
            "--write-url-link",
            "--progress",
            "--newline",
            "--verbose",
            "u",
        ]
    );
}

#[test]
fn args_for_video_only_clip() {
    assert_eq!(
        build_download_args(VideoFormats::VideoOnly, VideoType::Clip, "ff", "o", false, true, "u"),
        vec![
            "--format",
            "bestvideo[ext=mp4]",
            "--ffmpeg-location",
            "ff",
            "--output",
            "o",
            "--write-url-link",
            "--add-metadata",
            "--progress",
            "--newline",
            "--verbose",
            "u",
        ]
    );
}

#[test]
fn args_name_the_transcoder_once_for_an_audio_clip() {
    let args =
        build_download_args(VideoFormats::AudioOnly, VideoType::Clip, "ff", "o", false, false, "u");
    assert_eq!(args.iter().filter(|a| a.as_str() == "--ffmpeg-location").count(), 1);
    assert_eq!(
        args,
        vec![
            "--extract-audio",
            "--audio-format",
            "mp3",
            "--ffmpeg-location",
            "ff",
            "--output",
            "o",
            "--add-metadata",
            "--progress",
            "--newline",
            "--verbose",
            "u",
        ]
    );
}

#[test]
fn args_for_a_video_that_only_mentions_clips() {
    // The address of a plain video may hold the word; it is still no clip.
    let args = build_download_args(
        VideoFormats::VideoOnly,
        VideoType::Video,
        "ff",
        "o",
        false,
        false,
        "https://www.youtube.com/watch?v=clip",
    );
    assert!(!args.contains(&"--add-metadata".to_string()));
    assert!(!args.contains(&"--ffmpeg-location".to_string()));
}

#[test]
fn args_for_livestream_end_with_the_url() {
    let args = build_download_args(
        VideoFormats::VideoAndAudio,
        VideoType::Livestream,
        "ff",
        "o",
        true,
        false,
        "the-url",
    );
    assert_eq!(args.last().map(String::as_str), Some("the-url"));
    assert_eq!(args[0], "--format");
    assert_eq!(&args[args.len() - 4..args.len() - 1], ["--progress", "--newline", "--verbose"]);
}

#[test]
fn output_components_follow_the_folder_setting() {
    assert_eq!(FILE_TEMPLATE, "%(title)s.%(ext)s");
    assert_eq!(build_output_components("My Title", true), vec!["My Title", "%(title)s.%(ext)s"]);
    assert_eq!(build_output_components("My Title", false), vec!["%(title)s.%(ext)s"]);
}

#[test]
fn output_template_is_joined_by_the_platform() {
    let mut with_folder = PathBuf::from("downloads");
    with_folder.push("My Title");
    with_folder.push("%(title)s.%(ext)s");
    assert_eq!(output_template("downloads", "My Title", true), with_folder.to_str().unwrap());
    let mut flat = PathBuf::from("downloads");
    flat.push("%(title)s.%(ext)s");
    assert_eq!(output_template("downloads", "My Title", false), flat.to_str().unwrap());
}

#[test]
fn join_path_extends_its_base() {
    let joined = join_path("base", &vec!["a".to_string(), "b".to_string()]);
    assert_ne!(joined, "base");
    let expected: PathBuf = ["base", "a", "b"].iter().collect();
    assert_eq!(joined, expected.to_str().unwrap());
    assert_eq!(join_path("base", &Vec::new()), "base");
}

#[test]
fn join_path_joins_one_component_after_the_other() {
    let cases: [(&str, &[&str]); 5] = [
        ("base", &["a"]),
        ("base/", &["a", "b"]),
        ("", &["a"]),
        ("base", &["", "b"]),
        ("base", &["a", "/rooted", "c"]),
    ];
    for (base, components) in cases {
        let mut expected = base.to_string();
        for component in components {
            expected = Path::new(&expected).join(component).to_str().unwrap().to_string();
        }
        let components: Vec<String> = components.iter().map(|c| c.to_string()).collect();
        assert_eq!(join_path(base, &components), expected);
    }
}
