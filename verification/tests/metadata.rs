use bluelady_tools::locator::{NotFound, Tool};
use bluelady_tools::metadata::{
    build_metadata_args, fetch_video, get_video_info, parse_video_info, video_query,
    MetadataError, VideoInfo,
};
use bluelady_tools::process::ProcessReport;

fn exited(success: bool, stdout: &str) -> ProcessReport {
    ProcessReport::Exited { success, stdout: stdout.to_string(), stderr: String::new() }
}

fn info(title: &str, ext: &str, thumbnail: &str, uploader: &str) -> VideoInfo {
    VideoInfo {
        title: title.to_string(),
        ext: ext.to_string(),
        thumbnail: thumbnail.to_string(),
        uploader: uploader.to_string(),
    }
}

#[test]
fn metadata_query_arguments() {
    assert_eq!(
        build_metadata_args("https://youtube.com/watch?v=1", "C:/tools/ffmpeg.exe"),
        vec![
            "--print",
            "title",
            "--print",
            "ext",
            "--print",
            "thumbnail",
            "--print",
            "uploader",
            "--ffmpeg-location",
            "C:/tools/ffmpeg.exe",
            "https://youtube.com/watch?v=1",
        ]
    );
}

#[test]
fn metadata_with_four_fields_parses() {
    assert_eq!(
        parse_video_info("Title\nmp4\nhttps://img/1.jpg\nSomeone"),
        Ok(info("Title", "mp4", "https://img/1.jpg", "Someone"))
    );
}

#[test]
fn metadata_with_trailing_line_feed_parses() {
    assert_eq!(
        parse_video_info("Title\nmp4\nhttps://img/1.jpg\nSomeone\n"),
        Ok(info("Title", "mp4", "https://img/1.jpg", "Someone"))
    );
    assert_eq!(
        parse_video_info("a\nb\nc\nd\ne\nf"),
        Ok(info("a", "b", "c", "d"))
    );
}

#[test]
fn metadata_keeps_carriage_returns() {
    assert_eq!(parse_video_info("a\r\nb\r\nc\r\nd\r\n"), Ok(info("a\r", "b\r", "c\r", "d\r")));
}

#[test]
fn metadata_with_two_of_four_fields_fails() {
    assert_eq!(parse_video_info("Title\nmp4"), Err(MetadataError::MetadataParseFailed));
}

#[test]
fn metadata_with_too_few_fields_fails() {
    assert_eq!(parse_video_info(""), Err(MetadataError::MetadataParseFailed));
    assert_eq!(parse_video_info("a"), Err(MetadataError::MetadataParseFailed));
    assert_eq!(parse_video_info("a\nb\nc"), Err(MetadataError::MetadataParseFailed));
    // Three line feeds make four fields, the last of them empty.
    assert_eq!(parse_video_info("a\nb\nc\n"), Ok(info("a", "b", "c", "")));
}

#[test]
fn metadata_of_a_failed_query() {
    assert_eq!(get_video_info(&exited(false, "a\nb\nc\nd")), Err(MetadataError::QueryFailed));
    assert_eq!(
        get_video_info(&ProcessReport::SpawnFailed { cause: "not found".to_string() }),
        Err(MetadataError::QueryFailed)
    );
    assert_eq!(get_video_info(&exited(true, "a\nb")), Err(MetadataError::MetadataParseFailed));
    assert_eq!(get_video_info(&exited(true, "a\nb\nc\nd")), Ok(info("a", "b", "c", "d")));
}

#[test]
fn fetch_video_gives_the_four_fields() {
    assert_eq!(
        fetch_video(&exited(true, "T\nwebm\nthumb\nUp\n")),
        Ok(("T".to_string(), "webm".to_string(), "thumb".to_string(), "Up".to_string()))
    );
    assert_eq!(fetch_video(&exited(true, "T\nwebm")), Err(MetadataError::MetadataParseFailed));
    assert_eq!(fetch_video(&exited(false, "")), Err(MetadataError::QueryFailed));
}

#[test]
fn video_query_needs_both_tools() {
    let missing_ffmpeg = NotFound { tool: Tool::Ffmpeg };
    let missing_ytdlp = NotFound { tool: Tool::Ytdlp };
    assert_eq!(
        video_query("u", Err(missing_ffmpeg), Err(missing_ytdlp)),
        Err(missing_ffmpeg)
    );
    assert_eq!(
        video_query("u", Ok("ff".to_string()), Err(missing_ytdlp)),
        Err(missing_ytdlp)
    );
    let query = video_query("u", Ok("ff".to_string()), Ok("yt".to_string())).unwrap();
    assert_eq!(query.binary, "yt");
    assert_eq!(query.args, build_metadata_args("u", "ff"));
}
