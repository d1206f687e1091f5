use bluelady_tools::classify::{
    category_from_matches, get_video_type, ClassificationError, VideoType,
};

#[test]
fn classify_watch_url_is_video() {
    assert_eq!(get_video_type("https://www.youtube.com/watch?v=1234"), Ok(VideoType::Video));
}

#[test]
fn classify_clip_url_is_clip() {
    assert_eq!(get_video_type("https://www.youtube.com/clip/1234"), Ok(VideoType::Clip));
}

#[test]
fn classify_playlist_url_is_playlist() {
    assert_eq!(
        get_video_type("https://www.youtube.com/playlist?list=1234"),
        Ok(VideoType::Playlist)
    );
}

#[test]
fn classify_live_url_is_livestream() {
    assert_eq!(
        get_video_type("https://www.youtube.com/watch?v=1234&live"),
        Ok(VideoType::Livestream)
    );
}

#[test]
fn classify_unknown_url_is_rejected() {
    assert_eq!(get_video_type("https://example.com/"), Err(ClassificationError::UnrecognizedUrl));
    assert_eq!(get_video_type(""), Err(ClassificationError::UnrecognizedUrl));
}

#[test]
fn classify_accepts_plain_http_and_missing_www() {
    assert_eq!(get_video_type("http://youtube.com/watch?v=abc"), Ok(VideoType::Video));
    assert_eq!(get_video_type("https://youtube.com/clip/UgkxijjA3elP"), Ok(VideoType::Clip));
}

#[test]
fn classify_matches_anywhere_in_the_text() {
    assert_eq!(
        get_video_type("see https://www.youtube.com/watch?v=1234 now"),
        Ok(VideoType::Video)
    );
}

#[test]
fn classify_clip_wins_over_watch() {
    // Both the clip rule and the watch rule match this text.
    let both = "https://www.youtube.com/watch?v=1234 https://www.youtube.com/clip/1234";
    assert_eq!(get_video_type(both), Ok(VideoType::Clip));
    let both_live = "https://www.youtube.com/watch?v=1234&live https://youtube.com/clip/x";
    assert_eq!(get_video_type(both_live), Ok(VideoType::Clip));
}

#[test]
fn classify_live_needs_an_id_before_the_marker() {
    // `[^&]+` wants at least one character between `v=` and `&live`.
    assert_eq!(get_video_type("https://www.youtube.com/watch?v=&live"), Ok(VideoType::Video));
    assert_eq!(
        get_video_type("https://www.youtube.com/watch?v=1&list=2&live"),
        Ok(VideoType::Video)
    );
}

#[test]
fn category_is_the_first_rule_that_matched() {
    assert_eq!(category_from_matches(true, true, true, true), Ok(VideoType::Clip));
    assert_eq!(category_from_matches(false, true, true, true), Ok(VideoType::Playlist));
    assert_eq!(category_from_matches(false, false, true, true), Ok(VideoType::Livestream));
    assert_eq!(category_from_matches(false, false, false, true), Ok(VideoType::Video));
    assert_eq!(
        category_from_matches(false, false, false, false),
        Err(ClassificationError::UnrecognizedUrl)
    );
}
