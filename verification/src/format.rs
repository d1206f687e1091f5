//! Format policy: from the caller's format hint to what is downloaded.

use vstd::prelude::*;

use crate::text::same_text;

verus! {

/// What a download job keeps of the source media.
#[derive(Debug, Clone, Copy, PartialEq, Eq, Structural)]
pub enum VideoFormats {
    /// Audio track only, transcoded to mp3.
    AudioOnly,
    /// Video track only, as mp4.
    VideoOnly,
    /// Best video and best audio together; the default.
    VideoAndAudio,
}

/// The selection that a hint stands for: `"audio"` and `"video"` name the
/// two single-track selections, every other hint and no hint the default.
pub open spec fn format_of_hint(hint: Option<Seq<char>>) -> VideoFormats {
    if hint == Some("audio"@) {
        VideoFormats::AudioOnly
    } else if hint == Some("video"@) {
        VideoFormats::VideoOnly
    } else {
        VideoFormats::VideoAndAudio
    }
}

/// The view of an optional string slice.
pub open spec fn hint_view(hint: Option<&str>) -> Option<Seq<char>> {
    match hint {
        Some(s) => Some(s@),
        None => None,
    }
}

/// Chooses the selection for an optional format hint. Never fails: a hint
/// that is absent or not recognised selects video and audio together.
pub fn get_video_formats(user_format: Option<&str>) -> (selection: VideoFormats)
    ensures
        selection == format_of_hint(hint_view(user_format)),
{
    match user_format {
        Some(hint) => {
            if same_text(hint, "audio") {
                VideoFormats::AudioOnly
            } else if same_text(hint, "video") {
                VideoFormats::VideoOnly
            } else {
                VideoFormats::VideoAndAudio
            }
        },
        None => VideoFormats::VideoAndAudio,
    }
}

} // verus!
