//! URL classifier: from a source URL to the kind of content it points at.
//!
//! The rules are regular expressions, tried in a fixed order; the first that
//! matches anywhere in the URL decides. Matching is done by the `regex`
//! crate, behind one wrapper whose contract is taken on trust.

use regex::Regex;
use vstd::prelude::*;

verus! {

/// The error with which the `regex` crate refuses a pattern.
#[verifier::external_type_specification]
#[verifier::external_body]
pub struct ExRegexError(regex::Error);

/// Whether the `regex` crate accepts the expression written as `pattern`:
/// whether `Regex::new` compiles it.
pub uninterp spec fn pattern_accepted(pattern: Seq<char>) -> bool;

/// Whether the expression written as `pattern` has a match anywhere in
/// `haystack`, under the syntax and semantics of the `regex` crate.
pub uninterp spec fn pattern_matches(pattern: Seq<char>, haystack: Seq<char>) -> bool;

/// Compiles `pattern` with `Regex::new` and asks the compiled expression,
/// with `Regex::is_match`, whether it matches anywhere in `haystack`.
///
/// Whether the pattern is accepted depends on the pattern alone, and of
/// an accepted pattern the answer depends on the pattern and the haystack
/// alone. Which patterns are accepted, and what they match, is the
/// crate's to say.
#[verifier::external_body]
fn regex_is_match(pattern: &str, haystack: &str) -> (r: Result<bool, regex::Error>)
    ensures
        r is Ok <==> pattern_accepted(pattern@),
        r matches Ok(found) ==> found == pattern_matches(pattern@, haystack@),
{
    let re = Regex::new(pattern)?;
    Ok(re.is_match(haystack))
}

/// The kind of content behind a URL.
#[derive(Debug, Clone, Copy, PartialEq, Eq, Structural)]
pub enum VideoType {
    /// A clip cut from a longer video.
    Clip,
    /// A playlist. Recognised, but no job can download one.
    Playlist,
    /// A live stream.
    Livestream,
    /// A standalone video.
    Video,
}

/// Why a URL could not be classified.
#[derive(Debug, Clone, Copy, PartialEq, Eq, Structural)]
pub enum ClassificationError {
    /// No rule matches the URL.
    UnrecognizedUrl,
    /// A rule was reached whose pattern the expression compiler does not
    /// accept.
    PatternRejected,
}

/// Pattern of clip URLs.
pub const CLIP_PATTERN: &'static str = r"https?://(www\.)?youtube\.com/clip/";

/// Pattern of playlist URLs.
pub const PLAYLIST_PATTERN: &'static str = r"https?://(www\.)?youtube\.com/playlist\?list=";

/// Pattern of live-stream URLs. Every URL it matches is matched by
/// `VIDEO_PATTERN` too, so it has to be tried first.
pub const LIVESTREAM_PATTERN: &'static str = r"https?://(www\.)?youtube\.com/watch\?v=[^&]+&live";

/// Pattern of plain video URLs.
pub const VIDEO_PATTERN: &'static str = r"https?://(www\.)?youtube\.com/watch\?v=";

/// The category decided by which of the four rules match: the first
/// matching rule in the order clip, playlist, live stream, video.
pub open spec fn category_of(clip: bool, playlist: bool, livestream: bool, video: bool) -> Result<
    VideoType,
    ClassificationError,
> {
    if clip {
        Ok(VideoType::Clip)
    } else if playlist {
        Ok(VideoType::Playlist)
    } else if livestream {
        Ok(VideoType::Livestream)
    } else if video {
        Ok(VideoType::Video)
    } else {
        Err(ClassificationError::UnrecognizedUrl)
    }
}

/// The category of a URL when every rule's pattern is accepted.
pub open spec fn classify(url: Seq<char>) -> Result<VideoType, ClassificationError> {
    category_of(
        pattern_matches(CLIP_PATTERN@, url),
        pattern_matches(PLAYLIST_PATTERN@, url),
        pattern_matches(LIVESTREAM_PATTERN@, url),
        pattern_matches(VIDEO_PATTERN@, url),
    )
}

/// What one rule says of a URL: whether its pattern matches, or that its
/// pattern is not accepted.
pub open spec fn rule_outcome(pattern: Seq<char>, url: Seq<char>) -> Result<
    bool,
    ClassificationError,
> {
    if pattern_accepted(pattern) {
        Ok(pattern_matches(pattern, url))
    } else {
        Err(ClassificationError::PatternRejected)
    }
}

/// The classification of a URL. The four rules are taken in order: clip,
/// playlist, live stream, video. A rule that is reached with a pattern
/// that is not accepted ends the classification with `PatternRejected`;
/// the first rule that matches gives its category; where all four were
/// reached and none matched the URL is not recognised. A rule behind the
/// one that matched is not looked at.
pub open spec fn classify_checked(url: Seq<char>) -> Result<VideoType, ClassificationError> {
    if !pattern_accepted(CLIP_PATTERN@) {
        Err(ClassificationError::PatternRejected)
    } else if pattern_matches(CLIP_PATTERN@, url) {
        Ok(VideoType::Clip)
    } else if !pattern_accepted(PLAYLIST_PATTERN@) {
        Err(ClassificationError::PatternRejected)
    } else if pattern_matches(PLAYLIST_PATTERN@, url) {
        Ok(VideoType::Playlist)
    } else if !pattern_accepted(LIVESTREAM_PATTERN@) {
        Err(ClassificationError::PatternRejected)
    } else if pattern_matches(LIVESTREAM_PATTERN@, url) {
        Ok(VideoType::Livestream)
    } else if !pattern_accepted(VIDEO_PATTERN@) {
        Err(ClassificationError::PatternRejected)
    } else if pattern_matches(VIDEO_PATTERN@, url) {
        Ok(VideoType::Video)
    } else {
        Err(ClassificationError::UnrecognizedUrl)
    }
}

/// Whether the patterns of all four rules are accepted.
pub open spec fn patterns_accepted() -> bool {
    &&& pattern_accepted(CLIP_PATTERN@)
    &&& pattern_accepted(PLAYLIST_PATTERN@)
    &&& pattern_accepted(LIVESTREAM_PATTERN@)
    &&& pattern_accepted(VIDEO_PATTERN@)
}

/// With all four patterns accepted the classification is the category of
/// the first rule that matches, and never `PatternRejected`.
pub proof fn lemma_checked_is_classify(url: Seq<char>)
    requires
        patterns_accepted(),
    ensures
        classify_checked(url) == classify(url),
        classify_checked(url) != Err::<VideoType, ClassificationError>(
            ClassificationError::PatternRejected,
        ),
{
}

/// A URL that the clip rule matches is a clip, whichever of the other
/// rules match it too.
pub proof fn lemma_clip_takes_precedence(url: Seq<char>)
    requires
        pattern_accepted(CLIP_PATTERN@),
        pattern_matches(CLIP_PATTERN@, url),
    ensures
        classify_checked(url) == Ok::<VideoType, ClassificationError>(VideoType::Clip),
        classify(url) == Ok::<VideoType, ClassificationError>(VideoType::Clip),
{
}

/// A URL that the live-stream rule matches, and neither the clip rule nor
/// the playlist rule, is a live stream, though the video rule may match it
/// as well.
pub proof fn lemma_livestream_before_video(url: Seq<char>)
    requires
        patterns_accepted(),
        !pattern_matches(CLIP_PATTERN@, url),
        !pattern_matches(PLAYLIST_PATTERN@, url),
        pattern_matches(LIVESTREAM_PATTERN@, url),
    ensures
        classify_checked(url) == Ok::<VideoType, ClassificationError>(VideoType::Livestream),
{
}

/// Decides the category from the answers of the four rules.
pub fn category_from_matches(clip: bool, playlist: bool, livestream: bool, video: bool) -> (r:
    Result<VideoType, ClassificationError>)
    ensures
        r == category_of(clip, playlist, livestream, video),
{
    if clip {
        Ok(VideoType::Clip)
    } else if playlist {
        Ok(VideoType::Playlist)
    } else if livestream {
        Ok(VideoType::Livestream)
    } else if video {
        Ok(VideoType::Video)
    } else {
        Err(ClassificationError::UnrecognizedUrl)
    }
}

/// Whether `pattern` matches somewhere in `url`, or the compiler's refusal
/// of the pattern.
fn rule_matches(pattern: &str, url: &str) -> (r: Result<bool, ClassificationError>)
    ensures
        r == rule_outcome(pattern@, url@),
{
    match regex_is_match(pattern, url) {
        Ok(found) => Ok(found),
        Err(_) => Err(ClassificationError::PatternRejected),
    }
}

/// Classifies a URL. The rules are tried in order and the first match
/// wins, so a clip or live-stream URL is never taken for a plain video.
/// Fails with `UnrecognizedUrl` exactly when all four rules were tried and
/// none matched. No network access.
pub fn get_video_type(url: &str) -> (r: Result<VideoType, ClassificationError>)
    ensures
        r == classify_checked(url@),
{
    let clip = rule_matches(CLIP_PATTERN, url)?;
    if clip {
        return Ok(VideoType::Clip);
    }
    let playlist = rule_matches(PLAYLIST_PATTERN, url)?;
    if playlist {
        return Ok(VideoType::Playlist);
    }
    let livestream = rule_matches(LIVESTREAM_PATTERN, url)?;
    if livestream {
        return Ok(VideoType::Livestream);
    }
    let video = rule_matches(VIDEO_PATTERN, url)?;
    category_from_matches(clip, playlist, livestream, video)
}

} // verus!
