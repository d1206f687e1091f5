//! The metadata query: what is asked of the downloader before a transfer,
//! and how its answer is read.

use vstd::prelude::*;
use vstd::string::*;

use crate::locator::NotFound;
use crate::process::{Invocation, ProcessReport};
use crate::text::{push_text, split, split_on, texts};

verus! {

/// An immutable snapshot of what the downloader knows about a source.
#[derive(Debug, Clone, PartialEq, Eq)]
pub struct VideoInfo {
    /// Title of the media.
    pub title: String,
    /// File extension that the download will have.
    pub ext: String,
    /// Address of the thumbnail image.
    pub thumbnail: String,
    /// Name of the uploader.
    pub uploader: String,
}

/// Why no `VideoInfo` came out of a metadata query.
#[derive(Debug, Clone, Copy, PartialEq, Eq, Structural)]
pub enum MetadataError {
    /// The downloader could not be started, or exited with a non-zero
    /// status.
    QueryFailed,
    /// The downloader answered with fewer than four fields.
    MetadataParseFailed,
}

/// Number of fields that a metadata answer holds, one per line.
pub const METADATA_FIELDS: usize = 4;

/// The argument vector of the metadata query for `url`: four `--print`
/// requests, the transcoder's location, then the URL.
pub open spec fn metadata_args(url: Seq<char>, ffmpeg_path: Seq<char>) -> Seq<Seq<char>> {
    seq![
        "--print"@,
        "title"@,
        "--print"@,
        "ext"@,
        "--print"@,
        "thumbnail"@,
        "--print"@,
        "uploader"@,
        "--ffmpeg-location"@,
        ffmpeg_path,
        url,
    ]
}

/// Builds the argument vector of the metadata query.
pub fn build_metadata_args(url: &str, ffmpeg_path: &str) -> (args: Vec<String>)
    ensures
        texts(args@) == metadata_args(url@, ffmpeg_path@),
{
    let mut args: Vec<String> = Vec::new();
    assert(texts(args@) =~= Seq::<Seq<char>>::empty());
    push_text(&mut args, "--print");
    push_text(&mut args, "title");
    push_text(&mut args, "--print");
    push_text(&mut args, "ext");
    push_text(&mut args, "--print");
    push_text(&mut args, "thumbnail");
    push_text(&mut args, "--print");
    push_text(&mut args, "uploader");
    push_text(&mut args, "--ffmpeg-location");
    push_text(&mut args, ffmpeg_path);
    push_text(&mut args, url);
    assert(texts(args@) =~= metadata_args(url@, ffmpeg_path@));
    args
}

/// The fields of a metadata answer: the text between line feeds. Carriage
/// returns are not removed.
pub open spec fn metadata_fields(stdout: Seq<char>) -> Seq<Seq<char>> {
    split_on(stdout, '\n')
}

/// Whether `info` holds the first four of `fields`, in the order title,
/// extension, thumbnail, uploader.
pub open spec fn info_holds(info: VideoInfo, fields: Seq<Seq<char>>) -> bool {
    &&& fields.len() >= METADATA_FIELDS
    &&& info.title@ == fields[0]
    &&& info.ext@ == fields[1]
    &&& info.thumbnail@ == fields[2]
    &&& info.uploader@ == fields[3]
}

/// Reads the four positional fields off the downloader's standard output.
/// Fails exactly when the output holds fewer than four fields; what comes
/// after the fourth is ignored.
pub fn parse_video_info(stdout: &str) -> (r: Result<VideoInfo, MetadataError>)
    ensures
        match r {
            Ok(info) => info_holds(info, metadata_fields(stdout@)),
            Err(e) => e == MetadataError::MetadataParseFailed && metadata_fields(stdout@).len()
                < METADATA_FIELDS,
        },
{
    let mut fields = split(stdout, '\n');
    if fields.len() < METADATA_FIELDS {
        return Err(MetadataError::MetadataParseFailed);
    }
    let ghost all = texts(fields@);
    fields.truncate(METADATA_FIELDS);
    assert(texts(fields@) =~= all.take(METADATA_FIELDS as int));
    let uploader = fields.pop().unwrap();
    let thumbnail = fields.pop().unwrap();
    let ext = fields.pop().unwrap();
    let title = fields.pop().unwrap();
    proof {
        assert(all.take(METADATA_FIELDS as int)[3] == all[3]);
        assert(all.take(METADATA_FIELDS as int)[2] == all[2]);
        assert(all.take(METADATA_FIELDS as int)[1] == all[1]);
        assert(all.take(METADATA_FIELDS as int)[0] == all[0]);
    }
    Ok(VideoInfo { title, ext, thumbnail, uploader })
}

/// Turns the report of a metadata query into a `VideoInfo`.
///
/// The query has failed when the downloader could not be started or exited
/// with a non-zero status; its output is then not looked at. Otherwise the
/// result is what `parse_video_info` reads off the standard output.
pub fn get_video_info(report: &ProcessReport) -> (r: Result<VideoInfo, MetadataError>)
    ensures
        match r {
            Ok(info) => report.succeeded() && info_holds(info, metadata_fields(report->stdout@)),
            Err(MetadataError::QueryFailed) => !report.succeeded(),
            Err(MetadataError::MetadataParseFailed) => report.succeeded() && metadata_fields(
                report->stdout@,
            ).len() < METADATA_FIELDS,
        },
{
    match report {
        ProcessReport::SpawnFailed { .. } => Err(MetadataError::QueryFailed),
        ProcessReport::Exited { success, stdout, .. } => {
            if *success {
                parse_video_info(stdout.as_str())
            } else {
                Err(MetadataError::QueryFailed)
            }
        },
    }
}

/// The metadata query for `url`, where both tools were found: the
/// downloader, run with the arguments of `metadata_args`. Where a tool is
/// missing the answer names it, the transcoder being looked at first.
pub fn video_query(url: &str, ffmpeg: Result<String, NotFound>, ytdlp: Result<String, NotFound>) -> (r:
    Result<Invocation, NotFound>)
    ensures
        match (ffmpeg, ytdlp) {
            (Err(missing), _) => r == Err::<Invocation, NotFound>(missing),
            (Ok(_), Err(missing)) => r == Err::<Invocation, NotFound>(missing),
            (Ok(ffmpeg_path), Ok(ytdlp_path)) => {
                &&& r matches Ok(query)
                &&& query.binary == ytdlp_path
                &&& texts(query.args@) == metadata_args(url@, ffmpeg_path@)
            },
        },
{
    let ffmpeg_path = match ffmpeg {
        Ok(path) => path,
        Err(missing) => {
            return Err(missing);
        },
    };
    match ytdlp {
        Ok(ytdlp_path) => Ok(
            Invocation { binary: ytdlp_path, args: build_metadata_args(url, ffmpeg_path.as_str()) },
        ),
        Err(missing) => Err(missing),
    }
}

/// The four metadata fields of a source, in the order title, extension,
/// thumbnail, uploader, read off the report of its metadata query as
/// `get_video_info` reads them.
pub fn fetch_video(report: &ProcessReport) -> (r: Result<
    (String, String, String, String),
    MetadataError,
>)
    ensures
        match r {
            Ok((title, ext, thumbnail, uploader)) => report.succeeded() && info_holds(
                VideoInfo { title, ext, thumbnail, uploader },
                metadata_fields(report->stdout@),
            ),
            Err(MetadataError::QueryFailed) => !report.succeeded(),
            Err(MetadataError::MetadataParseFailed) => report.succeeded() && metadata_fields(
                report->stdout@,
            ).len() < METADATA_FIELDS,
        },
{
    match get_video_info(report) {
        Ok(info) => Ok((info.title, info.ext, info.thumbnail, info.uploader)),
        Err(e) => Err(e),
    }
}

} // verus!
