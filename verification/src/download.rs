//! A download job and the argument vector that the downloader is run with.

use vstd::prelude::*;
use vstd::string::*;

use crate::classify::VideoType;
use crate::format::VideoFormats;
use crate::paths::{join_path, joined_all};
use crate::text::{push_text, texts};

verus! {

/// One requested download. Lives for a single submission.
#[derive(Debug, Clone, PartialEq, Eq)]
pub struct DownloadJob {
    /// Address of the media.
    pub url: String,
    /// What to keep of the media.
    pub format: VideoFormats,
    /// Directory that the files go to.
    pub path: String,
    /// Whether the files go to a folder of their own, named by the title.
    pub unique_folders: bool,
    /// Whether the thumbnail is saved beside the media.
    pub download_thumbnail: bool,
    /// Whether a link file to the source is saved beside the media.
    pub write_url_link: bool,
}

/// File-name template that the downloader fills in for every file.
pub const FILE_TEMPLATE: &'static str = "%(title)s.%(ext)s";

/// The flags that select what is downloaded.
pub open spec fn format_flags(format: VideoFormats) -> Seq<Seq<char>> {
    match format {
        VideoFormats::AudioOnly => seq!["--extract-audio"@, "--audio-format"@, "mp3"@],
        VideoFormats::VideoOnly => seq!["--format"@, "bestvideo[ext=mp4]"@],
        VideoFormats::VideoAndAudio => seq!["--format"@, "bestvideo+bestaudio/mp4"@],
    }
}

/// Whether the downloader has to be told where the transcoder is: for
/// audio extraction and for clips.
pub open spec fn needs_transcoder(format: VideoFormats, category: VideoType) -> bool {
    format == VideoFormats::AudioOnly || category == VideoType::Clip
}

/// The flags that `condition` switches on: `flags` or nothing.
pub open spec fn flags_if(condition: bool, flags: Seq<Seq<char>>) -> Seq<Seq<char>> {
    if condition {
        flags
    } else {
        Seq::empty()
    }
}

/// The argument vector of a transfer, in the order that the downloader is
/// given it: format flags, the transcoder's location where needed, the
/// output template, the optional side-file flags, the metadata flag for
/// clips, the progress flags, and the URL last.
pub open spec fn download_args(
    format: VideoFormats,
    category: VideoType,
    ffmpeg_path: Seq<char>,
    output: Seq<char>,
    download_thumbnail: bool,
    write_url_link: bool,
    url: Seq<char>,
) -> Seq<Seq<char>> {
    format_flags(format) + flags_if(
        needs_transcoder(format, category),
        seq!["--ffmpeg-location"@, ffmpeg_path],
    ) + seq!["--output"@, output] + flags_if(download_thumbnail, seq!["--write-thumbnail"@])
        + flags_if(write_url_link, seq!["--write-url-link"@]) + flags_if(
        category == VideoType::Clip,
        seq!["--add-metadata"@],
    ) + seq!["--progress"@, "--newline"@, "--verbose"@, url]
}

/// The URL is the last argument of every transfer.
pub proof fn lemma_url_is_last(
    format: VideoFormats,
    category: VideoType,
    ffmpeg_path: Seq<char>,
    output: Seq<char>,
    download_thumbnail: bool,
    write_url_link: bool,
    url: Seq<char>,
)
    ensures
        download_args(
            format,
            category,
            ffmpeg_path,
            output,
            download_thumbnail,
            write_url_link,
            url,
        ).last() == url,
{
}

/// The components that are joined onto the destination directory to make
/// the output template: the title where the job asks for a folder of its
/// own, then the file-name template.
pub open spec fn output_components(title: Seq<char>, unique_folders: bool) -> Seq<Seq<char>> {
    flags_if(unique_folders, seq![title]) + seq![FILE_TEMPLATE@]
}

/// Builds the components of the output template.
pub fn build_output_components(title: &str, unique_folders: bool) -> (components: Vec<String>)
    ensures
        texts(components@) == output_components(title@, unique_folders),
{
    let mut components: Vec<String> = Vec::new();
    assert(texts(components@) =~= Seq::<Seq<char>>::empty());
    if unique_folders {
        push_text(&mut components, title);
    }
    push_text(&mut components, FILE_TEMPLATE);
    assert(texts(components@) =~= output_components(title@, unique_folders));
    components
}

/// The output template of a job: its destination directory with the
/// components of `output_components` joined onto it in order.
pub fn output_template(path: &str, title: &str, unique_folders: bool) -> (template: String)
    ensures
        template@ == joined_all(path@, output_components(title@, unique_folders)),
{
    let components = build_output_components(title, unique_folders);
    join_path(path, &components)
}

/// Appends the flags that select `format`.
fn push_format_flags(args: &mut Vec<String>, format: VideoFormats)
    ensures
        texts(final(args)@) == texts(old(args)@) + format_flags(format),
{
    match format {
        VideoFormats::AudioOnly => {
            push_text(args, "--extract-audio");
            push_text(args, "--audio-format");
            push_text(args, "mp3");
        },
        VideoFormats::VideoOnly => {
            push_text(args, "--format");
            push_text(args, "bestvideo[ext=mp4]");
        },
        VideoFormats::VideoAndAudio => {
            push_text(args, "--format");
            push_text(args, "bestvideo+bestaudio/mp4");
        },
    }
    assert(texts(args@) =~= texts(old(args)@) + format_flags(format));
}

/// Appends `flag` where `condition` holds.
fn push_flag_if(args: &mut Vec<String>, condition: bool, flag: &str)
    ensures
        texts(final(args)@) == texts(old(args)@) + flags_if(condition, seq![flag@]),
{
    if condition {
        push_text(args, flag);
    }
    assert(texts(args@) =~= texts(old(args)@) + flags_if(condition, seq![flag@]));
}

/// Appends `flag` and its `value` where `condition` holds.
fn push_option_if(args: &mut Vec<String>, condition: bool, flag: &str, value: &str)
    ensures
        texts(final(args)@) == texts(old(args)@) + flags_if(condition, seq![flag@, value@]),
{
    if condition {
        push_text(args, flag);
        push_text(args, value);
    }
    assert(texts(args@) =~= texts(old(args)@) + flags_if(condition, seq![flag@, value@]));
}

/// Appends the progress flags and the URL.
fn push_progress_and_url(args: &mut Vec<String>, url: &str)
    ensures
        texts(final(args)@) == texts(old(args)@) + seq![
            "--progress"@,
            "--newline"@,
            "--verbose"@,
            url@,
        ],
{
    push_text(args, "--progress");
    push_text(args, "--newline");
    push_text(args, "--verbose");
    push_text(args, url);
    assert(texts(args@) =~= texts(old(args)@) + seq![
        "--progress"@,
        "--newline"@,
        "--verbose"@,
        url@,
    ]);
}

/// Builds the argument vector of a transfer from the job's settings, the
/// category of its URL, the transcoder's location and the output template.
pub fn build_download_args(
    format: VideoFormats,
    category: VideoType,
    ffmpeg_path: &str,
    output: &str,
    download_thumbnail: bool,
    write_url_link: bool,
    url: &str,
) -> (args: Vec<String>)
    ensures
        texts(args@) == download_args(
            format,
            category,
            ffmpeg_path@,
            output@,
            download_thumbnail,
            write_url_link,
            url@,
        ),
{
    let is_clip = match category {
        VideoType::Clip => true,
        _ => false,
    };
    let audio_only = match format {
        VideoFormats::AudioOnly => true,
        _ => false,
    };
    let mut args: Vec<String> = Vec::new();
    assert(texts(args@) =~= Seq::<Seq<char>>::empty());
    push_format_flags(&mut args, format);
    assert(texts(args@) =~= format_flags(format));
    push_option_if(&mut args, audio_only || is_clip, "--ffmpeg-location", ffmpeg_path);
    push_option_if(&mut args, true, "--output", output);
    push_flag_if(&mut args, download_thumbnail, "--write-thumbnail");
    push_flag_if(&mut args, write_url_link, "--write-url-link");
    push_flag_if(&mut args, is_clip, "--add-metadata");
    push_progress_and_url(&mut args, url);
    args
}

} // verus!
