//! Dependency locator: where the two external tools are expected, how they
//! are probed, and what a probe's outcome means.

use vstd::prelude::*;
use vstd::string::*;

use crate::fetcher::{FFMPEG_DIR, YTDLP_DIR, YTDLP_FILE};
use crate::paths::{join_path, joined_all};
use crate::process::{Invocation, ProcessReport};
use crate::text::{push_text, texts};

verus! {

/// The two external tools that a download depends on.
#[derive(Debug, Clone, Copy, PartialEq, Eq, Structural)]
pub enum Tool {
    /// The transcoder.
    Ffmpeg,
    /// The media downloader.
    Ytdlp,
}

/// A tool is missing, or present and not runnable. The two are not told
/// apart.
#[derive(Debug, Clone, Copy, PartialEq, Eq, Structural)]
pub struct NotFound {
    /// The tool that was looked for.
    pub tool: Tool,
}

/// Name of the application's directory under the user's configuration
/// directory.
pub const APP_DIR: &'static str = "Blue Lady's Tools";

/// Where the transcoder's executable is expected, below the application's
/// directory.
pub const FFMPEG_EXE: &'static str = "ffmpeg/bin/ffmpeg.exe";

/// Where the downloader's executable is expected, below the application's
/// directory.
pub const YTDLP_EXE: &'static str = "yt-dlp/yt-dlp.exe";

/// Where a tool's executable is expected, below the application's
/// directory.
pub open spec fn tool_location(tool: Tool) -> Seq<char> {
    match tool {
        Tool::Ffmpeg => FFMPEG_EXE@,
        Tool::Ytdlp => YTDLP_EXE@,
    }
}

/// The flag that makes a tool print its version and exit.
pub open spec fn probe_flag(tool: Tool) -> Seq<char> {
    match tool {
        Tool::Ffmpeg => "-version"@,
        Tool::Ytdlp => "--version"@,
    }
}

/// The components that lead from the configuration directory to a tool's
/// executable.
pub open spec fn tool_components(tool: Tool) -> Seq<Seq<char>> {
    seq![APP_DIR@, tool_location(tool)]
}

/// The fetcher puts each tool where the locator looks for it: the
/// downloader's file in the downloader's directory, and the transcoder's
/// executable below the directory that its archive is flattened into.
pub proof fn lemma_fetched_where_located()
    ensures
        tool_location(Tool::Ytdlp) == YTDLP_DIR@ + seq!['/'] + YTDLP_FILE@,
        tool_location(Tool::Ffmpeg) == FFMPEG_DIR@ + seq!['/'] + "bin/ffmpeg.exe"@,
{
    reveal_strlit("yt-dlp/yt-dlp.exe");
    reveal_strlit("yt-dlp");
    reveal_strlit("yt-dlp.exe");
    reveal_strlit("ffmpeg/bin/ffmpeg.exe");
    reveal_strlit("ffmpeg");
    reveal_strlit("bin/ffmpeg.exe");
    assert(YTDLP_EXE@ =~= YTDLP_DIR@ + seq!['/'] + YTDLP_FILE@);
    assert(FFMPEG_EXE@ =~= FFMPEG_DIR@ + seq!['/'] + "bin/ffmpeg.exe"@);
}

/// Builds the components that lead from the configuration directory to a
/// tool's executable.
pub fn build_tool_components(tool: Tool) -> (components: Vec<String>)
    ensures
        texts(components@) == tool_components(tool),
{
    let mut components: Vec<String> = Vec::new();
    assert(texts(components@) =~= Seq::<Seq<char>>::empty());
    push_text(&mut components, APP_DIR);
    match tool {
        Tool::Ffmpeg => push_text(&mut components, FFMPEG_EXE),
        Tool::Ytdlp => push_text(&mut components, YTDLP_EXE),
    }
    assert(texts(components@) =~= tool_components(tool));
    components
}

/// The expected path of a tool's executable: the configuration directory
/// with the components of `tool_components` joined onto it in order.
pub fn tool_path(config_dir: &str, tool: Tool) -> (path: String)
    ensures
        path@ == joined_all(config_dir@, tool_components(tool)),
{
    let components = build_tool_components(tool);
    join_path(config_dir, &components)
}

/// The probe of a tool: its executable, run with the version flag alone.
pub fn probe_invocation(path: &str, tool: Tool) -> (probe: Invocation)
    ensures
        probe.binary@ == path@,
        texts(probe.args@) == seq![probe_flag(tool)],
{
    let mut args: Vec<String> = Vec::new();
    assert(texts(args@) =~= Seq::<Seq<char>>::empty());
    match tool {
        Tool::Ffmpeg => push_text(&mut args, "-version"),
        Tool::Ytdlp => push_text(&mut args, "--version"),
    }
    assert(texts(args@) =~= seq![probe_flag(tool)]);
    Invocation { binary: String::from_str(path), args }
}

/// What the probe of `tool` at `path` means: the path where the probe ran
/// and exited with status zero, `NotFound` in every other case.
pub fn locate(tool: Tool, path: String, probe: &ProcessReport) -> (r: Result<String, NotFound>)
    ensures
        probe.succeeded() ==> r == Ok::<String, NotFound>(path),
        !probe.succeeded() ==> r == Err::<String, NotFound>(NotFound { tool }),
{
    if probe.has_succeeded() {
        Ok(path)
    } else {
        Err(NotFound { tool })
    }
}

/// The transcoder's path where its probe succeeded.
pub fn invoke_ffmpeg_from_local(path: String, probe: &ProcessReport) -> (r: Result<
    String,
    NotFound,
>)
    ensures
        probe.succeeded() ==> r == Ok::<String, NotFound>(path),
        !probe.succeeded() ==> r == Err::<String, NotFound>(NotFound { tool: Tool::Ffmpeg }),
{
    locate(Tool::Ffmpeg, path, probe)
}

/// The downloader's path where its probe succeeded.
pub fn invoke_ytdlp_from_local(path: String, probe: &ProcessReport) -> (r: Result<String, NotFound>)
    ensures
        probe.succeeded() ==> r == Ok::<String, NotFound>(path),
        !probe.succeeded() ==> r == Err::<String, NotFound>(NotFound { tool: Tool::Ytdlp }),
{
    locate(Tool::Ytdlp, path, probe)
}

/// Which of the two tools are in place.
#[derive(Debug, Clone, Copy, PartialEq, Eq, Structural)]
pub struct VerifyDeps {
    /// Whether the transcoder was found and runs.
    pub ffmpeg: bool,
    /// Whether the downloader was found and runs.
    pub ytdlp: bool,
}

/// Judges both tools by their probes. Nothing is remembered between
/// calls: the answer is a function of the two reports alone.
pub fn verify_deps(ffmpeg_probe: &ProcessReport, ytdlp_probe: &ProcessReport) -> (deps: VerifyDeps)
    ensures
        deps.ffmpeg == ffmpeg_probe.succeeded(),
        deps.ytdlp == ytdlp_probe.succeeded(),
{
    VerifyDeps { ffmpeg: ffmpeg_probe.has_succeeded(), ytdlp: ytdlp_probe.has_succeeded() }
}

/// The state of one dependency, as found by one verification.
#[derive(Debug, Clone, PartialEq, Eq)]
pub struct DependencyStatus {
    /// The tool.
    pub tool: Tool,
    /// Where it was found; absent where it was not.
    pub path: Option<String>,
    /// Whether it ran and exited with status zero.
    pub executable_verified: bool,
}

/// The status of `tool` from the probe of its expected path.
pub fn dependency_status(tool: Tool, path: String, probe: &ProcessReport) -> (status:
    DependencyStatus)
    ensures
        status.tool == tool,
        status.executable_verified == probe.succeeded(),
        probe.succeeded() ==> status.path == Some(path),
        !probe.succeeded() ==> status.path is None,
{
    if probe.has_succeeded() {
        DependencyStatus { tool, path: Some(path), executable_verified: true }
    } else {
        DependencyStatus { tool, path: None, executable_verified: false }
    }
}

} // verus!
