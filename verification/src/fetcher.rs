//! Dependency fetcher: the steps that download the two tools into the
//! application's directory, flatten the transcoder's archive and clean up.
//!
//! The fetcher touches neither the network nor the disk. It names one
//! action at a time; the caller performs it and reports how it went, and
//! the fetcher names the next. The first failure ends the run. Places are
//! given as path components below the application's directory.

use vstd::prelude::*;
use vstd::string::*;

use crate::text::{has_prefix, push_text, starts_with, texts};

verus! {

/// Directory that the transcoder is installed into.
pub const FFMPEG_DIR: &'static str = "ffmpeg";

/// File that the transcoder's archive is downloaded to.
pub const ARCHIVE_FILE: &'static str = "ffmpeg.zip";

/// Directory that the downloader is installed into.
pub const YTDLP_DIR: &'static str = "yt-dlp";

/// File name of the downloader's executable.
pub const YTDLP_FILE: &'static str = "yt-dlp.exe";

/// How the name of the directory inside the transcoder's archive begins.
pub const LEFTOVER_PREFIX: &'static str = "ffmpeg-";

/// Where the transcoder's archive is fetched from.
pub const FFMPEG_URL: &'static str =
    "https://github.com/yt-dlp/FFmpeg-Builds/releases/latest/download/ffmpeg-master-latest-win64-gpl.zip";

/// Where the downloader's executable is fetched from.
pub const YTDLP_URL: &'static str =
    "https://github.com/yt-dlp/yt-dlp/releases/latest/download/yt-dlp.exe";

/// What a download request names as its user agent.
pub const USER_AGENT_VALUE: &'static str = "reqwest";

/// What a request for an executable accepts.
pub const BINARY_ACCEPT: &'static str = "application/octet-stream";

/// Seconds that a download may take before the client gives up.
pub const DOWNLOAD_TIMEOUT_SECS: u64 = 600;

/// What the run reports when every step went through.
pub const FFMPEG_DONE: &'static str = "FFMPEG downloaded successfully";

/// What the run reports when every step went through.
pub const YTDLP_DONE: &'static str = "YT-DLP downloaded successfully";

/// What the run fails with when the archive held no directory.
pub const NO_EXTRACTED_DIR: &'static str = "Failed to find extracted directory";

/// One entry of a directory listing.
#[derive(Debug, Clone, PartialEq, Eq)]
pub struct DirEntry {
    /// The entry's file name, without its directory.
    pub name: String,
    /// Whether the entry is a directory.
    pub is_dir: bool,
}

/// A directory entry, with its name as text.
pub struct DirEntryView {
    pub name: Seq<char>,
    pub is_dir: bool,
}

impl View for DirEntry {
    type V = DirEntryView;

    open spec fn view(&self) -> DirEntryView {
        DirEntryView { name: self.name@, is_dir: self.is_dir }
    }
}

/// The views of a listing's entries, in order.
pub open spec fn entries_view(entries: Seq<DirEntry>) -> Seq<DirEntryView> {
    entries.map_values(|e: DirEntry| e@)
}

/// The names of a listing's entries, in order.
pub open spec fn entry_names(entries: Seq<DirEntryView>) -> Seq<Seq<char>> {
    entries.map_values(|e: DirEntryView| e.name)
}

/// Which entry a search of a listing is after.
#[derive(Debug, Clone, Copy, PartialEq, Eq, Structural)]
pub enum Wanted {
    /// Any directory.
    Directory,
    /// A directory whose name begins as the archive's inner directory
    /// does.
    Leftover,
}

/// Whether `entry` is what the search is after.
pub open spec fn is_wanted(entry: DirEntryView, wanted: Wanted) -> bool {
    match wanted {
        Wanted::Directory => entry.is_dir,
        Wanted::Leftover => entry.is_dir && has_prefix(entry.name, LEFTOVER_PREFIX@),
    }
}

/// Index of the first wanted entry at or after `from`.
pub open spec fn first_wanted_from(entries: Seq<DirEntryView>, wanted: Wanted, from: int) -> Option<
    int,
>
    decreases entries.len() - from,
{
    if from < 0 || from >= entries.len() {
        None
    } else if is_wanted(entries[from], wanted) {
        Some(from)
    } else {
        first_wanted_from(entries, wanted, from + 1)
    }
}

/// Index of the first wanted entry of a listing.
pub open spec fn first_wanted(entries: Seq<DirEntryView>, wanted: Wanted) -> Option<int> {
    first_wanted_from(entries, wanted, 0)
}

/// What `first_wanted` finds is in the listing and wanted, and nothing
/// before it is; where it finds nothing, nothing in the listing is
/// wanted.
pub proof fn lemma_first_wanted(entries: Seq<DirEntryView>, wanted: Wanted, from: int)
    requires
        0 <= from,
    ensures
        match first_wanted_from(entries, wanted, from) {
            Some(i) => from <= i < entries.len() && is_wanted(entries[i], wanted) && forall|j: int|
                from <= j < i ==> !is_wanted(entries[j], wanted),
            None => forall|j: int| from <= j < entries.len() ==> !is_wanted(entries[j], wanted),
        },
    decreases entries.len() - from,
{
    if from < entries.len() && !is_wanted(entries[from], wanted) {
        lemma_first_wanted(entries, wanted, from + 1);
    }
}

/// Searches a listing for the first wanted entry.
pub fn find_entry(entries: &Vec<DirEntry>, wanted: Wanted) -> (found: Option<usize>)
    ensures
        match found {
            Some(i) => first_wanted(entries_view(entries@), wanted) == Some(i as int) && i
                < entries.len(),
            None => first_wanted(entries_view(entries@), wanted) is None,
        },
{
    let mut i: usize = 0;
    while i < entries.len()
        invariant
            i <= entries.len(),
            first_wanted(entries_view(entries@), wanted) == first_wanted_from(
                entries_view(entries@),
                wanted,
                i as int,
            ),
        decreases entries.len() - i,
    {
        let entry = &entries[i];
        assert(entries_view(entries@)[i as int] == entry@);
        let hit = match wanted {
            Wanted::Directory => entry.is_dir,
            Wanted::Leftover => entry.is_dir && starts_with(entry.name.as_str(), LEFTOVER_PREFIX),
        };
        if hit {
            return Some(i);
        }
        i += 1;
    }
    None
}

/// The directory that the archive left behind in the install directory:
/// the first entry of the listing that is a directory and whose name
/// begins with `ffmpeg-`.
pub fn find_extracted_ffmpeg_dir(entries: &Vec<DirEntry>) -> (found: Option<usize>)
    ensures
        match found {
            Some(i) => first_wanted(entries_view(entries@), Wanted::Leftover) == Some(i as int)
                && i < entries.len(),
            None => first_wanted(entries_view(entries@), Wanted::Leftover) is None,
        },
{
    find_entry(entries, Wanted::Leftover)
}

/// The step that a run waits at: the action that was named last and has
/// not been reported yet.
#[derive(Debug, Clone, Copy, PartialEq, Eq, Structural)]
pub enum FetchStep {
    /// Creating the transcoder's install directory.
    CreateFfmpegDir,
    /// Downloading the transcoder's archive.
    DownloadFfmpeg,
    /// Extracting the archive into the install directory.
    ExtractFfmpeg,
    /// Listing the install directory to find the archive's inner directory.
    FindExtracted,
    /// Listing the inner directory.
    ListExtracted,
    /// Moving one entry of the inner directory up one level.
    MoveFiles,
    /// Creating the downloader's install directory.
    CreateYtdlpDir,
    /// Downloading the downloader's executable.
    DownloadYtdlp,
    /// Removing the downloaded archive.
    RemoveArchive,
    /// Listing the install directory to find what the archive left behind.
    FindLeftover,
    /// Removing the emptied inner directory.
    RemoveLeftover,
    /// Every step went through.
    Done,
    /// A step failed.
    Failed,
}

/// How the caller's last action went.
#[derive(Debug, Clone, PartialEq, Eq)]
pub enum StepReport {
    /// The action went through. For a listing, `listing` holds the
    /// directory's entries; for any other action it is not looked at.
    Completed { listing: Vec<DirEntry> },
    /// The action failed.
    Failed { cause: String },
}

/// A report, with its strings as text.
pub enum StepReportView {
    Completed { listing: Seq<DirEntryView> },
    Failed { cause: Seq<char> },
}

impl View for StepReport {
    type V = StepReportView;

    open spec fn view(&self) -> StepReportView {
        match *self {
            StepReport::Completed { listing } => StepReportView::Completed {
                listing: entries_view(listing@),
            },
            StepReport::Failed { cause } => StepReportView::Failed { cause: cause@ },
        }
    }
}

/// The outcome for one tool.
#[derive(Debug, Clone, PartialEq, Eq)]
pub struct Deps {
    /// Whether the tool is in place.
    pub success: bool,
    /// A sentence for the user.
    pub message: String,
}

/// The outcome of a run that went through.
#[derive(Debug, Clone, PartialEq, Eq)]
pub struct DownloadDepsResponse {
    /// The transcoder.
    pub ffmpeg: Deps,
    /// The downloader.
    pub ytdlp: Deps,
}

/// What the caller is to do next.
#[derive(Debug, Clone, PartialEq, Eq)]
pub enum FetchAction {
    /// Create the directory and its parents.
    CreateDir { path: Vec<String> },
    /// Fetch `url` and write the body to the file at `path`, giving up
    /// after `timeout_secs` seconds. Where `binary` is set the request
    /// asks for an octet stream.
    Download { url: String, binary: bool, path: Vec<String>, timeout_secs: u64 },
    /// Extract the archive at `archive` into the directory `into`,
    /// keeping the archive's top level.
    Extract { archive: Vec<String>, into: Vec<String> },
    /// List the entries of the directory.
    List { path: Vec<String> },
    /// Move the entry at `from` to `to`.
    Rename { from: Vec<String>, to: Vec<String> },
    /// Remove the file.
    RemoveFile { path: Vec<String> },
    /// Remove the directory and what it holds.
    RemoveDir { path: Vec<String> },
    /// The run is over: both tools are in place.
    Succeed { response: DownloadDepsResponse },
    /// The run is over: `step` failed with `cause`.
    Fail { step: FetchStep, cause: String },
    /// The run was over before this report. Nothing to do.
    Stop,
}

/// An action, with its strings as text.
pub enum FetchActionView {
    CreateDir { path: Seq<Seq<char>> },
    Download { url: Seq<char>, binary: bool, path: Seq<Seq<char>>, timeout_secs: u64 },
    Extract { archive: Seq<Seq<char>>, into: Seq<Seq<char>> },
    List { path: Seq<Seq<char>> },
    Rename { from: Seq<Seq<char>>, to: Seq<Seq<char>> },
    RemoveFile { path: Seq<Seq<char>> },
    RemoveDir { path: Seq<Seq<char>> },
    Succeed { ffmpeg: (bool, Seq<char>), ytdlp: (bool, Seq<char>) },
    Fail { step: FetchStep, cause: Seq<char> },
    Stop,
}

impl View for FetchAction {
    type V = FetchActionView;

    open spec fn view(&self) -> FetchActionView {
        match *self {
            FetchAction::CreateDir { path } => FetchActionView::CreateDir { path: texts(path@) },
            FetchAction::Download { url, binary, path, timeout_secs } => FetchActionView::Download {
                url: url@,
                binary,
                path: texts(path@),
                timeout_secs,
            },
            FetchAction::Extract { archive, into } => FetchActionView::Extract {
                archive: texts(archive@),
                into: texts(into@),
            },
            FetchAction::List { path } => FetchActionView::List { path: texts(path@) },
            FetchAction::Rename { from, to } => FetchActionView::Rename {
                from: texts(from@),
                to: texts(to@),
            },
            FetchAction::RemoveFile { path } => FetchActionView::RemoveFile { path: texts(path@) },
            FetchAction::RemoveDir { path } => FetchActionView::RemoveDir { path: texts(path@) },
            FetchAction::Succeed { response } => FetchActionView::Succeed {
                ffmpeg: (response.ffmpeg.success, response.ffmpeg.message@),
                ytdlp: (response.ytdlp.success, response.ytdlp.message@),
            },
            FetchAction::Fail { step, cause } => FetchActionView::Fail { step, cause: cause@ },
            FetchAction::Stop => FetchActionView::Stop,
        }
    }
}

/// A run of the fetcher, as the contracts see it.
pub struct FetcherView {
    /// The step that the run waits at.
    pub step: FetchStep,
    /// Name of the archive's inner directory, once found.
    pub nested: Seq<char>,
    /// Names of the entries of the inner directory, once listed.
    pub children: Seq<Seq<char>>,
    /// Index of the entry that is being moved.
    pub moved: nat,
}

/// Where an entry of the inner directory lies before it is moved.
pub open spec fn nested_place(nested: Seq<char>, child: Seq<char>) -> Seq<Seq<char>> {
    seq![FFMPEG_DIR@, nested, child]
}

/// Where an entry of the inner directory lies after it is moved: one
/// level up, directly in the install directory.
pub open spec fn flattened_place(child: Seq<char>) -> Seq<Seq<char>> {
    seq![FFMPEG_DIR@, child]
}

/// The action that moves the entry `child` of the inner directory up.
pub open spec fn move_action(nested: Seq<char>, child: Seq<char>) -> FetchActionView {
    FetchActionView::Rename { from: nested_place(nested, child), to: flattened_place(child) }
}

/// The action that a run begins with.
pub open spec fn first_action() -> FetchActionView {
    FetchActionView::CreateDir { path: seq![FFMPEG_DIR@] }
}

/// The state that a run begins in.
pub open spec fn first_state() -> FetcherView {
    FetcherView {
        step: FetchStep::CreateFfmpegDir,
        nested: Seq::empty(),
        children: Seq::empty(),
        moved: 0,
    }
}

/// The action that ends a run in success.
pub open spec fn success_action() -> FetchActionView {
    FetchActionView::Succeed { ffmpeg: (true, FFMPEG_DONE@), ytdlp: (true, YTDLP_DONE@) }
}

/// The step and action that follow a step that went through, where the
/// step's report carried the listing `listing`.
pub open spec fn after_completed(state: FetcherView, listing: Seq<DirEntryView>) -> (
    FetcherView,
    FetchActionView,
) {
    match state.step {
        FetchStep::CreateFfmpegDir => (
            FetcherView { step: FetchStep::DownloadFfmpeg, ..state },
            FetchActionView::Download {
                url: FFMPEG_URL@,
                binary: false,
                path: seq![ARCHIVE_FILE@],
                timeout_secs: DOWNLOAD_TIMEOUT_SECS,
            },
        ),
        FetchStep::DownloadFfmpeg => (
            FetcherView { step: FetchStep::ExtractFfmpeg, ..state },
            FetchActionView::Extract { archive: seq![ARCHIVE_FILE@], into: seq![FFMPEG_DIR@] },
        ),
        FetchStep::ExtractFfmpeg => (
            FetcherView { step: FetchStep::FindExtracted, ..state },
            FetchActionView::List { path: seq![FFMPEG_DIR@] },
        ),
        FetchStep::FindExtracted => match first_wanted(listing, Wanted::Directory) {
            Some(i) => (
                FetcherView { step: FetchStep::ListExtracted, nested: listing[i].name, ..state },
                FetchActionView::List { path: seq![FFMPEG_DIR@, listing[i].name] },
            ),
            None => (
                FetcherView { step: FetchStep::Failed, ..state },
                FetchActionView::Fail { step: FetchStep::FindExtracted, cause: NO_EXTRACTED_DIR@ },
            ),
        },
        FetchStep::ListExtracted => if listing.len() > 0 {
            (
                FetcherView {
                    step: FetchStep::MoveFiles,
                    children: entry_names(listing),
                    moved: 0,
                    ..state
                },
                move_action(state.nested, listing[0].name),
            )
        } else {
            (
                FetcherView {
                    step: FetchStep::CreateYtdlpDir,
                    children: entry_names(listing),
                    moved: 0,
                    ..state
                },
                FetchActionView::CreateDir { path: seq![YTDLP_DIR@] },
            )
        },
        FetchStep::MoveFiles => if state.moved + 1 < state.children.len() {
            (
                FetcherView { moved: (state.moved + 1) as nat, ..state },
                move_action(state.nested, state.children[state.moved as int + 1]),
            )
        } else {
            (
                FetcherView { step: FetchStep::CreateYtdlpDir, ..state },
                FetchActionView::CreateDir { path: seq![YTDLP_DIR@] },
            )
        },
        FetchStep::CreateYtdlpDir => (
            FetcherView { step: FetchStep::DownloadYtdlp, ..state },
            FetchActionView::Download {
                url: YTDLP_URL@,
                binary: true,
                path: seq![YTDLP_DIR@, YTDLP_FILE@],
                timeout_secs: DOWNLOAD_TIMEOUT_SECS,
            },
        ),
        FetchStep::DownloadYtdlp => (
            FetcherView { step: FetchStep::RemoveArchive, ..state },
            FetchActionView::RemoveFile { path: seq![ARCHIVE_FILE@] },
        ),
        FetchStep::RemoveArchive => (
            FetcherView { step: FetchStep::FindLeftover, ..state },
            FetchActionView::List { path: seq![FFMPEG_DIR@] },
        ),
        FetchStep::FindLeftover => match first_wanted(listing, Wanted::Leftover) {
            Some(i) => (
                FetcherView { step: FetchStep::RemoveLeftover, ..state },
                FetchActionView::RemoveDir { path: seq![FFMPEG_DIR@, listing[i].name] },
            ),
            None => (FetcherView { step: FetchStep::Done, ..state }, success_action()),
        },
        FetchStep::RemoveLeftover => (
            FetcherView { step: FetchStep::Done, ..state },
            success_action(),
        ),
        FetchStep::Done => (state, FetchActionView::Stop),
        FetchStep::Failed => (state, FetchActionView::Stop),
    }
}

/// The step and action that follow a report. A failure ends the run at
/// once, with the step that failed and the cause as reported; a run that
/// is over stays over.
pub open spec fn fetch_step(state: FetcherView, report: StepReportView) -> (
    FetcherView,
    FetchActionView,
) {
    if state.step == FetchStep::Done || state.step == FetchStep::Failed {
        (state, FetchActionView::Stop)
    } else {
        match report {
            StepReportView::Failed { cause } => (
                FetcherView { step: FetchStep::Failed, ..state },
                FetchActionView::Fail { step: state.step, cause },
            ),
            StepReportView::Completed { listing } => after_completed(state, listing),
        }
    }
}

/// The first failure ends the run: the answer names the step that failed
/// and the cause as it was reported, and every later report is answered
/// with `Stop`.
pub proof fn lemma_failure_ends_fetch(state: FetcherView, cause: Seq<char>, later: StepReportView)
    requires
        state.step != FetchStep::Done,
        state.step != FetchStep::Failed,
    ensures
        fetch_step(state, StepReportView::Failed { cause }).0.step == FetchStep::Failed,
        fetch_step(state, StepReportView::Failed { cause }).1 == (FetchActionView::Fail {
            step: state.step,
            cause,
        }),
        fetch_step(fetch_step(state, StepReportView::Failed { cause }).0, later).1
            == FetchActionView::Stop,
{
}

/// Every entry of the archive's inner directory is moved to the place
/// with the same name one level up, in the order of the listing: while
/// entries are being moved, the step after a move that went through moves
/// the next entry, and the step after the last move leaves the moves
/// behind.
pub proof fn lemma_moves_follow_listing(state: FetcherView, listing: Seq<DirEntryView>)
    requires
        state.step == FetchStep::MoveFiles,
    ensures
        state.moved + 1 < state.children.len() ==> after_completed(state, listing).1
            == move_action(state.nested, state.children[state.moved as int + 1])
            && after_completed(state, listing).0.moved == state.moved + 1,
        state.moved + 1 >= state.children.len() ==> after_completed(state, listing).0.step
            == FetchStep::CreateYtdlpDir,
{
}

/// A run reports success only from the cleanup: with no directory of the
/// archive's naming left in the install directory, or after the removal
/// of that directory went through.
pub proof fn lemma_success_follows_cleanup(state: FetcherView, report: StepReportView)
    requires
        fetch_step(state, report).1 == success_action(),
    ensures
        state.step == FetchStep::FindLeftover || state.step == FetchStep::RemoveLeftover,
        report is Completed,
        state.step == FetchStep::FindLeftover ==> first_wanted(
            report->listing,
            Wanted::Leftover,
        ) is None,
{
}

/// The step that a run has reached and the actions that it has named on
/// its way, from the state `state` through `reports`.
pub open spec fn fetch_run(state: FetcherView, reports: Seq<StepReportView>) -> (
    FetcherView,
    Seq<FetchActionView>,
)
    decreases reports.len(),
{
    if reports.len() == 0 {
        (state, Seq::empty())
    } else {
        let step = fetch_step(state, reports[0]);
        let rest = fetch_run(step.0, reports.drop_first());
        (rest.0, seq![step.1] + rest.1)
    }
}

/// Whether `step` lies behind the moves: every entry of the inner
/// directory has been moved.
pub open spec fn past_moves(step: FetchStep) -> bool {
    ||| step == FetchStep::CreateYtdlpDir
    ||| step == FetchStep::DownloadYtdlp
    ||| past_download(step)
}

/// Whether `step` lies behind the second download: the removal of the
/// archive has been named.
pub open spec fn past_download(step: FetchStep) -> bool {
    ||| step == FetchStep::RemoveArchive
    ||| step == FetchStep::FindLeftover
    ||| step == FetchStep::RemoveLeftover
    ||| step == FetchStep::Done
}

/// What the actions named so far hold, by the step that the run is at:
/// the moves of the entries up to the one in hand, of all entries once
/// the moves are over, and the removal of the archive once the second
/// download is over.
pub open spec fn named_so_far(state: FetcherView, named: Seq<FetchActionView>) -> bool {
    &&& state.step == FetchStep::MoveFiles ==> state.moved < state.children.len() && forall|k: int|
        0 <= k <= state.moved ==> named.contains(
            move_action(state.nested, #[trigger] state.children[k]),
        )
    &&& past_moves(state.step) ==> forall|k: int|
        0 <= k < state.children.len() ==> named.contains(
            move_action(state.nested, #[trigger] state.children[k]),
        )
    &&& past_download(state.step) ==> named.contains(
        FetchActionView::RemoveFile { path: seq![ARCHIVE_FILE@] },
    )
}

/// One step keeps `named_so_far`.
pub proof fn lemma_step_keeps_named(
    state: FetcherView,
    named: Seq<FetchActionView>,
    report: StepReportView,
)
    requires
        named_so_far(state, named),
    ensures
        named_so_far(fetch_step(state, report).0, named.push(fetch_step(state, report).1)),
{
    let next = fetch_step(state, report).0;
    let action = fetch_step(state, report).1;
    let after = named.push(action);
    assert(after.last() == action);
    assert forall|a: FetchActionView| named.contains(a) implies after.contains(a) by {
        let i = choose|i: int| 0 <= i < named.len() && named[i] == a;
        assert(after[i] == a);
    }
    assert(after.contains(action)) by {
        assert(after[after.len() - 1] == action);
    }
    if state.step == FetchStep::ListExtracted && report is Completed {
        let listing = report->listing;
        if listing.len() > 0 {
            assert(next.children[0] == listing[0].name);
        }
    }
    if state.step == FetchStep::MoveFiles && report is Completed {
        if state.moved + 1 < state.children.len() {
            assert forall|k: int| 0 <= k <= next.moved implies after.contains(
                move_action(next.nested, #[trigger] next.children[k]),
            ) by {
                if k <= state.moved {
                    assert(named.contains(move_action(state.nested, state.children[k])));
                }
            }
        } else {
            assert forall|k: int| 0 <= k < next.children.len() implies after.contains(
                move_action(next.nested, #[trigger] next.children[k]),
            ) by {
                assert(named.contains(move_action(state.nested, state.children[k])));
            }
        }
    }
}

/// A whole run keeps `named_so_far`.
pub proof fn lemma_run_keeps_named(
    state: FetcherView,
    named: Seq<FetchActionView>,
    reports: Seq<StepReportView>,
)
    requires
        named_so_far(state, named),
    ensures
        named_so_far(fetch_run(state, reports).0, named + fetch_run(state, reports).1),
    decreases reports.len(),
{
    if reports.len() == 0 {
        assert(named + fetch_run(state, reports).1 =~= named);
    } else {
        let step = fetch_step(state, reports[0]);
        lemma_step_keeps_named(state, named, reports[0]);
        lemma_run_keeps_named(step.0, named.push(step.1), reports.drop_first());
        assert(named.push(step.1) + fetch_run(step.0, reports.drop_first()).1 =~= named
            + fetch_run(state, reports).1);
    }
}

/// Of a run that ended in success, whatever was reported on its way: the
/// actions that it named hold the move of every entry of the archive's
/// inner directory to the place of the same name one level up, and the
/// removal of the downloaded archive.
pub proof fn lemma_success_flattens_and_cleans(reports: Seq<StepReportView>, k: int)
    requires
        fetch_run(first_state(), reports).0.step == FetchStep::Done,
        0 <= k < fetch_run(first_state(), reports).0.children.len(),
    ensures
        (seq![first_action()] + fetch_run(first_state(), reports).1).contains(
            FetchActionView::RemoveFile { path: seq![ARCHIVE_FILE@] },
        ),
        (seq![first_action()] + fetch_run(first_state(), reports).1).contains(
            FetchActionView::Rename {
                from: seq![
                    FFMPEG_DIR@,
                    fetch_run(first_state(), reports).0.nested,
                    fetch_run(first_state(), reports).0.children[k],
                ],
                to: seq![FFMPEG_DIR@, fetch_run(first_state(), reports).0.children[k]],
            },
        ),
{
    lemma_run_keeps_named(first_state(), seq![first_action()], reports);
}

/// A place of one component.
fn place1(a: &str) -> (place: Vec<String>)
    ensures
        texts(place@) == seq![a@],
{
    let mut place: Vec<String> = Vec::new();
    assert(texts(place@) =~= Seq::<Seq<char>>::empty());
    push_text(&mut place, a);
    assert(texts(place@) =~= seq![a@]);
    place
}

/// A place of two components.
fn place2(a: &str, b: &str) -> (place: Vec<String>)
    ensures
        texts(place@) == seq![a@, b@],
{
    let mut place = place1(a);
    push_text(&mut place, b);
    assert(texts(place@) =~= seq![a@, b@]);
    place
}

/// A place of three components.
fn place3(a: &str, b: &str, c: &str) -> (place: Vec<String>)
    ensures
        texts(place@) == seq![a@, b@, c@],
{
    let mut place = place2(a, b);
    push_text(&mut place, c);
    assert(texts(place@) =~= seq![a@, b@, c@]);
    place
}

/// The action that moves the entry `child` of the inner directory up.
fn build_move(nested: &str, child: &str) -> (action: FetchAction)
    ensures
        action@ == move_action(nested@, child@),
{
    FetchAction::Rename { from: place3(FFMPEG_DIR, nested, child), to: place2(FFMPEG_DIR, child) }
}

/// The action that ends a run in success.
fn build_success() -> (action: FetchAction)
    ensures
        action@ == success_action(),
{
    FetchAction::Succeed {
        response: DownloadDepsResponse {
            ffmpeg: Deps { success: true, message: String::from_str(FFMPEG_DONE) },
            ytdlp: Deps { success: true, message: String::from_str(YTDLP_DONE) },
        },
    }
}

/// The names of a listing's entries, in order.
fn names_of(listing: &Vec<DirEntry>) -> (names: Vec<String>)
    ensures
        texts(names@) == entry_names(entries_view(listing@)),
{
    let mut names: Vec<String> = Vec::new();
    let mut i: usize = 0;
    while i < listing.len()
        invariant
            i <= listing.len(),
            texts(names@) == entry_names(entries_view(listing@)).take(i as int),
        decreases listing.len() - i,
    {
        push_text(&mut names, listing[i].name.as_str());
        assert(texts(names@) =~= entry_names(entries_view(listing@)).take(i + 1));
        i += 1;
    }
    assert(entry_names(entries_view(listing@)).take(i as int) =~= entry_names(
        entries_view(listing@),
    ));
    names
}

/// One run of the fetcher.
pub struct Fetcher {
    step: FetchStep,
    nested: String,
    children: Vec<String>,
    moved: usize,
}

impl View for Fetcher {
    type V = FetcherView;

    closed spec fn view(&self) -> FetcherView {
        FetcherView {
            step: self.step,
            nested: self.nested@,
            children: texts(self.children@),
            moved: self.moved as nat,
        }
    }
}

impl Fetcher {
    /// Begins a run: the run's state and the first action to perform.
    pub fn start() -> (run: (Fetcher, FetchAction))
        ensures
            run.0@ == first_state(),
            run.1@ == first_action(),
    {
        let fetcher = Fetcher {
            step: FetchStep::CreateFfmpegDir,
            nested: String::new(),
            children: Vec::new(),
            moved: 0,
        };
        assert(texts(fetcher.children@) =~= Seq::<Seq<char>>::empty());
        (fetcher, FetchAction::CreateDir { path: place1(FFMPEG_DIR) })
    }

    /// The step that the run waits at.
    pub fn step(&self) -> (step: FetchStep)
        ensures
            step == self@.step,
    {
        self.step
    }

    /// Whether the run is over.
    pub fn is_over(&self) -> (over: bool)
        ensures
            over == (self@.step == FetchStep::Done || self@.step == FetchStep::Failed),
    {
        match self.step {
            FetchStep::Done => true,
            FetchStep::Failed => true,
            _ => false,
        }
    }

    /// Takes the listing of the install directory after extraction and
    /// looks for the archive's inner directory in it.
    fn found_extracted(&mut self, listing: Vec<DirEntry>) -> (action: FetchAction)
        requires
            old(self)@.step == FetchStep::FindExtracted,
        ensures
            (final(self)@, action@) == after_completed(old(self)@, entries_view(listing@)),
    {
        match find_entry(&listing, Wanted::Directory) {
            Some(i) => {
                assert(entries_view(listing@)[i as int] == listing@[i as int]@);
                let name = listing[i].name.clone();
                let action = FetchAction::List { path: place2(FFMPEG_DIR, name.as_str()) };
                self.step = FetchStep::ListExtracted;
                self.nested = name;
                action
            },
            None => {
                self.step = FetchStep::Failed;
                FetchAction::Fail {
                    step: FetchStep::FindExtracted,
                    cause: String::from_str(NO_EXTRACTED_DIR),
                }
            },
        }
    }

    /// Takes the listing of the inner directory and begins to move its
    /// entries up.
    fn listed_extracted(&mut self, listing: Vec<DirEntry>) -> (action: FetchAction)
        requires
            old(self)@.step == FetchStep::ListExtracted,
        ensures
            (final(self)@, action@) == after_completed(old(self)@, entries_view(listing@)),
    {
        let names = names_of(&listing);
        proof {
            assert(texts(names@).len() == names@.len());
            assert(entry_names(entries_view(listing@)).len() == entries_view(listing@).len());
            assert(entries_view(listing@).len() == listing@.len());
        }
        if names.len() > 0 {
            assert(entry_names(entries_view(listing@))[0] == entries_view(listing@)[0].name);
            assert(texts(names@)[0] == names@[0]@);
            let action = build_move(self.nested.as_str(), names[0].as_str());
            self.step = FetchStep::MoveFiles;
            self.children = names;
            self.moved = 0;
            action
        } else {
            self.step = FetchStep::CreateYtdlpDir;
            self.children = names;
            self.moved = 0;
            FetchAction::CreateDir { path: place1(YTDLP_DIR) }
        }
    }

    /// Goes on to the next entry to move, or past the moves.
    fn moved_file(&mut self) -> (action: FetchAction)
        requires
            old(self)@.step == FetchStep::MoveFiles,
        ensures
            forall|listing: Seq<DirEntryView>|
                (final(self)@, action@) == #[trigger] after_completed(old(self)@, listing),
    {
        if self.moved < self.children.len() && self.moved + 1 < self.children.len() {
            let next = self.moved + 1;
            let action = build_move(self.nested.as_str(), self.children[next].as_str());
            self.moved = next;
            action
        } else {
            self.step = FetchStep::CreateYtdlpDir;
            FetchAction::CreateDir { path: place1(YTDLP_DIR) }
        }
    }

    /// Takes the listing of the install directory after the moves and
    /// looks for what the archive left behind.
    fn found_leftover(&mut self, listing: Vec<DirEntry>) -> (action: FetchAction)
        requires
            old(self)@.step == FetchStep::FindLeftover,
        ensures
            (final(self)@, action@) == after_completed(old(self)@, entries_view(listing@)),
    {
        match find_extracted_ffmpeg_dir(&listing) {
            Some(i) => {
                assert(entries_view(listing@)[i as int] == listing@[i as int]@);
                let action = FetchAction::RemoveDir {
                    path: place2(FFMPEG_DIR, listing[i].name.as_str()),
                };
                self.step = FetchStep::RemoveLeftover;
                action
            },
            None => {
                self.step = FetchStep::Done;
                build_success()
            },
        }
    }

    /// Goes on after a step that went through.
    fn completed(&mut self, listing: Vec<DirEntry>) -> (action: FetchAction)
        ensures
            (final(self)@, action@) == after_completed(old(self)@, entries_view(listing@)),
    {
        match self.step {
            FetchStep::CreateFfmpegDir => {
                self.step = FetchStep::DownloadFfmpeg;
                FetchAction::Download {
                    url: String::from_str(FFMPEG_URL),
                    binary: false,
                    path: place1(ARCHIVE_FILE),
                    timeout_secs: DOWNLOAD_TIMEOUT_SECS,
                }
            },
            FetchStep::DownloadFfmpeg => {
                self.step = FetchStep::ExtractFfmpeg;
                FetchAction::Extract { archive: place1(ARCHIVE_FILE), into: place1(FFMPEG_DIR) }
            },
            FetchStep::ExtractFfmpeg => {
                self.step = FetchStep::FindExtracted;
                FetchAction::List { path: place1(FFMPEG_DIR) }
            },
            FetchStep::FindExtracted => self.found_extracted(listing),
            FetchStep::ListExtracted => self.listed_extracted(listing),
            FetchStep::MoveFiles => self.moved_file(),
            FetchStep::CreateYtdlpDir => {
                self.step = FetchStep::DownloadYtdlp;
                FetchAction::Download {
                    url: String::from_str(YTDLP_URL),
                    binary: true,
                    path: place2(YTDLP_DIR, YTDLP_FILE),
                    timeout_secs: DOWNLOAD_TIMEOUT_SECS,
                }
            },
            FetchStep::DownloadYtdlp => {
                self.step = FetchStep::RemoveArchive;
                FetchAction::RemoveFile { path: place1(ARCHIVE_FILE) }
            },
            FetchStep::RemoveArchive => {
                self.step = FetchStep::FindLeftover;
                FetchAction::List { path: place1(FFMPEG_DIR) }
            },
            FetchStep::FindLeftover => self.found_leftover(listing),
            FetchStep::RemoveLeftover => {
                self.step = FetchStep::Done;
                build_success()
            },
            FetchStep::Done => FetchAction::Stop,
            FetchStep::Failed => FetchAction::Stop,
        }
    }

    /// Takes the report of the action that was named last and names the
    /// next one, as `fetch_step` says.
    pub fn advance(&mut self, report: StepReport) -> (action: FetchAction)
        ensures
            (final(self)@, action@) == fetch_step(old(self)@, report@),
    {
        if self.is_over() {
            return FetchAction::Stop;
        }
        match report {
            StepReport::Failed { cause } => {
                let step = self.step;
                self.step = FetchStep::Failed;
                FetchAction::Fail { step, cause }
            },
            StepReport::Completed { listing } => self.completed(listing),
        }
    }
}

} // verus!
