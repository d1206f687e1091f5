//! What is done with each line of the downloader's output, and the shape
//! of the progress events of dependency provisioning.

use vstd::prelude::*;
use vstd::string::*;

use crate::text::{contains, has_substring};

verus! {

/// Event that carries one progress line of a transfer to the caller.
pub const DOWNLOAD_PROGRESS_EVENT: &'static str = "download_progress";

/// Event that reports the success of a transfer.
pub const DOWNLOAD_COMPLETE_EVENT: &'static str = "download_complete";

/// Event that reports the failure of a job, with its message.
pub const DOWNLOAD_ERROR_EVENT: &'static str = "download_error";

/// Event that carries the progress of dependency provisioning.
pub const DEPS_PROGRESS_EVENT: &'static str = "ytdlp_deps_progress";

/// Directory of the log, below the application's directory.
pub const LOG_DIR: &'static str = "logs";

/// File that the downloader's output is logged to, truncated at the
/// start of every job.
pub const LOG_FILE: &'static str = "ytdlp.log";

/// Number of lines that may wait between the readers of the two output
/// streams and the one consumer.
pub const LINE_QUEUE_CAPACITY: usize = 100;

/// Whether a line has the shape of a download-progress line: it carries
/// the download tag, a size marker and an ETA marker.
pub open spec fn is_progress(line: Seq<char>) -> bool {
    &&& has_substring(line, "[download]"@)
    &&& has_substring(line, "of"@)
    &&& has_substring(line, "ETA"@)
}

/// Whether `line` has the shape of a download-progress line.
pub fn is_progress_line(line: &str) -> (r: bool)
    ensures
        r == is_progress(line@),
{
    contains(line, "[download]") && contains(line, "of") && contains(line, "ETA")
}

/// What to do with one line of output.
#[derive(Debug, Clone, PartialEq, Eq)]
pub struct LineOutput {
    /// The bytes to append to the log: the line and a line feed.
    pub log: String,
    /// The line again where it is to be forwarded to the caller.
    pub progress: Option<String>,
}

/// Decides what happens to one line of the downloader's output. Every
/// line goes to the log, followed by a line feed; a line is forwarded to
/// the caller exactly when it has the shape of a progress line.
pub fn handle_line(line: &str) -> (out: LineOutput)
    ensures
        out.log@ == line@.push('\n'),
        out.progress is Some <==> is_progress(line@),
        out.progress matches Some(forwarded) ==> forwarded@ == line@,
{
    let mut log = String::from_str(line);
    log.push('\n');
    let progress = if is_progress_line(line) {
        Some(String::from_str(line))
    } else {
        None
    };
    LineOutput { log, progress }
}

/// The failure that a progress event reports.
#[derive(Debug, Clone, PartialEq, Eq)]
pub struct ProgressError {
    /// The step that failed.
    pub step: String,
    /// What went wrong.
    pub error: String,
}

/// One event on the provisioning progress channel.
#[derive(Debug, Clone, PartialEq, Eq)]
pub struct Progress {
    /// The step that the event is about.
    pub step: String,
    /// How far the pipeline is, in hundredths of a percent: 0 to 10000.
    pub percentage: u32,
    /// Estimated time left, as shown to the user.
    pub eta: String,
    /// Present where the event reports a failure.
    pub error: Option<ProgressError>,
}

/// A progress event, with its strings as text. The failure, where there
/// is one, is the pair of its step and its message.
pub struct ProgressView {
    pub step: Seq<char>,
    pub percentage: u32,
    pub eta: Seq<char>,
    pub error: Option<(Seq<char>, Seq<char>)>,
}

impl View for Progress {
    type V = ProgressView;

    open spec fn view(&self) -> ProgressView {
        ProgressView {
            step: self.step@,
            percentage: self.percentage,
            eta: self.eta@,
            error: match self.error {
                Some(e) => Some((e.step@, e.error@)),
                None => None,
            },
        }
    }
}

/// The views of a list of events, in order.
pub open spec fn events_view(events: Seq<Progress>) -> Seq<ProgressView> {
    events.map_values(|e: Progress| e@)
}

/// An empty list of events.
pub fn no_events() -> (events: Vec<Progress>)
    ensures
        events_view(events@) == Seq::<ProgressView>::empty(),
{
    let events: Vec<Progress> = Vec::new();
    assert(events_view(events@) =~= Seq::<ProgressView>::empty());
    events
}

/// The list that holds `event` alone.
pub fn one_event(event: Progress) -> (events: Vec<Progress>)
    ensures
        events_view(events@) == seq![event@],
{
    let mut events: Vec<Progress> = Vec::new();
    events.push(event);
    assert(events_view(events@) =~= seq![event@]);
    events
}

/// The largest percentage, in hundredths of a percent.
pub const FULL_PERCENTAGE: u32 = 10000;

/// ETA shown by an event that reports a failure.
pub const ERROR_ETA: &'static str = "0s";

/// The event that reports ordinary progress of `step`.
pub open spec fn step_event(step: Seq<char>, percentage: u32, eta: Seq<char>) -> ProgressView {
    ProgressView { step, percentage, eta, error: None }
}

/// The event that reports that `step` failed with `message`: no
/// percentage, no time left, and the failure attached.
pub open spec fn failure_event(step: Seq<char>, message: Seq<char>) -> ProgressView {
    ProgressView { step, percentage: 0, eta: ERROR_ETA@, error: Some((step, message)) }
}

/// Builds the event that reports ordinary progress of `step`.
pub fn emit_progress(step: &str, percentage: u32, eta: &str) -> (event: Progress)
    ensures
        event@ == step_event(step@, percentage, eta@),
{
    Progress {
        step: String::from_str(step),
        percentage,
        eta: String::from_str(eta),
        error: None,
    }
}

/// Builds the event that reports the failure of `step`.
pub fn emit_error(step: &str, error_message: &str) -> (event: Progress)
    ensures
        event@ == failure_event(step@, error_message@),
{
    let error = ProgressError {
        step: String::from_str(step),
        error: String::from_str(error_message),
    };
    Progress {
        step: String::from_str(step),
        percentage: 0,
        eta: String::from_str(ERROR_ETA),
        error: Some(error),
    }
}

} // verus!
