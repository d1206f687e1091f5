//! Download job supervisor: a single-flight guard around the steps of one
//! download.
//!
//! The supervisor runs no program itself. Each method takes what the
//! caller has learned from the previous step and answers with what to run
//! next, or with the error that ends the job. While a job is between
//! `submit` and its end the guard is set; whichever step ends the job also
//! clears the guard.

use vstd::prelude::*;
use vstd::string::*;

use crate::classify::{classify_checked, get_video_type, ClassificationError, VideoType};
use crate::download::{
    build_download_args,
    download_args,
    output_components,
    output_template,
    DownloadJob,
};
use crate::locator::{NotFound, Tool};
use crate::metadata::{
    build_metadata_args,
    get_video_info,
    info_holds,
    metadata_args,
    metadata_fields,
    MetadataError,
    VideoInfo,
};
use crate::paths::joined_all;
use crate::process::{Invocation, ProcessReport};
use crate::progress::{
    handle_line,
    is_progress,
    LineOutput,
    DOWNLOAD_COMPLETE_EVENT,
    DOWNLOAD_ERROR_EVENT,
};
use crate::text::{concat2, concat3, texts};

verus! {

/// Why a job ended without a download, or why a call was refused.
#[derive(Debug, Clone, PartialEq, Eq)]
pub enum DownloadError {
    /// Another job holds the guard.
    AlreadyInProgress,
    /// The URL could not be classified.
    Classification(ClassificationError),
    /// The URL is a playlist, which no job can download.
    UnsupportedContent,
    /// A tool is missing or does not run.
    NotFound(NotFound),
    /// The metadata query failed, or its answer was short.
    Metadata(MetadataError),
    /// The downloader could not be started.
    ProcessSpawnFailed {
        /// The binary that was to run.
        binary: String,
        /// The operating system's reason.
        cause: String,
    },
    /// The downloader exited with a non-zero status.
    ProcessExitFailed {
        /// What the downloader left on its standard error.
        exit_info: String,
    },
    /// The call does not belong to the step that the job is at. Nothing
    /// was changed.
    OutOfTurn,
}

/// The sentence that tells the user what went wrong, and at which
/// stage: admission, locating the tools, the metadata query, or the
/// transfer.
pub open spec fn error_text(error: DownloadError) -> Seq<char> {
    match error {
        DownloadError::AlreadyInProgress => "Another download is already in progress"@,
        DownloadError::Classification(ClassificationError::UnrecognizedUrl) => "Invalid URL format"@,
        DownloadError::Classification(ClassificationError::PatternRejected) => "Invalid URL pattern"@,
        DownloadError::UnsupportedContent => "Playlist download is not supported yet"@,
        DownloadError::NotFound(missing) => match missing.tool {
            Tool::Ffmpeg => "Failed to execute ffmpeg"@,
            Tool::Ytdlp => "Failed to execute ytdlp"@,
        },
        DownloadError::Metadata(MetadataError::QueryFailed) => "Failed to get video info"@,
        DownloadError::Metadata(MetadataError::MetadataParseFailed) => "Video info is incomplete"@,
        DownloadError::ProcessSpawnFailed { binary, cause } => "Failed to start "@ + binary@ + ": "@
            + cause@,
        DownloadError::ProcessExitFailed { exit_info } => "Error downloading video: "@ + exit_info@,
        DownloadError::OutOfTurn => "Download step out of turn"@,
    }
}

/// The stage of a job at which an error arises.
#[derive(Debug, Clone, Copy, PartialEq, Eq, Structural)]
pub enum FailureStage {
    /// The submission was refused.
    Admission,
    /// A tool was not found.
    Locating,
    /// The metadata query or what was made of its answer.
    Metadata,
    /// The transfer itself.
    Transfer,
    /// A call out of turn; no job was touched.
    Protocol,
}

/// The stage at which `error` arises.
pub open spec fn error_stage(error: DownloadError) -> FailureStage {
    match error {
        DownloadError::AlreadyInProgress => FailureStage::Admission,
        DownloadError::Classification(_) => FailureStage::Admission,
        DownloadError::UnsupportedContent => FailureStage::Admission,
        DownloadError::NotFound(_) => FailureStage::Locating,
        DownloadError::Metadata(_) => FailureStage::Metadata,
        DownloadError::ProcessSpawnFailed { .. } => FailureStage::Transfer,
        DownloadError::ProcessExitFailed { .. } => FailureStage::Transfer,
        DownloadError::OutOfTurn => FailureStage::Protocol,
    }
}

/// The first character of an error's sentence and, of the sentences that
/// begin alike, the character that sets them apart tell the stage.
proof fn lemma_message_marks(error: DownloadError)
    ensures
        error_text(error).len() > 10,
        match error_stage(error) {
            FailureStage::Admission => error_text(error)[0] == 'A' || error_text(error)[0] == 'I'
                || error_text(error)[0] == 'P',
            FailureStage::Locating => error_text(error)[0] == 'F' && error_text(error)[10] == 'e',
            FailureStage::Metadata => error_text(error)[0] == 'V' || (error_text(error)[0] == 'F'
                && error_text(error)[10] == 'g'),
            FailureStage::Transfer => error_text(error)[0] == 'E' || (error_text(error)[0] == 'F'
                && error_text(error)[10] == 's'),
            FailureStage::Protocol => error_text(error)[0] == 'D',
        },
{
    reveal_strlit("Another download is already in progress");
    reveal_strlit("Invalid URL format");
    reveal_strlit("Invalid URL pattern");
    reveal_strlit("Playlist download is not supported yet");
    reveal_strlit("Failed to execute ffmpeg");
    reveal_strlit("Failed to execute ytdlp");
    reveal_strlit("Failed to get video info");
    reveal_strlit("Video info is incomplete");
    reveal_strlit("Failed to start ");
    reveal_strlit("Error downloading video: ");
    reveal_strlit("Download step out of turn");
}

/// The sentences of errors from different stages differ, whatever
/// causes they carry: the user can tell a failed metadata query from a
/// failed transfer, and either from a refused submission or a missing
/// tool.
pub proof fn lemma_messages_tell_stages_apart(one: DownloadError, other: DownloadError)
    requires
        error_stage(one) != error_stage(other),
    ensures
        error_text(one) != error_text(other),
{
    lemma_message_marks(one);
    lemma_message_marks(other);
}

impl DownloadError {
    /// The sentence that tells the user what went wrong.
    pub fn message(&self) -> (text: String)
        ensures
            text@ == error_text(*self),
    {
        match self {
            DownloadError::AlreadyInProgress => String::from_str(
                "Another download is already in progress",
            ),
            DownloadError::Classification(ClassificationError::UnrecognizedUrl) => String::from_str(
                "Invalid URL format",
            ),
            DownloadError::Classification(ClassificationError::PatternRejected) => String::from_str(
                "Invalid URL pattern",
            ),
            DownloadError::UnsupportedContent => String::from_str(
                "Playlist download is not supported yet",
            ),
            DownloadError::NotFound(missing) => match missing.tool {
                Tool::Ffmpeg => String::from_str("Failed to execute ffmpeg"),
                Tool::Ytdlp => String::from_str("Failed to execute ytdlp"),
            },
            DownloadError::Metadata(MetadataError::QueryFailed) => String::from_str(
                "Failed to get video info",
            ),
            DownloadError::Metadata(MetadataError::MetadataParseFailed) => String::from_str(
                "Video info is incomplete",
            ),
            DownloadError::ProcessSpawnFailed { binary, cause } => {
                let mut text = concat3("Failed to start ", binary.as_str(), ": ");
                text.append(cause.as_str());
                text
            },
            DownloadError::ProcessExitFailed { exit_info } => concat2(
                "Error downloading video: ",
                exit_info.as_str(),
            ),
            DownloadError::OutOfTurn => String::from_str("Download step out of turn"),
        }
    }
}

/// The event that ends a job for the caller: the completion event with
/// no message for a job that went through, the error event with the
/// error's sentence for one that did not.
pub fn terminal_event(outcome: &Result<bool, DownloadError>) -> (event: (
    &'static str,
    Option<String>,
))
    ensures
        outcome is Ok ==> event.0@ == DOWNLOAD_COMPLETE_EVENT@ && event.1 is None,
        *outcome matches Err(e) ==> {
            &&& event.0@ == DOWNLOAD_ERROR_EVENT@
            &&& event.1 matches Some(m)
            &&& m@ == error_text(e)
        },
{
    match outcome {
        Ok(_) => (DOWNLOAD_COMPLETE_EVENT, None),
        Err(e) => (DOWNLOAD_ERROR_EVENT, Some(e.message())),
    }
}

/// The step that the supervisor waits at.
#[derive(Debug, Clone, Copy, PartialEq, Eq, Structural)]
pub enum Phase {
    /// No job. The guard is clear.
    Idle,
    /// A job was admitted; the two tools are being located.
    Locating,
    /// The metadata query is running.
    Querying,
    /// The transfer is running and its output is being read.
    Transferring,
    /// The transfer's output has ended; its exit status is awaited.
    Exiting,
}

/// What a job carries between its steps.
enum Stage {
    Idle,
    Locating { job: DownloadJob, category: VideoType },
    Querying { job: DownloadJob, category: VideoType, ffmpeg_path: String, ytdlp_path: String },
    Transferring { ytdlp_path: String },
    Exiting { ytdlp_path: String },
}

/// The transfer to run, with what is known of the media.
#[derive(Debug, Clone, PartialEq, Eq)]
pub struct Transfer {
    /// The downloader and its argument vector.
    pub invocation: Invocation,
    /// The metadata, for the caller to show before the transfer begins.
    pub info: VideoInfo,
    /// The output template that the argument vector holds.
    pub output: String,
}

/// What becomes of a submission to an idle supervisor, by the
/// classification of its URL: the category under which it is admitted, or
/// the error that refuses it.
pub open spec fn admission(classified: Result<VideoType, ClassificationError>) -> Result<
    VideoType,
    DownloadError,
> {
    match classified {
        Err(e) => Err(DownloadError::Classification(e)),
        Ok(VideoType::Playlist) => Err(DownloadError::UnsupportedContent),
        Ok(category) => Ok(category),
    }
}

/// What `submit` answers, by the guard and the classification of the URL.
pub open spec fn submit_result(busy: bool, classified: Result<VideoType, ClassificationError>)
    -> Result<(), DownloadError> {
    if busy {
        Err(DownloadError::AlreadyInProgress)
    } else {
        match admission(classified) {
            Ok(_) => Ok(()),
            Err(e) => Err(e),
        }
    }
}

/// The guard after `submit`: set where it was set, and where the job was
/// admitted.
pub open spec fn guard_after_submit(
    busy: bool,
    classified: Result<VideoType, ClassificationError>,
) -> bool {
    busy || admission(classified) is Ok
}

/// What `finished` answers for the report of the transfer.
pub open spec fn transfer_result(binary: String, report: ProcessReport) -> Result<
    bool,
    DownloadError,
> {
    match report {
        ProcessReport::SpawnFailed { cause } => Err(
            DownloadError::ProcessSpawnFailed { binary, cause },
        ),
        ProcessReport::Exited { success, stdout, stderr } => if success {
            Ok(true)
        } else {
            Err(DownloadError::ProcessExitFailed { exit_info: stderr })
        },
    }
}

/// The step after `submit`, by the step before and the classification of
/// the URL.
pub open spec fn phase_after_submit(
    phase: Phase,
    classified: Result<VideoType, ClassificationError>,
) -> Phase {
    if phase != Phase::Idle {
        phase
    } else if admission(classified) is Ok {
        Phase::Locating
    } else {
        Phase::Idle
    }
}

/// The step after `tools_located`, by the step before and whether each
/// tool was found.
pub open spec fn phase_after_tools(phase: Phase, ffmpeg_found: bool, ytdlp_found: bool) -> Phase {
    if phase != Phase::Locating {
        phase
    } else if ffmpeg_found && ytdlp_found {
        Phase::Querying
    } else {
        Phase::Idle
    }
}

/// The step after `metadata_received`, by the step before and whether the
/// call answered with a transfer.
pub open spec fn phase_after_metadata(phase: Phase, transfer_ready: bool) -> Phase {
    if phase != Phase::Querying {
        phase
    } else if transfer_ready {
        Phase::Transferring
    } else {
        Phase::Idle
    }
}

/// The step after `stream_ended`, by the step before.
pub open spec fn phase_after_stream(phase: Phase) -> Phase {
    if phase != Phase::Transferring {
        phase
    } else {
        Phase::Exiting
    }
}

/// The step after `finished`, by the step before.
pub open spec fn phase_after_finish(phase: Phase) -> Phase {
    if phase != Phase::Exiting {
        phase
    } else {
        Phase::Idle
    }
}

/// A second submission while a job is active is refused with
/// `AlreadyInProgress`, whatever its URL, and leaves the active job's step
/// and the guard as they were.
pub proof fn lemma_second_submission_rejected(
    first: Result<VideoType, ClassificationError>,
    second: Result<VideoType, ClassificationError>,
)
    requires
        admission(first) is Ok,
    ensures
        submit_result(false, first) is Ok,
        guard_after_submit(false, first),
        phase_after_submit(Phase::Idle, first) == Phase::Locating,
        submit_result(true, second) == Err::<(), DownloadError>(DownloadError::AlreadyInProgress),
        guard_after_submit(true, second),
        phase_after_submit(Phase::Locating, second) == Phase::Locating,
{
}

/// A URL classified as a playlist is refused with `UnsupportedContent`,
/// and the supervisor stays idle. Nothing is handed out to run: the
/// steps that answer with a program to run are out of turn for an idle
/// supervisor and leave it idle.
pub proof fn lemma_playlist_rejected(ffmpeg_found: bool, ytdlp_found: bool, transfer_ready: bool)
    ensures
        submit_result(false, Ok(VideoType::Playlist)) == Err::<(), DownloadError>(
            DownloadError::UnsupportedContent,
        ),
        !guard_after_submit(false, Ok(VideoType::Playlist)),
        phase_after_submit(Phase::Idle, Ok(VideoType::Playlist)) == Phase::Idle,
        phase_after_tools(Phase::Idle, ffmpeg_found, ytdlp_found) == Phase::Idle,
        phase_after_metadata(Phase::Idle, transfer_ready) == Phase::Idle,
{
}

/// The guard is clear before a first submission and clear again once the
/// job's last step has been taken, whichever step ended the job: a refused
/// submission, a missing tool, a failed metadata query, or the end of the
/// transfer with any exit status.
pub proof fn lemma_guard_clear_after_job(
    classified: Result<VideoType, ClassificationError>,
    ffmpeg_found: bool,
    ytdlp_found: bool,
    transfer_ready: bool,
)
    ensures
        phase_after_finish(
            phase_after_stream(
                phase_after_metadata(
                    phase_after_tools(
                        phase_after_submit(Phase::Idle, classified),
                        ffmpeg_found,
                        ytdlp_found,
                    ),
                    transfer_ready,
                ),
            ),
        ) == Phase::Idle,
{
}

/// The exit status is taken only after the output has ended: while the
/// transfer's output is still being read, `finished` is out of turn and
/// leaves the job where it is.
pub proof fn lemma_exit_after_output()
    ensures
        phase_after_finish(Phase::Transferring) == Phase::Transferring,
        phase_after_finish(phase_after_stream(Phase::Transferring)) == Phase::Idle,
{
}

/// The single-flight guard and the job that holds it.
pub struct Supervisor {
    stage: Stage,
}

impl Supervisor {
    /// The step that the supervisor waits at.
    pub closed spec fn phase(&self) -> Phase {
        match self.stage {
            Stage::Idle => Phase::Idle,
            Stage::Locating { .. } => Phase::Locating,
            Stage::Querying { .. } => Phase::Querying,
            Stage::Transferring { .. } => Phase::Transferring,
            Stage::Exiting { .. } => Phase::Exiting,
        }
    }

    /// The guard: whether a job is between its submission and its end.
    pub open spec fn in_progress(&self) -> bool {
        self.phase() != Phase::Idle
    }

    /// The job, while its tools are located and its metadata queried.
    pub closed spec fn job(&self) -> DownloadJob {
        match self.stage {
            Stage::Locating { job, .. } => job,
            Stage::Querying { job, .. } => job,
            _ => arbitrary(),
        }
    }

    /// The category of the job's URL, while its tools are located and its
    /// metadata queried.
    pub closed spec fn category(&self) -> VideoType {
        match self.stage {
            Stage::Locating { category, .. } => category,
            Stage::Querying { category, .. } => category,
            _ => arbitrary(),
        }
    }

    /// The transcoder's path, once located.
    pub closed spec fn ffmpeg_path(&self) -> String {
        match self.stage {
            Stage::Querying { ffmpeg_path, .. } => ffmpeg_path,
            _ => arbitrary(),
        }
    }

    /// The downloader's path, once located.
    pub closed spec fn ytdlp_path(&self) -> String {
        match self.stage {
            Stage::Querying { ytdlp_path, .. } => ytdlp_path,
            Stage::Transferring { ytdlp_path } => ytdlp_path,
            Stage::Exiting { ytdlp_path } => ytdlp_path,
            _ => arbitrary(),
        }
    }

    /// A supervisor with no job: the guard is clear.
    pub fn new() -> (supervisor: Supervisor)
        ensures
            supervisor.phase() == Phase::Idle,
    {
        Supervisor { stage: Stage::Idle }
    }

    /// Whether a job is between its submission and its end.
    pub fn is_in_progress(&self) -> (busy: bool)
        ensures
            busy == self.in_progress(),
    {
        match self.stage {
            Stage::Idle => false,
            _ => true,
        }
    }

    /// The step that the supervisor waits at.
    pub fn current_phase(&self) -> (phase: Phase)
        ensures
            phase == self.phase(),
    {
        match self.stage {
            Stage::Idle => Phase::Idle,
            Stage::Locating { .. } => Phase::Locating,
            Stage::Querying { .. } => Phase::Querying,
            Stage::Transferring { .. } => Phase::Transferring,
            Stage::Exiting { .. } => Phase::Exiting,
        }
    }

    /// Submits a job whose URL has been classified.
    ///
    /// While another job holds the guard the answer is `AlreadyInProgress`
    /// and nothing changes. Otherwise the guard is taken, and kept exactly
    /// when the job is admitted: a URL that was not classified, or that is
    /// a playlist, is refused before anything is run, and the guard is
    /// clear again when the call returns.
    pub fn submit_classified(
        &mut self,
        job: DownloadJob,
        classified: Result<VideoType, ClassificationError>,
    ) -> (r: Result<(), DownloadError>)
        ensures
            r == submit_result(old(self).in_progress(), classified),
            final(self).in_progress() == guard_after_submit(old(self).in_progress(), classified),
            final(self).phase() == phase_after_submit(old(self).phase(), classified),
            old(self).in_progress() ==> *final(self) == *old(self),
            !old(self).in_progress() && r is Ok ==> final(self).phase() == Phase::Locating
                && final(self).job() == job && admission(classified) == Ok::<
                VideoType,
                DownloadError,
            >(final(self).category()),
    {
        if self.is_in_progress() {
            return Err(DownloadError::AlreadyInProgress);
        }
        match classified {
            Err(e) => Err(DownloadError::Classification(e)),
            Ok(VideoType::Playlist) => Err(DownloadError::UnsupportedContent),
            Ok(category) => {
                self.stage = Stage::Locating { job, category };
                Ok(())
            },
        }
    }

    /// Submits a job: classifies its URL and goes on as
    /// `submit_classified` does. The URL is not looked at while another
    /// job holds the guard.
    pub fn submit(&mut self, job: DownloadJob) -> (r: Result<(), DownloadError>)
        ensures
            old(self).in_progress() ==> r == Err::<(), DownloadError>(
                DownloadError::AlreadyInProgress,
            ) && *final(self) == *old(self),
            !old(self).in_progress() ==> r == submit_result(false, classify_checked(job.url@))
                && final(self).in_progress() == guard_after_submit(
                false,
                classify_checked(job.url@),
            ),
            final(self).phase() == phase_after_submit(
                old(self).phase(),
                classify_checked(job.url@),
            ),
            r is Ok ==> final(self).phase() == Phase::Locating && final(self).job() == job
                && classify_checked(job.url@) == Ok::<VideoType, ClassificationError>(
                final(self).category(),
            ),
    {
        if self.is_in_progress() {
            return Err(DownloadError::AlreadyInProgress);
        }
        let classified = get_video_type(job.url.as_str());
        self.submit_classified(job, classified)
    }

    /// Takes the outcome of locating the two tools.
    ///
    /// Out of turn unless the job waits for it. A tool that was not found
    /// ends the job, the transcoder being looked at first. With both in
    /// place the answer is the metadata query to run: the downloader with
    /// the arguments of `metadata_args`.
    pub fn tools_located(
        &mut self,
        ffmpeg: Result<String, NotFound>,
        ytdlp: Result<String, NotFound>,
    ) -> (r: Result<Invocation, DownloadError>)
        ensures
            final(self).phase() == phase_after_tools(old(self).phase(), ffmpeg is Ok, ytdlp is Ok),
            old(self).phase() != Phase::Locating ==> r == Err::<Invocation, DownloadError>(
                DownloadError::OutOfTurn,
            ) && *final(self) == *old(self),
            old(self).phase() == Phase::Locating ==> match (ffmpeg, ytdlp) {
                (Err(missing), _) => r == Err::<Invocation, DownloadError>(
                    DownloadError::NotFound(missing),
                ) && final(self).phase() == Phase::Idle,
                (Ok(_), Err(missing)) => r == Err::<Invocation, DownloadError>(
                    DownloadError::NotFound(missing),
                ) && final(self).phase() == Phase::Idle,
                (Ok(ffmpeg_path), Ok(ytdlp_path)) => {
                    &&& final(self).phase() == Phase::Querying
                    &&& final(self).job() == old(self).job()
                    &&& final(self).category() == old(self).category()
                    &&& final(self).ffmpeg_path() == ffmpeg_path
                    &&& final(self).ytdlp_path() == ytdlp_path
                    &&& r matches Ok(query)
                    &&& query.binary@ == ytdlp_path@
                    &&& texts(query.args@) == metadata_args(old(self).job().url@, ffmpeg_path@)
                },
            },
    {
        let mut stage = Stage::Idle;
        core::mem::swap(&mut self.stage, &mut stage);
        match stage {
            Stage::Locating { job, category } => {
                let ffmpeg_path = match ffmpeg {
                    Ok(path) => path,
                    Err(missing) => {
                        return Err(DownloadError::NotFound(missing));
                    },
                };
                let ytdlp_path = match ytdlp {
                    Ok(path) => path,
                    Err(missing) => {
                        return Err(DownloadError::NotFound(missing));
                    },
                };
                let args = build_metadata_args(job.url.as_str(), ffmpeg_path.as_str());
                let query = Invocation { binary: ytdlp_path.clone(), args };
                self.stage = Stage::Querying { job, category, ffmpeg_path, ytdlp_path };
                Ok(query)
            },
            other => {
                self.stage = other;
                Err(DownloadError::OutOfTurn)
            },
        }
    }

    /// Takes the report of the metadata query.
    ///
    /// Out of turn unless the job waits for it. A failed query and a
    /// short answer each end the job. In every other case, which is
    /// whenever the query succeeded and answered with four fields or
    /// more, the answer is the transfer to run: the downloader with the
    /// arguments of `download_args`, built on the output template that
    /// comes with it, which is the job's directory with the components of
    /// `output_components` joined onto it.
    pub fn metadata_received(&mut self, report: &ProcessReport) -> (r: Result<
        Transfer,
        DownloadError,
    >)
        ensures
            final(self).phase() == phase_after_metadata(old(self).phase(), r is Ok),
            old(self).phase() != Phase::Querying ==> r == Err::<Transfer, DownloadError>(
                DownloadError::OutOfTurn,
            ) && *final(self) == *old(self),
            old(self).phase() == Phase::Querying ==> match r {
                Ok(transfer) => {
                    &&& report.succeeded()
                    &&& info_holds(transfer.info, metadata_fields(report->stdout@))
                    &&& final(self).phase() == Phase::Transferring
                    &&& final(self).ytdlp_path() == old(self).ytdlp_path()
                    &&& transfer.invocation.binary@ == old(self).ytdlp_path()@
                    &&& transfer.output@ == joined_all(
                        old(self).job().path@,
                        output_components(
                            metadata_fields(report->stdout@)[0],
                            old(self).job().unique_folders,
                        ),
                    )
                    &&& texts(transfer.invocation.args@) == download_args(
                        old(self).job().format,
                        old(self).category(),
                        old(self).ffmpeg_path()@,
                        transfer.output@,
                        old(self).job().download_thumbnail,
                        old(self).job().write_url_link,
                        old(self).job().url@,
                    )
                },
                Err(DownloadError::Metadata(MetadataError::QueryFailed)) => !report.succeeded()
                    && final(self).phase() == Phase::Idle,
                Err(DownloadError::Metadata(MetadataError::MetadataParseFailed)) => {
                    &&& report.succeeded()
                    &&& metadata_fields(report->stdout@).len() < 4
                    &&& final(self).phase() == Phase::Idle
                },
                Err(_) => false,
            },
    {
        let mut stage = Stage::Idle;
        core::mem::swap(&mut self.stage, &mut stage);
        match stage {
            Stage::Querying { job, category, ffmpeg_path, ytdlp_path } => {
                let info = match get_video_info(report) {
                    Ok(info) => info,
                    Err(e) => {
                        return Err(DownloadError::Metadata(e));
                    },
                };
                let output = output_template(
                    job.path.as_str(),
                    info.title.as_str(),
                    job.unique_folders,
                );
                let args = build_download_args(
                    job.format,
                    category,
                    ffmpeg_path.as_str(),
                    output.as_str(),
                    job.download_thumbnail,
                    job.write_url_link,
                    job.url.as_str(),
                );
                let invocation = Invocation { binary: ytdlp_path.clone(), args };
                self.stage = Stage::Transferring { ytdlp_path };
                Ok(Transfer { invocation, info, output })
            },
            other => {
                self.stage = other;
                Err(DownloadError::OutOfTurn)
            },
        }
    }

    /// Decides what happens to one line of the transfer's output, as
    /// `handle_line` does. Nothing unless the transfer's output is being
    /// read.
    pub fn line_received(&self, line: &str) -> (r: Option<LineOutput>)
        ensures
            r is Some <==> self.phase() == Phase::Transferring,
            r matches Some(out) ==> {
                &&& out.log@ == line@.push('\n')
                &&& out.progress is Some <==> is_progress(line@)
                &&& out.progress matches Some(forwarded) ==> forwarded@ == line@
            },
    {
        match self.stage {
            Stage::Transferring { .. } => Some(handle_line(line)),
            _ => None,
        }
    }

    /// Takes note that the transfer's output has ended: every line has
    /// been handed to `line_received`. Out of turn unless the output is
    /// being read.
    pub fn stream_ended(&mut self) -> (r: Result<(), DownloadError>)
        ensures
            final(self).phase() == phase_after_stream(old(self).phase()),
            old(self).phase() != Phase::Transferring ==> r == Err::<(), DownloadError>(
                DownloadError::OutOfTurn,
            ) && *final(self) == *old(self),
            old(self).phase() == Phase::Transferring ==> r is Ok && final(self).ytdlp_path()
                == old(self).ytdlp_path(),
    {
        let mut stage = Stage::Idle;
        core::mem::swap(&mut self.stage, &mut stage);
        match stage {
            Stage::Transferring { ytdlp_path } => {
                self.stage = Stage::Exiting { ytdlp_path };
                Ok(())
            },
            other => {
                self.stage = other;
                Err(DownloadError::OutOfTurn)
            },
        }
    }

    /// Takes the report of the transfer and ends the job.
    ///
    /// Out of turn unless the transfer's output has ended. Otherwise the
    /// guard is cleared whatever the report says, and the answer is the
    /// job's outcome: success for a zero exit status, `ProcessExitFailed`
    /// for another, `ProcessSpawnFailed` where the downloader never ran.
    pub fn finished(&mut self, report: ProcessReport) -> (r: Result<bool, DownloadError>)
        ensures
            final(self).phase() == phase_after_finish(old(self).phase()),
            old(self).phase() != Phase::Exiting ==> r == Err::<bool, DownloadError>(
                DownloadError::OutOfTurn,
            ) && *final(self) == *old(self),
            old(self).phase() == Phase::Exiting ==> r == transfer_result(
                old(self).ytdlp_path(),
                report,
            ),
    {
        let mut stage = Stage::Idle;
        core::mem::swap(&mut self.stage, &mut stage);
        match stage {
            Stage::Exiting { ytdlp_path } => match report {
                ProcessReport::SpawnFailed { cause } => Err(
                    DownloadError::ProcessSpawnFailed { binary: ytdlp_path, cause },
                ),
                ProcessReport::Exited { success, stdout: _, stderr } => {
                    if success {
                        Ok(true)
                    } else {
                        Err(DownloadError::ProcessExitFailed { exit_info: stderr })
                    }
                },
            },
            other => {
                self.stage = other;
                Err(DownloadError::OutOfTurn)
            },
        }
    }

    /// Ends whatever job there is and clears the guard. For the caller's
    /// exit paths that no report reaches.
    pub fn release(&mut self)
        ensures
            final(self).phase() == Phase::Idle,
    {
        self.stage = Stage::Idle;
    }
}

} // verus!
