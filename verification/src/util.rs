//! Shared data types, collaborator interfaces and error types.
//!
//! Every outside collaborator of the pipeline (task queue, downloader,
//! metadata extractor, uploader, catalog, scratch-directory manager, event
//! sink) is a trait whose methods carry contracts over a small spec-level
//! model, so the pipeline can be verified against any implementation that
//! honours them.  The test doubles in this crate are verified against
//! these contracts.  The process-facing implementations live outside the
//! verified crate and implement only the executable methods; for them the
//! model spec functions fall back to their unconstrained defaults, and
//! nothing is claimed of their behaviour.

use vstd::prelude::*;

verus! {

// ---------------------------------------------------------------------------
// Task queue responses
// ---------------------------------------------------------------------------

#[derive(Debug)]
pub struct TaskInsertResponse {
    pub key: String,
}

#[derive(Debug)]
pub struct TaskListResponse {
    pub tasks: Vec<String>,
    pub count: usize,
}

#[derive(Debug)]
pub struct TaskConsumeResponse {
    pub key: String,
    pub data: String,
}

// ---------------------------------------------------------------------------
// Errors
// ---------------------------------------------------------------------------

/// Dequeue or insert failure on the task queue; retryable.
#[derive(Debug, Clone)]
pub struct QueueError {
    pub message: String,
}

/// Failure while talking to the catalog (idempotency check or registration).
#[derive(Debug, Clone)]
pub struct CatalogError {
    pub message: String,
}

/// Failure to launch a fetch subprocess.
#[derive(Debug, Clone)]
pub struct FetchError {
    pub message: String,
}

/// Failure while reading the fetch byproducts into a metadata record.
#[derive(Debug, Clone)]
pub struct ExtractionError {
    pub message: String,
}

/// Failure while transferring the working directory to cold storage.
#[derive(Debug, Clone)]
pub struct TransferError {
    pub message: String,
}

/// Failure to create a scratch working directory.
#[derive(Debug, Clone)]
pub struct WorkdirError {
    pub message: String,
}

/// Failure while installing an external tool.  An unsupported CPU
/// architecture is non-retryable; everything else is a transient
/// download or filesystem failure.
#[derive(Debug, Clone)]
pub enum InstallError {
    UnsupportedArchitecture,
    Failed { message: String },
}

/// One task's failure, wrapped with the stage that failed so the retry
/// controller and the operator log keep the causal chain.
#[derive(Debug, Clone)]
pub enum PipelineError {
    /// The queue could not hand out a task.
    Queue { error: QueueError },
    /// The catalog idempotency check failed.
    Catalog { error: CatalogError },
    /// No scratch working directory could be created.
    Workdir { error: WorkdirError },
    /// The primary fetch could not be started.
    FetchSpawn { error: FetchError },
    /// The primary fetch ran and exited unsuccessfully; `code` is the exit
    /// code (`-1` when the process was ended by a signal) and `stderr` the
    /// captured error output.
    FetchFailed { code: i32, stderr: String },
    /// The metadata extractor failed on the fetch byproducts.
    Extraction { error: ExtractionError },
    /// The upload to cold storage failed.
    Transfer { error: TransferError },
    /// The catalog refused the registration.
    Register { error: CatalogError },
}

// ---------------------------------------------------------------------------
// Subprocess outcomes
// ---------------------------------------------------------------------------

/// Ghost image of a finished subprocess.
pub struct ProcessOutputView {
    pub code: Option<int>,
    pub stdout: Seq<char>,
    pub stderr: Seq<char>,
}

/// What a finished subprocess left behind: its exit code (`None` when it
/// was ended by a signal) and captured output.
#[derive(Debug, Clone)]
pub struct ProcessOutput {
    pub code: Option<i32>,
    pub stdout: String,
    pub stderr: String,
}

impl View for ProcessOutput {
    type V = ProcessOutputView;

    open spec fn view(&self) -> ProcessOutputView {
        ProcessOutputView {
            code: match self.code {
                Option::Some(c) => Option::Some(c as int),
                Option::None => Option::None,
            },
            stdout: self.stdout@,
            stderr: self.stderr@,
        }
    }
}

impl ProcessOutputView {
    /// A subprocess succeeded when it exited with code zero.
    pub open spec fn success(&self) -> bool {
        self.code == Option::Some(0int)
    }
}

impl ProcessOutput {
    pub fn success(&self) -> (r: bool)
        ensures
            r == self@.success(),
    {
        match self.code {
            Option::Some(c) => c == 0,
            Option::None => false,
        }
    }
}

impl ProcessOutput {
    /// A fresh value with the same view.
    pub fn duplicate(&self) -> (r: ProcessOutput)
        ensures
            r@ == self@,
    {
        ProcessOutput {
            code: self.code,
            stdout: self.stdout.clone(),
            stderr: self.stderr.clone(),
        }
    }
}

/// The primary fetch's outcome as handed to the pipeline.
#[derive(Debug, Clone)]
pub struct VideoDownloadResult {
    pub output: ProcessOutput,
}

impl View for VideoDownloadResult {
    type V = ProcessOutputView;

    open spec fn view(&self) -> ProcessOutputView {
        self.output@
    }
}

impl VideoDownloadResult {
    /// A fresh value with the same view.
    pub fn duplicate(&self) -> (r: VideoDownloadResult)
        ensures
            r@ == self@,
    {
        VideoDownloadResult { output: self.output.duplicate() }
    }
}

// ---------------------------------------------------------------------------
// Metadata
// ---------------------------------------------------------------------------

/// One artifact left in the working directory, by name and size.
#[derive(Debug, Clone)]
pub struct MetadataFileEntry {
    pub name: String,
    pub size: u64,
}

pub struct MetadataFileEntryView {
    pub name: Seq<char>,
    pub size: u64,
}

impl View for MetadataFileEntry {
    type V = MetadataFileEntryView;

    open spec fn view(&self) -> MetadataFileEntryView {
        MetadataFileEntryView { name: self.name@, size: self.size }
    }
}

/// Publish and live-stream timestamps looked up for a video.
#[derive(Debug, Clone)]
pub struct MetadataTimestamps {
    pub actual_start_time: Option<String>,
    pub published_at: Option<String>,
    pub scheduled_start_time: Option<String>,
    pub actual_end_time: Option<String>,
}

pub struct MetadataTimestampsView {
    pub actual_start_time: Option<Seq<char>>,
    pub published_at: Option<Seq<char>>,
    pub scheduled_start_time: Option<Seq<char>>,
    pub actual_end_time: Option<Seq<char>>,
}

pub open spec fn view_opt_string(s: Option<String>) -> Option<Seq<char>> {
    match s {
        Option::Some(x) => Option::Some(x@),
        Option::None => Option::None,
    }
}

impl View for MetadataTimestamps {
    type V = MetadataTimestampsView;

    open spec fn view(&self) -> MetadataTimestampsView {
        MetadataTimestampsView {
            actual_start_time: view_opt_string(self.actual_start_time),
            published_at: view_opt_string(self.published_at),
            scheduled_start_time: view_opt_string(self.scheduled_start_time),
            actual_end_time: view_opt_string(self.actual_end_time),
        }
    }
}

/// The normalized record registered with the catalog for one archived
/// video: identity, presentation data, video geometry, engagement
/// counters, the artifact listing and the archival timestamps.
#[derive(Debug, Clone)]
pub struct Metadata {
    pub video_id: String,
    pub channel_name: String,
    pub channel_id: String,
    pub upload_date: String,
    pub title: String,
    pub description: String,
    pub duration: u64,
    pub width: i32,
    pub height: i32,
    pub fps: i32,
    pub format_id: String,
    pub view_count: u64,
    pub like_count: u64,
    pub dislike_count: i64,
    pub files: Vec<MetadataFileEntry>,
    pub drive_base: String,
    pub archived_timestamp: String,
    pub timestamps: Option<MetadataTimestamps>,
}

pub struct MetadataView {
    pub video_id: Seq<char>,
    pub channel_name: Seq<char>,
    pub channel_id: Seq<char>,
    pub upload_date: Seq<char>,
    pub title: Seq<char>,
    pub description: Seq<char>,
    pub duration: u64,
    pub width: i32,
    pub height: i32,
    pub fps: i32,
    pub format_id: Seq<char>,
    pub view_count: u64,
    pub like_count: u64,
    pub dislike_count: i64,
    pub files: Seq<MetadataFileEntryView>,
    pub drive_base: Seq<char>,
    pub archived_timestamp: Seq<char>,
    pub timestamps: Option<MetadataTimestampsView>,
}

impl View for Metadata {
    type V = MetadataView;

    open spec fn view(&self) -> MetadataView {
        MetadataView {
            video_id: self.video_id@,
            channel_name: self.channel_name@,
            channel_id: self.channel_id@,
            upload_date: self.upload_date@,
            title: self.title@,
            description: self.description@,
            duration: self.duration,
            width: self.width,
            height: self.height,
            fps: self.fps,
            format_id: self.format_id@,
            view_count: self.view_count,
            like_count: self.like_count,
            dislike_count: self.dislike_count,
            files: self.files@.map_values(|e: MetadataFileEntry| e@),
            drive_base: self.drive_base@,
            archived_timestamp: self.archived_timestamp@,
            timestamps: match self.timestamps {
                Option::Some(t) => Option::Some(t@),
                Option::None => Option::None,
            },
        }
    }
}

// ---------------------------------------------------------------------------
// Collaborator interfaces
// ---------------------------------------------------------------------------

/// The task queue handing out units of archival work.
///
/// `consume_reply` models what the next `consume` call will hand back
/// (`None` when the queue is empty or unreachable); `insert_calls` records
/// every payload handed to `insert`, so callers can state requeue
/// behaviour.
pub trait TaskQueue: Sized {
    open spec fn consume_reply(&self) -> Option<(Seq<char>, Seq<char>)> {
        arbitrary()
    }

    open spec fn insert_calls(&self) -> Seq<Seq<char>> {
        arbitrary()
    }

    fn insert(&mut self, data: String) -> (r: Result<TaskInsertResponse, QueueError>)
        ensures
            final(self).insert_calls() == old(self).insert_calls().push(data@),
    ;

    fn list(&mut self) -> (r: Result<TaskListResponse, QueueError>)
        ensures
            final(self).insert_calls() == old(self).insert_calls(),
            final(self).consume_reply() == old(self).consume_reply(),
    ;

    fn consume(&mut self) -> (r: Result<TaskConsumeResponse, QueueError>)
        ensures
            final(self).insert_calls() == old(self).insert_calls(),
            r matches Ok(t) ==> old(self).consume_reply() == Some((t.key@, t.data@)),
            r is Err <==> old(self).consume_reply() is None,
    ;
}

/// The fetcher that brings a video and its side artifacts into the working
/// directory.
///
/// `download_reply` models the outcome of the next call: `None` when the
/// primary fetch cannot be started, otherwise the primary subprocess's
/// output (any exit code; the pipeline judges it).  `download_calls`
/// records the URL of every fetch that was attempted.
pub trait VideoDownloader: Sized {
    open spec fn download_reply(&self) -> Option<ProcessOutputView> {
        arbitrary()
    }

    open spec fn download_calls(&self) -> Seq<Seq<char>> {
        arbitrary()
    }

    fn download(&mut self, url: &str, workdir: &str) -> (r: Result<
        VideoDownloadResult,
        FetchError,
    >)
        ensures
            final(self).download_calls() == old(self).download_calls().push(url@),
            r matches Ok(v) ==> old(self).download_reply() == Some(v@),
            r is Err <==> old(self).download_reply() is None,
    ;
}

/// The extractor that reads the fetch byproducts in the working directory
/// into a metadata record.  `extract_reply` models the next call's result;
/// `extract_calls` counts the calls made.
pub trait MetadataExtractor: Sized {
    open spec fn extract_reply(&self) -> Option<MetadataView> {
        arbitrary()
    }

    open spec fn extract_calls(&self) -> nat {
        arbitrary()
    }

    fn extract(&mut self, workdir: &str) -> (r: Result<Metadata, ExtractionError>)
        ensures
            final(self).extract_calls() == old(self).extract_calls() + 1,
            r matches Ok(m) ==> old(self).extract_reply() == Some(m@),
            r is Err <==> old(self).extract_reply() is None,
    ;
}

/// The transfer of a working directory's contents to cold storage.
/// `upload_ok` models whether the next call succeeds; `upload_calls`
/// records every (source directory, target key) pair handed over.
pub trait Uploader: Sized {
    open spec fn upload_ok(&self) -> bool {
        arbitrary()
    }

    open spec fn upload_calls(&self) -> Seq<(Seq<char>, Seq<char>)> {
        arbitrary()
    }

    fn upload(&mut self, source_dir: &str, target_dir: &str) -> (r: Result<(), TransferError>)
        ensures
            final(self).upload_calls() == old(self).upload_calls().push(
                (source_dir@, target_dir@),
            ),
            r is Ok <==> old(self).upload_ok(),
    ;
}

/// The catalog of record.  `archived_reply` models the idempotency check
/// (`None` when the check itself fails), `archive_ok` whether the next
/// registration succeeds, and `archive_calls` records every id handed to
/// `archive`.
pub trait ArchiveSite: Sized {
    open spec fn archived_reply(&self, id: Seq<char>) -> Option<bool> {
        arbitrary()
    }

    open spec fn archive_ok(&self) -> bool {
        arbitrary()
    }

    open spec fn archive_calls(&self) -> Seq<Seq<char>> {
        arbitrary()
    }

    fn is_archived(&mut self, id: &str) -> (r: Result<bool, CatalogError>)
        ensures
            final(self).archive_calls() == old(self).archive_calls(),
            final(self).archive_ok() == old(self).archive_ok(),
            r matches Ok(b) ==> old(self).archived_reply(id@) == Some(b),
            r is Err <==> old(self).archived_reply(id@) is None,
    ;

    fn archive(&mut self, id: &str, metadata: &Metadata) -> (r: Result<(), CatalogError>)
        ensures
            final(self).archive_calls() == old(self).archive_calls().push(id@),
            r is Ok <==> old(self).archive_ok(),
    ;
}

/// An external tool that can probe its own installation and install
/// itself; repeated installs are no-ops, so `install` is convergent.
pub trait SelfInstallable: Sized {
    open spec fn installed(&self) -> bool {
        arbitrary()
    }

    open spec fn install_ok(&self) -> bool {
        arbitrary()
    }

    fn is_installed(&self) -> (r: bool)
        ensures
            r == self.installed(),
    ;

    fn install(&mut self) -> (r: Result<(), InstallError>)
        ensures
            r is Ok <==> old(self).install_ok(),
            r is Ok ==> final(self).installed(),
    ;
}

/// The manager of per-task scratch directories.  `live_dirs` models the
/// directories currently on disk; `create` hands out a fresh one (its name
/// modelled by `next_dir`), `remove` deletes one.
pub trait Workspace: Sized {
    open spec fn live_dirs(&self) -> Set<Seq<char>> {
        arbitrary()
    }

    open spec fn next_dir(&self) -> Seq<char> {
        arbitrary()
    }

    open spec fn create_ok(&self) -> bool {
        arbitrary()
    }

    fn create(&mut self) -> (r: Result<String, WorkdirError>)
        ensures
            r is Ok <==> old(self).create_ok(),
            r matches Ok(d) ==> d@ == old(self).next_dir() && !old(self).live_dirs().contains(d@)
                && final(self).live_dirs() == old(self).live_dirs().insert(d@),
            r is Err ==> final(self).live_dirs() == old(self).live_dirs(),
    ;

    fn remove(&mut self, dir: &str)
        ensures
            final(self).live_dirs() == old(self).live_dirs().remove(dir@),
    ;
}

/// The observability sink receiving state transition events.  `events`
/// models everything published so far, in order.
pub trait EventSink: Sized {
    open spec fn events(&self) -> Seq<crate::archiver::ArchiverState> {
        arbitrary()
    }

    fn publish(&mut self, state: crate::archiver::ArchiverState)
        ensures
            final(self).events() == old(self).events().push(state),
    ;
}

/// Make sure a tool is present: probe it, and install it only when the
/// probe fails.  Installing is convergent, so calling this again once it
/// has succeeded does nothing.
pub fn ensure_installed<T: SelfInstallable>(tool: &mut T) -> (r: Result<(), InstallError>)
    ensures
        r is Ok <==> (old(tool).installed() || old(tool).install_ok()),
        r is Ok ==> final(tool).installed(),
        old(tool).installed() ==> *final(tool) == *old(tool),
{
    if tool.is_installed() {
        Ok(())
    } else {
        tool.install()
    }
}

} // verus!
