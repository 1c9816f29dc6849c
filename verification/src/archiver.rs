//! The pipeline state machine: one task at a time through
//! check -> fetch -> extract -> upload -> register, with an event emitted
//! at each transition, and the retry-loop step around it.

use vstd::prelude::*;

use crate::backoff::Backoff;
use crate::backoff::advanced_delay;
use crate::util::ArchiveSite;
use crate::util::EventSink;
use crate::util::Metadata;
use crate::util::MetadataExtractor;
use crate::util::PipelineError;
use crate::util::TaskQueue;
use crate::util::Uploader;
use crate::util::VideoDownloader;
use crate::util::Workspace;

verus! {

/// The worker's externally visible state.  Exactly one value is current at
/// any instant; transitions are published to the observability sink.
#[derive(Debug, Clone, Copy, PartialEq, Eq, Structural)]
pub enum ArchiverState {
    Idle,
    Starting,
    FailureBackoff,
    Downloading,
    Uploading,
}

impl ArchiverState {
    /// The state's name, as shown on the metrics endpoint.
    pub fn label(&self) -> (r: &'static str)
        ensures
            r@ == self.label_spec(),
    {
        match self {
            ArchiverState::Idle => "Idle",
            ArchiverState::Starting => "Starting",
            ArchiverState::FailureBackoff => "FailureBackoff",
            ArchiverState::Downloading => "Downloading",
            ArchiverState::Uploading => "Uploading",
        }
    }

    pub open spec fn label_spec(&self) -> Seq<char> {
        match self {
            ArchiverState::Idle => "Idle"@,
            ArchiverState::Starting => "Starting"@,
            ArchiverState::FailureBackoff => "FailureBackoff"@,
            ArchiverState::Downloading => "Downloading"@,
            ArchiverState::Uploading => "Uploading"@,
        }
    }
}

/// All states, in the order the metrics endpoint reports them.
pub fn archiver_states() -> (r: Vec<ArchiverState>)
    ensures
        r@ == seq![
            ArchiverState::Idle,
            ArchiverState::Starting,
            ArchiverState::FailureBackoff,
            ArchiverState::Downloading,
            ArchiverState::Uploading,
        ],
{
    let mut v: Vec<ArchiverState> = Vec::new();
    v.push(ArchiverState::Idle);
    v.push(ArchiverState::Starting);
    v.push(ArchiverState::FailureBackoff);
    v.push(ArchiverState::Downloading);
    v.push(ArchiverState::Uploading);
    v
}

/// The watch page URL fetched for a video identifier.
pub open spec fn video_url_spec(id: Seq<char>) -> Seq<char> {
    "https://www.youtube.com/watch?v="@ + id
}

/// The exit code reported for a finished process: its own code, or -1 when
/// a signal ended it.
pub open spec fn reported_exit_code(code: Option<int>) -> int {
    match code {
        Option::Some(c) => c,
        Option::None => -1,
    }
}

/// The archival worker: drives one task at a time through the pipeline,
/// against the collaborators it was built with.
pub struct ArchiveBot<
    Q: TaskQueue,
    D: VideoDownloader,
    M: MetadataExtractor,
    U: Uploader,
    A: ArchiveSite,
    W: Workspace,
    E: EventSink,
> {
    pub task_queue: Q,
    pub video_downloader: D,
    pub metadata_extractor: M,
    pub uploader: U,
    pub archive_site: A,
    pub workspace: W,
    pub events: Option<E>,
    pub skip_requeue: String,
}

impl<
    Q: TaskQueue,
    D: VideoDownloader,
    M: MetadataExtractor,
    U: Uploader,
    A: ArchiveSite,
    W: Workspace,
    E: EventSink,
> ArchiveBot<Q, D, M, U, A, W, E> {
    pub fn new(
        task_queue: Q,
        video_downloader: D,
        metadata_extractor: M,
        uploader: U,
        archive_site: A,
        workspace: W,
        events: Option<E>,
        skip_requeue: String,
    ) -> (r: Self)
        ensures
            r.task_queue == task_queue,
            r.video_downloader == video_downloader,
            r.metadata_extractor == metadata_extractor,
            r.uploader == uploader,
            r.archive_site == archive_site,
            r.workspace == workspace,
            r.events == events,
            r.skip_requeue == skip_requeue,
    {
        ArchiveBot {
            task_queue,
            video_downloader,
            metadata_extractor,
            uploader,
            archive_site,
            workspace,
            events,
            skip_requeue,
        }
    }

    /// Everything published to the event sink so far (empty when the bot
    /// was built without a sink).
    pub open spec fn sink_events(&self) -> Seq<ArchiverState> {
        match self.events {
            Option::Some(e) => e.events(),
            Option::None => Seq::empty(),
        }
    }

    /// The pipeline gets past the catalog check and the scratch directory:
    /// the catalog says the video is missing and a working directory can
    /// be created.
    pub open spec fn proceeds_to_fetch(&self, id: Seq<char>) -> bool {
        &&& self.archive_site.archived_reply(id) == Some(false)
        &&& self.workspace.create_ok()
    }

    /// The primary fetch can be started and exits with code zero.
    pub open spec fn fetch_ok(&self) -> bool {
        self.video_downloader.download_reply() matches Some(o) && o.success()
    }

    /// The run reaches metadata extraction and it succeeds.
    pub open spec fn extract_ok(&self) -> bool {
        self.fetch_ok() && self.metadata_extractor.extract_reply() is Some
    }

    /// One whole run of the pipeline on `id` succeeds: either the catalog
    /// already has the video, or every stage goes through.
    pub open spec fn video_run_ok(&self, id: Seq<char>) -> bool {
        ||| self.archive_site.archived_reply(id) == Some(true)
        ||| {
            &&& self.proceeds_to_fetch(id)
            &&& self.extract_ok()
            &&& self.uploader.upload_ok()
            &&& self.archive_site.archive_ok()
        }
    }

    /// The events one run of the pipeline on `id` publishes, in order.  A
    /// run that ends (either way) before the fetch publishes nothing;
    /// `Idle` is published only after successful registration.
    pub open spec fn video_run_events(&self, id: Seq<char>) -> Seq<ArchiverState> {
        if !self.proceeds_to_fetch(id) {
            Seq::empty()
        } else if !self.extract_ok() {
            seq![ArchiverState::Downloading]
        } else if !(self.uploader.upload_ok() && self.archive_site.archive_ok()) {
            seq![ArchiverState::Downloading, ArchiverState::Uploading]
        } else {
            seq![ArchiverState::Downloading, ArchiverState::Uploading, ArchiverState::Idle]
        }
    }

    /// Which error a failed run of the pipeline on `id` reports: the first
    /// stage to go wrong, wrapped with its stage, with the primary fetch's
    /// exit code and captured stderr carried through.
    pub open spec fn video_error_matches(&self, id: Seq<char>, e: PipelineError) -> bool {
        if self.archive_site.archived_reply(id) is None {
            e is Catalog
        } else if self.archive_site.archived_reply(id) == Some(true) {
            false
        } else if !self.workspace.create_ok() {
            e is Workdir
        } else if self.video_downloader.download_reply() is None {
            e is FetchSpawn
        } else if !self.fetch_ok() {
            e matches PipelineError::FetchFailed { code, stderr } && {
                let o = self.video_downloader.download_reply()->0;
                code == reported_exit_code(o.code) && stderr@ == o.stderr
            }
        } else if self.metadata_extractor.extract_reply() is None {
            e is Extraction
        } else if !self.uploader.upload_ok() {
            e is Transfer
        } else if !self.archive_site.archive_ok() {
            e is Register
        } else {
            false
        }
    }

    /// Publish a state transition; without a sink this does nothing, and a
    /// sink that cannot keep up is the sink's concern, never the
    /// pipeline's.
    fn send_event(&mut self, state: ArchiverState)
        ensures
            final(self).events is Some <==> old(self).events is Some,
            old(self).events is Some ==> final(self).sink_events() == old(
                self,
            ).sink_events().push(state),
            old(self).events is None ==> final(self).events == old(self).events,
            final(self).task_queue == old(self).task_queue,
            final(self).video_downloader == old(self).video_downloader,
            final(self).metadata_extractor == old(self).metadata_extractor,
            final(self).uploader == old(self).uploader,
            final(self).archive_site == old(self).archive_site,
            final(self).workspace == old(self).workspace,
            final(self).skip_requeue == old(self).skip_requeue,
    {
        match &mut self.events {
            Option::Some(e) => e.publish(state),
            Option::None => {},
        }
    }

    /// The fetch/extract/upload/register stages, inside the working
    /// directory `dir`.  The caller owns the directory's lifecycle.
    fn run_video_in(&mut self, video_id: &str, dir: &str) -> (r: Result<(), PipelineError>)
        ensures
            r is Ok <==> (old(self).extract_ok() && old(self).uploader.upload_ok() && old(
                self,
            ).archive_site.archive_ok()),
            final(self).task_queue == old(self).task_queue,
            final(self).workspace == old(self).workspace,
            final(self).skip_requeue == old(self).skip_requeue,
            final(self).events is Some <==> old(self).events is Some,
            old(self).events is None ==> final(self).events == old(self).events,
            old(self).events is Some ==> final(self).sink_events() == old(self).sink_events() + (
            if !old(self).extract_ok() {
                seq![ArchiverState::Downloading]
            } else if !(old(self).uploader.upload_ok() && old(self).archive_site.archive_ok()) {
                seq![ArchiverState::Downloading, ArchiverState::Uploading]
            } else {
                seq![ArchiverState::Downloading, ArchiverState::Uploading, ArchiverState::Idle]
            }),
            final(self).video_downloader.download_calls() == old(
                self,
            ).video_downloader.download_calls().push(video_url_spec(video_id@)),
            final(self).metadata_extractor.extract_calls() == old(
                self,
            ).metadata_extractor.extract_calls() + (
            if old(self).fetch_ok() {
                1nat
            } else {
                0nat
            }),
            final(self).uploader.upload_calls() == (
            if old(self).extract_ok() {
                old(self).uploader.upload_calls().push((dir@, video_id@))
            } else {
                old(self).uploader.upload_calls()
            }),
            final(self).archive_site.archive_calls() == (
            if old(self).extract_ok() && old(self).uploader.upload_ok() {
                old(self).archive_site.archive_calls().push(video_id@)
            } else {
                old(self).archive_site.archive_calls()
            }),
            r matches Err(e) ==> {
                if old(self).video_downloader.download_reply() is None {
                    e is FetchSpawn
                } else if !old(self).fetch_ok() {
                    e matches PipelineError::FetchFailed { code, stderr } && {
                        let o = old(self).video_downloader.download_reply()->0;
                        code == reported_exit_code(o.code) && stderr@ == o.stderr
                    }
                } else if old(self).metadata_extractor.extract_reply() is None {
                    e is Extraction
                } else if !old(self).uploader.upload_ok() {
                    e is Transfer
                } else {
                    e is Register
                }
            },
    {
        let url = String::from_str("https://www.youtube.com/watch?v=").concat(video_id);
        assert(url@ == video_url_spec(video_id@));

        // Download the video.
        self.send_event(ArchiverState::Downloading);
        let dl_res = match self.video_downloader.download(url.as_str(), dir) {
            Ok(dl_res) => dl_res,
            Err(e) => {
                return Err(PipelineError::FetchSpawn { error: e });
            },
        };

        if !dl_res.output.success() {
            let code = match dl_res.output.code {
                Option::Some(c) => c,
                Option::None => -1,
            };
            return Err(PipelineError::FetchFailed { code, stderr: dl_res.output.stderr });
        }

        // Extract metadata from the fetch byproducts.
        let metadata = match self.metadata_extractor.extract(dir) {
            Ok(m) => m,
            Err(e) => {
                return Err(PipelineError::Extraction { error: e });
            },
        };

        // Upload the working directory to cold storage.
        self.send_event(ArchiverState::Uploading);
        match self.uploader.upload(dir, video_id) {
            Ok(()) => {},
            Err(e) => {
                return Err(PipelineError::Transfer { error: e });
            },
        }

        // Register the artifact with the catalog.
        match self.archive_site.archive(video_id, &metadata) {
            Ok(()) => {},
            Err(e) => {
                return Err(PipelineError::Register { error: e });
            },
        }

        self.send_event(ArchiverState::Idle);
        Ok(())
    }

    /// Drive one video through the pipeline: catalog check first (work
    /// already archived is skipped before any fetch), then the
    /// fetch/extract/upload/register stages inside a fresh working
    /// directory that is removed again on every exit path.
    pub fn run_video(&mut self, video_id: &str) -> (r: Result<(), PipelineError>)
        ensures
            r is Ok <==> old(self).video_run_ok(video_id@),
            r matches Err(e) ==> old(self).video_error_matches(video_id@, e),
            final(self).task_queue == old(self).task_queue,
            final(self).skip_requeue == old(self).skip_requeue,
            final(self).events is Some <==> old(self).events is Some,
            old(self).events is None ==> final(self).events == old(self).events,
            old(self).events is Some ==> final(self).sink_events() == old(self).sink_events() + old(
                self,
            ).video_run_events(video_id@),
            final(self).workspace.live_dirs() == old(self).workspace.live_dirs(),
            final(self).video_downloader.download_calls() == (
            if old(self).proceeds_to_fetch(video_id@) {
                old(self).video_downloader.download_calls().push(video_url_spec(video_id@))
            } else {
                old(self).video_downloader.download_calls()
            }),
            final(self).metadata_extractor.extract_calls() == old(
                self,
            ).metadata_extractor.extract_calls() + (
            if old(self).proceeds_to_fetch(video_id@) && old(self).fetch_ok() {
                1nat
            } else {
                0nat
            }),
            final(self).uploader.upload_calls() == (
            if old(self).proceeds_to_fetch(video_id@) && old(self).extract_ok() {
                old(self).uploader.upload_calls().push((old(self).workspace.next_dir(), video_id@))
            } else {
                old(self).uploader.upload_calls()
            }),
            final(self).archive_site.archive_calls() == (
            if old(self).proceeds_to_fetch(video_id@) && old(self).extract_ok() && old(
                self,
            ).uploader.upload_ok() {
                old(self).archive_site.archive_calls().push(video_id@)
            } else {
                old(self).archive_site.archive_calls()
            }),
    {
        // The idempotency check comes before any fetch: work the catalog
        // already has is skipped outright.
        match self.archive_site.is_archived(video_id) {
            Ok(true) => {
                proof {
                    assert(old(self).sink_events() + Seq::<ArchiverState>::empty() =~= old(
                        self,
                    ).sink_events());
                }
                return Ok(());
            },
            Ok(false) => {},
            Err(e) => {
                proof {
                    assert(old(self).sink_events() + Seq::<ArchiverState>::empty() =~= old(
                        self,
                    ).sink_events());
                }
                return Err(PipelineError::Catalog { error: e });
            },
        }

        // A fresh scratch directory owned by this one run.
        let dir = match self.workspace.create() {
            Ok(d) => d,
            Err(e) => {
                proof {
                    assert(old(self).sink_events() + Seq::<ArchiverState>::empty() =~= old(
                        self,
                    ).sink_events());
                }
                return Err(PipelineError::Workdir { error: e });
            },
        };

        let r = self.run_video_in(video_id, dir.as_str());

        // The working directory is released on every exit path.
        self.workspace.remove(dir.as_str());
        proof {
            assert(self.workspace.live_dirs() =~= old(self).workspace.live_dirs());
        }
        r
    }

    /// One whole `run_one` succeeds: the queue hands out a task and the
    /// pipeline run on its payload succeeds.
    pub open spec fn run_one_ok(&self) -> bool {
        match self.task_queue.consume_reply() {
            Option::Some(t) => self.video_run_ok(t.1),
            Option::None => false,
        }
    }

    /// The events one `run_one` call publishes: `Starting` first, then
    /// whatever the pipeline run publishes.
    pub open spec fn run_one_events(&self) -> Seq<ArchiverState> {
        seq![ArchiverState::Starting] + match self.task_queue.consume_reply() {
            Option::Some(t) => self.video_run_events(t.1),
            Option::None => Seq::empty(),
        }
    }

    /// The failed task's payload goes back on the queue: requeueing is
    /// enabled and the run failed after a task was dequeued.
    pub open spec fn run_one_requeues(&self) -> bool {
        &&& self.skip_requeue@.len() > 0
        &&& self.task_queue.consume_reply() matches Some(t) && !self.video_run_ok(t.1)
    }

    /// Dequeue one task and drive it through the pipeline.  On failure the
    /// payload is put back on the queue when requeueing is enabled; a
    /// failed requeue is best-effort and never masks the original error.
    pub fn run_one(&mut self) -> (r: Result<(), PipelineError>)
        ensures
            r is Ok <==> old(self).run_one_ok(),
            r matches Err(e) ==> match old(self).task_queue.consume_reply() {
                Option::Some(t) => old(self).video_error_matches(t.1, e),
                Option::None => e is Queue,
            },
            final(self).events is Some <==> old(self).events is Some,
            old(self).events is None ==> final(self).events == old(self).events,
            old(self).events is Some ==> final(self).sink_events() == old(self).sink_events() + old(
                self,
            ).run_one_events(),
            final(self).skip_requeue == old(self).skip_requeue,
            final(self).workspace.live_dirs() == old(self).workspace.live_dirs(),
            final(self).task_queue.insert_calls() == (
            if old(self).run_one_requeues() {
                old(self).task_queue.insert_calls().push(
                    (old(self).task_queue.consume_reply()->0).1,
                )
            } else {
                old(self).task_queue.insert_calls()
            }),
            final(self).video_downloader.download_calls() == (
            if old(self).task_queue.consume_reply() matches Some(t) && old(self).proceeds_to_fetch(
                t.1,
            ) {
                old(self).video_downloader.download_calls().push(
                    video_url_spec((old(self).task_queue.consume_reply()->0).1),
                )
            } else {
                old(self).video_downloader.download_calls()
            }),
            final(self).metadata_extractor.extract_calls() == old(
                self,
            ).metadata_extractor.extract_calls() + (
            if old(self).task_queue.consume_reply() matches Some(t) && old(self).proceeds_to_fetch(
                t.1,
            ) && old(self).fetch_ok() {
                1nat
            } else {
                0nat
            }),
            final(self).uploader.upload_calls() == (
            if old(self).task_queue.consume_reply() matches Some(t) && old(self).proceeds_to_fetch(
                t.1,
            ) && old(self).extract_ok() {
                old(self).uploader.upload_calls().push(
                    (old(self).workspace.next_dir(), (old(self).task_queue.consume_reply()->0).1),
                )
            } else {
                old(self).uploader.upload_calls()
            }),
            final(self).archive_site.archive_calls() == (
            if old(self).task_queue.consume_reply() matches Some(t) && old(self).proceeds_to_fetch(
                t.1,
            ) && old(self).extract_ok() && old(self).uploader.upload_ok() {
                old(self).archive_site.archive_calls().push(
                    (old(self).task_queue.consume_reply()->0).1,
                )
            } else {
                old(self).archive_site.archive_calls()
            }),
    {
        self.send_event(ArchiverState::Starting);

        // Get a task from the queue.
        let task = match self.task_queue.consume() {
            Ok(t) => t,
            Err(e) => {
                return Err(PipelineError::Queue { error: e });
            },
        };

        let video_id = task.data;
        match self.run_video(video_id.as_str()) {
            Err(e) => {
                if !self.skip_requeue.as_str().is_empty() {
                    // Best effort: a failed requeue is swallowed so it
                    // cannot mask the original error.
                    let _ = self.task_queue.insert(video_id);
                }
                Err(e)
            },
            Ok(()) => Ok(()),
        }
    }

    /// The events one retry-loop step publishes: the run's own events,
    /// then `FailureBackoff` when the run failed.
    pub open spec fn step_events(&self) -> Seq<ArchiverState> {
        self.run_one_events() + if self.run_one_ok() {
            Seq::<ArchiverState>::empty()
        } else {
            seq![ArchiverState::FailureBackoff]
        }
    }

    /// One step of the retry loop: run one task; on success reset the
    /// backoff delay, on failure publish `FailureBackoff` and hand the
    /// caller the number of seconds to sleep before the next step.  The
    /// run's outcome is returned alongside so the caller can log it.
    pub fn run_step(&mut self, backoff: &mut Backoff) -> (r: (
        Result<(), PipelineError>,
        Option<u64>,
    ))
        requires
            old(backoff).wf(),
        ensures
            final(backoff).wf(),
            final(backoff).base_secs == old(backoff).base_secs,
            final(backoff).ceiling_secs == old(backoff).ceiling_secs,
            r.0 is Ok <==> old(self).run_one_ok(),
            r.1 is None <==> old(self).run_one_ok(),
            old(self).run_one_ok() ==> final(backoff).delay_secs == old(backoff).base_secs,
            r.1 matches Some(d) ==> d == old(backoff).delay_secs && final(backoff).delay_secs
                == advanced_delay(old(backoff).delay_secs, old(backoff).ceiling_secs),
            final(self).events is Some <==> old(self).events is Some,
            old(self).events is None ==> final(self).events == old(self).events,
            old(self).events is Some ==> final(self).sink_events() == old(self).sink_events() + old(
                self,
            ).step_events(),
            final(self).workspace.live_dirs() == old(self).workspace.live_dirs(),
    {
        match self.run_one() {
            Ok(()) => {
                backoff.on_success();
                proof {
                    assert(old(self).sink_events() + old(self).step_events() =~= old(
                        self,
                    ).sink_events() + old(self).run_one_events());
                }
                (Ok(()), None)
            },
            Err(e) => {
                self.send_event(ArchiverState::FailureBackoff);
                let d = backoff.on_failure();
                proof {
                    assert(old(self).sink_events() + old(self).step_events() =~= (old(
                        self,
                    ).sink_events() + old(self).run_one_events()).push(
                        ArchiverState::FailureBackoff,
                    ));
                }
                (Err(e), Some(d))
            },
        }
    }
}

/// A task whose payload the catalog already has short-circuits: `run_one`
/// succeeds, no fetch is reached (so, by `run_one`'s contract, no fetch,
/// extract or upload call is made), and `Starting` is the only event.
pub proof fn lemma_archived_task_short_circuits<
    Q: TaskQueue,
    D: VideoDownloader,
    M: MetadataExtractor,
    U: Uploader,
    A: ArchiveSite,
    W: Workspace,
    E: EventSink,
>(bot: ArchiveBot<Q, D, M, U, A, W, E>, task: (Seq<char>, Seq<char>))
    requires
        bot.task_queue.consume_reply() == Some(task),
        bot.archive_site.archived_reply(task.1) == Some(true),
    ensures
        bot.run_one_ok(),
        !bot.proceeds_to_fetch(task.1),
        bot.run_one_events() == seq![ArchiverState::Starting],
{
    assert(bot.run_one_events() =~= seq![ArchiverState::Starting]);
}

/// For a fully successful, non-short-circuited run, the retry-loop step
/// publishes exactly `Starting`, `Downloading`, `Uploading`, `Idle`, in
/// that order.
pub proof fn lemma_success_event_order<
    Q: TaskQueue,
    D: VideoDownloader,
    M: MetadataExtractor,
    U: Uploader,
    A: ArchiveSite,
    W: Workspace,
    E: EventSink,
>(bot: ArchiveBot<Q, D, M, U, A, W, E>, task: (Seq<char>, Seq<char>))
    requires
        bot.task_queue.consume_reply() == Some(task),
        bot.proceeds_to_fetch(task.1),
        bot.extract_ok(),
        bot.uploader.upload_ok(),
        bot.archive_site.archive_ok(),
    ensures
        bot.run_one_ok(),
        bot.step_events() == seq![
            ArchiverState::Starting,
            ArchiverState::Downloading,
            ArchiverState::Uploading,
            ArchiverState::Idle,
        ],
{
    assert(bot.step_events() =~= seq![
        ArchiverState::Starting,
        ArchiverState::Downloading,
        ArchiverState::Uploading,
        ArchiverState::Idle,
    ]);
}

/// A run that fails before reaching `Downloading` publishes exactly
/// `Starting` then `FailureBackoff`.
pub proof fn lemma_early_failure_event_order<
    Q: TaskQueue,
    D: VideoDownloader,
    M: MetadataExtractor,
    U: Uploader,
    A: ArchiveSite,
    W: Workspace,
    E: EventSink,
>(bot: ArchiveBot<Q, D, M, U, A, W, E>)
    requires
        !bot.run_one_ok(),
        match bot.task_queue.consume_reply() {
            Option::Some(task) => !bot.proceeds_to_fetch(task.1),
            Option::None => true,
        },
    ensures
        bot.step_events() == seq![ArchiverState::Starting, ArchiverState::FailureBackoff],
{
    assert(bot.step_events() =~= seq![ArchiverState::Starting, ArchiverState::FailureBackoff]);
}

} // verus!
