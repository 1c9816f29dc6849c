use archivebot::archiver::ArchiveBot;
use archivebot::archiver::ArchiverState;
use archivebot::backoff::Backoff;
use archivebot::doubles::MockArchiveSite;
use archivebot::doubles::MockMetadataExtractor;
use archivebot::doubles::MockRclone;
use archivebot::doubles::MockTasq;
use archivebot::doubles::MockWorkspace;
use archivebot::doubles::MockYTDL;
use archivebot::doubles::VecEventSink;
use archivebot::util::Metadata;
use archivebot::util::PipelineError;
use archivebot::util::ProcessOutput;
use archivebot::util::VideoDownloadResult;

type TestBot = ArchiveBot<
    MockTasq,
    MockYTDL,
    MockMetadataExtractor,
    MockRclone,
    MockArchiveSite,
    MockWorkspace,
    VecEventSink,
>;

fn sample_metadata(video_id: &str) -> Metadata {
    Metadata {
        video_id: video_id.to_string(),
        channel_name: "Rick Astley".to_string(),
        channel_id: "UCuAXFkgsw1L7xaCfnd5JJOw".to_string(),
        upload_date: "2008-11-25".to_string(),
        title: "Rick Astley - Never Gonna Give You Up (Video)".to_string(),
        description: "Official music video".to_string(),
        duration: 212,
        width: 1280,
        height: 720,
        fps: 30,
        format_id: "22".to_string(),
        view_count: 2250000000,
        like_count: 999999,
        dislike_count: -1,
        files: vec![],
        drive_base: "blah".to_string(),
        archived_timestamp: "2023-01-01T00:00:00+00:00".to_string(),
        timestamps: None,
    }
}

fn exited(code: i32, stderr: &str) -> VideoDownloadResult {
    VideoDownloadResult {
        output: ProcessOutput {
            code: Some(code),
            stdout: String::new(),
            stderr: stderr.to_string(),
        },
    }
}

fn test_bot(data: &str, archived: bool, exit_code: i32, skip_requeue: &str) -> TestBot {
    ArchiveBot::new(
        MockTasq {
            key: "test".to_string(),
            data: data.to_string(),
            fail: false,
            insert_log: vec![],
        },
        MockYTDL { reply: Some(exited(exit_code, "")), calls: vec![] },
        MockMetadataExtractor::new(Some(sample_metadata(data))),
        MockRclone { ok: true, upload_log: vec![] },
        MockArchiveSite { archived, check_fails: false, ok: true, archive_log: vec![] },
        MockWorkspace { in_use: false, fail: false },
        Some(VecEventSink::new()),
        skip_requeue.to_string(),
    )
}

#[test]
fn test_run_one() {
    let mut bot = test_bot("dQw4w9WgXcQ", false, 0, "");
    bot.run_one().unwrap();

    let events = &bot.events.as_ref().unwrap().log;
    assert_eq!(events[0], ArchiverState::Starting);
    assert_eq!(events[1], ArchiverState::Downloading);
    assert_eq!(events[2], ArchiverState::Uploading);
    assert_eq!(events[3], ArchiverState::Idle);
    assert!(events.get(4).is_none());

    assert_eq!(
        bot.video_downloader.calls,
        vec!["https://www.youtube.com/watch?v=dQw4w9WgXcQ".to_string()]
    );
    assert_eq!(bot.archive_site.archive_log, vec!["dQw4w9WgXcQ".to_string()]);
    assert!(!bot.workspace.in_use, "working directory must be released");
}

#[test]
fn run_succeeds_with_failing_secondary_fetch() {
    // Primary fetch exits 0, secondary exits 1: the pipeline succeeds, the
    // catalog receives exactly one registration, and the secondary outcome
    // only produces a warning.
    let mut bot = test_bot("abc123", false, 0, "");
    let secondary = Ok(ProcessOutput {
        code: Some(1),
        stdout: String::new(),
        stderr: "no live chat".to_string(),
    });
    assert!(archivebot::ytdl::secondary_warning(&secondary));

    let r = bot.run_one();
    assert!(r.is_ok());
    assert_eq!(bot.archive_site.archive_log, vec!["abc123".to_string()]);
}

#[test]
fn archived_task_short_circuits() {
    // The catalog already has the video: success, and no fetch, upload or
    // registration happens.
    let mut bot = test_bot("abc123", true, 0, "");
    let r = bot.run_one();
    assert!(r.is_ok());
    assert_eq!(bot.video_downloader.calls.len(), 0);
    assert_eq!(bot.uploader.upload_log.len(), 0);
    assert_eq!(bot.archive_site.archive_log.len(), 0);
    assert_eq!(bot.events.as_ref().unwrap().log, vec![ArchiverState::Starting]);
}

#[test]
fn failed_fetch_reports_exit_code_and_requeues() {
    // The primary fetch exits 2: the error carries the exit code and the
    // captured stderr, and with requeueing enabled the payload goes back
    // on the queue once.
    let mut bot = test_bot("abc123", false, 2, "requeue");
    bot.video_downloader.reply = Some(exited(2, "fetch blew up"));

    let r = bot.run_one();
    match r {
        Err(PipelineError::FetchFailed { code, stderr }) => {
            assert_eq!(code, 2);
            assert_eq!(stderr, "fetch blew up");
        }
        other => panic!("expected a fetch failure, got {:?}", other),
    }
    assert_eq!(bot.task_queue.insert_log, vec!["abc123".to_string()]);
    assert_eq!(bot.archive_site.archive_log.len(), 0);
    assert!(!bot.workspace.in_use, "working directory must be released");
}

#[test]
fn failed_fetch_without_requeue_leaves_queue_alone() {
    let mut bot = test_bot("abc123", false, 2, "");
    let r = bot.run_one();
    assert!(r.is_err());
    assert_eq!(bot.task_queue.insert_log.len(), 0);
}

#[test]
fn workdir_released_on_every_failure_stage() {
    // Failing upload: the working directory is still removed, and the
    // events stop after Uploading.
    let mut bot = test_bot("abc123", false, 0, "");
    bot.uploader.ok = false;
    let r = bot.run_one();
    assert!(matches!(r, Err(PipelineError::Transfer { .. })));
    assert!(!bot.workspace.in_use, "working directory must be released");
    assert_eq!(
        bot.events.as_ref().unwrap().log,
        vec![ArchiverState::Starting, ArchiverState::Downloading, ArchiverState::Uploading]
    );

    // Failing extraction: same invariant, events stop after Downloading.
    let mut bot = test_bot("abc123", false, 0, "");
    bot.metadata_extractor.reply = None;
    let r = bot.run_one();
    assert!(matches!(r, Err(PipelineError::Extraction { .. })));
    assert!(!bot.workspace.in_use, "working directory must be released");
    assert_eq!(
        bot.events.as_ref().unwrap().log,
        vec![ArchiverState::Starting, ArchiverState::Downloading]
    );

    // Refused registration: same invariant.
    let mut bot = test_bot("abc123", false, 0, "");
    bot.archive_site.ok = false;
    let r = bot.run_one();
    assert!(matches!(r, Err(PipelineError::Register { .. })));
    assert!(!bot.workspace.in_use, "working directory must be released");
}

#[test]
fn queue_failure_emits_starting_then_backoff() {
    let mut bot = test_bot("abc123", false, 0, "");
    bot.task_queue.fail = true;
    let mut backoff = Backoff::new(30, 300);

    let (result, sleep) = bot.run_step(&mut backoff);
    assert!(matches!(result, Err(PipelineError::Queue { .. })));
    assert_eq!(sleep, Some(30));
    assert_eq!(backoff.delay_secs, 60);
    assert_eq!(
        bot.events.as_ref().unwrap().log,
        vec![ArchiverState::Starting, ArchiverState::FailureBackoff]
    );
    // No requeue without a dequeued task.
    assert_eq!(bot.task_queue.insert_log.len(), 0);
}

#[test]
fn catalog_check_failure_aborts_before_downloading() {
    let mut bot = test_bot("abc123", false, 0, "");
    bot.archive_site.check_fails = true;
    let mut backoff = Backoff::new(30, 300);

    let (result, sleep) = bot.run_step(&mut backoff);
    assert!(matches!(result, Err(PipelineError::Catalog { .. })));
    assert!(sleep.is_some());
    assert_eq!(bot.video_downloader.calls.len(), 0);
    assert_eq!(
        bot.events.as_ref().unwrap().log,
        vec![ArchiverState::Starting, ArchiverState::FailureBackoff]
    );
}

#[test]
fn workdir_creation_failure() {
    let mut bot = test_bot("abc123", false, 0, "");
    bot.workspace.fail = true;
    let r = bot.run_one();
    assert!(matches!(r, Err(PipelineError::Workdir { .. })));
    assert_eq!(bot.video_downloader.calls.len(), 0);
    assert_eq!(bot.events.as_ref().unwrap().log, vec![ArchiverState::Starting]);
}

#[test]
fn fetch_spawn_failure() {
    let mut bot = test_bot("abc123", false, 0, "");
    bot.video_downloader.reply = None;
    let r = bot.run_one();
    assert!(matches!(r, Err(PipelineError::FetchSpawn { .. })));
    assert!(!bot.workspace.in_use, "working directory must be released");
    assert_eq!(
        bot.events.as_ref().unwrap().log,
        vec![ArchiverState::Starting, ArchiverState::Downloading]
    );
}

#[test]
fn run_step_resets_backoff_on_success() {
    let mut bot = test_bot("abc123", false, 0, "");
    let mut backoff = Backoff::new(30, 300);
    backoff.delay_secs = 240;

    let (result, sleep) = bot.run_step(&mut backoff);
    assert!(result.is_ok());
    assert_eq!(sleep, None);
    assert_eq!(backoff.delay_secs, 30);
}
