use archivebot::archive::MockRagtag;
use archivebot::archive::search_indicates_archived;
use archivebot::backoff::Backoff;
use archivebot::doubles::MockTool;
use archivebot::github::Asset;
use archivebot::github::find_asset;
use archivebot::metadata::InfoJson;
use archivebot::metadata::TimestampsItem;
use archivebot::metadata::TimestampsLiveDetails;
use archivebot::metadata::TimestampsSnippet;
use archivebot::metadata::build_metadata;
use archivebot::metadata::find_info_json;
use archivebot::metadata::timestamps_from_items;
use archivebot::rclone::Rclone;
use archivebot::rclone::find_rclone_entry;
use archivebot::rclone::rclone_asset_suffix;
use archivebot::rclone::upload_outcome;
use archivebot::tasq::TasqResponse;
use archivebot::util::ArchiveSite;
use archivebot::util::InstallError;
use archivebot::util::MetadataTimestamps;
use archivebot::util::ProcessOutput;
use archivebot::util::ensure_installed;
use archivebot::ytdl::YTDL;
use archivebot::ytdl::resolve_fetch;
use archivebot::ytdl::secondary_warning;
use archivebot::ytdl::ytdl_release_urls;

fn output(code: Option<i32>, stderr: &str) -> ProcessOutput {
    ProcessOutput { code, stdout: String::new(), stderr: stderr.to_string() }
}

#[test]
fn backoff_doubles_to_ceiling_and_resets() {
    let mut b = Backoff::new(30, 300);
    let sleeps: Vec<u64> = (0..6).map(|_| b.on_failure()).collect();
    assert_eq!(sleeps, vec![30, 60, 120, 240, 300, 300]);
    b.on_success();
    assert_eq!(b.on_failure(), 30);
}

#[test]
fn resolve_fetch_follows_primary_only() {
    let ok = resolve_fetch(Ok(output(Some(0), "")), Ok(output(Some(1), "warn")));
    assert_eq!(ok.unwrap().output.code, Some(0));

    let failed_secondary = resolve_fetch(
        Ok(output(Some(0), "")),
        Err(archivebot::util::FetchError { message: "spawn failed".to_string() }),
    );
    assert!(failed_secondary.is_ok());

    let nonzero_primary = resolve_fetch(Ok(output(Some(2), "boom")), Ok(output(Some(0), "")));
    let out = nonzero_primary.unwrap();
    assert_eq!(out.output.code, Some(2));
    assert_eq!(out.output.stderr, "boom");

    let spawn_failed = resolve_fetch(
        Err(archivebot::util::FetchError { message: "no binary".to_string() }),
        Ok(output(Some(0), "")),
    );
    assert!(spawn_failed.is_err());
}

#[test]
fn secondary_warning_cases() {
    assert!(!secondary_warning(&Ok(output(Some(0), ""))));
    assert!(secondary_warning(&Ok(output(Some(1), ""))));
    assert!(secondary_warning(&Ok(output(None, ""))));
    assert!(secondary_warning(&Err(archivebot::util::FetchError {
        message: "spawn failed".to_string()
    })));
}

#[test]
fn ytdl_paths_and_args() {
    let ytdl = YTDL::new("/cache", "/cache/plugins", "https://pot.example".to_string());
    assert_eq!(ytdl.ytdlp_path, "/cache/yt-dlp");
    assert_eq!(ytdl.ffmpeg_path, "/cache/ffmpeg");
    assert_eq!(ytdl.pot_plugin_path, "/cache/plugins/yt-dlp-get-pot.zip");
    assert_eq!(ytdl.deno_path, "/cache/deno");

    let args = ytdl.video_args("https://www.youtube.com/watch?v=abc123");
    assert_eq!(args[0], "-f");
    assert_eq!(args[1], "bestvideo+bestaudio");
    assert_eq!(args[3], "/cache/ffmpeg");
    assert_eq!(args[5], "youtube:getpot_bgutil_baseurl=https://pot.example");
    assert_eq!(args[args.len() - 1], "https://www.youtube.com/watch?v=abc123");
    assert_eq!(args.len(), 25);

    let chat_args = ytdl.live_chat_args("https://www.youtube.com/watch?v=abc123");
    assert_eq!(chat_args[1], "youtubepot-bgutilhttp:base_url==https://pot.example");
    assert_eq!(chat_args[4], "--skip-download");
    assert_eq!(chat_args[chat_args.len() - 1], "https://www.youtube.com/watch?v=abc123");
    assert_eq!(chat_args.len(), 15);
}

#[test]
fn release_urls_per_architecture() {
    let (ytdlp, ffmpeg, deno) = ytdl_release_urls("x86_64").unwrap();
    assert_eq!(ytdlp, "https://github.com/yt-dlp/yt-dlp/releases/latest/download/yt-dlp_linux");
    assert!(ffmpeg.ends_with("linux-x64"));
    assert!(deno.contains("x86_64"));

    let (ytdlp, ffmpeg, _) = ytdl_release_urls("aarch64").unwrap();
    assert!(ytdlp.ends_with("yt-dlp_linux_aarch64"));
    assert!(ffmpeg.ends_with("linux-arm64"));

    assert!(matches!(
        ytdl_release_urls("riscv64"),
        Err(InstallError::UnsupportedArchitecture)
    ));
}

#[test]
fn rclone_target_and_outcome() {
    let rclone = Rclone::new(
        "/cache/rclone".to_string(),
        "remote".to_string(),
        "/base/dir/".to_string(),
        "/cache/rclone.conf".to_string(),
    );
    assert_eq!(rclone.upload_target("/abc123/"), "remote:base/dir/abc123");
    let args = rclone.upload_args("/tmp/work", "abc123");
    assert_eq!(
        args,
        vec![
            "--config".to_string(),
            "/cache/rclone.conf".to_string(),
            "copy".to_string(),
            "/tmp/work".to_string(),
            "remote:base/dir/abc123".to_string(),
        ]
    );

    assert!(upload_outcome(&output(Some(0), "")).is_ok());
    assert!(upload_outcome(&output(Some(3), "denied")).is_err());
    assert!(upload_outcome(&output(None, "")).is_err());

    assert_eq!(rclone_asset_suffix("x86_64").unwrap(), "linux-amd64.zip");
    assert_eq!(rclone_asset_suffix("aarch64").unwrap(), "linux-arm64.zip");
    assert!(matches!(
        rclone_asset_suffix("mips"),
        Err(InstallError::UnsupportedArchitecture)
    ));

    let names = vec![
        "rclone-v1.62/README.txt".to_string(),
        "rclone-v1.62/rclone".to_string(),
        "rclone-v1.62/rclone.1".to_string(),
    ];
    assert_eq!(find_rclone_entry(&names).unwrap(), 1);
    assert!(find_rclone_entry(&vec!["README".to_string()]).is_err());
}

#[test]
fn github_asset_selection() {
    let assets = vec![
        Asset {
            name: "rclone-v1.62-windows-amd64.zip".to_string(),
            browser_download_url: "https://example.com/win".to_string(),
        },
        Asset {
            name: "rclone-v1.62-linux-amd64.zip".to_string(),
            browser_download_url: "https://example.com/linux".to_string(),
        },
    ];
    let i = find_asset(&assets, "linux-amd64.zip").unwrap();
    assert_eq!(assets[i].browser_download_url, "https://example.com/linux");
    assert!(find_asset(&assets, "linux-arm64.zip").is_none());
}

#[test]
fn tasq_response_resolution() {
    let accepted = TasqResponse {
        ok: true,
        payload: "test:wowzers".to_string(),
        message: String::new(),
    };
    assert_eq!(accepted.into_result().unwrap(), "test:wowzers");

    let refused = TasqResponse {
        ok: false,
        payload: String::new(),
        message: "list is empty".to_string(),
    };
    let err = refused.into_result().unwrap_err();
    assert_eq!(err.message, "list is empty");
}

#[test]
fn installer_convergence() {
    let mut tool = MockTool { present: false, install_works: true };
    assert!(ensure_installed(&mut tool).is_ok());
    assert!(tool.present);
    // Already installed: a second call is a no-op even if installing
    // would now fail.
    tool.install_works = false;
    assert!(ensure_installed(&mut tool).is_ok());

    let mut broken = MockTool { present: false, install_works: false };
    assert!(ensure_installed(&mut broken).is_err());
    assert!(!broken.present);
}

#[test]
fn catalog_reading_and_stand_in() {
    assert!(search_indicates_archived(1));
    assert!(search_indicates_archived(7));
    assert!(!search_indicates_archived(0));

    let mut mock = MockRagtag::new();
    assert_eq!(mock.is_archived("123").unwrap(), false);
    let metadata = sample_metadata("123");
    mock.archive("123", &metadata).unwrap();
    assert_eq!(mock.archive_log, vec!["123".to_string()]);
}

#[test]
fn timestamps_mapping() {
    let items = vec![TimestampsItem {
        live_streaming_details: Some(TimestampsLiveDetails {
            scheduled_start_time: Some("3333-01-01T00:00:00Z".to_string()),
            actual_start_time: Some("1111-01-01T00:00:00Z".to_string()),
            actual_end_time: Some("2222-01-01T00:00:00Z".to_string()),
        }),
        snippet: Some(TimestampsSnippet {
            published_at: Some("2020-01-01T00:00:00Z".to_string()),
        }),
    }];
    let ts = timestamps_from_items(items).unwrap();
    assert_eq!(ts.actual_start_time.unwrap(), "1111-01-01T00:00:00Z");
    assert_eq!(ts.actual_end_time.unwrap(), "2222-01-01T00:00:00Z");
    assert_eq!(ts.scheduled_start_time.unwrap(), "3333-01-01T00:00:00Z");
    assert_eq!(ts.published_at.unwrap(), "2020-01-01T00:00:00Z");

    assert!(timestamps_from_items(vec![]).is_err());
    let bare = timestamps_from_items(vec![TimestampsItem {
        live_streaming_details: None,
        snippet: None,
    }])
    .unwrap();
    assert!(bare.actual_start_time.is_none());
    assert!(bare.published_at.is_none());
}

#[test]
fn info_json_lookup() {
    let names = vec![
        "abc.webm".to_string(),
        "abc.info.json".to_string(),
        "abc.live_chat.json".to_string(),
    ];
    assert_eq!(find_info_json(&names).unwrap(), 1);
    assert!(find_info_json(&vec!["abc.webm".to_string()]).is_err());
}

#[test]
fn metadata_building() {
    let info = InfoJson {
        id: "abc123".to_string(),
        uploader: "chan".to_string(),
        channel_id: "UC123".to_string(),
        upload_date: "19840102".to_string(),
        title: "a title".to_string(),
        description: "words".to_string(),
        duration: 212,
        width: 1280,
        height: 720,
        fps: 30,
        format_id: "22".to_string(),
        view_count: 1000,
        like_count: 10,
        dislike_count: None,
    };
    let files = vec![archivebot::util::MetadataFileEntry {
        name: "abc123.webm".to_string(),
        size: 4096,
    }];
    let timestamps = MetadataTimestamps {
        actual_start_time: None,
        published_at: Some("2020-01-01T00:00:00Z".to_string()),
        scheduled_start_time: None,
        actual_end_time: None,
    };
    let m = build_metadata(
        info,
        files,
        "drive".to_string(),
        "2023-01-01T00:00:00+00:00".to_string(),
        timestamps,
    );
    assert_eq!(m.video_id, "abc123");
    assert_eq!(m.upload_date, "1984-01-02");
    assert_eq!(m.dislike_count, -1);
    assert_eq!(m.files.len(), 1);
    assert_eq!(m.files[0].name, "abc123.webm");
    assert_eq!(m.drive_base, "drive");
    assert_eq!(m.timestamps.unwrap().published_at.unwrap(), "2020-01-01T00:00:00Z");
}

fn sample_metadata(video_id: &str) -> archivebot::util::Metadata {
    archivebot::util::Metadata {
        video_id: video_id.to_string(),
        channel_name: "chan".to_string(),
        channel_id: "UC123".to_string(),
        upload_date: "2008-11-25".to_string(),
        title: "t".to_string(),
        description: "d".to_string(),
        duration: 1,
        width: 1,
        height: 1,
        fps: 1,
        format_id: "22".to_string(),
        view_count: 1,
        like_count: 1,
        dislike_count: -1,
        files: vec![],
        drive_base: "b".to_string(),
        archived_timestamp: "2023-01-01T00:00:00+00:00".to_string(),
        timestamps: None,
    }
}
