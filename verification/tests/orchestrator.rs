use snapper::errors::DownloadError;
use snapper::history::DownloadStatus;
use snapper::info::parse_video_info;
use snapper::orchestrator::DownloadRequest;
use snapper::orchestrator::ErrorClass;
use snapper::orchestrator::Orchestration;
use snapper::orchestrator::Phase;
use snapper::orchestrator::StepAction;
use snapper::orchestrator::cache_dir_path;
use snapper::orchestrator::classify_error;
use snapper::orchestrator::resolve_output;

fn request(format: &str, quality: &str) -> DownloadRequest {
    DownloadRequest {
        url: "https://www.youtube.com/watch?v=dQw4w9WgXcQ".to_string(),
        format: format.to_string(),
        quality: quality.to_string(),
        output_path: "/out".to_string(),
        filename: None,
    }
}

#[test]
fn test_classify_error() {
    assert!(matches!(
        classify_error("ERROR: Requested format is not available"),
        ErrorClass::Recoverable
    ));
    assert!(matches!(classify_error("WARNING: nsig extraction failed; retry"), ErrorClass::Recoverable));
    assert!(matches!(classify_error("HTTP Error 403: Forbidden"), ErrorClass::Fatal));
    assert!(matches!(classify_error(""), ErrorClass::Fatal));
}

#[test]
fn test_unsupported_format_rejected() {
    let r = Orchestration::start("id1".to_string(), &request("flac", "best"), "/tmp/c".to_string());
    assert!(matches!(r, Err(DownloadError::UnsupportedFormat)));
}

// The tuned mp4/high run: sanitized stem, selector ceiling 1080, and the
// exact expected output path.
#[test]
fn test_scenario_mp4_high() {
    let (o, info_args) =
        Orchestration::start("id1".to_string(), &request("mp4", "high"), "/tmp/c".to_string())
            .unwrap();
    assert_eq!(info_args, vec![
        "--dump-json".to_string(),
        "--no-playlist".to_string(),
        "--cache-dir".to_string(),
        "/tmp/c".to_string(),
        "https://www.youtube.com/watch?v=dQw4w9WgXcQ".to_string(),
    ]);

    let (o, action) = o.on_info(true, "Test Video!!", "", 1000);
    assert!(matches!(o.phase, Phase::Primary));
    assert_eq!(o.stem, "Test Video");
    let args = match action {
        StepAction::RunTool { args } => args,
        _ => panic!("expected a primary invocation"),
    };
    let fpos = args.iter().position(|a| a == "-f").unwrap();
    assert_eq!(
        args[fpos + 1],
        "bestvideo[height<=1080]+bestaudio/best[height<=1080]/bestvideo[height<=1080]/best"
    );
    let opos = args.iter().position(|a| a == "-o").unwrap();
    assert_eq!(args[opos + 1], "/out/Test Video.%(ext)s");
    assert_eq!(args.last().unwrap(), "https://www.youtube.com/watch?v=dQw4w9WgXcQ");

    let (o, action) = o.on_tool_exit(true, "", 2000);
    assert!(matches!(o.phase, Phase::Resolving));
    match action {
        StepAction::Resolve { dir, stem, ext } => {
            assert_eq!(dir, "/out");
            assert_eq!(stem, "Test Video");
            assert_eq!(ext, "mp4");
        },
        _ => panic!("expected a resolve step"),
    }

    let resolved = resolve_output("/out", "Test Video", "mp4", true, &Vec::new());
    assert_eq!(resolved, Some("/out/Test Video.mp4".to_string()));

    let (o, outcome, err) = o.on_resolved(resolved, 3000);
    assert!(matches!(o.phase, Phase::Done));
    assert!(matches!(outcome.status, DownloadStatus::Completed));
    assert_eq!(outcome.file_path, Some("/out/Test Video.mp4".to_string()));
    assert_eq!(outcome.title, "Test Video!!");
    assert!(err.is_none());
}

// A recoverable primary failure launches exactly one fallback; its failure
// is terminal.
#[test]
fn test_recoverable_failure_single_fallback() {
    let (o, _) =
        Orchestration::start("id2".to_string(), &request("mp4", "best"), "/tmp/c".to_string())
            .unwrap();
    let (o, _) = o.on_info(true, "clip", "", 0);
    let (o, action) = o.on_tool_exit(false, "ERROR: Requested format is not available", 1);
    assert!(matches!(o.phase, Phase::Fallback));
    let args = match action {
        StepAction::RunFallback { list_args, args } => {
            assert_eq!(list_args, vec![
                "--list-formats".to_string(),
                "--no-playlist".to_string(),
                "https://www.youtube.com/watch?v=dQw4w9WgXcQ".to_string(),
            ]);
            args
        },
        _ => panic!("expected the fallback invocation"),
    };
    let fpos = args.iter().position(|a| a == "-f").unwrap();
    assert_eq!(args[fpos + 1], "best/worst");
    assert!(args.contains(&"--recode-video".to_string()));

    // The fallback's own failure ends the run: no further invocation.
    let (o, action) = o.on_tool_exit(false, "still broken", 2);
    assert!(matches!(o.phase, Phase::Done));
    match action {
        StepAction::Report { outcome, error } => {
            assert!(matches!(outcome.status, DownloadStatus::Failed));
            assert!(outcome.file_path.is_none());
            assert!(matches!(error, Some(DownloadError::FallbackInvocationFailed(_))));
        },
        _ => panic!("expected a terminal report"),
    }
}

// An unrelated primary failure is terminal at once: no fallback.
#[test]
fn test_fatal_failure_no_fallback() {
    let (o, _) =
        Orchestration::start("id3".to_string(), &request("webm", "low"), "/tmp/c".to_string())
            .unwrap();
    let (o, _) = o.on_info(true, "clip", "", 0);
    let (o, action) = o.on_tool_exit(false, "HTTP Error 403: Forbidden", 1);
    assert!(matches!(o.phase, Phase::Done));
    match action {
        StepAction::Report { outcome, error } => {
            assert!(matches!(outcome.status, DownloadStatus::Failed));
            assert!(outcome.file_path.is_none());
            match error {
                Some(DownloadError::PrimaryInvocationFailed(d)) => {
                    assert_eq!(d, "HTTP Error 403: Forbidden")
                },
                _ => panic!("expected the primary failure in the report"),
            }
        },
        _ => panic!("expected a terminal report"),
    }
}

#[test]
fn test_fetch_failure_is_terminal() {
    let (o, _) =
        Orchestration::start("id4".to_string(), &request("mp3", "high"), "/tmp/c".to_string())
            .unwrap();
    let (o, action) = o.on_info(false, "", "network unreachable", 7);
    assert!(matches!(o.phase, Phase::Done));
    match action {
        StepAction::Report { outcome, error } => {
            assert!(matches!(outcome.status, DownloadStatus::Failed));
            assert_eq!(outcome.downloaded_at, 7);
            match error {
                Some(DownloadError::ExtractionFailed(d)) => assert_eq!(d, "network unreachable"),
                _ => panic!("expected the extraction failure in the report"),
            }
        },
        _ => panic!("expected a terminal report"),
    }
}

#[test]
fn test_resolve_scans_for_altered_extension() {
    let entries = vec!["other.txt".to_string(), "Test Video.webm".to_string()];
    let r = resolve_output("/out", "Test Video", "mp4", false, &entries);
    assert_eq!(r, Some("/out/Test Video.webm".to_string()));

    let r = resolve_output("/out", "Test Video", "mp4", false, &vec!["unrelated.mp4".to_string()]);
    assert!(r.is_none());
}

#[test]
fn test_missing_file_after_success() {
    let (o, _) =
        Orchestration::start("id5".to_string(), &request("mp4", "high"), "/tmp/c".to_string())
            .unwrap();
    let (o, _) = o.on_info(true, "clip", "", 0);
    let (o, _) = o.on_tool_exit(true, "", 1);
    let (_, outcome, err) = o.on_resolved(None, 2);
    assert!(matches!(outcome.status, DownloadStatus::Failed));
    assert!(outcome.file_path.is_none());
    assert!(matches!(err, Some(DownloadError::FileNotFound)));
}

#[test]
fn test_explicit_filename_overrides_title() {
    let mut req = request("mp4", "high");
    req.filename = Some("my clip.mp4".to_string());
    let (o, _) = Orchestration::start("id6".to_string(), &req, "/tmp/c".to_string()).unwrap();
    let (o, _) = o.on_info(true, "Whatever Title", "", 0);
    assert_eq!(o.stem, "my clip");
}

#[test]
fn test_cache_dir_path() {
    assert_eq!(cache_dir_path("/tmp"), "/tmp/snapper-cache");
}

#[test]
fn test_parse_video_info_defaults() {
    let json = r#"{"title": "A Video", "duration": 63,
        "formats": [{"ext": "mp4"}, {"ext": "webm"}, {"ext": "mp4"}]}"#;
    let info = parse_video_info(json, "https://youtu.be/abc").unwrap();
    assert_eq!(info.id, "unknown");
    assert_eq!(info.title, "A Video");
    assert_eq!(info.url, "https://youtu.be/abc");
    assert_eq!(info.duration, Some(63));
    assert_eq!(info.thumbnail, None);
    let mut formats = info.available_formats.clone();
    formats.sort();
    assert_eq!(formats, vec!["mp4".to_string(), "webm".to_string()]);
}

#[test]
fn test_parse_video_info_unparsable() {
    assert!(parse_video_info("not json at all", "u").is_none());
}

// Success of the metadata parse depends on the document text alone: a
// parsable document always yields a descriptor.
#[test]
fn test_parse_video_info_succeeds_on_parsable() {
    let info = parse_video_info("{}", "https://youtu.be/x").unwrap();
    assert_eq!(info.id, "unknown");
    assert_eq!(info.title, "Unknown Title");
    assert!(info.available_formats.is_empty());
    assert!(parse_video_info("[1, 2, 3]", "u").is_some());
    assert!(parse_video_info("{\"title\": ", "u").is_none());
}
