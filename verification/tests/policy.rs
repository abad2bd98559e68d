use snapper::downloader::YouTubeDownloader;
use snapper::downloader::get_supported_formats;
use snapper::downloader::get_supported_qualities;

#[test]
fn test_supported_formats() {
    let formats = vec!["mp4".to_string(), "mp3".to_string(), "wav".to_string(), "webm".to_string()];
    assert!(formats.contains(&"mp4".to_string()));
    assert!(formats.contains(&"mp3".to_string()));
    assert!(formats.contains(&"wav".to_string()));
    assert!(formats.contains(&"webm".to_string()));
}

#[test]
fn test_supported_qualities() {
    let qualities = vec![
        "best".to_string(),
        "high".to_string(),
        "medium".to_string(),
        "low".to_string(),
        "worst".to_string(),
    ];
    assert!(qualities.contains(&"best".to_string()));
    assert!(qualities.contains(&"high".to_string()));
}

#[test]
fn test_api_supported_formats() {
    let formats = get_supported_formats();
    assert!(formats.contains(&"mp4".to_string()));
    assert!(formats.contains(&"mp3".to_string()));
    assert!(formats.contains(&"wav".to_string()));
    assert!(formats.contains(&"webm".to_string()));
    println!("Supported formats: {:?}", formats);
}

#[test]
fn test_api_supported_qualities() {
    let qualities = get_supported_qualities();
    assert_eq!(
        qualities,
        vec![
            "best".to_string(),
            "high".to_string(),
            "medium".to_string(),
            "low".to_string(),
            "worst".to_string(),
        ]
    );
}

#[test]
fn test_audio_quality_params() {
    let d = YouTubeDownloader::new("/tmp".to_string());
    assert_eq!(d.get_audio_quality_param("best"), "0");
    assert_eq!(d.get_audio_quality_param("high"), "192K");
    assert_eq!(d.get_audio_quality_param("medium"), "128K");
    assert_eq!(d.get_audio_quality_param("low"), "96K");
    assert_eq!(d.get_audio_quality_param("worst"), "64K");
    assert_eq!(d.get_audio_quality_param("something else"), "192K");
}

#[test]
fn test_video_height_params() {
    let d = YouTubeDownloader::new("/tmp".to_string());
    assert_eq!(d.get_video_height_param("best"), 2160);
    assert_eq!(d.get_video_height_param("high"), 1080);
    assert_eq!(d.get_video_height_param("medium"), 720);
    assert_eq!(d.get_video_height_param("low"), 480);
    assert_eq!(d.get_video_height_param("worst"), 360);
    assert_eq!(d.get_video_height_param(""), 1080);
}

// Every selector ends in a universal catch-all and is non-empty.
#[test]
fn test_selectors_have_catch_all() {
    let d = YouTubeDownloader::new("/tmp".to_string());
    for q in ["best", "high", "medium", "low", "worst", "unknown"] {
        let m = d.get_mp4_format_selector(q);
        assert!(!m.is_empty());
        assert!(m.ends_with("/best"));
        let w = d.get_webm_format_selector(q);
        assert!(!w.is_empty());
        assert!(w.ends_with("/best"));
        assert!(!d.get_audio_quality_param(q).is_empty());
    }
}

#[test]
fn test_mp4_selector_exact() {
    let d = YouTubeDownloader::new("/tmp".to_string());
    assert_eq!(
        d.get_mp4_format_selector("best"),
        "bestvideo[height<=2160][ext=mp4]+bestaudio[ext=m4a]/bestvideo[height<=2160]+bestaudio/best[height<=2160]/best"
    );
    assert_eq!(
        d.get_mp4_format_selector("high"),
        "bestvideo[height<=1080]+bestaudio/best[height<=1080]/bestvideo[height<=1080]/best"
    );
    assert_eq!(
        d.get_webm_format_selector("best"),
        "bestvideo[height<=2160][ext=webm]+bestaudio[ext=webm]/bestvideo[height<=2160]+bestaudio/best[height<=2160]/best"
    );
    assert_eq!(
        d.get_webm_format_selector("low"),
        "bestvideo[height<=480]+bestaudio/best[height<=480]/bestvideo[height<=480]/best"
    );
}

// wav always requests the tool-native maximum quality, whatever the tier.
#[test]
fn test_wav_ignores_quality() {
    let args_best = snapper::invocation::build_primary_args(
        "wav", "best", "/tmp/cache", "/out/x.%(ext)s", "https://youtu.be/abc",
    )
    .unwrap();
    let args_worst = snapper::invocation::build_primary_args(
        "wav", "worst", "/tmp/cache", "/out/x.%(ext)s", "https://youtu.be/abc",
    )
    .unwrap();
    assert_eq!(args_best, args_worst);
    let pos = args_best.iter().position(|a| a == "--audio-quality").unwrap();
    assert_eq!(args_best[pos + 1], "0");
}
