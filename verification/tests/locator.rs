use snapper::errors::DownloadError;
use snapper::locator::Platform;
use snapper::locator::common_paths;
use snapper::locator::embedded_candidates;
use snapper::locator::first_existing;
use snapper::locator::select_tool_path;
use snapper::locator::target_triple;

#[test]
fn test_target_triple() {
    assert_eq!(target_triple(Platform::MacOs, true), "aarch64-apple-darwin");
    assert_eq!(target_triple(Platform::MacOs, false), "x86_64-apple-darwin");
    assert_eq!(target_triple(Platform::Windows, false), "x86_64-pc-windows-msvc");
    assert_eq!(target_triple(Platform::Linux, false), "x86_64-unknown-linux-gnu");
}

#[test]
fn test_embedded_candidates_order() {
    let c = embedded_candidates("/app", "yt-dlp", Platform::Linux, false);
    assert_eq!(c.len(), 12);
    assert_eq!(c[0], "/app/../Resources/binaries/yt-dlp-x86_64-unknown-linux-gnu");
    assert_eq!(c[3], "/app/yt-dlp-x86_64-unknown-linux-gnu");
    assert_eq!(c[6], "/app/../Resources/binaries/yt-dlp");
    assert_eq!(c[8], "/app/yt-dlp");
    assert_eq!(c[11], "/app/resources/yt-dlp");
    // Every architecture-suffixed name comes before every bare name.
    for i in 0..6 {
        assert!(c[i].contains("x86_64-unknown-linux-gnu"));
        assert!(!c[i + 6].contains("x86_64"));
    }
}

#[test]
fn test_embedded_candidates_windows_exe() {
    let c = embedded_candidates("C:/app", "ffmpeg", Platform::Windows, false);
    assert_eq!(c[0], "C:/app/../Resources/binaries/ffmpeg-x86_64-pc-windows-msvc.exe");
    assert_eq!(c[8], "C:/app/ffmpeg.exe");
}

#[test]
fn test_common_paths_per_platform() {
    let mac = common_paths("ffmpeg", Platform::MacOs, "me");
    assert_eq!(mac[0], "/usr/local/bin/ffmpeg");
    assert_eq!(mac[1], "/opt/homebrew/bin/ffmpeg");
    assert_eq!(mac.len(), 6);

    let linux = common_paths("yt-dlp", Platform::Linux, "me");
    assert_eq!(linux[3], "/snap/bin/yt-dlp");
    assert_eq!(linux.len(), 6);

    let win = common_paths("yt-dlp", Platform::Windows, "me");
    assert_eq!(win[0], "C:\\Program Files\\yt-dlp\\yt-dlp.exe");
    assert_eq!(win[6], "C:\\Users\\me\\scoop\\apps\\yt-dlp\\current\\yt-dlp.exe");
    assert_eq!(win.len(), 7);
}

#[test]
fn test_first_existing() {
    assert_eq!(first_existing(&vec![false, false, true, true]), Some(2));
    assert_eq!(first_existing(&vec![true]), Some(0));
    assert_eq!(first_existing(&vec![false, false]), None);
    assert_eq!(first_existing(&vec![]), None);
}

// The embedded-bundle path wins even when a system copy also exists, and the
// system copy wins over the conventional locations.
#[test]
fn test_tier_priority() {
    let embedded = vec!["/app/binaries/yt-dlp".to_string(), "/app/yt-dlp".to_string()];
    let common = vec!["/usr/local/bin/yt-dlp".to_string(), "/usr/bin/yt-dlp".to_string()];

    // Tier 1 beats tier 2 and 3.
    let r = select_tool_path(
        &embedded,
        &vec![false, true],
        &Some("/usr/bin/yt-dlp".to_string()),
        &common,
        &vec![true, true],
    );
    assert_eq!(r.unwrap(), "/app/yt-dlp");

    // Tier 2 beats tier 3.
    let r = select_tool_path(
        &embedded,
        &vec![false, false],
        &Some("/opt/somewhere/yt-dlp".to_string()),
        &common,
        &vec![true, true],
    );
    assert_eq!(r.unwrap(), "/opt/somewhere/yt-dlp");

    // Tier 3 only.
    let r = select_tool_path(&embedded, &vec![false, false], &None, &common, &vec![false, true]);
    assert_eq!(r.unwrap(), "/usr/bin/yt-dlp");

    // Nothing anywhere: the tool is missing.
    let r = select_tool_path(&embedded, &vec![false, false], &None, &common, &vec![false, false]);
    assert!(matches!(r, Err(DownloadError::BinaryNotFound)));
}
