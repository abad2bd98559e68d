use snapper::history::DownloadStatus;
use snapper::orchestrator::DownloadRequest;
use snapper::orchestrator::begin_download;
use snapper::settings::AppSettings;
use snapper::settings::default_download_path;

#[test]
fn test_default_settings() {
    let s = AppSettings::defaults_for_home(Some("/home/me"));
    assert_eq!(s.download_path, "/home/me/Downloads");
    assert_eq!(s.default_format, "mp4");
    assert_eq!(s.default_quality, "high");

    let s = AppSettings::defaults_for_home(None);
    assert_eq!(s.download_path, "/Downloads");
}

#[test]
fn test_default_download_path() {
    assert_eq!(default_download_path(Some("/home/me")).unwrap(), "/home/me/Downloads");
    assert!(default_download_path(None).is_err());
}

#[test]
fn test_begin_download_record() {
    let req = DownloadRequest {
        url: "https://youtu.be/abc".to_string(),
        format: "mp4".to_string(),
        quality: "high".to_string(),
        output_path: "/out".to_string(),
        filename: None,
    };
    let (id, record) = begin_download(&req);
    assert_eq!(record.id, id);
    assert_eq!(id.chars().count(), 36);
    assert!(matches!(record.status, DownloadStatus::Downloading));
    assert!(record.file_path.is_none());
    assert_eq!(record.url, "https://youtu.be/abc");
    assert_eq!(record.format, "mp4");
    assert_eq!(record.quality, "high");

    // Two runs draw distinct correlation ids.
    let (id2, _) = begin_download(&req);
    assert_ne!(id, id2);
}
