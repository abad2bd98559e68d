use snapper::downloader::YouTubeDownloader;

#[test]
fn test_validate_url() {
    let downloader = YouTubeDownloader::new("/tmp".to_string());

    assert!(downloader.validate_url("https://www.youtube.com/watch?v=dQw4w9WgXcQ"));
    assert!(downloader.validate_url("https://youtu.be/dQw4w9WgXcQ"));
    assert!(downloader.validate_url("https://youtube.com/shorts/xyz123"));

    assert!(!downloader.validate_url("https://example.com"));
    assert!(!downloader.validate_url("not_a_url"));
}

#[test]
fn test_validate_url_playlist() {
    let downloader = YouTubeDownloader::new("/tmp".to_string());
    assert!(downloader.validate_url("https://youtube.com/playlist?list=PL123"));
    assert!(!downloader.validate_url(""));
    assert!(!downloader.validate_url("youtube.com"));
}
