use snapper::history::DownloadHistory;
use snapper::history::find_by_id;
use snapper::history::DownloadStatus;
use snapper::history::compute_statistics;
use snapper::history::upsert;

fn record(id: &str, ts: i64, status: DownloadStatus, format: &str) -> DownloadHistory {
    DownloadHistory {
        id: id.to_string(),
        title: format!("video {}", id),
        url: format!("https://youtu.be/{}", id),
        status,
        downloaded_at: ts,
        file_path: match status {
            DownloadStatus::Completed => Some(format!("/out/{}.{}", id, format)),
            _ => None,
        },
        format: format.to_string(),
        quality: "high".to_string(),
    }
}

#[test]
fn test_upsert_appends_sorted() {
    let h = vec![record("a", 300, DownloadStatus::Completed, "mp4"), record(
        "b",
        100,
        DownloadStatus::Failed,
        "mp3",
    )];
    let out = upsert(&h, record("c", 200, DownloadStatus::Completed, "wav"));
    assert_eq!(out.len(), 3);
    assert_eq!(out[0].id, "a");
    assert_eq!(out[1].id, "c");
    assert_eq!(out[2].id, "b");
}

#[test]
fn test_upsert_replaces_by_id() {
    let h = vec![record("a", 300, DownloadStatus::Downloading, "mp4"), record(
        "b",
        100,
        DownloadStatus::Failed,
        "mp3",
    )];
    let out = upsert(&h, record("a", 400, DownloadStatus::Completed, "mp4"));
    assert_eq!(out.len(), 2);
    assert_eq!(out[0].id, "a");
    assert!(matches!(out[0].status, DownloadStatus::Completed));
    assert_eq!(out[0].downloaded_at, 400);
    assert_eq!(out[1].id, "b");
}

// A full store stays at 100 records: the oldest is dropped and the new entry
// is present.
#[test]
fn test_upsert_caps_at_100() {
    let mut h = Vec::new();
    for i in 0..100 {
        h.push(record(&format!("id{}", i), 1000 - i as i64, DownloadStatus::Completed, "mp4"));
    }
    let out = upsert(&h, record("fresh", 5000, DownloadStatus::Completed, "mp3"));
    assert_eq!(out.len(), 100);
    assert!(out.iter().any(|r| r.id == "fresh"));
    // The oldest record (timestamp 901) fell off.
    assert!(!out.iter().any(|r| r.id == "id99"));
}

// An upserted outcome with the latest timestamp comes back first.
#[test]
fn test_upsert_latest_first() {
    let h = vec![record("a", 300, DownloadStatus::Completed, "mp4"), record(
        "b",
        200,
        DownloadStatus::Failed,
        "mp3",
    )];
    let fresh = record("new", 999, DownloadStatus::Completed, "webm");
    let out = upsert(&h, fresh);
    assert_eq!(out[0].id, "new");
    assert_eq!(out[0].downloaded_at, 999);
}

#[test]
fn test_statistics_counts() {
    let h = vec![
        record("a", 5, DownloadStatus::Completed, "mp4"),
        record("b", 4, DownloadStatus::Completed, "mp4"),
        record("c", 3, DownloadStatus::Failed, "mp3"),
        record("d", 2, DownloadStatus::Downloading, "mp4"),
        record("e", 1, DownloadStatus::Completed, "wav"),
    ];
    let stats = compute_statistics(&h);
    assert_eq!(stats.total, 5);
    assert_eq!(stats.completed, 3);
    assert_eq!(stats.failed, 1);
    assert_eq!(stats.downloading, 1);
    assert_eq!(stats.most_used_format, Some("mp4".to_string()));
    let mp4 = stats.formats_breakdown.iter().find(|p| p.0 == "mp4").unwrap();
    assert_eq!(mp4.1, 3);
    let wav = stats.formats_breakdown.iter().find(|p| p.0 == "wav").unwrap();
    assert_eq!(wav.1, 1);
    assert_eq!(stats.formats_breakdown.len(), 3);
}

#[test]
fn test_statistics_empty() {
    let stats = compute_statistics(&Vec::new());
    assert_eq!(stats.total, 0);
    assert_eq!(stats.most_used_format, None);
    assert!(stats.formats_breakdown.is_empty());
}

#[test]
fn test_find_by_id() {
    let h = vec![
        record("a", 300, DownloadStatus::Completed, "mp4"),
        record("b", 200, DownloadStatus::Failed, "mp3"),
    ];
    let hit = find_by_id(&h, "b").unwrap();
    assert_eq!(hit.id, "b");
    assert_eq!(hit.downloaded_at, 200);
    assert!(find_by_id(&h, "c").is_none());
    assert!(find_by_id(&Vec::new(), "a").is_none());
}
