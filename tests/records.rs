use filesorter::classifier::{LocalRule, RuleCondition};
use filesorter::records::{
    check_classify_status, clip_content, AppConfig, ClassifyRequest, FileInfoForOrganize,
    LocalStorage, MoveResult, PendingAction, ProviderError,
};

#[test]
fn preview_kept_only_for_text() {
    let r = ClassifyRequest::for_file("a.TXT".into(), ".TXT".into(), Some(5), Some("hello".into()));
    assert_eq!(r.content_preview.as_deref(), Some("hello"));
    let r = ClassifyRequest::for_file("a.png".into(), ".png".into(), None, Some("x".into()));
    assert_eq!(r.content_preview, None);
    assert_eq!(r.filename, "a.png");
}

#[test]
fn status_codes() {
    assert!(matches!(check_classify_status(402), Err(ProviderError::QuotaExceeded)));
    assert!(check_classify_status(200).is_ok());
    assert!(check_classify_status(204).is_ok());
    assert!(matches!(check_classify_status(500), Err(ProviderError::Status { code: 500 })));
    assert!(matches!(check_classify_status(301), Err(ProviderError::Status { code: 301 })));
}

#[test]
fn batch_tally() {
    let mut r = MoveResult::new();
    assert!(r.success);
    r.record_moved();
    r.record_moved();
    r.record_skipped();
    assert!(r.success);
    r.record_failure("Failed to move x".to_string());
    assert!(!r.success);
    assert_eq!(r.moved_count, 2);
    assert_eq!(r.skipped_count, 2);
    assert_eq!(r.errors, vec!["Failed to move x".to_string()]);
}

#[test]
fn fresh_config() {
    let c = AppConfig::with_download_folder("/home/u/Downloads".to_string());
    assert_eq!(c.api_url, "http://localhost:8085");
    assert_eq!(c.dashboard_url, "http://localhost:3000");
    assert_eq!(c.watched_folders, vec!["/home/u/Downloads".to_string()]);
    assert_eq!(c.processing_delay_seconds, 3);
    assert!(c.show_notifications && !c.start_on_boot && c.access_token.is_none());
}

#[test]
fn storage_queue() {
    let mut s = LocalStorage::new();
    s.add_pending_action(PendingAction {
        filename: "a".into(),
        source_path: "/a".into(),
        dest_path: "/d/a".into(),
        confidence_percent: 80,
        timestamp: 1,
    });
    assert_eq!(s.pending_actions.len(), 1);
    s.cache_rules(vec![LocalRule {
        id: "1".into(),
        name: "n".into(),
        condition: RuleCondition::Unsupported,
        destination: "d".into(),
        priority: 0,
    }]);
    assert_eq!(s.cached_rules.len(), 1);
    assert_eq!(s.pending_actions.len(), 1);
    s.clear_pending_actions();
    assert!(s.pending_actions.is_empty());
}

#[test]
fn organize_entries() {
    assert!(FileInfoForOrganize::from_entry(".DS_Store".into(), None, Some(3), "/x/.DS_Store".into(), None).is_none());
    let info = FileInfoForOrganize::from_entry(
        "Photo.JPG".into(),
        Some("JPG"),
        None,
        "/x/Photo.JPG".into(),
        Some((1431648000, 0)),
    )
    .unwrap();
    assert_eq!(info.extension, ".jpg");
    assert_eq!(info.size_bytes, 0);
    assert_eq!(info.modified.as_deref(), Some("2015-05-15T00:00:00+00:00"));
    let plain = FileInfoForOrganize::from_entry("Makefile".into(), None, Some(7), "/x/Makefile".into(), None).unwrap();
    assert_eq!(plain.extension, "");
    assert_eq!(plain.size_bytes, 7);
    assert_eq!(plain.modified, None);
    let old = FileInfoForOrganize::from_entry("old.txt".into(), Some("txt"), Some(1), "/x/old.txt".into(), Some((-1, 500_000_000))).unwrap();
    assert_eq!(old.modified.as_deref(), Some("1969-12-31T23:59:59.500+00:00"));
    let far = FileInfoForOrganize::from_entry("f".into(), None, None, "/x/f".into(), Some((i64::MAX, 0))).unwrap();
    assert_eq!(far.modified, None);
}

#[test]
fn content_is_clipped() {
    assert_eq!(clip_content(vec![1, 2, 3, 4], Some(2)), vec![1, 2]);
    assert_eq!(clip_content(vec![1, 2], Some(5)), vec![1, 2]);
    assert_eq!(clip_content(vec![0; 10], None).len(), 10);
    assert_eq!(clip_content(vec![0; 1048577], None).len(), 1048576);
}
