use canvas_assembly::domain::{CanvasProductError, FileVersion};
use canvas_assembly::versions::{
    ensure_expected_version, ensure_restore_advanced, latest_file_version, map_file_version_summary,
    next_version_page_token, page_of_versions, page_request_overflows, sort_versions_newest_first,
    VersionListPage, VersionListing, VersionListingAction,
};

fn version(id: &str, no: i64) -> FileVersion {
    FileVersion {
        id: id.to_string(),
        version_no: no,
        content_type: "application/json".to_string(),
        checksum_sha256_hex: format!("hash-{id}"),
        created_at: format!("2024-01-0{no}T00:00:00Z"),
    }
}

fn ids(versions: &[FileVersion]) -> Vec<String> {
    versions.iter().map(|v| v.id.clone()).collect()
}

#[test]
fn versions_sort_newest_first_and_keep_ties_in_order() {
    let sorted = sort_versions_newest_first(vec![
        version("a", 1),
        version("b", 3),
        version("c", 2),
        version("d", 3),
        version("e", 1),
    ]);
    assert_eq!(ids(&sorted), vec!["b", "d", "c", "a", "e"]);
    assert!(sorted.windows(2).all(|w| w[0].version_no >= w[1].version_no));
    assert!(sort_versions_newest_first(Vec::new()).is_empty());
}

#[test]
fn latest_version_is_the_last_highest_numbered_one() {
    let latest = latest_file_version(vec![version("a", 2), version("b", 5), version("c", 5), version("d", 4)])
        .expect("a version exists");
    assert_eq!(latest.id, "c");
    assert_eq!(latest.version_no, 5);
}

#[test]
fn latest_version_of_an_empty_history_is_not_found() {
    match latest_file_version(Vec::new()) {
        Err(CanvasProductError::NotFound(message)) => assert_eq!(message, "Drive file version not found"),
        other => panic!("expected not found, got {other:?}"),
    }
}

#[test]
fn version_summary_marks_first_version_initial() {
    let first = map_file_version_summary(&version("v1", 1));
    assert_eq!(first.drive_version_id, "v1");
    assert_eq!(first.drive_version_no, 1);
    assert_eq!(first.version_kind, "initial");
    assert_eq!(first.created_at, "2024-01-01T00:00:00Z");
    assert!(first.version_label.is_none());
    assert!(first.change_summary.is_none());
    assert_eq!(map_file_version_summary(&version("v0", 0)).version_kind, "initial");
    assert_eq!(map_file_version_summary(&version("v2", 2)).version_kind, "auto");
}

fn history() -> Vec<FileVersion> {
    (1..=5).map(|no| version(&format!("v{no}"), no)).collect()
}

#[test]
fn version_pages_are_newest_first_with_cursor() {
    let first = page_of_versions(history(), 1, 2);
    let first_ids: Vec<_> = first.items.iter().map(|s| s.drive_version_id.clone()).collect();
    assert_eq!(first_ids, vec!["v5", "v4"]);
    assert_eq!(first.page_info.page, 1);
    assert_eq!(first.page_info.page_size, 2);
    assert!(first.page_info.has_more);
    assert_eq!(first.page_info.next_cursor.as_deref(), Some("2"));

    let last = page_of_versions(history(), 3, 2);
    let last_ids: Vec<_> = last.items.iter().map(|s| s.drive_version_id.clone()).collect();
    assert_eq!(last_ids, vec!["v1"]);
    assert!(!last.page_info.has_more);
    assert!(last.page_info.next_cursor.is_none());

    let beyond = page_of_versions(history(), 9, 2);
    assert!(beyond.items.is_empty());
    assert!(!beyond.page_info.has_more);
}

#[test]
fn version_pages_read_zero_page_and_size_as_one() {
    let page = page_of_versions(history(), 0, 0);
    let ids: Vec<_> = page.items.iter().map(|s| s.drive_version_id.clone()).collect();
    assert_eq!(ids, vec!["v5"]);
    assert_eq!(page.page_info.page, 0);
    assert_eq!(page.page_info.page_size, 0);
    assert!(page.page_info.has_more);
    assert_eq!(page.page_info.next_cursor.as_deref(), Some("1"));
}

#[test]
fn more_entries_follow_exactly_when_next_page_is_not_empty() {
    for size in 1..=6u32 {
        for page in 1..=6u32 {
            let this = page_of_versions(history(), page, size);
            let next = page_of_versions(history(), page + 1, size);
            assert_eq!(this.page_info.has_more, !next.items.is_empty(), "page {page} size {size}");
        }
    }
}

#[test]
fn expected_version_must_still_be_latest() {
    assert!(ensure_expected_version(&version("v2", 2), "v2").is_ok());
    match ensure_expected_version(&version("v3", 3), "v2") {
        Err(CanvasProductError::Conflict(message)) => assert_eq!(message, "page Drive version has changed"),
        other => panic!("expected a conflict, got {other:?}"),
    }
}

#[test]
fn restore_must_advance_the_node_version() {
    assert!(ensure_restore_advanced(&version("v2", 2), &version("v3", 3)).is_ok());
    for after in [1, 2] {
        match ensure_restore_advanced(&version("v2", 2), &version("vx", after)) {
            Err(CanvasProductError::Internal(message)) => {
                assert_eq!(message, "Drive restore did not advance node version")
            }
            other => panic!("expected an internal error, got {other:?}"),
        }
    }
}

#[test]
fn blank_page_token_ends_listing() {
    assert_eq!(next_version_page_token(Some("next-1".to_string())).as_deref(), Some("next-1"));
    assert_eq!(next_version_page_token(Some("  ".to_string())), None);
    assert_eq!(next_version_page_token(Some(String::new())), None);
    assert_eq!(next_version_page_token(None), None);
}

#[test]
fn listing_collects_every_page_until_the_token_runs_out() {
    let (mut listing, first) = VersionListing::start("node-1".to_string());
    match first {
        VersionListingAction::FetchPage { node_id, page_size, page_token } => {
            assert_eq!(node_id, "node-1");
            assert_eq!(page_size, 100);
            assert!(page_token.is_none());
        },
        other => panic!("expected a page request, got {other:?}"),
    }
    let action = listing.on_page(Ok(VersionListPage {
        items: vec![version("v1", 1), version("v2", 2)],
        next_page_token: Some("t-2".to_string()),
    }));
    match action {
        VersionListingAction::FetchPage { node_id, page_token, .. } => {
            assert_eq!(node_id, "node-1");
            assert_eq!(page_token.as_deref(), Some("t-2"));
        },
        other => panic!("expected a page request, got {other:?}"),
    }
    let action = listing.on_page(Ok(VersionListPage { items: vec![version("v3", 3)], next_page_token: Some(" ".to_string()) }));
    match action {
        VersionListingAction::Finish(Ok(all)) => assert_eq!(ids(&all), vec!["v1", "v2", "v3"]),
        other => panic!("expected every version, got {other:?}"),
    }
}

#[test]
fn listing_stops_at_a_failed_page() {
    let (mut listing, _) = VersionListing::start("node-1".to_string());
    listing.on_page(Ok(VersionListPage { items: vec![version("v1", 1)], next_page_token: Some("t".to_string()) }));
    match listing.on_page(Err("unavailable".to_string())) {
        VersionListingAction::Finish(Err(CanvasProductError::Internal(message))) => {
            assert_eq!(message, "list Drive file versions: unavailable")
        },
        other => panic!("expected an internal error, got {other:?}"),
    }
}

#[test]
fn page_requests_that_overflow_are_recognised() {
    assert!(!page_request_overflows(5, 1, 2));
    assert!(!page_request_overflows(5, 0, 0));
    assert!(page_request_overflows(0, u32::MAX, 2));
    assert!(!page_request_overflows(0, u32::MAX, 1));
    assert!(page_request_overflows(usize::MAX, u32::MAX, 1));
    assert!(page_request_overflows(0, 3, u32::MAX));
    assert!(!page_request_overflows(0, 2, u32::MAX));
}

#[test]
fn pages_read_until_the_last_hold_every_version_once_newest_first() {
    for size in 1..=6u32 {
        let mut seen = Vec::new();
        let mut page = 1;
        loop {
            let result = page_of_versions(history(), page, size);
            seen.extend(result.items.iter().map(|s| s.drive_version_id.clone()));
            if !result.page_info.has_more {
                break;
            }
            page += 1;
        }
        assert_eq!(seen, vec!["v5", "v4", "v3", "v2", "v1"], "page size {size}");
    }
}
