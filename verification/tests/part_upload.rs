use canvas_assembly::domain::CanvasProductError;
use canvas_assembly::part_upload::{
    PartAnswer, PartUpload, PartUploadAction, PartUploadEvent, PartUploadStage, PresignedPart,
};
use canvas_assembly::transfer::{send_method, status_is_success};

fn start(item: Option<&str>) -> (PartUpload, PartUploadAction) {
    PartUpload::start(
        "session-1".to_string(),
        Some("storage-1".to_string()),
        item.map(str::to_string),
        "application/json".to_string(),
        42,
        "sha256:abc".to_string(),
    )
}

fn presigned(method: &str) -> PartUploadEvent {
    PartUploadEvent::Presigned(Ok(PresignedPart {
        method: method.to_string(),
        upload_url: "https://objects.example.com/part-1".to_string(),
        headers: vec![("content-type".to_string(), "application/json".to_string())],
    }))
}

fn answered(status_code: u16, etag: Option<&str>) -> PartUploadEvent {
    PartUploadEvent::Sent(Ok(PartAnswer {
        status_code,
        etag: etag.map(str::to_string),
        received_at_epoch_ms: 1_700_000_000_500,
    }))
}

fn internal(action: PartUploadAction) -> String {
    match action {
        PartUploadAction::Finish(Err(CanvasProductError::Internal(message))) => message,
        other => panic!("expected an internal error, got {other:?}"),
    }
}

#[test]
fn part_upload_presigns_sends_marks_and_completes() {
    let (mut upload, first) = start(Some("item-1"));
    match first {
        PartUploadAction::Presign { upload_session_id, presign_plan } => {
            assert_eq!(upload_session_id, "session-1");
            assert_eq!(presign_plan.part_no, 1);
            assert_eq!(presign_plan.upload_id.as_deref(), Some("storage-1"));
            assert_eq!(presign_plan.requested_ttl_seconds, 900);
        },
        other => panic!("expected a presign, got {other:?}"),
    }
    match upload.on_event(presigned("POST")) {
        PartUploadAction::Send { method, url, headers } => {
            assert_eq!(method, "POST");
            assert_eq!(url, "https://objects.example.com/part-1");
            assert_eq!(headers.len(), 1);
        },
        other => panic!("expected a send, got {other:?}"),
    }
    match upload.on_event(answered(200, Some("\"etag-9\""))) {
        PartUploadAction::MarkUploaded { upload_item_id, mark_plan } => {
            assert_eq!(upload_item_id, "item-1");
            assert_eq!(mark_plan.upload_session_id, "session-1");
            assert_eq!(mark_plan.size_bytes, 42);
            assert_eq!(mark_plan.etag, "etag-9");
            assert_eq!(mark_plan.checksum_sha256_hex, "abc");
            assert_eq!(mark_plan.uploaded_at_epoch_ms, 1_700_000_000_500);
        },
        other => panic!("expected a mark, got {other:?}"),
    }
    match upload.on_event(PartUploadEvent::Marked(Ok(()))) {
        PartUploadAction::Complete { upload_session_id, complete_plan } => {
            assert_eq!(upload_session_id, "session-1");
            assert_eq!(complete_plan.upload_id.as_deref(), Some("storage-1"));
            assert_eq!(complete_plan.content_type, "application/json");
            assert_eq!(complete_plan.content_length, 42);
            assert_eq!(complete_plan.checksum_sha256_hex, "sha256:abc");
            assert_eq!(complete_plan.part_etag, "etag-9");
        },
        other => panic!("expected a completion, got {other:?}"),
    }
    assert!(matches!(upload.on_event(PartUploadEvent::Completed(Ok(()))), PartUploadAction::Finish(Ok(()))));
    assert!(matches!(upload.stage, PartUploadStage::Finished));
}

#[test]
fn part_upload_without_item_completes_right_after_sending() {
    let (mut upload, _) = start(None);
    match upload.on_event(presigned("not a method")) {
        PartUploadAction::Send { method, .. } => assert_eq!(method, "PUT"),
        other => panic!("expected a send, got {other:?}"),
    }
    match upload.on_event(answered(204, None)) {
        PartUploadAction::Complete { complete_plan, .. } => assert_eq!(complete_plan.part_etag, "\"uploaded\""),
        other => panic!("expected a completion, got {other:?}"),
    }
}

#[test]
fn part_upload_reports_a_failed_status_with_its_reason() {
    let (mut upload, _) = start(Some("item-1"));
    upload.on_event(presigned("PUT"));
    assert!(matches!(upload.on_event(answered(404, None)), PartUploadAction::ReadErrorBody));
    assert_eq!(
        internal(upload.on_event(PartUploadEvent::ErrorBodyRead(Some("no such bucket".to_string())))),
        "upload Drive object bytes failed with status 404 Not Found: no such bucket"
    );
    let (mut other, _) = start(None);
    other.on_event(presigned("PUT"));
    other.on_event(answered(503, None));
    assert_eq!(
        internal(other.on_event(PartUploadEvent::ErrorBodyRead(None))),
        "upload Drive object bytes failed with status 503 Service Unavailable: "
    );
}

#[test]
fn part_upload_failures_name_the_failed_call() {
    let (mut upload, _) = start(Some("item-1"));
    assert_eq!(
        internal(upload.on_event(PartUploadEvent::Presigned(Err("timeout".to_string())))),
        "presign Drive upload part: timeout"
    );
    let (mut upload, _) = start(Some("item-1"));
    upload.on_event(presigned("PUT"));
    assert_eq!(
        internal(upload.on_event(PartUploadEvent::Sent(Err("connection reset".to_string())))),
        "upload Drive object bytes failed: connection reset"
    );
    let (mut upload, _) = start(Some("item-1"));
    upload.on_event(presigned("PUT"));
    upload.on_event(answered(200, Some("e")));
    assert_eq!(
        internal(upload.on_event(PartUploadEvent::Marked(Err("gone".to_string())))),
        "mark Drive upload part uploaded: gone"
    );
    let (mut upload, _) = start(None);
    upload.on_event(presigned("PUT"));
    upload.on_event(answered(200, Some("e")));
    assert_eq!(
        internal(upload.on_event(PartUploadEvent::Completed(Err("checksum mismatch".to_string())))),
        "complete Drive upload session: checksum mismatch"
    );
}

#[test]
fn statuses_and_methods_follow_http() {
    assert!(status_is_success(200));
    assert!(status_is_success(299));
    assert!(!status_is_success(199));
    assert!(!status_is_success(300));
    assert_eq!(send_method("PATCH"), "PATCH");
    assert_eq!(send_method("X-CUSTOM.1"), "X-CUSTOM.1");
    assert_eq!(send_method(""), "PUT");
    assert_eq!(send_method("PU T"), "PUT");
    assert_eq!(send_method("PÜT"), "PUT");
}
