use canvas_assembly::domain::{CanvasProductError, CreateDrivePageContentCommand, JsonValue};
use canvas_assembly::upload::{
    access_token_to_apply, canvas_scoped_id, complete_upload_plan, drive_call_error, mark_uploaded_plan,
    part_etag, prepare_upload_plan, presign_part_plan, transfer_error, transfer_status_error,
    upload_session_plan, PRESIGNED_URL_TTL_SECONDS, SINGLE_PART_NO,
};

fn command(folder: Option<&str>) -> CreateDrivePageContentCommand {
    CreateDrivePageContentCommand {
        tenant_id: "100001".to_string(),
        organization_id: "org-7".to_string(),
        operator_id: "30".to_string(),
        page_id: "page-001".to_string(),
        title: "Roadmap".to_string(),
        drive_space_id: "drive-space-001".to_string(),
        folder_drive_node_id: folder.map(str::to_string),
        content_type: "application/vnd.sdkwork.canvas.page+json".to_string(),
        content_schema_version: "canvas/v1".to_string(),
        content: JsonValue::Null,
    }
}

#[test]
fn scoped_ids_embed_page_and_epoch() {
    assert_eq!(canvas_scoped_id("upload", "page-001", 1700000000123), "canvas-upload-page-001-1700000000123");
    assert_eq!(canvas_scoped_id("task", "p", 0), "canvas-task-p-0");
    assert_eq!(canvas_scoped_id("session", "p", -42), "canvas-session-p--42");
    assert_eq!(
        canvas_scoped_id("content", "p", i64::MIN),
        format!("canvas-content-p-{}", i64::MIN)
    );
}

#[test]
fn prepare_plan_carries_page_upload_fields() {
    let plan = prepare_upload_plan(&command(Some("folder-9")), 3, "sha256:abc", 1700000000123);
    assert_eq!(plan.id, "canvas-upload-page-001-1700000000123");
    assert_eq!(plan.task_id, "canvas-task-page-001-1700000000123");
    assert_eq!(plan.organization_id, "org-7");
    assert_eq!(plan.app_resource_type, "canvas_page");
    assert_eq!(plan.app_resource_id, "page-001");
    assert_eq!(plan.upload_profile_code, "generic");
    assert_eq!(plan.file_fingerprint, "sha256:abc");
    assert_eq!(plan.original_file_name, "Roadmap.json");
    assert_eq!(plan.content_type, "application/vnd.sdkwork.canvas.page+json");
    assert_eq!(plan.content_length, 3);
    assert_eq!(plan.chunk_size_bytes, 8);
    assert_eq!(plan.space_id, "drive-space-001");
    assert_eq!(plan.parent_node_id.as_deref(), Some("folder-9"));
    assert_eq!(plan.now_epoch_ms, 1700000000123);
    assert_eq!(plan.scene, "canvas_page_content");
    assert_eq!(plan.source, "canvas_product_service");

    let larger = prepare_upload_plan(&command(None), 4096, "sha256:def", 5);
    assert_eq!(larger.chunk_size_bytes, 4096);
    assert!(larger.parent_node_id.is_none());
}

#[test]
fn upload_session_expires_an_hour_later() {
    let plan = upload_session_plan("drive-space-001", "drive-node-page-001", "page-001", 1000);
    assert_eq!(plan.session_id, "canvas-session-page-001-1000");
    assert_eq!(plan.space_id, "drive-space-001");
    assert_eq!(plan.node_id, "drive-node-page-001");
    assert_eq!(plan.idempotency_key, "canvas-content-page-001-1000");
    assert_eq!(plan.expires_at_epoch_ms, 3_601_000);
}

#[test]
fn part_etag_drops_quotes_and_defaults_when_missing() {
    assert_eq!(part_etag(Some("\"abc123\"".to_string())), "abc123");
    assert_eq!(part_etag(Some("abc".to_string())), "abc");
    assert_eq!(part_etag(Some("\"\"".to_string())), "\"uploaded\"");
    assert_eq!(part_etag(Some(String::new())), "\"uploaded\"");
    assert_eq!(part_etag(None), "\"uploaded\"");
    assert_eq!(part_etag(Some("\"\"a\"b\"\"".to_string())), "a\"b");
}

#[test]
fn presign_plan_asks_for_the_single_part() {
    let plan = presign_part_plan(Some("storage-upload-1"));
    assert_eq!(plan.part_no, 1);
    assert_eq!(plan.part_no, SINGLE_PART_NO);
    assert_eq!(plan.upload_id.as_deref(), Some("storage-upload-1"));
    assert_eq!(plan.requested_ttl_seconds, 900);
    assert_eq!(plan.requested_ttl_seconds, PRESIGNED_URL_TTL_SECONDS);
    assert!(presign_part_plan(None).upload_id.is_none());
}

#[test]
fn mark_uploaded_plan_sends_the_hex_digest() {
    let plan = mark_uploaded_plan("canvas-session-p-1000", 42, "abc123", "sha256:abc", 1001);
    assert_eq!(plan.part_no, 1);
    assert_eq!(plan.upload_session_id, "canvas-session-p-1000");
    assert_eq!(plan.offset_bytes, 0);
    assert_eq!(plan.size_bytes, 42);
    assert_eq!(plan.etag, "abc123");
    assert_eq!(plan.checksum_sha256_hex, "abc");
    assert_eq!(plan.uploaded_at_epoch_ms, 1001);
    let unprefixed = mark_uploaded_plan("s", 0, "e", "abc", 0);
    assert_eq!(unprefixed.checksum_sha256_hex, "abc");
}

#[test]
fn complete_plan_sends_the_prefixed_checksum() {
    let plan = complete_upload_plan(Some("up-1"), "application/json", 7, "sha256:abc", "etag-1");
    assert_eq!(plan.upload_id.as_deref(), Some("up-1"));
    assert_eq!(plan.content_type, "application/json");
    assert_eq!(plan.content_length, 7);
    assert_eq!(plan.checksum_sha256_hex, "sha256:abc");
    assert_eq!(plan.part_no, 1);
    assert_eq!(plan.part_etag, "etag-1");
    assert!(complete_upload_plan(None, "t", 0, "c", "e").upload_id.is_none());
}

#[test]
fn access_token_is_trimmed_and_skipped_when_blank() {
    assert_eq!(access_token_to_apply(Some("  token-1 \n".to_string())).as_deref(), Some("token-1"));
    assert_eq!(access_token_to_apply(Some("   ".to_string())), None);
    assert_eq!(access_token_to_apply(None), None);
}

fn internal(error: CanvasProductError) -> String {
    match error {
        CanvasProductError::Internal(message) => message,
        other => panic!("expected an internal error, got {other:?}"),
    }
}

#[test]
fn drive_failures_become_internal_errors_with_context() {
    assert_eq!(
        internal(drive_call_error("list Drive file versions", "timeout")),
        "list Drive file versions: timeout"
    );
    assert_eq!(
        internal(transfer_error("upload Drive object bytes", "connection reset")),
        "upload Drive object bytes failed: connection reset"
    );
    assert_eq!(
        internal(transfer_status_error("download Drive content", "404 Not Found", "missing")),
        "download Drive content failed with status 404 Not Found: missing"
    );
}
