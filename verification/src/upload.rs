//! The decisions of a Drive upload: the ids and fields of an upload request, the
//! upload session of a new version, the part's ETag, the access token applied
//! to the Drive client, and the errors reported when a Drive call fails.

use vstd::prelude::*;
use vstd::string::StrSliceExecFns;
use crate::checksum::{checksum_hex, SHA256_PREFIX};
use crate::decimal::{decimal_int, i64_to_decimal};
use crate::domain::{is_internal_error, CanvasProductError, CreateDrivePageContentCommand};
use crate::drive_port::opt_chars;
use crate::text::{is_blank, is_blank_spec, strip_prefix_or_keep, trim, trim_char, trim_char_spec, trim_spec};

verus! {

/// The application resource type of canvas page uploads.
pub const CANVAS_RESOURCE_TYPE: &'static str = "canvas_page";

/// The upload profile of canvas page uploads.
pub const CANVAS_UPLOAD_PROFILE: &'static str = "generic";

/// The scene of canvas page uploads.
pub const CANVAS_CONTENT_SCENE: &'static str = "canvas_page_content";

/// The source of canvas page uploads.
pub const CANVAS_CONTENT_SOURCE: &'static str = "canvas_product_service";

/// Lifetime of a new-version upload session, in milliseconds.
pub const UPLOAD_SESSION_TTL_MS: i64 = 3600000;

/// Lifetime requested for presigned part and download URLs, in seconds.
pub const PRESIGNED_URL_TTL_SECONDS: i64 = 900;

/// The smallest chunk size announced for an upload, in bytes.
pub const MIN_CHUNK_SIZE_BYTES: usize = 8;

/// The ETag recorded when the object store returns none.
pub const DEFAULT_ETAG: &'static str = "\"uploaded\"";

/// `canvas-{kind}-{page_id}-{epoch_ms}`.
pub open spec fn canvas_scoped_id_spec(kind: Seq<char>, page_id: Seq<char>, epoch_ms: i64) -> Seq<
    char,
> {
    "canvas-"@ + kind + "-"@ + page_id + "-"@ + decimal_int(epoch_ms as int)
}

/// The id `canvas-{kind}-{page_id}-{epoch_ms}` of an upload artefact of a page.
pub fn canvas_scoped_id(kind: &str, page_id: &str, epoch_ms: i64) -> (id: String)
    ensures
        id@ == canvas_scoped_id_spec(kind@, page_id@, epoch_ms),
{
    let mut id = String::from_str("canvas-");
    id.append(kind);
    id.append("-");
    id.append(page_id);
    id.append("-");
    let ms = i64_to_decimal(epoch_ms);
    id.append(ms.as_str());
    id
}

/// The fields of the request that prepares the upload of a new page.
#[derive(Debug)]
pub struct PrepareUploadPlan {
    pub id: String,
    pub task_id: String,
    pub organization_id: String,
    pub app_resource_type: String,
    pub app_resource_id: String,
    pub upload_profile_code: String,
    pub file_fingerprint: String,
    pub original_file_name: String,
    pub content_type: String,
    pub content_length: i64,
    pub chunk_size_bytes: i64,
    pub space_id: String,
    pub parent_node_id: Option<String>,
    pub now_epoch_ms: i64,
    pub scene: String,
    pub source: String,
}

/// `plan` prepares the upload of `body_len` bytes with checksum `checksum` for
/// the page of `command` at `epoch_ms`.
pub open spec fn is_prepare_plan(
    plan: PrepareUploadPlan,
    command: CreateDrivePageContentCommand,
    body_len: nat,
    checksum: Seq<char>,
    epoch_ms: i64,
) -> bool {
    &&& plan.id@ == canvas_scoped_id_spec("upload"@, command.page_id@, epoch_ms)
    &&& plan.task_id@ == canvas_scoped_id_spec("task"@, command.page_id@, epoch_ms)
    &&& plan.organization_id@ == command.organization_id@
    &&& plan.app_resource_type@ == CANVAS_RESOURCE_TYPE@
    &&& plan.app_resource_id@ == command.page_id@
    &&& plan.upload_profile_code@ == CANVAS_UPLOAD_PROFILE@
    &&& plan.file_fingerprint@ == checksum
    &&& plan.original_file_name@ == command.title@ + ".json"@
    &&& plan.content_type@ == command.content_type@
    &&& plan.content_length == body_len
    &&& plan.chunk_size_bytes == (if body_len >= MIN_CHUNK_SIZE_BYTES {
        body_len as int
    } else {
        MIN_CHUNK_SIZE_BYTES as int
    })
    &&& plan.space_id@ == command.drive_space_id@
    &&& (plan.parent_node_id matches Some(p) ==> command.folder_drive_node_id matches Some(f) && p@
        == f@)
    &&& (plan.parent_node_id is None <==> command.folder_drive_node_id is None)
    &&& plan.now_epoch_ms == epoch_ms
    &&& plan.scene@ == CANVAS_CONTENT_SCENE@
    &&& plan.source@ == CANVAS_CONTENT_SOURCE@
}

/// Law: an upload is prepared for the whole body: its content length is the
/// body's length, and one chunk of at least the smallest chunk size holds it.
pub proof fn law_prepare_covers_body(
    plan: PrepareUploadPlan,
    command: CreateDrivePageContentCommand,
    body_len: nat,
    checksum: Seq<char>,
    epoch_ms: i64,
)
    requires
        is_prepare_plan(plan, command, body_len, checksum, epoch_ms),
    ensures
        plan.content_length == body_len,
        plan.chunk_size_bytes >= plan.content_length,
        plan.chunk_size_bytes >= 8,
        body_len >= 8 ==> plan.chunk_size_bytes == body_len,
        plan.now_epoch_ms == epoch_ms,
{
}

/// The upload request for the first content of a page.
pub fn prepare_upload_plan(
    command: &CreateDrivePageContentCommand,
    body_len: usize,
    checksum: &str,
    epoch_ms: i64,
) -> (plan: PrepareUploadPlan)
    requires
        body_len <= i64::MAX,
    ensures
        is_prepare_plan(plan, *command, body_len as nat, checksum@, epoch_ms),
{
    let mut file_name = command.title.clone();
    file_name.append(".json");
    let chunk: usize = if body_len >= MIN_CHUNK_SIZE_BYTES {
        body_len
    } else {
        MIN_CHUNK_SIZE_BYTES
    };
    PrepareUploadPlan {
        id: canvas_scoped_id("upload", command.page_id.as_str(), epoch_ms),
        task_id: canvas_scoped_id("task", command.page_id.as_str(), epoch_ms),
        organization_id: command.organization_id.clone(),
        app_resource_type: String::from_str(CANVAS_RESOURCE_TYPE),
        app_resource_id: command.page_id.clone(),
        upload_profile_code: String::from_str(CANVAS_UPLOAD_PROFILE),
        file_fingerprint: String::from_str(checksum),
        original_file_name: file_name,
        content_type: command.content_type.clone(),
        content_length: body_len as i64,
        chunk_size_bytes: chunk as i64,
        space_id: command.drive_space_id.clone(),
        parent_node_id: match &command.folder_drive_node_id {
            Some(f) => Some(f.clone()),
            None => None,
        },
        now_epoch_ms: epoch_ms,
        scene: String::from_str(CANVAS_CONTENT_SCENE),
        source: String::from_str(CANVAS_CONTENT_SOURCE),
    }
}

/// The fields of the upload session that carries a new content version.
#[derive(Debug)]
pub struct UploadSessionPlan {
    pub session_id: String,
    pub space_id: String,
    pub node_id: String,
    pub idempotency_key: String,
    pub expires_at_epoch_ms: i64,
}

/// `plan` opens, at `epoch_ms`, the upload session of a new content version of
/// the page `page_id` stored as the node `drive_node_id`.
pub open spec fn is_session_plan(
    plan: UploadSessionPlan,
    drive_space_id: Seq<char>,
    drive_node_id: Seq<char>,
    page_id: Seq<char>,
    epoch_ms: i64,
) -> bool {
    &&& plan.session_id@ == canvas_scoped_id_spec("session"@, page_id, epoch_ms)
    &&& plan.space_id@ == drive_space_id
    &&& plan.node_id@ == drive_node_id
    &&& plan.idempotency_key@ == canvas_scoped_id_spec("content"@, page_id, epoch_ms)
    &&& plan.expires_at_epoch_ms == epoch_ms + UPLOAD_SESSION_TTL_MS
}

/// Law: an upload session expires exactly one hour (3,600,000 ms) after the
/// time it is opened at.
pub proof fn law_session_expires_an_hour_later(
    plan: UploadSessionPlan,
    drive_space_id: Seq<char>,
    drive_node_id: Seq<char>,
    page_id: Seq<char>,
    epoch_ms: i64,
)
    requires
        is_session_plan(plan, drive_space_id, drive_node_id, page_id, epoch_ms),
    ensures
        plan.expires_at_epoch_ms - epoch_ms == 3600000,
{
}

/// The upload session for a new content version of a page node, opened at
/// `epoch_ms` and expiring an hour later.
pub fn upload_session_plan(drive_space_id: &str, drive_node_id: &str, page_id: &str, epoch_ms: i64) -> (plan:
    UploadSessionPlan)
    requires
        epoch_ms + UPLOAD_SESSION_TTL_MS <= i64::MAX,
    ensures
        is_session_plan(plan, drive_space_id@, drive_node_id@, page_id@, epoch_ms),
{
    UploadSessionPlan {
        session_id: canvas_scoped_id("session", page_id, epoch_ms),
        space_id: String::from_str(drive_space_id),
        node_id: String::from_str(drive_node_id),
        idempotency_key: canvas_scoped_id("content", page_id, epoch_ms),
        expires_at_epoch_ms: epoch_ms + UPLOAD_SESSION_TTL_MS,
    }
}

/// The part number of the single part a page upload consists of.
pub const SINGLE_PART_NO: i64 = 1;

/// The fields of the request that presigns the single part of an upload.
#[derive(Debug)]
pub struct PresignPartPlan {
    pub part_no: i64,
    pub upload_id: Option<String>,
    pub requested_ttl_seconds: i64,
}

/// The characters of an optional string slice.
pub open spec fn opt_str_chars(value: Option<&str>) -> Option<Seq<char>> {
    match value {
        Some(s) => Some(s@),
        None => None,
    }
}

/// `plan` presigns the single part of the storage upload `storage_upload_id`.
pub open spec fn is_presign_plan(plan: PresignPartPlan, storage_upload_id: Option<Seq<char>>) -> bool {
    &&& plan.part_no == SINGLE_PART_NO
    &&& opt_chars(plan.upload_id) == storage_upload_id
    &&& plan.requested_ttl_seconds == PRESIGNED_URL_TTL_SECONDS
}

/// The presign request for the single part of an upload session.
pub fn presign_part_plan(storage_upload_id: Option<&str>) -> (plan: PresignPartPlan)
    ensures
        is_presign_plan(plan, opt_str_chars(storage_upload_id)),
{
    PresignPartPlan {
        part_no: SINGLE_PART_NO,
        upload_id: match storage_upload_id {
            Some(s) => Some(String::from_str(s)),
            None => None,
        },
        requested_ttl_seconds: PRESIGNED_URL_TTL_SECONDS,
    }
}

/// The fields of the request that marks the single part of an upload item as
/// uploaded.
#[derive(Debug)]
pub struct MarkUploadedPlan {
    pub part_no: i64,
    pub upload_session_id: String,
    pub offset_bytes: i64,
    pub size_bytes: i64,
    pub etag: String,
    pub checksum_sha256_hex: String,
    pub uploaded_at_epoch_ms: i64,
}

/// `plan` marks the whole body of `body_len` bytes as the single part of the
/// session, with its ETag and the hex digest of its checksum.
pub open spec fn is_mark_plan(
    plan: MarkUploadedPlan,
    upload_session_id: Seq<char>,
    body_len: nat,
    etag: Seq<char>,
    checksum: Seq<char>,
    uploaded_at_epoch_ms: i64,
) -> bool {
    &&& plan.part_no == SINGLE_PART_NO
    &&& plan.upload_session_id@ == upload_session_id
    &&& plan.offset_bytes == 0
    &&& plan.size_bytes == body_len
    &&& plan.etag@ == etag
    &&& plan.checksum_sha256_hex@ == strip_prefix_or_keep(checksum, SHA256_PREFIX@)
    &&& plan.uploaded_at_epoch_ms == uploaded_at_epoch_ms
}

/// Law: the part marked as uploaded is the whole body: it starts at byte 0 and
/// ends at the body's length, which is the length the session is completed
/// with; the mark and the completion name the same part, with the same ETag, and
/// the mark sends the hex digest of the checksum the completion sends.
pub proof fn law_marked_part_is_whole_body(
    mark: MarkUploadedPlan,
    complete: CompleteUploadPlan,
    upload_session_id: Seq<char>,
    storage_upload_id: Option<Seq<char>>,
    content_type: Seq<char>,
    body_len: nat,
    etag: Seq<char>,
    checksum: Seq<char>,
    uploaded_at_epoch_ms: i64,
)
    requires
        is_mark_plan(mark, upload_session_id, body_len, etag, checksum, uploaded_at_epoch_ms),
        is_complete_plan(complete, storage_upload_id, content_type, body_len, checksum, etag),
    ensures
        mark.offset_bytes == 0,
        mark.size_bytes == body_len,
        mark.offset_bytes + mark.size_bytes == complete.content_length,
        mark.part_no == complete.part_no,
        mark.part_no == 1,
        mark.etag@ == complete.part_etag@,
        mark.checksum_sha256_hex@ == strip_prefix_or_keep(complete.checksum_sha256_hex@, SHA256_PREFIX@),
{
}

/// The mark-uploaded request for the whole body as one part: its size, ETag and
/// hex digest, uploaded at `uploaded_at_epoch_ms`.
pub fn mark_uploaded_plan(
    upload_session_id: &str,
    body_len: usize,
    etag: &str,
    checksum: &str,
    uploaded_at_epoch_ms: i64,
) -> (plan: MarkUploadedPlan)
    requires
        body_len <= i64::MAX,
    ensures
        is_mark_plan(plan, upload_session_id@, body_len as nat, etag@, checksum@, uploaded_at_epoch_ms),
{
    MarkUploadedPlan {
        part_no: SINGLE_PART_NO,
        upload_session_id: String::from_str(upload_session_id),
        offset_bytes: 0,
        size_bytes: body_len as i64,
        etag: String::from_str(etag),
        checksum_sha256_hex: checksum_hex(checksum),
        uploaded_at_epoch_ms,
    }
}

/// The fields of the request that completes an upload session of one part.
#[derive(Debug)]
pub struct CompleteUploadPlan {
    pub upload_id: Option<String>,
    pub content_type: String,
    pub content_length: i64,
    pub checksum_sha256_hex: String,
    pub part_no: i64,
    pub part_etag: String,
}

/// `plan` completes the storage upload `storage_upload_id` with its single part.
pub open spec fn is_complete_plan(
    plan: CompleteUploadPlan,
    storage_upload_id: Option<Seq<char>>,
    content_type: Seq<char>,
    body_len: nat,
    checksum: Seq<char>,
    etag: Seq<char>,
) -> bool {
    &&& opt_chars(plan.upload_id) == storage_upload_id
    &&& plan.content_type@ == content_type
    &&& plan.content_length == body_len
    &&& plan.checksum_sha256_hex@ == checksum
    &&& plan.part_no == SINGLE_PART_NO
    &&& plan.part_etag@ == etag
}

/// The completion request of a one-part upload session; the checksum is sent as
/// given, prefix included.
pub fn complete_upload_plan(
    storage_upload_id: Option<&str>,
    content_type: &str,
    body_len: usize,
    checksum: &str,
    etag: &str,
) -> (plan: CompleteUploadPlan)
    requires
        body_len <= i64::MAX,
    ensures
        is_complete_plan(plan, opt_str_chars(storage_upload_id), content_type@, body_len as nat, checksum@, etag@),
{
    CompleteUploadPlan {
        upload_id: match storage_upload_id {
            Some(s) => Some(String::from_str(s)),
            None => None,
        },
        content_type: String::from_str(content_type),
        content_length: body_len as i64,
        checksum_sha256_hex: String::from_str(checksum),
        part_no: SINGLE_PART_NO,
        part_etag: String::from_str(etag),
    }
}

/// The ETag of an uploaded part: the header without surrounding quotes, or the
/// default when that is missing or empty.
pub open spec fn part_etag_spec(header: Option<Seq<char>>) -> Seq<char> {
    match header {
        Some(h) => if trim_char_spec(h, '"').len() > 0 {
            trim_char_spec(h, '"')
        } else {
            DEFAULT_ETAG@
        },
        None => DEFAULT_ETAG@,
    }
}

/// The ETag recorded for an uploaded part, from the `etag` response header when
/// it was present and readable.
pub fn part_etag(header: Option<String>) -> (etag: String)
    ensures
        etag@ == part_etag_spec(
            match header {
                Some(h) => Some(h@),
                None => None,
            },
        ),
{
    match header {
        Some(h) => {
            let t = trim_char(h.as_str(), '"');
            if t.as_str().unicode_len() > 0 {
                t
            } else {
                String::from_str(DEFAULT_ETAG)
            }
        },
        None => String::from_str(DEFAULT_ETAG),
    }
}

/// The access token that the Drive client is given: the trimmed token, when it
/// is set and not blank.
pub fn access_token_to_apply(token: Option<String>) -> (applied: Option<String>)
    ensures
        applied matches Some(t) ==> token matches Some(u) && t@ == trim_spec(u@),
        applied is None <==> (token is None || is_blank_spec(Some(trim_spec(token->0@)))),
{
    match token {
        Some(u) => {
            let trimmed = trim(u.as_str());
            if !is_blank(Some(trimmed.as_str())) {
                Some(trimmed)
            } else {
                None
            }
        },
        None => None,
    }
}

/// The error of a failed Drive SDK call: `{context}: {detail}`.
pub fn drive_call_error(context: &str, detail: &str) -> (error: CanvasProductError)
    ensures
        is_internal_error(error, context@ + ": "@ + detail@),
{
    let mut m = String::from_str(context);
    m.append(": ");
    m.append(detail);
    CanvasProductError::Internal(m)
}

/// The error of a failed content transfer or conversion: `{action} failed: {detail}`.
pub fn transfer_error(action: &str, detail: &str) -> (error: CanvasProductError)
    ensures
        is_internal_error(error, action@ + " failed: "@ + detail@),
{
    let mut m = String::from_str(action);
    m.append(" failed: ");
    m.append(detail);
    CanvasProductError::Internal(m)
}

/// The error of a transfer answered with a failure status:
/// `{action} failed with status {status}: {body}`.
pub fn transfer_status_error(action: &str, status: &str, body: &str) -> (error: CanvasProductError)
    ensures
        is_internal_error(error, action@ + " failed with status "@ + status@ + ": "@ + body@),
{
    let mut m = String::from_str(action);
    m.append(" failed with status ");
    m.append(status);
    m.append(": ");
    m.append(body);
    CanvasProductError::Internal(m)
}

} // verus!
