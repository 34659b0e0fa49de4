//! The data that the canvas page service exchanges with a Drive content port:
//! product errors, Drive file versions, version pages, content snapshots, the
//! commands handed to a port, and a JSON document model for page content.

use vstd::prelude::*;

verus! {

/// Errors of the canvas product service.
#[derive(Debug)]
pub enum CanvasProductError {
    Validation(String),
    Conflict(String),
    NotFound(String),
    PermissionDenied(String),
    Internal(String),
}

/// `error` is an internal error carrying exactly `message`.
pub open spec fn is_internal_error(error: CanvasProductError, message: Seq<char>) -> bool {
    error matches CanvasProductError::Internal(m) && m@ == message
}

/// A JSON number: non-negative and negative integers exactly, other numbers by
/// their shortest decimal rendering.
#[derive(Debug)]
pub enum JsonNumber {
    PosInt(u64),
    NegInt(i64),
    Float(String),
}

/// One member of a JSON object.
#[derive(Debug)]
pub struct JsonMember {
    pub key: String,
    pub value: JsonValue,
}

/// A JSON document, as page content is stored in Drive. An object keeps its
/// members in order; where a key occurs more than once, lookups take its first
/// member (objects parsed from JSON text hold each key once).
#[derive(Debug)]
pub enum JsonValue {
    Null,
    Bool(bool),
    Number(JsonNumber),
    String(String),
    Array(Vec<JsonValue>),
    Object(Vec<JsonMember>),
}

/// The value of the first member of `members` named `key`.
pub open spec fn object_get(members: Seq<JsonMember>, key: Seq<char>) -> Option<JsonValue>
    decreases members.len(),
{
    if members.len() == 0 {
        None
    } else if members[0].key@ == key {
        Some(members[0].value)
    } else {
        object_get(members.drop_first(), key)
    }
}

/// `value.get(key)`: the member `key` of an object, `None` for other values.
pub open spec fn json_get(value: JsonValue, key: Seq<char>) -> Option<JsonValue> {
    match value {
        JsonValue::Object(members) => object_get(members@, key),
        _ => None,
    }
}

/// `value.as_str()`.
pub open spec fn json_as_str(value: JsonValue) -> Option<Seq<char>> {
    match value {
        JsonValue::String(s) => Some(s@),
        _ => None,
    }
}

/// `value.as_i64()`: integers that fit in `i64`.
pub open spec fn json_as_i64(value: JsonValue) -> Option<i64> {
    match value {
        JsonValue::Number(JsonNumber::PosInt(n)) => if n <= i64::MAX {
            Some(n as i64)
        } else {
            None
        },
        JsonValue::Number(JsonNumber::NegInt(n)) => Some(n),
        _ => None,
    }
}

/// A version of a Drive file node.
#[derive(Debug)]
pub struct FileVersion {
    pub id: String,
    pub version_no: i64,
    pub content_type: String,
    pub checksum_sha256_hex: String,
    pub created_at: String,
}

/// One entry of a page's Drive version history.
#[derive(Debug)]
pub struct DriveVersionSummary {
    pub drive_version_id: String,
    pub drive_version_no: i64,
    pub version_kind: String,
    pub version_label: Option<String>,
    pub change_summary: Option<String>,
    pub created_at: String,
}

/// Paging information of a listed page.
#[derive(Debug)]
pub struct PageInfo {
    pub page: u32,
    pub page_size: u32,
    pub has_more: bool,
    pub next_cursor: Option<String>,
}

/// One page of a page's Drive version history.
#[derive(Debug)]
pub struct DriveVersionPage {
    pub items: Vec<DriveVersionSummary>,
    pub page_info: PageInfo,
}

/// Page content as stored in one Drive version, with metrics read from it.
#[derive(Debug)]
pub struct DrivePageContentSnapshot {
    pub drive_space_id: String,
    pub drive_node_id: String,
    pub drive_uri: String,
    pub drive_version_id: String,
    pub drive_version_no: i64,
    pub content_type: String,
    pub content_schema_version: String,
    pub content_hash: Option<String>,
    pub snippet: Option<String>,
    pub word_count: i64,
    pub task_count: i64,
    pub content: JsonValue,
}

/// Request to store the first content of a page in Drive.
#[derive(Debug)]
pub struct CreateDrivePageContentCommand {
    pub tenant_id: String,
    pub organization_id: String,
    pub operator_id: String,
    pub page_id: String,
    pub title: String,
    pub drive_space_id: String,
    pub folder_drive_node_id: Option<String>,
    pub content_type: String,
    pub content_schema_version: String,
    pub content: JsonValue,
}

/// Request to store a new content version of a page.
#[derive(Debug)]
pub struct UpdateDrivePageContentCommand {
    pub tenant_id: String,
    pub operator_id: String,
    pub page_id: String,
    pub drive_space_id: String,
    pub drive_node_id: String,
    pub expected_drive_version_id: Option<String>,
    pub content_type: String,
    pub content_schema_version: String,
    pub content: JsonValue,
}

/// Request to read the current content of a page.
#[derive(Debug)]
pub struct ReadDrivePageContentCommand {
    pub tenant_id: String,
    pub drive_space_id: String,
    pub drive_node_id: String,
    pub current_drive_version_id: String,
}

/// Request to list the Drive versions of a page.
#[derive(Debug)]
pub struct ListDrivePageContentVersionsCommand {
    pub tenant_id: String,
    pub drive_node_id: String,
    pub page: u32,
    pub page_size: u32,
}

/// Request to restore an earlier Drive version of a page.
#[derive(Debug)]
pub struct RestoreDrivePageContentVersionCommand {
    pub tenant_id: String,
    pub drive_space_id: String,
    pub drive_node_id: String,
    pub drive_version_id: String,
    pub expected_current_drive_version_id: Option<String>,
}

} // verus!
