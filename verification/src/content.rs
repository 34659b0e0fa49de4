//! Page content snapshots: the Drive URI of a page node, the metrics read from
//! the content (snippet, word and task counts), and the snapshot built from a
//! Drive version and its content.

use vstd::prelude::*;
use crate::domain::{
    json_as_i64, json_as_str, json_get, CanvasProductError, CreateDrivePageContentCommand,
    DrivePageContentSnapshot, FileVersion, JsonMember, JsonNumber, JsonValue, ReadDrivePageContentCommand,
    RestoreDrivePageContentVersionCommand, UpdateDrivePageContentCommand, object_get,
};

verus! {

/// `drive://spaces/{space}/nodes/{node}`.
pub open spec fn drive_uri_spec(drive_space_id: Seq<char>, drive_node_id: Seq<char>) -> Seq<char> {
    "drive://spaces/"@ + drive_space_id + "/nodes/"@ + drive_node_id
}

/// The Drive URI of a page node.
pub fn drive_uri(drive_space_id: &str, drive_node_id: &str) -> (uri: String)
    ensures
        uri@ == drive_uri_spec(drive_space_id@, drive_node_id@),
{
    let mut uri = String::from_str("drive://spaces/");
    uri.append(drive_space_id);
    uri.append("/nodes/");
    uri.append(drive_node_id);
    uri
}

/// `content.get(first).or_else(|| content.get(second))`.
pub open spec fn member_either(content: JsonValue, first: Seq<char>, second: Seq<char>) -> Option<
    JsonValue,
> {
    match json_get(content, first) {
        Some(v) => Some(v),
        None => json_get(content, second),
    }
}

/// The snippet of page content: its `title` member, else its `snippet` member,
/// when that member is a string.
pub open spec fn content_snippet(content: JsonValue) -> Option<Seq<char>> {
    match member_either(content, "title"@, "snippet"@) {
        Some(v) => json_as_str(v),
        None => None,
    }
}

/// A count read from the camel-case member, else the snake-case one, when it is
/// an integer that fits `i64`; 0 otherwise.
pub open spec fn content_count(content: JsonValue, camel: Seq<char>, snake: Seq<char>) -> i64 {
    match member_either(content, camel, snake) {
        Some(v) => match json_as_i64(v) {
            Some(n) => n,
            None => 0,
        },
        None => 0,
    }
}

/// The word count of page content.
pub open spec fn content_word_count(content: JsonValue) -> i64 {
    content_count(content, "wordCount"@, "word_count"@)
}

/// The task count of page content.
pub open spec fn content_task_count(content: JsonValue) -> i64 {
    content_count(content, "taskCount"@, "task_count"@)
}

/// Law: the snippet is the whole `title` string when the content has one, and
/// otherwise the whole `snippet` string when there is that member; a `title`
/// that is not a string gives no snippet.
pub proof fn law_snippet_is_whole_member(content: JsonValue, text: String)
    ensures
        json_get(content, "title"@) == Some(JsonValue::String(text)) ==> content_snippet(content)
            == Some(text@),
        json_get(content, "title"@) is None && json_get(content, "snippet"@) == Some(
            JsonValue::String(text),
        ) ==> content_snippet(content) == Some(text@),
        (json_get(content, "title"@) matches Some(v) && !(v is String)) ==> content_snippet(content) is None,
{
}

/// `value.get(key)`.
pub fn json_member<'a>(value: &'a JsonValue, key: &str) -> (member: Option<&'a JsonValue>)
    ensures
        member matches Some(m) ==> json_get(*value, key@) == Some(*m),
        member is None ==> json_get(*value, key@) is None,
{
    match value {
        JsonValue::Object(members) => {
            let k = String::from_str(key);
            let n = members.len();
            let mut i: usize = 0;
            assert(members@.skip(0) =~= members@);
            while i < n
                invariant
                    i <= n == members@.len(),
                    k@ == key@,
                    json_get(*value, key@) == object_get(members@, key@),
                    object_get(members@, key@) == object_get(members@.skip(i as int), key@),
                decreases n - i,
            {
                assert(members@.skip(i as int).drop_first() =~= members@.skip(i + 1));
                if members[i].key == k {
                    assert(members@.skip(i as int)[0] == members@[i as int]);
                    assert(members@[i as int].key@ == key@);
                    assert(object_get(members@.skip(i as int), key@) == Some(members@[i as int].value));
                    return Some(&members[i].value);
                }
                i = i + 1;
            }
            assert(members@.skip(n as int).len() == 0);
            None
        },
        _ => None,
    }
}

/// `content.get(first).or_else(|| content.get(second))`.
fn json_member_either<'a>(content: &'a JsonValue, first: &str, second: &str) -> (member: Option<
    &'a JsonValue,
>)
    ensures
        member matches Some(m) ==> member_either(*content, first@, second@) == Some(*m),
        member is None ==> member_either(*content, first@, second@) is None,
{
    match json_member(content, first) {
        Some(m) => Some(m),
        None => json_member(content, second),
    }
}

/// `value.as_str()`, copied.
pub fn json_string(value: &JsonValue) -> (s: Option<String>)
    ensures
        s matches Some(t) ==> json_as_str(*value) == Some(t@),
        s is None ==> json_as_str(*value) is None,
{
    match value {
        JsonValue::String(t) => Some(t.clone()),
        _ => None,
    }
}

/// `value.as_i64()`.
pub fn json_i64(value: &JsonValue) -> (n: Option<i64>)
    ensures
        n == json_as_i64(*value),
{
    match value {
        JsonValue::Number(JsonNumber::PosInt(p)) => if *p <= i64::MAX as u64 {
            Some(*p as i64)
        } else {
            None
        },
        JsonValue::Number(JsonNumber::NegInt(m)) => Some(*m),
        _ => None,
    }
}

fn content_count_of(content: &JsonValue, camel: &str, snake: &str) -> (n: i64)
    ensures
        n == content_count(*content, camel@, snake@),
{
    match json_member_either(content, camel, snake) {
        Some(v) => match json_i64(v) {
            Some(n) => n,
            None => 0,
        },
        None => 0,
    }
}

/// The snippet, word count and task count of page content.
pub fn extract_content_metrics(content: &JsonValue) -> (metrics: (Option<String>, i64, i64))
    ensures
        metrics.0 matches Some(s) ==> content_snippet(*content) == Some(s@),
        metrics.0 is None ==> content_snippet(*content) is None,
        metrics.1 == content_word_count(*content),
        metrics.2 == content_task_count(*content),
{
    let snippet = match json_member_either(content, "title", "snippet") {
        Some(v) => json_string(v),
        None => None,
    };
    let word_count = content_count_of(content, "wordCount", "word_count");
    let task_count = content_count_of(content, "taskCount", "task_count");
    (snippet, word_count, task_count)
}

/// `snapshot` is the snapshot of `content` stored as `version` of the node, with
/// the given content type and schema version.
pub open spec fn is_snapshot_of(
    snapshot: DrivePageContentSnapshot,
    drive_space_id: Seq<char>,
    drive_node_id: Seq<char>,
    version: FileVersion,
    content_type: Seq<char>,
    content_schema_version: Seq<char>,
    content: JsonValue,
) -> bool {
    &&& snapshot.drive_space_id@ == drive_space_id
    &&& snapshot.drive_node_id@ == drive_node_id
    &&& snapshot.drive_uri@ == drive_uri_spec(drive_space_id, drive_node_id)
    &&& snapshot.drive_version_id@ == version.id@
    &&& snapshot.drive_version_no == version.version_no
    &&& snapshot.content_type@ == content_type
    &&& snapshot.content_schema_version@ == content_schema_version
    &&& snapshot.content_hash matches Some(h) && h@ == version.checksum_sha256_hex@
    &&& (snapshot.snippet matches Some(s) ==> content_snippet(content) == Some(s@))
    &&& (snapshot.snippet is None ==> content_snippet(content) is None)
    &&& snapshot.word_count == content_word_count(content)
    &&& snapshot.task_count == content_task_count(content)
    &&& snapshot.content == content
}

/// The snapshot of `content` stored as `version` of a page node.
pub fn snapshot_from_version_and_content(
    drive_space_id: &str,
    drive_node_id: &str,
    version: &FileVersion,
    content_type: &str,
    content_schema_version: &str,
    content: JsonValue,
) -> (res: Result<DrivePageContentSnapshot, CanvasProductError>)
    ensures
        res matches Ok(snapshot) && is_snapshot_of(
            snapshot,
            drive_space_id@,
            drive_node_id@,
            *version,
            content_type@,
            content_schema_version@,
            content,
        ),
{
    let (snippet, word_count, task_count) = extract_content_metrics(&content);
    Ok(
        DrivePageContentSnapshot {
            drive_space_id: String::from_str(drive_space_id),
            drive_node_id: String::from_str(drive_node_id),
            drive_uri: drive_uri(drive_space_id, drive_node_id),
            drive_version_id: version.id.clone(),
            drive_version_no: version.version_no,
            content_type: String::from_str(content_type),
            content_schema_version: String::from_str(content_schema_version),
            content_hash: Some(version.checksum_sha256_hex.clone()),
            snippet,
            word_count,
            task_count,
            content,
        },
    )
}

/// The snapshot of content just written as `version` of a page node.
pub fn build_snapshot(
    drive_space_id: &str,
    drive_node_id: &str,
    version: &FileVersion,
    content_type: &str,
    content_schema_version: &str,
    content: JsonValue,
) -> (res: Result<DrivePageContentSnapshot, CanvasProductError>)
    ensures
        res matches Ok(snapshot) && is_snapshot_of(
            snapshot,
            drive_space_id@,
            drive_node_id@,
            *version,
            content_type@,
            content_schema_version@,
            content,
        ),
{
    snapshot_from_version_and_content(
        drive_space_id,
        drive_node_id,
        version,
        content_type,
        content_schema_version,
        content,
    )
}

/// The content type recorded for content read back from Drive.
pub const READ_CONTENT_TYPE: &'static str = "application/json";

/// The schema version recorded for content read back from Drive.
pub const READ_SCHEMA_VERSION: &'static str = "canvas/v1";

/// The snapshot of a created page: the content of the command stored as
/// `version` of the node that Drive created in `space_id`.
pub fn created_page_snapshot(
    command: CreateDrivePageContentCommand,
    node_id: &str,
    space_id: &str,
    version: &FileVersion,
) -> (res: Result<DrivePageContentSnapshot, CanvasProductError>)
    ensures
        res matches Ok(snapshot) && is_snapshot_of(
            snapshot,
            space_id@,
            node_id@,
            *version,
            command.content_type@,
            command.content_schema_version@,
            command.content,
        ),
{
    build_snapshot(
        space_id,
        node_id,
        version,
        command.content_type.as_str(),
        command.content_schema_version.as_str(),
        command.content,
    )
}

/// The snapshot of an updated page: the content of the command stored as
/// `version` of the page's node.
pub fn updated_page_snapshot(command: UpdateDrivePageContentCommand, version: &FileVersion) -> (res:
    Result<DrivePageContentSnapshot, CanvasProductError>)
    ensures
        res matches Ok(snapshot) && is_snapshot_of(
            snapshot,
            command.drive_space_id@,
            command.drive_node_id@,
            *version,
            command.content_type@,
            command.content_schema_version@,
            command.content,
        ),
{
    build_snapshot(
        command.drive_space_id.as_str(),
        command.drive_node_id.as_str(),
        version,
        command.content_type.as_str(),
        command.content_schema_version.as_str(),
        command.content,
    )
}

/// The snapshot of content read back from the page's current version.
pub fn read_page_snapshot(
    command: &ReadDrivePageContentCommand,
    version: &FileVersion,
    content: JsonValue,
) -> (res: Result<DrivePageContentSnapshot, CanvasProductError>)
    ensures
        res matches Ok(snapshot) && is_snapshot_of(
            snapshot,
            command.drive_space_id@,
            command.drive_node_id@,
            *version,
            READ_CONTENT_TYPE@,
            READ_SCHEMA_VERSION@,
            content,
        ),
{
    snapshot_from_version_and_content(
        command.drive_space_id.as_str(),
        command.drive_node_id.as_str(),
        version,
        READ_CONTENT_TYPE,
        READ_SCHEMA_VERSION,
        content,
    )
}

/// The snapshot of restored content: stored as the version Drive created by the
/// restore, with that version's content type.
pub fn restored_page_snapshot(
    command: &RestoreDrivePageContentVersionCommand,
    after: &FileVersion,
    content: JsonValue,
) -> (res: Result<DrivePageContentSnapshot, CanvasProductError>)
    ensures
        res matches Ok(snapshot) && is_snapshot_of(
            snapshot,
            command.drive_space_id@,
            command.drive_node_id@,
            *after,
            after.content_type@,
            READ_SCHEMA_VERSION@,
            content,
        ),
{
    snapshot_from_version_and_content(
        command.drive_space_id.as_str(),
        command.drive_node_id.as_str(),
        after,
        after.content_type.as_str(),
        READ_SCHEMA_VERSION,
        content,
    )
}

} // verus!
