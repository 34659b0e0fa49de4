//! The operations of the Drive facade port as state machines. Each takes the
//! answer of the call it asked for and says what comes next: another Drive
//! call, a part upload or a download run to their end, or the outcome.

use vstd::prelude::*;
use crate::content::{
    created_page_snapshot, is_snapshot_of, read_page_snapshot, restored_page_snapshot,
    updated_page_snapshot, READ_CONTENT_TYPE, READ_SCHEMA_VERSION,
};
use crate::domain::{
    is_internal_error, CanvasProductError, CreateDrivePageContentCommand, DrivePageContentSnapshot,
    FileVersion, JsonValue, ReadDrivePageContentCommand, RestoreDrivePageContentVersionCommand,
    UpdateDrivePageContentCommand,
};
use crate::checksum::{sha256_prefixed, sha256_prefixed_spec};
use crate::part_upload::{PartUpload, PartUploadAction};
use crate::upload::{
    drive_call_error, is_prepare_plan, is_presign_plan, is_session_plan, prepare_upload_plan, transfer_error,
    upload_session_plan, PrepareUploadPlan, UploadSessionPlan, UPLOAD_SESSION_TTL_MS,
};
use crate::versions::{
    ensure_expected_version, ensure_restore_advanced, latest_file_version, latest_version, RESTORE_NOT_ADVANCED,
    VERSION_CHANGED, VERSION_NOT_FOUND,
};

verus! {

/// An answer that moves an operation on; errors of single Drive calls are the
/// rendered failure, those of listings, uploads and downloads the error they
/// finished with.
#[derive(Debug)]
pub enum PageFlowEvent {
    Listed(Result<Vec<FileVersion>, CanvasProductError>),
    VersionFetched(Result<FileVersion, String>),
    Restored(Result<(), String>),
    Downloaded(Result<JsonValue, CanvasProductError>),
    BodyReady { body: Result<Vec<u8>, String>, now_epoch_ms: i64 },
    Prepared(Result<PreparedUpload, String>),
    SessionCreated(Result<CreatedSession, String>),
    PartUploaded(Result<(), CanvasProductError>),
}

/// What Drive answers to the preparation of a new page's upload.
#[derive(Debug)]
pub struct PreparedUpload {
    pub upload_session_id: String,
    pub storage_upload_id: String,
    pub upload_item_id: String,
    pub node_id: String,
    pub space_id: String,
}

/// What Drive answers to the creation of an upload session.
#[derive(Debug)]
pub struct CreatedSession {
    pub id: String,
    pub storage_upload_id: String,
}

/// The call an operation asks for next.
#[derive(Debug)]
pub enum PageFlowAction {
    ListVersions { node_id: String },
    GetVersion { node_id: String, version_id: String },
    RestoreVersion { node_id: String, version_id: String },
    DownloadContent { node_id: String },
    SerializeContent,
    PrepareUpload(PrepareUploadPlan),
    CreateUploadSession(UploadSessionPlan),
    UploadPart { upload: PartUpload, first: PartUploadAction, body: Vec<u8> },
}

/// An operation moved on: the next call with the operation that waits for its
/// answer, or the outcome.
#[derive(Debug)]
pub enum FlowStep<F> {
    Next(F, PageFlowAction),
    Done(Result<DrivePageContentSnapshot, CanvasProductError>),
}

/// The operation ends with the error `e`.
pub open spec fn ends_with_error<F>(step: FlowStep<F>, e: CanvasProductError) -> bool {
    step matches FlowStep::Done(Err(x)) && x == e
}

/// The operation ends with the internal error `message`.
pub open spec fn ends_internal<F>(step: FlowStep<F>, message: Seq<char>) -> bool {
    step matches FlowStep::Done(Err(x)) && is_internal_error(x, message)
}

/// The operation ends because the node has no version.
pub open spec fn ends_not_found<F>(step: FlowStep<F>) -> bool {
    step matches FlowStep::Done(Err(x)) && (x matches CanvasProductError::NotFound(m) && m@
        == VERSION_NOT_FOUND@)
}

/// `action` lists the versions of the node `node_id`.
pub open spec fn lists(action: PageFlowAction, node_id: String) -> bool {
    action matches PageFlowAction::ListVersions { node_id: n } && n == node_id
}

/// `action` downloads the content of the node `node_id`.
pub open spec fn downloads(action: PageFlowAction, node_id: String) -> bool {
    action matches PageFlowAction::DownloadContent { node_id: n } && n == node_id
}

/// `action` uploads `body`, with checksum `checksum`, as the single part of the
/// session `session_id`; the upload starts by presigning the part.
pub open spec fn uploads_part(
    action: PageFlowAction,
    session_id: String,
    storage_upload_id: String,
    upload_item_id: Option<String>,
    content_type: String,
    body: Vec<u8>,
    checksum: String,
) -> bool {
    action matches PageFlowAction::UploadPart { upload, first, body: b } && b == body
        && upload.upload_session_id == session_id && upload.storage_upload_id == Some(storage_upload_id)
        && upload.upload_item_id == upload_item_id && upload.content_type == content_type
        && upload.body_len == body@.len() && upload.checksum == checksum && upload.well_formed()
        && upload.stage is Presigning && (first matches PartUploadAction::Presign {
        upload_session_id,
        presign_plan,
    } && upload_session_id == session_id && is_presign_plan(presign_plan, Some(storage_upload_id@)))
}

/// The body answer of a serialisation fits the `i64` sizes of Drive requests.
pub open spec fn body_fits(event: PageFlowEvent) -> bool {
    event matches PageFlowEvent::BodyReady { body, .. } && (body matches Ok(b) ==> b@.len() <= i64::MAX)
}

/// Where a read stands.
#[derive(Debug)]
pub enum ReadStage {
    Resolving,
    Downloading { version: FileVersion },
}

/// Reading the current content of a page: its current version is looked up,
/// then the node's content downloaded.
#[derive(Debug)]
pub struct ReadFlow {
    pub command: ReadDrivePageContentCommand,
    pub stage: ReadStage,
}

impl ReadFlow {
    /// How many answers the operation waits for at most before it ends.
    pub open spec fn steps_left(&self) -> nat {
        match self.stage {
            ReadStage::Resolving => 2,
            ReadStage::Downloading { .. } => 1,
        }
    }

    /// Whether the read waits for `event`.
    pub open spec fn accepts(&self, event: PageFlowEvent) -> bool {
        match self.stage {
            ReadStage::Resolving => event is VersionFetched,
            ReadStage::Downloading { .. } => event is Downloaded,
        }
    }

    /// The first step of a read: the page's current version.
    pub fn start(command: ReadDrivePageContentCommand) -> (res: (ReadFlow, PageFlowAction))
        ensures
            res.0.command == command,
            res.0.stage is Resolving,
            res.1 matches PageFlowAction::GetVersion { node_id, version_id } && node_id
                == command.drive_node_id && version_id == command.current_drive_version_id,
    {
        let action = PageFlowAction::GetVersion {
            node_id: command.drive_node_id.clone(),
            version_id: command.current_drive_version_id.clone(),
        };
        (ReadFlow { command, stage: ReadStage::Resolving }, action)
    }

    /// Moves the read on by one answer.
    pub fn on_event(self, event: PageFlowEvent) -> (step: FlowStep<ReadFlow>)
        requires
            self.accepts(event),
        ensures
            step matches FlowStep::Next(f, _) ==> f.steps_left() < self.steps_left(),
            match (self.stage, event) {
                (ReadStage::Resolving, PageFlowEvent::VersionFetched(Err(e))) => ends_internal(
                    step,
                    "get Drive file version"@ + ": "@ + e@,
                ),
                (ReadStage::Resolving, PageFlowEvent::VersionFetched(Ok(v))) => step matches FlowStep::Next(
                    f,
                    a,
                ) && f.command == self.command && f.stage == (ReadStage::Downloading { version: v })
                    && downloads(a, self.command.drive_node_id),
                (ReadStage::Downloading { .. }, PageFlowEvent::Downloaded(Err(e))) => ends_with_error(
                    step,
                    e,
                ),
                (ReadStage::Downloading { version }, PageFlowEvent::Downloaded(Ok(content))) => step matches FlowStep::Done(
                    Ok(s),
                ) && is_snapshot_of(
                    s,
                    self.command.drive_space_id@,
                    self.command.drive_node_id@,
                    version,
                    READ_CONTENT_TYPE@,
                    READ_SCHEMA_VERSION@,
                    content,
                ),
                _ => false,
            },
    {
        let ReadFlow { command, stage } = self;
        match (stage, event) {
            (ReadStage::Resolving, PageFlowEvent::VersionFetched(Err(e))) => {
                FlowStep::Done(Err(drive_call_error("get Drive file version", e.as_str())))
            },
            (ReadStage::Resolving, PageFlowEvent::VersionFetched(Ok(version))) => {
                let action = PageFlowAction::DownloadContent { node_id: command.drive_node_id.clone() };
                FlowStep::Next(ReadFlow { command, stage: ReadStage::Downloading { version } }, action)
            },
            (ReadStage::Downloading { .. }, PageFlowEvent::Downloaded(Err(e))) => FlowStep::Done(Err(e)),
            (ReadStage::Downloading { version }, PageFlowEvent::Downloaded(Ok(content))) => {
                FlowStep::Done(read_page_snapshot(&command, &version, content))
            },
            (_, _) => FlowStep::Done(Err(CanvasProductError::Internal(String::new()))),
        }
    }
}

/// Where a restore stands.
#[derive(Debug)]
pub enum RestoreStage {
    CheckingExpected { expected: String },
    RecordingBefore,
    Restoring { before: FileVersion },
    RecordingAfter { before: FileVersion },
    Downloading { after: FileVersion },
}

/// Restoring an earlier version of a page: the expected current version is
/// checked when the command names one, the latest version recorded, the
/// restore requested, and the result accepted only when Drive recorded a newer
/// version, whose content is then downloaded.
#[derive(Debug)]
pub struct RestoreFlow {
    pub command: RestoreDrivePageContentVersionCommand,
    pub stage: RestoreStage,
}

impl RestoreFlow {
    /// How many answers the operation waits for at most before it ends.
    pub open spec fn steps_left(&self) -> nat {
        match self.stage {
            RestoreStage::CheckingExpected { .. } => 5,
            RestoreStage::RecordingBefore => 4,
            RestoreStage::Restoring { .. } => 3,
            RestoreStage::RecordingAfter { .. } => 2,
            RestoreStage::Downloading { .. } => 1,
        }
    }

    /// Whether the restore waits for `event`.
    pub open spec fn accepts(&self, event: PageFlowEvent) -> bool {
        match self.stage {
            RestoreStage::Restoring { .. } => event is Restored,
            RestoreStage::Downloading { .. } => event is Downloaded,
            _ => event is Listed,
        }
    }

    /// The first step of a restore: the node's versions, to check the expected
    /// version or, without one, to record the latest version.
    pub fn start(command: RestoreDrivePageContentVersionCommand) -> (res: (RestoreFlow, PageFlowAction))
        ensures
            res.0.command == command,
            match command.expected_current_drive_version_id {
                Some(x) => res.0.stage == (RestoreStage::CheckingExpected { expected: x }),
                None => res.0.stage is RecordingBefore,
            },
            lists(res.1, command.drive_node_id),
    {
        let action = PageFlowAction::ListVersions { node_id: command.drive_node_id.clone() };
        let stage = match &command.expected_current_drive_version_id {
            Some(x) => RestoreStage::CheckingExpected { expected: x.clone() },
            None => RestoreStage::RecordingBefore,
        };
        (RestoreFlow { command, stage }, action)
    }

    /// Moves the restore on by one answer.
    pub fn on_event(self, event: PageFlowEvent) -> (step: FlowStep<RestoreFlow>)
        requires
            self.accepts(event),
        ensures
            step matches FlowStep::Next(f, _) ==> f.steps_left() < self.steps_left(),
            match (self.stage, event) {
                (_, PageFlowEvent::Listed(Err(e))) => ends_with_error(step, e),
                (_, PageFlowEvent::Listed(Ok(vs))) if vs@.len() == 0 => ends_not_found(step),
                (RestoreStage::CheckingExpected { expected }, PageFlowEvent::Listed(Ok(vs))) => if latest_version(
                    vs@,
                ).id@ == expected@ {
                    step matches FlowStep::Next(f, a) && f.command == self.command && f.stage is RecordingBefore
                        && lists(a, self.command.drive_node_id)
                } else {
                    step matches FlowStep::Done(Err(x)) && (x matches CanvasProductError::Conflict(m) && m@
                        == VERSION_CHANGED@)
                },
                (RestoreStage::RecordingBefore, PageFlowEvent::Listed(Ok(vs))) => step matches FlowStep::Next(
                    f,
                    a,
                ) && f.command == self.command && f.stage == (RestoreStage::Restoring {
                    before: latest_version(vs@),
                }) && (a matches PageFlowAction::RestoreVersion { node_id, version_id } && node_id
                    == self.command.drive_node_id && version_id == self.command.drive_version_id),
                (RestoreStage::Restoring { .. }, PageFlowEvent::Restored(Err(e))) => ends_internal(
                    step,
                    "restore page content version"@ + ": "@ + e@,
                ),
                (RestoreStage::Restoring { before }, PageFlowEvent::Restored(Ok(()))) => step matches FlowStep::Next(
                    f,
                    a,
                ) && f.command == self.command && f.stage == (RestoreStage::RecordingAfter { before })
                    && lists(a, self.command.drive_node_id),
                (RestoreStage::RecordingAfter { before }, PageFlowEvent::Listed(Ok(vs))) => if latest_version(
                    vs@,
                ).version_no > before.version_no {
                    step matches FlowStep::Next(f, a) && f.command == self.command && f.stage == (
                    RestoreStage::Downloading { after: latest_version(vs@) }) && downloads(
                        a,
                        self.command.drive_node_id,
                    )
                } else {
                    ends_internal(step, RESTORE_NOT_ADVANCED@)
                },
                (RestoreStage::Downloading { .. }, PageFlowEvent::Downloaded(Err(e))) => ends_with_error(
                    step,
                    e,
                ),
                (RestoreStage::Downloading { after }, PageFlowEvent::Downloaded(Ok(content))) => step matches FlowStep::Done(
                    Ok(s),
                ) && is_snapshot_of(
                    s,
                    self.command.drive_space_id@,
                    self.command.drive_node_id@,
                    after,
                    after.content_type@,
                    READ_SCHEMA_VERSION@,
                    content,
                ),
                _ => false,
            },
    {
        let RestoreFlow { command, stage } = self;
        match (stage, event) {
            (_, PageFlowEvent::Listed(Err(e))) => FlowStep::Done(Err(e)),
            (RestoreStage::CheckingExpected { expected }, PageFlowEvent::Listed(Ok(vs))) => {
                match latest_file_version(vs) {
                    Err(e) => FlowStep::Done(Err(e)),
                    Ok(latest) => match ensure_expected_version(&latest, expected.as_str()) {
                        Err(e) => FlowStep::Done(Err(e)),
                        Ok(()) => {
                            let action = PageFlowAction::ListVersions { node_id: command.drive_node_id.clone() };
                            FlowStep::Next(RestoreFlow { command, stage: RestoreStage::RecordingBefore }, action)
                        },
                    },
                }
            },
            (RestoreStage::RecordingBefore, PageFlowEvent::Listed(Ok(vs))) => {
                match latest_file_version(vs) {
                    Err(e) => FlowStep::Done(Err(e)),
                    Ok(before) => {
                        let action = PageFlowAction::RestoreVersion {
                            node_id: command.drive_node_id.clone(),
                            version_id: command.drive_version_id.clone(),
                        };
                        FlowStep::Next(RestoreFlow { command, stage: RestoreStage::Restoring { before } }, action)
                    },
                }
            },
            (RestoreStage::Restoring { .. }, PageFlowEvent::Restored(Err(e))) => {
                FlowStep::Done(Err(drive_call_error("restore page content version", e.as_str())))
            },
            (RestoreStage::Restoring { before }, PageFlowEvent::Restored(Ok(()))) => {
                let action = PageFlowAction::ListVersions { node_id: command.drive_node_id.clone() };
                FlowStep::Next(RestoreFlow { command, stage: RestoreStage::RecordingAfter { before } }, action)
            },
            (RestoreStage::RecordingAfter { before }, PageFlowEvent::Listed(Ok(vs))) => {
                match latest_file_version(vs) {
                    Err(e) => FlowStep::Done(Err(e)),
                    Ok(after) => match ensure_restore_advanced(&before, &after) {
                        Err(e) => FlowStep::Done(Err(e)),
                        Ok(()) => {
                            let action = PageFlowAction::DownloadContent { node_id: command.drive_node_id.clone() };
                            FlowStep::Next(RestoreFlow { command, stage: RestoreStage::Downloading { after } }, action)
                        },
                    },
                }
            },
            (RestoreStage::Downloading { .. }, PageFlowEvent::Downloaded(Err(e))) => FlowStep::Done(Err(e)),
            (RestoreStage::Downloading { after }, PageFlowEvent::Downloaded(Ok(content))) => {
                FlowStep::Done(restored_page_snapshot(&command, &after, content))
            },
            (_, _) => FlowStep::Done(Err(CanvasProductError::Internal(String::new()))),
        }
    }
}

/// Where an update stands.
#[derive(Debug)]
pub enum UpdateStage {
    CheckingExpected { expected: String },
    Serializing,
    CreatingSession { body: Vec<u8>, checksum: String },
    Uploading,
    RecordingLatest,
}

/// Storing new content of a page: the expected current version is checked
/// when the command names one, the content serialised, an upload session
/// opened on the page's node, the body uploaded as its single part, and the
/// node's latest version then recorded.
#[derive(Debug)]
pub struct UpdateFlow {
    pub command: UpdateDrivePageContentCommand,
    pub stage: UpdateStage,
}

impl UpdateFlow {
    /// How many answers the operation waits for at most before it ends.
    pub open spec fn steps_left(&self) -> nat {
        match self.stage {
            UpdateStage::CheckingExpected { .. } => 5,
            UpdateStage::Serializing => 4,
            UpdateStage::CreatingSession { .. } => 3,
            UpdateStage::Uploading => 2,
            UpdateStage::RecordingLatest => 1,
        }
    }

    /// Whether the update waits for `event`; a body fits the `i64` sizes and
    /// the session's expiry time fits an `i64`.
    pub open spec fn accepts(&self, event: PageFlowEvent) -> bool {
        match self.stage {
            UpdateStage::CheckingExpected { .. } => event is Listed,
            UpdateStage::Serializing => body_fits(event) && (event matches PageFlowEvent::BodyReady {
                now_epoch_ms,
                ..
            } && now_epoch_ms + UPLOAD_SESSION_TTL_MS <= i64::MAX),
            UpdateStage::CreatingSession { body, .. } => event is SessionCreated && body@.len() <= i64::MAX,
            UpdateStage::Uploading => event is PartUploaded,
            UpdateStage::RecordingLatest => event is Listed,
        }
    }

    /// The first step of an update: the node's versions when an expected
    /// version is named, the serialised content otherwise.
    pub fn start(command: UpdateDrivePageContentCommand) -> (res: (UpdateFlow, PageFlowAction))
        ensures
            res.0.command == command,
            match command.expected_drive_version_id {
                Some(x) => res.0.stage == (UpdateStage::CheckingExpected { expected: x }) && lists(
                    res.1,
                    command.drive_node_id,
                ),
                None => res.0.stage is Serializing && res.1 is SerializeContent,
            },
    {
        match &command.expected_drive_version_id {
            Some(x) => {
                let stage = UpdateStage::CheckingExpected { expected: x.clone() };
                let action = PageFlowAction::ListVersions { node_id: command.drive_node_id.clone() };
                (UpdateFlow { command, stage }, action)
            },
            None => (UpdateFlow { command, stage: UpdateStage::Serializing }, PageFlowAction::SerializeContent),
        }
    }

    /// Moves the update on by one answer.
    pub fn on_event(self, event: PageFlowEvent) -> (step: FlowStep<UpdateFlow>)
        requires
            self.accepts(event),
        ensures
            step matches FlowStep::Next(f, _) ==> f.steps_left() < self.steps_left(),
            match (self.stage, event) {
                (_, PageFlowEvent::Listed(Err(e))) => ends_with_error(step, e),
                (_, PageFlowEvent::Listed(Ok(vs))) if vs@.len() == 0 => ends_not_found(step),
                (UpdateStage::CheckingExpected { expected }, PageFlowEvent::Listed(Ok(vs))) => if latest_version(
                    vs@,
                ).id@ == expected@ {
                    step matches FlowStep::Next(f, a) && f.command == self.command && f.stage is Serializing
                        && a is SerializeContent
                } else {
                    step matches FlowStep::Done(Err(x)) && (x matches CanvasProductError::Conflict(m) && m@
                        == VERSION_CHANGED@)
                },
                (UpdateStage::Serializing, PageFlowEvent::BodyReady { body: Err(e), .. }) => ends_internal(
                    step,
                    "serialize page content"@ + " failed: "@ + e@,
                ),
                (UpdateStage::Serializing, PageFlowEvent::BodyReady { body: Ok(b), now_epoch_ms }) => step matches FlowStep::Next(
                    f,
                    a,
                ) && f.command == self.command && (f.stage matches UpdateStage::CreatingSession {
                    body,
                    checksum,
                } && body == b && checksum@ == sha256_prefixed_spec(b@)) && (a matches PageFlowAction::CreateUploadSession(
                    plan,
                ) && is_session_plan(
                    plan,
                    self.command.drive_space_id@,
                    self.command.drive_node_id@,
                    self.command.page_id@,
                    now_epoch_ms,
                )),
                (UpdateStage::CreatingSession { .. }, PageFlowEvent::SessionCreated(Err(e))) => ends_internal(
                    step,
                    "create Drive upload session"@ + ": "@ + e@,
                ),
                (
                    UpdateStage::CreatingSession { body, checksum },
                    PageFlowEvent::SessionCreated(Ok(session)),
                ) => step matches FlowStep::Next(f, a) && f.command == self.command && f.stage is Uploading
                    && uploads_part(
                    a,
                    session.id,
                    session.storage_upload_id,
                    None,
                    self.command.content_type,
                    body,
                    checksum,
                ),
                (UpdateStage::Uploading, PageFlowEvent::PartUploaded(Err(e))) => ends_with_error(step, e),
                (UpdateStage::Uploading, PageFlowEvent::PartUploaded(Ok(()))) => step matches FlowStep::Next(
                    f,
                    a,
                ) && f.command == self.command && f.stage is RecordingLatest && lists(
                    a,
                    self.command.drive_node_id,
                ),
                (UpdateStage::RecordingLatest, PageFlowEvent::Listed(Ok(vs))) => step matches FlowStep::Done(
                    Ok(s),
                ) && is_snapshot_of(
                    s,
                    self.command.drive_space_id@,
                    self.command.drive_node_id@,
                    latest_version(vs@),
                    self.command.content_type@,
                    self.command.content_schema_version@,
                    self.command.content,
                ),
                _ => false,
            },
    {
        let UpdateFlow { command, stage } = self;
        match (stage, event) {
            (_, PageFlowEvent::Listed(Err(e))) => FlowStep::Done(Err(e)),
            (UpdateStage::CheckingExpected { expected }, PageFlowEvent::Listed(Ok(vs))) => {
                match latest_file_version(vs) {
                    Err(e) => FlowStep::Done(Err(e)),
                    Ok(latest) => match ensure_expected_version(&latest, expected.as_str()) {
                        Err(e) => FlowStep::Done(Err(e)),
                        Ok(()) => FlowStep::Next(
                            UpdateFlow { command, stage: UpdateStage::Serializing },
                            PageFlowAction::SerializeContent,
                        ),
                    },
                }
            },
            (UpdateStage::Serializing, PageFlowEvent::BodyReady { body: Err(e), .. }) => {
                FlowStep::Done(Err(transfer_error("serialize page content", e.as_str())))
            },
            (UpdateStage::Serializing, PageFlowEvent::BodyReady { body: Ok(body), now_epoch_ms }) => {
                let checksum = sha256_prefixed(body.as_slice());
                let plan = upload_session_plan(
                    command.drive_space_id.as_str(),
                    command.drive_node_id.as_str(),
                    command.page_id.as_str(),
                    now_epoch_ms,
                );
                FlowStep::Next(
                    UpdateFlow { command, stage: UpdateStage::CreatingSession { body, checksum } },
                    PageFlowAction::CreateUploadSession(plan),
                )
            },
            (UpdateStage::CreatingSession { .. }, PageFlowEvent::SessionCreated(Err(e))) => {
                FlowStep::Done(Err(drive_call_error("create Drive upload session", e.as_str())))
            },
            (UpdateStage::CreatingSession { body, checksum }, PageFlowEvent::SessionCreated(Ok(session))) => {
                let (upload, first) = PartUpload::start(
                    session.id,
                    Some(session.storage_upload_id),
                    None,
                    command.content_type.clone(),
                    body.len(),
                    checksum,
                );
                FlowStep::Next(
                    UpdateFlow { command, stage: UpdateStage::Uploading },
                    PageFlowAction::UploadPart { upload, first, body },
                )
            },
            (UpdateStage::Uploading, PageFlowEvent::PartUploaded(Err(e))) => FlowStep::Done(Err(e)),
            (UpdateStage::Uploading, PageFlowEvent::PartUploaded(Ok(()))) => {
                let action = PageFlowAction::ListVersions { node_id: command.drive_node_id.clone() };
                FlowStep::Next(UpdateFlow { command, stage: UpdateStage::RecordingLatest }, action)
            },
            (UpdateStage::RecordingLatest, PageFlowEvent::Listed(Ok(vs))) => {
                match latest_file_version(vs) {
                    Err(e) => FlowStep::Done(Err(e)),
                    Ok(latest) => FlowStep::Done(updated_page_snapshot(command, &latest)),
                }
            },
            (_, _) => FlowStep::Done(Err(CanvasProductError::Internal(String::new()))),
        }
    }
}

/// Where the creation of a page's content stands.
#[derive(Debug)]
pub enum CreateStage {
    Serializing,
    Preparing { body: Vec<u8>, checksum: String },
    Uploading { node_id: String, space_id: String },
    RecordingLatest { node_id: String, space_id: String },
}

/// Storing the first content of a page: the content is serialised, an upload
/// prepared (Drive creates the node), the body uploaded as the single part of
/// the prepared session, and the new node's latest version recorded.
#[derive(Debug)]
pub struct CreateFlow {
    pub command: CreateDrivePageContentCommand,
    pub stage: CreateStage,
}

impl CreateFlow {
    /// How many answers the operation waits for at most before it ends.
    pub open spec fn steps_left(&self) -> nat {
        match self.stage {
            CreateStage::Serializing => 4,
            CreateStage::Preparing { .. } => 3,
            CreateStage::Uploading { .. } => 2,
            CreateStage::RecordingLatest { .. } => 1,
        }
    }

    /// Whether the creation waits for `event`; a body fits the `i64` sizes.
    pub open spec fn accepts(&self, event: PageFlowEvent) -> bool {
        match self.stage {
            CreateStage::Serializing => body_fits(event),
            CreateStage::Preparing { body, .. } => event is Prepared && body@.len() <= i64::MAX,
            CreateStage::Uploading { .. } => event is PartUploaded,
            CreateStage::RecordingLatest { .. } => event is Listed,
        }
    }

    /// The first step of a creation: the serialised content.
    pub fn start(command: CreateDrivePageContentCommand) -> (res: (CreateFlow, PageFlowAction))
        ensures
            res.0.command == command,
            res.0.stage is Serializing,
            res.1 is SerializeContent,
    {
        (CreateFlow { command, stage: CreateStage::Serializing }, PageFlowAction::SerializeContent)
    }

    /// Moves the creation on by one answer.
    pub fn on_event(self, event: PageFlowEvent) -> (step: FlowStep<CreateFlow>)
        requires
            self.accepts(event),
        ensures
            step matches FlowStep::Next(f, _) ==> f.steps_left() < self.steps_left(),
            match (self.stage, event) {
                (CreateStage::Serializing, PageFlowEvent::BodyReady { body: Err(e), .. }) => ends_internal(
                    step,
                    "serialize page content"@ + " failed: "@ + e@,
                ),
                (CreateStage::Serializing, PageFlowEvent::BodyReady { body: Ok(b), now_epoch_ms }) => step matches FlowStep::Next(
                    f,
                    a,
                ) && f.command == self.command && (f.stage matches CreateStage::Preparing {
                    body,
                    checksum,
                } && body == b && checksum@ == sha256_prefixed_spec(b@)) && (a matches PageFlowAction::PrepareUpload(
                    plan,
                ) && is_prepare_plan(
                    plan,
                    self.command,
                    b@.len(),
                    sha256_prefixed_spec(b@),
                    now_epoch_ms,
                )),
                (CreateStage::Preparing { .. }, PageFlowEvent::Prepared(Err(e))) => ends_internal(
                    step,
                    "prepare Drive uploader upload"@ + ": "@ + e@,
                ),
                (CreateStage::Preparing { body, checksum }, PageFlowEvent::Prepared(Ok(p))) => step matches FlowStep::Next(
                    f,
                    a,
                ) && f.command == self.command && f.stage == (CreateStage::Uploading {
                    node_id: p.node_id,
                    space_id: p.space_id,
                }) && uploads_part(
                    a,
                    p.upload_session_id,
                    p.storage_upload_id,
                    Some(p.upload_item_id),
                    self.command.content_type,
                    body,
                    checksum,
                ),
                (CreateStage::Uploading { .. }, PageFlowEvent::PartUploaded(Err(e))) => ends_with_error(
                    step,
                    e,
                ),
                (
                    CreateStage::Uploading { node_id, space_id },
                    PageFlowEvent::PartUploaded(Ok(())),
                ) => step matches FlowStep::Next(f, a) && f.command == self.command && f.stage == (
                CreateStage::RecordingLatest { node_id, space_id }) && lists(a, node_id),
                (CreateStage::RecordingLatest { .. }, PageFlowEvent::Listed(Err(e))) => ends_with_error(
                    step,
                    e,
                ),
                (CreateStage::RecordingLatest { .. }, PageFlowEvent::Listed(Ok(vs))) if vs@.len() == 0 => ends_not_found(step),
                (
                    CreateStage::RecordingLatest { node_id, space_id },
                    PageFlowEvent::Listed(Ok(vs)),
                ) => step matches FlowStep::Done(Ok(s)) && is_snapshot_of(
                    s,
                    space_id@,
                    node_id@,
                    latest_version(vs@),
                    self.command.content_type@,
                    self.command.content_schema_version@,
                    self.command.content,
                ),
                _ => false,
            },
    {
        let CreateFlow { command, stage } = self;
        match (stage, event) {
            (CreateStage::Serializing, PageFlowEvent::BodyReady { body: Err(e), .. }) => {
                FlowStep::Done(Err(transfer_error("serialize page content", e.as_str())))
            },
            (CreateStage::Serializing, PageFlowEvent::BodyReady { body: Ok(body), now_epoch_ms }) => {
                let checksum = sha256_prefixed(body.as_slice());
                let plan = prepare_upload_plan(&command, body.len(), checksum.as_str(), now_epoch_ms);
                FlowStep::Next(
                    CreateFlow { command, stage: CreateStage::Preparing { body, checksum } },
                    PageFlowAction::PrepareUpload(plan),
                )
            },
            (CreateStage::Preparing { .. }, PageFlowEvent::Prepared(Err(e))) => {
                FlowStep::Done(Err(drive_call_error("prepare Drive uploader upload", e.as_str())))
            },
            (CreateStage::Preparing { body, checksum }, PageFlowEvent::Prepared(Ok(p))) => {
                let PreparedUpload { upload_session_id, storage_upload_id, upload_item_id, node_id, space_id } = p;
                let (upload, first) = PartUpload::start(
                    upload_session_id,
                    Some(storage_upload_id),
                    Some(upload_item_id),
                    command.content_type.clone(),
                    body.len(),
                    checksum,
                );
                FlowStep::Next(
                    CreateFlow { command, stage: CreateStage::Uploading { node_id, space_id } },
                    PageFlowAction::UploadPart { upload, first, body },
                )
            },
            (CreateStage::Uploading { .. }, PageFlowEvent::PartUploaded(Err(e))) => FlowStep::Done(Err(e)),
            (CreateStage::Uploading { node_id, space_id }, PageFlowEvent::PartUploaded(Ok(()))) => {
                let action = PageFlowAction::ListVersions { node_id: node_id.clone() };
                FlowStep::Next(CreateFlow { command, stage: CreateStage::RecordingLatest { node_id, space_id } }, action)
            },
            (CreateStage::RecordingLatest { .. }, PageFlowEvent::Listed(Err(e))) => FlowStep::Done(Err(e)),
            (CreateStage::RecordingLatest { node_id, space_id }, PageFlowEvent::Listed(Ok(vs))) => {
                match latest_file_version(vs) {
                    Err(e) => FlowStep::Done(Err(e)),
                    Ok(latest) => FlowStep::Done(
                        created_page_snapshot(command, node_id.as_str(), space_id.as_str(), &latest),
                    ),
                }
            },
            (_, _) => FlowStep::Done(Err(CanvasProductError::Internal(String::new()))),
        }
    }
}

} // verus!
