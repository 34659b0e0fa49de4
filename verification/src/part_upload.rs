//! The upload of a page body as the single part of a Drive upload session, as a
//! state machine: each answer of the Drive facade or the object store moves it
//! on and names the call that comes next, until it finishes with the outcome.

use vstd::prelude::*;
use crate::domain::{is_internal_error, CanvasProductError};
use crate::drive_port::opt_chars;
use crate::transfer::{http_status_text, is_success_status, send_method, send_method_spec, status_is_success, status_text};
use crate::upload::{
    complete_upload_plan, drive_call_error, is_complete_plan, is_mark_plan, is_presign_plan,
    mark_uploaded_plan, part_etag, part_etag_spec, presign_part_plan, transfer_error,
    transfer_status_error, CompleteUploadPlan, MarkUploadedPlan, PresignPartPlan,
};

verus! {

/// What the Drive facade answers to a presign request.
#[derive(Debug)]
pub struct PresignedPart {
    pub method: String,
    pub upload_url: String,
    pub headers: Vec<(String, String)>,
}

/// What the object store answers to the part's bytes.
#[derive(Debug)]
pub struct PartAnswer {
    pub status_code: u16,
    pub etag: Option<String>,
    pub received_at_epoch_ms: i64,
}

/// An answer that moves a part upload on; errors are the rendered failure.
#[derive(Debug)]
pub enum PartUploadEvent {
    Presigned(Result<PresignedPart, String>),
    Sent(Result<PartAnswer, String>),
    ErrorBodyRead(Option<String>),
    Marked(Result<(), String>),
    Completed(Result<(), String>),
}

/// The call a part upload asks for next, or its outcome.
#[derive(Debug)]
pub enum PartUploadAction {
    Presign { upload_session_id: String, presign_plan: PresignPartPlan },
    Send { method: String, url: String, headers: Vec<(String, String)> },
    ReadErrorBody,
    MarkUploaded { upload_item_id: String, mark_plan: MarkUploadedPlan },
    Complete { upload_session_id: String, complete_plan: CompleteUploadPlan },
    Finish(Result<(), CanvasProductError>),
}

/// Where a part upload stands.
#[derive(Debug)]
pub enum PartUploadStage {
    Presigning,
    Sending,
    ReadingErrorBody { status_code: u16 },
    Marking { etag: String },
    Completing,
    Finished,
}

/// A part upload of `body_len` bytes with checksum `checksum` into an upload
/// session; an upload item, when there is one, is told that its part arrived.
#[derive(Debug)]
pub struct PartUpload {
    pub upload_session_id: String,
    pub storage_upload_id: Option<String>,
    pub upload_item_id: Option<String>,
    pub content_type: String,
    pub body_len: usize,
    pub checksum: String,
    pub stage: PartUploadStage,
}

/// `action` sends the part's bytes as the presigned answer `p` says.
pub open spec fn sends(action: PartUploadAction, p: PresignedPart) -> bool {
    action matches PartUploadAction::Send { method, url, headers } && method@ == send_method_spec(p.method@)
        && url@ == p.upload_url@ && headers == p.headers
}

/// The action that ends a part upload with the internal error `message`.
pub open spec fn fails_with(action: PartUploadAction, message: Seq<char>) -> bool {
    action matches PartUploadAction::Finish(Err(e)) && is_internal_error(e, message)
}

impl PartUpload {
    /// The body length fits the `i64` fields of the Drive requests.
    pub open spec fn well_formed(&self) -> bool {
        self.body_len <= i64::MAX
    }

    /// `self` and `other` describe the same upload.
    pub open spec fn same_upload(&self, other: &PartUpload) -> bool {
        &&& self.upload_session_id == other.upload_session_id
        &&& self.storage_upload_id == other.storage_upload_id
        &&& self.upload_item_id == other.upload_item_id
        &&& self.content_type == other.content_type
        &&& self.body_len == other.body_len
        &&& self.checksum == other.checksum
    }

    /// Whether the upload waits for `event`; a status answer carries a status
    /// code from 100 to 999.
    pub open spec fn accepts(&self, event: PartUploadEvent) -> bool {
        match self.stage {
            PartUploadStage::Presigning => event is Presigned,
            PartUploadStage::Sending => event matches PartUploadEvent::Sent(r) && (r matches Ok(a)
                ==> 100 <= a.status_code <= 999),
            PartUploadStage::ReadingErrorBody { status_code } => event is ErrorBodyRead && 100
                <= status_code <= 999,
            PartUploadStage::Marking { .. } => event is Marked,
            PartUploadStage::Completing => event is Completed,
            PartUploadStage::Finished => false,
        }
    }

    /// How many answers the upload waits for at most before it finishes.
    pub open spec fn steps_left(&self) -> nat {
        match self.stage {
            PartUploadStage::Presigning => 4,
            PartUploadStage::Sending => 3,
            PartUploadStage::ReadingErrorBody { .. } => 1,
            PartUploadStage::Marking { .. } => 2,
            PartUploadStage::Completing => 1,
            PartUploadStage::Finished => 0,
        }
    }

    /// `action` marks the part, stored with `etag` at `at_epoch_ms`, on the
    /// upload item `item`.
    pub open spec fn marks_with(&self, action: PartUploadAction, item: String, etag: Seq<char>, at_epoch_ms: i64) -> bool {
        action matches PartUploadAction::MarkUploaded { upload_item_id, mark_plan } && upload_item_id == item
            && is_mark_plan(
            mark_plan,
            self.upload_session_id@,
            self.body_len as nat,
            etag,
            self.checksum@,
            at_epoch_ms,
        )
    }

    /// `action` completes the upload session with the single part `etag`.
    pub open spec fn completes_with(&self, action: PartUploadAction, etag: Seq<char>) -> bool {
        action matches PartUploadAction::Complete { upload_session_id, complete_plan } && upload_session_id
            == self.upload_session_id && is_complete_plan(
            complete_plan,
            opt_chars(self.storage_upload_id),
            self.content_type@,
            self.body_len as nat,
            self.checksum@,
            etag,
        )
    }

    /// The first step of an upload: presign its single part.
    pub fn start(
        upload_session_id: String,
        storage_upload_id: Option<String>,
        upload_item_id: Option<String>,
        content_type: String,
        body_len: usize,
        checksum: String,
    ) -> (res: (PartUpload, PartUploadAction))
        requires
            body_len <= i64::MAX,
        ensures
            res.0.well_formed(),
            res.0.stage is Presigning,
            res.0.upload_session_id == upload_session_id,
            res.0.storage_upload_id == storage_upload_id,
            res.0.upload_item_id == upload_item_id,
            res.0.content_type == content_type,
            res.0.body_len == body_len,
            res.0.checksum == checksum,
            res.1 matches PartUploadAction::Presign { upload_session_id: s, presign_plan } && s
                == upload_session_id && is_presign_plan(presign_plan, opt_chars(storage_upload_id)),
    {
        let plan = presign_part_plan(
            match &storage_upload_id {
                Some(s) => Some(s.as_str()),
                None => None,
            },
        );
        let action = PartUploadAction::Presign { upload_session_id: upload_session_id.clone(), presign_plan: plan };
        let upload = PartUpload {
            upload_session_id,
            storage_upload_id,
            upload_item_id,
            content_type,
            body_len,
            checksum,
            stage: PartUploadStage::Presigning,
        };
        (upload, action)
    }

    /// The completion request once the part is stored with `etag`.
    fn complete_action(&self, etag: &str) -> (action: PartUploadAction)
        requires
            self.well_formed(),
        ensures
            self.completes_with(action, etag@),
    {
        let plan = complete_upload_plan(
            match &self.storage_upload_id {
                Some(s) => Some(s.as_str()),
                None => None,
            },
            self.content_type.as_str(),
            self.body_len,
            self.checksum.as_str(),
            etag,
        );
        PartUploadAction::Complete { upload_session_id: self.upload_session_id.clone(), complete_plan: plan }
    }

    /// Moves the upload on by one answer and names what comes next.
    ///
    /// A failed Drive call ends it with `{context}: {error}`; a failed transfer
    /// with `upload Drive object bytes failed...`. A stored part is marked on
    /// the upload item when there is one, and the session is then completed
    /// with the part's ETag.
    pub fn on_event(&mut self, event: PartUploadEvent) -> (action: PartUploadAction)
        requires
            old(self).well_formed(),
            old(self).accepts(event),
        ensures
            final(self).well_formed(),
            final(self).same_upload(&*old(self)),
            final(self).steps_left() < old(self).steps_left(),
            final(self).stage is Finished <==> action is Finish,
            match (old(self).stage, event) {
                (PartUploadStage::Presigning, PartUploadEvent::Presigned(Err(e))) => final(self).stage is Finished
                    && fails_with(action, "presign Drive upload part"@ + ": "@ + e@),
                (PartUploadStage::Presigning, PartUploadEvent::Presigned(Ok(p))) => final(self).stage is Sending
                    && sends(action, p),
                (PartUploadStage::Sending, PartUploadEvent::Sent(Err(e))) => final(self).stage is Finished
                    && fails_with(action, "upload Drive object bytes"@ + " failed: "@ + e@),
                (PartUploadStage::Sending, PartUploadEvent::Sent(Ok(a))) => if !is_success_status(
                    a.status_code,
                ) {
                    final(self).stage == (PartUploadStage::ReadingErrorBody {
                        status_code: a.status_code,
                    }) && action is ReadErrorBody
                } else {
                    let etag = part_etag_spec(opt_chars(a.etag));
                    match old(self).upload_item_id {
                        Some(item) => (final(self).stage matches PartUploadStage::Marking { etag: t }
                            && t@ == etag) && old(self).marks_with(action, item, etag, a.received_at_epoch_ms),
                        None => final(self).stage is Completing && old(self).completes_with(
                            action,
                            etag,
                        ),
                    }
                },
                (
                    PartUploadStage::ReadingErrorBody { status_code },
                    PartUploadEvent::ErrorBodyRead(body),
                ) => final(self).stage is Finished && fails_with(
                    action,
                    "upload Drive object bytes"@ + " failed with status "@ + http_status_text(status_code)
                        + ": "@ + match body {
                        Some(b) => b@,
                        None => Seq::<char>::empty(),
                    },
                ),
                (PartUploadStage::Marking { .. }, PartUploadEvent::Marked(Err(e))) => final(self).stage is Finished
                    && fails_with(action, "mark Drive upload part uploaded"@ + ": "@ + e@),
                (PartUploadStage::Marking { etag }, PartUploadEvent::Marked(Ok(()))) => final(self).stage is Completing
                    && old(self).completes_with(action, etag@),
                (PartUploadStage::Completing, PartUploadEvent::Completed(Err(e))) => final(self).stage is Finished
                    && fails_with(action, "complete Drive upload session"@ + ": "@ + e@),
                (PartUploadStage::Completing, PartUploadEvent::Completed(Ok(()))) => final(self).stage is Finished
                    && action matches PartUploadAction::Finish(Ok(())),
                _ => false,
            },
    {
        let mut stage = PartUploadStage::Finished;
        std::mem::swap(&mut stage, &mut self.stage);
        match (stage, event) {
            (PartUploadStage::Presigning, PartUploadEvent::Presigned(Err(e))) => {
                PartUploadAction::Finish(Err(drive_call_error("presign Drive upload part", e.as_str())))
            },
            (PartUploadStage::Presigning, PartUploadEvent::Presigned(Ok(p))) => {
                self.stage = PartUploadStage::Sending;
                let method = send_method(p.method.as_str());
                PartUploadAction::Send { method, url: p.upload_url, headers: p.headers }
            },
            (PartUploadStage::Sending, PartUploadEvent::Sent(Err(e))) => {
                PartUploadAction::Finish(Err(transfer_error("upload Drive object bytes", e.as_str())))
            },
            (PartUploadStage::Sending, PartUploadEvent::Sent(Ok(a))) => {
                if !status_is_success(a.status_code) {
                    self.stage = PartUploadStage::ReadingErrorBody { status_code: a.status_code };
                    PartUploadAction::ReadErrorBody
                } else {
                    let etag = part_etag(a.etag);
                    match &self.upload_item_id {
                        Some(item) => {
                            let plan = mark_uploaded_plan(
                                self.upload_session_id.as_str(),
                                self.body_len,
                                etag.as_str(),
                                self.checksum.as_str(),
                                a.received_at_epoch_ms,
                            );
                            let action = PartUploadAction::MarkUploaded { upload_item_id: item.clone(), mark_plan: plan };
                            self.stage = PartUploadStage::Marking { etag };
                            action
                        },
                        None => {
                            self.stage = PartUploadStage::Completing;
                            self.complete_action(etag.as_str())
                        },
                    }
                }
            },
            (PartUploadStage::ReadingErrorBody { status_code }, PartUploadEvent::ErrorBodyRead(body)) => {
                let status = status_text(status_code);
                let body = match body {
                    Some(b) => b,
                    None => String::new(),
                };
                PartUploadAction::Finish(
                    Err(transfer_status_error("upload Drive object bytes", status.as_str(), body.as_str())),
                )
            },
            (PartUploadStage::Marking { .. }, PartUploadEvent::Marked(Err(e))) => {
                PartUploadAction::Finish(Err(drive_call_error("mark Drive upload part uploaded", e.as_str())))
            },
            (PartUploadStage::Marking { etag }, PartUploadEvent::Marked(Ok(()))) => {
                self.stage = PartUploadStage::Completing;
                self.complete_action(etag.as_str())
            },
            (PartUploadStage::Completing, PartUploadEvent::Completed(Err(e))) => {
                PartUploadAction::Finish(Err(drive_call_error("complete Drive upload session", e.as_str())))
            },
            (PartUploadStage::Completing, PartUploadEvent::Completed(Ok(()))) => {
                PartUploadAction::Finish(Ok(()))
            },
            (_, _) => {
                PartUploadAction::Finish(Ok(()))
            },
        }
    }
}

} // verus!
