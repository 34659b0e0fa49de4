//! Reading the JSON content of a Drive node, as a state machine: a presigned
//! download URL is asked for, the content fetched, its bytes read and parsed,
//! and each failure ends the download with an error that names the step.

use vstd::prelude::*;
use crate::domain::{is_internal_error, CanvasProductError, JsonValue};
use crate::transfer::{http_status_text, is_success_status, status_is_success, status_text};
use crate::upload::{drive_call_error, transfer_error, transfer_status_error, PRESIGNED_URL_TTL_SECONDS};

verus! {

/// An answer that moves a download on; errors are the rendered failure.
#[derive(Debug)]
pub enum DownloadEvent {
    UrlCreated(Result<String, String>),
    Fetched(Result<u16, String>),
    ErrorBodyRead(Option<String>),
    BytesRead(Result<Vec<u8>, String>),
    Parsed(Result<JsonValue, String>),
}

/// The call a download asks for next, or its outcome.
#[derive(Debug)]
pub enum DownloadAction {
    CreateDownloadUrl { node_id: String, ttl_seconds: i64 },
    Fetch { url: String },
    ReadErrorBody,
    ReadBytes,
    Parse { bytes: Vec<u8> },
    Finish(Result<JsonValue, CanvasProductError>),
}

/// Where a download stands.
#[derive(Debug)]
pub enum DownloadStage {
    CreatingUrl,
    Fetching,
    ReadingErrorBody { status_code: u16 },
    ReadingBytes,
    Parsing,
    Finished,
}

/// The download of the current content of the Drive node `node_id`.
#[derive(Debug)]
pub struct ContentDownload {
    pub node_id: String,
    pub stage: DownloadStage,
}

/// The action that ends a download with the internal error `message`.
pub open spec fn download_fails_with(action: DownloadAction, message: Seq<char>) -> bool {
    action matches DownloadAction::Finish(Err(e)) && is_internal_error(e, message)
}

impl ContentDownload {
    /// Whether the download waits for `event`; a status answer carries a status
    /// code from 100 to 999.
    pub open spec fn accepts(&self, event: DownloadEvent) -> bool {
        match self.stage {
            DownloadStage::CreatingUrl => event is UrlCreated,
            DownloadStage::Fetching => event matches DownloadEvent::Fetched(r) && (r matches Ok(code)
                ==> 100 <= code <= 999),
            DownloadStage::ReadingErrorBody { status_code } => event is ErrorBodyRead && 100 <= status_code
                <= 999,
            DownloadStage::ReadingBytes => event is BytesRead,
            DownloadStage::Parsing => event is Parsed,
            DownloadStage::Finished => false,
        }
    }

    /// How many answers the download waits for at most before it finishes.
    pub open spec fn steps_left(&self) -> nat {
        match self.stage {
            DownloadStage::CreatingUrl => 4,
            DownloadStage::Fetching => 3,
            DownloadStage::ReadingErrorBody { .. } => 1,
            DownloadStage::ReadingBytes => 2,
            DownloadStage::Parsing => 1,
            DownloadStage::Finished => 0,
        }
    }

    /// The first step of a download: a download URL for the node, valid for
    /// the presigned lifetime.
    pub fn start(node_id: String) -> (res: (ContentDownload, DownloadAction))
        ensures
            res.0.node_id == node_id,
            res.0.stage is CreatingUrl,
            res.1 matches DownloadAction::CreateDownloadUrl { node_id: n, ttl_seconds } && n == node_id
                && ttl_seconds == PRESIGNED_URL_TTL_SECONDS,
    {
        let action = DownloadAction::CreateDownloadUrl {
            node_id: node_id.clone(),
            ttl_seconds: PRESIGNED_URL_TTL_SECONDS,
        };
        (ContentDownload { node_id, stage: DownloadStage::CreatingUrl }, action)
    }

    /// Moves the download on by one answer and names what comes next.
    pub fn on_event(&mut self, event: DownloadEvent) -> (action: DownloadAction)
        requires
            old(self).accepts(event),
        ensures
            final(self).node_id == old(self).node_id,
            final(self).steps_left() < old(self).steps_left(),
            final(self).stage is Finished <==> action is Finish,
            match (old(self).stage, event) {
                (DownloadStage::CreatingUrl, DownloadEvent::UrlCreated(Err(e))) => download_fails_with(
                    action,
                    "create Drive download url"@ + ": "@ + e@,
                ),
                (DownloadStage::CreatingUrl, DownloadEvent::UrlCreated(Ok(url))) => final(self).stage is Fetching
                    && (action matches DownloadAction::Fetch { url: u } && u == url),
                (DownloadStage::Fetching, DownloadEvent::Fetched(Err(e))) => download_fails_with(
                    action,
                    "download Drive content"@ + " failed: "@ + e@,
                ),
                (DownloadStage::Fetching, DownloadEvent::Fetched(Ok(code))) => if is_success_status(code) {
                    final(self).stage is ReadingBytes && action is ReadBytes
                } else {
                    final(self).stage == (DownloadStage::ReadingErrorBody { status_code: code })
                        && action is ReadErrorBody
                },
                (DownloadStage::ReadingErrorBody { status_code }, DownloadEvent::ErrorBodyRead(body)) => download_fails_with(
                    action,
                    "download Drive content"@ + " failed with status "@ + http_status_text(status_code) + ": "@
                        + match body {
                        Some(b) => b@,
                        None => Seq::<char>::empty(),
                    },
                ),
                (DownloadStage::ReadingBytes, DownloadEvent::BytesRead(Err(e))) => download_fails_with(
                    action,
                    "read Drive content bytes"@ + " failed: "@ + e@,
                ),
                (DownloadStage::ReadingBytes, DownloadEvent::BytesRead(Ok(bytes))) => final(self).stage is Parsing
                    && (action matches DownloadAction::Parse { bytes: b } && b == bytes),
                (DownloadStage::Parsing, DownloadEvent::Parsed(Err(e))) => download_fails_with(
                    action,
                    "parse Drive page content json"@ + " failed: "@ + e@,
                ),
                (DownloadStage::Parsing, DownloadEvent::Parsed(Ok(content))) => action matches DownloadAction::Finish(
                    Ok(c),
                ) && c == content,
                _ => false,
            },
    {
        let mut stage = DownloadStage::Finished;
        std::mem::swap(&mut stage, &mut self.stage);
        match (stage, event) {
            (DownloadStage::CreatingUrl, DownloadEvent::UrlCreated(Err(e))) => {
                DownloadAction::Finish(Err(drive_call_error("create Drive download url", e.as_str())))
            },
            (DownloadStage::CreatingUrl, DownloadEvent::UrlCreated(Ok(url))) => {
                self.stage = DownloadStage::Fetching;
                DownloadAction::Fetch { url }
            },
            (DownloadStage::Fetching, DownloadEvent::Fetched(Err(e))) => {
                DownloadAction::Finish(Err(transfer_error("download Drive content", e.as_str())))
            },
            (DownloadStage::Fetching, DownloadEvent::Fetched(Ok(code))) => {
                if status_is_success(code) {
                    self.stage = DownloadStage::ReadingBytes;
                    DownloadAction::ReadBytes
                } else {
                    self.stage = DownloadStage::ReadingErrorBody { status_code: code };
                    DownloadAction::ReadErrorBody
                }
            },
            (DownloadStage::ReadingErrorBody { status_code }, DownloadEvent::ErrorBodyRead(body)) => {
                let status = status_text(status_code);
                let body = match body {
                    Some(b) => b,
                    None => String::new(),
                };
                DownloadAction::Finish(
                    Err(transfer_status_error("download Drive content", status.as_str(), body.as_str())),
                )
            },
            (DownloadStage::ReadingBytes, DownloadEvent::BytesRead(Err(e))) => {
                DownloadAction::Finish(Err(transfer_error("read Drive content bytes", e.as_str())))
            },
            (DownloadStage::ReadingBytes, DownloadEvent::BytesRead(Ok(bytes))) => {
                self.stage = DownloadStage::Parsing;
                DownloadAction::Parse { bytes }
            },
            (DownloadStage::Parsing, DownloadEvent::Parsed(Err(e))) => {
                DownloadAction::Finish(Err(transfer_error("parse Drive page content json", e.as_str())))
            },
            (DownloadStage::Parsing, DownloadEvent::Parsed(Ok(content))) => {
                DownloadAction::Finish(Ok(content))
            },
            (_, _) => {
                DownloadAction::ReadBytes
            },
        }
    }
}

} // verus!
