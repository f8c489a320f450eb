//! The upload queue.
//!
//! A run that ended is kept until it is uploaded. What fails is tried again
//! after a while, or parked where trying again cannot help.

pub mod command_laws;
pub mod commands;
pub mod laws;
pub mod policy;
pub mod upload;

use vstd::prelude::*;
use crate::dup::Dup;
use crate::sdk::{RunCreateRequest, RunCreateRequestView};

verus! {

/// A file to upload with a run.
#[derive(Debug, PartialEq, Eq)]
pub struct QueuedAttachment {
    pub name: String,
    pub path: String,
    pub mimetype: String,
    /// The phase that attached it; empty where that is not known.
    pub phase_key: String,
}

/// View of [`QueuedAttachment`].
pub struct QueuedAttachmentView {
    pub name: Seq<char>,
    pub path: Seq<char>,
    pub mimetype: Seq<char>,
    pub phase_key: Seq<char>,
}

impl DeepView for QueuedAttachment {
    type V = QueuedAttachmentView;

    open spec fn deep_view(&self) -> QueuedAttachmentView {
        QueuedAttachmentView {
            name: self.name.deep_view(),
            path: self.path.deep_view(),
            mimetype: self.mimetype.deep_view(),
            phase_key: self.phase_key.deep_view(),
        }
    }
}

impl Dup for QueuedAttachment {
    fn dup(&self) -> (copy: Self) {
        QueuedAttachment {
            name: self.name.dup(),
            path: self.path.dup(),
            mimetype: self.mimetype.dup(),
            phase_key: self.phase_key.dup(),
        }
    }
}

/// The last failure of a queue entry.
#[derive(Debug, PartialEq, Eq)]
pub struct UploadFailureRecord {
    /// `http_4xx`, `http_5xx`, `network` or `unknown`.
    pub kind: String,
    pub status: Option<u16>,
    pub error: String,
    pub failed_at: Option<String>,
}

/// View of [`UploadFailureRecord`].
pub struct UploadFailureRecordView {
    pub kind: Seq<char>,
    pub status: Option<u16>,
    pub error: Seq<char>,
    pub failed_at: Option<Seq<char>>,
}

impl DeepView for UploadFailureRecord {
    type V = UploadFailureRecordView;

    open spec fn deep_view(&self) -> UploadFailureRecordView {
        UploadFailureRecordView {
            kind: self.kind.deep_view(),
            status: self.status.deep_view(),
            error: self.error.deep_view(),
            failed_at: self.failed_at.deep_view(),
        }
    }
}

impl Dup for UploadFailureRecord {
    fn dup(&self) -> (copy: Self) {
        UploadFailureRecord {
            kind: self.kind.dup(),
            status: self.status.dup(),
            error: self.error.dup(),
            failed_at: self.failed_at.dup(),
        }
    }
}

/// An entry of the upload queue.
#[derive(Debug, PartialEq, Eq)]
pub struct QueuedRun {
    pub request: RunCreateRequest,
    pub attachments: Vec<QueuedAttachment>,
    /// The id that the server gave the run, once it is created.
    pub run_id: Option<String>,
    pub attempt_count: u32,
    pub last_attempt_at: Option<String>,
    /// When the next retry is allowed; `None` for at once.
    pub next_retry_at: Option<String>,
    /// Whether only the operator brings the entry back.
    pub parked: bool,
    pub last_error: Option<UploadFailureRecord>,
    pub queued_at: Option<String>,
}

/// View of [`QueuedRun`].
pub struct QueuedRunView {
    pub request: RunCreateRequestView,
    pub attachments: Seq<QueuedAttachmentView>,
    pub run_id: Option<Seq<char>>,
    pub attempt_count: u32,
    pub last_attempt_at: Option<Seq<char>>,
    pub next_retry_at: Option<Seq<char>>,
    pub parked: bool,
    pub last_error: Option<UploadFailureRecordView>,
    pub queued_at: Option<Seq<char>>,
}

impl DeepView for QueuedRun {
    type V = QueuedRunView;

    open spec fn deep_view(&self) -> QueuedRunView {
        QueuedRunView {
            request: self.request.deep_view(),
            attachments: self.attachments.deep_view(),
            run_id: self.run_id.deep_view(),
            attempt_count: self.attempt_count.deep_view(),
            last_attempt_at: self.last_attempt_at.deep_view(),
            next_retry_at: self.next_retry_at.deep_view(),
            parked: self.parked.deep_view(),
            last_error: self.last_error.deep_view(),
            queued_at: self.queued_at.deep_view(),
        }
    }
}

impl Dup for QueuedRun {
    fn dup(&self) -> (copy: Self) {
        QueuedRun {
            request: self.request.dup(),
            attachments: self.attachments.dup(),
            run_id: self.run_id.dup(),
            attempt_count: self.attempt_count.dup(),
            last_attempt_at: self.last_attempt_at.dup(),
            next_retry_at: self.next_retry_at.dup(),
            parked: self.parked.dup(),
            last_error: self.last_error.dup(),
            queued_at: self.queued_at.dup(),
        }
    }
}

} // verus!
