//! The requests that the workflow hands to the worker, and what the worker
//! answers.

use crate::autosave::{AutoSaveFileRequest, PayloadView};
use crate::failure::{IoFailure, IoFailureView};
use crate::timestamp::{LocalTimestamp, TimestampFields};
use vstd::prelude::*;
use vstd::string::*;

verus! {

/// Create a note for a title under the document root.
#[derive(Debug, Clone)]
pub struct CreateFileRequest {
    pub user_document_dir: String,
    pub singleline_value: String,
    pub now: LocalTimestamp,
}

/// Give the note at `current_path` the name that a title asks for.
#[derive(Debug, Clone)]
pub struct RenameFileRequest {
    pub current_path: String,
    pub singleline_value: String,
    pub now: LocalTimestamp,
}

/// One unit of work for the worker.
#[derive(Debug, Clone)]
pub enum FileWorkflowEvent {
    Create(CreateFileRequest),
    Rename(RenameFileRequest),
    AutoSave(AutoSaveFileRequest),
}

/// What the worker did, with the path of the file it concerns.
#[derive(Debug, Clone, PartialEq, Eq)]
pub enum FileWorkflowEventResult {
    Created { path: String },
    Renamed { path: String },
    AutoSaved { path: String },
}

/// A [`FileWorkflowEvent`] with its texts as sequences of characters.
pub enum EventView {
    Create { user_document_dir: Seq<char>, singleline_value: Seq<char>, now: TimestampFields },
    Rename { current_path: Seq<char>, singleline_value: Seq<char>, now: TimestampFields },
    AutoSave { payload: PayloadView },
}

/// A [`FileWorkflowEventResult`] with its path as a sequence of characters.
pub enum ResultView {
    Created { path: Seq<char> },
    Renamed { path: Seq<char> },
    AutoSaved { path: Seq<char> },
}

impl View for FileWorkflowEvent {
    type V = EventView;

    open spec fn view(&self) -> EventView {
        match self {
            FileWorkflowEvent::Create(request) => EventView::Create {
                user_document_dir: request.user_document_dir@,
                singleline_value: request.singleline_value@,
                now: request.now@,
            },
            FileWorkflowEvent::Rename(request) => EventView::Rename {
                current_path: request.current_path@,
                singleline_value: request.singleline_value@,
                now: request.now@,
            },
            FileWorkflowEvent::AutoSave(request) => EventView::AutoSave {
                payload: request.payload@,
            },
        }
    }
}

impl View for FileWorkflowEventResult {
    type V = ResultView;

    open spec fn view(&self) -> ResultView {
        match self {
            FileWorkflowEventResult::Created { path } => ResultView::Created { path: path@ },
            FileWorkflowEventResult::Renamed { path } => ResultView::Renamed { path: path@ },
            FileWorkflowEventResult::AutoSaved { path } => ResultView::AutoSaved { path: path@ },
        }
    }
}

/// How a dispatched event ended, as the worker reports it.
pub type DispatchOutcome = Result<FileWorkflowEventResult, IoFailure>;

/// A [`DispatchOutcome`] with its texts as sequences of characters.
pub open spec fn outcome_view(outcome: DispatchOutcome) -> Result<ResultView, IoFailureView> {
    match outcome {
        Ok(result) => Ok(result@),
        Err(failure) => Err(failure@),
    }
}

} // verus!
