//! One tick of the autosave timer: ask the coordinator whether a write is
//! due, and the workflow whether the payload may still be written.

use crate::autosave::{EditorAutoSaveCoordinator, EDITOR_AUTOSAVE_IDLE_NANOS};
use crate::clock::{MonotonicInstant, TimeSpan};
use crate::events::{EventView, FileWorkflowEvent};
use crate::workflow::SinglelineCreateFileWorkflow;
use vstd::prelude::*;
use vstd::string::*;

verus! {

/// What a tick of the autosave timer leads to.
#[derive(Debug)]
pub enum AutosaveTick {
    /// No write is due.
    Idle,
    /// A write is due and legal: dispatch this event.
    Dispatch(FileWorkflowEvent),
    /// A write was due, but the payload is not for the note being edited.
    /// It is dropped; `path` says where it would have gone.
    Skipped { path: String },
}

/// An [`AutosaveTick`], as a view.
pub enum AutosaveTickView {
    Idle,
    Dispatch(EventView),
    Skipped { path: Seq<char> },
}

impl View for AutosaveTick {
    type V = AutosaveTickView;

    open spec fn view(&self) -> AutosaveTickView {
        match self {
            AutosaveTick::Idle => AutosaveTickView::Idle,
            AutosaveTick::Dispatch(event) => AutosaveTickView::Dispatch(event@),
            AutosaveTick::Skipped { path } => AutosaveTickView::Skipped { path: path@ },
        }
    }
}

/// The time without a write after which the body text is written.
pub open spec fn idle_duration() -> TimeSpan {
    TimeSpan { nanos: EDITOR_AUTOSAVE_IDLE_NANOS }
}

/// One tick at `now`. When the coordinator has a payload that is due, it is
/// taken out, whatever comes of it: it is dispatched if the workflow is
/// editing the payload's file, and dropped otherwise.
pub fn editor_autosave_tick(
    coordinator: &mut EditorAutoSaveCoordinator,
    workflow: &SinglelineCreateFileWorkflow,
    now: MonotonicInstant,
) -> (tick: AutosaveTick)
    ensures
        final(coordinator)@ == old(coordinator)@.polled(now, idle_duration()),
        tick@ == (match old(coordinator)@.due_payload(now, idle_duration()) {
            None => AutosaveTickView::Idle,
            Some(payload) => if workflow@.autosave_applies(payload) {
                AutosaveTickView::Dispatch(EventView::AutoSave { payload })
            } else {
                AutosaveTickView::Skipped { path: payload.current_path }
            },
        }),
{
    let due = coordinator.pop_due_payload(now, TimeSpan { nanos: EDITOR_AUTOSAVE_IDLE_NANOS });
    match due {
        None => AutosaveTick::Idle,
        Some(payload) => {
            let path = payload.current_path.clone();
            match workflow.try_autosave_in_edit(payload) {
                Some(event) => AutosaveTick::Dispatch(event),
                None => AutosaveTick::Skipped { path },
            }
        },
    }
}

} // verus!
