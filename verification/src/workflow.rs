//! The workflow state machine: which of create, rename and autosave is legal
//! at the moment, and what the current note is.
//!
//! Each operation that touches the disk has two halves. The first half
//! decides whether the operation is legal and, if so, returns the event to
//! dispatch; the second takes the worker's answer and moves the machine on.
//! Between the two the caller dispatches, without holding any lock on the
//! workflow.

use crate::autosave::{AutoSaveFileRequest, EditorAutoSavePayload, PayloadView};
use crate::clock::MonotonicInstant;
use crate::events::{
    outcome_view, CreateFileRequest, DispatchOutcome, EventView, FileWorkflowEvent,
    FileWorkflowEventResult, RenameFileRequest, ResultView,
};
use crate::failure::{IoFailure, IoFailureView};
use crate::naming::text_of;
use crate::timestamp::LocalTimestamp;
use vstd::prelude::*;
use vstd::string::*;

verus! {

/// Two create events are at least this far apart: one second, in
/// nanoseconds. A create attempt is refused only while less time than this
/// has passed since the last create event.
pub const CREATE_EVENT_MIN_INTERVAL_NANOS: u64 = 1_000_000_000;

/// Where the workflow stands.
#[derive(Debug, Clone, Copy, PartialEq, Eq, Structural)]
pub enum SinglelineFileState {
    /// No note is open.
    Neutral,
    /// A create attempt has begun.
    New,
    /// A note is open and has a path.
    Edit,
}

/// The state of the workflow and the path of the note being edited.
#[derive(Debug, Clone, PartialEq, Eq)]
pub struct WorkflowSnapshot {
    pub state: SinglelineFileState,
    pub current_edit_path: Option<String>,
}

/// What the workflow remembers.
pub struct WorkflowModel {
    pub state: SinglelineFileState,
    pub current_edit_path: Option<Seq<char>>,
    pub last_create_event_raised_at: Option<MonotonicInstant>,
}

/// What the second half of a create or rename returns to its caller, as a
/// view.
pub type FinishedView = Result<Option<Seq<char>>, IoFailureView>;

impl WorkflowModel {
    /// The workflow at program start.
    pub open spec fn fresh() -> WorkflowModel {
        WorkflowModel {
            state: SinglelineFileState::Neutral,
            current_edit_path: None,
            last_create_event_raised_at: None,
        }
    }

    /// There is a current path exactly in `Edit`.
    pub open spec fn well_formed(self) -> bool {
        self.current_edit_path is Some <==> self.state == SinglelineFileState::Edit
    }

    /// Back to `Neutral` without a path, from any state.
    pub open spec fn reset(self) -> WorkflowModel {
        WorkflowModel { state: SinglelineFileState::Neutral, current_edit_path: None, ..self }
    }

    /// Into `Edit` on `path`, from any state.
    pub open spec fn opened(self, path: Seq<char>) -> WorkflowModel {
        WorkflowModel { state: SinglelineFileState::Edit, current_edit_path: Some(path), ..self }
    }

    /// Whether the "new note" action applies: only in `Edit`.
    pub open spec fn can_leave_edit(self) -> bool {
        self.state == SinglelineFileState::Edit
    }

    /// After the "new note" action: `Edit` becomes `Neutral` and loses its
    /// path, every other state stays.
    pub open spec fn left_edit(self) -> WorkflowModel {
        if self.can_leave_edit() {
            self.reset()
        } else {
            self
        }
    }

    /// Whether a create event may be raised at `now`: when none was raised
    /// before, or when at least the minimum interval has passed since the
    /// last one.
    pub open spec fn create_is_ready(self, now: MonotonicInstant) -> bool {
        match self.last_create_event_raised_at {
            None => true,
            Some(last) => now.nanos >= last.nanos && now.nanos - last.nanos
                >= CREATE_EVENT_MIN_INTERVAL_NANOS,
        }
    }

    /// Whether a create attempt at `now` is dispatched: in `Neutral`, and
    /// when a create event may be raised.
    pub open spec fn create_dispatches(self, now: MonotonicInstant) -> bool {
        self.state == SinglelineFileState::Neutral && self.create_is_ready(now)
    }

    /// After a create attempt at `now`: outside `Neutral` nothing changes;
    /// from `Neutral` the machine is in `New`, whether or not the attempt is
    /// dispatched, and a dispatched attempt is remembered as the last.
    pub open spec fn create_attempted(self, now: MonotonicInstant) -> WorkflowModel {
        if self.state != SinglelineFileState::Neutral {
            self
        } else if self.create_is_ready(now) {
            WorkflowModel {
                state: SinglelineFileState::New,
                last_create_event_raised_at: Some(now),
                ..self
            }
        } else {
            WorkflowModel { state: SinglelineFileState::New, ..self }
        }
    }

    /// After the answer to a create event: a created file is the current
    /// note, in `Edit`; any other answer changes nothing.
    pub open spec fn create_finished(self, outcome: Result<ResultView, IoFailureView>) -> WorkflowModel {
        match outcome {
            Ok(ResultView::Created { path }) => self.opened(path),
            _ => self,
        }
    }

    /// What a finished create attempt returns: the failure, the path of the
    /// created file, or nothing for any other answer.
    pub open spec fn create_answer(outcome: Result<ResultView, IoFailureView>) -> FinishedView {
        match outcome {
            Err(failure) => Err(failure),
            Ok(ResultView::Created { path }) => Ok(Some(path)),
            Ok(_) => Ok(None),
        }
    }

    /// The path to rename, if a rename is legal: the current one, in `Edit`.
    pub open spec fn rename_source(self) -> Option<Seq<char>> {
        if self.state == SinglelineFileState::Edit {
            self.current_edit_path
        } else {
            None
        }
    }

    /// After the answer to a rename event: in `Edit` a renamed file is the
    /// current note under its new path; anything else changes nothing.
    pub open spec fn rename_finished(self, outcome: Result<ResultView, IoFailureView>) -> WorkflowModel {
        match outcome {
            Ok(ResultView::Renamed { path }) => if self.state == SinglelineFileState::Edit {
                WorkflowModel { current_edit_path: Some(path), ..self }
            } else {
                self
            },
            _ => self,
        }
    }

    /// What a finished rename returns: the failure, the new path where it
    /// became the current one, or nothing.
    pub open spec fn rename_answer(self, outcome: Result<ResultView, IoFailureView>) -> FinishedView {
        match outcome {
            Err(failure) => Err(failure),
            Ok(ResultView::Renamed { path }) => if self.state == SinglelineFileState::Edit {
                Ok(Some(path))
            } else {
                Ok(None)
            },
            Ok(_) => Ok(None),
        }
    }

    /// Whether a payload may be written: in `Edit`, and only to the current
    /// note.
    pub open spec fn autosave_applies(self, payload: PayloadView) -> bool {
        self.state == SinglelineFileState::Edit && self.current_edit_path == Some(
            payload.current_path,
        )
    }

    /// What a finished autosave returns: the failure, or whether the worker
    /// answered that it saved.
    pub open spec fn autosave_answer(outcome: Result<ResultView, IoFailureView>) -> Result<
        bool,
        IoFailureView,
    > {
        match outcome {
            Err(failure) => Err(failure),
            Ok(ResultView::AutoSaved { path }) => Ok(true),
            Ok(_) => Ok(false),
        }
    }
}

/// What a finished create or rename returns to its caller, as a view.
pub open spec fn finished_view(finished: Result<Option<String>, IoFailure>) -> FinishedView {
    match finished {
        Ok(path) => Ok(text_of(path)),
        Err(failure) => Err(failure@),
    }
}

/// What a finished autosave returns to its caller, as a view.
pub open spec fn saved_view(saved: Result<bool, IoFailure>) -> Result<bool, IoFailureView> {
    match saved {
        Ok(applied) => Ok(applied),
        Err(failure) => Err(failure@),
    }
}

/// The workflow state machine.
#[derive(Debug)]
pub struct SinglelineCreateFileWorkflow {
    state: SinglelineFileState,
    current_edit_path: Option<String>,
    last_create_event_raised_at: Option<MonotonicInstant>,
}

impl View for SinglelineCreateFileWorkflow {
    type V = WorkflowModel;

    closed spec fn view(&self) -> WorkflowModel {
        WorkflowModel {
            state: self.state,
            current_edit_path: text_of(self.current_edit_path),
            last_create_event_raised_at: self.last_create_event_raised_at,
        }
    }
}

impl SinglelineCreateFileWorkflow {
    #[verifier::type_invariant]
    spec fn consistent(self) -> bool {
        self@.well_formed()
    }

    /// A workflow in `Neutral`, without a path and without a create event
    /// behind it.
    pub fn new() -> (workflow: SinglelineCreateFileWorkflow)
        ensures
            workflow@ == WorkflowModel::fresh(),
    {
        SinglelineCreateFileWorkflow {
            state: SinglelineFileState::Neutral,
            current_edit_path: None,
            last_create_event_raised_at: None,
        }
    }

    /// The state and the current path.
    pub fn snapshot(&self) -> (snapshot: WorkflowSnapshot)
        ensures
            snapshot.state == self@.state,
            text_of(snapshot.current_edit_path) == self@.current_edit_path,
            self@.well_formed(),
    {
        proof {
            use_type_invariant(self);
        }
        WorkflowSnapshot { state: self.state, current_edit_path: self.current_edit_path() }
    }

    /// The state.
    pub fn state(&self) -> (state: SinglelineFileState)
        ensures
            state == self@.state,
    {
        self.state
    }

    /// The path of the note being edited.
    pub fn current_edit_path(&self) -> (path: Option<String>)
        ensures
            text_of(path) == self@.current_edit_path,
    {
        match &self.current_edit_path {
            Some(path) => Some(path.clone()),
            None => None,
        }
    }

    /// Puts the machine in `Neutral` without a path, whatever its state.
    pub fn reset_startup_to_neutral(&mut self)
        ensures
            final(self)@ == old(self)@.reset(),
            final(self)@.state == SinglelineFileState::Neutral,
            final(self)@.current_edit_path is None,
    {
        *self = SinglelineCreateFileWorkflow {
            state: SinglelineFileState::Neutral,
            current_edit_path: None,
            last_create_event_raised_at: self.last_create_event_raised_at,
        };
    }

    /// Puts the machine in `Edit` on `path`, whatever its state: the user
    /// opened an existing file.
    pub fn set_edit_from_open_file(&mut self, path: String)
        ensures
            final(self)@ == old(self)@.opened(path@),
            final(self)@.state == SinglelineFileState::Edit,
            final(self)@.current_edit_path == Some(path@),
    {
        *self = SinglelineCreateFileWorkflow {
            state: SinglelineFileState::Edit,
            current_edit_path: Some(path),
            last_create_event_raised_at: self.last_create_event_raised_at,
        };
    }

    /// The "new note" action: from `Edit` the machine goes to `Neutral` and
    /// drops its path; in any other state nothing happens. Returns whether
    /// the machine moved.
    pub fn transition_edit_to_neutral(&mut self) -> (moved: bool)
        ensures
            moved == old(self)@.can_leave_edit(),
            final(self)@ == old(self)@.left_edit(),
            !moved ==> final(self)@ == old(self)@,
    {
        if self.state != SinglelineFileState::Edit {
            return false;
        }
        *self = SinglelineCreateFileWorkflow {
            state: SinglelineFileState::Neutral,
            current_edit_path: None,
            last_create_event_raised_at: self.last_create_event_raised_at,
        };
        true
    }

    /// First half of a create: from `Neutral` the machine enters `New` at
    /// once. The create event is returned for dispatch unless the last one
    /// was raised too recently; in that case nothing is returned and the
    /// machine stays in `New`. Outside `Neutral` nothing happens.
    pub fn try_create_from_neutral(
        &mut self,
        singleline_value: &str,
        user_document_dir: &str,
        now_instant: MonotonicInstant,
        now_local: LocalTimestamp,
    ) -> (event: Option<FileWorkflowEvent>)
        ensures
            final(self)@ == old(self)@.create_attempted(now_instant),
            event is Some <==> old(self)@.create_dispatches(now_instant),
            event matches Some(e) ==> e@ == (EventView::Create {
                user_document_dir: user_document_dir@,
                singleline_value: singleline_value@,
                now: now_local@,
            }),
    {
        proof {
            use_type_invariant(&*self);
        }
        if self.state != SinglelineFileState::Neutral {
            return None;
        }
        let ready = match self.last_create_event_raised_at {
            Some(last) => match now_instant.checked_duration_since(last) {
                Some(elapsed) => elapsed.nanos >= CREATE_EVENT_MIN_INTERVAL_NANOS,
                None => false,
            },
            None => true,
        };
        if !ready {
            *self = SinglelineCreateFileWorkflow {
                state: SinglelineFileState::New,
                current_edit_path: None,
                last_create_event_raised_at: self.last_create_event_raised_at,
            };
            return None;
        }
        *self = SinglelineCreateFileWorkflow {
            state: SinglelineFileState::New,
            current_edit_path: None,
            last_create_event_raised_at: Some(now_instant),
        };
        Some(
            FileWorkflowEvent::Create(
                CreateFileRequest {
                    user_document_dir: user_document_dir.to_owned(),
                    singleline_value: singleline_value.to_owned(),
                    now: now_local,
                },
            ),
        )
    }

    /// Second half of a create: a created file becomes the current note and
    /// the machine enters `Edit`. A failure is handed on, and any other
    /// answer counts for nothing; the machine then stays where it is.
    pub fn finish_create(&mut self, outcome: DispatchOutcome) -> (finished: Result<
        Option<String>,
        IoFailure,
    >)
        ensures
            final(self)@ == old(self)@.create_finished(outcome_view(outcome)),
            finished_view(finished) == WorkflowModel::create_answer(outcome_view(outcome)),
    {
        match outcome {
            Err(failure) => Err(failure),
            Ok(FileWorkflowEventResult::Created { path }) => {
                *self = SinglelineCreateFileWorkflow {
                    state: SinglelineFileState::Edit,
                    current_edit_path: Some(path.clone()),
                    last_create_event_raised_at: self.last_create_event_raised_at,
                };
                Ok(Some(path))
            },
            Ok(_) => Ok(None),
        }
    }

    /// First half of a rename: in `Edit` the rename event for the current
    /// note is returned for dispatch; in any other state nothing is.
    pub fn try_rename_in_edit(&self, singleline_value: &str, now_local: LocalTimestamp) -> (event:
        Option<FileWorkflowEvent>)
        ensures
            event is Some <==> self@.state == SinglelineFileState::Edit,
            event matches Some(e) ==> self@.rename_source() matches Some(source) && e@ == (
            EventView::Rename {
                current_path: source,
                singleline_value: singleline_value@,
                now: now_local@,
            }),
    {
        proof {
            use_type_invariant(self);
        }
        if self.state != SinglelineFileState::Edit {
            return None;
        }
        match &self.current_edit_path {
            None => None,
            Some(path) => Some(
                FileWorkflowEvent::Rename(
                    RenameFileRequest {
                        current_path: path.clone(),
                        singleline_value: singleline_value.to_owned(),
                        now: now_local,
                    },
                ),
            ),
        }
    }

    /// Second half of a rename: in `Edit` the path that the file got is the
    /// current one from now on, and is returned. A failure is handed on; any
    /// other answer, and a machine that has left `Edit` in the meantime,
    /// change nothing.
    pub fn finish_rename(&mut self, outcome: DispatchOutcome) -> (finished: Result<
        Option<String>,
        IoFailure,
    >)
        ensures
            final(self)@ == old(self)@.rename_finished(outcome_view(outcome)),
            finished_view(finished) == old(self)@.rename_answer(outcome_view(outcome)),
    {
        match outcome {
            Err(failure) => Err(failure),
            Ok(FileWorkflowEventResult::Renamed { path }) => {
                if self.state != SinglelineFileState::Edit {
                    return Ok(None);
                }
                *self = SinglelineCreateFileWorkflow {
                    state: SinglelineFileState::Edit,
                    current_edit_path: Some(path.clone()),
                    last_create_event_raised_at: self.last_create_event_raised_at,
                };
                Ok(Some(path))
            },
            Ok(_) => Ok(None),
        }
    }

    /// First half of an autosave: in `Edit`, and when `payload` is meant for
    /// the current note, the autosave event is returned for dispatch. A
    /// payload for another file is stale and dropped. The machine does not
    /// move.
    pub fn try_autosave_in_edit(&self, payload: EditorAutoSavePayload) -> (event: Option<
        FileWorkflowEvent,
    >)
        ensures
            event is Some <==> self@.autosave_applies(payload@),
            event matches Some(e) ==> e@ == (EventView::AutoSave { payload: payload@ }),
    {
        if self.state != SinglelineFileState::Edit {
            return None;
        }
        match &self.current_edit_path {
            None => None,
            Some(current_path) => {
                if !(*current_path == payload.current_path) {
                    return None;
                }
                Some(FileWorkflowEvent::AutoSave(AutoSaveFileRequest { payload }))
            },
        }
    }

    /// Second half of an autosave: whether the worker saved. A failure is
    /// handed on.
    pub fn finish_autosave(outcome: DispatchOutcome) -> (saved: Result<bool, IoFailure>)
        ensures
            saved_view(saved) == WorkflowModel::autosave_answer(outcome_view(outcome)),
    {
        match outcome {
            Err(failure) => Err(failure),
            Ok(FileWorkflowEventResult::AutoSaved { path }) => Ok(true),
            Ok(_) => Ok(false),
        }
    }
}

/// Every step keeps a current path exactly in `Edit`.
pub proof fn lemma_steps_keep_well_formed(
    model: WorkflowModel,
    path: Seq<char>,
    now: MonotonicInstant,
    outcome: Result<ResultView, IoFailureView>,
)
    requires
        model.well_formed(),
    ensures
        WorkflowModel::fresh().well_formed(),
        model.reset().well_formed(),
        model.opened(path).well_formed(),
        model.left_edit().well_formed(),
        model.create_attempted(now).well_formed(),
        model.create_finished(outcome).well_formed(),
        model.rename_finished(outcome).well_formed(),
{
}

/// A fresh workflow is in `Neutral` without a path; opening a file forces
/// `Edit` on that file from any state; and the "new note" action changes
/// nothing outside `Edit`.
pub proof fn lemma_startup_open_and_new_note(model: WorkflowModel, path: Seq<char>)
    ensures
        WorkflowModel::fresh().state == SinglelineFileState::Neutral,
        WorkflowModel::fresh().current_edit_path is None,
        model.opened(path).state == SinglelineFileState::Edit,
        model.opened(path).current_edit_path == Some(path),
        model.state != SinglelineFileState::Edit ==> model.left_edit() == model,
        model.state == SinglelineFileState::Edit ==> model.left_edit().state
            == SinglelineFileState::Neutral && model.left_edit().current_edit_path is None,
{
}

/// A second create attempt within the minimum interval of a dispatched one
/// is not dispatched and parks the machine in `New`: after a create at
/// `first_at` that was dispatched and answered, and the "new note" action,
/// an attempt at `second_at`, less than the minimum interval later,
/// returns nothing, and the machine is in `New`, not `Neutral`.
pub proof fn lemma_throttled_create_parks_in_new(
    model: WorkflowModel,
    first_at: MonotonicInstant,
    created: Seq<char>,
    second_at: MonotonicInstant,
)
    requires
        model.well_formed(),
        model.create_dispatches(first_at),
        second_at.nanos - first_at.nanos < CREATE_EVENT_MIN_INTERVAL_NANOS,
    ensures
        ({
            let editing = model.create_attempted(first_at).create_finished(
                Ok(ResultView::Created { path: created }),
            );
            let neutral = editing.left_edit();
            &&& editing.state == SinglelineFileState::Edit
            &&& editing.current_edit_path == Some(created)
            &&& neutral.state == SinglelineFileState::Neutral
            &&& !neutral.create_dispatches(second_at)
            &&& neutral.create_attempted(second_at).state == SinglelineFileState::New
            &&& neutral.create_attempted(second_at).current_edit_path is None
            &&& neutral.create_attempted(second_at).last_create_event_raised_at == Some(first_at)
        }),
{
}

/// From the minimum interval on a create is dispatched again: after a
/// create at `first_at` that was dispatched and answered, and the "new
/// note" action, an attempt at `second_at`, at least the minimum interval
/// later, returns its event and is remembered as the last; the machine is
/// in `New` until the answer comes, and in `Edit` on the created file after.
pub proof fn lemma_create_after_the_interval_dispatches(
    model: WorkflowModel,
    first_at: MonotonicInstant,
    created: Seq<char>,
    second_at: MonotonicInstant,
    created_next: Seq<char>,
)
    requires
        model.well_formed(),
        model.create_dispatches(first_at),
        second_at.nanos - first_at.nanos >= CREATE_EVENT_MIN_INTERVAL_NANOS,
    ensures
        ({
            let neutral = model.create_attempted(first_at).create_finished(
                Ok(ResultView::Created { path: created }),
            ).left_edit();
            let attempted = neutral.create_attempted(second_at);
            let editing = attempted.create_finished(Ok(ResultView::Created { path: created_next }));
            &&& neutral.create_dispatches(second_at)
            &&& attempted.state == SinglelineFileState::New
            &&& attempted.last_create_event_raised_at == Some(second_at)
            &&& editing.state == SinglelineFileState::Edit
            &&& editing.current_edit_path == Some(created_next)
            &&& WorkflowModel::create_answer(Ok(ResultView::Created { path: created_next })) == Ok::<
                Option<Seq<char>>,
                IoFailureView,
            >(Some(created_next))
        }),
{
}

/// Once parked in `New`, no create attempt is dispatched, at whatever time,
/// until another transition has taken the machine out of `New`.
pub proof fn lemma_parked_machine_refuses_creates(model: WorkflowModel, now: MonotonicInstant)
    requires
        model.state == SinglelineFileState::New,
    ensures
        !model.create_dispatches(now),
        model.create_attempted(now) == model,
        model.left_edit() == model,
{
}

} // verus!
