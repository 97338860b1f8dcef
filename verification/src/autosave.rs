//! The autosave coordinator: it keeps the latest body text of the note that
//! is being edited and hands it out for writing once the user has been idle
//! for long enough.

use crate::clock::{elapsed_nanos, MonotonicInstant, TimeSpan, NANOS_PER_SECOND};
use crate::naming::text_of;
use vstd::prelude::*;
use vstd::string::*;

verus! {

/// The body text is written once the countdown is this old: six seconds, in
/// nanoseconds.
pub const EDITOR_AUTOSAVE_IDLE_NANOS: u64 = 6_000_000_000;

/// The coordinator is asked this often whether a write is due: every fifth
/// of a second, in nanoseconds.
pub const EDITOR_AUTOSAVE_TICK_NANOS: u64 = 200_000_000;

/// The full body text of a note and the file it belongs in.
#[derive(Debug, Clone, PartialEq, Eq)]
pub struct EditorAutoSavePayload {
    pub current_path: String,
    pub editor_text: String,
}

/// An [`EditorAutoSavePayload`] as sequences of characters.
pub struct PayloadView {
    pub current_path: Seq<char>,
    pub editor_text: Seq<char>,
}

impl View for EditorAutoSavePayload {
    type V = PayloadView;

    open spec fn view(&self) -> PayloadView {
        PayloadView { current_path: self.current_path@, editor_text: self.editor_text@ }
    }
}

impl EditorAutoSavePayload {
    /// A copy of this payload.
    pub fn duplicate(&self) -> (copy: EditorAutoSavePayload)
        ensures
            copy@ == self@,
    {
        EditorAutoSavePayload {
            current_path: self.current_path.clone(),
            editor_text: self.editor_text.clone(),
        }
    }
}

/// The request to write a payload to its file.
#[derive(Debug, Clone)]
pub struct AutoSaveFileRequest {
    pub payload: EditorAutoSavePayload,
}

/// The payload of an optional payload value, as its view.
pub open spec fn payload_of(payload: Option<EditorAutoSavePayload>) -> Option<PayloadView> {
    match payload {
        None => None,
        Some(p) => Some(p@),
    }
}

/// What the coordinator remembers.
pub struct AutoSaveState {
    /// When the idle countdown was armed, if it is.
    pub pinned_time: Option<MonotonicInstant>,
    /// The text that waits to be written, if any.
    pub pending_payload: Option<PayloadView>,
    /// The age of the countdown in whole seconds, as last reported.
    pub last_delta_trace_secs: Option<u64>,
}

impl AutoSaveState {
    /// Nothing armed and nothing pending.
    pub open spec fn idle() -> AutoSaveState {
        AutoSaveState { pinned_time: None, pending_payload: None, last_delta_trace_secs: None }
    }

    /// A payload waits exactly while the countdown is armed, and a reported
    /// age belongs to an armed countdown.
    pub open spec fn well_formed(self) -> bool {
        &&& self.pinned_time is Some <==> self.pending_payload is Some
        &&& self.last_delta_trace_secs is Some ==> self.pinned_time is Some
    }

    /// After an edit at `now`: the countdown is armed if it was not, and
    /// `payload` takes the place of whatever waited.
    pub open spec fn marked(self, payload: PayloadView, now: MonotonicInstant) -> AutoSaveState {
        if self.pinned_time is None {
            AutoSaveState {
                pinned_time: Some(now),
                pending_payload: Some(payload),
                last_delta_trace_secs: None,
            }
        } else {
            AutoSaveState { pending_payload: Some(payload), ..self }
        }
    }

    /// After the edited file changed: towards another file the waiting
    /// payload follows it, towards none everything is dropped.
    pub open spec fn retargeted(self, path: Option<Seq<char>>) -> AutoSaveState {
        match path {
            Some(new_path) => match self.pending_payload {
                Some(payload) => AutoSaveState {
                    pending_payload: Some(PayloadView { current_path: new_path, ..payload }),
                    ..self
                },
                None => self,
            },
            None => AutoSaveState::idle(),
        }
    }

    /// Whether a write is due at `now`: the countdown is armed and at least
    /// `idle_duration` old.
    pub open spec fn is_due(self, now: MonotonicInstant, idle_duration: TimeSpan) -> bool {
        self.pinned_time matches Some(pinned) && elapsed_nanos(now, pinned) >= idle_duration.nanos
    }

    /// After the coordinator was asked at `now`: when a write is due it is
    /// idle again; else only the reported age of an armed countdown follows
    /// the clock.
    pub open spec fn polled(self, now: MonotonicInstant, idle_duration: TimeSpan) -> AutoSaveState {
        match self.pinned_time {
            None => self,
            Some(pinned) => if elapsed_nanos(now, pinned) >= idle_duration.nanos {
                AutoSaveState::idle()
            } else if self.pending_payload is Some {
                AutoSaveState {
                    last_delta_trace_secs: Some(
                        (elapsed_nanos(now, pinned) / NANOS_PER_SECOND as int) as u64,
                    ),
                    ..self
                }
            } else {
                self
            },
        }
    }

    /// The age of the countdown that a poll at `now` has to report, if any:
    /// the age of an armed countdown with a waiting payload, whenever its
    /// whole seconds are not what was reported last. The poll at which the
    /// payload is handed out reports as any other.
    pub open spec fn age_to_report(self, now: MonotonicInstant) -> Option<TimeSpan> {
        match self.pinned_time {
            None => None,
            Some(pinned) => if self.pending_payload is Some && self.last_delta_trace_secs != Some(
                (elapsed_nanos(now, pinned) / NANOS_PER_SECOND as int) as u64,
            ) {
                Some(TimeSpan { nanos: elapsed_nanos(now, pinned) as u64 })
            } else {
                None
            },
        }
    }

    /// What is handed out for writing at `now`: the waiting payload when a
    /// write is due, else nothing.
    pub open spec fn due_payload(self, now: MonotonicInstant, idle_duration: TimeSpan) -> Option<
        PayloadView,
    > {
        if self.is_due(now, idle_duration) {
            self.pending_payload
        } else {
            None
        }
    }
}

/// Debounces the edits of the body text into one pending payload.
#[derive(Debug)]
pub struct EditorAutoSaveCoordinator {
    pinned_time: Option<MonotonicInstant>,
    pending_payload: Option<EditorAutoSavePayload>,
    last_delta_trace_secs: Option<u64>,
}

impl View for EditorAutoSaveCoordinator {
    type V = AutoSaveState;

    closed spec fn view(&self) -> AutoSaveState {
        AutoSaveState {
            pinned_time: self.pinned_time,
            pending_payload: payload_of(self.pending_payload),
            last_delta_trace_secs: self.last_delta_trace_secs,
        }
    }
}

impl EditorAutoSaveCoordinator {
    #[verifier::type_invariant]
    spec fn consistent(self) -> bool {
        self@.well_formed()
    }

    /// A coordinator with nothing armed and nothing pending.
    pub fn new() -> (coordinator: EditorAutoSaveCoordinator)
        ensures
            coordinator@ == AutoSaveState::idle(),
    {
        EditorAutoSaveCoordinator {
            pinned_time: None,
            pending_payload: None,
            last_delta_trace_secs: None,
        }
    }

    /// Records an edit at `now`: see [`AutoSaveState::marked`].
    pub fn mark_user_edit(&mut self, payload: EditorAutoSavePayload, now: MonotonicInstant)
        ensures
            final(self)@ == old(self)@.marked(payload@, now),
            final(self)@.well_formed(),
    {
        proof {
            use_type_invariant(&*self);
        }
        if self.pinned_time.is_none() {
            *self = EditorAutoSaveCoordinator {
                pinned_time: Some(now),
                pending_payload: Some(payload),
                last_delta_trace_secs: None,
            };
        } else {
            *self = EditorAutoSaveCoordinator {
                pinned_time: self.pinned_time,
                pending_payload: Some(payload),
                last_delta_trace_secs: self.last_delta_trace_secs,
            };
        }
    }

    /// Follows a change of the edited file: see [`AutoSaveState::retargeted`].
    pub fn on_edit_path_changed(&mut self, path: Option<String>)
        ensures
            final(self)@ == old(self)@.retargeted(text_of(path)),
            final(self)@.well_formed(),
    {
        proof {
            use_type_invariant(&*self);
        }
        let mut before = EditorAutoSaveCoordinator::new();
        core::mem::swap(self, &mut before);
        match path {
            Some(new_path) => {
                let EditorAutoSaveCoordinator { pinned_time, pending_payload, last_delta_trace_secs } =
                    before;
                let retargeted = match pending_payload {
                    Some(payload) => Some(
                        EditorAutoSavePayload {
                            current_path: new_path,
                            editor_text: payload.editor_text,
                        },
                    ),
                    None => None,
                };
                *self = EditorAutoSaveCoordinator {
                    pinned_time,
                    pending_payload: retargeted,
                    last_delta_trace_secs,
                };
            },
            None => {},
        }
    }

    /// Asks whether a write is due at `now`, and takes the payload out if so:
    /// see [`AutoSaveState::due_payload`] and [`AutoSaveState::polled`].
    pub fn pop_due_payload(&mut self, now: MonotonicInstant, idle_duration: TimeSpan) -> (due:
        Option<EditorAutoSavePayload>)
        ensures
            payload_of(due) == old(self)@.due_payload(now, idle_duration),
            final(self)@ == old(self)@.polled(now, idle_duration),
            final(self)@.well_formed(),
    {
        proof {
            use_type_invariant(&*self);
        }
        let pinned_time = match self.pinned_time {
            Some(pinned) => pinned,
            None => {
                return None;
            },
        };
        let delta = now.saturating_duration_since(pinned_time);
        if delta.nanos < idle_duration.nanos {
            if self.pending_payload.is_some() {
                self.last_delta_trace_secs = Some(delta.as_secs());
            }
            return None;
        }
        let mut before = EditorAutoSaveCoordinator::new();
        core::mem::swap(self, &mut before);
        before.pending_payload
    }

    /// Whether a payload waits to be written.
    pub fn has_pending_payload(&self) -> (pending: bool)
        ensures
            pending == self@.pending_payload is Some,
    {
        self.pending_payload.is_some()
    }

    /// The age of the armed countdown in whole seconds, as the last poll saw it.
    pub fn last_delta_trace_secs(&self) -> (secs: Option<u64>)
        ensures
            secs == self@.last_delta_trace_secs,
    {
        self.last_delta_trace_secs
    }

    /// The age of the countdown that a poll at `now` has to report, if any:
    /// see [`AutoSaveState::age_to_report`]. To be asked before the poll.
    pub fn countdown_report(&self, now: MonotonicInstant) -> (age: Option<TimeSpan>)
        ensures
            age == self@.age_to_report(now),
    {
        let pinned = match self.pinned_time {
            Some(pinned) => pinned,
            None => {
                return None;
            },
        };
        if self.pending_payload.is_none() {
            return None;
        }
        let delta = now.saturating_duration_since(pinned);
        let delta_secs = delta.as_secs();
        let reported = match self.last_delta_trace_secs {
            Some(last) => last == delta_secs,
            None => false,
        };
        if reported {
            None
        } else {
            Some(delta)
        }
    }
}

/// A countdown is reported once for each whole second of its age: a poll
/// that is not due records the age it reports, so that a second poll within
/// the same whole second reports nothing.
pub proof fn lemma_age_is_reported_once_a_second(
    state: AutoSaveState,
    now: MonotonicInstant,
    later: MonotonicInstant,
    idle_duration: TimeSpan,
)
    requires
        state.well_formed(),
        state.pinned_time matches Some(pinned) && elapsed_nanos(now, pinned) < idle_duration.nanos
            && elapsed_nanos(later, pinned) / NANOS_PER_SECOND as int == elapsed_nanos(now, pinned)
            / NANOS_PER_SECOND as int,
    ensures
        state.polled(now, idle_duration).age_to_report(later) is None,
        state.polled(now, idle_duration).last_delta_trace_secs == Some(
            (elapsed_nanos(now, state.pinned_time->0) / NANOS_PER_SECOND as int) as u64,
        ),
{
}

/// Of several edits before the idle time has passed, only the last is written:
/// after two edits on an idle coordinator nothing is handed out while the
/// time since the first edit is short of `idle_duration`, and from then on
/// the second payload is, after which the coordinator is idle again.
pub proof fn lemma_last_edit_wins(
    first: PayloadView,
    first_at: MonotonicInstant,
    second: PayloadView,
    second_at: MonotonicInstant,
    now: MonotonicInstant,
    idle_duration: TimeSpan,
)
    ensures
        ({
            let state = AutoSaveState::idle().marked(first, first_at).marked(second, second_at);
            &&& state.well_formed()
            &&& elapsed_nanos(now, first_at) < idle_duration.nanos ==> state.due_payload(
                now,
                idle_duration,
            ) is None && state.polled(now, idle_duration).pending_payload == Some(second)
            &&& elapsed_nanos(now, first_at) >= idle_duration.nanos ==> state.due_payload(
                now,
                idle_duration,
            ) == Some(second) && state.polled(now, idle_duration) == AutoSaveState::idle()
        }),
{
}

/// A payload is handed out once, whatever becomes of the write: when a
/// write is due the waiting payload is handed out and the coordinator is
/// idle at once, so that no later poll hands it out again, whether the
/// write succeeds or fails.
pub proof fn lemma_due_payload_is_handed_out_once(
    state: AutoSaveState,
    now: MonotonicInstant,
    idle_duration: TimeSpan,
    later: MonotonicInstant,
    later_idle_duration: TimeSpan,
)
    requires
        state.well_formed(),
        state.is_due(now, idle_duration),
    ensures
        state.due_payload(now, idle_duration) is Some,
        state.due_payload(now, idle_duration) == state.pending_payload,
        state.polled(now, idle_duration) == AutoSaveState::idle(),
        state.polled(now, idle_duration).due_payload(later, later_idle_duration) is None,
{
}

/// Once the edited file is closed nothing of it is written any more: whatever
/// waited, and however long, no payload is handed out after the target was
/// cleared.
pub proof fn lemma_cleared_target_writes_nothing(
    state: AutoSaveState,
    now: MonotonicInstant,
    idle_duration: TimeSpan,
)
    ensures
        state.retargeted(None).due_payload(now, idle_duration) is None,
        state.retargeted(None).polled(now, idle_duration) == AutoSaveState::idle(),
{
}

/// A payload that waits follows the edited file to its new path and keeps
/// its text and its countdown.
pub proof fn lemma_retarget_keeps_text(
    state: AutoSaveState,
    new_path: Seq<char>,
    now: MonotonicInstant,
    idle_duration: TimeSpan,
)
    requires
        state.well_formed(),
        state.is_due(now, idle_duration),
    ensures
        state.retargeted(Some(new_path)).due_payload(now, idle_duration) == Some(
            PayloadView {
                current_path: new_path,
                editor_text: state.pending_payload->0.editor_text,
            },
        ),
{
}

/// Every step keeps the state well formed.
pub proof fn lemma_steps_keep_well_formed(
    state: AutoSaveState,
    payload: PayloadView,
    path: Option<Seq<char>>,
    now: MonotonicInstant,
    idle_duration: TimeSpan,
)
    requires
        state.well_formed(),
    ensures
        state.marked(payload, now).well_formed(),
        state.retargeted(path).well_formed(),
        state.polled(now, idle_duration).well_formed(),
{
}

} // verus!
