use papyru2::autosave::{EditorAutoSaveCoordinator, EditorAutoSavePayload, EDITOR_AUTOSAVE_IDLE_NANOS, EDITOR_AUTOSAVE_TICK_NANOS};
use papyru2::autosave_worker::{editor_autosave_tick, AutosaveTick};
use papyru2::clock::{MonotonicInstant, TimeSpan};
use papyru2::dispatcher::{queue_lock_poisoned, worker_terminated, QueueState, WorkerStep};
use papyru2::events::{FileWorkflowEvent, FileWorkflowEventResult};
use papyru2::failure::{IoFailure, IoFailureKind};
use papyru2::timestamp::LocalTimestamp;
use papyru2::workflow::{
    SinglelineCreateFileWorkflow, SinglelineFileState, CREATE_EVENT_MIN_INTERVAL_NANOS,
};

fn fixed_now() -> LocalTimestamp {
    LocalTimestamp::new(2026, 2, 28, 12, 34, 56, 789).expect("fixed timestamp")
}

fn at(nanos: u64) -> MonotonicInstant {
    MonotonicInstant { nanos }
}

fn payload(path: &str, text: &str) -> EditorAutoSavePayload {
    EditorAutoSavePayload { current_path: path.to_string(), editor_text: text.to_string() }
}

fn idle() -> TimeSpan {
    TimeSpan { nanos: EDITOR_AUTOSAVE_IDLE_NANOS }
}

fn created(path: &str) -> Result<FileWorkflowEventResult, IoFailure> {
    Ok(FileWorkflowEventResult::Created { path: path.to_string() })
}

#[test]
fn constants_have_their_documented_values() {
    assert_eq!(CREATE_EVENT_MIN_INTERVAL_NANOS, 1_000_000_000);
    assert_eq!(EDITOR_AUTOSAVE_IDLE_NANOS, 6_000_000_000);
    assert_eq!(EDITOR_AUTOSAVE_TICK_NANOS, 200_000_000);
}

#[test]
fn create_event_carries_the_request() {
    let mut workflow = SinglelineCreateFileWorkflow::new();
    let event = workflow
        .try_create_from_neutral("title", "/docs", at(10), fixed_now())
        .expect("dispatched");
    match event {
        FileWorkflowEvent::Create(request) => {
            assert_eq!(request.user_document_dir, "/docs");
            assert_eq!(request.singleline_value, "title");
            assert_eq!(request.now, fixed_now());
        }
        _ => panic!("unexpected event"),
    }
    assert_eq!(workflow.state(), SinglelineFileState::New);
    assert_eq!(workflow.current_edit_path(), None);
}

#[test]
fn create_throttle_refuses_only_below_one_second() {
    let start = 7_000_000_000u64;
    for (later, dispatched) in [
        (start, false),
        (start + 1, false),
        (start + 999_999_999, false),
        (start + 1_000_000_000, true),
        (start + 1_000_000_001, true),
        (start + 60_000_000_000, true),
        (start - 1, false),
        (0, false),
    ] {
        let mut workflow = SinglelineCreateFileWorkflow::new();
        assert!(workflow.try_create_from_neutral("a", "/docs", at(start), fixed_now()).is_some());
        assert_eq!(
            workflow.finish_create(created("/docs/2026/02/28/a.txt")),
            Ok(Some("/docs/2026/02/28/a.txt".to_string()))
        );
        assert!(workflow.transition_edit_to_neutral());
        let second = workflow.try_create_from_neutral("b", "/docs", at(later), fixed_now());
        assert_eq!(second.is_some(), dispatched);
        assert_eq!(workflow.state(), SinglelineFileState::New);
    }
}

#[test]
fn create_at_exactly_the_minimum_interval_is_dispatched() {
    let first_at = at(3_000_000_000);
    let second_at = at(3_000_000_000 + CREATE_EVENT_MIN_INTERVAL_NANOS);
    let mut workflow = SinglelineCreateFileWorkflow::new();
    assert!(workflow.try_create_from_neutral("a", "/docs", first_at, fixed_now()).is_some());
    workflow.finish_create(created("/docs/2026/02/28/a.txt")).expect("finish");
    assert!(workflow.transition_edit_to_neutral());

    let event = workflow.try_create_from_neutral("b", "/docs", second_at, fixed_now());
    assert!(matches!(event, Some(FileWorkflowEvent::Create(_))));
    assert_eq!(workflow.state(), SinglelineFileState::New);
    assert_eq!(
        workflow.finish_create(created("/docs/2026/02/28/b.txt")),
        Ok(Some("/docs/2026/02/28/b.txt".to_string()))
    );
    assert_eq!(workflow.state(), SinglelineFileState::Edit);
    assert_eq!(workflow.current_edit_path().as_deref(), Some("/docs/2026/02/28/b.txt"));

    assert!(workflow.transition_edit_to_neutral());
    let one_short = at(second_at.nanos + CREATE_EVENT_MIN_INTERVAL_NANOS - 1);
    assert!(workflow.try_create_from_neutral("c", "/docs", one_short, fixed_now()).is_none());
    assert_eq!(workflow.state(), SinglelineFileState::New);
}

#[test]
fn throttled_create_parks_the_machine_until_another_transition() {
    let mut workflow = SinglelineCreateFileWorkflow::new();
    assert!(workflow.try_create_from_neutral("a", "/docs", at(0), fixed_now()).is_some());
    workflow.finish_create(created("/docs/a.txt")).expect("finish");
    assert!(workflow.transition_edit_to_neutral());
    assert!(workflow.try_create_from_neutral("b", "/docs", at(10), fixed_now()).is_none());
    assert_eq!(workflow.state(), SinglelineFileState::New);
    assert!(workflow
        .try_create_from_neutral("b", "/docs", at(100_000_000_000), fixed_now())
        .is_none());
    assert_eq!(workflow.state(), SinglelineFileState::New);
    assert!(!workflow.transition_edit_to_neutral());
    assert!(workflow.try_rename_in_edit("b", fixed_now()).is_none());

    workflow.reset_startup_to_neutral();
    assert!(workflow
        .try_create_from_neutral("b", "/docs", at(100_000_000_000), fixed_now())
        .is_some());
}

#[test]
fn failed_or_foreign_answers_to_a_create_change_nothing() {
    let mut workflow = SinglelineCreateFileWorkflow::new();
    assert!(workflow.try_create_from_neutral("a", "/docs", at(0), fixed_now()).is_some());
    let failure = IoFailure::new(IoFailureKind::AlreadyExists, "file exists");
    assert_eq!(workflow.finish_create(Err(failure.clone())), Err(failure));
    assert_eq!(workflow.state(), SinglelineFileState::New);
    assert_eq!(workflow.current_edit_path(), None);
    assert_eq!(
        workflow.finish_create(Ok(FileWorkflowEventResult::Renamed { path: "/x".to_string() })),
        Ok(None)
    );
    assert_eq!(
        workflow.finish_create(Ok(FileWorkflowEventResult::AutoSaved { path: "/x".to_string() })),
        Ok(None)
    );
    assert_eq!(workflow.state(), SinglelineFileState::New);
}

#[test]
fn rename_event_names_the_current_path_and_the_answer_replaces_it() {
    let mut workflow = SinglelineCreateFileWorkflow::new();
    workflow.set_edit_from_open_file("/docs/old.txt".to_string());
    match workflow.try_rename_in_edit("new", fixed_now()).expect("dispatched") {
        FileWorkflowEvent::Rename(request) => {
            assert_eq!(request.current_path, "/docs/old.txt");
            assert_eq!(request.singleline_value, "new");
            assert_eq!(request.now, fixed_now());
        }
        _ => panic!("unexpected event"),
    }
    assert_eq!(
        workflow.finish_rename(Ok(FileWorkflowEventResult::Renamed {
            path: "/docs/new_2.txt".to_string()
        })),
        Ok(Some("/docs/new_2.txt".to_string()))
    );
    assert_eq!(workflow.state(), SinglelineFileState::Edit);
    assert_eq!(workflow.current_edit_path().as_deref(), Some("/docs/new_2.txt"));

    let failure = IoFailure::new(IoFailureKind::NotFound, "current editing file does not exist");
    assert_eq!(workflow.finish_rename(Err(failure.clone())), Err(failure));
    assert_eq!(
        workflow.finish_rename(Ok(FileWorkflowEventResult::Created { path: "/x".to_string() })),
        Ok(None)
    );
    assert_eq!(workflow.current_edit_path().as_deref(), Some("/docs/new_2.txt"));
}

#[test]
fn rename_answer_after_the_note_was_closed_is_not_applied() {
    let mut workflow = SinglelineCreateFileWorkflow::new();
    workflow.set_edit_from_open_file("/docs/old.txt".to_string());
    assert!(workflow.try_rename_in_edit("new", fixed_now()).is_some());
    assert!(workflow.transition_edit_to_neutral());
    assert_eq!(
        workflow
            .finish_rename(Ok(FileWorkflowEventResult::Renamed { path: "/docs/new.txt".to_string() })),
        Ok(None)
    );
    assert_eq!(workflow.state(), SinglelineFileState::Neutral);
    assert_eq!(workflow.current_edit_path(), None);
}

#[test]
fn autosave_answers_are_told_apart() {
    assert_eq!(
        SinglelineCreateFileWorkflow::finish_autosave(Ok(FileWorkflowEventResult::AutoSaved {
            path: "/p".to_string()
        })),
        Ok(true)
    );
    assert_eq!(
        SinglelineCreateFileWorkflow::finish_autosave(Ok(FileWorkflowEventResult::Created {
            path: "/p".to_string()
        })),
        Ok(false)
    );
    assert_eq!(
        SinglelineCreateFileWorkflow::finish_autosave(Ok(FileWorkflowEventResult::Renamed {
            path: "/p".to_string()
        })),
        Ok(false)
    );
    let failure = IoFailure::new(IoFailureKind::InvalidData, "bad payload");
    assert_eq!(SinglelineCreateFileWorkflow::finish_autosave(Err(failure.clone())), Err(failure));
}

#[test]
fn open_file_forces_edit_from_every_state() {
    let mut workflow = SinglelineCreateFileWorkflow::new();
    workflow.set_edit_from_open_file("/a".to_string());
    assert_eq!(workflow.snapshot().state, SinglelineFileState::Edit);
    workflow.set_edit_from_open_file("/b".to_string());
    assert_eq!(workflow.snapshot().current_edit_path.as_deref(), Some("/b"));
    workflow.reset_startup_to_neutral();
    assert!(workflow.try_create_from_neutral("t", "/docs", at(0), fixed_now()).is_some());
    assert_eq!(workflow.state(), SinglelineFileState::New);
    workflow.set_edit_from_open_file("/c".to_string());
    assert_eq!(workflow.state(), SinglelineFileState::Edit);
    assert_eq!(workflow.current_edit_path().as_deref(), Some("/c"));
}

#[test]
fn coordinator_starts_idle() {
    let mut coordinator = EditorAutoSaveCoordinator::new();
    assert!(!coordinator.has_pending_payload());
    assert_eq!(coordinator.last_delta_trace_secs(), None);
    assert_eq!(coordinator.pop_due_payload(at(u64::MAX), TimeSpan { nanos: 0 }), None);
}

#[test]
fn only_the_last_of_several_edits_is_handed_out() {
    let mut coordinator = EditorAutoSaveCoordinator::new();
    coordinator.mark_user_edit(payload("/p", "first"), at(1_000_000_000));
    coordinator.mark_user_edit(payload("/p", "second"), at(3_000_000_000));
    assert!(coordinator.has_pending_payload());
    assert_eq!(coordinator.pop_due_payload(at(6_999_999_999), idle()), None);
    assert!(coordinator.has_pending_payload());
    assert_eq!(coordinator.last_delta_trace_secs(), Some(5));
    assert_eq!(coordinator.pop_due_payload(at(7_000_000_000), idle()), Some(payload("/p", "second")));
    assert!(!coordinator.has_pending_payload());
    assert_eq!(coordinator.last_delta_trace_secs(), None);
    assert_eq!(coordinator.pop_due_payload(at(70_000_000_000), idle()), None);
}

#[test]
fn the_countdown_runs_from_the_first_edit_and_is_armed_anew_after_a_pop() {
    let mut coordinator = EditorAutoSaveCoordinator::new();
    coordinator.mark_user_edit(payload("/p", "a"), at(0));
    coordinator.mark_user_edit(payload("/p", "b"), at(5_900_000_000));
    assert_eq!(coordinator.pop_due_payload(at(6_000_000_000), idle()), Some(payload("/p", "b")));
    coordinator.mark_user_edit(payload("/p", "c"), at(6_100_000_000));
    assert_eq!(coordinator.pop_due_payload(at(12_000_000_000), idle()), None);
    assert_eq!(coordinator.pop_due_payload(at(12_100_000_000), idle()), Some(payload("/p", "c")));
}

#[test]
fn a_clock_that_runs_backwards_counts_as_no_time_passed() {
    let mut coordinator = EditorAutoSaveCoordinator::new();
    coordinator.mark_user_edit(payload("/p", "a"), at(10_000_000_000));
    assert_eq!(coordinator.pop_due_payload(at(1), idle()), None);
    assert_eq!(coordinator.last_delta_trace_secs(), Some(0));
    assert_eq!(coordinator.pop_due_payload(at(1), TimeSpan { nanos: 0 }), Some(payload("/p", "a")));
}

#[test]
fn clearing_the_target_drops_the_payload_and_retargeting_keeps_the_text() {
    let mut coordinator = EditorAutoSaveCoordinator::new();
    coordinator.mark_user_edit(payload("/old", "text"), at(0));
    coordinator.on_edit_path_changed(Some("/new".to_string()));
    assert_eq!(
        coordinator.pop_due_payload(at(EDITOR_AUTOSAVE_IDLE_NANOS), idle()),
        Some(payload("/new", "text"))
    );

    coordinator.mark_user_edit(payload("/new", "more"), at(0));
    coordinator.on_edit_path_changed(None);
    assert!(!coordinator.has_pending_payload());
    assert_eq!(coordinator.pop_due_payload(at(u64::MAX), idle()), None);

    coordinator.on_edit_path_changed(Some("/other".to_string()));
    assert!(!coordinator.has_pending_payload());
}

#[test]
fn tick_dispatches_a_due_payload_for_the_current_note_only() {
    let mut coordinator = EditorAutoSaveCoordinator::new();
    let mut workflow = SinglelineCreateFileWorkflow::new();
    workflow.set_edit_from_open_file("/p".to_string());

    assert!(matches!(editor_autosave_tick(&mut coordinator, &workflow, at(0)), AutosaveTick::Idle));
    coordinator.mark_user_edit(payload("/p", "line-1\nline-2"), at(0));
    assert!(matches!(
        editor_autosave_tick(&mut coordinator, &workflow, at(5_999_999_999)),
        AutosaveTick::Idle
    ));
    match editor_autosave_tick(&mut coordinator, &workflow, at(6_000_000_000)) {
        AutosaveTick::Dispatch(FileWorkflowEvent::AutoSave(request)) => {
            assert_eq!(request.payload, payload("/p", "line-1\nline-2"));
        }
        _ => panic!("unexpected tick"),
    }
    assert!(!coordinator.has_pending_payload());

    coordinator.mark_user_edit(payload("/p", "again"), at(0));
    workflow.reset_startup_to_neutral();
    match editor_autosave_tick(&mut coordinator, &workflow, at(6_000_000_000)) {
        AutosaveTick::Skipped { path } => assert_eq!(path, "/p"),
        _ => panic!("unexpected tick"),
    }
    assert!(!coordinator.has_pending_payload());
}

#[test]
fn queue_is_first_in_first_out_and_drains_before_exit() {
    let mut queue: QueueState<u32> = QueueState::new();
    assert!(matches!(queue.worker_step(), WorkerStep::Wait));
    assert_eq!(queue.enqueue(1), Ok(()));
    assert_eq!(queue.enqueue(2), Ok(()));
    assert_eq!(queue.enqueue(3), Ok(()));
    assert_eq!(queue.len(), 3);
    assert!(matches!(queue.worker_step(), WorkerStep::Run(1)));
    queue.shutdown();
    assert!(queue.is_shutdown());
    assert_eq!(queue.enqueue(4), Ok(()));
    assert!(matches!(queue.worker_step(), WorkerStep::Run(2)));
    assert!(matches!(queue.worker_step(), WorkerStep::Run(3)));
    assert!(matches!(queue.worker_step(), WorkerStep::Run(4)));
    assert_eq!(queue.len(), 0);
    assert!(matches!(queue.worker_step(), WorkerStep::Exit));
    assert!(matches!(queue.worker_step(), WorkerStep::Exit));
}

#[test]
fn a_worker_that_has_left_takes_no_more_envelopes() {
    let mut queue: QueueState<u32> = QueueState::new();
    assert!(!queue.has_worker_left());
    assert_eq!(queue.enqueue(1), Ok(()));
    queue.shutdown();
    assert!(!queue.has_worker_left());
    assert_eq!(queue.enqueue(2), Ok(()));
    assert!(matches!(queue.worker_step(), WorkerStep::Run(1)));
    assert!(matches!(queue.worker_step(), WorkerStep::Run(2)));
    assert!(!queue.has_worker_left());
    assert!(matches!(queue.worker_step(), WorkerStep::Exit));
    assert!(queue.has_worker_left());

    let refused = queue.enqueue(3).expect_err("the worker has left");
    assert_eq!(refused.kind, IoFailureKind::BrokenPipe);
    assert_eq!(
        refused.to_string(),
        "file_update_handler worker terminated before sending response"
    );
    assert_eq!(queue.len(), 0);
    assert!(matches!(queue.worker_step(), WorkerStep::Exit));
    assert_eq!(queue.enqueue(4), Err(worker_terminated()));
    assert_eq!(queue.len(), 0);
}

#[test]
fn a_worker_found_gone_leaves_its_queue_to_be_answered() {
    let mut queue: QueueState<u32> = QueueState::new();
    assert_eq!(queue.enqueue(1), Ok(()));
    assert_eq!(queue.enqueue(2), Ok(()));
    assert!(matches!(queue.worker_step(), WorkerStep::Run(1)));
    assert_eq!(queue.enqueue(3), Ok(()));

    let waiting: Vec<u32> = queue.abandon().into_iter().collect();
    assert_eq!(waiting, vec![2, 3]);
    assert!(queue.has_worker_left());
    assert!(!queue.is_shutdown());
    assert_eq!(queue.len(), 0);
    assert_eq!(queue.enqueue(4), Err(worker_terminated()));
    assert!(matches!(queue.worker_step(), WorkerStep::Exit));
    assert!(queue.abandon().is_empty());
}

#[test]
fn the_countdown_is_reported_once_for_each_whole_second() {
    let mut coordinator = EditorAutoSaveCoordinator::new();
    assert_eq!(coordinator.countdown_report(at(0)), None);
    coordinator.mark_user_edit(payload("/p", "a"), at(1_000_000_000));

    assert_eq!(coordinator.countdown_report(at(1_250_000_000)), Some(TimeSpan { nanos: 250_000_000 }));
    assert_eq!(coordinator.pop_due_payload(at(1_250_000_000), idle()), None);
    assert_eq!(coordinator.countdown_report(at(1_999_999_999)), None);
    assert_eq!(coordinator.pop_due_payload(at(1_999_999_999), idle()), None);
    assert_eq!(
        coordinator.countdown_report(at(2_000_000_000)),
        Some(TimeSpan { nanos: 1_000_000_000 })
    );
    assert_eq!(coordinator.pop_due_payload(at(2_000_000_000), idle()), None);
    assert_eq!(coordinator.countdown_report(at(2_000_000_001)), None);

    assert_eq!(
        coordinator.countdown_report(at(7_000_000_000)),
        Some(TimeSpan { nanos: 6_000_000_000 })
    );
    assert_eq!(coordinator.pop_due_payload(at(7_000_000_000), idle()), Some(payload("/p", "a")));
    assert_eq!(coordinator.countdown_report(at(7_000_000_000)), None);
}

#[test]
fn dispatcher_failures_are_distinct() {
    let gone = worker_terminated();
    assert_eq!(gone.kind, IoFailureKind::BrokenPipe);
    assert_eq!(gone.to_string(), "file_update_handler worker terminated before sending response");
    let poisoned = queue_lock_poisoned();
    assert_eq!(poisoned.kind, IoFailureKind::Other);
    assert_eq!(poisoned.to_string(), "file_update_handler event queue lock poisoned on enqueue");
}

#[test]
fn failures_are_copied_with_kind_and_message() {
    let cause = IoFailure::new(IoFailureKind::NotFound, "no such file");
    assert_eq!(cause.kind, IoFailureKind::NotFound);
    assert_eq!(cause.to_string(), "no such file");
    assert_eq!(cause.duplicate(), cause);
}

#[test]
fn clock_differences_saturate_or_fail() {
    assert_eq!(at(5).saturating_duration_since(at(3)), TimeSpan { nanos: 2 });
    assert_eq!(at(3).saturating_duration_since(at(5)), TimeSpan { nanos: 0 });
    assert_eq!(at(5).checked_duration_since(at(3)), Some(TimeSpan { nanos: 2 }));
    assert_eq!(at(3).checked_duration_since(at(5)), None);
    assert_eq!(TimeSpan { nanos: 5_999_999_999 }.as_secs(), 5);
    assert_eq!(TimeSpan { nanos: 6_000_000_000 }.as_secs(), 6);
}
