use papyru2::atomic_write::{write_atomic, write_editor_text_atomic, AtomicWrite};
use papyru2::autosave::EditorAutoSavePayload;
use papyru2::clock::MonotonicInstant;
use papyru2::dispatcher::{QueueState, WorkerStep};
use papyru2::events::{
    CreateFileRequest, DispatchOutcome, FileWorkflowEvent, FileWorkflowEventResult,
    RenameFileRequest,
};
use papyru2::failure::{IoFailure, IoFailureKind};
use papyru2::file_ops::{
    candidate_file_path, create_new_text_file, process_event, rename_text_file,
    resolve_unique_txt_path, CreateFile, CreateState, FileOperation, RenameFile, RenameState,
    Resolution,
};
use papyru2::fs_protocol::{FsCommand, FsReply, WriteStage};
use papyru2::naming::{daily_directory, forced_singleline_stem_after_create};
use papyru2::timestamp::LocalTimestamp;
use papyru2::workflow::{SinglelineCreateFileWorkflow, SinglelineFileState};
use std::collections::{BTreeMap, BTreeSet};

/// A file system in memory that answers the commands of the engine.
struct FakeDisk {
    dirs: BTreeSet<String>,
    files: BTreeMap<String, Vec<u8>>,
    replace_failure: Option<IoFailure>,
    remove_failure: Option<IoFailure>,
    write_failure: Option<(WriteStage, IoFailure)>,
    vanish_temp_on_replace: bool,
    log: Vec<FsCommand>,
}

fn split(path: &str) -> (Option<String>, Option<String>) {
    let trimmed = path.trim_end_matches('/');
    if trimmed.is_empty() {
        return (None, None);
    }
    match trimmed.rfind('/') {
        Some(0) => (Some("/".to_string()), Some(trimmed[1..].to_string())),
        Some(at) => (Some(trimmed[..at].to_string()), Some(trimmed[at + 1..].to_string())),
        None => (Some(String::new()), Some(trimmed.to_string())),
    }
}

impl FakeDisk {
    fn new() -> FakeDisk {
        FakeDisk {
            dirs: BTreeSet::new(),
            files: BTreeMap::new(),
            replace_failure: None,
            remove_failure: None,
            write_failure: None,
            vanish_temp_on_replace: false,
            log: Vec::new(),
        }
    }

    fn create_dir_all(&mut self, dir: &str) {
        let mut current = dir.to_string();
        loop {
            self.dirs.insert(current.clone());
            match split(current.as_str()) {
                (Some(parent), Some(_)) if !parent.is_empty() && parent != current => {
                    current = parent;
                }
                _ => break,
            }
        }
    }

    fn write(&mut self, path: &str, content: &str) {
        if let (Some(parent), _) = split(path) {
            self.create_dir_all(parent.as_str());
        }
        self.files.insert(path.to_string(), content.as_bytes().to_vec());
    }

    fn has_entry(&self, path: &str) -> bool {
        self.files.contains_key(path) || self.dirs.contains(path)
    }

    fn read_to_string(&self, path: &str) -> Option<String> {
        self.files.get(path).map(|bytes| String::from_utf8(bytes.clone()).expect("utf-8"))
    }

    fn files_in(&self, dir: &str) -> usize {
        self.files.keys().filter(|path| split(path.as_str()).0.as_deref() == Some(dir)).count()
    }

    fn perform(&mut self, command: FsCommand) -> FsReply {
        self.log.push(command.clone());
        match command {
            FsCommand::CreateDirAll { dir } => {
                self.create_dir_all(dir.as_str());
                FsReply::Done
            }
            FsCommand::ProbeCandidate { path, exclude } => FsReply::Candidate {
                excluded: exclude.as_deref() == Some(path.as_str()),
                exists: self.has_entry(path.as_str()),
            },
            FsCommand::CreateNewFile { path } => {
                if self.has_entry(path.as_str()) {
                    FsReply::Failed(IoFailure::new(IoFailureKind::AlreadyExists, "file exists"))
                } else {
                    self.files.insert(path, Vec::new());
                    FsReply::Done
                }
            }
            FsCommand::ProbeIsFile { path } => FsReply::Flag(self.files.contains_key(&path)),
            FsCommand::SplitPath { path } => {
                let (parent, file_name) = split(path.as_str());
                FsReply::Parts { parent, file_name }
            }
            FsCommand::Rename { from, to } => match self.files.remove(&from) {
                Some(content) => {
                    self.files.insert(to, content);
                    FsReply::Done
                }
                None => FsReply::Failed(IoFailure::new(IoFailureKind::NotFound, "no such file")),
            },
            FsCommand::RemoveFile { path } => {
                if let Some(failure) = self.remove_failure.clone() {
                    return FsReply::Failed(failure);
                }
                match self.files.remove(&path) {
                    Some(_) => FsReply::Done,
                    None => {
                        FsReply::Failed(IoFailure::new(IoFailureKind::NotFound, "no such file"))
                    }
                }
            }
            FsCommand::WriteAndSync { path, bytes } => {
                if let Some((stage, failure)) = self.write_failure.clone() {
                    return FsReply::WriteFailed(stage, failure);
                }
                self.files.insert(path, bytes);
                FsReply::Done
            }
            FsCommand::Replace { temp, target } => {
                if let Some(failure) = self.replace_failure.clone() {
                    if self.vanish_temp_on_replace {
                        self.files.remove(&temp);
                    }
                    return FsReply::Failed(failure);
                }
                match self.files.remove(&temp) {
                    Some(content) => {
                        self.files.insert(target, content);
                        FsReply::Done
                    }
                    None => {
                        FsReply::Failed(IoFailure::new(IoFailureKind::NotFound, "no such file"))
                    }
                }
            }
        }
    }

    /// Executes an event as the worker does.
    fn dispatch(&mut self, event: FileWorkflowEvent) -> DispatchOutcome {
        let mut operation = process_event(event);
        loop {
            match operation.command() {
                Some(command) => {
                    let reply = self.perform(command);
                    operation = operation.advance(reply);
                }
                None => return operation.outcome().expect("a finished operation has an outcome"),
            }
        }
    }

    fn run_write(&mut self, mut write: AtomicWrite) -> Result<(), IoFailure> {
        loop {
            match write.command() {
                Some(command) => {
                    let reply = self.perform(command);
                    write = write.advance(reply);
                }
                None => return write.result().expect("a finished write has a result"),
            }
        }
    }

    fn create(&mut self, request: &CreateFileRequest) -> Result<String, IoFailure> {
        let mut creation = create_new_text_file(request);
        loop {
            match creation.command() {
                Some(command) => {
                    let reply = self.perform(command);
                    creation = creation.advance(reply);
                }
                None => return creation.result().expect("a finished creation has a result"),
            }
        }
    }

    fn rename(&mut self, request: &RenameFileRequest) -> Result<String, IoFailure> {
        let mut renaming = rename_text_file(request);
        loop {
            match renaming.command() {
                Some(command) => {
                    let reply = self.perform(command);
                    renaming = renaming.advance(reply);
                }
                None => return renaming.result().expect("a finished renaming has a result"),
            }
        }
    }
}

/// The workflow with its worker, as the application assembles them.
struct Workflow {
    machine: SinglelineCreateFileWorkflow,
    disk: FakeDisk,
}

impl Workflow {
    fn new() -> Workflow {
        Workflow { machine: SinglelineCreateFileWorkflow::new(), disk: FakeDisk::new() }
    }

    fn state(&self) -> SinglelineFileState {
        self.machine.state()
    }

    fn current_edit_path(&self) -> Option<String> {
        self.machine.current_edit_path()
    }

    fn try_create_from_neutral(
        &mut self,
        singleline_value: &str,
        user_document_dir: &str,
        now_instant: MonotonicInstant,
        now_local: LocalTimestamp,
    ) -> Result<Option<String>, IoFailure> {
        match self.machine.try_create_from_neutral(
            singleline_value,
            user_document_dir,
            now_instant,
            now_local,
        ) {
            None => Ok(None),
            Some(event) => {
                let outcome = self.disk.dispatch(event);
                self.machine.finish_create(outcome)
            }
        }
    }

    fn try_rename_in_edit(
        &mut self,
        singleline_value: &str,
        now_local: LocalTimestamp,
    ) -> Result<Option<String>, IoFailure> {
        match self.machine.try_rename_in_edit(singleline_value, now_local) {
            None => Ok(None),
            Some(event) => {
                let outcome = self.disk.dispatch(event);
                self.machine.finish_rename(outcome)
            }
        }
    }

    fn try_autosave_in_edit(&mut self, payload: EditorAutoSavePayload) -> Result<bool, IoFailure> {
        match self.machine.try_autosave_in_edit(payload) {
            None => Ok(false),
            Some(event) => {
                let outcome = self.disk.dispatch(event);
                SinglelineCreateFileWorkflow::finish_autosave(outcome)
            }
        }
    }
}

fn fixed_now() -> LocalTimestamp {
    LocalTimestamp::new(2026, 2, 28, 12, 34, 56, 789).expect("fixed timestamp")
}

fn instant_now() -> MonotonicInstant {
    MonotonicInstant { nanos: 5_000_000_000 }
}

fn after(start: MonotonicInstant, millis: u64) -> MonotonicInstant {
    MonotonicInstant { nanos: start.nanos + millis * 1_000_000 }
}

fn new_temp_root(name: &str) -> String {
    format!("/tmp/papyru2_singleline_newfile_{name}")
}

fn file_name_of(path: &str) -> Option<String> {
    split(path).1
}

#[test]
fn file_update_handler_newf_test1_startup_state_is_neutral() {
    let workflow = Workflow::new();
    assert_eq!(workflow.state(), SinglelineFileState::Neutral);
}

#[test]
fn file_update_handler_newf_test2_startup_has_no_current_edit_path() {
    let workflow = Workflow::new();
    assert_eq!(workflow.current_edit_path(), None);
}

#[test]
fn file_update_handler_newf_test3_neutral_create_success_transitions_to_edit() {
    let root = new_temp_root("newf_test3");
    let mut workflow = Workflow::new();
    let created = workflow
        .try_create_from_neutral("hello", root.as_str(), instant_now(), fixed_now())
        .expect("create from neutral");

    assert!(created.is_some());
    assert_eq!(workflow.state(), SinglelineFileState::Edit);
    assert!(workflow.current_edit_path().is_some());
}

#[test]
fn file_update_handler_newf_test4_create_event_throttle_blocks_second_raise_within_one_second() {
    let root = new_temp_root("newf_test4");
    let mut workflow = Workflow::new();
    let now = instant_now();

    let first = workflow
        .try_create_from_neutral("hello", root.as_str(), now, fixed_now())
        .expect("first create");
    assert!(first.is_some());

    let transitioned = workflow.machine.transition_edit_to_neutral();
    assert!(transitioned);

    let second = workflow
        .try_create_from_neutral("world", root.as_str(), after(now, 500), fixed_now())
        .expect("second create");
    assert!(second.is_none());
    assert_eq!(workflow.state(), SinglelineFileState::New);
}

#[test]
fn file_update_handler_newf_test5_edit_plus_transition_resets_to_neutral() {
    let root = new_temp_root("newf_test5");
    let mut workflow = Workflow::new();
    workflow
        .try_create_from_neutral("hello", root.as_str(), instant_now(), fixed_now())
        .expect("create");
    assert!(workflow.machine.transition_edit_to_neutral());
    assert_eq!(workflow.state(), SinglelineFileState::Neutral);
    assert_eq!(workflow.current_edit_path(), None);
}

#[test]
fn file_update_handler_newf_test6_plus_noop_in_neutral_and_new() {
    let root = new_temp_root("newf_test6");
    let mut workflow = Workflow::new();
    assert!(!workflow.machine.transition_edit_to_neutral());

    let now = instant_now();
    workflow
        .try_create_from_neutral("hello", root.as_str(), now, fixed_now())
        .expect("create");
    assert!(workflow.machine.transition_edit_to_neutral());
    let blocked = workflow
        .try_create_from_neutral("x", root.as_str(), after(now, 100), fixed_now())
        .expect("create blocked");
    assert!(blocked.is_none());
    assert!(!workflow.machine.transition_edit_to_neutral());
}

#[test]
fn file_update_handler_newf_test9_collision_suffix_appends_before_txt() {
    let root = new_temp_root("newf_test9");
    let mut disk = FakeDisk::new();
    let dir = daily_directory(root.as_str(), &fixed_now());
    disk.create_dir_all(dir.as_str());
    disk.write(format!("{dir}/hello.txt").as_str(), "");
    disk.write(format!("{dir}/hello_2.txt").as_str(), "");

    let created = disk
        .create(&CreateFileRequest {
            user_document_dir: root.clone(),
            singleline_value: "hello".to_string(),
            now: fixed_now(),
        })
        .expect("create new text file");

    assert!(std::path::Path::new(&created).ends_with(std::path::Path::new("hello_3.txt")));
}

#[test]
fn file_update_handler_newf_test14_open_file_transition_sets_edit_path() {
    let mut workflow = Workflow::new();
    let path = "C:/tmp/some.txt".to_string();
    workflow.machine.set_edit_from_open_file(path.clone());
    assert_eq!(workflow.state(), SinglelineFileState::Edit);
    assert_eq!(workflow.current_edit_path(), Some(path));
}

#[test]
fn file_update_handler_newf_test15_edit_rename_updates_current_path() {
    let root = new_temp_root("newf_test15");
    let mut workflow = Workflow::new();
    let created = workflow
        .try_create_from_neutral("start", root.as_str(), instant_now(), fixed_now())
        .expect("create")
        .expect("path");
    assert!(workflow.disk.has_entry(created.as_str()));

    let renamed = workflow
        .try_rename_in_edit("next", fixed_now())
        .expect("rename in edit")
        .expect("renamed path");
    assert!(std::path::Path::new(&renamed).ends_with(std::path::Path::new("next.txt")));
    assert!(workflow.disk.has_entry(renamed.as_str()));
    assert_eq!(workflow.current_edit_path(), Some(renamed));
}

#[test]
fn file_update_handler_newf_test16_rename_event_is_noop_when_not_in_edit() {
    let mut workflow = Workflow::new();
    let renamed = workflow.try_rename_in_edit("next", fixed_now()).expect("rename in neutral");
    assert!(renamed.is_none());
}

#[test]
fn file_update_handler_newf_test17_create_event_only_when_state_is_neutral() {
    let root = new_temp_root("newf_test17");
    let mut workflow = Workflow::new();
    workflow
        .try_create_from_neutral("hello", root.as_str(), instant_now(), fixed_now())
        .expect("create 1");
    let second = workflow
        .try_create_from_neutral("world", root.as_str(), after(instant_now(), 2000), fixed_now())
        .expect("create 2");
    assert!(second.is_none());
}

#[test]
fn file_update_handler_newf_test18_event_queue_preserves_fifo_order_for_creates() {
    let root = new_temp_root("newf_test18");
    let mut disk = FakeDisk::new();
    let mut queue: QueueState<FileWorkflowEvent> = QueueState::new();
    queue.enqueue(FileWorkflowEvent::Create(CreateFileRequest {
        user_document_dir: root.clone(),
        singleline_value: "a".to_string(),
        now: fixed_now(),
    }))
        .expect("the worker is at work");
    queue.enqueue(FileWorkflowEvent::Create(CreateFileRequest {
        user_document_dir: root.clone(),
        singleline_value: "b".to_string(),
        now: fixed_now(),
    }))
        .expect("the worker is at work");
    let first = match queue.worker_step() {
        WorkerStep::Run(event) => disk.dispatch(event).expect("first create"),
        _ => panic!("unexpected first step"),
    };
    let second = match queue.worker_step() {
        WorkerStep::Run(event) => disk.dispatch(event).expect("second create"),
        _ => panic!("unexpected second step"),
    };

    let first_path = match first {
        FileWorkflowEventResult::Created { path } => path,
        _ => panic!("unexpected first result"),
    };
    let second_path = match second {
        FileWorkflowEventResult::Created { path } => path,
        _ => panic!("unexpected second result"),
    };

    assert!(file_name_of(first_path.as_str()).as_deref() == Some("a.txt"));
    assert!(file_name_of(second_path.as_str()).as_deref() == Some("b.txt"));
    queue.shutdown();
    assert!(matches!(queue.worker_step(), WorkerStep::Exit));
}

#[test]
fn file_update_handler_newf_test19_event_dispatcher_supports_multi_producer_single_consumer() {
    let root = new_temp_root("newf_test19");
    let mut disk = FakeDisk::new();
    let mut queue: QueueState<FileWorkflowEvent> = QueueState::new();

    for ix in 0..4 {
        queue.enqueue(FileWorkflowEvent::Create(CreateFileRequest {
            user_document_dir: root.clone(),
            singleline_value: format!("p{ix}"),
            now: fixed_now(),
        }))
        .expect("the worker is at work");
    }

    let mut answered = 0;
    while let WorkerStep::Run(event) = queue.worker_step() {
        let result = disk.dispatch(event);
        assert!(result.is_ok());
        answered += 1;
    }
    assert_eq!(answered, 4);

    let created_dir = daily_directory(root.as_str(), &fixed_now());
    let count = disk.files_in(created_dir.as_str());
    assert_eq!(count, 4);
}

#[test]
fn file_update_handler_newf_test20_create_and_rename_support_multibyte_text() {
    let root = new_temp_root("newf_test20");
    let mut workflow = Workflow::new();
    workflow
        .try_create_from_neutral("こんにちは", root.as_str(), instant_now(), fixed_now())
        .expect("create");

    let renamed = workflow
        .try_rename_in_edit("こんにちは 世界", fixed_now())
        .expect("rename")
        .expect("renamed path");
    assert!(file_name_of(renamed.as_str()).is_some_and(|name| name == "こんにちは 世界.txt"));
}

#[test]
fn file_update_handler_newf_test21_rename_collision_uses_suffix() {
    let root = new_temp_root("newf_test21");
    let mut workflow = Workflow::new();
    let created = workflow
        .try_create_from_neutral("base", root.as_str(), instant_now(), fixed_now())
        .expect("create")
        .expect("path");

    let parent = split(created.as_str()).0.expect("parent");
    workflow.disk.write(format!("{parent}/renamed.txt").as_str(), "");

    let renamed = workflow.try_rename_in_edit("renamed", fixed_now()).expect("rename").expect("path");
    assert!(std::path::Path::new(&renamed).ends_with(std::path::Path::new("renamed_2.txt")));
}

#[test]
fn file_update_handler_newf_test22_rename_to_same_name_is_noop() {
    let root = new_temp_root("newf_test22");
    let mut workflow = Workflow::new();
    let created = workflow
        .try_create_from_neutral("same", root.as_str(), instant_now(), fixed_now())
        .expect("create")
        .expect("path");

    let renamed = workflow.try_rename_in_edit("same", fixed_now()).expect("rename").expect("path");
    assert_eq!(created, renamed);
}

#[test]
fn file_update_handler_newf_test23_reset_startup_to_neutral_clears_current_edit_path() {
    let mut workflow = Workflow::new();
    workflow.machine.set_edit_from_open_file("C:/tmp/file.txt".to_string());
    workflow.machine.reset_startup_to_neutral();
    let snapshot = workflow.machine.snapshot();
    assert_eq!(snapshot.state, SinglelineFileState::Neutral);
    assert!(snapshot.current_edit_path.is_none());
}

#[test]
fn file_update_handler_newf_test24_create_path_is_under_user_document_yyyy_mm_dd() {
    let root = new_temp_root("newf_test24");
    let mut disk = FakeDisk::new();
    let path = disk
        .create(&CreateFileRequest {
            user_document_dir: root.clone(),
            singleline_value: "abc".to_string(),
            now: fixed_now(),
        })
        .expect("create new file");

    let daily = daily_directory(root.as_str(), &fixed_now());
    assert!(std::path::Path::new(&path).starts_with(daily));
}

#[test]
fn file_update_handler_newf_test25_collision_forces_singleline_buffer_stem_update() {
    let root = new_temp_root("newf_test25");
    let mut disk = FakeDisk::new();
    let now = fixed_now();
    let _first = disk
        .create(&CreateFileRequest {
            user_document_dir: root.clone(),
            singleline_value: "filename".to_string(),
            now,
        })
        .expect("create first file");
    let second = disk
        .create(&CreateFileRequest {
            user_document_dir: root.clone(),
            singleline_value: "filename".to_string(),
            now,
        })
        .expect("create second file");

    let forced = forced_singleline_stem_after_create(
        "filename",
        file_name_of(second.as_str()).as_deref(),
        &now,
    )
    .expect("forced stem");
    assert_eq!(forced, "filename_2");
}

#[test]
fn file_update_handler_newf_test26_sanitization_forces_singleline_buffer_stem_update() {
    let root = new_temp_root("newf_test26");
    let mut disk = FakeDisk::new();
    let now = fixed_now();
    let created = disk
        .create(&CreateFileRequest {
            user_document_dir: root.clone(),
            singleline_value: "file:name".to_string(),
            now,
        })
        .expect("create sanitized file");

    let forced = forced_singleline_stem_after_create(
        "file:name",
        file_name_of(created.as_str()).as_deref(),
        &now,
    )
    .expect("forced stem");
    assert_eq!(forced, "file_name");
}

#[test]
fn singleline_create_file_newf_test1_startup_state_is_neutral() {
    let workflow = Workflow::new();
    assert_eq!(workflow.state(), SinglelineFileState::Neutral);
}

#[test]
fn singleline_create_file_newf_test2_startup_has_no_current_edit_path() {
    let workflow = Workflow::new();
    assert_eq!(workflow.current_edit_path(), None);
}

#[test]
fn singleline_create_file_newf_test3_neutral_create_success_transitions_to_edit() {
    let root = new_temp_root("newf_test3");
    let mut workflow = Workflow::new();
    let created = workflow
        .try_create_from_neutral("hello", root.as_str(), instant_now(), fixed_now())
        .expect("create from neutral");

    assert!(created.is_some());
    assert_eq!(workflow.state(), SinglelineFileState::Edit);
    assert!(workflow.current_edit_path().is_some());
}

#[test]
fn singleline_create_file_newf_test4_create_event_throttle_blocks_second_raise_within_one_second() {
    let root = new_temp_root("newf_test4");
    let mut workflow = Workflow::new();
    let now = instant_now();

    let first = workflow
        .try_create_from_neutral("hello", root.as_str(), now, fixed_now())
        .expect("first create");
    assert!(first.is_some());

    let transitioned = workflow.machine.transition_edit_to_neutral();
    assert!(transitioned);

    let second = workflow
        .try_create_from_neutral("world", root.as_str(), after(now, 500), fixed_now())
        .expect("second create");
    assert!(second.is_none());
    assert_eq!(workflow.state(), SinglelineFileState::New);
}

#[test]
fn singleline_create_file_newf_test5_edit_plus_transition_resets_to_neutral() {
    let root = new_temp_root("newf_test5");
    let mut workflow = Workflow::new();
    workflow
        .try_create_from_neutral("hello", root.as_str(), instant_now(), fixed_now())
        .expect("create");
    assert!(workflow.machine.transition_edit_to_neutral());
    assert_eq!(workflow.state(), SinglelineFileState::Neutral);
    assert_eq!(workflow.current_edit_path(), None);
}

#[test]
fn singleline_create_file_newf_test6_plus_noop_in_neutral_and_new() {
    let root = new_temp_root("newf_test6");
    let mut workflow = Workflow::new();
    assert!(!workflow.machine.transition_edit_to_neutral());

    let now = instant_now();
    workflow
        .try_create_from_neutral("hello", root.as_str(), now, fixed_now())
        .expect("create");
    assert!(workflow.machine.transition_edit_to_neutral());
    let blocked = workflow
        .try_create_from_neutral("x", root.as_str(), after(now, 100), fixed_now())
        .expect("create blocked");
    assert!(blocked.is_none());
    assert!(!workflow.machine.transition_edit_to_neutral());
}

#[test]
fn singleline_create_file_newf_test9_collision_suffix_appends_before_txt() {
    let root = new_temp_root("newf_test9");
    let mut disk = FakeDisk::new();
    let dir = daily_directory(root.as_str(), &fixed_now());
    disk.create_dir_all(dir.as_str());
    disk.write(format!("{dir}/hello.txt").as_str(), "");
    disk.write(format!("{dir}/hello_2.txt").as_str(), "");

    let created = disk
        .create(&CreateFileRequest {
            user_document_dir: root.clone(),
            singleline_value: "hello".to_string(),
            now: fixed_now(),
        })
        .expect("create new text file");

    assert!(std::path::Path::new(&created).ends_with(std::path::Path::new("hello_3.txt")));
}

#[test]
fn singleline_create_file_newf_test14_open_file_transition_sets_edit_path() {
    let mut workflow = Workflow::new();
    let path = "C:/tmp/some.txt".to_string();
    workflow.machine.set_edit_from_open_file(path.clone());
    assert_eq!(workflow.state(), SinglelineFileState::Edit);
    assert_eq!(workflow.current_edit_path(), Some(path));
}

#[test]
fn singleline_create_file_newf_test15_edit_rename_updates_current_path() {
    let root = new_temp_root("newf_test15");
    let mut workflow = Workflow::new();
    let created = workflow
        .try_create_from_neutral("start", root.as_str(), instant_now(), fixed_now())
        .expect("create")
        .expect("path");
    assert!(workflow.disk.has_entry(created.as_str()));

    let renamed = workflow
        .try_rename_in_edit("next", fixed_now())
        .expect("rename in edit")
        .expect("renamed path");
    assert!(std::path::Path::new(&renamed).ends_with(std::path::Path::new("next.txt")));
    assert!(workflow.disk.has_entry(renamed.as_str()));
    assert_eq!(workflow.current_edit_path(), Some(renamed));
}

#[test]
fn singleline_create_file_newf_test16_rename_event_is_noop_when_not_in_edit() {
    let mut workflow = Workflow::new();
    let renamed = workflow.try_rename_in_edit("next", fixed_now()).expect("rename in neutral");
    assert!(renamed.is_none());
}

#[test]
fn singleline_create_file_newf_test17_create_event_only_when_state_is_neutral() {
    let root = new_temp_root("newf_test17");
    let mut workflow = Workflow::new();
    workflow
        .try_create_from_neutral("hello", root.as_str(), instant_now(), fixed_now())
        .expect("create 1");
    let second = workflow
        .try_create_from_neutral("world", root.as_str(), after(instant_now(), 2000), fixed_now())
        .expect("create 2");
    assert!(second.is_none());
}

#[test]
fn singleline_create_file_newf_test18_event_queue_preserves_fifo_order_for_creates() {
    let root = new_temp_root("newf_test18");
    let mut disk = FakeDisk::new();
    let mut queue: QueueState<FileWorkflowEvent> = QueueState::new();
    queue.enqueue(FileWorkflowEvent::Create(CreateFileRequest {
        user_document_dir: root.clone(),
        singleline_value: "a".to_string(),
        now: fixed_now(),
    }))
        .expect("the worker is at work");
    queue.enqueue(FileWorkflowEvent::Create(CreateFileRequest {
        user_document_dir: root.clone(),
        singleline_value: "b".to_string(),
        now: fixed_now(),
    }))
        .expect("the worker is at work");
    let first = match queue.worker_step() {
        WorkerStep::Run(event) => disk.dispatch(event).expect("first create"),
        _ => panic!("unexpected first step"),
    };
    let second = match queue.worker_step() {
        WorkerStep::Run(event) => disk.dispatch(event).expect("second create"),
        _ => panic!("unexpected second step"),
    };

    let first_path = match first {
        FileWorkflowEventResult::Created { path } => path,
        _ => panic!("unexpected first result"),
    };
    let second_path = match second {
        FileWorkflowEventResult::Created { path } => path,
        _ => panic!("unexpected second result"),
    };

    assert!(file_name_of(first_path.as_str()).as_deref() == Some("a.txt"));
    assert!(file_name_of(second_path.as_str()).as_deref() == Some("b.txt"));
    queue.shutdown();
    assert!(matches!(queue.worker_step(), WorkerStep::Exit));
}

#[test]
fn singleline_create_file_newf_test19_event_dispatcher_supports_multi_producer_single_consumer() {
    let root = new_temp_root("newf_test19");
    let mut disk = FakeDisk::new();
    let mut queue: QueueState<FileWorkflowEvent> = QueueState::new();

    for ix in 0..4 {
        queue.enqueue(FileWorkflowEvent::Create(CreateFileRequest {
            user_document_dir: root.clone(),
            singleline_value: format!("p{ix}"),
            now: fixed_now(),
        }))
        .expect("the worker is at work");
    }

    let mut answered = 0;
    while let WorkerStep::Run(event) = queue.worker_step() {
        let result = disk.dispatch(event);
        assert!(result.is_ok());
        answered += 1;
    }
    assert_eq!(answered, 4);

    let created_dir = daily_directory(root.as_str(), &fixed_now());
    let count = disk.files_in(created_dir.as_str());
    assert_eq!(count, 4);
}

#[test]
fn singleline_create_file_newf_test20_create_and_rename_support_multibyte_text() {
    let root = new_temp_root("newf_test20");
    let mut workflow = Workflow::new();
    workflow
        .try_create_from_neutral("こんにちは", root.as_str(), instant_now(), fixed_now())
        .expect("create");

    let renamed = workflow
        .try_rename_in_edit("こんにちは 世界", fixed_now())
        .expect("rename")
        .expect("renamed path");
    assert!(file_name_of(renamed.as_str()).is_some_and(|name| name == "こんにちは 世界.txt"));
}

#[test]
fn singleline_create_file_newf_test21_rename_collision_uses_suffix() {
    let root = new_temp_root("newf_test21");
    let mut workflow = Workflow::new();
    let created = workflow
        .try_create_from_neutral("base", root.as_str(), instant_now(), fixed_now())
        .expect("create")
        .expect("path");

    let parent = split(created.as_str()).0.expect("parent");
    workflow.disk.write(format!("{parent}/renamed.txt").as_str(), "");

    let renamed = workflow.try_rename_in_edit("renamed", fixed_now()).expect("rename").expect("path");
    assert!(std::path::Path::new(&renamed).ends_with(std::path::Path::new("renamed_2.txt")));
}

#[test]
fn singleline_create_file_newf_test22_rename_to_same_name_is_noop() {
    let root = new_temp_root("newf_test22");
    let mut workflow = Workflow::new();
    let created = workflow
        .try_create_from_neutral("same", root.as_str(), instant_now(), fixed_now())
        .expect("create")
        .expect("path");

    let renamed = workflow.try_rename_in_edit("same", fixed_now()).expect("rename").expect("path");
    assert_eq!(created, renamed);
}

#[test]
fn singleline_create_file_newf_test23_reset_startup_to_neutral_clears_current_edit_path() {
    let mut workflow = Workflow::new();
    workflow.machine.set_edit_from_open_file("C:/tmp/file.txt".to_string());
    workflow.machine.reset_startup_to_neutral();
    let snapshot = workflow.machine.snapshot();
    assert_eq!(snapshot.state, SinglelineFileState::Neutral);
    assert!(snapshot.current_edit_path.is_none());
}

#[test]
fn singleline_create_file_newf_test24_create_path_is_under_user_document_yyyy_mm_dd() {
    let root = new_temp_root("newf_test24");
    let mut disk = FakeDisk::new();
    let path = disk
        .create(&CreateFileRequest {
            user_document_dir: root.clone(),
            singleline_value: "abc".to_string(),
            now: fixed_now(),
        })
        .expect("create new file");

    let daily = daily_directory(root.as_str(), &fixed_now());
    assert!(std::path::Path::new(&path).starts_with(daily));
}

#[test]
fn singleline_create_file_newf_test25_collision_forces_singleline_buffer_stem_update() {
    let root = new_temp_root("newf_test25");
    let mut disk = FakeDisk::new();
    let now = fixed_now();
    let _first = disk
        .create(&CreateFileRequest {
            user_document_dir: root.clone(),
            singleline_value: "filename".to_string(),
            now,
        })
        .expect("create first file");
    let second = disk
        .create(&CreateFileRequest {
            user_document_dir: root.clone(),
            singleline_value: "filename".to_string(),
            now,
        })
        .expect("create second file");

    let forced = forced_singleline_stem_after_create(
        "filename",
        file_name_of(second.as_str()).as_deref(),
        &now,
    )
    .expect("forced stem");
    assert_eq!(forced, "filename_2");
}

#[test]
fn singleline_create_file_newf_test26_sanitization_forces_singleline_buffer_stem_update() {
    let root = new_temp_root("newf_test26");
    let mut disk = FakeDisk::new();
    let now = fixed_now();
    let created = disk
        .create(&CreateFileRequest {
            user_document_dir: root.clone(),
            singleline_value: "file:name".to_string(),
            now,
        })
        .expect("create sanitized file");

    let forced = forced_singleline_stem_after_create(
        "file:name",
        file_name_of(created.as_str()).as_deref(),
        &now,
    )
    .expect("forced stem");
    assert_eq!(forced, "file_name");
}

#[test]
fn aus_test1_autosave_event_writes_latest_editor_text() {
    let root = new_temp_root("aus_test1");
    let mut workflow = Workflow::new();
    let path = workflow
        .try_create_from_neutral("autosave", root.as_str(), instant_now(), fixed_now())
        .expect("create")
        .expect("created path");
    let payload = EditorAutoSavePayload {
        current_path: path.clone(),
        editor_text: "line-1\nline-2".to_string(),
    };

    let saved = workflow.try_autosave_in_edit(payload).expect("dispatch autosave");
    assert!(saved);
    let content = workflow.disk.read_to_string(path.as_str()).expect("read autosaved file");
    assert_eq!(content, "line-1\nline-2");
}

#[test]
fn aus_test2_autosave_is_noop_when_not_in_edit_state() {
    let root = new_temp_root("aus_test2");
    let mut workflow = Workflow::new();
    let path = format!("{root}/not_edit.txt");
    let payload =
        EditorAutoSavePayload { current_path: path.clone(), editor_text: "content".to_string() };

    let saved = workflow.try_autosave_in_edit(payload).expect("autosave in non-edit");
    assert!(!saved);
    assert!(!workflow.disk.has_entry(path.as_str()));
}

#[test]
fn aus_test6_atomic_autosave_failure_preserves_last_good_file() {
    let root = new_temp_root("aus_test6");
    let mut disk = FakeDisk::new();
    let path = format!("{root}/atomic.txt");
    disk.write(path.as_str(), "old");
    disk.replace_failure = Some(IoFailure::new(IoFailureKind::Other, "forced replace failure"));

    let error = disk
        .run_write(write_editor_text_atomic(path.as_str(), b"new".to_vec()))
        .expect_err("forced replace failure expected");
    assert!(error.to_string().contains("replace target"));

    let content = disk.read_to_string(path.as_str()).expect("read old content");
    assert_eq!(content, "old");
}

#[test]
fn win_test9_replace_failure_preserves_existing_valid_file() {
    let mut disk = FakeDisk::new();
    let path = "/tmp/gpui_papyru2_window_pos_win_test9/conf/window_position.toml";
    disk.run_write(write_atomic(path, b"monitor_uuid = \"old\"\n".to_vec())).expect("save old");
    disk.replace_failure =
        Some(IoFailure::new(IoFailureKind::PermissionDenied, "forced replace failure"));
    let result = disk.run_write(write_atomic(path, b"monitor_uuid = \"new\"\n".to_vec()));
    assert!(result.is_err());

    assert_eq!(disk.read_to_string(path).expect("load old state"), "monitor_uuid = \"old\"\n");
}

#[test]
fn win_test9_success_path_replaces_existing_content() {
    let mut disk = FakeDisk::new();
    let path = "/tmp/gpui_papyru2_window_pos_win_test9_success/conf/window_position.toml";
    disk.run_write(write_atomic(path, b"monitor_uuid = \"old\"\n".to_vec())).expect("save old");
    disk.run_write(write_atomic(path, b"monitor_uuid = \"new\"\n".to_vec())).expect("save new");

    assert_eq!(disk.read_to_string(path).expect("load new state"), "monitor_uuid = \"new\"\n");
    assert!(!disk.has_entry(format!("{path}.tmp").as_str()));
}

#[test]
fn win_test9_cleanup_failure_is_non_destructive() {
    let mut disk = FakeDisk::new();
    let path = "/tmp/gpui_papyru2_window_pos_win_test9_cleanup/conf/window_position.toml";
    disk.run_write(write_atomic(path, b"monitor_uuid = \"old\"\n".to_vec())).expect("save old");
    disk.replace_failure =
        Some(IoFailure::new(IoFailureKind::PermissionDenied, "forced replace failure"));
    disk.remove_failure = Some(IoFailure::new(IoFailureKind::Other, "is a directory"));
    let result = disk.run_write(write_atomic(path, b"monitor_uuid = \"new\"\n".to_vec()));
    assert!(result.is_err());
    let error_text = result.err().expect("error").to_string();
    assert!(error_text.contains("replace target"));
    assert!(error_text.contains("cleanup temp failed"));

    assert_eq!(disk.read_to_string(path).expect("load old state"), "monitor_uuid = \"old\"\n");
}

#[test]
fn create_makes_an_empty_file_in_the_directory_of_the_day() {
    let mut disk = FakeDisk::new();
    let created = disk
        .create(&CreateFileRequest {
            user_document_dir: "/D".to_string(),
            singleline_value: "hello".to_string(),
            now: fixed_now(),
        })
        .expect("create");
    assert_eq!(created, "/D/2026/02/28/hello.txt");
    assert_eq!(disk.read_to_string("/D/2026/02/28/hello.txt").as_deref(), Some(""));
    assert!(disk.dirs.contains("/D/2026/02/28"));
    assert_eq!(
        disk.log,
        vec![
            FsCommand::CreateDirAll { dir: "/D/2026/02/28".to_string() },
            FsCommand::ProbeCandidate { path: "/D/2026/02/28/hello.txt".to_string(), exclude: None },
            FsCommand::CreateNewFile { path: "/D/2026/02/28/hello.txt".to_string() },
        ]
    );
}

#[test]
fn three_creates_of_one_stem_number_upwards() {
    let mut disk = FakeDisk::new();
    let request = CreateFileRequest {
        user_document_dir: "/D".to_string(),
        singleline_value: "stem".to_string(),
        now: fixed_now(),
    };
    assert_eq!(disk.create(&request).expect("first"), "/D/2026/02/28/stem.txt");
    assert_eq!(disk.create(&request).expect("second"), "/D/2026/02/28/stem_2.txt");
    assert_eq!(disk.create(&request).expect("third"), "/D/2026/02/28/stem_3.txt");
    assert_eq!(disk.files_in("/D/2026/02/28"), 3);
}

#[test]
fn create_with_two_names_taken_gives_the_third() {
    let mut disk = FakeDisk::new();
    disk.write("/D/2026/02/28/hello.txt", "one");
    disk.write("/D/2026/02/28/hello_2.txt", "two");
    let created = disk
        .create(&CreateFileRequest {
            user_document_dir: "/D".to_string(),
            singleline_value: "hello".to_string(),
            now: fixed_now(),
        })
        .expect("create");
    assert_eq!(created, "/D/2026/02/28/hello_3.txt");
    assert_eq!(disk.read_to_string("/D/2026/02/28/hello.txt").as_deref(), Some("one"));
    assert_eq!(disk.read_to_string("/D/2026/02/28/hello_2.txt").as_deref(), Some("two"));
}

#[test]
fn create_of_an_empty_title_uses_the_notitle_stem() {
    let mut disk = FakeDisk::new();
    let created = disk
        .create(&CreateFileRequest {
            user_document_dir: "/D".to_string(),
            singleline_value: String::new(),
            now: fixed_now(),
        })
        .expect("create");
    assert_eq!(created, "/D/2026/02/28/notitle-20260228123456789.txt");
}

#[test]
fn create_keeps_multibyte_titles() {
    let mut disk = FakeDisk::new();
    let created = disk
        .create(&CreateFileRequest {
            user_document_dir: "/D".to_string(),
            singleline_value: "こんにちは".to_string(),
            now: fixed_now(),
        })
        .expect("create");
    assert_eq!(created, "/D/2026/02/28/こんにちは.txt");
}

#[test]
fn create_reports_a_failed_directory_and_a_lost_race() {
    let request = CreateFileRequest {
        user_document_dir: "/D".to_string(),
        singleline_value: "hello".to_string(),
        now: fixed_now(),
    };
    let denied = IoFailure::new(IoFailureKind::PermissionDenied, "read-only file system");
    let stopped = create_new_text_file(&request).advance(FsReply::Failed(denied.clone()));
    assert!(stopped.command().is_none());
    assert_eq!(stopped.result(), Some(Err(denied)));

    let raced = create_new_text_file(&request)
        .advance(FsReply::Done)
        .advance(FsReply::Candidate { excluded: false, exists: false })
        .advance(FsReply::Failed(IoFailure::new(IoFailureKind::AlreadyExists, "file exists")));
    assert!(raced.command().is_none());
    assert_eq!(
        raced.result(),
        Some(Err(IoFailure::new(IoFailureKind::AlreadyExists, "file exists")))
    );
}

#[test]
fn a_reply_that_does_not_answer_ends_the_operation() {
    let request = CreateFileRequest {
        user_document_dir: "/D".to_string(),
        singleline_value: "hello".to_string(),
        now: fixed_now(),
    };
    let confused = create_new_text_file(&request).advance(FsReply::Flag(true));
    let failure = confused.result().expect("over").expect_err("failure");
    assert_eq!(failure.kind, IoFailureKind::InvalidInput);
    assert_eq!(failure.to_string(), "file system reply does not answer the command");
    let still = confused.advance(FsReply::Done);
    assert_eq!(
        still.result().expect("over").expect_err("failure").to_string(),
        "file system reply does not answer the command"
    );
}

#[test]
fn rename_of_a_missing_file_is_not_found() {
    let mut disk = FakeDisk::new();
    let failure = disk
        .rename(&RenameFileRequest {
            current_path: "/D/2026/02/28/gone.txt".to_string(),
            singleline_value: "next".to_string(),
            now: fixed_now(),
        })
        .expect_err("not found");
    assert_eq!(failure.kind, IoFailureKind::NotFound);
    assert_eq!(failure.to_string(), "current editing file does not exist");
    assert_eq!(
        disk.log,
        vec![FsCommand::ProbeIsFile { path: "/D/2026/02/28/gone.txt".to_string() }]
    );
}

#[test]
fn rename_without_a_parent_directory_is_an_invalid_input() {
    let request = RenameFileRequest {
        current_path: "/".to_string(),
        singleline_value: "next".to_string(),
        now: fixed_now(),
    };
    let over = rename_text_file(&request)
        .advance(FsReply::Flag(true))
        .advance(FsReply::Parts { parent: None, file_name: None });
    let failure = over.result().expect("over").expect_err("failure");
    assert_eq!(failure.kind, IoFailureKind::InvalidInput);
    assert_eq!(failure.to_string(), "current editing file path has no parent directory");
}

#[test]
fn rename_to_the_current_name_touches_nothing() {
    let mut disk = FakeDisk::new();
    disk.write("/D/2026/02/28/same.txt", "body");
    let renamed = disk
        .rename(&RenameFileRequest {
            current_path: "/D/2026/02/28/same.txt".to_string(),
            singleline_value: "same".to_string(),
            now: fixed_now(),
        })
        .expect("rename");
    assert_eq!(renamed, "/D/2026/02/28/same.txt");
    assert_eq!(disk.read_to_string("/D/2026/02/28/same.txt").as_deref(), Some("body"));
    assert!(disk.log.iter().all(|command| !matches!(command, FsCommand::Rename { .. })));
    assert_eq!(disk.files.len(), 1);
}

#[test]
fn rename_moves_the_file_and_skips_taken_names() {
    let mut disk = FakeDisk::new();
    disk.write("/D/2026/02/28/old.txt", "body");
    disk.write("/D/2026/02/28/new.txt", "other");
    disk.write("/D/2026/02/28/new_2.txt", "other");
    let renamed = disk
        .rename(&RenameFileRequest {
            current_path: "/D/2026/02/28/old.txt".to_string(),
            singleline_value: "new".to_string(),
            now: fixed_now(),
        })
        .expect("rename");
    assert_eq!(renamed, "/D/2026/02/28/new_3.txt");
    assert_eq!(disk.read_to_string("/D/2026/02/28/new_3.txt").as_deref(), Some("body"));
    assert!(!disk.has_entry("/D/2026/02/28/old.txt"));
    assert_eq!(disk.read_to_string("/D/2026/02/28/new.txt").as_deref(), Some("other"));
}

#[test]
fn rename_back_to_its_own_numbered_name_is_a_noop() {
    let mut disk = FakeDisk::new();
    disk.write("/D/2026/02/28/note.txt", "first");
    disk.write("/D/2026/02/28/note_2.txt", "second");
    let renamed = disk
        .rename(&RenameFileRequest {
            current_path: "/D/2026/02/28/note_2.txt".to_string(),
            singleline_value: "note".to_string(),
            now: fixed_now(),
        })
        .expect("rename");
    assert_eq!(renamed, "/D/2026/02/28/note_2.txt");
    assert_eq!(disk.read_to_string("/D/2026/02/28/note_2.txt").as_deref(), Some("second"));
}

#[test]
fn atomic_write_performs_its_steps_in_order() {
    let mut disk = FakeDisk::new();
    disk.run_write(write_editor_text_atomic("/D/notes/a.txt", b"text".to_vec())).expect("write");
    assert_eq!(
        disk.log,
        vec![
            FsCommand::SplitPath { path: "/D/notes/a.txt".to_string() },
            FsCommand::CreateDirAll { dir: "/D/notes".to_string() },
            FsCommand::ProbeIsFile { path: "/D/notes/a.txt.tmp".to_string() },
            FsCommand::WriteAndSync {
                path: "/D/notes/a.txt.tmp".to_string(),
                bytes: b"text".to_vec()
            },
            FsCommand::Replace {
                temp: "/D/notes/a.txt.tmp".to_string(),
                target: "/D/notes/a.txt".to_string()
            },
        ]
    );
    assert_eq!(disk.read_to_string("/D/notes/a.txt").as_deref(), Some("text"));
    assert!(!disk.has_entry("/D/notes/a.txt.tmp"));
}

#[test]
fn atomic_write_removes_a_stale_temporary_file_first() {
    let mut disk = FakeDisk::new();
    disk.write("/D/notes/a.txt", "old");
    disk.write("/D/notes/a.txt.tmp", "leftover");
    disk.run_write(write_editor_text_atomic("/D/notes/a.txt", b"new".to_vec())).expect("write");
    assert_eq!(disk.log[3], FsCommand::RemoveFile { path: "/D/notes/a.txt.tmp".to_string() });
    assert_eq!(disk.read_to_string("/D/notes/a.txt").as_deref(), Some("new"));
    assert!(!disk.has_entry("/D/notes/a.txt.tmp"));
}

#[test]
fn atomic_write_names_the_stage_that_failed() {
    let stages = [
        (WriteStage::Create, "create temp"),
        (WriteStage::Write, "write temp"),
        (WriteStage::Sync, "sync temp"),
    ];
    for (stage, name) in stages {
        let mut disk = FakeDisk::new();
        disk.write("/D/notes/a.txt", "old");
        disk.write_failure =
            Some((stage, IoFailure::new(IoFailureKind::PermissionDenied, "disk says no")));
        let failure = disk
            .run_write(write_editor_text_atomic("/D/notes/a.txt", b"new".to_vec()))
            .expect_err("failure");
        assert_eq!(failure.kind, IoFailureKind::PermissionDenied);
        assert_eq!(
            failure.to_string(),
            format!("editor autosave atomic write failed ({name}): disk says no")
        );
        assert_eq!(disk.read_to_string("/D/notes/a.txt").as_deref(), Some("old"));

        let mut disk = FakeDisk::new();
        disk.write_failure = Some((stage, IoFailure::new(IoFailureKind::Other, "disk says no")));
        let failure =
            disk.run_write(write_atomic("/D/conf/w.toml", b"new".to_vec())).expect_err("failure");
        assert_eq!(failure.kind, IoFailureKind::Other);
        assert_eq!(failure.to_string(), format!("atomic write stage failed ({name}): disk says no"));
    }
}

#[test]
fn failed_replace_reports_one_failure_and_cleans_up() {
    let mut disk = FakeDisk::new();
    disk.write("/D/notes/a.txt", "old");
    disk.replace_failure = Some(IoFailure::new(IoFailureKind::PermissionDenied, "locked"));
    let failure = disk
        .run_write(write_editor_text_atomic("/D/notes/a.txt", b"new".to_vec()))
        .expect_err("failure");
    assert_eq!(failure.kind, IoFailureKind::PermissionDenied);
    assert_eq!(
        failure.to_string(),
        "editor autosave atomic write failed (replace target): locked"
    );
    assert_eq!(disk.read_to_string("/D/notes/a.txt").as_deref(), Some("old"));
    assert!(!disk.has_entry("/D/notes/a.txt.tmp"));
    assert_eq!(
        disk.log.last(),
        Some(&FsCommand::RemoveFile { path: "/D/notes/a.txt.tmp".to_string() })
    );
}

#[test]
fn failed_replace_with_failed_cleanup_carries_both_messages() {
    let mut disk = FakeDisk::new();
    disk.write("/D/notes/a.txt", "old");
    disk.replace_failure = Some(IoFailure::new(IoFailureKind::PermissionDenied, "locked"));
    disk.remove_failure = Some(IoFailure::new(IoFailureKind::Other, "is a directory"));
    let failure = disk
        .run_write(write_editor_text_atomic("/D/notes/a.txt", b"new".to_vec()))
        .expect_err("failure");
    assert_eq!(failure.kind, IoFailureKind::PermissionDenied);
    assert_eq!(
        failure.to_string(),
        "editor autosave atomic write failed (replace target): locked; cleanup temp failed: is a directory"
    );
    assert_eq!(disk.read_to_string("/D/notes/a.txt").as_deref(), Some("old"));
}

#[test]
fn failed_replace_with_temporary_file_already_gone_reports_the_replace_only() {
    let mut disk = FakeDisk::new();
    disk.write("/D/conf/w.toml", "old");
    disk.replace_failure = Some(IoFailure::new(IoFailureKind::Other, "forced"));
    disk.vanish_temp_on_replace = true;
    let failure =
        disk.run_write(write_atomic("/D/conf/w.toml", b"new".to_vec())).expect_err("failure");
    assert_eq!(failure.to_string(), "atomic write stage failed (replace target): forced");
    assert_eq!(disk.read_to_string("/D/conf/w.toml").as_deref(), Some("old"));
}

#[test]
fn atomic_write_rejects_paths_without_parent_or_file_name() {
    let no_parent = write_editor_text_atomic("/", Vec::new())
        .advance(FsReply::Parts { parent: None, file_name: None });
    let failure = no_parent.result().expect("over").expect_err("failure");
    assert_eq!(failure.kind, IoFailureKind::InvalidInput);
    assert_eq!(failure.to_string(), "editor autosave path has no parent directory");

    let no_name = write_editor_text_atomic("/D/..", Vec::new())
        .advance(FsReply::Parts { parent: Some("/D".to_string()), file_name: None });
    assert_eq!(no_name.command(), Some(FsCommand::CreateDirAll { dir: "/D".to_string() }));
    let failure = no_name.advance(FsReply::Done).result().expect("over").expect_err("failure");
    assert_eq!(failure.kind, IoFailureKind::InvalidInput);
    assert_eq!(failure.to_string(), "editor autosave path has no file name");

    let window = write_atomic("/", Vec::new())
        .advance(FsReply::Parts { parent: None, file_name: None });
    assert_eq!(
        window.result().expect("over").expect_err("failure").to_string(),
        "window position path has no parent directory"
    );
    let window = write_atomic("/D/..", Vec::new())
        .advance(FsReply::Parts { parent: Some("/D".to_string()), file_name: None })
        .advance(FsReply::Done);
    assert_eq!(
        window.result().expect("over").expect_err("failure").to_string(),
        "window position path has no file name"
    );
}

#[test]
fn autosave_writes_multibyte_text_as_utf8() {
    let mut workflow = Workflow::new();
    workflow.machine.set_edit_from_open_file("/D/notes/日記.txt".to_string());
    let saved = workflow
        .try_autosave_in_edit(EditorAutoSavePayload {
            current_path: "/D/notes/日記.txt".to_string(),
            editor_text: "こんにちは\n世界".to_string(),
        })
        .expect("autosave");
    assert!(saved);
    assert_eq!(
        workflow.disk.files.get("/D/notes/日記.txt").expect("file"),
        &"こんにちは\n世界".as_bytes().to_vec()
    );
}

#[test]
fn autosave_for_another_file_is_dropped() {
    let mut workflow = Workflow::new();
    workflow.machine.set_edit_from_open_file("/D/notes/a.txt".to_string());
    let saved = workflow
        .try_autosave_in_edit(EditorAutoSavePayload {
            current_path: "/D/notes/b.txt".to_string(),
            editor_text: "stale".to_string(),
        })
        .expect("autosave");
    assert!(!saved);
    assert!(workflow.disk.log.is_empty());
    assert_eq!(workflow.state(), SinglelineFileState::Edit);
    assert_eq!(workflow.current_edit_path().as_deref(), Some("/D/notes/a.txt"));
}

#[test]
fn autosave_reports_a_failed_write_and_leaves_the_workflow_alone() {
    let mut workflow = Workflow::new();
    workflow.machine.set_edit_from_open_file("/D/notes/a.txt".to_string());
    workflow.disk.write("/D/notes/a.txt", "old");
    workflow.disk.replace_failure = Some(IoFailure::new(IoFailureKind::Other, "forced"));
    let failure = workflow
        .try_autosave_in_edit(EditorAutoSavePayload {
            current_path: "/D/notes/a.txt".to_string(),
            editor_text: "new".to_string(),
        })
        .expect_err("failure");
    assert!(failure.to_string().contains("replace target"));
    assert_eq!(workflow.disk.read_to_string("/D/notes/a.txt").as_deref(), Some("old"));
    assert_eq!(workflow.state(), SinglelineFileState::Edit);
}

#[test]
fn process_event_answers_with_the_kind_of_the_event() {
    let mut disk = FakeDisk::new();
    let created = disk
        .dispatch(FileWorkflowEvent::Create(CreateFileRequest {
            user_document_dir: "/D".to_string(),
            singleline_value: "a".to_string(),
            now: fixed_now(),
        }))
        .expect("create");
    assert_eq!(
        created,
        FileWorkflowEventResult::Created { path: "/D/2026/02/28/a.txt".to_string() }
    );
    let renamed = disk
        .dispatch(FileWorkflowEvent::Rename(RenameFileRequest {
            current_path: "/D/2026/02/28/a.txt".to_string(),
            singleline_value: "b".to_string(),
            now: fixed_now(),
        }))
        .expect("rename");
    assert_eq!(
        renamed,
        FileWorkflowEventResult::Renamed { path: "/D/2026/02/28/b.txt".to_string() }
    );
    let saved = disk
        .dispatch(FileWorkflowEvent::AutoSave(papyru2::autosave::AutoSaveFileRequest {
            payload: EditorAutoSavePayload {
                current_path: "/D/2026/02/28/b.txt".to_string(),
                editor_text: "text".to_string(),
            },
        }))
        .expect("autosave");
    assert_eq!(
        saved,
        FileWorkflowEventResult::AutoSaved { path: "/D/2026/02/28/b.txt".to_string() }
    );
    assert!(matches!(process_event(FileWorkflowEvent::Create(CreateFileRequest {
        user_document_dir: "/D".to_string(),
        singleline_value: "a".to_string(),
        now: fixed_now(),
    })), FileOperation::Create(_)));
}

#[test]
fn one_round_of_the_search_takes_tries_on_or_gives_up() {
    assert_eq!(
        resolve_unique_txt_path("/d", "s", 1, false, false),
        Resolution::Found { path: "/d/s.txt".to_string() }
    );
    assert_eq!(
        resolve_unique_txt_path("/d", "s", 2, true, true),
        Resolution::Found { path: "/d/s_2.txt".to_string() }
    );
    assert_eq!(resolve_unique_txt_path("/d", "s", 1, false, true), Resolution::Next { suffix: 2 });
    assert_eq!(
        resolve_unique_txt_path("/d", "s", 41, false, true),
        Resolution::Next { suffix: 42 }
    );
    assert_eq!(resolve_unique_txt_path("/d", "s", u64::MAX, false, true), Resolution::Exhausted);
    assert_eq!(candidate_file_path("/d", "s", 7), "/d/s_7.txt");
}

#[test]
fn a_search_without_a_further_round_ends_the_operation() {
    let creation = CreateFile {
        dir: "/d".to_string(),
        stem: "s".to_string(),
        state: CreateState::Probe { suffix: u64::MAX },
    };
    let over = creation.advance(FsReply::Candidate { excluded: false, exists: true });
    let failure = over.result().expect("over").expect_err("failure");
    assert_eq!(failure.kind, IoFailureKind::AlreadyExists);
    assert_eq!(failure.to_string(), "no free file name is left");

    let renaming = RenameFile {
        current: "/d/old.txt".to_string(),
        stem: "s".to_string(),
        state: RenameState::Probe { dir: "/d".to_string(), suffix: u64::MAX },
    };
    let over = renaming.advance(FsReply::Candidate { excluded: false, exists: true });
    let failure = over.result().expect("over").expect_err("failure");
    assert_eq!(failure.kind, IoFailureKind::AlreadyExists);
    assert_eq!(failure.to_string(), "no free file name is left");
}
