//! Creating and renaming notes, and the operation that stands behind each
//! event of the workflow.
//!
//! Like the atomic write, these operations only name file system commands;
//! the worker performs them one by one and reports back.

use crate::atomic_write::{write_editor_text_atomic, AtomicWrite, AtomicWriteView, WriteFlavor};
use crate::events::{
    outcome_view, CreateFileRequest, DispatchOutcome, EventView, FileWorkflowEvent,
    FileWorkflowEventResult, RenameFileRequest, ResultView,
};
use crate::failure::{IoFailure, IoFailureKind, IoFailureView};
use crate::fs_protocol::{
    command_of, unexpected_reply, unexpected_reply_failure, CommandView, FsCommand, FsReply,
    ReplyView,
};
use crate::naming::{
    candidate_file_name, candidate_name, daily_directory, lemma_candidate_names_differ,
    stem_from_singleline_value, stem_text,
};
use crate::paths::{is_rooted, join, joined, lemma_joined_separates_names};
use crate::timestamp::date_path;
use vstd::prelude::*;
use vstd::string::*;

verus! {

/// The path that is tried in round `suffix` for `stem` in `dir`.
pub open spec fn candidate_path(dir: Seq<char>, stem: Seq<char>, suffix: nat) -> Seq<char> {
    joined(dir, candidate_name(stem, suffix))
}

/// What one round of the search for a free name decides.
#[derive(Debug, Clone, PartialEq, Eq)]
pub enum Resolution {
    /// The candidate of this round is taken as the path.
    Found { path: String },
    /// The candidate is occupied; the round with this number is next.
    Next { suffix: u64 },
    /// The candidate is occupied and there is no further round.
    Exhausted,
}

/// A [`Resolution`] with its path as a sequence of characters.
pub enum ResolutionView {
    Found { path: Seq<char> },
    Next { suffix: u64 },
    Exhausted,
}

impl View for Resolution {
    type V = ResolutionView;

    open spec fn view(&self) -> ResolutionView {
        match self {
            Resolution::Found { path } => ResolutionView::Found { path: path@ },
            Resolution::Next { suffix } => ResolutionView::Next { suffix: *suffix },
            Resolution::Exhausted => ResolutionView::Exhausted,
        }
    }
}

/// One round of the search: a candidate is taken when it is the excluded
/// path itself or when nothing exists there; else the next round follows.
pub open spec fn resolved(
    dir: Seq<char>,
    stem: Seq<char>,
    suffix: u64,
    excluded: bool,
    exists: bool,
) -> ResolutionView {
    if excluded || !exists {
        ResolutionView::Found { path: candidate_path(dir, stem, suffix as nat) }
    } else if suffix < u64::MAX {
        ResolutionView::Next { suffix: (suffix + 1) as u64 }
    } else {
        ResolutionView::Exhausted
    }
}

/// The message of the failure that ends a search without a further round.
pub open spec fn exhausted_message() -> Seq<char> {
    "no free file name is left"@
}

/// The failure that ends a search without a further round.
pub open spec fn exhausted_failure() -> IoFailureView {
    IoFailureView { kind: IoFailureKind::AlreadyExists, message: exhausted_message() }
}

/// The message of a rename whose source is not a regular file.
pub open spec fn source_missing_message() -> Seq<char> {
    "current editing file does not exist"@
}

/// The message of a rename whose source has no parent directory.
pub open spec fn source_without_parent_message() -> Seq<char> {
    "current editing file path has no parent directory"@
}

/// The path of the candidate of round `suffix`.
pub fn candidate_file_path(dir: &str, stem: &str, suffix: u64) -> (path: String)
    ensures
        path@ == candidate_path(dir@, stem@, suffix as nat),
{
    join(dir, candidate_file_name(stem, suffix).as_str())
}

/// One round of the search for a free `.txt` path for `stem` in `dir`:
/// `excluded` tells that the candidate of round `suffix` is the path that
/// the search must treat as free, `exists` that something exists there.
pub fn resolve_unique_txt_path(dir: &str, stem: &str, suffix: u64, excluded: bool, exists: bool) -> (resolution:
    Resolution)
    ensures
        resolution@ == resolved(dir@, stem@, suffix, excluded, exists),
{
    if excluded || !exists {
        Resolution::Found { path: candidate_file_path(dir, stem, suffix) }
    } else if suffix < u64::MAX {
        Resolution::Next { suffix: suffix + 1 }
    } else {
        Resolution::Exhausted
    }
}

fn exhausted() -> (failure: IoFailure)
    ensures
        failure@ == exhausted_failure(),
{
    IoFailure::new(IoFailureKind::AlreadyExists, "no free file name is left")
}

/// A path or a failure, as a view.
pub open spec fn path_outcome_view(outcome: Result<String, IoFailure>) -> Result<
    Seq<char>,
    IoFailureView,
> {
    match outcome {
        Ok(path) => Ok(path@),
        Err(failure) => Err(failure@),
    }
}

/// An optional path or failure, as a view.
pub open spec fn path_outcome_of(outcome: Option<Result<String, IoFailure>>) -> Option<
    Result<Seq<char>, IoFailureView>,
> {
    match outcome {
        None => None,
        Some(o) => Some(path_outcome_view(o)),
    }
}

fn copy_path_outcome(outcome: &Result<String, IoFailure>) -> (copy: Result<String, IoFailure>)
    ensures
        path_outcome_view(copy) == path_outcome_view(*outcome),
{
    match outcome {
        Ok(path) => Ok(path.clone()),
        Err(failure) => Err(failure.duplicate()),
    }
}

/// Where the creation of a note stands, as a view.
pub enum CreateStateView {
    /// The directory of the day is being created.
    EnsureDir,
    /// The candidate of round `suffix` is being probed.
    Probe { suffix: u64 },
    /// The file is being created at `path`.
    Create { path: Seq<char> },
    /// The creation is over.
    Finished(Result<Seq<char>, IoFailureView>),
}

/// The creation of a note, as a view.
pub struct CreateFileView {
    pub dir: Seq<char>,
    pub stem: Seq<char>,
    pub state: CreateStateView,
}

impl CreateFileView {
    /// The creation that `request` asks for, before its first command: in
    /// the directory of the day of the request, under the stem of its title.
    pub open spec fn started(request: EventView) -> CreateFileView
        recommends
            request is Create,
    {
        CreateFileView {
            dir: joined(request->Create_user_document_dir, date_path(request->Create_now)),
            stem: stem_text(request->Create_singleline_value, request->Create_now),
            state: CreateStateView::EnsureDir,
        }
    }

    /// The creation over, with `result`.
    pub open spec fn finished(self, result: Result<Seq<char>, IoFailureView>) -> CreateFileView {
        CreateFileView { state: CreateStateView::Finished(result), ..self }
    }

    /// The creation in another state.
    pub open spec fn in_state(self, state: CreateStateView) -> CreateFileView {
        CreateFileView { state, ..self }
    }

    /// How the creation ended, once it is over.
    pub open spec fn result(self) -> Option<Result<Seq<char>, IoFailureView>> {
        match self.state {
            CreateStateView::Finished(result) => Some(result),
            _ => None,
        }
    }

    /// The command to perform next; none once the creation is over.
    pub open spec fn command(self) -> Option<CommandView> {
        match self.state {
            CreateStateView::EnsureDir => Some(CommandView::CreateDirAll { dir: self.dir }),
            CreateStateView::Probe { suffix } => Some(
                CommandView::ProbeCandidate {
                    path: candidate_path(self.dir, self.stem, suffix as nat),
                    exclude: None,
                },
            ),
            CreateStateView::Create { path } => Some(CommandView::CreateNewFile { path }),
            CreateStateView::Finished(result) => None,
        }
    }

    /// The creation after `reply` to its command.
    ///
    /// - Once the directory is there, the candidates are probed from round 1.
    /// - The first candidate at which nothing exists is created, and the
    ///   creation fails if something appeared there in the meantime.
    /// - A failure ends the creation as it is; a reply that does not answer
    ///   the command ends it as an invalid input.
    pub open spec fn advanced(self, reply: ReplyView) -> CreateFileView {
        match self.state {
            CreateStateView::EnsureDir => match reply {
                ReplyView::Done => self.in_state(CreateStateView::Probe { suffix: 1 }),
                ReplyView::Failed(failure) => self.finished(Err(failure)),
                _ => self.finished(Err(unexpected_reply_failure())),
            },
            CreateStateView::Probe { suffix } => match reply {
                ReplyView::Candidate { excluded, exists } => match resolved(
                    self.dir,
                    self.stem,
                    suffix,
                    excluded,
                    exists,
                ) {
                    ResolutionView::Found { path } => self.in_state(
                        CreateStateView::Create { path },
                    ),
                    ResolutionView::Next { suffix: next } => self.in_state(
                        CreateStateView::Probe { suffix: next },
                    ),
                    ResolutionView::Exhausted => self.finished(Err(exhausted_failure())),
                },
                _ => self.finished(Err(unexpected_reply_failure())),
            },
            CreateStateView::Create { path } => match reply {
                ReplyView::Done => self.finished(Ok(path)),
                ReplyView::Failed(failure) => self.finished(Err(failure)),
                _ => self.finished(Err(unexpected_reply_failure())),
            },
            CreateStateView::Finished(result) => self,
        }
    }

    /// The creation after `taken` probes in a row found their candidate
    /// occupied.
    pub open spec fn after_occupied(self, taken: nat) -> CreateFileView
        decreases taken,
    {
        if taken == 0 {
            self
        } else {
            self.after_occupied((taken - 1) as nat).advanced(
                ReplyView::Candidate { excluded: false, exists: true },
            )
        }
    }
}

/// Where the creation of a note stands.
#[derive(Debug)]
pub enum CreateState {
    EnsureDir,
    Probe { suffix: u64 },
    Create { path: String },
    Finished(Result<String, IoFailure>),
}

impl View for CreateState {
    type V = CreateStateView;

    open spec fn view(&self) -> CreateStateView {
        match self {
            CreateState::EnsureDir => CreateStateView::EnsureDir,
            CreateState::Probe { suffix } => CreateStateView::Probe { suffix: *suffix },
            CreateState::Create { path } => CreateStateView::Create { path: path@ },
            CreateState::Finished(result) => CreateStateView::Finished(path_outcome_view(*result)),
        }
    }
}

/// The creation of a note, as a sequence of file system commands.
#[derive(Debug)]
pub struct CreateFile {
    pub dir: String,
    pub stem: String,
    pub state: CreateState,
}

impl View for CreateFile {
    type V = CreateFileView;

    open spec fn view(&self) -> CreateFileView {
        CreateFileView { dir: self.dir@, stem: self.stem@, state: self.state@ }
    }
}

impl CreateFile {
    /// The command to perform next; none once the creation is over.
    pub fn command(&self) -> (command: Option<FsCommand>)
        ensures
            command_of(command) == self@.command(),
    {
        match &self.state {
            CreateState::EnsureDir => Some(FsCommand::CreateDirAll { dir: self.dir.clone() }),
            CreateState::Probe { suffix } => Some(
                FsCommand::ProbeCandidate {
                    path: candidate_file_path(self.dir.as_str(), self.stem.as_str(), *suffix),
                    exclude: None,
                },
            ),
            CreateState::Create { path } => Some(FsCommand::CreateNewFile { path: path.clone() }),
            CreateState::Finished(result) => None,
        }
    }

    /// The created path or the failure; nothing while the creation is not over.
    pub fn result(&self) -> (result: Option<Result<String, IoFailure>>)
        ensures
            path_outcome_of(result) == self@.result(),
    {
        match &self.state {
            CreateState::Finished(result) => Some(copy_path_outcome(result)),
            _ => None,
        }
    }

    /// Takes the reply to the last command: see [`CreateFileView::advanced`].
    pub fn advance(self, reply: FsReply) -> (next: CreateFile)
        ensures
            next@ == self@.advanced(reply@),
    {
        let CreateFile { dir, stem, state } = self;
        let next_state = match state {
            CreateState::EnsureDir => match reply {
                FsReply::Done => CreateState::Probe { suffix: 1 },
                FsReply::Failed(failure) => CreateState::Finished(Err(failure)),
                _ => CreateState::Finished(Err(unexpected_reply())),
            },
            CreateState::Probe { suffix } => match reply {
                FsReply::Candidate { excluded, exists } => match resolve_unique_txt_path(
                    dir.as_str(),
                    stem.as_str(),
                    suffix,
                    excluded,
                    exists,
                ) {
                    Resolution::Found { path } => CreateState::Create { path },
                    Resolution::Next { suffix: next } => CreateState::Probe { suffix: next },
                    Resolution::Exhausted => CreateState::Finished(Err(exhausted())),
                },
                _ => CreateState::Finished(Err(unexpected_reply())),
            },
            CreateState::Create { path } => match reply {
                FsReply::Done => CreateState::Finished(Ok(path)),
                FsReply::Failed(failure) => CreateState::Finished(Err(failure)),
                _ => CreateState::Finished(Err(unexpected_reply())),
            },
            CreateState::Finished(result) => CreateState::Finished(result),
        };
        CreateFile { dir, stem, state: next_state }
    }
}

/// The creation of the note that `request` asks for: an empty file in the
/// directory of the day, under the first free name for the title.
pub fn create_new_text_file(request: &CreateFileRequest) -> (creation: CreateFile)
    ensures
        creation@ == CreateFileView::started(
            EventView::Create {
                user_document_dir: request.user_document_dir@,
                singleline_value: request.singleline_value@,
                now: request.now@,
            },
        ),
{
    CreateFile {
        dir: daily_directory(request.user_document_dir.as_str(), &request.now),
        stem: stem_from_singleline_value(request.singleline_value.as_str(), &request.now),
        state: CreateState::EnsureDir,
    }
}

/// Where the renaming of a note stands, as a view.
pub enum RenameStateView {
    /// The source is being checked to be a regular file.
    CheckSource,
    /// The parent directory of the source is being asked for.
    Split,
    /// The candidate of round `suffix` in `dir` is being probed.
    Probe { dir: Seq<char>, suffix: u64 },
    /// The source is being moved to `target`.
    Move { target: Seq<char> },
    /// The renaming is over.
    Finished(Result<Seq<char>, IoFailureView>),
}

/// The renaming of a note, as a view.
pub struct RenameFileView {
    pub current: Seq<char>,
    pub stem: Seq<char>,
    pub state: RenameStateView,
}

impl RenameFileView {
    /// The renaming that `request` asks for, before its first command.
    pub open spec fn started(request: EventView) -> RenameFileView
        recommends
            request is Rename,
    {
        RenameFileView {
            current: request->Rename_current_path,
            stem: stem_text(request->Rename_singleline_value, request->Rename_now),
            state: RenameStateView::CheckSource,
        }
    }

    /// The renaming over, with `result`.
    pub open spec fn finished(self, result: Result<Seq<char>, IoFailureView>) -> RenameFileView {
        RenameFileView { state: RenameStateView::Finished(result), ..self }
    }

    /// The renaming in another state.
    pub open spec fn in_state(self, state: RenameStateView) -> RenameFileView {
        RenameFileView { state, ..self }
    }

    /// How the renaming ended, once it is over.
    pub open spec fn result(self) -> Option<Result<Seq<char>, IoFailureView>> {
        match self.state {
            RenameStateView::Finished(result) => Some(result),
            _ => None,
        }
    }

    /// The command to perform next; none once the renaming is over.
    pub open spec fn command(self) -> Option<CommandView> {
        match self.state {
            RenameStateView::CheckSource => Some(CommandView::ProbeIsFile { path: self.current }),
            RenameStateView::Split => Some(CommandView::SplitPath { path: self.current }),
            RenameStateView::Probe { dir, suffix } => Some(
                CommandView::ProbeCandidate {
                    path: candidate_path(dir, self.stem, suffix as nat),
                    exclude: Some(self.current),
                },
            ),
            RenameStateView::Move { target } => Some(
                CommandView::Rename { from: self.current, to: target },
            ),
            RenameStateView::Finished(result) => None,
        }
    }

    /// The renaming after `reply` to its command.
    ///
    /// - A source that is not a regular file is not found; one without a
    ///   parent directory is an invalid input.
    /// - The candidates are probed from round 1 in the directory of the
    ///   source, which itself counts as free.
    /// - When the candidate that is taken is the source itself, nothing is
    ///   moved and the renaming ends with the path of the source.
    /// - Else the source is moved to the candidate.
    /// - A failure ends the renaming as it is; a reply that does not answer
    ///   the command ends it as an invalid input.
    pub open spec fn advanced(self, reply: ReplyView) -> RenameFileView {
        match self.state {
            RenameStateView::CheckSource => match reply {
                ReplyView::Flag(true) => self.in_state(RenameStateView::Split),
                ReplyView::Flag(false) => self.finished(
                    Err(
                        IoFailureView {
                            kind: IoFailureKind::NotFound,
                            message: source_missing_message(),
                        },
                    ),
                ),
                _ => self.finished(Err(unexpected_reply_failure())),
            },
            RenameStateView::Split => match reply {
                ReplyView::Parts { parent: Some(dir), file_name } => self.in_state(
                    RenameStateView::Probe { dir, suffix: 1 },
                ),
                ReplyView::Parts { parent: None, file_name } => self.finished(
                    Err(
                        IoFailureView {
                            kind: IoFailureKind::InvalidInput,
                            message: source_without_parent_message(),
                        },
                    ),
                ),
                _ => self.finished(Err(unexpected_reply_failure())),
            },
            RenameStateView::Probe { dir, suffix } => match reply {
                ReplyView::Candidate { excluded, exists } => if excluded {
                    self.finished(Ok(self.current))
                } else {
                    match resolved(dir, self.stem, suffix, excluded, exists) {
                        ResolutionView::Found { path } => self.in_state(
                            RenameStateView::Move { target: path },
                        ),
                        ResolutionView::Next { suffix: next } => self.in_state(
                            RenameStateView::Probe { dir, suffix: next },
                        ),
                        ResolutionView::Exhausted => self.finished(Err(exhausted_failure())),
                    }
                },
                _ => self.finished(Err(unexpected_reply_failure())),
            },
            RenameStateView::Move { target } => match reply {
                ReplyView::Done => self.finished(Ok(target)),
                ReplyView::Failed(failure) => self.finished(Err(failure)),
                _ => self.finished(Err(unexpected_reply_failure())),
            },
            RenameStateView::Finished(result) => self,
        }
    }
}

/// Where the renaming of a note stands.
#[derive(Debug)]
pub enum RenameState {
    CheckSource,
    Split,
    Probe { dir: String, suffix: u64 },
    Move { target: String },
    Finished(Result<String, IoFailure>),
}

impl View for RenameState {
    type V = RenameStateView;

    open spec fn view(&self) -> RenameStateView {
        match self {
            RenameState::CheckSource => RenameStateView::CheckSource,
            RenameState::Split => RenameStateView::Split,
            RenameState::Probe { dir, suffix } => RenameStateView::Probe {
                dir: dir@,
                suffix: *suffix,
            },
            RenameState::Move { target } => RenameStateView::Move { target: target@ },
            RenameState::Finished(result) => RenameStateView::Finished(path_outcome_view(*result)),
        }
    }
}

/// The renaming of a note, as a sequence of file system commands.
#[derive(Debug)]
pub struct RenameFile {
    pub current: String,
    pub stem: String,
    pub state: RenameState,
}

impl View for RenameFile {
    type V = RenameFileView;

    open spec fn view(&self) -> RenameFileView {
        RenameFileView { current: self.current@, stem: self.stem@, state: self.state@ }
    }
}

impl RenameFile {
    /// The command to perform next; none once the renaming is over.
    pub fn command(&self) -> (command: Option<FsCommand>)
        ensures
            command_of(command) == self@.command(),
    {
        match &self.state {
            RenameState::CheckSource => Some(FsCommand::ProbeIsFile { path: self.current.clone() }),
            RenameState::Split => Some(FsCommand::SplitPath { path: self.current.clone() }),
            RenameState::Probe { dir, suffix } => Some(
                FsCommand::ProbeCandidate {
                    path: candidate_file_path(dir.as_str(), self.stem.as_str(), *suffix),
                    exclude: Some(self.current.clone()),
                },
            ),
            RenameState::Move { target } => Some(
                FsCommand::Rename { from: self.current.clone(), to: target.clone() },
            ),
            RenameState::Finished(result) => None,
        }
    }

    /// The path of the note or the failure; nothing while the renaming is
    /// not over.
    pub fn result(&self) -> (result: Option<Result<String, IoFailure>>)
        ensures
            path_outcome_of(result) == self@.result(),
    {
        match &self.state {
            RenameState::Finished(result) => Some(copy_path_outcome(result)),
            _ => None,
        }
    }

    /// Takes the reply to the last command: see [`RenameFileView::advanced`].
    pub fn advance(self, reply: FsReply) -> (next: RenameFile)
        ensures
            next@ == self@.advanced(reply@),
    {
        let RenameFile { current, stem, state } = self;
        let next_state = match state {
            RenameState::CheckSource => match reply {
                FsReply::Flag(true) => RenameState::Split,
                FsReply::Flag(false) => RenameState::Finished(
                    Err(
                        IoFailure::new(
                            IoFailureKind::NotFound,
                            "current editing file does not exist",
                        ),
                    ),
                ),
                _ => RenameState::Finished(Err(unexpected_reply())),
            },
            RenameState::Split => match reply {
                FsReply::Parts { parent: Some(dir), file_name } => RenameState::Probe {
                    dir,
                    suffix: 1,
                },
                FsReply::Parts { parent: None, file_name } => RenameState::Finished(
                    Err(
                        IoFailure::new(
                            IoFailureKind::InvalidInput,
                            "current editing file path has no parent directory",
                        ),
                    ),
                ),
                _ => RenameState::Finished(Err(unexpected_reply())),
            },
            RenameState::Probe { dir, suffix } => match reply {
                FsReply::Candidate { excluded, exists } => {
                    if excluded {
                        RenameState::Finished(Ok(current.clone()))
                    } else {
                        match resolve_unique_txt_path(
                            dir.as_str(),
                            stem.as_str(),
                            suffix,
                            excluded,
                            exists,
                        ) {
                            Resolution::Found { path } => RenameState::Move { target: path },
                            Resolution::Next { suffix: next } => RenameState::Probe {
                                dir,
                                suffix: next,
                            },
                            Resolution::Exhausted => RenameState::Finished(Err(exhausted())),
                        }
                    }
                },
                _ => RenameState::Finished(Err(unexpected_reply())),
            },
            RenameState::Move { target } => match reply {
                FsReply::Done => RenameState::Finished(Ok(target)),
                FsReply::Failed(failure) => RenameState::Finished(Err(failure)),
                _ => RenameState::Finished(Err(unexpected_reply())),
            },
            RenameState::Finished(result) => RenameState::Finished(result),
        };
        RenameFile { current, stem, state: next_state }
    }
}

/// The renaming that `request` asks for: the note gets the first free name
/// for the title in its own directory, or keeps its name if that is the one.
pub fn rename_text_file(request: &RenameFileRequest) -> (renaming: RenameFile)
    ensures
        renaming@ == RenameFileView::started(
            EventView::Rename {
                current_path: request.current_path@,
                singleline_value: request.singleline_value@,
                now: request.now@,
            },
        ),
{
    RenameFile {
        current: request.current_path.clone(),
        stem: stem_from_singleline_value(request.singleline_value.as_str(), &request.now),
        state: RenameState::CheckSource,
    }
}

/// The operation behind an event, as a view.
pub enum FileOperationView {
    Create(CreateFileView),
    Rename(RenameFileView),
    AutoSave(AtomicWriteView),
}

impl FileOperationView {
    /// The operation that `event` asks for, before its first command. An
    /// autosave writes the text of its payload, as UTF-8, to the path of
    /// its payload.
    pub open spec fn started(event: EventView) -> FileOperationView {
        match event {
            EventView::Create { user_document_dir, singleline_value, now } => {
                FileOperationView::Create(CreateFileView::started(event))
            },
            EventView::Rename { current_path, singleline_value, now } => FileOperationView::Rename(
                RenameFileView::started(event),
            ),
            EventView::AutoSave { payload } => FileOperationView::AutoSave(
                AtomicWriteView::started(
                    WriteFlavor::EditorAutosave,
                    payload.current_path,
                    vstd::utf8::encode_utf8(payload.editor_text),
                ),
            ),
        }
    }

    /// The command to perform next; none once the operation is over.
    pub open spec fn command(self) -> Option<CommandView> {
        match self {
            FileOperationView::Create(creation) => creation.command(),
            FileOperationView::Rename(renaming) => renaming.command(),
            FileOperationView::AutoSave(write) => write.command(),
        }
    }

    /// The operation after `reply` to its command.
    pub open spec fn advanced(self, reply: ReplyView) -> FileOperationView {
        match self {
            FileOperationView::Create(creation) => FileOperationView::Create(
                creation.advanced(reply),
            ),
            FileOperationView::Rename(renaming) => FileOperationView::Rename(
                renaming.advanced(reply),
            ),
            FileOperationView::AutoSave(write) => FileOperationView::AutoSave(
                write.advanced(reply),
            ),
        }
    }

    /// What is answered to the event, once the operation is over: the
    /// failure, or what was done and to which path.
    pub open spec fn outcome(self) -> Option<Result<ResultView, IoFailureView>> {
        match self {
            FileOperationView::Create(creation) => match creation.result() {
                None => None,
                Some(Ok(path)) => Some(Ok(ResultView::Created { path })),
                Some(Err(failure)) => Some(Err(failure)),
            },
            FileOperationView::Rename(renaming) => match renaming.result() {
                None => None,
                Some(Ok(path)) => Some(Ok(ResultView::Renamed { path })),
                Some(Err(failure)) => Some(Err(failure)),
            },
            FileOperationView::AutoSave(write) => match write.result() {
                None => None,
                Some(Ok(done)) => Some(Ok(ResultView::AutoSaved { path: write.target })),
                Some(Err(failure)) => Some(Err(failure)),
            },
        }
    }
}

/// The operation behind an event of the workflow.
#[derive(Debug)]
pub enum FileOperation {
    Create(CreateFile),
    Rename(RenameFile),
    AutoSave(AtomicWrite),
}

impl View for FileOperation {
    type V = FileOperationView;

    open spec fn view(&self) -> FileOperationView {
        match self {
            FileOperation::Create(creation) => FileOperationView::Create(creation@),
            FileOperation::Rename(renaming) => FileOperationView::Rename(renaming@),
            FileOperation::AutoSave(write) => FileOperationView::AutoSave(write@),
        }
    }
}

/// An optional outcome, as a view.
pub open spec fn outcome_of(outcome: Option<DispatchOutcome>) -> Option<
    Result<ResultView, IoFailureView>,
> {
    match outcome {
        None => None,
        Some(o) => Some(outcome_view(o)),
    }
}

impl FileOperation {
    /// The command to perform next; none once the operation is over.
    pub fn command(&self) -> (command: Option<FsCommand>)
        ensures
            command_of(command) == self@.command(),
    {
        match self {
            FileOperation::Create(creation) => creation.command(),
            FileOperation::Rename(renaming) => renaming.command(),
            FileOperation::AutoSave(write) => write.command(),
        }
    }

    /// Takes the reply to the last command.
    pub fn advance(self, reply: FsReply) -> (next: FileOperation)
        ensures
            next@ == self@.advanced(reply@),
    {
        match self {
            FileOperation::Create(creation) => FileOperation::Create(creation.advance(reply)),
            FileOperation::Rename(renaming) => FileOperation::Rename(renaming.advance(reply)),
            FileOperation::AutoSave(write) => FileOperation::AutoSave(write.advance(reply)),
        }
    }

    /// What is answered to the event; nothing while the operation is not over.
    pub fn outcome(&self) -> (outcome: Option<DispatchOutcome>)
        ensures
            outcome_of(outcome) == self@.outcome(),
    {
        match self {
            FileOperation::Create(creation) => match creation.result() {
                None => None,
                Some(Ok(path)) => Some(Ok(FileWorkflowEventResult::Created { path })),
                Some(Err(failure)) => Some(Err(failure)),
            },
            FileOperation::Rename(renaming) => match renaming.result() {
                None => None,
                Some(Ok(path)) => Some(Ok(FileWorkflowEventResult::Renamed { path })),
                Some(Err(failure)) => Some(Err(failure)),
            },
            FileOperation::AutoSave(write) => match write.result() {
                None => None,
                Some(Ok(done)) => Some(
                    Ok(FileWorkflowEventResult::AutoSaved { path: write.target.clone() }),
                ),
                Some(Err(failure)) => Some(Err(failure)),
            },
        }
    }
}

/// The operation that executes `event`.
pub fn process_event(event: FileWorkflowEvent) -> (operation: FileOperation)
    ensures
        operation@ == FileOperationView::started(event@),
{
    match event {
        FileWorkflowEvent::Create(request) => FileOperation::Create(create_new_text_file(&request)),
        FileWorkflowEvent::Rename(request) => FileOperation::Rename(rename_text_file(&request)),
        FileWorkflowEvent::AutoSave(request) => FileOperation::AutoSave(
            write_editor_text_atomic(
                request.payload.current_path.as_str(),
                request.payload.editor_text.as_str().as_bytes_vec(),
            ),
        ),
    }
}

/// Collisions number upwards: a creation that finds the candidates of the
/// first `taken` rounds occupied probes the candidate of round `taken + 1`
/// next; found free, that candidate is created, and the creation ends with
/// its path. So the first note of a stem is `stem.txt`, the second
/// `stem_2.txt`, the third `stem_3.txt`.
pub proof fn lemma_collisions_number_upwards(creation: CreateFileView, taken: nat)
    requires
        creation.state == (CreateStateView::Probe { suffix: 1 }),
        taken < u64::MAX,
    ensures
        ({
            let probing = creation.after_occupied(taken);
            let path = candidate_path(creation.dir, creation.stem, taken + 1);
            let creating = probing.advanced(ReplyView::Candidate { excluded: false, exists: false });
            &&& probing.state == (CreateStateView::Probe { suffix: (taken + 1) as u64 })
            &&& probing.command() == Some(CommandView::ProbeCandidate { path, exclude: None })
            &&& creating.command() == Some(CommandView::CreateNewFile { path })
            &&& creating.advanced(ReplyView::Done).result() == Some(
                Ok::<Seq<char>, IoFailureView>(path),
            )
            &&& probing.dir == creation.dir
            &&& probing.stem == creation.stem
        }),
    decreases taken,
{
    if taken > 0 {
        lemma_collisions_number_upwards(creation, (taken - 1) as nat);
    }
}

/// The names of the first three rounds.
pub proof fn lemma_first_candidate_names(stem: Seq<char>)
    ensures
        candidate_name(stem, 1) == stem + seq!['.', 't', 'x', 't'],
        candidate_name(stem, 2) == stem + seq!['_', '2', '.', 't', 'x', 't'],
        candidate_name(stem, 3) == stem + seq!['_', '3', '.', 't', 'x', 't'],
{
    reveal_with_fuel(crate::text::decimal, 2);
    assert(candidate_name(stem, 2) =~= stem + seq!['_', '2', '.', 't', 'x', 't']);
    assert(candidate_name(stem, 3) =~= stem + seq!['_', '3', '.', 't', 'x', 't']);
}

/// The candidates of different rounds are different paths, so that a name
/// found occupied is never tried again.
pub proof fn lemma_candidate_paths_differ(dir: Seq<char>, stem: Seq<char>, first: nat, second: nat)
    requires
        first >= 1,
        second >= 1,
        candidate_path(dir, stem, first) == candidate_path(dir, stem, second),
    ensures
        first == second,
{
    let a = candidate_name(stem, first);
    let b = candidate_name(stem, second);
    assert(a.len() > 0 && b.len() > 0);
    if stem.len() > 0 {
        assert(a[0] == stem[0]);
        assert(b[0] == stem[0]);
    } else {
        assert(a[0] == '.' || a[0] == '_');
        assert(b[0] == '.' || b[0] == '_');
    }
    assert(is_rooted(a) == is_rooted(b));
    lemma_joined_separates_names(dir, a, b);
    lemma_candidate_names_differ(stem, first, second);
}

/// Renaming a note to the name it has is a no-op: when the candidate that
/// is probed turns out to be the source itself, the renaming is over at
/// once, with the path of the source, whether or not the file exists; no
/// file is moved.
pub proof fn lemma_rename_to_current_name_is_noop(renaming: RenameFileView, exists: bool)
    requires
        renaming.state is Probe,
    ensures
        ({
            let over = renaming.advanced(ReplyView::Candidate { excluded: true, exists });
            &&& over.result() == Some(Ok::<Seq<char>, IoFailureView>(renaming.current))
            &&& over.command() is None
        }),
{
}

/// A renaming moves at most one file, and only its source: the one command
/// of a renaming that changes the file system is the move of the source to
/// a candidate that was probed and found free.
pub proof fn lemma_rename_moves_only_the_source(renaming: RenameFileView)
    ensures
        renaming.command() matches Some(command) ==> {
            ||| command is ProbeIsFile
            ||| command is SplitPath
            ||| command is ProbeCandidate
            ||| (command matches CommandView::Rename { from, to } && from == renaming.current)
        },
{
}

/// A rename of a note that is not there fails as not found before anything
/// else is asked of the file system.
pub proof fn lemma_rename_of_missing_source_fails(request: EventView)
    requires
        request is Rename,
    ensures
        ({
            let renaming = RenameFileView::started(request);
            let over = renaming.advanced(ReplyView::Flag(false));
            &&& renaming.command() == Some(
                CommandView::ProbeIsFile { path: request->Rename_current_path },
            )
            &&& over.result() matches Some(Err(failure))
            &&& failure.kind == IoFailureKind::NotFound
        }),
{
}

} // verus!
