//! Crash-safe replacement of a file's content: the bytes go to a temporary
//! file beside the target, are forced to the disk, and only then take the
//! target's place in one step. Until that step succeeds nothing changes or
//! removes the target.

use crate::failure::{IoFailure, IoFailureKind, IoFailureView};
use crate::fs_protocol::{
    command_of, unexpected_reply, unexpected_reply_failure, CommandView, FsCommand, FsReply,
    ReplyView, WriteStage,
};
use crate::naming::{text_of, text_of_str};
use crate::paths::{is_rooted, join, joined, lemma_joined_separates_names};
use vstd::prelude::*;
use vstd::string::*;

verus! {

/// Whose file is written; it decides the wording of the failures.
#[derive(Debug, Clone, Copy, PartialEq, Eq, Structural)]
pub enum WriteFlavor {
    /// The body text of a note.
    EditorAutosave,
    /// The remembered geometry of the window.
    WindowPosition,
}

/// The message for a target without a parent directory.
pub open spec fn no_parent_message(flavor: WriteFlavor) -> Seq<char> {
    match flavor {
        WriteFlavor::EditorAutosave => "editor autosave path has no parent directory"@,
        WriteFlavor::WindowPosition => "window position path has no parent directory"@,
    }
}

/// The message for a target without a file name.
pub open spec fn no_file_name_message(flavor: WriteFlavor) -> Seq<char> {
    match flavor {
        WriteFlavor::EditorAutosave => "editor autosave path has no file name"@,
        WriteFlavor::WindowPosition => "window position path has no file name"@,
    }
}

/// What every message about a failed stage begins with.
pub open spec fn stage_prefix(flavor: WriteFlavor) -> Seq<char> {
    match flavor {
        WriteFlavor::EditorAutosave => "editor autosave atomic write failed"@,
        WriteFlavor::WindowPosition => "atomic write stage failed"@,
    }
}

/// The name of a stage of writing the temporary file.
pub open spec fn stage_name(stage: WriteStage) -> Seq<char> {
    match stage {
        WriteStage::Create => "create temp"@,
        WriteStage::Write => "write temp"@,
        WriteStage::Sync => "sync temp"@,
    }
}

/// The name of the stage that puts the temporary file in the target's place.
pub open spec fn replace_stage_name() -> Seq<char> {
    "replace target"@
}

/// The message of a failure at a stage: prefix, stage in brackets, cause.
pub open spec fn staged_message(flavor: WriteFlavor, stage: Seq<char>, cause: Seq<char>) -> Seq<
    char,
> {
    stage_prefix(flavor) + " ("@ + stage + "): "@ + cause
}

/// The failure at a stage: of the kind of its cause, and with the stage in
/// front of the cause's message.
pub open spec fn staged_failure(flavor: WriteFlavor, stage: Seq<char>, cause: IoFailureView) -> IoFailureView {
    IoFailureView { kind: cause.kind, message: staged_message(flavor, stage, cause.message) }
}

/// The failure of a replace whose temporary file could not be removed either:
/// of the kind of the replace failure, and with both messages.
pub open spec fn cleanup_failure(replace: IoFailureView, cleanup: IoFailureView) -> IoFailureView {
    IoFailureView {
        kind: replace.kind,
        message: replace.message + "; cleanup temp failed: "@ + cleanup.message,
    }
}

/// The extension of the temporary file, with its dot.
pub open spec fn tmp_extension() -> Seq<char> {
    ".tmp"@
}

/// The path of the temporary file for a target with the given parent and
/// file name: beside the target, under the target's name with `.tmp` added.
pub open spec fn temp_path_text(parent: Seq<char>, file_name: Seq<char>) -> Seq<char> {
    joined(parent, file_name + tmp_extension())
}

/// The temporary path for a target, or the failure that a target without a
/// parent directory or without a file name gives.
pub open spec fn temp_path_or_failure(
    flavor: WriteFlavor,
    parent: Option<Seq<char>>,
    file_name: Option<Seq<char>>,
) -> Result<Seq<char>, IoFailureView> {
    match parent {
        None => Err(
            IoFailureView { kind: IoFailureKind::InvalidInput, message: no_parent_message(flavor) },
        ),
        Some(dir) => match file_name {
            None => Err(
                IoFailureView {
                    kind: IoFailureKind::InvalidInput,
                    message: no_file_name_message(flavor),
                },
            ),
            Some(name) => Ok(temp_path_text(dir, name)),
        },
    }
}

/// A path or a failure, as a view.
pub open spec fn path_result_view(result: Result<String, IoFailure>) -> Result<
    Seq<char>,
    IoFailureView,
> {
    match result {
        Ok(path) => Ok(path@),
        Err(failure) => Err(failure@),
    }
}

fn no_parent_failure(flavor: WriteFlavor) -> (failure: IoFailure)
    ensures
        failure@ == (IoFailureView {
            kind: IoFailureKind::InvalidInput,
            message: no_parent_message(flavor),
        }),
{
    match flavor {
        WriteFlavor::EditorAutosave => IoFailure::new(
            IoFailureKind::InvalidInput,
            "editor autosave path has no parent directory",
        ),
        WriteFlavor::WindowPosition => IoFailure::new(
            IoFailureKind::InvalidInput,
            "window position path has no parent directory",
        ),
    }
}

fn no_file_name_failure(flavor: WriteFlavor) -> (failure: IoFailure)
    ensures
        failure@ == (IoFailureView {
            kind: IoFailureKind::InvalidInput,
            message: no_file_name_message(flavor),
        }),
{
    match flavor {
        WriteFlavor::EditorAutosave => IoFailure::new(
            IoFailureKind::InvalidInput,
            "editor autosave path has no file name",
        ),
        WriteFlavor::WindowPosition => IoFailure::new(
            IoFailureKind::InvalidInput,
            "window position path has no file name",
        ),
    }
}

fn temp_path(parent: &str, file_name: &str) -> (temp: String)
    ensures
        temp@ == temp_path_text(parent@, file_name@),
{
    let mut name = file_name.to_owned();
    name.append(".tmp");
    join(parent, name.as_str())
}

fn temp_path_for(flavor: WriteFlavor, parent: Option<&str>, file_name: Option<&str>) -> (temp:
    Result<String, IoFailure>)
    ensures
        path_result_view(temp) == temp_path_or_failure(
            flavor,
            text_of_str(parent),
            text_of_str(file_name),
        ),
{
    match parent {
        None => Err(no_parent_failure(flavor)),
        Some(dir) => match file_name {
            None => Err(no_file_name_failure(flavor)),
            Some(name) => Ok(temp_path(dir, name)),
        },
    }
}

/// The path of the temporary file through which the body text of a note is
/// written, from the parent directory and the file name of the note's path.
/// A path that lacks either is an invalid input.
pub fn editor_temp_path_for_atomic_write(parent: Option<&str>, file_name: Option<&str>) -> (temp:
    Result<String, IoFailure>)
    ensures
        path_result_view(temp) == temp_path_or_failure(
            WriteFlavor::EditorAutosave,
            text_of_str(parent),
            text_of_str(file_name),
        ),
{
    temp_path_for(WriteFlavor::EditorAutosave, parent, file_name)
}

/// The path of the temporary file through which the window geometry is
/// written, from the parent directory and the file name of its path. A path
/// that lacks either is an invalid input.
pub fn temp_path_for_atomic_write(parent: Option<&str>, file_name: Option<&str>) -> (temp: Result<
    String,
    IoFailure,
>)
    ensures
        path_result_view(temp) == temp_path_or_failure(
            WriteFlavor::WindowPosition,
            text_of_str(parent),
            text_of_str(file_name),
        ),
{
    temp_path_for(WriteFlavor::WindowPosition, parent, file_name)
}

fn failure_at_stage(flavor: WriteFlavor, stage: &str, cause: &IoFailure) -> (failure: IoFailure)
    ensures
        failure@ == staged_failure(flavor, stage@, cause@),
{
    let mut message = match flavor {
        WriteFlavor::EditorAutosave => "editor autosave atomic write failed".to_owned(),
        WriteFlavor::WindowPosition => "atomic write stage failed".to_owned(),
    };
    message.append(" (");
    message.append(stage);
    message.append("): ");
    message.append(cause.message.as_str());
    proof {
        assert(message@ =~= staged_message(flavor, stage@, cause.message@));
    }
    IoFailure { kind: cause.kind, message }
}

fn failure_of_write_stage(flavor: WriteFlavor, stage: WriteStage, cause: &IoFailure) -> (failure:
    IoFailure)
    ensures
        failure@ == staged_failure(flavor, stage_name(stage), cause@),
{
    match stage {
        WriteStage::Create => failure_at_stage(flavor, "create temp", cause),
        WriteStage::Write => failure_at_stage(flavor, "write temp", cause),
        WriteStage::Sync => failure_at_stage(flavor, "sync temp", cause),
    }
}

fn failure_with_cleanup(replace: &IoFailure, cleanup: &IoFailure) -> (failure: IoFailure)
    ensures
        failure@ == cleanup_failure(replace@, cleanup@),
{
    let mut message = replace.message.clone();
    message.append("; cleanup temp failed: ");
    message.append(cleanup.message.as_str());
    IoFailure { kind: replace.kind, message }
}

/// Where an atomic write stands, as a view.
pub enum WriteStateView {
    /// The parts of the target path are being asked for.
    Split,
    /// The parent directory is being created.
    EnsureDir { parent: Seq<char>, file_name: Option<Seq<char>> },
    /// A leftover temporary file is being looked for.
    ProbeTemp { temp: Seq<char> },
    /// A leftover temporary file is being removed.
    RemoveStale { temp: Seq<char> },
    /// The temporary file is being written.
    Write { temp: Seq<char> },
    /// The temporary file is taking the target's place.
    Replace { temp: Seq<char> },
    /// The replace failed and the temporary file is being removed.
    Cleanup { temp: Seq<char>, failure: IoFailureView },
    /// The write is over.
    Finished(Result<(), IoFailureView>),
}

/// An atomic write, as a view.
pub struct AtomicWriteView {
    pub flavor: WriteFlavor,
    pub target: Seq<char>,
    pub bytes: Seq<u8>,
    pub state: WriteStateView,
}

impl AtomicWriteView {
    /// The write of `bytes` to `target`, before its first command.
    pub open spec fn started(flavor: WriteFlavor, target: Seq<char>, bytes: Seq<u8>) -> AtomicWriteView {
        AtomicWriteView { flavor, target, bytes, state: WriteStateView::Split }
    }

    /// The path of the temporary file, once it is known.
    pub open spec fn temp(self) -> Option<Seq<char>> {
        match self.state {
            WriteStateView::ProbeTemp { temp } => Some(temp),
            WriteStateView::RemoveStale { temp } => Some(temp),
            WriteStateView::Write { temp } => Some(temp),
            WriteStateView::Replace { temp } => Some(temp),
            WriteStateView::Cleanup { temp, failure } => Some(temp),
            _ => None,
        }
    }

    /// How the write ended, once it is over.
    pub open spec fn result(self) -> Option<Result<(), IoFailureView>> {
        match self.state {
            WriteStateView::Finished(result) => Some(result),
            _ => None,
        }
    }

    /// The command to perform next; none once the write is over.
    pub open spec fn command(self) -> Option<CommandView> {
        match self.state {
            WriteStateView::Split => Some(CommandView::SplitPath { path: self.target }),
            WriteStateView::EnsureDir { parent, file_name } => Some(
                CommandView::CreateDirAll { dir: parent },
            ),
            WriteStateView::ProbeTemp { temp } => Some(CommandView::ProbeIsFile { path: temp }),
            WriteStateView::RemoveStale { temp } => Some(CommandView::RemoveFile { path: temp }),
            WriteStateView::Write { temp } => Some(
                CommandView::WriteAndSync { path: temp, bytes: self.bytes },
            ),
            WriteStateView::Replace { temp } => Some(
                CommandView::Replace { temp, target: self.target },
            ),
            WriteStateView::Cleanup { temp, failure } => Some(
                CommandView::RemoveFile { path: temp },
            ),
            WriteStateView::Finished(result) => None,
        }
    }

    /// The write over, with `result`.
    pub open spec fn finished(self, result: Result<(), IoFailureView>) -> AtomicWriteView {
        AtomicWriteView { state: WriteStateView::Finished(result), ..self }
    }

    /// The write in another state.
    pub open spec fn in_state(self, state: WriteStateView) -> AtomicWriteView {
        AtomicWriteView { state, ..self }
    }

    /// The write after `reply` to its command.
    ///
    /// - A target without a parent directory ends the write at once; one
    ///   without a file name ends it after the parent directory was created.
    /// - A leftover temporary file is removed before the new one is written.
    /// - A failure to create the directory or to remove the leftover ends
    ///   the write as it is; a failure to write the temporary file ends it
    ///   under the name of the stage.
    /// - A failed replace is followed by the removal of the temporary file.
    ///   That the file is gone already counts as removed; another failure
    ///   to remove it is added to the message of the replace failure.
    /// - A reply that does not answer the command ends the write as an
    ///   invalid input. A finished write stays as it is.
    pub open spec fn advanced(self, reply: ReplyView) -> AtomicWriteView {
        match self.state {
            WriteStateView::Split => match reply {
                ReplyView::Parts { parent: None, file_name } => self.finished(
                    Err(
                        IoFailureView {
                            kind: IoFailureKind::InvalidInput,
                            message: no_parent_message(self.flavor),
                        },
                    ),
                ),
                ReplyView::Parts { parent: Some(dir), file_name } => self.in_state(
                    WriteStateView::EnsureDir { parent: dir, file_name },
                ),
                _ => self.finished(Err(unexpected_reply_failure())),
            },
            WriteStateView::EnsureDir { parent, file_name } => match reply {
                ReplyView::Done => match file_name {
                    None => self.finished(
                        Err(
                            IoFailureView {
                                kind: IoFailureKind::InvalidInput,
                                message: no_file_name_message(self.flavor),
                            },
                        ),
                    ),
                    Some(name) => self.in_state(
                        WriteStateView::ProbeTemp { temp: temp_path_text(parent, name) },
                    ),
                },
                ReplyView::Failed(failure) => self.finished(Err(failure)),
                _ => self.finished(Err(unexpected_reply_failure())),
            },
            WriteStateView::ProbeTemp { temp } => match reply {
                ReplyView::Flag(true) => self.in_state(WriteStateView::RemoveStale { temp }),
                ReplyView::Flag(false) => self.in_state(WriteStateView::Write { temp }),
                _ => self.finished(Err(unexpected_reply_failure())),
            },
            WriteStateView::RemoveStale { temp } => match reply {
                ReplyView::Done => self.in_state(WriteStateView::Write { temp }),
                ReplyView::Failed(failure) => self.finished(Err(failure)),
                _ => self.finished(Err(unexpected_reply_failure())),
            },
            WriteStateView::Write { temp } => match reply {
                ReplyView::Done => self.in_state(WriteStateView::Replace { temp }),
                ReplyView::WriteFailed(stage, failure) => self.finished(
                    Err(staged_failure(self.flavor, stage_name(stage), failure)),
                ),
                _ => self.finished(Err(unexpected_reply_failure())),
            },
            WriteStateView::Replace { temp } => match reply {
                ReplyView::Done => self.finished(Ok(())),
                ReplyView::Failed(failure) => self.in_state(
                    WriteStateView::Cleanup {
                        temp,
                        failure: staged_failure(self.flavor, replace_stage_name(), failure),
                    },
                ),
                _ => self.finished(Err(unexpected_reply_failure())),
            },
            WriteStateView::Cleanup { temp, failure } => match reply {
                ReplyView::Failed(cleanup) => if cleanup.kind == IoFailureKind::NotFound {
                    self.finished(Err(failure))
                } else {
                    self.finished(Err(cleanup_failure(failure, cleanup)))
                },
                _ => self.finished(Err(failure)),
            },
            WriteStateView::Finished(result) => self,
        }
    }
}

/// Where an atomic write stands.
#[derive(Debug)]
pub enum WriteState {
    Split,
    EnsureDir { parent: String, file_name: Option<String> },
    ProbeTemp { temp: String },
    RemoveStale { temp: String },
    Write { temp: String },
    Replace { temp: String },
    Cleanup { temp: String, failure: IoFailure },
    Finished(Result<(), IoFailure>),
}

/// The result of a write, as a view.
pub open spec fn write_result_view(result: Result<(), IoFailure>) -> Result<(), IoFailureView> {
    match result {
        Ok(done) => Ok(()),
        Err(failure) => Err(failure@),
    }
}

/// The result of a write that may not be over, as a view.
pub open spec fn write_result_of(result: Option<Result<(), IoFailure>>) -> Option<
    Result<(), IoFailureView>,
> {
    match result {
        None => None,
        Some(r) => Some(write_result_view(r)),
    }
}

impl View for WriteState {
    type V = WriteStateView;

    open spec fn view(&self) -> WriteStateView {
        match self {
            WriteState::Split => WriteStateView::Split,
            WriteState::EnsureDir { parent, file_name } => WriteStateView::EnsureDir {
                parent: parent@,
                file_name: text_of(*file_name),
            },
            WriteState::ProbeTemp { temp } => WriteStateView::ProbeTemp { temp: temp@ },
            WriteState::RemoveStale { temp } => WriteStateView::RemoveStale { temp: temp@ },
            WriteState::Write { temp } => WriteStateView::Write { temp: temp@ },
            WriteState::Replace { temp } => WriteStateView::Replace { temp: temp@ },
            WriteState::Cleanup { temp, failure } => WriteStateView::Cleanup {
                temp: temp@,
                failure: failure@,
            },
            WriteState::Finished(result) => WriteStateView::Finished(write_result_view(*result)),
        }
    }
}

/// The atomic write of some bytes to a target path, as a sequence of file
/// system commands for the caller to perform.
#[derive(Debug)]
pub struct AtomicWrite {
    pub flavor: WriteFlavor,
    pub target: String,
    pub bytes: Vec<u8>,
    pub state: WriteState,
}

impl View for AtomicWrite {
    type V = AtomicWriteView;

    open spec fn view(&self) -> AtomicWriteView {
        AtomicWriteView {
            flavor: self.flavor,
            target: self.target@,
            bytes: self.bytes@,
            state: self.state@,
        }
    }
}

fn copy_bytes(bytes: &Vec<u8>) -> (copy: Vec<u8>)
    ensures
        copy@ == bytes@,
{
    let mut copy: Vec<u8> = Vec::with_capacity(bytes.len());
    let mut index: usize = 0;
    while index < bytes.len()
        invariant
            index <= bytes.len(),
            copy@ == bytes@.take(index as int),
        decreases bytes.len() - index,
    {
        copy.push(bytes[index]);
        proof {
            assert(bytes@.take(index + 1) == bytes@.take(index as int).push(bytes@[index as int]));
        }
        index = index + 1;
    }
    proof {
        assert(bytes@.take(index as int) == bytes@);
    }
    copy
}

impl AtomicWrite {
    /// The write of `bytes` to `target`, before its first command.
    pub fn start(flavor: WriteFlavor, target: &str, bytes: Vec<u8>) -> (write: AtomicWrite)
        ensures
            write@ == AtomicWriteView::started(flavor, target@, bytes@),
    {
        AtomicWrite { flavor, target: target.to_owned(), bytes, state: WriteState::Split }
    }

    /// The command to perform next; none once the write is over.
    pub fn command(&self) -> (command: Option<FsCommand>)
        ensures
            command_of(command) == self@.command(),
    {
        match &self.state {
            WriteState::Split => Some(FsCommand::SplitPath { path: self.target.clone() }),
            WriteState::EnsureDir { parent, file_name } => Some(
                FsCommand::CreateDirAll { dir: parent.clone() },
            ),
            WriteState::ProbeTemp { temp } => Some(FsCommand::ProbeIsFile { path: temp.clone() }),
            WriteState::RemoveStale { temp } => Some(FsCommand::RemoveFile { path: temp.clone() }),
            WriteState::Write { temp } => Some(
                FsCommand::WriteAndSync { path: temp.clone(), bytes: copy_bytes(&self.bytes) },
            ),
            WriteState::Replace { temp } => Some(
                FsCommand::Replace { temp: temp.clone(), target: self.target.clone() },
            ),
            WriteState::Cleanup { temp, failure } => Some(
                FsCommand::RemoveFile { path: temp.clone() },
            ),
            WriteState::Finished(result) => None,
        }
    }

    /// How the write ended; nothing while it is not over.
    pub fn result(&self) -> (result: Option<Result<(), IoFailure>>)
        ensures
            write_result_of(result) == self@.result(),
    {
        match &self.state {
            WriteState::Finished(Ok(done)) => Some(Ok(())),
            WriteState::Finished(Err(failure)) => Some(Err(failure.duplicate())),
            _ => None,
        }
    }

    /// Takes the reply to the last command: see [`AtomicWriteView::advanced`].
    pub fn advance(self, reply: FsReply) -> (next: AtomicWrite)
        ensures
            next@ == self@.advanced(reply@),
    {
        let AtomicWrite { flavor, target, bytes, state } = self;
        let next_state = match state {
            WriteState::Split => match reply {
                FsReply::Parts { parent: None, file_name } => WriteState::Finished(
                    Err(no_parent_failure(flavor)),
                ),
                FsReply::Parts { parent: Some(dir), file_name } => WriteState::EnsureDir {
                    parent: dir,
                    file_name,
                },
                _ => WriteState::Finished(Err(unexpected_reply())),
            },
            WriteState::EnsureDir { parent, file_name } => match reply {
                FsReply::Done => match file_name {
                    None => WriteState::Finished(Err(no_file_name_failure(flavor))),
                    Some(name) => WriteState::ProbeTemp {
                        temp: temp_path(parent.as_str(), name.as_str()),
                    },
                },
                FsReply::Failed(failure) => WriteState::Finished(Err(failure)),
                _ => WriteState::Finished(Err(unexpected_reply())),
            },
            WriteState::ProbeTemp { temp } => match reply {
                FsReply::Flag(true) => WriteState::RemoveStale { temp },
                FsReply::Flag(false) => WriteState::Write { temp },
                _ => WriteState::Finished(Err(unexpected_reply())),
            },
            WriteState::RemoveStale { temp } => match reply {
                FsReply::Done => WriteState::Write { temp },
                FsReply::Failed(failure) => WriteState::Finished(Err(failure)),
                _ => WriteState::Finished(Err(unexpected_reply())),
            },
            WriteState::Write { temp } => match reply {
                FsReply::Done => WriteState::Replace { temp },
                FsReply::WriteFailed(stage, failure) => WriteState::Finished(
                    Err(failure_of_write_stage(flavor, stage, &failure)),
                ),
                _ => WriteState::Finished(Err(unexpected_reply())),
            },
            WriteState::Replace { temp } => match reply {
                FsReply::Done => WriteState::Finished(Ok(())),
                FsReply::Failed(failure) => WriteState::Cleanup {
                    temp,
                    failure: failure_at_stage(flavor, "replace target", &failure),
                },
                _ => WriteState::Finished(Err(unexpected_reply())),
            },
            WriteState::Cleanup { temp, failure } => match reply {
                FsReply::Failed(cleanup) => {
                    if cleanup.kind == IoFailureKind::NotFound {
                        WriteState::Finished(Err(failure))
                    } else {
                        WriteState::Finished(Err(failure_with_cleanup(&failure, &cleanup)))
                    }
                },
                _ => WriteState::Finished(Err(failure)),
            },
            WriteState::Finished(result) => WriteState::Finished(result),
        };
        AtomicWrite { flavor, target, bytes, state: next_state }
    }
}

/// The atomic write of the body text of a note.
pub fn write_editor_text_atomic(path: &str, bytes: Vec<u8>) -> (write: AtomicWrite)
    ensures
        write@ == AtomicWriteView::started(WriteFlavor::EditorAutosave, path@, bytes@),
{
    AtomicWrite::start(WriteFlavor::EditorAutosave, path, bytes)
}

/// The atomic write of the window geometry.
pub fn write_atomic(path: &str, bytes: Vec<u8>) -> (write: AtomicWrite)
    ensures
        write@ == AtomicWriteView::started(WriteFlavor::WindowPosition, path@, bytes@),
{
    AtomicWrite::start(WriteFlavor::WindowPosition, path, bytes)
}

/// Whether a command only reads the file system.
pub open spec fn reads_only(command: CommandView) -> bool {
    command is SplitPath || command is ProbeIsFile || command is ProbeCandidate
}

/// Until the replace itself, no step of an atomic write changes or removes
/// the target: every command either only reads, or creates the parent
/// directory, or is aimed at the temporary file, or is the replace of the
/// target by the temporary file. The temporary file is the sibling of the
/// target that bears its name with `.tmp` added, and it stays the same file
/// through the whole write, as do the target and the bytes.
pub proof fn lemma_target_untouched_until_replace(write: AtomicWriteView, reply: ReplyView)
    ensures
        write.command() matches Some(command) ==> {
            ||| reads_only(command)
            ||| command is CreateDirAll
            ||| (command matches CommandView::RemoveFile { path } && Some(path) == write.temp())
            ||| (command matches CommandView::WriteAndSync { path, bytes } && Some(path)
                == write.temp() && bytes == write.bytes)
            ||| (command matches CommandView::Replace { temp, target } && Some(temp)
                == write.temp() && target == write.target)
        },
        write.advanced(reply).target == write.target,
        write.advanced(reply).bytes == write.bytes,
        write.advanced(reply).flavor == write.flavor,
        write.temp() is Some && write.advanced(reply).temp() is Some ==> write.advanced(
            reply,
        ).temp() == write.temp(),
        write.state matches WriteStateView::EnsureDir { parent, file_name: Some(name) } ==> (
        write.advanced(reply).temp() is Some ==> write.advanced(reply).temp() == Some(
            temp_path_text(parent, name),
        )),
{
}

/// The temporary file is never the target itself: for a target that is its
/// file name adjoined to its parent directory, the temporary path is another
/// path.
pub proof fn lemma_temp_is_not_the_target(parent: Seq<char>, file_name: Seq<char>)
    ensures
        temp_path_text(parent, file_name) != joined(parent, file_name),
{
    reveal_strlit(".tmp");
    let temp_name = file_name + tmp_extension();
    assert(temp_name.len() == file_name.len() + 4);
    if file_name.len() > 0 {
        assert(temp_name[0] == file_name[0]);
    } else {
        assert(temp_name[0] == '.');
    }
    assert(is_rooted(temp_name) == is_rooted(file_name));
    if temp_path_text(parent, file_name) == joined(parent, file_name) {
        lemma_joined_separates_names(parent, temp_name, file_name);
    }
}

/// A failed replace leaves the target as it was: the only command that
/// follows removes the temporary file, and then the write is over with a
/// failure of the kind of the replace failure whose message names the
/// replace stage and the cause, followed by the cause of a failed cleanup
/// if there was one.
pub proof fn lemma_failed_replace_preserves_target(
    write: AtomicWriteView,
    cause: IoFailureView,
    cleanup_reply: ReplyView,
)
    requires
        write.state is Replace,
    ensures
        ({
            let cleaning = write.advanced(ReplyView::Failed(cause));
            let over = cleaning.advanced(cleanup_reply);
            let staged = staged_failure(write.flavor, replace_stage_name(), cause);
            &&& cleaning.command() == Some(CommandView::RemoveFile { path: write.temp()->0 })
            &&& over.command() is None
            &&& over.result() matches Some(Err(failure))
            &&& failure.kind == cause.kind
            &&& failure.message.len() >= staged.message.len()
            &&& failure.message.take(staged.message.len() as int) == staged.message
            &&& failure == (match cleanup_reply {
                ReplyView::Failed(cleanup) => if cleanup.kind == IoFailureKind::NotFound {
                    staged
                } else {
                    cleanup_failure(staged, cleanup)
                },
                _ => staged,
            })
        }),
{
    let staged = staged_failure(write.flavor, replace_stage_name(), cause);
    assert(staged.message.take(staged.message.len() as int) == staged.message);
    if let ReplyView::Failed(cleanup) = cleanup_reply {
        let both = cleanup_failure(staged, cleanup);
        assert(both.message.take(staged.message.len() as int) == staged.message);
    }
}

/// A write whose every command succeeds, on a target with a parent directory
/// and a file name and without a leftover temporary file, performs exactly:
/// split, create directory, probe, write, replace; and ends well.
pub proof fn lemma_successful_write_steps(
    flavor: WriteFlavor,
    target: Seq<char>,
    bytes: Seq<u8>,
    parent: Seq<char>,
    file_name: Seq<char>,
)
    ensures
        ({
            let temp = temp_path_text(parent, file_name);
            let split = AtomicWriteView::started(flavor, target, bytes);
            let ensure = split.advanced(
                ReplyView::Parts { parent: Some(parent), file_name: Some(file_name) },
            );
            let probe = ensure.advanced(ReplyView::Done);
            let writing = probe.advanced(ReplyView::Flag(false));
            let replace = writing.advanced(ReplyView::Done);
            let over = replace.advanced(ReplyView::Done);
            &&& split.command() == Some(CommandView::SplitPath { path: target })
            &&& ensure.command() == Some(CommandView::CreateDirAll { dir: parent })
            &&& probe.command() == Some(CommandView::ProbeIsFile { path: temp })
            &&& writing.command() == Some(CommandView::WriteAndSync { path: temp, bytes })
            &&& replace.command() == Some(CommandView::Replace { temp, target })
            &&& over.command() is None
            &&& over.result() == Some(Ok::<(), IoFailureView>(()))
        }),
{
}

} // verus!
