//! The commands that a file operation asks its caller to perform on the file
//! system, and the replies that the caller gives back.
//!
//! An operation never touches the disk itself. It names one command at a
//! time; the caller performs it and reports how it went; the operation then
//! names the next command or is finished.

use crate::failure::{IoFailure, IoFailureKind, IoFailureView};
use crate::naming::text_of;
use vstd::prelude::*;
use vstd::string::*;

verus! {

/// The step of writing a temporary file at which a failure occurred.
#[derive(Debug, Clone, Copy, PartialEq, Eq, Structural)]
pub enum WriteStage {
    /// Creating the file.
    Create,
    /// Writing the bytes.
    Write,
    /// Forcing the bytes to the disk.
    Sync,
}

/// One thing to do on the file system.
#[derive(Debug, Clone, PartialEq, Eq)]
pub enum FsCommand {
    /// Create `dir` and all its missing parents; succeed if it is there
    /// already. Answer: `Done` or `Failed`.
    CreateDirAll { dir: String },
    /// Tell whether `path` names the same file as `exclude` (false when
    /// there is no `exclude`), and whether anything exists at `path`.
    /// Answer: `Candidate`.
    ProbeCandidate { path: String, exclude: Option<String> },
    /// Create an empty file at `path`; fail if anything exists there.
    /// Answer: `Done` or `Failed`.
    CreateNewFile { path: String },
    /// Tell whether `path` is a regular file. Answer: `Flag`.
    ProbeIsFile { path: String },
    /// Tell the parent directory and the file name of `path`, as far as it
    /// has them. Answer: `Parts`.
    SplitPath { path: String },
    /// Rename the file `from` to `to`. Answer: `Done` or `Failed`.
    Rename { from: String, to: String },
    /// Delete the file at `path`. Answer: `Done` or `Failed`.
    RemoveFile { path: String },
    /// Create or truncate the file at `path`, write `bytes` to it and force
    /// them to the disk. Answer: `Done` or `WriteFailed`.
    WriteAndSync { path: String, bytes: Vec<u8> },
    /// Put `temp` in the place of `target` in one step, so that `target` is
    /// at every moment either the old file or the new one.
    /// Answer: `Done` or `Failed`.
    Replace { temp: String, target: String },
}

/// How a command went.
#[derive(Debug, Clone, PartialEq, Eq)]
pub enum FsReply {
    Done,
    Failed(IoFailure),
    WriteFailed(WriteStage, IoFailure),
    Flag(bool),
    Candidate { excluded: bool, exists: bool },
    Parts { parent: Option<String>, file_name: Option<String> },
}

/// An [`FsCommand`] with its texts as sequences.
pub enum CommandView {
    CreateDirAll { dir: Seq<char> },
    ProbeCandidate { path: Seq<char>, exclude: Option<Seq<char>> },
    CreateNewFile { path: Seq<char> },
    ProbeIsFile { path: Seq<char> },
    SplitPath { path: Seq<char> },
    Rename { from: Seq<char>, to: Seq<char> },
    RemoveFile { path: Seq<char> },
    WriteAndSync { path: Seq<char>, bytes: Seq<u8> },
    Replace { temp: Seq<char>, target: Seq<char> },
}

/// An [`FsReply`] with its texts as sequences.
pub enum ReplyView {
    Done,
    Failed(IoFailureView),
    WriteFailed(WriteStage, IoFailureView),
    Flag(bool),
    Candidate { excluded: bool, exists: bool },
    Parts { parent: Option<Seq<char>>, file_name: Option<Seq<char>> },
}

impl View for FsCommand {
    type V = CommandView;

    open spec fn view(&self) -> CommandView {
        match self {
            FsCommand::CreateDirAll { dir } => CommandView::CreateDirAll { dir: dir@ },
            FsCommand::ProbeCandidate { path, exclude } => CommandView::ProbeCandidate {
                path: path@,
                exclude: text_of(*exclude),
            },
            FsCommand::CreateNewFile { path } => CommandView::CreateNewFile { path: path@ },
            FsCommand::ProbeIsFile { path } => CommandView::ProbeIsFile { path: path@ },
            FsCommand::SplitPath { path } => CommandView::SplitPath { path: path@ },
            FsCommand::Rename { from, to } => CommandView::Rename { from: from@, to: to@ },
            FsCommand::RemoveFile { path } => CommandView::RemoveFile { path: path@ },
            FsCommand::WriteAndSync { path, bytes } => CommandView::WriteAndSync {
                path: path@,
                bytes: bytes@,
            },
            FsCommand::Replace { temp, target } => CommandView::Replace {
                temp: temp@,
                target: target@,
            },
        }
    }
}

impl View for FsReply {
    type V = ReplyView;

    open spec fn view(&self) -> ReplyView {
        match self {
            FsReply::Done => ReplyView::Done,
            FsReply::Failed(failure) => ReplyView::Failed(failure@),
            FsReply::WriteFailed(stage, failure) => ReplyView::WriteFailed(*stage, failure@),
            FsReply::Flag(flag) => ReplyView::Flag(*flag),
            FsReply::Candidate { excluded, exists } => ReplyView::Candidate {
                excluded: *excluded,
                exists: *exists,
            },
            FsReply::Parts { parent, file_name } => ReplyView::Parts {
                parent: text_of(*parent),
                file_name: text_of(*file_name),
            },
        }
    }
}

/// An optional command as its view.
pub open spec fn command_of(command: Option<FsCommand>) -> Option<CommandView> {
    match command {
        None => None,
        Some(c) => Some(c@),
    }
}

/// The message of the failure that ends an operation when a reply does not
/// answer the command that was asked.
pub open spec fn unexpected_reply_message() -> Seq<char> {
    "file system reply does not answer the command"@
}

/// The failure that ends an operation when a reply does not answer the
/// command that was asked.
pub open spec fn unexpected_reply_failure() -> IoFailureView {
    IoFailureView { kind: IoFailureKind::InvalidInput, message: unexpected_reply_message() }
}

/// The failure for a reply that does not answer the command that was asked.
pub fn unexpected_reply() -> (failure: IoFailure)
    ensures
        failure@ == unexpected_reply_failure(),
{
    IoFailure::new(IoFailureKind::InvalidInput, "file system reply does not answer the command")
}

} // verus!
