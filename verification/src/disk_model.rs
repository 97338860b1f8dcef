//! A model of the disk, and what the file operations of the engine do to it.
//!
//! The engine never touches the disk; its caller does. This module says
//! what follows if the caller performs each command faithfully: the content
//! of a file that is replaced atomically is at every moment the old content
//! or the new, creating a note never changes a file that exists, and
//! renaming a note changes no other file.

use crate::atomic_write::{
    lemma_temp_is_not_the_target, temp_path_text, AtomicWriteView, WriteStateView,
};
use crate::file_ops::{
    candidate_path, CreateFileView, CreateStateView, RenameFileView, RenameStateView,
};
use crate::fs_protocol::{CommandView, ReplyView};
use crate::paths::joined;
use vstd::prelude::*;

verus! {

/// The files and directories on a disk.
pub struct DiskView {
    /// The content of every regular file, by its path.
    pub files: Map<Seq<char>, Seq<u8>>,
    /// The paths of the directories.
    pub dirs: Set<Seq<char>>,
}

impl DiskView {
    /// Whether anything exists at `path`.
    pub open spec fn occupied(self, path: Seq<char>) -> bool {
        self.files.contains_key(path) || self.dirs.contains(path)
    }

    /// Whether `path` is on `other` what it is here: the same file with the
    /// same content, or no file on both.
    pub open spec fn same_file(self, other: DiskView, path: Seq<char>) -> bool {
        &&& self.files.contains_key(path) == other.files.contains_key(path)
        &&& self.files.contains_key(path) ==> self.files[path] == other.files[path]
    }

    /// Whether every file but the one at `path` is on `other` what it is
    /// here.
    pub open spec fn same_files_except(self, other: DiskView, path: Seq<char>) -> bool {
        forall|any: Seq<char>| any != path ==> #[trigger] self.same_file(other, any)
    }

    /// Whether every file is on `other` what it is here.
    pub open spec fn same_files(self, other: DiskView) -> bool {
        forall|any: Seq<char>| #[trigger] self.same_file(other, any)
    }

    /// Whether every file that exists here exists on `other` with the same
    /// content.
    pub open spec fn kept_by(self, other: DiskView) -> bool {
        forall|any: Seq<char>| #[trigger]
            self.files.contains_key(any) ==> other.files.contains_key(any) && other.files[any]
                == self.files[any]
    }
}

/// Whether a faithful caller, on `disk`, can answer `command` with `reply`
/// and leave `after` behind.
///
/// - Probes change nothing and tell the truth. The parts that are told of a
///   path, adjoined, give the path. Which candidate counts as the excluded
///   path is for the caller to say, but without an excluded path none does.
/// - A command that is answered with `Done` has done what it says, and only
///   that. A new file is created only where nothing exists.
/// - A command that failed has changed no file, except that a failed write
///   may leave anything at its own path, and a failed replace anything at
///   the path of the temporary file. Neither changes any other file.
pub open spec fn performs(disk: DiskView, command: CommandView, reply: ReplyView, after: DiskView) -> bool {
    match command {
        CommandView::CreateDirAll { dir } => {
            &&& reply is Done || reply is Failed
            &&& disk.same_files(after)
            &&& forall|any: Seq<char>| disk.dirs.contains(any) ==> after.dirs.contains(any)
            &&& reply is Done ==> after.dirs.contains(dir)
        },
        CommandView::ProbeCandidate { path, exclude } => {
            &&& after == disk
            &&& reply matches ReplyView::Candidate { excluded, exists }
            &&& exists == disk.occupied(path)
            &&& excluded ==> exclude is Some
        },
        CommandView::CreateNewFile { path } => {
            &&& reply is Done || reply is Failed
            &&& after.dirs == disk.dirs
            &&& disk.same_files_except(after, path)
            &&& reply is Done ==> !disk.occupied(path) && after.files.contains_key(path)
                && after.files[path] == Seq::<u8>::empty()
            &&& reply is Failed ==> disk.same_file(after, path)
        },
        CommandView::ProbeIsFile { path } => {
            &&& after == disk
            &&& reply == ReplyView::Flag(disk.files.contains_key(path))
        },
        CommandView::SplitPath { path } => {
            &&& after == disk
            &&& reply matches ReplyView::Parts { parent, file_name }
            &&& parent is Some && file_name is Some ==> joined(parent->0, file_name->0) == path
        },
        CommandView::Rename { from, to } => {
            &&& reply is Done || reply is Failed
            &&& after.dirs == disk.dirs
            &&& reply is Failed ==> disk.same_files(after)
            &&& reply is Done ==> {
                &&& disk.files.contains_key(from)
                &&& after.files.contains_key(to)
                &&& after.files[to] == disk.files[from]
                &&& from != to ==> !after.files.contains_key(from)
                &&& forall|any: Seq<char>|
                    any != from && any != to ==> #[trigger] disk.same_file(after, any)
            }
        },
        CommandView::RemoveFile { path } => {
            &&& reply is Done || reply is Failed
            &&& after.dirs == disk.dirs
            &&& disk.same_files_except(after, path)
            &&& reply is Done ==> !after.files.contains_key(path)
            &&& reply is Failed ==> disk.same_file(after, path)
        },
        CommandView::WriteAndSync { path, bytes } => {
            &&& reply is Done || reply is WriteFailed
            &&& after.dirs == disk.dirs
            &&& disk.same_files_except(after, path)
            &&& reply is Done ==> after.files.contains_key(path) && after.files[path] == bytes
        },
        CommandView::Replace { temp, target } => {
            &&& reply is Done || reply is Failed
            &&& after.dirs == disk.dirs
            &&& forall|any: Seq<char>|
                any != temp && any != target ==> #[trigger] disk.same_file(after, any)
            &&& reply is Failed ==> disk.same_file(after, target)
            &&& reply is Done ==> disk.files.contains_key(temp) && after.files.contains_key(target)
                && after.files[target] == disk.files[temp]
        },
    }
}

/// Files that are the same on a first and a second disk, and on the second
/// and a third, are the same on the first and the third.
pub proof fn lemma_same_files_follow(first: DiskView, second: DiskView, third: DiskView)
    requires
        first.same_files(second),
        second.same_files(third),
    ensures
        first.same_files(third),
        first.kept_by(third),
{
    assert forall|any: Seq<char>| #[trigger] first.same_file(third, any) by {
        assert(first.same_file(second, any));
        assert(second.same_file(third, any));
    }
    assert forall|any: Seq<char>| #[trigger]
        first.files.contains_key(any) implies third.files.contains_key(any) && third.files[any]
        == first.files[any] by {
        assert(first.same_file(third, any));
    }
}

/// What holds of the target of an atomic write in each of its states, on a
/// disk that was `start` when the write began:
/// - after a replace that succeeded, the target holds exactly the bytes;
/// - in every other state, and after every failure, the target is what it
///   was at the start;
/// - the temporary file is never the target, and when it is about to take
///   the target's place it holds exactly the bytes.
pub open spec fn target_is_old_or_new(write: AtomicWriteView, start: DiskView, disk: DiskView) -> bool {
    match write.state {
        WriteStateView::Split => start.same_file(disk, write.target),
        WriteStateView::EnsureDir { parent, file_name } => {
            &&& start.same_file(disk, write.target)
            &&& file_name matches Some(name) ==> joined(parent, name) == write.target
        },
        WriteStateView::ProbeTemp { temp } => {
            &&& start.same_file(disk, write.target)
            &&& temp != write.target
        },
        WriteStateView::RemoveStale { temp } => {
            &&& start.same_file(disk, write.target)
            &&& temp != write.target
        },
        WriteStateView::Write { temp } => {
            &&& start.same_file(disk, write.target)
            &&& temp != write.target
        },
        WriteStateView::Replace { temp } => {
            &&& start.same_file(disk, write.target)
            &&& temp != write.target
            &&& disk.files.contains_key(temp)
            &&& disk.files[temp] == write.bytes
        },
        WriteStateView::Cleanup { temp, failure } => {
            &&& start.same_file(disk, write.target)
            &&& temp != write.target
        },
        WriteStateView::Finished(Ok(done)) => {
            &&& disk.files.contains_key(write.target)
            &&& disk.files[write.target] == write.bytes
        },
        WriteStateView::Finished(Err(failure)) => start.same_file(disk, write.target),
    }
}

/// An atomic write never shows a target that is half-written or gone: what
/// [`target_is_old_or_new`] says holds when the write begins, and every
/// command that a faithful caller performs keeps it. In particular a write
/// that ends in a failure, at whatever step, leaves the target byte for
/// byte as it was, and a write that ends well leaves exactly the new bytes.
pub proof fn lemma_atomic_write_is_atomic(
    write: AtomicWriteView,
    start: DiskView,
    disk: DiskView,
    reply: ReplyView,
    after: DiskView,
)
    requires
        target_is_old_or_new(write, start, disk),
        write.command() matches Some(command) && performs(disk, command, reply, after),
    ensures
        target_is_old_or_new(AtomicWriteView::started(write.flavor, write.target, write.bytes), start, start),
        target_is_old_or_new(write.advanced(reply), start, after),
{
    let target = write.target;
    match write.state {
        WriteStateView::Split => {},
        WriteStateView::EnsureDir { parent, file_name } => {
            assert(disk.same_file(after, target));
            if let Some(name) = file_name {
                lemma_temp_is_not_the_target(parent, name);
            }
        },
        WriteStateView::ProbeTemp { temp } => {},
        WriteStateView::RemoveStale { temp } => {
            assert(disk.same_file(after, target));
        },
        WriteStateView::Write { temp } => {
            assert(disk.same_file(after, target));
        },
        WriteStateView::Replace { temp } => {},
        WriteStateView::Cleanup { temp, failure } => {
            assert(disk.same_file(after, target));
        },
        WriteStateView::Finished(result) => {},
    }
}

/// What holds of the disk in each state of the creation of a note, on a
/// disk that was `start` when the creation began: every file that existed
/// still exists with its content; and when the creation has ended well,
/// its path was free at the start and now holds an empty file.
pub open spec fn creation_spares_files(creation: CreateFileView, start: DiskView, disk: DiskView) -> bool {
    &&& start.kept_by(disk)
    &&& creation.state matches CreateStateView::Finished(Ok(path)) ==> {
        &&& !start.files.contains_key(path)
        &&& disk.files.contains_key(path)
        &&& disk.files[path] == Seq::<u8>::empty()
    }
    &&& !(creation.state is Finished) ==> start.same_files(disk)
    &&& creation.state matches CreateStateView::Finished(Err(failure)) ==> start.same_files(disk)
}

/// Creating a note destroys nothing: what [`creation_spares_files`] says
/// holds when the creation begins, and every command that a faithful
/// caller performs keeps it. A creation that fails leaves every file as it
/// was; one that ends well has added one empty file where none was.
pub proof fn lemma_creation_spares_files(
    creation: CreateFileView,
    start: DiskView,
    disk: DiskView,
    reply: ReplyView,
    after: DiskView,
)
    requires
        creation_spares_files(creation, start, disk),
        creation.command() matches Some(command) && performs(disk, command, reply, after),
    ensures
        !(creation.state is Finished) ==> creation_spares_files(creation, start, start),
        creation_spares_files(creation.advanced(reply), start, after),
{
    assert(disk.same_files(disk)) by {
        assert forall|any: Seq<char>| #[trigger] disk.same_file(disk, any) by {}
    }
    assert(start.same_files(start)) by {
        assert forall|any: Seq<char>| #[trigger] start.same_file(start, any) by {}
    }
    lemma_same_files_follow(start, start, start);
    match creation.state {
        CreateStateView::EnsureDir => {
            lemma_same_files_follow(start, disk, after);
        },
        CreateStateView::Probe { suffix } => {
            lemma_same_files_follow(start, disk, disk);
        },
        CreateStateView::Create { path } => {
            if reply is Done {
                assert(start.same_file(disk, path));
                assert forall|any: Seq<char>| #[trigger]
                    start.files.contains_key(any) implies after.files.contains_key(any)
                    && after.files[any] == start.files[any] by {
                    assert(start.same_file(disk, any));
                    assert(any != path);
                    assert(disk.same_file(after, any));
                }
            } else {
                assert forall|any: Seq<char>| #[trigger] disk.same_file(after, any) by {
                    if any != path {
                        assert(disk.same_file(after, any));
                    }
                }
                lemma_same_files_follow(start, disk, after);
            }
        },
        CreateStateView::Finished(result) => {},
    }
}

/// What holds of the disk in each state of the renaming of a note, on a
/// disk that was `start` when the renaming began:
/// - until the move, and after every failure, every file is what it was;
/// - the target of the move is free;
/// - after a renaming that ended well with the path of the source, and only
///   then, every file is what it was: nothing was touched;
/// - after one that ended well with another path, that path was free at
///   the start and holds what the source held, the source is gone, and
///   every other file is what it was.
pub open spec fn renaming_moves_one_file(renaming: RenameFileView, start: DiskView, disk: DiskView) -> bool {
    match renaming.state {
        RenameStateView::Move { target } => {
            &&& start.same_files(disk)
            &&& start.dirs == disk.dirs
            &&& !start.occupied(target)
        },
        RenameStateView::Finished(Ok(path)) => if path == renaming.current {
            &&& start.same_files(disk)
            &&& start.dirs == disk.dirs
        } else {
            &&& start.dirs == disk.dirs
            &&& !start.occupied(path)
            &&& start.files.contains_key(renaming.current)
            &&& disk.files.contains_key(path)
            &&& disk.files[path] == start.files[renaming.current]
            &&& !disk.files.contains_key(renaming.current)
            &&& forall|any: Seq<char>|
                any != path && any != renaming.current ==> #[trigger] start.same_file(disk, any)
        },
        _ => start.same_files(disk) && start.dirs == disk.dirs,
    }
}

/// Renaming a note changes no other file and overwrites none: what
/// [`renaming_moves_one_file`] says holds when the renaming begins, and
/// every command that a faithful caller performs keeps it. Renaming a note
/// to the name it has leaves the disk untouched.
pub proof fn lemma_renaming_moves_one_file(
    renaming: RenameFileView,
    start: DiskView,
    disk: DiskView,
    reply: ReplyView,
    after: DiskView,
)
    requires
        renaming_moves_one_file(renaming, start, disk),
        renaming.command() matches Some(command) && performs(disk, command, reply, after),
    ensures
        renaming.state is CheckSource ==> renaming_moves_one_file(renaming, start, start),
        renaming_moves_one_file(renaming.advanced(reply), start, after),
        renaming.state is Probe && reply is Candidate && reply->excluded ==> start.same_files(
            after,
        ) && start.dirs == after.dirs,
{
    assert(start.same_files(start)) by {
        assert forall|any: Seq<char>| #[trigger] start.same_file(start, any) by {}
    }
    assert(disk.same_files(disk)) by {
        assert forall|any: Seq<char>| #[trigger] disk.same_file(disk, any) by {}
    }
    match renaming.state {
        RenameStateView::CheckSource => {
            lemma_same_files_follow(start, disk, disk);
        },
        RenameStateView::Split => {
            lemma_same_files_follow(start, disk, disk);
        },
        RenameStateView::Probe { dir, suffix } => {
            lemma_same_files_follow(start, disk, disk);
            if let ReplyView::Candidate { excluded, exists } = reply {
                if !excluded && !exists {
                    let target = candidate_path(dir, renaming.stem, suffix as nat);
                    assert(start.same_file(disk, target));
                    assert(!disk.occupied(target));
                    assert(!start.occupied(target));
                }
            }
        },
        RenameStateView::Move { target } => {
            if reply is Done {
                let current = renaming.current;
                assert(start.same_file(disk, current));
                assert(start.same_file(disk, target));
                assert(current != target);
                assert forall|any: Seq<char>| any != target && any != current implies #[trigger]
                    start.same_file(after, any) by {
                    assert(start.same_file(disk, any));
                    assert(disk.same_file(after, any));
                }
            } else {
                lemma_same_files_follow(start, disk, after);
            }
        },
        RenameStateView::Finished(result) => {},
    }
}

} // verus!
