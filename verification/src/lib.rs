//! The file-lifecycle engine of a small note editor.
//!
//! The engine turns the title that a user types into a text file, keeps the
//! name of the file in step with the title, and saves the body of the note
//! once the user has been idle for a while, in such a way that a file on disk
//! is never seen half-written or lost.
//!
//! Everything in this crate is pure. The engine decides; the caller owns the
//! threads, the locks, the clocks and the disk, performs what a decision asks
//! for, and reports back how it went. Paths are plain texts, moments are
//! plain numbers, and every file operation is a small machine that names one
//! file system command at a time.
//!
//! - [`naming`]: from a title to a file stem and to the numbered names that
//!   are tried when a name is taken.
//! - [`file_ops`]: creating and renaming notes; [`atomic_write`]: replacing
//!   the content of a file; both over the commands of [`fs_protocol`].
//! - [`disk_model`]: what those operations do to a disk whose owner performs
//!   each command faithfully.
//! - [`workflow`]: the state machine that says which operation is legal.
//! - [`autosave`] and [`autosave_worker`]: the debounced saving of the body.
//! - [`dispatcher`]: the queue in front of the one worker.
//! - [`association`] and [`sl_editor_association`]: how text and cursor move
//!   between the title field and the editor.
//! - [`path_resolver`], [`window_position`], [`file_tree`]: where the
//!   application keeps its files, when it saves its window, and how it
//!   orders the file tree.
//! - [`paths`], [`text`], [`timestamp`], [`clock`], [`failure`], [`events`]:
//!   the plain values that all of the above work on.

pub mod association;
pub mod atomic_write;
pub mod autosave;
pub mod autosave_worker;
pub mod clock;
pub mod disk_model;
pub mod dispatcher;
pub mod events;
pub mod failure;
pub mod file_ops;
pub mod file_tree;
pub mod fs_protocol;
pub mod naming;
pub mod path_resolver;
pub mod paths;
pub mod sl_editor_association;
pub mod text;
pub mod timestamp;
pub mod window_position;
pub mod workflow;
