//! The actions of the execution boundary.
//!
//! Every mutating filesystem operation the engine decides on — and every
//! notice it reports — is recorded as one [`Action`]. An executor only
//! appends actions to its log; whether the log is then performed against
//! the filesystem or merely printed is the caller's choice, and nothing in
//! the engine depends on it. That is what makes a dry run a faithful
//! preview.

use vstd::prelude::*;

use crate::paths::FsPath;

verus! {

/// One decided operation or notice, over component-sequence paths.
pub enum ActionV {
    /// Create a symlink at `to` whose destination is `from`.
    CreateSymlink { from: Seq<Seq<u8>>, to: Seq<Seq<u8>> },
    /// Report that `to` already resolves to `from`; mutate nothing.
    SkipLink { from: Seq<Seq<u8>>, to: Seq<Seq<u8>> },
    /// Remove the symlink at `path`.
    RemoveSymlink { path: Seq<Seq<u8>> },
    /// Displace the plain file at `path` into `backup` by a rename.
    RemoveFileWithBackup { path: Seq<Seq<u8>>, backup: Seq<Seq<u8>> },
    /// Remove the directory at `path` recursively, without backup.
    RemoveDirAll { path: Seq<Seq<u8>> },
    /// Remove the entry of unrecognized type at `path`.
    RemoveUnknownPath { path: Seq<Seq<u8>> },
    /// Delete the managed entry at `path` from the repository.
    RemoveEntity { path: Seq<Seq<u8>> },
    /// Copy the plain file at `from` to `to`, leaving `from` untouched.
    CopyFile { from: Seq<Seq<u8>>, to: Seq<Seq<u8>> },
    /// Report that `path` could not be examined; mutate nothing.
    WarnCannotDetermine { path: Seq<Seq<u8>> },
}

/// One decided operation or notice.
#[derive(Debug, PartialEq, Eq)]
pub enum Action {
    CreateSymlink { from: FsPath, to: FsPath },
    SkipLink { from: FsPath, to: FsPath },
    RemoveSymlink { path: FsPath },
    RemoveFileWithBackup { path: FsPath, backup: FsPath },
    RemoveDirAll { path: FsPath },
    RemoveUnknownPath { path: FsPath },
    RemoveEntity { path: FsPath },
    CopyFile { from: FsPath, to: FsPath },
    WarnCannotDetermine { path: FsPath },
}

impl View for Action {
    type V = ActionV;

    open spec fn view(&self) -> ActionV {
        match *self {
            Action::CreateSymlink { from, to } => ActionV::CreateSymlink {
                from: from@,
                to: to@,
            },
            Action::SkipLink { from, to } => ActionV::SkipLink { from: from@, to: to@ },
            Action::RemoveSymlink { path } => ActionV::RemoveSymlink { path: path@ },
            Action::RemoveFileWithBackup { path, backup } => ActionV::RemoveFileWithBackup {
                path: path@,
                backup: backup@,
            },
            Action::RemoveDirAll { path } => ActionV::RemoveDirAll { path: path@ },
            Action::RemoveUnknownPath { path } => ActionV::RemoveUnknownPath { path: path@ },
            Action::RemoveEntity { path } => ActionV::RemoveEntity { path: path@ },
            Action::CopyFile { from, to } => ActionV::CopyFile { from: from@, to: to@ },
            Action::WarnCannotDetermine { path } => ActionV::WarnCannotDetermine { path: path@ },
        }
    }
}

/// The view of an executor's log: each recorded action as its mathematical
/// content.
pub open spec fn log_view(log: Seq<Action>) -> Seq<ActionV> {
    Seq::new(log.len(), |i: int| log[i]@)
}

} // verus!
