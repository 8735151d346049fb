//! Classification of filesystem entries, and the pure half of the link
//! oracle.
//!
//! The caller stats a path (without following a final symlink) and reports
//! the outcome as a [`Stat`]; [`file_kind`] turns that outcome into the one
//! [`FileKind`] that drives the reconciliation transitions. A missing entry
//! and an inaccessible one are kept distinct: callers must never conflate
//! `NotFound` with `Error`.

use vstd::prelude::*;

use crate::paths::FsPath;

verus! {

/// What a non-following stat of a path reported.
#[derive(Clone, Copy, Debug, PartialEq, Eq, Structural)]
pub enum Stat {
    /// The entry exists; the flags of its file type.
    Found { is_symlink: bool, is_dir: bool, is_file: bool },
    /// The lookup failed with a "no such entry" condition.
    NotFound,
    /// The lookup failed for any other reason.
    Failed,
}

/// The kind of whatever occupies a path.
#[derive(Clone, Copy, Debug, PartialEq, Eq, Structural)]
pub enum FileKind {
    Symlink,
    File,
    Dir,
    /// The entry exists but is none of the kinds above.
    Unknown,
    /// Nothing occupies the path.
    NotFound,
    /// The path could not be examined; not to be conflated with `NotFound`.
    Error,
}

/// The kind a stat outcome denotes: a symlink is reported as such and never
/// resolved, a directory takes precedence over the file flag, an existing
/// entry of any other type is `Unknown`.
pub open spec fn kind_of_stat(stat: Stat) -> FileKind {
    match stat {
        Stat::Found { is_symlink, is_dir, is_file } => {
            if is_symlink {
                FileKind::Symlink
            } else if is_dir {
                FileKind::Dir
            } else if is_file {
                FileKind::File
            } else {
                FileKind::Unknown
            }
        },
        Stat::NotFound => FileKind::NotFound,
        Stat::Failed => FileKind::Error,
    }
}

/// Classifies a stat outcome.
pub fn file_kind(stat: &Stat) -> (k: FileKind)
    ensures
        k == kind_of_stat(*stat),
{
    match *stat {
        Stat::Found { is_symlink, is_dir, is_file } => {
            if is_symlink {
                FileKind::Symlink
            } else if is_dir {
                FileKind::Dir
            } else if is_file {
                FileKind::File
            } else {
                FileKind::Unknown
            }
        },
        Stat::NotFound => FileKind::NotFound,
        Stat::Failed => FileKind::Error,
    }
}

pub fn is_symlink(kind: &FileKind) -> (r: bool)
    ensures
        r == (*kind == FileKind::Symlink),
{
    *kind == FileKind::Symlink
}

pub fn is_file(kind: &FileKind) -> (r: bool)
    ensures
        r == (*kind == FileKind::File),
{
    *kind == FileKind::File
}

pub fn is_dir(kind: &FileKind) -> (r: bool)
    ensures
        r == (*kind == FileKind::Dir),
{
    *kind == FileKind::Dir
}

pub fn is_unknown(kind: &FileKind) -> (r: bool)
    ensures
        r == (*kind == FileKind::Unknown),
{
    *kind == FileKind::Unknown
}

/// Whether something occupies the path: every kind but `NotFound`. An
/// inaccessible entry (`Error`) counts as existing.
pub fn path_exists(kind: &FileKind) -> (r: bool)
    ensures
        r == (*kind != FileKind::NotFound),
{
    *kind != FileKind::NotFound
}

pub fn is_error_path(kind: &FileKind) -> (r: bool)
    ensures
        r == (*kind == FileKind::Error),
{
    *kind == FileKind::Error
}

/// The filesystem identity of an entry: device and inode number. Two paths
/// denote the same entity exactly when their identities are equal, which
/// tolerates repository relocation and differing relative/absolute link
/// styles where string comparison would not.
#[derive(Clone, Copy, Debug, PartialEq, Eq, Structural)]
pub struct FileId {
    pub dev: u64,
    pub ino: u64,
}

/// Device-and-inode identity comparison.
pub fn same_identity(a: &FileId, b: &FileId) -> (r: bool)
    ensures
        r == (a.dev == b.dev && a.ino == b.ino),
{
    a.dev == b.dev && a.ino == b.ino
}

/// Where a link's raw destination points, as an absolute path: itself if it
/// is already absolute, else joined against the link's parent directory.
pub open spec fn resolved_destination(
    link: Seq<Seq<u8>>,
    raw: Seq<Seq<u8>>,
    raw_is_absolute: bool,
) -> Seq<Seq<u8>> {
    if raw_is_absolute {
        raw
    } else {
        link.drop_last() + raw
    }
}

/// Resolves the raw destination read out of the symlink at `link` to an
/// absolute path. A relative destination is interpreted against the link's
/// parent directory, so the link must not be the root.
pub fn resolve_link_destination(link: &FsPath, raw: &FsPath, raw_is_absolute: bool) -> (r: FsPath)
    requires
        !raw_is_absolute ==> link@.len() > 0,
    ensures
        r@ == resolved_destination(link@, raw@, raw_is_absolute),
{
    if raw_is_absolute {
        raw.clone()
    } else {
        link.parent().join(raw)
    }
}

} // verus!
