//! The Add transition: adopt a home file as a managed entry.
//!
//! The caller canonicalizes the requested path and reports what kind of
//! entry it is and whether its repository destination already exists. The
//! engine rejects symlinks (skipped with a warning — they are not adoptable),
//! paths outside `home_dir` (a scope violation), paths already inside the
//! repository's home mirror, and occupied destinations (no overwrite); only
//! then does it record the copy. The original file is left untouched: a
//! subsequent Install run replaces it with a link.

use vstd::prelude::*;

use crate::DkError;
use crate::action::ActionV;
use crate::config::ConfigV;
use crate::executor::Executor;
use crate::file_kind::FileKind;
use crate::paths::FsPath;
use crate::paths::is_prefix_of;

verus! {

/// What an accepted Add call did.
#[derive(Clone, Copy, Debug, PartialEq, Eq, Structural)]
pub enum AddOutcome {
    /// The file was copied into the repository.
    Added,
    /// The path is a symlink; skipped with a warning, nothing recorded.
    SkippedSymlink,
    /// The destination already exists; skipped with a warning, nothing
    /// recorded.
    SkippedExisting,
}

/// What one Add call records: the single copy, or nothing at all.
pub open spec fn add_plan(
    cfg: ConfigV,
    path: Seq<Seq<u8>>,
    path_kind: FileKind,
    dest_exists: bool,
) -> Seq<ActionV> {
    if path_kind == FileKind::Symlink || !is_prefix_of(cfg.home_dir, path) || is_prefix_of(
        cfg.dotfiles_home_dir,
        path,
    ) || dest_exists {
        Seq::empty()
    } else {
        seq![ActionV::CopyFile { from: path, to: cfg.entity_path(path) }]
    }
}

/// Adopts the canonicalized home path `path` as a managed entry.
///
/// `path_kind` is the classification of `path` itself (not following a
/// final symlink); `dest_exists` reports whether anything occupies the
/// repository destination `entity_path(path)`. Errs, recording nothing,
/// exactly when `path` is not under `home_dir` (scope violation) or already
/// lies under `dotfiles_home_dir` (already managed); skips, recording
/// nothing, when `path` is a symlink or the destination is occupied;
/// otherwise records exactly the one copy.
pub fn add<E: Executor>(
    executor: &mut E,
    path: &FsPath,
    path_kind: FileKind,
    dest_exists: bool,
) -> (r: Result<AddOutcome, DkError>)
    ensures
        final(executor).cfg() == old(executor).cfg(),
        final(executor).log() == old(executor).log() + add_plan(
            old(executor).cfg(),
            path@,
            path_kind,
            dest_exists,
        ),
        path_kind == FileKind::Symlink ==> r == Ok::<AddOutcome, DkError>(
            AddOutcome::SkippedSymlink,
        ),
        path_kind != FileKind::Symlink && !is_prefix_of(old(executor).cfg().home_dir, path@)
            ==> r == Err::<AddOutcome, DkError>(DkError::NotUnderHome),
        path_kind != FileKind::Symlink && is_prefix_of(old(executor).cfg().home_dir, path@)
            && is_prefix_of(old(executor).cfg().dotfiles_home_dir, path@) ==> r == Err::<
            AddOutcome,
            DkError,
        >(DkError::AlreadyManaged),
        path_kind != FileKind::Symlink && is_prefix_of(old(executor).cfg().home_dir, path@)
            && !is_prefix_of(old(executor).cfg().dotfiles_home_dir, path@) && dest_exists ==> r
            == Ok::<AddOutcome, DkError>(AddOutcome::SkippedExisting),
        path_kind != FileKind::Symlink && is_prefix_of(old(executor).cfg().home_dir, path@)
            && !is_prefix_of(old(executor).cfg().dotfiles_home_dir, path@) && !dest_exists ==> r
            == Ok::<AddOutcome, DkError>(AddOutcome::Added),
{
    let cfg = executor.config().clone();
    let ghost log0 = old(executor).log();
    if path_kind == FileKind::Symlink {
        proof {
            assert(executor.log() =~= log0 + add_plan(executor.cfg(), path@, path_kind, dest_exists));
        }
        return Ok(AddOutcome::SkippedSymlink);
    }
    if !path.starts_with(&cfg.home_dir) {
        proof {
            assert(executor.log() =~= log0 + add_plan(executor.cfg(), path@, path_kind, dest_exists));
        }
        return Err(DkError::NotUnderHome);
    }
    if path.starts_with(&cfg.dotfiles_home_dir) {
        proof {
            assert(executor.log() =~= log0 + add_plan(executor.cfg(), path@, path_kind, dest_exists));
        }
        return Err(DkError::AlreadyManaged);
    }
    if dest_exists {
        proof {
            assert(executor.log() =~= log0 + add_plan(executor.cfg(), path@, path_kind, dest_exists));
        }
        return Ok(AddOutcome::SkippedExisting);
    }
    let to = cfg.entity_path(path)?;
    executor.copy(path, &to)?;
    proof {
        assert(executor.log() =~= log0 + add_plan(old(executor).cfg(), path@, path_kind, dest_exists));
    }
    Ok(AddOutcome::Added)
}

} // verus!
