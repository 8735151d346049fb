//! The Remove transition: withdraw a managed entry from the repository.
//!
//! The caller canonicalizes the requested path and reports what the link
//! oracle says of the corresponding home path: whether it is a symlink
//! resolving to the entry, and whether it is a broken symlink. The engine
//! rejects paths outside `dotfiles_home_dir` (a scope violation); otherwise
//! it records the removal of the home symlink where one points here or is
//! broken, then the deletion of the repository copy. A home entry that is
//! not such a symlink is deliberately left untouched: only the repository
//! copy is deleted.

use vstd::prelude::*;

use crate::DkError;
use crate::action::ActionV;
use crate::config::ConfigV;
use crate::executor::Executor;
use crate::paths::FsPath;
use crate::paths::is_prefix_of;

verus! {

/// What one accepted Remove call records: the home symlink's removal where
/// it points at the entry or is broken, then the entry's deletion.
pub open spec fn remove_plan(
    cfg: ConfigV,
    path: Seq<Seq<u8>>,
    points_to: bool,
    broken: bool,
) -> Seq<ActionV> {
    let unlink: Seq<ActionV> = if points_to || broken {
        seq![ActionV::RemoveSymlink { path: cfg.installed_path(path) }]
    } else {
        Seq::empty()
    };
    unlink + seq![ActionV::RemoveEntity { path }]
}

/// Removes the managed entry at the canonicalized repository path `path`.
///
/// `points_to` reports whether the corresponding home path is a symlink
/// resolving to `path` by filesystem identity; `broken` whether it is a
/// broken symlink. Errs, recording nothing, exactly when `path` is not
/// under `dotfiles_home_dir`; otherwise records exactly `remove_plan`.
pub fn remove<E: Executor>(
    executor: &mut E,
    path: &FsPath,
    points_to: bool,
    broken: bool,
) -> (r: Result<(), DkError>)
    ensures
        final(executor).cfg() == old(executor).cfg(),
        !is_prefix_of(old(executor).cfg().dotfiles_home_dir, path@) ==> r == Err::<(), DkError>(
            DkError::NotUnderDotfilesHome,
        ) && final(executor).log() == old(executor).log(),
        is_prefix_of(old(executor).cfg().dotfiles_home_dir, path@) ==> r is Ok
            && final(executor).log() == old(executor).log() + remove_plan(
            old(executor).cfg(),
            path@,
            points_to,
            broken,
        ),
{
    let cfg = executor.config().clone();
    let ghost log0 = old(executor).log();
    if !path.starts_with(&cfg.dotfiles_home_dir) {
        return Err(DkError::NotUnderDotfilesHome);
    }
    let rel = path.strip_prefix(&cfg.dotfiles_home_dir)?;
    let to = cfg.home_dir.join(&rel);
    proof {
        assert(to@ == old(executor).cfg().installed_path(path@));
    }
    if points_to || broken {
        executor.remove_symlink_from_home(&to)?;
    }
    executor.remove_file_from_dotfiles_home(path)?;
    proof {
        assert(executor.log() =~= log0 + remove_plan(
            old(executor).cfg(),
            path@,
            points_to,
            broken,
        ));
    }
    Ok(())
}

} // verus!
