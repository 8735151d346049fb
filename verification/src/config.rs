//! The session configuration: the four directories every operation works
//! over, and the mapping between the repository tree, the home tree and the
//! backup tree.
//!
//! A managed entry is identified by its path relative to
//! `dotfiles_home_dir`; that identity is the join key across the trees:
//! `installed path = home_dir/identity`, `entity path =
//! dotfiles_home_dir/identity`, `backup slot = backup_dir/identity`.

use vstd::prelude::*;

use crate::DkError;
use crate::paths::FsPath;
use crate::paths::is_prefix_of;
use crate::paths::strip_len;

verus! {

/// The mathematical content of a configuration: the four directories as
/// component sequences.
pub struct ConfigV {
    pub home_dir: Seq<Seq<u8>>,
    pub dotfiles_dir: Seq<Seq<u8>>,
    pub backup_dir: Seq<Seq<u8>>,
    pub dotfiles_home_dir: Seq<Seq<u8>>,
}

impl ConfigV {
    /// The configured directories are pairwise distinct, and the
    /// repository's home mirror lies strictly under the repository root.
    pub open spec fn wf(self) -> bool {
        &&& is_prefix_of(self.dotfiles_dir, self.dotfiles_home_dir)
        &&& self.dotfiles_dir.len() < self.dotfiles_home_dir.len()
        &&& self.home_dir != self.dotfiles_dir
        &&& self.home_dir != self.backup_dir
        &&& self.home_dir != self.dotfiles_home_dir
        &&& self.dotfiles_dir != self.backup_dir
        &&& self.backup_dir != self.dotfiles_home_dir
    }

    /// The repo-relative identity of a path under `dotfiles_home_dir`.
    pub open spec fn rel_of_entity(self, p: Seq<Seq<u8>>) -> Seq<Seq<u8>> {
        strip_len(p, self.dotfiles_home_dir.len() as int)
    }

    /// The repo-relative identity of a path under `home_dir`.
    pub open spec fn rel_of_installed(self, p: Seq<Seq<u8>>) -> Seq<Seq<u8>> {
        strip_len(p, self.home_dir.len() as int)
    }

    /// Where the entity stored at `p` in the repository gets installed.
    pub open spec fn installed_path(self, p: Seq<Seq<u8>>) -> Seq<Seq<u8>> {
        self.home_dir + self.rel_of_entity(p)
    }

    /// Where the home entry at `p` is stored in the repository.
    pub open spec fn entity_path(self, p: Seq<Seq<u8>>) -> Seq<Seq<u8>> {
        self.dotfiles_home_dir + self.rel_of_installed(p)
    }

    /// The backup slot displacing the home entry at `p`.
    pub open spec fn backup_slot(self, p: Seq<Seq<u8>>) -> Seq<Seq<u8>> {
        self.backup_dir + self.rel_of_installed(p)
    }

    /// The backup slot for the home entry displaced by the entity stored at
    /// `p` in the repository.
    pub open spec fn entity_backup_slot(self, p: Seq<Seq<u8>>) -> Seq<Seq<u8>> {
        self.backup_dir + self.rel_of_entity(p)
    }
}

/// The four canonicalized directories of one session, built once at process
/// start and immutable thereafter. `backup_dir` is the session's own
/// timestamp-named directory under the configured backup root.
#[derive(Debug, PartialEq, Eq)]
pub struct Config {
    pub home_dir: FsPath,
    pub dotfiles_dir: FsPath,
    pub backup_dir: FsPath,
    pub dotfiles_home_dir: FsPath,
}

impl View for Config {
    type V = ConfigV;

    open spec fn view(&self) -> ConfigV {
        ConfigV {
            home_dir: self.home_dir@,
            dotfiles_dir: self.dotfiles_dir@,
            backup_dir: self.backup_dir@,
            dotfiles_home_dir: self.dotfiles_home_dir@,
        }
    }
}

impl Clone for Config {
    /// A clone denotes the same configuration.
    fn clone(&self) -> (r: Self)
        ensures
            r@ == self@,
    {
        Config {
            home_dir: self.home_dir.clone(),
            dotfiles_dir: self.dotfiles_dir.clone(),
            backup_dir: self.backup_dir.clone(),
            dotfiles_home_dir: self.dotfiles_home_dir.clone(),
        }
    }
}

impl Config {
    /// Builds a configuration from the four canonicalized directories,
    /// checking the invariant: errs exactly when `dotfiles_home_dir` does
    /// not lie strictly under `dotfiles_dir`, or the directories are not
    /// pairwise distinct.
    pub fn new(
        home_dir: FsPath,
        dotfiles_dir: FsPath,
        backup_dir: FsPath,
        dotfiles_home_dir: FsPath,
    ) -> (r: Result<Config, DkError>)
        ensures
            r is Ok <==> (ConfigV {
                home_dir: home_dir@,
                dotfiles_dir: dotfiles_dir@,
                backup_dir: backup_dir@,
                dotfiles_home_dir: dotfiles_home_dir@,
            }).wf(),
            r is Ok ==> {
                &&& r->Ok_0@.home_dir == home_dir@
                &&& r->Ok_0@.dotfiles_dir == dotfiles_dir@
                &&& r->Ok_0@.backup_dir == backup_dir@
                &&& r->Ok_0@.dotfiles_home_dir == dotfiles_home_dir@
                &&& r->Ok_0@.wf()
            },
            r is Err ==> r->Err_0 == DkError::DotfilesHomeNotUnderDotfiles || r->Err_0
                == DkError::DirsNotDistinct,
    {
        if !(dotfiles_home_dir.starts_with(&dotfiles_dir) && dotfiles_dir.depth()
            < dotfiles_home_dir.depth()) {
            return Err(DkError::DotfilesHomeNotUnderDotfiles);
        }
        if home_dir.eq_path(&dotfiles_dir) || home_dir.eq_path(&backup_dir) || home_dir.eq_path(
            &dotfiles_home_dir,
        ) || dotfiles_dir.eq_path(&backup_dir) || backup_dir.eq_path(&dotfiles_home_dir) {
            return Err(DkError::DirsNotDistinct);
        }
        Ok(Config { home_dir, dotfiles_dir, backup_dir, dotfiles_home_dir })
    }

    /// The identity of a repository path relative to `dotfiles_home_dir`;
    /// errs exactly when the path does not lie under it.
    pub fn repo_rel_from_dotfiles_home(&self, path: &FsPath) -> (r: Result<FsPath, DkError>)
        ensures
            r is Ok <==> is_prefix_of(self@.dotfiles_home_dir, path@),
            r is Ok ==> r->Ok_0@ == self@.rel_of_entity(path@),
    {
        path.strip_prefix(&self.dotfiles_home_dir)
    }

    /// The identity of a home path relative to `home_dir`; errs exactly
    /// when the path does not lie under it.
    pub fn repo_rel_from_home(&self, path: &FsPath) -> (r: Result<FsPath, DkError>)
        ensures
            r is Ok <==> is_prefix_of(self@.home_dir, path@),
            r is Ok ==> r->Ok_0@ == self@.rel_of_installed(path@),
    {
        path.strip_prefix(&self.home_dir)
    }

    /// The absolute home path at which the repository entity `path` is
    /// installed; errs exactly when `path` is not under `dotfiles_home_dir`.
    pub fn install_path(&self, path: &FsPath) -> (r: Result<FsPath, DkError>)
        ensures
            r is Ok <==> is_prefix_of(self@.dotfiles_home_dir, path@),
            r is Ok ==> r->Ok_0@ == self@.installed_path(path@),
    {
        let rel = self.repo_rel_from_dotfiles_home(path)?;
        Ok(self.home_dir.join(&rel))
    }

    /// The absolute repository path holding the entity for the home path
    /// `path`; errs exactly when `path` is not under `home_dir`.
    pub fn entity_path(&self, path: &FsPath) -> (r: Result<FsPath, DkError>)
        ensures
            r is Ok <==> is_prefix_of(self@.home_dir, path@),
            r is Ok ==> r->Ok_0@ == self@.entity_path(path@),
    {
        let rel = self.repo_rel_from_home(path)?;
        Ok(self.dotfiles_home_dir.join(&rel))
    }
}

} // verus!
