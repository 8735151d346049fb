//! The execution boundary: the sole gate through which every mutating
//! operation passes.
//!
//! An [`Executor`] holds the session configuration and a log of decided
//! [`Action`]s. The engine appends to the log through the trait's methods
//! and never learns which variant it drives: [`RealExecutor`] is the one
//! whose log the caller performs against the filesystem, [`DryExecutor`]
//! the one whose log is only reported. Both record identical actions for
//! identical decisions, so a dry run is a faithful preview of a real one.

use vstd::prelude::*;

use crate::DkError;
use crate::action::Action;
use crate::action::ActionV;
use crate::action::log_view;
use crate::config::Config;
use crate::config::ConfigV;
use crate::paths::FsPath;
use crate::paths::is_prefix_of;

verus! {

pub trait HasConfig {
    /// The configuration the executor was built with.
    spec fn cfg(&self) -> ConfigV;

    fn config(&self) -> (c: &Config)
        ensures
            c@ == self.cfg(),
    ;
}

/// The capability the reconciliation engine works through. Every method
/// appends exactly the action it names; none reads the filesystem, and none
/// changes the configuration.
pub trait Executor: HasConfig + Sized {
    /// The actions recorded so far.
    spec fn log(&self) -> Seq<ActionV>;

    fn home_dir(&self) -> (p: &FsPath)
        ensures
            p@ == self.cfg().home_dir,
    ;

    fn dotfiles_home_dir(&self) -> (p: &FsPath)
        ensures
            p@ == self.cfg().dotfiles_home_dir,
    ;

    fn backup_dir(&self) -> (p: &FsPath)
        ensures
            p@ == self.cfg().backup_dir,
    ;

    /// Record the creation of a symlink at `to` resolving to `from`.
    fn create_symlink(&mut self, from: &FsPath, to: &FsPath) -> (r: Result<(), DkError>)
        ensures
            r is Ok,
            final(self).cfg() == old(self).cfg(),
            final(self).log() == old(self).log().push(
                ActionV::CreateSymlink { from: from@, to: to@ },
            ),
    ;

    /// Record that the link at `to` already resolves to `from` and nothing
    /// is to be done: the idempotent no-op notice.
    fn skip_link_creating(&mut self, from: &FsPath, to: &FsPath) -> (r: Result<(), DkError>)
        ensures
            r is Ok,
            final(self).cfg() == old(self).cfg(),
            final(self).log() == old(self).log().push(
                ActionV::SkipLink { from: from@, to: to@ },
            ),
    ;

    /// Record the removal of the symlink at `path` in the home tree.
    fn remove_symlink_from_home(&mut self, path: &FsPath) -> (r: Result<(), DkError>)
        ensures
            r is Ok,
            final(self).cfg() == old(self).cfg(),
            final(self).log() == old(self).log().push(ActionV::RemoveSymlink { path: path@ }),
    ;

    /// Record the displacement of the plain file at `path` into its backup
    /// slot, derived from the path's identity relative to `home_dir`; errs,
    /// recording nothing, exactly when `path` is not under `home_dir`.
    fn remove_file_from_home(&mut self, path: &FsPath) -> (r: Result<(), DkError>)
        ensures
            final(self).cfg() == old(self).cfg(),
            is_prefix_of(old(self).cfg().home_dir, path@) ==> r is Ok && final(self).log() == old(
                self,
            ).log().push(
                ActionV::RemoveFileWithBackup {
                    path: path@,
                    backup: old(self).cfg().backup_slot(path@),
                },
            ),
            !is_prefix_of(old(self).cfg().home_dir, path@) ==> r is Err && final(self).log()
                == old(self).log(),
    ;

    /// Record the recursive removal of the directory at `path`. Its
    /// contents are not backed up: a deliberate, flagged gap.
    fn remove_dir_all_from_home(&mut self, path: &FsPath) -> (r: Result<(), DkError>)
        ensures
            r is Ok,
            final(self).cfg() == old(self).cfg(),
            final(self).log() == old(self).log().push(ActionV::RemoveDirAll { path: path@ }),
    ;

    /// Record the removal of the entry of unrecognized type at `path`.
    fn remove_unknown_path_from_home(&mut self, path: &FsPath) -> (r: Result<(), DkError>)
        ensures
            r is Ok,
            final(self).cfg() == old(self).cfg(),
            final(self).log() == old(self).log().push(ActionV::RemoveUnknownPath { path: path@ }),
    ;

    /// Record the deletion of the managed entry at `path` from the
    /// repository.
    fn remove_file_from_dotfiles_home(&mut self, path: &FsPath) -> (r: Result<(), DkError>)
        ensures
            r is Ok,
            final(self).cfg() == old(self).cfg(),
            final(self).log() == old(self).log().push(ActionV::RemoveEntity { path: path@ }),
    ;

    /// Record the copy of the plain file at `from` to `to`; `from` is left
    /// untouched.
    fn copy(&mut self, from: &FsPath, to: &FsPath) -> (r: Result<(), DkError>)
        ensures
            r is Ok,
            final(self).cfg() == old(self).cfg(),
            final(self).log() == old(self).log().push(
                ActionV::CopyFile { from: from@, to: to@ },
            ),
    ;

    /// Record that `path` could not be examined and its entry is skipped.
    fn warn_cannot_determine(&mut self, path: &FsPath) -> (r: Result<(), DkError>)
        ensures
            r is Ok,
            final(self).cfg() == old(self).cfg(),
            final(self).log() == old(self).log().push(
                ActionV::WarnCannotDetermine { path: path@ },
            ),
    ;
}

/// The executor whose recorded actions the caller performs against the
/// filesystem.
pub struct RealExecutor {
    config: Config,
    actions: Vec<Action>,
}

/// The executor whose recorded actions the caller only reports: a dry run.
pub struct DryExecutor {
    pub config: Config,
    actions: Vec<Action>,
}

impl RealExecutor {
    pub fn new(config: Config) -> (r: Self)
        ensures
            r.cfg() == config@,
            r.log() == Seq::<ActionV>::empty(),
    {
        let r = RealExecutor { config, actions: Vec::new() };
        proof {
            assert(r.log() =~= Seq::<ActionV>::empty());
        }
        r
    }

    /// The recorded actions, in decision order.
    pub fn actions(&self) -> (r: &Vec<Action>)
        ensures
            log_view(r@) == self.log(),
    {
        &self.actions
    }
}

impl DryExecutor {
    pub fn new(config: Config) -> (r: Self)
        ensures
            r.cfg() == config@,
            r.log() == Seq::<ActionV>::empty(),
    {
        let r = DryExecutor { config, actions: Vec::new() };
        proof {
            assert(r.log() =~= Seq::<ActionV>::empty());
        }
        r
    }

    /// The recorded actions, in decision order.
    pub fn actions(&self) -> (r: &Vec<Action>)
        ensures
            log_view(r@) == self.log(),
    {
        &self.actions
    }
}

impl HasConfig for RealExecutor {
    closed spec fn cfg(&self) -> ConfigV {
        self.config@
    }

    fn config(&self) -> (c: &Config) {
        &self.config
    }
}

impl HasConfig for DryExecutor {
    closed spec fn cfg(&self) -> ConfigV {
        self.config@
    }

    fn config(&self) -> (c: &Config) {
        &self.config
    }
}

impl Executor for RealExecutor {
    closed spec fn log(&self) -> Seq<ActionV> {
        log_view(self.actions@)
    }

    fn home_dir(&self) -> (p: &FsPath) {
        &self.config.home_dir
    }

    fn dotfiles_home_dir(&self) -> (p: &FsPath) {
        &self.config.dotfiles_home_dir
    }

    fn backup_dir(&self) -> (p: &FsPath) {
        &self.config.backup_dir
    }

    fn create_symlink(&mut self, from: &FsPath, to: &FsPath) -> (r: Result<(), DkError>) {
        let ghost prev = self.log();
        self.actions.push(Action::CreateSymlink { from: from.clone(), to: to.clone() });
        proof {
            assert(self.log() =~= prev.push(ActionV::CreateSymlink { from: from@, to: to@ }));
        }
        Ok(())
    }

    fn skip_link_creating(&mut self, from: &FsPath, to: &FsPath) -> (r: Result<(), DkError>) {
        let ghost prev = self.log();
        self.actions.push(Action::SkipLink { from: from.clone(), to: to.clone() });
        proof {
            assert(self.log() =~= prev.push(ActionV::SkipLink { from: from@, to: to@ }));
        }
        Ok(())
    }

    fn remove_symlink_from_home(&mut self, path: &FsPath) -> (r: Result<(), DkError>) {
        let ghost prev = self.log();
        self.actions.push(Action::RemoveSymlink { path: path.clone() });
        proof {
            assert(self.log() =~= prev.push(ActionV::RemoveSymlink { path: path@ }));
        }
        Ok(())
    }

    fn remove_file_from_home(&mut self, path: &FsPath) -> (r: Result<(), DkError>) {
        let suffix = path.strip_prefix(&self.config.home_dir)?;
        let backup = self.config.backup_dir.join(&suffix);
        let ghost prev = self.log();
        self.actions.push(
            Action::RemoveFileWithBackup { path: path.clone(), backup },
        );
        proof {
            assert(self.log() =~= prev.push(
                ActionV::RemoveFileWithBackup {
                    path: path@,
                    backup: self.cfg().backup_slot(path@),
                },
            ));
        }
        Ok(())
    }

    fn remove_dir_all_from_home(&mut self, path: &FsPath) -> (r: Result<(), DkError>) {
        let ghost prev = self.log();
        self.actions.push(Action::RemoveDirAll { path: path.clone() });
        proof {
            assert(self.log() =~= prev.push(ActionV::RemoveDirAll { path: path@ }));
        }
        Ok(())
    }

    fn remove_unknown_path_from_home(&mut self, path: &FsPath) -> (r: Result<(), DkError>) {
        let ghost prev = self.log();
        self.actions.push(Action::RemoveUnknownPath { path: path.clone() });
        proof {
            assert(self.log() =~= prev.push(ActionV::RemoveUnknownPath { path: path@ }));
        }
        Ok(())
    }

    fn remove_file_from_dotfiles_home(&mut self, path: &FsPath) -> (r: Result<(), DkError>) {
        let ghost prev = self.log();
        self.actions.push(Action::RemoveEntity { path: path.clone() });
        proof {
            assert(self.log() =~= prev.push(ActionV::RemoveEntity { path: path@ }));
        }
        Ok(())
    }

    fn copy(&mut self, from: &FsPath, to: &FsPath) -> (r: Result<(), DkError>) {
        let ghost prev = self.log();
        self.actions.push(Action::CopyFile { from: from.clone(), to: to.clone() });
        proof {
            assert(self.log() =~= prev.push(ActionV::CopyFile { from: from@, to: to@ }));
        }
        Ok(())
    }

    fn warn_cannot_determine(&mut self, path: &FsPath) -> (r: Result<(), DkError>) {
        let ghost prev = self.log();
        self.actions.push(Action::WarnCannotDetermine { path: path.clone() });
        proof {
            assert(self.log() =~= prev.push(ActionV::WarnCannotDetermine { path: path@ }));
        }
        Ok(())
    }
}

impl Executor for DryExecutor {
    closed spec fn log(&self) -> Seq<ActionV> {
        log_view(self.actions@)
    }

    fn home_dir(&self) -> (p: &FsPath) {
        &self.config.home_dir
    }

    fn dotfiles_home_dir(&self) -> (p: &FsPath) {
        &self.config.dotfiles_home_dir
    }

    fn backup_dir(&self) -> (p: &FsPath) {
        &self.config.backup_dir
    }

    fn create_symlink(&mut self, from: &FsPath, to: &FsPath) -> (r: Result<(), DkError>) {
        let ghost prev = self.log();
        self.actions.push(Action::CreateSymlink { from: from.clone(), to: to.clone() });
        proof {
            assert(self.log() =~= prev.push(ActionV::CreateSymlink { from: from@, to: to@ }));
        }
        Ok(())
    }

    fn skip_link_creating(&mut self, from: &FsPath, to: &FsPath) -> (r: Result<(), DkError>) {
        let ghost prev = self.log();
        self.actions.push(Action::SkipLink { from: from.clone(), to: to.clone() });
        proof {
            assert(self.log() =~= prev.push(ActionV::SkipLink { from: from@, to: to@ }));
        }
        Ok(())
    }

    fn remove_symlink_from_home(&mut self, path: &FsPath) -> (r: Result<(), DkError>) {
        let ghost prev = self.log();
        self.actions.push(Action::RemoveSymlink { path: path.clone() });
        proof {
            assert(self.log() =~= prev.push(ActionV::RemoveSymlink { path: path@ }));
        }
        Ok(())
    }

    fn remove_file_from_home(&mut self, path: &FsPath) -> (r: Result<(), DkError>) {
        let suffix = path.strip_prefix(&self.config.home_dir)?;
        let backup = self.config.backup_dir.join(&suffix);
        let ghost prev = self.log();
        self.actions.push(
            Action::RemoveFileWithBackup { path: path.clone(), backup },
        );
        proof {
            assert(self.log() =~= prev.push(
                ActionV::RemoveFileWithBackup {
                    path: path@,
                    backup: self.cfg().backup_slot(path@),
                },
            ));
        }
        Ok(())
    }

    fn remove_dir_all_from_home(&mut self, path: &FsPath) -> (r: Result<(), DkError>) {
        let ghost prev = self.log();
        self.actions.push(Action::RemoveDirAll { path: path.clone() });
        proof {
            assert(self.log() =~= prev.push(ActionV::RemoveDirAll { path: path@ }));
        }
        Ok(())
    }

    fn remove_unknown_path_from_home(&mut self, path: &FsPath) -> (r: Result<(), DkError>) {
        let ghost prev = self.log();
        self.actions.push(Action::RemoveUnknownPath { path: path.clone() });
        proof {
            assert(self.log() =~= prev.push(ActionV::RemoveUnknownPath { path: path@ }));
        }
        Ok(())
    }

    fn remove_file_from_dotfiles_home(&mut self, path: &FsPath) -> (r: Result<(), DkError>) {
        let ghost prev = self.log();
        self.actions.push(Action::RemoveEntity { path: path.clone() });
        proof {
            assert(self.log() =~= prev.push(ActionV::RemoveEntity { path: path@ }));
        }
        Ok(())
    }

    fn copy(&mut self, from: &FsPath, to: &FsPath) -> (r: Result<(), DkError>) {
        let ghost prev = self.log();
        self.actions.push(Action::CopyFile { from: from.clone(), to: to.clone() });
        proof {
            assert(self.log() =~= prev.push(ActionV::CopyFile { from: from@, to: to@ }));
        }
        Ok(())
    }

    fn warn_cannot_determine(&mut self, path: &FsPath) -> (r: Result<(), DkError>) {
        let ghost prev = self.log();
        self.actions.push(Action::WarnCannotDetermine { path: path.clone() });
        proof {
            assert(self.log() =~= prev.push(ActionV::WarnCannotDetermine { path: path@ }));
        }
        Ok(())
    }
}

} // verus!
