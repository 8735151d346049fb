//! Reconciles a version-controlled dotfiles repository with a home
//! directory: every managed file in the repository is materialized as a
//! symbolic link in the home tree, and conflicting pre-existing files are
//! displaced into a backup tree first.
//!
//! The library holds the decision logic only: path mapping between the
//! repository, home and backup trees, classification of filesystem entries,
//! and the install/add/remove transitions. Every mutating step is emitted as
//! an [`action::Action`] through an [`executor::Executor`]; the caller
//! observes the filesystem and later performs (or merely prints) the
//! recorded actions.

pub mod action;
pub mod add;
pub mod config;
pub mod executor;
pub mod file_kind;
pub mod install;
pub mod laws;
pub mod model;
pub mod paths;
pub mod remove;

pub use action::Action;
pub use action::ActionV;
pub use add::AddOutcome;
pub use add::add;
pub use config::Config;
pub use config::ConfigV;
pub use executor::DryExecutor;
pub use executor::Executor;
pub use executor::HasConfig;
pub use executor::RealExecutor;
pub use file_kind::FileId;
pub use file_kind::FileKind;
pub use file_kind::Stat;
pub use file_kind::file_kind;
pub use file_kind::is_dir;
pub use file_kind::is_error_path;
pub use file_kind::is_file;
pub use file_kind::is_symlink;
pub use file_kind::is_unknown;
pub use file_kind::path_exists;
pub use install::SurveyEntry;
pub use install::SurveyEntryV;
pub use install::install;
pub use paths::FsPath;
pub use remove::remove;

use vstd::prelude::*;

verus! {

/// The errors the reconciliation logic can report. Scope violations are
/// fatal for the operation that raised them; nothing is mutated.
#[derive(Clone, Copy, Debug, PartialEq, Eq, Structural)]
pub enum DkError {
    /// A path was expected to lie under a given root and does not.
    PrefixMismatch,
    /// `add` was given a path outside the home directory.
    NotUnderHome,
    /// `add` was given a path already inside the repository's home mirror.
    AlreadyManaged,
    /// `remove` was given a path outside the repository's home mirror.
    NotUnderDotfilesHome,
    /// The configured `dotfiles_home_dir` does not lie under `dotfiles_dir`.
    DotfilesHomeNotUnderDotfiles,
    /// The four configured directories are not pairwise distinct.
    DirsNotDistinct,
}

} // verus!
