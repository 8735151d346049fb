//! The Install transition: materialize every managed entry as a symlink in
//! the home tree.
//!
//! The caller surveys the filesystem first: for each managed entry it
//! reports whether the installed path already resolves to the entry
//! (`points_to`) and, if not, what kind of entry occupies that path. The
//! engine turns the survey into actions — skip, remove whatever is in the
//! way (backing up a plain file), then link — and records them through the
//! executor. The whole decision is a function of the configuration and the
//! survey alone, stated by [`install_plan`], so a dry run records exactly
//! what a real run would perform.

use vstd::prelude::*;

use crate::DkError;
use crate::action::ActionV;
use crate::config::ConfigV;
use crate::executor::Executor;
use crate::file_kind::FileKind;
use crate::paths::FsPath;
use crate::paths::is_prefix_of;

verus! {

/// The surveyed state of one managed entry: the absolute repository path of
/// the entry (a regular file under `dotfiles_home_dir`), whether its
/// installed path already resolves to it by filesystem identity, and the
/// classification of whatever occupies the installed path.
pub struct SurveyEntry {
    pub from: FsPath,
    pub points_to: bool,
    pub kind: FileKind,
}

/// The mathematical content of a survey entry.
pub struct SurveyEntryV {
    pub from: Seq<Seq<u8>>,
    pub points_to: bool,
    pub kind: FileKind,
}

impl View for SurveyEntry {
    type V = SurveyEntryV;

    open spec fn view(&self) -> SurveyEntryV {
        SurveyEntryV { from: self.from@, points_to: self.points_to, kind: self.kind }
    }
}

/// The views of the surveyed entries, in order.
pub open spec fn survey_view(entries: Seq<SurveyEntry>) -> Seq<SurveyEntryV> {
    Seq::new(entries.len(), |i: int| entries[i]@)
}

/// The transition table for one managed entry. An already-correct link is
/// only reported; an occupied installed path is first cleared — a symlink
/// unlinked, a plain file displaced into its backup slot, a directory
/// removed recursively, an entry of unknown type removed with a warning —
/// and the link is then created; an entry that could not be examined aborts
/// this entry with a warning and no link is created.
pub open spec fn install_entry_plan(cfg: ConfigV, e: SurveyEntryV) -> Seq<ActionV> {
    let to = cfg.installed_path(e.from);
    if e.points_to {
        seq![ActionV::SkipLink { from: e.from, to }]
    } else {
        match e.kind {
            FileKind::Symlink => seq![
                ActionV::RemoveSymlink { path: to },
                ActionV::CreateSymlink { from: e.from, to },
            ],
            FileKind::File => seq![
                ActionV::RemoveFileWithBackup { path: to, backup: cfg.entity_backup_slot(e.from) },
                ActionV::CreateSymlink { from: e.from, to },
            ],
            FileKind::Dir => seq![
                ActionV::RemoveDirAll { path: to },
                ActionV::CreateSymlink { from: e.from, to },
            ],
            FileKind::Unknown => seq![
                ActionV::RemoveUnknownPath { path: to },
                ActionV::CreateSymlink { from: e.from, to },
            ],
            FileKind::NotFound => seq![ActionV::CreateSymlink { from: e.from, to }],
            FileKind::Error => seq![ActionV::WarnCannotDetermine { path: to }],
        }
    }
}

/// Everything one Install run records: the entries' plans, in survey order.
pub open spec fn install_plan(cfg: ConfigV, entries: Seq<SurveyEntryV>) -> Seq<ActionV>
    decreases entries.len(),
{
    if entries.len() == 0 {
        Seq::empty()
    } else {
        install_plan(cfg, entries.drop_last()) + install_entry_plan(cfg, entries.last())
    }
}

/// Installs every surveyed managed entry, one at a time, in order. Records
/// exactly `install_plan` of the survey: the same actions whichever
/// executor is driven. Entries that could not be examined are skipped with
/// a warning; they never abort the walk.
pub fn install<E: Executor>(executor: &mut E, entries: &Vec<SurveyEntry>) -> (r: Result<
    (),
    DkError,
>)
    requires
        forall|i: int|
            0 <= i < entries@.len() ==> is_prefix_of(
                old(executor).cfg().dotfiles_home_dir,
                #[trigger] entries@[i].from@,
            ),
    ensures
        r is Ok,
        final(executor).cfg() == old(executor).cfg(),
        final(executor).log() == old(executor).log() + install_plan(
            old(executor).cfg(),
            survey_view(entries@),
        ),
{
    let cfg = executor.config().clone();
    let ghost cfg_v = old(executor).cfg();
    let ghost log0 = old(executor).log();
    let mut i: usize = 0;
    while i < entries.len()
        invariant
            0 <= i <= entries@.len(),
            cfg@ == cfg_v,
            executor.cfg() == cfg_v,
            executor.log() == log0 + install_plan(cfg_v, survey_view(entries@).take(i as int)),
            forall|k: int|
                0 <= k < entries@.len() ==> is_prefix_of(
                    cfg_v.dotfiles_home_dir,
                    #[trigger] entries@[k].from@,
                ),
        decreases entries@.len() - i,
    {
        let entry = &entries[i];
        let from = &entry.from;
        let rel = from.strip_prefix(&cfg.dotfiles_home_dir)?;
        let to = cfg.home_dir.join(&rel);
        proof {
            assert(to@ == cfg_v.installed_path(from@));
            assert(is_prefix_of(cfg_v.home_dir, to@));
            assert(cfg_v.backup_slot(to@) =~= cfg_v.backup_dir + cfg_v.rel_of_entity(from@));
        }
        if entry.points_to {
            executor.skip_link_creating(from, &to)?;
        } else {
            match entry.kind {
                FileKind::Symlink => {
                    executor.remove_symlink_from_home(&to)?;
                    executor.create_symlink(from, &to)?;
                },
                FileKind::File => {
                    executor.remove_file_from_home(&to)?;
                    executor.create_symlink(from, &to)?;
                },
                FileKind::Dir => {
                    executor.remove_dir_all_from_home(&to)?;
                    executor.create_symlink(from, &to)?;
                },
                FileKind::Unknown => {
                    executor.remove_unknown_path_from_home(&to)?;
                    executor.create_symlink(from, &to)?;
                },
                FileKind::NotFound => {
                    executor.create_symlink(from, &to)?;
                },
                FileKind::Error => {
                    executor.warn_cannot_determine(&to)?;
                },
            }
        }
        proof {
            let sv = survey_view(entries@);
            assert(sv.take(i + 1).drop_last() =~= sv.take(i as int));
            assert(sv.take(i + 1).last() == sv[i as int]);
            assert(executor.log() =~= log0 + install_plan(cfg_v, sv.take(i + 1)));
        }
        i += 1;
    }
    proof {
        assert(survey_view(entries@).take(entries@.len() as int) =~= survey_view(entries@));
    }
    Ok(())
}

} // verus!
