//! The laws of the reconciliation engine, stated over the filesystem model
//! and proved of the plans the engine records.
//!
//! Each theorem speaks of `install_plan`, `add_plan` and `remove_plan` — the
//! very functions the engine's contracts pin its recorded actions to — and
//! of [`crate::model::apply_actions`], the meaning of performing them.

use vstd::prelude::*;

use crate::action::ActionV;
use crate::add::add_plan;
use crate::config::ConfigV;
use crate::file_kind::FileKind;
use crate::install::SurveyEntryV;
use crate::install::install_entry_plan;
use crate::install::install_plan;
use crate::model::FsModel;
use crate::model::Node;
use crate::model::action_touches;
use crate::model::apply_action;
use crate::model::apply_actions;
use crate::model::broken_link;
use crate::model::classify;
use crate::model::ident;
use crate::model::lemma_actions_frame;
use crate::model::lemma_apply_concat;
use crate::model::link_destination;
use crate::model::links_to;
use crate::model::same_at;
use crate::model::survey_entry_of;
use crate::model::survey_of;
use crate::paths::is_prefix_of;
use crate::paths::lemma_append_left_cancel;
use crate::paths::lemma_append_right_cancel;
use crate::remove::remove_plan;

verus! {

/// No entry's Install actions touch `p`: `p` is not at or under any
/// installed path, and is no entry's backup slot.
pub open spec fn untouched_by_install(
    cfg: ConfigV,
    froms: Seq<Seq<Seq<u8>>>,
    p: Seq<Seq<u8>>,
) -> bool {
    forall|j: int|
        0 <= j < froms.len() ==> !is_prefix_of(cfg.installed_path(#[trigger] froms[j]), p) && p
            != cfg.entity_backup_slot(froms[j])
}

/// Every entry is a path strictly under the repository's home mirror.
pub open spec fn entries_in_repo(cfg: ConfigV, froms: Seq<Seq<Seq<u8>>>) -> bool {
    forall|i: int|
        0 <= i < froms.len() ==> is_prefix_of(cfg.dotfiles_home_dir, #[trigger] froms[i])
            && cfg.dotfiles_home_dir.len() < froms[i].len()
}

/// Every entry is stored as a regular file.
pub open spec fn entries_are_files(fs: FsModel, froms: Seq<Seq<Seq<u8>>>) -> bool {
    forall|i: int|
        0 <= i < froms.len() ==> fs.dom().contains(#[trigger] froms[i]) && fs[froms[i]]
            is RegularFile
}

/// No installed path lies at or under another entry's: the entries are
/// distinct files of one tree, never nested.
pub open spec fn installed_prefix_free(cfg: ConfigV, froms: Seq<Seq<Seq<u8>>>) -> bool {
    forall|i: int, j: int|
        0 <= i < froms.len() && 0 <= j < froms.len() && i != j ==> !is_prefix_of(
            cfg.installed_path(#[trigger] froms[i]),
            cfg.installed_path(#[trigger] froms[j]),
        )
}

/// The stored entries themselves are out of Install's way: no action ever
/// touches a repository file.
pub open spec fn entities_untouched(cfg: ConfigV, froms: Seq<Seq<Seq<u8>>>) -> bool {
    forall|i: int|
        0 <= i < froms.len() ==> untouched_by_install(cfg, froms, #[trigger] froms[i])
}

/// No entry's backup slot is at or under another entry's installed path.
pub open spec fn backups_untouched_by_others(cfg: ConfigV, froms: Seq<Seq<Seq<u8>>>) -> bool {
    forall|i: int, j: int|
        0 <= i < froms.len() && 0 <= j < froms.len() && i != j ==> !is_prefix_of(
            cfg.installed_path(#[trigger] froms[j]),
            cfg.entity_backup_slot(#[trigger] froms[i]),
        )
}

/// No installed path is an entry's backup slot.
pub open spec fn installs_are_not_backups(cfg: ConfigV, froms: Seq<Seq<Seq<u8>>>) -> bool {
    forall|i: int, j: int|
        0 <= i < froms.len() && 0 <= j < froms.len() ==> cfg.installed_path(#[trigger] froms[i])
            != cfg.entity_backup_slot(#[trigger] froms[j])
}

/// Where an installed path already resolves to its entry, the file the link
/// resolves to is out of Install's way too.
pub open spec fn kept_destinations_untouched(
    fs: FsModel,
    cfg: ConfigV,
    froms: Seq<Seq<Seq<u8>>>,
) -> bool {
    forall|i: int|
        0 <= i < froms.len() && links_to(fs, cfg.installed_path(#[trigger] froms[i]), froms[i])
            ==> untouched_by_install(
            cfg,
            froms,
            link_destination(fs, cfg.installed_path(froms[i])),
        )
}

/// The managed entries and the three trees stand apart enough for Install's
/// actions not to interfere with one another: distinct, non-nested
/// installed paths; repository files, kept link destinations and backup
/// slots out of every action's way. This holds of any sane layout; it fails
/// only where one tree reaches into another, such as a backup directory
/// inside the home tree at a managed path.
pub open spec fn install_separated(fs: FsModel, cfg: ConfigV, froms: Seq<Seq<Seq<u8>>>) -> bool {
    &&& entries_in_repo(cfg, froms)
    &&& entries_are_files(fs, froms)
    &&& installed_prefix_free(cfg, froms)
    &&& entities_untouched(cfg, froms)
    &&& backups_untouched_by_others(cfg, froms)
    &&& installs_are_not_backups(cfg, froms)
    &&& kept_destinations_untouched(fs, cfg, froms)
}

/// Performing one action.
proof fn lemma_apply_one(fs: FsModel, a: ActionV, fresh: int)
    ensures
        apply_actions(fs, seq![a], fresh) == apply_action(fs, a, fresh),
{
    let s = seq![a];
    assert(s.len() == 1);
    assert(s.last() == a);
    assert(s.drop_last().len() == 0);
    assert(apply_actions(fs, s.drop_last(), fresh) == fs);
}

/// Performing two actions in order.
proof fn lemma_apply_two(fs: FsModel, a: ActionV, b: ActionV, fresh: int)
    ensures
        apply_actions(fs, seq![a, b], fresh) == apply_action(
            apply_action(fs, a, fresh),
            b,
            fresh,
        ),
{
    assert(seq![a, b].drop_last() =~= seq![a]);
    lemma_apply_one(fs, a, fresh);
}

/// One entry's Install actions leave every path outside the entry's
/// installed subtree and backup slot as it was.
proof fn lemma_entry_frame(fs: FsModel, cfg: ConfigV, e: SurveyEntryV, fresh: int, p: Seq<Seq<u8>>)
    requires
        !is_prefix_of(cfg.installed_path(e.from), p),
        p != cfg.entity_backup_slot(e.from),
    ensures
        same_at(fs, apply_actions(fs, install_entry_plan(cfg, e), fresh), p),
{
    let plan = install_entry_plan(cfg, e);
    assert forall|i: int| 0 <= i < plan.len() implies !action_touches(#[trigger] plan[i], p) by {
        if !e.points_to {
            match e.kind {
                FileKind::Symlink => {},
                FileKind::File => {},
                FileKind::Dir => {},
                FileKind::Unknown => {},
                FileKind::NotFound => {},
                FileKind::Error => {},
            }
        }
    }
    lemma_actions_frame(fs, plan, fresh, p);
}

/// The filesystem after the first `k` surveyed entries' actions.
pub open spec fn fs_after(
    fs: FsModel,
    cfg: ConfigV,
    froms: Seq<Seq<Seq<u8>>>,
    k: int,
    fresh: int,
) -> FsModel {
    apply_actions(fs, install_plan(cfg, survey_of(fs, cfg, froms).take(k)), fresh)
}

/// What holds after the first `k` entries: every processed installed path
/// is the original, already-correct link or the newly created one; every
/// displaced plain file sits in its backup slot; everything still to be
/// processed — and every repository file and kept link destination — is as
/// it was.
spec fn install_inv(fs: FsModel, cfg: ConfigV, froms: Seq<Seq<Seq<u8>>>, k: int, fresh: int) -> bool {
    let fsk = fs_after(fs, cfg, froms, k, fresh);
    &&& forall|i: int|
        0 <= i < k && links_to(fs, cfg.installed_path(#[trigger] froms[i]), froms[i]) ==> same_at(
            fs,
            fsk,
            cfg.installed_path(froms[i]),
        )
    &&& forall|i: int|
        0 <= i < k && !links_to(fs, cfg.installed_path(#[trigger] froms[i]), froms[i]) ==> {
            &&& fsk.dom().contains(cfg.installed_path(froms[i]))
            &&& fsk[cfg.installed_path(froms[i])] == (Node::Link {
                dest: froms[i],
                absolute: true,
            })
        }
    &&& forall|i: int|
        0 <= i < k && classify(fs, cfg.installed_path(#[trigger] froms[i])) == FileKind::File ==> {
            &&& fsk.dom().contains(cfg.entity_backup_slot(froms[i]))
            &&& fsk[cfg.entity_backup_slot(froms[i])] == fs[cfg.installed_path(froms[i])]
        }
    &&& forall|i: int|
        k <= i < froms.len() ==> same_at(fs, fsk, cfg.installed_path(#[trigger] froms[i]))
    &&& forall|i: int| 0 <= i < froms.len() ==> same_at(fs, fsk, #[trigger] froms[i])
    &&& forall|i: int|
        0 <= i < froms.len() && links_to(fs, cfg.installed_path(#[trigger] froms[i]), froms[i])
            ==> same_at(fs, fsk, link_destination(fs, cfg.installed_path(froms[i])))
}

/// An entry's installed path and its backup slot differ: the home and
/// backup directories are distinct.
proof fn lemma_to_differs_from_backup(cfg: ConfigV, from: Seq<Seq<u8>>)
    requires
        cfg.wf(),
    ensures
        cfg.installed_path(from) != cfg.entity_backup_slot(from),
{
    if cfg.installed_path(from) == cfg.entity_backup_slot(from) {
        lemma_append_right_cancel(cfg.home_dir, cfg.backup_dir, cfg.rel_of_entity(from));
    }
}

/// Distinct entries have distinct backup slots.
proof fn lemma_backups_differ(cfg: ConfigV, froms: Seq<Seq<Seq<u8>>>, i: int, j: int)
    requires
        installed_prefix_free(cfg, froms),
        0 <= i < froms.len(),
        0 <= j < froms.len(),
        i != j,
    ensures
        cfg.entity_backup_slot(froms[i]) != cfg.entity_backup_slot(froms[j]),
{
    if cfg.entity_backup_slot(froms[i]) == cfg.entity_backup_slot(froms[j]) {
        lemma_append_left_cancel(
            cfg.backup_dir,
            cfg.rel_of_entity(froms[i]),
            cfg.rel_of_entity(froms[j]),
        );
        assert(cfg.installed_path(froms[i]) == cfg.installed_path(froms[j]));
        assert(is_prefix_of(cfg.installed_path(froms[i]), cfg.installed_path(froms[j])));
    }
}

/// The induction: processing the entries in order establishes and then
/// preserves the invariant.
proof fn lemma_install_inv(fs: FsModel, cfg: ConfigV, froms: Seq<Seq<Seq<u8>>>, k: int, fresh: int)
    requires
        cfg.wf(),
        install_separated(fs, cfg, froms),
        0 <= k <= froms.len(),
    ensures
        install_inv(fs, cfg, froms, k, fresh),
    decreases k,
{
    let sv = survey_of(fs, cfg, froms);
    if k == 0 {
        assert(sv.take(0).len() == 0);
        assert(fs_after(fs, cfg, froms, 0, fresh) == fs);
    } else {
        lemma_install_inv(fs, cfg, froms, k - 1, fresh);
        let fsk1 = fs_after(fs, cfg, froms, k - 1, fresh);
        let e = sv[k - 1];
        let from = froms[k - 1];
        let to = cfg.installed_path(from);
        let bk = cfg.entity_backup_slot(from);
        let eplan = install_entry_plan(cfg, e);
        assert(e == survey_entry_of(fs, cfg, from));
        assert(sv.take(k).drop_last() =~= sv.take(k - 1));
        assert(sv.take(k).last() == e);
        assert(install_plan(cfg, sv.take(k)) == install_plan(cfg, sv.take(k - 1)) + eplan);
        lemma_apply_concat(fs, install_plan(cfg, sv.take(k - 1)), eplan, fresh);
        let fsk = apply_actions(fsk1, eplan, fresh);
        assert(fs_after(fs, cfg, froms, k, fresh) == fsk);

        // The entry's own effect.
        assert(same_at(fs, fsk1, to));
        assert(same_at(fs, fsk1, from));
        lemma_to_differs_from_backup(cfg, from);
        if e.points_to {
            lemma_apply_one(fsk1, eplan[0], fresh);
            assert(fsk == fsk1);
        } else {
            match e.kind {
                FileKind::Symlink => {
                    lemma_apply_two(fsk1, eplan[0], eplan[1], fresh);
                    assert(fsk == fsk1.remove(to).insert(
                        to,
                        Node::Link { dest: from, absolute: true },
                    ));
                },
                FileKind::File => {
                    lemma_apply_two(fsk1, eplan[0], eplan[1], fresh);
                    assert(fs.dom().contains(to) && fs[to] is RegularFile);
                    assert(fsk1.dom().contains(to) && fsk1[to] == fs[to]);
                    assert(fsk == fsk1.remove(to).insert(bk, fsk1[to]).insert(
                        to,
                        Node::Link { dest: from, absolute: true },
                    ));
                    assert(fsk.dom().contains(bk) && fsk[bk] == fs[to]);
                },
                FileKind::Dir => {
                    lemma_apply_two(fsk1, eplan[0], eplan[1], fresh);
                },
                FileKind::Unknown => {
                    lemma_apply_two(fsk1, eplan[0], eplan[1], fresh);
                },
                FileKind::NotFound => {
                    lemma_apply_one(fsk1, eplan[0], fresh);
                },
                FileKind::Error => {
                    assert(false);
                },
            }
            assert(fsk.dom().contains(to) && fsk[to] == (Node::Link {
                dest: from,
                absolute: true,
            }));
        }

        // Everything else is untouched by this entry's actions.
        assert forall|i: int|
            0 <= i < k - 1 && links_to(
                fs,
                cfg.installed_path(#[trigger] froms[i]),
                froms[i],
            ) implies same_at(fs, fsk, cfg.installed_path(froms[i])) by {
            lemma_entry_frame(fsk1, cfg, e, fresh, cfg.installed_path(froms[i]));
        }
        assert forall|i: int|
            0 <= i < k - 1 && !links_to(fs, cfg.installed_path(#[trigger] froms[i]), froms[i])
                implies {
                &&& fsk.dom().contains(cfg.installed_path(froms[i]))
                &&& fsk[cfg.installed_path(froms[i])] == (Node::Link {
                    dest: froms[i],
                    absolute: true,
                })
            } by {
            lemma_entry_frame(fsk1, cfg, e, fresh, cfg.installed_path(froms[i]));
        }
        assert forall|i: int|
            0 <= i < k - 1 && classify(fs, cfg.installed_path(#[trigger] froms[i]))
                == FileKind::File implies {
                &&& fsk.dom().contains(cfg.entity_backup_slot(froms[i]))
                &&& fsk[cfg.entity_backup_slot(froms[i])] == fs[cfg.installed_path(froms[i])]
            } by {
            lemma_backups_differ(cfg, froms, i, k - 1);
            lemma_entry_frame(fsk1, cfg, e, fresh, cfg.entity_backup_slot(froms[i]));
        }
        assert forall|i: int|
            k <= i < froms.len() implies same_at(fs, fsk, cfg.installed_path(
            #[trigger] froms[i],
        )) by {
            lemma_entry_frame(fsk1, cfg, e, fresh, cfg.installed_path(froms[i]));
        }
        assert forall|i: int| 0 <= i < froms.len() implies same_at(fs, fsk, #[trigger] froms[i]) by {
            assert(untouched_by_install(cfg, froms, froms[i]));
            lemma_entry_frame(fsk1, cfg, e, fresh, froms[i]);
        }
        assert forall|i: int|
            0 <= i < froms.len() && links_to(
                fs,
                cfg.installed_path(#[trigger] froms[i]),
                froms[i],
            ) implies same_at(fs, fsk, link_destination(fs, cfg.installed_path(froms[i]))) by {
            assert(untouched_by_install(
                cfg,
                froms,
                link_destination(fs, cfg.installed_path(froms[i])),
            ));
            lemma_entry_frame(fsk1, cfg, e, fresh, link_destination(fs, cfg.installed_path(froms[i])));
        }
    }
}

/// After Install, every managed entry's installed path is a symlink
/// resolving to the entry, and every plain file that was in the way sits
/// unchanged in its backup slot while the installed path is the new link:
/// displacement loses nothing.
pub proof fn lemma_install_establishes_links(
    fs: FsModel,
    cfg: ConfigV,
    froms: Seq<Seq<Seq<u8>>>,
    fresh: int,
)
    requires
        cfg.wf(),
        install_separated(fs, cfg, froms),
    ensures
        ({
            let fs2 = apply_actions(fs, install_plan(cfg, survey_of(fs, cfg, froms)), fresh);
            &&& forall|i: int|
                0 <= i < froms.len() ==> links_to(
                    fs2,
                    cfg.installed_path(#[trigger] froms[i]),
                    froms[i],
                )
            &&& forall|i: int|
                0 <= i < froms.len() && classify(fs, cfg.installed_path(#[trigger] froms[i]))
                    == FileKind::File ==> {
                    &&& fs2.dom().contains(cfg.entity_backup_slot(froms[i]))
                    &&& fs2[cfg.entity_backup_slot(froms[i])] == fs[cfg.installed_path(froms[i])]
                }
        }),
{
    let n = froms.len() as int;
    let sv = survey_of(fs, cfg, froms);
    lemma_install_inv(fs, cfg, froms, n, fresh);
    assert(sv.take(n) =~= sv);
    let fs2 = apply_actions(fs, install_plan(cfg, sv), fresh);
    assert(fs2 == fs_after(fs, cfg, froms, n, fresh));
    assert forall|i: int|
        0 <= i < n implies links_to(fs2, cfg.installed_path(#[trigger] froms[i]), froms[i]) by {
        let from = froms[i];
        let to = cfg.installed_path(from);
        assert(same_at(fs, fs2, from));
        if links_to(fs, to, from) {
            let d = link_destination(fs, to);
            assert(same_at(fs, fs2, to));
            assert(same_at(fs, fs2, d));
            assert(link_destination(fs2, to) == d);
            assert(ident(fs2, d) == ident(fs, d));
            assert(ident(fs2, from) == ident(fs, from));
        } else {
            assert(fs2.dom().contains(to) && fs2[to] == (Node::Link {
                dest: from,
                absolute: true,
            }));
            assert(link_destination(fs2, to) == from);
            assert(fs.dom().contains(from) && fs[from] is RegularFile);
            assert(ident(fs2, from) is Some);
        }
    }
}

/// A plan over entries whose links are all already correct is nothing but
/// skip notices.
proof fn lemma_plan_all_skips(cfg: ConfigV, entries: Seq<SurveyEntryV>)
    requires
        forall|i: int| 0 <= i < entries.len() ==> (#[trigger] entries[i]).points_to,
    ensures
        install_plan(cfg, entries).len() == entries.len(),
        forall|k: int|
            0 <= k < install_plan(cfg, entries).len() ==> install_plan(cfg, entries)[k]
                is SkipLink,
    decreases entries.len(),
{
    if entries.len() > 0 {
        lemma_plan_all_skips(cfg, entries.drop_last());
        assert(install_plan(cfg, entries) == install_plan(cfg, entries.drop_last())
            + install_entry_plan(cfg, entries.last()));
        assert(install_entry_plan(cfg, entries.last()) == seq![
            ActionV::SkipLink {
                from: entries.last().from,
                to: cfg.installed_path(entries.last().from),
            },
        ]);
    }
}

/// A sequence of skip notices changes nothing.
proof fn lemma_skips_change_nothing(fs: FsModel, s: Seq<ActionV>, fresh: int)
    requires
        forall|k: int| 0 <= k < s.len() ==> (#[trigger] s[k]) is SkipLink,
    ensures
        apply_actions(fs, s, fresh) == fs,
    decreases s.len(),
{
    if s.len() > 0 {
        lemma_skips_change_nothing(fs, s.drop_last(), fresh);
    }
}

/// Idempotence: after one Install, every entry's installed path already
/// resolves to it, so a second Install's survey takes the skip branch
/// everywhere: its plan holds no link creation — nothing but skip notices —
/// and performing it leaves the filesystem exactly as the first run did.
pub proof fn lemma_install_idempotent(
    fs: FsModel,
    cfg: ConfigV,
    froms: Seq<Seq<Seq<u8>>>,
    fresh: int,
)
    requires
        cfg.wf(),
        install_separated(fs, cfg, froms),
    ensures
        ({
            let fs2 = apply_actions(fs, install_plan(cfg, survey_of(fs, cfg, froms)), fresh);
            let again = install_plan(cfg, survey_of(fs2, cfg, froms));
            &&& forall|i: int|
                0 <= i < froms.len() ==> (#[trigger] survey_of(fs2, cfg, froms)[i]).points_to
            &&& again.len() == froms.len()
            &&& forall|k: int| 0 <= k < again.len() ==> (#[trigger] again[k]) is SkipLink
            &&& apply_actions(fs2, again, fresh) == fs2
        }),
{
    lemma_install_establishes_links(fs, cfg, froms, fresh);
    let fs2 = apply_actions(fs, install_plan(cfg, survey_of(fs, cfg, froms)), fresh);
    let sv2 = survey_of(fs2, cfg, froms);
    assert forall|i: int| 0 <= i < froms.len() implies (#[trigger] sv2[i]).points_to by {
        assert(links_to(fs2, cfg.installed_path(froms[i]), froms[i]));
    }
    lemma_plan_all_skips(cfg, sv2);
    lemma_skips_change_nothing(fs2, install_plan(cfg, sv2), fresh);
}

/// Add then Remove is a round trip: adopting a home file and then
/// withdrawing the repository copy puts the filesystem back exactly as it
/// was — the copy is gone and nothing else ever changed.
pub proof fn lemma_add_remove_round_trip(fs: FsModel, cfg: ConfigV, p: Seq<Seq<u8>>, fresh: int)
    requires
        cfg.wf(),
        is_prefix_of(cfg.home_dir, p),
        !is_prefix_of(cfg.dotfiles_home_dir, p),
        classify(fs, p) == FileKind::File,
        !fs.dom().contains(cfg.entity_path(p)),
    ensures
        ({
            let ep = cfg.entity_path(p);
            let fs1 = apply_actions(fs, add_plan(cfg, p, FileKind::File, false), fresh);
            let to = cfg.installed_path(ep);
            let fs2 = apply_actions(
                fs1,
                remove_plan(cfg, ep, links_to(fs1, to, ep), broken_link(fs1, to)),
                fresh,
            );
            &&& fs1.dom().contains(ep)
            &&& !fs2.dom().contains(ep)
            &&& fs2 == fs
        }),
{
    let ep = cfg.entity_path(p);
    let rel = cfg.rel_of_installed(p);
    crate::paths::lemma_strip_join(cfg.home_dir, p);
    crate::paths::lemma_join_strip(cfg.dotfiles_home_dir, rel);
    let to = cfg.installed_path(ep);
    assert(cfg.rel_of_entity(ep) =~= rel);
    assert(to =~= p);
    let plan1 = add_plan(cfg, p, FileKind::File, false);
    assert(plan1 == seq![ActionV::CopyFile { from: p, to: ep }]);
    lemma_apply_one(fs, plan1[0], fresh);
    let fs1 = apply_actions(fs, plan1, fresh);
    assert(fs1 == fs.insert(ep, Node::RegularFile { id: fresh }));
    assert(is_prefix_of(cfg.dotfiles_home_dir, ep));
    assert(p != ep);
    assert(fs1.dom().contains(p) && fs1[p] == fs[p]);
    assert(!links_to(fs1, to, ep));
    assert(!broken_link(fs1, to));
    let plan2 = remove_plan(cfg, ep, false, false);
    assert(plan2 =~= seq![ActionV::RemoveEntity { path: ep }]);
    lemma_apply_one(fs1, plan2[0], fresh);
    let fs2 = apply_actions(fs1, plan2, fresh);
    assert(fs2 == fs1.remove(ep));
    assert(fs2 =~= fs);
}

/// An adopted home file stands apart from its own repository copy and
/// backup slot: the file is no ancestor of the copy, and neither the file
/// nor the copy is the slot.
proof fn lemma_adopted_entry_apart(cfg: ConfigV, p: Seq<Seq<u8>>)
    requires
        cfg.wf(),
        is_prefix_of(cfg.home_dir, p),
        cfg.home_dir.len() < p.len(),
        !is_prefix_of(cfg.dotfiles_home_dir, p),
        !is_prefix_of(p, cfg.dotfiles_home_dir),
    ensures
        ({
            let ep = cfg.entity_path(p);
            let bk = cfg.entity_backup_slot(cfg.entity_path(p));
            &&& cfg.rel_of_entity(ep) == cfg.rel_of_installed(p)
            &&& cfg.installed_path(ep) == p
            &&& !is_prefix_of(p, ep)
            &&& ep != bk
            &&& p != bk
        }),
{
    let ep = cfg.entity_path(p);
    let rel = cfg.rel_of_installed(p);
    crate::paths::lemma_strip_join(cfg.home_dir, p);
    crate::paths::lemma_join_strip(cfg.dotfiles_home_dir, rel);
    assert(cfg.rel_of_entity(ep) =~= rel);
    assert(cfg.installed_path(ep) =~= p);
    let bk = cfg.entity_backup_slot(ep);
    if is_prefix_of(p, ep) {
        // An ancestor of the repository copy would be an ancestor of, or
        // under, the repository's home mirror.
        if p.len() <= cfg.dotfiles_home_dir.len() {
            assert(is_prefix_of(p, cfg.dotfiles_home_dir));
        } else {
            assert(is_prefix_of(cfg.dotfiles_home_dir, p));
        }
        assert(false);
    }
    if ep == bk {
        lemma_append_right_cancel(cfg.backup_dir, cfg.dotfiles_home_dir, rel);
        assert(false);
    }
    if p == bk {
        lemma_append_right_cancel(cfg.backup_dir, cfg.home_dir, rel);
        assert(false);
    }
}

/// Add, Install, then Remove: after the copy is installed as a link, the
/// withdrawal removes the home symlink as well as the repository copy, and
/// the displaced original still sits in its backup slot.
pub proof fn lemma_add_install_remove_round_trip(
    fs: FsModel,
    cfg: ConfigV,
    p: Seq<Seq<u8>>,
    fresh: int,
    fresh2: int,
)
    requires
        cfg.wf(),
        is_prefix_of(cfg.home_dir, p),
        cfg.home_dir.len() < p.len(),
        !is_prefix_of(cfg.dotfiles_home_dir, p),
        !is_prefix_of(p, cfg.dotfiles_home_dir),
        classify(fs, p) == FileKind::File,
        !fs.dom().contains(cfg.entity_path(p)),
    ensures
        ({
            let ep = cfg.entity_path(p);
            let bk = cfg.entity_backup_slot(ep);
            let fs1 = apply_actions(fs, add_plan(cfg, p, FileKind::File, false), fresh);
            let fs2 = apply_actions(
                fs1,
                install_plan(cfg, survey_of(fs1, cfg, seq![ep])),
                fresh2,
            );
            let fs3 = apply_actions(
                fs2,
                remove_plan(cfg, ep, links_to(fs2, cfg.installed_path(ep), ep), broken_link(
                    fs2,
                    cfg.installed_path(ep),
                )),
                fresh,
            );
            &&& links_to(fs2, p, ep)
            &&& !fs3.dom().contains(ep)
            &&& !fs3.dom().contains(p)
            &&& fs3.dom().contains(bk) && fs3[bk] == fs[p]
        }),
{
    lemma_adopted_entry_apart(cfg, p);
    let ep = cfg.entity_path(p);
    let to = cfg.installed_path(ep);
    assert(to == p);
    let bk = cfg.entity_backup_slot(ep);

    let plan1 = add_plan(cfg, p, FileKind::File, false);
    assert(plan1 == seq![ActionV::CopyFile { from: p, to: ep }]);
    lemma_apply_one(fs, plan1[0], fresh);
    let fs1 = apply_actions(fs, plan1, fresh);
    assert(fs1 == fs.insert(ep, Node::RegularFile { id: fresh }));
    assert(p != ep);

    // The single-entry Install stands apart as the main theorem asks.
    let froms = seq![ep];
    assert(is_prefix_of(cfg.dotfiles_home_dir, ep));
    assert(cfg.dotfiles_home_dir.len() < ep.len());
    assert(cfg.installed_path(froms[0]) == p);
    assert(fs1.dom().contains(p) && fs1[p] == fs[p]);
    assert(classify(fs1, p) == FileKind::File);
    assert(!links_to(fs1, p, ep));
    assert(entries_in_repo(cfg, froms));
    assert(entries_are_files(fs1, froms));
    assert(installed_prefix_free(cfg, froms));
    assert forall|i: int| 0 <= i < froms.len() implies untouched_by_install(
        cfg,
        froms,
        #[trigger] froms[i],
    ) by {
        assert(!is_prefix_of(p, ep) && ep != bk);
    }
    assert(installs_are_not_backups(cfg, froms)) by {
        assert(p != bk);
    }
    assert(kept_destinations_untouched(fs1, cfg, froms)) by {
        assert(!links_to(fs1, cfg.installed_path(froms[0]), froms[0]));
    }
    assert(install_separated(fs1, cfg, froms));

    lemma_install_establishes_links(fs1, cfg, froms, fresh2);
    let fs2 = apply_actions(fs1, install_plan(cfg, survey_of(fs1, cfg, froms)), fresh2);
    assert(links_to(fs2, p, ep));
    assert(fs2.dom().contains(bk) && fs2[bk] == fs1[p]);

    let plan3 = remove_plan(cfg, ep, links_to(fs2, to, ep), broken_link(fs2, to));
    assert(plan3 =~= seq![ActionV::RemoveSymlink { path: p }, ActionV::RemoveEntity { path: ep }]);
    lemma_apply_two(fs2, plan3[0], plan3[1], fresh);
    let fs3 = apply_actions(fs2, plan3, fresh);
    assert(fs3 == fs2.remove(p).remove(ep));
    assert(bk != p && bk != ep);
    assert(fs3.dom().contains(bk) && fs3[bk] == fs[p]);
}

} // verus!
