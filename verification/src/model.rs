//! A mathematical model of the filesystem, for stating and proving what the
//! recorded actions do.
//!
//! The model is a map from absolute paths (component sequences) to nodes. A
//! node is a symlink with its raw destination, a regular file with its
//! filesystem identity, a directory, or an entry of unrecognized type.
//! Identity resolution follows the link under test one step: the oracle's
//! question "does this link resolve to that file?" is answered by comparing
//! the identity of the resolved destination with the identity of the
//! target, both as regular files, which is how the engine's inputs are
//! produced for managed entries. The model has no inaccessible entries:
//! classification never reports an error here.

use vstd::prelude::*;

use crate::action::ActionV;
use crate::config::ConfigV;
use crate::file_kind::FileKind;
use crate::file_kind::resolved_destination;
use crate::install::SurveyEntryV;
use crate::paths::is_prefix_of;

verus! {

/// One entry of the modelled filesystem.
pub enum Node {
    /// A symbolic link holding its raw destination as read out of the link.
    Link { dest: Seq<Seq<u8>>, absolute: bool },
    /// A regular file; `id` stands for its device-and-inode identity.
    RegularFile { id: int },
    /// A directory (its children are entries of their own).
    Directory,
    /// An entry that is none of the kinds above.
    Special,
}

/// The modelled filesystem: which node occupies each absolute path.
pub type FsModel = Map<Seq<Seq<u8>>, Node>;

/// What the entry classifier reports of `p` in the model.
pub open spec fn classify(fs: FsModel, p: Seq<Seq<u8>>) -> FileKind {
    if !fs.dom().contains(p) {
        FileKind::NotFound
    } else {
        match fs[p] {
            Node::Link { .. } => FileKind::Symlink,
            Node::RegularFile { .. } => FileKind::File,
            Node::Directory => FileKind::Dir,
            Node::Special => FileKind::Unknown,
        }
    }
}

/// The filesystem identity of the regular file at `p`, if one is there.
pub open spec fn ident(fs: FsModel, p: Seq<Seq<u8>>) -> Option<int> {
    if fs.dom().contains(p) && fs[p] matches Node::RegularFile { id } {
        Some(fs[p]->id)
    } else {
        None
    }
}

/// Where the link at `link` points, resolved against the link's parent if
/// the raw destination is relative. Meaningful only when a link is there.
pub open spec fn link_destination(fs: FsModel, link: Seq<Seq<u8>>) -> Seq<Seq<u8>> {
    if fs.dom().contains(link) && fs[link] matches Node::Link { dest, absolute } {
        resolved_destination(link, fs[link]->dest, fs[link]->absolute)
    } else {
        link
    }
}

/// The link oracle's `pointsTo`: `link` is a symlink whose resolved
/// destination and `target` are regular files of equal identity.
pub open spec fn links_to(fs: FsModel, link: Seq<Seq<u8>>, target: Seq<Seq<u8>>) -> bool {
    &&& fs.dom().contains(link)
    &&& fs[link] is Link
    &&& ident(fs, link_destination(fs, link)) is Some
    &&& ident(fs, link_destination(fs, link)) == ident(fs, target)
}

/// The link oracle's `isBroken`: `link` is a symlink whose resolved
/// destination is not there.
pub open spec fn broken_link(fs: FsModel, link: Seq<Seq<u8>>) -> bool {
    &&& fs.dom().contains(link)
    &&& fs[link] is Link
    &&& !fs.dom().contains(link_destination(fs, link))
}

/// The filesystem with the subtree rooted at `root` removed.
pub open spec fn prune(fs: FsModel, root: Seq<Seq<u8>>) -> FsModel {
    Map::new(|p: Seq<Seq<u8>>| fs.dom().contains(p) && !is_prefix_of(root, p), |p: Seq<Seq<u8>>| fs[p])
}

/// What performing one action does to the filesystem. A recorded notice
/// changes nothing. A copy creates a regular file with the fresh identity
/// `fresh` (a copy is a new inode, never the source's).
pub open spec fn apply_action(fs: FsModel, a: ActionV, fresh: int) -> FsModel {
    match a {
        ActionV::CreateSymlink { from, to } => fs.insert(
            to,
            Node::Link { dest: from, absolute: true },
        ),
        ActionV::SkipLink { .. } => fs,
        ActionV::RemoveSymlink { path } => fs.remove(path),
        ActionV::RemoveFileWithBackup { path, backup } => if fs.dom().contains(path) {
            fs.remove(path).insert(backup, fs[path])
        } else {
            fs
        },
        ActionV::RemoveDirAll { path } => prune(fs, path),
        ActionV::RemoveUnknownPath { path } => fs.remove(path),
        ActionV::RemoveEntity { path } => fs.remove(path),
        ActionV::CopyFile { from, to } => fs.insert(to, Node::RegularFile { id: fresh }),
        ActionV::WarnCannotDetermine { .. } => fs,
    }
}

/// What performing a sequence of actions does, in order. Every copy in the
/// sequence gets the identity `fresh`; exact for sequences with at most one
/// copy, which is all the laws here state.
pub open spec fn apply_actions(fs: FsModel, s: Seq<ActionV>, fresh: int) -> FsModel
    decreases s.len(),
{
    if s.len() == 0 {
        fs
    } else {
        apply_action(apply_actions(fs, s.drop_last(), fresh), s.last(), fresh)
    }
}

/// The paths one action touches: everything its effect may change.
pub open spec fn action_touches(a: ActionV, p: Seq<Seq<u8>>) -> bool {
    match a {
        ActionV::CreateSymlink { to, .. } => p == to,
        ActionV::SkipLink { .. } => false,
        ActionV::RemoveSymlink { path } => p == path,
        ActionV::RemoveFileWithBackup { path, backup } => p == path || p == backup,
        ActionV::RemoveDirAll { path } => is_prefix_of(path, p),
        ActionV::RemoveUnknownPath { path } => p == path,
        ActionV::RemoveEntity { path } => p == path,
        ActionV::CopyFile { to, .. } => p == to,
        ActionV::WarnCannotDetermine { .. } => false,
    }
}

/// `fs2` agrees with `fs1` at `p`: same occupancy, same node.
pub open spec fn same_at(fs1: FsModel, fs2: FsModel, p: Seq<Seq<u8>>) -> bool {
    &&& fs2.dom().contains(p) == fs1.dom().contains(p)
    &&& fs1.dom().contains(p) ==> fs2[p] == fs1[p]
}

/// An action leaves every path it does not touch as it was.
pub proof fn lemma_action_frame(fs: FsModel, a: ActionV, fresh: int, p: Seq<Seq<u8>>)
    requires
        !action_touches(a, p),
    ensures
        same_at(fs, apply_action(fs, a, fresh), p),
{
}

/// A sequence of actions leaves every path none of them touches as it was.
pub proof fn lemma_actions_frame(fs: FsModel, s: Seq<ActionV>, fresh: int, p: Seq<Seq<u8>>)
    requires
        forall|i: int| 0 <= i < s.len() ==> !action_touches(#[trigger] s[i], p),
    ensures
        same_at(fs, apply_actions(fs, s, fresh), p),
    decreases s.len(),
{
    if s.len() > 0 {
        lemma_actions_frame(fs, s.drop_last(), fresh, p);
        lemma_action_frame(apply_actions(fs, s.drop_last(), fresh), s.last(), fresh, p);
    }
}

/// Performing a concatenation is performing the parts in order.
pub proof fn lemma_apply_concat(fs: FsModel, s1: Seq<ActionV>, s2: Seq<ActionV>, fresh: int)
    ensures
        apply_actions(fs, s1 + s2, fresh) == apply_actions(
            apply_actions(fs, s1, fresh),
            s2,
            fresh,
        ),
    decreases s2.len(),
{
    if s2.len() == 0 {
        assert(s1 + s2 =~= s1);
    } else {
        lemma_apply_concat(fs, s1, s2.drop_last(), fresh);
        assert((s1 + s2).drop_last() =~= s1 + s2.drop_last());
        assert((s1 + s2).last() == s2.last());
    }
}

/// The survey Install is driven by, derived from the modelled filesystem:
/// for each managed entry, whether its installed path already resolves to
/// it, and what occupies that path.
pub open spec fn survey_entry_of(fs: FsModel, cfg: ConfigV, from: Seq<Seq<u8>>) -> SurveyEntryV {
    SurveyEntryV {
        from,
        points_to: links_to(fs, cfg.installed_path(from), from),
        kind: classify(fs, cfg.installed_path(from)),
    }
}

/// The surveys of all managed entries, in order.
pub open spec fn survey_of(fs: FsModel, cfg: ConfigV, froms: Seq<Seq<Seq<u8>>>) -> Seq<
    SurveyEntryV,
> {
    Seq::new(froms.len(), |i: int| survey_entry_of(fs, cfg, froms[i]))
}

} // verus!
