use dotkoke::Config;
use dotkoke::DkError;
use dotkoke::FileId;
use dotkoke::FileKind;
use dotkoke::FsPath;
use dotkoke::Stat;
use dotkoke::file_kind;
use dotkoke::file_kind::resolve_link_destination;
use dotkoke::file_kind::same_identity;
use dotkoke::is_dir;
use dotkoke::is_error_path;
use dotkoke::is_file;
use dotkoke::is_symlink;
use dotkoke::is_unknown;
use dotkoke::path_exists;

fn p(parts: &[&str]) -> FsPath {
    FsPath { parts: parts.iter().map(|s| s.as_bytes().to_vec()).collect() }
}

fn cfg() -> Config {
    Config::new(
        p(&["home", "me"]),
        p(&["home", "me", ".dotfiles"]),
        p(&["home", "me", ".backup", "20240101_0101"]),
        p(&["home", "me", ".dotfiles", "home"]),
    )
    .unwrap()
}

#[test]
fn join_and_strip_round_trip() {
    let root = p(&["home", "me"]);
    let rel = p(&[".config", "nvim", "init.lua"]);
    let joined = root.join(&rel);
    assert_eq!(joined, p(&["home", "me", ".config", "nvim", "init.lua"]));
    assert!(joined.starts_with(&root));
    assert_eq!(joined.strip_prefix(&root).unwrap(), rel);
}

#[test]
fn strip_prefix_rejects_foreign_path() {
    let root = p(&["home", "me"]);
    let other = p(&["etc", "passwd"]);
    assert!(!other.starts_with(&root));
    assert_eq!(other.strip_prefix(&root), Err(DkError::PrefixMismatch));
}

#[test]
fn starts_with_is_component_wise() {
    // "/home/mel" must not count as under "/home/me".
    let root = p(&["home", "me"]);
    let lookalike = p(&["home", "mel", "file"]);
    assert!(!lookalike.starts_with(&root));
}

#[test]
fn install_path_maps_entity_to_home() {
    let c = cfg();
    let entity = p(&["home", "me", ".dotfiles", "home", ".bashrc"]);
    let installed = c.install_path(&entity).unwrap();
    assert_eq!(installed, p(&["home", "me", ".bashrc"]));
}

#[test]
fn entity_path_maps_home_to_repository() {
    let c = cfg();
    let home_file = p(&["home", "me", ".config", "git", "config"]);
    let entity = c.entity_path(&home_file).unwrap();
    assert_eq!(entity, p(&["home", "me", ".dotfiles", "home", ".config", "git", "config"]));
}

#[test]
fn mapping_rejects_paths_outside_roots() {
    let c = cfg();
    let outside = p(&["srv", "data"]);
    assert!(c.install_path(&outside).is_err());
    assert!(c.entity_path(&outside).is_err());
    assert!(c.repo_rel_from_dotfiles_home(&outside).is_err());
    assert!(c.repo_rel_from_home(&outside).is_err());
}

#[test]
fn config_rejects_mirror_outside_repository() {
    let r = Config::new(
        p(&["home", "me"]),
        p(&["home", "me", ".dotfiles"]),
        p(&["home", "me", ".backup"]),
        p(&["srv", "dotfiles", "home"]),
    );
    assert_eq!(r.unwrap_err(), DkError::DotfilesHomeNotUnderDotfiles);
}

#[test]
fn config_rejects_equal_directories() {
    let r = Config::new(
        p(&["home", "me"]),
        p(&["home", "me", ".dotfiles"]),
        p(&["home", "me"]),
        p(&["home", "me", ".dotfiles", "home"]),
    );
    assert_eq!(r.unwrap_err(), DkError::DirsNotDistinct);
}

#[test]
fn file_kind_classifies_stat_outcomes() {
    assert_eq!(
        file_kind(&Stat::Found { is_symlink: true, is_dir: false, is_file: false }),
        FileKind::Symlink
    );
    // A symlink to a directory stays a symlink: no following.
    assert_eq!(
        file_kind(&Stat::Found { is_symlink: true, is_dir: true, is_file: false }),
        FileKind::Symlink
    );
    assert_eq!(
        file_kind(&Stat::Found { is_symlink: false, is_dir: true, is_file: false }),
        FileKind::Dir
    );
    assert_eq!(
        file_kind(&Stat::Found { is_symlink: false, is_dir: false, is_file: true }),
        FileKind::File
    );
    assert_eq!(
        file_kind(&Stat::Found { is_symlink: false, is_dir: false, is_file: false }),
        FileKind::Unknown
    );
    assert_eq!(file_kind(&Stat::NotFound), FileKind::NotFound);
    assert_eq!(file_kind(&Stat::Failed), FileKind::Error);
}

#[test]
fn predicates_match_their_kinds() {
    assert!(is_symlink(&FileKind::Symlink));
    assert!(!is_symlink(&FileKind::File));
    assert!(is_file(&FileKind::File));
    assert!(!is_file(&FileKind::Dir));
    assert!(is_dir(&FileKind::Dir));
    assert!(is_unknown(&FileKind::Unknown));
    assert!(is_error_path(&FileKind::Error));
    assert!(!is_error_path(&FileKind::NotFound));
    assert!(path_exists(&FileKind::File));
    assert!(path_exists(&FileKind::Error));
    assert!(!path_exists(&FileKind::NotFound));
}

#[test]
fn resolve_keeps_absolute_destination() {
    let link = p(&["home", "me", ".bashrc"]);
    let raw = p(&["home", "me", ".dotfiles", "home", ".bashrc"]);
    let resolved = resolve_link_destination(&link, &raw, true);
    assert_eq!(resolved, raw);
}

#[test]
fn resolve_joins_relative_destination_against_parent() {
    let link = p(&["home", "me", ".bashrc"]);
    let raw = p(&[".dotfiles", "home", ".bashrc"]);
    let resolved = resolve_link_destination(&link, &raw, false);
    assert_eq!(resolved, p(&["home", "me", ".dotfiles", "home", ".bashrc"]));
}

#[test]
fn identity_compares_device_and_inode() {
    let a = FileId { dev: 3, ino: 77 };
    let b = FileId { dev: 3, ino: 77 };
    let c = FileId { dev: 3, ino: 78 };
    let d = FileId { dev: 4, ino: 77 };
    assert!(same_identity(&a, &b));
    assert!(!same_identity(&a, &c));
    assert!(!same_identity(&a, &d));
}
