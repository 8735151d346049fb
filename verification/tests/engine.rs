use dotkoke::Action;
use dotkoke::AddOutcome;
use dotkoke::Config;
use dotkoke::DkError;
use dotkoke::DryExecutor;
use dotkoke::FileKind;
use dotkoke::FsPath;
use dotkoke::RealExecutor;
use dotkoke::SurveyEntry;
use dotkoke::add;
use dotkoke::install;
use dotkoke::remove;

fn p(parts: &[&str]) -> FsPath {
    FsPath { parts: parts.iter().map(|s| s.as_bytes().to_vec()).collect() }
}

fn cfg() -> Config {
    Config::new(
        p(&["home", "me"]),
        p(&["home", "me", ".dotfiles"]),
        p(&["home", "me", ".backup", "20240101_0101"]),
        p(&["home", "me", ".dotfiles", "home"]),
    )
    .unwrap()
}

fn entry(from: &[&str], points_to: bool, kind: FileKind) -> SurveyEntry {
    SurveyEntry { from: p(from), points_to, kind }
}

#[test]
fn install_creates_link_into_empty_home() {
    // A managed .bashrc and nothing at home/.bashrc: one link, no backup.
    let mut ex = RealExecutor::new(cfg());
    let entries = vec![entry(
        &["home", "me", ".dotfiles", "home", ".bashrc"],
        false,
        FileKind::NotFound,
    )];
    install(&mut ex, &entries).unwrap();
    assert_eq!(
        ex.actions(),
        &vec![Action::CreateSymlink {
            from: p(&["home", "me", ".dotfiles", "home", ".bashrc"]),
            to: p(&["home", "me", ".bashrc"]),
        }]
    );
}

#[test]
fn install_of_nothing_records_nothing() {
    let mut ex = RealExecutor::new(cfg());
    let entries: Vec<SurveyEntry> = vec![];
    install(&mut ex, &entries).unwrap();
    assert!(ex.actions().is_empty());
}

#[test]
fn install_skips_already_correct_link() {
    let mut ex = RealExecutor::new(cfg());
    let entries = vec![entry(
        &["home", "me", ".dotfiles", "home", ".bashrc"],
        true,
        FileKind::Symlink,
    )];
    install(&mut ex, &entries).unwrap();
    assert_eq!(
        ex.actions(),
        &vec![Action::SkipLink {
            from: p(&["home", "me", ".dotfiles", "home", ".bashrc"]),
            to: p(&["home", "me", ".bashrc"]),
        }]
    );
}

#[test]
fn install_backs_up_plain_file_before_linking() {
    let mut ex = RealExecutor::new(cfg());
    let entries = vec![entry(
        &["home", "me", ".dotfiles", "home", ".config", "git", "config"],
        false,
        FileKind::File,
    )];
    install(&mut ex, &entries).unwrap();
    assert_eq!(
        ex.actions(),
        &vec![
            Action::RemoveFileWithBackup {
                path: p(&["home", "me", ".config", "git", "config"]),
                backup: p(&["home", "me", ".backup", "20240101_0101", ".config", "git", "config"]),
            },
            Action::CreateSymlink {
                from: p(&["home", "me", ".dotfiles", "home", ".config", "git", "config"]),
                to: p(&["home", "me", ".config", "git", "config"]),
            },
        ]
    );
}

#[test]
fn install_replaces_stale_symlink() {
    let mut ex = RealExecutor::new(cfg());
    let entries = vec![entry(
        &["home", "me", ".dotfiles", "home", ".bashrc"],
        false,
        FileKind::Symlink,
    )];
    install(&mut ex, &entries).unwrap();
    assert_eq!(
        ex.actions(),
        &vec![
            Action::RemoveSymlink { path: p(&["home", "me", ".bashrc"]) },
            Action::CreateSymlink {
                from: p(&["home", "me", ".dotfiles", "home", ".bashrc"]),
                to: p(&["home", "me", ".bashrc"]),
            },
        ]
    );
}

#[test]
fn install_removes_directory_without_backup() {
    let mut ex = RealExecutor::new(cfg());
    let entries = vec![entry(
        &["home", "me", ".dotfiles", "home", ".vim"],
        false,
        FileKind::Dir,
    )];
    install(&mut ex, &entries).unwrap();
    assert_eq!(
        ex.actions(),
        &vec![
            Action::RemoveDirAll { path: p(&["home", "me", ".vim"]) },
            Action::CreateSymlink {
                from: p(&["home", "me", ".dotfiles", "home", ".vim"]),
                to: p(&["home", "me", ".vim"]),
            },
        ]
    );
}

#[test]
fn install_removes_unknown_entry_before_linking() {
    let mut ex = RealExecutor::new(cfg());
    let entries = vec![entry(
        &["home", "me", ".dotfiles", "home", ".bashrc"],
        false,
        FileKind::Unknown,
    )];
    install(&mut ex, &entries).unwrap();
    assert_eq!(
        ex.actions(),
        &vec![
            Action::RemoveUnknownPath { path: p(&["home", "me", ".bashrc"]) },
            Action::CreateSymlink {
                from: p(&["home", "me", ".dotfiles", "home", ".bashrc"]),
                to: p(&["home", "me", ".bashrc"]),
            },
        ]
    );
}

#[test]
fn install_aborts_entry_it_cannot_examine() {
    // A stat error on one entry only warns and skips it; the walk goes on.
    let mut ex = RealExecutor::new(cfg());
    let entries = vec![
        entry(&["home", "me", ".dotfiles", "home", ".bashrc"], false, FileKind::Error),
        entry(&["home", "me", ".dotfiles", "home", ".zshrc"], false, FileKind::NotFound),
    ];
    install(&mut ex, &entries).unwrap();
    assert_eq!(
        ex.actions(),
        &vec![
            Action::WarnCannotDetermine { path: p(&["home", "me", ".bashrc"]) },
            Action::CreateSymlink {
                from: p(&["home", "me", ".dotfiles", "home", ".zshrc"]),
                to: p(&["home", "me", ".zshrc"]),
            },
        ]
    );
}

#[test]
fn second_install_run_creates_no_links() {
    // Idempotence, as the engine sees it: once every installed path already
    // resolves to its entry, the whole run is skip notices.
    let mut ex = RealExecutor::new(cfg());
    let entries = vec![
        entry(&["home", "me", ".dotfiles", "home", ".bashrc"], true, FileKind::Symlink),
        entry(&["home", "me", ".dotfiles", "home", ".zshrc"], true, FileKind::Symlink),
        entry(&["home", "me", ".dotfiles", "home", ".config", "git", "config"], true, FileKind::Symlink),
    ];
    install(&mut ex, &entries).unwrap();
    assert_eq!(ex.actions().len(), 3);
    for a in ex.actions() {
        assert!(matches!(a, Action::SkipLink { .. }));
    }
}

#[test]
fn dry_run_records_what_a_real_run_would() {
    // Dry-run parity: the same survey drives both executors to identical
    // action lists, and the dry executor mutates nothing else.
    let entries = vec![
        entry(&["home", "me", ".dotfiles", "home", ".bashrc"], false, FileKind::File),
        entry(&["home", "me", ".dotfiles", "home", ".zshrc"], true, FileKind::Symlink),
        entry(&["home", "me", ".dotfiles", "home", ".vim"], false, FileKind::Dir),
        entry(&["home", "me", ".dotfiles", "home", ".npmrc"], false, FileKind::NotFound),
    ];
    let mut real = RealExecutor::new(cfg());
    let mut dry = DryExecutor::new(cfg());
    install(&mut real, &entries).unwrap();
    install(&mut dry, &entries).unwrap();
    assert_eq!(real.actions(), dry.actions());
}

#[test]
fn add_copies_new_home_file() {
    let mut ex = RealExecutor::new(cfg());
    let path = p(&["home", "me", ".gitconfig"]);
    let r = add(&mut ex, &path, FileKind::File, false);
    assert_eq!(r, Ok(AddOutcome::Added));
    assert_eq!(
        ex.actions(),
        &vec![Action::CopyFile {
            from: p(&["home", "me", ".gitconfig"]),
            to: p(&["home", "me", ".dotfiles", "home", ".gitconfig"]),
        }]
    );
}

#[test]
fn add_skips_symlink_with_no_action() {
    let mut ex = RealExecutor::new(cfg());
    let path = p(&["home", "me", ".bashrc"]);
    let r = add(&mut ex, &path, FileKind::Symlink, false);
    assert_eq!(r, Ok(AddOutcome::SkippedSymlink));
    assert!(ex.actions().is_empty());
}

#[test]
fn add_rejects_path_outside_home() {
    // Scope rejection: an error, and no copy is recorded.
    let mut ex = RealExecutor::new(cfg());
    let path = p(&["etc", "passwd"]);
    let r = add(&mut ex, &path, FileKind::File, false);
    assert_eq!(r, Err(DkError::NotUnderHome));
    assert!(ex.actions().is_empty());
}

#[test]
fn add_rejects_path_already_managed() {
    let mut ex = RealExecutor::new(cfg());
    let path = p(&["home", "me", ".dotfiles", "home", ".bashrc"]);
    let r = add(&mut ex, &path, FileKind::File, false);
    assert_eq!(r, Err(DkError::AlreadyManaged));
    assert!(ex.actions().is_empty());
}

#[test]
fn add_skips_occupied_destination() {
    let mut ex = RealExecutor::new(cfg());
    let path = p(&["home", "me", ".gitconfig"]);
    let r = add(&mut ex, &path, FileKind::File, true);
    assert_eq!(r, Ok(AddOutcome::SkippedExisting));
    assert!(ex.actions().is_empty());
}

#[test]
fn remove_unlinks_home_then_deletes_entity() {
    let mut ex = RealExecutor::new(cfg());
    let path = p(&["home", "me", ".dotfiles", "home", ".bashrc"]);
    remove(&mut ex, &path, true, false).unwrap();
    assert_eq!(
        ex.actions(),
        &vec![
            Action::RemoveSymlink { path: p(&["home", "me", ".bashrc"]) },
            Action::RemoveEntity { path: p(&["home", "me", ".dotfiles", "home", ".bashrc"]) },
        ]
    );
}

#[test]
fn remove_unlinks_broken_home_link() {
    let mut ex = RealExecutor::new(cfg());
    let path = p(&["home", "me", ".dotfiles", "home", ".bashrc"]);
    remove(&mut ex, &path, false, true).unwrap();
    assert_eq!(
        ex.actions(),
        &vec![
            Action::RemoveSymlink { path: p(&["home", "me", ".bashrc"]) },
            Action::RemoveEntity { path: p(&["home", "me", ".dotfiles", "home", ".bashrc"]) },
        ]
    );
}

#[test]
fn remove_leaves_foreign_home_entry_alone() {
    // The home path holds something that is not a link to the entry: only
    // the repository copy goes.
    let mut ex = RealExecutor::new(cfg());
    let path = p(&["home", "me", ".dotfiles", "home", ".bashrc"]);
    remove(&mut ex, &path, false, false).unwrap();
    assert_eq!(
        ex.actions(),
        &vec![Action::RemoveEntity { path: p(&["home", "me", ".dotfiles", "home", ".bashrc"]) }]
    );
}

#[test]
fn remove_rejects_path_outside_repository() {
    // Scope rejection: an error, and the filesystem is not touched.
    let mut ex = RealExecutor::new(cfg());
    let path = p(&["home", "me", ".bashrc"]);
    let r = remove(&mut ex, &path, true, false);
    assert_eq!(r, Err(DkError::NotUnderDotfilesHome));
    assert!(ex.actions().is_empty());
}

#[test]
fn add_then_remove_records_a_round_trip() {
    // Adding home/foo then removing dotfiles/home/foo: the copy is created
    // and then deleted, and nothing in the home tree is touched in between.
    let mut ex = RealExecutor::new(cfg());
    let home_file = p(&["home", "me", "foo"]);
    let entity = p(&["home", "me", ".dotfiles", "home", "foo"]);
    assert_eq!(add(&mut ex, &home_file, FileKind::File, false), Ok(AddOutcome::Added));
    remove(&mut ex, &entity, false, false).unwrap();
    assert_eq!(
        ex.actions(),
        &vec![
            Action::CopyFile { from: home_file.clone(), to: entity.clone() },
            Action::RemoveEntity { path: entity.clone() },
        ]
    );
}
