use dynamic_launcher::desktop_entry::{DesktopEntry, ExecLine, KeyFileEdit, ShellWord};
use dynamic_launcher::install::{
    desktop_path_of, link_path_of, too_large_message, FileAction, InstallFiles, InstallProgress,
    InstallRequest, InstallRewrite,
};
use dynamic_launcher::interface::DynamicLauncherError;
use dynamic_launcher::launcher::{DynamicLauncher, LauncherData};
use std::collections::BTreeSet;
use std::time::Instant;

const ICON: &str = "xdg-desktop-portal/icons/64x64/a.b.c.png";
const DESKTOP_FILE: &str = "xdg-desktop-portal/applications/a.b.c.desktop";
const LINK: &str = "applications/a.b.c.desktop";

fn request() -> InstallRequest {
    let mut portal = DynamicLauncher::new();
    portal.insert_launcher_data(
        "t".to_string(),
        LauncherData {
            name: "My App".to_string(),
            icon: vec![1],
            icon_format: "png".to_string(),
            icon_size: "64".to_string(),
            inserted_at: Instant::now(),
        },
    );
    portal.install("a.b", "t", "a.b.c.desktop").unwrap()
}

fn rewrite() -> InstallRewrite {
    request().rewrite("'a.b'".to_string(), Some("/d"), entry()).ok().unwrap()
}

fn files() -> InstallFiles {
    rewrite().check_rewritten(true, 100).ok().unwrap()
}

fn other(message: &str) -> DynamicLauncherError {
    DynamicLauncherError::Other { message: message.to_string() }
}

fn entry() -> DesktopEntry {
    DesktopEntry::Loaded {
        groups: vec!["Desktop Entry".to_string()],
        command: ExecLine::Words(vec![ShellWord {
            text: "sh".to_string(),
            quoted: "'sh'".to_string(),
        }]),
    }
}

fn expected_actions() -> Vec<FileAction> {
    vec![
        FileAction::CreateDir { path: "xdg-desktop-portal/icons/64x64".to_string() },
        FileAction::WriteIcon { path: ICON.to_string() },
        FileAction::CreateDir { path: "xdg-desktop-portal/applications".to_string() },
        FileAction::SaveDesktopFile { path: DESKTOP_FILE.to_string() },
        FileAction::CreateDir { path: "applications".to_string() },
        FileAction::RemoveFile { path: LINK.to_string() },
        FileAction::CreateLink {
            path: LINK.to_string(),
            target: "../xdg-desktop-portal/applications/a.b.c.desktop".to_string(),
        },
    ]
}

#[test]
fn launcher_paths() {
    assert_eq!(desktop_path_of("a.b.c.desktop"), DESKTOP_FILE);
    assert_eq!(link_path_of("a.b.c.desktop"), LINK);
    assert_eq!(
        too_large_message("a.b.c.desktop"),
        "Desktop file exceeds max size (1048576): a.b.c.desktop"
    );
}

#[test]
fn link_leads_to_the_desktop_file() {
    match expected_actions().last() {
        Some(FileAction::CreateLink { target, .. }) => {
            assert_eq!(*target, format!("../{}", desktop_path_of("a.b.c.desktop")));
        }
        _ => panic!("the link comes last"),
    }
}

#[test]
fn requests_rewrite_their_entry() {
    assert_eq!(rewrite().icon, vec![1]);
    let value = |key: &str, value: &str| KeyFileEdit::SetValue {
        key: key.to_string(),
        value: value.to_string(),
    };
    let string = |key: &str, value: &str| KeyFileEdit::SetString {
        key: key.to_string(),
        value: value.to_string(),
    };
    assert_eq!(
        rewrite().edits,
        vec![
            string("Name", "My App"),
            string("Icon", "/d/xdg-desktop-portal/icons/64x64/a.b.c.png"),
            value("Exec", "flatpak run --command='sh' 'a.b'"),
            value("X-Flatpak", "a.b"),
            KeyFileEdit::RemoveKey { key: "X-GNOME-Bugzilla-ExtraInfoScript".to_string() },
        ]
    );
    let without_dir = request().rewrite("'a.b'".to_string(), None, entry()).ok().unwrap();
    assert_eq!(without_dir.edits[1], string("Icon", ""));
    assert_eq!(
        request().rewrite("'a.b'".to_string(), None, DesktopEntry::Unreadable).err(),
        Some(other("Desktop entry given to Install() not a valid key file"))
    );
}

#[test]
fn rewritten_entries_are_checked() {
    assert!(rewrite().check_rewritten(true, 1048576).is_ok());
    assert_eq!(
        rewrite().check_rewritten(true, 1048577).err(),
        Some(other("Desktop file exceeds max size (1048576): a.b.c.desktop"))
    );
    assert_eq!(
        rewrite().check_rewritten(false, 1048577).err(),
        Some(other("Desktop entry given to Install() not valid"))
    );
}

#[test]
fn steps_come_in_order() {
    let mut due = files();
    let expected = expected_actions();
    for (i, action) in expected.iter().enumerate() {
        assert_eq!(due.action(), *action);
        match due.advance(Ok(())) {
            InstallProgress::Next(files) => {
                assert!(i + 1 < expected.len());
                due = files;
            }
            InstallProgress::Complete => {
                assert_eq!(i + 1, expected.len());
                return;
            }
            InstallProgress::Failed { .. } => panic!("no step failed"),
        }
    }
    panic!("the install did not end");
}

fn fail_at(step: usize) -> (Vec<String>, DynamicLauncherError) {
    let mut due = files();
    for i in 0..7 {
        let result = if i == step { Err("disk".to_string()) } else { Ok(()) };
        match due.advance(result) {
            InstallProgress::Next(files) => due = files,
            InstallProgress::Failed { remove, error } => {
                assert_eq!(i, step);
                return (remove, error);
            }
            InstallProgress::Complete => panic!("a failed install is not complete"),
        }
    }
    panic!("the install did not end");
}

#[test]
fn failed_steps_are_taken_back() {
    let none: Vec<String> = Vec::new();
    let icon = vec![ICON.to_string()];
    let both = vec![DESKTOP_FILE.to_string(), ICON.to_string()];
    assert_eq!(fail_at(0), (none.clone(), other("Failed to create icon dir: disk")));
    assert_eq!(fail_at(1), (none, other("Failed to write icon data: disk")));
    assert_eq!(fail_at(2), (icon.clone(), other("Failed to create desktop dir: disk")));
    assert_eq!(fail_at(3), (icon, other("Failed to save desktop file: disk")));
    assert_eq!(fail_at(4), (both.clone(), other("Failed to create link dir: disk")));
    assert_eq!(fail_at(6), (both, other("Failed to create symlink: disk")));
}

#[test]
fn a_missing_old_link_is_no_failure() {
    let mut due = files();
    for _ in 0..5 {
        due = match due.advance(Ok(())) {
            InstallProgress::Next(files) => files,
            _ => panic!("the install goes on"),
        };
    }
    match due.advance(Err("not found".to_string())) {
        InstallProgress::Next(files) => assert_eq!(files.action(), expected_actions().pop().unwrap()),
        _ => panic!("the install goes on"),
    }
}

#[test]
fn installs_are_all_or_nothing() {
    for failing in 0..8 {
        let mut disk: BTreeSet<String> = BTreeSet::new();
        let mut due = files();
        for i in 0..7 {
            let succeeds = i != failing;
            if succeeds {
                match due.action() {
                    FileAction::CreateDir { .. } => {}
                    FileAction::WriteIcon { path }
                    | FileAction::SaveDesktopFile { path }
                    | FileAction::CreateLink { path, .. } => {
                        disk.insert(path);
                    }
                    FileAction::RemoveFile { path } => {
                        disk.remove(&path);
                    }
                }
            }
            let result = if succeeds { Ok(()) } else { Err("x".to_string()) };
            match due.advance(result) {
                InstallProgress::Next(files) => due = files,
                InstallProgress::Complete => {
                    assert_eq!(disk.len(), 3);
                    break;
                }
                InstallProgress::Failed { remove, .. } => {
                    for path in remove {
                        disk.remove(&path);
                    }
                    assert!(disk.is_empty());
                    break;
                }
            }
        }
        assert_eq!(disk.is_empty(), failing != 5 && failing != 7);
    }
}
