use dynamic_launcher::install::{desktop_path_of, link_path_of};
use dynamic_launcher::interface::DynamicLauncherError;
use dynamic_launcher::uninstall::{uninstall, IconCleanup, RemoveError, UnlinkedLauncher};

const ID: &str = "a.b.c.desktop";
const ICON: &str = "/d/xdg-desktop-portal/icons/64x64/a.b.c.png";

fn other(message: &str) -> DynamicLauncherError {
    DynamicLauncherError::Other { message: message.to_string() }
}

fn unlinked() -> UnlinkedLauncher {
    uninstall("a.b", ID).ok().unwrap().unlinked(Ok(())).ok().unwrap()
}

fn cleanup(icon: Option<&str>, removed: Result<(), String>) -> IconCleanup {
    unlinked().desktop_file_removed(icon.map(String::from), Some("/d"), removed)
}

#[test]
fn uninstall_takes_own_ids_only() {
    assert!(uninstall("a.b", ID).is_ok());
    assert_eq!(
        uninstall("x.y", ID).err(),
        Some(DynamicLauncherError::InvalidArgument {
            message: "Validating desktop file id failed: Flatpak sub app id validation: \
                      Desktop file id isn't suffixed with app id"
                .to_string()
        })
    );
}

#[test]
fn uninstall_removes_what_install_writes() {
    assert_eq!(uninstall("a.b", ID).ok().unwrap().link(), link_path_of(ID));
    assert_eq!(unlinked().desktop_file(), desktop_path_of(ID));
    assert_eq!(cleanup(Some(ICON), Ok(())).icon, Some(ICON.to_string()));
}

#[test]
fn launchers_without_a_link_do_not_exist() {
    let request = uninstall("a.b", ID).ok().unwrap();
    assert_eq!(
        request.unlinked(Err(RemoveError::NotFound)).err(),
        Some(other("Uninstall() method failed because launcher 'a.b.c.desktop' does not exist"))
    );
    let request = uninstall("a.b", ID).ok().unwrap();
    assert_eq!(
        request.unlinked(Err(RemoveError::Failed("denied".to_string()))).err(),
        Some(other("denied"))
    );
}

#[test]
fn foreign_icons_are_left_alone() {
    assert_eq!(cleanup(Some("/usr/share/icons/x.png"), Ok(())).icon, None);
    assert_eq!(cleanup(Some("a.b.c"), Ok(())).icon, None);
    assert_eq!(cleanup(None, Ok(())).icon, None);
    let without_dir = unlinked().desktop_file_removed(Some(ICON.to_string()), None, Ok(()));
    assert_eq!(without_dir.icon, None);
}

#[test]
fn uninstall_answers() {
    assert_eq!(cleanup(Some(ICON), Ok(())).finish(Ok(())), Ok(()));
    assert_eq!(
        cleanup(Some(ICON), Ok(())).finish(Err("icon".to_string())),
        Err(other("icon"))
    );
    assert_eq!(
        cleanup(Some(ICON), Err("file".to_string())).finish(Ok(())),
        Err(other("file"))
    );
    assert_eq!(
        cleanup(Some(ICON), Err("file".to_string())).finish(Err("icon".to_string())),
        Err(other("icon"))
    );
    assert_eq!(cleanup(None, Ok(())).finish(Err("icon".to_string())), Ok(()));
    assert_eq!(
        cleanup(None, Err("file".to_string())).finish(Err("icon".to_string())),
        Err(other("file"))
    );
}
