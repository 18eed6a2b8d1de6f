use dynamic_launcher::icon::icon_path_of;
use dynamic_launcher::interface::{DynamicLauncherError, GetDesktopEntryOutput, GetIconOutput};
use dynamic_launcher::lookup::{
    activation_token, find_desktop_file, DesktopFile, ReadableDesktopFile, ReadableIcon, StoredIcon,
};
use dynamic_launcher::options::{JsonValue, Options};
use dynamic_launcher::path::join;

const ID: &str = "a.b.c.desktop";

fn file() -> DesktopFile {
    find_desktop_file("a.b", ID).ok().unwrap()
}

fn readable_file() -> ReadableDesktopFile {
    file().check_size(Ok(100)).ok().unwrap()
}

fn icon() -> StoredIcon {
    let path = "/d/xdg-desktop-portal/icons/64x64/a.b.c.png".to_string();
    readable_file().stored_icon(Ok(Some(path)), Some("/d")).ok().unwrap()
}

fn readable_icon() -> ReadableIcon {
    icon().check_size(Ok(100)).ok().unwrap()
}

fn other(message: &str) -> DynamicLauncherError {
    DynamicLauncherError::Other { message: message.to_string() }
}

fn invalid(message: &str) -> DynamicLauncherError {
    DynamicLauncherError::InvalidArgument { message: message.to_string() }
}

#[test]
fn desktop_files_are_found_by_id() {
    assert_eq!(file().path(), "xdg-desktop-portal/applications/a.b.c.desktop");
    assert_eq!(
        find_desktop_file("a.b", "a.b.c").err(),
        Some(invalid(
            "Validating desktop file id failed: Desktop file id missing .desktop suffix: a.b.c"
        ))
    );
}

#[test]
fn desktop_file_sizes() {
    assert_eq!(file().check_size(Ok(0)).ok().unwrap().desktop_file_id, ID);
    assert!(file().check_size(Ok(1048576)).is_ok());
    assert_eq!(
        file().check_size(Ok(1048577)).err(),
        Some(other("Desktop file exceeds max size (1048576): a.b.c.desktop"))
    );
    assert_eq!(
        file().check_size(Err("gone".to_string())).err(),
        Some(invalid("Desktop file not found: gone"))
    );
}

#[test]
fn desktop_entries_are_read() {
    assert_eq!(
        readable_file().get_desktop_entry(Ok("[Desktop Entry]".to_string())),
        Ok(GetDesktopEntryOutput { contents: "[Desktop Entry]".to_string() })
    );
    assert_eq!(
        readable_file().get_desktop_entry(Err("utf8".to_string())),
        Err(other("Failed to read desktop file: utf8"))
    );
}

#[test]
fn stored_icons() {
    assert_eq!(icon().path, "/d/xdg-desktop-portal/icons/64x64/a.b.c.png");
    assert_eq!(icon().format, "png");
    assert_eq!(icon().size, 64);
    assert_eq!(
        readable_file().stored_icon(Err("syntax".to_string()), Some("/d")).err(),
        Some(other("Failed to load desktop file: syntax"))
    );
    for path in [None, Some("/etc/passwd".to_string()), Some("a.b.c".to_string())] {
        assert_eq!(
            readable_file().stored_icon(Ok(path), Some("/d")).err(),
            Some(other("Desktop file 'a.b.c.desktop' icon at unrecognized path"))
        );
    }
}

#[test]
fn installed_icons_are_found() {
    for (format, size) in [("png", 1), ("jpeg", 512), ("svg", 4096)] {
        let path = join("/d", &icon_path_of(ID, format, &size.to_string()));
        let found = readable_file().stored_icon(Ok(Some(path.clone())), Some("/d")).ok().unwrap();
        assert_eq!(found.path, path);
        assert_eq!(found.format, format);
        assert_eq!(found.size, size);
    }
}

#[test]
fn stored_icon_sizes() {
    let readable = icon().check_size(Ok(10485760)).ok().unwrap();
    assert_eq!(readable.desktop_file_id, ID);
    assert_eq!(readable.format, "png");
    assert_eq!(readable.size, 64);
    assert_eq!(
        icon().check_size(Ok(10485761)).err(),
        Some(other("Desktop file 'a.b.c.desktop' icon exceeds size limit"))
    );
    assert_eq!(
        icon().check_size(Err("gone".to_string())).err(),
        Some(other("Failed to read icon metadata: gone"))
    );
}

#[test]
fn icons_are_handed_out() {
    assert_eq!(
        readable_icon().get_icon(Ok(Some("('bytes', <b'x'>)".to_string()))),
        Ok(GetIconOutput {
            icon_v: "('bytes', <b'x'>)".to_string(),
            icon_format: "png".to_string(),
            icon_size: 64,
        })
    );
    assert_eq!(
        readable_icon().get_icon(Ok(None)),
        Err(other("Desktop file 'a.b.c.desktop' icon failed to serialize"))
    );
    assert_eq!(
        readable_icon().get_icon(Err("denied".to_string())),
        Err(other("Failed to read icon: denied"))
    );
}

#[test]
fn launching() {
    let there = || file().check_exists(true).ok().unwrap();
    assert_eq!(there().path(), "xdg-desktop-portal/applications/a.b.c.desktop");
    assert_eq!(
        file().check_exists(false).err(),
        Some(invalid("No dynamic launcher exists with id 'a.b.c.desktop'"))
    );
    assert_eq!(there().launch(Ok(())), Ok(()));
    assert_eq!(there().launch(Err("closed".to_string())), Err(other("Launch failed: closed")));
}

#[test]
fn activation_tokens() {
    let mut options = Options::new();
    assert_eq!(activation_token(&options), None);
    options.insert("activation_token".to_string(), JsonValue::Text("x".to_string()));
    assert_eq!(activation_token(&options), Some("x".to_string()));
    options.insert("activation_token".to_string(), JsonValue::Bool(true));
    assert_eq!(activation_token(&options), None);
}
