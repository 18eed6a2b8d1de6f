use dynamic_launcher::desktop_entry::{
    rewrite_desktop_entry, validate_dynamic_launcher, DesktopEntry, ExecLine, KeyFileEdit, ShellWord,
};
use dynamic_launcher::interface::DynamicLauncherError;

fn word(text: &str) -> ShellWord {
    ShellWord { text: text.to_string(), quoted: format!("'{}'", text) }
}

fn words(all: &[&str]) -> ExecLine {
    ExecLine::Words(all.iter().map(|w| word(w)).collect())
}

fn invalid(message: &str) -> DynamicLauncherError {
    DynamicLauncherError::InvalidArgument { message: message.to_string() }
}

fn other(message: &str) -> DynamicLauncherError {
    DynamicLauncherError::Other { message: message.to_string() }
}

fn set_value(key: &str, value: &str) -> KeyFileEdit {
    KeyFileEdit::SetValue { key: key.to_string(), value: value.to_string() }
}

fn set_string(key: &str, value: &str) -> KeyFileEdit {
    KeyFileEdit::SetString { key: key.to_string(), value: value.to_string() }
}

fn tail(exec_value: &str) -> Vec<KeyFileEdit> {
    vec![
        set_value("Exec", exec_value),
        set_value("X-Flatpak", "a.b.c"),
        KeyFileEdit::RemoveKey { key: "X-GNOME-Bugzilla-ExtraInfoScript".to_string() },
    ]
}

#[test]
fn exec_lines_are_rewritten() {
    assert_eq!(
        validate_dynamic_launcher(&word("a.b.c"), words(&["run me", "--x", "y"])),
        Ok(tail("flatpak run --command='run me' 'a.b.c' '--x' 'y'"))
    );
    assert_eq!(
        validate_dynamic_launcher(&word("a.b.c"), words(&["sh"])),
        Ok(tail("flatpak run --command='sh' 'a.b.c'"))
    );
    assert_eq!(
        validate_dynamic_launcher(&word("a.b.c"), words(&[])),
        Ok(tail("flatpak run 'a.b.c'"))
    );
}

#[test]
fn exec_lines_are_refused() {
    assert_eq!(
        validate_dynamic_launcher(&word("a.b.c"), ExecLine::Missing),
        Err(invalid("Desktop entry given to Install() has no Exec line"))
    );
    assert_eq!(
        validate_dynamic_launcher(&word("a.b.c"), ExecLine::Malformed("quote".to_string())),
        Err(invalid("Desktop entry given to Install() has invalid Exec line: quote"))
    );
    for line in [&["--file-forwarding"][..], &["a", "b", "--file-forwarding"][..]] {
        assert_eq!(
            validate_dynamic_launcher(&word("a.b.c"), words(line)),
            Err(invalid("Desktop entry given to Install() must not use --file-forwarding"))
        );
    }
    assert!(validate_dynamic_launcher(&word("a.b.c"), words(&["--file-forwarding=x"])).is_ok());
}

#[test]
fn entries_are_rewritten() {
    let entry = DesktopEntry::Loaded {
        groups: vec!["Desktop Entry".to_string()],
        command: words(&["sh"]),
    };
    let mut expected = vec![set_string("Name", "My App"), set_string("Icon", "/d/i.png")];
    expected.append(&mut tail("flatpak run --command='sh' 'a.b.c'"));
    assert_eq!(
        rewrite_desktop_entry(&word("a.b.c"), "My App", "/d/i.png", entry),
        Ok(expected)
    );
}

#[test]
fn entries_are_refused() {
    assert_eq!(
        rewrite_desktop_entry(&word("a.b.c"), "n", "i", DesktopEntry::Unreadable),
        Err(other("Desktop entry given to Install() not a valid key file"))
    );
    for groups in [vec![], vec!["Other"], vec!["Desktop Entry", "Desktop Action x"]] {
        let entry = DesktopEntry::Loaded {
            groups: groups.iter().map(|g| g.to_string()).collect(),
            command: words(&["sh"]),
        };
        assert_eq!(
            rewrite_desktop_entry(&word("a.b.c"), "n", "i", entry),
            Err(other("Desktop entry given to Install() must have exactly one group"))
        );
    }
    let entry = DesktopEntry::Loaded {
        groups: vec!["Desktop Entry".to_string()],
        command: ExecLine::Missing,
    };
    assert_eq!(
        rewrite_desktop_entry(&word("a.b.c"), "n", "i", entry),
        Err(invalid("Desktop entry given to Install() has no Exec line"))
    );
}

#[test]
fn launchers_run_in_flatpak() {
    for line in [&[][..], &["sh"][..], &["flatpak", "run", "evil"][..]] {
        let edits = validate_dynamic_launcher(&word("a.b.c"), words(line)).unwrap();
        match &edits[0] {
            KeyFileEdit::SetValue { key, value } => {
                assert_eq!(key, "Exec");
                assert!(value.starts_with("flatpak run "));
                assert!(value.contains("'a.b.c'"));
            }
            _ => panic!("the command line comes first"),
        }
    }
}
