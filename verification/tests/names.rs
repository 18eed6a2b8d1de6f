use dynamic_launcher::interface::DynamicLauncherError;
use dynamic_launcher::names::{
    flatpak_is_valid_name, require_desktop_file_id, validate_desktop_file_id, DesktopFileIdError,
    NameError,
};

#[test]
fn accepts_a_plain_name() {
    assert_eq!(flatpak_is_valid_name("org.gnome.Software"), Ok(()));
    assert_eq!(flatpak_is_valid_name("a.b.c"), Ok(()));
    assert_eq!(flatpak_is_valid_name("_a._b._c"), Ok(()));
    assert_eq!(flatpak_is_valid_name("org.gnome.Software2.Sub_1"), Ok(()));
}

#[test]
fn hyphen_only_in_last_element() {
    assert_eq!(flatpak_is_valid_name("a.b.c-d"), Ok(()));
    assert_eq!(flatpak_is_valid_name("a.b.-c"), Ok(()));
    assert_eq!(flatpak_is_valid_name("a.b-c.d"), Err(NameError::BadCharacter));
    assert_eq!(flatpak_is_valid_name("a.-b.c"), Err(NameError::BadInitial));
}

#[test]
fn name_length_limits() {
    assert_eq!(flatpak_is_valid_name(""), Err(NameError::EmptyOrTooLong));
    let longest = format!("a.b.{}", "c".repeat(251));
    assert_eq!(longest.len(), 255);
    assert_eq!(flatpak_is_valid_name(&longest), Ok(()));
    let too_long = format!("a.b.{}", "c".repeat(252));
    assert_eq!(flatpak_is_valid_name(&too_long), Err(NameError::EmptyOrTooLong));
    let many_bytes = "\u{e9}".repeat(128);
    assert_eq!(flatpak_is_valid_name(&many_bytes), Err(NameError::EmptyOrTooLong));
}

#[test]
fn name_dots() {
    assert_eq!(flatpak_is_valid_name(".a.b.c"), Err(NameError::LeadingDot));
    assert_eq!(flatpak_is_valid_name("a.b.c."), Err(NameError::TrailingDot));
    assert_eq!(flatpak_is_valid_name("abc"), Err(NameError::TooFewSegments));
    assert_eq!(flatpak_is_valid_name("a.b"), Err(NameError::TooFewSegments));
    assert_eq!(flatpak_is_valid_name("a..b"), Err(NameError::EmptySegment));
    assert_eq!(flatpak_is_valid_name("a.b..c"), Err(NameError::EmptySegment));
    assert_eq!(flatpak_is_valid_name("a.."), Err(NameError::TrailingDot));
}

#[test]
fn name_characters() {
    assert_eq!(flatpak_is_valid_name("a.1b.c"), Err(NameError::BadInitial));
    assert_eq!(flatpak_is_valid_name("a.b.9"), Err(NameError::BadInitial));
    assert_eq!(flatpak_is_valid_name("a.b/.c"), Err(NameError::BadCharacter));
    assert_eq!(flatpak_is_valid_name("a.b.c d"), Err(NameError::BadCharacter));
    assert_eq!(flatpak_is_valid_name("a.b.\u{e9}"), Err(NameError::BadInitial));
    assert_eq!(flatpak_is_valid_name("a.b.c\u{e9}"), Err(NameError::BadCharacter));
}

#[test]
fn first_bad_character_decides() {
    assert_eq!(flatpak_is_valid_name("a.b?.1c"), Err(NameError::BadCharacter));
    assert_eq!(flatpak_is_valid_name("a.1b.c?"), Err(NameError::BadInitial));
    assert_eq!(flatpak_is_valid_name("a.1"), Err(NameError::BadInitial));
}

#[test]
fn name_messages() {
    assert_eq!(NameError::EmptyOrTooLong.message(), "Name empty or too long");
    assert_eq!(NameError::LeadingDot.message(), "Name starts with \".\"");
    assert_eq!(NameError::TooFewSegments.message(), "Name must have at least 3 segments");
    assert_eq!(
        NameError::BadInitial.message(),
        "Initial character of segment is not alphabetic"
    );
    assert_eq!(NameError::BadCharacter.message(), "Character of segment is not alphanumeric");
    assert_eq!(NameError::TrailingDot.message(), "Name may not end on a dot");
    assert_eq!(NameError::EmptySegment.message(), "Name has an empty segment");
}

#[test]
fn desktop_file_ids() {
    let app = "com.example.App";
    assert_eq!(validate_desktop_file_id(app, "com.example.App.Sub.desktop"), Ok(()));
    assert_eq!(
        validate_desktop_file_id(app, "com.example.App.Sub"),
        Err(DesktopFileIdError::MissingSuffix)
    );
    assert_eq!(
        validate_desktop_file_id(app, "com.example.Other.Sub.desktop"),
        Err(DesktopFileIdError::NotBelowAppId)
    );
    assert_eq!(
        validate_desktop_file_id(app, "com.example.App.desktop"),
        Err(DesktopFileIdError::NotBelowAppId)
    );
    assert_eq!(
        validate_desktop_file_id(app, "com.example.Appendix.Sub.desktop"),
        Err(DesktopFileIdError::NotBelowAppId)
    );
    assert_eq!(
        validate_desktop_file_id(app, "com.example.App..desktop"),
        Err(DesktopFileIdError::InvalidName(NameError::TrailingDot))
    );
    assert_eq!(
        validate_desktop_file_id(app, "com.example.App./../x.desktop"),
        Err(DesktopFileIdError::InvalidName(NameError::BadInitial))
    );
    assert_eq!(validate_desktop_file_id("", "anything"), Err(DesktopFileIdError::MissingSuffix));
}

#[test]
fn desktop_file_id_answers() {
    let app = "com.example.App";
    assert_eq!(require_desktop_file_id(app, "com.example.App.Sub.desktop"), Ok(()));
    assert_eq!(
        require_desktop_file_id(app, "com.example.App.Sub"),
        Err(DynamicLauncherError::InvalidArgument {
            message: "Validating desktop file id failed: \
                      Desktop file id missing .desktop suffix: com.example.App.Sub"
                .to_string()
        })
    );
    assert_eq!(
        require_desktop_file_id(app, "x.desktop"),
        Err(DynamicLauncherError::InvalidArgument {
            message: "Validating desktop file id failed: Flatpak sub app id validation: \
                      Desktop file id isn't suffixed with app id"
                .to_string()
        })
    );
    assert_eq!(
        require_desktop_file_id(app, "com.example.App.1.desktop"),
        Err(DynamicLauncherError::InvalidArgument {
            message: "Validating desktop file id failed: Flatpak sub app id validation failed"
                .to_string()
        })
    );
}

#[test]
fn accepted_ids_name_files_below_the_app() {
    let apps = ["com.example.App", "com.example.Other", "a.b"];
    let ids = [
        "com.example.App.Sub.desktop",
        "com.example.Other.Sub.desktop",
        "a.b.c.desktop",
        "a.b.c/d.desktop",
        "../a.b.c.desktop",
        "a.b.desktop",
    ];
    for id in ids {
        let mut owners: usize = 0;
        for app in apps {
            if validate_desktop_file_id(app, id).is_ok() {
                owners += 1;
                assert!(id.starts_with(&format!("{}.", app)));
                assert!(!id.contains('/'));
            }
        }
        assert!(owners <= 1);
    }
}

fn is_bus_name(name: &str) -> bool {
    let allowed = |c: char| c.is_ascii_alphanumeric() || c == '_' || c == '-';
    name.len() <= 255
        && name.split('.').count() >= 2
        && name.split('.').all(|element| {
            !element.is_empty()
                && !element.starts_with(|c: char| c.is_ascii_digit())
                && element.chars().all(allowed)
        })
}

#[test]
fn app_names_are_bus_names() {
    let names =
        ["a.b.c", "a.b", "a-b.c.d", "a.b.c-d", "a.b.-", "a.b.1", "a..b", ".a.b.c", "a.b.c.", "a"];
    for name in names {
        let mut elements: Vec<&str> = name.split('.').collect();
        let last = elements.pop();
        let few_hyphens = elements.iter().all(|element| !element.contains('-'));
        let expected =
            is_bus_name(name) && elements.len() >= 2 && few_hyphens && last.is_some();
        assert_eq!(flatpak_is_valid_name(name).is_ok(), expected, "{}", name);
        if expected {
            assert!(!name.starts_with('.'));
        }
    }
}
