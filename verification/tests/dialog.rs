use dynamic_launcher::dialog::{
    address_markup, backend_handle_dialog_request, backend_handle_prepare_install, check_parent,
    dialog_answer, dialog_settings, has_parent, DEFAULT_ICON_SIZE,
};
use dynamic_launcher::icon::ValidatedIcon;
use dynamic_launcher::interface::{DynamicLauncherError, LauncherType};
use dynamic_launcher::launcher::{check_prepare_install_options, DynamicLauncher};
use dynamic_launcher::options::{JsonValue, Options};

fn text(s: &str) -> JsonValue {
    JsonValue::Text(s.to_string())
}

#[test]
fn parents_of_dialogs() {
    assert_eq!(DEFAULT_ICON_SIZE, 128);
    assert!(has_parent("wayland:x"));
    assert!(!has_parent(""));
    assert_eq!(check_parent("", false), Ok(()));
    assert_eq!(check_parent("wayland:x", true), Ok(()));
    assert_eq!(
        check_parent("wayland:x", false),
        Err("Couldn't get handle from parent window handle".to_string())
    );
}

#[test]
fn plain_dialogs() {
    let settings = dialog_settings(&Options::new());
    assert_eq!(settings.launcher_type, LauncherType::Application);
    assert_eq!(settings.url, None);
    assert!(settings.modal);
    assert!(settings.editable_name);
    assert_eq!(settings.title, "Create App");
}

#[test]
fn web_dialogs() {
    let mut options = Options::new();
    options.insert("launcher_type".to_string(), text("webapp"));
    options.insert("target".to_string(), text("https://a.b"));
    options.insert("modal".to_string(), JsonValue::Bool(false));
    options.insert("editable_name".to_string(), JsonValue::Bool(false));
    let settings = dialog_settings(&options);
    assert_eq!(settings.launcher_type, LauncherType::Webapp);
    assert_eq!(settings.url, Some("https://a.b".to_string()));
    assert!(!settings.modal);
    assert!(!settings.editable_name);
    assert_eq!(settings.title, "Create Web App");
    options.insert("launcher_type".to_string(), text("Webapp"));
    options.insert("modal".to_string(), JsonValue::Null);
    let settings = dialog_settings(&options);
    assert_eq!(settings.launcher_type, LauncherType::Application);
    assert_eq!(settings.url, None);
    assert!(settings.modal);
}

#[test]
fn addresses_are_small() {
    assert_eq!(address_markup("https://a.b/?x=1&amp;y"), "<small>https://a.b/?x=1&amp;y</small>");
}

#[test]
fn dialog_answers() {
    assert_eq!(
        dialog_answer(true, "N".to_string(), vec![1]),
        Some(("N".to_string(), vec![1]))
    );
    assert_eq!(dialog_answer(true, String::new(), vec![1]), None);
    assert_eq!(dialog_answer(false, "N".to_string(), vec![1]), None);
}

#[test]
fn dialogs_that_go_away() {
    assert_eq!(
        backend_handle_dialog_request(None),
        Err("Channel closed without seeing result".to_string())
    );
    assert_eq!(backend_handle_dialog_request(Some(None)), Ok(None));
    assert_eq!(
        backend_handle_prepare_install(None).err(),
        Some("Dialog channel got dropped".to_string())
    );
    assert_eq!(
        backend_handle_prepare_install(Some(Err("gone".to_string()))).err(),
        Some("gone".to_string())
    );
}

#[test]
fn tokens_follow_the_dialog() {
    for (created, name) in [(true, "N"), (true, ""), (false, "N"), (false, "")] {
        let answer = dialog_answer(created, name.to_string(), vec![5]);
        let dialog = backend_handle_dialog_request(Some(answer));
        let response = backend_handle_prepare_install(Some(dialog));
        let icon = ValidatedIcon {
            format: "png".to_string(),
            size: "64".to_string(),
            bytes: vec![5],
        };
        let request = check_prepare_install_options(Options::new(), false).ok().unwrap();
        let prepared = request.check_icon(Ok(icon)).ok().unwrap();
        let reply = DynamicLauncher::new().prepare_install(prepared, response);
        if created && !name.is_empty() {
            let reply = reply.unwrap();
            assert_eq!(reply.name, name);
            assert_eq!(reply.icon, vec![5]);
        } else {
            assert_eq!(reply, Err(DynamicLauncherError::Cancelled));
        }
    }
}
