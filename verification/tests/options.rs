use dynamic_launcher::interface::LauncherType;
use dynamic_launcher::options::{
    target_uri, text_option_of, validate_prepare_install_options, JsonValue, OptionError, Options,
};

const ALL: &[LauncherType] = &[LauncherType::Application, LauncherType::Webapp];

fn text(s: &str) -> JsonValue {
    JsonValue::Text(s.to_string())
}

fn options(entries: Vec<(&str, JsonValue)>) -> Options {
    let mut r = Options::new();
    for (key, value) in entries {
        r.insert(key.to_string(), value);
    }
    r
}

#[test]
fn no_options_are_fine() {
    assert_eq!(validate_prepare_install_options(&Options::new(), ALL, false), Ok(()));
    assert_eq!(validate_prepare_install_options(&Options::new(), &[], false), Ok(()));
}

#[test]
fn flags_must_be_booleans() {
    for (key, error) in [
        ("modal", OptionError::ModalNotBoolean),
        ("editable_name", OptionError::EditableNameNotBoolean),
        ("editable_icon", OptionError::EditableIconNotBoolean),
    ] {
        let good = options(vec![(key, JsonValue::Bool(false))]);
        assert_eq!(validate_prepare_install_options(&good, ALL, true), Ok(()));
        for bad in [JsonValue::Null, text("true"), JsonValue::Other, JsonValue::Object(Vec::new())] {
            let o = options(vec![(key, bad)]);
            assert_eq!(validate_prepare_install_options(&o, ALL, true), Err(error));
        }
        assert_eq!(error.message(), format!("Option '{}' must be a boolean", key));
    }
}

#[test]
fn first_flag_is_complained_about_first() {
    let o = options(vec![
        ("editable_icon", JsonValue::Null),
        ("modal", JsonValue::Null),
        ("launcher_type", JsonValue::Null),
    ]);
    assert_eq!(
        validate_prepare_install_options(&o, ALL, true),
        Err(OptionError::ModalNotBoolean)
    );
}

#[test]
fn launcher_types_are_checked() {
    let app = options(vec![("launcher_type", text("Application"))]);
    let web = options(vec![("launcher_type", text("Webapp"))]);
    assert_eq!(validate_prepare_install_options(&app, ALL, false), Ok(()));
    assert_eq!(validate_prepare_install_options(&web, ALL, false), Ok(()));
    assert_eq!(
        validate_prepare_install_options(&web, &[LauncherType::Application], true),
        Err(OptionError::UnsupportedLauncherType(LauncherType::Webapp))
    );
    for bad in [text("webapp"), text(""), JsonValue::Null, JsonValue::Bool(true), JsonValue::Other] {
        let o = options(vec![("launcher_type", bad)]);
        assert_eq!(
            validate_prepare_install_options(&o, ALL, true),
            Err(OptionError::InvalidLauncherType)
        );
    }
}

#[test]
fn launcher_type_as_an_object() {
    let one = |value: JsonValue| {
        JsonValue::Object(vec![("Webapp".to_string(), value)])
    };
    assert_eq!(one(JsonValue::Null).as_launcher_type(), Some(LauncherType::Webapp));
    assert_eq!(one(JsonValue::Bool(true)).as_launcher_type(), None);
    assert_eq!(JsonValue::Object(Vec::new()).as_launcher_type(), None);
    let two = JsonValue::Object(vec![
        ("Webapp".to_string(), JsonValue::Null),
        ("Application".to_string(), JsonValue::Null),
    ]);
    assert_eq!(two.as_launcher_type(), None);
}

#[test]
fn target_is_read_beside_a_launcher_type_only() {
    let alone = options(vec![("target", JsonValue::Null)]);
    assert_eq!(target_uri(&alone), None);
    assert_eq!(validate_prepare_install_options(&alone, ALL, false), Ok(()));

    let no_text = options(vec![("launcher_type", text("Webapp")), ("target", JsonValue::Bool(true))]);
    assert_eq!(target_uri(&no_text), None);
    assert_eq!(
        validate_prepare_install_options(&no_text, ALL, true),
        Err(OptionError::TargetNotString)
    );

    let both = options(vec![("launcher_type", text("Webapp")), ("target", text("https://a.b"))]);
    assert_eq!(target_uri(&both), Some("https://a.b"));
    assert_eq!(validate_prepare_install_options(&both, ALL, true), Ok(()));
    assert_eq!(
        validate_prepare_install_options(&both, ALL, false),
        Err(OptionError::InvalidTarget)
    );
}

#[test]
fn option_messages() {
    assert_eq!(OptionError::InvalidLauncherType.message(), "Invalid launcher_type");
    assert_eq!(
        OptionError::UnsupportedLauncherType(LauncherType::Webapp).message(),
        "Unsupported launcher_type: Webapp"
    );
    assert_eq!(
        OptionError::UnsupportedLauncherType(LauncherType::Application).message(),
        "Unsupported launcher_type: Application"
    );
    assert_eq!(OptionError::TargetNotString.message(), "Option 'target' must be a string");
    assert_eq!(OptionError::InvalidTarget.message(), "Given URI is invalid");
}

#[test]
fn values_by_kind() {
    assert_eq!(JsonValue::Bool(false).as_bool(), Some(false));
    assert_eq!(text("x").as_bool(), None);
    assert!(JsonValue::Bool(true).is_boolean());
    assert!(!JsonValue::Null.is_boolean());
    assert_eq!(text("x").as_str(), Some("x"));
    assert_eq!(JsonValue::Other.as_str(), None);
    assert_eq!(LauncherType::from_name("Webapp"), Some(LauncherType::Webapp));
    assert_eq!(LauncherType::from_name("webapp"), None);
    assert_eq!(LauncherType::Application.name(), "Application");
}

#[test]
fn later_values_win() {
    let mut o = options(vec![("a", text("1"))]);
    o.insert("a".to_string(), text("2"));
    assert_eq!(text_option_of(&o, "a"), Some("2"));
    assert_eq!(text_option_of(&o, "b"), None);
}

/// The same value twice: as the JSON library has it, with `Unbounded` for a name, and as the rules
/// read it, with `Webapp`.
fn unit_variant_candidates() -> Vec<(serde_json::Value, JsonValue)> {
    let object = |entries: Vec<(&str, serde_json::Value)>| {
        let mut map = serde_json::Map::new();
        for (key, value) in entries {
            map.insert(key.to_string(), value);
        }
        serde_json::Value::Object(map)
    };
    let rules_object = |entries: Vec<(&str, JsonValue)>| {
        JsonValue::Object(entries.into_iter().map(|(k, v)| (k.to_string(), v)).collect())
    };
    let null = || serde_json::Value::Null;
    vec![
        (serde_json::Value::from("Unbounded"), text("Webapp")),
        (serde_json::Value::from("unbounded"), text("webapp")),
        (null(), JsonValue::Null),
        (serde_json::Value::from(true), JsonValue::Bool(true)),
        (serde_json::Value::from(0), JsonValue::Other),
        (serde_json::Value::from(vec!["Unbounded"]), JsonValue::Other),
        (object(vec![]), rules_object(vec![])),
        (object(vec![("Unbounded", null())]), rules_object(vec![("Webapp", JsonValue::Null)])),
        (object(vec![("x", null())]), rules_object(vec![("x", JsonValue::Null)])),
        (
            object(vec![("Unbounded", serde_json::Value::from(true))]),
            rules_object(vec![("Webapp", JsonValue::Bool(true))]),
        ),
        (
            object(vec![("Unbounded", object(vec![]))]),
            rules_object(vec![("Webapp", rules_object(vec![]))]),
        ),
        (
            object(vec![("Unbounded", null()), ("x", null())]),
            rules_object(vec![("Webapp", JsonValue::Null), ("x", JsonValue::Null)]),
        ),
    ]
}

#[test]
fn unit_variants_are_read_as_the_json_library_reads_them() {
    for (value, rules_value) in unit_variant_candidates() {
        let read: Result<std::ops::Bound<u8>, serde_json::Error> =
            serde_json::from_value(value.clone());
        let expected = match read {
            Ok(std::ops::Bound::Unbounded) => Some(LauncherType::Webapp),
            _ => None,
        };
        assert_eq!(rules_value.as_launcher_type(), expected, "{:?}", value);
    }
}
