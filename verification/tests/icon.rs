use dynamic_launcher::icon::{
    icon_dir_of, icon_path_of, is_in_icons_dir, parse_validator_output, recognise,
    serialized_icon_text, serialized_icon_validator_args, validate_serialized_icon, validator_args, validator_program,
    xdp_validate_icon, IconDecoding, IconType, ValidatedIcon, ValidatorReport, ValidatorRun,
};
use dynamic_launcher::options::JsonValue;
use dynamic_launcher::path::join;

fn report(format: &str, width: i32) -> ValidatorReport {
    ValidatorReport { format: Ok(format.to_string()), width: Ok(width) }
}

#[test]
fn validator_command() {
    assert_eq!(validator_program(None), "/usr/libexec/xdg-desktop-portal-validate-icon");
    assert_eq!(validator_program(Some("/opt/v".to_string())), "/opt/v");
    assert_eq!(
        validator_args(false, IconType::Desktop),
        vec!["--sandbox", "--fd", "3", "--ruleset", "desktop"]
    );
    assert_eq!(validator_args(true, IconType::Webapp), vec!["--fd", "3", "--ruleset", "webapp"]);
    assert_eq!(
        serialized_icon_validator_args(false),
        vec!["--sandbox", "--fd", "3", "--ruleset", "desktop"]
    );
    assert_eq!(
        serialized_icon_validator_args(true),
        vec!["--fd", "3", "--ruleset", "desktop"]
    );
    assert_eq!(IconType::Desktop.to_ruleset(), "desktop");
    assert_eq!(IconType::Webapp.to_ruleset(), "webapp");
}

#[test]
fn validator_reports() {
    assert_eq!(
        parse_validator_output(Ok(report("png", 512))),
        Ok(("png".to_string(), "512".to_string()))
    );
    assert_eq!(
        parse_validator_output(Ok(report("svg", -1))),
        Ok(("svg".to_string(), "-1".to_string()))
    );
    assert_eq!(
        parse_validator_output(Err("bad".to_string())),
        Err("Icon validation: bad".to_string())
    );
    assert_eq!(
        parse_validator_output(Ok(ValidatorReport {
            format: Err("no format".to_string()),
            width: Err("no width".to_string()),
        })),
        Err("Icon validation: no format".to_string())
    );
    assert_eq!(
        parse_validator_output(Ok(ValidatorReport {
            format: Ok("png".to_string()),
            width: Err("no width".to_string()),
        })),
        Err("Icon validation: no width".to_string())
    );
}

#[test]
fn validator_runs() {
    assert_eq!(
        xdp_validate_icon("/v", ValidatorRun::NotFound),
        Err("Icon validation: /v not found, rejecting icon by default.".to_string())
    );
    assert_eq!(
        xdp_validate_icon("/v", ValidatorRun::NotPrepared("clash".to_string())),
        Err("clash".to_string())
    );
    assert_eq!(
        xdp_validate_icon("/v", ValidatorRun::NotRun("denied".to_string())),
        Err("Icon validation: Rejecting icon: Couldn't run validator: denied".to_string())
    );
    assert_eq!(
        xdp_validate_icon("/v", ValidatorRun::Rejected("too big".to_string())),
        Err("Icon validation: Rejecting icon because validator failed: too big".to_string())
    );
    assert_eq!(
        xdp_validate_icon("/v", ValidatorRun::Accepted(Ok(report("jpeg", 64)))),
        Ok(("jpeg".to_string(), "64".to_string()))
    );
}

#[test]
fn serialized_icons() {
    let value = JsonValue::Text("('bytes', <b'x'>)".to_string());
    assert_eq!(serialized_icon_text(&value), Ok("('bytes', <b'x'>)"));
    assert_eq!(
        serialized_icon_text(&JsonValue::Null),
        Err("JSON value is not a string".to_string())
    );
    let judged = |verdict: Result<(String, String), String>| IconDecoding::Judged {
        bytes: vec![1, 2],
        verdict,
    };
    assert_eq!(
        validate_serialized_icon(&JsonValue::Other, judged(Err("x".to_string()))),
        Err("JSON value is not a string".to_string())
    );
    assert_eq!(
        validate_serialized_icon(&value, IconDecoding::Unparsable("syntax".to_string())),
        Err("syntax".to_string())
    );
    assert_eq!(
        validate_serialized_icon(&value, IconDecoding::NotAnIcon),
        Err("Failed to deserialize icon".to_string())
    );
    assert_eq!(
        validate_serialized_icon(&value, IconDecoding::NotBytes),
        Err("Icon is not a BytesIcon".to_string())
    );
    assert_eq!(
        validate_serialized_icon(&value, IconDecoding::NotSealed("memory".to_string())),
        Err("memory".to_string())
    );
    assert_eq!(
        validate_serialized_icon(&value, judged(Err("no".to_string()))),
        Err("no".to_string())
    );
    assert_eq!(
        validate_serialized_icon(&value, judged(Ok(("png".to_string(), "64".to_string())))),
        Ok(ValidatedIcon {
            format: "png".to_string(),
            size: "64".to_string(),
            bytes: vec![1, 2],
        })
    );
}

#[test]
fn icon_places() {
    assert_eq!(icon_dir_of("png", "512"), "xdg-desktop-portal/icons/512x512");
    assert_eq!(icon_dir_of("svg", "512"), "xdg-desktop-portal/icons/scalable");
    assert_eq!(
        icon_path_of("a.b.c.desktop", "png", "512"),
        "xdg-desktop-portal/icons/512x512/a.b.c.png"
    );
    assert_eq!(
        icon_path_of("a.b.c.desktop", "svg", "-1"),
        "xdg-desktop-portal/icons/scalable/a.b.c.svg"
    );
}

#[test]
fn icons_directory() {
    let dir = Some("/d");
    assert!(is_in_icons_dir("/d/xdg-desktop-portal/icons/x.png", dir));
    assert!(is_in_icons_dir("/d//xdg-desktop-portal/./icons/x.png", dir));
    assert!(is_in_icons_dir("/d/xdg-desktop-portal/icons", dir));
    assert!(!is_in_icons_dir("/d/xdg-desktop-portal/iconset/x.png", dir));
    assert!(!is_in_icons_dir("/d/xdg-desktop-portal/applications/x.png", dir));
    assert!(!is_in_icons_dir("xdg-desktop-portal/icons/x.png", dir));
    assert!(!is_in_icons_dir("/e/xdg-desktop-portal/icons/x.png", dir));
    assert!(!is_in_icons_dir("/d/xdg-desktop-portal/icons/x.png", None));
}

#[test]
fn recognised_icons() {
    let at = |rest: &str| recognise(&format!("/d/xdg-desktop-portal/icons/{}", rest), Some("/d"));
    assert_eq!(at("512x512/a.png"), Some(("png", 512)));
    assert_eq!(at("1x1/a.svg"), Some(("svg", 1)));
    assert_eq!(at("scalable/a.svg"), Some(("svg", 4096)));
    assert_eq!(at("scalable/a.png"), Some(("png", 4096)));
    assert_eq!(at("64x64/a.jpeg"), Some(("jpeg", 64)));
    assert_eq!(at("64x64/a.jpg"), Some(("jpeg", 64)));
    assert_eq!(at("32x64@2/a.png"), Some(("png", 64)));
    assert_eq!(at("4096x4096/a.png"), Some(("png", 4096)));
    assert_eq!(at("4097x4097/a.png"), None);
    assert_eq!(at("0x0/a.png"), None);
    assert_eq!(at("-1x-1/a.png"), None);
    assert_eq!(at("99999999999x99999999999/a.png"), None);
    assert_eq!(at("512/a.png"), None);
    assert_eq!(at("a.png"), None);
    assert_eq!(at("512x512/a.gif"), None);
    assert_eq!(at("512x512/apng"), None);
    assert_eq!(recognise("/e/512x512/a.png", Some("/d")), None);
    assert_eq!(recognise("/d/xdg-desktop-portal/icons/512x512/a.png", None), None);
}

#[test]
fn installed_icons_are_recognised() {
    for data_dir in ["/home/u/.local/share", "/d/", "/", "relative"] {
        for (format, width) in [("png", 1), ("png", 48), ("jpeg", 4096), ("svg", 4096)] {
            let icon = icon_path_of("a.b.c.desktop", format, &width.to_string());
            let full = join(data_dir, &icon);
            assert!(is_in_icons_dir(&full, Some(data_dir)));
            assert_eq!(recognise(&full, Some(data_dir)), Some((format, width)));
        }
        for format in ["x/y", "/x", "", "../x"] {
            let full = join(data_dir, &icon_path_of("a.b.c.desktop", format, "8"));
            assert!(is_in_icons_dir(&full, Some(data_dir)));
        }
    }
}
