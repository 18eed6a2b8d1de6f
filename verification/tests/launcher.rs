use dynamic_launcher::icon::ValidatedIcon;
use dynamic_launcher::interface::{DynamicLauncherError, LauncherType};
use dynamic_launcher::launcher::{
    backend_handle_request_install_token, check_prepare_install_options, check_token_request,
    get_supported_launcher_types, BackendPrepareInstallResponse, DynamicLauncher, LauncherData,
    PreparedInstall, TOKEN_TIMEOUT_SECS,
};
use dynamic_launcher::options::{JsonValue, Options};
use std::time::Instant;

const TRUSTED: &str = "org.gnome.Software";
const ID: &str = "org.gnome.Software.Sub.desktop";

fn icon() -> ValidatedIcon {
    ValidatedIcon { format: "png".to_string(), size: "64".to_string(), bytes: vec![1, 2, 3] }
}

fn prepared() -> PreparedInstall {
    check_prepare_install_options(Options::new(), false)
        .ok()
        .unwrap()
        .check_icon(Ok(icon()))
        .ok()
        .unwrap()
}

fn data(name: &str) -> LauncherData {
    LauncherData {
        name: name.to_string(),
        icon: vec![9],
        icon_format: "svg".to_string(),
        icon_size: "1".to_string(),
        inserted_at: Instant::now(),
    }
}

fn other(message: &str) -> DynamicLauncherError {
    DynamicLauncherError::Other { message: message.to_string() }
}

fn invalid(message: &str) -> DynamicLauncherError {
    DynamicLauncherError::InvalidArgument { message: message.to_string() }
}

fn assert_is_token(token: &str) {
    let chars: Vec<char> = token.chars().collect();
    assert_eq!(chars.len(), 36);
    for (i, c) in chars.iter().enumerate() {
        if i == 8 || i == 13 || i == 18 || i == 23 {
            assert_eq!(*c, '-');
        } else {
            assert!(c.is_ascii_digit() || ('a'..='f').contains(c));
        }
    }
    assert_eq!(chars[14], '4');
    assert!(['8', '9', 'a', 'b'].contains(&chars[19]));
}

#[test]
fn who_gets_tokens_unasked() {
    let none = Options::new();
    assert!(backend_handle_request_install_token("org.gnome.Software", &none));
    assert!(backend_handle_request_install_token("org.gnome.SoftwareDevel", &none));
    assert!(backend_handle_request_install_token("com.example.XdpNgDynamicLauncher", &none));
    assert!(!backend_handle_request_install_token("org.gnome.Softwar", &none));
    assert!(!backend_handle_request_install_token("", &none));
    assert_eq!(check_token_request(TRUSTED, &none), Ok(()));
    assert_eq!(
        check_token_request("a.b.c", &none),
        Err(other("RequestInstallToken() not allowed for app id a.b.c"))
    );
}

#[test]
fn supported_launcher_types() {
    assert_eq!(
        get_supported_launcher_types().supported_launcher_types,
        vec![LauncherType::Application, LauncherType::Webapp]
    );
}

#[test]
fn prepare_install_checks() {
    let mut options = Options::new();
    options.insert("modal".to_string(), JsonValue::Bool(false));
    let request = check_prepare_install_options(options, false).ok().unwrap();
    let prepared = request.check_icon(Ok(icon())).ok().unwrap();
    assert_eq!(prepared.icon, icon());
    assert_eq!(prepared.options.get("modal").unwrap().as_bool(), Some(false));

    let mut options = Options::new();
    options.insert("modal".to_string(), JsonValue::Null);
    assert_eq!(
        check_prepare_install_options(options, true).err(),
        Some(invalid("Invalid PrepareInstall() option: Option 'modal' must be a boolean"))
    );
    let request = check_prepare_install_options(Options::new(), false).ok().unwrap();
    assert_eq!(
        request.check_icon(Err("bad".to_string())).err(),
        Some(invalid("Error validating icon: bad"))
    );
}

#[test]
fn requested_tokens_are_good_once() {
    let mut portal = DynamicLauncher::new();
    let token = portal
        .request_install_token(TRUSTED, "Name".to_string(), &Options::new(), Ok(icon()))
        .unwrap()
        .token;
    assert_is_token(&token);
    let found = portal.take_launcher_data(&token).unwrap();
    assert_eq!(found.name, "Name");
    assert_eq!(found.icon, vec![1, 2, 3]);
    assert_eq!(found.icon_format, "png");
    assert_eq!(found.icon_size, "64");
    assert!(portal.take_launcher_data(&token).is_none());
}

#[test]
fn tokens_differ() {
    let mut portal = DynamicLauncher::new();
    let mut seen: Vec<String> = Vec::new();
    for _ in 0..20 {
        let token = portal
            .request_install_token(TRUSTED, "n".to_string(), &Options::new(), Ok(icon()))
            .unwrap()
            .token;
        assert!(!seen.contains(&token));
        seen.push(token);
    }
}

#[test]
fn refused_token_requests() {
    let mut portal = DynamicLauncher::new();
    assert_eq!(
        portal.request_install_token("a.b.c", "n".to_string(), &Options::new(), Ok(icon())),
        Err(other("RequestInstallToken() not allowed for app id a.b.c"))
    );
    assert_eq!(
        portal.request_install_token(TRUSTED, "n".to_string(), &Options::new(), Err("x".to_string())),
        Err(other("Icon failed validation: x"))
    );
    assert_eq!(
        portal.request_install_token("a.b.c", "n".to_string(), &Options::new(), Err("x".to_string())),
        Err(other("RequestInstallToken() not allowed for app id a.b.c"))
    );
}

#[test]
fn chosen_tokens_are_kept() {
    let mut portal = DynamicLauncher::new();
    let reply = portal.request_install_token_with(
        TRUSTED,
        "n".to_string(),
        &Options::new(),
        Ok(icon()),
        "t".to_string(),
        Instant::now(),
    );
    assert_eq!(reply.unwrap().token, "t");
    assert_eq!(portal.take_launcher_data_after("t", 0).unwrap().name, "n");
}

#[test]
fn prepared_installs() {
    let mut portal = DynamicLauncher::new();
    let response = BackendPrepareInstallResponse { name: "Chosen".to_string(), icon: vec![7, 8] };
    let reply = portal.prepare_install(prepared(), Ok(Some(response))).unwrap();
    assert_is_token(&reply.token);
    assert_eq!(reply.name, "Chosen");
    assert_eq!(reply.icon, vec![7, 8]);
    let found = portal.take_launcher_data(&reply.token).unwrap();
    assert_eq!(found.name, "Chosen");
    assert_eq!(found.icon, vec![7, 8]);
    assert_eq!(found.icon_format, "png");
    assert_eq!(found.icon_size, "64");
}

#[test]
fn prepared_installs_that_fail() {
    let mut portal = DynamicLauncher::new();
    assert_eq!(portal.prepare_install(prepared(), Ok(None)), Err(DynamicLauncherError::Cancelled));
    assert_eq!(
        portal.prepare_install(prepared(), Err("gone".to_string())),
        Err(other("Call to backend_handle_prepare_install() failed: gone"))
    );
    let reply = portal.prepare_install_with(prepared(), Ok(None), "t".to_string(), Instant::now());
    assert_eq!(reply, Err(DynamicLauncherError::Cancelled));
    assert!(portal.take_launcher_data_after("t", 0).is_none());
}

#[test]
fn tokens_expire() {
    let mut portal = DynamicLauncher::new();
    assert_eq!(TOKEN_TIMEOUT_SECS, 300);
    portal.insert_launcher_data("young".to_string(), data("a"));
    portal.insert_launcher_data("old".to_string(), data("b"));
    assert_eq!(portal.take_launcher_data_after("young", 300).unwrap().name, "a");
    assert!(portal.take_launcher_data_after("old", 301).is_none());
    assert!(portal.take_launcher_data_after("old", 0).is_none());
}

#[test]
fn other_tokens_stay() {
    let mut portal = DynamicLauncher::new();
    portal.insert_launcher_data("a".to_string(), data("A"));
    portal.insert_launcher_data("b".to_string(), data("B"));
    assert!(portal.take_launcher_data("c").is_none());
    assert_eq!(portal.take_launcher_data("a").unwrap().name, "A");
    assert_eq!(portal.take_launcher_data("b").unwrap().name, "B");
}

#[test]
fn installs_spend_the_token() {
    let mut portal = DynamicLauncher::new();
    portal.insert_launcher_data("t".to_string(), data("N"));
    let request = portal.install(TRUSTED, "t", ID).unwrap();
    assert_eq!(request.app_id, TRUSTED);
    assert_eq!(request.desktop_file_id, ID);
    assert_eq!(request.data.name, "N");
    assert_eq!(portal.install(TRUSTED, "t", ID).err(), Some(invalid("Token given is invalid: t")));
}

#[test]
fn refused_installs_spend_the_token() {
    let mut portal = DynamicLauncher::new();
    portal.insert_launcher_data("t".to_string(), data("N"));
    assert_eq!(
        portal.install(TRUSTED, "t", "x").err(),
        Some(invalid(
            "Validating desktop file id failed: Desktop file id missing .desktop suffix: x"
        ))
    );
    assert_eq!(portal.install(TRUSTED, "t", ID).err(), Some(invalid("Token given is invalid: t")));
}

#[test]
fn installs_with_an_expired_token() {
    let mut portal = DynamicLauncher::new();
    portal.insert_launcher_data("t".to_string(), data("N"));
    assert_eq!(
        portal.install_after(TRUSTED, "t", ID, 301).err(),
        Some(invalid("Token given is invalid: t"))
    );
    portal.insert_launcher_data("t".to_string(), data("N"));
    assert!(portal.install_after(TRUSTED, "t", ID, 300).is_ok());
}

#[test]
fn unknown_tokens_are_refused() {
    let mut portal = DynamicLauncher::new();
    assert_eq!(
        portal.install(TRUSTED, "", ID).err(),
        Some(invalid("Token given is invalid: "))
    );
    assert_eq!(
        portal.install(TRUSTED, "t", "x").err(),
        Some(invalid("Token given is invalid: t"))
    );
}

#[test]
fn supported_types_are_accepted() {
    for launcher_type in get_supported_launcher_types().supported_launcher_types {
        let mut options = Options::new();
        let name = JsonValue::Text(launcher_type.name().to_string());
        options.insert("launcher_type".to_string(), name);
        options.insert("target".to_string(), JsonValue::Text("https://a.b".to_string()));
        assert!(check_prepare_install_options(options, true).is_ok());
    }
}

#[test]
fn tokens_age_from_the_moment_they_were_given_out() {
    let mut portal = DynamicLauncher::new();
    let Some(long_ago) = Instant::now().checked_sub(std::time::Duration::from_secs(302)) else {
        return;
    };
    let mut old = data("old");
    old.inserted_at = long_ago;
    portal.insert_launcher_data("old".to_string(), old.clone());
    portal.insert_launcher_data("young".to_string(), data("young"));
    assert!(portal.take_launcher_data("old").is_none());
    assert_eq!(portal.take_launcher_data("young").unwrap().name, "young");
    portal.insert_launcher_data("old".to_string(), old);
    assert_eq!(
        portal.install(TRUSTED, "old", ID).err(),
        Some(invalid("Token given is invalid: old"))
    );
}

#[test]
fn given_out_tokens_are_as_old_as_the_call() {
    let mut portal = DynamicLauncher::new();
    let before = Instant::now();
    let token = portal
        .request_install_token(TRUSTED, "n".to_string(), &Options::new(), Ok(icon()))
        .unwrap()
        .token;
    let response = BackendPrepareInstallResponse { name: "N".to_string(), icon: vec![1] };
    let prepared_token = portal.prepare_install(prepared(), Ok(Some(response))).unwrap().token;
    let after = Instant::now();
    for token in [token, prepared_token] {
        let inserted_at = portal.take_launcher_data(&token).unwrap().inserted_at;
        assert!(before <= inserted_at && inserted_at <= after);
    }
}
