use dynamic_launcher::flatpak::{
    app_id_from_pid, get_flatpak_app_id, info_path_of, peer_process, read_flatpak_info,
    root_path_of, FlatpakInfo,
};
use dynamic_launcher::interface::DynamicLauncherError;

fn info(application: Result<&str, &str>, runtime: Result<&str, &str>) -> FlatpakInfo {
    FlatpakInfo {
        application_name: application.map(String::from).map_err(String::from),
        runtime_name: runtime.map(String::from).map_err(String::from),
    }
}

fn other(message: &str) -> DynamicLauncherError {
    DynamicLauncherError::Other { message: message.to_string() }
}

#[test]
fn process_paths() {
    assert_eq!(root_path_of(1), "/proc/1/root");
    assert_eq!(info_path_of(4194304), "/proc/4194304/root/.flatpak-info");
}

#[test]
fn only_flatpak_applications_have_an_id() {
    let found = read_flatpak_info(true, false, Some(info(Ok("a.b.c"), Err("none"))));
    assert_eq!(app_id_from_pid(found), Ok("a.b.c".to_string()));
    let found = read_flatpak_info(false, false, Some(info(Ok("a.b.c"), Err("none"))));
    assert_eq!(app_id_from_pid(found), Err("Not a flatpak app".to_string()));
    let found = read_flatpak_info(true, false, None);
    assert_eq!(app_id_from_pid(found), Err("Not a flatpak app".to_string()));
}

#[test]
fn application_comes_before_runtime() {
    assert_eq!(
        app_id_from_pid(Some(info(Ok("app"), Ok("runtime")))),
        Ok("app".to_string())
    );
    assert_eq!(
        app_id_from_pid(Some(info(Err("no app"), Ok("runtime")))),
        Ok("runtime".to_string())
    );
    assert_eq!(
        app_id_from_pid(Some(info(Err("no app"), Err("no runtime")))),
        Err("no runtime".to_string())
    );
}

#[test]
fn caller_answers() {
    assert_eq!(peer_process(Ok(7)), Ok(7));
    assert_eq!(
        peer_process(Err("closed".to_string())),
        Err(other("Getting peer credentials failed: closed"))
    );
    assert_eq!(get_flatpak_app_id(Ok("a.b.c".to_string())), Ok("a.b.c".to_string()));
    assert_eq!(
        get_flatpak_app_id(Err("Not a flatpak app".to_string())),
        Err(other("Getting app id failed: Not a flatpak app"))
    );
}

#[test]
fn roots_on_fuse_are_no_flatpak_roots() {
    let found = read_flatpak_info(true, true, Some(info(Ok("a.b.c"), Ok("r"))));
    assert!(found.is_none());
    assert!(read_flatpak_info(true, false, Some(info(Ok("a.b.c"), Ok("r")))).is_some());
}

#[test]
fn host_applications_are_refused() {
    for (root_is_dir, root_is_fuse, found) in [
        (false, false, Some(info(Ok("a.b.c"), Ok("r")))),
        (true, true, Some(info(Ok("a.b.c"), Ok("r")))),
        (true, false, None),
    ] {
        let app_id = app_id_from_pid(read_flatpak_info(root_is_dir, root_is_fuse, found));
        assert_eq!(
            get_flatpak_app_id(app_id),
            Err(other("Getting app id failed: Not a flatpak app"))
        );
    }
}
