//! Who is calling: the application id of a process, from what Flatpak says of it.

use crate::interface::{other_error, outcome, text_outcome, DynamicLauncherError, ErrorView};
use crate::text;
use crate::text::decimal;
use vstd::prelude::*;
use vstd::string::*;

verus! {

/// What the information file of a process holds: its two names, or the complaint of the reader
/// about each that is missing.
pub struct FlatpakInfo {
    /// `name` in the group `Application`.
    pub application_name: Result<String, String>,
    /// `name` in the group `Runtime`.
    pub runtime_name: Result<String, String>,
}

/// The root directory of a process.
pub open spec fn root_path(pid: u32) -> Seq<char> {
    "/proc/"@ + decimal(pid as nat) + "/root"@
}

/// The information file of a process.
pub open spec fn info_path(pid: u32) -> Seq<char> {
    root_path(pid) + "/.flatpak-info"@
}

/// The application id of a process, or why it has none. The name of the application comes before
/// that of the runtime.
pub open spec fn app_id_of(info: Option<FlatpakInfo>) -> Result<Seq<char>, Seq<char>> {
    match info {
        None => Err("Not a flatpak app"@),
        Some(info) => match info.application_name {
            Ok(name) => Ok(name@),
            Err(_) => text_outcome(info.runtime_name),
        },
    }
}

/// What Flatpak says of a process: nothing where its root is not a directory or is on FUSE.
pub open spec fn flatpak_info(
    root_is_dir: bool,
    root_is_fuse: bool,
    info: Option<FlatpakInfo>,
) -> Option<FlatpakInfo> {
    if root_is_dir && !root_is_fuse {
        info
    } else {
        None
    }
}

/// What a method of the portal answers to a caller without an application id.
pub open spec fn app_id_outcome(app_id: Result<Seq<char>, Seq<char>>) -> Result<
    Seq<char>,
    ErrorView,
> {
    match app_id {
        Ok(id) => Ok(id),
        Err(e) => Err(ErrorView::Other("Getting app id failed: "@ + e)),
    }
}

/// The root directory of a process.
pub fn root_path_of(pid: u32) -> (r: String)
    ensures
        r@ == root_path(pid),
{
    "/proc/".to_owned().concat(text::decimal_text(pid).as_str()).concat("/root")
}

/// The information file of a process.
pub fn info_path_of(pid: u32) -> (r: String)
    ensures
        r@ == info_path(pid),
{
    root_path_of(pid).concat("/.flatpak-info")
}

/// What Flatpak says of a process. One whose root is not a directory, or is on a FUSE file system
/// as with Toolbox, is no Flatpak application, whatever its information file holds.
pub fn read_flatpak_info(root_is_dir: bool, root_is_fuse: bool, info: Option<FlatpakInfo>) -> (r:
    Option<FlatpakInfo>)
    ensures
        r == flatpak_info(root_is_dir, root_is_fuse, info),
{
    if root_is_dir && !root_is_fuse {
        info
    } else {
        None
    }
}

/// The application id of a process, or why it has none.
pub fn app_id_from_pid(info: Option<FlatpakInfo>) -> (r: Result<String, String>)
    ensures
        text_outcome(r) == app_id_of(info),
{
    match info {
        None => Err("Not a flatpak app".to_owned()),
        Some(info) => match info.application_name {
            Ok(name) => Ok(name),
            Err(_) => info.runtime_name,
        },
    }
}

/// The process at the other end of a connection.
pub fn peer_process(process_id: Result<u32, String>) -> (r: Result<u32, DynamicLauncherError>)
    ensures
        match (process_id, r) {
            (Ok(pid), Ok(found)) => found == pid,
            (Err(complaint), Err(e)) => e@ == ErrorView::Other(
                "Getting peer credentials failed: "@ + complaint@,
            ),
            _ => false,
        },
{
    match process_id {
        Ok(pid) => Ok(pid),
        Err(e) => Err(
            other_error("Getting peer credentials failed: ".to_owned().concat(e.as_str())),
        ),
    }
}

/// The application id of the caller, which is never empty.
pub fn get_flatpak_app_id(app_id: Result<String, String>) -> (r: Result<
    String,
    DynamicLauncherError,
>)
    requires
        app_id matches Ok(id) ==> id@.len() > 0,
    ensures
        outcome(r) == app_id_outcome(text_outcome(app_id)),
        r matches Ok(id) ==> id@.len() > 0,
{
    match app_id {
        Ok(id) => Ok(id),
        Err(e) => Err(other_error("Getting app id failed: ".to_owned().concat(e.as_str()))),
    }
}

/// The portal serves Flatpak applications only: a process whose root is not a directory or is on
/// FUSE, or that has no information file that can be read, is refused.
pub proof fn law_others_are_refused(
    root_is_dir: bool,
    root_is_fuse: bool,
    info: Option<FlatpakInfo>,
)
    requires
        !root_is_dir || root_is_fuse || info is None,
    ensures
        app_id_outcome(app_id_of(flatpak_info(root_is_dir, root_is_fuse, info))) == Err::<
            Seq<char>,
            ErrorView,
        >(ErrorView::Other("Getting app id failed: Not a flatpak app"@)),
{
    reveal_strlit("Getting app id failed: ");
    reveal_strlit("Not a flatpak app");
    reveal_strlit("Getting app id failed: Not a flatpak app");
    assert("Getting app id failed: "@ + "Not a flatpak app"@
        =~= "Getting app id failed: Not a flatpak app"@);
}

/// The root directory of a process and its information file are found by the number of the process.
pub proof fn law_process_paths(pid: u32, number: String, root: String, info: String)
    requires
        call_ensures(text::decimal_text, (pid,), number),
        call_ensures(root_path_of, (pid,), root),
        call_ensures(info_path_of, (pid,), info),
    ensures
        root@ == "/proc/"@ + number@ + "/root"@,
        info@ == "/proc/"@ + number@ + "/root/.flatpak-info"@,
{
    reveal_strlit("/root");
    reveal_strlit("/.flatpak-info");
    reveal_strlit("/root/.flatpak-info");
    assert(info@ =~= "/proc/"@ + number@ + "/root/.flatpak-info"@);
}

/// The application id of a process is the name of the application, or else of the runtime, as the
/// information file has it; without such a file, or with a root that is no directory or on FUSE,
/// there is none.
pub proof fn law_app_ids(
    root_is_dir: bool,
    root_is_fuse: bool,
    info: Option<FlatpakInfo>,
    read: Option<FlatpakInfo>,
    r: Result<String, String>,
)
    requires
        call_ensures(read_flatpak_info, (root_is_dir, root_is_fuse, info), read),
        call_ensures(app_id_from_pid, (read,), r),
    ensures
        !root_is_dir || root_is_fuse || info is None ==> (r matches Err(complaint) && complaint@
            == "Not a flatpak app"@),
        root_is_dir && !root_is_fuse ==> (info matches Some(info) ==> match (
            info.application_name,
            info.runtime_name,
        ) {
            (Ok(name), _) => r matches Ok(id) && id@ == name@,
            (Err(_), Ok(name)) => r matches Ok(id) && id@ == name@,
            (Err(_), Err(e)) => r matches Err(complaint) && complaint@ == e@,
        }),
{
    assert(text_outcome(r) == app_id_of(read));
}

/// The caller is the process at the other end, and has the application id of that process; where
/// either is not known, the complaint is answered.
pub proof fn law_callers(
    process_id: Result<u32, String>,
    peer: Result<u32, DynamicLauncherError>,
    app_id: Result<String, String>,
    r: Result<String, DynamicLauncherError>,
)
    requires
        call_ensures(peer_process, (process_id,), peer),
        call_ensures(get_flatpak_app_id, (app_id,), r),
    ensures
        match process_id {
            Ok(pid) => peer == Ok::<u32, DynamicLauncherError>(pid),
            Err(e) => peer matches Err(DynamicLauncherError::Other { message }) && message@
                == "Getting peer credentials failed: "@ + e@,
        },
        match app_id {
            Ok(id) => r matches Ok(caller) && caller@ == id@,
            Err(e) => r matches Err(DynamicLauncherError::Other { message }) && message@
                == "Getting app id failed: "@ + e@,
        },
{
}

} // verus!
