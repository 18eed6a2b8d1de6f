//! Uninstalling a launcher: its link goes first, then its desktop file, then its icon.

use crate::icon::{in_icons_dir, is_in_icons_dir};
use crate::install::{desktop_path, desktop_path_of, link_path, link_path_of};
use crate::interface::{
    done_outcome, other_error, outcome, text_view, DynamicLauncherError, ErrorView,
};
use crate::names::{desktop_file_id_check, desktop_file_id_outcome, require_desktop_file_id};
use vstd::prelude::*;
use vstd::string::*;

verus! {

/// Why a file was not removed.
pub enum RemoveError {
    /// There is no such file.
    NotFound,
    /// Something else, with the complaint of the system.
    Failed(String),
}

/// An uninstall whose desktop file id was accepted.
pub struct UninstallRequest {
    pub desktop_file_id: String,
}

/// An uninstall whose link is gone.
pub struct UnlinkedLauncher {
    pub desktop_file_id: String,
}

/// An uninstall whose desktop file was dealt with.
pub struct IconCleanup {
    /// The icon that is still to be removed, by its full path.
    pub icon: Option<String>,
    /// The complaint of the system, where the desktop file was not removed.
    pub desktop_error: Option<String>,
}

/// The icon that goes with a launcher: the one that the desktop file names, if it lies under the
/// icons directory.
pub open spec fn icon_to_remove(icon: Option<Seq<char>>, data_dir: Option<Seq<char>>) -> Option<
    Seq<char>,
> {
    match icon {
        Some(icon) if in_icons_dir(icon, data_dir) => Some(icon),
        _ => None,
    }
}

/// The answer to an uninstall: a complaint about the icon comes before one about the desktop file.
pub open spec fn uninstall_answer(
    icon: Option<Seq<char>>,
    icon_removed: Result<(), Seq<char>>,
    desktop_error: Option<Seq<char>>,
) -> Result<(), ErrorView> {
    match (icon, icon_removed, desktop_error) {
        (Some(_), Err(e), _) => Err(ErrorView::Other(e)),
        (_, _, Some(e)) => Err(ErrorView::Other(e)),
        _ => Ok(()),
    }
}

/// The beginning of Uninstall: the desktop file id must be one that the application may use.
pub fn uninstall(app_id: &str, desktop_file_id: &str) -> (r: Result<
    UninstallRequest,
    DynamicLauncherError,
>)
    requires
        app_id@.len() > 0,
    ensures
        match r {
            Ok(request) => desktop_file_id_outcome(app_id@, desktop_file_id@) is Ok
                && request.desktop_file_id@ == desktop_file_id@,
            Err(e) => desktop_file_id_outcome(app_id@, desktop_file_id@) == Err::<(), ErrorView>(
                e@,
            ),
        },
{
    match require_desktop_file_id(app_id, desktop_file_id) {
        Err(e) => Err(e),
        Ok(_) => Ok(UninstallRequest { desktop_file_id: desktop_file_id.to_owned() }),
    }
}

impl UninstallRequest {
    /// The link, which is removed first.
    pub fn link(&self) -> (r: String)
        ensures
            r@ == link_path(self.desktop_file_id@),
    {
        link_path_of(self.desktop_file_id.as_str())
    }

    /// How the uninstall goes on after the removal of the link: a launcher without one does not
    /// exist.
    pub fn unlinked(self, removed: Result<(), RemoveError>) -> (r: Result<
        UnlinkedLauncher,
        DynamicLauncherError,
    >)
        ensures
            match (removed, r) {
                (Ok(_), Ok(launcher)) => launcher.desktop_file_id@ == self.desktop_file_id@,
                (Err(RemoveError::NotFound), Err(e)) => e@ == ErrorView::Other(
                    "Uninstall() method failed because launcher '"@ + self.desktop_file_id@
                        + "' does not exist"@,
                ),
                (Err(RemoveError::Failed(complaint)), Err(e)) => e@ == ErrorView::Other(complaint@),
                _ => false,
            },
    {
        match removed {
            Ok(_) => Ok(UnlinkedLauncher { desktop_file_id: self.desktop_file_id }),
            Err(RemoveError::NotFound) => Err(
                other_error(
                    "Uninstall() method failed because launcher '".to_owned().concat(
                        self.desktop_file_id.as_str(),
                    ).concat("' does not exist"),
                ),
            ),
            Err(RemoveError::Failed(complaint)) => Err(other_error(complaint)),
        }
    }
}

impl UnlinkedLauncher {
    /// The desktop file, which is read for the icon and then removed.
    pub fn desktop_file(&self) -> (r: String)
        ensures
            r@ == desktop_path(self.desktop_file_id@),
    {
        desktop_path_of(self.desktop_file_id.as_str())
    }

    /// How the uninstall goes on after the removal of the desktop file. `icon` is the icon that the
    /// desktop file named, where it could be read and named one.
    pub fn desktop_file_removed(
        self,
        icon: Option<String>,
        data_dir: Option<&str>,
        removed: Result<(), String>,
    ) -> (r: IconCleanup)
        ensures
            text_view(r.icon) == icon_to_remove(
                text_view(icon),
                match data_dir {
                    Some(dir) => Some(dir@),
                    None => None,
                },
            ),
            match (done_outcome(removed), text_view(r.desktop_error)) {
                (Ok(_), None) => true,
                (Err(e), Some(complaint)) => complaint == e,
                _ => false,
            },
    {
        let desktop_error = match removed {
            Ok(_) => None,
            Err(e) => Some(e),
        };
        let icon = match icon {
            Some(icon) => if is_in_icons_dir(icon.as_str(), data_dir) {
                Some(icon)
            } else {
                None
            },
            None => None,
        };
        IconCleanup { icon, desktop_error }
    }
}

impl IconCleanup {
    /// The answer to the uninstall, after the removal of the icon; where there is none to remove,
    /// nothing depends on `icon_removed`.
    pub fn finish(self, icon_removed: Result<(), String>) -> (r: Result<(), DynamicLauncherError>)
        ensures
            outcome(r) == uninstall_answer(
                text_view(self.icon),
                done_outcome(icon_removed),
                text_view(self.desktop_error),
            ),
    {
        if self.icon.is_some() {
            if let Err(e) = icon_removed {
                return Err(other_error(e));
            }
        }
        match self.desktop_error {
            Some(e) => Err(other_error(e)),
            None => Ok(()),
        }
    }
}

/// Uninstall removes files of the portal only: the path of an icon that it removes begins with the
/// icons directory, component by component, and the other two files are named by an accepted
/// desktop file id, directly in their directories.
pub proof fn law_uninstall_stays_in_its_places(
    app_id: Seq<char>,
    id: Seq<char>,
    icon: Option<Seq<char>>,
    data_dir: Option<Seq<char>>,
)
    requires
        desktop_file_id_check(app_id, id) is Ok,
    ensures
        icon_to_remove(icon, data_dir) matches Some(path) ==> in_icons_dir(path, data_dir),
        !id.contains('/'),
        desktop_path(id) == crate::desktop_entry::XDG_PORTAL_APPLICATIONS_DIR@ + "/"@ + id,
        link_path(id) == crate::install::LINK_DIR@ + "/"@ + id,
{
    crate::names::law_accepted_id_is_a_file_name(app_id, id);
    crate::install::law_link_points_to_desktop_file(app_id, id);
    assert(id.contains(id[0]));
    reveal_strlit("/");
    reveal_strlit("xdg-desktop-portal/applications");
    assert(desktop_path(id) =~= crate::desktop_entry::XDG_PORTAL_APPLICATIONS_DIR@ + "/"@ + id);
}

/// Uninstall undoes install: the link, the desktop file and the icon that it removes are those that
/// an install of the same launcher wrote.
pub proof fn law_uninstall_removes_what_install_wrote(
    data_dir: Seq<char>,
    app_id: Seq<char>,
    id: Seq<char>,
    format: Seq<char>,
    width: int,
)
    requires
        desktop_file_id_check(app_id, id) is Ok,
    ensures
        ({
            let plan = crate::install::install_plan(id, format, crate::text::decimal_int(width));
            let written = crate::install::icon_value(Some(data_dir), plan.icon);
            &&& plan.link == link_path(id)
            &&& plan.desktop_file == desktop_path(id)
            &&& icon_to_remove(Some(written), Some(data_dir)) == Some(written)
        }),
{
    crate::icon::law_installed_icon_is_in_icons_dir(data_dir, app_id, id, format, width);
}

/// An application uninstalls by a desktop file id that it may use, and by no other; the request is
/// for that id.
pub proof fn law_uninstall_takes_own_ids(
    app_id: &str,
    id: &str,
    check: Result<(), DynamicLauncherError>,
    r: Result<UninstallRequest, DynamicLauncherError>,
)
    requires
        call_ensures(require_desktop_file_id, (app_id, id), check),
        call_ensures(uninstall, (app_id, id), r),
    ensures
        match (check, r) {
            (Ok(_), Ok(request)) => request.desktop_file_id@ == id@,
            (Err(e), Err(answer)) => answer@ == e@,
            _ => false,
        },
{
    assert(outcome(check) == desktop_file_id_outcome(app_id@, id@));
}

/// The link goes first: a launcher without one does not exist, and any other failure ends the
/// uninstall with the complaint of the system. Link and desktop file are those of the launcher.
pub proof fn law_link_is_removed_first(
    request: UninstallRequest,
    id: &str,
    link: String,
    link_of_id: String,
    removed: Result<(), RemoveError>,
    r: Result<UnlinkedLauncher, DynamicLauncherError>,
    desktop_file: String,
    desktop_file_of_id: String,
)
    requires
        id@ == request.desktop_file_id@,
        call_ensures(UninstallRequest::link, (&request,), link),
        call_ensures(link_path_of, (id,), link_of_id),
        call_ensures(UninstallRequest::unlinked, (request, removed), r),
        r matches Ok(launcher) ==> call_ensures(
            UnlinkedLauncher::desktop_file,
            (&launcher,),
            desktop_file,
        ),
        call_ensures(desktop_path_of, (id,), desktop_file_of_id),
    ensures
        link@ == link_of_id@,
        match removed {
            Ok(_) => r is Ok && desktop_file@ == desktop_file_of_id@,
            Err(RemoveError::NotFound) => r matches Err(DynamicLauncherError::Other { message })
                && message@ == "Uninstall() method failed because launcher '"@ + id@
                + "' does not exist"@,
            Err(RemoveError::Failed(e)) => r matches Err(DynamicLauncherError::Other { message })
                && message@ == e@,
        },
{
}

/// The icon that the desktop file names is removed if and only if it lies under the icons directory,
/// whatever became of the desktop file, and what the system said of that is kept.
pub proof fn law_icon_is_removed(
    launcher: UnlinkedLauncher,
    icon: Option<String>,
    icon_path: &str,
    data_dir: Option<&str>,
    inside: bool,
    removed: Result<(), String>,
    r: IconCleanup,
)
    requires
        icon matches Some(path) ==> icon_path@ == path@ && call_ensures(
            is_in_icons_dir,
            (icon_path, data_dir),
            inside,
        ),
        call_ensures(UnlinkedLauncher::desktop_file_removed, (launcher, icon, data_dir, removed), r),
    ensures
        match icon {
            Some(path) if inside => r.icon matches Some(to_remove) && to_remove@ == path@,
            _ => r.icon is None,
        },
        match removed {
            Ok(_) => r.desktop_error is None,
            Err(e) => r.desktop_error matches Some(kept) && kept@ == e@,
        },
{
    let dir = match data_dir {
        Some(dir) => Some(dir@),
        None => None,
    };
    assert(text_view(r.icon) == icon_to_remove(text_view(icon), dir));
}

/// An uninstall succeeds if and only if the desktop file and the icon, where there is one to remove,
/// were removed; what the system said of the icon is answered before what it said of the file.
pub proof fn law_uninstall_ends(
    cleanup: IconCleanup,
    icon_removed: Result<(), String>,
    r: Result<(), DynamicLauncherError>,
)
    requires
        call_ensures(IconCleanup::finish, (cleanup, icon_removed), r),
    ensures
        r is Ok <==> cleanup.desktop_error is None && (cleanup.icon is Some ==> icon_removed is Ok),
        cleanup.icon is Some && icon_removed is Err ==> (r matches Err(
            DynamicLauncherError::Other { message },
        ) && message@ == icon_removed->Err_0@),
        (cleanup.icon is None || icon_removed is Ok) && cleanup.desktop_error is Some ==> (
        r matches Err(DynamicLauncherError::Other { message }) && message@
            == cleanup.desktop_error->0@),
{
}

} // verus!
