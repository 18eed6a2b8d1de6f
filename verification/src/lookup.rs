//! Reading and starting installed launchers.

use crate::desktop_entry::MAX_DESKTOP_SIZE_BYTES;
use crate::icon::{recognise, recognised};
use crate::install::{desktop_path, desktop_path_of, too_large, too_large_message};
use crate::interface::{
    done_outcome, invalid_argument, other_error, outcome, text_outcome, text_view,
    DynamicLauncherError, ErrorView, GetDesktopEntryOutput, GetIconOutput,
};
use crate::names::{desktop_file_id_outcome, require_desktop_file_id};
use crate::options::{text_option, text_option_of, JsonValue, Options};
use vstd::prelude::*;
use vstd::string::*;

verus! {

/// The largest icon, in bytes, that the portal hands out.
pub const MAX_ICON_SIZE: u64 = 10485760;

/// The desktop file of a launcher that the application may use.
pub struct DesktopFile {
    pub desktop_file_id: String,
}

/// A desktop file that is small enough to be read.
pub struct ReadableDesktopFile {
    pub desktop_file_id: String,
}

/// A desktop file that is there, to be started.
pub struct Launchable {
    pub desktop_file_id: String,
}

/// An icon that the portal keeps, with what its path tells of it.
pub struct StoredIcon {
    pub desktop_file_id: String,
    pub path: String,
    pub format: String,
    pub size: i32,
}

/// An icon that the portal keeps and that is small enough to be read.
pub struct ReadableIcon {
    pub desktop_file_id: String,
    pub format: String,
    pub size: i32,
}

/// The answer about a desktop file of which the system says `size`.
pub open spec fn desktop_file_size_check(id: Seq<char>, size: Result<usize, String>) -> Result<
    (),
    ErrorView,
> {
    match size {
        Err(e) => Err(ErrorView::InvalidArgument("Desktop file not found: "@ + e@)),
        Ok(size) => if size > MAX_DESKTOP_SIZE_BYTES {
            Err(ErrorView::Other(too_large(id)))
        } else {
            Ok(())
        },
    }
}

/// The answer about an icon of which the system says `size`.
pub open spec fn icon_size_check(id: Seq<char>, size: Result<u64, String>) -> Result<
    (),
    ErrorView,
> {
    match size {
        Err(e) => Err(ErrorView::Other("Failed to read icon metadata: "@ + e@)),
        Ok(size) => if size > MAX_ICON_SIZE {
            Err(ErrorView::Other("Desktop file '"@ + id + "' icon exceeds size limit"@))
        } else {
            Ok(())
        },
    }
}

/// The icon of a desktop file: its path, format and size, or the answer where it has none that the
/// portal keeps. `icon` is the `Icon` key, or the complaint of the reader of the desktop file.
pub open spec fn stored_icon(
    id: Seq<char>,
    icon: Result<Option<String>, String>,
    data_dir: Option<Seq<char>>,
) -> Result<(Seq<char>, Seq<char>, int), ErrorView> {
    match icon {
        Err(e) => Err(ErrorView::Other("Failed to load desktop file: "@ + e@)),
        Ok(icon) => match text_view(icon) {
            Some(path) => match recognised(path, data_dir) {
                Some((format, size)) => Ok((path, format, size)),
                None => Err(unrecognised_path(id)),
            },
            None => Err(unrecognised_path(id)),
        },
    }
}

/// The answer about a desktop file whose icon is not one that the portal keeps.
pub open spec fn unrecognised_path(id: Seq<char>) -> ErrorView {
    ErrorView::Other("Desktop file '"@ + id + "' icon at unrecognized path"@)
}

/// The beginning of GetDesktopEntry, GetIcon and Launch: the desktop file id must be one that the
/// application may use.
pub fn find_desktop_file(app_id: &str, desktop_file_id: &str) -> (r: Result<
    DesktopFile,
    DynamicLauncherError,
>)
    requires
        app_id@.len() > 0,
    ensures
        match r {
            Ok(file) => desktop_file_id_outcome(app_id@, desktop_file_id@) is Ok
                && file.desktop_file_id@ == desktop_file_id@,
            Err(e) => desktop_file_id_outcome(app_id@, desktop_file_id@) == Err::<(), ErrorView>(
                e@,
            ),
        },
{
    match require_desktop_file_id(app_id, desktop_file_id) {
        Err(e) => Err(e),
        Ok(_) => Ok(DesktopFile { desktop_file_id: desktop_file_id.to_owned() }),
    }
}

impl DesktopFile {
    /// The path of the desktop file, below the data directory.
    pub fn path(&self) -> (r: String)
        ensures
            r@ == desktop_path(self.desktop_file_id@),
    {
        desktop_path_of(self.desktop_file_id.as_str())
    }

    /// Checks the size of the desktop file, before it is read.
    pub fn check_size(self, size: Result<usize, String>) -> (r: Result<
        ReadableDesktopFile,
        DynamicLauncherError,
    >)
        ensures
            match r {
                Ok(file) => desktop_file_size_check(self.desktop_file_id@, size) is Ok
                    && file.desktop_file_id@ == self.desktop_file_id@,
                Err(e) => desktop_file_size_check(self.desktop_file_id@, size) == Err::<
                    (),
                    ErrorView,
                >(e@),
            },
    {
        match size {
            Err(e) => Err(
                invalid_argument("Desktop file not found: ".to_owned().concat(e.as_str())),
            ),
            Ok(size) => if size > MAX_DESKTOP_SIZE_BYTES {
                Err(other_error(too_large_message(self.desktop_file_id.as_str())))
            } else {
                Ok(ReadableDesktopFile { desktop_file_id: self.desktop_file_id })
            },
        }
    }

    /// Checks that the launcher exists, before it is started.
    pub fn check_exists(self, exists_on_disk: bool) -> (r: Result<Launchable, DynamicLauncherError>)
        ensures
            match r {
                Ok(file) => exists_on_disk && file.desktop_file_id@ == self.desktop_file_id@,
                Err(e) => !exists_on_disk && e@ == ErrorView::InvalidArgument(
                    "No dynamic launcher exists with id '"@ + self.desktop_file_id@ + "'"@,
                ),
            },
    {
        if exists_on_disk {
            Ok(Launchable { desktop_file_id: self.desktop_file_id })
        } else {
            Err(
                invalid_argument(
                    "No dynamic launcher exists with id '".to_owned().concat(
                        self.desktop_file_id.as_str(),
                    ).concat("'"),
                ),
            )
        }
    }
}

impl ReadableDesktopFile {
    /// The end of GetDesktopEntry, the contents of the file.
    pub fn get_desktop_entry(self, contents: Result<String, String>) -> (r: Result<
        GetDesktopEntryOutput,
        DynamicLauncherError,
    >)
        ensures
            outcome(r) == match text_outcome(contents) {
                Ok(contents) => Ok(contents),
                Err(e) => Err(ErrorView::Other("Failed to read desktop file: "@ + e)),
            },
    {
        match contents {
            Ok(contents) => Ok(GetDesktopEntryOutput { contents }),
            Err(e) => Err(
                other_error("Failed to read desktop file: ".to_owned().concat(e.as_str())),
            ),
        }
    }

    /// The icon of the desktop file, where it is one that the portal keeps. `icon` is the `Icon`
    /// key, or the complaint of the reader of the desktop file.
    pub fn stored_icon(self, icon: Result<Option<String>, String>, data_dir: Option<&str>) -> (r:
        Result<StoredIcon, DynamicLauncherError>)
        ensures
            match r {
                Ok(found) => {
                    &&& found.desktop_file_id@ == self.desktop_file_id@
                    &&& stored_icon(
                        self.desktop_file_id@,
                        icon,
                        match data_dir {
                            Some(dir) => Some(dir@),
                            None => None,
                        },
                    ) == Ok::<(Seq<char>, Seq<char>, int), ErrorView>(
                        (found.path@, found.format@, found.size as int),
                    )
                },
                Err(e) => stored_icon(
                    self.desktop_file_id@,
                    icon,
                    match data_dir {
                        Some(dir) => Some(dir@),
                        None => None,
                    },
                ) == Err::<(Seq<char>, Seq<char>, int), ErrorView>(e@),
            },
    {
        let icon = match icon {
            Err(e) => {
                return Err(
                    other_error("Failed to load desktop file: ".to_owned().concat(e.as_str())),
                );
            },
            Ok(icon) => icon,
        };
        if let Some(path) = icon {
            if let Some((format, size)) = recognise(path.as_str(), data_dir) {
                return Ok(
                    StoredIcon {
                        desktop_file_id: self.desktop_file_id,
                        path,
                        format: format.to_owned(),
                        size,
                    },
                );
            }
        }
        Err(
            other_error(
                "Desktop file '".to_owned().concat(self.desktop_file_id.as_str()).concat(
                    "' icon at unrecognized path",
                ),
            ),
        )
    }
}

impl StoredIcon {
    /// Checks the size of the icon in bytes, before it is read.
    pub fn check_size(self, size: Result<u64, String>) -> (r: Result<
        ReadableIcon,
        DynamicLauncherError,
    >)
        ensures
            match r {
                Ok(icon) => {
                    &&& icon_size_check(self.desktop_file_id@, size) is Ok
                    &&& icon.desktop_file_id@ == self.desktop_file_id@
                    &&& icon.format@ == self.format@
                    &&& icon.size == self.size
                },
                Err(e) => icon_size_check(self.desktop_file_id@, size) == Err::<(), ErrorView>(e@),
            },
    {
        match size {
            Err(e) => Err(
                other_error("Failed to read icon metadata: ".to_owned().concat(e.as_str())),
            ),
            Ok(size) => if size > MAX_ICON_SIZE {
                Err(
                    other_error(
                        "Desktop file '".to_owned().concat(self.desktop_file_id.as_str()).concat(
                            "' icon exceeds size limit",
                        ),
                    ),
                )
            } else {
                Ok(
                    ReadableIcon {
                        desktop_file_id: self.desktop_file_id,
                        format: self.format,
                        size: self.size,
                    },
                )
            },
        }
    }
}

impl ReadableIcon {
    /// The end of GetIcon. `serialized` is the icon as
    /// text, where it could be serialized, or the complaint of the system where it could not be
    /// read.
    pub fn get_icon(self, serialized: Result<Option<String>, String>) -> (r: Result<
        GetIconOutput,
        DynamicLauncherError,
    >)
        ensures
            outcome(r) == match serialized {
                Err(e) => Err(ErrorView::Other("Failed to read icon: "@ + e@)),
                Ok(None) => Err(
                    ErrorView::Other(
                        "Desktop file '"@ + self.desktop_file_id@ + "' icon failed to serialize"@,
                    ),
                ),
                Ok(Some(icon_v)) => Ok((icon_v@, self.format@, self.size as int)),
            },
    {
        match serialized {
            Err(e) => Err(other_error("Failed to read icon: ".to_owned().concat(e.as_str()))),
            Ok(None) => Err(
                other_error(
                    "Desktop file '".to_owned().concat(self.desktop_file_id.as_str()).concat(
                        "' icon failed to serialize",
                    ),
                ),
            ),
            Ok(Some(icon_v)) => Ok(
                GetIconOutput { icon_v, icon_format: self.format, icon_size: self.size as i64 },
            ),
        }
    }
}

/// The token by which a started application may come to the front.
pub fn activation_token(options: &Options) -> (r: Option<String>)
    ensures
        text_view(r) == text_option(options@, "activation_token"@),
{
    match text_option_of(options, "activation_token") {
        Some(s) => Some(s.to_owned()),
        None => None,
    }
}

impl Launchable {
    /// The path of the desktop file, below the data directory.
    pub fn path(&self) -> (r: String)
        ensures
            r@ == desktop_path(self.desktop_file_id@),
    {
        desktop_path_of(self.desktop_file_id.as_str())
    }

    /// The end of Launch. `reported` says whether the thread that starts applications reported
    /// back; what it reported does not matter.
    pub fn launch(self, reported: Result<(), String>) -> (r: Result<(), DynamicLauncherError>)
        ensures
            outcome(r) == match done_outcome(reported) {
                Ok(_) => Ok(()),
                Err(e) => Err(ErrorView::Other("Launch failed: "@ + e)),
            },
    {
        match reported {
            Ok(_) => Ok(()),
            Err(e) => Err(other_error("Launch failed: ".to_owned().concat(e.as_str()))),
        }
    }
}

/// A desktop file that Install writes is small enough for GetDesktopEntry and GetIcon to read.
pub proof fn law_installed_desktop_file_can_be_read(id: Seq<char>, is_app_info: bool, size: usize)
    requires
        crate::install::rewritten_check(id, is_app_info, size) is Ok,
    ensures
        desktop_file_size_check(id, Ok(size)) is Ok,
{
}

/// What is stored is what is read: GetIcon finds the icon of an installed launcher, of a known
/// format and of a size from 1 to 4096, with that format and size.
pub proof fn law_get_icon_finds_installed_icon(
    data_dir: Seq<char>,
    app_id: Seq<char>,
    id: Seq<char>,
    format: Seq<char>,
    width: int,
    icon: String,
)
    requires
        crate::names::desktop_file_id_check(app_id, id) is Ok,
        format == "png"@ || format == "jpeg"@ || format == "svg"@,
        format != "svg"@ ==> 1 <= width <= crate::icon::MAX_ICON_PIXELS,
        icon@ == crate::install::icon_value(
            Some(data_dir),
            crate::install::install_plan(id, format, crate::text::decimal_int(width)).icon,
        ),
    ensures
        stored_icon(id, Ok(Some(icon)), Some(data_dir)) == Ok::<
            (Seq<char>, Seq<char>, int),
            ErrorView,
        >(
            (
                icon@,
                format,
                if format == "svg"@ {
                    crate::icon::MAX_ICON_PIXELS as int
                } else {
                    width
                },
            ),
        ),
{
    crate::icon::law_installed_icon_is_recognised(data_dir, app_id, id, format, width);
}

/// GetIcon reads an icon only if its path begins with the icons directory, component by component,
/// and tells a size from 1 to 4096.
pub proof fn law_get_icon_stays_in_icons_dir(
    id: Seq<char>,
    icon: Result<Option<String>, String>,
    data_dir: Option<Seq<char>>,
)
    ensures
        stored_icon(id, icon, data_dir) matches Ok(found) ==> crate::icon::in_icons_dir(
            found.0,
            data_dir,
        ) && 0 < found.2 <= crate::icon::MAX_ICON_PIXELS,
{
}

/// Launchers are found by a desktop file id that the application may use, and by no other.
pub proof fn law_launchers_are_found_by_own_ids(
    app_id: &str,
    id: &str,
    check: Result<(), DynamicLauncherError>,
    r: Result<DesktopFile, DynamicLauncherError>,
    path: String,
    path_of_id: String,
)
    requires
        call_ensures(require_desktop_file_id, (app_id, id), check),
        call_ensures(find_desktop_file, (app_id, id), r),
        r matches Ok(file) ==> call_ensures(DesktopFile::path, (&file,), path),
        call_ensures(desktop_path_of, (id,), path_of_id),
    ensures
        match (check, r) {
            (Ok(_), Ok(file)) => file.desktop_file_id@ == id@ && path@ == path_of_id@,
            (Err(e), Err(answer)) => answer@ == e@,
            _ => false,
        },
{
    assert(outcome(check) == desktop_file_id_outcome(app_id@, id@));
}

/// A desktop file is read if and only if it is there and takes no more than 1048576 bytes.
pub proof fn law_desktop_file_sizes(
    file: DesktopFile,
    size: Result<usize, String>,
    r: Result<ReadableDesktopFile, DynamicLauncherError>,
)
    requires
        call_ensures(DesktopFile::check_size, (file, size), r),
    ensures
        match size {
            Err(e) => r matches Err(DynamicLauncherError::InvalidArgument { message }) && message@
                == "Desktop file not found: "@ + e@,
            Ok(n) => if n <= 1048576 {
                r matches Ok(readable) && readable.desktop_file_id@ == file.desktop_file_id@
            } else {
                r matches Err(DynamicLauncherError::Other { message }) && message@ == too_large(
                    file.desktop_file_id@,
                )
            },
        },
{
}

/// GetDesktopEntry gives the contents of the file as they are.
pub proof fn law_desktop_entry_is_handed_out_whole(
    file: ReadableDesktopFile,
    contents: Result<String, String>,
    r: Result<GetDesktopEntryOutput, DynamicLauncherError>,
)
    requires
        call_ensures(ReadableDesktopFile::get_desktop_entry, (file, contents), r),
    ensures
        match contents {
            Ok(text) => r matches Ok(reply) && reply.contents@ == text@,
            Err(e) => r matches Err(DynamicLauncherError::Other { message }) && message@
                == "Failed to read desktop file: "@ + e@,
        },
{
}

/// GetIcon goes on with the icon that the desktop file names, if and only if it is recognised, and
/// with the format and size that it is recognised with.
pub proof fn law_icons_are_found(
    file: ReadableDesktopFile,
    icon: Result<Option<String>, String>,
    icon_path: &str,
    data_dir: Option<&str>,
    found: Option<(&'static str, i32)>,
    r: Result<StoredIcon, DynamicLauncherError>,
)
    requires
        call_ensures(ReadableDesktopFile::stored_icon, (file, icon, data_dir), r),
        icon matches Ok(Some(path)) ==> icon_path@ == path@ && call_ensures(
            recognise,
            (icon_path, data_dir),
            found,
        ),
    ensures
        match icon {
            Err(e) => r matches Err(DynamicLauncherError::Other { message }) && message@
                == "Failed to load desktop file: "@ + e@,
            Ok(Some(path)) if found is Some => {
                &&& r matches Ok(stored)
                &&& stored.path@ == path@
                &&& found matches Some((format, size)) && stored.format@ == format@ && stored.size
                    == size
                &&& stored.desktop_file_id@ == file.desktop_file_id@
            },
            Ok(_) => r matches Err(DynamicLauncherError::Other { message }) && message@
                == "Desktop file '"@ + file.desktop_file_id@ + "' icon at unrecognized path"@,
        },
{
}

/// An icon is read if and only if it is there and takes no more than 10485760 bytes.
pub proof fn law_icon_sizes(
    icon: StoredIcon,
    size: Result<u64, String>,
    r: Result<ReadableIcon, DynamicLauncherError>,
)
    requires
        call_ensures(StoredIcon::check_size, (icon, size), r),
    ensures
        match size {
            Err(e) => r matches Err(DynamicLauncherError::Other { message }) && message@
                == "Failed to read icon metadata: "@ + e@,
            Ok(n) => if n <= 10485760 {
                r matches Ok(readable) && readable.desktop_file_id@ == icon.desktop_file_id@
                    && readable.format@ == icon.format@ && readable.size == icon.size
            } else {
                r matches Err(DynamicLauncherError::Other { message }) && message@
                    == "Desktop file '"@ + icon.desktop_file_id@ + "' icon exceeds size limit"@
            },
        },
{
}

/// GetIcon gives the serialized icon as it is, with its format and size.
pub proof fn law_icon_is_handed_out_whole(
    icon: ReadableIcon,
    serialized: Result<Option<String>, String>,
    r: Result<GetIconOutput, DynamicLauncherError>,
)
    requires
        call_ensures(ReadableIcon::get_icon, (icon, serialized), r),
    ensures
        match serialized {
            Err(e) => r matches Err(DynamicLauncherError::Other { message }) && message@
                == "Failed to read icon: "@ + e@,
            Ok(None) => r matches Err(DynamicLauncherError::Other { message }) && message@
                == "Desktop file '"@ + icon.desktop_file_id@ + "' icon failed to serialize"@,
            Ok(Some(text)) => r matches Ok(reply) && reply.icon_v@ == text@ && reply.icon_format@
                == icon.format@ && reply.icon_size == icon.size,
        },
{
}

/// A launcher is started if and only if its desktop file is there, from that file; the start
/// succeeds if and only if it is heard of again. The token for coming to the front is handed on as
/// it is.
pub proof fn law_launching(
    file: DesktopFile,
    exists_on_disk: bool,
    r: Result<Launchable, DynamicLauncherError>,
    path: String,
    launch_path: String,
    reported: Result<(), String>,
    answer: Result<(), DynamicLauncherError>,
    options: &Options,
    token: Option<String>,
)
    requires
        call_ensures(DesktopFile::path, (&file,), path),
        call_ensures(DesktopFile::check_exists, (file, exists_on_disk), r),
        r matches Ok(there) ==> call_ensures(Launchable::path, (&there,), launch_path)
            && call_ensures(Launchable::launch, (there, reported), answer),
        call_ensures(activation_token, (options,), token),
    ensures
        exists_on_disk ==> r is Ok && launch_path@ == path@ && match reported {
            Ok(_) => answer is Ok,
            Err(e) => answer matches Err(DynamicLauncherError::Other { message }) && message@
                == "Launch failed: "@ + e@,
        },
        !exists_on_disk ==> (r matches Err(DynamicLauncherError::InvalidArgument { message })
            && message@ == "No dynamic launcher exists with id '"@ + file.desktop_file_id@ + "'"@),
        token is Some <==> options@.contains_key("activation_token"@)
            && options@["activation_token"@] is Text,
        token matches Some(t) ==> options@["activation_token"@] matches JsonValue::Text(s) && t@
            == s@,
{
}

} // verus!
