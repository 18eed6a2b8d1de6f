//! Installing a launcher: what is written where, in which order, and what is taken back when a
//! step fails.

use crate::desktop_entry::{
    desktop_entry_check, edits_view, rewrite_desktop_entry, DesktopEntry, KeyFileEdit, ShellWord,
    MAX_DESKTOP_SIZE_BYTES, XDG_PORTAL_APPLICATIONS_DIR,
};
use crate::icon::{icon_dir, icon_dir_of, icon_path, icon_path_of};
use crate::interface::{other_error, DynamicLauncherError, ErrorView};
use crate::launcher::LauncherData;
use crate::names::{desktop_file_id_check, DESKTOP_SUFFIX};
use crate::path;
use crate::path::joined_path;
use crate::text;
use crate::text::decimal;
use vstd::prelude::*;
use vstd::string::*;

verus! {

/// The directory of the launchers that the desktop shows, below the data directory.
pub const LINK_DIR: &'static str = "applications";

/// The path of the desktop file of a launcher, below the data directory.
pub open spec fn desktop_path(id: Seq<char>) -> Seq<char> {
    joined_path(XDG_PORTAL_APPLICATIONS_DIR@, id)
}

/// The path of the link by which the desktop finds a launcher, below the data directory.
pub open spec fn link_path(id: Seq<char>) -> Seq<char> {
    joined_path(LINK_DIR@, id)
}

/// What that link points to: the desktop file, seen from the directory of the link.
pub open spec fn link_target(id: Seq<char>) -> Seq<char> {
    "../"@ + XDG_PORTAL_APPLICATIONS_DIR@ + "/"@ + id
}

/// The path of the desktop file of a launcher, below the data directory.
pub fn desktop_path_of(desktop_file_id: &str) -> (r: String)
    ensures
        r@ == desktop_path(desktop_file_id@),
{
    path::join(XDG_PORTAL_APPLICATIONS_DIR, desktop_file_id)
}

/// The path of the link by which the desktop finds a launcher, below the data directory.
pub fn link_path_of(desktop_file_id: &str) -> (r: String)
    ensures
        r@ == link_path(desktop_file_id@),
{
    path::join(LINK_DIR, desktop_file_id)
}

/// What the `Icon` key says: the full path of the icon, or nothing where the path of the data
/// directory is not text.
pub open spec fn icon_value(data_dir: Option<Seq<char>>, icon: Seq<char>) -> Seq<char> {
    match data_dir {
        Some(dir) => joined_path(dir, icon),
        None => Seq::empty(),
    }
}

/// The answer to a desktop file that is too large.
pub open spec fn too_large(id: Seq<char>) -> Seq<char> {
    "Desktop file exceeds max size ("@ + decimal(MAX_DESKTOP_SIZE_BYTES as nat) + "): "@ + id
}

/// The answer to a desktop file that is too large.
pub fn too_large_message(desktop_file_id: &str) -> (r: String)
    ensures
        r@ == too_large(desktop_file_id@),
{
    let limit = text::decimal_text(MAX_DESKTOP_SIZE_BYTES as u32);
    "Desktop file exceeds max size (".to_owned().concat(limit.as_str()).concat("): ").concat(
        desktop_file_id,
    )
}

/// The complaint about a rewritten desktop entry that makes no application or is too large.
pub open spec fn rewritten_check(id: Seq<char>, is_app_info: bool, size: usize) -> Result<
    (),
    ErrorView,
> {
    if !is_app_info {
        Err(ErrorView::Other("Desktop entry given to Install() not valid"@))
    } else if size > MAX_DESKTOP_SIZE_BYTES {
        Err(ErrorView::Other(too_large(id)))
    } else {
        Ok(())
    }
}

/// The files of a launcher, by their paths below the data directory.
pub struct InstallPlan {
    pub icon_dir: Seq<char>,
    pub icon: Seq<char>,
    pub desktop_file: Seq<char>,
    pub link: Seq<char>,
    pub link_target: Seq<char>,
}

/// The files of the launcher with a given id, and with an icon of a given format and size.
pub open spec fn install_plan(id: Seq<char>, format: Seq<char>, size: Seq<char>) -> InstallPlan {
    InstallPlan {
        icon_dir: icon_dir(format, size),
        icon: icon_path(id, format, size),
        desktop_file: desktop_path(id),
        link: link_path(id),
        link_target: link_target(id),
    }
}

/// An install whose token and desktop file id were accepted.
pub struct InstallRequest {
    pub app_id: String,
    pub desktop_file_id: String,
    pub data: LauncherData,
}

impl InstallRequest {
    /// The application may use the desktop file id.
    pub open spec fn wf(self) -> bool {
        self.app_id@.len() > 0 && desktop_file_id_check(self.app_id@, self.desktop_file_id@) is Ok
    }

    /// The files of the launcher.
    pub open spec fn plan(self) -> InstallPlan {
        install_plan(self.desktop_file_id@, self.data.icon_format@, self.data.icon_size@)
    }

    /// Checks the desktop entry, and gives the changes that it needs before it is installed.
    /// `quoted_app_id` is the id of the application, quoted for the shell, and `data_dir` the data
    /// directory, where its path is text.
    pub fn rewrite(
        self,
        quoted_app_id: String,
        data_dir: Option<&str>,
        entry: DesktopEntry,
    ) -> (r: Result<InstallRewrite, DynamicLauncherError>)
        requires
            self.wf(),
        ensures
            match (
                desktop_entry_check(
                    ShellWord { text: self.app_id, quoted: quoted_app_id },
                    self.data.name@,
                    icon_value(
                        match data_dir {
                            Some(dir) => Some(dir@),
                            None => None,
                        },
                        self.plan().icon,
                    ),
                    entry,
                ),
                r,
            ) {
                (Ok(edits), Ok(rewrite)) => {
                    &&& edits_view(rewrite.edits@) == edits
                    &&& rewrite.icon@ == self.data.icon@
                    &&& rewrite.desktop_file_id@ == self.desktop_file_id@
                    &&& rewrite.icon_format@ == self.data.icon_format@
                    &&& rewrite.icon_size@ == self.data.icon_size@
                    &&& rewrite.plan() == self.plan()
                    &&& rewrite.wf()
                },
                (Err(e), Err(answer)) => answer@ == e,
                _ => false,
            },
    {
        let icon = icon_path_of(
            self.desktop_file_id.as_str(),
            self.data.icon_format.as_str(),
            self.data.icon_size.as_str(),
        );
        let value = match data_dir {
            Some(dir) => path::join(dir, icon.as_str()),
            None => String::new(),
        };
        let app_id = ShellWord { text: self.app_id, quoted: quoted_app_id };
        match rewrite_desktop_entry(&app_id, self.data.name.as_str(), value.as_str(), entry) {
            Err(e) => Err(e),
            Ok(edits) => Ok(
                InstallRewrite {
                    desktop_file_id: self.desktop_file_id,
                    icon_format: self.data.icon_format,
                    icon_size: self.data.icon_size,
                    icon: self.data.icon,
                    edits,
                },
            ),
        }
    }
}

/// An install whose desktop entry was accepted.
pub struct InstallRewrite {
    pub desktop_file_id: String,
    pub icon_format: String,
    pub icon_size: String,
    /// The bytes of the icon.
    pub icon: Vec<u8>,
    /// The changes to the desktop entry.
    pub edits: Vec<KeyFileEdit>,
}

impl InstallRewrite {
    /// The desktop file id has its ending.
    pub open spec fn wf(self) -> bool {
        DESKTOP_SUFFIX@.is_suffix_of(self.desktop_file_id@)
    }

    /// The files of the launcher.
    pub open spec fn plan(self) -> InstallPlan {
        install_plan(self.desktop_file_id@, self.icon_format@, self.icon_size@)
    }

    /// Checks the rewritten desktop entry: `is_app_info` says whether it makes an application, and
    /// `size` how many bytes it takes. Only then are files written.
    pub fn check_rewritten(&self, is_app_info: bool, size: usize) -> (r: Result<
        InstallFiles,
        DynamicLauncherError,
    >)
        requires
            self.wf(),
        ensures
            match r {
                Ok(files) => {
                    &&& rewritten_check(self.desktop_file_id@, is_app_info, size) is Ok
                    &&& files@ == (self.plan(), InstallStep::CreateIconDir)
                },
                Err(e) => rewritten_check(self.desktop_file_id@, is_app_info, size) == Err::<
                    (),
                    ErrorView,
                >(e@),
            },
    {
        if !is_app_info {
            return Err(other_error("Desktop entry given to Install() not valid".to_owned()));
        }
        if size > MAX_DESKTOP_SIZE_BYTES {
            return Err(other_error(too_large_message(self.desktop_file_id.as_str())));
        }
        let id = self.desktop_file_id.as_str();
        let format = self.icon_format.as_str();
        let icon_size = self.icon_size.as_str();
        let link_target = "../".to_owned().concat(XDG_PORTAL_APPLICATIONS_DIR).concat("/");
        Ok(
            InstallFiles {
                icon_dir: icon_dir_of(format, icon_size),
                icon: icon_path_of(id, format, icon_size),
                desktop_file: desktop_path_of(id),
                link: link_path_of(id),
                link_target: link_target.concat(id),
                step: InstallStep::CreateIconDir,
            },
        )
    }
}

/// The steps of writing the files of a launcher, in their order.
#[derive(Debug, Clone, Copy, PartialEq, Eq, Structural)]
pub enum InstallStep {
    CreateIconDir,
    WriteIcon,
    CreateApplicationsDir,
    SaveDesktopFile,
    CreateLinkDir,
    RemoveOldLink,
    CreateLink,
}

/// Something to do in the data directory; all paths are below it.
#[derive(Debug, PartialEq)]
pub enum FileAction {
    /// Create a directory, with those above it, open to its owner alone.
    CreateDir { path: String },
    /// Write the icon.
    WriteIcon { path: String },
    /// Save the desktop file.
    SaveDesktopFile { path: String },
    /// Remove a file.
    RemoveFile { path: String },
    /// Make a symbolic link.
    CreateLink { path: String, target: String },
}

/// Something to do in the data directory, by characters.
pub enum FileActionView {
    CreateDir(Seq<char>),
    WriteIcon(Seq<char>),
    SaveDesktopFile(Seq<char>),
    RemoveFile(Seq<char>),
    CreateLink(Seq<char>, Seq<char>),
}

impl View for FileAction {
    type V = FileActionView;

    open spec fn view(&self) -> FileActionView {
        match self {
            FileAction::CreateDir { path } => FileActionView::CreateDir(path@),
            FileAction::WriteIcon { path } => FileActionView::WriteIcon(path@),
            FileAction::SaveDesktopFile { path } => FileActionView::SaveDesktopFile(path@),
            FileAction::RemoveFile { path } => FileActionView::RemoveFile(path@),
            FileAction::CreateLink { path, target } => FileActionView::CreateLink(path@, target@),
        }
    }
}

/// What a step does.
pub open spec fn step_action(plan: InstallPlan, step: InstallStep) -> FileActionView {
    match step {
        InstallStep::CreateIconDir => FileActionView::CreateDir(plan.icon_dir),
        InstallStep::WriteIcon => FileActionView::WriteIcon(plan.icon),
        InstallStep::CreateApplicationsDir => FileActionView::CreateDir(
            XDG_PORTAL_APPLICATIONS_DIR@,
        ),
        InstallStep::SaveDesktopFile => FileActionView::SaveDesktopFile(plan.desktop_file),
        InstallStep::CreateLinkDir => FileActionView::CreateDir(LINK_DIR@),
        InstallStep::RemoveOldLink => FileActionView::RemoveFile(plan.link),
        InstallStep::CreateLink => FileActionView::CreateLink(plan.link, plan.link_target),
    }
}

/// The step that follows another.
pub open spec fn step_after(step: InstallStep) -> Option<InstallStep> {
    match step {
        InstallStep::CreateIconDir => Some(InstallStep::WriteIcon),
        InstallStep::WriteIcon => Some(InstallStep::CreateApplicationsDir),
        InstallStep::CreateApplicationsDir => Some(InstallStep::SaveDesktopFile),
        InstallStep::SaveDesktopFile => Some(InstallStep::CreateLinkDir),
        InstallStep::CreateLinkDir => Some(InstallStep::RemoveOldLink),
        InstallStep::RemoveOldLink => Some(InstallStep::CreateLink),
        InstallStep::CreateLink => None,
    }
}

/// Whether the install goes on after a step that failed: there need not be an old link.
pub open spec fn may_fail(step: InstallStep) -> bool {
    step is RemoveOldLink
}

/// What is said of a step that failed, where that ends the install.
pub open spec fn step_complaint(step: InstallStep) -> Seq<char> {
    match step {
        InstallStep::CreateIconDir => "Failed to create icon dir: "@,
        InstallStep::WriteIcon => "Failed to write icon data: "@,
        InstallStep::CreateApplicationsDir => "Failed to create desktop dir: "@,
        InstallStep::SaveDesktopFile => "Failed to save desktop file: "@,
        InstallStep::CreateLinkDir => "Failed to create link dir: "@,
        InstallStep::RemoveOldLink => ""@,
        InstallStep::CreateLink => "Failed to create symlink: "@,
    }
}

/// The files that are removed again when a step fails: those that the steps before it wrote.
pub open spec fn taken_back(plan: InstallPlan, step: InstallStep) -> Seq<Seq<char>> {
    match step {
        InstallStep::CreateIconDir | InstallStep::WriteIcon => Seq::empty(),
        InstallStep::CreateApplicationsDir | InstallStep::SaveDesktopFile => seq![plan.icon],
        _ => seq![plan.desktop_file, plan.icon],
    }
}

/// The writing of the files of a launcher: the files, and the step that is due.
pub struct InstallFiles {
    icon_dir: String,
    icon: String,
    desktop_file: String,
    link: String,
    link_target: String,
    step: InstallStep,
}

impl View for InstallFiles {
    type V = (InstallPlan, InstallStep);

    closed spec fn view(&self) -> (InstallPlan, InstallStep) {
        (
            InstallPlan {
                icon_dir: self.icon_dir@,
                icon: self.icon@,
                desktop_file: self.desktop_file@,
                link: self.link@,
                link_target: self.link_target@,
            },
            self.step,
        )
    }
}

/// How an install goes on after a step.
pub enum InstallProgress {
    /// With the next step.
    Next(InstallFiles),
    /// It is complete.
    Complete,
    /// It failed: these files are to be removed, as far as that is possible, and this is answered.
    Failed { remove: Vec<String>, error: DynamicLauncherError },
}

/// How an install goes on after a step, by views.
pub enum ProgressView {
    Next(InstallStep),
    Complete,
    Failed(Seq<Seq<char>>, ErrorView),
}

/// How an install goes on after a step that ended in `result`.
pub open spec fn progress_after(
    plan: InstallPlan,
    step: InstallStep,
    result: Result<(), Seq<char>>,
) -> ProgressView {
    match result {
        Err(e) if !may_fail(step) => ProgressView::Failed(
            taken_back(plan, step),
            ErrorView::Other(step_complaint(step) + e),
        ),
        _ => match step_after(step) {
            Some(next) => ProgressView::Next(next),
            None => ProgressView::Complete,
        },
    }
}

/// Whether `progress` is what `view` says, with the files of `plan`.
pub open spec fn progress_is(
    progress: InstallProgress,
    plan: InstallPlan,
    view: ProgressView,
) -> bool {
    match (progress, view) {
        (InstallProgress::Next(files), ProgressView::Next(step)) => files@ == (plan, step),
        (InstallProgress::Complete, ProgressView::Complete) => true,
        (InstallProgress::Failed { remove, error }, ProgressView::Failed(taken, e)) =>
            remove.deep_view() == taken && error@ == e,
        _ => false,
    }
}

impl InstallFiles {
    /// What the step that is due does.
    pub fn action(&self) -> (r: FileAction)
        ensures
            r@ == step_action(self@.0, self@.1),
    {
        match self.step {
            InstallStep::CreateIconDir => FileAction::CreateDir { path: self.icon_dir.clone() },
            InstallStep::WriteIcon => FileAction::WriteIcon { path: self.icon.clone() },
            InstallStep::CreateApplicationsDir => FileAction::CreateDir {
                path: XDG_PORTAL_APPLICATIONS_DIR.to_owned(),
            },
            InstallStep::SaveDesktopFile => FileAction::SaveDesktopFile {
                path: self.desktop_file.clone(),
            },
            InstallStep::CreateLinkDir => FileAction::CreateDir { path: LINK_DIR.to_owned() },
            InstallStep::RemoveOldLink => FileAction::RemoveFile { path: self.link.clone() },
            InstallStep::CreateLink => FileAction::CreateLink {
                path: self.link.clone(),
                target: self.link_target.clone(),
            },
        }
    }

    fn complaint(&self) -> (r: &'static str)
        ensures
            r@ == step_complaint(self@.1),
    {
        match self.step {
            InstallStep::CreateIconDir => "Failed to create icon dir: ",
            InstallStep::WriteIcon => "Failed to write icon data: ",
            InstallStep::CreateApplicationsDir => "Failed to create desktop dir: ",
            InstallStep::SaveDesktopFile => "Failed to save desktop file: ",
            InstallStep::CreateLinkDir => "Failed to create link dir: ",
            InstallStep::RemoveOldLink => "",
            InstallStep::CreateLink => "Failed to create symlink: ",
        }
    }

    fn files_to_take_back(&self) -> (r: Vec<String>)
        ensures
            r.deep_view() == taken_back(self@.0, self@.1),
    {
        let mut r: Vec<String> = Vec::new();
        match self.step {
            InstallStep::CreateIconDir | InstallStep::WriteIcon => {},
            InstallStep::CreateApplicationsDir | InstallStep::SaveDesktopFile => {
                r.push(self.icon.clone());
            },
            _ => {
                r.push(self.desktop_file.clone());
                r.push(self.icon.clone());
            },
        }
        assert(r.deep_view() =~= taken_back(self@.0, self@.1));
        r
    }

    /// How the install goes on after the step that was due ended in `result`.
    pub fn advance(self, result: Result<(), String>) -> (r: InstallProgress)
        ensures
            progress_is(
                r,
                self@.0,
                progress_after(self@.0, self@.1, crate::interface::done_outcome(result)),
            ),
    {
        let failed = match self.step {
            InstallStep::RemoveOldLink => None,
            _ => match result {
                Ok(_) => None,
                Err(e) => Some(e),
            },
        };
        if let Some(e) = failed {
            return InstallProgress::Failed {
                remove: self.files_to_take_back(),
                error: other_error(self.complaint().to_owned().concat(e.as_str())),
            };
        }
        let step = match self.step {
            InstallStep::CreateIconDir => InstallStep::WriteIcon,
            InstallStep::WriteIcon => InstallStep::CreateApplicationsDir,
            InstallStep::CreateApplicationsDir => InstallStep::SaveDesktopFile,
            InstallStep::SaveDesktopFile => InstallStep::CreateLinkDir,
            InstallStep::CreateLinkDir => InstallStep::RemoveOldLink,
            InstallStep::RemoveOldLink => InstallStep::CreateLink,
            InstallStep::CreateLink => {
                return InstallProgress::Complete;
            },
        };
        InstallProgress::Next(
            InstallFiles {
                icon_dir: self.icon_dir,
                icon: self.icon,
                desktop_file: self.desktop_file,
                link: self.link,
                link_target: self.link_target,
                step,
            },
        )
    }
}

/// The files in the data directory after an action, where a failed action changes nothing.
pub open spec fn files_after(
    files: Set<Seq<char>>,
    action: FileActionView,
    succeeded: bool,
) -> Set<Seq<char>> {
    if !succeeded {
        files
    } else {
        match action {
            FileActionView::CreateDir(_) => files,
            FileActionView::WriteIcon(path) => files.insert(path),
            FileActionView::SaveDesktopFile(path) => files.insert(path),
            FileActionView::RemoveFile(path) => files.remove(path),
            FileActionView::CreateLink(path, _) => files.insert(path),
        }
    }
}

/// How many steps follow a step.
pub open spec fn steps_behind(step: InstallStep) -> nat {
    match step {
        InstallStep::CreateIconDir => 6,
        InstallStep::WriteIcon => 5,
        InstallStep::CreateApplicationsDir => 4,
        InstallStep::SaveDesktopFile => 3,
        InstallStep::CreateLinkDir => 2,
        InstallStep::RemoveOldLink => 1,
        InstallStep::CreateLink => 0,
    }
}

/// The files in the data directory when an install has run from `step` to its end, and whether it
/// is complete. `results` says how each step ends; what is to be removed is removed.
pub open spec fn install_run(
    plan: InstallPlan,
    step: InstallStep,
    files: Set<Seq<char>>,
    results: spec_fn(InstallStep) -> Result<(), Seq<char>>,
) -> (Set<Seq<char>>, bool)
    decreases steps_behind(step),
{
    let result = results(step);
    let after = files_after(files, step_action(plan, step), result is Ok);
    match progress_after(plan, step, result) {
        ProgressView::Next(next) => install_run(plan, next, after, results),
        ProgressView::Complete => (after, true),
        ProgressView::Failed(taken, _) => (after.difference(taken.to_set()), false),
    }
}

/// An install is all or nothing. Where every step succeeds, but perhaps that of removing an old
/// link, the icon, the desktop file and the link are there, and every other file is as it was.
/// Where another step fails, no file is left that was not there before, as long as the failed step
/// itself left none and what is to be removed can be removed.
pub proof fn law_install_is_all_or_nothing(
    plan: InstallPlan,
    files: Set<Seq<char>>,
    results: spec_fn(InstallStep) -> Result<(), Seq<char>>,
)
    ensures
        ({
            let (after, complete) = install_run(plan, InstallStep::CreateIconDir, files, results);
            &&& complete <==> (forall|step: InstallStep|
                !may_fail(step) ==> #[trigger] results(step) is Ok)
            &&& complete ==> after == files.insert(plan.icon).insert(plan.desktop_file).insert(
                plan.link,
            )
            &&& !complete ==> after.subset_of(files)
        }),
{
    reveal_with_fuel(install_run, 8);
    let (after, complete) = install_run(plan, InstallStep::CreateIconDir, files, results);
    assert(seq![plan.icon][0] == plan.icon);
    assert(seq![plan.desktop_file, plan.icon][0] == plan.desktop_file);
    assert(seq![plan.desktop_file, plan.icon][1] == plan.icon);
    assert(seq![plan.icon].to_set().contains(plan.icon)) by {
        assert(seq![plan.icon].contains(plan.icon));
    }
    assert(seq![plan.desktop_file, plan.icon].to_set().contains(plan.desktop_file)) by {
        assert(seq![plan.desktop_file, plan.icon].contains(plan.desktop_file));
    }
    assert(seq![plan.desktop_file, plan.icon].to_set().contains(plan.icon)) by {
        assert(seq![plan.desktop_file, plan.icon].contains(plan.icon));
    }
    if complete {
        assert forall|step: InstallStep| !may_fail(step) implies #[trigger] results(step) is Ok by {
        }
        assert(after =~= files.insert(plan.icon).insert(plan.desktop_file).insert(plan.link));
    }
}

/// The link of a launcher points to its desktop file: the two lie in directories beside each other
/// in the data directory.
pub proof fn law_link_points_to_desktop_file(app_id: Seq<char>, id: Seq<char>)
    requires
        desktop_file_id_check(app_id, id) is Ok,
    ensures
        link_target(id) == "../"@ + desktop_path(id),
        link_path(id) == LINK_DIR@ + "/"@ + id,
{
    crate::names::law_accepted_id_is_a_file_name(app_id, id);
    assert(id.contains(id[0]));
    reveal_strlit("/");
    reveal_strlit("applications");
    reveal_strlit("xdg-desktop-portal/applications");
    assert(link_target(id) =~= "../"@ + desktop_path(id));
    assert(link_path(id) =~= LINK_DIR@ + "/"@ + id);
}

/// The desktop file and the link of a launcher carry its desktop file id, each in its directory.
pub proof fn law_launcher_paths(id: &str, desktop_file: String, link: String, complaint: String)
    requires
        call_ensures(desktop_path_of, (id,), desktop_file),
        call_ensures(link_path_of, (id,), link),
        call_ensures(too_large_message, (id,), complaint),
    ensures
        id@.len() > 0 && id@[0] != '/' ==> desktop_file@ == "xdg-desktop-portal/applications/"@
            + id@ && link@ == "applications/"@ + id@,
        complaint@ == "Desktop file exceeds max size (1048576): "@ + id@,
{
    reveal_strlit("xdg-desktop-portal/applications/");
    reveal_strlit("xdg-desktop-portal/applications");
    reveal_strlit("applications/");
    reveal_strlit("applications");
    reveal_strlit("Desktop file exceeds max size (1048576): ");
    reveal_strlit("Desktop file exceeds max size (");
    reveal_strlit("): ");
    if id@.len() > 0 && id@[0] != '/' {
        assert(desktop_file@ =~= "xdg-desktop-portal/applications/"@ + id@);
        assert(link@ =~= "applications/"@ + id@);
    }
    text::law_decimal_digits(104857, 6);
    text::law_decimal_digits(10485, 7);
    text::law_decimal_digits(1048, 5);
    text::law_decimal_digits(104, 8);
    text::law_decimal_digits(10, 4);
    text::law_decimal_digits(1, 0);
    text::law_decimal_digits(0, 1);
    assert(decimal(1048576) =~= seq!['1', '0', '4', '8', '5', '7', '6']);
    assert(complaint@ =~= "Desktop file exceeds max size (1048576): "@ + id@);
}

/// An install goes on with the launcher that was asked for: the desktop entry is rewritten for the
/// application, with the name that the token stands for and the path at which the icon is stored,
/// and all bytes of the icon of the token are kept.
pub proof fn law_install_keeps_what_the_token_stands_for(
    request: InstallRequest,
    quoted_app_id: String,
    data_dir: Option<&str>,
    entry: DesktopEntry,
    id: &str,
    format: &str,
    size: &str,
    stored: String,
    name: &str,
    icon: &str,
    edits: Result<Vec<KeyFileEdit>, DynamicLauncherError>,
    r: Result<InstallRewrite, DynamicLauncherError>,
)
    requires
        call_ensures(InstallRequest::rewrite, (request, quoted_app_id, data_dir, entry), r),
        id@ == request.desktop_file_id@,
        format@ == request.data.icon_format@,
        size@ == request.data.icon_size@,
        call_ensures(icon_path_of, (id, format, size), stored),
        match data_dir {
            Some(dir) => icon@ == joined_path(dir@, stored@),
            None => icon@.len() == 0,
        },
        name@ == request.data.name@,
        call_ensures(
            rewrite_desktop_entry,
            (&(ShellWord { text: request.app_id, quoted: quoted_app_id }), name, icon, entry),
            edits,
        ),
    ensures
        match (edits, r) {
            (Err(e), Err(answer)) => answer@ == e@,
            (Ok(edits), Ok(rewrite)) => {
                &&& rewrite.icon@ == request.data.icon@
                &&& rewrite.desktop_file_id@ == request.desktop_file_id@
                &&& rewrite.icon_format@ == request.data.icon_format@
                &&& rewrite.icon_size@ == request.data.icon_size@
                &&& rewrite.edits@.len() == edits@.len()
                &&& forall|i: int|
                    0 <= i < edits@.len() ==> (#[trigger] rewrite.edits@[i])@ == edits@[i]@
            },
            _ => false,
        },
{
    let app_id = ShellWord { text: request.app_id, quoted: quoted_app_id };
    if data_dir is None {
        assert(icon@ =~= Seq::<char>::empty());
    }
    let dir = match data_dir {
        Some(dir) => Some(dir@),
        None => None,
    };
    assert(icon@ == icon_value(dir, request.plan().icon));
    assert(crate::desktop_entry::edits_outcome(edits) == desktop_entry_check(
        app_id,
        name@,
        icon@,
        entry,
    ));
    if let (Ok(edits), Ok(rewrite)) = (edits, r) {
        assert(edits_view(rewrite.edits@) == edits_view(edits@));
        assert(edits_view(rewrite.edits@).len() == edits_view(edits@).len());
        assert forall|i: int| 0 <= i < edits@.len() implies (#[trigger] rewrite.edits@[i])@
            == edits@[i]@ by {
            assert(edits_view(rewrite.edits@)[i] == rewrite.edits@[i]@);
            assert(edits_view(edits@)[i] == edits@[i]@);
        }
    }
}

/// A rewritten entry is refused if and only if it makes no application or takes more than 1048576
/// bytes.
pub proof fn law_rewritten_entries_are_checked(
    rewrite: &InstallRewrite,
    is_app_info: bool,
    size: usize,
    r: Result<InstallFiles, DynamicLauncherError>,
)
    requires
        call_ensures(InstallRewrite::check_rewritten, (rewrite, is_app_info, size), r),
    ensures
        r is Ok <==> is_app_info && size <= 1048576,
        !is_app_info ==> (r matches Err(DynamicLauncherError::Other { message }) && message@
            == "Desktop entry given to Install() not valid"@),
        is_app_info && size > 1048576 ==> (r matches Err(DynamicLauncherError::Other { message })
            && message@ == too_large(rewrite.desktop_file_id@)),
{
}

/// The steps of an install, in their order, where each one succeeds: the icon, the desktop file and
/// the link are written, each behind its directory, and an old link is removed first. Where a step
/// fails with `e`, the install ends with a complaint that says which one, and what was written
/// before is removed; only the removal of an old link may fail.
pub proof fn law_install_steps(
    rewrite: &InstallRewrite,
    size: usize,
    id: &str,
    format: &str,
    icon_size: &str,
    dir: String,
    icon: String,
    desktop_file: String,
    link: String,
    files: Seq<InstallFiles>,
    actions: Seq<FileAction>,
    last: InstallProgress,
    failing: int,
    e: String,
    failed: InstallProgress,
)
    requires
        id@ == rewrite.desktop_file_id@,
        format@ == rewrite.icon_format@,
        icon_size@ == rewrite.icon_size@,
        call_ensures(icon_dir_of, (format, icon_size), dir),
        call_ensures(icon_path_of, (id, format, icon_size), icon),
        call_ensures(desktop_path_of, (id,), desktop_file),
        call_ensures(link_path_of, (id,), link),
        files.len() == 7,
        actions.len() == 7,
        call_ensures(
            InstallRewrite::check_rewritten,
            (rewrite, true, size),
            Ok::<InstallFiles, DynamicLauncherError>(files[0]),
        ),
        forall|i: int|
            0 <= i < 7 ==> call_ensures(InstallFiles::action, (&files[i],), #[trigger] actions[i]),
        forall|i: int|
            0 <= i < 6 ==> call_ensures(
                InstallFiles::advance,
                (#[trigger] files[i], Ok::<(), String>(())),
                InstallProgress::Next(files[i + 1]),
            ),
        call_ensures(InstallFiles::advance, (files[6], Ok::<(), String>(())), last),
        0 <= failing < 7,
        call_ensures(InstallFiles::advance, (files[failing], Err::<(), String>(e)), failed),
    ensures
        actions[0] matches FileAction::CreateDir { path } && path@ == dir@,
        actions[1] matches FileAction::WriteIcon { path } && path@ == icon@,
        actions[2] matches FileAction::CreateDir { path } && path@
            == "xdg-desktop-portal/applications"@,
        actions[3] matches FileAction::SaveDesktopFile { path } && path@ == desktop_file@,
        actions[4] matches FileAction::CreateDir { path } && path@ == "applications"@,
        actions[5] matches FileAction::RemoveFile { path } && path@ == link@,
        actions[6] matches FileAction::CreateLink { path, target } && path@ == link@ && target@
            == "../xdg-desktop-portal/applications/"@ + id@,
        last is Complete,
        failing == 5 ==> (failed matches InstallProgress::Next(next) && next@ == files[6]@),
        failing != 5 ==> {
            &&& failed matches InstallProgress::Failed { remove, error }
            &&& error matches DynamicLauncherError::Other { message }
            &&& message@ == if failing == 0 {
                "Failed to create icon dir: "@
            } else if failing == 1 {
                "Failed to write icon data: "@
            } else if failing == 2 {
                "Failed to create desktop dir: "@
            } else if failing == 3 {
                "Failed to save desktop file: "@
            } else if failing == 4 {
                "Failed to create link dir: "@
            } else {
                "Failed to create symlink: "@
            } + e@
            &&& remove.deep_view() == if failing <= 1 {
                Seq::<Seq<char>>::empty()
            } else if failing <= 3 {
                seq![icon@]
            } else {
                seq![desktop_file@, icon@]
            }
        },
{
    reveal_strlit("../xdg-desktop-portal/applications/");
    reveal_strlit("../");
    reveal_strlit("/");
    reveal_strlit("xdg-desktop-portal/applications");
    let plan = rewrite.plan();
    assert(files[0]@ == (plan, InstallStep::CreateIconDir));
    assert(files[1]@ == (plan, InstallStep::WriteIcon)) by {
        assert(progress_is(
            InstallProgress::Next(files[1]),
            plan,
            progress_after(plan, InstallStep::CreateIconDir, Ok(())),
        ));
    }
    assert(files[2]@ == (plan, InstallStep::CreateApplicationsDir)) by {
        assert(progress_is(
            InstallProgress::Next(files[2]),
            plan,
            progress_after(plan, InstallStep::WriteIcon, Ok(())),
        ));
    }
    assert(files[3]@ == (plan, InstallStep::SaveDesktopFile)) by {
        assert(progress_is(
            InstallProgress::Next(files[3]),
            plan,
            progress_after(plan, InstallStep::CreateApplicationsDir, Ok(())),
        ));
    }
    assert(files[4]@ == (plan, InstallStep::CreateLinkDir)) by {
        assert(progress_is(
            InstallProgress::Next(files[4]),
            plan,
            progress_after(plan, InstallStep::SaveDesktopFile, Ok(())),
        ));
    }
    assert(files[5]@ == (plan, InstallStep::RemoveOldLink)) by {
        assert(progress_is(
            InstallProgress::Next(files[5]),
            plan,
            progress_after(plan, InstallStep::CreateLinkDir, Ok(())),
        ));
    }
    assert(files[6]@ == (plan, InstallStep::CreateLink)) by {
        assert(progress_is(
            InstallProgress::Next(files[6]),
            plan,
            progress_after(plan, InstallStep::RemoveOldLink, Ok(())),
        ));
    }
    assert(actions[0]@ == step_action(plan, InstallStep::CreateIconDir));
    assert(actions[1]@ == step_action(plan, InstallStep::WriteIcon));
    assert(actions[2]@ == step_action(plan, InstallStep::CreateApplicationsDir));
    assert(actions[3]@ == step_action(plan, InstallStep::SaveDesktopFile));
    assert(actions[4]@ == step_action(plan, InstallStep::CreateLinkDir));
    assert(actions[5]@ == step_action(plan, InstallStep::RemoveOldLink));
    assert(actions[6]@ == step_action(plan, InstallStep::CreateLink));
    assert(link_target(id@) =~= "../xdg-desktop-portal/applications/"@ + id@);
    assert(progress_is(last, plan, progress_after(plan, InstallStep::CreateLink, Ok(()))));
    assert(progress_is(failed, plan, progress_after(plan, files[failing]@.1, Err(e@))));
}

} // verus!
