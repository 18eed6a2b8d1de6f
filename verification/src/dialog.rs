//! The dialog of PrepareInstall: what it shows, and what the answer of the user means.

use crate::interface::{text_view, LauncherType};
use crate::launcher::BackendPrepareInstallResponse;
use crate::options::{text_option, text_option_of, JsonValue, Options};
use crate::text;
use vstd::prelude::*;
use vstd::string::*;

verus! {

/// The size, in pixels, at which the dialog shows the icon.
pub const DEFAULT_ICON_SIZE: i32 = 128;

/// How the dialog is set up.
pub struct DialogSettings {
    pub launcher_type: LauncherType,
    /// The address that the dialog shows.
    pub url: Option<String>,
    pub modal: bool,
    pub editable_name: bool,
    pub title: &'static str,
}

/// An option that is a truth value, and holds unless it is given.
pub open spec fn flag_option(options: Map<Seq<char>, JsonValue>, key: Seq<char>) -> bool {
    options.contains_key(key) && options[key].bool_value() is Some ==> options[key].bool_value()
        == Some(true)
}

/// The kind of launcher that the dialog is about.
pub open spec fn dialog_type(options: Map<Seq<char>, JsonValue>) -> LauncherType {
    if text_option(options, "launcher_type"@) == Some("webapp"@) {
        LauncherType::Webapp
    } else {
        LauncherType::Application
    }
}

/// The address that the dialog shows: the target of a web application.
pub open spec fn dialog_url(options: Map<Seq<char>, JsonValue>) -> Option<Seq<char>> {
    match dialog_type(options) {
        LauncherType::Webapp => text_option(options, "target"@),
        LauncherType::Application => None,
    }
}

/// What the user agreed to, where they pressed the button that creates the launcher and left a
/// name: that name, with the icon.
pub open spec fn agreed(created: bool, name: Seq<char>, icon: Seq<u8>) -> Option<
    (Seq<char>, Seq<u8>),
> {
    if created && name.len() > 0 {
        Some((name, icon))
    } else {
        None
    }
}

/// An answer of the dialog, by characters and bytes.
pub open spec fn answer_view(answer: Option<(String, Vec<u8>)>) -> Option<(Seq<char>, Seq<u8>)> {
    match answer {
        Some((name, icon)) => Some((name@, icon@)),
        None => None,
    }
}

/// What became of a dialog, by characters and bytes.
pub open spec fn dialog_outcome(r: Result<Option<(String, Vec<u8>)>, String>) -> Result<
    Option<(Seq<char>, Seq<u8>)>,
    Seq<char>,
> {
    match r {
        Ok(answer) => Ok(answer_view(answer)),
        Err(complaint) => Err(complaint@),
    }
}

/// What the backend answers, by characters and bytes.
pub open spec fn backend_outcome(
    r: Result<Option<BackendPrepareInstallResponse>, String>,
) -> Result<Option<(Seq<char>, Seq<u8>)>, Seq<char>> {
    match r {
        Ok(Some(response)) => Ok(Some((response.name@, response.icon@))),
        Ok(None) => Ok(None),
        Err(complaint) => Err(complaint@),
    }
}

/// Whether the dialog belongs to a window of the caller.
pub fn has_parent(parent_window: &str) -> (r: bool)
    ensures
        r == (parent_window@.len() > 0),
{
    parent_window.unicode_len() > 0
}

/// Checks the window of the caller, where the dialog belongs to one; `found` says whether its
/// handle stands for a window.
pub fn check_parent(parent_window: &str, found: bool) -> (r: Result<(), String>)
    ensures
        match r {
            Ok(_) => parent_window@.len() > 0 ==> found,
            Err(e) => parent_window@.len() > 0 && !found && e@
                == "Couldn't get handle from parent window handle"@,
        },
{
    if has_parent(parent_window) && !found {
        Err("Couldn't get handle from parent window handle".to_owned())
    } else {
        Ok(())
    }
}

fn flag_option_of(options: &Options, key: &str) -> (r: bool)
    ensures
        r == flag_option(options@, key@),
{
    match options.get(key) {
        Some(v) => match v.as_bool() {
            Some(b) => b,
            None => true,
        },
        None => true,
    }
}

/// How the dialog is set up for given options.
pub fn dialog_settings(options: &Options) -> (r: DialogSettings)
    ensures
        r.launcher_type == dialog_type(options@),
        text_view(r.url) == dialog_url(options@),
        r.modal == flag_option(options@, "modal"@),
        r.editable_name == flag_option(options@, "editable_name"@),
        r.title@ == match r.launcher_type {
            LauncherType::Webapp => "Create Web App"@,
            LauncherType::Application => "Create App"@,
        },
{
    let launcher_type = match text_option_of(options, "launcher_type") {
        Some(name) => if text::equal(name, "webapp") {
            LauncherType::Webapp
        } else {
            LauncherType::Application
        },
        None => LauncherType::Application,
    };
    let url = match launcher_type {
        LauncherType::Webapp => match text_option_of(options, "target") {
            Some(target) => Some(target.to_owned()),
            None => None,
        },
        LauncherType::Application => None,
    };
    let title = match launcher_type {
        LauncherType::Webapp => "Create Web App",
        LauncherType::Application => "Create App",
    };
    DialogSettings {
        launcher_type,
        url,
        modal: flag_option_of(options, "modal"),
        editable_name: flag_option_of(options, "editable_name"),
        title,
    }
}

/// The markup in which the dialog shows an address whose special characters are escaped.
pub fn address_markup(escaped_address: &str) -> (r: String)
    ensures
        r@ == "<small>"@ + escaped_address@ + "</small>"@,
{
    "<small>".to_owned().concat(escaped_address).concat("</small>")
}

/// What a closed dialog means; `created` says whether the user pressed the button that creates the
/// launcher, and `name` is what they left in the entry.
pub fn dialog_answer(created: bool, name: String, icon: Vec<u8>) -> (r: Option<(String, Vec<u8>)>)
    ensures
        answer_view(r) == agreed(created, name@, icon@),
{
    if created && name.as_str().unicode_len() > 0 {
        Some((name, icon))
    } else {
        None
    }
}

/// What became of a dialog; `received` is the answer that it sent, unless it went away without one.
pub fn backend_handle_dialog_request(received: Option<Option<(String, Vec<u8>)>>) -> (r: Result<
    Option<(String, Vec<u8>)>,
    String,
>)
    ensures
        dialog_outcome(r) == match received {
            Some(answer) => Ok(answer_view(answer)),
            None => Err("Channel closed without seeing result"@),
        },
{
    match received {
        Some(answer) => Ok(answer),
        None => Err("Channel closed without seeing result".to_owned()),
    }
}

/// What the backend answers; `dialog` is what became of the dialog, unless it was never heard of.
pub fn backend_handle_prepare_install(
    dialog: Option<Result<Option<(String, Vec<u8>)>, String>>,
) -> (r: Result<Option<BackendPrepareInstallResponse>, String>)
    ensures
        backend_outcome(r) == match dialog {
            Some(dialog) => dialog_outcome(dialog),
            None => Err("Dialog channel got dropped"@),
        },
{
    match dialog {
        Some(Ok(Some((name, icon)))) => Ok(Some(BackendPrepareInstallResponse { name, icon })),
        Some(Ok(None)) => Ok(None),
        Some(Err(e)) => Err(e),
        None => Err("Dialog channel got dropped".to_owned()),
    }
}

/// A token of PrepareInstall stands for what the user saw and agreed to: where the dialog answered,
/// the portal gives out a token if and only if the user pressed the button that creates the
/// launcher and left a name, and it is for that name and the icon that was shown.
pub proof fn law_tokens_follow_the_dialog(
    created: bool,
    name: Seq<char>,
    icon: Seq<u8>,
    response: Result<Option<BackendPrepareInstallResponse>, String>,
)
    requires
        backend_outcome(response) == Ok::<Option<(Seq<char>, Seq<u8>)>, Seq<char>>(
            agreed(created, name, icon),
        ),
    ensures
        crate::launcher::dialog_grant(response) == if created && name.len() > 0 {
            Ok((name, icon))
        } else {
            Err(crate::interface::ErrorView::Cancelled)
        },
{
}

/// A dialog belongs to a window of the caller if and only if one is named, and that window must be
/// there.
pub proof fn law_parents(
    parent_window: &str,
    wanted: bool,
    found: bool,
    r: Result<(), String>,
)
    requires
        call_ensures(has_parent, (parent_window,), wanted),
        call_ensures(check_parent, (parent_window, found), r),
    ensures
        wanted <==> parent_window@.len() > 0,
        r is Ok <==> !wanted || found,
        r matches Err(e) ==> e@ == "Couldn't get handle from parent window handle"@,
{
}

/// A dialog is about a web application if and only if that launcher type is asked for; only then does
/// it have an address, which is the target. It is modal, and its name can be edited, unless that is
/// set to `false`.
pub proof fn law_dialog_settings(options: &Options, r: DialogSettings)
    requires
        call_ensures(dialog_settings, (options,), r),
    ensures
        ({
            let o = options@;
            let web = o.contains_key("launcher_type"@) && (
            o["launcher_type"@] matches JsonValue::Text(s) && s@ == "webapp"@);
            &&& r.launcher_type == if web {
                LauncherType::Webapp
            } else {
                LauncherType::Application
            }
            &&& r.title@ == if web {
                "Create Web App"@
            } else {
                "Create App"@
            }
            &&& r.url is Some <==> web && o.contains_key("target"@) && o["target"@] is Text
            &&& r.url matches Some(url) ==> o["target"@] matches JsonValue::Text(s) && url@ == s@
            &&& !r.modal <==> o.contains_key("modal"@) && o["modal"@] == JsonValue::Bool(false)
            &&& !r.editable_name <==> o.contains_key("editable_name"@) && o["editable_name"@]
                == JsonValue::Bool(false)
        }),
{
}

/// An address is shown as it is, in small print.
pub proof fn law_addresses(address: &str, r: String)
    requires
        call_ensures(address_markup, (address,), r),
    ensures
        r@ == "<small>"@ + address@ + "</small>"@,
{
}

/// The user agrees if and only if they press the button that creates the launcher and leave a name;
/// they agree to that name and to all bytes of the icon.
pub proof fn law_what_the_user_agrees_to(
    created: bool,
    name: String,
    icon: Vec<u8>,
    r: Option<(String, Vec<u8>)>,
)
    requires
        call_ensures(dialog_answer, (created, name, icon), r),
    ensures
        r is Some <==> created && name@.len() > 0,
        r matches Some(answer) ==> answer.0@ == name@ && answer.1@ == icon@,
{
    assert(answer_view(r) == agreed(created, name@, icon@));
}

/// The answer of the dialog reaches the portal as it is; a dialog that is not heard of is a
/// complaint.
pub proof fn law_answers_are_handed_on(
    received: Option<Option<(String, Vec<u8>)>>,
    dialog: Result<Option<(String, Vec<u8>)>, String>,
    heard: Option<Result<Option<(String, Vec<u8>)>, String>>,
    r: Result<Option<BackendPrepareInstallResponse>, String>,
)
    requires
        call_ensures(backend_handle_dialog_request, (received,), dialog),
        call_ensures(backend_handle_prepare_install, (heard,), r),
    ensures
        match received {
            None => dialog matches Err(e) && e@ == "Channel closed without seeing result"@,
            Some(None) => dialog matches Ok(None),
            Some(Some((name, icon))) => dialog matches Ok(Some(answer)) && answer.0@ == name@
                && answer.1@ == icon@,
        },
        match heard {
            None => r matches Err(e) && e@ == "Dialog channel got dropped"@,
            Some(Err(complaint)) => r matches Err(e) && e@ == complaint@,
            Some(Ok(None)) => r matches Ok(None),
            Some(Ok(Some((name, icon)))) => r matches Ok(Some(response)) && response.name@ == name@
                && response.icon@ == icon@,
        },
{
}

} // verus!
