//! Icons: how they are validated, where they are stored, and how a stored icon is recognised.

use crate::names::{desktop_file_id_check, stem_of, DESKTOP_SUFFIX};
use crate::options::JsonValue;
use crate::path;
use crate::path::{components, joined_path, lies_under, names_something, parent_name};
use crate::text;
use crate::text::{after_first, decimal_int, leading_number, split};
use vstd::prelude::*;
use vstd::string::*;

verus! {

/// Where the portal keeps icons, below the data directory of the user.
pub const XDG_PORTAL_ICONS_DIR: &'static str = "xdg-desktop-portal/icons";

/// The program that validates icons, where the environment names no other.
pub const DEFAULT_ICON_VALIDATOR: &'static str = "/usr/libexec/xdg-desktop-portal-validate-icon";

/// The descriptor on which the validator finds the icon.
pub const VALIDATOR_INPUT_FD: &'static str = "3";

/// The group of the validator's output that holds its findings.
pub const ICON_VALIDATOR_GROUP: &'static str = "Icon Validator";

/// The largest size, in pixels, that an icon can have; it stands for icons of any size, too.
pub const MAX_ICON_PIXELS: i32 = 4096;

/// What an icon is for.
#[derive(Debug, Clone, Copy, PartialEq, Eq, Structural)]
pub enum IconType {
    Desktop,
    Webapp,
}

impl IconType {
    /// The rules by which the validator judges such an icon.
    pub open spec fn ruleset(self) -> Seq<char> {
        match self {
            IconType::Desktop => "desktop"@,
            IconType::Webapp => "webapp"@,
        }
    }

    /// The rules by which the validator judges such an icon.
    pub fn to_ruleset(&self) -> (r: &'static str)
        ensures
            r@ == self.ruleset(),
    {
        match self {
            IconType::Desktop => "desktop",
            IconType::Webapp => "webapp",
        }
    }
}

/// The validator to run: the one that the environment names, or else the default.
pub fn validator_program(configured: Option<String>) -> (r: String)
    ensures
        r@ == match configured {
            Some(program) => program@,
            None => DEFAULT_ICON_VALIDATOR@,
        },
{
    match configured {
        Some(program) => program,
        None => DEFAULT_ICON_VALIDATOR.to_owned(),
    }
}

/// The arguments of the validator.
pub open spec fn validator_arguments(insecure: bool, icon_type: IconType) -> Seq<Seq<char>> {
    (if insecure {
        Seq::empty()
    } else {
        seq!["--sandbox"@]
    }) + seq!["--fd"@, VALIDATOR_INPUT_FD@, "--ruleset"@, icon_type.ruleset()]
}

/// The arguments of the validator; it runs in its sandbox unless `insecure` is set.
pub fn validator_args(insecure: bool, icon_type: IconType) -> (r: Vec<String>)
    ensures
        r.deep_view() == validator_arguments(insecure, icon_type),
{
    let mut r: Vec<String> = Vec::new();
    if !insecure {
        r.push("--sandbox".to_owned());
    }
    r.push("--fd".to_owned());
    r.push(VALIDATOR_INPUT_FD.to_owned());
    r.push("--ruleset".to_owned());
    r.push(icon_type.to_ruleset().to_owned());
    assert(r.deep_view() =~= validator_arguments(insecure, icon_type));
    r
}

/// The arguments of the validator for an icon that a caller sent serialized: such an icon is for
/// the desktop.
pub fn serialized_icon_validator_args(insecure: bool) -> (r: Vec<String>)
    ensures
        r.deep_view() == validator_arguments(insecure, IconType::Desktop),
{
    validator_args(insecure, IconType::Desktop)
}

/// The format and the size of an icon in pixels, or a complaint.
pub open spec fn verdict_view(r: Result<(String, String), String>) -> Result<
    (Seq<char>, Seq<char>),
    Seq<char>,
> {
    match r {
        Ok((format, size)) => Ok((format@, size@)),
        Err(complaint) => Err(complaint@),
    }
}

/// What the validator reported: the two keys of its output, each with the complaint of the reader
/// where it cannot be read.
pub struct ValidatorReport {
    pub format: Result<String, String>,
    pub width: Result<i32, String>,
}

/// The verdict that a report amounts to.
pub open spec fn report_verdict(report: Result<ValidatorReport, String>) -> Result<
    (Seq<char>, Seq<char>),
    Seq<char>,
> {
    match report {
        Err(e) => Err("Icon validation: "@ + e@),
        Ok(report) => match (report.format, report.width) {
            (Err(e), _) => Err("Icon validation: "@ + e@),
            (Ok(_), Err(e)) => Err("Icon validation: "@ + e@),
            (Ok(format), Ok(width)) => Ok((format@, decimal_int(width as int))),
        },
    }
}

/// The verdict in the output of the validator; `report` is the output as a key file, or the
/// complaint of the reader.
pub fn parse_validator_output(report: Result<ValidatorReport, String>) -> (r: Result<
    (String, String),
    String,
>)
    ensures
        verdict_view(r) == report_verdict(report),
{
    match report {
        Err(e) => Err("Icon validation: ".to_owned().concat(e.as_str())),
        Ok(report) => match report.format {
            Err(e) => Err("Icon validation: ".to_owned().concat(e.as_str())),
            Ok(format) => match report.width {
                Err(e) => Err("Icon validation: ".to_owned().concat(e.as_str())),
                Ok(width) => Ok((format, text::decimal_int_text(width))),
            },
        },
    }
}

/// How a run of the validator ended.
pub enum ValidatorRun {
    /// There is no such program.
    NotFound,
    /// The icon could not be handed over.
    NotPrepared(String),
    /// The program could not be run.
    NotRun(String),
    /// The program rejected the icon, with this output.
    Rejected(String),
    /// The program accepted the icon, with this report.
    Accepted(Result<ValidatorReport, String>),
}

/// The verdict that a run of the validator amounts to.
pub open spec fn run_verdict(validator: Seq<char>, run: ValidatorRun) -> Result<
    (Seq<char>, Seq<char>),
    Seq<char>,
> {
    match run {
        ValidatorRun::NotFound => Err(
            "Icon validation: "@ + validator + " not found, rejecting icon by default."@,
        ),
        ValidatorRun::NotPrepared(e) => Err(e@),
        ValidatorRun::NotRun(e) => Err(
            "Icon validation: Rejecting icon: Couldn't run validator: "@ + e@,
        ),
        ValidatorRun::Rejected(output) => Err(
            "Icon validation: Rejecting icon because validator failed: "@ + output@,
        ),
        ValidatorRun::Accepted(report) => report_verdict(report),
    }
}

/// The verdict on an icon, from how the run of `validator` ended.
pub fn xdp_validate_icon(validator: &str, run: ValidatorRun) -> (r: Result<
    (String, String),
    String,
>)
    ensures
        verdict_view(r) == run_verdict(validator@, run),
{
    match run {
        ValidatorRun::NotFound => Err(
            "Icon validation: ".to_owned().concat(validator).concat(
                " not found, rejecting icon by default.",
            ),
        ),
        ValidatorRun::NotPrepared(e) => Err(e),
        ValidatorRun::NotRun(e) => Err(
            "Icon validation: Rejecting icon: Couldn't run validator: ".to_owned().concat(
                e.as_str(),
            ),
        ),
        ValidatorRun::Rejected(output) => Err(
            "Icon validation: Rejecting icon because validator failed: ".to_owned().concat(
                output.as_str(),
            ),
        ),
        ValidatorRun::Accepted(report) => parse_validator_output(report),
    }
}

/// An icon that the validator accepted.
#[derive(Debug, Clone, PartialEq)]
pub struct ValidatedIcon {
    pub format: String,
    pub size: String,
    pub bytes: Vec<u8>,
}

impl View for ValidatedIcon {
    type V = (Seq<char>, Seq<char>, Seq<u8>);

    open spec fn view(&self) -> (Seq<char>, Seq<char>, Seq<u8>) {
        (self.format@, self.size@, self.bytes@)
    }
}

/// How far the text of an icon could be turned into an icon.
pub enum IconDecoding {
    /// The text is no serialized value of the right type.
    Unparsable(String),
    /// The value is no icon.
    NotAnIcon,
    /// The icon does not hold its own bytes.
    NotBytes,
    /// The bytes could not be sealed in memory.
    NotSealed(String),
    /// The bytes of the icon, and the verdict on them of the validator, run with the arguments that
    /// `serialized_icon_validator_args` gives.
    Judged { bytes: Vec<u8>, verdict: Result<(String, String), String> },
}

/// The icon that a value stands for, or the complaint about it.
pub open spec fn serialized_icon_check(icon_v: JsonValue, decoding: IconDecoding) -> Result<
    (Seq<char>, Seq<char>, Seq<u8>),
    Seq<char>,
> {
    if icon_v.text_value() is None {
        Err("JSON value is not a string"@)
    } else {
        match decoding {
            IconDecoding::Unparsable(e) => Err(e@),
            IconDecoding::NotAnIcon => Err("Failed to deserialize icon"@),
            IconDecoding::NotBytes => Err("Icon is not a BytesIcon"@),
            IconDecoding::NotSealed(e) => Err(e@),
            IconDecoding::Judged { bytes, verdict } => match verdict {
                Ok((format, size)) => Ok((format@, size@, bytes@)),
                Err(e) => Err(e@),
            },
        }
    }
}

/// A validated icon or a complaint, by their views.
pub open spec fn icon_outcome(r: Result<ValidatedIcon, String>) -> Result<
    (Seq<char>, Seq<char>, Seq<u8>),
    Seq<char>,
> {
    match r {
        Ok(icon) => Ok(icon@),
        Err(complaint) => Err(complaint@),
    }
}

/// The text in which an icon is serialized.
pub fn serialized_icon_text(icon_v: &JsonValue) -> (r: Result<&str, String>)
    ensures
        match r {
            Ok(s) => icon_v.text_value() == Some(s@),
            Err(complaint) => icon_v.text_value() is None && complaint@
                == "JSON value is not a string"@,
        },
{
    match icon_v.as_str() {
        Some(s) => Ok(s),
        None => Err("JSON value is not a string".to_owned()),
    }
}

/// The icon that `icon_v` stands for, given what became of the text that `serialized_icon_text`
/// gives.
pub fn validate_serialized_icon(icon_v: &JsonValue, decoding: IconDecoding) -> (r: Result<
    ValidatedIcon,
    String,
>)
    ensures
        icon_outcome(r) == serialized_icon_check(*icon_v, decoding),
{
    match serialized_icon_text(icon_v) {
        Err(e) => Err(e),
        Ok(_) => match decoding {
            IconDecoding::Unparsable(e) => Err(e),
            IconDecoding::NotAnIcon => Err("Failed to deserialize icon".to_owned()),
            IconDecoding::NotBytes => Err("Icon is not a BytesIcon".to_owned()),
            IconDecoding::NotSealed(e) => Err(e),
            IconDecoding::Judged { bytes, verdict } => match verdict {
                Ok((format, size)) => Ok(ValidatedIcon { format, size, bytes }),
                Err(e) => Err(e),
            },
        },
    }
}

/// The directory for icons of a format and size, below the icons directory.
pub open spec fn icon_subdir(format: Seq<char>, size: Seq<char>) -> Seq<char> {
    if format == "svg"@ {
        "scalable"@
    } else {
        size + "x"@ + size
    }
}

/// The directory of the icon of a launcher, below the data directory.
pub open spec fn icon_dir(format: Seq<char>, size: Seq<char>) -> Seq<char> {
    joined_path(XDG_PORTAL_ICONS_DIR@, icon_subdir(format, size))
}

/// The path of the icon of a launcher, below the data directory.
pub open spec fn icon_path(id: Seq<char>, format: Seq<char>, size: Seq<char>) -> Seq<char> {
    joined_path(icon_dir(format, size), stem_of(id) + "."@ + format)
}

/// The directory of the icon of a launcher, below the data directory.
pub fn icon_dir_of(format: &str, size: &str) -> (r: String)
    ensures
        r@ == icon_dir(format@, size@),
{
    if text::equal(format, "svg") {
        path::join(XDG_PORTAL_ICONS_DIR, "scalable")
    } else {
        let subdir = size.to_owned().concat("x").concat(size);
        path::join(XDG_PORTAL_ICONS_DIR, subdir.as_str())
    }
}

/// The path of the icon of a launcher, below the data directory.
pub fn icon_path_of(desktop_file_id: &str, format: &str, size: &str) -> (r: String)
    requires
        DESKTOP_SUFFIX@.is_suffix_of(desktop_file_id@),
    ensures
        r@ == icon_path(desktop_file_id@, format@, size@),
{
    let dir = icon_dir_of(format, size);
    let stem = match text::strip_suffix(desktop_file_id, DESKTOP_SUFFIX) {
        Some(stem) => stem,
        None => "",
    };
    assert(stem@ =~= stem_of(desktop_file_id@));
    let name = stem.to_owned().concat(".").concat(format);
    path::join(dir.as_str(), name.as_str())
}

/// The format that the ending of a path tells.
pub open spec fn format_of(path: Seq<char>) -> Option<Seq<char>> {
    if ".png"@.is_suffix_of(path) {
        Some("png"@)
    } else if ".svg"@.is_suffix_of(path) {
        Some("svg"@)
    } else if ".jpeg"@.is_suffix_of(path) || ".jpg"@.is_suffix_of(path) {
        Some("jpeg"@)
    } else {
        None
    }
}

/// The size in pixels that the directory of an icon tells: the number behind the first `x` of its
/// name, or the largest size where it is named `scalable`; zero where it tells none.
pub open spec fn size_of(path: Seq<char>) -> int {
    match parent_name(path) {
        None => 0,
        Some(dir) => if dir == "scalable"@ {
            MAX_ICON_PIXELS as int
        } else {
            match after_first(dir, 'x') {
                Some(rest) => leading_number(rest),
                None => 0,
            }
        },
    }
}

/// The icons directory, where the path of the data directory is text.
pub open spec fn icons_dir(data_dir: Option<Seq<char>>) -> Option<Seq<char>> {
    match data_dir {
        Some(dir) => Some(joined_path(dir, XDG_PORTAL_ICONS_DIR@)),
        None => None,
    }
}

/// Whether an icon lies under the icons directory. A data directory whose path is not text has
/// nothing that text can name.
pub open spec fn in_icons_dir(icon: Seq<char>, data_dir: Option<Seq<char>>) -> bool {
    icons_dir(data_dir) matches Some(dir) && lies_under(icon, dir)
}

/// The format and size of an icon that the portal keeps: it lies under the icons directory, its
/// ending tells its format, and its directory a size from 1 to 4096.
pub open spec fn recognised(icon: Seq<char>, data_dir: Option<Seq<char>>) -> Option<
    (Seq<char>, int),
> {
    if in_icons_dir(icon, data_dir) && format_of(icon) is Some && 0 < size_of(icon)
        <= MAX_ICON_PIXELS {
        Some((format_of(icon)->0, size_of(icon)))
    } else {
        None
    }
}

/// Whether an icon lies under the icons directory.
pub fn is_in_icons_dir(icon: &str, data_dir: Option<&str>) -> (r: bool)
    ensures
        r == in_icons_dir(
            icon@,
            match data_dir {
                Some(dir) => Some(dir@),
                None => None,
            },
        ),
{
    match data_dir {
        Some(dir) => {
            let icons = path::join(dir, XDG_PORTAL_ICONS_DIR);
            path::under(icon, icons.as_str())
        },
        None => false,
    }
}

fn format_by_ending(icon: &str) -> (r: Option<&'static str>)
    ensures
        match r {
            Some(format) => format_of(icon@) == Some(format@),
            None => format_of(icon@) is None,
        },
{
    if text::ends_with(icon, ".png") {
        Some("png")
    } else if text::ends_with(icon, ".svg") {
        Some("svg")
    } else if text::ends_with(icon, ".jpeg") || text::ends_with(icon, ".jpg") {
        Some("jpeg")
    } else {
        None
    }
}

fn size_by_directory(icon: &str) -> (r: i32)
    ensures
        r == size_of(icon@),
{
    match path::parent_name_of(icon) {
        None => 0,
        Some(dir) => if text::equal(dir.as_str(), "scalable") {
            MAX_ICON_PIXELS
        } else {
            match text::text_after(dir.as_str(), 'x') {
                Some(rest) => text::number_at_front(rest),
                None => 0,
            }
        },
    }
}

/// The format and size of an icon that the portal keeps.
pub fn recognise(icon: &str, data_dir: Option<&str>) -> (r: Option<(&'static str, i32)>)
    ensures
        match r {
            Some((format, size)) => recognised(
                icon@,
                match data_dir {
                    Some(dir) => Some(dir@),
                    None => None,
                },
            ) == Some((format@, size as int)),
            None => recognised(
                icon@,
                match data_dir {
                    Some(dir) => Some(dir@),
                    None => None,
                },
            ) is None,
        },
{
    if !is_in_icons_dir(icon, data_dir) {
        return None;
    }
    let size: i32 = size_by_directory(icon);
    match format_by_ending(icon) {
        Some(format) if size > 0 && size <= MAX_ICON_PIXELS => Some((format, size)),
        _ => None,
    }
}

/// The pieces of the path of the icons directory, below the data directory.
proof fn lemma_icons_dir_pieces()
    ensures
        split(XDG_PORTAL_ICONS_DIR@, '/') == seq!["xdg-desktop-portal"@, "icons"@],
        split(XDG_PORTAL_ICONS_DIR@, '/').filter(names_something()) == seq![
            "xdg-desktop-portal"@,
            "icons"@,
        ],
        !path::is_absolute(XDG_PORTAL_ICONS_DIR@),
        XDG_PORTAL_ICONS_DIR@.len() > 0,
        XDG_PORTAL_ICONS_DIR@.last() != '/',
        "xdg-desktop-portal"@ != "."@,
{
    reveal_strlit("xdg-desktop-portal/icons");
    reveal_strlit("xdg-desktop-portal");
    reveal_strlit("icons");
    reveal_strlit(".");
    let a = "xdg-desktop-portal"@;
    let b = "icons"@;
    assert(XDG_PORTAL_ICONS_DIR@ =~= a.push('/') + b);
    text::lemma_split_parts(a, '/', b);
    text::lemma_split_single(a, '/');
    text::lemma_split_single(b, '/');
    let pieces = split(XDG_PORTAL_ICONS_DIR@, '/');
    assert(pieces =~= seq![a, b]);
    assert(a.len() != 1 && b.len() != 1);
    lemma_all_kept(pieces);
}

/// Pieces that all name something are all kept.
proof fn lemma_all_kept(pieces: Seq<Seq<char>>)
    requires
        forall|i: int|
            0 <= i < pieces.len() ==> (#[trigger] pieces[i]).len() > 0 && pieces[i] != "."@,
    ensures
        pieces.filter(names_something()) == pieces,
{
    path::lemma_all_kept(pieces);
}

/// The pieces of the path to an icon in a directory below the icons directory.
proof fn lemma_icon_pieces(subdir: Seq<char>, name: Seq<char>)
    requires
        !subdir.contains('/'),
        !name.contains('/'),
        subdir.len() > 1,
        name.len() > 1,
    ensures
        ({
            let rel = joined_path(joined_path(XDG_PORTAL_ICONS_DIR@, subdir), name);
            &&& split(rel, '/') == split(XDG_PORTAL_ICONS_DIR@, '/') + seq![subdir, name]
            &&& rel[0] == XDG_PORTAL_ICONS_DIR@[0]
            &&& rel == XDG_PORTAL_ICONS_DIR@.push('/') + subdir.push('/') + name
        }),
{
    let top = XDG_PORTAL_ICONS_DIR@;
    let dir = joined_path(top, subdir);
    let rel = joined_path(dir, name);
    reveal_strlit("xdg-desktop-portal/icons");
    assert(subdir.contains(subdir[0]) && name.contains(name[0]));
    assert(subdir.contains(subdir.last()));
    assert(dir == top.push('/') + subdir);
    assert(rel == dir.push('/') + name);
    assert(rel =~= top.push('/') + subdir.push('/') + name);
    text::lemma_split_parts(top, '/', subdir);
    text::lemma_split_parts(dir, '/', name);
    text::lemma_split_single(subdir, '/');
    text::lemma_split_single(name, '/');
    assert(split(rel, '/') =~= split(top, '/') + seq![subdir, name]);
}

/// The components of a path to an icon in a directory below the icons directory.
proof fn lemma_icon_components(data_dir: Seq<char>, subdir: Seq<char>, name: Seq<char>)
    requires
        !subdir.contains('/'),
        !name.contains('/'),
        subdir.len() > 1,
        name.len() > 1,
    ensures
        ({
            let icons = joined_path(data_dir, XDG_PORTAL_ICONS_DIR@);
            let icon = joined_path(
                data_dir,
                joined_path(joined_path(XDG_PORTAL_ICONS_DIR@, subdir), name),
            );
            &&& components(icon) == components(icons) + seq![subdir, name]
            &&& name.is_suffix_of(icon)
        }),
{
    lemma_icons_dir_pieces();
    lemma_icon_pieces(subdir, name);
    let top = XDG_PORTAL_ICONS_DIR@;
    let rel = joined_path(joined_path(top, subdir), name);
    let icons = joined_path(data_dir, top);
    let icon = joined_path(data_dir, rel);
    let pieces = split(rel, '/');
    assert(pieces =~= seq!["xdg-desktop-portal"@, "icons"@, subdir, name]);
    assert forall|i: int| 0 <= i < pieces.len() implies (#[trigger] pieces[i]).len() > 0
        && pieces[i] != "."@ by {
        reveal_strlit(".");
        reveal_strlit("xdg-desktop-portal");
        reveal_strlit("icons");
    }
    lemma_all_kept(pieces);
    path::lemma_components_of_joined(data_dir, top);
    path::lemma_components_of_joined(data_dir, rel);
    assert(components(icon) =~= components(icons) + seq![subdir, name]);
    assert(name =~= icon.subrange(icon.len() - name.len(), icon.len() as int));
}

/// The path of an installed icon lies under the icons directory, so that removing the launcher
/// removes the icon.
pub proof fn law_installed_icon_is_in_icons_dir(
    data_dir: Seq<char>,
    app_id: Seq<char>,
    id: Seq<char>,
    format: Seq<char>,
    width: int,
)
    requires
        desktop_file_id_check(app_id, id) is Ok,
    ensures
        in_icons_dir(
            joined_path(data_dir, icon_path(id, format, decimal_int(width))),
            Some(data_dir),
        ),
{
    lemma_stored_names(app_id, id, format, width);
    lemma_under_icons_dir(
        data_dir,
        icon_subdir(format, decimal_int(width)),
        stem_of(id) + "."@ + format,
    );
}

/// A relative path in a directory below the icons directory lies under the icons directory.
proof fn lemma_under_icons_dir(data_dir: Seq<char>, subdir: Seq<char>, rest: Seq<char>)
    requires
        !subdir.contains('/'),
        subdir.len() > 1,
        !path::is_absolute(rest),
    ensures
        lies_under(
            joined_path(
                data_dir,
                joined_path(joined_path(XDG_PORTAL_ICONS_DIR@, subdir), rest),
            ),
            joined_path(data_dir, XDG_PORTAL_ICONS_DIR@),
        ),
{
    lemma_icons_dir_pieces();
    let top = XDG_PORTAL_ICONS_DIR@;
    let dir = joined_path(top, subdir);
    let rel = joined_path(dir, rest);
    let below = subdir.push('/') + rest;
    assert(subdir.contains(subdir[0]) && subdir.contains(subdir.last()));
    assert(dir == top.push('/') + subdir);
    assert(rel =~= top.push('/') + below);
    assert(rel[0] == top[0]);
    text::lemma_split_parts(top, '/', below);
    assert(split(rel, '/')[0] == split(top, '/')[0]);
    Seq::filter_distributes_over_add(split(top, '/'), split(below, '/'), names_something());
    path::lemma_components_of_joined(data_dir, top);
    path::lemma_components_of_joined(data_dir, rel);
    let icons = components(joined_path(data_dir, top));
    let icon = components(joined_path(data_dir, rel));
    assert(icon =~= icons + split(below, '/').filter(names_something()));
    assert(icons =~= icon.subrange(0, icons.len() as int));
}

/// The directory in the path of an icon is the name of a directory, and the rest is relative; it is
/// the name of a file where the format holds no `/`.
proof fn lemma_stored_names(app_id: Seq<char>, id: Seq<char>, format: Seq<char>, width: int)
    requires
        desktop_file_id_check(app_id, id) is Ok,
    ensures
        ({
            let subdir = icon_subdir(format, decimal_int(width));
            let name = stem_of(id) + "."@ + format;
            &&& !subdir.contains('/')
            &&& subdir.len() > 1
            &&& !path::is_absolute(name)
            &&& !format.contains('/') ==> !name.contains('/')
            &&& name.len() > 1
        }),
{
    reveal_strlit("x");
    reveal_strlit(".");
    reveal_strlit("-");
    reveal_strlit("scalable");
    let subdir = icon_subdir(format, decimal_int(width));
    let name = stem_of(id) + "."@ + format;
    crate::names::law_accepted_id_is_a_file_name(app_id, id);
    let magnitude: nat = if width < 0 {
        (-width) as nat
    } else {
        width as nat
    };
    text::lemma_decimal(magnitude);
    let size = decimal_int(width);
    assert forall|i: int| 0 <= i < size.len() implies size[i] != '/' by {
        if width < 0 {
            if i > 0 {
                assert(size[i] == text::decimal(magnitude)[i - 1]);
            }
        } else {
            assert(size[i] == text::decimal(magnitude)[i]);
        }
    }
    assert forall|i: int| 0 <= i < subdir.len() implies subdir[i] != '/' by {
        if format != "svg"@ {
            if i < size.len() {
                assert(subdir[i] == size[i]);
            } else if i > size.len() {
                assert(subdir[i] == size[i - size.len() - 1]);
            }
        }
    }
    assert(name[0] == id[0] && id.contains(id[0]));
    assert forall|i: int| !format.contains('/') && 0 <= i < name.len() implies name[i] != '/' by {
        if i < stem_of(id).len() {
            assert(name[i] == id[i]);
            assert(id.contains(id[i]));
        } else if i > stem_of(id).len() {
            assert(name[i] == format[i - stem_of(id).len() - 1]);
            assert(format.contains(format[i - stem_of(id).len() - 1]));
        }
    }
}

/// The ending of the name of an icon tells its format.
proof fn lemma_ending_tells_format(icon: Seq<char>, stem: Seq<char>, format: Seq<char>)
    requires
        format == "png"@ || format == "jpeg"@ || format == "svg"@,
        (stem + "."@ + format).is_suffix_of(icon),
    ensures
        format_of(icon) == Some(format),
{
    reveal_strlit("png");
    reveal_strlit("jpeg");
    reveal_strlit("svg");
    reveal_strlit(".png");
    reveal_strlit(".jpeg");
    reveal_strlit(".svg");
    reveal_strlit(".");
    let name = stem + "."@ + format;
    let n = icon.len() as int;
    let m = name.len() as int;
    let k = format.len() as int;
    assert forall|j: int| 0 <= j < k implies icon[n - k + j] == #[trigger] format[j] by {
        assert(name[m - k + j] == format[j]);
        assert(icon.subrange(n - m, n)[m - k + j] == icon[n - k + j]);
    }
    assert(icon[n - k - 1] == '.') by {
        assert(name[m - k - 1] == '.');
        assert(icon.subrange(n - m, n)[m - k - 1] == icon[n - k - 1]);
    }
    let ending = icon.subrange(n - 4, n);
    assert(icon[n - k] == format[0] && icon[n - k + 1] == format[1]);
    assert(icon[n - k + 2] == format[2]);
    if format == "png"@ {
        assert(".png"@ =~= ending);
    } else if format == "svg"@ {
        assert(ending[1] == 's');
        assert(".png"@[1] == 'p');
        assert(".svg"@ =~= ending);
    } else {
        assert(icon[n - k + 3] == format[3]);
        assert(ending[0] == 'j');
        assert(".png"@[0] == '.');
        assert(".svg"@[0] == '.');
        assert(".jpeg"@ =~= icon.subrange(n - 5, n));
    }
}

/// The directory of an icon tells its size.
proof fn lemma_directory_tells_size(icon: Seq<char>, format: Seq<char>, width: int)
    requires
        format != "svg"@ ==> 1 <= width <= MAX_ICON_PIXELS,
        parent_name(icon) == Some(icon_subdir(format, decimal_int(width))),
    ensures
        size_of(icon) == if format == "svg"@ {
            MAX_ICON_PIXELS as int
        } else {
            width
        },
{
    if format != "svg"@ {
        reveal_strlit("x");
        reveal_strlit("scalable");
        let size = decimal_int(width);
        let subdir = icon_subdir(format, size);
        text::lemma_decimal(width as nat);
        assert(!size.contains('x')) by {
            assert forall|i: int| 0 <= i < size.len() implies size[i] != 'x' by {
                assert(text::is_digit(size[i]));
            }
        }
        assert(subdir =~= size.push('x') + size);
        assert(text::is_digit(size[0]));
        assert(subdir[0] == size[0]);
        assert("scalable"@[0] == 's');
        text::lemma_after_first_skips(size, 'x', size);
        text::lemma_leading_digits_all(size);
    }
}

/// What is stored is what is read: an installed icon of a known format, and of a size from 1 to
/// 4096, is recognised by its path, with its format and its size. A scalable icon counts as one of
/// the largest size.
pub proof fn law_installed_icon_is_recognised(
    data_dir: Seq<char>,
    app_id: Seq<char>,
    id: Seq<char>,
    format: Seq<char>,
    width: int,
)
    requires
        desktop_file_id_check(app_id, id) is Ok,
        format == "png"@ || format == "jpeg"@ || format == "svg"@,
        format != "svg"@ ==> 1 <= width <= MAX_ICON_PIXELS,
    ensures
        recognised(
            joined_path(data_dir, icon_path(id, format, decimal_int(width))),
            Some(data_dir),
        ) == Some(
            (
                format,
                if format == "svg"@ {
                    MAX_ICON_PIXELS as int
                } else {
                    width
                },
            ),
        ),
{
    let size = decimal_int(width);
    let subdir = icon_subdir(format, size);
    let stem = stem_of(id);
    let icon = joined_path(data_dir, icon_path(id, format, size));
    assert(!format.contains('/')) by {
        reveal_strlit("png");
        reveal_strlit("jpeg");
        reveal_strlit("svg");
    }
    lemma_stored_names(app_id, id, format, width);
    lemma_icon_components(data_dir, subdir, stem + "."@ + format);
    let all = components(icon);
    assert(all[all.len() - 2] == subdir);
    assert(path::is_file_name(subdir)) by {
        reveal_strlit("/");
        reveal_strlit(".");
        reveal_strlit("..");
        reveal_strlit("x");
        reveal_strlit("scalable");
        if format != "svg"@ {
            text::lemma_decimal(width as nat);
            assert(text::is_digit(size[0]));
            assert(subdir[0] == size[0]);
        }
    }
    lemma_directory_tells_size(icon, format, width);
    lemma_ending_tells_format(icon, stem, format);
}

/// The verdict is what the validator reported: its format, and its width in decimal form. A report
/// that cannot be read is a complaint, about the format before the width.
pub proof fn law_verdict_is_what_was_reported(
    report: Result<ValidatorReport, String>,
    r: Result<(String, String), String>,
)
    requires
        call_ensures(parse_validator_output, (report,), r),
    ensures
        match report {
            Err(e) => r matches Err(complaint) && complaint@ == "Icon validation: "@ + e@,
            Ok(report) => match (report.format, report.width) {
                (Err(e), _) => r matches Err(complaint) && complaint@ == "Icon validation: "@ + e@,
                (Ok(_), Err(e)) => r matches Err(complaint) && complaint@ == "Icon validation: "@
                    + e@,
                (Ok(format), Ok(width)) => {
                    &&& r matches Ok(verdict)
                    &&& verdict.0@ == format@
                    &&& width >= 0 ==> leading_number(verdict.1@) == width && verdict.1@
                        == text::decimal(width as nat)
                    &&& width < 0 ==> verdict.1@ == seq!['-'] + text::decimal((-width) as nat)
                },
            },
        },
{
    assert(verdict_view(r) == report_verdict(report));
    if let Ok(report) = report {
        if let (Ok(format), Ok(width)) = (report.format, report.width) {
            if width >= 0 {
                text::law_decimal_sign(width as nat);
                text::law_number_is_read_back(width as nat, Seq::empty());
                assert(text::decimal(width as nat) + Seq::<char>::empty() =~= text::decimal(
                    width as nat,
                ));
            } else {
                text::law_decimal_sign((-width) as nat);
            }
        }
    }
}

/// A run of the validator that does not end in a report is a complaint; one that does is worth what
/// the report is worth.
pub proof fn law_runs_are_judged(
    validator: &str,
    run: ValidatorRun,
    reported: Result<(String, String), String>,
    r: Result<(String, String), String>,
)
    requires
        call_ensures(xdp_validate_icon, (validator, run), r),
        run matches ValidatorRun::Accepted(report) ==> call_ensures(
            parse_validator_output,
            (report,),
            reported,
        ),
    ensures
        match run {
            ValidatorRun::NotFound => r matches Err(complaint) && complaint@ == "Icon validation: "@
                + validator@ + " not found, rejecting icon by default."@,
            ValidatorRun::NotPrepared(e) => r matches Err(complaint) && complaint@ == e@,
            ValidatorRun::NotRun(e) => r matches Err(complaint) && complaint@
                == "Icon validation: Rejecting icon: Couldn't run validator: "@ + e@,
            ValidatorRun::Rejected(output) => r matches Err(complaint) && complaint@
                == "Icon validation: Rejecting icon because validator failed: "@ + output@,
            ValidatorRun::Accepted(_) => match (reported, r) {
                (Ok(verdict), Ok(judged)) => judged.0@ == verdict.0@ && judged.1@ == verdict.1@,
                (Err(e), Err(complaint)) => complaint@ == e@,
                _ => false,
            },
        },
{
    assert(verdict_view(r) == run_verdict(validator@, run));
    if let ValidatorRun::Accepted(report) = run {
        assert(verdict_view(reported) == report_verdict(report));
    }
}

/// The validator that the environment names is run, or else the default one. It is told to run in
/// its sandbox unless it is to be insecure, where it finds the icon, and which rules to apply.
pub proof fn law_validator_command(
    configured: Option<String>,
    program: String,
    icon_type: IconType,
    secure: Vec<String>,
    insecure: Vec<String>,
    serialized: Vec<String>,
    is_insecure: bool,
)
    requires
        call_ensures(validator_program, (configured,), program),
        call_ensures(validator_args, (false, icon_type), secure),
        call_ensures(validator_args, (true, icon_type), insecure),
        call_ensures(serialized_icon_validator_args, (is_insecure,), serialized),
    ensures
        match configured {
            Some(named) => program@ == named@,
            None => program@ == "/usr/libexec/xdg-desktop-portal-validate-icon"@,
        },
        secure.deep_view() == seq!["--sandbox"@] + insecure.deep_view(),
        insecure.deep_view() == seq![
            "--fd"@,
            "3"@,
            "--ruleset"@,
            match icon_type {
                IconType::Desktop => "desktop"@,
                IconType::Webapp => "webapp"@,
            },
        ],
        icon_type is Desktop ==> serialized.deep_view() == if is_insecure {
            insecure.deep_view()
        } else {
            secure.deep_view()
        },
{
    assert(secure.deep_view() =~= seq!["--sandbox"@] + insecure.deep_view());
    assert(insecure.deep_view() =~= seq![
        "--fd"@,
        "3"@,
        "--ruleset"@,
        match icon_type {
            IconType::Desktop => "desktop"@,
            IconType::Webapp => "webapp"@,
        },
    ]);
}

/// An icon is accepted if and only if it comes as a string that holds an icon of which the validator
/// approves. It keeps all its bytes, and has the format and size of the verdict.
pub proof fn law_serialized_icons(
    icon_v: &JsonValue,
    decoding: IconDecoding,
    r: Result<ValidatedIcon, String>,
)
    requires
        call_ensures(validate_serialized_icon, (icon_v, decoding), r),
    ensures
        !(*icon_v is Text) ==> (r matches Err(complaint) && complaint@
            == "JSON value is not a string"@),
        *icon_v is Text ==> match decoding {
            IconDecoding::Unparsable(e) => r matches Err(complaint) && complaint@ == e@,
            IconDecoding::NotAnIcon => r matches Err(complaint) && complaint@
                == "Failed to deserialize icon"@,
            IconDecoding::NotBytes => r matches Err(complaint) && complaint@
                == "Icon is not a BytesIcon"@,
            IconDecoding::NotSealed(e) => r matches Err(complaint) && complaint@ == e@,
            IconDecoding::Judged { bytes, verdict } => match verdict {
                Err(e) => r matches Err(complaint) && complaint@ == e@,
                Ok((format, size)) => r matches Ok(icon) && icon.format@ == format@ && icon.size@
                    == size@ && icon.bytes@ == bytes@,
            },
        },
{
    assert(icon_outcome(r) == serialized_icon_check(*icon_v, decoding));
}

/// The text of a serialized icon is the string that it comes as.
pub proof fn law_serialized_icon_text(icon_v: &JsonValue, r: Result<&str, String>)
    requires
        call_ensures(serialized_icon_text, (icon_v,), r),
    ensures
        match icon_v {
            JsonValue::Text(s) => r matches Ok(text) && text@ == s@,
            _ => r matches Err(complaint) && complaint@ == "JSON value is not a string"@,
        },
{
}

/// Where an icon is stored: scalable ones together, others by their size, under the name of the
/// desktop file with the format for an ending.
pub proof fn law_icon_places(
    id: &str,
    stem: Seq<char>,
    format: &str,
    size: &str,
    dir: String,
    path: String,
)
    requires
        call_ensures(icon_dir_of, (format, size), dir),
        call_ensures(icon_path_of, (id, format, size), path),
        id@ == stem + ".desktop"@,
        stem.len() > 0 && stem[0] != '/',
        size@.len() > 0 && size@[0] != '/' && size@.last() != '/',
    ensures
        format@ == "svg"@ ==> dir@ == "xdg-desktop-portal/icons/scalable"@,
        format@ != "svg"@ ==> dir@ == "xdg-desktop-portal/icons/"@ + size@ + seq!['x'] + size@,
        path@ == dir@ + seq!['/'] + stem + seq!['.'] + format@,
{
    reveal_strlit("xdg-desktop-portal/icons/scalable");
    reveal_strlit("xdg-desktop-portal/icons/");
    reveal_strlit("xdg-desktop-portal/icons");
    reveal_strlit("scalable");
    reveal_strlit("x");
    reveal_strlit(".");
    let top = XDG_PORTAL_ICONS_DIR@;
    if format@ == "svg"@ {
        assert(dir@ =~= "xdg-desktop-portal/icons/scalable"@);
    } else {
        assert(dir@ =~= "xdg-desktop-portal/icons/"@ + size@ + seq!['x'] + size@);
    }
    assert(stem_of(id@) =~= stem);
    let name = stem + "."@ + format@;
    assert(dir@.last() != '/');
    assert(name[0] == stem[0]);
    assert(path@ =~= dir@ + seq!['/'] + stem + seq!['.'] + format@);
}

/// The ending of a path tells the format: `.png`, `.svg`, and `.jpeg` or `.jpg`, and no other.
pub proof fn law_formats_by_ending(path: Seq<char>)
    ensures
        format_of(path) == Some("png"@) <==> ".png"@.is_suffix_of(path),
        format_of(path) == Some("svg"@) <==> ".svg"@.is_suffix_of(path),
        format_of(path) == Some("jpeg"@) <==> ".jpeg"@.is_suffix_of(path) || ".jpg"@.is_suffix_of(
            path,
        ),
        format_of(path) is Some ==> format_of(path) == Some("png"@) || format_of(path) == Some(
            "svg"@,
        ) || format_of(path) == Some("jpeg"@),
{
    reveal_strlit(".png");
    reveal_strlit(".svg");
    reveal_strlit(".jpeg");
    reveal_strlit(".jpg");
    reveal_strlit("png");
    reveal_strlit("svg");
    reveal_strlit("jpeg");
    let n = path.len() as int;
    assert("png"@[0] == 'p' && "svg"@[0] == 's' && "jpeg"@[0] == 'j');
    if ".png"@.is_suffix_of(path) {
        assert(path[n - 2] == ".png"@[2] && path[n - 3] == ".png"@[1]);
    }
    if ".svg"@.is_suffix_of(path) {
        assert(path[n - 2] == ".svg"@[2] && path[n - 3] == ".svg"@[1]);
    }
    if ".jpeg"@.is_suffix_of(path) {
        assert(path[n - 2] == ".jpeg"@[3] && path[n - 3] == ".jpeg"@[2]);
    }
    if ".jpg"@.is_suffix_of(path) {
        assert(path[n - 2] == ".jpg"@[2] && path[n - 3] == ".jpg"@[1]);
    }
}

/// The directory of an icon tells its size: the number behind the first `x` of its name, whatever
/// follows that is no digit; `scalable` stands for 4096, and any other directory for none.
pub proof fn law_sizes_by_directory(
    path: Seq<char>,
    front: Seq<char>,
    n: nat,
    rest: Seq<char>,
)
    requires
        !front.contains('x'),
        rest.len() == 0 || !('0' <= rest[0] <= '9'),
    ensures
        parent_name(path) == Some("scalable"@) ==> size_of(path) == 4096,
        parent_name(path) == Some(front + seq!['x'] + text::decimal(n) + rest) ==> size_of(path)
            == if n <= 2147483647 {
            n as int
        } else {
            0
        },
        parent_name(path) == Some(front + seq!['x'] + rest) ==> size_of(path) == 0,
        parent_name(path) == Some(front) && front != "scalable"@ ==> size_of(path) == 0,
        parent_name(path) is None ==> size_of(path) == 0,
{
    reveal_strlit("scalable");
    let numbered = front.push('x') + (text::decimal(n) + rest);
    assert(front + seq!['x'] + text::decimal(n) + rest =~= numbered);
    assert(front + seq!['x'] + rest =~= front.push('x') + rest);
    text::lemma_after_first_skips(front, 'x', text::decimal(n) + rest);
    text::lemma_after_first_skips(front, 'x', rest);
    text::law_number_is_read_back(n, rest);
    text::law_text_after_first(front, 'x');
    assert forall|i: int| 0 <= i < "scalable"@.len() implies "scalable"@[i] != 'x' by {}
    assert(numbered[front.len() as int] == 'x');
    assert((front.push('x') + rest)[front.len() as int] == 'x');
    if numbered == "scalable"@ {
        assert("scalable"@[front.len() as int] == 'x');
    }
    if front.push('x') + rest == "scalable"@ {
        assert("scalable"@[front.len() as int] == 'x');
    }
    if after_first(front, 'x') is Some {
        let k = front.len() - after_first(front, 'x')->0.len() - 1;
        assert(front[k] == 'x');
    }
}

/// An icon lies under the icons directory if and only if its path lies under that directory in the
/// data directory.
pub proof fn law_icons_directory(
    icon: &str,
    data_dir: &str,
    top: &str,
    joined: String,
    icons: &str,
    below: bool,
    r: bool,
    without_dir: bool,
)
    requires
        top@ == "xdg-desktop-portal/icons"@,
        call_ensures(path::join, (data_dir, top), joined),
        icons@ == joined@,
        call_ensures(path::under, (icon, icons), below),
        call_ensures(is_in_icons_dir, (icon, Some(data_dir)), r),
        call_ensures(is_in_icons_dir, (icon, None), without_dir),
    ensures
        r == below,
        !without_dir,
{
}

/// An icon is recognised if and only if it lies under the icons directory, its ending tells a
/// format, and its directory a size from 1 to 4096; it then has that format and size.
pub proof fn law_recognised_icons(
    icon: &str,
    data_dir: Option<&str>,
    inside: bool,
    r: Option<(&'static str, i32)>,
)
    requires
        call_ensures(is_in_icons_dir, (icon, data_dir), inside),
        call_ensures(recognise, (icon, data_dir), r),
    ensures
        r is Some <==> inside && format_of(icon@) is Some && 1 <= size_of(icon@) <= 4096,
        r matches Some(found) ==> format_of(icon@) == Some(found.0@) && size_of(icon@) == found.1,
{
}

} // verus!
