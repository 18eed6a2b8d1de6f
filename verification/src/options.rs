//! The options that callers pass along, and which of them PrepareInstall accepts.

use crate::interface::LauncherType;
use crate::text;
use vstd::hash_map::StringHashMap;
use vstd::prelude::*;
use vstd::string::*;

verus! {

/// A JSON value, as far as options are told apart by what they hold.
#[derive(Debug)]
pub enum JsonValue {
    Null,
    Bool(bool),
    Text(String),
    /// An object, by its keys and values.
    Object(Vec<(String, JsonValue)>),
    /// A number or an array.
    Other,
}

impl JsonValue {
    /// The truth value that this is.
    pub open spec fn bool_value(self) -> Option<bool> {
        match self {
            JsonValue::Bool(b) => Some(b),
            _ => None,
        }
    }

    /// The characters of the string that this is.
    pub open spec fn text_value(self) -> Option<Seq<char>> {
        match self {
            JsonValue::Text(s) => Some(s@),
            _ => None,
        }
    }

    /// The launcher type that this encodes: the name of the type, or an object that maps that name,
    /// its only key, to null.
    pub open spec fn launcher_type_value(self) -> Option<LauncherType> {
        match self {
            JsonValue::Text(s) => launcher_type_named(s@),
            JsonValue::Object(entries) if entries@.len() == 1 && entries@[0].1 is Null =>
                launcher_type_named(entries@[0].0@),
            _ => None,
        }
    }

    pub fn as_bool(&self) -> (r: Option<bool>)
        ensures
            r == self.bool_value(),
    {
        match self {
            JsonValue::Bool(b) => Some(*b),
            _ => None,
        }
    }

    pub fn is_boolean(&self) -> (r: bool)
        ensures
            r == self.bool_value() is Some,
    {
        self.as_bool().is_some()
    }

    pub fn as_str(&self) -> (r: Option<&str>)
        ensures
            match r {
                Some(s) => self.text_value() == Some(s@),
                None => self.text_value() is None,
            },
    {
        match self {
            JsonValue::Text(s) => Some(s.as_str()),
            _ => None,
        }
    }

    pub fn as_launcher_type(&self) -> (r: Option<LauncherType>)
        ensures
            r == self.launcher_type_value(),
    {
        match self {
            JsonValue::Text(s) => LauncherType::from_name(s.as_str()),
            JsonValue::Object(entries) => {
                if entries.len() == 1 {
                    match entries[0].1 {
                        JsonValue::Null => LauncherType::from_name(entries[0].0.as_str()),
                        _ => None,
                    }
                } else {
                    None
                }
            },
            _ => None,
        }
    }
}

/// The launcher type with a given name.
pub open spec fn launcher_type_named(name: Seq<char>) -> Option<LauncherType> {
    if name == "Application"@ {
        Some(LauncherType::Application)
    } else if name == "Webapp"@ {
        Some(LauncherType::Webapp)
    } else {
        None
    }
}

impl LauncherType {
    /// The name of the type.
    pub open spec fn spec_name(self) -> Seq<char> {
        match self {
            LauncherType::Application => "Application"@,
            LauncherType::Webapp => "Webapp"@,
        }
    }

    pub fn name(&self) -> (r: &'static str)
        ensures
            r@ == self.spec_name(),
    {
        match self {
            LauncherType::Application => "Application",
            LauncherType::Webapp => "Webapp",
        }
    }

    pub fn from_name(name: &str) -> (r: Option<LauncherType>)
        ensures
            r == launcher_type_named(name@),
    {
        if text::equal(name, "Application") {
            Some(LauncherType::Application)
        } else if text::equal(name, "Webapp") {
            Some(LauncherType::Webapp)
        } else {
            None
        }
    }
}

/// The options of a call, by name.
pub struct Options {
    entries: StringHashMap<JsonValue>,
}

impl View for Options {
    type V = Map<Seq<char>, JsonValue>;

    closed spec fn view(&self) -> Map<Seq<char>, JsonValue> {
        self.entries@
    }
}

impl Options {
    /// No options.
    pub fn new() -> (r: Options)
        ensures
            r@ == Map::<Seq<char>, JsonValue>::empty(),
    {
        Options { entries: StringHashMap::new() }
    }

    /// Sets an option; an earlier value of the same name gives way.
    pub fn insert(&mut self, key: String, value: JsonValue)
        ensures
            final(self)@ == old(self)@.insert(key@, value),
    {
        self.entries.insert(key, value);
    }

    /// The value of an option.
    pub fn get(&self, key: &str) -> (r: Option<&JsonValue>)
        ensures
            match r {
                Some(v) => self@.contains_key(key@) && *v == self@[key@],
                None => !self@.contains_key(key@),
            },
    {
        self.entries.get(key)
    }
}

/// An option that is a string.
pub open spec fn text_option(options: Map<Seq<char>, JsonValue>, key: Seq<char>) -> Option<
    Seq<char>,
> {
    if options.contains_key(key) {
        options[key].text_value()
    } else {
        None
    }
}

/// An option that is a string.
pub fn text_option_of<'a>(options: &'a Options, key: &str) -> (r: Option<&'a str>)
    ensures
        match r {
            Some(s) => text_option(options@, key@) == Some(s@),
            None => text_option(options@, key@) is None,
        },
{
    match options.get(key) {
        Some(v) => v.as_str(),
        None => None,
    }
}

/// Why PrepareInstall does not accept its options.
#[derive(Debug, Clone, Copy, PartialEq, Eq, Structural)]
pub enum OptionError {
    ModalNotBoolean,
    EditableNameNotBoolean,
    EditableIconNotBoolean,
    InvalidLauncherType,
    UnsupportedLauncherType(LauncherType),
    TargetNotString,
    InvalidTarget,
}

impl OptionError {
    /// The complaint in words.
    pub open spec fn spec_message(self) -> Seq<char> {
        match self {
            OptionError::ModalNotBoolean => "Option 'modal' must be a boolean"@,
            OptionError::EditableNameNotBoolean => "Option 'editable_name' must be a boolean"@,
            OptionError::EditableIconNotBoolean => "Option 'editable_icon' must be a boolean"@,
            OptionError::InvalidLauncherType => "Invalid launcher_type"@,
            OptionError::UnsupportedLauncherType(t) => "Unsupported launcher_type: "@
                + t.spec_name(),
            OptionError::TargetNotString => "Option 'target' must be a string"@,
            OptionError::InvalidTarget => "Given URI is invalid"@,
        }
    }

    /// The complaint in words.
    pub fn message(&self) -> (r: String)
        ensures
            r@ == self.spec_message(),
    {
        match self {
            OptionError::ModalNotBoolean => "Option 'modal' must be a boolean".to_owned(),
            OptionError::EditableNameNotBoolean =>
                "Option 'editable_name' must be a boolean".to_owned(),
            OptionError::EditableIconNotBoolean =>
                "Option 'editable_icon' must be a boolean".to_owned(),
            OptionError::InvalidLauncherType => "Invalid launcher_type".to_owned(),
            OptionError::UnsupportedLauncherType(t) =>
                "Unsupported launcher_type: ".to_owned().concat(t.name()),
            OptionError::TargetNotString => "Option 'target' must be a string".to_owned(),
            OptionError::InvalidTarget => "Given URI is invalid".to_owned(),
        }
    }
}

/// Whether an option is present and not a boolean.
pub open spec fn not_boolean(options: Map<Seq<char>, JsonValue>, key: Seq<char>) -> bool {
    options.contains_key(key) && options[key].bool_value() is None
}

/// The target whose form as a URI matters: the target is read only beside a launcher type.
pub open spec fn target_to_parse(options: Map<Seq<char>, JsonValue>) -> Option<Seq<char>> {
    if options.contains_key("launcher_type"@) && options.contains_key("target"@) {
        options["target"@].text_value()
    } else {
        None
    }
}

/// What the check of the options says: the first of these complaints that applies.
pub open spec fn prepare_install_options_check(
    options: Map<Seq<char>, JsonValue>,
    supported: Seq<LauncherType>,
    target_is_uri: bool,
) -> Result<(), OptionError> {
    if not_boolean(options, "modal"@) {
        Err(OptionError::ModalNotBoolean)
    } else if not_boolean(options, "editable_name"@) {
        Err(OptionError::EditableNameNotBoolean)
    } else if not_boolean(options, "editable_icon"@) {
        Err(OptionError::EditableIconNotBoolean)
    } else if !options.contains_key("launcher_type"@) {
        Ok(())
    } else {
        match options["launcher_type"@].launcher_type_value() {
            None => Err(OptionError::InvalidLauncherType),
            Some(t) => if !supported.contains(t) {
                Err(OptionError::UnsupportedLauncherType(t))
            } else if !options.contains_key("target"@) {
                Ok(())
            } else if options["target"@].text_value() is None {
                Err(OptionError::TargetNotString)
            } else if !target_is_uri {
                Err(OptionError::InvalidTarget)
            } else {
                Ok(())
            },
        }
    }
}

fn is_not_boolean(options: &Options, key: &str) -> (r: bool)
    ensures
        r == not_boolean(options@, key@),
{
    match options.get(key) {
        Some(v) => !v.is_boolean(),
        None => false,
    }
}

fn contains(types: &[LauncherType], wanted: LauncherType) -> (r: bool)
    ensures
        r == types@.contains(wanted),
{
    let mut i: usize = 0;
    while i < types.len()
        invariant
            i <= types@.len(),
            forall|j: int| 0 <= j < i ==> types@[j] != wanted,
        decreases types@.len() - i,
    {
        if types[i] == wanted {
            return true;
        }
        i += 1;
    }
    false
}

/// The target whose form as a URI matters to `validate_prepare_install_options`.
pub fn target_uri(options: &Options) -> (r: Option<&str>)
    ensures
        match r {
            Some(s) => target_to_parse(options@) == Some(s@),
            None => target_to_parse(options@) is None,
        },
{
    match (options.get("launcher_type"), options.get("target")) {
        (Some(_), Some(v)) => v.as_str(),
        _ => None,
    }
}

/// Checks the options of PrepareInstall. `target_is_uri` says whether the text that `target_uri`
/// gives parses as a URI; where it gives none, nothing depends on it.
pub fn validate_prepare_install_options(
    options: &Options,
    supported_launcher_types: &[LauncherType],
    target_is_uri: bool,
) -> (r: Result<(), OptionError>)
    ensures
        r == prepare_install_options_check(options@, supported_launcher_types@, target_is_uri),
        target_to_parse(options@) is None ==> r == prepare_install_options_check(
            options@,
            supported_launcher_types@,
            !target_is_uri,
        ),
{
    if is_not_boolean(options, "modal") {
        return Err(OptionError::ModalNotBoolean);
    }
    if is_not_boolean(options, "editable_name") {
        return Err(OptionError::EditableNameNotBoolean);
    }
    if is_not_boolean(options, "editable_icon") {
        return Err(OptionError::EditableIconNotBoolean);
    }
    match options.get("launcher_type") {
        None => Ok(()),
        Some(v) => match v.as_launcher_type() {
            None => Err(OptionError::InvalidLauncherType),
            Some(t) => {
                if !contains(supported_launcher_types, t) {
                    return Err(OptionError::UnsupportedLauncherType(t));
                }
                match options.get("target") {
                    None => Ok(()),
                    Some(v) => match v.as_str() {
                        None => Err(OptionError::TargetNotString),
                        Some(_) => if target_is_uri {
                            Ok(())
                        } else {
                            Err(OptionError::InvalidTarget)
                        },
                    },
                }
            },
        },
    }
}

/// What kind of value is read as what: `true` and `false` as themselves, a string by its characters,
/// and nothing else as either.
pub proof fn law_values_by_kind(
    value: JsonValue,
    b: Option<bool>,
    boolean: bool,
    text: Option<&str>,
)
    requires
        call_ensures(JsonValue::as_bool, (&value,), b),
        call_ensures(JsonValue::is_boolean, (&value,), boolean),
        call_ensures(JsonValue::as_str, (&value,), text),
    ensures
        match value {
            JsonValue::Bool(truth) => b == Some(truth) && boolean,
            _ => b is None && !boolean,
        },
        match value {
            JsonValue::Text(s) => text matches Some(t) && t@ == s@,
            _ => text is None,
        },
{
}

/// A launcher type is encoded by its name, or by an object that maps its name, the only key, to
/// null; nothing else encodes one.
pub proof fn law_launcher_type_values(value: JsonValue, r: Option<LauncherType>)
    requires
        call_ensures(JsonValue::as_launcher_type, (&value,), r),
    ensures
        r == Some(LauncherType::Application) <==> match value {
            JsonValue::Text(s) => s@ == "Application"@,
            JsonValue::Object(entries) => entries@.len() == 1 && entries@[0].0@ == "Application"@
                && entries@[0].1 is Null,
            _ => false,
        },
        r == Some(LauncherType::Webapp) <==> match value {
            JsonValue::Text(s) => s@ == "Webapp"@,
            JsonValue::Object(entries) => entries@.len() == 1 && entries@[0].0@ == "Webapp"@
                && entries@[0].1 is Null,
            _ => false,
        },
{
    reveal_strlit("Application");
    reveal_strlit("Webapp");
    assert("Application"@.len() != "Webapp"@.len());
}

/// Launcher types have different names, and each is found again by its name.
pub proof fn law_launcher_type_names(
    launcher_type: LauncherType,
    name: &'static str,
    r: Option<LauncherType>,
)
    requires
        call_ensures(LauncherType::name, (&launcher_type,), name),
        call_ensures(LauncherType::from_name, (name,), r),
    ensures
        r == Some(launcher_type),
        name@ == "Application"@ <==> launcher_type is Application,
        name@ == "Webapp"@ <==> launcher_type is Webapp,
{
    reveal_strlit("Application");
    reveal_strlit("Webapp");
    assert("Application"@.len() != "Webapp"@.len());
}

/// An option is read back as it was set, and setting it leaves every other option as it was. Without
/// options, there is none to read.
pub proof fn law_options_are_read_back(
    none: Options,
    options: &mut Options,
    key: String,
    value: JsonValue,
    another: &str,
    none_found: Option<&JsonValue>,
    before: Option<&JsonValue>,
    after: Option<&JsonValue>,
)
    requires
        call_ensures(Options::new, (), none),
        call_ensures(Options::get, (&none, another), none_found),
        call_ensures(Options::insert, (options, key, value), ()),
        call_ensures(Options::get, (&*old(options), another), before),
        call_ensures(Options::get, (&*final(options), another), after),
    ensures
        none_found is None,
        another@ == key@ ==> after == Some(&value),
        another@ != key@ ==> after == before,
{
}

/// An option that is a string is read by its characters; one that is missing or something else is
/// not read.
pub proof fn law_text_options(options: &Options, key: &str, r: Option<&str>)
    requires
        call_ensures(text_option_of, (options, key), r),
    ensures
        r is Some <==> options@.contains_key(key@) && options@[key@] is Text,
        r matches Some(s) ==> options@[key@] matches JsonValue::Text(text) && text@ == s@,
{
}

/// Flags may be either truth value, and nothing else. Options that are in order are accepted: a
/// launcher type, where one is given, must be a supported one, and a target beside it must be a
/// string that is a URI.
pub proof fn law_options_in_order_are_accepted(
    options: &Options,
    supported: &[LauncherType],
    target_is_uri: bool,
    launcher_type: Option<LauncherType>,
    r: Result<(), OptionError>,
)
    requires
        call_ensures(
            validate_prepare_install_options,
            (options, supported, target_is_uri),
            r,
        ),
        options@.contains_key("launcher_type"@) ==> call_ensures(
            JsonValue::as_launcher_type,
            (&options@["launcher_type"@],),
            launcher_type,
        ),
    ensures
        ({
            let o = options@;
            &&& r is Ok <==> {
                &&& o.contains_key("modal"@) ==> o["modal"@] is Bool
                &&& o.contains_key("editable_name"@) ==> o["editable_name"@] is Bool
                &&& o.contains_key("editable_icon"@) ==> o["editable_icon"@] is Bool
                &&& o.contains_key("launcher_type"@) ==> {
                    &&& launcher_type matches Some(t) && supported@.contains(t)
                    &&& o.contains_key("target"@) ==> o["target"@] is Text && target_is_uri
                }
            }
        }),
{
}

/// Options that are not in order are refused for the first thing that is wrong with them: first the
/// flags, then the launcher type, then the target.
pub proof fn law_first_wrong_option_is_named(
    options: &Options,
    supported: &[LauncherType],
    target_is_uri: bool,
    launcher_type: Option<LauncherType>,
    r: Result<(), OptionError>,
)
    requires
        call_ensures(
            validate_prepare_install_options,
            (options, supported, target_is_uri),
            r,
        ),
        options@.contains_key("launcher_type"@) ==> call_ensures(
            JsonValue::as_launcher_type,
            (&options@["launcher_type"@],),
            launcher_type,
        ),
    ensures
        ({
            let o = options@;
            let modal = o.contains_key("modal"@) ==> o["modal"@] is Bool;
            let name = o.contains_key("editable_name"@) ==> o["editable_name"@] is Bool;
            let icon = o.contains_key("editable_icon"@) ==> o["editable_icon"@] is Bool;
            let typed = modal && name && icon && o.contains_key("launcher_type"@);
            &&& r == Err::<(), OptionError>(OptionError::ModalNotBoolean) <==> !modal
            &&& r == Err::<(), OptionError>(OptionError::EditableNameNotBoolean) <==> modal && !name
            &&& r == Err::<(), OptionError>(OptionError::EditableIconNotBoolean) <==> modal && name
                && !icon
            &&& r == Err::<(), OptionError>(OptionError::InvalidLauncherType) <==> typed
                && launcher_type is None
            &&& forall|t: LauncherType|
                r == Err::<(), OptionError>(OptionError::UnsupportedLauncherType(t)) <==> typed
                    && launcher_type == Some(t) && !(#[trigger] supported@.contains(t))
            &&& r == Err::<(), OptionError>(OptionError::TargetNotString) <==> typed
                && launcher_type is Some && supported@.contains(launcher_type->0)
                && o.contains_key("target"@) && !(o["target"@] is Text)
            &&& r == Err::<(), OptionError>(OptionError::InvalidTarget) <==> typed
                && launcher_type is Some && supported@.contains(launcher_type->0)
                && o.contains_key("target"@) && o["target"@] is Text && !target_is_uri
        }),
{
}

/// The complaints name the option that is wrong.
pub proof fn law_option_complaints(error: OptionError, r: String)
    requires
        call_ensures(OptionError::message, (&error,), r),
    ensures
        match error {
            OptionError::ModalNotBoolean => r@ == "Option '"@ + "modal"@ + "' must be a boolean"@,
            OptionError::EditableNameNotBoolean => r@ == "Option '"@ + "editable_name"@
                + "' must be a boolean"@,
            OptionError::EditableIconNotBoolean => r@ == "Option '"@ + "editable_icon"@
                + "' must be a boolean"@,
            OptionError::InvalidLauncherType => r@ == "Invalid launcher_type"@,
            OptionError::UnsupportedLauncherType(LauncherType::Application) => r@
                == "Unsupported launcher_type: "@ + "Application"@,
            OptionError::UnsupportedLauncherType(LauncherType::Webapp) => r@
                == "Unsupported launcher_type: "@ + "Webapp"@,
            OptionError::TargetNotString => r@ == "Option 'target' must be a string"@,
            OptionError::InvalidTarget => r@ == "Given URI is invalid"@,
        },
{
    reveal_strlit("Option '");
    reveal_strlit("modal");
    reveal_strlit("editable_name");
    reveal_strlit("editable_icon");
    reveal_strlit("' must be a boolean");
    reveal_strlit("Option 'modal' must be a boolean");
    reveal_strlit("Option 'editable_name' must be a boolean");
    reveal_strlit("Option 'editable_icon' must be a boolean");
    match error {
        OptionError::ModalNotBoolean => {
            assert(r@ =~= "Option '"@ + "modal"@ + "' must be a boolean"@);
        },
        OptionError::EditableNameNotBoolean => {
            assert(r@ =~= "Option '"@ + "editable_name"@ + "' must be a boolean"@);
        },
        OptionError::EditableIconNotBoolean => {
            assert(r@ =~= "Option '"@ + "editable_icon"@ + "' must be a boolean"@);
        },
        _ => {},
    }
}

/// The text that must be a URI is the target beside a launcher type, where it is a string.
pub proof fn law_target_to_parse(options: &Options, r: Option<&str>)
    requires
        call_ensures(target_uri, (options,), r),
    ensures
        r is Some <==> options@.contains_key("launcher_type"@) && options@.contains_key("target"@)
            && options@["target"@] is Text,
        r matches Some(uri) ==> options@["target"@] matches JsonValue::Text(text) && text@ == uri@,
{
}

} // verus!
