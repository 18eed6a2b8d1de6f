//! The portal itself: who may ask for install tokens, what a token stands for, and how it is spent.

use crate::icon::ValidatedIcon;
use crate::install::InstallRequest;
use crate::interface::{
    invalid_argument, other_error, outcome, DynamicLauncherError, ErrorView,
    GetSupportedLauncherTypesOutput, LauncherType, PrepareInstallFinalOutput,
    RequestInstallTokenOutput,
};
use crate::names::{desktop_file_id_outcome, require_desktop_file_id};
use crate::options::{
    not_boolean, prepare_install_options_check, target_to_parse, text_option,
    validate_prepare_install_options, JsonValue, OptionError, Options,
};
use crate::text;
use std::time::{Duration, Instant};
use vstd::hash_map::StringHashMap;
use vstd::prelude::*;
use vstd::string::*;

verus! {

/// How long, in seconds, an install token is good for.
pub const TOKEN_TIMEOUT_SECS: u64 = 300;

/// `std::time::Instant`, a reading of the monotonic clock. Nothing is known of what it holds.
#[verifier::external_type_specification]
#[verifier::external_body]
pub struct ExInstant(Instant);

/// `Instant::now`: the present moment. It rests on the clock, so nothing is claimed of it.
pub assume_specification[ Instant::now ]() -> Instant
;

/// `Instant::elapsed`: the time since that moment. It rests on the clock, so nothing is claimed of
/// it.
pub assume_specification[ Instant::elapsed ](instant: &Instant) -> Duration
;

/// The whole seconds of a span of time.
pub uninterp spec fn whole_seconds(span: Duration) -> u64;

/// `Duration::as_secs`: the whole seconds of a span of time. Nothing is claimed of what they are,
/// but that the same span gives the same number.
pub assume_specification[ Duration::as_secs ](span: &Duration) -> (r: u64)
    ensures
        r == whole_seconds(*span),
;

/// A lower-case hexadecimal digit.
pub open spec fn is_hex_digit(c: char) -> bool {
    '0' <= c <= '9' || 'a' <= c <= 'f'
}

/// The form of a token: 36 characters, hexadecimal digits but for the hyphens that part them, with
/// the marks of a random UUID.
pub open spec fn is_token(t: Seq<char>) -> bool {
    &&& t.len() == 36
    &&& t[8] == '-' && t[13] == '-' && t[18] == '-' && t[23] == '-'
    &&& t[14] == '4'
    &&& t[19] == '8' || t[19] == '9' || t[19] == 'a' || t[19] == 'b'
    &&& forall|i: int|
        0 <= i < 36 && i != 8 && i != 13 && i != 18 && i != 23 ==> is_hex_digit(#[trigger] t[i])
}

/// `uuid::Uuid::new_v4`, as text: a random UUID in its hyphenated lower-case form. Which one is
/// left to chance; every one of them has this form.
#[verifier::external_body]
fn new_token() -> (token: String)
    ensures
        is_token(token@),
{
    uuid::Uuid::new_v4().to_string()
}

/// What a token stands for.
#[derive(Debug)]
pub struct LauncherData {
    pub name: String,
    pub icon: Vec<u8>,
    pub icon_format: String,
    pub icon_size: String,
    pub inserted_at: Instant,
}

/// What a token stands for, by characters and bytes.
pub struct LauncherDataView {
    pub name: Seq<char>,
    pub icon: Seq<u8>,
    pub icon_format: Seq<char>,
    pub icon_size: Seq<char>,
    pub inserted_at: Instant,
}

impl View for LauncherData {
    type V = LauncherDataView;

    open spec fn view(&self) -> LauncherDataView {
        LauncherDataView {
            name: self.name@,
            icon: self.icon@,
            icon_format: self.icon_format@,
            icon_size: self.icon_size@,
            inserted_at: self.inserted_at,
        }
    }
}

impl Clone for LauncherData {
    fn clone(&self) -> (r: LauncherData)
        ensures
            r@ == self@,
    {
        let icon = self.icon.clone();
        assert(icon@ =~= self.icon@);
        LauncherData {
            name: self.name.clone(),
            icon,
            icon_format: self.icon_format.clone(),
            icon_size: self.icon_size.clone(),
            inserted_at: self.inserted_at,
        }
    }
}

/// The tokens that are out, and what they stand for.
pub type Tokens = Map<Seq<char>, LauncherDataView>;

/// What a token of age `elapsed_secs` is worth: what it stands for, unless it is unknown or too
/// old.
pub open spec fn token_worth(tokens: Tokens, token: Seq<char>, elapsed_secs: u64) -> Option<
    LauncherDataView,
> {
    if tokens.contains_key(token) && elapsed_secs <= TOKEN_TIMEOUT_SECS {
        Some(tokens[token])
    } else {
        None
    }
}

/// What a token stands for that was given out for `icon` under `name` at a moment.
pub open spec fn token_data(
    name: Seq<char>,
    icon: (Seq<char>, Seq<char>, Seq<u8>),
    inserted_at: Instant,
) -> LauncherDataView {
    LauncherDataView {
        name,
        icon: icon.2,
        icon_format: icon.0,
        icon_size: icon.1,
        inserted_at,
    }
}

/// Data that may be absent, by its view.
pub open spec fn data_view(data: Option<LauncherData>) -> Option<LauncherDataView> {
    match data {
        Some(data) => Some(data@),
        None => None,
    }
}

/// What the user agreed to in the dialog of PrepareInstall.
pub struct BackendPrepareInstallResponse {
    pub name: String,
    pub icon: Vec<u8>,
}

/// Whether an application gets install tokens without a dialog.
pub open spec fn gets_tokens_unasked(app_id: Seq<char>) -> bool {
    ||| app_id == "org.gnome.Software"@
    ||| app_id == "org.gnome.SoftwareDevel"@
    ||| app_id == "com.example.XdpNgDynamicLauncher"@
}

/// Whether an application gets install tokens without a dialog. No option changes that.
pub fn backend_handle_request_install_token(app_id: &str, _options: &Options) -> (r: bool)
    ensures
        r == gets_tokens_unasked(app_id@),
{
    text::equal(app_id, "org.gnome.Software") || text::equal(app_id, "org.gnome.SoftwareDevel")
        || text::equal(app_id, "com.example.XdpNgDynamicLauncher")
}

/// The launcher types that the portal installs.
pub open spec fn supported_types() -> Seq<LauncherType> {
    seq![LauncherType::Application, LauncherType::Webapp]
}

/// The launcher types that the portal installs.
pub fn get_supported_launcher_types() -> (r: GetSupportedLauncherTypesOutput)
    ensures
        r@ == supported_types(),
{
    let mut types: Vec<LauncherType> = Vec::new();
    types.push(LauncherType::Application);
    types.push(LauncherType::Webapp);
    assert(types@ =~= supported_types());
    GetSupportedLauncherTypesOutput { supported_launcher_types: types }
}

/// What RequestInstallToken answers an application that gets no tokens unasked.
pub open spec fn token_request_check(app_id: Seq<char>) -> Result<(), ErrorView> {
    if gets_tokens_unasked(app_id) {
        Ok(())
    } else {
        Err(ErrorView::Other("RequestInstallToken() not allowed for app id "@ + app_id))
    }
}

/// Checks that an application may use RequestInstallToken.
pub fn check_token_request(app_id: &str, options: &Options) -> (r: Result<(), DynamicLauncherError>)
    ensures
        outcome(r) == token_request_check(app_id@),
{
    if backend_handle_request_install_token(app_id, options) {
        Ok(())
    } else {
        Err(
            other_error(
                "RequestInstallToken() not allowed for app id ".to_owned().concat(app_id),
            ),
        )
    }
}

/// A PrepareInstall whose options were accepted.
pub struct PrepareRequest {
    pub options: Options,
}

/// A PrepareInstall whose options and icon were accepted, for the user to agree to.
pub struct PreparedInstall {
    pub options: Options,
    pub icon: ValidatedIcon,
}

/// What PrepareInstall answers to options that it does not accept.
pub open spec fn prepare_options_outcome(
    options: Map<Seq<char>, JsonValue>,
    target_is_uri: bool,
) -> Result<(), ErrorView> {
    match prepare_install_options_check(options, supported_types(), target_is_uri) {
        Ok(_) => Ok(()),
        Err(e) => Err(
            ErrorView::InvalidArgument("Invalid PrepareInstall() option: "@ + e.spec_message()),
        ),
    }
}

/// The beginning of PrepareInstall: checks the options; see `validate_prepare_install_options`.
pub fn check_prepare_install_options(options: Options, target_is_uri: bool) -> (r: Result<
    PrepareRequest,
    DynamicLauncherError,
>)
    ensures
        match r {
            Ok(request) => prepare_options_outcome(options@, target_is_uri) is Ok
                && request.options@ == options@,
            Err(e) => prepare_options_outcome(options@, target_is_uri) == Err::<(), ErrorView>(e@),
        },
{
    let types = get_supported_launcher_types().supported_launcher_types;
    match validate_prepare_install_options(&options, types.as_slice(), target_is_uri) {
        Ok(_) => Ok(PrepareRequest { options }),
        Err(e) => Err(
            invalid_argument(
                "Invalid PrepareInstall() option: ".to_owned().concat(e.message().as_str()),
            ),
        ),
    }
}

impl PrepareRequest {
    /// Checks the icon, before the user is asked.
    pub fn check_icon(self, icon: Result<ValidatedIcon, String>) -> (r: Result<
        PreparedInstall,
        DynamicLauncherError,
    >)
        ensures
            match (icon, r) {
                (Ok(icon), Ok(prepared)) => prepared.icon@ == icon@ && prepared.options@
                    == self.options@,
                (Err(complaint), Err(e)) => e@ == ErrorView::InvalidArgument(
                    "Error validating icon: "@ + complaint@,
                ),
                _ => false,
            },
    {
        match icon {
            Ok(icon) => Ok(PreparedInstall { options: self.options, icon }),
            Err(e) => Err(
                invalid_argument("Error validating icon: ".to_owned().concat(e.as_str())),
            ),
        }
    }
}

/// The icon for which RequestInstallToken gives out a token, or the error that it answers.
pub open spec fn token_grant(app_id: Seq<char>, icon: Result<ValidatedIcon, String>) -> Result<
    (Seq<char>, Seq<char>, Seq<u8>),
    ErrorView,
> {
    match token_request_check(app_id) {
        Err(e) => Err(e),
        Ok(_) => match icon {
            Ok(icon) => Ok(icon@),
            Err(e) => Err(ErrorView::Other("Icon failed validation: "@ + e@)),
        },
    }
}

/// The name and icon for which PrepareInstall gives out a token, or the error that it answers.
pub open spec fn dialog_grant(
    response: Result<Option<BackendPrepareInstallResponse>, String>,
) -> Result<(Seq<char>, Seq<u8>), ErrorView> {
    match response {
        Err(e) => Err(
            ErrorView::Other("Call to backend_handle_prepare_install() failed: "@ + e@),
        ),
        Ok(None) => Err(ErrorView::Cancelled),
        Ok(Some(response)) => Ok((response.name@, response.icon@)),
    }
}

/// The data with which Install goes on, or the error that it answers, where the token is worth
/// `worth`.
pub open spec fn install_check(
    worth: Option<LauncherDataView>,
    app_id: Seq<char>,
    token: Seq<char>,
    desktop_file_id: Seq<char>,
) -> Result<LauncherDataView, ErrorView> {
    match worth {
        None => Err(ErrorView::InvalidArgument("Token given is invalid: "@ + token)),
        Some(data) => match desktop_file_id_outcome(app_id, desktop_file_id) {
            Ok(_) => Ok(data),
            Err(e) => Err(e),
        },
    }
}

/// An install request or an error: the data of the request, by its view.
pub open spec fn request_data(r: Result<InstallRequest, DynamicLauncherError>) -> Result<
    LauncherDataView,
    ErrorView,
> {
    match r {
        Ok(request) => Ok(request.data@),
        Err(e) => Err(e@),
    }
}

/// The portal, with the tokens that are out.
pub struct DynamicLauncher {
    transient_permissions: StringHashMap<LauncherData>,
}

impl View for DynamicLauncher {
    type V = Tokens;

    closed spec fn view(&self) -> Tokens {
        self.transient_permissions@.map_values(|data: LauncherData| data@)
    }
}

impl DynamicLauncher {
    /// A portal with no tokens out.
    pub fn new() -> (r: DynamicLauncher)
        ensures
            r@ == Map::<Seq<char>, LauncherDataView>::empty(),
    {
        let r = DynamicLauncher { transient_permissions: StringHashMap::new() };
        assert(r@ =~= Map::<Seq<char>, LauncherDataView>::empty());
        r
    }

    /// Spends a token: it is good for nothing afterwards. `elapsed_secs` is its age.
    pub fn take_launcher_data_after(&mut self, token: &str, elapsed_secs: u64) -> (r: Option<
        LauncherData,
    >)
        ensures
            data_view(r) == token_worth(old(self)@, token@, elapsed_secs),
            final(self)@ == old(self)@.remove(token@),
    {
        let data = match self.transient_permissions.get(token) {
            Some(data) => Some(data.clone()),
            None => None,
        };
        self.transient_permissions.remove(token);
        assert(self@ =~= old(self)@.remove(token@));
        match data {
            Some(data) if elapsed_secs <= TOKEN_TIMEOUT_SECS => Some(data),
            _ => None,
        }
    }

    /// The age of a token that is out: the time since the moment at which it was given out.
    fn age_of(&self, token: &str) -> (r: Option<Duration>)
        ensures
            r is Some <==> self@.contains_key(token@),
            r matches Some(age) ==> call_ensures(
                Instant::elapsed,
                (&self@[token@].inserted_at,),
                age,
            ),
    {
        match self.transient_permissions.get(token) {
            Some(data) => Some(data.inserted_at.elapsed()),
            None => None,
        }
    }

    /// Spends a token: it is good for nothing afterwards. Its age is the time since the moment at
    /// which it was given out.
    pub fn take_launcher_data(&mut self, token: &str) -> (r: Option<LauncherData>)
        ensures
            old(self)@.contains_key(token@) ==> exists|age: Duration|
                call_ensures(Instant::elapsed, (&old(self)@[token@].inserted_at,), age)
                    && data_view(r) == token_worth(
                    old(self)@,
                    token@,
                    #[trigger] whole_seconds(age),
                ),
            !old(self)@.contains_key(token@) ==> r is None,
            final(self)@ == old(self)@.remove(token@),
    {
        match self.age_of(token) {
            Some(age) => self.take_launcher_data_after(token, age.as_secs()),
            None => {
                assert(self@ =~= old(self)@.remove(token@));
                None
            },
        }
    }

    /// Gives out a token.
    pub fn insert_launcher_data(&mut self, token: String, data: LauncherData)
        ensures
            final(self)@ == old(self)@.insert(token@, data@),
    {
        let ghost key = token@;
        self.transient_permissions.insert(token, data);
        assert(self@ =~= old(self)@.insert(key, data@));
    }

    /// RequestInstallToken, with the token that it gives out and the moment: an application that
    /// gets tokens unasked gets one for its icon.
    pub fn request_install_token_with(
        &mut self,
        app_id: &str,
        name: String,
        options: &Options,
        icon: Result<ValidatedIcon, String>,
        token: String,
        inserted_at: Instant,
    ) -> (r: Result<RequestInstallTokenOutput, DynamicLauncherError>)
        ensures
            match token_grant(app_id@, icon) {
                Ok(icon) => {
                    &&& outcome(r) == Ok::<Seq<char>, ErrorView>(token@)
                    &&& final(self)@ == old(self)@.insert(
                        token@,
                        token_data(name@, icon, inserted_at),
                    )
                },
                Err(e) => outcome(r) == Err::<Seq<char>, ErrorView>(e) && final(self)@
                    == old(self)@,
            },
    {
        match check_token_request(app_id, options) {
            Ok(_) => {},
            Err(e) => {
                return Err(e);
            },
        }
        match icon {
            Err(e) => Err(
                other_error("Icon failed validation: ".to_owned().concat(e.as_str())),
            ),
            Ok(icon) => {
                let data = LauncherData {
                    name,
                    icon: icon.bytes,
                    icon_format: icon.format,
                    icon_size: icon.size,
                    inserted_at,
                };
                self.insert_launcher_data(token.clone(), data);
                Ok(RequestInstallTokenOutput { token })
            },
        }
    }

    /// RequestInstallToken: an application that gets tokens unasked gets one for its icon, and
    /// its age counts from this call.
    pub fn request_install_token(
        &mut self,
        app_id: &str,
        name: String,
        options: &Options,
        icon: Result<ValidatedIcon, String>,
    ) -> (r: Result<RequestInstallTokenOutput, DynamicLauncherError>)
        ensures
            match token_grant(app_id@, icon) {
                Ok(icon) => {
                    &&& r is Ok
                    &&& is_token(r->Ok_0.token@)
                    &&& exists|inserted_at: Instant|
                        call_ensures(Instant::now, (), inserted_at) && final(self)@
                            == old(self)@.insert(
                            r->Ok_0.token@,
                            #[trigger] token_data(name@, icon, inserted_at),
                        )
                },
                Err(e) => outcome(r) == Err::<Seq<char>, ErrorView>(e) && final(self)@
                    == old(self)@,
            },
    {
        self.request_install_token_with(app_id, name, options, icon, new_token(), Instant::now())
    }

    /// The end of PrepareInstall, with the token that it gives out and the moment: where the user
    /// agreed, a token for the name and icon that they agreed to.
    pub fn prepare_install_with(
        &mut self,
        prepared: PreparedInstall,
        response: Result<Option<BackendPrepareInstallResponse>, String>,
        token: String,
        inserted_at: Instant,
    ) -> (r: Result<PrepareInstallFinalOutput, DynamicLauncherError>)
        ensures
            match dialog_grant(response) {
                Ok((name, bytes)) => {
                    &&& outcome(r) == Ok::<(Seq<char>, Seq<char>, Seq<u8>), ErrorView>(
                        (token@, name, bytes),
                    )
                    &&& final(self)@ == old(self)@.insert(
                        token@,
                        token_data(
                            name,
                            (prepared.icon.format@, prepared.icon.size@, bytes),
                            inserted_at,
                        ),
                    )
                },
                Err(e) => outcome(r) == Err::<(Seq<char>, Seq<char>, Seq<u8>), ErrorView>(e)
                    && final(self)@ == old(self)@,
            },
    {
        match response {
            Err(e) => Err(
                other_error(
                    "Call to backend_handle_prepare_install() failed: ".to_owned().concat(
                        e.as_str(),
                    ),
                ),
            ),
            Ok(None) => Err(DynamicLauncherError::Cancelled),
            Ok(Some(response)) => {
                let bytes = response.icon.clone();
                assert(bytes@ =~= response.icon@);
                let data = LauncherData {
                    name: response.name.clone(),
                    icon: bytes,
                    icon_format: prepared.icon.format,
                    icon_size: prepared.icon.size,
                    inserted_at,
                };
                self.insert_launcher_data(token.clone(), data);
                Ok(PrepareInstallFinalOutput { token, name: response.name, icon: response.icon })
            },
        }
    }

    /// The end of PrepareInstall: where the user agreed, a token for the name and icon that they
    /// agreed to, and its age counts from this call.
    pub fn prepare_install(
        &mut self,
        prepared: PreparedInstall,
        response: Result<Option<BackendPrepareInstallResponse>, String>,
    ) -> (r: Result<PrepareInstallFinalOutput, DynamicLauncherError>)
        ensures
            match dialog_grant(response) {
                Ok((name, bytes)) => {
                    &&& r is Ok
                    &&& is_token(r->Ok_0.token@)
                    &&& r->Ok_0@ == (r->Ok_0.token@, name, bytes)
                    &&& exists|inserted_at: Instant|
                        call_ensures(Instant::now, (), inserted_at) && final(self)@
                            == old(self)@.insert(
                            r->Ok_0.token@,
                            #[trigger] token_data(
                                name,
                                (prepared.icon.format@, prepared.icon.size@, bytes),
                                inserted_at,
                            ),
                        )
                },
                Err(e) => outcome(r) == Err::<(Seq<char>, Seq<char>, Seq<u8>), ErrorView>(e)
                    && final(self)@ == old(self)@,
            },
    {
        self.prepare_install_with(prepared, response, new_token(), Instant::now())
    }

    /// The beginning of Install, with the age of the token: the token is spent, whatever comes of
    /// it, and the desktop file id must be one that the application may use.
    pub fn install_after(
        &mut self,
        app_id: &str,
        token: &str,
        desktop_file_id: &str,
        elapsed_secs: u64,
    ) -> (r: Result<InstallRequest, DynamicLauncherError>)
        requires
            app_id@.len() > 0,
        ensures
            request_data(r) == install_check(
                token_worth(old(self)@, token@, elapsed_secs),
                app_id@,
                token@,
                desktop_file_id@,
            ),
            r matches Ok(request) ==> request.app_id@ == app_id@ && request.desktop_file_id@
                == desktop_file_id@ && request.wf(),
            final(self)@ == old(self)@.remove(token@),
    {
        let data = match self.take_launcher_data_after(token, elapsed_secs) {
            Some(data) => data,
            None => {
                return Err(
                    invalid_argument("Token given is invalid: ".to_owned().concat(token)),
                );
            },
        };
        match require_desktop_file_id(app_id, desktop_file_id) {
            Err(e) => Err(e),
            Ok(_) => Ok(
                InstallRequest {
                    app_id: app_id.to_owned(),
                    desktop_file_id: desktop_file_id.to_owned(),
                    data,
                },
            ),
        }
    }

    /// The beginning of Install: the token is spent, whatever comes of it, and the desktop file id
    /// must be one that the application may use. The age of the token is the time since the moment
    /// at which it was given out.
    pub fn install(&mut self, app_id: &str, token: &str, desktop_file_id: &str) -> (r: Result<
        InstallRequest,
        DynamicLauncherError,
    >)
        requires
            app_id@.len() > 0,
        ensures
            old(self)@.contains_key(token@) ==> exists|age: Duration|
                call_ensures(Instant::elapsed, (&old(self)@[token@].inserted_at,), age)
                    && request_data(r) == install_check(
                    token_worth(old(self)@, token@, #[trigger] whole_seconds(age)),
                    app_id@,
                    token@,
                    desktop_file_id@,
                ),
            !old(self)@.contains_key(token@) ==> request_data(r) == install_check(
                None,
                app_id@,
                token@,
                desktop_file_id@,
            ),
            r matches Ok(request) ==> request.app_id@ == app_id@ && request.desktop_file_id@
                == desktop_file_id@ && request.wf(),
            final(self)@ == old(self)@.remove(token@),
    {
        match self.age_of(token) {
            Some(age) => self.install_after(app_id, token, desktop_file_id, age.as_secs()),
            None => self.install_after(app_id, token, desktop_file_id, 0),
        }
    }
}

/// A token that is spent is good for nothing, however young.
pub proof fn law_token_is_spent_once(tokens: Tokens, token: Seq<char>, elapsed_secs: u64)
    ensures
        token_worth(tokens.remove(token), token, elapsed_secs) is None,
{
}

/// A token gives back what it was given out for, until it is older than five minutes; from then on
/// it gives nothing.
pub proof fn law_token_gives_back_its_data(
    tokens: Tokens,
    token: Seq<char>,
    data: LauncherDataView,
    elapsed_secs: u64,
)
    ensures
        token_worth(tokens.insert(token, data), token, elapsed_secs) == if elapsed_secs <= 300 {
            Some(data)
        } else {
            None
        },
{
}

/// Giving out or spending one token leaves every other token as it is.
pub proof fn law_tokens_are_independent(
    tokens: Tokens,
    token: Seq<char>,
    data: LauncherDataView,
    another: Seq<char>,
    elapsed_secs: u64,
)
    requires
        token != another,
    ensures
        token_worth(tokens.insert(token, data), another, elapsed_secs) == token_worth(
            tokens,
            another,
            elapsed_secs,
        ),
        token_worth(tokens.remove(token), another, elapsed_secs) == token_worth(
            tokens,
            another,
            elapsed_secs,
        ),
{
}

/// A token that was never given out is good for nothing: from a portal with no tokens out, Install
/// is refused whatever token it is given.
pub proof fn law_unknown_token_is_refused(
    token: Seq<char>,
    elapsed_secs: u64,
    app_id: Seq<char>,
    desktop_file_id: Seq<char>,
)
    ensures
        install_check(
            token_worth(Map::<Seq<char>, LauncherDataView>::empty(), token, elapsed_secs),
            app_id,
            token,
            desktop_file_id,
        ) == Err::<LauncherDataView, ErrorView>(
            ErrorView::InvalidArgument("Token given is invalid: "@ + token),
        ),
{
}

/// Every launcher type that GetSupportedLauncherTypes names is one that PrepareInstall accepts, by
/// its name, beside options that are otherwise in order.
pub proof fn law_supported_types_are_accepted(
    launcher_type: LauncherType,
    options: Map<Seq<char>, JsonValue>,
    target_is_uri: bool,
)
    requires
        supported_types().contains(launcher_type),
        text_option(options, "launcher_type"@) == Some(launcher_type.spec_name()),
        !not_boolean(options, "modal"@),
        !not_boolean(options, "editable_name"@),
        !not_boolean(options, "editable_icon"@),
        options.contains_key("target"@) ==> target_to_parse(options) is Some && target_is_uri,
    ensures
        prepare_options_outcome(options, target_is_uri) is Ok,
{
    reveal_strlit("Application");
    reveal_strlit("Webapp");
}

/// A token stands for the name, for all bytes of the icon, for its format and its size, and for the
/// moment at which it was given out; and that is how it is seen.
pub proof fn law_token_data_is_whole(
    name: Seq<char>,
    icon: (Seq<char>, Seq<char>, Seq<u8>),
    inserted_at: Instant,
    data: LauncherData,
)
    ensures
        token_data(name, icon, inserted_at).name == name,
        token_data(name, icon, inserted_at).icon_format == icon.0,
        token_data(name, icon, inserted_at).icon_size == icon.1,
        token_data(name, icon, inserted_at).icon == icon.2,
        token_data(name, icon, inserted_at).inserted_at == inserted_at,
        data@.name == data.name@,
        data@.icon_format == data.icon_format@,
        data@.icon_size == data.icon_size@,
        data@.icon == data.icon@,
        data@.inserted_at == data.inserted_at,
{
}

/// Three applications get tokens unasked, and no other.
pub proof fn law_who_gets_tokens_unasked(
    app_id: &str,
    options: &Options,
    unasked: bool,
    r: Result<(), DynamicLauncherError>,
)
    requires
        call_ensures(backend_handle_request_install_token, (app_id, options), unasked),
        call_ensures(check_token_request, (app_id, options), r),
    ensures
        unasked <==> app_id@ == "org.gnome.Software"@ || app_id@ == "org.gnome.SoftwareDevel"@
            || app_id@ == "com.example.XdpNgDynamicLauncher"@,
        unasked ==> r is Ok,
        !unasked ==> (r matches Err(DynamicLauncherError::Other { message }) && message@
            == "RequestInstallToken() not allowed for app id "@ + app_id@),
{
}

/// Both launcher types are supported.
pub proof fn law_supported_types(launcher_type: LauncherType, r: GetSupportedLauncherTypesOutput)
    requires
        call_ensures(get_supported_launcher_types, (), r),
    ensures
        r.supported_launcher_types@.contains(launcher_type),
        r.supported_launcher_types@.len() == 2,
        r.supported_launcher_types@[0] is Application,
{
    let types = r.supported_launcher_types@;
    assert(types == supported_types());
    assert(types[0] == LauncherType::Application && types[1] == LauncherType::Webapp);
}

/// PrepareInstall goes on with its options as they are, if and only if they are in order, and with
/// an icon that was validated as it is; otherwise it answers what is wrong.
pub proof fn law_prepare_install_begins(
    options: Options,
    target_is_uri: bool,
    types: GetSupportedLauncherTypesOutput,
    supported: &[LauncherType],
    check: Result<(), OptionError>,
    complaint: String,
    r: Result<PrepareRequest, DynamicLauncherError>,
    icon: Result<ValidatedIcon, String>,
    prepared: Result<PreparedInstall, DynamicLauncherError>,
)
    requires
        call_ensures(get_supported_launcher_types, (), types),
        supported@ == types.supported_launcher_types@,
        call_ensures(
            validate_prepare_install_options,
            (&options, supported, target_is_uri),
            check,
        ),
        check matches Err(e) ==> call_ensures(OptionError::message, (&e,), complaint),
        call_ensures(check_prepare_install_options, (options, target_is_uri), r),
        r matches Ok(request) ==> call_ensures(
            PrepareRequest::check_icon,
            (request, icon),
            prepared,
        ),
    ensures
        check is Err ==> (r matches Err(DynamicLauncherError::InvalidArgument { message })
            && message@ == "Invalid PrepareInstall() option: "@ + complaint@),
        check is Ok ==> r is Ok && match icon {
            Ok(icon) => prepared matches Ok(p) && p.options@ == options@ && p.icon.format@
                == icon.format@ && p.icon.size@ == icon.size@ && p.icon.bytes@ == icon.bytes@,
            Err(e) => prepared matches Err(DynamicLauncherError::InvalidArgument { message })
                && message@ == "Error validating icon: "@ + e@,
        },
{
    assert(types@ == supported_types());
    assert(supported@ == supported_types());
}

/// A token is read back: whoever spends a token that was put out with `data` gets all of it, as long
/// as the token is no older than 300 seconds; and nobody gets anything for it again.
pub proof fn law_token_is_read_back(
    portal: &mut DynamicLauncher,
    token: String,
    data: LauncherData,
    portal_with: &mut DynamicLauncher,
    key: &str,
    elapsed_secs: u64,
    first: Option<LauncherData>,
    portal_after: &mut DynamicLauncher,
    any_secs: u64,
    second: Option<LauncherData>,
)
    requires
        call_ensures(DynamicLauncher::insert_launcher_data, (portal, token, data), ()),
        *old(portal_with) == *final(portal),
        key@ == token@,
        call_ensures(
            DynamicLauncher::take_launcher_data_after,
            (portal_with, key, elapsed_secs),
            first,
        ),
        *old(portal_after) == *final(portal_with),
        call_ensures(
            DynamicLauncher::take_launcher_data_after,
            (portal_after, key, any_secs),
            second,
        ),
    ensures
        first is Some <==> elapsed_secs <= 300,
        first matches Some(found) ==> found.name@ == data.name@ && found.icon@ == data.icon@
            && found.icon_format@ == data.icon_format@ && found.icon_size@ == data.icon_size@
            && found.inserted_at == data.inserted_at,
        second is None,
{
    assert(data_view(first) == token_worth(old(portal_with)@, key@, elapsed_secs));
    assert(data_view(second) == token_worth(old(portal_after)@, key@, any_secs));
}

/// Putting out or spending one token changes nothing of another, and a portal begins with no token.
pub proof fn law_other_tokens_stay(
    new_portal: DynamicLauncher,
    fresh: &mut DynamicLauncher,
    none: Option<LauncherData>,
    portal: &mut DynamicLauncher,
    token: String,
    data: LauncherData,
    spender: &mut DynamicLauncher,
    key: &str,
    spent: Option<LauncherData>,
    another: &str,
    elapsed_secs: u64,
    before: &mut DynamicLauncher,
    found_before: Option<LauncherData>,
    between: &mut DynamicLauncher,
    found_between: Option<LauncherData>,
    after: &mut DynamicLauncher,
    found_after: Option<LauncherData>,
)
    requires
        call_ensures(DynamicLauncher::new, (), new_portal),
        *old(fresh) == new_portal,
        call_ensures(
            DynamicLauncher::take_launcher_data_after,
            (fresh, another, elapsed_secs),
            none,
        ),
        call_ensures(DynamicLauncher::insert_launcher_data, (portal, token, data), ()),
        *old(spender) == *final(portal),
        call_ensures(DynamicLauncher::take_launcher_data_after, (spender, key, 0), spent),
        another@ != token@ && another@ != key@,
        *old(before) == *old(portal),
        *old(between) == *final(portal),
        *old(after) == *final(spender),
        call_ensures(
            DynamicLauncher::take_launcher_data_after,
            (before, another, elapsed_secs),
            found_before,
        ),
        call_ensures(
            DynamicLauncher::take_launcher_data_after,
            (between, another, elapsed_secs),
            found_between,
        ),
        call_ensures(
            DynamicLauncher::take_launcher_data_after,
            (after, another, elapsed_secs),
            found_after,
        ),
    ensures
        none is None,
        found_before is Some <==> found_between is Some,
        found_before is Some <==> found_after is Some,
        found_before matches Some(data) ==> found_between->0@ == data@ && found_after->0@ == data@,
{
    assert(data_view(none) == token_worth(old(fresh)@, another@, elapsed_secs));
    assert(data_view(found_before) == token_worth(old(before)@, another@, elapsed_secs));
    assert(data_view(found_between) == token_worth(old(between)@, another@, elapsed_secs));
    assert(data_view(found_after) == token_worth(old(after)@, another@, elapsed_secs));
}

/// Spending a token by the clock: what it stands for comes back whole, if and only if no more than
/// 300 seconds have passed since it was given out.
pub proof fn law_token_is_spent_by_the_clock(
    portal: &mut DynamicLauncher,
    token: String,
    data: LauncherData,
    portal_with: &mut DynamicLauncher,
    key: &str,
    r: Option<LauncherData>,
)
    requires
        call_ensures(DynamicLauncher::insert_launcher_data, (portal, token, data), ()),
        *old(portal_with) == *final(portal),
        key@ == token@,
        call_ensures(DynamicLauncher::take_launcher_data, (portal_with, key), r),
    ensures
        exists|age: Duration|
            call_ensures(Instant::elapsed, (&data.inserted_at,), age) && (r is Some
                <==> #[trigger] whole_seconds(age) <= 300),
        r matches Some(found) ==> found@ == data@,
        !final(portal_with)@.contains_key(token@),
{
    assert(old(portal_with)@.contains_key(token@));
    assert(old(portal_with)@[token@] == data@);
    let age = choose|age: Duration|
        call_ensures(Instant::elapsed, (&old(portal_with)@[key@].inserted_at,), age) && data_view(r)
            == token_worth(old(portal_with)@, key@, #[trigger] whole_seconds(age));
    assert(r is Some <==> whole_seconds(age) <= 300);
}

/// RequestInstallToken: an application that gets tokens unasked gets one for a validated icon, and
/// the token stands for the name and for that icon, all bytes of it. Any other request is refused
/// and changes nothing.
pub proof fn law_requested_token(
    portal: &mut DynamicLauncher,
    app_id: &str,
    name: String,
    options: &Options,
    allowed: Result<(), DynamicLauncherError>,
    icon: Result<ValidatedIcon, String>,
    r: Result<RequestInstallTokenOutput, DynamicLauncherError>,
    portal_with: &mut DynamicLauncher,
    key: &str,
    elapsed_secs: u64,
    found: Option<LauncherData>,
)
    requires
        call_ensures(check_token_request, (app_id, options), allowed),
        call_ensures(
            DynamicLauncher::request_install_token,
            (portal, app_id, name, options, icon),
            r,
        ),
        *old(portal_with) == *final(portal),
        r matches Ok(reply) ==> key@ == reply.token@ && call_ensures(
            DynamicLauncher::take_launcher_data_after,
            (portal_with, key, elapsed_secs),
            found,
        ),
    ensures
        r is Ok <==> allowed is Ok && icon is Ok,
        allowed matches Err(e) ==> (r matches Err(answer) && answer@ == e@),
        allowed is Ok ==> (icon matches Err(e) ==> (r matches Err(
            DynamicLauncherError::Other { message },
        ) && message@ == "Icon failed validation: "@ + e@)),
        r is Err ==> final(portal)@ == old(portal)@,
        r is Ok ==> {
            &&& found is Some <==> elapsed_secs <= 300
            &&& found matches Some(data) ==> data.name@ == name@ && data.icon@ == icon->Ok_0.bytes@
                && data.icon_format@ == icon->Ok_0.format@ && data.icon_size@ == icon->Ok_0.size@
        },
{
    assert(outcome(allowed) == token_request_check(app_id@));
    if r is Ok {
        assert(data_view(found) == token_worth(old(portal_with)@, key@, elapsed_secs));
    }
}

/// PrepareInstall: where the user agreed, they get a token for the name and icon that they agreed
/// to, all bytes of it, with the format and size that were validated. Otherwise nothing changes.
pub proof fn law_prepared_token(
    portal: &mut DynamicLauncher,
    prepared: PreparedInstall,
    response: Result<Option<BackendPrepareInstallResponse>, String>,
    r: Result<PrepareInstallFinalOutput, DynamicLauncherError>,
    portal_with: &mut DynamicLauncher,
    key: &str,
    elapsed_secs: u64,
    found: Option<LauncherData>,
)
    requires
        call_ensures(DynamicLauncher::prepare_install, (portal, prepared, response), r),
        *old(portal_with) == *final(portal),
        r matches Ok(reply) ==> key@ == reply.token@ && call_ensures(
            DynamicLauncher::take_launcher_data_after,
            (portal_with, key, elapsed_secs),
            found,
        ),
    ensures
        match response {
            Err(e) => r matches Err(DynamicLauncherError::Other { message }) && message@
                == "Call to backend_handle_prepare_install() failed: "@ + e@,
            Ok(None) => r matches Err(DynamicLauncherError::Cancelled),
            Ok(Some(agreed)) => {
                &&& r matches Ok(reply)
                &&& reply.name@ == agreed.name@
                &&& reply.icon@ == agreed.icon@
                &&& found is Some <==> elapsed_secs <= 300
                &&& found matches Some(data) ==> data.name@ == agreed.name@ && data.icon@
                    == agreed.icon@ && data.icon_format@ == prepared.icon.format@ && data.icon_size@
                    == prepared.icon.size@
            },
        },
        r is Err ==> final(portal)@ == old(portal)@,
{
    if r is Ok {
        assert(data_view(found) == token_worth(old(portal_with)@, key@, elapsed_secs));
    }
}

/// Install spends its token just as taking it does, whatever comes of it. Where the token is worth
/// something and the desktop file id is accepted, it goes on with all that the token stands for.
pub proof fn law_install_spends_the_token(
    portal: &mut DynamicLauncher,
    taker: &mut DynamicLauncher,
    app_id: &str,
    token: &str,
    id: &str,
    elapsed_secs: u64,
    found: Option<LauncherData>,
    check: Result<(), DynamicLauncherError>,
    r: Result<InstallRequest, DynamicLauncherError>,
)
    requires
        call_ensures(
            DynamicLauncher::install_after,
            (portal, app_id, token, id, elapsed_secs),
            r,
        ),
        *old(taker) == *old(portal),
        call_ensures(
            DynamicLauncher::take_launcher_data_after,
            (taker, token, elapsed_secs),
            found,
        ),
        call_ensures(require_desktop_file_id, (app_id, id), check),
    ensures
        final(portal)@ == final(taker)@,
        !final(portal)@.contains_key(token@),
        match (found, check) {
            (None, _) => r matches Err(DynamicLauncherError::InvalidArgument { message })
                && message@ == "Token given is invalid: "@ + token@,
            (Some(_), Err(e)) => r matches Err(answer) && answer@ == e@,
            (Some(data), Ok(_)) => {
                &&& r matches Ok(request)
                &&& request.app_id@ == app_id@
                &&& request.desktop_file_id@ == id@
                &&& request.data.name@ == data.name@
                &&& request.data.icon@ == data.icon@
                &&& request.data.icon_format@ == data.icon_format@
                &&& request.data.icon_size@ == data.icon_size@
            },
        },
{
    assert(outcome(check) == desktop_file_id_outcome(app_id@, id@));
    assert(data_view(found) == token_worth(old(taker)@, token@, elapsed_secs));
    if let (Some(data), Ok(request)) = (found, r) {
        assert(request.data@ == data@);
    }
}

/// A token that is chosen for a request is the one that is given out, and counts from the moment that
/// is chosen with it.
pub proof fn law_chosen_tokens(
    portal: &mut DynamicLauncher,
    app_id: &str,
    name: String,
    options: &Options,
    icon: Result<ValidatedIcon, String>,
    token: String,
    inserted_at: Instant,
    r: Result<RequestInstallTokenOutput, DynamicLauncherError>,
    preparing: &mut DynamicLauncher,
    prepared: PreparedInstall,
    response: Result<Option<BackendPrepareInstallResponse>, String>,
    prepared_r: Result<PrepareInstallFinalOutput, DynamicLauncherError>,
)
    requires
        call_ensures(
            DynamicLauncher::request_install_token_with,
            (portal, app_id, name, options, icon, token, inserted_at),
            r,
        ),
        call_ensures(
            DynamicLauncher::prepare_install_with,
            (preparing, prepared, response, token, inserted_at),
            prepared_r,
        ),
    ensures
        r matches Ok(reply) ==> reply.token@ == token@ && final(portal)@.contains_key(token@)
            && final(portal)@[token@].inserted_at == inserted_at && final(portal)@[token@].name
            == name@ && final(portal)@[token@].icon == icon->Ok_0.bytes@,
        prepared_r matches Ok(reply) ==> reply.token@ == token@ && final(preparing)@.contains_key(
            token@,
        ) && final(preparing)@[token@].inserted_at == inserted_at
            && final(preparing)@[token@].icon == reply.icon@ && final(preparing)@[token@].name
            == reply.name@,
{
}

/// Install by the clock: it goes on with all that the token stands for, if and only if no more than
/// 300 seconds have passed since the token was given out and the desktop file id is accepted.
pub proof fn law_install_by_the_clock(
    portal: &mut DynamicLauncher,
    token: String,
    data: LauncherData,
    portal_with: &mut DynamicLauncher,
    key: &str,
    app_id: &str,
    id: &str,
    check: Result<(), DynamicLauncherError>,
    r: Result<InstallRequest, DynamicLauncherError>,
)
    requires
        call_ensures(DynamicLauncher::insert_launcher_data, (portal, token, data), ()),
        *old(portal_with) == *final(portal),
        key@ == token@,
        call_ensures(DynamicLauncher::install, (portal_with, app_id, key, id), r),
        call_ensures(require_desktop_file_id, (app_id, id), check),
    ensures
        exists|age: Duration|
            call_ensures(Instant::elapsed, (&data.inserted_at,), age) && (r is Ok
                <==> #[trigger] whole_seconds(age) <= 300 && check is Ok),
        r matches Ok(request) ==> request.data@ == data@ && request.app_id@ == app_id@
            && request.desktop_file_id@ == id@,
        !final(portal_with)@.contains_key(token@),
{
    assert(outcome(check) == desktop_file_id_outcome(app_id@, id@));
    assert(old(portal_with)@.contains_key(token@));
    assert(old(portal_with)@[token@] == data@);
    let age = choose|age: Duration|
        call_ensures(Instant::elapsed, (&old(portal_with)@[key@].inserted_at,), age)
            && request_data(r) == install_check(
            token_worth(old(portal_with)@, key@, #[trigger] whole_seconds(age)),
            app_id@,
            key@,
            id@,
        );
    assert(r is Ok <==> whole_seconds(age) <= 300 && check is Ok);
}

/// A token is a random UUID in its usual form: 36 characters, lower-case hexadecimal but for four
/// hyphens, with the marks of its version and variant.
pub proof fn law_form_of_tokens(token: Seq<char>)
    ensures
        is_token(token) <==> {
            &&& token.len() == 36
            &&& forall|i: int|
                0 <= i < 36 ==> if i == 8 || i == 13 || i == 18 || i == 23 {
                    #[trigger] token[i] == '-'
                } else {
                    48 <= token[i] as int <= 57 || 97 <= token[i] as int <= 102
                }
            &&& token[14] == '4'
            &&& token[19] == '8' || token[19] == '9' || token[19] == 'a' || token[19] == 'b'
        },
{
}

} // verus!
