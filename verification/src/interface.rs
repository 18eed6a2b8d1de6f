//! What callers of the portal see: errors, launcher types, and the replies of its methods.

use vstd::prelude::*;
use vstd::string::*;

verus! {

/// Why a call failed.
#[derive(Debug, Clone, PartialEq)]
pub enum DynamicLauncherError {
    /// The user dismissed the request.
    Cancelled,
    /// The caller passed something that the portal does not accept.
    InvalidArgument { message: String },
    /// Anything else.
    Other { message: String },
}

/// An error, with its message as characters.
pub enum ErrorView {
    Cancelled,
    InvalidArgument(Seq<char>),
    Other(Seq<char>),
}

impl View for DynamicLauncherError {
    type V = ErrorView;

    open spec fn view(&self) -> ErrorView {
        match self {
            DynamicLauncherError::Cancelled => ErrorView::Cancelled,
            DynamicLauncherError::InvalidArgument { message } => ErrorView::InvalidArgument(
                message@,
            ),
            DynamicLauncherError::Other { message } => ErrorView::Other(message@),
        }
    }
}

/// The result of a call, both sides by their views.
pub open spec fn outcome<T: View>(r: Result<T, DynamicLauncherError>) -> Result<T::V, ErrorView> {
    match r {
        Ok(value) => Ok(value@),
        Err(error) => Err(error@),
    }
}

/// A text or a complaint, both by their characters.
pub open spec fn text_outcome(r: Result<String, String>) -> Result<Seq<char>, Seq<char>> {
    match r {
        Ok(value) => Ok(value@),
        Err(complaint) => Err(complaint@),
    }
}

/// A text that may be absent, by its characters.
pub open spec fn text_view(text: Option<String>) -> Option<Seq<char>> {
    match text {
        Some(text) => Some(text@),
        None => None,
    }
}

/// Whether an operation succeeded, or the complaint that it failed with.
pub open spec fn done_outcome(r: Result<(), String>) -> Result<(), Seq<char>> {
    match r {
        Ok(_) => Ok(()),
        Err(complaint) => Err(complaint@),
    }
}

/// What kind of launcher is to be installed.
#[derive(Debug, Clone, Copy, PartialEq, Eq, Structural)]
pub enum LauncherType {
    Application,
    Webapp,
}

/// The reply of PrepareInstall once the user has agreed. The icon is sent as the list of its bytes.
#[derive(Debug, Clone, PartialEq)]
pub struct PrepareInstallFinalOutput {
    pub token: String,
    pub name: String,
    pub icon: Vec<u8>,
}

/// A reply of PrepareInstall that may still be outstanding.
#[derive(Debug, Clone, PartialEq)]
pub struct PrepareInstallOutput {
    pub maybe: Option<PrepareInstallFinalOutput>,
}

/// The reply of RequestInstallToken.
#[derive(Debug, Clone, PartialEq)]
pub struct RequestInstallTokenOutput {
    pub token: String,
}

/// The reply of GetDesktopEntry.
#[derive(Debug, Clone, PartialEq)]
pub struct GetDesktopEntryOutput {
    pub contents: String,
}

/// The reply of GetIcon. The icon is sent as a string.
#[derive(Debug, Clone, PartialEq)]
pub struct GetIconOutput {
    pub icon_v: String,
    pub icon_format: String,
    pub icon_size: i64,
}

/// The reply of GetSupportedLauncherTypes.
#[derive(Debug, Clone, PartialEq)]
pub struct GetSupportedLauncherTypesOutput {
    pub supported_launcher_types: Vec<LauncherType>,
}

impl View for PrepareInstallFinalOutput {
    type V = (Seq<char>, Seq<char>, Seq<u8>);

    open spec fn view(&self) -> (Seq<char>, Seq<char>, Seq<u8>) {
        (self.token@, self.name@, self.icon@)
    }
}

impl View for RequestInstallTokenOutput {
    type V = Seq<char>;

    open spec fn view(&self) -> Seq<char> {
        self.token@
    }
}

impl View for GetDesktopEntryOutput {
    type V = Seq<char>;

    open spec fn view(&self) -> Seq<char> {
        self.contents@
    }
}

impl View for GetIconOutput {
    type V = (Seq<char>, Seq<char>, int);

    open spec fn view(&self) -> (Seq<char>, Seq<char>, int) {
        (self.icon_v@, self.icon_format@, self.icon_size as int)
    }
}

impl View for GetSupportedLauncherTypesOutput {
    type V = Seq<LauncherType>;

    open spec fn view(&self) -> Seq<LauncherType> {
        self.supported_launcher_types@
    }
}

/// An `InvalidArgument` error.
pub fn invalid_argument(message: String) -> (e: DynamicLauncherError)
    ensures
        e@ == ErrorView::InvalidArgument(message@),
{
    DynamicLauncherError::InvalidArgument { message }
}

/// An `Other` error.
pub fn other_error(message: String) -> (e: DynamicLauncherError)
    ensures
        e@ == ErrorView::Other(message@),
{
    DynamicLauncherError::Other { message }
}

/// An error is known by its kind and the characters of its message.
pub proof fn law_errors_are_seen_whole(a: DynamicLauncherError, b: DynamicLauncherError)
    ensures
        a@ == b@ <==> match (a, b) {
            (DynamicLauncherError::Cancelled, DynamicLauncherError::Cancelled) => true,
            (
                DynamicLauncherError::InvalidArgument { message: m },
                DynamicLauncherError::InvalidArgument { message: n },
            ) => m@ == n@,
            (
                DynamicLauncherError::Other { message: m },
                DynamicLauncherError::Other { message: n },
            ) => m@ == n@,
            _ => false,
        },
{
}

/// Errors are made with the message that they are given.
pub proof fn law_errors_are_made(
    message: String,
    invalid: DynamicLauncherError,
    other: DynamicLauncherError,
)
    requires
        call_ensures(invalid_argument, (message,), invalid),
        call_ensures(other_error, (message,), other),
    ensures
        invalid matches DynamicLauncherError::InvalidArgument { message: m } && m@ == message@,
        other matches DynamicLauncherError::Other { message: m } && m@ == message@,
{
}

/// Replies are known by all that they hold.
pub proof fn law_replies_are_seen_whole(
    prepared: PrepareInstallFinalOutput,
    token: RequestInstallTokenOutput,
    entry: GetDesktopEntryOutput,
    icon: GetIconOutput,
    types: GetSupportedLauncherTypesOutput,
)
    ensures
        prepared@ == (prepared.token@, prepared.name@, prepared.icon@),
        token@ == token.token@,
        entry@ == entry.contents@,
        icon@ == (icon.icon_v@, icon.icon_format@, icon.icon_size as int),
        types@ == types.supported_launcher_types@,
{
}

/// What became of a call shows its reply or its error, and what may be absent shows whether it is.
pub proof fn law_outcomes_are_seen_whole<T: View>(
    r: Result<T, DynamicLauncherError>,
    text: Option<String>,
    read: Result<String, String>,
    done: Result<(), String>,
)
    ensures
        match r {
            Ok(value) => outcome(r) == Ok::<T::V, ErrorView>(value@),
            Err(e) => outcome(r) == Err::<T::V, ErrorView>(e@),
        },
        match text {
            Some(s) => text_view(text) == Some(s@),
            None => text_view(text) is None,
        },
        match read {
            Ok(s) => text_outcome(read) == Ok::<Seq<char>, Seq<char>>(s@),
            Err(e) => text_outcome(read) == Err::<Seq<char>, Seq<char>>(e@),
        },
        match done {
            Ok(_) => done_outcome(done) is Ok,
            Err(e) => done_outcome(done) == Err::<(), Seq<char>>(e@),
        },
{
}

} // verus!
