use vstd::prelude::*;
use crate::digits::{spec_dec, u16_to_dec};

verus! {

/// Everything that can abort a login attempt, one variant per step.
/// The status-carrying variants record the HTTP status that came back.
#[derive(Clone, Copy, Debug, PartialEq, Eq, Structural)]
pub enum LoginError {
    ConfigUnavailable,
    ConfigMalformed,
    UnsupportedProvider,
    ListenerUnavailable,
    BrowserLaunchFailed,
    RedirectParseError,
    MissingAuthorizationCode,
    TokenExchangeTransportError,
    TokenExchangeFailed(u16),
    TokenResponseMalformed,
    ProfileFetchTransportError,
    ProfileFetchFailed(u16),
    ProfileResponseMalformed,
}

impl LoginError {
    /// The human-readable message shown for this error.
    pub open spec fn message_spec(self) -> Seq<char> {
        match self {
            LoginError::ConfigUnavailable => "cannot find config"@,
            LoginError::ConfigMalformed => "Failed to parse config file"@,
            LoginError::UnsupportedProvider => "Unsupported provider"@,
            LoginError::ListenerUnavailable => "Failed to start the local listener"@,
            LoginError::BrowserLaunchFailed => "Failed to open the browser"@,
            LoginError::RedirectParseError => "Failed to parse URL"@,
            LoginError::MissingAuthorizationCode => "No code found in URL"@,
            LoginError::TokenExchangeTransportError => "Failed to exchange code for token: transport error"@,
            LoginError::TokenExchangeFailed(status) => "Failed to exchange code for token: "@
                + spec_dec(status as nat),
            LoginError::TokenResponseMalformed => "No access token found"@,
            LoginError::ProfileFetchTransportError => "Failed to get user info: transport error"@,
            LoginError::ProfileFetchFailed(status) => "Failed to get user info: "@ + spec_dec(
                status as nat,
            ),
            LoginError::ProfileResponseMalformed => "Failed to parse user info"@,
        }
    }

    /// Renders the error as the message surfaced to the caller.
    pub fn message(&self) -> (r: String)
        ensures
            r@ == self.message_spec(),
    {
        match self {
            LoginError::ConfigUnavailable => "cannot find config".to_owned(),
            LoginError::ConfigMalformed => "Failed to parse config file".to_owned(),
            LoginError::UnsupportedProvider => "Unsupported provider".to_owned(),
            LoginError::ListenerUnavailable => "Failed to start the local listener".to_owned(),
            LoginError::BrowserLaunchFailed => "Failed to open the browser".to_owned(),
            LoginError::RedirectParseError => "Failed to parse URL".to_owned(),
            LoginError::MissingAuthorizationCode => "No code found in URL".to_owned(),
            LoginError::TokenExchangeTransportError => "Failed to exchange code for token: transport error".to_owned(),
            LoginError::TokenExchangeFailed(status) => "Failed to exchange code for token: ".to_owned().concat(
                u16_to_dec(*status).as_str(),
            ),
            LoginError::TokenResponseMalformed => "No access token found".to_owned(),
            LoginError::ProfileFetchTransportError => "Failed to get user info: transport error".to_owned(),
            LoginError::ProfileFetchFailed(status) => "Failed to get user info: ".to_owned().concat(
                u16_to_dec(*status).as_str(),
            ),
            LoginError::ProfileResponseMalformed => "Failed to parse user info".to_owned(),
        }
    }
}

} // verus!
