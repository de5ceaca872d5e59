use vstd::prelude::*;
use crate::errors::LoginError;
use crate::jsontext::{json_get_nested_str, json_nested_str_member};

verus! {

/// Credentials and endpoint URLs for one identity provider.
#[derive(Clone, Debug)]
pub struct OAuthConfig {
    pub client_id: String,
    pub client_secret: String,
    pub auth_url: String,
    pub token_url: String,
    pub user_info_url: String,
    pub scope: String,
}

/// The configuration file's contents: one entry per supported provider.
#[derive(Clone, Debug)]
pub struct OAuthConfigs {
    pub google: OAuthConfig,
    pub github: OAuthConfig,
}

/// The named section of the configuration document holds all six fields,
/// each as a JSON string.
pub open spec fn provider_section_wf(s: Seq<char>, section: Seq<char>) -> bool {
    &&& json_nested_str_member(s, section, "client_id"@) is Some
    &&& json_nested_str_member(s, section, "client_secret"@) is Some
    &&& json_nested_str_member(s, section, "auth_url"@) is Some
    &&& json_nested_str_member(s, section, "token_url"@) is Some
    &&& json_nested_str_member(s, section, "user_info_url"@) is Some
    &&& json_nested_str_member(s, section, "scope"@) is Some
}

/// The whole configuration document is well-formed: both provider
/// sections carry all six fields.
pub open spec fn config_text_wf(s: Seq<char>) -> bool {
    provider_section_wf(s, "google"@) && provider_section_wf(s, "github"@)
}

/// The six fields of a loaded provider configuration hold, verbatim, the
/// strings of the named section of the configuration document.
pub open spec fn config_matches_section(c: OAuthConfig, s: Seq<char>, section: Seq<char>) -> bool {
    &&& Some(c.client_id@) == json_nested_str_member(s, section, "client_id"@)
    &&& Some(c.client_secret@) == json_nested_str_member(s, section, "client_secret"@)
    &&& Some(c.auth_url@) == json_nested_str_member(s, section, "auth_url"@)
    &&& Some(c.token_url@) == json_nested_str_member(s, section, "token_url"@)
    &&& Some(c.user_info_url@) == json_nested_str_member(s, section, "user_info_url"@)
    &&& Some(c.scope@) == json_nested_str_member(s, section, "scope"@)
}

/// Reads one provider section out of the configuration document.
fn read_section(s: &str, section: &str) -> (r: Option<OAuthConfig>)
    ensures
        r is Some <==> provider_section_wf(s@, section@),
        r matches Some(c) ==> config_matches_section(c, s@, section@),
{
    let client_id = match json_get_nested_str(s, section, "client_id") {
        Some(v) => v,
        None => return None,
    };
    let client_secret = match json_get_nested_str(s, section, "client_secret") {
        Some(v) => v,
        None => return None,
    };
    let auth_url = match json_get_nested_str(s, section, "auth_url") {
        Some(v) => v,
        None => return None,
    };
    let token_url = match json_get_nested_str(s, section, "token_url") {
        Some(v) => v,
        None => return None,
    };
    let user_info_url = match json_get_nested_str(s, section, "user_info_url") {
        Some(v) => v,
        None => return None,
    };
    let scope = match json_get_nested_str(s, section, "scope") {
        Some(v) => v,
        None => return None,
    };
    Some(OAuthConfig { client_id, client_secret, auth_url, token_url, user_info_url, scope })
}

/// Loads the provider configurations from the configuration file's
/// contents, or reports why they cannot be had: the file was absent, or
/// its text does not carry both well-formed provider sections.
pub fn load_oauth_configs(contents: Option<&str>) -> (r: Result<OAuthConfigs, LoginError>)
    ensures
        contents is None ==> r == Err::<OAuthConfigs, LoginError>(LoginError::ConfigUnavailable),
        contents matches Some(s) ==> {
            &&& r is Ok <==> config_text_wf(s@)
            &&& !config_text_wf(s@) ==> r == Err::<OAuthConfigs, LoginError>(
                LoginError::ConfigMalformed,
            )
            &&& r matches Ok(c) ==> config_matches_section(c.google, s@, "google"@)
                && config_matches_section(c.github, s@, "github"@)
        },
{
    let s = match contents {
        Some(s) => s,
        None => return Err(LoginError::ConfigUnavailable),
    };
    let google = match read_section(s, "google") {
        Some(c) => c,
        None => return Err(LoginError::ConfigMalformed),
    };
    let github = match read_section(s, "github") {
        Some(c) => c,
        None => return Err(LoginError::ConfigMalformed),
    };
    Ok(OAuthConfigs { google, github })
}

} // verus!
