use vstd::prelude::*;
use crate::config::{config_matches_section, config_text_wf, load_oauth_configs, OAuthConfig};
use crate::digits::{spec_dec, u16_to_dec};
use crate::errors::LoginError;
use crate::jsontext::{json_get_str, json_ok, json_str_member};
use crate::profile::{extract_github_profile, extract_google_profile, github_profile_matches,
    google_profile_matches, UserInfo};
use crate::statetoken::{generate_random_string, is_token_char};
use crate::urlq::{append_query_pairs, find_query_param, first_value, parse_query_pairs, url_ok,
    url_query_pairs, url_with_query};

verus! {

/// The closed set of providers the login flow supports.
#[derive(Clone, Copy, Debug, PartialEq, Eq, Structural)]
pub enum Provider {
    Google,
    Github,
}

impl Provider {
    /// The provider's key, as it stands in the configuration file and in
    /// the returned profile.
    pub open spec fn name_spec(self) -> Seq<char> {
        match self {
            Provider::Google => "google"@,
            Provider::Github => "github"@,
        }
    }

    /// Renders the provider's key.
    pub fn name(&self) -> (r: String)
        ensures
            r@ == self.name_spec(),
    {
        match self {
            Provider::Google => "google".to_owned(),
            Provider::Github => "github".to_owned(),
        }
    }
}

/// Which provider, if any, a provider key names.
pub open spec fn provider_of(s: Seq<char>) -> Option<Provider> {
    if s == "google"@ {
        Some(Provider::Google)
    } else if s == "github"@ {
        Some(Provider::Github)
    } else {
        None
    }
}

/// Resolves a provider key against the closed provider set.
fn lookup_provider(key: &str) -> (r: Option<Provider>)
    ensures
        r == provider_of(key@),
{
    let owned: String = key.to_owned();
    if owned == "google".to_owned() {
        Some(Provider::Google)
    } else if owned == "github".to_owned() {
        Some(Provider::Github)
    } else {
        None
    }
}

/// What the local redirect listener is to be started with: the candidate
/// ports, tried in order, and the page served to the browser.
pub struct ListenerPlan {
    pub ports: Vec<u16>,
    pub response_body: String,
}

/// One in-flight login attempt: the chosen provider, its configuration,
/// and the freshly drawn anti-forgery token.
pub struct LoginFlow {
    pub provider: Provider,
    pub config: OAuthConfig,
    pub state_token: String,
}

/// The one POST of the flow: the token endpoint, the form fields, and the
/// headers it is sent with.
pub struct TokenRequest {
    pub url: String,
    pub form: Vec<(String, String)>,
    pub headers: Vec<(String, String)>,
}

/// The one GET of the flow: the user-info endpoint and the headers it is
/// sent with.
pub struct ProfileRequest {
    pub url: String,
    pub headers: Vec<(String, String)>,
}

/// What the token endpoint's answer leads to: the profile fetch, or the
/// end of the flow with an error.
pub enum TokenOutcome {
    Proceed { access_token: String, request: ProfileRequest },
    Abort { error: LoginError },
}

/// An HTTP status that counts as success.
pub open spec fn is_success_status(status: u16) -> bool {
    200 <= status < 300
}

/// The local URL the provider is told to redirect the browser to.
pub open spec fn redirect_uri_spec(port: u16) -> Seq<char> {
    "http://localhost:"@ + spec_dec(port as nat)
}

/// Renders the local redirect URL for the bound port.
pub fn redirect_uri(port: u16) -> (r: String)
    ensures
        r@ == redirect_uri_spec(port),
{
    "http://localhost:".to_owned().concat(u16_to_dec(port).as_str())
}

/// The query parameters the authorization URL carries, in order.
pub open spec fn auth_query_pairs(
    config: OAuthConfig,
    port: u16,
    state_token: Seq<char>,
) -> Seq<(Seq<char>, Seq<char>)> {
    seq![
        ("client_id"@, config.client_id@),
        ("redirect_uri"@, redirect_uri_spec(port)),
        ("scope"@, config.scope@),
        ("response_type"@, "code"@),
        ("state"@, state_token),
    ]
}

/// The form fields of the token exchange, in order.
pub open spec fn token_form_pairs(config: OAuthConfig, port: u16, code: Seq<char>) -> Seq<
    (Seq<char>, Seq<char>),
> {
    seq![
        ("client_id"@, config.client_id@),
        ("client_secret"@, config.client_secret@),
        ("code"@, code),
        ("redirect_uri"@, redirect_uri_spec(port)),
        ("grant_type"@, "authorization_code"@),
    ]
}

/// The bearer authorization header's value.
pub open spec fn bearer_value(token: Seq<char>) -> Seq<char> {
    "Bearer "@ + token
}

/// The headers of the user-info request: both providers authenticate with
/// the bearer token; GitHub additionally asks for its v3 JSON media type
/// and requires a User-Agent.
pub open spec fn profile_headers(p: Provider, token: Seq<char>) -> Seq<(Seq<char>, Seq<char>)> {
    match p {
        Provider::Google => seq![
            ("Authorization"@, bearer_value(token)),
            ("Accept"@, "application/json"@),
        ],
        Provider::Github => seq![
            ("Authorization"@, bearer_value(token)),
            ("Accept"@, "application/vnd.github.v3+json"@),
            ("User-Agent"@, "oauth-login-app"@),
        ],
    }
}

/// The candidate ports of the redirect listener, tried in order.
pub open spec fn candidate_ports() -> Seq<u16> {
    seq![8000u16, 8001u16, 8002u16]
}

/// The listener plan of the standalone server-start path: same ports,
/// its own confirmation page.
pub fn server_listener_plan() -> (r: ListenerPlan)
    ensures
        r.ports@ == candidate_ports(),
        r.response_body@ == "Login successful. You can close this window."@,
{
    let ports: Vec<u16> = vec![8000, 8001, 8002];
    proof {
        assert(ports@ =~= candidate_ports());
    }
    ListenerPlan { ports, response_body: "Login successful. You can close this window.".to_owned() }
}

/// Begins a login attempt: loads the configuration, resolves the
/// provider, draws the anti-forgery token, and plans the listener.
/// An unsupported provider aborts the attempt here, before any listener
/// or network step is handed out.
pub fn start_login(provider: &str, config_contents: Option<&str>) -> (r: Result<
    (LoginFlow, ListenerPlan),
    LoginError,
>)
    ensures
        config_contents is None ==> r == Err::<(LoginFlow, ListenerPlan), LoginError>(
            LoginError::ConfigUnavailable,
        ),
        config_contents matches Some(s) && !config_text_wf(s@) ==> r == Err::<
            (LoginFlow, ListenerPlan),
            LoginError,
        >(LoginError::ConfigMalformed),
        config_contents matches Some(s) && config_text_wf(s@) && provider_of(provider@) is None
            ==> r == Err::<(LoginFlow, ListenerPlan), LoginError>(LoginError::UnsupportedProvider),
        config_contents matches Some(s) ==> (config_text_wf(s@) ==> (provider_of(provider@)
            matches Some(p) ==> (r matches Ok(pair) && {
            &&& pair.0.provider == p
            &&& config_matches_section(pair.0.config, s@, p.name_spec())
            &&& pair.0.state_token@.len() == 16
            &&& forall|i: int|
                0 <= i < pair.0.state_token@.len() ==> is_token_char(
                    #[trigger] pair.0.state_token@[i],
                )
            &&& pair.1.ports@ == candidate_ports()
            &&& pair.1.response_body@ == "OAuth process completed. You can close this window."@
        }))),
{
    let configs = match load_oauth_configs(config_contents) {
        Ok(c) => c,
        Err(e) => return Err(e),
    };
    let p = match lookup_provider(provider) {
        Some(p) => p,
        None => return Err(LoginError::UnsupportedProvider),
    };
    let config = match p {
        Provider::Google => configs.google,
        Provider::Github => configs.github,
    };
    let state_token = generate_random_string(16);
    let ports: Vec<u16> = vec![8000, 8001, 8002];
    proof {
        assert(ports@ =~= candidate_ports());
    }
    let plan = ListenerPlan {
        ports,
        response_body: "OAuth process completed. You can close this window.".to_owned(),
    };
    Ok((LoginFlow { provider: p, config, state_token }, plan))
}

/// Pulls the authorization code out of the redirect the browser was sent
/// back with: the first `code` query parameter of the redirect URL.
pub fn extract_code_from_redirect(url: &str) -> (r: Result<String, LoginError>)
    ensures
        !url_ok(url@) ==> r == Err::<String, LoginError>(LoginError::RedirectParseError),
        url_ok(url@) && first_value(url_query_pairs(url@), "code"@) is None ==> r == Err::<
            String,
            LoginError,
        >(LoginError::MissingAuthorizationCode),
        url_ok(url@) ==> (first_value(url_query_pairs(url@), "code"@) matches Some(c) ==> (r
            matches Ok(v) && v@ == c)),
{
    let pairs = match parse_query_pairs(url) {
        Some(p) => p,
        None => return Err(LoginError::RedirectParseError),
    };
    match find_query_param(&pairs, "code") {
        Some(c) => Ok(c),
        None => Err(LoginError::MissingAuthorizationCode),
    }
}

impl LoginFlow {
    /// Builds the consent-screen URL the browser is opened at: the
    /// provider's authorization endpoint with the five query parameters
    /// appended. A configured endpoint that is no URL aborts the flow as
    /// malformed configuration.
    pub fn authorization_url(&self, port: u16) -> (r: Result<String, LoginError>)
        ensures
            r is Ok <==> url_ok(self.config.auth_url@),
            !url_ok(self.config.auth_url@) ==> r == Err::<String, LoginError>(
                LoginError::ConfigMalformed,
            ),
            r matches Ok(u) ==> u@ == url_with_query(
                self.config.auth_url@,
                auth_query_pairs(self.config, port, self.state_token@),
            ),
    {
        let mut pairs: Vec<(String, String)> = Vec::new();
        pairs.push(("client_id".to_owned(), self.config.client_id.clone()));
        pairs.push(("redirect_uri".to_owned(), redirect_uri(port)));
        pairs.push(("scope".to_owned(), self.config.scope.clone()));
        pairs.push(("response_type".to_owned(), "code".to_owned()));
        pairs.push(("state".to_owned(), self.state_token.clone()));
        proof {
            assert(pairs.deep_view() =~~= auth_query_pairs(
                self.config,
                port,
                self.state_token@,
            ));
        }
        match append_query_pairs(self.config.auth_url.as_str(), &pairs) {
            Some(u) => Ok(u),
            None => Err(LoginError::ConfigMalformed),
        }
    }

    /// Assembles the token exchange: one POST of the authorization code,
    /// the client credentials and the redirect URL, asking for JSON back.
    pub fn token_request(&self, port: u16, code: &str) -> (r: TokenRequest)
        ensures
            r.url@ == self.config.token_url@,
            r.form.deep_view() == token_form_pairs(self.config, port, code@),
            r.headers.deep_view() == seq![("Accept"@, "application/json"@)],
    {
        let mut form: Vec<(String, String)> = Vec::new();
        form.push(("client_id".to_owned(), self.config.client_id.clone()));
        form.push(("client_secret".to_owned(), self.config.client_secret.clone()));
        form.push(("code".to_owned(), code.to_owned()));
        form.push(("redirect_uri".to_owned(), redirect_uri(port)));
        form.push(("grant_type".to_owned(), "authorization_code".to_owned()));
        let mut headers: Vec<(String, String)> = Vec::new();
        headers.push(("Accept".to_owned(), "application/json".to_owned()));
        proof {
            assert(form.deep_view() =~~= token_form_pairs(self.config, port, code@));
            assert(headers.deep_view() =~~= seq![("Accept"@, "application/json"@)]);
        }
        TokenRequest { url: self.config.token_url.clone(), form, headers }
    }

    /// Assembles the user-info fetch for an access token.
    pub fn profile_request(&self, access_token: &str) -> (r: ProfileRequest)
        ensures
            r.url@ == self.config.user_info_url@,
            r.headers.deep_view() == profile_headers(self.provider, access_token@),
    {
        let mut headers: Vec<(String, String)> = Vec::new();
        headers.push(("Authorization".to_owned(), "Bearer ".to_owned().concat(access_token)));
        match self.provider {
            Provider::Google => {
                headers.push(("Accept".to_owned(), "application/json".to_owned()));
            },
            Provider::Github => {
                headers.push(("Accept".to_owned(), "application/vnd.github.v3+json".to_owned()));
                headers.push(("User-Agent".to_owned(), "oauth-login-app".to_owned()));
            },
        }
        proof {
            assert(headers.deep_view() =~~= profile_headers(self.provider, access_token@));
        }
        ProfileRequest { url: self.config.user_info_url.clone(), headers }
    }

    /// Decides what the token endpoint's answer leads to: a failing
    /// status or a body without an `access_token` string ends the flow,
    /// and only a token in hand yields the user-info fetch.
    pub fn handle_token_response(&self, status: u16, body: &str) -> (r: TokenOutcome)
        ensures
            !is_success_status(status) ==> r == (TokenOutcome::Abort {
                error: LoginError::TokenExchangeFailed(status),
            }),
            is_success_status(status) && json_str_member(body@, "access_token"@) is None ==> r
                == (TokenOutcome::Abort { error: LoginError::TokenResponseMalformed }),
            is_success_status(status) ==> (json_str_member(body@, "access_token"@) matches Some(
                tok,
            ) ==> (r matches (TokenOutcome::Proceed { access_token, request }) && {
                &&& access_token@ == tok
                &&& request.url@ == self.config.user_info_url@
                &&& request.headers.deep_view() == profile_headers(self.provider, tok)
            })),
    {
        if !(200 <= status && status < 300) {
            return TokenOutcome::Abort { error: LoginError::TokenExchangeFailed(status) };
        }
        let access_token = match json_get_str(body, "access_token") {
            Some(t) => t,
            None => return TokenOutcome::Abort { error: LoginError::TokenResponseMalformed },
        };
        let request = self.profile_request(access_token.as_str());
        TokenOutcome::Proceed { access_token, request }
    }

    /// Decides what the user-info endpoint's answer yields: a failing
    /// status or an unparsable body ends the flow, and a parsed body is
    /// mapped to the normalized profile of the chosen provider.
    pub fn handle_profile_response(&self, access_token: &str, status: u16, body: &str) -> (r:
        Result<UserInfo, LoginError>)
        ensures
            !is_success_status(status) ==> r == Err::<UserInfo, LoginError>(
                LoginError::ProfileFetchFailed(status),
            ),
            is_success_status(status) ==> {
                &&& r is Ok <==> json_ok(body@)
                &&& !json_ok(body@) ==> r == Err::<UserInfo, LoginError>(
                    LoginError::ProfileResponseMalformed,
                )
                &&& r matches Ok(u) ==> match self.provider {
                    Provider::Google => google_profile_matches(u, body@, access_token@),
                    Provider::Github => github_profile_matches(u, body@, access_token@),
                }
            },
    {
        if !(200 <= status && status < 300) {
            return Err(LoginError::ProfileFetchFailed(status));
        }
        match self.provider {
            Provider::Google => extract_google_profile(body, access_token),
            Provider::Github => extract_github_profile(body, access_token),
        }
    }
}

} // verus!
