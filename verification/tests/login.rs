use oauth_login::{
    extract_code_from_redirect, generate_random_string, load_oauth_configs, start_login,
    LoginError, Provider, TokenOutcome,
};

fn config_text() -> &'static str {
    r#"{
        "google": {
            "client_id": "gcid",
            "client_secret": "gsecret",
            "auth_url": "https://accounts.example.com/auth",
            "token_url": "https://accounts.example.com/token",
            "user_info_url": "https://accounts.example.com/userinfo",
            "scope": "openid email"
        },
        "github": {
            "client_id": "hcid",
            "client_secret": "hsecret",
            "auth_url": "https://github.example.com/authorize",
            "token_url": "https://github.example.com/access_token",
            "user_info_url": "https://api.github.example.com/user",
            "scope": "read:user"
        }
    }"#
}

#[test]
fn load_wellformed_config_google_fields_verbatim() {
    let configs = load_oauth_configs(Some(config_text())).unwrap();
    assert_eq!(configs.google.client_id, "gcid");
    assert_eq!(configs.google.client_secret, "gsecret");
    assert_eq!(configs.google.auth_url, "https://accounts.example.com/auth");
    assert_eq!(configs.google.token_url, "https://accounts.example.com/token");
    assert_eq!(configs.google.user_info_url, "https://accounts.example.com/userinfo");
    assert_eq!(configs.google.scope, "openid email");
}

#[test]
fn load_wellformed_config_github_fields_verbatim() {
    let configs = load_oauth_configs(Some(config_text())).unwrap();
    assert_eq!(configs.github.client_id, "hcid");
    assert_eq!(configs.github.client_secret, "hsecret");
    assert_eq!(configs.github.auth_url, "https://github.example.com/authorize");
    assert_eq!(configs.github.token_url, "https://github.example.com/access_token");
    assert_eq!(configs.github.user_info_url, "https://api.github.example.com/user");
    assert_eq!(configs.github.scope, "read:user");
}

#[test]
fn load_missing_config_yields_config_unavailable() {
    assert_eq!(load_oauth_configs(None).unwrap_err(), LoginError::ConfigUnavailable);
}

#[test]
fn load_invalid_json_yields_config_malformed() {
    let r = load_oauth_configs(Some("{ not json at all"));
    assert_eq!(r.unwrap_err(), LoginError::ConfigMalformed);
}

#[test]
fn load_config_with_missing_field_yields_config_malformed() {
    let text = r#"{"google": {"client_id": "x"}, "github": {"client_id": "y"}}"#;
    assert_eq!(load_oauth_configs(Some(text)).unwrap_err(), LoginError::ConfigMalformed);
}

#[test]
fn load_config_with_non_string_field_yields_config_malformed() {
    let text = config_text().replace("\"gcid\"", "17");
    assert_eq!(load_oauth_configs(Some(&text)).unwrap_err(), LoginError::ConfigMalformed);
}

#[test]
fn unsupported_provider_rejected_before_any_listener() {
    let r = start_login("unsupported", Some(config_text()));
    assert_eq!(r.err().unwrap(), LoginError::UnsupportedProvider);
}

#[test]
fn start_login_google_selects_google_section() {
    let (flow, plan) = start_login("google", Some(config_text())).ok().unwrap();
    assert_eq!(flow.provider, Provider::Google);
    assert_eq!(flow.config.client_id, "gcid");
    assert_eq!(plan.ports, vec![8000, 8001, 8002]);
    assert_eq!(plan.response_body, "OAuth process completed. You can close this window.");
    assert_eq!(flow.state_token.len(), 16);
}

#[test]
fn start_login_github_selects_github_section() {
    let (flow, _plan) = start_login("github", Some(config_text())).ok().unwrap();
    assert_eq!(flow.provider, Provider::Github);
    assert_eq!(flow.config.client_id, "hcid");
}

#[test]
fn start_login_without_config_fails_before_provider_check() {
    assert_eq!(start_login("unsupported", None).err().unwrap(), LoginError::ConfigUnavailable);
}

#[test]
fn code_extraction_picks_the_code_parameter() {
    let r = extract_code_from_redirect("http://localhost:8000/?code=ABC123&state=XYZ");
    assert_eq!(r.unwrap(), "ABC123");
}

#[test]
fn code_extraction_without_code_yields_missing_authorization_code() {
    let r = extract_code_from_redirect("http://localhost:8000/?state=XYZ");
    assert_eq!(r.unwrap_err(), LoginError::MissingAuthorizationCode);
}

#[test]
fn code_extraction_on_unparsable_url_yields_redirect_parse_error() {
    let r = extract_code_from_redirect("http//no-scheme");
    assert_eq!(r.unwrap_err(), LoginError::RedirectParseError);
}

#[test]
fn code_extraction_decodes_percent_encoding() {
    let r = extract_code_from_redirect("http://localhost:8001/?code=a%2Fb&state=s");
    assert_eq!(r.unwrap(), "a/b");
}

#[test]
fn token_response_http_400_yields_token_exchange_failed_without_profile_fetch() {
    let (flow, _) = start_login("google", Some(config_text())).ok().unwrap();
    match flow.handle_token_response(400, r#"{"access_token":"tok1"}"#) {
        TokenOutcome::Abort { error } => {
            assert_eq!(error, LoginError::TokenExchangeFailed(400));
        }
        TokenOutcome::Proceed { .. } => panic!("a failing status must not reach the profile fetch"),
    }
}

#[test]
fn token_response_without_access_token_yields_token_response_malformed() {
    let (flow, _) = start_login("google", Some(config_text())).ok().unwrap();
    match flow.handle_token_response(200, r#"{"token_type":"bearer"}"#) {
        TokenOutcome::Abort { error } => assert_eq!(error, LoginError::TokenResponseMalformed),
        TokenOutcome::Proceed { .. } => panic!("a body without access_token must abort"),
    }
}

#[test]
fn token_response_with_unparsable_body_yields_token_response_malformed() {
    let (flow, _) = start_login("google", Some(config_text())).ok().unwrap();
    match flow.handle_token_response(200, "not json") {
        TokenOutcome::Abort { error } => assert_eq!(error, LoginError::TokenResponseMalformed),
        TokenOutcome::Proceed { .. } => panic!("an unparsable body must abort"),
    }
}

#[test]
fn google_happy_path_yields_the_normalized_profile() {
    let (flow, _) = start_login("google", Some(config_text())).ok().unwrap();
    let access_token = match flow.handle_token_response(200, r#"{"access_token":"tok1"}"#) {
        TokenOutcome::Proceed { access_token, request } => {
            assert_eq!(request.url, "https://accounts.example.com/userinfo");
            access_token
        }
        TokenOutcome::Abort { .. } => panic!("a token was owed"),
    };
    assert_eq!(access_token, "tok1");
    let body = r#"{"sub":"42","name":"Ada","email":"a@example.com","picture":"http://x/y.png"}"#;
    let user = flow.handle_profile_response(&access_token, 200, body).unwrap();
    assert_eq!(user.id, "42");
    assert_eq!(user.name, "Ada");
    assert_eq!(user.email, "a@example.com");
    assert_eq!(user.avatar, Some("http://x/y.png".to_string()));
    assert_eq!(user.provider, "google");
    assert_eq!(user.access_token, "tok1");
}

#[test]
fn github_profile_falls_back_to_login_and_empty_email() {
    let (flow, _) = start_login("github", Some(config_text())).ok().unwrap();
    let body = r#"{"id":7,"login":"adal","avatar_url":"http://x/z.png"}"#;
    let user = flow.handle_profile_response("tok2", 200, body).unwrap();
    assert_eq!(user.id, "7");
    assert_eq!(user.name, "adal");
    assert_eq!(user.email, "");
    assert_eq!(user.avatar, Some("http://x/z.png".to_string()));
    assert_eq!(user.provider, "github");
    assert_eq!(user.access_token, "tok2");
}

#[test]
fn github_profile_prefers_name_over_login() {
    let (flow, _) = start_login("github", Some(config_text())).ok().unwrap();
    let body = r#"{"id":7,"login":"adal","name":"Ada Lovelace"}"#;
    let user = flow.handle_profile_response("tok2", 200, body).unwrap();
    assert_eq!(user.name, "Ada Lovelace");
    assert_eq!(user.avatar, None);
}

#[test]
fn profile_response_http_500_yields_profile_fetch_failed() {
    let (flow, _) = start_login("google", Some(config_text())).ok().unwrap();
    let r = flow.handle_profile_response("tok", 500, "{}");
    assert_eq!(r.unwrap_err(), LoginError::ProfileFetchFailed(500));
}

#[test]
fn profile_response_with_unparsable_body_yields_profile_response_malformed() {
    let (flow, _) = start_login("google", Some(config_text())).ok().unwrap();
    let r = flow.handle_profile_response("tok", 200, "<html>");
    assert_eq!(r.unwrap_err(), LoginError::ProfileResponseMalformed);
}

#[test]
fn provider_names_render() {
    assert_eq!(Provider::Google.name(), "google");
    assert_eq!(Provider::Github.name(), "github");
}

#[test]
fn google_profile_without_picture_has_no_avatar_and_empty_fields() {
    let user = oauth_login::extract_google_profile(r#"{"sub":"s1"}"#, "t").unwrap();
    assert_eq!(user.id, "s1");
    assert_eq!(user.name, "");
    assert_eq!(user.email, "");
    assert_eq!(user.avatar, None);
    assert_eq!(user.provider, "google");
    assert_eq!(user.access_token, "t");
}

#[test]
fn github_id_is_the_json_rendering_of_the_member() {
    let numeric = oauth_login::extract_github_profile(r#"{"id":7,"login":"l"}"#, "t").unwrap();
    assert_eq!(numeric.id, "7");
    let quoted = oauth_login::extract_github_profile(r#"{"id":"abc","login":"l"}"#, "t").unwrap();
    assert_eq!(quoted.id, "\"abc\"");
    let absent = oauth_login::extract_github_profile(r#"{"login":"l"}"#, "t").unwrap();
    assert_eq!(absent.id, "null");
}

#[test]
fn generated_state_is_long_alphanumeric_and_fresh() {
    let a = generate_random_string(16);
    let b = generate_random_string(16);
    assert_eq!(a.len(), 16);
    assert_eq!(b.len(), 16);
    assert!(a.chars().all(|c| c.is_ascii_alphanumeric()));
    assert!(b.chars().all(|c| c.is_ascii_alphanumeric()));
    assert_ne!(a, b);
}
