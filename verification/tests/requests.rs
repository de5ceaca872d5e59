use oauth_login::{server_listener_plan, start_login, LoginError};

fn config_text() -> &'static str {
    r#"{
        "google": {
            "client_id": "cid123",
            "client_secret": "sec",
            "auth_url": "https://accounts.example.com/auth",
            "token_url": "https://accounts.example.com/token",
            "user_info_url": "https://accounts.example.com/userinfo",
            "scope": "email"
        },
        "github": {
            "client_id": "hcid",
            "client_secret": "hsec",
            "auth_url": "https://github.example.com/authorize",
            "token_url": "https://github.example.com/access_token",
            "user_info_url": "https://api.github.example.com/user",
            "scope": "read:user"
        }
    }"#
}

#[test]
fn authorization_url_carries_the_five_parameters_encoded() {
    let (flow, _) = start_login("google", Some(config_text())).ok().unwrap();
    let url = flow.authorization_url(8000).unwrap();
    let expected_prefix = "https://accounts.example.com/auth?client_id=cid123\
        &redirect_uri=http%3A%2F%2Flocalhost%3A8000&scope=email&response_type=code&state=";
    assert!(url.starts_with(expected_prefix), "got {url}");
    assert_eq!(&url[expected_prefix.len()..], flow.state_token.as_str());
}

#[test]
fn authorization_url_with_unparsable_endpoint_yields_config_malformed() {
    let mut pair = start_login("google", Some(config_text())).ok().unwrap();
    pair.0.config.auth_url = "not a url".to_string();
    assert_eq!(pair.0.authorization_url(8000).unwrap_err(), LoginError::ConfigMalformed);
}

#[test]
fn token_request_posts_the_form_the_exchange_needs() {
    let (flow, _) = start_login("google", Some(config_text())).ok().unwrap();
    let req = flow.token_request(8001, "CODE9");
    assert_eq!(req.url, "https://accounts.example.com/token");
    assert_eq!(
        req.form,
        vec![
            ("client_id".to_string(), "cid123".to_string()),
            ("client_secret".to_string(), "sec".to_string()),
            ("code".to_string(), "CODE9".to_string()),
            ("redirect_uri".to_string(), "http://localhost:8001".to_string()),
            ("grant_type".to_string(), "authorization_code".to_string()),
        ]
    );
    assert_eq!(req.headers, vec![("Accept".to_string(), "application/json".to_string())]);
}

#[test]
fn google_profile_request_is_bearer_authenticated_json() {
    let (flow, _) = start_login("google", Some(config_text())).ok().unwrap();
    let req = flow.profile_request("tok1");
    assert_eq!(req.url, "https://accounts.example.com/userinfo");
    assert_eq!(
        req.headers,
        vec![
            ("Authorization".to_string(), "Bearer tok1".to_string()),
            ("Accept".to_string(), "application/json".to_string()),
        ]
    );
}

#[test]
fn github_profile_request_adds_media_type_and_user_agent() {
    let (flow, _) = start_login("github", Some(config_text())).ok().unwrap();
    let req = flow.profile_request("tok2");
    assert_eq!(req.url, "https://api.github.example.com/user");
    assert_eq!(
        req.headers,
        vec![
            ("Authorization".to_string(), "Bearer tok2".to_string()),
            ("Accept".to_string(), "application/vnd.github.v3+json".to_string()),
            ("User-Agent".to_string(), "oauth-login-app".to_string()),
        ]
    );
}

#[test]
fn server_listener_plan_uses_the_fixed_ports_and_page() {
    let plan = server_listener_plan();
    assert_eq!(plan.ports, vec![8000, 8001, 8002]);
    assert_eq!(plan.response_body, "Login successful. You can close this window.");
}

#[test]
fn error_messages_render_the_status() {
    assert_eq!(
        LoginError::TokenExchangeFailed(400).message(),
        "Failed to exchange code for token: 400"
    );
    assert_eq!(LoginError::ProfileFetchFailed(503).message(), "Failed to get user info: 503");
    assert_eq!(LoginError::ConfigUnavailable.message(), "cannot find config");
    assert_eq!(LoginError::ListenerUnavailable.message(), "Failed to start the local listener");
    assert_eq!(LoginError::BrowserLaunchFailed.message(), "Failed to open the browser");
    assert_eq!(
        LoginError::TokenExchangeTransportError.message(),
        "Failed to exchange code for token: transport error"
    );
    assert_eq!(
        LoginError::ProfileFetchTransportError.message(),
        "Failed to get user info: transport error"
    );
}
