pub mod config;
pub mod digits;
pub mod errors;
pub mod flow;
pub mod jsontext;
pub mod profile;
pub mod statetoken;
pub mod urlq;

pub use config::{load_oauth_configs, OAuthConfig, OAuthConfigs};
pub use errors::LoginError;
pub use flow::{extract_code_from_redirect, server_listener_plan, start_login, ListenerPlan, LoginFlow, ProfileRequest, Provider, TokenOutcome, TokenRequest};
pub use profile::{extract_github_profile, extract_google_profile, UserInfo};
pub use statetoken::generate_random_string;
