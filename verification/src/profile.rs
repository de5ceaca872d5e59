use vstd::prelude::*;
use crate::errors::LoginError;
use crate::jsontext::{json_doc_ok, json_get_str, json_member_to_text, json_member_text,
    json_ok, json_str_member};

verus! {

/// The normalized profile record returned by a successful login.
#[derive(Clone, Debug)]
pub struct UserInfo {
    pub id: String,
    pub name: String,
    pub email: String,
    pub avatar: Option<String>,
    pub provider: String,
    pub access_token: String,
}

/// The member's contents, or the empty string where it is absent.
pub open spec fn or_empty(m: Option<Seq<char>>) -> Seq<char> {
    match m {
        Some(t) => t,
        None => Seq::empty(),
    }
}

/// The display name a GitHub profile document yields: the `name` member
/// where it is a string, else the `login` member, else the empty string.
pub open spec fn github_name(s: Seq<char>) -> Seq<char> {
    match json_str_member(s, "name"@) {
        Some(n) => n,
        None => or_empty(json_str_member(s, "login"@)),
    }
}

/// The normalized profile a Google user-info document yields: id from
/// `sub`, name from `name`, email from `email`, avatar from `picture`;
/// absent members yield the empty string, an absent avatar stays absent.
pub open spec fn google_profile_matches(u: UserInfo, body: Seq<char>, token: Seq<char>) -> bool {
    &&& u.id@ == or_empty(json_str_member(body, "sub"@))
    &&& u.name@ == or_empty(json_str_member(body, "name"@))
    &&& u.email@ == or_empty(json_str_member(body, "email"@))
    &&& u.avatar.deep_view() == json_str_member(body, "picture"@)
    &&& u.provider@ == "google"@
    &&& u.access_token@ == token
}

/// The normalized profile a GitHub user-info document yields: id is the
/// JSON rendering of the `id` member, name falls back from `name` to
/// `login`, email from `email`, avatar from `avatar_url`.
pub open spec fn github_profile_matches(u: UserInfo, body: Seq<char>, token: Seq<char>) -> bool {
    &&& u.id@ == json_member_text(body, "id"@)
    &&& u.name@ == github_name(body)
    &&& u.email@ == or_empty(json_str_member(body, "email"@))
    &&& u.avatar.deep_view() == json_str_member(body, "avatar_url"@)
    &&& u.provider@ == "github"@
    &&& u.access_token@ == token
}

/// Hands the member's contents on, with the empty string for an absent one.
fn or_empty_str(m: Option<String>) -> (r: String)
    ensures
        r@ == or_empty(m.deep_view()),
{
    match m {
        Some(v) => v,
        None => String::new(),
    }
}

/// Maps a Google user-info document to the normalized profile:
/// id from `sub`, name from `name`, email from `email`, avatar from
/// `picture`; absent members yield the empty string, an absent avatar
/// stays absent.
pub fn extract_google_profile(body: &str, access_token: &str) -> (r: Result<
    UserInfo,
    LoginError,
>)
    ensures
        r is Ok <==> json_ok(body@),
        !json_ok(body@) ==> r == Err::<UserInfo, LoginError>(LoginError::ProfileResponseMalformed),
        r matches Ok(u) ==> google_profile_matches(u, body@, access_token@),
{
    if !json_doc_ok(body) {
        return Err(LoginError::ProfileResponseMalformed);
    }
    Ok(
        UserInfo {
            id: or_empty_str(json_get_str(body, "sub")),
            name: or_empty_str(json_get_str(body, "name")),
            email: or_empty_str(json_get_str(body, "email")),
            avatar: json_get_str(body, "picture"),
            provider: "google".to_owned(),
            access_token: access_token.to_owned(),
        },
    )
}

/// Maps a GitHub user-info document to the normalized profile:
/// id is the JSON rendering of the `id` member, name falls back from
/// `name` to `login`, email from `email`, avatar from `avatar_url`.
pub fn extract_github_profile(body: &str, access_token: &str) -> (r: Result<
    UserInfo,
    LoginError,
>)
    ensures
        r is Ok <==> json_ok(body@),
        !json_ok(body@) ==> r == Err::<UserInfo, LoginError>(LoginError::ProfileResponseMalformed),
        r matches Ok(u) ==> github_profile_matches(u, body@, access_token@),
{
    if !json_doc_ok(body) {
        return Err(LoginError::ProfileResponseMalformed);
    }
    let name = match json_get_str(body, "name") {
        Some(n) => n,
        None => or_empty_str(json_get_str(body, "login")),
    };
    Ok(
        UserInfo {
            id: json_member_to_text(body, "id"),
            name,
            email: or_empty_str(json_get_str(body, "email")),
            avatar: json_get_str(body, "avatar_url"),
            provider: "github".to_owned(),
            access_token: access_token.to_owned(),
        },
    )
}

} // verus!
