use snoo::error::{check_status, ApiError};
use snoo::models::AuthResponse;
use snoo::reddit_api::{
    authorize, create_authorization_url, OAuthGrantType, RedditApiAuthenticationUrl,
    RedditApiScope, AUTH_STATE_LEN,
};

fn auth_response(error: Option<&str>, token: Option<&str>) -> AuthResponse {
    AuthResponse {
        error: error.map(|s| s.to_string()),
        access_token: token.map(|s| s.to_string()),
        token_type: Some("bearer".to_string()),
        expires_in: Some(3600),
        scope: Some("*".to_string()),
    }
}

#[test]
fn status_accepts_success_codes_only() {
    assert_eq!(check_status(200), Ok(()));
    assert_eq!(check_status(204), Ok(()));
    assert_eq!(check_status(299), Ok(()));
    assert_eq!(check_status(199), Err(ApiError::HttpStatus(199)));
    assert_eq!(check_status(300), Err(ApiError::HttpStatus(300)));
    assert_eq!(check_status(404), Err(ApiError::HttpStatus(404)));
    assert_eq!(check_status(500), Err(ApiError::HttpStatus(500)));
}

#[test]
fn authorize_takes_the_token() {
    assert_eq!(
        authorize(auth_response(None, Some("SECRET-REDACTED"))),
        Ok("SECRET-REDACTED".to_string())
    );
}

#[test]
fn authorize_reports_the_server_error() {
    assert_eq!(
        authorize(auth_response(Some("invalid_grant"), Some("t"))),
        Err(ApiError::Auth("invalid_grant".to_string()))
    );
}

#[test]
fn authorize_refuses_a_missing_token() {
    assert_eq!(
        authorize(auth_response(None, None)),
        Err(ApiError::Auth("Failed to get access token.".to_string()))
    );
}

#[test]
fn password_grant_params() {
    let grant = OAuthGrantType::Password { username: "user", password: "SECRET-REDACTED" };
    assert_eq!(
        grant.as_params(),
        vec![
            ("grant_type", "password"),
            ("username", "user"),
            ("password", "SECRET-REDACTED"),
        ]
    );
}

#[test]
fn code_grant_params() {
    let grant = OAuthGrantType::AutherizationCode {
        code: "abc",
        redirect_url: "https://example.invalid/cb",
    };
    assert_eq!(
        grant.as_params(),
        vec![
            ("grant_type", "authorization_code"),
            ("code", "abc"),
            ("redirect_uri", "https://example.invalid/cb"),
        ]
    );
}

#[test]
fn all_scopes_in_order() {
    let all = RedditApiScope::all();
    assert_eq!(all.len(), 20);
    assert_eq!(all[0], RedditApiScope::Identity);
    assert_eq!(all[19], RedditApiScope::ModWiki);
    assert_eq!(all[0].as_str(), "identity");
    assert_eq!(RedditApiScope::ModPost.as_str(), "modposts");
    assert_eq!(RedditApiScope::PrivateMessages.as_str(), "privatemessages");
}

#[test]
fn scope_join_forms() {
    assert_eq!(RedditApiScope::join(&[]), "");
    assert_eq!(RedditApiScope::join(&[RedditApiScope::Identity]), "identity");
    assert_eq!(
        RedditApiScope::join(&[RedditApiScope::Identity, RedditApiScope::Edit, RedditApiScope::Read]),
        "identity,edit,read"
    );
}

#[test]
fn authentication_url_getters() {
    let u = RedditApiAuthenticationUrl::new(
        "id1".to_string(),
        "https://example.invalid/cb".to_string(),
        Some("st4te".to_string()),
    );
    assert_eq!(u.id(), "id1");
    assert_eq!(u.redirect_url(), "https://example.invalid/cb");
    assert_eq!(u.state(), Some("st4te"));
    let bare = RedditApiAuthenticationUrl::new("id2".to_string(), "r".to_string(), None);
    assert_eq!(bare.state(), None);
}

#[test]
fn authorization_url_pairs_and_state() {
    let (ep, auth) = create_authorization_url(
        "client-id",
        &[RedditApiScope::Identity, RedditApiScope::Read],
        "https://example.invalid/cb",
    );
    assert_eq!(ep.path, "api/v1/authorize/");
    let names: Vec<&str> = ep.pairs.iter().map(|p| p.0.as_str()).collect();
    assert_eq!(
        names,
        vec!["response_type", "duration", "client_id", "state", "redirect_uri", "scope"]
    );
    assert_eq!(ep.pairs[0].1, "code");
    assert_eq!(ep.pairs[1].1, "permanent");
    assert_eq!(ep.pairs[2].1, "client-id");
    assert_eq!(ep.pairs[4].1, "https://example.invalid/cb");
    assert_eq!(ep.pairs[5].1, "identity,read");
    let state = auth.state().expect("a state token is always attached");
    assert_eq!(state.len(), AUTH_STATE_LEN);
    assert!(state.chars().all(|c| c.is_ascii_alphanumeric()));
    assert_eq!(ep.pairs[3].1, state);
    assert_eq!(auth.id(), "client-id");
}

#[test]
fn fresh_states_differ_over_draws() {
    // a fixed echo of the length argument would pass the length check; over
    // many draws the tokens must not all collide
    let mut seen = std::collections::HashSet::new();
    for _ in 0..32 {
        let (_, auth) = create_authorization_url("id", &[], "r");
        seen.insert(auth.state().unwrap().to_string());
    }
    assert!(seen.len() > 1);
}
