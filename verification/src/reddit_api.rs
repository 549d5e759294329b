//! Authorization flows of the API: grant parameters, scopes, the
//! authorization URL, and what a token response means.
//!
//! Issuing the token request itself is transport work and stays with the
//! application; everything here decides, over plain values, what is sent
//! and how the answer is read.

use vstd::prelude::*;

use crate::endpoints::{Endpoint, EndpointBase, EndpointBuilder};
use crate::error::ApiError;
use crate::models::AuthResponse;
use rand::distr::{Alphanumeric, SampleString};

verus! {

/// Length of the random `state` token attached to an authorization URL.
pub const AUTH_STATE_LEN: usize = 5;

/// Whether `c` is an ASCII letter or digit.
pub open spec fn is_alnum_char(c: char) -> bool {
    (97 <= c as int <= 122) || (65 <= c as int <= 90) || (48 <= c as int <= 57)
}

/// Relies on rand's `Alphanumeric::sample_string`: it returns a string of
/// exactly `len` characters, each drawn from a-z, A-Z and 0-9.
#[verifier::external_body]
fn random_alphanumeric(len: usize) -> (r: String)
    ensures
        r@.len() == len,
        forall|i: int| 0 <= i < r@.len() ==> is_alnum_char(#[trigger] r@[i]),
{
    Alphanumeric.sample_string(&mut rand::rng(), len)
}

/// Reads a token-endpoint response: the server's reported error wins, then
/// a missing token is itself an error, and otherwise the access token is
/// handed back unchanged.
pub fn authorize(auth: AuthResponse) -> (r: Result<String, ApiError>)
    ensures
        auth.error matches Some(e) ==> (r matches Err(ApiError::Auth(m)) && m@ == e@),
        auth.error is None && auth.access_token is Some ==> r == Result::<String, ApiError>::Ok(
            auth.access_token->0,
        ),
        auth.error is None && auth.access_token is None ==> (r matches Err(ApiError::Auth(m))
            && m@ == "Failed to get access token."@),
{
    if let Some(err) = auth.error {
        return Err(ApiError::Auth(err));
    }
    match auth.access_token {
        Some(token) => Ok(token),
        None => Err(ApiError::Auth("Failed to get access token.".to_owned())),
    }
}

/// The callback an application listens on for its authorization code.
#[derive(Debug, Clone)]
pub struct RedditApiAuthenticationUrl {
    pub id: String,
    pub redirect_url: String,
    pub state: Option<String>,
}

impl RedditApiAuthenticationUrl {
    pub fn new(id: String, redirect_url: String, state: Option<String>) -> (r: Self)
        ensures
            r.id == id,
            r.redirect_url == redirect_url,
            r.state == state,
    {
        Self { id, redirect_url, state }
    }

    pub fn redirect_url(&self) -> (r: &str)
        ensures
            r@ == self.redirect_url@,
    {
        self.redirect_url.as_str()
    }

    pub fn state(&self) -> (r: Option<&str>)
        ensures
            r is Some <==> self.state is Some,
            r matches Some(s) ==> s@ == self.state->0@,
    {
        match &self.state {
            Some(s) => Some(s.as_str()),
            None => None,
        }
    }

    pub fn id(&self) -> (r: &str)
        ensures
            r@ == self.id@,
    {
        self.id.as_str()
    }
}

/// Which OAuth grant a token request asks for.
#[derive(Debug, Clone)]
pub enum OAuthGrantType<'a> {
    Password { username: &'a str, password: &'a str },
    AutherizationCode { code: &'a str, redirect_url: &'a str },
}

impl<'r> OAuthGrantType<'r> {
    /// The form fields this grant sends to the token endpoint, in order.
    pub fn as_params(&self) -> (r: Vec<(&'r str, &'r str)>)
        ensures
            r@.len() == 3,
            r@[0].0@ == "grant_type"@,
            self matches OAuthGrantType::Password { username, password } ==> {
                &&& r@[0].1@ == "password"@
                &&& r@[1].0@ == "username"@ && r@[1].1@ == username@
                &&& r@[2].0@ == "password"@ && r@[2].1@ == password@
            },
            self matches OAuthGrantType::AutherizationCode { code, redirect_url } ==> {
                &&& r@[0].1@ == "authorization_code"@
                &&& r@[1].0@ == "code"@ && r@[1].1@ == code@
                &&& r@[2].0@ == "redirect_uri"@ && r@[2].1@ == redirect_url@
            },
    {
        match self {
            OAuthGrantType::Password { username, password } => vec![
                ("grant_type", "password"),
                ("username", *username),
                ("password", *password),
            ],
            OAuthGrantType::AutherizationCode { code, redirect_url } => vec![
                ("grant_type", "authorization_code"),
                ("code", *code),
                ("redirect_uri", *redirect_url),
            ],
        }
    }
}

/// A permission the application may ask for.
#[derive(Debug, Clone, Copy, PartialEq, Eq, Structural)]
pub enum RedditApiScope {
    Identity,
    Edit,
    Flair,
    History,
    PrivateMessages,
    Read,
    Report,
    Save,
    Submit,
    Subscribe,
    Vote,
    WikiEdit,
    WikiRead,
    Account,
    MySubreddits,
    ModConfig,
    ModFlair,
    ModLog,
    ModPost,
    ModWiki,
}

/// The wire name of a scope.
pub open spec fn spec_scope_str(s: RedditApiScope) -> Seq<char> {
    match s {
        RedditApiScope::Identity => "identity"@,
        RedditApiScope::Edit => "edit"@,
        RedditApiScope::Flair => "flair"@,
        RedditApiScope::History => "history"@,
        RedditApiScope::PrivateMessages => "privatemessages"@,
        RedditApiScope::Read => "read"@,
        RedditApiScope::Report => "report"@,
        RedditApiScope::Save => "save"@,
        RedditApiScope::Submit => "submit"@,
        RedditApiScope::Subscribe => "subscribe"@,
        RedditApiScope::Vote => "vote"@,
        RedditApiScope::WikiEdit => "wikiedit"@,
        RedditApiScope::WikiRead => "wikiread"@,
        RedditApiScope::Account => "account"@,
        RedditApiScope::MySubreddits => "mysubreddits"@,
        RedditApiScope::ModConfig => "modconfig"@,
        RedditApiScope::ModFlair => "modflair"@,
        RedditApiScope::ModLog => "modlog"@,
        RedditApiScope::ModPost => "modposts"@,
        RedditApiScope::ModWiki => "modwiki"@,
    }
}

/// The comma-separated form of a scope list, in order.
pub open spec fn join_scopes(s: Seq<RedditApiScope>) -> Seq<char>
    decreases s.len(),
{
    if s.len() == 0 {
        Seq::empty()
    } else if s.len() == 1 {
        spec_scope_str(s[0])
    } else {
        join_scopes(s.drop_last()) + ","@ + spec_scope_str(s.last())
    }
}

impl RedditApiScope {
    /// Every scope there is, in declaration order.
    pub fn all() -> (r: Vec<RedditApiScope>)
        ensures
            r@ == seq![
                RedditApiScope::Identity,
                RedditApiScope::Edit,
                RedditApiScope::Flair,
                RedditApiScope::History,
                RedditApiScope::PrivateMessages,
                RedditApiScope::Read,
                RedditApiScope::Report,
                RedditApiScope::Save,
                RedditApiScope::Submit,
                RedditApiScope::Subscribe,
                RedditApiScope::Vote,
                RedditApiScope::WikiEdit,
                RedditApiScope::WikiRead,
                RedditApiScope::Account,
                RedditApiScope::MySubreddits,
                RedditApiScope::ModConfig,
                RedditApiScope::ModFlair,
                RedditApiScope::ModLog,
                RedditApiScope::ModPost,
                RedditApiScope::ModWiki,
            ],
    {
        let r = vec![
            RedditApiScope::Identity,
            RedditApiScope::Edit,
            RedditApiScope::Flair,
            RedditApiScope::History,
            RedditApiScope::PrivateMessages,
            RedditApiScope::Read,
            RedditApiScope::Report,
            RedditApiScope::Save,
            RedditApiScope::Submit,
            RedditApiScope::Subscribe,
            RedditApiScope::Vote,
            RedditApiScope::WikiEdit,
            RedditApiScope::WikiRead,
            RedditApiScope::Account,
            RedditApiScope::MySubreddits,
            RedditApiScope::ModConfig,
            RedditApiScope::ModFlair,
            RedditApiScope::ModLog,
            RedditApiScope::ModPost,
            RedditApiScope::ModWiki,
        ];
        proof {
            assert(r@ =~= seq![
                RedditApiScope::Identity,
                RedditApiScope::Edit,
                RedditApiScope::Flair,
                RedditApiScope::History,
                RedditApiScope::PrivateMessages,
                RedditApiScope::Read,
                RedditApiScope::Report,
                RedditApiScope::Save,
                RedditApiScope::Submit,
                RedditApiScope::Subscribe,
                RedditApiScope::Vote,
                RedditApiScope::WikiEdit,
                RedditApiScope::WikiRead,
                RedditApiScope::Account,
                RedditApiScope::MySubreddits,
                RedditApiScope::ModConfig,
                RedditApiScope::ModFlair,
                RedditApiScope::ModLog,
                RedditApiScope::ModPost,
                RedditApiScope::ModWiki,
            ]);
        }
        r
    }

    pub fn as_str(&self) -> (r: &'static str)
        ensures
            r@ == spec_scope_str(*self),
    {
        match self {
            RedditApiScope::Identity => "identity",
            RedditApiScope::Edit => "edit",
            RedditApiScope::Flair => "flair",
            RedditApiScope::History => "history",
            RedditApiScope::PrivateMessages => "privatemessages",
            RedditApiScope::Read => "read",
            RedditApiScope::Report => "report",
            RedditApiScope::Save => "save",
            RedditApiScope::Submit => "submit",
            RedditApiScope::Subscribe => "subscribe",
            RedditApiScope::Vote => "vote",
            RedditApiScope::WikiEdit => "wikiedit",
            RedditApiScope::WikiRead => "wikiread",
            RedditApiScope::Account => "account",
            RedditApiScope::MySubreddits => "mysubreddits",
            RedditApiScope::ModConfig => "modconfig",
            RedditApiScope::ModFlair => "modflair",
            RedditApiScope::ModLog => "modlog",
            RedditApiScope::ModPost => "modposts",
            RedditApiScope::ModWiki => "modwiki",
        }
    }

    /// Renders a scope list as the comma-separated string sent on the wire.
    pub fn join(scope: &[RedditApiScope]) -> (r: String)
        ensures
            r@ == join_scopes(scope@),
    {
        let mut out = String::new();
        let mut i: usize = 0;
        while i < scope.len()
            invariant
                0 <= i <= scope@.len(),
                out@ == join_scopes(scope@.subrange(0, i as int)),
            decreases scope@.len() - i,
        {
            if i > 0 {
                out.append(",");
            }
            out.append(scope[i].as_str());
            proof {
                let pre = scope@.subrange(0, i as int);
                let cur = scope@.subrange(0, i + 1 as int);
                assert(cur.drop_last() =~= pre);
                assert(cur.last() == scope@[i as int]);
                if i == 0 {
                    assert(cur.len() == 1);
                }
            }
            i = i + 1;
        }
        proof {
            assert(scope@.subrange(0, scope@.len() as int) =~= scope@);
        }
        out
    }
}

/// Builds the authorization URL an application sends its user to: the
/// `api/v1/authorize/` endpoint with the grant parameters and a fresh
/// random `state` token, together with the callback description that the
/// application keeps to match the answer.
pub fn create_authorization_url(id: &str, scope: &[RedditApiScope], redirect_url: &str) -> (r: (
    Endpoint,
    RedditApiAuthenticationUrl,
))
    ensures
        r.0.base == EndpointBase::SSL,
        r.0.path@ == "api/v1/authorize/"@,
        r.0.pairs@.len() == 6,
        r.0.pairs@[0].0@ == "response_type"@ && r.0.pairs@[0].1@ == "code"@,
        r.0.pairs@[1].0@ == "duration"@ && r.0.pairs@[1].1@ == "permanent"@,
        r.0.pairs@[2].0@ == "client_id"@ && r.0.pairs@[2].1@ == id@,
        r.0.pairs@[3].0@ == "state"@,
        r.0.pairs@[4].0@ == "redirect_uri"@ && r.0.pairs@[4].1@ == redirect_url@,
        r.0.pairs@[5].0@ == "scope"@ && r.0.pairs@[5].1@ == join_scopes(scope@),
        r.1.id@ == id@,
        r.1.redirect_url@ == redirect_url@,
        r.1.state matches Some(st) && st@.len() == AUTH_STATE_LEN && r.0.pairs@[3].1@ == st@,
        forall|i: int|
            0 <= i < AUTH_STATE_LEN ==> is_alnum_char(#[trigger] r.1.state->0@[i]),
{
    let scope_str = RedditApiScope::join(scope);
    let state = random_alphanumeric(AUTH_STATE_LEN);
    let ep = Endpoint::new(EndpointBase::SSL, EndpointBuilder::new("api/v1/authorize/"))
        .add_query_pair("response_type", "code")
        .add_query_pair("duration", "permanent")
        .add_query_pair("client_id", id)
        .add_query_pair("state", state.as_str())
        .add_query_pair("redirect_uri", redirect_url)
        .add_query_pair("scope", scope_str.as_str());
    let auth = RedditApiAuthenticationUrl::new(
        id.to_owned(),
        redirect_url.to_owned(),
        Some(state),
    );
    (ep, auth)
}

} // verus!
