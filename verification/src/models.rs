//! Plain data models for the JSON API.
//!
//! These mirror the wire format of the API's responses.  The surrounding
//! application deserializes JSON into its own copies of these shapes and
//! hands the values over unchanged; everything this library states about a
//! response is stated over these fields.

use vstd::prelude::*;

verus! {

/// One element of a listing: the wire format wraps every object in
/// `{kind, data}`.
#[derive(Debug, Clone, PartialEq)]
pub struct RedditResponseGeneric<T> {
    pub kind: String,
    pub data: T,
}

/// The `data` part of a collection-returning response:
/// `{modhash, dist, children: [{kind, data}, ...]}`.
#[derive(Debug, Clone, PartialEq)]
pub struct ListingData<T> {
    pub modhash: Option<String>,
    pub dist: Option<i32>,
    pub children: Vec<RedditResponseGeneric<T>>,
}

impl<T> ListingData<T> {
    /// Unwraps every child of the listing, in order.
    pub fn inner_children(self) -> (r: Vec<T>)
        ensures
            r@.len() == self.children@.len(),
            forall|i: int|
                0 <= i < r@.len() ==> r@[i] == self.children@[i].data,
    {
        let ghost orig = self.children@;
        let mut children = self.children;
        let mut out: Vec<T> = Vec::new();
        while children.len() > 0
            invariant
                out@.len() + children@.len() == orig.len(),
                children@ == orig.subrange(out@.len() as int, orig.len() as int),
                forall|i: int| 0 <= i < out@.len() ==> out@[i] == orig[i].data,
            decreases children@.len(),
        {
            let c = children.remove(0);
            assert(c == orig[out@.len() as int]);
            out.push(c.data);
            assert(children@ =~= orig.subrange(out@.len() as int, orig.len() as int));
        }
        out
    }
}

/// A listing envelope together with the cursor tokens of the page it holds.
#[derive(Debug, Clone, PartialEq)]
pub struct SearchInfo<T> {
    pub results: ListingData<T>,
    pub after: Option<String>,
    pub before: Option<String>,
}

/// A response with no payload.
#[derive(Debug, Clone, PartialEq)]
pub struct EmptyResponse();

/// The `json` section of a write-request response.
#[derive(Debug, Clone, PartialEq)]
pub struct RedditPostResponseJson<T> {
    pub errors: Vec<String>,
    pub data: Option<T>,
}

/// Response of a write request: `{json: {errors, data}}`.
#[derive(Debug, Clone, PartialEq)]
pub struct RedditPostResponse<T> {
    pub json: RedditPostResponseJson<T>,
}

/// A request body with the `api_type` marker the API expects on write calls.
#[derive(Debug, Clone, PartialEq)]
pub struct RedditJsonApiType<T> {
    pub api_type: &'static str,
    pub data: T,
}

impl<T> RedditJsonApiType<T> {
    pub fn new(data: T) -> (r: Self)
        ensures
            r.api_type@ == "json"@,
            r.data == data,
    {
        RedditJsonApiType { api_type: "json", data }
    }
}

/// A request body that sets the state of one thing, named by its id.
#[derive(Debug, Clone, PartialEq)]
pub struct RedditSetState<'a, T> {
    pub id: &'a str,
    pub state: T,
}

/// Token-endpoint response.
#[derive(Debug, Clone, PartialEq)]
pub struct AuthResponse {
    pub error: Option<String>,
    pub access_token: Option<String>,
    pub token_type: Option<String>,
    pub expires_in: Option<i32>,
    pub scope: Option<String>,
}

/// A request body that posts a comment under a thing.
#[derive(Debug, Clone, PartialEq)]
pub struct SendComment<'a> {
    pub thing_id: &'a str,
    pub text: &'a str,
}

/// Whether a thing was edited: either a plain flag or the edit time in
/// whole seconds since the epoch.
#[derive(Debug, Clone, PartialEq)]
pub enum VoteEdited {
    IsEdited(bool),
    TimeEdited(u64),
}

/// Voting counters of a thing.
#[derive(Debug, Clone, PartialEq)]
pub struct VoteData {
    pub liked: Option<bool>,
    pub downs: i32,
    pub ups: i32,
    pub gilded: i32,
}

/// Moderation-related fields of a thing, including its fullname.
#[derive(Debug, Clone, PartialEq)]
pub struct ModerateData {
    pub name: String,
    pub is_stickied: bool,
    pub author_flair_css_class: Option<String>,
    pub author_flair_text: Option<String>,
    pub edited: VoteEdited,
    pub archived: bool,
    pub saved: bool,
    pub locked: bool,
}

/// One rendition of a post's image.
#[derive(Debug, Clone, PartialEq)]
pub struct PostImage {
    pub url: String,
    pub width: Option<i32>,
    pub height: Option<i32>,
}

/// A post image with its source and the available resolutions.
#[derive(Debug, Clone, PartialEq)]
pub struct PostImages {
    pub source: PostImage,
    pub resolutions: Vec<PostImage>,
    pub id: String,
}

/// The preview block of a post.
#[derive(Debug, Clone, PartialEq)]
pub struct PostPreview {
    pub images: Vec<PostImages>,
    pub enabled: bool,
}

/// A post as the API reports it.  The creation time is in whole seconds
/// since the epoch.
#[derive(Debug, Clone, PartialEq)]
pub struct PostInfo {
    pub vote_data: VoteData,
    pub moderate_data: ModerateData,
    pub is_spoiler: bool,
    pub is_hidden: bool,
    pub is_self_posted: bool,
    pub nsfw: bool,
    pub author: String,
    pub permalink: Option<String>,
    pub domain: Option<String>,
    pub link_flair_css_class: Option<String>,
    pub link_flair_text: Option<String>,
    pub num_comments: i32,
    pub selftext: Option<String>,
    pub selftext_html: Option<String>,
    pub thumbnail: Option<String>,
    pub preview: Option<PostPreview>,
    pub title: String,
    pub subreddit: String,
    pub url: String,
    pub is_crosspostable: bool,
    pub num_crossposts: i32,
    pub created: u64,
    pub crosspost_parent: Option<String>,
}

/// A request body that sets a post's flair.
#[derive(Debug, Clone, PartialEq)]
pub struct PostSetFlair<'a> {
    pub css_class: &'a str,
    pub link: &'a str,
    pub text: &'a str,
}

/// A request body that replaces a post's text.
#[derive(Debug, Clone, PartialEq)]
pub struct PostEditText<'a> {
    pub thing_id: &'a str,
    pub new_text: &'a str,
}

/// What a submission to a subreddit carries: a link elsewhere, or text.
#[derive(Debug, Clone, PartialEq)]
pub enum SubredditSubmission<'a> {
    Link(&'a str),
    Text(&'a str),
}

impl SubredditSubmission<'_> {
    /// The wire name of this submission kind.
    pub fn kind(&self) -> (r: &'static str)
        ensures
            self is Link ==> r@ == "link"@,
            self is Text ==> r@ == "self"@,
    {
        match self {
            SubredditSubmission::Link(_) => "link",
            SubredditSubmission::Text(_) => "self",
        }
    }
}

/// The common part of a submission request.
#[derive(Debug, Clone, PartialEq)]
pub struct SubredditSubmit<'a> {
    /// `"link"` or `"self"`.
    pub kind: &'a str,
    pub sr: &'a str,
    pub title: &'a str,
    pub resubmit: bool,
    pub iden: Option<&'a str>,
    pub captcha: Option<&'a str>,
}

impl<'a> SubredditSubmit<'a> {
    /// The request that submits `title` to the subreddit `sr` with the
    /// given kind: resubmission is always allowed and no captcha fields
    /// are sent.
    pub fn new(kind: &'a str, sr: &'a str, title: &'a str) -> (r: Self)
        ensures
            r.kind@ == kind@,
            r.sr@ == sr@,
            r.title@ == title@,
            r.resubmit == true,
            r.iden is None,
            r.captcha is None,
    {
        SubredditSubmit { kind, sr, title, resubmit: true, iden: None, captcha: None }
    }
}

/// Response to a successful submission.
#[derive(Debug, Clone, PartialEq)]
pub struct SubredditSubmitResponse {
    pub url: String,
    pub id: String,
    pub name: String,
    pub drafts_count: Option<i32>,
}

/// A link submission.
#[derive(Debug, Clone, PartialEq)]
pub struct SubredditSubmitLink<'a> {
    pub submit: SubredditSubmit<'a>,
    pub url: &'a str,
}

/// A text submission.
#[derive(Debug, Clone, PartialEq)]
pub struct SubredditSubmitText<'a> {
    pub submit: SubredditSubmit<'a>,
    pub text: &'a str,
}

/// A user's activity overview.
#[derive(Debug, Clone, PartialEq)]
pub struct UserOverview {}

impl crate::feed::Feedable for PostInfo {
    /// A post is identified in a feed by its fullname.
    open spec fn spec_feed_id(&self) -> Seq<char> {
        self.moderate_data.name@
    }

    fn feed_id(&self) -> (r: String) {
        self.moderate_data.name.clone()
    }
}

} // verus!
