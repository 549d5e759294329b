use snoo::endpoints::{base_for_auth, Endpoint, EndpointBase, EndpointBuilder, SearchSort};
use snoo::models::{
    ListingData, RedditJsonApiType, RedditResponseGeneric, SubredditSubmission, SubredditSubmit,
};

fn pairs(ep: &Endpoint) -> Vec<(&str, &str)> {
    ep.pairs.iter().map(|p| (p.0.as_str(), p.1.as_str())).collect()
}

#[test]
fn sort_names() {
    assert_eq!(SearchSort::Relevance.to_str(), "relevance");
    assert_eq!(SearchSort::Hot.to_str(), "hot");
    assert_eq!(SearchSort::Top.to_str(), "top");
    assert_eq!(SearchSort::New.to_str(), "new");
    assert_eq!(SearchSort::Comments.to_str(), "comments");
}

#[test]
fn base_origins() {
    assert_eq!(EndpointBase::Regular.get_str(), "https://www.reddit.com");
    assert_eq!(EndpointBase::OAuth.get_str(), "https://oauth.reddit.com");
    assert_eq!(EndpointBase::SSL.get_str(), "https://ssl.reddit.com");
}

#[test]
fn builder_keeps_the_path() {
    let b = EndpointBuilder::new("r/rust/top/");
    assert_eq!(b.0, "r/rust/top/");
    let ep = Endpoint::new(EndpointBase::OAuth, b);
    assert_eq!(ep.base, EndpointBase::OAuth);
    assert_eq!(ep.path, "r/rust/top/");
    assert!(ep.pairs.is_empty());
}

#[test]
fn filter_with_query_and_after() {
    let ep = Endpoint::new(EndpointBase::Regular, Endpoint::build("search/")).filter(
        Some("ferris the crab"),
        SearchSort::Top,
        None,
        Some("t3_abc"),
    );
    assert_eq!(
        pairs(&ep),
        vec![
            ("restrict_sr", "on"),
            ("q", "ferris the crab"),
            ("sort", "top"),
            ("after", "t3_abc"),
        ]
    );
}

#[test]
fn filter_without_query_is_a_plain_listing() {
    let ep = Endpoint::new(EndpointBase::Regular, Endpoint::build("r/all/new/")).filter(
        None,
        SearchSort::New,
        Some("t3_xyz"),
        None,
    );
    assert_eq!(
        pairs(&ep),
        vec![("restrict_sr", "on"), ("sort", "new"), ("before", "t3_xyz")]
    );
}

#[test]
fn filter_appends_after_existing_pairs() {
    let ep = Endpoint::new(EndpointBase::Regular, Endpoint::build("search/"))
        .add_query_pair("limit", "25")
        .filter(Some("q"), SearchSort::Hot, None, None);
    assert_eq!(
        pairs(&ep),
        vec![("limit", "25"), ("restrict_sr", "on"), ("q", "q"), ("sort", "hot")]
    );
}

#[test]
fn add_query_pairs_keeps_order() {
    let ep = Endpoint::new(EndpointBase::SSL, Endpoint::build("api/v1/access_token/"))
        .add_query_pairs(&[("a", "1"), ("b", "2"), ("c", "3")]);
    assert_eq!(pairs(&ep), vec![("a", "1"), ("b", "2"), ("c", "3")]);
}

#[test]
fn endpoint_clone_is_exact() {
    let ep = Endpoint::new(EndpointBase::Regular, Endpoint::build("search/"))
        .filter(Some("x"), SearchSort::New, None, Some("t"));
    let copy = ep.clone();
    assert_eq!(copy.base, ep.base);
    assert_eq!(copy.path, ep.path);
    assert_eq!(copy.pairs, ep.pairs);
}

#[test]
fn listing_unwraps_children_in_order() {
    let listing = ListingData {
        modhash: Some("m".to_string()),
        dist: Some(3),
        children: vec![
            RedditResponseGeneric { kind: "t3".to_string(), data: 10u32 },
            RedditResponseGeneric { kind: "t3".to_string(), data: 20u32 },
            RedditResponseGeneric { kind: "t3".to_string(), data: 30u32 },
        ],
    };
    assert_eq!(listing.inner_children(), vec![10, 20, 30]);
}

#[test]
fn json_api_type_marks_the_body() {
    let body = RedditJsonApiType::new(7u8);
    assert_eq!(body.api_type, "json");
    assert_eq!(body.data, 7);
}

#[test]
fn base_follows_authentication() {
    assert_eq!(base_for_auth(false), EndpointBase::Regular);
    assert_eq!(base_for_auth(true), EndpointBase::OAuth);
}

#[test]
fn submission_kinds() {
    assert_eq!(SubredditSubmission::Link("https://example.invalid").kind(), "link");
    assert_eq!(SubredditSubmission::Text("hello").kind(), "self");
}

#[test]
fn submit_request_policy() {
    let s = SubredditSubmit::new("self", "rust", "a title");
    assert_eq!(s.kind, "self");
    assert_eq!(s.sr, "rust");
    assert_eq!(s.title, "a title");
    assert!(s.resubmit);
    assert!(s.iden.is_none());
    assert!(s.captcha.is_none());
}
