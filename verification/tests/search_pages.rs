use snoo::endpoints::{Endpoint, EndpointBase, EndpointBuilder, SearchSort};
use snoo::models::{ListingData, RedditResponseGeneric, SearchInfo};
use snoo::search::RedditSearch;

fn search_endpoint() -> Endpoint {
    Endpoint::new(EndpointBase::Regular, EndpointBuilder::new("search/"))
}

fn envelope(items: &[&str], before: Option<&str>, after: Option<&str>) -> SearchInfo<String> {
    SearchInfo {
        results: ListingData {
            modhash: None,
            dist: Some(items.len() as i32),
            children: items
                .iter()
                .map(|s| RedditResponseGeneric { kind: "t3".to_string(), data: s.to_string() })
                .collect(),
        },
        after: after.map(|s| s.to_string()),
        before: before.map(|s| s.to_string()),
    }
}

#[test]
fn new_search_starts_with_no_cursor() {
    let req = RedditSearch::<String>::new_search(search_endpoint(), Some("cats"), SearchSort::Top);
    assert!(req.before.is_none());
    assert!(req.after.is_none());
    assert_eq!(req.params.query.as_deref(), Some("cats"));
    assert_eq!(req.params.sort, SearchSort::Top);
    assert_eq!(req.params.endpoint.path, "search/");
}

#[test]
fn envelope_round_trip_keeps_items_and_cursors() {
    let req = RedditSearch::<String>::new_search(search_endpoint(), Some("q"), SearchSort::New);
    let page = RedditSearch::from_envelope(req.params, envelope(&["A", "B"], Some("t1"), Some("t2")));
    assert_eq!(page.results(), &vec!["A".to_string(), "B".to_string()]);
    assert_eq!(page.before.as_deref(), Some("t1"));
    assert_eq!(page.after.as_deref(), Some("t2"));
}

#[test]
fn next_reissues_the_returned_after_token() {
    let req = RedditSearch::<String>::new_search(search_endpoint(), Some("q"), SearchSort::New);
    let page = RedditSearch::from_envelope(req.params, envelope(&["A"], None, Some("t2")));
    let next = page.next().expect("page has an after token");
    assert_eq!(next.after.as_deref(), Some("t2"));
    assert!(next.before.is_none());
    assert_eq!(next.params.query.as_deref(), Some("q"));
    assert_eq!(next.params.sort, SearchSort::New);
}

#[test]
fn next_is_none_exactly_without_after() {
    let req = RedditSearch::<String>::new_search(search_endpoint(), None, SearchSort::Hot);
    let page = RedditSearch::from_envelope(req.params, envelope(&["A"], Some("t1"), None));
    assert!(page.next().is_none());
    assert!(page.prev().is_some());
}

#[test]
fn prev_reissues_the_returned_before_token() {
    let req = RedditSearch::<String>::new_search(search_endpoint(), None, SearchSort::Hot);
    let page = RedditSearch::from_envelope(req.params, envelope(&[], Some("t1"), None));
    let prev = page.prev().expect("page has a before token");
    assert_eq!(prev.before.as_deref(), Some("t1"));
    assert!(prev.after.is_none());
}

#[test]
fn prev_is_none_exactly_without_before() {
    let req = RedditSearch::<String>::new_search(search_endpoint(), None, SearchSort::Hot);
    let page = RedditSearch::from_envelope(req.params, envelope(&["A"], None, Some("t2")));
    assert!(page.prev().is_none());
    assert!(page.next().is_some());
}

#[test]
fn empty_page_with_after_can_still_advance() {
    let req = RedditSearch::<String>::new_search(search_endpoint(), None, SearchSort::New);
    let page = RedditSearch::from_envelope(req.params, envelope(&[], None, Some("t9")));
    assert!(page.results().is_empty());
    let next = page.next().expect("empty page with an after token still advances");
    assert_eq!(next.after.as_deref(), Some("t9"));
}

#[test]
fn cursor_chain_over_several_pages() {
    // the cursor passed to fetch k is the after token of fetch k-1
    let req = RedditSearch::<String>::new_search(search_endpoint(), Some("q"), SearchSort::New);
    let mut page = RedditSearch::from_envelope(req.params, envelope(&["a"], None, Some("c1")));
    let tokens = ["c1", "c2", "c3"];
    for (i, tok) in tokens.iter().enumerate() {
        let req_k = page.next().expect("chain continues");
        assert_eq!(req_k.after.as_deref(), Some(*tok));
        assert!(req_k.before.is_none());
        let next_tok = tokens.get(i + 1).map(|s| *s);
        page = RedditSearch::from_envelope(req_k.params, envelope(&["x"], None, next_tok));
    }
    assert!(page.next().is_none());
}

#[test]
fn results_are_the_current_page_only() {
    let req = RedditSearch::<String>::new_search(search_endpoint(), None, SearchSort::New);
    let page = RedditSearch::from_envelope(req.params, envelope(&["A", "B"], None, Some("t2")));
    let req2 = page.next().unwrap();
    let page2 = RedditSearch::from_envelope(req2.params, envelope(&["C"], Some("t2b"), None));
    assert_eq!(page2.results(), &vec!["C".to_string()]);
}
