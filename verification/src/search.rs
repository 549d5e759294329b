//! Cursor-based pagination over listing queries.
//!
//! A search is an immutable query shared by every page derived from it, and
//! each page carries the `before`/`after` cursor tokens the server returned
//! with it.  Fetching is not done here: [`RedditSearch::next`] and
//! [`RedditSearch::prev`] produce the [`PageRequest`] that the application
//! must issue, and [`RedditSearch::from_envelope`] turns the envelope that
//! came back into the new page.

use vstd::prelude::*;

use crate::endpoints::{Endpoint, SearchSort};
use crate::models::SearchInfo;
use std::rc::Rc;

verus! {

/// The immutable parameters of one logical search: endpoint, optional
/// search text, and sort order.  Shared, never copied, across all pages
/// derived from the search.
#[derive(Debug)]
pub struct SearchParams {
    pub endpoint: Endpoint,
    pub query: Option<String>,
    pub sort: SearchSort,
}

/// Relies on `Rc::clone`: the returned handle points at the same shared
/// query value.
#[verifier::external_body]
fn share_params(params: &Rc<SearchParams>) -> (r: Rc<SearchParams>)
    ensures
        r == *params,
{
    Rc::clone(params)
}

/// One page fetch to perform: the shared query plus at most one cursor
/// edge.  A page is always fetched relative to one edge, never both.
#[derive(Debug)]
pub struct PageRequest {
    pub params: Rc<SearchParams>,
    pub before: Option<String>,
    pub after: Option<String>,
}

impl PageRequest {
    /// At most one of the two cursors is set.
    pub open spec fn wf(&self) -> bool {
        !(self.before is Some && self.after is Some)
    }
}

/// The view of an optional cursor token.
pub open spec fn opt_string_view(o: Option<String>) -> Option<Seq<char>> {
    match o {
        Some(s) => Some(s@),
        None => None,
    }
}

/// One page of search results: the shared query, the items of this page
/// only, and the cursor tokens the server returned with them.  Pages are
/// immutable; advancing produces a new page.
#[derive(Debug)]
pub struct RedditSearch<T> {
    pub params: Rc<SearchParams>,
    pub results: Vec<T>,
    pub before: Option<String>,
    pub after: Option<String>,
}

/// Whether `page` is exactly the page that the envelope `search`, fetched
/// for `params`, denotes: the children unwrapped in order, and both cursor
/// tokens taken over unchanged.
pub open spec fn is_page_of<T>(
    page: RedditSearch<T>,
    params: Rc<SearchParams>,
    search: SearchInfo<T>,
) -> bool {
    &&& page.params == params
    &&& page.results@.len() == search.results.children@.len()
    &&& forall|i: int|
        0 <= i < page.results@.len() ==> page.results@[i] == search.results.children@[i].data
    &&& page.before == search.before
    &&& page.after == search.after
}

/// Whether `req` is exactly the forward request that `page` calls for:
/// present if and only if the page has an `after` token, carrying that
/// token, the shared query, and no `before`.
pub open spec fn is_next_request_of<T>(req: Option<PageRequest>, page: RedditSearch<T>) -> bool {
    &&& req is Some <==> page.after is Some
    &&& req matches Some(rq) ==> {
        &&& rq.params == page.params
        &&& rq.before is None
        &&& opt_string_view(rq.after) == opt_string_view(page.after)
    }
}

/// Whether `req` is exactly the backward request that `page` calls for.
pub open spec fn is_prev_request_of<T>(req: Option<PageRequest>, page: RedditSearch<T>) -> bool {
    &&& req is Some <==> page.before is Some
    &&& req matches Some(rq) ==> {
        &&& rq.params == page.params
        &&& rq.after is None
        &&& opt_string_view(rq.before) == opt_string_view(page.before)
    }
}

impl<T> RedditSearch<T> {
    /// Starts a new search: the first fetch is made relative to no cursor
    /// at all.
    pub fn new_search(search_ep: Endpoint, query: Option<&str>, sort: SearchSort) -> (r:
        PageRequest)
        ensures
            r.params.endpoint.base == search_ep.base,
            r.params.endpoint.path@ == search_ep.path@,
            r.params.endpoint.pairs@ == search_ep.pairs@,
            query matches Some(q) ==> r.params.query matches Some(rq) && rq@ == q@,
            query is None ==> r.params.query is None,
            r.params.sort == sort,
            r.before is None,
            r.after is None,
            r.wf(),
    {
        let owned_query = match query {
            Some(q) => Some(q.to_owned()),
            None => None,
        };
        let params = Rc::new(SearchParams { endpoint: search_ep, query: owned_query, sort });
        PageRequest { params, before: None, after: None }
    }

    /// Turns the listing envelope that a request returned into the page it
    /// denotes.  The items are taken over in server order and the cursor
    /// tokens exactly as returned, with no transformation.
    pub fn from_envelope(params: Rc<SearchParams>, search: SearchInfo<T>) -> (r: RedditSearch<T>)
        ensures
            is_page_of(r, params, search),
    {
        let results = search.results.inner_children();
        RedditSearch { params, results, before: search.before, after: search.after }
    }

    /// The results of the current page only, never the accumulated history.
    pub fn results(&self) -> (r: &Vec<T>)
        ensures
            *r == self.results,
    {
        &self.results
    }

    /// The request for the next page: present exactly when this page's
    /// `after` token is, and fetched relative to that token alone.
    pub fn next(&self) -> (r: Option<PageRequest>)
        ensures
            is_next_request_of(r, *self),
            r matches Some(rq) ==> rq.wf(),
    {
        match &self.after {
            Some(next) => Some(
                PageRequest {
                    params: share_params(&self.params),
                    before: None,
                    after: Some(next.clone()),
                },
            ),
            None => None,
        }
    }

    /// The request for the previous page: present exactly when this page's
    /// `before` token is, and fetched relative to that token alone.
    pub fn prev(&self) -> (r: Option<PageRequest>)
        ensures
            is_prev_request_of(r, *self),
            r matches Some(rq) ==> rq.wf(),
    {
        match &self.before {
            Some(prev) => Some(
                PageRequest {
                    params: share_params(&self.params),
                    before: Some(prev.clone()),
                    after: None,
                },
            ),
            None => None,
        }
    }
}

/// Law: cursors chain.  For every envelope and the page built from it, the
/// forward request that the page calls for exists exactly when the envelope
/// returned an `after` token, and it carries exactly that token — so the
/// cursor passed to fetch `k` equals the `after` returned by fetch `k-1` —
/// together with the original shared query and no `before`.
pub proof fn lemma_cursor_chaining<T>(
    params: Rc<SearchParams>,
    search: SearchInfo<T>,
    page: RedditSearch<T>,
    req: Option<PageRequest>,
)
    requires
        is_page_of(page, params, search),
        is_next_request_of(req, page),
    ensures
        req is Some <==> search.after is Some,
        req matches Some(rq) ==> {
            &&& opt_string_view(rq.after) == opt_string_view(search.after)
            &&& rq.params == params
            &&& rq.before is None
        },
{
}

} // verus!
