//! Continuous polling for newly created items.
//!
//! The stream state is a cursor over one endpoint: the identifier of the
//! newest item already reported.  The application runs the timer loop; each
//! cycle it renders [`ContentStream::poll_request`] into a URL, fetches, and
//! hands the envelope to [`ContentStream::observe_poll`], which advances the
//! cursor and returns the new items oldest first, ready to emit in
//! chronological order.

use vstd::prelude::*;

use crate::endpoints::{filter_pairs, opt_str_view, pairs_view, Endpoint, SearchSort};
use crate::models::SearchInfo;

verus! {

/// Something that can flow through a feed: it names itself by a stable
/// identifier.
pub trait Feedable: Sized {
    /// The identifier, as this trait's contracts see it.
    spec fn spec_feed_id(&self) -> Seq<char>;

    /// The identifier used as the `before` cursor of the next poll.
    fn feed_id(&self) -> (r: String)
        ensures
            r@ == self.spec_feed_id(),
    ;
}

/// Default seconds between two polls of the endpoint.
pub const DEFAULT_POLL_DELAY_SECS: u64 = 3;

/// The state of a feed of new content at one endpoint: where to poll, how
/// often, and the newest item already reported.
#[derive(Debug)]
pub struct ContentStream {
    pub endpoint: Endpoint,
    pub delay_secs: u64,
    pub newest_item: Option<String>,
}

/// The view of the feed cursor.
pub open spec fn cursor_view(c: Option<String>) -> Option<Seq<char>> {
    match c {
        Some(s) => Some(s@),
        None => None,
    }
}

impl ContentStream {
    /// A stream over `search_ep` with the default poll delay and no
    /// baseline yet.
    pub fn new(search_ep: Endpoint) -> (r: ContentStream)
        ensures
            r.endpoint == search_ep,
            r.delay_secs == DEFAULT_POLL_DELAY_SECS,
            r.newest_item is None,
    {
        ContentStream {
            endpoint: search_ep,
            delay_secs: DEFAULT_POLL_DELAY_SECS,
            newest_item: None,
        }
    }

    /// Sets the delay between polling the endpoint.
    pub fn delay(self, delay_secs: u64) -> (r: Self)
        ensures
            r.endpoint == self.endpoint,
            r.delay_secs == delay_secs,
            r.newest_item == self.newest_item,
    {
        ContentStream { delay_secs, ..self }
    }

    /// The fetch that the next poll cycle must issue: the endpoint filtered
    /// to new items strictly before the cursor (or unbounded before the
    /// baseline), sorted newest first, with no search text and no `after`.
    pub fn poll_request(&self) -> (r: Endpoint)
        ensures
            r.base == self.endpoint.base,
            r.path@ == self.endpoint.path@,
            pairs_view(r.pairs@) == pairs_view(self.endpoint.pairs@) + filter_pairs(
                None,
                SearchSort::New,
                cursor_view(self.newest_item),
                None,
            ),
    {
        let before = match &self.newest_item {
            Some(s) => Some(s.as_str()),
            None => None,
        };
        let r = self.endpoint.clone().filter(None, SearchSort::New, before, None);
        proof {
            assert(opt_str_view(before) == cursor_view(self.newest_item));
            assert(pairs_view(r.pairs@) =~~= pairs_view(self.endpoint.pairs@) + filter_pairs(
                None,
                SearchSort::New,
                cursor_view(self.newest_item),
                None,
            ));
        }
        r
    }

    /// Absorbs the baseline fetch made when the stream starts.  It only
    /// establishes the newest already-existing item; nothing from it is
    /// ever emitted, so old content is not replayed as new.
    pub fn observe_baseline<T: Feedable>(&mut self, search: &SearchInfo<T>)
        ensures
            final(self).endpoint == old(self).endpoint,
            final(self).delay_secs == old(self).delay_secs,
            search.results.children@.len() == 0 ==> final(self).newest_item is None,
            search.results.children@.len() > 0 ==> (final(self).newest_item matches Some(c)
                && c@ == search.results.children@[0].data.spec_feed_id()),
    {
        if search.results.children.len() > 0 {
            self.newest_item = Some(search.results.children[0].data.feed_id());
        } else {
            self.newest_item = None;
        }
    }

    /// Absorbs one poll fetch.  An empty page leaves the cursor untouched
    /// and emits nothing.  A nonempty page moves the cursor to the newest
    /// item — the first of the page, since pages arrive newest first — and
    /// returns every fetched item in reverse page order, so the caller
    /// emits them oldest first.
    pub fn observe_poll<T: Feedable>(&mut self, search: SearchInfo<T>) -> (emit: Vec<T>)
        ensures
            final(self).endpoint == old(self).endpoint,
            final(self).delay_secs == old(self).delay_secs,
            search.results.children@.len() == 0 ==> final(self).newest_item == old(
                self,
            ).newest_item,
            search.results.children@.len() > 0 ==> (final(self).newest_item matches Some(c)
                && c@ == search.results.children@[0].data.spec_feed_id()),
            emit@.len() == search.results.children@.len(),
            forall|i: int|
                0 <= i < emit@.len() ==> emit@[i] == search.results.children@[emit@.len() - 1
                    - i].data,
    {
        if search.results.children.len() > 0 {
            self.newest_item = Some(search.results.children[0].data.feed_id());
        }
        let mut items = search.results.inner_children();
        let ghost fetched = items@;
        let mut emit: Vec<T> = Vec::new();
        while items.len() > 0
            invariant
                emit@.len() + items@.len() == fetched.len(),
                items@ == fetched.subrange(0, items@.len() as int),
                forall|i: int|
                    0 <= i < emit@.len() ==> emit@[i] == fetched[fetched.len() - 1 - i],
            decreases items@.len(),
        {
            let x = items.pop().unwrap();
            assert(x == fetched[items@.len() as int]);
            emit.push(x);
            assert(items@ =~= fetched.subrange(0, items@.len() as int));
        }
        emit
    }
}

/// Law: the feed polls strictly forward.  Once the cursor holds an item
/// identifier, the fetch that [`ContentStream::poll_request`] describes
/// filters with exactly three pairs — `restrict_sr=on`, `sort=new`, and
/// `before` set to that identifier — so every poll asks only for items
/// strictly newer than the newest one already reported.
pub proof fn lemma_poll_uses_cursor(s: ContentStream)
    requires
        s.newest_item is Some,
    ensures
        ({
            let ps = filter_pairs(None, SearchSort::New, cursor_view(s.newest_item), None);
            &&& ps.len() == 3
            &&& ps[0] == ("restrict_sr"@, "on"@)
            &&& ps[1] == ("sort"@, "new"@)
            &&& ps[2] == ("before"@, s.newest_item->0@)
        }),
{
}

} // verus!
