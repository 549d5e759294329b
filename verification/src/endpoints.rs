//! Endpoints of the API, and the query filters attached to them.
//!
//! An [`Endpoint`] here is plain data: a base, a path, and the query pairs
//! to attach, in order.  The surrounding application renders it into an
//! actual URL (percent-encoding included) and performs the request; what the
//! pairs are, and in which order they appear, is fixed here.

use vstd::prelude::*;

verus! {

/// Sort order for a search, fixed when the search is constructed and resent
/// with every page fetch.
#[derive(Clone, Copy, PartialEq, Eq, Structural, Debug)]
pub enum SearchSort {
    Relevance,
    Hot,
    Top,
    New,
    Comments,
}

/// The query-parameter value that names `sort` on the wire.
pub open spec fn spec_sort_str(sort: SearchSort) -> Seq<char> {
    match sort {
        SearchSort::Relevance => "relevance"@,
        SearchSort::Hot => "hot"@,
        SearchSort::Top => "top"@,
        SearchSort::New => "new"@,
        SearchSort::Comments => "comments"@,
    }
}

impl SearchSort {
    /// The query-parameter value that names this sort order on the wire.
    pub fn to_str(&self) -> (r: &'static str)
        ensures
            r@ == spec_sort_str(*self),
    {
        match self {
            SearchSort::Relevance => "relevance",
            SearchSort::Hot => "hot",
            SearchSort::Top => "top",
            SearchSort::New => "new",
            SearchSort::Comments => "comments",
        }
    }
}

/// Which host an endpoint is addressed to.
#[derive(Clone, Copy, PartialEq, Eq, Structural, Debug)]
pub enum EndpointBase {
    Regular,
    OAuth,
    SSL,
}

/// The origin that `base` names.
pub open spec fn spec_base_str(base: EndpointBase) -> Seq<char> {
    match base {
        EndpointBase::Regular => "https://www.reddit.com"@,
        EndpointBase::OAuth => "https://oauth.reddit.com"@,
        EndpointBase::SSL => "https://ssl.reddit.com"@,
    }
}

impl EndpointBase {
    pub fn get_str(&self) -> (r: &'static str)
        ensures
            r@ == spec_base_str(*self),
    {
        match self {
            EndpointBase::Regular => "https://www.reddit.com",
            EndpointBase::OAuth => "https://oauth.reddit.com",
            EndpointBase::SSL => "https://ssl.reddit.com",
        }
    }
}

/// The base that requests are addressed to, by authentication state: an
/// authenticated session talks to the OAuth host, an anonymous one to the
/// regular host.
pub fn base_for_auth(authenticated: bool) -> (r: EndpointBase)
    ensures
        r == if authenticated {
            EndpointBase::OAuth
        } else {
            EndpointBase::Regular
        },
{
    if authenticated {
        EndpointBase::OAuth
    } else {
        EndpointBase::Regular
    }
}

/// An endpoint path without the base attached, e.g. `r/rust/top/`.
#[derive(Clone, Debug)]
pub struct EndpointBuilder(pub String);

impl EndpointBuilder {
    pub fn new(ep: &str) -> (r: Self)
        ensures
            r.0@ == ep@,
    {
        EndpointBuilder(ep.to_owned())
    }
}

/// The view of an optional query-parameter value.
pub open spec fn opt_str_view(o: Option<&str>) -> Option<Seq<char>> {
    match o {
        Some(s) => Some(s@),
        None => None,
    }
}

/// The view of a list of query pairs: each name and value as a character
/// sequence.
pub open spec fn pairs_view(v: Seq<(String, String)>) -> Seq<(Seq<char>, Seq<char>)> {
    v.map(|i: int, p: (String, String)| (p.0@, p.1@))
}

/// The query pairs that a listing filter appends, in order: `restrict_sr`
/// always, `q` when a search text is given, the sort order, and then the
/// cursor — `after` or `before`, never both in one request.
pub open spec fn filter_pairs(
    q: Option<Seq<char>>,
    sort: SearchSort,
    before: Option<Seq<char>>,
    after: Option<Seq<char>>,
) -> Seq<(Seq<char>, Seq<char>)> {
    seq![("restrict_sr"@, "on"@)] + (match q {
        Some(qv) => seq![("q"@, qv)],
        None => Seq::empty(),
    }) + seq![("sort"@, spec_sort_str(sort))] + (match after {
        Some(av) => seq![("after"@, av)],
        None => Seq::empty(),
    }) + (match before {
        Some(bv) => seq![("before"@, bv)],
        None => Seq::empty(),
    })
}

/// An endpoint with its base and the query pairs collected so far.
#[derive(Debug)]
pub struct Endpoint {
    pub base: EndpointBase,
    pub path: String,
    pub pairs: Vec<(String, String)>,
}

impl Clone for Endpoint {
    /// The clone has the same base, the same path, and pairs with the same
    /// names and values in the same order.
    fn clone(&self) -> (r: Self)
        ensures
            r.base == self.base,
            r.path@ == self.path@,
            pairs_view(r.pairs@) == pairs_view(self.pairs@),
    {
        let mut pairs: Vec<(String, String)> = Vec::new();
        let mut i: usize = 0;
        while i < self.pairs.len()
            invariant
                0 <= i <= self.pairs@.len(),
                pairs@.len() == i,
                forall|j: int|
                    0 <= j < i ==> {
                        &&& #[trigger] pairs@[j].0@ == self.pairs@[j].0@
                        &&& pairs@[j].1@ == self.pairs@[j].1@
                    },
            decreases self.pairs@.len() - i,
        {
            let p = &self.pairs[i];
            pairs.push((p.0.clone(), p.1.clone()));
            i = i + 1;
        }
        let r = Endpoint { base: self.base, path: self.path.clone(), pairs };
        proof {
            assert(pairs_view(r.pairs@) =~~= pairs_view(self.pairs@));
        }
        r
    }
}

impl Endpoint {
    /// Attaches a path to a base.  The application renders the pair as
    /// `<base>/<path>.json` when it issues the request.
    pub fn new(base: EndpointBase, ep: EndpointBuilder) -> (r: Endpoint)
        ensures
            r.base == base,
            r.path@ == ep.0@,
            r.pairs@.len() == 0,
    {
        Endpoint { base, path: ep.0, pairs: Vec::new() }
    }

    /// Starts a builder from a path string.
    pub fn build(ep_str: &str) -> (r: EndpointBuilder)
        ensures
            r.0@ == ep_str@,
    {
        EndpointBuilder::new(ep_str)
    }

    /// Appends the listing-filter query pairs: `restrict_sr=on`, the search
    /// text if any, the sort order, and at most one of the two cursors.
    pub fn filter(
        self,
        q: Option<&str>,
        sort: SearchSort,
        before: Option<&str>,
        after: Option<&str>,
    ) -> (r: Endpoint)
        ensures
            r.base == self.base,
            r.path@ == self.path@,
            pairs_view(r.pairs@) == pairs_view(self.pairs@) + filter_pairs(
                opt_str_view(q),
                sort,
                opt_str_view(before),
                opt_str_view(after),
            ),
    {
        let Endpoint { base, path, mut pairs } = self;
        pairs.push(("restrict_sr".to_owned(), "on".to_owned()));
        if let Some(search_string) = q {
            pairs.push(("q".to_owned(), search_string.to_owned()));
        }
        pairs.push(("sort".to_owned(), sort.to_str().to_owned()));
        if let Some(after_thing) = after {
            pairs.push(("after".to_owned(), after_thing.to_owned()));
        }
        if let Some(before_thing) = before {
            pairs.push(("before".to_owned(), before_thing.to_owned()));
        }
        let r = Endpoint { base, path, pairs };
        proof {
            assert(pairs_view(r.pairs@) =~~= pairs_view(self.pairs@) + filter_pairs(
                opt_str_view(q),
                sort,
                opt_str_view(before),
                opt_str_view(after),
            ));
        }
        r
    }

    /// Appends one query pair.
    pub fn add_query_pair(self, name: &str, value: &str) -> (r: Self)
        ensures
            r.base == self.base,
            r.path@ == self.path@,
            r.pairs@.len() == self.pairs@.len() + 1,
            forall|i: int| 0 <= i < self.pairs@.len() ==> r.pairs@[i] == self.pairs@[i],
            r.pairs@[self.pairs@.len() as int].0@ == name@,
            r.pairs@[self.pairs@.len() as int].1@ == value@,
    {
        let Endpoint { base, path, mut pairs } = self;
        pairs.push((name.to_owned(), value.to_owned()));
        Endpoint { base, path, pairs }
    }

    /// Appends arbitrary query pairs, in the order given.
    pub fn add_query_pairs(self, new_pairs: &[(&str, &str)]) -> (r: Self)
        ensures
            r.base == self.base,
            r.path@ == self.path@,
            r.pairs@.len() == self.pairs@.len() + new_pairs@.len(),
            forall|i: int|
                0 <= i < self.pairs@.len() ==> r.pairs@[i] == self.pairs@[i],
            forall|i: int|
                self.pairs@.len() <= i < r.pairs@.len() ==> {
                    &&& #[trigger] r.pairs@[i].0@ == new_pairs@[i - self.pairs@.len()].0@
                    &&& r.pairs@[i].1@ == new_pairs@[i - self.pairs@.len()].1@
                },
    {
        let ghost orig = self.pairs@;
        let Endpoint { base, path, mut pairs } = self;
        let mut i: usize = 0;
        while i < new_pairs.len()
            invariant
                0 <= i <= new_pairs@.len(),
                pairs@.len() == orig.len() + i,
                forall|j: int| 0 <= j < orig.len() ==> pairs@[j] == orig[j],
                forall|j: int|
                    orig.len() <= j < pairs@.len() ==> {
                        &&& #[trigger] pairs@[j].0@ == new_pairs@[j - orig.len()].0@
                        &&& pairs@[j].1@ == new_pairs@[j - orig.len()].1@
                    },
            decreases new_pairs@.len() - i,
        {
            let (name, value) = new_pairs[i];
            pairs.push((name.to_owned(), value.to_owned()));
            i = i + 1;
        }
        Endpoint { base, path, pairs }
    }
}

} // verus!
