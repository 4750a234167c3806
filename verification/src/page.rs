//! One page of a paginated collection, and the link that leads on from it.

use vstd::prelude::*;

verus! {

/// A link from a page to one of its neighbours.
#[derive(Debug, PartialEq, Eq)]
pub enum PaginationLink {
    /// The page that follows.
    Next { uri: String },
    /// The page that came before.
    Previous { uri: String },
}

/// Where a page lies in its collection.
#[derive(Debug, PartialEq, Eq)]
pub struct Pagination {
    /// How many items precede the page.
    pub offset: u64,
    /// How many items a page holds at most.
    pub max: u64,
    /// How many items the service counts on this page.
    pub size: u64,
    /// The links to the neighbouring pages, in any order.
    pub links: Vec<PaginationLink>,
}

/// A page of items together with its place in the collection.
#[derive(Debug, PartialEq, Eq)]
pub struct Page<T> {
    /// The items, in the order of the service.
    pub data: Vec<T>,
    /// The place of the page.
    pub pagination: Pagination,
}

/// The URI of the first link that leads to the following page, if there is one.
/// Links to the preceding page are passed over.
pub open spec fn first_next(links: Seq<PaginationLink>) -> Option<Seq<char>>
    decreases links.len(),
{
    if links.len() == 0 {
        None
    } else {
        match links[0] {
            PaginationLink::Next { uri } => Some(uri@),
            PaginationLink::Previous { .. } => first_next(links.drop_first()),
        }
    }
}

/// The serialization that the url crate gives to `input` when it parses it as
/// an absolute URL, or `None` where it rejects `input`.
pub uninterp spec fn parsed_url(input: Seq<char>) -> Option<Seq<char>>;

/// The URL that a link leads to: the parsed URI, and nothing where there is
/// no URI or where it is no URL.
pub open spec fn link_target(uri: Option<Seq<char>>) -> Option<Seq<char>> {
    match uri {
        Some(text) => parsed_url(text),
        None => None,
    }
}

/// The view of a URL that may be absent.
pub open spec fn url_view(url: Option<String>) -> Option<Seq<char>> {
    match url {
        Some(text) => Some(text@),
        None => None,
    }
}

/// Calls `url::Url::parse` and hands back the serialization of the URL, as
/// `String::from(Url)` gives it. The result is `None` exactly where the url
/// crate rejects the input.
#[verifier::external_body]
pub(crate) fn parse_url(input: &str) -> (r: Option<String>)
    ensures
        url_view(r) == parsed_url(input@),
{
    match url::Url::parse(input) {
        Ok(url) => Some(url.into()),
        Err(_) => None,
    }
}

/// The URL of the page that follows, given the URI that the page names for
/// it: a URI that is no URL counts as no link at all.
pub fn resolve_link(uri: Option<&str>) -> (r: Option<String>)
    ensures
        url_view(r) == link_target(
            match uri {
                Some(text) => Some(text@),
                None => None,
            },
        ),
{
    match uri {
        Some(text) => parse_url(text),
        None => None,
    }
}

impl Pagination {
    /// The URI of the first link to the following page.
    pub fn next_uri(&self) -> (r: Option<&str>)
        ensures
            match r {
                Some(text) => first_next(self.links@) == Some(text@),
                None => first_next(self.links@) is None,
            },
    {
        let mut i: usize = 0;
        assert(self.links@.skip(0) =~= self.links@);
        while i < self.links.len()
            invariant
                i <= self.links.len(),
                first_next(self.links@) == first_next(self.links@.skip(i as int)),
            decreases self.links.len() - i,
        {
            assert(self.links@.skip(i as int).drop_first() =~= self.links@.skip(i + 1));
            match &self.links[i] {
                PaginationLink::Next { uri } => {
                    return Some(uri.as_str());
                },
                PaginationLink::Previous { .. } => {},
            }
            i += 1;
        }
        None
    }
}

impl<T> Page<T> {
    /// The URL of the page that follows this one, if the page links to one.
    pub open spec fn next_target(self) -> Option<Seq<char>> {
        link_target(first_next(self.pagination.links@))
    }

    /// The URL of the page that follows this one, if the page links to one.
    pub fn next_url(&self) -> (r: Option<String>)
        ensures
            url_view(r) == self.next_target(),
    {
        resolve_link(self.pagination.next_uri())
    }
}

} // verus!
