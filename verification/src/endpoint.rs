//! What to ask the service for: a resource, a path below it and a query.
//!
//! An endpoint is plain data. The url crate turns it into the text of a
//! URL, and does all the escaping that this takes.

use crate::page::{parse_url, parsed_url, url_view};
use crate::text::{decimal, texts};
use vstd::prelude::*;

verus! {

/// The collections of the service.
#[derive(Clone, Copy, Debug, PartialEq, Eq, Structural)]
pub enum Resource {
    Games,
    Categories,
    Leaderboards,
    Runs,
    Platforms,
    Regions,
}

/// A request to the service, before it is written out as a URL.
#[derive(Debug, PartialEq, Eq)]
pub struct Endpoint {
    /// The collection that is asked.
    pub resource: Resource,
    /// The segments of the path below the collection, unescaped.
    pub path: Vec<String>,
    /// The pairs of the query, name and value, unescaped.
    pub query: Vec<(String, String)>,
}

/// An endpoint as mathematical values.
#[verifier::ext_equal]
pub struct EndpointView {
    pub resource: Resource,
    pub path: Seq<Seq<char>>,
    pub query: Seq<(Seq<char>, Seq<char>)>,
}

/// The most segments that a path may have.
pub const MAX_SEGMENTS: usize = 64;

/// The most bytes that a segment, a name or a value may have: 16 MiB.
pub const MAX_TEXT: usize = 16777216;

/// The most bytes that a URL may have when a pair is added to its query:
/// 1 GiB.
pub const MAX_URL: usize = 1073741824;

/// How many bytes a text has in UTF-8.
pub open spec fn byte_len(text: Seq<char>) -> nat {
    vstd::utf8::encode_utf8(text).len()
}

/// The texts of some pairs of strings.
pub open spec fn text_pairs(pairs: Seq<(String, String)>) -> Seq<(Seq<char>, Seq<char>)> {
    Seq::new(pairs.len(), |i: int| (pairs[i].0@, pairs[i].1@))
}

/// Whether a path is short enough to be written into a URL.
pub open spec fn path_fits(path: Seq<Seq<char>>) -> bool {
    &&& path.len() <= MAX_SEGMENTS
    &&& forall|i: int| 0 <= i < path.len() ==> byte_len(#[trigger] path[i]) <= MAX_TEXT
}

/// The serialization that the url crate gives to the URL `url` once
/// `segments` have been appended to its path, or `None` where `url` is no
/// URL or cannot have a path.
pub uninterp spec fn url_extended(url: Seq<char>, segments: Seq<Seq<char>>) -> Option<Seq<char>>;

/// The serialization that the url crate gives to the URL `url` once the
/// pair of `name` and `value` has been appended to its query, or `None`
/// where `url` is no URL.
pub uninterp spec fn url_with_pair(url: Seq<char>, name: Seq<char>, value: Seq<char>) -> Option<
    Seq<char>,
>;

/// Parses `url` with `url::Url::parse`, appends the segments to its path
/// with `PathSegmentsMut::extend`, and hands back the serialization. The
/// result is `None` where the url crate rejects `url` or gives it no path
/// to append to. The url crate panics on a serialization of 4 GiB or more.
/// Parsing and escaping make at most three bytes of one, and each segment
/// takes a slash, so within the bounds the URL stays below 196 times
/// 16 MiB.
#[verifier::external_body]
fn extend_path(url: &str, segments: &Vec<String>) -> (r: Option<String>)
    requires
        byte_len(url@) <= MAX_TEXT,
        path_fits(texts(segments@)),
    ensures
        url_view(r) == url_extended(url@, texts(segments@)),
{
    let mut url = url::Url::parse(url).ok()?;
    url.path_segments_mut().ok()?.extend(segments);
    Some(url.into())
}

/// Parses `url` with `url::Url::parse`, appends one pair to its query with
/// `Url::query_pairs_mut` and `Serializer::append_pair`, and hands back the
/// serialization. The result is `None` where the url crate rejects `url`.
/// The url crate panics on a serialization of 4 GiB or more. Parsing and
/// escaping make at most three bytes of one, so within the bounds the URL
/// stays below 3 GiB and 97 MiB.
#[verifier::external_body]
fn append_pair(url: &str, name: &str, value: &str) -> (r: Option<String>)
    requires
        byte_len(url@) <= MAX_URL,
        byte_len(name@) <= MAX_TEXT,
        byte_len(value@) <= MAX_TEXT,
    ensures
        url_view(r) == url_with_pair(url@, name@, value@),
{
    let mut url = url::Url::parse(url).ok()?;
    url.query_pairs_mut().append_pair(name, value);
    Some(url.into())
}

impl Resource {
    /// The URL of the collection.
    pub open spec fn base(self) -> Seq<char> {
        match self {
            Resource::Games => "https://www.speedrun.com/api/v1/games"@,
            Resource::Categories => "https://www.speedrun.com/api/v1/categories"@,
            Resource::Leaderboards => "https://www.speedrun.com/api/v1/leaderboards"@,
            Resource::Runs => "https://www.speedrun.com/api/v1/runs"@,
            Resource::Platforms => "https://www.speedrun.com/api/v1/platforms"@,
            Resource::Regions => "https://www.speedrun.com/api/v1/regions"@,
        }
    }

    /// The URL of the collection.
    pub fn base_url(self) -> (r: &'static str)
        ensures
            r@ == self.base(),
    {
        match self {
            Resource::Games => "https://www.speedrun.com/api/v1/games",
            Resource::Categories => "https://www.speedrun.com/api/v1/categories",
            Resource::Leaderboards => "https://www.speedrun.com/api/v1/leaderboards",
            Resource::Runs => "https://www.speedrun.com/api/v1/runs",
            Resource::Platforms => "https://www.speedrun.com/api/v1/platforms",
            Resource::Regions => "https://www.speedrun.com/api/v1/regions",
        }
    }
}

/// A text has at most four bytes for each of its characters.
pub proof fn lemma_byte_len_bound(text: Seq<char>)
    ensures
        byte_len(text) <= 4 * text.len(),
    decreases text.len(),
{
    if text.len() > 0 {
        lemma_byte_len_bound(text.drop_first());
    }
}

impl Resource {
    /// The URL of a collection is short.
    pub proof fn lemma_base_is_short(self)
        ensures
            byte_len(self.base()) <= MAX_TEXT,
    {
        reveal_strlit("https://www.speedrun.com/api/v1/games");
        reveal_strlit("https://www.speedrun.com/api/v1/categories");
        reveal_strlit("https://www.speedrun.com/api/v1/leaderboards");
        reveal_strlit("https://www.speedrun.com/api/v1/runs");
        reveal_strlit("https://www.speedrun.com/api/v1/platforms");
        reveal_strlit("https://www.speedrun.com/api/v1/regions");
        lemma_byte_len_bound(self.base());
    }
}

impl View for Endpoint {
    type V = EndpointView;

    open spec fn view(&self) -> EndpointView {
        EndpointView {
            resource: self.resource,
            path: texts(self.path@),
            query: text_pairs(self.query@),
        }
    }
}

impl EndpointView {
    /// The endpoint of the given parts.
    pub open spec fn of(
        resource: Resource,
        path: Seq<Seq<char>>,
        query: Seq<(Seq<char>, Seq<char>)>,
    ) -> Self {
        EndpointView { resource, path, query }
    }

    /// The URL of the resource with the path below it: the collection
    /// itself where the path is empty; nothing where the path is too long.
    pub open spec fn located(self) -> Option<Seq<char>> {
        if self.path.len() == 0 {
            parsed_url(self.resource.base())
        } else if path_fits(self.path) {
            url_extended(self.resource.base(), self.path)
        } else {
            None
        }
    }

    /// The URL of the endpoint: that of resource and path, with the pairs
    /// of the query appended one after the other; nothing where a name, a
    /// value or the URL grows too long on the way.
    pub open spec fn url(self) -> Option<Seq<char>> {
        with_pairs(self.located(), self.query)
    }
}

/// The query that limits the pages of a collection to so many elements:
/// empty where no number is given.
pub open spec fn page_size_query(elements_per_page: Option<u16>) -> Seq<(Seq<char>, Seq<char>)> {
    match elements_per_page {
        Some(elements) => seq![("max"@, decimal(elements as nat))],
        None => Seq::empty(),
    }
}

/// A URL with pairs appended to its query, one after the other.
pub open spec fn with_pairs(url: Option<Seq<char>>, pairs: Seq<(Seq<char>, Seq<char>)>) -> Option<
    Seq<char>,
>
    decreases pairs.len(),
{
    if pairs.len() == 0 {
        url
    } else {
        let (name, value) = pairs.last();
        match with_pairs(url, pairs.drop_last()) {
            Some(so_far) => if byte_len(so_far) <= MAX_URL && byte_len(name) <= MAX_TEXT
                && byte_len(value) <= MAX_TEXT {
                url_with_pair(so_far, name, value)
            } else {
                None
            },
            None => None,
        }
    }
}

/// Whether a text has at most `limit` bytes.
fn text_fits(text: &str, limit: usize) -> (r: bool)
    ensures
        r == (byte_len(text@) <= limit),
{
    text.as_bytes().len() <= limit
}

/// Whether the segments are few and short enough for a URL.
fn check_path(path: &Vec<String>) -> (r: bool)
    ensures
        r == path_fits(texts(path@)),
{
    if path.len() > MAX_SEGMENTS {
        return false;
    }
    let ghost segments = texts(path@);
    let mut i: usize = 0;
    while i < path.len()
        invariant
            i <= path.len(),
            path.len() <= MAX_SEGMENTS,
            segments == texts(path@),
            forall|k: int| 0 <= k < i ==> byte_len(#[trigger] segments[k]) <= MAX_TEXT,
        decreases path.len() - i,
    {
        assert(segments[i as int] == path@[i as int]@);
        if !text_fits(path[i].as_str(), MAX_TEXT) {
            return false;
        }
        i += 1;
    }
    true
}

impl Endpoint {
    /// The endpoint of a collection, with no path below it and no query.
    pub fn new(resource: Resource) -> (endpoint: Endpoint)
        ensures
            endpoint@ == EndpointView::of(resource, Seq::empty(), Seq::empty()),
    {
        Endpoint { resource, path: Vec::new(), query: Vec::new() }
    }

    /// Appends a segment to the path.
    pub fn push_segment(&mut self, segment: &str)
        ensures
            final(self)@ == EndpointView::of(
                old(self)@.resource,
                old(self)@.path.push(segment@),
                old(self)@.query,
            ),
    {
        self.path.push(String::from_str(segment));
    }

    /// Appends a pair of name and value to the query.
    pub fn push_pair(&mut self, name: &str, value: &str)
        ensures
            final(self)@ == EndpointView::of(
                old(self)@.resource,
                old(self)@.path,
                old(self)@.query.push((name@, value@)),
            ),
    {
        self.query.push((String::from_str(name), String::from_str(value)));
    }

    /// Writes the endpoint out as a URL.
    ///
    /// The url crate does the writing: it parses the URL of the collection,
    /// appends the segments of the path and then the pairs of the query.
    /// There is no URL where a part is too long for one.
    pub fn url(&self) -> (r: Option<String>)
        ensures
            url_view(r) == self@.url(),
    {
        let base = self.resource.base_url();
        let located = if self.path.len() == 0 {
            parse_url(base)
        } else if check_path(&self.path) {
            proof {
                self.resource.lemma_base_is_short();
            }
            extend_path(base, &self.path)
        } else {
            None
        };
        let ghost pairs = text_pairs(self.query@);
        let mut url = located;
        let mut i: usize = 0;
        while i < self.query.len()
            invariant
                i <= self.query.len(),
                pairs == text_pairs(self.query@),
                url_view(url) == with_pairs(self@.located(), pairs.take(i as int)),
            decreases self.query.len() - i,
        {
            assert(pairs.take(i + 1).drop_last() =~= pairs.take(i as int));
            url = match url {
                Some(so_far) => {
                    let name = self.query[i].0.as_str();
                    let value = self.query[i].1.as_str();
                    if text_fits(so_far.as_str(), MAX_URL) && text_fits(name, MAX_TEXT)
                        && text_fits(value, MAX_TEXT) {
                        append_pair(so_far.as_str(), name, value)
                    } else {
                        None
                    }
                },
                None => None,
            };
            i += 1;
        }
        assert(pairs.take(i as int) =~= pairs);
        url
    }
}

} // verus!
