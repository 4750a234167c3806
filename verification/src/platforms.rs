//! The platforms that games run on.

use crate::common::Id;
use crate::endpoint::{page_size_query, Endpoint, EndpointView, Resource};
use crate::text::decimal_text;
use vstd::prelude::*;

verus! {

/// A platform.
#[derive(Debug, PartialEq, Eq)]
pub struct Platform {
    pub id: Id,
    pub name: String,
}

/// All platforms, page by page, with at most `elements_per_page` platforms on
/// a page where a number is given.
pub fn all(elements_per_page: Option<u16>) -> (endpoint: Endpoint)
    ensures
        endpoint@ == EndpointView::of(
            Resource::Platforms,
            Seq::empty(),
            page_size_query(elements_per_page),
        ),
{
    let mut endpoint = Endpoint::new(Resource::Platforms);
    if let Some(elements) = elements_per_page {
        let text = decimal_text(elements);
        endpoint.push_pair("max", text.as_str());
    }
    endpoint
}

/// The platform with the given identifier.
pub fn by_id(platform_id: &str) -> (endpoint: Endpoint)
    ensures
        endpoint@ == EndpointView::of(Resource::Platforms, seq![platform_id@], Seq::empty()),
{
    let mut endpoint = Endpoint::new(Resource::Platforms);
    endpoint.push_segment(platform_id);
    endpoint
}

} // verus!
