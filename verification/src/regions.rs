//! The regions that games are released in.

use crate::common::Id;
use crate::endpoint::{page_size_query, Endpoint, EndpointView, Resource};
use crate::text::decimal_text;
use vstd::prelude::*;

verus! {

/// A region.
#[derive(Debug, PartialEq, Eq)]
pub struct Region {
    pub id: Id,
    pub name: String,
}

/// All regions, page by page, with at most `elements_per_page` regions on
/// a page where a number is given.
pub fn all(elements_per_page: Option<u16>) -> (endpoint: Endpoint)
    ensures
        endpoint@ == EndpointView::of(
            Resource::Regions,
            Seq::empty(),
            page_size_query(elements_per_page),
        ),
{
    let mut endpoint = Endpoint::new(Resource::Regions);
    if let Some(elements) = elements_per_page {
        let text = decimal_text(elements);
        endpoint.push_pair("max", text.as_str());
    }
    endpoint
}

/// The region with the given identifier.
pub fn by_id(region_id: &str) -> (endpoint: Endpoint)
    ensures
        endpoint@ == EndpointView::of(Resource::Regions, seq![region_id@], Seq::empty()),
{
    let mut endpoint = Endpoint::new(Resource::Regions);
    endpoint.push_segment(region_id);
    endpoint
}

} // verus!
