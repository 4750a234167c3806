//! The runs that players have submitted.

use crate::categories;
use crate::common::Id;
use crate::endpoint::{Endpoint, EndpointView, Resource};
use crate::games;
use crate::leaderboards::{Guest, Player};
use crate::platforms;
use crate::regions;
use crate::text::{after_last_slash, last_part};
use std::collections::HashMap;
use vstd::prelude::*;

verus! {

/// A run.
#[derive(Debug, PartialEq, Eq)]
pub struct Run {
    pub id: Id,
    pub weblink: String,
    pub game: Id,
    pub category: Id,
    pub videos: Option<Videos>,
    pub comment: Option<String>,
    pub players: Players,
    pub date: Option<String>,
    pub submitted: Option<String>,
    pub times: Times,
    pub system: RunSystem,
    pub splits: Option<Splits>,
    pub values: HashMap<Id, Id>,
}

/// Who made a run: named by reference, or described in full.
#[derive(Debug, PartialEq, Eq)]
pub enum Players {
    Refs(Vec<PlayerRef>),
    Embedded { data: Vec<Player> },
}

/// A reference to a player.
#[derive(Debug, PartialEq, Eq)]
pub enum PlayerRef {
    User(UserRef),
    Guest(Guest),
}

/// A reference to a user of the service.
#[derive(Debug, PartialEq, Eq)]
pub struct UserRef {
    pub id: Id,
}

/// What a run was played on.
#[derive(Debug, PartialEq, Eq)]
pub struct RunSystem {
    pub emulated: bool,
    pub platform: Id,
    pub region: Option<Id>,
}

/// The videos of a run.
#[derive(Debug, PartialEq, Eq)]
pub struct Videos {
    pub links: Option<Vec<Video>>,
}

/// A video.
#[derive(Debug, PartialEq, Eq)]
pub struct Video {
    pub uri: String,
}

/// The time of a run.
#[derive(Debug, PartialEq, Eq)]
pub struct Times {
    /// The time as a duration in the notation of ISO 8601.
    pub primary: String,
    /// The time in seconds: the bits of the double that the service sent.
    pub primary_t_bits: u64,
}

/// The splits of a run.
#[derive(Debug, PartialEq, Eq)]
pub struct Splits {
    pub uri: String,
}

impl Splits {
    /// The identifier of the splits: what follows the last slash of their
    /// URI, and the whole URI where it has no slash.
    pub fn id(&self) -> (r: Option<&str>)
        ensures
            r matches Some(id) && id@ == last_part(self.uri@, '/'),
    {
        Some(after_last_slash(self.uri.as_str()))
    }
}

impl Run {
    /// The game of this run.
    pub fn game(&self) -> (endpoint: Endpoint)
        ensures
            endpoint@ == EndpointView::of(Resource::Games, seq![self.game@], Seq::empty()),
    {
        games::by_id(self.game.as_str())
    }

    /// The category of this run.
    pub fn category(&self) -> (endpoint: Endpoint)
        ensures
            endpoint@ == EndpointView::of(
                Resource::Categories,
                seq![self.category@],
                Seq::empty(),
            ),
    {
        categories::by_id(self.category.as_str())
    }

    /// The identifier of the splits of this run, where it has splits.
    pub fn splits_id(&self) -> (r: Option<&str>)
        ensures
            match self.splits {
                Some(splits) => r matches Some(id) && id@ == last_part(splits.uri@, '/'),
                None => r is None,
            },
    {
        match &self.splits {
            Some(splits) => splits.id(),
            None => None,
        }
    }
}

impl RunSystem {
    /// The platform that the run was played on.
    pub fn platform(&self) -> (endpoint: Endpoint)
        ensures
            endpoint@ == EndpointView::of(
                Resource::Platforms,
                seq![self.platform@],
                Seq::empty(),
            ),
    {
        platforms::by_id(self.platform.as_str())
    }

    /// The region that the run was played in, where one is known: without
    /// one there is nothing to ask for.
    pub fn region(&self) -> (r: Option<Endpoint>)
        ensures
            match self.region {
                Some(region) => r matches Some(endpoint) && endpoint@ == EndpointView::of(
                    Resource::Regions,
                    seq![region@],
                    Seq::empty(),
                ),
                None => r is None,
            },
    {
        match &self.region {
            Some(region) => Some(regions::by_id(region.as_str())),
            None => None,
        }
    }
}

/// The run with the given identifier.
pub fn by_id(run_id: &str) -> (endpoint: Endpoint)
    ensures
        endpoint@ == EndpointView::of(Resource::Runs, seq![run_id@], Seq::empty()),
{
    let mut endpoint = Endpoint::new(Resource::Runs);
    endpoint.push_segment(run_id);
    endpoint
}

} // verus!
