//! The categories that the runs of a game are ranked in.

use crate::common::Id;
use crate::endpoint::{Endpoint, EndpointView, Resource};
use crate::games::Game;
use crate::leaderboards::{self, Embeds};
use vstd::prelude::*;

verus! {

/// A category of a game.
#[derive(Debug, PartialEq, Eq)]
pub struct Category {
    pub id: Id,
    pub weblink: String,
    pub name: String,
    pub kind: CategoryKind,
    pub rules: Option<String>,
}

/// What a category ranks: runs of the whole game, or runs of one level.
#[derive(Clone, Copy, Debug, PartialEq, Eq, Structural)]
pub enum CategoryKind {
    PerGame,
    PerLevel,
}

impl Category {
    /// The leaderboard of this category in the given game.
    pub fn leaderboard(&self, game: &Game, embeds: Embeds) -> (endpoint: Endpoint)
        ensures
            endpoint@ == leaderboards::leaderboard_of(game.id@, self.id@, embeds),
    {
        leaderboards::get(game.id.as_str(), self.id.as_str(), embeds)
    }
}

/// The categories of the game with the given identifier.
pub fn for_game(game_id: &str) -> (endpoint: Endpoint)
    ensures
        endpoint@ == EndpointView::of(
            Resource::Games,
            seq![game_id@, "categories"@],
            Seq::empty(),
        ),
{
    let mut endpoint = Endpoint::new(Resource::Games);
    endpoint.push_segment(game_id);
    endpoint.push_segment("categories");
    endpoint
}

/// The category with the given identifier.
pub fn by_id(category_id: &str) -> (endpoint: Endpoint)
    ensures
        endpoint@ == EndpointView::of(Resource::Categories, seq![category_id@], Seq::empty()),
{
    let mut endpoint = Endpoint::new(Resource::Categories);
    endpoint.push_segment(category_id);
    endpoint
}

} // verus!
