//! The games that the service keeps leaderboards of.

use crate::categories;
use crate::common::{Id, Names};
use crate::endpoint::{Endpoint, EndpointView, Resource};
use crate::response::Data;
use crate::text::{decimal, decimal_text};
use std::collections::HashMap;
use vstd::prelude::*;

verus! {

/// A game.
#[derive(Debug, PartialEq, Eq)]
pub struct Game {
    pub id: Id,
    pub names: Names,
    pub abbreviation: String,
    pub weblink: String,
    pub released: u16,
    pub release_date: String,
    pub assets: Assets,
    pub ruleset: Rules,
    pub platforms: Vec<Id>,
    pub variables: Option<Data<Vec<Variable>>>,
}

/// The pictures of a game.
#[derive(Debug, PartialEq, Eq)]
pub struct Assets {
    pub logo: Asset,
    pub cover_tiny: Asset,
    pub cover_small: Asset,
    pub cover_medium: Asset,
    pub cover_large: Asset,
    pub icon: Asset,
    pub trophy_1st: Asset,
    pub trophy_2nd: Asset,
    pub trophy_3rd: Asset,
    pub trophy_4th: Option<Asset>,
    pub background: Option<Asset>,
    pub foreground: Option<Asset>,
}

/// A picture.
#[derive(Debug, PartialEq, Eq)]
pub struct Asset {
    pub uri: String,
    pub width: u32,
    pub height: u32,
}

/// The rules that the runs of a game are held to.
#[derive(Debug, PartialEq, Eq)]
pub struct Rules {
    pub show_milliseconds: bool,
    pub require_verification: bool,
    pub require_video: bool,
    pub run_times: Vec<TimingMethod>,
    pub default_time: TimingMethod,
    pub emulators_allowed: bool,
}

/// How the time of a run is taken.
#[derive(Clone, Copy, Debug, PartialEq, Eq, Structural)]
pub enum TimingMethod {
    RealTime,
    RealTimeNoLoads,
    InGame,
}

/// A variable by which the runs of a game are told apart.
#[derive(Debug, PartialEq, Eq)]
pub struct Variable {
    pub id: Id,
    pub name: String,
    pub category: Option<Id>,
    pub scope: VariableScope,
    pub values: VariableValues,
    pub mandatory: bool,
    pub is_subcategory: bool,
}

/// Where a variable applies.
#[derive(Debug, PartialEq, Eq)]
pub struct VariableScope {
    pub kind: VariableScopeKind,
}

/// The kinds of places where a variable may apply.
#[derive(Clone, Copy, Debug, PartialEq, Eq, Structural)]
pub enum VariableScopeKind {
    Global,
    FullGame,
    AllLevels,
    SingleLevel,
}

/// The values that a variable can take.
#[derive(Debug, PartialEq, Eq)]
pub struct VariableValues {
    pub values: HashMap<Id, VariableValue>,
    pub default: Option<Id>,
}

/// One value of a variable.
#[derive(Debug, PartialEq, Eq)]
pub struct VariableValue {
    pub label: String,
    pub rules: Option<String>,
}

/// What the list of all games says of one game.
#[derive(Debug, PartialEq, Eq)]
pub struct GameHeader {
    pub id: Id,
    pub names: Names,
    pub abbreviation: String,
    pub weblink: String,
}

impl Game {
    /// The games whose name resembles `name`, page by page.
    pub fn search(name: &str) -> (endpoint: Endpoint)
        ensures
            endpoint@ == EndpointView::of(
                Resource::Games,
                Seq::empty(),
                seq![("name"@, name@)],
            ),
    {
        search(name)
    }

    /// The categories of this game.
    pub fn categories(&self) -> (endpoint: Endpoint)
        ensures
            endpoint@ == EndpointView::of(
                Resource::Games,
                seq![self.id@, "categories"@],
                Seq::empty(),
            ),
    {
        categories::for_game(self.id.as_str())
    }
}

impl GameHeader {
    /// The game in full.
    pub fn game(&self) -> (endpoint: Endpoint)
        ensures
            endpoint@ == EndpointView::of(Resource::Games, seq![self.id@], Seq::empty()),
    {
        by_id(self.id.as_str())
    }
}

/// The number of elements on a page as the query of the list of all games
/// names it: the given number, and 1000 where none is given.
pub open spec fn bulk_page_size(elements_per_page: Option<u16>) -> Seq<char> {
    match elements_per_page {
        Some(elements) => decimal(elements as nat),
        None => "1000"@,
    }
}

/// All games in short, page by page, with at most `elements_per_page`
/// games on a page, and 1000 where no number is given.
pub fn all(elements_per_page: Option<u16>) -> (endpoint: Endpoint)
    ensures
        endpoint@ == EndpointView::of(
            Resource::Games,
            Seq::empty(),
            seq![("_bulk"@, "yes"@), ("max"@, bulk_page_size(elements_per_page))],
        ),
{
    let mut endpoint = Endpoint::new(Resource::Games);
    endpoint.push_pair("_bulk", "yes");
    match elements_per_page {
        Some(elements) => {
            let text = decimal_text(elements);
            endpoint.push_pair("max", text.as_str());
        },
        None => {
            endpoint.push_pair("max", "1000");
        },
    }
    endpoint
}

/// The games whose name resembles `name`, page by page.
pub fn search(name: &str) -> (endpoint: Endpoint)
    ensures
        endpoint@ == EndpointView::of(Resource::Games, Seq::empty(), seq![("name"@, name@)]),
{
    let mut endpoint = Endpoint::new(Resource::Games);
    endpoint.push_pair("name", name);
    endpoint
}

/// The game with the given identifier.
pub fn by_id(game_id: &str) -> (endpoint: Endpoint)
    ensures
        endpoint@ == EndpointView::of(Resource::Games, seq![game_id@], Seq::empty()),
{
    let mut endpoint = Endpoint::new(Resource::Games);
    endpoint.push_segment(game_id);
    endpoint
}

} // verus!
