//! The leaderboards of the categories, and the players on them.

use crate::common::{Id, Names};
use crate::endpoint::{Endpoint, EndpointView, Resource};
use crate::response::Data;
use crate::runs::{PlayerRef, Players, Run};
use crate::text::{join, joined, slice_texts};
use vstd::prelude::*;

verus! {

/// What a leaderboard is asked to describe in full instead of naming it by
/// reference: a set of flags.
#[derive(Clone, Copy, Debug, PartialEq, Eq)]
pub struct Embeds {
    bits: u8,
}

/// A leaderboard: the best runs of a category.
#[derive(Debug, PartialEq, Eq)]
pub struct Leaderboard {
    pub weblink: String,
    pub runs: Vec<Record>,
    pub players: Option<Data<Vec<Player>>>,
}

/// A player of a leaderboard, borrowed from it.
#[derive(Debug, Copy, Clone)]
pub enum PlayerBorrow<'leaderboard> {
    User(&'leaderboard User),
    Guest(&'leaderboard Guest),
}

/// A player: a user of the service, or a guest.
#[derive(Debug, PartialEq, Eq)]
pub enum Player {
    User(User),
    Guest(Guest),
}

/// A user of the service.
#[derive(Debug, PartialEq, Eq)]
pub struct User {
    pub id: Id,
    pub names: Names,
    pub weblink: String,
    pub name_style: NameStyle,
    pub location: Option<UserLocation>,
}

/// A player who is no user of the service.
#[derive(Debug, PartialEq, Eq)]
pub struct Guest {
    pub name: String,
}

/// How the name of a user is coloured.
#[derive(Debug, PartialEq, Eq)]
pub enum NameStyle {
    Solid { color: Color },
    Gradient { color_from: Color, color_to: Color },
}

/// A colour, for light and for dark backgrounds.
#[derive(Debug, PartialEq, Eq)]
pub struct Color {
    pub light: String,
    pub dark: String,
}

/// Where a user lives.
#[derive(Debug, PartialEq, Eq)]
pub struct UserLocation {
    pub country: UserCountry,
}

/// A country.
#[derive(Debug, PartialEq, Eq)]
pub struct UserCountry {
    pub code: String,
}

/// A run and its place on the leaderboard.
#[derive(Debug, PartialEq, Eq)]
pub struct Record {
    pub place: u32,
    pub run: Run,
}

impl Embeds {
    #[verifier::type_invariant]
    spec fn known(self) -> bool {
        self.bits <= 1
    }

    /// The flags as bits.
    pub closed spec fn flags(self) -> u8 {
        self.bits
    }

    /// Whether the players are among the flags.
    pub open spec fn has_players(self) -> bool {
        self.flags() & 1 == 1
    }

    /// The names of the flags as the service knows them, in their order.
    pub open spec fn names(self) -> Seq<Seq<char>> {
        if self.has_players() {
            seq!["players"@]
        } else {
            Seq::empty()
        }
    }

    /// The flag for the players of the runs.
    pub fn players() -> (r: Embeds)
        ensures
            r.flags() == 1,
    {
        Embeds { bits: 1 }
    }

    /// No flag.
    pub fn empty() -> (r: Embeds)
        ensures
            r.flags() == 0,
    {
        Embeds { bits: 0 }
    }

    /// Every flag.
    pub fn all() -> (r: Embeds)
        ensures
            r.flags() == 1,
    {
        Embeds { bits: 1 }
    }

    /// The flags as bits.
    pub fn bits(&self) -> (r: u8)
        ensures
            r == self.flags(),
            r <= 1,
    {
        proof {
            use_type_invariant(self);
        }
        self.bits
    }

    /// The flags of the given bits, which must all stand for a flag.
    pub fn from_bits(bits: u8) -> (r: Option<Embeds>)
        ensures
            r is Some <==> bits <= 1,
            r matches Some(embeds) ==> embeds.flags() == bits,
    {
        if bits <= 1 {
            Some(Embeds { bits })
        } else {
            None
        }
    }

    /// Whether no flag is set.
    pub fn is_empty(&self) -> (r: bool)
        ensures
            r == (self.flags() == 0),
    {
        self.bits == 0
    }

    /// Whether every flag of `other` is set in `self`.
    pub fn contains(&self, other: Embeds) -> (r: bool)
        ensures
            r == (self.flags() & other.flags() == other.flags()),
    {
        self.bits & other.bits == other.bits
    }

    /// The flags of `self` together with those of `other`.
    pub fn union(self, other: Embeds) -> (r: Embeds)
        ensures
            r.flags() == self.flags() | other.flags(),
    {
        proof {
            use_type_invariant(self);
            use_type_invariant(other);
        }
        let a = self.bits;
        let b = other.bits;
        assert((a | b) <= 1) by (bit_vector)
            requires
                a <= 1 && b <= 1,
        ;
        Embeds { bits: a | b }
    }

    /// The names of the flags as the service knows them, in their order.
    pub fn flag_names(&self) -> (r: Vec<&'static str>)
        ensures
            slice_texts(r@) == self.names(),
    {
        let mut names: Vec<&'static str> = Vec::new();
        if self.contains(Embeds::players()) {
            names.push("players");
        }
        names
    }
}

impl Default for Embeds {
    fn default() -> (r: Embeds)
        ensures
            r.flags() == 0,
    {
        Embeds::empty()
    }
}

/// The query that asks for the flagged parts in full: empty where no flag
/// is set; else the names of the flags, with commas between them.
pub open spec fn embed_query(embeds: Embeds) -> Seq<(Seq<char>, Seq<char>)> {
    if embeds.flags() == 0 {
        Seq::empty()
    } else {
        seq![("embed"@, joined(embeds.names(), ","@))]
    }
}

/// The leaderboard of a category of a game.
pub open spec fn leaderboard_of(game_id: Seq<char>, category_id: Seq<char>, embeds: Embeds)
    -> EndpointView {
    EndpointView::of(
        Resource::Leaderboards,
        seq![game_id, "category"@, category_id],
        embed_query(embeds),
    )
}

/// The leaderboard of the given category of the given game, with the
/// flagged parts described in full.
pub fn get(game_id: &str, category_id: &str, embeds: Embeds) -> (endpoint: Endpoint)
    ensures
        endpoint@ == leaderboard_of(game_id@, category_id@, embeds),
{
    let mut endpoint = Endpoint::new(Resource::Leaderboards);
    endpoint.push_segment(game_id);
    endpoint.push_segment("category");
    endpoint.push_segment(category_id);
    if !embeds.is_empty() {
        let names = embeds.flag_names();
        let text = join(&names, ",");
        endpoint.push_pair("embed", text.as_str());
    }
    endpoint
}

/// The first user among `players` with the given identifier.
pub open spec fn find_user(players: Seq<Player>, id: Seq<char>) -> Option<User>
    decreases players.len(),
{
    if players.len() == 0 {
        None
    } else {
        match players[0] {
            Player::User(user) if user.id@ == id => Some(user),
            _ => find_user(players.drop_first(), id),
        }
    }
}

/// The player that a reference stands for: a guest is named in full, a
/// user is looked up among `players` and may be missing there.
pub open spec fn resolved<'a>(players: Seq<Player>, player: PlayerRef) -> Option<
    PlayerBorrow<'a>,
> {
    match player {
        PlayerRef::User(user) => match find_user(players, user.id@) {
            Some(found) => Some(PlayerBorrow::User(&found)),
            None => None,
        },
        PlayerRef::Guest(guest) => Some(PlayerBorrow::Guest(&guest)),
    }
}

/// The players that some references stand for, in the order of the
/// references, without those that are missing among `players`.
pub open spec fn resolved_all<'a>(players: Seq<Player>, refs: Seq<PlayerRef>) -> Seq<
    PlayerBorrow<'a>,
>
    decreases refs.len(),
{
    if refs.len() == 0 {
        Seq::empty()
    } else {
        let before = resolved_all(players, refs.drop_last());
        match resolved(players, refs.last()) {
            Some(player) => before.push(player),
            None => before,
        }
    }
}

/// The players of a run as far as `players` knows them. A run that
/// describes its players in full names none by reference.
pub open spec fn players_of<'a>(players: Seq<Player>, run: Run) -> Seq<PlayerBorrow<'a>> {
    match run.players {
        Players::Refs(refs) => resolved_all(players, refs@),
        Players::Embedded { .. } => Seq::empty(),
    }
}

/// Looks up the first user with the given identifier.
fn lookup_user<'a>(players: &'a Vec<Player>, id: &Id) -> (r: Option<&'a User>)
    ensures
        match r {
            Some(user) => find_user(players@, id@) == Some(*user),
            None => find_user(players@, id@) is None,
        },
{
    let mut i: usize = 0;
    assert(players@.skip(0) =~= players@);
    while i < players.len()
        invariant
            i <= players.len(),
            find_user(players@, id@) == find_user(players@.skip(i as int), id@),
        decreases players.len() - i,
    {
        assert(players@.skip(i as int).drop_first() =~= players@.skip(i + 1));
        match &players[i] {
            Player::User(user) => {
                if user.id == *id {
                    return Some(user);
                }
            },
            Player::Guest(_) => {},
        }
        i += 1;
    }
    None
}

/// The players in a list that may be missing.
pub open spec fn listed(players: Option<&Vec<Player>>) -> Seq<Player> {
    match players {
        Some(list) => list@,
        None => Seq::empty(),
    }
}

/// Resolves the references of a run.
fn resolve_refs<'a>(players: Option<&'a Vec<Player>>, refs: &'a Vec<PlayerRef>) -> (r: Vec<
    PlayerBorrow<'a>,
>)
    ensures
        r@ == resolved_all::<'a>(listed(players), refs@),
{
    let mut found: Vec<PlayerBorrow<'a>> = Vec::new();
    let mut i: usize = 0;
    while i < refs.len()
        invariant
            i <= refs.len(),
            found@ == resolved_all::<'a>(listed(players), refs@.take(i as int)),
        decreases refs.len() - i,
    {
        assert(refs@.take(i + 1).drop_last() =~= refs@.take(i as int));
        match &refs[i] {
            PlayerRef::User(user) => {
                let known = match players {
                    Some(list) => lookup_user(list, &user.id),
                    None => None,
                };
                match known {
                    Some(known) => {
                        found.push(PlayerBorrow::User(known));
                    },
                    None => {},
                }
            },
            PlayerRef::Guest(guest) => {
                found.push(PlayerBorrow::Guest(guest));
            },
        }
        i += 1;
    }
    assert(refs@.take(i as int) =~= refs@);
    found
}

impl Leaderboard {
    /// The players that the leaderboard describes in full.
    pub open spec fn known_players(self) -> Seq<Player> {
        match self.players {
            Some(embedded) => embedded.data@,
            None => Seq::empty(),
        }
    }

    /// The records of the leaderboard, each with the players of its run.
    ///
    /// A guest is taken from the run itself. A user is looked up among the
    /// players that the leaderboard describes in full, and left out where
    /// the user is not among them.
    pub fn records_with_players(&self) -> (r: Vec<(&Record, Vec<PlayerBorrow<'_>>)>)
        ensures
            r@.len() == self.runs@.len(),
            forall|i: int|
                0 <= i < r@.len() ==> *(#[trigger] r@[i]).0 == self.runs@[i] && r@[i].1@
                    == players_of(self.known_players(), self.runs@[i].run),
    {
        let known = match &self.players {
            Some(embedded) => Some(&embedded.data),
            None => None,
        };
        let mut records: Vec<(&Record, Vec<PlayerBorrow<'_>>)> = Vec::new();
        let mut i: usize = 0;
        while i < self.runs.len()
            invariant
                i <= self.runs.len(),
                listed(known) == self.known_players(),
                records@.len() == i,
                forall|k: int|
                    0 <= k < i ==> *(#[trigger] records@[k]).0 == self.runs@[k] && records@[k].1@
                        == players_of(self.known_players(), self.runs@[k].run),
            decreases self.runs.len() - i,
        {
            let record = &self.runs[i];
            let players = match &record.run.players {
                Players::Refs(refs) => resolve_refs(known, refs),
                Players::Embedded { .. } => Vec::new(),
            };
            records.push((record, players));
            i += 1;
        }
        records
    }
}

impl<'leaderboard> PlayerBorrow<'leaderboard> {
    /// The name of the player: the international name of a user, the name
    /// of a guest.
    pub fn name(&self) -> (r: &'leaderboard str)
        ensures
            r@ == (match *self {
                PlayerBorrow::User(user) => user.names.international@,
                PlayerBorrow::Guest(guest) => guest.name@,
            }),
    {
        match self {
            PlayerBorrow::User(user) => user.names.international.as_str(),
            PlayerBorrow::Guest(guest) => guest.name.as_str(),
        }
    }
}

} // verus!
