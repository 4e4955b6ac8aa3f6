//! Contains models for the `/rankings/:country_code/players?limit=x` Brawl Stars
//! API endpoint.

use vstd::prelude::*;
use serde_json::Value as JsonValue;
use crate::clone::{FaithfulClone, duplicate};
use crate::error::Error;
use crate::http::client::Client;
use crate::http::request::HttpRequest;
use crate::http::response::Response;
use crate::http::routes::{Route, RouteView};
use crate::json::{Json, value_as_object};
use crate::serde::{
    FromJson, field_ok, list_field, number_field, number_field_ok, plain_field, read_field,
    read_list, read_number_usize, read_or, read_text, text_field,
};
use crate::traits::{PropLimFetchable, PropLimRouteable};
use crate::util::{fetch_request, fetch_route, reads_as};

verus! {

/// Represents a leaderboard of `PlayerRanking`s: the top players of a country,
/// or of the world. Use `PlayerLeaderboard::fetch` to fetch one.
#[derive(Debug, Hash, PartialEq, Eq)]
pub struct PlayerLeaderboard {
    /// The players in the ranking.
    pub items: Vec<PlayerRanking>,
}

impl Clone for PlayerLeaderboard {
    /// A clone holds the same as this `PlayerLeaderboard`.
    fn clone(&self) -> (r: PlayerLeaderboard)
        ensures
            r.same(self),
    {
        PlayerLeaderboard {
            items: duplicate(&self.items),
        }
    }
}

impl FaithfulClone for PlayerLeaderboard {
    open spec fn same(&self, other: &PlayerLeaderboard) -> bool {
        &&& self.items.same(&other.items)
    }

    proof fn same_is_reflexive(value: PlayerLeaderboard) {
        Vec::<PlayerRanking>::same_is_reflexive(value.items);
    }

    proof fn clone_is_same(value: PlayerLeaderboard, copy: PlayerLeaderboard) {
        if value == copy {
            Self::same_is_reflexive(value);
        }
    }
}

impl FromJson for PlayerLeaderboard {
    open spec fn json_ok(json: Json) -> bool {
        json matches Json::Object(members) && {
            &&& field_ok::<Vec<PlayerRanking>>(members, "items"@)
        }
    }

    open spec fn json_matches(&self, json: Json) -> bool {
        json matches Json::Object(members) && {
            &&& list_field(self.items, members, "items"@)
        }
    }

    fn from_json(value: &JsonValue) -> (r: Option<PlayerLeaderboard>) {
        let object = value_as_object(value)?;
        let items = read_list::<PlayerRanking>(object, "items")?;
        Some(PlayerLeaderboard { items })
    }
}

impl PlayerLeaderboard {
    /// A field that the object lacks has its initial value in the `PlayerLeaderboard` that
    /// the object reads as.
    pub proof fn absent_fields_are_initial(self, members: Map<Seq<char>, Json>)
        requires
            self.json_matches(Json::Object(members)),
        ensures
            !members.contains_key("items"@) ==> self.items@.len() == 0,
    {
    }
}

impl PropLimRouteable for PlayerLeaderboard {
    type Property = str;

    type Limit = u8;

    open spec fn spec_route(prop: Seq<char>, limit: u8) -> RouteView {
        RouteView::PlayerRankings { country_code: prop, limit }
    }

    /// The route that leads to the top `limit` players of a country, or of the
    /// world with `"global"` for country code.
    fn get_route(country_code: &str, limit: u8) -> (route: Route) {
        Route::PlayerRankings { country_code: String::from_str(country_code), limit }
    }
}

impl PropLimFetchable for PlayerLeaderboard {
    type Property = str;

    type Limit = u8;

    open spec fn spec_fetch_route(prop: Seq<char>, limit: u8) -> RouteView {
        RouteView::PlayerRankings { country_code: prop, limit }
    }

    open spec fn fetched(response: Response, r: Result<PlayerLeaderboard, Error>) -> bool {
        reads_as(response, r)
    }

    /// The request that fetches a player leaderboard, given a country code and
    /// a limit of how many players to fetch.
    fn fetch_request(client: &Client, country_code: &str, limit: u8) -> (r: Result<
        HttpRequest,
        Error,
    >) {
        let route = PlayerLeaderboard::get_route(country_code, limit);
        fetch_request(client, &route)
    }

    /// Constructs a leaderboard out of the response to the request of
    /// `fetch_request`.
    fn fetch(response: Response) -> (r: Result<PlayerLeaderboard, Error>) {
        fetch_route::<PlayerLeaderboard>(response)
    }
}

/// Represents a player's ranking, based on a regional or global leaderboard. To
/// obtain the player's full data (a `Player` instance), see
/// `Player::fetch_from`.
#[derive(Debug, Hash, PartialEq, Eq)]
pub struct PlayerRanking {
    /// The club the player is in: only its name is given.
    pub club: PlayerRankingClub,
    /// The player's tag.
    pub tag: String,
    /// The player's name.
    pub name: String,
    /// The player's current trophies.
    pub trophies: usize,
    /// The player's current rank in the leaderboard.
    pub rank: u8,
    /// The player's name color, as an integer (Default is 0xffffff = 16777215:
    /// this is used when the data is not available).
    pub name_color: usize,
}

impl Clone for PlayerRanking {
    /// A clone holds the same as this `PlayerRanking`.
    fn clone(&self) -> (r: PlayerRanking)
        ensures
            r.same(self),
    {
        PlayerRanking {
            club: duplicate(&self.club),
            tag: self.tag.clone(),
            name: self.name.clone(),
            trophies: self.trophies,
            rank: self.rank,
            name_color: self.name_color,
        }
    }
}

impl FaithfulClone for PlayerRanking {
    open spec fn same(&self, other: &PlayerRanking) -> bool {
        &&& self.club.same(&other.club)
        &&& self.tag@ == other.tag@
        &&& self.name@ == other.name@
        &&& self.trophies == other.trophies
        &&& self.rank == other.rank
        &&& self.name_color == other.name_color
    }

    proof fn same_is_reflexive(value: PlayerRanking) {
        PlayerRankingClub::same_is_reflexive(value.club);
    }

    proof fn clone_is_same(value: PlayerRanking, copy: PlayerRanking) {
        if value == copy {
            Self::same_is_reflexive(value);
        }
    }
}

impl FromJson for PlayerRanking {
    open spec fn json_ok(json: Json) -> bool {
        json matches Json::Object(members) && {
            &&& field_ok::<PlayerRankingClub>(members, "club"@)
            &&& field_ok::<String>(members, "tag"@)
            &&& field_ok::<String>(members, "name"@)
            &&& field_ok::<usize>(members, "trophies"@)
            &&& field_ok::<u8>(members, "rank"@)
            &&& number_field_ok(members, "nameColor"@, usize::MAX as nat)
        }
    }

    open spec fn json_matches(&self, json: Json) -> bool {
        json matches Json::Object(members) && {
            &&& if members.contains_key("club"@) {
                self.club.json_matches(members["club"@])
            } else {
                self.club.is_default()
            }
            &&& text_field(self.tag, members, "tag"@)
            &&& text_field(self.name, members, "name"@)
            &&& plain_field(self.trophies, members, "trophies"@, 0)
            &&& plain_field(self.rank, members, "rank"@, 1)
            &&& number_field(
                self.name_color as nat,
                members,
                "nameColor"@,
                0xffffff,
                usize::MAX as nat,
            )
        }
    }

    fn from_json(value: &JsonValue) -> (r: Option<PlayerRanking>) {
        let object = value_as_object(value)?;
        let club = match read_field::<PlayerRankingClub>(object, "club")? {
            Some(club) => club,
            None => PlayerRankingClub::default(),
        };
        let tag = read_text(object, "tag")?;
        let name = read_text(object, "name")?;
        let trophies = read_or::<usize>(object, "trophies", 0)?;
        let rank = read_or::<u8>(object, "rank", 1)?;
        let name_color = read_number_usize(object, "nameColor", 0xffffff)?;
        Some(PlayerRanking { club, tag, name, trophies, rank, name_color })
    }
}

impl PlayerRanking {
    /// A field that the object lacks has its initial value in the `PlayerRanking` that
    /// the object reads as.
    pub proof fn absent_fields_are_initial(self, members: Map<Seq<char>, Json>)
        requires
            self.json_matches(Json::Object(members)),
        ensures
            !members.contains_key("club"@) ==> self.club.is_default(),
            !members.contains_key("tag"@) ==> self.tag@ == Seq::<char>::empty(),
            !members.contains_key("name"@) ==> self.name@ == Seq::<char>::empty(),
            !members.contains_key("trophies"@) ==> self.trophies == 0,
            !members.contains_key("rank"@) ==> self.rank == 1,
            !members.contains_key("nameColor"@) ==> self.name_color == 0xffffff,
    {
        assert(self.tag@.len() == 0 ==> self.tag@ =~= Seq::<char>::empty());
        assert(self.name@.len() == 0 ==> self.name@ =~= Seq::<char>::empty());
    }
}

/// Represents the club in a player's ranking (a `PlayerRanking` object). Only
/// its name is given.
#[non_exhaustive]
#[derive(Debug, Hash, PartialEq, Eq)]
pub struct PlayerRankingClub {
    /// The club's name.
    pub name: String,
}

impl Clone for PlayerRankingClub {
    /// A clone holds the same as this `PlayerRankingClub`.
    fn clone(&self) -> (r: PlayerRankingClub)
        ensures
            r.same(self),
    {
        PlayerRankingClub {
            name: self.name.clone(),
        }
    }
}

impl FaithfulClone for PlayerRankingClub {
    open spec fn same(&self, other: &PlayerRankingClub) -> bool {
        &&& self.name@ == other.name@
    }

    proof fn same_is_reflexive(value: PlayerRankingClub) {
    }

    proof fn clone_is_same(value: PlayerRankingClub, copy: PlayerRankingClub) {
        if value == copy {
            Self::same_is_reflexive(value);
        }
    }
}

impl PlayerRankingClub {
    /// Whether this is the instance with initial values.
    pub open spec fn is_default(&self) -> bool {
        &&& self.name@.len() == 0
    }
}

impl Default for PlayerRankingClub {
    /// Returns an instance of `PlayerRankingClub` with initial values.
    fn default() -> (r: PlayerRankingClub)
        ensures
            r.is_default(),
    {
        PlayerRankingClub {
            name: String::new(),
        }
    }
}

impl FromJson for PlayerRankingClub {
    open spec fn json_ok(json: Json) -> bool {
        json matches Json::Object(members) && {
            &&& field_ok::<String>(members, "name"@)
        }
    }

    open spec fn json_matches(&self, json: Json) -> bool {
        json matches Json::Object(members) && {
            &&& text_field(self.name, members, "name"@)
        }
    }

    fn from_json(value: &JsonValue) -> (r: Option<PlayerRankingClub>) {
        let object = value_as_object(value)?;
        let name = read_text(object, "name")?;
        Some(PlayerRankingClub { name })
    }
}

impl PlayerRankingClub {
    /// A field that the object lacks has its initial value in the `PlayerRankingClub` that
    /// the object reads as.
    pub proof fn absent_fields_are_initial(self, members: Map<Seq<char>, Json>)
        requires
            self.json_matches(Json::Object(members)),
        ensures
            !members.contains_key("name"@) ==> self.name@ == Seq::<char>::empty(),
    {
        assert(self.name@.len() == 0 ==> self.name@ =~= Seq::<char>::empty());
    }

    /// An object that holds none of the fields can be read, and reads as the
    /// `PlayerRankingClub` with initial values.
    pub proof fn reads_without_fields(self)
        ensures
            PlayerRankingClub::json_ok(Json::Object(Map::empty())),
            self.json_matches(Json::Object(Map::empty())) ==> self.is_default(),
    {
    }
}

impl PlayerRankingClub {
    /// Creates a new `PlayerRankingClub` instance with the given name.
    pub fn new(name: &str) -> (club: PlayerRankingClub)
        ensures
            club.name@ == name@,
    {
        PlayerRankingClub { name: String::from_str(name) }
    }
}

} // verus!
