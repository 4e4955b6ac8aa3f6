//! Contains models for the `/rankings/:country_code/clubs?limit=x` Brawl Stars
//! API endpoint.

use vstd::prelude::*;
use vstd::std_specs::cmp::PartialOrdSpecImpl;
use std::cmp::Ordering;
use serde_json::Value as JsonValue;
use crate::clone::{FaithfulClone, duplicate};
use crate::error::Error;
use crate::http::client::Client;
use crate::http::request::HttpRequest;
use crate::http::response::Response;
use crate::http::routes::{Route, RouteView};
use crate::json::{Json, value_as_object};
use crate::serde::{
    FromJson, field_ok, list_field, plain_field, read_list, read_or, read_text, text_field,
};
use crate::traits::{PropLimFetchable, PropLimRouteable};
use crate::util::{fetch_request, fetch_route, reads_as};

verus! {

/// Represents a leaderboard of `ClubRanking`s: the top clubs of a country, or
/// of the world. Use `ClubLeaderboard::fetch` to fetch one.
#[derive(Debug, Hash, PartialEq, Eq)]
pub struct ClubLeaderboard {
    /// The clubs in the ranking.
    pub items: Vec<ClubRanking>,
}

impl Clone for ClubLeaderboard {
    /// A clone holds the same as this `ClubLeaderboard`.
    fn clone(&self) -> (r: ClubLeaderboard)
        ensures
            r.same(self),
    {
        ClubLeaderboard {
            items: duplicate(&self.items),
        }
    }
}

impl FaithfulClone for ClubLeaderboard {
    open spec fn same(&self, other: &ClubLeaderboard) -> bool {
        &&& self.items.same(&other.items)
    }

    proof fn same_is_reflexive(value: ClubLeaderboard) {
        Vec::<ClubRanking>::same_is_reflexive(value.items);
    }

    proof fn clone_is_same(value: ClubLeaderboard, copy: ClubLeaderboard) {
        if value == copy {
            Self::same_is_reflexive(value);
        }
    }
}

impl FromJson for ClubLeaderboard {
    open spec fn json_ok(json: Json) -> bool {
        json matches Json::Object(members) && {
            &&& field_ok::<Vec<ClubRanking>>(members, "items"@)
        }
    }

    open spec fn json_matches(&self, json: Json) -> bool {
        json matches Json::Object(members) && {
            &&& list_field(self.items, members, "items"@)
        }
    }

    fn from_json(value: &JsonValue) -> (r: Option<ClubLeaderboard>) {
        let object = value_as_object(value)?;
        let items = read_list::<ClubRanking>(object, "items")?;
        Some(ClubLeaderboard { items })
    }
}

impl ClubLeaderboard {
    /// A field that the object lacks has its initial value in the `ClubLeaderboard` that
    /// the object reads as.
    pub proof fn absent_fields_are_initial(self, members: Map<Seq<char>, Json>)
        requires
            self.json_matches(Json::Object(members)),
        ensures
            !members.contains_key("items"@) ==> self.items@.len() == 0,
    {
    }
}

impl PropLimRouteable for ClubLeaderboard {
    type Property = str;

    type Limit = u8;

    open spec fn spec_route(prop: Seq<char>, limit: u8) -> RouteView {
        RouteView::ClubRankings { country_code: prop, limit }
    }

    /// The route that leads to the top `limit` clubs of a country, or of the
    /// world with `"global"` for country code.
    fn get_route(country_code: &str, limit: u8) -> (route: Route) {
        Route::ClubRankings { country_code: String::from_str(country_code), limit }
    }
}

impl PropLimFetchable for ClubLeaderboard {
    type Property = str;

    type Limit = u8;

    open spec fn spec_fetch_route(prop: Seq<char>, limit: u8) -> RouteView {
        RouteView::ClubRankings { country_code: prop, limit }
    }

    open spec fn fetched(response: Response, r: Result<ClubLeaderboard, Error>) -> bool {
        reads_as(response, r)
    }

    /// The request that fetches a club leaderboard, given a country code and a
    /// limit of how many clubs to fetch.
    fn fetch_request(client: &Client, country_code: &str, limit: u8) -> (r: Result<
        HttpRequest,
        Error,
    >) {
        let route = ClubLeaderboard::get_route(country_code, limit);
        fetch_request(client, &route)
    }

    /// Constructs a leaderboard out of the response to the request of
    /// `fetch_request`.
    fn fetch(response: Response) -> (r: Result<ClubLeaderboard, Error>) {
        fetch_route::<ClubLeaderboard>(response)
    }
}

/// Represents a club's ranking, based on a regional or global leaderboard. To
/// obtain the club's full data (a `Club` instance), see `Club::fetch_from`.
#[derive(Debug, Hash, PartialEq, Eq)]
pub struct ClubRanking {
    /// The club's tag.
    pub tag: String,
    /// The club's name.
    pub name: String,
    /// The club's current trophies.
    pub trophies: usize,
    /// The club's current rank in the leaderboard.
    pub rank: u8,
    /// The amount of members in this club.
    pub member_count: usize,
}

impl Clone for ClubRanking {
    /// A clone holds the same as this `ClubRanking`.
    fn clone(&self) -> (r: ClubRanking)
        ensures
            r.same(self),
    {
        ClubRanking {
            tag: self.tag.clone(),
            name: self.name.clone(),
            trophies: self.trophies,
            rank: self.rank,
            member_count: self.member_count,
        }
    }
}

impl FaithfulClone for ClubRanking {
    open spec fn same(&self, other: &ClubRanking) -> bool {
        &&& self.tag@ == other.tag@
        &&& self.name@ == other.name@
        &&& self.trophies == other.trophies
        &&& self.rank == other.rank
        &&& self.member_count == other.member_count
    }

    proof fn same_is_reflexive(value: ClubRanking) {
    }

    proof fn clone_is_same(value: ClubRanking, copy: ClubRanking) {
        if value == copy {
            Self::same_is_reflexive(value);
        }
    }
}

impl ClubRanking {
    /// Whether this is the instance with initial values.
    pub open spec fn is_default(&self) -> bool {
        &&& self.tag@.len() == 0
        &&& self.name@.len() == 0
        &&& self.trophies == 0
        &&& self.rank == 1
        &&& self.member_count == 0
    }
}

impl Default for ClubRanking {
    /// Returns an instance of `ClubRanking` with initial values.
    fn default() -> (r: ClubRanking)
        ensures
            r.is_default(),
    {
        ClubRanking {
            tag: String::new(),
            name: String::new(),
            trophies: 0,
            rank: 1,
            member_count: 0,
        }
    }
}

impl FromJson for ClubRanking {
    open spec fn json_ok(json: Json) -> bool {
        json matches Json::Object(members) && {
            &&& field_ok::<String>(members, "tag"@)
            &&& field_ok::<String>(members, "name"@)
            &&& field_ok::<usize>(members, "trophies"@)
            &&& field_ok::<u8>(members, "rank"@)
            &&& field_ok::<usize>(members, "memberCount"@)
        }
    }

    open spec fn json_matches(&self, json: Json) -> bool {
        json matches Json::Object(members) && {
            &&& text_field(self.tag, members, "tag"@)
            &&& text_field(self.name, members, "name"@)
            &&& plain_field(self.trophies, members, "trophies"@, 0)
            &&& plain_field(self.rank, members, "rank"@, 1)
            &&& plain_field(self.member_count, members, "memberCount"@, 0)
        }
    }

    fn from_json(value: &JsonValue) -> (r: Option<ClubRanking>) {
        let object = value_as_object(value)?;
        let tag = read_text(object, "tag")?;
        let name = read_text(object, "name")?;
        let trophies = read_or::<usize>(object, "trophies", 0)?;
        let rank = read_or::<u8>(object, "rank", 1)?;
        let member_count = read_or::<usize>(object, "memberCount", 0)?;
        Some(ClubRanking { tag, name, trophies, rank, member_count })
    }
}

impl ClubRanking {
    /// A field that the object lacks has its initial value in the `ClubRanking` that
    /// the object reads as.
    pub proof fn absent_fields_are_initial(self, members: Map<Seq<char>, Json>)
        requires
            self.json_matches(Json::Object(members)),
        ensures
            !members.contains_key("tag"@) ==> self.tag@ == Seq::<char>::empty(),
            !members.contains_key("name"@) ==> self.name@ == Seq::<char>::empty(),
            !members.contains_key("trophies"@) ==> self.trophies == 0,
            !members.contains_key("rank"@) ==> self.rank == 1,
            !members.contains_key("memberCount"@) ==> self.member_count == 0,
    {
        assert(self.tag@.len() == 0 ==> self.tag@ =~= Seq::<char>::empty());
        assert(self.name@.len() == 0 ==> self.name@ =~= Seq::<char>::empty());
    }

    /// An object that holds none of the fields can be read, and reads as the
    /// `ClubRanking` with initial values.
    pub proof fn reads_without_fields(self)
        ensures
            ClubRanking::json_ok(Json::Object(Map::empty())),
            self.json_matches(Json::Object(Map::empty())) ==> self.is_default(),
    {
    }
}

/// How two ranks in a leaderboard compare: the better rank is the smaller
/// number and counts as the greater, so rank 1 is greater than rank 5.
pub open spec fn rank_order(a: u8, b: u8) -> Ordering {
    if a > b {
        Ordering::Less
    } else if a == b {
        Ordering::Equal
    } else {
        Ordering::Greater
    }
}

impl PartialOrdSpecImpl for ClubRanking {
    open spec fn obeys_partial_cmp_spec() -> bool {
        true
    }

    open spec fn partial_cmp_spec(&self, other: &ClubRanking) -> Option<Ordering> {
        Some(rank_order(self.rank, other.rank))
    }
}

impl PartialOrd for ClubRanking {
    /// Compares and determines which `ClubRanking` has the better rank: the
    /// one whose rank is the smaller number is the greater (see `rank_order`).
    fn partial_cmp(&self, other: &ClubRanking) -> (r: Option<Ordering>) {
        if self.rank > other.rank {
            Some(Ordering::Less)
        } else if self.rank == other.rank {
            Some(Ordering::Equal)
        } else {
            Some(Ordering::Greater)
        }
    }
}

} // verus!
