//! Contains models for the `/rankings/:country_code/brawlers/:brawler_id?limit=x`
//! Brawl Stars API endpoint.

use vstd::prelude::*;
use serde_json::Value as JsonValue;
use crate::clone::{FaithfulClone, duplicate};
use crate::error::Error;
use crate::http::client::Client;
use crate::http::request::HttpRequest;
use crate::http::response::Response;
use crate::http::routes::{Route, RouteView};
use crate::json::{Json, value_as_object};
use crate::model::rankings::players::PlayerRanking;
use crate::serde::{FromJson, field_ok, list_field, read_list};
use crate::util::{fetch_request, fetch_route, reads_as};

verus! {

/// Represents a leaderboard of `PlayerRanking`s with one brawler: the top
/// players of a country, or of the world, with that brawler. Use
/// `BrawlerLeaderboard::fetch` to fetch one.
#[derive(Debug, Hash, PartialEq, Eq)]
pub struct BrawlerLeaderboard {
    /// The players in the ranking.
    pub items: Vec<PlayerRanking>,
}

impl Clone for BrawlerLeaderboard {
    /// A clone holds the same as this `BrawlerLeaderboard`.
    fn clone(&self) -> (r: BrawlerLeaderboard)
        ensures
            r.same(self),
    {
        BrawlerLeaderboard {
            items: duplicate(&self.items),
        }
    }
}

impl FaithfulClone for BrawlerLeaderboard {
    open spec fn same(&self, other: &BrawlerLeaderboard) -> bool {
        &&& self.items.same(&other.items)
    }

    proof fn same_is_reflexive(value: BrawlerLeaderboard) {
        Vec::<PlayerRanking>::same_is_reflexive(value.items);
    }

    proof fn clone_is_same(value: BrawlerLeaderboard, copy: BrawlerLeaderboard) {
        if value == copy {
            Self::same_is_reflexive(value);
        }
    }
}

impl FromJson for BrawlerLeaderboard {
    open spec fn json_ok(json: Json) -> bool {
        json matches Json::Object(members) && {
            &&& field_ok::<Vec<PlayerRanking>>(members, "items"@)
        }
    }

    open spec fn json_matches(&self, json: Json) -> bool {
        json matches Json::Object(members) && {
            &&& list_field(self.items, members, "items"@)
        }
    }

    fn from_json(value: &JsonValue) -> (r: Option<BrawlerLeaderboard>) {
        let object = value_as_object(value)?;
        let items = read_list::<PlayerRanking>(object, "items")?;
        Some(BrawlerLeaderboard { items })
    }
}

impl BrawlerLeaderboard {
    /// A field that the object lacks has its initial value in the `BrawlerLeaderboard` that
    /// the object reads as.
    pub proof fn absent_fields_are_initial(self, members: Map<Seq<char>, Json>)
        requires
            self.json_matches(Json::Object(members)),
        ensures
            !members.contains_key("items"@) ==> self.items@.len() == 0,
    {
    }
}

impl BrawlerLeaderboard {
    /// The route that leads to the top `limit` players of a country, or of the
    /// world with `"global"` for country code, with the brawler `brawler_id`.
    pub fn get_route(country_code: &str, brawler_id: usize, limit: u8) -> (route: Route)
        ensures
            route@ == (RouteView::BrawlerRankings { country_code: country_code@, brawler_id, limit }),
    {
        Route::BrawlerRankings { country_code: String::from_str(country_code), brawler_id, limit }
    }

    /// The request that fetches a brawler leaderboard, given a country code,
    /// the id of the brawler and a limit of how many players to fetch.
    pub fn fetch_request(client: &Client, country_code: &str, brawler_id: usize, limit: u8) -> (r:
        Result<HttpRequest, Error>)
        ensures
            client.asks_for(
                (RouteView::BrawlerRankings { country_code: country_code@, brawler_id, limit }).url(),
                r,
            ),
    {
        let route = BrawlerLeaderboard::get_route(country_code, brawler_id, limit);
        fetch_request(client, &route)
    }

    /// Constructs a leaderboard out of the response to the request of
    /// `fetch_request`.
    pub fn fetch(response: Response) -> (r: Result<BrawlerLeaderboard, Error>)
        ensures
            reads_as(response, r),
    {
        fetch_route::<BrawlerLeaderboard>(response)
    }
}

} // verus!
