//! Contains models related to the `/brawlers/...` endpoint of the Brawl Stars API.

use vstd::prelude::*;
use serde_json::Value as JsonValue;
use crate::clone::{FaithfulClone, duplicate};
use crate::constants::Brawlers;
use crate::error::Error;
use crate::http::client::Client;
use crate::http::request::HttpRequest;
use crate::http::response::Response;
use crate::http::routes::{Route, RouteView};
use crate::json::{Json, value_as_object};
use crate::model::common::StarPower;
use crate::model::players::battlelog::BattleBrawler;
use crate::model::players::player::PlayerBrawlerStat;
use crate::serde::{
    FromJson, field_ok, list_field, plain_field, read_list, read_or, read_text, text_field,
};
use crate::traits::{FetchFrom, Fetching, Refetchable, asking};
use crate::util::{fetch_request, fetch_route, reads_as};

verus! {

/// Represents a fetchable list of all brawlers in the game, with data available
/// for each of them, such as their available star powers, names etc. Use
/// `BrawlerList::fetch` to fetch all brawlers.
#[derive(Debug, Hash, PartialEq, Eq)]
pub struct BrawlerList {
    /// The brawlers in the game.
    pub items: Vec<Brawler>,
}

impl Clone for BrawlerList {
    /// A clone holds the same as this `BrawlerList`.
    fn clone(&self) -> (r: BrawlerList)
        ensures
            r.same(self),
    {
        BrawlerList {
            items: duplicate(&self.items),
        }
    }
}

impl FaithfulClone for BrawlerList {
    open spec fn same(&self, other: &BrawlerList) -> bool {
        &&& self.items.same(&other.items)
    }

    proof fn same_is_reflexive(value: BrawlerList) {
        Vec::<Brawler>::same_is_reflexive(value.items);
    }

    proof fn clone_is_same(value: BrawlerList, copy: BrawlerList) {
        if value == copy {
            Self::same_is_reflexive(value);
        }
    }
}

impl FromJson for BrawlerList {
    open spec fn json_ok(json: Json) -> bool {
        json matches Json::Object(members) && {
            &&& field_ok::<Vec<Brawler>>(members, "items"@)
        }
    }

    open spec fn json_matches(&self, json: Json) -> bool {
        json matches Json::Object(members) && {
            &&& list_field(self.items, members, "items"@)
        }
    }

    fn from_json(value: &JsonValue) -> (r: Option<BrawlerList>) {
        let object = value_as_object(value)?;
        let items = read_list::<Brawler>(object, "items")?;
        Some(BrawlerList { items })
    }
}

impl BrawlerList {
    /// A field that the object lacks has its initial value in the `BrawlerList` that
    /// the object reads as.
    pub proof fn absent_fields_are_initial(self, members: Map<Seq<char>, Json>)
        requires
            self.json_matches(Json::Object(members)),
        ensures
            !members.contains_key("items"@) ==> self.items@.len() == 0,
    {
    }
}

impl BrawlerList {
    /// Returns the `Route` object required for fetching a `BrawlerList`
    /// instance.
    pub fn get_route() -> (route: Route)
        ensures
            route@ == RouteView::Brawlers,
    {
        Route::Brawlers
    }

    /// The request that fetches the list of all brawlers: one GET request to
    /// the URL of its route.
    pub fn fetch_request(client: &Client) -> (r: Result<HttpRequest, Error>)
        ensures
            client.asks_for(RouteView::Brawlers.url(), r),
    {
        let route = BrawlerList::get_route();
        fetch_request(client, &route)
    }

    /// Constructs the list of all brawlers out of the response to the request
    /// of `fetch_request`.
    pub fn fetch(response: Response) -> (r: Result<BrawlerList, Error>)
        ensures
            reads_as(response, r),
    {
        fetch_route::<BrawlerList>(response)
    }
}

/// Contains information for a specific brawler, and allows for it to be fetched
/// through `Brawler::fetch`.
#[derive(Debug, Hash, PartialEq, Eq)]
pub struct Brawler {
    /// The brawler's name, in CAPS LOCK. E.g.: `"SHELLY"` for Shelly.
    pub name: String,
    /// The brawler's id (an arbitrary number representing it).
    pub id: usize,
    /// The brawler's star powers, as a vector (note that this does **not** have
    /// a fixed size: new brawlers start with 1 star power, while older ones
    /// have at least 2).
    pub star_powers: Vec<StarPower>,
}

impl Clone for Brawler {
    /// A clone holds the same as this `Brawler`.
    fn clone(&self) -> (r: Brawler)
        ensures
            r.same(self),
    {
        Brawler {
            name: self.name.clone(),
            id: self.id,
            star_powers: duplicate(&self.star_powers),
        }
    }
}

impl FaithfulClone for Brawler {
    open spec fn same(&self, other: &Brawler) -> bool {
        &&& self.name@ == other.name@
        &&& self.id == other.id
        &&& self.star_powers.same(&other.star_powers)
    }

    proof fn same_is_reflexive(value: Brawler) {
        Vec::<StarPower>::same_is_reflexive(value.star_powers);
    }

    proof fn clone_is_same(value: Brawler, copy: Brawler) {
        if value == copy {
            Self::same_is_reflexive(value);
        }
    }
}

impl Brawler {
    /// Whether this is the instance with initial values.
    pub open spec fn is_default(&self) -> bool {
        &&& self.name@.len() == 0
        &&& self.id == 0
        &&& self.star_powers@.len() == 0
    }
}

impl Default for Brawler {
    /// Returns an instance of `Brawler` with initial values.
    fn default() -> (r: Brawler)
        ensures
            r.is_default(),
    {
        Brawler {
            name: String::new(),
            id: 0,
            star_powers: Vec::new(),
        }
    }
}

impl FromJson for Brawler {
    open spec fn json_ok(json: Json) -> bool {
        json matches Json::Object(members) && {
            &&& field_ok::<String>(members, "name"@)
            &&& field_ok::<usize>(members, "id"@)
            &&& field_ok::<Vec<StarPower>>(members, "starPowers"@)
        }
    }

    open spec fn json_matches(&self, json: Json) -> bool {
        json matches Json::Object(members) && {
            &&& text_field(self.name, members, "name"@)
            &&& plain_field(self.id, members, "id"@, 0)
            &&& list_field(self.star_powers, members, "starPowers"@)
        }
    }

    fn from_json(value: &JsonValue) -> (r: Option<Brawler>) {
        let object = value_as_object(value)?;
        let name = read_text(object, "name")?;
        let id = read_or::<usize>(object, "id", 0)?;
        let star_powers = read_list::<StarPower>(object, "starPowers")?;
        Some(Brawler { name, id, star_powers })
    }
}

impl Brawler {
    /// A field that the object lacks has its initial value in the `Brawler` that
    /// the object reads as.
    pub proof fn absent_fields_are_initial(self, members: Map<Seq<char>, Json>)
        requires
            self.json_matches(Json::Object(members)),
        ensures
            !members.contains_key("name"@) ==> self.name@ == Seq::<char>::empty(),
            !members.contains_key("id"@) ==> self.id == 0,
            !members.contains_key("starPowers"@) ==> self.star_powers@.len() == 0,
    {
        assert(self.name@.len() == 0 ==> self.name@ =~= Seq::<char>::empty());
    }

    /// An object that holds none of the fields can be read, and reads as the
    /// `Brawler` with initial values.
    pub proof fn reads_without_fields(self)
        ensures
            Brawler::json_ok(Json::Object(Map::empty())),
            self.json_matches(Json::Object(Map::empty())) ==> self.is_default(),
    {
    }
}

impl Brawler {
    /// Returns this Brawler's id, which is used for fetching.
    pub fn get_fetch_prop(&self) -> (id: usize)
        ensures
            id == self.id,
    {
        self.id
    }

    /// Returns the `Route` object required for fetching a `Brawler` instance.
    pub fn get_route(id: usize) -> (route: Route)
        ensures
            route@ == RouteView::Brawler(id),
    {
        Route::Brawler(id)
    }

    /// The request that fetches the brawler with an id: one GET request to the
    /// URL of its route.
    pub fn fetch_request(client: &Client, id: usize) -> (r: Result<HttpRequest, Error>)
        ensures
            client.asks_for(RouteView::Brawler(id).url(), r),
    {
        let route = Brawler::get_route(id);
        fetch_request(client, &route)
    }

    /// Constructs a brawler out of the response to the request of
    /// `fetch_request`.
    pub fn fetch(response: Response) -> (r: Result<Brawler, Error>)
        ensures
            reads_as(response, r),
    {
        fetch_route::<Brawler>(response)
    }

    fn fetching(client: &Client, id: usize) -> (r: Result<Fetching<Brawler>, Error>)
        ensures
            asking(client, RouteView::Brawler(id).url(), r),
    {
        match Brawler::fetch_request(client, id) {
            Ok(request) => Ok(Fetching::Asking(request)),
            Err(e) => Err(e),
        }
    }
}

impl Refetchable for Brawler {
    open spec fn spec_refetch_route(&self, auto_hashtag: bool) -> RouteView {
        RouteView::Brawler(self.id)
    }

    open spec fn refetched(&self, response: Response, r: Result<Brawler, Error>) -> bool {
        reads_as(response, r)
    }

    fn refetch_request(&self, client: &Client) -> (r: Result<HttpRequest, Error>) {
        Brawler::fetch_request(client, self.id)
    }

    fn refetch(&self, response: Response) -> (r: Result<Brawler, Error>) {
        Brawler::fetch(response)
    }
}

/// Fetches a `Brawler` using data from a `PlayerBrawlerStat` object: its id.
impl FetchFrom<PlayerBrawlerStat> for Brawler {
    open spec fn fetching_from(
        client: &Client,
        value: &PlayerBrawlerStat,
        r: Result<Fetching<Brawler>, Error>,
    ) -> bool {
        asking(client, RouteView::Brawler(value.id).url(), r)
    }

    open spec fn fetched_from(
        value: &PlayerBrawlerStat,
        response: Response,
        r: Result<Brawler, Error>,
    ) -> bool {
        reads_as(response, r)
    }

    fn fetch_from(client: &Client, value: &PlayerBrawlerStat) -> (r: Result<
        Fetching<Brawler>,
        Error,
    >) {
        Brawler::fetching(client, value.id)
    }

    fn fetch_from_response(value: &PlayerBrawlerStat, response: Response) -> (r: Result<
        Brawler,
        Error,
    >) {
        Brawler::fetch(response)
    }
}

/// Fetches a `Brawler` using data from a `BattleBrawler` object: its id.
impl FetchFrom<BattleBrawler> for Brawler {
    open spec fn fetching_from(
        client: &Client,
        value: &BattleBrawler,
        r: Result<Fetching<Brawler>, Error>,
    ) -> bool {
        asking(client, RouteView::Brawler(value.id).url(), r)
    }

    open spec fn fetched_from(
        value: &BattleBrawler,
        response: Response,
        r: Result<Brawler, Error>,
    ) -> bool {
        reads_as(response, r)
    }

    fn fetch_from(client: &Client, value: &BattleBrawler) -> (r: Result<Fetching<Brawler>, Error>) {
        Brawler::fetching(client, value.id)
    }

    fn fetch_from_response(value: &BattleBrawler, response: Response) -> (r: Result<
        Brawler,
        Error,
    >) {
        Brawler::fetch(response)
    }
}

/// Fetches a `Brawler` for a variant of the `Brawlers` enum: by the id that the
/// variant stands for.
impl FetchFrom<Brawlers> for Brawler {
    open spec fn fetching_from(
        client: &Client,
        value: &Brawlers,
        r: Result<Fetching<Brawler>, Error>,
    ) -> bool {
        asking(client, RouteView::Brawler(value.spec_id() as usize).url(), r)
    }

    open spec fn fetched_from(
        value: &Brawlers,
        response: Response,
        r: Result<Brawler, Error>,
    ) -> bool {
        reads_as(response, r)
    }

    fn fetch_from(client: &Client, value: &Brawlers) -> (r: Result<Fetching<Brawler>, Error>) {
        Brawler::fetching(client, value.id())
    }

    fn fetch_from_response(value: &Brawlers, response: Response) -> (r: Result<Brawler, Error>) {
        Brawler::fetch(response)
    }
}

} // verus!
