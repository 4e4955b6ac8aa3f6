//! Models for the `players/:tag` API endpoint.

use vstd::prelude::*;
use serde_json::Value as JsonValue;
use crate::clone::{FaithfulClone, duplicate};
use crate::error::Error;
use crate::http::client::Client;
use crate::http::request::HttpRequest;
use crate::http::response::Response;
use crate::http::routes::{Route, RouteView};
use crate::json::{Json, value_as_object};
use crate::model::clubs::ClubMember;
use crate::model::players::battlelog::BattlePlayer;
use crate::model::rankings::players::PlayerRanking;
use crate::serde::{
    FromJson, field_ok, list_field, number_field, number_field_ok, optional_field, plain_field,
    read_list, read_number_usize, read_optional, read_or, read_text, text_field,
};
use crate::traits::{FetchFrom, Fetching, GetFetchProp, PropFetchable, asking};
use crate::util::{encode_tag, encoded_tag, fetch_request, fetch_route, reads_as};

verus! {

/// A struct representing a Brawl Stars player, with all of its data. Use
/// `Player::fetch` to fetch one based on tag.
#[derive(Debug, Hash, PartialEq, Eq)]
pub struct Player {
    /// The club the Player is in (as a `PlayerClub` instance), or None if none.
    pub club: Option<PlayerClub>,
    /// Whether or not the Player was qualified from the Championship challenge
    /// (2020).
    pub is_qualified_from_championship_challenge: bool,
    /// Amount of 3v3 victories the Player has earned.
    pub tvt_victories: usize,
    /// The player's tag. **Note: this includes the initial '#'.**
    pub tag: String,
    /// The player's name.
    pub name: String,
    /// The player's current trophies.
    pub trophies: usize,
    /// The player's highest trophies amount.
    pub highest_trophies: usize,
    /// The player's experience level.
    pub exp_level: usize,
    /// The player's experience points.
    pub exp_points: usize,
    /// The player's current power play points.
    pub power_play_points: usize,
    /// The player's highest power play points.
    pub highest_power_play_points: usize,
    /// The player's victories in solo showdown (how many times ranked #1).
    pub solo_victories: usize,
    /// The player's victories in duo showdown (how many times ranked #1).
    pub duo_victories: usize,
    /// The player's best Robo Rumble time, in seconds.
    pub best_robo_rumble_time: usize,
    /// The player's best time as a Big Brawler, in seconds.
    pub best_time_as_big_brawler: usize,
    /// The player's brawlers.
    pub brawlers: Vec<PlayerBrawlerStat>,
    /// The player's name color, as an integer (Default is 0xffffff = 16777215:
    /// this is used when the data is not available).
    pub name_color: usize,
}

impl Clone for Player {
    /// A clone holds the same as this `Player`.
    fn clone(&self) -> (r: Player)
        ensures
            r.same(self),
    {
        Player {
            club: duplicate(&self.club),
            is_qualified_from_championship_challenge: self.is_qualified_from_championship_challenge,
            tvt_victories: self.tvt_victories,
            tag: self.tag.clone(),
            name: self.name.clone(),
            trophies: self.trophies,
            highest_trophies: self.highest_trophies,
            exp_level: self.exp_level,
            exp_points: self.exp_points,
            power_play_points: self.power_play_points,
            highest_power_play_points: self.highest_power_play_points,
            solo_victories: self.solo_victories,
            duo_victories: self.duo_victories,
            best_robo_rumble_time: self.best_robo_rumble_time,
            best_time_as_big_brawler: self.best_time_as_big_brawler,
            brawlers: duplicate(&self.brawlers),
            name_color: self.name_color,
        }
    }
}

impl FaithfulClone for Player {
    open spec fn same(&self, other: &Player) -> bool {
        &&& self.club.same(&other.club)
        &&& self.is_qualified_from_championship_challenge
            == other.is_qualified_from_championship_challenge
        &&& self.tvt_victories == other.tvt_victories
        &&& self.tag@ == other.tag@
        &&& self.name@ == other.name@
        &&& self.trophies == other.trophies
        &&& self.highest_trophies == other.highest_trophies
        &&& self.exp_level == other.exp_level
        &&& self.exp_points == other.exp_points
        &&& self.power_play_points == other.power_play_points
        &&& self.highest_power_play_points == other.highest_power_play_points
        &&& self.solo_victories == other.solo_victories
        &&& self.duo_victories == other.duo_victories
        &&& self.best_robo_rumble_time == other.best_robo_rumble_time
        &&& self.best_time_as_big_brawler == other.best_time_as_big_brawler
        &&& self.brawlers.same(&other.brawlers)
        &&& self.name_color == other.name_color
    }

    proof fn same_is_reflexive(value: Player) {
        Option::<PlayerClub>::same_is_reflexive(value.club);
        Vec::<PlayerBrawlerStat>::same_is_reflexive(value.brawlers);
    }

    proof fn clone_is_same(value: Player, copy: Player) {
        if value == copy {
            Self::same_is_reflexive(value);
        }
    }
}

impl Player {
    /// Whether this is the instance with initial values.
    pub open spec fn is_default(&self) -> bool {
        &&& self.club is None
        &&& !self.is_qualified_from_championship_challenge
        &&& self.tvt_victories == 0
        &&& self.tag@.len() == 0
        &&& self.name@.len() == 0
        &&& self.trophies == 0
        &&& self.highest_trophies == 0
        &&& self.exp_level == 1
        &&& self.exp_points == 0
        &&& self.power_play_points == 0
        &&& self.highest_power_play_points == 0
        &&& self.solo_victories == 0
        &&& self.duo_victories == 0
        &&& self.best_robo_rumble_time == 0
        &&& self.best_time_as_big_brawler == 0
        &&& self.brawlers@.len() == 0
        &&& self.name_color == 0xffffff
    }
}

impl Default for Player {
    /// Returns an instance of `Player` with initial values.
    fn default() -> (r: Player)
        ensures
            r.is_default(),
    {
        Player {
            club: None,
            is_qualified_from_championship_challenge: false,
            tvt_victories: 0,
            tag: String::new(),
            name: String::new(),
            trophies: 0,
            highest_trophies: 0,
            exp_level: 1,
            exp_points: 0,
            power_play_points: 0,
            highest_power_play_points: 0,
            solo_victories: 0,
            duo_victories: 0,
            best_robo_rumble_time: 0,
            best_time_as_big_brawler: 0,
            brawlers: Vec::new(),
            name_color: 0xffffff,
        }
    }
}

impl FromJson for Player {
    open spec fn json_ok(json: Json) -> bool {
        json matches Json::Object(members) && {
            &&& field_ok::<Option<PlayerClub>>(members, "club"@)
            &&& field_ok::<bool>(members, "isQualifiedFromChampionshipChallenge"@)
            &&& field_ok::<usize>(members, "3vs3Victories"@)
            &&& field_ok::<String>(members, "tag"@)
            &&& field_ok::<String>(members, "name"@)
            &&& field_ok::<usize>(members, "trophies"@)
            &&& field_ok::<usize>(members, "highestTrophies"@)
            &&& field_ok::<usize>(members, "expLevel"@)
            &&& field_ok::<usize>(members, "expPoints"@)
            &&& field_ok::<usize>(members, "powerPlayPoints"@)
            &&& field_ok::<usize>(members, "highestPowerPlayPoints"@)
            &&& field_ok::<usize>(members, "soloVictories"@)
            &&& field_ok::<usize>(members, "duoVictories"@)
            &&& field_ok::<usize>(members, "bestRoboRumbleTime"@)
            &&& field_ok::<usize>(members, "bestTimeAsBigBrawler"@)
            &&& field_ok::<Vec<PlayerBrawlerStat>>(members, "brawlers"@)
            &&& number_field_ok(members, "nameColor"@, usize::MAX as nat)
        }
    }

    open spec fn json_matches(&self, json: Json) -> bool {
        json matches Json::Object(members) && {
            &&& optional_field(self.club, members, "club"@)
            &&& plain_field(
                self.is_qualified_from_championship_challenge,
                members,
                "isQualifiedFromChampionshipChallenge"@,
                false,
            )
            &&& plain_field(self.tvt_victories, members, "3vs3Victories"@, 0)
            &&& text_field(self.tag, members, "tag"@)
            &&& text_field(self.name, members, "name"@)
            &&& plain_field(self.trophies, members, "trophies"@, 0)
            &&& plain_field(self.highest_trophies, members, "highestTrophies"@, 0)
            &&& plain_field(self.exp_level, members, "expLevel"@, 1)
            &&& plain_field(self.exp_points, members, "expPoints"@, 0)
            &&& plain_field(self.power_play_points, members, "powerPlayPoints"@, 0)
            &&& plain_field(self.highest_power_play_points, members, "highestPowerPlayPoints"@, 0)
            &&& plain_field(self.solo_victories, members, "soloVictories"@, 0)
            &&& plain_field(self.duo_victories, members, "duoVictories"@, 0)
            &&& plain_field(self.best_robo_rumble_time, members, "bestRoboRumbleTime"@, 0)
            &&& plain_field(self.best_time_as_big_brawler, members, "bestTimeAsBigBrawler"@, 0)
            &&& list_field(self.brawlers, members, "brawlers"@)
            &&& number_field(
                self.name_color as nat,
                members,
                "nameColor"@,
                0xffffff,
                usize::MAX as nat,
            )
        }
    }

    fn from_json(value: &JsonValue) -> (r: Option<Player>) {
        let object = value_as_object(value)?;
        let club = read_optional::<PlayerClub>(object, "club")?;
        let is_qualified_from_championship_challenge =
            read_or::<bool>(object, "isQualifiedFromChampionshipChallenge", false)?;
        let tvt_victories = read_or::<usize>(object, "3vs3Victories", 0)?;
        let tag = read_text(object, "tag")?;
        let name = read_text(object, "name")?;
        let trophies = read_or::<usize>(object, "trophies", 0)?;
        let highest_trophies = read_or::<usize>(object, "highestTrophies", 0)?;
        let exp_level = read_or::<usize>(object, "expLevel", 1)?;
        let exp_points = read_or::<usize>(object, "expPoints", 0)?;
        let power_play_points = read_or::<usize>(object, "powerPlayPoints", 0)?;
        let highest_power_play_points = read_or::<usize>(object, "highestPowerPlayPoints", 0)?;
        let solo_victories = read_or::<usize>(object, "soloVictories", 0)?;
        let duo_victories = read_or::<usize>(object, "duoVictories", 0)?;
        let best_robo_rumble_time = read_or::<usize>(object, "bestRoboRumbleTime", 0)?;
        let best_time_as_big_brawler = read_or::<usize>(object, "bestTimeAsBigBrawler", 0)?;
        let brawlers = read_list::<PlayerBrawlerStat>(object, "brawlers")?;
        let name_color = read_number_usize(object, "nameColor", 0xffffff)?;
        Some(
            Player {
                club,
                is_qualified_from_championship_challenge,
                tvt_victories,
                tag,
                name,
                trophies,
                highest_trophies,
                exp_level,
                exp_points,
                power_play_points,
                highest_power_play_points,
                solo_victories,
                duo_victories,
                best_robo_rumble_time,
                best_time_as_big_brawler,
                brawlers,
                name_color,
            },
        )
    }
}

impl Player {
    /// A field that the object lacks has its initial value in the `Player` that
    /// the object reads as.
    pub proof fn absent_fields_are_initial(self, members: Map<Seq<char>, Json>)
        requires
            self.json_matches(Json::Object(members)),
        ensures
            !members.contains_key("club"@) ==> self.club is None,
            !members.contains_key("isQualifiedFromChampionshipChallenge"@)
                ==> !self.is_qualified_from_championship_challenge,
            !members.contains_key("3vs3Victories"@) ==> self.tvt_victories == 0,
            !members.contains_key("tag"@) ==> self.tag@ == Seq::<char>::empty(),
            !members.contains_key("name"@) ==> self.name@ == Seq::<char>::empty(),
            !members.contains_key("trophies"@) ==> self.trophies == 0,
            !members.contains_key("highestTrophies"@) ==> self.highest_trophies == 0,
            !members.contains_key("expLevel"@) ==> self.exp_level == 1,
            !members.contains_key("expPoints"@) ==> self.exp_points == 0,
            !members.contains_key("powerPlayPoints"@) ==> self.power_play_points == 0,
            !members.contains_key("highestPowerPlayPoints"@) ==> self.highest_power_play_points == 0,
            !members.contains_key("soloVictories"@) ==> self.solo_victories == 0,
            !members.contains_key("duoVictories"@) ==> self.duo_victories == 0,
            !members.contains_key("bestRoboRumbleTime"@) ==> self.best_robo_rumble_time == 0,
            !members.contains_key("bestTimeAsBigBrawler"@) ==> self.best_time_as_big_brawler == 0,
            !members.contains_key("brawlers"@) ==> self.brawlers@.len() == 0,
            !members.contains_key("nameColor"@) ==> self.name_color == 0xffffff,
    {
        assert(self.tag@.len() == 0 ==> self.tag@ =~= Seq::<char>::empty());
        assert(self.name@.len() == 0 ==> self.name@ =~= Seq::<char>::empty());
    }

    /// An object that holds none of the fields can be read, and reads as the
    /// `Player` with initial values.
    pub proof fn reads_without_fields(self)
        ensures
            Player::json_ok(Json::Object(Map::empty())),
            self.json_matches(Json::Object(Map::empty())) ==> self.is_default(),
    {
    }
}

impl GetFetchProp for Player {
    type Property = str;

    open spec fn spec_fetch_prop(&self) -> Seq<char> {
        self.tag@
    }

    open spec fn spec_route(prop: Seq<char>, auto_hashtag: bool) -> RouteView {
        RouteView::Player(encoded_tag(prop, auto_hashtag))
    }

    fn get_fetch_prop(&self) -> (prop: &str) {
        self.tag.as_str()
    }

    fn get_route_with(tag: &str, auto_hashtag: bool) -> (route: Route) {
        Route::Player(encode_tag(tag, auto_hashtag))
    }
}

impl PropFetchable for Player {
    type Property = str;

    open spec fn spec_fetch_route(prop: Seq<char>, auto_hashtag: bool) -> RouteView {
        RouteView::Player(encoded_tag(prop, auto_hashtag))
    }

    open spec fn fetched(prop: Seq<char>, response: Response, r: Result<Player, Error>) -> bool {
        reads_as(response, r)
    }

    /// The request that fetches a player from its tag.
    fn fetch_request(client: &Client, tag: &str) -> (r: Result<HttpRequest, Error>) {
        let route = Self::get_route_with(tag, client.auto_hashtag);
        fetch_request(client, &route)
    }

    /// Constructs a player out of the response to the request of
    /// `fetch_request`.
    fn fetch(tag: &str, response: Response) -> (r: Result<Player, Error>) {
        fetch_route::<Player>(response)
    }
}

impl Player {
    fn fetching(client: &Client, tag: &str) -> (r: Result<Fetching<Player>, Error>)
        ensures
            asking(client, RouteView::Player(encoded_tag(tag@, client.auto_hashtag)).url(), r),
    {
        match Player::fetch_request(client, tag) {
            Ok(request) => Ok(Fetching::Asking(request)),
            Err(e) => Err(e),
        }
    }
}

/// Fetches a `Player` using data from a `ClubMember` object: its tag.
impl FetchFrom<ClubMember> for Player {
    open spec fn fetching_from(
        client: &Client,
        value: &ClubMember,
        r: Result<Fetching<Player>, Error>,
    ) -> bool {
        asking(client, RouteView::Player(encoded_tag(value.tag@, client.auto_hashtag)).url(), r)
    }

    open spec fn fetched_from(
        value: &ClubMember,
        response: Response,
        r: Result<Player, Error>,
    ) -> bool {
        reads_as(response, r)
    }

    fn fetch_from(client: &Client, value: &ClubMember) -> (r: Result<Fetching<Player>, Error>) {
        Player::fetching(client, value.tag.as_str())
    }

    fn fetch_from_response(value: &ClubMember, response: Response) -> (r: Result<Player, Error>) {
        Player::fetch(value.tag.as_str(), response)
    }
}

/// Fetches a `Player` using data from a `BattlePlayer` object: its tag.
impl FetchFrom<BattlePlayer> for Player {
    open spec fn fetching_from(
        client: &Client,
        value: &BattlePlayer,
        r: Result<Fetching<Player>, Error>,
    ) -> bool {
        asking(client, RouteView::Player(encoded_tag(value.tag@, client.auto_hashtag)).url(), r)
    }

    open spec fn fetched_from(
        value: &BattlePlayer,
        response: Response,
        r: Result<Player, Error>,
    ) -> bool {
        reads_as(response, r)
    }

    fn fetch_from(client: &Client, value: &BattlePlayer) -> (r: Result<Fetching<Player>, Error>) {
        Player::fetching(client, value.tag.as_str())
    }

    fn fetch_from_response(value: &BattlePlayer, response: Response) -> (r: Result<
        Player,
        Error,
    >) {
        Player::fetch(value.tag.as_str(), response)
    }
}

/// Fetches a `Player` using data from a `PlayerRanking` object: its tag.
impl FetchFrom<PlayerRanking> for Player {
    open spec fn fetching_from(
        client: &Client,
        value: &PlayerRanking,
        r: Result<Fetching<Player>, Error>,
    ) -> bool {
        asking(client, RouteView::Player(encoded_tag(value.tag@, client.auto_hashtag)).url(), r)
    }

    open spec fn fetched_from(
        value: &PlayerRanking,
        response: Response,
        r: Result<Player, Error>,
    ) -> bool {
        reads_as(response, r)
    }

    fn fetch_from(client: &Client, value: &PlayerRanking) -> (r: Result<Fetching<Player>, Error>) {
        Player::fetching(client, value.tag.as_str())
    }

    fn fetch_from_response(value: &PlayerRanking, response: Response) -> (r: Result<
        Player,
        Error,
    >) {
        Player::fetch(value.tag.as_str(), response)
    }
}

/// A struct representing a club obtained from `Player.club`. Note that it does
/// not contain all of a club's information. For that, use `Club::fetch_from`
/// (fetches the full Club).
#[derive(Debug, Hash, PartialEq, Eq)]
pub struct PlayerClub {
    /// The club's tag.
    pub tag: String,
    /// The club's name.
    pub name: String,
}

impl Clone for PlayerClub {
    /// A clone holds the same as this `PlayerClub`.
    fn clone(&self) -> (r: PlayerClub)
        ensures
            r.same(self),
    {
        PlayerClub {
            tag: self.tag.clone(),
            name: self.name.clone(),
        }
    }
}

impl FaithfulClone for PlayerClub {
    open spec fn same(&self, other: &PlayerClub) -> bool {
        &&& self.tag@ == other.tag@
        &&& self.name@ == other.name@
    }

    proof fn same_is_reflexive(value: PlayerClub) {
    }

    proof fn clone_is_same(value: PlayerClub, copy: PlayerClub) {
        if value == copy {
            Self::same_is_reflexive(value);
        }
    }
}

impl PlayerClub {
    /// Whether this is the instance with initial values.
    pub open spec fn is_default(&self) -> bool {
        &&& self.tag@.len() == 0
        &&& self.name@.len() == 0
    }
}

impl Default for PlayerClub {
    /// Returns an instance of `PlayerClub` with initial values.
    fn default() -> (r: PlayerClub)
        ensures
            r.is_default(),
    {
        PlayerClub {
            tag: String::new(),
            name: String::new(),
        }
    }
}

impl FromJson for PlayerClub {
    open spec fn json_ok(json: Json) -> bool {
        json matches Json::Object(members) && {
            &&& field_ok::<String>(members, "tag"@)
            &&& field_ok::<String>(members, "name"@)
        }
    }

    open spec fn json_matches(&self, json: Json) -> bool {
        json matches Json::Object(members) && {
            &&& text_field(self.tag, members, "tag"@)
            &&& text_field(self.name, members, "name"@)
        }
    }

    fn from_json(value: &JsonValue) -> (r: Option<PlayerClub>) {
        let object = value_as_object(value)?;
        let tag = read_text(object, "tag")?;
        let name = read_text(object, "name")?;
        Some(PlayerClub { tag, name })
    }
}

impl PlayerClub {
    /// A field that the object lacks has its initial value in the `PlayerClub` that
    /// the object reads as.
    pub proof fn absent_fields_are_initial(self, members: Map<Seq<char>, Json>)
        requires
            self.json_matches(Json::Object(members)),
        ensures
            !members.contains_key("tag"@) ==> self.tag@ == Seq::<char>::empty(),
            !members.contains_key("name"@) ==> self.name@ == Seq::<char>::empty(),
    {
        assert(self.tag@.len() == 0 ==> self.tag@ =~= Seq::<char>::empty());
        assert(self.name@.len() == 0 ==> self.name@ =~= Seq::<char>::empty());
    }

    /// An object that holds none of the fields can be read, and reads as the
    /// `PlayerClub` with initial values.
    pub proof fn reads_without_fields(self)
        ensures
            PlayerClub::json_ok(Json::Object(Map::empty())),
            self.json_matches(Json::Object(Map::empty())) ==> self.is_default(),
    {
    }
}

/// A struct containing information about a player's brawler (see
/// `Player.brawlers`).
#[derive(Debug, Hash, PartialEq, Eq)]
pub struct PlayerBrawlerStat {
    /// A vector containing the brawler's star powers (represented by
    /// `StarPower`), if any.
    pub star_powers: Vec<StarPower>,
    /// The brawler's id (an arbitrary number).
    pub id: usize,
    /// The brawler's rank.
    pub rank: u16,
    /// The brawler's trophies.
    pub trophies: usize,
    /// The brawler's highest trophies amount.
    pub highest_trophies: usize,
    /// The brawler's power (1-10).
    pub power: u8,
    /// The brawler's name.
    pub name: String,
}

impl Clone for PlayerBrawlerStat {
    /// A clone holds the same as this `PlayerBrawlerStat`.
    fn clone(&self) -> (r: PlayerBrawlerStat)
        ensures
            r.same(self),
    {
        PlayerBrawlerStat {
            star_powers: duplicate(&self.star_powers),
            id: self.id,
            rank: self.rank,
            trophies: self.trophies,
            highest_trophies: self.highest_trophies,
            power: self.power,
            name: self.name.clone(),
        }
    }
}

impl FaithfulClone for PlayerBrawlerStat {
    open spec fn same(&self, other: &PlayerBrawlerStat) -> bool {
        &&& self.star_powers.same(&other.star_powers)
        &&& self.id == other.id
        &&& self.rank == other.rank
        &&& self.trophies == other.trophies
        &&& self.highest_trophies == other.highest_trophies
        &&& self.power == other.power
        &&& self.name@ == other.name@
    }

    proof fn same_is_reflexive(value: PlayerBrawlerStat) {
        Vec::<StarPower>::same_is_reflexive(value.star_powers);
    }

    proof fn clone_is_same(value: PlayerBrawlerStat, copy: PlayerBrawlerStat) {
        if value == copy {
            Self::same_is_reflexive(value);
        }
    }
}

impl PlayerBrawlerStat {
    /// Whether this is the instance with initial values.
    pub open spec fn is_default(&self) -> bool {
        &&& self.star_powers@.len() == 0
        &&& self.id == 0
        &&& self.rank == 1
        &&& self.trophies == 0
        &&& self.highest_trophies == 0
        &&& self.power == 1
        &&& self.name@.len() == 0
    }
}

impl Default for PlayerBrawlerStat {
    /// Returns an instance of `PlayerBrawlerStat` with initial values.
    fn default() -> (r: PlayerBrawlerStat)
        ensures
            r.is_default(),
    {
        PlayerBrawlerStat {
            star_powers: Vec::new(),
            id: 0,
            rank: 1,
            trophies: 0,
            highest_trophies: 0,
            power: 1,
            name: String::new(),
        }
    }
}

impl FromJson for PlayerBrawlerStat {
    open spec fn json_ok(json: Json) -> bool {
        json matches Json::Object(members) && {
            &&& field_ok::<Vec<StarPower>>(members, "starPowers"@)
            &&& field_ok::<usize>(members, "id"@)
            &&& field_ok::<u16>(members, "rank"@)
            &&& field_ok::<usize>(members, "trophies"@)
            &&& field_ok::<usize>(members, "highestTrophies"@)
            &&& field_ok::<u8>(members, "power"@)
            &&& field_ok::<String>(members, "name"@)
        }
    }

    open spec fn json_matches(&self, json: Json) -> bool {
        json matches Json::Object(members) && {
            &&& list_field(self.star_powers, members, "starPowers"@)
            &&& plain_field(self.id, members, "id"@, 0)
            &&& plain_field(self.rank, members, "rank"@, 1)
            &&& plain_field(self.trophies, members, "trophies"@, 0)
            &&& plain_field(self.highest_trophies, members, "highestTrophies"@, 0)
            &&& plain_field(self.power, members, "power"@, 1)
            &&& text_field(self.name, members, "name"@)
        }
    }

    fn from_json(value: &JsonValue) -> (r: Option<PlayerBrawlerStat>) {
        let object = value_as_object(value)?;
        let star_powers = read_list::<StarPower>(object, "starPowers")?;
        let id = read_or::<usize>(object, "id", 0)?;
        let rank = read_or::<u16>(object, "rank", 1)?;
        let trophies = read_or::<usize>(object, "trophies", 0)?;
        let highest_trophies = read_or::<usize>(object, "highestTrophies", 0)?;
        let power = read_or::<u8>(object, "power", 1)?;
        let name = read_text(object, "name")?;
        Some(PlayerBrawlerStat { star_powers, id, rank, trophies, highest_trophies, power, name })
    }
}

impl PlayerBrawlerStat {
    /// A field that the object lacks has its initial value in the `PlayerBrawlerStat` that
    /// the object reads as.
    pub proof fn absent_fields_are_initial(self, members: Map<Seq<char>, Json>)
        requires
            self.json_matches(Json::Object(members)),
        ensures
            !members.contains_key("starPowers"@) ==> self.star_powers@.len() == 0,
            !members.contains_key("id"@) ==> self.id == 0,
            !members.contains_key("rank"@) ==> self.rank == 1,
            !members.contains_key("trophies"@) ==> self.trophies == 0,
            !members.contains_key("highestTrophies"@) ==> self.highest_trophies == 0,
            !members.contains_key("power"@) ==> self.power == 1,
            !members.contains_key("name"@) ==> self.name@ == Seq::<char>::empty(),
    {
        assert(self.name@.len() == 0 ==> self.name@ =~= Seq::<char>::empty());
    }

    /// An object that holds none of the fields can be read, and reads as the
    /// `PlayerBrawlerStat` with initial values.
    pub proof fn reads_without_fields(self)
        ensures
            PlayerBrawlerStat::json_ok(Json::Object(Map::empty())),
            self.json_matches(Json::Object(Map::empty())) ==> self.is_default(),
    {
    }
}

/// A struct representing a brawler's star power, as a player's data lists it.
#[derive(Debug, Hash, PartialEq, Eq)]
pub struct StarPower {
    /// The star power name.
    pub name: String,
    /// The star power's id (an arbitrary number).
    pub id: isize,
}

impl Clone for StarPower {
    /// A clone holds the same as this `StarPower`.
    fn clone(&self) -> (r: StarPower)
        ensures
            r.same(self),
    {
        StarPower {
            name: self.name.clone(),
            id: self.id,
        }
    }
}

impl FaithfulClone for StarPower {
    open spec fn same(&self, other: &StarPower) -> bool {
        &&& self.name@ == other.name@
        &&& self.id == other.id
    }

    proof fn same_is_reflexive(value: StarPower) {
    }

    proof fn clone_is_same(value: StarPower, copy: StarPower) {
        if value == copy {
            Self::same_is_reflexive(value);
        }
    }
}

impl StarPower {
    /// Whether this is the instance with initial values.
    pub open spec fn is_default(&self) -> bool {
        &&& self.name@.len() == 0
        &&& self.id == 0
    }
}

impl Default for StarPower {
    /// Returns an instance of `StarPower` with initial values.
    fn default() -> (r: StarPower)
        ensures
            r.is_default(),
    {
        StarPower {
            name: String::new(),
            id: 0,
        }
    }
}

impl FromJson for StarPower {
    open spec fn json_ok(json: Json) -> bool {
        json matches Json::Object(members) && {
            &&& field_ok::<String>(members, "name"@)
            &&& field_ok::<isize>(members, "id"@)
        }
    }

    open spec fn json_matches(&self, json: Json) -> bool {
        json matches Json::Object(members) && {
            &&& text_field(self.name, members, "name"@)
            &&& plain_field(self.id, members, "id"@, 0)
        }
    }

    fn from_json(value: &JsonValue) -> (r: Option<StarPower>) {
        let object = value_as_object(value)?;
        let name = read_text(object, "name")?;
        let id = read_or::<isize>(object, "id", 0)?;
        Some(StarPower { name, id })
    }
}

impl StarPower {
    /// A field that the object lacks has its initial value in the `StarPower` that
    /// the object reads as.
    pub proof fn absent_fields_are_initial(self, members: Map<Seq<char>, Json>)
        requires
            self.json_matches(Json::Object(members)),
        ensures
            !members.contains_key("name"@) ==> self.name@ == Seq::<char>::empty(),
            !members.contains_key("id"@) ==> self.id == 0,
    {
        assert(self.name@.len() == 0 ==> self.name@ =~= Seq::<char>::empty());
    }

    /// An object that holds none of the fields can be read, and reads as the
    /// `StarPower` with initial values.
    pub proof fn reads_without_fields(self)
        ensures
            StarPower::json_ok(Json::Object(Map::empty())),
            self.json_matches(Json::Object(Map::empty())) ==> self.is_default(),
    {
    }
}

} // verus!
