//! Contains models related to the `/players/:tag/battlelog` endpoint of the
//! Brawl Stars API.

use vstd::prelude::*;
use serde_json::Value as JsonValue;
use crate::clone::{FaithfulClone, duplicate};
use crate::error::Error;
use crate::http::client::Client;
use crate::http::request::HttpRequest;
use crate::http::response::Response;
use crate::http::routes::{Route, RouteView};
use crate::json::{Json, value_as_object, value_as_str};
use crate::model::players::player::Player;
use crate::serde::{
    FromJson, field_ok, list_field, optional_field, plain_field, read_field, read_list,
    read_optional, read_or, read_text, text_field,
};
use crate::text::same_text;
use crate::time::TimeLike;
use crate::traits::{FetchFrom, Fetching, GetFetchProp, PropFetchable, asking};
use crate::util::{encode_tag, encoded_tag, fetch_request, fetch_route, reads_with};

verus! {

/// Represents a list of a Player's most recent battles. Use `BattleLog::fetch`
/// to fetch the battle logs for a given player tag.
#[derive(Debug, Hash, PartialEq, Eq)]
pub struct BattleLog {
    /// The tag of the player whose battle log was fetched. It is no part of
    /// what the API sends: a fetch fills it in.
    pub tag: String,
    /// The items (battles) of this battle log.
    pub items: Vec<Battle>,
}

impl Clone for BattleLog {
    /// A clone holds the same as this `BattleLog`.
    fn clone(&self) -> (r: BattleLog)
        ensures
            r.same(self),
    {
        BattleLog {
            tag: self.tag.clone(),
            items: duplicate(&self.items),
        }
    }
}

impl FaithfulClone for BattleLog {
    open spec fn same(&self, other: &BattleLog) -> bool {
        &&& self.tag@ == other.tag@
        &&& self.items.same(&other.items)
    }

    proof fn same_is_reflexive(value: BattleLog) {
        Vec::<Battle>::same_is_reflexive(value.items);
    }

    proof fn clone_is_same(value: BattleLog, copy: BattleLog) {
        if value == copy {
            Self::same_is_reflexive(value);
        }
    }
}

impl FromJson for BattleLog {
    open spec fn json_ok(json: Json) -> bool {
        json matches Json::Object(members) && {
            &&& field_ok::<Vec<Battle>>(members, "items"@)
        }
    }

    open spec fn json_matches(&self, json: Json) -> bool {
        json matches Json::Object(members) && {
            &&& self.tag@.len() == 0
            &&& list_field(self.items, members, "items"@)
        }
    }

    fn from_json(value: &JsonValue) -> (r: Option<BattleLog>) {
        let object = value_as_object(value)?;
        let tag = String::new();
        let items = read_list::<Battle>(object, "items")?;
        Some(BattleLog { tag, items })
    }
}

impl BattleLog {
    /// A field that the object lacks has its initial value in the `BattleLog` that
    /// the object reads as.
    pub proof fn absent_fields_are_initial(self, members: Map<Seq<char>, Json>)
        requires
            self.json_matches(Json::Object(members)),
        ensures
            !members.contains_key("items"@) ==> self.items@.len() == 0,
    {
    }
}

impl BattleLog {
    /// Whether `r` is what the response to the fetch of the battle log of the
    /// player `tag` reads as: a log is read as a `BattleLog` reads from JSON, but
    /// for its tag, which is `tag`.
    pub open spec fn fetched_for(
        tag: Seq<char>,
        response: Response,
        r: Result<BattleLog, Error>,
    ) -> bool {
        reads_with(
            response,
            r,
            |json: Json| BattleLog::json_ok(json),
            |log: BattleLog, json: Json|
                log.tag@ == tag && (json matches Json::Object(members) && list_field(
                    log.items,
                    members,
                    "items"@,
                )),
        )
    }

    fn fetching(client: &Client, tag: &str) -> (r: Result<Fetching<BattleLog>, Error>)
        ensures
            asking(
                client,
                RouteView::PlayerBattlelogs(encoded_tag(tag@, client.auto_hashtag)).url(),
                r,
            ),
    {
        match BattleLog::fetch_request(client, tag) {
            Ok(request) => Ok(Fetching::Asking(request)),
            Err(e) => Err(e),
        }
    }
}

impl GetFetchProp for BattleLog {
    type Property = str;

    open spec fn spec_fetch_prop(&self) -> Seq<char> {
        self.tag@
    }

    open spec fn spec_route(prop: Seq<char>, auto_hashtag: bool) -> RouteView {
        RouteView::PlayerBattlelogs(encoded_tag(prop, auto_hashtag))
    }

    fn get_fetch_prop(&self) -> (prop: &str) {
        self.tag.as_str()
    }

    fn get_route_with(tag: &str, auto_hashtag: bool) -> (route: Route) {
        Route::PlayerBattlelogs(encode_tag(tag, auto_hashtag))
    }
}

impl PropFetchable for BattleLog {
    type Property = str;

    open spec fn spec_fetch_route(prop: Seq<char>, auto_hashtag: bool) -> RouteView {
        RouteView::PlayerBattlelogs(encoded_tag(prop, auto_hashtag))
    }

    open spec fn fetched(prop: Seq<char>, response: Response, r: Result<BattleLog, Error>) -> bool {
        BattleLog::fetched_for(prop, response, r)
    }

    /// The request that fetches a player's battle log, given the player's tag.
    fn fetch_request(client: &Client, tag: &str) -> (r: Result<HttpRequest, Error>) {
        let route = Self::get_route_with(tag, client.auto_hashtag);
        fetch_request(client, &route)
    }

    /// Constructs a battle log out of the response to the request of
    /// `fetch_request`, and notes in it the tag that was asked for.
    fn fetch(tag: &str, response: Response) -> (r: Result<BattleLog, Error>) {
        match fetch_route::<BattleLog>(response) {
            Ok(read) => {
                Ok(BattleLog { tag: String::from_str(tag), items: read.items })
            },
            Err(e) => Err(e),
        }
    }
}

/// Fetches a `BattleLog` using data from a `Player` object: its tag.
impl FetchFrom<Player> for BattleLog {
    open spec fn fetching_from(
        client: &Client,
        value: &Player,
        r: Result<Fetching<BattleLog>, Error>,
    ) -> bool {
        asking(
            client,
            RouteView::PlayerBattlelogs(encoded_tag(value.tag@, client.auto_hashtag)).url(),
            r,
        )
    }

    open spec fn fetched_from(
        value: &Player,
        response: Response,
        r: Result<BattleLog, Error>,
    ) -> bool {
        BattleLog::fetched_for(value.tag@, response, r)
    }

    fn fetch_from(client: &Client, value: &Player) -> (r: Result<Fetching<BattleLog>, Error>) {
        BattleLog::fetching(client, value.tag.as_str())
    }

    fn fetch_from_response(value: &Player, response: Response) -> (r: Result<BattleLog, Error>) {
        BattleLog::fetch(value.tag.as_str(), response)
    }
}

/// Represents a Battle in a player's `BattleLog`.
#[derive(Debug, Hash, PartialEq, Eq)]
pub struct Battle {
    /// The time at which this battle occurred, as a `TimeLike`: parse it with
    /// `TimeLike::parse`.
    pub battle_time: TimeLike,
    /// Data about the event in which this battle occurred.
    pub event: BattleEvent,
    /// Data about the battle itself and its outcome.
    pub result: BattleResultInfo,
}

impl Clone for Battle {
    /// A clone holds the same as this `Battle`.
    fn clone(&self) -> (r: Battle)
        ensures
            r.same(self),
    {
        Battle {
            battle_time: duplicate(&self.battle_time),
            event: duplicate(&self.event),
            result: duplicate(&self.result),
        }
    }
}

impl FaithfulClone for Battle {
    open spec fn same(&self, other: &Battle) -> bool {
        &&& self.battle_time.same(&other.battle_time)
        &&& self.event.same(&other.event)
        &&& self.result.same(&other.result)
    }

    proof fn same_is_reflexive(value: Battle) {
        TimeLike::same_is_reflexive(value.battle_time);
        BattleEvent::same_is_reflexive(value.event);
        BattleResultInfo::same_is_reflexive(value.result);
    }

    proof fn clone_is_same(value: Battle, copy: Battle) {
        if value == copy {
            Self::same_is_reflexive(value);
        }
    }
}

impl Battle {
    /// Whether this is the instance with initial values.
    pub open spec fn is_default(&self) -> bool {
        &&& self.battle_time.is_default()
        &&& self.event.is_default()
        &&& self.result.is_default()
    }
}

impl Default for Battle {
    /// Returns an instance of `Battle` with initial values.
    fn default() -> (r: Battle)
        ensures
            r.is_default(),
    {
        Battle {
            battle_time: TimeLike::default(),
            event: BattleEvent::default(),
            result: BattleResultInfo::default(),
        }
    }
}

impl FromJson for Battle {
    open spec fn json_ok(json: Json) -> bool {
        json matches Json::Object(members) && {
            &&& field_ok::<TimeLike>(members, "battleTime"@)
            &&& field_ok::<BattleEvent>(members, "event"@)
            &&& field_ok::<BattleResultInfo>(members, "battle"@)
        }
    }

    open spec fn json_matches(&self, json: Json) -> bool {
        json matches Json::Object(members) && {
            &&& if members.contains_key("battleTime"@) {
                self.battle_time.json_matches(members["battleTime"@])
            } else {
                self.battle_time.is_default()
            }
            &&& if members.contains_key("event"@) {
                self.event.json_matches(members["event"@])
            } else {
                self.event.is_default()
            }
            &&& if members.contains_key("battle"@) {
                self.result.json_matches(members["battle"@])
            } else {
                self.result.is_default()
            }
        }
    }

    fn from_json(value: &JsonValue) -> (r: Option<Battle>) {
        let object = value_as_object(value)?;
        let battle_time = match read_field::<TimeLike>(object, "battleTime")? {
            Some(battle_time) => battle_time,
            None => TimeLike::default(),
        };
        let event = match read_field::<BattleEvent>(object, "event")? {
            Some(event) => event,
            None => BattleEvent::default(),
        };
        let result = match read_field::<BattleResultInfo>(object, "battle")? {
            Some(result) => result,
            None => BattleResultInfo::default(),
        };
        Some(Battle { battle_time, event, result })
    }
}

impl Battle {
    /// A field that the object lacks has its initial value in the `Battle` that
    /// the object reads as.
    pub proof fn absent_fields_are_initial(self, members: Map<Seq<char>, Json>)
        requires
            self.json_matches(Json::Object(members)),
        ensures
            !members.contains_key("battleTime"@) ==> self.battle_time.is_default(),
            !members.contains_key("event"@) ==> self.event.is_default(),
            !members.contains_key("battle"@) ==> self.result.is_default(),
    {
    }

    /// An object that holds none of the fields can be read, and reads as the
    /// `Battle` with initial values.
    pub proof fn reads_without_fields(self)
        ensures
            Battle::json_ok(Json::Object(Map::empty())),
            self.json_matches(Json::Object(Map::empty())) ==> self.is_default(),
    {
    }
}

/// Represents the event in which a `Battle` occurred.
#[derive(Debug, Hash, PartialEq, Eq)]
pub struct BattleEvent {
    /// The id of the event (an arbitrary number).
    pub id: usize,
    /// The event mode (e.g. "brawlBall", "soloShowdown"...).
    pub mode: String,
    /// The name of the map where this battle happened.
    pub map: String,
}

impl Clone for BattleEvent {
    /// A clone holds the same as this `BattleEvent`.
    fn clone(&self) -> (r: BattleEvent)
        ensures
            r.same(self),
    {
        BattleEvent {
            id: self.id,
            mode: self.mode.clone(),
            map: self.map.clone(),
        }
    }
}

impl FaithfulClone for BattleEvent {
    open spec fn same(&self, other: &BattleEvent) -> bool {
        &&& self.id == other.id
        &&& self.mode@ == other.mode@
        &&& self.map@ == other.map@
    }

    proof fn same_is_reflexive(value: BattleEvent) {
    }

    proof fn clone_is_same(value: BattleEvent, copy: BattleEvent) {
        if value == copy {
            Self::same_is_reflexive(value);
        }
    }
}

impl BattleEvent {
    /// Whether this is the instance with initial values.
    pub open spec fn is_default(&self) -> bool {
        &&& self.id == 0
        &&& self.mode@.len() == 0
        &&& self.map@.len() == 0
    }
}

impl Default for BattleEvent {
    /// Returns an instance of `BattleEvent` with initial values.
    fn default() -> (r: BattleEvent)
        ensures
            r.is_default(),
    {
        BattleEvent {
            id: 0,
            mode: String::new(),
            map: String::new(),
        }
    }
}

impl FromJson for BattleEvent {
    open spec fn json_ok(json: Json) -> bool {
        json matches Json::Object(members) && {
            &&& field_ok::<usize>(members, "id"@)
            &&& field_ok::<String>(members, "mode"@)
            &&& field_ok::<String>(members, "map"@)
        }
    }

    open spec fn json_matches(&self, json: Json) -> bool {
        json matches Json::Object(members) && {
            &&& plain_field(self.id, members, "id"@, 0)
            &&& text_field(self.mode, members, "mode"@)
            &&& text_field(self.map, members, "map"@)
        }
    }

    fn from_json(value: &JsonValue) -> (r: Option<BattleEvent>) {
        let object = value_as_object(value)?;
        let id = read_or::<usize>(object, "id", 0)?;
        let mode = read_text(object, "mode")?;
        let map = read_text(object, "map")?;
        Some(BattleEvent { id, mode, map })
    }
}

impl BattleEvent {
    /// A field that the object lacks has its initial value in the `BattleEvent` that
    /// the object reads as.
    pub proof fn absent_fields_are_initial(self, members: Map<Seq<char>, Json>)
        requires
            self.json_matches(Json::Object(members)),
        ensures
            !members.contains_key("id"@) ==> self.id == 0,
            !members.contains_key("mode"@) ==> self.mode@ == Seq::<char>::empty(),
            !members.contains_key("map"@) ==> self.map@ == Seq::<char>::empty(),
    {
        assert(self.mode@.len() == 0 ==> self.mode@ =~= Seq::<char>::empty());
        assert(self.map@.len() == 0 ==> self.map@ =~= Seq::<char>::empty());
    }

    /// An object that holds none of the fields can be read, and reads as the
    /// `BattleEvent` with initial values.
    pub proof fn reads_without_fields(self)
        ensures
            BattleEvent::json_ok(Json::Object(Map::empty())),
            self.json_matches(Json::Object(Map::empty())) ==> self.is_default(),
    {
    }
}

impl BattleEvent {
    /// Returns a default `BattleEvent`: see `BattleEvent::default`.
    pub fn new() -> (r: BattleEvent)
        ensures
            r.is_default(),
    {
        BattleEvent::default()
    }
}

/// Represents a battle's outcome (Victory|Defeat|Draw).
#[non_exhaustive]
#[derive(Debug, Copy, Clone, Hash, PartialEq, Eq, Structural)]
pub enum BattleOutcome {
    Victory,
    Defeat,
    Draw,
}

impl FaithfulClone for BattleOutcome {
    open spec fn same(&self, other: &BattleOutcome) -> bool {
        *self == *other
    }

    proof fn same_is_reflexive(value: BattleOutcome) {
    }

    proof fn clone_is_same(value: BattleOutcome, copy: BattleOutcome) {
    }
}

impl BattleOutcome {
    /// The name of the variant, as its `Display` writes it.
    pub open spec fn spec_name(self) -> Seq<char> {
        match self {
            BattleOutcome::Victory => "Victory"@,
            BattleOutcome::Defeat => "Defeat"@,
            BattleOutcome::Draw => "Draw"@,
        }
    }

    /// What the API calls the variant.
    pub open spec fn json_name(self) -> Seq<char> {
        match self {
            BattleOutcome::Victory => "victory"@,
            BattleOutcome::Defeat => "defeat"@,
            BattleOutcome::Draw => "draw"@,
        }
    }

    /// The name of the variant, as text.
    pub fn name(&self) -> (text: String)
        ensures
            text@ == self.spec_name(),
    {
        match self {
            BattleOutcome::Victory => String::from_str("Victory"),
            BattleOutcome::Defeat => String::from_str("Defeat"),
            BattleOutcome::Draw => String::from_str("Draw"),
        }
    }
}

impl FromJson for BattleOutcome {
    open spec fn json_ok(json: Json) -> bool {
        json matches Json::Text(text) && exists|v: BattleOutcome| text == v.json_name()
    }

    open spec fn json_matches(&self, json: Json) -> bool {
        json == Json::Text(self.json_name())
    }

    fn from_json(value: &JsonValue) -> (r: Option<BattleOutcome>) {
        let text = value_as_str(value)?;
        if same_text(text, "victory") {
            assert(text@ == BattleOutcome::Victory.json_name());
            Some(BattleOutcome::Victory)
        } else if same_text(text, "defeat") {
            assert(text@ == BattleOutcome::Defeat.json_name());
            Some(BattleOutcome::Defeat)
        } else if same_text(text, "draw") {
            assert(text@ == BattleOutcome::Draw.json_name());
            Some(BattleOutcome::Draw)
        } else {
            assert forall|v: BattleOutcome| text@ != v.json_name() by {
                match v {
                    BattleOutcome::Victory => {},
                    BattleOutcome::Defeat => {},
                    BattleOutcome::Draw => {},
                }
            }
            None
        }
    }
}

/// Represents the result of a battle in a `Battle` object, including details,
/// outcome, players/teams etc. A field that does not apply to the mode of the
/// battle is `None`.
#[derive(Debug, Hash, PartialEq, Eq)]
pub struct BattleResultInfo {
    /// The event mode (e.g. "brawlBall", "soloShowdown"...). Should be the same
    /// as `BattleEvent.mode`.
    pub mode: String,
    /// The type of battle (e.g. "ranked").
    pub battle_type: Option<String>,
    /// The duration of this battle, in seconds.
    pub duration: usize,
    /// The difference in trophies applied to the player after the battle. E.g.
    /// -4 (lost 4 trophies).
    pub trophy_change: isize,
    /// If this was a solo mode match, then this is the player's final rank
    /// (1-10). Otherwise, `None`.
    pub rank: Option<u8>,
    /// If this was a match with teams, then this is the outcome for the player
    /// (Victory/Defeat/Draw), otherwise `None`.
    pub result: Option<BattleOutcome>,
    /// The data indicating who was the Star Player in the match. This is
    /// generally from the winning team, unless a draw occurred, in which case
    /// it can be from either team. If this was a solo mode or boss fight match,
    /// for instance, then there is no star player (`None`).
    pub star_player: Option<BattlePlayer>,
    /// If this was a match with teams, then this is a vector with all teams of
    /// players (as vectors), otherwise `None`.
    pub teams: Option<Vec<Vec<BattlePlayer>>>,
    /// If this was a solo match or a mode without teams, such as Showdown, then
    /// this is a vector with all the players in the match. Otherwise, `None`.
    pub players: Option<Vec<BattlePlayer>>,
}

impl Clone for BattleResultInfo {
    /// A clone holds the same as this `BattleResultInfo`.
    fn clone(&self) -> (r: BattleResultInfo)
        ensures
            r.same(self),
    {
        BattleResultInfo {
            mode: self.mode.clone(),
            battle_type: duplicate(&self.battle_type),
            duration: self.duration,
            trophy_change: self.trophy_change,
            rank: duplicate(&self.rank),
            result: duplicate(&self.result),
            star_player: duplicate(&self.star_player),
            teams: duplicate(&self.teams),
            players: duplicate(&self.players),
        }
    }
}

impl FaithfulClone for BattleResultInfo {
    open spec fn same(&self, other: &BattleResultInfo) -> bool {
        &&& self.mode@ == other.mode@
        &&& self.battle_type.same(&other.battle_type)
        &&& self.duration == other.duration
        &&& self.trophy_change == other.trophy_change
        &&& self.rank.same(&other.rank)
        &&& self.result.same(&other.result)
        &&& self.star_player.same(&other.star_player)
        &&& self.teams.same(&other.teams)
        &&& self.players.same(&other.players)
    }

    proof fn same_is_reflexive(value: BattleResultInfo) {
        Option::<String>::same_is_reflexive(value.battle_type);
        Option::<u8>::same_is_reflexive(value.rank);
        Option::<BattleOutcome>::same_is_reflexive(value.result);
        Option::<BattlePlayer>::same_is_reflexive(value.star_player);
        Option::<Vec<Vec<BattlePlayer>>>::same_is_reflexive(value.teams);
        Option::<Vec<BattlePlayer>>::same_is_reflexive(value.players);
    }

    proof fn clone_is_same(value: BattleResultInfo, copy: BattleResultInfo) {
        if value == copy {
            Self::same_is_reflexive(value);
        }
    }
}

impl FromJson for BattleResultInfo {
    open spec fn json_ok(json: Json) -> bool {
        json matches Json::Object(members) && {
            &&& field_ok::<String>(members, "mode"@)
            &&& field_ok::<Option<String>>(members, "type"@)
            &&& field_ok::<usize>(members, "duration"@)
            &&& field_ok::<isize>(members, "trophyChange"@)
            &&& field_ok::<Option<u8>>(members, "rank"@)
            &&& field_ok::<Option<BattleOutcome>>(members, "result"@)
            &&& field_ok::<Option<BattlePlayer>>(members, "starPlayer"@)
            &&& field_ok::<Option<Vec<Vec<BattlePlayer>>>>(members, "teams"@)
            &&& field_ok::<Option<Vec<BattlePlayer>>>(members, "players"@)
        }
    }

    open spec fn json_matches(&self, json: Json) -> bool {
        json matches Json::Object(members) && {
            &&& text_field(self.mode, members, "mode"@)
            &&& optional_field(self.battle_type, members, "type"@)
            &&& plain_field(self.duration, members, "duration"@, 0)
            &&& plain_field(self.trophy_change, members, "trophyChange"@, 0)
            &&& optional_field(self.rank, members, "rank"@)
            &&& optional_field(self.result, members, "result"@)
            &&& optional_field(self.star_player, members, "starPlayer"@)
            &&& optional_field(self.teams, members, "teams"@)
            &&& optional_field(self.players, members, "players"@)
        }
    }

    fn from_json(value: &JsonValue) -> (r: Option<BattleResultInfo>) {
        let object = value_as_object(value)?;
        let mode = read_text(object, "mode")?;
        let battle_type = read_optional::<String>(object, "type")?;
        let duration = read_or::<usize>(object, "duration", 0)?;
        let trophy_change = read_or::<isize>(object, "trophyChange", 0)?;
        let rank = read_optional::<u8>(object, "rank")?;
        let result = read_optional::<BattleOutcome>(object, "result")?;
        let star_player = read_optional::<BattlePlayer>(object, "starPlayer")?;
        let teams = read_optional::<Vec<Vec<BattlePlayer>>>(object, "teams")?;
        let players = read_optional::<Vec<BattlePlayer>>(object, "players")?;
        Some(
            BattleResultInfo {
                mode,
                battle_type,
                duration,
                trophy_change,
                rank,
                result,
                star_player,
                teams,
                players,
            },
        )
    }
}

impl BattleResultInfo {
    /// A field that the object lacks has its initial value in the `BattleResultInfo` that
    /// the object reads as.
    pub proof fn absent_fields_are_initial(self, members: Map<Seq<char>, Json>)
        requires
            self.json_matches(Json::Object(members)),
        ensures
            !members.contains_key("mode"@) ==> self.mode@ == Seq::<char>::empty(),
            !members.contains_key("type"@) ==> self.battle_type is None,
            !members.contains_key("duration"@) ==> self.duration == 0,
            !members.contains_key("trophyChange"@) ==> self.trophy_change == 0,
            !members.contains_key("rank"@) ==> self.rank is None,
            !members.contains_key("result"@) ==> self.result is None,
            !members.contains_key("starPlayer"@) ==> self.star_player is None,
            !members.contains_key("teams"@) ==> self.teams is None,
            !members.contains_key("players"@) ==> self.players is None,
    {
        assert(self.mode@.len() == 0 ==> self.mode@ =~= Seq::<char>::empty());
    }
}

impl BattleResultInfo {
    /// Whether this is the instance with initial values: no mode, an empty
    /// type of battle, and nothing else.
    pub open spec fn is_default(&self) -> bool {
        &&& self.mode@.len() == 0
        &&& self.battle_type matches Some(text)
        &&& text@.len() == 0
        &&& self.duration == 0
        &&& self.trophy_change == 0
        &&& self.rank is None
        &&& self.result is None
        &&& self.star_player is None
        &&& self.teams is None
        &&& self.players is None
    }
}

impl Default for BattleResultInfo {
    /// Returns an instance of `BattleResultInfo` with initial values.
    fn default() -> (r: BattleResultInfo)
        ensures
            r.is_default(),
    {
        BattleResultInfo {
            mode: String::new(),
            battle_type: Some(String::new()),
            duration: 0,
            trophy_change: 0,
            rank: None,
            result: None,
            star_player: None,
            teams: None,
            players: None,
        }
    }
}

/// Represents a player in a `BattleResultInfo` object, with only partial data
/// about it (note that the `brawler` field is exclusive to this struct). One
/// can use `Player::fetch_from` to obtain a full `Player` instance from an
/// existing `BattlePlayer` instance.
#[derive(Debug, Hash, PartialEq, Eq)]
pub struct BattlePlayer {
    /// The player's tag.
    pub tag: String,
    /// The player's name.
    pub name: String,
    /// The brawler the player was using during the battle.
    pub brawler: BattleBrawler,
}

impl Clone for BattlePlayer {
    /// A clone holds the same as this `BattlePlayer`.
    fn clone(&self) -> (r: BattlePlayer)
        ensures
            r.same(self),
    {
        BattlePlayer {
            tag: self.tag.clone(),
            name: self.name.clone(),
            brawler: duplicate(&self.brawler),
        }
    }
}

impl FaithfulClone for BattlePlayer {
    open spec fn same(&self, other: &BattlePlayer) -> bool {
        &&& self.tag@ == other.tag@
        &&& self.name@ == other.name@
        &&& self.brawler.same(&other.brawler)
    }

    proof fn same_is_reflexive(value: BattlePlayer) {
        BattleBrawler::same_is_reflexive(value.brawler);
    }

    proof fn clone_is_same(value: BattlePlayer, copy: BattlePlayer) {
        if value == copy {
            Self::same_is_reflexive(value);
        }
    }
}

impl BattlePlayer {
    /// Whether this is the instance with initial values.
    pub open spec fn is_default(&self) -> bool {
        &&& self.tag@.len() == 0
        &&& self.name@.len() == 0
        &&& self.brawler.is_default()
    }
}

impl Default for BattlePlayer {
    /// Returns an instance of `BattlePlayer` with initial values.
    fn default() -> (r: BattlePlayer)
        ensures
            r.is_default(),
    {
        BattlePlayer {
            tag: String::new(),
            name: String::new(),
            brawler: BattleBrawler::default(),
        }
    }
}

impl FromJson for BattlePlayer {
    open spec fn json_ok(json: Json) -> bool {
        json matches Json::Object(members) && {
            &&& field_ok::<String>(members, "tag"@)
            &&& field_ok::<String>(members, "name"@)
            &&& field_ok::<BattleBrawler>(members, "brawler"@)
        }
    }

    open spec fn json_matches(&self, json: Json) -> bool {
        json matches Json::Object(members) && {
            &&& text_field(self.tag, members, "tag"@)
            &&& text_field(self.name, members, "name"@)
            &&& if members.contains_key("brawler"@) {
                self.brawler.json_matches(members["brawler"@])
            } else {
                self.brawler.is_default()
            }
        }
    }

    fn from_json(value: &JsonValue) -> (r: Option<BattlePlayer>) {
        let object = value_as_object(value)?;
        let tag = read_text(object, "tag")?;
        let name = read_text(object, "name")?;
        let brawler = match read_field::<BattleBrawler>(object, "brawler")? {
            Some(brawler) => brawler,
            None => BattleBrawler::default(),
        };
        Some(BattlePlayer { tag, name, brawler })
    }
}

impl BattlePlayer {
    /// A field that the object lacks has its initial value in the `BattlePlayer` that
    /// the object reads as.
    pub proof fn absent_fields_are_initial(self, members: Map<Seq<char>, Json>)
        requires
            self.json_matches(Json::Object(members)),
        ensures
            !members.contains_key("tag"@) ==> self.tag@ == Seq::<char>::empty(),
            !members.contains_key("name"@) ==> self.name@ == Seq::<char>::empty(),
            !members.contains_key("brawler"@) ==> self.brawler.is_default(),
    {
        assert(self.tag@.len() == 0 ==> self.tag@ =~= Seq::<char>::empty());
        assert(self.name@.len() == 0 ==> self.name@ =~= Seq::<char>::empty());
    }

    /// An object that holds none of the fields can be read, and reads as the
    /// `BattlePlayer` with initial values.
    pub proof fn reads_without_fields(self)
        ensures
            BattlePlayer::json_ok(Json::Object(Map::empty())),
            self.json_matches(Json::Object(Map::empty())) ==> self.is_default(),
    {
    }
}

/// Represents the brawler a player was using in a `BattlePlayer` object.
#[derive(Debug, Hash, PartialEq, Eq)]
pub struct BattleBrawler {
    /// The brawler's id (an arbitrary number).
    pub id: usize,
    /// The brawler's name.
    pub name: String,
    /// The brawler's power (1-10).
    pub power: u8,
    /// The brawler's trophies.
    pub trophies: usize,
}

impl Clone for BattleBrawler {
    /// A clone holds the same as this `BattleBrawler`.
    fn clone(&self) -> (r: BattleBrawler)
        ensures
            r.same(self),
    {
        BattleBrawler {
            id: self.id,
            name: self.name.clone(),
            power: self.power,
            trophies: self.trophies,
        }
    }
}

impl FaithfulClone for BattleBrawler {
    open spec fn same(&self, other: &BattleBrawler) -> bool {
        &&& self.id == other.id
        &&& self.name@ == other.name@
        &&& self.power == other.power
        &&& self.trophies == other.trophies
    }

    proof fn same_is_reflexive(value: BattleBrawler) {
    }

    proof fn clone_is_same(value: BattleBrawler, copy: BattleBrawler) {
        if value == copy {
            Self::same_is_reflexive(value);
        }
    }
}

impl BattleBrawler {
    /// Whether this is the instance with initial values.
    pub open spec fn is_default(&self) -> bool {
        &&& self.id == 0
        &&& self.name@.len() == 0
        &&& self.power == 1
        &&& self.trophies == 0
    }
}

impl Default for BattleBrawler {
    /// Returns an instance of `BattleBrawler` with initial values.
    fn default() -> (r: BattleBrawler)
        ensures
            r.is_default(),
    {
        BattleBrawler {
            id: 0,
            name: String::new(),
            power: 1,
            trophies: 0,
        }
    }
}

impl FromJson for BattleBrawler {
    open spec fn json_ok(json: Json) -> bool {
        json matches Json::Object(members) && {
            &&& field_ok::<usize>(members, "id"@)
            &&& field_ok::<String>(members, "name"@)
            &&& field_ok::<u8>(members, "power"@)
            &&& field_ok::<usize>(members, "trophies"@)
        }
    }

    open spec fn json_matches(&self, json: Json) -> bool {
        json matches Json::Object(members) && {
            &&& plain_field(self.id, members, "id"@, 0)
            &&& text_field(self.name, members, "name"@)
            &&& plain_field(self.power, members, "power"@, 1)
            &&& plain_field(self.trophies, members, "trophies"@, 0)
        }
    }

    fn from_json(value: &JsonValue) -> (r: Option<BattleBrawler>) {
        let object = value_as_object(value)?;
        let id = read_or::<usize>(object, "id", 0)?;
        let name = read_text(object, "name")?;
        let power = read_or::<u8>(object, "power", 1)?;
        let trophies = read_or::<usize>(object, "trophies", 0)?;
        Some(BattleBrawler { id, name, power, trophies })
    }
}

impl BattleBrawler {
    /// A field that the object lacks has its initial value in the `BattleBrawler` that
    /// the object reads as.
    pub proof fn absent_fields_are_initial(self, members: Map<Seq<char>, Json>)
        requires
            self.json_matches(Json::Object(members)),
        ensures
            !members.contains_key("id"@) ==> self.id == 0,
            !members.contains_key("name"@) ==> self.name@ == Seq::<char>::empty(),
            !members.contains_key("power"@) ==> self.power == 1,
            !members.contains_key("trophies"@) ==> self.trophies == 0,
    {
        assert(self.name@.len() == 0 ==> self.name@ =~= Seq::<char>::empty());
    }

    /// An object that holds none of the fields can be read, and reads as the
    /// `BattleBrawler` with initial values.
    pub proof fn reads_without_fields(self)
        ensures
            BattleBrawler::json_ok(Json::Object(Map::empty())),
            self.json_matches(Json::Object(Map::empty())) ==> self.is_default(),
    {
    }
}

} // verus!
