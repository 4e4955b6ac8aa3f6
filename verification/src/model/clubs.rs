//! Models for the `/clubs/:tag` Brawl Stars API endpoint.

use vstd::prelude::*;
use vstd::std_specs::cmp::PartialOrdSpecImpl;
use vstd::std_specs::convert::FromSpecImpl;
use std::cmp::Ordering;
use serde_json::Value as JsonValue;
use crate::clone::{FaithfulClone, duplicate};
use crate::error::Error;
use crate::http::client::Client;
use crate::http::request::HttpRequest;
use crate::http::response::Response;
use crate::http::routes::{Route, RouteView};
use crate::json::{Json, json_of, object_get, value_as_object, value_as_str};
use crate::model::players::player::PlayerClub;
use crate::model::rankings::clubs::ClubRanking;
use crate::serde::{
    FromJson, field_ok, list_field, number_field, number_field_ok, optional_field, plain_field,
    read_list, read_number_u64, read_optional, read_or, read_text, text_field,
};
use crate::text::same_text;
use crate::traits::{FetchFrom, Fetching, GetFetchProp, PropFetchable, asking};
use crate::util::{encode_tag, encoded_tag, fetch_request, fetch_route, reads_with};

verus! {

/// The type of club (whether it's open, invite-only, or closed).
#[non_exhaustive]
#[derive(Debug, Copy, Clone, Hash, PartialEq, Eq, Structural)]
pub enum ClubType {
    Open,
    InviteOnly,
    Closed,
}

impl FaithfulClone for ClubType {
    open spec fn same(&self, other: &ClubType) -> bool {
        *self == *other
    }

    proof fn same_is_reflexive(value: ClubType) {
    }

    proof fn clone_is_same(value: ClubType, copy: ClubType) {
    }
}

impl ClubType {
    /// The name of the variant, as its `Display` writes it.
    pub open spec fn spec_name(self) -> Seq<char> {
        match self {
            ClubType::Open => "Open"@,
            ClubType::InviteOnly => "InviteOnly"@,
            ClubType::Closed => "Closed"@,
        }
    }

    /// What the API calls the variant.
    pub open spec fn json_name(self) -> Seq<char> {
        match self {
            ClubType::Open => "open"@,
            ClubType::InviteOnly => "inviteOnly"@,
            ClubType::Closed => "closed"@,
        }
    }

    /// The name of the variant, as text.
    pub fn name(&self) -> (text: String)
        ensures
            text@ == self.spec_name(),
    {
        match self {
            ClubType::Open => String::from_str("Open"),
            ClubType::InviteOnly => String::from_str("InviteOnly"),
            ClubType::Closed => String::from_str("Closed"),
        }
    }
}

impl Default for ClubType {
    /// Defaults to `ClubType::Open` (new clubs start open).
    fn default() -> (r: ClubType)
        ensures
            r == ClubType::Open,
    {
        ClubType::Open
    }
}

impl FromJson for ClubType {
    open spec fn json_ok(json: Json) -> bool {
        json matches Json::Text(text) && exists|v: ClubType| text == v.json_name()
    }

    open spec fn json_matches(&self, json: Json) -> bool {
        json == Json::Text(self.json_name())
    }

    fn from_json(value: &JsonValue) -> (r: Option<ClubType>) {
        let text = value_as_str(value)?;
        if same_text(text, "open") {
            assert(text@ == ClubType::Open.json_name());
            Some(ClubType::Open)
        } else if same_text(text, "inviteOnly") {
            assert(text@ == ClubType::InviteOnly.json_name());
            Some(ClubType::InviteOnly)
        } else if same_text(text, "closed") {
            assert(text@ == ClubType::Closed.json_name());
            Some(ClubType::Closed)
        } else {
            assert forall|v: ClubType| text@ != v.json_name() by {
                match v {
                    ClubType::Open => {},
                    ClubType::InviteOnly => {},
                    ClubType::Closed => {},
                }
            }
            None
        }
    }
}

/// A struct representing a Brawl Stars club, with all of its data. Use
/// `Club::fetch` to fetch one based on tag.
#[derive(Debug, Hash, PartialEq, Eq)]
pub struct Club {
    /// The club's tag. **Note: this includes the initial '#'.**
    pub tag: String,
    /// The club's name.
    pub name: String,
    /// The club's description.
    pub description: Option<String>,
    /// The club's trophies.
    pub trophies: usize,
    /// The amount of trophies required to enter on this club, or 0 if it allows
    /// any amount.
    pub required_trophies: usize,
    /// The members in this club.
    pub members: ClubMembers,
    /// The type of club (see `ClubType` docs).
    pub club_type: ClubType,
}

impl Clone for Club {
    /// A clone holds the same as this `Club`.
    fn clone(&self) -> (r: Club)
        ensures
            r.same(self),
    {
        Club {
            tag: self.tag.clone(),
            name: self.name.clone(),
            description: duplicate(&self.description),
            trophies: self.trophies,
            required_trophies: self.required_trophies,
            members: duplicate(&self.members),
            club_type: self.club_type,
        }
    }
}

impl FaithfulClone for Club {
    open spec fn same(&self, other: &Club) -> bool {
        &&& self.tag@ == other.tag@
        &&& self.name@ == other.name@
        &&& self.description.same(&other.description)
        &&& self.trophies == other.trophies
        &&& self.required_trophies == other.required_trophies
        &&& self.members.same(&other.members)
        &&& self.club_type == other.club_type
    }

    proof fn same_is_reflexive(value: Club) {
        Option::<String>::same_is_reflexive(value.description);
        ClubMembers::same_is_reflexive(value.members);
    }

    proof fn clone_is_same(value: Club, copy: Club) {
        if value == copy {
            Self::same_is_reflexive(value);
        }
    }
}

impl Club {
    /// Whether this is the instance with initial values.
    pub open spec fn is_default(&self) -> bool {
        &&& self.tag@.len() == 0
        &&& self.name@.len() == 0
        &&& self.description is None
        &&& self.trophies == 0
        &&& self.required_trophies == 0
        &&& self.members.is_default()
        &&& self.club_type == ClubType::Open
    }
}

impl Default for Club {
    /// Returns an instance of `Club` with initial values.
    fn default() -> (r: Club)
        ensures
            r.is_default(),
    {
        Club {
            tag: String::new(),
            name: String::new(),
            description: None,
            trophies: 0,
            required_trophies: 0,
            members: ClubMembers::default(),
            club_type: ClubType::Open,
        }
    }
}

impl FromJson for Club {
    open spec fn json_ok(json: Json) -> bool {
        json matches Json::Object(members) && {
            &&& field_ok::<String>(members, "tag"@)
            &&& field_ok::<String>(members, "name"@)
            &&& field_ok::<Option<String>>(members, "description"@)
            &&& field_ok::<usize>(members, "trophies"@)
            &&& field_ok::<usize>(members, "requiredTrophies"@)
            &&& members.contains_key("members"@) ==> members_ok(members["members"@])
            &&& field_ok::<ClubType>(members, "type"@)
        }
    }

    open spec fn json_matches(&self, json: Json) -> bool {
        json matches Json::Object(members) && {
            &&& text_field(self.tag, members, "tag"@)
            &&& text_field(self.name, members, "name"@)
            &&& optional_field(self.description, members, "description"@)
            &&& plain_field(self.trophies, members, "trophies"@, 0)
            &&& plain_field(self.required_trophies, members, "requiredTrophies"@, 0)
            &&& if members.contains_key("members"@) {
                members_match(self.members, members["members"@])
            } else {
                self.members.is_default()
            }
            &&& plain_field(self.club_type, members, "type"@, ClubType::Open)
        }
    }

    fn from_json(value: &JsonValue) -> (r: Option<Club>) {
        let object = value_as_object(value)?;
        let tag = read_text(object, "tag")?;
        let name = read_text(object, "name")?;
        let description = read_optional::<String>(object, "description")?;
        let trophies = read_or::<usize>(object, "trophies", 0)?;
        let required_trophies = read_or::<usize>(object, "requiredTrophies", 0)?;
        let members = match object_get(object, "members") {
            Some(list) => read_members(list)?,
            None => ClubMembers::default(),
        };
        let club_type = read_or::<ClubType>(object, "type", ClubType::Open)?;
        Some(Club { tag, name, description, trophies, required_trophies, members, club_type })
    }
}

impl Club {
    /// A field that the object lacks has its initial value in the `Club` that
    /// the object reads as.
    pub proof fn absent_fields_are_initial(self, members: Map<Seq<char>, Json>)
        requires
            self.json_matches(Json::Object(members)),
        ensures
            !members.contains_key("tag"@) ==> self.tag@ == Seq::<char>::empty(),
            !members.contains_key("name"@) ==> self.name@ == Seq::<char>::empty(),
            !members.contains_key("description"@) ==> self.description is None,
            !members.contains_key("trophies"@) ==> self.trophies == 0,
            !members.contains_key("requiredTrophies"@) ==> self.required_trophies == 0,
            !members.contains_key("members"@) ==> self.members.is_default(),
            !members.contains_key("type"@) ==> self.club_type == ClubType::Open,
    {
        assert(self.tag@.len() == 0 ==> self.tag@ =~= Seq::<char>::empty());
        assert(self.name@.len() == 0 ==> self.name@ =~= Seq::<char>::empty());
    }

    /// An object that holds none of the fields can be read, and reads as the
    /// `Club` with initial values.
    pub proof fn reads_without_fields(self)
        ensures
            Club::json_ok(Json::Object(Map::empty())),
            self.json_matches(Json::Object(Map::empty())) ==> self.is_default(),
    {
    }
}

/// Whether the members of a club can be read out of a JSON value: out of an
/// array of members, or out of an object as `ClubMembers` reads from one.
pub open spec fn members_ok(json: Json) -> bool {
    if json is Object {
        ClubMembers::json_ok(json)
    } else {
        Vec::<ClubMember>::json_ok(json)
    }
}

/// Whether `members` is what a JSON value reads as: the items of an array, under
/// no tag, or what `ClubMembers` reads as from an object.
pub open spec fn members_match(members: ClubMembers, json: Json) -> bool {
    if json is Object {
        members.json_matches(json)
    } else {
        members.tag@.len() == 0 && members.items.json_matches(json)
    }
}

/// Reads the members of a club as `members_match` describes them, or gives
/// `None` where `json` holds no members.
fn read_members(value: &JsonValue) -> (r: Option<ClubMembers>)
    ensures
        r is Some <==> members_ok(json_of(*value)),
        r matches Some(members) ==> members_match(members, json_of(*value)),
{
    match value_as_object(value) {
        Some(_) => ClubMembers::from_json(value),
        None => match Vec::<ClubMember>::from_json(value) {
            Some(items) => Some(ClubMembers { tag: String::new(), items }),
            None => None,
        },
    }
}

impl Club {
    /// Whether `r` is what the response to the fetch of a club reads as: a club
    /// is read as a `Club` reads from JSON, but for the tag of its members,
    /// which is the tag of the club.
    pub open spec fn fetched_as(response: Response, r: Result<Club, Error>) -> bool {
        reads_with(
            response,
            r,
            |json: Json| Club::json_ok(json),
            |club: Club, json: Json|
                club.members.tag@ == club.tag@ && exists|read: Club|
                    #![trigger read.json_matches(json)]
                    read.json_matches(json) && club.same_but_members_tag(read),
        )
    }

    /// Whether this club and `other` hold the same, but for the tag of their
    /// members.
    pub open spec fn same_but_members_tag(&self, other: Club) -> bool {
        &&& self.tag == other.tag
        &&& self.name == other.name
        &&& self.description == other.description
        &&& self.trophies == other.trophies
        &&& self.required_trophies == other.required_trophies
        &&& self.members.items == other.members.items
        &&& self.club_type == other.club_type
    }

    fn fetching(client: &Client, tag: &str) -> (r: Result<Fetching<Club>, Error>)
        ensures
            asking(client, RouteView::Club(encoded_tag(tag@, client.auto_hashtag)).url(), r),
    {
        match Club::fetch_request(client, tag) {
            Ok(request) => Ok(Fetching::Asking(request)),
            Err(e) => Err(e),
        }
    }
}

impl GetFetchProp for Club {
    type Property = str;

    open spec fn spec_fetch_prop(&self) -> Seq<char> {
        self.tag@
    }

    open spec fn spec_route(prop: Seq<char>, auto_hashtag: bool) -> RouteView {
        RouteView::Club(encoded_tag(prop, auto_hashtag))
    }

    fn get_fetch_prop(&self) -> (prop: &str) {
        self.tag.as_str()
    }

    fn get_route_with(tag: &str, auto_hashtag: bool) -> (route: Route) {
        Route::Club(encode_tag(tag, auto_hashtag))
    }
}

impl PropFetchable for Club {
    type Property = str;

    open spec fn spec_fetch_route(prop: Seq<char>, auto_hashtag: bool) -> RouteView {
        RouteView::Club(encoded_tag(prop, auto_hashtag))
    }

    open spec fn fetched(prop: Seq<char>, response: Response, r: Result<Club, Error>) -> bool {
        Club::fetched_as(response, r)
    }

    /// The request that fetches a club from its tag.
    fn fetch_request(client: &Client, tag: &str) -> (r: Result<HttpRequest, Error>) {
        let route = Self::get_route_with(tag, client.auto_hashtag);
        fetch_request(client, &route)
    }

    /// Constructs a club out of the response to the request of
    /// `fetch_request`, and notes the tag of the club in its members.
    fn fetch(tag: &str, response: Response) -> (r: Result<Club, Error>) {
        match fetch_route::<Club>(response) {
            Ok(read) => {
                let ghost before = read;
                let mut club = read;
                club.members.tag = club.tag.clone();
                assert(club.same_but_members_tag(before));
                Ok(club)
            },
            Err(e) => Err(e),
        }
    }
}

/// Fetches a `Club` using data from a `PlayerClub` object: its tag.
impl FetchFrom<PlayerClub> for Club {
    open spec fn fetching_from(
        client: &Client,
        value: &PlayerClub,
        r: Result<Fetching<Club>, Error>,
    ) -> bool {
        asking(client, RouteView::Club(encoded_tag(value.tag@, client.auto_hashtag)).url(), r)
    }

    open spec fn fetched_from(
        value: &PlayerClub,
        response: Response,
        r: Result<Club, Error>,
    ) -> bool {
        Club::fetched_as(response, r)
    }

    fn fetch_from(client: &Client, value: &PlayerClub) -> (r: Result<Fetching<Club>, Error>) {
        Club::fetching(client, value.tag.as_str())
    }

    fn fetch_from_response(value: &PlayerClub, response: Response) -> (r: Result<Club, Error>) {
        Club::fetch(value.tag.as_str(), response)
    }
}

/// Fetches a `Club` using data from a `ClubRanking` object: its tag.
impl FetchFrom<ClubRanking> for Club {
    open spec fn fetching_from(
        client: &Client,
        value: &ClubRanking,
        r: Result<Fetching<Club>, Error>,
    ) -> bool {
        asking(client, RouteView::Club(encoded_tag(value.tag@, client.auto_hashtag)).url(), r)
    }

    open spec fn fetched_from(
        value: &ClubRanking,
        response: Response,
        r: Result<Club, Error>,
    ) -> bool {
        Club::fetched_as(response, r)
    }

    fn fetch_from(client: &Client, value: &ClubRanking) -> (r: Result<Fetching<Club>, Error>) {
        Club::fetching(client, value.tag.as_str())
    }

    fn fetch_from_response(value: &ClubRanking, response: Response) -> (r: Result<Club, Error>) {
        Club::fetch(value.tag.as_str(), response)
    }
}

/// An enum representing a member's possible roles (see `ClubMember`), from the
/// lowest in the hierarchy to the highest.
#[non_exhaustive]
#[derive(Debug, Copy, Clone, Hash, PartialEq, Eq, Ord, Structural)]
pub enum ClubMemberRole {
    Member,
    Senior,
    VicePresident,
    President,
}

impl FaithfulClone for ClubMemberRole {
    open spec fn same(&self, other: &ClubMemberRole) -> bool {
        *self == *other
    }

    proof fn same_is_reflexive(value: ClubMemberRole) {
    }

    proof fn clone_is_same(value: ClubMemberRole, copy: ClubMemberRole) {
    }
}

impl ClubMemberRole {
    /// The name of the variant, as its `Display` writes it.
    pub open spec fn spec_name(self) -> Seq<char> {
        match self {
            ClubMemberRole::Member => "Member"@,
            ClubMemberRole::Senior => "Senior"@,
            ClubMemberRole::VicePresident => "VicePresident"@,
            ClubMemberRole::President => "President"@,
        }
    }

    /// What the API calls the variant.
    pub open spec fn json_name(self) -> Seq<char> {
        match self {
            ClubMemberRole::Member => "member"@,
            ClubMemberRole::Senior => "senior"@,
            ClubMemberRole::VicePresident => "vicePresident"@,
            ClubMemberRole::President => "president"@,
        }
    }

    /// The name of the variant, as text.
    pub fn name(&self) -> (text: String)
        ensures
            text@ == self.spec_name(),
    {
        match self {
            ClubMemberRole::Member => String::from_str("Member"),
            ClubMemberRole::Senior => String::from_str("Senior"),
            ClubMemberRole::VicePresident => String::from_str("VicePresident"),
            ClubMemberRole::President => String::from_str("President"),
        }
    }
}

impl Default for ClubMemberRole {
    /// Defaults to `ClubMemberRole::Member`: the role of any member who has just joined.
    fn default() -> (r: ClubMemberRole)
        ensures
            r == ClubMemberRole::Member,
    {
        ClubMemberRole::Member
    }
}

impl FromJson for ClubMemberRole {
    open spec fn json_ok(json: Json) -> bool {
        json matches Json::Text(text) && exists|v: ClubMemberRole| text == v.json_name()
    }

    open spec fn json_matches(&self, json: Json) -> bool {
        json == Json::Text(self.json_name())
    }

    fn from_json(value: &JsonValue) -> (r: Option<ClubMemberRole>) {
        let text = value_as_str(value)?;
        if same_text(text, "member") {
            assert(text@ == ClubMemberRole::Member.json_name());
            Some(ClubMemberRole::Member)
        } else if same_text(text, "senior") {
            assert(text@ == ClubMemberRole::Senior.json_name());
            Some(ClubMemberRole::Senior)
        } else if same_text(text, "vicePresident") {
            assert(text@ == ClubMemberRole::VicePresident.json_name());
            Some(ClubMemberRole::VicePresident)
        } else if same_text(text, "president") {
            assert(text@ == ClubMemberRole::President.json_name());
            Some(ClubMemberRole::President)
        } else {
            assert forall|v: ClubMemberRole| text@ != v.json_name() by {
                match v {
                    ClubMemberRole::Member => {},
                    ClubMemberRole::Senior => {},
                    ClubMemberRole::VicePresident => {},
                    ClubMemberRole::President => {},
                }
            }
            None
        }
    }
}

impl ClubMemberRole {
    /// The place of a role in the hierarchy, from the lowest:
    /// `Member < Senior < VicePresident < President`.
    pub open spec fn level(self) -> u8 {
        match self {
            ClubMemberRole::Member => 0,
            ClubMemberRole::Senior => 1,
            ClubMemberRole::VicePresident => 2,
            ClubMemberRole::President => 3,
        }
    }

    /// The place of this role in the hierarchy (see `level`).
    pub fn rank(&self) -> (r: u8)
        ensures
            r == self.level(),
    {
        match self {
            ClubMemberRole::Member => 0,
            ClubMemberRole::Senior => 1,
            ClubMemberRole::VicePresident => 2,
            ClubMemberRole::President => 3,
        }
    }
}

/// How two places in a hierarchy compare.
pub open spec fn level_order(a: u8, b: u8) -> Ordering {
    if a < b {
        Ordering::Less
    } else if a == b {
        Ordering::Equal
    } else {
        Ordering::Greater
    }
}

fn compare_levels(a: u8, b: u8) -> (r: Ordering)
    ensures
        r == level_order(a, b),
{
    if a < b {
        Ordering::Less
    } else if a == b {
        Ordering::Equal
    } else {
        Ordering::Greater
    }
}

impl PartialOrdSpecImpl for ClubMemberRole {
    open spec fn obeys_partial_cmp_spec() -> bool {
        true
    }

    open spec fn partial_cmp_spec(&self, other: &ClubMemberRole) -> Option<Ordering> {
        Some(level_order(self.level(), other.level()))
    }
}

impl PartialOrd for ClubMemberRole {
    /// Compares and determines which `ClubMemberRole` is higher in the
    /// hierarchy: `Member < Senior < VicePresident < President`.
    fn partial_cmp(&self, other: &ClubMemberRole) -> (r: Option<Ordering>) {
        Some(compare_levels(self.rank(), other.rank()))
    }
}

/// A struct representing a Brawl Stars club's member, with its club-relevant
/// data (most importantly, its role). Use `Player::fetch_from` to fetch the
/// full player data.
#[derive(Debug, Hash, PartialEq, Eq)]
pub struct ClubMember {
    /// The member's tag.
    pub tag: String,
    /// The member's name.
    pub name: String,
    /// The member's trophies.
    pub trophies: usize,
    /// The member's role in the guild. (Default is `ClubMemberRole::Member`.)
    pub role: ClubMemberRole,
    /// The member's name color, as an integer (Default is 0xffffff = 16777215:
    /// this is used when the data is not available).
    pub name_color: u64,
}

impl Clone for ClubMember {
    /// A clone holds the same as this `ClubMember`.
    fn clone(&self) -> (r: ClubMember)
        ensures
            r.same(self),
    {
        ClubMember {
            tag: self.tag.clone(),
            name: self.name.clone(),
            trophies: self.trophies,
            role: self.role,
            name_color: self.name_color,
        }
    }
}

impl FaithfulClone for ClubMember {
    open spec fn same(&self, other: &ClubMember) -> bool {
        &&& self.tag@ == other.tag@
        &&& self.name@ == other.name@
        &&& self.trophies == other.trophies
        &&& self.role == other.role
        &&& self.name_color == other.name_color
    }

    proof fn same_is_reflexive(value: ClubMember) {
    }

    proof fn clone_is_same(value: ClubMember, copy: ClubMember) {
        if value == copy {
            Self::same_is_reflexive(value);
        }
    }
}

impl ClubMember {
    /// Whether this is the instance with initial values.
    pub open spec fn is_default(&self) -> bool {
        &&& self.tag@.len() == 0
        &&& self.name@.len() == 0
        &&& self.trophies == 0
        &&& self.role == ClubMemberRole::Member
        &&& self.name_color == 0xffffff
    }
}

impl Default for ClubMember {
    /// Returns an instance of `ClubMember` with initial values.
    fn default() -> (r: ClubMember)
        ensures
            r.is_default(),
    {
        ClubMember {
            tag: String::new(),
            name: String::new(),
            trophies: 0,
            role: ClubMemberRole::Member,
            name_color: 0xffffff,
        }
    }
}

impl FromJson for ClubMember {
    open spec fn json_ok(json: Json) -> bool {
        json matches Json::Object(members) && {
            &&& field_ok::<String>(members, "tag"@)
            &&& field_ok::<String>(members, "name"@)
            &&& field_ok::<usize>(members, "trophies"@)
            &&& field_ok::<ClubMemberRole>(members, "role"@)
            &&& number_field_ok(members, "nameColor"@, u64::MAX as nat)
        }
    }

    open spec fn json_matches(&self, json: Json) -> bool {
        json matches Json::Object(members) && {
            &&& text_field(self.tag, members, "tag"@)
            &&& text_field(self.name, members, "name"@)
            &&& plain_field(self.trophies, members, "trophies"@, 0)
            &&& plain_field(self.role, members, "role"@, ClubMemberRole::Member)
            &&& number_field(
                self.name_color as nat,
                members,
                "nameColor"@,
                0xffffff,
                u64::MAX as nat,
            )
        }
    }

    fn from_json(value: &JsonValue) -> (r: Option<ClubMember>) {
        let object = value_as_object(value)?;
        let tag = read_text(object, "tag")?;
        let name = read_text(object, "name")?;
        let trophies = read_or::<usize>(object, "trophies", 0)?;
        let role = read_or::<ClubMemberRole>(object, "role", ClubMemberRole::Member)?;
        let name_color = read_number_u64(object, "nameColor", 0xffffff)?;
        Some(ClubMember { tag, name, trophies, role, name_color })
    }
}

impl ClubMember {
    /// A field that the object lacks has its initial value in the `ClubMember` that
    /// the object reads as.
    pub proof fn absent_fields_are_initial(self, members: Map<Seq<char>, Json>)
        requires
            self.json_matches(Json::Object(members)),
        ensures
            !members.contains_key("tag"@) ==> self.tag@ == Seq::<char>::empty(),
            !members.contains_key("name"@) ==> self.name@ == Seq::<char>::empty(),
            !members.contains_key("trophies"@) ==> self.trophies == 0,
            !members.contains_key("role"@) ==> self.role == ClubMemberRole::Member,
            !members.contains_key("nameColor"@) ==> self.name_color == 0xffffff,
    {
        assert(self.tag@.len() == 0 ==> self.tag@ =~= Seq::<char>::empty());
        assert(self.name@.len() == 0 ==> self.name@ =~= Seq::<char>::empty());
    }

    /// An object that holds none of the fields can be read, and reads as the
    /// `ClubMember` with initial values.
    pub proof fn reads_without_fields(self)
        ensures
            ClubMember::json_ok(Json::Object(Map::empty())),
            self.json_matches(Json::Object(Map::empty())) ==> self.is_default(),
    {
    }
}

impl PartialOrdSpecImpl for ClubMember {
    open spec fn obeys_partial_cmp_spec() -> bool {
        true
    }

    open spec fn partial_cmp_spec(&self, other: &ClubMember) -> Option<Ordering> {
        Some(level_order(self.role.level(), other.role.level()))
    }
}

impl PartialOrd for ClubMember {
    /// Compares and determines which `ClubMember` has a higher role.
    fn partial_cmp(&self, other: &ClubMember) -> (r: Option<Ordering>) {
        Some(compare_levels(self.role.rank(), other.role.rank()))
    }
}

/// Represents a list of Club members, without relating to a previous `Club`
/// object. This is only used if one does not want to fetch full club data, but
/// only its members. Use `ClubMembers::fetch` to fetch the members from a
/// specific club tag.
#[derive(Debug, Hash, PartialEq, Eq)]
pub struct ClubMembers {
    /// The tag of the club whose members were fetched. It is no part of what
    /// the API sends: a fetch fills it in.
    pub tag: String,
    /// The fetched members of the specified club.
    pub items: Vec<ClubMember>,
}

impl Clone for ClubMembers {
    /// A clone holds the same as this `ClubMembers`.
    fn clone(&self) -> (r: ClubMembers)
        ensures
            r.same(self),
    {
        ClubMembers {
            tag: self.tag.clone(),
            items: duplicate(&self.items),
        }
    }
}

impl FaithfulClone for ClubMembers {
    open spec fn same(&self, other: &ClubMembers) -> bool {
        &&& self.tag@ == other.tag@
        &&& self.items.same(&other.items)
    }

    proof fn same_is_reflexive(value: ClubMembers) {
        Vec::<ClubMember>::same_is_reflexive(value.items);
    }

    proof fn clone_is_same(value: ClubMembers, copy: ClubMembers) {
        if value == copy {
            Self::same_is_reflexive(value);
        }
    }
}

impl ClubMembers {
    /// Whether this is the instance with initial values.
    pub open spec fn is_default(&self) -> bool {
        &&& self.tag@.len() == 0
        &&& self.items@.len() == 0
    }
}

impl Default for ClubMembers {
    /// Returns an instance of `ClubMembers` with initial values.
    fn default() -> (r: ClubMembers)
        ensures
            r.is_default(),
    {
        ClubMembers {
            tag: String::new(),
            items: Vec::new(),
        }
    }
}

impl FromJson for ClubMembers {
    open spec fn json_ok(json: Json) -> bool {
        json matches Json::Object(members) && {
            &&& field_ok::<Vec<ClubMember>>(members, "items"@)
        }
    }

    open spec fn json_matches(&self, json: Json) -> bool {
        json matches Json::Object(members) && {
            &&& self.tag@.len() == 0
            &&& list_field(self.items, members, "items"@)
        }
    }

    fn from_json(value: &JsonValue) -> (r: Option<ClubMembers>) {
        let object = value_as_object(value)?;
        let tag = String::new();
        let items = read_list::<ClubMember>(object, "items")?;
        Some(ClubMembers { tag, items })
    }
}

impl ClubMembers {
    /// A field that the object lacks has its initial value in the `ClubMembers` that
    /// the object reads as.
    pub proof fn absent_fields_are_initial(self, members: Map<Seq<char>, Json>)
        requires
            self.json_matches(Json::Object(members)),
        ensures
            !members.contains_key("items"@) ==> self.items@.len() == 0,
    {
    }

    /// An object that holds none of the fields can be read, and reads as the
    /// `ClubMembers` with initial values.
    pub proof fn reads_without_fields(self)
        ensures
            ClubMembers::json_ok(Json::Object(Map::empty())),
            self.json_matches(Json::Object(Map::empty())) ==> self.is_default(),
    {
    }
}

impl ClubMembers {
    /// Whether `r` is what the response to the fetch of the members of the
    /// club `tag` reads as: the members are read as `ClubMembers` reads from
    /// JSON, but for their tag, which is `tag`.
    pub open spec fn fetched_for(
        tag: Seq<char>,
        response: Response,
        r: Result<ClubMembers, Error>,
    ) -> bool {
        reads_with(
            response,
            r,
            |json: Json| ClubMembers::json_ok(json),
            |list: ClubMembers, json: Json|
                list.tag@ == tag && (json matches Json::Object(members) && list_field(
                    list.items,
                    members,
                    "items"@,
                )),
        )
    }
}

impl GetFetchProp for ClubMembers {
    type Property = str;

    open spec fn spec_fetch_prop(&self) -> Seq<char> {
        self.tag@
    }

    open spec fn spec_route(prop: Seq<char>, auto_hashtag: bool) -> RouteView {
        RouteView::ClubMembers(encoded_tag(prop, auto_hashtag))
    }

    fn get_fetch_prop(&self) -> (prop: &str) {
        self.tag.as_str()
    }

    fn get_route_with(tag: &str, auto_hashtag: bool) -> (route: Route) {
        Route::ClubMembers(encode_tag(tag, auto_hashtag))
    }
}

impl PropFetchable for ClubMembers {
    type Property = str;

    open spec fn spec_fetch_route(prop: Seq<char>, auto_hashtag: bool) -> RouteView {
        RouteView::ClubMembers(encoded_tag(prop, auto_hashtag))
    }

    open spec fn fetched(
        prop: Seq<char>,
        response: Response,
        r: Result<ClubMembers, Error>,
    ) -> bool {
        ClubMembers::fetched_for(prop, response, r)
    }

    /// The request that fetches a club's members, given its tag, without the
    /// rest of the club's data.
    fn fetch_request(client: &Client, tag: &str) -> (r: Result<HttpRequest, Error>) {
        let route = Self::get_route_with(tag, client.auto_hashtag);
        fetch_request(client, &route)
    }

    /// Constructs the members out of the response to the request of
    /// `fetch_request`, and notes in them the tag that was asked for.
    fn fetch(tag: &str, response: Response) -> (r: Result<ClubMembers, Error>) {
        match fetch_route::<ClubMembers>(response) {
            Ok(read) => Ok(ClubMembers { tag: String::from_str(tag), items: read.items }),
            Err(e) => Err(e),
        }
    }
}

impl FromSpecImpl<Club> for ClubMembers {
    open spec fn obeys_from_spec() -> bool {
        true
    }

    open spec fn from_spec(club: Club) -> ClubMembers {
        club.members
    }
}

impl From<Club> for ClubMembers {
    /// Simply returns a given `Club`'s `members` field.
    fn from(club: Club) -> (members: ClubMembers) {
        club.members
    }
}

} // verus!
