//! Contains the `Route` enum, which lists the API endpoints and renders each one,
//! with its parameters, into a URL.

use vstd::prelude::*;
use crate::constants::API_URI;
use crate::text::{
    decimal, decimal_is_digits, decimal_is_injective, decimal_string, split_at_last_mark,
};

verus! {

/// An enum representing the possible Brawl API routes.
#[non_exhaustive]
#[derive(Debug, Clone, Hash, PartialEq, Eq)]
pub enum Route {
    /// Route for the `/players/:tag` endpoint, which gives a player's data.
    /// (`tag` must begin with `%23`, the encoded `#`, for correct results.)
    Player(String),
    /// Route for the `/players/:tag/battlelog` endpoint, which gives the battles
    /// that a player played recently. (`tag` must begin with `%23`.)
    PlayerBattlelogs(String),
    /// Route for the `/clubs/:tag` endpoint, which gives a club's data.
    /// (`tag` must begin with `%23`.)
    Club(String),
    /// Route for the `/clubs/:tag/members` endpoint, which gives a club's members.
    /// (`tag` must begin with `%23`.)
    ClubMembers(String),
    /// Route for the `/rankings/:country_code/players?limit=x` endpoint: the top
    /// `limit` players of a country by trophies.
    PlayerRankings {
        /// A two-letter country code, or `"global"` for the global leaderboard.
        country_code: String,
        /// How many rankings to get. The API answers with 200 at most.
        limit: u8,
    },
    /// Route for the `/rankings/:country_code/clubs?limit=x` endpoint: the top
    /// `limit` clubs of a country by trophies.
    ClubRankings {
        /// A two-letter country code, or `"global"` for the global leaderboard.
        country_code: String,
        /// How many rankings to get. The API answers with 200 at most.
        limit: u8,
    },
    /// Route for the `/rankings/:country_code/brawlers/:brawler_id?limit=x`
    /// endpoint: the top `limit` players of a country with one brawler.
    BrawlerRankings {
        /// A two-letter country code, or `"global"` for the global leaderboard.
        country_code: String,
        /// The id of the brawler whose rankings are asked for.
        brawler_id: usize,
        /// How many rankings to get. The API answers with 200 at most.
        limit: u8,
    },
    /// Route for the `/brawlers/` endpoint, which lists all brawlers in the game.
    Brawlers,
    /// Route for the `/brawlers/:id` endpoint, which gives one brawler's data.
    Brawler(usize),
}

/// A route as a mathematical value: the endpoint and the parameters it carries.
pub enum RouteView {
    Player(Seq<char>),
    PlayerBattlelogs(Seq<char>),
    Club(Seq<char>),
    ClubMembers(Seq<char>),
    PlayerRankings { country_code: Seq<char>, limit: u8 },
    ClubRankings { country_code: Seq<char>, limit: u8 },
    BrawlerRankings { country_code: Seq<char>, brawler_id: usize, limit: u8 },
    Brawlers,
    Brawler(usize),
}

impl RouteView {
    /// The path of this route below the API's base address.
    pub open spec fn path(self) -> Seq<char> {
        match self {
            RouteView::Player(tag) => "players/"@ + tag,
            RouteView::PlayerBattlelogs(tag) => "players/"@ + tag + "/battlelog"@,
            RouteView::Club(tag) => "clubs/"@ + tag,
            RouteView::ClubMembers(tag) => "clubs/"@ + tag + "/members"@,
            RouteView::PlayerRankings { country_code, limit } => "rankings/"@ + country_code
                + "/players?limit="@ + decimal(limit as nat),
            RouteView::ClubRankings { country_code, limit } => "rankings/"@ + country_code
                + "/clubs?limit="@ + decimal(limit as nat),
            RouteView::BrawlerRankings { country_code, brawler_id, limit } => "rankings/"@
                + country_code + "/brawlers/"@ + decimal(brawler_id as nat) + "?limit="@ + decimal(
                limit as nat,
            ),
            RouteView::Brawlers => "brawlers/"@,
            RouteView::Brawler(id) => "brawlers/"@ + decimal(id as nat),
        }
    }

    /// The full URL of this route: the API's base address, then the path.
    pub open spec fn url(self) -> Seq<char> {
        API_URI@ + self.path()
    }
}

impl View for Route {
    type V = RouteView;

    open spec fn view(&self) -> RouteView {
        match self {
            Route::Player(tag) => RouteView::Player(tag@),
            Route::PlayerBattlelogs(tag) => RouteView::PlayerBattlelogs(tag@),
            Route::Club(tag) => RouteView::Club(tag@),
            Route::ClubMembers(tag) => RouteView::ClubMembers(tag@),
            Route::PlayerRankings { country_code, limit } => RouteView::PlayerRankings {
                country_code: country_code@,
                limit: *limit,
            },
            Route::ClubRankings { country_code, limit } => RouteView::ClubRankings {
                country_code: country_code@,
                limit: *limit,
            },
            Route::BrawlerRankings { country_code, brawler_id, limit } => {
                RouteView::BrawlerRankings {
                    country_code: country_code@,
                    brawler_id: *brawler_id,
                    limit: *limit,
                }
            },
            Route::Brawlers => RouteView::Brawlers,
            Route::Brawler(id) => RouteView::Brawler(*id),
        }
    }
}

impl Route {
    /// Evaluates the `Route` instance into a full URL string.
    pub fn to_url_str(&self) -> (url: String)
        ensures
            url@ == self@.url(),
    {
        let mut url = String::from_str(API_URI);
        let ghost base = url@;
        match self {
            Route::Player(tag) => {
                url.append("players/");
                url.append(tag.as_str());
                assert(url@ =~= base + ("players/"@ + tag@));
            },
            Route::PlayerBattlelogs(tag) => {
                url.append("players/");
                url.append(tag.as_str());
                url.append("/battlelog");
                assert(url@ =~= base + ("players/"@ + tag@ + "/battlelog"@));
            },
            Route::Club(tag) => {
                url.append("clubs/");
                url.append(tag.as_str());
                assert(url@ =~= base + ("clubs/"@ + tag@));
            },
            Route::ClubMembers(tag) => {
                url.append("clubs/");
                url.append(tag.as_str());
                url.append("/members");
                assert(url@ =~= base + ("clubs/"@ + tag@ + "/members"@));
            },
            Route::PlayerRankings { country_code, limit } => {
                let count = decimal_string(*limit as usize);
                url.append("rankings/");
                url.append(country_code.as_str());
                url.append("/players?limit=");
                url.append(count.as_str());
                assert(url@ =~= base + ("rankings/"@ + country_code@ + "/players?limit="@
                    + decimal(*limit as nat)));
            },
            Route::ClubRankings { country_code, limit } => {
                let count = decimal_string(*limit as usize);
                url.append("rankings/");
                url.append(country_code.as_str());
                url.append("/clubs?limit=");
                url.append(count.as_str());
                assert(url@ =~= base + ("rankings/"@ + country_code@ + "/clubs?limit="@ + decimal(
                    *limit as nat,
                )));
            },
            Route::BrawlerRankings { country_code, brawler_id, limit } => {
                let id = decimal_string(*brawler_id);
                let count = decimal_string(*limit as usize);
                url.append("rankings/");
                url.append(country_code.as_str());
                url.append("/brawlers/");
                url.append(id.as_str());
                url.append("?limit=");
                url.append(count.as_str());
                assert(url@ =~= base + ("rankings/"@ + country_code@ + "/brawlers/"@ + decimal(
                    *brawler_id as nat,
                ) + "?limit="@ + decimal(*limit as nat)));
            },
            Route::Brawlers => {
                url.append("brawlers/");
            },
            Route::Brawler(id) => {
                let number = decimal_string(*id);
                url.append("brawlers/");
                url.append(number.as_str());
                assert(url@ =~= base + ("brawlers/"@ + decimal(*id as nat)));
            },
        }
        url
    }
}

impl RouteView {
    /// Whether two routes are for the same endpoint.
    pub open spec fn same_endpoint(self, other: RouteView) -> bool {
        match self {
            RouteView::Player(_) => other is Player,
            RouteView::PlayerBattlelogs(_) => other is PlayerBattlelogs,
            RouteView::Club(_) => other is Club,
            RouteView::ClubMembers(_) => other is ClubMembers,
            RouteView::PlayerRankings { .. } => other is PlayerRankings,
            RouteView::ClubRankings { .. } => other is ClubRankings,
            RouteView::BrawlerRankings { .. } => other is BrawlerRankings,
            RouteView::Brawlers => other is Brawlers,
            RouteView::Brawler(_) => other is Brawler,
        }
    }
}

proof fn lemma_same_front(front: Seq<char>, a: Seq<char>, b: Seq<char>)
    requires
        front + a == front + b,
    ensures
        a == b,
{
    assert(a =~= (front + a).skip(front.len() as int));
    assert(b =~= (front + b).skip(front.len() as int));
}

proof fn lemma_same_back(a: Seq<char>, b: Seq<char>, back: Seq<char>)
    requires
        a + back == b + back,
    ensures
        a == b,
{
    assert((a + back).len() == a.len() + back.len());
    assert((b + back).len() == b.len() + back.len());
    assert(a =~= (a + back).take(a.len() as int));
    assert(b =~= (b + back).take(b.len() as int));
}

proof fn lemma_limit_split(
    code: Seq<char>,
    other_code: Seq<char>,
    middle: Seq<char>,
    limit: nat,
    other_limit: nat,
)
    requires
        middle.len() > 0,
        middle.last() == '=' || middle.last() == '/',
        code + middle + decimal(limit) == other_code + middle + decimal(other_limit),
    ensures
        code == other_code,
        limit == other_limit,
{
    decimal_is_digits(limit);
    decimal_is_digits(other_limit);
    split_at_last_mark(code, other_code, middle, decimal(limit), decimal(other_limit));
    decimal_is_injective(limit, other_limit);
}

/// Within one endpoint, the URL tells the routes apart: two routes for the same
/// endpoint that render to the same URL carry the same parameters.
pub proof fn rendering_tells_routes_apart(a: RouteView, b: RouteView)
    requires
        a.same_endpoint(b),
        a.url() == b.url(),
    ensures
        a == b,
{
    lemma_same_front(API_URI@, a.path(), b.path());
    match (a, b) {
        (RouteView::Player(s), RouteView::Player(t)) => {
            lemma_same_front("players/"@, s, t);
        },
        (RouteView::PlayerBattlelogs(s), RouteView::PlayerBattlelogs(t)) => {
            lemma_same_back("players/"@ + s, "players/"@ + t, "/battlelog"@);
            lemma_same_front("players/"@, s, t);
        },
        (RouteView::Club(s), RouteView::Club(t)) => {
            lemma_same_front("clubs/"@, s, t);
        },
        (RouteView::ClubMembers(s), RouteView::ClubMembers(t)) => {
            lemma_same_back("clubs/"@ + s, "clubs/"@ + t, "/members"@);
            lemma_same_front("clubs/"@, s, t);
        },
        (
            RouteView::PlayerRankings { country_code: s, limit: m },
            RouteView::PlayerRankings { country_code: t, limit: n },
        ) => {
            reveal_strlit("/players?limit=");
            lemma_limit_split("rankings/"@ + s, "rankings/"@ + t, "/players?limit="@, m as nat, n as nat);
            lemma_same_front("rankings/"@, s, t);
        },
        (
            RouteView::ClubRankings { country_code: s, limit: m },
            RouteView::ClubRankings { country_code: t, limit: n },
        ) => {
            reveal_strlit("/clubs?limit=");
            lemma_limit_split("rankings/"@ + s, "rankings/"@ + t, "/clubs?limit="@, m as nat, n as nat);
            lemma_same_front("rankings/"@, s, t);
        },
        (
            RouteView::BrawlerRankings { country_code: s, brawler_id: i, limit: m },
            RouteView::BrawlerRankings { country_code: t, brawler_id: j, limit: n },
        ) => {
            reveal_strlit("?limit=");
            reveal_strlit("/brawlers/");
            lemma_limit_split(
                "rankings/"@ + s + "/brawlers/"@ + decimal(i as nat),
                "rankings/"@ + t + "/brawlers/"@ + decimal(j as nat),
                "?limit="@,
                m as nat,
                n as nat,
            );
            lemma_limit_split("rankings/"@ + s, "rankings/"@ + t, "/brawlers/"@, i as nat, j as nat);
            lemma_same_front("rankings/"@, s, t);
        },
        (RouteView::Brawler(i), RouteView::Brawler(j)) => {
            lemma_same_front("brawlers/"@, decimal(i as nat), decimal(j as nat));
            decimal_is_injective(i as nat, j as nat);
        },
        _ => {},
    }
}

/// Rendering depends on nothing but the route: two routes with the same endpoint
/// and parameters render to the same URL, so rendering one route twice gives the
/// same text twice.
pub proof fn rendering_is_determined(a: Route, b: Route)
    requires
        a@ == b@,
    ensures
        a@.url() == b@.url(),
{
}

} // verus!
