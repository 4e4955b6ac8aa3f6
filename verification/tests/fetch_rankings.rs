//! Tests related to fetching the API `/rankings/` endpoint. The API is played by
//! a function that answers a request with a response held ready.

use brawl_api::http::request::{HttpRequest, Method};
use brawl_api::http::response::{Response, StatusCode};
use brawl_api::serde::FromJson;
use brawl_api::traits::PropLimFetchable;
use brawl_api::{
    BrawlerLeaderboard, Brawlers, Client, ClubLeaderboard, ClubRanking, PlayerLeaderboard,
    PlayerRanking, PlayerRankingClub,
};
use reqwest::header::HeaderMap;

const TEST_RANK_REGION: &str = "global";

const PLAYERS: &str = r##"{"items": [
    {"tag": "#AAA", "name": "First", "nameColor": "0xffa2e3fe", "trophies": 30000, "rank": 1,
     "club": {"name": "Top"}},
    {"tag": "#BBB", "name": "Second", "trophies": 29000, "rank": 2}], "paging": {"cursors": {}}}"##;

const CLUBS: &str = r##"{"items": [
    {"tag": "#CCC", "name": "Top", "trophies": 900000, "rank": 1, "memberCount": 100},
    {"tag": "#DDD"}]}"##;

fn create_test_client() -> Client {
    Client::new("test key")
}

fn answer(request: &HttpRequest, url: &str, body: &str) -> Response {
    assert_eq!(request.method, Method::Get);
    assert_eq!(request.url, url);
    Response { status: StatusCode(200), headers: HeaderMap::new(), body: body.as_bytes().to_vec() }
}

fn first_player() -> PlayerRanking {
    PlayerRanking {
        club: PlayerRankingClub::new("Top"),
        tag: String::from("#AAA"),
        name: String::from("First"),
        trophies: 30000,
        rank: 1,
        name_color: 0xffa2e3fe,
    }
}

/// Checks if player ranking fetching does not error.
#[test]
fn rankings_players_fetch() {
    let client = create_test_client();

    let request = PlayerLeaderboard::fetch_request(&client, TEST_RANK_REGION, 5).unwrap();
    let url = "https://api.brawlstars.com/v1/rankings/global/players?limit=5";
    let board = PlayerLeaderboard::fetch(answer(&request, url, PLAYERS)).unwrap();
    assert_eq!(board.items.len(), 2);
    assert_eq!(board.items[0], first_player());
    assert_eq!(board.items[1].club, PlayerRankingClub::default());
    assert_eq!(board.items[1].name_color, 0xffffff);
}

/// Checks if club ranking fetching does not error.
#[test]
fn rankings_clubs_fetch() {
    let client = create_test_client();

    let request = ClubLeaderboard::fetch_request(&client, TEST_RANK_REGION, 5).unwrap();
    let url = "https://api.brawlstars.com/v1/rankings/global/clubs?limit=5";
    let board = ClubLeaderboard::fetch(answer(&request, url, CLUBS)).unwrap();
    assert_eq!(board.items.len(), 2);
    assert_eq!(
        board.items[0],
        ClubRanking {
            tag: String::from("#CCC"),
            name: String::from("Top"),
            trophies: 900000,
            rank: 1,
            member_count: 100,
        }
    );
    assert_eq!(board.items[1], ClubRanking { tag: String::from("#DDD"), ..ClubRanking::default() });
}

/// Checks if brawler ranking fetching does not error.
#[test]
fn rankings_brawlers_fetch() {
    let client = create_test_client();
    let test_brawler_id: usize = Brawlers::Shelly.id();

    let request =
        BrawlerLeaderboard::fetch_request(&client, TEST_RANK_REGION, test_brawler_id, 5).unwrap();
    let url = "https://api.brawlstars.com/v1/rankings/global/brawlers/16000000?limit=5";
    let board = BrawlerLeaderboard::fetch(answer(&request, url, PLAYERS)).unwrap();
    assert_eq!(board.items.len(), 2);
    assert_eq!(board.items[0], first_player());
}

#[test]
fn a_leaderboard_without_items_is_empty() {
    let value = serde_json::from_str::<serde_json::Value>("{}").unwrap();
    assert!(PlayerLeaderboard::from_json(&value).unwrap().items.is_empty());
    assert!(ClubLeaderboard::from_json(&value).unwrap().items.is_empty());
    assert!(BrawlerLeaderboard::from_json(&value).unwrap().items.is_empty());
    let value = serde_json::from_str::<serde_json::Value>("{\"items\": {}}").unwrap();
    assert_eq!(PlayerLeaderboard::from_json(&value), None);
    let value = serde_json::from_str::<serde_json::Value>("{\"rank\": 256}").unwrap();
    assert_eq!(PlayerRanking::from_json(&value), None);
}
