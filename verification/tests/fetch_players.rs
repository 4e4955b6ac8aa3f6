//! Tests related to fetching the API `/players/` endpoint. The API is played by
//! a function that answers a request with a response held ready.

use brawl_api::http::request::{HttpRequest, Method};
use brawl_api::http::response::{Response, StatusCode};
use brawl_api::traits::{FetchFrom, FetchInto, Fetching, PropFetchable, Refetchable};
use brawl_api::{
    BattleLog, BattlePlayer, Client, ClubMember, Player, PlayerRanking, PlayerRankingClub,
};
use reqwest::header::HeaderMap;

const PLAYER: &str = r##"{"tag": "#PPP200JJJ", "name": "Member #1", "nameColor": "0xffff8afb",
    "trophies": 500, "3vs3Victories": 7}"##;

const BATTLELOG: &str = r##"{"items": [{"battleTime": "20200131T003432.000Z",
    "event": {"id": 15000163, "mode": "brawlBall", "map": "Coarse Course"},
    "battle": {"mode": "brawlBall", "type": "ranked", "result": "victory", "duration": 96}}]}"##;

fn get_tag_client() -> (String, Client) {
    (String::from("#PPP200JJJ"), Client::new("test key"))
}

fn answer(request: &HttpRequest, url: &str, body: &str) -> Response {
    assert_eq!(request.method, Method::Get);
    assert_eq!(request.url, url);
    Response { status: StatusCode(200), headers: HeaderMap::new(), body: body.as_bytes().to_vec() }
}

/// Checks if player fetching does not error and returns the correct player.
#[test]
fn player_fetch() {
    let (tag, client) = get_tag_client();

    let request = Player::fetch_request(&client, &*tag).unwrap();
    let response = answer(&request, "https://api.brawlstars.com/v1/players/%23PPP200JJJ", PLAYER);
    let player = Player::fetch(&*tag, response).unwrap();

    assert_eq!(player.tag, tag);
    assert_eq!(player.name_color, 0xffff8afb);
    assert_eq!(player.exp_level, 1);
}

/// Checks if a battlelog fetching does not error.
#[test]
fn battlelog_fetch() {
    let (tag, client) = get_tag_client();

    let request = BattleLog::fetch_request(&client, &*tag).unwrap();
    let url = "https://api.brawlstars.com/v1/players/%23PPP200JJJ/battlelog";
    let log = BattleLog::fetch(&*tag, answer(&request, url, BATTLELOG)).unwrap();
    assert_eq!(log.tag, tag);
    assert_eq!(log.items.len(), 1);
    assert_eq!(log.items[0].event.map, "Coarse Course");
    assert_eq!(log.items[0].result.duration, 96);
}

#[test]
fn a_player_is_fetched_again_by_its_tag() {
    let (tag, client) = get_tag_client();
    let player = Player { tag: tag.clone(), ..Player::default() };
    let request = player.refetch_request(&client).unwrap();
    assert_eq!(request.url, "https://api.brawlstars.com/v1/players/%23PPP200JJJ");
    assert_eq!(request.url, Player::fetch_request(&client, &tag).unwrap().url);
    let fresh = player.refetch(answer(&request, &request.url, PLAYER)).unwrap();
    assert_eq!(fresh.trophies, 500);
    assert_eq!(player.trophies, 0);
    let log = BattleLog { tag: tag.clone(), items: vec![] };
    let request = log.refetch_request(&client).unwrap();
    assert_eq!(request.url, "https://api.brawlstars.com/v1/players/%23PPP200JJJ/battlelog");
}

#[test]
fn a_player_is_fetched_from_what_names_its_tag() {
    let (tag, client) = get_tag_client();
    let url = "https://api.brawlstars.com/v1/players/%23PPP200JJJ";
    let member = ClubMember { tag: tag.clone(), ..ClubMember::default() };
    match <Player as FetchFrom<ClubMember>>::fetch_from(&client, &member).unwrap() {
        Fetching::Asking(request) => {
            let response = answer(&request, url, PLAYER);
            let player = Player::fetch_from_response(&member, response).unwrap();
            assert_eq!(player.tag, tag);
            assert_eq!(player.tvt_victories, 7);
        }
        Fetching::Ready(_) => panic!("a request was expected"),
    }
    let battle_player = BattlePlayer { tag: tag.clone(), ..BattlePlayer::default() };
    match <Player as FetchFrom<BattlePlayer>>::fetch_from(&client, &battle_player).unwrap() {
        Fetching::Asking(request) => assert_eq!(request.url, url),
        Fetching::Ready(_) => panic!("a request was expected"),
    }
    let ranking = PlayerRanking {
        club: PlayerRankingClub::new("Club"),
        tag: tag.clone(),
        name: String::new(),
        trophies: 0,
        rank: 1,
        name_color: 0xffffff,
    };
    let step: Fetching<Player> = ranking.fetch_into(&client).unwrap();
    match step {
        Fetching::Asking(request) => assert_eq!(request.url, url),
        Fetching::Ready(_) => panic!("a request was expected"),
    }
}

#[test]
fn a_battle_log_is_fetched_from_a_player() {
    let (tag, client) = get_tag_client();
    let player = Player { tag: tag.clone(), ..Player::default() };
    match <BattleLog as FetchFrom<Player>>::fetch_from(&client, &player).unwrap() {
        Fetching::Asking(request) => {
            let url = "https://api.brawlstars.com/v1/players/%23PPP200JJJ/battlelog";
            let log =
                BattleLog::fetch_from_response(&player, answer(&request, url, BATTLELOG)).unwrap();
            assert_eq!(log.tag, tag);
            assert_eq!(log.items.len(), 1);
        }
        Fetching::Ready(_) => panic!("a request was expected"),
    }
}

#[test]
fn fetching_a_player_from_a_player_asks_nothing() {
    let (tag, client) = get_tag_client();
    let player = Player { tag, trophies: 3, ..Player::default() };
    match <Player as FetchFrom<Player>>::fetch_from(&client, &player).unwrap() {
        Fetching::Ready(copy) => assert_eq!(copy, player),
        Fetching::Asking(_) => panic!("no request was expected"),
    }
}
