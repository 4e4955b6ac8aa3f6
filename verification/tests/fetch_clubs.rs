//! Tests related to fetching the API `/clubs/` endpoint. The API is played by a
//! function that answers a request with a response held ready.

use brawl_api::http::request::{HttpRequest, Method};
use brawl_api::http::response::{Response, StatusCode};
use brawl_api::traits::{FetchFrom, Fetching, PropFetchable, Refetchable};
use brawl_api::{Client, Club, ClubMembers, ClubRanking, PlayerClub};
use reqwest::header::HeaderMap;

const CLUB: &str = r##"{"tag": "#GGGGGGG", "name": "Club", "type": "inviteOnly",
    "members": [{"tag": "#PPP200JJJ", "role": "president"}, {"tag": "#CCCCCCCCCC"}]}"##;

const MEMBERS: &str = r##"{"items": [{"tag": "#PPP200JJJ", "role": "president"},
    {"tag": "#CCCCCCCCCC"}], "paging": {"cursors": {}}}"##;

fn get_tag_client() -> (String, Client) {
    (String::from("#GGGGGGG"), Client::new("test key"))
}

fn answer(request: &HttpRequest, url: &str, body: &str) -> Response {
    assert_eq!(request.method, Method::Get);
    assert_eq!(request.url, url);
    Response { status: StatusCode(200), headers: HeaderMap::new(), body: body.as_bytes().to_vec() }
}

/// Checks if club fetching does not error and returns the correct club.
#[test]
fn club_fetch() {
    let (tag, client) = get_tag_client();

    let request = Club::fetch_request(&client, &*tag).unwrap();
    let response = answer(&request, "https://api.brawlstars.com/v1/clubs/%23GGGGGGG", CLUB);
    let club = Club::fetch(&*tag, response).unwrap();

    assert_eq!(club.tag, tag);

    assert_eq!(club.members.tag, club.tag);
    assert_eq!(club.members.items.len(), 2);
    assert_eq!(club.name, "Club");
}

/// Checks if club member fetching does not error.
#[test]
fn club_members_fetch() {
    let (tag, client) = get_tag_client();

    let request = ClubMembers::fetch_request(&client, &*tag).unwrap();
    let url = "https://api.brawlstars.com/v1/clubs/%23GGGGGGG/members";
    let members = ClubMembers::fetch(&*tag, answer(&request, url, MEMBERS)).unwrap();

    assert_eq!(members.tag, tag);
    assert_eq!(members.items.len(), 2);
    assert_eq!(members.items[1].tag, "#CCCCCCCCCC");
}

#[test]
fn the_client_decides_whether_a_tag_is_completed() {
    let url = "https://api.brawlstars.com/v1/clubs/";
    let completing = Client::new("k");
    let strict = Client::with_auto_hashtag("k", false);
    let request = Club::fetch_request(&completing, "GGG").unwrap();
    assert_eq!(request.url, format!("{}%23GGG", url));
    let request = Club::fetch_request(&strict, "GGG").unwrap();
    assert_eq!(request.url, format!("{}GGG", url));
    let request = Club::fetch_request(&strict, "#GGG").unwrap();
    assert_eq!(request.url, format!("{}%23GGG", url));
    let request = ClubMembers::fetch_request(&strict, "GGG").unwrap();
    assert_eq!(request.url, format!("{}GGG/members", url));
}

#[test]
fn a_club_is_fetched_again_by_its_tag() {
    let (tag, client) = get_tag_client();
    let mut club = Club { tag: tag.clone(), ..Club::default() };
    let request = club.refetch_request(&client).unwrap();
    let url = "https://api.brawlstars.com/v1/clubs/%23GGGGGGG";
    assert_eq!(request.url, Club::fetch_request(&client, &tag).unwrap().url);
    let fresh = club.refetch(answer(&request, url, CLUB)).unwrap();
    assert_eq!(fresh.name, "Club");
    assert_eq!(club.name, "");
    club.refetch_update(answer(&request, url, CLUB)).unwrap();
    assert_eq!(club, fresh);
    let members = ClubMembers { tag: tag.clone(), items: vec![] };
    let request = members.refetch_request(&client).unwrap();
    assert_eq!(request.url, "https://api.brawlstars.com/v1/clubs/%23GGGGGGG/members");
    let fresh = members.refetch(answer(&request, &request.url, MEMBERS)).unwrap();
    assert_eq!(fresh.tag, tag);
    assert_eq!(fresh.items, club.members.items);
}

#[test]
fn a_club_is_fetched_from_what_names_its_tag() {
    let (tag, client) = get_tag_client();
    let url = "https://api.brawlstars.com/v1/clubs/%23GGGGGGG";
    let player_club = PlayerClub { tag: tag.clone(), name: String::from("Club") };
    match <Club as FetchFrom<PlayerClub>>::fetch_from(&client, &player_club).unwrap() {
        Fetching::Asking(request) => {
            let club = Club::fetch_from_response(&player_club, answer(&request, url, CLUB)).unwrap();
            assert_eq!(club.tag, tag);
            assert_eq!(club.members.tag, tag);
        }
        Fetching::Ready(_) => panic!("a request was expected"),
    }
    let ranking = ClubRanking { tag: tag.clone(), ..ClubRanking::default() };
    match <Club as FetchFrom<ClubRanking>>::fetch_from(&client, &ranking).unwrap() {
        Fetching::Asking(request) => assert_eq!(request.url, url),
        Fetching::Ready(_) => panic!("a request was expected"),
    }
}
