//! Tests related to fetching the API `/brawlers/` endpoint. The API is played by
//! a function that answers a request with a response held ready.

use brawl_api::error::Error;
use brawl_api::http::request::{HttpRequest, Method};
use brawl_api::http::response::{Response, StatusCode};
use brawl_api::model::common::StarPower;
use brawl_api::traits::{FetchFrom, FetchInto, Fetching, Refetchable};
use brawl_api::{BattleBrawler, Brawler, BrawlerList, Brawlers, Client, PlayerBrawlerStat};
use reqwest::header::HeaderMap;

const SHELLY: &str = r##"{"id": 16000000, "name": "SHELLY",
    "starPowers": [{"id": 23000076, "name": "SHELL SHOCK"}, {"id": 23000135, "name": "BAND-AID"}]}"##;

fn create_test_client() -> Client {
    Client::new("test key")
}

fn answer(request: &HttpRequest, url: &str, status: u16, body: &str) -> Response {
    assert_eq!(request.method, Method::Get);
    assert_eq!(request.url, url);
    assert_eq!(request.headers.get("authorization").unwrap(), "Bearer test key");
    Response { status: StatusCode(status), headers: HeaderMap::new(), body: body.as_bytes().to_vec() }
}

fn shelly() -> Brawler {
    Brawler {
        name: String::from("SHELLY"),
        id: 16000000,
        star_powers: vec![
            StarPower { name: String::from("SHELL SHOCK"), id: 23000076 },
            StarPower { name: String::from("BAND-AID"), id: 23000135 },
        ],
    }
}

/// Checks if brawler list fetching does not error.
#[test]
fn brawlers_fetch() {
    let client = create_test_client();

    let request = BrawlerList::fetch_request(&client).unwrap();
    let body = format!("{{\"items\": [{}, {{\"id\": 16000001}}], \"paging\": {{}}}}", SHELLY);
    let response = answer(&request, "https://api.brawlstars.com/v1/brawlers/", 200, &body);
    let list = BrawlerList::fetch(response).unwrap();
    assert_eq!(list.items.len(), 2);
    assert_eq!(list.items[0], shelly());
    assert_eq!(list.items[1], Brawler { id: 16000001, ..Brawler::default() });
}

/// Checks if brawler data fetching does not error.
#[test]
fn brawler_fetch() {
    let client = create_test_client();
    let test_brawler_id: usize = Brawlers::Shelly.id();

    let request = Brawler::fetch_request(&client, test_brawler_id).unwrap();
    let response = answer(&request, "https://api.brawlstars.com/v1/brawlers/16000000", 200, SHELLY);
    assert_eq!(Brawler::fetch(response).unwrap(), shelly());
}

#[test]
fn a_brawler_is_fetched_again_by_its_id() {
    let client = create_test_client();
    let mut brawler = Brawler { id: 16000000, ..Brawler::default() };
    let request = brawler.refetch_request(&client).unwrap();
    assert_eq!(request.url, Brawler::fetch_request(&client, brawler.get_fetch_prop()).unwrap().url);
    let url = "https://api.brawlstars.com/v1/brawlers/16000000";
    let fresh = brawler.refetch(answer(&request, url, 200, SHELLY)).unwrap();
    assert_eq!(fresh, shelly());
    assert_eq!(brawler, Brawler { id: 16000000, ..Brawler::default() });
    brawler.refetch_update(answer(&request, url, 200, SHELLY)).unwrap();
    assert_eq!(brawler, shelly());
    let failed = brawler.refetch_update(answer(&request, url, 500, ""));
    assert!(matches!(failed, Err(Error::Status(StatusCode(500), None, None))));
    assert_eq!(brawler, shelly());
}

#[test]
fn a_brawler_is_fetched_from_what_names_its_id() {
    let client = create_test_client();
    let url = "https://api.brawlstars.com/v1/brawlers/16000000";
    let stat = PlayerBrawlerStat { id: 16000000, ..PlayerBrawlerStat::default() };
    match <Brawler as FetchFrom<PlayerBrawlerStat>>::fetch_from(&client, &stat).unwrap() {
        Fetching::Asking(request) => {
            let response = answer(&request, url, 200, SHELLY);
            assert_eq!(Brawler::fetch_from_response(&stat, response).unwrap(), shelly());
        }
        Fetching::Ready(_) => panic!("a request was expected"),
    }
    let battle_brawler = BattleBrawler { id: 16000000, ..BattleBrawler::default() };
    match <Brawler as FetchFrom<BattleBrawler>>::fetch_from(&client, &battle_brawler).unwrap() {
        Fetching::Asking(request) => assert_eq!(request.url, url),
        Fetching::Ready(_) => panic!("a request was expected"),
    }
    let into: Fetching<Brawler> = Brawlers::Shelly.fetch_into(&client).unwrap();
    match into {
        Fetching::Asking(request) => {
            let response = answer(&request, url, 200, SHELLY);
            let brawler: Brawler = Brawlers::Shelly.fetch_into_response(response).unwrap();
            assert_eq!(brawler, shelly());
        }
        Fetching::Ready(_) => panic!("a request was expected"),
    }
}

#[test]
fn fetching_a_brawler_from_a_brawler_asks_nothing() {
    let client = create_test_client();
    let brawler = shelly();
    match <Brawler as FetchFrom<Brawler>>::fetch_from(&client, &brawler).unwrap() {
        Fetching::Ready(copy) => assert_eq!(copy, brawler),
        Fetching::Asking(_) => panic!("no request was expected"),
    }
    let response =
        Response { status: StatusCode(500), headers: HeaderMap::new(), body: vec![] };
    let copy = <Brawler as FetchFrom<Brawler>>::fetch_from_response(&brawler, response).unwrap();
    assert_eq!(copy, brawler);
}

#[test]
fn a_failed_fetch_gives_the_error_of_the_response() {
    let client = create_test_client();
    let request = Brawler::fetch_request(&client, 1).unwrap();
    let url = "https://api.brawlstars.com/v1/brawlers/1";
    let error = Brawler::fetch(answer(&request, url, 404, "{\"reason\": \"notFound\"}")).unwrap_err();
    match error {
        Error::Status(status, Some(api_error), Some(_)) => {
            assert_eq!(status, StatusCode(404));
            assert_eq!(api_error.reason, "notFound");
        }
        other => panic!("expected a status error, got {:?}", other),
    }
    let error = Brawler::fetch(answer(&request, url, 200, "{\"id\": \"one\"}")).unwrap_err();
    assert!(matches!(error, Error::Json(_)));
    let error = Brawler::fetch(answer(&request, url, 200, "")).unwrap_err();
    assert!(matches!(error, Error::Json(_)));
    let mut response = answer(&request, url, 200, SHELLY);
    response.headers.insert("x-ratelimit-reset", "5".parse().unwrap());
    assert_eq!(Brawler::fetch(response).unwrap(), shelly());
}
