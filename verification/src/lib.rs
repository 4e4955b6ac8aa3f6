//! The `brawl_api` crate creates models and fetching methods for the
//! [official Brawl Stars API](https://developer.brawlstars.com).
//!
//! # Requesting
//!
//! A fetch is one request and one response. The library says what to ask, the
//! caller sends it with a transport of its choice, blocking or not, and the
//! library reads what came back into a model or into an [`Error`]:
//!
//! ```rust,ignore
//! use brawl_api::{Client, Player, traits::PropFetchable};
//!
//! let client = Client::new("my auth key");
//! let request = Player::fetch_request(&client, "#PLAYERTAGHERE")?;
//! let response = send(request)?; // with the transport at hand
//! let player = Player::fetch("#PLAYERTAGHERE", response)?;
//! ```
//!
//! The library itself never touches the network: it repeats no request, waits
//! for nothing and keeps no state between fetches. A ratelimit of the API is
//! reported (see [`Error::Ratelimited`]), not enforced.
//!
//! # Models
//!
//! Each endpoint has a model (see the [`model`] module). A model is found by a
//! property, such as a tag, which leads to a [`Route`], and reads from the JSON
//! that the API sends. The API leaves every field optional: a field that a body
//! lacks takes the initial value that the model documents, and a field that the
//! library does not know is passed over.
//!
//! # Tags
//!
//! A tag is sent with its hash sign in percent-encoded form. A [`Client`] made
//! by [`Client::new`] adds the sign to a tag that lacks it; one made by
//! [`Client::with_auto_hashtag`] can leave such a tag as it is.
//!
//! # What is proved
//!
//! The library is verified with [Verus](https://github.com/verus-lang/verus):
//! every function says in its `ensures` what it returns, and Verus proves that
//! it does, without a panic or an overflow on the way. The values of `reqwest`,
//! `serde_json`, `url` and `chrono` are opaque to Verus. What the library takes
//! for granted about them is written down in the modules [`http::headers`] and
//! [`json`] and beside the few other calls into these crates.

pub mod clone;
pub mod constants;
pub mod error;
pub mod http;
pub mod json;
pub mod model;
pub mod serde;
pub mod text;
pub mod time;
pub mod traits;
pub mod util;

pub use constants::Brawlers;
pub use error::{APIError, Error};
pub use http::client::Client;
pub use http::request::{HttpRequest, Method, Request};
pub use http::response::{Response, StatusCode};
pub use http::routes::Route;
pub use model::brawlers::{Brawler, BrawlerList};
pub use model::clubs::{Club, ClubMember, ClubMemberRole, ClubMembers, ClubType};
pub use model::common::StarPower;
pub use model::players::battlelog::{
    Battle, BattleBrawler, BattleEvent, BattleLog, BattleOutcome, BattlePlayer, BattleResultInfo,
};
pub use model::players::player::{Player, PlayerBrawlerStat, PlayerClub};
pub use model::rankings::brawlers::BrawlerLeaderboard;
pub use model::rankings::clubs::{ClubLeaderboard, ClubRanking};
pub use model::rankings::players::{PlayerLeaderboard, PlayerRanking, PlayerRankingClub};
pub use time::{TimeLike, Timestamp};
