//! Contains models for each documented Brawl Stars API endpoint.
//!
//! Each endpoint has a model that is fetched from it:
//!
//! - `/players/:tag` -> `Player`;
//! - `/players/:tag/battlelog` -> `BattleLog`;
//! - `/clubs/:tag` -> `Club`;
//! - `/clubs/:tag/members` -> `ClubMembers`;
//! - `/rankings/:country_code/players?limit=x` -> `PlayerLeaderboard`;
//! - `/rankings/:country_code/clubs?limit=x` -> `ClubLeaderboard`;
//! - `/rankings/:country_code/brawlers/:brawler_id?limit=x` -> `BrawlerLeaderboard`;
//! - `/brawlers/` -> `BrawlerList`;
//! - `/brawlers/:id` -> `Brawler`.

pub mod brawlers;
pub mod clubs;
pub mod common;
pub mod players;
pub mod rankings;

pub use brawlers::{Brawler, BrawlerList};
pub use clubs::{Club, ClubMember, ClubMemberRole, ClubMembers, ClubType};
pub use players::{
    Battle, BattleBrawler, BattleEvent, BattleLog, BattleOutcome, BattlePlayer, BattleResultInfo,
    Player, PlayerBrawlerStat, PlayerClub,
};
pub use rankings::{
    BrawlerLeaderboard, ClubLeaderboard, ClubRanking, PlayerLeaderboard, PlayerRanking,
    PlayerRankingClub,
};
