//! Models for all `/rankings/:country_code/...` Brawl Stars API endpoints.

pub mod brawlers;
pub mod clubs;
pub mod players;

pub use brawlers::BrawlerLeaderboard;
pub use clubs::{ClubLeaderboard, ClubRanking};
pub use players::{PlayerLeaderboard, PlayerRanking, PlayerRankingClub};
