//! Models for all `/players/:tag/...` Brawl Stars API endpoints.

pub mod battlelog;
pub mod player;

pub use battlelog::{
    Battle, BattleBrawler, BattleEvent, BattleLog, BattleOutcome, BattlePlayer, BattleResultInfo,
};
pub use player::{Player, PlayerBrawlerStat, PlayerClub, StarPower};
