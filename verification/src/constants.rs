//! Constant values used within the library.

use vstd::prelude::*;

verus! {

/// The initial URL path to the Brawl Stars API v1.
pub const API_URI: &'static str = "https://api.brawlstars.com/v1/";

/// The user agent that tells the API which client made a request.
pub const USER_AGENT: &'static str =
    "Rust (brawl-api crate, 0.1.0 - https://github.com/PgBiel/rust-brawl-api)";

/// The format of the timestamps that the API sends, as `TimeLike::parse` reads them.
pub const TIMELIKE_FORMAT: &'static str = "%Y%m%dT%H%M%S%.fZ";

/// Human-readable names of the brawlers, each standing for the id that the API
/// gives it (see `Brawlers::id`).
#[non_exhaustive]
#[derive(Copy, Debug, Clone, Hash, PartialEq, Eq, Structural)]
pub enum Brawlers {
    Shelly,
    Colt,
    Bull,
    Brock,
    Rico,
    Spike,
    Barley,
    Jessie,
    Nita,
    Dynamike,
    ElPrimo,
    Mortis,
    Crow,
    Poco,
    Bo,
    Piper,
    Pam,
    Tara,
    Darryl,
    Penny,
    Frank,
    Gene,
    Tick,
    Leon,
    Rosa,
    Carl,
    Bibi,
    EightBit,
    Sandy,
    Bea,
    Emz,
    MrP,
    Max,
}

impl Brawlers {
    /// The place of a brawler in the list, from zero.
    pub open spec fn index(self) -> nat {
        match self {
            Brawlers::Shelly => 0,
            Brawlers::Colt => 1,
            Brawlers::Bull => 2,
            Brawlers::Brock => 3,
            Brawlers::Rico => 4,
            Brawlers::Spike => 5,
            Brawlers::Barley => 6,
            Brawlers::Jessie => 7,
            Brawlers::Nita => 8,
            Brawlers::Dynamike => 9,
            Brawlers::ElPrimo => 10,
            Brawlers::Mortis => 11,
            Brawlers::Crow => 12,
            Brawlers::Poco => 13,
            Brawlers::Bo => 14,
            Brawlers::Piper => 15,
            Brawlers::Pam => 16,
            Brawlers::Tara => 17,
            Brawlers::Darryl => 18,
            Brawlers::Penny => 19,
            Brawlers::Frank => 20,
            Brawlers::Gene => 21,
            Brawlers::Tick => 22,
            Brawlers::Leon => 23,
            Brawlers::Rosa => 24,
            Brawlers::Carl => 25,
            Brawlers::Bibi => 26,
            Brawlers::EightBit => 27,
            Brawlers::Sandy => 28,
            Brawlers::Bea => 29,
            Brawlers::Emz => 30,
            Brawlers::MrP => 31,
            Brawlers::Max => 32,
        }
    }

    /// The id of a brawler: ids start at 16000000 and follow the list.
    pub open spec fn spec_id(self) -> nat {
        16000000 + self.index()
    }

    /// The id that the API gives this brawler.
    pub fn id(self) -> (id: usize)
        ensures
            id == self.spec_id(),
    {
        match self {
            Brawlers::Shelly => 16000000,
            Brawlers::Colt => 16000001,
            Brawlers::Bull => 16000002,
            Brawlers::Brock => 16000003,
            Brawlers::Rico => 16000004,
            Brawlers::Spike => 16000005,
            Brawlers::Barley => 16000006,
            Brawlers::Jessie => 16000007,
            Brawlers::Nita => 16000008,
            Brawlers::Dynamike => 16000009,
            Brawlers::ElPrimo => 16000010,
            Brawlers::Mortis => 16000011,
            Brawlers::Crow => 16000012,
            Brawlers::Poco => 16000013,
            Brawlers::Bo => 16000014,
            Brawlers::Piper => 16000015,
            Brawlers::Pam => 16000016,
            Brawlers::Tara => 16000017,
            Brawlers::Darryl => 16000018,
            Brawlers::Penny => 16000019,
            Brawlers::Frank => 16000020,
            Brawlers::Gene => 16000021,
            Brawlers::Tick => 16000022,
            Brawlers::Leon => 16000023,
            Brawlers::Rosa => 16000024,
            Brawlers::Carl => 16000025,
            Brawlers::Bibi => 16000026,
            Brawlers::EightBit => 16000027,
            Brawlers::Sandy => 16000028,
            Brawlers::Bea => 16000029,
            Brawlers::Emz => 16000030,
            Brawlers::MrP => 16000031,
            Brawlers::Max => 16000032,
        }
    }
}

} // verus!
