//! Players and battle logs: reading them out of JSON, and their defaults.

use brawl_api::model::players::player::StarPower;
use brawl_api::serde::FromJson;
use brawl_api::time::TimeLike;
use brawl_api::{
    Battle, BattleBrawler, BattleEvent, BattleLog, BattleOutcome, BattlePlayer, BattleResultInfo,
    Player, PlayerBrawlerStat, PlayerClub,
};
use serde_json::Value;

fn json(text: &str) -> Value {
    serde_json::from_str::<Value>(text).unwrap()
}

/// Tests for battlelog deserialization from API-provided JSON.
#[test]
fn battlelog_deser() {
    let battlelog_json_s = r##"{
  "items": [
    {
      "battleTime": "20200131T003432.000Z",
      "event": {
        "id": 15000163,
        "mode": "brawlBall",
        "map": "Coarse Course"
      },
      "battle": {
        "mode": "brawlBall",
        "type": "ranked",
        "result": "victory",
        "duration": 96,
        "trophyChange": 8,
        "starPlayer": {
          "tag": "#CCCCCCCC",
          "name": "User",
          "brawler": {
            "id": 16000008,
            "name": "NITA",
            "power": 10,
            "trophies": 500
          }
        },
        "teams": [
          [
            {
              "tag": "#CCCCCCCC",
              "name": "User",
              "brawler": {
                "id": 16000008,
                "name": "NITA",
                "power": 10,
                "trophies": 500
              }
            },
            {
              "tag": "#RRRAAALLL",
              "name": "Other User",
              "brawler": {
                "id": 16000001,
                "name": "COLT",
                "power": 8,
                "trophies": 510
              }
            },
            {
              "tag": "#GGGGGGGGG",
              "name": "Another User",
              "brawler": {
                "id": 16000018,
                "name": "DARRYL",
                "power": 10,
                "trophies": 520
              }
            }
          ],
          [
            {
              "tag": "#777777777",
              "name": "User User User",
              "brawler": {
                "id": 16000032,
                "name": "MAX",
                "power": 10,
                "trophies": 500
              }
            },
            {
              "tag": "#SUVSUVSUV",
              "name": "User.User?!",
              "brawler": {
                "id": 16000024,
                "name": "ROSA",
                "power": 9,
                "trophies": 400
              }
            },
            {
              "tag": "#QCPJ09J",
              "name": "пользователь",
              "brawler": {
                "id": 16000028,
                "name": "SANDY",
                "power": 10,
                "trophies": 450
              }
            }
          ]
        ]
      }
    }
  ]
}"##;
    let battle_log =
        BattleLog::from_json(&serde_json::from_str::<Value>(battlelog_json_s).unwrap()).unwrap();

    assert_eq!(
        battle_log,
        BattleLog {
            items: vec![
                Battle {
                    battle_time: TimeLike(String::from("20200131T003432.000Z")),
                    event: BattleEvent {
                        id: 15000163,
                        mode: String::from("brawlBall"),
                        map: String::from("Coarse Course")
                    },
                    result: BattleResultInfo {
                        mode: String::from("brawlBall"),
                        battle_type: Some(String::from("ranked")),
                        result: Some(BattleOutcome::Victory),
                        duration: 96,
                        trophy_change: 8,
                        star_player: Some(BattlePlayer {
                            tag: String::from("#CCCCCCCC"),
                            name: String::from("User"),
                            brawler: BattleBrawler {
                                id: 16000008,
                                name: String::from("NITA"),
                                power: 10,
                                trophies: 500
                            }
                        }),
                        teams: Some(vec![
                            vec![
                                BattlePlayer {
                                    tag: String::from("#CCCCCCCC"),
                                    name: String::from("User"),
                                    brawler: BattleBrawler {
                                        id: 16000008,
                                        name: String::from("NITA"),
                                        power: 10,
                                        trophies: 500
                                    }
                                },
                                BattlePlayer {
                                    tag: String::from("#RRRAAALLL"),
                                    name: String::from("Other User"),
                                    brawler: BattleBrawler {
                                        id: 16000001,
                                        name: String::from("COLT"),
                                        power: 8,
                                        trophies: 510
                                    }
                                },
                                BattlePlayer {
                                    tag: String::from("#GGGGGGGGG"),
                                    name: String::from("Another User"),
                                    brawler: BattleBrawler {
                                        id: 16000018,
                                        name: String::from("DARRYL"),
                                        power: 10,
                                        trophies: 520
                                    }
                                }
                            ],
                            vec![
                                BattlePlayer {
                                    tag: String::from("#777777777"),
                                    name: String::from("User User User"),
                                    brawler: BattleBrawler {
                                        id: 16000032,
                                        name: String::from("MAX"),
                                        power: 10,
                                        trophies: 500
                                    }
                                },
                                BattlePlayer {
                                    tag: String::from("#SUVSUVSUV"),
                                    name: String::from("User.User?!"),
                                    brawler: BattleBrawler {
                                        id: 16000024,
                                        name: String::from("ROSA"),
                                        power: 9,
                                        trophies: 400
                                    }
                                },
                                BattlePlayer {
                                    tag: String::from("#QCPJ09J"),
                                    name: String::from("пользователь"),
                                    brawler: BattleBrawler {
                                        id: 16000028,
                                        name: String::from("SANDY"),
                                        power: 10,
                                        trophies: 450
                                    }
                                }
                            ]
                        ]), ..BattleResultInfo::default()
                    }
                }
            ],
            tag: String::from(""),
        }
    );
}

#[test]
fn missing_fields_of_a_player_take_their_defaults() {
    let player = Player::from_json(&json("{}")).unwrap();
    assert_eq!(player, Player::default());
    assert_eq!(player.exp_level, 1);
    assert_eq!(player.name_color, 0xffffff);
    assert_eq!(player.tvt_victories, 0);
    assert_eq!(player.club, None);
    assert!(!player.is_qualified_from_championship_challenge);
    assert!(player.brawlers.is_empty());
    let stat = PlayerBrawlerStat::from_json(&json("{\"trophies\": 12}")).unwrap();
    assert_eq!(stat, PlayerBrawlerStat { trophies: 12, ..PlayerBrawlerStat::default() });
    assert_eq!(stat.rank, 1);
    assert_eq!(stat.power, 1);
}

#[test]
fn a_player_reads_with_its_club_and_brawlers() {
    let player = Player::from_json(&json(
        r##"{"tag": "#PPP", "name": "P", "nameColor": "0xff1ba5f5", "3vs3Victories": 55,
             "expLevel": 120, "isQualifiedFromChampionshipChallenge": true, "newField": {},
             "club": {"tag": "#CCC", "name": "C"},
             "brawlers": [{"id": 16000000, "name": "SHELLY", "power": 10, "rank": 20,
                           "starPowers": [{"id": -23000076, "name": "SHELL SHOCK"}]}]}"##,
    ))
    .unwrap();
    assert_eq!(player.tag, "#PPP");
    assert_eq!(player.name_color, 0xff1ba5f5);
    assert_eq!(player.tvt_victories, 55);
    assert_eq!(player.exp_level, 120);
    assert!(player.is_qualified_from_championship_challenge);
    assert_eq!(
        player.club,
        Some(PlayerClub { tag: String::from("#CCC"), name: String::from("C") })
    );
    assert_eq!(
        player.brawlers,
        vec![PlayerBrawlerStat {
            star_powers: vec![StarPower { name: String::from("SHELL SHOCK"), id: -23000076 }],
            id: 16000000,
            rank: 20,
            trophies: 0,
            highest_trophies: 0,
            power: 10,
            name: String::from("SHELLY"),
        }]
    );
}

#[test]
fn a_player_without_club_reads_from_null_too() {
    assert_eq!(Player::from_json(&json("{\"club\": null}")).unwrap().club, None);
    assert_eq!(Player::from_json(&json("{\"club\": 1}")), None);
    assert_eq!(Player::from_json(&json("{\"expLevel\": null}")), None);
    assert_eq!(Player::from_json(&json("{\"brawlers\": [{\"power\": 256}]}")), None);
    assert_eq!(Player::from_json(&json("{\"brawlers\": [{\"rank\": 65536}]}")), None);
    assert_eq!(
        Player::from_json(&json("{\"isQualifiedFromChampionshipChallenge\": 1}")),
        None
    );
}

#[test]
fn a_solo_battle_reads_with_rank_and_players() {
    let info = BattleResultInfo::from_json(&json(
        r##"{"mode": "soloShowdown", "rank": 3, "trophyChange": -4,
             "players": [{"tag": "#A", "brawler": {"id": 16000001}}]}"##,
    ))
    .unwrap();
    assert_eq!(info.mode, "soloShowdown");
    assert_eq!(info.rank, Some(3));
    assert_eq!(info.trophy_change, -4);
    assert_eq!(info.result, None);
    assert_eq!(info.teams, None);
    assert_eq!(info.battle_type, None);
    assert_eq!(
        info.players,
        Some(vec![BattlePlayer {
            tag: String::from("#A"),
            name: String::new(),
            brawler: BattleBrawler { id: 16000001, name: String::new(), power: 1, trophies: 0 },
        }])
    );
}

#[test]
fn battle_outcomes_read_from_their_names() {
    let outcome = |text: &str| BattleOutcome::from_json(&json(text));
    assert_eq!(outcome("\"victory\""), Some(BattleOutcome::Victory));
    assert_eq!(outcome("\"defeat\""), Some(BattleOutcome::Defeat));
    assert_eq!(outcome("\"draw\""), Some(BattleOutcome::Draw));
    assert_eq!(outcome("\"won\""), None);
    assert_eq!(outcome("1"), None);
    assert_eq!(BattleOutcome::Defeat.name(), "Defeat");
}

#[test]
fn battles_have_initial_values() {
    let battle = Battle::default();
    assert_eq!(battle.battle_time, TimeLike(String::new()));
    assert_eq!(battle.event, BattleEvent::new());
    assert_eq!(BattleEvent::new(), BattleEvent { id: 0, mode: String::new(), map: String::new() });
    assert_eq!(battle.result.battle_type, Some(String::new()));
    assert_eq!(battle.result.rank, None);
    assert_eq!(BattleBrawler::default().power, 1);
    assert_eq!(Battle::from_json(&json("{}")).unwrap().result, BattleResultInfo::default());
    assert_eq!(
        Battle::from_json(&json("{\"battle\": {}}")).unwrap().result,
        BattleResultInfo { battle_type: None, ..BattleResultInfo::default() }
    );
}
